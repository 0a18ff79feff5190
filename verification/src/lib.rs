//! Verified state logic of the LSP overlays of a text input: the completion and
//! code-action menus, the hover and diagnostic popovers, and the decisions that
//! drive completion requests and inline completion suggestions.

pub mod completion;
pub mod completions;
pub mod lsp;
pub mod overlay;
pub mod request;
pub mod text;
