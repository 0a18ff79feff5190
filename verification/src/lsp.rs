//! The Language Server Protocol types that the overlays carry through
//! unchanged: the library stores and hands them back, but never reads inside
//! them.

use vstd::prelude::*;

verus! {

/// `lsp_types::CompletionItem`, held opaquely in the completion menu.
#[verifier::external_type_specification]
#[verifier::external_body]
pub struct ExCompletionItem(lsp_types::CompletionItem);

/// `lsp_types::Hover`, held opaquely in the hover popover.
#[verifier::external_type_specification]
#[verifier::external_body]
pub struct ExHover(lsp_types::Hover);

/// `lsp_types::CodeAction`, held opaquely in the code-action menu.
#[verifier::external_type_specification]
#[verifier::external_body]
pub struct ExCodeAction(lsp_types::CodeAction);

/// `lsp_types::Diagnostic`, held opaquely in the diagnostic popover.
#[verifier::external_type_specification]
#[verifier::external_body]
pub struct ExDiagnostic(lsp_types::Diagnostic);

/// `lsp_types::InlineCompletionItem`, held opaquely as the inline suggestion.
#[verifier::external_type_specification]
#[verifier::external_body]
pub struct ExInlineCompletionItem(lsp_types::InlineCompletionItem);

/// `Clone` of `lsp_types::Hover`, a derived field-by-field clone of plain
/// data. Claimed: the clone equals the original.
pub assume_specification[ <lsp_types::Hover as Clone>::clone ](
    hover: &lsp_types::Hover,
) -> (res: lsp_types::Hover)
    ensures
        res == *hover,
;

/// `Clone` of `lsp_types::CodeAction`, a derived field-by-field clone of
/// plain data. Claimed: the clone equals the original.
pub assume_specification[ <lsp_types::CodeAction as Clone>::clone ](
    action: &lsp_types::CodeAction,
) -> (res: lsp_types::CodeAction)
    ensures
        res == *action,
;

} // verus!
