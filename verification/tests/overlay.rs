use lsp_overlays::overlay::{
    CodeActionItem, CompletionMenuState, DiagnosticEntry, InputBaseState, InputOverlayKind,
};
use lsp_types::{CodeAction, CompletionItem, Diagnostic, Hover, HoverContents, MarkedString};

fn item(label: &str) -> CompletionItem {
    CompletionItem { label: label.to_string(), ..Default::default() }
}

fn action(title: &str) -> CodeActionItem {
    CodeActionItem {
        provider_id: "test".to_string(),
        action: CodeAction { title: title.to_string(), ..Default::default() },
    }
}

fn hover(text: &str) -> Hover {
    Hover { contents: HoverContents::Scalar(MarkedString::String(text.to_string())), range: None }
}

#[test]
fn new_state_is_empty() {
    let state = InputBaseState::new();
    let menu = state.completion_menu_state();
    assert!(!menu.open);
    assert!(menu.items.is_empty());
    assert_eq!(menu.trigger_start_offset, None);
    assert_eq!(menu.revision(), 0);
    assert!(!state.code_action_menu_state().open);
    assert_eq!(state.code_action_menu_state().revision(), 0);
    assert!(state.hover_popover().is_none());
    assert!(state.diagnostic_popover.is_none());
    assert_eq!(CompletionMenuState::default().revision(), 0);
}

#[test]
fn presenting_completions_opens_the_menu_and_bumps_the_revision() {
    let mut state = InputBaseState::new();
    assert!(state.present_completion_items(4, "fo".to_string(), vec![item("foo"), item("for")]));
    let menu = state.completion_menu_state();
    assert!(menu.open);
    assert_eq!(menu.trigger_start_offset, Some(4));
    assert_eq!(menu.query, "fo");
    assert_eq!(menu.items.len(), 2);
    assert_eq!(menu.items[0].label, "foo");
    assert_eq!(menu.revision(), 1);
    // The code-action menu is untouched.
    assert_eq!(state.code_action_menu_state().revision(), 0);
}

#[test]
fn presenting_no_completions_keeps_the_menu_closed_but_bumps_the_revision() {
    let mut state = InputBaseState::new();
    assert!(state.present_completion_items(0, String::new(), Vec::new()));
    assert!(!state.completion_menu_state().open);
    assert_eq!(state.completion_menu_state().revision(), 1);
    // Presenting the very same items again still changes the revision.
    assert!(state.present_completion_items(0, String::new(), Vec::new()));
    assert_eq!(state.completion_menu_state().revision(), 2);
}

#[test]
fn dismissing_the_completion_menu_is_idempotent() {
    let mut state = InputBaseState::new();
    state.present_completion_items(2, "ab".to_string(), vec![item("abc")]);
    assert!(state.dismiss_completion_overlay());
    let menu = state.completion_menu_state();
    assert!(!menu.open);
    assert_eq!(menu.items.len(), 1);
    assert_eq!(menu.query, "ab");
    assert_eq!(menu.revision(), 1);
    assert!(!state.dismiss_completion_overlay());
    assert_eq!(state.completion_menu_state().revision(), 1);
}

#[test]
fn presenting_code_actions_and_dismissing_them() {
    let mut state = InputBaseState::new();
    assert!(state.present_code_actions(vec![action("Fix"), action("Ignore")]));
    assert!(state.code_action_menu_state().open);
    assert_eq!(state.code_action_menu_state().items[1].action.title, "Ignore");
    assert_eq!(state.code_action_menu_state().revision(), 1);
    assert!(state.dismiss_code_action_overlay());
    assert!(!state.code_action_menu_state().open);
    assert_eq!(state.code_action_menu_state().items.len(), 2);
    assert!(!state.dismiss_code_action_overlay());
    assert!(state.present_code_actions(Vec::new()));
    assert!(!state.code_action_menu_state().open);
    assert_eq!(state.code_action_menu_state().revision(), 2);
}

#[test]
fn hover_is_presented_and_cleared_with_the_menus() {
    let mut state = InputBaseState::new();
    state.present_completion_items(0, String::new(), vec![item("x")]);
    state.present_code_actions(vec![action("Fix")]);
    assert!(state.present_hover(3..7, hover("docs")));
    let shown = state.hover_popover().expect("hover shown");
    assert_eq!(shown.symbol_range, 3..7);
    assert_eq!(shown.hover, hover("docs"));
    assert!(state.dismiss_lsp_overlays());
    assert!(state.hover_popover().is_none());
    assert!(!state.completion_menu_state().open);
    assert!(!state.code_action_menu_state().open);
    assert_eq!(state.completion_menu_state().items.len(), 1);
    assert_eq!(state.completion_menu_state().revision(), 1);
}

#[test]
fn diagnostic_popover_is_presented_and_cleared_once() {
    let mut state = InputBaseState::new();
    let diagnostic = Diagnostic { message: "unused".to_string(), ..Default::default() };
    assert!(state.present_diagnostic(DiagnosticEntry { range: 1..4, diagnostic }));
    let shown = state.diagnostic_popover.as_ref().expect("diagnostic shown");
    assert_eq!(shown.range, 1..4);
    assert_eq!(shown.diagnostic.message, "unused");
    assert!(state.clear_diagnostic_popover());
    assert!(state.diagnostic_popover.is_none());
    assert!(!state.clear_diagnostic_popover());
}

#[test]
fn overlay_kinds_are_distinct() {
    assert_ne!(InputOverlayKind::Completion, InputOverlayKind::CodeAction);
    assert_eq!(InputOverlayKind::Completion, InputOverlayKind::Completion);
}
