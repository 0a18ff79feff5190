use lsp_overlays::completion::{CompletionAction, InputCompletionExtras, InputState, PendingRequest};
use lsp_overlays::overlay::InputOverlayKind;
use lsp_overlays::request::{CompletionRequest, TriggerKind};
use lsp_types::CompletionItem;
use ropey::Rope;

struct Provider;

fn input(text: &str, cursor: usize, provider: bool) -> InputState<Provider> {
    let mut extras = InputCompletionExtras::default();
    if provider {
        extras.provider = Some(Provider);
    }
    InputState {
        text: Rope::from_str(text),
        cursor,
        disabled: false,
        completion_inserting: false,
        extras,
    }
}

fn item(label: &str) -> CompletionItem {
    CompletionItem { label: label.to_string(), ..Default::default() }
}

fn pending(action: CompletionAction) -> PendingRequest {
    match action {
        CompletionAction::Request(pending) => pending,
        _ => panic!("expected a request"),
    }
}

#[test]
fn single_line_request_needs_a_provider_and_an_enabled_input() {
    let mut state = input("value", 5, false);
    assert!(state.request_completions().is_none());
    state.set_completion_provider(Provider);
    state.disabled = true;
    assert!(state.request_completions().is_none());
    assert_eq!(state.completion_menu_state().revision(), 0);
    assert_eq!(state.extras.pending_request, None);
}

#[test]
fn single_line_request_resets_the_menu_at_the_cursor() {
    let mut state = input("value.cl", 8, true);
    let first = state.request_completions().expect("request");
    state.receive_completions(first.generation, vec![item("old")], true);
    assert!(state.is_completion_menu_open());
    let revision = state.completion_menu_state().revision();
    let pending = state.request_completions().expect("request");
    assert_eq!(
        pending.request,
        CompletionRequest { offset: 8, trigger_kind: TriggerKind::Invoked, trigger_character: None }
    );
    assert_eq!(state.extras.pending_request, Some(pending.generation));
    assert_ne!(pending.generation, first.generation);
    let menu = state.completion_menu_state();
    assert!(!menu.open);
    assert!(menu.items.is_empty());
    assert_eq!(menu.trigger_start_offset, Some(8));
    assert_eq!(menu.query, "");
    assert_eq!(menu.revision(), revision + 1);
    assert_eq!(state.text.to_string(), "value.cl");
}

#[test]
fn single_line_trigger_requests_with_the_typed_query() {
    // "value." was followed by typing "cl": the trigger fired at offset 6.
    let mut state = input("value.cl", 8, true);
    let revision = state.completion_menu_state().revision();
    let request = pending(state.handle_completion_trigger(&(5..6), |offset| offset == 6)).request;
    assert_eq!(request.offset, 8);
    assert_eq!(request.trigger_kind, TriggerKind::TriggerCharacter);
    assert_eq!(request.trigger_character.as_deref(), Some("cl"));
    assert_eq!(state.completion_menu_state().trigger_start_offset, Some(6));
    assert_eq!(state.completion_menu_state().query, "cl");
    // The query changed, so the revision did.
    assert_eq!(state.completion_menu_state().revision(), revision + 1);
    // The next keystroke keeps the remembered start of the word.
    state.text = Rope::from_str("value.cla");
    state.cursor = 9;
    let request = pending(state.handle_completion_trigger(&(8..9), |_| true)).request;
    assert_eq!(request.trigger_character.as_deref(), Some("cla"));
    assert_eq!(state.completion_menu_state().trigger_start_offset, Some(6));
    assert_eq!(state.completion_menu_state().revision(), revision + 2);
    // The same query again leaves the revision alone.
    pending(state.handle_completion_trigger(&(8..9), |_| true));
    assert_eq!(state.completion_menu_state().revision(), revision + 2);
}

#[test]
fn single_line_trigger_reads_multibyte_text_by_bytes() {
    // "é" takes two bytes: the word "éa" runs from byte 2 to byte 5.
    let mut state = input("x.éa", 5, true);
    let request = pending(state.handle_completion_trigger(&(1..2), |_| true)).request;
    assert_eq!(request.trigger_character.as_deref(), Some("éa"));
}

#[test]
fn single_line_trigger_is_ignored_when_not_a_trigger_or_inserting() {
    let mut state = input("ab", 2, true);
    assert!(matches!(state.handle_completion_trigger(&(1..2), |_| false), CompletionAction::Ignore));
    state.completion_inserting = true;
    assert!(matches!(state.handle_completion_trigger(&(1..2), |_| true), CompletionAction::Ignore));
    let mut state = input("ab", 2, false);
    assert!(matches!(state.handle_completion_trigger(&(1..2), |_| true), CompletionAction::Ignore));
    assert_eq!(state.completion_menu_state().trigger_start_offset, None);
}

#[test]
fn single_line_trigger_hides_the_menu_when_the_cursor_moved_back() {
    let mut state = input("value.cl", 8, true);
    let request = pending(state.handle_completion_trigger(&(5..6), |_| true));
    state.receive_completions(request.generation, vec![item("clone")], true);
    assert!(state.is_completion_menu_open());
    let late = pending(state.handle_completion_trigger(&(7..8), |_| true));
    state.cursor = 3;
    assert!(matches!(state.handle_completion_trigger(&(2..3), |_| true), CompletionAction::HideMenu));
    assert!(!state.is_completion_menu_open());
    assert_eq!(state.completion_menu_state().items.len(), 1);
    // The hidden menu's request is dropped: its answer is ignored.
    assert_eq!(state.extras.pending_request, None);
    assert!(!state.receive_completions(late.generation, vec![item("x")], true));
    assert!(!state.is_completion_menu_open());
}

#[test]
fn single_line_stale_answer_is_dropped() {
    let mut state = input("ab", 2, true);
    let first = state.request_completions().expect("request");
    let second = state.request_completions().expect("request");
    let revision = state.completion_menu_state().revision();
    assert!(!state.receive_completions(first.generation, vec![item("stale")], true));
    assert!(!state.is_completion_menu_open());
    assert_eq!(state.completion_menu_state().revision(), revision);
    assert!(state.receive_completions(second.generation, vec![item("fresh")], true));
    assert_eq!(state.completion_menu_state().items[0].label, "fresh");
    // A second answer to the same request is not taken either.
    assert!(!state.receive_completions(second.generation, Vec::new(), true));
    assert!(state.is_completion_menu_open());
}

#[test]
fn single_line_response_is_shown_only_with_focus() {
    let mut state = input("a", 1, true);
    let first = state.request_completions().expect("request");
    let revision = state.completion_menu_state().revision();
    assert!(!state.receive_completions(first.generation, vec![item("ab")], false));
    assert!(!state.is_completion_menu_open());
    assert_eq!(state.completion_menu_state().revision(), revision);
    let second = state.request_completions().expect("request");
    let revision = state.completion_menu_state().revision();
    assert!(state.receive_completions(second.generation, vec![item("ab")], true));
    assert!(state.is_completion_menu_open());
    assert_eq!(state.completion_menu_state().revision(), revision + 1);
    let third = state.request_completions().expect("request");
    assert!(state.receive_completions(third.generation, Vec::new(), true));
    assert!(!state.is_completion_menu_open());
}

#[test]
fn single_line_dismiss_reports_whether_the_menu_was_open() {
    let mut state = input("a", 1, true);
    let request = state.request_completions().expect("request");
    state.receive_completions(request.generation, vec![item("ab")], true);
    assert!(state.dismiss_completion_overlay());
    assert!(!state.dismiss_completion_overlay());
    assert_eq!(state.completion_menu_state().items.len(), 1);
}

#[test]
fn single_line_cursor_validity() {
    assert!(input("é", 0, true).cursor_is_valid());
    assert!(!input("é", 1, true).cursor_is_valid());
    assert!(input("é", 2, true).cursor_is_valid());
    assert!(!input("é", 3, true).cursor_is_valid());
}

#[test]
fn single_line_menu_actions_close_only_when_handled_and_closing() {
    let mut state = input("a", 1, true);
    let closed: Option<fn(InputOverlayKind) -> bool> = Some(|_| true);
    assert!(!state.handle_completion_menu_action(closed, true));
    let request = state.request_completions().expect("request");
    state.receive_completions(request.generation, vec![item("ab")], true);
    let none: Option<fn(InputOverlayKind) -> bool> = None;
    assert!(!state.handle_completion_menu_action(none, true));
    assert!(state.is_completion_menu_open());
    let mut seen = None;
    assert!(state.handle_completion_menu_action(
        Some(|kind| {
            seen = Some(kind);
            true
        }),
        false
    ));
    assert_eq!(seen, Some(InputOverlayKind::Completion));
    assert!(state.is_completion_menu_open());
    assert!(!state.handle_completion_menu_action(Some(|_| false), true));
    assert!(state.is_completion_menu_open());
    assert!(state.handle_completion_menu_action(Some(|_| true), true));
    assert!(!state.is_completion_menu_open());
}
