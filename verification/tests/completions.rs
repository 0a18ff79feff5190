use lsp_overlays::completions::{
    InlineCompletion, InlineSuggestion, InlineTrigger, InputState, MenuUpdate,
    DEFAULT_INLINE_COMPLETION_DEBOUNCE_MS,
};
use lsp_overlays::request::{CompletionRequest, TriggerKind};
use lsp_overlays::text::is_valid_offset;
use lsp_types::{CompletionItem, InlineCompletionItem};
use ropey::Rope;

struct RecordingCompletionProvider;

fn input(text: &str, cursor: usize) -> InputState<RecordingCompletionProvider> {
    InputState {
        text: Rope::from_str(text),
        cursor,
        disabled: false,
        completion_inserting: false,
        completion_provider: None,
        inline_completion: InlineCompletion::default(),
        pending_completion: None,
        completion_generation: 0,
        inline_generation: 0,
    }
}

fn suggestion(text: &str) -> InlineSuggestion {
    InlineSuggestion {
        insert_text: text.to_string(),
        item: InlineCompletionItem {
            insert_text: text.to_string(),
            filter_text: None,
            range: None,
            command: None,
            insert_text_format: None,
        },
    }
}

fn item(label: &str) -> CompletionItem {
    CompletionItem { label: label.to_string(), ..Default::default() }
}

#[test]
fn explicit_completion_requests_at_cursor_without_editing() {
    let mut state = input("value.cl", 0);
    state.completion_provider = Some(RecordingCompletionProvider);
    state.cursor = "value.cl".len();
    let plan = state.request_completions();
    assert!(plan.is_some());
    assert_eq!(state.text.to_string(), "value.cl");
    let plan = plan.unwrap();
    assert_eq!(
        plan.request,
        CompletionRequest {
            offset: "value.cl".len(),
            trigger_kind: TriggerKind::Invoked,
            trigger_character: None,
        }
    );
    assert!(plan.hide_menu);
    assert_eq!(plan.start_offset, 8);
    assert_eq!(plan.query, "");
}

#[test]
fn explicit_completion_is_disabled_without_a_mutable_provider() {
    let mut state = input("", 0);
    assert!(state.request_completions().is_none());
    state.completion_provider = Some(RecordingCompletionProvider);
    state.disabled = true;
    assert!(state.request_completions().is_none());
}

#[test]
fn editor_trigger_plans_a_trimmed_query() {
    let mut state = input("call( ab", 8);
    state.completion_provider = Some(RecordingCompletionProvider);
    let outcome = state.handle_completion_trigger(&(4..5), |offset| offset == 5, None);
    assert!(outcome.notify);
    assert_eq!(outcome.inline_completion.map(|s| s.offset), Some(8));
    let plan = outcome.plan.expect("plan");
    assert!(!plan.hide_menu);
    assert_eq!(plan.start_offset, 5);
    assert_eq!(plan.query, "ab");
    assert_eq!(plan.request.offset, 8);
    assert_eq!(plan.request.trigger_kind, TriggerKind::TriggerCharacter);
    assert_eq!(plan.request.trigger_character.as_deref(), Some("ab"));
    assert_eq!(state.pending_completion, Some(plan.generation));
}

#[test]
fn editor_trigger_uses_the_start_the_menu_remembers() {
    let mut state = input("value.clo", 9);
    state.completion_provider = Some(RecordingCompletionProvider);
    let plan = state.handle_completion_trigger(&(8..9), |_| true, Some(6)).plan.expect("plan");
    assert_eq!(plan.start_offset, 6);
    assert_eq!(plan.query, "clo");
    // A cursor before the remembered start plans nothing.
    state.cursor = 2;
    let outcome = state.handle_completion_trigger(&(1..2), |_| true, Some(6));
    assert!(outcome.plan.is_none());
    assert_eq!(outcome.inline_completion.map(|s| s.offset), Some(2));
    assert_eq!(state.pending_completion, Some(plan.generation));
}

#[test]
fn editor_trigger_does_nothing_while_inserting_or_without_provider() {
    let mut state = input("ab", 2);
    let outcome = state.handle_completion_trigger(&(1..2), |_| true, None);
    assert!(outcome.plan.is_none() && outcome.inline_completion.is_none() && !outcome.notify);
    state.completion_provider = Some(RecordingCompletionProvider);
    state.completion_inserting = true;
    state.inline_completion.item = Some(suggestion("c"));
    let outcome = state.handle_completion_trigger(&(1..2), |_| true, None);
    assert!(outcome.plan.is_none() && outcome.inline_completion.is_none());
    assert!(state.has_inline_completion());
    state.completion_inserting = false;
    let outcome = state.handle_completion_trigger(&(1..2), |_| false, None);
    assert!(outcome.plan.is_none());
    assert_eq!(outcome.inline_completion.map(|s| s.offset), Some(2));
    assert!(!state.has_inline_completion());
}

#[test]
fn completion_answers_hide_show_or_keep_the_menu() {
    let mut state = input("a", 1);
    state.completion_provider = Some(RecordingCompletionProvider);
    let p = state.request_completions().unwrap();
    assert!(matches!(state.settle_completion_response(p.generation, Vec::new(), false), MenuUpdate::Hide));
    let p = state.request_completions().unwrap();
    assert!(matches!(state.settle_completion_response(p.generation, vec![item("x")], false), MenuUpdate::Keep));
    let p = state.request_completions().unwrap();
    match state.settle_completion_response(p.generation, vec![item("x")], true) {
        MenuUpdate::Show(items) => assert_eq!(items[0].label, "x"),
        _ => panic!("expected the items to be shown"),
    }
    assert_eq!(state.pending_completion, None);
}

#[test]
fn stale_completion_answer_is_ignored() {
    let mut state = input("a", 1);
    state.completion_provider = Some(RecordingCompletionProvider);
    let first = state.request_completions().unwrap();
    let second = state.request_completions().unwrap();
    assert!(matches!(state.settle_completion_response(first.generation, Vec::new(), true), MenuUpdate::Keep));
    assert_eq!(state.pending_completion, Some(second.generation));
    assert!(matches!(state.settle_completion_response(second.generation, Vec::new(), true), MenuUpdate::Hide));
}

#[test]
fn inline_completion_is_scheduled_fetched_applied_and_accepted() {
    assert_eq!(DEFAULT_INLINE_COMPLETION_DEBOUNCE_MS, 300);
    let mut state = input("let x", 5);
    assert_eq!(state.schedule_inline_completion(), (true, None));
    state.completion_provider = Some(RecordingCompletionProvider);
    let (notify, schedule) = state.schedule_inline_completion();
    assert!(notify);
    let schedule = schedule.expect("scheduled");
    assert_eq!(schedule.offset, 5);
    // The text changes during the debounce delay; the fetch still uses the
    // text as it was when scheduled.
    state.text = Rope::from_str("let xy");
    let fetch = state.start_inline_fetch(schedule.generation, false).expect("fetch");
    assert_eq!(fetch.text.to_string(), "let x");
    assert_eq!(fetch.offset, 5);
    assert_eq!(fetch.trigger, InlineTrigger::Automatic);
    // At most once.
    assert!(state.start_inline_fetch(schedule.generation, false).is_none());
    state.text = Rope::from_str("let x");
    assert!(state.apply_inline_completion(
        schedule.generation,
        false,
        vec![suggestion(" = 1;"), suggestion(" = 2;")]
    ));
    assert!(state.has_inline_completion());
    assert!(state.accept_inline_completion());
    assert_eq!(state.text.to_string(), "let x = 1;");
    assert_eq!(state.cursor, 10);
    assert!(!state.has_inline_completion());
    assert!(!state.accept_inline_completion());
    assert_eq!(state.text.to_string(), "let x = 1;");
}

#[test]
fn inline_fetch_ends_when_the_cursor_moved_or_the_menu_is_open() {
    let mut state = input("let x", 5);
    state.completion_provider = Some(RecordingCompletionProvider);
    let (_, schedule) = state.schedule_inline_completion();
    let schedule = schedule.unwrap();
    assert!(state.start_inline_fetch(schedule.generation, true).is_none());
    assert!(state.inline_completion.pending.is_none());
    let (_, schedule) = state.schedule_inline_completion();
    let schedule = schedule.unwrap();
    state.cursor = 4;
    assert!(state.start_inline_fetch(schedule.generation, false).is_none());
    assert!(!state.apply_inline_completion(schedule.generation, false, vec![suggestion("y")]));
    assert!(!state.has_inline_completion());
}

#[test]
fn accepted_suggestion_is_inserted_at_the_cursor_in_the_middle() {
    let mut state = input("fé()", 3);
    state.completion_provider = Some(RecordingCompletionProvider);
    let (_, schedule) = state.schedule_inline_completion();
    let generation = schedule.unwrap().generation;
    assert!(state.start_inline_fetch(generation, false).is_some());
    assert!(state.apply_inline_completion(generation, false, vec![suggestion("ñ")]));
    assert!(state.accept_inline_completion());
    assert_eq!(state.text.to_string(), "féñ()");
    assert_eq!(state.cursor, 5);
    assert!(state.cursor_is_valid());
}

#[test]
fn stale_inline_completion_is_dropped() {
    let mut state = input("let x", 5);
    state.completion_provider = Some(RecordingCompletionProvider);
    let (_, first) = state.schedule_inline_completion();
    let (_, second) = state.schedule_inline_completion();
    let (first, second) = (first.unwrap(), second.unwrap());
    assert!(state.start_inline_fetch(first.generation, false).is_none());
    assert!(!state.apply_inline_completion(first.generation, false, vec![suggestion("y")]));
    assert!(!state.has_inline_completion());
    // An answer before the fetch started is not taken either.
    assert!(!state.apply_inline_completion(second.generation, false, vec![suggestion("y")]));
    assert!(state.start_inline_fetch(second.generation, false).is_some());
    state.cursor = 4;
    assert!(!state.apply_inline_completion(second.generation, false, vec![suggestion("y")]));
    assert!(!state.has_inline_completion());
    state.cursor = 5;
    let (_, third) = state.schedule_inline_completion();
    let third = third.unwrap().generation;
    state.start_inline_fetch(third, false).unwrap();
    assert!(!state.apply_inline_completion(third, true, vec![suggestion("y")]));
    let (_, fourth) = state.schedule_inline_completion();
    let fourth = fourth.unwrap().generation;
    state.start_inline_fetch(fourth, false).unwrap();
    assert!(!state.apply_inline_completion(fourth, false, Vec::new()));
    let (_, fifth) = state.schedule_inline_completion();
    let fifth = fifth.unwrap().generation;
    state.start_inline_fetch(fifth, false).unwrap();
    assert!(state.apply_inline_completion(fifth, false, vec![suggestion("y")]));
    assert!(state.clear_inline_completion());
    assert!(!state.has_inline_completion());
    assert!(!state.accept_inline_completion());
}

#[test]
fn unreadable_word_start_gives_an_empty_query() {
    let mut state = input("é.ab", 5);
    state.completion_provider = Some(RecordingCompletionProvider);
    // Byte 1 lies inside "é": the word cannot be read, the query is empty.
    let plan = state.handle_completion_trigger(&(2..3), |_| true, Some(1)).plan.expect("plan");
    assert_eq!(plan.start_offset, 1);
    assert_eq!(plan.query, "");
    assert_eq!(plan.request.trigger_character.as_deref(), Some(""));
}

#[test]
fn offsets_are_checked_against_char_boundaries() {
    let rope = Rope::from_str("aé");
    assert!(is_valid_offset(&rope, 0));
    assert!(is_valid_offset(&rope, 1));
    assert!(!is_valid_offset(&rope, 2));
    assert!(is_valid_offset(&rope, 3));
    assert!(!is_valid_offset(&rope, 4));
}
