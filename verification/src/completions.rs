//! Completion for the full editor input: menu completion driven by a
//! completion provider, and inline completion suggestions.
//!
//! The completion menu of the editor is a popover of its own, and asking the
//! provider, debouncing and waiting for answers happen outside this module.
//! The functions here decide: they return what to do with the menu and what
//! to ask the provider, and take back what the provider answered. Each
//! request gets a generation; an answer is taken only while its request is
//! the pending one, so an answer to a replaced or dropped request is ignored.

use crate::request::{
    advance_generation, law_next_generation_differs, next_generation, CompletionRequest,
    TriggerKind,
};
use crate::text::{
    insert_text, is_offset, is_valid_offset, is_white_space, lemma_empty_slice, lemma_trim_chars,
    rope_bytes, rope_chars, rope_clone, text_between, trim_chars, trimmed_text_slice,
};
use lsp_types::{CompletionItem, InlineCompletionItem};
use ropey::Rope;
use std::ops::Range;
use vstd::prelude::*;
use vstd::utf8::encode_utf8;

verus! {

/// Default debounce duration for inline completions, in milliseconds.
pub const DEFAULT_INLINE_COMPLETION_DEBOUNCE_MS: u64 = 300;

/// An inline completion suggestion: the item that a provider answered, with
/// the text it inserts.
pub struct InlineSuggestion {
    /// The item's `insert_text`.
    pub insert_text: String,
    pub item: InlineCompletionItem,
}

/// An inline completion that has been scheduled and not yet answered.
pub struct PendingInline {
    pub generation: u64,
    /// The cursor offset it was scheduled for.
    pub offset: usize,
    /// The text as it was when it was scheduled.
    pub text: Rope,
    /// Whether the provider has been asked.
    pub fetched: bool,
}

/// How an inline completion was triggered: `lsp_types`'s
/// `InlineCompletionTriggerKind`, of which an input issues only `Automatic`.
#[derive(Clone, Copy, Debug, PartialEq, Eq, Structural)]
pub enum InlineTrigger {
    /// Requested after the user paused typing, without a selected completion.
    Automatic,
}

/// The arguments of the provider's `inline_completion` call.
pub struct InlineFetch {
    /// The text as it was when the inline completion was scheduled.
    pub text: Rope,
    pub offset: usize,
    pub trigger: InlineTrigger,
}

/// The inline completion suggestion shown after the cursor.
pub struct InlineCompletion {
    /// Completion item to display as an inline completion suggestion
    pub item: Option<InlineSuggestion>,
    /// The inline completion being debounced or fetched, if any.
    pub pending: Option<PendingInline>,
}

impl Default for InlineCompletion {
    fn default() -> (inline: Self)
        ensures
            inline.item is None,
            inline.pending is None,
    {
        InlineCompletion { item: None, pending: None }
    }
}

/// What to do with the completion menu and the provider for one request.
pub struct CompletionPlan {
    /// Hide the menu first; explicit requests start afresh.
    pub hide_menu: bool,
    /// Where the completed word starts, for the menu's query.
    pub start_offset: usize,
    /// What has been typed of the word, without surrounding white space.
    pub query: String,
    /// The arguments of the call of the provider.
    pub request: CompletionRequest,
    /// The generation to hand the provider's answer back with.
    pub generation: u64,
}

/// What to do with the completion menu once the provider has answered.
pub enum MenuUpdate {
    /// No items: hide the menu.
    Hide,
    /// Show these items at the requested offset.
    Show(Vec<CompletionItem>),
    /// Leave the menu as it is: the editor lost focus meanwhile, or the
    /// answer belongs to a request that is no longer pending.
    Keep,
}

/// An inline completion to fetch after the debounce delay.
#[derive(Clone, Copy, Debug, PartialEq, Eq, Structural)]
pub struct InlineSchedule {
    /// The cursor offset it is for.
    pub offset: usize,
    /// The generation to hand the answer back with.
    pub generation: u64,
}

/// What a text change asks for.
pub struct TriggerOutcome {
    /// Whether a re-render is due.
    pub notify: bool,
    /// Schedule an inline completion, after the provider's debounce delay.
    pub inline_completion: Option<InlineSchedule>,
    /// Request menu completion.
    pub plan: Option<CompletionPlan>,
}

/// An editor input with completion.
pub struct InputState<P> {
    pub text: Rope,
    /// Byte offset of the cursor.
    pub cursor: usize,
    pub disabled: bool,
    /// Set while a completion is being inserted, so that the insertion does
    /// not itself trigger completion.
    pub completion_inserting: bool,
    pub completion_provider: Option<P>,
    pub inline_completion: InlineCompletion,
    /// The generation of the menu completion request being answered, if any.
    pub pending_completion: Option<u64>,
    /// The generation of the latest menu completion request.
    pub completion_generation: u64,
    /// The generation of the latest inline completion.
    pub inline_generation: u64,
}

impl<P> InputState<P> {
    /// The cursor lies within the text, on a character boundary.
    pub open spec fn wf(self) -> bool {
        is_offset(self.text, self.cursor as int)
    }

    /// Only the latest request of each kind can be pending.
    pub open spec fn generations_wf(self) -> bool {
        &&& self.pending_completion matches Some(g) ==> g == self.completion_generation
        &&& self.inline_completion.pending matches Some(p) ==> p.generation
            == self.inline_generation
    }

    /// Same text, cursor, flags and provider.
    pub open spec fn same_input(self, other: Self) -> bool {
        &&& other.text == self.text
        &&& other.cursor == self.cursor
        &&& other.disabled == self.disabled
        &&& other.completion_inserting == self.completion_inserting
        &&& other.completion_provider == self.completion_provider
    }

    /// Same inline completion state and inline generation.
    pub open spec fn same_inline(self, other: Self) -> bool {
        &&& other.inline_completion == self.inline_completion
        &&& other.inline_generation == self.inline_generation
    }

    /// Same pending menu request and menu generation.
    pub open spec fn same_completion_request(self, other: Self) -> bool {
        &&& other.pending_completion == self.pending_completion
        &&& other.completion_generation == self.completion_generation
    }

    /// Where the completed word starts for a request at `new_offset`: the
    /// cursor itself when invoked; otherwise the start that the menu
    /// remembers, or `start` when it remembers none.
    pub open spec fn request_start(
        start: usize,
        new_offset: usize,
        kind: TriggerKind,
        menu_trigger_start: Option<usize>,
    ) -> usize {
        match kind {
            TriggerKind::Invoked => new_offset,
            TriggerKind::TriggerCharacter => match menu_trigger_start {
                Some(s) => s,
                None => start,
            },
        }
    }

    /// The query of a request for the word from `s` to `new_offset`: the
    /// text between them without surrounding white space, or empty when that
    /// range of the text cannot be read.
    pub open spec fn query_between(self, s: usize, new_offset: usize) -> Seq<char> {
        if is_offset(self.text, s as int) && is_offset(self.text, new_offset as int) {
            trim_chars(text_between(self.text, s as int, new_offset as int))
        } else {
            Seq::empty()
        }
    }

    /// The plan of a completion request at `new_offset` for a word that
    /// starts at `start`, when the menu remembers `menu_trigger_start`.
    ///
    /// None, and nothing changes, without a provider or when the cursor has
    /// moved before the word's start. Otherwise the query is the word so far,
    /// and the provider is asked at `new_offset` under a new generation,
    /// which becomes the pending one; a trigger-character request passes the
    /// query as its trigger character.
    pub open spec fn completion_planned(
        self,
        post: Self,
        start: usize,
        new_offset: usize,
        kind: TriggerKind,
        menu_trigger_start: Option<usize>,
        plan: Option<CompletionPlan>,
    ) -> bool {
        let s = Self::request_start(start, new_offset, kind, menu_trigger_start);
        if self.completion_provider is None || new_offset < s {
            &&& plan is None
            &&& post == self
        } else {
            &&& plan matches Some(p)
            &&& p.hide_menu == (kind is Invoked)
            &&& p.start_offset == s
            &&& p.query@ == self.query_between(s, new_offset)
            &&& p.request.offset == new_offset
            &&& p.request.trigger_kind == kind
            &&& match kind {
                TriggerKind::Invoked => p.request.trigger_character is None,
                TriggerKind::TriggerCharacter => p.request.trigger_character matches Some(c)
                    && c@ == p.query@,
            }
            &&& p.generation == next_generation(self.completion_generation)
            &&& post.completion_generation == p.generation
            &&& post.pending_completion == Some(p.generation)
            &&& self.same_inline(post)
            &&& self.same_input(post)
        }
    }

    /// The menu update for the provider's answer `items` to the request of
    /// `generation`: ignored unless that request is pending; otherwise the
    /// request is done, and no items hide the menu, while items are shown if
    /// the editor still has focus.
    pub open spec fn menu_updated(
        self,
        post: Self,
        generation: u64,
        items: Vec<CompletionItem>,
        focused: bool,
        update: MenuUpdate,
    ) -> bool {
        if self.pending_completion != Some(generation) {
            &&& update is Keep
            &&& post == self
        } else {
            &&& post.pending_completion is None
            &&& post.completion_generation == self.completion_generation
            &&& self.same_inline(post)
            &&& self.same_input(post)
            &&& if items@.len() == 0 {
                update is Hide
            } else if focused {
                update == MenuUpdate::Show(items)
            } else {
                update is Keep
            }
        }
    }

    /// `post` has the inline suggestion cleared and any earlier inline
    /// completion dropped; when there is a provider, an inline completion is
    /// scheduled at the cursor, for the text as it is now, under a new
    /// generation. A re-render is due.
    pub open spec fn inline_scheduled(
        self,
        post: Self,
        notify: bool,
        schedule: Option<InlineSchedule>,
    ) -> bool {
        &&& notify
        &&& post.inline_completion.item is None
        &&& self.same_completion_request(post)
        &&& self.same_input(post)
        &&& if self.completion_provider is Some {
            let g = next_generation(self.inline_generation);
            &&& schedule == Some(InlineSchedule { offset: self.cursor, generation: g })
            &&& post.inline_generation == g
            &&& post.inline_completion.pending matches Some(p) && {
                &&& p.generation == g
                &&& p.offset == self.cursor
                &&& rope_chars(p.text) == rope_chars(self.text)
                &&& !p.fetched
            }
        } else {
            &&& schedule is None
            &&& post.inline_generation == self.inline_generation
            &&& post.inline_completion.pending is None
        }
    }

    /// After the debounce delay of the inline completion of `generation`:
    /// when it is pending and not yet fetched, it is fetched exactly when the
    /// cursor is still where it was scheduled and the completion menu is
    /// closed, with the text as it was when scheduled; otherwise it ends.
    /// Anything else changes nothing.
    pub open spec fn inline_fetch_started(
        self,
        post: Self,
        generation: u64,
        context_menu_open: bool,
        fetch: Option<InlineFetch>,
    ) -> bool {
        let p = self.inline_completion.pending->0;
        if self.inline_completion.pending is Some && p.generation == generation && !p.fetched {
            &&& self.same_input(post)
            &&& self.same_completion_request(post)
            &&& post.inline_generation == self.inline_generation
            &&& post.inline_completion.item == self.inline_completion.item
            &&& if self.cursor == p.offset && !context_menu_open {
                &&& fetch matches Some(f) && {
                    &&& f.offset == p.offset
                    &&& rope_chars(f.text) == rope_chars(p.text)
                    &&& f.trigger == InlineTrigger::Automatic
                }
                &&& post.inline_completion.pending matches Some(q) && {
                    &&& q.generation == p.generation
                    &&& q.offset == p.offset
                    &&& q.text == p.text
                    &&& q.fetched
                }
            } else {
                &&& fetch is None
                &&& post.inline_completion.pending is None
            }
        } else {
            &&& fetch is None
            &&& post == self
        }
    }

    /// `post` shows the first suggestion of `answer`, the provider's answer
    /// to the fetched inline completion of `generation`, unless the answer is
    /// stale, the cursor has moved since, the completion menu is open, or
    /// there is no suggestion. A taken answer ends the inline completion.
    pub open spec fn inline_applied(
        self,
        post: Self,
        generation: u64,
        context_menu_open: bool,
        answer: Seq<InlineSuggestion>,
        notify: bool,
    ) -> bool {
        let p = self.inline_completion.pending->0;
        if self.inline_completion.pending is Some && p.generation == generation && p.fetched {
            &&& post.inline_completion.pending is None
            &&& post.inline_generation == self.inline_generation
            &&& self.same_completion_request(post)
            &&& self.same_input(post)
            &&& if self.cursor == p.offset && !context_menu_open && answer.len() > 0 {
                &&& notify
                &&& post.inline_completion.item == Some(answer[0])
            } else {
                &&& !notify
                &&& post.inline_completion.item == self.inline_completion.item
            }
        } else {
            &&& !notify
            &&& post == self
        }
    }

    /// `post` has the inline suggestion inserted at the cursor, the cursor
    /// just after it, and no suggestion left; without a suggestion nothing
    /// changes.
    pub open spec fn inline_accepted(self, post: Self, accepted: bool) -> bool {
        &&& accepted == self.inline_completion.item is Some
        &&& !accepted ==> post == self
        &&& self.inline_completion.item matches Some(suggestion) ==> {
            let c = self.cursor as int;
            let t = suggestion.insert_text@;
            &&& rope_chars(post.text) == text_between(self.text, 0, c) + t + text_between(
                self.text,
                c,
                rope_bytes(self.text).len() as int,
            )
            &&& post.cursor == c + encode_utf8(t).len()
            &&& post.wf()
            &&& post.inline_completion.item is None
            &&& post.inline_completion.pending == self.inline_completion.pending
            &&& post.inline_generation == self.inline_generation
            &&& post.disabled == self.disabled
            &&& post.completion_inserting == self.completion_inserting
            &&& post.completion_provider == self.completion_provider
            &&& self.same_completion_request(post)
        }
    }

    /// Whether the cursor lies within the text, on a character boundary.
    pub fn cursor_is_valid(&self) -> (valid: bool)
        ensures
            valid == self.wf(),
    {
        is_valid_offset(&self.text, self.cursor)
    }

    /// Called after text in `range` was replaced. Clears the inline
    /// suggestion and schedules a new one; then, when the provider's
    /// `is_completion_trigger` recognises the replacement ending at
    /// `range.end` as a completion trigger, plans a completion request at the
    /// cursor.
    pub fn handle_completion_trigger<F: FnOnce(usize) -> bool>(
        &mut self,
        range: &Range<usize>,
        is_completion_trigger: F,
        menu_trigger_start: Option<usize>,
    ) -> (outcome: TriggerOutcome)
        requires
            call_requires(is_completion_trigger, (range.end,)),
        ensures
            old(self).generations_wf() ==> final(self).generations_wf(),
            old(self).completion_inserting || old(self).completion_provider is None ==> {
                &&& !outcome.notify
                &&& outcome.inline_completion is None
                &&& outcome.plan is None
                &&& *final(self) == *old(self)
            },
            !old(self).completion_inserting && old(self).completion_provider is Some ==> exists|
                mid: Self,
                t: bool,
            |
                #![trigger old(self).inline_scheduled(mid, outcome.notify, outcome.inline_completion), call_ensures(is_completion_trigger, (range.end,), t)]
                {
                    &&& old(self).inline_scheduled(
                        mid,
                        outcome.notify,
                        outcome.inline_completion,
                    )
                    &&& call_ensures(is_completion_trigger, (range.end,), t)
                    &&& t ==> mid.completion_planned(
                        *final(self),
                        range.end,
                        old(self).cursor,
                        TriggerKind::TriggerCharacter,
                        menu_trigger_start,
                        outcome.plan,
                    )
                    &&& !t ==> outcome.plan is None && *final(self) == mid
                },
    {
        if self.completion_inserting || self.completion_provider.is_none() {
            return TriggerOutcome { notify: false, inline_completion: None, plan: None };
        }
        let (notify, inline_completion) = self.schedule_inline_completion();
        let ghost mid = *self;
        let start = range.end;
        let is_trigger = is_completion_trigger(start);
        if !is_trigger {
            assert(call_ensures(is_completion_trigger, (range.end,), is_trigger));
            let outcome = TriggerOutcome { notify, inline_completion, plan: None };
            assert(old(self).inline_scheduled(mid, outcome.notify, outcome.inline_completion));
            return outcome;
        }
        let cursor = self.cursor;
        let plan = self.request_completions_at(
            start,
            cursor,
            TriggerKind::TriggerCharacter,
            menu_trigger_start,
        );
        assert(call_ensures(is_completion_trigger, (range.end,), is_trigger));
        let outcome = TriggerOutcome { notify, inline_completion, plan };
        assert(old(self).inline_scheduled(mid, outcome.notify, outcome.inline_completion));
        assert(mid.completion_planned(
            *self,
            range.end,
            old(self).cursor,
            TriggerKind::TriggerCharacter,
            menu_trigger_start,
            outcome.plan,
        ));
        outcome
    }

    /// Requests completion at the current cursor without changing the input text.
    ///
    /// Returns a plan when a completion provider is configured. Disabled inputs
    /// and inputs without a provider return `None`.
    pub fn request_completions(&mut self) -> (plan: Option<CompletionPlan>)
        ensures
            old(self).generations_wf() ==> final(self).generations_wf(),
            plan is Some <==> !old(self).disabled && old(self).completion_provider is Some,
            plan is None ==> *final(self) == *old(self),
            plan matches Some(p) ==> {
                &&& p.hide_menu
                &&& p.start_offset == old(self).cursor
                &&& p.query@.len() == 0
                &&& p.request == CompletionRequest {
                    offset: old(self).cursor,
                    trigger_kind: TriggerKind::Invoked,
                    trigger_character: None,
                }
                &&& p.generation == next_generation(old(self).completion_generation)
                &&& final(self).completion_generation == p.generation
                &&& final(self).pending_completion == Some(p.generation)
                &&& old(self).same_inline(*final(self))
                &&& old(self).same_input(*final(self))
            },
    {
        if self.disabled || self.completion_provider.is_none() {
            return None;
        }
        let offset = self.cursor;
        proof {
            if old(self).wf() {
                lemma_empty_slice(old(self).text, offset as int);
            }
        }
        self.request_completions_at(offset, offset, TriggerKind::Invoked, None)
    }

    fn request_completions_at(
        &mut self,
        start: usize,
        new_offset: usize,
        trigger_kind: TriggerKind,
        menu_trigger_start: Option<usize>,
    ) -> (plan: Option<CompletionPlan>)
        ensures
            old(self).generations_wf() ==> final(self).generations_wf(),
            old(self).completion_planned(
                *final(self),
                start,
                new_offset,
                trigger_kind,
                menu_trigger_start,
                plan,
            ),
    {
        if self.completion_provider.is_none() {
            return None;
        }
        let invoked = trigger_kind == TriggerKind::Invoked;
        let start_offset = if invoked {
            new_offset
        } else {
            match menu_trigger_start {
                Some(s) => s,
                None => start,
            }
        };
        if new_offset < start_offset {
            return None;
        }
        let readable = is_valid_offset(&self.text, start_offset) && is_valid_offset(
            &self.text,
            new_offset,
        );
        let query = if readable {
            trimmed_text_slice(&self.text, start_offset, new_offset)
        } else {
            String::new()
        };
        let trigger_character = if invoked {
            None
        } else {
            Some(query.clone())
        };
        let generation = advance_generation(self.completion_generation);
        self.completion_generation = generation;
        self.pending_completion = Some(generation);
        Some(
            CompletionPlan {
                hide_menu: invoked,
                start_offset,
                query,
                request: CompletionRequest { offset: new_offset, trigger_kind, trigger_character },
                generation,
            },
        )
    }

    /// Decides what the completion menu does with the provider's answer to
    /// the request of `generation`: a stale answer changes nothing; an empty
    /// answer hides the menu; otherwise the items are shown if the editor
    /// still has focus.
    pub fn settle_completion_response(
        &mut self,
        generation: u64,
        items: Vec<CompletionItem>,
        focused: bool,
    ) -> (update: MenuUpdate)
        ensures
            old(self).generations_wf() ==> final(self).generations_wf(),
            old(self).menu_updated(*final(self), generation, items, focused, update),
    {
        let pending = match self.pending_completion {
            Some(g) => g == generation,
            None => false,
        };
        if !pending {
            return MenuUpdate::Keep;
        }
        self.pending_completion = None;
        if items.is_empty() {
            MenuUpdate::Hide
        } else if focused {
            MenuUpdate::Show(items)
        } else {
            MenuUpdate::Keep
        }
    }

    /// Clears the inline suggestion, drops any earlier inline completion and,
    /// when there is a provider, schedules an inline completion at the cursor
    /// for the text as it is now, to be fetched after the provider's debounce
    /// delay. Returns that a re-render is due, and the schedule.
    pub fn schedule_inline_completion(&mut self) -> (result: (bool, Option<InlineSchedule>))
        ensures
            old(self).generations_wf() ==> final(self).generations_wf(),
            old(self).inline_scheduled(*final(self), result.0, result.1),
    {
        let notify = self.clear_inline_completion();
        if self.completion_provider.is_none() {
            return (notify, None);
        }
        let generation = advance_generation(self.inline_generation);
        self.inline_generation = generation;
        let offset = self.cursor;
        let text = rope_clone(&self.text);
        self.inline_completion.pending = Some(
            PendingInline { generation, offset, text, fetched: false },
        );
        (notify, Some(InlineSchedule { offset, generation }))
    }

    /// Called when the debounce delay of the inline completion of
    /// `generation` has passed. Returns the arguments to ask the provider
    /// with: the text as it was when scheduled, the scheduled offset, and an
    /// automatic trigger; only while that inline completion is pending and
    /// not yet fetched, the cursor has not moved and the completion menu is
    /// closed. A pending inline completion that is not fetched ends.
    pub fn start_inline_fetch(&mut self, generation: u64, context_menu_open: bool) -> (fetch:
        Option<InlineFetch>)
        ensures
            old(self).generations_wf() ==> final(self).generations_wf(),
            old(self).inline_fetch_started(*final(self), generation, context_menu_open, fetch),
    {
        let pending = match &self.inline_completion.pending {
            Some(p) => p.generation == generation && !p.fetched,
            None => false,
        };
        if !pending {
            return None;
        }
        let pending = self.inline_completion.pending.take();
        match pending {
            Some(p) => {
                if self.cursor != p.offset || context_menu_open {
                    return None;
                }
                let text = rope_clone(&p.text);
                let offset = p.offset;
                self.inline_completion.pending = Some(
                    PendingInline {
                        generation: p.generation,
                        offset: p.offset,
                        text: p.text,
                        fetched: true,
                    },
                );
                Some(InlineFetch { text, offset, trigger: InlineTrigger::Automatic })
            },
            None => None,
        }
    }

    /// Shows the first suggestion of `answer`, the provider's answer to the
    /// fetched inline completion of `generation`, unless the answer is stale,
    /// the cursor has moved since, or the completion menu opened meanwhile.
    /// Returns whether a re-render is due.
    pub fn apply_inline_completion(
        &mut self,
        generation: u64,
        context_menu_open: bool,
        answer: Vec<InlineSuggestion>,
    ) -> (notify: bool)
        ensures
            old(self).generations_wf() ==> final(self).generations_wf(),
            old(self).inline_applied(*final(self), generation, context_menu_open, answer@, notify),
    {
        let offset = match &self.inline_completion.pending {
            Some(p) => {
                if p.generation == generation && p.fetched {
                    p.offset
                } else {
                    return false;
                }
            },
            None => return false,
        };
        self.inline_completion.pending = None;
        if self.cursor != offset || context_menu_open || answer.len() == 0 {
            return false;
        }
        let mut answer = answer;
        let first = answer.remove(0);
        self.inline_completion.item = Some(first);
        true
    }

    /// Check if an inline completion suggestion is currently displayed.
    pub fn has_inline_completion(&self) -> (shown: bool)
        ensures
            shown == self.inline_completion.item is Some,
    {
        self.inline_completion.item.is_some()
    }

    /// Clear the inline completion suggestion and drop the pending inline
    /// completion. A re-render is due.
    pub fn clear_inline_completion(&mut self) -> (notify: bool)
        ensures
            old(self).generations_wf() ==> final(self).generations_wf(),
            notify,
            final(self).inline_completion.item is None,
            final(self).inline_completion.pending is None,
            final(self).inline_generation == old(self).inline_generation,
            old(self).same_completion_request(*final(self)),
            old(self).same_input(*final(self)),
    {
        self.inline_completion = InlineCompletion::default();
        true
    }

    /// Accept the inline completion, inserting it at the cursor position.
    /// Returns true if a completion was accepted, false if there was none.
    pub fn accept_inline_completion(&mut self) -> (accepted: bool)
        requires
            old(self).inline_completion.item is Some ==> old(self).wf(),
        ensures
            old(self).generations_wf() ==> final(self).generations_wf(),
            old(self).inline_accepted(*final(self), accepted),
    {
        let suggestion = match self.inline_completion.item.take() {
            Some(suggestion) => suggestion,
            None => return false,
        };
        let cursor = self.cursor;
        let end = insert_text(&mut self.text, cursor, suggestion.insert_text.as_str());
        self.cursor = end;
        true
    }
}

/// Accepting right after a text change accepts nothing: the change cleared
/// the suggestion.
pub proof fn law_accept_after_schedule<P>(
    s0: InputState<P>,
    s1: InputState<P>,
    s2: InputState<P>,
    notify: bool,
    schedule: Option<InlineSchedule>,
    accepted: bool,
)
    requires
        s0.inline_scheduled(s1, notify, schedule),
        s1.inline_accepted(s2, accepted),
    ensures
        !accepted,
        s2 == s1,
        s2.text == s0.text,
{
}

/// An inline completion is fetched at most once: a second start for the
/// same generation asks nothing.
pub proof fn law_inline_fetch_at_most_once<P>(
    s0: InputState<P>,
    s1: InputState<P>,
    s2: InputState<P>,
    generation: u64,
    open1: bool,
    open2: bool,
    fetch1: Option<InlineFetch>,
    fetch2: Option<InlineFetch>,
)
    requires
        s0.inline_fetch_started(s1, generation, open1, fetch1),
        s1.inline_fetch_started(s2, generation, open2, fetch2),
    ensures
        fetch2 is None,
{
}

/// The provider is asked for an inline completion with the text and cursor
/// offset as they were when it was scheduled, whatever happened in between
/// that left the scheduled completion pending, and with an automatic
/// trigger; and only if the cursor is back at that offset with the menu
/// closed.
pub proof fn law_inline_fetch_uses_scheduled_text<P>(
    s0: InputState<P>,
    s1: InputState<P>,
    s2: InputState<P>,
    s3: InputState<P>,
    notify: bool,
    schedule: InlineSchedule,
    context_menu_open: bool,
    fetch: InlineFetch,
)
    requires
        s0.inline_scheduled(s1, notify, Some(schedule)),
        s2.inline_completion.pending == s1.inline_completion.pending,
        s2.inline_fetch_started(s3, schedule.generation, context_menu_open, Some(fetch)),
    ensures
        rope_chars(fetch.text) == rope_chars(s0.text),
        fetch.offset == s0.cursor,
        fetch.trigger == InlineTrigger::Automatic,
        s2.cursor == s0.cursor,
        !context_menu_open,
{
}

/// A suggestion taken while the cursor stays where it was scheduled and the
/// menu is closed is what the next accept inserts at the cursor.
pub proof fn law_apply_then_accept<P>(
    s0: InputState<P>,
    s1: InputState<P>,
    s2: InputState<P>,
    generation: u64,
    answer: Seq<InlineSuggestion>,
    notify: bool,
    accepted: bool,
)
    requires
        s0.inline_completion.pending matches Some(p) && p.generation == generation && p.fetched
            && p.offset == s0.cursor,
        answer.len() > 0,
        s0.inline_applied(s1, generation, false, answer, notify),
        s1.inline_accepted(s2, accepted),
    ensures
        notify,
        accepted,
        rope_chars(s2.text) == text_between(s0.text, 0, s0.cursor as int) + answer[0].insert_text@
            + text_between(s0.text, s0.cursor as int, rope_bytes(s0.text).len() as int),
        s2.inline_completion.item is None,
{
}

/// A suggestion that arrives after the cursor moved or the menu opened is
/// dropped: no suggestion is shown and no re-render is due.
pub proof fn law_stale_inline_completion_dropped<P>(
    s0: InputState<P>,
    s1: InputState<P>,
    generation: u64,
    context_menu_open: bool,
    answer: Seq<InlineSuggestion>,
    notify: bool,
)
    requires
        s0.inline_completion.pending matches Some(p) && (s0.cursor != p.offset
            || context_menu_open),
        s0.inline_applied(s1, generation, context_menu_open, answer, notify),
    ensures
        !notify,
        s1.inline_completion.item == s0.inline_completion.item,
        s1.text == s0.text,
{
}

/// Only the latest inline completion is ever fetched or taken: in a state
/// that the operations keep well-formed, any other generation changes
/// nothing.
pub proof fn law_only_latest_inline_completion<P>(
    s0: InputState<P>,
    s1: InputState<P>,
    s2: InputState<P>,
    generation: u64,
    context_menu_open: bool,
    fetch: Option<InlineFetch>,
    answer: Seq<InlineSuggestion>,
    notify: bool,
)
    requires
        s0.generations_wf(),
        generation != s0.inline_generation,
        s0.inline_fetch_started(s1, generation, context_menu_open, fetch),
        s0.inline_applied(s2, generation, context_menu_open, answer, notify),
    ensures
        fetch is None,
        s1 == s0,
        !notify,
        s2 == s0,
{
}

/// Only the answer to the latest menu request is ever taken: in a state that
/// the operations keep well-formed, an answer under any other generation
/// leaves the menu alone and changes nothing.
pub proof fn law_only_latest_completion_answer<P>(
    s0: InputState<P>,
    s1: InputState<P>,
    generation: u64,
    items: Vec<CompletionItem>,
    focused: bool,
    update: MenuUpdate,
)
    requires
        s0.generations_wf(),
        generation != s0.completion_generation,
        s0.menu_updated(s1, generation, items, focused, update),
    ensures
        update is Keep,
        s1 == s0,
{
}

/// An answer for an inline completion that has been scheduled anew is
/// dropped: nothing changes.
pub proof fn law_replaced_inline_answer_dropped<P>(
    s0: InputState<P>,
    s1: InputState<P>,
    s2: InputState<P>,
    s3: InputState<P>,
    n1: bool,
    first: InlineSchedule,
    n2: bool,
    second: Option<InlineSchedule>,
    context_menu_open: bool,
    answer: Seq<InlineSuggestion>,
    notify: bool,
)
    requires
        s0.inline_scheduled(s1, n1, Some(first)),
        s1.inline_scheduled(s2, n2, second),
        s2.inline_applied(s3, first.generation, context_menu_open, answer, notify),
    ensures
        !notify,
        s3 == s2,
{
    law_next_generation_differs(first.generation);
}

/// The query of a planned request is the text between the word start and
/// the cursor with white space removed from both ends and nothing else
/// removed: a contiguous part of that text, neither starting nor ending with
/// white space, with only white space before and after it. A trigger-
/// character request sends it as its trigger character.
pub proof fn law_planned_query_is_trimmed_word<P>(
    s0: InputState<P>,
    s1: InputState<P>,
    start: usize,
    new_offset: usize,
    kind: TriggerKind,
    menu_trigger_start: Option<usize>,
    p: CompletionPlan,
)
    requires
        s0.completion_planned(s1, start, new_offset, kind, menu_trigger_start, Some(p)),
        is_offset(s0.text, p.start_offset as int),
        is_offset(s0.text, new_offset as int),
    ensures
        p.start_offset == (match kind {
            TriggerKind::Invoked => new_offset,
            TriggerKind::TriggerCharacter => match menu_trigger_start {
                Some(s) => s,
                None => start,
            },
        }),
        p.query@ == trim_chars(text_between(s0.text, p.start_offset as int, new_offset as int)),
        ({
            let w = text_between(s0.text, p.start_offset as int, new_offset as int);
            exists|i: int, j: int|
                #![trigger w.subrange(i, j)]
                {
                    &&& 0 <= i <= j <= w.len()
                    &&& p.query@ == w.subrange(i, j)
                    &&& forall|k: int| 0 <= k < i ==> is_white_space(#[trigger] w[k])
                    &&& forall|k: int| j <= k < w.len() ==> is_white_space(#[trigger] w[k])
                    &&& i < j ==> !is_white_space(w[i]) && !is_white_space(w[j - 1])
                }
        }),
        kind is TriggerCharacter ==> (p.request.trigger_character matches Some(c) && c@
            == p.query@),
        p.request.offset == new_offset,
{
    let w = text_between(s0.text, p.start_offset as int, new_offset as int);
    let (i, j) = lemma_trim_chars(w);
    assert(w.subrange(i, j) == p.query@);
}

/// The answer to the latest planned request decides the menu: no items hide
/// it, items are shown in the answered order while the editor has focus, and
/// the request is then done.
pub proof fn law_plan_then_settle<P>(
    s0: InputState<P>,
    s1: InputState<P>,
    s2: InputState<P>,
    start: usize,
    new_offset: usize,
    kind: TriggerKind,
    menu_trigger_start: Option<usize>,
    p: CompletionPlan,
    items: Vec<CompletionItem>,
    focused: bool,
    update: MenuUpdate,
)
    requires
        s0.completion_planned(s1, start, new_offset, kind, menu_trigger_start, Some(p)),
        s1.menu_updated(s2, p.generation, items, focused, update),
    ensures
        items@.len() == 0 ==> update is Hide,
        items@.len() > 0 && focused ==> update == MenuUpdate::Show(items),
        items@.len() > 0 && !focused ==> update is Keep,
        s2.pending_completion is None,
        s2.text == s0.text,
{
}

/// The answer to a completion request that another request has replaced
/// leaves the menu alone and changes nothing.
pub proof fn law_replaced_completion_answer_dropped<P>(
    s0: InputState<P>,
    s1: InputState<P>,
    s2: InputState<P>,
    s3: InputState<P>,
    start1: usize,
    offset1: usize,
    kind1: TriggerKind,
    menu1: Option<usize>,
    p1: CompletionPlan,
    start2: usize,
    offset2: usize,
    kind2: TriggerKind,
    menu2: Option<usize>,
    p2: CompletionPlan,
    items: Vec<CompletionItem>,
    focused: bool,
    update: MenuUpdate,
)
    requires
        s0.completion_planned(s1, start1, offset1, kind1, menu1, Some(p1)),
        s1.completion_planned(s2, start2, offset2, kind2, menu2, Some(p2)),
        s2.menu_updated(s3, p1.generation, items, focused, update),
    ensures
        update is Keep,
        s3 == s2,
{
    law_next_generation_differs(p1.generation);
}

} // verus!
