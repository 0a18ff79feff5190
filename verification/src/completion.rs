//! Menu completion for a single-line input.
//!
//! The input keeps a completion provider and the state of its completion
//! menu. Asking the provider and waiting for its answer happen outside this
//! module: a request returns a [`CompletionAction`], and the items that the
//! provider answers with come back through
//! [`InputState::receive_completions`].

use crate::overlay::{next_revision, CompletionMenuState, InputOverlayKind};
use crate::request::{
    advance_generation, law_next_generation_differs, next_generation, CompletionRequest, TriggerKind,
};
use crate::text::{is_offset, is_valid_offset, lemma_empty_slice, text_between, text_slice};
use lsp_types::CompletionItem;
use ropey::Rope;
use std::ops::Range;
use vstd::prelude::*;

verus! {

/// Optional menu completion for a single-line field.
///
/// This deliberately carries only a completion provider and its menu state. It
/// is not an LSP client and does not add source-editor facilities to InputState.
pub struct InputCompletionExtras<P> {
    pub provider: Option<P>,
    pub menu: CompletionMenuState,
    /// The generation of the request whose answer is awaited, if any.
    pub pending_request: Option<u64>,
    /// The generation of the latest request.
    pub request_generation: u64,
}

impl<P> Default for InputCompletionExtras<P> {
    fn default() -> (extras: Self)
        ensures
            extras.provider is None,
            extras.menu.is_initial(),
            extras.pending_request is None,
            extras.request_generation == 0,
    {
        InputCompletionExtras {
            provider: None,
            menu: CompletionMenuState::new(),
            pending_request: None,
            request_generation: 0,
        }
    }
}

/// A request to the completion provider, with the generation that its answer
/// is to be handed back with.
#[derive(Debug)]
pub struct PendingRequest {
    pub request: CompletionRequest,
    pub generation: u64,
}

/// What the caller does after a completion decision.
pub enum CompletionAction {
    /// Nothing.
    Ignore,
    /// The menu was hidden and the pending request dropped: re-render.
    HideMenu,
    /// Ask the provider for completions with these arguments, dropping any
    /// pending request, and hand its items to `receive_completions` with this
    /// generation.
    Request(PendingRequest),
}

/// A single-line text input with menu completion.
pub struct InputState<P> {
    pub text: Rope,
    /// Byte offset of the cursor.
    pub cursor: usize,
    pub disabled: bool,
    /// Set while a completion is being inserted, so that the insertion does
    /// not itself trigger completion.
    pub completion_inserting: bool,
    pub extras: InputCompletionExtras<P>,
}

impl<P> InputState<P> {
    /// The cursor lies within the text, on a character boundary.
    pub open spec fn wf(self) -> bool {
        is_offset(self.text, self.cursor as int)
    }

    /// Same text, cursor, flags and provider.
    pub open spec fn same_input(self, other: Self) -> bool {
        &&& other.text == self.text
        &&& other.cursor == self.cursor
        &&& other.disabled == self.disabled
        &&& other.completion_inserting == self.completion_inserting
        &&& other.extras.provider == self.extras.provider
    }

    /// Only the latest request can be pending.
    pub open spec fn generations_wf(self) -> bool {
        self.extras.pending_request matches Some(g) ==> g == self.extras.request_generation
    }

    /// Same pending request and latest generation.
    pub open spec fn same_requests(self, other: Self) -> bool {
        &&& other.extras.pending_request == self.extras.pending_request
        &&& other.extras.request_generation == self.extras.request_generation
    }

    /// Where the completed word starts for a request at `new_offset`: the
    /// cursor itself when invoked; otherwise the start remembered by the menu,
    /// or `start` when the menu remembers none.
    pub open spec fn request_start(self, start: usize, new_offset: usize, kind: TriggerKind) -> usize {
        match kind {
            TriggerKind::Invoked => new_offset,
            TriggerKind::TriggerCharacter => match self.extras.menu.trigger_start_offset {
                Some(s) => s,
                None => start,
            },
        }
    }

    /// When the request reads the text (its word starts at or before
    /// `new_offset`), both ends lie on character boundaries within the text.
    pub open spec fn can_request_at(self, start: usize, new_offset: usize, kind: TriggerKind) -> bool {
        let s = self.request_start(start, new_offset, kind);
        s <= new_offset ==> is_offset(self.text, s as int) && is_offset(self.text, new_offset as int)
    }

    /// The outcome of a completion request at `new_offset` for a word that
    /// starts at `start`.
    ///
    /// Without a provider nothing happens. A trigger-character request whose
    /// cursor has moved before the word's start hides the menu and drops the
    /// pending request. Otherwise the menu records the word's start and the
    /// query typed since, and the provider is asked at `new_offset` under a
    /// new generation; an invoked request first empties and closes the menu.
    /// The revision advances once whenever the menu's items, word start or
    /// query change.
    pub open spec fn completion_requested(
        self,
        post: Self,
        start: usize,
        new_offset: usize,
        kind: TriggerKind,
        action: CompletionAction,
    ) -> bool {
        let s = self.request_start(start, new_offset, kind);
        let query = text_between(self.text, s as int, new_offset as int);
        let menu = self.extras.menu;
        let post_menu = post.extras.menu;
        if self.extras.provider is None {
            &&& action is Ignore
            &&& post == self
        } else if kind is TriggerCharacter && new_offset < s {
            &&& action is HideMenu
            &&& !post_menu.open
            &&& post_menu.same_content(menu)
            &&& post_menu.revision == menu.revision
            &&& post.extras.pending_request is None
            &&& post.extras.request_generation == self.extras.request_generation
            &&& self.same_input(post)
        } else {
            &&& action matches CompletionAction::Request(p)
            &&& p.generation == next_generation(self.extras.request_generation)
            &&& post.extras.request_generation == p.generation
            &&& post.extras.pending_request == Some(p.generation)
            &&& p.request.offset == new_offset
            &&& p.request.trigger_kind == kind
            &&& match kind {
                TriggerKind::Invoked => p.request.trigger_character is None,
                TriggerKind::TriggerCharacter => p.request.trigger_character matches Some(c)
                    && c@ == query,
            }
            &&& post_menu.trigger_start_offset == Some(s)
            &&& post_menu.query@ == query
            &&& match kind {
                TriggerKind::Invoked => {
                    &&& !post_menu.open
                    &&& post_menu.items@.len() == 0
                    &&& post_menu.revision@ == next_revision(menu.revision@)
                },
                TriggerKind::TriggerCharacter => {
                    &&& post_menu.open == menu.open
                    &&& post_menu.items == menu.items
                    &&& if menu.trigger_start_offset == Some(s) && menu.query@ == query {
                        post_menu.revision == menu.revision
                    } else {
                        post_menu.revision@ == next_revision(menu.revision@)
                    }
                },
            }
            &&& self.same_input(post)
        }
    }

    /// The outcome of the provider answering the request of `generation` with
    /// `items`. An answer to a request that is no longer pending is dropped.
    /// Otherwise the request is done, and the items are shown when the input
    /// still has focus.
    pub open spec fn completions_received(
        self,
        post: Self,
        generation: u64,
        items: Vec<CompletionItem>,
        focused: bool,
        notify: bool,
    ) -> bool {
        if self.extras.pending_request != Some(generation) {
            &&& !notify
            &&& post == self
        } else {
            &&& notify == focused
            &&& post.extras.pending_request is None
            &&& post.extras.request_generation == self.extras.request_generation
            &&& self.same_input(post)
            &&& !focused ==> post.extras.menu == self.extras.menu
            &&& focused ==> {
                &&& post.extras.menu.items == items
                &&& post.extras.menu.open == (items@.len() > 0)
                &&& post.extras.menu.trigger_start_offset
                    == self.extras.menu.trigger_start_offset
                &&& post.extras.menu.query == self.extras.menu.query
                &&& post.extras.menu.revision@ == next_revision(self.extras.menu.revision@)
            }
        }
    }

    /// Whether the cursor lies within the text, on a character boundary.
    pub fn cursor_is_valid(&self) -> (valid: bool)
        ensures
            valid == self.wf(),
    {
        is_valid_offset(&self.text, self.cursor)
    }

    /// Configures lightweight menu completion for this single-line field.
    ///
    /// LSP and source-editor features remain exclusive to EditorState.
    pub fn set_completion_provider(&mut self, provider: P)
        ensures
            old(self).extras.menu.steps_to(final(self).extras.menu),
            old(self).generations_wf() ==> final(self).generations_wf(),
            final(self).extras.provider == Some(provider),
            final(self).extras.menu == old(self).extras.menu,
            old(self).same_requests(*final(self)),
            final(self).text == old(self).text,
            final(self).cursor == old(self).cursor,
            final(self).disabled == old(self).disabled,
            final(self).completion_inserting == old(self).completion_inserting,
    {
        self.extras.provider = Some(provider);
    }

    /// Requests completion at the current cursor. Returns `None` when no
    /// provider is configured or the input is disabled.
    ///
    /// The menu is emptied and closed and remembers the cursor as the start
    /// of the completed word; the text is not changed.
    pub fn request_completions(&mut self) -> (request: Option<PendingRequest>)
        requires
            old(self).wf(),
        ensures
            old(self).extras.menu.steps_to(final(self).extras.menu),
            old(self).generations_wf() ==> final(self).generations_wf(),
            request is Some <==> !old(self).disabled && old(self).extras.provider is Some,
            request is None ==> *final(self) == *old(self),
            request matches Some(p) ==> {
                &&& p.request == CompletionRequest {
                    offset: old(self).cursor,
                    trigger_kind: TriggerKind::Invoked,
                    trigger_character: None,
                }
                &&& p.generation == next_generation(old(self).extras.request_generation)
                &&& final(self).extras.request_generation == p.generation
                &&& final(self).extras.pending_request == Some(p.generation)
                &&& !final(self).extras.menu.open
                &&& final(self).extras.menu.items@.len() == 0
                &&& final(self).extras.menu.trigger_start_offset == Some(old(self).cursor)
                &&& final(self).extras.menu.query@.len() == 0
                &&& final(self).extras.menu.revision@ == next_revision(
                    old(self).extras.menu.revision@,
                )
                &&& old(self).same_input(*final(self))
            },
    {
        if self.disabled || self.extras.provider.is_none() {
            return None;
        }
        let offset = self.cursor;
        let action = self.request_completions_at(offset, offset, TriggerKind::Invoked);
        proof {
            lemma_empty_slice(old(self).text, offset as int);
        }
        match action {
            CompletionAction::Request(request) => Some(request),
            _ => None,
        }
    }

    /// Called after text in `range` was replaced. When the provider's
    /// `is_completion_trigger` recognises the replacement ending at
    /// `range.end` as a completion trigger, requests completion at the cursor
    /// for the word that the menu remembers, or for the word that starts at
    /// `range.end`.
    pub fn handle_completion_trigger<F: FnOnce(usize) -> bool>(
        &mut self,
        range: &Range<usize>,
        is_completion_trigger: F,
    ) -> (action: CompletionAction)
        requires
            call_requires(is_completion_trigger, (range.end,)),
            forall|t: bool|
                #![trigger call_ensures(is_completion_trigger, (range.end,), t)]
                call_ensures(is_completion_trigger, (range.end,), t) && t ==> old(
                    self,
                ).can_request_at(range.end, old(self).cursor, TriggerKind::TriggerCharacter),
        ensures
            old(self).extras.menu.steps_to(final(self).extras.menu),
            old(self).generations_wf() ==> final(self).generations_wf(),
            old(self).completion_inserting || old(self).extras.provider is None ==> {
                &&& action is Ignore
                &&& *final(self) == *old(self)
            },
            !old(self).completion_inserting && old(self).extras.provider is Some ==> exists|
                t: bool,
            |
                {
                    &&& call_ensures(is_completion_trigger, (range.end,), t)
                    &&& t ==> old(self).completion_requested(
                        *final(self),
                        range.end,
                        old(self).cursor,
                        TriggerKind::TriggerCharacter,
                        action,
                    )
                    &&& !t ==> action is Ignore && *final(self) == *old(self)
                },
    {
        if self.completion_inserting {
            return CompletionAction::Ignore;
        }
        if self.extras.provider.is_none() {
            return CompletionAction::Ignore;
        }
        let start = range.end;
        let is_trigger = is_completion_trigger(start);
        if !is_trigger {
            return CompletionAction::Ignore;
        }
        let cursor = self.cursor;
        self.request_completions_at(start, cursor, TriggerKind::TriggerCharacter)
    }

    fn request_completions_at(
        &mut self,
        start: usize,
        new_offset: usize,
        trigger_kind: TriggerKind,
    ) -> (action: CompletionAction)
        requires
            old(self).can_request_at(start, new_offset, trigger_kind),
        ensures
            old(self).extras.menu.steps_to(final(self).extras.menu),
            old(self).generations_wf() ==> final(self).generations_wf(),
            old(self).completion_requested(*final(self), start, new_offset, trigger_kind, action),
    {
        if self.extras.provider.is_none() {
            return CompletionAction::Ignore;
        }
        let invoked = trigger_kind == TriggerKind::Invoked;
        let start_offset = if invoked {
            let menu = &mut self.extras.menu;
            menu.open = false;
            menu.items.clear();
            menu.trigger_start_offset = Some(new_offset);
            menu.query = String::new();
            menu.bump();
            new_offset
        } else {
            let start_offset = match self.extras.menu.trigger_start_offset {
                Some(s) => s,
                None => start,
            };
            if new_offset < start_offset {
                self.hide_completion_menu();
                return CompletionAction::HideMenu;
            }
            start_offset
        };
        let query = text_slice(&self.text, start_offset, new_offset);
        let same_start = match self.extras.menu.trigger_start_offset {
            Some(s) => s == start_offset,
            None => false,
        };
        let unchanged = same_start && self.extras.menu.query == query;
        self.extras.menu.trigger_start_offset = Some(start_offset);
        self.extras.menu.query = query.clone();
        if !unchanged {
            self.extras.menu.bump();
        }
        let generation = advance_generation(self.extras.request_generation);
        self.extras.request_generation = generation;
        self.extras.pending_request = Some(generation);
        let trigger_character = if invoked {
            None
        } else {
            Some(query)
        };
        CompletionAction::Request(
            PendingRequest {
                request: CompletionRequest { offset: new_offset, trigger_kind, trigger_character },
                generation,
            },
        )
    }

    /// Takes the provider's answer to the request of `generation`. An answer
    /// to a request that has since been replaced or dropped is ignored.
    /// Otherwise the items are shown when the input still has focus, and the
    /// menu opens exactly when there are items. Returns whether a re-render
    /// is due.
    pub fn receive_completions(
        &mut self,
        generation: u64,
        items: Vec<CompletionItem>,
        focused: bool,
    ) -> (notify: bool)
        ensures
            old(self).extras.menu.steps_to(final(self).extras.menu),
            old(self).generations_wf() ==> final(self).generations_wf(),
            old(self).completions_received(*final(self), generation, items, focused, notify),
    {
        let pending = match self.extras.pending_request {
            Some(g) => g == generation,
            None => false,
        };
        if !pending {
            return false;
        }
        self.extras.pending_request = None;
        if !focused {
            return false;
        }
        self.extras.menu.items = items;
        self.extras.menu.open = !self.extras.menu.items.is_empty();
        self.extras.menu.bump();
        true
    }

    pub fn completion_menu_state(&self) -> (menu: &CompletionMenuState)
        ensures
            *menu == self.extras.menu,
    {
        &self.extras.menu
    }

    /// Closes the menu and drops the pending request. A re-render is due.
    pub(crate) fn hide_completion_menu(&mut self) -> (notify: bool)
        ensures
            old(self).extras.menu.steps_to(final(self).extras.menu),
            old(self).generations_wf() ==> final(self).generations_wf(),
            notify,
            !final(self).extras.menu.open,
            final(self).extras.menu.same_content(old(self).extras.menu),
            final(self).extras.menu.revision == old(self).extras.menu.revision,
            final(self).extras.pending_request is None,
            final(self).extras.request_generation == old(self).extras.request_generation,
            old(self).same_input(*final(self)),
    {
        self.extras.menu.open = false;
        self.extras.pending_request = None;
        true
    }

    /// Closes the menu, keeping what it shows. Returns whether a re-render is
    /// due, which is when the menu was open.
    pub fn dismiss_completion_overlay(&mut self) -> (notify: bool)
        ensures
            old(self).extras.menu.steps_to(final(self).extras.menu),
            old(self).generations_wf() ==> final(self).generations_wf(),
            notify == old(self).extras.menu.open,
            !final(self).extras.menu.open,
            final(self).extras.menu.same_content(old(self).extras.menu),
            final(self).extras.menu.revision == old(self).extras.menu.revision,
            old(self).same_input(*final(self)),
            old(self).same_requests(*final(self)),
    {
        if self.extras.menu.open {
            self.extras.menu.open = false;
            true
        } else {
            false
        }
    }

    pub fn is_completion_menu_open(&self) -> (open: bool)
        ensures
            open == self.extras.menu.open,
    {
        self.extras.menu.open
    }

    /// Routes an action to the overlay handler while the menu is open.
    /// `closes_overlay` tells whether the action confirms or escapes the menu.
    /// Returns whether the handler handled the action; the menu closes (and a
    /// re-render is due) when a closing action was handled.
    pub fn handle_completion_menu_action<F: FnOnce(InputOverlayKind) -> bool>(
        &mut self,
        handler: Option<F>,
        closes_overlay: bool,
    ) -> (handled: bool)
        requires
            handler matches Some(h) ==> call_requires(h, (InputOverlayKind::Completion,)),
        ensures
            old(self).extras.menu.steps_to(final(self).extras.menu),
            old(self).generations_wf() ==> final(self).generations_wf(),
            !old(self).extras.menu.open || handler is None ==> {
                &&& !handled
                &&& *final(self) == *old(self)
            },
            old(self).extras.menu.open ==> (handler matches Some(h) ==> {
                &&& call_ensures(h, (InputOverlayKind::Completion,), handled)
                &&& handled && closes_overlay ==> {
                    &&& !final(self).extras.menu.open
                    &&& final(self).extras.menu.same_content(old(self).extras.menu)
                    &&& final(self).extras.menu.revision == old(self).extras.menu.revision
                    &&& old(self).same_input(*final(self))
                    &&& old(self).same_requests(*final(self))
                }
                &&& !(handled && closes_overlay) ==> *final(self) == *old(self)
            }),
    {
        if !self.extras.menu.open {
            return false;
        }
        let handler = match handler {
            Some(h) => h,
            None => return false,
        };
        let handled = handler(InputOverlayKind::Completion);
        if handled && closes_overlay {
            self.extras.menu.open = false;
        }
        handled
    }
}

/// The revision of the menu changes whenever a completion request changes
/// its items, the start of its word or its query.
pub proof fn law_request_bumps_revision_on_content_change<P>(
    pre: InputState<P>,
    post: InputState<P>,
    start: usize,
    new_offset: usize,
    kind: TriggerKind,
    action: CompletionAction,
)
    requires
        pre.completion_requested(post, start, new_offset, kind, action),
        post.extras.menu.items != pre.extras.menu.items
            || post.extras.menu.trigger_start_offset != pre.extras.menu.trigger_start_offset
            || post.extras.menu.query@ != pre.extras.menu.query@,
    ensures
        post.extras.menu.revision@ != pre.extras.menu.revision@,
{
}

/// Receiving the pending request's answer while the input has focus changes
/// the revision; any other answer changes nothing in the menu.
pub proof fn law_receive_bumps_revision<P>(
    pre: InputState<P>,
    post: InputState<P>,
    generation: u64,
    items: Vec<CompletionItem>,
    focused: bool,
    notify: bool,
)
    requires
        pre.completions_received(post, generation, items, focused, notify),
    ensures
        pre.extras.pending_request == Some(generation) && focused
            ==> post.extras.menu.revision@ != pre.extras.menu.revision@,
        !(pre.extras.pending_request == Some(generation) && focused) ==> post.extras.menu
            == pre.extras.menu,
{
}

/// An explicit request followed by the provider's answer to it, while the
/// input has focus, shows exactly the answered items for the word at the
/// cursor with an empty query, and leaves the text alone.
pub proof fn law_request_then_receive<P>(
    s0: InputState<P>,
    s1: InputState<P>,
    s2: InputState<P>,
    p: PendingRequest,
    items: Vec<CompletionItem>,
    notify: bool,
)
    requires
        s0.extras.provider is Some,
        s0.completion_requested(
            s1,
            s0.cursor,
            s0.cursor,
            TriggerKind::Invoked,
            CompletionAction::Request(p),
        ),
        s1.completions_received(s2, p.generation, items, true, notify),
    ensures
        notify,
        s2.extras.menu.items == items,
        s2.extras.menu.open == (items@.len() > 0),
        s2.extras.menu.trigger_start_offset == Some(s0.cursor),
        s2.extras.menu.query@ == text_between(s0.text, s0.cursor as int, s0.cursor as int),
        s2.extras.pending_request is None,
        s2.text == s0.text,
        s2.cursor == s0.cursor,
{
}

/// A stale answer never overwrites a newer request: once a request has been
/// replaced by another, its answer is dropped.
pub proof fn law_replaced_request_answer_dropped<P>(
    s0: InputState<P>,
    s1: InputState<P>,
    s2: InputState<P>,
    s3: InputState<P>,
    p1: PendingRequest,
    a2: CompletionAction,
    start1: usize,
    offset1: usize,
    kind1: TriggerKind,
    start2: usize,
    offset2: usize,
    kind2: TriggerKind,
    items: Vec<CompletionItem>,
    focused: bool,
    notify: bool,
)
    requires
        s0.completion_requested(s1, start1, offset1, kind1, CompletionAction::Request(p1)),
        s1.completion_requested(s2, start2, offset2, kind2, a2),
        a2 is Request,
        s2.completions_received(s3, p1.generation, items, focused, notify),
    ensures
        !notify,
        s3 == s2,
{
    law_next_generation_differs(p1.generation);
}

/// The pending request's answer, taken with focus, replaces whatever the menu
/// held: the menu shows exactly the answered items, in order, and is open
/// exactly when there are some; the word start and query stay.
pub proof fn law_receive_replaces_items<P>(
    pre: InputState<P>,
    post: InputState<P>,
    generation: u64,
    items: Vec<CompletionItem>,
    notify: bool,
)
    requires
        pre.extras.pending_request == Some(generation),
        pre.completions_received(post, generation, items, true, notify),
    ensures
        notify,
        post.extras.menu.items == items,
        post.extras.menu.items@ == items@,
        post.extras.menu.open <==> items@.len() > 0,
        post.extras.menu.trigger_start_offset == pre.extras.menu.trigger_start_offset,
        post.extras.menu.query == pre.extras.menu.query,
        post.extras.pending_request is None,
        post.text == pre.text,
{
}

/// A trigger-character request that is sent keeps the menu as shown (open or
/// closed, with the same items) while the answer is awaited; it remembers
/// the word start (the one already remembered, else `start`), records the
/// text typed since as the query, and sends that query as the trigger
/// character, at `new_offset`.
pub proof fn law_trigger_request_keeps_menu_shown<P>(
    pre: InputState<P>,
    post: InputState<P>,
    start: usize,
    new_offset: usize,
    p: PendingRequest,
)
    requires
        pre.completion_requested(
            post,
            start,
            new_offset,
            TriggerKind::TriggerCharacter,
            CompletionAction::Request(p),
        ),
    ensures
        pre.extras.provider is Some,
        post.extras.menu.open == pre.extras.menu.open,
        post.extras.menu.items == pre.extras.menu.items,
        post.extras.menu.trigger_start_offset == Some(
            match pre.extras.menu.trigger_start_offset {
                Some(s) => s,
                None => start,
            },
        ),
        ({
            let s = match pre.extras.menu.trigger_start_offset {
                Some(s) => s,
                None => start,
            };
            &&& s <= new_offset
            &&& post.extras.menu.query@ == text_between(pre.text, s as int, new_offset as int)
            &&& p.request.trigger_character matches Some(c) && c@ == post.extras.menu.query@
        }),
        p.request.offset == new_offset,
        p.request.trigger_kind == TriggerKind::TriggerCharacter,
        post.text == pre.text,
{
}

/// Only the answer to the latest request is ever taken: in a state that the
/// operations keep well-formed, an answer under any other generation changes
/// nothing.
pub proof fn law_only_latest_answer_taken<P>(
    pre: InputState<P>,
    post: InputState<P>,
    generation: u64,
    items: Vec<CompletionItem>,
    focused: bool,
    notify: bool,
)
    requires
        pre.generations_wf(),
        generation != pre.extras.request_generation,
        pre.completions_received(post, generation, items, focused, notify),
    ensures
        !notify,
        post == pre,
{
}

/// Once the menu was hidden for a request, no answer reaches the menu until
/// the next request.
pub proof fn law_answer_after_hide_dropped<P>(
    s0: InputState<P>,
    s1: InputState<P>,
    s2: InputState<P>,
    start: usize,
    new_offset: usize,
    kind: TriggerKind,
    generation: u64,
    items: Vec<CompletionItem>,
    focused: bool,
    notify: bool,
)
    requires
        s0.completion_requested(s1, start, new_offset, kind, CompletionAction::HideMenu),
        s1.completions_received(s2, generation, items, focused, notify),
    ensures
        !notify,
        s2 == s1,
{
}

} // verus!
