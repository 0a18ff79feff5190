//! The LSP overlays of an editor: the completion menu, the code-action menu,
//! the hover popover and the diagnostic popover.
//!
//! Every operation that would re-render the editor returns `true`; the caller
//! then asks the UI framework for a new frame.

use lsp_types::{CodeAction, CompletionItem, Diagnostic, Hover};
use std::ops::Range;
use std::rc::Rc;
use vstd::prelude::*;

verus! {

/// The revision after `r`: one more, wrapping around at `u64::MAX`.
pub open spec fn next_revision(r: u64) -> u64 {
    if r == u64::MAX {
        0
    } else {
        (r + 1) as u64
    }
}

/// A change counter. Only the menu that owns it can advance it.
#[derive(Clone, Copy, Debug)]
pub struct Revision(u64);

impl View for Revision {
    type V = u64;

    closed spec fn view(&self) -> u64 {
        self.0
    }
}

impl Revision {
    pub fn initial() -> (r: Self)
        ensures
            r@ == 0,
    {
        Revision(0)
    }

    pub fn value(&self) -> (v: u64)
        ensures
            v == self@,
    {
        self.0
    }

    pub(crate) fn next(self) -> (r: Self)
        ensures
            r@ == next_revision(self@),
    {
        let s = self.0.wrapping_add(1);
        let r = self.0;
        assert(s == next_revision(r)) by (bit_vector)
            requires
                s == r.wrapping_add(1),
        {
        }
        Revision(s)
    }

    /// Two counters with the same value are the same counter.
    pub proof fn lemma_view_injective(a: Self, b: Self)
        requires
            a@ == b@,
        ensures
            a == b,
    {
    }
}

/// The completion menu: the items offered, where the completed word starts,
/// and what has been typed of it.
#[derive(Clone, Debug)]
pub struct CompletionMenuState {
    pub open: bool,
    pub trigger_start_offset: Option<usize>,
    pub query: String,
    pub items: Vec<CompletionItem>,
    pub revision: Revision,
}

impl CompletionMenuState {
    /// Same trigger offset, query and items.
    pub open spec fn same_content(self, other: Self) -> bool {
        &&& self.trigger_start_offset == other.trigger_start_offset
        &&& self.query == other.query
        &&& self.items == other.items
    }

    /// `post` follows `self` with at most one revision bump, and the items
    /// change only together with a bump.
    pub open spec fn steps_to(self, post: Self) -> bool {
        ||| post.revision == self.revision && post.items == self.items
        ||| post.revision@ == next_revision(self.revision@)
    }

    /// A closed menu with nothing in it, at revision 0.
    pub open spec fn is_initial(self) -> bool {
        &&& !self.open
        &&& self.trigger_start_offset is None
        &&& self.query@.len() == 0
        &&& self.items@.len() == 0
        &&& self.revision@ == 0
    }

    pub fn new() -> (menu: Self)
        ensures
            menu.is_initial(),
    {
        CompletionMenuState {
            open: false,
            trigger_start_offset: None,
            query: String::new(),
            items: Vec::new(),
            revision: Revision::initial(),
        }
    }

    /// Bumped whenever the content changes.
    ///
    /// A renderer that mirrors this menu compares revisions to decide whether
    /// to rebuild, so it never has to compare the item list itself.
    pub fn revision(&self) -> (r: u64)
        ensures
            r == self.revision@,
    {
        self.revision.value()
    }

    pub(crate) fn bump(&mut self)
        ensures
            final(self).revision@ == next_revision(old(self).revision@),
            final(self).open == old(self).open,
            final(self).trigger_start_offset == old(self).trigger_start_offset,
            final(self).query == old(self).query,
            final(self).items == old(self).items,
    {
        self.revision = self.revision.next();
    }
}

impl Default for CompletionMenuState {
    fn default() -> (menu: Self)
        ensures
            menu.is_initial(),
    {
        CompletionMenuState::new()
    }
}

/// A code action offered by a code-action provider.
#[derive(Clone, Debug)]
pub struct CodeActionItem {
    /// The provider that offered the action and will perform it.
    pub provider_id: String,
    pub action: CodeAction,
}

/// The code-action menu.
#[derive(Clone, Debug)]
pub struct CodeActionMenuState {
    pub open: bool,
    pub items: Vec<CodeActionItem>,
    pub revision: Revision,
}

impl CodeActionMenuState {
    /// `post` follows `self` with at most one revision bump, and the items
    /// change only together with a bump.
    pub open spec fn steps_to(self, post: Self) -> bool {
        ||| post.revision == self.revision && post.items == self.items
        ||| post.revision@ == next_revision(self.revision@)
    }

    /// A closed menu with no items, at revision 0.
    pub open spec fn is_initial(self) -> bool {
        &&& !self.open
        &&& self.items@.len() == 0
        &&& self.revision@ == 0
    }

    pub fn new() -> (menu: Self)
        ensures
            menu.is_initial(),
    {
        CodeActionMenuState { open: false, items: Vec::new(), revision: Revision::initial() }
    }

    /// Bumped whenever the content changes. See [`CompletionMenuState::revision`].
    pub fn revision(&self) -> (r: u64)
        ensures
            r == self.revision@,
    {
        self.revision.value()
    }

    pub(crate) fn bump(&mut self)
        ensures
            final(self).revision@ == next_revision(old(self).revision@),
            final(self).open == old(self).open,
            final(self).items == old(self).items,
    {
        self.revision = self.revision.next();
    }
}

impl Default for CodeActionMenuState {
    fn default() -> (menu: Self)
        ensures
            menu.is_initial(),
    {
        CodeActionMenuState::new()
    }
}

/// The hover information shown for the symbol at `symbol_range`.
#[derive(Clone, Debug)]
pub struct HoverPopoverState {
    pub symbol_range: Range<usize>,
    pub hover: Hover,
}

/// `Clone` of `std::ops::Range`, derived: each end is cloned. Claimed: each
/// end of the result is a clone of the same end of `range`.
pub assume_specification<Idx: Clone>[ <Range<Idx> as Clone>::clone ](
    range: &Range<Idx>,
) -> (res: Range<Idx>)
    ensures
        cloned(range.start, res.start),
        cloned(range.end, res.end),
;

/// A diagnostic together with the byte range of the text it is about.
#[derive(Debug)]
pub struct DiagnosticEntry {
    pub range: Range<usize>,
    pub diagnostic: Diagnostic,
}

/// The two context menus of an editor.
#[derive(Clone, Debug)]
pub struct ContextMenuContent {
    pub completion: CompletionMenuState,
    pub code_action: CodeActionMenuState,
}

impl Default for ContextMenuContent {
    fn default() -> (content: Self)
        ensures
            content.completion.is_initial(),
            content.code_action.is_initial(),
    {
        ContextMenuContent {
            completion: CompletionMenuState::new(),
            code_action: CodeActionMenuState::new(),
        }
    }
}

/// Which overlay an action is routed to.
#[derive(Clone, Copy, Debug, PartialEq, Eq, Structural)]
pub enum InputOverlayKind {
    Completion,
    CodeAction,
}

/// The overlay state that an editor keeps besides its text.
#[derive(Clone, Debug)]
pub struct EditorExtras {
    pub context_menu_content: ContextMenuContent,
    pub hover_popover: Option<HoverPopoverState>,
}

/// The LSP overlay state of an editor.
pub struct InputBaseState {
    pub extras: EditorExtras,
    pub diagnostic_popover: Option<Rc<DiagnosticEntry>>,
}

impl InputBaseState {
    /// The completion menu.
    pub open spec fn completion(self) -> CompletionMenuState {
        self.extras.context_menu_content.completion
    }

    /// The code-action menu.
    pub open spec fn code_action(self) -> CodeActionMenuState {
        self.extras.context_menu_content.code_action
    }

    /// Both menus of `post` follow those of `self` by at most one bump each,
    /// with item changes only together with a bump.
    pub open spec fn steps_to(self, post: Self) -> bool {
        &&& self.completion().steps_to(post.completion())
        &&& self.code_action().steps_to(post.code_action())
    }

    /// `post` is `self` with the completion menu replaced.
    pub open spec fn only_completion_changed(self, post: Self) -> bool {
        &&& post.code_action() == self.code_action()
        &&& post.extras.hover_popover == self.extras.hover_popover
        &&& post.diagnostic_popover == self.diagnostic_popover
    }

    /// `post` is `self` with the code-action menu replaced.
    pub open spec fn only_code_action_changed(self, post: Self) -> bool {
        &&& post.completion() == self.completion()
        &&& post.extras.hover_popover == self.extras.hover_popover
        &&& post.diagnostic_popover == self.diagnostic_popover
    }

    /// `post` is `self` with the popovers replaced.
    pub open spec fn only_popovers_changed(self, post: Self) -> bool {
        &&& post.completion() == self.completion()
        &&& post.code_action() == self.code_action()
    }

    /// `post` shows `items` for the word that starts at `trigger_start_offset`
    /// and reads `query` so far.
    pub open spec fn completions_presented(
        self,
        post: Self,
        trigger_start_offset: usize,
        query: Seq<char>,
        items: Seq<CompletionItem>,
    ) -> bool {
        &&& post.completion().trigger_start_offset == Some(trigger_start_offset)
        &&& post.completion().query@ == query
        &&& post.completion().items@ == items
        &&& post.completion().open == (items.len() > 0)
        &&& post.completion().revision@ == next_revision(self.completion().revision@)
        &&& self.only_completion_changed(post)
    }

    /// `post` shows the code actions `items`.
    pub open spec fn code_actions_presented(self, post: Self, items: Seq<CodeActionItem>) -> bool {
        &&& post.code_action().items@ == items
        &&& post.code_action().open == (items.len() > 0)
        &&& post.code_action().revision@ == next_revision(self.code_action().revision@)
        &&& self.only_code_action_changed(post)
    }

    /// `post` has the completion menu closed, content and revision kept; a
    /// re-render is due exactly when the menu was open.
    pub open spec fn completion_dismissed(self, post: Self, notify: bool) -> bool {
        &&& notify == self.completion().open
        &&& !post.completion().open
        &&& post.completion().same_content(self.completion())
        &&& post.completion().revision@ == self.completion().revision@
        &&& self.only_completion_changed(post)
    }

    /// `post` has the code-action menu closed, content and revision kept; a
    /// re-render is due exactly when the menu was open.
    pub open spec fn code_action_dismissed(self, post: Self, notify: bool) -> bool {
        &&& notify == self.code_action().open
        &&& !post.code_action().open
        &&& post.code_action().items == self.code_action().items
        &&& post.code_action().revision@ == self.code_action().revision@
        &&& self.only_code_action_changed(post)
    }

    /// `post` has no diagnostic popover; a re-render is due exactly when there
    /// was one.
    pub open spec fn diagnostic_cleared(self, post: Self, notify: bool) -> bool {
        &&& notify == self.diagnostic_popover is Some
        &&& post.diagnostic_popover is None
        &&& self.only_popovers_changed(post)
        &&& post.extras.hover_popover == self.extras.hover_popover
    }

    /// No menu is open and no popover is shown.
    pub open spec fn is_initial(self) -> bool {
        &&& self.completion().is_initial()
        &&& self.code_action().is_initial()
        &&& self.extras.hover_popover is None
        &&& self.diagnostic_popover is None
    }

    pub fn new() -> (state: Self)
        ensures
            state.is_initial(),
    {
        InputBaseState {
            extras: EditorExtras {
                context_menu_content: ContextMenuContent {
                    completion: CompletionMenuState::new(),
                    code_action: CodeActionMenuState::new(),
                },
                hover_popover: None,
            },
            diagnostic_popover: None,
        }
    }

    /// Shows `items` in the completion menu, for the word that starts at
    /// `trigger_start_offset` and reads `query` so far. The menu opens
    /// exactly when there are items.
    pub fn present_completion_items(
        &mut self,
        trigger_start_offset: usize,
        query: String,
        items: Vec<CompletionItem>,
    ) -> (notify: bool)
        ensures
            old(self).steps_to(*final(self)),
            notify,
            old(self).completions_presented(*final(self), trigger_start_offset, query@, items@),
    {
        self.extras.context_menu_content.completion.trigger_start_offset = Some(
            trigger_start_offset,
        );
        self.extras.context_menu_content.completion.query = query;
        self.extras.context_menu_content.completion.items = items;
        self.extras.context_menu_content.completion.open =
            !self.extras.context_menu_content.completion.items.is_empty();
        self.extras.context_menu_content.completion.bump();
        true
    }

    /// Shows `items` in the code-action menu, which opens exactly when there
    /// are items.
    pub fn present_code_actions(&mut self, items: Vec<CodeActionItem>) -> (notify: bool)
        ensures
            old(self).steps_to(*final(self)),
            notify,
            old(self).code_actions_presented(*final(self), items@),
    {
        self.extras.context_menu_content.code_action.items = items;
        self.extras.context_menu_content.code_action.open =
            !self.extras.context_menu_content.code_action.items.is_empty();
        self.extras.context_menu_content.code_action.bump();
        true
    }

    /// Shows `hover` for the symbol at `symbol_range`.
    pub fn present_hover(&mut self, symbol_range: Range<usize>, hover: Hover) -> (notify: bool)
        ensures
            old(self).steps_to(*final(self)),
            notify,
            final(self).extras.hover_popover == Some(HoverPopoverState { symbol_range, hover }),
            old(self).only_popovers_changed(*final(self)),
            final(self).diagnostic_popover == old(self).diagnostic_popover,
    {
        self.extras.hover_popover = Some(HoverPopoverState { symbol_range, hover });
        true
    }

    /// Shows `diagnostic` in the diagnostic popover.
    pub fn present_diagnostic(&mut self, diagnostic: DiagnosticEntry) -> (notify: bool)
        ensures
            old(self).steps_to(*final(self)),
            notify,
            final(self).diagnostic_popover matches Some(shown) && *shown == diagnostic,
            old(self).only_popovers_changed(*final(self)),
            final(self).extras.hover_popover == old(self).extras.hover_popover,
    {
        self.diagnostic_popover = Some(Rc::new(diagnostic));
        true
    }

    /// Removes the diagnostic popover.
    pub fn clear_diagnostic_popover(&mut self) -> (notify: bool)
        ensures
            old(self).steps_to(*final(self)),
            old(self).diagnostic_cleared(*final(self), notify),
    {
        self.diagnostic_popover.take().is_some()
    }

    /// Closes the completion menu, keeping what it shows.
    pub fn dismiss_completion_overlay(&mut self) -> (notify: bool)
        ensures
            old(self).steps_to(*final(self)),
            old(self).completion_dismissed(*final(self), notify),
    {
        if self.extras.context_menu_content.completion.open {
            self.extras.context_menu_content.completion.open = false;
            true
        } else {
            false
        }
    }

    /// Closes the code-action menu, keeping what it shows.
    pub fn dismiss_code_action_overlay(&mut self) -> (notify: bool)
        ensures
            old(self).steps_to(*final(self)),
            old(self).code_action_dismissed(*final(self), notify),
    {
        if self.extras.context_menu_content.code_action.open {
            self.extras.context_menu_content.code_action.open = false;
            true
        } else {
            false
        }
    }

    pub fn completion_menu_state(&self) -> (menu: &CompletionMenuState)
        ensures
            *menu == self.completion(),
    {
        &self.extras.context_menu_content.completion
    }

    pub fn code_action_menu_state(&self) -> (menu: &CodeActionMenuState)
        ensures
            *menu == self.code_action(),
    {
        &self.extras.context_menu_content.code_action
    }

    pub fn hover_popover(&self) -> (hover: Option<&HoverPopoverState>)
        ensures
            match hover {
                Some(h) => self.extras.hover_popover == Some(*h),
                None => self.extras.hover_popover is None,
            },
    {
        match &self.extras.hover_popover {
            Some(h) => Some(h),
            None => None,
        }
    }

    /// Closes both context menus, keeping what they show.
    fn hide_context_menu(&mut self)
        ensures
            !final(self).completion().open,
            final(self).completion().same_content(old(self).completion()),
            final(self).completion().revision@ == old(self).completion().revision@,
            !final(self).code_action().open,
            final(self).code_action().items == old(self).code_action().items,
            final(self).code_action().revision@ == old(self).code_action().revision@,
            final(self).extras.hover_popover == old(self).extras.hover_popover,
            final(self).diagnostic_popover == old(self).diagnostic_popover,
    {
        self.extras.context_menu_content.completion.open = false;
        self.extras.context_menu_content.code_action.open = false;
    }

    /// Removes the hover popover.
    fn clear_hover_state(&mut self)
        ensures
            final(self).extras.hover_popover is None,
            final(self).extras.context_menu_content == old(self).extras.context_menu_content,
            final(self).diagnostic_popover == old(self).diagnostic_popover,
    {
        self.extras.hover_popover = None;
    }

    /// Closes both context menus and removes the hover popover.
    pub fn dismiss_lsp_overlays(&mut self) -> (notify: bool)
        ensures
            old(self).steps_to(*final(self)),
            notify,
            !final(self).completion().open,
            final(self).completion().same_content(old(self).completion()),
            final(self).completion().revision@ == old(self).completion().revision@,
            !final(self).code_action().open,
            final(self).code_action().items == old(self).code_action().items,
            final(self).code_action().revision@ == old(self).code_action().revision@,
            final(self).extras.hover_popover is None,
            final(self).diagnostic_popover == old(self).diagnostic_popover,
    {
        self.hide_context_menu();
        self.clear_hover_state();
        true
    }
}

impl Default for InputBaseState {
    fn default() -> (state: Self)
        ensures
            state.is_initial(),
    {
        InputBaseState::new()
    }
}

/// The number of revision values, after which a counter wraps around.
pub open spec fn revision_modulus() -> int {
    0x1_0000_0000_0000_0000
}

proof fn lemma_next_revision_mod(r: u64, k: int)
    requires
        0 <= k,
        r as int == k % revision_modulus(),
    ensures
        next_revision(r) as int == (k + 1) % revision_modulus(),
{
    let m = revision_modulus();
    assert(((k % m) + 1) % m == (k + 1) % m) by (nonlinear_arith)
        requires
            m > 0,
            k >= 0,
    {
        vstd::arithmetic::div_mod::lemma_add_mod_noop(k, 1, m);
    }
}

proof fn lemma_mod_shift_differs(r: int, k: int)
    requires
        0 <= r < revision_modulus(),
        0 < k < revision_modulus(),
    ensures
        (r + k) % revision_modulus() != r,
{
    let m = revision_modulus();
    if r + k < m {
        vstd::arithmetic::div_mod::lemma_small_mod((r + k) as nat, m as nat);
    } else {
        vstd::arithmetic::div_mod::lemma_small_mod((r + k - m) as nat, m as nat);
        vstd::arithmetic::div_mod::lemma_mod_sub_multiples_vanish(r + k, m);
    }
}

/// Along a chain of completion menus that each follow the one before, the
/// last revision is the first advanced by the number of bumps, which is
/// fewer than the chain's steps; without bumps the items are unchanged.
proof fn lemma_completion_chain(menus: Seq<CompletionMenuState>) -> (bumps: int)
    requires
        menus.len() > 0,
        forall|i: int| 0 <= i < menus.len() - 1 ==> #[trigger] menus[i].steps_to(menus[i + 1]),
    ensures
        0 <= bumps < menus.len(),
        menus.last().revision@ as int == (menus[0].revision@ + bumps) % revision_modulus(),
        bumps == 0 ==> menus.last().items == menus[0].items,
    decreases menus.len(),
{
    if menus.len() == 1 {
        vstd::arithmetic::div_mod::lemma_small_mod(menus[0].revision@ as nat, revision_modulus() as nat);
        0
    } else {
        let prefix = menus.drop_last();
        assert forall|i: int| 0 <= i < prefix.len() - 1 implies #[trigger] prefix[i].steps_to(
            prefix[i + 1],
        ) by {
            assert(menus[i].steps_to(menus[i + 1]));
        }
        let k = lemma_completion_chain(prefix);
        let prev = menus[menus.len() - 2];
        assert(prefix.last() == prev);
        let j = menus.len() - 2;
        assert(menus[j].steps_to(menus[j + 1]));
        assert(menus[j + 1] == menus.last());
        if menus.last().revision == prev.revision && menus.last().items == prev.items {
            k
        } else {
            lemma_next_revision_mod(prev.revision@, menus[0].revision@ + k);
            k + 1
        }
    }
}

/// Along a chain of code-action menus that each follow the one before, the
/// last revision is the first advanced by the number of bumps, which is
/// fewer than the chain's steps; without bumps the items are unchanged.
proof fn lemma_code_action_chain(menus: Seq<CodeActionMenuState>) -> (bumps: int)
    requires
        menus.len() > 0,
        forall|i: int| 0 <= i < menus.len() - 1 ==> #[trigger] menus[i].steps_to(menus[i + 1]),
    ensures
        0 <= bumps < menus.len(),
        menus.last().revision@ as int == (menus[0].revision@ + bumps) % revision_modulus(),
        bumps == 0 ==> menus.last().items == menus[0].items,
    decreases menus.len(),
{
    if menus.len() == 1 {
        vstd::arithmetic::div_mod::lemma_small_mod(menus[0].revision@ as nat, revision_modulus() as nat);
        0
    } else {
        let prefix = menus.drop_last();
        assert forall|i: int| 0 <= i < prefix.len() - 1 implies #[trigger] prefix[i].steps_to(
            prefix[i + 1],
        ) by {
            assert(menus[i].steps_to(menus[i + 1]));
        }
        let k = lemma_code_action_chain(prefix);
        let prev = menus[menus.len() - 2];
        assert(prefix.last() == prev);
        let j = menus.len() - 2;
        assert(menus[j].steps_to(menus[j + 1]));
        assert(menus[j + 1] == menus.last());
        if menus.last().revision == prev.revision && menus.last().items == prev.items {
            k
        } else {
            lemma_next_revision_mod(prev.revision@, menus[0].revision@ + k);
            k + 1
        }
    }
}

/// A renderer that compares revisions never misses a change of the
/// completion menu's items: across any sequence of operations (each of which
/// `steps_to` its successor), with fewer than 2^64 of them, different items
/// come with a different revision.
pub proof fn law_completion_revision_tracks_items(menus: Seq<CompletionMenuState>)
    requires
        0 < menus.len() <= revision_modulus(),
        forall|i: int| 0 <= i < menus.len() - 1 ==> #[trigger] menus[i].steps_to(menus[i + 1]),
    ensures
        menus.last().items != menus[0].items ==> menus.last().revision@ != menus[0].revision@,
{
    let k = lemma_completion_chain(menus);
    if menus.last().items != menus[0].items {
        lemma_mod_shift_differs(menus[0].revision@ as int, k);
    }
}

/// A renderer that compares revisions never misses a change of the
/// code-action menu's items: across any sequence of operations (each of
/// which `steps_to` its successor), with fewer than 2^64 of them, different
/// items come with a different revision.
pub proof fn law_code_action_revision_tracks_items(menus: Seq<CodeActionMenuState>)
    requires
        0 < menus.len() <= revision_modulus(),
        forall|i: int| 0 <= i < menus.len() - 1 ==> #[trigger] menus[i].steps_to(menus[i + 1]),
    ensures
        menus.last().items != menus[0].items ==> menus.last().revision@ != menus[0].revision@,
{
    let k = lemma_code_action_chain(menus);
    if menus.last().items != menus[0].items {
        lemma_mod_shift_differs(menus[0].revision@ as int, k);
    }
}

/// A revision bump always yields a revision different from the one before,
/// so a renderer comparing revisions notices every bump.
pub proof fn law_bump_changes_revision(r: u64)
    ensures
        next_revision(r) != r,
{
}

/// Presenting completions always changes the menu's revision, whether or not
/// the items differ from those shown before.
pub proof fn law_completion_presentation_changes_revision(
    pre: InputBaseState,
    post: InputBaseState,
    trigger_start_offset: usize,
    query: Seq<char>,
    items: Seq<CompletionItem>,
)
    requires
        pre.completions_presented(post, trigger_start_offset, query, items),
    ensures
        post.completion().revision@ != pre.completion().revision@,
{
}

/// Presenting code actions always changes the menu's revision.
pub proof fn law_code_action_presentation_changes_revision(
    pre: InputBaseState,
    post: InputBaseState,
    items: Seq<CodeActionItem>,
)
    requires
        pre.code_actions_presented(post, items),
    ensures
        post.code_action().revision@ != pre.code_action().revision@,
{
}

/// Presenting code actions shows exactly those actions, and the menu is open
/// exactly when there is at least one.
pub proof fn law_code_action_menu_opens_iff_actions(
    pre: InputBaseState,
    post: InputBaseState,
    items: Seq<CodeActionItem>,
)
    requires
        pre.code_actions_presented(post, items),
    ensures
        post.code_action().items@ == items,
        post.code_action().open <==> items.len() > 0,
        items.len() == 1 ==> post.code_action().open,
        post.completion() == pre.completion(),
{
}

/// Dismissing the code-action menu right after presenting actions keeps the
/// actions and asks for a re-render exactly when there were some.
pub proof fn law_present_then_dismiss_code_actions(
    s0: InputBaseState,
    s1: InputBaseState,
    s2: InputBaseState,
    items: Seq<CodeActionItem>,
    n2: bool,
)
    requires
        s0.code_actions_presented(s1, items),
        s1.code_action_dismissed(s2, n2),
    ensures
        n2 == (items.len() > 0),
        !s2.code_action().open,
        s2.code_action().items@ == items,
        s2.code_action().revision@ == next_revision(s0.code_action().revision@),
{
}

/// Dismissing the completion menu twice is dismissing it once: the second
/// dismissal changes nothing and asks for no re-render.
pub proof fn law_dismiss_completion_idempotent(
    s0: InputBaseState,
    s1: InputBaseState,
    s2: InputBaseState,
    n1: bool,
    n2: bool,
)
    requires
        s0.completion_dismissed(s1, n1),
        s1.completion_dismissed(s2, n2),
    ensures
        !n2,
        s2.completion() == s1.completion(),
        s2.code_action() == s1.code_action(),
        s2.extras.hover_popover == s1.extras.hover_popover,
        s2.diagnostic_popover == s1.diagnostic_popover,
{
    Revision::lemma_view_injective(s2.completion().revision, s1.completion().revision);
}

/// Dismissing the code-action menu twice is dismissing it once.
pub proof fn law_dismiss_code_action_idempotent(
    s0: InputBaseState,
    s1: InputBaseState,
    s2: InputBaseState,
    n1: bool,
    n2: bool,
)
    requires
        s0.code_action_dismissed(s1, n1),
        s1.code_action_dismissed(s2, n2),
    ensures
        !n2,
        s2.completion() == s1.completion(),
        s2.code_action() == s1.code_action(),
        s2.extras.hover_popover == s1.extras.hover_popover,
        s2.diagnostic_popover == s1.diagnostic_popover,
{
    Revision::lemma_view_injective(s2.code_action().revision, s1.code_action().revision);
}

/// Clearing the diagnostic popover twice is clearing it once.
pub proof fn law_clear_diagnostic_idempotent(
    s0: InputBaseState,
    s1: InputBaseState,
    s2: InputBaseState,
    n1: bool,
    n2: bool,
)
    requires
        s0.diagnostic_cleared(s1, n1),
        s1.diagnostic_cleared(s2, n2),
    ensures
        !n2,
        s2.diagnostic_popover == s1.diagnostic_popover,
        s2.extras == s1.extras,
{
}

/// Dismissing the completion menu right after presenting items keeps the
/// presented items, query, trigger offset and revision; a re-render is due
/// exactly when there were items.
pub proof fn law_present_then_dismiss_completion(
    s0: InputBaseState,
    s1: InputBaseState,
    s2: InputBaseState,
    trigger_start_offset: usize,
    query: Seq<char>,
    items: Seq<CompletionItem>,
    n2: bool,
)
    requires
        s0.completions_presented(s1, trigger_start_offset, query, items),
        s1.completion_dismissed(s2, n2),
    ensures
        n2 == (items.len() > 0),
        !s2.completion().open,
        s2.completion().items@ == items,
        s2.completion().query@ == query,
        s2.completion().trigger_start_offset == Some(trigger_start_offset),
        s2.completion().revision@ == next_revision(s0.completion().revision@),
{
}

} // verus!
