//! What a completion request hands to the completion provider.

use vstd::prelude::*;

verus! {

/// How a completion request was triggered (the two kinds of
/// `lsp_types::CompletionTriggerKind` that an input issues).
#[derive(Clone, Copy, Debug, PartialEq, Eq, Structural)]
pub enum TriggerKind {
    /// Explicitly invoked by the user, at the cursor.
    Invoked,
    /// Triggered by text that the provider recognised as a trigger.
    TriggerCharacter,
}

/// The arguments of one call of the completion provider: the byte offset of
/// the cursor and the completion context (`lsp_types::CompletionContext`).
#[derive(Clone, Debug, PartialEq, Eq)]
pub struct CompletionRequest {
    pub offset: usize,
    pub trigger_kind: TriggerKind,
    /// The query typed since the trigger; only set for `TriggerCharacter`.
    pub trigger_character: Option<String>,
}

/// The generation after `g`: one more, wrapping around at `u64::MAX`. Each
/// request to a provider gets a new generation, so that an answer to a
/// request that has since been replaced or dropped can be told apart.
pub open spec fn next_generation(g: u64) -> u64 {
    if g == u64::MAX {
        0
    } else {
        (g + 1) as u64
    }
}

pub(crate) fn advance_generation(g: u64) -> (h: u64)
    ensures
        h == next_generation(g),
{
    let h = g.wrapping_add(1);
    assert(h == next_generation(g)) by (bit_vector)
        requires
            h == g.wrapping_add(1),
    {
    }
    h
}

/// A new generation always differs from the one before.
pub proof fn law_next_generation_differs(g: u64)
    ensures
        next_generation(g) != g,
{
}

} // verus!
