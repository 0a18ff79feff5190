# lsp_overlays

The state logic of the LSP overlays of a text input, verified with Verus.

- `src/overlay.rs`: the completion and code-action menus, with their revision
  counters, and the hover and diagnostic popovers of an editor.
- `src/completion.rs`: menu completion for a single-line input: explicit
  requests, trigger-character requests, the provider's answers and the menu
  actions.
- `src/completions.rs`: completion for the editor input: request plans for its
  completion popover, and the inline completion suggestion.
- `src/request.rs`: the arguments a completion provider is asked with.
- `src/text.rs`: the input's text (`ropey::Rope`, addressed by byte offsets),
  slicing and trimming.
- `src/lsp.rs`: the `lsp_types` values the overlays carry unchanged.
- `app/`: conversions to and from `lsp_types` at the edge where providers are
  asked and answer.

Every request to a provider gets a generation; an answer is taken only while
its request is the pending one, so answers to replaced or dropped requests
are ignored. An inline completion is fetched at most once, with the text as
it was when scheduled. Accepting an inline suggestion inserts its text at the
cursor. Every operation moves each menu's revision by at most one step, and
items change only with a step, so across any sequence of fewer than 2^64
operations a change of items comes with a change of revision.

Operations that would re-render the input return `true`; the host framework
then schedules a new frame. Asking providers is left to the host: the library
returns what to ask and takes back what was answered.
