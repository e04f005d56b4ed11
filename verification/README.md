# arto

The logic of the Arto Markdown viewer as a verified library: keyboard shortcuts
(actions, contexts, notation, presets, the matching engine, hints, conflict checks, the
shortcut overlay, and the filtered, sortable bindings table with its edit form), Markdown preprocessing
(bare URLs to autolinks, heading slugs and ids, source line numbers, the decisions of
the HTML post-processing pass), open requests between instances and the choice of the
window that receives them, pinned searches, menu identifiers, keyboard navigation
between panels, lists and tabs, the order of the file explorer's entries, the content
context menu's entries, and small
helpers of the viewer windows.

The crate does not itself turn Markdown into HTML: it provides the verified pieces that
a renderer applies around its parser (autolinks, source-line attributes, heading ids,
table line ranges, and the decisions of the post-processing pass).

Layout:

- `src/` — the library, each function with a contract that Verus proves.
- `tests/` — tests of the library on concrete values.
- `app/` — the command-line entry point and what the library leaves to its caller: file
  system access, JSON forms of the library's types, the HTML rewriter that applies the
  post-processing decisions, and the floating-point display-overlap threshold.
