# zedlib

The logic of a code editor's support crates, written in Verus: the
functions in `src/` are verified against contracts that state what they
return or change, and the laws that relate functions are proof functions
next to them.

- `src/` — the verified library, one module per area (bit sets, colors,
  highlights, prompts, Jupyter messages, collaboration database decisions,
  resource pools, binary downloads, settings, notebook fields, assistant
  conversations and edits, outlines, layout values, performance spans,
  plugin cache paths, the bookkeeping of pending slash commands).
- `tests/` — tests of the library on concrete values.
- `app/` — the host side in ordinary Rust: file system and network work,
  serde forms of the library's types, floating-point color arithmetic,
  clocks and the recording of performance events.

Calls into other crates (`smallvec`, `uuid`, `unindent`) and into parts of
the standard library that Verus does not specify stand behind small trusted
wrappers whose contracts say what the called function does.
