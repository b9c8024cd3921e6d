# chabeau

The verified core of a terminal chat client, written in Verus.

- `src/` is the library. Every function there has a contract that Verus
  proves: the pickers (themes, models, providers, characters, personas,
  presets) with their filtering, sorting and selection; the conversation
  transcript, the requests built from it, retries and refinements; the
  streams of a reply and the events they report; tool calls, their
  planning, their arguments read (and values written) with `serde_json`
  and checked against the tools' schemas (with `jsonschema`),
  queueing and recorded results; the MCP prompt
  and sampling flows; the input area and the scroll arithmetic.
  `src/laws.rs` states properties that span several operations.
- `tests/` runs the library on concrete values.
- `app/` is the unverified edge: library JSON values back into
  `serde_json` for sending, writing files, and hashing the last message
  for the wrapped-lines cache.

Calls into outside crates from `src/` go through a few functions marked
`#[verifier::external_body]`; their doc comments say what is assumed of
each.
