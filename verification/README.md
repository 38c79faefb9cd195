# interlock

The agent and document logic of a multi-user document-processing backend,
written in Verus: each function carries a `requires`/`ensures` contract
that Verus proves.

## Layout

- `src/agent/` — the reasoning-and-acting agent:
  - `parse.rs`: reading a model reply (action line, argument JSON).
  - `cycle.rs`: the system prompt, the conversation and the next step after
    each reply; `legacy.rs` the same for the first-generation loop.
  - `registry.rs`: the tool registry and its laws.
  - `queue.rs`: the per-session task queue and its laws.
  - `tools.rs`: tool arguments and the texts the tools report.
  - `files.rs`: spreadsheet sheets and cells, PDF and Word text, new
    spreadsheets.
  - `docx.rs`, `render.rs`: the Word document model from Markdown or from
    the JSON element list, and writing it with `docx-rs`.
- `src/controllers/`: the decisions of the HTTP handlers (access rules,
  field updates, credential order, response texts).
- `src/text.rs`, `src/ids.rs`, `src/views.rs`: text helpers, identifiers,
  authentication responses.
- `app/`: ordinary Rust around the library: the model API, storage, the
  record store trait, tool runners, the PDF writer, and the agent and queue
  runners.
- `tests/`: tests of the library.

Calls into outside crates go through small trusted functions marked
`#[verifier::external_body]`, each with a doc comment that says what its
contract claims of the outside code.
