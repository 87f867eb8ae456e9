# aionui

The verified core of the Alinea backend: the task workflow of projects, the
pipeline templates, agent profile definitions and their materialization,
access rules, signed identity tokens, the sealed identity seed, the employee
seed CSV, and the SQL statements whose text depends on a request.

## Layout

- `src/` — the library, verified with Verus. Every public function states
  its result in its contract; the laws that relate several functions are
  public proof functions (`task_state`, `guide_token`, `projects`,
  `profile_compiler`, `visibility`, `pipeline`, `seed`).
  - `crypto.rs` holds every call into the hashing, encryption, encoding and
    randomness crates, each behind a small trusted wrapper whose contract
    restates what the crate documents.
  - `text.rs` holds the character-level helpers (trimming, splitting, lines)
    with their specifications.
- `app/` — what runs around the library: JSON (de)serialization, the file
  system, floating-point amounts (costs, caps, limits), the async drivers
  that perform the library's decisions against the stores.
- `tests/` — tests of the library on concrete values.
