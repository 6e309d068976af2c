# devutils

A developer's toolbox — git and GitHub workflows, local and remote AI
providers, text and file utilities, live reload, MCP server catalog, hooks,
custom commands, checkpoints, enterprise teams, SSO and audit — whose logic is
written in Verus and proved against its contracts.

## Layout

- `src/` — the verified library. Each module states what its functions
  return or change in `requires`/`ensures` over spec functions and views, and
  states the laws that relate several functions as public proof functions
  (for example the patch law of `atomic_edit::generate_diff`, the name
  round trip of `debugger::LogLevel`, or the read-after-write laws of the
  registries). Calls into outside crates (serde_json, toml, regex, the digest
  and encoding crates, uuid, rand) stand behind small trusted wrappers whose
  doc comments say what each one claims.
- `app/` — the command-line program around the library: argument handling,
  processes, files, HTTP and terminal I/O. It hands plain values to the
  library and prints what comes back.
- `tests/` — tests that run the library with the real outside crates.

## Building

`verus` verifies `src/lib.rs`; `cargo test` runs the tests.
