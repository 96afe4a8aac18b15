# tom-core

The verified core of Tom, a local-first desktop assistant: its domain model, the onboarding
catalog, the interface state machine, the decisions taken when the user acts, the chat
requests sent to AI providers and the reading of their answers.

- `src/` is the library, written in Verus. Every function carries a contract and is proved
  against it; the few calls into `serde_json`, `uuid`, `chrono` and `core::fmt` sit behind
  small trusted wrappers. Their contracts state what the documentation or the source of
  those crates shows, and nothing where a result depends on the clock or a random source;
  the `Debug` impl that writes a key submission only hands over text built by a verified
  method.
- `tests/` runs the library with the real outside crates linked.
- `app/` is a thin console front end: it opens the SQLite store, the Windows credential
  vault and the network, hands what it reads to the library and prints what the library
  decides.
