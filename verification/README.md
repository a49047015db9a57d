# sway_lsp_server

The state of the Sway language server, written in Rust and verified with Verus.

- `src/` is the verified library: the least recently used cache of sessions, the compilation
  worker with its queue of messages, and the decisions about diagnostics, waiting, shutdown and
  the client's heartbeat. `session_map.rs`, `task_queue.rs`, `uri.rs` and `diagnostics.rs` say what
  is taken on trust of `dashmap`, `crossbeam-channel`, `lsp-types` and the standard library.
- `app/` runs it: threads, locks, the client, and the `Backend` trait, behind which the compiler
  and the package manager stand.
- `tests/` runs the library on concrete values.

The laws that the library keeps are the public proof functions whose names begin with `law_`.
