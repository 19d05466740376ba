# rlless

A `less`-style viewer for large log files, with its logic verified by Verus.

## Layout

- `src/` — the verified library.
  - `file_handler/` — byte-based access to a file's content: line walking and paging
    (`lines.rs`, with the paging laws), the adaptive accessor over in-memory, mapped or
    decompressed bytes, the line index, compression detection, the open strategy and
    file validation.
  - `input/` — key and mouse input: the key-binding state machine (`service.rs`, with
    its laws over `key_step`), wheel coalescing and the event queue (`raw.rs`).
  - `search/` — search options and the search worker's request handling (`worker.rs`).
  - `render/` — the render coordinator's state machine and its message protocol.
  - `ui/` — view state, status line, highlight segmentation and renderer interfaces.
  - `error.rs`, `text.rs`, `paths.rs` — the error type and the thin trusted wrappers
    over `std` string and path functions.
- `tests/` — tests run against the compiled library with the real outside crates.
- `app/` — the program around the library: argument parsing, terminal drawing,
  reading and decompressing files, the worker and input threads, and the async event
  loop.
