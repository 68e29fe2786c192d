# demoji

A library and command-line tool that finds emoji characters in source code and removes or
replaces them. The library is written in Verus: each function states what it does in its
`requires` / `ensures` contract, and Verus proves the code against it.

## Layout

- `src/engine/` — the core: emoji detection (`emoji.rs`), replacement strategies and their
  tables (`replacer.rs`), errors and their messages (`error.rs`), byte/line/column arithmetic
  on text (`text.rs`), and the default ignore patterns (`walker.rs`).
- `src/config.rs` — the configuration, its defaults, and how configuration layers combine.
- `src/cli/` — the command-line grammar (`args.rs`), what `init` reports (`init.rs`) and the
  console reporter, which produces styled text (`output.rs`).
- `src/watch.rs` — which changed paths the watch mode processes.
- `app/` — the program around the library: reading configuration files, writing the
  `init` template, printing in color and receiving file system events.
- `tests/` — tests of the library.

## Trusted boundary

The few calls that Verus cannot read (the `std::path` file-name and directory lookups, the kind of
an I/O error, appending a character to a `String`) sit behind small wrappers whose
contracts are stated in their doc comments.
