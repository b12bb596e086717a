# bird

A command-line client for the X API, written as a Verus project.

- `src/` is the library. Every function in it is verified by Verus against
  its `requires` / `ensures` contract: argument handling (`cli`), the write
  guard and `--cache-only` gating (`cli::dispatch`, `cli::writes`), the raw
  request layer (`raw`, `cli::commands`), the entity store's planning,
  staleness and pruning rules (`db`), errors and exit codes (`error`),
  output framing and sanitizing (`output`), cost estimation (`cost`), the
  `doctor` report (`doctor`), configuration layering (`config`) and OAuth
  helpers (`auth`, `login`). Calls into outside crates (`url`, `chrono`,
  `sha2`, `base64`, `rand`, `percent-encoding`, `owo-colors`, `dirs`,
  `serde_json`) go through small trusted wrappers whose contracts say what
  those crates document. Cross-function properties are stated and proved as
  `law_*` proof functions.
- `app/` is the program around it: argument parsing with clap, the SQLite
  store, the `xurl` subprocess, terminal I/O. It asks the library what to
  send, show and store.
- `tests/` runs the library on concrete values.
