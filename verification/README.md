# cargo-liner

`cargo liner` installs and updates the binary packages listed in
`$CARGO_HOME/liner.toml`, in the order in which they are listed, removes
installed packages that are not listed (`jettison`), and imports Cargo's record
of installed packages as a new configuration (`import`).

## Layout

- `src/`: the library, verified with Verus. It decides what the tool does:
  merging the configuration, the environment and the command line; which
  packages need an install, an update or a removal; the arguments handed to
  `cargo install`, `cargo binstall`, `cargo search` and `cargo uninstall`;
  reading `cargo search` output and `.crates.toml` entries; the installation
  report and the tables shown to the user. `src/laws.rs` states properties that
  span several functions.
- `app/`: the program around it: command-line parsing, reading and writing the
  files, running the Cargo processes, logging and error reporting.
- `tests/`: tests of the library on concrete values.
