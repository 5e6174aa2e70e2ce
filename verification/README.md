# mntn

mntn keeps dotfiles organized across machines with profiles: it backs up
tracked configuration files into `~/.mntn/backup/`, restores and links them
back, validates the registries, and helps clean, purge and sync.

The crate is a Verus library with a small command-line program around it.

- `src/` is the verified library, and Verus proves the contracts of its
  functions: the registries (`registries`, `registry`) as maps from
  id to entry, the profile layers (`profile`), the `~/.mntn` layout and other
  paths (`utils`, `path`), the text formats the tool reads and writes
  (`text`), and for each command in `tasks` what it plans, decides and
  prints, given what was found on disk. Public proof functions whose names
  start with `law_` state properties that hold across calls, such as what a
  read of a registry gives back after an add or a remove.
- `app/` is the program: argument parsing, reading and writing files,
  running commands and prompting. It hands the library plain values and
  prints what the library returns.
- `tests/` runs the library on concrete values.

Calls into other crates (`regex`, `serde_json`, `plist`, `chrono`, `which`,
`dirs`, `dirs-next`, `directories-next`) stand behind a few trusted wrappers in
`src/`, each with a doc comment that says what its contract claims.
