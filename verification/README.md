# feature

The command-line layer of `feature`, a git workflow tool (feature branches,
syncing and pruning, wips, stashes, versions and projects), written in Verus.

- `src/` is the verified library. Each subcommand is a module of `src/cli/`
  that holds what the command decides and lays out: which branch or base it
  acts on, the errors it answers, the git arguments it builds, and the styled
  lines it prints. Decisions that need facts from the repository take them as
  arguments (or ask for them one at a time, as `sync`, `prune` and `push`
  do), and commands that change the repository in several steps (`end`,
  `squash`, `commit`, deletions by `prune`) return the steps or the writes to
  carry out, so that every outcome is covered by a contract. `src/text.rs` holds the styled text
  model and the string helpers; calls into `console` and `chrono` sit behind
  small trusted wrappers there and in `src/cli/display/time.rs`, and config
  files are edited as `toml_edit` documents in `src/cli/config_doc.rs`.
- `tests/` runs the library on concrete values.
- `app/` is the program around it, for some of the commands: argument
  parsing with clap, reading and writing the repository with git2 and the
  config files with std, the subprocesses and the pager. It runs `base`,
  `update`, `protect`, `prune`, `graph`, `log`, `completions`, `complete`,
  `config set/unset/append/remove` and `project-rm`; the other commands'
  decisions and layout are in the library, with no runner here.
