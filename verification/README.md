# karvex

Decision logic of the `kvx` command line and of the workflow runtime behind it, with
contracts that Verus proves.

- `src/cli/`: the command line. Arguments are parsed, replies are rendered, and each
  command is a machine: it returns the next thing to do (send a request, read a file,
  exit), and is resumed with what came of it. `src/cli/tmux.rs` and `src/cli/tmux_run.rs`
  serve programs that believe they talk to `tmux`.
- `src/app/`: the server's side of a workflow run. A run's lead and its messages
  (`lead`, `lead_talk`), its panes (`panes`), reviews of finished runs (`review*`), past
  runs on the screen (`history*`), one look at all of them (`tick`) and the door to the
  store (`store`). What is to be written or shown is returned as a list of effects.
- `src/ipc.rs`: what the errors of a socket mean.
- `src/documents.rs`: JSON and TOML, read and written by `serde_json` and `toml`.
- `src/text.rs`, `src/json.rs`, `src/ordered.rs`, `src/calendar.rs`, `src/console.rs`,
  `src/model.rs`, `src/path.rs`, `src/wire.rs`: what the others are made of.
- `app/`: the terminal, files, sockets, processes and threads around the library.
- `tests/`: the library at work.

Laws that relate several functions are public proof functions whose names begin with
`law_`.
