# tmux_shim

A `tmux` command line for WezTerm. The tmux subcommands that an agent client
uses to open, list, drive and close terminal panes are turned into
`wezterm cli` calls; a small JSON file keeps which tmux pane id stands for which
WezTerm pane.

## Layout

- `src/` is the library, verified with Verus. It does no input or output.
  - `text`, `table`: texts as sequences of characters, and maps from texts.
  - `state`: the pairing of pane ids, stored variables, close policies.
  - `args`, `options`, `invocation`: what command lines mean.
  - `format`, `keys`, `launcher`: the texts that are shown, typed and run.
  - `panes`: live panes, the current pane, and what targets stand for.
  - `turn`, `goals`, `commands`, `resume`: the subcommands. A subcommand runs as
    a series of turns: effects, then a question (the live panes, a WezTerm call,
    a file, a bash program) or an exit code. `commands` gives the first turn,
    `resume` the turn that follows an answer.
  - `paths`, `programs`, `log`: where files and programs are, and what the log says.
  - `laws`: what holds of the library as a whole, each law a proof function.
- `app/` is the program: it asks the machine what the turns ask for, reads and
  writes the state file under a lock, and keeps the log.
- `tests/` runs the library on concrete values.

The build variable `SHIM_VERIFIED_AGAINST` holds the name and the version of
the client that `tmux -V` shows.

## What is trusted

`text.rs` holds the one assumption that is not proved, on `String::push`.
