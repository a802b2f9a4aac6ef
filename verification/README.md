# pushit

A command-line tool that sends push notifications (through Pushover)
using named profiles kept in a user tier and a system tier.

- `src/` is the verified library. Each command is a session: `run` begins
  it and `resume` takes the answer to the last requested action
  (`commands::Action` / `commands::Event`). The sessions' contracts state
  every step; `laws.rs` proves properties that span several steps.
  `paths` locates the tiers and profile files, `profile` and `config`
  hold the stored data, `service` builds Pushover requests and reads
  replies, `text` renders numbers, joins and sorts strings.
- `app/` is the program around it: argument parsing (clap), the
  environment, RON files (ron, serde), HTTP (ureq) and JSON error bodies
  (serde_json). It performs each action a session asks for.
- `tests/` exercise the library on concrete values.
