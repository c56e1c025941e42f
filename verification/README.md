# warp_app

The decision-making core of the Warp terminal application, written in Verus
and proved against its contracts.

`src/` is the verified library:

- `text` — character-level helpers (Unicode whitespace, trimming, words,
  decimal numbers) with their specifications.
- `context_chips` — the git `--shortstat` parser and the GitHub pull-request
  chip text.
- `sync_ids` — client, server and sync ids: their text forms and parsing.
- `privacy` — privacy settings, secret-redaction regexes and the events their
  changes emit.
- `notifications` — notification titles and bodies within platform limits.
- `history` — up-arrow history suggestions: ordering and de-duplication.
- `working_directories` — the roots, repositories and focused repository of
  each pane group, and the events their changes emit.
- `terminal_view`, `inline_banners`, `input_sync`, `block_selection`,
  `context_menu`, `interaction_mode`, `open_in_warp`, `code` — state machines
  and vocabulary of the terminal view: inline banners, syncing input between
  terminals, block selection and ctrl-c, the entries of the context menus,
  the grid context handed to the input, code sources.
- `terminal_events` — how the terminal view reacts to its model's events and
  how the pane group reacts to a terminal view's events (closing, saving
  finished blocks, toasts, notifications), as step functions whose results
  the callers carry out.
- `app_state`, `user_config`, `persistence`, `alias`, `linear` — smaller
  models: GPU state, the main settings page, system-information sampling,
  configuration paths, saved blocks, alias expansion, Linear deep links.

Calls into outside crates (`regex`, `uuid`, `indexmap`, `url`, `smol_str`,
`byte-unit`) stand behind small trusted wrappers whose contracts say what
those crates document.

`app/` holds what cannot be verified: reading the operating system with
`sysinfo`, canonical paths with `dunce`, listing directories, serde on the
ids, and formatting that uses floating point.
