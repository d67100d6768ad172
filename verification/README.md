# lucida_downloader

The configuration, path handling and menu logic of `lucida`, a client for
downloading albums from lucida.to, as a Verus-verified library, with the
program around it in `app/`.

- `src/config.rs` — the stored configuration, `KEY=VALUE` updates, cookie
  bookkeeping, the configuration report and the configuration file's location.
- `src/paths.rs` — cleaning pasted directory paths, finding the network share
  behind a `/Volumes/...` directory in `mount`'s output, the Finder picker's answer.
- `src/tui.rs` — reading pasted URLs and the menu machine: from a state and an
  event to the next state and the actions to perform.
- `src/session.rs`, `src/download.rs` — what a command-line run or a download
  started from the menus does, decided from options and configuration.
- `src/fetch.rs` — the cookie-fetching script's answer and the retry schedule.
- `src/progress.rs`, `src/text.rs` — texts shown while downloading; character-level
  text functions with their specifications.
- `app/` — command-line parsing, prompts, files, processes, the terminal and the
  network; it runs the menu machine and performs its actions.
