# znicz_tui

The terminal interface of the Znicz music player, with its rules proved by
Verus.

- `src/` is the verified core: the library browser (columns, tree and paging
  over an artist → album → track hierarchy, search, panning long titles), the
  list cursors, the line editor, the keymap and its footer hints, what every
  key and click does (`app.rs`, as a function from state and event to new
  state and effects), the text and geometry of every row, title, transport
  line and toast, the toast list, the tag cache of the queue, the cover
  cache and the choice of cover source, what to say and do once a playlist
  or station operation has run, and the lock-file rules of the shared
  player process, including what a process does that finds the lock taken.
  Each public function states its result in `ensures`; the laws that tie
  several calls together are public proof functions.
- `tests/` runs the core on concrete values.
- `app/` is the terminal around it: it converts crossterm events, draws with
  ratatui, reads tags on a thread of its own, carries out the effects the
  core returns against a player engine and a library that the program
  starting the interface supplies (`app/backend.rs`), and handles the lock
  files and processes of the player daemon. Covers are not drawn yet: the
  frontend has no picture decoder.
