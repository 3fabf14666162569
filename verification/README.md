# moviebox_tui

The logic of a terminal application that searches film and television
catalogues, plays and downloads streams, and finds subtitles for them.

- `src/` is the library. Every function in it carries a contract that Verus
  proves. `tui` holds the application: `state` says what it knows, what can
  happen to it and what it asks of the outside; the modules beside it say what
  each action changes, and `handle` puts them together. `download` and
  `transfer` decide how a file is fetched, resumed and divided. `providers`
  reads playlists and subtitle services. `outside` holds the few calls into
  other crates whose contracts are taken on trust.
- `app/` does what the library asks for: requests, files, processes and the
  terminal. The catalogues, the players and the screens are given to it as
  traits.
- `tests/` runs the library on concrete values.

The library never waits and never touches the outside. An action goes in with
`App::handle_action`, and the work it asks for comes out of
`App::take_effects`.
