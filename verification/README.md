# seggwat-cli

A command-line client for the SeggWat feedback platform, with its logic
verified by Verus.

- `src/` is the verified library: the records of the API (`models`), the
  requests each endpoint and command makes and how an answer's status is
  read (`client`, `commands`), the OAuth login with PKCE, the callback it
  waits for and the token store (`auth`), what the table and detail
  output holds (`output`), and the interactive terminal interface as a
  state machine whose key presses return the work they ask for (`tui`).
- `app/` is the program around it: argument parsing with clap, HTTP with
  reqwest, the token file, the browser, the terminal with ratatui and
  crossterm, and the statistics whose values are floating point.
- `tests/` runs the library on concrete values.
