# spotify_lyrics

A desktop application that shows lyrics in step with what Spotify plays. Lyrics
come from LRCLIB or from Spotify itself, and are kept between runs.

- `src/` is the logic, verified with Verus: reading what the player reports,
  reading lyrics, choosing and keeping candidates, following the current line,
  the exchange with Spotify's servers, settings, and the texts on screen.
- `app/` is the program around it: the window, the database, the network and
  the player's D-Bus interface.
- `tests/` runs the library.

Numbers that are floating point in the application (the opacity of the window,
the length of a candidate in seconds) are carried through the library by their
bits or as whole milliseconds; what is computed with them is in `app/`.

Regular expressions, keyed hashes and JSON come from outside crates. Each call
stands in a small function of its own whose contract is believed, not proved;
its comment says what that contract claims.
