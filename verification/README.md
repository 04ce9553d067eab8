# hummingbird

The interface logic of the Hummingbird music player as a library verified with Verus:
navigation history, table columns and their stored settings, dropdowns with type-to-find,
the fuzzy finder behind the search and command palettes, queue building from the library's
context menus, album-art decoding, menus and key bindings, and the text the views show.

- `src/` is the library, which Verus checks; what each function promises is its contract. The
  calls into `indexmap`, `nucleo`, `image`, `url`, `rand` and std that Verus cannot read sit behind small
  trusted wrappers whose doc comments say what is assumed of them.
- `tests/` runs the library with the real outside crates.
- `app/` holds the edges: files, the environment, spawning the file manager, the matcher's
  polling timer, command-line parsing, the stored Last.fm session, and pixel geometry in
  floating point.
