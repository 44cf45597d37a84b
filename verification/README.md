# cargo_cleanall

Cleans the build output (`target` directory) of every Cargo project found
directly under a directory, either by running `cargo clean` in it or, in fast
mode, by removing `target` itself.

- `src/` is the verified library: which directory entries are Cargo projects
  (`discover`), the steps of cleaning one project as a state machine with its
  laws (`clean`), the checks on a request to clean them all and the running
  count of results (`cleanall`), the default concurrency limit (`limit`), and
  index selection (`select`).
- `app/` is the command-line program: argument parsing, the file-system and
  process work, the async tasks, the progress bar and coloured output.
