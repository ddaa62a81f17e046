# goober_launcher

The GooberBlox launcher: it installs the game client and its own copy into
the user's local data directory, registers the `goober-player:` URI scheme,
and starts the client for `goober-player:///?placeid=..&auth=..&game=..`
links.

- `src/` is the verified library (Verus): SHA-256 fingerprints in lower-case
  hex (`hex`, `digest`), log lines (`log`), launch-URI handling (`launch`),
  download bookkeeping (`download`), the registry steps of the scheme
  registration (`registry`), the installer and the update check as machines
  that name the next outside action (`install`, `update`), and the screen
  clearing command (`terminal`).
- `app/main.rs` is the program: terminal, network, file system, registry and
  process work, driven by the library's decisions.
- `tests/` runs the library on concrete inputs.
