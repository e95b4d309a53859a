# pksc

A build tool driven by Lua build scripts.

- `src/` is the library, verified with Verus: path joining and
  components, the confinement of script paths to the script directory, the
  build graph and the schedule that runs it, hashing and checksums,
  regular-expression helpers, archive destinations, request planning for
  `fetch`, and the table of builtins bound into a script's environment.
- `app/` is the `pksc` command: the Lua state (through `mlua`), file and
  network access, and the command line. It hands plain values to the
  library and binds its results into Lua.
- `tests/` exercise the library on concrete values.
