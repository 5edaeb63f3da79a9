# self_update_extras

Two wrappers for `self_update` release updaters:

- a **throttle** that skips update checks within a time window of the last
  recorded check (the record is a throttle file named `<bin_name>.throttle`
  in the system temp directory), and
- a **restart** guard that re-executes the program after a successful update,
  setting a guard environment variable so that the restarted program does not
  update again.

Layout:

- `src/` — the verified library: the builders and wrapper configurations, the
  state machines that decide each step of a throttled or restarting update
  run, the restart plan (forwarded arguments and guard variable), the
  throttle file name, and a nanosecond-precise `Duration`. Each module states
  its laws as proof functions.
- `app/` — the `ReleaseUpdate` implementations: they delegate to the wrapped
  backend and drive the state machines, doing the environment lookups, clock
  and file work, and process replacement that the machines ask for.
- `tests/` — tests of the library.
