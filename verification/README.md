# orca_runtime

The decisions of an agent runtime, with proofs: budgets and leases, continuations
of child agents, the registry of agents and its journal, child loops, permission
requests, compaction, turns and headless runs.

* `src/` is the verified library. Its functions take plain values. A loop that
  needs the outside world between its decisions is a state machine: it is handed
  an event and gives the next state and the next action. What a function does is
  stated in its `ensures`; what holds across functions is stated in public proof
  functions beside them.
* `app/` holds what talks to files, clocks, channels and threads. It performs the
  actions and hands the events back. Services of the platform and of the host are
  traits there.
* `tests/` runs the library on concrete values.

Money is counted in millionths of a dollar, time in milliseconds.

The library calls `uuid`, `base64`, `serde_json` and `std::str::from_utf8` through
small wrappers. What each wrapper claims of the call stands in its doc comment and
its `ensures`.
