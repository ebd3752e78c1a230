# trsync (verified core)

The decision logic of a Tracim workspace synchronizer, verified with Verus.

- `src/types.rs`: content types and remote event types, read from and written
  to their Tracim names, with the laws that tie names and kinds together.
- `src/operate.rs`: `OperateChanges`, which applies a batch of changes in
  passes, retrying changes whose parent is missing while a pass makes progress.
- `src/runner.rs`: the decisions of the operational loop, of the supervision
  loop, and of a run's startup.
- `app/lib.rs`: drivers that run those decisions against channels, signals,
  an operator and the log.
- `tests/`: tests of the library on concrete values.
