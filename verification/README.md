# duraflow-rs

Durable, resumable task outputs for dagx DAGs.

- `src/` is the verified library: the `Storage` trait and the in-memory
  store (`store.rs`), the shared `Context` with typed reads and writes
  (`context.rs`), the errors (`error.rs`), and the durable-run protocol
  (`durable.rs`): look up a task's persisted output, and otherwise persist
  the output of a run, counting each completed task once.
- `app/` is the dagx side: the `Durable` task decorator and `DurableDag`
  builder (which await the inner tasks and call progress handlers), the
  file-backed store, and an example program.
