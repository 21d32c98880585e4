# not_io

Two pieces of I/O plumbing, with their logic verified by Verus.

* A sans-IO transformer (`src/transformer.rs`, `src/coroutine.rs`,
  `src/context.rs`). A transformer is a `Coroutine` that reaches its buffers
  only through the `IoFuture` token it is built with (`from_async`). Each
  `SansIO::step` polls it with the buffers of that step, again while it stalls
  without asking anything, and reports a `Demand`: consume input, write
  output, or `Idle` once it has completed (after which it is not stepped
  again).
  The contracts state each step exactly in terms of the coroutine's `resume`
  model; the consume/write handshake and the token's waiting are proved as
  lemmas.
* The trait table (`src/vtable.rs`) behind readers and writers whose
  optional `std::io` traits are chosen at runtime: a getter yields a value
  exactly when its setter has run.

`app/` holds what Verus cannot express: the loop that drives a transformer
over `std::io` streams (`app/driver.rs`), and the `Reader`/`Writer` wrappers
that hand out `std::io` trait objects (`app/reader.rs`, `app/writer.rs`).
