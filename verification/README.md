# pack_vs_lock

A contention benchmark that compares a `Mutex`, an `RwLock`, a spinlock, a
lock-free `fetch_add` counter and a bit-packed compare-and-swap counter that
keeps two 32-bit metrics (total and flagged requests) in one `u64`.

- `src/` is the verified library: the packed-word layout and its laws
  (`packed`), what a whole run of increments leaves in the word for any
  order of the same increments applied as steps (`schedule`; that the
  threads' successful compare-and-swap operations form such a sequence rests
  on the atomics in `app/` and is not proved), the per-thread compare-and-swap decisions
  (`worker`), the results summary (`summary`), the warm-up loop (`warmup`) and
  the configuration (`config`).
- `app/main.rs` runs the threads, locks, atomics and clocks, and prints.
- `tests/` exercises the library on concrete values.
