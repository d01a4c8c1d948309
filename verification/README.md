# turn_admission

Decides whether a client's request may start a turn in an agent thread that has
to be idle, answers the request, and reports how the turn ended. The library is
written in Verus: every function states in its contract what it does, and the
contracts are proved.

- `src/turn_processor.rs` handles a request, step by step; `src/request_laws.rs`
  says what holds of every handling.
- `src/session.rs` is the thread's side: it takes or refuses submissions.
  `src/environment.rs` finds the environment that a turn would work in, and
  `src/admission_laws.rs` says which refusal wins and what it leaves behind, and
  `src/window_laws.rs` what holds when the thread changes while a request waits
  for it.
- `src/completion.rs` ends a turn behind the flush of its thread;
  `src/flush_store.rs`, `src/thread_watch.rs` and `src/outgoing.rs` are what it
  works with, and `src/completion_laws.rs` says what holds of every end, and of
  a turn from its request to its end.
- `src/turn_input.rs`, `src/turn.rs`, `src/error_code.rs` and
  `src/absolute_path.rs` are the vocabulary.
- `app/` is the asynchronous code around the library.

A path is absolute here if it starts with `/`, with a drive (`C:\` or `C:/`) or
with `\\`, on every machine: the environments of a thread need not be on the
machine that decides.
