# suave

Communication between local processes: lock files whose state is carried by
their length, named pipes guarded by such a lock, a clipboard writer that
retries to take the clipboard's lock, message queues and a small JSON builder.

- `src/` is the verified core. Its functions take what the operating system
  reported (a file length, whether a file exists, how a lock attempt went) and
  decide what happens next; their contracts and the lemmas beside them state
  the lock protocol (a lock cannot be taken twice, unlocking undoes a lock,
  `is_locked` and `state` agree), the retry policy of clipboard writes, the
  paths of lock and pipe files, how pipe contents are copied into buffers,
  and the decimal text of integers sent over the network.
- `app/` performs the I/O with `tokio`, `arboard` and `libc`, and calls the
  core for every decision.
- `tests/` runs the core on concrete values.
