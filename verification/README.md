# matter

The deciding parts of a Matter node, verified with Verus.

- `src/mdns/` keeps the advertised mDNS services. `builtin` announces them and
  answers queries itself, step by step between two packet pipes; `astro` registers
  them with the DNS-SD daemon of the system. `table` holds the service table, a
  vector of fixed capacity from `heapless`.
- `src/transport/` holds the exchanges: what each may ask the transport for, and
  what becomes of its context. `pipe` holds the packet pipes.
- `src/notification.rs` is the wake-up between tasks, a signal of `embassy_sync`.
- `src/error.rs` holds the errors, and what errors of `domain` become.
- `src/mdns/laws.rs` and `src/transport/laws.rs` state what holds over several
  steps.
- `app/` is the asynchronous side: sockets, timers and waiting. It asks the library
  what to do next.

Items marked `external_body` or `external_type_specification` stand for functions
and types of `heapless`, `embassy_sync` and `domain`. Their contracts are believed;
the comment above each one says what it claims.
