# fectl master

The master of a service supervisor, with its decisions verified by Verus.

- `src/codec.rs`: the framing of the control socket. Each message is preceded by its
  length as a 16-bit big-endian number. The laws at the end of the file say what is
  read back of what was written, however the bytes are cut on their way.
- `src/client.rs`, `src/client_laws.rs`: a session with one client. Requests become
  answers or commands for the command center, replies become answers, and a heartbeat
  goes out every second until one cannot be sent.
- `src/startup.rs`, `src/startup_laws.rs`: the start of the process as a sequence of
  actions. The laws say which actions are performed, in which order, and what a start
  comes to.
- `src/master.rs`: the master, which gives each client a session.
- `src/buffer.rs`, `src/process.rs`: byte buffers, the process id, decimal numbers.
- `src/types.rs`: requests, answers, commands and refusals.
- `app/`: the event loop, the sockets and the system calls around the library.
- `tests/`: tests of the library with the real buffers.

Trusted are the contracts of the functions in `src/buffer.rs` that call `bytes` and
`byteorder`, and that of `current_pid` in `src/process.rs`, which calls `nix`.
