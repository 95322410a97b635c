# sccache

The decisions of a shared compilation cache, as a verified library: which
storage a configuration asks for, what a remote storage asks of its service and
makes of the answers, what of an error may leave the process, and how a client
talks to the server.

- `src/` is the library. It performs no I/O. Where an operation alternates
  between the outside and decisions (the capability check of a storage, a
  connection to the server) it is a step function: the caller performs the
  action and hands back what came of it.
  - `error` - errors of the storage layer, and their summary for other processes
  - `storage` - what every storage offers, and the default answers
  - `buffer` - the bytes of what a service hands back
  - `remote`, `remote_laws` - storage on a remote service
  - `config`, `select` - configuration, and the choice of a storage
  - `frame`, `client` - length-prefixed messages and the connection to the server
  - `connect`, `connect_laws` - connecting within a deadline, and again
  - `mock` - a storage that answers as it is told to
  - `outside` - what is believed of other crates and of std without proof
- `tests/` runs the library, with real `opendal` operators over a scripted HTTP
  client.
- `app/` performs the actions: `opendal` operators, sockets, timers, and the
  conversions to `anyhow` and `serde`.

The proof functions whose names start with `law_` state what holds over several
calls or over any course of events.
