# capnp-rpc

One side of a Cap'n Proto RPC connection. The library in `src/` holds the rules
of the connection, with contracts that Verus proves:

- `tables`: exports and questions under numbers that this side picks, lowest
  free number first; imports and answers under numbers that the other side
  picks.
- `message`, `node`, `schema`, `encode`, `reader`: the messages, the structs
  they are made of, and how they are read out of the wire format by way of the
  `capnp` crate.
- `question`, `answer`, `client`, `context`, `caps`, `local`: questions that
  were asked, answers that are owed and the calls that wait for them, the ends
  by which calls are made, the contexts in which they run, the capabilities in
  payloads, and how those of this side are exported.
- `connection`: the state of a connection. `RpcConnectionState::step` says what
  has to be done about each event.
- `laws`: what holds of a connection over one event and over several.
- `channel`, `fault`, `runtime`: the channels of the standard library, why an
  event cannot be handled, and what a connection only carries.

`app/` runs connections: it reads and writes the pipes, keeps the threads and
the channels, and does what `step` says. `tests/` holds the tests.
