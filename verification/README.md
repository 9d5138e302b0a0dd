# sockets

A service that exposes local TCP listeners, hidden behind a NAT, through a
central server. Clients and server talk over a websocket; each tunnelled
connection is carried as a stream inside a tunnel.

- `src/` is the verified library (Verus): API-key authentication, the error
  type, the tunnel message model and identifiers, websocket framing of
  protocol messages, the local stream handles, and loading of certificates
  and private keys from PEM text.
- `app/` is the unverified I/O around it: the websocket tasks of client and
  server, JSON encoding of messages (serde copies of the message types),
  async reads and writes of local streams, reading PEM files from disk and
  the rustls glue.
- `tests/` exercises the library on concrete values.
