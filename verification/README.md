# tmq

Asynchronous ZeroMQ sockets over the `zmq` crate, as a Verus library.

- `src/` is verified. `framing` cuts multipart messages into the segments a
  socket sends (each flagged `has_more` but the last) and defines how
  received parts are put together again; its laws say that a framed message,
  or a stream of them, is put together whole and in order. `poll` holds the
  decisions taken on each poll of a socket, over a record of every call made
  on the socket (parts handed to ZeroMQ or taken from it, the more-parts
  question, options, subscriptions); the PUSH sink and PULL stream
  keep, while no call fails, the order of what they sent and received against
  those laws. `comm` and `socket_types` build the socket kinds on them;
  `zmq_api` holds the trusted items through which the `zmq` crate is called.
- `app/` holds what waits on the event loop: readiness from tokio's reactor,
  and the `futures` traits over the library's sockets.
- `tests/` runs the library, with real sockets over `inproc://` endpoints.
