# secure_transport

SSL/TLS sessions on Apple's Secure Transport, with the decisions verified in
Verus and apart from the calls.

- `src/` is the library. It holds what is left to the users of Secure
  Transport: how a session is configured, how a handshake that pauses goes on,
  when a server's certificate is accepted, how bytes move over the user's
  stream, and which error is reported. It makes no platform call: an operation
  says which call comes next, and goes on with the reply. Every function
  states in its contract what it decides, and functions whose names begin with
  `law_` state what holds across operations.
- `app/` makes the calls. It wraps the platform's objects, runs the
  operations, and offers `SslContext`, `SslStream`, `ClientBuilder` and
  `ServerBuilder` over real streams.
- `tests/` runs the library, over a platform that the tests play.

One function of the library is trusted rather than proved: the conversion of
bytes to a string by `String::from_utf8`, in `src/context.rs`.
