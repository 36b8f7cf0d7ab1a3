# rust-steam

A client library for the Steam network protocol, written in Verus. The
functions in `src/` carry contracts that Verus proves, except the small
`#[verifier::external_body]` items that call outside crates or std (byte
order, hex, Base64, digests, UUIDs, the clock, random numbers): their
contracts are trusted, not proved, and those reading the clock or drawing
random numbers promise nothing about the value.

- `types` — Steam identifiers, result codes, message numbers, errors.
- `bytes`, `text`, `encoding` — little-endian fields, decimal text, and the
  hexadecimal and Base64 encodings (stated as specifications; the `hex`,
  `base64` and `byteorder` crates do the work).
- `protocol` — the packet envelope and the channel-encryption and logon
  messages, with their byte encodings and round-trip laws.
- `authentication` — the web login flow: request forms, answer handling and
  the polling decisions.
- `callbacks`, `client`, `handlers` — the callback queue, the client's
  connection and logon state machine, and the user handler.
- `networking` — the connection plan, the connection manager's state and
  outgoing queue, and message framing per transport.
- `utils`, `file_size` — identifiers, digests, validation and parsing
  helpers, backoff and rate limiting.
- `demo` — a self-contained demonstration client.

`app/` holds the program around the library: the demonstration `main`, and
the asynchronous code that performs HTTP requests, socket I/O, sleeps and the
callback loop, asking the library what to send and what to do next.

The tests under `tests/` run the compiled library.
