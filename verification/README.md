# parsec_client test helpers, verified

Helpers that let a test play the Parsec service against a client: the bytes of
a successful response that carries a given result, and the request (or the
operation) that the client wrote, read back from its bytes.

- `src/codes.rs`: wire codes of providers, body types, authenticators, opcodes
  and statuses.
- `src/header.rs`: request and response headers as codes; the default request
  header; the response header that answers a request.
- `src/frame.rs`: the byte layout of a frame (36-byte header, body,
  authentication), and the proofs that a byte sequence starts with at most one
  frame and that a written request frame reads back as what was written.
- `src/mock.rs`, `src/wire.rs`: the contracts of the calls into `mockstream`
  and `parsec-interface`.
- `src/exchange.rs`: the helpers themselves.
