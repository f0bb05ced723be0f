# sahl

The verified core of Sahl, a point-of-sale system made of tills that keep selling offline and a
server that takes in each till's hash-chained event log when it reconnects.

What this crate holds is the decision logic around that exchange, not the point-of-sale domain
itself: the event types, the chain-hash check and the sales projections belong to a separate core
crate that is not part of this repository. Without it the server here can plan a pushed batch but
cannot confirm its hashes, so it answers any batch with new events as unavailable; the till refuses
a pull page that carries events; and there is no day report.

- `src/` is the library, proved with Verus. Calls into std and into outside crates (hashing,
  encodings, ed25519, randomness, locks, `str` methods) go through small trusted wrappers marked
  `#[verifier::external_body]`, whose contracts state what those crates document; everything
  else is verified:
  - `protocol`, `plan`: the sync wire vocabulary, and how the server decides what to do with a
    pushed batch (gaps, forks, retries, partial retries).
  - `device`, `routes`, `ingest`, `config`, `cli`: the server's side — enrollment tokens, signed
    requests, the decisions its HTTP handlers make, its configuration and command line.
  - `keys`, `transport`, `engine`, `scheduler`, `backoff`, `store`, `printer`, `till`, `commands`:
    the till's side — its key and enrollment, the signed requests it sends, a sync round and the
    loop around it, retry backoff, its local log, receipt printing, and what its screens are given.
  - `codec`, `text`: the encodings and string operations the rest relies on.
  - `cli` also holds which embedded database migrations are still to be applied.
- `tests/` exercises the library from outside.
- `app/` is the server binary and the till's input and output: HTTP, Postgres, SQLite, files,
  sockets and threads, calling the library for every decision.
