# Durable Streams

Append-only streams over HTTP: a server protocol, its configuration, and a client
with retries, live reads, idempotent producers and a local journal.

`src/` is the library, verified with Verus: parsing and validation of requests, the
answers of each handler, cursors and event frames, the layers of the configuration,
proxy trust, admission of storage work, and the client's requests, replies, read
loops, producer state and journal replay. What it calls of other crates, and of the
standard library where Verus has no contract for it, stands behind small functions
marked `external_body` and two `assume_specification` items. Their contracts are
trusted: each says in its comment what it claims of the code that it calls.

`app/` is the program around it: command line, sockets, files, TLS, the HTTP
framework and the HTTP client. It asks the library what to do and does it.

`tests/` runs the library with the crates that it calls.

## Layout of the library

| Module | What it holds |
| --- | --- |
| `text`, `bytes`, `decimal`, `fields` | text, byte, number and header-list helpers |
| `encoding`, `json`, `urls`, `time`, `http`, `net` | base64, JSON, URLs, times, header maps, addresses |
| `protocol` | errors, problem documents, headers, producers, JSON mode, event frames, names, cursors |
| `config` | settings, profiles, patches, environment, loading, validation |
| `middleware` | proxy trust, telemetry, security headers |
| `handlers` | what the server answers to each request |
| `execution`, `router`, `startup`, `tls`, `cli` | admission, ownership and CORS, startup phases, TLS material, listings |
| `client` | configuration, requests, reads, producers, journal, replica, command adapter |

Functions named `law_*` are proofs of properties that span several functions.
