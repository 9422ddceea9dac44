# algorithmia

A client library for the Algorithmia API: calling algorithms and managing
data (files, directories, collections), and running Rust algorithms on the
platform. Each function of the library states what it returns in a contract
that Verus proves.

The library (`src/`) builds every HTTP request the client sends and reads
every response it receives; it does no I/O itself. Each request builder and
response reader has a contract that states exactly what it produces.

- `algo/` — algorithm URIs and versions, call options, algorithm input and
  output (`AlgoIo`), and reading algorithm responses.
- `data/` — data URIs and the API paths they map to, response headers,
  objects of the data API (`HasDataPath`, `DataObject`), directories and their
  paged listings, and files.
- `collection.rs` — collections of the earlier data API.
- `client.rs`, `error.rs` — requests, responses, authentication and errors.
- `faas.rs`, `entrypoint.rs` — the request and response lines of the
  algorithm runner, and the entry point an algorithm implements.
- `entry_item.rs` — what the `#[entrypoint]` attribute accepts and which entry
  method it implements for an input type, over a plain description of the
  item it is attached to.
- `json.rs`, `codec.rs`, `text.rs`, `num.rs` — JSON values (through
  `serde_json`), base64 and media types, and the text and number helpers the
  rest is proved with.

`app/` sends the requests with `reqwest`, reads the environment and local
files, drives the runner's loop over standard input, and holds the `serde`
and `chrono` views of the library's types.
