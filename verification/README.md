# sui_proxy

A verified library for a proxy and the tools around it. Its contracts are proved by Verus.

- `edge`, `config`, `headers`: the edge proxy. A request whose `Sui-Transaction-Type` header says
  `execute` goes to the execution peer, any other to the read peer; the health check answers `up`.
- `bridge`, `committee`, `rpc`: the allow list of bridge validators. The committee is asked for by
  JSON-RPC, each member for its key over HTTP, and the list is replaced after each successful poll.
- `walrus`: the walrus nodes, given once and known by their keys.
- `snapshot_config`: the sources of a snapshot, the defaults of each network, and the storage backend
  and store configuration made of them.
- `keys`, `urls`, `table`, `environment`, `text`: what the others are built of.

What a library of another author computes (keys, URLs, JSON, Base64, header maps) is called through
small functions whose contracts are believed, not proved; each says above it what it claims.

`app/` holds the program: the configuration file, the listeners, the HTTP clients, the object stores
and the poll loop. `tests/` runs the library on concrete values.
