# forgegraph

A verified client for ForgeGraph, which manages PostgreSQL and Redis services.

`src/` is the library. It sends, reads and stores nothing itself: it hands out what is
to be sent, read or stored as a value, and takes back what came of it.

- `client`: the calls of the ForgeGraph API, and what their replies mean.
- `api_error`: what is said of a reply that does not grant the request.
- `legacy`: servers that only know the `database` endpoints.
- `service`: services, connections and the envelopes that they come in.
- `connect`: pool keys, the choice of a transport, and connection configurations.
- `cache`: what the local cache holds, the steps in which it is replaced, and when it is
  emptied.
- `settings`: where the server's address and the token come from.
- `json`, `percent`, `status`: what is taken from `serde_json`, `urlencoding` and
  `reqwest`, with the contracts that are believed of it.
- `text`: text helpers.

`app/` runs the library: it sends the requests with `reqwest` and keeps the settings
and the cache with `sqlx`.
