# ttl_keeper

A web service that watches the time to live (TTL) of Soroban contract
instances: it lists contract events indexed by Mercury, subscribes
contracts to Mercury's expiration tracking, reads and extends instance
TTLs through the Soroban RPC, and keeps the Mercury access token fresh.

- `src/` is the library, verified with Verus: the decisions the service
  takes on Mercury's and the RPC's answers, the error answers, and the
  Stellar encodings it computes (XDR layouts, the subscription hash, topic
  values, decimal and hexadecimal text).
- `app/` is the service around it: the axum routes, the GraphQL, RPC and
  database round trips, and the token renewal task.
- `tests/` runs the library against the real `stellar-xdr`, `sha2` and
  `stellar-strkey` crates.
