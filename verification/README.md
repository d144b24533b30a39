# sv2_router

The decisions of a Stratum proxy, verified with Verus.

The proxy stands between miners and a pool. SV1 miners are routed to the upstream of the token that
they mine for, SV2 miners come in directly, and the pool is reached over one extended channel that
all miners with standard channels share.

- `src/` decides. Each part takes messages and events as plain values, keeps the state, and says
  what is to be done; its contracts say which state and which action follow from which event.
- `app/` acts. It holds the sockets, tasks, locks and clocks, performs what was decided and reports
  what came of it.
- `tests/` runs the library with the real protocol crates.

Calls into the protocol crates stand behind small trusted functions, each with a comment on what it
claims: the SV1 messages in `src/sv1.rs`, the SV2 messages in `src/messages.rs` and
`src/ingress/sv2_ingress.rs`, the keys in `src/keys.rs`, the numbers of 256 bits in `src/target.rs`,
and the factory behind the pool's channel in `src/sv2_proxy/upstream/`.

What holds of several calls together stands in the public proof functions whose names begin with
`law_`.
