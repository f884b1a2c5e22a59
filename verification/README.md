# ztunnel_h2

The serving side of an HBONE connection (HTTP/2 CONNECT over mutual TLS), with certificate
revocation enforced on connections that are already open, verified with Verus.

- `src/crl.rs`: the loaded CRLs, and whether a certificate chain is revoked by them.
- `src/revocation.rs`: per-connection revocation state for both directions: what is kept of the
  peer's chain, recording a revocation, and the wait for one.
- `src/server.rs`: handshake settings, requests and their answers, and the rules of the serving loop.
- `src/laws.rs`: what holds of the serving loop over any series of events.
- `src/outside.rs`: the types and functions of other crates that the library uses, with what is
  believed of them.
- `tests/`: the library against real TLS, HTTP/2 and watch channels, all in memory.
- `app/`: the tasks that await events and perform what the library decides.
