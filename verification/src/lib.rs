//! Serving side of an HBONE connection (HTTP/2 CONNECT over mutual TLS), with certificate
//! revocation enforced on connections that are already open.
//!
//! Everything a connection's serving task decides is here: which certificates it watches, when a
//! reloaded CRL ends it, in which order the revocation is recorded and the connection torn down,
//! what is done for each request, ping failure, drain and shutdown, and what the task returns.
//! The task itself, which awaits and performs the actions, is ordinary code around this library.

pub mod calls;
pub mod crl;
pub mod laws;
pub mod outside;
pub mod revocation;
pub mod server;
