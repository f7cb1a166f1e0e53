//! Telemetry ingestion gateway for airspace-tracking assets.
//!
//! The gateway sits between untrusted reporters and a backend cluster. This
//! library holds what the gateway decides, each decision with its contract:
//!
//! - [`admission`]: the origin check and the concurrency and rate limits that
//!   every request passes first;
//! - [`router`]: which handler serves which method and path;
//! - [`jwt`]: the login that trades an identifier for a signed, short-lived
//!   token, and the authentication of later requests by that token;
//! - [`fingerprint`] and [`dedup`]: the fingerprint of a request and the
//!   stores, one per telemetry format, that remember fingerprints for a time
//!   to live, so that a retransmission is acknowledged but not forwarded;
//! - [`ring`]: the bounded, most-recent-wins buffers that hand records to a
//!   downstream reader;
//! - [`ingest`]: what becomes of a request once its body has been decoded;
//! - [`grpc_clients`]: the cache of a lazily connected backend client;
//! - [`server`]: what is made of the configuration before the server starts;
//! - [`telemetry`] and [`error`]: the records and the errors.
//!
//! Sockets, locks, decoders and the broker are the caller's. Where a decision
//! waits on the outside world (a decoder, a connect attempt, the broker), the
//! library takes the outcome as an argument and says what follows from it.
//!
//! Three things are taken on trust, and are marked so where they stand: the
//! signing and checking of tokens ([`hs256`]), the wall clock, and the
//! conversion of bytes to text.

pub mod admission;
mod clock;
pub mod dedup;
pub mod error;
pub mod fingerprint;
pub mod grpc_clients;
pub mod grpc_server;
pub mod hs256;
pub mod ingest;
pub mod jwt;
pub mod ring;
pub mod router;
pub mod server;
pub mod telemetry;
mod text;
