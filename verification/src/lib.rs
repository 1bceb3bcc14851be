//! A minimal signed-price oracle library.
//!
//! A server aggregates a reference price from up to two external sources,
//! packages it into a fixed-size record, signs the record with an Ed25519
//! key, and serves the latest record to any requester over a datagram
//! protocol. This crate holds the parts where correctness matters: the
//! aggregation and fallback policy, the record's fixed binary layout, the
//! signing and verification of records, and the client-side validation of a
//! response. Network transport and JSON fetching live outside the library.

pub mod aggregate;
pub mod fetch;
pub mod oracle;
pub mod record;
pub mod sig;
