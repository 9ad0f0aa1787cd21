//! An attested sharded query router for a privacy-preserving lookup service.
//!
//! Clients submit opaque ciphertext queries; the router fans each query out to
//! a pool of backend shards over mutually attested channels, tolerates partial
//! shard failure, and hands the surviving ciphertext responses to a trusted
//! enclave capability that alone can merge them. The routing logic here is
//! verified; remote calls (attestation verification, shard RPCs, the enclave
//! merge) are performed by the surrounding process, which feeds their outcomes
//! back into the state machines of this crate.

pub mod bytes128;
pub mod db_crypto;
pub mod fanout;
pub mod pool;
pub mod retry;
pub mod rng;
pub mod router;
pub mod session;
pub mod shard;
