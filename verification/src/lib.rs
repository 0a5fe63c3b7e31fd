//! Provisioning of a vector-search collection on a qdrant cluster.
//!
//! The library derives the full collection configuration (naming, vector
//! geometry, indexing and storage policy, sharding topology) from a closed
//! registry of provider, model and cluster identities, and drives the
//! two-phase creation workflow (collection first, then a fixed number of
//! shard keys) as a verified state machine.  The caller performs the
//! network calls and the operator prompt, and feeds each outcome back in.

pub mod config;
pub mod names;
pub mod registry;
pub mod trace;
pub mod workflow;
