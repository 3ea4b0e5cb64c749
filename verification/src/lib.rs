//! Read-consistency layer of a ledger identity client.
//!
//! The crate resolves ledger-anchored artifacts (schemas, credential
//! definitions) for its callers. Whatever it hands back is either freshly
//! verified against the ledger or no staler than the caller accepted.
//!
//! Everything that touches the network, the wallet or the clock is done by the
//! embedding process. The modules here hold the decisions: which step comes
//! next, what is written, and how every call ends.

pub mod api;
pub mod coordinator;
pub mod dispatcher;
pub mod entry;
pub mod error;
pub mod fetcher;
pub mod freshness;
pub mod model;
pub mod registry;
pub mod store;
pub mod text;
pub mod worker;
