//! Peer-to-peer replication of project state over a content-addressed object
//! store, together with an append-only event log kept in that same store.
//!
//! The crate has two halves. The event-log half (`envelope`, `refnames`,
//! `events`) encodes tagged events as commit messages and chains them under
//! per-peer references. The replication half (`queue`, `seeds`, `fetch`)
//! schedules deduplicated fetches of tracked identities from seed endpoints,
//! remembering which seed last served each identity.

pub mod envelope;
pub mod errors;
pub mod events;
pub mod fetch;
pub mod gitstore;
pub mod identity;
pub mod queue;
pub mod refnames;
pub mod seeds;
