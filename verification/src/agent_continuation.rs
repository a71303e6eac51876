//! Durable continuations of child-agent conversations: identities, lifecycle,
//! records, the session-scoped store and the coordinator that fences every
//! write.

pub mod canonical_json;
pub mod changes;
pub mod coordinator;
pub mod error;
pub mod ids;
pub mod lifecycle;
pub mod persistence;
pub mod record;
pub mod snapshot;
pub mod status;
pub mod store;
pub mod validation;
