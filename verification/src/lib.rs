//! Monitoring core for a cluster-managing storage engine: a normalizing
//! decoder that turns the engine's irregular JSON status documents into a
//! stable typed model, the path/fixture logic of the upstream client, and a
//! cache that holds the latest snapshot of each resource.

pub mod client;
pub mod cluster;
pub mod config;
pub mod decode;
pub mod index;
pub mod json;
pub mod nodes;
pub mod num;
pub mod query;
pub mod recovery;
pub mod shard;
pub mod warehouse;

pub use json::{Json, JsonV};
