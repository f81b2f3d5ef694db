//! A sharded, in-memory key-value store: the router that assigns keys to
//! shards, the shards and the store that composes them, the request handlers
//! of the service, and the retry policy a client follows while connecting.

pub mod router;
pub mod shard;
pub mod store;
pub mod service;
pub mod connection;
