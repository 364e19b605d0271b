//! An order service core: a time-to-live cache of whole orders, the protocol
//! that writes an order's four parts in one transaction and publishes it to the
//! cache, and the cache-aside read that falls back to the store.

pub mod cache;
pub mod errors;
pub mod migrate;
pub mod sample;
pub mod schema;
pub mod service;
pub mod sql;
