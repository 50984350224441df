//! Read-only explorer indexer: the verified core.

pub mod api;
pub mod archive;
pub mod cbor;
pub mod clock;
pub mod config;
pub mod coordinator;
pub mod db;
pub mod json;
pub mod text;
