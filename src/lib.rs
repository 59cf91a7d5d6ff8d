//! Resource cache and resource-descriptor parsing for queued ingestion.

pub mod cache;
pub mod client;
pub mod identity_token;
pub mod resource_uri;
