//! A caching mirror for a package registry: archive cache decisions, prefetch
//! planning, index synchronisation steps, the git smart-HTTP response parser and
//! the usage statistics store.
pub mod bridge;
pub mod cache;
pub mod config;
pub mod prefetch;
pub mod stats;
pub mod sync;
pub mod text;
