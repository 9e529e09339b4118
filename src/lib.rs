//! Authentication cache and session resolution for a request pipeline.
//!
//! Time is measured in whole seconds since the Unix epoch (`i64`), and the
//! identity key (the discriminant stored in a session) is an `i64`.
pub mod cache;
pub mod clock;
pub mod config;
pub mod laws;
pub mod layer;
pub mod resolver;

pub use cache::{AuthCache, CacheEntry};
pub use config::{AuthConfig, BackendFailurePolicy};
pub use layer::AuthSessionLayer;
pub use resolver::{Identity, LoadOutcome, Lookup};
