//! Static-asset delivery for a single-page application: content-addressed
//! ETags, MIME resolution, conditional requests, cache-control policy and
//! SPA fallback routing, plus the service configuration defaults.

pub mod assets;
pub mod config;
pub mod policy;
pub mod router;
pub mod text;
