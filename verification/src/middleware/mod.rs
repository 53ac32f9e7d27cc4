//! What stands between a request and its handler: admission by rate, and
//! the lookup of the session.

pub mod rate_limiter;
pub mod session_extractors;

pub use rate_limiter::{RateLimiter, TokenBucket};
