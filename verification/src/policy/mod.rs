//! Policy enforcement: domain locking, allowlists of external domains, rate limiting.

pub mod enforcement;
pub mod rate_limit;

pub use enforcement::{DomainPolicy, PolicyEngine, PolicyViolation};
pub use rate_limit::{RateLimitError, RateLimiter, TokenBucket};
