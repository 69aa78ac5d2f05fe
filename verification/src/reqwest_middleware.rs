//! Outbound HTTP client middleware marker.
//!
//! `OtelMiddleware` injects the active trace context into outbound
//! request headers through the process-wide propagator. The injection
//! itself runs in the asynchronous client stack, outside this library;
//! the type is defined here so callers can name and construct it.
use vstd::prelude::*;

verus! {

/// Marker for the outbound-request middleware that propagates the
/// active trace context.
#[derive(Debug)]
pub struct OtelMiddleware;

impl Default for OtelMiddleware {
    fn default() -> (r: Self) {
        OtelMiddleware
    }
}

} // verus!
