//! An edge HTTP router: classifies requests by method and path prefix,
//! dispatches them to one of two named backends, and rewrites request and
//! response headers for cross-origin access and caching.

pub mod headers;
pub mod router;
pub mod proxy;
