//! Request-dispatch core of a small HTTP server.
//!
//! The library covers the path an inbound request takes once it reaches the
//! server: an immutable route table maps the request path to a handler, the
//! dispatcher decides whether that handler runs inline or on the bounded
//! blocking lane, conditional-GET caching is negotiated for static resources,
//! handler failures are normalized to plain 500 responses, and every request
//! yields exactly one log line.

pub mod cache;
pub mod config;
pub mod context;
pub mod dispatch;
pub mod environment;
pub mod handlers;
pub mod httpdate;
pub mod logger;
pub mod pool;
pub mod response;
pub mod route;
pub mod textfmt;
