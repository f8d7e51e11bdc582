//! Request resolution, header composition and the startup readiness protocol
//! of a static file HTTP server.

pub mod headers;
pub mod response;
pub mod resolve;
pub mod config;
pub mod handler;
pub mod readiness;
