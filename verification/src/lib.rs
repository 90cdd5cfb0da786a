//! Verified core of a combat-telemetry HTTP service.
//!
//! The library holds the logic behind the service's two servers: the
//! encounter state and the read and control operations the JSON API
//! performs on it, the decimal parsing of path parameters, the
//! port-binding retry algorithm both servers share, and the startup and
//! fallback decisions of the static-asset server. Network I/O, JSON
//! serialisation and the HTTP runtime live outside the library and hand
//! it plain values.

pub mod api;
pub mod encounter;
pub mod parse;
pub mod ports;
pub mod static_site;
pub mod windows;
