//! The dispatch and lifecycle core of a tunnel client.
//!
//! A client is given a set of tunnel descriptions and one upstream transport.
//! This crate decides, for each description, which listener or connector is
//! built and how the resulting tunnel is supervised. It performs no I/O: the
//! surrounding program carries out the actions that the supervisor hands out
//! and reports back what happened.

pub mod error;
pub mod endpoint;
pub mod text;
pub mod headers;
pub mod proxy;
pub mod transport;
pub mod client_api;
pub mod dispatch;
pub mod supervisor;
