//! A text-line chat relay: the session protocol, the event bus and the
//! abuse controls, with their contracts.

pub mod address;
pub mod clienthandle;
pub mod connection;
pub mod event;
pub mod iphash;
pub mod logger;
pub mod ratelimiter;
