//! A composition engine for request/response handlers.
//!
//! A [`service::Service`] turns one input into one output; a
//! [`service::Layer`] wraps a service in reusable cross-cutting behaviour.
//! [`builder::ServiceBuilder`] accumulates layers in the order a caller adds
//! them and, once given a base service, nests them around it: the first layer
//! added ends up innermost, the last one outermost.

pub mod basic;
pub mod builder;
pub mod fallible;
pub mod laws;
pub mod middleware;
pub mod service;
