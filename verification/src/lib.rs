//! Verified core of a malaria-cell inference service.
//!
//! The library covers the logic of the service that can be stated and
//! proved: the inference configuration, the deterministic image
//! preprocessing into a planar pixel tensor, the shape bookkeeping of the
//! convolutional network, the fixed-point probability model with its class
//! decision, and the assembly of the HTTP responses. Image decoding and
//! resizing are done by the `image` crate behind a trusted wrapper; the
//! floating-point forward pass of the network lives in the surrounding
//! server, which feeds its outcome back into the verified functions here.

pub mod classify;
pub mod config;
pub mod error;
pub mod network;
pub mod preprocess;
pub mod render;
pub mod service;
