//! Protocol layer of a client for a remote inference service.
//!
//! Typed numeric tensors are packed into little-endian byte buffers and
//! carried in a positional pair of descriptor and raw-content sequences;
//! replies carry raw buffers in the order the outputs were requested.
//! This crate holds the codec, the request builder, the response decoder
//! and the session bookkeeping; the transport itself stays outside.

pub mod codec;
pub mod metadata;
pub mod request;
pub mod response;
pub mod session;
