//! Method-dispatch core of a JSON-RPC server: envelope types, an immutable
//! handler registry with a build-then-freeze lifecycle, request dispatch with
//! per-method metrics, HTTP-level admission control (body-size ceiling,
//! token-bucket rate quotas), and the configuration logic of the two serving
//! variants.

pub mod dispatch;
pub mod envelope;
pub mod json;
pub mod limiter;
pub mod network;
pub mod numfmt;
pub mod registry;
pub mod rejections;
pub mod server;
