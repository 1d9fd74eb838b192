//! Typed JSON-RPC 2.0 requests and responses: a compiler from method
//! signatures to request and response types, and the envelope protocol that
//! carries them.

pub use serde_json;

pub mod client;
pub mod codegen;
pub mod definition;
pub mod error;
pub mod kernel;
pub mod naming;
pub mod text;
pub mod wire;

pub use error::{Error, Result};
pub use kernel::{CommonPart, JsonRpcRequest, Params};
