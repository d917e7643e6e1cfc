//! The core of a JSON-RPC wallet daemon: a method dispatcher over a
//! registry of named wallets and signers, with descriptor classification,
//! signer-identity resolution, and a closed error taxonomy.
//!
//! All shared state lives in [`session::State`]; the caller holds it behind
//! one lock and hands it by exclusive reference into [`dispatch::dispatch`].
//! Work that only the wallet or signer engine can perform comes back as an
//! [`dispatch::Action`]; the caller runs it and completes the request
//! through [`dispatch::resume`]. The laws the dispatcher obeys are stated
//! and proved in [`laws`].
use vstd::prelude::*;

pub mod classify;
pub mod dispatch;
pub mod errors;
pub mod hex;
pub mod laws;
pub mod method;
pub mod registry;
pub mod schema;
pub mod session;
pub mod signers;

pub use errors::Error;
pub use registry::Registry;

verus! {

/// Version string reported by the `version` method.
pub const APP_VERSION: &'static str = "0.1.0";

} // verus!
