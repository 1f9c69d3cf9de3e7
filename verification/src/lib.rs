//! One-time-code authentication primitives: code generation and validation,
//! keyed lookup-key derivation, session and form-token state machines, secure
//! cookie construction, and in-memory reference stores.
//!
//! The library's logic is verified against its contracts; the few calls it
//! makes into the standard library and the HMAC and constant-time comparison
//! crates go through small trusted wrappers whose contracts state what those
//! calls do. Storage and other input/output stay with the host: the managers in [`auth`] expose the
//! decisions of each flow as pure steps, and the host performs the store calls
//! between them.

pub mod audit;
pub mod auth;
pub mod clock;
pub mod code;
mod crypto;
pub mod cookie;
pub mod error;
pub mod hashing;
pub mod mem;
pub mod metrics;
pub mod rng;
pub mod secret;
pub mod state;
pub mod store;
pub mod text;

use vstd::prelude::*;

verus! {

/// The wire-format version. It prefixes every keyed lookup message, so bumping
/// it changes every derived lookup key.
pub const FORMAT_VERSION: &'static str = "codlet/v1";

} // verus!
