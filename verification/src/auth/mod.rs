//! The orchestration layer: code issuance and redemption, and sessions.
//!
//! Store traffic is asynchronous and belongs to the host, so each manager
//! operation here is split at its store calls. A host runs an operation by
//! calling the `prepare`/`begin` step, performing the store call it names,
//! and handing the store's answer to the matching `finish` step, which makes
//! every decision of the flow (error mapping, audit event, rate-limit
//! follow-up) and is verified against its contract.

pub mod code;
pub mod error;
pub mod norate;
pub mod session;

pub use code::CodeAuth;
pub use error::{FormTokenError, IssuedSession, RedeemError, RedeemSuccess, SessionError};
pub use norate::NoRateLimit;
pub use session::SessionManager;
