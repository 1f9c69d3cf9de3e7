//! In-memory reference stores, for tests and local development only: data is
//! lost on drop and nothing is shared between processes.
//!
//! Each store here is the synchronous table logic, with every operation
//! verified; a host serializes access to one table (for instance behind a
//! mutex) and adapts it to its asynchronous store interface.

pub mod code;
pub mod ratelimit;
pub mod session;
pub mod token;

pub use code::MemCodeStore;
pub use ratelimit::MemRateLimitStore;
pub use session::MemSessionStore;
pub use token::MemFormTokenStore;
