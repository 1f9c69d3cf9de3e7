//! Store-facing data: the records stores hold and return, the rate-limit
//! vocabulary, and the store error types. The asynchronous store interfaces
//! themselves belong to the host side.

pub mod code;
pub mod error;
pub mod ratelimit;
pub mod session;
pub mod token;
