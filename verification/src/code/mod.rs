//! One-time codes: the generation alphabet, the validated policy, generation by
//! rejection sampling, and input normalization and validation.

pub mod alphabet;
pub mod generate;
pub mod normalize;
pub mod policy;



pub use normalize::normalize;

pub use alphabet::Alphabet;
pub use generate::{generate_code, validate_code_input};
pub use policy::{CodePolicy, DEFAULT_MAX_RAW_LEN, SECURE_MIN_HUMAN_LENGTH, SHORT_COMPAT_LENGTH};
