//! Transport codec for protocol artifacts and the slow-hash stage that
//! hardens a password-derived digest.

pub mod slow_hash;
pub mod artifact;
pub mod codec;
pub mod text;
