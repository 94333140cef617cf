//! Privacy-preserving mutual-like matching between two users.
//!
//! Two users each submit a private like/pass decision about the other. The
//! decisions live only inside a confidential computation; the durable record
//! of a session holds an opaque ciphertext.

pub mod errors;
pub mod keys;
pub mod profile;
pub mod circuits;
pub mod computation;
pub mod program;
pub mod compatibility;
