//! RSA keys: what makes a key acceptable, what is kept of it, and which calls into AWS-LC make,
//! use and release it.
//!
//! AWS-LC itself is called from outside this library. An operation that takes several calls is a
//! small state machine here: it names the next call, takes the reply, and says which objects are
//! to be released.

pub mod calls;
pub mod components;
pub mod error;
pub mod generation;
pub mod key_pair;
pub mod laws;
pub mod pkey;
pub mod public_key;
pub mod signing;
pub mod size;
