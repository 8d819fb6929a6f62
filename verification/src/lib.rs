//! The verified core of AWS-LC's Rust support: RSA key pairs and public keys, and the decisions of
//! the program that builds the C library and its bindings.

pub mod builder;
pub mod rsa;
pub mod text;
