//! The decisions of the build program that compiles AWS-LC and finds its Rust bindings.
//!
//! Every function here works on plain values: the environment is a snapshot of variables, what
//! the program prints is collected in a transcript, and work on files or processes is handed out
//! as requests whose results come back as values.

pub mod bindgen_laws;
pub mod bindings;
pub mod command;
pub mod env;
pub mod external;
pub mod laws;
pub mod libs;
pub mod paths;
pub mod plan;
pub mod plan_laws;
pub mod settings;
