//! A typed host-binding layer between an embedding application and an
//! embedded WebAssembly engine.
//!
//! The crate holds the parts of the binding that are pure decisions on plain
//! values: the calling-convention signature encoding, the registry of host
//! functions with its descriptor list, the owned per-instance context slot,
//! and the instance lifecycle with its fixed teardown order. The native calls
//! themselves are made by the embedding code around the library.

pub mod host_function;
pub mod user_data;
pub mod instance;
