//! A minimal container launcher: resolves an image reference against a
//! registry, merges its layers into a fresh root, and runs a command inside
//! that root behind a root change and a PID namespace.
//!
//! The library holds the decisions of the pipeline; the program around it
//! performs the network, filesystem and process work that each decision asks for.
pub mod failure;
pub mod reference;
pub mod manifest;
pub mod layer;
pub mod registry;
pub mod launcher;
