//! Safe boundary layer of a binding to a native machine-translation engine.
//!
//! The crate holds everything the binding decides before and after a call
//! into the engine: which files of a model directory fill which slot, the
//! configuration document handed to the engine, the null-terminated form of
//! every text argument, and the meaning of what the engine hands back.

pub mod engine;
pub mod error;
pub mod marshal;
pub mod model;
pub mod resolve;
