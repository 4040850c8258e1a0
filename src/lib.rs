//! Safe ownership and value handling around a WebAssembly engine that is
//! reached through a raw call interface.
//!
//! The library never calls the engine itself. Each operation either decides
//! a result from plain values or returns the engine call that its caller must
//! perform next, so that every handle is released exactly once.

pub mod value;
pub mod outcome;
pub mod handle;
pub mod boundary;

