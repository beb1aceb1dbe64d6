//! A cooperative script virtual machine for game-flow logic.
//!
//! The library interprets compiled script modules, dispatches calls into a
//! table of host-defined native functions, and suspends and resumes execution
//! across real-time frame boundaries without blocking the host's loop.
//!
//! Script real numbers are held in fixed point, in thousandths, so that timer
//! arithmetic is exact; the host converts at its edge.

pub mod assets;
pub mod context;
pub mod laws;
pub mod loader;
pub mod module;
pub mod registry;
pub mod value;
pub mod video;
pub mod vm;
