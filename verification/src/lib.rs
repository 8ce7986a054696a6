//! A pre-kernel boot loader's core, verified: configuration parsing, kernel
//! image validation, segment placement, memory-map capture and the hand-off
//! state machine. Firmware calls stay with the caller; this crate decides.

pub mod config;
pub mod endian;
pub mod error;
pub mod handoff;
pub mod image;
pub mod lexer;
pub mod memory_map;
pub mod placement;
pub mod store;
