//! Coordinator-side protocol engine for a mesh of radio-linked modules.
//!
//! The crate builds and parses the radio's API frames, keeps the registry of
//! known modules, and decides every step of discovery and of the typed
//! request/set exchanges. It performs no I/O itself: callers write the bytes
//! it produces to their transport and hand back what they read.

pub mod error;
pub mod checksum;
pub mod endian;
pub mod buffer;
pub mod wire;
pub mod api;
pub mod text;
pub mod atcommands;
pub mod modules;
pub mod clock;
pub mod commands;
pub mod manager;
pub mod device;
pub mod console;
