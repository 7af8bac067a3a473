//! Lifecycle and communication layer for an isolated script execution unit.
//!
//! An [`worker::Worker`] owns one (external) script-engine instance, a fixed
//! set of capability modules registered at construction, and one host-facing
//! message channel pair.  The engine itself parses and runs script code; this
//! crate decides, step by step, what the engine is asked to do and what each
//! reported outcome means, and it carries the messages between a host and its
//! unit.

pub mod channel;
pub mod errors;
pub mod loader;
pub mod specifier;
pub mod worker;
