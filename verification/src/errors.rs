use vstd::prelude::*;

verus! {

/// Why a message could not be posted: the paired half of the channel is gone.
/// On the receive side, closure is an end-of-stream signal, not an error.
#[derive(Debug, PartialEq, Eq, Structural)]
pub enum ChannelError {
    Closed,
}

/// A parse, runtime or evaluation exception reported by the engine, carrying
/// the diagnostic produced by the installed error-translation hook.  Callers
/// never see the engine's raw exception representation.
#[derive(Debug)]
pub struct EngineError {
    pub diagnostic: String,
}

/// Why a module graph could not be loaded.
#[derive(Debug, PartialEq, Eq, Structural)]
pub enum LoadError {
    /// The specifier text is not a well-formed absolute URL.
    InvalidSpecifier,
    /// The loader collaborator could not fetch a requested module.
    FetchFailed,
}

} // verus!
