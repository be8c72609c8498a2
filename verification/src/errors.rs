//! Error taxonomy of the translation core.

use vstd::prelude::*;

verus! {

/// Why an operation of the translation core failed.
#[derive(Debug, Clone, Copy, PartialEq, Eq, Structural)]
pub enum TranslatorError {
    /// A required configuration value (such as a model path) is missing.
    Configuration,
    /// An operation was attempted before `initialize()`.
    NotInitialized,
    /// Processing was attempted while the component is stopped.
    NotRunning,
    /// An audio endpoint failed to enumerate, open or stream.
    Device,
    /// A recognition or translation collaborator reported itself not ready
    /// at start time.
    CollaboratorNotReady,
}

impl TranslatorError {
    /// A short description of the failure.
    pub fn message(&self) -> (r: &'static str)
        ensures
            r@.len() > 0,
    {
        proof {
            reveal_strlit("missing configuration value");
            reveal_strlit("component not initialized");
            reveal_strlit("component not running");
            reveal_strlit("audio device failure");
            reveal_strlit("collaborator not ready");
        }
        match self {
            TranslatorError::Configuration => "missing configuration value",
            TranslatorError::NotInitialized => "component not initialized",
            TranslatorError::NotRunning => "component not running",
            TranslatorError::Device => "audio device failure",
            TranslatorError::CollaboratorNotReady => "collaborator not ready",
        }
    }
}

} // verus!
