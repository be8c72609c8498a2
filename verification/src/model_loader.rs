//! Model-file lookup.
//!
//! Only the existence check lives here; actually loading a recognition,
//! translation or voice-activity model is the embedding application's work.

use vstd::prelude::*;

verus! {

/// Which kind of model a path is expected to hold.
pub enum ModelType {
    Whisper,
    Llm,
    SileroVad,
}

/// Model-file helper.
pub struct ModelLoader;

impl ModelLoader {
    /// Whether a model file exists at the path. The answer depends on the
    /// file system, so nothing more is promised of it.
    pub fn check_model_exists(path: &str) -> bool {
        path_exists(path)
    }
}

/// Relies on std::path::Path::exists: true exactly when the path reaches an
/// existing file or directory. The result depends on what is on disk, so
/// nothing is promised of it.
#[verifier::external_body]
fn path_exists(path: &str) -> bool {
    std::path::Path::new(path).exists()
}

} // verus!
