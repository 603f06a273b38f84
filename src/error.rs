use vstd::prelude::*;

verus! {

/// What went wrong while reading or writing a metadata file.
#[derive(Clone, Copy, PartialEq, Eq, Debug)]
pub enum DocumentFailure {
    /// The file could not be accessed.
    Io,
    /// The file's content is not a valid trait document.
    Malformed,
}

/// Failures reported to the host.
#[derive(Debug)]
pub enum PluginError {
    /// The host asked for an editor this plugin does not provide.
    EditorNotFound { editor_id: String },
    /// The metadata file at `path` could not be read or written.
    Io { path: String },
    /// The metadata file at `path` does not hold a valid trait document.
    Malformed { path: String },
}

/// The error reported for `failure` on the file at `path`.
pub open spec fn failure_error(failure: DocumentFailure, path: Seq<char>, e: PluginError) -> bool {
    match failure {
        DocumentFailure::Io => e matches PluginError::Io { path: p } && p@ == path,
        DocumentFailure::Malformed => e matches PluginError::Malformed { path: p } && p@ == path,
    }
}

/// Builds the error reported for `failure` on the file at `path`.
pub fn error_for(failure: DocumentFailure, path: &String) -> (e: PluginError)
    ensures
        failure_error(failure, path@, e),
{
    match failure {
        DocumentFailure::Io => PluginError::Io { path: path.clone() },
        DocumentFailure::Malformed => PluginError::Malformed { path: path.clone() },
    }
}

} // verus!
