//! The updater's error taxonomy, and the translation of collaborator failures
//! into it.
//!
//! The release lister and the update executor report their failures to this
//! crate as a [`CollaboratorError`]: a kind naming which class of failure the
//! collaborator signalled, and its message. [`UpdateError::from_collaborator`]
//! translates each kind into exactly one variant of the taxonomy.

use vstd::prelude::*;
use vstd::string::StringExecFns;

verus! {

/// One error kind per class of failure the updater can report.
///
/// `Version` and `Configuration` are reserved: the current policy never raises
/// them (a version string that does not parse triggers the fallback comparison
/// instead of an error).
#[derive(Debug)]
pub enum UpdateError {
    /// Transport-level failure reaching the release or update service.
    Network(String),
    /// Release-service-level failure, including "no releases found".
    GitHub(String),
    /// Reserved for version-string parse failures.
    Version(String),
    /// Filesystem failure while replacing the binary.
    FileSystem(String),
    /// Permission failure while replacing the binary.
    Permission(String),
    /// Reserved for configuration failures.
    Configuration(String),
    /// A failure that has a classification of its own outside this taxonomy.
    Other(String),
    /// Catch-all for collaborator failures not otherwise classified.
    Unknown(String),
}

/// Result type of every fallible updater operation.
pub type UpdateResult<T> = Result<T, UpdateError>;

/// Which class of failure an outside collaborator (the release lister or the
/// update executor) signalled. The caller that makes the outside call reports
/// its failure under one of these kinds.
#[derive(Debug, Clone, Copy, PartialEq, Eq, Structural)]
pub enum CollaboratorErrorKind {
    /// A transport-level failure.
    Network,
    /// A release-level failure reported by the service.
    Release,
    /// An input/output failure while touching the filesystem.
    Io,
    /// A permission failure while touching the filesystem.
    Permission,
    /// Anything else.
    Other,
}

/// A collaborator failure as this crate receives it: its kind and its message.
#[derive(Debug)]
pub struct CollaboratorError {
    pub kind: CollaboratorErrorKind,
    pub message: String,
}

/// The variant each collaborator failure is translated to: network failures
/// keep their kind, release failures become `GitHub`, filesystem failures
/// become `FileSystem` or `Permission`, and the rest fall to `Unknown`.
pub open spec fn collaborator_translation(e: CollaboratorError) -> UpdateError {
    match e.kind {
        CollaboratorErrorKind::Network => UpdateError::Network(e.message),
        CollaboratorErrorKind::Release => UpdateError::GitHub(e.message),
        CollaboratorErrorKind::Io => UpdateError::FileSystem(e.message),
        CollaboratorErrorKind::Permission => UpdateError::Permission(e.message),
        CollaboratorErrorKind::Other => UpdateError::Unknown(e.message),
    }
}

/// The description `UpdateError::message` gives for each variant: a fixed
/// label for the kind, then the carried message.
pub open spec fn error_message_view(e: UpdateError) -> Seq<char> {
    match e {
        UpdateError::Network(m) => "network error: "@ + m@,
        UpdateError::GitHub(m) => "GitHub API error: "@ + m@,
        UpdateError::Version(m) => "version parse error: "@ + m@,
        UpdateError::FileSystem(m) => "filesystem error: "@ + m@,
        UpdateError::Permission(m) => "permission error: "@ + m@,
        UpdateError::Configuration(m) => "configuration error: "@ + m@,
        UpdateError::Other(m) => "other error: "@ + m@,
        UpdateError::Unknown(m) => "unknown error: "@ + m@,
    }
}

impl UpdateError {
    /// Translates a collaborator failure into this taxonomy, keeping its
    /// message verbatim.
    pub fn from_collaborator(e: CollaboratorError) -> (r: UpdateError)
        ensures
            r == collaborator_translation(e),
    {
        match e.kind {
            CollaboratorErrorKind::Network => UpdateError::Network(e.message),
            CollaboratorErrorKind::Release => UpdateError::GitHub(e.message),
            CollaboratorErrorKind::Io => UpdateError::FileSystem(e.message),
            CollaboratorErrorKind::Permission => UpdateError::Permission(e.message),
            CollaboratorErrorKind::Other => UpdateError::Unknown(e.message),
        }
    }

    /// A human-readable description: the variant's label, then its message.
    pub fn message(&self) -> (m: String)
        ensures
            m@ == error_message_view(*self),
    {
        match self {
            UpdateError::Network(msg) => {
                let s = String::from_str("network error: ");
                s.concat(msg.as_str())
            },
            UpdateError::GitHub(msg) => {
                let s = String::from_str("GitHub API error: ");
                s.concat(msg.as_str())
            },
            UpdateError::Version(msg) => {
                let s = String::from_str("version parse error: ");
                s.concat(msg.as_str())
            },
            UpdateError::FileSystem(msg) => {
                let s = String::from_str("filesystem error: ");
                s.concat(msg.as_str())
            },
            UpdateError::Permission(msg) => {
                let s = String::from_str("permission error: ");
                s.concat(msg.as_str())
            },
            UpdateError::Configuration(msg) => {
                let s = String::from_str("configuration error: ");
                s.concat(msg.as_str())
            },
            UpdateError::Other(msg) => {
                let s = String::from_str("other error: ");
                s.concat(msg.as_str())
            },
            UpdateError::Unknown(msg) => {
                let s = String::from_str("unknown error: ");
                s.concat(msg.as_str())
            },
        }
    }
}

} // verus!
