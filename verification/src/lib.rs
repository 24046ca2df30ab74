//! Checks a GitHub repository's releases for a newer version than the running
//! binary's version and classifies the outcome of an update attempt.
//!
//! The crate holds the updater's decision logic: configuration and its derived
//! download links, the version-comparison policy (semantic ordering where both
//! versions parse, string inequality otherwise), and the translation of
//! collaborator failures into the updater's error taxonomy. The network calls
//! themselves (listing releases, replacing the binary) are made by the caller,
//! which hands their outcomes to the decision functions here.

pub mod config;
pub mod error;
pub mod updater;
pub mod version;

pub use config::ConfigView;
pub use config::UpdateConfig;
pub use error::CollaboratorError;
pub use error::CollaboratorErrorKind;
pub use error::UpdateError;
pub use error::UpdateResult;
pub use updater::AutoUpdater;
pub use updater::ReleaseInfo;
pub use updater::UpdateOutcome;
pub use updater::update_log_message;
pub use version::strip_version_prefix;
pub use version::version_differs;
pub use version::version_requires_update;
