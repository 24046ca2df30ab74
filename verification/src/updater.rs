//! The update policy engine.
//!
//! An [`AutoUpdater`] holds a configuration and decides, from what the outside
//! collaborators report, whether an update is needed, what the latest release
//! is, and how an update attempt ended. The collaborators themselves — the
//! release lister and the update executor — run outside this crate: the caller
//! invokes them and hands their outcome (a release list or a failure, an
//! update status or a failure) to the decision functions here.

use vstd::prelude::*;
use vstd::string::StringExecFns;

use crate::config::ConfigView;
use crate::config::UpdateConfig;
use crate::config::default_config_view;
use crate::config::gitee_releases_url_spec;
use crate::config::github_releases_url_spec;
use crate::error::CollaboratorError;
use crate::error::UpdateError;
use crate::error::collaborator_translation;
use crate::version::basic_update_needed;
use crate::version::smart_update_needed;
use crate::version::version_differs;
use crate::version::version_requires_update;

verus! {

/// One published release as the release lister reports it: its version tag and
/// its display name. The lister orders its list most-recent first, so the
/// first entry is the latest release.
#[derive(Debug, Clone)]
pub struct ReleaseInfo {
    pub version: String,
    pub name: String,
}

/// What the update executor reports after a run that did not fail: whether the
/// binary was replaced, and the version now in place.
#[derive(Debug, Clone)]
pub struct UpdateOutcome {
    pub updated: bool,
    pub version: String,
}

/// The update policy engine: a held configuration and no other state.
#[derive(Clone)]
pub struct AutoUpdater {
    config: UpdateConfig,
}

/// The message of the error that an empty release list raises.
pub open spec fn no_releases_message() -> Seq<char> {
    "no releases found"@
}

/// The line worth logging for a finished update: the new version where the
/// binary was replaced, a fixed note where it already was current.
pub open spec fn update_log_view(o: UpdateOutcome) -> Seq<char> {
    if o.updated {
        "updated to version "@ + o.version@
    } else {
        "already up to date"@
    }
}

impl View for AutoUpdater {
    type V = ConfigView;

    closed spec fn view(&self) -> ConfigView {
        self.config@
    }
}

impl AutoUpdater {
    /// Wraps a configuration into a policy engine.
    pub fn new(config: UpdateConfig) -> (r: Self)
        ensures
            r@ == config@,
    {
        AutoUpdater { config }
    }

    /// A policy engine over the default configuration.
    pub fn with_default_config() -> (r: Self)
        ensures
            r@ == default_config_view(),
    {
        AutoUpdater::new(UpdateConfig::default())
    }

    /// The version string the engine compares against.
    pub fn current_version(&self) -> (r: &str)
        ensures
            r@ == self@.current_version,
    {
        self.config.current_version.as_str()
    }

    /// Replaces the held configuration whole.
    pub fn set_config(&mut self, config: UpdateConfig)
        ensures
            final(self)@ == config@,
    {
        self.config = config;
    }

    /// The held configuration.
    pub fn config(&self) -> (r: &UpdateConfig)
        ensures
            r@ == self@,
    {
        &self.config
    }

    /// The manual-download links for the held configuration, GitHub first.
    /// Needs no network access and always succeeds.
    pub fn get_download_links(&self) -> (r: (String, String))
        ensures
            r.0@ == github_releases_url_spec(self@),
            r.1@ == gitee_releases_url_spec(self@),
    {
        self.config.download_links()
    }

    /// Decides whether an update is needed, from what the release lister
    /// reported. An empty list is a release-service failure; otherwise the
    /// first entry is the latest release and the smart comparison against the
    /// held current version decides. A lister failure is translated and
    /// returned; nothing is retried.
    pub fn needs_update_from(&self, fetched: Result<Vec<ReleaseInfo>, CollaboratorError>) -> (r:
        Result<bool, UpdateError>)
        ensures
            (fetched matches Ok(rs) ==> (rs@.len() > 0 ==> r == Ok::<bool, UpdateError>(
                smart_update_needed(self@.current_version, rs@[0].version@),
            ))),
            (fetched matches Ok(rs) ==> (rs@.len() == 0 ==> (r matches Err(e)
                && e matches UpdateError::GitHub(m) && m@ == no_releases_message()))),
            (fetched matches Err(ce) ==> r == Err::<bool, UpdateError>(collaborator_translation(
                ce,
            ))),
    {
        match fetched {
            Err(ce) => Err(UpdateError::from_collaborator(ce)),
            Ok(releases) => {
                if releases.len() == 0 {
                    Err(UpdateError::GitHub(String::from_str("no releases found")))
                } else {
                    let latest = &releases[0];
                    Ok(version_requires_update(
                        self.config.current_version.as_str(),
                        latest.version.as_str(),
                    ))
                }
            },
        }
    }

    /// Decides whether the latest tag differs from the held current version —
    /// the basic comparison: true on any difference, newer or older. Empty
    /// lists and lister failures are handled as in `needs_update_from`.
    pub fn check_for_updates_from(&self, fetched: Result<Vec<ReleaseInfo>, CollaboratorError>) -> (
        r: Result<bool, UpdateError>)
        ensures
            (fetched matches Ok(rs) ==> (rs@.len() > 0 ==> r == Ok::<bool, UpdateError>(
                basic_update_needed(self@.current_version, rs@[0].version@),
            ))),
            (fetched matches Ok(rs) ==> (rs@.len() == 0 ==> (r matches Err(e)
                && e matches UpdateError::GitHub(m) && m@ == no_releases_message()))),
            (fetched matches Err(ce) ==> r == Err::<bool, UpdateError>(collaborator_translation(
                ce,
            ))),
    {
        match fetched {
            Err(ce) => Err(UpdateError::from_collaborator(ce)),
            Ok(releases) => {
                if releases.len() == 0 {
                    Err(UpdateError::GitHub(String::from_str("no releases found")))
                } else {
                    let latest = &releases[0];
                    Ok(version_differs(
                        self.config.current_version.as_str(),
                        latest.version.as_str(),
                    ))
                }
            },
        }
    }

    /// The latest release's tag and display name, from what the release
    /// lister reported. An empty list is an absence, not an error — in
    /// contrast to the two decision functions above. A lister failure is
    /// translated and returned.
    pub fn latest_release_info_from(&self, fetched: Result<Vec<ReleaseInfo>, CollaboratorError>)
        -> (r: Result<Option<(String, String)>, UpdateError>)
        ensures
            (fetched matches Ok(rs) ==> (rs@.len() > 0 ==> (r matches Ok(Some(p))
                && p.0 == rs@[0].version && p.1 == rs@[0].name))),
            (fetched matches Ok(rs) ==> (rs@.len() == 0 ==> r == Ok::<
                Option<(String, String)>,
                UpdateError,
            >(None))),
            (fetched matches Err(ce) ==> r == Err::<Option<(String, String)>, UpdateError>(
                collaborator_translation(ce),
            )),
    {
        match fetched {
            Err(ce) => Err(UpdateError::from_collaborator(ce)),
            Ok(releases) => {
                if releases.len() == 0 {
                    Ok(None)
                } else {
                    let latest = &releases[0];
                    Ok(Some((latest.version.clone(), latest.name.clone())))
                }
            },
        }
    }

    /// Interprets what the update executor reported. Both outcomes of a run
    /// that did not fail — the binary replaced, or already current — are the
    /// same success to the caller; the flag is informational only. An executor
    /// failure is translated and returned; nothing is retried.
    pub fn interpret_update_outcome(&self, outcome: Result<UpdateOutcome, CollaboratorError>) -> (
        r: Result<(), UpdateError>)
        ensures
            (outcome matches Ok(o) ==> r == Ok::<(), UpdateError>(())),
            (outcome matches Err(ce) ==> r == Err::<(), UpdateError>(collaborator_translation(
                ce,
            ))),
    {
        match outcome {
            Err(ce) => Err(UpdateError::from_collaborator(ce)),
            Ok(_) => Ok(()),
        }
    }
}

/// The log line for a finished update: the new version where the binary was
/// replaced, a fixed note where it already was current.
pub fn update_log_message(outcome: &UpdateOutcome) -> (m: String)
    ensures
        m@ == update_log_view(*outcome),
{
    if outcome.updated {
        let s = String::from_str("updated to version ");
        s.concat(outcome.version.as_str())
    } else {
        String::from_str("already up to date")
    }
}

} // verus!
