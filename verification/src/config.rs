//! Configuration for the updater: repository coordinates, binary name, the
//! running binary's version, and the derived manual-download links.

use vstd::prelude::*;
use vstd::string::StringExecFns;

verus! {

/// The identifying information the updater works from. No field is validated
/// at construction: a malformed owner or repository name only surfaces later,
/// when the release-listing call for it fails.
#[derive(Debug, Clone)]
pub struct UpdateConfig {
    pub github_owner: String,
    pub github_repo: String,
    pub bin_name: String,
    pub current_version: String,
}

/// Mathematical model of a configuration: each field as its character sequence.
#[verifier::ext_equal]
pub ghost struct ConfigView {
    pub github_owner: Seq<char>,
    pub github_repo: Seq<char>,
    pub bin_name: Seq<char>,
    pub current_version: Seq<char>,
}

impl View for UpdateConfig {
    type V = ConfigView;

    open spec fn view(&self) -> ConfigView {
        ConfigView {
            github_owner: self.github_owner@,
            github_repo: self.github_repo@,
            bin_name: self.bin_name@,
            current_version: self.current_version@,
        }
    }
}

/// The repository the default configuration points at, and the version this
/// crate itself was built as.
pub open spec fn default_config_view() -> ConfigView {
    ConfigView {
        github_owner: "burncloud"@,
        github_repo: "burncloud"@,
        bin_name: "burncloud"@,
        current_version: "0.1.0"@,
    }
}

/// Model of `with_github_repo`: both repository fields replaced, the rest kept.
pub open spec fn spec_with_github_repo(c: ConfigView, owner: Seq<char>, repo: Seq<char>) -> ConfigView {
    ConfigView { github_owner: owner, github_repo: repo, ..c }
}

/// Model of `with_bin_name`: the binary name replaced, the rest kept.
pub open spec fn spec_with_bin_name(c: ConfigView, name: Seq<char>) -> ConfigView {
    ConfigView { bin_name: name, ..c }
}

/// Model of `with_current_version`: the version replaced, the rest kept.
pub open spec fn spec_with_current_version(c: ConfigView, version: Seq<char>) -> ConfigView {
    ConfigView { current_version: version, ..c }
}

/// The page that lists the repository's releases on GitHub.
pub open spec fn github_releases_url_spec(c: ConfigView) -> Seq<char> {
    "https://github.com/"@ + c.github_owner + "/"@ + c.github_repo + "/releases"@
}

/// The page that lists the repository's releases on Gitee.
pub open spec fn gitee_releases_url_spec(c: ConfigView) -> Seq<char> {
    "https://gitee.com/"@ + c.github_owner + "/"@ + c.github_repo + "/releases"@
}

impl UpdateConfig {
    /// Builds a configuration from its four fields, verbatim.
    pub fn new(
        github_owner: String,
        github_repo: String,
        bin_name: String,
        current_version: String,
    ) -> (r: Self)
        ensures
            r@ == (ConfigView {
                github_owner: github_owner@,
                github_repo: github_repo@,
                bin_name: bin_name@,
                current_version: current_version@,
            }),
    {
        UpdateConfig { github_owner, github_repo, bin_name, current_version }
    }

    /// Replaces the repository owner and name, keeping the other fields.
    pub fn with_github_repo(self, owner: String, repo: String) -> (r: Self)
        ensures
            r@ == spec_with_github_repo(self@, owner@, repo@),
    {
        let ghost c = self@;
        let r = UpdateConfig { github_owner: owner, github_repo: repo, ..self };
        proof {
            assert(r@ =~= spec_with_github_repo(c, r.github_owner@, r.github_repo@));
        }
        r
    }

    /// Replaces the binary name, keeping the other fields.
    pub fn with_bin_name(self, name: String) -> (r: Self)
        ensures
            r@ == spec_with_bin_name(self@, name@),
    {
        let ghost c = self@;
        let r = UpdateConfig { bin_name: name, ..self };
        proof {
            assert(r@ =~= spec_with_bin_name(c, r.bin_name@));
        }
        r
    }

    /// Replaces the current version, keeping the other fields.
    pub fn with_current_version(self, version: String) -> (r: Self)
        ensures
            r@ == spec_with_current_version(self@, version@),
    {
        let ghost c = self@;
        let r = UpdateConfig { current_version: version, ..self };
        proof {
            assert(r@ =~= spec_with_current_version(c, r.current_version@));
        }
        r
    }

    /// Formats the GitHub releases page for this configuration's repository.
    pub fn github_releases_url(&self) -> (r: String)
        ensures
            r@ == github_releases_url_spec(self@),
    {
        let mut s = String::from_str("https://github.com/");
        s.append(self.github_owner.as_str());
        s.append("/");
        s.append(self.github_repo.as_str());
        s.append("/releases");
        s
    }

    /// Formats the Gitee releases page for this configuration's repository.
    pub fn gitee_releases_url(&self) -> (r: String)
        ensures
            r@ == gitee_releases_url_spec(self@),
    {
        let mut s = String::from_str("https://gitee.com/");
        s.append(self.github_owner.as_str());
        s.append("/");
        s.append(self.github_repo.as_str());
        s.append("/releases");
        s
    }

    /// Both manual-download links, GitHub first. Needs no network access and
    /// always succeeds.
    pub fn download_links(&self) -> (r: (String, String))
        ensures
            r.0@ == github_releases_url_spec(self@),
            r.1@ == gitee_releases_url_spec(self@),
    {
        (self.github_releases_url(), self.gitee_releases_url())
    }
}

impl Default for UpdateConfig {
    /// The fixed default: the `burncloud` repository and this crate's version.
    fn default() -> (r: Self)
        ensures
            r@ == default_config_view(),
    {
        UpdateConfig {
            github_owner: String::from_str("burncloud"),
            github_repo: String::from_str("burncloud"),
            bin_name: String::from_str("burncloud"),
            current_version: String::from_str("0.1.0"),
        }
    }
}

/// Setting the binary name sets exactly that field: the repository fields and
/// the version are unchanged, a later call wins over an earlier one, and
/// repeating a call changes nothing further.
pub proof fn lemma_with_bin_name(c: ConfigView, x: Seq<char>, y: Seq<char>)
    ensures
        spec_with_bin_name(c, x).bin_name == x,
        spec_with_bin_name(c, x).github_owner == c.github_owner,
        spec_with_bin_name(c, x).github_repo == c.github_repo,
        spec_with_bin_name(c, x).current_version == c.current_version,
        spec_with_bin_name(spec_with_bin_name(c, x), y) == spec_with_bin_name(c, y),
        spec_with_bin_name(spec_with_bin_name(c, x), x) == spec_with_bin_name(c, x),
{
    assert(spec_with_bin_name(spec_with_bin_name(c, x), y) =~= spec_with_bin_name(c, y));
}

/// Setting the current version sets exactly that field, later calls win, and
/// repetition is idempotent.
pub proof fn lemma_with_current_version(c: ConfigView, x: Seq<char>, y: Seq<char>)
    ensures
        spec_with_current_version(c, x).current_version == x,
        spec_with_current_version(c, x).github_owner == c.github_owner,
        spec_with_current_version(c, x).github_repo == c.github_repo,
        spec_with_current_version(c, x).bin_name == c.bin_name,
        spec_with_current_version(spec_with_current_version(c, x), y)
            == spec_with_current_version(c, y),
        spec_with_current_version(spec_with_current_version(c, x), x)
            == spec_with_current_version(c, x),
{
    assert(spec_with_current_version(spec_with_current_version(c, x), y)
        =~= spec_with_current_version(c, y));
}

/// Setting the repository sets exactly the owner and name, later calls win,
/// and repetition is idempotent.
pub proof fn lemma_with_github_repo(c: ConfigView, o1: Seq<char>, r1: Seq<char>, o2: Seq<char>, r2: Seq<char>)
    ensures
        spec_with_github_repo(c, o1, r1).github_owner == o1,
        spec_with_github_repo(c, o1, r1).github_repo == r1,
        spec_with_github_repo(c, o1, r1).bin_name == c.bin_name,
        spec_with_github_repo(c, o1, r1).current_version == c.current_version,
        spec_with_github_repo(spec_with_github_repo(c, o1, r1), o2, r2)
            == spec_with_github_repo(c, o2, r2),
        spec_with_github_repo(spec_with_github_repo(c, o1, r1), o1, r1)
            == spec_with_github_repo(c, o1, r1),
{
    assert(spec_with_github_repo(spec_with_github_repo(c, o1, r1), o2, r2)
        =~= spec_with_github_repo(c, o2, r2));
}

/// Builders over distinct fields compose in either order: each one's field
/// holds the value it set, whatever came before or after.
pub proof fn lemma_builders_commute(c: ConfigView, o: Seq<char>, r: Seq<char>, b: Seq<char>, v: Seq<char>)
    ensures
        spec_with_current_version(spec_with_bin_name(c, b), v)
            == spec_with_bin_name(spec_with_current_version(c, v), b),
        spec_with_bin_name(spec_with_github_repo(c, o, r), b)
            == spec_with_github_repo(spec_with_bin_name(c, b), o, r),
        spec_with_current_version(spec_with_github_repo(c, o, r), v)
            == spec_with_github_repo(spec_with_current_version(c, v), o, r),
{
    assert(spec_with_current_version(spec_with_bin_name(c, b), v)
        =~= spec_with_bin_name(spec_with_current_version(c, v), b));
    assert(spec_with_bin_name(spec_with_github_repo(c, o, r), b)
        =~= spec_with_github_repo(spec_with_bin_name(c, b), o, r));
    assert(spec_with_current_version(spec_with_github_repo(c, o, r), v)
        =~= spec_with_github_repo(spec_with_current_version(c, v), o, r));
}

} // verus!
