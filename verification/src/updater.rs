//! The rules of self-update: which releases count, which asset is the
//! Windows executable, how versions compare, and what the user is told.
//! Fetching release lists and downloading assets is done by the caller;
//! these functions decide on what was fetched.
use vstd::prelude::*;

use crate::mapper::{first_index, lemma_first_index_is, lemma_first_index_none};
use crate::text::{
    chars_of, ends_with, ends_with_chars, lower_chars_of, lower_text, same_chars, starts_with,
    starts_with_chars,
};

verus! {

/// The release list of the project on GitHub.
pub const RELEASES_API: &'static str = "https://api.github.com/repos/rozsazoltan/x360ce/releases";

/// The latest stable release of the project on GitHub.
pub const LATEST_RELEASE_API: &'static str =
    "https://api.github.com/repos/rozsazoltan/x360ce/releases/latest";

/// The user agent sent with release requests.
pub const USER_AGENT: &'static str = "x360ce-Updater";

#[verifier::external_type_specification]
#[verifier::external_body]
pub struct ExVersion(semver::Version);

/// A parsed semantic version: its numeric fields, its pre-release and
/// build-metadata texts, and the parsed value they came from.
pub struct ReleaseVersion {
    major: u64,
    minor: u64,
    patch: u64,
    pre: String,
    build: String,
    parsed: semver::Version,
}

/// Major, minor, patch, pre-release text, build-metadata text.
pub type VersionParts = (u64, u64, u64, Seq<char>, Seq<char>);

impl View for ReleaseVersion {
    type V = VersionParts;

    closed spec fn view(&self) -> VersionParts {
        (self.major, self.minor, self.patch, self.pre@, self.build@)
    }
}

/// What `semver::Version::parse` gives for a text: the parts of the
/// version, or nothing when the text is not a version.
pub uninterp spec fn semver_parse(text: Seq<char>) -> Option<(u64, u64, u64, Seq<char>, Seq<char>)>;

/// How `semver::Version` orders two versions whose major, minor and patch
/// numbers are equal: by pre-release, then by build metadata, following
/// the crate's precedence rules.
pub uninterp spec fn semver_suffix_greater(
    pre: Seq<char>,
    build: Seq<char>,
    other_pre: Seq<char>,
    other_build: Seq<char>,
) -> bool;

/// Parts that some text parses to: the parts of a real version.
pub open spec fn is_version(v: VersionParts) -> bool {
    exists|t: Seq<char>| semver_parse(t) == Some(v)
}

/// `a > b` for `semver::Version`: the numbers compare lexicographically,
/// and only when they are all equal do the pre-release and build parts
/// decide.
pub open spec fn semver_greater(a: VersionParts, b: VersionParts) -> bool {
    ||| a.0 > b.0
    ||| a.0 == b.0 && a.1 > b.1
    ||| a.0 == b.0 && a.1 == b.1 && a.2 > b.2
    ||| a.0 == b.0 && a.1 == b.1 && a.2 == b.2 && semver_suffix_greater(a.3, a.4, b.3, b.4)
}

/// The canonical text of a version: `major.minor.patch`, then `-pre` and
/// `+build` when those parts are present.
pub open spec fn version_display(v: VersionParts) -> Seq<char> {
    crate::text::decimal(v.0 as nat) + "."@ + crate::text::decimal(v.1 as nat) + "."@
        + crate::text::decimal(v.2 as nat) + (if v.3.len() == 0 {
        Seq::empty()
    } else {
        "-"@ + v.3
    }) + (if v.4.len() == 0 {
        Seq::empty()
    } else {
        "+"@ + v.4
    })
}

/// Parses a semantic version.
///
/// Trusted: calls `semver::Version::parse` and copies out the numeric
/// fields and the pre-release and build texts; the contract says only that
/// the result is what that parse gives (`semver_parse`).
#[verifier::external_body]
fn parse_semver(text: &str) -> (r: Option<ReleaseVersion>)
    ensures
        match r {
            Some(v) => semver_parse(text@) == Some(v@),
            None => semver_parse(text@) is None,
        },
{
    match semver::Version::parse(text) {
        Ok(v) => Some(ReleaseVersion {
            major: v.major,
            minor: v.minor,
            patch: v.patch,
            pre: v.pre.as_str().to_string(),
            build: v.build.as_str().to_string(),
            parsed: v,
        }),
        Err(_) => None,
    }
}

/// Compares two parsed versions.
///
/// Trusted: calls `>` on the two `semver::Version` values. The crate derives
/// the order field by field (major, minor, patch, pre-release, build), which
/// the contract states, and orders a version without pre-release above the
/// same numbers with one; how two pre-releases, or two build texts, compare
/// is left to the name `semver_suffix_greater`. The order is the crate's
/// `Ord`, a total order in which two versions are equal only when all their
/// parts are: the contract states, for the two compared versions and any
/// third parsed version, that it is irreflexive, asymmetric, total and
/// transitive.
#[verifier::external_body]
fn version_greater(a: &ReleaseVersion, b: &ReleaseVersion) -> (r: bool)
    ensures
        r == semver_greater(a@, b@),
        a@.0 == b@.0 && a@.1 == b@.1 && a@.2 == b@.2 ==> r == semver_suffix_greater(
            a@.3,
            a@.4,
            b@.3,
            b@.4,
        ),
        a@.0 == b@.0 && a@.1 == b@.1 && a@.2 == b@.2 && a@.3.len() == 0 && b@.3.len() > 0 ==> r,
        a@.0 == b@.0 && a@.1 == b@.1 && a@.2 == b@.2 && a@.3.len() > 0 && b@.3.len() == 0 ==> !r,
        a@ == b@ ==> !r,
        semver_greater(b@, a@) ==> !r,
        !r ==> a@ == b@ || semver_greater(b@, a@),
        forall|c: VersionParts|
            #[trigger] is_version(c) ==> (r && semver_greater(b@, c) ==> semver_greater(a@, c)),
        forall|c: VersionParts|
            #[trigger] is_version(c) ==> (r && semver_greater(c, a@) ==> semver_greater(c, b@)),
{
    a.parsed > b.parsed
}

/// The canonical text of a parsed version.
///
/// Trusted: calls `to_string` on the `semver::Version`, whose `Display`
/// writes `major.minor.patch`, then `-` and the pre-release when it is not
/// empty, then `+` and the build metadata when it is not empty.
#[verifier::external_body]
fn version_to_string(v: &ReleaseVersion) -> (r: String)
    ensures
        r@ == version_display(v@),
{
    v.parsed.to_string()
}

/// A downloadable file of a release.
#[derive(Clone, Debug)]
pub struct GitHubAsset {
    pub name: String,
    pub browser_download_url: String,
}

/// A release as listed by GitHub.
#[derive(Clone, Debug)]
pub struct GitHubRelease {
    pub tag_name: String,
    pub draft: bool,
    pub prerelease: bool,
    pub assets: Vec<GitHubAsset>,
}

/// The outcome of an update check.
#[derive(Clone, Debug)]
pub struct UpdateCheck {
    pub current_version: String,
    pub latest_version: String,
    pub asset_name: Option<String>,
    pub asset_download_url: Option<String>,
    pub is_update_available: bool,
    pub prerelease: bool,
}

/// Why an update check or install could not go on.
#[derive(Clone, Debug)]
pub enum UpdateError {
    /// Development builds never update themselves.
    UpdatesDisabled,
    /// The release list holds no published pre-release with a valid version.
    NoPrerelease,
    /// The running program's own version is not a semantic version.
    InvalidCurrentVersion,
    /// The release's tag (given) is not a semantic version.
    InvalidReleaseVersion(String),
    /// The release has no Windows executable to install.
    NoWindowsAsset,
    /// The downloaded file is not a Windows executable.
    NotAnExecutable,
}

/// An update check as plain values.
pub struct UpdateCheckView {
    pub current_version: Seq<char>,
    pub latest_version: Seq<char>,
    pub asset_name: Option<Seq<char>>,
    pub asset_download_url: Option<Seq<char>>,
    pub is_update_available: bool,
    pub prerelease: bool,
}

/// An update error as plain values.
pub enum UpdateErrorView {
    UpdatesDisabled,
    NoPrerelease,
    InvalidCurrentVersion,
    InvalidReleaseVersion(Seq<char>),
    NoWindowsAsset,
    NotAnExecutable,
}

pub open spec fn opt_text(s: Option<String>) -> Option<Seq<char>> {
    match s {
        Some(t) => Some(t@),
        None => None,
    }
}

impl UpdateCheck {
    pub open spec fn plain(self) -> UpdateCheckView {
        UpdateCheckView {
            current_version: self.current_version@,
            latest_version: self.latest_version@,
            asset_name: opt_text(self.asset_name),
            asset_download_url: opt_text(self.asset_download_url),
            is_update_available: self.is_update_available,
            prerelease: self.prerelease,
        }
    }
}

impl UpdateError {
    pub open spec fn plain(self) -> UpdateErrorView {
        match self {
            UpdateError::UpdatesDisabled => UpdateErrorView::UpdatesDisabled,
            UpdateError::NoPrerelease => UpdateErrorView::NoPrerelease,
            UpdateError::InvalidCurrentVersion => UpdateErrorView::InvalidCurrentVersion,
            UpdateError::InvalidReleaseVersion(t) => UpdateErrorView::InvalidReleaseVersion(t@),
            UpdateError::NoWindowsAsset => UpdateErrorView::NoWindowsAsset,
            UpdateError::NotAnExecutable => UpdateErrorView::NotAnExecutable,
        }
    }
}

pub open spec fn check_result_plain(r: Result<UpdateCheck, UpdateError>) -> Result<
    UpdateCheckView,
    UpdateErrorView,
> {
    match r {
        Ok(c) => Ok(c.plain()),
        Err(e) => Err(e.plain()),
    }
}

/// Updates are refused in development builds.
pub fn ensure_updates_enabled(dev_build: bool) -> (r: Result<(), UpdateError>)
    ensures
        r is Err <==> dev_build,
        r matches Err(e) ==> e.plain() == UpdateErrorView::UpdatesDisabled,
{
    if dev_build {
        Err(UpdateError::UpdatesDisabled)
    } else {
        Ok(())
    }
}

/// The number of `v` characters a text starts with.
pub open spec fn leading_vs(s: Seq<char>) -> nat
    decreases s.len(),
{
    if s.len() > 0 && s[0] == 'v' {
        1 + leading_vs(s.drop_first())
    } else {
        0
    }
}

/// A release tag without its leading `v` characters.
pub open spec fn tag_version_text(tag: Seq<char>) -> Seq<char> {
    tag.skip(leading_vs(tag) as int)
}

/// The version a release tag names: the text after any leading `v`s,
/// parsed as a semantic version.
pub open spec fn tag_version(tag: Seq<char>) -> Option<VersionParts> {
    semver_parse(tag_version_text(tag))
}

proof fn lemma_leading_vs(s: Seq<char>, k: int)
    requires
        0 <= k <= s.len(),
        forall|j: int| 0 <= j < k ==> s[j] == 'v',
        k == s.len() || s[k] != 'v',
    ensures
        leading_vs(s) == k,
    decreases k,
{
    if k > 0 {
        let t = s.drop_first();
        assert forall|j: int| 0 <= j < k - 1 implies t[j] == 'v' by {
            assert(t[j] == s[j + 1]);
        }
        if k - 1 < t.len() {
            assert(t[k - 1] == s[k]);
        }
        lemma_leading_vs(t, k - 1);
    }
}

/// Parses the version of a release tag such as `v1.2.3`.
pub fn parse_release_version(value: &str) -> (r: Option<ReleaseVersion>)
    ensures
        match r {
            Some(v) => tag_version(value@) == Some(v@),
            None => tag_version(value@) is None,
        },
{
    let n = value.unicode_len();
    let mut k: usize = 0;
    while k < n && value.get_char(k) == 'v'
        invariant
            n == value@.len(),
            k <= n,
            forall|j: int| 0 <= j < k ==> value@[j] == 'v',
        decreases n - k,
    {
        k = k + 1;
    }
    proof {
        lemma_leading_vs(value@, k as int);
    }
    let rest = value.substring_char(k, n);
    proof {
        assert(rest@ =~= tag_version_text(value@));
    }
    parse_semver(rest)
}

/// Asset names that are the Windows executable of a release, compared in
/// ASCII lower case.
pub open spec fn windows_asset_name(name: Seq<char>) -> bool {
    let n = lower_text(name);
    ||| n == "x360ce.exe"@
    ||| n == "x360ce-windows-x64.exe"@
    ||| starts_with(n, "x360ce-"@) && ends_with(n, "-windows-x64.exe"@)
}

pub fn is_windows_asset_name(name: &str) -> (r: bool)
    ensures
        r == windows_asset_name(name@),
{
    let n = lower_chars_of(name);
    let plain = chars_of("x360ce.exe");
    let windows = chars_of("x360ce-windows-x64.exe");
    let prefix = chars_of("x360ce-");
    let suffix = chars_of("-windows-x64.exe");
    same_chars(&n, &plain) || same_chars(&n, &windows) || (starts_with_chars(&n, &prefix)
        && ends_with_chars(&n, &suffix))
}

pub open spec fn asset_is_windows(assets: Seq<GitHubAsset>) -> spec_fn(int) -> bool {
    |i: int| windows_asset_name(assets[i].name@)
}

/// The position of the first Windows executable among the assets.
pub open spec fn windows_asset_position(assets: Seq<GitHubAsset>) -> Option<int> {
    first_index(asset_is_windows(assets), assets.len() as int)
}

fn find_windows_asset(assets: &Vec<GitHubAsset>) -> (r: Option<usize>)
    ensures
        match r {
            Some(i) => windows_asset_position(assets@) == Some(i as int),
            None => windows_asset_position(assets@) is None,
        },
{
    let ghost p = asset_is_windows(assets@);
    let mut i: usize = 0;
    while i < assets.len()
        invariant
            p == asset_is_windows(assets@),
            i <= assets@.len(),
            forall|j: int| 0 <= j < i ==> !#[trigger] p(j),
        decreases assets.len() - i,
    {
        let found = is_windows_asset_name(assets[i].name.as_str());
        assert(p(i as int) == found);
        if found {
            proof {
                lemma_first_index_is(p, assets@.len() as int, i as int);
            }
            return Some(i);
        }
        i = i + 1;
    }
    proof {
        lemma_first_index_none(p, assets@.len() as int);
    }
    None
}

/// The update check for one release, given the running program's version.
pub open spec fn update_check_for(release: GitHubRelease, current_version: Seq<char>) -> Result<
    UpdateCheckView,
    UpdateErrorView,
> {
    match semver_parse(current_version) {
        None => Err(UpdateErrorView::InvalidCurrentVersion),
        Some(current) => match tag_version(release.tag_name@) {
            None => Err(UpdateErrorView::InvalidReleaseVersion(release.tag_name@)),
            Some(latest) => {
                let asset = windows_asset_position(release.assets@);
                Ok(
                    UpdateCheckView {
                        current_version,
                        latest_version: version_display(latest),
                        asset_name: match asset {
                            Some(i) => Some(release.assets@[i].name@),
                            None => None,
                        },
                        asset_download_url: match asset {
                            Some(i) => Some(release.assets@[i].browser_download_url@),
                            None => None,
                        },
                        is_update_available: semver_greater(latest, current),
                        prerelease: release.prerelease,
                    },
                )
            },
        },
    }
}

pub fn update_check_from_release(release: &GitHubRelease, current_version: &str) -> (r: Result<
    UpdateCheck,
    UpdateError,
>)
    ensures
        check_result_plain(r) == update_check_for(*release, current_version@),
{
    let current = match parse_semver(current_version) {
        Some(v) => v,
        None => {
            return Err(UpdateError::InvalidCurrentVersion);
        },
    };
    let latest = match parse_release_version(release.tag_name.as_str()) {
        Some(v) => v,
        None => {
            return Err(UpdateError::InvalidReleaseVersion(release.tag_name.clone()));
        },
    };
    let asset = find_windows_asset(&release.assets);
    let (asset_name, asset_download_url) = match asset {
        Some(i) => (
            Some(release.assets[i].name.clone()),
            Some(release.assets[i].browser_download_url.clone()),
        ),
        None => (None, None),
    };
    let check = UpdateCheck {
        current_version: String::from_str(current_version),
        latest_version: version_to_string(&latest),
        asset_name,
        asset_download_url,
        is_update_available: version_greater(&latest, &current),
        prerelease: release.prerelease,
    };
    proof {
        assert(check.plain() == update_check_for(*release, current_version@)->Ok_0);
    }
    Ok(check)
}

/// A release that may be offered as a pre-release: published, marked as a
/// pre-release, and tagged with a valid version.
pub open spec fn prerelease_candidate(release: GitHubRelease) -> bool {
    !release.draft && release.prerelease && tag_version(release.tag_name@) is Some
}

/// The pre-release offered among the first `n` releases: the highest
/// version, the earliest listed one among equal versions.
pub open spec fn best_prerelease(releases: Seq<GitHubRelease>, n: int) -> Option<int>
    decreases n,
{
    if n <= 0 {
        None
    } else {
        let previous = best_prerelease(releases, n - 1);
        let i = n - 1;
        if prerelease_candidate(releases[i]) {
            match previous {
                None => Some(i),
                Some(b) => if semver_greater(
                    tag_version(releases[i].tag_name@)->Some_0,
                    tag_version(releases[b].tag_name@)->Some_0,
                ) {
                    Some(i)
                } else {
                    previous
                },
            }
        } else {
            previous
        }
    }
}

proof fn lemma_best_prerelease_bounds(releases: Seq<GitHubRelease>, n: int)
    requires
        n <= releases.len(),
    ensures
        best_prerelease(releases, n) matches Some(b) ==> 0 <= b < n && prerelease_candidate(
            releases[b],
        ),
    decreases n,
{
    if n > 0 {
        lemma_best_prerelease_bounds(releases, n - 1);
    }
}

/// The version of a release whose tag is a valid version.
pub open spec fn release_version(release: GitHubRelease) -> VersionParts {
    tag_version(release.tag_name@)->Some_0
}

/// Among the first `n` releases, `b` is a pre-release candidate with the
/// highest version: no other candidate is greater, every other candidate
/// has the same version or a lower one, and every earlier candidate has a
/// lower one (among equal versions the earliest listed wins).
pub open spec fn newest_prerelease_at(releases: Seq<GitHubRelease>, n: int, b: int) -> bool {
    &&& 0 <= b < n
    &&& prerelease_candidate(releases[b])
    &&& forall|j: int|
        0 <= j < n && j != b && #[trigger] prerelease_candidate(releases[j]) ==> !semver_greater(
            release_version(releases[j]),
            release_version(releases[b]),
        )
    &&& forall|j: int|
        0 <= j < n && j != b && #[trigger] prerelease_candidate(releases[j]) ==> (release_version(
            releases[j],
        ) == release_version(releases[b]) || semver_greater(
            release_version(releases[b]),
            release_version(releases[j]),
        ))
    &&& forall|j: int|
        0 <= j < b && #[trigger] prerelease_candidate(releases[j]) ==> (release_version(releases[j])
            != release_version(releases[b]) && semver_greater(
            release_version(releases[b]),
            release_version(releases[j]),
        ))
}

/// No release among the first `n` is a pre-release candidate.
pub open spec fn no_prerelease(releases: Seq<GitHubRelease>, n: int) -> bool {
    forall|j: int| 0 <= j < n ==> !#[trigger] prerelease_candidate(releases[j])
}

proof fn lemma_tag_is_version(release: GitHubRelease)
    requires
        prerelease_candidate(release),
    ensures
        is_version(release_version(release)),
{
    assert(semver_parse(tag_version_text(release.tag_name@)) == Some(release_version(release)));
}

/// The position of the pre-release to offer, if the list holds one.
pub fn select_prerelease(releases: &Vec<GitHubRelease>) -> (r: Option<usize>)
    ensures
        match r {
            Some(i) => best_prerelease(releases@, releases@.len() as int) == Some(i as int),
            None => best_prerelease(releases@, releases@.len() as int) is None,
        },
        match r {
            Some(i) => newest_prerelease_at(releases@, releases@.len() as int, i as int),
            None => no_prerelease(releases@, releases@.len() as int),
        },
{
    let mut best: Option<(usize, ReleaseVersion)> = None;
    let mut i: usize = 0;
    while i < releases.len()
        invariant
            i <= releases@.len(),
            match best {
                Some((b, v)) => {
                    &&& best_prerelease(releases@, i as int) == Some(b as int)
                    &&& tag_version(releases@[b as int].tag_name@) == Some(v@)
                    &&& newest_prerelease_at(releases@, i as int, b as int)
                },
                None => {
                    &&& best_prerelease(releases@, i as int) is None
                    &&& no_prerelease(releases@, i as int)
                },
            },
        decreases releases.len() - i,
    {
        let release = &releases[i];
        if !release.draft && release.prerelease {
            match parse_release_version(release.tag_name.as_str()) {
                Some(version) => {
                    let ghost k = i as int;
                    let ghost rs = releases@;
                    proof {
                        assert(prerelease_candidate(rs[k]));
                        assert(release_version(rs[k]) == version@);
                    }
                    let replace = match &best {
                        Some((b, best_version)) => {
                            let g = version_greater(&version, best_version);
                            proof {
                                let vb = release_version(rs[*b as int]);
                                assert(vb == best_version@);
                                if g {
                                    assert forall|j: int|
                                        0 <= j < k + 1 && j != k
                                            && #[trigger] prerelease_candidate(rs[j]) implies {
                                        &&& !semver_greater(release_version(rs[j]), version@)
                                        &&& release_version(rs[j]) != version@
                                        &&& semver_greater(version@, release_version(rs[j]))
                                    } by {
                                        lemma_tag_is_version(rs[j]);
                                        if j != *b as int {
                                            assert(!semver_greater(release_version(rs[j]), vb));
                                            assert(release_version(rs[j]) == vb || semver_greater(
                                                vb,
                                                release_version(rs[j]),
                                            ));
                                        }
                                    }
                                } else {
                                    assert forall|j: int|
                                        0 <= j < k + 1 && j != *b as int
                                            && #[trigger] prerelease_candidate(rs[j]) implies {
                                        &&& !semver_greater(release_version(rs[j]), vb)
                                        &&& (release_version(rs[j]) == vb || semver_greater(
                                            vb,
                                            release_version(rs[j]),
                                        ))
                                    } by {
                                        if j == k {
                                        } else {
                                            assert(j < k);
                                        }
                                    }
                                }
                            }
                            g
                        },
                        None => true,
                    };
                    if replace {
                        best = Some((i, version));
                    }
                },
                None => {},
            }
        }
        i = i + 1;
    }
    match best {
        Some((b, _)) => Some(b),
        None => None,
    }
}

/// The update check against the latest stable release; development builds
/// never check.
pub fn check_latest_stable(dev_build: bool, release: GitHubRelease, current_version: &str) -> (r:
    Result<UpdateCheck, UpdateError>)
    ensures
        dev_build ==> check_result_plain(r) == Err::<UpdateCheckView, UpdateErrorView>(
            UpdateErrorView::UpdatesDisabled,
        ),
        !dev_build ==> check_result_plain(r) == update_check_for(release, current_version@),
{
    if dev_build {
        return Err(UpdateError::UpdatesDisabled);
    }
    update_check_from_release(&release, current_version)
}

/// The update check for a release list when pre-releases are wanted.
pub open spec fn prerelease_check_for(
    releases: Seq<GitHubRelease>,
    current_version: Seq<char>,
) -> Result<UpdateCheckView, UpdateErrorView> {
    match best_prerelease(releases, releases.len() as int) {
        Some(i) => update_check_for(releases[i], current_version),
        None => Err(UpdateErrorView::NoPrerelease),
    }
}

/// The update check against the newest pre-release of the list;
/// development builds never check.
pub fn check_latest_prerelease(
    dev_build: bool,
    releases: Vec<GitHubRelease>,
    current_version: &str,
) -> (r: Result<UpdateCheck, UpdateError>)
    ensures
        dev_build ==> check_result_plain(r) == Err::<UpdateCheckView, UpdateErrorView>(
            UpdateErrorView::UpdatesDisabled,
        ),
        !dev_build ==> check_result_plain(r) == prerelease_check_for(releases@, current_version@),
        !dev_build && no_prerelease(releases@, releases@.len() as int) ==> check_result_plain(r)
            == Err::<UpdateCheckView, UpdateErrorView>(UpdateErrorView::NoPrerelease),
        !dev_build && !no_prerelease(releases@, releases@.len() as int) ==> exists|b: int|
            newest_prerelease_at(releases@, releases@.len() as int, b) && check_result_plain(r)
                == update_check_for(#[trigger] releases@[b], current_version@),
{
    if dev_build {
        return Err(UpdateError::UpdatesDisabled);
    }
    match select_prerelease(&releases) {
        Some(i) => {
            proof {
                lemma_best_prerelease_bounds(releases@, releases@.len() as int);
            }
            let r = update_check_from_release(&releases[i], current_version);
            proof {
                assert(newest_prerelease_at(releases@, releases@.len() as int, i as int));
                assert(!no_prerelease(releases@, releases@.len() as int));
            }
            r
        },
        None => Err(UpdateError::NoPrerelease),
    }
}

/// What was fetched for an update check: the latest stable release, or the
/// whole release list when pre-releases are wanted.
pub enum ReleaseFeed {
    Latest(GitHubRelease),
    All(Vec<GitHubRelease>),
}

/// The address to fetch for an update check, or why no request is made:
/// development builds never contact the release server.
pub fn release_request_url(dev_build: bool, include_prereleases: bool) -> (r: Result<
    &'static str,
    UpdateError,
>)
    ensures
        dev_build ==> (r matches Err(e) && e.plain() == UpdateErrorView::UpdatesDisabled),
        !dev_build ==> (r matches Ok(url) && url@ == (if include_prereleases {
            RELEASES_API@
        } else {
            LATEST_RELEASE_API@
        })),
{
    if dev_build {
        return Err(UpdateError::UpdatesDisabled);
    }
    Ok(release_feed_url(include_prereleases))
}

/// GitHub refused a release request (forbidden, or too many requests): the
/// check should be tried again later rather than treated as a failure of
/// the release itself.
pub fn release_check_refused(status: u16) -> (r: bool)
    ensures
        r == (status == 403 || status == 429),
{
    status == 403 || status == 429
}

/// Where the releases for a check come from.
pub fn release_feed_url(include_prereleases: bool) -> (r: &'static str)
    ensures
        r@ == (if include_prereleases {
            RELEASES_API@
        } else {
            LATEST_RELEASE_API@
        }),
{
    if include_prereleases {
        RELEASES_API
    } else {
        LATEST_RELEASE_API
    }
}

/// The update check for what was fetched: the latest stable release when
/// pre-releases are not wanted, the newest pre-release otherwise.
/// Development builds never check.
pub fn check_for_update(dev_build: bool, feed: ReleaseFeed, current_version: &str) -> (r: Result<
    UpdateCheck,
    UpdateError,
>)
    ensures
        dev_build ==> (r matches Err(e) && e.plain() == UpdateErrorView::UpdatesDisabled),
        !dev_build ==> match feed {
            ReleaseFeed::Latest(release) => check_result_plain(r) == update_check_for(
                release,
                current_version@,
            ),
            ReleaseFeed::All(releases) => {
                &&& check_result_plain(r) == prerelease_check_for(releases@, current_version@)
                &&& no_prerelease(releases@, releases@.len() as int) ==> check_result_plain(r)
                    == Err::<UpdateCheckView, UpdateErrorView>(UpdateErrorView::NoPrerelease)
                &&& !no_prerelease(releases@, releases@.len() as int) ==> exists|b: int|
                    newest_prerelease_at(releases@, releases@.len() as int, b)
                        && check_result_plain(r) == update_check_for(
                        #[trigger] releases@[b],
                        current_version@,
                    )
            },
        },
{
    match feed {
        ReleaseFeed::Latest(release) => check_latest_stable(dev_build, release, current_version),
        ReleaseFeed::All(releases) => check_latest_prerelease(
            dev_build,
            releases,
            current_version,
        ),
    }
}

/// Whether a check offers something to install: a newer version with a
/// Windows executable.
pub fn update_installable(check: &UpdateCheck) -> (r: bool)
    ensures
        r == (check.is_update_available && check.asset_download_url is Some),
{
    check.is_update_available && check.asset_download_url.is_some()
}

/// The download address of the update, or why there is none.
pub fn install_source(check: &UpdateCheck) -> (r: Result<&String, UpdateError>)
    ensures
        match check.asset_download_url {
            Some(url) => r == Ok::<&String, UpdateError>(&url),
            None => r matches Err(e) && e.plain() == UpdateErrorView::NoWindowsAsset,
        },
{
    match &check.asset_download_url {
        Some(url) => Ok(url),
        None => Err(UpdateError::NoWindowsAsset),
    }
}

/// A downloaded file is accepted as the new executable only when it starts
/// with the `MZ` signature of Windows executables.
pub fn check_downloaded_executable(bytes: &[u8]) -> (r: Result<(), UpdateError>)
    ensures
        r is Ok <==> (bytes@.len() >= 2 && bytes@[0] == 0x4d && bytes@[1] == 0x5a),
        r matches Err(e) ==> e.plain() == UpdateErrorView::NotAnExecutable,
{
    if bytes.len() >= 2 && bytes[0] == 0x4d && bytes[1] == 0x5a {
        Ok(())
    } else {
        Err(UpdateError::NotAnExecutable)
    }
}

/// The PowerShell script that replaces the running executable with the
/// downloaded one, starts it, and cleans up; it retries while the old
/// executable is still locked.
pub open spec fn replacer_script_text(new_exe: Seq<char>, current_exe: Seq<char>) -> Seq<char> {
    "$ErrorActionPreference = 'SilentlyContinue'\r\n$newExe = '"@
        + crate::profile_io::quoted_text(new_exe, false) + "'\r\n$currentExe = '"@
        + crate::profile_io::quoted_text(current_exe, false)
        + "'\r\nfor ($i = 0; $i -lt 40; $i++) {\r\ntry {\r\nCopy-Item -LiteralPath $newExe -Destination $currentExe -Force -ErrorAction Stop\r\nStart-Process -FilePath $currentExe\r\nRemove-Item -LiteralPath $newExe -Force -ErrorAction SilentlyContinue\r\nRemove-Item -LiteralPath $PSCommandPath -Force -ErrorAction SilentlyContinue\r\nexit 0\r\n} catch {\r\nStart-Sleep -Milliseconds 500\r\n}\r\n}\r\nexit 1\r\n"@
}

pub fn replacer_script(new_exe: &str, current_exe: &str) -> (r: String)
    ensures
        r@ == replacer_script_text(new_exe@, current_exe@),
{
    let mut s = String::from_str("$ErrorActionPreference = 'SilentlyContinue'\r\n$newExe = '");
    let a = crate::profile_io::powershell_single_quoted_path(new_exe);
    s.append(a.as_str());
    s.append("'\r\n$currentExe = '");
    let b = crate::profile_io::powershell_single_quoted_path(current_exe);
    s.append(b.as_str());
    s.append(
        "'\r\nfor ($i = 0; $i -lt 40; $i++) {\r\ntry {\r\nCopy-Item -LiteralPath $newExe -Destination $currentExe -Force -ErrorAction Stop\r\nStart-Process -FilePath $currentExe\r\nRemove-Item -LiteralPath $newExe -Force -ErrorAction SilentlyContinue\r\nRemove-Item -LiteralPath $PSCommandPath -Force -ErrorAction SilentlyContinue\r\nexit 0\r\n} catch {\r\nStart-Sleep -Milliseconds 500\r\n}\r\n}\r\nexit 1\r\n",
    );
    s
}

/// The status line shown after an update check.
pub open spec fn update_status_text(check: UpdateCheckView) -> Seq<char> {
    let channel = if check.prerelease {
        "prerelease"@
    } else {
        "stable"@
    };
    if check.is_update_available {
        match check.asset_name {
            Some(asset) => "Update available: v"@ + check.latest_version + " ("@ + channel + ", "@
                + asset + ")."@,
            None => "Update available: v"@ + check.latest_version + " ("@ + channel
                + "), but no Windows asset was found."@,
        }
    } else {
        "Current version is latest: v"@ + check.current_version + " ("@ + channel + ")."@
    }
}

pub fn update_status(check: &UpdateCheck) -> (r: String)
    ensures
        r@ == update_status_text(check.plain()),
{
    let channel = if check.prerelease {
        "prerelease"
    } else {
        "stable"
    };
    if check.is_update_available {
        let mut s = String::from_str("Update available: v");
        s.append(check.latest_version.as_str());
        s.append(" (");
        s.append(channel);
        match &check.asset_name {
            Some(asset) => {
                s.append(", ");
                s.append(asset.as_str());
                s.append(").");
            },
            None => {
                s.append("), but no Windows asset was found.");
            },
        }
        s
    } else {
        let mut s = String::from_str("Current version is latest: v");
        s.append(check.current_version.as_str());
        s.append(" (");
        s.append(channel);
        s.append(").");
        s
    }
}

} // verus!
