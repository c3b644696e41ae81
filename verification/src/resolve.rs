use vstd::prelude::*;

use crate::install::installed_binary_path;
use crate::install::spec_installed_binary_path;
use crate::install::spec_stale_dirs;
use crate::install::spec_version_dir;
use crate::install::stale_dirs;
use crate::install::version_dir;
use crate::install::DirEntry;
use crate::platform::Arch;
use crate::platform::Os;
use crate::release::asset_name;
use crate::release::find_asset;
use crate::release::has_asset;
use crate::release::spec_asset_name;
use crate::release::ReleaseInfo;

verus! {

/// Why a resolution attempt failed. Cleanup failures are deliberately not
/// here: removal of a stale directory is advisory and never fails the
/// resolution.
#[derive(Debug, PartialEq, Eq, Clone)]
pub enum ResolveError {
    /// The release carries no asset with the computed name.
    NoAssetMatching { asset_name: String },
    /// The release feed could not be queried; the cause is passed on as is.
    ReleaseFetchFailed { cause: String },
    /// Downloading or extracting the archive failed.
    DownloadFailed { cause: String },
    /// The working directory could not be listed for the cleanup pass; the
    /// cause arrives already worded by the listing side and is passed on
    /// as is.
    ListDirFailed { cause: String },
    /// The freshly extracted executable could not be marked runnable.
    MakeExecutableFailed { cause: String },
}

/// The human-readable message each error carries.
pub open spec fn spec_error_message(e: ResolveError) -> Seq<char> {
    match e {
        ResolveError::NoAssetMatching { asset_name } => "no asset found matching \""@
            + asset_name@ + "\""@,
        ResolveError::ReleaseFetchFailed { cause } => cause@,
        ResolveError::DownloadFailed { cause } => "failed to download file: "@ + cause@,
        ResolveError::ListDirFailed { cause } => cause@,
        ResolveError::MakeExecutableFailed { cause } => cause@,
    }
}

impl ResolveError {
    pub fn message(&self) -> (r: String)
        ensures
            r@ == spec_error_message(*self),
    {
        match self {
            ResolveError::NoAssetMatching { asset_name } => {
                let mut m = String::from_str("no asset found matching \"");
                m.append(asset_name.as_str());
                m.append("\"");
                m
            },
            ResolveError::ReleaseFetchFailed { cause } => cause.clone(),
            ResolveError::DownloadFailed { cause } => {
                let mut m = String::from_str("failed to download file: ");
                m.append(cause.as_str());
                m
            },
            ResolveError::ListDirFailed { cause } => cause.clone(),
            ResolveError::MakeExecutableFailed { cause } => cause.clone(),
        }
    }
}

/// `part` occurs somewhere in `text`.
pub open spec fn mentions(text: Seq<char>, part: Seq<char>) -> bool {
    exists|k: int|
        0 <= k && k + part.len() <= text.len() && #[trigger] text.subrange(k, k + part.len())
            == part
}

/// The message for a missing asset mentions the computed asset name.
pub proof fn lemma_missing_asset_message_mentions_name(name: String)
    ensures
        mentions(
            spec_error_message(ResolveError::NoAssetMatching { asset_name: name }),
            name@,
        ),
{
    let pre = "no asset found matching \""@;
    let msg = spec_error_message(ResolveError::NoAssetMatching { asset_name: name });
    assert(msg.subrange(pre.len() as int, pre.len() + name@.len() as int) =~= name@);
}

/// Everything a pending install needs: where the archive comes from, the
/// directory the version is extracted into, and the executable's path
/// inside that directory.
#[derive(Debug, PartialEq, Eq, Clone)]
pub struct InstallTarget {
    pub download_url: String,
    pub version_dir: String,
    pub binary_path: String,
}

/// What the resolver asks the host to do next. Resolution is a dialogue:
/// the host performs the requested step, answers with the matching
/// [`Event`], and hands both back to [`Resolver::step`] until the machine
/// reaches `Done` or `Failed`. The host emits its checking-for-update
/// status when it sees `AskRelease`, and its downloading status when it
/// sees `AskDownload`; both are fire-and-forget signals outside this
/// contract.
#[derive(Debug, PartialEq, Eq, Clone)]
pub enum Step {
    /// Ask the settings for an explicit binary-path override.
    AskOverride,
    /// Ask the host to look the server executable up on PATH.
    AskWhich,
    /// Ask whether the remembered path still names a regular file.
    AskCacheStat { path: String },
    /// Ask the release feed for the latest release that has assets.
    AskRelease,
    /// Ask whether the executable already sits at its versioned path.
    AskInstalledStat { target: InstallTarget },
    /// Ask the host to download and extract the archive into the version
    /// directory.
    AskDownload { target: InstallTarget },
    /// Ask the host to list the working directory's immediate children.
    AskListDir { target: InstallTarget },
    /// Ask the host to remove each named directory, best effort: a failed
    /// removal is swallowed and never fails the resolution.
    AskRemoveDirs { stale: Vec<String>, target: InstallTarget },
    /// Ask the host to mark the extracted executable as runnable.
    AskMakeExecutable { target: InstallTarget },
    /// Resolution succeeded with this executable path.
    Done { path: String },
    /// Resolution failed; no server start is attempted.
    Failed { error: ResolveError },
}

/// The host's answer to the step it was asked to perform.
#[derive(Debug, PartialEq, Eq)]
pub enum Event {
    /// The settings' binary-path override, if the user configured one.
    OverrideSetting { path: Option<String> },
    /// The PATH lookup's result.
    WhichResult { path: Option<String> },
    /// Whether the path in question names a regular file.
    StatResult { is_file: bool },
    /// The release feed's answer, or the failure it reported.
    ReleaseResult { release: Result<ReleaseInfo, String> },
    /// Whether the download-and-extract call succeeded.
    DownloadResult { outcome: Result<(), String> },
    /// The directory listing, or the failure it reported.
    ListDirResult { entries: Result<Vec<DirEntry>, String> },
    /// The best-effort removals were attempted.
    RemoveDone,
    /// Whether the executable could be marked runnable.
    MakeExecutableResult { outcome: Result<(), String> },
}

/// The event answers the step it is handed in with.
pub open spec fn event_fits(s: Step, e: Event) -> bool {
    match (s, e) {
        (Step::AskOverride, Event::OverrideSetting { .. }) => true,
        (Step::AskWhich, Event::WhichResult { .. }) => true,
        (Step::AskCacheStat { .. }, Event::StatResult { .. }) => true,
        (Step::AskRelease, Event::ReleaseResult { .. }) => true,
        (Step::AskInstalledStat { .. }, Event::StatResult { .. }) => true,
        (Step::AskDownload { .. }, Event::DownloadResult { .. }) => true,
        (Step::AskListDir { .. }, Event::ListDirResult { .. }) => true,
        (Step::AskRemoveDirs { .. }, Event::RemoveDone) => true,
        (Step::AskMakeExecutable { .. }, Event::MakeExecutableResult { .. }) => true,
        _ => false,
    }
}

/// Whether this step asks the host for anything at all; `Done` and
/// `Failed` are terminal, so a machine that reaches them performs no
/// further lookup, stat, network access or filesystem change.
pub open spec fn is_host_request(s: Step) -> bool {
    !(s matches Step::Done { .. } || s matches Step::Failed { .. })
}

/// Whether this step asks for network activity.
pub open spec fn is_network_request(s: Step) -> bool {
    s matches Step::AskRelease || s matches Step::AskDownload { .. }
}

/// Whether this step is part of the cleanup pass.
pub open spec fn is_cleanup_request(s: Step) -> bool {
    s matches Step::AskListDir { .. } || s matches Step::AskRemoveDirs { .. }
}

/// What the machine does with a successfully fetched release: compute the
/// expected asset name; fail, naming it, when no asset carries it; else
/// take the first matching asset's URL and head for the versioned install
/// paths.
pub open spec fn release_step_post(rel: ReleaseInfo, os: Os, arch: Arch, r: Step) -> bool {
    let want = spec_asset_name(rel.version@, os, arch);
    if has_asset(rel.assets@, want) {
        &&& r matches Step::AskInstalledStat { target }
        &&& (exists|i: int|
            0 <= i < rel.assets@.len() && rel.assets@[i].name@ == want && (forall|j: int|
                0 <= j < i ==> rel.assets@[j].name@ != want) && (r matches Step::AskInstalledStat {
                target,
            } && target.download_url == rel.assets@[i].download_url))
        &&& (r matches Step::AskInstalledStat { target } && target.version_dir@
            == spec_version_dir(rel.version@) && target.binary_path@
            == spec_installed_binary_path(rel.version@, os))
    } else {
        &&& r matches Step::Failed { error: ResolveError::NoAssetMatching { asset_name } }
            && asset_name@ == want
    }
}

/// The machine's full transition relation: from the step the host was
/// asked to perform and the event it answered with, to the resolver's new
/// remembered path and the next step.
pub open spec fn step_post(
    old_cache: Option<String>,
    new_cache: Option<String>,
    s: Step,
    e: Event,
    os: Os,
    arch: Arch,
    r: Step,
) -> bool {
    match (s, e) {
        (Step::AskOverride, Event::OverrideSetting { path }) => match path {
            // An explicit override is returned verbatim and ends the
            // dialogue: nothing else is looked up, checked or fetched.
            Some(p) => r == (Step::Done { path: p }) && new_cache == old_cache,
            None => r == Step::AskWhich && new_cache == old_cache,
        },
        (Step::AskWhich, Event::WhichResult { path }) => match path {
            Some(p) => r == (Step::Done { path: p }) && new_cache == old_cache,
            None => match old_cache {
                Some(c) => r == (Step::AskCacheStat { path: c }) && new_cache == old_cache,
                None => r == Step::AskRelease && new_cache == old_cache,
            },
        },
        (Step::AskCacheStat { path }, Event::StatResult { is_file }) => if is_file {
            r == (Step::Done { path }) && new_cache == old_cache
        } else {
            // A remembered path that no longer names a file is treated as
            // absent: fall through to a fresh download.
            r == Step::AskRelease && new_cache == old_cache
        },
        (Step::AskRelease, Event::ReleaseResult { release }) => match release {
            Ok(rel) => release_step_post(rel, os, arch, r) && new_cache == old_cache,
            Err(cause) => r == (Step::Failed {
                error: ResolveError::ReleaseFetchFailed { cause },
            }) && new_cache == old_cache,
        },
        (Step::AskInstalledStat { target }, Event::StatResult { is_file }) => if is_file {
            // Already installed: remember the path and finish without
            // downloading or cleaning anything.
            r == (Step::Done { path: target.binary_path }) && new_cache == Some(
                target.binary_path,
            )
        } else {
            r == (Step::AskDownload { target }) && new_cache == old_cache
        },
        (Step::AskDownload { target }, Event::DownloadResult { outcome }) => match outcome {
            Ok(_) => r == (Step::AskListDir { target }) && new_cache == old_cache,
            Err(cause) => r == (Step::Failed { error: ResolveError::DownloadFailed { cause } })
                && new_cache == old_cache,
        },
        (Step::AskListDir { target }, Event::ListDirResult { entries }) => match entries {
            Ok(listing) => {
                &&& r matches Step::AskRemoveDirs { stale, target: t } && t == target
                    && stale.deep_view() == spec_stale_dirs(listing@, target.version_dir@)
                &&& new_cache == old_cache
            },
            Err(cause) => r == (Step::Failed { error: ResolveError::ListDirFailed { cause } })
                && new_cache == old_cache,
        },
        (Step::AskRemoveDirs { stale: _, target }, Event::RemoveDone) => r == (
        Step::AskMakeExecutable { target }) && new_cache == old_cache,
        (
            Step::AskMakeExecutable { target },
            Event::MakeExecutableResult { outcome },
        ) => match outcome {
            Ok(_) => r == (Step::Done { path: target.binary_path }) && new_cache == Some(
                target.binary_path,
            ),
            Err(cause) => r == (Step::Failed {
                error: ResolveError::MakeExecutableFailed { cause },
            }) && new_cache == old_cache,
        },
        _ => false,
    }
}

/// How many further exchanges a dialogue standing at this step can still
/// take.
pub open spec fn rank(s: Step) -> nat {
    match s {
        Step::AskOverride => 9,
        Step::AskWhich => 8,
        Step::AskCacheStat { .. } => 7,
        Step::AskRelease => 6,
        Step::AskInstalledStat { .. } => 5,
        Step::AskDownload { .. } => 4,
        Step::AskListDir { .. } => 3,
        Step::AskRemoveDirs { .. } => 2,
        Step::AskMakeExecutable { .. } => 1,
        Step::Done { .. } => 0,
        Step::Failed { .. } => 0,
    }
}

/// Every transition strictly lowers the rank, so a resolution dialogue
/// always ends: from the first step it reaches `Done` or `Failed` within
/// `rank(Step::AskOverride)` exchanges.
pub proof fn lemma_resolution_terminates(
    c0: Option<String>,
    c1: Option<String>,
    s: Step,
    e: Event,
    os: Os,
    arch: Arch,
    r: Step,
)
    requires
        event_fits(s, e),
        step_post(c0, c1, s, e, os, arch, r),
    ensures
        rank(r) < rank(s),
{
}

/// An explicit override short-circuits resolution: the machine finishes at
/// once with that path unchanged and the remembered path untouched, and no
/// further host request — no PATH lookup, no stat, no network access —
/// follows, since `Done` is terminal.
pub proof fn lemma_override_short_circuits(
    c0: Option<String>,
    c1: Option<String>,
    p: String,
    os: Os,
    arch: Arch,
    r: Step,
)
    requires
        step_post(
            c0,
            c1,
            Step::AskOverride,
            Event::OverrideSetting { path: Some(p) },
            os,
            arch,
            r,
        ),
    ensures
        r == (Step::Done { path: p }),
        c1 == c0,
        !is_host_request(r),
{
}

/// Resolving again with the last install's path remembered and its file
/// still present (and, as before, no override and no PATH hit) runs
/// through override, PATH and the remembered-path check and finishes
/// there: no release query, no download and no cleanup pass occurs, and
/// the remembered path is unchanged.
pub proof fn lemma_installed_resolution_skips_install(
    p: String,
    c0: Option<String>,
    c1: Option<String>,
    c2: Option<String>,
    c3: Option<String>,
    r1: Step,
    r2: Step,
    r3: Step,
    os: Os,
    arch: Arch,
)
    requires
        c0 == Some(p),
        step_post(
            c0,
            c1,
            Step::AskOverride,
            Event::OverrideSetting { path: None },
            os,
            arch,
            r1,
        ),
        step_post(c1, c2, r1, Event::WhichResult { path: None }, os, arch, r2),
        step_post(c2, c3, r2, Event::StatResult { is_file: true }, os, arch, r3),
    ensures
        r1 == Step::AskWhich,
        r2 == (Step::AskCacheStat { path: p }),
        r3 == (Step::Done { path: p }),
        c3 == c0,
        !is_network_request(r1) && !is_network_request(r2) && !is_network_request(r3),
        !is_cleanup_request(r1) && !is_cleanup_request(r2) && !is_cleanup_request(r3),
{
}

/// A remembered path whose file is gone is treated as absent: the machine
/// falls through to the release feed rather than returning the stale path,
/// and does not repair the remembered path.
pub proof fn lemma_stale_cache_falls_through(
    c0: Option<String>,
    c1: Option<String>,
    p: String,
    os: Os,
    arch: Arch,
    r: Step,
)
    requires
        step_post(
            c0,
            c1,
            Step::AskCacheStat { path: p },
            Event::StatResult { is_file: false },
            os,
            arch,
            r,
        ),
    ensures
        r == Step::AskRelease,
        c1 == c0,
{
}

/// When no asset of the fetched release carries the computed name,
/// resolution fails, the error carries exactly that name, and the error's
/// message mentions it.
pub proof fn lemma_no_matching_asset_fails(
    c0: Option<String>,
    c1: Option<String>,
    rel: ReleaseInfo,
    os: Os,
    arch: Arch,
    r: Step,
)
    requires
        step_post(
            c0,
            c1,
            Step::AskRelease,
            Event::ReleaseResult { release: Ok(rel) },
            os,
            arch,
            r,
        ),
        !has_asset(rel.assets@, spec_asset_name(rel.version@, os, arch)),
    ensures
        r matches Step::Failed { error: ResolveError::NoAssetMatching { asset_name } }
            && asset_name@ == spec_asset_name(rel.version@, os, arch) && mentions(
            spec_error_message(ResolveError::NoAssetMatching { asset_name }),
            asset_name@,
        ),
        c1 == c0,
{
    match r {
        Step::Failed { error: ResolveError::NoAssetMatching { asset_name } } => {
            lemma_missing_asset_message_mentions_name(asset_name);
        },
        _ => {},
    }
}

/// The resolver: the one piece of state kept across resolutions is the
/// path the last successful install produced. It is remembered, never
/// trusted: before reuse the host is asked whether it still names a file.
pub struct Resolver {
    pub cached_binary_path: Option<String>,
}

impl Resolver {
    /// A fresh resolver remembers nothing.
    pub fn new() -> (r: Resolver)
        ensures
            r.cached_binary_path is None,
    {
        Resolver { cached_binary_path: None }
    }

    /// Drive the resolution one step: from the step the host performed and
    /// the event it answered with, decide the next step and update the
    /// remembered path. Precedence is fixed: explicit override, then PATH,
    /// then the remembered path (when it still names a file), then a fresh
    /// fetch from the release feed.
    pub fn step(&mut self, s: Step, e: Event, os: Os, arch: Arch) -> (r: Step)
        requires
            event_fits(s, e),
        ensures
            step_post(
                old(self).cached_binary_path,
                final(self).cached_binary_path,
                s,
                e,
                os,
                arch,
                r,
            ),
    {
        match (s, e) {
            (Step::AskOverride, Event::OverrideSetting { path }) => match path {
                Some(p) => Step::Done { path: p },
                None => Step::AskWhich,
            },
            (Step::AskWhich, Event::WhichResult { path }) => match path {
                Some(p) => Step::Done { path: p },
                None => match &self.cached_binary_path {
                    Some(c) => Step::AskCacheStat { path: c.clone() },
                    None => Step::AskRelease,
                },
            },
            (Step::AskCacheStat { path }, Event::StatResult { is_file }) => if is_file {
                Step::Done { path }
            } else {
                Step::AskRelease
            },
            (Step::AskRelease, Event::ReleaseResult { release }) => match release {
                Ok(rel) => {
                    let want = asset_name(&rel.version, os, arch);
                    match find_asset(&rel.assets, &want) {
                        Some(i) => {
                            let url = rel.assets[i].download_url.clone();
                            let target = InstallTarget {
                                download_url: url,
                                version_dir: version_dir(&rel.version),
                                binary_path: installed_binary_path(&rel.version, os),
                            };
                            proof {
                                let ghost w = spec_asset_name(rel.version@, os, arch);
                                let ghost k = i as int;
                                assert(has_asset(rel.assets@, w)) by {
                                    assert(rel.assets@[k].name@ == w);
                                }
                                assert(0 <= k < rel.assets@.len() && rel.assets@[k].name@ == w && (
                                forall|j: int| 0 <= j < k ==> rel.assets@[j].name@ != w) && (
                                target.download_url == rel.assets@[k].download_url));
                                assert(exists|m: int|
                                    0 <= m < rel.assets@.len() && rel.assets@[m].name@ == w && (
                                    forall|j: int| 0 <= j < m ==> rel.assets@[j].name@ != w) && (
                                    target.download_url == rel.assets@[m].download_url));
                            }
                            Step::AskInstalledStat { target }
                        },
                        None => Step::Failed {
                            error: ResolveError::NoAssetMatching { asset_name: want },
                        },
                    }
                },
                Err(cause) => Step::Failed { error: ResolveError::ReleaseFetchFailed { cause } },
            },
            (Step::AskInstalledStat { target }, Event::StatResult { is_file }) => if is_file {
                self.cached_binary_path = Some(target.binary_path.clone());
                Step::Done { path: target.binary_path }
            } else {
                Step::AskDownload { target }
            },
            (Step::AskDownload { target }, Event::DownloadResult { outcome }) => match outcome {
                Ok(_) => Step::AskListDir { target },
                Err(cause) => Step::Failed { error: ResolveError::DownloadFailed { cause } },
            },
            (Step::AskListDir { target }, Event::ListDirResult { entries }) => match entries {
                Ok(listing) => {
                    let stale = stale_dirs(&listing, &target.version_dir);
                    Step::AskRemoveDirs { stale, target }
                },
                Err(cause) => Step::Failed { error: ResolveError::ListDirFailed { cause } },
            },
            (Step::AskRemoveDirs { stale: _, target }, Event::RemoveDone) => {
                Step::AskMakeExecutable { target }
            },
            (
                Step::AskMakeExecutable { target },
                Event::MakeExecutableResult { outcome },
            ) => match outcome {
                Ok(_) => {
                    self.cached_binary_path = Some(target.binary_path.clone());
                    Step::Done { path: target.binary_path }
                },
                Err(cause) => Step::Failed {
                    error: ResolveError::MakeExecutableFailed { cause },
                },
            },
            // Unreachable: the precondition says the event answers the
            // step, and every fitting pair is handled above.
            (leftover, _) => {
                proof {
                    assert(false);
                }
                leftover
            },
        }
    }
}

} // verus!
