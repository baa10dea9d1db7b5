//! The build manifest: a list of versions whose last entry is the latest, and
//! for each version a list of builds whose last entry is the latest.
//!
//! A requested version is held against the latest one in the order of
//! strings, character by character, not as a dotted number: `"1.9"` comes
//! after `"1.10"`. The providers' own identifiers are not all dotted numbers,
//! so the comparison is kept as it is and this is its known weakness.

use crate::decimal::{append_decimal, decimal, u32_to_string};
use crate::resolution::{
    effective, effective_value, option_ref_view, option_view, Axis, ResolutionError,
    ResolutionErrorView, ResolvedRelease, ResolvedReleaseView,
};
use crate::text::{lemma_lex_less_irreflexive, lex_less, str_greater};
use vstd::prelude::*;

verus! {

/// Where the build manifest is published, and the root of the documents
/// below it.
pub const PAPER_MANIFEST_URL: &'static str = "https://api.papermc.io/v2/projects/paper";

/// The build manifest.
#[derive(Debug, Clone, PartialEq, Eq)]
pub struct PaperManifest {
    /// The versions, the latest one last.
    pub versions: Vec<String>,
}

/// The builds of one version.
#[derive(Debug, Clone, PartialEq, Eq)]
pub struct PaperVersion {
    /// The build numbers, the latest one last.
    pub builds: Vec<u32>,
}

/// What the logic reads of a build's document: the file name of the
/// application download.
#[derive(Debug, Clone, PartialEq, Eq)]
pub struct PaperBuild {
    pub file_name: String,
}

/// The content of a [`PaperManifest`].
pub struct PaperManifestView {
    pub versions: Seq<Seq<char>>,
}

/// The content of a [`PaperBuild`].
pub struct PaperBuildView {
    pub file_name: Seq<char>,
}

impl View for PaperManifest {
    type V = PaperManifestView;

    open spec fn view(&self) -> PaperManifestView {
        PaperManifestView {
            versions: Seq::new(self.versions@.len(), |i: int| self.versions@[i]@),
        }
    }
}

impl View for PaperVersion {
    type V = Seq<u32>;

    open spec fn view(&self) -> Seq<u32> {
        self.builds@
    }
}

impl View for PaperBuild {
    type V = PaperBuildView;

    open spec fn view(&self) -> PaperBuildView {
        PaperBuildView { file_name: self.file_name@ }
    }
}

/// The last element of a list, if it has one.
pub open spec fn last_of<T>(s: Seq<T>) -> Option<T> {
    if s.len() > 0 {
        Some(s.last())
    } else {
        None
    }
}

/// Where the builds of `version` are listed.
pub open spec fn builds_url(version: Seq<char>) -> Seq<char> {
    PAPER_MANIFEST_URL@ + "/versions/"@ + version
}

/// Where the document of one build is published.
pub open spec fn build_url(version: Seq<char>, build: u32) -> Seq<char> {
    builds_url(version) + "/builds/"@ + decimal(build as nat)
}

/// Where the application of one build is downloaded from.
pub open spec fn download_url(version: Seq<char>, build: u32, file_name: Seq<char>) -> Seq<char> {
    build_url(version, build) + "/downloads/"@ + file_name
}

/// The descriptor of a resolved build.
pub open spec fn descriptor(version: Seq<char>, build: u32) -> Seq<char> {
    "(Version: "@ + version + ", Build: "@ + decimal(build as nat) + ")"@
}

/// The effective build: the requested one, or else the latest.
pub open spec fn effective_build(requested: Option<u32>, latest: u32) -> u32 {
    match requested {
        Some(b) => b,
        None => latest,
    }
}

/// The outcome of holding a request against the latest version of the
/// manifest and the latest build of the effective version's own build list.
///
/// The effective version is the requested one unless that is absent or empty,
/// the effective build the requested one unless that is absent. An effective
/// version after the latest one in the order of strings is rejected first,
/// then an effective build above the latest one. Otherwise the outcome is the
/// effective pair.
pub open spec fn select(
    latest_version: Seq<char>,
    latest_build: u32,
    requested_version: Option<Seq<char>>,
    requested_build: Option<u32>,
) -> Result<(Seq<char>, u32), ResolutionErrorView> {
    let version = effective(requested_version, latest_version);
    let build = effective_build(requested_build, latest_build);
    if lex_less(latest_version, version) {
        Err(
            ResolutionErrorView::NotFound {
                axis: Axis::Version,
                requested: version,
                latest: latest_version,
            },
        )
    } else if build > latest_build {
        Err(
            ResolutionErrorView::NotFound {
                axis: Axis::Build,
                requested: decimal(build as nat),
                latest: decimal(latest_build as nat),
            },
        )
    } else {
        Ok((version, build))
    }
}

/// What resolving to a build yields, given the build's document.
pub open spec fn release(version: Seq<char>, build: u32, document: PaperBuildView)
    -> ResolvedReleaseView {
    ResolvedReleaseView {
        url: download_url(version, build, document.file_name),
        descriptor: descriptor(version, build),
    }
}

/// A request that names neither version nor build resolves to the latest of
/// both, whatever they are.
pub proof fn lemma_latest_when_unrequested(latest_version: Seq<char>, latest_build: u32)
    ensures
        select(latest_version, latest_build, None, None) == Ok::<
            (Seq<char>, u32),
            ResolutionErrorView,
        >((latest_version, latest_build)),
        select(latest_version, latest_build, Some(Seq::<char>::empty()), None) == Ok::<
            (Seq<char>, u32),
            ResolutionErrorView,
        >((latest_version, latest_build)),
{
    lemma_lex_less_irreflexive(latest_version);
}

/// The latest version of the manifest: its last one.
pub fn latest_version(manifest: &PaperManifest) -> (r: Option<&String>)
    ensures
        option_ref_view(r) == last_of(manifest@.versions),
{
    let n = manifest.versions.len();
    if n == 0 {
        None
    } else {
        Some(&manifest.versions[n - 1])
    }
}

/// The latest build of a version: its last one.
pub fn latest_build(version: &PaperVersion) -> (r: Option<u32>)
    ensures
        r == last_of(version@),
{
    let n = version.builds.len();
    if n == 0 {
        None
    } else {
        Some(version.builds[n - 1])
    }
}

/// Where the builds of `version` are listed.
pub fn builds_location(version: &str) -> (r: String)
    ensures
        r@ == builds_url(version@),
{
    let mut out = String::from_str(PAPER_MANIFEST_URL);
    out.append("/versions/");
    out.append(version);
    out
}

/// Where the document of one build is published.
pub fn build_location(version: &str, build: u32) -> (r: String)
    ensures
        r@ == build_url(version@, build),
{
    let mut out = builds_location(version);
    out.append("/builds/");
    append_decimal(&mut out, build);
    out
}

/// Where the application of one build is downloaded from.
pub fn download_location(version: &str, build: u32, file_name: &str) -> (r: String)
    ensures
        r@ == download_url(version@, build, file_name@),
{
    let mut out = build_location(version, build);
    out.append("/downloads/");
    out.append(file_name);
    out
}

/// The descriptor of a resolved build.
pub fn describe(version: &str, build: u32) -> (r: String)
    ensures
        r@ == descriptor(version@, build),
{
    let mut out = String::from_str("(Version: ");
    out.append(version);
    out.append(", Build: ");
    append_decimal(&mut out, build);
    out.append(")");
    out
}

/// Holds a request against the latest version of the manifest and the latest
/// build, which is the last one of the effective version's own build list.
///
/// Returns the effective version and build, or the failure of the first axis
/// on which the request goes beyond the latest value: the version first, then
/// the build.
pub fn select_build(
    latest_version: &String,
    latest_build: u32,
    requested_version: Option<String>,
    requested_build: Option<u32>,
) -> (r: Result<(String, u32), ResolutionError>)
    ensures
        select(latest_version@, latest_build, option_view(requested_version), requested_build)
            == match r {
            Ok(pair) => Ok((pair.0@, pair.1)),
            Err(e) => Err(e@),
        },
{
    let version = effective_value(requested_version, latest_version);
    let build = match requested_build {
        Some(b) => b,
        None => latest_build,
    };
    if str_greater(version.as_str(), latest_version.as_str()) {
        return Err(
            ResolutionError::NotFound {
                axis: Axis::Version,
                requested: version,
                latest: latest_version.clone(),
            },
        );
    }
    if build > latest_build {
        return Err(
            ResolutionError::NotFound {
                axis: Axis::Build,
                requested: u32_to_string(build),
                latest: u32_to_string(latest_build),
            },
        );
    }
    Ok((version, build))
}

/// What resolving to a build yields, given the build's document: the
/// download of the file it names, described by version and build.
pub fn resolved(version: &str, build: u32, document: &PaperBuild) -> (r: ResolvedRelease)
    ensures
        r@ == release(version@, build, document@),
{
    ResolvedRelease {
        url: download_location(version, build, document.file_name.as_str()),
        descriptor: describe(version, build),
    }
}

} // verus!
