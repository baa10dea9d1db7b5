//! The release manifest: a list of versions, each with a detail document that
//! names the server artifact, and a pointer to the latest version of each
//! channel.

use crate::resolution::{
    effective, effective_value, option_view, ResolutionError, ResolutionErrorView,
    ResolvedRelease, ResolvedReleaseView,
};
use crate::search::{
    first_index, lemma_first_index, lemma_first_index_found, lemma_first_index_missing,
};
use vstd::prelude::*;

verus! {

/// Where the release manifest is published.
pub const VANILLA_MANIFEST_URL: &'static str =
    "https://piston-meta.mojang.com/mc/game/version_manifest_v2.json";

/// The latest version of each channel.
#[derive(Debug, Clone, PartialEq, Eq)]
pub struct VanillaLatest {
    pub release: String,
    pub snapshot: String,
}

/// One version of the release manifest.
#[derive(Debug, Clone, PartialEq, Eq)]
pub struct VanillaVersion {
    /// The version identifier.
    pub id: String,
    /// Where the version's detail document is published.
    pub url: String,
}

/// The release manifest.
#[derive(Debug, Clone, PartialEq, Eq)]
pub struct VanillaManifest {
    pub latest: VanillaLatest,
    pub versions: Vec<VanillaVersion>,
}

/// What the logic reads of a version's detail document: where the server
/// artifact is published.
#[derive(Debug, Clone, PartialEq, Eq)]
pub struct VanillaArtifact {
    pub server_url: String,
}

/// The content of a [`VanillaLatest`].
pub struct VanillaLatestView {
    pub release: Seq<char>,
    pub snapshot: Seq<char>,
}

/// The content of a [`VanillaVersion`].
pub struct VanillaVersionView {
    pub id: Seq<char>,
    pub url: Seq<char>,
}

/// The content of a [`VanillaManifest`].
pub struct VanillaManifestView {
    pub latest: VanillaLatestView,
    pub versions: Seq<VanillaVersionView>,
}

/// The content of a [`VanillaArtifact`].
pub struct VanillaArtifactView {
    pub server_url: Seq<char>,
}

impl View for VanillaLatest {
    type V = VanillaLatestView;

    open spec fn view(&self) -> VanillaLatestView {
        VanillaLatestView { release: self.release@, snapshot: self.snapshot@ }
    }
}

impl View for VanillaVersion {
    type V = VanillaVersionView;

    open spec fn view(&self) -> VanillaVersionView {
        VanillaVersionView { id: self.id@, url: self.url@ }
    }
}

impl View for VanillaManifest {
    type V = VanillaManifestView;

    open spec fn view(&self) -> VanillaManifestView {
        VanillaManifestView {
            latest: self.latest@,
            versions: Seq::new(self.versions@.len(), |i: int| self.versions@[i]@),
        }
    }
}

impl View for VanillaArtifact {
    type V = VanillaArtifactView;

    open spec fn view(&self) -> VanillaArtifactView {
        VanillaArtifactView { server_url: self.server_url@ }
    }
}

impl VanillaLatestView {
    /// The latest version of the chosen channel.
    pub open spec fn pointer(self, snapshot: bool) -> Seq<char> {
        if snapshot {
            self.snapshot
        } else {
            self.release
        }
    }
}

/// The versions whose identifier is `id`.
pub open spec fn has_id(id: Seq<char>) -> spec_fn(VanillaVersionView) -> bool {
    |v: VanillaVersionView| v.id == id
}

/// The outcome of looking a request up in the manifest: the position of the
/// first version whose identifier is the effective one, or the failure that
/// names the effective identifier and the channel's latest version.
pub open spec fn select(manifest: VanillaManifestView, requested: Option<Seq<char>>, snapshot: bool)
    -> Result<int, ResolutionErrorView> {
    let latest = manifest.latest.pointer(snapshot);
    let id = effective(requested, latest);
    match first_index(manifest.versions, has_id(id)) {
        Some(i) => Ok(i),
        None => Err(ResolutionErrorView::VersionNotFound { requested: id, latest }),
    }
}

/// The descriptor of a resolved version: its identifier in brackets.
pub open spec fn descriptor(id: Seq<char>) -> Seq<char> {
    "("@ + id + ")"@
}

/// What resolving to the version `id` yields, given its detail document.
pub open spec fn release(id: Seq<char>, artifact: VanillaArtifactView) -> ResolvedReleaseView {
    ResolvedReleaseView { url: artifact.server_url, descriptor: descriptor(id) }
}

/// A request resolves to the first version that carries the effective
/// identifier, character for character, and fails exactly where no version
/// carries it; the failure names that identifier and the channel's latest
/// version.
pub proof fn lemma_select_first_exact_match(
    manifest: VanillaManifestView,
    requested: Option<Seq<char>>,
    snapshot: bool,
)
    ensures
        ({
            let latest = manifest.latest.pointer(snapshot);
            let id = effective(requested, latest);
            match select(manifest, requested, snapshot) {
                Ok(i) => {
                    &&& 0 <= i < manifest.versions.len()
                    &&& manifest.versions[i].id == id
                    &&& forall|j: int| 0 <= j < i ==> (#[trigger] manifest.versions[j]).id != id
                },
                Err(e) => {
                    &&& e == (ResolutionErrorView::VersionNotFound { requested: id, latest })
                    &&& forall|j: int|
                        0 <= j < manifest.versions.len() ==> (#[trigger] manifest.versions[j]).id
                            != id
                },
            }
        }),
{
    let id = effective(requested, manifest.latest.pointer(snapshot));
    lemma_first_index(manifest.versions, has_id(id));
}

impl VanillaLatest {
    /// The latest version of the chosen channel.
    pub fn pointer(&self, snapshot: bool) -> (r: &String)
        ensures
            r@ == self@.pointer(snapshot),
    {
        if snapshot {
            &self.snapshot
        } else {
            &self.release
        }
    }
}

/// Looks the request up in the manifest.
///
/// The effective identifier is `requested`, or the channel's latest version
/// where `requested` is absent or empty. The result is the position of the
/// first version with that identifier. Where the manifest lists none, the
/// failure names the effective identifier and the channel's latest version.
pub fn select_version(manifest: &VanillaManifest, requested: Option<String>, snapshot: bool) -> (r:
    Result<usize, ResolutionError>)
    ensures
        select(manifest@, option_view(requested), snapshot) == match r {
            Ok(i) => Ok(i as int),
            Err(e) => Err(e@),
        },
        r matches Ok(i) ==> i < manifest.versions.len(),
{
    let latest = manifest.latest.pointer(snapshot);
    let id = effective_value(requested, latest);
    let ghost wanted = has_id(id@);
    let n = manifest.versions.len();
    let mut i: usize = 0;
    while i < n
        invariant
            i <= n,
            n == manifest.versions.len(),
            wanted == has_id(id@),
            id@ == effective(option_view(requested), manifest@.latest.pointer(snapshot)),
            forall|j: int| 0 <= j < i ==> !wanted(#[trigger] manifest@.versions[j]),
        decreases n - i,
    {
        if manifest.versions[i].id == id {
            proof {
                lemma_first_index_found(manifest@.versions, wanted, i as int);
            }
            return Ok(i);
        }
        i += 1;
    }
    proof {
        lemma_first_index_missing(manifest@.versions, wanted);
    }
    Err(ResolutionError::VersionNotFound { requested: id, latest: latest.clone() })
}

/// The descriptor of a resolved version: its identifier in brackets.
pub fn describe(id: &String) -> (r: String)
    ensures
        r@ == descriptor(id@),
{
    let mut out = String::from_str("(");
    out.append(id.as_str());
    out.append(")");
    out
}

/// What resolving to the version `id` yields, given its detail document: the
/// server artifact it names, described by the identifier.
pub fn resolved(id: &String, artifact: &VanillaArtifact) -> (r: ResolvedRelease)
    ensures
        r@ == release(id@, artifact@),
{
    ResolvedRelease { url: artifact.server_url.clone(), descriptor: describe(id) }
}

} // verus!
