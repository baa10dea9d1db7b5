//! Resolution as a dialogue: the resolver says which document it needs next,
//! the caller fetches and decodes it and hands it back, until the resolver
//! names the release or the failure.
//!
//! The resolver itself performs no input or output. A release-manifest request
//! needs the manifest and then the detail document of the chosen version; a
//! build-manifest request needs the manifest, the build list of the effective
//! version and the document of the chosen build; a loader-manifest request
//! needs the manifest only.

use crate::command::{ServerCommand, ServerCommandView};
use crate::fabric::{FabricManifest, FabricManifestView, FABRIC_MANIFEST_URL};
use crate::paper::{
    PaperBuild, PaperBuildView, PaperManifest, PaperManifestView, PaperVersion,
    PAPER_MANIFEST_URL,
};
use crate::resolution::{
    effective, effective_value, ResolutionError, ResolutionErrorView, ResolvedRelease,
    ResolvedReleaseView,
};
use crate::vanilla::{
    VanillaArtifact, VanillaArtifactView, VanillaManifest, VanillaManifestView,
    VANILLA_MANIFEST_URL,
};
use vstd::prelude::*;

verus! {

/// The kinds of document a resolution reads.
#[derive(Debug, Clone, Copy, PartialEq, Eq, Structural)]
pub enum DocumentKind {
    VanillaManifest,
    VanillaArtifact,
    PaperManifest,
    PaperVersion,
    PaperBuild,
    FabricManifest,
}

/// A decoded document.
#[derive(Debug, Clone, PartialEq, Eq)]
pub enum Document {
    VanillaManifest(VanillaManifest),
    VanillaArtifact(VanillaArtifact),
    PaperManifest(PaperManifest),
    PaperVersion(PaperVersion),
    PaperBuild(PaperBuild),
    FabricManifest(FabricManifest),
}

/// The content of a [`Document`].
pub enum DocumentView {
    VanillaManifest(VanillaManifestView),
    VanillaArtifact(VanillaArtifactView),
    PaperManifest(PaperManifestView),
    PaperVersion(Seq<u32>),
    PaperBuild(PaperBuildView),
    FabricManifest(FabricManifestView),
}

impl View for Document {
    type V = DocumentView;

    open spec fn view(&self) -> DocumentView {
        match self {
            Document::VanillaManifest(d) => DocumentView::VanillaManifest(d@),
            Document::VanillaArtifact(d) => DocumentView::VanillaArtifact(d@),
            Document::PaperManifest(d) => DocumentView::PaperManifest(d@),
            Document::PaperVersion(d) => DocumentView::PaperVersion(d@),
            Document::PaperBuild(d) => DocumentView::PaperBuild(d@),
            Document::FabricManifest(d) => DocumentView::FabricManifest(d@),
        }
    }
}

/// A document to get: where it is published and what it is to be decoded as.
#[derive(Debug, Clone, PartialEq, Eq)]
pub struct Fetch {
    pub url: String,
    pub kind: DocumentKind,
}

/// The content of a [`Fetch`].
pub struct FetchView {
    pub url: Seq<char>,
    pub kind: DocumentKind,
}

impl View for Fetch {
    type V = FetchView;

    open spec fn view(&self) -> FetchView {
        FetchView { url: self.url@, kind: self.kind }
    }
}

/// What the caller is to do next.
#[derive(Debug, Clone, PartialEq, Eq)]
pub enum Action {
    /// Get this document and hand it to `advance`.
    Fetch(Fetch),
    /// The resolution is over: this is the release.
    Done(ResolvedRelease),
    /// The resolution is over: it failed.
    Failed(ResolutionError),
}

/// The content of an [`Action`].
pub enum ActionView {
    Fetch(FetchView),
    Done(ResolvedReleaseView),
    Failed(ResolutionErrorView),
}

impl View for Action {
    type V = ActionView;

    open spec fn view(&self) -> ActionView {
        match self {
            Action::Fetch(f) => ActionView::Fetch(f@),
            Action::Done(r) => ActionView::Done(r@),
            Action::Failed(e) => ActionView::Failed(e@),
        }
    }
}

/// How far a resolution has come: which document it waits for, and what it
/// has settled so far.
#[derive(Debug, Clone, PartialEq, Eq)]
pub enum Stage {
    /// Waiting for the provider's manifest.
    Manifest,
    /// Waiting for the detail document of the version `id`.
    VanillaArtifact { id: String },
    /// Waiting for the build list of the effective version; `latest_version`
    /// is the manifest's latest one, which the effective one is held against.
    PaperBuilds { latest_version: String },
    /// Waiting for the document of the chosen build.
    PaperBuild { version: String, build: u32 },
    /// The resolution is over.
    Finished,
}

/// The content of a [`Stage`].
pub enum StageView {
    Manifest,
    VanillaArtifact { id: Seq<char> },
    PaperBuilds { latest_version: Seq<char> },
    PaperBuild { version: Seq<char>, build: u32 },
    Finished,
}

impl View for Stage {
    type V = StageView;

    open spec fn view(&self) -> StageView {
        match self {
            Stage::Manifest => StageView::Manifest,
            Stage::VanillaArtifact { id } => StageView::VanillaArtifact { id: id@ },
            Stage::PaperBuilds { latest_version } => StageView::PaperBuilds {
                latest_version: latest_version@,
            },
            Stage::PaperBuild { version, build } => StageView::PaperBuild {
                version: version@,
                build: *build,
            },
            Stage::Finished => StageView::Finished,
        }
    }
}

impl StageView {
    /// How many documents of the longest resolution have been read when a
    /// resolution is at this stage.
    pub open spec fn rank(self) -> nat {
        match self {
            StageView::Manifest => 0,
            StageView::PaperBuilds { .. } => 1,
            StageView::VanillaArtifact { .. } => 2,
            StageView::PaperBuild { .. } => 2,
            StageView::Finished => 3,
        }
    }
}

/// The content of what the caller hands back: the document, or why there is
/// none.
pub open spec fn response_view(response: Result<Document, String>) -> Result<
    DocumentView,
    Seq<char>,
> {
    match response {
        Ok(document) => Ok(document@),
        Err(reason) => Err(reason@),
    }
}

/// The first document of a resolution: the provider's manifest.
pub open spec fn first_fetch(request: ServerCommandView) -> FetchView {
    match request {
        ServerCommandView::Vanilla { .. } => FetchView {
            url: VANILLA_MANIFEST_URL@,
            kind: DocumentKind::VanillaManifest,
        },
        ServerCommandView::Paper { .. } => FetchView {
            url: PAPER_MANIFEST_URL@,
            kind: DocumentKind::PaperManifest,
        },
        ServerCommandView::Fabric { .. } => FetchView {
            url: FABRIC_MANIFEST_URL@,
            kind: DocumentKind::FabricManifest,
        },
    }
}

/// The end of a resolution in failure.
pub open spec fn failed(error: ResolutionErrorView) -> (StageView, ActionView) {
    (StageView::Finished, ActionView::Failed(error))
}

/// The end of a resolution in success.
pub open spec fn done(release: ResolvedReleaseView) -> (StageView, ActionView) {
    (StageView::Finished, ActionView::Done(release))
}

/// The failure for a document that is not the one waited for, or that lacks
/// what is needed.
pub open spec fn unusable(reason: Seq<char>) -> (StageView, ActionView) {
    failed(ResolutionErrorView::ResolutionFailed { reason })
}

/// The step after the release manifest came.
pub open spec fn after_vanilla_manifest(
    manifest: VanillaManifestView,
    version: Seq<char>,
    snapshot: bool,
) -> (StageView, ActionView) {
    match crate::vanilla::select(manifest, Some(version), snapshot) {
        Ok(i) => (
            StageView::VanillaArtifact { id: manifest.versions[i].id },
            ActionView::Fetch(
                FetchView { url: manifest.versions[i].url, kind: DocumentKind::VanillaArtifact },
            ),
        ),
        Err(e) => failed(e),
    }
}

/// The step after the build manifest came: the latest version is the last
/// one listed, and the build list to get is that of the effective version,
/// which is the requested one unless that is empty.
pub open spec fn after_paper_manifest(manifest: PaperManifestView, version: Seq<char>) -> (
    StageView,
    ActionView,
) {
    match crate::paper::last_of(manifest.versions) {
        Some(latest_version) => (
            StageView::PaperBuilds { latest_version },
            ActionView::Fetch(
                FetchView {
                    url: crate::paper::builds_url(effective(Some(version), latest_version)),
                    kind: DocumentKind::PaperVersion,
                },
            ),
        ),
        None => unusable("Manifest lists no version"@),
    }
}

/// The step after the build list of the effective version came: the latest
/// build is the last one of that list.
pub open spec fn after_paper_builds(
    latest_version: Seq<char>,
    builds: Seq<u32>,
    version: Seq<char>,
    build: Option<u32>,
) -> (StageView, ActionView) {
    match crate::paper::last_of(builds) {
        Some(latest_build) => match crate::paper::select(
            latest_version,
            latest_build,
            Some(version),
            build,
        ) {
            Ok(pair) => (
                StageView::PaperBuild { version: pair.0, build: pair.1 },
                ActionView::Fetch(
                    FetchView {
                        url: crate::paper::build_url(pair.0, pair.1),
                        kind: DocumentKind::PaperBuild,
                    },
                ),
            ),
            Err(e) => failed(e),
        },
        None => unusable("Version lists no build"@),
    }
}

/// The step after the loader manifest came.
pub open spec fn after_fabric_manifest(
    manifest: FabricManifestView,
    version: Seq<char>,
    loader: Seq<char>,
    installer: Seq<char>,
    unstable_loader: bool,
    unstable_installer: bool,
) -> (StageView, ActionView) {
    match crate::fabric::resolve(
        manifest,
        Some(version),
        Some(loader),
        Some(installer),
        unstable_loader,
        unstable_installer,
    ) {
        Ok(release) => done(release),
        Err(e) => failed(e),
    }
}

/// One step of a resolution: the stage reached and what the caller is to do,
/// given the request, the stage so far and what the caller hands back.
///
/// A missing document ends the resolution with the caller's reason. So does a
/// document that the stage does not wait for, and any document once the
/// resolution is over.
pub open spec fn advance_spec(
    request: ServerCommandView,
    stage: StageView,
    response: Result<DocumentView, Seq<char>>,
) -> (StageView, ActionView) {
    match response {
        Err(reason) => unusable(reason),
        Ok(document) => match (stage, request, document) {
            (
                StageView::Manifest,
                ServerCommandView::Vanilla { version, snapshot, .. },
                DocumentView::VanillaManifest(manifest),
            ) => after_vanilla_manifest(manifest, version, snapshot),
            (
                StageView::Manifest,
                ServerCommandView::Paper { version, .. },
                DocumentView::PaperManifest(manifest),
            ) => after_paper_manifest(manifest, version),
            (
                StageView::Manifest,
                ServerCommandView::Fabric {
                    version,
                    loader,
                    installer,
                    unstable_loader,
                    unstable_installer,
                    ..
                },
                DocumentView::FabricManifest(manifest),
            ) => after_fabric_manifest(
                manifest,
                version,
                loader,
                installer,
                unstable_loader,
                unstable_installer,
            ),
            (
                StageView::VanillaArtifact { id },
                ServerCommandView::Vanilla { .. },
                DocumentView::VanillaArtifact(artifact),
            ) => done(crate::vanilla::release(id, artifact)),
            (
                StageView::PaperBuilds { latest_version },
                ServerCommandView::Paper { version, build, .. },
                DocumentView::PaperVersion(builds),
            ) => after_paper_builds(latest_version, builds, version, build),
            (
                StageView::PaperBuild { version, build },
                ServerCommandView::Paper { .. },
                DocumentView::PaperBuild(document),
            ) => done(crate::paper::release(version, build, document)),
            _ => unusable("Unexpected document"@),
        },
    }
}

/// Every step either ends the resolution or brings it to a later stage, and
/// it asks for a document exactly when the resolution goes on. A resolution
/// therefore reads three documents at most.
pub proof fn lemma_advance_progress(
    request: ServerCommandView,
    stage: StageView,
    response: Result<DocumentView, Seq<char>>,
)
    ensures
        ({
            let next = advance_spec(request, stage, response);
            &&& next.0 is Finished || next.0.rank() > stage.rank()
            &&& next.1 is Fetch <==> !(next.0 is Finished)
        }),
{
}

/// Where no document can be had, the resolution fails with the caller's
/// reason, whatever the request and the stage.
pub proof fn lemma_missing_document_fails(
    request: ServerCommandView,
    stage: StageView,
    reason: Seq<char>,
)
    ensures
        advance_spec(request, stage, Err(reason)) == failed(
            ResolutionErrorView::ResolutionFailed { reason },
        ),
{
}

/// Begins a resolution: the stage is `Stage::Manifest`, and the document to
/// get is the manifest of the request's provider.
pub fn start(request: &ServerCommand) -> (r: (Stage, Fetch))
    ensures
        r.0@ == StageView::Manifest,
        r.1@ == first_fetch(request@),
{
    let fetch = match request {
        ServerCommand::Vanilla { .. } => Fetch {
            url: VANILLA_MANIFEST_URL.to_string(),
            kind: DocumentKind::VanillaManifest,
        },
        ServerCommand::Paper { .. } => Fetch {
            url: PAPER_MANIFEST_URL.to_string(),
            kind: DocumentKind::PaperManifest,
        },
        ServerCommand::Fabric { .. } => Fetch {
            url: FABRIC_MANIFEST_URL.to_string(),
            kind: DocumentKind::FabricManifest,
        },
    };
    (Stage::Manifest, fetch)
}

/// Ends a resolution on a document that cannot be used.
fn give_up(reason: &str) -> (r: (Stage, Action))
    ensures
        (r.0@, r.1@) == unusable(reason@),
{
    (
        Stage::Finished,
        Action::Failed(ResolutionError::ResolutionFailed { reason: reason.to_string() }),
    )
}

/// The step after the release manifest came.
fn vanilla_manifest_step(manifest: &VanillaManifest, version: &String, snapshot: bool) -> (r: (
    Stage,
    Action,
))
    ensures
        (r.0@, r.1@) == after_vanilla_manifest(manifest@, version@, snapshot),
{
    match crate::vanilla::select_version(manifest, Some(version.clone()), snapshot) {
        Ok(i) => {
            let entry = &manifest.versions[i];
            (
                Stage::VanillaArtifact { id: entry.id.clone() },
                Action::Fetch(Fetch { url: entry.url.clone(), kind: DocumentKind::VanillaArtifact }),
            )
        },
        Err(e) => (Stage::Finished, Action::Failed(e)),
    }
}

/// The step after the build manifest came.
fn paper_manifest_step(manifest: &PaperManifest, version: &String) -> (r: (Stage, Action))
    ensures
        (r.0@, r.1@) == after_paper_manifest(manifest@, version@),
{
    match crate::paper::latest_version(manifest) {
        Some(latest_version) => {
            let wanted = effective_value(Some(version.clone()), latest_version);
            (
                Stage::PaperBuilds { latest_version: latest_version.clone() },
                Action::Fetch(
                    Fetch {
                        url: crate::paper::builds_location(wanted.as_str()),
                        kind: DocumentKind::PaperVersion,
                    },
                ),
            )
        },
        None => give_up("Manifest lists no version"),
    }
}

/// The step after the build list of the effective version came.
fn paper_builds_step(
    latest_version: &String,
    builds: &PaperVersion,
    version: &String,
    build: Option<u32>,
) -> (r: (Stage, Action))
    ensures
        (r.0@, r.1@) == after_paper_builds(latest_version@, builds@, version@, build),
{
    let latest_build = match crate::paper::latest_build(builds) {
        Some(b) => b,
        None => {
            return give_up("Version lists no build");
        },
    };
    match crate::paper::select_build(latest_version, latest_build, Some(version.clone()), build) {
        Ok(pair) => {
            let url = crate::paper::build_location(pair.0.as_str(), pair.1);
            (
                Stage::PaperBuild { version: pair.0, build: pair.1 },
                Action::Fetch(Fetch { url, kind: DocumentKind::PaperBuild }),
            )
        },
        Err(e) => (Stage::Finished, Action::Failed(e)),
    }
}

/// The step after the loader manifest came.
fn fabric_manifest_step(
    manifest: &FabricManifest,
    version: &String,
    loader: &String,
    installer: &String,
    unstable_loader: bool,
    unstable_installer: bool,
) -> (r: (Stage, Action))
    ensures
        (r.0@, r.1@) == after_fabric_manifest(
            manifest@,
            version@,
            loader@,
            installer@,
            unstable_loader,
            unstable_installer,
        ),
{
    match crate::fabric::get_download_link(
        manifest,
        Some(version.clone()),
        Some(loader.clone()),
        Some(installer.clone()),
        unstable_loader,
        unstable_installer,
    ) {
        Ok(release) => (Stage::Finished, Action::Done(release)),
        Err(e) => (Stage::Finished, Action::Failed(e)),
    }
}

/// Takes a resolution one step further.
///
/// `response` is the document that the last action asked for, decoded, or
/// the reason why it could not be fetched or decoded. The result is the
/// stage reached and the next action, as `advance_spec` gives them. After
/// `Action::Done` and `Action::Failed` the stage is `Stage::Finished`.
pub fn advance(request: &ServerCommand, stage: Stage, response: Result<Document, String>) -> (r: (
    Stage,
    Action,
))
    ensures
        (r.0@, r.1@) == advance_spec(request@, stage@, response_view(response)),
{
    let document = match response {
        Ok(document) => document,
        Err(reason) => {
            return (
                Stage::Finished,
                Action::Failed(ResolutionError::ResolutionFailed { reason }),
            );
        },
    };
    match stage {
        Stage::Manifest => match request {
            ServerCommand::Vanilla { version, snapshot, .. } => match document {
                Document::VanillaManifest(manifest) => vanilla_manifest_step(
                    &manifest,
                    version,
                    *snapshot,
                ),
                _ => give_up("Unexpected document"),
            },
            ServerCommand::Paper { version, .. } => match document {
                Document::PaperManifest(manifest) => paper_manifest_step(&manifest, version),
                _ => give_up("Unexpected document"),
            },
            ServerCommand::Fabric {
                version,
                loader,
                installer,
                unstable_loader,
                unstable_installer,
                ..
            } => match document {
                Document::FabricManifest(manifest) => fabric_manifest_step(
                    &manifest,
                    version,
                    loader,
                    installer,
                    *unstable_loader,
                    *unstable_installer,
                ),
                _ => give_up("Unexpected document"),
            },
        },
        Stage::VanillaArtifact { id } => match request {
            ServerCommand::Vanilla { .. } => match document {
                Document::VanillaArtifact(artifact) => (
                    Stage::Finished,
                    Action::Done(crate::vanilla::resolved(&id, &artifact)),
                ),
                _ => give_up("Unexpected document"),
            },
            _ => give_up("Unexpected document"),
        },
        Stage::PaperBuilds { latest_version } => match request {
            ServerCommand::Paper { version, build, .. } => match document {
                Document::PaperVersion(builds) => paper_builds_step(
                    &latest_version,
                    &builds,
                    version,
                    *build,
                ),
                _ => give_up("Unexpected document"),
            },
            _ => give_up("Unexpected document"),
        },
        Stage::PaperBuild { version, build } => match request {
            ServerCommand::Paper { .. } => match document {
                Document::PaperBuild(document) => (
                    Stage::Finished,
                    Action::Done(crate::paper::resolved(version.as_str(), build, &document)),
                ),
                _ => give_up("Unexpected document"),
            },
            _ => give_up("Unexpected document"),
        },
        Stage::Finished => give_up("Unexpected document"),
    }
}

} // verus!
