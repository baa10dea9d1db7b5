//! What a resolution yields and how it fails.

use vstd::prelude::*;

verus! {

/// The dimension of a request that a value was rejected on.
#[derive(Debug, Clone, Copy, PartialEq, Eq, Structural)]
pub enum Axis {
    /// The product version of the build manifest.
    Version,
    /// The build number of the build manifest.
    Build,
    /// The game version of the loader manifest.
    Game,
    /// The loader version of the loader manifest.
    Loader,
    /// The installer version of the loader manifest.
    Installer,
}

impl Axis {
    /// How a message calls the axis.
    pub open spec fn label(self) -> Seq<char> {
        match self {
            Axis::Version => "Version"@,
            Axis::Build => "Build"@,
            Axis::Game => "Minecraft version"@,
            Axis::Loader => "Loader version"@,
            Axis::Installer => "Installer version"@,
        }
    }

    /// How a message calls the axis.
    pub fn label_str(self) -> (r: &'static str)
        ensures
            r@ == self.label(),
    {
        match self {
            Axis::Version => "Version",
            Axis::Build => "Build",
            Axis::Game => "Minecraft version",
            Axis::Loader => "Loader version",
            Axis::Installer => "Installer version",
        }
    }
}

/// A downloadable artifact and a short description of what was resolved.
#[derive(Debug, Clone, PartialEq, Eq)]
pub struct ResolvedRelease {
    pub url: String,
    pub descriptor: String,
}

/// The content of a [`ResolvedRelease`].
pub struct ResolvedReleaseView {
    pub url: Seq<char>,
    pub descriptor: Seq<char>,
}

impl View for ResolvedRelease {
    type V = ResolvedReleaseView;

    open spec fn view(&self) -> ResolvedReleaseView {
        ResolvedReleaseView { url: self.url@, descriptor: self.descriptor@ }
    }
}

/// Why a resolution failed.
#[derive(Debug, Clone, PartialEq, Eq)]
pub enum ResolutionError {
    /// The release manifest does not list the requested version.
    VersionNotFound { requested: String, latest: String },
    /// The requested value comes after the latest one on its axis.
    NotFound { axis: Axis, requested: String, latest: String },
    /// A manifest could not be fetched or read, or lacks what is needed.
    ResolutionFailed { reason: String },
}

/// The content of a [`ResolutionError`].
pub enum ResolutionErrorView {
    VersionNotFound { requested: Seq<char>, latest: Seq<char> },
    NotFound { axis: Axis, requested: Seq<char>, latest: Seq<char> },
    ResolutionFailed { reason: Seq<char> },
}

impl View for ResolutionError {
    type V = ResolutionErrorView;

    open spec fn view(&self) -> ResolutionErrorView {
        match self {
            ResolutionError::VersionNotFound { requested, latest } => {
                ResolutionErrorView::VersionNotFound { requested: requested@, latest: latest@ }
            },
            ResolutionError::NotFound { axis, requested, latest } => {
                ResolutionErrorView::NotFound {
                    axis: *axis,
                    requested: requested@,
                    latest: latest@,
                }
            },
            ResolutionError::ResolutionFailed { reason } => {
                ResolutionErrorView::ResolutionFailed { reason: reason@ }
            },
        }
    }
}

/// The text of a message that says `requested` was not found on the axis
/// called `label`, and what the latest value is.
pub open spec fn not_found_text(label: Seq<char>, requested: Seq<char>, latest: Seq<char>) -> Seq<
    char,
> {
    label + " "@ + requested + " not found. Latest is "@ + latest
}

impl ResolutionErrorView {
    /// The message shown for the failure.
    pub open spec fn message(self) -> Seq<char> {
        match self {
            ResolutionErrorView::VersionNotFound { requested, latest } => not_found_text(
                Axis::Game.label(),
                requested,
                latest,
            ),
            ResolutionErrorView::NotFound { axis, requested, latest } => not_found_text(
                axis.label(),
                requested,
                latest,
            ),
            ResolutionErrorView::ResolutionFailed { reason } => reason,
        }
    }
}

/// Composes the message of a value that was not found.
fn not_found_message(label: &str, requested: &String, latest: &String) -> (r: String)
    ensures
        r@ == not_found_text(label@, requested@, latest@),
{
    let mut out = String::from_str(label);
    out.append(" ");
    out.append(requested.as_str());
    out.append(" not found. Latest is ");
    out.append(latest.as_str());
    out
}

impl ResolutionError {
    /// The message shown for the failure. It names the requested value and,
    /// where there is one, the latest known value.
    pub fn message(&self) -> (r: String)
        ensures
            r@ == self@.message(),
    {
        match self {
            ResolutionError::VersionNotFound { requested, latest } => not_found_message(
                Axis::Game.label_str(),
                requested,
                latest,
            ),
            ResolutionError::NotFound { axis, requested, latest } => not_found_message(
                axis.label_str(),
                requested,
                latest,
            ),
            ResolutionError::ResolutionFailed { reason } => reason.clone(),
        }
    }
}

/// The value used on an axis: the requested one unless it is absent or empty,
/// in which case the latest one.
pub open spec fn effective(requested: Option<Seq<char>>, latest: Seq<char>) -> Seq<char> {
    match requested {
        Some(v) => if v.len() > 0 {
            v
        } else {
            latest
        },
        None => latest,
    }
}

/// The view of an optional string.
pub open spec fn option_view(value: Option<String>) -> Option<Seq<char>> {
    match value {
        Some(v) => Some(v@),
        None => None,
    }
}

/// The view of an optional borrowed string.
pub open spec fn option_ref_view(value: Option<&String>) -> Option<Seq<char>> {
    match value {
        Some(v) => Some(v@),
        None => None,
    }
}

/// The value used on an axis: `requested` unless it is absent or empty, in
/// which case `latest`.
pub fn effective_value(requested: Option<String>, latest: &String) -> (r: String)
    ensures
        r@ == effective(option_view(requested), latest@),
{
    match requested {
        Some(v) => {
            if v.as_str().is_empty() {
                latest.clone()
            } else {
                v
            }
        },
        None => latest.clone(),
    }
}

} // verus!
