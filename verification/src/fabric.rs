//! The loader manifest: three independent lists (game, loader and installer
//! versions), each entry with a stability flag.
//!
//! On each axis the latest value is the first entry, in list order, that may
//! be used; a requested value is held against it in the order of strings,
//! character by character, not as a dotted number (`"1.9"` comes after
//! `"1.10"`). That comparison is kept as it is and this is its known
//! weakness.

use crate::resolution::{
    effective, effective_value, option_ref_view, option_view, Axis, ResolutionError,
    ResolutionErrorView, ResolvedRelease, ResolvedReleaseView,
};
use crate::search::{
    first_index, lemma_first_index, lemma_first_index_found, lemma_first_index_missing,
};
use crate::text::{lemma_lex_less_irreflexive, lex_less, str_greater};
use vstd::prelude::*;

verus! {

/// Where the loader manifest is published, and the root of the server
/// launcher downloads.
pub const FABRIC_MANIFEST_URL: &'static str = "https://meta.fabricmc.net/v2/versions";

/// One entry of a list of the loader manifest.
#[derive(Debug, Clone, PartialEq, Eq)]
pub struct FabricVersion {
    pub version: String,
    pub stable: bool,
}

/// The loader manifest.
#[derive(Debug, Clone, PartialEq, Eq)]
pub struct FabricManifest {
    pub game: Vec<FabricVersion>,
    pub loader: Vec<FabricVersion>,
    pub installer: Vec<FabricVersion>,
}

/// The content of a [`FabricVersion`].
pub struct FabricVersionView {
    pub version: Seq<char>,
    pub stable: bool,
}

/// The content of a [`FabricManifest`].
pub struct FabricManifestView {
    pub game: Seq<FabricVersionView>,
    pub loader: Seq<FabricVersionView>,
    pub installer: Seq<FabricVersionView>,
}

impl View for FabricVersion {
    type V = FabricVersionView;

    open spec fn view(&self) -> FabricVersionView {
        FabricVersionView { version: self.version@, stable: self.stable }
    }
}

/// The contents of a list of entries.
pub open spec fn entry_views(entries: Seq<FabricVersion>) -> Seq<FabricVersionView> {
    Seq::new(entries.len(), |i: int| entries[i]@)
}

impl View for FabricManifest {
    type V = FabricManifestView;

    open spec fn view(&self) -> FabricManifestView {
        FabricManifestView {
            game: entry_views(self.game@),
            loader: entry_views(self.loader@),
            installer: entry_views(self.installer@),
        }
    }
}

/// Whether an entry may be used: a stable one always, an unstable one only
/// where unstable entries are allowed.
pub open spec fn may_use(entry: FabricVersionView, allow_unstable: bool) -> bool {
    allow_unstable || entry.stable
}

/// The entries that may be used.
pub open spec fn usable(allow_unstable: bool) -> spec_fn(FabricVersionView) -> bool {
    |entry: FabricVersionView| may_use(entry, allow_unstable)
}

/// The latest value of an axis: the version of the first usable entry.
pub open spec fn latest(entries: Seq<FabricVersionView>, allow_unstable: bool) -> Option<
    Seq<char>,
> {
    match first_index(entries, usable(allow_unstable)) {
        Some(i) => Some(entries[i].version),
        None => None,
    }
}

/// Where the server launcher of a combination is downloaded from.
pub open spec fn server_jar_url(version: Seq<char>, loader: Seq<char>, installer: Seq<char>) -> Seq<
    char,
> {
    FABRIC_MANIFEST_URL@ + "/loader/"@ + version + "/"@ + loader + "/"@ + installer
        + "/server/jar"@
}

/// The descriptor of a resolved combination.
pub open spec fn descriptor(version: Seq<char>, loader: Seq<char>, installer: Seq<char>) -> Seq<
    char,
> {
    "(Version: "@ + version + ", Loader: "@ + loader + ", Installer: "@ + installer + ")"@
}

/// The failure for an axis on which the manifest lists no usable entry.
pub open spec fn nothing_listed(axis: Axis) -> ResolutionErrorView {
    ResolutionErrorView::ResolutionFailed { reason: axis.label() + " list has no usable entry"@ }
}

/// The outcome of resolving a request against the manifest.
///
/// The latest game version is the first stable one; the latest loader and
/// installer versions are the first usable ones under their own flags. An
/// axis without a usable entry fails the resolution, game first, then loader,
/// then installer. Each effective value is the requested one unless that is
/// absent or empty. An effective value after its latest one in the order of
/// strings is rejected, game first, then loader, then installer. Otherwise the
/// outcome is the launcher download for the three effective values.
pub open spec fn resolve(
    manifest: FabricManifestView,
    version: Option<Seq<char>>,
    loader_version: Option<Seq<char>>,
    installer_version: Option<Seq<char>>,
    unstable_loader: bool,
    unstable_installer: bool,
) -> Result<ResolvedReleaseView, ResolutionErrorView> {
    match latest(manifest.game, false) {
        None => Err(nothing_listed(Axis::Game)),
        Some(latest_game) => match latest(manifest.loader, unstable_loader) {
            None => Err(nothing_listed(Axis::Loader)),
            Some(latest_loader) => match latest(manifest.installer, unstable_installer) {
                None => Err(nothing_listed(Axis::Installer)),
                Some(latest_installer) => {
                    let game = effective(version, latest_game);
                    let loader = effective(loader_version, latest_loader);
                    let installer = effective(installer_version, latest_installer);
                    if lex_less(latest_game, game) {
                        Err(
                            ResolutionErrorView::NotFound {
                                axis: Axis::Game,
                                requested: game,
                                latest: latest_game,
                            },
                        )
                    } else if lex_less(latest_loader, loader) {
                        Err(
                            ResolutionErrorView::NotFound {
                                axis: Axis::Loader,
                                requested: loader,
                                latest: latest_loader,
                            },
                        )
                    } else if lex_less(latest_installer, installer) {
                        Err(
                            ResolutionErrorView::NotFound {
                                axis: Axis::Installer,
                                requested: installer,
                                latest: latest_installer,
                            },
                        )
                    } else {
                        Ok(
                            ResolvedReleaseView {
                                url: server_jar_url(game, loader, installer),
                                descriptor: descriptor(game, loader, installer),
                            },
                        )
                    }
                },
            },
        },
    }
}

/// The latest value of an axis is the version of an entry that may be used
/// and that no usable entry comes before; there is none exactly where no
/// entry may be used.
pub proof fn lemma_latest_is_first_usable(entries: Seq<FabricVersionView>, allow_unstable: bool)
    ensures
        match first_index(entries, usable(allow_unstable)) {
            Some(i) => {
                &&& 0 <= i < entries.len()
                &&& latest(entries, allow_unstable) == Some(entries[i].version)
                &&& may_use(entries[i], allow_unstable)
                &&& forall|j: int| 0 <= j < i ==> !may_use(#[trigger] entries[j], allow_unstable)
            },
            None => {
                &&& latest(entries, allow_unstable) is None
                &&& forall|j: int|
                    0 <= j < entries.len() ==> !may_use(#[trigger] entries[j], allow_unstable)
            },
        },
{
    lemma_first_index(entries, usable(allow_unstable));
}

/// A request that names no value resolves to the latest value of each axis,
/// wherever each axis has one.
pub proof fn lemma_latest_when_unrequested(
    manifest: FabricManifestView,
    unstable_loader: bool,
    unstable_installer: bool,
)
    requires
        latest(manifest.game, false) is Some,
        latest(manifest.loader, unstable_loader) is Some,
        latest(manifest.installer, unstable_installer) is Some,
    ensures
        ({
            let game = latest(manifest.game, false)->Some_0;
            let loader = latest(manifest.loader, unstable_loader)->Some_0;
            let installer = latest(manifest.installer, unstable_installer)->Some_0;
            resolve(manifest, None, None, None, unstable_loader, unstable_installer) == Ok::<
                ResolvedReleaseView,
                ResolutionErrorView,
            >(
                ResolvedReleaseView {
                    url: server_jar_url(game, loader, installer),
                    descriptor: descriptor(game, loader, installer),
                },
            )
        }),
{
    lemma_lex_less_irreflexive(latest(manifest.game, false)->Some_0);
    lemma_lex_less_irreflexive(latest(manifest.loader, unstable_loader)->Some_0);
    lemma_lex_less_irreflexive(latest(manifest.installer, unstable_installer)->Some_0);
}

/// The latest value of an axis: the version of the first entry that is
/// stable, or of the first entry at all where unstable ones are allowed.
pub fn latest_entry(entries: &Vec<FabricVersion>, allow_unstable: bool) -> (r: Option<&String>)
    ensures
        option_ref_view(r) == latest(entry_views(entries@), allow_unstable),
{
    let ghost views = entry_views(entries@);
    let ghost wanted = usable(allow_unstable);
    let n = entries.len();
    let mut i: usize = 0;
    while i < n
        invariant
            i <= n,
            n == entries.len(),
            views == entry_views(entries@),
            wanted == usable(allow_unstable),
            forall|j: int| 0 <= j < i ==> !wanted(#[trigger] views[j]),
        decreases n - i,
    {
        if allow_unstable || entries[i].stable {
            proof {
                lemma_first_index_found(views, wanted, i as int);
            }
            return Some(&entries[i].version);
        }
        i += 1;
    }
    proof {
        lemma_first_index_missing(views, wanted);
    }
    None
}

/// Where the server launcher of a combination is downloaded from.
pub fn server_jar_location(version: &str, loader: &str, installer: &str) -> (r: String)
    ensures
        r@ == server_jar_url(version@, loader@, installer@),
{
    let mut out = String::from_str(FABRIC_MANIFEST_URL);
    out.append("/loader/");
    out.append(version);
    out.append("/");
    out.append(loader);
    out.append("/");
    out.append(installer);
    out.append("/server/jar");
    out
}

/// The descriptor of a resolved combination.
pub fn describe(version: &str, loader: &str, installer: &str) -> (r: String)
    ensures
        r@ == descriptor(version@, loader@, installer@),
{
    let mut out = String::from_str("(Version: ");
    out.append(version);
    out.append(", Loader: ");
    out.append(loader);
    out.append(", Installer: ");
    out.append(installer);
    out.append(")");
    out
}

/// The failure for an axis on which the manifest lists no usable entry.
fn nothing_listed_error(axis: Axis) -> (r: ResolutionError)
    ensures
        r@ == nothing_listed(axis),
{
    let mut reason = String::from_str(axis.label_str());
    reason.append(" list has no usable entry");
    ResolutionError::ResolutionFailed { reason }
}

/// The failure for a value that comes after the latest one of its axis.
fn beyond_latest(axis: Axis, requested: String, latest: &String) -> (r: ResolutionError)
    ensures
        r@ == (ResolutionErrorView::NotFound { axis, requested: requested@, latest: latest@ }),
{
    ResolutionError::NotFound { axis, requested, latest: latest.clone() }
}

/// Resolves a request against the loader manifest.
///
/// On success the release is the server launcher for the effective game,
/// loader and installer versions, and its descriptor lists the three. The
/// failures, in the order in which they are looked for: an axis without a
/// usable entry (`ResolutionFailed`), then an effective value that comes after
/// the latest one of its axis (`NotFound`); each time game first, then
/// loader, then installer.
pub fn get_download_link(
    manifest: &FabricManifest,
    version: Option<String>,
    loader_version: Option<String>,
    installer_version: Option<String>,
    unstable_loader: bool,
    unstable_installer: bool,
) -> (r: Result<ResolvedRelease, ResolutionError>)
    ensures
        resolve(
            manifest@,
            option_view(version),
            option_view(loader_version),
            option_view(installer_version),
            unstable_loader,
            unstable_installer,
        ) == match r {
            Ok(release) => Ok(release@),
            Err(e) => Err(e@),
        },
{
    let latest_game = match latest_entry(&manifest.game, false) {
        Some(v) => v,
        None => {
            return Err(nothing_listed_error(Axis::Game));
        },
    };
    let latest_loader = match latest_entry(&manifest.loader, unstable_loader) {
        Some(v) => v,
        None => {
            return Err(nothing_listed_error(Axis::Loader));
        },
    };
    let latest_installer = match latest_entry(&manifest.installer, unstable_installer) {
        Some(v) => v,
        None => {
            return Err(nothing_listed_error(Axis::Installer));
        },
    };
    let game = effective_value(version, latest_game);
    let loader = effective_value(loader_version, latest_loader);
    let installer = effective_value(installer_version, latest_installer);
    if str_greater(game.as_str(), latest_game.as_str()) {
        return Err(beyond_latest(Axis::Game, game, latest_game));
    }
    if str_greater(loader.as_str(), latest_loader.as_str()) {
        return Err(beyond_latest(Axis::Loader, loader, latest_loader));
    }
    if str_greater(installer.as_str(), latest_installer.as_str()) {
        return Err(beyond_latest(Axis::Installer, installer, latest_installer));
    }
    Ok(
        ResolvedRelease {
            url: server_jar_location(game.as_str(), loader.as_str(), installer.as_str()),
            descriptor: describe(game.as_str(), loader.as_str(), installer.as_str()),
        },
    )
}

} // verus!
