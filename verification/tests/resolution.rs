use mcinit::command::ServerCommand;
use mcinit::fabric::{self, FabricManifest, FabricVersion, FABRIC_MANIFEST_URL};
use mcinit::paper::{self, PaperBuild, PaperManifest, PaperVersion, PAPER_MANIFEST_URL};
use mcinit::resolution::{effective_value, Axis, ResolutionError, ResolvedRelease};
use mcinit::resolver::{advance, start, Action, Document, DocumentKind, Fetch, Stage};
use mcinit::vanilla::{
    self, VanillaArtifact, VanillaLatest, VanillaManifest, VanillaVersion, VANILLA_MANIFEST_URL,
};

fn text(s: &str) -> String {
    s.to_string()
}

fn some(s: &str) -> Option<String> {
    Some(s.to_string())
}

fn failed(reason: &str) -> ResolutionError {
    ResolutionError::ResolutionFailed { reason: text(reason) }
}

fn not_found(axis: Axis, requested: &str, latest: &str) -> ResolutionError {
    ResolutionError::NotFound { axis, requested: text(requested), latest: text(latest) }
}

fn release_manifest() -> VanillaManifest {
    VanillaManifest {
        latest: VanillaLatest { release: text("1.21"), snapshot: text("24w33a") },
        versions: vec![
            VanillaVersion { id: text("24w33a"), url: text("https://meta.example/24w33a.json") },
            VanillaVersion { id: text("1.20"), url: text("https://meta.example/1.20.json") },
            VanillaVersion { id: text("1.21"), url: text("https://meta.example/1.21.json") },
            VanillaVersion { id: text("1.21"), url: text("https://meta.example/again.json") },
        ],
    }
}

fn vanilla_request(version: &str, snapshot: bool) -> ServerCommand {
    ServerCommand::Vanilla { version: text(version), snapshot, eula: false }
}

fn paper_request(version: &str, build: Option<u32>) -> ServerCommand {
    ServerCommand::Paper { version: text(version), build, eula: true }
}

fn fabric_request(version: &str, loader: &str, installer: &str) -> ServerCommand {
    ServerCommand::Fabric {
        version: text(version),
        loader: text(loader),
        installer: text(installer),
        unstable_loader: false,
        unstable_installer: false,
        eula: false,
    }
}

fn entry(version: &str, stable: bool) -> FabricVersion {
    FabricVersion { version: text(version), stable }
}

fn loader_manifest() -> FabricManifest {
    FabricManifest {
        game: vec![entry("1.21.1-rc1", false), entry("1.21", true), entry("1.20.6", true)],
        loader: vec![entry("2.0", false), entry("1.9", true)],
        installer: vec![entry("1.1.0-beta", false), entry("1.0.1", true), entry("1.0.0", true)],
    }
}

/// Runs a whole resolution, answering each fetch from `answers` in order.
fn resolve_with(
    request: &ServerCommand,
    answers: Vec<Result<Document, String>>,
) -> (Vec<Fetch>, Result<ResolvedRelease, ResolutionError>) {
    let (mut stage, first) = start(request);
    let mut fetches = vec![first];
    for answer in answers {
        let (next, action) = advance(request, stage, answer);
        stage = next;
        match action {
            Action::Fetch(fetch) => fetches.push(fetch),
            Action::Done(release) => {
                assert_eq!(stage, Stage::Finished);
                return (fetches, Ok(release));
            }
            Action::Failed(error) => {
                assert_eq!(stage, Stage::Finished);
                return (fetches, Err(error));
            }
        }
    }
    panic!("the resolution asked for more documents than the test holds");
}

#[test]
fn effective_value_prefers_a_request_that_is_not_empty() {
    assert_eq!(effective_value(some("1.20"), &text("1.21")), "1.20");
    assert_eq!(effective_value(some(""), &text("1.21")), "1.21");
    assert_eq!(effective_value(None, &text("1.21")), "1.21");
}

#[test]
fn release_manifest_latest_stable() {
    let manifest = VanillaManifest {
        latest: VanillaLatest { release: text("1.21"), snapshot: text("1.21") },
        versions: vec![
            VanillaVersion { id: text("1.20"), url: text("https://meta.example/1.20.json") },
            VanillaVersion { id: text("1.21"), url: text("https://meta.example/1.21.json") },
        ],
    };
    let request = vanilla_request("", false);
    let (fetches, outcome) = resolve_with(
        &request,
        vec![
            Ok(Document::VanillaManifest(manifest)),
            Ok(Document::VanillaArtifact(VanillaArtifact {
                server_url: text("https://data.example/1.21/server.jar"),
            })),
        ],
    );
    assert_eq!(
        fetches,
        vec![
            Fetch { url: text(VANILLA_MANIFEST_URL), kind: DocumentKind::VanillaManifest },
            Fetch { url: text("https://meta.example/1.21.json"), kind: DocumentKind::VanillaArtifact },
        ]
    );
    assert_eq!(
        outcome,
        Ok(ResolvedRelease {
            url: text("https://data.example/1.21/server.jar"),
            descriptor: text("(1.21)"),
        })
    );
}

#[test]
fn release_manifest_version_not_listed() {
    let manifest = VanillaManifest {
        latest: VanillaLatest { release: text("1.21"), snapshot: text("1.21") },
        versions: vec![
            VanillaVersion { id: text("1.20"), url: text("https://meta.example/1.20.json") },
            VanillaVersion { id: text("1.21"), url: text("https://meta.example/1.21.json") },
        ],
    };
    let request = vanilla_request("1.22", false);
    let (fetches, outcome) = resolve_with(&request, vec![Ok(Document::VanillaManifest(manifest))]);
    assert_eq!(fetches.len(), 1);
    assert_eq!(
        outcome,
        Err(ResolutionError::VersionNotFound { requested: text("1.22"), latest: text("1.21") })
    );
}

#[test]
fn release_manifest_snapshot_channel() {
    let manifest = release_manifest();
    assert_eq!(vanilla::select_version(&manifest, some(""), true), Ok(0));
    assert_eq!(vanilla::select_version(&manifest, None, true), Ok(0));
    assert_eq!(vanilla::select_version(&manifest, None, false), Ok(2));
    assert_eq!(
        vanilla::select_version(&manifest, some("1.19"), true),
        Err(ResolutionError::VersionNotFound { requested: text("1.19"), latest: text("24w33a") })
    );
    assert_eq!(
        vanilla::select_version(&manifest, some("1.19"), false),
        Err(ResolutionError::VersionNotFound { requested: text("1.19"), latest: text("1.21") })
    );
}

#[test]
fn release_manifest_takes_the_first_of_equal_identifiers() {
    let manifest = release_manifest();
    assert_eq!(vanilla::select_version(&manifest, some("1.21"), false), Ok(2));
    assert_eq!(vanilla::select_version(&manifest, some("1.20"), true), Ok(1));
}

#[test]
fn release_manifest_match_is_exact() {
    let manifest = release_manifest();
    for requested in ["1.2", "1.21 ", "1.21.0", "1.210"] {
        assert_eq!(
            vanilla::select_version(&manifest, some(requested), false),
            Err(ResolutionError::VersionNotFound {
                requested: text(requested),
                latest: text("1.21"),
            })
        );
    }
}

#[test]
fn release_manifest_latest_pointer_that_is_not_listed() {
    let manifest = VanillaManifest {
        latest: VanillaLatest { release: text("1.22"), snapshot: text("1.22") },
        versions: vec![],
    };
    assert_eq!(
        vanilla::select_version(&manifest, None, false),
        Err(ResolutionError::VersionNotFound { requested: text("1.22"), latest: text("1.22") })
    );
}

#[test]
fn release_descriptor_is_the_identifier_in_brackets() {
    assert_eq!(vanilla::describe(&text("1.21")), "(1.21)");
    assert_eq!(vanilla::describe(&text("")), "()");
    let artifact = VanillaArtifact { server_url: text("https://data.example/server.jar") };
    assert_eq!(
        vanilla::resolved(&text("24w33a"), &artifact),
        ResolvedRelease { url: text("https://data.example/server.jar"), descriptor: text("(24w33a)") }
    );
}

#[test]
fn build_manifest_latest_build() {
    let request = paper_request("", None);
    let (fetches, outcome) = resolve_with(
        &request,
        vec![
            Ok(Document::PaperManifest(PaperManifest { versions: vec![text("1.20"), text("1.21")] })),
            Ok(Document::PaperVersion(PaperVersion { builds: vec![100, 101] })),
            Ok(Document::PaperBuild(PaperBuild { file_name: text("paper-1.21-101.jar") })),
        ],
    );
    assert_eq!(
        fetches,
        vec![
            Fetch {
                url: text("https://api.papermc.io/v2/projects/paper"),
                kind: DocumentKind::PaperManifest,
            },
            Fetch {
                url: text("https://api.papermc.io/v2/projects/paper/versions/1.21"),
                kind: DocumentKind::PaperVersion,
            },
            Fetch {
                url: text("https://api.papermc.io/v2/projects/paper/versions/1.21/builds/101"),
                kind: DocumentKind::PaperBuild,
            },
        ]
    );
    assert_eq!(
        outcome,
        Ok(ResolvedRelease {
            url: text(
                "https://api.papermc.io/v2/projects/paper/versions/1.21/builds/101/downloads/paper-1.21-101.jar"
            ),
            descriptor: text("(Version: 1.21, Build: 101)"),
        })
    );
}

#[test]
fn build_manifest_build_beyond_latest() {
    let request = paper_request("", Some(102));
    let (fetches, outcome) = resolve_with(
        &request,
        vec![
            Ok(Document::PaperManifest(PaperManifest { versions: vec![text("1.20"), text("1.21")] })),
            Ok(Document::PaperVersion(PaperVersion { builds: vec![100, 101] })),
        ],
    );
    assert_eq!(fetches.len(), 2);
    assert_eq!(outcome, Err(not_found(Axis::Build, "102", "101")));
}

#[test]
fn build_manifest_earlier_version_and_build() {
    let request = paper_request("1.20", Some(7));
    let (fetches, outcome) = resolve_with(
        &request,
        vec![
            Ok(Document::PaperManifest(PaperManifest { versions: vec![text("1.20"), text("1.21")] })),
            Ok(Document::PaperVersion(PaperVersion { builds: vec![50, 60] })),
            Ok(Document::PaperBuild(PaperBuild { file_name: text("paper-1.20-7.jar") })),
        ],
    );
    assert_eq!(
        fetches[1].url,
        "https://api.papermc.io/v2/projects/paper/versions/1.20"
    );
    assert_eq!(
        fetches[2].url,
        "https://api.papermc.io/v2/projects/paper/versions/1.20/builds/7"
    );
    assert_eq!(
        outcome,
        Ok(ResolvedRelease {
            url: text(
                "https://api.papermc.io/v2/projects/paper/versions/1.20/builds/7/downloads/paper-1.20-7.jar"
            ),
            descriptor: text("(Version: 1.20, Build: 7)"),
        })
    );
}

#[test]
fn build_manifest_latest_build_of_the_requested_version() {
    let request = paper_request("1.20", None);
    let (fetches, outcome) = resolve_with(
        &request,
        vec![
            Ok(Document::PaperManifest(PaperManifest { versions: vec![text("1.20"), text("1.21")] })),
            Ok(Document::PaperVersion(PaperVersion { builds: vec![50, 60] })),
            Ok(Document::PaperBuild(PaperBuild { file_name: text("p.jar") })),
        ],
    );
    assert_eq!(
        fetches[1],
        Fetch {
            url: text("https://api.papermc.io/v2/projects/paper/versions/1.20"),
            kind: DocumentKind::PaperVersion,
        }
    );
    assert_eq!(
        fetches[2],
        Fetch {
            url: text("https://api.papermc.io/v2/projects/paper/versions/1.20/builds/60"),
            kind: DocumentKind::PaperBuild,
        }
    );
    assert_eq!(
        outcome,
        Ok(ResolvedRelease {
            url: text(
                "https://api.papermc.io/v2/projects/paper/versions/1.20/builds/60/downloads/p.jar"
            ),
            descriptor: text("(Version: 1.20, Build: 60)"),
        })
    );
}

#[test]
fn build_manifest_build_beyond_latest_of_the_requested_version() {
    let request = paper_request("1.20", Some(61));
    let (fetches, outcome) = resolve_with(
        &request,
        vec![
            Ok(Document::PaperManifest(PaperManifest { versions: vec![text("1.20"), text("1.21")] })),
            Ok(Document::PaperVersion(PaperVersion { builds: vec![50, 60] })),
        ],
    );
    assert_eq!(fetches.len(), 2);
    assert_eq!(outcome, Err(not_found(Axis::Build, "61", "60")));
}

#[test]
fn build_manifest_version_beyond_latest_through_the_resolver() {
    let request = paper_request("1.22", None);
    let (fetches, outcome) = resolve_with(
        &request,
        vec![
            Ok(Document::PaperManifest(PaperManifest { versions: vec![text("1.20"), text("1.21")] })),
            Ok(Document::PaperVersion(PaperVersion { builds: vec![1, 2] })),
        ],
    );
    assert_eq!(
        fetches[1].url,
        "https://api.papermc.io/v2/projects/paper/versions/1.22"
    );
    assert_eq!(outcome, Err(not_found(Axis::Version, "1.22", "1.21")));
}

#[test]
fn build_manifest_version_beyond_latest() {
    assert_eq!(
        paper::select_build(&text("1.21"), 101, some("1.22"), None),
        Err(not_found(Axis::Version, "1.22", "1.21"))
    );
}

#[test]
fn build_manifest_version_is_checked_before_build() {
    assert_eq!(
        paper::select_build(&text("1.21"), 101, some("1.22"), Some(500)),
        Err(not_found(Axis::Version, "1.22", "1.21"))
    );
}

#[test]
fn build_manifest_versions_compare_as_strings() {
    assert_eq!(
        paper::select_build(&text("1.10"), 5, some("1.9"), None),
        Err(not_found(Axis::Version, "1.9", "1.10"))
    );
    assert_eq!(
        paper::select_build(&text("1.9"), 5, some("1.10"), None),
        Ok((text("1.10"), 5))
    );
    assert_eq!(
        paper::select_build(&text("1.21"), 5, some("1.21.1"), None),
        Err(not_found(Axis::Version, "1.21.1", "1.21"))
    );
}

#[test]
fn build_manifest_latest_is_the_last_entry_not_the_greatest() {
    let manifest = PaperManifest { versions: vec![text("1.21"), text("1.20")] };
    assert_eq!(paper::latest_version(&manifest), Some(&text("1.20")));
    let builds = PaperVersion { builds: vec![300, 200, 100] };
    assert_eq!(paper::latest_build(&builds), Some(100));
    assert_eq!(
        paper::select_build(&text("1.20"), 100, None, Some(200)),
        Err(not_found(Axis::Build, "200", "100"))
    );
    assert_eq!(paper::select_build(&text("1.20"), 100, None, Some(100)), Ok((text("1.20"), 100)));
    assert_eq!(paper::select_build(&text("1.20"), 100, some(""), Some(0)), Ok((text("1.20"), 0)));
}

#[test]
fn build_manifest_without_entries() {
    assert_eq!(paper::latest_version(&PaperManifest { versions: vec![] }), None);
    assert_eq!(paper::latest_build(&PaperVersion { builds: vec![] }), None);
    let request = paper_request("", None);
    let (_, outcome) = resolve_with(
        &request,
        vec![Ok(Document::PaperManifest(PaperManifest { versions: vec![] }))],
    );
    assert_eq!(outcome, Err(failed("Manifest lists no version")));
    let (_, outcome) = resolve_with(
        &request,
        vec![
            Ok(Document::PaperManifest(PaperManifest { versions: vec![text("1.21")] })),
            Ok(Document::PaperVersion(PaperVersion { builds: vec![] })),
        ],
    );
    assert_eq!(outcome, Err(failed("Version lists no build")));
}

#[test]
fn build_manifest_locations() {
    assert_eq!(PAPER_MANIFEST_URL, "https://api.papermc.io/v2/projects/paper");
    assert_eq!(
        paper::builds_location("1.16.5"),
        "https://api.papermc.io/v2/projects/paper/versions/1.16.5"
    );
    assert_eq!(
        paper::build_location("1.16.5", 471),
        "https://api.papermc.io/v2/projects/paper/versions/1.16.5/builds/471"
    );
    assert_eq!(
        paper::download_location("1.16.5", 0, "paper.jar"),
        "https://api.papermc.io/v2/projects/paper/versions/1.16.5/builds/0/downloads/paper.jar"
    );
    assert_eq!(
        paper::describe("1.16.5", u32::MAX),
        "(Version: 1.16.5, Build: 4294967295)"
    );
}

#[test]
fn loader_manifest_first_stable_loader() {
    let manifest = FabricManifest {
        game: vec![entry("1.21", true)],
        loader: vec![entry("2.0", false), entry("1.9", true)],
        installer: vec![entry("1.0.1", true)],
    };
    assert_eq!(fabric::latest_entry(&manifest.loader, false), Some(&text("1.9")));
    assert_eq!(fabric::latest_entry(&manifest.loader, true), Some(&text("2.0")));
    assert_eq!(
        fabric::get_download_link(&manifest, None, None, None, false, false),
        Ok(ResolvedRelease {
            url: text("https://meta.fabricmc.net/v2/versions/loader/1.21/1.9/1.0.1/server/jar"),
            descriptor: text("(Version: 1.21, Loader: 1.9, Installer: 1.0.1)"),
        })
    );
}

#[test]
fn loader_manifest_unstable_flags_are_independent() {
    let manifest = loader_manifest();
    assert_eq!(
        fabric::get_download_link(&manifest, None, None, None, true, false),
        Ok(ResolvedRelease {
            url: text("https://meta.fabricmc.net/v2/versions/loader/1.21/2.0/1.0.1/server/jar"),
            descriptor: text("(Version: 1.21, Loader: 2.0, Installer: 1.0.1)"),
        })
    );
    assert_eq!(
        fabric::get_download_link(&manifest, None, None, None, false, true),
        Ok(ResolvedRelease {
            url: text(
                "https://meta.fabricmc.net/v2/versions/loader/1.21/1.9/1.1.0-beta/server/jar"
            ),
            descriptor: text("(Version: 1.21, Loader: 1.9, Installer: 1.1.0-beta)"),
        })
    );
}

#[test]
fn loader_manifest_game_version_is_always_stable() {
    let manifest = loader_manifest();
    let release = fabric::get_download_link(&manifest, some(""), some(""), some(""), true, true);
    assert_eq!(
        release,
        Ok(ResolvedRelease {
            url: text(
                "https://meta.fabricmc.net/v2/versions/loader/1.21/2.0/1.1.0-beta/server/jar"
            ),
            descriptor: text("(Version: 1.21, Loader: 2.0, Installer: 1.1.0-beta)"),
        })
    );
}

#[test]
fn loader_manifest_requested_values() {
    let manifest = loader_manifest();
    assert_eq!(
        fabric::get_download_link(
            &manifest,
            some("1.20.6"),
            some("1.8"),
            some("1.0.0"),
            false,
            false,
        ),
        Ok(ResolvedRelease {
            url: text("https://meta.fabricmc.net/v2/versions/loader/1.20.6/1.8/1.0.0/server/jar"),
            descriptor: text("(Version: 1.20.6, Loader: 1.8, Installer: 1.0.0)"),
        })
    );
}

#[test]
fn loader_manifest_values_beyond_latest() {
    let manifest = loader_manifest();
    assert_eq!(
        fabric::get_download_link(&manifest, some("1.22"), some("9"), some("9"), false, false),
        Err(not_found(Axis::Game, "1.22", "1.21"))
    );
    assert_eq!(
        fabric::get_download_link(&manifest, None, some("2.0"), some("9"), false, false),
        Err(not_found(Axis::Loader, "2.0", "1.9"))
    );
    assert_eq!(
        fabric::get_download_link(&manifest, None, None, some("1.0.2"), false, false),
        Err(not_found(Axis::Installer, "1.0.2", "1.0.1"))
    );
    assert_eq!(
        fabric::get_download_link(&manifest, some("1.9"), None, None, false, false),
        Err(not_found(Axis::Game, "1.9", "1.21"))
    );
}

#[test]
fn loader_manifest_axis_without_usable_entry() {
    let mut manifest = loader_manifest();
    manifest.installer = vec![entry("1.1.0-beta", false)];
    assert_eq!(
        fabric::get_download_link(&manifest, None, None, None, false, false),
        Err(failed("Installer version list has no usable entry"))
    );
    manifest.loader = vec![];
    assert_eq!(
        fabric::get_download_link(&manifest, None, None, None, true, true),
        Err(failed("Loader version list has no usable entry"))
    );
    manifest.game = vec![entry("1.21.1-rc1", false)];
    assert_eq!(
        fabric::get_download_link(&manifest, some("1.21"), None, None, true, true),
        Err(failed("Minecraft version list has no usable entry"))
    );
    assert_eq!(fabric::latest_entry(&manifest.game, false), None);
    assert_eq!(fabric::latest_entry(&manifest.loader, true), None);
}

#[test]
fn loader_manifest_through_the_resolver() {
    let request = fabric_request("", "", "");
    let (fetches, outcome) =
        resolve_with(&request, vec![Ok(Document::FabricManifest(loader_manifest()))]);
    assert_eq!(
        fetches,
        vec![Fetch { url: text(FABRIC_MANIFEST_URL), kind: DocumentKind::FabricManifest }]
    );
    assert_eq!(FABRIC_MANIFEST_URL, "https://meta.fabricmc.net/v2/versions");
    assert_eq!(
        outcome,
        Ok(ResolvedRelease {
            url: text("https://meta.fabricmc.net/v2/versions/loader/1.21/1.9/1.0.1/server/jar"),
            descriptor: text("(Version: 1.21, Loader: 1.9, Installer: 1.0.1)"),
        })
    );
}

#[test]
fn loader_manifest_locations() {
    assert_eq!(
        fabric::server_jar_location("a", "b", "c"),
        "https://meta.fabricmc.net/v2/versions/loader/a/b/c/server/jar"
    );
    assert_eq!(fabric::describe("a", "b", "c"), "(Version: a, Loader: b, Installer: c)");
}

#[test]
fn missing_document_fails_with_the_reason() {
    for request in [vanilla_request("", false), paper_request("", None), fabric_request("", "", "")] {
        let (fetches, outcome) = resolve_with(&request, vec![Err(text("connection refused"))]);
        assert_eq!(fetches.len(), 1);
        assert_eq!(outcome, Err(failed("connection refused")));
    }
    let (stage, action) = advance(
        &vanilla_request("", false),
        Stage::VanillaArtifact { id: text("1.21") },
        Err(text("expected value at line 1 column 1")),
    );
    assert_eq!(stage, Stage::Finished);
    assert_eq!(action, Action::Failed(failed("expected value at line 1 column 1")));
}

#[test]
fn unexpected_document_fails() {
    let unexpected = Action::Failed(failed("Unexpected document"));
    let builds = || Ok(Document::PaperVersion(PaperVersion { builds: vec![1] }));
    let (stage, action) = advance(&vanilla_request("", false), Stage::Manifest, builds());
    assert_eq!((stage, action), (Stage::Finished, unexpected.clone()));
    let (stage, action) = advance(&fabric_request("", "", ""), Stage::Manifest, builds());
    assert_eq!((stage, action), (Stage::Finished, unexpected.clone()));
    let (stage, action) = advance(&paper_request("", None), Stage::Manifest, builds());
    assert_eq!((stage, action), (Stage::Finished, unexpected.clone()));
    let (stage, action) = advance(
        &vanilla_request("", false),
        Stage::PaperBuilds { latest_version: text("1.21") },
        builds(),
    );
    assert_eq!((stage, action), (Stage::Finished, unexpected.clone()));
    let (stage, action) = advance(
        &paper_request("", None),
        Stage::PaperBuild { version: text("1.21"), build: 1 },
        builds(),
    );
    assert_eq!((stage, action), (Stage::Finished, unexpected.clone()));
    let (stage, action) = advance(&paper_request("", None), Stage::Finished, builds());
    assert_eq!((stage, action), (Stage::Finished, unexpected));
}

#[test]
fn first_fetch_is_the_manifest_of_the_provider() {
    let (stage, fetch) = start(&vanilla_request("1.21", true));
    assert_eq!(stage, Stage::Manifest);
    assert_eq!(
        fetch,
        Fetch {
            url: text("https://piston-meta.mojang.com/mc/game/version_manifest_v2.json"),
            kind: DocumentKind::VanillaManifest,
        }
    );
    let (_, fetch) = start(&paper_request("1.21", Some(3)));
    assert_eq!(fetch.kind, DocumentKind::PaperManifest);
    let (_, fetch) = start(&fabric_request("1.21", "", ""));
    assert_eq!(fetch.kind, DocumentKind::FabricManifest);
}

#[test]
fn messages_name_requested_and_latest() {
    assert_eq!(
        ResolutionError::VersionNotFound { requested: text("1.22"), latest: text("1.21") }
            .message(),
        "Minecraft version 1.22 not found. Latest is 1.21"
    );
    assert_eq!(
        not_found(Axis::Version, "1.22", "1.21").message(),
        "Version 1.22 not found. Latest is 1.21"
    );
    assert_eq!(
        not_found(Axis::Build, "102", "101").message(),
        "Build 102 not found. Latest is 101"
    );
    assert_eq!(
        not_found(Axis::Game, "1.22", "1.21").message(),
        "Minecraft version 1.22 not found. Latest is 1.21"
    );
    assert_eq!(
        not_found(Axis::Loader, "2.0", "1.9").message(),
        "Loader version 2.0 not found. Latest is 1.9"
    );
    assert_eq!(
        not_found(Axis::Installer, "2.0", "1.0.1").message(),
        "Installer version 2.0 not found. Latest is 1.0.1"
    );
    assert_eq!(failed("connection refused").message(), "connection refused");
}

#[test]
fn command_names() {
    assert_eq!(vanilla_request("", false).to_string(), "Vanilla");
    assert_eq!(paper_request("", None).to_string(), "Paper");
    assert_eq!(fabric_request("", "", "").to_string(), "Fabric");
}

#[test]
fn command_licence_flag() {
    assert!(!vanilla_request("", false).eula_accepted());
    assert!(paper_request("", None).eula_accepted());
    assert!(!fabric_request("", "", "").eula_accepted());
    let accepted = ServerCommand::Fabric {
        version: text(""),
        loader: text(""),
        installer: text(""),
        unstable_loader: true,
        unstable_installer: true,
        eula: true,
    };
    assert!(accepted.eula_accepted());
}

#[test]
fn success_message_names_server_and_release() {
    assert_eq!(
        vanilla_request("", false).success_message("(1.21)"),
        "Successfully initialized Vanilla (1.21) server!"
    );
    assert_eq!(
        paper_request("", None).success_message("(Version: 1.21, Build: 101)"),
        "Successfully initialized Paper (Version: 1.21, Build: 101) server!"
    );
    assert_eq!(
        fabric_request("", "", "").success_message(""),
        "Successfully initialized Fabric  server!"
    );
}
