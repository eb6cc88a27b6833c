use packtest_runner::artifacts::{
    get_fabric_api_url, get_packtest_url, ArtifactRole, VersionEntry, VersionTable,
    FABRIC_API_1_20_4, PACKTEST_1_20_4,
};
use packtest_runner::layout::{artifact_file, LOG_FILE};
use packtest_runner::outcome::{
    after_exit, after_log, classify_log, evaluate, marker_rules, EvalError, RunOutcome,
};
use packtest_runner::packs::{pack_base_name, pack_copy, pack_sources, plan_pack_copies, PackSource};
use packtest_runner::pipeline::{
    launch_settings, plan_run, step_failure, GameSide, LoaderFlavor, RunError, RunRequest,
};
use packtest_runner::provision::{provision_steps, Step, SERVER_PROPERTIES};
use packtest_runner::text::{contains_text, join_path, same_text, split_text};

fn strings(v: &[&str]) -> Vec<String> {
    v.iter().map(|s| s.to_string()).collect()
}

fn request(version: Option<&str>, packs: &[&str], comma: bool) -> RunRequest {
    RunRequest::new(version.map(|v| v.to_string()), None, None, strings(packs), comma, false)
}

fn source_text(s: &PackSource) -> (bool, String) {
    match s {
        PackSource::Pattern(p) => (false, p.clone()),
        PackSource::Literal(p) => (true, p.clone()),
    }
}

#[test]
fn known_urls_for_default_version() {
    assert_eq!(
        get_packtest_url("1.20.4"),
        Some("https://github.com/misode/packtest/releases/download/v1.3/packtest-1.3-mc1.20.4.jar")
    );
    assert_eq!(
        get_fabric_api_url("1.20.4"),
        Some("https://cdn.modrinth.com/data/P7dR8mSH/versions/JQ07mKWY/fabric-api-0.91.3%2B1.20.4.jar")
    );
    assert_eq!(get_packtest_url("1.19.2"), None);
    assert_eq!(get_fabric_api_url("1.20"), None);
    assert_eq!(get_packtest_url(""), None);
}

#[test]
fn builtin_table_resolves_supported_version() {
    let t = VersionTable::builtin();
    let (a, b) = t.resolve("1.20.4", None, None).unwrap();
    assert_eq!(a.role, ArtifactRole::PackTest);
    assert_eq!(b.role, ArtifactRole::FabricApi);
    assert_eq!(a.url, PACKTEST_1_20_4);
    assert_eq!(b.url, FABRIC_API_1_20_4);
    assert!(!a.url.is_empty() && !b.url.is_empty());
}

#[test]
fn unsupported_version_without_overrides_fails() {
    let t = VersionTable::builtin();
    let e = t.resolve("1.8.9", None, None).unwrap_err();
    assert_eq!(e.role, ArtifactRole::PackTest);
    let e = t.resolve("1.8.9", Some("http://x/p.jar".to_string()), None).unwrap_err();
    assert_eq!(e.role, ArtifactRole::FabricApi);
}

#[test]
fn override_is_used_verbatim() {
    let t = VersionTable::builtin();
    let (a, b) = t
        .resolve("9.9", Some("http://x/p.jar".to_string()), Some("http://y/f.jar".to_string()))
        .unwrap();
    assert_eq!(a.url, "http://x/p.jar");
    assert_eq!(b.url, "http://y/f.jar");
    let (a, _) = t.resolve("1.20.4", Some("".to_string()), None).unwrap();
    assert_eq!(a.url, "");
}

#[test]
fn sentinel_override_uses_table() {
    let t = VersionTable::builtin();
    let (a, b) = t
        .resolve("1.20.4", Some("latest".to_string()), Some("latest".to_string()))
        .unwrap();
    assert_eq!(a.url, PACKTEST_1_20_4);
    assert_eq!(b.url, FABRIC_API_1_20_4);
    let e = t.resolve("2.0", Some("latest".to_string()), None).unwrap_err();
    assert_eq!(e.role, ArtifactRole::PackTest);
}

#[test]
fn custom_table_first_row_wins() {
    let row = |v: &str, p: &str, f: &str| VersionEntry {
        version: v.to_string(),
        packtest_url: p.to_string(),
        fabric_api_url: f.to_string(),
    };
    let t = VersionTable {
        entries: vec![row("1.21", "p1", "f1"), row("1.21", "p2", "f2"), row("1.20", "p3", "f3")],
    };
    assert_eq!(t.lookup("1.21", ArtifactRole::PackTest), Some("p1".to_string()));
    assert_eq!(t.lookup("1.20", ArtifactRole::FabricApi), Some("f3".to_string()));
    assert_eq!(t.lookup("1.2", ArtifactRole::FabricApi), None);
}

#[test]
fn text_helpers() {
    assert!(same_text("abc", "abc"));
    assert!(!same_text("abc", "abd"));
    assert!(!same_text("ab", "abc"));
    assert!(contains_text("xx required tests failed yy", "required tests failed"));
    assert!(!contains_text("required tests faile", "required tests failed"));
    assert!(contains_text("abc", ""));
    assert_eq!(split_text("a,b,c", ','), strings(&["a", "b", "c"]));
    assert_eq!(split_text("", ','), strings(&[""]));
    assert_eq!(split_text(",a,", ','), strings(&["", "a", ""]));
    assert_eq!(split_text("é,ü", ','), strings(&["é", "ü"]));
    assert_eq!(join_path("world/datapacks", "p"), "world/datapacks/p");
}

#[test]
fn comma_list_gives_literal_sources() {
    let s = pack_sources(&strings(&["a,b,c", "ignored"]), true).unwrap();
    let got: Vec<(bool, String)> = s.iter().map(source_text).collect();
    assert_eq!(
        got,
        vec![(true, "a".to_string()), (true, "b".to_string()), (true, "c".to_string())]
    );
}

#[test]
fn comma_list_without_packs_fails() {
    assert!(pack_sources(&Vec::new(), true).is_err());
    assert_eq!(pack_sources(&Vec::new(), false).unwrap().len(), 0);
}

#[test]
fn patterns_are_kept_as_given() {
    let s = pack_sources(&strings(&["packs/*", "a,b"]), false).unwrap();
    let got: Vec<(bool, String)> = s.iter().map(source_text).collect();
    assert_eq!(got, vec![(false, "packs/*".to_string()), (false, "a,b".to_string())]);
}

#[test]
fn base_names() {
    assert_eq!(pack_base_name("packs/my_pack"), Some("my_pack".to_string()));
    assert_eq!(pack_base_name("my_pack"), Some("my_pack".to_string()));
    assert_eq!(pack_base_name("packs/my_pack/"), Some("my_pack".to_string()));
    assert_eq!(pack_base_name("packs/my_pack/."), Some("my_pack".to_string()));
    assert_eq!(pack_base_name("/abs/p//"), Some("p".to_string()));
    assert_eq!(pack_base_name("packs/.."), None);
    assert_eq!(pack_base_name(".."), None);
    assert_eq!(pack_base_name("/"), None);
    assert_eq!(pack_base_name("."), None);
    assert_eq!(pack_base_name(""), None);
}

#[test]
fn base_names_agree_with_std_path() {
    for p in ["a/b", "a/b/", "a/./", "./a", "a/..", "/", ".", "", "x/.//", "..", "a//b"] {
        let expected = std::path::Path::new(p)
            .file_name()
            .map(|n| n.to_string_lossy().into_owned());
        assert_eq!(pack_base_name(p), expected, "path {p:?}");
    }
}

#[test]
fn zero_matches_give_zero_copies() {
    let copies = plan_pack_copies(&Vec::new()).unwrap();
    assert!(copies.is_empty());
}

#[test]
fn matches_are_copied_under_base_name() {
    let copies = plan_pack_copies(&strings(&["packs/one", "packs/two/"])).unwrap();
    assert_eq!(copies.len(), 2);
    assert_eq!(copies[0].source, "packs/one");
    assert_eq!(copies[0].dest, "world/datapacks/one");
    assert_eq!(copies[1].dest, "world/datapacks/two");
}

#[test]
fn path_without_base_name_is_invalid() {
    let e = plan_pack_copies(&strings(&["packs/one", "packs/..", "/"])).unwrap_err();
    assert_eq!(e.path, "packs/..");
    let e = pack_copy("/").unwrap_err();
    assert_eq!(e.path, "/");
    let err = RunError::from_invalid_path(e);
    assert!(matches!(err, RunError::InvalidPackPath { path } if path == "/"));
}

#[test]
fn marker_order() {
    let rules = marker_rules();
    let markers: Vec<&str> = rules.iter().map(|r| r.0).collect();
    assert_eq!(
        markers,
        vec!["required tests failed", "Failed to load test", "All 0 required tests"]
    );
}

#[test]
fn classify_each_marker() {
    assert_eq!(classify_log("[main] 3 required tests failed"), RunOutcome::RequiredTestsFailed);
    assert_eq!(classify_log("Failed to load test foo:bar"), RunOutcome::TestLoadFailure);
    assert_eq!(classify_log("All 0 required tests passed"), RunOutcome::NoTestsFound);
    assert_eq!(classify_log("All 5 required tests passed :)"), RunOutcome::Success);
    assert_eq!(classify_log(""), RunOutcome::Success);
}

#[test]
fn classify_precedence_is_scan_order() {
    let log = "Failed to load test a\n2 required tests failed\n";
    assert_eq!(classify_log(log), RunOutcome::RequiredTestsFailed);
    let log = "All 0 required tests\nFailed to load test a\n";
    assert_eq!(classify_log(log), RunOutcome::TestLoadFailure);
    let log = "All 0 required tests\nrequired tests failed";
    assert_eq!(classify_log(log), RunOutcome::RequiredTestsFailed);
}

#[test]
fn nonzero_exit_ignores_log() {
    assert_eq!(evaluate(false, "All 5 required tests passed"), RunOutcome::NonZeroExit);
    assert_eq!(evaluate(false, "required tests failed"), RunOutcome::NonZeroExit);
    assert_eq!(evaluate(true, "required tests failed"), RunOutcome::RequiredTestsFailed);
    assert_eq!(after_exit(Some(false)), Ok(Some(RunOutcome::NonZeroExit)));
    assert_eq!(after_exit(Some(true)), Ok(None));
    assert_eq!(after_exit(None), Err(EvalError::ProcessWaitFailed));
}

#[test]
fn unreadable_log_is_an_error() {
    assert_eq!(after_log(None), Err(EvalError::LogUnreadable));
    assert_eq!(after_log(Some("ok")), Ok(RunOutcome::Success));
    assert!(matches!(RunError::from_eval(EvalError::LogUnreadable), RunError::LogUnreadable));
}

#[test]
fn outcome_reporting() {
    assert_eq!(RunOutcome::Success.exit_code(), 0);
    assert!(!RunOutcome::Success.is_failure());
    assert_eq!(RunOutcome::Success.fail_reason(), None);
    assert_eq!(RunOutcome::NonZeroExit.fail_reason(), Some("Exit code was non-zero"));
    assert_eq!(RunOutcome::RequiredTestsFailed.fail_reason(), Some("Required tests failed"));
    assert_eq!(RunOutcome::TestLoadFailure.fail_reason(), Some("A test failed to load"));
    assert_eq!(RunOutcome::NoTestsFound.fail_reason(), Some("No tests were found"));
    for o in [
        RunOutcome::NonZeroExit,
        RunOutcome::RequiredTestsFailed,
        RunOutcome::TestLoadFailure,
        RunOutcome::NoTestsFound,
    ] {
        assert!(o.is_failure());
        assert_eq!(o.exit_code(), 1);
    }
}

#[test]
fn provisioning_steps_in_order() {
    let t = VersionTable::builtin();
    let (a, b) = t.resolve("1.20.4", None, None).unwrap();
    let sources = vec![PackSource::Pattern("packs/*".to_string())];
    let steps = provision_steps(&a, &b, &sources);
    assert_eq!(steps.len(), 6);
    assert!(matches!(&steps[0], Step::EnsureDir { path } if path == "mods"));
    assert!(matches!(&steps[1], Step::Download { role: ArtifactRole::PackTest, url, dest }
        if url == PACKTEST_1_20_4 && dest == "mods/packtest.jar"));
    assert!(matches!(&steps[2], Step::Download { role: ArtifactRole::FabricApi, url, dest }
        if url == FABRIC_API_1_20_4 && dest == "mods/fabric_api.jar"));
    assert!(matches!(&steps[3], Step::EnsureDir { path } if path == "world/datapacks"));
    assert!(matches!(&steps[4], Step::CopyPacks { source: PackSource::Pattern(p) } if p == "packs/*"));
    assert!(matches!(&steps[5], Step::WriteFile { path, contents }
        if path == "server.properties" && contents == SERVER_PROPERTIES));
    assert_eq!(artifact_file(ArtifactRole::PackTest), "mods/packtest.jar");
}

#[test]
fn server_properties_are_fixed() {
    let lines: Vec<&str> = SERVER_PROPERTIES.lines().filter(|l| !l.is_empty()).collect();
    assert_eq!(
        lines,
        vec![
            "rcon.port=25575",
            "online-mode=false",
            "broadcast-rcon-to-ops=true",
            "enable-rcon=true",
            "rcon.password=packtest",
            "level-type=minecraft\\:flat",
            "snooper-enabled=false",
            "generate-structures=false",
        ]
    );
}

#[test]
fn step_failures_name_the_step() {
    let e = step_failure(&Step::EnsureDir { path: "mods".to_string() });
    assert!(matches!(e, RunError::DirectoryCreateFailed { path } if path == "mods"));
    let e = step_failure(&Step::Download {
        role: ArtifactRole::FabricApi,
        url: "u".to_string(),
        dest: "d".to_string(),
    });
    assert!(matches!(e, RunError::DownloadFailed { role: ArtifactRole::FabricApi }));
    let e = step_failure(&Step::CopyPacks { source: PackSource::Pattern("[".to_string()) });
    assert!(matches!(e, RunError::PatternFailed { pattern } if pattern == "["));
    let e = step_failure(&Step::WriteFile { path: "p".to_string(), contents: String::new() });
    assert!(matches!(e, RunError::ConfigWriteFailed));
}

#[test]
fn launch_is_headless_fabric_server() {
    let l = launch_settings();
    assert_eq!(l.loader, LoaderFlavor::Fabric);
    assert_eq!(l.side, GameSide::Server);
    assert!(l.accept_eula);
    assert!(!l.show_gui);
    assert!(!l.explicit_jar);
    assert_eq!(l.jvm_args, vec!["-Dpacktest.auto".to_string()]);
}

#[test]
fn request_defaults_version() {
    let r = request(None, &["p"], false);
    assert_eq!(r.version, "1.20.4");
    let r = request(Some("1.21"), &["p"], false);
    assert_eq!(r.version, "1.21");
}

#[test]
fn scenario_single_pack_success() {
    let plan = plan_run(&request(Some("1.20.4"), &["packs/my_pack"], false), &VersionTable::builtin())
        .unwrap();
    assert_eq!(plan.packtest.url, PACKTEST_1_20_4);
    assert_eq!(plan.fabric_api.url, FABRIC_API_1_20_4);
    assert_eq!(plan.log_file, LOG_FILE);
    let copies = plan_pack_copies(&strings(&["packs/my_pack"])).unwrap();
    assert_eq!(copies[0].dest, "world/datapacks/my_pack");
    let outcome = evaluate(true, "[Server thread/INFO]: All 3 required tests passed :)\n");
    assert_eq!(outcome, RunOutcome::Success);
    assert_eq!(outcome.exit_code(), 0);
}

#[test]
fn scenario_no_tests_found() {
    let plan = plan_run(&request(Some("1.20.4"), &["packs/my_pack"], false), &VersionTable::builtin());
    assert!(plan.is_ok());
    let outcome = evaluate(true, "[Server thread/INFO]: All 0 required tests passed :)\n");
    assert_eq!(outcome, RunOutcome::NoTestsFound);
    assert_ne!(outcome.exit_code(), 0);
}

#[test]
fn scenario_comma_separated_packs() {
    let plan = plan_run(&request(None, &["a,b,c"], true), &VersionTable::builtin()).unwrap();
    let got: Vec<(bool, String)> = plan.sources.iter().map(source_text).collect();
    assert_eq!(
        got,
        vec![(true, "a".to_string()), (true, "b".to_string()), (true, "c".to_string())]
    );
    assert_eq!(plan.steps.len(), 8);
    for (k, name) in ["a", "b", "c"].iter().enumerate() {
        assert!(matches!(&plan.steps[4 + k], Step::CopyPacks { source: PackSource::Literal(p) } if p == name));
        let c = pack_copy(name).unwrap();
        assert_eq!(c.dest, format!("world/datapacks/{name}"));
    }
}

#[test]
fn scenario_unsupported_version_aborts() {
    let r = plan_run(&request(Some("1.7.10"), &["packs/*"], false), &VersionTable::builtin());
    assert!(matches!(r, Err(RunError::UnsupportedVersion { role: ArtifactRole::PackTest })));
    let req = RunRequest::new(
        Some("1.7.10".to_string()),
        Some("http://x/p.jar".to_string()),
        Some("http://x/f.jar".to_string()),
        strings(&["packs/*"]),
        false,
        false,
    );
    assert!(plan_run(&req, &VersionTable::builtin()).is_ok());
}

#[test]
fn comma_mode_without_packs_is_refused() {
    let r = plan_run(&request(None, &[], true), &VersionTable::builtin());
    assert!(matches!(r, Err(RunError::MissingPackList)));
}
