use aur_helper::errors::{OpError, Stage};
use aur_helper::pipeline::{
    Action, InstallPipeline, OpKind, PackageMetadata, PipeStage, StageEvent, build_outcome,
    finish_search, finish_uninstall, required_operation, select_with_status, start_install,
    start_search, start_uninstall, subprocess_outcome, validate_archive_content_type,
    validate_metadata_content_type,
};
use aur_helper::state::AppState;

fn meta(name: &str, urlpath: &str) -> PackageMetadata {
    PackageMetadata {
        name: name.to_string(),
        version: "1.0".to_string(),
        description: "a package".to_string(),
        urlpath: urlpath.to_string(),
    }
}

/// Drive a fresh install of `pkg` up to (but not including) the event for
/// `until`, answering every earlier stage with success.
fn drive(st: &mut AppState, pkg: &str, until: PipeStage) -> InstallPipeline {
    let (mut p, a) = start_install(st, pkg).expect("start must succeed on an idle state");
    assert!(matches!(a, Action::FetchMetadata { .. }));
    if until == PipeStage::MetadataFetch {
        return p;
    }
    let a = p.step(st, StageEvent::MetadataFetched(Ok(meta(pkg, "/cgit/x.tar.gz"))));
    assert!(matches!(a, Some(Action::DownloadAndExtract { .. })));
    if until == PipeStage::Download {
        return p;
    }
    let a = p.step(st, StageEvent::Downloaded(Ok(())));
    assert!(matches!(a, Some(Action::RunBuild { .. })));
    if until == PipeStage::Build {
        return p;
    }
    let a = p.step(st, StageEvent::Built(Ok(())));
    assert!(matches!(a, Some(Action::ListArtifacts { .. })));
    if until == PipeStage::Locate {
        return p;
    }
    let entries = vec![format!("{}-1.0-x86_64.pkg.tar.zst", pkg)];
    let a = p.step(st, StageEvent::ArtifactsListed(Ok(entries)));
    assert!(matches!(a, Some(Action::RunInstall { .. })));
    p
}

#[test]
fn full_install_succeeds() {
    let mut st = AppState::new();
    let mut p = drive(&mut st, "foo", PipeStage::Install);
    let a = p.step(&mut st, StageEvent::Installed(Ok(())));
    assert!(a.is_none());
    assert_eq!(p.stage, PipeStage::Done);
    assert!(!st.is_running);
    assert!(st.error.is_none());
    assert!(st.progress.is_none());
    assert_eq!(st.log, vec!["Install completed."]);
}

#[test]
fn install_computes_addresses_and_paths() {
    let mut st = AppState::new();
    let (mut p, a) = start_install(&mut st, "foo").unwrap();
    match a {
        Action::FetchMetadata { package, url } => {
            assert_eq!(package, "foo");
            assert_eq!(url, "https://aur.archlinux.org/rpc/?v=5&type=info&arg=foo");
        }
        _ => panic!("expected a metadata fetch"),
    }
    let a = p.step(&mut st, StageEvent::MetadataFetched(Ok(meta("foo", "/cgit/foo.tar.gz"))));
    match a {
        Some(Action::DownloadAndExtract { url, dest }) => {
            assert_eq!(url, "https://aur.archlinux.org/cgit/foo.tar.gz");
            assert_eq!(dest, "/tmp/foo");
        }
        _ => panic!("expected a download"),
    }
    let a = p.step(&mut st, StageEvent::Downloaded(Ok(())));
    match a {
        Some(Action::RunBuild { dir }) => assert_eq!(dir, "/tmp/foo"),
        _ => panic!("expected a build"),
    }
    let a = p.step(&mut st, StageEvent::Built(Ok(())));
    match a {
        Some(Action::ListArtifacts { dir }) => assert_eq!(dir, "/tmp/foo"),
        _ => panic!("expected an artifact lookup"),
    }
    let entries = vec!["foo-1.0-x86_64.pkg.tar.zst".to_string()];
    let a = p.step(&mut st, StageEvent::ArtifactsListed(Ok(entries)));
    match a {
        Some(Action::RunInstall { artifact }) => {
            assert_eq!(artifact, "/tmp/foo/foo-1.0-x86_64.pkg.tar.zst");
        }
        _ => panic!("expected an install"),
    }
}

#[test]
fn start_while_busy_is_rejected_without_mutation() {
    let mut st = AppState::new();
    let _p = drive(&mut st, "foo", PipeStage::Download);
    let before = st.snapshot();
    assert!(matches!(start_install(&mut st, "bar"), Err(OpError::AlreadyBusy)));
    assert!(matches!(start_uninstall(&mut st, "bar"), Err(OpError::AlreadyBusy)));
    assert!(matches!(start_search(&mut st, "bar"), Err(OpError::AlreadyBusy)));
    assert_eq!(st.is_running, before.is_running);
    assert_eq!(st.progress, before.progress);
    assert_eq!(st.log, before.log);
    assert_eq!(st.search_results, before.search_results);
    assert_eq!(st.selected_package, before.selected_package);
    assert!(st.error.is_none());
}

#[test]
fn metadata_failure_is_tagged_metadata_fetch() {
    let mut st = AppState::new();
    let mut p = drive(&mut st, "foo", PipeStage::MetadataFetch);
    let a = p.step(&mut st, StageEvent::MetadataFetched(Err(OpError::NotFound)));
    assert!(a.is_none());
    assert_eq!(p.stage, PipeStage::Failed);
    assert!(!st.is_running);
    let e = st.error.as_ref().unwrap();
    assert!(matches!(e.stage, Stage::MetadataFetch));
    assert!(matches!(e.kind, OpError::NotFound));
}

#[test]
fn download_failure_is_tagged_download() {
    let mut st = AppState::new();
    let mut p = drive(&mut st, "foo", PipeStage::Download);
    let a = p.step(&mut st, StageEvent::Downloaded(Err(OpError::UnexpectedContentType)));
    assert!(a.is_none());
    assert_eq!(p.stage, PipeStage::Failed);
    let e = st.error.as_ref().unwrap();
    assert!(matches!(e.stage, Stage::Download));
    assert!(matches!(e.kind, OpError::UnexpectedContentType));
}

#[test]
fn build_failure_is_tagged_build_and_never_installs() {
    let mut st = AppState::new();
    let mut p = drive(&mut st, "foo", PipeStage::Build);
    let a = p.step(
        &mut st,
        StageEvent::Built(Err(OpError::BuildFailed { stderr: "boom".to_string() })),
    );
    assert!(a.is_none(), "no later stage may be asked for");
    assert_eq!(p.stage, PipeStage::Failed);
    let e = st.error.as_ref().unwrap();
    assert!(matches!(e.stage, Stage::Build));
    match &e.kind {
        OpError::BuildFailed { stderr } => assert_eq!(stderr, "boom"),
        other => panic!("wrong error kind: {:?}", other),
    }
}

#[test]
fn install_failure_is_tagged_install() {
    let mut st = AppState::new();
    let mut p = drive(&mut st, "foo", PipeStage::Install);
    let a = p.step(
        &mut st,
        StageEvent::Installed(Err(OpError::SubprocessError {
            exit_code: 1,
            stderr: "denied".to_string(),
        })),
    );
    assert!(a.is_none());
    let e = st.error.as_ref().unwrap();
    assert!(matches!(e.stage, Stage::Install));
    match &e.kind {
        OpError::SubprocessError { exit_code, stderr } => {
            assert_eq!(*exit_code, 1);
            assert_eq!(stderr, "denied");
        }
        other => panic!("wrong error kind: {:?}", other),
    }
}

#[test]
fn missing_artifact_is_its_own_error() {
    let mut st = AppState::new();
    let mut p = drive(&mut st, "foo", PipeStage::Locate);
    let entries = vec!["README".to_string(), "foo-1.0.tar.gz".to_string()];
    let a = p.step(&mut st, StageEvent::ArtifactsListed(Ok(entries)));
    assert!(a.is_none());
    assert_eq!(p.stage, PipeStage::Failed);
    let e = st.error.as_ref().unwrap();
    assert!(matches!(e.kind, OpError::ArtifactNotFound));
}

#[test]
fn uninstall_succeeds() {
    let mut st = AppState::new();
    let a = start_uninstall(&mut st, "foo").unwrap();
    match a {
        Action::RunUninstall { package } => assert_eq!(package, "foo"),
        _ => panic!("expected an uninstall"),
    }
    assert!(st.is_running);
    finish_uninstall(&mut st, Ok(()));
    assert!(!st.is_running);
    assert!(st.error.is_none());
    assert_eq!(st.log, vec!["Uninstall completed."]);
}

#[test]
fn uninstall_failure_is_tagged_uninstall() {
    let mut st = AppState::new();
    start_uninstall(&mut st, "foo").unwrap();
    finish_uninstall(
        &mut st,
        Err(OpError::SubprocessError { exit_code: 2, stderr: "no such package".to_string() }),
    );
    assert!(!st.is_running);
    let e = st.error.as_ref().unwrap();
    assert!(matches!(e.stage, Stage::Uninstall));
    assert_eq!(st.log, vec!["Uninstall failed."]);
}

#[test]
fn search_success_replaces_results_and_logs() {
    let mut st = AppState::new();
    let a = start_search(&mut st, "foo").unwrap();
    match a {
        Action::QueryIndex { url } => {
            assert_eq!(url, "https://aur.archlinux.org/rpc/?v=5&type=search&arg=foo");
        }
        _ => panic!("expected an index query"),
    }
    assert!(st.is_running);
    assert_eq!(st.progress.as_deref(), Some("Searching..."));
    finish_search(&mut st, Ok(vec!["foo".to_string(), "foo-git".to_string()]));
    assert!(!st.is_running);
    assert_eq!(st.search_results, vec!["foo", "foo-git"]);
    assert_eq!(st.log, vec!["Search completed."]);
}

#[test]
fn search_failure_keeps_results_and_tags_search() {
    let mut st = AppState::new();
    st.add_search_results(vec!["old".to_string()]);
    start_search(&mut st, "foo").unwrap();
    finish_search(&mut st, Err(OpError::TransportError));
    assert_eq!(st.search_results, vec!["old"]);
    let e = st.error.as_ref().unwrap();
    assert!(matches!(e.stage, Stage::Search));
    assert!(matches!(e.kind, OpError::TransportError));
    assert_eq!(st.log, vec!["Search failed."]);
}

#[test]
fn selection_notes_installation_status() {
    let mut st = AppState::new();
    st.log("kept");
    select_with_status(&mut st, "foo".to_string(), true);
    assert_eq!(st.selected_package.as_deref(), Some("foo"));
    assert_eq!(st.progress.as_deref(), Some("Package is already installed."));
    select_with_status(&mut st, "foo".to_string(), true);
    assert_eq!(st.selected_package.as_deref(), Some("foo"));
    assert_eq!(st.progress.as_deref(), Some("Package is already installed."));
    assert_eq!(st.log, vec!["kept"]);
    assert!(!st.is_running);
    select_with_status(&mut st, "bar".to_string(), false);
    assert_eq!(st.selected_package.as_deref(), Some("bar"));
    assert!(st.progress.is_none());
}

#[test]
fn required_operation_follows_installation_state() {
    assert_eq!(required_operation(true), OpKind::Uninstall);
    assert_eq!(required_operation(false), OpKind::Install);
}

#[test]
fn metadata_content_type_must_be_json() {
    assert!(validate_metadata_content_type(Some("application/json; charset=utf-8")).is_ok());
    assert!(matches!(
        validate_metadata_content_type(Some("text/html")),
        Err(OpError::MalformedResponse)
    ));
    assert!(matches!(validate_metadata_content_type(None), Err(OpError::MalformedResponse)));
}

#[test]
fn archive_content_type_must_be_gzip() {
    assert!(validate_archive_content_type(Some("application/x-gzip")).is_ok());
    assert!(matches!(
        validate_archive_content_type(Some("application/json")),
        Err(OpError::UnexpectedContentType)
    ));
    assert!(matches!(validate_archive_content_type(None), Err(OpError::UnexpectedContentType)));
}

#[test]
fn build_and_subprocess_outcomes() {
    assert!(build_outcome(true, String::new()).is_ok());
    match build_outcome(false, "make: error".to_string()) {
        Err(OpError::BuildFailed { stderr }) => assert_eq!(stderr, "make: error"),
        other => panic!("wrong outcome: {:?}", other),
    }
    assert!(subprocess_outcome(true, 0, String::new()).is_ok());
    match subprocess_outcome(false, 3, "refused".to_string()) {
        Err(OpError::SubprocessError { exit_code, stderr }) => {
            assert_eq!(exit_code, 3);
            assert_eq!(stderr, "refused");
        }
        other => panic!("wrong outcome: {:?}", other),
    }
}

/// The full scenario: search, select, confirm not installed, install, fail
/// the build, and observe the final snapshot.
#[test]
fn build_failure_scenario_end_to_end() {
    let mut st = AppState::new();

    start_search(&mut st, "foo").unwrap();
    finish_search(&mut st, Ok(vec!["foo".to_string(), "foo-git".to_string()]));
    assert_eq!(st.search_results, vec!["foo", "foo-git"]);

    st.select_package(Some("foo-git".to_string()));
    let installed = false;
    assert_eq!(required_operation(installed), OpKind::Install);

    let log_before = st.log.len();
    let (mut p, _) = start_install(&mut st, "foo-git").unwrap();
    p.step(&mut st, StageEvent::MetadataFetched(Ok(meta("foo-git", "/cgit/foo-git.tar.gz"))));
    p.step(&mut st, StageEvent::Downloaded(Ok(())));
    let a = p.step(
        &mut st,
        StageEvent::Built(Err(OpError::BuildFailed {
            stderr: "make: *** no target".to_string(),
        })),
    );
    assert!(a.is_none());

    let snap = st.snapshot();
    assert!(!snap.is_running);
    let e = snap.error.as_ref().unwrap();
    assert!(matches!(e.stage, Stage::Build));
    match &e.kind {
        OpError::BuildFailed { stderr } => assert_eq!(stderr, "make: *** no target"),
        other => panic!("wrong error kind: {:?}", other),
    }
    assert_eq!(snap.log.len(), log_before + 1, "exactly one new log entry");
    assert_eq!(snap.log.last().map(String::as_str), Some("Install failed."));
}
