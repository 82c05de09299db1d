use download_system::{
    done_status, is_elevated, privilege_event, staging_path, Action, DownloadDoneStatus,
    DownloadTarget, Event, MaterializeError, Materializer, Phase, TargetType,
};

fn file(to: &str, from: &str) -> DownloadTarget {
    DownloadTarget::file(to.to_string(), from.to_string())
}

fn dir(to: &str) -> DownloadTarget {
    DownloadTarget::directory(to.to_string())
}

#[test]
fn staging_path_appends_suffix() {
    assert_eq!(staging_path(&"data/a.bin".to_string()), "data/a.bin.downloading");
    assert_eq!(staging_path(&String::new()), ".downloading");
}

#[test]
fn constructors_are_well_formed() {
    let d = dir("out/d");
    assert_eq!(d.target_type, TargetType::Directory);
    assert!(d.from.is_none());
    assert!(d.is_well_formed());
    let f = file("out/f", "http://example.org/f");
    assert_eq!(f.target_type, TargetType::File);
    assert_eq!(f.from.as_deref(), Some("http://example.org/f"));
    assert!(f.is_well_formed());
    let bare = DownloadTarget { target_type: TargetType::File, to: "x".to_string(), from: None };
    assert!(!bare.is_well_formed());
}

#[test]
fn status_collapses_errors() {
    assert_eq!(done_status(&Ok(())), DownloadDoneStatus::Success);
    for e in [
        MaterializeError::Filesystem,
        MaterializeError::MissingSource,
        MaterializeError::Transport,
        MaterializeError::Ownership,
    ] {
        assert_eq!(done_status(&Err(e)), DownloadDoneStatus::Failed);
    }
}

#[test]
fn elevation_is_root_only() {
    assert!(is_elevated(0));
    assert!(!is_elevated(1));
    assert!(!is_elevated(1000));
    assert!(matches!(privilege_event(), Event::EffectiveUid(_)));
}

#[test]
fn directory_absent_is_created_without_owner_change() {
    let mut m = Materializer::new(dir("out/d"), 1000);
    assert!(matches!(m.action(), Action::CheckExists { path } if path == "out/d"));
    m.step(Event::Exists(false));
    assert!(matches!(m.action(), Action::CreateDir { path } if path == "out/d"));
    m.step(Event::Succeeded);
    assert!(matches!(m.action(), Action::QueryPrivilege));
    m.step(Event::EffectiveUid(1000));
    assert_eq!(m.phase(), Phase::Finished);
    assert_eq!(m.outcome(), Some(Ok(())));
}

#[test]
fn directory_created_as_root_is_handed_to_owner() {
    let mut m = Materializer::new(dir("out/d"), 1000);
    m.step(Event::Exists(false));
    m.step(Event::Succeeded);
    m.step(Event::EffectiveUid(0));
    assert!(matches!(m.action(), Action::SetOwner { path, uid: 1000 } if path == "out/d"));
    m.step(Event::Succeeded);
    assert_eq!(m.outcome(), Some(Ok(())));
}

#[test]
fn directory_owner_change_failure_fails() {
    let mut m = Materializer::new(dir("out/d"), 7);
    m.step(Event::Exists(false));
    m.step(Event::Succeeded);
    m.step(Event::EffectiveUid(0));
    m.step(Event::Failed);
    assert_eq!(m.outcome(), Some(Err(MaterializeError::Ownership)));
}

#[test]
fn directory_creation_failure_fails() {
    let mut m = Materializer::new(dir("out/d"), 7);
    m.step(Event::Exists(false));
    m.step(Event::Failed);
    assert_eq!(m.outcome(), Some(Err(MaterializeError::Filesystem)));
}

#[test]
fn existing_entry_blocks_directory_creation() {
    let mut m = Materializer::new(dir("out/plain_file"), 7);
    m.step(Event::Exists(true));
    assert_eq!(m.outcome(), Some(Ok(())));
    assert!(matches!(m.action(), Action::Finish { result: Ok(()) }));
}

#[test]
fn present_targets_are_left_alone_twice() {
    for target in [dir("out/d"), file("out/f", "http://h/f")] {
        for _ in 0..2 {
            let mut m = Materializer::new(target.clone(), 7);
            m.step(Event::Exists(true));
            assert_eq!(m.outcome(), Some(Ok(())));
            m.step(Event::Failed);
            assert_eq!(m.outcome(), Some(Ok(())));
        }
    }
}

fn fetch_until_privilege(m: &mut Materializer) {
    m.step(Event::Exists(false));
    assert!(matches!(m.action(), Action::CreateDirAll { path } if path == "a/b"));
    m.step(Event::Succeeded);
    assert!(matches!(m.action(), Action::CreateStaging { path } if path == "a/b/c.txt.downloading"));
    m.step(Event::Succeeded);
    assert!(matches!(
        m.action(),
        Action::Fetch { url, staging } if url == "http://h/c" && staging == "a/b/c.txt.downloading"
    ));
    m.step(Event::Succeeded);
    assert!(matches!(m.action(), Action::QueryPrivilege));
}

#[test]
fn file_is_fetched_then_published() {
    let mut m = Materializer::new(file("a/b/c.txt", "http://h/c"), 1000);
    fetch_until_privilege(&mut m);
    m.step(Event::EffectiveUid(500));
    assert!(matches!(
        m.action(),
        Action::Rename { from, to } if from == "a/b/c.txt.downloading" && to == "a/b/c.txt"
    ));
    m.step(Event::Succeeded);
    assert_eq!(m.outcome(), Some(Ok(())));
}

#[test]
fn file_fetched_as_root_is_owned_before_rename() {
    let mut m = Materializer::new(file("a/b/c.txt", "http://h/c"), 1000);
    fetch_until_privilege(&mut m);
    m.step(Event::EffectiveUid(0));
    assert!(matches!(
        m.action(),
        Action::SetOwner { path, uid: 1000 } if path == "a/b/c.txt.downloading"
    ));
    m.step(Event::Succeeded);
    assert!(matches!(m.action(), Action::Rename { .. }));
    m.step(Event::Succeeded);
    assert_eq!(m.outcome(), Some(Ok(())));
}

#[test]
fn interrupted_fetch_never_publishes() {
    let mut m = Materializer::new(file("a/b/c.txt", "http://h/c"), 1000);
    m.step(Event::Exists(false));
    m.step(Event::Succeeded);
    m.step(Event::Succeeded);
    m.step(Event::Failed);
    assert_eq!(m.outcome(), Some(Err(MaterializeError::Transport)));
    m.step(Event::Succeeded);
    assert_eq!(m.outcome(), Some(Err(MaterializeError::Transport)));
    assert!(matches!(m.action(), Action::Finish { result: Err(MaterializeError::Transport) }));
}

#[test]
fn rename_failure_fails() {
    let mut m = Materializer::new(file("a/b/c.txt", "http://h/c"), 1000);
    fetch_until_privilege(&mut m);
    m.step(Event::EffectiveUid(3));
    m.step(Event::Failed);
    assert_eq!(m.outcome(), Some(Err(MaterializeError::Filesystem)));
}

#[test]
fn parent_failure_and_staging_failure_fail() {
    let mut m = Materializer::new(file("a/b/c.txt", "http://h/c"), 1000);
    m.step(Event::Exists(false));
    m.step(Event::Failed);
    assert_eq!(m.outcome(), Some(Err(MaterializeError::Filesystem)));
    let mut m = Materializer::new(file("a/b/c.txt", "http://h/c"), 1000);
    m.step(Event::Exists(false));
    m.step(Event::Succeeded);
    m.step(Event::Failed);
    assert_eq!(m.outcome(), Some(Err(MaterializeError::Filesystem)));
}

#[test]
fn missing_source_is_a_hard_failure() {
    let target = DownloadTarget { target_type: TargetType::File, to: "a/b/c.txt".to_string(), from: None };
    let mut m = Materializer::new(target, 1000);
    m.step(Event::Exists(false));
    assert!(matches!(m.action(), Action::CreateDirAll { path } if path == "a/b"));
    m.step(Event::Succeeded);
    assert_eq!(m.outcome(), Some(Err(MaterializeError::MissingSource)));
}

#[test]
fn path_without_parent_skips_parent_creation() {
    let mut m = Materializer::new(file("", "http://h/c"), 1000);
    m.step(Event::Exists(false));
    assert!(matches!(m.action(), Action::CreateStaging { path } if path == ".downloading"));
}

#[test]
fn unexpected_event_changes_nothing() {
    let mut m = Materializer::new(file("a/b/c.txt", "http://h/c"), 1000);
    m.step(Event::Succeeded);
    assert_eq!(m.phase(), Phase::CheckExists);
    m.step(Event::EffectiveUid(0));
    assert_eq!(m.phase(), Phase::CheckExists);
    m.step(Event::Exists(false));
    m.step(Event::Exists(true));
    assert_eq!(m.phase(), Phase::CreateParents);
}
