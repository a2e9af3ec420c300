use lean::creation::{CreationAction, CreationEvent, CreationStage};
use lean::path::FsPath;
use lean::workspace::{Workspace, WorkspaceError};

fn texts(paths: &[FsPath]) -> Vec<String> {
    paths.iter().map(|p| p.to_text()).collect()
}

#[test]
fn creating_in_a_fresh_empty_directory_writes_marker_and_skeleton() {
    let (mut c, action) = Workspace::create(FsPath::parse("/tmp/fresh"));
    match action {
        CreationAction::ProbeExisting(paths) => assert_eq!(vec!["/tmp/fresh", "/tmp", "/"], texts(&paths)),
        other => panic!("unexpected {:?}", other),
    }
    match c.handle(CreationEvent::Existing(vec![false, true, true])) {
        CreationAction::Resolve(p) => assert_eq!("/tmp", p.to_text()),
        other => panic!("unexpected {:?}", other),
    }
    assert!(!c.target_exists);
    match c.handle(CreationEvent::Resolved(FsPath::parse("/tmp"))) {
        CreationAction::ProbeMarkers(files) => assert_eq!(vec!["/tmp/.lean.yaml", "/.lean.yaml"], texts(&files)),
        other => panic!("unexpected {:?}", other),
    }
    match c.handle(CreationEvent::Markers(vec![false, false])) {
        CreationAction::MakeTarget(p) => assert_eq!("/tmp/fresh", p.to_text()),
        other => panic!("unexpected {:?}", other),
    }
    match c.handle(CreationEvent::Made(FsPath::parse("/tmp/fresh"), 0)) {
        CreationAction::Populate(marker, dirs) => {
            assert_eq!("/tmp/fresh/.lean.yaml", marker.to_text());
            assert_eq!(8, dirs.len());
            assert_eq!("/tmp/fresh/views/half_year", dirs[6].to_text());
        }
        other => panic!("unexpected {:?}", other),
    }
    assert!(c.workspace().is_none());
    assert!(matches!(c.handle(CreationEvent::Populated), CreationAction::Finished));
    assert_eq!(CreationStage::Done, c.stage);
    assert_eq!("/tmp/fresh", c.workspace().unwrap().base_dir.to_text());
}

fn located_at(target: &str, exists: Vec<bool>, resolved: &str, markers: Vec<bool>) -> CreationAction {
    let (mut c, _) = Workspace::create(FsPath::parse(target));
    c.handle(CreationEvent::Existing(exists));
    c.handle(CreationEvent::Resolved(FsPath::parse(resolved)));
    c.handle(CreationEvent::Markers(markers))
}

#[test]
fn creating_inside_a_workspace_is_refused() {
    let action = located_at("/w/sub", vec![true, true, true], "/w/sub", vec![false, true, false]);
    assert!(matches!(action, CreationAction::Fail(WorkspaceError::AlreadyWorkspace)));
    let action = located_at("/w/new", vec![false, true, true], "/w", vec![true, false]);
    assert!(matches!(action, CreationAction::Fail(WorkspaceError::WouldNestWorkspace)));
}

#[test]
fn creating_above_a_workspace_is_refused() {
    let (mut c, _) = Workspace::create(FsPath::parse("/top"));
    c.handle(CreationEvent::Existing(vec![true, true]));
    c.handle(CreationEvent::Resolved(FsPath::parse("/top")));
    c.handle(CreationEvent::Markers(vec![false, false]));
    let action = c.handle(CreationEvent::Made(FsPath::parse("/top"), 1));
    assert!(matches!(action, CreationAction::Fail(WorkspaceError::NotEmpty)));
    assert_eq!(CreationStage::Failed, c.stage);
    assert!(c.workspace().is_none());
}

#[test]
fn creation_from_a_relative_resolved_path_is_refused() {
    let action = located_at("a", vec![false, true], "a", vec![false]);
    assert!(matches!(action, CreationAction::Fail(WorkspaceError::InvalidInput)));
}
