use lean::path::FsPath;
use lean::workspace::{get_deepest_existing_part_of, Workspace, WorkspaceError};

fn dir(text: &str) -> FsPath {
    FsPath::parse(text)
}

#[test]
fn lookup_base_dir() -> Result<(), String> {
    let missing = dir("/no/lean/workspace");
    if let Ok(_) = Workspace::lookup_base_dir(&missing, &vec![false, false, false, false]) {
        return Err(format!("Error!"));
    }

    // The marker lies in /tmp/ws; the walk starts three levels below it.
    let tmp_dir = dir("/tmp/ws");
    let tmp_dir_a_b_c = dir("/tmp/ws/a/b/c");
    let marked = vec![false, false, false, true, false, false];
    match Workspace::lookup_base_dir(&tmp_dir_a_b_c, &marked) {
        Ok(path) => assert_eq!(tmp_dir, path),
        Err(reason) => return Err(reason.message()),
    };
    match Workspace::lookup_base_dir(&tmp_dir, &vec![true, false, false]) {
        Ok(path) => assert_eq!(tmp_dir, path),
        Err(reason) => return Err(reason.message()),
    };

    Ok(())
}

#[test]
fn lookup_from_any_depth_returns_the_root() {
    let base = dir("/home/me/notes");
    for n in 0..6 {
        let mut text = String::from("/home/me/notes");
        for i in 0..n {
            text.push_str(&format!("/d{}", i));
        }
        let mut marked = vec![false; n];
        marked.push(true);
        marked.push(false);
        let found = Workspace::lookup_base_dir(&dir(&text), &marked).unwrap();
        assert_eq!(base, found);
        assert_eq!("/home/me/notes", found.to_text());
    }
}

#[test]
fn lookup_takes_the_nearest_marker_and_needs_an_absolute_path() {
    let found = Workspace::lookup_base_dir(&dir("/a/b/c"), &vec![false, true, true, false]).unwrap();
    assert_eq!("/a/b", found.to_text());
    assert_eq!(Err(WorkspaceError::InvalidInput), Workspace::lookup_base_dir(&dir("a/b"), &vec![true]));
    assert_eq!(Err(WorkspaceError::NotFound), Workspace::lookup_base_dir(&dir("/a"), &vec![]));
    let ws = Workspace::new(&dir("/a/b"), &vec![false, false, true]).unwrap();
    assert_eq!("/", ws.base_dir.to_text());
}

#[test]
fn create_workspace() {
    // A fresh, empty target outside any workspace is accepted.
    let target = dir("/tmp/fresh");
    let existing = vec![true, true, true];
    let to_check = get_deepest_existing_part_of(&target, &existing);
    assert_eq!(target, to_check);
    let enclosing = Workspace::lookup_base_dir(&to_check, &vec![false, false, false]);
    assert_eq!(Ok(()), Workspace::check_enclosing(true, &enclosing));
    assert_eq!(Ok(()), Workspace::check_empty(0));
    let skeleton: Vec<String> = Workspace::skeleton(&target).iter().map(|p| p.to_text()).collect();
    assert_eq!(
        vec![
            "/tmp/fresh/people",
            "/tmp/fresh/tasks",
            "/tmp/fresh/load",
            "/tmp/fresh/record",
            "/tmp/fresh/views/month",
            "/tmp/fresh/views/quarter",
            "/tmp/fresh/views/half_year",
            "/tmp/fresh/views/year",
        ],
        skeleton
    );
    assert_eq!("/tmp/fresh/.lean.yaml", Workspace::marker_file(&target).to_text());

    // A target that already holds entries is refused.
    assert_eq!(Err(WorkspaceError::NotEmpty), Workspace::check_empty(1));
}

#[test]
fn create_refuses_targets_inside_or_above_a_workspace() {
    // Inside: the existing target lies in a workspace rooted one level up.
    let inside = Workspace::lookup_base_dir(&dir("/w/sub"), &vec![false, true]);
    assert_eq!(Err(WorkspaceError::AlreadyWorkspace), Workspace::check_enclosing(true, &inside));
    // Would nest: the target does not exist, its existing part is a workspace.
    let target = dir("/w/new/deeper");
    let part = get_deepest_existing_part_of(&target, &vec![false, false, true]);
    assert_eq!("/w", part.to_text());
    let enclosing = Workspace::lookup_base_dir(&part, &vec![true]);
    assert_eq!(Err(WorkspaceError::WouldNestWorkspace), Workspace::check_enclosing(false, &enclosing));
    // Above: the target holds a workspace below it, so it is not empty.
    assert_eq!(Err(WorkspaceError::NotEmpty), Workspace::check_empty(3));
}

#[test]
fn deepest_existing_part_of_relative_paths_ends_at_the_current_dir() {
    let part = get_deepest_existing_part_of(&dir("some/rel/path"), &vec![false, false, false]);
    assert_eq!(".", part.to_text());
    let part = get_deepest_existing_part_of(&dir("some/rel/path"), &vec![false, true]);
    assert_eq!("some/rel", part.to_text());
}

#[test]
fn paths_read_and_print() {
    let p = dir("//a/./b//c/");
    assert!(p.absolute);
    assert_eq!(vec!["a", "b", "c"], p.parts);
    assert_eq!("/a/b/c", p.to_text());
    assert_eq!("/a", p.ancestor(2).to_text());
    assert_eq!("/", p.ancestor(3).to_text());
    assert_eq!(".", dir("").to_text());
    assert_eq!(4, p.ancestors().len());
    assert_eq!("/a/b/c/d", p.join("d").to_text());
}

#[test]
fn errors_have_messages() {
    assert_eq!("workspace base dir not found", WorkspaceError::NotFound.message());
    assert_eq!("directory is not empty", WorkspaceError::NotEmpty.message());
}
