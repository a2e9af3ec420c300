//! Finding the root of a task tree and deciding whether a new one may be
//! created. The file system is read by the caller; the decisions are here.

use vstd::prelude::*;

use crate::path::FsPath;

verus! {

/// Why a workspace could not be found or created.
#[derive(Debug, Clone, Copy, PartialEq, Eq, Structural)]
pub enum WorkspaceError {
    /// The path handed to the locator does not start at the root.
    InvalidInput,
    /// No directory on the way to the root holds the marker file.
    NotFound,
    /// The target of a creation lies inside an existing workspace.
    AlreadyWorkspace,
    /// The target does not exist yet, but would lie inside a workspace.
    WouldNestWorkspace,
    /// The target of a creation holds entries already.
    NotEmpty,
}

impl WorkspaceError {
    /// Whether the error is about the shape of the workspace tree rather
    /// than about the input.
    pub open spec fn is_topology(self) -> bool {
        !(self is InvalidInput)
    }

    /// The reason shown to the user.
    pub open spec fn text(self) -> Seq<char> {
        match self {
            WorkspaceError::InvalidInput => "path is not absolute"@,
            WorkspaceError::NotFound => "workspace base dir not found"@,
            WorkspaceError::AlreadyWorkspace => "directory is (part of) a workspace"@,
            WorkspaceError::WouldNestWorkspace => "directory would be part of a workspace"@,
            WorkspaceError::NotEmpty => "directory is not empty"@,
        }
    }

    /// The reason shown to the user.
    pub fn message(&self) -> (r: String)
        ensures
            r@ == self.text(),
    {
        let text = match self {
            WorkspaceError::InvalidInput => "path is not absolute",
            WorkspaceError::NotFound => "workspace base dir not found",
            WorkspaceError::AlreadyWorkspace => "directory is (part of) a workspace",
            WorkspaceError::WouldNestWorkspace => "directory would be part of a workspace",
            WorkspaceError::NotEmpty => "directory is not empty",
        };
        String::from_str(text)
    }
}

/// The least `i` with `from <= i <= last` and `i < flags.len()` for which
/// `flags[i]` holds.
pub open spec fn first_set_from(flags: Seq<bool>, from: int, last: int) -> Option<int>
    decreases last + 1 - from,
{
    if from > last || from >= flags.len() || from < 0 {
        None
    } else if flags[from] {
        Some(from)
    } else {
        first_set_from(flags, from + 1, last)
    }
}

/// The directory the locator returns for a path with component `names`,
/// where `marked[i]` says whether the directory `i` levels up holds the
/// marker file: the nearest marked one, if any.
pub open spec fn located(names: Seq<Seq<char>>, marked: Seq<bool>) -> Option<Seq<Seq<char>>> {
    match first_set_from(marked, 0, names.len() as int) {
        Some(up) => Some(names.take(names.len() - up)),
        None => None,
    }
}

/// How many levels above a path its deepest existing part lies, where
/// `existing[i]` says whether the path `i` levels up exists; the root (or
/// `.`) at the top always does.
pub open spec fn deepest_existing_up(depth: nat, existing: Seq<bool>) -> nat {
    match first_set_from(existing, 0, depth as int) {
        Some(up) => up as nat,
        None => depth,
    }
}

/// The verdict on the directory that lies nearest above or at the target of
/// a creation: it must not belong to a workspace.
pub open spec fn enclosing_verdict(target_exists: bool, found: bool) -> Result<(), WorkspaceError> {
    if !found {
        Ok(())
    } else if target_exists {
        Err(WorkspaceError::AlreadyWorkspace)
    } else {
        Err(WorkspaceError::WouldNestWorkspace)
    }
}

/// The verdict on the freshly made target directory: it must be empty.
pub open spec fn emptiness_verdict(entries: nat) -> Result<(), WorkspaceError> {
    if entries == 0 {
        Ok(())
    } else {
        Err(WorkspaceError::NotEmpty)
    }
}

/// The directories below a workspace root, as component names.
pub open spec fn skeleton_names() -> Seq<Seq<Seq<char>>> {
    seq![
        seq!["people"@],
        seq!["tasks"@],
        seq!["load"@],
        seq!["record"@],
        seq!["views"@, "month"@],
        seq!["views"@, "quarter"@],
        seq!["views"@, "half_year"@],
        seq!["views"@, "year"@],
    ]
}

proof fn lemma_first_set_skips(flags: Seq<bool>, from: int, last: int)
    requires
        0 <= from <= last,
        from < flags.len(),
        !flags[from],
    ensures
        first_set_from(flags, from, last) == first_set_from(flags, from + 1, last),
{
}

/// A root of a task tree: the directory that holds the marker file.
#[derive(Debug)]
pub struct Workspace {
    pub base_dir: FsPath,
}

impl Workspace {
    /// The marker file that identifies a workspace root.
    pub const CONFIG_FILE: &'static str = ".lean.yaml";

    /// Walks from `path` towards the root and returns the first directory
    /// that holds the marker file; `marked[i]` says whether the directory
    /// `i` levels above `path` holds it (levels past the end of `marked`
    /// do not). The path must start at the root.
    pub fn lookup_base_dir(path: &FsPath, marked: &Vec<bool>) -> (r: Result<FsPath, WorkspaceError>)
        ensures
            !path.absolute ==> r == Err::<FsPath, WorkspaceError>(WorkspaceError::InvalidInput),
            path.absolute ==> match located(path.names(), marked@) {
                Some(base) => r matches Ok(b) && b.absolute && b.names() == base,
                None => r == Err::<FsPath, WorkspaceError>(WorkspaceError::NotFound),
            },
    {
        if !path.absolute {
            return Err(WorkspaceError::InvalidInput);
        }
        let depth = path.parts.len();
        let mut up: usize = 0;
        while up <= depth && up < marked.len()
            invariant
                path.absolute,
                depth == path.depth(),
                up <= marked@.len(),
                up <= depth + 1,
                first_set_from(marked@, 0, depth as int) == first_set_from(
                    marked@,
                    up as int,
                    depth as int,
                ),
            decreases marked@.len() - up,
        {
            if marked[up] {
                return Ok(path.ancestor(up));
            }
            proof {
                lemma_first_set_skips(marked@, up as int, depth as int);
            }
            up = up + 1;
        }
        Err(WorkspaceError::NotFound)
    }

    /// The workspace that `path` lies in; `marked` as for
    /// `lookup_base_dir`.
    pub fn new(path: &FsPath, marked: &Vec<bool>) -> (r: Result<Workspace, WorkspaceError>)
        ensures
            !path.absolute ==> r == Err::<Workspace, WorkspaceError>(WorkspaceError::InvalidInput),
            path.absolute ==> match located(path.names(), marked@) {
                Some(base) => r matches Ok(w) && w.base_dir.absolute && w.base_dir.names() == base,
                None => r == Err::<Workspace, WorkspaceError>(WorkspaceError::NotFound),
            },
    {
        match Self::lookup_base_dir(path, marked) {
            Ok(base_dir) => Ok(Workspace { base_dir }),
            Err(e) => Err(e),
        }
    }

    /// The marker file of a workspace rooted at `dir`.
    pub fn marker_file(dir: &FsPath) -> (r: FsPath)
        ensures
            r.absolute == dir.absolute,
            r.names() == dir.names().push(".lean.yaml"@),
    {
        dir.join(Self::CONFIG_FILE)
    }

    /// The verdict on the deepest existing part of a creation target:
    /// `enclosing` is what the locator found from there.
    pub fn check_enclosing(target_exists: bool, enclosing: &Result<FsPath, WorkspaceError>) -> (r:
        Result<(), WorkspaceError>)
        ensures
            r == enclosing_verdict(target_exists, enclosing is Ok),
    {
        match enclosing {
            Ok(_) => {
                if target_exists {
                    Err(WorkspaceError::AlreadyWorkspace)
                } else {
                    Err(WorkspaceError::WouldNestWorkspace)
                }
            },
            Err(_) => Ok(()),
        }
    }

    /// The verdict on the created target directory, which holds `entries`
    /// entries.
    pub fn check_empty(entries: usize) -> (r: Result<(), WorkspaceError>)
        ensures
            r == emptiness_verdict(entries as nat),
    {
        if entries == 0 {
            Ok(())
        } else {
            Err(WorkspaceError::NotEmpty)
        }
    }

    /// The directories to create below a new workspace root `base`.
    pub fn skeleton(base: &FsPath) -> (r: Vec<FsPath>)
        ensures
            r@.len() == skeleton_names().len(),
            forall|i: int|
                0 <= i < r@.len() ==> (#[trigger] r@[i]).absolute == base.absolute && r@[i].names()
                    == base.names() + skeleton_names()[i],
    {
        let mut r: Vec<FsPath> = Vec::new();
        r.push(base.join("people"));
        r.push(base.join("tasks"));
        r.push(base.join("load"));
        r.push(base.join("record"));
        let views = base.join("views");
        r.push(views.join("month"));
        r.push(views.join("quarter"));
        r.push(views.join("half_year"));
        r.push(views.join("year"));
        proof {
            let b = base.names();
            assert(b.push("people"@) =~= b + seq!["people"@]);
            assert(b.push("tasks"@) =~= b + seq!["tasks"@]);
            assert(b.push("load"@) =~= b + seq!["load"@]);
            assert(b.push("record"@) =~= b + seq!["record"@]);
            assert(b.push("views"@).push("month"@) =~= b + seq!["views"@, "month"@]);
            assert(b.push("views"@).push("quarter"@) =~= b + seq!["views"@, "quarter"@]);
            assert(b.push("views"@).push("half_year"@) =~= b + seq!["views"@, "half_year"@]);
            assert(b.push("views"@).push("year"@) =~= b + seq!["views"@, "year"@]);
        }
        r
    }
}

/// The deepest part of `path` that exists, where `existing[i]` says whether
/// the path `i` levels up exists (levels past the end of `existing` do
/// not); the root, or `.` for a relative path, stands at the top.
pub fn get_deepest_existing_part_of(path: &FsPath, existing: &Vec<bool>) -> (r: FsPath)
    ensures
        r.absolute == path.absolute,
        r.names() == path.names().take(path.depth() - deepest_existing_up(path.depth(), existing@)),
{
    let depth = path.parts.len();
    let mut up: usize = 0;
    while up <= depth && up < existing.len()
        invariant
            depth == path.depth(),
            up <= existing@.len(),
            up <= depth + 1,
            first_set_from(existing@, 0, depth as int) == first_set_from(
                existing@,
                up as int,
                depth as int,
            ),
        decreases existing@.len() - up,
    {
        if existing[up] {
            return path.ancestor(up);
        }
        proof {
            lemma_first_set_skips(existing@, up as int, depth as int);
        }
        up = up + 1;
    }
    path.ancestor(depth)
}

proof fn lemma_first_set_at(flags: Seq<bool>, from: int, last: int, k: int)
    requires
        0 <= from <= k <= last,
        k < flags.len(),
        flags[k],
        forall|j: int| from <= j < k ==> !flags[j],
    ensures
        first_set_from(flags, from, last) == Some(k),
    decreases k - from,
{
    if from < k {
        lemma_first_set_at(flags, from + 1, last, k);
    }
}

/// Calling the locator from a directory `extra.len()` levels below a
/// workspace root returns that root unchanged, whatever the depth, when
/// no directory in between holds a marker (workspaces do not nest).
pub proof fn lemma_locate_from_descendant(
    base: Seq<Seq<char>>,
    extra: Seq<Seq<char>>,
    marked: Seq<bool>,
)
    requires
        extra.len() < marked.len(),
        marked[extra.len() as int],
        forall|j: int| 0 <= j < extra.len() ==> !marked[j],
    ensures
        located(base + extra, marked) == Some(base),
{
    let names = base + extra;
    lemma_first_set_at(marked, 0, names.len() as int, extra.len() as int);
    assert(names.take(names.len() - extra.len()) =~= base);
}

/// Creating a workspace fails with a topology error when the deepest
/// existing part of the target (`part`, with `marked` saying which of it
/// and the directories above hold a marker) lies inside a workspace, or
/// when the target holds entries once made, as an ancestor of a workspace
/// does; a target outside every workspace that is empty once made is
/// accepted.
pub proof fn lemma_creation_verdicts(
    part: Seq<Seq<char>>,
    marked: Seq<bool>,
    target_exists: bool,
    entries: nat,
)
    ensures
        located(part, marked) is Some ==> (enclosing_verdict(
            target_exists,
            located(part, marked) is Some,
        ) matches Err(e) && e.is_topology()),
        entries > 0 ==> (emptiness_verdict(entries) matches Err(e) && e.is_topology()),
        located(part, marked) is None && entries == 0 ==> enclosing_verdict(
            target_exists,
            located(part, marked) is Some,
        ) is Ok && emptiness_verdict(entries) is Ok,
{
}

} // verus!
