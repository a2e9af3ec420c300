//! Creating a workspace, step by step: the caller looks at and changes the
//! file system as each action asks and reports what it found; the steps and
//! the verdicts are taken here.

use vstd::prelude::*;

use crate::path::FsPath;
use crate::workspace::{
    deepest_existing_up,
    enclosing_verdict,
    emptiness_verdict,
    get_deepest_existing_part_of,
    located,
    skeleton_names,
    Workspace,
    WorkspaceError,
};

verus! {

/// Where a creation stands.
#[derive(Debug, Clone, Copy, PartialEq, Eq, Structural)]
pub enum CreationStage {
    /// Waiting to learn which of the target and the paths above it exist.
    Probing,
    /// Waiting for the canonical form of the deepest existing part.
    Resolving,
    /// Waiting to learn which directories above that part hold a marker.
    Locating,
    /// Waiting for the target to be made and its entries counted.
    Making,
    /// Waiting for the marker file and the skeleton to be written.
    Populating,
    /// The workspace exists.
    Done,
    /// The creation was refused.
    Failed,
}

/// What the caller reports back.
#[derive(Debug)]
pub enum CreationEvent {
    /// For each path asked about, nearest first, whether it exists.
    Existing(Vec<bool>),
    /// The canonical form of the path asked about, which is a directory.
    Resolved(FsPath),
    /// For each marker file asked about, nearest first, whether it exists.
    Markers(Vec<bool>),
    /// The target now exists: its canonical form and how many entries it
    /// holds.
    Made(FsPath, usize),
    /// The marker file and the directories were written.
    Populated,
}

/// What the caller is to do next.
#[derive(Debug)]
pub enum CreationAction {
    /// Find out which of these paths exist.
    ProbeExisting(Vec<FsPath>),
    /// Find the canonical form of this path and check it is a directory.
    Resolve(FsPath),
    /// Find out which of these marker files exist.
    ProbeMarkers(Vec<FsPath>),
    /// Make this directory and its parents, then count its entries.
    MakeTarget(FsPath),
    /// Write this empty marker file, then make these directories.
    Populate(FsPath, Vec<FsPath>),
    /// Nothing more: the workspace exists.
    Finished,
    /// Stop: the creation is refused.
    Fail(WorkspaceError),
    /// Nothing: the report does not fit where the creation stands.
    Ignore,
}

/// The marker files of `dir` and of each directory above it, nearest first.
pub open spec fn marker_files_of(dir: FsPath, r: Seq<FsPath>) -> bool {
    &&& r.len() == dir.depth() + 1
    &&& forall|i: int|
        0 <= i < r.len() ==> (#[trigger] r[i]).absolute == dir.absolute && r[i].names()
            == dir.names().take(dir.depth() - i).push(".lean.yaml"@)
}

/// `r` lists the skeleton directories of a workspace rooted at `base`.
pub open spec fn skeleton_of(base: FsPath, r: Seq<FsPath>) -> bool {
    &&& r.len() == skeleton_names().len()
    &&& forall|i: int|
        0 <= i < r.len() ==> (#[trigger] r[i]).absolute == base.absolute && r[i].names()
            == base.names() + skeleton_names()[i]
}

fn copy_path(p: &FsPath) -> (r: FsPath)
    ensures
        r.absolute == p.absolute,
        r.names() == p.names(),
{
    let r = p.ancestor(0);
    assert(p.names().take(p.depth() as int) =~= p.names());
    r
}

fn marker_files(dir: &FsPath) -> (r: Vec<FsPath>)
    ensures
        marker_files_of(*dir, r@),
{
    let dirs = dir.ancestors();
    let mut r: Vec<FsPath> = Vec::new();
    let mut i: usize = 0;
    while i < dirs.len()
        invariant
            dirs@.len() == dir.depth() + 1,
            forall|k: int|
                0 <= k < dirs@.len() ==> (#[trigger] dirs@[k]).absolute == dir.absolute
                    && dirs@[k].names() == dir.names().take(dir.depth() - k),
            i <= dirs@.len(),
            r@.len() == i,
            forall|k: int|
                0 <= k < r@.len() ==> (#[trigger] r@[k]).absolute == dir.absolute && r@[k].names()
                    == dir.names().take(dir.depth() - k).push(".lean.yaml"@),
        decreases dirs@.len() - i,
    {
        r.push(Workspace::marker_file(&dirs[i]));
        i = i + 1;
    }
    r
}

/// The creation of a workspace at `target`.
#[derive(Debug)]
pub struct WorkspaceCreation {
    pub stage: CreationStage,
    pub target: FsPath,
    /// Whether the target existed before anything was made.
    pub target_exists: bool,
    /// The canonical deepest existing part of the target, once resolved.
    pub resolved: FsPath,
    /// The canonical target, once made.
    pub base: FsPath,
}

impl Workspace {
    /// Starts creating a workspace at `target`: first the caller is to find
    /// out which of the target and the paths above it exist.
    pub fn create(target: FsPath) -> (r: (WorkspaceCreation, CreationAction))
        ensures
            r.0.stage is Probing,
            r.0.target == target,
            r.1 matches CreationAction::ProbeExisting(v) && v@.len() == target.depth() + 1
                && forall|i: int|
                0 <= i < v@.len() ==> (#[trigger] v@[i]).absolute == target.absolute
                    && v@[i].names() == target.names().take(target.depth() - i),
    {
        let candidates = target.ancestors();
        let resolved = FsPath { absolute: false, parts: Vec::new() };
        let base = FsPath { absolute: false, parts: Vec::new() };
        (
            WorkspaceCreation {
                stage: CreationStage::Probing,
                target,
                target_exists: false,
                resolved,
                base,
            },
            CreationAction::ProbeExisting(candidates),
        )
    }
}

impl WorkspaceCreation {
    /// The workspace, once the creation is done.
    pub fn workspace(&self) -> (r: Option<Workspace>)
        ensures
            self.stage is Done <==> r is Some,
            r matches Some(w) ==> w.base_dir.absolute == self.base.absolute && w.base_dir.names()
                == self.base.names(),
    {
        match self.stage {
            CreationStage::Done => Some(Workspace { base_dir: copy_path(&self.base) }),
            _ => None,
        }
    }

    /// Takes in what came of the last action and says what to do next.
    pub fn handle(&mut self, event: CreationEvent) -> (r: CreationAction)
        ensures
            final(self).target == old(self).target,
            old(self).stage is Probing ==> match event {
                CreationEvent::Existing(flags) => final(self).stage is Resolving
                    && final(self).target_exists == (flags@.len() > 0 && flags@[0]) && (r matches CreationAction::Resolve(p)
                    && p.absolute == old(self).target.absolute && p.names() == old(
                    self,
                ).target.names().take(
                    old(self).target.depth() - deepest_existing_up(
                        old(self).target.depth(),
                        flags@,
                    ),
                )),
                _ => final(self).stage == old(self).stage && r is Ignore,
            },
            old(self).stage is Resolving ==> match event {
                CreationEvent::Resolved(p) => final(self).stage is Locating && final(self).resolved
                    == p && (r matches CreationAction::ProbeMarkers(v) && marker_files_of(p, v@)),
                _ => final(self).stage == old(self).stage && r is Ignore,
            },
            old(self).stage is Locating ==> match event {
                CreationEvent::Markers(m) => if !old(self).resolved.absolute {
                    final(self).stage is Failed && (r matches CreationAction::Fail(
                        WorkspaceError::InvalidInput,
                    ))
                } else {
                    match enclosing_verdict(
                        old(self).target_exists,
                        located(old(self).resolved.names(), m@) is Some,
                    ) {
                        Ok(_) => final(self).stage is Making && (r matches CreationAction::MakeTarget(
                            p,
                        ) && p.absolute == old(self).target.absolute && p.names() == old(
                            self,
                        ).target.names()),
                        Err(e) => final(self).stage is Failed && (r matches CreationAction::Fail(
                            f,
                        ) && f == e),
                    }
                },
                _ => final(self).stage == old(self).stage && r is Ignore,
            },
            old(self).stage is Making ==> match event {
                CreationEvent::Made(p, entries) => match emptiness_verdict(entries as nat) {
                    Ok(_) => final(self).stage is Populating && final(self).base == p && (r matches CreationAction::Populate(
                        marker,
                        dirs,
                    ) && marker.absolute == p.absolute && marker.names() == p.names().push(
                        ".lean.yaml"@,
                    ) && skeleton_of(p, dirs@)),
                    Err(e) => final(self).stage is Failed && (r matches CreationAction::Fail(f)
                        && f == e),
                },
                _ => final(self).stage == old(self).stage && r is Ignore,
            },
            old(self).stage is Populating ==> match event {
                CreationEvent::Populated => final(self).stage is Done && r is Finished,
                _ => final(self).stage == old(self).stage && r is Ignore,
            },
            old(self).stage is Done || old(self).stage is Failed ==> final(self).stage == old(
                self,
            ).stage && r is Ignore,
            old(self).stage !is Making ==> final(self).base == old(self).base,
    {
        match self.stage {
            CreationStage::Probing => match event {
                CreationEvent::Existing(flags) => {
                    self.target_exists = flags.len() > 0 && flags[0];
                    self.stage = CreationStage::Resolving;
                    CreationAction::Resolve(get_deepest_existing_part_of(&self.target, &flags))
                },
                _ => CreationAction::Ignore,
            },
            CreationStage::Resolving => match event {
                CreationEvent::Resolved(p) => {
                    let markers = marker_files(&p);
                    self.resolved = p;
                    self.stage = CreationStage::Locating;
                    CreationAction::ProbeMarkers(markers)
                },
                _ => CreationAction::Ignore,
            },
            CreationStage::Locating => match event {
                CreationEvent::Markers(m) => {
                    match Workspace::lookup_base_dir(&self.resolved, &m) {
                        Err(WorkspaceError::InvalidInput) => {
                            self.stage = CreationStage::Failed;
                            CreationAction::Fail(WorkspaceError::InvalidInput)
                        },
                        enclosing => match Workspace::check_enclosing(
                            self.target_exists,
                            &enclosing,
                        ) {
                            Ok(()) => {
                                self.stage = CreationStage::Making;
                                CreationAction::MakeTarget(copy_path(&self.target))
                            },
                            Err(e) => {
                                self.stage = CreationStage::Failed;
                                CreationAction::Fail(e)
                            },
                        },
                    }
                },
                _ => CreationAction::Ignore,
            },
            CreationStage::Making => match event {
                CreationEvent::Made(p, entries) => match Workspace::check_empty(entries) {
                    Ok(()) => {
                        let marker = Workspace::marker_file(&p);
                        let dirs = Workspace::skeleton(&p);
                        self.base = p;
                        self.stage = CreationStage::Populating;
                        CreationAction::Populate(marker, dirs)
                    },
                    Err(e) => {
                        self.stage = CreationStage::Failed;
                        CreationAction::Fail(e)
                    },
                },
                _ => CreationAction::Ignore,
            },
            CreationStage::Populating => match event {
                CreationEvent::Populated => {
                    self.stage = CreationStage::Done;
                    CreationAction::Finished
                },
                _ => CreationAction::Ignore,
            },
            _ => CreationAction::Ignore,
        }
    }
}

} // verus!
