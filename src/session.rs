//! The interactive authoring of a task: a draft is handed to an editor,
//! read back and checked; on a failed check the user decides whether to fix
//! it or give up. The caller performs each action and reports what came of
//! it; the decisions are taken here.

use vstd::prelude::*;

use crate::naming::{file_name_of, has_printable_finish};
use crate::path::{FsPath, parsed_names};
use crate::slug::{lowercase, lower_of, trim_spaces, trimmed};
use crate::task::{Task, is_valid_title};
use crate::workspace::Workspace;

verus! {

/// The decision that an answer to a yes/no question gives, once trimmed and
/// lowercased: `y` is yes, `n` is no, anything else none.
pub open spec fn decision_of(lowered: Seq<char>) -> Option<bool> {
    if lowered == seq!['y'] {
        Some(true)
    } else if lowered == seq!['n'] {
        Some(false)
    } else {
        None
    }
}

/// The decision that a line typed at a yes/no question gives.
pub open spec fn answer_of(line: Seq<char>) -> Option<bool> {
    decision_of(lower_of(trimmed(line)))
}

/// The decision an answer gives, from its trimmed and lowercased text.
pub fn decision_from_lowered(lowered: &str) -> (r: Option<bool>)
    ensures
        r == decision_of(lowered@),
{
    if lowered.unicode_len() == 1 {
        let c = lowered.get_char(0);
        if c == 'y' {
            assert(lowered@ =~= seq!['y']);
            return Some(true);
        } else if c == 'n' {
            assert(lowered@ =~= seq!['n']);
            return Some(false);
        }
        assert(lowered@ != seq!['y'] && lowered@ != seq!['n']) by {
            assert(lowered@[0] == c);
        }
    }
    None
}

/// The decision a line typed at a yes/no question gives: `y` or `n` in
/// either case, with whitespace around it; anything else gives none.
pub fn ask_yes_no_answer(line: &str) -> (r: Option<bool>)
    ensures
        r == answer_of(line@),
{
    let trimmed_line = trim_spaces(line);
    let lowered = lowercase(trimmed_line);
    decision_from_lowered(lowered.as_str())
}

/// Where a session stands.
#[derive(Debug, Clone, Copy, PartialEq, Eq, Structural)]
pub enum SessionStage {
    /// The draft is with the editor.
    Editing,
    /// The editor has closed; the draft is to be read back.
    Validating,
    /// The draft failed its check; the user is asked whether to fix it.
    AwaitingDecision,
    /// The task has been stored.
    Published,
    /// The user gave up; nothing was stored.
    Aborted,
}

/// What the caller reports back.
#[derive(Debug)]
pub enum SessionEvent {
    /// The editor has exited.
    EditorClosed,
    /// The draft file was read: the task, or why it is not one.
    Loaded(Result<Task, String>),
    /// The line the user typed at the question.
    Answered(String),
}

/// What the caller is to do next.
#[derive(Debug)]
pub enum SessionAction {
    /// Write the template task to a fresh temporary file and open the
    /// editor on it.
    SeedAndEdit,
    /// Open the editor on the temporary file again, edits kept.
    Edit,
    /// Read the temporary file back as a task.
    ReadBack,
    /// Show the error, then ask whether to fix it (yes by default).
    Ask(String),
    /// Ask the question again, the answer was neither yes nor no.
    AskAgain,
    /// Move the temporary file to this path.
    Publish(FsPath),
    /// Remove the temporary file.
    Discard,
    /// Nothing: the report does not fit where the session stands.
    Ignore,
}

/// The text shown when a task read back cannot be stored.
pub open spec fn rejection_of(task: Task) -> Seq<char> {
    if task.title@.len() == 0 {
        "title is empty"@
    } else if !is_valid_title(task.title@) {
        "title has no characters usable in a file name"@
    } else {
        "finishing time is out of range"@
    }
}

/// An authoring session for a task in the directory `dir` below `tasks/`
/// of `workspace`.
#[derive(Debug)]
pub struct EditingSession {
    pub stage: SessionStage,
    pub workspace: Workspace,
    pub dir: String,
}

impl EditingSession {
    /// A session that starts by handing the template to the editor.
    pub fn start(workspace: Workspace, dir: String) -> (r: (EditingSession, SessionAction))
        ensures
            r.0.stage == SessionStage::Editing,
            r.0.workspace == workspace,
            r.0.dir == dir,
            r.1 is SeedAndEdit,
    {
        (EditingSession { stage: SessionStage::Editing, workspace, dir }, SessionAction::SeedAndEdit)
    }

    /// Whether the session is over, with the task stored or abandoned;
    /// either way the command has succeeded.
    pub fn is_finished(&self) -> (r: bool)
        ensures
            r == (self.stage is Published || self.stage is Aborted),
    {
        match self.stage {
            SessionStage::Published | SessionStage::Aborted => true,
            _ => false,
        }
    }

    /// Takes in what came of the last action and says what to do next.
    pub fn handle(&mut self, event: SessionEvent) -> (r: SessionAction)
        ensures
            final(self).workspace == old(self).workspace,
            final(self).dir == old(self).dir,
            old(self).stage is Editing && event is EditorClosed ==> final(self).stage
                is Validating && r is ReadBack,
            old(self).stage is Validating ==> match event {
                SessionEvent::Loaded(Err(m)) => final(self).stage is AwaitingDecision && (r matches SessionAction::Ask(x) && x@ == m@),
                SessionEvent::Loaded(Ok(t)) => if is_valid_title(t.title@) && has_printable_finish(t) {
                    final(self).stage is Published && (r matches SessionAction::Publish(p) && p.absolute
                        == old(self).workspace.base_dir.absolute && p.names()
                        == old(self).workspace.base_dir.names() + seq!["tasks"@] + parsed_names(
                        old(self).dir@,
                    ) + seq![file_name_of(t)])
                } else {
                    final(self).stage is AwaitingDecision && (r matches SessionAction::Ask(x) && x@
                        == rejection_of(t))
                },
                _ => final(self).stage == old(self).stage && r is Ignore,
            },
            old(self).stage is AwaitingDecision ==> match event {
                SessionEvent::Answered(line) => match answer_of(line@) {
                    Some(true) => final(self).stage is Editing && r is Edit,
                    Some(false) => final(self).stage is Aborted && r is Discard,
                    None => final(self).stage is AwaitingDecision && r is AskAgain,
                },
                _ => final(self).stage == old(self).stage && r is Ignore,
            },
            old(self).stage is Editing && !(event is EditorClosed) ==> final(self).stage
                == old(self).stage && r is Ignore,
            old(self).stage is Published || old(self).stage is Aborted ==> final(self).stage
                == old(self).stage && r is Ignore,
    {
        match self.stage {
            SessionStage::Editing => match event {
                SessionEvent::EditorClosed => {
                    self.stage = SessionStage::Validating;
                    SessionAction::ReadBack
                },
                _ => SessionAction::Ignore,
            },
            SessionStage::Validating => match event {
                SessionEvent::Loaded(Err(m)) => {
                    self.stage = SessionStage::AwaitingDecision;
                    SessionAction::Ask(m)
                },
                SessionEvent::Loaded(Ok(t)) => self.validate(t),
                _ => SessionAction::Ignore,
            },
            SessionStage::AwaitingDecision => match event {
                SessionEvent::Answered(line) => match ask_yes_no_answer(line.as_str()) {
                    Some(true) => {
                        self.stage = SessionStage::Editing;
                        SessionAction::Edit
                    },
                    Some(false) => {
                        self.stage = SessionStage::Aborted;
                        SessionAction::Discard
                    },
                    None => SessionAction::AskAgain,
                },
                _ => SessionAction::Ignore,
            },
            _ => SessionAction::Ignore,
        }
    }

    fn validate(&mut self, t: Task) -> (r: SessionAction)
        requires
            old(self).stage is Validating,
        ensures
            final(self).workspace == old(self).workspace,
            final(self).dir == old(self).dir,
            if is_valid_title(t.title@) && has_printable_finish(t) {
                final(self).stage is Published && (r matches SessionAction::Publish(p) && p.absolute
                    == old(self).workspace.base_dir.absolute && p.names()
                    == old(self).workspace.base_dir.names() + seq!["tasks"@] + parsed_names(
                    old(self).dir@,
                ) + seq![file_name_of(t)])
            } else {
                final(self).stage is AwaitingDecision && (r matches SessionAction::Ask(x) && x@
                    == rejection_of(t))
            },
    {
        let printable = match &t.finished_at {
            Some(f) => f.is_in_range(),
            None => true,
        };
        if t.is_valid() && printable {
            let dir = Some(String::from_str(self.dir.as_str()));
            let path = self.workspace.get_path(&dir, &t);
            self.stage = SessionStage::Published;
            SessionAction::Publish(path)
        } else {
            self.stage = SessionStage::AwaitingDecision;
            let reason = if t.title.as_str().unicode_len() == 0 {
                String::from_str("title is empty")
            } else if !t.is_valid() {
                String::from_str("title has no characters usable in a file name")
            } else {
                String::from_str("finishing time is out of range")
            };
            SessionAction::Ask(reason)
        }
    }
}

} // verus!
