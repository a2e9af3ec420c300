//! The file name of a task: a prefix that encodes its lifecycle state,
//! then the slug of its title.

use vstd::prelude::*;

use crate::path::FsPath;
use crate::slug::{normalize, normalized, slug_of, to_snake_case};
use crate::task::{Task, stamp_text, stamp_text_of};
use crate::workspace::Workspace;

verus! {

/// The decimal digit for `d`, which is below ten.
pub open spec fn digit_char(d: int) -> char {
    if d == 0 {
        '0'
    } else if d == 1 {
        '1'
    } else if d == 2 {
        '2'
    } else if d == 3 {
        '3'
    } else if d == 4 {
        '4'
    } else if d == 5 {
        '5'
    } else if d == 6 {
        '6'
    } else if d == 7 {
        '7'
    } else if d == 8 {
        '8'
    } else {
        '9'
    }
}

pub open spec fn is_digit(c: char) -> bool {
    '0' <= c && c <= '9'
}

/// A percentage written with exactly three digits, zero-padded.
pub open spec fn percent_text(p: u8) -> Seq<char> {
    seq![digit_char(p as int / 100), digit_char((p as int / 10) % 10), digit_char(p as int % 10)]
}

/// The lifecycle state of a task, by the first of these that applies:
/// finished, paused, started, not started.
pub enum Status {
    Finished,
    Paused,
    Progressing,
    Unstarted,
}

pub open spec fn status_of(task: Task) -> Status {
    if task.finished_at is Some {
        Status::Finished
    } else if task.paused_at is Some {
        Status::Paused
    } else if task.started_at is Some {
        Status::Progressing
    } else {
        Status::Unstarted
    }
}

/// The prefix of a task's file name, where `stamp` is the text of its
/// finishing time: `X` and that text when finished, else the percentage
/// done and `S` (paused), `P` (started) or `U` (not started).
pub open spec fn prefix_of(task: Task, stamp: Seq<char>) -> Seq<char> {
    match status_of(task) {
        Status::Finished => seq!['X'] + stamp,
        Status::Paused => percent_text(task.done_percent) + seq!['S'],
        Status::Progressing => percent_text(task.done_percent) + seq!['P'],
        Status::Unstarted => percent_text(task.done_percent) + seq!['U'],
    }
}

/// The text of the finishing time of a task, empty when it is not finished.
pub open spec fn finish_stamp(task: Task) -> Seq<char> {
    match task.finished_at {
        Some(t) => stamp_text_of(t.secs as int, t.offset as int),
        None => Seq::empty(),
    }
}

/// The file name of a task.
pub open spec fn file_name_of(task: Task) -> Seq<char> {
    prefix_of(task, finish_stamp(task)) + seq!['_'] + slug_of(normalized(task.title@)) + seq![
        '.',
        'y',
        'a',
        'm',
        'l',
    ]
}

/// The finishing time, if any, can be written out.
pub open spec fn has_printable_finish(task: Task) -> bool {
    task.finished_at matches Some(t) ==> t.wf()
}

/// `X` followed by a time stamp.
pub open spec fn is_finished_prefix(p: Seq<char>) -> bool {
    p.len() > 1 && p[0] == 'X'
}

/// Three digits followed by `kind`.
pub open spec fn is_percent_prefix(p: Seq<char>, kind: char) -> bool {
    p.len() == 4 && is_digit(p[0]) && is_digit(p[1]) && is_digit(p[2]) && p[3] == kind
}

fn digit_str(d: u8) -> (r: &'static str)
    requires
        d < 10,
    ensures
        r@ == seq![digit_char(d as int)],
{
    proof {
        reveal_strlit("0");
        reveal_strlit("1");
        reveal_strlit("2");
        reveal_strlit("3");
        reveal_strlit("4");
        reveal_strlit("5");
        reveal_strlit("6");
        reveal_strlit("7");
        reveal_strlit("8");
        reveal_strlit("9");
    }
    let r = match d {
        0 => "0",
        1 => "1",
        2 => "2",
        3 => "3",
        4 => "4",
        5 => "5",
        6 => "6",
        7 => "7",
        8 => "8",
        _ => "9",
    };
    assert(r@ =~= seq![digit_char(d as int)]);
    r
}

/// A percentage with exactly three digits, zero-padded.
pub fn format_percent(p: u8) -> (r: String)
    ensures
        r@ == percent_text(p),
{
    let mut r = String::from_str(digit_str(p / 100));
    r.append(digit_str((p / 10) % 10));
    r.append(digit_str(p % 10));
    assert(r@ =~= percent_text(p));
    r
}

/// The file-name prefix of `task`, given the text of its finishing time.
pub fn status_prefix(task: &Task, stamp: &str) -> (r: String)
    ensures
        r@ == prefix_of(*task, stamp@),
{
    proof {
        reveal_strlit("X");
        reveal_strlit("S");
        reveal_strlit("P");
        reveal_strlit("U");
    }
    if task.finished_at.is_some() {
        let mut r = String::from_str("X");
        r.append(stamp);
        assert(r@ =~= prefix_of(*task, stamp@));
        r
    } else {
        let mut r = format_percent(task.done_in_percent());
        if task.paused_at.is_some() {
            r.append("S");
        } else if task.started_at.is_some() {
            r.append("P");
        } else {
            r.append("U");
        }
        assert(r@ =~= prefix_of(*task, stamp@));
        r
    }
}

/// Whatever the task and the text of its finishing time, its prefix has
/// exactly one of the shapes `X<time>`, `NNNS`, `NNNP`, `NNNU`, the one
/// its state calls for.
pub proof fn lemma_prefix_shape(task: Task, stamp: Seq<char>)
    requires
        stamp.len() > 0,
    ensures
        ({
            let p = prefix_of(task, stamp);
            &&& is_finished_prefix(p) <==> status_of(task) is Finished
            &&& is_percent_prefix(p, 'S') <==> status_of(task) is Paused
            &&& is_percent_prefix(p, 'P') <==> status_of(task) is Progressing
            &&& is_percent_prefix(p, 'U') <==> status_of(task) is Unstarted
        }),
{
    let p = prefix_of(task, stamp);
    let d = task.done_percent as int;
    assert(is_digit(digit_char(d / 100)));
    assert(is_digit(digit_char((d / 10) % 10)));
    assert(is_digit(digit_char(d % 10)));
    if status_of(task) is Finished {
        assert(p[0] == 'X');
    } else {
        assert(p[0] == digit_char(d / 100));
    }
}

impl Workspace {
    fn get_file_name_prefix(&self, task: &Task) -> (r: String)
        requires
            has_printable_finish(*task),
        ensures
            r@ == prefix_of(*task, finish_stamp(*task)),
    {
        match &task.finished_at {
            Some(t) => {
                let stamp = stamp_text(t);
                status_prefix(task, stamp.as_str())
            },
            None => status_prefix(task, ""),
        }
    }

    /// The file name of `task`: its status prefix, `_`, the slug of its
    /// normalised title and `.yaml`.
    pub fn get_file_name(&self, task: &Task) -> (r: String)
        requires
            has_printable_finish(*task),
        ensures
            r@ == file_name_of(*task),
    {
        let mut r = self.get_file_name_prefix(task);
        let title = normalize(task.title.as_str());
        let slug = to_snake_case(title.as_str());
        r.append("_");
        r.append(slug.as_str());
        r.append(".yaml");
        proof {
            reveal_strlit("_");
            reveal_strlit(".yaml");
            assert(r@ =~= file_name_of(*task));
        }
        r
    }

    /// The directory below `tasks/` that `dir` names (each of its
    /// components in turn).
    pub fn task_dir(&self, dir: &str) -> (r: FsPath)
        ensures
            r.absolute == self.base_dir.absolute,
            r.names() == self.base_dir.names() + seq!["tasks"@] + crate::path::parsed_names(dir@),
    {
        let mut path = self.base_dir.join("tasks");
        let ghost lead = path.names();
        let sub = FsPath::parse(dir);
        let mut i: usize = 0;
        while i < sub.parts.len()
            invariant
                i <= sub.parts@.len(),
                path.absolute == self.base_dir.absolute,
                path.names() == lead + sub.names().take(i as int),
            decreases sub.parts@.len() - i,
        {
            path = path.join(sub.parts[i].as_str());
            proof {
                assert(lead + sub.names().take(i + 1) =~= (lead + sub.names().take(i as int)).push(
                    sub.parts@[i as int]@,
                ));
            }
            i = i + 1;
        }
        proof {
            assert(sub.names().take(sub.parts@.len() as int) =~= sub.names());
            assert(self.base_dir.names().push("tasks"@) =~= self.base_dir.names() + seq![
                "tasks"@,
            ]);
        }
        path
    }

    /// Where `task` is stored: `tasks/` below the workspace root, then the
    /// directories of `dir`, if given, then the task's file name.
    pub fn get_path(&self, dir: &Option<String>, task: &Task) -> (r: FsPath)
        requires
            has_printable_finish(*task),
        ensures
            r.absolute == self.base_dir.absolute,
            r.names() == self.base_dir.names() + seq!["tasks"@] + match dir {
                Some(d) => crate::path::parsed_names(d@),
                None => Seq::empty(),
            } + seq![file_name_of(*task)],
    {
        let path = match dir {
            Some(d) => self.task_dir(d.as_str()),
            None => {
                proof {
                    reveal_strlit("");
                    assert(crate::path::parsed_names(""@) =~= Seq::<Seq<char>>::empty());
                }
                self.task_dir("")
            },
        };
        let name = self.get_file_name(task);
        let r = path.join(name.as_str());
        proof {
            assert(r.names() =~= self.base_dir.names() + seq!["tasks"@] + match dir {
                Some(d) => crate::path::parsed_names(d@),
                None => Seq::empty(),
            } + seq![file_name_of(*task)]);
        }
        r
    }
}

} // verus!
