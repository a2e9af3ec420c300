//! File-system paths as plain values: whether the path starts at the root
//! and the names of its components.

use vstd::prelude::*;

verus! {

/// A component is kept unless it is empty or the current directory `.`.
pub open spec fn is_kept_segment(seg: Seq<char>) -> bool {
    seg.len() > 0 && seg != seq!['.']
}

/// `names` with `seg` added when it is kept.
pub open spec fn close_segment(names: Seq<Seq<char>>, seg: Seq<char>) -> Seq<Seq<char>> {
    if is_kept_segment(seg) {
        names.push(seg)
    } else {
        names
    }
}

/// The components that a scan of `s` has finished, and the segment it is in.
pub open spec fn scan_segments(s: Seq<char>) -> (Seq<Seq<char>>, Seq<char>)
    decreases s.len(),
{
    if s.len() == 0 {
        (Seq::empty(), Seq::empty())
    } else {
        let (names, seg) = scan_segments(s.drop_last());
        if s.last() == '/' {
            (close_segment(names, seg), Seq::empty())
        } else {
            (names, seg.push(s.last()))
        }
    }
}

/// The component names of a path text: the pieces between slashes, without
/// empty pieces and `.`.
pub open spec fn parsed_names(s: Seq<char>) -> Seq<Seq<char>> {
    close_segment(scan_segments(s).0, scan_segments(s).1)
}

/// Component names joined by slashes.
pub open spec fn joined(names: Seq<Seq<char>>) -> Seq<char>
    decreases names.len(),
{
    if names.len() == 0 {
        Seq::empty()
    } else if names.len() == 1 {
        names[0]
    } else {
        joined(names.drop_last()) + seq!['/'] + names.last()
    }
}

/// The text of a path: `/` and the joined names when it starts at the root;
/// otherwise the joined names, or `.` when there are none.
pub open spec fn path_text(absolute: bool, names: Seq<Seq<char>>) -> Seq<char> {
    if absolute {
        seq!['/'] + joined(names)
    } else if names.len() == 0 {
        seq!['.']
    } else {
        joined(names)
    }
}

/// A path: from the root when `absolute`, else from the current directory,
/// through the directories named in `parts`.
#[derive(Debug, PartialEq, Eq)]
pub struct FsPath {
    pub absolute: bool,
    pub parts: Vec<String>,
}

impl FsPath {
    /// The component names.
    pub open spec fn names(&self) -> Seq<Seq<char>> {
        self.parts@.map_values(|p: String| p@)
    }

    /// The number of components.
    pub open spec fn depth(&self) -> nat {
        self.parts@.len()
    }

    /// Reads a path text: it starts at the root when its first character is
    /// `/`; its components are the pieces between slashes, without empty
    /// pieces and `.`.
    pub fn parse(text: &str) -> (r: FsPath)
        ensures
            r.absolute == (text@.len() > 0 && text@[0] == '/'),
            r.names() == parsed_names(text@),
    {
        let n = text.unicode_len();
        let mut parts: Vec<String> = Vec::new();
        let mut start: usize = 0;
        let mut i: usize = 0;
        while i < n
            invariant
                n == text@.len(),
                start <= i <= n,
                scan_segments(text@.take(i as int)) == (
                    parts@.map_values(|p: String| p@),
                    text@.subrange(start as int, i as int),
                ),
            decreases n - i,
        {
            let c = text.get_char(i);
            proof {
                assert(text@.take(i + 1).drop_last() =~= text@.take(i as int));
                assert(text@.take(i + 1).last() == c);
            }
            if c == '/' {
                let seg = text.substring_char(start, i);
                if Self::keeps(seg) {
                    let ghost before = parts@;
                    parts.push(String::from_str(seg));
                    proof {
                        assert(parts@.map_values(|p: String| p@) =~= before.map_values(
                            |p: String| p@,
                        ).push(seg@));
                    }
                }
                start = i + 1;
                proof {
                    assert(text@.subrange(start as int, (i + 1) as int) =~= Seq::<char>::empty());
                }
            } else {
                proof {
                    assert(text@.subrange(start as int, (i + 1) as int) =~= text@.subrange(
                        start as int,
                        i as int,
                    ).push(c));
                }
            }
            i = i + 1;
        }
        proof {
            assert(text@.take(n as int) =~= text@);
        }
        let seg = text.substring_char(start, n);
        if Self::keeps(seg) {
            let ghost before = parts@;
            parts.push(String::from_str(seg));
            proof {
                assert(parts@.map_values(|p: String| p@) =~= before.map_values(|p: String| p@).push(
                    seg@,
                ));
            }
        }
        let absolute = n > 0 && text.get_char(0) == '/';
        FsPath { absolute, parts }
    }

    fn keeps(seg: &str) -> (r: bool)
        ensures
            r == is_kept_segment(seg@),
    {
        let n = seg.unicode_len();
        if n == 0 {
            false
        } else if n == 1 && seg.get_char(0) == '.' {
            assert(seg@ =~= seq!['.']);
            false
        } else {
            assert(seg@ != seq!['.']) by {
                if n == 1 {
                    assert(seg@[0] != seq!['.'][0]);
                }
            }
            true
        }
    }

    /// The path as text: `/a/b`, `a/b`, or `.` for the current directory.
    pub fn to_text(&self) -> (r: String)
        ensures
            r@ == path_text(self.absolute, self.names()),
    {
        let mut text = if self.absolute {
            String::from_str("/")
        } else {
            String::new()
        };
        let ghost lead: Seq<char> = if self.absolute {
            seq!['/']
        } else {
            Seq::empty()
        };
        proof {
            reveal_strlit("/");
            assert(text@ =~= lead + joined(self.names().take(0)));
        }
        let mut i: usize = 0;
        while i < self.parts.len()
            invariant
                i <= self.parts@.len(),
                lead == (if self.absolute {
                    seq!['/']
                } else {
                    Seq::<char>::empty()
                }),
                text@ == lead + joined(self.names().take(i as int)),
            decreases self.parts@.len() - i,
        {
            let ghost before = text@;
            proof {
                assert(self.names().take(i + 1).drop_last() =~= self.names().take(i as int));
                assert(self.names().take(i + 1).last() == self.parts@[i as int]@);
            }
            if i > 0 {
                text.append("/");
                proof {
                    reveal_strlit("/");
                }
            }
            text.append(self.parts[i].as_str());
            proof {
                if i > 0 {
                    assert(text@ =~= before + seq!['/'] + self.parts@[i as int]@);
                    assert(text@ =~= lead + joined(self.names().take(i + 1)));
                } else {
                    assert(self.names().take(1) =~= seq![self.parts@[0]@]);
                    assert(text@ =~= lead + joined(self.names().take(i + 1)));
                }
            }
            i = i + 1;
        }
        proof {
            assert(self.names().take(self.parts@.len() as int) =~= self.names());
        }
        if !self.absolute && self.parts.len() == 0 {
            proof {
                reveal_strlit(".");
            }
            String::from_str(".")
        } else {
            proof {
                if !self.absolute {
                    assert(text@ =~= joined(self.names()));
                }
            }
            text
        }
    }

    /// The path `up` levels above this one.
    pub fn ancestor(&self, up: usize) -> (r: FsPath)
        requires
            up <= self.depth(),
        ensures
            r.absolute == self.absolute,
            r.names() == self.names().take(self.depth() - up),
    {
        let keep = self.parts.len() - up;
        let mut parts: Vec<String> = Vec::new();
        let mut i: usize = 0;
        while i < keep
            invariant
                keep <= self.parts@.len(),
                i <= keep,
                parts@.map_values(|p: String| p@) == self.names().take(i as int),
            decreases keep - i,
        {
            let ghost before = parts@;
            let name = String::from_str(self.parts[i].as_str());
            assert(name@ == self.names()[i as int]);
            parts.push(name);
            proof {
                assert(parts@ == before.push(name));
                assert(parts@.map_values(|p: String| p@) =~= before.map_values(|p: String| p@).push(
                    name@,
                ));
                assert(parts@.map_values(|p: String| p@) =~= self.names().take(i + 1));
            }
            i = i + 1;
        }
        FsPath { absolute: self.absolute, parts }
    }

    /// The path of the entry `name` inside this directory.
    pub fn join(&self, name: &str) -> (r: FsPath)
        ensures
            r.absolute == self.absolute,
            r.names() == self.names().push(name@),
    {
        let mut r = self.ancestor(0);
        let ghost before = r.parts@;
        r.parts.push(String::from_str(name));
        proof {
            assert(self.names().take(self.depth() as int) =~= self.names());
            assert(r.names() =~= before.map_values(|p: String| p@).push(name@));
        }
        r
    }

    /// This path and all the paths above it, nearest first: the path
    /// itself, its parent, and so on up to the root (or `.`).
    pub fn ancestors(&self) -> (r: Vec<FsPath>)
        ensures
            r@.len() == self.depth() + 1,
            forall|i: int|
                0 <= i < r@.len() ==> (#[trigger] r@[i]).absolute == self.absolute && r@[i].names()
                    == self.names().take(self.depth() - i),
    {
        let mut r: Vec<FsPath> = Vec::new();
        let mut up: usize = 0;
        while up < self.parts.len()
            invariant
                up <= self.parts@.len(),
                r@.len() == up,
                forall|i: int|
                    0 <= i < r@.len() ==> (#[trigger] r@[i]).absolute == self.absolute
                        && r@[i].names() == self.names().take(self.depth() - i),
            decreases self.parts@.len() - up,
        {
            r.push(self.ancestor(up));
            up = up + 1;
        }
        r.push(self.ancestor(up));
        r
    }
}

} // verus!
