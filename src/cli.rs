//! Reading the command line: which command is asked for, and with which
//! arguments.

use vstd::prelude::*;

use crate::path::{FsPath, parsed_names};
use crate::workspace::Workspace;

verus! {

/// The texts of a list of strings.
pub open spec fn texts(v: Seq<String>) -> Seq<Seq<char>> {
    v.map_values(|s: String| s@)
}

/// An argument that the option parser takes for an option: a dash and at
/// least one more character.
pub open spec fn looks_like_option(a: Seq<char>) -> bool {
    a.len() > 1 && a[0] == '-'
}

/// No argument looks like an option.
pub open spec fn no_option_like(args: Seq<Seq<char>>) -> bool {
    forall|i: int| 0 <= i < args.len() ==> !looks_like_option(#[trigger] args[i])
}

/// Every argument free, no option given.
pub open spec fn all_free(args: Seq<Seq<char>>) -> Result<
    (Option<Seq<char>>, Seq<Seq<char>>),
    Seq<char>,
> {
    Ok((None, args))
}

/// What `getopts` makes of `args` when it knows the value option
/// `option` (short and long name) or none: the option's value, if given,
/// and the free arguments; or the text of its failure.
pub uninterp spec fn getopts_outcome(
    args: Seq<Seq<char>>,
    option: Option<(Seq<char>, Seq<char>)>,
) -> Result<(Option<Seq<char>>, Seq<Seq<char>>), Seq<char>>;

pub open spec fn option_names(option: Option<(&str, &str)>) -> Option<(Seq<char>, Seq<char>)> {
    match option {
        Some((s, l)) => Some((s@, l@)),
        None => None,
    }
}

/// The value of an option, if given, and the free arguments; or the text
/// of a failure.
pub type ParsedArgs = Result<(Option<String>, Vec<String>), String>;

pub open spec fn outcome_view(r: ParsedArgs) -> Result<
    (Option<Seq<char>>, Seq<Seq<char>>),
    Seq<char>,
> {
    match r {
        Ok((v, free)) => Ok(
            (
                match v {
                    Some(s) => Some(s@),
                    None => None,
                },
                texts(free@),
            ),
        ),
        Err(m) => Err(m@),
    }
}

/// A short option name is one ASCII character, a long one at least two
/// characters: what `getopts` accepts without panicking.
pub open spec fn is_valid_option(option: Option<(&str, &str)>) -> bool {
    option matches Some((s, l)) ==> s@.len() == 1 && (s@[0] as u32) < 128 && l@.len() > 1
}

/// Relies on `getopts::Options::new`, `Options::optopt` (an optional option
/// that takes a value), `Options::parse`, `Matches::opt_str` and the
/// `Display` of `getopts::Fail`. The outcome depends on the arguments and
/// the option alone. When no argument starts with a dash followed by more,
/// every argument is free, in order, and no option is given.
#[verifier::external_body]
fn parse_options(args: &[String], option: Option<(&str, &str)>) -> (r: ParsedArgs)
    requires
        is_valid_option(option),
    ensures
        outcome_view(r) == getopts_outcome(texts(args@), option_names(option)),
        no_option_like(texts(args@)) ==> outcome_view(r) == all_free(texts(args@)),
{
    let mut options = getopts::Options::new();
    if let Some((short, long)) = option {
        options.optopt(short, long, "", "");
    }
    match options.parse(args) {
        Ok(m) => Ok((option.and_then(|(_, long)| m.opt_str(long)), m.free)),
        Err(f) => Err(f.to_string()),
    }
}

/// The value of a digit in base `radix`: `0`-`9`, then `a`-`z` or `A`-`Z`.
pub open spec fn digit_value(c: char, radix: int) -> Option<int> {
    let v = if '0' <= c && c <= '9' {
        c as int - '0' as int
    } else if 'a' <= c && c <= 'z' {
        c as int - 'a' as int + 10
    } else if 'A' <= c && c <= 'Z' {
        c as int - 'A' as int + 10
    } else {
        radix
    };
    if v < radix {
        Some(v)
    } else {
        None
    }
}

/// The number that the digits `s` write in base `radix`, if all are digits.
pub open spec fn digits_value(s: Seq<char>, radix: int) -> Option<int>
    decreases s.len(),
{
    if s.len() == 0 {
        Some(0)
    } else {
        match (digits_value(s.drop_last(), radix), digit_value(s.last(), radix)) {
            (Some(h), Some(d)) => Some(h * radix + d),
            _ => None,
        }
    }
}

/// The `u32` that `s` writes in base `radix`: an optional `+`, then at least
/// one digit, with a value that fits.
pub open spec fn parsed_u32(s: Seq<char>, radix: int) -> Option<int> {
    let body = if s.len() > 0 && s[0] == '+' {
        s.drop_first()
    } else {
        s
    };
    if body.len() == 0 {
        None
    } else {
        match digits_value(body, radix) {
            Some(v) => if v <= u32::MAX {
                Some(v)
            } else {
                None
            },
            None => None,
        }
    }
}

/// Relies on `u32::from_str_radix`: an optional `+` followed by digits of
/// the radix (in either case) whose value fits in a `u32`; anything else is
/// an error, whose `Display` text is returned. Panics unless the radix is
/// from 2 to 36.
#[verifier::external_body]
fn u32_from_str_radix(s: &str, radix: u32) -> (r: Result<u32, String>)
    requires
        2 <= radix <= 36,
    ensures
        match parsed_u32(s@, radix as int) {
            Some(v) => r == Ok::<u32, String>(v as u32),
            None => r is Err,
        },
{
    u32::from_str_radix(s, radix).map_err(|e| e.to_string())
}

/// Checks that there are at least `min` and, unless `max` is negative, at
/// most `max` elements.
pub fn check_num_of(elems: &[String], min: u32, max: i32) -> (r: Result<(), String>)
    requires
        max >= 0 ==> min <= max,
    ensures
        elems@.len() < min ==> (r matches Err(m) && m@ == "too few arguments"@),
        elems@.len() >= min && max >= 0 && elems@.len() > max ==> (r matches Err(m) && m@
            == "too many arguments"@),
        r is Ok <==> (elems@.len() >= min && (max >= 0 ==> elems@.len() <= max)),
{
    let count = elems.len();
    if (count as u64) < (min as u64) {
        Err(String::from_str("too few arguments"))
    } else if max >= 0 && (count as u64) > (max as u64) {
        Err(String::from_str("too many arguments"))
    } else {
        Ok(())
    }
}

/// The limit that an optional argument gives: none means 0.
pub fn to_limit(string: Option<String>, radix: u32) -> (r: Result<u32, String>)
    requires
        2 <= radix <= 36,
    ensures
        match string {
            None => r == Ok::<u32, String>(0),
            Some(s) => match parsed_u32(s@, radix as int) {
                Some(v) => r == Ok::<u32, String>(v as u32),
                None => r is Err,
            },
        },
{
    match string {
        Some(s) => u32_from_str_radix(s.as_str(), radix),
        None => Ok(0),
    }
}

/// The last component of a path text, unless there is none or it is `..`.
pub open spec fn file_name_of(path: Seq<char>) -> Option<Seq<char>> {
    let names = parsed_names(path);
    if names.len() > 0 && names.last() != seq!['.', '.'] {
        Some(names.last())
    } else {
        None
    }
}

/// The last component of a path text, unless there is none or it is `..`.
pub fn file_name(path: &str) -> (r: Option<String>)
    ensures
        match file_name_of(path@) {
            Some(n) => r matches Some(s) && s@ == n,
            None => r is None,
        },
{
    let p = FsPath::parse(path);
    let n = p.parts.len();
    if n == 0 {
        return None;
    }
    let last = p.parts[n - 1].as_str();
    assert(p.names().last() == last@);
    if last.unicode_len() == 2 && last.get_char(0) == '.' && last.get_char(1) == '.' {
        assert(last@ =~= seq!['.', '.']);
        None
    } else {
        assert(last@ != seq!['.', '.']) by {
            if last@.len() == 2 {
                assert(last@[0] != '.' || last@[1] != '.');
            }
        }
        Some(String::from_str(last))
    }
}

/// Whether `s` reads `w`.
fn is_word(s: &str, w: &str) -> (r: bool)
    ensures
        r == (s@ == w@),
{
    let n = s.unicode_len();
    if n != w.unicode_len() {
        return false;
    }
    let mut i: usize = 0;
    while i < n
        invariant
            n == s@.len() == w@.len(),
            i <= n,
            s@.take(i as int) == w@.take(i as int),
        decreases n - i,
    {
        if s.get_char(i) != w.get_char(i) {
            return false;
        }
        assert(s@.take(i + 1) =~= s@.take(i as int).push(s@[i as int]));
        assert(w@.take(i + 1) =~= w@.take(i as int).push(w@[i as int]));
        i = i + 1;
    }
    assert(s@ =~= s@.take(n as int));
    assert(w@ =~= w@.take(n as int));
    true
}

/// The arguments from position `from` on.
fn tail_of(args: &[String], from: usize) -> (r: Vec<String>)
    ensures
        texts(r@) == texts(args@).subrange(
            if from <= args@.len() {
                from as int
            } else {
                args@.len() as int
            },
            args@.len() as int,
        ),
{
    let start = if from <= args.len() {
        from
    } else {
        args.len()
    };
    let mut r: Vec<String> = Vec::new();
    let mut i: usize = start;
    while i < args.len()
        invariant
            start <= i <= args@.len(),
            texts(r@) == texts(args@).subrange(start as int, i as int),
        decreases args@.len() - i,
    {
        let ghost before = r@;
        r.push(String::from_str(args[i].as_str()));
        proof {
            assert(texts(r@) =~= texts(before).push(args@[i as int]@));
            assert(texts(args@).subrange(start as int, i + 1) =~= texts(args@).subrange(
                start as int,
                i as int,
            ).push(args@[i as int]@));
        }
        i = i + 1;
    }
    r
}

/// The command that shows how to call the program.
#[derive(Debug)]
pub struct ShowUsage {
    pub program: String,
}

impl ShowUsage {
    /// The usage of the program at `path`, named by its last component.
    pub fn new(path: &String) -> (r: Result<ShowUsage, String>)
        ensures
            match file_name_of(path@) {
                Some(n) => r matches Ok(u) && u.program@ == n,
                None => r is Err,
            },
    {
        match file_name(path.as_str()) {
            Some(program) => Ok(ShowUsage { program }),
            None => Err(String::from_str("program path has no file name")),
        }
    }

    /// The usage line.
    pub fn usage_line(&self) -> (r: String)
        ensures
            r@ == "usage: "@ + self.program@ + " COMMAND [ARGS...]"@,
    {
        let mut r = String::from_str("usage: ");
        r.append(self.program.as_str());
        r.append(" COMMAND [ARGS...]");
        r
    }
}

/// The command that shows the help text.
#[derive(Debug)]
pub struct ShowHelp {
    pub program: String,
}

impl ShowHelp {
    /// The help of the program at `path`; `args` are the arguments after
    /// `help`, of which there may be none.
    pub fn new(path: &String, args: &[String]) -> (r: Result<ShowHelp, String>)
        ensures
            getopts_outcome(texts(args@), None) is Err ==> r is Err,
            r is Ok <==> (getopts_outcome(texts(args@), None) is Ok && args@.len() == 0
                && file_name_of(path@) is Some),
            r matches Ok(h) ==> Some(h.program@) == file_name_of(path@),
    {
        match parse_options(args, None) {
            Ok(_) => {},
            Err(reason) => {
                return Err(reason);
            },
        }
        match check_num_of(args, 0, 0) {
            Ok(()) => {},
            Err(reason) => {
                return Err(reason);
            },
        }
        match file_name(path.as_str()) {
            Some(program) => Ok(ShowHelp { program }),
            None => Err(String::from_str("program path has no file name")),
        }
    }

    /// The help text.
    pub fn help_line(&self) -> (r: String)
        ensures
            r@ == "Help for "@ + self.program@ + " is coming soon ..."@,
    {
        let mut r = String::from_str("Help for ");
        r.append(self.program.as_str());
        r.append(" is coming soon ...");
        r
    }
}

/// The first free argument, or `.`.
pub open spec fn dir_or_current(free: Seq<Seq<char>>) -> Seq<char> {
    if free.len() > 0 {
        free[0]
    } else {
        seq!['.']
    }
}

fn first_or_current(free: &Vec<String>) -> (r: String)
    ensures
        r@ == dir_or_current(texts(free@)),
{
    if free.len() > 0 {
        String::from_str(free[0].as_str())
    } else {
        proof {
            reveal_strlit(".");
        }
        String::from_str(".")
    }
}

/// What a command that takes no option and at most one directory makes of
/// its arguments: the directory, `.` when none is given.
pub open spec fn single_dir_outcome(args: Seq<Seq<char>>) -> Result<Seq<char>, ()> {
    match getopts_outcome(args, None) {
        Ok((_, free)) => if free.len() <= 1 {
            Ok(dir_or_current(free))
        } else {
            Err(())
        },
        Err(_) => Err(()),
    }
}

/// The directory that the free arguments of `init` or `tasks add` name:
/// at most one, `.` when none is given.
pub fn dir_from_free(free: &Vec<String>) -> (r: Result<String, String>)
    ensures
        free@.len() <= 1 ==> (r matches Ok(s) && s@ == dir_or_current(texts(free@))),
        free@.len() > 1 ==> (r matches Err(m) && m@ == "too many arguments"@),
{
    match check_num_of(free.as_slice(), 0, 1) {
        Ok(()) => {},
        Err(reason) => {
            return Err(reason);
        },
    }
    Ok(first_or_current(free))
}

fn single_dir(args: &[String]) -> (r: Result<String, String>)
    ensures
        match single_dir_outcome(texts(args@)) {
            Ok(d) => r matches Ok(s) && s@ == d,
            Err(_) => r is Err,
        },
{
    match parse_options(args, None) {
        Ok((_, free)) => dir_from_free(&free),
        Err(reason) => Err(reason),
    }
}

/// The command that creates a workspace.
#[derive(Debug)]
pub struct InitWorkspace {
    pub dir: String,
}

impl InitWorkspace {
    /// `init [DIR]`: the directory to create the workspace in, `.` when
    /// none is given.
    pub fn new(args: &[String]) -> (r: Result<InitWorkspace, String>)
        ensures
            match single_dir_outcome(texts(args@)) {
                Ok(d) => r matches Ok(c) && c.dir@ == d,
                Err(_) => r is Err,
            },
    {
        match single_dir(args) {
            Ok(dir) => Ok(InitWorkspace { dir }),
            Err(reason) => Err(reason),
        }
    }
}

/// The command that authors a new task.
#[derive(Debug)]
pub struct AddTask {
    pub workspace: Workspace,
    pub dir: String,
}

impl AddTask {
    /// `tasks add [DIR]` in `workspace`: the directory below `tasks/` to
    /// put the task in, `.` when none is given.
    pub fn new(args: &[String], workspace: Workspace) -> (r: Result<AddTask, String>)
        ensures
            match single_dir_outcome(texts(args@)) {
                Ok(d) => r matches Ok(c) && c.dir@ == d && c.workspace == workspace,
                Err(_) => r is Err,
            },
    {
        match single_dir(args) {
            Ok(dir) => Ok(AddTask { workspace, dir }),
            Err(reason) => Err(reason),
        }
    }
}

/// The value of `-d`/`--dir`, or `.`.
pub open spec fn dir_option_or_current(v: Option<Seq<char>>) -> Seq<char> {
    match v {
        Some(d) => d,
        None => seq!['.'],
    }
}

fn value_or_current(v: Option<String>) -> (r: String)
    ensures
        r@ == dir_option_or_current(
            match v {
                Some(s) => Some(s@),
                None => None,
            },
        ),
{
    match v {
        Some(d) => d,
        None => {
            proof {
                reveal_strlit(".");
            }
            String::from_str(".")
        },
    }
}

/// The option that `tasks list` and `tasks show` take.
pub open spec fn dir_option() -> Option<(Seq<char>, Seq<char>)> {
    Some((seq!['d'], seq!['d', 'i', 'r']))
}

fn parse_with_dir_option(args: &[String]) -> (r: ParsedArgs)
    ensures
        outcome_view(r) == getopts_outcome(texts(args@), dir_option()),
        no_option_like(texts(args@)) ==> outcome_view(r) == all_free(texts(args@)),
{
    proof {
        reveal_strlit("d");
        reveal_strlit("dir");
        assert("d"@ =~= seq!['d']);
        assert("dir"@ =~= seq!['d', 'i', 'r']);
    }
    parse_options(args, Some(("d", "dir")))
}

/// What `tasks list [-d DIR] [LIMIT]` asks for: the directory and the
/// limit (0 when none is given).
pub open spec fn list_outcome(args: Seq<Seq<char>>) -> Result<(Seq<char>, u32), ()> {
    match getopts_outcome(args, dir_option()) {
        Ok((v, free)) => if free.len() > 1 {
            Err(())
        } else if free.len() == 0 {
            Ok((dir_option_or_current(v), 0))
        } else {
            match parsed_u32(free[0], 10) {
                Some(n) => Ok((dir_option_or_current(v), n as u32)),
                None => Err(()),
            }
        },
        Err(_) => Err(()),
    }
}

/// The command that lists tasks.
#[derive(Debug)]
pub struct ListTasks {
    pub dir: String,
    pub limit: u32,
}

impl ListTasks {
    /// `tasks list [-d DIR] [LIMIT]`. Whether the directory exists is for
    /// the caller to check.
    pub fn new(args: &[String]) -> (r: Result<ListTasks, String>)
        ensures
            match list_outcome(texts(args@)) {
                Ok((d, n)) => r matches Ok(c) && c.dir@ == d && c.limit == n,
                Err(_) => r is Err,
            },
            no_option_like(texts(args@)) && args@.len() > 1 ==> (r matches Err(m) && m@
                == "too many arguments"@),
    {
        match parse_with_dir_option(args) {
            Ok((v, free)) => Self::from_options(v, free),
            Err(reason) => Err(reason),
        }
    }

    /// The command that the parsed options give: the `-d` value, if any,
    /// and the free arguments, of which at most one, the limit, may be
    /// given.
    pub fn from_options(dir: Option<String>, free: Vec<String>) -> (r: Result<ListTasks, String>)
        ensures
            free@.len() > 1 ==> (r matches Err(m) && m@ == "too many arguments"@),
            free@.len() == 0 ==> (r matches Ok(c) && c.limit == 0),
            free@.len() == 1 ==> match parsed_u32(free@[0]@, 10) {
                Some(n) => r matches Ok(c) && c.limit == n as u32,
                None => r is Err,
            },
            r matches Ok(c) ==> c.dir@ == dir_option_or_current(
                match dir {
                    Some(s) => Some(s@),
                    None => None,
                },
            ),
    {
        let dir = value_or_current(dir);
        match check_num_of(free.as_slice(), 0, 1) {
            Ok(()) => {},
            Err(reason) => {
                return Err(reason);
            },
        }
        let mut free = free;
        let last = free.pop();
        match to_limit(last, 10) {
            Ok(limit) => Ok(ListTasks { dir, limit }),
            Err(reason) => Err(reason),
        }
    }
}

/// What `tasks show [-d DIR] ID...` asks for: the directory and at least
/// one task id.
pub open spec fn show_outcome(args: Seq<Seq<char>>) -> Result<(Seq<char>, Seq<Seq<char>>), ()> {
    match getopts_outcome(args, dir_option()) {
        Ok((v, free)) => if free.len() == 0 {
            Err(())
        } else {
            Ok((dir_option_or_current(v), free))
        },
        Err(_) => Err(()),
    }
}

/// The command that shows tasks.
#[derive(Debug)]
pub struct ShowTasks {
    pub dir: String,
    pub ids: Vec<String>,
}

impl ShowTasks {
    /// `tasks show [-d DIR] ID...`. Whether the directory exists is for the
    /// caller to check.
    pub fn new(args: &[String]) -> (r: Result<ShowTasks, String>)
        ensures
            match show_outcome(texts(args@)) {
                Ok((d, ids)) => r matches Ok(c) && c.dir@ == d && texts(c.ids@) == ids,
                Err(_) => r is Err,
            },
    {
        match parse_with_dir_option(args) {
            Ok((v, free)) => Self::from_options(v, free),
            Err(reason) => Err(reason),
        }
    }

    /// The command that the parsed options give: the `-d` value, if any,
    /// and the free arguments, the task ids, of which there must be one.
    pub fn from_options(dir: Option<String>, free: Vec<String>) -> (r: Result<ShowTasks, String>)
        ensures
            free@.len() == 0 ==> (r matches Err(m) && m@ == "missing task id(s)"@),
            free@.len() > 0 ==> (r matches Ok(c) && c.ids@ == free@ && c.dir@
                == dir_option_or_current(
                match dir {
                    Some(s) => Some(s@),
                    None => None,
                },
            )),
    {
        let dir = value_or_current(dir);
        if free.len() == 0 {
            return Err(String::from_str("missing task id(s)"));
        }
        Ok(ShowTasks { dir, ids: free })
    }
}

/// A command line read, ready to run.
#[derive(Debug)]
pub enum Request {
    Usage(ShowUsage),
    Help(ShowHelp),
    Init(InitWorkspace),
    /// `tasks add`, with the arguments that follow; the workspace is found
    /// from the current directory before the command is made.
    AddTask(Vec<String>),
    ListTasks(ListTasks),
    ShowTasks(ShowTasks),
}

/// The command word at position `at`, if there is one.
pub open spec fn word_at(args: Seq<Seq<char>>, at: int) -> Option<Seq<char>> {
    if at < args.len() {
        Some(args[at])
    } else {
        None
    }
}

/// Reads a whole command line, the program path first: `help`, `init`,
/// `tasks add|list|show`; no command shows the usage.
pub fn parse(args: &[String]) -> (r: Result<Request, String>)
    requires
        args@.len() >= 1,
    ensures
        word_at(texts(args@), 1) is None ==> (r is Ok <==> file_name_of(args@[0]@) is Some),
        word_at(texts(args@), 1) is None && r is Ok ==> r matches Ok(Request::Usage(_)),
        word_at(texts(args@), 1) == Some("help"@) ==> (r is Ok <==> (getopts_outcome(
            texts(args@).subrange(2, args@.len() as int),
            None,
        ) is Ok && args@.len() == 2 && file_name_of(args@[0]@) is Some)),
        word_at(texts(args@), 1) == Some("help"@) && r is Ok ==> r matches Ok(Request::Help(_)),
        word_at(texts(args@), 1) == Some("init"@) ==> match single_dir_outcome(
            texts(args@).subrange(2, args@.len() as int),
        ) {
            Ok(d) => r matches Ok(Request::Init(c)) && c.dir@ == d,
            Err(_) => r is Err,
        },
        word_at(texts(args@), 1) == Some("tasks"@) ==> match word_at(texts(args@), 2) {
            None => r matches Err(m) && m@ == "missing command"@,
            Some(w) => if w == "add"@ {
                r matches Ok(Request::AddTask(rest)) && texts(rest@) == texts(args@).subrange(
                    3,
                    args@.len() as int,
                )
            } else if w == "list"@ {
                match list_outcome(texts(args@).subrange(3, args@.len() as int)) {
                    Ok((d, n)) => r matches Ok(Request::ListTasks(c)) && c.dir@ == d && c.limit
                        == n,
                    Err(_) => r is Err,
                }
            } else if w == "show"@ {
                match show_outcome(texts(args@).subrange(3, args@.len() as int)) {
                    Ok((d, ids)) => r matches Ok(Request::ShowTasks(c)) && c.dir@ == d && texts(
                        c.ids@,
                    ) == ids,
                    Err(_) => r is Err,
                }
            } else {
                r matches Err(m) && m@ == "unknown sub command "@ + w
            },
        },
        word_at(texts(args@), 1) == Some("people"@) ==> match word_at(texts(args@), 2) {
            None => r matches Err(m) && m@ == "missing command"@,
            Some(w) => r matches Err(m) && m@ == "unknown sub command "@ + w,
        },
        (word_at(texts(args@), 1) matches Some(w) && w != "help"@ && w != "init"@ && w
            != "tasks"@ && w != "people"@) ==> (r matches Err(m) && m@ == "unknown command "@
            + args@[1]@),
{
    proof {
        reveal_strlit("help");
        reveal_strlit("init");
        reveal_strlit("tasks");
        reveal_strlit("people");
        reveal_strlit("add");
        reveal_strlit("list");
        reveal_strlit("show");
        assert("help"@[0] == 'h' && "init"@[0] == 'i' && "tasks"@[0] == 't' && "people"@[0]
            == 'p');
        assert("add"@[0] == 'a' && "list"@[0] == 'l' && "show"@[0] == 's');
    }
    if args.len() < 2 {
        return match ShowUsage::new(&args[0]) {
            Ok(u) => Ok(Request::Usage(u)),
            Err(e) => Err(e),
        };
    }
    let cmd = args[1].as_str();
    if is_word(cmd, "help") {
        let rest = tail_of(args, 2);
        assert(rest@.len() == texts(rest@).len());
        assert(texts(args@).subrange(2, args@.len() as int).len() == args@.len() - 2);
        match ShowHelp::new(&args[0], rest.as_slice()) {
            Ok(h) => Ok(Request::Help(h)),
            Err(e) => Err(e),
        }
    } else if is_word(cmd, "init") {
        let rest = tail_of(args, 2);
        match InitWorkspace::new(rest.as_slice()) {
            Ok(c) => Ok(Request::Init(c)),
            Err(e) => Err(e),
        }
    } else if is_word(cmd, "tasks") || is_word(cmd, "people") {
        let tasks = is_word(cmd, "tasks");
        if args.len() < 3 {
            return Err(String::from_str("missing command"));
        }
        let sub = args[2].as_str();
        let rest = tail_of(args, 3);
        if tasks && is_word(sub, "add") {
            Ok(Request::AddTask(rest))
        } else if tasks && is_word(sub, "list") {
            match ListTasks::new(rest.as_slice()) {
                Ok(c) => Ok(Request::ListTasks(c)),
                Err(e) => Err(e),
            }
        } else if tasks && is_word(sub, "show") {
            match ShowTasks::new(rest.as_slice()) {
                Ok(c) => Ok(Request::ShowTasks(c)),
                Err(e) => Err(e),
            }
        } else {
            let mut m = String::from_str("unknown sub command ");
            m.append(sub);
            Err(m)
        }
    } else {
        let mut m = String::from_str("unknown command ");
        m.append(cmd);
        Err(m)
    }
}

} // verus!
