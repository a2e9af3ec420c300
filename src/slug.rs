//! Text transforms for task titles: whitespace normalisation, German
//! transliteration and file-system safe slugs.

use vstd::prelude::*;

verus! {

// ---------------------------------------------------------------------
// Character classes
// ---------------------------------------------------------------------

/// Unicode `White_Space`: the characters that `\s` matches in a regex and
/// that `str::trim` removes.
pub open spec fn is_space(c: char) -> bool {
    let u = c as u32;
    (0x09 <= u && u <= 0x0d) || u == 0x20 || u == 0x85 || u == 0xa0 || u == 0x1680 || (0x2000
        <= u && u <= 0x200a) || u == 0x2028 || u == 0x2029 || u == 0x202f || u == 0x205f || u
        == 0x3000
}

/// Characters that may stand in a slug: `[a-zA-Z0-9_-]`.
pub open spec fn is_slug_char(c: char) -> bool {
    ('a' <= c && c <= 'z') || ('A' <= c && c <= 'Z') || ('0' <= c && c <= '9') || c == '_' || c
        == '-'
}

/// Capital letters that lowercasing never leaves behind and that the
/// transliteration would otherwise carry into a slug.
pub open spec fn is_latin_capital(c: char) -> bool {
    ('A' <= c && c <= 'Z') || c == 'Ä' || c == 'Ö' || c == 'Ü'
}

/// Characters with a meaning of their own in a regular expression.
pub open spec fn is_regex_meta(c: char) -> bool {
    c == '\\' || c == '.' || c == '+' || c == '*' || c == '?' || c == '(' || c == ')' || c == '|'
        || c == '[' || c == ']' || c == '{' || c == '}' || c == '^' || c == '$' || c == '#' || c
        == '&' || c == '-' || c == '~'
}

// ---------------------------------------------------------------------
// Sequence transforms
// ---------------------------------------------------------------------

/// `s` without its leading whitespace.
pub open spec fn trim_start(s: Seq<char>) -> Seq<char>
    decreases s.len(),
{
    if s.len() > 0 && is_space(s[0]) {
        trim_start(s.drop_first())
    } else {
        s
    }
}

/// `s` without its trailing whitespace.
pub open spec fn trim_end(s: Seq<char>) -> Seq<char>
    decreases s.len(),
{
    if s.len() > 0 && is_space(s.last()) {
        trim_end(s.drop_last())
    } else {
        s
    }
}

/// `s` without leading and trailing whitespace.
pub open spec fn trimmed(s: Seq<char>) -> Seq<char> {
    trim_end(trim_start(s))
}

/// Every maximal run of whitespace in `s` replaced by `rep`; `in_run` says
/// whether `s` continues a run that has already been replaced.
pub open spec fn space_runs_from(s: Seq<char>, rep: Seq<char>, in_run: bool) -> Seq<char>
    decreases s.len(),
{
    if s.len() == 0 {
        Seq::empty()
    } else if is_space(s[0]) {
        (if in_run {
            Seq::empty()
        } else {
            rep
        }) + space_runs_from(s.drop_first(), rep, true)
    } else {
        seq![s[0]] + space_runs_from(s.drop_first(), rep, false)
    }
}

/// Every maximal run of whitespace in `s` replaced by `rep`.
pub open spec fn space_runs_replaced(s: Seq<char>, rep: Seq<char>) -> Seq<char> {
    space_runs_from(s, rep, false)
}

/// Every occurrence of `from` in `s` replaced by `rep`.
pub open spec fn char_replaced(s: Seq<char>, from: char, rep: Seq<char>) -> Seq<char>
    decreases s.len(),
{
    if s.len() == 0 {
        Seq::empty()
    } else {
        (if s[0] == from {
            rep
        } else {
            seq![s[0]]
        }) + char_replaced(s.drop_first(), from, rep)
    }
}

/// Every character of `s` outside `[a-zA-Z0-9_-]` replaced by `rep`.
pub open spec fn non_slug_replaced(s: Seq<char>, rep: Seq<char>) -> Seq<char>
    decreases s.len(),
{
    if s.len() == 0 {
        Seq::empty()
    } else {
        (if is_slug_char(s[0]) {
            seq![s[0]]
        } else {
            rep
        }) + non_slug_replaced(s.drop_first(), rep)
    }
}

/// What a run of `n` underscores becomes when runs of two or more are
/// replaced by `rep`.
pub open spec fn underscore_run(n: nat, rep: Seq<char>) -> Seq<char> {
    if n == 0 {
        Seq::empty()
    } else if n == 1 {
        seq!['_']
    } else {
        rep
    }
}

/// Every maximal run of two or more underscores replaced by `rep`; `pending`
/// underscores that directly precede `s` are still to be written.
pub open spec fn underscore_runs_from(s: Seq<char>, rep: Seq<char>, pending: nat) -> Seq<char>
    decreases s.len(),
{
    if s.len() == 0 {
        underscore_run(pending, rep)
    } else if s[0] == '_' {
        underscore_runs_from(s.drop_first(), rep, pending + 1)
    } else {
        underscore_run(pending, rep) + seq![s[0]] + underscore_runs_from(
            s.drop_first(),
            rep,
            0,
        )
    }
}

// ---------------------------------------------------------------------
// The regular expressions in use
// ---------------------------------------------------------------------

/// `\s+`
pub open spec fn space_run_pattern() -> Seq<char> {
    seq!['\\', 's', '+']
}

/// `[^a-zA-Z0-9_-]`
pub open spec fn non_slug_pattern() -> Seq<char> {
    seq!['[', '^', 'a', '-', 'z', 'A', '-', 'Z', '0', '-', '9', '_', '-', ']']
}

/// `__+`
pub open spec fn underscore_run_pattern() -> Seq<char> {
    seq!['_', '_', '+']
}

/// The patterns this library hands to the regex engine: the three above and
/// any single character without a meaning of its own.
pub open spec fn is_known_pattern(p: Seq<char>) -> bool {
    p == space_run_pattern() || p == non_slug_pattern() || p == underscore_run_pattern() || (
    p.len() == 1 && !is_regex_meta(p[0]))
}

/// The text that replacing every leftmost-first match of the known pattern
/// `p` in `text` by the literal `rep` gives.
pub open spec fn pattern_replaced(p: Seq<char>, text: Seq<char>, rep: Seq<char>) -> Seq<char> {
    if p == space_run_pattern() {
        space_runs_replaced(text, rep)
    } else if p == non_slug_pattern() {
        non_slug_replaced(text, rep)
    } else if p == underscore_run_pattern() {
        underscore_runs_from(text, rep, 0)
    } else {
        char_replaced(text, p[0], rep)
    }
}

/// Relies on `regex::Regex::new` and `Regex::replace_all` with `NoExpand`:
/// every non-overlapping leftmost-first match of `pattern` in `text` is
/// replaced by `rep` taken literally. The known patterns all compile.
#[verifier::external_body]
fn replace_matches(pattern: &str, text: &str, rep: &str) -> (r: String)
    requires
        is_known_pattern(pattern@),
    ensures
        r@ == pattern_replaced(pattern@, text@, rep@),
{
    regex::Regex::new(pattern).unwrap().replace_all(text, regex::NoExpand(rep)).into_owned()
}

/// Relies on `str::trim`: leading and trailing `White_Space` is removed.
#[verifier::external_body]
pub(crate) fn trim_spaces(s: &str) -> (r: &str)
    ensures
        r@ == trimmed(s@),
{
    s.trim()
}

// ---------------------------------------------------------------------
// Normalisation
// ---------------------------------------------------------------------

/// The normal form of a title: trimmed, each whitespace run one space.
pub open spec fn normalized(s: Seq<char>) -> Seq<char> {
    space_runs_replaced(trimmed(s), seq![' '])
}

/// No whitespace at either end, every whitespace character a plain space
/// and no two of them side by side.
pub open spec fn is_single_spaced(s: Seq<char>) -> bool {
    &&& forall|i: int| 0 <= i < s.len() && is_space(#[trigger] s[i]) ==> s[i] == ' '
    &&& forall|i: int|
        0 <= i < s.len() - 1 && is_space(#[trigger] s[i]) ==> !is_space(s[i + 1])
    &&& s.len() > 0 ==> !is_space(s[0]) && !is_space(s.last())
}

/// Trims `name` and collapses each run of whitespace to one space.
pub fn normalize(name: &str) -> (r: String)
    ensures
        r@ == normalized(name@),
        is_single_spaced(r@),
{
    let t = trim_spaces(name);
    proof {
        reveal_strlit("\\s+");
        reveal_strlit(" ");
        assert("\\s+"@ =~= space_run_pattern());
        assert(" "@ =~= seq![' ']);
        lemma_normalized_single_spaced(name@);
    }
    replace_matches("\\s+", t, " ")
}

// ---------------------------------------------------------------------
// Lemmas on normalisation
// ---------------------------------------------------------------------

proof fn lemma_trim_start_shape(s: Seq<char>)
    ensures
        trim_start(s).len() > 0 ==> !is_space(trim_start(s)[0]),
        trim_start(s).len() <= s.len(),
        forall|i: int|
            0 <= i < trim_start(s).len() ==> #[trigger] trim_start(s)[i] == s[i + s.len()
                - trim_start(s).len()],
    decreases s.len(),
{
    if s.len() > 0 && is_space(s[0]) {
        lemma_trim_start_shape(s.drop_first());
    }
}

proof fn lemma_trim_end_shape(s: Seq<char>)
    ensures
        trim_end(s).len() > 0 ==> !is_space(trim_end(s).last()),
        trim_end(s).len() <= s.len(),
        forall|i: int| 0 <= i < trim_end(s).len() ==> #[trigger] trim_end(s)[i] == s[i],
    decreases s.len(),
{
    if s.len() > 0 && is_space(s.last()) {
        lemma_trim_end_shape(s.drop_last());
    }
}

proof fn lemma_trimmed_ends(s: Seq<char>)
    ensures
        trimmed(s).len() > 0 ==> !is_space(trimmed(s)[0]) && !is_space(trimmed(s).last()),
{
    let a = trim_start(s);
    lemma_trim_start_shape(s);
    lemma_trim_end_shape(a);
    if trimmed(s).len() > 0 {
        assert(trimmed(s)[0] == a[0]);
    }
}

/// The output of a run replacement by one space is single spaced inside;
/// after a replaced run it does not start with whitespace.
proof fn lemma_space_runs_inner(s: Seq<char>, in_run: bool)
    ensures
        ({
            let r = space_runs_from(s, seq![' '], in_run);
            &&& forall|i: int| 0 <= i < r.len() && is_space(#[trigger] r[i]) ==> r[i] == ' '
            &&& forall|i: int|
                0 <= i < r.len() - 1 && is_space(#[trigger] r[i]) ==> !is_space(r[i + 1])
            &&& in_run && r.len() > 0 ==> !is_space(r[0])
            &&& s.len() > 0 && !is_space(s[0]) ==> r.len() > 0 && r[0] == s[0]
            &&& s.len() > 0 && !is_space(s.last()) ==> r.len() > 0 && r.last() == s.last()
        }),
    decreases s.len(),
{
    let sp = seq![' '];
    let r = space_runs_from(s, sp, in_run);
    if s.len() > 0 {
        let rest = s.drop_first();
        let rr = space_runs_from(rest, sp, is_space(s[0]));
        lemma_space_runs_inner(rest, is_space(s[0]));
        if rest.len() > 0 {
            assert(rest.last() == s.last());
        }
        if is_space(s[0]) {
            if in_run {
                assert(r =~= rr);
            } else {
                assert(r =~= sp + rr);
                assert forall|i: int|
                    0 <= i < r.len() - 1 && is_space(#[trigger] r[i]) implies !is_space(
                    r[i + 1],
                ) by {
                    if i > 0 {
                        assert(r[i] == rr[i - 1]);
                        assert(r[i + 1] == rr[i]);
                    }
                }
                assert forall|i: int| 0 <= i < r.len() && is_space(#[trigger] r[i]) implies r[i]
                    == ' ' by {
                    if i > 0 {
                        assert(r[i] == rr[i - 1]);
                    }
                }
            }
        } else {
            assert(r =~= seq![s[0]] + rr);
            assert forall|i: int|
                0 <= i < r.len() - 1 && is_space(#[trigger] r[i]) implies !is_space(r[i + 1]) by {
                assert(i > 0);
                assert(r[i] == rr[i - 1]);
                assert(r[i + 1] == rr[i]);
            }
            assert forall|i: int| 0 <= i < r.len() && is_space(#[trigger] r[i]) implies r[i]
                == ' ' by {
                assert(r[i] == rr[i - 1]);
            }
        }
    }
}

/// A single-spaced text is left as it is by a run replacement with one
/// space.
proof fn lemma_space_runs_fixed(s: Seq<char>, in_run: bool)
    requires
        forall|i: int| 0 <= i < s.len() && is_space(#[trigger] s[i]) ==> s[i] == ' ',
        forall|i: int| 0 <= i < s.len() - 1 && is_space(#[trigger] s[i]) ==> !is_space(s[i + 1]),
        in_run && s.len() > 0 ==> !is_space(s[0]),
    ensures
        space_runs_from(s, seq![' '], in_run) == s,
    decreases s.len(),
{
    if s.len() > 0 {
        let rest = s.drop_first();
        assert forall|i: int| 0 <= i < rest.len() && is_space(#[trigger] rest[i]) implies rest[i]
            == ' ' by {
            assert(rest[i] == s[i + 1]);
        }
        assert forall|i: int|
            0 <= i < rest.len() - 1 && is_space(#[trigger] rest[i]) implies !is_space(
            rest[i + 1],
        ) by {
            assert(rest[i] == s[i + 1]);
            assert(rest[i + 1] == s[i + 2]);
        }
        if s.len() > 1 && is_space(s[0]) {
            assert(!is_space(s[1]));
            assert(rest[0] == s[1]);
        }
        lemma_space_runs_fixed(rest, is_space(s[0]));
        if is_space(s[0]) {
            assert(s[0] == ' ');
            assert(s =~= seq![' '] + rest);
        } else {
            assert(s =~= seq![s[0]] + rest);
        }
    }
}

proof fn lemma_normalized_single_spaced(s: Seq<char>)
    ensures
        is_single_spaced(normalized(s)),
{
    let t = trimmed(s);
    lemma_trimmed_ends(s);
    lemma_space_runs_inner(t, false);
}

/// Normalising is idempotent: a normalised title is its own normal form.
pub proof fn lemma_normalize_idempotent(s: Seq<char>)
    ensures
        normalized(normalized(s)) == normalized(s),
{
    let n = normalized(s);
    lemma_normalized_single_spaced(s);
    assert(trim_start(n) == n);
    assert(trim_end(n) == n);
    lemma_space_runs_fixed(n, false);
}


// ---------------------------------------------------------------------
// Transliteration and slugs
// ---------------------------------------------------------------------

/// The German letters that get an ASCII spelling.
pub open spec fn is_umlaut(c: char) -> bool {
    c == 'Ä' || c == 'Ö' || c == 'Ü' || c == 'ß' || c == 'ä' || c == 'ö' || c == 'ü'
}

/// The ASCII spelling of one character.
pub open spec fn transliteration(c: char) -> Seq<char> {
    if c == 'Ä' {
        seq!['A', 'e']
    } else if c == 'Ö' {
        seq!['O', 'e']
    } else if c == 'Ü' {
        seq!['U', 'e']
    } else if c == 'ß' {
        seq!['s', 's']
    } else if c == 'ä' {
        seq!['a', 'e']
    } else if c == 'ö' {
        seq!['o', 'e']
    } else if c == 'ü' {
        seq!['u', 'e']
    } else {
        seq![c]
    }
}

/// `s` with each German letter spelled in ASCII.
pub open spec fn transliterated(s: Seq<char>) -> Seq<char>
    decreases s.len(),
{
    if s.len() == 0 {
        Seq::empty()
    } else {
        transliteration(s[0]) + transliterated(s.drop_first())
    }
}

/// What `to_ascii` makes of a text: transliterated, stripped to
/// `[a-zA-Z0-9_-]`, runs of underscores squeezed to one.
pub open spec fn ascii_of(s: Seq<char>) -> Seq<char> {
    underscore_runs_from(non_slug_replaced(transliterated(s), Seq::empty()), seq!['_'], 0)
}

/// The slug of a title: whitespace runs become underscores, then the text
/// is lowercased and brought to ASCII.
pub open spec fn slug_of(s: Seq<char>) -> Seq<char> {
    ascii_of(lower_of(space_runs_replaced(s, seq!['_'])))
}

/// Only `[a-zA-Z0-9_-]`, no two underscores side by side.
pub open spec fn is_ascii_slug(s: Seq<char>) -> bool {
    &&& forall|i: int| 0 <= i < s.len() ==> is_slug_char(#[trigger] s[i])
    &&& forall|i: int| 0 <= i < s.len() - 1 && #[trigger] s[i] == '_' ==> s[i + 1] != '_'
}

/// No character of `s` is a capital letter.
pub open spec fn has_no_capital(s: Seq<char>) -> bool {
    forall|i: int| 0 <= i < s.len() ==> !is_latin_capital(#[trigger] s[i])
}

/// A slug as file names use it: ASCII slug characters, all lowercase.
pub open spec fn is_slug(s: Seq<char>) -> bool {
    is_ascii_slug(s) && has_no_capital(s)
}

/// The lowercase form of a text, as `str::to_lowercase` computes it.
pub uninterp spec fn lower_of(s: Seq<char>) -> Seq<char>;

/// Relies on `str::to_lowercase`: the lowercase equivalent of `s` under
/// Unicode's case mapping; it depends on `s` alone, keeps an empty text
/// empty and holds no capital letter.
#[verifier::external_body]
pub(crate) fn lowercase(s: &str) -> (r: String)
    ensures
        r@ == lower_of(s@),
        s@.len() == 0 ==> r@.len() == 0,
        has_no_capital(r@),
{
    s.to_lowercase()
}

/// The order in which the replacements run, each the character that
/// `step_to` spells out.
spec fn step_from(k: int) -> char {
    if k == 0 {
        'Ä'
    } else if k == 1 {
        'Ö'
    } else if k == 2 {
        'Ü'
    } else if k == 3 {
        'ß'
    } else if k == 4 {
        'ä'
    } else if k == 5 {
        'ö'
    } else if k == 6 {
        'ü'
    } else {
        'ß'
    }
}

spec fn step_to(k: int) -> Seq<char> {
    transliteration(step_from(k))
}

/// The first step that replaces `c`.
spec fn first_step(c: char) -> int {
    if c == 'Ä' {
        0
    } else if c == 'Ö' {
        1
    } else if c == 'Ü' {
        2
    } else if c == 'ß' {
        3
    } else if c == 'ä' {
        4
    } else if c == 'ö' {
        5
    } else {
        6
    }
}

/// `s` after the first `k` replacement steps.
spec fn steps(s: Seq<char>, k: nat) -> Seq<char>
    decreases k,
{
    if k == 0 {
        s
    } else {
        char_replaced(steps(s, (k - 1) as nat), step_from(k - 1), step_to(k - 1))
    }
}

proof fn lemma_char_replaced_concat(a: Seq<char>, b: Seq<char>, from: char, rep: Seq<char>)
    ensures
        char_replaced(a + b, from, rep) == char_replaced(a, from, rep) + char_replaced(
            b,
            from,
            rep,
        ),
    decreases a.len(),
{
    if a.len() == 0 {
        assert(a + b =~= b);
    } else {
        assert((a + b).drop_first() =~= a.drop_first() + b);
        lemma_char_replaced_concat(a.drop_first(), b, from, rep);
        let x = if a[0] == from {
            rep
        } else {
            seq![a[0]]
        };
        assert(x + (char_replaced(a.drop_first(), from, rep) + char_replaced(b, from, rep)) =~= (x
            + char_replaced(a.drop_first(), from, rep)) + char_replaced(b, from, rep));
    }
}

proof fn lemma_char_replaced_absent(s: Seq<char>, from: char, rep: Seq<char>)
    requires
        forall|i: int| 0 <= i < s.len() ==> s[i] != from,
    ensures
        char_replaced(s, from, rep) == s,
    decreases s.len(),
{
    if s.len() > 0 {
        lemma_char_replaced_absent(s.drop_first(), from, rep);
        assert(s =~= seq![s[0]] + s.drop_first());
    }
}

proof fn lemma_steps_concat(a: Seq<char>, b: Seq<char>, k: nat)
    ensures
        steps(a + b, k) == steps(a, k) + steps(b, k),
    decreases k,
{
    if k > 0 {
        lemma_steps_concat(a, b, (k - 1) as nat);
        lemma_char_replaced_concat(
            steps(a, (k - 1) as nat),
            steps(b, (k - 1) as nat),
            step_from(k - 1),
            step_to(k - 1),
        );
    }
}

proof fn lemma_steps_umlaut_free(s: Seq<char>, k: nat)
    requires
        forall|i: int| 0 <= i < s.len() ==> !is_umlaut(#[trigger] s[i]),
        k <= 8,
    ensures
        steps(s, k) == s,
    decreases k,
{
    if k > 0 {
        lemma_steps_umlaut_free(s, (k - 1) as nat);
        assert(is_umlaut(step_from(k - 1)));
        lemma_char_replaced_absent(s, step_from(k - 1), step_to(k - 1));
    }
}

proof fn lemma_steps_single(c: char, k: nat)
    requires
        k <= 8,
    ensures
        steps(seq![c], k) == (if is_umlaut(c) && first_step(c) < k {
            transliteration(c)
        } else {
            seq![c]
        }),
    decreases k,
{
    if k > 0 {
        lemma_steps_single(c, (k - 1) as nat);
        let prev = steps(seq![c], (k - 1) as nat);
        let t = transliteration(c);
        if is_umlaut(c) && first_step(c) < k - 1 {
            assert(forall|i: int| 0 <= i < t.len() ==> !is_umlaut(#[trigger] t[i]));
            lemma_char_replaced_absent(t, step_from(k - 1), step_to(k - 1));
        } else {
            assert(seq![c].drop_first() =~= Seq::<char>::empty());
            assert(char_replaced(Seq::<char>::empty(), step_from(k - 1), step_to(k - 1))
                =~= Seq::<char>::empty());
            if c == step_from(k - 1) {
                assert(char_replaced(prev, step_from(k - 1), step_to(k - 1)) =~= step_to(k - 1));
            } else {
                assert(char_replaced(prev, step_from(k - 1), step_to(k - 1)) =~= seq![c]);
            }
        }
    }
}

/// The eight replacement steps spell out every German letter.
proof fn lemma_steps_transliterate(s: Seq<char>)
    ensures
        steps(s, 8) == transliterated(s),
    decreases s.len(),
{
    if s.len() == 0 {
        lemma_steps_umlaut_free(s, 8);
    } else {
        let c = s[0];
        let rest = s.drop_first();
        assert(s =~= seq![c] + rest);
        lemma_steps_concat(seq![c], rest, 8);
        lemma_steps_single(c, 8);
        lemma_steps_transliterate(rest);
    }
}

proof fn lemma_non_slug_removed(s: Seq<char>)
    ensures
        forall|i: int|
            0 <= i < non_slug_replaced(s, Seq::empty()).len() ==> is_slug_char(
                #[trigger] non_slug_replaced(s, Seq::empty())[i],
            ),
        has_no_capital(s) ==> has_no_capital(non_slug_replaced(s, Seq::empty())),
    decreases s.len(),
{
    if s.len() > 0 {
        let rest = s.drop_first();
        lemma_non_slug_removed(rest);
        let rr = non_slug_replaced(rest, Seq::empty());
        let r = non_slug_replaced(s, Seq::empty());
        if is_slug_char(s[0]) {
            assert(r =~= seq![s[0]] + rr);
            assert(forall|i: int| 0 < i < r.len() ==> r[i] == rr[i - 1]);
            if has_no_capital(s) {
                assert(!is_latin_capital(s[0]));
                assert(has_no_capital(rest)) by {
                    assert(forall|i: int| 0 <= i < rest.len() ==> rest[i] == s[i + 1]);
                }
            }
        } else {
            assert(r =~= rr);
            if has_no_capital(s) {
                assert(has_no_capital(rest)) by {
                    assert(forall|i: int| 0 <= i < rest.len() ==> rest[i] == s[i + 1]);
                }
            }
        }
    }
}

proof fn lemma_underscores_squeezed(s: Seq<char>, pending: nat)
    requires
        forall|i: int| 0 <= i < s.len() ==> is_slug_char(#[trigger] s[i]),
    ensures
        ({
            let r = underscore_runs_from(s, seq!['_'], pending);
            &&& is_ascii_slug(r)
            &&& pending > 0 ==> r.len() > 0 && r[0] == '_' && (r.len() > 1 ==> r[1] != '_')
            &&& has_no_capital(s) ==> has_no_capital(r)
        }),
    decreases s.len(),
{
    let u = seq!['_'];
    let r = underscore_runs_from(s, u, pending);
    if s.len() > 0 {
        let rest = s.drop_first();
        assert(forall|i: int| 0 <= i < rest.len() ==> rest[i] == s[i + 1]);
        if has_no_capital(s) {
            assert forall|i: int| 0 <= i < rest.len() implies !is_latin_capital(
                #[trigger] rest[i],
            ) by {
                assert(rest[i] == s[i + 1]);
            }
        }
        if s[0] == '_' {
            lemma_underscores_squeezed(rest, pending + 1);
        } else {
            lemma_underscores_squeezed(rest, 0);
            let rr = underscore_runs_from(rest, u, 0);
            let head = underscore_run(pending, u) + seq![s[0]];
            assert(r =~= head + rr);
            assert(forall|i: int| 0 <= i < rr.len() ==> r[i + head.len()] == rr[i]);
            assert forall|i: int| 0 <= i < r.len() - 1 && #[trigger] r[i] == '_' implies r[i + 1]
                != '_' by {
                if i >= head.len() {
                    assert(r[i] == rr[i - head.len()]);
                    assert(r[i + 1] == rr[i + 1 - head.len()]);
                }
            }
            assert forall|i: int| 0 <= i < r.len() implies is_slug_char(#[trigger] r[i]) by {
                if i >= head.len() {
                    assert(r[i] == rr[i - head.len()]);
                }
            }
            if has_no_capital(s) {
                assert forall|i: int| 0 <= i < r.len() implies !is_latin_capital(
                    #[trigger] r[i],
                ) by {
                    if i >= head.len() {
                        assert(r[i] == rr[i - head.len()]);
                    }
                }
            }
        }
    }
}

proof fn lemma_to_ascii_result(s: Seq<char>)
    ensures
        is_ascii_slug(ascii_of(s)),
{
    let t = transliterated(s);
    lemma_non_slug_removed(t);
    lemma_underscores_squeezed(non_slug_replaced(t, Seq::empty()), 0);
}

proof fn lemma_transliterated_no_capital(s: Seq<char>)
    requires
        has_no_capital(s),
    ensures
        has_no_capital(transliterated(s)),
    decreases s.len(),
{
    if s.len() > 0 {
        let rest = s.drop_first();
        assert(has_no_capital(rest)) by {
            assert(forall|i: int| 0 <= i < rest.len() ==> rest[i] == s[i + 1]);
        }
        lemma_transliterated_no_capital(rest);
        assert(!is_latin_capital(s[0]));
        let h = transliteration(s[0]);
        let tr = transliterated(rest);
        assert(transliterated(s) =~= h + tr);
        assert(has_no_capital(h));
        assert(forall|i: int| 0 <= i < tr.len() ==> (h + tr)[i + h.len()] == tr[i]);
    }
}

/// Brings a lowercased title to ASCII: spells out German letters (capital
/// forms first), drops everything outside `[a-zA-Z0-9_-]` and squeezes
/// runs of underscores to one.
pub fn to_ascii(name: &String) -> (r: String)
    ensures
        r@ == ascii_of(name@),
        is_ascii_slug(r@),
{
    proof {
        reveal_strlit("Ä");
        reveal_strlit("Ö");
        reveal_strlit("Ü");
        reveal_strlit("ß");
        reveal_strlit("ä");
        reveal_strlit("ö");
        reveal_strlit("ü");
        reveal_strlit("Ae");
        reveal_strlit("Oe");
        reveal_strlit("Ue");
        reveal_strlit("ss");
        reveal_strlit("ae");
        reveal_strlit("oe");
        reveal_strlit("ue");
        reveal_strlit("");
        reveal_strlit("_");
        reveal_strlit("[^a-zA-Z0-9_-]");
        reveal_strlit("__+");
        assert("[^a-zA-Z0-9_-]"@ =~= non_slug_pattern());
        assert("__+"@ =~= underscore_run_pattern());
        assert("Ae"@ =~= step_to(0));
        assert("Oe"@ =~= step_to(1));
        assert("Ue"@ =~= step_to(2));
        assert("ss"@ =~= step_to(3));
        assert("ae"@ =~= step_to(4));
        assert("oe"@ =~= step_to(5));
        assert("ue"@ =~= step_to(6));
        assert("ss"@ =~= step_to(7));
        assert(""@ =~= Seq::<char>::empty());
        assert("_"@ =~= seq!['_']);
        assert("Ä"@ =~= seq!['Ä']);
        assert("Ö"@ =~= seq!['Ö']);
        assert("Ü"@ =~= seq!['Ü']);
        assert("ß"@ =~= seq!['ß']);
        assert("ä"@ =~= seq!['ä']);
        assert("ö"@ =~= seq!['ö']);
        assert("ü"@ =~= seq!['ü']);
        reveal_with_fuel(steps, 2);
    }
    let tmp = replace_matches("Ä", name.as_str(), "Ae");
    assert(tmp@ == steps(name@, 1));
    let tmp = replace_matches("Ö", tmp.as_str(), "Oe");
    assert(tmp@ == steps(name@, 2));
    let tmp = replace_matches("Ü", tmp.as_str(), "Ue");
    assert(tmp@ == steps(name@, 3));
    let tmp = replace_matches("ß", tmp.as_str(), "ss");
    assert(tmp@ == steps(name@, 4));
    let tmp = replace_matches("ä", tmp.as_str(), "ae");
    assert(tmp@ == steps(name@, 5));
    let tmp = replace_matches("ö", tmp.as_str(), "oe");
    assert(tmp@ == steps(name@, 6));
    let tmp = replace_matches("ü", tmp.as_str(), "ue");
    assert(tmp@ == steps(name@, 7));
    let tmp = replace_matches("ß", tmp.as_str(), "ss");
    assert(tmp@ == steps(name@, 8));
    proof {
        lemma_steps_transliterate(name@);
        lemma_to_ascii_result(name@);
    }
    let tmp = replace_matches("[^a-zA-Z0-9_-]", tmp.as_str(), "");
    replace_matches("__+", tmp.as_str(), "_")
}

/// The file-name slug of a title: whitespace runs become underscores, the
/// text is lowercased and brought to ASCII by `to_ascii`.
pub fn to_snake_case(name: &str) -> (r: String)
    ensures
        r@ == slug_of(name@),
        is_slug(r@),
        name@.len() == 0 ==> r@.len() == 0,
{
    proof {
        reveal_strlit("\\s+");
        reveal_strlit("_");
        assert("\\s+"@ =~= space_run_pattern());
        assert("_"@ =~= seq!['_']);
    }
    let joined = replace_matches("\\s+", name, "_");
    let lowered = lowercase(joined.as_str());
    let r = to_ascii(&lowered);
    proof {
        let t = transliterated(lowered@);
        lemma_transliterated_no_capital(lowered@);
        lemma_non_slug_removed(t);
        lemma_underscores_squeezed(non_slug_replaced(t, Seq::empty()), 0);
        if name@.len() == 0 {
            assert(joined@ =~= Seq::<char>::empty());
            assert(transliterated(lowered@) =~= Seq::<char>::empty());
            assert(non_slug_replaced(t, Seq::empty()) =~= Seq::<char>::empty());
        }
    }
    r
}

} // verus!
