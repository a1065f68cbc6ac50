//! Deciding whether this application is the registered default handler for
//! its document type. The host asks the OS registry two questions — the
//! per-user handler choice, then that handler's open command — and this
//! module does all the reading: it extracts the handler identifier from the
//! query's tabular output (the last token of the first line naming the value)
//! and decides whether an identifier or a command line points at the
//! application, case-insensitively.

use vstd::prelude::*;
use vstd::string::*;

use crate::text::{
    contains_sub, doubled_spec, double_char, is_space, str_contains, trim_end_spec,
};

verus! {

/// The text split at line feeds: always at least one (possibly empty) line.
pub open spec fn lines_spec(s: Seq<char>) -> Seq<Seq<char>>
    decreases s.len(),
{
    if s.len() == 0 {
        seq![Seq::<char>::empty()]
    } else {
        let rest = lines_spec(s.drop_last());
        if s.last() == '\n' {
            rest.push(Seq::empty())
        } else {
            rest.update(rest.len() - 1, rest.last().push(s.last()))
        }
    }
}

proof fn lemma_lines_nonempty(s: Seq<char>)
    ensures
        lines_spec(s).len() >= 1,
    decreases s.len(),
{
    if s.len() > 0 {
        lemma_lines_nonempty(s.drop_last());
    }
}

/// The views of a sequence of owned strings.
pub open spec fn views_of(v: Seq<String>) -> Seq<Seq<char>> {
    Seq::new(v.len(), |i: int| v[i]@)
}

/// Split `s` at line feeds.
pub fn split_lines(s: &str) -> (r: Vec<String>)
    ensures
        views_of(r@) == lines_spec(s@),
        r@.len() >= 1,
    decreases s@.len(),
{
    let n = s.unicode_len();
    if n == 0 {
        let mut v: Vec<String> = Vec::new();
        v.push(String::new());
        proof {
            assert(views_of(v@) =~= lines_spec(s@));
        }
        v
    } else {
        let head = s.substring_char(0, n - 1);
        proof {
            assert(head@ =~= s@.drop_last());
        }
        let mut rest = split_lines(head);
        let c = s.get_char(n - 1);
        if c == '\n' {
            rest.push(String::new());
            proof {
                assert(views_of(rest@) =~= lines_spec(s@));
            }
            rest
        } else {
            let ghost rest0 = rest@;
            let ghost ls0 = lines_spec(s@.drop_last());
            let mut last = rest.pop().unwrap();
            let tail = s.substring_char(n - 1, n);
            proof {
                assert(tail@ =~= seq![s@[n - 1]]);
            }
            last.append(tail);
            rest.push(last);
            proof {
                lemma_lines_nonempty(s@.drop_last());
                assert(views_of(rest0)[rest0.len() - 1] == rest0.last()@);
                assert(last@ =~= ls0.last().push(s@[n - 1]));
                assert(lines_spec(s@) == ls0.update(ls0.len() - 1, ls0.last().push(s@[n - 1])));
                assert forall|q: int| 0 <= q < rest0.len() - 1 implies views_of(rest@)[q]
                    == lines_spec(s@)[q] by {
                    assert(views_of(rest@)[q] == rest0[q]@);
                    assert(views_of(rest0)[q] == rest0[q]@);
                }
                assert(views_of(rest@)[rest0.len() - 1] == last@);
                assert(views_of(rest@) =~= lines_spec(s@));
            }
            rest
        }
    }
}

/// The first of the lines that contains `pat`, if any.
pub open spec fn first_line_with(ls: Seq<Seq<char>>, pat: Seq<char>) -> Option<Seq<char>>
    decreases ls.len(),
{
    if ls.len() == 0 {
        None
    } else if contains_sub(ls[0], pat) {
        Some(ls[0])
    } else {
        first_line_with(ls.drop_first(), pat)
    }
}

fn find_line_with(lines: &Vec<String>, pat: &str) -> (r: Option<String>)
    ensures
        match r {
            Some(l) => first_line_with(views_of(lines@), pat@) == Some(l@),
            None => first_line_with(views_of(lines@), pat@) is None,
        },
{
    let n = lines.len();
    proof {
        assert(views_of(lines@).skip(0) =~= views_of(lines@));
    }
    let mut i: usize = 0;
    while i < n
        invariant
            0 <= i <= n,
            n == lines@.len(),
            first_line_with(views_of(lines@), pat@) == first_line_with(
                views_of(lines@).skip(i as int),
                pat@,
            ),
        decreases n - i,
    {
        let line = &lines[i];
        let ghost vs = views_of(lines@);
        proof {
            assert(vs.skip(i as int).len() == n - i);
            assert(vs.skip(i as int)[0] == vs[i as int]);
            assert(vs.skip(i as int).drop_first() =~= vs.skip(i + 1));
        }
        if str_contains(line.as_str(), pat) {
            return Some(line.clone());
        }
        i = i + 1;
    }
    proof {
        assert(views_of(lines@).skip(n as int).len() == 0);
    }
    None
}

/// The maximal run of non-whitespace characters at the end of `s`.
pub open spec fn trailing_run_spec(s: Seq<char>) -> Seq<char>
    decreases s.len(),
{
    if s.len() > 0 && !is_space(s.last()) {
        trailing_run_spec(s.drop_last()).push(s.last())
    } else {
        Seq::empty()
    }
}

proof fn lemma_trailing_run_skip(s: Seq<char>, k: int)
    requires
        0 <= k <= s.len(),
        forall|q: int| k <= q < s.len() ==> !is_space(s[q]),
        k > 0 ==> is_space(s[k - 1]),
    ensures
        trailing_run_spec(s) == s.skip(k),
    decreases s.len() - k,
{
    if k == s.len() {
        assert(s.skip(k) =~= Seq::<char>::empty());
    } else {
        let t = s.drop_last();
        lemma_trailing_run_skip(t, k);
        assert(t.skip(k).push(s.last()) =~= s.skip(k));
    }
}

/// The last whitespace-separated token of `line` (empty when the line has
/// none): the trailing non-whitespace run after trailing whitespace is
/// stripped.
pub open spec fn last_token_spec(line: Seq<char>) -> Seq<char> {
    trailing_run_spec(trim_end_spec(line))
}

/// The last whitespace-separated token of `line`.
pub fn last_token(line: &str) -> (r: String)
    ensures
        r@ == last_token_spec(line@),
{
    let n = line.unicode_len();
    let mut j: usize = n;
    while j > 0 && is_space_at(line, j - 1)
        invariant
            0 <= j <= n,
            n == line@.len(),
            forall|q: int| j <= q < n ==> is_space(line@[q]),
        decreases j,
    {
        j = j - 1;
    }
    let mut k: usize = j;
    while k > 0 && !is_space_at(line, k - 1)
        invariant
            0 <= k <= j <= n,
            n == line@.len(),
            forall|q: int| k <= q < j ==> !is_space(line@[q]),
        decreases k,
    {
        k = k - 1;
    }
    let r = String::from_str(line.substring_char(k, j));
    proof {
        crate::text::lemma_trim_end_take(line@, j as int);
        let t = line@.take(j as int);
        lemma_trailing_run_skip(t, k as int);
        assert(t.skip(k as int) =~= line@.subrange(k as int, j as int));
    }
    r
}

fn is_space_at(s: &str, i: usize) -> (r: bool)
    requires
        i < s@.len(),
    ensures
        r == is_space(s@[i as int]),
{
    let c = s.get_char(i);
    c == ' ' || c == '\t' || c == '\n' || c == '\r'
}

/// The handler identifier in the registry query's output: the last token of
/// the first line that names the queried value, empty when no line does or
/// the line carries nothing.
pub open spec fn prog_id_spec(out: Seq<char>) -> Seq<char> {
    match first_line_with(lines_spec(out), "ProgId"@) {
        Some(l) => last_token_spec(l),
        None => Seq::empty(),
    }
}

/// Extract the handler identifier from the registry query's output.
pub fn extract_prog_id(out: &String) -> (r: String)
    ensures
        r@ == prog_id_spec(out@),
{
    let lines = split_lines(out.as_str());
    match find_line_with(&lines, "ProgId") {
        Some(l) => last_token(l.as_str()),
        None => String::new(),
    }
}

/// What Unicode lowercasing yields for `s`: a function of the characters
/// alone.
pub uninterp spec fn lower_of(s: Seq<char>) -> Seq<char>;

/// Relies on `str::to_lowercase`: the result depends on the input characters
/// alone; an empty input stays empty.
#[verifier::external_body]
pub(crate) fn lowercase(s: &str) -> (r: String)
    ensures
        r@ == lower_of(s@),
        s@.len() == 0 ==> r@.len() == 0,
{
    s.to_lowercase()
}

/// Whether a handler identifier names the application: its lowercasing
/// mentions the application's token.
pub fn prog_id_is_app(prog_id: &String) -> (r: bool)
    ensures
        r == contains_sub(lower_of(prog_id@), "openpdfstudio"@),
{
    let low = lowercase(prog_id.as_str());
    str_contains(low.as_str(), "openpdfstudio")
}

/// Whether a handler's open command points at the application: its
/// lowercasing mentions the application's token, or it mentions this
/// executable's lowercased path with every backslash doubled (the form the
/// registry stores).
pub fn command_points_at_app(command_output: &String, exe_path: &String) -> (r: bool)
    ensures
        r == (contains_sub(lower_of(command_output@), "openpdfstudio"@) || contains_sub(
            lower_of(command_output@),
            doubled_spec(lower_of(exe_path@), '\\'),
        )),
{
    let low = lowercase(command_output.as_str());
    if str_contains(low.as_str(), "openpdfstudio") {
        return true;
    }
    let exe = lowercase(exe_path.as_str());
    let esc = double_char(exe.as_str(), '\\');
    str_contains(low.as_str(), esc.as_str())
}

} // verus!
