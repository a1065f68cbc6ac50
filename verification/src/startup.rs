//! Choosing the document to open from the command line the host was started
//! with: the first argument that names a document file (by its lowercased
//! extension) and is not an option switch.

use vstd::prelude::*;
use vstd::string::*;

use crate::defaults::{lower_of, views_of};
use crate::text::{ends_with_spec, str_ends_with};

verus! {

/// `a` names a document to open: its lowercasing ends with the document
/// extension and it does not start with the switch marker.
pub open spec fn is_document_argument(a: Seq<char>) -> bool {
    ends_with_spec(lower_of(a), ".pdf"@) && !(a.len() > 0 && a[0] == '-')
}

/// The argument list without the leading program name.
pub open spec fn command_line_tail(args: Seq<Seq<char>>) -> Seq<Seq<char>> {
    if args.len() == 0 {
        args
    } else {
        args.drop_first()
    }
}

/// The first document argument, if any.
pub open spec fn first_document_argument(args: Seq<Seq<char>>) -> Option<Seq<char>>
    decreases args.len(),
{
    if args.len() == 0 {
        None
    } else if is_document_argument(args[0]) {
        Some(args[0])
    } else {
        first_document_argument(args.drop_first())
    }
}

fn is_document_argument_exec(a: &String) -> (r: bool)
    ensures
        r == is_document_argument(a@),
{
    let low = crate::defaults::lowercase(a.as_str());
    if !str_ends_with(low.as_str(), ".pdf") {
        return false;
    }
    if a.unicode_len() > 0 && a.as_str().get_char(0) == '-' {
        return false;
    }
    true
}

/// Pick the document to open out of the full argument list; the leading
/// program name is skipped.
pub fn pick_opened_file(args: &Vec<String>) -> (r: Option<String>)
    ensures
        match r {
            Some(p) => first_document_argument(command_line_tail(views_of(args@))) == Some(p@),
            None => first_document_argument(command_line_tail(views_of(args@))) is None,
        },
{
    let n = args.len();
    let ghost vs = views_of(args@);
    if n == 0 {
        return None;
    }
    proof {
        assert(command_line_tail(vs) =~= vs.skip(1));
    }
    let mut i: usize = 1;
    while i < n
        invariant
            1 <= i <= n,
            n == args@.len(),
            vs == views_of(args@),
            first_document_argument(command_line_tail(vs)) == first_document_argument(
                vs.skip(i as int),
            ),
        decreases n - i,
    {
        let a = &args[i];
        proof {
            assert(vs.skip(i as int).len() == n - i);
            assert(vs.skip(i as int)[0] == vs[i as int]);
            assert(vs.skip(i as int).drop_first() =~= vs.skip(i + 1));
        }
        if is_document_argument_exec(a) {
            return Some(a.clone());
        }
        i = i + 1;
    }
    proof {
        assert(vs.skip(n as int).len() == 0);
    }
    None
}

} // verus!
