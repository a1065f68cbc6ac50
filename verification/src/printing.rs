//! The non-privileged print path: normalizing the device enumeration's output
//! into a JSON array and preparing the dispatch command that hands a document
//! to the OS's own handler. The enumeration tool prints a single object (not a
//! one-element array) when exactly one device exists; the normalizer repairs
//! that. Values spliced into a command line are single-quote escaped by
//! doubling, the shell's own quoting rule.

use vstd::prelude::*;
use vstd::string::*;

use crate::text::{decimal_spec, double_char, doubled_spec, trim_spec, trim_str, u64_to_decimal};

verus! {

/// The scratch-file name a document passed for printing is persisted under,
/// derived from a fresh stamp so concurrent print requests never collide.
pub open spec fn temp_pdf_name_spec(stamp: u64) -> Seq<char> {
    "openstudio_print_"@ + decimal_spec(stamp as nat) + ".pdf"@
}

/// The scratch-file name for a document passed for printing.
pub fn temp_pdf_name(stamp: u64) -> (r: String)
    ensures
        r@ == temp_pdf_name_spec(stamp),
{
    let mut r = String::from_str("openstudio_print_");
    let d = u64_to_decimal(stamp);
    r.append(d.as_str());
    r.append(".pdf");
    proof {
        assert(r@ =~= temp_pdf_name_spec(stamp));
    }
    r
}

/// `s` with every single quote doubled, the shell's quoting rule for values
/// spliced between single quotes.
pub open spec fn squote_escaped(s: Seq<char>) -> Seq<char> {
    doubled_spec(s, '\'')
}

/// Escape `s` for splicing between single quotes on a shell command line.
pub fn squote_escape(s: &str) -> (r: String)
    ensures
        r@ == squote_escaped(s@),
{
    double_char(s, '\'')
}

/// The device enumeration's output brought to a JSON array: trimmed, and
/// wrapped in brackets when it is a single object.
pub open spec fn normalized_list_spec(raw: Seq<char>) -> Seq<char> {
    let t = trim_spec(raw);
    if t.len() > 0 && t[0] == '{' {
        seq!['['] + t + seq![']']
    } else {
        t
    }
}

/// Normalize the enumeration output.
pub fn normalize_printer_list(raw: &String) -> (r: String)
    ensures
        r@ == normalized_list_spec(raw@),
{
    let t = trim_str(raw.as_str());
    if t.unicode_len() > 0 && t.get_char(0) == '{' {
        let mut r = String::from_str("[");
        r.append(t);
        r.append("]");
        proof {
            reveal_strlit("[");
            reveal_strlit("]");
            assert(r@ =~= normalized_list_spec(raw@));
        }
        r
    } else {
        String::from_str(t)
    }
}

/// The dispatch command that prints a document on a named device through the
/// OS's own document handler, both values single-quote escaped.
pub open spec fn print_command_spec(path: Seq<char>, printer: Seq<char>) -> Seq<char> {
    "Start-Process -FilePath '"@ + squote_escaped(path)
        + "' -Verb PrintTo -ArgumentList '\""@ + squote_escaped(printer)
        + "\"' -WindowStyle Hidden"@
}

/// Build the dispatch command for `path` and `printer`.
pub fn print_command(path: &String, printer: &String) -> (r: String)
    ensures
        r@ == print_command_spec(path@, printer@),
{
    let mut r = String::from_str("Start-Process -FilePath '");
    let ep = squote_escape(path.as_str());
    r.append(ep.as_str());
    r.append("' -Verb PrintTo -ArgumentList '\"");
    let en = squote_escape(printer.as_str());
    r.append(en.as_str());
    r.append("\"' -WindowStyle Hidden");
    proof {
        assert(r@ =~= print_command_spec(path@, printer@));
    }
    r
}

} // verus!
