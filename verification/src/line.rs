//! Producing a line value from one raw input read.
//!
//! A line is the raw read with its trailing line terminator stripped:
//! one trailing `'\n'` is removed, together with a `'\r'` immediately
//! before it. Nothing else is touched; interior terminators and other
//! whitespace stay.

use vstd::prelude::*;

verus! {

/// The characters of a raw read with the trailing line terminator
/// stripped: one final `'\n'` goes, and a `'\r'` just before it goes
/// with it.
pub open spec fn stripped(raw: Seq<char>) -> Seq<char> {
    if raw.len() > 0 && raw.last() == '\n' {
        let no_nl = raw.drop_last();
        if no_nl.len() > 0 && no_nl.last() == '\r' {
            no_nl.drop_last()
        } else {
            no_nl
        }
    } else {
        raw
    }
}

/// Strips the trailing line terminator from one raw read, producing
/// the line value (possibly empty) handed to the channel.
pub fn strip_line_end(raw: &str) -> (line: String)
    ensures
        line@ == stripped(raw@),
{
    let n: usize = raw.unicode_len();
    if n > 0 && raw.get_char(n - 1) == '\n' {
        if n > 1 && raw.get_char(n - 2) == '\r' {
            let kept = raw.substring_char(0, n - 2);
            proof {
                assert(kept@ =~= raw@.drop_last().drop_last());
            }
            kept.to_owned()
        } else {
            let kept = raw.substring_char(0, n - 1);
            proof {
                assert(kept@ =~= raw@.drop_last());
            }
            kept.to_owned()
        }
    } else {
        raw.to_owned()
    }
}

} // verus!
