//! Classification of input lines into commands.
//!
//! Every line the user types is either the reserved termination word,
//! compared exactly and case-sensitively, or a lookup key — any other
//! line, the empty line included.

use vstd::prelude::*;

verus! {

/// The reserved word that ends the session.
pub open spec fn terminate_word() -> Seq<char> {
    "exit"@
}

/// The termination word as an owned string, for callers that need
/// the runtime value.
pub fn terminate_literal() -> (r: String)
    ensures
        r@ == terminate_word(),
{
    "exit".to_owned()
}

/// What one input line asks the dispatcher to do.
pub enum Command {
    /// End the session.
    Terminate,
    /// Resolve the line, taken verbatim, as a lookup key.
    Lookup(String),
}

/// Classifies a line: exactly the termination word ends the session;
/// every other line, the empty line included, is a lookup key taken
/// verbatim.
pub fn classify(line: String) -> (c: Command)
    ensures
        (line@ == terminate_word()) <==> (c is Terminate),
        c matches Command::Lookup(key) ==> key@ == line@,
{
    if line.eq(&terminate_literal()) {
        Command::Terminate
    } else {
        Command::Lookup(line)
    }
}

} // verus!
