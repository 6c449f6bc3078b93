//! Paths as text: the names of directories and files, separated by `/`.

use vstd::prelude::*;
use vstd::string::*;

verus! {

/// The path of the entry `part` of the directory `base`: the two with one
/// separator between them.
pub open spec fn joined(base: Seq<char>, part: Seq<char>) -> Seq<char> {
    base + seq!['/'] + part
}

/// The path of the entry `part` of the directory `base`.
pub fn join(base: &str, part: &str) -> (path: String)
    ensures
        path@ == joined(base@, part@),
{
    proof {
        reveal_strlit("/");
    }
    let mut path = base.to_owned();
    path.append("/");
    path.append(part);
    assert("/"@ =~= seq!['/']);
    path
}

/// The text `head` followed by the text `tail`.
pub fn with_suffix(head: &str, tail: &str) -> (text: String)
    ensures
        text@ == head@ + tail@,
{
    let mut text = head.to_owned();
    text.append(tail);
    text
}

} // verus!
