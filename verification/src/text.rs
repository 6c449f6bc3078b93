//! Strings as sequences of characters, and lists of them.

use vstd::prelude::*;

verus! {

/// The contents of a list of strings, each taken as its characters.
pub open spec fn texts(list: Seq<String>) -> Seq<Seq<char>> {
    list.map_values(|s: String| s@)
}

/// Appends a copy of every string of `more` to `list`, in order.
pub fn append_texts(list: &mut Vec<String>, more: &Vec<String>)
    ensures
        texts(final(list)@) == texts(old(list)@) + texts(more@),
{
    let ghost before = list@;
    let mut i: usize = 0;
    while i < more.len()
        invariant
            i <= more.len(),
            list.len() == before.len() + i,
            forall|j: int| 0 <= j < before.len() ==> list[j] == before[j],
            forall|j: int| 0 <= j < i ==> list[before.len() + j]@ == more[j]@,
        decreases more.len() - i,
    {
        list.push(more[i].clone());
        i += 1;
    }
    assert(texts(list@) =~= texts(before) + texts(more@));
}

} // verus!
