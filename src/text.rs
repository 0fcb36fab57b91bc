//! Plain facts about character sequences.
use vstd::prelude::*;

verus! {

/// `needle` occurs in `hay` exactly as written.
pub open spec fn contains_exactly(hay: Seq<char>, needle: Seq<char>) -> bool {
    exists|i: int|
        0 <= i && i + needle.len() <= hay.len() && #[trigger] hay.subrange(i, i + needle.len())
            == needle
}

} // verus!
