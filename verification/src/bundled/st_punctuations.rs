//! Bundled `STPunctuations` dictionary: entries `source<TAB>replacement`, one per line.

use vstd::prelude::*;

verus! {

/// Part 0 of the text.
pub const ST_PUNCTUATIONS_0: &'static str = "“\t「\n”\t」\n‘\t『\n’\t』\n";

/// The number of parts of the text.
pub const PARTS: usize = 1;

/// Part `i` of the `STPunctuations` text; a later entry for the same source wins.
pub open spec fn part(i: int) -> Seq<char> {
    if i == 0 {
        ST_PUNCTUATIONS_0@
    } else {
        Seq::empty()
    }
}

/// Part `i` of the text.
pub fn part_exec(i: usize) -> (r: &'static str)
    requires
        i < PARTS,
    ensures
        r@ == part(i as int),
{
    match i {
        0 => ST_PUNCTUATIONS_0,
        _ => ST_PUNCTUATIONS_0,
    }
}

} // verus!
