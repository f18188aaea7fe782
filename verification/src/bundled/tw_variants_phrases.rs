//! Bundled `TWVariantsPhrases` dictionary: entries `source<TAB>replacement`, one per line.

use vstd::prelude::*;

verus! {

/// Part 0 of the text.
pub const TW_VARIANTS_PHRASES_0: &'static str = "喫茶小舖\t喫茶小舖\n張棟樑\t張棟樑\n林國樑\t林國樑\n林杰樑\t林杰樑\n楊士樑\t楊士樑\n牛驥同一皁\t牛驥同一皁\n牛驥同皁\t牛驥同皁\n純喫茶\t純喫茶\n羅興樑\t羅興樑\n葉步樑\t葉步樑\n蔣國樑\t蔣國樑\n黃東樑\t黃東樑\n甚麼\t什麼\n";

/// The number of parts of the text.
pub const PARTS: usize = 1;

/// Part `i` of the `TWVariantsPhrases` text; a later entry for the same source wins.
pub open spec fn part(i: int) -> Seq<char> {
    if i == 0 {
        TW_VARIANTS_PHRASES_0@
    } else {
        Seq::empty()
    }
}

/// Part `i` of the text.
pub fn part_exec(i: usize) -> (r: &'static str)
    requires
        i < PARTS,
    ensures
        r@ == part(i as int),
{
    match i {
        0 => TW_VARIANTS_PHRASES_0,
        _ => TW_VARIANTS_PHRASES_0,
    }
}

} // verus!
