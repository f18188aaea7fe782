//! The delimiter characters that split text into independently converted
//! segments: ASCII white space and punctuation, and common CJK punctuation.

use vstd::prelude::*;

verus! {

/// Whether `c` ends a conversion segment.
pub open spec fn is_delimiter(c: char) -> bool {
    let u = c as int;
    ||| u == 0x0009
    ||| u == 0x000A
    ||| u == 0x000D
    ||| u == 0x0020
    ||| u == 0x0021
    ||| u == 0x0022
    ||| u == 0x0023
    ||| u == 0x0024
    ||| u == 0x0025
    ||| u == 0x0026
    ||| u == 0x0027
    ||| u == 0x0028
    ||| u == 0x0029
    ||| u == 0x002A
    ||| u == 0x002B
    ||| u == 0x002C
    ||| u == 0x002D
    ||| u == 0x002E
    ||| u == 0x002F
    ||| u == 0x003A
    ||| u == 0x003B
    ||| u == 0x003C
    ||| u == 0x003D
    ||| u == 0x003E
    ||| u == 0x003F
    ||| u == 0x0040
    ||| u == 0x005B
    ||| u == 0x005C
    ||| u == 0x005D
    ||| u == 0x005E
    ||| u == 0x005F
    ||| u == 0x007B
    ||| u == 0x007C
    ||| u == 0x007D
    ||| u == 0x007E
    ||| u == 0x2014
    ||| u == 0x2026
    ||| u == 0x3000
    ||| u == 0x3001
    ||| u == 0x3002
    ||| u == 0x3008
    ||| u == 0x3009
    ||| u == 0x300A
    ||| u == 0x300B
    ||| u == 0x3010
    ||| u == 0x3011
    ||| u == 0xFE10
    ||| u == 0xFE11
    ||| u == 0xFE12
    ||| u == 0xFE13
    ||| u == 0xFE14
    ||| u == 0xFE15
    ||| u == 0xFE16
    ||| u == 0xFE19
    ||| u == 0xFE30
    ||| u == 0xFE33
    ||| u == 0xFE34
    ||| u == 0xFE35
    ||| u == 0xFE36
    ||| u == 0xFE37
    ||| u == 0xFE38
    ||| u == 0xFE39
    ||| u == 0xFE3A
    ||| u == 0xFE3B
    ||| u == 0xFE3C
    ||| u == 0xFE3D
    ||| u == 0xFE3E
    ||| u == 0xFE3F
    ||| u == 0xFE40
    ||| u == 0xFE41
    ||| u == 0xFE42
    ||| u == 0xFE43
    ||| u == 0xFE44
    ||| u == 0xFE47
    ||| u == 0xFE48
    ||| u == 0xFF01
    ||| u == 0xFF08
    ||| u == 0xFF09
    ||| u == 0xFF0C
    ||| u == 0xFF0D
    ||| u == 0xFF0E
    ||| u == 0xFF0F
    ||| u == 0xFF1A
    ||| u == 0xFF1B
    ||| u == 0xFF1D
    ||| u == 0xFF1F
    ||| u == 0xFF3B
    ||| u == 0xFF3C
    ||| u == 0xFF3D
    ||| u == 0xFF5B
    ||| u == 0xFF5D
    ||| u == 0xFF5E
}

/// Whether `c` ends a conversion segment.
pub fn is_delimiter_exec(c: char) -> (r: bool)
    ensures
        r == is_delimiter(c),
{
    let u = c as u32;
    u == 0x0009 || u == 0x000A || u == 0x000D || u == 0x0020 || u == 0x0021 || u == 0x0022 ||
        u == 0x0023 || u == 0x0024 || u == 0x0025 || u == 0x0026 || u == 0x0027 || u == 0x0028 ||
        u == 0x0029 || u == 0x002A || u == 0x002B || u == 0x002C || u == 0x002D || u == 0x002E ||
        u == 0x002F || u == 0x003A || u == 0x003B || u == 0x003C || u == 0x003D || u == 0x003E ||
        u == 0x003F || u == 0x0040 || u == 0x005B || u == 0x005C || u == 0x005D || u == 0x005E ||
        u == 0x005F || u == 0x007B || u == 0x007C || u == 0x007D || u == 0x007E || u == 0x2014 ||
        u == 0x2026 || u == 0x3000 || u == 0x3001 || u == 0x3002 || u == 0x3008 || u == 0x3009 ||
        u == 0x300A || u == 0x300B || u == 0x3010 || u == 0x3011 || u == 0xFE10 || u == 0xFE11 ||
        u == 0xFE12 || u == 0xFE13 || u == 0xFE14 || u == 0xFE15 || u == 0xFE16 || u == 0xFE19 ||
        u == 0xFE30 || u == 0xFE33 || u == 0xFE34 || u == 0xFE35 || u == 0xFE36 || u == 0xFE37 ||
        u == 0xFE38 || u == 0xFE39 || u == 0xFE3A || u == 0xFE3B || u == 0xFE3C || u == 0xFE3D ||
        u == 0xFE3E || u == 0xFE3F || u == 0xFE40 || u == 0xFE41 || u == 0xFE42 || u == 0xFE43 ||
        u == 0xFE44 || u == 0xFE47 || u == 0xFE48 || u == 0xFF01 || u == 0xFF08 || u == 0xFF09 ||
        u == 0xFF0C || u == 0xFF0D || u == 0xFF0E || u == 0xFF0F || u == 0xFF1A || u == 0xFF1B ||
        u == 0xFF1D || u == 0xFF1F || u == 0xFF3B || u == 0xFF3C || u == 0xFF3D || u == 0xFF5B ||
        u == 0xFF5D || u == 0xFF5E
}

} // verus!
