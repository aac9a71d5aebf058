//! Character classes of Unicode that identifiers are made of, as tables of code points.

use vstd::prelude::*;

verus! {

/// Combining marks below U+1000.
pub open spec fn low_mark(code: u32) -> bool {
    (0x0300 <= code && code <= 0x036F) || (0x0483 <= code && code <= 0x0487)
        || (0x0591 <= code && code <= 0x05BD) || code == 0x05BF || (
            0x05C1 <= code && code <= 0x05C2
        )
        || (0x05C4 <= code && code <= 0x05C5) || code == 0x05C7 || (
            0x0610 <= code && code <= 0x061A
        )
        || (0x064B <= code && code <= 0x065F) || code == 0x0670 || (
            0x06D6 <= code && code <= 0x06DC
        )
        || (0x06DF <= code && code <= 0x06E4) || (0x06E7 <= code && code <= 0x06E8)
        || (0x06EA <= code && code <= 0x06ED) || code == 0x0711 || (
            0x0730 <= code && code <= 0x074A
        )
        || (0x07A6 <= code && code <= 0x07B0) || (
            0x07EB <= code && code <= 0x07F3
        ) || code == 0x07FD
        || (0x0816 <= code && code <= 0x0819) || (0x081B <= code && code <= 0x0823)
        || (0x0825 <= code && code <= 0x0827) || (0x0829 <= code && code <= 0x082D)
        || (0x0859 <= code && code <= 0x085B) || (0x0898 <= code && code <= 0x089F)
        || (0x08CA <= code && code <= 0x08E1) || (0x08E3 <= code && code <= 0x0903)
        || (0x093A <= code && code <= 0x093C) || (0x093E <= code && code <= 0x094F)
        || (0x0951 <= code && code <= 0x0957) || (0x0962 <= code && code <= 0x0963)
        || (0x0981 <= code && code <= 0x0983) || code == 0x09BC || (
            0x09BE <= code && code <= 0x09C4
        )
        || (0x09C7 <= code && code <= 0x09C8) || (
            0x09CB <= code && code <= 0x09CD
        ) || code == 0x09D7
        || (0x09E2 <= code && code <= 0x09E3) || code == 0x09FE || (
            0x0A01 <= code && code <= 0x0A03
        )
        || code == 0x0A3C || (0x0A3E <= code && code <= 0x0A42) || (
            0x0A47 <= code && code <= 0x0A48
        )
        || (0x0A4B <= code && code <= 0x0A4D) || code == 0x0A51 || (
            0x0A70 <= code && code <= 0x0A71
        )
        || code == 0x0A75 || (0x0A81 <= code && code <= 0x0A83) || code == 0x0ABC
        || (0x0ABE <= code && code <= 0x0AC5) || (0x0AC7 <= code && code <= 0x0AC9)
        || (0x0ACB <= code && code <= 0x0ACD) || (0x0AE2 <= code && code <= 0x0AE3)
        || (0x0AFA <= code && code <= 0x0AFF) || (
            0x0B01 <= code && code <= 0x0B03
        ) || code == 0x0B3C
        || (0x0B3E <= code && code <= 0x0B44) || (0x0B47 <= code && code <= 0x0B48)
        || (0x0B4B <= code && code <= 0x0B4D) || (0x0B55 <= code && code <= 0x0B57)
        || (0x0B62 <= code && code <= 0x0B63) || code == 0x0B82 || (
            0x0BBE <= code && code <= 0x0BC2
        )
        || (0x0BC6 <= code && code <= 0x0BC8) || (
            0x0BCA <= code && code <= 0x0BCD
        ) || code == 0x0BD7
        || (0x0C00 <= code && code <= 0x0C04) || code == 0x0C3C || (
            0x0C3E <= code && code <= 0x0C44
        )
        || (0x0C46 <= code && code <= 0x0C48) || (0x0C4A <= code && code <= 0x0C4D)
        || (0x0C55 <= code && code <= 0x0C56) || (0x0C62 <= code && code <= 0x0C63)
        || (0x0C81 <= code && code <= 0x0C83) || code == 0x0CBC || (
            0x0CBE <= code && code <= 0x0CC4
        )
        || (0x0CC6 <= code && code <= 0x0CC8) || (0x0CCA <= code && code <= 0x0CCD)
        || (0x0CD5 <= code && code <= 0x0CD6) || (0x0CE2 <= code && code <= 0x0CE3)
        || (0x0D00 <= code && code <= 0x0D03) || (0x0D3B <= code && code <= 0x0D3C)
        || (0x0D3E <= code && code <= 0x0D44) || (0x0D46 <= code && code <= 0x0D48)
        || (0x0D4A <= code && code <= 0x0D4D) || code == 0x0D57 || (
            0x0D62 <= code && code <= 0x0D63
        )
        || (0x0D81 <= code && code <= 0x0D83) || code == 0x0DCA || (
            0x0DCF <= code && code <= 0x0DD4
        )
        || code == 0x0DD6 || (0x0DD8 <= code && code <= 0x0DDF) || (
            0x0DF2 <= code && code <= 0x0DF3
        )
        || code == 0x0E31 || (0x0E34 <= code && code <= 0x0E3A) || (
            0x0E47 <= code && code <= 0x0E4E
        )
        || code == 0x0EB1 || (0x0EB4 <= code && code <= 0x0EBC) || (
            0x0EC8 <= code && code <= 0x0ECD
        )
        || (0x0F18 <= code && code <= 0x0F19) || code == 0x0F35 || code == 0x0F37 || code == 0x0F39
        || (0x0F3E <= code && code <= 0x0F3F) || (0x0F71 <= code && code <= 0x0F84)
        || (0x0F86 <= code && code <= 0x0F87) || (0x0F8D <= code && code <= 0x0F97)
        || (0x0F99 <= code && code <= 0x0FBC) || code == 0x0FC6
}

/// Combining marks below U+1000.
pub fn is_low_mark(code: u32) -> (result: bool)
    ensures
        result == low_mark(code),
{
    (0x0300 <= code && code <= 0x036F) || (0x0483 <= code && code <= 0x0487)
        || (0x0591 <= code && code <= 0x05BD) || code == 0x05BF || (
            0x05C1 <= code && code <= 0x05C2
        )
        || (0x05C4 <= code && code <= 0x05C5) || code == 0x05C7 || (
            0x0610 <= code && code <= 0x061A
        )
        || (0x064B <= code && code <= 0x065F) || code == 0x0670 || (
            0x06D6 <= code && code <= 0x06DC
        )
        || (0x06DF <= code && code <= 0x06E4) || (0x06E7 <= code && code <= 0x06E8)
        || (0x06EA <= code && code <= 0x06ED) || code == 0x0711 || (
            0x0730 <= code && code <= 0x074A
        )
        || (0x07A6 <= code && code <= 0x07B0) || (
            0x07EB <= code && code <= 0x07F3
        ) || code == 0x07FD
        || (0x0816 <= code && code <= 0x0819) || (0x081B <= code && code <= 0x0823)
        || (0x0825 <= code && code <= 0x0827) || (0x0829 <= code && code <= 0x082D)
        || (0x0859 <= code && code <= 0x085B) || (0x0898 <= code && code <= 0x089F)
        || (0x08CA <= code && code <= 0x08E1) || (0x08E3 <= code && code <= 0x0903)
        || (0x093A <= code && code <= 0x093C) || (0x093E <= code && code <= 0x094F)
        || (0x0951 <= code && code <= 0x0957) || (0x0962 <= code && code <= 0x0963)
        || (0x0981 <= code && code <= 0x0983) || code == 0x09BC || (
            0x09BE <= code && code <= 0x09C4
        )
        || (0x09C7 <= code && code <= 0x09C8) || (
            0x09CB <= code && code <= 0x09CD
        ) || code == 0x09D7
        || (0x09E2 <= code && code <= 0x09E3) || code == 0x09FE || (
            0x0A01 <= code && code <= 0x0A03
        )
        || code == 0x0A3C || (0x0A3E <= code && code <= 0x0A42) || (
            0x0A47 <= code && code <= 0x0A48
        )
        || (0x0A4B <= code && code <= 0x0A4D) || code == 0x0A51 || (
            0x0A70 <= code && code <= 0x0A71
        )
        || code == 0x0A75 || (0x0A81 <= code && code <= 0x0A83) || code == 0x0ABC
        || (0x0ABE <= code && code <= 0x0AC5) || (0x0AC7 <= code && code <= 0x0AC9)
        || (0x0ACB <= code && code <= 0x0ACD) || (0x0AE2 <= code && code <= 0x0AE3)
        || (0x0AFA <= code && code <= 0x0AFF) || (
            0x0B01 <= code && code <= 0x0B03
        ) || code == 0x0B3C
        || (0x0B3E <= code && code <= 0x0B44) || (0x0B47 <= code && code <= 0x0B48)
        || (0x0B4B <= code && code <= 0x0B4D) || (0x0B55 <= code && code <= 0x0B57)
        || (0x0B62 <= code && code <= 0x0B63) || code == 0x0B82 || (
            0x0BBE <= code && code <= 0x0BC2
        )
        || (0x0BC6 <= code && code <= 0x0BC8) || (
            0x0BCA <= code && code <= 0x0BCD
        ) || code == 0x0BD7
        || (0x0C00 <= code && code <= 0x0C04) || code == 0x0C3C || (
            0x0C3E <= code && code <= 0x0C44
        )
        || (0x0C46 <= code && code <= 0x0C48) || (0x0C4A <= code && code <= 0x0C4D)
        || (0x0C55 <= code && code <= 0x0C56) || (0x0C62 <= code && code <= 0x0C63)
        || (0x0C81 <= code && code <= 0x0C83) || code == 0x0CBC || (
            0x0CBE <= code && code <= 0x0CC4
        )
        || (0x0CC6 <= code && code <= 0x0CC8) || (0x0CCA <= code && code <= 0x0CCD)
        || (0x0CD5 <= code && code <= 0x0CD6) || (0x0CE2 <= code && code <= 0x0CE3)
        || (0x0D00 <= code && code <= 0x0D03) || (0x0D3B <= code && code <= 0x0D3C)
        || (0x0D3E <= code && code <= 0x0D44) || (0x0D46 <= code && code <= 0x0D48)
        || (0x0D4A <= code && code <= 0x0D4D) || code == 0x0D57 || (
            0x0D62 <= code && code <= 0x0D63
        )
        || (0x0D81 <= code && code <= 0x0D83) || code == 0x0DCA || (
            0x0DCF <= code && code <= 0x0DD4
        )
        || code == 0x0DD6 || (0x0DD8 <= code && code <= 0x0DDF) || (
            0x0DF2 <= code && code <= 0x0DF3
        )
        || code == 0x0E31 || (0x0E34 <= code && code <= 0x0E3A) || (
            0x0E47 <= code && code <= 0x0E4E
        )
        || code == 0x0EB1 || (0x0EB4 <= code && code <= 0x0EBC) || (
            0x0EC8 <= code && code <= 0x0ECD
        )
        || (0x0F18 <= code && code <= 0x0F19) || code == 0x0F35 || code == 0x0F37 || code == 0x0F39
        || (0x0F3E <= code && code <= 0x0F3F) || (0x0F71 <= code && code <= 0x0F84)
        || (0x0F86 <= code && code <= 0x0F87) || (0x0F8D <= code && code <= 0x0F97)
        || (0x0F99 <= code && code <= 0x0FBC) || code == 0x0FC6
}

/// Combining marks from U+1000 to U+FFFF.
pub open spec fn middle_mark(code: u32) -> bool {
    (0x102B <= code && code <= 0x103E) || (0x1056 <= code && code <= 0x1059)
        || (0x105E <= code && code <= 0x1060) || (0x1062 <= code && code <= 0x1064)
        || (0x1067 <= code && code <= 0x106D) || (0x1071 <= code && code <= 0x1074)
        || (0x1082 <= code && code <= 0x108D) || code == 0x108F || (
            0x109A <= code && code <= 0x109D
        )
        || (0x135D <= code && code <= 0x135F) || (0x1712 <= code && code <= 0x1715)
        || (0x1732 <= code && code <= 0x1734) || (0x1752 <= code && code <= 0x1753)
        || (0x1772 <= code && code <= 0x1773) || (
            0x17B4 <= code && code <= 0x17D3
        ) || code == 0x17DD
        || (0x180B <= code && code <= 0x180D) || code == 0x180F || (
            0x1885 <= code && code <= 0x1886
        )
        || code == 0x18A9 || (0x1920 <= code && code <= 0x192B) || (
            0x1930 <= code && code <= 0x193B
        )
        || (0x1A17 <= code && code <= 0x1A1B) || (0x1A55 <= code && code <= 0x1A5E)
        || (0x1A60 <= code && code <= 0x1A7C) || code == 0x1A7F || (
            0x1AB0 <= code && code <= 0x1ABD
        )
        || (0x1ABF <= code && code <= 0x1ACE) || (0x1B00 <= code && code <= 0x1B04)
        || (0x1B34 <= code && code <= 0x1B44) || (0x1B6B <= code && code <= 0x1B73)
        || (0x1B80 <= code && code <= 0x1B82) || (0x1BA1 <= code && code <= 0x1BAD)
        || (0x1BE6 <= code && code <= 0x1BF3) || (0x1C24 <= code && code <= 0x1C37)
        || (0x1CD0 <= code && code <= 0x1CD2) || (
            0x1CD4 <= code && code <= 0x1CE8
        ) || code == 0x1CED
        || code == 0x1CF4 || (0x1CF7 <= code && code <= 0x1CF9) || (
            0x1DC0 <= code && code <= 0x1DFF
        )
        || (0x20D0 <= code && code <= 0x20DC) || code == 0x20E1 || (
            0x20E5 <= code && code <= 0x20F0
        )
        || (0x2CEF <= code && code <= 0x2CF1) || code == 0x2D7F || (
            0x2DE0 <= code && code <= 0x2DFF
        )
        || (0x302A <= code && code <= 0x302F) || (
            0x3099 <= code && code <= 0x309A
        ) || code == 0xA66F
        || (0xA674 <= code && code <= 0xA67D) || (0xA69E <= code && code <= 0xA69F)
        || (0xA6F0 <= code && code <= 0xA6F1) || code == 0xA802 || code == 0xA806 || code == 0xA80B
        || (0xA823 <= code && code <= 0xA827) || code == 0xA82C || (
            0xA880 <= code && code <= 0xA881
        )
        || (0xA8B4 <= code && code <= 0xA8C5) || (
            0xA8E0 <= code && code <= 0xA8F1
        ) || code == 0xA8FF
        || (0xA926 <= code && code <= 0xA92D) || (0xA947 <= code && code <= 0xA953)
        || (0xA980 <= code && code <= 0xA983) || (
            0xA9B3 <= code && code <= 0xA9C0
        ) || code == 0xA9E5
        || (0xAA29 <= code && code <= 0xAA36) || code == 0xAA43 || (
            0xAA4C <= code && code <= 0xAA4D
        )
        || (0xAA7B <= code && code <= 0xAA7D) || code == 0xAAB0 || (
            0xAAB2 <= code && code <= 0xAAB4
        )
        || (0xAAB7 <= code && code <= 0xAAB8) || (
            0xAABE <= code && code <= 0xAABF
        ) || code == 0xAAC1
        || (0xAAEB <= code && code <= 0xAAEF) || (0xAAF5 <= code && code <= 0xAAF6)
        || (0xABE3 <= code && code <= 0xABEA) || (
            0xABEC <= code && code <= 0xABED
        ) || code == 0xFB1E
        || (0xFE00 <= code && code <= 0xFE0F) || (0xFE20 <= code && code <= 0xFE2F)
}

/// Combining marks from U+1000 to U+FFFF.
pub fn is_middle_mark(code: u32) -> (result: bool)
    ensures
        result == middle_mark(code),
{
    (0x102B <= code && code <= 0x103E) || (0x1056 <= code && code <= 0x1059)
        || (0x105E <= code && code <= 0x1060) || (0x1062 <= code && code <= 0x1064)
        || (0x1067 <= code && code <= 0x106D) || (0x1071 <= code && code <= 0x1074)
        || (0x1082 <= code && code <= 0x108D) || code == 0x108F || (
            0x109A <= code && code <= 0x109D
        )
        || (0x135D <= code && code <= 0x135F) || (0x1712 <= code && code <= 0x1715)
        || (0x1732 <= code && code <= 0x1734) || (0x1752 <= code && code <= 0x1753)
        || (0x1772 <= code && code <= 0x1773) || (
            0x17B4 <= code && code <= 0x17D3
        ) || code == 0x17DD
        || (0x180B <= code && code <= 0x180D) || code == 0x180F || (
            0x1885 <= code && code <= 0x1886
        )
        || code == 0x18A9 || (0x1920 <= code && code <= 0x192B) || (
            0x1930 <= code && code <= 0x193B
        )
        || (0x1A17 <= code && code <= 0x1A1B) || (0x1A55 <= code && code <= 0x1A5E)
        || (0x1A60 <= code && code <= 0x1A7C) || code == 0x1A7F || (
            0x1AB0 <= code && code <= 0x1ABD
        )
        || (0x1ABF <= code && code <= 0x1ACE) || (0x1B00 <= code && code <= 0x1B04)
        || (0x1B34 <= code && code <= 0x1B44) || (0x1B6B <= code && code <= 0x1B73)
        || (0x1B80 <= code && code <= 0x1B82) || (0x1BA1 <= code && code <= 0x1BAD)
        || (0x1BE6 <= code && code <= 0x1BF3) || (0x1C24 <= code && code <= 0x1C37)
        || (0x1CD0 <= code && code <= 0x1CD2) || (
            0x1CD4 <= code && code <= 0x1CE8
        ) || code == 0x1CED
        || code == 0x1CF4 || (0x1CF7 <= code && code <= 0x1CF9) || (
            0x1DC0 <= code && code <= 0x1DFF
        )
        || (0x20D0 <= code && code <= 0x20DC) || code == 0x20E1 || (
            0x20E5 <= code && code <= 0x20F0
        )
        || (0x2CEF <= code && code <= 0x2CF1) || code == 0x2D7F || (
            0x2DE0 <= code && code <= 0x2DFF
        )
        || (0x302A <= code && code <= 0x302F) || (
            0x3099 <= code && code <= 0x309A
        ) || code == 0xA66F
        || (0xA674 <= code && code <= 0xA67D) || (0xA69E <= code && code <= 0xA69F)
        || (0xA6F0 <= code && code <= 0xA6F1) || code == 0xA802 || code == 0xA806 || code == 0xA80B
        || (0xA823 <= code && code <= 0xA827) || code == 0xA82C || (
            0xA880 <= code && code <= 0xA881
        )
        || (0xA8B4 <= code && code <= 0xA8C5) || (
            0xA8E0 <= code && code <= 0xA8F1
        ) || code == 0xA8FF
        || (0xA926 <= code && code <= 0xA92D) || (0xA947 <= code && code <= 0xA953)
        || (0xA980 <= code && code <= 0xA983) || (
            0xA9B3 <= code && code <= 0xA9C0
        ) || code == 0xA9E5
        || (0xAA29 <= code && code <= 0xAA36) || code == 0xAA43 || (
            0xAA4C <= code && code <= 0xAA4D
        )
        || (0xAA7B <= code && code <= 0xAA7D) || code == 0xAAB0 || (
            0xAAB2 <= code && code <= 0xAAB4
        )
        || (0xAAB7 <= code && code <= 0xAAB8) || (
            0xAABE <= code && code <= 0xAABF
        ) || code == 0xAAC1
        || (0xAAEB <= code && code <= 0xAAEF) || (0xAAF5 <= code && code <= 0xAAF6)
        || (0xABE3 <= code && code <= 0xABEA) || (
            0xABEC <= code && code <= 0xABED
        ) || code == 0xFB1E
        || (0xFE00 <= code && code <= 0xFE0F) || (0xFE20 <= code && code <= 0xFE2F)
}

/// Combining marks from U+10000 on.
pub open spec fn high_mark(code: u32) -> bool {
    code == 0x101FD || code == 0x102E0 || (0x10376 <= code && code <= 0x1037A)
        || (0x10A01 <= code && code <= 0x10A03) || (0x10A05 <= code && code <= 0x10A06)
        || (0x10A0C <= code && code <= 0x10A0F) || (0x10A38 <= code && code <= 0x10A3A)
        || code == 0x10A3F || (0x10AE5 <= code && code <= 0x10AE6)
        || (0x10D24 <= code && code <= 0x10D27) || (0x10EAB <= code && code <= 0x10EAC)
        || (0x10F46 <= code && code <= 0x10F50) || (0x10F82 <= code && code <= 0x10F85)
        || (0x11000 <= code && code <= 0x11002) || (0x11038 <= code && code <= 0x11046)
        || code == 0x11070 || (0x11073 <= code && code <= 0x11074)
        || (0x1107F <= code && code <= 0x11082) || (0x110B0 <= code && code <= 0x110BA)
        || code == 0x110C2 || (0x11100 <= code && code <= 0x11102)
        || (0x11127 <= code && code <= 0x11134) || (0x11145 <= code && code <= 0x11146)
        || code == 0x11173 || (0x11180 <= code && code <= 0x11182)
        || (0x111B3 <= code && code <= 0x111C0) || (0x111C9 <= code && code <= 0x111CC)
        || (0x111CE <= code && code <= 0x111CF) || (0x1122C <= code && code <= 0x11237)
        || code == 0x1123E || (0x112DF <= code && code <= 0x112EA)
        || (0x11300 <= code && code <= 0x11303) || (0x1133B <= code && code <= 0x1133C)
        || (0x1133E <= code && code <= 0x11344) || (0x11347 <= code && code <= 0x11348)
        || (0x1134B <= code && code <= 0x1134D) || code == 0x11357
        || (0x11362 <= code && code <= 0x11363) || (0x11366 <= code && code <= 0x1136C)
        || (0x11370 <= code && code <= 0x11374) || (0x11435 <= code && code <= 0x11446)
        || code == 0x1145E || (0x114B0 <= code && code <= 0x114C3)
        || (0x115AF <= code && code <= 0x115B5) || (0x115B8 <= code && code <= 0x115C0)
        || (0x115DC <= code && code <= 0x115DD) || (0x11630 <= code && code <= 0x11640)
        || (0x116AB <= code && code <= 0x116B7) || (0x1171D <= code && code <= 0x1172B)
        || (0x1182C <= code && code <= 0x1183A) || (0x11930 <= code && code <= 0x11935)
        || (0x11937 <= code && code <= 0x11938) || (0x1193B <= code && code <= 0x1193E)
        || code == 0x11940 || (0x11942 <= code && code <= 0x11943)
        || (0x119D1 <= code && code <= 0x119D7) || (0x119DA <= code && code <= 0x119E0)
        || code == 0x119E4 || (0x11A01 <= code && code <= 0x11A0A)
        || (0x11A33 <= code && code <= 0x11A39) || (0x11A3B <= code && code <= 0x11A3E)
        || code == 0x11A47 || (0x11A51 <= code && code <= 0x11A5B)
        || (0x11A8A <= code && code <= 0x11A99) || (0x11C2F <= code && code <= 0x11C36)
        || (0x11C38 <= code && code <= 0x11C3F) || (0x11C92 <= code && code <= 0x11CA7)
        || (0x11CA9 <= code && code <= 0x11CB6) || (0x11D31 <= code && code <= 0x11D36)
        || code == 0x11D3A || (0x11D3C <= code && code <= 0x11D3D)
        || (0x11D3F <= code && code <= 0x11D45) || code == 0x11D47
        || (0x11D8A <= code && code <= 0x11D8E) || (0x11D90 <= code && code <= 0x11D91)
        || (0x11D93 <= code && code <= 0x11D97) || (0x11EF3 <= code && code <= 0x11EF6)
        || (0x16AF0 <= code && code <= 0x16AF4) || (0x16B30 <= code && code <= 0x16B36)
        || code == 0x16F4F || (0x16F51 <= code && code <= 0x16F87)
        || (0x16F8F <= code && code <= 0x16F92) || code == 0x16FE4
        || (0x16FF0 <= code && code <= 0x16FF1) || (0x1BC9D <= code && code <= 0x1BC9E)
        || (0x1CF00 <= code && code <= 0x1CF2D) || (0x1CF30 <= code && code <= 0x1CF46)
        || (0x1D165 <= code && code <= 0x1D169) || (0x1D16D <= code && code <= 0x1D172)
        || (0x1D17B <= code && code <= 0x1D182) || (0x1D185 <= code && code <= 0x1D18B)
        || (0x1D1AA <= code && code <= 0x1D1AD) || (0x1D242 <= code && code <= 0x1D244)
        || (0x1DA00 <= code && code <= 0x1DA36) || (0x1DA3B <= code && code <= 0x1DA6C)
        || code == 0x1DA75 || code == 0x1DA84 || (0x1DA9B <= code && code <= 0x1DA9F)
        || (0x1DAA1 <= code && code <= 0x1DAAF) || (0x1E000 <= code && code <= 0x1E006)
        || (0x1E008 <= code && code <= 0x1E018) || (0x1E01B <= code && code <= 0x1E021)
        || (0x1E023 <= code && code <= 0x1E024) || (0x1E026 <= code && code <= 0x1E02A)
        || (0x1E130 <= code && code <= 0x1E136) || code == 0x1E2AE
        || (0x1E2EC <= code && code <= 0x1E2EF) || (0x1E8D0 <= code && code <= 0x1E8D6)
        || (0x1E944 <= code && code <= 0x1E94A) || (0xE0100 <= code && code <= 0xE01EF)
}

/// Combining marks from U+10000 on.
pub fn is_high_mark(code: u32) -> (result: bool)
    ensures
        result == high_mark(code),
{
    code == 0x101FD || code == 0x102E0 || (0x10376 <= code && code <= 0x1037A)
        || (0x10A01 <= code && code <= 0x10A03) || (0x10A05 <= code && code <= 0x10A06)
        || (0x10A0C <= code && code <= 0x10A0F) || (0x10A38 <= code && code <= 0x10A3A)
        || code == 0x10A3F || (0x10AE5 <= code && code <= 0x10AE6)
        || (0x10D24 <= code && code <= 0x10D27) || (0x10EAB <= code && code <= 0x10EAC)
        || (0x10F46 <= code && code <= 0x10F50) || (0x10F82 <= code && code <= 0x10F85)
        || (0x11000 <= code && code <= 0x11002) || (0x11038 <= code && code <= 0x11046)
        || code == 0x11070 || (0x11073 <= code && code <= 0x11074)
        || (0x1107F <= code && code <= 0x11082) || (0x110B0 <= code && code <= 0x110BA)
        || code == 0x110C2 || (0x11100 <= code && code <= 0x11102)
        || (0x11127 <= code && code <= 0x11134) || (0x11145 <= code && code <= 0x11146)
        || code == 0x11173 || (0x11180 <= code && code <= 0x11182)
        || (0x111B3 <= code && code <= 0x111C0) || (0x111C9 <= code && code <= 0x111CC)
        || (0x111CE <= code && code <= 0x111CF) || (0x1122C <= code && code <= 0x11237)
        || code == 0x1123E || (0x112DF <= code && code <= 0x112EA)
        || (0x11300 <= code && code <= 0x11303) || (0x1133B <= code && code <= 0x1133C)
        || (0x1133E <= code && code <= 0x11344) || (0x11347 <= code && code <= 0x11348)
        || (0x1134B <= code && code <= 0x1134D) || code == 0x11357
        || (0x11362 <= code && code <= 0x11363) || (0x11366 <= code && code <= 0x1136C)
        || (0x11370 <= code && code <= 0x11374) || (0x11435 <= code && code <= 0x11446)
        || code == 0x1145E || (0x114B0 <= code && code <= 0x114C3)
        || (0x115AF <= code && code <= 0x115B5) || (0x115B8 <= code && code <= 0x115C0)
        || (0x115DC <= code && code <= 0x115DD) || (0x11630 <= code && code <= 0x11640)
        || (0x116AB <= code && code <= 0x116B7) || (0x1171D <= code && code <= 0x1172B)
        || (0x1182C <= code && code <= 0x1183A) || (0x11930 <= code && code <= 0x11935)
        || (0x11937 <= code && code <= 0x11938) || (0x1193B <= code && code <= 0x1193E)
        || code == 0x11940 || (0x11942 <= code && code <= 0x11943)
        || (0x119D1 <= code && code <= 0x119D7) || (0x119DA <= code && code <= 0x119E0)
        || code == 0x119E4 || (0x11A01 <= code && code <= 0x11A0A)
        || (0x11A33 <= code && code <= 0x11A39) || (0x11A3B <= code && code <= 0x11A3E)
        || code == 0x11A47 || (0x11A51 <= code && code <= 0x11A5B)
        || (0x11A8A <= code && code <= 0x11A99) || (0x11C2F <= code && code <= 0x11C36)
        || (0x11C38 <= code && code <= 0x11C3F) || (0x11C92 <= code && code <= 0x11CA7)
        || (0x11CA9 <= code && code <= 0x11CB6) || (0x11D31 <= code && code <= 0x11D36)
        || code == 0x11D3A || (0x11D3C <= code && code <= 0x11D3D)
        || (0x11D3F <= code && code <= 0x11D45) || code == 0x11D47
        || (0x11D8A <= code && code <= 0x11D8E) || (0x11D90 <= code && code <= 0x11D91)
        || (0x11D93 <= code && code <= 0x11D97) || (0x11EF3 <= code && code <= 0x11EF6)
        || (0x16AF0 <= code && code <= 0x16AF4) || (0x16B30 <= code && code <= 0x16B36)
        || code == 0x16F4F || (0x16F51 <= code && code <= 0x16F87)
        || (0x16F8F <= code && code <= 0x16F92) || code == 0x16FE4
        || (0x16FF0 <= code && code <= 0x16FF1) || (0x1BC9D <= code && code <= 0x1BC9E)
        || (0x1CF00 <= code && code <= 0x1CF2D) || (0x1CF30 <= code && code <= 0x1CF46)
        || (0x1D165 <= code && code <= 0x1D169) || (0x1D16D <= code && code <= 0x1D172)
        || (0x1D17B <= code && code <= 0x1D182) || (0x1D185 <= code && code <= 0x1D18B)
        || (0x1D1AA <= code && code <= 0x1D1AD) || (0x1D242 <= code && code <= 0x1D244)
        || (0x1DA00 <= code && code <= 0x1DA36) || (0x1DA3B <= code && code <= 0x1DA6C)
        || code == 0x1DA75 || code == 0x1DA84 || (0x1DA9B <= code && code <= 0x1DA9F)
        || (0x1DAA1 <= code && code <= 0x1DAAF) || (0x1E000 <= code && code <= 0x1E006)
        || (0x1E008 <= code && code <= 0x1E018) || (0x1E01B <= code && code <= 0x1E021)
        || (0x1E023 <= code && code <= 0x1E024) || (0x1E026 <= code && code <= 0x1E02A)
        || (0x1E130 <= code && code <= 0x1E136) || code == 0x1E2AE
        || (0x1E2EC <= code && code <= 0x1E2EF) || (0x1E8D0 <= code && code <= 0x1E8D6)
        || (0x1E944 <= code && code <= 0x1E94A) || (0xE0100 <= code && code <= 0xE01EF)
}

/// Combining marks: the general categories Mn and Mc.
pub open spec fn mark(code: u32) -> bool {
    low_mark(code) || middle_mark(code) || high_mark(code)
}

/// Combining marks: the general categories Mn and Mc.
pub fn is_mark(code: u32) -> (result: bool)
    ensures
        result == mark(code),
{
    is_low_mark(code) || is_middle_mark(code) || is_high_mark(code)
}

/// Numbers that are neither decimal digits nor letters: the general category No.
pub open spec fn other_number(code: u32) -> bool {
    (0x00B2 <= code && code <= 0x00B3) || code == 0x00B9 || (0x00BC <= code && code <= 0x00BE)
        || (0x09F4 <= code && code <= 0x09F9) || (0x0B72 <= code && code <= 0x0B77)
        || (0x0BF0 <= code && code <= 0x0BF2) || (0x0C78 <= code && code <= 0x0C7E)
        || (0x0D58 <= code && code <= 0x0D5E) || (0x0D70 <= code && code <= 0x0D78)
        || (0x0F2A <= code && code <= 0x0F33) || (0x1369 <= code && code <= 0x137C)
        || (0x17F0 <= code && code <= 0x17F9) || code == 0x19DA || code == 0x2070
        || (0x2074 <= code && code <= 0x2079) || (0x2080 <= code && code <= 0x2089)
        || (0x2150 <= code && code <= 0x215F) || code == 0x2189 || (
            0x2460 <= code && code <= 0x249B
        )
        || (0x24EA <= code && code <= 0x24FF) || (
            0x2776 <= code && code <= 0x2793
        ) || code == 0x2CFD
        || (0x3192 <= code && code <= 0x3195) || (0x3220 <= code && code <= 0x3229)
        || (0x3248 <= code && code <= 0x324F) || (0x3251 <= code && code <= 0x325F)
        || (0x3280 <= code && code <= 0x3289) || (0x32B1 <= code && code <= 0x32BF)
        || (0xA830 <= code && code <= 0xA835) || (0x10107 <= code && code <= 0x10133)
        || (0x10175 <= code && code <= 0x10178) || (0x1018A <= code && code <= 0x1018B)
        || (0x102E1 <= code && code <= 0x102FB) || (0x10320 <= code && code <= 0x10323)
        || (0x10858 <= code && code <= 0x1085F) || (0x10879 <= code && code <= 0x1087F)
        || (0x108A7 <= code && code <= 0x108AF) || (0x108FB <= code && code <= 0x108FF)
        || (0x10916 <= code && code <= 0x1091B) || (0x109BC <= code && code <= 0x109BD)
        || (0x109C0 <= code && code <= 0x109CF) || (0x109D2 <= code && code <= 0x109FF)
        || (0x10A40 <= code && code <= 0x10A48) || (0x10A7D <= code && code <= 0x10A7E)
        || (0x10A9D <= code && code <= 0x10A9F) || (0x10AEB <= code && code <= 0x10AEF)
        || (0x10B58 <= code && code <= 0x10B5F) || (0x10B78 <= code && code <= 0x10B7F)
        || (0x10BA9 <= code && code <= 0x10BAF) || (0x10CFA <= code && code <= 0x10CFF)
        || (0x10E60 <= code && code <= 0x10E7E) || (0x10F1D <= code && code <= 0x10F26)
        || (0x10F51 <= code && code <= 0x10F54) || (0x10FC5 <= code && code <= 0x10FCB)
        || (0x11052 <= code && code <= 0x11065) || (0x111E1 <= code && code <= 0x111F4)
        || (0x1173A <= code && code <= 0x1173B) || (0x118EA <= code && code <= 0x118F2)
        || (0x11C5A <= code && code <= 0x11C6C) || (0x11FC0 <= code && code <= 0x11FD4)
        || (0x16B5B <= code && code <= 0x16B61) || (0x16E80 <= code && code <= 0x16E96)
        || (0x1D2E0 <= code && code <= 0x1D2F3) || (0x1D360 <= code && code <= 0x1D378)
        || (0x1E8C7 <= code && code <= 0x1E8CF) || (0x1EC71 <= code && code <= 0x1ECAB)
        || (0x1ECAD <= code && code <= 0x1ECAF) || (0x1ECB1 <= code && code <= 0x1ECB4)
        || (0x1ED01 <= code && code <= 0x1ED2D) || (0x1ED2F <= code && code <= 0x1ED3D)
        || (0x1F100 <= code && code <= 0x1F10C)
}

/// Numbers that are neither decimal digits nor letters: the general category No.
pub fn is_other_number(code: u32) -> (result: bool)
    ensures
        result == other_number(code),
{
    (0x00B2 <= code && code <= 0x00B3) || code == 0x00B9 || (0x00BC <= code && code <= 0x00BE)
        || (0x09F4 <= code && code <= 0x09F9) || (0x0B72 <= code && code <= 0x0B77)
        || (0x0BF0 <= code && code <= 0x0BF2) || (0x0C78 <= code && code <= 0x0C7E)
        || (0x0D58 <= code && code <= 0x0D5E) || (0x0D70 <= code && code <= 0x0D78)
        || (0x0F2A <= code && code <= 0x0F33) || (0x1369 <= code && code <= 0x137C)
        || (0x17F0 <= code && code <= 0x17F9) || code == 0x19DA || code == 0x2070
        || (0x2074 <= code && code <= 0x2079) || (0x2080 <= code && code <= 0x2089)
        || (0x2150 <= code && code <= 0x215F) || code == 0x2189 || (
            0x2460 <= code && code <= 0x249B
        )
        || (0x24EA <= code && code <= 0x24FF) || (
            0x2776 <= code && code <= 0x2793
        ) || code == 0x2CFD
        || (0x3192 <= code && code <= 0x3195) || (0x3220 <= code && code <= 0x3229)
        || (0x3248 <= code && code <= 0x324F) || (0x3251 <= code && code <= 0x325F)
        || (0x3280 <= code && code <= 0x3289) || (0x32B1 <= code && code <= 0x32BF)
        || (0xA830 <= code && code <= 0xA835) || (0x10107 <= code && code <= 0x10133)
        || (0x10175 <= code && code <= 0x10178) || (0x1018A <= code && code <= 0x1018B)
        || (0x102E1 <= code && code <= 0x102FB) || (0x10320 <= code && code <= 0x10323)
        || (0x10858 <= code && code <= 0x1085F) || (0x10879 <= code && code <= 0x1087F)
        || (0x108A7 <= code && code <= 0x108AF) || (0x108FB <= code && code <= 0x108FF)
        || (0x10916 <= code && code <= 0x1091B) || (0x109BC <= code && code <= 0x109BD)
        || (0x109C0 <= code && code <= 0x109CF) || (0x109D2 <= code && code <= 0x109FF)
        || (0x10A40 <= code && code <= 0x10A48) || (0x10A7D <= code && code <= 0x10A7E)
        || (0x10A9D <= code && code <= 0x10A9F) || (0x10AEB <= code && code <= 0x10AEF)
        || (0x10B58 <= code && code <= 0x10B5F) || (0x10B78 <= code && code <= 0x10B7F)
        || (0x10BA9 <= code && code <= 0x10BAF) || (0x10CFA <= code && code <= 0x10CFF)
        || (0x10E60 <= code && code <= 0x10E7E) || (0x10F1D <= code && code <= 0x10F26)
        || (0x10F51 <= code && code <= 0x10F54) || (0x10FC5 <= code && code <= 0x10FCB)
        || (0x11052 <= code && code <= 0x11065) || (0x111E1 <= code && code <= 0x111F4)
        || (0x1173A <= code && code <= 0x1173B) || (0x118EA <= code && code <= 0x118F2)
        || (0x11C5A <= code && code <= 0x11C6C) || (0x11FC0 <= code && code <= 0x11FD4)
        || (0x16B5B <= code && code <= 0x16B61) || (0x16E80 <= code && code <= 0x16E96)
        || (0x1D2E0 <= code && code <= 0x1D2F3) || (0x1D360 <= code && code <= 0x1D378)
        || (0x1E8C7 <= code && code <= 0x1E8CF) || (0x1EC71 <= code && code <= 0x1ECAB)
        || (0x1ECAD <= code && code <= 0x1ECAF) || (0x1ECB1 <= code && code <= 0x1ECB4)
        || (0x1ED01 <= code && code <= 0x1ED2D) || (0x1ED2F <= code && code <= 0x1ED3D)
        || (0x1F100 <= code && code <= 0x1F10C)
}

/// Connector punctuation: the general category Pc.
pub open spec fn connector(code: u32) -> bool {
    code == 0x005F || (0x203F <= code && code <= 0x2040) || code == 0x2054
        || (0xFE33 <= code && code <= 0xFE34) || (
            0xFE4D <= code && code <= 0xFE4F
        ) || code == 0xFF3F
}

/// Connector punctuation: the general category Pc.
pub fn is_connector(code: u32) -> (result: bool)
    ensures
        result == connector(code),
{
    code == 0x005F || (0x203F <= code && code <= 0x2040) || code == 0x2054
        || (0xFE33 <= code && code <= 0xFE34) || (
            0xFE4D <= code && code <= 0xFE4F
        ) || code == 0xFF3F
}

/// Symbols and syntax characters that count as alphabetic, but not as letters of identifiers:
/// circled and squared letters, and the vertical tilde.
pub open spec fn symbol_letter(code: u32) -> bool {
    (0x24B6 <= code && code <= 0x24E9) || code == 0x2E2F || (0x1F130 <= code && code <= 0x1F149)
        || (0x1F150 <= code && code <= 0x1F169) || (0x1F170 <= code && code <= 0x1F189)
}

/// Symbols and syntax characters that count as alphabetic, but not as letters of identifiers:
/// circled and squared letters, and the vertical tilde.
pub fn is_symbol_letter(code: u32) -> (result: bool)
    ensures
        result == symbol_letter(code),
{
    (0x24B6 <= code && code <= 0x24E9) || code == 0x2E2F || (0x1F130 <= code && code <= 0x1F149)
        || (0x1F150 <= code && code <= 0x1F169) || (0x1F170 <= code && code <= 0x1F189)
}

/// Characters that start identifiers beside the letters: the property Other_ID_Start.
pub open spec fn extra_start(code: u32) -> bool {
    (0x1885 <= code && code <= 0x1886) || code == 0x2118 || code == 0x212E
        || (0x309B <= code && code <= 0x309C)
}

/// Characters that start identifiers beside the letters: the property Other_ID_Start.
pub fn is_extra_start(code: u32) -> (result: bool)
    ensures
        result == extra_start(code),
{
    (0x1885 <= code && code <= 0x1886) || code == 0x2118 || code == 0x212E
        || (0x309B <= code && code <= 0x309C)
}

/// Characters that continue identifiers beside letters, marks, digits and connectors: the
/// property Other_ID_Continue.
pub open spec fn extra_continue(code: u32) -> bool {
    code == 0x00B7 || code == 0x0387 || (0x1369 <= code && code <= 0x1371) || code == 0x19DA
        || code == 0x30FB || code == 0xFF65
}

/// Characters that continue identifiers beside letters, marks, digits and connectors: the
/// property Other_ID_Continue.
pub fn is_extra_continue(code: u32) -> (result: bool)
    ensures
        result == extra_continue(code),
{
    code == 0x00B7 || code == 0x0387 || (0x1369 <= code && code <= 0x1371) || code == 0x19DA
        || code == 0x30FB || code == 0xFF65
}

} // verus!
