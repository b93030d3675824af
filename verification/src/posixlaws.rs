//! The POSIX classes `[[:name:]]` are ASCII classes that relate as their
//! names say: `alpha` is the letters `upper` and `lower`, `alnum` adds the
//! digits, `punct` is what `graph` holds beside `alnum`, and so on.
use vstd::prelude::*;
use crate::ranges::contains;
use crate::tables::{PosixClass, posix_ranges, UnicodeProp, unicode_ranges};

verus! {

/// An ASCII capital letter.
pub open spec fn is_upper_cp(c: int) -> bool {
    'A' as int <= c <= 'Z' as int
}

/// An ASCII small letter.
pub open spec fn is_lower_cp(c: int) -> bool {
    'a' as int <= c <= 'z' as int
}

/// An ASCII digit.
pub open spec fn is_digit_cp(c: int) -> bool {
    '0' as int <= c <= '9' as int
}

/// Whether the POSIX class `k` holds `c`.
pub open spec fn in_posix(k: PosixClass, c: int) -> bool {
    contains(posix_ranges(k), c)
}

/// The POSIX classes hold what their names say, and relate to each other
/// accordingly.
pub proof fn law_posix_classes(c: int)
    ensures
        in_posix(PosixClass::Upper, c) == is_upper_cp(c),
        in_posix(PosixClass::Lower, c) == is_lower_cp(c),
        in_posix(PosixClass::Digit, c) == is_digit_cp(c),
        in_posix(PosixClass::Alpha, c) == (is_upper_cp(c) || is_lower_cp(c)),
        in_posix(PosixClass::Alpha, c) == (in_posix(PosixClass::Upper, c) || in_posix(
            PosixClass::Lower,
            c,
        )),
        in_posix(PosixClass::Alnum, c) == (in_posix(PosixClass::Alpha, c) || in_posix(
            PosixClass::Digit,
            c,
        )),
        in_posix(PosixClass::Word, c) == (in_posix(PosixClass::Alnum, c) || c == '_' as int),
        in_posix(PosixClass::Xdigit, c) == (in_posix(PosixClass::Digit, c) || ('A' as int <= c
            <= 'F' as int) || ('a' as int <= c <= 'f' as int)),
        in_posix(PosixClass::Ascii, c) == (0 <= c < 0x80),
        in_posix(PosixClass::Blank, c) == (c == ' ' as int || c == '\t' as int),
        in_posix(PosixClass::Space, c) == (in_posix(PosixClass::Blank, c) || c == '\n' as int
            || c == '\x0B' as int || c == '\x0C' as int || c == '\r' as int),
        in_posix(PosixClass::Cntrl, c) == (0 <= c < 0x20 || c == 0x7F),
        in_posix(PosixClass::Print, c) == (in_posix(PosixClass::Ascii, c) && !in_posix(
            PosixClass::Cntrl,
            c,
        )),
        in_posix(PosixClass::Graph, c) == (in_posix(PosixClass::Print, c) && c != ' ' as int),
        in_posix(PosixClass::Punct, c) == (in_posix(PosixClass::Graph, c) && !in_posix(
            PosixClass::Alnum,
            c,
        )),
{
    reveal_with_fuel(contains, 5);
}

/// `White_Space` (`\\s`) is the separators `\\p{Z}` together with the
/// controls `\\t \\n \\v \\f \\r` and U+0085; it holds every character
/// of `[[:space:]]`.
pub proof fn law_white_space(c: int)
    ensures
        contains(unicode_ranges(UnicodeProp::WhiteSpace), c) == (contains(
            unicode_ranges(UnicodeProp::Separator),
            c,
        ) || (0x9 <= c <= 0xD) || c == 0x85),
        in_posix(PosixClass::Space, c) ==> contains(unicode_ranges(UnicodeProp::WhiteSpace), c),
{
    reveal_with_fuel(contains, 11);
}

/// The controls `\\p{Cc}` within ASCII are `[[:cntrl:]]`, and `\\p{ASCII}`
/// is `[[:ascii:]]`; the property `ASCII_Hex_Digit` is `[[:xdigit:]]`.
pub proof fn law_ascii_classes(c: int)
    ensures
        (contains(unicode_ranges(UnicodeProp::Control), c) && 0 <= c < 0x80) == in_posix(
            PosixClass::Cntrl,
            c,
        ),
        contains(unicode_ranges(UnicodeProp::Ascii), c) == in_posix(PosixClass::Ascii, c),
        contains(unicode_ranges(UnicodeProp::Bool(crate::boolprop::BoolProp::ASCIIHexDigit)), c)
            == in_posix(PosixClass::Xdigit, c),
{
    reveal_with_fuel(contains, 5);
}

} // verus!
