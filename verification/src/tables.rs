//! The character tables: the ASCII classes of POSIX brackets (`[:alpha:]`)
//! and the Unicode properties that `\p{..}` can name.
use vstd::prelude::*;
use crate::ranges::{SRange, canonical};
use crate::class::{ClassUnicodeRange, rview, lemma_rview_push};

verus! {

/// The ASCII classes that `[:name:]` can name inside a bracketed class.
#[derive(Clone, Copy, Debug, PartialEq, Eq, Structural)]
pub enum PosixClass {
    Alnum,
    Alpha,
    Ascii,
    Blank,
    Cntrl,
    Digit,
    Graph,
    Lower,
    Print,
    Punct,
    Space,
    Upper,
    Word,
    Xdigit,
}

/// The Unicode properties that `\p{..}` can name: `Any`, `ASCII`, `Assigned`,
/// `White_Space` (also the class of `\s`), and every general category but
/// `Surrogate`.
#[derive(Clone, Copy, Debug, PartialEq, Eq, Structural)]
pub enum UnicodeProp {
    Any,
    Ascii,
    Separator,
    SpaceSeparator,
    LineSeparator,
    ParagraphSeparator,
    Control,
    WhiteSpace,
    DecimalNumber,
    Assigned,
    Script(crate::script::Script),
    Bool(crate::boolprop::BoolProp),
    ScriptExtensions(crate::script::Script),
    CasedLetter,
    ClosePunctuation,
    ConnectorPunctuation,
    CurrencySymbol,
    DashPunctuation,
    EnclosingMark,
    FinalPunctuation,
    Format,
    InitialPunctuation,
    Letter,
    LetterNumber,
    LowercaseLetter,
    Mark,
    MathSymbol,
    ModifierLetter,
    ModifierSymbol,
    NonspacingMark,
    Number,
    OpenPunctuation,
    Other,
    OtherLetter,
    OtherNumber,
    OtherPunctuation,
    OtherSymbol,
    PrivateUse,
    Punctuation,
    SpacingMark,
    Symbol,
    TitlecaseLetter,
    Unassigned,
    UppercaseLetter,
}

pub open spec fn posix_ranges(k: PosixClass) -> Seq<SRange> {
    match k {
        PosixClass::Alnum => seq![(0x30, 0x39), (0x41, 0x5A), (0x61, 0x7A)],
        PosixClass::Alpha => seq![(0x41, 0x5A), (0x61, 0x7A)],
        PosixClass::Ascii => seq![(0x00, 0x7F)],
        PosixClass::Blank => seq![(0x09, 0x09), (0x20, 0x20)],
        PosixClass::Cntrl => seq![(0x00, 0x1F), (0x7F, 0x7F)],
        PosixClass::Digit => seq![(0x30, 0x39)],
        PosixClass::Graph => seq![(0x21, 0x7E)],
        PosixClass::Lower => seq![(0x61, 0x7A)],
        PosixClass::Print => seq![(0x20, 0x7E)],
        PosixClass::Punct => seq![(0x21, 0x2F), (0x3A, 0x40), (0x5B, 0x60), (0x7B, 0x7E)],
        PosixClass::Space => seq![(0x09, 0x0D), (0x20, 0x20)],
        PosixClass::Upper => seq![(0x41, 0x5A)],
        PosixClass::Word => seq![(0x30, 0x39), (0x41, 0x5A), (0x5F, 0x5F), (0x61, 0x7A)],
        PosixClass::Xdigit => seq![(0x30, 0x39), (0x41, 0x46), (0x61, 0x66)],
    }
}

pub open spec fn decimal_chunk_0() -> Seq<SRange> {
    seq![(0x30int, 0x39int), (0x660int, 0x669int), (0x6F0int, 0x6F9int), (0x7C0int, 0x7C9int), (0x966int, 0x96Fint), (0x9E6int, 0x9EFint), (0xA66int, 0xA6Fint), (0xAE6int, 0xAEFint)]
}

pub open spec fn decimal_chunk_1() -> Seq<SRange> {
    seq![(0xB66int, 0xB6Fint), (0xBE6int, 0xBEFint), (0xC66int, 0xC6Fint), (0xCE6int, 0xCEFint), (0xD66int, 0xD6Fint), (0xDE6int, 0xDEFint), (0xE50int, 0xE59int), (0xED0int, 0xED9int)]
}

pub open spec fn decimal_chunk_2() -> Seq<SRange> {
    seq![(0xF20int, 0xF29int), (0x1040int, 0x1049int), (0x1090int, 0x1099int), (0x17E0int, 0x17E9int), (0x1810int, 0x1819int), (0x1946int, 0x194Fint), (0x19D0int, 0x19D9int), (0x1A80int, 0x1A89int)]
}

pub open spec fn decimal_chunk_3() -> Seq<SRange> {
    seq![(0x1A90int, 0x1A99int), (0x1B50int, 0x1B59int), (0x1BB0int, 0x1BB9int), (0x1C40int, 0x1C49int), (0x1C50int, 0x1C59int), (0xA620int, 0xA629int), (0xA8D0int, 0xA8D9int), (0xA900int, 0xA909int)]
}

pub open spec fn decimal_chunk_4() -> Seq<SRange> {
    seq![(0xA9D0int, 0xA9D9int), (0xA9F0int, 0xA9F9int), (0xAA50int, 0xAA59int), (0xABF0int, 0xABF9int), (0xFF10int, 0xFF19int), (0x104A0int, 0x104A9int), (0x10D30int, 0x10D39int), (0x10D40int, 0x10D49int)]
}

pub open spec fn decimal_chunk_5() -> Seq<SRange> {
    seq![(0x11066int, 0x1106Fint), (0x110F0int, 0x110F9int), (0x11136int, 0x1113Fint), (0x111D0int, 0x111D9int), (0x112F0int, 0x112F9int), (0x11450int, 0x11459int), (0x114D0int, 0x114D9int), (0x11650int, 0x11659int)]
}

pub open spec fn decimal_chunk_6() -> Seq<SRange> {
    seq![(0x116C0int, 0x116C9int), (0x116D0int, 0x116E3int), (0x11730int, 0x11739int), (0x118E0int, 0x118E9int), (0x11950int, 0x11959int), (0x11BF0int, 0x11BF9int), (0x11C50int, 0x11C59int), (0x11D50int, 0x11D59int)]
}

pub open spec fn decimal_chunk_7() -> Seq<SRange> {
    seq![(0x11DA0int, 0x11DA9int), (0x11F50int, 0x11F59int), (0x16130int, 0x16139int), (0x16A60int, 0x16A69int), (0x16AC0int, 0x16AC9int), (0x16B50int, 0x16B59int), (0x16D70int, 0x16D79int), (0x1CCF0int, 0x1CCF9int)]
}

pub open spec fn decimal_chunk_8() -> Seq<SRange> {
    seq![(0x1D7CEint, 0x1D7FFint), (0x1E140int, 0x1E149int), (0x1E2F0int, 0x1E2F9int), (0x1E4F0int, 0x1E4F9int), (0x1E5F1int, 0x1E5FAint), (0x1E950int, 0x1E959int), (0x1FBF0int, 0x1FBF9int)]
}

/// The decimal digits of Unicode 16.0 (general category `Nd`), in groups of
/// eight ranges.
pub open spec fn decimal_ranges() -> Seq<SRange> {
    decimal_chunk_0() + decimal_chunk_1() + decimal_chunk_2() + decimal_chunk_3() + decimal_chunk_4() + decimal_chunk_5() + decimal_chunk_6() + decimal_chunk_7() + decimal_chunk_8()
}

pub open spec fn unicode_ranges(p: UnicodeProp) -> Seq<SRange> {
    match p {
        UnicodeProp::Any => seq![(0x0, 0x10FFFF)],
        UnicodeProp::Ascii => seq![(0x0, 0x7F)],
        UnicodeProp::Separator => seq![
            (0x20, 0x20),
            (0xA0, 0xA0),
            (0x1680, 0x1680),
            (0x2000, 0x200A),
            (0x2028, 0x2029),
            (0x202F, 0x202F),
            (0x205F, 0x205F),
            (0x3000, 0x3000),
        ],
        UnicodeProp::SpaceSeparator => seq![
            (0x20, 0x20),
            (0xA0, 0xA0),
            (0x1680, 0x1680),
            (0x2000, 0x200A),
            (0x202F, 0x202F),
            (0x205F, 0x205F),
            (0x3000, 0x3000),
        ],
        UnicodeProp::LineSeparator => seq![(0x2028, 0x2028)],
        UnicodeProp::ParagraphSeparator => seq![(0x2029, 0x2029)],
        UnicodeProp::Control => seq![(0x0, 0x1F), (0x7F, 0x9F)],
        UnicodeProp::WhiteSpace => seq![
            (0x9, 0xD),
            (0x20, 0x20),
            (0x85, 0x85),
            (0xA0, 0xA0),
            (0x1680, 0x1680),
            (0x2000, 0x200A),
            (0x2028, 0x2029),
            (0x202F, 0x202F),
            (0x205F, 0x205F),
            (0x3000, 0x3000),
        ],
        UnicodeProp::DecimalNumber => decimal_ranges(),
        UnicodeProp::Assigned => crate::ranges::negate(crate::gencat::unassigned_ranges()),
        UnicodeProp::Script(s) => crate::script::script_ranges(s),
        UnicodeProp::Bool(b) => crate::boolprop::bool_ranges(b),
        UnicodeProp::ScriptExtensions(s) => crate::scx::scx_ranges(s),
        UnicodeProp::CasedLetter => crate::gencat::cased_letter_ranges(),
        UnicodeProp::ClosePunctuation => crate::gencat::close_punctuation_ranges(),
        UnicodeProp::ConnectorPunctuation => crate::gencat::connector_punctuation_ranges(),
        UnicodeProp::CurrencySymbol => crate::gencat::currency_symbol_ranges(),
        UnicodeProp::DashPunctuation => crate::gencat::dash_punctuation_ranges(),
        UnicodeProp::EnclosingMark => crate::gencat::enclosing_mark_ranges(),
        UnicodeProp::FinalPunctuation => crate::gencat::final_punctuation_ranges(),
        UnicodeProp::Format => crate::gencat::format_ranges(),
        UnicodeProp::InitialPunctuation => crate::gencat::initial_punctuation_ranges(),
        UnicodeProp::Letter => crate::gencat::letter_ranges(),
        UnicodeProp::LetterNumber => crate::gencat::letter_number_ranges(),
        UnicodeProp::LowercaseLetter => crate::gencat::lowercase_letter_ranges(),
        UnicodeProp::Mark => crate::gencat::mark_ranges(),
        UnicodeProp::MathSymbol => crate::gencat::math_symbol_ranges(),
        UnicodeProp::ModifierLetter => crate::gencat::modifier_letter_ranges(),
        UnicodeProp::ModifierSymbol => crate::gencat::modifier_symbol_ranges(),
        UnicodeProp::NonspacingMark => crate::gencat::nonspacing_mark_ranges(),
        UnicodeProp::Number => crate::gencat::number_ranges(),
        UnicodeProp::OpenPunctuation => crate::gencat::open_punctuation_ranges(),
        UnicodeProp::Other => crate::gencat::other_ranges(),
        UnicodeProp::OtherLetter => crate::gencat::other_letter_ranges(),
        UnicodeProp::OtherNumber => crate::gencat::other_number_ranges(),
        UnicodeProp::OtherPunctuation => crate::gencat::other_punctuation_ranges(),
        UnicodeProp::OtherSymbol => crate::gencat::other_symbol_ranges(),
        UnicodeProp::PrivateUse => crate::gencat::private_use_ranges(),
        UnicodeProp::Punctuation => crate::gencat::punctuation_ranges(),
        UnicodeProp::SpacingMark => crate::gencat::spacing_mark_ranges(),
        UnicodeProp::Symbol => crate::gencat::symbol_ranges(),
        UnicodeProp::TitlecaseLetter => crate::gencat::titlecase_letter_ranges(),
        UnicodeProp::Unassigned => crate::gencat::unassigned_ranges(),
        UnicodeProp::UppercaseLetter => crate::gencat::uppercase_letter_ranges(),
    }
}

pub open spec fn posix_by_name(n: Seq<char>) -> Option<PosixClass> {
    if n == seq!['a', 'l', 'n', 'u', 'm'] {
        Some(PosixClass::Alnum)
    } else if n == seq!['a', 'l', 'p', 'h', 'a'] {
        Some(PosixClass::Alpha)
    } else if n == seq!['a', 's', 'c', 'i', 'i'] {
        Some(PosixClass::Ascii)
    } else if n == seq!['b', 'l', 'a', 'n', 'k'] {
        Some(PosixClass::Blank)
    } else if n == seq!['c', 'n', 't', 'r', 'l'] {
        Some(PosixClass::Cntrl)
    } else if n == seq!['d', 'i', 'g', 'i', 't'] {
        Some(PosixClass::Digit)
    } else if n == seq!['g', 'r', 'a', 'p', 'h'] {
        Some(PosixClass::Graph)
    } else if n == seq!['l', 'o', 'w', 'e', 'r'] {
        Some(PosixClass::Lower)
    } else if n == seq!['p', 'r', 'i', 'n', 't'] {
        Some(PosixClass::Print)
    } else if n == seq!['p', 'u', 'n', 'c', 't'] {
        Some(PosixClass::Punct)
    } else if n == seq!['s', 'p', 'a', 'c', 'e'] {
        Some(PosixClass::Space)
    } else if n == seq!['u', 'p', 'p', 'e', 'r'] {
        Some(PosixClass::Upper)
    } else if n == seq!['w', 'o', 'r', 'd'] {
        Some(PosixClass::Word)
    } else if n == seq!['x', 'd', 'i', 'g', 'i', 't'] {
        Some(PosixClass::Xdigit)
    } else {
        None
    }
}

/// The normalized names of the general category Other.
pub open spec fn names_other(n: Seq<char>) -> bool {
    n == seq!['c'] || n == seq!['o', 't', 'h', 'e', 'r']
}

/// The normalized names of the general category Cased_Letter.
pub open spec fn names_cased_letter(n: Seq<char>) -> bool {
    n == seq!['c', 'a', 's', 'e', 'd', 'l', 'e', 't', 't', 'e', 'r'] || n == seq!['l', 'c']
}

/// The normalized names of the general category Control.
pub open spec fn names_control(n: Seq<char>) -> bool {
    n == seq!['c', 'c'] || n == seq!['c', 'n', 't', 'r', 'l'] || n == seq!['c', 'o', 'n', 't', 'r', 'o', 'l']
}

/// The normalized names of the general category Format.
pub open spec fn names_format(n: Seq<char>) -> bool {
    n == seq!['c', 'f'] || n == seq!['f', 'o', 'r', 'm', 'a', 't']
}

/// The normalized names of the general category Close_Punctuation.
pub open spec fn names_close_punctuation(n: Seq<char>) -> bool {
    n == seq!['c', 'l', 'o', 's', 'e', 'p', 'u', 'n', 'c', 't', 'u', 'a', 't', 'i', 'o', 'n'] || n == seq!['p', 'e']
}

/// The normalized names of the general category Unassigned.
pub open spec fn names_unassigned(n: Seq<char>) -> bool {
    n == seq!['c', 'n'] || n == seq!['u', 'n', 'a', 's', 's', 'i', 'g', 'n', 'e', 'd']
}

/// The normalized names of the general category Private_Use.
pub open spec fn names_private_use(n: Seq<char>) -> bool {
    n == seq!['c', 'o'] || n == seq!['p', 'r', 'i', 'v', 'a', 't', 'e', 'u', 's', 'e']
}

/// The normalized names of the general category Mark.
pub open spec fn names_mark(n: Seq<char>) -> bool {
    n == seq!['c', 'o', 'm', 'b', 'i', 'n', 'i', 'n', 'g', 'm', 'a', 'r', 'k'] || n == seq!['m'] || n == seq!['m', 'a', 'r', 'k']
}

/// The normalized names of the general category Connector_Punctuation.
pub open spec fn names_connector_punctuation(n: Seq<char>) -> bool {
    n == seq!['c', 'o', 'n', 'n', 'e', 'c', 't', 'o', 'r', 'p', 'u', 'n', 'c', 't', 'u', 'a', 't', 'i', 'o', 'n'] || n == seq!['p', 'c']
}

/// The normalized names of the general category Currency_Symbol.
pub open spec fn names_currency_symbol(n: Seq<char>) -> bool {
    n == seq!['c', 'u', 'r', 'r', 'e', 'n', 'c', 'y', 's', 'y', 'm', 'b', 'o', 'l'] || n == seq!['s', 'c']
}

/// The normalized names of the general category Dash_Punctuation.
pub open spec fn names_dash_punctuation(n: Seq<char>) -> bool {
    n == seq!['d', 'a', 's', 'h', 'p', 'u', 'n', 'c', 't', 'u', 'a', 't', 'i', 'o', 'n'] || n == seq!['p', 'd']
}

/// The normalized names of the general category Decimal_Number.
pub open spec fn names_decimal_number(n: Seq<char>) -> bool {
    n == seq!['d', 'e', 'c', 'i', 'm', 'a', 'l', 'n', 'u', 'm', 'b', 'e', 'r'] || n == seq!['d', 'i', 'g', 'i', 't'] || n == seq!['n', 'd']
}

/// The normalized names of the general category Enclosing_Mark.
pub open spec fn names_enclosing_mark(n: Seq<char>) -> bool {
    n == seq!['e', 'n', 'c', 'l', 'o', 's', 'i', 'n', 'g', 'm', 'a', 'r', 'k'] || n == seq!['m', 'e']
}

/// The normalized names of the general category Final_Punctuation.
pub open spec fn names_final_punctuation(n: Seq<char>) -> bool {
    n == seq!['f', 'i', 'n', 'a', 'l', 'p', 'u', 'n', 'c', 't', 'u', 'a', 't', 'i', 'o', 'n'] || n == seq!['p', 'f']
}

/// The normalized names of the general category Initial_Punctuation.
pub open spec fn names_initial_punctuation(n: Seq<char>) -> bool {
    n == seq!['i', 'n', 'i', 't', 'i', 'a', 'l', 'p', 'u', 'n', 'c', 't', 'u', 'a', 't', 'i', 'o', 'n'] || n == seq!['p', 'i']
}

/// The normalized names of the general category Letter.
pub open spec fn names_letter(n: Seq<char>) -> bool {
    n == seq!['l'] || n == seq!['l', 'e', 't', 't', 'e', 'r']
}

/// The normalized names of the general category Letter_Number.
pub open spec fn names_letter_number(n: Seq<char>) -> bool {
    n == seq!['l', 'e', 't', 't', 'e', 'r', 'n', 'u', 'm', 'b', 'e', 'r'] || n == seq!['n', 'l']
}

/// The normalized names of the general category Line_Separator.
pub open spec fn names_line_separator(n: Seq<char>) -> bool {
    n == seq!['l', 'i', 'n', 'e', 's', 'e', 'p', 'a', 'r', 'a', 't', 'o', 'r'] || n == seq!['z', 'l']
}

/// The normalized names of the general category Lowercase_Letter.
pub open spec fn names_lowercase_letter(n: Seq<char>) -> bool {
    n == seq!['l', 'l'] || n == seq!['l', 'o', 'w', 'e', 'r', 'c', 'a', 's', 'e', 'l', 'e', 't', 't', 'e', 'r']
}

/// The normalized names of the general category Modifier_Letter.
pub open spec fn names_modifier_letter(n: Seq<char>) -> bool {
    n == seq!['l', 'm'] || n == seq!['m', 'o', 'd', 'i', 'f', 'i', 'e', 'r', 'l', 'e', 't', 't', 'e', 'r']
}

/// The normalized names of the general category Other_Letter.
pub open spec fn names_other_letter(n: Seq<char>) -> bool {
    n == seq!['l', 'o'] || n == seq!['o', 't', 'h', 'e', 'r', 'l', 'e', 't', 't', 'e', 'r']
}

/// The normalized names of the general category Titlecase_Letter.
pub open spec fn names_titlecase_letter(n: Seq<char>) -> bool {
    n == seq!['l', 't'] || n == seq!['t', 'i', 't', 'l', 'e', 'c', 'a', 's', 'e', 'l', 'e', 't', 't', 'e', 'r']
}

/// The normalized names of the general category Uppercase_Letter.
pub open spec fn names_uppercase_letter(n: Seq<char>) -> bool {
    n == seq!['l', 'u'] || n == seq!['u', 'p', 'p', 'e', 'r', 'c', 'a', 's', 'e', 'l', 'e', 't', 't', 'e', 'r']
}

/// The normalized names of the general category Math_Symbol.
pub open spec fn names_math_symbol(n: Seq<char>) -> bool {
    n == seq!['m', 'a', 't', 'h', 's', 'y', 'm', 'b', 'o', 'l'] || n == seq!['s', 'm']
}

/// The normalized names of the general category Spacing_Mark.
pub open spec fn names_spacing_mark(n: Seq<char>) -> bool {
    n == seq!['m', 'c'] || n == seq!['s', 'p', 'a', 'c', 'i', 'n', 'g', 'm', 'a', 'r', 'k']
}

/// The normalized names of the general category Nonspacing_Mark.
pub open spec fn names_nonspacing_mark(n: Seq<char>) -> bool {
    n == seq!['m', 'n'] || n == seq!['n', 'o', 'n', 's', 'p', 'a', 'c', 'i', 'n', 'g', 'm', 'a', 'r', 'k']
}

/// The normalized names of the general category Modifier_Symbol.
pub open spec fn names_modifier_symbol(n: Seq<char>) -> bool {
    n == seq!['m', 'o', 'd', 'i', 'f', 'i', 'e', 'r', 's', 'y', 'm', 'b', 'o', 'l'] || n == seq!['s', 'k']
}

/// The normalized names of the general category Number.
pub open spec fn names_number(n: Seq<char>) -> bool {
    n == seq!['n'] || n == seq!['n', 'u', 'm', 'b', 'e', 'r']
}

/// The normalized names of the general category Other_Number.
pub open spec fn names_other_number(n: Seq<char>) -> bool {
    n == seq!['n', 'o'] || n == seq!['o', 't', 'h', 'e', 'r', 'n', 'u', 'm', 'b', 'e', 'r']
}

/// The normalized names of the general category Open_Punctuation.
pub open spec fn names_open_punctuation(n: Seq<char>) -> bool {
    n == seq!['o', 'p', 'e', 'n', 'p', 'u', 'n', 'c', 't', 'u', 'a', 't', 'i', 'o', 'n'] || n == seq!['p', 's']
}

/// The normalized names of the general category Other_Punctuation.
pub open spec fn names_other_punctuation(n: Seq<char>) -> bool {
    n == seq!['o', 't', 'h', 'e', 'r', 'p', 'u', 'n', 'c', 't', 'u', 'a', 't', 'i', 'o', 'n'] || n == seq!['p', 'o']
}

/// The normalized names of the general category Other_Symbol.
pub open spec fn names_other_symbol(n: Seq<char>) -> bool {
    n == seq!['o', 't', 'h', 'e', 'r', 's', 'y', 'm', 'b', 'o', 'l'] || n == seq!['s', 'o']
}

/// The normalized names of the general category Punctuation.
pub open spec fn names_punctuation(n: Seq<char>) -> bool {
    n == seq!['p'] || n == seq!['p', 'u', 'n', 'c', 't'] || n == seq!['p', 'u', 'n', 'c', 't', 'u', 'a', 't', 'i', 'o', 'n']
}

/// The normalized names of the general category Paragraph_Separator.
pub open spec fn names_paragraph_separator(n: Seq<char>) -> bool {
    n == seq!['p', 'a', 'r', 'a', 'g', 'r', 'a', 'p', 'h', 's', 'e', 'p', 'a', 'r', 'a', 't', 'o', 'r'] || n == seq!['z', 'p']
}

/// The normalized names of the general category Symbol.
pub open spec fn names_symbol(n: Seq<char>) -> bool {
    n == seq!['s'] || n == seq!['s', 'y', 'm', 'b', 'o', 'l']
}

/// The normalized names of the general category Separator.
pub open spec fn names_separator(n: Seq<char>) -> bool {
    n == seq!['s', 'e', 'p', 'a', 'r', 'a', 't', 'o', 'r'] || n == seq!['z']
}

/// The normalized names of the general category Space_Separator.
pub open spec fn names_space_separator(n: Seq<char>) -> bool {
    n == seq!['s', 'p', 'a', 'c', 'e', 's', 'e', 'p', 'a', 'r', 'a', 't', 'o', 'r'] || n == seq!['z', 's']
}

/// The general category (or `Any`, `ASCII`, `Assigned`) named by a normalized
/// value (see `syntax::normalize`).
pub open spec fn gc_by_value(n: Seq<char>) -> Option<UnicodeProp> {
    if n == seq!['a', 'n', 'y'] {
        Some(UnicodeProp::Any)
    } else if n == seq!['a', 's', 'c', 'i', 'i'] {
        Some(UnicodeProp::Ascii)
    } else if n == seq!['a', 's', 's', 'i', 'g', 'n', 'e', 'd'] {
        Some(UnicodeProp::Assigned)
    } else if names_other(n) {
        Some(UnicodeProp::Other)
    } else if names_cased_letter(n) {
        Some(UnicodeProp::CasedLetter)
    } else if names_control(n) {
        Some(UnicodeProp::Control)
    } else if names_format(n) {
        Some(UnicodeProp::Format)
    } else if names_close_punctuation(n) {
        Some(UnicodeProp::ClosePunctuation)
    } else if names_unassigned(n) {
        Some(UnicodeProp::Unassigned)
    } else if names_private_use(n) {
        Some(UnicodeProp::PrivateUse)
    } else if names_mark(n) {
        Some(UnicodeProp::Mark)
    } else if names_connector_punctuation(n) {
        Some(UnicodeProp::ConnectorPunctuation)
    } else if names_currency_symbol(n) {
        Some(UnicodeProp::CurrencySymbol)
    } else if names_dash_punctuation(n) {
        Some(UnicodeProp::DashPunctuation)
    } else if names_decimal_number(n) {
        Some(UnicodeProp::DecimalNumber)
    } else if names_enclosing_mark(n) {
        Some(UnicodeProp::EnclosingMark)
    } else if names_final_punctuation(n) {
        Some(UnicodeProp::FinalPunctuation)
    } else if names_initial_punctuation(n) {
        Some(UnicodeProp::InitialPunctuation)
    } else if names_letter(n) {
        Some(UnicodeProp::Letter)
    } else if names_letter_number(n) {
        Some(UnicodeProp::LetterNumber)
    } else if names_line_separator(n) {
        Some(UnicodeProp::LineSeparator)
    } else if names_lowercase_letter(n) {
        Some(UnicodeProp::LowercaseLetter)
    } else if names_modifier_letter(n) {
        Some(UnicodeProp::ModifierLetter)
    } else if names_other_letter(n) {
        Some(UnicodeProp::OtherLetter)
    } else if names_titlecase_letter(n) {
        Some(UnicodeProp::TitlecaseLetter)
    } else if names_uppercase_letter(n) {
        Some(UnicodeProp::UppercaseLetter)
    } else if names_math_symbol(n) {
        Some(UnicodeProp::MathSymbol)
    } else if names_spacing_mark(n) {
        Some(UnicodeProp::SpacingMark)
    } else if names_nonspacing_mark(n) {
        Some(UnicodeProp::NonspacingMark)
    } else if names_modifier_symbol(n) {
        Some(UnicodeProp::ModifierSymbol)
    } else if names_number(n) {
        Some(UnicodeProp::Number)
    } else if names_other_number(n) {
        Some(UnicodeProp::OtherNumber)
    } else if names_open_punctuation(n) {
        Some(UnicodeProp::OpenPunctuation)
    } else if names_other_punctuation(n) {
        Some(UnicodeProp::OtherPunctuation)
    } else if names_other_symbol(n) {
        Some(UnicodeProp::OtherSymbol)
    } else if names_punctuation(n) {
        Some(UnicodeProp::Punctuation)
    } else if names_paragraph_separator(n) {
        Some(UnicodeProp::ParagraphSeparator)
    } else if names_symbol(n) {
        Some(UnicodeProp::Symbol)
    } else if names_separator(n) {
        Some(UnicodeProp::Separator)
    } else if names_space_separator(n) {
        Some(UnicodeProp::SpaceSeparator)
    } else {
        None
    }
}

/// The property that a normalized name standing alone names: `White_Space`,
/// a general category, or a script.
pub open spec fn property_by_name(n: Seq<char>) -> Option<UnicodeProp> {
    if n == seq!['w', 'h', 'i', 't', 'e', 's', 'p', 'a', 'c', 'e'] || n == seq![
        'w',
        's',
        'p',
        'a',
        'c',
        'e',
    ] || n == seq!['s', 'p', 'a', 'c', 'e'] {
        Some(UnicodeProp::WhiteSpace)
    } else {
        match gc_by_value(n) {
            Some(p) => Some(p),
            None => match crate::script::script_by_value(n) {
                Some(s) => Some(UnicodeProp::Script(s)),
                None => None,
            },
        }
    }
}

/// A normalized property key that names the general category.
pub open spec fn is_gc_key(n: Seq<char>) -> bool {
    n == seq!['g', 'c'] || n == seq![
        'g',
        'e',
        'n',
        'e',
        'r',
        'a',
        'l',
        'c',
        'a',
        't',
        'e',
        'g',
        'o',
        'r',
        'y',
    ]
}

pub proof fn lemma_posix_canonical(k: PosixClass)
    ensures
        canonical(posix_ranges(k)),
{
    reveal_with_fuel(canonical, 5);
    match k {
        PosixClass::Alnum => {
            assert(canonical(seq![(0x30int, 0x39int), (0x41, 0x5A), (0x61, 0x7A)]));
        },
        PosixClass::Alpha => {
            assert(canonical(seq![(0x41int, 0x5Aint), (0x61, 0x7A)]));
        },
        PosixClass::Ascii => {
            assert(canonical(seq![(0x00int, 0x7Fint)]));
        },
        PosixClass::Blank => {
            assert(canonical(seq![(0x09int, 0x09int), (0x20, 0x20)]));
        },
        PosixClass::Cntrl => {
            assert(canonical(seq![(0x00int, 0x1Fint), (0x7F, 0x7F)]));
        },
        PosixClass::Digit => {
            assert(canonical(seq![(0x30int, 0x39int)]));
        },
        PosixClass::Graph => {
            assert(canonical(seq![(0x21int, 0x7Eint)]));
        },
        PosixClass::Lower => {
            assert(canonical(seq![(0x61int, 0x7Aint)]));
        },
        PosixClass::Print => {
            assert(canonical(seq![(0x20int, 0x7Eint)]));
        },
        PosixClass::Punct => {
            assert(canonical(
                seq![(0x21int, 0x2Fint), (0x3A, 0x40), (0x5B, 0x60), (0x7B, 0x7E)],
            ));
        },
        PosixClass::Space => {
            assert(canonical(seq![(0x09int, 0x0Dint), (0x20, 0x20)]));
        },
        PosixClass::Upper => {
            assert(canonical(seq![(0x41int, 0x5Aint)]));
        },
        PosixClass::Word => {
            assert(canonical(
                seq![(0x30int, 0x39int), (0x41, 0x5A), (0x5F, 0x5F), (0x61, 0x7A)],
            ));
        },
        PosixClass::Xdigit => {
            assert(canonical(seq![(0x30int, 0x39int), (0x41, 0x46), (0x61, 0x66)]));
        },
    }
}

proof fn lemma_decimal_canonical()
    ensures
        canonical(decimal_ranges()),
{
    reveal_with_fuel(canonical, 9);
    assert(canonical(decimal_chunk_0()));
    assert(canonical(decimal_chunk_1()));
    assert(canonical(decimal_chunk_2()));
    assert(canonical(decimal_chunk_3()));
    assert(canonical(decimal_chunk_4()));
    assert(canonical(decimal_chunk_5()));
    assert(canonical(decimal_chunk_6()));
    assert(canonical(decimal_chunk_7()));
    assert(canonical(decimal_chunk_8()));
    crate::word::lemma_canonical_append(decimal_chunk_0(), decimal_chunk_1());
    crate::word::lemma_canonical_append(decimal_chunk_0() + decimal_chunk_1(), decimal_chunk_2());
    crate::word::lemma_canonical_append(decimal_chunk_0() + decimal_chunk_1() + decimal_chunk_2(), decimal_chunk_3());
    crate::word::lemma_canonical_append(decimal_chunk_0() + decimal_chunk_1() + decimal_chunk_2() + decimal_chunk_3(), decimal_chunk_4());
    crate::word::lemma_canonical_append(decimal_chunk_0() + decimal_chunk_1() + decimal_chunk_2() + decimal_chunk_3() + decimal_chunk_4(), decimal_chunk_5());
    crate::word::lemma_canonical_append(decimal_chunk_0() + decimal_chunk_1() + decimal_chunk_2() + decimal_chunk_3() + decimal_chunk_4() + decimal_chunk_5(), decimal_chunk_6());
    crate::word::lemma_canonical_append(decimal_chunk_0() + decimal_chunk_1() + decimal_chunk_2() + decimal_chunk_3() + decimal_chunk_4() + decimal_chunk_5() + decimal_chunk_6(), decimal_chunk_7());
    crate::word::lemma_canonical_append(decimal_chunk_0() + decimal_chunk_1() + decimal_chunk_2() + decimal_chunk_3() + decimal_chunk_4() + decimal_chunk_5() + decimal_chunk_6() + decimal_chunk_7(), decimal_chunk_8());
}

pub proof fn lemma_unicode_canonical(p: UnicodeProp)
    ensures
        canonical(unicode_ranges(p)),
{
    reveal_with_fuel(canonical, 11);
    match p {
        UnicodeProp::Any => {
            assert(canonical(seq![(0x0int, 0x10FFFFint)]));
        },
        UnicodeProp::Ascii => {
            assert(canonical(seq![(0x0int, 0x7Fint)]));
        },
        UnicodeProp::Separator => {
            assert(canonical(
                seq![
                    (0x20int, 0x20int),
                    (0xA0, 0xA0),
                    (0x1680, 0x1680),
                    (0x2000, 0x200A),
                    (0x2028, 0x2029),
                    (0x202F, 0x202F),
                    (0x205F, 0x205F),
                    (0x3000, 0x3000),
                ],
            ));
        },
        UnicodeProp::SpaceSeparator => {
            assert(canonical(
                seq![
                    (0x20int, 0x20int),
                    (0xA0, 0xA0),
                    (0x1680, 0x1680),
                    (0x2000, 0x200A),
                    (0x202F, 0x202F),
                    (0x205F, 0x205F),
                    (0x3000, 0x3000),
                ],
            ));
        },
        UnicodeProp::LineSeparator => {
            assert(canonical(seq![(0x2028int, 0x2028int)]));
        },
        UnicodeProp::ParagraphSeparator => {
            assert(canonical(seq![(0x2029int, 0x2029int)]));
        },
        UnicodeProp::Control => {
            assert(canonical(seq![(0x0int, 0x1Fint), (0x7F, 0x9F)]));
        },
        UnicodeProp::DecimalNumber => {
            lemma_decimal_canonical();
        },
        UnicodeProp::Script(s) => {
            crate::script::lemma_script_canonical(s);
        },
        UnicodeProp::Bool(b) => {
            crate::boolprop::lemma_bool_canonical(b);
        },
        UnicodeProp::ScriptExtensions(s) => {
            crate::scx::lemma_scx_canonical(s);
        },
        UnicodeProp::Assigned => {
            crate::gencat::lemma_unassigned_canonical();
            crate::ranges::lemma_negate(crate::gencat::unassigned_ranges());
        },
        UnicodeProp::CasedLetter => {
            crate::gencat::lemma_cased_letter_canonical();
        },
        UnicodeProp::ClosePunctuation => {
            crate::gencat::lemma_close_punctuation_canonical();
        },
        UnicodeProp::ConnectorPunctuation => {
            crate::gencat::lemma_connector_punctuation_canonical();
        },
        UnicodeProp::CurrencySymbol => {
            crate::gencat::lemma_currency_symbol_canonical();
        },
        UnicodeProp::DashPunctuation => {
            crate::gencat::lemma_dash_punctuation_canonical();
        },
        UnicodeProp::EnclosingMark => {
            crate::gencat::lemma_enclosing_mark_canonical();
        },
        UnicodeProp::FinalPunctuation => {
            crate::gencat::lemma_final_punctuation_canonical();
        },
        UnicodeProp::Format => {
            crate::gencat::lemma_format_canonical();
        },
        UnicodeProp::InitialPunctuation => {
            crate::gencat::lemma_initial_punctuation_canonical();
        },
        UnicodeProp::Letter => {
            crate::gencat::lemma_letter_canonical();
        },
        UnicodeProp::LetterNumber => {
            crate::gencat::lemma_letter_number_canonical();
        },
        UnicodeProp::LowercaseLetter => {
            crate::gencat::lemma_lowercase_letter_canonical();
        },
        UnicodeProp::Mark => {
            crate::gencat::lemma_mark_canonical();
        },
        UnicodeProp::MathSymbol => {
            crate::gencat::lemma_math_symbol_canonical();
        },
        UnicodeProp::ModifierLetter => {
            crate::gencat::lemma_modifier_letter_canonical();
        },
        UnicodeProp::ModifierSymbol => {
            crate::gencat::lemma_modifier_symbol_canonical();
        },
        UnicodeProp::NonspacingMark => {
            crate::gencat::lemma_nonspacing_mark_canonical();
        },
        UnicodeProp::Number => {
            crate::gencat::lemma_number_canonical();
        },
        UnicodeProp::OpenPunctuation => {
            crate::gencat::lemma_open_punctuation_canonical();
        },
        UnicodeProp::Other => {
            crate::gencat::lemma_other_canonical();
        },
        UnicodeProp::OtherLetter => {
            crate::gencat::lemma_other_letter_canonical();
        },
        UnicodeProp::OtherNumber => {
            crate::gencat::lemma_other_number_canonical();
        },
        UnicodeProp::OtherPunctuation => {
            crate::gencat::lemma_other_punctuation_canonical();
        },
        UnicodeProp::OtherSymbol => {
            crate::gencat::lemma_other_symbol_canonical();
        },
        UnicodeProp::PrivateUse => {
            crate::gencat::lemma_private_use_canonical();
        },
        UnicodeProp::Punctuation => {
            crate::gencat::lemma_punctuation_canonical();
        },
        UnicodeProp::SpacingMark => {
            crate::gencat::lemma_spacing_mark_canonical();
        },
        UnicodeProp::Symbol => {
            crate::gencat::lemma_symbol_canonical();
        },
        UnicodeProp::TitlecaseLetter => {
            crate::gencat::lemma_titlecase_letter_canonical();
        },
        UnicodeProp::Unassigned => {
            crate::gencat::lemma_unassigned_canonical();
        },
        UnicodeProp::UppercaseLetter => {
            crate::gencat::lemma_uppercase_letter_canonical();
        },
        UnicodeProp::WhiteSpace => {
            assert(canonical(
                seq![
                    (0x9int, 0xDint),
                    (0x20, 0x20),
                    (0x85, 0x85),
                    (0xA0, 0xA0),
                    (0x1680, 0x1680),
                    (0x2000, 0x200A),
                    (0x2028, 0x2029),
                    (0x202F, 0x202F),
                    (0x205F, 0x205F),
                    (0x3000, 0x3000),
                ],
            ));
        },
    }
}

fn range(a: char, b: char) -> (r: ClassUnicodeRange)
    ensures
        r.start == a,
        r.end == b,
{
    ClassUnicodeRange { start: a, end: b }
}

fn push_range(v: &mut Vec<ClassUnicodeRange>, a: char, b: char)
    ensures
        rview(final(v)@) == rview(old(v)@).push((a as int, b as int)),
{
    let r = range(a, b);
    proof {
        lemma_rview_push(v@, r);
    }
    v.push(r);
}

/// The ranges of an ASCII class.
pub fn posix_class(k: PosixClass) -> (v: Vec<ClassUnicodeRange>)
    ensures
        rview(v@) == posix_ranges(k),
{
    let mut v: Vec<ClassUnicodeRange> = Vec::new();
    match k {
        PosixClass::Alnum => {
            push_range(&mut v, '0', '9');
            push_range(&mut v, 'A', 'Z');
            push_range(&mut v, 'a', 'z');
        },
        PosixClass::Alpha => {
            push_range(&mut v, 'A', 'Z');
            push_range(&mut v, 'a', 'z');
        },
        PosixClass::Ascii => {
            push_range(&mut v, '\x00', '\x7F');
        },
        PosixClass::Blank => {
            push_range(&mut v, '\t', '\t');
            push_range(&mut v, ' ', ' ');
        },
        PosixClass::Cntrl => {
            push_range(&mut v, '\x00', '\x1F');
            push_range(&mut v, '\x7F', '\x7F');
        },
        PosixClass::Digit => {
            push_range(&mut v, '0', '9');
        },
        PosixClass::Graph => {
            push_range(&mut v, '!', '~');
        },
        PosixClass::Lower => {
            push_range(&mut v, 'a', 'z');
        },
        PosixClass::Print => {
            push_range(&mut v, ' ', '~');
        },
        PosixClass::Punct => {
            push_range(&mut v, '!', '/');
            push_range(&mut v, ':', '@');
            push_range(&mut v, '[', '`');
            push_range(&mut v, '{', '~');
        },
        PosixClass::Space => {
            push_range(&mut v, '\t', '\r');
            push_range(&mut v, ' ', ' ');
        },
        PosixClass::Upper => {
            push_range(&mut v, 'A', 'Z');
        },
        PosixClass::Word => {
            push_range(&mut v, '0', '9');
            push_range(&mut v, 'A', 'Z');
            push_range(&mut v, '_', '_');
            push_range(&mut v, 'a', 'z');
        },
        PosixClass::Xdigit => {
            push_range(&mut v, '0', '9');
            push_range(&mut v, 'A', 'F');
            push_range(&mut v, 'a', 'f');
        },
    }
    assert(rview(v@) =~= posix_ranges(k));
    v
}

fn push_decimal_chunk_0(v: &mut Vec<ClassUnicodeRange>)
    ensures
        rview(final(v)@) == rview(old(v)@) + decimal_chunk_0(),
{
    let ghost o = rview(v@);
    push_range(v, '\u{30}', '\u{39}');
    push_range(v, '\u{660}', '\u{669}');
    push_range(v, '\u{6F0}', '\u{6F9}');
    push_range(v, '\u{7C0}', '\u{7C9}');
    push_range(v, '\u{966}', '\u{96F}');
    push_range(v, '\u{9E6}', '\u{9EF}');
    push_range(v, '\u{A66}', '\u{A6F}');
    push_range(v, '\u{AE6}', '\u{AEF}');
    assert(rview(v@) =~= o + decimal_chunk_0());
}

fn push_decimal_chunk_1(v: &mut Vec<ClassUnicodeRange>)
    ensures
        rview(final(v)@) == rview(old(v)@) + decimal_chunk_1(),
{
    let ghost o = rview(v@);
    push_range(v, '\u{B66}', '\u{B6F}');
    push_range(v, '\u{BE6}', '\u{BEF}');
    push_range(v, '\u{C66}', '\u{C6F}');
    push_range(v, '\u{CE6}', '\u{CEF}');
    push_range(v, '\u{D66}', '\u{D6F}');
    push_range(v, '\u{DE6}', '\u{DEF}');
    push_range(v, '\u{E50}', '\u{E59}');
    push_range(v, '\u{ED0}', '\u{ED9}');
    assert(rview(v@) =~= o + decimal_chunk_1());
}

fn push_decimal_chunk_2(v: &mut Vec<ClassUnicodeRange>)
    ensures
        rview(final(v)@) == rview(old(v)@) + decimal_chunk_2(),
{
    let ghost o = rview(v@);
    push_range(v, '\u{F20}', '\u{F29}');
    push_range(v, '\u{1040}', '\u{1049}');
    push_range(v, '\u{1090}', '\u{1099}');
    push_range(v, '\u{17E0}', '\u{17E9}');
    push_range(v, '\u{1810}', '\u{1819}');
    push_range(v, '\u{1946}', '\u{194F}');
    push_range(v, '\u{19D0}', '\u{19D9}');
    push_range(v, '\u{1A80}', '\u{1A89}');
    assert(rview(v@) =~= o + decimal_chunk_2());
}

fn push_decimal_chunk_3(v: &mut Vec<ClassUnicodeRange>)
    ensures
        rview(final(v)@) == rview(old(v)@) + decimal_chunk_3(),
{
    let ghost o = rview(v@);
    push_range(v, '\u{1A90}', '\u{1A99}');
    push_range(v, '\u{1B50}', '\u{1B59}');
    push_range(v, '\u{1BB0}', '\u{1BB9}');
    push_range(v, '\u{1C40}', '\u{1C49}');
    push_range(v, '\u{1C50}', '\u{1C59}');
    push_range(v, '\u{A620}', '\u{A629}');
    push_range(v, '\u{A8D0}', '\u{A8D9}');
    push_range(v, '\u{A900}', '\u{A909}');
    assert(rview(v@) =~= o + decimal_chunk_3());
}

fn push_decimal_chunk_4(v: &mut Vec<ClassUnicodeRange>)
    ensures
        rview(final(v)@) == rview(old(v)@) + decimal_chunk_4(),
{
    let ghost o = rview(v@);
    push_range(v, '\u{A9D0}', '\u{A9D9}');
    push_range(v, '\u{A9F0}', '\u{A9F9}');
    push_range(v, '\u{AA50}', '\u{AA59}');
    push_range(v, '\u{ABF0}', '\u{ABF9}');
    push_range(v, '\u{FF10}', '\u{FF19}');
    push_range(v, '\u{104A0}', '\u{104A9}');
    push_range(v, '\u{10D30}', '\u{10D39}');
    push_range(v, '\u{10D40}', '\u{10D49}');
    assert(rview(v@) =~= o + decimal_chunk_4());
}

fn push_decimal_chunk_5(v: &mut Vec<ClassUnicodeRange>)
    ensures
        rview(final(v)@) == rview(old(v)@) + decimal_chunk_5(),
{
    let ghost o = rview(v@);
    push_range(v, '\u{11066}', '\u{1106F}');
    push_range(v, '\u{110F0}', '\u{110F9}');
    push_range(v, '\u{11136}', '\u{1113F}');
    push_range(v, '\u{111D0}', '\u{111D9}');
    push_range(v, '\u{112F0}', '\u{112F9}');
    push_range(v, '\u{11450}', '\u{11459}');
    push_range(v, '\u{114D0}', '\u{114D9}');
    push_range(v, '\u{11650}', '\u{11659}');
    assert(rview(v@) =~= o + decimal_chunk_5());
}

fn push_decimal_chunk_6(v: &mut Vec<ClassUnicodeRange>)
    ensures
        rview(final(v)@) == rview(old(v)@) + decimal_chunk_6(),
{
    let ghost o = rview(v@);
    push_range(v, '\u{116C0}', '\u{116C9}');
    push_range(v, '\u{116D0}', '\u{116E3}');
    push_range(v, '\u{11730}', '\u{11739}');
    push_range(v, '\u{118E0}', '\u{118E9}');
    push_range(v, '\u{11950}', '\u{11959}');
    push_range(v, '\u{11BF0}', '\u{11BF9}');
    push_range(v, '\u{11C50}', '\u{11C59}');
    push_range(v, '\u{11D50}', '\u{11D59}');
    assert(rview(v@) =~= o + decimal_chunk_6());
}

fn push_decimal_chunk_7(v: &mut Vec<ClassUnicodeRange>)
    ensures
        rview(final(v)@) == rview(old(v)@) + decimal_chunk_7(),
{
    let ghost o = rview(v@);
    push_range(v, '\u{11DA0}', '\u{11DA9}');
    push_range(v, '\u{11F50}', '\u{11F59}');
    push_range(v, '\u{16130}', '\u{16139}');
    push_range(v, '\u{16A60}', '\u{16A69}');
    push_range(v, '\u{16AC0}', '\u{16AC9}');
    push_range(v, '\u{16B50}', '\u{16B59}');
    push_range(v, '\u{16D70}', '\u{16D79}');
    push_range(v, '\u{1CCF0}', '\u{1CCF9}');
    assert(rview(v@) =~= o + decimal_chunk_7());
}

fn push_decimal_chunk_8(v: &mut Vec<ClassUnicodeRange>)
    ensures
        rview(final(v)@) == rview(old(v)@) + decimal_chunk_8(),
{
    let ghost o = rview(v@);
    push_range(v, '\u{1D7CE}', '\u{1D7FF}');
    push_range(v, '\u{1E140}', '\u{1E149}');
    push_range(v, '\u{1E2F0}', '\u{1E2F9}');
    push_range(v, '\u{1E4F0}', '\u{1E4F9}');
    push_range(v, '\u{1E5F1}', '\u{1E5FA}');
    push_range(v, '\u{1E950}', '\u{1E959}');
    push_range(v, '\u{1FBF0}', '\u{1FBF9}');
    assert(rview(v@) =~= o + decimal_chunk_8());
}

/// The ranges of the decimal digits.
fn decimal_class() -> (v: Vec<ClassUnicodeRange>)
    ensures
        rview(v@) == decimal_ranges(),
{
    let mut v: Vec<ClassUnicodeRange> = Vec::new();
    assert(rview(v@) =~= Seq::<SRange>::empty());
    push_decimal_chunk_0(&mut v);
    assert(rview(v@) =~= decimal_chunk_0());
    push_decimal_chunk_1(&mut v);
    assert(rview(v@) =~= decimal_chunk_0() + decimal_chunk_1());
    push_decimal_chunk_2(&mut v);
    assert(rview(v@) =~= decimal_chunk_0() + decimal_chunk_1() + decimal_chunk_2());
    push_decimal_chunk_3(&mut v);
    assert(rview(v@) =~= decimal_chunk_0() + decimal_chunk_1() + decimal_chunk_2() + decimal_chunk_3());
    push_decimal_chunk_4(&mut v);
    assert(rview(v@) =~= decimal_chunk_0() + decimal_chunk_1() + decimal_chunk_2() + decimal_chunk_3() + decimal_chunk_4());
    push_decimal_chunk_5(&mut v);
    assert(rview(v@) =~= decimal_chunk_0() + decimal_chunk_1() + decimal_chunk_2() + decimal_chunk_3() + decimal_chunk_4() + decimal_chunk_5());
    push_decimal_chunk_6(&mut v);
    assert(rview(v@) =~= decimal_chunk_0() + decimal_chunk_1() + decimal_chunk_2() + decimal_chunk_3() + decimal_chunk_4() + decimal_chunk_5() + decimal_chunk_6());
    push_decimal_chunk_7(&mut v);
    assert(rview(v@) =~= decimal_chunk_0() + decimal_chunk_1() + decimal_chunk_2() + decimal_chunk_3() + decimal_chunk_4() + decimal_chunk_5() + decimal_chunk_6() + decimal_chunk_7());
    push_decimal_chunk_8(&mut v);
    assert(rview(v@) =~= decimal_chunk_0() + decimal_chunk_1() + decimal_chunk_2() + decimal_chunk_3() + decimal_chunk_4() + decimal_chunk_5() + decimal_chunk_6() + decimal_chunk_7() + decimal_chunk_8());
    v
}

/// The ranges of a Unicode property.
pub fn unicode_class(p: UnicodeProp) -> (v: Vec<ClassUnicodeRange>)
    ensures
        rview(v@) == unicode_ranges(p),
{
    let mut v: Vec<ClassUnicodeRange> = Vec::new();
    match p {
        UnicodeProp::Any => {
            push_range(&mut v, '\0', '\u{10FFFF}');
        },
        UnicodeProp::Ascii => {
            push_range(&mut v, '\0', '\x7F');
        },
        UnicodeProp::Separator => {
            push_range(&mut v, ' ', ' ');
            push_range(&mut v, '\u{A0}', '\u{A0}');
            push_range(&mut v, '\u{1680}', '\u{1680}');
            push_range(&mut v, '\u{2000}', '\u{200A}');
            push_range(&mut v, '\u{2028}', '\u{2029}');
            push_range(&mut v, '\u{202F}', '\u{202F}');
            push_range(&mut v, '\u{205F}', '\u{205F}');
            push_range(&mut v, '\u{3000}', '\u{3000}');
        },
        UnicodeProp::SpaceSeparator => {
            push_range(&mut v, ' ', ' ');
            push_range(&mut v, '\u{A0}', '\u{A0}');
            push_range(&mut v, '\u{1680}', '\u{1680}');
            push_range(&mut v, '\u{2000}', '\u{200A}');
            push_range(&mut v, '\u{202F}', '\u{202F}');
            push_range(&mut v, '\u{205F}', '\u{205F}');
            push_range(&mut v, '\u{3000}', '\u{3000}');
        },
        UnicodeProp::LineSeparator => {
            push_range(&mut v, '\u{2028}', '\u{2028}');
        },
        UnicodeProp::ParagraphSeparator => {
            push_range(&mut v, '\u{2029}', '\u{2029}');
        },
        UnicodeProp::Control => {
            push_range(&mut v, '\0', '\x1F');
            push_range(&mut v, '\x7F', '\u{9F}');
        },
        UnicodeProp::DecimalNumber => {
            v = decimal_class();
        },
        UnicodeProp::Assigned => {
            v = crate::class::negate_ranges(&crate::gencat::unassigned_class());
        },
        UnicodeProp::Script(s) => {
            v = crate::script::script_class(s);
        },
        UnicodeProp::Bool(b) => {
            v = crate::boolprop::bool_class(b);
        },
        UnicodeProp::ScriptExtensions(s) => {
            v = crate::scx::scx_class(s);
        },
        UnicodeProp::CasedLetter => {
            v = crate::gencat::cased_letter_class();
        },
        UnicodeProp::ClosePunctuation => {
            v = crate::gencat::close_punctuation_class();
        },
        UnicodeProp::ConnectorPunctuation => {
            v = crate::gencat::connector_punctuation_class();
        },
        UnicodeProp::CurrencySymbol => {
            v = crate::gencat::currency_symbol_class();
        },
        UnicodeProp::DashPunctuation => {
            v = crate::gencat::dash_punctuation_class();
        },
        UnicodeProp::EnclosingMark => {
            v = crate::gencat::enclosing_mark_class();
        },
        UnicodeProp::FinalPunctuation => {
            v = crate::gencat::final_punctuation_class();
        },
        UnicodeProp::Format => {
            v = crate::gencat::format_class();
        },
        UnicodeProp::InitialPunctuation => {
            v = crate::gencat::initial_punctuation_class();
        },
        UnicodeProp::Letter => {
            v = crate::gencat::letter_class();
        },
        UnicodeProp::LetterNumber => {
            v = crate::gencat::letter_number_class();
        },
        UnicodeProp::LowercaseLetter => {
            v = crate::gencat::lowercase_letter_class();
        },
        UnicodeProp::Mark => {
            v = crate::gencat::mark_class();
        },
        UnicodeProp::MathSymbol => {
            v = crate::gencat::math_symbol_class();
        },
        UnicodeProp::ModifierLetter => {
            v = crate::gencat::modifier_letter_class();
        },
        UnicodeProp::ModifierSymbol => {
            v = crate::gencat::modifier_symbol_class();
        },
        UnicodeProp::NonspacingMark => {
            v = crate::gencat::nonspacing_mark_class();
        },
        UnicodeProp::Number => {
            v = crate::gencat::number_class();
        },
        UnicodeProp::OpenPunctuation => {
            v = crate::gencat::open_punctuation_class();
        },
        UnicodeProp::Other => {
            v = crate::gencat::other_class();
        },
        UnicodeProp::OtherLetter => {
            v = crate::gencat::other_letter_class();
        },
        UnicodeProp::OtherNumber => {
            v = crate::gencat::other_number_class();
        },
        UnicodeProp::OtherPunctuation => {
            v = crate::gencat::other_punctuation_class();
        },
        UnicodeProp::OtherSymbol => {
            v = crate::gencat::other_symbol_class();
        },
        UnicodeProp::PrivateUse => {
            v = crate::gencat::private_use_class();
        },
        UnicodeProp::Punctuation => {
            v = crate::gencat::punctuation_class();
        },
        UnicodeProp::SpacingMark => {
            v = crate::gencat::spacing_mark_class();
        },
        UnicodeProp::Symbol => {
            v = crate::gencat::symbol_class();
        },
        UnicodeProp::TitlecaseLetter => {
            v = crate::gencat::titlecase_letter_class();
        },
        UnicodeProp::Unassigned => {
            v = crate::gencat::unassigned_class();
        },
        UnicodeProp::UppercaseLetter => {
            v = crate::gencat::uppercase_letter_class();
        },
        UnicodeProp::WhiteSpace => {
            push_range(&mut v, '\t', '\r');
            push_range(&mut v, ' ', ' ');
            push_range(&mut v, '\u{85}', '\u{85}');
            push_range(&mut v, '\u{A0}', '\u{A0}');
            push_range(&mut v, '\u{1680}', '\u{1680}');
            push_range(&mut v, '\u{2000}', '\u{200A}');
            push_range(&mut v, '\u{2028}', '\u{2029}');
            push_range(&mut v, '\u{202F}', '\u{202F}');
            push_range(&mut v, '\u{205F}', '\u{205F}');
            push_range(&mut v, '\u{3000}', '\u{3000}');
        },
    }
    assert(rview(v@) =~= unicode_ranges(p));
    v
}

/// Whether two character slices are equal.
pub fn chars_eq(a: &[char], b: &[char]) -> (r: bool)
    ensures
        r == (a@ == b@),
{
    if a.len() != b.len() {
        return false;
    }
    let mut i: usize = 0;
    while i < a.len()
        invariant
            i <= a.len(),
            a.len() == b.len(),
            forall|j: int| 0 <= j < i ==> a@[j] == b@[j],
        decreases a.len() - i,
    {
        if a[i] != b[i] {
            return false;
        }
        i += 1;
    }
    assert(a@ =~= b@);
    true
}

/// The ASCII class that a POSIX name names.
pub fn posix_lookup(n: &[char]) -> (r: Option<PosixClass>)
    ensures
        r == posix_by_name(n@),
{
    let w: [char; 5] = ['a', 'l', 'n', 'u', 'm'];
    assert(w@ =~= seq!['a', 'l', 'n', 'u', 'm']);
    if chars_eq(n, &w) {
        return Some(PosixClass::Alnum);
    }
    let w: [char; 5] = ['a', 'l', 'p', 'h', 'a'];
    assert(w@ =~= seq!['a', 'l', 'p', 'h', 'a']);
    if chars_eq(n, &w) {
        return Some(PosixClass::Alpha);
    }
    let w: [char; 5] = ['a', 's', 'c', 'i', 'i'];
    assert(w@ =~= seq!['a', 's', 'c', 'i', 'i']);
    if chars_eq(n, &w) {
        return Some(PosixClass::Ascii);
    }
    let w: [char; 5] = ['b', 'l', 'a', 'n', 'k'];
    assert(w@ =~= seq!['b', 'l', 'a', 'n', 'k']);
    if chars_eq(n, &w) {
        return Some(PosixClass::Blank);
    }
    let w: [char; 5] = ['c', 'n', 't', 'r', 'l'];
    assert(w@ =~= seq!['c', 'n', 't', 'r', 'l']);
    if chars_eq(n, &w) {
        return Some(PosixClass::Cntrl);
    }
    let w: [char; 5] = ['d', 'i', 'g', 'i', 't'];
    assert(w@ =~= seq!['d', 'i', 'g', 'i', 't']);
    if chars_eq(n, &w) {
        return Some(PosixClass::Digit);
    }
    let w: [char; 5] = ['g', 'r', 'a', 'p', 'h'];
    assert(w@ =~= seq!['g', 'r', 'a', 'p', 'h']);
    if chars_eq(n, &w) {
        return Some(PosixClass::Graph);
    }
    let w: [char; 5] = ['l', 'o', 'w', 'e', 'r'];
    assert(w@ =~= seq!['l', 'o', 'w', 'e', 'r']);
    if chars_eq(n, &w) {
        return Some(PosixClass::Lower);
    }
    let w: [char; 5] = ['p', 'r', 'i', 'n', 't'];
    assert(w@ =~= seq!['p', 'r', 'i', 'n', 't']);
    if chars_eq(n, &w) {
        return Some(PosixClass::Print);
    }
    let w: [char; 5] = ['p', 'u', 'n', 'c', 't'];
    assert(w@ =~= seq!['p', 'u', 'n', 'c', 't']);
    if chars_eq(n, &w) {
        return Some(PosixClass::Punct);
    }
    let w: [char; 5] = ['s', 'p', 'a', 'c', 'e'];
    assert(w@ =~= seq!['s', 'p', 'a', 'c', 'e']);
    if chars_eq(n, &w) {
        return Some(PosixClass::Space);
    }
    let w: [char; 5] = ['u', 'p', 'p', 'e', 'r'];
    assert(w@ =~= seq!['u', 'p', 'p', 'e', 'r']);
    if chars_eq(n, &w) {
        return Some(PosixClass::Upper);
    }
    let w: [char; 4] = ['w', 'o', 'r', 'd'];
    assert(w@ =~= seq!['w', 'o', 'r', 'd']);
    if chars_eq(n, &w) {
        return Some(PosixClass::Word);
    }
    let w: [char; 6] = ['x', 'd', 'i', 'g', 'i', 't'];
    assert(w@ =~= seq!['x', 'd', 'i', 'g', 'i', 't']);
    if chars_eq(n, &w) {
        return Some(PosixClass::Xdigit);
    }
    None
}

fn is_names_other(n: &[char]) -> (r: bool)
    ensures
        r == names_other(n@),
{
    let w0: [char; 1] = ['c'];
    assert(w0@ =~= seq!['c']);
    let w1: [char; 5] = ['o', 't', 'h', 'e', 'r'];
    assert(w1@ =~= seq!['o', 't', 'h', 'e', 'r']);
    chars_eq(n, &w0) || chars_eq(n, &w1)
}

fn is_names_cased_letter(n: &[char]) -> (r: bool)
    ensures
        r == names_cased_letter(n@),
{
    let w0: [char; 11] = ['c', 'a', 's', 'e', 'd', 'l', 'e', 't', 't', 'e', 'r'];
    assert(w0@ =~= seq!['c', 'a', 's', 'e', 'd', 'l', 'e', 't', 't', 'e', 'r']);
    let w1: [char; 2] = ['l', 'c'];
    assert(w1@ =~= seq!['l', 'c']);
    chars_eq(n, &w0) || chars_eq(n, &w1)
}

fn is_names_control(n: &[char]) -> (r: bool)
    ensures
        r == names_control(n@),
{
    let w0: [char; 2] = ['c', 'c'];
    assert(w0@ =~= seq!['c', 'c']);
    let w1: [char; 5] = ['c', 'n', 't', 'r', 'l'];
    assert(w1@ =~= seq!['c', 'n', 't', 'r', 'l']);
    let w2: [char; 7] = ['c', 'o', 'n', 't', 'r', 'o', 'l'];
    assert(w2@ =~= seq!['c', 'o', 'n', 't', 'r', 'o', 'l']);
    chars_eq(n, &w0) || chars_eq(n, &w1) || chars_eq(n, &w2)
}

fn is_names_format(n: &[char]) -> (r: bool)
    ensures
        r == names_format(n@),
{
    let w0: [char; 2] = ['c', 'f'];
    assert(w0@ =~= seq!['c', 'f']);
    let w1: [char; 6] = ['f', 'o', 'r', 'm', 'a', 't'];
    assert(w1@ =~= seq!['f', 'o', 'r', 'm', 'a', 't']);
    chars_eq(n, &w0) || chars_eq(n, &w1)
}

fn is_names_close_punctuation(n: &[char]) -> (r: bool)
    ensures
        r == names_close_punctuation(n@),
{
    let w0: [char; 16] = ['c', 'l', 'o', 's', 'e', 'p', 'u', 'n', 'c', 't', 'u', 'a', 't', 'i', 'o', 'n'];
    assert(w0@ =~= seq!['c', 'l', 'o', 's', 'e', 'p', 'u', 'n', 'c', 't', 'u', 'a', 't', 'i', 'o', 'n']);
    let w1: [char; 2] = ['p', 'e'];
    assert(w1@ =~= seq!['p', 'e']);
    chars_eq(n, &w0) || chars_eq(n, &w1)
}

fn is_names_unassigned(n: &[char]) -> (r: bool)
    ensures
        r == names_unassigned(n@),
{
    let w0: [char; 2] = ['c', 'n'];
    assert(w0@ =~= seq!['c', 'n']);
    let w1: [char; 10] = ['u', 'n', 'a', 's', 's', 'i', 'g', 'n', 'e', 'd'];
    assert(w1@ =~= seq!['u', 'n', 'a', 's', 's', 'i', 'g', 'n', 'e', 'd']);
    chars_eq(n, &w0) || chars_eq(n, &w1)
}

fn is_names_private_use(n: &[char]) -> (r: bool)
    ensures
        r == names_private_use(n@),
{
    let w0: [char; 2] = ['c', 'o'];
    assert(w0@ =~= seq!['c', 'o']);
    let w1: [char; 10] = ['p', 'r', 'i', 'v', 'a', 't', 'e', 'u', 's', 'e'];
    assert(w1@ =~= seq!['p', 'r', 'i', 'v', 'a', 't', 'e', 'u', 's', 'e']);
    chars_eq(n, &w0) || chars_eq(n, &w1)
}

fn is_names_mark(n: &[char]) -> (r: bool)
    ensures
        r == names_mark(n@),
{
    let w0: [char; 13] = ['c', 'o', 'm', 'b', 'i', 'n', 'i', 'n', 'g', 'm', 'a', 'r', 'k'];
    assert(w0@ =~= seq!['c', 'o', 'm', 'b', 'i', 'n', 'i', 'n', 'g', 'm', 'a', 'r', 'k']);
    let w1: [char; 1] = ['m'];
    assert(w1@ =~= seq!['m']);
    let w2: [char; 4] = ['m', 'a', 'r', 'k'];
    assert(w2@ =~= seq!['m', 'a', 'r', 'k']);
    chars_eq(n, &w0) || chars_eq(n, &w1) || chars_eq(n, &w2)
}

fn is_names_connector_punctuation(n: &[char]) -> (r: bool)
    ensures
        r == names_connector_punctuation(n@),
{
    let w0: [char; 20] = ['c', 'o', 'n', 'n', 'e', 'c', 't', 'o', 'r', 'p', 'u', 'n', 'c', 't', 'u', 'a', 't', 'i', 'o', 'n'];
    assert(w0@ =~= seq!['c', 'o', 'n', 'n', 'e', 'c', 't', 'o', 'r', 'p', 'u', 'n', 'c', 't', 'u', 'a', 't', 'i', 'o', 'n']);
    let w1: [char; 2] = ['p', 'c'];
    assert(w1@ =~= seq!['p', 'c']);
    chars_eq(n, &w0) || chars_eq(n, &w1)
}

fn is_names_currency_symbol(n: &[char]) -> (r: bool)
    ensures
        r == names_currency_symbol(n@),
{
    let w0: [char; 14] = ['c', 'u', 'r', 'r', 'e', 'n', 'c', 'y', 's', 'y', 'm', 'b', 'o', 'l'];
    assert(w0@ =~= seq!['c', 'u', 'r', 'r', 'e', 'n', 'c', 'y', 's', 'y', 'm', 'b', 'o', 'l']);
    let w1: [char; 2] = ['s', 'c'];
    assert(w1@ =~= seq!['s', 'c']);
    chars_eq(n, &w0) || chars_eq(n, &w1)
}

fn is_names_dash_punctuation(n: &[char]) -> (r: bool)
    ensures
        r == names_dash_punctuation(n@),
{
    let w0: [char; 15] = ['d', 'a', 's', 'h', 'p', 'u', 'n', 'c', 't', 'u', 'a', 't', 'i', 'o', 'n'];
    assert(w0@ =~= seq!['d', 'a', 's', 'h', 'p', 'u', 'n', 'c', 't', 'u', 'a', 't', 'i', 'o', 'n']);
    let w1: [char; 2] = ['p', 'd'];
    assert(w1@ =~= seq!['p', 'd']);
    chars_eq(n, &w0) || chars_eq(n, &w1)
}

fn is_names_decimal_number(n: &[char]) -> (r: bool)
    ensures
        r == names_decimal_number(n@),
{
    let w0: [char; 13] = ['d', 'e', 'c', 'i', 'm', 'a', 'l', 'n', 'u', 'm', 'b', 'e', 'r'];
    assert(w0@ =~= seq!['d', 'e', 'c', 'i', 'm', 'a', 'l', 'n', 'u', 'm', 'b', 'e', 'r']);
    let w1: [char; 5] = ['d', 'i', 'g', 'i', 't'];
    assert(w1@ =~= seq!['d', 'i', 'g', 'i', 't']);
    let w2: [char; 2] = ['n', 'd'];
    assert(w2@ =~= seq!['n', 'd']);
    chars_eq(n, &w0) || chars_eq(n, &w1) || chars_eq(n, &w2)
}

fn is_names_enclosing_mark(n: &[char]) -> (r: bool)
    ensures
        r == names_enclosing_mark(n@),
{
    let w0: [char; 13] = ['e', 'n', 'c', 'l', 'o', 's', 'i', 'n', 'g', 'm', 'a', 'r', 'k'];
    assert(w0@ =~= seq!['e', 'n', 'c', 'l', 'o', 's', 'i', 'n', 'g', 'm', 'a', 'r', 'k']);
    let w1: [char; 2] = ['m', 'e'];
    assert(w1@ =~= seq!['m', 'e']);
    chars_eq(n, &w0) || chars_eq(n, &w1)
}

fn is_names_final_punctuation(n: &[char]) -> (r: bool)
    ensures
        r == names_final_punctuation(n@),
{
    let w0: [char; 16] = ['f', 'i', 'n', 'a', 'l', 'p', 'u', 'n', 'c', 't', 'u', 'a', 't', 'i', 'o', 'n'];
    assert(w0@ =~= seq!['f', 'i', 'n', 'a', 'l', 'p', 'u', 'n', 'c', 't', 'u', 'a', 't', 'i', 'o', 'n']);
    let w1: [char; 2] = ['p', 'f'];
    assert(w1@ =~= seq!['p', 'f']);
    chars_eq(n, &w0) || chars_eq(n, &w1)
}

fn is_names_initial_punctuation(n: &[char]) -> (r: bool)
    ensures
        r == names_initial_punctuation(n@),
{
    let w0: [char; 18] = ['i', 'n', 'i', 't', 'i', 'a', 'l', 'p', 'u', 'n', 'c', 't', 'u', 'a', 't', 'i', 'o', 'n'];
    assert(w0@ =~= seq!['i', 'n', 'i', 't', 'i', 'a', 'l', 'p', 'u', 'n', 'c', 't', 'u', 'a', 't', 'i', 'o', 'n']);
    let w1: [char; 2] = ['p', 'i'];
    assert(w1@ =~= seq!['p', 'i']);
    chars_eq(n, &w0) || chars_eq(n, &w1)
}

fn is_names_letter(n: &[char]) -> (r: bool)
    ensures
        r == names_letter(n@),
{
    let w0: [char; 1] = ['l'];
    assert(w0@ =~= seq!['l']);
    let w1: [char; 6] = ['l', 'e', 't', 't', 'e', 'r'];
    assert(w1@ =~= seq!['l', 'e', 't', 't', 'e', 'r']);
    chars_eq(n, &w0) || chars_eq(n, &w1)
}

fn is_names_letter_number(n: &[char]) -> (r: bool)
    ensures
        r == names_letter_number(n@),
{
    let w0: [char; 12] = ['l', 'e', 't', 't', 'e', 'r', 'n', 'u', 'm', 'b', 'e', 'r'];
    assert(w0@ =~= seq!['l', 'e', 't', 't', 'e', 'r', 'n', 'u', 'm', 'b', 'e', 'r']);
    let w1: [char; 2] = ['n', 'l'];
    assert(w1@ =~= seq!['n', 'l']);
    chars_eq(n, &w0) || chars_eq(n, &w1)
}

fn is_names_line_separator(n: &[char]) -> (r: bool)
    ensures
        r == names_line_separator(n@),
{
    let w0: [char; 13] = ['l', 'i', 'n', 'e', 's', 'e', 'p', 'a', 'r', 'a', 't', 'o', 'r'];
    assert(w0@ =~= seq!['l', 'i', 'n', 'e', 's', 'e', 'p', 'a', 'r', 'a', 't', 'o', 'r']);
    let w1: [char; 2] = ['z', 'l'];
    assert(w1@ =~= seq!['z', 'l']);
    chars_eq(n, &w0) || chars_eq(n, &w1)
}

fn is_names_lowercase_letter(n: &[char]) -> (r: bool)
    ensures
        r == names_lowercase_letter(n@),
{
    let w0: [char; 2] = ['l', 'l'];
    assert(w0@ =~= seq!['l', 'l']);
    let w1: [char; 15] = ['l', 'o', 'w', 'e', 'r', 'c', 'a', 's', 'e', 'l', 'e', 't', 't', 'e', 'r'];
    assert(w1@ =~= seq!['l', 'o', 'w', 'e', 'r', 'c', 'a', 's', 'e', 'l', 'e', 't', 't', 'e', 'r']);
    chars_eq(n, &w0) || chars_eq(n, &w1)
}

fn is_names_modifier_letter(n: &[char]) -> (r: bool)
    ensures
        r == names_modifier_letter(n@),
{
    let w0: [char; 2] = ['l', 'm'];
    assert(w0@ =~= seq!['l', 'm']);
    let w1: [char; 14] = ['m', 'o', 'd', 'i', 'f', 'i', 'e', 'r', 'l', 'e', 't', 't', 'e', 'r'];
    assert(w1@ =~= seq!['m', 'o', 'd', 'i', 'f', 'i', 'e', 'r', 'l', 'e', 't', 't', 'e', 'r']);
    chars_eq(n, &w0) || chars_eq(n, &w1)
}

fn is_names_other_letter(n: &[char]) -> (r: bool)
    ensures
        r == names_other_letter(n@),
{
    let w0: [char; 2] = ['l', 'o'];
    assert(w0@ =~= seq!['l', 'o']);
    let w1: [char; 11] = ['o', 't', 'h', 'e', 'r', 'l', 'e', 't', 't', 'e', 'r'];
    assert(w1@ =~= seq!['o', 't', 'h', 'e', 'r', 'l', 'e', 't', 't', 'e', 'r']);
    chars_eq(n, &w0) || chars_eq(n, &w1)
}

fn is_names_titlecase_letter(n: &[char]) -> (r: bool)
    ensures
        r == names_titlecase_letter(n@),
{
    let w0: [char; 2] = ['l', 't'];
    assert(w0@ =~= seq!['l', 't']);
    let w1: [char; 15] = ['t', 'i', 't', 'l', 'e', 'c', 'a', 's', 'e', 'l', 'e', 't', 't', 'e', 'r'];
    assert(w1@ =~= seq!['t', 'i', 't', 'l', 'e', 'c', 'a', 's', 'e', 'l', 'e', 't', 't', 'e', 'r']);
    chars_eq(n, &w0) || chars_eq(n, &w1)
}

fn is_names_uppercase_letter(n: &[char]) -> (r: bool)
    ensures
        r == names_uppercase_letter(n@),
{
    let w0: [char; 2] = ['l', 'u'];
    assert(w0@ =~= seq!['l', 'u']);
    let w1: [char; 15] = ['u', 'p', 'p', 'e', 'r', 'c', 'a', 's', 'e', 'l', 'e', 't', 't', 'e', 'r'];
    assert(w1@ =~= seq!['u', 'p', 'p', 'e', 'r', 'c', 'a', 's', 'e', 'l', 'e', 't', 't', 'e', 'r']);
    chars_eq(n, &w0) || chars_eq(n, &w1)
}

fn is_names_math_symbol(n: &[char]) -> (r: bool)
    ensures
        r == names_math_symbol(n@),
{
    let w0: [char; 10] = ['m', 'a', 't', 'h', 's', 'y', 'm', 'b', 'o', 'l'];
    assert(w0@ =~= seq!['m', 'a', 't', 'h', 's', 'y', 'm', 'b', 'o', 'l']);
    let w1: [char; 2] = ['s', 'm'];
    assert(w1@ =~= seq!['s', 'm']);
    chars_eq(n, &w0) || chars_eq(n, &w1)
}

fn is_names_spacing_mark(n: &[char]) -> (r: bool)
    ensures
        r == names_spacing_mark(n@),
{
    let w0: [char; 2] = ['m', 'c'];
    assert(w0@ =~= seq!['m', 'c']);
    let w1: [char; 11] = ['s', 'p', 'a', 'c', 'i', 'n', 'g', 'm', 'a', 'r', 'k'];
    assert(w1@ =~= seq!['s', 'p', 'a', 'c', 'i', 'n', 'g', 'm', 'a', 'r', 'k']);
    chars_eq(n, &w0) || chars_eq(n, &w1)
}

fn is_names_nonspacing_mark(n: &[char]) -> (r: bool)
    ensures
        r == names_nonspacing_mark(n@),
{
    let w0: [char; 2] = ['m', 'n'];
    assert(w0@ =~= seq!['m', 'n']);
    let w1: [char; 14] = ['n', 'o', 'n', 's', 'p', 'a', 'c', 'i', 'n', 'g', 'm', 'a', 'r', 'k'];
    assert(w1@ =~= seq!['n', 'o', 'n', 's', 'p', 'a', 'c', 'i', 'n', 'g', 'm', 'a', 'r', 'k']);
    chars_eq(n, &w0) || chars_eq(n, &w1)
}

fn is_names_modifier_symbol(n: &[char]) -> (r: bool)
    ensures
        r == names_modifier_symbol(n@),
{
    let w0: [char; 14] = ['m', 'o', 'd', 'i', 'f', 'i', 'e', 'r', 's', 'y', 'm', 'b', 'o', 'l'];
    assert(w0@ =~= seq!['m', 'o', 'd', 'i', 'f', 'i', 'e', 'r', 's', 'y', 'm', 'b', 'o', 'l']);
    let w1: [char; 2] = ['s', 'k'];
    assert(w1@ =~= seq!['s', 'k']);
    chars_eq(n, &w0) || chars_eq(n, &w1)
}

fn is_names_number(n: &[char]) -> (r: bool)
    ensures
        r == names_number(n@),
{
    let w0: [char; 1] = ['n'];
    assert(w0@ =~= seq!['n']);
    let w1: [char; 6] = ['n', 'u', 'm', 'b', 'e', 'r'];
    assert(w1@ =~= seq!['n', 'u', 'm', 'b', 'e', 'r']);
    chars_eq(n, &w0) || chars_eq(n, &w1)
}

fn is_names_other_number(n: &[char]) -> (r: bool)
    ensures
        r == names_other_number(n@),
{
    let w0: [char; 2] = ['n', 'o'];
    assert(w0@ =~= seq!['n', 'o']);
    let w1: [char; 11] = ['o', 't', 'h', 'e', 'r', 'n', 'u', 'm', 'b', 'e', 'r'];
    assert(w1@ =~= seq!['o', 't', 'h', 'e', 'r', 'n', 'u', 'm', 'b', 'e', 'r']);
    chars_eq(n, &w0) || chars_eq(n, &w1)
}

fn is_names_open_punctuation(n: &[char]) -> (r: bool)
    ensures
        r == names_open_punctuation(n@),
{
    let w0: [char; 15] = ['o', 'p', 'e', 'n', 'p', 'u', 'n', 'c', 't', 'u', 'a', 't', 'i', 'o', 'n'];
    assert(w0@ =~= seq!['o', 'p', 'e', 'n', 'p', 'u', 'n', 'c', 't', 'u', 'a', 't', 'i', 'o', 'n']);
    let w1: [char; 2] = ['p', 's'];
    assert(w1@ =~= seq!['p', 's']);
    chars_eq(n, &w0) || chars_eq(n, &w1)
}

fn is_names_other_punctuation(n: &[char]) -> (r: bool)
    ensures
        r == names_other_punctuation(n@),
{
    let w0: [char; 16] = ['o', 't', 'h', 'e', 'r', 'p', 'u', 'n', 'c', 't', 'u', 'a', 't', 'i', 'o', 'n'];
    assert(w0@ =~= seq!['o', 't', 'h', 'e', 'r', 'p', 'u', 'n', 'c', 't', 'u', 'a', 't', 'i', 'o', 'n']);
    let w1: [char; 2] = ['p', 'o'];
    assert(w1@ =~= seq!['p', 'o']);
    chars_eq(n, &w0) || chars_eq(n, &w1)
}

fn is_names_other_symbol(n: &[char]) -> (r: bool)
    ensures
        r == names_other_symbol(n@),
{
    let w0: [char; 11] = ['o', 't', 'h', 'e', 'r', 's', 'y', 'm', 'b', 'o', 'l'];
    assert(w0@ =~= seq!['o', 't', 'h', 'e', 'r', 's', 'y', 'm', 'b', 'o', 'l']);
    let w1: [char; 2] = ['s', 'o'];
    assert(w1@ =~= seq!['s', 'o']);
    chars_eq(n, &w0) || chars_eq(n, &w1)
}

fn is_names_punctuation(n: &[char]) -> (r: bool)
    ensures
        r == names_punctuation(n@),
{
    let w0: [char; 1] = ['p'];
    assert(w0@ =~= seq!['p']);
    let w1: [char; 5] = ['p', 'u', 'n', 'c', 't'];
    assert(w1@ =~= seq!['p', 'u', 'n', 'c', 't']);
    let w2: [char; 11] = ['p', 'u', 'n', 'c', 't', 'u', 'a', 't', 'i', 'o', 'n'];
    assert(w2@ =~= seq!['p', 'u', 'n', 'c', 't', 'u', 'a', 't', 'i', 'o', 'n']);
    chars_eq(n, &w0) || chars_eq(n, &w1) || chars_eq(n, &w2)
}

fn is_names_paragraph_separator(n: &[char]) -> (r: bool)
    ensures
        r == names_paragraph_separator(n@),
{
    let w0: [char; 18] = ['p', 'a', 'r', 'a', 'g', 'r', 'a', 'p', 'h', 's', 'e', 'p', 'a', 'r', 'a', 't', 'o', 'r'];
    assert(w0@ =~= seq!['p', 'a', 'r', 'a', 'g', 'r', 'a', 'p', 'h', 's', 'e', 'p', 'a', 'r', 'a', 't', 'o', 'r']);
    let w1: [char; 2] = ['z', 'p'];
    assert(w1@ =~= seq!['z', 'p']);
    chars_eq(n, &w0) || chars_eq(n, &w1)
}

fn is_names_symbol(n: &[char]) -> (r: bool)
    ensures
        r == names_symbol(n@),
{
    let w0: [char; 1] = ['s'];
    assert(w0@ =~= seq!['s']);
    let w1: [char; 6] = ['s', 'y', 'm', 'b', 'o', 'l'];
    assert(w1@ =~= seq!['s', 'y', 'm', 'b', 'o', 'l']);
    chars_eq(n, &w0) || chars_eq(n, &w1)
}

fn is_names_separator(n: &[char]) -> (r: bool)
    ensures
        r == names_separator(n@),
{
    let w0: [char; 9] = ['s', 'e', 'p', 'a', 'r', 'a', 't', 'o', 'r'];
    assert(w0@ =~= seq!['s', 'e', 'p', 'a', 'r', 'a', 't', 'o', 'r']);
    let w1: [char; 1] = ['z'];
    assert(w1@ =~= seq!['z']);
    chars_eq(n, &w0) || chars_eq(n, &w1)
}

fn is_names_space_separator(n: &[char]) -> (r: bool)
    ensures
        r == names_space_separator(n@),
{
    let w0: [char; 14] = ['s', 'p', 'a', 'c', 'e', 's', 'e', 'p', 'a', 'r', 'a', 't', 'o', 'r'];
    assert(w0@ =~= seq!['s', 'p', 'a', 'c', 'e', 's', 'e', 'p', 'a', 'r', 'a', 't', 'o', 'r']);
    let w1: [char; 2] = ['z', 's'];
    assert(w1@ =~= seq!['z', 's']);
    chars_eq(n, &w0) || chars_eq(n, &w1)
}

/// The general category that a normalized value names.
pub fn gc_lookup(n: &[char]) -> (r: Option<UnicodeProp>)
    ensures
        r == gc_by_value(n@),
{
    let w: [char; 3] = ['a', 'n', 'y'];
    assert(w@ =~= seq!['a', 'n', 'y']);
    if chars_eq(n, &w) {
        return Some(UnicodeProp::Any);
    }
    let w: [char; 5] = ['a', 's', 'c', 'i', 'i'];
    assert(w@ =~= seq!['a', 's', 'c', 'i', 'i']);
    if chars_eq(n, &w) {
        return Some(UnicodeProp::Ascii);
    }
    let w: [char; 8] = ['a', 's', 's', 'i', 'g', 'n', 'e', 'd'];
    assert(w@ =~= seq!['a', 's', 's', 'i', 'g', 'n', 'e', 'd']);
    if chars_eq(n, &w) {
        return Some(UnicodeProp::Assigned);
    }
    if is_names_other(n) {
        return Some(UnicodeProp::Other);
    }
    if is_names_cased_letter(n) {
        return Some(UnicodeProp::CasedLetter);
    }
    if is_names_control(n) {
        return Some(UnicodeProp::Control);
    }
    if is_names_format(n) {
        return Some(UnicodeProp::Format);
    }
    if is_names_close_punctuation(n) {
        return Some(UnicodeProp::ClosePunctuation);
    }
    if is_names_unassigned(n) {
        return Some(UnicodeProp::Unassigned);
    }
    if is_names_private_use(n) {
        return Some(UnicodeProp::PrivateUse);
    }
    if is_names_mark(n) {
        return Some(UnicodeProp::Mark);
    }
    if is_names_connector_punctuation(n) {
        return Some(UnicodeProp::ConnectorPunctuation);
    }
    if is_names_currency_symbol(n) {
        return Some(UnicodeProp::CurrencySymbol);
    }
    if is_names_dash_punctuation(n) {
        return Some(UnicodeProp::DashPunctuation);
    }
    if is_names_decimal_number(n) {
        return Some(UnicodeProp::DecimalNumber);
    }
    if is_names_enclosing_mark(n) {
        return Some(UnicodeProp::EnclosingMark);
    }
    if is_names_final_punctuation(n) {
        return Some(UnicodeProp::FinalPunctuation);
    }
    if is_names_initial_punctuation(n) {
        return Some(UnicodeProp::InitialPunctuation);
    }
    if is_names_letter(n) {
        return Some(UnicodeProp::Letter);
    }
    if is_names_letter_number(n) {
        return Some(UnicodeProp::LetterNumber);
    }
    if is_names_line_separator(n) {
        return Some(UnicodeProp::LineSeparator);
    }
    if is_names_lowercase_letter(n) {
        return Some(UnicodeProp::LowercaseLetter);
    }
    if is_names_modifier_letter(n) {
        return Some(UnicodeProp::ModifierLetter);
    }
    if is_names_other_letter(n) {
        return Some(UnicodeProp::OtherLetter);
    }
    if is_names_titlecase_letter(n) {
        return Some(UnicodeProp::TitlecaseLetter);
    }
    if is_names_uppercase_letter(n) {
        return Some(UnicodeProp::UppercaseLetter);
    }
    if is_names_math_symbol(n) {
        return Some(UnicodeProp::MathSymbol);
    }
    if is_names_spacing_mark(n) {
        return Some(UnicodeProp::SpacingMark);
    }
    if is_names_nonspacing_mark(n) {
        return Some(UnicodeProp::NonspacingMark);
    }
    if is_names_modifier_symbol(n) {
        return Some(UnicodeProp::ModifierSymbol);
    }
    if is_names_number(n) {
        return Some(UnicodeProp::Number);
    }
    if is_names_other_number(n) {
        return Some(UnicodeProp::OtherNumber);
    }
    if is_names_open_punctuation(n) {
        return Some(UnicodeProp::OpenPunctuation);
    }
    if is_names_other_punctuation(n) {
        return Some(UnicodeProp::OtherPunctuation);
    }
    if is_names_other_symbol(n) {
        return Some(UnicodeProp::OtherSymbol);
    }
    if is_names_punctuation(n) {
        return Some(UnicodeProp::Punctuation);
    }
    if is_names_paragraph_separator(n) {
        return Some(UnicodeProp::ParagraphSeparator);
    }
    if is_names_symbol(n) {
        return Some(UnicodeProp::Symbol);
    }
    if is_names_separator(n) {
        return Some(UnicodeProp::Separator);
    }
    if is_names_space_separator(n) {
        return Some(UnicodeProp::SpaceSeparator);
    }
    None
}

/// The property that a normalized name standing alone names.
pub fn property_lookup(n: &[char]) -> (r: Option<UnicodeProp>)
    ensures
        r == property_by_name(n@),
{
    let w: [char; 10] = ['w', 'h', 'i', 't', 'e', 's', 'p', 'a', 'c', 'e'];
    assert(w@ =~= seq!['w', 'h', 'i', 't', 'e', 's', 'p', 'a', 'c', 'e']);
    let w2: [char; 6] = ['w', 's', 'p', 'a', 'c', 'e'];
    assert(w2@ =~= seq!['w', 's', 'p', 'a', 'c', 'e']);
    let w3: [char; 5] = ['s', 'p', 'a', 'c', 'e'];
    assert(w3@ =~= seq!['s', 'p', 'a', 'c', 'e']);
    if chars_eq(n, &w) || chars_eq(n, &w2) || chars_eq(n, &w3) {
        return Some(UnicodeProp::WhiteSpace);
    }
    match gc_lookup(n) {
        Some(p) => Some(p),
        None => match crate::script::script_lookup(n) {
            Some(s) => Some(UnicodeProp::Script(s)),
            None => None,
        },
    }
}

/// Whether a normalized property key names the general category.
pub fn gc_key(n: &[char]) -> (r: bool)
    ensures
        r == is_gc_key(n@),
{
    let w: [char; 2] = ['g', 'c'];
    assert(w@ =~= seq!['g', 'c']);
    let w2: [char; 15] = ['g', 'e', 'n', 'e', 'r', 'a', 'l', 'c', 'a', 't', 'e', 'g', 'o', 'r', 'y'];
    assert(w2@ =~= seq!['g', 'e', 'n', 'e', 'r', 'a', 'l', 'c', 'a', 't', 'e', 'g', 'o', 'r', 'y']);
    chars_eq(n, &w) || chars_eq(n, &w2)
}

} // verus!
