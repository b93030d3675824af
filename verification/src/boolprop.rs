//! The boolean Unicode properties of Unicode 16.0 that `\\p{..}` can name
//! (`\\p{Alphabetic}`, `\\p{Emoji}`), each as a canonical class, and the names
//! of all Unicode properties.
use vstd::prelude::*;
use crate::ranges::{SRange, canonical};
use crate::class::{ClassUnicodeRange, rview};
use crate::tables::chars_eq;

verus! {

/// A boolean Unicode property (`White_Space` is `UnicodeProp::WhiteSpace`).
#[derive(Clone, Copy, Debug, PartialEq, Eq, Structural)]
pub enum BoolProp {
    ASCIIHexDigit,
    Alphabetic,
    BidiControl,
    BidiMirrored,
    CaseIgnorable,
    Cased,
    ChangesWhenCasefolded,
    ChangesWhenCasemapped,
    ChangesWhenLowercased,
    ChangesWhenTitlecased,
    ChangesWhenUppercased,
    Dash,
    DefaultIgnorableCodePoint,
    Deprecated,
    Diacritic,
    Emoji,
    EmojiComponent,
    EmojiModifier,
    EmojiModifierBase,
    EmojiPresentation,
    ExtendedPictographic,
    Extender,
    GraphemeBase,
    GraphemeExtend,
    GraphemeLink,
    HexDigit,
    Hyphen,
    IDSBinaryOperator,
    IDSTrinaryOperator,
    IDSUnaryOperator,
    IDCompatMathContinue,
    IDCompatMathStart,
    IDContinue,
    IDStart,
    Ideographic,
    InCB,
    JoinControl,
    LogicalOrderException,
    Lowercase,
    Math,
    ModifierCombiningMark,
    NoncharacterCodePoint,
    OtherAlphabetic,
    OtherDefaultIgnorableCodePoint,
    OtherGraphemeExtend,
    OtherIDContinue,
    OtherIDStart,
    OtherLowercase,
    OtherMath,
    OtherUppercase,
    PatternSyntax,
    PatternWhiteSpace,
    PrependedConcatenationMark,
    QuotationMark,
    Radical,
    RegionalIndicator,
    SentenceTerminal,
    SoftDotted,
    TerminalPunctuation,
    UnifiedIdeograph,
    Uppercase,
    VariationSelector,
    XIDContinue,
    XIDStart,
}

/// The ranges of a boolean property.
pub open spec fn bool_ranges(p: BoolProp) -> Seq<SRange> {
    match p {
        BoolProp::ASCIIHexDigit => crate::bool_data_0::ascii_hex_digit_ranges(),
        BoolProp::Alphabetic => crate::bool_data_0::alphabetic_ranges(),
        BoolProp::BidiControl => crate::bool_data_0::bidi_control_ranges(),
        BoolProp::BidiMirrored => crate::bool_data_0::bidi_mirrored_ranges(),
        BoolProp::CaseIgnorable => crate::bool_data_0::case_ignorable_ranges(),
        BoolProp::Cased => crate::bool_data_0::cased_ranges(),
        BoolProp::ChangesWhenCasefolded => crate::bool_data_0::changes_when_casefolded_ranges(),
        BoolProp::ChangesWhenCasemapped => crate::bool_data_0::changes_when_casemapped_ranges(),
        BoolProp::ChangesWhenLowercased => crate::bool_data_0::changes_when_lowercased_ranges(),
        BoolProp::ChangesWhenTitlecased => crate::bool_data_0::changes_when_titlecased_ranges(),
        BoolProp::ChangesWhenUppercased => crate::bool_data_0::changes_when_uppercased_ranges(),
        BoolProp::Dash => crate::bool_data_0::dash_ranges(),
        BoolProp::DefaultIgnorableCodePoint => crate::bool_data_0::default_ignorable_code_point_ranges(),
        BoolProp::Deprecated => crate::bool_data_0::deprecated_ranges(),
        BoolProp::Diacritic => crate::bool_data_0::diacritic_ranges(),
        BoolProp::Emoji => crate::bool_data_0::emoji_ranges(),
        BoolProp::EmojiComponent => crate::bool_data_1::emoji_component_ranges(),
        BoolProp::EmojiModifier => crate::bool_data_1::emoji_modifier_ranges(),
        BoolProp::EmojiModifierBase => crate::bool_data_1::emoji_modifier_base_ranges(),
        BoolProp::EmojiPresentation => crate::bool_data_1::emoji_presentation_ranges(),
        BoolProp::ExtendedPictographic => crate::bool_data_1::extended_pictographic_ranges(),
        BoolProp::Extender => crate::bool_data_1::extender_ranges(),
        BoolProp::GraphemeBase => crate::bool_data_1::grapheme_base_ranges(),
        BoolProp::GraphemeExtend => crate::bool_data_1::grapheme_extend_ranges(),
        BoolProp::GraphemeLink => crate::bool_data_1::grapheme_link_ranges(),
        BoolProp::HexDigit => crate::bool_data_1::hex_digit_ranges(),
        BoolProp::Hyphen => crate::bool_data_1::hyphen_ranges(),
        BoolProp::IDSBinaryOperator => crate::bool_data_1::ids_binary_operator_ranges(),
        BoolProp::IDSTrinaryOperator => crate::bool_data_1::ids_trinary_operator_ranges(),
        BoolProp::IDSUnaryOperator => crate::bool_data_1::ids_unary_operator_ranges(),
        BoolProp::IDCompatMathContinue => crate::bool_data_1::id_compat_math_continue_ranges(),
        BoolProp::IDCompatMathStart => crate::bool_data_1::id_compat_math_start_ranges(),
        BoolProp::IDContinue => crate::bool_data_2::id_continue_ranges(),
        BoolProp::IDStart => crate::bool_data_2::id_start_ranges(),
        BoolProp::Ideographic => crate::bool_data_2::ideographic_ranges(),
        BoolProp::InCB => crate::bool_data_2::incb_ranges(),
        BoolProp::JoinControl => crate::bool_data_2::join_control_ranges(),
        BoolProp::LogicalOrderException => crate::bool_data_2::logical_order_exception_ranges(),
        BoolProp::Lowercase => crate::bool_data_2::lowercase_ranges(),
        BoolProp::Math => crate::bool_data_2::math_ranges(),
        BoolProp::ModifierCombiningMark => crate::bool_data_2::modifier_combining_mark_ranges(),
        BoolProp::NoncharacterCodePoint => crate::bool_data_2::noncharacter_code_point_ranges(),
        BoolProp::OtherAlphabetic => crate::bool_data_2::other_alphabetic_ranges(),
        BoolProp::OtherDefaultIgnorableCodePoint => crate::bool_data_2::other_default_ignorable_code_point_ranges(),
        BoolProp::OtherGraphemeExtend => crate::bool_data_2::other_grapheme_extend_ranges(),
        BoolProp::OtherIDContinue => crate::bool_data_2::other_id_continue_ranges(),
        BoolProp::OtherIDStart => crate::bool_data_2::other_id_start_ranges(),
        BoolProp::OtherLowercase => crate::bool_data_2::other_lowercase_ranges(),
        BoolProp::OtherMath => crate::bool_data_3::other_math_ranges(),
        BoolProp::OtherUppercase => crate::bool_data_3::other_uppercase_ranges(),
        BoolProp::PatternSyntax => crate::bool_data_3::pattern_syntax_ranges(),
        BoolProp::PatternWhiteSpace => crate::bool_data_3::pattern_white_space_ranges(),
        BoolProp::PrependedConcatenationMark => crate::bool_data_3::prepended_concatenation_mark_ranges(),
        BoolProp::QuotationMark => crate::bool_data_3::quotation_mark_ranges(),
        BoolProp::Radical => crate::bool_data_3::radical_ranges(),
        BoolProp::RegionalIndicator => crate::bool_data_3::regional_indicator_ranges(),
        BoolProp::SentenceTerminal => crate::bool_data_3::sentence_terminal_ranges(),
        BoolProp::SoftDotted => crate::bool_data_3::soft_dotted_ranges(),
        BoolProp::TerminalPunctuation => crate::bool_data_3::terminal_punctuation_ranges(),
        BoolProp::UnifiedIdeograph => crate::bool_data_3::unified_ideograph_ranges(),
        BoolProp::Uppercase => crate::bool_data_3::uppercase_ranges(),
        BoolProp::VariationSelector => crate::bool_data_3::variation_selector_ranges(),
        BoolProp::XIDContinue => crate::bool_data_3::xid_continue_ranges(),
        BoolProp::XIDStart => crate::bool_data_3::xid_start_ranges(),
    }
}

pub proof fn lemma_bool_canonical(p: BoolProp)
    ensures
        canonical(bool_ranges(p)),
{
    match p {
        BoolProp::ASCIIHexDigit => crate::bool_data_0::lemma_ascii_hex_digit_canonical(),
        BoolProp::Alphabetic => crate::bool_data_0::lemma_alphabetic_canonical(),
        BoolProp::BidiControl => crate::bool_data_0::lemma_bidi_control_canonical(),
        BoolProp::BidiMirrored => crate::bool_data_0::lemma_bidi_mirrored_canonical(),
        BoolProp::CaseIgnorable => crate::bool_data_0::lemma_case_ignorable_canonical(),
        BoolProp::Cased => crate::bool_data_0::lemma_cased_canonical(),
        BoolProp::ChangesWhenCasefolded => crate::bool_data_0::lemma_changes_when_casefolded_canonical(),
        BoolProp::ChangesWhenCasemapped => crate::bool_data_0::lemma_changes_when_casemapped_canonical(),
        BoolProp::ChangesWhenLowercased => crate::bool_data_0::lemma_changes_when_lowercased_canonical(),
        BoolProp::ChangesWhenTitlecased => crate::bool_data_0::lemma_changes_when_titlecased_canonical(),
        BoolProp::ChangesWhenUppercased => crate::bool_data_0::lemma_changes_when_uppercased_canonical(),
        BoolProp::Dash => crate::bool_data_0::lemma_dash_canonical(),
        BoolProp::DefaultIgnorableCodePoint => crate::bool_data_0::lemma_default_ignorable_code_point_canonical(),
        BoolProp::Deprecated => crate::bool_data_0::lemma_deprecated_canonical(),
        BoolProp::Diacritic => crate::bool_data_0::lemma_diacritic_canonical(),
        BoolProp::Emoji => crate::bool_data_0::lemma_emoji_canonical(),
        BoolProp::EmojiComponent => crate::bool_data_1::lemma_emoji_component_canonical(),
        BoolProp::EmojiModifier => crate::bool_data_1::lemma_emoji_modifier_canonical(),
        BoolProp::EmojiModifierBase => crate::bool_data_1::lemma_emoji_modifier_base_canonical(),
        BoolProp::EmojiPresentation => crate::bool_data_1::lemma_emoji_presentation_canonical(),
        BoolProp::ExtendedPictographic => crate::bool_data_1::lemma_extended_pictographic_canonical(),
        BoolProp::Extender => crate::bool_data_1::lemma_extender_canonical(),
        BoolProp::GraphemeBase => crate::bool_data_1::lemma_grapheme_base_canonical(),
        BoolProp::GraphemeExtend => crate::bool_data_1::lemma_grapheme_extend_canonical(),
        BoolProp::GraphemeLink => crate::bool_data_1::lemma_grapheme_link_canonical(),
        BoolProp::HexDigit => crate::bool_data_1::lemma_hex_digit_canonical(),
        BoolProp::Hyphen => crate::bool_data_1::lemma_hyphen_canonical(),
        BoolProp::IDSBinaryOperator => crate::bool_data_1::lemma_ids_binary_operator_canonical(),
        BoolProp::IDSTrinaryOperator => crate::bool_data_1::lemma_ids_trinary_operator_canonical(),
        BoolProp::IDSUnaryOperator => crate::bool_data_1::lemma_ids_unary_operator_canonical(),
        BoolProp::IDCompatMathContinue => crate::bool_data_1::lemma_id_compat_math_continue_canonical(),
        BoolProp::IDCompatMathStart => crate::bool_data_1::lemma_id_compat_math_start_canonical(),
        BoolProp::IDContinue => crate::bool_data_2::lemma_id_continue_canonical(),
        BoolProp::IDStart => crate::bool_data_2::lemma_id_start_canonical(),
        BoolProp::Ideographic => crate::bool_data_2::lemma_ideographic_canonical(),
        BoolProp::InCB => crate::bool_data_2::lemma_incb_canonical(),
        BoolProp::JoinControl => crate::bool_data_2::lemma_join_control_canonical(),
        BoolProp::LogicalOrderException => crate::bool_data_2::lemma_logical_order_exception_canonical(),
        BoolProp::Lowercase => crate::bool_data_2::lemma_lowercase_canonical(),
        BoolProp::Math => crate::bool_data_2::lemma_math_canonical(),
        BoolProp::ModifierCombiningMark => crate::bool_data_2::lemma_modifier_combining_mark_canonical(),
        BoolProp::NoncharacterCodePoint => crate::bool_data_2::lemma_noncharacter_code_point_canonical(),
        BoolProp::OtherAlphabetic => crate::bool_data_2::lemma_other_alphabetic_canonical(),
        BoolProp::OtherDefaultIgnorableCodePoint => crate::bool_data_2::lemma_other_default_ignorable_code_point_canonical(),
        BoolProp::OtherGraphemeExtend => crate::bool_data_2::lemma_other_grapheme_extend_canonical(),
        BoolProp::OtherIDContinue => crate::bool_data_2::lemma_other_id_continue_canonical(),
        BoolProp::OtherIDStart => crate::bool_data_2::lemma_other_id_start_canonical(),
        BoolProp::OtherLowercase => crate::bool_data_2::lemma_other_lowercase_canonical(),
        BoolProp::OtherMath => crate::bool_data_3::lemma_other_math_canonical(),
        BoolProp::OtherUppercase => crate::bool_data_3::lemma_other_uppercase_canonical(),
        BoolProp::PatternSyntax => crate::bool_data_3::lemma_pattern_syntax_canonical(),
        BoolProp::PatternWhiteSpace => crate::bool_data_3::lemma_pattern_white_space_canonical(),
        BoolProp::PrependedConcatenationMark => crate::bool_data_3::lemma_prepended_concatenation_mark_canonical(),
        BoolProp::QuotationMark => crate::bool_data_3::lemma_quotation_mark_canonical(),
        BoolProp::Radical => crate::bool_data_3::lemma_radical_canonical(),
        BoolProp::RegionalIndicator => crate::bool_data_3::lemma_regional_indicator_canonical(),
        BoolProp::SentenceTerminal => crate::bool_data_3::lemma_sentence_terminal_canonical(),
        BoolProp::SoftDotted => crate::bool_data_3::lemma_soft_dotted_canonical(),
        BoolProp::TerminalPunctuation => crate::bool_data_3::lemma_terminal_punctuation_canonical(),
        BoolProp::UnifiedIdeograph => crate::bool_data_3::lemma_unified_ideograph_canonical(),
        BoolProp::Uppercase => crate::bool_data_3::lemma_uppercase_canonical(),
        BoolProp::VariationSelector => crate::bool_data_3::lemma_variation_selector_canonical(),
        BoolProp::XIDContinue => crate::bool_data_3::lemma_xid_continue_canonical(),
        BoolProp::XIDStart => crate::bool_data_3::lemma_xid_start_canonical(),
    }
}

/// The class of a boolean property.
pub fn bool_class(p: BoolProp) -> (v: Vec<ClassUnicodeRange>)
    ensures
        rview(v@) == bool_ranges(p),
{
    match p {
        BoolProp::ASCIIHexDigit => crate::bool_data_0::ascii_hex_digit_class(),
        BoolProp::Alphabetic => crate::bool_data_0::alphabetic_class(),
        BoolProp::BidiControl => crate::bool_data_0::bidi_control_class(),
        BoolProp::BidiMirrored => crate::bool_data_0::bidi_mirrored_class(),
        BoolProp::CaseIgnorable => crate::bool_data_0::case_ignorable_class(),
        BoolProp::Cased => crate::bool_data_0::cased_class(),
        BoolProp::ChangesWhenCasefolded => crate::bool_data_0::changes_when_casefolded_class(),
        BoolProp::ChangesWhenCasemapped => crate::bool_data_0::changes_when_casemapped_class(),
        BoolProp::ChangesWhenLowercased => crate::bool_data_0::changes_when_lowercased_class(),
        BoolProp::ChangesWhenTitlecased => crate::bool_data_0::changes_when_titlecased_class(),
        BoolProp::ChangesWhenUppercased => crate::bool_data_0::changes_when_uppercased_class(),
        BoolProp::Dash => crate::bool_data_0::dash_class(),
        BoolProp::DefaultIgnorableCodePoint => crate::bool_data_0::default_ignorable_code_point_class(),
        BoolProp::Deprecated => crate::bool_data_0::deprecated_class(),
        BoolProp::Diacritic => crate::bool_data_0::diacritic_class(),
        BoolProp::Emoji => crate::bool_data_0::emoji_class(),
        BoolProp::EmojiComponent => crate::bool_data_1::emoji_component_class(),
        BoolProp::EmojiModifier => crate::bool_data_1::emoji_modifier_class(),
        BoolProp::EmojiModifierBase => crate::bool_data_1::emoji_modifier_base_class(),
        BoolProp::EmojiPresentation => crate::bool_data_1::emoji_presentation_class(),
        BoolProp::ExtendedPictographic => crate::bool_data_1::extended_pictographic_class(),
        BoolProp::Extender => crate::bool_data_1::extender_class(),
        BoolProp::GraphemeBase => crate::bool_data_1::grapheme_base_class(),
        BoolProp::GraphemeExtend => crate::bool_data_1::grapheme_extend_class(),
        BoolProp::GraphemeLink => crate::bool_data_1::grapheme_link_class(),
        BoolProp::HexDigit => crate::bool_data_1::hex_digit_class(),
        BoolProp::Hyphen => crate::bool_data_1::hyphen_class(),
        BoolProp::IDSBinaryOperator => crate::bool_data_1::ids_binary_operator_class(),
        BoolProp::IDSTrinaryOperator => crate::bool_data_1::ids_trinary_operator_class(),
        BoolProp::IDSUnaryOperator => crate::bool_data_1::ids_unary_operator_class(),
        BoolProp::IDCompatMathContinue => crate::bool_data_1::id_compat_math_continue_class(),
        BoolProp::IDCompatMathStart => crate::bool_data_1::id_compat_math_start_class(),
        BoolProp::IDContinue => crate::bool_data_2::id_continue_class(),
        BoolProp::IDStart => crate::bool_data_2::id_start_class(),
        BoolProp::Ideographic => crate::bool_data_2::ideographic_class(),
        BoolProp::InCB => crate::bool_data_2::incb_class(),
        BoolProp::JoinControl => crate::bool_data_2::join_control_class(),
        BoolProp::LogicalOrderException => crate::bool_data_2::logical_order_exception_class(),
        BoolProp::Lowercase => crate::bool_data_2::lowercase_class(),
        BoolProp::Math => crate::bool_data_2::math_class(),
        BoolProp::ModifierCombiningMark => crate::bool_data_2::modifier_combining_mark_class(),
        BoolProp::NoncharacterCodePoint => crate::bool_data_2::noncharacter_code_point_class(),
        BoolProp::OtherAlphabetic => crate::bool_data_2::other_alphabetic_class(),
        BoolProp::OtherDefaultIgnorableCodePoint => crate::bool_data_2::other_default_ignorable_code_point_class(),
        BoolProp::OtherGraphemeExtend => crate::bool_data_2::other_grapheme_extend_class(),
        BoolProp::OtherIDContinue => crate::bool_data_2::other_id_continue_class(),
        BoolProp::OtherIDStart => crate::bool_data_2::other_id_start_class(),
        BoolProp::OtherLowercase => crate::bool_data_2::other_lowercase_class(),
        BoolProp::OtherMath => crate::bool_data_3::other_math_class(),
        BoolProp::OtherUppercase => crate::bool_data_3::other_uppercase_class(),
        BoolProp::PatternSyntax => crate::bool_data_3::pattern_syntax_class(),
        BoolProp::PatternWhiteSpace => crate::bool_data_3::pattern_white_space_class(),
        BoolProp::PrependedConcatenationMark => crate::bool_data_3::prepended_concatenation_mark_class(),
        BoolProp::QuotationMark => crate::bool_data_3::quotation_mark_class(),
        BoolProp::Radical => crate::bool_data_3::radical_class(),
        BoolProp::RegionalIndicator => crate::bool_data_3::regional_indicator_class(),
        BoolProp::SentenceTerminal => crate::bool_data_3::sentence_terminal_class(),
        BoolProp::SoftDotted => crate::bool_data_3::soft_dotted_class(),
        BoolProp::TerminalPunctuation => crate::bool_data_3::terminal_punctuation_class(),
        BoolProp::UnifiedIdeograph => crate::bool_data_3::unified_ideograph_class(),
        BoolProp::Uppercase => crate::bool_data_3::uppercase_class(),
        BoolProp::VariationSelector => crate::bool_data_3::variation_selector_class(),
        BoolProp::XIDContinue => crate::bool_data_3::xid_continue_class(),
        BoolProp::XIDStart => crate::bool_data_3::xid_start_class(),
    }
}

/// What a Unicode property name names: a boolean property, `White_Space`,
/// or another property.
#[derive(Clone, Copy, Debug, PartialEq, Eq, Structural)]
pub enum PropName {
    Bool(BoolProp),
    WhiteSpace,
    /// `Age`, `Script_Extensions`, `Grapheme_Cluster_Break`, `Word_Break` or
    /// `Sentence_Break`: properties that name classes only with a value.
    Valued,
    Other,
}

/// The normalized names of the property Age.
pub open spec fn names_age(n: Seq<char>) -> bool {
    n == seq!['a', 'g', 'e']
}

fn is_names_age(n: &[char]) -> (r: bool)
    ensures
        r == names_age(n@),
{
    let w0: [char; 3] = ['a', 'g', 'e'];
    assert(w0@ =~= seq!['a', 'g', 'e']);
    chars_eq(n, &w0)
}

/// The normalized names of the property ASCII_Hex_Digit.
pub open spec fn names_ascii_hex_digit(n: Seq<char>) -> bool {
    n == seq!['a', 'h', 'e', 'x'] || n == seq!['a', 's', 'c', 'i', 'i', 'h', 'e', 'x', 'd', 'i', 'g', 'i', 't']
}

fn is_names_ascii_hex_digit(n: &[char]) -> (r: bool)
    ensures
        r == names_ascii_hex_digit(n@),
{
    let w0: [char; 4] = ['a', 'h', 'e', 'x'];
    assert(w0@ =~= seq!['a', 'h', 'e', 'x']);
    let w1: [char; 13] = ['a', 's', 'c', 'i', 'i', 'h', 'e', 'x', 'd', 'i', 'g', 'i', 't'];
    assert(w1@ =~= seq!['a', 's', 'c', 'i', 'i', 'h', 'e', 'x', 'd', 'i', 'g', 'i', 't']);
    chars_eq(n, &w0) || chars_eq(n, &w1)
}

/// The normalized names of the property Alphabetic.
pub open spec fn names_alphabetic(n: Seq<char>) -> bool {
    n == seq!['a', 'l', 'p', 'h', 'a'] || n == seq!['a', 'l', 'p', 'h', 'a', 'b', 'e', 't', 'i', 'c']
}

fn is_names_alphabetic(n: &[char]) -> (r: bool)
    ensures
        r == names_alphabetic(n@),
{
    let w0: [char; 5] = ['a', 'l', 'p', 'h', 'a'];
    assert(w0@ =~= seq!['a', 'l', 'p', 'h', 'a']);
    let w1: [char; 10] = ['a', 'l', 'p', 'h', 'a', 'b', 'e', 't', 'i', 'c'];
    assert(w1@ =~= seq!['a', 'l', 'p', 'h', 'a', 'b', 'e', 't', 'i', 'c']);
    chars_eq(n, &w0) || chars_eq(n, &w1)
}

/// The normalized names of the property Bidi_Class.
pub open spec fn names_bidi_class(n: Seq<char>) -> bool {
    n == seq!['b', 'c'] || n == seq!['b', 'i', 'd', 'i', 'c', 'l', 'a', 's', 's']
}

fn is_names_bidi_class(n: &[char]) -> (r: bool)
    ensures
        r == names_bidi_class(n@),
{
    let w0: [char; 2] = ['b', 'c'];
    assert(w0@ =~= seq!['b', 'c']);
    let w1: [char; 9] = ['b', 'i', 'd', 'i', 'c', 'l', 'a', 's', 's'];
    assert(w1@ =~= seq!['b', 'i', 'd', 'i', 'c', 'l', 'a', 's', 's']);
    chars_eq(n, &w0) || chars_eq(n, &w1)
}

/// The normalized names of the property Bidi_Control.
pub open spec fn names_bidi_control(n: Seq<char>) -> bool {
    n == seq!['b', 'i', 'd', 'i', 'c'] || n == seq!['b', 'i', 'd', 'i', 'c', 'o', 'n', 't', 'r', 'o', 'l']
}

fn is_names_bidi_control(n: &[char]) -> (r: bool)
    ensures
        r == names_bidi_control(n@),
{
    let w0: [char; 5] = ['b', 'i', 'd', 'i', 'c'];
    assert(w0@ =~= seq!['b', 'i', 'd', 'i', 'c']);
    let w1: [char; 11] = ['b', 'i', 'd', 'i', 'c', 'o', 'n', 't', 'r', 'o', 'l'];
    assert(w1@ =~= seq!['b', 'i', 'd', 'i', 'c', 'o', 'n', 't', 'r', 'o', 'l']);
    chars_eq(n, &w0) || chars_eq(n, &w1)
}

/// The normalized names of the property Bidi_Mirrored.
pub open spec fn names_bidi_mirrored(n: Seq<char>) -> bool {
    n == seq!['b', 'i', 'd', 'i', 'm'] || n == seq!['b', 'i', 'd', 'i', 'm', 'i', 'r', 'r', 'o', 'r', 'e', 'd']
}

fn is_names_bidi_mirrored(n: &[char]) -> (r: bool)
    ensures
        r == names_bidi_mirrored(n@),
{
    let w0: [char; 5] = ['b', 'i', 'd', 'i', 'm'];
    assert(w0@ =~= seq!['b', 'i', 'd', 'i', 'm']);
    let w1: [char; 12] = ['b', 'i', 'd', 'i', 'm', 'i', 'r', 'r', 'o', 'r', 'e', 'd'];
    assert(w1@ =~= seq!['b', 'i', 'd', 'i', 'm', 'i', 'r', 'r', 'o', 'r', 'e', 'd']);
    chars_eq(n, &w0) || chars_eq(n, &w1)
}

/// The normalized names of the property Bidi_Mirroring_Glyph.
pub open spec fn names_bidi_mirroring_glyph(n: Seq<char>) -> bool {
    n == seq!['b', 'i', 'd', 'i', 'm', 'i', 'r', 'r', 'o', 'r', 'i', 'n', 'g', 'g', 'l', 'y', 'p', 'h'] || n == seq!['b', 'm', 'g']
}

fn is_names_bidi_mirroring_glyph(n: &[char]) -> (r: bool)
    ensures
        r == names_bidi_mirroring_glyph(n@),
{
    let w0: [char; 18] = ['b', 'i', 'd', 'i', 'm', 'i', 'r', 'r', 'o', 'r', 'i', 'n', 'g', 'g', 'l', 'y', 'p', 'h'];
    assert(w0@ =~= seq!['b', 'i', 'd', 'i', 'm', 'i', 'r', 'r', 'o', 'r', 'i', 'n', 'g', 'g', 'l', 'y', 'p', 'h']);
    let w1: [char; 3] = ['b', 'm', 'g'];
    assert(w1@ =~= seq!['b', 'm', 'g']);
    chars_eq(n, &w0) || chars_eq(n, &w1)
}

/// The normalized names of the property Bidi_Paired_Bracket.
pub open spec fn names_bidi_paired_bracket(n: Seq<char>) -> bool {
    n == seq!['b', 'i', 'd', 'i', 'p', 'a', 'i', 'r', 'e', 'd', 'b', 'r', 'a', 'c', 'k', 'e', 't'] || n == seq!['b', 'p', 'b']
}

fn is_names_bidi_paired_bracket(n: &[char]) -> (r: bool)
    ensures
        r == names_bidi_paired_bracket(n@),
{
    let w0: [char; 17] = ['b', 'i', 'd', 'i', 'p', 'a', 'i', 'r', 'e', 'd', 'b', 'r', 'a', 'c', 'k', 'e', 't'];
    assert(w0@ =~= seq!['b', 'i', 'd', 'i', 'p', 'a', 'i', 'r', 'e', 'd', 'b', 'r', 'a', 'c', 'k', 'e', 't']);
    let w1: [char; 3] = ['b', 'p', 'b'];
    assert(w1@ =~= seq!['b', 'p', 'b']);
    chars_eq(n, &w0) || chars_eq(n, &w1)
}

/// The normalized names of the property Bidi_Paired_Bracket_Type.
pub open spec fn names_bidi_paired_bracket_type(n: Seq<char>) -> bool {
    n == seq!['b', 'i', 'd', 'i', 'p', 'a', 'i', 'r', 'e', 'd', 'b', 'r', 'a', 'c', 'k', 'e', 't', 't', 'y', 'p', 'e'] || n == seq!['b', 'p', 't']
}

fn is_names_bidi_paired_bracket_type(n: &[char]) -> (r: bool)
    ensures
        r == names_bidi_paired_bracket_type(n@),
{
    let w0: [char; 21] = ['b', 'i', 'd', 'i', 'p', 'a', 'i', 'r', 'e', 'd', 'b', 'r', 'a', 'c', 'k', 'e', 't', 't', 'y', 'p', 'e'];
    assert(w0@ =~= seq!['b', 'i', 'd', 'i', 'p', 'a', 'i', 'r', 'e', 'd', 'b', 'r', 'a', 'c', 'k', 'e', 't', 't', 'y', 'p', 'e']);
    let w1: [char; 3] = ['b', 'p', 't'];
    assert(w1@ =~= seq!['b', 'p', 't']);
    chars_eq(n, &w0) || chars_eq(n, &w1)
}

/// The normalized names of the property Block.
pub open spec fn names_block(n: Seq<char>) -> bool {
    n == seq!['b', 'l', 'k'] || n == seq!['b', 'l', 'o', 'c', 'k']
}

fn is_names_block(n: &[char]) -> (r: bool)
    ensures
        r == names_block(n@),
{
    let w0: [char; 3] = ['b', 'l', 'k'];
    assert(w0@ =~= seq!['b', 'l', 'k']);
    let w1: [char; 5] = ['b', 'l', 'o', 'c', 'k'];
    assert(w1@ =~= seq!['b', 'l', 'o', 'c', 'k']);
    chars_eq(n, &w0) || chars_eq(n, &w1)
}

/// The normalized names of the property Canonical_Combining_Class.
pub open spec fn names_canonical_combining_class(n: Seq<char>) -> bool {
    n == seq!['c', 'a', 'n', 'o', 'n', 'i', 'c', 'a', 'l', 'c', 'o', 'm', 'b', 'i', 'n', 'i', 'n', 'g', 'c', 'l', 'a', 's', 's'] || n == seq!['c', 'c', 'c']
}

fn is_names_canonical_combining_class(n: &[char]) -> (r: bool)
    ensures
        r == names_canonical_combining_class(n@),
{
    let w0: [char; 23] = ['c', 'a', 'n', 'o', 'n', 'i', 'c', 'a', 'l', 'c', 'o', 'm', 'b', 'i', 'n', 'i', 'n', 'g', 'c', 'l', 'a', 's', 's'];
    assert(w0@ =~= seq!['c', 'a', 'n', 'o', 'n', 'i', 'c', 'a', 'l', 'c', 'o', 'm', 'b', 'i', 'n', 'i', 'n', 'g', 'c', 'l', 'a', 's', 's']);
    let w1: [char; 3] = ['c', 'c', 'c'];
    assert(w1@ =~= seq!['c', 'c', 'c']);
    chars_eq(n, &w0) || chars_eq(n, &w1)
}

/// The normalized names of the property Cased.
pub open spec fn names_cased(n: Seq<char>) -> bool {
    n == seq!['c', 'a', 's', 'e', 'd']
}

fn is_names_cased(n: &[char]) -> (r: bool)
    ensures
        r == names_cased(n@),
{
    let w0: [char; 5] = ['c', 'a', 's', 'e', 'd'];
    assert(w0@ =~= seq!['c', 'a', 's', 'e', 'd']);
    chars_eq(n, &w0)
}

/// The normalized names of the property Case_Folding.
pub open spec fn names_case_folding(n: Seq<char>) -> bool {
    n == seq!['c', 'a', 's', 'e', 'f', 'o', 'l', 'd', 'i', 'n', 'g'] || n == seq!['c', 'f']
}

fn is_names_case_folding(n: &[char]) -> (r: bool)
    ensures
        r == names_case_folding(n@),
{
    let w0: [char; 11] = ['c', 'a', 's', 'e', 'f', 'o', 'l', 'd', 'i', 'n', 'g'];
    assert(w0@ =~= seq!['c', 'a', 's', 'e', 'f', 'o', 'l', 'd', 'i', 'n', 'g']);
    let w1: [char; 2] = ['c', 'f'];
    assert(w1@ =~= seq!['c', 'f']);
    chars_eq(n, &w0) || chars_eq(n, &w1)
}

/// The normalized names of the property Case_Ignorable.
pub open spec fn names_case_ignorable(n: Seq<char>) -> bool {
    n == seq!['c', 'a', 's', 'e', 'i', 'g', 'n', 'o', 'r', 'a', 'b', 'l', 'e'] || n == seq!['c', 'i']
}

fn is_names_case_ignorable(n: &[char]) -> (r: bool)
    ensures
        r == names_case_ignorable(n@),
{
    let w0: [char; 13] = ['c', 'a', 's', 'e', 'i', 'g', 'n', 'o', 'r', 'a', 'b', 'l', 'e'];
    assert(w0@ =~= seq!['c', 'a', 's', 'e', 'i', 'g', 'n', 'o', 'r', 'a', 'b', 'l', 'e']);
    let w1: [char; 2] = ['c', 'i'];
    assert(w1@ =~= seq!['c', 'i']);
    chars_eq(n, &w0) || chars_eq(n, &w1)
}

/// The normalized names of the property Composition_Exclusion.
pub open spec fn names_composition_exclusion(n: Seq<char>) -> bool {
    n == seq!['c', 'e'] || n == seq!['c', 'o', 'm', 'p', 'o', 's', 'i', 't', 'i', 'o', 'n', 'e', 'x', 'c', 'l', 'u', 's', 'i', 'o', 'n']
}

fn is_names_composition_exclusion(n: &[char]) -> (r: bool)
    ensures
        r == names_composition_exclusion(n@),
{
    let w0: [char; 2] = ['c', 'e'];
    assert(w0@ =~= seq!['c', 'e']);
    let w1: [char; 20] = ['c', 'o', 'm', 'p', 'o', 's', 'i', 't', 'i', 'o', 'n', 'e', 'x', 'c', 'l', 'u', 's', 'i', 'o', 'n'];
    assert(w1@ =~= seq!['c', 'o', 'm', 'p', 'o', 's', 'i', 't', 'i', 'o', 'n', 'e', 'x', 'c', 'l', 'u', 's', 'i', 'o', 'n']);
    chars_eq(n, &w0) || chars_eq(n, &w1)
}

/// The normalized names of the property Changes_When_Casefolded.
pub open spec fn names_changes_when_casefolded(n: Seq<char>) -> bool {
    n == seq!['c', 'h', 'a', 'n', 'g', 'e', 's', 'w', 'h', 'e', 'n', 'c', 'a', 's', 'e', 'f', 'o', 'l', 'd', 'e', 'd'] || n == seq!['c', 'w', 'c', 'f']
}

fn is_names_changes_when_casefolded(n: &[char]) -> (r: bool)
    ensures
        r == names_changes_when_casefolded(n@),
{
    let w0: [char; 21] = ['c', 'h', 'a', 'n', 'g', 'e', 's', 'w', 'h', 'e', 'n', 'c', 'a', 's', 'e', 'f', 'o', 'l', 'd', 'e', 'd'];
    assert(w0@ =~= seq!['c', 'h', 'a', 'n', 'g', 'e', 's', 'w', 'h', 'e', 'n', 'c', 'a', 's', 'e', 'f', 'o', 'l', 'd', 'e', 'd']);
    let w1: [char; 4] = ['c', 'w', 'c', 'f'];
    assert(w1@ =~= seq!['c', 'w', 'c', 'f']);
    chars_eq(n, &w0) || chars_eq(n, &w1)
}

/// The normalized names of the property Changes_When_Casemapped.
pub open spec fn names_changes_when_casemapped(n: Seq<char>) -> bool {
    n == seq!['c', 'h', 'a', 'n', 'g', 'e', 's', 'w', 'h', 'e', 'n', 'c', 'a', 's', 'e', 'm', 'a', 'p', 'p', 'e', 'd'] || n == seq!['c', 'w', 'c', 'm']
}

fn is_names_changes_when_casemapped(n: &[char]) -> (r: bool)
    ensures
        r == names_changes_when_casemapped(n@),
{
    let w0: [char; 21] = ['c', 'h', 'a', 'n', 'g', 'e', 's', 'w', 'h', 'e', 'n', 'c', 'a', 's', 'e', 'm', 'a', 'p', 'p', 'e', 'd'];
    assert(w0@ =~= seq!['c', 'h', 'a', 'n', 'g', 'e', 's', 'w', 'h', 'e', 'n', 'c', 'a', 's', 'e', 'm', 'a', 'p', 'p', 'e', 'd']);
    let w1: [char; 4] = ['c', 'w', 'c', 'm'];
    assert(w1@ =~= seq!['c', 'w', 'c', 'm']);
    chars_eq(n, &w0) || chars_eq(n, &w1)
}

/// The normalized names of the property Changes_When_Lowercased.
pub open spec fn names_changes_when_lowercased(n: Seq<char>) -> bool {
    n == seq!['c', 'h', 'a', 'n', 'g', 'e', 's', 'w', 'h', 'e', 'n', 'l', 'o', 'w', 'e', 'r', 'c', 'a', 's', 'e', 'd'] || n == seq!['c', 'w', 'l']
}

fn is_names_changes_when_lowercased(n: &[char]) -> (r: bool)
    ensures
        r == names_changes_when_lowercased(n@),
{
    let w0: [char; 21] = ['c', 'h', 'a', 'n', 'g', 'e', 's', 'w', 'h', 'e', 'n', 'l', 'o', 'w', 'e', 'r', 'c', 'a', 's', 'e', 'd'];
    assert(w0@ =~= seq!['c', 'h', 'a', 'n', 'g', 'e', 's', 'w', 'h', 'e', 'n', 'l', 'o', 'w', 'e', 'r', 'c', 'a', 's', 'e', 'd']);
    let w1: [char; 3] = ['c', 'w', 'l'];
    assert(w1@ =~= seq!['c', 'w', 'l']);
    chars_eq(n, &w0) || chars_eq(n, &w1)
}

/// The normalized names of the property Changes_When_NFKC_Casefolded.
pub open spec fn names_changes_when_nfkc_casefolded(n: Seq<char>) -> bool {
    n == seq!['c', 'h', 'a', 'n', 'g', 'e', 's', 'w', 'h', 'e', 'n', 'n', 'f', 'k', 'c', 'c', 'a', 's', 'e', 'f', 'o', 'l', 'd', 'e', 'd'] || n == seq!['c', 'w', 'k', 'c', 'f']
}

fn is_names_changes_when_nfkc_casefolded(n: &[char]) -> (r: bool)
    ensures
        r == names_changes_when_nfkc_casefolded(n@),
{
    let w0: [char; 25] = ['c', 'h', 'a', 'n', 'g', 'e', 's', 'w', 'h', 'e', 'n', 'n', 'f', 'k', 'c', 'c', 'a', 's', 'e', 'f', 'o', 'l', 'd', 'e', 'd'];
    assert(w0@ =~= seq!['c', 'h', 'a', 'n', 'g', 'e', 's', 'w', 'h', 'e', 'n', 'n', 'f', 'k', 'c', 'c', 'a', 's', 'e', 'f', 'o', 'l', 'd', 'e', 'd']);
    let w1: [char; 5] = ['c', 'w', 'k', 'c', 'f'];
    assert(w1@ =~= seq!['c', 'w', 'k', 'c', 'f']);
    chars_eq(n, &w0) || chars_eq(n, &w1)
}

/// The normalized names of the property Changes_When_Titlecased.
pub open spec fn names_changes_when_titlecased(n: Seq<char>) -> bool {
    n == seq!['c', 'h', 'a', 'n', 'g', 'e', 's', 'w', 'h', 'e', 'n', 't', 'i', 't', 'l', 'e', 'c', 'a', 's', 'e', 'd'] || n == seq!['c', 'w', 't']
}

fn is_names_changes_when_titlecased(n: &[char]) -> (r: bool)
    ensures
        r == names_changes_when_titlecased(n@),
{
    let w0: [char; 21] = ['c', 'h', 'a', 'n', 'g', 'e', 's', 'w', 'h', 'e', 'n', 't', 'i', 't', 'l', 'e', 'c', 'a', 's', 'e', 'd'];
    assert(w0@ =~= seq!['c', 'h', 'a', 'n', 'g', 'e', 's', 'w', 'h', 'e', 'n', 't', 'i', 't', 'l', 'e', 'c', 'a', 's', 'e', 'd']);
    let w1: [char; 3] = ['c', 'w', 't'];
    assert(w1@ =~= seq!['c', 'w', 't']);
    chars_eq(n, &w0) || chars_eq(n, &w1)
}

/// The normalized names of the property Changes_When_Uppercased.
pub open spec fn names_changes_when_uppercased(n: Seq<char>) -> bool {
    n == seq!['c', 'h', 'a', 'n', 'g', 'e', 's', 'w', 'h', 'e', 'n', 'u', 'p', 'p', 'e', 'r', 'c', 'a', 's', 'e', 'd'] || n == seq!['c', 'w', 'u']
}

fn is_names_changes_when_uppercased(n: &[char]) -> (r: bool)
    ensures
        r == names_changes_when_uppercased(n@),
{
    let w0: [char; 21] = ['c', 'h', 'a', 'n', 'g', 'e', 's', 'w', 'h', 'e', 'n', 'u', 'p', 'p', 'e', 'r', 'c', 'a', 's', 'e', 'd'];
    assert(w0@ =~= seq!['c', 'h', 'a', 'n', 'g', 'e', 's', 'w', 'h', 'e', 'n', 'u', 'p', 'p', 'e', 'r', 'c', 'a', 's', 'e', 'd']);
    let w1: [char; 3] = ['c', 'w', 'u'];
    assert(w1@ =~= seq!['c', 'w', 'u']);
    chars_eq(n, &w0) || chars_eq(n, &w1)
}

/// The normalized names of the property kAccountingNumeric.
pub open spec fn names_kaccountingnumeric(n: Seq<char>) -> bool {
    n == seq!['c', 'j', 'k', 'a', 'c', 'c', 'o', 'u', 'n', 't', 'i', 'n', 'g', 'n', 'u', 'm', 'e', 'r', 'i', 'c'] || n == seq!['k', 'a', 'c', 'c', 'o', 'u', 'n', 't', 'i', 'n', 'g', 'n', 'u', 'm', 'e', 'r', 'i', 'c']
}

fn is_names_kaccountingnumeric(n: &[char]) -> (r: bool)
    ensures
        r == names_kaccountingnumeric(n@),
{
    let w0: [char; 20] = ['c', 'j', 'k', 'a', 'c', 'c', 'o', 'u', 'n', 't', 'i', 'n', 'g', 'n', 'u', 'm', 'e', 'r', 'i', 'c'];
    assert(w0@ =~= seq!['c', 'j', 'k', 'a', 'c', 'c', 'o', 'u', 'n', 't', 'i', 'n', 'g', 'n', 'u', 'm', 'e', 'r', 'i', 'c']);
    let w1: [char; 18] = ['k', 'a', 'c', 'c', 'o', 'u', 'n', 't', 'i', 'n', 'g', 'n', 'u', 'm', 'e', 'r', 'i', 'c'];
    assert(w1@ =~= seq!['k', 'a', 'c', 'c', 'o', 'u', 'n', 't', 'i', 'n', 'g', 'n', 'u', 'm', 'e', 'r', 'i', 'c']);
    chars_eq(n, &w0) || chars_eq(n, &w1)
}

/// The normalized names of the property kCompatibilityVariant.
pub open spec fn names_kcompatibilityvariant(n: Seq<char>) -> bool {
    n == seq!['c', 'j', 'k', 'c', 'o', 'm', 'p', 'a', 't', 'i', 'b', 'i', 'l', 'i', 't', 'y', 'v', 'a', 'r', 'i', 'a', 'n', 't'] || n == seq!['k', 'c', 'o', 'm', 'p', 'a', 't', 'i', 'b', 'i', 'l', 'i', 't', 'y', 'v', 'a', 'r', 'i', 'a', 'n', 't']
}

fn is_names_kcompatibilityvariant(n: &[char]) -> (r: bool)
    ensures
        r == names_kcompatibilityvariant(n@),
{
    let w0: [char; 23] = ['c', 'j', 'k', 'c', 'o', 'm', 'p', 'a', 't', 'i', 'b', 'i', 'l', 'i', 't', 'y', 'v', 'a', 'r', 'i', 'a', 'n', 't'];
    assert(w0@ =~= seq!['c', 'j', 'k', 'c', 'o', 'm', 'p', 'a', 't', 'i', 'b', 'i', 'l', 'i', 't', 'y', 'v', 'a', 'r', 'i', 'a', 'n', 't']);
    let w1: [char; 21] = ['k', 'c', 'o', 'm', 'p', 'a', 't', 'i', 'b', 'i', 'l', 'i', 't', 'y', 'v', 'a', 'r', 'i', 'a', 'n', 't'];
    assert(w1@ =~= seq!['k', 'c', 'o', 'm', 'p', 'a', 't', 'i', 'b', 'i', 'l', 'i', 't', 'y', 'v', 'a', 'r', 'i', 'a', 'n', 't']);
    chars_eq(n, &w0) || chars_eq(n, &w1)
}

/// The normalized names of the property kIICore.
pub open spec fn names_kiicore(n: Seq<char>) -> bool {
    n == seq!['c', 'j', 'k', 'i', 'i', 'c', 'o', 'r', 'e'] || n == seq!['k', 'i', 'i', 'c', 'o', 'r', 'e']
}

fn is_names_kiicore(n: &[char]) -> (r: bool)
    ensures
        r == names_kiicore(n@),
{
    let w0: [char; 9] = ['c', 'j', 'k', 'i', 'i', 'c', 'o', 'r', 'e'];
    assert(w0@ =~= seq!['c', 'j', 'k', 'i', 'i', 'c', 'o', 'r', 'e']);
    let w1: [char; 7] = ['k', 'i', 'i', 'c', 'o', 'r', 'e'];
    assert(w1@ =~= seq!['k', 'i', 'i', 'c', 'o', 'r', 'e']);
    chars_eq(n, &w0) || chars_eq(n, &w1)
}

/// The normalized names of the property kIRG_GSource.
pub open spec fn names_kirg_gsource(n: Seq<char>) -> bool {
    n == seq!['c', 'j', 'k', 'i', 'r', 'g', 'g', 's', 'o', 'u', 'r', 'c', 'e'] || n == seq!['k', 'i', 'r', 'g', 'g', 's', 'o', 'u', 'r', 'c', 'e']
}

fn is_names_kirg_gsource(n: &[char]) -> (r: bool)
    ensures
        r == names_kirg_gsource(n@),
{
    let w0: [char; 13] = ['c', 'j', 'k', 'i', 'r', 'g', 'g', 's', 'o', 'u', 'r', 'c', 'e'];
    assert(w0@ =~= seq!['c', 'j', 'k', 'i', 'r', 'g', 'g', 's', 'o', 'u', 'r', 'c', 'e']);
    let w1: [char; 11] = ['k', 'i', 'r', 'g', 'g', 's', 'o', 'u', 'r', 'c', 'e'];
    assert(w1@ =~= seq!['k', 'i', 'r', 'g', 'g', 's', 'o', 'u', 'r', 'c', 'e']);
    chars_eq(n, &w0) || chars_eq(n, &w1)
}

/// The normalized names of the property kIRG_HSource.
pub open spec fn names_kirg_hsource(n: Seq<char>) -> bool {
    n == seq!['c', 'j', 'k', 'i', 'r', 'g', 'h', 's', 'o', 'u', 'r', 'c', 'e'] || n == seq!['k', 'i', 'r', 'g', 'h', 's', 'o', 'u', 'r', 'c', 'e']
}

fn is_names_kirg_hsource(n: &[char]) -> (r: bool)
    ensures
        r == names_kirg_hsource(n@),
{
    let w0: [char; 13] = ['c', 'j', 'k', 'i', 'r', 'g', 'h', 's', 'o', 'u', 'r', 'c', 'e'];
    assert(w0@ =~= seq!['c', 'j', 'k', 'i', 'r', 'g', 'h', 's', 'o', 'u', 'r', 'c', 'e']);
    let w1: [char; 11] = ['k', 'i', 'r', 'g', 'h', 's', 'o', 'u', 'r', 'c', 'e'];
    assert(w1@ =~= seq!['k', 'i', 'r', 'g', 'h', 's', 'o', 'u', 'r', 'c', 'e']);
    chars_eq(n, &w0) || chars_eq(n, &w1)
}

/// The normalized names of the property kIRG_JSource.
pub open spec fn names_kirg_jsource(n: Seq<char>) -> bool {
    n == seq!['c', 'j', 'k', 'i', 'r', 'g', 'j', 's', 'o', 'u', 'r', 'c', 'e'] || n == seq!['k', 'i', 'r', 'g', 'j', 's', 'o', 'u', 'r', 'c', 'e']
}

fn is_names_kirg_jsource(n: &[char]) -> (r: bool)
    ensures
        r == names_kirg_jsource(n@),
{
    let w0: [char; 13] = ['c', 'j', 'k', 'i', 'r', 'g', 'j', 's', 'o', 'u', 'r', 'c', 'e'];
    assert(w0@ =~= seq!['c', 'j', 'k', 'i', 'r', 'g', 'j', 's', 'o', 'u', 'r', 'c', 'e']);
    let w1: [char; 11] = ['k', 'i', 'r', 'g', 'j', 's', 'o', 'u', 'r', 'c', 'e'];
    assert(w1@ =~= seq!['k', 'i', 'r', 'g', 'j', 's', 'o', 'u', 'r', 'c', 'e']);
    chars_eq(n, &w0) || chars_eq(n, &w1)
}

/// The normalized names of the property kIRG_KPSource.
pub open spec fn names_kirg_kpsource(n: Seq<char>) -> bool {
    n == seq!['c', 'j', 'k', 'i', 'r', 'g', 'k', 'p', 's', 'o', 'u', 'r', 'c', 'e'] || n == seq!['k', 'i', 'r', 'g', 'k', 'p', 's', 'o', 'u', 'r', 'c', 'e']
}

fn is_names_kirg_kpsource(n: &[char]) -> (r: bool)
    ensures
        r == names_kirg_kpsource(n@),
{
    let w0: [char; 14] = ['c', 'j', 'k', 'i', 'r', 'g', 'k', 'p', 's', 'o', 'u', 'r', 'c', 'e'];
    assert(w0@ =~= seq!['c', 'j', 'k', 'i', 'r', 'g', 'k', 'p', 's', 'o', 'u', 'r', 'c', 'e']);
    let w1: [char; 12] = ['k', 'i', 'r', 'g', 'k', 'p', 's', 'o', 'u', 'r', 'c', 'e'];
    assert(w1@ =~= seq!['k', 'i', 'r', 'g', 'k', 'p', 's', 'o', 'u', 'r', 'c', 'e']);
    chars_eq(n, &w0) || chars_eq(n, &w1)
}

/// The normalized names of the property kIRG_KSource.
pub open spec fn names_kirg_ksource(n: Seq<char>) -> bool {
    n == seq!['c', 'j', 'k', 'i', 'r', 'g', 'k', 's', 'o', 'u', 'r', 'c', 'e'] || n == seq!['k', 'i', 'r', 'g', 'k', 's', 'o', 'u', 'r', 'c', 'e']
}

fn is_names_kirg_ksource(n: &[char]) -> (r: bool)
    ensures
        r == names_kirg_ksource(n@),
{
    let w0: [char; 13] = ['c', 'j', 'k', 'i', 'r', 'g', 'k', 's', 'o', 'u', 'r', 'c', 'e'];
    assert(w0@ =~= seq!['c', 'j', 'k', 'i', 'r', 'g', 'k', 's', 'o', 'u', 'r', 'c', 'e']);
    let w1: [char; 11] = ['k', 'i', 'r', 'g', 'k', 's', 'o', 'u', 'r', 'c', 'e'];
    assert(w1@ =~= seq!['k', 'i', 'r', 'g', 'k', 's', 'o', 'u', 'r', 'c', 'e']);
    chars_eq(n, &w0) || chars_eq(n, &w1)
}

/// The normalized names of the property kIRG_MSource.
pub open spec fn names_kirg_msource(n: Seq<char>) -> bool {
    n == seq!['c', 'j', 'k', 'i', 'r', 'g', 'm', 's', 'o', 'u', 'r', 'c', 'e'] || n == seq!['k', 'i', 'r', 'g', 'm', 's', 'o', 'u', 'r', 'c', 'e']
}

fn is_names_kirg_msource(n: &[char]) -> (r: bool)
    ensures
        r == names_kirg_msource(n@),
{
    let w0: [char; 13] = ['c', 'j', 'k', 'i', 'r', 'g', 'm', 's', 'o', 'u', 'r', 'c', 'e'];
    assert(w0@ =~= seq!['c', 'j', 'k', 'i', 'r', 'g', 'm', 's', 'o', 'u', 'r', 'c', 'e']);
    let w1: [char; 11] = ['k', 'i', 'r', 'g', 'm', 's', 'o', 'u', 'r', 'c', 'e'];
    assert(w1@ =~= seq!['k', 'i', 'r', 'g', 'm', 's', 'o', 'u', 'r', 'c', 'e']);
    chars_eq(n, &w0) || chars_eq(n, &w1)
}

/// The normalized names of the property kIRG_SSource.
pub open spec fn names_kirg_ssource(n: Seq<char>) -> bool {
    n == seq!['c', 'j', 'k', 'i', 'r', 'g', 's', 's', 'o', 'u', 'r', 'c', 'e'] || n == seq!['k', 'i', 'r', 'g', 's', 's', 'o', 'u', 'r', 'c', 'e']
}

fn is_names_kirg_ssource(n: &[char]) -> (r: bool)
    ensures
        r == names_kirg_ssource(n@),
{
    let w0: [char; 13] = ['c', 'j', 'k', 'i', 'r', 'g', 's', 's', 'o', 'u', 'r', 'c', 'e'];
    assert(w0@ =~= seq!['c', 'j', 'k', 'i', 'r', 'g', 's', 's', 'o', 'u', 'r', 'c', 'e']);
    let w1: [char; 11] = ['k', 'i', 'r', 'g', 's', 's', 'o', 'u', 'r', 'c', 'e'];
    assert(w1@ =~= seq!['k', 'i', 'r', 'g', 's', 's', 'o', 'u', 'r', 'c', 'e']);
    chars_eq(n, &w0) || chars_eq(n, &w1)
}

/// The normalized names of the property kIRG_TSource.
pub open spec fn names_kirg_tsource(n: Seq<char>) -> bool {
    n == seq!['c', 'j', 'k', 'i', 'r', 'g', 't', 's', 'o', 'u', 'r', 'c', 'e'] || n == seq!['k', 'i', 'r', 'g', 't', 's', 'o', 'u', 'r', 'c', 'e']
}

fn is_names_kirg_tsource(n: &[char]) -> (r: bool)
    ensures
        r == names_kirg_tsource(n@),
{
    let w0: [char; 13] = ['c', 'j', 'k', 'i', 'r', 'g', 't', 's', 'o', 'u', 'r', 'c', 'e'];
    assert(w0@ =~= seq!['c', 'j', 'k', 'i', 'r', 'g', 't', 's', 'o', 'u', 'r', 'c', 'e']);
    let w1: [char; 11] = ['k', 'i', 'r', 'g', 't', 's', 'o', 'u', 'r', 'c', 'e'];
    assert(w1@ =~= seq!['k', 'i', 'r', 'g', 't', 's', 'o', 'u', 'r', 'c', 'e']);
    chars_eq(n, &w0) || chars_eq(n, &w1)
}

/// The normalized names of the property kIRG_UKSource.
pub open spec fn names_kirg_uksource(n: Seq<char>) -> bool {
    n == seq!['c', 'j', 'k', 'i', 'r', 'g', 'u', 'k', 's', 'o', 'u', 'r', 'c', 'e'] || n == seq!['k', 'i', 'r', 'g', 'u', 'k', 's', 'o', 'u', 'r', 'c', 'e']
}

fn is_names_kirg_uksource(n: &[char]) -> (r: bool)
    ensures
        r == names_kirg_uksource(n@),
{
    let w0: [char; 14] = ['c', 'j', 'k', 'i', 'r', 'g', 'u', 'k', 's', 'o', 'u', 'r', 'c', 'e'];
    assert(w0@ =~= seq!['c', 'j', 'k', 'i', 'r', 'g', 'u', 'k', 's', 'o', 'u', 'r', 'c', 'e']);
    let w1: [char; 12] = ['k', 'i', 'r', 'g', 'u', 'k', 's', 'o', 'u', 'r', 'c', 'e'];
    assert(w1@ =~= seq!['k', 'i', 'r', 'g', 'u', 'k', 's', 'o', 'u', 'r', 'c', 'e']);
    chars_eq(n, &w0) || chars_eq(n, &w1)
}

/// The normalized names of the property kIRG_USource.
pub open spec fn names_kirg_usource(n: Seq<char>) -> bool {
    n == seq!['c', 'j', 'k', 'i', 'r', 'g', 'u', 's', 'o', 'u', 'r', 'c', 'e'] || n == seq!['k', 'i', 'r', 'g', 'u', 's', 'o', 'u', 'r', 'c', 'e']
}

fn is_names_kirg_usource(n: &[char]) -> (r: bool)
    ensures
        r == names_kirg_usource(n@),
{
    let w0: [char; 13] = ['c', 'j', 'k', 'i', 'r', 'g', 'u', 's', 'o', 'u', 'r', 'c', 'e'];
    assert(w0@ =~= seq!['c', 'j', 'k', 'i', 'r', 'g', 'u', 's', 'o', 'u', 'r', 'c', 'e']);
    let w1: [char; 11] = ['k', 'i', 'r', 'g', 'u', 's', 'o', 'u', 'r', 'c', 'e'];
    assert(w1@ =~= seq!['k', 'i', 'r', 'g', 'u', 's', 'o', 'u', 'r', 'c', 'e']);
    chars_eq(n, &w0) || chars_eq(n, &w1)
}

/// The normalized names of the property kIRG_VSource.
pub open spec fn names_kirg_vsource(n: Seq<char>) -> bool {
    n == seq!['c', 'j', 'k', 'i', 'r', 'g', 'v', 's', 'o', 'u', 'r', 'c', 'e'] || n == seq!['k', 'i', 'r', 'g', 'v', 's', 'o', 'u', 'r', 'c', 'e']
}

fn is_names_kirg_vsource(n: &[char]) -> (r: bool)
    ensures
        r == names_kirg_vsource(n@),
{
    let w0: [char; 13] = ['c', 'j', 'k', 'i', 'r', 'g', 'v', 's', 'o', 'u', 'r', 'c', 'e'];
    assert(w0@ =~= seq!['c', 'j', 'k', 'i', 'r', 'g', 'v', 's', 'o', 'u', 'r', 'c', 'e']);
    let w1: [char; 11] = ['k', 'i', 'r', 'g', 'v', 's', 'o', 'u', 'r', 'c', 'e'];
    assert(w1@ =~= seq!['k', 'i', 'r', 'g', 'v', 's', 'o', 'u', 'r', 'c', 'e']);
    chars_eq(n, &w0) || chars_eq(n, &w1)
}

/// The normalized names of the property kOtherNumeric.
pub open spec fn names_kothernumeric(n: Seq<char>) -> bool {
    n == seq!['c', 'j', 'k', 'o', 't', 'h', 'e', 'r', 'n', 'u', 'm', 'e', 'r', 'i', 'c'] || n == seq!['k', 'o', 't', 'h', 'e', 'r', 'n', 'u', 'm', 'e', 'r', 'i', 'c']
}

fn is_names_kothernumeric(n: &[char]) -> (r: bool)
    ensures
        r == names_kothernumeric(n@),
{
    let w0: [char; 15] = ['c', 'j', 'k', 'o', 't', 'h', 'e', 'r', 'n', 'u', 'm', 'e', 'r', 'i', 'c'];
    assert(w0@ =~= seq!['c', 'j', 'k', 'o', 't', 'h', 'e', 'r', 'n', 'u', 'm', 'e', 'r', 'i', 'c']);
    let w1: [char; 13] = ['k', 'o', 't', 'h', 'e', 'r', 'n', 'u', 'm', 'e', 'r', 'i', 'c'];
    assert(w1@ =~= seq!['k', 'o', 't', 'h', 'e', 'r', 'n', 'u', 'm', 'e', 'r', 'i', 'c']);
    chars_eq(n, &w0) || chars_eq(n, &w1)
}

/// The normalized names of the property kPrimaryNumeric.
pub open spec fn names_kprimarynumeric(n: Seq<char>) -> bool {
    n == seq!['c', 'j', 'k', 'p', 'r', 'i', 'm', 'a', 'r', 'y', 'n', 'u', 'm', 'e', 'r', 'i', 'c'] || n == seq!['k', 'p', 'r', 'i', 'm', 'a', 'r', 'y', 'n', 'u', 'm', 'e', 'r', 'i', 'c']
}

fn is_names_kprimarynumeric(n: &[char]) -> (r: bool)
    ensures
        r == names_kprimarynumeric(n@),
{
    let w0: [char; 17] = ['c', 'j', 'k', 'p', 'r', 'i', 'm', 'a', 'r', 'y', 'n', 'u', 'm', 'e', 'r', 'i', 'c'];
    assert(w0@ =~= seq!['c', 'j', 'k', 'p', 'r', 'i', 'm', 'a', 'r', 'y', 'n', 'u', 'm', 'e', 'r', 'i', 'c']);
    let w1: [char; 15] = ['k', 'p', 'r', 'i', 'm', 'a', 'r', 'y', 'n', 'u', 'm', 'e', 'r', 'i', 'c'];
    assert(w1@ =~= seq!['k', 'p', 'r', 'i', 'm', 'a', 'r', 'y', 'n', 'u', 'm', 'e', 'r', 'i', 'c']);
    chars_eq(n, &w0) || chars_eq(n, &w1)
}

/// The normalized names of the property kRSUnicode.
pub open spec fn names_krsunicode(n: Seq<char>) -> bool {
    n == seq!['c', 'j', 'k', 'r', 's', 'u', 'n', 'i', 'c', 'o', 'd', 'e'] || n == seq!['k', 'r', 's', 'u', 'n', 'i', 'c', 'o', 'd', 'e'] || n == seq!['u', 'n', 'i', 'c', 'o', 'd', 'e', 'r', 'a', 'd', 'i', 'c', 'a', 'l', 's', 't', 'r', 'o', 'k', 'e'] || n == seq!['u', 'r', 's']
}

fn is_names_krsunicode(n: &[char]) -> (r: bool)
    ensures
        r == names_krsunicode(n@),
{
    let w0: [char; 12] = ['c', 'j', 'k', 'r', 's', 'u', 'n', 'i', 'c', 'o', 'd', 'e'];
    assert(w0@ =~= seq!['c', 'j', 'k', 'r', 's', 'u', 'n', 'i', 'c', 'o', 'd', 'e']);
    let w1: [char; 10] = ['k', 'r', 's', 'u', 'n', 'i', 'c', 'o', 'd', 'e'];
    assert(w1@ =~= seq!['k', 'r', 's', 'u', 'n', 'i', 'c', 'o', 'd', 'e']);
    let w2: [char; 20] = ['u', 'n', 'i', 'c', 'o', 'd', 'e', 'r', 'a', 'd', 'i', 'c', 'a', 'l', 's', 't', 'r', 'o', 'k', 'e'];
    assert(w2@ =~= seq!['u', 'n', 'i', 'c', 'o', 'd', 'e', 'r', 'a', 'd', 'i', 'c', 'a', 'l', 's', 't', 'r', 'o', 'k', 'e']);
    let w3: [char; 3] = ['u', 'r', 's'];
    assert(w3@ =~= seq!['u', 'r', 's']);
    chars_eq(n, &w0) || chars_eq(n, &w1) || chars_eq(n, &w2) || chars_eq(n, &w3)
}

/// The normalized names of the property Full_Composition_Exclusion.
pub open spec fn names_full_composition_exclusion(n: Seq<char>) -> bool {
    n == seq!['c', 'o', 'm', 'p', 'e', 'x'] || n == seq!['f', 'u', 'l', 'l', 'c', 'o', 'm', 'p', 'o', 's', 'i', 't', 'i', 'o', 'n', 'e', 'x', 'c', 'l', 'u', 's', 'i', 'o', 'n']
}

fn is_names_full_composition_exclusion(n: &[char]) -> (r: bool)
    ensures
        r == names_full_composition_exclusion(n@),
{
    let w0: [char; 6] = ['c', 'o', 'm', 'p', 'e', 'x'];
    assert(w0@ =~= seq!['c', 'o', 'm', 'p', 'e', 'x']);
    let w1: [char; 24] = ['f', 'u', 'l', 'l', 'c', 'o', 'm', 'p', 'o', 's', 'i', 't', 'i', 'o', 'n', 'e', 'x', 'c', 'l', 'u', 's', 'i', 'o', 'n'];
    assert(w1@ =~= seq!['f', 'u', 'l', 'l', 'c', 'o', 'm', 'p', 'o', 's', 'i', 't', 'i', 'o', 'n', 'e', 'x', 'c', 'l', 'u', 's', 'i', 'o', 'n']);
    chars_eq(n, &w0) || chars_eq(n, &w1)
}

/// The normalized names of the property Dash.
pub open spec fn names_dash(n: Seq<char>) -> bool {
    n == seq!['d', 'a', 's', 'h']
}

fn is_names_dash(n: &[char]) -> (r: bool)
    ensures
        r == names_dash(n@),
{
    let w0: [char; 4] = ['d', 'a', 's', 'h'];
    assert(w0@ =~= seq!['d', 'a', 's', 'h']);
    chars_eq(n, &w0)
}

/// The normalized names of the property Decomposition_Mapping.
pub open spec fn names_decomposition_mapping(n: Seq<char>) -> bool {
    n == seq!['d', 'e', 'c', 'o', 'm', 'p', 'o', 's', 'i', 't', 'i', 'o', 'n', 'm', 'a', 'p', 'p', 'i', 'n', 'g'] || n == seq!['d', 'm']
}

fn is_names_decomposition_mapping(n: &[char]) -> (r: bool)
    ensures
        r == names_decomposition_mapping(n@),
{
    let w0: [char; 20] = ['d', 'e', 'c', 'o', 'm', 'p', 'o', 's', 'i', 't', 'i', 'o', 'n', 'm', 'a', 'p', 'p', 'i', 'n', 'g'];
    assert(w0@ =~= seq!['d', 'e', 'c', 'o', 'm', 'p', 'o', 's', 'i', 't', 'i', 'o', 'n', 'm', 'a', 'p', 'p', 'i', 'n', 'g']);
    let w1: [char; 2] = ['d', 'm'];
    assert(w1@ =~= seq!['d', 'm']);
    chars_eq(n, &w0) || chars_eq(n, &w1)
}

/// The normalized names of the property Decomposition_Type.
pub open spec fn names_decomposition_type(n: Seq<char>) -> bool {
    n == seq!['d', 'e', 'c', 'o', 'm', 'p', 'o', 's', 'i', 't', 'i', 'o', 'n', 't', 'y', 'p', 'e'] || n == seq!['d', 't']
}

fn is_names_decomposition_type(n: &[char]) -> (r: bool)
    ensures
        r == names_decomposition_type(n@),
{
    let w0: [char; 17] = ['d', 'e', 'c', 'o', 'm', 'p', 'o', 's', 'i', 't', 'i', 'o', 'n', 't', 'y', 'p', 'e'];
    assert(w0@ =~= seq!['d', 'e', 'c', 'o', 'm', 'p', 'o', 's', 'i', 't', 'i', 'o', 'n', 't', 'y', 'p', 'e']);
    let w1: [char; 2] = ['d', 't'];
    assert(w1@ =~= seq!['d', 't']);
    chars_eq(n, &w0) || chars_eq(n, &w1)
}

/// The normalized names of the property Default_Ignorable_Code_Point.
pub open spec fn names_default_ignorable_code_point(n: Seq<char>) -> bool {
    n == seq!['d', 'e', 'f', 'a', 'u', 'l', 't', 'i', 'g', 'n', 'o', 'r', 'a', 'b', 'l', 'e', 'c', 'o', 'd', 'e', 'p', 'o', 'i', 'n', 't'] || n == seq!['d', 'i']
}

fn is_names_default_ignorable_code_point(n: &[char]) -> (r: bool)
    ensures
        r == names_default_ignorable_code_point(n@),
{
    let w0: [char; 25] = ['d', 'e', 'f', 'a', 'u', 'l', 't', 'i', 'g', 'n', 'o', 'r', 'a', 'b', 'l', 'e', 'c', 'o', 'd', 'e', 'p', 'o', 'i', 'n', 't'];
    assert(w0@ =~= seq!['d', 'e', 'f', 'a', 'u', 'l', 't', 'i', 'g', 'n', 'o', 'r', 'a', 'b', 'l', 'e', 'c', 'o', 'd', 'e', 'p', 'o', 'i', 'n', 't']);
    let w1: [char; 2] = ['d', 'i'];
    assert(w1@ =~= seq!['d', 'i']);
    chars_eq(n, &w0) || chars_eq(n, &w1)
}

/// The normalized names of the property Deprecated.
pub open spec fn names_deprecated(n: Seq<char>) -> bool {
    n == seq!['d', 'e', 'p'] || n == seq!['d', 'e', 'p', 'r', 'e', 'c', 'a', 't', 'e', 'd']
}

fn is_names_deprecated(n: &[char]) -> (r: bool)
    ensures
        r == names_deprecated(n@),
{
    let w0: [char; 3] = ['d', 'e', 'p'];
    assert(w0@ =~= seq!['d', 'e', 'p']);
    let w1: [char; 10] = ['d', 'e', 'p', 'r', 'e', 'c', 'a', 't', 'e', 'd'];
    assert(w1@ =~= seq!['d', 'e', 'p', 'r', 'e', 'c', 'a', 't', 'e', 'd']);
    chars_eq(n, &w0) || chars_eq(n, &w1)
}

/// The normalized names of the property Diacritic.
pub open spec fn names_diacritic(n: Seq<char>) -> bool {
    n == seq!['d', 'i', 'a'] || n == seq!['d', 'i', 'a', 'c', 'r', 'i', 't', 'i', 'c']
}

fn is_names_diacritic(n: &[char]) -> (r: bool)
    ensures
        r == names_diacritic(n@),
{
    let w0: [char; 3] = ['d', 'i', 'a'];
    assert(w0@ =~= seq!['d', 'i', 'a']);
    let w1: [char; 9] = ['d', 'i', 'a', 'c', 'r', 'i', 't', 'i', 'c'];
    assert(w1@ =~= seq!['d', 'i', 'a', 'c', 'r', 'i', 't', 'i', 'c']);
    chars_eq(n, &w0) || chars_eq(n, &w1)
}

/// The normalized names of the property East_Asian_Width.
pub open spec fn names_east_asian_width(n: Seq<char>) -> bool {
    n == seq!['e', 'a'] || n == seq!['e', 'a', 's', 't', 'a', 's', 'i', 'a', 'n', 'w', 'i', 'd', 't', 'h']
}

fn is_names_east_asian_width(n: &[char]) -> (r: bool)
    ensures
        r == names_east_asian_width(n@),
{
    let w0: [char; 2] = ['e', 'a'];
    assert(w0@ =~= seq!['e', 'a']);
    let w1: [char; 14] = ['e', 'a', 's', 't', 'a', 's', 'i', 'a', 'n', 'w', 'i', 'd', 't', 'h'];
    assert(w1@ =~= seq!['e', 'a', 's', 't', 'a', 's', 'i', 'a', 'n', 'w', 'i', 'd', 't', 'h']);
    chars_eq(n, &w0) || chars_eq(n, &w1)
}

/// The normalized names of the property Emoji_Modifier_Base.
pub open spec fn names_emoji_modifier_base(n: Seq<char>) -> bool {
    n == seq!['e', 'b', 'a', 's', 'e'] || n == seq!['e', 'm', 'o', 'j', 'i', 'm', 'o', 'd', 'i', 'f', 'i', 'e', 'r', 'b', 'a', 's', 'e']
}

fn is_names_emoji_modifier_base(n: &[char]) -> (r: bool)
    ensures
        r == names_emoji_modifier_base(n@),
{
    let w0: [char; 5] = ['e', 'b', 'a', 's', 'e'];
    assert(w0@ =~= seq!['e', 'b', 'a', 's', 'e']);
    let w1: [char; 17] = ['e', 'm', 'o', 'j', 'i', 'm', 'o', 'd', 'i', 'f', 'i', 'e', 'r', 'b', 'a', 's', 'e'];
    assert(w1@ =~= seq!['e', 'm', 'o', 'j', 'i', 'm', 'o', 'd', 'i', 'f', 'i', 'e', 'r', 'b', 'a', 's', 'e']);
    chars_eq(n, &w0) || chars_eq(n, &w1)
}

/// The normalized names of the property Emoji_Component.
pub open spec fn names_emoji_component(n: Seq<char>) -> bool {
    n == seq!['e', 'c', 'o', 'm', 'p'] || n == seq!['e', 'm', 'o', 'j', 'i', 'c', 'o', 'm', 'p', 'o', 'n', 'e', 'n', 't']
}

fn is_names_emoji_component(n: &[char]) -> (r: bool)
    ensures
        r == names_emoji_component(n@),
{
    let w0: [char; 5] = ['e', 'c', 'o', 'm', 'p'];
    assert(w0@ =~= seq!['e', 'c', 'o', 'm', 'p']);
    let w1: [char; 14] = ['e', 'm', 'o', 'j', 'i', 'c', 'o', 'm', 'p', 'o', 'n', 'e', 'n', 't'];
    assert(w1@ =~= seq!['e', 'm', 'o', 'j', 'i', 'c', 'o', 'm', 'p', 'o', 'n', 'e', 'n', 't']);
    chars_eq(n, &w0) || chars_eq(n, &w1)
}

/// The normalized names of the property Emoji_Modifier.
pub open spec fn names_emoji_modifier(n: Seq<char>) -> bool {
    n == seq!['e', 'm', 'o', 'd'] || n == seq!['e', 'm', 'o', 'j', 'i', 'm', 'o', 'd', 'i', 'f', 'i', 'e', 'r']
}

fn is_names_emoji_modifier(n: &[char]) -> (r: bool)
    ensures
        r == names_emoji_modifier(n@),
{
    let w0: [char; 4] = ['e', 'm', 'o', 'd'];
    assert(w0@ =~= seq!['e', 'm', 'o', 'd']);
    let w1: [char; 13] = ['e', 'm', 'o', 'j', 'i', 'm', 'o', 'd', 'i', 'f', 'i', 'e', 'r'];
    assert(w1@ =~= seq!['e', 'm', 'o', 'j', 'i', 'm', 'o', 'd', 'i', 'f', 'i', 'e', 'r']);
    chars_eq(n, &w0) || chars_eq(n, &w1)
}

/// The normalized names of the property Emoji.
pub open spec fn names_emoji(n: Seq<char>) -> bool {
    n == seq!['e', 'm', 'o', 'j', 'i']
}

fn is_names_emoji(n: &[char]) -> (r: bool)
    ensures
        r == names_emoji(n@),
{
    let w0: [char; 5] = ['e', 'm', 'o', 'j', 'i'];
    assert(w0@ =~= seq!['e', 'm', 'o', 'j', 'i']);
    chars_eq(n, &w0)
}

/// The normalized names of the property Emoji_Presentation.
pub open spec fn names_emoji_presentation(n: Seq<char>) -> bool {
    n == seq!['e', 'm', 'o', 'j', 'i', 'p', 'r', 'e', 's', 'e', 'n', 't', 'a', 't', 'i', 'o', 'n'] || n == seq!['e', 'p', 'r', 'e', 's']
}

fn is_names_emoji_presentation(n: &[char]) -> (r: bool)
    ensures
        r == names_emoji_presentation(n@),
{
    let w0: [char; 17] = ['e', 'm', 'o', 'j', 'i', 'p', 'r', 'e', 's', 'e', 'n', 't', 'a', 't', 'i', 'o', 'n'];
    assert(w0@ =~= seq!['e', 'm', 'o', 'j', 'i', 'p', 'r', 'e', 's', 'e', 'n', 't', 'a', 't', 'i', 'o', 'n']);
    let w1: [char; 5] = ['e', 'p', 'r', 'e', 's'];
    assert(w1@ =~= seq!['e', 'p', 'r', 'e', 's']);
    chars_eq(n, &w0) || chars_eq(n, &w1)
}

/// The normalized names of the property Equivalent_Unified_Ideograph.
pub open spec fn names_equivalent_unified_ideograph(n: Seq<char>) -> bool {
    n == seq!['e', 'q', 'u', 'i', 'd', 'e', 'o'] || n == seq!['e', 'q', 'u', 'i', 'v', 'a', 'l', 'e', 'n', 't', 'u', 'n', 'i', 'f', 'i', 'e', 'd', 'i', 'd', 'e', 'o', 'g', 'r', 'a', 'p', 'h']
}

fn is_names_equivalent_unified_ideograph(n: &[char]) -> (r: bool)
    ensures
        r == names_equivalent_unified_ideograph(n@),
{
    let w0: [char; 7] = ['e', 'q', 'u', 'i', 'd', 'e', 'o'];
    assert(w0@ =~= seq!['e', 'q', 'u', 'i', 'd', 'e', 'o']);
    let w1: [char; 26] = ['e', 'q', 'u', 'i', 'v', 'a', 'l', 'e', 'n', 't', 'u', 'n', 'i', 'f', 'i', 'e', 'd', 'i', 'd', 'e', 'o', 'g', 'r', 'a', 'p', 'h'];
    assert(w1@ =~= seq!['e', 'q', 'u', 'i', 'v', 'a', 'l', 'e', 'n', 't', 'u', 'n', 'i', 'f', 'i', 'e', 'd', 'i', 'd', 'e', 'o', 'g', 'r', 'a', 'p', 'h']);
    chars_eq(n, &w0) || chars_eq(n, &w1)
}

/// The normalized names of the property Expands_On_NFC.
pub open spec fn names_expands_on_nfc(n: Seq<char>) -> bool {
    n == seq!['e', 'x', 'p', 'a', 'n', 'd', 's', 'o', 'n', 'n', 'f', 'c'] || n == seq!['x', 'o', 'n', 'f', 'c']
}

fn is_names_expands_on_nfc(n: &[char]) -> (r: bool)
    ensures
        r == names_expands_on_nfc(n@),
{
    let w0: [char; 12] = ['e', 'x', 'p', 'a', 'n', 'd', 's', 'o', 'n', 'n', 'f', 'c'];
    assert(w0@ =~= seq!['e', 'x', 'p', 'a', 'n', 'd', 's', 'o', 'n', 'n', 'f', 'c']);
    let w1: [char; 5] = ['x', 'o', 'n', 'f', 'c'];
    assert(w1@ =~= seq!['x', 'o', 'n', 'f', 'c']);
    chars_eq(n, &w0) || chars_eq(n, &w1)
}

/// The normalized names of the property Expands_On_NFD.
pub open spec fn names_expands_on_nfd(n: Seq<char>) -> bool {
    n == seq!['e', 'x', 'p', 'a', 'n', 'd', 's', 'o', 'n', 'n', 'f', 'd'] || n == seq!['x', 'o', 'n', 'f', 'd']
}

fn is_names_expands_on_nfd(n: &[char]) -> (r: bool)
    ensures
        r == names_expands_on_nfd(n@),
{
    let w0: [char; 12] = ['e', 'x', 'p', 'a', 'n', 'd', 's', 'o', 'n', 'n', 'f', 'd'];
    assert(w0@ =~= seq!['e', 'x', 'p', 'a', 'n', 'd', 's', 'o', 'n', 'n', 'f', 'd']);
    let w1: [char; 5] = ['x', 'o', 'n', 'f', 'd'];
    assert(w1@ =~= seq!['x', 'o', 'n', 'f', 'd']);
    chars_eq(n, &w0) || chars_eq(n, &w1)
}

/// The normalized names of the property Expands_On_NFKC.
pub open spec fn names_expands_on_nfkc(n: Seq<char>) -> bool {
    n == seq!['e', 'x', 'p', 'a', 'n', 'd', 's', 'o', 'n', 'n', 'f', 'k', 'c'] || n == seq!['x', 'o', 'n', 'f', 'k', 'c']
}

fn is_names_expands_on_nfkc(n: &[char]) -> (r: bool)
    ensures
        r == names_expands_on_nfkc(n@),
{
    let w0: [char; 13] = ['e', 'x', 'p', 'a', 'n', 'd', 's', 'o', 'n', 'n', 'f', 'k', 'c'];
    assert(w0@ =~= seq!['e', 'x', 'p', 'a', 'n', 'd', 's', 'o', 'n', 'n', 'f', 'k', 'c']);
    let w1: [char; 6] = ['x', 'o', 'n', 'f', 'k', 'c'];
    assert(w1@ =~= seq!['x', 'o', 'n', 'f', 'k', 'c']);
    chars_eq(n, &w0) || chars_eq(n, &w1)
}

/// The normalized names of the property Expands_On_NFKD.
pub open spec fn names_expands_on_nfkd(n: Seq<char>) -> bool {
    n == seq!['e', 'x', 'p', 'a', 'n', 'd', 's', 'o', 'n', 'n', 'f', 'k', 'd'] || n == seq!['x', 'o', 'n', 'f', 'k', 'd']
}

fn is_names_expands_on_nfkd(n: &[char]) -> (r: bool)
    ensures
        r == names_expands_on_nfkd(n@),
{
    let w0: [char; 13] = ['e', 'x', 'p', 'a', 'n', 'd', 's', 'o', 'n', 'n', 'f', 'k', 'd'];
    assert(w0@ =~= seq!['e', 'x', 'p', 'a', 'n', 'd', 's', 'o', 'n', 'n', 'f', 'k', 'd']);
    let w1: [char; 6] = ['x', 'o', 'n', 'f', 'k', 'd'];
    assert(w1@ =~= seq!['x', 'o', 'n', 'f', 'k', 'd']);
    chars_eq(n, &w0) || chars_eq(n, &w1)
}

/// The normalized names of the property Extender.
pub open spec fn names_extender(n: Seq<char>) -> bool {
    n == seq!['e', 'x', 't'] || n == seq!['e', 'x', 't', 'e', 'n', 'd', 'e', 'r']
}

fn is_names_extender(n: &[char]) -> (r: bool)
    ensures
        r == names_extender(n@),
{
    let w0: [char; 3] = ['e', 'x', 't'];
    assert(w0@ =~= seq!['e', 'x', 't']);
    let w1: [char; 8] = ['e', 'x', 't', 'e', 'n', 'd', 'e', 'r'];
    assert(w1@ =~= seq!['e', 'x', 't', 'e', 'n', 'd', 'e', 'r']);
    chars_eq(n, &w0) || chars_eq(n, &w1)
}

/// The normalized names of the property Extended_Pictographic.
pub open spec fn names_extended_pictographic(n: Seq<char>) -> bool {
    n == seq!['e', 'x', 't', 'e', 'n', 'd', 'e', 'd', 'p', 'i', 'c', 't', 'o', 'g', 'r', 'a', 'p', 'h', 'i', 'c'] || n == seq!['e', 'x', 't', 'p', 'i', 'c', 't']
}

fn is_names_extended_pictographic(n: &[char]) -> (r: bool)
    ensures
        r == names_extended_pictographic(n@),
{
    let w0: [char; 20] = ['e', 'x', 't', 'e', 'n', 'd', 'e', 'd', 'p', 'i', 'c', 't', 'o', 'g', 'r', 'a', 'p', 'h', 'i', 'c'];
    assert(w0@ =~= seq!['e', 'x', 't', 'e', 'n', 'd', 'e', 'd', 'p', 'i', 'c', 't', 'o', 'g', 'r', 'a', 'p', 'h', 'i', 'c']);
    let w1: [char; 7] = ['e', 'x', 't', 'p', 'i', 'c', 't'];
    assert(w1@ =~= seq!['e', 'x', 't', 'p', 'i', 'c', 't']);
    chars_eq(n, &w0) || chars_eq(n, &w1)
}

/// The normalized names of the property FC_NFKC_Closure.
pub open spec fn names_fc_nfkc_closure(n: Seq<char>) -> bool {
    n == seq!['f', 'c', 'n', 'f', 'k', 'c'] || n == seq!['f', 'c', 'n', 'f', 'k', 'c', 'c', 'l', 'o', 's', 'u', 'r', 'e']
}

fn is_names_fc_nfkc_closure(n: &[char]) -> (r: bool)
    ensures
        r == names_fc_nfkc_closure(n@),
{
    let w0: [char; 6] = ['f', 'c', 'n', 'f', 'k', 'c'];
    assert(w0@ =~= seq!['f', 'c', 'n', 'f', 'k', 'c']);
    let w1: [char; 13] = ['f', 'c', 'n', 'f', 'k', 'c', 'c', 'l', 'o', 's', 'u', 'r', 'e'];
    assert(w1@ =~= seq!['f', 'c', 'n', 'f', 'k', 'c', 'c', 'l', 'o', 's', 'u', 'r', 'e']);
    chars_eq(n, &w0) || chars_eq(n, &w1)
}

/// The normalized names of the property General_Category.
pub open spec fn names_general_category(n: Seq<char>) -> bool {
    n == seq!['g', 'c'] || n == seq!['g', 'e', 'n', 'e', 'r', 'a', 'l', 'c', 'a', 't', 'e', 'g', 'o', 'r', 'y']
}

fn is_names_general_category(n: &[char]) -> (r: bool)
    ensures
        r == names_general_category(n@),
{
    let w0: [char; 2] = ['g', 'c'];
    assert(w0@ =~= seq!['g', 'c']);
    let w1: [char; 15] = ['g', 'e', 'n', 'e', 'r', 'a', 'l', 'c', 'a', 't', 'e', 'g', 'o', 'r', 'y'];
    assert(w1@ =~= seq!['g', 'e', 'n', 'e', 'r', 'a', 'l', 'c', 'a', 't', 'e', 'g', 'o', 'r', 'y']);
    chars_eq(n, &w0) || chars_eq(n, &w1)
}

/// The normalized names of the property Grapheme_Cluster_Break.
pub open spec fn names_grapheme_cluster_break(n: Seq<char>) -> bool {
    n == seq!['g', 'c', 'b'] || n == seq!['g', 'r', 'a', 'p', 'h', 'e', 'm', 'e', 'c', 'l', 'u', 's', 't', 'e', 'r', 'b', 'r', 'e', 'a', 'k']
}

fn is_names_grapheme_cluster_break(n: &[char]) -> (r: bool)
    ensures
        r == names_grapheme_cluster_break(n@),
{
    let w0: [char; 3] = ['g', 'c', 'b'];
    assert(w0@ =~= seq!['g', 'c', 'b']);
    let w1: [char; 20] = ['g', 'r', 'a', 'p', 'h', 'e', 'm', 'e', 'c', 'l', 'u', 's', 't', 'e', 'r', 'b', 'r', 'e', 'a', 'k'];
    assert(w1@ =~= seq!['g', 'r', 'a', 'p', 'h', 'e', 'm', 'e', 'c', 'l', 'u', 's', 't', 'e', 'r', 'b', 'r', 'e', 'a', 'k']);
    chars_eq(n, &w0) || chars_eq(n, &w1)
}

/// The normalized names of the property Grapheme_Base.
pub open spec fn names_grapheme_base(n: Seq<char>) -> bool {
    n == seq!['g', 'r', 'a', 'p', 'h', 'e', 'm', 'e', 'b', 'a', 's', 'e'] || n == seq!['g', 'r', 'b', 'a', 's', 'e']
}

fn is_names_grapheme_base(n: &[char]) -> (r: bool)
    ensures
        r == names_grapheme_base(n@),
{
    let w0: [char; 12] = ['g', 'r', 'a', 'p', 'h', 'e', 'm', 'e', 'b', 'a', 's', 'e'];
    assert(w0@ =~= seq!['g', 'r', 'a', 'p', 'h', 'e', 'm', 'e', 'b', 'a', 's', 'e']);
    let w1: [char; 6] = ['g', 'r', 'b', 'a', 's', 'e'];
    assert(w1@ =~= seq!['g', 'r', 'b', 'a', 's', 'e']);
    chars_eq(n, &w0) || chars_eq(n, &w1)
}

/// The normalized names of the property Grapheme_Extend.
pub open spec fn names_grapheme_extend(n: Seq<char>) -> bool {
    n == seq!['g', 'r', 'a', 'p', 'h', 'e', 'm', 'e', 'e', 'x', 't', 'e', 'n', 'd'] || n == seq!['g', 'r', 'e', 'x', 't']
}

fn is_names_grapheme_extend(n: &[char]) -> (r: bool)
    ensures
        r == names_grapheme_extend(n@),
{
    let w0: [char; 14] = ['g', 'r', 'a', 'p', 'h', 'e', 'm', 'e', 'e', 'x', 't', 'e', 'n', 'd'];
    assert(w0@ =~= seq!['g', 'r', 'a', 'p', 'h', 'e', 'm', 'e', 'e', 'x', 't', 'e', 'n', 'd']);
    let w1: [char; 5] = ['g', 'r', 'e', 'x', 't'];
    assert(w1@ =~= seq!['g', 'r', 'e', 'x', 't']);
    chars_eq(n, &w0) || chars_eq(n, &w1)
}

/// The normalized names of the property Grapheme_Link.
pub open spec fn names_grapheme_link(n: Seq<char>) -> bool {
    n == seq!['g', 'r', 'a', 'p', 'h', 'e', 'm', 'e', 'l', 'i', 'n', 'k'] || n == seq!['g', 'r', 'l', 'i', 'n', 'k']
}

fn is_names_grapheme_link(n: &[char]) -> (r: bool)
    ensures
        r == names_grapheme_link(n@),
{
    let w0: [char; 12] = ['g', 'r', 'a', 'p', 'h', 'e', 'm', 'e', 'l', 'i', 'n', 'k'];
    assert(w0@ =~= seq!['g', 'r', 'a', 'p', 'h', 'e', 'm', 'e', 'l', 'i', 'n', 'k']);
    let w1: [char; 6] = ['g', 'r', 'l', 'i', 'n', 'k'];
    assert(w1@ =~= seq!['g', 'r', 'l', 'i', 'n', 'k']);
    chars_eq(n, &w0) || chars_eq(n, &w1)
}

/// The normalized names of the property Hangul_Syllable_Type.
pub open spec fn names_hangul_syllable_type(n: Seq<char>) -> bool {
    n == seq!['h', 'a', 'n', 'g', 'u', 'l', 's', 'y', 'l', 'l', 'a', 'b', 'l', 'e', 't', 'y', 'p', 'e'] || n == seq!['h', 's', 't']
}

fn is_names_hangul_syllable_type(n: &[char]) -> (r: bool)
    ensures
        r == names_hangul_syllable_type(n@),
{
    let w0: [char; 18] = ['h', 'a', 'n', 'g', 'u', 'l', 's', 'y', 'l', 'l', 'a', 'b', 'l', 'e', 't', 'y', 'p', 'e'];
    assert(w0@ =~= seq!['h', 'a', 'n', 'g', 'u', 'l', 's', 'y', 'l', 'l', 'a', 'b', 'l', 'e', 't', 'y', 'p', 'e']);
    let w1: [char; 3] = ['h', 's', 't'];
    assert(w1@ =~= seq!['h', 's', 't']);
    chars_eq(n, &w0) || chars_eq(n, &w1)
}

/// The normalized names of the property Hex_Digit.
pub open spec fn names_hex_digit(n: Seq<char>) -> bool {
    n == seq!['h', 'e', 'x'] || n == seq!['h', 'e', 'x', 'd', 'i', 'g', 'i', 't']
}

fn is_names_hex_digit(n: &[char]) -> (r: bool)
    ensures
        r == names_hex_digit(n@),
{
    let w0: [char; 3] = ['h', 'e', 'x'];
    assert(w0@ =~= seq!['h', 'e', 'x']);
    let w1: [char; 8] = ['h', 'e', 'x', 'd', 'i', 'g', 'i', 't'];
    assert(w1@ =~= seq!['h', 'e', 'x', 'd', 'i', 'g', 'i', 't']);
    chars_eq(n, &w0) || chars_eq(n, &w1)
}

/// The normalized names of the property Hyphen.
pub open spec fn names_hyphen(n: Seq<char>) -> bool {
    n == seq!['h', 'y', 'p', 'h', 'e', 'n']
}

fn is_names_hyphen(n: &[char]) -> (r: bool)
    ensures
        r == names_hyphen(n@),
{
    let w0: [char; 6] = ['h', 'y', 'p', 'h', 'e', 'n'];
    assert(w0@ =~= seq!['h', 'y', 'p', 'h', 'e', 'n']);
    chars_eq(n, &w0)
}

/// The normalized names of the property ID_Continue.
pub open spec fn names_id_continue(n: Seq<char>) -> bool {
    n == seq!['i', 'd', 'c'] || n == seq!['i', 'd', 'c', 'o', 'n', 't', 'i', 'n', 'u', 'e']
}

fn is_names_id_continue(n: &[char]) -> (r: bool)
    ensures
        r == names_id_continue(n@),
{
    let w0: [char; 3] = ['i', 'd', 'c'];
    assert(w0@ =~= seq!['i', 'd', 'c']);
    let w1: [char; 10] = ['i', 'd', 'c', 'o', 'n', 't', 'i', 'n', 'u', 'e'];
    assert(w1@ =~= seq!['i', 'd', 'c', 'o', 'n', 't', 'i', 'n', 'u', 'e']);
    chars_eq(n, &w0) || chars_eq(n, &w1)
}

/// The normalized names of the property ID_Compat_Math_Continue.
pub open spec fn names_id_compat_math_continue(n: Seq<char>) -> bool {
    n == seq!['i', 'd', 'c', 'o', 'm', 'p', 'a', 't', 'm', 'a', 't', 'h', 'c', 'o', 'n', 't', 'i', 'n', 'u', 'e']
}

fn is_names_id_compat_math_continue(n: &[char]) -> (r: bool)
    ensures
        r == names_id_compat_math_continue(n@),
{
    let w0: [char; 20] = ['i', 'd', 'c', 'o', 'm', 'p', 'a', 't', 'm', 'a', 't', 'h', 'c', 'o', 'n', 't', 'i', 'n', 'u', 'e'];
    assert(w0@ =~= seq!['i', 'd', 'c', 'o', 'm', 'p', 'a', 't', 'm', 'a', 't', 'h', 'c', 'o', 'n', 't', 'i', 'n', 'u', 'e']);
    chars_eq(n, &w0)
}

/// The normalized names of the property ID_Compat_Math_Start.
pub open spec fn names_id_compat_math_start(n: Seq<char>) -> bool {
    n == seq!['i', 'd', 'c', 'o', 'm', 'p', 'a', 't', 'm', 'a', 't', 'h', 's', 't', 'a', 'r', 't']
}

fn is_names_id_compat_math_start(n: &[char]) -> (r: bool)
    ensures
        r == names_id_compat_math_start(n@),
{
    let w0: [char; 17] = ['i', 'd', 'c', 'o', 'm', 'p', 'a', 't', 'm', 'a', 't', 'h', 's', 't', 'a', 'r', 't'];
    assert(w0@ =~= seq!['i', 'd', 'c', 'o', 'm', 'p', 'a', 't', 'm', 'a', 't', 'h', 's', 't', 'a', 'r', 't']);
    chars_eq(n, &w0)
}

/// The normalized names of the property Ideographic.
pub open spec fn names_ideographic(n: Seq<char>) -> bool {
    n == seq!['i', 'd', 'e', 'o'] || n == seq!['i', 'd', 'e', 'o', 'g', 'r', 'a', 'p', 'h', 'i', 'c']
}

fn is_names_ideographic(n: &[char]) -> (r: bool)
    ensures
        r == names_ideographic(n@),
{
    let w0: [char; 4] = ['i', 'd', 'e', 'o'];
    assert(w0@ =~= seq!['i', 'd', 'e', 'o']);
    let w1: [char; 11] = ['i', 'd', 'e', 'o', 'g', 'r', 'a', 'p', 'h', 'i', 'c'];
    assert(w1@ =~= seq!['i', 'd', 'e', 'o', 'g', 'r', 'a', 'p', 'h', 'i', 'c']);
    chars_eq(n, &w0) || chars_eq(n, &w1)
}

/// The normalized names of the property ID_Start.
pub open spec fn names_id_start(n: Seq<char>) -> bool {
    n == seq!['i', 'd', 's'] || n == seq!['i', 'd', 's', 't', 'a', 'r', 't']
}

fn is_names_id_start(n: &[char]) -> (r: bool)
    ensures
        r == names_id_start(n@),
{
    let w0: [char; 3] = ['i', 'd', 's'];
    assert(w0@ =~= seq!['i', 'd', 's']);
    let w1: [char; 7] = ['i', 'd', 's', 't', 'a', 'r', 't'];
    assert(w1@ =~= seq!['i', 'd', 's', 't', 'a', 'r', 't']);
    chars_eq(n, &w0) || chars_eq(n, &w1)
}

/// The normalized names of the property IDS_Binary_Operator.
pub open spec fn names_ids_binary_operator(n: Seq<char>) -> bool {
    n == seq!['i', 'd', 's', 'b'] || n == seq!['i', 'd', 's', 'b', 'i', 'n', 'a', 'r', 'y', 'o', 'p', 'e', 'r', 'a', 't', 'o', 'r']
}

fn is_names_ids_binary_operator(n: &[char]) -> (r: bool)
    ensures
        r == names_ids_binary_operator(n@),
{
    let w0: [char; 4] = ['i', 'd', 's', 'b'];
    assert(w0@ =~= seq!['i', 'd', 's', 'b']);
    let w1: [char; 17] = ['i', 'd', 's', 'b', 'i', 'n', 'a', 'r', 'y', 'o', 'p', 'e', 'r', 'a', 't', 'o', 'r'];
    assert(w1@ =~= seq!['i', 'd', 's', 'b', 'i', 'n', 'a', 'r', 'y', 'o', 'p', 'e', 'r', 'a', 't', 'o', 'r']);
    chars_eq(n, &w0) || chars_eq(n, &w1)
}

/// The normalized names of the property IDS_Trinary_Operator.
pub open spec fn names_ids_trinary_operator(n: Seq<char>) -> bool {
    n == seq!['i', 'd', 's', 't'] || n == seq!['i', 'd', 's', 't', 'r', 'i', 'n', 'a', 'r', 'y', 'o', 'p', 'e', 'r', 'a', 't', 'o', 'r']
}

fn is_names_ids_trinary_operator(n: &[char]) -> (r: bool)
    ensures
        r == names_ids_trinary_operator(n@),
{
    let w0: [char; 4] = ['i', 'd', 's', 't'];
    assert(w0@ =~= seq!['i', 'd', 's', 't']);
    let w1: [char; 18] = ['i', 'd', 's', 't', 'r', 'i', 'n', 'a', 'r', 'y', 'o', 'p', 'e', 'r', 'a', 't', 'o', 'r'];
    assert(w1@ =~= seq!['i', 'd', 's', 't', 'r', 'i', 'n', 'a', 'r', 'y', 'o', 'p', 'e', 'r', 'a', 't', 'o', 'r']);
    chars_eq(n, &w0) || chars_eq(n, &w1)
}

/// The normalized names of the property IDS_Unary_Operator.
pub open spec fn names_ids_unary_operator(n: Seq<char>) -> bool {
    n == seq!['i', 'd', 's', 'u'] || n == seq!['i', 'd', 's', 'u', 'n', 'a', 'r', 'y', 'o', 'p', 'e', 'r', 'a', 't', 'o', 'r']
}

fn is_names_ids_unary_operator(n: &[char]) -> (r: bool)
    ensures
        r == names_ids_unary_operator(n@),
{
    let w0: [char; 4] = ['i', 'd', 's', 'u'];
    assert(w0@ =~= seq!['i', 'd', 's', 'u']);
    let w1: [char; 16] = ['i', 'd', 's', 'u', 'n', 'a', 'r', 'y', 'o', 'p', 'e', 'r', 'a', 't', 'o', 'r'];
    assert(w1@ =~= seq!['i', 'd', 's', 'u', 'n', 'a', 'r', 'y', 'o', 'p', 'e', 'r', 'a', 't', 'o', 'r']);
    chars_eq(n, &w0) || chars_eq(n, &w1)
}

/// The normalized names of the property Indic_Conjunct_Break.
pub open spec fn names_indic_conjunct_break(n: Seq<char>) -> bool {
    n == seq!['i', 'n', 'c', 'b'] || n == seq!['i', 'n', 'd', 'i', 'c', 'c', 'o', 'n', 'j', 'u', 'n', 'c', 't', 'b', 'r', 'e', 'a', 'k']
}

fn is_names_indic_conjunct_break(n: &[char]) -> (r: bool)
    ensures
        r == names_indic_conjunct_break(n@),
{
    let w0: [char; 4] = ['i', 'n', 'c', 'b'];
    assert(w0@ =~= seq!['i', 'n', 'c', 'b']);
    let w1: [char; 18] = ['i', 'n', 'd', 'i', 'c', 'c', 'o', 'n', 'j', 'u', 'n', 'c', 't', 'b', 'r', 'e', 'a', 'k'];
    assert(w1@ =~= seq!['i', 'n', 'd', 'i', 'c', 'c', 'o', 'n', 'j', 'u', 'n', 'c', 't', 'b', 'r', 'e', 'a', 'k']);
    chars_eq(n, &w0) || chars_eq(n, &w1)
}

/// The normalized names of the property Indic_Positional_Category.
pub open spec fn names_indic_positional_category(n: Seq<char>) -> bool {
    n == seq!['i', 'n', 'd', 'i', 'c', 'p', 'o', 's', 'i', 't', 'i', 'o', 'n', 'a', 'l', 'c', 'a', 't', 'e', 'g', 'o', 'r', 'y'] || n == seq!['i', 'n', 'p', 'c']
}

fn is_names_indic_positional_category(n: &[char]) -> (r: bool)
    ensures
        r == names_indic_positional_category(n@),
{
    let w0: [char; 23] = ['i', 'n', 'd', 'i', 'c', 'p', 'o', 's', 'i', 't', 'i', 'o', 'n', 'a', 'l', 'c', 'a', 't', 'e', 'g', 'o', 'r', 'y'];
    assert(w0@ =~= seq!['i', 'n', 'd', 'i', 'c', 'p', 'o', 's', 'i', 't', 'i', 'o', 'n', 'a', 'l', 'c', 'a', 't', 'e', 'g', 'o', 'r', 'y']);
    let w1: [char; 4] = ['i', 'n', 'p', 'c'];
    assert(w1@ =~= seq!['i', 'n', 'p', 'c']);
    chars_eq(n, &w0) || chars_eq(n, &w1)
}

/// The normalized names of the property Indic_Syllabic_Category.
pub open spec fn names_indic_syllabic_category(n: Seq<char>) -> bool {
    n == seq!['i', 'n', 'd', 'i', 'c', 's', 'y', 'l', 'l', 'a', 'b', 'i', 'c', 'c', 'a', 't', 'e', 'g', 'o', 'r', 'y'] || n == seq!['i', 'n', 's', 'c']
}

fn is_names_indic_syllabic_category(n: &[char]) -> (r: bool)
    ensures
        r == names_indic_syllabic_category(n@),
{
    let w0: [char; 21] = ['i', 'n', 'd', 'i', 'c', 's', 'y', 'l', 'l', 'a', 'b', 'i', 'c', 'c', 'a', 't', 'e', 'g', 'o', 'r', 'y'];
    assert(w0@ =~= seq!['i', 'n', 'd', 'i', 'c', 's', 'y', 'l', 'l', 'a', 'b', 'i', 'c', 'c', 'a', 't', 'e', 'g', 'o', 'r', 'y']);
    let w1: [char; 4] = ['i', 'n', 's', 'c'];
    assert(w1@ =~= seq!['i', 'n', 's', 'c']);
    chars_eq(n, &w0) || chars_eq(n, &w1)
}

/// The normalized names of the property ISO_Comment.
pub open spec fn names_iso_comment(n: Seq<char>) -> bool {
    n == seq!['i', 's', 'c'] || n == seq!['o', 'c', 'o', 'm', 'm', 'e', 'n', 't']
}

fn is_names_iso_comment(n: &[char]) -> (r: bool)
    ensures
        r == names_iso_comment(n@),
{
    let w0: [char; 3] = ['i', 's', 'c'];
    assert(w0@ =~= seq!['i', 's', 'c']);
    let w1: [char; 8] = ['o', 'c', 'o', 'm', 'm', 'e', 'n', 't'];
    assert(w1@ =~= seq!['o', 'c', 'o', 'm', 'm', 'e', 'n', 't']);
    chars_eq(n, &w0) || chars_eq(n, &w1)
}

/// The normalized names of the property Jamo_Short_Name.
pub open spec fn names_jamo_short_name(n: Seq<char>) -> bool {
    n == seq!['j', 'a', 'm', 'o', 's', 'h', 'o', 'r', 't', 'n', 'a', 'm', 'e'] || n == seq!['j', 's', 'n']
}

fn is_names_jamo_short_name(n: &[char]) -> (r: bool)
    ensures
        r == names_jamo_short_name(n@),
{
    let w0: [char; 13] = ['j', 'a', 'm', 'o', 's', 'h', 'o', 'r', 't', 'n', 'a', 'm', 'e'];
    assert(w0@ =~= seq!['j', 'a', 'm', 'o', 's', 'h', 'o', 'r', 't', 'n', 'a', 'm', 'e']);
    let w1: [char; 3] = ['j', 's', 'n'];
    assert(w1@ =~= seq!['j', 's', 'n']);
    chars_eq(n, &w0) || chars_eq(n, &w1)
}

/// The normalized names of the property Joining_Group.
pub open spec fn names_joining_group(n: Seq<char>) -> bool {
    n == seq!['j', 'g'] || n == seq!['j', 'o', 'i', 'n', 'i', 'n', 'g', 'g', 'r', 'o', 'u', 'p']
}

fn is_names_joining_group(n: &[char]) -> (r: bool)
    ensures
        r == names_joining_group(n@),
{
    let w0: [char; 2] = ['j', 'g'];
    assert(w0@ =~= seq!['j', 'g']);
    let w1: [char; 12] = ['j', 'o', 'i', 'n', 'i', 'n', 'g', 'g', 'r', 'o', 'u', 'p'];
    assert(w1@ =~= seq!['j', 'o', 'i', 'n', 'i', 'n', 'g', 'g', 'r', 'o', 'u', 'p']);
    chars_eq(n, &w0) || chars_eq(n, &w1)
}

/// The normalized names of the property Join_Control.
pub open spec fn names_join_control(n: Seq<char>) -> bool {
    n == seq!['j', 'o', 'i', 'n', 'c'] || n == seq!['j', 'o', 'i', 'n', 'c', 'o', 'n', 't', 'r', 'o', 'l']
}

fn is_names_join_control(n: &[char]) -> (r: bool)
    ensures
        r == names_join_control(n@),
{
    let w0: [char; 5] = ['j', 'o', 'i', 'n', 'c'];
    assert(w0@ =~= seq!['j', 'o', 'i', 'n', 'c']);
    let w1: [char; 11] = ['j', 'o', 'i', 'n', 'c', 'o', 'n', 't', 'r', 'o', 'l'];
    assert(w1@ =~= seq!['j', 'o', 'i', 'n', 'c', 'o', 'n', 't', 'r', 'o', 'l']);
    chars_eq(n, &w0) || chars_eq(n, &w1)
}

/// The normalized names of the property Joining_Type.
pub open spec fn names_joining_type(n: Seq<char>) -> bool {
    n == seq!['j', 'o', 'i', 'n', 'i', 'n', 'g', 't', 'y', 'p', 'e'] || n == seq!['j', 't']
}

fn is_names_joining_type(n: &[char]) -> (r: bool)
    ensures
        r == names_joining_type(n@),
{
    let w0: [char; 11] = ['j', 'o', 'i', 'n', 'i', 'n', 'g', 't', 'y', 'p', 'e'];
    assert(w0@ =~= seq!['j', 'o', 'i', 'n', 'i', 'n', 'g', 't', 'y', 'p', 'e']);
    let w1: [char; 2] = ['j', 't'];
    assert(w1@ =~= seq!['j', 't']);
    chars_eq(n, &w0) || chars_eq(n, &w1)
}

/// The normalized names of the property kEH_Cat.
pub open spec fn names_keh_cat(n: Seq<char>) -> bool {
    n == seq!['k', 'e', 'h', 'c', 'a', 't']
}

fn is_names_keh_cat(n: &[char]) -> (r: bool)
    ensures
        r == names_keh_cat(n@),
{
    let w0: [char; 6] = ['k', 'e', 'h', 'c', 'a', 't'];
    assert(w0@ =~= seq!['k', 'e', 'h', 'c', 'a', 't']);
    chars_eq(n, &w0)
}

/// The normalized names of the property kEH_Desc.
pub open spec fn names_keh_desc(n: Seq<char>) -> bool {
    n == seq!['k', 'e', 'h', 'd', 'e', 's', 'c']
}

fn is_names_keh_desc(n: &[char]) -> (r: bool)
    ensures
        r == names_keh_desc(n@),
{
    let w0: [char; 7] = ['k', 'e', 'h', 'd', 'e', 's', 'c'];
    assert(w0@ =~= seq!['k', 'e', 'h', 'd', 'e', 's', 'c']);
    chars_eq(n, &w0)
}

/// The normalized names of the property kEH_HG.
pub open spec fn names_keh_hg(n: Seq<char>) -> bool {
    n == seq!['k', 'e', 'h', 'h', 'g']
}

fn is_names_keh_hg(n: &[char]) -> (r: bool)
    ensures
        r == names_keh_hg(n@),
{
    let w0: [char; 5] = ['k', 'e', 'h', 'h', 'g'];
    assert(w0@ =~= seq!['k', 'e', 'h', 'h', 'g']);
    chars_eq(n, &w0)
}

/// The normalized names of the property kEH_IFAO.
pub open spec fn names_keh_ifao(n: Seq<char>) -> bool {
    n == seq!['k', 'e', 'h', 'i', 'f', 'a', 'o']
}

fn is_names_keh_ifao(n: &[char]) -> (r: bool)
    ensures
        r == names_keh_ifao(n@),
{
    let w0: [char; 7] = ['k', 'e', 'h', 'i', 'f', 'a', 'o'];
    assert(w0@ =~= seq!['k', 'e', 'h', 'i', 'f', 'a', 'o']);
    chars_eq(n, &w0)
}

/// The normalized names of the property kEH_JSesh.
pub open spec fn names_keh_jsesh(n: Seq<char>) -> bool {
    n == seq!['k', 'e', 'h', 'j', 's', 'e', 's', 'h']
}

fn is_names_keh_jsesh(n: &[char]) -> (r: bool)
    ensures
        r == names_keh_jsesh(n@),
{
    let w0: [char; 8] = ['k', 'e', 'h', 'j', 's', 'e', 's', 'h'];
    assert(w0@ =~= seq!['k', 'e', 'h', 'j', 's', 'e', 's', 'h']);
    chars_eq(n, &w0)
}

/// The normalized names of the property kEH_NoMirror.
pub open spec fn names_keh_nomirror(n: Seq<char>) -> bool {
    n == seq!['k', 'e', 'h', 'n', 'o', 'm', 'i', 'r', 'r', 'o', 'r']
}

fn is_names_keh_nomirror(n: &[char]) -> (r: bool)
    ensures
        r == names_keh_nomirror(n@),
{
    let w0: [char; 11] = ['k', 'e', 'h', 'n', 'o', 'm', 'i', 'r', 'r', 'o', 'r'];
    assert(w0@ =~= seq!['k', 'e', 'h', 'n', 'o', 'm', 'i', 'r', 'r', 'o', 'r']);
    chars_eq(n, &w0)
}

/// The normalized names of the property kEH_NoRotate.
pub open spec fn names_keh_norotate(n: Seq<char>) -> bool {
    n == seq!['k', 'e', 'h', 'n', 'o', 'r', 'o', 't', 'a', 't', 'e']
}

fn is_names_keh_norotate(n: &[char]) -> (r: bool)
    ensures
        r == names_keh_norotate(n@),
{
    let w0: [char; 11] = ['k', 'e', 'h', 'n', 'o', 'r', 'o', 't', 'a', 't', 'e'];
    assert(w0@ =~= seq!['k', 'e', 'h', 'n', 'o', 'r', 'o', 't', 'a', 't', 'e']);
    chars_eq(n, &w0)
}

/// The normalized names of the property Line_Break.
pub open spec fn names_line_break(n: Seq<char>) -> bool {
    n == seq!['l', 'b'] || n == seq!['l', 'i', 'n', 'e', 'b', 'r', 'e', 'a', 'k']
}

fn is_names_line_break(n: &[char]) -> (r: bool)
    ensures
        r == names_line_break(n@),
{
    let w0: [char; 2] = ['l', 'b'];
    assert(w0@ =~= seq!['l', 'b']);
    let w1: [char; 9] = ['l', 'i', 'n', 'e', 'b', 'r', 'e', 'a', 'k'];
    assert(w1@ =~= seq!['l', 'i', 'n', 'e', 'b', 'r', 'e', 'a', 'k']);
    chars_eq(n, &w0) || chars_eq(n, &w1)
}

/// The normalized names of the property Lowercase_Mapping.
pub open spec fn names_lowercase_mapping(n: Seq<char>) -> bool {
    n == seq!['l', 'c'] || n == seq!['l', 'o', 'w', 'e', 'r', 'c', 'a', 's', 'e', 'm', 'a', 'p', 'p', 'i', 'n', 'g']
}

fn is_names_lowercase_mapping(n: &[char]) -> (r: bool)
    ensures
        r == names_lowercase_mapping(n@),
{
    let w0: [char; 2] = ['l', 'c'];
    assert(w0@ =~= seq!['l', 'c']);
    let w1: [char; 16] = ['l', 'o', 'w', 'e', 'r', 'c', 'a', 's', 'e', 'm', 'a', 'p', 'p', 'i', 'n', 'g'];
    assert(w1@ =~= seq!['l', 'o', 'w', 'e', 'r', 'c', 'a', 's', 'e', 'm', 'a', 'p', 'p', 'i', 'n', 'g']);
    chars_eq(n, &w0) || chars_eq(n, &w1)
}

/// The normalized names of the property Logical_Order_Exception.
pub open spec fn names_logical_order_exception(n: Seq<char>) -> bool {
    n == seq!['l', 'o', 'e'] || n == seq!['l', 'o', 'g', 'i', 'c', 'a', 'l', 'o', 'r', 'd', 'e', 'r', 'e', 'x', 'c', 'e', 'p', 't', 'i', 'o', 'n']
}

fn is_names_logical_order_exception(n: &[char]) -> (r: bool)
    ensures
        r == names_logical_order_exception(n@),
{
    let w0: [char; 3] = ['l', 'o', 'e'];
    assert(w0@ =~= seq!['l', 'o', 'e']);
    let w1: [char; 21] = ['l', 'o', 'g', 'i', 'c', 'a', 'l', 'o', 'r', 'd', 'e', 'r', 'e', 'x', 'c', 'e', 'p', 't', 'i', 'o', 'n'];
    assert(w1@ =~= seq!['l', 'o', 'g', 'i', 'c', 'a', 'l', 'o', 'r', 'd', 'e', 'r', 'e', 'x', 'c', 'e', 'p', 't', 'i', 'o', 'n']);
    chars_eq(n, &w0) || chars_eq(n, &w1)
}

/// The normalized names of the property Lowercase.
pub open spec fn names_lowercase(n: Seq<char>) -> bool {
    n == seq!['l', 'o', 'w', 'e', 'r'] || n == seq!['l', 'o', 'w', 'e', 'r', 'c', 'a', 's', 'e']
}

fn is_names_lowercase(n: &[char]) -> (r: bool)
    ensures
        r == names_lowercase(n@),
{
    let w0: [char; 5] = ['l', 'o', 'w', 'e', 'r'];
    assert(w0@ =~= seq!['l', 'o', 'w', 'e', 'r']);
    let w1: [char; 9] = ['l', 'o', 'w', 'e', 'r', 'c', 'a', 's', 'e'];
    assert(w1@ =~= seq!['l', 'o', 'w', 'e', 'r', 'c', 'a', 's', 'e']);
    chars_eq(n, &w0) || chars_eq(n, &w1)
}

/// The normalized names of the property Math.
pub open spec fn names_math(n: Seq<char>) -> bool {
    n == seq!['m', 'a', 't', 'h']
}

fn is_names_math(n: &[char]) -> (r: bool)
    ensures
        r == names_math(n@),
{
    let w0: [char; 4] = ['m', 'a', 't', 'h'];
    assert(w0@ =~= seq!['m', 'a', 't', 'h']);
    chars_eq(n, &w0)
}

/// The normalized names of the property Modifier_Combining_Mark.
pub open spec fn names_modifier_combining_mark(n: Seq<char>) -> bool {
    n == seq!['m', 'c', 'm'] || n == seq!['m', 'o', 'd', 'i', 'f', 'i', 'e', 'r', 'c', 'o', 'm', 'b', 'i', 'n', 'i', 'n', 'g', 'm', 'a', 'r', 'k']
}

fn is_names_modifier_combining_mark(n: &[char]) -> (r: bool)
    ensures
        r == names_modifier_combining_mark(n@),
{
    let w0: [char; 3] = ['m', 'c', 'm'];
    assert(w0@ =~= seq!['m', 'c', 'm']);
    let w1: [char; 21] = ['m', 'o', 'd', 'i', 'f', 'i', 'e', 'r', 'c', 'o', 'm', 'b', 'i', 'n', 'i', 'n', 'g', 'm', 'a', 'r', 'k'];
    assert(w1@ =~= seq!['m', 'o', 'd', 'i', 'f', 'i', 'e', 'r', 'c', 'o', 'm', 'b', 'i', 'n', 'i', 'n', 'g', 'm', 'a', 'r', 'k']);
    chars_eq(n, &w0) || chars_eq(n, &w1)
}

/// The normalized names of the property Name.
pub open spec fn names_name(n: Seq<char>) -> bool {
    n == seq!['n', 'a'] || n == seq!['n', 'a', 'm', 'e']
}

fn is_names_name(n: &[char]) -> (r: bool)
    ensures
        r == names_name(n@),
{
    let w0: [char; 2] = ['n', 'a'];
    assert(w0@ =~= seq!['n', 'a']);
    let w1: [char; 4] = ['n', 'a', 'm', 'e'];
    assert(w1@ =~= seq!['n', 'a', 'm', 'e']);
    chars_eq(n, &w0) || chars_eq(n, &w1)
}

/// The normalized names of the property Unicode_1_Name.
pub open spec fn names_unicode_1_name(n: Seq<char>) -> bool {
    n == seq!['n', 'a', '1'] || n == seq!['u', 'n', 'i', 'c', 'o', 'd', 'e', '1', 'n', 'a', 'm', 'e']
}

fn is_names_unicode_1_name(n: &[char]) -> (r: bool)
    ensures
        r == names_unicode_1_name(n@),
{
    let w0: [char; 3] = ['n', 'a', '1'];
    assert(w0@ =~= seq!['n', 'a', '1']);
    let w1: [char; 12] = ['u', 'n', 'i', 'c', 'o', 'd', 'e', '1', 'n', 'a', 'm', 'e'];
    assert(w1@ =~= seq!['u', 'n', 'i', 'c', 'o', 'd', 'e', '1', 'n', 'a', 'm', 'e']);
    chars_eq(n, &w0) || chars_eq(n, &w1)
}

/// The normalized names of the property Name_Alias.
pub open spec fn names_name_alias(n: Seq<char>) -> bool {
    n == seq!['n', 'a', 'm', 'e', 'a', 'l', 'i', 'a', 's']
}

fn is_names_name_alias(n: &[char]) -> (r: bool)
    ensures
        r == names_name_alias(n@),
{
    let w0: [char; 9] = ['n', 'a', 'm', 'e', 'a', 'l', 'i', 'a', 's'];
    assert(w0@ =~= seq!['n', 'a', 'm', 'e', 'a', 'l', 'i', 'a', 's']);
    chars_eq(n, &w0)
}

/// The normalized names of the property Noncharacter_Code_Point.
pub open spec fn names_noncharacter_code_point(n: Seq<char>) -> bool {
    n == seq!['n', 'c', 'h', 'a', 'r'] || n == seq!['n', 'o', 'n', 'c', 'h', 'a', 'r', 'a', 'c', 't', 'e', 'r', 'c', 'o', 'd', 'e', 'p', 'o', 'i', 'n', 't']
}

fn is_names_noncharacter_code_point(n: &[char]) -> (r: bool)
    ensures
        r == names_noncharacter_code_point(n@),
{
    let w0: [char; 5] = ['n', 'c', 'h', 'a', 'r'];
    assert(w0@ =~= seq!['n', 'c', 'h', 'a', 'r']);
    let w1: [char; 21] = ['n', 'o', 'n', 'c', 'h', 'a', 'r', 'a', 'c', 't', 'e', 'r', 'c', 'o', 'd', 'e', 'p', 'o', 'i', 'n', 't'];
    assert(w1@ =~= seq!['n', 'o', 'n', 'c', 'h', 'a', 'r', 'a', 'c', 't', 'e', 'r', 'c', 'o', 'd', 'e', 'p', 'o', 'i', 'n', 't']);
    chars_eq(n, &w0) || chars_eq(n, &w1)
}

/// The normalized names of the property NFC_Quick_Check.
pub open spec fn names_nfc_quick_check(n: Seq<char>) -> bool {
    n == seq!['n', 'f', 'c', 'q', 'c'] || n == seq!['n', 'f', 'c', 'q', 'u', 'i', 'c', 'k', 'c', 'h', 'e', 'c', 'k']
}

fn is_names_nfc_quick_check(n: &[char]) -> (r: bool)
    ensures
        r == names_nfc_quick_check(n@),
{
    let w0: [char; 5] = ['n', 'f', 'c', 'q', 'c'];
    assert(w0@ =~= seq!['n', 'f', 'c', 'q', 'c']);
    let w1: [char; 13] = ['n', 'f', 'c', 'q', 'u', 'i', 'c', 'k', 'c', 'h', 'e', 'c', 'k'];
    assert(w1@ =~= seq!['n', 'f', 'c', 'q', 'u', 'i', 'c', 'k', 'c', 'h', 'e', 'c', 'k']);
    chars_eq(n, &w0) || chars_eq(n, &w1)
}

/// The normalized names of the property NFD_Quick_Check.
pub open spec fn names_nfd_quick_check(n: Seq<char>) -> bool {
    n == seq!['n', 'f', 'd', 'q', 'c'] || n == seq!['n', 'f', 'd', 'q', 'u', 'i', 'c', 'k', 'c', 'h', 'e', 'c', 'k']
}

fn is_names_nfd_quick_check(n: &[char]) -> (r: bool)
    ensures
        r == names_nfd_quick_check(n@),
{
    let w0: [char; 5] = ['n', 'f', 'd', 'q', 'c'];
    assert(w0@ =~= seq!['n', 'f', 'd', 'q', 'c']);
    let w1: [char; 13] = ['n', 'f', 'd', 'q', 'u', 'i', 'c', 'k', 'c', 'h', 'e', 'c', 'k'];
    assert(w1@ =~= seq!['n', 'f', 'd', 'q', 'u', 'i', 'c', 'k', 'c', 'h', 'e', 'c', 'k']);
    chars_eq(n, &w0) || chars_eq(n, &w1)
}

/// The normalized names of the property NFKC_Casefold.
pub open spec fn names_nfkc_casefold(n: Seq<char>) -> bool {
    n == seq!['n', 'f', 'k', 'c', 'c', 'a', 's', 'e', 'f', 'o', 'l', 'd'] || n == seq!['n', 'f', 'k', 'c', 'c', 'f']
}

fn is_names_nfkc_casefold(n: &[char]) -> (r: bool)
    ensures
        r == names_nfkc_casefold(n@),
{
    let w0: [char; 12] = ['n', 'f', 'k', 'c', 'c', 'a', 's', 'e', 'f', 'o', 'l', 'd'];
    assert(w0@ =~= seq!['n', 'f', 'k', 'c', 'c', 'a', 's', 'e', 'f', 'o', 'l', 'd']);
    let w1: [char; 6] = ['n', 'f', 'k', 'c', 'c', 'f'];
    assert(w1@ =~= seq!['n', 'f', 'k', 'c', 'c', 'f']);
    chars_eq(n, &w0) || chars_eq(n, &w1)
}

/// The normalized names of the property NFKC_Quick_Check.
pub open spec fn names_nfkc_quick_check(n: Seq<char>) -> bool {
    n == seq!['n', 'f', 'k', 'c', 'q', 'c'] || n == seq!['n', 'f', 'k', 'c', 'q', 'u', 'i', 'c', 'k', 'c', 'h', 'e', 'c', 'k']
}

fn is_names_nfkc_quick_check(n: &[char]) -> (r: bool)
    ensures
        r == names_nfkc_quick_check(n@),
{
    let w0: [char; 6] = ['n', 'f', 'k', 'c', 'q', 'c'];
    assert(w0@ =~= seq!['n', 'f', 'k', 'c', 'q', 'c']);
    let w1: [char; 14] = ['n', 'f', 'k', 'c', 'q', 'u', 'i', 'c', 'k', 'c', 'h', 'e', 'c', 'k'];
    assert(w1@ =~= seq!['n', 'f', 'k', 'c', 'q', 'u', 'i', 'c', 'k', 'c', 'h', 'e', 'c', 'k']);
    chars_eq(n, &w0) || chars_eq(n, &w1)
}

/// The normalized names of the property NFKC_Simple_Casefold.
pub open spec fn names_nfkc_simple_casefold(n: Seq<char>) -> bool {
    n == seq!['n', 'f', 'k', 'c', 's', 'c', 'f'] || n == seq!['n', 'f', 'k', 'c', 's', 'i', 'm', 'p', 'l', 'e', 'c', 'a', 's', 'e', 'f', 'o', 'l', 'd']
}

fn is_names_nfkc_simple_casefold(n: &[char]) -> (r: bool)
    ensures
        r == names_nfkc_simple_casefold(n@),
{
    let w0: [char; 7] = ['n', 'f', 'k', 'c', 's', 'c', 'f'];
    assert(w0@ =~= seq!['n', 'f', 'k', 'c', 's', 'c', 'f']);
    let w1: [char; 18] = ['n', 'f', 'k', 'c', 's', 'i', 'm', 'p', 'l', 'e', 'c', 'a', 's', 'e', 'f', 'o', 'l', 'd'];
    assert(w1@ =~= seq!['n', 'f', 'k', 'c', 's', 'i', 'm', 'p', 'l', 'e', 'c', 'a', 's', 'e', 'f', 'o', 'l', 'd']);
    chars_eq(n, &w0) || chars_eq(n, &w1)
}

/// The normalized names of the property NFKD_Quick_Check.
pub open spec fn names_nfkd_quick_check(n: Seq<char>) -> bool {
    n == seq!['n', 'f', 'k', 'd', 'q', 'c'] || n == seq!['n', 'f', 'k', 'd', 'q', 'u', 'i', 'c', 'k', 'c', 'h', 'e', 'c', 'k']
}

fn is_names_nfkd_quick_check(n: &[char]) -> (r: bool)
    ensures
        r == names_nfkd_quick_check(n@),
{
    let w0: [char; 6] = ['n', 'f', 'k', 'd', 'q', 'c'];
    assert(w0@ =~= seq!['n', 'f', 'k', 'd', 'q', 'c']);
    let w1: [char; 14] = ['n', 'f', 'k', 'd', 'q', 'u', 'i', 'c', 'k', 'c', 'h', 'e', 'c', 'k'];
    assert(w1@ =~= seq!['n', 'f', 'k', 'd', 'q', 'u', 'i', 'c', 'k', 'c', 'h', 'e', 'c', 'k']);
    chars_eq(n, &w0) || chars_eq(n, &w1)
}

/// The normalized names of the property Numeric_Type.
pub open spec fn names_numeric_type(n: Seq<char>) -> bool {
    n == seq!['n', 't'] || n == seq!['n', 'u', 'm', 'e', 'r', 'i', 'c', 't', 'y', 'p', 'e']
}

fn is_names_numeric_type(n: &[char]) -> (r: bool)
    ensures
        r == names_numeric_type(n@),
{
    let w0: [char; 2] = ['n', 't'];
    assert(w0@ =~= seq!['n', 't']);
    let w1: [char; 11] = ['n', 'u', 'm', 'e', 'r', 'i', 'c', 't', 'y', 'p', 'e'];
    assert(w1@ =~= seq!['n', 'u', 'm', 'e', 'r', 'i', 'c', 't', 'y', 'p', 'e']);
    chars_eq(n, &w0) || chars_eq(n, &w1)
}

/// The normalized names of the property Numeric_Value.
pub open spec fn names_numeric_value(n: Seq<char>) -> bool {
    n == seq!['n', 'u', 'm', 'e', 'r', 'i', 'c', 'v', 'a', 'l', 'u', 'e'] || n == seq!['n', 'v']
}

fn is_names_numeric_value(n: &[char]) -> (r: bool)
    ensures
        r == names_numeric_value(n@),
{
    let w0: [char; 12] = ['n', 'u', 'm', 'e', 'r', 'i', 'c', 'v', 'a', 'l', 'u', 'e'];
    assert(w0@ =~= seq!['n', 'u', 'm', 'e', 'r', 'i', 'c', 'v', 'a', 'l', 'u', 'e']);
    let w1: [char; 2] = ['n', 'v'];
    assert(w1@ =~= seq!['n', 'v']);
    chars_eq(n, &w0) || chars_eq(n, &w1)
}

/// The normalized names of the property Other_Alphabetic.
pub open spec fn names_other_alphabetic(n: Seq<char>) -> bool {
    n == seq!['o', 'a', 'l', 'p', 'h', 'a'] || n == seq!['o', 't', 'h', 'e', 'r', 'a', 'l', 'p', 'h', 'a', 'b', 'e', 't', 'i', 'c']
}

fn is_names_other_alphabetic(n: &[char]) -> (r: bool)
    ensures
        r == names_other_alphabetic(n@),
{
    let w0: [char; 6] = ['o', 'a', 'l', 'p', 'h', 'a'];
    assert(w0@ =~= seq!['o', 'a', 'l', 'p', 'h', 'a']);
    let w1: [char; 15] = ['o', 't', 'h', 'e', 'r', 'a', 'l', 'p', 'h', 'a', 'b', 'e', 't', 'i', 'c'];
    assert(w1@ =~= seq!['o', 't', 'h', 'e', 'r', 'a', 'l', 'p', 'h', 'a', 'b', 'e', 't', 'i', 'c']);
    chars_eq(n, &w0) || chars_eq(n, &w1)
}

/// The normalized names of the property Other_Default_Ignorable_Code_Point.
pub open spec fn names_other_default_ignorable_code_point(n: Seq<char>) -> bool {
    n == seq!['o', 'd', 'i'] || n == seq!['o', 't', 'h', 'e', 'r', 'd', 'e', 'f', 'a', 'u', 'l', 't', 'i', 'g', 'n', 'o', 'r', 'a', 'b', 'l', 'e', 'c', 'o', 'd', 'e', 'p', 'o', 'i', 'n', 't']
}

fn is_names_other_default_ignorable_code_point(n: &[char]) -> (r: bool)
    ensures
        r == names_other_default_ignorable_code_point(n@),
{
    let w0: [char; 3] = ['o', 'd', 'i'];
    assert(w0@ =~= seq!['o', 'd', 'i']);
    let w1: [char; 30] = ['o', 't', 'h', 'e', 'r', 'd', 'e', 'f', 'a', 'u', 'l', 't', 'i', 'g', 'n', 'o', 'r', 'a', 'b', 'l', 'e', 'c', 'o', 'd', 'e', 'p', 'o', 'i', 'n', 't'];
    assert(w1@ =~= seq!['o', 't', 'h', 'e', 'r', 'd', 'e', 'f', 'a', 'u', 'l', 't', 'i', 'g', 'n', 'o', 'r', 'a', 'b', 'l', 'e', 'c', 'o', 'd', 'e', 'p', 'o', 'i', 'n', 't']);
    chars_eq(n, &w0) || chars_eq(n, &w1)
}

/// The normalized names of the property Other_Grapheme_Extend.
pub open spec fn names_other_grapheme_extend(n: Seq<char>) -> bool {
    n == seq!['o', 'g', 'r', 'e', 'x', 't'] || n == seq!['o', 't', 'h', 'e', 'r', 'g', 'r', 'a', 'p', 'h', 'e', 'm', 'e', 'e', 'x', 't', 'e', 'n', 'd']
}

fn is_names_other_grapheme_extend(n: &[char]) -> (r: bool)
    ensures
        r == names_other_grapheme_extend(n@),
{
    let w0: [char; 6] = ['o', 'g', 'r', 'e', 'x', 't'];
    assert(w0@ =~= seq!['o', 'g', 'r', 'e', 'x', 't']);
    let w1: [char; 19] = ['o', 't', 'h', 'e', 'r', 'g', 'r', 'a', 'p', 'h', 'e', 'm', 'e', 'e', 'x', 't', 'e', 'n', 'd'];
    assert(w1@ =~= seq!['o', 't', 'h', 'e', 'r', 'g', 'r', 'a', 'p', 'h', 'e', 'm', 'e', 'e', 'x', 't', 'e', 'n', 'd']);
    chars_eq(n, &w0) || chars_eq(n, &w1)
}

/// The normalized names of the property Other_ID_Continue.
pub open spec fn names_other_id_continue(n: Seq<char>) -> bool {
    n == seq!['o', 'i', 'd', 'c'] || n == seq!['o', 't', 'h', 'e', 'r', 'i', 'd', 'c', 'o', 'n', 't', 'i', 'n', 'u', 'e']
}

fn is_names_other_id_continue(n: &[char]) -> (r: bool)
    ensures
        r == names_other_id_continue(n@),
{
    let w0: [char; 4] = ['o', 'i', 'd', 'c'];
    assert(w0@ =~= seq!['o', 'i', 'd', 'c']);
    let w1: [char; 15] = ['o', 't', 'h', 'e', 'r', 'i', 'd', 'c', 'o', 'n', 't', 'i', 'n', 'u', 'e'];
    assert(w1@ =~= seq!['o', 't', 'h', 'e', 'r', 'i', 'd', 'c', 'o', 'n', 't', 'i', 'n', 'u', 'e']);
    chars_eq(n, &w0) || chars_eq(n, &w1)
}

/// The normalized names of the property Other_ID_Start.
pub open spec fn names_other_id_start(n: Seq<char>) -> bool {
    n == seq!['o', 'i', 'd', 's'] || n == seq!['o', 't', 'h', 'e', 'r', 'i', 'd', 's', 't', 'a', 'r', 't']
}

fn is_names_other_id_start(n: &[char]) -> (r: bool)
    ensures
        r == names_other_id_start(n@),
{
    let w0: [char; 4] = ['o', 'i', 'd', 's'];
    assert(w0@ =~= seq!['o', 'i', 'd', 's']);
    let w1: [char; 12] = ['o', 't', 'h', 'e', 'r', 'i', 'd', 's', 't', 'a', 'r', 't'];
    assert(w1@ =~= seq!['o', 't', 'h', 'e', 'r', 'i', 'd', 's', 't', 'a', 'r', 't']);
    chars_eq(n, &w0) || chars_eq(n, &w1)
}

/// The normalized names of the property Other_Lowercase.
pub open spec fn names_other_lowercase(n: Seq<char>) -> bool {
    n == seq!['o', 'l', 'o', 'w', 'e', 'r'] || n == seq!['o', 't', 'h', 'e', 'r', 'l', 'o', 'w', 'e', 'r', 'c', 'a', 's', 'e']
}

fn is_names_other_lowercase(n: &[char]) -> (r: bool)
    ensures
        r == names_other_lowercase(n@),
{
    let w0: [char; 6] = ['o', 'l', 'o', 'w', 'e', 'r'];
    assert(w0@ =~= seq!['o', 'l', 'o', 'w', 'e', 'r']);
    let w1: [char; 14] = ['o', 't', 'h', 'e', 'r', 'l', 'o', 'w', 'e', 'r', 'c', 'a', 's', 'e'];
    assert(w1@ =~= seq!['o', 't', 'h', 'e', 'r', 'l', 'o', 'w', 'e', 'r', 'c', 'a', 's', 'e']);
    chars_eq(n, &w0) || chars_eq(n, &w1)
}

/// The normalized names of the property Other_Math.
pub open spec fn names_other_math(n: Seq<char>) -> bool {
    n == seq!['o', 'm', 'a', 't', 'h'] || n == seq!['o', 't', 'h', 'e', 'r', 'm', 'a', 't', 'h']
}

fn is_names_other_math(n: &[char]) -> (r: bool)
    ensures
        r == names_other_math(n@),
{
    let w0: [char; 5] = ['o', 'm', 'a', 't', 'h'];
    assert(w0@ =~= seq!['o', 'm', 'a', 't', 'h']);
    let w1: [char; 9] = ['o', 't', 'h', 'e', 'r', 'm', 'a', 't', 'h'];
    assert(w1@ =~= seq!['o', 't', 'h', 'e', 'r', 'm', 'a', 't', 'h']);
    chars_eq(n, &w0) || chars_eq(n, &w1)
}

/// The normalized names of the property Other_Uppercase.
pub open spec fn names_other_uppercase(n: Seq<char>) -> bool {
    n == seq!['o', 't', 'h', 'e', 'r', 'u', 'p', 'p', 'e', 'r', 'c', 'a', 's', 'e'] || n == seq!['o', 'u', 'p', 'p', 'e', 'r']
}

fn is_names_other_uppercase(n: &[char]) -> (r: bool)
    ensures
        r == names_other_uppercase(n@),
{
    let w0: [char; 14] = ['o', 't', 'h', 'e', 'r', 'u', 'p', 'p', 'e', 'r', 'c', 'a', 's', 'e'];
    assert(w0@ =~= seq!['o', 't', 'h', 'e', 'r', 'u', 'p', 'p', 'e', 'r', 'c', 'a', 's', 'e']);
    let w1: [char; 6] = ['o', 'u', 'p', 'p', 'e', 'r'];
    assert(w1@ =~= seq!['o', 'u', 'p', 'p', 'e', 'r']);
    chars_eq(n, &w0) || chars_eq(n, &w1)
}

/// The normalized names of the property Pattern_Syntax.
pub open spec fn names_pattern_syntax(n: Seq<char>) -> bool {
    n == seq!['p', 'a', 't', 's', 'y', 'n'] || n == seq!['p', 'a', 't', 't', 'e', 'r', 'n', 's', 'y', 'n', 't', 'a', 'x']
}

fn is_names_pattern_syntax(n: &[char]) -> (r: bool)
    ensures
        r == names_pattern_syntax(n@),
{
    let w0: [char; 6] = ['p', 'a', 't', 's', 'y', 'n'];
    assert(w0@ =~= seq!['p', 'a', 't', 's', 'y', 'n']);
    let w1: [char; 13] = ['p', 'a', 't', 't', 'e', 'r', 'n', 's', 'y', 'n', 't', 'a', 'x'];
    assert(w1@ =~= seq!['p', 'a', 't', 't', 'e', 'r', 'n', 's', 'y', 'n', 't', 'a', 'x']);
    chars_eq(n, &w0) || chars_eq(n, &w1)
}

/// The normalized names of the property Pattern_White_Space.
pub open spec fn names_pattern_white_space(n: Seq<char>) -> bool {
    n == seq!['p', 'a', 't', 't', 'e', 'r', 'n', 'w', 'h', 'i', 't', 'e', 's', 'p', 'a', 'c', 'e'] || n == seq!['p', 'a', 't', 'w', 's']
}

fn is_names_pattern_white_space(n: &[char]) -> (r: bool)
    ensures
        r == names_pattern_white_space(n@),
{
    let w0: [char; 17] = ['p', 'a', 't', 't', 'e', 'r', 'n', 'w', 'h', 'i', 't', 'e', 's', 'p', 'a', 'c', 'e'];
    assert(w0@ =~= seq!['p', 'a', 't', 't', 'e', 'r', 'n', 'w', 'h', 'i', 't', 'e', 's', 'p', 'a', 'c', 'e']);
    let w1: [char; 5] = ['p', 'a', 't', 'w', 's'];
    assert(w1@ =~= seq!['p', 'a', 't', 'w', 's']);
    chars_eq(n, &w0) || chars_eq(n, &w1)
}

/// The normalized names of the property Prepended_Concatenation_Mark.
pub open spec fn names_prepended_concatenation_mark(n: Seq<char>) -> bool {
    n == seq!['p', 'c', 'm'] || n == seq!['p', 'r', 'e', 'p', 'e', 'n', 'd', 'e', 'd', 'c', 'o', 'n', 'c', 'a', 't', 'e', 'n', 'a', 't', 'i', 'o', 'n', 'm', 'a', 'r', 'k']
}

fn is_names_prepended_concatenation_mark(n: &[char]) -> (r: bool)
    ensures
        r == names_prepended_concatenation_mark(n@),
{
    let w0: [char; 3] = ['p', 'c', 'm'];
    assert(w0@ =~= seq!['p', 'c', 'm']);
    let w1: [char; 26] = ['p', 'r', 'e', 'p', 'e', 'n', 'd', 'e', 'd', 'c', 'o', 'n', 'c', 'a', 't', 'e', 'n', 'a', 't', 'i', 'o', 'n', 'm', 'a', 'r', 'k'];
    assert(w1@ =~= seq!['p', 'r', 'e', 'p', 'e', 'n', 'd', 'e', 'd', 'c', 'o', 'n', 'c', 'a', 't', 'e', 'n', 'a', 't', 'i', 'o', 'n', 'm', 'a', 'r', 'k']);
    chars_eq(n, &w0) || chars_eq(n, &w1)
}

/// The normalized names of the property Quotation_Mark.
pub open spec fn names_quotation_mark(n: Seq<char>) -> bool {
    n == seq!['q', 'm', 'a', 'r', 'k'] || n == seq!['q', 'u', 'o', 't', 'a', 't', 'i', 'o', 'n', 'm', 'a', 'r', 'k']
}

fn is_names_quotation_mark(n: &[char]) -> (r: bool)
    ensures
        r == names_quotation_mark(n@),
{
    let w0: [char; 5] = ['q', 'm', 'a', 'r', 'k'];
    assert(w0@ =~= seq!['q', 'm', 'a', 'r', 'k']);
    let w1: [char; 13] = ['q', 'u', 'o', 't', 'a', 't', 'i', 'o', 'n', 'm', 'a', 'r', 'k'];
    assert(w1@ =~= seq!['q', 'u', 'o', 't', 'a', 't', 'i', 'o', 'n', 'm', 'a', 'r', 'k']);
    chars_eq(n, &w0) || chars_eq(n, &w1)
}

/// The normalized names of the property Radical.
pub open spec fn names_radical(n: Seq<char>) -> bool {
    n == seq!['r', 'a', 'd', 'i', 'c', 'a', 'l']
}

fn is_names_radical(n: &[char]) -> (r: bool)
    ensures
        r == names_radical(n@),
{
    let w0: [char; 7] = ['r', 'a', 'd', 'i', 'c', 'a', 'l'];
    assert(w0@ =~= seq!['r', 'a', 'd', 'i', 'c', 'a', 'l']);
    chars_eq(n, &w0)
}

/// The normalized names of the property Regional_Indicator.
pub open spec fn names_regional_indicator(n: Seq<char>) -> bool {
    n == seq!['r', 'e', 'g', 'i', 'o', 'n', 'a', 'l', 'i', 'n', 'd', 'i', 'c', 'a', 't', 'o', 'r'] || n == seq!['r', 'i']
}

fn is_names_regional_indicator(n: &[char]) -> (r: bool)
    ensures
        r == names_regional_indicator(n@),
{
    let w0: [char; 17] = ['r', 'e', 'g', 'i', 'o', 'n', 'a', 'l', 'i', 'n', 'd', 'i', 'c', 'a', 't', 'o', 'r'];
    assert(w0@ =~= seq!['r', 'e', 'g', 'i', 'o', 'n', 'a', 'l', 'i', 'n', 'd', 'i', 'c', 'a', 't', 'o', 'r']);
    let w1: [char; 2] = ['r', 'i'];
    assert(w1@ =~= seq!['r', 'i']);
    chars_eq(n, &w0) || chars_eq(n, &w1)
}

/// The normalized names of the property Sentence_Break.
pub open spec fn names_sentence_break(n: Seq<char>) -> bool {
    n == seq!['s', 'b'] || n == seq!['s', 'e', 'n', 't', 'e', 'n', 'c', 'e', 'b', 'r', 'e', 'a', 'k']
}

fn is_names_sentence_break(n: &[char]) -> (r: bool)
    ensures
        r == names_sentence_break(n@),
{
    let w0: [char; 2] = ['s', 'b'];
    assert(w0@ =~= seq!['s', 'b']);
    let w1: [char; 13] = ['s', 'e', 'n', 't', 'e', 'n', 'c', 'e', 'b', 'r', 'e', 'a', 'k'];
    assert(w1@ =~= seq!['s', 'e', 'n', 't', 'e', 'n', 'c', 'e', 'b', 'r', 'e', 'a', 'k']);
    chars_eq(n, &w0) || chars_eq(n, &w1)
}

/// The normalized names of the property Script.
pub open spec fn names_script(n: Seq<char>) -> bool {
    n == seq!['s', 'c'] || n == seq!['s', 'c', 'r', 'i', 'p', 't']
}

fn is_names_script(n: &[char]) -> (r: bool)
    ensures
        r == names_script(n@),
{
    let w0: [char; 2] = ['s', 'c'];
    assert(w0@ =~= seq!['s', 'c']);
    let w1: [char; 6] = ['s', 'c', 'r', 'i', 'p', 't'];
    assert(w1@ =~= seq!['s', 'c', 'r', 'i', 'p', 't']);
    chars_eq(n, &w0) || chars_eq(n, &w1)
}

/// The normalized names of the property Simple_Case_Folding.
pub open spec fn names_simple_case_folding(n: Seq<char>) -> bool {
    n == seq!['s', 'c', 'f'] || n == seq!['s', 'f', 'c'] || n == seq!['s', 'i', 'm', 'p', 'l', 'e', 'c', 'a', 's', 'e', 'f', 'o', 'l', 'd', 'i', 'n', 'g']
}

fn is_names_simple_case_folding(n: &[char]) -> (r: bool)
    ensures
        r == names_simple_case_folding(n@),
{
    let w0: [char; 3] = ['s', 'c', 'f'];
    assert(w0@ =~= seq!['s', 'c', 'f']);
    let w1: [char; 3] = ['s', 'f', 'c'];
    assert(w1@ =~= seq!['s', 'f', 'c']);
    let w2: [char; 17] = ['s', 'i', 'm', 'p', 'l', 'e', 'c', 'a', 's', 'e', 'f', 'o', 'l', 'd', 'i', 'n', 'g'];
    assert(w2@ =~= seq!['s', 'i', 'm', 'p', 'l', 'e', 'c', 'a', 's', 'e', 'f', 'o', 'l', 'd', 'i', 'n', 'g']);
    chars_eq(n, &w0) || chars_eq(n, &w1) || chars_eq(n, &w2)
}

/// The normalized names of the property Script_Extensions.
pub open spec fn names_script_extensions(n: Seq<char>) -> bool {
    n == seq!['s', 'c', 'r', 'i', 'p', 't', 'e', 'x', 't', 'e', 'n', 's', 'i', 'o', 'n', 's'] || n == seq!['s', 'c', 'x']
}

fn is_names_script_extensions(n: &[char]) -> (r: bool)
    ensures
        r == names_script_extensions(n@),
{
    let w0: [char; 16] = ['s', 'c', 'r', 'i', 'p', 't', 'e', 'x', 't', 'e', 'n', 's', 'i', 'o', 'n', 's'];
    assert(w0@ =~= seq!['s', 'c', 'r', 'i', 'p', 't', 'e', 'x', 't', 'e', 'n', 's', 'i', 'o', 'n', 's']);
    let w1: [char; 3] = ['s', 'c', 'x'];
    assert(w1@ =~= seq!['s', 'c', 'x']);
    chars_eq(n, &w0) || chars_eq(n, &w1)
}

/// The normalized names of the property Soft_Dotted.
pub open spec fn names_soft_dotted(n: Seq<char>) -> bool {
    n == seq!['s', 'd'] || n == seq!['s', 'o', 'f', 't', 'd', 'o', 't', 't', 'e', 'd']
}

fn is_names_soft_dotted(n: &[char]) -> (r: bool)
    ensures
        r == names_soft_dotted(n@),
{
    let w0: [char; 2] = ['s', 'd'];
    assert(w0@ =~= seq!['s', 'd']);
    let w1: [char; 10] = ['s', 'o', 'f', 't', 'd', 'o', 't', 't', 'e', 'd'];
    assert(w1@ =~= seq!['s', 'o', 'f', 't', 'd', 'o', 't', 't', 'e', 'd']);
    chars_eq(n, &w0) || chars_eq(n, &w1)
}

/// The normalized names of the property Sentence_Terminal.
pub open spec fn names_sentence_terminal(n: Seq<char>) -> bool {
    n == seq!['s', 'e', 'n', 't', 'e', 'n', 'c', 'e', 't', 'e', 'r', 'm', 'i', 'n', 'a', 'l'] || n == seq!['s', 't', 'e', 'r', 'm']
}

fn is_names_sentence_terminal(n: &[char]) -> (r: bool)
    ensures
        r == names_sentence_terminal(n@),
{
    let w0: [char; 16] = ['s', 'e', 'n', 't', 'e', 'n', 'c', 'e', 't', 'e', 'r', 'm', 'i', 'n', 'a', 'l'];
    assert(w0@ =~= seq!['s', 'e', 'n', 't', 'e', 'n', 'c', 'e', 't', 'e', 'r', 'm', 'i', 'n', 'a', 'l']);
    let w1: [char; 5] = ['s', 't', 'e', 'r', 'm'];
    assert(w1@ =~= seq!['s', 't', 'e', 'r', 'm']);
    chars_eq(n, &w0) || chars_eq(n, &w1)
}

/// The normalized names of the property Simple_Lowercase_Mapping.
pub open spec fn names_simple_lowercase_mapping(n: Seq<char>) -> bool {
    n == seq!['s', 'i', 'm', 'p', 'l', 'e', 'l', 'o', 'w', 'e', 'r', 'c', 'a', 's', 'e', 'm', 'a', 'p', 'p', 'i', 'n', 'g'] || n == seq!['s', 'l', 'c']
}

fn is_names_simple_lowercase_mapping(n: &[char]) -> (r: bool)
    ensures
        r == names_simple_lowercase_mapping(n@),
{
    let w0: [char; 22] = ['s', 'i', 'm', 'p', 'l', 'e', 'l', 'o', 'w', 'e', 'r', 'c', 'a', 's', 'e', 'm', 'a', 'p', 'p', 'i', 'n', 'g'];
    assert(w0@ =~= seq!['s', 'i', 'm', 'p', 'l', 'e', 'l', 'o', 'w', 'e', 'r', 'c', 'a', 's', 'e', 'm', 'a', 'p', 'p', 'i', 'n', 'g']);
    let w1: [char; 3] = ['s', 'l', 'c'];
    assert(w1@ =~= seq!['s', 'l', 'c']);
    chars_eq(n, &w0) || chars_eq(n, &w1)
}

/// The normalized names of the property Simple_Titlecase_Mapping.
pub open spec fn names_simple_titlecase_mapping(n: Seq<char>) -> bool {
    n == seq!['s', 'i', 'm', 'p', 'l', 'e', 't', 'i', 't', 'l', 'e', 'c', 'a', 's', 'e', 'm', 'a', 'p', 'p', 'i', 'n', 'g'] || n == seq!['s', 't', 'c']
}

fn is_names_simple_titlecase_mapping(n: &[char]) -> (r: bool)
    ensures
        r == names_simple_titlecase_mapping(n@),
{
    let w0: [char; 22] = ['s', 'i', 'm', 'p', 'l', 'e', 't', 'i', 't', 'l', 'e', 'c', 'a', 's', 'e', 'm', 'a', 'p', 'p', 'i', 'n', 'g'];
    assert(w0@ =~= seq!['s', 'i', 'm', 'p', 'l', 'e', 't', 'i', 't', 'l', 'e', 'c', 'a', 's', 'e', 'm', 'a', 'p', 'p', 'i', 'n', 'g']);
    let w1: [char; 3] = ['s', 't', 'c'];
    assert(w1@ =~= seq!['s', 't', 'c']);
    chars_eq(n, &w0) || chars_eq(n, &w1)
}

/// The normalized names of the property Simple_Uppercase_Mapping.
pub open spec fn names_simple_uppercase_mapping(n: Seq<char>) -> bool {
    n == seq!['s', 'i', 'm', 'p', 'l', 'e', 'u', 'p', 'p', 'e', 'r', 'c', 'a', 's', 'e', 'm', 'a', 'p', 'p', 'i', 'n', 'g'] || n == seq!['s', 'u', 'c']
}

fn is_names_simple_uppercase_mapping(n: &[char]) -> (r: bool)
    ensures
        r == names_simple_uppercase_mapping(n@),
{
    let w0: [char; 22] = ['s', 'i', 'm', 'p', 'l', 'e', 'u', 'p', 'p', 'e', 'r', 'c', 'a', 's', 'e', 'm', 'a', 'p', 'p', 'i', 'n', 'g'];
    assert(w0@ =~= seq!['s', 'i', 'm', 'p', 'l', 'e', 'u', 'p', 'p', 'e', 'r', 'c', 'a', 's', 'e', 'm', 'a', 'p', 'p', 'i', 'n', 'g']);
    let w1: [char; 3] = ['s', 'u', 'c'];
    assert(w1@ =~= seq!['s', 'u', 'c']);
    chars_eq(n, &w0) || chars_eq(n, &w1)
}

/// The normalized names of the property White_Space.
pub open spec fn names_white_space(n: Seq<char>) -> bool {
    n == seq!['s', 'p', 'a', 'c', 'e'] || n == seq!['w', 'h', 'i', 't', 'e', 's', 'p', 'a', 'c', 'e'] || n == seq!['w', 's', 'p', 'a', 'c', 'e']
}

fn is_names_white_space(n: &[char]) -> (r: bool)
    ensures
        r == names_white_space(n@),
{
    let w0: [char; 5] = ['s', 'p', 'a', 'c', 'e'];
    assert(w0@ =~= seq!['s', 'p', 'a', 'c', 'e']);
    let w1: [char; 10] = ['w', 'h', 'i', 't', 'e', 's', 'p', 'a', 'c', 'e'];
    assert(w1@ =~= seq!['w', 'h', 'i', 't', 'e', 's', 'p', 'a', 'c', 'e']);
    let w2: [char; 6] = ['w', 's', 'p', 'a', 'c', 'e'];
    assert(w2@ =~= seq!['w', 's', 'p', 'a', 'c', 'e']);
    chars_eq(n, &w0) || chars_eq(n, &w1) || chars_eq(n, &w2)
}

/// The normalized names of the property Titlecase_Mapping.
pub open spec fn names_titlecase_mapping(n: Seq<char>) -> bool {
    n == seq!['t', 'c'] || n == seq!['t', 'i', 't', 'l', 'e', 'c', 'a', 's', 'e', 'm', 'a', 'p', 'p', 'i', 'n', 'g']
}

fn is_names_titlecase_mapping(n: &[char]) -> (r: bool)
    ensures
        r == names_titlecase_mapping(n@),
{
    let w0: [char; 2] = ['t', 'c'];
    assert(w0@ =~= seq!['t', 'c']);
    let w1: [char; 16] = ['t', 'i', 't', 'l', 'e', 'c', 'a', 's', 'e', 'm', 'a', 'p', 'p', 'i', 'n', 'g'];
    assert(w1@ =~= seq!['t', 'i', 't', 'l', 'e', 'c', 'a', 's', 'e', 'm', 'a', 'p', 'p', 'i', 'n', 'g']);
    chars_eq(n, &w0) || chars_eq(n, &w1)
}

/// The normalized names of the property Terminal_Punctuation.
pub open spec fn names_terminal_punctuation(n: Seq<char>) -> bool {
    n == seq!['t', 'e', 'r', 'm'] || n == seq!['t', 'e', 'r', 'm', 'i', 'n', 'a', 'l', 'p', 'u', 'n', 'c', 't', 'u', 'a', 't', 'i', 'o', 'n']
}

fn is_names_terminal_punctuation(n: &[char]) -> (r: bool)
    ensures
        r == names_terminal_punctuation(n@),
{
    let w0: [char; 4] = ['t', 'e', 'r', 'm'];
    assert(w0@ =~= seq!['t', 'e', 'r', 'm']);
    let w1: [char; 19] = ['t', 'e', 'r', 'm', 'i', 'n', 'a', 'l', 'p', 'u', 'n', 'c', 't', 'u', 'a', 't', 'i', 'o', 'n'];
    assert(w1@ =~= seq!['t', 'e', 'r', 'm', 'i', 'n', 'a', 'l', 'p', 'u', 'n', 'c', 't', 'u', 'a', 't', 'i', 'o', 'n']);
    chars_eq(n, &w0) || chars_eq(n, &w1)
}

/// The normalized names of the property Uppercase_Mapping.
pub open spec fn names_uppercase_mapping(n: Seq<char>) -> bool {
    n == seq!['u', 'c'] || n == seq!['u', 'p', 'p', 'e', 'r', 'c', 'a', 's', 'e', 'm', 'a', 'p', 'p', 'i', 'n', 'g']
}

fn is_names_uppercase_mapping(n: &[char]) -> (r: bool)
    ensures
        r == names_uppercase_mapping(n@),
{
    let w0: [char; 2] = ['u', 'c'];
    assert(w0@ =~= seq!['u', 'c']);
    let w1: [char; 16] = ['u', 'p', 'p', 'e', 'r', 'c', 'a', 's', 'e', 'm', 'a', 'p', 'p', 'i', 'n', 'g'];
    assert(w1@ =~= seq!['u', 'p', 'p', 'e', 'r', 'c', 'a', 's', 'e', 'm', 'a', 'p', 'p', 'i', 'n', 'g']);
    chars_eq(n, &w0) || chars_eq(n, &w1)
}

/// The normalized names of the property Unified_Ideograph.
pub open spec fn names_unified_ideograph(n: Seq<char>) -> bool {
    n == seq!['u', 'i', 'd', 'e', 'o'] || n == seq!['u', 'n', 'i', 'f', 'i', 'e', 'd', 'i', 'd', 'e', 'o', 'g', 'r', 'a', 'p', 'h']
}

fn is_names_unified_ideograph(n: &[char]) -> (r: bool)
    ensures
        r == names_unified_ideograph(n@),
{
    let w0: [char; 5] = ['u', 'i', 'd', 'e', 'o'];
    assert(w0@ =~= seq!['u', 'i', 'd', 'e', 'o']);
    let w1: [char; 16] = ['u', 'n', 'i', 'f', 'i', 'e', 'd', 'i', 'd', 'e', 'o', 'g', 'r', 'a', 'p', 'h'];
    assert(w1@ =~= seq!['u', 'n', 'i', 'f', 'i', 'e', 'd', 'i', 'd', 'e', 'o', 'g', 'r', 'a', 'p', 'h']);
    chars_eq(n, &w0) || chars_eq(n, &w1)
}

/// The normalized names of the property Uppercase.
pub open spec fn names_uppercase(n: Seq<char>) -> bool {
    n == seq!['u', 'p', 'p', 'e', 'r'] || n == seq!['u', 'p', 'p', 'e', 'r', 'c', 'a', 's', 'e']
}

fn is_names_uppercase(n: &[char]) -> (r: bool)
    ensures
        r == names_uppercase(n@),
{
    let w0: [char; 5] = ['u', 'p', 'p', 'e', 'r'];
    assert(w0@ =~= seq!['u', 'p', 'p', 'e', 'r']);
    let w1: [char; 9] = ['u', 'p', 'p', 'e', 'r', 'c', 'a', 's', 'e'];
    assert(w1@ =~= seq!['u', 'p', 'p', 'e', 'r', 'c', 'a', 's', 'e']);
    chars_eq(n, &w0) || chars_eq(n, &w1)
}

/// The normalized names of the property Variation_Selector.
pub open spec fn names_variation_selector(n: Seq<char>) -> bool {
    n == seq!['v', 'a', 'r', 'i', 'a', 't', 'i', 'o', 'n', 's', 'e', 'l', 'e', 'c', 't', 'o', 'r'] || n == seq!['v', 's']
}

fn is_names_variation_selector(n: &[char]) -> (r: bool)
    ensures
        r == names_variation_selector(n@),
{
    let w0: [char; 17] = ['v', 'a', 'r', 'i', 'a', 't', 'i', 'o', 'n', 's', 'e', 'l', 'e', 'c', 't', 'o', 'r'];
    assert(w0@ =~= seq!['v', 'a', 'r', 'i', 'a', 't', 'i', 'o', 'n', 's', 'e', 'l', 'e', 'c', 't', 'o', 'r']);
    let w1: [char; 2] = ['v', 's'];
    assert(w1@ =~= seq!['v', 's']);
    chars_eq(n, &w0) || chars_eq(n, &w1)
}

/// The normalized names of the property Vertical_Orientation.
pub open spec fn names_vertical_orientation(n: Seq<char>) -> bool {
    n == seq!['v', 'e', 'r', 't', 'i', 'c', 'a', 'l', 'o', 'r', 'i', 'e', 'n', 't', 'a', 't', 'i', 'o', 'n'] || n == seq!['v', 'o']
}

fn is_names_vertical_orientation(n: &[char]) -> (r: bool)
    ensures
        r == names_vertical_orientation(n@),
{
    let w0: [char; 19] = ['v', 'e', 'r', 't', 'i', 'c', 'a', 'l', 'o', 'r', 'i', 'e', 'n', 't', 'a', 't', 'i', 'o', 'n'];
    assert(w0@ =~= seq!['v', 'e', 'r', 't', 'i', 'c', 'a', 'l', 'o', 'r', 'i', 'e', 'n', 't', 'a', 't', 'i', 'o', 'n']);
    let w1: [char; 2] = ['v', 'o'];
    assert(w1@ =~= seq!['v', 'o']);
    chars_eq(n, &w0) || chars_eq(n, &w1)
}

/// The normalized names of the property Word_Break.
pub open spec fn names_word_break(n: Seq<char>) -> bool {
    n == seq!['w', 'b'] || n == seq!['w', 'o', 'r', 'd', 'b', 'r', 'e', 'a', 'k']
}

fn is_names_word_break(n: &[char]) -> (r: bool)
    ensures
        r == names_word_break(n@),
{
    let w0: [char; 2] = ['w', 'b'];
    assert(w0@ =~= seq!['w', 'b']);
    let w1: [char; 9] = ['w', 'o', 'r', 'd', 'b', 'r', 'e', 'a', 'k'];
    assert(w1@ =~= seq!['w', 'o', 'r', 'd', 'b', 'r', 'e', 'a', 'k']);
    chars_eq(n, &w0) || chars_eq(n, &w1)
}

/// The normalized names of the property XID_Continue.
pub open spec fn names_xid_continue(n: Seq<char>) -> bool {
    n == seq!['x', 'i', 'd', 'c'] || n == seq!['x', 'i', 'd', 'c', 'o', 'n', 't', 'i', 'n', 'u', 'e']
}

fn is_names_xid_continue(n: &[char]) -> (r: bool)
    ensures
        r == names_xid_continue(n@),
{
    let w0: [char; 4] = ['x', 'i', 'd', 'c'];
    assert(w0@ =~= seq!['x', 'i', 'd', 'c']);
    let w1: [char; 11] = ['x', 'i', 'd', 'c', 'o', 'n', 't', 'i', 'n', 'u', 'e'];
    assert(w1@ =~= seq!['x', 'i', 'd', 'c', 'o', 'n', 't', 'i', 'n', 'u', 'e']);
    chars_eq(n, &w0) || chars_eq(n, &w1)
}

/// The normalized names of the property XID_Start.
pub open spec fn names_xid_start(n: Seq<char>) -> bool {
    n == seq!['x', 'i', 'd', 's'] || n == seq!['x', 'i', 'd', 's', 't', 'a', 'r', 't']
}

fn is_names_xid_start(n: &[char]) -> (r: bool)
    ensures
        r == names_xid_start(n@),
{
    let w0: [char; 4] = ['x', 'i', 'd', 's'];
    assert(w0@ =~= seq!['x', 'i', 'd', 's']);
    let w1: [char; 8] = ['x', 'i', 'd', 's', 't', 'a', 'r', 't'];
    assert(w1@ =~= seq!['x', 'i', 'd', 's', 't', 'a', 'r', 't']);
    chars_eq(n, &w0) || chars_eq(n, &w1)
}

/// The property that a normalized name names.
pub open spec fn prop_by_name(n: Seq<char>) -> Option<PropName> {
    if false {
        None
    } else if names_age(n) {
        Some(PropName::Valued)
    } else if names_ascii_hex_digit(n) {
        Some(PropName::Bool(BoolProp::ASCIIHexDigit))
    } else if names_alphabetic(n) {
        Some(PropName::Bool(BoolProp::Alphabetic))
    } else if names_bidi_class(n) {
        Some(PropName::Other)
    } else if names_bidi_control(n) {
        Some(PropName::Bool(BoolProp::BidiControl))
    } else if names_bidi_mirrored(n) {
        Some(PropName::Bool(BoolProp::BidiMirrored))
    } else if names_bidi_mirroring_glyph(n) {
        Some(PropName::Other)
    } else if names_bidi_paired_bracket(n) {
        Some(PropName::Other)
    } else if names_bidi_paired_bracket_type(n) {
        Some(PropName::Other)
    } else if names_block(n) {
        Some(PropName::Other)
    } else if names_canonical_combining_class(n) {
        Some(PropName::Other)
    } else if names_cased(n) {
        Some(PropName::Bool(BoolProp::Cased))
    } else if names_case_folding(n) {
        Some(PropName::Other)
    } else if names_case_ignorable(n) {
        Some(PropName::Bool(BoolProp::CaseIgnorable))
    } else if names_composition_exclusion(n) {
        Some(PropName::Other)
    } else if names_changes_when_casefolded(n) {
        Some(PropName::Bool(BoolProp::ChangesWhenCasefolded))
    } else if names_changes_when_casemapped(n) {
        Some(PropName::Bool(BoolProp::ChangesWhenCasemapped))
    } else if names_changes_when_lowercased(n) {
        Some(PropName::Bool(BoolProp::ChangesWhenLowercased))
    } else if names_changes_when_nfkc_casefolded(n) {
        Some(PropName::Other)
    } else if names_changes_when_titlecased(n) {
        Some(PropName::Bool(BoolProp::ChangesWhenTitlecased))
    } else if names_changes_when_uppercased(n) {
        Some(PropName::Bool(BoolProp::ChangesWhenUppercased))
    } else if names_kaccountingnumeric(n) {
        Some(PropName::Other)
    } else if names_kcompatibilityvariant(n) {
        Some(PropName::Other)
    } else if names_kiicore(n) {
        Some(PropName::Other)
    } else if names_kirg_gsource(n) {
        Some(PropName::Other)
    } else if names_kirg_hsource(n) {
        Some(PropName::Other)
    } else if names_kirg_jsource(n) {
        Some(PropName::Other)
    } else if names_kirg_kpsource(n) {
        Some(PropName::Other)
    } else if names_kirg_ksource(n) {
        Some(PropName::Other)
    } else if names_kirg_msource(n) {
        Some(PropName::Other)
    } else if names_kirg_ssource(n) {
        Some(PropName::Other)
    } else if names_kirg_tsource(n) {
        Some(PropName::Other)
    } else if names_kirg_uksource(n) {
        Some(PropName::Other)
    } else if names_kirg_usource(n) {
        Some(PropName::Other)
    } else if names_kirg_vsource(n) {
        Some(PropName::Other)
    } else if names_kothernumeric(n) {
        Some(PropName::Other)
    } else if names_kprimarynumeric(n) {
        Some(PropName::Other)
    } else if names_krsunicode(n) {
        Some(PropName::Other)
    } else if names_full_composition_exclusion(n) {
        Some(PropName::Other)
    } else if names_dash(n) {
        Some(PropName::Bool(BoolProp::Dash))
    } else if names_decomposition_mapping(n) {
        Some(PropName::Other)
    } else if names_decomposition_type(n) {
        Some(PropName::Other)
    } else if names_default_ignorable_code_point(n) {
        Some(PropName::Bool(BoolProp::DefaultIgnorableCodePoint))
    } else if names_deprecated(n) {
        Some(PropName::Bool(BoolProp::Deprecated))
    } else if names_diacritic(n) {
        Some(PropName::Bool(BoolProp::Diacritic))
    } else if names_east_asian_width(n) {
        Some(PropName::Other)
    } else if names_emoji_modifier_base(n) {
        Some(PropName::Bool(BoolProp::EmojiModifierBase))
    } else if names_emoji_component(n) {
        Some(PropName::Bool(BoolProp::EmojiComponent))
    } else if names_emoji_modifier(n) {
        Some(PropName::Bool(BoolProp::EmojiModifier))
    } else if names_emoji(n) {
        Some(PropName::Bool(BoolProp::Emoji))
    } else if names_emoji_presentation(n) {
        Some(PropName::Bool(BoolProp::EmojiPresentation))
    } else if names_equivalent_unified_ideograph(n) {
        Some(PropName::Other)
    } else if names_expands_on_nfc(n) {
        Some(PropName::Other)
    } else if names_expands_on_nfd(n) {
        Some(PropName::Other)
    } else if names_expands_on_nfkc(n) {
        Some(PropName::Other)
    } else if names_expands_on_nfkd(n) {
        Some(PropName::Other)
    } else if names_extender(n) {
        Some(PropName::Bool(BoolProp::Extender))
    } else if names_extended_pictographic(n) {
        Some(PropName::Bool(BoolProp::ExtendedPictographic))
    } else if names_fc_nfkc_closure(n) {
        Some(PropName::Other)
    } else if names_general_category(n) {
        Some(PropName::Other)
    } else if names_grapheme_cluster_break(n) {
        Some(PropName::Valued)
    } else if names_grapheme_base(n) {
        Some(PropName::Bool(BoolProp::GraphemeBase))
    } else if names_grapheme_extend(n) {
        Some(PropName::Bool(BoolProp::GraphemeExtend))
    } else if names_grapheme_link(n) {
        Some(PropName::Bool(BoolProp::GraphemeLink))
    } else if names_hangul_syllable_type(n) {
        Some(PropName::Other)
    } else if names_hex_digit(n) {
        Some(PropName::Bool(BoolProp::HexDigit))
    } else if names_hyphen(n) {
        Some(PropName::Bool(BoolProp::Hyphen))
    } else if names_id_continue(n) {
        Some(PropName::Bool(BoolProp::IDContinue))
    } else if names_id_compat_math_continue(n) {
        Some(PropName::Bool(BoolProp::IDCompatMathContinue))
    } else if names_id_compat_math_start(n) {
        Some(PropName::Bool(BoolProp::IDCompatMathStart))
    } else if names_ideographic(n) {
        Some(PropName::Bool(BoolProp::Ideographic))
    } else if names_id_start(n) {
        Some(PropName::Bool(BoolProp::IDStart))
    } else if names_ids_binary_operator(n) {
        Some(PropName::Bool(BoolProp::IDSBinaryOperator))
    } else if names_ids_trinary_operator(n) {
        Some(PropName::Bool(BoolProp::IDSTrinaryOperator))
    } else if names_ids_unary_operator(n) {
        Some(PropName::Bool(BoolProp::IDSUnaryOperator))
    } else if names_indic_conjunct_break(n) {
        Some(PropName::Other)
    } else if names_indic_positional_category(n) {
        Some(PropName::Other)
    } else if names_indic_syllabic_category(n) {
        Some(PropName::Other)
    } else if names_iso_comment(n) {
        Some(PropName::Other)
    } else if names_jamo_short_name(n) {
        Some(PropName::Other)
    } else if names_joining_group(n) {
        Some(PropName::Other)
    } else if names_join_control(n) {
        Some(PropName::Bool(BoolProp::JoinControl))
    } else if names_joining_type(n) {
        Some(PropName::Other)
    } else if names_keh_cat(n) {
        Some(PropName::Other)
    } else if names_keh_desc(n) {
        Some(PropName::Other)
    } else if names_keh_hg(n) {
        Some(PropName::Other)
    } else if names_keh_ifao(n) {
        Some(PropName::Other)
    } else if names_keh_jsesh(n) {
        Some(PropName::Other)
    } else if names_keh_nomirror(n) {
        Some(PropName::Other)
    } else if names_keh_norotate(n) {
        Some(PropName::Other)
    } else if names_line_break(n) {
        Some(PropName::Other)
    } else if names_lowercase_mapping(n) {
        Some(PropName::Other)
    } else if names_logical_order_exception(n) {
        Some(PropName::Bool(BoolProp::LogicalOrderException))
    } else if names_lowercase(n) {
        Some(PropName::Bool(BoolProp::Lowercase))
    } else if names_math(n) {
        Some(PropName::Bool(BoolProp::Math))
    } else if names_modifier_combining_mark(n) {
        Some(PropName::Bool(BoolProp::ModifierCombiningMark))
    } else if names_name(n) {
        Some(PropName::Other)
    } else if names_unicode_1_name(n) {
        Some(PropName::Other)
    } else if names_name_alias(n) {
        Some(PropName::Other)
    } else if names_noncharacter_code_point(n) {
        Some(PropName::Bool(BoolProp::NoncharacterCodePoint))
    } else if names_nfc_quick_check(n) {
        Some(PropName::Other)
    } else if names_nfd_quick_check(n) {
        Some(PropName::Other)
    } else if names_nfkc_casefold(n) {
        Some(PropName::Other)
    } else if names_nfkc_quick_check(n) {
        Some(PropName::Other)
    } else if names_nfkc_simple_casefold(n) {
        Some(PropName::Other)
    } else if names_nfkd_quick_check(n) {
        Some(PropName::Other)
    } else if names_numeric_type(n) {
        Some(PropName::Other)
    } else if names_numeric_value(n) {
        Some(PropName::Other)
    } else if names_other_alphabetic(n) {
        Some(PropName::Bool(BoolProp::OtherAlphabetic))
    } else if names_other_default_ignorable_code_point(n) {
        Some(PropName::Bool(BoolProp::OtherDefaultIgnorableCodePoint))
    } else if names_other_grapheme_extend(n) {
        Some(PropName::Bool(BoolProp::OtherGraphemeExtend))
    } else if names_other_id_continue(n) {
        Some(PropName::Bool(BoolProp::OtherIDContinue))
    } else if names_other_id_start(n) {
        Some(PropName::Bool(BoolProp::OtherIDStart))
    } else if names_other_lowercase(n) {
        Some(PropName::Bool(BoolProp::OtherLowercase))
    } else if names_other_math(n) {
        Some(PropName::Bool(BoolProp::OtherMath))
    } else if names_other_uppercase(n) {
        Some(PropName::Bool(BoolProp::OtherUppercase))
    } else if names_pattern_syntax(n) {
        Some(PropName::Bool(BoolProp::PatternSyntax))
    } else if names_pattern_white_space(n) {
        Some(PropName::Bool(BoolProp::PatternWhiteSpace))
    } else if names_prepended_concatenation_mark(n) {
        Some(PropName::Bool(BoolProp::PrependedConcatenationMark))
    } else if names_quotation_mark(n) {
        Some(PropName::Bool(BoolProp::QuotationMark))
    } else if names_radical(n) {
        Some(PropName::Bool(BoolProp::Radical))
    } else if names_regional_indicator(n) {
        Some(PropName::Bool(BoolProp::RegionalIndicator))
    } else if names_sentence_break(n) {
        Some(PropName::Valued)
    } else if names_script(n) {
        Some(PropName::Other)
    } else if names_simple_case_folding(n) {
        Some(PropName::Other)
    } else if names_script_extensions(n) {
        Some(PropName::Valued)
    } else if names_soft_dotted(n) {
        Some(PropName::Bool(BoolProp::SoftDotted))
    } else if names_sentence_terminal(n) {
        Some(PropName::Bool(BoolProp::SentenceTerminal))
    } else if names_simple_lowercase_mapping(n) {
        Some(PropName::Other)
    } else if names_simple_titlecase_mapping(n) {
        Some(PropName::Other)
    } else if names_simple_uppercase_mapping(n) {
        Some(PropName::Other)
    } else if names_white_space(n) {
        Some(PropName::WhiteSpace)
    } else if names_titlecase_mapping(n) {
        Some(PropName::Other)
    } else if names_terminal_punctuation(n) {
        Some(PropName::Bool(BoolProp::TerminalPunctuation))
    } else if names_uppercase_mapping(n) {
        Some(PropName::Other)
    } else if names_unified_ideograph(n) {
        Some(PropName::Bool(BoolProp::UnifiedIdeograph))
    } else if names_uppercase(n) {
        Some(PropName::Bool(BoolProp::Uppercase))
    } else if names_variation_selector(n) {
        Some(PropName::Bool(BoolProp::VariationSelector))
    } else if names_vertical_orientation(n) {
        Some(PropName::Other)
    } else if names_word_break(n) {
        Some(PropName::Valued)
    } else if names_xid_continue(n) {
        Some(PropName::Bool(BoolProp::XIDContinue))
    } else if names_xid_start(n) {
        Some(PropName::Bool(BoolProp::XIDStart))
    } else {
        None
    }
}

/// See `prop_by_name`.
pub fn prop_lookup(n: &[char]) -> (r: Option<PropName>)
    ensures
        r == prop_by_name(n@),
{
    if is_names_age(n) {
        return Some(PropName::Valued);
    }
    if is_names_ascii_hex_digit(n) {
        return Some(PropName::Bool(BoolProp::ASCIIHexDigit));
    }
    if is_names_alphabetic(n) {
        return Some(PropName::Bool(BoolProp::Alphabetic));
    }
    if is_names_bidi_class(n) {
        return Some(PropName::Other);
    }
    if is_names_bidi_control(n) {
        return Some(PropName::Bool(BoolProp::BidiControl));
    }
    if is_names_bidi_mirrored(n) {
        return Some(PropName::Bool(BoolProp::BidiMirrored));
    }
    if is_names_bidi_mirroring_glyph(n) {
        return Some(PropName::Other);
    }
    if is_names_bidi_paired_bracket(n) {
        return Some(PropName::Other);
    }
    if is_names_bidi_paired_bracket_type(n) {
        return Some(PropName::Other);
    }
    if is_names_block(n) {
        return Some(PropName::Other);
    }
    if is_names_canonical_combining_class(n) {
        return Some(PropName::Other);
    }
    if is_names_cased(n) {
        return Some(PropName::Bool(BoolProp::Cased));
    }
    if is_names_case_folding(n) {
        return Some(PropName::Other);
    }
    if is_names_case_ignorable(n) {
        return Some(PropName::Bool(BoolProp::CaseIgnorable));
    }
    if is_names_composition_exclusion(n) {
        return Some(PropName::Other);
    }
    if is_names_changes_when_casefolded(n) {
        return Some(PropName::Bool(BoolProp::ChangesWhenCasefolded));
    }
    if is_names_changes_when_casemapped(n) {
        return Some(PropName::Bool(BoolProp::ChangesWhenCasemapped));
    }
    if is_names_changes_when_lowercased(n) {
        return Some(PropName::Bool(BoolProp::ChangesWhenLowercased));
    }
    if is_names_changes_when_nfkc_casefolded(n) {
        return Some(PropName::Other);
    }
    if is_names_changes_when_titlecased(n) {
        return Some(PropName::Bool(BoolProp::ChangesWhenTitlecased));
    }
    if is_names_changes_when_uppercased(n) {
        return Some(PropName::Bool(BoolProp::ChangesWhenUppercased));
    }
    if is_names_kaccountingnumeric(n) {
        return Some(PropName::Other);
    }
    if is_names_kcompatibilityvariant(n) {
        return Some(PropName::Other);
    }
    if is_names_kiicore(n) {
        return Some(PropName::Other);
    }
    if is_names_kirg_gsource(n) {
        return Some(PropName::Other);
    }
    if is_names_kirg_hsource(n) {
        return Some(PropName::Other);
    }
    if is_names_kirg_jsource(n) {
        return Some(PropName::Other);
    }
    if is_names_kirg_kpsource(n) {
        return Some(PropName::Other);
    }
    if is_names_kirg_ksource(n) {
        return Some(PropName::Other);
    }
    if is_names_kirg_msource(n) {
        return Some(PropName::Other);
    }
    if is_names_kirg_ssource(n) {
        return Some(PropName::Other);
    }
    if is_names_kirg_tsource(n) {
        return Some(PropName::Other);
    }
    if is_names_kirg_uksource(n) {
        return Some(PropName::Other);
    }
    if is_names_kirg_usource(n) {
        return Some(PropName::Other);
    }
    if is_names_kirg_vsource(n) {
        return Some(PropName::Other);
    }
    if is_names_kothernumeric(n) {
        return Some(PropName::Other);
    }
    if is_names_kprimarynumeric(n) {
        return Some(PropName::Other);
    }
    if is_names_krsunicode(n) {
        return Some(PropName::Other);
    }
    if is_names_full_composition_exclusion(n) {
        return Some(PropName::Other);
    }
    if is_names_dash(n) {
        return Some(PropName::Bool(BoolProp::Dash));
    }
    if is_names_decomposition_mapping(n) {
        return Some(PropName::Other);
    }
    if is_names_decomposition_type(n) {
        return Some(PropName::Other);
    }
    if is_names_default_ignorable_code_point(n) {
        return Some(PropName::Bool(BoolProp::DefaultIgnorableCodePoint));
    }
    if is_names_deprecated(n) {
        return Some(PropName::Bool(BoolProp::Deprecated));
    }
    if is_names_diacritic(n) {
        return Some(PropName::Bool(BoolProp::Diacritic));
    }
    if is_names_east_asian_width(n) {
        return Some(PropName::Other);
    }
    if is_names_emoji_modifier_base(n) {
        return Some(PropName::Bool(BoolProp::EmojiModifierBase));
    }
    if is_names_emoji_component(n) {
        return Some(PropName::Bool(BoolProp::EmojiComponent));
    }
    if is_names_emoji_modifier(n) {
        return Some(PropName::Bool(BoolProp::EmojiModifier));
    }
    if is_names_emoji(n) {
        return Some(PropName::Bool(BoolProp::Emoji));
    }
    if is_names_emoji_presentation(n) {
        return Some(PropName::Bool(BoolProp::EmojiPresentation));
    }
    if is_names_equivalent_unified_ideograph(n) {
        return Some(PropName::Other);
    }
    if is_names_expands_on_nfc(n) {
        return Some(PropName::Other);
    }
    if is_names_expands_on_nfd(n) {
        return Some(PropName::Other);
    }
    if is_names_expands_on_nfkc(n) {
        return Some(PropName::Other);
    }
    if is_names_expands_on_nfkd(n) {
        return Some(PropName::Other);
    }
    if is_names_extender(n) {
        return Some(PropName::Bool(BoolProp::Extender));
    }
    if is_names_extended_pictographic(n) {
        return Some(PropName::Bool(BoolProp::ExtendedPictographic));
    }
    if is_names_fc_nfkc_closure(n) {
        return Some(PropName::Other);
    }
    if is_names_general_category(n) {
        return Some(PropName::Other);
    }
    if is_names_grapheme_cluster_break(n) {
        return Some(PropName::Valued);
    }
    if is_names_grapheme_base(n) {
        return Some(PropName::Bool(BoolProp::GraphemeBase));
    }
    if is_names_grapheme_extend(n) {
        return Some(PropName::Bool(BoolProp::GraphemeExtend));
    }
    if is_names_grapheme_link(n) {
        return Some(PropName::Bool(BoolProp::GraphemeLink));
    }
    if is_names_hangul_syllable_type(n) {
        return Some(PropName::Other);
    }
    if is_names_hex_digit(n) {
        return Some(PropName::Bool(BoolProp::HexDigit));
    }
    if is_names_hyphen(n) {
        return Some(PropName::Bool(BoolProp::Hyphen));
    }
    if is_names_id_continue(n) {
        return Some(PropName::Bool(BoolProp::IDContinue));
    }
    if is_names_id_compat_math_continue(n) {
        return Some(PropName::Bool(BoolProp::IDCompatMathContinue));
    }
    if is_names_id_compat_math_start(n) {
        return Some(PropName::Bool(BoolProp::IDCompatMathStart));
    }
    if is_names_ideographic(n) {
        return Some(PropName::Bool(BoolProp::Ideographic));
    }
    if is_names_id_start(n) {
        return Some(PropName::Bool(BoolProp::IDStart));
    }
    if is_names_ids_binary_operator(n) {
        return Some(PropName::Bool(BoolProp::IDSBinaryOperator));
    }
    if is_names_ids_trinary_operator(n) {
        return Some(PropName::Bool(BoolProp::IDSTrinaryOperator));
    }
    if is_names_ids_unary_operator(n) {
        return Some(PropName::Bool(BoolProp::IDSUnaryOperator));
    }
    if is_names_indic_conjunct_break(n) {
        return Some(PropName::Other);
    }
    if is_names_indic_positional_category(n) {
        return Some(PropName::Other);
    }
    if is_names_indic_syllabic_category(n) {
        return Some(PropName::Other);
    }
    if is_names_iso_comment(n) {
        return Some(PropName::Other);
    }
    if is_names_jamo_short_name(n) {
        return Some(PropName::Other);
    }
    if is_names_joining_group(n) {
        return Some(PropName::Other);
    }
    if is_names_join_control(n) {
        return Some(PropName::Bool(BoolProp::JoinControl));
    }
    if is_names_joining_type(n) {
        return Some(PropName::Other);
    }
    if is_names_keh_cat(n) {
        return Some(PropName::Other);
    }
    if is_names_keh_desc(n) {
        return Some(PropName::Other);
    }
    if is_names_keh_hg(n) {
        return Some(PropName::Other);
    }
    if is_names_keh_ifao(n) {
        return Some(PropName::Other);
    }
    if is_names_keh_jsesh(n) {
        return Some(PropName::Other);
    }
    if is_names_keh_nomirror(n) {
        return Some(PropName::Other);
    }
    if is_names_keh_norotate(n) {
        return Some(PropName::Other);
    }
    if is_names_line_break(n) {
        return Some(PropName::Other);
    }
    if is_names_lowercase_mapping(n) {
        return Some(PropName::Other);
    }
    if is_names_logical_order_exception(n) {
        return Some(PropName::Bool(BoolProp::LogicalOrderException));
    }
    if is_names_lowercase(n) {
        return Some(PropName::Bool(BoolProp::Lowercase));
    }
    if is_names_math(n) {
        return Some(PropName::Bool(BoolProp::Math));
    }
    if is_names_modifier_combining_mark(n) {
        return Some(PropName::Bool(BoolProp::ModifierCombiningMark));
    }
    if is_names_name(n) {
        return Some(PropName::Other);
    }
    if is_names_unicode_1_name(n) {
        return Some(PropName::Other);
    }
    if is_names_name_alias(n) {
        return Some(PropName::Other);
    }
    if is_names_noncharacter_code_point(n) {
        return Some(PropName::Bool(BoolProp::NoncharacterCodePoint));
    }
    if is_names_nfc_quick_check(n) {
        return Some(PropName::Other);
    }
    if is_names_nfd_quick_check(n) {
        return Some(PropName::Other);
    }
    if is_names_nfkc_casefold(n) {
        return Some(PropName::Other);
    }
    if is_names_nfkc_quick_check(n) {
        return Some(PropName::Other);
    }
    if is_names_nfkc_simple_casefold(n) {
        return Some(PropName::Other);
    }
    if is_names_nfkd_quick_check(n) {
        return Some(PropName::Other);
    }
    if is_names_numeric_type(n) {
        return Some(PropName::Other);
    }
    if is_names_numeric_value(n) {
        return Some(PropName::Other);
    }
    if is_names_other_alphabetic(n) {
        return Some(PropName::Bool(BoolProp::OtherAlphabetic));
    }
    if is_names_other_default_ignorable_code_point(n) {
        return Some(PropName::Bool(BoolProp::OtherDefaultIgnorableCodePoint));
    }
    if is_names_other_grapheme_extend(n) {
        return Some(PropName::Bool(BoolProp::OtherGraphemeExtend));
    }
    if is_names_other_id_continue(n) {
        return Some(PropName::Bool(BoolProp::OtherIDContinue));
    }
    if is_names_other_id_start(n) {
        return Some(PropName::Bool(BoolProp::OtherIDStart));
    }
    if is_names_other_lowercase(n) {
        return Some(PropName::Bool(BoolProp::OtherLowercase));
    }
    if is_names_other_math(n) {
        return Some(PropName::Bool(BoolProp::OtherMath));
    }
    if is_names_other_uppercase(n) {
        return Some(PropName::Bool(BoolProp::OtherUppercase));
    }
    if is_names_pattern_syntax(n) {
        return Some(PropName::Bool(BoolProp::PatternSyntax));
    }
    if is_names_pattern_white_space(n) {
        return Some(PropName::Bool(BoolProp::PatternWhiteSpace));
    }
    if is_names_prepended_concatenation_mark(n) {
        return Some(PropName::Bool(BoolProp::PrependedConcatenationMark));
    }
    if is_names_quotation_mark(n) {
        return Some(PropName::Bool(BoolProp::QuotationMark));
    }
    if is_names_radical(n) {
        return Some(PropName::Bool(BoolProp::Radical));
    }
    if is_names_regional_indicator(n) {
        return Some(PropName::Bool(BoolProp::RegionalIndicator));
    }
    if is_names_sentence_break(n) {
        return Some(PropName::Valued);
    }
    if is_names_script(n) {
        return Some(PropName::Other);
    }
    if is_names_simple_case_folding(n) {
        return Some(PropName::Other);
    }
    if is_names_script_extensions(n) {
        return Some(PropName::Valued);
    }
    if is_names_soft_dotted(n) {
        return Some(PropName::Bool(BoolProp::SoftDotted));
    }
    if is_names_sentence_terminal(n) {
        return Some(PropName::Bool(BoolProp::SentenceTerminal));
    }
    if is_names_simple_lowercase_mapping(n) {
        return Some(PropName::Other);
    }
    if is_names_simple_titlecase_mapping(n) {
        return Some(PropName::Other);
    }
    if is_names_simple_uppercase_mapping(n) {
        return Some(PropName::Other);
    }
    if is_names_white_space(n) {
        return Some(PropName::WhiteSpace);
    }
    if is_names_titlecase_mapping(n) {
        return Some(PropName::Other);
    }
    if is_names_terminal_punctuation(n) {
        return Some(PropName::Bool(BoolProp::TerminalPunctuation));
    }
    if is_names_uppercase_mapping(n) {
        return Some(PropName::Other);
    }
    if is_names_unified_ideograph(n) {
        return Some(PropName::Bool(BoolProp::UnifiedIdeograph));
    }
    if is_names_uppercase(n) {
        return Some(PropName::Bool(BoolProp::Uppercase));
    }
    if is_names_variation_selector(n) {
        return Some(PropName::Bool(BoolProp::VariationSelector));
    }
    if is_names_vertical_orientation(n) {
        return Some(PropName::Other);
    }
    if is_names_word_break(n) {
        return Some(PropName::Valued);
    }
    if is_names_xid_continue(n) {
        return Some(PropName::Bool(BoolProp::XIDContinue));
    }
    if is_names_xid_start(n) {
        return Some(PropName::Bool(BoolProp::XIDStart));
    }
    None
}

} // verus!
