//! What the Unicode classes hold within ASCII, and the folding of ASCII
//! letters: the larger tables agree with the small ASCII facts that every
//! reader knows (`\p{Lu}` holds `A` to `Z`, `(?i)z` holds `Z`).
use vstd::prelude::*;
use crate::ranges::{SRange, contains, canonical, valid_cp, lemma_contains_concat, lemma_contains_lower, lemma_single};
use crate::tables::{PosixClass, UnicodeProp, unicode_ranges, lemma_unicode_canonical};
use crate::posixlaws::{in_posix, law_posix_classes};
use crate::fold::{fold_table, case_fold, law_case_fold};

verus! {

proof fn lemma_canonical_suffix(a: Seq<SRange>, b: Seq<SRange>)
    requires
        canonical(a + b),
    ensures
        canonical(b),
    decreases a.len(),
{
    if a.len() > 0 {
        assert((a + b).drop_first() =~= a.drop_first() + b);
        lemma_canonical_suffix(a.drop_first(), b);
    } else {
        assert(a + b =~= b);
    }
}

/// Below the start of its range `n`, a canonical class holds what its first
/// `n` ranges hold.
proof fn lemma_below(rs: Seq<SRange>, n: int, c: int)
    requires
        canonical(rs),
        0 < n < rs.len(),
        c < rs[n].0,
    ensures
        contains(rs, c) == contains(rs.subrange(0, n), c),
{
    let a = rs.subrange(0, n);
    let b = rs.skip(n);
    assert(rs =~= a + b);
    lemma_contains_concat(a, b, c);
    lemma_canonical_suffix(a, b);
    assert(b[0] == rs[n]);
    if contains(b, c) {
        lemma_contains_lower(b, c);
    }
}

proof fn lemma_two(x: SRange, y: SRange, c: int)
    ensures
        contains(seq![x, y], c) == (crate::ranges::in_range(x, c) || crate::ranges::in_range(y, c)),
{
    reveal_with_fuel(contains, 3);
}

proof fn lemma_four(x: SRange, y: SRange, z: SRange, u: SRange, c: int)
    ensures
        contains(seq![x, y, z, u], c) == (crate::ranges::in_range(x, c) || crate::ranges::in_range(
            y,
            c,
        ) || crate::ranges::in_range(z, c) || crate::ranges::in_range(u, c)),
{
    reveal_with_fuel(contains, 5);
}

proof fn lemma_one_range(rs: Seq<SRange>, r: SRange, next: int, c: int)
    requires
        canonical(rs),
        rs.len() > 1,
        rs[0] == r,
        rs[1].0 == next,
        c < next,
    ensures
        contains(rs, c) == crate::ranges::in_range(r, c),
{
    lemma_below(rs, 1, c);
    assert(rs.subrange(0, 1) =~= seq![r]);
    lemma_single(r);
}

proof fn lemma_two_ranges(rs: Seq<SRange>, r: SRange, s: SRange, next: int, c: int)
    requires
        canonical(rs),
        rs.len() > 2,
        rs[0] == r,
        rs[1] == s,
        rs[2].0 == next,
        c < next,
    ensures
        contains(rs, c) == (crate::ranges::in_range(r, c) || crate::ranges::in_range(s, c)),
{
    lemma_below(rs, 2, c);
    assert(rs.subrange(0, 2) =~= seq![r, s]);
    lemma_two(r, s, c);
}

#[verifier::rlimit(100)]
proof fn lemma_ascii_lu(c: int)
    requires
        c < 0x80,
    ensures
        contains(unicode_ranges(UnicodeProp::UppercaseLetter), c) == ('A' as int <= c <= 'Z' as int),
{
    lemma_unicode_canonical(UnicodeProp::UppercaseLetter);
    lemma_one_range(unicode_ranges(UnicodeProp::UppercaseLetter), (0x41, 0x5A), 0xC0, c);
}

#[verifier::rlimit(100)]
proof fn lemma_ascii_upper(c: int)
    requires
        c < 0x80,
    ensures
        contains(unicode_ranges(UnicodeProp::Bool(crate::boolprop::BoolProp::Uppercase)), c) == ('A' as int <= c <= 'Z' as int),
{
    lemma_unicode_canonical(UnicodeProp::Bool(crate::boolprop::BoolProp::Uppercase));
    lemma_one_range(unicode_ranges(UnicodeProp::Bool(crate::boolprop::BoolProp::Uppercase)), (0x41, 0x5A), 0xC0, c);
}

#[verifier::rlimit(100)]
proof fn lemma_ascii_ll(c: int)
    requires
        c < 0x80,
    ensures
        contains(unicode_ranges(UnicodeProp::LowercaseLetter), c) == ('a' as int <= c <= 'z' as int),
{
    lemma_unicode_canonical(UnicodeProp::LowercaseLetter);
    lemma_one_range(unicode_ranges(UnicodeProp::LowercaseLetter), (0x61, 0x7A), 0xB5, c);
}

#[verifier::rlimit(100)]
proof fn lemma_ascii_lower(c: int)
    requires
        c < 0x80,
    ensures
        contains(unicode_ranges(UnicodeProp::Bool(crate::boolprop::BoolProp::Lowercase)), c) == ('a' as int <= c <= 'z' as int),
{
    lemma_unicode_canonical(UnicodeProp::Bool(crate::boolprop::BoolProp::Lowercase));
    lemma_one_range(unicode_ranges(UnicodeProp::Bool(crate::boolprop::BoolProp::Lowercase)), (0x61, 0x7A), 0xAA, c);
}

#[verifier::rlimit(100)]
proof fn lemma_ascii_l(c: int)
    requires
        c < 0x80,
    ensures
        contains(unicode_ranges(UnicodeProp::Letter), c) == (('A' as int <= c <= 'Z' as int) || ('a' as int <= c <= 'z' as int)),
{
    lemma_unicode_canonical(UnicodeProp::Letter);
    lemma_two_ranges(unicode_ranges(UnicodeProp::Letter), (0x41, 0x5A), (0x61, 0x7A), 0xAA, c);
}

#[verifier::rlimit(100)]
proof fn lemma_ascii_alpha(c: int)
    requires
        c < 0x80,
    ensures
        contains(unicode_ranges(UnicodeProp::Bool(crate::boolprop::BoolProp::Alphabetic)), c) == (('A' as int <= c <= 'Z' as int) || ('a' as int <= c <= 'z' as int)),
{
    lemma_unicode_canonical(UnicodeProp::Bool(crate::boolprop::BoolProp::Alphabetic));
    lemma_two_ranges(unicode_ranges(UnicodeProp::Bool(crate::boolprop::BoolProp::Alphabetic)), (0x41, 0x5A), (0x61, 0x7A), 0xAA, c);
}

#[verifier::rlimit(100)]
proof fn lemma_ascii_nd(c: int)
    requires
        c < 0x80,
    ensures
        contains(unicode_ranges(UnicodeProp::DecimalNumber), c) == ('0' as int <= c <= '9' as int),
{
    lemma_unicode_canonical(UnicodeProp::DecimalNumber);
    lemma_one_range(unicode_ranges(UnicodeProp::DecimalNumber), (0x30, 0x39), 0x660, c);
}

#[verifier::rlimit(100)]
proof fn lemma_ascii_word(c: int)
    requires
        c < 0x80,
    ensures
        contains(crate::word::word_ranges(), c) == (('0' as int <= c <= '9' as int) || ('A' as int
            <= c <= 'Z' as int) || c == '_' as int || ('a' as int <= c <= 'z' as int)),
{
    let rs = crate::word::word_ranges();
    crate::word::lemma_word_canonical();
    assert(rs.len() > 4 && rs[4].0 == 0xAA);
    lemma_below(rs, 4, c);
    assert(rs.subrange(0, 4) =~= seq![(0x30int, 0x39int), (0x41int, 0x5Aint), (0x5Fint, 0x5Fint), (0x61int, 0x7Aint)]);
    lemma_four((0x30, 0x39), (0x41, 0x5A), (0x5F, 0x5F), (0x61, 0x7A), c);
}

/// Within ASCII, the Unicode classes are the POSIX classes: `\p{Lu}` and
/// `\p{Uppercase}` hold `[[:upper:]]`, `\p{Ll}` and `\p{Lowercase}` hold
/// `[[:lower:]]`, `\p{L}` and `\p{Alphabetic}` hold `[[:alpha:]]`, `\p{Nd}`
/// (`\d`) holds `[[:digit:]]`, and `\w` holds `[[:word:]]`.
pub proof fn law_ascii_part_of_unicode_classes(c: int)
    requires
        c < 0x80,
    ensures
        contains(unicode_ranges(UnicodeProp::UppercaseLetter), c) == in_posix(PosixClass::Upper, c),
        contains(unicode_ranges(UnicodeProp::Bool(crate::boolprop::BoolProp::Uppercase)), c)
            == in_posix(PosixClass::Upper, c),
        contains(unicode_ranges(UnicodeProp::LowercaseLetter), c) == in_posix(PosixClass::Lower, c),
        contains(unicode_ranges(UnicodeProp::Bool(crate::boolprop::BoolProp::Lowercase)), c)
            == in_posix(PosixClass::Lower, c),
        contains(unicode_ranges(UnicodeProp::Letter), c) == in_posix(PosixClass::Alpha, c),
        contains(unicode_ranges(UnicodeProp::Bool(crate::boolprop::BoolProp::Alphabetic)), c)
            == in_posix(PosixClass::Alpha, c),
        contains(unicode_ranges(UnicodeProp::DecimalNumber), c) == in_posix(PosixClass::Digit, c),
        contains(crate::word::word_ranges(), c) == in_posix(PosixClass::Word, c),
{
    law_posix_classes(c);
    lemma_ascii_lu(c);
    lemma_ascii_upper(c);
    lemma_ascii_ll(c);
    lemma_ascii_lower(c);
    lemma_ascii_l(c);
    lemma_ascii_alpha(c);
    lemma_ascii_nd(c);
    lemma_ascii_word(c);
}

/// `\p{Z}` is the union of `\p{Zs}`, `\p{Zl}` and `\p{Zp}`: a general
/// category holds exactly the characters of its subcategories.
pub proof fn law_separator_is_union(c: int)
    ensures
        contains(unicode_ranges(UnicodeProp::Separator), c) == (contains(
            unicode_ranges(UnicodeProp::SpaceSeparator),
            c,
        ) || contains(unicode_ranges(UnicodeProp::LineSeparator), c) || contains(
            unicode_ranges(UnicodeProp::ParagraphSeparator),
            c,
        )),
{
    reveal_with_fuel(contains, 9);
}

/// The first pairs of the folding table, those of the ASCII letters among
/// them.
pub open spec fn fold_head() -> Seq<(int, int)> {
    seq![(0x41int, 0x61int), (0x42int, 0x62int), (0x43int, 0x63int), (0x44int, 0x64int), (0x45int, 0x65int), (0x46int, 0x66int), (0x47int, 0x67int), (0x48int, 0x68int), (0x49int, 0x69int), (0x4Aint, 0x6Aint), (0x4Bint, 0x6Bint), (0x4Bint, 0x212Aint), (0x4Cint, 0x6Cint), (0x4Dint, 0x6Dint), (0x4Eint, 0x6Eint), (0x4Fint, 0x6Fint), (0x50int, 0x70int), (0x51int, 0x71int), (0x52int, 0x72int), (0x53int, 0x73int), (0x53int, 0x17Fint), (0x54int, 0x74int), (0x55int, 0x75int), (0x56int, 0x76int), (0x57int, 0x77int), (0x58int, 0x78int), (0x59int, 0x79int), (0x5Aint, 0x7Aint), (0x61int, 0x41int), (0x62int, 0x42int), (0x63int, 0x43int), (0x64int, 0x44int), (0x65int, 0x45int), (0x66int, 0x46int), (0x67int, 0x47int), (0x68int, 0x48int), (0x69int, 0x49int), (0x6Aint, 0x4Aint), (0x6Bint, 0x4Bint), (0x6Bint, 0x212Aint), (0x6Cint, 0x4Cint), (0x6Dint, 0x4Dint), (0x6Eint, 0x4Eint), (0x6Fint, 0x4Fint), (0x70int, 0x50int), (0x71int, 0x51int), (0x72int, 0x52int), (0x73int, 0x53int), (0x73int, 0x17Fint), (0x74int, 0x54int), (0x75int, 0x55int), (0x76int, 0x56int), (0x77int, 0x57int), (0x78int, 0x58int), (0x79int, 0x59int), (0x7Aint, 0x5Aint), (0xB5int, 0x39Cint), (0xB5int, 0x3BCint), (0xC0int, 0xE0int), (0xC1int, 0xE1int), (0xC2int, 0xE2int), (0xC3int, 0xE3int), (0xC4int, 0xE4int), (0xC5int, 0xE5int), (0xC5int, 0x212Bint), (0xC6int, 0xE6int), (0xC7int, 0xE7int), (0xC8int, 0xE8int), (0xC9int, 0xE9int), (0xCAint, 0xEAint), (0xCBint, 0xEBint), (0xCCint, 0xECint), (0xCDint, 0xEDint), (0xCEint, 0xEEint), (0xCFint, 0xEFint), (0xD0int, 0xF0int), (0xD1int, 0xF1int), (0xD2int, 0xF2int), (0xD3int, 0xF3int), (0xD4int, 0xF4int)]
}

proof fn lemma_block_head()
    ensures
        crate::fold::fold_block_0() == fold_head(),
{
    assert(crate::fold::fold_block_0() =~= fold_head());
}

proof fn lemma_prefix_kept(a: Seq<(int, int)>, b: Seq<(int, int)>)
    requires
        a.len() >= 80,
    ensures
        (a + b).len() >= 80,
        forall|i: int| 0 <= i < 80 ==> #[trigger] (a + b)[i] == a[i],
{
}

#[verifier::rlimit(100)]
proof fn lemma_fold_head()
    ensures
        fold_table().len() >= 80,
        forall|i: int| 0 <= i < 80 ==> fold_table()[i] == #[trigger] fold_head()[i],
{
    lemma_block_head();
    reveal(fold_table);
    let p0 = crate::fold::fold_block_0();
    let p1 = p0 + crate::fold::fold_block_1();
    lemma_prefix_kept(p0, crate::fold::fold_block_1());
    let p2 = p1 + crate::fold::fold_block_2();
    lemma_prefix_kept(p1, crate::fold::fold_block_2());
    let p3 = p2 + crate::fold::fold_block_3();
    lemma_prefix_kept(p2, crate::fold::fold_block_3());
    let p4 = p3 + crate::fold::fold_block_4();
    lemma_prefix_kept(p3, crate::fold::fold_block_4());
    let p5 = p4 + crate::fold::fold_block_5();
    lemma_prefix_kept(p4, crate::fold::fold_block_5());
    let p6 = p5 + crate::fold::fold_block_6();
    lemma_prefix_kept(p5, crate::fold::fold_block_6());
    let p7 = p6 + crate::fold::fold_block_7();
    lemma_prefix_kept(p6, crate::fold::fold_block_7());
    let p8 = p7 + crate::fold::fold_block_8();
    lemma_prefix_kept(p7, crate::fold::fold_block_8());
    let p9 = p8 + crate::fold::fold_block_9();
    lemma_prefix_kept(p8, crate::fold::fold_block_9());
    let p10 = p9 + crate::fold::fold_block_10();
    lemma_prefix_kept(p9, crate::fold::fold_block_10());
    let p11 = p10 + crate::fold::fold_block_11();
    lemma_prefix_kept(p10, crate::fold::fold_block_11());
    let p12 = p11 + crate::fold::fold_block_12();
    lemma_prefix_kept(p11, crate::fold::fold_block_12());
    let p13 = p12 + crate::fold::fold_block_13();
    lemma_prefix_kept(p12, crate::fold::fold_block_13());
    let p14 = p13 + crate::fold::fold_block_14();
    lemma_prefix_kept(p13, crate::fold::fold_block_14());
    let p15 = p14 + crate::fold::fold_block_15();
    lemma_prefix_kept(p14, crate::fold::fold_block_15());
    let p16 = p15 + crate::fold::fold_block_16();
    lemma_prefix_kept(p15, crate::fold::fold_block_16());
    let p17 = p16 + crate::fold::fold_block_17();
    lemma_prefix_kept(p16, crate::fold::fold_block_17());
    let p18 = p17 + crate::fold::fold_block_18();
    lemma_prefix_kept(p17, crate::fold::fold_block_18());
    let p19 = p18 + crate::fold::fold_block_19();
    lemma_prefix_kept(p18, crate::fold::fold_block_19());
    let p20 = p19 + crate::fold::fold_block_20();
    lemma_prefix_kept(p19, crate::fold::fold_block_20());
    let p21 = p20 + crate::fold::fold_block_21();
    lemma_prefix_kept(p20, crate::fold::fold_block_21());
    let p22 = p21 + crate::fold::fold_block_22();
    lemma_prefix_kept(p21, crate::fold::fold_block_22());
    let p23 = p22 + crate::fold::fold_block_23();
    lemma_prefix_kept(p22, crate::fold::fold_block_23());
    let p24 = p23 + crate::fold::fold_block_24();
    lemma_prefix_kept(p23, crate::fold::fold_block_24());
    let p25 = p24 + crate::fold::fold_block_25();
    lemma_prefix_kept(p24, crate::fold::fold_block_25());
    let p26 = p25 + crate::fold::fold_block_26();
    lemma_prefix_kept(p25, crate::fold::fold_block_26());
    let p27 = p26 + crate::fold::fold_block_27();
    lemma_prefix_kept(p26, crate::fold::fold_block_27());
    let p28 = p27 + crate::fold::fold_block_28();
    lemma_prefix_kept(p27, crate::fold::fold_block_28());
    let p29 = p28 + crate::fold::fold_block_29();
    lemma_prefix_kept(p28, crate::fold::fold_block_29());
    let p30 = p29 + crate::fold::fold_block_30();
    lemma_prefix_kept(p29, crate::fold::fold_block_30());
    let p31 = p30 + crate::fold::fold_block_31();
    lemma_prefix_kept(p30, crate::fold::fold_block_31());
    let p32 = p31 + crate::fold::fold_block_32();
    lemma_prefix_kept(p31, crate::fold::fold_block_32());
    let p33 = p32 + crate::fold::fold_block_33();
    lemma_prefix_kept(p32, crate::fold::fold_block_33());
    let p34 = p33 + crate::fold::fold_block_34();
    lemma_prefix_kept(p33, crate::fold::fold_block_34());
    let p35 = p34 + crate::fold::fold_block_35();
    lemma_prefix_kept(p34, crate::fold::fold_block_35());
    let p36 = p35 + crate::fold::fold_block_36();
    lemma_prefix_kept(p35, crate::fold::fold_block_36());
    let p37 = p36 + crate::fold::fold_block_37();
    lemma_prefix_kept(p36, crate::fold::fold_block_37());
    assert(fold_table() == p37);
}

/// A pair `(k, v)` of the folding table puts `v` in the folded class of `k`.
proof fn lemma_pair_folds(k: int, v: int, i: int)
    requires
        valid_cp(k),
        valid_cp(v),
        0 <= i < fold_table().len(),
        fold_table()[i] == (k, v),
    ensures
        contains(case_fold(seq![(k, k)]), v),
{
    lemma_single((k, k));
    law_case_fold(seq![(k, k)]);
    assert(fold_table()[i].1 == v && contains(seq![(k, k)], fold_table()[i].0));
}

/// Under `i`, every ASCII letter matches both of its cases: the folded class
/// of a small letter holds its capital, and the folded class of the capital
/// holds the small letter (`(?i)z` holds `Z` as `(?i)Z` holds `z`).
#[verifier::rlimit(100)]
pub proof fn law_case_fold_ascii_letters(c: int)
    requires
        'a' as int <= c <= 'z' as int,
    ensures
        contains(case_fold(seq![(c, c)]), c - 32),
        contains(case_fold(seq![(c - 32, c - 32)]), c),
{
    lemma_fold_head();
    if c == 0x61 {
        assert(fold_head()[28] == (0x61int, 0x41int));
        lemma_pair_folds(0x61, 0x41, 28);
        assert(fold_head()[0] == (0x41int, 0x61int));
        lemma_pair_folds(0x41, 0x61, 0);
    } else if c == 0x62 {
        assert(fold_head()[29] == (0x62int, 0x42int));
        lemma_pair_folds(0x62, 0x42, 29);
        assert(fold_head()[1] == (0x42int, 0x62int));
        lemma_pair_folds(0x42, 0x62, 1);
    } else if c == 0x63 {
        assert(fold_head()[30] == (0x63int, 0x43int));
        lemma_pair_folds(0x63, 0x43, 30);
        assert(fold_head()[2] == (0x43int, 0x63int));
        lemma_pair_folds(0x43, 0x63, 2);
    } else if c == 0x64 {
        assert(fold_head()[31] == (0x64int, 0x44int));
        lemma_pair_folds(0x64, 0x44, 31);
        assert(fold_head()[3] == (0x44int, 0x64int));
        lemma_pair_folds(0x44, 0x64, 3);
    } else if c == 0x65 {
        assert(fold_head()[32] == (0x65int, 0x45int));
        lemma_pair_folds(0x65, 0x45, 32);
        assert(fold_head()[4] == (0x45int, 0x65int));
        lemma_pair_folds(0x45, 0x65, 4);
    } else if c == 0x66 {
        assert(fold_head()[33] == (0x66int, 0x46int));
        lemma_pair_folds(0x66, 0x46, 33);
        assert(fold_head()[5] == (0x46int, 0x66int));
        lemma_pair_folds(0x46, 0x66, 5);
    } else if c == 0x67 {
        assert(fold_head()[34] == (0x67int, 0x47int));
        lemma_pair_folds(0x67, 0x47, 34);
        assert(fold_head()[6] == (0x47int, 0x67int));
        lemma_pair_folds(0x47, 0x67, 6);
    } else if c == 0x68 {
        assert(fold_head()[35] == (0x68int, 0x48int));
        lemma_pair_folds(0x68, 0x48, 35);
        assert(fold_head()[7] == (0x48int, 0x68int));
        lemma_pair_folds(0x48, 0x68, 7);
    } else if c == 0x69 {
        assert(fold_head()[36] == (0x69int, 0x49int));
        lemma_pair_folds(0x69, 0x49, 36);
        assert(fold_head()[8] == (0x49int, 0x69int));
        lemma_pair_folds(0x49, 0x69, 8);
    } else if c == 0x6A {
        assert(fold_head()[37] == (0x6Aint, 0x4Aint));
        lemma_pair_folds(0x6A, 0x4A, 37);
        assert(fold_head()[9] == (0x4Aint, 0x6Aint));
        lemma_pair_folds(0x4A, 0x6A, 9);
    } else if c == 0x6B {
        assert(fold_head()[38] == (0x6Bint, 0x4Bint));
        lemma_pair_folds(0x6B, 0x4B, 38);
        assert(fold_head()[10] == (0x4Bint, 0x6Bint));
        lemma_pair_folds(0x4B, 0x6B, 10);
    } else if c == 0x6C {
        assert(fold_head()[40] == (0x6Cint, 0x4Cint));
        lemma_pair_folds(0x6C, 0x4C, 40);
        assert(fold_head()[12] == (0x4Cint, 0x6Cint));
        lemma_pair_folds(0x4C, 0x6C, 12);
    } else if c == 0x6D {
        assert(fold_head()[41] == (0x6Dint, 0x4Dint));
        lemma_pair_folds(0x6D, 0x4D, 41);
        assert(fold_head()[13] == (0x4Dint, 0x6Dint));
        lemma_pair_folds(0x4D, 0x6D, 13);
    } else if c == 0x6E {
        assert(fold_head()[42] == (0x6Eint, 0x4Eint));
        lemma_pair_folds(0x6E, 0x4E, 42);
        assert(fold_head()[14] == (0x4Eint, 0x6Eint));
        lemma_pair_folds(0x4E, 0x6E, 14);
    } else if c == 0x6F {
        assert(fold_head()[43] == (0x6Fint, 0x4Fint));
        lemma_pair_folds(0x6F, 0x4F, 43);
        assert(fold_head()[15] == (0x4Fint, 0x6Fint));
        lemma_pair_folds(0x4F, 0x6F, 15);
    } else if c == 0x70 {
        assert(fold_head()[44] == (0x70int, 0x50int));
        lemma_pair_folds(0x70, 0x50, 44);
        assert(fold_head()[16] == (0x50int, 0x70int));
        lemma_pair_folds(0x50, 0x70, 16);
    } else if c == 0x71 {
        assert(fold_head()[45] == (0x71int, 0x51int));
        lemma_pair_folds(0x71, 0x51, 45);
        assert(fold_head()[17] == (0x51int, 0x71int));
        lemma_pair_folds(0x51, 0x71, 17);
    } else if c == 0x72 {
        assert(fold_head()[46] == (0x72int, 0x52int));
        lemma_pair_folds(0x72, 0x52, 46);
        assert(fold_head()[18] == (0x52int, 0x72int));
        lemma_pair_folds(0x52, 0x72, 18);
    } else if c == 0x73 {
        assert(fold_head()[47] == (0x73int, 0x53int));
        lemma_pair_folds(0x73, 0x53, 47);
        assert(fold_head()[19] == (0x53int, 0x73int));
        lemma_pair_folds(0x53, 0x73, 19);
    } else if c == 0x74 {
        assert(fold_head()[49] == (0x74int, 0x54int));
        lemma_pair_folds(0x74, 0x54, 49);
        assert(fold_head()[21] == (0x54int, 0x74int));
        lemma_pair_folds(0x54, 0x74, 21);
    } else if c == 0x75 {
        assert(fold_head()[50] == (0x75int, 0x55int));
        lemma_pair_folds(0x75, 0x55, 50);
        assert(fold_head()[22] == (0x55int, 0x75int));
        lemma_pair_folds(0x55, 0x75, 22);
    } else if c == 0x76 {
        assert(fold_head()[51] == (0x76int, 0x56int));
        lemma_pair_folds(0x76, 0x56, 51);
        assert(fold_head()[23] == (0x56int, 0x76int));
        lemma_pair_folds(0x56, 0x76, 23);
    } else if c == 0x77 {
        assert(fold_head()[52] == (0x77int, 0x57int));
        lemma_pair_folds(0x77, 0x57, 52);
        assert(fold_head()[24] == (0x57int, 0x77int));
        lemma_pair_folds(0x57, 0x77, 24);
    } else if c == 0x78 {
        assert(fold_head()[53] == (0x78int, 0x58int));
        lemma_pair_folds(0x78, 0x58, 53);
        assert(fold_head()[25] == (0x58int, 0x78int));
        lemma_pair_folds(0x58, 0x78, 25);
    } else if c == 0x79 {
        assert(fold_head()[54] == (0x79int, 0x59int));
        lemma_pair_folds(0x79, 0x59, 54);
        assert(fold_head()[26] == (0x59int, 0x79int));
        lemma_pair_folds(0x59, 0x79, 26);
    } else if c == 0x7A {
        assert(fold_head()[55] == (0x7Aint, 0x5Aint));
        lemma_pair_folds(0x7A, 0x5A, 55);
        assert(fold_head()[27] == (0x5Aint, 0x7Aint));
        lemma_pair_folds(0x5A, 0x7A, 27);
    }
}

} // verus!
