//! The general categories of Unicode 16.0 that `tables` does not spell out,
//! each as a canonical class, with the proof that it is canonical and the
//! executable table of its ranges.
use vstd::prelude::*;
use crate::ranges::{SRange, canonical};
use crate::class::{ClassUnicodeRange, rview, lemma_rview_push};
use crate::word::lemma_canonical_append;

verus! {

fn push_range(v: &mut Vec<ClassUnicodeRange>, a: char, b: char)
    ensures
        rview(final(v)@) == rview(old(v)@).push((a as int, b as int)),
{
    let r = ClassUnicodeRange { start: a, end: b };
    proof {
        lemma_rview_push(v@, r);
    }
    v.push(r);
}

pub open spec fn cased_letter_chunk_0() -> Seq<SRange> {
    seq![(0x41int, 0x5Aint), (0x61int, 0x7Aint), (0xB5int, 0xB5int), (0xC0int, 0xD6int), (0xD8int, 0xF6int), (0xF8int, 0x1BAint), (0x1BCint, 0x1BFint), (0x1C4int, 0x293int)]
}

pub open spec fn cased_letter_chunk_1() -> Seq<SRange> {
    seq![(0x295int, 0x2AFint), (0x370int, 0x373int), (0x376int, 0x377int), (0x37Bint, 0x37Dint), (0x37Fint, 0x37Fint), (0x386int, 0x386int), (0x388int, 0x38Aint), (0x38Cint, 0x38Cint)]
}

pub open spec fn cased_letter_chunk_2() -> Seq<SRange> {
    seq![(0x38Eint, 0x3A1int), (0x3A3int, 0x3F5int), (0x3F7int, 0x481int), (0x48Aint, 0x52Fint), (0x531int, 0x556int), (0x560int, 0x588int), (0x10A0int, 0x10C5int), (0x10C7int, 0x10C7int)]
}

pub open spec fn cased_letter_chunk_3() -> Seq<SRange> {
    seq![(0x10CDint, 0x10CDint), (0x10D0int, 0x10FAint), (0x10FDint, 0x10FFint), (0x13A0int, 0x13F5int), (0x13F8int, 0x13FDint), (0x1C80int, 0x1C8Aint), (0x1C90int, 0x1CBAint), (0x1CBDint, 0x1CBFint)]
}

pub open spec fn cased_letter_chunk_4() -> Seq<SRange> {
    seq![(0x1D00int, 0x1D2Bint), (0x1D6Bint, 0x1D77int), (0x1D79int, 0x1D9Aint), (0x1E00int, 0x1F15int), (0x1F18int, 0x1F1Dint), (0x1F20int, 0x1F45int), (0x1F48int, 0x1F4Dint), (0x1F50int, 0x1F57int)]
}

pub open spec fn cased_letter_chunk_5() -> Seq<SRange> {
    seq![(0x1F59int, 0x1F59int), (0x1F5Bint, 0x1F5Bint), (0x1F5Dint, 0x1F5Dint), (0x1F5Fint, 0x1F7Dint), (0x1F80int, 0x1FB4int), (0x1FB6int, 0x1FBCint), (0x1FBEint, 0x1FBEint), (0x1FC2int, 0x1FC4int)]
}

pub open spec fn cased_letter_chunk_6() -> Seq<SRange> {
    seq![(0x1FC6int, 0x1FCCint), (0x1FD0int, 0x1FD3int), (0x1FD6int, 0x1FDBint), (0x1FE0int, 0x1FECint), (0x1FF2int, 0x1FF4int), (0x1FF6int, 0x1FFCint), (0x2102int, 0x2102int), (0x2107int, 0x2107int)]
}

pub open spec fn cased_letter_chunk_7() -> Seq<SRange> {
    seq![(0x210Aint, 0x2113int), (0x2115int, 0x2115int), (0x2119int, 0x211Dint), (0x2124int, 0x2124int), (0x2126int, 0x2126int), (0x2128int, 0x2128int), (0x212Aint, 0x212Dint), (0x212Fint, 0x2134int)]
}

pub open spec fn cased_letter_chunk_8() -> Seq<SRange> {
    seq![(0x2139int, 0x2139int), (0x213Cint, 0x213Fint), (0x2145int, 0x2149int), (0x214Eint, 0x214Eint), (0x2183int, 0x2184int), (0x2C00int, 0x2C7Bint), (0x2C7Eint, 0x2CE4int), (0x2CEBint, 0x2CEEint)]
}

pub open spec fn cased_letter_chunk_9() -> Seq<SRange> {
    seq![(0x2CF2int, 0x2CF3int), (0x2D00int, 0x2D25int), (0x2D27int, 0x2D27int), (0x2D2Dint, 0x2D2Dint), (0xA640int, 0xA66Dint), (0xA680int, 0xA69Bint), (0xA722int, 0xA76Fint), (0xA771int, 0xA787int)]
}

pub open spec fn cased_letter_chunk_10() -> Seq<SRange> {
    seq![(0xA78Bint, 0xA78Eint), (0xA790int, 0xA7CDint), (0xA7D0int, 0xA7D1int), (0xA7D3int, 0xA7D3int), (0xA7D5int, 0xA7DCint), (0xA7F5int, 0xA7F6int), (0xA7FAint, 0xA7FAint), (0xAB30int, 0xAB5Aint)]
}

pub open spec fn cased_letter_chunk_11() -> Seq<SRange> {
    seq![(0xAB60int, 0xAB68int), (0xAB70int, 0xABBFint), (0xFB00int, 0xFB06int), (0xFB13int, 0xFB17int), (0xFF21int, 0xFF3Aint), (0xFF41int, 0xFF5Aint), (0x10400int, 0x1044Fint), (0x104B0int, 0x104D3int)]
}

pub open spec fn cased_letter_chunk_12() -> Seq<SRange> {
    seq![(0x104D8int, 0x104FBint), (0x10570int, 0x1057Aint), (0x1057Cint, 0x1058Aint), (0x1058Cint, 0x10592int), (0x10594int, 0x10595int), (0x10597int, 0x105A1int), (0x105A3int, 0x105B1int), (0x105B3int, 0x105B9int)]
}

pub open spec fn cased_letter_chunk_13() -> Seq<SRange> {
    seq![(0x105BBint, 0x105BCint), (0x10C80int, 0x10CB2int), (0x10CC0int, 0x10CF2int), (0x10D50int, 0x10D65int), (0x10D70int, 0x10D85int), (0x118A0int, 0x118DFint), (0x16E40int, 0x16E7Fint), (0x1D400int, 0x1D454int)]
}

pub open spec fn cased_letter_chunk_14() -> Seq<SRange> {
    seq![(0x1D456int, 0x1D49Cint), (0x1D49Eint, 0x1D49Fint), (0x1D4A2int, 0x1D4A2int), (0x1D4A5int, 0x1D4A6int), (0x1D4A9int, 0x1D4ACint), (0x1D4AEint, 0x1D4B9int), (0x1D4BBint, 0x1D4BBint), (0x1D4BDint, 0x1D4C3int)]
}

pub open spec fn cased_letter_chunk_15() -> Seq<SRange> {
    seq![(0x1D4C5int, 0x1D505int), (0x1D507int, 0x1D50Aint), (0x1D50Dint, 0x1D514int), (0x1D516int, 0x1D51Cint), (0x1D51Eint, 0x1D539int), (0x1D53Bint, 0x1D53Eint), (0x1D540int, 0x1D544int), (0x1D546int, 0x1D546int)]
}

pub open spec fn cased_letter_chunk_16() -> Seq<SRange> {
    seq![(0x1D54Aint, 0x1D550int), (0x1D552int, 0x1D6A5int), (0x1D6A8int, 0x1D6C0int), (0x1D6C2int, 0x1D6DAint), (0x1D6DCint, 0x1D6FAint), (0x1D6FCint, 0x1D714int), (0x1D716int, 0x1D734int), (0x1D736int, 0x1D74Eint)]
}

pub open spec fn cased_letter_chunk_17() -> Seq<SRange> {
    seq![(0x1D750int, 0x1D76Eint), (0x1D770int, 0x1D788int), (0x1D78Aint, 0x1D7A8int), (0x1D7AAint, 0x1D7C2int), (0x1D7C4int, 0x1D7CBint), (0x1DF00int, 0x1DF09int), (0x1DF0Bint, 0x1DF1Eint), (0x1DF25int, 0x1DF2Aint)]
}

pub open spec fn cased_letter_chunk_18() -> Seq<SRange> {
    seq![(0x1E900int, 0x1E943int)]
}

pub open spec fn cased_letter_block_0() -> Seq<SRange> {
    cased_letter_chunk_0() + cased_letter_chunk_1() + cased_letter_chunk_2() + cased_letter_chunk_3() + cased_letter_chunk_4() + cased_letter_chunk_5() + cased_letter_chunk_6() + cased_letter_chunk_7() + cased_letter_chunk_8() + cased_letter_chunk_9()
}

pub open spec fn cased_letter_block_1() -> Seq<SRange> {
    cased_letter_chunk_10() + cased_letter_chunk_11() + cased_letter_chunk_12() + cased_letter_chunk_13() + cased_letter_chunk_14() + cased_letter_chunk_15() + cased_letter_chunk_16() + cased_letter_chunk_17() + cased_letter_chunk_18()
}

/// The ranges of the general category Cased_Letter.
pub open spec fn cased_letter_ranges() -> Seq<SRange> {
    cased_letter_block_0() + cased_letter_block_1()
}

proof fn lemma_cased_letter_block_0()
    ensures
        canonical(cased_letter_block_0()),
        cased_letter_block_0().len() > 0,
        cased_letter_block_0()[0] == cased_letter_chunk_0()[0],
        cased_letter_block_0().last() == cased_letter_chunk_9().last(),
{
    reveal_with_fuel(canonical, 9);
    assert(canonical(cased_letter_chunk_0()));
    assert(canonical(cased_letter_chunk_1()));
    assert(canonical(cased_letter_chunk_2()));
    assert(canonical(cased_letter_chunk_3()));
    assert(canonical(cased_letter_chunk_4()));
    assert(canonical(cased_letter_chunk_5()));
    assert(canonical(cased_letter_chunk_6()));
    assert(canonical(cased_letter_chunk_7()));
    assert(canonical(cased_letter_chunk_8()));
    assert(canonical(cased_letter_chunk_9()));
    lemma_canonical_append(cased_letter_chunk_0(), cased_letter_chunk_1());
    lemma_canonical_append(cased_letter_chunk_0() + cased_letter_chunk_1(), cased_letter_chunk_2());
    lemma_canonical_append(cased_letter_chunk_0() + cased_letter_chunk_1() + cased_letter_chunk_2(), cased_letter_chunk_3());
    lemma_canonical_append(cased_letter_chunk_0() + cased_letter_chunk_1() + cased_letter_chunk_2() + cased_letter_chunk_3(), cased_letter_chunk_4());
    lemma_canonical_append(cased_letter_chunk_0() + cased_letter_chunk_1() + cased_letter_chunk_2() + cased_letter_chunk_3() + cased_letter_chunk_4(), cased_letter_chunk_5());
    lemma_canonical_append(cased_letter_chunk_0() + cased_letter_chunk_1() + cased_letter_chunk_2() + cased_letter_chunk_3() + cased_letter_chunk_4() + cased_letter_chunk_5(), cased_letter_chunk_6());
    lemma_canonical_append(cased_letter_chunk_0() + cased_letter_chunk_1() + cased_letter_chunk_2() + cased_letter_chunk_3() + cased_letter_chunk_4() + cased_letter_chunk_5() + cased_letter_chunk_6(), cased_letter_chunk_7());
    lemma_canonical_append(cased_letter_chunk_0() + cased_letter_chunk_1() + cased_letter_chunk_2() + cased_letter_chunk_3() + cased_letter_chunk_4() + cased_letter_chunk_5() + cased_letter_chunk_6() + cased_letter_chunk_7(), cased_letter_chunk_8());
    lemma_canonical_append(cased_letter_chunk_0() + cased_letter_chunk_1() + cased_letter_chunk_2() + cased_letter_chunk_3() + cased_letter_chunk_4() + cased_letter_chunk_5() + cased_letter_chunk_6() + cased_letter_chunk_7() + cased_letter_chunk_8(), cased_letter_chunk_9());
}

proof fn lemma_cased_letter_block_1()
    ensures
        canonical(cased_letter_block_1()),
        cased_letter_block_1().len() > 0,
        cased_letter_block_1()[0] == cased_letter_chunk_10()[0],
        cased_letter_block_1().last() == cased_letter_chunk_18().last(),
{
    reveal_with_fuel(canonical, 9);
    assert(canonical(cased_letter_chunk_10()));
    assert(canonical(cased_letter_chunk_11()));
    assert(canonical(cased_letter_chunk_12()));
    assert(canonical(cased_letter_chunk_13()));
    assert(canonical(cased_letter_chunk_14()));
    assert(canonical(cased_letter_chunk_15()));
    assert(canonical(cased_letter_chunk_16()));
    assert(canonical(cased_letter_chunk_17()));
    assert(canonical(cased_letter_chunk_18()));
    lemma_canonical_append(cased_letter_chunk_10(), cased_letter_chunk_11());
    lemma_canonical_append(cased_letter_chunk_10() + cased_letter_chunk_11(), cased_letter_chunk_12());
    lemma_canonical_append(cased_letter_chunk_10() + cased_letter_chunk_11() + cased_letter_chunk_12(), cased_letter_chunk_13());
    lemma_canonical_append(cased_letter_chunk_10() + cased_letter_chunk_11() + cased_letter_chunk_12() + cased_letter_chunk_13(), cased_letter_chunk_14());
    lemma_canonical_append(cased_letter_chunk_10() + cased_letter_chunk_11() + cased_letter_chunk_12() + cased_letter_chunk_13() + cased_letter_chunk_14(), cased_letter_chunk_15());
    lemma_canonical_append(cased_letter_chunk_10() + cased_letter_chunk_11() + cased_letter_chunk_12() + cased_letter_chunk_13() + cased_letter_chunk_14() + cased_letter_chunk_15(), cased_letter_chunk_16());
    lemma_canonical_append(cased_letter_chunk_10() + cased_letter_chunk_11() + cased_letter_chunk_12() + cased_letter_chunk_13() + cased_letter_chunk_14() + cased_letter_chunk_15() + cased_letter_chunk_16(), cased_letter_chunk_17());
    lemma_canonical_append(cased_letter_chunk_10() + cased_letter_chunk_11() + cased_letter_chunk_12() + cased_letter_chunk_13() + cased_letter_chunk_14() + cased_letter_chunk_15() + cased_letter_chunk_16() + cased_letter_chunk_17(), cased_letter_chunk_18());
}

/// The general category Cased_Letter is a canonical class.
pub proof fn lemma_cased_letter_canonical()
    ensures
        canonical(cased_letter_ranges()),
{
    lemma_cased_letter_block_0();
    lemma_cased_letter_block_1();
    lemma_canonical_append(cased_letter_block_0(), cased_letter_block_1());
}

fn push_cased_letter_chunk_0(v: &mut Vec<ClassUnicodeRange>)
    ensures
        rview(final(v)@) == rview(old(v)@) + cased_letter_chunk_0(),
{
    let ghost o = rview(v@);
    push_range(v, '\u{41}', '\u{5A}');
    push_range(v, '\u{61}', '\u{7A}');
    push_range(v, '\u{B5}', '\u{B5}');
    push_range(v, '\u{C0}', '\u{D6}');
    push_range(v, '\u{D8}', '\u{F6}');
    push_range(v, '\u{F8}', '\u{1BA}');
    push_range(v, '\u{1BC}', '\u{1BF}');
    push_range(v, '\u{1C4}', '\u{293}');
    assert(rview(v@) =~= o + cased_letter_chunk_0());
}

fn push_cased_letter_chunk_1(v: &mut Vec<ClassUnicodeRange>)
    ensures
        rview(final(v)@) == rview(old(v)@) + cased_letter_chunk_1(),
{
    let ghost o = rview(v@);
    push_range(v, '\u{295}', '\u{2AF}');
    push_range(v, '\u{370}', '\u{373}');
    push_range(v, '\u{376}', '\u{377}');
    push_range(v, '\u{37B}', '\u{37D}');
    push_range(v, '\u{37F}', '\u{37F}');
    push_range(v, '\u{386}', '\u{386}');
    push_range(v, '\u{388}', '\u{38A}');
    push_range(v, '\u{38C}', '\u{38C}');
    assert(rview(v@) =~= o + cased_letter_chunk_1());
}

fn push_cased_letter_chunk_2(v: &mut Vec<ClassUnicodeRange>)
    ensures
        rview(final(v)@) == rview(old(v)@) + cased_letter_chunk_2(),
{
    let ghost o = rview(v@);
    push_range(v, '\u{38E}', '\u{3A1}');
    push_range(v, '\u{3A3}', '\u{3F5}');
    push_range(v, '\u{3F7}', '\u{481}');
    push_range(v, '\u{48A}', '\u{52F}');
    push_range(v, '\u{531}', '\u{556}');
    push_range(v, '\u{560}', '\u{588}');
    push_range(v, '\u{10A0}', '\u{10C5}');
    push_range(v, '\u{10C7}', '\u{10C7}');
    assert(rview(v@) =~= o + cased_letter_chunk_2());
}

fn push_cased_letter_chunk_3(v: &mut Vec<ClassUnicodeRange>)
    ensures
        rview(final(v)@) == rview(old(v)@) + cased_letter_chunk_3(),
{
    let ghost o = rview(v@);
    push_range(v, '\u{10CD}', '\u{10CD}');
    push_range(v, '\u{10D0}', '\u{10FA}');
    push_range(v, '\u{10FD}', '\u{10FF}');
    push_range(v, '\u{13A0}', '\u{13F5}');
    push_range(v, '\u{13F8}', '\u{13FD}');
    push_range(v, '\u{1C80}', '\u{1C8A}');
    push_range(v, '\u{1C90}', '\u{1CBA}');
    push_range(v, '\u{1CBD}', '\u{1CBF}');
    assert(rview(v@) =~= o + cased_letter_chunk_3());
}

fn push_cased_letter_chunk_4(v: &mut Vec<ClassUnicodeRange>)
    ensures
        rview(final(v)@) == rview(old(v)@) + cased_letter_chunk_4(),
{
    let ghost o = rview(v@);
    push_range(v, '\u{1D00}', '\u{1D2B}');
    push_range(v, '\u{1D6B}', '\u{1D77}');
    push_range(v, '\u{1D79}', '\u{1D9A}');
    push_range(v, '\u{1E00}', '\u{1F15}');
    push_range(v, '\u{1F18}', '\u{1F1D}');
    push_range(v, '\u{1F20}', '\u{1F45}');
    push_range(v, '\u{1F48}', '\u{1F4D}');
    push_range(v, '\u{1F50}', '\u{1F57}');
    assert(rview(v@) =~= o + cased_letter_chunk_4());
}

fn push_cased_letter_chunk_5(v: &mut Vec<ClassUnicodeRange>)
    ensures
        rview(final(v)@) == rview(old(v)@) + cased_letter_chunk_5(),
{
    let ghost o = rview(v@);
    push_range(v, '\u{1F59}', '\u{1F59}');
    push_range(v, '\u{1F5B}', '\u{1F5B}');
    push_range(v, '\u{1F5D}', '\u{1F5D}');
    push_range(v, '\u{1F5F}', '\u{1F7D}');
    push_range(v, '\u{1F80}', '\u{1FB4}');
    push_range(v, '\u{1FB6}', '\u{1FBC}');
    push_range(v, '\u{1FBE}', '\u{1FBE}');
    push_range(v, '\u{1FC2}', '\u{1FC4}');
    assert(rview(v@) =~= o + cased_letter_chunk_5());
}

fn push_cased_letter_chunk_6(v: &mut Vec<ClassUnicodeRange>)
    ensures
        rview(final(v)@) == rview(old(v)@) + cased_letter_chunk_6(),
{
    let ghost o = rview(v@);
    push_range(v, '\u{1FC6}', '\u{1FCC}');
    push_range(v, '\u{1FD0}', '\u{1FD3}');
    push_range(v, '\u{1FD6}', '\u{1FDB}');
    push_range(v, '\u{1FE0}', '\u{1FEC}');
    push_range(v, '\u{1FF2}', '\u{1FF4}');
    push_range(v, '\u{1FF6}', '\u{1FFC}');
    push_range(v, '\u{2102}', '\u{2102}');
    push_range(v, '\u{2107}', '\u{2107}');
    assert(rview(v@) =~= o + cased_letter_chunk_6());
}

fn push_cased_letter_chunk_7(v: &mut Vec<ClassUnicodeRange>)
    ensures
        rview(final(v)@) == rview(old(v)@) + cased_letter_chunk_7(),
{
    let ghost o = rview(v@);
    push_range(v, '\u{210A}', '\u{2113}');
    push_range(v, '\u{2115}', '\u{2115}');
    push_range(v, '\u{2119}', '\u{211D}');
    push_range(v, '\u{2124}', '\u{2124}');
    push_range(v, '\u{2126}', '\u{2126}');
    push_range(v, '\u{2128}', '\u{2128}');
    push_range(v, '\u{212A}', '\u{212D}');
    push_range(v, '\u{212F}', '\u{2134}');
    assert(rview(v@) =~= o + cased_letter_chunk_7());
}

fn push_cased_letter_chunk_8(v: &mut Vec<ClassUnicodeRange>)
    ensures
        rview(final(v)@) == rview(old(v)@) + cased_letter_chunk_8(),
{
    let ghost o = rview(v@);
    push_range(v, '\u{2139}', '\u{2139}');
    push_range(v, '\u{213C}', '\u{213F}');
    push_range(v, '\u{2145}', '\u{2149}');
    push_range(v, '\u{214E}', '\u{214E}');
    push_range(v, '\u{2183}', '\u{2184}');
    push_range(v, '\u{2C00}', '\u{2C7B}');
    push_range(v, '\u{2C7E}', '\u{2CE4}');
    push_range(v, '\u{2CEB}', '\u{2CEE}');
    assert(rview(v@) =~= o + cased_letter_chunk_8());
}

fn push_cased_letter_chunk_9(v: &mut Vec<ClassUnicodeRange>)
    ensures
        rview(final(v)@) == rview(old(v)@) + cased_letter_chunk_9(),
{
    let ghost o = rview(v@);
    push_range(v, '\u{2CF2}', '\u{2CF3}');
    push_range(v, '\u{2D00}', '\u{2D25}');
    push_range(v, '\u{2D27}', '\u{2D27}');
    push_range(v, '\u{2D2D}', '\u{2D2D}');
    push_range(v, '\u{A640}', '\u{A66D}');
    push_range(v, '\u{A680}', '\u{A69B}');
    push_range(v, '\u{A722}', '\u{A76F}');
    push_range(v, '\u{A771}', '\u{A787}');
    assert(rview(v@) =~= o + cased_letter_chunk_9());
}

fn push_cased_letter_chunk_10(v: &mut Vec<ClassUnicodeRange>)
    ensures
        rview(final(v)@) == rview(old(v)@) + cased_letter_chunk_10(),
{
    let ghost o = rview(v@);
    push_range(v, '\u{A78B}', '\u{A78E}');
    push_range(v, '\u{A790}', '\u{A7CD}');
    push_range(v, '\u{A7D0}', '\u{A7D1}');
    push_range(v, '\u{A7D3}', '\u{A7D3}');
    push_range(v, '\u{A7D5}', '\u{A7DC}');
    push_range(v, '\u{A7F5}', '\u{A7F6}');
    push_range(v, '\u{A7FA}', '\u{A7FA}');
    push_range(v, '\u{AB30}', '\u{AB5A}');
    assert(rview(v@) =~= o + cased_letter_chunk_10());
}

fn push_cased_letter_chunk_11(v: &mut Vec<ClassUnicodeRange>)
    ensures
        rview(final(v)@) == rview(old(v)@) + cased_letter_chunk_11(),
{
    let ghost o = rview(v@);
    push_range(v, '\u{AB60}', '\u{AB68}');
    push_range(v, '\u{AB70}', '\u{ABBF}');
    push_range(v, '\u{FB00}', '\u{FB06}');
    push_range(v, '\u{FB13}', '\u{FB17}');
    push_range(v, '\u{FF21}', '\u{FF3A}');
    push_range(v, '\u{FF41}', '\u{FF5A}');
    push_range(v, '\u{10400}', '\u{1044F}');
    push_range(v, '\u{104B0}', '\u{104D3}');
    assert(rview(v@) =~= o + cased_letter_chunk_11());
}

fn push_cased_letter_chunk_12(v: &mut Vec<ClassUnicodeRange>)
    ensures
        rview(final(v)@) == rview(old(v)@) + cased_letter_chunk_12(),
{
    let ghost o = rview(v@);
    push_range(v, '\u{104D8}', '\u{104FB}');
    push_range(v, '\u{10570}', '\u{1057A}');
    push_range(v, '\u{1057C}', '\u{1058A}');
    push_range(v, '\u{1058C}', '\u{10592}');
    push_range(v, '\u{10594}', '\u{10595}');
    push_range(v, '\u{10597}', '\u{105A1}');
    push_range(v, '\u{105A3}', '\u{105B1}');
    push_range(v, '\u{105B3}', '\u{105B9}');
    assert(rview(v@) =~= o + cased_letter_chunk_12());
}

fn push_cased_letter_chunk_13(v: &mut Vec<ClassUnicodeRange>)
    ensures
        rview(final(v)@) == rview(old(v)@) + cased_letter_chunk_13(),
{
    let ghost o = rview(v@);
    push_range(v, '\u{105BB}', '\u{105BC}');
    push_range(v, '\u{10C80}', '\u{10CB2}');
    push_range(v, '\u{10CC0}', '\u{10CF2}');
    push_range(v, '\u{10D50}', '\u{10D65}');
    push_range(v, '\u{10D70}', '\u{10D85}');
    push_range(v, '\u{118A0}', '\u{118DF}');
    push_range(v, '\u{16E40}', '\u{16E7F}');
    push_range(v, '\u{1D400}', '\u{1D454}');
    assert(rview(v@) =~= o + cased_letter_chunk_13());
}

fn push_cased_letter_chunk_14(v: &mut Vec<ClassUnicodeRange>)
    ensures
        rview(final(v)@) == rview(old(v)@) + cased_letter_chunk_14(),
{
    let ghost o = rview(v@);
    push_range(v, '\u{1D456}', '\u{1D49C}');
    push_range(v, '\u{1D49E}', '\u{1D49F}');
    push_range(v, '\u{1D4A2}', '\u{1D4A2}');
    push_range(v, '\u{1D4A5}', '\u{1D4A6}');
    push_range(v, '\u{1D4A9}', '\u{1D4AC}');
    push_range(v, '\u{1D4AE}', '\u{1D4B9}');
    push_range(v, '\u{1D4BB}', '\u{1D4BB}');
    push_range(v, '\u{1D4BD}', '\u{1D4C3}');
    assert(rview(v@) =~= o + cased_letter_chunk_14());
}

fn push_cased_letter_chunk_15(v: &mut Vec<ClassUnicodeRange>)
    ensures
        rview(final(v)@) == rview(old(v)@) + cased_letter_chunk_15(),
{
    let ghost o = rview(v@);
    push_range(v, '\u{1D4C5}', '\u{1D505}');
    push_range(v, '\u{1D507}', '\u{1D50A}');
    push_range(v, '\u{1D50D}', '\u{1D514}');
    push_range(v, '\u{1D516}', '\u{1D51C}');
    push_range(v, '\u{1D51E}', '\u{1D539}');
    push_range(v, '\u{1D53B}', '\u{1D53E}');
    push_range(v, '\u{1D540}', '\u{1D544}');
    push_range(v, '\u{1D546}', '\u{1D546}');
    assert(rview(v@) =~= o + cased_letter_chunk_15());
}

fn push_cased_letter_chunk_16(v: &mut Vec<ClassUnicodeRange>)
    ensures
        rview(final(v)@) == rview(old(v)@) + cased_letter_chunk_16(),
{
    let ghost o = rview(v@);
    push_range(v, '\u{1D54A}', '\u{1D550}');
    push_range(v, '\u{1D552}', '\u{1D6A5}');
    push_range(v, '\u{1D6A8}', '\u{1D6C0}');
    push_range(v, '\u{1D6C2}', '\u{1D6DA}');
    push_range(v, '\u{1D6DC}', '\u{1D6FA}');
    push_range(v, '\u{1D6FC}', '\u{1D714}');
    push_range(v, '\u{1D716}', '\u{1D734}');
    push_range(v, '\u{1D736}', '\u{1D74E}');
    assert(rview(v@) =~= o + cased_letter_chunk_16());
}

fn push_cased_letter_chunk_17(v: &mut Vec<ClassUnicodeRange>)
    ensures
        rview(final(v)@) == rview(old(v)@) + cased_letter_chunk_17(),
{
    let ghost o = rview(v@);
    push_range(v, '\u{1D750}', '\u{1D76E}');
    push_range(v, '\u{1D770}', '\u{1D788}');
    push_range(v, '\u{1D78A}', '\u{1D7A8}');
    push_range(v, '\u{1D7AA}', '\u{1D7C2}');
    push_range(v, '\u{1D7C4}', '\u{1D7CB}');
    push_range(v, '\u{1DF00}', '\u{1DF09}');
    push_range(v, '\u{1DF0B}', '\u{1DF1E}');
    push_range(v, '\u{1DF25}', '\u{1DF2A}');
    assert(rview(v@) =~= o + cased_letter_chunk_17());
}

fn push_cased_letter_chunk_18(v: &mut Vec<ClassUnicodeRange>)
    ensures
        rview(final(v)@) == rview(old(v)@) + cased_letter_chunk_18(),
{
    let ghost o = rview(v@);
    push_range(v, '\u{1E900}', '\u{1E943}');
    assert(rview(v@) =~= o + cased_letter_chunk_18());
}

fn push_cased_letter_block_0(v: &mut Vec<ClassUnicodeRange>)
    ensures
        rview(final(v)@) == rview(old(v)@) + cased_letter_block_0(),
{
    let ghost o = rview(v@);
    push_cased_letter_chunk_0(v);
    assert(rview(v@) =~= o + (cased_letter_chunk_0()));
    push_cased_letter_chunk_1(v);
    assert(rview(v@) =~= o + (cased_letter_chunk_0() + cased_letter_chunk_1()));
    push_cased_letter_chunk_2(v);
    assert(rview(v@) =~= o + (cased_letter_chunk_0() + cased_letter_chunk_1() + cased_letter_chunk_2()));
    push_cased_letter_chunk_3(v);
    assert(rview(v@) =~= o + (cased_letter_chunk_0() + cased_letter_chunk_1() + cased_letter_chunk_2() + cased_letter_chunk_3()));
    push_cased_letter_chunk_4(v);
    assert(rview(v@) =~= o + (cased_letter_chunk_0() + cased_letter_chunk_1() + cased_letter_chunk_2() + cased_letter_chunk_3() + cased_letter_chunk_4()));
    push_cased_letter_chunk_5(v);
    assert(rview(v@) =~= o + (cased_letter_chunk_0() + cased_letter_chunk_1() + cased_letter_chunk_2() + cased_letter_chunk_3() + cased_letter_chunk_4() + cased_letter_chunk_5()));
    push_cased_letter_chunk_6(v);
    assert(rview(v@) =~= o + (cased_letter_chunk_0() + cased_letter_chunk_1() + cased_letter_chunk_2() + cased_letter_chunk_3() + cased_letter_chunk_4() + cased_letter_chunk_5() + cased_letter_chunk_6()));
    push_cased_letter_chunk_7(v);
    assert(rview(v@) =~= o + (cased_letter_chunk_0() + cased_letter_chunk_1() + cased_letter_chunk_2() + cased_letter_chunk_3() + cased_letter_chunk_4() + cased_letter_chunk_5() + cased_letter_chunk_6() + cased_letter_chunk_7()));
    push_cased_letter_chunk_8(v);
    assert(rview(v@) =~= o + (cased_letter_chunk_0() + cased_letter_chunk_1() + cased_letter_chunk_2() + cased_letter_chunk_3() + cased_letter_chunk_4() + cased_letter_chunk_5() + cased_letter_chunk_6() + cased_letter_chunk_7() + cased_letter_chunk_8()));
    push_cased_letter_chunk_9(v);
    assert(rview(v@) =~= o + (cased_letter_chunk_0() + cased_letter_chunk_1() + cased_letter_chunk_2() + cased_letter_chunk_3() + cased_letter_chunk_4() + cased_letter_chunk_5() + cased_letter_chunk_6() + cased_letter_chunk_7() + cased_letter_chunk_8() + cased_letter_chunk_9()));
}

fn push_cased_letter_block_1(v: &mut Vec<ClassUnicodeRange>)
    ensures
        rview(final(v)@) == rview(old(v)@) + cased_letter_block_1(),
{
    let ghost o = rview(v@);
    push_cased_letter_chunk_10(v);
    assert(rview(v@) =~= o + (cased_letter_chunk_10()));
    push_cased_letter_chunk_11(v);
    assert(rview(v@) =~= o + (cased_letter_chunk_10() + cased_letter_chunk_11()));
    push_cased_letter_chunk_12(v);
    assert(rview(v@) =~= o + (cased_letter_chunk_10() + cased_letter_chunk_11() + cased_letter_chunk_12()));
    push_cased_letter_chunk_13(v);
    assert(rview(v@) =~= o + (cased_letter_chunk_10() + cased_letter_chunk_11() + cased_letter_chunk_12() + cased_letter_chunk_13()));
    push_cased_letter_chunk_14(v);
    assert(rview(v@) =~= o + (cased_letter_chunk_10() + cased_letter_chunk_11() + cased_letter_chunk_12() + cased_letter_chunk_13() + cased_letter_chunk_14()));
    push_cased_letter_chunk_15(v);
    assert(rview(v@) =~= o + (cased_letter_chunk_10() + cased_letter_chunk_11() + cased_letter_chunk_12() + cased_letter_chunk_13() + cased_letter_chunk_14() + cased_letter_chunk_15()));
    push_cased_letter_chunk_16(v);
    assert(rview(v@) =~= o + (cased_letter_chunk_10() + cased_letter_chunk_11() + cased_letter_chunk_12() + cased_letter_chunk_13() + cased_letter_chunk_14() + cased_letter_chunk_15() + cased_letter_chunk_16()));
    push_cased_letter_chunk_17(v);
    assert(rview(v@) =~= o + (cased_letter_chunk_10() + cased_letter_chunk_11() + cased_letter_chunk_12() + cased_letter_chunk_13() + cased_letter_chunk_14() + cased_letter_chunk_15() + cased_letter_chunk_16() + cased_letter_chunk_17()));
    push_cased_letter_chunk_18(v);
    assert(rview(v@) =~= o + (cased_letter_chunk_10() + cased_letter_chunk_11() + cased_letter_chunk_12() + cased_letter_chunk_13() + cased_letter_chunk_14() + cased_letter_chunk_15() + cased_letter_chunk_16() + cased_letter_chunk_17() + cased_letter_chunk_18()));
}

/// The ranges of the general category Cased_Letter.
pub fn cased_letter_class() -> (v: Vec<ClassUnicodeRange>)
    ensures
        rview(v@) == cased_letter_ranges(),
{
    let mut v: Vec<ClassUnicodeRange> = Vec::new();
    assert(rview(v@) =~= Seq::<SRange>::empty());
    push_cased_letter_block_0(&mut v);
    assert(rview(v@) =~= cased_letter_block_0());
    push_cased_letter_block_1(&mut v);
    assert(rview(v@) =~= cased_letter_block_0() + cased_letter_block_1());
    v
}

pub open spec fn close_punctuation_chunk_0() -> Seq<SRange> {
    seq![(0x29int, 0x29int), (0x5Dint, 0x5Dint), (0x7Dint, 0x7Dint), (0xF3Bint, 0xF3Bint), (0xF3Dint, 0xF3Dint), (0x169Cint, 0x169Cint), (0x2046int, 0x2046int), (0x207Eint, 0x207Eint)]
}

pub open spec fn close_punctuation_chunk_1() -> Seq<SRange> {
    seq![(0x208Eint, 0x208Eint), (0x2309int, 0x2309int), (0x230Bint, 0x230Bint), (0x232Aint, 0x232Aint), (0x2769int, 0x2769int), (0x276Bint, 0x276Bint), (0x276Dint, 0x276Dint), (0x276Fint, 0x276Fint)]
}

pub open spec fn close_punctuation_chunk_2() -> Seq<SRange> {
    seq![(0x2771int, 0x2771int), (0x2773int, 0x2773int), (0x2775int, 0x2775int), (0x27C6int, 0x27C6int), (0x27E7int, 0x27E7int), (0x27E9int, 0x27E9int), (0x27EBint, 0x27EBint), (0x27EDint, 0x27EDint)]
}

pub open spec fn close_punctuation_chunk_3() -> Seq<SRange> {
    seq![(0x27EFint, 0x27EFint), (0x2984int, 0x2984int), (0x2986int, 0x2986int), (0x2988int, 0x2988int), (0x298Aint, 0x298Aint), (0x298Cint, 0x298Cint), (0x298Eint, 0x298Eint), (0x2990int, 0x2990int)]
}

pub open spec fn close_punctuation_chunk_4() -> Seq<SRange> {
    seq![(0x2992int, 0x2992int), (0x2994int, 0x2994int), (0x2996int, 0x2996int), (0x2998int, 0x2998int), (0x29D9int, 0x29D9int), (0x29DBint, 0x29DBint), (0x29FDint, 0x29FDint), (0x2E23int, 0x2E23int)]
}

pub open spec fn close_punctuation_chunk_5() -> Seq<SRange> {
    seq![(0x2E25int, 0x2E25int), (0x2E27int, 0x2E27int), (0x2E29int, 0x2E29int), (0x2E56int, 0x2E56int), (0x2E58int, 0x2E58int), (0x2E5Aint, 0x2E5Aint), (0x2E5Cint, 0x2E5Cint), (0x3009int, 0x3009int)]
}

pub open spec fn close_punctuation_chunk_6() -> Seq<SRange> {
    seq![(0x300Bint, 0x300Bint), (0x300Dint, 0x300Dint), (0x300Fint, 0x300Fint), (0x3011int, 0x3011int), (0x3015int, 0x3015int), (0x3017int, 0x3017int), (0x3019int, 0x3019int), (0x301Bint, 0x301Bint)]
}

pub open spec fn close_punctuation_chunk_7() -> Seq<SRange> {
    seq![(0x301Eint, 0x301Fint), (0xFD3Eint, 0xFD3Eint), (0xFE18int, 0xFE18int), (0xFE36int, 0xFE36int), (0xFE38int, 0xFE38int), (0xFE3Aint, 0xFE3Aint), (0xFE3Cint, 0xFE3Cint), (0xFE3Eint, 0xFE3Eint)]
}

pub open spec fn close_punctuation_chunk_8() -> Seq<SRange> {
    seq![(0xFE40int, 0xFE40int), (0xFE42int, 0xFE42int), (0xFE44int, 0xFE44int), (0xFE48int, 0xFE48int), (0xFE5Aint, 0xFE5Aint), (0xFE5Cint, 0xFE5Cint), (0xFE5Eint, 0xFE5Eint), (0xFF09int, 0xFF09int)]
}

pub open spec fn close_punctuation_chunk_9() -> Seq<SRange> {
    seq![(0xFF3Dint, 0xFF3Dint), (0xFF5Dint, 0xFF5Dint), (0xFF60int, 0xFF60int), (0xFF63int, 0xFF63int)]
}

pub open spec fn close_punctuation_block_0() -> Seq<SRange> {
    close_punctuation_chunk_0() + close_punctuation_chunk_1() + close_punctuation_chunk_2() + close_punctuation_chunk_3() + close_punctuation_chunk_4() + close_punctuation_chunk_5() + close_punctuation_chunk_6() + close_punctuation_chunk_7() + close_punctuation_chunk_8() + close_punctuation_chunk_9()
}

/// The ranges of the general category Close_Punctuation.
pub open spec fn close_punctuation_ranges() -> Seq<SRange> {
    close_punctuation_block_0()
}

proof fn lemma_close_punctuation_block_0()
    ensures
        canonical(close_punctuation_block_0()),
        close_punctuation_block_0().len() > 0,
        close_punctuation_block_0()[0] == close_punctuation_chunk_0()[0],
        close_punctuation_block_0().last() == close_punctuation_chunk_9().last(),
{
    reveal_with_fuel(canonical, 9);
    assert(canonical(close_punctuation_chunk_0()));
    assert(canonical(close_punctuation_chunk_1()));
    assert(canonical(close_punctuation_chunk_2()));
    assert(canonical(close_punctuation_chunk_3()));
    assert(canonical(close_punctuation_chunk_4()));
    assert(canonical(close_punctuation_chunk_5()));
    assert(canonical(close_punctuation_chunk_6()));
    assert(canonical(close_punctuation_chunk_7()));
    assert(canonical(close_punctuation_chunk_8()));
    assert(canonical(close_punctuation_chunk_9()));
    lemma_canonical_append(close_punctuation_chunk_0(), close_punctuation_chunk_1());
    lemma_canonical_append(close_punctuation_chunk_0() + close_punctuation_chunk_1(), close_punctuation_chunk_2());
    lemma_canonical_append(close_punctuation_chunk_0() + close_punctuation_chunk_1() + close_punctuation_chunk_2(), close_punctuation_chunk_3());
    lemma_canonical_append(close_punctuation_chunk_0() + close_punctuation_chunk_1() + close_punctuation_chunk_2() + close_punctuation_chunk_3(), close_punctuation_chunk_4());
    lemma_canonical_append(close_punctuation_chunk_0() + close_punctuation_chunk_1() + close_punctuation_chunk_2() + close_punctuation_chunk_3() + close_punctuation_chunk_4(), close_punctuation_chunk_5());
    lemma_canonical_append(close_punctuation_chunk_0() + close_punctuation_chunk_1() + close_punctuation_chunk_2() + close_punctuation_chunk_3() + close_punctuation_chunk_4() + close_punctuation_chunk_5(), close_punctuation_chunk_6());
    lemma_canonical_append(close_punctuation_chunk_0() + close_punctuation_chunk_1() + close_punctuation_chunk_2() + close_punctuation_chunk_3() + close_punctuation_chunk_4() + close_punctuation_chunk_5() + close_punctuation_chunk_6(), close_punctuation_chunk_7());
    lemma_canonical_append(close_punctuation_chunk_0() + close_punctuation_chunk_1() + close_punctuation_chunk_2() + close_punctuation_chunk_3() + close_punctuation_chunk_4() + close_punctuation_chunk_5() + close_punctuation_chunk_6() + close_punctuation_chunk_7(), close_punctuation_chunk_8());
    lemma_canonical_append(close_punctuation_chunk_0() + close_punctuation_chunk_1() + close_punctuation_chunk_2() + close_punctuation_chunk_3() + close_punctuation_chunk_4() + close_punctuation_chunk_5() + close_punctuation_chunk_6() + close_punctuation_chunk_7() + close_punctuation_chunk_8(), close_punctuation_chunk_9());
}

/// The general category Close_Punctuation is a canonical class.
pub proof fn lemma_close_punctuation_canonical()
    ensures
        canonical(close_punctuation_ranges()),
{
    lemma_close_punctuation_block_0();
}

fn push_close_punctuation_chunk_0(v: &mut Vec<ClassUnicodeRange>)
    ensures
        rview(final(v)@) == rview(old(v)@) + close_punctuation_chunk_0(),
{
    let ghost o = rview(v@);
    push_range(v, '\u{29}', '\u{29}');
    push_range(v, '\u{5D}', '\u{5D}');
    push_range(v, '\u{7D}', '\u{7D}');
    push_range(v, '\u{F3B}', '\u{F3B}');
    push_range(v, '\u{F3D}', '\u{F3D}');
    push_range(v, '\u{169C}', '\u{169C}');
    push_range(v, '\u{2046}', '\u{2046}');
    push_range(v, '\u{207E}', '\u{207E}');
    assert(rview(v@) =~= o + close_punctuation_chunk_0());
}

fn push_close_punctuation_chunk_1(v: &mut Vec<ClassUnicodeRange>)
    ensures
        rview(final(v)@) == rview(old(v)@) + close_punctuation_chunk_1(),
{
    let ghost o = rview(v@);
    push_range(v, '\u{208E}', '\u{208E}');
    push_range(v, '\u{2309}', '\u{2309}');
    push_range(v, '\u{230B}', '\u{230B}');
    push_range(v, '\u{232A}', '\u{232A}');
    push_range(v, '\u{2769}', '\u{2769}');
    push_range(v, '\u{276B}', '\u{276B}');
    push_range(v, '\u{276D}', '\u{276D}');
    push_range(v, '\u{276F}', '\u{276F}');
    assert(rview(v@) =~= o + close_punctuation_chunk_1());
}

fn push_close_punctuation_chunk_2(v: &mut Vec<ClassUnicodeRange>)
    ensures
        rview(final(v)@) == rview(old(v)@) + close_punctuation_chunk_2(),
{
    let ghost o = rview(v@);
    push_range(v, '\u{2771}', '\u{2771}');
    push_range(v, '\u{2773}', '\u{2773}');
    push_range(v, '\u{2775}', '\u{2775}');
    push_range(v, '\u{27C6}', '\u{27C6}');
    push_range(v, '\u{27E7}', '\u{27E7}');
    push_range(v, '\u{27E9}', '\u{27E9}');
    push_range(v, '\u{27EB}', '\u{27EB}');
    push_range(v, '\u{27ED}', '\u{27ED}');
    assert(rview(v@) =~= o + close_punctuation_chunk_2());
}

fn push_close_punctuation_chunk_3(v: &mut Vec<ClassUnicodeRange>)
    ensures
        rview(final(v)@) == rview(old(v)@) + close_punctuation_chunk_3(),
{
    let ghost o = rview(v@);
    push_range(v, '\u{27EF}', '\u{27EF}');
    push_range(v, '\u{2984}', '\u{2984}');
    push_range(v, '\u{2986}', '\u{2986}');
    push_range(v, '\u{2988}', '\u{2988}');
    push_range(v, '\u{298A}', '\u{298A}');
    push_range(v, '\u{298C}', '\u{298C}');
    push_range(v, '\u{298E}', '\u{298E}');
    push_range(v, '\u{2990}', '\u{2990}');
    assert(rview(v@) =~= o + close_punctuation_chunk_3());
}

fn push_close_punctuation_chunk_4(v: &mut Vec<ClassUnicodeRange>)
    ensures
        rview(final(v)@) == rview(old(v)@) + close_punctuation_chunk_4(),
{
    let ghost o = rview(v@);
    push_range(v, '\u{2992}', '\u{2992}');
    push_range(v, '\u{2994}', '\u{2994}');
    push_range(v, '\u{2996}', '\u{2996}');
    push_range(v, '\u{2998}', '\u{2998}');
    push_range(v, '\u{29D9}', '\u{29D9}');
    push_range(v, '\u{29DB}', '\u{29DB}');
    push_range(v, '\u{29FD}', '\u{29FD}');
    push_range(v, '\u{2E23}', '\u{2E23}');
    assert(rview(v@) =~= o + close_punctuation_chunk_4());
}

fn push_close_punctuation_chunk_5(v: &mut Vec<ClassUnicodeRange>)
    ensures
        rview(final(v)@) == rview(old(v)@) + close_punctuation_chunk_5(),
{
    let ghost o = rview(v@);
    push_range(v, '\u{2E25}', '\u{2E25}');
    push_range(v, '\u{2E27}', '\u{2E27}');
    push_range(v, '\u{2E29}', '\u{2E29}');
    push_range(v, '\u{2E56}', '\u{2E56}');
    push_range(v, '\u{2E58}', '\u{2E58}');
    push_range(v, '\u{2E5A}', '\u{2E5A}');
    push_range(v, '\u{2E5C}', '\u{2E5C}');
    push_range(v, '\u{3009}', '\u{3009}');
    assert(rview(v@) =~= o + close_punctuation_chunk_5());
}

fn push_close_punctuation_chunk_6(v: &mut Vec<ClassUnicodeRange>)
    ensures
        rview(final(v)@) == rview(old(v)@) + close_punctuation_chunk_6(),
{
    let ghost o = rview(v@);
    push_range(v, '\u{300B}', '\u{300B}');
    push_range(v, '\u{300D}', '\u{300D}');
    push_range(v, '\u{300F}', '\u{300F}');
    push_range(v, '\u{3011}', '\u{3011}');
    push_range(v, '\u{3015}', '\u{3015}');
    push_range(v, '\u{3017}', '\u{3017}');
    push_range(v, '\u{3019}', '\u{3019}');
    push_range(v, '\u{301B}', '\u{301B}');
    assert(rview(v@) =~= o + close_punctuation_chunk_6());
}

fn push_close_punctuation_chunk_7(v: &mut Vec<ClassUnicodeRange>)
    ensures
        rview(final(v)@) == rview(old(v)@) + close_punctuation_chunk_7(),
{
    let ghost o = rview(v@);
    push_range(v, '\u{301E}', '\u{301F}');
    push_range(v, '\u{FD3E}', '\u{FD3E}');
    push_range(v, '\u{FE18}', '\u{FE18}');
    push_range(v, '\u{FE36}', '\u{FE36}');
    push_range(v, '\u{FE38}', '\u{FE38}');
    push_range(v, '\u{FE3A}', '\u{FE3A}');
    push_range(v, '\u{FE3C}', '\u{FE3C}');
    push_range(v, '\u{FE3E}', '\u{FE3E}');
    assert(rview(v@) =~= o + close_punctuation_chunk_7());
}

fn push_close_punctuation_chunk_8(v: &mut Vec<ClassUnicodeRange>)
    ensures
        rview(final(v)@) == rview(old(v)@) + close_punctuation_chunk_8(),
{
    let ghost o = rview(v@);
    push_range(v, '\u{FE40}', '\u{FE40}');
    push_range(v, '\u{FE42}', '\u{FE42}');
    push_range(v, '\u{FE44}', '\u{FE44}');
    push_range(v, '\u{FE48}', '\u{FE48}');
    push_range(v, '\u{FE5A}', '\u{FE5A}');
    push_range(v, '\u{FE5C}', '\u{FE5C}');
    push_range(v, '\u{FE5E}', '\u{FE5E}');
    push_range(v, '\u{FF09}', '\u{FF09}');
    assert(rview(v@) =~= o + close_punctuation_chunk_8());
}

fn push_close_punctuation_chunk_9(v: &mut Vec<ClassUnicodeRange>)
    ensures
        rview(final(v)@) == rview(old(v)@) + close_punctuation_chunk_9(),
{
    let ghost o = rview(v@);
    push_range(v, '\u{FF3D}', '\u{FF3D}');
    push_range(v, '\u{FF5D}', '\u{FF5D}');
    push_range(v, '\u{FF60}', '\u{FF60}');
    push_range(v, '\u{FF63}', '\u{FF63}');
    assert(rview(v@) =~= o + close_punctuation_chunk_9());
}

fn push_close_punctuation_block_0(v: &mut Vec<ClassUnicodeRange>)
    ensures
        rview(final(v)@) == rview(old(v)@) + close_punctuation_block_0(),
{
    let ghost o = rview(v@);
    push_close_punctuation_chunk_0(v);
    assert(rview(v@) =~= o + (close_punctuation_chunk_0()));
    push_close_punctuation_chunk_1(v);
    assert(rview(v@) =~= o + (close_punctuation_chunk_0() + close_punctuation_chunk_1()));
    push_close_punctuation_chunk_2(v);
    assert(rview(v@) =~= o + (close_punctuation_chunk_0() + close_punctuation_chunk_1() + close_punctuation_chunk_2()));
    push_close_punctuation_chunk_3(v);
    assert(rview(v@) =~= o + (close_punctuation_chunk_0() + close_punctuation_chunk_1() + close_punctuation_chunk_2() + close_punctuation_chunk_3()));
    push_close_punctuation_chunk_4(v);
    assert(rview(v@) =~= o + (close_punctuation_chunk_0() + close_punctuation_chunk_1() + close_punctuation_chunk_2() + close_punctuation_chunk_3() + close_punctuation_chunk_4()));
    push_close_punctuation_chunk_5(v);
    assert(rview(v@) =~= o + (close_punctuation_chunk_0() + close_punctuation_chunk_1() + close_punctuation_chunk_2() + close_punctuation_chunk_3() + close_punctuation_chunk_4() + close_punctuation_chunk_5()));
    push_close_punctuation_chunk_6(v);
    assert(rview(v@) =~= o + (close_punctuation_chunk_0() + close_punctuation_chunk_1() + close_punctuation_chunk_2() + close_punctuation_chunk_3() + close_punctuation_chunk_4() + close_punctuation_chunk_5() + close_punctuation_chunk_6()));
    push_close_punctuation_chunk_7(v);
    assert(rview(v@) =~= o + (close_punctuation_chunk_0() + close_punctuation_chunk_1() + close_punctuation_chunk_2() + close_punctuation_chunk_3() + close_punctuation_chunk_4() + close_punctuation_chunk_5() + close_punctuation_chunk_6() + close_punctuation_chunk_7()));
    push_close_punctuation_chunk_8(v);
    assert(rview(v@) =~= o + (close_punctuation_chunk_0() + close_punctuation_chunk_1() + close_punctuation_chunk_2() + close_punctuation_chunk_3() + close_punctuation_chunk_4() + close_punctuation_chunk_5() + close_punctuation_chunk_6() + close_punctuation_chunk_7() + close_punctuation_chunk_8()));
    push_close_punctuation_chunk_9(v);
    assert(rview(v@) =~= o + (close_punctuation_chunk_0() + close_punctuation_chunk_1() + close_punctuation_chunk_2() + close_punctuation_chunk_3() + close_punctuation_chunk_4() + close_punctuation_chunk_5() + close_punctuation_chunk_6() + close_punctuation_chunk_7() + close_punctuation_chunk_8() + close_punctuation_chunk_9()));
}

/// The ranges of the general category Close_Punctuation.
pub fn close_punctuation_class() -> (v: Vec<ClassUnicodeRange>)
    ensures
        rview(v@) == close_punctuation_ranges(),
{
    let mut v: Vec<ClassUnicodeRange> = Vec::new();
    assert(rview(v@) =~= Seq::<SRange>::empty());
    push_close_punctuation_block_0(&mut v);
    assert(rview(v@) =~= close_punctuation_block_0());
    v
}

pub open spec fn connector_punctuation_chunk_0() -> Seq<SRange> {
    seq![(0x5Fint, 0x5Fint), (0x203Fint, 0x2040int), (0x2054int, 0x2054int), (0xFE33int, 0xFE34int), (0xFE4Dint, 0xFE4Fint), (0xFF3Fint, 0xFF3Fint)]
}

pub open spec fn connector_punctuation_block_0() -> Seq<SRange> {
    connector_punctuation_chunk_0()
}

/// The ranges of the general category Connector_Punctuation.
pub open spec fn connector_punctuation_ranges() -> Seq<SRange> {
    connector_punctuation_block_0()
}

proof fn lemma_connector_punctuation_block_0()
    ensures
        canonical(connector_punctuation_block_0()),
        connector_punctuation_block_0().len() > 0,
        connector_punctuation_block_0()[0] == connector_punctuation_chunk_0()[0],
        connector_punctuation_block_0().last() == connector_punctuation_chunk_0().last(),
{
    reveal_with_fuel(canonical, 9);
    assert(canonical(connector_punctuation_chunk_0()));
}

/// The general category Connector_Punctuation is a canonical class.
pub proof fn lemma_connector_punctuation_canonical()
    ensures
        canonical(connector_punctuation_ranges()),
{
    lemma_connector_punctuation_block_0();
}

fn push_connector_punctuation_chunk_0(v: &mut Vec<ClassUnicodeRange>)
    ensures
        rview(final(v)@) == rview(old(v)@) + connector_punctuation_chunk_0(),
{
    let ghost o = rview(v@);
    push_range(v, '\u{5F}', '\u{5F}');
    push_range(v, '\u{203F}', '\u{2040}');
    push_range(v, '\u{2054}', '\u{2054}');
    push_range(v, '\u{FE33}', '\u{FE34}');
    push_range(v, '\u{FE4D}', '\u{FE4F}');
    push_range(v, '\u{FF3F}', '\u{FF3F}');
    assert(rview(v@) =~= o + connector_punctuation_chunk_0());
}

fn push_connector_punctuation_block_0(v: &mut Vec<ClassUnicodeRange>)
    ensures
        rview(final(v)@) == rview(old(v)@) + connector_punctuation_block_0(),
{
    let ghost o = rview(v@);
    push_connector_punctuation_chunk_0(v);
    assert(rview(v@) =~= o + (connector_punctuation_chunk_0()));
}

/// The ranges of the general category Connector_Punctuation.
pub fn connector_punctuation_class() -> (v: Vec<ClassUnicodeRange>)
    ensures
        rview(v@) == connector_punctuation_ranges(),
{
    let mut v: Vec<ClassUnicodeRange> = Vec::new();
    assert(rview(v@) =~= Seq::<SRange>::empty());
    push_connector_punctuation_block_0(&mut v);
    assert(rview(v@) =~= connector_punctuation_block_0());
    v
}

pub open spec fn currency_symbol_chunk_0() -> Seq<SRange> {
    seq![(0x24int, 0x24int), (0xA2int, 0xA5int), (0x58Fint, 0x58Fint), (0x60Bint, 0x60Bint), (0x7FEint, 0x7FFint), (0x9F2int, 0x9F3int), (0x9FBint, 0x9FBint), (0xAF1int, 0xAF1int)]
}

pub open spec fn currency_symbol_chunk_1() -> Seq<SRange> {
    seq![(0xBF9int, 0xBF9int), (0xE3Fint, 0xE3Fint), (0x17DBint, 0x17DBint), (0x20A0int, 0x20C0int), (0xA838int, 0xA838int), (0xFDFCint, 0xFDFCint), (0xFE69int, 0xFE69int), (0xFF04int, 0xFF04int)]
}

pub open spec fn currency_symbol_chunk_2() -> Seq<SRange> {
    seq![(0xFFE0int, 0xFFE1int), (0xFFE5int, 0xFFE6int), (0x11FDDint, 0x11FE0int), (0x1E2FFint, 0x1E2FFint), (0x1ECB0int, 0x1ECB0int)]
}

pub open spec fn currency_symbol_block_0() -> Seq<SRange> {
    currency_symbol_chunk_0() + currency_symbol_chunk_1() + currency_symbol_chunk_2()
}

/// The ranges of the general category Currency_Symbol.
pub open spec fn currency_symbol_ranges() -> Seq<SRange> {
    currency_symbol_block_0()
}

proof fn lemma_currency_symbol_block_0()
    ensures
        canonical(currency_symbol_block_0()),
        currency_symbol_block_0().len() > 0,
        currency_symbol_block_0()[0] == currency_symbol_chunk_0()[0],
        currency_symbol_block_0().last() == currency_symbol_chunk_2().last(),
{
    reveal_with_fuel(canonical, 9);
    assert(canonical(currency_symbol_chunk_0()));
    assert(canonical(currency_symbol_chunk_1()));
    assert(canonical(currency_symbol_chunk_2()));
    lemma_canonical_append(currency_symbol_chunk_0(), currency_symbol_chunk_1());
    lemma_canonical_append(currency_symbol_chunk_0() + currency_symbol_chunk_1(), currency_symbol_chunk_2());
}

/// The general category Currency_Symbol is a canonical class.
pub proof fn lemma_currency_symbol_canonical()
    ensures
        canonical(currency_symbol_ranges()),
{
    lemma_currency_symbol_block_0();
}

fn push_currency_symbol_chunk_0(v: &mut Vec<ClassUnicodeRange>)
    ensures
        rview(final(v)@) == rview(old(v)@) + currency_symbol_chunk_0(),
{
    let ghost o = rview(v@);
    push_range(v, '\u{24}', '\u{24}');
    push_range(v, '\u{A2}', '\u{A5}');
    push_range(v, '\u{58F}', '\u{58F}');
    push_range(v, '\u{60B}', '\u{60B}');
    push_range(v, '\u{7FE}', '\u{7FF}');
    push_range(v, '\u{9F2}', '\u{9F3}');
    push_range(v, '\u{9FB}', '\u{9FB}');
    push_range(v, '\u{AF1}', '\u{AF1}');
    assert(rview(v@) =~= o + currency_symbol_chunk_0());
}

fn push_currency_symbol_chunk_1(v: &mut Vec<ClassUnicodeRange>)
    ensures
        rview(final(v)@) == rview(old(v)@) + currency_symbol_chunk_1(),
{
    let ghost o = rview(v@);
    push_range(v, '\u{BF9}', '\u{BF9}');
    push_range(v, '\u{E3F}', '\u{E3F}');
    push_range(v, '\u{17DB}', '\u{17DB}');
    push_range(v, '\u{20A0}', '\u{20C0}');
    push_range(v, '\u{A838}', '\u{A838}');
    push_range(v, '\u{FDFC}', '\u{FDFC}');
    push_range(v, '\u{FE69}', '\u{FE69}');
    push_range(v, '\u{FF04}', '\u{FF04}');
    assert(rview(v@) =~= o + currency_symbol_chunk_1());
}

fn push_currency_symbol_chunk_2(v: &mut Vec<ClassUnicodeRange>)
    ensures
        rview(final(v)@) == rview(old(v)@) + currency_symbol_chunk_2(),
{
    let ghost o = rview(v@);
    push_range(v, '\u{FFE0}', '\u{FFE1}');
    push_range(v, '\u{FFE5}', '\u{FFE6}');
    push_range(v, '\u{11FDD}', '\u{11FE0}');
    push_range(v, '\u{1E2FF}', '\u{1E2FF}');
    push_range(v, '\u{1ECB0}', '\u{1ECB0}');
    assert(rview(v@) =~= o + currency_symbol_chunk_2());
}

fn push_currency_symbol_block_0(v: &mut Vec<ClassUnicodeRange>)
    ensures
        rview(final(v)@) == rview(old(v)@) + currency_symbol_block_0(),
{
    let ghost o = rview(v@);
    push_currency_symbol_chunk_0(v);
    assert(rview(v@) =~= o + (currency_symbol_chunk_0()));
    push_currency_symbol_chunk_1(v);
    assert(rview(v@) =~= o + (currency_symbol_chunk_0() + currency_symbol_chunk_1()));
    push_currency_symbol_chunk_2(v);
    assert(rview(v@) =~= o + (currency_symbol_chunk_0() + currency_symbol_chunk_1() + currency_symbol_chunk_2()));
}

/// The ranges of the general category Currency_Symbol.
pub fn currency_symbol_class() -> (v: Vec<ClassUnicodeRange>)
    ensures
        rview(v@) == currency_symbol_ranges(),
{
    let mut v: Vec<ClassUnicodeRange> = Vec::new();
    assert(rview(v@) =~= Seq::<SRange>::empty());
    push_currency_symbol_block_0(&mut v);
    assert(rview(v@) =~= currency_symbol_block_0());
    v
}

pub open spec fn dash_punctuation_chunk_0() -> Seq<SRange> {
    seq![(0x2Dint, 0x2Dint), (0x58Aint, 0x58Aint), (0x5BEint, 0x5BEint), (0x1400int, 0x1400int), (0x1806int, 0x1806int), (0x2010int, 0x2015int), (0x2E17int, 0x2E17int), (0x2E1Aint, 0x2E1Aint)]
}

pub open spec fn dash_punctuation_chunk_1() -> Seq<SRange> {
    seq![(0x2E3Aint, 0x2E3Bint), (0x2E40int, 0x2E40int), (0x2E5Dint, 0x2E5Dint), (0x301Cint, 0x301Cint), (0x3030int, 0x3030int), (0x30A0int, 0x30A0int), (0xFE31int, 0xFE32int), (0xFE58int, 0xFE58int)]
}

pub open spec fn dash_punctuation_chunk_2() -> Seq<SRange> {
    seq![(0xFE63int, 0xFE63int), (0xFF0Dint, 0xFF0Dint), (0x10D6Eint, 0x10D6Eint), (0x10EADint, 0x10EADint)]
}

pub open spec fn dash_punctuation_block_0() -> Seq<SRange> {
    dash_punctuation_chunk_0() + dash_punctuation_chunk_1() + dash_punctuation_chunk_2()
}

/// The ranges of the general category Dash_Punctuation.
pub open spec fn dash_punctuation_ranges() -> Seq<SRange> {
    dash_punctuation_block_0()
}

proof fn lemma_dash_punctuation_block_0()
    ensures
        canonical(dash_punctuation_block_0()),
        dash_punctuation_block_0().len() > 0,
        dash_punctuation_block_0()[0] == dash_punctuation_chunk_0()[0],
        dash_punctuation_block_0().last() == dash_punctuation_chunk_2().last(),
{
    reveal_with_fuel(canonical, 9);
    assert(canonical(dash_punctuation_chunk_0()));
    assert(canonical(dash_punctuation_chunk_1()));
    assert(canonical(dash_punctuation_chunk_2()));
    lemma_canonical_append(dash_punctuation_chunk_0(), dash_punctuation_chunk_1());
    lemma_canonical_append(dash_punctuation_chunk_0() + dash_punctuation_chunk_1(), dash_punctuation_chunk_2());
}

/// The general category Dash_Punctuation is a canonical class.
pub proof fn lemma_dash_punctuation_canonical()
    ensures
        canonical(dash_punctuation_ranges()),
{
    lemma_dash_punctuation_block_0();
}

fn push_dash_punctuation_chunk_0(v: &mut Vec<ClassUnicodeRange>)
    ensures
        rview(final(v)@) == rview(old(v)@) + dash_punctuation_chunk_0(),
{
    let ghost o = rview(v@);
    push_range(v, '\u{2D}', '\u{2D}');
    push_range(v, '\u{58A}', '\u{58A}');
    push_range(v, '\u{5BE}', '\u{5BE}');
    push_range(v, '\u{1400}', '\u{1400}');
    push_range(v, '\u{1806}', '\u{1806}');
    push_range(v, '\u{2010}', '\u{2015}');
    push_range(v, '\u{2E17}', '\u{2E17}');
    push_range(v, '\u{2E1A}', '\u{2E1A}');
    assert(rview(v@) =~= o + dash_punctuation_chunk_0());
}

fn push_dash_punctuation_chunk_1(v: &mut Vec<ClassUnicodeRange>)
    ensures
        rview(final(v)@) == rview(old(v)@) + dash_punctuation_chunk_1(),
{
    let ghost o = rview(v@);
    push_range(v, '\u{2E3A}', '\u{2E3B}');
    push_range(v, '\u{2E40}', '\u{2E40}');
    push_range(v, '\u{2E5D}', '\u{2E5D}');
    push_range(v, '\u{301C}', '\u{301C}');
    push_range(v, '\u{3030}', '\u{3030}');
    push_range(v, '\u{30A0}', '\u{30A0}');
    push_range(v, '\u{FE31}', '\u{FE32}');
    push_range(v, '\u{FE58}', '\u{FE58}');
    assert(rview(v@) =~= o + dash_punctuation_chunk_1());
}

fn push_dash_punctuation_chunk_2(v: &mut Vec<ClassUnicodeRange>)
    ensures
        rview(final(v)@) == rview(old(v)@) + dash_punctuation_chunk_2(),
{
    let ghost o = rview(v@);
    push_range(v, '\u{FE63}', '\u{FE63}');
    push_range(v, '\u{FF0D}', '\u{FF0D}');
    push_range(v, '\u{10D6E}', '\u{10D6E}');
    push_range(v, '\u{10EAD}', '\u{10EAD}');
    assert(rview(v@) =~= o + dash_punctuation_chunk_2());
}

fn push_dash_punctuation_block_0(v: &mut Vec<ClassUnicodeRange>)
    ensures
        rview(final(v)@) == rview(old(v)@) + dash_punctuation_block_0(),
{
    let ghost o = rview(v@);
    push_dash_punctuation_chunk_0(v);
    assert(rview(v@) =~= o + (dash_punctuation_chunk_0()));
    push_dash_punctuation_chunk_1(v);
    assert(rview(v@) =~= o + (dash_punctuation_chunk_0() + dash_punctuation_chunk_1()));
    push_dash_punctuation_chunk_2(v);
    assert(rview(v@) =~= o + (dash_punctuation_chunk_0() + dash_punctuation_chunk_1() + dash_punctuation_chunk_2()));
}

/// The ranges of the general category Dash_Punctuation.
pub fn dash_punctuation_class() -> (v: Vec<ClassUnicodeRange>)
    ensures
        rview(v@) == dash_punctuation_ranges(),
{
    let mut v: Vec<ClassUnicodeRange> = Vec::new();
    assert(rview(v@) =~= Seq::<SRange>::empty());
    push_dash_punctuation_block_0(&mut v);
    assert(rview(v@) =~= dash_punctuation_block_0());
    v
}

pub open spec fn enclosing_mark_chunk_0() -> Seq<SRange> {
    seq![(0x488int, 0x489int), (0x1ABEint, 0x1ABEint), (0x20DDint, 0x20E0int), (0x20E2int, 0x20E4int), (0xA670int, 0xA672int)]
}

pub open spec fn enclosing_mark_block_0() -> Seq<SRange> {
    enclosing_mark_chunk_0()
}

/// The ranges of the general category Enclosing_Mark.
pub open spec fn enclosing_mark_ranges() -> Seq<SRange> {
    enclosing_mark_block_0()
}

proof fn lemma_enclosing_mark_block_0()
    ensures
        canonical(enclosing_mark_block_0()),
        enclosing_mark_block_0().len() > 0,
        enclosing_mark_block_0()[0] == enclosing_mark_chunk_0()[0],
        enclosing_mark_block_0().last() == enclosing_mark_chunk_0().last(),
{
    reveal_with_fuel(canonical, 9);
    assert(canonical(enclosing_mark_chunk_0()));
}

/// The general category Enclosing_Mark is a canonical class.
pub proof fn lemma_enclosing_mark_canonical()
    ensures
        canonical(enclosing_mark_ranges()),
{
    lemma_enclosing_mark_block_0();
}

fn push_enclosing_mark_chunk_0(v: &mut Vec<ClassUnicodeRange>)
    ensures
        rview(final(v)@) == rview(old(v)@) + enclosing_mark_chunk_0(),
{
    let ghost o = rview(v@);
    push_range(v, '\u{488}', '\u{489}');
    push_range(v, '\u{1ABE}', '\u{1ABE}');
    push_range(v, '\u{20DD}', '\u{20E0}');
    push_range(v, '\u{20E2}', '\u{20E4}');
    push_range(v, '\u{A670}', '\u{A672}');
    assert(rview(v@) =~= o + enclosing_mark_chunk_0());
}

fn push_enclosing_mark_block_0(v: &mut Vec<ClassUnicodeRange>)
    ensures
        rview(final(v)@) == rview(old(v)@) + enclosing_mark_block_0(),
{
    let ghost o = rview(v@);
    push_enclosing_mark_chunk_0(v);
    assert(rview(v@) =~= o + (enclosing_mark_chunk_0()));
}

/// The ranges of the general category Enclosing_Mark.
pub fn enclosing_mark_class() -> (v: Vec<ClassUnicodeRange>)
    ensures
        rview(v@) == enclosing_mark_ranges(),
{
    let mut v: Vec<ClassUnicodeRange> = Vec::new();
    assert(rview(v@) =~= Seq::<SRange>::empty());
    push_enclosing_mark_block_0(&mut v);
    assert(rview(v@) =~= enclosing_mark_block_0());
    v
}

pub open spec fn final_punctuation_chunk_0() -> Seq<SRange> {
    seq![(0xBBint, 0xBBint), (0x2019int, 0x2019int), (0x201Dint, 0x201Dint), (0x203Aint, 0x203Aint), (0x2E03int, 0x2E03int), (0x2E05int, 0x2E05int), (0x2E0Aint, 0x2E0Aint), (0x2E0Dint, 0x2E0Dint)]
}

pub open spec fn final_punctuation_chunk_1() -> Seq<SRange> {
    seq![(0x2E1Dint, 0x2E1Dint), (0x2E21int, 0x2E21int)]
}

pub open spec fn final_punctuation_block_0() -> Seq<SRange> {
    final_punctuation_chunk_0() + final_punctuation_chunk_1()
}

/// The ranges of the general category Final_Punctuation.
pub open spec fn final_punctuation_ranges() -> Seq<SRange> {
    final_punctuation_block_0()
}

proof fn lemma_final_punctuation_block_0()
    ensures
        canonical(final_punctuation_block_0()),
        final_punctuation_block_0().len() > 0,
        final_punctuation_block_0()[0] == final_punctuation_chunk_0()[0],
        final_punctuation_block_0().last() == final_punctuation_chunk_1().last(),
{
    reveal_with_fuel(canonical, 9);
    assert(canonical(final_punctuation_chunk_0()));
    assert(canonical(final_punctuation_chunk_1()));
    lemma_canonical_append(final_punctuation_chunk_0(), final_punctuation_chunk_1());
}

/// The general category Final_Punctuation is a canonical class.
pub proof fn lemma_final_punctuation_canonical()
    ensures
        canonical(final_punctuation_ranges()),
{
    lemma_final_punctuation_block_0();
}

fn push_final_punctuation_chunk_0(v: &mut Vec<ClassUnicodeRange>)
    ensures
        rview(final(v)@) == rview(old(v)@) + final_punctuation_chunk_0(),
{
    let ghost o = rview(v@);
    push_range(v, '\u{BB}', '\u{BB}');
    push_range(v, '\u{2019}', '\u{2019}');
    push_range(v, '\u{201D}', '\u{201D}');
    push_range(v, '\u{203A}', '\u{203A}');
    push_range(v, '\u{2E03}', '\u{2E03}');
    push_range(v, '\u{2E05}', '\u{2E05}');
    push_range(v, '\u{2E0A}', '\u{2E0A}');
    push_range(v, '\u{2E0D}', '\u{2E0D}');
    assert(rview(v@) =~= o + final_punctuation_chunk_0());
}

fn push_final_punctuation_chunk_1(v: &mut Vec<ClassUnicodeRange>)
    ensures
        rview(final(v)@) == rview(old(v)@) + final_punctuation_chunk_1(),
{
    let ghost o = rview(v@);
    push_range(v, '\u{2E1D}', '\u{2E1D}');
    push_range(v, '\u{2E21}', '\u{2E21}');
    assert(rview(v@) =~= o + final_punctuation_chunk_1());
}

fn push_final_punctuation_block_0(v: &mut Vec<ClassUnicodeRange>)
    ensures
        rview(final(v)@) == rview(old(v)@) + final_punctuation_block_0(),
{
    let ghost o = rview(v@);
    push_final_punctuation_chunk_0(v);
    assert(rview(v@) =~= o + (final_punctuation_chunk_0()));
    push_final_punctuation_chunk_1(v);
    assert(rview(v@) =~= o + (final_punctuation_chunk_0() + final_punctuation_chunk_1()));
}

/// The ranges of the general category Final_Punctuation.
pub fn final_punctuation_class() -> (v: Vec<ClassUnicodeRange>)
    ensures
        rview(v@) == final_punctuation_ranges(),
{
    let mut v: Vec<ClassUnicodeRange> = Vec::new();
    assert(rview(v@) =~= Seq::<SRange>::empty());
    push_final_punctuation_block_0(&mut v);
    assert(rview(v@) =~= final_punctuation_block_0());
    v
}

pub open spec fn format_chunk_0() -> Seq<SRange> {
    seq![(0xADint, 0xADint), (0x600int, 0x605int), (0x61Cint, 0x61Cint), (0x6DDint, 0x6DDint), (0x70Fint, 0x70Fint), (0x890int, 0x891int), (0x8E2int, 0x8E2int), (0x180Eint, 0x180Eint)]
}

pub open spec fn format_chunk_1() -> Seq<SRange> {
    seq![(0x200Bint, 0x200Fint), (0x202Aint, 0x202Eint), (0x2060int, 0x2064int), (0x2066int, 0x206Fint), (0xFEFFint, 0xFEFFint), (0xFFF9int, 0xFFFBint), (0x110BDint, 0x110BDint), (0x110CDint, 0x110CDint)]
}

pub open spec fn format_chunk_2() -> Seq<SRange> {
    seq![(0x13430int, 0x1343Fint), (0x1BCA0int, 0x1BCA3int), (0x1D173int, 0x1D17Aint), (0xE0001int, 0xE0001int), (0xE0020int, 0xE007Fint)]
}

pub open spec fn format_block_0() -> Seq<SRange> {
    format_chunk_0() + format_chunk_1() + format_chunk_2()
}

/// The ranges of the general category Format.
pub open spec fn format_ranges() -> Seq<SRange> {
    format_block_0()
}

proof fn lemma_format_block_0()
    ensures
        canonical(format_block_0()),
        format_block_0().len() > 0,
        format_block_0()[0] == format_chunk_0()[0],
        format_block_0().last() == format_chunk_2().last(),
{
    reveal_with_fuel(canonical, 9);
    assert(canonical(format_chunk_0()));
    assert(canonical(format_chunk_1()));
    assert(canonical(format_chunk_2()));
    lemma_canonical_append(format_chunk_0(), format_chunk_1());
    lemma_canonical_append(format_chunk_0() + format_chunk_1(), format_chunk_2());
}

/// The general category Format is a canonical class.
pub proof fn lemma_format_canonical()
    ensures
        canonical(format_ranges()),
{
    lemma_format_block_0();
}

fn push_format_chunk_0(v: &mut Vec<ClassUnicodeRange>)
    ensures
        rview(final(v)@) == rview(old(v)@) + format_chunk_0(),
{
    let ghost o = rview(v@);
    push_range(v, '\u{AD}', '\u{AD}');
    push_range(v, '\u{600}', '\u{605}');
    push_range(v, '\u{61C}', '\u{61C}');
    push_range(v, '\u{6DD}', '\u{6DD}');
    push_range(v, '\u{70F}', '\u{70F}');
    push_range(v, '\u{890}', '\u{891}');
    push_range(v, '\u{8E2}', '\u{8E2}');
    push_range(v, '\u{180E}', '\u{180E}');
    assert(rview(v@) =~= o + format_chunk_0());
}

fn push_format_chunk_1(v: &mut Vec<ClassUnicodeRange>)
    ensures
        rview(final(v)@) == rview(old(v)@) + format_chunk_1(),
{
    let ghost o = rview(v@);
    push_range(v, '\u{200B}', '\u{200F}');
    push_range(v, '\u{202A}', '\u{202E}');
    push_range(v, '\u{2060}', '\u{2064}');
    push_range(v, '\u{2066}', '\u{206F}');
    push_range(v, '\u{FEFF}', '\u{FEFF}');
    push_range(v, '\u{FFF9}', '\u{FFFB}');
    push_range(v, '\u{110BD}', '\u{110BD}');
    push_range(v, '\u{110CD}', '\u{110CD}');
    assert(rview(v@) =~= o + format_chunk_1());
}

fn push_format_chunk_2(v: &mut Vec<ClassUnicodeRange>)
    ensures
        rview(final(v)@) == rview(old(v)@) + format_chunk_2(),
{
    let ghost o = rview(v@);
    push_range(v, '\u{13430}', '\u{1343F}');
    push_range(v, '\u{1BCA0}', '\u{1BCA3}');
    push_range(v, '\u{1D173}', '\u{1D17A}');
    push_range(v, '\u{E0001}', '\u{E0001}');
    push_range(v, '\u{E0020}', '\u{E007F}');
    assert(rview(v@) =~= o + format_chunk_2());
}

fn push_format_block_0(v: &mut Vec<ClassUnicodeRange>)
    ensures
        rview(final(v)@) == rview(old(v)@) + format_block_0(),
{
    let ghost o = rview(v@);
    push_format_chunk_0(v);
    assert(rview(v@) =~= o + (format_chunk_0()));
    push_format_chunk_1(v);
    assert(rview(v@) =~= o + (format_chunk_0() + format_chunk_1()));
    push_format_chunk_2(v);
    assert(rview(v@) =~= o + (format_chunk_0() + format_chunk_1() + format_chunk_2()));
}

/// The ranges of the general category Format.
pub fn format_class() -> (v: Vec<ClassUnicodeRange>)
    ensures
        rview(v@) == format_ranges(),
{
    let mut v: Vec<ClassUnicodeRange> = Vec::new();
    assert(rview(v@) =~= Seq::<SRange>::empty());
    push_format_block_0(&mut v);
    assert(rview(v@) =~= format_block_0());
    v
}

pub open spec fn initial_punctuation_chunk_0() -> Seq<SRange> {
    seq![(0xABint, 0xABint), (0x2018int, 0x2018int), (0x201Bint, 0x201Cint), (0x201Fint, 0x201Fint), (0x2039int, 0x2039int), (0x2E02int, 0x2E02int), (0x2E04int, 0x2E04int), (0x2E09int, 0x2E09int)]
}

pub open spec fn initial_punctuation_chunk_1() -> Seq<SRange> {
    seq![(0x2E0Cint, 0x2E0Cint), (0x2E1Cint, 0x2E1Cint), (0x2E20int, 0x2E20int)]
}

pub open spec fn initial_punctuation_block_0() -> Seq<SRange> {
    initial_punctuation_chunk_0() + initial_punctuation_chunk_1()
}

/// The ranges of the general category Initial_Punctuation.
pub open spec fn initial_punctuation_ranges() -> Seq<SRange> {
    initial_punctuation_block_0()
}

proof fn lemma_initial_punctuation_block_0()
    ensures
        canonical(initial_punctuation_block_0()),
        initial_punctuation_block_0().len() > 0,
        initial_punctuation_block_0()[0] == initial_punctuation_chunk_0()[0],
        initial_punctuation_block_0().last() == initial_punctuation_chunk_1().last(),
{
    reveal_with_fuel(canonical, 9);
    assert(canonical(initial_punctuation_chunk_0()));
    assert(canonical(initial_punctuation_chunk_1()));
    lemma_canonical_append(initial_punctuation_chunk_0(), initial_punctuation_chunk_1());
}

/// The general category Initial_Punctuation is a canonical class.
pub proof fn lemma_initial_punctuation_canonical()
    ensures
        canonical(initial_punctuation_ranges()),
{
    lemma_initial_punctuation_block_0();
}

fn push_initial_punctuation_chunk_0(v: &mut Vec<ClassUnicodeRange>)
    ensures
        rview(final(v)@) == rview(old(v)@) + initial_punctuation_chunk_0(),
{
    let ghost o = rview(v@);
    push_range(v, '\u{AB}', '\u{AB}');
    push_range(v, '\u{2018}', '\u{2018}');
    push_range(v, '\u{201B}', '\u{201C}');
    push_range(v, '\u{201F}', '\u{201F}');
    push_range(v, '\u{2039}', '\u{2039}');
    push_range(v, '\u{2E02}', '\u{2E02}');
    push_range(v, '\u{2E04}', '\u{2E04}');
    push_range(v, '\u{2E09}', '\u{2E09}');
    assert(rview(v@) =~= o + initial_punctuation_chunk_0());
}

fn push_initial_punctuation_chunk_1(v: &mut Vec<ClassUnicodeRange>)
    ensures
        rview(final(v)@) == rview(old(v)@) + initial_punctuation_chunk_1(),
{
    let ghost o = rview(v@);
    push_range(v, '\u{2E0C}', '\u{2E0C}');
    push_range(v, '\u{2E1C}', '\u{2E1C}');
    push_range(v, '\u{2E20}', '\u{2E20}');
    assert(rview(v@) =~= o + initial_punctuation_chunk_1());
}

fn push_initial_punctuation_block_0(v: &mut Vec<ClassUnicodeRange>)
    ensures
        rview(final(v)@) == rview(old(v)@) + initial_punctuation_block_0(),
{
    let ghost o = rview(v@);
    push_initial_punctuation_chunk_0(v);
    assert(rview(v@) =~= o + (initial_punctuation_chunk_0()));
    push_initial_punctuation_chunk_1(v);
    assert(rview(v@) =~= o + (initial_punctuation_chunk_0() + initial_punctuation_chunk_1()));
}

/// The ranges of the general category Initial_Punctuation.
pub fn initial_punctuation_class() -> (v: Vec<ClassUnicodeRange>)
    ensures
        rview(v@) == initial_punctuation_ranges(),
{
    let mut v: Vec<ClassUnicodeRange> = Vec::new();
    assert(rview(v@) =~= Seq::<SRange>::empty());
    push_initial_punctuation_block_0(&mut v);
    assert(rview(v@) =~= initial_punctuation_block_0());
    v
}

pub open spec fn letter_chunk_0() -> Seq<SRange> {
    seq![(0x41int, 0x5Aint), (0x61int, 0x7Aint), (0xAAint, 0xAAint), (0xB5int, 0xB5int), (0xBAint, 0xBAint), (0xC0int, 0xD6int), (0xD8int, 0xF6int), (0xF8int, 0x2C1int)]
}

pub open spec fn letter_chunk_1() -> Seq<SRange> {
    seq![(0x2C6int, 0x2D1int), (0x2E0int, 0x2E4int), (0x2ECint, 0x2ECint), (0x2EEint, 0x2EEint), (0x370int, 0x374int), (0x376int, 0x377int), (0x37Aint, 0x37Dint), (0x37Fint, 0x37Fint)]
}

pub open spec fn letter_chunk_2() -> Seq<SRange> {
    seq![(0x386int, 0x386int), (0x388int, 0x38Aint), (0x38Cint, 0x38Cint), (0x38Eint, 0x3A1int), (0x3A3int, 0x3F5int), (0x3F7int, 0x481int), (0x48Aint, 0x52Fint), (0x531int, 0x556int)]
}

pub open spec fn letter_chunk_3() -> Seq<SRange> {
    seq![(0x559int, 0x559int), (0x560int, 0x588int), (0x5D0int, 0x5EAint), (0x5EFint, 0x5F2int), (0x620int, 0x64Aint), (0x66Eint, 0x66Fint), (0x671int, 0x6D3int), (0x6D5int, 0x6D5int)]
}

pub open spec fn letter_chunk_4() -> Seq<SRange> {
    seq![(0x6E5int, 0x6E6int), (0x6EEint, 0x6EFint), (0x6FAint, 0x6FCint), (0x6FFint, 0x6FFint), (0x710int, 0x710int), (0x712int, 0x72Fint), (0x74Dint, 0x7A5int), (0x7B1int, 0x7B1int)]
}

pub open spec fn letter_chunk_5() -> Seq<SRange> {
    seq![(0x7CAint, 0x7EAint), (0x7F4int, 0x7F5int), (0x7FAint, 0x7FAint), (0x800int, 0x815int), (0x81Aint, 0x81Aint), (0x824int, 0x824int), (0x828int, 0x828int), (0x840int, 0x858int)]
}

pub open spec fn letter_chunk_6() -> Seq<SRange> {
    seq![(0x860int, 0x86Aint), (0x870int, 0x887int), (0x889int, 0x88Eint), (0x8A0int, 0x8C9int), (0x904int, 0x939int), (0x93Dint, 0x93Dint), (0x950int, 0x950int), (0x958int, 0x961int)]
}

pub open spec fn letter_chunk_7() -> Seq<SRange> {
    seq![(0x971int, 0x980int), (0x985int, 0x98Cint), (0x98Fint, 0x990int), (0x993int, 0x9A8int), (0x9AAint, 0x9B0int), (0x9B2int, 0x9B2int), (0x9B6int, 0x9B9int), (0x9BDint, 0x9BDint)]
}

pub open spec fn letter_chunk_8() -> Seq<SRange> {
    seq![(0x9CEint, 0x9CEint), (0x9DCint, 0x9DDint), (0x9DFint, 0x9E1int), (0x9F0int, 0x9F1int), (0x9FCint, 0x9FCint), (0xA05int, 0xA0Aint), (0xA0Fint, 0xA10int), (0xA13int, 0xA28int)]
}

pub open spec fn letter_chunk_9() -> Seq<SRange> {
    seq![(0xA2Aint, 0xA30int), (0xA32int, 0xA33int), (0xA35int, 0xA36int), (0xA38int, 0xA39int), (0xA59int, 0xA5Cint), (0xA5Eint, 0xA5Eint), (0xA72int, 0xA74int), (0xA85int, 0xA8Dint)]
}

pub open spec fn letter_chunk_10() -> Seq<SRange> {
    seq![(0xA8Fint, 0xA91int), (0xA93int, 0xAA8int), (0xAAAint, 0xAB0int), (0xAB2int, 0xAB3int), (0xAB5int, 0xAB9int), (0xABDint, 0xABDint), (0xAD0int, 0xAD0int), (0xAE0int, 0xAE1int)]
}

pub open spec fn letter_chunk_11() -> Seq<SRange> {
    seq![(0xAF9int, 0xAF9int), (0xB05int, 0xB0Cint), (0xB0Fint, 0xB10int), (0xB13int, 0xB28int), (0xB2Aint, 0xB30int), (0xB32int, 0xB33int), (0xB35int, 0xB39int), (0xB3Dint, 0xB3Dint)]
}

pub open spec fn letter_chunk_12() -> Seq<SRange> {
    seq![(0xB5Cint, 0xB5Dint), (0xB5Fint, 0xB61int), (0xB71int, 0xB71int), (0xB83int, 0xB83int), (0xB85int, 0xB8Aint), (0xB8Eint, 0xB90int), (0xB92int, 0xB95int), (0xB99int, 0xB9Aint)]
}

pub open spec fn letter_chunk_13() -> Seq<SRange> {
    seq![(0xB9Cint, 0xB9Cint), (0xB9Eint, 0xB9Fint), (0xBA3int, 0xBA4int), (0xBA8int, 0xBAAint), (0xBAEint, 0xBB9int), (0xBD0int, 0xBD0int), (0xC05int, 0xC0Cint), (0xC0Eint, 0xC10int)]
}

pub open spec fn letter_chunk_14() -> Seq<SRange> {
    seq![(0xC12int, 0xC28int), (0xC2Aint, 0xC39int), (0xC3Dint, 0xC3Dint), (0xC58int, 0xC5Aint), (0xC5Dint, 0xC5Dint), (0xC60int, 0xC61int), (0xC80int, 0xC80int), (0xC85int, 0xC8Cint)]
}

pub open spec fn letter_chunk_15() -> Seq<SRange> {
    seq![(0xC8Eint, 0xC90int), (0xC92int, 0xCA8int), (0xCAAint, 0xCB3int), (0xCB5int, 0xCB9int), (0xCBDint, 0xCBDint), (0xCDDint, 0xCDEint), (0xCE0int, 0xCE1int), (0xCF1int, 0xCF2int)]
}

pub open spec fn letter_chunk_16() -> Seq<SRange> {
    seq![(0xD04int, 0xD0Cint), (0xD0Eint, 0xD10int), (0xD12int, 0xD3Aint), (0xD3Dint, 0xD3Dint), (0xD4Eint, 0xD4Eint), (0xD54int, 0xD56int), (0xD5Fint, 0xD61int), (0xD7Aint, 0xD7Fint)]
}

pub open spec fn letter_chunk_17() -> Seq<SRange> {
    seq![(0xD85int, 0xD96int), (0xD9Aint, 0xDB1int), (0xDB3int, 0xDBBint), (0xDBDint, 0xDBDint), (0xDC0int, 0xDC6int), (0xE01int, 0xE30int), (0xE32int, 0xE33int), (0xE40int, 0xE46int)]
}

pub open spec fn letter_chunk_18() -> Seq<SRange> {
    seq![(0xE81int, 0xE82int), (0xE84int, 0xE84int), (0xE86int, 0xE8Aint), (0xE8Cint, 0xEA3int), (0xEA5int, 0xEA5int), (0xEA7int, 0xEB0int), (0xEB2int, 0xEB3int), (0xEBDint, 0xEBDint)]
}

pub open spec fn letter_chunk_19() -> Seq<SRange> {
    seq![(0xEC0int, 0xEC4int), (0xEC6int, 0xEC6int), (0xEDCint, 0xEDFint), (0xF00int, 0xF00int), (0xF40int, 0xF47int), (0xF49int, 0xF6Cint), (0xF88int, 0xF8Cint), (0x1000int, 0x102Aint)]
}

pub open spec fn letter_chunk_20() -> Seq<SRange> {
    seq![(0x103Fint, 0x103Fint), (0x1050int, 0x1055int), (0x105Aint, 0x105Dint), (0x1061int, 0x1061int), (0x1065int, 0x1066int), (0x106Eint, 0x1070int), (0x1075int, 0x1081int), (0x108Eint, 0x108Eint)]
}

pub open spec fn letter_chunk_21() -> Seq<SRange> {
    seq![(0x10A0int, 0x10C5int), (0x10C7int, 0x10C7int), (0x10CDint, 0x10CDint), (0x10D0int, 0x10FAint), (0x10FCint, 0x1248int), (0x124Aint, 0x124Dint), (0x1250int, 0x1256int), (0x1258int, 0x1258int)]
}

pub open spec fn letter_chunk_22() -> Seq<SRange> {
    seq![(0x125Aint, 0x125Dint), (0x1260int, 0x1288int), (0x128Aint, 0x128Dint), (0x1290int, 0x12B0int), (0x12B2int, 0x12B5int), (0x12B8int, 0x12BEint), (0x12C0int, 0x12C0int), (0x12C2int, 0x12C5int)]
}

pub open spec fn letter_chunk_23() -> Seq<SRange> {
    seq![(0x12C8int, 0x12D6int), (0x12D8int, 0x1310int), (0x1312int, 0x1315int), (0x1318int, 0x135Aint), (0x1380int, 0x138Fint), (0x13A0int, 0x13F5int), (0x13F8int, 0x13FDint), (0x1401int, 0x166Cint)]
}

pub open spec fn letter_chunk_24() -> Seq<SRange> {
    seq![(0x166Fint, 0x167Fint), (0x1681int, 0x169Aint), (0x16A0int, 0x16EAint), (0x16F1int, 0x16F8int), (0x1700int, 0x1711int), (0x171Fint, 0x1731int), (0x1740int, 0x1751int), (0x1760int, 0x176Cint)]
}

pub open spec fn letter_chunk_25() -> Seq<SRange> {
    seq![(0x176Eint, 0x1770int), (0x1780int, 0x17B3int), (0x17D7int, 0x17D7int), (0x17DCint, 0x17DCint), (0x1820int, 0x1878int), (0x1880int, 0x1884int), (0x1887int, 0x18A8int), (0x18AAint, 0x18AAint)]
}

pub open spec fn letter_chunk_26() -> Seq<SRange> {
    seq![(0x18B0int, 0x18F5int), (0x1900int, 0x191Eint), (0x1950int, 0x196Dint), (0x1970int, 0x1974int), (0x1980int, 0x19ABint), (0x19B0int, 0x19C9int), (0x1A00int, 0x1A16int), (0x1A20int, 0x1A54int)]
}

pub open spec fn letter_chunk_27() -> Seq<SRange> {
    seq![(0x1AA7int, 0x1AA7int), (0x1B05int, 0x1B33int), (0x1B45int, 0x1B4Cint), (0x1B83int, 0x1BA0int), (0x1BAEint, 0x1BAFint), (0x1BBAint, 0x1BE5int), (0x1C00int, 0x1C23int), (0x1C4Dint, 0x1C4Fint)]
}

pub open spec fn letter_chunk_28() -> Seq<SRange> {
    seq![(0x1C5Aint, 0x1C7Dint), (0x1C80int, 0x1C8Aint), (0x1C90int, 0x1CBAint), (0x1CBDint, 0x1CBFint), (0x1CE9int, 0x1CECint), (0x1CEEint, 0x1CF3int), (0x1CF5int, 0x1CF6int), (0x1CFAint, 0x1CFAint)]
}

pub open spec fn letter_chunk_29() -> Seq<SRange> {
    seq![(0x1D00int, 0x1DBFint), (0x1E00int, 0x1F15int), (0x1F18int, 0x1F1Dint), (0x1F20int, 0x1F45int), (0x1F48int, 0x1F4Dint), (0x1F50int, 0x1F57int), (0x1F59int, 0x1F59int), (0x1F5Bint, 0x1F5Bint)]
}

pub open spec fn letter_chunk_30() -> Seq<SRange> {
    seq![(0x1F5Dint, 0x1F5Dint), (0x1F5Fint, 0x1F7Dint), (0x1F80int, 0x1FB4int), (0x1FB6int, 0x1FBCint), (0x1FBEint, 0x1FBEint), (0x1FC2int, 0x1FC4int), (0x1FC6int, 0x1FCCint), (0x1FD0int, 0x1FD3int)]
}

pub open spec fn letter_chunk_31() -> Seq<SRange> {
    seq![(0x1FD6int, 0x1FDBint), (0x1FE0int, 0x1FECint), (0x1FF2int, 0x1FF4int), (0x1FF6int, 0x1FFCint), (0x2071int, 0x2071int), (0x207Fint, 0x207Fint), (0x2090int, 0x209Cint), (0x2102int, 0x2102int)]
}

pub open spec fn letter_chunk_32() -> Seq<SRange> {
    seq![(0x2107int, 0x2107int), (0x210Aint, 0x2113int), (0x2115int, 0x2115int), (0x2119int, 0x211Dint), (0x2124int, 0x2124int), (0x2126int, 0x2126int), (0x2128int, 0x2128int), (0x212Aint, 0x212Dint)]
}

pub open spec fn letter_chunk_33() -> Seq<SRange> {
    seq![(0x212Fint, 0x2139int), (0x213Cint, 0x213Fint), (0x2145int, 0x2149int), (0x214Eint, 0x214Eint), (0x2183int, 0x2184int), (0x2C00int, 0x2CE4int), (0x2CEBint, 0x2CEEint), (0x2CF2int, 0x2CF3int)]
}

pub open spec fn letter_chunk_34() -> Seq<SRange> {
    seq![(0x2D00int, 0x2D25int), (0x2D27int, 0x2D27int), (0x2D2Dint, 0x2D2Dint), (0x2D30int, 0x2D67int), (0x2D6Fint, 0x2D6Fint), (0x2D80int, 0x2D96int), (0x2DA0int, 0x2DA6int), (0x2DA8int, 0x2DAEint)]
}

pub open spec fn letter_chunk_35() -> Seq<SRange> {
    seq![(0x2DB0int, 0x2DB6int), (0x2DB8int, 0x2DBEint), (0x2DC0int, 0x2DC6int), (0x2DC8int, 0x2DCEint), (0x2DD0int, 0x2DD6int), (0x2DD8int, 0x2DDEint), (0x2E2Fint, 0x2E2Fint), (0x3005int, 0x3006int)]
}

pub open spec fn letter_chunk_36() -> Seq<SRange> {
    seq![(0x3031int, 0x3035int), (0x303Bint, 0x303Cint), (0x3041int, 0x3096int), (0x309Dint, 0x309Fint), (0x30A1int, 0x30FAint), (0x30FCint, 0x30FFint), (0x3105int, 0x312Fint), (0x3131int, 0x318Eint)]
}

pub open spec fn letter_chunk_37() -> Seq<SRange> {
    seq![(0x31A0int, 0x31BFint), (0x31F0int, 0x31FFint), (0x3400int, 0x4DBFint), (0x4E00int, 0xA48Cint), (0xA4D0int, 0xA4FDint), (0xA500int, 0xA60Cint), (0xA610int, 0xA61Fint), (0xA62Aint, 0xA62Bint)]
}

pub open spec fn letter_chunk_38() -> Seq<SRange> {
    seq![(0xA640int, 0xA66Eint), (0xA67Fint, 0xA69Dint), (0xA6A0int, 0xA6E5int), (0xA717int, 0xA71Fint), (0xA722int, 0xA788int), (0xA78Bint, 0xA7CDint), (0xA7D0int, 0xA7D1int), (0xA7D3int, 0xA7D3int)]
}

pub open spec fn letter_chunk_39() -> Seq<SRange> {
    seq![(0xA7D5int, 0xA7DCint), (0xA7F2int, 0xA801int), (0xA803int, 0xA805int), (0xA807int, 0xA80Aint), (0xA80Cint, 0xA822int), (0xA840int, 0xA873int), (0xA882int, 0xA8B3int), (0xA8F2int, 0xA8F7int)]
}

pub open spec fn letter_chunk_40() -> Seq<SRange> {
    seq![(0xA8FBint, 0xA8FBint), (0xA8FDint, 0xA8FEint), (0xA90Aint, 0xA925int), (0xA930int, 0xA946int), (0xA960int, 0xA97Cint), (0xA984int, 0xA9B2int), (0xA9CFint, 0xA9CFint), (0xA9E0int, 0xA9E4int)]
}

pub open spec fn letter_chunk_41() -> Seq<SRange> {
    seq![(0xA9E6int, 0xA9EFint), (0xA9FAint, 0xA9FEint), (0xAA00int, 0xAA28int), (0xAA40int, 0xAA42int), (0xAA44int, 0xAA4Bint), (0xAA60int, 0xAA76int), (0xAA7Aint, 0xAA7Aint), (0xAA7Eint, 0xAAAFint)]
}

pub open spec fn letter_chunk_42() -> Seq<SRange> {
    seq![(0xAAB1int, 0xAAB1int), (0xAAB5int, 0xAAB6int), (0xAAB9int, 0xAABDint), (0xAAC0int, 0xAAC0int), (0xAAC2int, 0xAAC2int), (0xAADBint, 0xAADDint), (0xAAE0int, 0xAAEAint), (0xAAF2int, 0xAAF4int)]
}

pub open spec fn letter_chunk_43() -> Seq<SRange> {
    seq![(0xAB01int, 0xAB06int), (0xAB09int, 0xAB0Eint), (0xAB11int, 0xAB16int), (0xAB20int, 0xAB26int), (0xAB28int, 0xAB2Eint), (0xAB30int, 0xAB5Aint), (0xAB5Cint, 0xAB69int), (0xAB70int, 0xABE2int)]
}

pub open spec fn letter_chunk_44() -> Seq<SRange> {
    seq![(0xAC00int, 0xD7A3int), (0xD7B0int, 0xD7C6int), (0xD7CBint, 0xD7FBint), (0xF900int, 0xFA6Dint), (0xFA70int, 0xFAD9int), (0xFB00int, 0xFB06int), (0xFB13int, 0xFB17int), (0xFB1Dint, 0xFB1Dint)]
}

pub open spec fn letter_chunk_45() -> Seq<SRange> {
    seq![(0xFB1Fint, 0xFB28int), (0xFB2Aint, 0xFB36int), (0xFB38int, 0xFB3Cint), (0xFB3Eint, 0xFB3Eint), (0xFB40int, 0xFB41int), (0xFB43int, 0xFB44int), (0xFB46int, 0xFBB1int), (0xFBD3int, 0xFD3Dint)]
}

pub open spec fn letter_chunk_46() -> Seq<SRange> {
    seq![(0xFD50int, 0xFD8Fint), (0xFD92int, 0xFDC7int), (0xFDF0int, 0xFDFBint), (0xFE70int, 0xFE74int), (0xFE76int, 0xFEFCint), (0xFF21int, 0xFF3Aint), (0xFF41int, 0xFF5Aint), (0xFF66int, 0xFFBEint)]
}

pub open spec fn letter_chunk_47() -> Seq<SRange> {
    seq![(0xFFC2int, 0xFFC7int), (0xFFCAint, 0xFFCFint), (0xFFD2int, 0xFFD7int), (0xFFDAint, 0xFFDCint), (0x10000int, 0x1000Bint), (0x1000Dint, 0x10026int), (0x10028int, 0x1003Aint), (0x1003Cint, 0x1003Dint)]
}

pub open spec fn letter_chunk_48() -> Seq<SRange> {
    seq![(0x1003Fint, 0x1004Dint), (0x10050int, 0x1005Dint), (0x10080int, 0x100FAint), (0x10280int, 0x1029Cint), (0x102A0int, 0x102D0int), (0x10300int, 0x1031Fint), (0x1032Dint, 0x10340int), (0x10342int, 0x10349int)]
}

pub open spec fn letter_chunk_49() -> Seq<SRange> {
    seq![(0x10350int, 0x10375int), (0x10380int, 0x1039Dint), (0x103A0int, 0x103C3int), (0x103C8int, 0x103CFint), (0x10400int, 0x1049Dint), (0x104B0int, 0x104D3int), (0x104D8int, 0x104FBint), (0x10500int, 0x10527int)]
}

pub open spec fn letter_chunk_50() -> Seq<SRange> {
    seq![(0x10530int, 0x10563int), (0x10570int, 0x1057Aint), (0x1057Cint, 0x1058Aint), (0x1058Cint, 0x10592int), (0x10594int, 0x10595int), (0x10597int, 0x105A1int), (0x105A3int, 0x105B1int), (0x105B3int, 0x105B9int)]
}

pub open spec fn letter_chunk_51() -> Seq<SRange> {
    seq![(0x105BBint, 0x105BCint), (0x105C0int, 0x105F3int), (0x10600int, 0x10736int), (0x10740int, 0x10755int), (0x10760int, 0x10767int), (0x10780int, 0x10785int), (0x10787int, 0x107B0int), (0x107B2int, 0x107BAint)]
}

pub open spec fn letter_chunk_52() -> Seq<SRange> {
    seq![(0x10800int, 0x10805int), (0x10808int, 0x10808int), (0x1080Aint, 0x10835int), (0x10837int, 0x10838int), (0x1083Cint, 0x1083Cint), (0x1083Fint, 0x10855int), (0x10860int, 0x10876int), (0x10880int, 0x1089Eint)]
}

pub open spec fn letter_chunk_53() -> Seq<SRange> {
    seq![(0x108E0int, 0x108F2int), (0x108F4int, 0x108F5int), (0x10900int, 0x10915int), (0x10920int, 0x10939int), (0x10980int, 0x109B7int), (0x109BEint, 0x109BFint), (0x10A00int, 0x10A00int), (0x10A10int, 0x10A13int)]
}

pub open spec fn letter_chunk_54() -> Seq<SRange> {
    seq![(0x10A15int, 0x10A17int), (0x10A19int, 0x10A35int), (0x10A60int, 0x10A7Cint), (0x10A80int, 0x10A9Cint), (0x10AC0int, 0x10AC7int), (0x10AC9int, 0x10AE4int), (0x10B00int, 0x10B35int), (0x10B40int, 0x10B55int)]
}

pub open spec fn letter_chunk_55() -> Seq<SRange> {
    seq![(0x10B60int, 0x10B72int), (0x10B80int, 0x10B91int), (0x10C00int, 0x10C48int), (0x10C80int, 0x10CB2int), (0x10CC0int, 0x10CF2int), (0x10D00int, 0x10D23int), (0x10D4Aint, 0x10D65int), (0x10D6Fint, 0x10D85int)]
}

pub open spec fn letter_chunk_56() -> Seq<SRange> {
    seq![(0x10E80int, 0x10EA9int), (0x10EB0int, 0x10EB1int), (0x10EC2int, 0x10EC4int), (0x10F00int, 0x10F1Cint), (0x10F27int, 0x10F27int), (0x10F30int, 0x10F45int), (0x10F70int, 0x10F81int), (0x10FB0int, 0x10FC4int)]
}

pub open spec fn letter_chunk_57() -> Seq<SRange> {
    seq![(0x10FE0int, 0x10FF6int), (0x11003int, 0x11037int), (0x11071int, 0x11072int), (0x11075int, 0x11075int), (0x11083int, 0x110AFint), (0x110D0int, 0x110E8int), (0x11103int, 0x11126int), (0x11144int, 0x11144int)]
}

pub open spec fn letter_chunk_58() -> Seq<SRange> {
    seq![(0x11147int, 0x11147int), (0x11150int, 0x11172int), (0x11176int, 0x11176int), (0x11183int, 0x111B2int), (0x111C1int, 0x111C4int), (0x111DAint, 0x111DAint), (0x111DCint, 0x111DCint), (0x11200int, 0x11211int)]
}

pub open spec fn letter_chunk_59() -> Seq<SRange> {
    seq![(0x11213int, 0x1122Bint), (0x1123Fint, 0x11240int), (0x11280int, 0x11286int), (0x11288int, 0x11288int), (0x1128Aint, 0x1128Dint), (0x1128Fint, 0x1129Dint), (0x1129Fint, 0x112A8int), (0x112B0int, 0x112DEint)]
}

pub open spec fn letter_chunk_60() -> Seq<SRange> {
    seq![(0x11305int, 0x1130Cint), (0x1130Fint, 0x11310int), (0x11313int, 0x11328int), (0x1132Aint, 0x11330int), (0x11332int, 0x11333int), (0x11335int, 0x11339int), (0x1133Dint, 0x1133Dint), (0x11350int, 0x11350int)]
}

pub open spec fn letter_chunk_61() -> Seq<SRange> {
    seq![(0x1135Dint, 0x11361int), (0x11380int, 0x11389int), (0x1138Bint, 0x1138Bint), (0x1138Eint, 0x1138Eint), (0x11390int, 0x113B5int), (0x113B7int, 0x113B7int), (0x113D1int, 0x113D1int), (0x113D3int, 0x113D3int)]
}

pub open spec fn letter_chunk_62() -> Seq<SRange> {
    seq![(0x11400int, 0x11434int), (0x11447int, 0x1144Aint), (0x1145Fint, 0x11461int), (0x11480int, 0x114AFint), (0x114C4int, 0x114C5int), (0x114C7int, 0x114C7int), (0x11580int, 0x115AEint), (0x115D8int, 0x115DBint)]
}

pub open spec fn letter_chunk_63() -> Seq<SRange> {
    seq![(0x11600int, 0x1162Fint), (0x11644int, 0x11644int), (0x11680int, 0x116AAint), (0x116B8int, 0x116B8int), (0x11700int, 0x1171Aint), (0x11740int, 0x11746int), (0x11800int, 0x1182Bint), (0x118A0int, 0x118DFint)]
}

pub open spec fn letter_chunk_64() -> Seq<SRange> {
    seq![(0x118FFint, 0x11906int), (0x11909int, 0x11909int), (0x1190Cint, 0x11913int), (0x11915int, 0x11916int), (0x11918int, 0x1192Fint), (0x1193Fint, 0x1193Fint), (0x11941int, 0x11941int), (0x119A0int, 0x119A7int)]
}

pub open spec fn letter_chunk_65() -> Seq<SRange> {
    seq![(0x119AAint, 0x119D0int), (0x119E1int, 0x119E1int), (0x119E3int, 0x119E3int), (0x11A00int, 0x11A00int), (0x11A0Bint, 0x11A32int), (0x11A3Aint, 0x11A3Aint), (0x11A50int, 0x11A50int), (0x11A5Cint, 0x11A89int)]
}

pub open spec fn letter_chunk_66() -> Seq<SRange> {
    seq![(0x11A9Dint, 0x11A9Dint), (0x11AB0int, 0x11AF8int), (0x11BC0int, 0x11BE0int), (0x11C00int, 0x11C08int), (0x11C0Aint, 0x11C2Eint), (0x11C40int, 0x11C40int), (0x11C72int, 0x11C8Fint), (0x11D00int, 0x11D06int)]
}

pub open spec fn letter_chunk_67() -> Seq<SRange> {
    seq![(0x11D08int, 0x11D09int), (0x11D0Bint, 0x11D30int), (0x11D46int, 0x11D46int), (0x11D60int, 0x11D65int), (0x11D67int, 0x11D68int), (0x11D6Aint, 0x11D89int), (0x11D98int, 0x11D98int), (0x11EE0int, 0x11EF2int)]
}

pub open spec fn letter_chunk_68() -> Seq<SRange> {
    seq![(0x11F02int, 0x11F02int), (0x11F04int, 0x11F10int), (0x11F12int, 0x11F33int), (0x11FB0int, 0x11FB0int), (0x12000int, 0x12399int), (0x12480int, 0x12543int), (0x12F90int, 0x12FF0int), (0x13000int, 0x1342Fint)]
}

pub open spec fn letter_chunk_69() -> Seq<SRange> {
    seq![(0x13441int, 0x13446int), (0x13460int, 0x143FAint), (0x14400int, 0x14646int), (0x16100int, 0x1611Dint), (0x16800int, 0x16A38int), (0x16A40int, 0x16A5Eint), (0x16A70int, 0x16ABEint), (0x16AD0int, 0x16AEDint)]
}

pub open spec fn letter_chunk_70() -> Seq<SRange> {
    seq![(0x16B00int, 0x16B2Fint), (0x16B40int, 0x16B43int), (0x16B63int, 0x16B77int), (0x16B7Dint, 0x16B8Fint), (0x16D40int, 0x16D6Cint), (0x16E40int, 0x16E7Fint), (0x16F00int, 0x16F4Aint), (0x16F50int, 0x16F50int)]
}

pub open spec fn letter_chunk_71() -> Seq<SRange> {
    seq![(0x16F93int, 0x16F9Fint), (0x16FE0int, 0x16FE1int), (0x16FE3int, 0x16FE3int), (0x17000int, 0x187F7int), (0x18800int, 0x18CD5int), (0x18CFFint, 0x18D08int), (0x1AFF0int, 0x1AFF3int), (0x1AFF5int, 0x1AFFBint)]
}

pub open spec fn letter_chunk_72() -> Seq<SRange> {
    seq![(0x1AFFDint, 0x1AFFEint), (0x1B000int, 0x1B122int), (0x1B132int, 0x1B132int), (0x1B150int, 0x1B152int), (0x1B155int, 0x1B155int), (0x1B164int, 0x1B167int), (0x1B170int, 0x1B2FBint), (0x1BC00int, 0x1BC6Aint)]
}

pub open spec fn letter_chunk_73() -> Seq<SRange> {
    seq![(0x1BC70int, 0x1BC7Cint), (0x1BC80int, 0x1BC88int), (0x1BC90int, 0x1BC99int), (0x1D400int, 0x1D454int), (0x1D456int, 0x1D49Cint), (0x1D49Eint, 0x1D49Fint), (0x1D4A2int, 0x1D4A2int), (0x1D4A5int, 0x1D4A6int)]
}

pub open spec fn letter_chunk_74() -> Seq<SRange> {
    seq![(0x1D4A9int, 0x1D4ACint), (0x1D4AEint, 0x1D4B9int), (0x1D4BBint, 0x1D4BBint), (0x1D4BDint, 0x1D4C3int), (0x1D4C5int, 0x1D505int), (0x1D507int, 0x1D50Aint), (0x1D50Dint, 0x1D514int), (0x1D516int, 0x1D51Cint)]
}

pub open spec fn letter_chunk_75() -> Seq<SRange> {
    seq![(0x1D51Eint, 0x1D539int), (0x1D53Bint, 0x1D53Eint), (0x1D540int, 0x1D544int), (0x1D546int, 0x1D546int), (0x1D54Aint, 0x1D550int), (0x1D552int, 0x1D6A5int), (0x1D6A8int, 0x1D6C0int), (0x1D6C2int, 0x1D6DAint)]
}

pub open spec fn letter_chunk_76() -> Seq<SRange> {
    seq![(0x1D6DCint, 0x1D6FAint), (0x1D6FCint, 0x1D714int), (0x1D716int, 0x1D734int), (0x1D736int, 0x1D74Eint), (0x1D750int, 0x1D76Eint), (0x1D770int, 0x1D788int), (0x1D78Aint, 0x1D7A8int), (0x1D7AAint, 0x1D7C2int)]
}

pub open spec fn letter_chunk_77() -> Seq<SRange> {
    seq![(0x1D7C4int, 0x1D7CBint), (0x1DF00int, 0x1DF1Eint), (0x1DF25int, 0x1DF2Aint), (0x1E030int, 0x1E06Dint), (0x1E100int, 0x1E12Cint), (0x1E137int, 0x1E13Dint), (0x1E14Eint, 0x1E14Eint), (0x1E290int, 0x1E2ADint)]
}

pub open spec fn letter_chunk_78() -> Seq<SRange> {
    seq![(0x1E2C0int, 0x1E2EBint), (0x1E4D0int, 0x1E4EBint), (0x1E5D0int, 0x1E5EDint), (0x1E5F0int, 0x1E5F0int), (0x1E7E0int, 0x1E7E6int), (0x1E7E8int, 0x1E7EBint), (0x1E7EDint, 0x1E7EEint), (0x1E7F0int, 0x1E7FEint)]
}

pub open spec fn letter_chunk_79() -> Seq<SRange> {
    seq![(0x1E800int, 0x1E8C4int), (0x1E900int, 0x1E943int), (0x1E94Bint, 0x1E94Bint), (0x1EE00int, 0x1EE03int), (0x1EE05int, 0x1EE1Fint), (0x1EE21int, 0x1EE22int), (0x1EE24int, 0x1EE24int), (0x1EE27int, 0x1EE27int)]
}

pub open spec fn letter_chunk_80() -> Seq<SRange> {
    seq![(0x1EE29int, 0x1EE32int), (0x1EE34int, 0x1EE37int), (0x1EE39int, 0x1EE39int), (0x1EE3Bint, 0x1EE3Bint), (0x1EE42int, 0x1EE42int), (0x1EE47int, 0x1EE47int), (0x1EE49int, 0x1EE49int), (0x1EE4Bint, 0x1EE4Bint)]
}

pub open spec fn letter_chunk_81() -> Seq<SRange> {
    seq![(0x1EE4Dint, 0x1EE4Fint), (0x1EE51int, 0x1EE52int), (0x1EE54int, 0x1EE54int), (0x1EE57int, 0x1EE57int), (0x1EE59int, 0x1EE59int), (0x1EE5Bint, 0x1EE5Bint), (0x1EE5Dint, 0x1EE5Dint), (0x1EE5Fint, 0x1EE5Fint)]
}

pub open spec fn letter_chunk_82() -> Seq<SRange> {
    seq![(0x1EE61int, 0x1EE62int), (0x1EE64int, 0x1EE64int), (0x1EE67int, 0x1EE6Aint), (0x1EE6Cint, 0x1EE72int), (0x1EE74int, 0x1EE77int), (0x1EE79int, 0x1EE7Cint), (0x1EE7Eint, 0x1EE7Eint), (0x1EE80int, 0x1EE89int)]
}

pub open spec fn letter_chunk_83() -> Seq<SRange> {
    seq![(0x1EE8Bint, 0x1EE9Bint), (0x1EEA1int, 0x1EEA3int), (0x1EEA5int, 0x1EEA9int), (0x1EEABint, 0x1EEBBint), (0x20000int, 0x2A6DFint), (0x2A700int, 0x2B739int), (0x2B740int, 0x2B81Dint), (0x2B820int, 0x2CEA1int)]
}

pub open spec fn letter_chunk_84() -> Seq<SRange> {
    seq![(0x2CEB0int, 0x2EBE0int), (0x2EBF0int, 0x2EE5Dint), (0x2F800int, 0x2FA1Dint), (0x30000int, 0x3134Aint), (0x31350int, 0x323AFint)]
}

pub open spec fn letter_block_0() -> Seq<SRange> {
    letter_chunk_0() + letter_chunk_1() + letter_chunk_2() + letter_chunk_3() + letter_chunk_4() + letter_chunk_5() + letter_chunk_6() + letter_chunk_7() + letter_chunk_8() + letter_chunk_9()
}

pub open spec fn letter_block_1() -> Seq<SRange> {
    letter_chunk_10() + letter_chunk_11() + letter_chunk_12() + letter_chunk_13() + letter_chunk_14() + letter_chunk_15() + letter_chunk_16() + letter_chunk_17() + letter_chunk_18() + letter_chunk_19()
}

pub open spec fn letter_block_2() -> Seq<SRange> {
    letter_chunk_20() + letter_chunk_21() + letter_chunk_22() + letter_chunk_23() + letter_chunk_24() + letter_chunk_25() + letter_chunk_26() + letter_chunk_27() + letter_chunk_28() + letter_chunk_29()
}

pub open spec fn letter_block_3() -> Seq<SRange> {
    letter_chunk_30() + letter_chunk_31() + letter_chunk_32() + letter_chunk_33() + letter_chunk_34() + letter_chunk_35() + letter_chunk_36() + letter_chunk_37() + letter_chunk_38() + letter_chunk_39()
}

pub open spec fn letter_block_4() -> Seq<SRange> {
    letter_chunk_40() + letter_chunk_41() + letter_chunk_42() + letter_chunk_43() + letter_chunk_44() + letter_chunk_45() + letter_chunk_46() + letter_chunk_47() + letter_chunk_48() + letter_chunk_49()
}

pub open spec fn letter_block_5() -> Seq<SRange> {
    letter_chunk_50() + letter_chunk_51() + letter_chunk_52() + letter_chunk_53() + letter_chunk_54() + letter_chunk_55() + letter_chunk_56() + letter_chunk_57() + letter_chunk_58() + letter_chunk_59()
}

pub open spec fn letter_block_6() -> Seq<SRange> {
    letter_chunk_60() + letter_chunk_61() + letter_chunk_62() + letter_chunk_63() + letter_chunk_64() + letter_chunk_65() + letter_chunk_66() + letter_chunk_67() + letter_chunk_68() + letter_chunk_69()
}

pub open spec fn letter_block_7() -> Seq<SRange> {
    letter_chunk_70() + letter_chunk_71() + letter_chunk_72() + letter_chunk_73() + letter_chunk_74() + letter_chunk_75() + letter_chunk_76() + letter_chunk_77() + letter_chunk_78() + letter_chunk_79()
}

pub open spec fn letter_block_8() -> Seq<SRange> {
    letter_chunk_80() + letter_chunk_81() + letter_chunk_82() + letter_chunk_83() + letter_chunk_84()
}

/// The ranges of the general category Letter.
pub open spec fn letter_ranges() -> Seq<SRange> {
    letter_block_0() + letter_block_1() + letter_block_2() + letter_block_3() + letter_block_4() + letter_block_5() + letter_block_6() + letter_block_7() + letter_block_8()
}

proof fn lemma_letter_block_0()
    ensures
        canonical(letter_block_0()),
        letter_block_0().len() > 0,
        letter_block_0()[0] == letter_chunk_0()[0],
        letter_block_0().last() == letter_chunk_9().last(),
{
    reveal_with_fuel(canonical, 9);
    assert(canonical(letter_chunk_0()));
    assert(canonical(letter_chunk_1()));
    assert(canonical(letter_chunk_2()));
    assert(canonical(letter_chunk_3()));
    assert(canonical(letter_chunk_4()));
    assert(canonical(letter_chunk_5()));
    assert(canonical(letter_chunk_6()));
    assert(canonical(letter_chunk_7()));
    assert(canonical(letter_chunk_8()));
    assert(canonical(letter_chunk_9()));
    lemma_canonical_append(letter_chunk_0(), letter_chunk_1());
    lemma_canonical_append(letter_chunk_0() + letter_chunk_1(), letter_chunk_2());
    lemma_canonical_append(letter_chunk_0() + letter_chunk_1() + letter_chunk_2(), letter_chunk_3());
    lemma_canonical_append(letter_chunk_0() + letter_chunk_1() + letter_chunk_2() + letter_chunk_3(), letter_chunk_4());
    lemma_canonical_append(letter_chunk_0() + letter_chunk_1() + letter_chunk_2() + letter_chunk_3() + letter_chunk_4(), letter_chunk_5());
    lemma_canonical_append(letter_chunk_0() + letter_chunk_1() + letter_chunk_2() + letter_chunk_3() + letter_chunk_4() + letter_chunk_5(), letter_chunk_6());
    lemma_canonical_append(letter_chunk_0() + letter_chunk_1() + letter_chunk_2() + letter_chunk_3() + letter_chunk_4() + letter_chunk_5() + letter_chunk_6(), letter_chunk_7());
    lemma_canonical_append(letter_chunk_0() + letter_chunk_1() + letter_chunk_2() + letter_chunk_3() + letter_chunk_4() + letter_chunk_5() + letter_chunk_6() + letter_chunk_7(), letter_chunk_8());
    lemma_canonical_append(letter_chunk_0() + letter_chunk_1() + letter_chunk_2() + letter_chunk_3() + letter_chunk_4() + letter_chunk_5() + letter_chunk_6() + letter_chunk_7() + letter_chunk_8(), letter_chunk_9());
}

proof fn lemma_letter_block_1()
    ensures
        canonical(letter_block_1()),
        letter_block_1().len() > 0,
        letter_block_1()[0] == letter_chunk_10()[0],
        letter_block_1().last() == letter_chunk_19().last(),
{
    reveal_with_fuel(canonical, 9);
    assert(canonical(letter_chunk_10()));
    assert(canonical(letter_chunk_11()));
    assert(canonical(letter_chunk_12()));
    assert(canonical(letter_chunk_13()));
    assert(canonical(letter_chunk_14()));
    assert(canonical(letter_chunk_15()));
    assert(canonical(letter_chunk_16()));
    assert(canonical(letter_chunk_17()));
    assert(canonical(letter_chunk_18()));
    assert(canonical(letter_chunk_19()));
    lemma_canonical_append(letter_chunk_10(), letter_chunk_11());
    lemma_canonical_append(letter_chunk_10() + letter_chunk_11(), letter_chunk_12());
    lemma_canonical_append(letter_chunk_10() + letter_chunk_11() + letter_chunk_12(), letter_chunk_13());
    lemma_canonical_append(letter_chunk_10() + letter_chunk_11() + letter_chunk_12() + letter_chunk_13(), letter_chunk_14());
    lemma_canonical_append(letter_chunk_10() + letter_chunk_11() + letter_chunk_12() + letter_chunk_13() + letter_chunk_14(), letter_chunk_15());
    lemma_canonical_append(letter_chunk_10() + letter_chunk_11() + letter_chunk_12() + letter_chunk_13() + letter_chunk_14() + letter_chunk_15(), letter_chunk_16());
    lemma_canonical_append(letter_chunk_10() + letter_chunk_11() + letter_chunk_12() + letter_chunk_13() + letter_chunk_14() + letter_chunk_15() + letter_chunk_16(), letter_chunk_17());
    lemma_canonical_append(letter_chunk_10() + letter_chunk_11() + letter_chunk_12() + letter_chunk_13() + letter_chunk_14() + letter_chunk_15() + letter_chunk_16() + letter_chunk_17(), letter_chunk_18());
    lemma_canonical_append(letter_chunk_10() + letter_chunk_11() + letter_chunk_12() + letter_chunk_13() + letter_chunk_14() + letter_chunk_15() + letter_chunk_16() + letter_chunk_17() + letter_chunk_18(), letter_chunk_19());
}

proof fn lemma_letter_block_2()
    ensures
        canonical(letter_block_2()),
        letter_block_2().len() > 0,
        letter_block_2()[0] == letter_chunk_20()[0],
        letter_block_2().last() == letter_chunk_29().last(),
{
    reveal_with_fuel(canonical, 9);
    assert(canonical(letter_chunk_20()));
    assert(canonical(letter_chunk_21()));
    assert(canonical(letter_chunk_22()));
    assert(canonical(letter_chunk_23()));
    assert(canonical(letter_chunk_24()));
    assert(canonical(letter_chunk_25()));
    assert(canonical(letter_chunk_26()));
    assert(canonical(letter_chunk_27()));
    assert(canonical(letter_chunk_28()));
    assert(canonical(letter_chunk_29()));
    lemma_canonical_append(letter_chunk_20(), letter_chunk_21());
    lemma_canonical_append(letter_chunk_20() + letter_chunk_21(), letter_chunk_22());
    lemma_canonical_append(letter_chunk_20() + letter_chunk_21() + letter_chunk_22(), letter_chunk_23());
    lemma_canonical_append(letter_chunk_20() + letter_chunk_21() + letter_chunk_22() + letter_chunk_23(), letter_chunk_24());
    lemma_canonical_append(letter_chunk_20() + letter_chunk_21() + letter_chunk_22() + letter_chunk_23() + letter_chunk_24(), letter_chunk_25());
    lemma_canonical_append(letter_chunk_20() + letter_chunk_21() + letter_chunk_22() + letter_chunk_23() + letter_chunk_24() + letter_chunk_25(), letter_chunk_26());
    lemma_canonical_append(letter_chunk_20() + letter_chunk_21() + letter_chunk_22() + letter_chunk_23() + letter_chunk_24() + letter_chunk_25() + letter_chunk_26(), letter_chunk_27());
    lemma_canonical_append(letter_chunk_20() + letter_chunk_21() + letter_chunk_22() + letter_chunk_23() + letter_chunk_24() + letter_chunk_25() + letter_chunk_26() + letter_chunk_27(), letter_chunk_28());
    lemma_canonical_append(letter_chunk_20() + letter_chunk_21() + letter_chunk_22() + letter_chunk_23() + letter_chunk_24() + letter_chunk_25() + letter_chunk_26() + letter_chunk_27() + letter_chunk_28(), letter_chunk_29());
}

proof fn lemma_letter_block_3()
    ensures
        canonical(letter_block_3()),
        letter_block_3().len() > 0,
        letter_block_3()[0] == letter_chunk_30()[0],
        letter_block_3().last() == letter_chunk_39().last(),
{
    reveal_with_fuel(canonical, 9);
    assert(canonical(letter_chunk_30()));
    assert(canonical(letter_chunk_31()));
    assert(canonical(letter_chunk_32()));
    assert(canonical(letter_chunk_33()));
    assert(canonical(letter_chunk_34()));
    assert(canonical(letter_chunk_35()));
    assert(canonical(letter_chunk_36()));
    assert(canonical(letter_chunk_37()));
    assert(canonical(letter_chunk_38()));
    assert(canonical(letter_chunk_39()));
    lemma_canonical_append(letter_chunk_30(), letter_chunk_31());
    lemma_canonical_append(letter_chunk_30() + letter_chunk_31(), letter_chunk_32());
    lemma_canonical_append(letter_chunk_30() + letter_chunk_31() + letter_chunk_32(), letter_chunk_33());
    lemma_canonical_append(letter_chunk_30() + letter_chunk_31() + letter_chunk_32() + letter_chunk_33(), letter_chunk_34());
    lemma_canonical_append(letter_chunk_30() + letter_chunk_31() + letter_chunk_32() + letter_chunk_33() + letter_chunk_34(), letter_chunk_35());
    lemma_canonical_append(letter_chunk_30() + letter_chunk_31() + letter_chunk_32() + letter_chunk_33() + letter_chunk_34() + letter_chunk_35(), letter_chunk_36());
    lemma_canonical_append(letter_chunk_30() + letter_chunk_31() + letter_chunk_32() + letter_chunk_33() + letter_chunk_34() + letter_chunk_35() + letter_chunk_36(), letter_chunk_37());
    lemma_canonical_append(letter_chunk_30() + letter_chunk_31() + letter_chunk_32() + letter_chunk_33() + letter_chunk_34() + letter_chunk_35() + letter_chunk_36() + letter_chunk_37(), letter_chunk_38());
    lemma_canonical_append(letter_chunk_30() + letter_chunk_31() + letter_chunk_32() + letter_chunk_33() + letter_chunk_34() + letter_chunk_35() + letter_chunk_36() + letter_chunk_37() + letter_chunk_38(), letter_chunk_39());
}

proof fn lemma_letter_block_4()
    ensures
        canonical(letter_block_4()),
        letter_block_4().len() > 0,
        letter_block_4()[0] == letter_chunk_40()[0],
        letter_block_4().last() == letter_chunk_49().last(),
{
    reveal_with_fuel(canonical, 9);
    assert(canonical(letter_chunk_40()));
    assert(canonical(letter_chunk_41()));
    assert(canonical(letter_chunk_42()));
    assert(canonical(letter_chunk_43()));
    assert(canonical(letter_chunk_44()));
    assert(canonical(letter_chunk_45()));
    assert(canonical(letter_chunk_46()));
    assert(canonical(letter_chunk_47()));
    assert(canonical(letter_chunk_48()));
    assert(canonical(letter_chunk_49()));
    lemma_canonical_append(letter_chunk_40(), letter_chunk_41());
    lemma_canonical_append(letter_chunk_40() + letter_chunk_41(), letter_chunk_42());
    lemma_canonical_append(letter_chunk_40() + letter_chunk_41() + letter_chunk_42(), letter_chunk_43());
    lemma_canonical_append(letter_chunk_40() + letter_chunk_41() + letter_chunk_42() + letter_chunk_43(), letter_chunk_44());
    lemma_canonical_append(letter_chunk_40() + letter_chunk_41() + letter_chunk_42() + letter_chunk_43() + letter_chunk_44(), letter_chunk_45());
    lemma_canonical_append(letter_chunk_40() + letter_chunk_41() + letter_chunk_42() + letter_chunk_43() + letter_chunk_44() + letter_chunk_45(), letter_chunk_46());
    lemma_canonical_append(letter_chunk_40() + letter_chunk_41() + letter_chunk_42() + letter_chunk_43() + letter_chunk_44() + letter_chunk_45() + letter_chunk_46(), letter_chunk_47());
    lemma_canonical_append(letter_chunk_40() + letter_chunk_41() + letter_chunk_42() + letter_chunk_43() + letter_chunk_44() + letter_chunk_45() + letter_chunk_46() + letter_chunk_47(), letter_chunk_48());
    lemma_canonical_append(letter_chunk_40() + letter_chunk_41() + letter_chunk_42() + letter_chunk_43() + letter_chunk_44() + letter_chunk_45() + letter_chunk_46() + letter_chunk_47() + letter_chunk_48(), letter_chunk_49());
}

proof fn lemma_letter_block_5()
    ensures
        canonical(letter_block_5()),
        letter_block_5().len() > 0,
        letter_block_5()[0] == letter_chunk_50()[0],
        letter_block_5().last() == letter_chunk_59().last(),
{
    reveal_with_fuel(canonical, 9);
    assert(canonical(letter_chunk_50()));
    assert(canonical(letter_chunk_51()));
    assert(canonical(letter_chunk_52()));
    assert(canonical(letter_chunk_53()));
    assert(canonical(letter_chunk_54()));
    assert(canonical(letter_chunk_55()));
    assert(canonical(letter_chunk_56()));
    assert(canonical(letter_chunk_57()));
    assert(canonical(letter_chunk_58()));
    assert(canonical(letter_chunk_59()));
    lemma_canonical_append(letter_chunk_50(), letter_chunk_51());
    lemma_canonical_append(letter_chunk_50() + letter_chunk_51(), letter_chunk_52());
    lemma_canonical_append(letter_chunk_50() + letter_chunk_51() + letter_chunk_52(), letter_chunk_53());
    lemma_canonical_append(letter_chunk_50() + letter_chunk_51() + letter_chunk_52() + letter_chunk_53(), letter_chunk_54());
    lemma_canonical_append(letter_chunk_50() + letter_chunk_51() + letter_chunk_52() + letter_chunk_53() + letter_chunk_54(), letter_chunk_55());
    lemma_canonical_append(letter_chunk_50() + letter_chunk_51() + letter_chunk_52() + letter_chunk_53() + letter_chunk_54() + letter_chunk_55(), letter_chunk_56());
    lemma_canonical_append(letter_chunk_50() + letter_chunk_51() + letter_chunk_52() + letter_chunk_53() + letter_chunk_54() + letter_chunk_55() + letter_chunk_56(), letter_chunk_57());
    lemma_canonical_append(letter_chunk_50() + letter_chunk_51() + letter_chunk_52() + letter_chunk_53() + letter_chunk_54() + letter_chunk_55() + letter_chunk_56() + letter_chunk_57(), letter_chunk_58());
    lemma_canonical_append(letter_chunk_50() + letter_chunk_51() + letter_chunk_52() + letter_chunk_53() + letter_chunk_54() + letter_chunk_55() + letter_chunk_56() + letter_chunk_57() + letter_chunk_58(), letter_chunk_59());
}

proof fn lemma_letter_block_6()
    ensures
        canonical(letter_block_6()),
        letter_block_6().len() > 0,
        letter_block_6()[0] == letter_chunk_60()[0],
        letter_block_6().last() == letter_chunk_69().last(),
{
    reveal_with_fuel(canonical, 9);
    assert(canonical(letter_chunk_60()));
    assert(canonical(letter_chunk_61()));
    assert(canonical(letter_chunk_62()));
    assert(canonical(letter_chunk_63()));
    assert(canonical(letter_chunk_64()));
    assert(canonical(letter_chunk_65()));
    assert(canonical(letter_chunk_66()));
    assert(canonical(letter_chunk_67()));
    assert(canonical(letter_chunk_68()));
    assert(canonical(letter_chunk_69()));
    lemma_canonical_append(letter_chunk_60(), letter_chunk_61());
    lemma_canonical_append(letter_chunk_60() + letter_chunk_61(), letter_chunk_62());
    lemma_canonical_append(letter_chunk_60() + letter_chunk_61() + letter_chunk_62(), letter_chunk_63());
    lemma_canonical_append(letter_chunk_60() + letter_chunk_61() + letter_chunk_62() + letter_chunk_63(), letter_chunk_64());
    lemma_canonical_append(letter_chunk_60() + letter_chunk_61() + letter_chunk_62() + letter_chunk_63() + letter_chunk_64(), letter_chunk_65());
    lemma_canonical_append(letter_chunk_60() + letter_chunk_61() + letter_chunk_62() + letter_chunk_63() + letter_chunk_64() + letter_chunk_65(), letter_chunk_66());
    lemma_canonical_append(letter_chunk_60() + letter_chunk_61() + letter_chunk_62() + letter_chunk_63() + letter_chunk_64() + letter_chunk_65() + letter_chunk_66(), letter_chunk_67());
    lemma_canonical_append(letter_chunk_60() + letter_chunk_61() + letter_chunk_62() + letter_chunk_63() + letter_chunk_64() + letter_chunk_65() + letter_chunk_66() + letter_chunk_67(), letter_chunk_68());
    lemma_canonical_append(letter_chunk_60() + letter_chunk_61() + letter_chunk_62() + letter_chunk_63() + letter_chunk_64() + letter_chunk_65() + letter_chunk_66() + letter_chunk_67() + letter_chunk_68(), letter_chunk_69());
}

proof fn lemma_letter_block_7()
    ensures
        canonical(letter_block_7()),
        letter_block_7().len() > 0,
        letter_block_7()[0] == letter_chunk_70()[0],
        letter_block_7().last() == letter_chunk_79().last(),
{
    reveal_with_fuel(canonical, 9);
    assert(canonical(letter_chunk_70()));
    assert(canonical(letter_chunk_71()));
    assert(canonical(letter_chunk_72()));
    assert(canonical(letter_chunk_73()));
    assert(canonical(letter_chunk_74()));
    assert(canonical(letter_chunk_75()));
    assert(canonical(letter_chunk_76()));
    assert(canonical(letter_chunk_77()));
    assert(canonical(letter_chunk_78()));
    assert(canonical(letter_chunk_79()));
    lemma_canonical_append(letter_chunk_70(), letter_chunk_71());
    lemma_canonical_append(letter_chunk_70() + letter_chunk_71(), letter_chunk_72());
    lemma_canonical_append(letter_chunk_70() + letter_chunk_71() + letter_chunk_72(), letter_chunk_73());
    lemma_canonical_append(letter_chunk_70() + letter_chunk_71() + letter_chunk_72() + letter_chunk_73(), letter_chunk_74());
    lemma_canonical_append(letter_chunk_70() + letter_chunk_71() + letter_chunk_72() + letter_chunk_73() + letter_chunk_74(), letter_chunk_75());
    lemma_canonical_append(letter_chunk_70() + letter_chunk_71() + letter_chunk_72() + letter_chunk_73() + letter_chunk_74() + letter_chunk_75(), letter_chunk_76());
    lemma_canonical_append(letter_chunk_70() + letter_chunk_71() + letter_chunk_72() + letter_chunk_73() + letter_chunk_74() + letter_chunk_75() + letter_chunk_76(), letter_chunk_77());
    lemma_canonical_append(letter_chunk_70() + letter_chunk_71() + letter_chunk_72() + letter_chunk_73() + letter_chunk_74() + letter_chunk_75() + letter_chunk_76() + letter_chunk_77(), letter_chunk_78());
    lemma_canonical_append(letter_chunk_70() + letter_chunk_71() + letter_chunk_72() + letter_chunk_73() + letter_chunk_74() + letter_chunk_75() + letter_chunk_76() + letter_chunk_77() + letter_chunk_78(), letter_chunk_79());
}

proof fn lemma_letter_block_8()
    ensures
        canonical(letter_block_8()),
        letter_block_8().len() > 0,
        letter_block_8()[0] == letter_chunk_80()[0],
        letter_block_8().last() == letter_chunk_84().last(),
{
    reveal_with_fuel(canonical, 9);
    assert(canonical(letter_chunk_80()));
    assert(canonical(letter_chunk_81()));
    assert(canonical(letter_chunk_82()));
    assert(canonical(letter_chunk_83()));
    assert(canonical(letter_chunk_84()));
    lemma_canonical_append(letter_chunk_80(), letter_chunk_81());
    lemma_canonical_append(letter_chunk_80() + letter_chunk_81(), letter_chunk_82());
    lemma_canonical_append(letter_chunk_80() + letter_chunk_81() + letter_chunk_82(), letter_chunk_83());
    lemma_canonical_append(letter_chunk_80() + letter_chunk_81() + letter_chunk_82() + letter_chunk_83(), letter_chunk_84());
}

/// The general category Letter is a canonical class.
pub proof fn lemma_letter_canonical()
    ensures
        canonical(letter_ranges()),
{
    lemma_letter_block_0();
    lemma_letter_block_1();
    lemma_letter_block_2();
    lemma_letter_block_3();
    lemma_letter_block_4();
    lemma_letter_block_5();
    lemma_letter_block_6();
    lemma_letter_block_7();
    lemma_letter_block_8();
    lemma_canonical_append(letter_block_0(), letter_block_1());
    lemma_canonical_append(letter_block_0() + letter_block_1(), letter_block_2());
    lemma_canonical_append(letter_block_0() + letter_block_1() + letter_block_2(), letter_block_3());
    lemma_canonical_append(letter_block_0() + letter_block_1() + letter_block_2() + letter_block_3(), letter_block_4());
    lemma_canonical_append(letter_block_0() + letter_block_1() + letter_block_2() + letter_block_3() + letter_block_4(), letter_block_5());
    lemma_canonical_append(letter_block_0() + letter_block_1() + letter_block_2() + letter_block_3() + letter_block_4() + letter_block_5(), letter_block_6());
    lemma_canonical_append(letter_block_0() + letter_block_1() + letter_block_2() + letter_block_3() + letter_block_4() + letter_block_5() + letter_block_6(), letter_block_7());
    lemma_canonical_append(letter_block_0() + letter_block_1() + letter_block_2() + letter_block_3() + letter_block_4() + letter_block_5() + letter_block_6() + letter_block_7(), letter_block_8());
}

fn push_letter_chunk_0(v: &mut Vec<ClassUnicodeRange>)
    ensures
        rview(final(v)@) == rview(old(v)@) + letter_chunk_0(),
{
    let ghost o = rview(v@);
    push_range(v, '\u{41}', '\u{5A}');
    push_range(v, '\u{61}', '\u{7A}');
    push_range(v, '\u{AA}', '\u{AA}');
    push_range(v, '\u{B5}', '\u{B5}');
    push_range(v, '\u{BA}', '\u{BA}');
    push_range(v, '\u{C0}', '\u{D6}');
    push_range(v, '\u{D8}', '\u{F6}');
    push_range(v, '\u{F8}', '\u{2C1}');
    assert(rview(v@) =~= o + letter_chunk_0());
}

fn push_letter_chunk_1(v: &mut Vec<ClassUnicodeRange>)
    ensures
        rview(final(v)@) == rview(old(v)@) + letter_chunk_1(),
{
    let ghost o = rview(v@);
    push_range(v, '\u{2C6}', '\u{2D1}');
    push_range(v, '\u{2E0}', '\u{2E4}');
    push_range(v, '\u{2EC}', '\u{2EC}');
    push_range(v, '\u{2EE}', '\u{2EE}');
    push_range(v, '\u{370}', '\u{374}');
    push_range(v, '\u{376}', '\u{377}');
    push_range(v, '\u{37A}', '\u{37D}');
    push_range(v, '\u{37F}', '\u{37F}');
    assert(rview(v@) =~= o + letter_chunk_1());
}

fn push_letter_chunk_2(v: &mut Vec<ClassUnicodeRange>)
    ensures
        rview(final(v)@) == rview(old(v)@) + letter_chunk_2(),
{
    let ghost o = rview(v@);
    push_range(v, '\u{386}', '\u{386}');
    push_range(v, '\u{388}', '\u{38A}');
    push_range(v, '\u{38C}', '\u{38C}');
    push_range(v, '\u{38E}', '\u{3A1}');
    push_range(v, '\u{3A3}', '\u{3F5}');
    push_range(v, '\u{3F7}', '\u{481}');
    push_range(v, '\u{48A}', '\u{52F}');
    push_range(v, '\u{531}', '\u{556}');
    assert(rview(v@) =~= o + letter_chunk_2());
}

fn push_letter_chunk_3(v: &mut Vec<ClassUnicodeRange>)
    ensures
        rview(final(v)@) == rview(old(v)@) + letter_chunk_3(),
{
    let ghost o = rview(v@);
    push_range(v, '\u{559}', '\u{559}');
    push_range(v, '\u{560}', '\u{588}');
    push_range(v, '\u{5D0}', '\u{5EA}');
    push_range(v, '\u{5EF}', '\u{5F2}');
    push_range(v, '\u{620}', '\u{64A}');
    push_range(v, '\u{66E}', '\u{66F}');
    push_range(v, '\u{671}', '\u{6D3}');
    push_range(v, '\u{6D5}', '\u{6D5}');
    assert(rview(v@) =~= o + letter_chunk_3());
}

fn push_letter_chunk_4(v: &mut Vec<ClassUnicodeRange>)
    ensures
        rview(final(v)@) == rview(old(v)@) + letter_chunk_4(),
{
    let ghost o = rview(v@);
    push_range(v, '\u{6E5}', '\u{6E6}');
    push_range(v, '\u{6EE}', '\u{6EF}');
    push_range(v, '\u{6FA}', '\u{6FC}');
    push_range(v, '\u{6FF}', '\u{6FF}');
    push_range(v, '\u{710}', '\u{710}');
    push_range(v, '\u{712}', '\u{72F}');
    push_range(v, '\u{74D}', '\u{7A5}');
    push_range(v, '\u{7B1}', '\u{7B1}');
    assert(rview(v@) =~= o + letter_chunk_4());
}

fn push_letter_chunk_5(v: &mut Vec<ClassUnicodeRange>)
    ensures
        rview(final(v)@) == rview(old(v)@) + letter_chunk_5(),
{
    let ghost o = rview(v@);
    push_range(v, '\u{7CA}', '\u{7EA}');
    push_range(v, '\u{7F4}', '\u{7F5}');
    push_range(v, '\u{7FA}', '\u{7FA}');
    push_range(v, '\u{800}', '\u{815}');
    push_range(v, '\u{81A}', '\u{81A}');
    push_range(v, '\u{824}', '\u{824}');
    push_range(v, '\u{828}', '\u{828}');
    push_range(v, '\u{840}', '\u{858}');
    assert(rview(v@) =~= o + letter_chunk_5());
}

fn push_letter_chunk_6(v: &mut Vec<ClassUnicodeRange>)
    ensures
        rview(final(v)@) == rview(old(v)@) + letter_chunk_6(),
{
    let ghost o = rview(v@);
    push_range(v, '\u{860}', '\u{86A}');
    push_range(v, '\u{870}', '\u{887}');
    push_range(v, '\u{889}', '\u{88E}');
    push_range(v, '\u{8A0}', '\u{8C9}');
    push_range(v, '\u{904}', '\u{939}');
    push_range(v, '\u{93D}', '\u{93D}');
    push_range(v, '\u{950}', '\u{950}');
    push_range(v, '\u{958}', '\u{961}');
    assert(rview(v@) =~= o + letter_chunk_6());
}

fn push_letter_chunk_7(v: &mut Vec<ClassUnicodeRange>)
    ensures
        rview(final(v)@) == rview(old(v)@) + letter_chunk_7(),
{
    let ghost o = rview(v@);
    push_range(v, '\u{971}', '\u{980}');
    push_range(v, '\u{985}', '\u{98C}');
    push_range(v, '\u{98F}', '\u{990}');
    push_range(v, '\u{993}', '\u{9A8}');
    push_range(v, '\u{9AA}', '\u{9B0}');
    push_range(v, '\u{9B2}', '\u{9B2}');
    push_range(v, '\u{9B6}', '\u{9B9}');
    push_range(v, '\u{9BD}', '\u{9BD}');
    assert(rview(v@) =~= o + letter_chunk_7());
}

fn push_letter_chunk_8(v: &mut Vec<ClassUnicodeRange>)
    ensures
        rview(final(v)@) == rview(old(v)@) + letter_chunk_8(),
{
    let ghost o = rview(v@);
    push_range(v, '\u{9CE}', '\u{9CE}');
    push_range(v, '\u{9DC}', '\u{9DD}');
    push_range(v, '\u{9DF}', '\u{9E1}');
    push_range(v, '\u{9F0}', '\u{9F1}');
    push_range(v, '\u{9FC}', '\u{9FC}');
    push_range(v, '\u{A05}', '\u{A0A}');
    push_range(v, '\u{A0F}', '\u{A10}');
    push_range(v, '\u{A13}', '\u{A28}');
    assert(rview(v@) =~= o + letter_chunk_8());
}

fn push_letter_chunk_9(v: &mut Vec<ClassUnicodeRange>)
    ensures
        rview(final(v)@) == rview(old(v)@) + letter_chunk_9(),
{
    let ghost o = rview(v@);
    push_range(v, '\u{A2A}', '\u{A30}');
    push_range(v, '\u{A32}', '\u{A33}');
    push_range(v, '\u{A35}', '\u{A36}');
    push_range(v, '\u{A38}', '\u{A39}');
    push_range(v, '\u{A59}', '\u{A5C}');
    push_range(v, '\u{A5E}', '\u{A5E}');
    push_range(v, '\u{A72}', '\u{A74}');
    push_range(v, '\u{A85}', '\u{A8D}');
    assert(rview(v@) =~= o + letter_chunk_9());
}

fn push_letter_chunk_10(v: &mut Vec<ClassUnicodeRange>)
    ensures
        rview(final(v)@) == rview(old(v)@) + letter_chunk_10(),
{
    let ghost o = rview(v@);
    push_range(v, '\u{A8F}', '\u{A91}');
    push_range(v, '\u{A93}', '\u{AA8}');
    push_range(v, '\u{AAA}', '\u{AB0}');
    push_range(v, '\u{AB2}', '\u{AB3}');
    push_range(v, '\u{AB5}', '\u{AB9}');
    push_range(v, '\u{ABD}', '\u{ABD}');
    push_range(v, '\u{AD0}', '\u{AD0}');
    push_range(v, '\u{AE0}', '\u{AE1}');
    assert(rview(v@) =~= o + letter_chunk_10());
}

fn push_letter_chunk_11(v: &mut Vec<ClassUnicodeRange>)
    ensures
        rview(final(v)@) == rview(old(v)@) + letter_chunk_11(),
{
    let ghost o = rview(v@);
    push_range(v, '\u{AF9}', '\u{AF9}');
    push_range(v, '\u{B05}', '\u{B0C}');
    push_range(v, '\u{B0F}', '\u{B10}');
    push_range(v, '\u{B13}', '\u{B28}');
    push_range(v, '\u{B2A}', '\u{B30}');
    push_range(v, '\u{B32}', '\u{B33}');
    push_range(v, '\u{B35}', '\u{B39}');
    push_range(v, '\u{B3D}', '\u{B3D}');
    assert(rview(v@) =~= o + letter_chunk_11());
}

fn push_letter_chunk_12(v: &mut Vec<ClassUnicodeRange>)
    ensures
        rview(final(v)@) == rview(old(v)@) + letter_chunk_12(),
{
    let ghost o = rview(v@);
    push_range(v, '\u{B5C}', '\u{B5D}');
    push_range(v, '\u{B5F}', '\u{B61}');
    push_range(v, '\u{B71}', '\u{B71}');
    push_range(v, '\u{B83}', '\u{B83}');
    push_range(v, '\u{B85}', '\u{B8A}');
    push_range(v, '\u{B8E}', '\u{B90}');
    push_range(v, '\u{B92}', '\u{B95}');
    push_range(v, '\u{B99}', '\u{B9A}');
    assert(rview(v@) =~= o + letter_chunk_12());
}

fn push_letter_chunk_13(v: &mut Vec<ClassUnicodeRange>)
    ensures
        rview(final(v)@) == rview(old(v)@) + letter_chunk_13(),
{
    let ghost o = rview(v@);
    push_range(v, '\u{B9C}', '\u{B9C}');
    push_range(v, '\u{B9E}', '\u{B9F}');
    push_range(v, '\u{BA3}', '\u{BA4}');
    push_range(v, '\u{BA8}', '\u{BAA}');
    push_range(v, '\u{BAE}', '\u{BB9}');
    push_range(v, '\u{BD0}', '\u{BD0}');
    push_range(v, '\u{C05}', '\u{C0C}');
    push_range(v, '\u{C0E}', '\u{C10}');
    assert(rview(v@) =~= o + letter_chunk_13());
}

fn push_letter_chunk_14(v: &mut Vec<ClassUnicodeRange>)
    ensures
        rview(final(v)@) == rview(old(v)@) + letter_chunk_14(),
{
    let ghost o = rview(v@);
    push_range(v, '\u{C12}', '\u{C28}');
    push_range(v, '\u{C2A}', '\u{C39}');
    push_range(v, '\u{C3D}', '\u{C3D}');
    push_range(v, '\u{C58}', '\u{C5A}');
    push_range(v, '\u{C5D}', '\u{C5D}');
    push_range(v, '\u{C60}', '\u{C61}');
    push_range(v, '\u{C80}', '\u{C80}');
    push_range(v, '\u{C85}', '\u{C8C}');
    assert(rview(v@) =~= o + letter_chunk_14());
}

fn push_letter_chunk_15(v: &mut Vec<ClassUnicodeRange>)
    ensures
        rview(final(v)@) == rview(old(v)@) + letter_chunk_15(),
{
    let ghost o = rview(v@);
    push_range(v, '\u{C8E}', '\u{C90}');
    push_range(v, '\u{C92}', '\u{CA8}');
    push_range(v, '\u{CAA}', '\u{CB3}');
    push_range(v, '\u{CB5}', '\u{CB9}');
    push_range(v, '\u{CBD}', '\u{CBD}');
    push_range(v, '\u{CDD}', '\u{CDE}');
    push_range(v, '\u{CE0}', '\u{CE1}');
    push_range(v, '\u{CF1}', '\u{CF2}');
    assert(rview(v@) =~= o + letter_chunk_15());
}

fn push_letter_chunk_16(v: &mut Vec<ClassUnicodeRange>)
    ensures
        rview(final(v)@) == rview(old(v)@) + letter_chunk_16(),
{
    let ghost o = rview(v@);
    push_range(v, '\u{D04}', '\u{D0C}');
    push_range(v, '\u{D0E}', '\u{D10}');
    push_range(v, '\u{D12}', '\u{D3A}');
    push_range(v, '\u{D3D}', '\u{D3D}');
    push_range(v, '\u{D4E}', '\u{D4E}');
    push_range(v, '\u{D54}', '\u{D56}');
    push_range(v, '\u{D5F}', '\u{D61}');
    push_range(v, '\u{D7A}', '\u{D7F}');
    assert(rview(v@) =~= o + letter_chunk_16());
}

fn push_letter_chunk_17(v: &mut Vec<ClassUnicodeRange>)
    ensures
        rview(final(v)@) == rview(old(v)@) + letter_chunk_17(),
{
    let ghost o = rview(v@);
    push_range(v, '\u{D85}', '\u{D96}');
    push_range(v, '\u{D9A}', '\u{DB1}');
    push_range(v, '\u{DB3}', '\u{DBB}');
    push_range(v, '\u{DBD}', '\u{DBD}');
    push_range(v, '\u{DC0}', '\u{DC6}');
    push_range(v, '\u{E01}', '\u{E30}');
    push_range(v, '\u{E32}', '\u{E33}');
    push_range(v, '\u{E40}', '\u{E46}');
    assert(rview(v@) =~= o + letter_chunk_17());
}

fn push_letter_chunk_18(v: &mut Vec<ClassUnicodeRange>)
    ensures
        rview(final(v)@) == rview(old(v)@) + letter_chunk_18(),
{
    let ghost o = rview(v@);
    push_range(v, '\u{E81}', '\u{E82}');
    push_range(v, '\u{E84}', '\u{E84}');
    push_range(v, '\u{E86}', '\u{E8A}');
    push_range(v, '\u{E8C}', '\u{EA3}');
    push_range(v, '\u{EA5}', '\u{EA5}');
    push_range(v, '\u{EA7}', '\u{EB0}');
    push_range(v, '\u{EB2}', '\u{EB3}');
    push_range(v, '\u{EBD}', '\u{EBD}');
    assert(rview(v@) =~= o + letter_chunk_18());
}

fn push_letter_chunk_19(v: &mut Vec<ClassUnicodeRange>)
    ensures
        rview(final(v)@) == rview(old(v)@) + letter_chunk_19(),
{
    let ghost o = rview(v@);
    push_range(v, '\u{EC0}', '\u{EC4}');
    push_range(v, '\u{EC6}', '\u{EC6}');
    push_range(v, '\u{EDC}', '\u{EDF}');
    push_range(v, '\u{F00}', '\u{F00}');
    push_range(v, '\u{F40}', '\u{F47}');
    push_range(v, '\u{F49}', '\u{F6C}');
    push_range(v, '\u{F88}', '\u{F8C}');
    push_range(v, '\u{1000}', '\u{102A}');
    assert(rview(v@) =~= o + letter_chunk_19());
}

fn push_letter_chunk_20(v: &mut Vec<ClassUnicodeRange>)
    ensures
        rview(final(v)@) == rview(old(v)@) + letter_chunk_20(),
{
    let ghost o = rview(v@);
    push_range(v, '\u{103F}', '\u{103F}');
    push_range(v, '\u{1050}', '\u{1055}');
    push_range(v, '\u{105A}', '\u{105D}');
    push_range(v, '\u{1061}', '\u{1061}');
    push_range(v, '\u{1065}', '\u{1066}');
    push_range(v, '\u{106E}', '\u{1070}');
    push_range(v, '\u{1075}', '\u{1081}');
    push_range(v, '\u{108E}', '\u{108E}');
    assert(rview(v@) =~= o + letter_chunk_20());
}

fn push_letter_chunk_21(v: &mut Vec<ClassUnicodeRange>)
    ensures
        rview(final(v)@) == rview(old(v)@) + letter_chunk_21(),
{
    let ghost o = rview(v@);
    push_range(v, '\u{10A0}', '\u{10C5}');
    push_range(v, '\u{10C7}', '\u{10C7}');
    push_range(v, '\u{10CD}', '\u{10CD}');
    push_range(v, '\u{10D0}', '\u{10FA}');
    push_range(v, '\u{10FC}', '\u{1248}');
    push_range(v, '\u{124A}', '\u{124D}');
    push_range(v, '\u{1250}', '\u{1256}');
    push_range(v, '\u{1258}', '\u{1258}');
    assert(rview(v@) =~= o + letter_chunk_21());
}

fn push_letter_chunk_22(v: &mut Vec<ClassUnicodeRange>)
    ensures
        rview(final(v)@) == rview(old(v)@) + letter_chunk_22(),
{
    let ghost o = rview(v@);
    push_range(v, '\u{125A}', '\u{125D}');
    push_range(v, '\u{1260}', '\u{1288}');
    push_range(v, '\u{128A}', '\u{128D}');
    push_range(v, '\u{1290}', '\u{12B0}');
    push_range(v, '\u{12B2}', '\u{12B5}');
    push_range(v, '\u{12B8}', '\u{12BE}');
    push_range(v, '\u{12C0}', '\u{12C0}');
    push_range(v, '\u{12C2}', '\u{12C5}');
    assert(rview(v@) =~= o + letter_chunk_22());
}

fn push_letter_chunk_23(v: &mut Vec<ClassUnicodeRange>)
    ensures
        rview(final(v)@) == rview(old(v)@) + letter_chunk_23(),
{
    let ghost o = rview(v@);
    push_range(v, '\u{12C8}', '\u{12D6}');
    push_range(v, '\u{12D8}', '\u{1310}');
    push_range(v, '\u{1312}', '\u{1315}');
    push_range(v, '\u{1318}', '\u{135A}');
    push_range(v, '\u{1380}', '\u{138F}');
    push_range(v, '\u{13A0}', '\u{13F5}');
    push_range(v, '\u{13F8}', '\u{13FD}');
    push_range(v, '\u{1401}', '\u{166C}');
    assert(rview(v@) =~= o + letter_chunk_23());
}

fn push_letter_chunk_24(v: &mut Vec<ClassUnicodeRange>)
    ensures
        rview(final(v)@) == rview(old(v)@) + letter_chunk_24(),
{
    let ghost o = rview(v@);
    push_range(v, '\u{166F}', '\u{167F}');
    push_range(v, '\u{1681}', '\u{169A}');
    push_range(v, '\u{16A0}', '\u{16EA}');
    push_range(v, '\u{16F1}', '\u{16F8}');
    push_range(v, '\u{1700}', '\u{1711}');
    push_range(v, '\u{171F}', '\u{1731}');
    push_range(v, '\u{1740}', '\u{1751}');
    push_range(v, '\u{1760}', '\u{176C}');
    assert(rview(v@) =~= o + letter_chunk_24());
}

fn push_letter_chunk_25(v: &mut Vec<ClassUnicodeRange>)
    ensures
        rview(final(v)@) == rview(old(v)@) + letter_chunk_25(),
{
    let ghost o = rview(v@);
    push_range(v, '\u{176E}', '\u{1770}');
    push_range(v, '\u{1780}', '\u{17B3}');
    push_range(v, '\u{17D7}', '\u{17D7}');
    push_range(v, '\u{17DC}', '\u{17DC}');
    push_range(v, '\u{1820}', '\u{1878}');
    push_range(v, '\u{1880}', '\u{1884}');
    push_range(v, '\u{1887}', '\u{18A8}');
    push_range(v, '\u{18AA}', '\u{18AA}');
    assert(rview(v@) =~= o + letter_chunk_25());
}

fn push_letter_chunk_26(v: &mut Vec<ClassUnicodeRange>)
    ensures
        rview(final(v)@) == rview(old(v)@) + letter_chunk_26(),
{
    let ghost o = rview(v@);
    push_range(v, '\u{18B0}', '\u{18F5}');
    push_range(v, '\u{1900}', '\u{191E}');
    push_range(v, '\u{1950}', '\u{196D}');
    push_range(v, '\u{1970}', '\u{1974}');
    push_range(v, '\u{1980}', '\u{19AB}');
    push_range(v, '\u{19B0}', '\u{19C9}');
    push_range(v, '\u{1A00}', '\u{1A16}');
    push_range(v, '\u{1A20}', '\u{1A54}');
    assert(rview(v@) =~= o + letter_chunk_26());
}

fn push_letter_chunk_27(v: &mut Vec<ClassUnicodeRange>)
    ensures
        rview(final(v)@) == rview(old(v)@) + letter_chunk_27(),
{
    let ghost o = rview(v@);
    push_range(v, '\u{1AA7}', '\u{1AA7}');
    push_range(v, '\u{1B05}', '\u{1B33}');
    push_range(v, '\u{1B45}', '\u{1B4C}');
    push_range(v, '\u{1B83}', '\u{1BA0}');
    push_range(v, '\u{1BAE}', '\u{1BAF}');
    push_range(v, '\u{1BBA}', '\u{1BE5}');
    push_range(v, '\u{1C00}', '\u{1C23}');
    push_range(v, '\u{1C4D}', '\u{1C4F}');
    assert(rview(v@) =~= o + letter_chunk_27());
}

fn push_letter_chunk_28(v: &mut Vec<ClassUnicodeRange>)
    ensures
        rview(final(v)@) == rview(old(v)@) + letter_chunk_28(),
{
    let ghost o = rview(v@);
    push_range(v, '\u{1C5A}', '\u{1C7D}');
    push_range(v, '\u{1C80}', '\u{1C8A}');
    push_range(v, '\u{1C90}', '\u{1CBA}');
    push_range(v, '\u{1CBD}', '\u{1CBF}');
    push_range(v, '\u{1CE9}', '\u{1CEC}');
    push_range(v, '\u{1CEE}', '\u{1CF3}');
    push_range(v, '\u{1CF5}', '\u{1CF6}');
    push_range(v, '\u{1CFA}', '\u{1CFA}');
    assert(rview(v@) =~= o + letter_chunk_28());
}

fn push_letter_chunk_29(v: &mut Vec<ClassUnicodeRange>)
    ensures
        rview(final(v)@) == rview(old(v)@) + letter_chunk_29(),
{
    let ghost o = rview(v@);
    push_range(v, '\u{1D00}', '\u{1DBF}');
    push_range(v, '\u{1E00}', '\u{1F15}');
    push_range(v, '\u{1F18}', '\u{1F1D}');
    push_range(v, '\u{1F20}', '\u{1F45}');
    push_range(v, '\u{1F48}', '\u{1F4D}');
    push_range(v, '\u{1F50}', '\u{1F57}');
    push_range(v, '\u{1F59}', '\u{1F59}');
    push_range(v, '\u{1F5B}', '\u{1F5B}');
    assert(rview(v@) =~= o + letter_chunk_29());
}

fn push_letter_chunk_30(v: &mut Vec<ClassUnicodeRange>)
    ensures
        rview(final(v)@) == rview(old(v)@) + letter_chunk_30(),
{
    let ghost o = rview(v@);
    push_range(v, '\u{1F5D}', '\u{1F5D}');
    push_range(v, '\u{1F5F}', '\u{1F7D}');
    push_range(v, '\u{1F80}', '\u{1FB4}');
    push_range(v, '\u{1FB6}', '\u{1FBC}');
    push_range(v, '\u{1FBE}', '\u{1FBE}');
    push_range(v, '\u{1FC2}', '\u{1FC4}');
    push_range(v, '\u{1FC6}', '\u{1FCC}');
    push_range(v, '\u{1FD0}', '\u{1FD3}');
    assert(rview(v@) =~= o + letter_chunk_30());
}

fn push_letter_chunk_31(v: &mut Vec<ClassUnicodeRange>)
    ensures
        rview(final(v)@) == rview(old(v)@) + letter_chunk_31(),
{
    let ghost o = rview(v@);
    push_range(v, '\u{1FD6}', '\u{1FDB}');
    push_range(v, '\u{1FE0}', '\u{1FEC}');
    push_range(v, '\u{1FF2}', '\u{1FF4}');
    push_range(v, '\u{1FF6}', '\u{1FFC}');
    push_range(v, '\u{2071}', '\u{2071}');
    push_range(v, '\u{207F}', '\u{207F}');
    push_range(v, '\u{2090}', '\u{209C}');
    push_range(v, '\u{2102}', '\u{2102}');
    assert(rview(v@) =~= o + letter_chunk_31());
}

fn push_letter_chunk_32(v: &mut Vec<ClassUnicodeRange>)
    ensures
        rview(final(v)@) == rview(old(v)@) + letter_chunk_32(),
{
    let ghost o = rview(v@);
    push_range(v, '\u{2107}', '\u{2107}');
    push_range(v, '\u{210A}', '\u{2113}');
    push_range(v, '\u{2115}', '\u{2115}');
    push_range(v, '\u{2119}', '\u{211D}');
    push_range(v, '\u{2124}', '\u{2124}');
    push_range(v, '\u{2126}', '\u{2126}');
    push_range(v, '\u{2128}', '\u{2128}');
    push_range(v, '\u{212A}', '\u{212D}');
    assert(rview(v@) =~= o + letter_chunk_32());
}

fn push_letter_chunk_33(v: &mut Vec<ClassUnicodeRange>)
    ensures
        rview(final(v)@) == rview(old(v)@) + letter_chunk_33(),
{
    let ghost o = rview(v@);
    push_range(v, '\u{212F}', '\u{2139}');
    push_range(v, '\u{213C}', '\u{213F}');
    push_range(v, '\u{2145}', '\u{2149}');
    push_range(v, '\u{214E}', '\u{214E}');
    push_range(v, '\u{2183}', '\u{2184}');
    push_range(v, '\u{2C00}', '\u{2CE4}');
    push_range(v, '\u{2CEB}', '\u{2CEE}');
    push_range(v, '\u{2CF2}', '\u{2CF3}');
    assert(rview(v@) =~= o + letter_chunk_33());
}

fn push_letter_chunk_34(v: &mut Vec<ClassUnicodeRange>)
    ensures
        rview(final(v)@) == rview(old(v)@) + letter_chunk_34(),
{
    let ghost o = rview(v@);
    push_range(v, '\u{2D00}', '\u{2D25}');
    push_range(v, '\u{2D27}', '\u{2D27}');
    push_range(v, '\u{2D2D}', '\u{2D2D}');
    push_range(v, '\u{2D30}', '\u{2D67}');
    push_range(v, '\u{2D6F}', '\u{2D6F}');
    push_range(v, '\u{2D80}', '\u{2D96}');
    push_range(v, '\u{2DA0}', '\u{2DA6}');
    push_range(v, '\u{2DA8}', '\u{2DAE}');
    assert(rview(v@) =~= o + letter_chunk_34());
}

fn push_letter_chunk_35(v: &mut Vec<ClassUnicodeRange>)
    ensures
        rview(final(v)@) == rview(old(v)@) + letter_chunk_35(),
{
    let ghost o = rview(v@);
    push_range(v, '\u{2DB0}', '\u{2DB6}');
    push_range(v, '\u{2DB8}', '\u{2DBE}');
    push_range(v, '\u{2DC0}', '\u{2DC6}');
    push_range(v, '\u{2DC8}', '\u{2DCE}');
    push_range(v, '\u{2DD0}', '\u{2DD6}');
    push_range(v, '\u{2DD8}', '\u{2DDE}');
    push_range(v, '\u{2E2F}', '\u{2E2F}');
    push_range(v, '\u{3005}', '\u{3006}');
    assert(rview(v@) =~= o + letter_chunk_35());
}

fn push_letter_chunk_36(v: &mut Vec<ClassUnicodeRange>)
    ensures
        rview(final(v)@) == rview(old(v)@) + letter_chunk_36(),
{
    let ghost o = rview(v@);
    push_range(v, '\u{3031}', '\u{3035}');
    push_range(v, '\u{303B}', '\u{303C}');
    push_range(v, '\u{3041}', '\u{3096}');
    push_range(v, '\u{309D}', '\u{309F}');
    push_range(v, '\u{30A1}', '\u{30FA}');
    push_range(v, '\u{30FC}', '\u{30FF}');
    push_range(v, '\u{3105}', '\u{312F}');
    push_range(v, '\u{3131}', '\u{318E}');
    assert(rview(v@) =~= o + letter_chunk_36());
}

fn push_letter_chunk_37(v: &mut Vec<ClassUnicodeRange>)
    ensures
        rview(final(v)@) == rview(old(v)@) + letter_chunk_37(),
{
    let ghost o = rview(v@);
    push_range(v, '\u{31A0}', '\u{31BF}');
    push_range(v, '\u{31F0}', '\u{31FF}');
    push_range(v, '\u{3400}', '\u{4DBF}');
    push_range(v, '\u{4E00}', '\u{A48C}');
    push_range(v, '\u{A4D0}', '\u{A4FD}');
    push_range(v, '\u{A500}', '\u{A60C}');
    push_range(v, '\u{A610}', '\u{A61F}');
    push_range(v, '\u{A62A}', '\u{A62B}');
    assert(rview(v@) =~= o + letter_chunk_37());
}

fn push_letter_chunk_38(v: &mut Vec<ClassUnicodeRange>)
    ensures
        rview(final(v)@) == rview(old(v)@) + letter_chunk_38(),
{
    let ghost o = rview(v@);
    push_range(v, '\u{A640}', '\u{A66E}');
    push_range(v, '\u{A67F}', '\u{A69D}');
    push_range(v, '\u{A6A0}', '\u{A6E5}');
    push_range(v, '\u{A717}', '\u{A71F}');
    push_range(v, '\u{A722}', '\u{A788}');
    push_range(v, '\u{A78B}', '\u{A7CD}');
    push_range(v, '\u{A7D0}', '\u{A7D1}');
    push_range(v, '\u{A7D3}', '\u{A7D3}');
    assert(rview(v@) =~= o + letter_chunk_38());
}

fn push_letter_chunk_39(v: &mut Vec<ClassUnicodeRange>)
    ensures
        rview(final(v)@) == rview(old(v)@) + letter_chunk_39(),
{
    let ghost o = rview(v@);
    push_range(v, '\u{A7D5}', '\u{A7DC}');
    push_range(v, '\u{A7F2}', '\u{A801}');
    push_range(v, '\u{A803}', '\u{A805}');
    push_range(v, '\u{A807}', '\u{A80A}');
    push_range(v, '\u{A80C}', '\u{A822}');
    push_range(v, '\u{A840}', '\u{A873}');
    push_range(v, '\u{A882}', '\u{A8B3}');
    push_range(v, '\u{A8F2}', '\u{A8F7}');
    assert(rview(v@) =~= o + letter_chunk_39());
}

fn push_letter_chunk_40(v: &mut Vec<ClassUnicodeRange>)
    ensures
        rview(final(v)@) == rview(old(v)@) + letter_chunk_40(),
{
    let ghost o = rview(v@);
    push_range(v, '\u{A8FB}', '\u{A8FB}');
    push_range(v, '\u{A8FD}', '\u{A8FE}');
    push_range(v, '\u{A90A}', '\u{A925}');
    push_range(v, '\u{A930}', '\u{A946}');
    push_range(v, '\u{A960}', '\u{A97C}');
    push_range(v, '\u{A984}', '\u{A9B2}');
    push_range(v, '\u{A9CF}', '\u{A9CF}');
    push_range(v, '\u{A9E0}', '\u{A9E4}');
    assert(rview(v@) =~= o + letter_chunk_40());
}

fn push_letter_chunk_41(v: &mut Vec<ClassUnicodeRange>)
    ensures
        rview(final(v)@) == rview(old(v)@) + letter_chunk_41(),
{
    let ghost o = rview(v@);
    push_range(v, '\u{A9E6}', '\u{A9EF}');
    push_range(v, '\u{A9FA}', '\u{A9FE}');
    push_range(v, '\u{AA00}', '\u{AA28}');
    push_range(v, '\u{AA40}', '\u{AA42}');
    push_range(v, '\u{AA44}', '\u{AA4B}');
    push_range(v, '\u{AA60}', '\u{AA76}');
    push_range(v, '\u{AA7A}', '\u{AA7A}');
    push_range(v, '\u{AA7E}', '\u{AAAF}');
    assert(rview(v@) =~= o + letter_chunk_41());
}

fn push_letter_chunk_42(v: &mut Vec<ClassUnicodeRange>)
    ensures
        rview(final(v)@) == rview(old(v)@) + letter_chunk_42(),
{
    let ghost o = rview(v@);
    push_range(v, '\u{AAB1}', '\u{AAB1}');
    push_range(v, '\u{AAB5}', '\u{AAB6}');
    push_range(v, '\u{AAB9}', '\u{AABD}');
    push_range(v, '\u{AAC0}', '\u{AAC0}');
    push_range(v, '\u{AAC2}', '\u{AAC2}');
    push_range(v, '\u{AADB}', '\u{AADD}');
    push_range(v, '\u{AAE0}', '\u{AAEA}');
    push_range(v, '\u{AAF2}', '\u{AAF4}');
    assert(rview(v@) =~= o + letter_chunk_42());
}

fn push_letter_chunk_43(v: &mut Vec<ClassUnicodeRange>)
    ensures
        rview(final(v)@) == rview(old(v)@) + letter_chunk_43(),
{
    let ghost o = rview(v@);
    push_range(v, '\u{AB01}', '\u{AB06}');
    push_range(v, '\u{AB09}', '\u{AB0E}');
    push_range(v, '\u{AB11}', '\u{AB16}');
    push_range(v, '\u{AB20}', '\u{AB26}');
    push_range(v, '\u{AB28}', '\u{AB2E}');
    push_range(v, '\u{AB30}', '\u{AB5A}');
    push_range(v, '\u{AB5C}', '\u{AB69}');
    push_range(v, '\u{AB70}', '\u{ABE2}');
    assert(rview(v@) =~= o + letter_chunk_43());
}

fn push_letter_chunk_44(v: &mut Vec<ClassUnicodeRange>)
    ensures
        rview(final(v)@) == rview(old(v)@) + letter_chunk_44(),
{
    let ghost o = rview(v@);
    push_range(v, '\u{AC00}', '\u{D7A3}');
    push_range(v, '\u{D7B0}', '\u{D7C6}');
    push_range(v, '\u{D7CB}', '\u{D7FB}');
    push_range(v, '\u{F900}', '\u{FA6D}');
    push_range(v, '\u{FA70}', '\u{FAD9}');
    push_range(v, '\u{FB00}', '\u{FB06}');
    push_range(v, '\u{FB13}', '\u{FB17}');
    push_range(v, '\u{FB1D}', '\u{FB1D}');
    assert(rview(v@) =~= o + letter_chunk_44());
}

fn push_letter_chunk_45(v: &mut Vec<ClassUnicodeRange>)
    ensures
        rview(final(v)@) == rview(old(v)@) + letter_chunk_45(),
{
    let ghost o = rview(v@);
    push_range(v, '\u{FB1F}', '\u{FB28}');
    push_range(v, '\u{FB2A}', '\u{FB36}');
    push_range(v, '\u{FB38}', '\u{FB3C}');
    push_range(v, '\u{FB3E}', '\u{FB3E}');
    push_range(v, '\u{FB40}', '\u{FB41}');
    push_range(v, '\u{FB43}', '\u{FB44}');
    push_range(v, '\u{FB46}', '\u{FBB1}');
    push_range(v, '\u{FBD3}', '\u{FD3D}');
    assert(rview(v@) =~= o + letter_chunk_45());
}

fn push_letter_chunk_46(v: &mut Vec<ClassUnicodeRange>)
    ensures
        rview(final(v)@) == rview(old(v)@) + letter_chunk_46(),
{
    let ghost o = rview(v@);
    push_range(v, '\u{FD50}', '\u{FD8F}');
    push_range(v, '\u{FD92}', '\u{FDC7}');
    push_range(v, '\u{FDF0}', '\u{FDFB}');
    push_range(v, '\u{FE70}', '\u{FE74}');
    push_range(v, '\u{FE76}', '\u{FEFC}');
    push_range(v, '\u{FF21}', '\u{FF3A}');
    push_range(v, '\u{FF41}', '\u{FF5A}');
    push_range(v, '\u{FF66}', '\u{FFBE}');
    assert(rview(v@) =~= o + letter_chunk_46());
}

fn push_letter_chunk_47(v: &mut Vec<ClassUnicodeRange>)
    ensures
        rview(final(v)@) == rview(old(v)@) + letter_chunk_47(),
{
    let ghost o = rview(v@);
    push_range(v, '\u{FFC2}', '\u{FFC7}');
    push_range(v, '\u{FFCA}', '\u{FFCF}');
    push_range(v, '\u{FFD2}', '\u{FFD7}');
    push_range(v, '\u{FFDA}', '\u{FFDC}');
    push_range(v, '\u{10000}', '\u{1000B}');
    push_range(v, '\u{1000D}', '\u{10026}');
    push_range(v, '\u{10028}', '\u{1003A}');
    push_range(v, '\u{1003C}', '\u{1003D}');
    assert(rview(v@) =~= o + letter_chunk_47());
}

fn push_letter_chunk_48(v: &mut Vec<ClassUnicodeRange>)
    ensures
        rview(final(v)@) == rview(old(v)@) + letter_chunk_48(),
{
    let ghost o = rview(v@);
    push_range(v, '\u{1003F}', '\u{1004D}');
    push_range(v, '\u{10050}', '\u{1005D}');
    push_range(v, '\u{10080}', '\u{100FA}');
    push_range(v, '\u{10280}', '\u{1029C}');
    push_range(v, '\u{102A0}', '\u{102D0}');
    push_range(v, '\u{10300}', '\u{1031F}');
    push_range(v, '\u{1032D}', '\u{10340}');
    push_range(v, '\u{10342}', '\u{10349}');
    assert(rview(v@) =~= o + letter_chunk_48());
}

fn push_letter_chunk_49(v: &mut Vec<ClassUnicodeRange>)
    ensures
        rview(final(v)@) == rview(old(v)@) + letter_chunk_49(),
{
    let ghost o = rview(v@);
    push_range(v, '\u{10350}', '\u{10375}');
    push_range(v, '\u{10380}', '\u{1039D}');
    push_range(v, '\u{103A0}', '\u{103C3}');
    push_range(v, '\u{103C8}', '\u{103CF}');
    push_range(v, '\u{10400}', '\u{1049D}');
    push_range(v, '\u{104B0}', '\u{104D3}');
    push_range(v, '\u{104D8}', '\u{104FB}');
    push_range(v, '\u{10500}', '\u{10527}');
    assert(rview(v@) =~= o + letter_chunk_49());
}

fn push_letter_chunk_50(v: &mut Vec<ClassUnicodeRange>)
    ensures
        rview(final(v)@) == rview(old(v)@) + letter_chunk_50(),
{
    let ghost o = rview(v@);
    push_range(v, '\u{10530}', '\u{10563}');
    push_range(v, '\u{10570}', '\u{1057A}');
    push_range(v, '\u{1057C}', '\u{1058A}');
    push_range(v, '\u{1058C}', '\u{10592}');
    push_range(v, '\u{10594}', '\u{10595}');
    push_range(v, '\u{10597}', '\u{105A1}');
    push_range(v, '\u{105A3}', '\u{105B1}');
    push_range(v, '\u{105B3}', '\u{105B9}');
    assert(rview(v@) =~= o + letter_chunk_50());
}

fn push_letter_chunk_51(v: &mut Vec<ClassUnicodeRange>)
    ensures
        rview(final(v)@) == rview(old(v)@) + letter_chunk_51(),
{
    let ghost o = rview(v@);
    push_range(v, '\u{105BB}', '\u{105BC}');
    push_range(v, '\u{105C0}', '\u{105F3}');
    push_range(v, '\u{10600}', '\u{10736}');
    push_range(v, '\u{10740}', '\u{10755}');
    push_range(v, '\u{10760}', '\u{10767}');
    push_range(v, '\u{10780}', '\u{10785}');
    push_range(v, '\u{10787}', '\u{107B0}');
    push_range(v, '\u{107B2}', '\u{107BA}');
    assert(rview(v@) =~= o + letter_chunk_51());
}

fn push_letter_chunk_52(v: &mut Vec<ClassUnicodeRange>)
    ensures
        rview(final(v)@) == rview(old(v)@) + letter_chunk_52(),
{
    let ghost o = rview(v@);
    push_range(v, '\u{10800}', '\u{10805}');
    push_range(v, '\u{10808}', '\u{10808}');
    push_range(v, '\u{1080A}', '\u{10835}');
    push_range(v, '\u{10837}', '\u{10838}');
    push_range(v, '\u{1083C}', '\u{1083C}');
    push_range(v, '\u{1083F}', '\u{10855}');
    push_range(v, '\u{10860}', '\u{10876}');
    push_range(v, '\u{10880}', '\u{1089E}');
    assert(rview(v@) =~= o + letter_chunk_52());
}

fn push_letter_chunk_53(v: &mut Vec<ClassUnicodeRange>)
    ensures
        rview(final(v)@) == rview(old(v)@) + letter_chunk_53(),
{
    let ghost o = rview(v@);
    push_range(v, '\u{108E0}', '\u{108F2}');
    push_range(v, '\u{108F4}', '\u{108F5}');
    push_range(v, '\u{10900}', '\u{10915}');
    push_range(v, '\u{10920}', '\u{10939}');
    push_range(v, '\u{10980}', '\u{109B7}');
    push_range(v, '\u{109BE}', '\u{109BF}');
    push_range(v, '\u{10A00}', '\u{10A00}');
    push_range(v, '\u{10A10}', '\u{10A13}');
    assert(rview(v@) =~= o + letter_chunk_53());
}

fn push_letter_chunk_54(v: &mut Vec<ClassUnicodeRange>)
    ensures
        rview(final(v)@) == rview(old(v)@) + letter_chunk_54(),
{
    let ghost o = rview(v@);
    push_range(v, '\u{10A15}', '\u{10A17}');
    push_range(v, '\u{10A19}', '\u{10A35}');
    push_range(v, '\u{10A60}', '\u{10A7C}');
    push_range(v, '\u{10A80}', '\u{10A9C}');
    push_range(v, '\u{10AC0}', '\u{10AC7}');
    push_range(v, '\u{10AC9}', '\u{10AE4}');
    push_range(v, '\u{10B00}', '\u{10B35}');
    push_range(v, '\u{10B40}', '\u{10B55}');
    assert(rview(v@) =~= o + letter_chunk_54());
}

fn push_letter_chunk_55(v: &mut Vec<ClassUnicodeRange>)
    ensures
        rview(final(v)@) == rview(old(v)@) + letter_chunk_55(),
{
    let ghost o = rview(v@);
    push_range(v, '\u{10B60}', '\u{10B72}');
    push_range(v, '\u{10B80}', '\u{10B91}');
    push_range(v, '\u{10C00}', '\u{10C48}');
    push_range(v, '\u{10C80}', '\u{10CB2}');
    push_range(v, '\u{10CC0}', '\u{10CF2}');
    push_range(v, '\u{10D00}', '\u{10D23}');
    push_range(v, '\u{10D4A}', '\u{10D65}');
    push_range(v, '\u{10D6F}', '\u{10D85}');
    assert(rview(v@) =~= o + letter_chunk_55());
}

fn push_letter_chunk_56(v: &mut Vec<ClassUnicodeRange>)
    ensures
        rview(final(v)@) == rview(old(v)@) + letter_chunk_56(),
{
    let ghost o = rview(v@);
    push_range(v, '\u{10E80}', '\u{10EA9}');
    push_range(v, '\u{10EB0}', '\u{10EB1}');
    push_range(v, '\u{10EC2}', '\u{10EC4}');
    push_range(v, '\u{10F00}', '\u{10F1C}');
    push_range(v, '\u{10F27}', '\u{10F27}');
    push_range(v, '\u{10F30}', '\u{10F45}');
    push_range(v, '\u{10F70}', '\u{10F81}');
    push_range(v, '\u{10FB0}', '\u{10FC4}');
    assert(rview(v@) =~= o + letter_chunk_56());
}

fn push_letter_chunk_57(v: &mut Vec<ClassUnicodeRange>)
    ensures
        rview(final(v)@) == rview(old(v)@) + letter_chunk_57(),
{
    let ghost o = rview(v@);
    push_range(v, '\u{10FE0}', '\u{10FF6}');
    push_range(v, '\u{11003}', '\u{11037}');
    push_range(v, '\u{11071}', '\u{11072}');
    push_range(v, '\u{11075}', '\u{11075}');
    push_range(v, '\u{11083}', '\u{110AF}');
    push_range(v, '\u{110D0}', '\u{110E8}');
    push_range(v, '\u{11103}', '\u{11126}');
    push_range(v, '\u{11144}', '\u{11144}');
    assert(rview(v@) =~= o + letter_chunk_57());
}

fn push_letter_chunk_58(v: &mut Vec<ClassUnicodeRange>)
    ensures
        rview(final(v)@) == rview(old(v)@) + letter_chunk_58(),
{
    let ghost o = rview(v@);
    push_range(v, '\u{11147}', '\u{11147}');
    push_range(v, '\u{11150}', '\u{11172}');
    push_range(v, '\u{11176}', '\u{11176}');
    push_range(v, '\u{11183}', '\u{111B2}');
    push_range(v, '\u{111C1}', '\u{111C4}');
    push_range(v, '\u{111DA}', '\u{111DA}');
    push_range(v, '\u{111DC}', '\u{111DC}');
    push_range(v, '\u{11200}', '\u{11211}');
    assert(rview(v@) =~= o + letter_chunk_58());
}

fn push_letter_chunk_59(v: &mut Vec<ClassUnicodeRange>)
    ensures
        rview(final(v)@) == rview(old(v)@) + letter_chunk_59(),
{
    let ghost o = rview(v@);
    push_range(v, '\u{11213}', '\u{1122B}');
    push_range(v, '\u{1123F}', '\u{11240}');
    push_range(v, '\u{11280}', '\u{11286}');
    push_range(v, '\u{11288}', '\u{11288}');
    push_range(v, '\u{1128A}', '\u{1128D}');
    push_range(v, '\u{1128F}', '\u{1129D}');
    push_range(v, '\u{1129F}', '\u{112A8}');
    push_range(v, '\u{112B0}', '\u{112DE}');
    assert(rview(v@) =~= o + letter_chunk_59());
}

fn push_letter_chunk_60(v: &mut Vec<ClassUnicodeRange>)
    ensures
        rview(final(v)@) == rview(old(v)@) + letter_chunk_60(),
{
    let ghost o = rview(v@);
    push_range(v, '\u{11305}', '\u{1130C}');
    push_range(v, '\u{1130F}', '\u{11310}');
    push_range(v, '\u{11313}', '\u{11328}');
    push_range(v, '\u{1132A}', '\u{11330}');
    push_range(v, '\u{11332}', '\u{11333}');
    push_range(v, '\u{11335}', '\u{11339}');
    push_range(v, '\u{1133D}', '\u{1133D}');
    push_range(v, '\u{11350}', '\u{11350}');
    assert(rview(v@) =~= o + letter_chunk_60());
}

fn push_letter_chunk_61(v: &mut Vec<ClassUnicodeRange>)
    ensures
        rview(final(v)@) == rview(old(v)@) + letter_chunk_61(),
{
    let ghost o = rview(v@);
    push_range(v, '\u{1135D}', '\u{11361}');
    push_range(v, '\u{11380}', '\u{11389}');
    push_range(v, '\u{1138B}', '\u{1138B}');
    push_range(v, '\u{1138E}', '\u{1138E}');
    push_range(v, '\u{11390}', '\u{113B5}');
    push_range(v, '\u{113B7}', '\u{113B7}');
    push_range(v, '\u{113D1}', '\u{113D1}');
    push_range(v, '\u{113D3}', '\u{113D3}');
    assert(rview(v@) =~= o + letter_chunk_61());
}

fn push_letter_chunk_62(v: &mut Vec<ClassUnicodeRange>)
    ensures
        rview(final(v)@) == rview(old(v)@) + letter_chunk_62(),
{
    let ghost o = rview(v@);
    push_range(v, '\u{11400}', '\u{11434}');
    push_range(v, '\u{11447}', '\u{1144A}');
    push_range(v, '\u{1145F}', '\u{11461}');
    push_range(v, '\u{11480}', '\u{114AF}');
    push_range(v, '\u{114C4}', '\u{114C5}');
    push_range(v, '\u{114C7}', '\u{114C7}');
    push_range(v, '\u{11580}', '\u{115AE}');
    push_range(v, '\u{115D8}', '\u{115DB}');
    assert(rview(v@) =~= o + letter_chunk_62());
}

fn push_letter_chunk_63(v: &mut Vec<ClassUnicodeRange>)
    ensures
        rview(final(v)@) == rview(old(v)@) + letter_chunk_63(),
{
    let ghost o = rview(v@);
    push_range(v, '\u{11600}', '\u{1162F}');
    push_range(v, '\u{11644}', '\u{11644}');
    push_range(v, '\u{11680}', '\u{116AA}');
    push_range(v, '\u{116B8}', '\u{116B8}');
    push_range(v, '\u{11700}', '\u{1171A}');
    push_range(v, '\u{11740}', '\u{11746}');
    push_range(v, '\u{11800}', '\u{1182B}');
    push_range(v, '\u{118A0}', '\u{118DF}');
    assert(rview(v@) =~= o + letter_chunk_63());
}

fn push_letter_chunk_64(v: &mut Vec<ClassUnicodeRange>)
    ensures
        rview(final(v)@) == rview(old(v)@) + letter_chunk_64(),
{
    let ghost o = rview(v@);
    push_range(v, '\u{118FF}', '\u{11906}');
    push_range(v, '\u{11909}', '\u{11909}');
    push_range(v, '\u{1190C}', '\u{11913}');
    push_range(v, '\u{11915}', '\u{11916}');
    push_range(v, '\u{11918}', '\u{1192F}');
    push_range(v, '\u{1193F}', '\u{1193F}');
    push_range(v, '\u{11941}', '\u{11941}');
    push_range(v, '\u{119A0}', '\u{119A7}');
    assert(rview(v@) =~= o + letter_chunk_64());
}

fn push_letter_chunk_65(v: &mut Vec<ClassUnicodeRange>)
    ensures
        rview(final(v)@) == rview(old(v)@) + letter_chunk_65(),
{
    let ghost o = rview(v@);
    push_range(v, '\u{119AA}', '\u{119D0}');
    push_range(v, '\u{119E1}', '\u{119E1}');
    push_range(v, '\u{119E3}', '\u{119E3}');
    push_range(v, '\u{11A00}', '\u{11A00}');
    push_range(v, '\u{11A0B}', '\u{11A32}');
    push_range(v, '\u{11A3A}', '\u{11A3A}');
    push_range(v, '\u{11A50}', '\u{11A50}');
    push_range(v, '\u{11A5C}', '\u{11A89}');
    assert(rview(v@) =~= o + letter_chunk_65());
}

fn push_letter_chunk_66(v: &mut Vec<ClassUnicodeRange>)
    ensures
        rview(final(v)@) == rview(old(v)@) + letter_chunk_66(),
{
    let ghost o = rview(v@);
    push_range(v, '\u{11A9D}', '\u{11A9D}');
    push_range(v, '\u{11AB0}', '\u{11AF8}');
    push_range(v, '\u{11BC0}', '\u{11BE0}');
    push_range(v, '\u{11C00}', '\u{11C08}');
    push_range(v, '\u{11C0A}', '\u{11C2E}');
    push_range(v, '\u{11C40}', '\u{11C40}');
    push_range(v, '\u{11C72}', '\u{11C8F}');
    push_range(v, '\u{11D00}', '\u{11D06}');
    assert(rview(v@) =~= o + letter_chunk_66());
}

fn push_letter_chunk_67(v: &mut Vec<ClassUnicodeRange>)
    ensures
        rview(final(v)@) == rview(old(v)@) + letter_chunk_67(),
{
    let ghost o = rview(v@);
    push_range(v, '\u{11D08}', '\u{11D09}');
    push_range(v, '\u{11D0B}', '\u{11D30}');
    push_range(v, '\u{11D46}', '\u{11D46}');
    push_range(v, '\u{11D60}', '\u{11D65}');
    push_range(v, '\u{11D67}', '\u{11D68}');
    push_range(v, '\u{11D6A}', '\u{11D89}');
    push_range(v, '\u{11D98}', '\u{11D98}');
    push_range(v, '\u{11EE0}', '\u{11EF2}');
    assert(rview(v@) =~= o + letter_chunk_67());
}

fn push_letter_chunk_68(v: &mut Vec<ClassUnicodeRange>)
    ensures
        rview(final(v)@) == rview(old(v)@) + letter_chunk_68(),
{
    let ghost o = rview(v@);
    push_range(v, '\u{11F02}', '\u{11F02}');
    push_range(v, '\u{11F04}', '\u{11F10}');
    push_range(v, '\u{11F12}', '\u{11F33}');
    push_range(v, '\u{11FB0}', '\u{11FB0}');
    push_range(v, '\u{12000}', '\u{12399}');
    push_range(v, '\u{12480}', '\u{12543}');
    push_range(v, '\u{12F90}', '\u{12FF0}');
    push_range(v, '\u{13000}', '\u{1342F}');
    assert(rview(v@) =~= o + letter_chunk_68());
}

fn push_letter_chunk_69(v: &mut Vec<ClassUnicodeRange>)
    ensures
        rview(final(v)@) == rview(old(v)@) + letter_chunk_69(),
{
    let ghost o = rview(v@);
    push_range(v, '\u{13441}', '\u{13446}');
    push_range(v, '\u{13460}', '\u{143FA}');
    push_range(v, '\u{14400}', '\u{14646}');
    push_range(v, '\u{16100}', '\u{1611D}');
    push_range(v, '\u{16800}', '\u{16A38}');
    push_range(v, '\u{16A40}', '\u{16A5E}');
    push_range(v, '\u{16A70}', '\u{16ABE}');
    push_range(v, '\u{16AD0}', '\u{16AED}');
    assert(rview(v@) =~= o + letter_chunk_69());
}

fn push_letter_chunk_70(v: &mut Vec<ClassUnicodeRange>)
    ensures
        rview(final(v)@) == rview(old(v)@) + letter_chunk_70(),
{
    let ghost o = rview(v@);
    push_range(v, '\u{16B00}', '\u{16B2F}');
    push_range(v, '\u{16B40}', '\u{16B43}');
    push_range(v, '\u{16B63}', '\u{16B77}');
    push_range(v, '\u{16B7D}', '\u{16B8F}');
    push_range(v, '\u{16D40}', '\u{16D6C}');
    push_range(v, '\u{16E40}', '\u{16E7F}');
    push_range(v, '\u{16F00}', '\u{16F4A}');
    push_range(v, '\u{16F50}', '\u{16F50}');
    assert(rview(v@) =~= o + letter_chunk_70());
}

fn push_letter_chunk_71(v: &mut Vec<ClassUnicodeRange>)
    ensures
        rview(final(v)@) == rview(old(v)@) + letter_chunk_71(),
{
    let ghost o = rview(v@);
    push_range(v, '\u{16F93}', '\u{16F9F}');
    push_range(v, '\u{16FE0}', '\u{16FE1}');
    push_range(v, '\u{16FE3}', '\u{16FE3}');
    push_range(v, '\u{17000}', '\u{187F7}');
    push_range(v, '\u{18800}', '\u{18CD5}');
    push_range(v, '\u{18CFF}', '\u{18D08}');
    push_range(v, '\u{1AFF0}', '\u{1AFF3}');
    push_range(v, '\u{1AFF5}', '\u{1AFFB}');
    assert(rview(v@) =~= o + letter_chunk_71());
}

fn push_letter_chunk_72(v: &mut Vec<ClassUnicodeRange>)
    ensures
        rview(final(v)@) == rview(old(v)@) + letter_chunk_72(),
{
    let ghost o = rview(v@);
    push_range(v, '\u{1AFFD}', '\u{1AFFE}');
    push_range(v, '\u{1B000}', '\u{1B122}');
    push_range(v, '\u{1B132}', '\u{1B132}');
    push_range(v, '\u{1B150}', '\u{1B152}');
    push_range(v, '\u{1B155}', '\u{1B155}');
    push_range(v, '\u{1B164}', '\u{1B167}');
    push_range(v, '\u{1B170}', '\u{1B2FB}');
    push_range(v, '\u{1BC00}', '\u{1BC6A}');
    assert(rview(v@) =~= o + letter_chunk_72());
}

fn push_letter_chunk_73(v: &mut Vec<ClassUnicodeRange>)
    ensures
        rview(final(v)@) == rview(old(v)@) + letter_chunk_73(),
{
    let ghost o = rview(v@);
    push_range(v, '\u{1BC70}', '\u{1BC7C}');
    push_range(v, '\u{1BC80}', '\u{1BC88}');
    push_range(v, '\u{1BC90}', '\u{1BC99}');
    push_range(v, '\u{1D400}', '\u{1D454}');
    push_range(v, '\u{1D456}', '\u{1D49C}');
    push_range(v, '\u{1D49E}', '\u{1D49F}');
    push_range(v, '\u{1D4A2}', '\u{1D4A2}');
    push_range(v, '\u{1D4A5}', '\u{1D4A6}');
    assert(rview(v@) =~= o + letter_chunk_73());
}

fn push_letter_chunk_74(v: &mut Vec<ClassUnicodeRange>)
    ensures
        rview(final(v)@) == rview(old(v)@) + letter_chunk_74(),
{
    let ghost o = rview(v@);
    push_range(v, '\u{1D4A9}', '\u{1D4AC}');
    push_range(v, '\u{1D4AE}', '\u{1D4B9}');
    push_range(v, '\u{1D4BB}', '\u{1D4BB}');
    push_range(v, '\u{1D4BD}', '\u{1D4C3}');
    push_range(v, '\u{1D4C5}', '\u{1D505}');
    push_range(v, '\u{1D507}', '\u{1D50A}');
    push_range(v, '\u{1D50D}', '\u{1D514}');
    push_range(v, '\u{1D516}', '\u{1D51C}');
    assert(rview(v@) =~= o + letter_chunk_74());
}

fn push_letter_chunk_75(v: &mut Vec<ClassUnicodeRange>)
    ensures
        rview(final(v)@) == rview(old(v)@) + letter_chunk_75(),
{
    let ghost o = rview(v@);
    push_range(v, '\u{1D51E}', '\u{1D539}');
    push_range(v, '\u{1D53B}', '\u{1D53E}');
    push_range(v, '\u{1D540}', '\u{1D544}');
    push_range(v, '\u{1D546}', '\u{1D546}');
    push_range(v, '\u{1D54A}', '\u{1D550}');
    push_range(v, '\u{1D552}', '\u{1D6A5}');
    push_range(v, '\u{1D6A8}', '\u{1D6C0}');
    push_range(v, '\u{1D6C2}', '\u{1D6DA}');
    assert(rview(v@) =~= o + letter_chunk_75());
}

fn push_letter_chunk_76(v: &mut Vec<ClassUnicodeRange>)
    ensures
        rview(final(v)@) == rview(old(v)@) + letter_chunk_76(),
{
    let ghost o = rview(v@);
    push_range(v, '\u{1D6DC}', '\u{1D6FA}');
    push_range(v, '\u{1D6FC}', '\u{1D714}');
    push_range(v, '\u{1D716}', '\u{1D734}');
    push_range(v, '\u{1D736}', '\u{1D74E}');
    push_range(v, '\u{1D750}', '\u{1D76E}');
    push_range(v, '\u{1D770}', '\u{1D788}');
    push_range(v, '\u{1D78A}', '\u{1D7A8}');
    push_range(v, '\u{1D7AA}', '\u{1D7C2}');
    assert(rview(v@) =~= o + letter_chunk_76());
}

fn push_letter_chunk_77(v: &mut Vec<ClassUnicodeRange>)
    ensures
        rview(final(v)@) == rview(old(v)@) + letter_chunk_77(),
{
    let ghost o = rview(v@);
    push_range(v, '\u{1D7C4}', '\u{1D7CB}');
    push_range(v, '\u{1DF00}', '\u{1DF1E}');
    push_range(v, '\u{1DF25}', '\u{1DF2A}');
    push_range(v, '\u{1E030}', '\u{1E06D}');
    push_range(v, '\u{1E100}', '\u{1E12C}');
    push_range(v, '\u{1E137}', '\u{1E13D}');
    push_range(v, '\u{1E14E}', '\u{1E14E}');
    push_range(v, '\u{1E290}', '\u{1E2AD}');
    assert(rview(v@) =~= o + letter_chunk_77());
}

fn push_letter_chunk_78(v: &mut Vec<ClassUnicodeRange>)
    ensures
        rview(final(v)@) == rview(old(v)@) + letter_chunk_78(),
{
    let ghost o = rview(v@);
    push_range(v, '\u{1E2C0}', '\u{1E2EB}');
    push_range(v, '\u{1E4D0}', '\u{1E4EB}');
    push_range(v, '\u{1E5D0}', '\u{1E5ED}');
    push_range(v, '\u{1E5F0}', '\u{1E5F0}');
    push_range(v, '\u{1E7E0}', '\u{1E7E6}');
    push_range(v, '\u{1E7E8}', '\u{1E7EB}');
    push_range(v, '\u{1E7ED}', '\u{1E7EE}');
    push_range(v, '\u{1E7F0}', '\u{1E7FE}');
    assert(rview(v@) =~= o + letter_chunk_78());
}

fn push_letter_chunk_79(v: &mut Vec<ClassUnicodeRange>)
    ensures
        rview(final(v)@) == rview(old(v)@) + letter_chunk_79(),
{
    let ghost o = rview(v@);
    push_range(v, '\u{1E800}', '\u{1E8C4}');
    push_range(v, '\u{1E900}', '\u{1E943}');
    push_range(v, '\u{1E94B}', '\u{1E94B}');
    push_range(v, '\u{1EE00}', '\u{1EE03}');
    push_range(v, '\u{1EE05}', '\u{1EE1F}');
    push_range(v, '\u{1EE21}', '\u{1EE22}');
    push_range(v, '\u{1EE24}', '\u{1EE24}');
    push_range(v, '\u{1EE27}', '\u{1EE27}');
    assert(rview(v@) =~= o + letter_chunk_79());
}

fn push_letter_chunk_80(v: &mut Vec<ClassUnicodeRange>)
    ensures
        rview(final(v)@) == rview(old(v)@) + letter_chunk_80(),
{
    let ghost o = rview(v@);
    push_range(v, '\u{1EE29}', '\u{1EE32}');
    push_range(v, '\u{1EE34}', '\u{1EE37}');
    push_range(v, '\u{1EE39}', '\u{1EE39}');
    push_range(v, '\u{1EE3B}', '\u{1EE3B}');
    push_range(v, '\u{1EE42}', '\u{1EE42}');
    push_range(v, '\u{1EE47}', '\u{1EE47}');
    push_range(v, '\u{1EE49}', '\u{1EE49}');
    push_range(v, '\u{1EE4B}', '\u{1EE4B}');
    assert(rview(v@) =~= o + letter_chunk_80());
}

fn push_letter_chunk_81(v: &mut Vec<ClassUnicodeRange>)
    ensures
        rview(final(v)@) == rview(old(v)@) + letter_chunk_81(),
{
    let ghost o = rview(v@);
    push_range(v, '\u{1EE4D}', '\u{1EE4F}');
    push_range(v, '\u{1EE51}', '\u{1EE52}');
    push_range(v, '\u{1EE54}', '\u{1EE54}');
    push_range(v, '\u{1EE57}', '\u{1EE57}');
    push_range(v, '\u{1EE59}', '\u{1EE59}');
    push_range(v, '\u{1EE5B}', '\u{1EE5B}');
    push_range(v, '\u{1EE5D}', '\u{1EE5D}');
    push_range(v, '\u{1EE5F}', '\u{1EE5F}');
    assert(rview(v@) =~= o + letter_chunk_81());
}

fn push_letter_chunk_82(v: &mut Vec<ClassUnicodeRange>)
    ensures
        rview(final(v)@) == rview(old(v)@) + letter_chunk_82(),
{
    let ghost o = rview(v@);
    push_range(v, '\u{1EE61}', '\u{1EE62}');
    push_range(v, '\u{1EE64}', '\u{1EE64}');
    push_range(v, '\u{1EE67}', '\u{1EE6A}');
    push_range(v, '\u{1EE6C}', '\u{1EE72}');
    push_range(v, '\u{1EE74}', '\u{1EE77}');
    push_range(v, '\u{1EE79}', '\u{1EE7C}');
    push_range(v, '\u{1EE7E}', '\u{1EE7E}');
    push_range(v, '\u{1EE80}', '\u{1EE89}');
    assert(rview(v@) =~= o + letter_chunk_82());
}

fn push_letter_chunk_83(v: &mut Vec<ClassUnicodeRange>)
    ensures
        rview(final(v)@) == rview(old(v)@) + letter_chunk_83(),
{
    let ghost o = rview(v@);
    push_range(v, '\u{1EE8B}', '\u{1EE9B}');
    push_range(v, '\u{1EEA1}', '\u{1EEA3}');
    push_range(v, '\u{1EEA5}', '\u{1EEA9}');
    push_range(v, '\u{1EEAB}', '\u{1EEBB}');
    push_range(v, '\u{20000}', '\u{2A6DF}');
    push_range(v, '\u{2A700}', '\u{2B739}');
    push_range(v, '\u{2B740}', '\u{2B81D}');
    push_range(v, '\u{2B820}', '\u{2CEA1}');
    assert(rview(v@) =~= o + letter_chunk_83());
}

fn push_letter_chunk_84(v: &mut Vec<ClassUnicodeRange>)
    ensures
        rview(final(v)@) == rview(old(v)@) + letter_chunk_84(),
{
    let ghost o = rview(v@);
    push_range(v, '\u{2CEB0}', '\u{2EBE0}');
    push_range(v, '\u{2EBF0}', '\u{2EE5D}');
    push_range(v, '\u{2F800}', '\u{2FA1D}');
    push_range(v, '\u{30000}', '\u{3134A}');
    push_range(v, '\u{31350}', '\u{323AF}');
    assert(rview(v@) =~= o + letter_chunk_84());
}

fn push_letter_block_0(v: &mut Vec<ClassUnicodeRange>)
    ensures
        rview(final(v)@) == rview(old(v)@) + letter_block_0(),
{
    let ghost o = rview(v@);
    push_letter_chunk_0(v);
    assert(rview(v@) =~= o + (letter_chunk_0()));
    push_letter_chunk_1(v);
    assert(rview(v@) =~= o + (letter_chunk_0() + letter_chunk_1()));
    push_letter_chunk_2(v);
    assert(rview(v@) =~= o + (letter_chunk_0() + letter_chunk_1() + letter_chunk_2()));
    push_letter_chunk_3(v);
    assert(rview(v@) =~= o + (letter_chunk_0() + letter_chunk_1() + letter_chunk_2() + letter_chunk_3()));
    push_letter_chunk_4(v);
    assert(rview(v@) =~= o + (letter_chunk_0() + letter_chunk_1() + letter_chunk_2() + letter_chunk_3() + letter_chunk_4()));
    push_letter_chunk_5(v);
    assert(rview(v@) =~= o + (letter_chunk_0() + letter_chunk_1() + letter_chunk_2() + letter_chunk_3() + letter_chunk_4() + letter_chunk_5()));
    push_letter_chunk_6(v);
    assert(rview(v@) =~= o + (letter_chunk_0() + letter_chunk_1() + letter_chunk_2() + letter_chunk_3() + letter_chunk_4() + letter_chunk_5() + letter_chunk_6()));
    push_letter_chunk_7(v);
    assert(rview(v@) =~= o + (letter_chunk_0() + letter_chunk_1() + letter_chunk_2() + letter_chunk_3() + letter_chunk_4() + letter_chunk_5() + letter_chunk_6() + letter_chunk_7()));
    push_letter_chunk_8(v);
    assert(rview(v@) =~= o + (letter_chunk_0() + letter_chunk_1() + letter_chunk_2() + letter_chunk_3() + letter_chunk_4() + letter_chunk_5() + letter_chunk_6() + letter_chunk_7() + letter_chunk_8()));
    push_letter_chunk_9(v);
    assert(rview(v@) =~= o + (letter_chunk_0() + letter_chunk_1() + letter_chunk_2() + letter_chunk_3() + letter_chunk_4() + letter_chunk_5() + letter_chunk_6() + letter_chunk_7() + letter_chunk_8() + letter_chunk_9()));
}

fn push_letter_block_1(v: &mut Vec<ClassUnicodeRange>)
    ensures
        rview(final(v)@) == rview(old(v)@) + letter_block_1(),
{
    let ghost o = rview(v@);
    push_letter_chunk_10(v);
    assert(rview(v@) =~= o + (letter_chunk_10()));
    push_letter_chunk_11(v);
    assert(rview(v@) =~= o + (letter_chunk_10() + letter_chunk_11()));
    push_letter_chunk_12(v);
    assert(rview(v@) =~= o + (letter_chunk_10() + letter_chunk_11() + letter_chunk_12()));
    push_letter_chunk_13(v);
    assert(rview(v@) =~= o + (letter_chunk_10() + letter_chunk_11() + letter_chunk_12() + letter_chunk_13()));
    push_letter_chunk_14(v);
    assert(rview(v@) =~= o + (letter_chunk_10() + letter_chunk_11() + letter_chunk_12() + letter_chunk_13() + letter_chunk_14()));
    push_letter_chunk_15(v);
    assert(rview(v@) =~= o + (letter_chunk_10() + letter_chunk_11() + letter_chunk_12() + letter_chunk_13() + letter_chunk_14() + letter_chunk_15()));
    push_letter_chunk_16(v);
    assert(rview(v@) =~= o + (letter_chunk_10() + letter_chunk_11() + letter_chunk_12() + letter_chunk_13() + letter_chunk_14() + letter_chunk_15() + letter_chunk_16()));
    push_letter_chunk_17(v);
    assert(rview(v@) =~= o + (letter_chunk_10() + letter_chunk_11() + letter_chunk_12() + letter_chunk_13() + letter_chunk_14() + letter_chunk_15() + letter_chunk_16() + letter_chunk_17()));
    push_letter_chunk_18(v);
    assert(rview(v@) =~= o + (letter_chunk_10() + letter_chunk_11() + letter_chunk_12() + letter_chunk_13() + letter_chunk_14() + letter_chunk_15() + letter_chunk_16() + letter_chunk_17() + letter_chunk_18()));
    push_letter_chunk_19(v);
    assert(rview(v@) =~= o + (letter_chunk_10() + letter_chunk_11() + letter_chunk_12() + letter_chunk_13() + letter_chunk_14() + letter_chunk_15() + letter_chunk_16() + letter_chunk_17() + letter_chunk_18() + letter_chunk_19()));
}

fn push_letter_block_2(v: &mut Vec<ClassUnicodeRange>)
    ensures
        rview(final(v)@) == rview(old(v)@) + letter_block_2(),
{
    let ghost o = rview(v@);
    push_letter_chunk_20(v);
    assert(rview(v@) =~= o + (letter_chunk_20()));
    push_letter_chunk_21(v);
    assert(rview(v@) =~= o + (letter_chunk_20() + letter_chunk_21()));
    push_letter_chunk_22(v);
    assert(rview(v@) =~= o + (letter_chunk_20() + letter_chunk_21() + letter_chunk_22()));
    push_letter_chunk_23(v);
    assert(rview(v@) =~= o + (letter_chunk_20() + letter_chunk_21() + letter_chunk_22() + letter_chunk_23()));
    push_letter_chunk_24(v);
    assert(rview(v@) =~= o + (letter_chunk_20() + letter_chunk_21() + letter_chunk_22() + letter_chunk_23() + letter_chunk_24()));
    push_letter_chunk_25(v);
    assert(rview(v@) =~= o + (letter_chunk_20() + letter_chunk_21() + letter_chunk_22() + letter_chunk_23() + letter_chunk_24() + letter_chunk_25()));
    push_letter_chunk_26(v);
    assert(rview(v@) =~= o + (letter_chunk_20() + letter_chunk_21() + letter_chunk_22() + letter_chunk_23() + letter_chunk_24() + letter_chunk_25() + letter_chunk_26()));
    push_letter_chunk_27(v);
    assert(rview(v@) =~= o + (letter_chunk_20() + letter_chunk_21() + letter_chunk_22() + letter_chunk_23() + letter_chunk_24() + letter_chunk_25() + letter_chunk_26() + letter_chunk_27()));
    push_letter_chunk_28(v);
    assert(rview(v@) =~= o + (letter_chunk_20() + letter_chunk_21() + letter_chunk_22() + letter_chunk_23() + letter_chunk_24() + letter_chunk_25() + letter_chunk_26() + letter_chunk_27() + letter_chunk_28()));
    push_letter_chunk_29(v);
    assert(rview(v@) =~= o + (letter_chunk_20() + letter_chunk_21() + letter_chunk_22() + letter_chunk_23() + letter_chunk_24() + letter_chunk_25() + letter_chunk_26() + letter_chunk_27() + letter_chunk_28() + letter_chunk_29()));
}

fn push_letter_block_3(v: &mut Vec<ClassUnicodeRange>)
    ensures
        rview(final(v)@) == rview(old(v)@) + letter_block_3(),
{
    let ghost o = rview(v@);
    push_letter_chunk_30(v);
    assert(rview(v@) =~= o + (letter_chunk_30()));
    push_letter_chunk_31(v);
    assert(rview(v@) =~= o + (letter_chunk_30() + letter_chunk_31()));
    push_letter_chunk_32(v);
    assert(rview(v@) =~= o + (letter_chunk_30() + letter_chunk_31() + letter_chunk_32()));
    push_letter_chunk_33(v);
    assert(rview(v@) =~= o + (letter_chunk_30() + letter_chunk_31() + letter_chunk_32() + letter_chunk_33()));
    push_letter_chunk_34(v);
    assert(rview(v@) =~= o + (letter_chunk_30() + letter_chunk_31() + letter_chunk_32() + letter_chunk_33() + letter_chunk_34()));
    push_letter_chunk_35(v);
    assert(rview(v@) =~= o + (letter_chunk_30() + letter_chunk_31() + letter_chunk_32() + letter_chunk_33() + letter_chunk_34() + letter_chunk_35()));
    push_letter_chunk_36(v);
    assert(rview(v@) =~= o + (letter_chunk_30() + letter_chunk_31() + letter_chunk_32() + letter_chunk_33() + letter_chunk_34() + letter_chunk_35() + letter_chunk_36()));
    push_letter_chunk_37(v);
    assert(rview(v@) =~= o + (letter_chunk_30() + letter_chunk_31() + letter_chunk_32() + letter_chunk_33() + letter_chunk_34() + letter_chunk_35() + letter_chunk_36() + letter_chunk_37()));
    push_letter_chunk_38(v);
    assert(rview(v@) =~= o + (letter_chunk_30() + letter_chunk_31() + letter_chunk_32() + letter_chunk_33() + letter_chunk_34() + letter_chunk_35() + letter_chunk_36() + letter_chunk_37() + letter_chunk_38()));
    push_letter_chunk_39(v);
    assert(rview(v@) =~= o + (letter_chunk_30() + letter_chunk_31() + letter_chunk_32() + letter_chunk_33() + letter_chunk_34() + letter_chunk_35() + letter_chunk_36() + letter_chunk_37() + letter_chunk_38() + letter_chunk_39()));
}

fn push_letter_block_4(v: &mut Vec<ClassUnicodeRange>)
    ensures
        rview(final(v)@) == rview(old(v)@) + letter_block_4(),
{
    let ghost o = rview(v@);
    push_letter_chunk_40(v);
    assert(rview(v@) =~= o + (letter_chunk_40()));
    push_letter_chunk_41(v);
    assert(rview(v@) =~= o + (letter_chunk_40() + letter_chunk_41()));
    push_letter_chunk_42(v);
    assert(rview(v@) =~= o + (letter_chunk_40() + letter_chunk_41() + letter_chunk_42()));
    push_letter_chunk_43(v);
    assert(rview(v@) =~= o + (letter_chunk_40() + letter_chunk_41() + letter_chunk_42() + letter_chunk_43()));
    push_letter_chunk_44(v);
    assert(rview(v@) =~= o + (letter_chunk_40() + letter_chunk_41() + letter_chunk_42() + letter_chunk_43() + letter_chunk_44()));
    push_letter_chunk_45(v);
    assert(rview(v@) =~= o + (letter_chunk_40() + letter_chunk_41() + letter_chunk_42() + letter_chunk_43() + letter_chunk_44() + letter_chunk_45()));
    push_letter_chunk_46(v);
    assert(rview(v@) =~= o + (letter_chunk_40() + letter_chunk_41() + letter_chunk_42() + letter_chunk_43() + letter_chunk_44() + letter_chunk_45() + letter_chunk_46()));
    push_letter_chunk_47(v);
    assert(rview(v@) =~= o + (letter_chunk_40() + letter_chunk_41() + letter_chunk_42() + letter_chunk_43() + letter_chunk_44() + letter_chunk_45() + letter_chunk_46() + letter_chunk_47()));
    push_letter_chunk_48(v);
    assert(rview(v@) =~= o + (letter_chunk_40() + letter_chunk_41() + letter_chunk_42() + letter_chunk_43() + letter_chunk_44() + letter_chunk_45() + letter_chunk_46() + letter_chunk_47() + letter_chunk_48()));
    push_letter_chunk_49(v);
    assert(rview(v@) =~= o + (letter_chunk_40() + letter_chunk_41() + letter_chunk_42() + letter_chunk_43() + letter_chunk_44() + letter_chunk_45() + letter_chunk_46() + letter_chunk_47() + letter_chunk_48() + letter_chunk_49()));
}

fn push_letter_block_5(v: &mut Vec<ClassUnicodeRange>)
    ensures
        rview(final(v)@) == rview(old(v)@) + letter_block_5(),
{
    let ghost o = rview(v@);
    push_letter_chunk_50(v);
    assert(rview(v@) =~= o + (letter_chunk_50()));
    push_letter_chunk_51(v);
    assert(rview(v@) =~= o + (letter_chunk_50() + letter_chunk_51()));
    push_letter_chunk_52(v);
    assert(rview(v@) =~= o + (letter_chunk_50() + letter_chunk_51() + letter_chunk_52()));
    push_letter_chunk_53(v);
    assert(rview(v@) =~= o + (letter_chunk_50() + letter_chunk_51() + letter_chunk_52() + letter_chunk_53()));
    push_letter_chunk_54(v);
    assert(rview(v@) =~= o + (letter_chunk_50() + letter_chunk_51() + letter_chunk_52() + letter_chunk_53() + letter_chunk_54()));
    push_letter_chunk_55(v);
    assert(rview(v@) =~= o + (letter_chunk_50() + letter_chunk_51() + letter_chunk_52() + letter_chunk_53() + letter_chunk_54() + letter_chunk_55()));
    push_letter_chunk_56(v);
    assert(rview(v@) =~= o + (letter_chunk_50() + letter_chunk_51() + letter_chunk_52() + letter_chunk_53() + letter_chunk_54() + letter_chunk_55() + letter_chunk_56()));
    push_letter_chunk_57(v);
    assert(rview(v@) =~= o + (letter_chunk_50() + letter_chunk_51() + letter_chunk_52() + letter_chunk_53() + letter_chunk_54() + letter_chunk_55() + letter_chunk_56() + letter_chunk_57()));
    push_letter_chunk_58(v);
    assert(rview(v@) =~= o + (letter_chunk_50() + letter_chunk_51() + letter_chunk_52() + letter_chunk_53() + letter_chunk_54() + letter_chunk_55() + letter_chunk_56() + letter_chunk_57() + letter_chunk_58()));
    push_letter_chunk_59(v);
    assert(rview(v@) =~= o + (letter_chunk_50() + letter_chunk_51() + letter_chunk_52() + letter_chunk_53() + letter_chunk_54() + letter_chunk_55() + letter_chunk_56() + letter_chunk_57() + letter_chunk_58() + letter_chunk_59()));
}

fn push_letter_block_6(v: &mut Vec<ClassUnicodeRange>)
    ensures
        rview(final(v)@) == rview(old(v)@) + letter_block_6(),
{
    let ghost o = rview(v@);
    push_letter_chunk_60(v);
    assert(rview(v@) =~= o + (letter_chunk_60()));
    push_letter_chunk_61(v);
    assert(rview(v@) =~= o + (letter_chunk_60() + letter_chunk_61()));
    push_letter_chunk_62(v);
    assert(rview(v@) =~= o + (letter_chunk_60() + letter_chunk_61() + letter_chunk_62()));
    push_letter_chunk_63(v);
    assert(rview(v@) =~= o + (letter_chunk_60() + letter_chunk_61() + letter_chunk_62() + letter_chunk_63()));
    push_letter_chunk_64(v);
    assert(rview(v@) =~= o + (letter_chunk_60() + letter_chunk_61() + letter_chunk_62() + letter_chunk_63() + letter_chunk_64()));
    push_letter_chunk_65(v);
    assert(rview(v@) =~= o + (letter_chunk_60() + letter_chunk_61() + letter_chunk_62() + letter_chunk_63() + letter_chunk_64() + letter_chunk_65()));
    push_letter_chunk_66(v);
    assert(rview(v@) =~= o + (letter_chunk_60() + letter_chunk_61() + letter_chunk_62() + letter_chunk_63() + letter_chunk_64() + letter_chunk_65() + letter_chunk_66()));
    push_letter_chunk_67(v);
    assert(rview(v@) =~= o + (letter_chunk_60() + letter_chunk_61() + letter_chunk_62() + letter_chunk_63() + letter_chunk_64() + letter_chunk_65() + letter_chunk_66() + letter_chunk_67()));
    push_letter_chunk_68(v);
    assert(rview(v@) =~= o + (letter_chunk_60() + letter_chunk_61() + letter_chunk_62() + letter_chunk_63() + letter_chunk_64() + letter_chunk_65() + letter_chunk_66() + letter_chunk_67() + letter_chunk_68()));
    push_letter_chunk_69(v);
    assert(rview(v@) =~= o + (letter_chunk_60() + letter_chunk_61() + letter_chunk_62() + letter_chunk_63() + letter_chunk_64() + letter_chunk_65() + letter_chunk_66() + letter_chunk_67() + letter_chunk_68() + letter_chunk_69()));
}

fn push_letter_block_7(v: &mut Vec<ClassUnicodeRange>)
    ensures
        rview(final(v)@) == rview(old(v)@) + letter_block_7(),
{
    let ghost o = rview(v@);
    push_letter_chunk_70(v);
    assert(rview(v@) =~= o + (letter_chunk_70()));
    push_letter_chunk_71(v);
    assert(rview(v@) =~= o + (letter_chunk_70() + letter_chunk_71()));
    push_letter_chunk_72(v);
    assert(rview(v@) =~= o + (letter_chunk_70() + letter_chunk_71() + letter_chunk_72()));
    push_letter_chunk_73(v);
    assert(rview(v@) =~= o + (letter_chunk_70() + letter_chunk_71() + letter_chunk_72() + letter_chunk_73()));
    push_letter_chunk_74(v);
    assert(rview(v@) =~= o + (letter_chunk_70() + letter_chunk_71() + letter_chunk_72() + letter_chunk_73() + letter_chunk_74()));
    push_letter_chunk_75(v);
    assert(rview(v@) =~= o + (letter_chunk_70() + letter_chunk_71() + letter_chunk_72() + letter_chunk_73() + letter_chunk_74() + letter_chunk_75()));
    push_letter_chunk_76(v);
    assert(rview(v@) =~= o + (letter_chunk_70() + letter_chunk_71() + letter_chunk_72() + letter_chunk_73() + letter_chunk_74() + letter_chunk_75() + letter_chunk_76()));
    push_letter_chunk_77(v);
    assert(rview(v@) =~= o + (letter_chunk_70() + letter_chunk_71() + letter_chunk_72() + letter_chunk_73() + letter_chunk_74() + letter_chunk_75() + letter_chunk_76() + letter_chunk_77()));
    push_letter_chunk_78(v);
    assert(rview(v@) =~= o + (letter_chunk_70() + letter_chunk_71() + letter_chunk_72() + letter_chunk_73() + letter_chunk_74() + letter_chunk_75() + letter_chunk_76() + letter_chunk_77() + letter_chunk_78()));
    push_letter_chunk_79(v);
    assert(rview(v@) =~= o + (letter_chunk_70() + letter_chunk_71() + letter_chunk_72() + letter_chunk_73() + letter_chunk_74() + letter_chunk_75() + letter_chunk_76() + letter_chunk_77() + letter_chunk_78() + letter_chunk_79()));
}

fn push_letter_block_8(v: &mut Vec<ClassUnicodeRange>)
    ensures
        rview(final(v)@) == rview(old(v)@) + letter_block_8(),
{
    let ghost o = rview(v@);
    push_letter_chunk_80(v);
    assert(rview(v@) =~= o + (letter_chunk_80()));
    push_letter_chunk_81(v);
    assert(rview(v@) =~= o + (letter_chunk_80() + letter_chunk_81()));
    push_letter_chunk_82(v);
    assert(rview(v@) =~= o + (letter_chunk_80() + letter_chunk_81() + letter_chunk_82()));
    push_letter_chunk_83(v);
    assert(rview(v@) =~= o + (letter_chunk_80() + letter_chunk_81() + letter_chunk_82() + letter_chunk_83()));
    push_letter_chunk_84(v);
    assert(rview(v@) =~= o + (letter_chunk_80() + letter_chunk_81() + letter_chunk_82() + letter_chunk_83() + letter_chunk_84()));
}

/// The ranges of the general category Letter.
pub fn letter_class() -> (v: Vec<ClassUnicodeRange>)
    ensures
        rview(v@) == letter_ranges(),
{
    let mut v: Vec<ClassUnicodeRange> = Vec::new();
    assert(rview(v@) =~= Seq::<SRange>::empty());
    push_letter_block_0(&mut v);
    assert(rview(v@) =~= letter_block_0());
    push_letter_block_1(&mut v);
    assert(rview(v@) =~= letter_block_0() + letter_block_1());
    push_letter_block_2(&mut v);
    assert(rview(v@) =~= letter_block_0() + letter_block_1() + letter_block_2());
    push_letter_block_3(&mut v);
    assert(rview(v@) =~= letter_block_0() + letter_block_1() + letter_block_2() + letter_block_3());
    push_letter_block_4(&mut v);
    assert(rview(v@) =~= letter_block_0() + letter_block_1() + letter_block_2() + letter_block_3() + letter_block_4());
    push_letter_block_5(&mut v);
    assert(rview(v@) =~= letter_block_0() + letter_block_1() + letter_block_2() + letter_block_3() + letter_block_4() + letter_block_5());
    push_letter_block_6(&mut v);
    assert(rview(v@) =~= letter_block_0() + letter_block_1() + letter_block_2() + letter_block_3() + letter_block_4() + letter_block_5() + letter_block_6());
    push_letter_block_7(&mut v);
    assert(rview(v@) =~= letter_block_0() + letter_block_1() + letter_block_2() + letter_block_3() + letter_block_4() + letter_block_5() + letter_block_6() + letter_block_7());
    push_letter_block_8(&mut v);
    assert(rview(v@) =~= letter_block_0() + letter_block_1() + letter_block_2() + letter_block_3() + letter_block_4() + letter_block_5() + letter_block_6() + letter_block_7() + letter_block_8());
    v
}

pub open spec fn letter_number_chunk_0() -> Seq<SRange> {
    seq![(0x16EEint, 0x16F0int), (0x2160int, 0x2182int), (0x2185int, 0x2188int), (0x3007int, 0x3007int), (0x3021int, 0x3029int), (0x3038int, 0x303Aint), (0xA6E6int, 0xA6EFint), (0x10140int, 0x10174int)]
}

pub open spec fn letter_number_chunk_1() -> Seq<SRange> {
    seq![(0x10341int, 0x10341int), (0x1034Aint, 0x1034Aint), (0x103D1int, 0x103D5int), (0x12400int, 0x1246Eint)]
}

pub open spec fn letter_number_block_0() -> Seq<SRange> {
    letter_number_chunk_0() + letter_number_chunk_1()
}

/// The ranges of the general category Letter_Number.
pub open spec fn letter_number_ranges() -> Seq<SRange> {
    letter_number_block_0()
}

proof fn lemma_letter_number_block_0()
    ensures
        canonical(letter_number_block_0()),
        letter_number_block_0().len() > 0,
        letter_number_block_0()[0] == letter_number_chunk_0()[0],
        letter_number_block_0().last() == letter_number_chunk_1().last(),
{
    reveal_with_fuel(canonical, 9);
    assert(canonical(letter_number_chunk_0()));
    assert(canonical(letter_number_chunk_1()));
    lemma_canonical_append(letter_number_chunk_0(), letter_number_chunk_1());
}

/// The general category Letter_Number is a canonical class.
pub proof fn lemma_letter_number_canonical()
    ensures
        canonical(letter_number_ranges()),
{
    lemma_letter_number_block_0();
}

fn push_letter_number_chunk_0(v: &mut Vec<ClassUnicodeRange>)
    ensures
        rview(final(v)@) == rview(old(v)@) + letter_number_chunk_0(),
{
    let ghost o = rview(v@);
    push_range(v, '\u{16EE}', '\u{16F0}');
    push_range(v, '\u{2160}', '\u{2182}');
    push_range(v, '\u{2185}', '\u{2188}');
    push_range(v, '\u{3007}', '\u{3007}');
    push_range(v, '\u{3021}', '\u{3029}');
    push_range(v, '\u{3038}', '\u{303A}');
    push_range(v, '\u{A6E6}', '\u{A6EF}');
    push_range(v, '\u{10140}', '\u{10174}');
    assert(rview(v@) =~= o + letter_number_chunk_0());
}

fn push_letter_number_chunk_1(v: &mut Vec<ClassUnicodeRange>)
    ensures
        rview(final(v)@) == rview(old(v)@) + letter_number_chunk_1(),
{
    let ghost o = rview(v@);
    push_range(v, '\u{10341}', '\u{10341}');
    push_range(v, '\u{1034A}', '\u{1034A}');
    push_range(v, '\u{103D1}', '\u{103D5}');
    push_range(v, '\u{12400}', '\u{1246E}');
    assert(rview(v@) =~= o + letter_number_chunk_1());
}

fn push_letter_number_block_0(v: &mut Vec<ClassUnicodeRange>)
    ensures
        rview(final(v)@) == rview(old(v)@) + letter_number_block_0(),
{
    let ghost o = rview(v@);
    push_letter_number_chunk_0(v);
    assert(rview(v@) =~= o + (letter_number_chunk_0()));
    push_letter_number_chunk_1(v);
    assert(rview(v@) =~= o + (letter_number_chunk_0() + letter_number_chunk_1()));
}

/// The ranges of the general category Letter_Number.
pub fn letter_number_class() -> (v: Vec<ClassUnicodeRange>)
    ensures
        rview(v@) == letter_number_ranges(),
{
    let mut v: Vec<ClassUnicodeRange> = Vec::new();
    assert(rview(v@) =~= Seq::<SRange>::empty());
    push_letter_number_block_0(&mut v);
    assert(rview(v@) =~= letter_number_block_0());
    v
}

pub open spec fn lowercase_letter_chunk_0() -> Seq<SRange> {
    seq![(0x61int, 0x7Aint), (0xB5int, 0xB5int), (0xDFint, 0xF6int), (0xF8int, 0xFFint), (0x101int, 0x101int), (0x103int, 0x103int), (0x105int, 0x105int), (0x107int, 0x107int)]
}

pub open spec fn lowercase_letter_chunk_1() -> Seq<SRange> {
    seq![(0x109int, 0x109int), (0x10Bint, 0x10Bint), (0x10Dint, 0x10Dint), (0x10Fint, 0x10Fint), (0x111int, 0x111int), (0x113int, 0x113int), (0x115int, 0x115int), (0x117int, 0x117int)]
}

pub open spec fn lowercase_letter_chunk_2() -> Seq<SRange> {
    seq![(0x119int, 0x119int), (0x11Bint, 0x11Bint), (0x11Dint, 0x11Dint), (0x11Fint, 0x11Fint), (0x121int, 0x121int), (0x123int, 0x123int), (0x125int, 0x125int), (0x127int, 0x127int)]
}

pub open spec fn lowercase_letter_chunk_3() -> Seq<SRange> {
    seq![(0x129int, 0x129int), (0x12Bint, 0x12Bint), (0x12Dint, 0x12Dint), (0x12Fint, 0x12Fint), (0x131int, 0x131int), (0x133int, 0x133int), (0x135int, 0x135int), (0x137int, 0x138int)]
}

pub open spec fn lowercase_letter_chunk_4() -> Seq<SRange> {
    seq![(0x13Aint, 0x13Aint), (0x13Cint, 0x13Cint), (0x13Eint, 0x13Eint), (0x140int, 0x140int), (0x142int, 0x142int), (0x144int, 0x144int), (0x146int, 0x146int), (0x148int, 0x149int)]
}

pub open spec fn lowercase_letter_chunk_5() -> Seq<SRange> {
    seq![(0x14Bint, 0x14Bint), (0x14Dint, 0x14Dint), (0x14Fint, 0x14Fint), (0x151int, 0x151int), (0x153int, 0x153int), (0x155int, 0x155int), (0x157int, 0x157int), (0x159int, 0x159int)]
}

pub open spec fn lowercase_letter_chunk_6() -> Seq<SRange> {
    seq![(0x15Bint, 0x15Bint), (0x15Dint, 0x15Dint), (0x15Fint, 0x15Fint), (0x161int, 0x161int), (0x163int, 0x163int), (0x165int, 0x165int), (0x167int, 0x167int), (0x169int, 0x169int)]
}

pub open spec fn lowercase_letter_chunk_7() -> Seq<SRange> {
    seq![(0x16Bint, 0x16Bint), (0x16Dint, 0x16Dint), (0x16Fint, 0x16Fint), (0x171int, 0x171int), (0x173int, 0x173int), (0x175int, 0x175int), (0x177int, 0x177int), (0x17Aint, 0x17Aint)]
}

pub open spec fn lowercase_letter_chunk_8() -> Seq<SRange> {
    seq![(0x17Cint, 0x17Cint), (0x17Eint, 0x180int), (0x183int, 0x183int), (0x185int, 0x185int), (0x188int, 0x188int), (0x18Cint, 0x18Dint), (0x192int, 0x192int), (0x195int, 0x195int)]
}

pub open spec fn lowercase_letter_chunk_9() -> Seq<SRange> {
    seq![(0x199int, 0x19Bint), (0x19Eint, 0x19Eint), (0x1A1int, 0x1A1int), (0x1A3int, 0x1A3int), (0x1A5int, 0x1A5int), (0x1A8int, 0x1A8int), (0x1AAint, 0x1ABint), (0x1ADint, 0x1ADint)]
}

pub open spec fn lowercase_letter_chunk_10() -> Seq<SRange> {
    seq![(0x1B0int, 0x1B0int), (0x1B4int, 0x1B4int), (0x1B6int, 0x1B6int), (0x1B9int, 0x1BAint), (0x1BDint, 0x1BFint), (0x1C6int, 0x1C6int), (0x1C9int, 0x1C9int), (0x1CCint, 0x1CCint)]
}

pub open spec fn lowercase_letter_chunk_11() -> Seq<SRange> {
    seq![(0x1CEint, 0x1CEint), (0x1D0int, 0x1D0int), (0x1D2int, 0x1D2int), (0x1D4int, 0x1D4int), (0x1D6int, 0x1D6int), (0x1D8int, 0x1D8int), (0x1DAint, 0x1DAint), (0x1DCint, 0x1DDint)]
}

pub open spec fn lowercase_letter_chunk_12() -> Seq<SRange> {
    seq![(0x1DFint, 0x1DFint), (0x1E1int, 0x1E1int), (0x1E3int, 0x1E3int), (0x1E5int, 0x1E5int), (0x1E7int, 0x1E7int), (0x1E9int, 0x1E9int), (0x1EBint, 0x1EBint), (0x1EDint, 0x1EDint)]
}

pub open spec fn lowercase_letter_chunk_13() -> Seq<SRange> {
    seq![(0x1EFint, 0x1F0int), (0x1F3int, 0x1F3int), (0x1F5int, 0x1F5int), (0x1F9int, 0x1F9int), (0x1FBint, 0x1FBint), (0x1FDint, 0x1FDint), (0x1FFint, 0x1FFint), (0x201int, 0x201int)]
}

pub open spec fn lowercase_letter_chunk_14() -> Seq<SRange> {
    seq![(0x203int, 0x203int), (0x205int, 0x205int), (0x207int, 0x207int), (0x209int, 0x209int), (0x20Bint, 0x20Bint), (0x20Dint, 0x20Dint), (0x20Fint, 0x20Fint), (0x211int, 0x211int)]
}

pub open spec fn lowercase_letter_chunk_15() -> Seq<SRange> {
    seq![(0x213int, 0x213int), (0x215int, 0x215int), (0x217int, 0x217int), (0x219int, 0x219int), (0x21Bint, 0x21Bint), (0x21Dint, 0x21Dint), (0x21Fint, 0x21Fint), (0x221int, 0x221int)]
}

pub open spec fn lowercase_letter_chunk_16() -> Seq<SRange> {
    seq![(0x223int, 0x223int), (0x225int, 0x225int), (0x227int, 0x227int), (0x229int, 0x229int), (0x22Bint, 0x22Bint), (0x22Dint, 0x22Dint), (0x22Fint, 0x22Fint), (0x231int, 0x231int)]
}

pub open spec fn lowercase_letter_chunk_17() -> Seq<SRange> {
    seq![(0x233int, 0x239int), (0x23Cint, 0x23Cint), (0x23Fint, 0x240int), (0x242int, 0x242int), (0x247int, 0x247int), (0x249int, 0x249int), (0x24Bint, 0x24Bint), (0x24Dint, 0x24Dint)]
}

pub open spec fn lowercase_letter_chunk_18() -> Seq<SRange> {
    seq![(0x24Fint, 0x293int), (0x295int, 0x2AFint), (0x371int, 0x371int), (0x373int, 0x373int), (0x377int, 0x377int), (0x37Bint, 0x37Dint), (0x390int, 0x390int), (0x3ACint, 0x3CEint)]
}

pub open spec fn lowercase_letter_chunk_19() -> Seq<SRange> {
    seq![(0x3D0int, 0x3D1int), (0x3D5int, 0x3D7int), (0x3D9int, 0x3D9int), (0x3DBint, 0x3DBint), (0x3DDint, 0x3DDint), (0x3DFint, 0x3DFint), (0x3E1int, 0x3E1int), (0x3E3int, 0x3E3int)]
}

pub open spec fn lowercase_letter_chunk_20() -> Seq<SRange> {
    seq![(0x3E5int, 0x3E5int), (0x3E7int, 0x3E7int), (0x3E9int, 0x3E9int), (0x3EBint, 0x3EBint), (0x3EDint, 0x3EDint), (0x3EFint, 0x3F3int), (0x3F5int, 0x3F5int), (0x3F8int, 0x3F8int)]
}

pub open spec fn lowercase_letter_chunk_21() -> Seq<SRange> {
    seq![(0x3FBint, 0x3FCint), (0x430int, 0x45Fint), (0x461int, 0x461int), (0x463int, 0x463int), (0x465int, 0x465int), (0x467int, 0x467int), (0x469int, 0x469int), (0x46Bint, 0x46Bint)]
}

pub open spec fn lowercase_letter_chunk_22() -> Seq<SRange> {
    seq![(0x46Dint, 0x46Dint), (0x46Fint, 0x46Fint), (0x471int, 0x471int), (0x473int, 0x473int), (0x475int, 0x475int), (0x477int, 0x477int), (0x479int, 0x479int), (0x47Bint, 0x47Bint)]
}

pub open spec fn lowercase_letter_chunk_23() -> Seq<SRange> {
    seq![(0x47Dint, 0x47Dint), (0x47Fint, 0x47Fint), (0x481int, 0x481int), (0x48Bint, 0x48Bint), (0x48Dint, 0x48Dint), (0x48Fint, 0x48Fint), (0x491int, 0x491int), (0x493int, 0x493int)]
}

pub open spec fn lowercase_letter_chunk_24() -> Seq<SRange> {
    seq![(0x495int, 0x495int), (0x497int, 0x497int), (0x499int, 0x499int), (0x49Bint, 0x49Bint), (0x49Dint, 0x49Dint), (0x49Fint, 0x49Fint), (0x4A1int, 0x4A1int), (0x4A3int, 0x4A3int)]
}

pub open spec fn lowercase_letter_chunk_25() -> Seq<SRange> {
    seq![(0x4A5int, 0x4A5int), (0x4A7int, 0x4A7int), (0x4A9int, 0x4A9int), (0x4ABint, 0x4ABint), (0x4ADint, 0x4ADint), (0x4AFint, 0x4AFint), (0x4B1int, 0x4B1int), (0x4B3int, 0x4B3int)]
}

pub open spec fn lowercase_letter_chunk_26() -> Seq<SRange> {
    seq![(0x4B5int, 0x4B5int), (0x4B7int, 0x4B7int), (0x4B9int, 0x4B9int), (0x4BBint, 0x4BBint), (0x4BDint, 0x4BDint), (0x4BFint, 0x4BFint), (0x4C2int, 0x4C2int), (0x4C4int, 0x4C4int)]
}

pub open spec fn lowercase_letter_chunk_27() -> Seq<SRange> {
    seq![(0x4C6int, 0x4C6int), (0x4C8int, 0x4C8int), (0x4CAint, 0x4CAint), (0x4CCint, 0x4CCint), (0x4CEint, 0x4CFint), (0x4D1int, 0x4D1int), (0x4D3int, 0x4D3int), (0x4D5int, 0x4D5int)]
}

pub open spec fn lowercase_letter_chunk_28() -> Seq<SRange> {
    seq![(0x4D7int, 0x4D7int), (0x4D9int, 0x4D9int), (0x4DBint, 0x4DBint), (0x4DDint, 0x4DDint), (0x4DFint, 0x4DFint), (0x4E1int, 0x4E1int), (0x4E3int, 0x4E3int), (0x4E5int, 0x4E5int)]
}

pub open spec fn lowercase_letter_chunk_29() -> Seq<SRange> {
    seq![(0x4E7int, 0x4E7int), (0x4E9int, 0x4E9int), (0x4EBint, 0x4EBint), (0x4EDint, 0x4EDint), (0x4EFint, 0x4EFint), (0x4F1int, 0x4F1int), (0x4F3int, 0x4F3int), (0x4F5int, 0x4F5int)]
}

pub open spec fn lowercase_letter_chunk_30() -> Seq<SRange> {
    seq![(0x4F7int, 0x4F7int), (0x4F9int, 0x4F9int), (0x4FBint, 0x4FBint), (0x4FDint, 0x4FDint), (0x4FFint, 0x4FFint), (0x501int, 0x501int), (0x503int, 0x503int), (0x505int, 0x505int)]
}

pub open spec fn lowercase_letter_chunk_31() -> Seq<SRange> {
    seq![(0x507int, 0x507int), (0x509int, 0x509int), (0x50Bint, 0x50Bint), (0x50Dint, 0x50Dint), (0x50Fint, 0x50Fint), (0x511int, 0x511int), (0x513int, 0x513int), (0x515int, 0x515int)]
}

pub open spec fn lowercase_letter_chunk_32() -> Seq<SRange> {
    seq![(0x517int, 0x517int), (0x519int, 0x519int), (0x51Bint, 0x51Bint), (0x51Dint, 0x51Dint), (0x51Fint, 0x51Fint), (0x521int, 0x521int), (0x523int, 0x523int), (0x525int, 0x525int)]
}

pub open spec fn lowercase_letter_chunk_33() -> Seq<SRange> {
    seq![(0x527int, 0x527int), (0x529int, 0x529int), (0x52Bint, 0x52Bint), (0x52Dint, 0x52Dint), (0x52Fint, 0x52Fint), (0x560int, 0x588int), (0x10D0int, 0x10FAint), (0x10FDint, 0x10FFint)]
}

pub open spec fn lowercase_letter_chunk_34() -> Seq<SRange> {
    seq![(0x13F8int, 0x13FDint), (0x1C80int, 0x1C88int), (0x1C8Aint, 0x1C8Aint), (0x1D00int, 0x1D2Bint), (0x1D6Bint, 0x1D77int), (0x1D79int, 0x1D9Aint), (0x1E01int, 0x1E01int), (0x1E03int, 0x1E03int)]
}

pub open spec fn lowercase_letter_chunk_35() -> Seq<SRange> {
    seq![(0x1E05int, 0x1E05int), (0x1E07int, 0x1E07int), (0x1E09int, 0x1E09int), (0x1E0Bint, 0x1E0Bint), (0x1E0Dint, 0x1E0Dint), (0x1E0Fint, 0x1E0Fint), (0x1E11int, 0x1E11int), (0x1E13int, 0x1E13int)]
}

pub open spec fn lowercase_letter_chunk_36() -> Seq<SRange> {
    seq![(0x1E15int, 0x1E15int), (0x1E17int, 0x1E17int), (0x1E19int, 0x1E19int), (0x1E1Bint, 0x1E1Bint), (0x1E1Dint, 0x1E1Dint), (0x1E1Fint, 0x1E1Fint), (0x1E21int, 0x1E21int), (0x1E23int, 0x1E23int)]
}

pub open spec fn lowercase_letter_chunk_37() -> Seq<SRange> {
    seq![(0x1E25int, 0x1E25int), (0x1E27int, 0x1E27int), (0x1E29int, 0x1E29int), (0x1E2Bint, 0x1E2Bint), (0x1E2Dint, 0x1E2Dint), (0x1E2Fint, 0x1E2Fint), (0x1E31int, 0x1E31int), (0x1E33int, 0x1E33int)]
}

pub open spec fn lowercase_letter_chunk_38() -> Seq<SRange> {
    seq![(0x1E35int, 0x1E35int), (0x1E37int, 0x1E37int), (0x1E39int, 0x1E39int), (0x1E3Bint, 0x1E3Bint), (0x1E3Dint, 0x1E3Dint), (0x1E3Fint, 0x1E3Fint), (0x1E41int, 0x1E41int), (0x1E43int, 0x1E43int)]
}

pub open spec fn lowercase_letter_chunk_39() -> Seq<SRange> {
    seq![(0x1E45int, 0x1E45int), (0x1E47int, 0x1E47int), (0x1E49int, 0x1E49int), (0x1E4Bint, 0x1E4Bint), (0x1E4Dint, 0x1E4Dint), (0x1E4Fint, 0x1E4Fint), (0x1E51int, 0x1E51int), (0x1E53int, 0x1E53int)]
}

pub open spec fn lowercase_letter_chunk_40() -> Seq<SRange> {
    seq![(0x1E55int, 0x1E55int), (0x1E57int, 0x1E57int), (0x1E59int, 0x1E59int), (0x1E5Bint, 0x1E5Bint), (0x1E5Dint, 0x1E5Dint), (0x1E5Fint, 0x1E5Fint), (0x1E61int, 0x1E61int), (0x1E63int, 0x1E63int)]
}

pub open spec fn lowercase_letter_chunk_41() -> Seq<SRange> {
    seq![(0x1E65int, 0x1E65int), (0x1E67int, 0x1E67int), (0x1E69int, 0x1E69int), (0x1E6Bint, 0x1E6Bint), (0x1E6Dint, 0x1E6Dint), (0x1E6Fint, 0x1E6Fint), (0x1E71int, 0x1E71int), (0x1E73int, 0x1E73int)]
}

pub open spec fn lowercase_letter_chunk_42() -> Seq<SRange> {
    seq![(0x1E75int, 0x1E75int), (0x1E77int, 0x1E77int), (0x1E79int, 0x1E79int), (0x1E7Bint, 0x1E7Bint), (0x1E7Dint, 0x1E7Dint), (0x1E7Fint, 0x1E7Fint), (0x1E81int, 0x1E81int), (0x1E83int, 0x1E83int)]
}

pub open spec fn lowercase_letter_chunk_43() -> Seq<SRange> {
    seq![(0x1E85int, 0x1E85int), (0x1E87int, 0x1E87int), (0x1E89int, 0x1E89int), (0x1E8Bint, 0x1E8Bint), (0x1E8Dint, 0x1E8Dint), (0x1E8Fint, 0x1E8Fint), (0x1E91int, 0x1E91int), (0x1E93int, 0x1E93int)]
}

pub open spec fn lowercase_letter_chunk_44() -> Seq<SRange> {
    seq![(0x1E95int, 0x1E9Dint), (0x1E9Fint, 0x1E9Fint), (0x1EA1int, 0x1EA1int), (0x1EA3int, 0x1EA3int), (0x1EA5int, 0x1EA5int), (0x1EA7int, 0x1EA7int), (0x1EA9int, 0x1EA9int), (0x1EABint, 0x1EABint)]
}

pub open spec fn lowercase_letter_chunk_45() -> Seq<SRange> {
    seq![(0x1EADint, 0x1EADint), (0x1EAFint, 0x1EAFint), (0x1EB1int, 0x1EB1int), (0x1EB3int, 0x1EB3int), (0x1EB5int, 0x1EB5int), (0x1EB7int, 0x1EB7int), (0x1EB9int, 0x1EB9int), (0x1EBBint, 0x1EBBint)]
}

pub open spec fn lowercase_letter_chunk_46() -> Seq<SRange> {
    seq![(0x1EBDint, 0x1EBDint), (0x1EBFint, 0x1EBFint), (0x1EC1int, 0x1EC1int), (0x1EC3int, 0x1EC3int), (0x1EC5int, 0x1EC5int), (0x1EC7int, 0x1EC7int), (0x1EC9int, 0x1EC9int), (0x1ECBint, 0x1ECBint)]
}

pub open spec fn lowercase_letter_chunk_47() -> Seq<SRange> {
    seq![(0x1ECDint, 0x1ECDint), (0x1ECFint, 0x1ECFint), (0x1ED1int, 0x1ED1int), (0x1ED3int, 0x1ED3int), (0x1ED5int, 0x1ED5int), (0x1ED7int, 0x1ED7int), (0x1ED9int, 0x1ED9int), (0x1EDBint, 0x1EDBint)]
}

pub open spec fn lowercase_letter_chunk_48() -> Seq<SRange> {
    seq![(0x1EDDint, 0x1EDDint), (0x1EDFint, 0x1EDFint), (0x1EE1int, 0x1EE1int), (0x1EE3int, 0x1EE3int), (0x1EE5int, 0x1EE5int), (0x1EE7int, 0x1EE7int), (0x1EE9int, 0x1EE9int), (0x1EEBint, 0x1EEBint)]
}

pub open spec fn lowercase_letter_chunk_49() -> Seq<SRange> {
    seq![(0x1EEDint, 0x1EEDint), (0x1EEFint, 0x1EEFint), (0x1EF1int, 0x1EF1int), (0x1EF3int, 0x1EF3int), (0x1EF5int, 0x1EF5int), (0x1EF7int, 0x1EF7int), (0x1EF9int, 0x1EF9int), (0x1EFBint, 0x1EFBint)]
}

pub open spec fn lowercase_letter_chunk_50() -> Seq<SRange> {
    seq![(0x1EFDint, 0x1EFDint), (0x1EFFint, 0x1F07int), (0x1F10int, 0x1F15int), (0x1F20int, 0x1F27int), (0x1F30int, 0x1F37int), (0x1F40int, 0x1F45int), (0x1F50int, 0x1F57int), (0x1F60int, 0x1F67int)]
}

pub open spec fn lowercase_letter_chunk_51() -> Seq<SRange> {
    seq![(0x1F70int, 0x1F7Dint), (0x1F80int, 0x1F87int), (0x1F90int, 0x1F97int), (0x1FA0int, 0x1FA7int), (0x1FB0int, 0x1FB4int), (0x1FB6int, 0x1FB7int), (0x1FBEint, 0x1FBEint), (0x1FC2int, 0x1FC4int)]
}

pub open spec fn lowercase_letter_chunk_52() -> Seq<SRange> {
    seq![(0x1FC6int, 0x1FC7int), (0x1FD0int, 0x1FD3int), (0x1FD6int, 0x1FD7int), (0x1FE0int, 0x1FE7int), (0x1FF2int, 0x1FF4int), (0x1FF6int, 0x1FF7int), (0x210Aint, 0x210Aint), (0x210Eint, 0x210Fint)]
}

pub open spec fn lowercase_letter_chunk_53() -> Seq<SRange> {
    seq![(0x2113int, 0x2113int), (0x212Fint, 0x212Fint), (0x2134int, 0x2134int), (0x2139int, 0x2139int), (0x213Cint, 0x213Dint), (0x2146int, 0x2149int), (0x214Eint, 0x214Eint), (0x2184int, 0x2184int)]
}

pub open spec fn lowercase_letter_chunk_54() -> Seq<SRange> {
    seq![(0x2C30int, 0x2C5Fint), (0x2C61int, 0x2C61int), (0x2C65int, 0x2C66int), (0x2C68int, 0x2C68int), (0x2C6Aint, 0x2C6Aint), (0x2C6Cint, 0x2C6Cint), (0x2C71int, 0x2C71int), (0x2C73int, 0x2C74int)]
}

pub open spec fn lowercase_letter_chunk_55() -> Seq<SRange> {
    seq![(0x2C76int, 0x2C7Bint), (0x2C81int, 0x2C81int), (0x2C83int, 0x2C83int), (0x2C85int, 0x2C85int), (0x2C87int, 0x2C87int), (0x2C89int, 0x2C89int), (0x2C8Bint, 0x2C8Bint), (0x2C8Dint, 0x2C8Dint)]
}

pub open spec fn lowercase_letter_chunk_56() -> Seq<SRange> {
    seq![(0x2C8Fint, 0x2C8Fint), (0x2C91int, 0x2C91int), (0x2C93int, 0x2C93int), (0x2C95int, 0x2C95int), (0x2C97int, 0x2C97int), (0x2C99int, 0x2C99int), (0x2C9Bint, 0x2C9Bint), (0x2C9Dint, 0x2C9Dint)]
}

pub open spec fn lowercase_letter_chunk_57() -> Seq<SRange> {
    seq![(0x2C9Fint, 0x2C9Fint), (0x2CA1int, 0x2CA1int), (0x2CA3int, 0x2CA3int), (0x2CA5int, 0x2CA5int), (0x2CA7int, 0x2CA7int), (0x2CA9int, 0x2CA9int), (0x2CABint, 0x2CABint), (0x2CADint, 0x2CADint)]
}

pub open spec fn lowercase_letter_chunk_58() -> Seq<SRange> {
    seq![(0x2CAFint, 0x2CAFint), (0x2CB1int, 0x2CB1int), (0x2CB3int, 0x2CB3int), (0x2CB5int, 0x2CB5int), (0x2CB7int, 0x2CB7int), (0x2CB9int, 0x2CB9int), (0x2CBBint, 0x2CBBint), (0x2CBDint, 0x2CBDint)]
}

pub open spec fn lowercase_letter_chunk_59() -> Seq<SRange> {
    seq![(0x2CBFint, 0x2CBFint), (0x2CC1int, 0x2CC1int), (0x2CC3int, 0x2CC3int), (0x2CC5int, 0x2CC5int), (0x2CC7int, 0x2CC7int), (0x2CC9int, 0x2CC9int), (0x2CCBint, 0x2CCBint), (0x2CCDint, 0x2CCDint)]
}

pub open spec fn lowercase_letter_chunk_60() -> Seq<SRange> {
    seq![(0x2CCFint, 0x2CCFint), (0x2CD1int, 0x2CD1int), (0x2CD3int, 0x2CD3int), (0x2CD5int, 0x2CD5int), (0x2CD7int, 0x2CD7int), (0x2CD9int, 0x2CD9int), (0x2CDBint, 0x2CDBint), (0x2CDDint, 0x2CDDint)]
}

pub open spec fn lowercase_letter_chunk_61() -> Seq<SRange> {
    seq![(0x2CDFint, 0x2CDFint), (0x2CE1int, 0x2CE1int), (0x2CE3int, 0x2CE4int), (0x2CECint, 0x2CECint), (0x2CEEint, 0x2CEEint), (0x2CF3int, 0x2CF3int), (0x2D00int, 0x2D25int), (0x2D27int, 0x2D27int)]
}

pub open spec fn lowercase_letter_chunk_62() -> Seq<SRange> {
    seq![(0x2D2Dint, 0x2D2Dint), (0xA641int, 0xA641int), (0xA643int, 0xA643int), (0xA645int, 0xA645int), (0xA647int, 0xA647int), (0xA649int, 0xA649int), (0xA64Bint, 0xA64Bint), (0xA64Dint, 0xA64Dint)]
}

pub open spec fn lowercase_letter_chunk_63() -> Seq<SRange> {
    seq![(0xA64Fint, 0xA64Fint), (0xA651int, 0xA651int), (0xA653int, 0xA653int), (0xA655int, 0xA655int), (0xA657int, 0xA657int), (0xA659int, 0xA659int), (0xA65Bint, 0xA65Bint), (0xA65Dint, 0xA65Dint)]
}

pub open spec fn lowercase_letter_chunk_64() -> Seq<SRange> {
    seq![(0xA65Fint, 0xA65Fint), (0xA661int, 0xA661int), (0xA663int, 0xA663int), (0xA665int, 0xA665int), (0xA667int, 0xA667int), (0xA669int, 0xA669int), (0xA66Bint, 0xA66Bint), (0xA66Dint, 0xA66Dint)]
}

pub open spec fn lowercase_letter_chunk_65() -> Seq<SRange> {
    seq![(0xA681int, 0xA681int), (0xA683int, 0xA683int), (0xA685int, 0xA685int), (0xA687int, 0xA687int), (0xA689int, 0xA689int), (0xA68Bint, 0xA68Bint), (0xA68Dint, 0xA68Dint), (0xA68Fint, 0xA68Fint)]
}

pub open spec fn lowercase_letter_chunk_66() -> Seq<SRange> {
    seq![(0xA691int, 0xA691int), (0xA693int, 0xA693int), (0xA695int, 0xA695int), (0xA697int, 0xA697int), (0xA699int, 0xA699int), (0xA69Bint, 0xA69Bint), (0xA723int, 0xA723int), (0xA725int, 0xA725int)]
}

pub open spec fn lowercase_letter_chunk_67() -> Seq<SRange> {
    seq![(0xA727int, 0xA727int), (0xA729int, 0xA729int), (0xA72Bint, 0xA72Bint), (0xA72Dint, 0xA72Dint), (0xA72Fint, 0xA731int), (0xA733int, 0xA733int), (0xA735int, 0xA735int), (0xA737int, 0xA737int)]
}

pub open spec fn lowercase_letter_chunk_68() -> Seq<SRange> {
    seq![(0xA739int, 0xA739int), (0xA73Bint, 0xA73Bint), (0xA73Dint, 0xA73Dint), (0xA73Fint, 0xA73Fint), (0xA741int, 0xA741int), (0xA743int, 0xA743int), (0xA745int, 0xA745int), (0xA747int, 0xA747int)]
}

pub open spec fn lowercase_letter_chunk_69() -> Seq<SRange> {
    seq![(0xA749int, 0xA749int), (0xA74Bint, 0xA74Bint), (0xA74Dint, 0xA74Dint), (0xA74Fint, 0xA74Fint), (0xA751int, 0xA751int), (0xA753int, 0xA753int), (0xA755int, 0xA755int), (0xA757int, 0xA757int)]
}

pub open spec fn lowercase_letter_chunk_70() -> Seq<SRange> {
    seq![(0xA759int, 0xA759int), (0xA75Bint, 0xA75Bint), (0xA75Dint, 0xA75Dint), (0xA75Fint, 0xA75Fint), (0xA761int, 0xA761int), (0xA763int, 0xA763int), (0xA765int, 0xA765int), (0xA767int, 0xA767int)]
}

pub open spec fn lowercase_letter_chunk_71() -> Seq<SRange> {
    seq![(0xA769int, 0xA769int), (0xA76Bint, 0xA76Bint), (0xA76Dint, 0xA76Dint), (0xA76Fint, 0xA76Fint), (0xA771int, 0xA778int), (0xA77Aint, 0xA77Aint), (0xA77Cint, 0xA77Cint), (0xA77Fint, 0xA77Fint)]
}

pub open spec fn lowercase_letter_chunk_72() -> Seq<SRange> {
    seq![(0xA781int, 0xA781int), (0xA783int, 0xA783int), (0xA785int, 0xA785int), (0xA787int, 0xA787int), (0xA78Cint, 0xA78Cint), (0xA78Eint, 0xA78Eint), (0xA791int, 0xA791int), (0xA793int, 0xA795int)]
}

pub open spec fn lowercase_letter_chunk_73() -> Seq<SRange> {
    seq![(0xA797int, 0xA797int), (0xA799int, 0xA799int), (0xA79Bint, 0xA79Bint), (0xA79Dint, 0xA79Dint), (0xA79Fint, 0xA79Fint), (0xA7A1int, 0xA7A1int), (0xA7A3int, 0xA7A3int), (0xA7A5int, 0xA7A5int)]
}

pub open spec fn lowercase_letter_chunk_74() -> Seq<SRange> {
    seq![(0xA7A7int, 0xA7A7int), (0xA7A9int, 0xA7A9int), (0xA7AFint, 0xA7AFint), (0xA7B5int, 0xA7B5int), (0xA7B7int, 0xA7B7int), (0xA7B9int, 0xA7B9int), (0xA7BBint, 0xA7BBint), (0xA7BDint, 0xA7BDint)]
}

pub open spec fn lowercase_letter_chunk_75() -> Seq<SRange> {
    seq![(0xA7BFint, 0xA7BFint), (0xA7C1int, 0xA7C1int), (0xA7C3int, 0xA7C3int), (0xA7C8int, 0xA7C8int), (0xA7CAint, 0xA7CAint), (0xA7CDint, 0xA7CDint), (0xA7D1int, 0xA7D1int), (0xA7D3int, 0xA7D3int)]
}

pub open spec fn lowercase_letter_chunk_76() -> Seq<SRange> {
    seq![(0xA7D5int, 0xA7D5int), (0xA7D7int, 0xA7D7int), (0xA7D9int, 0xA7D9int), (0xA7DBint, 0xA7DBint), (0xA7F6int, 0xA7F6int), (0xA7FAint, 0xA7FAint), (0xAB30int, 0xAB5Aint), (0xAB60int, 0xAB68int)]
}

pub open spec fn lowercase_letter_chunk_77() -> Seq<SRange> {
    seq![(0xAB70int, 0xABBFint), (0xFB00int, 0xFB06int), (0xFB13int, 0xFB17int), (0xFF41int, 0xFF5Aint), (0x10428int, 0x1044Fint), (0x104D8int, 0x104FBint), (0x10597int, 0x105A1int), (0x105A3int, 0x105B1int)]
}

pub open spec fn lowercase_letter_chunk_78() -> Seq<SRange> {
    seq![(0x105B3int, 0x105B9int), (0x105BBint, 0x105BCint), (0x10CC0int, 0x10CF2int), (0x10D70int, 0x10D85int), (0x118C0int, 0x118DFint), (0x16E60int, 0x16E7Fint), (0x1D41Aint, 0x1D433int), (0x1D44Eint, 0x1D454int)]
}

pub open spec fn lowercase_letter_chunk_79() -> Seq<SRange> {
    seq![(0x1D456int, 0x1D467int), (0x1D482int, 0x1D49Bint), (0x1D4B6int, 0x1D4B9int), (0x1D4BBint, 0x1D4BBint), (0x1D4BDint, 0x1D4C3int), (0x1D4C5int, 0x1D4CFint), (0x1D4EAint, 0x1D503int), (0x1D51Eint, 0x1D537int)]
}

pub open spec fn lowercase_letter_chunk_80() -> Seq<SRange> {
    seq![(0x1D552int, 0x1D56Bint), (0x1D586int, 0x1D59Fint), (0x1D5BAint, 0x1D5D3int), (0x1D5EEint, 0x1D607int), (0x1D622int, 0x1D63Bint), (0x1D656int, 0x1D66Fint), (0x1D68Aint, 0x1D6A5int), (0x1D6C2int, 0x1D6DAint)]
}

pub open spec fn lowercase_letter_chunk_81() -> Seq<SRange> {
    seq![(0x1D6DCint, 0x1D6E1int), (0x1D6FCint, 0x1D714int), (0x1D716int, 0x1D71Bint), (0x1D736int, 0x1D74Eint), (0x1D750int, 0x1D755int), (0x1D770int, 0x1D788int), (0x1D78Aint, 0x1D78Fint), (0x1D7AAint, 0x1D7C2int)]
}

pub open spec fn lowercase_letter_chunk_82() -> Seq<SRange> {
    seq![(0x1D7C4int, 0x1D7C9int), (0x1D7CBint, 0x1D7CBint), (0x1DF00int, 0x1DF09int), (0x1DF0Bint, 0x1DF1Eint), (0x1DF25int, 0x1DF2Aint), (0x1E922int, 0x1E943int)]
}

pub open spec fn lowercase_letter_block_0() -> Seq<SRange> {
    lowercase_letter_chunk_0() + lowercase_letter_chunk_1() + lowercase_letter_chunk_2() + lowercase_letter_chunk_3() + lowercase_letter_chunk_4() + lowercase_letter_chunk_5() + lowercase_letter_chunk_6() + lowercase_letter_chunk_7() + lowercase_letter_chunk_8() + lowercase_letter_chunk_9()
}

pub open spec fn lowercase_letter_block_1() -> Seq<SRange> {
    lowercase_letter_chunk_10() + lowercase_letter_chunk_11() + lowercase_letter_chunk_12() + lowercase_letter_chunk_13() + lowercase_letter_chunk_14() + lowercase_letter_chunk_15() + lowercase_letter_chunk_16() + lowercase_letter_chunk_17() + lowercase_letter_chunk_18() + lowercase_letter_chunk_19()
}

pub open spec fn lowercase_letter_block_2() -> Seq<SRange> {
    lowercase_letter_chunk_20() + lowercase_letter_chunk_21() + lowercase_letter_chunk_22() + lowercase_letter_chunk_23() + lowercase_letter_chunk_24() + lowercase_letter_chunk_25() + lowercase_letter_chunk_26() + lowercase_letter_chunk_27() + lowercase_letter_chunk_28() + lowercase_letter_chunk_29()
}

pub open spec fn lowercase_letter_block_3() -> Seq<SRange> {
    lowercase_letter_chunk_30() + lowercase_letter_chunk_31() + lowercase_letter_chunk_32() + lowercase_letter_chunk_33() + lowercase_letter_chunk_34() + lowercase_letter_chunk_35() + lowercase_letter_chunk_36() + lowercase_letter_chunk_37() + lowercase_letter_chunk_38() + lowercase_letter_chunk_39()
}

pub open spec fn lowercase_letter_block_4() -> Seq<SRange> {
    lowercase_letter_chunk_40() + lowercase_letter_chunk_41() + lowercase_letter_chunk_42() + lowercase_letter_chunk_43() + lowercase_letter_chunk_44() + lowercase_letter_chunk_45() + lowercase_letter_chunk_46() + lowercase_letter_chunk_47() + lowercase_letter_chunk_48() + lowercase_letter_chunk_49()
}

pub open spec fn lowercase_letter_block_5() -> Seq<SRange> {
    lowercase_letter_chunk_50() + lowercase_letter_chunk_51() + lowercase_letter_chunk_52() + lowercase_letter_chunk_53() + lowercase_letter_chunk_54() + lowercase_letter_chunk_55() + lowercase_letter_chunk_56() + lowercase_letter_chunk_57() + lowercase_letter_chunk_58() + lowercase_letter_chunk_59()
}

pub open spec fn lowercase_letter_block_6() -> Seq<SRange> {
    lowercase_letter_chunk_60() + lowercase_letter_chunk_61() + lowercase_letter_chunk_62() + lowercase_letter_chunk_63() + lowercase_letter_chunk_64() + lowercase_letter_chunk_65() + lowercase_letter_chunk_66() + lowercase_letter_chunk_67() + lowercase_letter_chunk_68() + lowercase_letter_chunk_69()
}

pub open spec fn lowercase_letter_block_7() -> Seq<SRange> {
    lowercase_letter_chunk_70() + lowercase_letter_chunk_71() + lowercase_letter_chunk_72() + lowercase_letter_chunk_73() + lowercase_letter_chunk_74() + lowercase_letter_chunk_75() + lowercase_letter_chunk_76() + lowercase_letter_chunk_77() + lowercase_letter_chunk_78() + lowercase_letter_chunk_79()
}

pub open spec fn lowercase_letter_block_8() -> Seq<SRange> {
    lowercase_letter_chunk_80() + lowercase_letter_chunk_81() + lowercase_letter_chunk_82()
}

/// The ranges of the general category Lowercase_Letter.
pub open spec fn lowercase_letter_ranges() -> Seq<SRange> {
    lowercase_letter_block_0() + lowercase_letter_block_1() + lowercase_letter_block_2() + lowercase_letter_block_3() + lowercase_letter_block_4() + lowercase_letter_block_5() + lowercase_letter_block_6() + lowercase_letter_block_7() + lowercase_letter_block_8()
}

proof fn lemma_lowercase_letter_block_0()
    ensures
        canonical(lowercase_letter_block_0()),
        lowercase_letter_block_0().len() > 0,
        lowercase_letter_block_0()[0] == lowercase_letter_chunk_0()[0],
        lowercase_letter_block_0().last() == lowercase_letter_chunk_9().last(),
{
    reveal_with_fuel(canonical, 9);
    assert(canonical(lowercase_letter_chunk_0()));
    assert(canonical(lowercase_letter_chunk_1()));
    assert(canonical(lowercase_letter_chunk_2()));
    assert(canonical(lowercase_letter_chunk_3()));
    assert(canonical(lowercase_letter_chunk_4()));
    assert(canonical(lowercase_letter_chunk_5()));
    assert(canonical(lowercase_letter_chunk_6()));
    assert(canonical(lowercase_letter_chunk_7()));
    assert(canonical(lowercase_letter_chunk_8()));
    assert(canonical(lowercase_letter_chunk_9()));
    lemma_canonical_append(lowercase_letter_chunk_0(), lowercase_letter_chunk_1());
    lemma_canonical_append(lowercase_letter_chunk_0() + lowercase_letter_chunk_1(), lowercase_letter_chunk_2());
    lemma_canonical_append(lowercase_letter_chunk_0() + lowercase_letter_chunk_1() + lowercase_letter_chunk_2(), lowercase_letter_chunk_3());
    lemma_canonical_append(lowercase_letter_chunk_0() + lowercase_letter_chunk_1() + lowercase_letter_chunk_2() + lowercase_letter_chunk_3(), lowercase_letter_chunk_4());
    lemma_canonical_append(lowercase_letter_chunk_0() + lowercase_letter_chunk_1() + lowercase_letter_chunk_2() + lowercase_letter_chunk_3() + lowercase_letter_chunk_4(), lowercase_letter_chunk_5());
    lemma_canonical_append(lowercase_letter_chunk_0() + lowercase_letter_chunk_1() + lowercase_letter_chunk_2() + lowercase_letter_chunk_3() + lowercase_letter_chunk_4() + lowercase_letter_chunk_5(), lowercase_letter_chunk_6());
    lemma_canonical_append(lowercase_letter_chunk_0() + lowercase_letter_chunk_1() + lowercase_letter_chunk_2() + lowercase_letter_chunk_3() + lowercase_letter_chunk_4() + lowercase_letter_chunk_5() + lowercase_letter_chunk_6(), lowercase_letter_chunk_7());
    lemma_canonical_append(lowercase_letter_chunk_0() + lowercase_letter_chunk_1() + lowercase_letter_chunk_2() + lowercase_letter_chunk_3() + lowercase_letter_chunk_4() + lowercase_letter_chunk_5() + lowercase_letter_chunk_6() + lowercase_letter_chunk_7(), lowercase_letter_chunk_8());
    lemma_canonical_append(lowercase_letter_chunk_0() + lowercase_letter_chunk_1() + lowercase_letter_chunk_2() + lowercase_letter_chunk_3() + lowercase_letter_chunk_4() + lowercase_letter_chunk_5() + lowercase_letter_chunk_6() + lowercase_letter_chunk_7() + lowercase_letter_chunk_8(), lowercase_letter_chunk_9());
}

proof fn lemma_lowercase_letter_block_1()
    ensures
        canonical(lowercase_letter_block_1()),
        lowercase_letter_block_1().len() > 0,
        lowercase_letter_block_1()[0] == lowercase_letter_chunk_10()[0],
        lowercase_letter_block_1().last() == lowercase_letter_chunk_19().last(),
{
    reveal_with_fuel(canonical, 9);
    assert(canonical(lowercase_letter_chunk_10()));
    assert(canonical(lowercase_letter_chunk_11()));
    assert(canonical(lowercase_letter_chunk_12()));
    assert(canonical(lowercase_letter_chunk_13()));
    assert(canonical(lowercase_letter_chunk_14()));
    assert(canonical(lowercase_letter_chunk_15()));
    assert(canonical(lowercase_letter_chunk_16()));
    assert(canonical(lowercase_letter_chunk_17()));
    assert(canonical(lowercase_letter_chunk_18()));
    assert(canonical(lowercase_letter_chunk_19()));
    lemma_canonical_append(lowercase_letter_chunk_10(), lowercase_letter_chunk_11());
    lemma_canonical_append(lowercase_letter_chunk_10() + lowercase_letter_chunk_11(), lowercase_letter_chunk_12());
    lemma_canonical_append(lowercase_letter_chunk_10() + lowercase_letter_chunk_11() + lowercase_letter_chunk_12(), lowercase_letter_chunk_13());
    lemma_canonical_append(lowercase_letter_chunk_10() + lowercase_letter_chunk_11() + lowercase_letter_chunk_12() + lowercase_letter_chunk_13(), lowercase_letter_chunk_14());
    lemma_canonical_append(lowercase_letter_chunk_10() + lowercase_letter_chunk_11() + lowercase_letter_chunk_12() + lowercase_letter_chunk_13() + lowercase_letter_chunk_14(), lowercase_letter_chunk_15());
    lemma_canonical_append(lowercase_letter_chunk_10() + lowercase_letter_chunk_11() + lowercase_letter_chunk_12() + lowercase_letter_chunk_13() + lowercase_letter_chunk_14() + lowercase_letter_chunk_15(), lowercase_letter_chunk_16());
    lemma_canonical_append(lowercase_letter_chunk_10() + lowercase_letter_chunk_11() + lowercase_letter_chunk_12() + lowercase_letter_chunk_13() + lowercase_letter_chunk_14() + lowercase_letter_chunk_15() + lowercase_letter_chunk_16(), lowercase_letter_chunk_17());
    lemma_canonical_append(lowercase_letter_chunk_10() + lowercase_letter_chunk_11() + lowercase_letter_chunk_12() + lowercase_letter_chunk_13() + lowercase_letter_chunk_14() + lowercase_letter_chunk_15() + lowercase_letter_chunk_16() + lowercase_letter_chunk_17(), lowercase_letter_chunk_18());
    lemma_canonical_append(lowercase_letter_chunk_10() + lowercase_letter_chunk_11() + lowercase_letter_chunk_12() + lowercase_letter_chunk_13() + lowercase_letter_chunk_14() + lowercase_letter_chunk_15() + lowercase_letter_chunk_16() + lowercase_letter_chunk_17() + lowercase_letter_chunk_18(), lowercase_letter_chunk_19());
}

proof fn lemma_lowercase_letter_block_2()
    ensures
        canonical(lowercase_letter_block_2()),
        lowercase_letter_block_2().len() > 0,
        lowercase_letter_block_2()[0] == lowercase_letter_chunk_20()[0],
        lowercase_letter_block_2().last() == lowercase_letter_chunk_29().last(),
{
    reveal_with_fuel(canonical, 9);
    assert(canonical(lowercase_letter_chunk_20()));
    assert(canonical(lowercase_letter_chunk_21()));
    assert(canonical(lowercase_letter_chunk_22()));
    assert(canonical(lowercase_letter_chunk_23()));
    assert(canonical(lowercase_letter_chunk_24()));
    assert(canonical(lowercase_letter_chunk_25()));
    assert(canonical(lowercase_letter_chunk_26()));
    assert(canonical(lowercase_letter_chunk_27()));
    assert(canonical(lowercase_letter_chunk_28()));
    assert(canonical(lowercase_letter_chunk_29()));
    lemma_canonical_append(lowercase_letter_chunk_20(), lowercase_letter_chunk_21());
    lemma_canonical_append(lowercase_letter_chunk_20() + lowercase_letter_chunk_21(), lowercase_letter_chunk_22());
    lemma_canonical_append(lowercase_letter_chunk_20() + lowercase_letter_chunk_21() + lowercase_letter_chunk_22(), lowercase_letter_chunk_23());
    lemma_canonical_append(lowercase_letter_chunk_20() + lowercase_letter_chunk_21() + lowercase_letter_chunk_22() + lowercase_letter_chunk_23(), lowercase_letter_chunk_24());
    lemma_canonical_append(lowercase_letter_chunk_20() + lowercase_letter_chunk_21() + lowercase_letter_chunk_22() + lowercase_letter_chunk_23() + lowercase_letter_chunk_24(), lowercase_letter_chunk_25());
    lemma_canonical_append(lowercase_letter_chunk_20() + lowercase_letter_chunk_21() + lowercase_letter_chunk_22() + lowercase_letter_chunk_23() + lowercase_letter_chunk_24() + lowercase_letter_chunk_25(), lowercase_letter_chunk_26());
    lemma_canonical_append(lowercase_letter_chunk_20() + lowercase_letter_chunk_21() + lowercase_letter_chunk_22() + lowercase_letter_chunk_23() + lowercase_letter_chunk_24() + lowercase_letter_chunk_25() + lowercase_letter_chunk_26(), lowercase_letter_chunk_27());
    lemma_canonical_append(lowercase_letter_chunk_20() + lowercase_letter_chunk_21() + lowercase_letter_chunk_22() + lowercase_letter_chunk_23() + lowercase_letter_chunk_24() + lowercase_letter_chunk_25() + lowercase_letter_chunk_26() + lowercase_letter_chunk_27(), lowercase_letter_chunk_28());
    lemma_canonical_append(lowercase_letter_chunk_20() + lowercase_letter_chunk_21() + lowercase_letter_chunk_22() + lowercase_letter_chunk_23() + lowercase_letter_chunk_24() + lowercase_letter_chunk_25() + lowercase_letter_chunk_26() + lowercase_letter_chunk_27() + lowercase_letter_chunk_28(), lowercase_letter_chunk_29());
}

proof fn lemma_lowercase_letter_block_3()
    ensures
        canonical(lowercase_letter_block_3()),
        lowercase_letter_block_3().len() > 0,
        lowercase_letter_block_3()[0] == lowercase_letter_chunk_30()[0],
        lowercase_letter_block_3().last() == lowercase_letter_chunk_39().last(),
{
    reveal_with_fuel(canonical, 9);
    assert(canonical(lowercase_letter_chunk_30()));
    assert(canonical(lowercase_letter_chunk_31()));
    assert(canonical(lowercase_letter_chunk_32()));
    assert(canonical(lowercase_letter_chunk_33()));
    assert(canonical(lowercase_letter_chunk_34()));
    assert(canonical(lowercase_letter_chunk_35()));
    assert(canonical(lowercase_letter_chunk_36()));
    assert(canonical(lowercase_letter_chunk_37()));
    assert(canonical(lowercase_letter_chunk_38()));
    assert(canonical(lowercase_letter_chunk_39()));
    lemma_canonical_append(lowercase_letter_chunk_30(), lowercase_letter_chunk_31());
    lemma_canonical_append(lowercase_letter_chunk_30() + lowercase_letter_chunk_31(), lowercase_letter_chunk_32());
    lemma_canonical_append(lowercase_letter_chunk_30() + lowercase_letter_chunk_31() + lowercase_letter_chunk_32(), lowercase_letter_chunk_33());
    lemma_canonical_append(lowercase_letter_chunk_30() + lowercase_letter_chunk_31() + lowercase_letter_chunk_32() + lowercase_letter_chunk_33(), lowercase_letter_chunk_34());
    lemma_canonical_append(lowercase_letter_chunk_30() + lowercase_letter_chunk_31() + lowercase_letter_chunk_32() + lowercase_letter_chunk_33() + lowercase_letter_chunk_34(), lowercase_letter_chunk_35());
    lemma_canonical_append(lowercase_letter_chunk_30() + lowercase_letter_chunk_31() + lowercase_letter_chunk_32() + lowercase_letter_chunk_33() + lowercase_letter_chunk_34() + lowercase_letter_chunk_35(), lowercase_letter_chunk_36());
    lemma_canonical_append(lowercase_letter_chunk_30() + lowercase_letter_chunk_31() + lowercase_letter_chunk_32() + lowercase_letter_chunk_33() + lowercase_letter_chunk_34() + lowercase_letter_chunk_35() + lowercase_letter_chunk_36(), lowercase_letter_chunk_37());
    lemma_canonical_append(lowercase_letter_chunk_30() + lowercase_letter_chunk_31() + lowercase_letter_chunk_32() + lowercase_letter_chunk_33() + lowercase_letter_chunk_34() + lowercase_letter_chunk_35() + lowercase_letter_chunk_36() + lowercase_letter_chunk_37(), lowercase_letter_chunk_38());
    lemma_canonical_append(lowercase_letter_chunk_30() + lowercase_letter_chunk_31() + lowercase_letter_chunk_32() + lowercase_letter_chunk_33() + lowercase_letter_chunk_34() + lowercase_letter_chunk_35() + lowercase_letter_chunk_36() + lowercase_letter_chunk_37() + lowercase_letter_chunk_38(), lowercase_letter_chunk_39());
}

proof fn lemma_lowercase_letter_block_4()
    ensures
        canonical(lowercase_letter_block_4()),
        lowercase_letter_block_4().len() > 0,
        lowercase_letter_block_4()[0] == lowercase_letter_chunk_40()[0],
        lowercase_letter_block_4().last() == lowercase_letter_chunk_49().last(),
{
    reveal_with_fuel(canonical, 9);
    assert(canonical(lowercase_letter_chunk_40()));
    assert(canonical(lowercase_letter_chunk_41()));
    assert(canonical(lowercase_letter_chunk_42()));
    assert(canonical(lowercase_letter_chunk_43()));
    assert(canonical(lowercase_letter_chunk_44()));
    assert(canonical(lowercase_letter_chunk_45()));
    assert(canonical(lowercase_letter_chunk_46()));
    assert(canonical(lowercase_letter_chunk_47()));
    assert(canonical(lowercase_letter_chunk_48()));
    assert(canonical(lowercase_letter_chunk_49()));
    lemma_canonical_append(lowercase_letter_chunk_40(), lowercase_letter_chunk_41());
    lemma_canonical_append(lowercase_letter_chunk_40() + lowercase_letter_chunk_41(), lowercase_letter_chunk_42());
    lemma_canonical_append(lowercase_letter_chunk_40() + lowercase_letter_chunk_41() + lowercase_letter_chunk_42(), lowercase_letter_chunk_43());
    lemma_canonical_append(lowercase_letter_chunk_40() + lowercase_letter_chunk_41() + lowercase_letter_chunk_42() + lowercase_letter_chunk_43(), lowercase_letter_chunk_44());
    lemma_canonical_append(lowercase_letter_chunk_40() + lowercase_letter_chunk_41() + lowercase_letter_chunk_42() + lowercase_letter_chunk_43() + lowercase_letter_chunk_44(), lowercase_letter_chunk_45());
    lemma_canonical_append(lowercase_letter_chunk_40() + lowercase_letter_chunk_41() + lowercase_letter_chunk_42() + lowercase_letter_chunk_43() + lowercase_letter_chunk_44() + lowercase_letter_chunk_45(), lowercase_letter_chunk_46());
    lemma_canonical_append(lowercase_letter_chunk_40() + lowercase_letter_chunk_41() + lowercase_letter_chunk_42() + lowercase_letter_chunk_43() + lowercase_letter_chunk_44() + lowercase_letter_chunk_45() + lowercase_letter_chunk_46(), lowercase_letter_chunk_47());
    lemma_canonical_append(lowercase_letter_chunk_40() + lowercase_letter_chunk_41() + lowercase_letter_chunk_42() + lowercase_letter_chunk_43() + lowercase_letter_chunk_44() + lowercase_letter_chunk_45() + lowercase_letter_chunk_46() + lowercase_letter_chunk_47(), lowercase_letter_chunk_48());
    lemma_canonical_append(lowercase_letter_chunk_40() + lowercase_letter_chunk_41() + lowercase_letter_chunk_42() + lowercase_letter_chunk_43() + lowercase_letter_chunk_44() + lowercase_letter_chunk_45() + lowercase_letter_chunk_46() + lowercase_letter_chunk_47() + lowercase_letter_chunk_48(), lowercase_letter_chunk_49());
}

proof fn lemma_lowercase_letter_block_5()
    ensures
        canonical(lowercase_letter_block_5()),
        lowercase_letter_block_5().len() > 0,
        lowercase_letter_block_5()[0] == lowercase_letter_chunk_50()[0],
        lowercase_letter_block_5().last() == lowercase_letter_chunk_59().last(),
{
    reveal_with_fuel(canonical, 9);
    assert(canonical(lowercase_letter_chunk_50()));
    assert(canonical(lowercase_letter_chunk_51()));
    assert(canonical(lowercase_letter_chunk_52()));
    assert(canonical(lowercase_letter_chunk_53()));
    assert(canonical(lowercase_letter_chunk_54()));
    assert(canonical(lowercase_letter_chunk_55()));
    assert(canonical(lowercase_letter_chunk_56()));
    assert(canonical(lowercase_letter_chunk_57()));
    assert(canonical(lowercase_letter_chunk_58()));
    assert(canonical(lowercase_letter_chunk_59()));
    lemma_canonical_append(lowercase_letter_chunk_50(), lowercase_letter_chunk_51());
    lemma_canonical_append(lowercase_letter_chunk_50() + lowercase_letter_chunk_51(), lowercase_letter_chunk_52());
    lemma_canonical_append(lowercase_letter_chunk_50() + lowercase_letter_chunk_51() + lowercase_letter_chunk_52(), lowercase_letter_chunk_53());
    lemma_canonical_append(lowercase_letter_chunk_50() + lowercase_letter_chunk_51() + lowercase_letter_chunk_52() + lowercase_letter_chunk_53(), lowercase_letter_chunk_54());
    lemma_canonical_append(lowercase_letter_chunk_50() + lowercase_letter_chunk_51() + lowercase_letter_chunk_52() + lowercase_letter_chunk_53() + lowercase_letter_chunk_54(), lowercase_letter_chunk_55());
    lemma_canonical_append(lowercase_letter_chunk_50() + lowercase_letter_chunk_51() + lowercase_letter_chunk_52() + lowercase_letter_chunk_53() + lowercase_letter_chunk_54() + lowercase_letter_chunk_55(), lowercase_letter_chunk_56());
    lemma_canonical_append(lowercase_letter_chunk_50() + lowercase_letter_chunk_51() + lowercase_letter_chunk_52() + lowercase_letter_chunk_53() + lowercase_letter_chunk_54() + lowercase_letter_chunk_55() + lowercase_letter_chunk_56(), lowercase_letter_chunk_57());
    lemma_canonical_append(lowercase_letter_chunk_50() + lowercase_letter_chunk_51() + lowercase_letter_chunk_52() + lowercase_letter_chunk_53() + lowercase_letter_chunk_54() + lowercase_letter_chunk_55() + lowercase_letter_chunk_56() + lowercase_letter_chunk_57(), lowercase_letter_chunk_58());
    lemma_canonical_append(lowercase_letter_chunk_50() + lowercase_letter_chunk_51() + lowercase_letter_chunk_52() + lowercase_letter_chunk_53() + lowercase_letter_chunk_54() + lowercase_letter_chunk_55() + lowercase_letter_chunk_56() + lowercase_letter_chunk_57() + lowercase_letter_chunk_58(), lowercase_letter_chunk_59());
}

proof fn lemma_lowercase_letter_block_6()
    ensures
        canonical(lowercase_letter_block_6()),
        lowercase_letter_block_6().len() > 0,
        lowercase_letter_block_6()[0] == lowercase_letter_chunk_60()[0],
        lowercase_letter_block_6().last() == lowercase_letter_chunk_69().last(),
{
    reveal_with_fuel(canonical, 9);
    assert(canonical(lowercase_letter_chunk_60()));
    assert(canonical(lowercase_letter_chunk_61()));
    assert(canonical(lowercase_letter_chunk_62()));
    assert(canonical(lowercase_letter_chunk_63()));
    assert(canonical(lowercase_letter_chunk_64()));
    assert(canonical(lowercase_letter_chunk_65()));
    assert(canonical(lowercase_letter_chunk_66()));
    assert(canonical(lowercase_letter_chunk_67()));
    assert(canonical(lowercase_letter_chunk_68()));
    assert(canonical(lowercase_letter_chunk_69()));
    lemma_canonical_append(lowercase_letter_chunk_60(), lowercase_letter_chunk_61());
    lemma_canonical_append(lowercase_letter_chunk_60() + lowercase_letter_chunk_61(), lowercase_letter_chunk_62());
    lemma_canonical_append(lowercase_letter_chunk_60() + lowercase_letter_chunk_61() + lowercase_letter_chunk_62(), lowercase_letter_chunk_63());
    lemma_canonical_append(lowercase_letter_chunk_60() + lowercase_letter_chunk_61() + lowercase_letter_chunk_62() + lowercase_letter_chunk_63(), lowercase_letter_chunk_64());
    lemma_canonical_append(lowercase_letter_chunk_60() + lowercase_letter_chunk_61() + lowercase_letter_chunk_62() + lowercase_letter_chunk_63() + lowercase_letter_chunk_64(), lowercase_letter_chunk_65());
    lemma_canonical_append(lowercase_letter_chunk_60() + lowercase_letter_chunk_61() + lowercase_letter_chunk_62() + lowercase_letter_chunk_63() + lowercase_letter_chunk_64() + lowercase_letter_chunk_65(), lowercase_letter_chunk_66());
    lemma_canonical_append(lowercase_letter_chunk_60() + lowercase_letter_chunk_61() + lowercase_letter_chunk_62() + lowercase_letter_chunk_63() + lowercase_letter_chunk_64() + lowercase_letter_chunk_65() + lowercase_letter_chunk_66(), lowercase_letter_chunk_67());
    lemma_canonical_append(lowercase_letter_chunk_60() + lowercase_letter_chunk_61() + lowercase_letter_chunk_62() + lowercase_letter_chunk_63() + lowercase_letter_chunk_64() + lowercase_letter_chunk_65() + lowercase_letter_chunk_66() + lowercase_letter_chunk_67(), lowercase_letter_chunk_68());
    lemma_canonical_append(lowercase_letter_chunk_60() + lowercase_letter_chunk_61() + lowercase_letter_chunk_62() + lowercase_letter_chunk_63() + lowercase_letter_chunk_64() + lowercase_letter_chunk_65() + lowercase_letter_chunk_66() + lowercase_letter_chunk_67() + lowercase_letter_chunk_68(), lowercase_letter_chunk_69());
}

proof fn lemma_lowercase_letter_block_7()
    ensures
        canonical(lowercase_letter_block_7()),
        lowercase_letter_block_7().len() > 0,
        lowercase_letter_block_7()[0] == lowercase_letter_chunk_70()[0],
        lowercase_letter_block_7().last() == lowercase_letter_chunk_79().last(),
{
    reveal_with_fuel(canonical, 9);
    assert(canonical(lowercase_letter_chunk_70()));
    assert(canonical(lowercase_letter_chunk_71()));
    assert(canonical(lowercase_letter_chunk_72()));
    assert(canonical(lowercase_letter_chunk_73()));
    assert(canonical(lowercase_letter_chunk_74()));
    assert(canonical(lowercase_letter_chunk_75()));
    assert(canonical(lowercase_letter_chunk_76()));
    assert(canonical(lowercase_letter_chunk_77()));
    assert(canonical(lowercase_letter_chunk_78()));
    assert(canonical(lowercase_letter_chunk_79()));
    lemma_canonical_append(lowercase_letter_chunk_70(), lowercase_letter_chunk_71());
    lemma_canonical_append(lowercase_letter_chunk_70() + lowercase_letter_chunk_71(), lowercase_letter_chunk_72());
    lemma_canonical_append(lowercase_letter_chunk_70() + lowercase_letter_chunk_71() + lowercase_letter_chunk_72(), lowercase_letter_chunk_73());
    lemma_canonical_append(lowercase_letter_chunk_70() + lowercase_letter_chunk_71() + lowercase_letter_chunk_72() + lowercase_letter_chunk_73(), lowercase_letter_chunk_74());
    lemma_canonical_append(lowercase_letter_chunk_70() + lowercase_letter_chunk_71() + lowercase_letter_chunk_72() + lowercase_letter_chunk_73() + lowercase_letter_chunk_74(), lowercase_letter_chunk_75());
    lemma_canonical_append(lowercase_letter_chunk_70() + lowercase_letter_chunk_71() + lowercase_letter_chunk_72() + lowercase_letter_chunk_73() + lowercase_letter_chunk_74() + lowercase_letter_chunk_75(), lowercase_letter_chunk_76());
    lemma_canonical_append(lowercase_letter_chunk_70() + lowercase_letter_chunk_71() + lowercase_letter_chunk_72() + lowercase_letter_chunk_73() + lowercase_letter_chunk_74() + lowercase_letter_chunk_75() + lowercase_letter_chunk_76(), lowercase_letter_chunk_77());
    lemma_canonical_append(lowercase_letter_chunk_70() + lowercase_letter_chunk_71() + lowercase_letter_chunk_72() + lowercase_letter_chunk_73() + lowercase_letter_chunk_74() + lowercase_letter_chunk_75() + lowercase_letter_chunk_76() + lowercase_letter_chunk_77(), lowercase_letter_chunk_78());
    lemma_canonical_append(lowercase_letter_chunk_70() + lowercase_letter_chunk_71() + lowercase_letter_chunk_72() + lowercase_letter_chunk_73() + lowercase_letter_chunk_74() + lowercase_letter_chunk_75() + lowercase_letter_chunk_76() + lowercase_letter_chunk_77() + lowercase_letter_chunk_78(), lowercase_letter_chunk_79());
}

proof fn lemma_lowercase_letter_block_8()
    ensures
        canonical(lowercase_letter_block_8()),
        lowercase_letter_block_8().len() > 0,
        lowercase_letter_block_8()[0] == lowercase_letter_chunk_80()[0],
        lowercase_letter_block_8().last() == lowercase_letter_chunk_82().last(),
{
    reveal_with_fuel(canonical, 9);
    assert(canonical(lowercase_letter_chunk_80()));
    assert(canonical(lowercase_letter_chunk_81()));
    assert(canonical(lowercase_letter_chunk_82()));
    lemma_canonical_append(lowercase_letter_chunk_80(), lowercase_letter_chunk_81());
    lemma_canonical_append(lowercase_letter_chunk_80() + lowercase_letter_chunk_81(), lowercase_letter_chunk_82());
}

/// The general category Lowercase_Letter is a canonical class.
pub proof fn lemma_lowercase_letter_canonical()
    ensures
        canonical(lowercase_letter_ranges()),
{
    lemma_lowercase_letter_block_0();
    lemma_lowercase_letter_block_1();
    lemma_lowercase_letter_block_2();
    lemma_lowercase_letter_block_3();
    lemma_lowercase_letter_block_4();
    lemma_lowercase_letter_block_5();
    lemma_lowercase_letter_block_6();
    lemma_lowercase_letter_block_7();
    lemma_lowercase_letter_block_8();
    lemma_canonical_append(lowercase_letter_block_0(), lowercase_letter_block_1());
    lemma_canonical_append(lowercase_letter_block_0() + lowercase_letter_block_1(), lowercase_letter_block_2());
    lemma_canonical_append(lowercase_letter_block_0() + lowercase_letter_block_1() + lowercase_letter_block_2(), lowercase_letter_block_3());
    lemma_canonical_append(lowercase_letter_block_0() + lowercase_letter_block_1() + lowercase_letter_block_2() + lowercase_letter_block_3(), lowercase_letter_block_4());
    lemma_canonical_append(lowercase_letter_block_0() + lowercase_letter_block_1() + lowercase_letter_block_2() + lowercase_letter_block_3() + lowercase_letter_block_4(), lowercase_letter_block_5());
    lemma_canonical_append(lowercase_letter_block_0() + lowercase_letter_block_1() + lowercase_letter_block_2() + lowercase_letter_block_3() + lowercase_letter_block_4() + lowercase_letter_block_5(), lowercase_letter_block_6());
    lemma_canonical_append(lowercase_letter_block_0() + lowercase_letter_block_1() + lowercase_letter_block_2() + lowercase_letter_block_3() + lowercase_letter_block_4() + lowercase_letter_block_5() + lowercase_letter_block_6(), lowercase_letter_block_7());
    lemma_canonical_append(lowercase_letter_block_0() + lowercase_letter_block_1() + lowercase_letter_block_2() + lowercase_letter_block_3() + lowercase_letter_block_4() + lowercase_letter_block_5() + lowercase_letter_block_6() + lowercase_letter_block_7(), lowercase_letter_block_8());
}

fn push_lowercase_letter_chunk_0(v: &mut Vec<ClassUnicodeRange>)
    ensures
        rview(final(v)@) == rview(old(v)@) + lowercase_letter_chunk_0(),
{
    let ghost o = rview(v@);
    push_range(v, '\u{61}', '\u{7A}');
    push_range(v, '\u{B5}', '\u{B5}');
    push_range(v, '\u{DF}', '\u{F6}');
    push_range(v, '\u{F8}', '\u{FF}');
    push_range(v, '\u{101}', '\u{101}');
    push_range(v, '\u{103}', '\u{103}');
    push_range(v, '\u{105}', '\u{105}');
    push_range(v, '\u{107}', '\u{107}');
    assert(rview(v@) =~= o + lowercase_letter_chunk_0());
}

fn push_lowercase_letter_chunk_1(v: &mut Vec<ClassUnicodeRange>)
    ensures
        rview(final(v)@) == rview(old(v)@) + lowercase_letter_chunk_1(),
{
    let ghost o = rview(v@);
    push_range(v, '\u{109}', '\u{109}');
    push_range(v, '\u{10B}', '\u{10B}');
    push_range(v, '\u{10D}', '\u{10D}');
    push_range(v, '\u{10F}', '\u{10F}');
    push_range(v, '\u{111}', '\u{111}');
    push_range(v, '\u{113}', '\u{113}');
    push_range(v, '\u{115}', '\u{115}');
    push_range(v, '\u{117}', '\u{117}');
    assert(rview(v@) =~= o + lowercase_letter_chunk_1());
}

fn push_lowercase_letter_chunk_2(v: &mut Vec<ClassUnicodeRange>)
    ensures
        rview(final(v)@) == rview(old(v)@) + lowercase_letter_chunk_2(),
{
    let ghost o = rview(v@);
    push_range(v, '\u{119}', '\u{119}');
    push_range(v, '\u{11B}', '\u{11B}');
    push_range(v, '\u{11D}', '\u{11D}');
    push_range(v, '\u{11F}', '\u{11F}');
    push_range(v, '\u{121}', '\u{121}');
    push_range(v, '\u{123}', '\u{123}');
    push_range(v, '\u{125}', '\u{125}');
    push_range(v, '\u{127}', '\u{127}');
    assert(rview(v@) =~= o + lowercase_letter_chunk_2());
}

fn push_lowercase_letter_chunk_3(v: &mut Vec<ClassUnicodeRange>)
    ensures
        rview(final(v)@) == rview(old(v)@) + lowercase_letter_chunk_3(),
{
    let ghost o = rview(v@);
    push_range(v, '\u{129}', '\u{129}');
    push_range(v, '\u{12B}', '\u{12B}');
    push_range(v, '\u{12D}', '\u{12D}');
    push_range(v, '\u{12F}', '\u{12F}');
    push_range(v, '\u{131}', '\u{131}');
    push_range(v, '\u{133}', '\u{133}');
    push_range(v, '\u{135}', '\u{135}');
    push_range(v, '\u{137}', '\u{138}');
    assert(rview(v@) =~= o + lowercase_letter_chunk_3());
}

fn push_lowercase_letter_chunk_4(v: &mut Vec<ClassUnicodeRange>)
    ensures
        rview(final(v)@) == rview(old(v)@) + lowercase_letter_chunk_4(),
{
    let ghost o = rview(v@);
    push_range(v, '\u{13A}', '\u{13A}');
    push_range(v, '\u{13C}', '\u{13C}');
    push_range(v, '\u{13E}', '\u{13E}');
    push_range(v, '\u{140}', '\u{140}');
    push_range(v, '\u{142}', '\u{142}');
    push_range(v, '\u{144}', '\u{144}');
    push_range(v, '\u{146}', '\u{146}');
    push_range(v, '\u{148}', '\u{149}');
    assert(rview(v@) =~= o + lowercase_letter_chunk_4());
}

fn push_lowercase_letter_chunk_5(v: &mut Vec<ClassUnicodeRange>)
    ensures
        rview(final(v)@) == rview(old(v)@) + lowercase_letter_chunk_5(),
{
    let ghost o = rview(v@);
    push_range(v, '\u{14B}', '\u{14B}');
    push_range(v, '\u{14D}', '\u{14D}');
    push_range(v, '\u{14F}', '\u{14F}');
    push_range(v, '\u{151}', '\u{151}');
    push_range(v, '\u{153}', '\u{153}');
    push_range(v, '\u{155}', '\u{155}');
    push_range(v, '\u{157}', '\u{157}');
    push_range(v, '\u{159}', '\u{159}');
    assert(rview(v@) =~= o + lowercase_letter_chunk_5());
}

fn push_lowercase_letter_chunk_6(v: &mut Vec<ClassUnicodeRange>)
    ensures
        rview(final(v)@) == rview(old(v)@) + lowercase_letter_chunk_6(),
{
    let ghost o = rview(v@);
    push_range(v, '\u{15B}', '\u{15B}');
    push_range(v, '\u{15D}', '\u{15D}');
    push_range(v, '\u{15F}', '\u{15F}');
    push_range(v, '\u{161}', '\u{161}');
    push_range(v, '\u{163}', '\u{163}');
    push_range(v, '\u{165}', '\u{165}');
    push_range(v, '\u{167}', '\u{167}');
    push_range(v, '\u{169}', '\u{169}');
    assert(rview(v@) =~= o + lowercase_letter_chunk_6());
}

fn push_lowercase_letter_chunk_7(v: &mut Vec<ClassUnicodeRange>)
    ensures
        rview(final(v)@) == rview(old(v)@) + lowercase_letter_chunk_7(),
{
    let ghost o = rview(v@);
    push_range(v, '\u{16B}', '\u{16B}');
    push_range(v, '\u{16D}', '\u{16D}');
    push_range(v, '\u{16F}', '\u{16F}');
    push_range(v, '\u{171}', '\u{171}');
    push_range(v, '\u{173}', '\u{173}');
    push_range(v, '\u{175}', '\u{175}');
    push_range(v, '\u{177}', '\u{177}');
    push_range(v, '\u{17A}', '\u{17A}');
    assert(rview(v@) =~= o + lowercase_letter_chunk_7());
}

fn push_lowercase_letter_chunk_8(v: &mut Vec<ClassUnicodeRange>)
    ensures
        rview(final(v)@) == rview(old(v)@) + lowercase_letter_chunk_8(),
{
    let ghost o = rview(v@);
    push_range(v, '\u{17C}', '\u{17C}');
    push_range(v, '\u{17E}', '\u{180}');
    push_range(v, '\u{183}', '\u{183}');
    push_range(v, '\u{185}', '\u{185}');
    push_range(v, '\u{188}', '\u{188}');
    push_range(v, '\u{18C}', '\u{18D}');
    push_range(v, '\u{192}', '\u{192}');
    push_range(v, '\u{195}', '\u{195}');
    assert(rview(v@) =~= o + lowercase_letter_chunk_8());
}

fn push_lowercase_letter_chunk_9(v: &mut Vec<ClassUnicodeRange>)
    ensures
        rview(final(v)@) == rview(old(v)@) + lowercase_letter_chunk_9(),
{
    let ghost o = rview(v@);
    push_range(v, '\u{199}', '\u{19B}');
    push_range(v, '\u{19E}', '\u{19E}');
    push_range(v, '\u{1A1}', '\u{1A1}');
    push_range(v, '\u{1A3}', '\u{1A3}');
    push_range(v, '\u{1A5}', '\u{1A5}');
    push_range(v, '\u{1A8}', '\u{1A8}');
    push_range(v, '\u{1AA}', '\u{1AB}');
    push_range(v, '\u{1AD}', '\u{1AD}');
    assert(rview(v@) =~= o + lowercase_letter_chunk_9());
}

fn push_lowercase_letter_chunk_10(v: &mut Vec<ClassUnicodeRange>)
    ensures
        rview(final(v)@) == rview(old(v)@) + lowercase_letter_chunk_10(),
{
    let ghost o = rview(v@);
    push_range(v, '\u{1B0}', '\u{1B0}');
    push_range(v, '\u{1B4}', '\u{1B4}');
    push_range(v, '\u{1B6}', '\u{1B6}');
    push_range(v, '\u{1B9}', '\u{1BA}');
    push_range(v, '\u{1BD}', '\u{1BF}');
    push_range(v, '\u{1C6}', '\u{1C6}');
    push_range(v, '\u{1C9}', '\u{1C9}');
    push_range(v, '\u{1CC}', '\u{1CC}');
    assert(rview(v@) =~= o + lowercase_letter_chunk_10());
}

fn push_lowercase_letter_chunk_11(v: &mut Vec<ClassUnicodeRange>)
    ensures
        rview(final(v)@) == rview(old(v)@) + lowercase_letter_chunk_11(),
{
    let ghost o = rview(v@);
    push_range(v, '\u{1CE}', '\u{1CE}');
    push_range(v, '\u{1D0}', '\u{1D0}');
    push_range(v, '\u{1D2}', '\u{1D2}');
    push_range(v, '\u{1D4}', '\u{1D4}');
    push_range(v, '\u{1D6}', '\u{1D6}');
    push_range(v, '\u{1D8}', '\u{1D8}');
    push_range(v, '\u{1DA}', '\u{1DA}');
    push_range(v, '\u{1DC}', '\u{1DD}');
    assert(rview(v@) =~= o + lowercase_letter_chunk_11());
}

fn push_lowercase_letter_chunk_12(v: &mut Vec<ClassUnicodeRange>)
    ensures
        rview(final(v)@) == rview(old(v)@) + lowercase_letter_chunk_12(),
{
    let ghost o = rview(v@);
    push_range(v, '\u{1DF}', '\u{1DF}');
    push_range(v, '\u{1E1}', '\u{1E1}');
    push_range(v, '\u{1E3}', '\u{1E3}');
    push_range(v, '\u{1E5}', '\u{1E5}');
    push_range(v, '\u{1E7}', '\u{1E7}');
    push_range(v, '\u{1E9}', '\u{1E9}');
    push_range(v, '\u{1EB}', '\u{1EB}');
    push_range(v, '\u{1ED}', '\u{1ED}');
    assert(rview(v@) =~= o + lowercase_letter_chunk_12());
}

fn push_lowercase_letter_chunk_13(v: &mut Vec<ClassUnicodeRange>)
    ensures
        rview(final(v)@) == rview(old(v)@) + lowercase_letter_chunk_13(),
{
    let ghost o = rview(v@);
    push_range(v, '\u{1EF}', '\u{1F0}');
    push_range(v, '\u{1F3}', '\u{1F3}');
    push_range(v, '\u{1F5}', '\u{1F5}');
    push_range(v, '\u{1F9}', '\u{1F9}');
    push_range(v, '\u{1FB}', '\u{1FB}');
    push_range(v, '\u{1FD}', '\u{1FD}');
    push_range(v, '\u{1FF}', '\u{1FF}');
    push_range(v, '\u{201}', '\u{201}');
    assert(rview(v@) =~= o + lowercase_letter_chunk_13());
}

fn push_lowercase_letter_chunk_14(v: &mut Vec<ClassUnicodeRange>)
    ensures
        rview(final(v)@) == rview(old(v)@) + lowercase_letter_chunk_14(),
{
    let ghost o = rview(v@);
    push_range(v, '\u{203}', '\u{203}');
    push_range(v, '\u{205}', '\u{205}');
    push_range(v, '\u{207}', '\u{207}');
    push_range(v, '\u{209}', '\u{209}');
    push_range(v, '\u{20B}', '\u{20B}');
    push_range(v, '\u{20D}', '\u{20D}');
    push_range(v, '\u{20F}', '\u{20F}');
    push_range(v, '\u{211}', '\u{211}');
    assert(rview(v@) =~= o + lowercase_letter_chunk_14());
}

fn push_lowercase_letter_chunk_15(v: &mut Vec<ClassUnicodeRange>)
    ensures
        rview(final(v)@) == rview(old(v)@) + lowercase_letter_chunk_15(),
{
    let ghost o = rview(v@);
    push_range(v, '\u{213}', '\u{213}');
    push_range(v, '\u{215}', '\u{215}');
    push_range(v, '\u{217}', '\u{217}');
    push_range(v, '\u{219}', '\u{219}');
    push_range(v, '\u{21B}', '\u{21B}');
    push_range(v, '\u{21D}', '\u{21D}');
    push_range(v, '\u{21F}', '\u{21F}');
    push_range(v, '\u{221}', '\u{221}');
    assert(rview(v@) =~= o + lowercase_letter_chunk_15());
}

fn push_lowercase_letter_chunk_16(v: &mut Vec<ClassUnicodeRange>)
    ensures
        rview(final(v)@) == rview(old(v)@) + lowercase_letter_chunk_16(),
{
    let ghost o = rview(v@);
    push_range(v, '\u{223}', '\u{223}');
    push_range(v, '\u{225}', '\u{225}');
    push_range(v, '\u{227}', '\u{227}');
    push_range(v, '\u{229}', '\u{229}');
    push_range(v, '\u{22B}', '\u{22B}');
    push_range(v, '\u{22D}', '\u{22D}');
    push_range(v, '\u{22F}', '\u{22F}');
    push_range(v, '\u{231}', '\u{231}');
    assert(rview(v@) =~= o + lowercase_letter_chunk_16());
}

fn push_lowercase_letter_chunk_17(v: &mut Vec<ClassUnicodeRange>)
    ensures
        rview(final(v)@) == rview(old(v)@) + lowercase_letter_chunk_17(),
{
    let ghost o = rview(v@);
    push_range(v, '\u{233}', '\u{239}');
    push_range(v, '\u{23C}', '\u{23C}');
    push_range(v, '\u{23F}', '\u{240}');
    push_range(v, '\u{242}', '\u{242}');
    push_range(v, '\u{247}', '\u{247}');
    push_range(v, '\u{249}', '\u{249}');
    push_range(v, '\u{24B}', '\u{24B}');
    push_range(v, '\u{24D}', '\u{24D}');
    assert(rview(v@) =~= o + lowercase_letter_chunk_17());
}

fn push_lowercase_letter_chunk_18(v: &mut Vec<ClassUnicodeRange>)
    ensures
        rview(final(v)@) == rview(old(v)@) + lowercase_letter_chunk_18(),
{
    let ghost o = rview(v@);
    push_range(v, '\u{24F}', '\u{293}');
    push_range(v, '\u{295}', '\u{2AF}');
    push_range(v, '\u{371}', '\u{371}');
    push_range(v, '\u{373}', '\u{373}');
    push_range(v, '\u{377}', '\u{377}');
    push_range(v, '\u{37B}', '\u{37D}');
    push_range(v, '\u{390}', '\u{390}');
    push_range(v, '\u{3AC}', '\u{3CE}');
    assert(rview(v@) =~= o + lowercase_letter_chunk_18());
}

fn push_lowercase_letter_chunk_19(v: &mut Vec<ClassUnicodeRange>)
    ensures
        rview(final(v)@) == rview(old(v)@) + lowercase_letter_chunk_19(),
{
    let ghost o = rview(v@);
    push_range(v, '\u{3D0}', '\u{3D1}');
    push_range(v, '\u{3D5}', '\u{3D7}');
    push_range(v, '\u{3D9}', '\u{3D9}');
    push_range(v, '\u{3DB}', '\u{3DB}');
    push_range(v, '\u{3DD}', '\u{3DD}');
    push_range(v, '\u{3DF}', '\u{3DF}');
    push_range(v, '\u{3E1}', '\u{3E1}');
    push_range(v, '\u{3E3}', '\u{3E3}');
    assert(rview(v@) =~= o + lowercase_letter_chunk_19());
}

fn push_lowercase_letter_chunk_20(v: &mut Vec<ClassUnicodeRange>)
    ensures
        rview(final(v)@) == rview(old(v)@) + lowercase_letter_chunk_20(),
{
    let ghost o = rview(v@);
    push_range(v, '\u{3E5}', '\u{3E5}');
    push_range(v, '\u{3E7}', '\u{3E7}');
    push_range(v, '\u{3E9}', '\u{3E9}');
    push_range(v, '\u{3EB}', '\u{3EB}');
    push_range(v, '\u{3ED}', '\u{3ED}');
    push_range(v, '\u{3EF}', '\u{3F3}');
    push_range(v, '\u{3F5}', '\u{3F5}');
    push_range(v, '\u{3F8}', '\u{3F8}');
    assert(rview(v@) =~= o + lowercase_letter_chunk_20());
}

fn push_lowercase_letter_chunk_21(v: &mut Vec<ClassUnicodeRange>)
    ensures
        rview(final(v)@) == rview(old(v)@) + lowercase_letter_chunk_21(),
{
    let ghost o = rview(v@);
    push_range(v, '\u{3FB}', '\u{3FC}');
    push_range(v, '\u{430}', '\u{45F}');
    push_range(v, '\u{461}', '\u{461}');
    push_range(v, '\u{463}', '\u{463}');
    push_range(v, '\u{465}', '\u{465}');
    push_range(v, '\u{467}', '\u{467}');
    push_range(v, '\u{469}', '\u{469}');
    push_range(v, '\u{46B}', '\u{46B}');
    assert(rview(v@) =~= o + lowercase_letter_chunk_21());
}

fn push_lowercase_letter_chunk_22(v: &mut Vec<ClassUnicodeRange>)
    ensures
        rview(final(v)@) == rview(old(v)@) + lowercase_letter_chunk_22(),
{
    let ghost o = rview(v@);
    push_range(v, '\u{46D}', '\u{46D}');
    push_range(v, '\u{46F}', '\u{46F}');
    push_range(v, '\u{471}', '\u{471}');
    push_range(v, '\u{473}', '\u{473}');
    push_range(v, '\u{475}', '\u{475}');
    push_range(v, '\u{477}', '\u{477}');
    push_range(v, '\u{479}', '\u{479}');
    push_range(v, '\u{47B}', '\u{47B}');
    assert(rview(v@) =~= o + lowercase_letter_chunk_22());
}

fn push_lowercase_letter_chunk_23(v: &mut Vec<ClassUnicodeRange>)
    ensures
        rview(final(v)@) == rview(old(v)@) + lowercase_letter_chunk_23(),
{
    let ghost o = rview(v@);
    push_range(v, '\u{47D}', '\u{47D}');
    push_range(v, '\u{47F}', '\u{47F}');
    push_range(v, '\u{481}', '\u{481}');
    push_range(v, '\u{48B}', '\u{48B}');
    push_range(v, '\u{48D}', '\u{48D}');
    push_range(v, '\u{48F}', '\u{48F}');
    push_range(v, '\u{491}', '\u{491}');
    push_range(v, '\u{493}', '\u{493}');
    assert(rview(v@) =~= o + lowercase_letter_chunk_23());
}

fn push_lowercase_letter_chunk_24(v: &mut Vec<ClassUnicodeRange>)
    ensures
        rview(final(v)@) == rview(old(v)@) + lowercase_letter_chunk_24(),
{
    let ghost o = rview(v@);
    push_range(v, '\u{495}', '\u{495}');
    push_range(v, '\u{497}', '\u{497}');
    push_range(v, '\u{499}', '\u{499}');
    push_range(v, '\u{49B}', '\u{49B}');
    push_range(v, '\u{49D}', '\u{49D}');
    push_range(v, '\u{49F}', '\u{49F}');
    push_range(v, '\u{4A1}', '\u{4A1}');
    push_range(v, '\u{4A3}', '\u{4A3}');
    assert(rview(v@) =~= o + lowercase_letter_chunk_24());
}

fn push_lowercase_letter_chunk_25(v: &mut Vec<ClassUnicodeRange>)
    ensures
        rview(final(v)@) == rview(old(v)@) + lowercase_letter_chunk_25(),
{
    let ghost o = rview(v@);
    push_range(v, '\u{4A5}', '\u{4A5}');
    push_range(v, '\u{4A7}', '\u{4A7}');
    push_range(v, '\u{4A9}', '\u{4A9}');
    push_range(v, '\u{4AB}', '\u{4AB}');
    push_range(v, '\u{4AD}', '\u{4AD}');
    push_range(v, '\u{4AF}', '\u{4AF}');
    push_range(v, '\u{4B1}', '\u{4B1}');
    push_range(v, '\u{4B3}', '\u{4B3}');
    assert(rview(v@) =~= o + lowercase_letter_chunk_25());
}

fn push_lowercase_letter_chunk_26(v: &mut Vec<ClassUnicodeRange>)
    ensures
        rview(final(v)@) == rview(old(v)@) + lowercase_letter_chunk_26(),
{
    let ghost o = rview(v@);
    push_range(v, '\u{4B5}', '\u{4B5}');
    push_range(v, '\u{4B7}', '\u{4B7}');
    push_range(v, '\u{4B9}', '\u{4B9}');
    push_range(v, '\u{4BB}', '\u{4BB}');
    push_range(v, '\u{4BD}', '\u{4BD}');
    push_range(v, '\u{4BF}', '\u{4BF}');
    push_range(v, '\u{4C2}', '\u{4C2}');
    push_range(v, '\u{4C4}', '\u{4C4}');
    assert(rview(v@) =~= o + lowercase_letter_chunk_26());
}

fn push_lowercase_letter_chunk_27(v: &mut Vec<ClassUnicodeRange>)
    ensures
        rview(final(v)@) == rview(old(v)@) + lowercase_letter_chunk_27(),
{
    let ghost o = rview(v@);
    push_range(v, '\u{4C6}', '\u{4C6}');
    push_range(v, '\u{4C8}', '\u{4C8}');
    push_range(v, '\u{4CA}', '\u{4CA}');
    push_range(v, '\u{4CC}', '\u{4CC}');
    push_range(v, '\u{4CE}', '\u{4CF}');
    push_range(v, '\u{4D1}', '\u{4D1}');
    push_range(v, '\u{4D3}', '\u{4D3}');
    push_range(v, '\u{4D5}', '\u{4D5}');
    assert(rview(v@) =~= o + lowercase_letter_chunk_27());
}

fn push_lowercase_letter_chunk_28(v: &mut Vec<ClassUnicodeRange>)
    ensures
        rview(final(v)@) == rview(old(v)@) + lowercase_letter_chunk_28(),
{
    let ghost o = rview(v@);
    push_range(v, '\u{4D7}', '\u{4D7}');
    push_range(v, '\u{4D9}', '\u{4D9}');
    push_range(v, '\u{4DB}', '\u{4DB}');
    push_range(v, '\u{4DD}', '\u{4DD}');
    push_range(v, '\u{4DF}', '\u{4DF}');
    push_range(v, '\u{4E1}', '\u{4E1}');
    push_range(v, '\u{4E3}', '\u{4E3}');
    push_range(v, '\u{4E5}', '\u{4E5}');
    assert(rview(v@) =~= o + lowercase_letter_chunk_28());
}

fn push_lowercase_letter_chunk_29(v: &mut Vec<ClassUnicodeRange>)
    ensures
        rview(final(v)@) == rview(old(v)@) + lowercase_letter_chunk_29(),
{
    let ghost o = rview(v@);
    push_range(v, '\u{4E7}', '\u{4E7}');
    push_range(v, '\u{4E9}', '\u{4E9}');
    push_range(v, '\u{4EB}', '\u{4EB}');
    push_range(v, '\u{4ED}', '\u{4ED}');
    push_range(v, '\u{4EF}', '\u{4EF}');
    push_range(v, '\u{4F1}', '\u{4F1}');
    push_range(v, '\u{4F3}', '\u{4F3}');
    push_range(v, '\u{4F5}', '\u{4F5}');
    assert(rview(v@) =~= o + lowercase_letter_chunk_29());
}

fn push_lowercase_letter_chunk_30(v: &mut Vec<ClassUnicodeRange>)
    ensures
        rview(final(v)@) == rview(old(v)@) + lowercase_letter_chunk_30(),
{
    let ghost o = rview(v@);
    push_range(v, '\u{4F7}', '\u{4F7}');
    push_range(v, '\u{4F9}', '\u{4F9}');
    push_range(v, '\u{4FB}', '\u{4FB}');
    push_range(v, '\u{4FD}', '\u{4FD}');
    push_range(v, '\u{4FF}', '\u{4FF}');
    push_range(v, '\u{501}', '\u{501}');
    push_range(v, '\u{503}', '\u{503}');
    push_range(v, '\u{505}', '\u{505}');
    assert(rview(v@) =~= o + lowercase_letter_chunk_30());
}

fn push_lowercase_letter_chunk_31(v: &mut Vec<ClassUnicodeRange>)
    ensures
        rview(final(v)@) == rview(old(v)@) + lowercase_letter_chunk_31(),
{
    let ghost o = rview(v@);
    push_range(v, '\u{507}', '\u{507}');
    push_range(v, '\u{509}', '\u{509}');
    push_range(v, '\u{50B}', '\u{50B}');
    push_range(v, '\u{50D}', '\u{50D}');
    push_range(v, '\u{50F}', '\u{50F}');
    push_range(v, '\u{511}', '\u{511}');
    push_range(v, '\u{513}', '\u{513}');
    push_range(v, '\u{515}', '\u{515}');
    assert(rview(v@) =~= o + lowercase_letter_chunk_31());
}

fn push_lowercase_letter_chunk_32(v: &mut Vec<ClassUnicodeRange>)
    ensures
        rview(final(v)@) == rview(old(v)@) + lowercase_letter_chunk_32(),
{
    let ghost o = rview(v@);
    push_range(v, '\u{517}', '\u{517}');
    push_range(v, '\u{519}', '\u{519}');
    push_range(v, '\u{51B}', '\u{51B}');
    push_range(v, '\u{51D}', '\u{51D}');
    push_range(v, '\u{51F}', '\u{51F}');
    push_range(v, '\u{521}', '\u{521}');
    push_range(v, '\u{523}', '\u{523}');
    push_range(v, '\u{525}', '\u{525}');
    assert(rview(v@) =~= o + lowercase_letter_chunk_32());
}

fn push_lowercase_letter_chunk_33(v: &mut Vec<ClassUnicodeRange>)
    ensures
        rview(final(v)@) == rview(old(v)@) + lowercase_letter_chunk_33(),
{
    let ghost o = rview(v@);
    push_range(v, '\u{527}', '\u{527}');
    push_range(v, '\u{529}', '\u{529}');
    push_range(v, '\u{52B}', '\u{52B}');
    push_range(v, '\u{52D}', '\u{52D}');
    push_range(v, '\u{52F}', '\u{52F}');
    push_range(v, '\u{560}', '\u{588}');
    push_range(v, '\u{10D0}', '\u{10FA}');
    push_range(v, '\u{10FD}', '\u{10FF}');
    assert(rview(v@) =~= o + lowercase_letter_chunk_33());
}

fn push_lowercase_letter_chunk_34(v: &mut Vec<ClassUnicodeRange>)
    ensures
        rview(final(v)@) == rview(old(v)@) + lowercase_letter_chunk_34(),
{
    let ghost o = rview(v@);
    push_range(v, '\u{13F8}', '\u{13FD}');
    push_range(v, '\u{1C80}', '\u{1C88}');
    push_range(v, '\u{1C8A}', '\u{1C8A}');
    push_range(v, '\u{1D00}', '\u{1D2B}');
    push_range(v, '\u{1D6B}', '\u{1D77}');
    push_range(v, '\u{1D79}', '\u{1D9A}');
    push_range(v, '\u{1E01}', '\u{1E01}');
    push_range(v, '\u{1E03}', '\u{1E03}');
    assert(rview(v@) =~= o + lowercase_letter_chunk_34());
}

fn push_lowercase_letter_chunk_35(v: &mut Vec<ClassUnicodeRange>)
    ensures
        rview(final(v)@) == rview(old(v)@) + lowercase_letter_chunk_35(),
{
    let ghost o = rview(v@);
    push_range(v, '\u{1E05}', '\u{1E05}');
    push_range(v, '\u{1E07}', '\u{1E07}');
    push_range(v, '\u{1E09}', '\u{1E09}');
    push_range(v, '\u{1E0B}', '\u{1E0B}');
    push_range(v, '\u{1E0D}', '\u{1E0D}');
    push_range(v, '\u{1E0F}', '\u{1E0F}');
    push_range(v, '\u{1E11}', '\u{1E11}');
    push_range(v, '\u{1E13}', '\u{1E13}');
    assert(rview(v@) =~= o + lowercase_letter_chunk_35());
}

fn push_lowercase_letter_chunk_36(v: &mut Vec<ClassUnicodeRange>)
    ensures
        rview(final(v)@) == rview(old(v)@) + lowercase_letter_chunk_36(),
{
    let ghost o = rview(v@);
    push_range(v, '\u{1E15}', '\u{1E15}');
    push_range(v, '\u{1E17}', '\u{1E17}');
    push_range(v, '\u{1E19}', '\u{1E19}');
    push_range(v, '\u{1E1B}', '\u{1E1B}');
    push_range(v, '\u{1E1D}', '\u{1E1D}');
    push_range(v, '\u{1E1F}', '\u{1E1F}');
    push_range(v, '\u{1E21}', '\u{1E21}');
    push_range(v, '\u{1E23}', '\u{1E23}');
    assert(rview(v@) =~= o + lowercase_letter_chunk_36());
}

fn push_lowercase_letter_chunk_37(v: &mut Vec<ClassUnicodeRange>)
    ensures
        rview(final(v)@) == rview(old(v)@) + lowercase_letter_chunk_37(),
{
    let ghost o = rview(v@);
    push_range(v, '\u{1E25}', '\u{1E25}');
    push_range(v, '\u{1E27}', '\u{1E27}');
    push_range(v, '\u{1E29}', '\u{1E29}');
    push_range(v, '\u{1E2B}', '\u{1E2B}');
    push_range(v, '\u{1E2D}', '\u{1E2D}');
    push_range(v, '\u{1E2F}', '\u{1E2F}');
    push_range(v, '\u{1E31}', '\u{1E31}');
    push_range(v, '\u{1E33}', '\u{1E33}');
    assert(rview(v@) =~= o + lowercase_letter_chunk_37());
}

fn push_lowercase_letter_chunk_38(v: &mut Vec<ClassUnicodeRange>)
    ensures
        rview(final(v)@) == rview(old(v)@) + lowercase_letter_chunk_38(),
{
    let ghost o = rview(v@);
    push_range(v, '\u{1E35}', '\u{1E35}');
    push_range(v, '\u{1E37}', '\u{1E37}');
    push_range(v, '\u{1E39}', '\u{1E39}');
    push_range(v, '\u{1E3B}', '\u{1E3B}');
    push_range(v, '\u{1E3D}', '\u{1E3D}');
    push_range(v, '\u{1E3F}', '\u{1E3F}');
    push_range(v, '\u{1E41}', '\u{1E41}');
    push_range(v, '\u{1E43}', '\u{1E43}');
    assert(rview(v@) =~= o + lowercase_letter_chunk_38());
}

fn push_lowercase_letter_chunk_39(v: &mut Vec<ClassUnicodeRange>)
    ensures
        rview(final(v)@) == rview(old(v)@) + lowercase_letter_chunk_39(),
{
    let ghost o = rview(v@);
    push_range(v, '\u{1E45}', '\u{1E45}');
    push_range(v, '\u{1E47}', '\u{1E47}');
    push_range(v, '\u{1E49}', '\u{1E49}');
    push_range(v, '\u{1E4B}', '\u{1E4B}');
    push_range(v, '\u{1E4D}', '\u{1E4D}');
    push_range(v, '\u{1E4F}', '\u{1E4F}');
    push_range(v, '\u{1E51}', '\u{1E51}');
    push_range(v, '\u{1E53}', '\u{1E53}');
    assert(rview(v@) =~= o + lowercase_letter_chunk_39());
}

fn push_lowercase_letter_chunk_40(v: &mut Vec<ClassUnicodeRange>)
    ensures
        rview(final(v)@) == rview(old(v)@) + lowercase_letter_chunk_40(),
{
    let ghost o = rview(v@);
    push_range(v, '\u{1E55}', '\u{1E55}');
    push_range(v, '\u{1E57}', '\u{1E57}');
    push_range(v, '\u{1E59}', '\u{1E59}');
    push_range(v, '\u{1E5B}', '\u{1E5B}');
    push_range(v, '\u{1E5D}', '\u{1E5D}');
    push_range(v, '\u{1E5F}', '\u{1E5F}');
    push_range(v, '\u{1E61}', '\u{1E61}');
    push_range(v, '\u{1E63}', '\u{1E63}');
    assert(rview(v@) =~= o + lowercase_letter_chunk_40());
}

fn push_lowercase_letter_chunk_41(v: &mut Vec<ClassUnicodeRange>)
    ensures
        rview(final(v)@) == rview(old(v)@) + lowercase_letter_chunk_41(),
{
    let ghost o = rview(v@);
    push_range(v, '\u{1E65}', '\u{1E65}');
    push_range(v, '\u{1E67}', '\u{1E67}');
    push_range(v, '\u{1E69}', '\u{1E69}');
    push_range(v, '\u{1E6B}', '\u{1E6B}');
    push_range(v, '\u{1E6D}', '\u{1E6D}');
    push_range(v, '\u{1E6F}', '\u{1E6F}');
    push_range(v, '\u{1E71}', '\u{1E71}');
    push_range(v, '\u{1E73}', '\u{1E73}');
    assert(rview(v@) =~= o + lowercase_letter_chunk_41());
}

fn push_lowercase_letter_chunk_42(v: &mut Vec<ClassUnicodeRange>)
    ensures
        rview(final(v)@) == rview(old(v)@) + lowercase_letter_chunk_42(),
{
    let ghost o = rview(v@);
    push_range(v, '\u{1E75}', '\u{1E75}');
    push_range(v, '\u{1E77}', '\u{1E77}');
    push_range(v, '\u{1E79}', '\u{1E79}');
    push_range(v, '\u{1E7B}', '\u{1E7B}');
    push_range(v, '\u{1E7D}', '\u{1E7D}');
    push_range(v, '\u{1E7F}', '\u{1E7F}');
    push_range(v, '\u{1E81}', '\u{1E81}');
    push_range(v, '\u{1E83}', '\u{1E83}');
    assert(rview(v@) =~= o + lowercase_letter_chunk_42());
}

fn push_lowercase_letter_chunk_43(v: &mut Vec<ClassUnicodeRange>)
    ensures
        rview(final(v)@) == rview(old(v)@) + lowercase_letter_chunk_43(),
{
    let ghost o = rview(v@);
    push_range(v, '\u{1E85}', '\u{1E85}');
    push_range(v, '\u{1E87}', '\u{1E87}');
    push_range(v, '\u{1E89}', '\u{1E89}');
    push_range(v, '\u{1E8B}', '\u{1E8B}');
    push_range(v, '\u{1E8D}', '\u{1E8D}');
    push_range(v, '\u{1E8F}', '\u{1E8F}');
    push_range(v, '\u{1E91}', '\u{1E91}');
    push_range(v, '\u{1E93}', '\u{1E93}');
    assert(rview(v@) =~= o + lowercase_letter_chunk_43());
}

fn push_lowercase_letter_chunk_44(v: &mut Vec<ClassUnicodeRange>)
    ensures
        rview(final(v)@) == rview(old(v)@) + lowercase_letter_chunk_44(),
{
    let ghost o = rview(v@);
    push_range(v, '\u{1E95}', '\u{1E9D}');
    push_range(v, '\u{1E9F}', '\u{1E9F}');
    push_range(v, '\u{1EA1}', '\u{1EA1}');
    push_range(v, '\u{1EA3}', '\u{1EA3}');
    push_range(v, '\u{1EA5}', '\u{1EA5}');
    push_range(v, '\u{1EA7}', '\u{1EA7}');
    push_range(v, '\u{1EA9}', '\u{1EA9}');
    push_range(v, '\u{1EAB}', '\u{1EAB}');
    assert(rview(v@) =~= o + lowercase_letter_chunk_44());
}

fn push_lowercase_letter_chunk_45(v: &mut Vec<ClassUnicodeRange>)
    ensures
        rview(final(v)@) == rview(old(v)@) + lowercase_letter_chunk_45(),
{
    let ghost o = rview(v@);
    push_range(v, '\u{1EAD}', '\u{1EAD}');
    push_range(v, '\u{1EAF}', '\u{1EAF}');
    push_range(v, '\u{1EB1}', '\u{1EB1}');
    push_range(v, '\u{1EB3}', '\u{1EB3}');
    push_range(v, '\u{1EB5}', '\u{1EB5}');
    push_range(v, '\u{1EB7}', '\u{1EB7}');
    push_range(v, '\u{1EB9}', '\u{1EB9}');
    push_range(v, '\u{1EBB}', '\u{1EBB}');
    assert(rview(v@) =~= o + lowercase_letter_chunk_45());
}

fn push_lowercase_letter_chunk_46(v: &mut Vec<ClassUnicodeRange>)
    ensures
        rview(final(v)@) == rview(old(v)@) + lowercase_letter_chunk_46(),
{
    let ghost o = rview(v@);
    push_range(v, '\u{1EBD}', '\u{1EBD}');
    push_range(v, '\u{1EBF}', '\u{1EBF}');
    push_range(v, '\u{1EC1}', '\u{1EC1}');
    push_range(v, '\u{1EC3}', '\u{1EC3}');
    push_range(v, '\u{1EC5}', '\u{1EC5}');
    push_range(v, '\u{1EC7}', '\u{1EC7}');
    push_range(v, '\u{1EC9}', '\u{1EC9}');
    push_range(v, '\u{1ECB}', '\u{1ECB}');
    assert(rview(v@) =~= o + lowercase_letter_chunk_46());
}

fn push_lowercase_letter_chunk_47(v: &mut Vec<ClassUnicodeRange>)
    ensures
        rview(final(v)@) == rview(old(v)@) + lowercase_letter_chunk_47(),
{
    let ghost o = rview(v@);
    push_range(v, '\u{1ECD}', '\u{1ECD}');
    push_range(v, '\u{1ECF}', '\u{1ECF}');
    push_range(v, '\u{1ED1}', '\u{1ED1}');
    push_range(v, '\u{1ED3}', '\u{1ED3}');
    push_range(v, '\u{1ED5}', '\u{1ED5}');
    push_range(v, '\u{1ED7}', '\u{1ED7}');
    push_range(v, '\u{1ED9}', '\u{1ED9}');
    push_range(v, '\u{1EDB}', '\u{1EDB}');
    assert(rview(v@) =~= o + lowercase_letter_chunk_47());
}

fn push_lowercase_letter_chunk_48(v: &mut Vec<ClassUnicodeRange>)
    ensures
        rview(final(v)@) == rview(old(v)@) + lowercase_letter_chunk_48(),
{
    let ghost o = rview(v@);
    push_range(v, '\u{1EDD}', '\u{1EDD}');
    push_range(v, '\u{1EDF}', '\u{1EDF}');
    push_range(v, '\u{1EE1}', '\u{1EE1}');
    push_range(v, '\u{1EE3}', '\u{1EE3}');
    push_range(v, '\u{1EE5}', '\u{1EE5}');
    push_range(v, '\u{1EE7}', '\u{1EE7}');
    push_range(v, '\u{1EE9}', '\u{1EE9}');
    push_range(v, '\u{1EEB}', '\u{1EEB}');
    assert(rview(v@) =~= o + lowercase_letter_chunk_48());
}

fn push_lowercase_letter_chunk_49(v: &mut Vec<ClassUnicodeRange>)
    ensures
        rview(final(v)@) == rview(old(v)@) + lowercase_letter_chunk_49(),
{
    let ghost o = rview(v@);
    push_range(v, '\u{1EED}', '\u{1EED}');
    push_range(v, '\u{1EEF}', '\u{1EEF}');
    push_range(v, '\u{1EF1}', '\u{1EF1}');
    push_range(v, '\u{1EF3}', '\u{1EF3}');
    push_range(v, '\u{1EF5}', '\u{1EF5}');
    push_range(v, '\u{1EF7}', '\u{1EF7}');
    push_range(v, '\u{1EF9}', '\u{1EF9}');
    push_range(v, '\u{1EFB}', '\u{1EFB}');
    assert(rview(v@) =~= o + lowercase_letter_chunk_49());
}

fn push_lowercase_letter_chunk_50(v: &mut Vec<ClassUnicodeRange>)
    ensures
        rview(final(v)@) == rview(old(v)@) + lowercase_letter_chunk_50(),
{
    let ghost o = rview(v@);
    push_range(v, '\u{1EFD}', '\u{1EFD}');
    push_range(v, '\u{1EFF}', '\u{1F07}');
    push_range(v, '\u{1F10}', '\u{1F15}');
    push_range(v, '\u{1F20}', '\u{1F27}');
    push_range(v, '\u{1F30}', '\u{1F37}');
    push_range(v, '\u{1F40}', '\u{1F45}');
    push_range(v, '\u{1F50}', '\u{1F57}');
    push_range(v, '\u{1F60}', '\u{1F67}');
    assert(rview(v@) =~= o + lowercase_letter_chunk_50());
}

fn push_lowercase_letter_chunk_51(v: &mut Vec<ClassUnicodeRange>)
    ensures
        rview(final(v)@) == rview(old(v)@) + lowercase_letter_chunk_51(),
{
    let ghost o = rview(v@);
    push_range(v, '\u{1F70}', '\u{1F7D}');
    push_range(v, '\u{1F80}', '\u{1F87}');
    push_range(v, '\u{1F90}', '\u{1F97}');
    push_range(v, '\u{1FA0}', '\u{1FA7}');
    push_range(v, '\u{1FB0}', '\u{1FB4}');
    push_range(v, '\u{1FB6}', '\u{1FB7}');
    push_range(v, '\u{1FBE}', '\u{1FBE}');
    push_range(v, '\u{1FC2}', '\u{1FC4}');
    assert(rview(v@) =~= o + lowercase_letter_chunk_51());
}

fn push_lowercase_letter_chunk_52(v: &mut Vec<ClassUnicodeRange>)
    ensures
        rview(final(v)@) == rview(old(v)@) + lowercase_letter_chunk_52(),
{
    let ghost o = rview(v@);
    push_range(v, '\u{1FC6}', '\u{1FC7}');
    push_range(v, '\u{1FD0}', '\u{1FD3}');
    push_range(v, '\u{1FD6}', '\u{1FD7}');
    push_range(v, '\u{1FE0}', '\u{1FE7}');
    push_range(v, '\u{1FF2}', '\u{1FF4}');
    push_range(v, '\u{1FF6}', '\u{1FF7}');
    push_range(v, '\u{210A}', '\u{210A}');
    push_range(v, '\u{210E}', '\u{210F}');
    assert(rview(v@) =~= o + lowercase_letter_chunk_52());
}

fn push_lowercase_letter_chunk_53(v: &mut Vec<ClassUnicodeRange>)
    ensures
        rview(final(v)@) == rview(old(v)@) + lowercase_letter_chunk_53(),
{
    let ghost o = rview(v@);
    push_range(v, '\u{2113}', '\u{2113}');
    push_range(v, '\u{212F}', '\u{212F}');
    push_range(v, '\u{2134}', '\u{2134}');
    push_range(v, '\u{2139}', '\u{2139}');
    push_range(v, '\u{213C}', '\u{213D}');
    push_range(v, '\u{2146}', '\u{2149}');
    push_range(v, '\u{214E}', '\u{214E}');
    push_range(v, '\u{2184}', '\u{2184}');
    assert(rview(v@) =~= o + lowercase_letter_chunk_53());
}

fn push_lowercase_letter_chunk_54(v: &mut Vec<ClassUnicodeRange>)
    ensures
        rview(final(v)@) == rview(old(v)@) + lowercase_letter_chunk_54(),
{
    let ghost o = rview(v@);
    push_range(v, '\u{2C30}', '\u{2C5F}');
    push_range(v, '\u{2C61}', '\u{2C61}');
    push_range(v, '\u{2C65}', '\u{2C66}');
    push_range(v, '\u{2C68}', '\u{2C68}');
    push_range(v, '\u{2C6A}', '\u{2C6A}');
    push_range(v, '\u{2C6C}', '\u{2C6C}');
    push_range(v, '\u{2C71}', '\u{2C71}');
    push_range(v, '\u{2C73}', '\u{2C74}');
    assert(rview(v@) =~= o + lowercase_letter_chunk_54());
}

fn push_lowercase_letter_chunk_55(v: &mut Vec<ClassUnicodeRange>)
    ensures
        rview(final(v)@) == rview(old(v)@) + lowercase_letter_chunk_55(),
{
    let ghost o = rview(v@);
    push_range(v, '\u{2C76}', '\u{2C7B}');
    push_range(v, '\u{2C81}', '\u{2C81}');
    push_range(v, '\u{2C83}', '\u{2C83}');
    push_range(v, '\u{2C85}', '\u{2C85}');
    push_range(v, '\u{2C87}', '\u{2C87}');
    push_range(v, '\u{2C89}', '\u{2C89}');
    push_range(v, '\u{2C8B}', '\u{2C8B}');
    push_range(v, '\u{2C8D}', '\u{2C8D}');
    assert(rview(v@) =~= o + lowercase_letter_chunk_55());
}

fn push_lowercase_letter_chunk_56(v: &mut Vec<ClassUnicodeRange>)
    ensures
        rview(final(v)@) == rview(old(v)@) + lowercase_letter_chunk_56(),
{
    let ghost o = rview(v@);
    push_range(v, '\u{2C8F}', '\u{2C8F}');
    push_range(v, '\u{2C91}', '\u{2C91}');
    push_range(v, '\u{2C93}', '\u{2C93}');
    push_range(v, '\u{2C95}', '\u{2C95}');
    push_range(v, '\u{2C97}', '\u{2C97}');
    push_range(v, '\u{2C99}', '\u{2C99}');
    push_range(v, '\u{2C9B}', '\u{2C9B}');
    push_range(v, '\u{2C9D}', '\u{2C9D}');
    assert(rview(v@) =~= o + lowercase_letter_chunk_56());
}

fn push_lowercase_letter_chunk_57(v: &mut Vec<ClassUnicodeRange>)
    ensures
        rview(final(v)@) == rview(old(v)@) + lowercase_letter_chunk_57(),
{
    let ghost o = rview(v@);
    push_range(v, '\u{2C9F}', '\u{2C9F}');
    push_range(v, '\u{2CA1}', '\u{2CA1}');
    push_range(v, '\u{2CA3}', '\u{2CA3}');
    push_range(v, '\u{2CA5}', '\u{2CA5}');
    push_range(v, '\u{2CA7}', '\u{2CA7}');
    push_range(v, '\u{2CA9}', '\u{2CA9}');
    push_range(v, '\u{2CAB}', '\u{2CAB}');
    push_range(v, '\u{2CAD}', '\u{2CAD}');
    assert(rview(v@) =~= o + lowercase_letter_chunk_57());
}

fn push_lowercase_letter_chunk_58(v: &mut Vec<ClassUnicodeRange>)
    ensures
        rview(final(v)@) == rview(old(v)@) + lowercase_letter_chunk_58(),
{
    let ghost o = rview(v@);
    push_range(v, '\u{2CAF}', '\u{2CAF}');
    push_range(v, '\u{2CB1}', '\u{2CB1}');
    push_range(v, '\u{2CB3}', '\u{2CB3}');
    push_range(v, '\u{2CB5}', '\u{2CB5}');
    push_range(v, '\u{2CB7}', '\u{2CB7}');
    push_range(v, '\u{2CB9}', '\u{2CB9}');
    push_range(v, '\u{2CBB}', '\u{2CBB}');
    push_range(v, '\u{2CBD}', '\u{2CBD}');
    assert(rview(v@) =~= o + lowercase_letter_chunk_58());
}

fn push_lowercase_letter_chunk_59(v: &mut Vec<ClassUnicodeRange>)
    ensures
        rview(final(v)@) == rview(old(v)@) + lowercase_letter_chunk_59(),
{
    let ghost o = rview(v@);
    push_range(v, '\u{2CBF}', '\u{2CBF}');
    push_range(v, '\u{2CC1}', '\u{2CC1}');
    push_range(v, '\u{2CC3}', '\u{2CC3}');
    push_range(v, '\u{2CC5}', '\u{2CC5}');
    push_range(v, '\u{2CC7}', '\u{2CC7}');
    push_range(v, '\u{2CC9}', '\u{2CC9}');
    push_range(v, '\u{2CCB}', '\u{2CCB}');
    push_range(v, '\u{2CCD}', '\u{2CCD}');
    assert(rview(v@) =~= o + lowercase_letter_chunk_59());
}

fn push_lowercase_letter_chunk_60(v: &mut Vec<ClassUnicodeRange>)
    ensures
        rview(final(v)@) == rview(old(v)@) + lowercase_letter_chunk_60(),
{
    let ghost o = rview(v@);
    push_range(v, '\u{2CCF}', '\u{2CCF}');
    push_range(v, '\u{2CD1}', '\u{2CD1}');
    push_range(v, '\u{2CD3}', '\u{2CD3}');
    push_range(v, '\u{2CD5}', '\u{2CD5}');
    push_range(v, '\u{2CD7}', '\u{2CD7}');
    push_range(v, '\u{2CD9}', '\u{2CD9}');
    push_range(v, '\u{2CDB}', '\u{2CDB}');
    push_range(v, '\u{2CDD}', '\u{2CDD}');
    assert(rview(v@) =~= o + lowercase_letter_chunk_60());
}

fn push_lowercase_letter_chunk_61(v: &mut Vec<ClassUnicodeRange>)
    ensures
        rview(final(v)@) == rview(old(v)@) + lowercase_letter_chunk_61(),
{
    let ghost o = rview(v@);
    push_range(v, '\u{2CDF}', '\u{2CDF}');
    push_range(v, '\u{2CE1}', '\u{2CE1}');
    push_range(v, '\u{2CE3}', '\u{2CE4}');
    push_range(v, '\u{2CEC}', '\u{2CEC}');
    push_range(v, '\u{2CEE}', '\u{2CEE}');
    push_range(v, '\u{2CF3}', '\u{2CF3}');
    push_range(v, '\u{2D00}', '\u{2D25}');
    push_range(v, '\u{2D27}', '\u{2D27}');
    assert(rview(v@) =~= o + lowercase_letter_chunk_61());
}

fn push_lowercase_letter_chunk_62(v: &mut Vec<ClassUnicodeRange>)
    ensures
        rview(final(v)@) == rview(old(v)@) + lowercase_letter_chunk_62(),
{
    let ghost o = rview(v@);
    push_range(v, '\u{2D2D}', '\u{2D2D}');
    push_range(v, '\u{A641}', '\u{A641}');
    push_range(v, '\u{A643}', '\u{A643}');
    push_range(v, '\u{A645}', '\u{A645}');
    push_range(v, '\u{A647}', '\u{A647}');
    push_range(v, '\u{A649}', '\u{A649}');
    push_range(v, '\u{A64B}', '\u{A64B}');
    push_range(v, '\u{A64D}', '\u{A64D}');
    assert(rview(v@) =~= o + lowercase_letter_chunk_62());
}

fn push_lowercase_letter_chunk_63(v: &mut Vec<ClassUnicodeRange>)
    ensures
        rview(final(v)@) == rview(old(v)@) + lowercase_letter_chunk_63(),
{
    let ghost o = rview(v@);
    push_range(v, '\u{A64F}', '\u{A64F}');
    push_range(v, '\u{A651}', '\u{A651}');
    push_range(v, '\u{A653}', '\u{A653}');
    push_range(v, '\u{A655}', '\u{A655}');
    push_range(v, '\u{A657}', '\u{A657}');
    push_range(v, '\u{A659}', '\u{A659}');
    push_range(v, '\u{A65B}', '\u{A65B}');
    push_range(v, '\u{A65D}', '\u{A65D}');
    assert(rview(v@) =~= o + lowercase_letter_chunk_63());
}

fn push_lowercase_letter_chunk_64(v: &mut Vec<ClassUnicodeRange>)
    ensures
        rview(final(v)@) == rview(old(v)@) + lowercase_letter_chunk_64(),
{
    let ghost o = rview(v@);
    push_range(v, '\u{A65F}', '\u{A65F}');
    push_range(v, '\u{A661}', '\u{A661}');
    push_range(v, '\u{A663}', '\u{A663}');
    push_range(v, '\u{A665}', '\u{A665}');
    push_range(v, '\u{A667}', '\u{A667}');
    push_range(v, '\u{A669}', '\u{A669}');
    push_range(v, '\u{A66B}', '\u{A66B}');
    push_range(v, '\u{A66D}', '\u{A66D}');
    assert(rview(v@) =~= o + lowercase_letter_chunk_64());
}

fn push_lowercase_letter_chunk_65(v: &mut Vec<ClassUnicodeRange>)
    ensures
        rview(final(v)@) == rview(old(v)@) + lowercase_letter_chunk_65(),
{
    let ghost o = rview(v@);
    push_range(v, '\u{A681}', '\u{A681}');
    push_range(v, '\u{A683}', '\u{A683}');
    push_range(v, '\u{A685}', '\u{A685}');
    push_range(v, '\u{A687}', '\u{A687}');
    push_range(v, '\u{A689}', '\u{A689}');
    push_range(v, '\u{A68B}', '\u{A68B}');
    push_range(v, '\u{A68D}', '\u{A68D}');
    push_range(v, '\u{A68F}', '\u{A68F}');
    assert(rview(v@) =~= o + lowercase_letter_chunk_65());
}

fn push_lowercase_letter_chunk_66(v: &mut Vec<ClassUnicodeRange>)
    ensures
        rview(final(v)@) == rview(old(v)@) + lowercase_letter_chunk_66(),
{
    let ghost o = rview(v@);
    push_range(v, '\u{A691}', '\u{A691}');
    push_range(v, '\u{A693}', '\u{A693}');
    push_range(v, '\u{A695}', '\u{A695}');
    push_range(v, '\u{A697}', '\u{A697}');
    push_range(v, '\u{A699}', '\u{A699}');
    push_range(v, '\u{A69B}', '\u{A69B}');
    push_range(v, '\u{A723}', '\u{A723}');
    push_range(v, '\u{A725}', '\u{A725}');
    assert(rview(v@) =~= o + lowercase_letter_chunk_66());
}

fn push_lowercase_letter_chunk_67(v: &mut Vec<ClassUnicodeRange>)
    ensures
        rview(final(v)@) == rview(old(v)@) + lowercase_letter_chunk_67(),
{
    let ghost o = rview(v@);
    push_range(v, '\u{A727}', '\u{A727}');
    push_range(v, '\u{A729}', '\u{A729}');
    push_range(v, '\u{A72B}', '\u{A72B}');
    push_range(v, '\u{A72D}', '\u{A72D}');
    push_range(v, '\u{A72F}', '\u{A731}');
    push_range(v, '\u{A733}', '\u{A733}');
    push_range(v, '\u{A735}', '\u{A735}');
    push_range(v, '\u{A737}', '\u{A737}');
    assert(rview(v@) =~= o + lowercase_letter_chunk_67());
}

fn push_lowercase_letter_chunk_68(v: &mut Vec<ClassUnicodeRange>)
    ensures
        rview(final(v)@) == rview(old(v)@) + lowercase_letter_chunk_68(),
{
    let ghost o = rview(v@);
    push_range(v, '\u{A739}', '\u{A739}');
    push_range(v, '\u{A73B}', '\u{A73B}');
    push_range(v, '\u{A73D}', '\u{A73D}');
    push_range(v, '\u{A73F}', '\u{A73F}');
    push_range(v, '\u{A741}', '\u{A741}');
    push_range(v, '\u{A743}', '\u{A743}');
    push_range(v, '\u{A745}', '\u{A745}');
    push_range(v, '\u{A747}', '\u{A747}');
    assert(rview(v@) =~= o + lowercase_letter_chunk_68());
}

fn push_lowercase_letter_chunk_69(v: &mut Vec<ClassUnicodeRange>)
    ensures
        rview(final(v)@) == rview(old(v)@) + lowercase_letter_chunk_69(),
{
    let ghost o = rview(v@);
    push_range(v, '\u{A749}', '\u{A749}');
    push_range(v, '\u{A74B}', '\u{A74B}');
    push_range(v, '\u{A74D}', '\u{A74D}');
    push_range(v, '\u{A74F}', '\u{A74F}');
    push_range(v, '\u{A751}', '\u{A751}');
    push_range(v, '\u{A753}', '\u{A753}');
    push_range(v, '\u{A755}', '\u{A755}');
    push_range(v, '\u{A757}', '\u{A757}');
    assert(rview(v@) =~= o + lowercase_letter_chunk_69());
}

fn push_lowercase_letter_chunk_70(v: &mut Vec<ClassUnicodeRange>)
    ensures
        rview(final(v)@) == rview(old(v)@) + lowercase_letter_chunk_70(),
{
    let ghost o = rview(v@);
    push_range(v, '\u{A759}', '\u{A759}');
    push_range(v, '\u{A75B}', '\u{A75B}');
    push_range(v, '\u{A75D}', '\u{A75D}');
    push_range(v, '\u{A75F}', '\u{A75F}');
    push_range(v, '\u{A761}', '\u{A761}');
    push_range(v, '\u{A763}', '\u{A763}');
    push_range(v, '\u{A765}', '\u{A765}');
    push_range(v, '\u{A767}', '\u{A767}');
    assert(rview(v@) =~= o + lowercase_letter_chunk_70());
}

fn push_lowercase_letter_chunk_71(v: &mut Vec<ClassUnicodeRange>)
    ensures
        rview(final(v)@) == rview(old(v)@) + lowercase_letter_chunk_71(),
{
    let ghost o = rview(v@);
    push_range(v, '\u{A769}', '\u{A769}');
    push_range(v, '\u{A76B}', '\u{A76B}');
    push_range(v, '\u{A76D}', '\u{A76D}');
    push_range(v, '\u{A76F}', '\u{A76F}');
    push_range(v, '\u{A771}', '\u{A778}');
    push_range(v, '\u{A77A}', '\u{A77A}');
    push_range(v, '\u{A77C}', '\u{A77C}');
    push_range(v, '\u{A77F}', '\u{A77F}');
    assert(rview(v@) =~= o + lowercase_letter_chunk_71());
}

fn push_lowercase_letter_chunk_72(v: &mut Vec<ClassUnicodeRange>)
    ensures
        rview(final(v)@) == rview(old(v)@) + lowercase_letter_chunk_72(),
{
    let ghost o = rview(v@);
    push_range(v, '\u{A781}', '\u{A781}');
    push_range(v, '\u{A783}', '\u{A783}');
    push_range(v, '\u{A785}', '\u{A785}');
    push_range(v, '\u{A787}', '\u{A787}');
    push_range(v, '\u{A78C}', '\u{A78C}');
    push_range(v, '\u{A78E}', '\u{A78E}');
    push_range(v, '\u{A791}', '\u{A791}');
    push_range(v, '\u{A793}', '\u{A795}');
    assert(rview(v@) =~= o + lowercase_letter_chunk_72());
}

fn push_lowercase_letter_chunk_73(v: &mut Vec<ClassUnicodeRange>)
    ensures
        rview(final(v)@) == rview(old(v)@) + lowercase_letter_chunk_73(),
{
    let ghost o = rview(v@);
    push_range(v, '\u{A797}', '\u{A797}');
    push_range(v, '\u{A799}', '\u{A799}');
    push_range(v, '\u{A79B}', '\u{A79B}');
    push_range(v, '\u{A79D}', '\u{A79D}');
    push_range(v, '\u{A79F}', '\u{A79F}');
    push_range(v, '\u{A7A1}', '\u{A7A1}');
    push_range(v, '\u{A7A3}', '\u{A7A3}');
    push_range(v, '\u{A7A5}', '\u{A7A5}');
    assert(rview(v@) =~= o + lowercase_letter_chunk_73());
}

fn push_lowercase_letter_chunk_74(v: &mut Vec<ClassUnicodeRange>)
    ensures
        rview(final(v)@) == rview(old(v)@) + lowercase_letter_chunk_74(),
{
    let ghost o = rview(v@);
    push_range(v, '\u{A7A7}', '\u{A7A7}');
    push_range(v, '\u{A7A9}', '\u{A7A9}');
    push_range(v, '\u{A7AF}', '\u{A7AF}');
    push_range(v, '\u{A7B5}', '\u{A7B5}');
    push_range(v, '\u{A7B7}', '\u{A7B7}');
    push_range(v, '\u{A7B9}', '\u{A7B9}');
    push_range(v, '\u{A7BB}', '\u{A7BB}');
    push_range(v, '\u{A7BD}', '\u{A7BD}');
    assert(rview(v@) =~= o + lowercase_letter_chunk_74());
}

fn push_lowercase_letter_chunk_75(v: &mut Vec<ClassUnicodeRange>)
    ensures
        rview(final(v)@) == rview(old(v)@) + lowercase_letter_chunk_75(),
{
    let ghost o = rview(v@);
    push_range(v, '\u{A7BF}', '\u{A7BF}');
    push_range(v, '\u{A7C1}', '\u{A7C1}');
    push_range(v, '\u{A7C3}', '\u{A7C3}');
    push_range(v, '\u{A7C8}', '\u{A7C8}');
    push_range(v, '\u{A7CA}', '\u{A7CA}');
    push_range(v, '\u{A7CD}', '\u{A7CD}');
    push_range(v, '\u{A7D1}', '\u{A7D1}');
    push_range(v, '\u{A7D3}', '\u{A7D3}');
    assert(rview(v@) =~= o + lowercase_letter_chunk_75());
}

fn push_lowercase_letter_chunk_76(v: &mut Vec<ClassUnicodeRange>)
    ensures
        rview(final(v)@) == rview(old(v)@) + lowercase_letter_chunk_76(),
{
    let ghost o = rview(v@);
    push_range(v, '\u{A7D5}', '\u{A7D5}');
    push_range(v, '\u{A7D7}', '\u{A7D7}');
    push_range(v, '\u{A7D9}', '\u{A7D9}');
    push_range(v, '\u{A7DB}', '\u{A7DB}');
    push_range(v, '\u{A7F6}', '\u{A7F6}');
    push_range(v, '\u{A7FA}', '\u{A7FA}');
    push_range(v, '\u{AB30}', '\u{AB5A}');
    push_range(v, '\u{AB60}', '\u{AB68}');
    assert(rview(v@) =~= o + lowercase_letter_chunk_76());
}

fn push_lowercase_letter_chunk_77(v: &mut Vec<ClassUnicodeRange>)
    ensures
        rview(final(v)@) == rview(old(v)@) + lowercase_letter_chunk_77(),
{
    let ghost o = rview(v@);
    push_range(v, '\u{AB70}', '\u{ABBF}');
    push_range(v, '\u{FB00}', '\u{FB06}');
    push_range(v, '\u{FB13}', '\u{FB17}');
    push_range(v, '\u{FF41}', '\u{FF5A}');
    push_range(v, '\u{10428}', '\u{1044F}');
    push_range(v, '\u{104D8}', '\u{104FB}');
    push_range(v, '\u{10597}', '\u{105A1}');
    push_range(v, '\u{105A3}', '\u{105B1}');
    assert(rview(v@) =~= o + lowercase_letter_chunk_77());
}

fn push_lowercase_letter_chunk_78(v: &mut Vec<ClassUnicodeRange>)
    ensures
        rview(final(v)@) == rview(old(v)@) + lowercase_letter_chunk_78(),
{
    let ghost o = rview(v@);
    push_range(v, '\u{105B3}', '\u{105B9}');
    push_range(v, '\u{105BB}', '\u{105BC}');
    push_range(v, '\u{10CC0}', '\u{10CF2}');
    push_range(v, '\u{10D70}', '\u{10D85}');
    push_range(v, '\u{118C0}', '\u{118DF}');
    push_range(v, '\u{16E60}', '\u{16E7F}');
    push_range(v, '\u{1D41A}', '\u{1D433}');
    push_range(v, '\u{1D44E}', '\u{1D454}');
    assert(rview(v@) =~= o + lowercase_letter_chunk_78());
}

fn push_lowercase_letter_chunk_79(v: &mut Vec<ClassUnicodeRange>)
    ensures
        rview(final(v)@) == rview(old(v)@) + lowercase_letter_chunk_79(),
{
    let ghost o = rview(v@);
    push_range(v, '\u{1D456}', '\u{1D467}');
    push_range(v, '\u{1D482}', '\u{1D49B}');
    push_range(v, '\u{1D4B6}', '\u{1D4B9}');
    push_range(v, '\u{1D4BB}', '\u{1D4BB}');
    push_range(v, '\u{1D4BD}', '\u{1D4C3}');
    push_range(v, '\u{1D4C5}', '\u{1D4CF}');
    push_range(v, '\u{1D4EA}', '\u{1D503}');
    push_range(v, '\u{1D51E}', '\u{1D537}');
    assert(rview(v@) =~= o + lowercase_letter_chunk_79());
}

fn push_lowercase_letter_chunk_80(v: &mut Vec<ClassUnicodeRange>)
    ensures
        rview(final(v)@) == rview(old(v)@) + lowercase_letter_chunk_80(),
{
    let ghost o = rview(v@);
    push_range(v, '\u{1D552}', '\u{1D56B}');
    push_range(v, '\u{1D586}', '\u{1D59F}');
    push_range(v, '\u{1D5BA}', '\u{1D5D3}');
    push_range(v, '\u{1D5EE}', '\u{1D607}');
    push_range(v, '\u{1D622}', '\u{1D63B}');
    push_range(v, '\u{1D656}', '\u{1D66F}');
    push_range(v, '\u{1D68A}', '\u{1D6A5}');
    push_range(v, '\u{1D6C2}', '\u{1D6DA}');
    assert(rview(v@) =~= o + lowercase_letter_chunk_80());
}

fn push_lowercase_letter_chunk_81(v: &mut Vec<ClassUnicodeRange>)
    ensures
        rview(final(v)@) == rview(old(v)@) + lowercase_letter_chunk_81(),
{
    let ghost o = rview(v@);
    push_range(v, '\u{1D6DC}', '\u{1D6E1}');
    push_range(v, '\u{1D6FC}', '\u{1D714}');
    push_range(v, '\u{1D716}', '\u{1D71B}');
    push_range(v, '\u{1D736}', '\u{1D74E}');
    push_range(v, '\u{1D750}', '\u{1D755}');
    push_range(v, '\u{1D770}', '\u{1D788}');
    push_range(v, '\u{1D78A}', '\u{1D78F}');
    push_range(v, '\u{1D7AA}', '\u{1D7C2}');
    assert(rview(v@) =~= o + lowercase_letter_chunk_81());
}

fn push_lowercase_letter_chunk_82(v: &mut Vec<ClassUnicodeRange>)
    ensures
        rview(final(v)@) == rview(old(v)@) + lowercase_letter_chunk_82(),
{
    let ghost o = rview(v@);
    push_range(v, '\u{1D7C4}', '\u{1D7C9}');
    push_range(v, '\u{1D7CB}', '\u{1D7CB}');
    push_range(v, '\u{1DF00}', '\u{1DF09}');
    push_range(v, '\u{1DF0B}', '\u{1DF1E}');
    push_range(v, '\u{1DF25}', '\u{1DF2A}');
    push_range(v, '\u{1E922}', '\u{1E943}');
    assert(rview(v@) =~= o + lowercase_letter_chunk_82());
}

fn push_lowercase_letter_block_0(v: &mut Vec<ClassUnicodeRange>)
    ensures
        rview(final(v)@) == rview(old(v)@) + lowercase_letter_block_0(),
{
    let ghost o = rview(v@);
    push_lowercase_letter_chunk_0(v);
    assert(rview(v@) =~= o + (lowercase_letter_chunk_0()));
    push_lowercase_letter_chunk_1(v);
    assert(rview(v@) =~= o + (lowercase_letter_chunk_0() + lowercase_letter_chunk_1()));
    push_lowercase_letter_chunk_2(v);
    assert(rview(v@) =~= o + (lowercase_letter_chunk_0() + lowercase_letter_chunk_1() + lowercase_letter_chunk_2()));
    push_lowercase_letter_chunk_3(v);
    assert(rview(v@) =~= o + (lowercase_letter_chunk_0() + lowercase_letter_chunk_1() + lowercase_letter_chunk_2() + lowercase_letter_chunk_3()));
    push_lowercase_letter_chunk_4(v);
    assert(rview(v@) =~= o + (lowercase_letter_chunk_0() + lowercase_letter_chunk_1() + lowercase_letter_chunk_2() + lowercase_letter_chunk_3() + lowercase_letter_chunk_4()));
    push_lowercase_letter_chunk_5(v);
    assert(rview(v@) =~= o + (lowercase_letter_chunk_0() + lowercase_letter_chunk_1() + lowercase_letter_chunk_2() + lowercase_letter_chunk_3() + lowercase_letter_chunk_4() + lowercase_letter_chunk_5()));
    push_lowercase_letter_chunk_6(v);
    assert(rview(v@) =~= o + (lowercase_letter_chunk_0() + lowercase_letter_chunk_1() + lowercase_letter_chunk_2() + lowercase_letter_chunk_3() + lowercase_letter_chunk_4() + lowercase_letter_chunk_5() + lowercase_letter_chunk_6()));
    push_lowercase_letter_chunk_7(v);
    assert(rview(v@) =~= o + (lowercase_letter_chunk_0() + lowercase_letter_chunk_1() + lowercase_letter_chunk_2() + lowercase_letter_chunk_3() + lowercase_letter_chunk_4() + lowercase_letter_chunk_5() + lowercase_letter_chunk_6() + lowercase_letter_chunk_7()));
    push_lowercase_letter_chunk_8(v);
    assert(rview(v@) =~= o + (lowercase_letter_chunk_0() + lowercase_letter_chunk_1() + lowercase_letter_chunk_2() + lowercase_letter_chunk_3() + lowercase_letter_chunk_4() + lowercase_letter_chunk_5() + lowercase_letter_chunk_6() + lowercase_letter_chunk_7() + lowercase_letter_chunk_8()));
    push_lowercase_letter_chunk_9(v);
    assert(rview(v@) =~= o + (lowercase_letter_chunk_0() + lowercase_letter_chunk_1() + lowercase_letter_chunk_2() + lowercase_letter_chunk_3() + lowercase_letter_chunk_4() + lowercase_letter_chunk_5() + lowercase_letter_chunk_6() + lowercase_letter_chunk_7() + lowercase_letter_chunk_8() + lowercase_letter_chunk_9()));
}

fn push_lowercase_letter_block_1(v: &mut Vec<ClassUnicodeRange>)
    ensures
        rview(final(v)@) == rview(old(v)@) + lowercase_letter_block_1(),
{
    let ghost o = rview(v@);
    push_lowercase_letter_chunk_10(v);
    assert(rview(v@) =~= o + (lowercase_letter_chunk_10()));
    push_lowercase_letter_chunk_11(v);
    assert(rview(v@) =~= o + (lowercase_letter_chunk_10() + lowercase_letter_chunk_11()));
    push_lowercase_letter_chunk_12(v);
    assert(rview(v@) =~= o + (lowercase_letter_chunk_10() + lowercase_letter_chunk_11() + lowercase_letter_chunk_12()));
    push_lowercase_letter_chunk_13(v);
    assert(rview(v@) =~= o + (lowercase_letter_chunk_10() + lowercase_letter_chunk_11() + lowercase_letter_chunk_12() + lowercase_letter_chunk_13()));
    push_lowercase_letter_chunk_14(v);
    assert(rview(v@) =~= o + (lowercase_letter_chunk_10() + lowercase_letter_chunk_11() + lowercase_letter_chunk_12() + lowercase_letter_chunk_13() + lowercase_letter_chunk_14()));
    push_lowercase_letter_chunk_15(v);
    assert(rview(v@) =~= o + (lowercase_letter_chunk_10() + lowercase_letter_chunk_11() + lowercase_letter_chunk_12() + lowercase_letter_chunk_13() + lowercase_letter_chunk_14() + lowercase_letter_chunk_15()));
    push_lowercase_letter_chunk_16(v);
    assert(rview(v@) =~= o + (lowercase_letter_chunk_10() + lowercase_letter_chunk_11() + lowercase_letter_chunk_12() + lowercase_letter_chunk_13() + lowercase_letter_chunk_14() + lowercase_letter_chunk_15() + lowercase_letter_chunk_16()));
    push_lowercase_letter_chunk_17(v);
    assert(rview(v@) =~= o + (lowercase_letter_chunk_10() + lowercase_letter_chunk_11() + lowercase_letter_chunk_12() + lowercase_letter_chunk_13() + lowercase_letter_chunk_14() + lowercase_letter_chunk_15() + lowercase_letter_chunk_16() + lowercase_letter_chunk_17()));
    push_lowercase_letter_chunk_18(v);
    assert(rview(v@) =~= o + (lowercase_letter_chunk_10() + lowercase_letter_chunk_11() + lowercase_letter_chunk_12() + lowercase_letter_chunk_13() + lowercase_letter_chunk_14() + lowercase_letter_chunk_15() + lowercase_letter_chunk_16() + lowercase_letter_chunk_17() + lowercase_letter_chunk_18()));
    push_lowercase_letter_chunk_19(v);
    assert(rview(v@) =~= o + (lowercase_letter_chunk_10() + lowercase_letter_chunk_11() + lowercase_letter_chunk_12() + lowercase_letter_chunk_13() + lowercase_letter_chunk_14() + lowercase_letter_chunk_15() + lowercase_letter_chunk_16() + lowercase_letter_chunk_17() + lowercase_letter_chunk_18() + lowercase_letter_chunk_19()));
}

fn push_lowercase_letter_block_2(v: &mut Vec<ClassUnicodeRange>)
    ensures
        rview(final(v)@) == rview(old(v)@) + lowercase_letter_block_2(),
{
    let ghost o = rview(v@);
    push_lowercase_letter_chunk_20(v);
    assert(rview(v@) =~= o + (lowercase_letter_chunk_20()));
    push_lowercase_letter_chunk_21(v);
    assert(rview(v@) =~= o + (lowercase_letter_chunk_20() + lowercase_letter_chunk_21()));
    push_lowercase_letter_chunk_22(v);
    assert(rview(v@) =~= o + (lowercase_letter_chunk_20() + lowercase_letter_chunk_21() + lowercase_letter_chunk_22()));
    push_lowercase_letter_chunk_23(v);
    assert(rview(v@) =~= o + (lowercase_letter_chunk_20() + lowercase_letter_chunk_21() + lowercase_letter_chunk_22() + lowercase_letter_chunk_23()));
    push_lowercase_letter_chunk_24(v);
    assert(rview(v@) =~= o + (lowercase_letter_chunk_20() + lowercase_letter_chunk_21() + lowercase_letter_chunk_22() + lowercase_letter_chunk_23() + lowercase_letter_chunk_24()));
    push_lowercase_letter_chunk_25(v);
    assert(rview(v@) =~= o + (lowercase_letter_chunk_20() + lowercase_letter_chunk_21() + lowercase_letter_chunk_22() + lowercase_letter_chunk_23() + lowercase_letter_chunk_24() + lowercase_letter_chunk_25()));
    push_lowercase_letter_chunk_26(v);
    assert(rview(v@) =~= o + (lowercase_letter_chunk_20() + lowercase_letter_chunk_21() + lowercase_letter_chunk_22() + lowercase_letter_chunk_23() + lowercase_letter_chunk_24() + lowercase_letter_chunk_25() + lowercase_letter_chunk_26()));
    push_lowercase_letter_chunk_27(v);
    assert(rview(v@) =~= o + (lowercase_letter_chunk_20() + lowercase_letter_chunk_21() + lowercase_letter_chunk_22() + lowercase_letter_chunk_23() + lowercase_letter_chunk_24() + lowercase_letter_chunk_25() + lowercase_letter_chunk_26() + lowercase_letter_chunk_27()));
    push_lowercase_letter_chunk_28(v);
    assert(rview(v@) =~= o + (lowercase_letter_chunk_20() + lowercase_letter_chunk_21() + lowercase_letter_chunk_22() + lowercase_letter_chunk_23() + lowercase_letter_chunk_24() + lowercase_letter_chunk_25() + lowercase_letter_chunk_26() + lowercase_letter_chunk_27() + lowercase_letter_chunk_28()));
    push_lowercase_letter_chunk_29(v);
    assert(rview(v@) =~= o + (lowercase_letter_chunk_20() + lowercase_letter_chunk_21() + lowercase_letter_chunk_22() + lowercase_letter_chunk_23() + lowercase_letter_chunk_24() + lowercase_letter_chunk_25() + lowercase_letter_chunk_26() + lowercase_letter_chunk_27() + lowercase_letter_chunk_28() + lowercase_letter_chunk_29()));
}

fn push_lowercase_letter_block_3(v: &mut Vec<ClassUnicodeRange>)
    ensures
        rview(final(v)@) == rview(old(v)@) + lowercase_letter_block_3(),
{
    let ghost o = rview(v@);
    push_lowercase_letter_chunk_30(v);
    assert(rview(v@) =~= o + (lowercase_letter_chunk_30()));
    push_lowercase_letter_chunk_31(v);
    assert(rview(v@) =~= o + (lowercase_letter_chunk_30() + lowercase_letter_chunk_31()));
    push_lowercase_letter_chunk_32(v);
    assert(rview(v@) =~= o + (lowercase_letter_chunk_30() + lowercase_letter_chunk_31() + lowercase_letter_chunk_32()));
    push_lowercase_letter_chunk_33(v);
    assert(rview(v@) =~= o + (lowercase_letter_chunk_30() + lowercase_letter_chunk_31() + lowercase_letter_chunk_32() + lowercase_letter_chunk_33()));
    push_lowercase_letter_chunk_34(v);
    assert(rview(v@) =~= o + (lowercase_letter_chunk_30() + lowercase_letter_chunk_31() + lowercase_letter_chunk_32() + lowercase_letter_chunk_33() + lowercase_letter_chunk_34()));
    push_lowercase_letter_chunk_35(v);
    assert(rview(v@) =~= o + (lowercase_letter_chunk_30() + lowercase_letter_chunk_31() + lowercase_letter_chunk_32() + lowercase_letter_chunk_33() + lowercase_letter_chunk_34() + lowercase_letter_chunk_35()));
    push_lowercase_letter_chunk_36(v);
    assert(rview(v@) =~= o + (lowercase_letter_chunk_30() + lowercase_letter_chunk_31() + lowercase_letter_chunk_32() + lowercase_letter_chunk_33() + lowercase_letter_chunk_34() + lowercase_letter_chunk_35() + lowercase_letter_chunk_36()));
    push_lowercase_letter_chunk_37(v);
    assert(rview(v@) =~= o + (lowercase_letter_chunk_30() + lowercase_letter_chunk_31() + lowercase_letter_chunk_32() + lowercase_letter_chunk_33() + lowercase_letter_chunk_34() + lowercase_letter_chunk_35() + lowercase_letter_chunk_36() + lowercase_letter_chunk_37()));
    push_lowercase_letter_chunk_38(v);
    assert(rview(v@) =~= o + (lowercase_letter_chunk_30() + lowercase_letter_chunk_31() + lowercase_letter_chunk_32() + lowercase_letter_chunk_33() + lowercase_letter_chunk_34() + lowercase_letter_chunk_35() + lowercase_letter_chunk_36() + lowercase_letter_chunk_37() + lowercase_letter_chunk_38()));
    push_lowercase_letter_chunk_39(v);
    assert(rview(v@) =~= o + (lowercase_letter_chunk_30() + lowercase_letter_chunk_31() + lowercase_letter_chunk_32() + lowercase_letter_chunk_33() + lowercase_letter_chunk_34() + lowercase_letter_chunk_35() + lowercase_letter_chunk_36() + lowercase_letter_chunk_37() + lowercase_letter_chunk_38() + lowercase_letter_chunk_39()));
}

fn push_lowercase_letter_block_4(v: &mut Vec<ClassUnicodeRange>)
    ensures
        rview(final(v)@) == rview(old(v)@) + lowercase_letter_block_4(),
{
    let ghost o = rview(v@);
    push_lowercase_letter_chunk_40(v);
    assert(rview(v@) =~= o + (lowercase_letter_chunk_40()));
    push_lowercase_letter_chunk_41(v);
    assert(rview(v@) =~= o + (lowercase_letter_chunk_40() + lowercase_letter_chunk_41()));
    push_lowercase_letter_chunk_42(v);
    assert(rview(v@) =~= o + (lowercase_letter_chunk_40() + lowercase_letter_chunk_41() + lowercase_letter_chunk_42()));
    push_lowercase_letter_chunk_43(v);
    assert(rview(v@) =~= o + (lowercase_letter_chunk_40() + lowercase_letter_chunk_41() + lowercase_letter_chunk_42() + lowercase_letter_chunk_43()));
    push_lowercase_letter_chunk_44(v);
    assert(rview(v@) =~= o + (lowercase_letter_chunk_40() + lowercase_letter_chunk_41() + lowercase_letter_chunk_42() + lowercase_letter_chunk_43() + lowercase_letter_chunk_44()));
    push_lowercase_letter_chunk_45(v);
    assert(rview(v@) =~= o + (lowercase_letter_chunk_40() + lowercase_letter_chunk_41() + lowercase_letter_chunk_42() + lowercase_letter_chunk_43() + lowercase_letter_chunk_44() + lowercase_letter_chunk_45()));
    push_lowercase_letter_chunk_46(v);
    assert(rview(v@) =~= o + (lowercase_letter_chunk_40() + lowercase_letter_chunk_41() + lowercase_letter_chunk_42() + lowercase_letter_chunk_43() + lowercase_letter_chunk_44() + lowercase_letter_chunk_45() + lowercase_letter_chunk_46()));
    push_lowercase_letter_chunk_47(v);
    assert(rview(v@) =~= o + (lowercase_letter_chunk_40() + lowercase_letter_chunk_41() + lowercase_letter_chunk_42() + lowercase_letter_chunk_43() + lowercase_letter_chunk_44() + lowercase_letter_chunk_45() + lowercase_letter_chunk_46() + lowercase_letter_chunk_47()));
    push_lowercase_letter_chunk_48(v);
    assert(rview(v@) =~= o + (lowercase_letter_chunk_40() + lowercase_letter_chunk_41() + lowercase_letter_chunk_42() + lowercase_letter_chunk_43() + lowercase_letter_chunk_44() + lowercase_letter_chunk_45() + lowercase_letter_chunk_46() + lowercase_letter_chunk_47() + lowercase_letter_chunk_48()));
    push_lowercase_letter_chunk_49(v);
    assert(rview(v@) =~= o + (lowercase_letter_chunk_40() + lowercase_letter_chunk_41() + lowercase_letter_chunk_42() + lowercase_letter_chunk_43() + lowercase_letter_chunk_44() + lowercase_letter_chunk_45() + lowercase_letter_chunk_46() + lowercase_letter_chunk_47() + lowercase_letter_chunk_48() + lowercase_letter_chunk_49()));
}

fn push_lowercase_letter_block_5(v: &mut Vec<ClassUnicodeRange>)
    ensures
        rview(final(v)@) == rview(old(v)@) + lowercase_letter_block_5(),
{
    let ghost o = rview(v@);
    push_lowercase_letter_chunk_50(v);
    assert(rview(v@) =~= o + (lowercase_letter_chunk_50()));
    push_lowercase_letter_chunk_51(v);
    assert(rview(v@) =~= o + (lowercase_letter_chunk_50() + lowercase_letter_chunk_51()));
    push_lowercase_letter_chunk_52(v);
    assert(rview(v@) =~= o + (lowercase_letter_chunk_50() + lowercase_letter_chunk_51() + lowercase_letter_chunk_52()));
    push_lowercase_letter_chunk_53(v);
    assert(rview(v@) =~= o + (lowercase_letter_chunk_50() + lowercase_letter_chunk_51() + lowercase_letter_chunk_52() + lowercase_letter_chunk_53()));
    push_lowercase_letter_chunk_54(v);
    assert(rview(v@) =~= o + (lowercase_letter_chunk_50() + lowercase_letter_chunk_51() + lowercase_letter_chunk_52() + lowercase_letter_chunk_53() + lowercase_letter_chunk_54()));
    push_lowercase_letter_chunk_55(v);
    assert(rview(v@) =~= o + (lowercase_letter_chunk_50() + lowercase_letter_chunk_51() + lowercase_letter_chunk_52() + lowercase_letter_chunk_53() + lowercase_letter_chunk_54() + lowercase_letter_chunk_55()));
    push_lowercase_letter_chunk_56(v);
    assert(rview(v@) =~= o + (lowercase_letter_chunk_50() + lowercase_letter_chunk_51() + lowercase_letter_chunk_52() + lowercase_letter_chunk_53() + lowercase_letter_chunk_54() + lowercase_letter_chunk_55() + lowercase_letter_chunk_56()));
    push_lowercase_letter_chunk_57(v);
    assert(rview(v@) =~= o + (lowercase_letter_chunk_50() + lowercase_letter_chunk_51() + lowercase_letter_chunk_52() + lowercase_letter_chunk_53() + lowercase_letter_chunk_54() + lowercase_letter_chunk_55() + lowercase_letter_chunk_56() + lowercase_letter_chunk_57()));
    push_lowercase_letter_chunk_58(v);
    assert(rview(v@) =~= o + (lowercase_letter_chunk_50() + lowercase_letter_chunk_51() + lowercase_letter_chunk_52() + lowercase_letter_chunk_53() + lowercase_letter_chunk_54() + lowercase_letter_chunk_55() + lowercase_letter_chunk_56() + lowercase_letter_chunk_57() + lowercase_letter_chunk_58()));
    push_lowercase_letter_chunk_59(v);
    assert(rview(v@) =~= o + (lowercase_letter_chunk_50() + lowercase_letter_chunk_51() + lowercase_letter_chunk_52() + lowercase_letter_chunk_53() + lowercase_letter_chunk_54() + lowercase_letter_chunk_55() + lowercase_letter_chunk_56() + lowercase_letter_chunk_57() + lowercase_letter_chunk_58() + lowercase_letter_chunk_59()));
}

fn push_lowercase_letter_block_6(v: &mut Vec<ClassUnicodeRange>)
    ensures
        rview(final(v)@) == rview(old(v)@) + lowercase_letter_block_6(),
{
    let ghost o = rview(v@);
    push_lowercase_letter_chunk_60(v);
    assert(rview(v@) =~= o + (lowercase_letter_chunk_60()));
    push_lowercase_letter_chunk_61(v);
    assert(rview(v@) =~= o + (lowercase_letter_chunk_60() + lowercase_letter_chunk_61()));
    push_lowercase_letter_chunk_62(v);
    assert(rview(v@) =~= o + (lowercase_letter_chunk_60() + lowercase_letter_chunk_61() + lowercase_letter_chunk_62()));
    push_lowercase_letter_chunk_63(v);
    assert(rview(v@) =~= o + (lowercase_letter_chunk_60() + lowercase_letter_chunk_61() + lowercase_letter_chunk_62() + lowercase_letter_chunk_63()));
    push_lowercase_letter_chunk_64(v);
    assert(rview(v@) =~= o + (lowercase_letter_chunk_60() + lowercase_letter_chunk_61() + lowercase_letter_chunk_62() + lowercase_letter_chunk_63() + lowercase_letter_chunk_64()));
    push_lowercase_letter_chunk_65(v);
    assert(rview(v@) =~= o + (lowercase_letter_chunk_60() + lowercase_letter_chunk_61() + lowercase_letter_chunk_62() + lowercase_letter_chunk_63() + lowercase_letter_chunk_64() + lowercase_letter_chunk_65()));
    push_lowercase_letter_chunk_66(v);
    assert(rview(v@) =~= o + (lowercase_letter_chunk_60() + lowercase_letter_chunk_61() + lowercase_letter_chunk_62() + lowercase_letter_chunk_63() + lowercase_letter_chunk_64() + lowercase_letter_chunk_65() + lowercase_letter_chunk_66()));
    push_lowercase_letter_chunk_67(v);
    assert(rview(v@) =~= o + (lowercase_letter_chunk_60() + lowercase_letter_chunk_61() + lowercase_letter_chunk_62() + lowercase_letter_chunk_63() + lowercase_letter_chunk_64() + lowercase_letter_chunk_65() + lowercase_letter_chunk_66() + lowercase_letter_chunk_67()));
    push_lowercase_letter_chunk_68(v);
    assert(rview(v@) =~= o + (lowercase_letter_chunk_60() + lowercase_letter_chunk_61() + lowercase_letter_chunk_62() + lowercase_letter_chunk_63() + lowercase_letter_chunk_64() + lowercase_letter_chunk_65() + lowercase_letter_chunk_66() + lowercase_letter_chunk_67() + lowercase_letter_chunk_68()));
    push_lowercase_letter_chunk_69(v);
    assert(rview(v@) =~= o + (lowercase_letter_chunk_60() + lowercase_letter_chunk_61() + lowercase_letter_chunk_62() + lowercase_letter_chunk_63() + lowercase_letter_chunk_64() + lowercase_letter_chunk_65() + lowercase_letter_chunk_66() + lowercase_letter_chunk_67() + lowercase_letter_chunk_68() + lowercase_letter_chunk_69()));
}

fn push_lowercase_letter_block_7(v: &mut Vec<ClassUnicodeRange>)
    ensures
        rview(final(v)@) == rview(old(v)@) + lowercase_letter_block_7(),
{
    let ghost o = rview(v@);
    push_lowercase_letter_chunk_70(v);
    assert(rview(v@) =~= o + (lowercase_letter_chunk_70()));
    push_lowercase_letter_chunk_71(v);
    assert(rview(v@) =~= o + (lowercase_letter_chunk_70() + lowercase_letter_chunk_71()));
    push_lowercase_letter_chunk_72(v);
    assert(rview(v@) =~= o + (lowercase_letter_chunk_70() + lowercase_letter_chunk_71() + lowercase_letter_chunk_72()));
    push_lowercase_letter_chunk_73(v);
    assert(rview(v@) =~= o + (lowercase_letter_chunk_70() + lowercase_letter_chunk_71() + lowercase_letter_chunk_72() + lowercase_letter_chunk_73()));
    push_lowercase_letter_chunk_74(v);
    assert(rview(v@) =~= o + (lowercase_letter_chunk_70() + lowercase_letter_chunk_71() + lowercase_letter_chunk_72() + lowercase_letter_chunk_73() + lowercase_letter_chunk_74()));
    push_lowercase_letter_chunk_75(v);
    assert(rview(v@) =~= o + (lowercase_letter_chunk_70() + lowercase_letter_chunk_71() + lowercase_letter_chunk_72() + lowercase_letter_chunk_73() + lowercase_letter_chunk_74() + lowercase_letter_chunk_75()));
    push_lowercase_letter_chunk_76(v);
    assert(rview(v@) =~= o + (lowercase_letter_chunk_70() + lowercase_letter_chunk_71() + lowercase_letter_chunk_72() + lowercase_letter_chunk_73() + lowercase_letter_chunk_74() + lowercase_letter_chunk_75() + lowercase_letter_chunk_76()));
    push_lowercase_letter_chunk_77(v);
    assert(rview(v@) =~= o + (lowercase_letter_chunk_70() + lowercase_letter_chunk_71() + lowercase_letter_chunk_72() + lowercase_letter_chunk_73() + lowercase_letter_chunk_74() + lowercase_letter_chunk_75() + lowercase_letter_chunk_76() + lowercase_letter_chunk_77()));
    push_lowercase_letter_chunk_78(v);
    assert(rview(v@) =~= o + (lowercase_letter_chunk_70() + lowercase_letter_chunk_71() + lowercase_letter_chunk_72() + lowercase_letter_chunk_73() + lowercase_letter_chunk_74() + lowercase_letter_chunk_75() + lowercase_letter_chunk_76() + lowercase_letter_chunk_77() + lowercase_letter_chunk_78()));
    push_lowercase_letter_chunk_79(v);
    assert(rview(v@) =~= o + (lowercase_letter_chunk_70() + lowercase_letter_chunk_71() + lowercase_letter_chunk_72() + lowercase_letter_chunk_73() + lowercase_letter_chunk_74() + lowercase_letter_chunk_75() + lowercase_letter_chunk_76() + lowercase_letter_chunk_77() + lowercase_letter_chunk_78() + lowercase_letter_chunk_79()));
}

fn push_lowercase_letter_block_8(v: &mut Vec<ClassUnicodeRange>)
    ensures
        rview(final(v)@) == rview(old(v)@) + lowercase_letter_block_8(),
{
    let ghost o = rview(v@);
    push_lowercase_letter_chunk_80(v);
    assert(rview(v@) =~= o + (lowercase_letter_chunk_80()));
    push_lowercase_letter_chunk_81(v);
    assert(rview(v@) =~= o + (lowercase_letter_chunk_80() + lowercase_letter_chunk_81()));
    push_lowercase_letter_chunk_82(v);
    assert(rview(v@) =~= o + (lowercase_letter_chunk_80() + lowercase_letter_chunk_81() + lowercase_letter_chunk_82()));
}

/// The ranges of the general category Lowercase_Letter.
pub fn lowercase_letter_class() -> (v: Vec<ClassUnicodeRange>)
    ensures
        rview(v@) == lowercase_letter_ranges(),
{
    let mut v: Vec<ClassUnicodeRange> = Vec::new();
    assert(rview(v@) =~= Seq::<SRange>::empty());
    push_lowercase_letter_block_0(&mut v);
    assert(rview(v@) =~= lowercase_letter_block_0());
    push_lowercase_letter_block_1(&mut v);
    assert(rview(v@) =~= lowercase_letter_block_0() + lowercase_letter_block_1());
    push_lowercase_letter_block_2(&mut v);
    assert(rview(v@) =~= lowercase_letter_block_0() + lowercase_letter_block_1() + lowercase_letter_block_2());
    push_lowercase_letter_block_3(&mut v);
    assert(rview(v@) =~= lowercase_letter_block_0() + lowercase_letter_block_1() + lowercase_letter_block_2() + lowercase_letter_block_3());
    push_lowercase_letter_block_4(&mut v);
    assert(rview(v@) =~= lowercase_letter_block_0() + lowercase_letter_block_1() + lowercase_letter_block_2() + lowercase_letter_block_3() + lowercase_letter_block_4());
    push_lowercase_letter_block_5(&mut v);
    assert(rview(v@) =~= lowercase_letter_block_0() + lowercase_letter_block_1() + lowercase_letter_block_2() + lowercase_letter_block_3() + lowercase_letter_block_4() + lowercase_letter_block_5());
    push_lowercase_letter_block_6(&mut v);
    assert(rview(v@) =~= lowercase_letter_block_0() + lowercase_letter_block_1() + lowercase_letter_block_2() + lowercase_letter_block_3() + lowercase_letter_block_4() + lowercase_letter_block_5() + lowercase_letter_block_6());
    push_lowercase_letter_block_7(&mut v);
    assert(rview(v@) =~= lowercase_letter_block_0() + lowercase_letter_block_1() + lowercase_letter_block_2() + lowercase_letter_block_3() + lowercase_letter_block_4() + lowercase_letter_block_5() + lowercase_letter_block_6() + lowercase_letter_block_7());
    push_lowercase_letter_block_8(&mut v);
    assert(rview(v@) =~= lowercase_letter_block_0() + lowercase_letter_block_1() + lowercase_letter_block_2() + lowercase_letter_block_3() + lowercase_letter_block_4() + lowercase_letter_block_5() + lowercase_letter_block_6() + lowercase_letter_block_7() + lowercase_letter_block_8());
    v
}

pub open spec fn mark_chunk_0() -> Seq<SRange> {
    seq![(0x300int, 0x36Fint), (0x483int, 0x489int), (0x591int, 0x5BDint), (0x5BFint, 0x5BFint), (0x5C1int, 0x5C2int), (0x5C4int, 0x5C5int), (0x5C7int, 0x5C7int), (0x610int, 0x61Aint)]
}

pub open spec fn mark_chunk_1() -> Seq<SRange> {
    seq![(0x64Bint, 0x65Fint), (0x670int, 0x670int), (0x6D6int, 0x6DCint), (0x6DFint, 0x6E4int), (0x6E7int, 0x6E8int), (0x6EAint, 0x6EDint), (0x711int, 0x711int), (0x730int, 0x74Aint)]
}

pub open spec fn mark_chunk_2() -> Seq<SRange> {
    seq![(0x7A6int, 0x7B0int), (0x7EBint, 0x7F3int), (0x7FDint, 0x7FDint), (0x816int, 0x819int), (0x81Bint, 0x823int), (0x825int, 0x827int), (0x829int, 0x82Dint), (0x859int, 0x85Bint)]
}

pub open spec fn mark_chunk_3() -> Seq<SRange> {
    seq![(0x897int, 0x89Fint), (0x8CAint, 0x8E1int), (0x8E3int, 0x903int), (0x93Aint, 0x93Cint), (0x93Eint, 0x94Fint), (0x951int, 0x957int), (0x962int, 0x963int), (0x981int, 0x983int)]
}

pub open spec fn mark_chunk_4() -> Seq<SRange> {
    seq![(0x9BCint, 0x9BCint), (0x9BEint, 0x9C4int), (0x9C7int, 0x9C8int), (0x9CBint, 0x9CDint), (0x9D7int, 0x9D7int), (0x9E2int, 0x9E3int), (0x9FEint, 0x9FEint), (0xA01int, 0xA03int)]
}

pub open spec fn mark_chunk_5() -> Seq<SRange> {
    seq![(0xA3Cint, 0xA3Cint), (0xA3Eint, 0xA42int), (0xA47int, 0xA48int), (0xA4Bint, 0xA4Dint), (0xA51int, 0xA51int), (0xA70int, 0xA71int), (0xA75int, 0xA75int), (0xA81int, 0xA83int)]
}

pub open spec fn mark_chunk_6() -> Seq<SRange> {
    seq![(0xABCint, 0xABCint), (0xABEint, 0xAC5int), (0xAC7int, 0xAC9int), (0xACBint, 0xACDint), (0xAE2int, 0xAE3int), (0xAFAint, 0xAFFint), (0xB01int, 0xB03int), (0xB3Cint, 0xB3Cint)]
}

pub open spec fn mark_chunk_7() -> Seq<SRange> {
    seq![(0xB3Eint, 0xB44int), (0xB47int, 0xB48int), (0xB4Bint, 0xB4Dint), (0xB55int, 0xB57int), (0xB62int, 0xB63int), (0xB82int, 0xB82int), (0xBBEint, 0xBC2int), (0xBC6int, 0xBC8int)]
}

pub open spec fn mark_chunk_8() -> Seq<SRange> {
    seq![(0xBCAint, 0xBCDint), (0xBD7int, 0xBD7int), (0xC00int, 0xC04int), (0xC3Cint, 0xC3Cint), (0xC3Eint, 0xC44int), (0xC46int, 0xC48int), (0xC4Aint, 0xC4Dint), (0xC55int, 0xC56int)]
}

pub open spec fn mark_chunk_9() -> Seq<SRange> {
    seq![(0xC62int, 0xC63int), (0xC81int, 0xC83int), (0xCBCint, 0xCBCint), (0xCBEint, 0xCC4int), (0xCC6int, 0xCC8int), (0xCCAint, 0xCCDint), (0xCD5int, 0xCD6int), (0xCE2int, 0xCE3int)]
}

pub open spec fn mark_chunk_10() -> Seq<SRange> {
    seq![(0xCF3int, 0xCF3int), (0xD00int, 0xD03int), (0xD3Bint, 0xD3Cint), (0xD3Eint, 0xD44int), (0xD46int, 0xD48int), (0xD4Aint, 0xD4Dint), (0xD57int, 0xD57int), (0xD62int, 0xD63int)]
}

pub open spec fn mark_chunk_11() -> Seq<SRange> {
    seq![(0xD81int, 0xD83int), (0xDCAint, 0xDCAint), (0xDCFint, 0xDD4int), (0xDD6int, 0xDD6int), (0xDD8int, 0xDDFint), (0xDF2int, 0xDF3int), (0xE31int, 0xE31int), (0xE34int, 0xE3Aint)]
}

pub open spec fn mark_chunk_12() -> Seq<SRange> {
    seq![(0xE47int, 0xE4Eint), (0xEB1int, 0xEB1int), (0xEB4int, 0xEBCint), (0xEC8int, 0xECEint), (0xF18int, 0xF19int), (0xF35int, 0xF35int), (0xF37int, 0xF37int), (0xF39int, 0xF39int)]
}

pub open spec fn mark_chunk_13() -> Seq<SRange> {
    seq![(0xF3Eint, 0xF3Fint), (0xF71int, 0xF84int), (0xF86int, 0xF87int), (0xF8Dint, 0xF97int), (0xF99int, 0xFBCint), (0xFC6int, 0xFC6int), (0x102Bint, 0x103Eint), (0x1056int, 0x1059int)]
}

pub open spec fn mark_chunk_14() -> Seq<SRange> {
    seq![(0x105Eint, 0x1060int), (0x1062int, 0x1064int), (0x1067int, 0x106Dint), (0x1071int, 0x1074int), (0x1082int, 0x108Dint), (0x108Fint, 0x108Fint), (0x109Aint, 0x109Dint), (0x135Dint, 0x135Fint)]
}

pub open spec fn mark_chunk_15() -> Seq<SRange> {
    seq![(0x1712int, 0x1715int), (0x1732int, 0x1734int), (0x1752int, 0x1753int), (0x1772int, 0x1773int), (0x17B4int, 0x17D3int), (0x17DDint, 0x17DDint), (0x180Bint, 0x180Dint), (0x180Fint, 0x180Fint)]
}

pub open spec fn mark_chunk_16() -> Seq<SRange> {
    seq![(0x1885int, 0x1886int), (0x18A9int, 0x18A9int), (0x1920int, 0x192Bint), (0x1930int, 0x193Bint), (0x1A17int, 0x1A1Bint), (0x1A55int, 0x1A5Eint), (0x1A60int, 0x1A7Cint), (0x1A7Fint, 0x1A7Fint)]
}

pub open spec fn mark_chunk_17() -> Seq<SRange> {
    seq![(0x1AB0int, 0x1ACEint), (0x1B00int, 0x1B04int), (0x1B34int, 0x1B44int), (0x1B6Bint, 0x1B73int), (0x1B80int, 0x1B82int), (0x1BA1int, 0x1BADint), (0x1BE6int, 0x1BF3int), (0x1C24int, 0x1C37int)]
}

pub open spec fn mark_chunk_18() -> Seq<SRange> {
    seq![(0x1CD0int, 0x1CD2int), (0x1CD4int, 0x1CE8int), (0x1CEDint, 0x1CEDint), (0x1CF4int, 0x1CF4int), (0x1CF7int, 0x1CF9int), (0x1DC0int, 0x1DFFint), (0x20D0int, 0x20F0int), (0x2CEFint, 0x2CF1int)]
}

pub open spec fn mark_chunk_19() -> Seq<SRange> {
    seq![(0x2D7Fint, 0x2D7Fint), (0x2DE0int, 0x2DFFint), (0x302Aint, 0x302Fint), (0x3099int, 0x309Aint), (0xA66Fint, 0xA672int), (0xA674int, 0xA67Dint), (0xA69Eint, 0xA69Fint), (0xA6F0int, 0xA6F1int)]
}

pub open spec fn mark_chunk_20() -> Seq<SRange> {
    seq![(0xA802int, 0xA802int), (0xA806int, 0xA806int), (0xA80Bint, 0xA80Bint), (0xA823int, 0xA827int), (0xA82Cint, 0xA82Cint), (0xA880int, 0xA881int), (0xA8B4int, 0xA8C5int), (0xA8E0int, 0xA8F1int)]
}

pub open spec fn mark_chunk_21() -> Seq<SRange> {
    seq![(0xA8FFint, 0xA8FFint), (0xA926int, 0xA92Dint), (0xA947int, 0xA953int), (0xA980int, 0xA983int), (0xA9B3int, 0xA9C0int), (0xA9E5int, 0xA9E5int), (0xAA29int, 0xAA36int), (0xAA43int, 0xAA43int)]
}

pub open spec fn mark_chunk_22() -> Seq<SRange> {
    seq![(0xAA4Cint, 0xAA4Dint), (0xAA7Bint, 0xAA7Dint), (0xAAB0int, 0xAAB0int), (0xAAB2int, 0xAAB4int), (0xAAB7int, 0xAAB8int), (0xAABEint, 0xAABFint), (0xAAC1int, 0xAAC1int), (0xAAEBint, 0xAAEFint)]
}

pub open spec fn mark_chunk_23() -> Seq<SRange> {
    seq![(0xAAF5int, 0xAAF6int), (0xABE3int, 0xABEAint), (0xABECint, 0xABEDint), (0xFB1Eint, 0xFB1Eint), (0xFE00int, 0xFE0Fint), (0xFE20int, 0xFE2Fint), (0x101FDint, 0x101FDint), (0x102E0int, 0x102E0int)]
}

pub open spec fn mark_chunk_24() -> Seq<SRange> {
    seq![(0x10376int, 0x1037Aint), (0x10A01int, 0x10A03int), (0x10A05int, 0x10A06int), (0x10A0Cint, 0x10A0Fint), (0x10A38int, 0x10A3Aint), (0x10A3Fint, 0x10A3Fint), (0x10AE5int, 0x10AE6int), (0x10D24int, 0x10D27int)]
}

pub open spec fn mark_chunk_25() -> Seq<SRange> {
    seq![(0x10D69int, 0x10D6Dint), (0x10EABint, 0x10EACint), (0x10EFCint, 0x10EFFint), (0x10F46int, 0x10F50int), (0x10F82int, 0x10F85int), (0x11000int, 0x11002int), (0x11038int, 0x11046int), (0x11070int, 0x11070int)]
}

pub open spec fn mark_chunk_26() -> Seq<SRange> {
    seq![(0x11073int, 0x11074int), (0x1107Fint, 0x11082int), (0x110B0int, 0x110BAint), (0x110C2int, 0x110C2int), (0x11100int, 0x11102int), (0x11127int, 0x11134int), (0x11145int, 0x11146int), (0x11173int, 0x11173int)]
}

pub open spec fn mark_chunk_27() -> Seq<SRange> {
    seq![(0x11180int, 0x11182int), (0x111B3int, 0x111C0int), (0x111C9int, 0x111CCint), (0x111CEint, 0x111CFint), (0x1122Cint, 0x11237int), (0x1123Eint, 0x1123Eint), (0x11241int, 0x11241int), (0x112DFint, 0x112EAint)]
}

pub open spec fn mark_chunk_28() -> Seq<SRange> {
    seq![(0x11300int, 0x11303int), (0x1133Bint, 0x1133Cint), (0x1133Eint, 0x11344int), (0x11347int, 0x11348int), (0x1134Bint, 0x1134Dint), (0x11357int, 0x11357int), (0x11362int, 0x11363int), (0x11366int, 0x1136Cint)]
}

pub open spec fn mark_chunk_29() -> Seq<SRange> {
    seq![(0x11370int, 0x11374int), (0x113B8int, 0x113C0int), (0x113C2int, 0x113C2int), (0x113C5int, 0x113C5int), (0x113C7int, 0x113CAint), (0x113CCint, 0x113D0int), (0x113D2int, 0x113D2int), (0x113E1int, 0x113E2int)]
}

pub open spec fn mark_chunk_30() -> Seq<SRange> {
    seq![(0x11435int, 0x11446int), (0x1145Eint, 0x1145Eint), (0x114B0int, 0x114C3int), (0x115AFint, 0x115B5int), (0x115B8int, 0x115C0int), (0x115DCint, 0x115DDint), (0x11630int, 0x11640int), (0x116ABint, 0x116B7int)]
}

pub open spec fn mark_chunk_31() -> Seq<SRange> {
    seq![(0x1171Dint, 0x1172Bint), (0x1182Cint, 0x1183Aint), (0x11930int, 0x11935int), (0x11937int, 0x11938int), (0x1193Bint, 0x1193Eint), (0x11940int, 0x11940int), (0x11942int, 0x11943int), (0x119D1int, 0x119D7int)]
}

pub open spec fn mark_chunk_32() -> Seq<SRange> {
    seq![(0x119DAint, 0x119E0int), (0x119E4int, 0x119E4int), (0x11A01int, 0x11A0Aint), (0x11A33int, 0x11A39int), (0x11A3Bint, 0x11A3Eint), (0x11A47int, 0x11A47int), (0x11A51int, 0x11A5Bint), (0x11A8Aint, 0x11A99int)]
}

pub open spec fn mark_chunk_33() -> Seq<SRange> {
    seq![(0x11C2Fint, 0x11C36int), (0x11C38int, 0x11C3Fint), (0x11C92int, 0x11CA7int), (0x11CA9int, 0x11CB6int), (0x11D31int, 0x11D36int), (0x11D3Aint, 0x11D3Aint), (0x11D3Cint, 0x11D3Dint), (0x11D3Fint, 0x11D45int)]
}

pub open spec fn mark_chunk_34() -> Seq<SRange> {
    seq![(0x11D47int, 0x11D47int), (0x11D8Aint, 0x11D8Eint), (0x11D90int, 0x11D91int), (0x11D93int, 0x11D97int), (0x11EF3int, 0x11EF6int), (0x11F00int, 0x11F01int), (0x11F03int, 0x11F03int), (0x11F34int, 0x11F3Aint)]
}

pub open spec fn mark_chunk_35() -> Seq<SRange> {
    seq![(0x11F3Eint, 0x11F42int), (0x11F5Aint, 0x11F5Aint), (0x13440int, 0x13440int), (0x13447int, 0x13455int), (0x1611Eint, 0x1612Fint), (0x16AF0int, 0x16AF4int), (0x16B30int, 0x16B36int), (0x16F4Fint, 0x16F4Fint)]
}

pub open spec fn mark_chunk_36() -> Seq<SRange> {
    seq![(0x16F51int, 0x16F87int), (0x16F8Fint, 0x16F92int), (0x16FE4int, 0x16FE4int), (0x16FF0int, 0x16FF1int), (0x1BC9Dint, 0x1BC9Eint), (0x1CF00int, 0x1CF2Dint), (0x1CF30int, 0x1CF46int), (0x1D165int, 0x1D169int)]
}

pub open spec fn mark_chunk_37() -> Seq<SRange> {
    seq![(0x1D16Dint, 0x1D172int), (0x1D17Bint, 0x1D182int), (0x1D185int, 0x1D18Bint), (0x1D1AAint, 0x1D1ADint), (0x1D242int, 0x1D244int), (0x1DA00int, 0x1DA36int), (0x1DA3Bint, 0x1DA6Cint), (0x1DA75int, 0x1DA75int)]
}

pub open spec fn mark_chunk_38() -> Seq<SRange> {
    seq![(0x1DA84int, 0x1DA84int), (0x1DA9Bint, 0x1DA9Fint), (0x1DAA1int, 0x1DAAFint), (0x1E000int, 0x1E006int), (0x1E008int, 0x1E018int), (0x1E01Bint, 0x1E021int), (0x1E023int, 0x1E024int), (0x1E026int, 0x1E02Aint)]
}

pub open spec fn mark_chunk_39() -> Seq<SRange> {
    seq![(0x1E08Fint, 0x1E08Fint), (0x1E130int, 0x1E136int), (0x1E2AEint, 0x1E2AEint), (0x1E2ECint, 0x1E2EFint), (0x1E4ECint, 0x1E4EFint), (0x1E5EEint, 0x1E5EFint), (0x1E8D0int, 0x1E8D6int), (0x1E944int, 0x1E94Aint)]
}

pub open spec fn mark_chunk_40() -> Seq<SRange> {
    seq![(0xE0100int, 0xE01EFint)]
}

pub open spec fn mark_block_0() -> Seq<SRange> {
    mark_chunk_0() + mark_chunk_1() + mark_chunk_2() + mark_chunk_3() + mark_chunk_4() + mark_chunk_5() + mark_chunk_6() + mark_chunk_7() + mark_chunk_8() + mark_chunk_9()
}

pub open spec fn mark_block_1() -> Seq<SRange> {
    mark_chunk_10() + mark_chunk_11() + mark_chunk_12() + mark_chunk_13() + mark_chunk_14() + mark_chunk_15() + mark_chunk_16() + mark_chunk_17() + mark_chunk_18() + mark_chunk_19()
}

pub open spec fn mark_block_2() -> Seq<SRange> {
    mark_chunk_20() + mark_chunk_21() + mark_chunk_22() + mark_chunk_23() + mark_chunk_24() + mark_chunk_25() + mark_chunk_26() + mark_chunk_27() + mark_chunk_28() + mark_chunk_29()
}

pub open spec fn mark_block_3() -> Seq<SRange> {
    mark_chunk_30() + mark_chunk_31() + mark_chunk_32() + mark_chunk_33() + mark_chunk_34() + mark_chunk_35() + mark_chunk_36() + mark_chunk_37() + mark_chunk_38() + mark_chunk_39()
}

pub open spec fn mark_block_4() -> Seq<SRange> {
    mark_chunk_40()
}

/// The ranges of the general category Mark.
pub open spec fn mark_ranges() -> Seq<SRange> {
    mark_block_0() + mark_block_1() + mark_block_2() + mark_block_3() + mark_block_4()
}

proof fn lemma_mark_block_0()
    ensures
        canonical(mark_block_0()),
        mark_block_0().len() > 0,
        mark_block_0()[0] == mark_chunk_0()[0],
        mark_block_0().last() == mark_chunk_9().last(),
{
    reveal_with_fuel(canonical, 9);
    assert(canonical(mark_chunk_0()));
    assert(canonical(mark_chunk_1()));
    assert(canonical(mark_chunk_2()));
    assert(canonical(mark_chunk_3()));
    assert(canonical(mark_chunk_4()));
    assert(canonical(mark_chunk_5()));
    assert(canonical(mark_chunk_6()));
    assert(canonical(mark_chunk_7()));
    assert(canonical(mark_chunk_8()));
    assert(canonical(mark_chunk_9()));
    lemma_canonical_append(mark_chunk_0(), mark_chunk_1());
    lemma_canonical_append(mark_chunk_0() + mark_chunk_1(), mark_chunk_2());
    lemma_canonical_append(mark_chunk_0() + mark_chunk_1() + mark_chunk_2(), mark_chunk_3());
    lemma_canonical_append(mark_chunk_0() + mark_chunk_1() + mark_chunk_2() + mark_chunk_3(), mark_chunk_4());
    lemma_canonical_append(mark_chunk_0() + mark_chunk_1() + mark_chunk_2() + mark_chunk_3() + mark_chunk_4(), mark_chunk_5());
    lemma_canonical_append(mark_chunk_0() + mark_chunk_1() + mark_chunk_2() + mark_chunk_3() + mark_chunk_4() + mark_chunk_5(), mark_chunk_6());
    lemma_canonical_append(mark_chunk_0() + mark_chunk_1() + mark_chunk_2() + mark_chunk_3() + mark_chunk_4() + mark_chunk_5() + mark_chunk_6(), mark_chunk_7());
    lemma_canonical_append(mark_chunk_0() + mark_chunk_1() + mark_chunk_2() + mark_chunk_3() + mark_chunk_4() + mark_chunk_5() + mark_chunk_6() + mark_chunk_7(), mark_chunk_8());
    lemma_canonical_append(mark_chunk_0() + mark_chunk_1() + mark_chunk_2() + mark_chunk_3() + mark_chunk_4() + mark_chunk_5() + mark_chunk_6() + mark_chunk_7() + mark_chunk_8(), mark_chunk_9());
}

proof fn lemma_mark_block_1()
    ensures
        canonical(mark_block_1()),
        mark_block_1().len() > 0,
        mark_block_1()[0] == mark_chunk_10()[0],
        mark_block_1().last() == mark_chunk_19().last(),
{
    reveal_with_fuel(canonical, 9);
    assert(canonical(mark_chunk_10()));
    assert(canonical(mark_chunk_11()));
    assert(canonical(mark_chunk_12()));
    assert(canonical(mark_chunk_13()));
    assert(canonical(mark_chunk_14()));
    assert(canonical(mark_chunk_15()));
    assert(canonical(mark_chunk_16()));
    assert(canonical(mark_chunk_17()));
    assert(canonical(mark_chunk_18()));
    assert(canonical(mark_chunk_19()));
    lemma_canonical_append(mark_chunk_10(), mark_chunk_11());
    lemma_canonical_append(mark_chunk_10() + mark_chunk_11(), mark_chunk_12());
    lemma_canonical_append(mark_chunk_10() + mark_chunk_11() + mark_chunk_12(), mark_chunk_13());
    lemma_canonical_append(mark_chunk_10() + mark_chunk_11() + mark_chunk_12() + mark_chunk_13(), mark_chunk_14());
    lemma_canonical_append(mark_chunk_10() + mark_chunk_11() + mark_chunk_12() + mark_chunk_13() + mark_chunk_14(), mark_chunk_15());
    lemma_canonical_append(mark_chunk_10() + mark_chunk_11() + mark_chunk_12() + mark_chunk_13() + mark_chunk_14() + mark_chunk_15(), mark_chunk_16());
    lemma_canonical_append(mark_chunk_10() + mark_chunk_11() + mark_chunk_12() + mark_chunk_13() + mark_chunk_14() + mark_chunk_15() + mark_chunk_16(), mark_chunk_17());
    lemma_canonical_append(mark_chunk_10() + mark_chunk_11() + mark_chunk_12() + mark_chunk_13() + mark_chunk_14() + mark_chunk_15() + mark_chunk_16() + mark_chunk_17(), mark_chunk_18());
    lemma_canonical_append(mark_chunk_10() + mark_chunk_11() + mark_chunk_12() + mark_chunk_13() + mark_chunk_14() + mark_chunk_15() + mark_chunk_16() + mark_chunk_17() + mark_chunk_18(), mark_chunk_19());
}

proof fn lemma_mark_block_2()
    ensures
        canonical(mark_block_2()),
        mark_block_2().len() > 0,
        mark_block_2()[0] == mark_chunk_20()[0],
        mark_block_2().last() == mark_chunk_29().last(),
{
    reveal_with_fuel(canonical, 9);
    assert(canonical(mark_chunk_20()));
    assert(canonical(mark_chunk_21()));
    assert(canonical(mark_chunk_22()));
    assert(canonical(mark_chunk_23()));
    assert(canonical(mark_chunk_24()));
    assert(canonical(mark_chunk_25()));
    assert(canonical(mark_chunk_26()));
    assert(canonical(mark_chunk_27()));
    assert(canonical(mark_chunk_28()));
    assert(canonical(mark_chunk_29()));
    lemma_canonical_append(mark_chunk_20(), mark_chunk_21());
    lemma_canonical_append(mark_chunk_20() + mark_chunk_21(), mark_chunk_22());
    lemma_canonical_append(mark_chunk_20() + mark_chunk_21() + mark_chunk_22(), mark_chunk_23());
    lemma_canonical_append(mark_chunk_20() + mark_chunk_21() + mark_chunk_22() + mark_chunk_23(), mark_chunk_24());
    lemma_canonical_append(mark_chunk_20() + mark_chunk_21() + mark_chunk_22() + mark_chunk_23() + mark_chunk_24(), mark_chunk_25());
    lemma_canonical_append(mark_chunk_20() + mark_chunk_21() + mark_chunk_22() + mark_chunk_23() + mark_chunk_24() + mark_chunk_25(), mark_chunk_26());
    lemma_canonical_append(mark_chunk_20() + mark_chunk_21() + mark_chunk_22() + mark_chunk_23() + mark_chunk_24() + mark_chunk_25() + mark_chunk_26(), mark_chunk_27());
    lemma_canonical_append(mark_chunk_20() + mark_chunk_21() + mark_chunk_22() + mark_chunk_23() + mark_chunk_24() + mark_chunk_25() + mark_chunk_26() + mark_chunk_27(), mark_chunk_28());
    lemma_canonical_append(mark_chunk_20() + mark_chunk_21() + mark_chunk_22() + mark_chunk_23() + mark_chunk_24() + mark_chunk_25() + mark_chunk_26() + mark_chunk_27() + mark_chunk_28(), mark_chunk_29());
}

proof fn lemma_mark_block_3()
    ensures
        canonical(mark_block_3()),
        mark_block_3().len() > 0,
        mark_block_3()[0] == mark_chunk_30()[0],
        mark_block_3().last() == mark_chunk_39().last(),
{
    reveal_with_fuel(canonical, 9);
    assert(canonical(mark_chunk_30()));
    assert(canonical(mark_chunk_31()));
    assert(canonical(mark_chunk_32()));
    assert(canonical(mark_chunk_33()));
    assert(canonical(mark_chunk_34()));
    assert(canonical(mark_chunk_35()));
    assert(canonical(mark_chunk_36()));
    assert(canonical(mark_chunk_37()));
    assert(canonical(mark_chunk_38()));
    assert(canonical(mark_chunk_39()));
    lemma_canonical_append(mark_chunk_30(), mark_chunk_31());
    lemma_canonical_append(mark_chunk_30() + mark_chunk_31(), mark_chunk_32());
    lemma_canonical_append(mark_chunk_30() + mark_chunk_31() + mark_chunk_32(), mark_chunk_33());
    lemma_canonical_append(mark_chunk_30() + mark_chunk_31() + mark_chunk_32() + mark_chunk_33(), mark_chunk_34());
    lemma_canonical_append(mark_chunk_30() + mark_chunk_31() + mark_chunk_32() + mark_chunk_33() + mark_chunk_34(), mark_chunk_35());
    lemma_canonical_append(mark_chunk_30() + mark_chunk_31() + mark_chunk_32() + mark_chunk_33() + mark_chunk_34() + mark_chunk_35(), mark_chunk_36());
    lemma_canonical_append(mark_chunk_30() + mark_chunk_31() + mark_chunk_32() + mark_chunk_33() + mark_chunk_34() + mark_chunk_35() + mark_chunk_36(), mark_chunk_37());
    lemma_canonical_append(mark_chunk_30() + mark_chunk_31() + mark_chunk_32() + mark_chunk_33() + mark_chunk_34() + mark_chunk_35() + mark_chunk_36() + mark_chunk_37(), mark_chunk_38());
    lemma_canonical_append(mark_chunk_30() + mark_chunk_31() + mark_chunk_32() + mark_chunk_33() + mark_chunk_34() + mark_chunk_35() + mark_chunk_36() + mark_chunk_37() + mark_chunk_38(), mark_chunk_39());
}

proof fn lemma_mark_block_4()
    ensures
        canonical(mark_block_4()),
        mark_block_4().len() > 0,
        mark_block_4()[0] == mark_chunk_40()[0],
        mark_block_4().last() == mark_chunk_40().last(),
{
    reveal_with_fuel(canonical, 9);
    assert(canonical(mark_chunk_40()));
}

/// The general category Mark is a canonical class.
pub proof fn lemma_mark_canonical()
    ensures
        canonical(mark_ranges()),
{
    lemma_mark_block_0();
    lemma_mark_block_1();
    lemma_mark_block_2();
    lemma_mark_block_3();
    lemma_mark_block_4();
    lemma_canonical_append(mark_block_0(), mark_block_1());
    lemma_canonical_append(mark_block_0() + mark_block_1(), mark_block_2());
    lemma_canonical_append(mark_block_0() + mark_block_1() + mark_block_2(), mark_block_3());
    lemma_canonical_append(mark_block_0() + mark_block_1() + mark_block_2() + mark_block_3(), mark_block_4());
}

fn push_mark_chunk_0(v: &mut Vec<ClassUnicodeRange>)
    ensures
        rview(final(v)@) == rview(old(v)@) + mark_chunk_0(),
{
    let ghost o = rview(v@);
    push_range(v, '\u{300}', '\u{36F}');
    push_range(v, '\u{483}', '\u{489}');
    push_range(v, '\u{591}', '\u{5BD}');
    push_range(v, '\u{5BF}', '\u{5BF}');
    push_range(v, '\u{5C1}', '\u{5C2}');
    push_range(v, '\u{5C4}', '\u{5C5}');
    push_range(v, '\u{5C7}', '\u{5C7}');
    push_range(v, '\u{610}', '\u{61A}');
    assert(rview(v@) =~= o + mark_chunk_0());
}

fn push_mark_chunk_1(v: &mut Vec<ClassUnicodeRange>)
    ensures
        rview(final(v)@) == rview(old(v)@) + mark_chunk_1(),
{
    let ghost o = rview(v@);
    push_range(v, '\u{64B}', '\u{65F}');
    push_range(v, '\u{670}', '\u{670}');
    push_range(v, '\u{6D6}', '\u{6DC}');
    push_range(v, '\u{6DF}', '\u{6E4}');
    push_range(v, '\u{6E7}', '\u{6E8}');
    push_range(v, '\u{6EA}', '\u{6ED}');
    push_range(v, '\u{711}', '\u{711}');
    push_range(v, '\u{730}', '\u{74A}');
    assert(rview(v@) =~= o + mark_chunk_1());
}

fn push_mark_chunk_2(v: &mut Vec<ClassUnicodeRange>)
    ensures
        rview(final(v)@) == rview(old(v)@) + mark_chunk_2(),
{
    let ghost o = rview(v@);
    push_range(v, '\u{7A6}', '\u{7B0}');
    push_range(v, '\u{7EB}', '\u{7F3}');
    push_range(v, '\u{7FD}', '\u{7FD}');
    push_range(v, '\u{816}', '\u{819}');
    push_range(v, '\u{81B}', '\u{823}');
    push_range(v, '\u{825}', '\u{827}');
    push_range(v, '\u{829}', '\u{82D}');
    push_range(v, '\u{859}', '\u{85B}');
    assert(rview(v@) =~= o + mark_chunk_2());
}

fn push_mark_chunk_3(v: &mut Vec<ClassUnicodeRange>)
    ensures
        rview(final(v)@) == rview(old(v)@) + mark_chunk_3(),
{
    let ghost o = rview(v@);
    push_range(v, '\u{897}', '\u{89F}');
    push_range(v, '\u{8CA}', '\u{8E1}');
    push_range(v, '\u{8E3}', '\u{903}');
    push_range(v, '\u{93A}', '\u{93C}');
    push_range(v, '\u{93E}', '\u{94F}');
    push_range(v, '\u{951}', '\u{957}');
    push_range(v, '\u{962}', '\u{963}');
    push_range(v, '\u{981}', '\u{983}');
    assert(rview(v@) =~= o + mark_chunk_3());
}

fn push_mark_chunk_4(v: &mut Vec<ClassUnicodeRange>)
    ensures
        rview(final(v)@) == rview(old(v)@) + mark_chunk_4(),
{
    let ghost o = rview(v@);
    push_range(v, '\u{9BC}', '\u{9BC}');
    push_range(v, '\u{9BE}', '\u{9C4}');
    push_range(v, '\u{9C7}', '\u{9C8}');
    push_range(v, '\u{9CB}', '\u{9CD}');
    push_range(v, '\u{9D7}', '\u{9D7}');
    push_range(v, '\u{9E2}', '\u{9E3}');
    push_range(v, '\u{9FE}', '\u{9FE}');
    push_range(v, '\u{A01}', '\u{A03}');
    assert(rview(v@) =~= o + mark_chunk_4());
}

fn push_mark_chunk_5(v: &mut Vec<ClassUnicodeRange>)
    ensures
        rview(final(v)@) == rview(old(v)@) + mark_chunk_5(),
{
    let ghost o = rview(v@);
    push_range(v, '\u{A3C}', '\u{A3C}');
    push_range(v, '\u{A3E}', '\u{A42}');
    push_range(v, '\u{A47}', '\u{A48}');
    push_range(v, '\u{A4B}', '\u{A4D}');
    push_range(v, '\u{A51}', '\u{A51}');
    push_range(v, '\u{A70}', '\u{A71}');
    push_range(v, '\u{A75}', '\u{A75}');
    push_range(v, '\u{A81}', '\u{A83}');
    assert(rview(v@) =~= o + mark_chunk_5());
}

fn push_mark_chunk_6(v: &mut Vec<ClassUnicodeRange>)
    ensures
        rview(final(v)@) == rview(old(v)@) + mark_chunk_6(),
{
    let ghost o = rview(v@);
    push_range(v, '\u{ABC}', '\u{ABC}');
    push_range(v, '\u{ABE}', '\u{AC5}');
    push_range(v, '\u{AC7}', '\u{AC9}');
    push_range(v, '\u{ACB}', '\u{ACD}');
    push_range(v, '\u{AE2}', '\u{AE3}');
    push_range(v, '\u{AFA}', '\u{AFF}');
    push_range(v, '\u{B01}', '\u{B03}');
    push_range(v, '\u{B3C}', '\u{B3C}');
    assert(rview(v@) =~= o + mark_chunk_6());
}

fn push_mark_chunk_7(v: &mut Vec<ClassUnicodeRange>)
    ensures
        rview(final(v)@) == rview(old(v)@) + mark_chunk_7(),
{
    let ghost o = rview(v@);
    push_range(v, '\u{B3E}', '\u{B44}');
    push_range(v, '\u{B47}', '\u{B48}');
    push_range(v, '\u{B4B}', '\u{B4D}');
    push_range(v, '\u{B55}', '\u{B57}');
    push_range(v, '\u{B62}', '\u{B63}');
    push_range(v, '\u{B82}', '\u{B82}');
    push_range(v, '\u{BBE}', '\u{BC2}');
    push_range(v, '\u{BC6}', '\u{BC8}');
    assert(rview(v@) =~= o + mark_chunk_7());
}

fn push_mark_chunk_8(v: &mut Vec<ClassUnicodeRange>)
    ensures
        rview(final(v)@) == rview(old(v)@) + mark_chunk_8(),
{
    let ghost o = rview(v@);
    push_range(v, '\u{BCA}', '\u{BCD}');
    push_range(v, '\u{BD7}', '\u{BD7}');
    push_range(v, '\u{C00}', '\u{C04}');
    push_range(v, '\u{C3C}', '\u{C3C}');
    push_range(v, '\u{C3E}', '\u{C44}');
    push_range(v, '\u{C46}', '\u{C48}');
    push_range(v, '\u{C4A}', '\u{C4D}');
    push_range(v, '\u{C55}', '\u{C56}');
    assert(rview(v@) =~= o + mark_chunk_8());
}

fn push_mark_chunk_9(v: &mut Vec<ClassUnicodeRange>)
    ensures
        rview(final(v)@) == rview(old(v)@) + mark_chunk_9(),
{
    let ghost o = rview(v@);
    push_range(v, '\u{C62}', '\u{C63}');
    push_range(v, '\u{C81}', '\u{C83}');
    push_range(v, '\u{CBC}', '\u{CBC}');
    push_range(v, '\u{CBE}', '\u{CC4}');
    push_range(v, '\u{CC6}', '\u{CC8}');
    push_range(v, '\u{CCA}', '\u{CCD}');
    push_range(v, '\u{CD5}', '\u{CD6}');
    push_range(v, '\u{CE2}', '\u{CE3}');
    assert(rview(v@) =~= o + mark_chunk_9());
}

fn push_mark_chunk_10(v: &mut Vec<ClassUnicodeRange>)
    ensures
        rview(final(v)@) == rview(old(v)@) + mark_chunk_10(),
{
    let ghost o = rview(v@);
    push_range(v, '\u{CF3}', '\u{CF3}');
    push_range(v, '\u{D00}', '\u{D03}');
    push_range(v, '\u{D3B}', '\u{D3C}');
    push_range(v, '\u{D3E}', '\u{D44}');
    push_range(v, '\u{D46}', '\u{D48}');
    push_range(v, '\u{D4A}', '\u{D4D}');
    push_range(v, '\u{D57}', '\u{D57}');
    push_range(v, '\u{D62}', '\u{D63}');
    assert(rview(v@) =~= o + mark_chunk_10());
}

fn push_mark_chunk_11(v: &mut Vec<ClassUnicodeRange>)
    ensures
        rview(final(v)@) == rview(old(v)@) + mark_chunk_11(),
{
    let ghost o = rview(v@);
    push_range(v, '\u{D81}', '\u{D83}');
    push_range(v, '\u{DCA}', '\u{DCA}');
    push_range(v, '\u{DCF}', '\u{DD4}');
    push_range(v, '\u{DD6}', '\u{DD6}');
    push_range(v, '\u{DD8}', '\u{DDF}');
    push_range(v, '\u{DF2}', '\u{DF3}');
    push_range(v, '\u{E31}', '\u{E31}');
    push_range(v, '\u{E34}', '\u{E3A}');
    assert(rview(v@) =~= o + mark_chunk_11());
}

fn push_mark_chunk_12(v: &mut Vec<ClassUnicodeRange>)
    ensures
        rview(final(v)@) == rview(old(v)@) + mark_chunk_12(),
{
    let ghost o = rview(v@);
    push_range(v, '\u{E47}', '\u{E4E}');
    push_range(v, '\u{EB1}', '\u{EB1}');
    push_range(v, '\u{EB4}', '\u{EBC}');
    push_range(v, '\u{EC8}', '\u{ECE}');
    push_range(v, '\u{F18}', '\u{F19}');
    push_range(v, '\u{F35}', '\u{F35}');
    push_range(v, '\u{F37}', '\u{F37}');
    push_range(v, '\u{F39}', '\u{F39}');
    assert(rview(v@) =~= o + mark_chunk_12());
}

fn push_mark_chunk_13(v: &mut Vec<ClassUnicodeRange>)
    ensures
        rview(final(v)@) == rview(old(v)@) + mark_chunk_13(),
{
    let ghost o = rview(v@);
    push_range(v, '\u{F3E}', '\u{F3F}');
    push_range(v, '\u{F71}', '\u{F84}');
    push_range(v, '\u{F86}', '\u{F87}');
    push_range(v, '\u{F8D}', '\u{F97}');
    push_range(v, '\u{F99}', '\u{FBC}');
    push_range(v, '\u{FC6}', '\u{FC6}');
    push_range(v, '\u{102B}', '\u{103E}');
    push_range(v, '\u{1056}', '\u{1059}');
    assert(rview(v@) =~= o + mark_chunk_13());
}

fn push_mark_chunk_14(v: &mut Vec<ClassUnicodeRange>)
    ensures
        rview(final(v)@) == rview(old(v)@) + mark_chunk_14(),
{
    let ghost o = rview(v@);
    push_range(v, '\u{105E}', '\u{1060}');
    push_range(v, '\u{1062}', '\u{1064}');
    push_range(v, '\u{1067}', '\u{106D}');
    push_range(v, '\u{1071}', '\u{1074}');
    push_range(v, '\u{1082}', '\u{108D}');
    push_range(v, '\u{108F}', '\u{108F}');
    push_range(v, '\u{109A}', '\u{109D}');
    push_range(v, '\u{135D}', '\u{135F}');
    assert(rview(v@) =~= o + mark_chunk_14());
}

fn push_mark_chunk_15(v: &mut Vec<ClassUnicodeRange>)
    ensures
        rview(final(v)@) == rview(old(v)@) + mark_chunk_15(),
{
    let ghost o = rview(v@);
    push_range(v, '\u{1712}', '\u{1715}');
    push_range(v, '\u{1732}', '\u{1734}');
    push_range(v, '\u{1752}', '\u{1753}');
    push_range(v, '\u{1772}', '\u{1773}');
    push_range(v, '\u{17B4}', '\u{17D3}');
    push_range(v, '\u{17DD}', '\u{17DD}');
    push_range(v, '\u{180B}', '\u{180D}');
    push_range(v, '\u{180F}', '\u{180F}');
    assert(rview(v@) =~= o + mark_chunk_15());
}

fn push_mark_chunk_16(v: &mut Vec<ClassUnicodeRange>)
    ensures
        rview(final(v)@) == rview(old(v)@) + mark_chunk_16(),
{
    let ghost o = rview(v@);
    push_range(v, '\u{1885}', '\u{1886}');
    push_range(v, '\u{18A9}', '\u{18A9}');
    push_range(v, '\u{1920}', '\u{192B}');
    push_range(v, '\u{1930}', '\u{193B}');
    push_range(v, '\u{1A17}', '\u{1A1B}');
    push_range(v, '\u{1A55}', '\u{1A5E}');
    push_range(v, '\u{1A60}', '\u{1A7C}');
    push_range(v, '\u{1A7F}', '\u{1A7F}');
    assert(rview(v@) =~= o + mark_chunk_16());
}

fn push_mark_chunk_17(v: &mut Vec<ClassUnicodeRange>)
    ensures
        rview(final(v)@) == rview(old(v)@) + mark_chunk_17(),
{
    let ghost o = rview(v@);
    push_range(v, '\u{1AB0}', '\u{1ACE}');
    push_range(v, '\u{1B00}', '\u{1B04}');
    push_range(v, '\u{1B34}', '\u{1B44}');
    push_range(v, '\u{1B6B}', '\u{1B73}');
    push_range(v, '\u{1B80}', '\u{1B82}');
    push_range(v, '\u{1BA1}', '\u{1BAD}');
    push_range(v, '\u{1BE6}', '\u{1BF3}');
    push_range(v, '\u{1C24}', '\u{1C37}');
    assert(rview(v@) =~= o + mark_chunk_17());
}

fn push_mark_chunk_18(v: &mut Vec<ClassUnicodeRange>)
    ensures
        rview(final(v)@) == rview(old(v)@) + mark_chunk_18(),
{
    let ghost o = rview(v@);
    push_range(v, '\u{1CD0}', '\u{1CD2}');
    push_range(v, '\u{1CD4}', '\u{1CE8}');
    push_range(v, '\u{1CED}', '\u{1CED}');
    push_range(v, '\u{1CF4}', '\u{1CF4}');
    push_range(v, '\u{1CF7}', '\u{1CF9}');
    push_range(v, '\u{1DC0}', '\u{1DFF}');
    push_range(v, '\u{20D0}', '\u{20F0}');
    push_range(v, '\u{2CEF}', '\u{2CF1}');
    assert(rview(v@) =~= o + mark_chunk_18());
}

fn push_mark_chunk_19(v: &mut Vec<ClassUnicodeRange>)
    ensures
        rview(final(v)@) == rview(old(v)@) + mark_chunk_19(),
{
    let ghost o = rview(v@);
    push_range(v, '\u{2D7F}', '\u{2D7F}');
    push_range(v, '\u{2DE0}', '\u{2DFF}');
    push_range(v, '\u{302A}', '\u{302F}');
    push_range(v, '\u{3099}', '\u{309A}');
    push_range(v, '\u{A66F}', '\u{A672}');
    push_range(v, '\u{A674}', '\u{A67D}');
    push_range(v, '\u{A69E}', '\u{A69F}');
    push_range(v, '\u{A6F0}', '\u{A6F1}');
    assert(rview(v@) =~= o + mark_chunk_19());
}

fn push_mark_chunk_20(v: &mut Vec<ClassUnicodeRange>)
    ensures
        rview(final(v)@) == rview(old(v)@) + mark_chunk_20(),
{
    let ghost o = rview(v@);
    push_range(v, '\u{A802}', '\u{A802}');
    push_range(v, '\u{A806}', '\u{A806}');
    push_range(v, '\u{A80B}', '\u{A80B}');
    push_range(v, '\u{A823}', '\u{A827}');
    push_range(v, '\u{A82C}', '\u{A82C}');
    push_range(v, '\u{A880}', '\u{A881}');
    push_range(v, '\u{A8B4}', '\u{A8C5}');
    push_range(v, '\u{A8E0}', '\u{A8F1}');
    assert(rview(v@) =~= o + mark_chunk_20());
}

fn push_mark_chunk_21(v: &mut Vec<ClassUnicodeRange>)
    ensures
        rview(final(v)@) == rview(old(v)@) + mark_chunk_21(),
{
    let ghost o = rview(v@);
    push_range(v, '\u{A8FF}', '\u{A8FF}');
    push_range(v, '\u{A926}', '\u{A92D}');
    push_range(v, '\u{A947}', '\u{A953}');
    push_range(v, '\u{A980}', '\u{A983}');
    push_range(v, '\u{A9B3}', '\u{A9C0}');
    push_range(v, '\u{A9E5}', '\u{A9E5}');
    push_range(v, '\u{AA29}', '\u{AA36}');
    push_range(v, '\u{AA43}', '\u{AA43}');
    assert(rview(v@) =~= o + mark_chunk_21());
}

fn push_mark_chunk_22(v: &mut Vec<ClassUnicodeRange>)
    ensures
        rview(final(v)@) == rview(old(v)@) + mark_chunk_22(),
{
    let ghost o = rview(v@);
    push_range(v, '\u{AA4C}', '\u{AA4D}');
    push_range(v, '\u{AA7B}', '\u{AA7D}');
    push_range(v, '\u{AAB0}', '\u{AAB0}');
    push_range(v, '\u{AAB2}', '\u{AAB4}');
    push_range(v, '\u{AAB7}', '\u{AAB8}');
    push_range(v, '\u{AABE}', '\u{AABF}');
    push_range(v, '\u{AAC1}', '\u{AAC1}');
    push_range(v, '\u{AAEB}', '\u{AAEF}');
    assert(rview(v@) =~= o + mark_chunk_22());
}

fn push_mark_chunk_23(v: &mut Vec<ClassUnicodeRange>)
    ensures
        rview(final(v)@) == rview(old(v)@) + mark_chunk_23(),
{
    let ghost o = rview(v@);
    push_range(v, '\u{AAF5}', '\u{AAF6}');
    push_range(v, '\u{ABE3}', '\u{ABEA}');
    push_range(v, '\u{ABEC}', '\u{ABED}');
    push_range(v, '\u{FB1E}', '\u{FB1E}');
    push_range(v, '\u{FE00}', '\u{FE0F}');
    push_range(v, '\u{FE20}', '\u{FE2F}');
    push_range(v, '\u{101FD}', '\u{101FD}');
    push_range(v, '\u{102E0}', '\u{102E0}');
    assert(rview(v@) =~= o + mark_chunk_23());
}

fn push_mark_chunk_24(v: &mut Vec<ClassUnicodeRange>)
    ensures
        rview(final(v)@) == rview(old(v)@) + mark_chunk_24(),
{
    let ghost o = rview(v@);
    push_range(v, '\u{10376}', '\u{1037A}');
    push_range(v, '\u{10A01}', '\u{10A03}');
    push_range(v, '\u{10A05}', '\u{10A06}');
    push_range(v, '\u{10A0C}', '\u{10A0F}');
    push_range(v, '\u{10A38}', '\u{10A3A}');
    push_range(v, '\u{10A3F}', '\u{10A3F}');
    push_range(v, '\u{10AE5}', '\u{10AE6}');
    push_range(v, '\u{10D24}', '\u{10D27}');
    assert(rview(v@) =~= o + mark_chunk_24());
}

fn push_mark_chunk_25(v: &mut Vec<ClassUnicodeRange>)
    ensures
        rview(final(v)@) == rview(old(v)@) + mark_chunk_25(),
{
    let ghost o = rview(v@);
    push_range(v, '\u{10D69}', '\u{10D6D}');
    push_range(v, '\u{10EAB}', '\u{10EAC}');
    push_range(v, '\u{10EFC}', '\u{10EFF}');
    push_range(v, '\u{10F46}', '\u{10F50}');
    push_range(v, '\u{10F82}', '\u{10F85}');
    push_range(v, '\u{11000}', '\u{11002}');
    push_range(v, '\u{11038}', '\u{11046}');
    push_range(v, '\u{11070}', '\u{11070}');
    assert(rview(v@) =~= o + mark_chunk_25());
}

fn push_mark_chunk_26(v: &mut Vec<ClassUnicodeRange>)
    ensures
        rview(final(v)@) == rview(old(v)@) + mark_chunk_26(),
{
    let ghost o = rview(v@);
    push_range(v, '\u{11073}', '\u{11074}');
    push_range(v, '\u{1107F}', '\u{11082}');
    push_range(v, '\u{110B0}', '\u{110BA}');
    push_range(v, '\u{110C2}', '\u{110C2}');
    push_range(v, '\u{11100}', '\u{11102}');
    push_range(v, '\u{11127}', '\u{11134}');
    push_range(v, '\u{11145}', '\u{11146}');
    push_range(v, '\u{11173}', '\u{11173}');
    assert(rview(v@) =~= o + mark_chunk_26());
}

fn push_mark_chunk_27(v: &mut Vec<ClassUnicodeRange>)
    ensures
        rview(final(v)@) == rview(old(v)@) + mark_chunk_27(),
{
    let ghost o = rview(v@);
    push_range(v, '\u{11180}', '\u{11182}');
    push_range(v, '\u{111B3}', '\u{111C0}');
    push_range(v, '\u{111C9}', '\u{111CC}');
    push_range(v, '\u{111CE}', '\u{111CF}');
    push_range(v, '\u{1122C}', '\u{11237}');
    push_range(v, '\u{1123E}', '\u{1123E}');
    push_range(v, '\u{11241}', '\u{11241}');
    push_range(v, '\u{112DF}', '\u{112EA}');
    assert(rview(v@) =~= o + mark_chunk_27());
}

fn push_mark_chunk_28(v: &mut Vec<ClassUnicodeRange>)
    ensures
        rview(final(v)@) == rview(old(v)@) + mark_chunk_28(),
{
    let ghost o = rview(v@);
    push_range(v, '\u{11300}', '\u{11303}');
    push_range(v, '\u{1133B}', '\u{1133C}');
    push_range(v, '\u{1133E}', '\u{11344}');
    push_range(v, '\u{11347}', '\u{11348}');
    push_range(v, '\u{1134B}', '\u{1134D}');
    push_range(v, '\u{11357}', '\u{11357}');
    push_range(v, '\u{11362}', '\u{11363}');
    push_range(v, '\u{11366}', '\u{1136C}');
    assert(rview(v@) =~= o + mark_chunk_28());
}

fn push_mark_chunk_29(v: &mut Vec<ClassUnicodeRange>)
    ensures
        rview(final(v)@) == rview(old(v)@) + mark_chunk_29(),
{
    let ghost o = rview(v@);
    push_range(v, '\u{11370}', '\u{11374}');
    push_range(v, '\u{113B8}', '\u{113C0}');
    push_range(v, '\u{113C2}', '\u{113C2}');
    push_range(v, '\u{113C5}', '\u{113C5}');
    push_range(v, '\u{113C7}', '\u{113CA}');
    push_range(v, '\u{113CC}', '\u{113D0}');
    push_range(v, '\u{113D2}', '\u{113D2}');
    push_range(v, '\u{113E1}', '\u{113E2}');
    assert(rview(v@) =~= o + mark_chunk_29());
}

fn push_mark_chunk_30(v: &mut Vec<ClassUnicodeRange>)
    ensures
        rview(final(v)@) == rview(old(v)@) + mark_chunk_30(),
{
    let ghost o = rview(v@);
    push_range(v, '\u{11435}', '\u{11446}');
    push_range(v, '\u{1145E}', '\u{1145E}');
    push_range(v, '\u{114B0}', '\u{114C3}');
    push_range(v, '\u{115AF}', '\u{115B5}');
    push_range(v, '\u{115B8}', '\u{115C0}');
    push_range(v, '\u{115DC}', '\u{115DD}');
    push_range(v, '\u{11630}', '\u{11640}');
    push_range(v, '\u{116AB}', '\u{116B7}');
    assert(rview(v@) =~= o + mark_chunk_30());
}

fn push_mark_chunk_31(v: &mut Vec<ClassUnicodeRange>)
    ensures
        rview(final(v)@) == rview(old(v)@) + mark_chunk_31(),
{
    let ghost o = rview(v@);
    push_range(v, '\u{1171D}', '\u{1172B}');
    push_range(v, '\u{1182C}', '\u{1183A}');
    push_range(v, '\u{11930}', '\u{11935}');
    push_range(v, '\u{11937}', '\u{11938}');
    push_range(v, '\u{1193B}', '\u{1193E}');
    push_range(v, '\u{11940}', '\u{11940}');
    push_range(v, '\u{11942}', '\u{11943}');
    push_range(v, '\u{119D1}', '\u{119D7}');
    assert(rview(v@) =~= o + mark_chunk_31());
}

fn push_mark_chunk_32(v: &mut Vec<ClassUnicodeRange>)
    ensures
        rview(final(v)@) == rview(old(v)@) + mark_chunk_32(),
{
    let ghost o = rview(v@);
    push_range(v, '\u{119DA}', '\u{119E0}');
    push_range(v, '\u{119E4}', '\u{119E4}');
    push_range(v, '\u{11A01}', '\u{11A0A}');
    push_range(v, '\u{11A33}', '\u{11A39}');
    push_range(v, '\u{11A3B}', '\u{11A3E}');
    push_range(v, '\u{11A47}', '\u{11A47}');
    push_range(v, '\u{11A51}', '\u{11A5B}');
    push_range(v, '\u{11A8A}', '\u{11A99}');
    assert(rview(v@) =~= o + mark_chunk_32());
}

fn push_mark_chunk_33(v: &mut Vec<ClassUnicodeRange>)
    ensures
        rview(final(v)@) == rview(old(v)@) + mark_chunk_33(),
{
    let ghost o = rview(v@);
    push_range(v, '\u{11C2F}', '\u{11C36}');
    push_range(v, '\u{11C38}', '\u{11C3F}');
    push_range(v, '\u{11C92}', '\u{11CA7}');
    push_range(v, '\u{11CA9}', '\u{11CB6}');
    push_range(v, '\u{11D31}', '\u{11D36}');
    push_range(v, '\u{11D3A}', '\u{11D3A}');
    push_range(v, '\u{11D3C}', '\u{11D3D}');
    push_range(v, '\u{11D3F}', '\u{11D45}');
    assert(rview(v@) =~= o + mark_chunk_33());
}

fn push_mark_chunk_34(v: &mut Vec<ClassUnicodeRange>)
    ensures
        rview(final(v)@) == rview(old(v)@) + mark_chunk_34(),
{
    let ghost o = rview(v@);
    push_range(v, '\u{11D47}', '\u{11D47}');
    push_range(v, '\u{11D8A}', '\u{11D8E}');
    push_range(v, '\u{11D90}', '\u{11D91}');
    push_range(v, '\u{11D93}', '\u{11D97}');
    push_range(v, '\u{11EF3}', '\u{11EF6}');
    push_range(v, '\u{11F00}', '\u{11F01}');
    push_range(v, '\u{11F03}', '\u{11F03}');
    push_range(v, '\u{11F34}', '\u{11F3A}');
    assert(rview(v@) =~= o + mark_chunk_34());
}

fn push_mark_chunk_35(v: &mut Vec<ClassUnicodeRange>)
    ensures
        rview(final(v)@) == rview(old(v)@) + mark_chunk_35(),
{
    let ghost o = rview(v@);
    push_range(v, '\u{11F3E}', '\u{11F42}');
    push_range(v, '\u{11F5A}', '\u{11F5A}');
    push_range(v, '\u{13440}', '\u{13440}');
    push_range(v, '\u{13447}', '\u{13455}');
    push_range(v, '\u{1611E}', '\u{1612F}');
    push_range(v, '\u{16AF0}', '\u{16AF4}');
    push_range(v, '\u{16B30}', '\u{16B36}');
    push_range(v, '\u{16F4F}', '\u{16F4F}');
    assert(rview(v@) =~= o + mark_chunk_35());
}

fn push_mark_chunk_36(v: &mut Vec<ClassUnicodeRange>)
    ensures
        rview(final(v)@) == rview(old(v)@) + mark_chunk_36(),
{
    let ghost o = rview(v@);
    push_range(v, '\u{16F51}', '\u{16F87}');
    push_range(v, '\u{16F8F}', '\u{16F92}');
    push_range(v, '\u{16FE4}', '\u{16FE4}');
    push_range(v, '\u{16FF0}', '\u{16FF1}');
    push_range(v, '\u{1BC9D}', '\u{1BC9E}');
    push_range(v, '\u{1CF00}', '\u{1CF2D}');
    push_range(v, '\u{1CF30}', '\u{1CF46}');
    push_range(v, '\u{1D165}', '\u{1D169}');
    assert(rview(v@) =~= o + mark_chunk_36());
}

fn push_mark_chunk_37(v: &mut Vec<ClassUnicodeRange>)
    ensures
        rview(final(v)@) == rview(old(v)@) + mark_chunk_37(),
{
    let ghost o = rview(v@);
    push_range(v, '\u{1D16D}', '\u{1D172}');
    push_range(v, '\u{1D17B}', '\u{1D182}');
    push_range(v, '\u{1D185}', '\u{1D18B}');
    push_range(v, '\u{1D1AA}', '\u{1D1AD}');
    push_range(v, '\u{1D242}', '\u{1D244}');
    push_range(v, '\u{1DA00}', '\u{1DA36}');
    push_range(v, '\u{1DA3B}', '\u{1DA6C}');
    push_range(v, '\u{1DA75}', '\u{1DA75}');
    assert(rview(v@) =~= o + mark_chunk_37());
}

fn push_mark_chunk_38(v: &mut Vec<ClassUnicodeRange>)
    ensures
        rview(final(v)@) == rview(old(v)@) + mark_chunk_38(),
{
    let ghost o = rview(v@);
    push_range(v, '\u{1DA84}', '\u{1DA84}');
    push_range(v, '\u{1DA9B}', '\u{1DA9F}');
    push_range(v, '\u{1DAA1}', '\u{1DAAF}');
    push_range(v, '\u{1E000}', '\u{1E006}');
    push_range(v, '\u{1E008}', '\u{1E018}');
    push_range(v, '\u{1E01B}', '\u{1E021}');
    push_range(v, '\u{1E023}', '\u{1E024}');
    push_range(v, '\u{1E026}', '\u{1E02A}');
    assert(rview(v@) =~= o + mark_chunk_38());
}

fn push_mark_chunk_39(v: &mut Vec<ClassUnicodeRange>)
    ensures
        rview(final(v)@) == rview(old(v)@) + mark_chunk_39(),
{
    let ghost o = rview(v@);
    push_range(v, '\u{1E08F}', '\u{1E08F}');
    push_range(v, '\u{1E130}', '\u{1E136}');
    push_range(v, '\u{1E2AE}', '\u{1E2AE}');
    push_range(v, '\u{1E2EC}', '\u{1E2EF}');
    push_range(v, '\u{1E4EC}', '\u{1E4EF}');
    push_range(v, '\u{1E5EE}', '\u{1E5EF}');
    push_range(v, '\u{1E8D0}', '\u{1E8D6}');
    push_range(v, '\u{1E944}', '\u{1E94A}');
    assert(rview(v@) =~= o + mark_chunk_39());
}

fn push_mark_chunk_40(v: &mut Vec<ClassUnicodeRange>)
    ensures
        rview(final(v)@) == rview(old(v)@) + mark_chunk_40(),
{
    let ghost o = rview(v@);
    push_range(v, '\u{E0100}', '\u{E01EF}');
    assert(rview(v@) =~= o + mark_chunk_40());
}

fn push_mark_block_0(v: &mut Vec<ClassUnicodeRange>)
    ensures
        rview(final(v)@) == rview(old(v)@) + mark_block_0(),
{
    let ghost o = rview(v@);
    push_mark_chunk_0(v);
    assert(rview(v@) =~= o + (mark_chunk_0()));
    push_mark_chunk_1(v);
    assert(rview(v@) =~= o + (mark_chunk_0() + mark_chunk_1()));
    push_mark_chunk_2(v);
    assert(rview(v@) =~= o + (mark_chunk_0() + mark_chunk_1() + mark_chunk_2()));
    push_mark_chunk_3(v);
    assert(rview(v@) =~= o + (mark_chunk_0() + mark_chunk_1() + mark_chunk_2() + mark_chunk_3()));
    push_mark_chunk_4(v);
    assert(rview(v@) =~= o + (mark_chunk_0() + mark_chunk_1() + mark_chunk_2() + mark_chunk_3() + mark_chunk_4()));
    push_mark_chunk_5(v);
    assert(rview(v@) =~= o + (mark_chunk_0() + mark_chunk_1() + mark_chunk_2() + mark_chunk_3() + mark_chunk_4() + mark_chunk_5()));
    push_mark_chunk_6(v);
    assert(rview(v@) =~= o + (mark_chunk_0() + mark_chunk_1() + mark_chunk_2() + mark_chunk_3() + mark_chunk_4() + mark_chunk_5() + mark_chunk_6()));
    push_mark_chunk_7(v);
    assert(rview(v@) =~= o + (mark_chunk_0() + mark_chunk_1() + mark_chunk_2() + mark_chunk_3() + mark_chunk_4() + mark_chunk_5() + mark_chunk_6() + mark_chunk_7()));
    push_mark_chunk_8(v);
    assert(rview(v@) =~= o + (mark_chunk_0() + mark_chunk_1() + mark_chunk_2() + mark_chunk_3() + mark_chunk_4() + mark_chunk_5() + mark_chunk_6() + mark_chunk_7() + mark_chunk_8()));
    push_mark_chunk_9(v);
    assert(rview(v@) =~= o + (mark_chunk_0() + mark_chunk_1() + mark_chunk_2() + mark_chunk_3() + mark_chunk_4() + mark_chunk_5() + mark_chunk_6() + mark_chunk_7() + mark_chunk_8() + mark_chunk_9()));
}

fn push_mark_block_1(v: &mut Vec<ClassUnicodeRange>)
    ensures
        rview(final(v)@) == rview(old(v)@) + mark_block_1(),
{
    let ghost o = rview(v@);
    push_mark_chunk_10(v);
    assert(rview(v@) =~= o + (mark_chunk_10()));
    push_mark_chunk_11(v);
    assert(rview(v@) =~= o + (mark_chunk_10() + mark_chunk_11()));
    push_mark_chunk_12(v);
    assert(rview(v@) =~= o + (mark_chunk_10() + mark_chunk_11() + mark_chunk_12()));
    push_mark_chunk_13(v);
    assert(rview(v@) =~= o + (mark_chunk_10() + mark_chunk_11() + mark_chunk_12() + mark_chunk_13()));
    push_mark_chunk_14(v);
    assert(rview(v@) =~= o + (mark_chunk_10() + mark_chunk_11() + mark_chunk_12() + mark_chunk_13() + mark_chunk_14()));
    push_mark_chunk_15(v);
    assert(rview(v@) =~= o + (mark_chunk_10() + mark_chunk_11() + mark_chunk_12() + mark_chunk_13() + mark_chunk_14() + mark_chunk_15()));
    push_mark_chunk_16(v);
    assert(rview(v@) =~= o + (mark_chunk_10() + mark_chunk_11() + mark_chunk_12() + mark_chunk_13() + mark_chunk_14() + mark_chunk_15() + mark_chunk_16()));
    push_mark_chunk_17(v);
    assert(rview(v@) =~= o + (mark_chunk_10() + mark_chunk_11() + mark_chunk_12() + mark_chunk_13() + mark_chunk_14() + mark_chunk_15() + mark_chunk_16() + mark_chunk_17()));
    push_mark_chunk_18(v);
    assert(rview(v@) =~= o + (mark_chunk_10() + mark_chunk_11() + mark_chunk_12() + mark_chunk_13() + mark_chunk_14() + mark_chunk_15() + mark_chunk_16() + mark_chunk_17() + mark_chunk_18()));
    push_mark_chunk_19(v);
    assert(rview(v@) =~= o + (mark_chunk_10() + mark_chunk_11() + mark_chunk_12() + mark_chunk_13() + mark_chunk_14() + mark_chunk_15() + mark_chunk_16() + mark_chunk_17() + mark_chunk_18() + mark_chunk_19()));
}

fn push_mark_block_2(v: &mut Vec<ClassUnicodeRange>)
    ensures
        rview(final(v)@) == rview(old(v)@) + mark_block_2(),
{
    let ghost o = rview(v@);
    push_mark_chunk_20(v);
    assert(rview(v@) =~= o + (mark_chunk_20()));
    push_mark_chunk_21(v);
    assert(rview(v@) =~= o + (mark_chunk_20() + mark_chunk_21()));
    push_mark_chunk_22(v);
    assert(rview(v@) =~= o + (mark_chunk_20() + mark_chunk_21() + mark_chunk_22()));
    push_mark_chunk_23(v);
    assert(rview(v@) =~= o + (mark_chunk_20() + mark_chunk_21() + mark_chunk_22() + mark_chunk_23()));
    push_mark_chunk_24(v);
    assert(rview(v@) =~= o + (mark_chunk_20() + mark_chunk_21() + mark_chunk_22() + mark_chunk_23() + mark_chunk_24()));
    push_mark_chunk_25(v);
    assert(rview(v@) =~= o + (mark_chunk_20() + mark_chunk_21() + mark_chunk_22() + mark_chunk_23() + mark_chunk_24() + mark_chunk_25()));
    push_mark_chunk_26(v);
    assert(rview(v@) =~= o + (mark_chunk_20() + mark_chunk_21() + mark_chunk_22() + mark_chunk_23() + mark_chunk_24() + mark_chunk_25() + mark_chunk_26()));
    push_mark_chunk_27(v);
    assert(rview(v@) =~= o + (mark_chunk_20() + mark_chunk_21() + mark_chunk_22() + mark_chunk_23() + mark_chunk_24() + mark_chunk_25() + mark_chunk_26() + mark_chunk_27()));
    push_mark_chunk_28(v);
    assert(rview(v@) =~= o + (mark_chunk_20() + mark_chunk_21() + mark_chunk_22() + mark_chunk_23() + mark_chunk_24() + mark_chunk_25() + mark_chunk_26() + mark_chunk_27() + mark_chunk_28()));
    push_mark_chunk_29(v);
    assert(rview(v@) =~= o + (mark_chunk_20() + mark_chunk_21() + mark_chunk_22() + mark_chunk_23() + mark_chunk_24() + mark_chunk_25() + mark_chunk_26() + mark_chunk_27() + mark_chunk_28() + mark_chunk_29()));
}

fn push_mark_block_3(v: &mut Vec<ClassUnicodeRange>)
    ensures
        rview(final(v)@) == rview(old(v)@) + mark_block_3(),
{
    let ghost o = rview(v@);
    push_mark_chunk_30(v);
    assert(rview(v@) =~= o + (mark_chunk_30()));
    push_mark_chunk_31(v);
    assert(rview(v@) =~= o + (mark_chunk_30() + mark_chunk_31()));
    push_mark_chunk_32(v);
    assert(rview(v@) =~= o + (mark_chunk_30() + mark_chunk_31() + mark_chunk_32()));
    push_mark_chunk_33(v);
    assert(rview(v@) =~= o + (mark_chunk_30() + mark_chunk_31() + mark_chunk_32() + mark_chunk_33()));
    push_mark_chunk_34(v);
    assert(rview(v@) =~= o + (mark_chunk_30() + mark_chunk_31() + mark_chunk_32() + mark_chunk_33() + mark_chunk_34()));
    push_mark_chunk_35(v);
    assert(rview(v@) =~= o + (mark_chunk_30() + mark_chunk_31() + mark_chunk_32() + mark_chunk_33() + mark_chunk_34() + mark_chunk_35()));
    push_mark_chunk_36(v);
    assert(rview(v@) =~= o + (mark_chunk_30() + mark_chunk_31() + mark_chunk_32() + mark_chunk_33() + mark_chunk_34() + mark_chunk_35() + mark_chunk_36()));
    push_mark_chunk_37(v);
    assert(rview(v@) =~= o + (mark_chunk_30() + mark_chunk_31() + mark_chunk_32() + mark_chunk_33() + mark_chunk_34() + mark_chunk_35() + mark_chunk_36() + mark_chunk_37()));
    push_mark_chunk_38(v);
    assert(rview(v@) =~= o + (mark_chunk_30() + mark_chunk_31() + mark_chunk_32() + mark_chunk_33() + mark_chunk_34() + mark_chunk_35() + mark_chunk_36() + mark_chunk_37() + mark_chunk_38()));
    push_mark_chunk_39(v);
    assert(rview(v@) =~= o + (mark_chunk_30() + mark_chunk_31() + mark_chunk_32() + mark_chunk_33() + mark_chunk_34() + mark_chunk_35() + mark_chunk_36() + mark_chunk_37() + mark_chunk_38() + mark_chunk_39()));
}

fn push_mark_block_4(v: &mut Vec<ClassUnicodeRange>)
    ensures
        rview(final(v)@) == rview(old(v)@) + mark_block_4(),
{
    let ghost o = rview(v@);
    push_mark_chunk_40(v);
    assert(rview(v@) =~= o + (mark_chunk_40()));
}

/// The ranges of the general category Mark.
pub fn mark_class() -> (v: Vec<ClassUnicodeRange>)
    ensures
        rview(v@) == mark_ranges(),
{
    let mut v: Vec<ClassUnicodeRange> = Vec::new();
    assert(rview(v@) =~= Seq::<SRange>::empty());
    push_mark_block_0(&mut v);
    assert(rview(v@) =~= mark_block_0());
    push_mark_block_1(&mut v);
    assert(rview(v@) =~= mark_block_0() + mark_block_1());
    push_mark_block_2(&mut v);
    assert(rview(v@) =~= mark_block_0() + mark_block_1() + mark_block_2());
    push_mark_block_3(&mut v);
    assert(rview(v@) =~= mark_block_0() + mark_block_1() + mark_block_2() + mark_block_3());
    push_mark_block_4(&mut v);
    assert(rview(v@) =~= mark_block_0() + mark_block_1() + mark_block_2() + mark_block_3() + mark_block_4());
    v
}

pub open spec fn math_symbol_chunk_0() -> Seq<SRange> {
    seq![(0x2Bint, 0x2Bint), (0x3Cint, 0x3Eint), (0x7Cint, 0x7Cint), (0x7Eint, 0x7Eint), (0xACint, 0xACint), (0xB1int, 0xB1int), (0xD7int, 0xD7int), (0xF7int, 0xF7int)]
}

pub open spec fn math_symbol_chunk_1() -> Seq<SRange> {
    seq![(0x3F6int, 0x3F6int), (0x606int, 0x608int), (0x2044int, 0x2044int), (0x2052int, 0x2052int), (0x207Aint, 0x207Cint), (0x208Aint, 0x208Cint), (0x2118int, 0x2118int), (0x2140int, 0x2144int)]
}

pub open spec fn math_symbol_chunk_2() -> Seq<SRange> {
    seq![(0x214Bint, 0x214Bint), (0x2190int, 0x2194int), (0x219Aint, 0x219Bint), (0x21A0int, 0x21A0int), (0x21A3int, 0x21A3int), (0x21A6int, 0x21A6int), (0x21AEint, 0x21AEint), (0x21CEint, 0x21CFint)]
}

pub open spec fn math_symbol_chunk_3() -> Seq<SRange> {
    seq![(0x21D2int, 0x21D2int), (0x21D4int, 0x21D4int), (0x21F4int, 0x22FFint), (0x2320int, 0x2321int), (0x237Cint, 0x237Cint), (0x239Bint, 0x23B3int), (0x23DCint, 0x23E1int), (0x25B7int, 0x25B7int)]
}

pub open spec fn math_symbol_chunk_4() -> Seq<SRange> {
    seq![(0x25C1int, 0x25C1int), (0x25F8int, 0x25FFint), (0x266Fint, 0x266Fint), (0x27C0int, 0x27C4int), (0x27C7int, 0x27E5int), (0x27F0int, 0x27FFint), (0x2900int, 0x2982int), (0x2999int, 0x29D7int)]
}

pub open spec fn math_symbol_chunk_5() -> Seq<SRange> {
    seq![(0x29DCint, 0x29FBint), (0x29FEint, 0x2AFFint), (0x2B30int, 0x2B44int), (0x2B47int, 0x2B4Cint), (0xFB29int, 0xFB29int), (0xFE62int, 0xFE62int), (0xFE64int, 0xFE66int), (0xFF0Bint, 0xFF0Bint)]
}

pub open spec fn math_symbol_chunk_6() -> Seq<SRange> {
    seq![(0xFF1Cint, 0xFF1Eint), (0xFF5Cint, 0xFF5Cint), (0xFF5Eint, 0xFF5Eint), (0xFFE2int, 0xFFE2int), (0xFFE9int, 0xFFECint), (0x10D8Eint, 0x10D8Fint), (0x1D6C1int, 0x1D6C1int), (0x1D6DBint, 0x1D6DBint)]
}

pub open spec fn math_symbol_chunk_7() -> Seq<SRange> {
    seq![(0x1D6FBint, 0x1D6FBint), (0x1D715int, 0x1D715int), (0x1D735int, 0x1D735int), (0x1D74Fint, 0x1D74Fint), (0x1D76Fint, 0x1D76Fint), (0x1D789int, 0x1D789int), (0x1D7A9int, 0x1D7A9int), (0x1D7C3int, 0x1D7C3int)]
}

pub open spec fn math_symbol_chunk_8() -> Seq<SRange> {
    seq![(0x1EEF0int, 0x1EEF1int)]
}

pub open spec fn math_symbol_block_0() -> Seq<SRange> {
    math_symbol_chunk_0() + math_symbol_chunk_1() + math_symbol_chunk_2() + math_symbol_chunk_3() + math_symbol_chunk_4() + math_symbol_chunk_5() + math_symbol_chunk_6() + math_symbol_chunk_7() + math_symbol_chunk_8()
}

/// The ranges of the general category Math_Symbol.
pub open spec fn math_symbol_ranges() -> Seq<SRange> {
    math_symbol_block_0()
}

proof fn lemma_math_symbol_block_0()
    ensures
        canonical(math_symbol_block_0()),
        math_symbol_block_0().len() > 0,
        math_symbol_block_0()[0] == math_symbol_chunk_0()[0],
        math_symbol_block_0().last() == math_symbol_chunk_8().last(),
{
    reveal_with_fuel(canonical, 9);
    assert(canonical(math_symbol_chunk_0()));
    assert(canonical(math_symbol_chunk_1()));
    assert(canonical(math_symbol_chunk_2()));
    assert(canonical(math_symbol_chunk_3()));
    assert(canonical(math_symbol_chunk_4()));
    assert(canonical(math_symbol_chunk_5()));
    assert(canonical(math_symbol_chunk_6()));
    assert(canonical(math_symbol_chunk_7()));
    assert(canonical(math_symbol_chunk_8()));
    lemma_canonical_append(math_symbol_chunk_0(), math_symbol_chunk_1());
    lemma_canonical_append(math_symbol_chunk_0() + math_symbol_chunk_1(), math_symbol_chunk_2());
    lemma_canonical_append(math_symbol_chunk_0() + math_symbol_chunk_1() + math_symbol_chunk_2(), math_symbol_chunk_3());
    lemma_canonical_append(math_symbol_chunk_0() + math_symbol_chunk_1() + math_symbol_chunk_2() + math_symbol_chunk_3(), math_symbol_chunk_4());
    lemma_canonical_append(math_symbol_chunk_0() + math_symbol_chunk_1() + math_symbol_chunk_2() + math_symbol_chunk_3() + math_symbol_chunk_4(), math_symbol_chunk_5());
    lemma_canonical_append(math_symbol_chunk_0() + math_symbol_chunk_1() + math_symbol_chunk_2() + math_symbol_chunk_3() + math_symbol_chunk_4() + math_symbol_chunk_5(), math_symbol_chunk_6());
    lemma_canonical_append(math_symbol_chunk_0() + math_symbol_chunk_1() + math_symbol_chunk_2() + math_symbol_chunk_3() + math_symbol_chunk_4() + math_symbol_chunk_5() + math_symbol_chunk_6(), math_symbol_chunk_7());
    lemma_canonical_append(math_symbol_chunk_0() + math_symbol_chunk_1() + math_symbol_chunk_2() + math_symbol_chunk_3() + math_symbol_chunk_4() + math_symbol_chunk_5() + math_symbol_chunk_6() + math_symbol_chunk_7(), math_symbol_chunk_8());
}

/// The general category Math_Symbol is a canonical class.
pub proof fn lemma_math_symbol_canonical()
    ensures
        canonical(math_symbol_ranges()),
{
    lemma_math_symbol_block_0();
}

fn push_math_symbol_chunk_0(v: &mut Vec<ClassUnicodeRange>)
    ensures
        rview(final(v)@) == rview(old(v)@) + math_symbol_chunk_0(),
{
    let ghost o = rview(v@);
    push_range(v, '\u{2B}', '\u{2B}');
    push_range(v, '\u{3C}', '\u{3E}');
    push_range(v, '\u{7C}', '\u{7C}');
    push_range(v, '\u{7E}', '\u{7E}');
    push_range(v, '\u{AC}', '\u{AC}');
    push_range(v, '\u{B1}', '\u{B1}');
    push_range(v, '\u{D7}', '\u{D7}');
    push_range(v, '\u{F7}', '\u{F7}');
    assert(rview(v@) =~= o + math_symbol_chunk_0());
}

fn push_math_symbol_chunk_1(v: &mut Vec<ClassUnicodeRange>)
    ensures
        rview(final(v)@) == rview(old(v)@) + math_symbol_chunk_1(),
{
    let ghost o = rview(v@);
    push_range(v, '\u{3F6}', '\u{3F6}');
    push_range(v, '\u{606}', '\u{608}');
    push_range(v, '\u{2044}', '\u{2044}');
    push_range(v, '\u{2052}', '\u{2052}');
    push_range(v, '\u{207A}', '\u{207C}');
    push_range(v, '\u{208A}', '\u{208C}');
    push_range(v, '\u{2118}', '\u{2118}');
    push_range(v, '\u{2140}', '\u{2144}');
    assert(rview(v@) =~= o + math_symbol_chunk_1());
}

fn push_math_symbol_chunk_2(v: &mut Vec<ClassUnicodeRange>)
    ensures
        rview(final(v)@) == rview(old(v)@) + math_symbol_chunk_2(),
{
    let ghost o = rview(v@);
    push_range(v, '\u{214B}', '\u{214B}');
    push_range(v, '\u{2190}', '\u{2194}');
    push_range(v, '\u{219A}', '\u{219B}');
    push_range(v, '\u{21A0}', '\u{21A0}');
    push_range(v, '\u{21A3}', '\u{21A3}');
    push_range(v, '\u{21A6}', '\u{21A6}');
    push_range(v, '\u{21AE}', '\u{21AE}');
    push_range(v, '\u{21CE}', '\u{21CF}');
    assert(rview(v@) =~= o + math_symbol_chunk_2());
}

fn push_math_symbol_chunk_3(v: &mut Vec<ClassUnicodeRange>)
    ensures
        rview(final(v)@) == rview(old(v)@) + math_symbol_chunk_3(),
{
    let ghost o = rview(v@);
    push_range(v, '\u{21D2}', '\u{21D2}');
    push_range(v, '\u{21D4}', '\u{21D4}');
    push_range(v, '\u{21F4}', '\u{22FF}');
    push_range(v, '\u{2320}', '\u{2321}');
    push_range(v, '\u{237C}', '\u{237C}');
    push_range(v, '\u{239B}', '\u{23B3}');
    push_range(v, '\u{23DC}', '\u{23E1}');
    push_range(v, '\u{25B7}', '\u{25B7}');
    assert(rview(v@) =~= o + math_symbol_chunk_3());
}

fn push_math_symbol_chunk_4(v: &mut Vec<ClassUnicodeRange>)
    ensures
        rview(final(v)@) == rview(old(v)@) + math_symbol_chunk_4(),
{
    let ghost o = rview(v@);
    push_range(v, '\u{25C1}', '\u{25C1}');
    push_range(v, '\u{25F8}', '\u{25FF}');
    push_range(v, '\u{266F}', '\u{266F}');
    push_range(v, '\u{27C0}', '\u{27C4}');
    push_range(v, '\u{27C7}', '\u{27E5}');
    push_range(v, '\u{27F0}', '\u{27FF}');
    push_range(v, '\u{2900}', '\u{2982}');
    push_range(v, '\u{2999}', '\u{29D7}');
    assert(rview(v@) =~= o + math_symbol_chunk_4());
}

fn push_math_symbol_chunk_5(v: &mut Vec<ClassUnicodeRange>)
    ensures
        rview(final(v)@) == rview(old(v)@) + math_symbol_chunk_5(),
{
    let ghost o = rview(v@);
    push_range(v, '\u{29DC}', '\u{29FB}');
    push_range(v, '\u{29FE}', '\u{2AFF}');
    push_range(v, '\u{2B30}', '\u{2B44}');
    push_range(v, '\u{2B47}', '\u{2B4C}');
    push_range(v, '\u{FB29}', '\u{FB29}');
    push_range(v, '\u{FE62}', '\u{FE62}');
    push_range(v, '\u{FE64}', '\u{FE66}');
    push_range(v, '\u{FF0B}', '\u{FF0B}');
    assert(rview(v@) =~= o + math_symbol_chunk_5());
}

fn push_math_symbol_chunk_6(v: &mut Vec<ClassUnicodeRange>)
    ensures
        rview(final(v)@) == rview(old(v)@) + math_symbol_chunk_6(),
{
    let ghost o = rview(v@);
    push_range(v, '\u{FF1C}', '\u{FF1E}');
    push_range(v, '\u{FF5C}', '\u{FF5C}');
    push_range(v, '\u{FF5E}', '\u{FF5E}');
    push_range(v, '\u{FFE2}', '\u{FFE2}');
    push_range(v, '\u{FFE9}', '\u{FFEC}');
    push_range(v, '\u{10D8E}', '\u{10D8F}');
    push_range(v, '\u{1D6C1}', '\u{1D6C1}');
    push_range(v, '\u{1D6DB}', '\u{1D6DB}');
    assert(rview(v@) =~= o + math_symbol_chunk_6());
}

fn push_math_symbol_chunk_7(v: &mut Vec<ClassUnicodeRange>)
    ensures
        rview(final(v)@) == rview(old(v)@) + math_symbol_chunk_7(),
{
    let ghost o = rview(v@);
    push_range(v, '\u{1D6FB}', '\u{1D6FB}');
    push_range(v, '\u{1D715}', '\u{1D715}');
    push_range(v, '\u{1D735}', '\u{1D735}');
    push_range(v, '\u{1D74F}', '\u{1D74F}');
    push_range(v, '\u{1D76F}', '\u{1D76F}');
    push_range(v, '\u{1D789}', '\u{1D789}');
    push_range(v, '\u{1D7A9}', '\u{1D7A9}');
    push_range(v, '\u{1D7C3}', '\u{1D7C3}');
    assert(rview(v@) =~= o + math_symbol_chunk_7());
}

fn push_math_symbol_chunk_8(v: &mut Vec<ClassUnicodeRange>)
    ensures
        rview(final(v)@) == rview(old(v)@) + math_symbol_chunk_8(),
{
    let ghost o = rview(v@);
    push_range(v, '\u{1EEF0}', '\u{1EEF1}');
    assert(rview(v@) =~= o + math_symbol_chunk_8());
}

fn push_math_symbol_block_0(v: &mut Vec<ClassUnicodeRange>)
    ensures
        rview(final(v)@) == rview(old(v)@) + math_symbol_block_0(),
{
    let ghost o = rview(v@);
    push_math_symbol_chunk_0(v);
    assert(rview(v@) =~= o + (math_symbol_chunk_0()));
    push_math_symbol_chunk_1(v);
    assert(rview(v@) =~= o + (math_symbol_chunk_0() + math_symbol_chunk_1()));
    push_math_symbol_chunk_2(v);
    assert(rview(v@) =~= o + (math_symbol_chunk_0() + math_symbol_chunk_1() + math_symbol_chunk_2()));
    push_math_symbol_chunk_3(v);
    assert(rview(v@) =~= o + (math_symbol_chunk_0() + math_symbol_chunk_1() + math_symbol_chunk_2() + math_symbol_chunk_3()));
    push_math_symbol_chunk_4(v);
    assert(rview(v@) =~= o + (math_symbol_chunk_0() + math_symbol_chunk_1() + math_symbol_chunk_2() + math_symbol_chunk_3() + math_symbol_chunk_4()));
    push_math_symbol_chunk_5(v);
    assert(rview(v@) =~= o + (math_symbol_chunk_0() + math_symbol_chunk_1() + math_symbol_chunk_2() + math_symbol_chunk_3() + math_symbol_chunk_4() + math_symbol_chunk_5()));
    push_math_symbol_chunk_6(v);
    assert(rview(v@) =~= o + (math_symbol_chunk_0() + math_symbol_chunk_1() + math_symbol_chunk_2() + math_symbol_chunk_3() + math_symbol_chunk_4() + math_symbol_chunk_5() + math_symbol_chunk_6()));
    push_math_symbol_chunk_7(v);
    assert(rview(v@) =~= o + (math_symbol_chunk_0() + math_symbol_chunk_1() + math_symbol_chunk_2() + math_symbol_chunk_3() + math_symbol_chunk_4() + math_symbol_chunk_5() + math_symbol_chunk_6() + math_symbol_chunk_7()));
    push_math_symbol_chunk_8(v);
    assert(rview(v@) =~= o + (math_symbol_chunk_0() + math_symbol_chunk_1() + math_symbol_chunk_2() + math_symbol_chunk_3() + math_symbol_chunk_4() + math_symbol_chunk_5() + math_symbol_chunk_6() + math_symbol_chunk_7() + math_symbol_chunk_8()));
}

/// The ranges of the general category Math_Symbol.
pub fn math_symbol_class() -> (v: Vec<ClassUnicodeRange>)
    ensures
        rview(v@) == math_symbol_ranges(),
{
    let mut v: Vec<ClassUnicodeRange> = Vec::new();
    assert(rview(v@) =~= Seq::<SRange>::empty());
    push_math_symbol_block_0(&mut v);
    assert(rview(v@) =~= math_symbol_block_0());
    v
}

pub open spec fn modifier_letter_chunk_0() -> Seq<SRange> {
    seq![(0x2B0int, 0x2C1int), (0x2C6int, 0x2D1int), (0x2E0int, 0x2E4int), (0x2ECint, 0x2ECint), (0x2EEint, 0x2EEint), (0x374int, 0x374int), (0x37Aint, 0x37Aint), (0x559int, 0x559int)]
}

pub open spec fn modifier_letter_chunk_1() -> Seq<SRange> {
    seq![(0x640int, 0x640int), (0x6E5int, 0x6E6int), (0x7F4int, 0x7F5int), (0x7FAint, 0x7FAint), (0x81Aint, 0x81Aint), (0x824int, 0x824int), (0x828int, 0x828int), (0x8C9int, 0x8C9int)]
}

pub open spec fn modifier_letter_chunk_2() -> Seq<SRange> {
    seq![(0x971int, 0x971int), (0xE46int, 0xE46int), (0xEC6int, 0xEC6int), (0x10FCint, 0x10FCint), (0x17D7int, 0x17D7int), (0x1843int, 0x1843int), (0x1AA7int, 0x1AA7int), (0x1C78int, 0x1C7Dint)]
}

pub open spec fn modifier_letter_chunk_3() -> Seq<SRange> {
    seq![(0x1D2Cint, 0x1D6Aint), (0x1D78int, 0x1D78int), (0x1D9Bint, 0x1DBFint), (0x2071int, 0x2071int), (0x207Fint, 0x207Fint), (0x2090int, 0x209Cint), (0x2C7Cint, 0x2C7Dint), (0x2D6Fint, 0x2D6Fint)]
}

pub open spec fn modifier_letter_chunk_4() -> Seq<SRange> {
    seq![(0x2E2Fint, 0x2E2Fint), (0x3005int, 0x3005int), (0x3031int, 0x3035int), (0x303Bint, 0x303Bint), (0x309Dint, 0x309Eint), (0x30FCint, 0x30FEint), (0xA015int, 0xA015int), (0xA4F8int, 0xA4FDint)]
}

pub open spec fn modifier_letter_chunk_5() -> Seq<SRange> {
    seq![(0xA60Cint, 0xA60Cint), (0xA67Fint, 0xA67Fint), (0xA69Cint, 0xA69Dint), (0xA717int, 0xA71Fint), (0xA770int, 0xA770int), (0xA788int, 0xA788int), (0xA7F2int, 0xA7F4int), (0xA7F8int, 0xA7F9int)]
}

pub open spec fn modifier_letter_chunk_6() -> Seq<SRange> {
    seq![(0xA9CFint, 0xA9CFint), (0xA9E6int, 0xA9E6int), (0xAA70int, 0xAA70int), (0xAADDint, 0xAADDint), (0xAAF3int, 0xAAF4int), (0xAB5Cint, 0xAB5Fint), (0xAB69int, 0xAB69int), (0xFF70int, 0xFF70int)]
}

pub open spec fn modifier_letter_chunk_7() -> Seq<SRange> {
    seq![(0xFF9Eint, 0xFF9Fint), (0x10780int, 0x10785int), (0x10787int, 0x107B0int), (0x107B2int, 0x107BAint), (0x10D4Eint, 0x10D4Eint), (0x10D6Fint, 0x10D6Fint), (0x16B40int, 0x16B43int), (0x16D40int, 0x16D42int)]
}

pub open spec fn modifier_letter_chunk_8() -> Seq<SRange> {
    seq![(0x16D6Bint, 0x16D6Cint), (0x16F93int, 0x16F9Fint), (0x16FE0int, 0x16FE1int), (0x16FE3int, 0x16FE3int), (0x1AFF0int, 0x1AFF3int), (0x1AFF5int, 0x1AFFBint), (0x1AFFDint, 0x1AFFEint), (0x1E030int, 0x1E06Dint)]
}

pub open spec fn modifier_letter_chunk_9() -> Seq<SRange> {
    seq![(0x1E137int, 0x1E13Dint), (0x1E4EBint, 0x1E4EBint), (0x1E94Bint, 0x1E94Bint)]
}

pub open spec fn modifier_letter_block_0() -> Seq<SRange> {
    modifier_letter_chunk_0() + modifier_letter_chunk_1() + modifier_letter_chunk_2() + modifier_letter_chunk_3() + modifier_letter_chunk_4() + modifier_letter_chunk_5() + modifier_letter_chunk_6() + modifier_letter_chunk_7() + modifier_letter_chunk_8() + modifier_letter_chunk_9()
}

/// The ranges of the general category Modifier_Letter.
pub open spec fn modifier_letter_ranges() -> Seq<SRange> {
    modifier_letter_block_0()
}

proof fn lemma_modifier_letter_block_0()
    ensures
        canonical(modifier_letter_block_0()),
        modifier_letter_block_0().len() > 0,
        modifier_letter_block_0()[0] == modifier_letter_chunk_0()[0],
        modifier_letter_block_0().last() == modifier_letter_chunk_9().last(),
{
    reveal_with_fuel(canonical, 9);
    assert(canonical(modifier_letter_chunk_0()));
    assert(canonical(modifier_letter_chunk_1()));
    assert(canonical(modifier_letter_chunk_2()));
    assert(canonical(modifier_letter_chunk_3()));
    assert(canonical(modifier_letter_chunk_4()));
    assert(canonical(modifier_letter_chunk_5()));
    assert(canonical(modifier_letter_chunk_6()));
    assert(canonical(modifier_letter_chunk_7()));
    assert(canonical(modifier_letter_chunk_8()));
    assert(canonical(modifier_letter_chunk_9()));
    lemma_canonical_append(modifier_letter_chunk_0(), modifier_letter_chunk_1());
    lemma_canonical_append(modifier_letter_chunk_0() + modifier_letter_chunk_1(), modifier_letter_chunk_2());
    lemma_canonical_append(modifier_letter_chunk_0() + modifier_letter_chunk_1() + modifier_letter_chunk_2(), modifier_letter_chunk_3());
    lemma_canonical_append(modifier_letter_chunk_0() + modifier_letter_chunk_1() + modifier_letter_chunk_2() + modifier_letter_chunk_3(), modifier_letter_chunk_4());
    lemma_canonical_append(modifier_letter_chunk_0() + modifier_letter_chunk_1() + modifier_letter_chunk_2() + modifier_letter_chunk_3() + modifier_letter_chunk_4(), modifier_letter_chunk_5());
    lemma_canonical_append(modifier_letter_chunk_0() + modifier_letter_chunk_1() + modifier_letter_chunk_2() + modifier_letter_chunk_3() + modifier_letter_chunk_4() + modifier_letter_chunk_5(), modifier_letter_chunk_6());
    lemma_canonical_append(modifier_letter_chunk_0() + modifier_letter_chunk_1() + modifier_letter_chunk_2() + modifier_letter_chunk_3() + modifier_letter_chunk_4() + modifier_letter_chunk_5() + modifier_letter_chunk_6(), modifier_letter_chunk_7());
    lemma_canonical_append(modifier_letter_chunk_0() + modifier_letter_chunk_1() + modifier_letter_chunk_2() + modifier_letter_chunk_3() + modifier_letter_chunk_4() + modifier_letter_chunk_5() + modifier_letter_chunk_6() + modifier_letter_chunk_7(), modifier_letter_chunk_8());
    lemma_canonical_append(modifier_letter_chunk_0() + modifier_letter_chunk_1() + modifier_letter_chunk_2() + modifier_letter_chunk_3() + modifier_letter_chunk_4() + modifier_letter_chunk_5() + modifier_letter_chunk_6() + modifier_letter_chunk_7() + modifier_letter_chunk_8(), modifier_letter_chunk_9());
}

/// The general category Modifier_Letter is a canonical class.
pub proof fn lemma_modifier_letter_canonical()
    ensures
        canonical(modifier_letter_ranges()),
{
    lemma_modifier_letter_block_0();
}

fn push_modifier_letter_chunk_0(v: &mut Vec<ClassUnicodeRange>)
    ensures
        rview(final(v)@) == rview(old(v)@) + modifier_letter_chunk_0(),
{
    let ghost o = rview(v@);
    push_range(v, '\u{2B0}', '\u{2C1}');
    push_range(v, '\u{2C6}', '\u{2D1}');
    push_range(v, '\u{2E0}', '\u{2E4}');
    push_range(v, '\u{2EC}', '\u{2EC}');
    push_range(v, '\u{2EE}', '\u{2EE}');
    push_range(v, '\u{374}', '\u{374}');
    push_range(v, '\u{37A}', '\u{37A}');
    push_range(v, '\u{559}', '\u{559}');
    assert(rview(v@) =~= o + modifier_letter_chunk_0());
}

fn push_modifier_letter_chunk_1(v: &mut Vec<ClassUnicodeRange>)
    ensures
        rview(final(v)@) == rview(old(v)@) + modifier_letter_chunk_1(),
{
    let ghost o = rview(v@);
    push_range(v, '\u{640}', '\u{640}');
    push_range(v, '\u{6E5}', '\u{6E6}');
    push_range(v, '\u{7F4}', '\u{7F5}');
    push_range(v, '\u{7FA}', '\u{7FA}');
    push_range(v, '\u{81A}', '\u{81A}');
    push_range(v, '\u{824}', '\u{824}');
    push_range(v, '\u{828}', '\u{828}');
    push_range(v, '\u{8C9}', '\u{8C9}');
    assert(rview(v@) =~= o + modifier_letter_chunk_1());
}

fn push_modifier_letter_chunk_2(v: &mut Vec<ClassUnicodeRange>)
    ensures
        rview(final(v)@) == rview(old(v)@) + modifier_letter_chunk_2(),
{
    let ghost o = rview(v@);
    push_range(v, '\u{971}', '\u{971}');
    push_range(v, '\u{E46}', '\u{E46}');
    push_range(v, '\u{EC6}', '\u{EC6}');
    push_range(v, '\u{10FC}', '\u{10FC}');
    push_range(v, '\u{17D7}', '\u{17D7}');
    push_range(v, '\u{1843}', '\u{1843}');
    push_range(v, '\u{1AA7}', '\u{1AA7}');
    push_range(v, '\u{1C78}', '\u{1C7D}');
    assert(rview(v@) =~= o + modifier_letter_chunk_2());
}

fn push_modifier_letter_chunk_3(v: &mut Vec<ClassUnicodeRange>)
    ensures
        rview(final(v)@) == rview(old(v)@) + modifier_letter_chunk_3(),
{
    let ghost o = rview(v@);
    push_range(v, '\u{1D2C}', '\u{1D6A}');
    push_range(v, '\u{1D78}', '\u{1D78}');
    push_range(v, '\u{1D9B}', '\u{1DBF}');
    push_range(v, '\u{2071}', '\u{2071}');
    push_range(v, '\u{207F}', '\u{207F}');
    push_range(v, '\u{2090}', '\u{209C}');
    push_range(v, '\u{2C7C}', '\u{2C7D}');
    push_range(v, '\u{2D6F}', '\u{2D6F}');
    assert(rview(v@) =~= o + modifier_letter_chunk_3());
}

fn push_modifier_letter_chunk_4(v: &mut Vec<ClassUnicodeRange>)
    ensures
        rview(final(v)@) == rview(old(v)@) + modifier_letter_chunk_4(),
{
    let ghost o = rview(v@);
    push_range(v, '\u{2E2F}', '\u{2E2F}');
    push_range(v, '\u{3005}', '\u{3005}');
    push_range(v, '\u{3031}', '\u{3035}');
    push_range(v, '\u{303B}', '\u{303B}');
    push_range(v, '\u{309D}', '\u{309E}');
    push_range(v, '\u{30FC}', '\u{30FE}');
    push_range(v, '\u{A015}', '\u{A015}');
    push_range(v, '\u{A4F8}', '\u{A4FD}');
    assert(rview(v@) =~= o + modifier_letter_chunk_4());
}

fn push_modifier_letter_chunk_5(v: &mut Vec<ClassUnicodeRange>)
    ensures
        rview(final(v)@) == rview(old(v)@) + modifier_letter_chunk_5(),
{
    let ghost o = rview(v@);
    push_range(v, '\u{A60C}', '\u{A60C}');
    push_range(v, '\u{A67F}', '\u{A67F}');
    push_range(v, '\u{A69C}', '\u{A69D}');
    push_range(v, '\u{A717}', '\u{A71F}');
    push_range(v, '\u{A770}', '\u{A770}');
    push_range(v, '\u{A788}', '\u{A788}');
    push_range(v, '\u{A7F2}', '\u{A7F4}');
    push_range(v, '\u{A7F8}', '\u{A7F9}');
    assert(rview(v@) =~= o + modifier_letter_chunk_5());
}

fn push_modifier_letter_chunk_6(v: &mut Vec<ClassUnicodeRange>)
    ensures
        rview(final(v)@) == rview(old(v)@) + modifier_letter_chunk_6(),
{
    let ghost o = rview(v@);
    push_range(v, '\u{A9CF}', '\u{A9CF}');
    push_range(v, '\u{A9E6}', '\u{A9E6}');
    push_range(v, '\u{AA70}', '\u{AA70}');
    push_range(v, '\u{AADD}', '\u{AADD}');
    push_range(v, '\u{AAF3}', '\u{AAF4}');
    push_range(v, '\u{AB5C}', '\u{AB5F}');
    push_range(v, '\u{AB69}', '\u{AB69}');
    push_range(v, '\u{FF70}', '\u{FF70}');
    assert(rview(v@) =~= o + modifier_letter_chunk_6());
}

fn push_modifier_letter_chunk_7(v: &mut Vec<ClassUnicodeRange>)
    ensures
        rview(final(v)@) == rview(old(v)@) + modifier_letter_chunk_7(),
{
    let ghost o = rview(v@);
    push_range(v, '\u{FF9E}', '\u{FF9F}');
    push_range(v, '\u{10780}', '\u{10785}');
    push_range(v, '\u{10787}', '\u{107B0}');
    push_range(v, '\u{107B2}', '\u{107BA}');
    push_range(v, '\u{10D4E}', '\u{10D4E}');
    push_range(v, '\u{10D6F}', '\u{10D6F}');
    push_range(v, '\u{16B40}', '\u{16B43}');
    push_range(v, '\u{16D40}', '\u{16D42}');
    assert(rview(v@) =~= o + modifier_letter_chunk_7());
}

fn push_modifier_letter_chunk_8(v: &mut Vec<ClassUnicodeRange>)
    ensures
        rview(final(v)@) == rview(old(v)@) + modifier_letter_chunk_8(),
{
    let ghost o = rview(v@);
    push_range(v, '\u{16D6B}', '\u{16D6C}');
    push_range(v, '\u{16F93}', '\u{16F9F}');
    push_range(v, '\u{16FE0}', '\u{16FE1}');
    push_range(v, '\u{16FE3}', '\u{16FE3}');
    push_range(v, '\u{1AFF0}', '\u{1AFF3}');
    push_range(v, '\u{1AFF5}', '\u{1AFFB}');
    push_range(v, '\u{1AFFD}', '\u{1AFFE}');
    push_range(v, '\u{1E030}', '\u{1E06D}');
    assert(rview(v@) =~= o + modifier_letter_chunk_8());
}

fn push_modifier_letter_chunk_9(v: &mut Vec<ClassUnicodeRange>)
    ensures
        rview(final(v)@) == rview(old(v)@) + modifier_letter_chunk_9(),
{
    let ghost o = rview(v@);
    push_range(v, '\u{1E137}', '\u{1E13D}');
    push_range(v, '\u{1E4EB}', '\u{1E4EB}');
    push_range(v, '\u{1E94B}', '\u{1E94B}');
    assert(rview(v@) =~= o + modifier_letter_chunk_9());
}

fn push_modifier_letter_block_0(v: &mut Vec<ClassUnicodeRange>)
    ensures
        rview(final(v)@) == rview(old(v)@) + modifier_letter_block_0(),
{
    let ghost o = rview(v@);
    push_modifier_letter_chunk_0(v);
    assert(rview(v@) =~= o + (modifier_letter_chunk_0()));
    push_modifier_letter_chunk_1(v);
    assert(rview(v@) =~= o + (modifier_letter_chunk_0() + modifier_letter_chunk_1()));
    push_modifier_letter_chunk_2(v);
    assert(rview(v@) =~= o + (modifier_letter_chunk_0() + modifier_letter_chunk_1() + modifier_letter_chunk_2()));
    push_modifier_letter_chunk_3(v);
    assert(rview(v@) =~= o + (modifier_letter_chunk_0() + modifier_letter_chunk_1() + modifier_letter_chunk_2() + modifier_letter_chunk_3()));
    push_modifier_letter_chunk_4(v);
    assert(rview(v@) =~= o + (modifier_letter_chunk_0() + modifier_letter_chunk_1() + modifier_letter_chunk_2() + modifier_letter_chunk_3() + modifier_letter_chunk_4()));
    push_modifier_letter_chunk_5(v);
    assert(rview(v@) =~= o + (modifier_letter_chunk_0() + modifier_letter_chunk_1() + modifier_letter_chunk_2() + modifier_letter_chunk_3() + modifier_letter_chunk_4() + modifier_letter_chunk_5()));
    push_modifier_letter_chunk_6(v);
    assert(rview(v@) =~= o + (modifier_letter_chunk_0() + modifier_letter_chunk_1() + modifier_letter_chunk_2() + modifier_letter_chunk_3() + modifier_letter_chunk_4() + modifier_letter_chunk_5() + modifier_letter_chunk_6()));
    push_modifier_letter_chunk_7(v);
    assert(rview(v@) =~= o + (modifier_letter_chunk_0() + modifier_letter_chunk_1() + modifier_letter_chunk_2() + modifier_letter_chunk_3() + modifier_letter_chunk_4() + modifier_letter_chunk_5() + modifier_letter_chunk_6() + modifier_letter_chunk_7()));
    push_modifier_letter_chunk_8(v);
    assert(rview(v@) =~= o + (modifier_letter_chunk_0() + modifier_letter_chunk_1() + modifier_letter_chunk_2() + modifier_letter_chunk_3() + modifier_letter_chunk_4() + modifier_letter_chunk_5() + modifier_letter_chunk_6() + modifier_letter_chunk_7() + modifier_letter_chunk_8()));
    push_modifier_letter_chunk_9(v);
    assert(rview(v@) =~= o + (modifier_letter_chunk_0() + modifier_letter_chunk_1() + modifier_letter_chunk_2() + modifier_letter_chunk_3() + modifier_letter_chunk_4() + modifier_letter_chunk_5() + modifier_letter_chunk_6() + modifier_letter_chunk_7() + modifier_letter_chunk_8() + modifier_letter_chunk_9()));
}

/// The ranges of the general category Modifier_Letter.
pub fn modifier_letter_class() -> (v: Vec<ClassUnicodeRange>)
    ensures
        rview(v@) == modifier_letter_ranges(),
{
    let mut v: Vec<ClassUnicodeRange> = Vec::new();
    assert(rview(v@) =~= Seq::<SRange>::empty());
    push_modifier_letter_block_0(&mut v);
    assert(rview(v@) =~= modifier_letter_block_0());
    v
}

pub open spec fn modifier_symbol_chunk_0() -> Seq<SRange> {
    seq![(0x5Eint, 0x5Eint), (0x60int, 0x60int), (0xA8int, 0xA8int), (0xAFint, 0xAFint), (0xB4int, 0xB4int), (0xB8int, 0xB8int), (0x2C2int, 0x2C5int), (0x2D2int, 0x2DFint)]
}

pub open spec fn modifier_symbol_chunk_1() -> Seq<SRange> {
    seq![(0x2E5int, 0x2EBint), (0x2EDint, 0x2EDint), (0x2EFint, 0x2FFint), (0x375int, 0x375int), (0x384int, 0x385int), (0x888int, 0x888int), (0x1FBDint, 0x1FBDint), (0x1FBFint, 0x1FC1int)]
}

pub open spec fn modifier_symbol_chunk_2() -> Seq<SRange> {
    seq![(0x1FCDint, 0x1FCFint), (0x1FDDint, 0x1FDFint), (0x1FEDint, 0x1FEFint), (0x1FFDint, 0x1FFEint), (0x309Bint, 0x309Cint), (0xA700int, 0xA716int), (0xA720int, 0xA721int), (0xA789int, 0xA78Aint)]
}

pub open spec fn modifier_symbol_chunk_3() -> Seq<SRange> {
    seq![(0xAB5Bint, 0xAB5Bint), (0xAB6Aint, 0xAB6Bint), (0xFBB2int, 0xFBC2int), (0xFF3Eint, 0xFF3Eint), (0xFF40int, 0xFF40int), (0xFFE3int, 0xFFE3int), (0x1F3FBint, 0x1F3FFint)]
}

pub open spec fn modifier_symbol_block_0() -> Seq<SRange> {
    modifier_symbol_chunk_0() + modifier_symbol_chunk_1() + modifier_symbol_chunk_2() + modifier_symbol_chunk_3()
}

/// The ranges of the general category Modifier_Symbol.
pub open spec fn modifier_symbol_ranges() -> Seq<SRange> {
    modifier_symbol_block_0()
}

proof fn lemma_modifier_symbol_block_0()
    ensures
        canonical(modifier_symbol_block_0()),
        modifier_symbol_block_0().len() > 0,
        modifier_symbol_block_0()[0] == modifier_symbol_chunk_0()[0],
        modifier_symbol_block_0().last() == modifier_symbol_chunk_3().last(),
{
    reveal_with_fuel(canonical, 9);
    assert(canonical(modifier_symbol_chunk_0()));
    assert(canonical(modifier_symbol_chunk_1()));
    assert(canonical(modifier_symbol_chunk_2()));
    assert(canonical(modifier_symbol_chunk_3()));
    lemma_canonical_append(modifier_symbol_chunk_0(), modifier_symbol_chunk_1());
    lemma_canonical_append(modifier_symbol_chunk_0() + modifier_symbol_chunk_1(), modifier_symbol_chunk_2());
    lemma_canonical_append(modifier_symbol_chunk_0() + modifier_symbol_chunk_1() + modifier_symbol_chunk_2(), modifier_symbol_chunk_3());
}

/// The general category Modifier_Symbol is a canonical class.
pub proof fn lemma_modifier_symbol_canonical()
    ensures
        canonical(modifier_symbol_ranges()),
{
    lemma_modifier_symbol_block_0();
}

fn push_modifier_symbol_chunk_0(v: &mut Vec<ClassUnicodeRange>)
    ensures
        rview(final(v)@) == rview(old(v)@) + modifier_symbol_chunk_0(),
{
    let ghost o = rview(v@);
    push_range(v, '\u{5E}', '\u{5E}');
    push_range(v, '\u{60}', '\u{60}');
    push_range(v, '\u{A8}', '\u{A8}');
    push_range(v, '\u{AF}', '\u{AF}');
    push_range(v, '\u{B4}', '\u{B4}');
    push_range(v, '\u{B8}', '\u{B8}');
    push_range(v, '\u{2C2}', '\u{2C5}');
    push_range(v, '\u{2D2}', '\u{2DF}');
    assert(rview(v@) =~= o + modifier_symbol_chunk_0());
}

fn push_modifier_symbol_chunk_1(v: &mut Vec<ClassUnicodeRange>)
    ensures
        rview(final(v)@) == rview(old(v)@) + modifier_symbol_chunk_1(),
{
    let ghost o = rview(v@);
    push_range(v, '\u{2E5}', '\u{2EB}');
    push_range(v, '\u{2ED}', '\u{2ED}');
    push_range(v, '\u{2EF}', '\u{2FF}');
    push_range(v, '\u{375}', '\u{375}');
    push_range(v, '\u{384}', '\u{385}');
    push_range(v, '\u{888}', '\u{888}');
    push_range(v, '\u{1FBD}', '\u{1FBD}');
    push_range(v, '\u{1FBF}', '\u{1FC1}');
    assert(rview(v@) =~= o + modifier_symbol_chunk_1());
}

fn push_modifier_symbol_chunk_2(v: &mut Vec<ClassUnicodeRange>)
    ensures
        rview(final(v)@) == rview(old(v)@) + modifier_symbol_chunk_2(),
{
    let ghost o = rview(v@);
    push_range(v, '\u{1FCD}', '\u{1FCF}');
    push_range(v, '\u{1FDD}', '\u{1FDF}');
    push_range(v, '\u{1FED}', '\u{1FEF}');
    push_range(v, '\u{1FFD}', '\u{1FFE}');
    push_range(v, '\u{309B}', '\u{309C}');
    push_range(v, '\u{A700}', '\u{A716}');
    push_range(v, '\u{A720}', '\u{A721}');
    push_range(v, '\u{A789}', '\u{A78A}');
    assert(rview(v@) =~= o + modifier_symbol_chunk_2());
}

fn push_modifier_symbol_chunk_3(v: &mut Vec<ClassUnicodeRange>)
    ensures
        rview(final(v)@) == rview(old(v)@) + modifier_symbol_chunk_3(),
{
    let ghost o = rview(v@);
    push_range(v, '\u{AB5B}', '\u{AB5B}');
    push_range(v, '\u{AB6A}', '\u{AB6B}');
    push_range(v, '\u{FBB2}', '\u{FBC2}');
    push_range(v, '\u{FF3E}', '\u{FF3E}');
    push_range(v, '\u{FF40}', '\u{FF40}');
    push_range(v, '\u{FFE3}', '\u{FFE3}');
    push_range(v, '\u{1F3FB}', '\u{1F3FF}');
    assert(rview(v@) =~= o + modifier_symbol_chunk_3());
}

fn push_modifier_symbol_block_0(v: &mut Vec<ClassUnicodeRange>)
    ensures
        rview(final(v)@) == rview(old(v)@) + modifier_symbol_block_0(),
{
    let ghost o = rview(v@);
    push_modifier_symbol_chunk_0(v);
    assert(rview(v@) =~= o + (modifier_symbol_chunk_0()));
    push_modifier_symbol_chunk_1(v);
    assert(rview(v@) =~= o + (modifier_symbol_chunk_0() + modifier_symbol_chunk_1()));
    push_modifier_symbol_chunk_2(v);
    assert(rview(v@) =~= o + (modifier_symbol_chunk_0() + modifier_symbol_chunk_1() + modifier_symbol_chunk_2()));
    push_modifier_symbol_chunk_3(v);
    assert(rview(v@) =~= o + (modifier_symbol_chunk_0() + modifier_symbol_chunk_1() + modifier_symbol_chunk_2() + modifier_symbol_chunk_3()));
}

/// The ranges of the general category Modifier_Symbol.
pub fn modifier_symbol_class() -> (v: Vec<ClassUnicodeRange>)
    ensures
        rview(v@) == modifier_symbol_ranges(),
{
    let mut v: Vec<ClassUnicodeRange> = Vec::new();
    assert(rview(v@) =~= Seq::<SRange>::empty());
    push_modifier_symbol_block_0(&mut v);
    assert(rview(v@) =~= modifier_symbol_block_0());
    v
}

pub open spec fn nonspacing_mark_chunk_0() -> Seq<SRange> {
    seq![(0x300int, 0x36Fint), (0x483int, 0x487int), (0x591int, 0x5BDint), (0x5BFint, 0x5BFint), (0x5C1int, 0x5C2int), (0x5C4int, 0x5C5int), (0x5C7int, 0x5C7int), (0x610int, 0x61Aint)]
}

pub open spec fn nonspacing_mark_chunk_1() -> Seq<SRange> {
    seq![(0x64Bint, 0x65Fint), (0x670int, 0x670int), (0x6D6int, 0x6DCint), (0x6DFint, 0x6E4int), (0x6E7int, 0x6E8int), (0x6EAint, 0x6EDint), (0x711int, 0x711int), (0x730int, 0x74Aint)]
}

pub open spec fn nonspacing_mark_chunk_2() -> Seq<SRange> {
    seq![(0x7A6int, 0x7B0int), (0x7EBint, 0x7F3int), (0x7FDint, 0x7FDint), (0x816int, 0x819int), (0x81Bint, 0x823int), (0x825int, 0x827int), (0x829int, 0x82Dint), (0x859int, 0x85Bint)]
}

pub open spec fn nonspacing_mark_chunk_3() -> Seq<SRange> {
    seq![(0x897int, 0x89Fint), (0x8CAint, 0x8E1int), (0x8E3int, 0x902int), (0x93Aint, 0x93Aint), (0x93Cint, 0x93Cint), (0x941int, 0x948int), (0x94Dint, 0x94Dint), (0x951int, 0x957int)]
}

pub open spec fn nonspacing_mark_chunk_4() -> Seq<SRange> {
    seq![(0x962int, 0x963int), (0x981int, 0x981int), (0x9BCint, 0x9BCint), (0x9C1int, 0x9C4int), (0x9CDint, 0x9CDint), (0x9E2int, 0x9E3int), (0x9FEint, 0x9FEint), (0xA01int, 0xA02int)]
}

pub open spec fn nonspacing_mark_chunk_5() -> Seq<SRange> {
    seq![(0xA3Cint, 0xA3Cint), (0xA41int, 0xA42int), (0xA47int, 0xA48int), (0xA4Bint, 0xA4Dint), (0xA51int, 0xA51int), (0xA70int, 0xA71int), (0xA75int, 0xA75int), (0xA81int, 0xA82int)]
}

pub open spec fn nonspacing_mark_chunk_6() -> Seq<SRange> {
    seq![(0xABCint, 0xABCint), (0xAC1int, 0xAC5int), (0xAC7int, 0xAC8int), (0xACDint, 0xACDint), (0xAE2int, 0xAE3int), (0xAFAint, 0xAFFint), (0xB01int, 0xB01int), (0xB3Cint, 0xB3Cint)]
}

pub open spec fn nonspacing_mark_chunk_7() -> Seq<SRange> {
    seq![(0xB3Fint, 0xB3Fint), (0xB41int, 0xB44int), (0xB4Dint, 0xB4Dint), (0xB55int, 0xB56int), (0xB62int, 0xB63int), (0xB82int, 0xB82int), (0xBC0int, 0xBC0int), (0xBCDint, 0xBCDint)]
}

pub open spec fn nonspacing_mark_chunk_8() -> Seq<SRange> {
    seq![(0xC00int, 0xC00int), (0xC04int, 0xC04int), (0xC3Cint, 0xC3Cint), (0xC3Eint, 0xC40int), (0xC46int, 0xC48int), (0xC4Aint, 0xC4Dint), (0xC55int, 0xC56int), (0xC62int, 0xC63int)]
}

pub open spec fn nonspacing_mark_chunk_9() -> Seq<SRange> {
    seq![(0xC81int, 0xC81int), (0xCBCint, 0xCBCint), (0xCBFint, 0xCBFint), (0xCC6int, 0xCC6int), (0xCCCint, 0xCCDint), (0xCE2int, 0xCE3int), (0xD00int, 0xD01int), (0xD3Bint, 0xD3Cint)]
}

pub open spec fn nonspacing_mark_chunk_10() -> Seq<SRange> {
    seq![(0xD41int, 0xD44int), (0xD4Dint, 0xD4Dint), (0xD62int, 0xD63int), (0xD81int, 0xD81int), (0xDCAint, 0xDCAint), (0xDD2int, 0xDD4int), (0xDD6int, 0xDD6int), (0xE31int, 0xE31int)]
}

pub open spec fn nonspacing_mark_chunk_11() -> Seq<SRange> {
    seq![(0xE34int, 0xE3Aint), (0xE47int, 0xE4Eint), (0xEB1int, 0xEB1int), (0xEB4int, 0xEBCint), (0xEC8int, 0xECEint), (0xF18int, 0xF19int), (0xF35int, 0xF35int), (0xF37int, 0xF37int)]
}

pub open spec fn nonspacing_mark_chunk_12() -> Seq<SRange> {
    seq![(0xF39int, 0xF39int), (0xF71int, 0xF7Eint), (0xF80int, 0xF84int), (0xF86int, 0xF87int), (0xF8Dint, 0xF97int), (0xF99int, 0xFBCint), (0xFC6int, 0xFC6int), (0x102Dint, 0x1030int)]
}

pub open spec fn nonspacing_mark_chunk_13() -> Seq<SRange> {
    seq![(0x1032int, 0x1037int), (0x1039int, 0x103Aint), (0x103Dint, 0x103Eint), (0x1058int, 0x1059int), (0x105Eint, 0x1060int), (0x1071int, 0x1074int), (0x1082int, 0x1082int), (0x1085int, 0x1086int)]
}

pub open spec fn nonspacing_mark_chunk_14() -> Seq<SRange> {
    seq![(0x108Dint, 0x108Dint), (0x109Dint, 0x109Dint), (0x135Dint, 0x135Fint), (0x1712int, 0x1714int), (0x1732int, 0x1733int), (0x1752int, 0x1753int), (0x1772int, 0x1773int), (0x17B4int, 0x17B5int)]
}

pub open spec fn nonspacing_mark_chunk_15() -> Seq<SRange> {
    seq![(0x17B7int, 0x17BDint), (0x17C6int, 0x17C6int), (0x17C9int, 0x17D3int), (0x17DDint, 0x17DDint), (0x180Bint, 0x180Dint), (0x180Fint, 0x180Fint), (0x1885int, 0x1886int), (0x18A9int, 0x18A9int)]
}

pub open spec fn nonspacing_mark_chunk_16() -> Seq<SRange> {
    seq![(0x1920int, 0x1922int), (0x1927int, 0x1928int), (0x1932int, 0x1932int), (0x1939int, 0x193Bint), (0x1A17int, 0x1A18int), (0x1A1Bint, 0x1A1Bint), (0x1A56int, 0x1A56int), (0x1A58int, 0x1A5Eint)]
}

pub open spec fn nonspacing_mark_chunk_17() -> Seq<SRange> {
    seq![(0x1A60int, 0x1A60int), (0x1A62int, 0x1A62int), (0x1A65int, 0x1A6Cint), (0x1A73int, 0x1A7Cint), (0x1A7Fint, 0x1A7Fint), (0x1AB0int, 0x1ABDint), (0x1ABFint, 0x1ACEint), (0x1B00int, 0x1B03int)]
}

pub open spec fn nonspacing_mark_chunk_18() -> Seq<SRange> {
    seq![(0x1B34int, 0x1B34int), (0x1B36int, 0x1B3Aint), (0x1B3Cint, 0x1B3Cint), (0x1B42int, 0x1B42int), (0x1B6Bint, 0x1B73int), (0x1B80int, 0x1B81int), (0x1BA2int, 0x1BA5int), (0x1BA8int, 0x1BA9int)]
}

pub open spec fn nonspacing_mark_chunk_19() -> Seq<SRange> {
    seq![(0x1BABint, 0x1BADint), (0x1BE6int, 0x1BE6int), (0x1BE8int, 0x1BE9int), (0x1BEDint, 0x1BEDint), (0x1BEFint, 0x1BF1int), (0x1C2Cint, 0x1C33int), (0x1C36int, 0x1C37int), (0x1CD0int, 0x1CD2int)]
}

pub open spec fn nonspacing_mark_chunk_20() -> Seq<SRange> {
    seq![(0x1CD4int, 0x1CE0int), (0x1CE2int, 0x1CE8int), (0x1CEDint, 0x1CEDint), (0x1CF4int, 0x1CF4int), (0x1CF8int, 0x1CF9int), (0x1DC0int, 0x1DFFint), (0x20D0int, 0x20DCint), (0x20E1int, 0x20E1int)]
}

pub open spec fn nonspacing_mark_chunk_21() -> Seq<SRange> {
    seq![(0x20E5int, 0x20F0int), (0x2CEFint, 0x2CF1int), (0x2D7Fint, 0x2D7Fint), (0x2DE0int, 0x2DFFint), (0x302Aint, 0x302Dint), (0x3099int, 0x309Aint), (0xA66Fint, 0xA66Fint), (0xA674int, 0xA67Dint)]
}

pub open spec fn nonspacing_mark_chunk_22() -> Seq<SRange> {
    seq![(0xA69Eint, 0xA69Fint), (0xA6F0int, 0xA6F1int), (0xA802int, 0xA802int), (0xA806int, 0xA806int), (0xA80Bint, 0xA80Bint), (0xA825int, 0xA826int), (0xA82Cint, 0xA82Cint), (0xA8C4int, 0xA8C5int)]
}

pub open spec fn nonspacing_mark_chunk_23() -> Seq<SRange> {
    seq![(0xA8E0int, 0xA8F1int), (0xA8FFint, 0xA8FFint), (0xA926int, 0xA92Dint), (0xA947int, 0xA951int), (0xA980int, 0xA982int), (0xA9B3int, 0xA9B3int), (0xA9B6int, 0xA9B9int), (0xA9BCint, 0xA9BDint)]
}

pub open spec fn nonspacing_mark_chunk_24() -> Seq<SRange> {
    seq![(0xA9E5int, 0xA9E5int), (0xAA29int, 0xAA2Eint), (0xAA31int, 0xAA32int), (0xAA35int, 0xAA36int), (0xAA43int, 0xAA43int), (0xAA4Cint, 0xAA4Cint), (0xAA7Cint, 0xAA7Cint), (0xAAB0int, 0xAAB0int)]
}

pub open spec fn nonspacing_mark_chunk_25() -> Seq<SRange> {
    seq![(0xAAB2int, 0xAAB4int), (0xAAB7int, 0xAAB8int), (0xAABEint, 0xAABFint), (0xAAC1int, 0xAAC1int), (0xAAECint, 0xAAEDint), (0xAAF6int, 0xAAF6int), (0xABE5int, 0xABE5int), (0xABE8int, 0xABE8int)]
}

pub open spec fn nonspacing_mark_chunk_26() -> Seq<SRange> {
    seq![(0xABEDint, 0xABEDint), (0xFB1Eint, 0xFB1Eint), (0xFE00int, 0xFE0Fint), (0xFE20int, 0xFE2Fint), (0x101FDint, 0x101FDint), (0x102E0int, 0x102E0int), (0x10376int, 0x1037Aint), (0x10A01int, 0x10A03int)]
}

pub open spec fn nonspacing_mark_chunk_27() -> Seq<SRange> {
    seq![(0x10A05int, 0x10A06int), (0x10A0Cint, 0x10A0Fint), (0x10A38int, 0x10A3Aint), (0x10A3Fint, 0x10A3Fint), (0x10AE5int, 0x10AE6int), (0x10D24int, 0x10D27int), (0x10D69int, 0x10D6Dint), (0x10EABint, 0x10EACint)]
}

pub open spec fn nonspacing_mark_chunk_28() -> Seq<SRange> {
    seq![(0x10EFCint, 0x10EFFint), (0x10F46int, 0x10F50int), (0x10F82int, 0x10F85int), (0x11001int, 0x11001int), (0x11038int, 0x11046int), (0x11070int, 0x11070int), (0x11073int, 0x11074int), (0x1107Fint, 0x11081int)]
}

pub open spec fn nonspacing_mark_chunk_29() -> Seq<SRange> {
    seq![(0x110B3int, 0x110B6int), (0x110B9int, 0x110BAint), (0x110C2int, 0x110C2int), (0x11100int, 0x11102int), (0x11127int, 0x1112Bint), (0x1112Dint, 0x11134int), (0x11173int, 0x11173int), (0x11180int, 0x11181int)]
}

pub open spec fn nonspacing_mark_chunk_30() -> Seq<SRange> {
    seq![(0x111B6int, 0x111BEint), (0x111C9int, 0x111CCint), (0x111CFint, 0x111CFint), (0x1122Fint, 0x11231int), (0x11234int, 0x11234int), (0x11236int, 0x11237int), (0x1123Eint, 0x1123Eint), (0x11241int, 0x11241int)]
}

pub open spec fn nonspacing_mark_chunk_31() -> Seq<SRange> {
    seq![(0x112DFint, 0x112DFint), (0x112E3int, 0x112EAint), (0x11300int, 0x11301int), (0x1133Bint, 0x1133Cint), (0x11340int, 0x11340int), (0x11366int, 0x1136Cint), (0x11370int, 0x11374int), (0x113BBint, 0x113C0int)]
}

pub open spec fn nonspacing_mark_chunk_32() -> Seq<SRange> {
    seq![(0x113CEint, 0x113CEint), (0x113D0int, 0x113D0int), (0x113D2int, 0x113D2int), (0x113E1int, 0x113E2int), (0x11438int, 0x1143Fint), (0x11442int, 0x11444int), (0x11446int, 0x11446int), (0x1145Eint, 0x1145Eint)]
}

pub open spec fn nonspacing_mark_chunk_33() -> Seq<SRange> {
    seq![(0x114B3int, 0x114B8int), (0x114BAint, 0x114BAint), (0x114BFint, 0x114C0int), (0x114C2int, 0x114C3int), (0x115B2int, 0x115B5int), (0x115BCint, 0x115BDint), (0x115BFint, 0x115C0int), (0x115DCint, 0x115DDint)]
}

pub open spec fn nonspacing_mark_chunk_34() -> Seq<SRange> {
    seq![(0x11633int, 0x1163Aint), (0x1163Dint, 0x1163Dint), (0x1163Fint, 0x11640int), (0x116ABint, 0x116ABint), (0x116ADint, 0x116ADint), (0x116B0int, 0x116B5int), (0x116B7int, 0x116B7int), (0x1171Dint, 0x1171Dint)]
}

pub open spec fn nonspacing_mark_chunk_35() -> Seq<SRange> {
    seq![(0x1171Fint, 0x1171Fint), (0x11722int, 0x11725int), (0x11727int, 0x1172Bint), (0x1182Fint, 0x11837int), (0x11839int, 0x1183Aint), (0x1193Bint, 0x1193Cint), (0x1193Eint, 0x1193Eint), (0x11943int, 0x11943int)]
}

pub open spec fn nonspacing_mark_chunk_36() -> Seq<SRange> {
    seq![(0x119D4int, 0x119D7int), (0x119DAint, 0x119DBint), (0x119E0int, 0x119E0int), (0x11A01int, 0x11A0Aint), (0x11A33int, 0x11A38int), (0x11A3Bint, 0x11A3Eint), (0x11A47int, 0x11A47int), (0x11A51int, 0x11A56int)]
}

pub open spec fn nonspacing_mark_chunk_37() -> Seq<SRange> {
    seq![(0x11A59int, 0x11A5Bint), (0x11A8Aint, 0x11A96int), (0x11A98int, 0x11A99int), (0x11C30int, 0x11C36int), (0x11C38int, 0x11C3Dint), (0x11C3Fint, 0x11C3Fint), (0x11C92int, 0x11CA7int), (0x11CAAint, 0x11CB0int)]
}

pub open spec fn nonspacing_mark_chunk_38() -> Seq<SRange> {
    seq![(0x11CB2int, 0x11CB3int), (0x11CB5int, 0x11CB6int), (0x11D31int, 0x11D36int), (0x11D3Aint, 0x11D3Aint), (0x11D3Cint, 0x11D3Dint), (0x11D3Fint, 0x11D45int), (0x11D47int, 0x11D47int), (0x11D90int, 0x11D91int)]
}

pub open spec fn nonspacing_mark_chunk_39() -> Seq<SRange> {
    seq![(0x11D95int, 0x11D95int), (0x11D97int, 0x11D97int), (0x11EF3int, 0x11EF4int), (0x11F00int, 0x11F01int), (0x11F36int, 0x11F3Aint), (0x11F40int, 0x11F40int), (0x11F42int, 0x11F42int), (0x11F5Aint, 0x11F5Aint)]
}

pub open spec fn nonspacing_mark_chunk_40() -> Seq<SRange> {
    seq![(0x13440int, 0x13440int), (0x13447int, 0x13455int), (0x1611Eint, 0x16129int), (0x1612Dint, 0x1612Fint), (0x16AF0int, 0x16AF4int), (0x16B30int, 0x16B36int), (0x16F4Fint, 0x16F4Fint), (0x16F8Fint, 0x16F92int)]
}

pub open spec fn nonspacing_mark_chunk_41() -> Seq<SRange> {
    seq![(0x16FE4int, 0x16FE4int), (0x1BC9Dint, 0x1BC9Eint), (0x1CF00int, 0x1CF2Dint), (0x1CF30int, 0x1CF46int), (0x1D167int, 0x1D169int), (0x1D17Bint, 0x1D182int), (0x1D185int, 0x1D18Bint), (0x1D1AAint, 0x1D1ADint)]
}

pub open spec fn nonspacing_mark_chunk_42() -> Seq<SRange> {
    seq![(0x1D242int, 0x1D244int), (0x1DA00int, 0x1DA36int), (0x1DA3Bint, 0x1DA6Cint), (0x1DA75int, 0x1DA75int), (0x1DA84int, 0x1DA84int), (0x1DA9Bint, 0x1DA9Fint), (0x1DAA1int, 0x1DAAFint), (0x1E000int, 0x1E006int)]
}

pub open spec fn nonspacing_mark_chunk_43() -> Seq<SRange> {
    seq![(0x1E008int, 0x1E018int), (0x1E01Bint, 0x1E021int), (0x1E023int, 0x1E024int), (0x1E026int, 0x1E02Aint), (0x1E08Fint, 0x1E08Fint), (0x1E130int, 0x1E136int), (0x1E2AEint, 0x1E2AEint), (0x1E2ECint, 0x1E2EFint)]
}

pub open spec fn nonspacing_mark_chunk_44() -> Seq<SRange> {
    seq![(0x1E4ECint, 0x1E4EFint), (0x1E5EEint, 0x1E5EFint), (0x1E8D0int, 0x1E8D6int), (0x1E944int, 0x1E94Aint), (0xE0100int, 0xE01EFint)]
}

pub open spec fn nonspacing_mark_block_0() -> Seq<SRange> {
    nonspacing_mark_chunk_0() + nonspacing_mark_chunk_1() + nonspacing_mark_chunk_2() + nonspacing_mark_chunk_3() + nonspacing_mark_chunk_4() + nonspacing_mark_chunk_5() + nonspacing_mark_chunk_6() + nonspacing_mark_chunk_7() + nonspacing_mark_chunk_8() + nonspacing_mark_chunk_9()
}

pub open spec fn nonspacing_mark_block_1() -> Seq<SRange> {
    nonspacing_mark_chunk_10() + nonspacing_mark_chunk_11() + nonspacing_mark_chunk_12() + nonspacing_mark_chunk_13() + nonspacing_mark_chunk_14() + nonspacing_mark_chunk_15() + nonspacing_mark_chunk_16() + nonspacing_mark_chunk_17() + nonspacing_mark_chunk_18() + nonspacing_mark_chunk_19()
}

pub open spec fn nonspacing_mark_block_2() -> Seq<SRange> {
    nonspacing_mark_chunk_20() + nonspacing_mark_chunk_21() + nonspacing_mark_chunk_22() + nonspacing_mark_chunk_23() + nonspacing_mark_chunk_24() + nonspacing_mark_chunk_25() + nonspacing_mark_chunk_26() + nonspacing_mark_chunk_27() + nonspacing_mark_chunk_28() + nonspacing_mark_chunk_29()
}

pub open spec fn nonspacing_mark_block_3() -> Seq<SRange> {
    nonspacing_mark_chunk_30() + nonspacing_mark_chunk_31() + nonspacing_mark_chunk_32() + nonspacing_mark_chunk_33() + nonspacing_mark_chunk_34() + nonspacing_mark_chunk_35() + nonspacing_mark_chunk_36() + nonspacing_mark_chunk_37() + nonspacing_mark_chunk_38() + nonspacing_mark_chunk_39()
}

pub open spec fn nonspacing_mark_block_4() -> Seq<SRange> {
    nonspacing_mark_chunk_40() + nonspacing_mark_chunk_41() + nonspacing_mark_chunk_42() + nonspacing_mark_chunk_43() + nonspacing_mark_chunk_44()
}

/// The ranges of the general category Nonspacing_Mark.
pub open spec fn nonspacing_mark_ranges() -> Seq<SRange> {
    nonspacing_mark_block_0() + nonspacing_mark_block_1() + nonspacing_mark_block_2() + nonspacing_mark_block_3() + nonspacing_mark_block_4()
}

proof fn lemma_nonspacing_mark_block_0()
    ensures
        canonical(nonspacing_mark_block_0()),
        nonspacing_mark_block_0().len() > 0,
        nonspacing_mark_block_0()[0] == nonspacing_mark_chunk_0()[0],
        nonspacing_mark_block_0().last() == nonspacing_mark_chunk_9().last(),
{
    reveal_with_fuel(canonical, 9);
    assert(canonical(nonspacing_mark_chunk_0()));
    assert(canonical(nonspacing_mark_chunk_1()));
    assert(canonical(nonspacing_mark_chunk_2()));
    assert(canonical(nonspacing_mark_chunk_3()));
    assert(canonical(nonspacing_mark_chunk_4()));
    assert(canonical(nonspacing_mark_chunk_5()));
    assert(canonical(nonspacing_mark_chunk_6()));
    assert(canonical(nonspacing_mark_chunk_7()));
    assert(canonical(nonspacing_mark_chunk_8()));
    assert(canonical(nonspacing_mark_chunk_9()));
    lemma_canonical_append(nonspacing_mark_chunk_0(), nonspacing_mark_chunk_1());
    lemma_canonical_append(nonspacing_mark_chunk_0() + nonspacing_mark_chunk_1(), nonspacing_mark_chunk_2());
    lemma_canonical_append(nonspacing_mark_chunk_0() + nonspacing_mark_chunk_1() + nonspacing_mark_chunk_2(), nonspacing_mark_chunk_3());
    lemma_canonical_append(nonspacing_mark_chunk_0() + nonspacing_mark_chunk_1() + nonspacing_mark_chunk_2() + nonspacing_mark_chunk_3(), nonspacing_mark_chunk_4());
    lemma_canonical_append(nonspacing_mark_chunk_0() + nonspacing_mark_chunk_1() + nonspacing_mark_chunk_2() + nonspacing_mark_chunk_3() + nonspacing_mark_chunk_4(), nonspacing_mark_chunk_5());
    lemma_canonical_append(nonspacing_mark_chunk_0() + nonspacing_mark_chunk_1() + nonspacing_mark_chunk_2() + nonspacing_mark_chunk_3() + nonspacing_mark_chunk_4() + nonspacing_mark_chunk_5(), nonspacing_mark_chunk_6());
    lemma_canonical_append(nonspacing_mark_chunk_0() + nonspacing_mark_chunk_1() + nonspacing_mark_chunk_2() + nonspacing_mark_chunk_3() + nonspacing_mark_chunk_4() + nonspacing_mark_chunk_5() + nonspacing_mark_chunk_6(), nonspacing_mark_chunk_7());
    lemma_canonical_append(nonspacing_mark_chunk_0() + nonspacing_mark_chunk_1() + nonspacing_mark_chunk_2() + nonspacing_mark_chunk_3() + nonspacing_mark_chunk_4() + nonspacing_mark_chunk_5() + nonspacing_mark_chunk_6() + nonspacing_mark_chunk_7(), nonspacing_mark_chunk_8());
    lemma_canonical_append(nonspacing_mark_chunk_0() + nonspacing_mark_chunk_1() + nonspacing_mark_chunk_2() + nonspacing_mark_chunk_3() + nonspacing_mark_chunk_4() + nonspacing_mark_chunk_5() + nonspacing_mark_chunk_6() + nonspacing_mark_chunk_7() + nonspacing_mark_chunk_8(), nonspacing_mark_chunk_9());
}

proof fn lemma_nonspacing_mark_block_1()
    ensures
        canonical(nonspacing_mark_block_1()),
        nonspacing_mark_block_1().len() > 0,
        nonspacing_mark_block_1()[0] == nonspacing_mark_chunk_10()[0],
        nonspacing_mark_block_1().last() == nonspacing_mark_chunk_19().last(),
{
    reveal_with_fuel(canonical, 9);
    assert(canonical(nonspacing_mark_chunk_10()));
    assert(canonical(nonspacing_mark_chunk_11()));
    assert(canonical(nonspacing_mark_chunk_12()));
    assert(canonical(nonspacing_mark_chunk_13()));
    assert(canonical(nonspacing_mark_chunk_14()));
    assert(canonical(nonspacing_mark_chunk_15()));
    assert(canonical(nonspacing_mark_chunk_16()));
    assert(canonical(nonspacing_mark_chunk_17()));
    assert(canonical(nonspacing_mark_chunk_18()));
    assert(canonical(nonspacing_mark_chunk_19()));
    lemma_canonical_append(nonspacing_mark_chunk_10(), nonspacing_mark_chunk_11());
    lemma_canonical_append(nonspacing_mark_chunk_10() + nonspacing_mark_chunk_11(), nonspacing_mark_chunk_12());
    lemma_canonical_append(nonspacing_mark_chunk_10() + nonspacing_mark_chunk_11() + nonspacing_mark_chunk_12(), nonspacing_mark_chunk_13());
    lemma_canonical_append(nonspacing_mark_chunk_10() + nonspacing_mark_chunk_11() + nonspacing_mark_chunk_12() + nonspacing_mark_chunk_13(), nonspacing_mark_chunk_14());
    lemma_canonical_append(nonspacing_mark_chunk_10() + nonspacing_mark_chunk_11() + nonspacing_mark_chunk_12() + nonspacing_mark_chunk_13() + nonspacing_mark_chunk_14(), nonspacing_mark_chunk_15());
    lemma_canonical_append(nonspacing_mark_chunk_10() + nonspacing_mark_chunk_11() + nonspacing_mark_chunk_12() + nonspacing_mark_chunk_13() + nonspacing_mark_chunk_14() + nonspacing_mark_chunk_15(), nonspacing_mark_chunk_16());
    lemma_canonical_append(nonspacing_mark_chunk_10() + nonspacing_mark_chunk_11() + nonspacing_mark_chunk_12() + nonspacing_mark_chunk_13() + nonspacing_mark_chunk_14() + nonspacing_mark_chunk_15() + nonspacing_mark_chunk_16(), nonspacing_mark_chunk_17());
    lemma_canonical_append(nonspacing_mark_chunk_10() + nonspacing_mark_chunk_11() + nonspacing_mark_chunk_12() + nonspacing_mark_chunk_13() + nonspacing_mark_chunk_14() + nonspacing_mark_chunk_15() + nonspacing_mark_chunk_16() + nonspacing_mark_chunk_17(), nonspacing_mark_chunk_18());
    lemma_canonical_append(nonspacing_mark_chunk_10() + nonspacing_mark_chunk_11() + nonspacing_mark_chunk_12() + nonspacing_mark_chunk_13() + nonspacing_mark_chunk_14() + nonspacing_mark_chunk_15() + nonspacing_mark_chunk_16() + nonspacing_mark_chunk_17() + nonspacing_mark_chunk_18(), nonspacing_mark_chunk_19());
}

proof fn lemma_nonspacing_mark_block_2()
    ensures
        canonical(nonspacing_mark_block_2()),
        nonspacing_mark_block_2().len() > 0,
        nonspacing_mark_block_2()[0] == nonspacing_mark_chunk_20()[0],
        nonspacing_mark_block_2().last() == nonspacing_mark_chunk_29().last(),
{
    reveal_with_fuel(canonical, 9);
    assert(canonical(nonspacing_mark_chunk_20()));
    assert(canonical(nonspacing_mark_chunk_21()));
    assert(canonical(nonspacing_mark_chunk_22()));
    assert(canonical(nonspacing_mark_chunk_23()));
    assert(canonical(nonspacing_mark_chunk_24()));
    assert(canonical(nonspacing_mark_chunk_25()));
    assert(canonical(nonspacing_mark_chunk_26()));
    assert(canonical(nonspacing_mark_chunk_27()));
    assert(canonical(nonspacing_mark_chunk_28()));
    assert(canonical(nonspacing_mark_chunk_29()));
    lemma_canonical_append(nonspacing_mark_chunk_20(), nonspacing_mark_chunk_21());
    lemma_canonical_append(nonspacing_mark_chunk_20() + nonspacing_mark_chunk_21(), nonspacing_mark_chunk_22());
    lemma_canonical_append(nonspacing_mark_chunk_20() + nonspacing_mark_chunk_21() + nonspacing_mark_chunk_22(), nonspacing_mark_chunk_23());
    lemma_canonical_append(nonspacing_mark_chunk_20() + nonspacing_mark_chunk_21() + nonspacing_mark_chunk_22() + nonspacing_mark_chunk_23(), nonspacing_mark_chunk_24());
    lemma_canonical_append(nonspacing_mark_chunk_20() + nonspacing_mark_chunk_21() + nonspacing_mark_chunk_22() + nonspacing_mark_chunk_23() + nonspacing_mark_chunk_24(), nonspacing_mark_chunk_25());
    lemma_canonical_append(nonspacing_mark_chunk_20() + nonspacing_mark_chunk_21() + nonspacing_mark_chunk_22() + nonspacing_mark_chunk_23() + nonspacing_mark_chunk_24() + nonspacing_mark_chunk_25(), nonspacing_mark_chunk_26());
    lemma_canonical_append(nonspacing_mark_chunk_20() + nonspacing_mark_chunk_21() + nonspacing_mark_chunk_22() + nonspacing_mark_chunk_23() + nonspacing_mark_chunk_24() + nonspacing_mark_chunk_25() + nonspacing_mark_chunk_26(), nonspacing_mark_chunk_27());
    lemma_canonical_append(nonspacing_mark_chunk_20() + nonspacing_mark_chunk_21() + nonspacing_mark_chunk_22() + nonspacing_mark_chunk_23() + nonspacing_mark_chunk_24() + nonspacing_mark_chunk_25() + nonspacing_mark_chunk_26() + nonspacing_mark_chunk_27(), nonspacing_mark_chunk_28());
    lemma_canonical_append(nonspacing_mark_chunk_20() + nonspacing_mark_chunk_21() + nonspacing_mark_chunk_22() + nonspacing_mark_chunk_23() + nonspacing_mark_chunk_24() + nonspacing_mark_chunk_25() + nonspacing_mark_chunk_26() + nonspacing_mark_chunk_27() + nonspacing_mark_chunk_28(), nonspacing_mark_chunk_29());
}

proof fn lemma_nonspacing_mark_block_3()
    ensures
        canonical(nonspacing_mark_block_3()),
        nonspacing_mark_block_3().len() > 0,
        nonspacing_mark_block_3()[0] == nonspacing_mark_chunk_30()[0],
        nonspacing_mark_block_3().last() == nonspacing_mark_chunk_39().last(),
{
    reveal_with_fuel(canonical, 9);
    assert(canonical(nonspacing_mark_chunk_30()));
    assert(canonical(nonspacing_mark_chunk_31()));
    assert(canonical(nonspacing_mark_chunk_32()));
    assert(canonical(nonspacing_mark_chunk_33()));
    assert(canonical(nonspacing_mark_chunk_34()));
    assert(canonical(nonspacing_mark_chunk_35()));
    assert(canonical(nonspacing_mark_chunk_36()));
    assert(canonical(nonspacing_mark_chunk_37()));
    assert(canonical(nonspacing_mark_chunk_38()));
    assert(canonical(nonspacing_mark_chunk_39()));
    lemma_canonical_append(nonspacing_mark_chunk_30(), nonspacing_mark_chunk_31());
    lemma_canonical_append(nonspacing_mark_chunk_30() + nonspacing_mark_chunk_31(), nonspacing_mark_chunk_32());
    lemma_canonical_append(nonspacing_mark_chunk_30() + nonspacing_mark_chunk_31() + nonspacing_mark_chunk_32(), nonspacing_mark_chunk_33());
    lemma_canonical_append(nonspacing_mark_chunk_30() + nonspacing_mark_chunk_31() + nonspacing_mark_chunk_32() + nonspacing_mark_chunk_33(), nonspacing_mark_chunk_34());
    lemma_canonical_append(nonspacing_mark_chunk_30() + nonspacing_mark_chunk_31() + nonspacing_mark_chunk_32() + nonspacing_mark_chunk_33() + nonspacing_mark_chunk_34(), nonspacing_mark_chunk_35());
    lemma_canonical_append(nonspacing_mark_chunk_30() + nonspacing_mark_chunk_31() + nonspacing_mark_chunk_32() + nonspacing_mark_chunk_33() + nonspacing_mark_chunk_34() + nonspacing_mark_chunk_35(), nonspacing_mark_chunk_36());
    lemma_canonical_append(nonspacing_mark_chunk_30() + nonspacing_mark_chunk_31() + nonspacing_mark_chunk_32() + nonspacing_mark_chunk_33() + nonspacing_mark_chunk_34() + nonspacing_mark_chunk_35() + nonspacing_mark_chunk_36(), nonspacing_mark_chunk_37());
    lemma_canonical_append(nonspacing_mark_chunk_30() + nonspacing_mark_chunk_31() + nonspacing_mark_chunk_32() + nonspacing_mark_chunk_33() + nonspacing_mark_chunk_34() + nonspacing_mark_chunk_35() + nonspacing_mark_chunk_36() + nonspacing_mark_chunk_37(), nonspacing_mark_chunk_38());
    lemma_canonical_append(nonspacing_mark_chunk_30() + nonspacing_mark_chunk_31() + nonspacing_mark_chunk_32() + nonspacing_mark_chunk_33() + nonspacing_mark_chunk_34() + nonspacing_mark_chunk_35() + nonspacing_mark_chunk_36() + nonspacing_mark_chunk_37() + nonspacing_mark_chunk_38(), nonspacing_mark_chunk_39());
}

proof fn lemma_nonspacing_mark_block_4()
    ensures
        canonical(nonspacing_mark_block_4()),
        nonspacing_mark_block_4().len() > 0,
        nonspacing_mark_block_4()[0] == nonspacing_mark_chunk_40()[0],
        nonspacing_mark_block_4().last() == nonspacing_mark_chunk_44().last(),
{
    reveal_with_fuel(canonical, 9);
    assert(canonical(nonspacing_mark_chunk_40()));
    assert(canonical(nonspacing_mark_chunk_41()));
    assert(canonical(nonspacing_mark_chunk_42()));
    assert(canonical(nonspacing_mark_chunk_43()));
    assert(canonical(nonspacing_mark_chunk_44()));
    lemma_canonical_append(nonspacing_mark_chunk_40(), nonspacing_mark_chunk_41());
    lemma_canonical_append(nonspacing_mark_chunk_40() + nonspacing_mark_chunk_41(), nonspacing_mark_chunk_42());
    lemma_canonical_append(nonspacing_mark_chunk_40() + nonspacing_mark_chunk_41() + nonspacing_mark_chunk_42(), nonspacing_mark_chunk_43());
    lemma_canonical_append(nonspacing_mark_chunk_40() + nonspacing_mark_chunk_41() + nonspacing_mark_chunk_42() + nonspacing_mark_chunk_43(), nonspacing_mark_chunk_44());
}

/// The general category Nonspacing_Mark is a canonical class.
pub proof fn lemma_nonspacing_mark_canonical()
    ensures
        canonical(nonspacing_mark_ranges()),
{
    lemma_nonspacing_mark_block_0();
    lemma_nonspacing_mark_block_1();
    lemma_nonspacing_mark_block_2();
    lemma_nonspacing_mark_block_3();
    lemma_nonspacing_mark_block_4();
    lemma_canonical_append(nonspacing_mark_block_0(), nonspacing_mark_block_1());
    lemma_canonical_append(nonspacing_mark_block_0() + nonspacing_mark_block_1(), nonspacing_mark_block_2());
    lemma_canonical_append(nonspacing_mark_block_0() + nonspacing_mark_block_1() + nonspacing_mark_block_2(), nonspacing_mark_block_3());
    lemma_canonical_append(nonspacing_mark_block_0() + nonspacing_mark_block_1() + nonspacing_mark_block_2() + nonspacing_mark_block_3(), nonspacing_mark_block_4());
}

fn push_nonspacing_mark_chunk_0(v: &mut Vec<ClassUnicodeRange>)
    ensures
        rview(final(v)@) == rview(old(v)@) + nonspacing_mark_chunk_0(),
{
    let ghost o = rview(v@);
    push_range(v, '\u{300}', '\u{36F}');
    push_range(v, '\u{483}', '\u{487}');
    push_range(v, '\u{591}', '\u{5BD}');
    push_range(v, '\u{5BF}', '\u{5BF}');
    push_range(v, '\u{5C1}', '\u{5C2}');
    push_range(v, '\u{5C4}', '\u{5C5}');
    push_range(v, '\u{5C7}', '\u{5C7}');
    push_range(v, '\u{610}', '\u{61A}');
    assert(rview(v@) =~= o + nonspacing_mark_chunk_0());
}

fn push_nonspacing_mark_chunk_1(v: &mut Vec<ClassUnicodeRange>)
    ensures
        rview(final(v)@) == rview(old(v)@) + nonspacing_mark_chunk_1(),
{
    let ghost o = rview(v@);
    push_range(v, '\u{64B}', '\u{65F}');
    push_range(v, '\u{670}', '\u{670}');
    push_range(v, '\u{6D6}', '\u{6DC}');
    push_range(v, '\u{6DF}', '\u{6E4}');
    push_range(v, '\u{6E7}', '\u{6E8}');
    push_range(v, '\u{6EA}', '\u{6ED}');
    push_range(v, '\u{711}', '\u{711}');
    push_range(v, '\u{730}', '\u{74A}');
    assert(rview(v@) =~= o + nonspacing_mark_chunk_1());
}

fn push_nonspacing_mark_chunk_2(v: &mut Vec<ClassUnicodeRange>)
    ensures
        rview(final(v)@) == rview(old(v)@) + nonspacing_mark_chunk_2(),
{
    let ghost o = rview(v@);
    push_range(v, '\u{7A6}', '\u{7B0}');
    push_range(v, '\u{7EB}', '\u{7F3}');
    push_range(v, '\u{7FD}', '\u{7FD}');
    push_range(v, '\u{816}', '\u{819}');
    push_range(v, '\u{81B}', '\u{823}');
    push_range(v, '\u{825}', '\u{827}');
    push_range(v, '\u{829}', '\u{82D}');
    push_range(v, '\u{859}', '\u{85B}');
    assert(rview(v@) =~= o + nonspacing_mark_chunk_2());
}

fn push_nonspacing_mark_chunk_3(v: &mut Vec<ClassUnicodeRange>)
    ensures
        rview(final(v)@) == rview(old(v)@) + nonspacing_mark_chunk_3(),
{
    let ghost o = rview(v@);
    push_range(v, '\u{897}', '\u{89F}');
    push_range(v, '\u{8CA}', '\u{8E1}');
    push_range(v, '\u{8E3}', '\u{902}');
    push_range(v, '\u{93A}', '\u{93A}');
    push_range(v, '\u{93C}', '\u{93C}');
    push_range(v, '\u{941}', '\u{948}');
    push_range(v, '\u{94D}', '\u{94D}');
    push_range(v, '\u{951}', '\u{957}');
    assert(rview(v@) =~= o + nonspacing_mark_chunk_3());
}

fn push_nonspacing_mark_chunk_4(v: &mut Vec<ClassUnicodeRange>)
    ensures
        rview(final(v)@) == rview(old(v)@) + nonspacing_mark_chunk_4(),
{
    let ghost o = rview(v@);
    push_range(v, '\u{962}', '\u{963}');
    push_range(v, '\u{981}', '\u{981}');
    push_range(v, '\u{9BC}', '\u{9BC}');
    push_range(v, '\u{9C1}', '\u{9C4}');
    push_range(v, '\u{9CD}', '\u{9CD}');
    push_range(v, '\u{9E2}', '\u{9E3}');
    push_range(v, '\u{9FE}', '\u{9FE}');
    push_range(v, '\u{A01}', '\u{A02}');
    assert(rview(v@) =~= o + nonspacing_mark_chunk_4());
}

fn push_nonspacing_mark_chunk_5(v: &mut Vec<ClassUnicodeRange>)
    ensures
        rview(final(v)@) == rview(old(v)@) + nonspacing_mark_chunk_5(),
{
    let ghost o = rview(v@);
    push_range(v, '\u{A3C}', '\u{A3C}');
    push_range(v, '\u{A41}', '\u{A42}');
    push_range(v, '\u{A47}', '\u{A48}');
    push_range(v, '\u{A4B}', '\u{A4D}');
    push_range(v, '\u{A51}', '\u{A51}');
    push_range(v, '\u{A70}', '\u{A71}');
    push_range(v, '\u{A75}', '\u{A75}');
    push_range(v, '\u{A81}', '\u{A82}');
    assert(rview(v@) =~= o + nonspacing_mark_chunk_5());
}

fn push_nonspacing_mark_chunk_6(v: &mut Vec<ClassUnicodeRange>)
    ensures
        rview(final(v)@) == rview(old(v)@) + nonspacing_mark_chunk_6(),
{
    let ghost o = rview(v@);
    push_range(v, '\u{ABC}', '\u{ABC}');
    push_range(v, '\u{AC1}', '\u{AC5}');
    push_range(v, '\u{AC7}', '\u{AC8}');
    push_range(v, '\u{ACD}', '\u{ACD}');
    push_range(v, '\u{AE2}', '\u{AE3}');
    push_range(v, '\u{AFA}', '\u{AFF}');
    push_range(v, '\u{B01}', '\u{B01}');
    push_range(v, '\u{B3C}', '\u{B3C}');
    assert(rview(v@) =~= o + nonspacing_mark_chunk_6());
}

fn push_nonspacing_mark_chunk_7(v: &mut Vec<ClassUnicodeRange>)
    ensures
        rview(final(v)@) == rview(old(v)@) + nonspacing_mark_chunk_7(),
{
    let ghost o = rview(v@);
    push_range(v, '\u{B3F}', '\u{B3F}');
    push_range(v, '\u{B41}', '\u{B44}');
    push_range(v, '\u{B4D}', '\u{B4D}');
    push_range(v, '\u{B55}', '\u{B56}');
    push_range(v, '\u{B62}', '\u{B63}');
    push_range(v, '\u{B82}', '\u{B82}');
    push_range(v, '\u{BC0}', '\u{BC0}');
    push_range(v, '\u{BCD}', '\u{BCD}');
    assert(rview(v@) =~= o + nonspacing_mark_chunk_7());
}

fn push_nonspacing_mark_chunk_8(v: &mut Vec<ClassUnicodeRange>)
    ensures
        rview(final(v)@) == rview(old(v)@) + nonspacing_mark_chunk_8(),
{
    let ghost o = rview(v@);
    push_range(v, '\u{C00}', '\u{C00}');
    push_range(v, '\u{C04}', '\u{C04}');
    push_range(v, '\u{C3C}', '\u{C3C}');
    push_range(v, '\u{C3E}', '\u{C40}');
    push_range(v, '\u{C46}', '\u{C48}');
    push_range(v, '\u{C4A}', '\u{C4D}');
    push_range(v, '\u{C55}', '\u{C56}');
    push_range(v, '\u{C62}', '\u{C63}');
    assert(rview(v@) =~= o + nonspacing_mark_chunk_8());
}

fn push_nonspacing_mark_chunk_9(v: &mut Vec<ClassUnicodeRange>)
    ensures
        rview(final(v)@) == rview(old(v)@) + nonspacing_mark_chunk_9(),
{
    let ghost o = rview(v@);
    push_range(v, '\u{C81}', '\u{C81}');
    push_range(v, '\u{CBC}', '\u{CBC}');
    push_range(v, '\u{CBF}', '\u{CBF}');
    push_range(v, '\u{CC6}', '\u{CC6}');
    push_range(v, '\u{CCC}', '\u{CCD}');
    push_range(v, '\u{CE2}', '\u{CE3}');
    push_range(v, '\u{D00}', '\u{D01}');
    push_range(v, '\u{D3B}', '\u{D3C}');
    assert(rview(v@) =~= o + nonspacing_mark_chunk_9());
}

fn push_nonspacing_mark_chunk_10(v: &mut Vec<ClassUnicodeRange>)
    ensures
        rview(final(v)@) == rview(old(v)@) + nonspacing_mark_chunk_10(),
{
    let ghost o = rview(v@);
    push_range(v, '\u{D41}', '\u{D44}');
    push_range(v, '\u{D4D}', '\u{D4D}');
    push_range(v, '\u{D62}', '\u{D63}');
    push_range(v, '\u{D81}', '\u{D81}');
    push_range(v, '\u{DCA}', '\u{DCA}');
    push_range(v, '\u{DD2}', '\u{DD4}');
    push_range(v, '\u{DD6}', '\u{DD6}');
    push_range(v, '\u{E31}', '\u{E31}');
    assert(rview(v@) =~= o + nonspacing_mark_chunk_10());
}

fn push_nonspacing_mark_chunk_11(v: &mut Vec<ClassUnicodeRange>)
    ensures
        rview(final(v)@) == rview(old(v)@) + nonspacing_mark_chunk_11(),
{
    let ghost o = rview(v@);
    push_range(v, '\u{E34}', '\u{E3A}');
    push_range(v, '\u{E47}', '\u{E4E}');
    push_range(v, '\u{EB1}', '\u{EB1}');
    push_range(v, '\u{EB4}', '\u{EBC}');
    push_range(v, '\u{EC8}', '\u{ECE}');
    push_range(v, '\u{F18}', '\u{F19}');
    push_range(v, '\u{F35}', '\u{F35}');
    push_range(v, '\u{F37}', '\u{F37}');
    assert(rview(v@) =~= o + nonspacing_mark_chunk_11());
}

fn push_nonspacing_mark_chunk_12(v: &mut Vec<ClassUnicodeRange>)
    ensures
        rview(final(v)@) == rview(old(v)@) + nonspacing_mark_chunk_12(),
{
    let ghost o = rview(v@);
    push_range(v, '\u{F39}', '\u{F39}');
    push_range(v, '\u{F71}', '\u{F7E}');
    push_range(v, '\u{F80}', '\u{F84}');
    push_range(v, '\u{F86}', '\u{F87}');
    push_range(v, '\u{F8D}', '\u{F97}');
    push_range(v, '\u{F99}', '\u{FBC}');
    push_range(v, '\u{FC6}', '\u{FC6}');
    push_range(v, '\u{102D}', '\u{1030}');
    assert(rview(v@) =~= o + nonspacing_mark_chunk_12());
}

fn push_nonspacing_mark_chunk_13(v: &mut Vec<ClassUnicodeRange>)
    ensures
        rview(final(v)@) == rview(old(v)@) + nonspacing_mark_chunk_13(),
{
    let ghost o = rview(v@);
    push_range(v, '\u{1032}', '\u{1037}');
    push_range(v, '\u{1039}', '\u{103A}');
    push_range(v, '\u{103D}', '\u{103E}');
    push_range(v, '\u{1058}', '\u{1059}');
    push_range(v, '\u{105E}', '\u{1060}');
    push_range(v, '\u{1071}', '\u{1074}');
    push_range(v, '\u{1082}', '\u{1082}');
    push_range(v, '\u{1085}', '\u{1086}');
    assert(rview(v@) =~= o + nonspacing_mark_chunk_13());
}

fn push_nonspacing_mark_chunk_14(v: &mut Vec<ClassUnicodeRange>)
    ensures
        rview(final(v)@) == rview(old(v)@) + nonspacing_mark_chunk_14(),
{
    let ghost o = rview(v@);
    push_range(v, '\u{108D}', '\u{108D}');
    push_range(v, '\u{109D}', '\u{109D}');
    push_range(v, '\u{135D}', '\u{135F}');
    push_range(v, '\u{1712}', '\u{1714}');
    push_range(v, '\u{1732}', '\u{1733}');
    push_range(v, '\u{1752}', '\u{1753}');
    push_range(v, '\u{1772}', '\u{1773}');
    push_range(v, '\u{17B4}', '\u{17B5}');
    assert(rview(v@) =~= o + nonspacing_mark_chunk_14());
}

fn push_nonspacing_mark_chunk_15(v: &mut Vec<ClassUnicodeRange>)
    ensures
        rview(final(v)@) == rview(old(v)@) + nonspacing_mark_chunk_15(),
{
    let ghost o = rview(v@);
    push_range(v, '\u{17B7}', '\u{17BD}');
    push_range(v, '\u{17C6}', '\u{17C6}');
    push_range(v, '\u{17C9}', '\u{17D3}');
    push_range(v, '\u{17DD}', '\u{17DD}');
    push_range(v, '\u{180B}', '\u{180D}');
    push_range(v, '\u{180F}', '\u{180F}');
    push_range(v, '\u{1885}', '\u{1886}');
    push_range(v, '\u{18A9}', '\u{18A9}');
    assert(rview(v@) =~= o + nonspacing_mark_chunk_15());
}

fn push_nonspacing_mark_chunk_16(v: &mut Vec<ClassUnicodeRange>)
    ensures
        rview(final(v)@) == rview(old(v)@) + nonspacing_mark_chunk_16(),
{
    let ghost o = rview(v@);
    push_range(v, '\u{1920}', '\u{1922}');
    push_range(v, '\u{1927}', '\u{1928}');
    push_range(v, '\u{1932}', '\u{1932}');
    push_range(v, '\u{1939}', '\u{193B}');
    push_range(v, '\u{1A17}', '\u{1A18}');
    push_range(v, '\u{1A1B}', '\u{1A1B}');
    push_range(v, '\u{1A56}', '\u{1A56}');
    push_range(v, '\u{1A58}', '\u{1A5E}');
    assert(rview(v@) =~= o + nonspacing_mark_chunk_16());
}

fn push_nonspacing_mark_chunk_17(v: &mut Vec<ClassUnicodeRange>)
    ensures
        rview(final(v)@) == rview(old(v)@) + nonspacing_mark_chunk_17(),
{
    let ghost o = rview(v@);
    push_range(v, '\u{1A60}', '\u{1A60}');
    push_range(v, '\u{1A62}', '\u{1A62}');
    push_range(v, '\u{1A65}', '\u{1A6C}');
    push_range(v, '\u{1A73}', '\u{1A7C}');
    push_range(v, '\u{1A7F}', '\u{1A7F}');
    push_range(v, '\u{1AB0}', '\u{1ABD}');
    push_range(v, '\u{1ABF}', '\u{1ACE}');
    push_range(v, '\u{1B00}', '\u{1B03}');
    assert(rview(v@) =~= o + nonspacing_mark_chunk_17());
}

fn push_nonspacing_mark_chunk_18(v: &mut Vec<ClassUnicodeRange>)
    ensures
        rview(final(v)@) == rview(old(v)@) + nonspacing_mark_chunk_18(),
{
    let ghost o = rview(v@);
    push_range(v, '\u{1B34}', '\u{1B34}');
    push_range(v, '\u{1B36}', '\u{1B3A}');
    push_range(v, '\u{1B3C}', '\u{1B3C}');
    push_range(v, '\u{1B42}', '\u{1B42}');
    push_range(v, '\u{1B6B}', '\u{1B73}');
    push_range(v, '\u{1B80}', '\u{1B81}');
    push_range(v, '\u{1BA2}', '\u{1BA5}');
    push_range(v, '\u{1BA8}', '\u{1BA9}');
    assert(rview(v@) =~= o + nonspacing_mark_chunk_18());
}

fn push_nonspacing_mark_chunk_19(v: &mut Vec<ClassUnicodeRange>)
    ensures
        rview(final(v)@) == rview(old(v)@) + nonspacing_mark_chunk_19(),
{
    let ghost o = rview(v@);
    push_range(v, '\u{1BAB}', '\u{1BAD}');
    push_range(v, '\u{1BE6}', '\u{1BE6}');
    push_range(v, '\u{1BE8}', '\u{1BE9}');
    push_range(v, '\u{1BED}', '\u{1BED}');
    push_range(v, '\u{1BEF}', '\u{1BF1}');
    push_range(v, '\u{1C2C}', '\u{1C33}');
    push_range(v, '\u{1C36}', '\u{1C37}');
    push_range(v, '\u{1CD0}', '\u{1CD2}');
    assert(rview(v@) =~= o + nonspacing_mark_chunk_19());
}

fn push_nonspacing_mark_chunk_20(v: &mut Vec<ClassUnicodeRange>)
    ensures
        rview(final(v)@) == rview(old(v)@) + nonspacing_mark_chunk_20(),
{
    let ghost o = rview(v@);
    push_range(v, '\u{1CD4}', '\u{1CE0}');
    push_range(v, '\u{1CE2}', '\u{1CE8}');
    push_range(v, '\u{1CED}', '\u{1CED}');
    push_range(v, '\u{1CF4}', '\u{1CF4}');
    push_range(v, '\u{1CF8}', '\u{1CF9}');
    push_range(v, '\u{1DC0}', '\u{1DFF}');
    push_range(v, '\u{20D0}', '\u{20DC}');
    push_range(v, '\u{20E1}', '\u{20E1}');
    assert(rview(v@) =~= o + nonspacing_mark_chunk_20());
}

fn push_nonspacing_mark_chunk_21(v: &mut Vec<ClassUnicodeRange>)
    ensures
        rview(final(v)@) == rview(old(v)@) + nonspacing_mark_chunk_21(),
{
    let ghost o = rview(v@);
    push_range(v, '\u{20E5}', '\u{20F0}');
    push_range(v, '\u{2CEF}', '\u{2CF1}');
    push_range(v, '\u{2D7F}', '\u{2D7F}');
    push_range(v, '\u{2DE0}', '\u{2DFF}');
    push_range(v, '\u{302A}', '\u{302D}');
    push_range(v, '\u{3099}', '\u{309A}');
    push_range(v, '\u{A66F}', '\u{A66F}');
    push_range(v, '\u{A674}', '\u{A67D}');
    assert(rview(v@) =~= o + nonspacing_mark_chunk_21());
}

fn push_nonspacing_mark_chunk_22(v: &mut Vec<ClassUnicodeRange>)
    ensures
        rview(final(v)@) == rview(old(v)@) + nonspacing_mark_chunk_22(),
{
    let ghost o = rview(v@);
    push_range(v, '\u{A69E}', '\u{A69F}');
    push_range(v, '\u{A6F0}', '\u{A6F1}');
    push_range(v, '\u{A802}', '\u{A802}');
    push_range(v, '\u{A806}', '\u{A806}');
    push_range(v, '\u{A80B}', '\u{A80B}');
    push_range(v, '\u{A825}', '\u{A826}');
    push_range(v, '\u{A82C}', '\u{A82C}');
    push_range(v, '\u{A8C4}', '\u{A8C5}');
    assert(rview(v@) =~= o + nonspacing_mark_chunk_22());
}

fn push_nonspacing_mark_chunk_23(v: &mut Vec<ClassUnicodeRange>)
    ensures
        rview(final(v)@) == rview(old(v)@) + nonspacing_mark_chunk_23(),
{
    let ghost o = rview(v@);
    push_range(v, '\u{A8E0}', '\u{A8F1}');
    push_range(v, '\u{A8FF}', '\u{A8FF}');
    push_range(v, '\u{A926}', '\u{A92D}');
    push_range(v, '\u{A947}', '\u{A951}');
    push_range(v, '\u{A980}', '\u{A982}');
    push_range(v, '\u{A9B3}', '\u{A9B3}');
    push_range(v, '\u{A9B6}', '\u{A9B9}');
    push_range(v, '\u{A9BC}', '\u{A9BD}');
    assert(rview(v@) =~= o + nonspacing_mark_chunk_23());
}

fn push_nonspacing_mark_chunk_24(v: &mut Vec<ClassUnicodeRange>)
    ensures
        rview(final(v)@) == rview(old(v)@) + nonspacing_mark_chunk_24(),
{
    let ghost o = rview(v@);
    push_range(v, '\u{A9E5}', '\u{A9E5}');
    push_range(v, '\u{AA29}', '\u{AA2E}');
    push_range(v, '\u{AA31}', '\u{AA32}');
    push_range(v, '\u{AA35}', '\u{AA36}');
    push_range(v, '\u{AA43}', '\u{AA43}');
    push_range(v, '\u{AA4C}', '\u{AA4C}');
    push_range(v, '\u{AA7C}', '\u{AA7C}');
    push_range(v, '\u{AAB0}', '\u{AAB0}');
    assert(rview(v@) =~= o + nonspacing_mark_chunk_24());
}

fn push_nonspacing_mark_chunk_25(v: &mut Vec<ClassUnicodeRange>)
    ensures
        rview(final(v)@) == rview(old(v)@) + nonspacing_mark_chunk_25(),
{
    let ghost o = rview(v@);
    push_range(v, '\u{AAB2}', '\u{AAB4}');
    push_range(v, '\u{AAB7}', '\u{AAB8}');
    push_range(v, '\u{AABE}', '\u{AABF}');
    push_range(v, '\u{AAC1}', '\u{AAC1}');
    push_range(v, '\u{AAEC}', '\u{AAED}');
    push_range(v, '\u{AAF6}', '\u{AAF6}');
    push_range(v, '\u{ABE5}', '\u{ABE5}');
    push_range(v, '\u{ABE8}', '\u{ABE8}');
    assert(rview(v@) =~= o + nonspacing_mark_chunk_25());
}

fn push_nonspacing_mark_chunk_26(v: &mut Vec<ClassUnicodeRange>)
    ensures
        rview(final(v)@) == rview(old(v)@) + nonspacing_mark_chunk_26(),
{
    let ghost o = rview(v@);
    push_range(v, '\u{ABED}', '\u{ABED}');
    push_range(v, '\u{FB1E}', '\u{FB1E}');
    push_range(v, '\u{FE00}', '\u{FE0F}');
    push_range(v, '\u{FE20}', '\u{FE2F}');
    push_range(v, '\u{101FD}', '\u{101FD}');
    push_range(v, '\u{102E0}', '\u{102E0}');
    push_range(v, '\u{10376}', '\u{1037A}');
    push_range(v, '\u{10A01}', '\u{10A03}');
    assert(rview(v@) =~= o + nonspacing_mark_chunk_26());
}

fn push_nonspacing_mark_chunk_27(v: &mut Vec<ClassUnicodeRange>)
    ensures
        rview(final(v)@) == rview(old(v)@) + nonspacing_mark_chunk_27(),
{
    let ghost o = rview(v@);
    push_range(v, '\u{10A05}', '\u{10A06}');
    push_range(v, '\u{10A0C}', '\u{10A0F}');
    push_range(v, '\u{10A38}', '\u{10A3A}');
    push_range(v, '\u{10A3F}', '\u{10A3F}');
    push_range(v, '\u{10AE5}', '\u{10AE6}');
    push_range(v, '\u{10D24}', '\u{10D27}');
    push_range(v, '\u{10D69}', '\u{10D6D}');
    push_range(v, '\u{10EAB}', '\u{10EAC}');
    assert(rview(v@) =~= o + nonspacing_mark_chunk_27());
}

fn push_nonspacing_mark_chunk_28(v: &mut Vec<ClassUnicodeRange>)
    ensures
        rview(final(v)@) == rview(old(v)@) + nonspacing_mark_chunk_28(),
{
    let ghost o = rview(v@);
    push_range(v, '\u{10EFC}', '\u{10EFF}');
    push_range(v, '\u{10F46}', '\u{10F50}');
    push_range(v, '\u{10F82}', '\u{10F85}');
    push_range(v, '\u{11001}', '\u{11001}');
    push_range(v, '\u{11038}', '\u{11046}');
    push_range(v, '\u{11070}', '\u{11070}');
    push_range(v, '\u{11073}', '\u{11074}');
    push_range(v, '\u{1107F}', '\u{11081}');
    assert(rview(v@) =~= o + nonspacing_mark_chunk_28());
}

fn push_nonspacing_mark_chunk_29(v: &mut Vec<ClassUnicodeRange>)
    ensures
        rview(final(v)@) == rview(old(v)@) + nonspacing_mark_chunk_29(),
{
    let ghost o = rview(v@);
    push_range(v, '\u{110B3}', '\u{110B6}');
    push_range(v, '\u{110B9}', '\u{110BA}');
    push_range(v, '\u{110C2}', '\u{110C2}');
    push_range(v, '\u{11100}', '\u{11102}');
    push_range(v, '\u{11127}', '\u{1112B}');
    push_range(v, '\u{1112D}', '\u{11134}');
    push_range(v, '\u{11173}', '\u{11173}');
    push_range(v, '\u{11180}', '\u{11181}');
    assert(rview(v@) =~= o + nonspacing_mark_chunk_29());
}

fn push_nonspacing_mark_chunk_30(v: &mut Vec<ClassUnicodeRange>)
    ensures
        rview(final(v)@) == rview(old(v)@) + nonspacing_mark_chunk_30(),
{
    let ghost o = rview(v@);
    push_range(v, '\u{111B6}', '\u{111BE}');
    push_range(v, '\u{111C9}', '\u{111CC}');
    push_range(v, '\u{111CF}', '\u{111CF}');
    push_range(v, '\u{1122F}', '\u{11231}');
    push_range(v, '\u{11234}', '\u{11234}');
    push_range(v, '\u{11236}', '\u{11237}');
    push_range(v, '\u{1123E}', '\u{1123E}');
    push_range(v, '\u{11241}', '\u{11241}');
    assert(rview(v@) =~= o + nonspacing_mark_chunk_30());
}

fn push_nonspacing_mark_chunk_31(v: &mut Vec<ClassUnicodeRange>)
    ensures
        rview(final(v)@) == rview(old(v)@) + nonspacing_mark_chunk_31(),
{
    let ghost o = rview(v@);
    push_range(v, '\u{112DF}', '\u{112DF}');
    push_range(v, '\u{112E3}', '\u{112EA}');
    push_range(v, '\u{11300}', '\u{11301}');
    push_range(v, '\u{1133B}', '\u{1133C}');
    push_range(v, '\u{11340}', '\u{11340}');
    push_range(v, '\u{11366}', '\u{1136C}');
    push_range(v, '\u{11370}', '\u{11374}');
    push_range(v, '\u{113BB}', '\u{113C0}');
    assert(rview(v@) =~= o + nonspacing_mark_chunk_31());
}

fn push_nonspacing_mark_chunk_32(v: &mut Vec<ClassUnicodeRange>)
    ensures
        rview(final(v)@) == rview(old(v)@) + nonspacing_mark_chunk_32(),
{
    let ghost o = rview(v@);
    push_range(v, '\u{113CE}', '\u{113CE}');
    push_range(v, '\u{113D0}', '\u{113D0}');
    push_range(v, '\u{113D2}', '\u{113D2}');
    push_range(v, '\u{113E1}', '\u{113E2}');
    push_range(v, '\u{11438}', '\u{1143F}');
    push_range(v, '\u{11442}', '\u{11444}');
    push_range(v, '\u{11446}', '\u{11446}');
    push_range(v, '\u{1145E}', '\u{1145E}');
    assert(rview(v@) =~= o + nonspacing_mark_chunk_32());
}

fn push_nonspacing_mark_chunk_33(v: &mut Vec<ClassUnicodeRange>)
    ensures
        rview(final(v)@) == rview(old(v)@) + nonspacing_mark_chunk_33(),
{
    let ghost o = rview(v@);
    push_range(v, '\u{114B3}', '\u{114B8}');
    push_range(v, '\u{114BA}', '\u{114BA}');
    push_range(v, '\u{114BF}', '\u{114C0}');
    push_range(v, '\u{114C2}', '\u{114C3}');
    push_range(v, '\u{115B2}', '\u{115B5}');
    push_range(v, '\u{115BC}', '\u{115BD}');
    push_range(v, '\u{115BF}', '\u{115C0}');
    push_range(v, '\u{115DC}', '\u{115DD}');
    assert(rview(v@) =~= o + nonspacing_mark_chunk_33());
}

fn push_nonspacing_mark_chunk_34(v: &mut Vec<ClassUnicodeRange>)
    ensures
        rview(final(v)@) == rview(old(v)@) + nonspacing_mark_chunk_34(),
{
    let ghost o = rview(v@);
    push_range(v, '\u{11633}', '\u{1163A}');
    push_range(v, '\u{1163D}', '\u{1163D}');
    push_range(v, '\u{1163F}', '\u{11640}');
    push_range(v, '\u{116AB}', '\u{116AB}');
    push_range(v, '\u{116AD}', '\u{116AD}');
    push_range(v, '\u{116B0}', '\u{116B5}');
    push_range(v, '\u{116B7}', '\u{116B7}');
    push_range(v, '\u{1171D}', '\u{1171D}');
    assert(rview(v@) =~= o + nonspacing_mark_chunk_34());
}

fn push_nonspacing_mark_chunk_35(v: &mut Vec<ClassUnicodeRange>)
    ensures
        rview(final(v)@) == rview(old(v)@) + nonspacing_mark_chunk_35(),
{
    let ghost o = rview(v@);
    push_range(v, '\u{1171F}', '\u{1171F}');
    push_range(v, '\u{11722}', '\u{11725}');
    push_range(v, '\u{11727}', '\u{1172B}');
    push_range(v, '\u{1182F}', '\u{11837}');
    push_range(v, '\u{11839}', '\u{1183A}');
    push_range(v, '\u{1193B}', '\u{1193C}');
    push_range(v, '\u{1193E}', '\u{1193E}');
    push_range(v, '\u{11943}', '\u{11943}');
    assert(rview(v@) =~= o + nonspacing_mark_chunk_35());
}

fn push_nonspacing_mark_chunk_36(v: &mut Vec<ClassUnicodeRange>)
    ensures
        rview(final(v)@) == rview(old(v)@) + nonspacing_mark_chunk_36(),
{
    let ghost o = rview(v@);
    push_range(v, '\u{119D4}', '\u{119D7}');
    push_range(v, '\u{119DA}', '\u{119DB}');
    push_range(v, '\u{119E0}', '\u{119E0}');
    push_range(v, '\u{11A01}', '\u{11A0A}');
    push_range(v, '\u{11A33}', '\u{11A38}');
    push_range(v, '\u{11A3B}', '\u{11A3E}');
    push_range(v, '\u{11A47}', '\u{11A47}');
    push_range(v, '\u{11A51}', '\u{11A56}');
    assert(rview(v@) =~= o + nonspacing_mark_chunk_36());
}

fn push_nonspacing_mark_chunk_37(v: &mut Vec<ClassUnicodeRange>)
    ensures
        rview(final(v)@) == rview(old(v)@) + nonspacing_mark_chunk_37(),
{
    let ghost o = rview(v@);
    push_range(v, '\u{11A59}', '\u{11A5B}');
    push_range(v, '\u{11A8A}', '\u{11A96}');
    push_range(v, '\u{11A98}', '\u{11A99}');
    push_range(v, '\u{11C30}', '\u{11C36}');
    push_range(v, '\u{11C38}', '\u{11C3D}');
    push_range(v, '\u{11C3F}', '\u{11C3F}');
    push_range(v, '\u{11C92}', '\u{11CA7}');
    push_range(v, '\u{11CAA}', '\u{11CB0}');
    assert(rview(v@) =~= o + nonspacing_mark_chunk_37());
}

fn push_nonspacing_mark_chunk_38(v: &mut Vec<ClassUnicodeRange>)
    ensures
        rview(final(v)@) == rview(old(v)@) + nonspacing_mark_chunk_38(),
{
    let ghost o = rview(v@);
    push_range(v, '\u{11CB2}', '\u{11CB3}');
    push_range(v, '\u{11CB5}', '\u{11CB6}');
    push_range(v, '\u{11D31}', '\u{11D36}');
    push_range(v, '\u{11D3A}', '\u{11D3A}');
    push_range(v, '\u{11D3C}', '\u{11D3D}');
    push_range(v, '\u{11D3F}', '\u{11D45}');
    push_range(v, '\u{11D47}', '\u{11D47}');
    push_range(v, '\u{11D90}', '\u{11D91}');
    assert(rview(v@) =~= o + nonspacing_mark_chunk_38());
}

fn push_nonspacing_mark_chunk_39(v: &mut Vec<ClassUnicodeRange>)
    ensures
        rview(final(v)@) == rview(old(v)@) + nonspacing_mark_chunk_39(),
{
    let ghost o = rview(v@);
    push_range(v, '\u{11D95}', '\u{11D95}');
    push_range(v, '\u{11D97}', '\u{11D97}');
    push_range(v, '\u{11EF3}', '\u{11EF4}');
    push_range(v, '\u{11F00}', '\u{11F01}');
    push_range(v, '\u{11F36}', '\u{11F3A}');
    push_range(v, '\u{11F40}', '\u{11F40}');
    push_range(v, '\u{11F42}', '\u{11F42}');
    push_range(v, '\u{11F5A}', '\u{11F5A}');
    assert(rview(v@) =~= o + nonspacing_mark_chunk_39());
}

fn push_nonspacing_mark_chunk_40(v: &mut Vec<ClassUnicodeRange>)
    ensures
        rview(final(v)@) == rview(old(v)@) + nonspacing_mark_chunk_40(),
{
    let ghost o = rview(v@);
    push_range(v, '\u{13440}', '\u{13440}');
    push_range(v, '\u{13447}', '\u{13455}');
    push_range(v, '\u{1611E}', '\u{16129}');
    push_range(v, '\u{1612D}', '\u{1612F}');
    push_range(v, '\u{16AF0}', '\u{16AF4}');
    push_range(v, '\u{16B30}', '\u{16B36}');
    push_range(v, '\u{16F4F}', '\u{16F4F}');
    push_range(v, '\u{16F8F}', '\u{16F92}');
    assert(rview(v@) =~= o + nonspacing_mark_chunk_40());
}

fn push_nonspacing_mark_chunk_41(v: &mut Vec<ClassUnicodeRange>)
    ensures
        rview(final(v)@) == rview(old(v)@) + nonspacing_mark_chunk_41(),
{
    let ghost o = rview(v@);
    push_range(v, '\u{16FE4}', '\u{16FE4}');
    push_range(v, '\u{1BC9D}', '\u{1BC9E}');
    push_range(v, '\u{1CF00}', '\u{1CF2D}');
    push_range(v, '\u{1CF30}', '\u{1CF46}');
    push_range(v, '\u{1D167}', '\u{1D169}');
    push_range(v, '\u{1D17B}', '\u{1D182}');
    push_range(v, '\u{1D185}', '\u{1D18B}');
    push_range(v, '\u{1D1AA}', '\u{1D1AD}');
    assert(rview(v@) =~= o + nonspacing_mark_chunk_41());
}

fn push_nonspacing_mark_chunk_42(v: &mut Vec<ClassUnicodeRange>)
    ensures
        rview(final(v)@) == rview(old(v)@) + nonspacing_mark_chunk_42(),
{
    let ghost o = rview(v@);
    push_range(v, '\u{1D242}', '\u{1D244}');
    push_range(v, '\u{1DA00}', '\u{1DA36}');
    push_range(v, '\u{1DA3B}', '\u{1DA6C}');
    push_range(v, '\u{1DA75}', '\u{1DA75}');
    push_range(v, '\u{1DA84}', '\u{1DA84}');
    push_range(v, '\u{1DA9B}', '\u{1DA9F}');
    push_range(v, '\u{1DAA1}', '\u{1DAAF}');
    push_range(v, '\u{1E000}', '\u{1E006}');
    assert(rview(v@) =~= o + nonspacing_mark_chunk_42());
}

fn push_nonspacing_mark_chunk_43(v: &mut Vec<ClassUnicodeRange>)
    ensures
        rview(final(v)@) == rview(old(v)@) + nonspacing_mark_chunk_43(),
{
    let ghost o = rview(v@);
    push_range(v, '\u{1E008}', '\u{1E018}');
    push_range(v, '\u{1E01B}', '\u{1E021}');
    push_range(v, '\u{1E023}', '\u{1E024}');
    push_range(v, '\u{1E026}', '\u{1E02A}');
    push_range(v, '\u{1E08F}', '\u{1E08F}');
    push_range(v, '\u{1E130}', '\u{1E136}');
    push_range(v, '\u{1E2AE}', '\u{1E2AE}');
    push_range(v, '\u{1E2EC}', '\u{1E2EF}');
    assert(rview(v@) =~= o + nonspacing_mark_chunk_43());
}

fn push_nonspacing_mark_chunk_44(v: &mut Vec<ClassUnicodeRange>)
    ensures
        rview(final(v)@) == rview(old(v)@) + nonspacing_mark_chunk_44(),
{
    let ghost o = rview(v@);
    push_range(v, '\u{1E4EC}', '\u{1E4EF}');
    push_range(v, '\u{1E5EE}', '\u{1E5EF}');
    push_range(v, '\u{1E8D0}', '\u{1E8D6}');
    push_range(v, '\u{1E944}', '\u{1E94A}');
    push_range(v, '\u{E0100}', '\u{E01EF}');
    assert(rview(v@) =~= o + nonspacing_mark_chunk_44());
}

fn push_nonspacing_mark_block_0(v: &mut Vec<ClassUnicodeRange>)
    ensures
        rview(final(v)@) == rview(old(v)@) + nonspacing_mark_block_0(),
{
    let ghost o = rview(v@);
    push_nonspacing_mark_chunk_0(v);
    assert(rview(v@) =~= o + (nonspacing_mark_chunk_0()));
    push_nonspacing_mark_chunk_1(v);
    assert(rview(v@) =~= o + (nonspacing_mark_chunk_0() + nonspacing_mark_chunk_1()));
    push_nonspacing_mark_chunk_2(v);
    assert(rview(v@) =~= o + (nonspacing_mark_chunk_0() + nonspacing_mark_chunk_1() + nonspacing_mark_chunk_2()));
    push_nonspacing_mark_chunk_3(v);
    assert(rview(v@) =~= o + (nonspacing_mark_chunk_0() + nonspacing_mark_chunk_1() + nonspacing_mark_chunk_2() + nonspacing_mark_chunk_3()));
    push_nonspacing_mark_chunk_4(v);
    assert(rview(v@) =~= o + (nonspacing_mark_chunk_0() + nonspacing_mark_chunk_1() + nonspacing_mark_chunk_2() + nonspacing_mark_chunk_3() + nonspacing_mark_chunk_4()));
    push_nonspacing_mark_chunk_5(v);
    assert(rview(v@) =~= o + (nonspacing_mark_chunk_0() + nonspacing_mark_chunk_1() + nonspacing_mark_chunk_2() + nonspacing_mark_chunk_3() + nonspacing_mark_chunk_4() + nonspacing_mark_chunk_5()));
    push_nonspacing_mark_chunk_6(v);
    assert(rview(v@) =~= o + (nonspacing_mark_chunk_0() + nonspacing_mark_chunk_1() + nonspacing_mark_chunk_2() + nonspacing_mark_chunk_3() + nonspacing_mark_chunk_4() + nonspacing_mark_chunk_5() + nonspacing_mark_chunk_6()));
    push_nonspacing_mark_chunk_7(v);
    assert(rview(v@) =~= o + (nonspacing_mark_chunk_0() + nonspacing_mark_chunk_1() + nonspacing_mark_chunk_2() + nonspacing_mark_chunk_3() + nonspacing_mark_chunk_4() + nonspacing_mark_chunk_5() + nonspacing_mark_chunk_6() + nonspacing_mark_chunk_7()));
    push_nonspacing_mark_chunk_8(v);
    assert(rview(v@) =~= o + (nonspacing_mark_chunk_0() + nonspacing_mark_chunk_1() + nonspacing_mark_chunk_2() + nonspacing_mark_chunk_3() + nonspacing_mark_chunk_4() + nonspacing_mark_chunk_5() + nonspacing_mark_chunk_6() + nonspacing_mark_chunk_7() + nonspacing_mark_chunk_8()));
    push_nonspacing_mark_chunk_9(v);
    assert(rview(v@) =~= o + (nonspacing_mark_chunk_0() + nonspacing_mark_chunk_1() + nonspacing_mark_chunk_2() + nonspacing_mark_chunk_3() + nonspacing_mark_chunk_4() + nonspacing_mark_chunk_5() + nonspacing_mark_chunk_6() + nonspacing_mark_chunk_7() + nonspacing_mark_chunk_8() + nonspacing_mark_chunk_9()));
}

fn push_nonspacing_mark_block_1(v: &mut Vec<ClassUnicodeRange>)
    ensures
        rview(final(v)@) == rview(old(v)@) + nonspacing_mark_block_1(),
{
    let ghost o = rview(v@);
    push_nonspacing_mark_chunk_10(v);
    assert(rview(v@) =~= o + (nonspacing_mark_chunk_10()));
    push_nonspacing_mark_chunk_11(v);
    assert(rview(v@) =~= o + (nonspacing_mark_chunk_10() + nonspacing_mark_chunk_11()));
    push_nonspacing_mark_chunk_12(v);
    assert(rview(v@) =~= o + (nonspacing_mark_chunk_10() + nonspacing_mark_chunk_11() + nonspacing_mark_chunk_12()));
    push_nonspacing_mark_chunk_13(v);
    assert(rview(v@) =~= o + (nonspacing_mark_chunk_10() + nonspacing_mark_chunk_11() + nonspacing_mark_chunk_12() + nonspacing_mark_chunk_13()));
    push_nonspacing_mark_chunk_14(v);
    assert(rview(v@) =~= o + (nonspacing_mark_chunk_10() + nonspacing_mark_chunk_11() + nonspacing_mark_chunk_12() + nonspacing_mark_chunk_13() + nonspacing_mark_chunk_14()));
    push_nonspacing_mark_chunk_15(v);
    assert(rview(v@) =~= o + (nonspacing_mark_chunk_10() + nonspacing_mark_chunk_11() + nonspacing_mark_chunk_12() + nonspacing_mark_chunk_13() + nonspacing_mark_chunk_14() + nonspacing_mark_chunk_15()));
    push_nonspacing_mark_chunk_16(v);
    assert(rview(v@) =~= o + (nonspacing_mark_chunk_10() + nonspacing_mark_chunk_11() + nonspacing_mark_chunk_12() + nonspacing_mark_chunk_13() + nonspacing_mark_chunk_14() + nonspacing_mark_chunk_15() + nonspacing_mark_chunk_16()));
    push_nonspacing_mark_chunk_17(v);
    assert(rview(v@) =~= o + (nonspacing_mark_chunk_10() + nonspacing_mark_chunk_11() + nonspacing_mark_chunk_12() + nonspacing_mark_chunk_13() + nonspacing_mark_chunk_14() + nonspacing_mark_chunk_15() + nonspacing_mark_chunk_16() + nonspacing_mark_chunk_17()));
    push_nonspacing_mark_chunk_18(v);
    assert(rview(v@) =~= o + (nonspacing_mark_chunk_10() + nonspacing_mark_chunk_11() + nonspacing_mark_chunk_12() + nonspacing_mark_chunk_13() + nonspacing_mark_chunk_14() + nonspacing_mark_chunk_15() + nonspacing_mark_chunk_16() + nonspacing_mark_chunk_17() + nonspacing_mark_chunk_18()));
    push_nonspacing_mark_chunk_19(v);
    assert(rview(v@) =~= o + (nonspacing_mark_chunk_10() + nonspacing_mark_chunk_11() + nonspacing_mark_chunk_12() + nonspacing_mark_chunk_13() + nonspacing_mark_chunk_14() + nonspacing_mark_chunk_15() + nonspacing_mark_chunk_16() + nonspacing_mark_chunk_17() + nonspacing_mark_chunk_18() + nonspacing_mark_chunk_19()));
}

fn push_nonspacing_mark_block_2(v: &mut Vec<ClassUnicodeRange>)
    ensures
        rview(final(v)@) == rview(old(v)@) + nonspacing_mark_block_2(),
{
    let ghost o = rview(v@);
    push_nonspacing_mark_chunk_20(v);
    assert(rview(v@) =~= o + (nonspacing_mark_chunk_20()));
    push_nonspacing_mark_chunk_21(v);
    assert(rview(v@) =~= o + (nonspacing_mark_chunk_20() + nonspacing_mark_chunk_21()));
    push_nonspacing_mark_chunk_22(v);
    assert(rview(v@) =~= o + (nonspacing_mark_chunk_20() + nonspacing_mark_chunk_21() + nonspacing_mark_chunk_22()));
    push_nonspacing_mark_chunk_23(v);
    assert(rview(v@) =~= o + (nonspacing_mark_chunk_20() + nonspacing_mark_chunk_21() + nonspacing_mark_chunk_22() + nonspacing_mark_chunk_23()));
    push_nonspacing_mark_chunk_24(v);
    assert(rview(v@) =~= o + (nonspacing_mark_chunk_20() + nonspacing_mark_chunk_21() + nonspacing_mark_chunk_22() + nonspacing_mark_chunk_23() + nonspacing_mark_chunk_24()));
    push_nonspacing_mark_chunk_25(v);
    assert(rview(v@) =~= o + (nonspacing_mark_chunk_20() + nonspacing_mark_chunk_21() + nonspacing_mark_chunk_22() + nonspacing_mark_chunk_23() + nonspacing_mark_chunk_24() + nonspacing_mark_chunk_25()));
    push_nonspacing_mark_chunk_26(v);
    assert(rview(v@) =~= o + (nonspacing_mark_chunk_20() + nonspacing_mark_chunk_21() + nonspacing_mark_chunk_22() + nonspacing_mark_chunk_23() + nonspacing_mark_chunk_24() + nonspacing_mark_chunk_25() + nonspacing_mark_chunk_26()));
    push_nonspacing_mark_chunk_27(v);
    assert(rview(v@) =~= o + (nonspacing_mark_chunk_20() + nonspacing_mark_chunk_21() + nonspacing_mark_chunk_22() + nonspacing_mark_chunk_23() + nonspacing_mark_chunk_24() + nonspacing_mark_chunk_25() + nonspacing_mark_chunk_26() + nonspacing_mark_chunk_27()));
    push_nonspacing_mark_chunk_28(v);
    assert(rview(v@) =~= o + (nonspacing_mark_chunk_20() + nonspacing_mark_chunk_21() + nonspacing_mark_chunk_22() + nonspacing_mark_chunk_23() + nonspacing_mark_chunk_24() + nonspacing_mark_chunk_25() + nonspacing_mark_chunk_26() + nonspacing_mark_chunk_27() + nonspacing_mark_chunk_28()));
    push_nonspacing_mark_chunk_29(v);
    assert(rview(v@) =~= o + (nonspacing_mark_chunk_20() + nonspacing_mark_chunk_21() + nonspacing_mark_chunk_22() + nonspacing_mark_chunk_23() + nonspacing_mark_chunk_24() + nonspacing_mark_chunk_25() + nonspacing_mark_chunk_26() + nonspacing_mark_chunk_27() + nonspacing_mark_chunk_28() + nonspacing_mark_chunk_29()));
}

fn push_nonspacing_mark_block_3(v: &mut Vec<ClassUnicodeRange>)
    ensures
        rview(final(v)@) == rview(old(v)@) + nonspacing_mark_block_3(),
{
    let ghost o = rview(v@);
    push_nonspacing_mark_chunk_30(v);
    assert(rview(v@) =~= o + (nonspacing_mark_chunk_30()));
    push_nonspacing_mark_chunk_31(v);
    assert(rview(v@) =~= o + (nonspacing_mark_chunk_30() + nonspacing_mark_chunk_31()));
    push_nonspacing_mark_chunk_32(v);
    assert(rview(v@) =~= o + (nonspacing_mark_chunk_30() + nonspacing_mark_chunk_31() + nonspacing_mark_chunk_32()));
    push_nonspacing_mark_chunk_33(v);
    assert(rview(v@) =~= o + (nonspacing_mark_chunk_30() + nonspacing_mark_chunk_31() + nonspacing_mark_chunk_32() + nonspacing_mark_chunk_33()));
    push_nonspacing_mark_chunk_34(v);
    assert(rview(v@) =~= o + (nonspacing_mark_chunk_30() + nonspacing_mark_chunk_31() + nonspacing_mark_chunk_32() + nonspacing_mark_chunk_33() + nonspacing_mark_chunk_34()));
    push_nonspacing_mark_chunk_35(v);
    assert(rview(v@) =~= o + (nonspacing_mark_chunk_30() + nonspacing_mark_chunk_31() + nonspacing_mark_chunk_32() + nonspacing_mark_chunk_33() + nonspacing_mark_chunk_34() + nonspacing_mark_chunk_35()));
    push_nonspacing_mark_chunk_36(v);
    assert(rview(v@) =~= o + (nonspacing_mark_chunk_30() + nonspacing_mark_chunk_31() + nonspacing_mark_chunk_32() + nonspacing_mark_chunk_33() + nonspacing_mark_chunk_34() + nonspacing_mark_chunk_35() + nonspacing_mark_chunk_36()));
    push_nonspacing_mark_chunk_37(v);
    assert(rview(v@) =~= o + (nonspacing_mark_chunk_30() + nonspacing_mark_chunk_31() + nonspacing_mark_chunk_32() + nonspacing_mark_chunk_33() + nonspacing_mark_chunk_34() + nonspacing_mark_chunk_35() + nonspacing_mark_chunk_36() + nonspacing_mark_chunk_37()));
    push_nonspacing_mark_chunk_38(v);
    assert(rview(v@) =~= o + (nonspacing_mark_chunk_30() + nonspacing_mark_chunk_31() + nonspacing_mark_chunk_32() + nonspacing_mark_chunk_33() + nonspacing_mark_chunk_34() + nonspacing_mark_chunk_35() + nonspacing_mark_chunk_36() + nonspacing_mark_chunk_37() + nonspacing_mark_chunk_38()));
    push_nonspacing_mark_chunk_39(v);
    assert(rview(v@) =~= o + (nonspacing_mark_chunk_30() + nonspacing_mark_chunk_31() + nonspacing_mark_chunk_32() + nonspacing_mark_chunk_33() + nonspacing_mark_chunk_34() + nonspacing_mark_chunk_35() + nonspacing_mark_chunk_36() + nonspacing_mark_chunk_37() + nonspacing_mark_chunk_38() + nonspacing_mark_chunk_39()));
}

fn push_nonspacing_mark_block_4(v: &mut Vec<ClassUnicodeRange>)
    ensures
        rview(final(v)@) == rview(old(v)@) + nonspacing_mark_block_4(),
{
    let ghost o = rview(v@);
    push_nonspacing_mark_chunk_40(v);
    assert(rview(v@) =~= o + (nonspacing_mark_chunk_40()));
    push_nonspacing_mark_chunk_41(v);
    assert(rview(v@) =~= o + (nonspacing_mark_chunk_40() + nonspacing_mark_chunk_41()));
    push_nonspacing_mark_chunk_42(v);
    assert(rview(v@) =~= o + (nonspacing_mark_chunk_40() + nonspacing_mark_chunk_41() + nonspacing_mark_chunk_42()));
    push_nonspacing_mark_chunk_43(v);
    assert(rview(v@) =~= o + (nonspacing_mark_chunk_40() + nonspacing_mark_chunk_41() + nonspacing_mark_chunk_42() + nonspacing_mark_chunk_43()));
    push_nonspacing_mark_chunk_44(v);
    assert(rview(v@) =~= o + (nonspacing_mark_chunk_40() + nonspacing_mark_chunk_41() + nonspacing_mark_chunk_42() + nonspacing_mark_chunk_43() + nonspacing_mark_chunk_44()));
}

/// The ranges of the general category Nonspacing_Mark.
pub fn nonspacing_mark_class() -> (v: Vec<ClassUnicodeRange>)
    ensures
        rview(v@) == nonspacing_mark_ranges(),
{
    let mut v: Vec<ClassUnicodeRange> = Vec::new();
    assert(rview(v@) =~= Seq::<SRange>::empty());
    push_nonspacing_mark_block_0(&mut v);
    assert(rview(v@) =~= nonspacing_mark_block_0());
    push_nonspacing_mark_block_1(&mut v);
    assert(rview(v@) =~= nonspacing_mark_block_0() + nonspacing_mark_block_1());
    push_nonspacing_mark_block_2(&mut v);
    assert(rview(v@) =~= nonspacing_mark_block_0() + nonspacing_mark_block_1() + nonspacing_mark_block_2());
    push_nonspacing_mark_block_3(&mut v);
    assert(rview(v@) =~= nonspacing_mark_block_0() + nonspacing_mark_block_1() + nonspacing_mark_block_2() + nonspacing_mark_block_3());
    push_nonspacing_mark_block_4(&mut v);
    assert(rview(v@) =~= nonspacing_mark_block_0() + nonspacing_mark_block_1() + nonspacing_mark_block_2() + nonspacing_mark_block_3() + nonspacing_mark_block_4());
    v
}

pub open spec fn number_chunk_0() -> Seq<SRange> {
    seq![(0x30int, 0x39int), (0xB2int, 0xB3int), (0xB9int, 0xB9int), (0xBCint, 0xBEint), (0x660int, 0x669int), (0x6F0int, 0x6F9int), (0x7C0int, 0x7C9int), (0x966int, 0x96Fint)]
}

pub open spec fn number_chunk_1() -> Seq<SRange> {
    seq![(0x9E6int, 0x9EFint), (0x9F4int, 0x9F9int), (0xA66int, 0xA6Fint), (0xAE6int, 0xAEFint), (0xB66int, 0xB6Fint), (0xB72int, 0xB77int), (0xBE6int, 0xBF2int), (0xC66int, 0xC6Fint)]
}

pub open spec fn number_chunk_2() -> Seq<SRange> {
    seq![(0xC78int, 0xC7Eint), (0xCE6int, 0xCEFint), (0xD58int, 0xD5Eint), (0xD66int, 0xD78int), (0xDE6int, 0xDEFint), (0xE50int, 0xE59int), (0xED0int, 0xED9int), (0xF20int, 0xF33int)]
}

pub open spec fn number_chunk_3() -> Seq<SRange> {
    seq![(0x1040int, 0x1049int), (0x1090int, 0x1099int), (0x1369int, 0x137Cint), (0x16EEint, 0x16F0int), (0x17E0int, 0x17E9int), (0x17F0int, 0x17F9int), (0x1810int, 0x1819int), (0x1946int, 0x194Fint)]
}

pub open spec fn number_chunk_4() -> Seq<SRange> {
    seq![(0x19D0int, 0x19DAint), (0x1A80int, 0x1A89int), (0x1A90int, 0x1A99int), (0x1B50int, 0x1B59int), (0x1BB0int, 0x1BB9int), (0x1C40int, 0x1C49int), (0x1C50int, 0x1C59int), (0x2070int, 0x2070int)]
}

pub open spec fn number_chunk_5() -> Seq<SRange> {
    seq![(0x2074int, 0x2079int), (0x2080int, 0x2089int), (0x2150int, 0x2182int), (0x2185int, 0x2189int), (0x2460int, 0x249Bint), (0x24EAint, 0x24FFint), (0x2776int, 0x2793int), (0x2CFDint, 0x2CFDint)]
}

pub open spec fn number_chunk_6() -> Seq<SRange> {
    seq![(0x3007int, 0x3007int), (0x3021int, 0x3029int), (0x3038int, 0x303Aint), (0x3192int, 0x3195int), (0x3220int, 0x3229int), (0x3248int, 0x324Fint), (0x3251int, 0x325Fint), (0x3280int, 0x3289int)]
}

pub open spec fn number_chunk_7() -> Seq<SRange> {
    seq![(0x32B1int, 0x32BFint), (0xA620int, 0xA629int), (0xA6E6int, 0xA6EFint), (0xA830int, 0xA835int), (0xA8D0int, 0xA8D9int), (0xA900int, 0xA909int), (0xA9D0int, 0xA9D9int), (0xA9F0int, 0xA9F9int)]
}

pub open spec fn number_chunk_8() -> Seq<SRange> {
    seq![(0xAA50int, 0xAA59int), (0xABF0int, 0xABF9int), (0xFF10int, 0xFF19int), (0x10107int, 0x10133int), (0x10140int, 0x10178int), (0x1018Aint, 0x1018Bint), (0x102E1int, 0x102FBint), (0x10320int, 0x10323int)]
}

pub open spec fn number_chunk_9() -> Seq<SRange> {
    seq![(0x10341int, 0x10341int), (0x1034Aint, 0x1034Aint), (0x103D1int, 0x103D5int), (0x104A0int, 0x104A9int), (0x10858int, 0x1085Fint), (0x10879int, 0x1087Fint), (0x108A7int, 0x108AFint), (0x108FBint, 0x108FFint)]
}

pub open spec fn number_chunk_10() -> Seq<SRange> {
    seq![(0x10916int, 0x1091Bint), (0x109BCint, 0x109BDint), (0x109C0int, 0x109CFint), (0x109D2int, 0x109FFint), (0x10A40int, 0x10A48int), (0x10A7Dint, 0x10A7Eint), (0x10A9Dint, 0x10A9Fint), (0x10AEBint, 0x10AEFint)]
}

pub open spec fn number_chunk_11() -> Seq<SRange> {
    seq![(0x10B58int, 0x10B5Fint), (0x10B78int, 0x10B7Fint), (0x10BA9int, 0x10BAFint), (0x10CFAint, 0x10CFFint), (0x10D30int, 0x10D39int), (0x10D40int, 0x10D49int), (0x10E60int, 0x10E7Eint), (0x10F1Dint, 0x10F26int)]
}

pub open spec fn number_chunk_12() -> Seq<SRange> {
    seq![(0x10F51int, 0x10F54int), (0x10FC5int, 0x10FCBint), (0x11052int, 0x1106Fint), (0x110F0int, 0x110F9int), (0x11136int, 0x1113Fint), (0x111D0int, 0x111D9int), (0x111E1int, 0x111F4int), (0x112F0int, 0x112F9int)]
}

pub open spec fn number_chunk_13() -> Seq<SRange> {
    seq![(0x11450int, 0x11459int), (0x114D0int, 0x114D9int), (0x11650int, 0x11659int), (0x116C0int, 0x116C9int), (0x116D0int, 0x116E3int), (0x11730int, 0x1173Bint), (0x118E0int, 0x118F2int), (0x11950int, 0x11959int)]
}

pub open spec fn number_chunk_14() -> Seq<SRange> {
    seq![(0x11BF0int, 0x11BF9int), (0x11C50int, 0x11C6Cint), (0x11D50int, 0x11D59int), (0x11DA0int, 0x11DA9int), (0x11F50int, 0x11F59int), (0x11FC0int, 0x11FD4int), (0x12400int, 0x1246Eint), (0x16130int, 0x16139int)]
}

pub open spec fn number_chunk_15() -> Seq<SRange> {
    seq![(0x16A60int, 0x16A69int), (0x16AC0int, 0x16AC9int), (0x16B50int, 0x16B59int), (0x16B5Bint, 0x16B61int), (0x16D70int, 0x16D79int), (0x16E80int, 0x16E96int), (0x1CCF0int, 0x1CCF9int), (0x1D2C0int, 0x1D2D3int)]
}

pub open spec fn number_chunk_16() -> Seq<SRange> {
    seq![(0x1D2E0int, 0x1D2F3int), (0x1D360int, 0x1D378int), (0x1D7CEint, 0x1D7FFint), (0x1E140int, 0x1E149int), (0x1E2F0int, 0x1E2F9int), (0x1E4F0int, 0x1E4F9int), (0x1E5F1int, 0x1E5FAint), (0x1E8C7int, 0x1E8CFint)]
}

pub open spec fn number_chunk_17() -> Seq<SRange> {
    seq![(0x1E950int, 0x1E959int), (0x1EC71int, 0x1ECABint), (0x1ECADint, 0x1ECAFint), (0x1ECB1int, 0x1ECB4int), (0x1ED01int, 0x1ED2Dint), (0x1ED2Fint, 0x1ED3Dint), (0x1F100int, 0x1F10Cint), (0x1FBF0int, 0x1FBF9int)]
}

pub open spec fn number_block_0() -> Seq<SRange> {
    number_chunk_0() + number_chunk_1() + number_chunk_2() + number_chunk_3() + number_chunk_4() + number_chunk_5() + number_chunk_6() + number_chunk_7() + number_chunk_8() + number_chunk_9()
}

pub open spec fn number_block_1() -> Seq<SRange> {
    number_chunk_10() + number_chunk_11() + number_chunk_12() + number_chunk_13() + number_chunk_14() + number_chunk_15() + number_chunk_16() + number_chunk_17()
}

/// The ranges of the general category Number.
pub open spec fn number_ranges() -> Seq<SRange> {
    number_block_0() + number_block_1()
}

proof fn lemma_number_block_0()
    ensures
        canonical(number_block_0()),
        number_block_0().len() > 0,
        number_block_0()[0] == number_chunk_0()[0],
        number_block_0().last() == number_chunk_9().last(),
{
    reveal_with_fuel(canonical, 9);
    assert(canonical(number_chunk_0()));
    assert(canonical(number_chunk_1()));
    assert(canonical(number_chunk_2()));
    assert(canonical(number_chunk_3()));
    assert(canonical(number_chunk_4()));
    assert(canonical(number_chunk_5()));
    assert(canonical(number_chunk_6()));
    assert(canonical(number_chunk_7()));
    assert(canonical(number_chunk_8()));
    assert(canonical(number_chunk_9()));
    lemma_canonical_append(number_chunk_0(), number_chunk_1());
    lemma_canonical_append(number_chunk_0() + number_chunk_1(), number_chunk_2());
    lemma_canonical_append(number_chunk_0() + number_chunk_1() + number_chunk_2(), number_chunk_3());
    lemma_canonical_append(number_chunk_0() + number_chunk_1() + number_chunk_2() + number_chunk_3(), number_chunk_4());
    lemma_canonical_append(number_chunk_0() + number_chunk_1() + number_chunk_2() + number_chunk_3() + number_chunk_4(), number_chunk_5());
    lemma_canonical_append(number_chunk_0() + number_chunk_1() + number_chunk_2() + number_chunk_3() + number_chunk_4() + number_chunk_5(), number_chunk_6());
    lemma_canonical_append(number_chunk_0() + number_chunk_1() + number_chunk_2() + number_chunk_3() + number_chunk_4() + number_chunk_5() + number_chunk_6(), number_chunk_7());
    lemma_canonical_append(number_chunk_0() + number_chunk_1() + number_chunk_2() + number_chunk_3() + number_chunk_4() + number_chunk_5() + number_chunk_6() + number_chunk_7(), number_chunk_8());
    lemma_canonical_append(number_chunk_0() + number_chunk_1() + number_chunk_2() + number_chunk_3() + number_chunk_4() + number_chunk_5() + number_chunk_6() + number_chunk_7() + number_chunk_8(), number_chunk_9());
}

proof fn lemma_number_block_1()
    ensures
        canonical(number_block_1()),
        number_block_1().len() > 0,
        number_block_1()[0] == number_chunk_10()[0],
        number_block_1().last() == number_chunk_17().last(),
{
    reveal_with_fuel(canonical, 9);
    assert(canonical(number_chunk_10()));
    assert(canonical(number_chunk_11()));
    assert(canonical(number_chunk_12()));
    assert(canonical(number_chunk_13()));
    assert(canonical(number_chunk_14()));
    assert(canonical(number_chunk_15()));
    assert(canonical(number_chunk_16()));
    assert(canonical(number_chunk_17()));
    lemma_canonical_append(number_chunk_10(), number_chunk_11());
    lemma_canonical_append(number_chunk_10() + number_chunk_11(), number_chunk_12());
    lemma_canonical_append(number_chunk_10() + number_chunk_11() + number_chunk_12(), number_chunk_13());
    lemma_canonical_append(number_chunk_10() + number_chunk_11() + number_chunk_12() + number_chunk_13(), number_chunk_14());
    lemma_canonical_append(number_chunk_10() + number_chunk_11() + number_chunk_12() + number_chunk_13() + number_chunk_14(), number_chunk_15());
    lemma_canonical_append(number_chunk_10() + number_chunk_11() + number_chunk_12() + number_chunk_13() + number_chunk_14() + number_chunk_15(), number_chunk_16());
    lemma_canonical_append(number_chunk_10() + number_chunk_11() + number_chunk_12() + number_chunk_13() + number_chunk_14() + number_chunk_15() + number_chunk_16(), number_chunk_17());
}

/// The general category Number is a canonical class.
pub proof fn lemma_number_canonical()
    ensures
        canonical(number_ranges()),
{
    lemma_number_block_0();
    lemma_number_block_1();
    lemma_canonical_append(number_block_0(), number_block_1());
}

fn push_number_chunk_0(v: &mut Vec<ClassUnicodeRange>)
    ensures
        rview(final(v)@) == rview(old(v)@) + number_chunk_0(),
{
    let ghost o = rview(v@);
    push_range(v, '\u{30}', '\u{39}');
    push_range(v, '\u{B2}', '\u{B3}');
    push_range(v, '\u{B9}', '\u{B9}');
    push_range(v, '\u{BC}', '\u{BE}');
    push_range(v, '\u{660}', '\u{669}');
    push_range(v, '\u{6F0}', '\u{6F9}');
    push_range(v, '\u{7C0}', '\u{7C9}');
    push_range(v, '\u{966}', '\u{96F}');
    assert(rview(v@) =~= o + number_chunk_0());
}

fn push_number_chunk_1(v: &mut Vec<ClassUnicodeRange>)
    ensures
        rview(final(v)@) == rview(old(v)@) + number_chunk_1(),
{
    let ghost o = rview(v@);
    push_range(v, '\u{9E6}', '\u{9EF}');
    push_range(v, '\u{9F4}', '\u{9F9}');
    push_range(v, '\u{A66}', '\u{A6F}');
    push_range(v, '\u{AE6}', '\u{AEF}');
    push_range(v, '\u{B66}', '\u{B6F}');
    push_range(v, '\u{B72}', '\u{B77}');
    push_range(v, '\u{BE6}', '\u{BF2}');
    push_range(v, '\u{C66}', '\u{C6F}');
    assert(rview(v@) =~= o + number_chunk_1());
}

fn push_number_chunk_2(v: &mut Vec<ClassUnicodeRange>)
    ensures
        rview(final(v)@) == rview(old(v)@) + number_chunk_2(),
{
    let ghost o = rview(v@);
    push_range(v, '\u{C78}', '\u{C7E}');
    push_range(v, '\u{CE6}', '\u{CEF}');
    push_range(v, '\u{D58}', '\u{D5E}');
    push_range(v, '\u{D66}', '\u{D78}');
    push_range(v, '\u{DE6}', '\u{DEF}');
    push_range(v, '\u{E50}', '\u{E59}');
    push_range(v, '\u{ED0}', '\u{ED9}');
    push_range(v, '\u{F20}', '\u{F33}');
    assert(rview(v@) =~= o + number_chunk_2());
}

fn push_number_chunk_3(v: &mut Vec<ClassUnicodeRange>)
    ensures
        rview(final(v)@) == rview(old(v)@) + number_chunk_3(),
{
    let ghost o = rview(v@);
    push_range(v, '\u{1040}', '\u{1049}');
    push_range(v, '\u{1090}', '\u{1099}');
    push_range(v, '\u{1369}', '\u{137C}');
    push_range(v, '\u{16EE}', '\u{16F0}');
    push_range(v, '\u{17E0}', '\u{17E9}');
    push_range(v, '\u{17F0}', '\u{17F9}');
    push_range(v, '\u{1810}', '\u{1819}');
    push_range(v, '\u{1946}', '\u{194F}');
    assert(rview(v@) =~= o + number_chunk_3());
}

fn push_number_chunk_4(v: &mut Vec<ClassUnicodeRange>)
    ensures
        rview(final(v)@) == rview(old(v)@) + number_chunk_4(),
{
    let ghost o = rview(v@);
    push_range(v, '\u{19D0}', '\u{19DA}');
    push_range(v, '\u{1A80}', '\u{1A89}');
    push_range(v, '\u{1A90}', '\u{1A99}');
    push_range(v, '\u{1B50}', '\u{1B59}');
    push_range(v, '\u{1BB0}', '\u{1BB9}');
    push_range(v, '\u{1C40}', '\u{1C49}');
    push_range(v, '\u{1C50}', '\u{1C59}');
    push_range(v, '\u{2070}', '\u{2070}');
    assert(rview(v@) =~= o + number_chunk_4());
}

fn push_number_chunk_5(v: &mut Vec<ClassUnicodeRange>)
    ensures
        rview(final(v)@) == rview(old(v)@) + number_chunk_5(),
{
    let ghost o = rview(v@);
    push_range(v, '\u{2074}', '\u{2079}');
    push_range(v, '\u{2080}', '\u{2089}');
    push_range(v, '\u{2150}', '\u{2182}');
    push_range(v, '\u{2185}', '\u{2189}');
    push_range(v, '\u{2460}', '\u{249B}');
    push_range(v, '\u{24EA}', '\u{24FF}');
    push_range(v, '\u{2776}', '\u{2793}');
    push_range(v, '\u{2CFD}', '\u{2CFD}');
    assert(rview(v@) =~= o + number_chunk_5());
}

fn push_number_chunk_6(v: &mut Vec<ClassUnicodeRange>)
    ensures
        rview(final(v)@) == rview(old(v)@) + number_chunk_6(),
{
    let ghost o = rview(v@);
    push_range(v, '\u{3007}', '\u{3007}');
    push_range(v, '\u{3021}', '\u{3029}');
    push_range(v, '\u{3038}', '\u{303A}');
    push_range(v, '\u{3192}', '\u{3195}');
    push_range(v, '\u{3220}', '\u{3229}');
    push_range(v, '\u{3248}', '\u{324F}');
    push_range(v, '\u{3251}', '\u{325F}');
    push_range(v, '\u{3280}', '\u{3289}');
    assert(rview(v@) =~= o + number_chunk_6());
}

fn push_number_chunk_7(v: &mut Vec<ClassUnicodeRange>)
    ensures
        rview(final(v)@) == rview(old(v)@) + number_chunk_7(),
{
    let ghost o = rview(v@);
    push_range(v, '\u{32B1}', '\u{32BF}');
    push_range(v, '\u{A620}', '\u{A629}');
    push_range(v, '\u{A6E6}', '\u{A6EF}');
    push_range(v, '\u{A830}', '\u{A835}');
    push_range(v, '\u{A8D0}', '\u{A8D9}');
    push_range(v, '\u{A900}', '\u{A909}');
    push_range(v, '\u{A9D0}', '\u{A9D9}');
    push_range(v, '\u{A9F0}', '\u{A9F9}');
    assert(rview(v@) =~= o + number_chunk_7());
}

fn push_number_chunk_8(v: &mut Vec<ClassUnicodeRange>)
    ensures
        rview(final(v)@) == rview(old(v)@) + number_chunk_8(),
{
    let ghost o = rview(v@);
    push_range(v, '\u{AA50}', '\u{AA59}');
    push_range(v, '\u{ABF0}', '\u{ABF9}');
    push_range(v, '\u{FF10}', '\u{FF19}');
    push_range(v, '\u{10107}', '\u{10133}');
    push_range(v, '\u{10140}', '\u{10178}');
    push_range(v, '\u{1018A}', '\u{1018B}');
    push_range(v, '\u{102E1}', '\u{102FB}');
    push_range(v, '\u{10320}', '\u{10323}');
    assert(rview(v@) =~= o + number_chunk_8());
}

fn push_number_chunk_9(v: &mut Vec<ClassUnicodeRange>)
    ensures
        rview(final(v)@) == rview(old(v)@) + number_chunk_9(),
{
    let ghost o = rview(v@);
    push_range(v, '\u{10341}', '\u{10341}');
    push_range(v, '\u{1034A}', '\u{1034A}');
    push_range(v, '\u{103D1}', '\u{103D5}');
    push_range(v, '\u{104A0}', '\u{104A9}');
    push_range(v, '\u{10858}', '\u{1085F}');
    push_range(v, '\u{10879}', '\u{1087F}');
    push_range(v, '\u{108A7}', '\u{108AF}');
    push_range(v, '\u{108FB}', '\u{108FF}');
    assert(rview(v@) =~= o + number_chunk_9());
}

fn push_number_chunk_10(v: &mut Vec<ClassUnicodeRange>)
    ensures
        rview(final(v)@) == rview(old(v)@) + number_chunk_10(),
{
    let ghost o = rview(v@);
    push_range(v, '\u{10916}', '\u{1091B}');
    push_range(v, '\u{109BC}', '\u{109BD}');
    push_range(v, '\u{109C0}', '\u{109CF}');
    push_range(v, '\u{109D2}', '\u{109FF}');
    push_range(v, '\u{10A40}', '\u{10A48}');
    push_range(v, '\u{10A7D}', '\u{10A7E}');
    push_range(v, '\u{10A9D}', '\u{10A9F}');
    push_range(v, '\u{10AEB}', '\u{10AEF}');
    assert(rview(v@) =~= o + number_chunk_10());
}

fn push_number_chunk_11(v: &mut Vec<ClassUnicodeRange>)
    ensures
        rview(final(v)@) == rview(old(v)@) + number_chunk_11(),
{
    let ghost o = rview(v@);
    push_range(v, '\u{10B58}', '\u{10B5F}');
    push_range(v, '\u{10B78}', '\u{10B7F}');
    push_range(v, '\u{10BA9}', '\u{10BAF}');
    push_range(v, '\u{10CFA}', '\u{10CFF}');
    push_range(v, '\u{10D30}', '\u{10D39}');
    push_range(v, '\u{10D40}', '\u{10D49}');
    push_range(v, '\u{10E60}', '\u{10E7E}');
    push_range(v, '\u{10F1D}', '\u{10F26}');
    assert(rview(v@) =~= o + number_chunk_11());
}

fn push_number_chunk_12(v: &mut Vec<ClassUnicodeRange>)
    ensures
        rview(final(v)@) == rview(old(v)@) + number_chunk_12(),
{
    let ghost o = rview(v@);
    push_range(v, '\u{10F51}', '\u{10F54}');
    push_range(v, '\u{10FC5}', '\u{10FCB}');
    push_range(v, '\u{11052}', '\u{1106F}');
    push_range(v, '\u{110F0}', '\u{110F9}');
    push_range(v, '\u{11136}', '\u{1113F}');
    push_range(v, '\u{111D0}', '\u{111D9}');
    push_range(v, '\u{111E1}', '\u{111F4}');
    push_range(v, '\u{112F0}', '\u{112F9}');
    assert(rview(v@) =~= o + number_chunk_12());
}

fn push_number_chunk_13(v: &mut Vec<ClassUnicodeRange>)
    ensures
        rview(final(v)@) == rview(old(v)@) + number_chunk_13(),
{
    let ghost o = rview(v@);
    push_range(v, '\u{11450}', '\u{11459}');
    push_range(v, '\u{114D0}', '\u{114D9}');
    push_range(v, '\u{11650}', '\u{11659}');
    push_range(v, '\u{116C0}', '\u{116C9}');
    push_range(v, '\u{116D0}', '\u{116E3}');
    push_range(v, '\u{11730}', '\u{1173B}');
    push_range(v, '\u{118E0}', '\u{118F2}');
    push_range(v, '\u{11950}', '\u{11959}');
    assert(rview(v@) =~= o + number_chunk_13());
}

fn push_number_chunk_14(v: &mut Vec<ClassUnicodeRange>)
    ensures
        rview(final(v)@) == rview(old(v)@) + number_chunk_14(),
{
    let ghost o = rview(v@);
    push_range(v, '\u{11BF0}', '\u{11BF9}');
    push_range(v, '\u{11C50}', '\u{11C6C}');
    push_range(v, '\u{11D50}', '\u{11D59}');
    push_range(v, '\u{11DA0}', '\u{11DA9}');
    push_range(v, '\u{11F50}', '\u{11F59}');
    push_range(v, '\u{11FC0}', '\u{11FD4}');
    push_range(v, '\u{12400}', '\u{1246E}');
    push_range(v, '\u{16130}', '\u{16139}');
    assert(rview(v@) =~= o + number_chunk_14());
}

fn push_number_chunk_15(v: &mut Vec<ClassUnicodeRange>)
    ensures
        rview(final(v)@) == rview(old(v)@) + number_chunk_15(),
{
    let ghost o = rview(v@);
    push_range(v, '\u{16A60}', '\u{16A69}');
    push_range(v, '\u{16AC0}', '\u{16AC9}');
    push_range(v, '\u{16B50}', '\u{16B59}');
    push_range(v, '\u{16B5B}', '\u{16B61}');
    push_range(v, '\u{16D70}', '\u{16D79}');
    push_range(v, '\u{16E80}', '\u{16E96}');
    push_range(v, '\u{1CCF0}', '\u{1CCF9}');
    push_range(v, '\u{1D2C0}', '\u{1D2D3}');
    assert(rview(v@) =~= o + number_chunk_15());
}

fn push_number_chunk_16(v: &mut Vec<ClassUnicodeRange>)
    ensures
        rview(final(v)@) == rview(old(v)@) + number_chunk_16(),
{
    let ghost o = rview(v@);
    push_range(v, '\u{1D2E0}', '\u{1D2F3}');
    push_range(v, '\u{1D360}', '\u{1D378}');
    push_range(v, '\u{1D7CE}', '\u{1D7FF}');
    push_range(v, '\u{1E140}', '\u{1E149}');
    push_range(v, '\u{1E2F0}', '\u{1E2F9}');
    push_range(v, '\u{1E4F0}', '\u{1E4F9}');
    push_range(v, '\u{1E5F1}', '\u{1E5FA}');
    push_range(v, '\u{1E8C7}', '\u{1E8CF}');
    assert(rview(v@) =~= o + number_chunk_16());
}

fn push_number_chunk_17(v: &mut Vec<ClassUnicodeRange>)
    ensures
        rview(final(v)@) == rview(old(v)@) + number_chunk_17(),
{
    let ghost o = rview(v@);
    push_range(v, '\u{1E950}', '\u{1E959}');
    push_range(v, '\u{1EC71}', '\u{1ECAB}');
    push_range(v, '\u{1ECAD}', '\u{1ECAF}');
    push_range(v, '\u{1ECB1}', '\u{1ECB4}');
    push_range(v, '\u{1ED01}', '\u{1ED2D}');
    push_range(v, '\u{1ED2F}', '\u{1ED3D}');
    push_range(v, '\u{1F100}', '\u{1F10C}');
    push_range(v, '\u{1FBF0}', '\u{1FBF9}');
    assert(rview(v@) =~= o + number_chunk_17());
}

fn push_number_block_0(v: &mut Vec<ClassUnicodeRange>)
    ensures
        rview(final(v)@) == rview(old(v)@) + number_block_0(),
{
    let ghost o = rview(v@);
    push_number_chunk_0(v);
    assert(rview(v@) =~= o + (number_chunk_0()));
    push_number_chunk_1(v);
    assert(rview(v@) =~= o + (number_chunk_0() + number_chunk_1()));
    push_number_chunk_2(v);
    assert(rview(v@) =~= o + (number_chunk_0() + number_chunk_1() + number_chunk_2()));
    push_number_chunk_3(v);
    assert(rview(v@) =~= o + (number_chunk_0() + number_chunk_1() + number_chunk_2() + number_chunk_3()));
    push_number_chunk_4(v);
    assert(rview(v@) =~= o + (number_chunk_0() + number_chunk_1() + number_chunk_2() + number_chunk_3() + number_chunk_4()));
    push_number_chunk_5(v);
    assert(rview(v@) =~= o + (number_chunk_0() + number_chunk_1() + number_chunk_2() + number_chunk_3() + number_chunk_4() + number_chunk_5()));
    push_number_chunk_6(v);
    assert(rview(v@) =~= o + (number_chunk_0() + number_chunk_1() + number_chunk_2() + number_chunk_3() + number_chunk_4() + number_chunk_5() + number_chunk_6()));
    push_number_chunk_7(v);
    assert(rview(v@) =~= o + (number_chunk_0() + number_chunk_1() + number_chunk_2() + number_chunk_3() + number_chunk_4() + number_chunk_5() + number_chunk_6() + number_chunk_7()));
    push_number_chunk_8(v);
    assert(rview(v@) =~= o + (number_chunk_0() + number_chunk_1() + number_chunk_2() + number_chunk_3() + number_chunk_4() + number_chunk_5() + number_chunk_6() + number_chunk_7() + number_chunk_8()));
    push_number_chunk_9(v);
    assert(rview(v@) =~= o + (number_chunk_0() + number_chunk_1() + number_chunk_2() + number_chunk_3() + number_chunk_4() + number_chunk_5() + number_chunk_6() + number_chunk_7() + number_chunk_8() + number_chunk_9()));
}

fn push_number_block_1(v: &mut Vec<ClassUnicodeRange>)
    ensures
        rview(final(v)@) == rview(old(v)@) + number_block_1(),
{
    let ghost o = rview(v@);
    push_number_chunk_10(v);
    assert(rview(v@) =~= o + (number_chunk_10()));
    push_number_chunk_11(v);
    assert(rview(v@) =~= o + (number_chunk_10() + number_chunk_11()));
    push_number_chunk_12(v);
    assert(rview(v@) =~= o + (number_chunk_10() + number_chunk_11() + number_chunk_12()));
    push_number_chunk_13(v);
    assert(rview(v@) =~= o + (number_chunk_10() + number_chunk_11() + number_chunk_12() + number_chunk_13()));
    push_number_chunk_14(v);
    assert(rview(v@) =~= o + (number_chunk_10() + number_chunk_11() + number_chunk_12() + number_chunk_13() + number_chunk_14()));
    push_number_chunk_15(v);
    assert(rview(v@) =~= o + (number_chunk_10() + number_chunk_11() + number_chunk_12() + number_chunk_13() + number_chunk_14() + number_chunk_15()));
    push_number_chunk_16(v);
    assert(rview(v@) =~= o + (number_chunk_10() + number_chunk_11() + number_chunk_12() + number_chunk_13() + number_chunk_14() + number_chunk_15() + number_chunk_16()));
    push_number_chunk_17(v);
    assert(rview(v@) =~= o + (number_chunk_10() + number_chunk_11() + number_chunk_12() + number_chunk_13() + number_chunk_14() + number_chunk_15() + number_chunk_16() + number_chunk_17()));
}

/// The ranges of the general category Number.
pub fn number_class() -> (v: Vec<ClassUnicodeRange>)
    ensures
        rview(v@) == number_ranges(),
{
    let mut v: Vec<ClassUnicodeRange> = Vec::new();
    assert(rview(v@) =~= Seq::<SRange>::empty());
    push_number_block_0(&mut v);
    assert(rview(v@) =~= number_block_0());
    push_number_block_1(&mut v);
    assert(rview(v@) =~= number_block_0() + number_block_1());
    v
}

pub open spec fn open_punctuation_chunk_0() -> Seq<SRange> {
    seq![(0x28int, 0x28int), (0x5Bint, 0x5Bint), (0x7Bint, 0x7Bint), (0xF3Aint, 0xF3Aint), (0xF3Cint, 0xF3Cint), (0x169Bint, 0x169Bint), (0x201Aint, 0x201Aint), (0x201Eint, 0x201Eint)]
}

pub open spec fn open_punctuation_chunk_1() -> Seq<SRange> {
    seq![(0x2045int, 0x2045int), (0x207Dint, 0x207Dint), (0x208Dint, 0x208Dint), (0x2308int, 0x2308int), (0x230Aint, 0x230Aint), (0x2329int, 0x2329int), (0x2768int, 0x2768int), (0x276Aint, 0x276Aint)]
}

pub open spec fn open_punctuation_chunk_2() -> Seq<SRange> {
    seq![(0x276Cint, 0x276Cint), (0x276Eint, 0x276Eint), (0x2770int, 0x2770int), (0x2772int, 0x2772int), (0x2774int, 0x2774int), (0x27C5int, 0x27C5int), (0x27E6int, 0x27E6int), (0x27E8int, 0x27E8int)]
}

pub open spec fn open_punctuation_chunk_3() -> Seq<SRange> {
    seq![(0x27EAint, 0x27EAint), (0x27ECint, 0x27ECint), (0x27EEint, 0x27EEint), (0x2983int, 0x2983int), (0x2985int, 0x2985int), (0x2987int, 0x2987int), (0x2989int, 0x2989int), (0x298Bint, 0x298Bint)]
}

pub open spec fn open_punctuation_chunk_4() -> Seq<SRange> {
    seq![(0x298Dint, 0x298Dint), (0x298Fint, 0x298Fint), (0x2991int, 0x2991int), (0x2993int, 0x2993int), (0x2995int, 0x2995int), (0x2997int, 0x2997int), (0x29D8int, 0x29D8int), (0x29DAint, 0x29DAint)]
}

pub open spec fn open_punctuation_chunk_5() -> Seq<SRange> {
    seq![(0x29FCint, 0x29FCint), (0x2E22int, 0x2E22int), (0x2E24int, 0x2E24int), (0x2E26int, 0x2E26int), (0x2E28int, 0x2E28int), (0x2E42int, 0x2E42int), (0x2E55int, 0x2E55int), (0x2E57int, 0x2E57int)]
}

pub open spec fn open_punctuation_chunk_6() -> Seq<SRange> {
    seq![(0x2E59int, 0x2E59int), (0x2E5Bint, 0x2E5Bint), (0x3008int, 0x3008int), (0x300Aint, 0x300Aint), (0x300Cint, 0x300Cint), (0x300Eint, 0x300Eint), (0x3010int, 0x3010int), (0x3014int, 0x3014int)]
}

pub open spec fn open_punctuation_chunk_7() -> Seq<SRange> {
    seq![(0x3016int, 0x3016int), (0x3018int, 0x3018int), (0x301Aint, 0x301Aint), (0x301Dint, 0x301Dint), (0xFD3Fint, 0xFD3Fint), (0xFE17int, 0xFE17int), (0xFE35int, 0xFE35int), (0xFE37int, 0xFE37int)]
}

pub open spec fn open_punctuation_chunk_8() -> Seq<SRange> {
    seq![(0xFE39int, 0xFE39int), (0xFE3Bint, 0xFE3Bint), (0xFE3Dint, 0xFE3Dint), (0xFE3Fint, 0xFE3Fint), (0xFE41int, 0xFE41int), (0xFE43int, 0xFE43int), (0xFE47int, 0xFE47int), (0xFE59int, 0xFE59int)]
}

pub open spec fn open_punctuation_chunk_9() -> Seq<SRange> {
    seq![(0xFE5Bint, 0xFE5Bint), (0xFE5Dint, 0xFE5Dint), (0xFF08int, 0xFF08int), (0xFF3Bint, 0xFF3Bint), (0xFF5Bint, 0xFF5Bint), (0xFF5Fint, 0xFF5Fint), (0xFF62int, 0xFF62int)]
}

pub open spec fn open_punctuation_block_0() -> Seq<SRange> {
    open_punctuation_chunk_0() + open_punctuation_chunk_1() + open_punctuation_chunk_2() + open_punctuation_chunk_3() + open_punctuation_chunk_4() + open_punctuation_chunk_5() + open_punctuation_chunk_6() + open_punctuation_chunk_7() + open_punctuation_chunk_8() + open_punctuation_chunk_9()
}

/// The ranges of the general category Open_Punctuation.
pub open spec fn open_punctuation_ranges() -> Seq<SRange> {
    open_punctuation_block_0()
}

proof fn lemma_open_punctuation_block_0()
    ensures
        canonical(open_punctuation_block_0()),
        open_punctuation_block_0().len() > 0,
        open_punctuation_block_0()[0] == open_punctuation_chunk_0()[0],
        open_punctuation_block_0().last() == open_punctuation_chunk_9().last(),
{
    reveal_with_fuel(canonical, 9);
    assert(canonical(open_punctuation_chunk_0()));
    assert(canonical(open_punctuation_chunk_1()));
    assert(canonical(open_punctuation_chunk_2()));
    assert(canonical(open_punctuation_chunk_3()));
    assert(canonical(open_punctuation_chunk_4()));
    assert(canonical(open_punctuation_chunk_5()));
    assert(canonical(open_punctuation_chunk_6()));
    assert(canonical(open_punctuation_chunk_7()));
    assert(canonical(open_punctuation_chunk_8()));
    assert(canonical(open_punctuation_chunk_9()));
    lemma_canonical_append(open_punctuation_chunk_0(), open_punctuation_chunk_1());
    lemma_canonical_append(open_punctuation_chunk_0() + open_punctuation_chunk_1(), open_punctuation_chunk_2());
    lemma_canonical_append(open_punctuation_chunk_0() + open_punctuation_chunk_1() + open_punctuation_chunk_2(), open_punctuation_chunk_3());
    lemma_canonical_append(open_punctuation_chunk_0() + open_punctuation_chunk_1() + open_punctuation_chunk_2() + open_punctuation_chunk_3(), open_punctuation_chunk_4());
    lemma_canonical_append(open_punctuation_chunk_0() + open_punctuation_chunk_1() + open_punctuation_chunk_2() + open_punctuation_chunk_3() + open_punctuation_chunk_4(), open_punctuation_chunk_5());
    lemma_canonical_append(open_punctuation_chunk_0() + open_punctuation_chunk_1() + open_punctuation_chunk_2() + open_punctuation_chunk_3() + open_punctuation_chunk_4() + open_punctuation_chunk_5(), open_punctuation_chunk_6());
    lemma_canonical_append(open_punctuation_chunk_0() + open_punctuation_chunk_1() + open_punctuation_chunk_2() + open_punctuation_chunk_3() + open_punctuation_chunk_4() + open_punctuation_chunk_5() + open_punctuation_chunk_6(), open_punctuation_chunk_7());
    lemma_canonical_append(open_punctuation_chunk_0() + open_punctuation_chunk_1() + open_punctuation_chunk_2() + open_punctuation_chunk_3() + open_punctuation_chunk_4() + open_punctuation_chunk_5() + open_punctuation_chunk_6() + open_punctuation_chunk_7(), open_punctuation_chunk_8());
    lemma_canonical_append(open_punctuation_chunk_0() + open_punctuation_chunk_1() + open_punctuation_chunk_2() + open_punctuation_chunk_3() + open_punctuation_chunk_4() + open_punctuation_chunk_5() + open_punctuation_chunk_6() + open_punctuation_chunk_7() + open_punctuation_chunk_8(), open_punctuation_chunk_9());
}

/// The general category Open_Punctuation is a canonical class.
pub proof fn lemma_open_punctuation_canonical()
    ensures
        canonical(open_punctuation_ranges()),
{
    lemma_open_punctuation_block_0();
}

fn push_open_punctuation_chunk_0(v: &mut Vec<ClassUnicodeRange>)
    ensures
        rview(final(v)@) == rview(old(v)@) + open_punctuation_chunk_0(),
{
    let ghost o = rview(v@);
    push_range(v, '\u{28}', '\u{28}');
    push_range(v, '\u{5B}', '\u{5B}');
    push_range(v, '\u{7B}', '\u{7B}');
    push_range(v, '\u{F3A}', '\u{F3A}');
    push_range(v, '\u{F3C}', '\u{F3C}');
    push_range(v, '\u{169B}', '\u{169B}');
    push_range(v, '\u{201A}', '\u{201A}');
    push_range(v, '\u{201E}', '\u{201E}');
    assert(rview(v@) =~= o + open_punctuation_chunk_0());
}

fn push_open_punctuation_chunk_1(v: &mut Vec<ClassUnicodeRange>)
    ensures
        rview(final(v)@) == rview(old(v)@) + open_punctuation_chunk_1(),
{
    let ghost o = rview(v@);
    push_range(v, '\u{2045}', '\u{2045}');
    push_range(v, '\u{207D}', '\u{207D}');
    push_range(v, '\u{208D}', '\u{208D}');
    push_range(v, '\u{2308}', '\u{2308}');
    push_range(v, '\u{230A}', '\u{230A}');
    push_range(v, '\u{2329}', '\u{2329}');
    push_range(v, '\u{2768}', '\u{2768}');
    push_range(v, '\u{276A}', '\u{276A}');
    assert(rview(v@) =~= o + open_punctuation_chunk_1());
}

fn push_open_punctuation_chunk_2(v: &mut Vec<ClassUnicodeRange>)
    ensures
        rview(final(v)@) == rview(old(v)@) + open_punctuation_chunk_2(),
{
    let ghost o = rview(v@);
    push_range(v, '\u{276C}', '\u{276C}');
    push_range(v, '\u{276E}', '\u{276E}');
    push_range(v, '\u{2770}', '\u{2770}');
    push_range(v, '\u{2772}', '\u{2772}');
    push_range(v, '\u{2774}', '\u{2774}');
    push_range(v, '\u{27C5}', '\u{27C5}');
    push_range(v, '\u{27E6}', '\u{27E6}');
    push_range(v, '\u{27E8}', '\u{27E8}');
    assert(rview(v@) =~= o + open_punctuation_chunk_2());
}

fn push_open_punctuation_chunk_3(v: &mut Vec<ClassUnicodeRange>)
    ensures
        rview(final(v)@) == rview(old(v)@) + open_punctuation_chunk_3(),
{
    let ghost o = rview(v@);
    push_range(v, '\u{27EA}', '\u{27EA}');
    push_range(v, '\u{27EC}', '\u{27EC}');
    push_range(v, '\u{27EE}', '\u{27EE}');
    push_range(v, '\u{2983}', '\u{2983}');
    push_range(v, '\u{2985}', '\u{2985}');
    push_range(v, '\u{2987}', '\u{2987}');
    push_range(v, '\u{2989}', '\u{2989}');
    push_range(v, '\u{298B}', '\u{298B}');
    assert(rview(v@) =~= o + open_punctuation_chunk_3());
}

fn push_open_punctuation_chunk_4(v: &mut Vec<ClassUnicodeRange>)
    ensures
        rview(final(v)@) == rview(old(v)@) + open_punctuation_chunk_4(),
{
    let ghost o = rview(v@);
    push_range(v, '\u{298D}', '\u{298D}');
    push_range(v, '\u{298F}', '\u{298F}');
    push_range(v, '\u{2991}', '\u{2991}');
    push_range(v, '\u{2993}', '\u{2993}');
    push_range(v, '\u{2995}', '\u{2995}');
    push_range(v, '\u{2997}', '\u{2997}');
    push_range(v, '\u{29D8}', '\u{29D8}');
    push_range(v, '\u{29DA}', '\u{29DA}');
    assert(rview(v@) =~= o + open_punctuation_chunk_4());
}

fn push_open_punctuation_chunk_5(v: &mut Vec<ClassUnicodeRange>)
    ensures
        rview(final(v)@) == rview(old(v)@) + open_punctuation_chunk_5(),
{
    let ghost o = rview(v@);
    push_range(v, '\u{29FC}', '\u{29FC}');
    push_range(v, '\u{2E22}', '\u{2E22}');
    push_range(v, '\u{2E24}', '\u{2E24}');
    push_range(v, '\u{2E26}', '\u{2E26}');
    push_range(v, '\u{2E28}', '\u{2E28}');
    push_range(v, '\u{2E42}', '\u{2E42}');
    push_range(v, '\u{2E55}', '\u{2E55}');
    push_range(v, '\u{2E57}', '\u{2E57}');
    assert(rview(v@) =~= o + open_punctuation_chunk_5());
}

fn push_open_punctuation_chunk_6(v: &mut Vec<ClassUnicodeRange>)
    ensures
        rview(final(v)@) == rview(old(v)@) + open_punctuation_chunk_6(),
{
    let ghost o = rview(v@);
    push_range(v, '\u{2E59}', '\u{2E59}');
    push_range(v, '\u{2E5B}', '\u{2E5B}');
    push_range(v, '\u{3008}', '\u{3008}');
    push_range(v, '\u{300A}', '\u{300A}');
    push_range(v, '\u{300C}', '\u{300C}');
    push_range(v, '\u{300E}', '\u{300E}');
    push_range(v, '\u{3010}', '\u{3010}');
    push_range(v, '\u{3014}', '\u{3014}');
    assert(rview(v@) =~= o + open_punctuation_chunk_6());
}

fn push_open_punctuation_chunk_7(v: &mut Vec<ClassUnicodeRange>)
    ensures
        rview(final(v)@) == rview(old(v)@) + open_punctuation_chunk_7(),
{
    let ghost o = rview(v@);
    push_range(v, '\u{3016}', '\u{3016}');
    push_range(v, '\u{3018}', '\u{3018}');
    push_range(v, '\u{301A}', '\u{301A}');
    push_range(v, '\u{301D}', '\u{301D}');
    push_range(v, '\u{FD3F}', '\u{FD3F}');
    push_range(v, '\u{FE17}', '\u{FE17}');
    push_range(v, '\u{FE35}', '\u{FE35}');
    push_range(v, '\u{FE37}', '\u{FE37}');
    assert(rview(v@) =~= o + open_punctuation_chunk_7());
}

fn push_open_punctuation_chunk_8(v: &mut Vec<ClassUnicodeRange>)
    ensures
        rview(final(v)@) == rview(old(v)@) + open_punctuation_chunk_8(),
{
    let ghost o = rview(v@);
    push_range(v, '\u{FE39}', '\u{FE39}');
    push_range(v, '\u{FE3B}', '\u{FE3B}');
    push_range(v, '\u{FE3D}', '\u{FE3D}');
    push_range(v, '\u{FE3F}', '\u{FE3F}');
    push_range(v, '\u{FE41}', '\u{FE41}');
    push_range(v, '\u{FE43}', '\u{FE43}');
    push_range(v, '\u{FE47}', '\u{FE47}');
    push_range(v, '\u{FE59}', '\u{FE59}');
    assert(rview(v@) =~= o + open_punctuation_chunk_8());
}

fn push_open_punctuation_chunk_9(v: &mut Vec<ClassUnicodeRange>)
    ensures
        rview(final(v)@) == rview(old(v)@) + open_punctuation_chunk_9(),
{
    let ghost o = rview(v@);
    push_range(v, '\u{FE5B}', '\u{FE5B}');
    push_range(v, '\u{FE5D}', '\u{FE5D}');
    push_range(v, '\u{FF08}', '\u{FF08}');
    push_range(v, '\u{FF3B}', '\u{FF3B}');
    push_range(v, '\u{FF5B}', '\u{FF5B}');
    push_range(v, '\u{FF5F}', '\u{FF5F}');
    push_range(v, '\u{FF62}', '\u{FF62}');
    assert(rview(v@) =~= o + open_punctuation_chunk_9());
}

fn push_open_punctuation_block_0(v: &mut Vec<ClassUnicodeRange>)
    ensures
        rview(final(v)@) == rview(old(v)@) + open_punctuation_block_0(),
{
    let ghost o = rview(v@);
    push_open_punctuation_chunk_0(v);
    assert(rview(v@) =~= o + (open_punctuation_chunk_0()));
    push_open_punctuation_chunk_1(v);
    assert(rview(v@) =~= o + (open_punctuation_chunk_0() + open_punctuation_chunk_1()));
    push_open_punctuation_chunk_2(v);
    assert(rview(v@) =~= o + (open_punctuation_chunk_0() + open_punctuation_chunk_1() + open_punctuation_chunk_2()));
    push_open_punctuation_chunk_3(v);
    assert(rview(v@) =~= o + (open_punctuation_chunk_0() + open_punctuation_chunk_1() + open_punctuation_chunk_2() + open_punctuation_chunk_3()));
    push_open_punctuation_chunk_4(v);
    assert(rview(v@) =~= o + (open_punctuation_chunk_0() + open_punctuation_chunk_1() + open_punctuation_chunk_2() + open_punctuation_chunk_3() + open_punctuation_chunk_4()));
    push_open_punctuation_chunk_5(v);
    assert(rview(v@) =~= o + (open_punctuation_chunk_0() + open_punctuation_chunk_1() + open_punctuation_chunk_2() + open_punctuation_chunk_3() + open_punctuation_chunk_4() + open_punctuation_chunk_5()));
    push_open_punctuation_chunk_6(v);
    assert(rview(v@) =~= o + (open_punctuation_chunk_0() + open_punctuation_chunk_1() + open_punctuation_chunk_2() + open_punctuation_chunk_3() + open_punctuation_chunk_4() + open_punctuation_chunk_5() + open_punctuation_chunk_6()));
    push_open_punctuation_chunk_7(v);
    assert(rview(v@) =~= o + (open_punctuation_chunk_0() + open_punctuation_chunk_1() + open_punctuation_chunk_2() + open_punctuation_chunk_3() + open_punctuation_chunk_4() + open_punctuation_chunk_5() + open_punctuation_chunk_6() + open_punctuation_chunk_7()));
    push_open_punctuation_chunk_8(v);
    assert(rview(v@) =~= o + (open_punctuation_chunk_0() + open_punctuation_chunk_1() + open_punctuation_chunk_2() + open_punctuation_chunk_3() + open_punctuation_chunk_4() + open_punctuation_chunk_5() + open_punctuation_chunk_6() + open_punctuation_chunk_7() + open_punctuation_chunk_8()));
    push_open_punctuation_chunk_9(v);
    assert(rview(v@) =~= o + (open_punctuation_chunk_0() + open_punctuation_chunk_1() + open_punctuation_chunk_2() + open_punctuation_chunk_3() + open_punctuation_chunk_4() + open_punctuation_chunk_5() + open_punctuation_chunk_6() + open_punctuation_chunk_7() + open_punctuation_chunk_8() + open_punctuation_chunk_9()));
}

/// The ranges of the general category Open_Punctuation.
pub fn open_punctuation_class() -> (v: Vec<ClassUnicodeRange>)
    ensures
        rview(v@) == open_punctuation_ranges(),
{
    let mut v: Vec<ClassUnicodeRange> = Vec::new();
    assert(rview(v@) =~= Seq::<SRange>::empty());
    push_open_punctuation_block_0(&mut v);
    assert(rview(v@) =~= open_punctuation_block_0());
    v
}

pub open spec fn other_chunk_0() -> Seq<SRange> {
    seq![(0x0int, 0x1Fint), (0x7Fint, 0x9Fint), (0xADint, 0xADint), (0x378int, 0x379int), (0x380int, 0x383int), (0x38Bint, 0x38Bint), (0x38Dint, 0x38Dint), (0x3A2int, 0x3A2int)]
}

pub open spec fn other_chunk_1() -> Seq<SRange> {
    seq![(0x530int, 0x530int), (0x557int, 0x558int), (0x58Bint, 0x58Cint), (0x590int, 0x590int), (0x5C8int, 0x5CFint), (0x5EBint, 0x5EEint), (0x5F5int, 0x605int), (0x61Cint, 0x61Cint)]
}

pub open spec fn other_chunk_2() -> Seq<SRange> {
    seq![(0x6DDint, 0x6DDint), (0x70Eint, 0x70Fint), (0x74Bint, 0x74Cint), (0x7B2int, 0x7BFint), (0x7FBint, 0x7FCint), (0x82Eint, 0x82Fint), (0x83Fint, 0x83Fint), (0x85Cint, 0x85Dint)]
}

pub open spec fn other_chunk_3() -> Seq<SRange> {
    seq![(0x85Fint, 0x85Fint), (0x86Bint, 0x86Fint), (0x88Fint, 0x896int), (0x8E2int, 0x8E2int), (0x984int, 0x984int), (0x98Dint, 0x98Eint), (0x991int, 0x992int), (0x9A9int, 0x9A9int)]
}

pub open spec fn other_chunk_4() -> Seq<SRange> {
    seq![(0x9B1int, 0x9B1int), (0x9B3int, 0x9B5int), (0x9BAint, 0x9BBint), (0x9C5int, 0x9C6int), (0x9C9int, 0x9CAint), (0x9CFint, 0x9D6int), (0x9D8int, 0x9DBint), (0x9DEint, 0x9DEint)]
}

pub open spec fn other_chunk_5() -> Seq<SRange> {
    seq![(0x9E4int, 0x9E5int), (0x9FFint, 0xA00int), (0xA04int, 0xA04int), (0xA0Bint, 0xA0Eint), (0xA11int, 0xA12int), (0xA29int, 0xA29int), (0xA31int, 0xA31int), (0xA34int, 0xA34int)]
}

pub open spec fn other_chunk_6() -> Seq<SRange> {
    seq![(0xA37int, 0xA37int), (0xA3Aint, 0xA3Bint), (0xA3Dint, 0xA3Dint), (0xA43int, 0xA46int), (0xA49int, 0xA4Aint), (0xA4Eint, 0xA50int), (0xA52int, 0xA58int), (0xA5Dint, 0xA5Dint)]
}

pub open spec fn other_chunk_7() -> Seq<SRange> {
    seq![(0xA5Fint, 0xA65int), (0xA77int, 0xA80int), (0xA84int, 0xA84int), (0xA8Eint, 0xA8Eint), (0xA92int, 0xA92int), (0xAA9int, 0xAA9int), (0xAB1int, 0xAB1int), (0xAB4int, 0xAB4int)]
}

pub open spec fn other_chunk_8() -> Seq<SRange> {
    seq![(0xABAint, 0xABBint), (0xAC6int, 0xAC6int), (0xACAint, 0xACAint), (0xACEint, 0xACFint), (0xAD1int, 0xADFint), (0xAE4int, 0xAE5int), (0xAF2int, 0xAF8int), (0xB00int, 0xB00int)]
}

pub open spec fn other_chunk_9() -> Seq<SRange> {
    seq![(0xB04int, 0xB04int), (0xB0Dint, 0xB0Eint), (0xB11int, 0xB12int), (0xB29int, 0xB29int), (0xB31int, 0xB31int), (0xB34int, 0xB34int), (0xB3Aint, 0xB3Bint), (0xB45int, 0xB46int)]
}

pub open spec fn other_chunk_10() -> Seq<SRange> {
    seq![(0xB49int, 0xB4Aint), (0xB4Eint, 0xB54int), (0xB58int, 0xB5Bint), (0xB5Eint, 0xB5Eint), (0xB64int, 0xB65int), (0xB78int, 0xB81int), (0xB84int, 0xB84int), (0xB8Bint, 0xB8Dint)]
}

pub open spec fn other_chunk_11() -> Seq<SRange> {
    seq![(0xB91int, 0xB91int), (0xB96int, 0xB98int), (0xB9Bint, 0xB9Bint), (0xB9Dint, 0xB9Dint), (0xBA0int, 0xBA2int), (0xBA5int, 0xBA7int), (0xBABint, 0xBADint), (0xBBAint, 0xBBDint)]
}

pub open spec fn other_chunk_12() -> Seq<SRange> {
    seq![(0xBC3int, 0xBC5int), (0xBC9int, 0xBC9int), (0xBCEint, 0xBCFint), (0xBD1int, 0xBD6int), (0xBD8int, 0xBE5int), (0xBFBint, 0xBFFint), (0xC0Dint, 0xC0Dint), (0xC11int, 0xC11int)]
}

pub open spec fn other_chunk_13() -> Seq<SRange> {
    seq![(0xC29int, 0xC29int), (0xC3Aint, 0xC3Bint), (0xC45int, 0xC45int), (0xC49int, 0xC49int), (0xC4Eint, 0xC54int), (0xC57int, 0xC57int), (0xC5Bint, 0xC5Cint), (0xC5Eint, 0xC5Fint)]
}

pub open spec fn other_chunk_14() -> Seq<SRange> {
    seq![(0xC64int, 0xC65int), (0xC70int, 0xC76int), (0xC8Dint, 0xC8Dint), (0xC91int, 0xC91int), (0xCA9int, 0xCA9int), (0xCB4int, 0xCB4int), (0xCBAint, 0xCBBint), (0xCC5int, 0xCC5int)]
}

pub open spec fn other_chunk_15() -> Seq<SRange> {
    seq![(0xCC9int, 0xCC9int), (0xCCEint, 0xCD4int), (0xCD7int, 0xCDCint), (0xCDFint, 0xCDFint), (0xCE4int, 0xCE5int), (0xCF0int, 0xCF0int), (0xCF4int, 0xCFFint), (0xD0Dint, 0xD0Dint)]
}

pub open spec fn other_chunk_16() -> Seq<SRange> {
    seq![(0xD11int, 0xD11int), (0xD45int, 0xD45int), (0xD49int, 0xD49int), (0xD50int, 0xD53int), (0xD64int, 0xD65int), (0xD80int, 0xD80int), (0xD84int, 0xD84int), (0xD97int, 0xD99int)]
}

pub open spec fn other_chunk_17() -> Seq<SRange> {
    seq![(0xDB2int, 0xDB2int), (0xDBCint, 0xDBCint), (0xDBEint, 0xDBFint), (0xDC7int, 0xDC9int), (0xDCBint, 0xDCEint), (0xDD5int, 0xDD5int), (0xDD7int, 0xDD7int), (0xDE0int, 0xDE5int)]
}

pub open spec fn other_chunk_18() -> Seq<SRange> {
    seq![(0xDF0int, 0xDF1int), (0xDF5int, 0xE00int), (0xE3Bint, 0xE3Eint), (0xE5Cint, 0xE80int), (0xE83int, 0xE83int), (0xE85int, 0xE85int), (0xE8Bint, 0xE8Bint), (0xEA4int, 0xEA4int)]
}

pub open spec fn other_chunk_19() -> Seq<SRange> {
    seq![(0xEA6int, 0xEA6int), (0xEBEint, 0xEBFint), (0xEC5int, 0xEC5int), (0xEC7int, 0xEC7int), (0xECFint, 0xECFint), (0xEDAint, 0xEDBint), (0xEE0int, 0xEFFint), (0xF48int, 0xF48int)]
}

pub open spec fn other_chunk_20() -> Seq<SRange> {
    seq![(0xF6Dint, 0xF70int), (0xF98int, 0xF98int), (0xFBDint, 0xFBDint), (0xFCDint, 0xFCDint), (0xFDBint, 0xFFFint), (0x10C6int, 0x10C6int), (0x10C8int, 0x10CCint), (0x10CEint, 0x10CFint)]
}

pub open spec fn other_chunk_21() -> Seq<SRange> {
    seq![(0x1249int, 0x1249int), (0x124Eint, 0x124Fint), (0x1257int, 0x1257int), (0x1259int, 0x1259int), (0x125Eint, 0x125Fint), (0x1289int, 0x1289int), (0x128Eint, 0x128Fint), (0x12B1int, 0x12B1int)]
}

pub open spec fn other_chunk_22() -> Seq<SRange> {
    seq![(0x12B6int, 0x12B7int), (0x12BFint, 0x12BFint), (0x12C1int, 0x12C1int), (0x12C6int, 0x12C7int), (0x12D7int, 0x12D7int), (0x1311int, 0x1311int), (0x1316int, 0x1317int), (0x135Bint, 0x135Cint)]
}

pub open spec fn other_chunk_23() -> Seq<SRange> {
    seq![(0x137Dint, 0x137Fint), (0x139Aint, 0x139Fint), (0x13F6int, 0x13F7int), (0x13FEint, 0x13FFint), (0x169Dint, 0x169Fint), (0x16F9int, 0x16FFint), (0x1716int, 0x171Eint), (0x1737int, 0x173Fint)]
}

pub open spec fn other_chunk_24() -> Seq<SRange> {
    seq![(0x1754int, 0x175Fint), (0x176Dint, 0x176Dint), (0x1771int, 0x1771int), (0x1774int, 0x177Fint), (0x17DEint, 0x17DFint), (0x17EAint, 0x17EFint), (0x17FAint, 0x17FFint), (0x180Eint, 0x180Eint)]
}

pub open spec fn other_chunk_25() -> Seq<SRange> {
    seq![(0x181Aint, 0x181Fint), (0x1879int, 0x187Fint), (0x18ABint, 0x18AFint), (0x18F6int, 0x18FFint), (0x191Fint, 0x191Fint), (0x192Cint, 0x192Fint), (0x193Cint, 0x193Fint), (0x1941int, 0x1943int)]
}

pub open spec fn other_chunk_26() -> Seq<SRange> {
    seq![(0x196Eint, 0x196Fint), (0x1975int, 0x197Fint), (0x19ACint, 0x19AFint), (0x19CAint, 0x19CFint), (0x19DBint, 0x19DDint), (0x1A1Cint, 0x1A1Dint), (0x1A5Fint, 0x1A5Fint), (0x1A7Dint, 0x1A7Eint)]
}

pub open spec fn other_chunk_27() -> Seq<SRange> {
    seq![(0x1A8Aint, 0x1A8Fint), (0x1A9Aint, 0x1A9Fint), (0x1AAEint, 0x1AAFint), (0x1ACFint, 0x1AFFint), (0x1B4Dint, 0x1B4Dint), (0x1BF4int, 0x1BFBint), (0x1C38int, 0x1C3Aint), (0x1C4Aint, 0x1C4Cint)]
}

pub open spec fn other_chunk_28() -> Seq<SRange> {
    seq![(0x1C8Bint, 0x1C8Fint), (0x1CBBint, 0x1CBCint), (0x1CC8int, 0x1CCFint), (0x1CFBint, 0x1CFFint), (0x1F16int, 0x1F17int), (0x1F1Eint, 0x1F1Fint), (0x1F46int, 0x1F47int), (0x1F4Eint, 0x1F4Fint)]
}

pub open spec fn other_chunk_29() -> Seq<SRange> {
    seq![(0x1F58int, 0x1F58int), (0x1F5Aint, 0x1F5Aint), (0x1F5Cint, 0x1F5Cint), (0x1F5Eint, 0x1F5Eint), (0x1F7Eint, 0x1F7Fint), (0x1FB5int, 0x1FB5int), (0x1FC5int, 0x1FC5int), (0x1FD4int, 0x1FD5int)]
}

pub open spec fn other_chunk_30() -> Seq<SRange> {
    seq![(0x1FDCint, 0x1FDCint), (0x1FF0int, 0x1FF1int), (0x1FF5int, 0x1FF5int), (0x1FFFint, 0x1FFFint), (0x200Bint, 0x200Fint), (0x202Aint, 0x202Eint), (0x2060int, 0x206Fint), (0x2072int, 0x2073int)]
}

pub open spec fn other_chunk_31() -> Seq<SRange> {
    seq![(0x208Fint, 0x208Fint), (0x209Dint, 0x209Fint), (0x20C1int, 0x20CFint), (0x20F1int, 0x20FFint), (0x218Cint, 0x218Fint), (0x242Aint, 0x243Fint), (0x244Bint, 0x245Fint), (0x2B74int, 0x2B75int)]
}

pub open spec fn other_chunk_32() -> Seq<SRange> {
    seq![(0x2B96int, 0x2B96int), (0x2CF4int, 0x2CF8int), (0x2D26int, 0x2D26int), (0x2D28int, 0x2D2Cint), (0x2D2Eint, 0x2D2Fint), (0x2D68int, 0x2D6Eint), (0x2D71int, 0x2D7Eint), (0x2D97int, 0x2D9Fint)]
}

pub open spec fn other_chunk_33() -> Seq<SRange> {
    seq![(0x2DA7int, 0x2DA7int), (0x2DAFint, 0x2DAFint), (0x2DB7int, 0x2DB7int), (0x2DBFint, 0x2DBFint), (0x2DC7int, 0x2DC7int), (0x2DCFint, 0x2DCFint), (0x2DD7int, 0x2DD7int), (0x2DDFint, 0x2DDFint)]
}

pub open spec fn other_chunk_34() -> Seq<SRange> {
    seq![(0x2E5Eint, 0x2E7Fint), (0x2E9Aint, 0x2E9Aint), (0x2EF4int, 0x2EFFint), (0x2FD6int, 0x2FEFint), (0x3040int, 0x3040int), (0x3097int, 0x3098int), (0x3100int, 0x3104int), (0x3130int, 0x3130int)]
}

pub open spec fn other_chunk_35() -> Seq<SRange> {
    seq![(0x318Fint, 0x318Fint), (0x31E6int, 0x31EEint), (0x321Fint, 0x321Fint), (0xA48Dint, 0xA48Fint), (0xA4C7int, 0xA4CFint), (0xA62Cint, 0xA63Fint), (0xA6F8int, 0xA6FFint), (0xA7CEint, 0xA7CFint)]
}

pub open spec fn other_chunk_36() -> Seq<SRange> {
    seq![(0xA7D2int, 0xA7D2int), (0xA7D4int, 0xA7D4int), (0xA7DDint, 0xA7F1int), (0xA82Dint, 0xA82Fint), (0xA83Aint, 0xA83Fint), (0xA878int, 0xA87Fint), (0xA8C6int, 0xA8CDint), (0xA8DAint, 0xA8DFint)]
}

pub open spec fn other_chunk_37() -> Seq<SRange> {
    seq![(0xA954int, 0xA95Eint), (0xA97Dint, 0xA97Fint), (0xA9CEint, 0xA9CEint), (0xA9DAint, 0xA9DDint), (0xA9FFint, 0xA9FFint), (0xAA37int, 0xAA3Fint), (0xAA4Eint, 0xAA4Fint), (0xAA5Aint, 0xAA5Bint)]
}

pub open spec fn other_chunk_38() -> Seq<SRange> {
    seq![(0xAAC3int, 0xAADAint), (0xAAF7int, 0xAB00int), (0xAB07int, 0xAB08int), (0xAB0Fint, 0xAB10int), (0xAB17int, 0xAB1Fint), (0xAB27int, 0xAB27int), (0xAB2Fint, 0xAB2Fint), (0xAB6Cint, 0xAB6Fint)]
}

pub open spec fn other_chunk_39() -> Seq<SRange> {
    seq![(0xABEEint, 0xABEFint), (0xABFAint, 0xABFFint), (0xD7A4int, 0xD7AFint), (0xD7C7int, 0xD7CAint), (0xD7FCint, 0xF8FFint), (0xFA6Eint, 0xFA6Fint), (0xFADAint, 0xFAFFint), (0xFB07int, 0xFB12int)]
}

pub open spec fn other_chunk_40() -> Seq<SRange> {
    seq![(0xFB18int, 0xFB1Cint), (0xFB37int, 0xFB37int), (0xFB3Dint, 0xFB3Dint), (0xFB3Fint, 0xFB3Fint), (0xFB42int, 0xFB42int), (0xFB45int, 0xFB45int), (0xFBC3int, 0xFBD2int), (0xFD90int, 0xFD91int)]
}

pub open spec fn other_chunk_41() -> Seq<SRange> {
    seq![(0xFDC8int, 0xFDCEint), (0xFDD0int, 0xFDEFint), (0xFE1Aint, 0xFE1Fint), (0xFE53int, 0xFE53int), (0xFE67int, 0xFE67int), (0xFE6Cint, 0xFE6Fint), (0xFE75int, 0xFE75int), (0xFEFDint, 0xFF00int)]
}

pub open spec fn other_chunk_42() -> Seq<SRange> {
    seq![(0xFFBFint, 0xFFC1int), (0xFFC8int, 0xFFC9int), (0xFFD0int, 0xFFD1int), (0xFFD8int, 0xFFD9int), (0xFFDDint, 0xFFDFint), (0xFFE7int, 0xFFE7int), (0xFFEFint, 0xFFFBint), (0xFFFEint, 0xFFFFint)]
}

pub open spec fn other_chunk_43() -> Seq<SRange> {
    seq![(0x1000Cint, 0x1000Cint), (0x10027int, 0x10027int), (0x1003Bint, 0x1003Bint), (0x1003Eint, 0x1003Eint), (0x1004Eint, 0x1004Fint), (0x1005Eint, 0x1007Fint), (0x100FBint, 0x100FFint), (0x10103int, 0x10106int)]
}

pub open spec fn other_chunk_44() -> Seq<SRange> {
    seq![(0x10134int, 0x10136int), (0x1018Fint, 0x1018Fint), (0x1019Dint, 0x1019Fint), (0x101A1int, 0x101CFint), (0x101FEint, 0x1027Fint), (0x1029Dint, 0x1029Fint), (0x102D1int, 0x102DFint), (0x102FCint, 0x102FFint)]
}

pub open spec fn other_chunk_45() -> Seq<SRange> {
    seq![(0x10324int, 0x1032Cint), (0x1034Bint, 0x1034Fint), (0x1037Bint, 0x1037Fint), (0x1039Eint, 0x1039Eint), (0x103C4int, 0x103C7int), (0x103D6int, 0x103FFint), (0x1049Eint, 0x1049Fint), (0x104AAint, 0x104AFint)]
}

pub open spec fn other_chunk_46() -> Seq<SRange> {
    seq![(0x104D4int, 0x104D7int), (0x104FCint, 0x104FFint), (0x10528int, 0x1052Fint), (0x10564int, 0x1056Eint), (0x1057Bint, 0x1057Bint), (0x1058Bint, 0x1058Bint), (0x10593int, 0x10593int), (0x10596int, 0x10596int)]
}

pub open spec fn other_chunk_47() -> Seq<SRange> {
    seq![(0x105A2int, 0x105A2int), (0x105B2int, 0x105B2int), (0x105BAint, 0x105BAint), (0x105BDint, 0x105BFint), (0x105F4int, 0x105FFint), (0x10737int, 0x1073Fint), (0x10756int, 0x1075Fint), (0x10768int, 0x1077Fint)]
}

pub open spec fn other_chunk_48() -> Seq<SRange> {
    seq![(0x10786int, 0x10786int), (0x107B1int, 0x107B1int), (0x107BBint, 0x107FFint), (0x10806int, 0x10807int), (0x10809int, 0x10809int), (0x10836int, 0x10836int), (0x10839int, 0x1083Bint), (0x1083Dint, 0x1083Eint)]
}

pub open spec fn other_chunk_49() -> Seq<SRange> {
    seq![(0x10856int, 0x10856int), (0x1089Fint, 0x108A6int), (0x108B0int, 0x108DFint), (0x108F3int, 0x108F3int), (0x108F6int, 0x108FAint), (0x1091Cint, 0x1091Eint), (0x1093Aint, 0x1093Eint), (0x10940int, 0x1097Fint)]
}

pub open spec fn other_chunk_50() -> Seq<SRange> {
    seq![(0x109B8int, 0x109BBint), (0x109D0int, 0x109D1int), (0x10A04int, 0x10A04int), (0x10A07int, 0x10A0Bint), (0x10A14int, 0x10A14int), (0x10A18int, 0x10A18int), (0x10A36int, 0x10A37int), (0x10A3Bint, 0x10A3Eint)]
}

pub open spec fn other_chunk_51() -> Seq<SRange> {
    seq![(0x10A49int, 0x10A4Fint), (0x10A59int, 0x10A5Fint), (0x10AA0int, 0x10ABFint), (0x10AE7int, 0x10AEAint), (0x10AF7int, 0x10AFFint), (0x10B36int, 0x10B38int), (0x10B56int, 0x10B57int), (0x10B73int, 0x10B77int)]
}

pub open spec fn other_chunk_52() -> Seq<SRange> {
    seq![(0x10B92int, 0x10B98int), (0x10B9Dint, 0x10BA8int), (0x10BB0int, 0x10BFFint), (0x10C49int, 0x10C7Fint), (0x10CB3int, 0x10CBFint), (0x10CF3int, 0x10CF9int), (0x10D28int, 0x10D2Fint), (0x10D3Aint, 0x10D3Fint)]
}

pub open spec fn other_chunk_53() -> Seq<SRange> {
    seq![(0x10D66int, 0x10D68int), (0x10D86int, 0x10D8Dint), (0x10D90int, 0x10E5Fint), (0x10E7Fint, 0x10E7Fint), (0x10EAAint, 0x10EAAint), (0x10EAEint, 0x10EAFint), (0x10EB2int, 0x10EC1int), (0x10EC5int, 0x10EFBint)]
}

pub open spec fn other_chunk_54() -> Seq<SRange> {
    seq![(0x10F28int, 0x10F2Fint), (0x10F5Aint, 0x10F6Fint), (0x10F8Aint, 0x10FAFint), (0x10FCCint, 0x10FDFint), (0x10FF7int, 0x10FFFint), (0x1104Eint, 0x11051int), (0x11076int, 0x1107Eint), (0x110BDint, 0x110BDint)]
}

pub open spec fn other_chunk_55() -> Seq<SRange> {
    seq![(0x110C3int, 0x110CFint), (0x110E9int, 0x110EFint), (0x110FAint, 0x110FFint), (0x11135int, 0x11135int), (0x11148int, 0x1114Fint), (0x11177int, 0x1117Fint), (0x111E0int, 0x111E0int), (0x111F5int, 0x111FFint)]
}

pub open spec fn other_chunk_56() -> Seq<SRange> {
    seq![(0x11212int, 0x11212int), (0x11242int, 0x1127Fint), (0x11287int, 0x11287int), (0x11289int, 0x11289int), (0x1128Eint, 0x1128Eint), (0x1129Eint, 0x1129Eint), (0x112AAint, 0x112AFint), (0x112EBint, 0x112EFint)]
}

pub open spec fn other_chunk_57() -> Seq<SRange> {
    seq![(0x112FAint, 0x112FFint), (0x11304int, 0x11304int), (0x1130Dint, 0x1130Eint), (0x11311int, 0x11312int), (0x11329int, 0x11329int), (0x11331int, 0x11331int), (0x11334int, 0x11334int), (0x1133Aint, 0x1133Aint)]
}

pub open spec fn other_chunk_58() -> Seq<SRange> {
    seq![(0x11345int, 0x11346int), (0x11349int, 0x1134Aint), (0x1134Eint, 0x1134Fint), (0x11351int, 0x11356int), (0x11358int, 0x1135Cint), (0x11364int, 0x11365int), (0x1136Dint, 0x1136Fint), (0x11375int, 0x1137Fint)]
}

pub open spec fn other_chunk_59() -> Seq<SRange> {
    seq![(0x1138Aint, 0x1138Aint), (0x1138Cint, 0x1138Dint), (0x1138Fint, 0x1138Fint), (0x113B6int, 0x113B6int), (0x113C1int, 0x113C1int), (0x113C3int, 0x113C4int), (0x113C6int, 0x113C6int), (0x113CBint, 0x113CBint)]
}

pub open spec fn other_chunk_60() -> Seq<SRange> {
    seq![(0x113D6int, 0x113D6int), (0x113D9int, 0x113E0int), (0x113E3int, 0x113FFint), (0x1145Cint, 0x1145Cint), (0x11462int, 0x1147Fint), (0x114C8int, 0x114CFint), (0x114DAint, 0x1157Fint), (0x115B6int, 0x115B7int)]
}

pub open spec fn other_chunk_61() -> Seq<SRange> {
    seq![(0x115DEint, 0x115FFint), (0x11645int, 0x1164Fint), (0x1165Aint, 0x1165Fint), (0x1166Dint, 0x1167Fint), (0x116BAint, 0x116BFint), (0x116CAint, 0x116CFint), (0x116E4int, 0x116FFint), (0x1171Bint, 0x1171Cint)]
}

pub open spec fn other_chunk_62() -> Seq<SRange> {
    seq![(0x1172Cint, 0x1172Fint), (0x11747int, 0x117FFint), (0x1183Cint, 0x1189Fint), (0x118F3int, 0x118FEint), (0x11907int, 0x11908int), (0x1190Aint, 0x1190Bint), (0x11914int, 0x11914int), (0x11917int, 0x11917int)]
}

pub open spec fn other_chunk_63() -> Seq<SRange> {
    seq![(0x11936int, 0x11936int), (0x11939int, 0x1193Aint), (0x11947int, 0x1194Fint), (0x1195Aint, 0x1199Fint), (0x119A8int, 0x119A9int), (0x119D8int, 0x119D9int), (0x119E5int, 0x119FFint), (0x11A48int, 0x11A4Fint)]
}

pub open spec fn other_chunk_64() -> Seq<SRange> {
    seq![(0x11AA3int, 0x11AAFint), (0x11AF9int, 0x11AFFint), (0x11B0Aint, 0x11BBFint), (0x11BE2int, 0x11BEFint), (0x11BFAint, 0x11BFFint), (0x11C09int, 0x11C09int), (0x11C37int, 0x11C37int), (0x11C46int, 0x11C4Fint)]
}

pub open spec fn other_chunk_65() -> Seq<SRange> {
    seq![(0x11C6Dint, 0x11C6Fint), (0x11C90int, 0x11C91int), (0x11CA8int, 0x11CA8int), (0x11CB7int, 0x11CFFint), (0x11D07int, 0x11D07int), (0x11D0Aint, 0x11D0Aint), (0x11D37int, 0x11D39int), (0x11D3Bint, 0x11D3Bint)]
}

pub open spec fn other_chunk_66() -> Seq<SRange> {
    seq![(0x11D3Eint, 0x11D3Eint), (0x11D48int, 0x11D4Fint), (0x11D5Aint, 0x11D5Fint), (0x11D66int, 0x11D66int), (0x11D69int, 0x11D69int), (0x11D8Fint, 0x11D8Fint), (0x11D92int, 0x11D92int), (0x11D99int, 0x11D9Fint)]
}

pub open spec fn other_chunk_67() -> Seq<SRange> {
    seq![(0x11DAAint, 0x11EDFint), (0x11EF9int, 0x11EFFint), (0x11F11int, 0x11F11int), (0x11F3Bint, 0x11F3Dint), (0x11F5Bint, 0x11FAFint), (0x11FB1int, 0x11FBFint), (0x11FF2int, 0x11FFEint), (0x1239Aint, 0x123FFint)]
}

pub open spec fn other_chunk_68() -> Seq<SRange> {
    seq![(0x1246Fint, 0x1246Fint), (0x12475int, 0x1247Fint), (0x12544int, 0x12F8Fint), (0x12FF3int, 0x12FFFint), (0x13430int, 0x1343Fint), (0x13456int, 0x1345Fint), (0x143FBint, 0x143FFint), (0x14647int, 0x160FFint)]
}

pub open spec fn other_chunk_69() -> Seq<SRange> {
    seq![(0x1613Aint, 0x167FFint), (0x16A39int, 0x16A3Fint), (0x16A5Fint, 0x16A5Fint), (0x16A6Aint, 0x16A6Dint), (0x16ABFint, 0x16ABFint), (0x16ACAint, 0x16ACFint), (0x16AEEint, 0x16AEFint), (0x16AF6int, 0x16AFFint)]
}

pub open spec fn other_chunk_70() -> Seq<SRange> {
    seq![(0x16B46int, 0x16B4Fint), (0x16B5Aint, 0x16B5Aint), (0x16B62int, 0x16B62int), (0x16B78int, 0x16B7Cint), (0x16B90int, 0x16D3Fint), (0x16D7Aint, 0x16E3Fint), (0x16E9Bint, 0x16EFFint), (0x16F4Bint, 0x16F4Eint)]
}

pub open spec fn other_chunk_71() -> Seq<SRange> {
    seq![(0x16F88int, 0x16F8Eint), (0x16FA0int, 0x16FDFint), (0x16FE5int, 0x16FEFint), (0x16FF2int, 0x16FFFint), (0x187F8int, 0x187FFint), (0x18CD6int, 0x18CFEint), (0x18D09int, 0x1AFEFint), (0x1AFF4int, 0x1AFF4int)]
}

pub open spec fn other_chunk_72() -> Seq<SRange> {
    seq![(0x1AFFCint, 0x1AFFCint), (0x1AFFFint, 0x1AFFFint), (0x1B123int, 0x1B131int), (0x1B133int, 0x1B14Fint), (0x1B153int, 0x1B154int), (0x1B156int, 0x1B163int), (0x1B168int, 0x1B16Fint), (0x1B2FCint, 0x1BBFFint)]
}

pub open spec fn other_chunk_73() -> Seq<SRange> {
    seq![(0x1BC6Bint, 0x1BC6Fint), (0x1BC7Dint, 0x1BC7Fint), (0x1BC89int, 0x1BC8Fint), (0x1BC9Aint, 0x1BC9Bint), (0x1BCA0int, 0x1CBFFint), (0x1CCFAint, 0x1CCFFint), (0x1CEB4int, 0x1CEFFint), (0x1CF2Eint, 0x1CF2Fint)]
}

pub open spec fn other_chunk_74() -> Seq<SRange> {
    seq![(0x1CF47int, 0x1CF4Fint), (0x1CFC4int, 0x1CFFFint), (0x1D0F6int, 0x1D0FFint), (0x1D127int, 0x1D128int), (0x1D173int, 0x1D17Aint), (0x1D1EBint, 0x1D1FFint), (0x1D246int, 0x1D2BFint), (0x1D2D4int, 0x1D2DFint)]
}

pub open spec fn other_chunk_75() -> Seq<SRange> {
    seq![(0x1D2F4int, 0x1D2FFint), (0x1D357int, 0x1D35Fint), (0x1D379int, 0x1D3FFint), (0x1D455int, 0x1D455int), (0x1D49Dint, 0x1D49Dint), (0x1D4A0int, 0x1D4A1int), (0x1D4A3int, 0x1D4A4int), (0x1D4A7int, 0x1D4A8int)]
}

pub open spec fn other_chunk_76() -> Seq<SRange> {
    seq![(0x1D4ADint, 0x1D4ADint), (0x1D4BAint, 0x1D4BAint), (0x1D4BCint, 0x1D4BCint), (0x1D4C4int, 0x1D4C4int), (0x1D506int, 0x1D506int), (0x1D50Bint, 0x1D50Cint), (0x1D515int, 0x1D515int), (0x1D51Dint, 0x1D51Dint)]
}

pub open spec fn other_chunk_77() -> Seq<SRange> {
    seq![(0x1D53Aint, 0x1D53Aint), (0x1D53Fint, 0x1D53Fint), (0x1D545int, 0x1D545int), (0x1D547int, 0x1D549int), (0x1D551int, 0x1D551int), (0x1D6A6int, 0x1D6A7int), (0x1D7CCint, 0x1D7CDint), (0x1DA8Cint, 0x1DA9Aint)]
}

pub open spec fn other_chunk_78() -> Seq<SRange> {
    seq![(0x1DAA0int, 0x1DAA0int), (0x1DAB0int, 0x1DEFFint), (0x1DF1Fint, 0x1DF24int), (0x1DF2Bint, 0x1DFFFint), (0x1E007int, 0x1E007int), (0x1E019int, 0x1E01Aint), (0x1E022int, 0x1E022int), (0x1E025int, 0x1E025int)]
}

pub open spec fn other_chunk_79() -> Seq<SRange> {
    seq![(0x1E02Bint, 0x1E02Fint), (0x1E06Eint, 0x1E08Eint), (0x1E090int, 0x1E0FFint), (0x1E12Dint, 0x1E12Fint), (0x1E13Eint, 0x1E13Fint), (0x1E14Aint, 0x1E14Dint), (0x1E150int, 0x1E28Fint), (0x1E2AFint, 0x1E2BFint)]
}

pub open spec fn other_chunk_80() -> Seq<SRange> {
    seq![(0x1E2FAint, 0x1E2FEint), (0x1E300int, 0x1E4CFint), (0x1E4FAint, 0x1E5CFint), (0x1E5FBint, 0x1E5FEint), (0x1E600int, 0x1E7DFint), (0x1E7E7int, 0x1E7E7int), (0x1E7ECint, 0x1E7ECint), (0x1E7EFint, 0x1E7EFint)]
}

pub open spec fn other_chunk_81() -> Seq<SRange> {
    seq![(0x1E7FFint, 0x1E7FFint), (0x1E8C5int, 0x1E8C6int), (0x1E8D7int, 0x1E8FFint), (0x1E94Cint, 0x1E94Fint), (0x1E95Aint, 0x1E95Dint), (0x1E960int, 0x1EC70int), (0x1ECB5int, 0x1ED00int), (0x1ED3Eint, 0x1EDFFint)]
}

pub open spec fn other_chunk_82() -> Seq<SRange> {
    seq![(0x1EE04int, 0x1EE04int), (0x1EE20int, 0x1EE20int), (0x1EE23int, 0x1EE23int), (0x1EE25int, 0x1EE26int), (0x1EE28int, 0x1EE28int), (0x1EE33int, 0x1EE33int), (0x1EE38int, 0x1EE38int), (0x1EE3Aint, 0x1EE3Aint)]
}

pub open spec fn other_chunk_83() -> Seq<SRange> {
    seq![(0x1EE3Cint, 0x1EE41int), (0x1EE43int, 0x1EE46int), (0x1EE48int, 0x1EE48int), (0x1EE4Aint, 0x1EE4Aint), (0x1EE4Cint, 0x1EE4Cint), (0x1EE50int, 0x1EE50int), (0x1EE53int, 0x1EE53int), (0x1EE55int, 0x1EE56int)]
}

pub open spec fn other_chunk_84() -> Seq<SRange> {
    seq![(0x1EE58int, 0x1EE58int), (0x1EE5Aint, 0x1EE5Aint), (0x1EE5Cint, 0x1EE5Cint), (0x1EE5Eint, 0x1EE5Eint), (0x1EE60int, 0x1EE60int), (0x1EE63int, 0x1EE63int), (0x1EE65int, 0x1EE66int), (0x1EE6Bint, 0x1EE6Bint)]
}

pub open spec fn other_chunk_85() -> Seq<SRange> {
    seq![(0x1EE73int, 0x1EE73int), (0x1EE78int, 0x1EE78int), (0x1EE7Dint, 0x1EE7Dint), (0x1EE7Fint, 0x1EE7Fint), (0x1EE8Aint, 0x1EE8Aint), (0x1EE9Cint, 0x1EEA0int), (0x1EEA4int, 0x1EEA4int), (0x1EEAAint, 0x1EEAAint)]
}

pub open spec fn other_chunk_86() -> Seq<SRange> {
    seq![(0x1EEBCint, 0x1EEEFint), (0x1EEF2int, 0x1EFFFint), (0x1F02Cint, 0x1F02Fint), (0x1F094int, 0x1F09Fint), (0x1F0AFint, 0x1F0B0int), (0x1F0C0int, 0x1F0C0int), (0x1F0D0int, 0x1F0D0int), (0x1F0F6int, 0x1F0FFint)]
}

pub open spec fn other_chunk_87() -> Seq<SRange> {
    seq![(0x1F1AEint, 0x1F1E5int), (0x1F203int, 0x1F20Fint), (0x1F23Cint, 0x1F23Fint), (0x1F249int, 0x1F24Fint), (0x1F252int, 0x1F25Fint), (0x1F266int, 0x1F2FFint), (0x1F6D8int, 0x1F6DBint), (0x1F6EDint, 0x1F6EFint)]
}

pub open spec fn other_chunk_88() -> Seq<SRange> {
    seq![(0x1F6FDint, 0x1F6FFint), (0x1F777int, 0x1F77Aint), (0x1F7DAint, 0x1F7DFint), (0x1F7ECint, 0x1F7EFint), (0x1F7F1int, 0x1F7FFint), (0x1F80Cint, 0x1F80Fint), (0x1F848int, 0x1F84Fint), (0x1F85Aint, 0x1F85Fint)]
}

pub open spec fn other_chunk_89() -> Seq<SRange> {
    seq![(0x1F888int, 0x1F88Fint), (0x1F8AEint, 0x1F8AFint), (0x1F8BCint, 0x1F8BFint), (0x1F8C2int, 0x1F8FFint), (0x1FA54int, 0x1FA5Fint), (0x1FA6Eint, 0x1FA6Fint), (0x1FA7Dint, 0x1FA7Fint), (0x1FA8Aint, 0x1FA8Eint)]
}

pub open spec fn other_chunk_90() -> Seq<SRange> {
    seq![(0x1FAC7int, 0x1FACDint), (0x1FADDint, 0x1FADEint), (0x1FAEAint, 0x1FAEFint), (0x1FAF9int, 0x1FAFFint), (0x1FB93int, 0x1FB93int), (0x1FBFAint, 0x1FFFFint), (0x2A6E0int, 0x2A6FFint), (0x2B73Aint, 0x2B73Fint)]
}

pub open spec fn other_chunk_91() -> Seq<SRange> {
    seq![(0x2B81Eint, 0x2B81Fint), (0x2CEA2int, 0x2CEAFint), (0x2EBE1int, 0x2EBEFint), (0x2EE5Eint, 0x2F7FFint), (0x2FA1Eint, 0x2FFFFint), (0x3134Bint, 0x3134Fint), (0x323B0int, 0xE00FFint), (0xE01F0int, 0x10FFFFint)]
}

pub open spec fn other_block_0() -> Seq<SRange> {
    other_chunk_0() + other_chunk_1() + other_chunk_2() + other_chunk_3() + other_chunk_4() + other_chunk_5() + other_chunk_6() + other_chunk_7() + other_chunk_8() + other_chunk_9()
}

pub open spec fn other_block_1() -> Seq<SRange> {
    other_chunk_10() + other_chunk_11() + other_chunk_12() + other_chunk_13() + other_chunk_14() + other_chunk_15() + other_chunk_16() + other_chunk_17() + other_chunk_18() + other_chunk_19()
}

pub open spec fn other_block_2() -> Seq<SRange> {
    other_chunk_20() + other_chunk_21() + other_chunk_22() + other_chunk_23() + other_chunk_24() + other_chunk_25() + other_chunk_26() + other_chunk_27() + other_chunk_28() + other_chunk_29()
}

pub open spec fn other_block_3() -> Seq<SRange> {
    other_chunk_30() + other_chunk_31() + other_chunk_32() + other_chunk_33() + other_chunk_34() + other_chunk_35() + other_chunk_36() + other_chunk_37() + other_chunk_38() + other_chunk_39()
}

pub open spec fn other_block_4() -> Seq<SRange> {
    other_chunk_40() + other_chunk_41() + other_chunk_42() + other_chunk_43() + other_chunk_44() + other_chunk_45() + other_chunk_46() + other_chunk_47() + other_chunk_48() + other_chunk_49()
}

pub open spec fn other_block_5() -> Seq<SRange> {
    other_chunk_50() + other_chunk_51() + other_chunk_52() + other_chunk_53() + other_chunk_54() + other_chunk_55() + other_chunk_56() + other_chunk_57() + other_chunk_58() + other_chunk_59()
}

pub open spec fn other_block_6() -> Seq<SRange> {
    other_chunk_60() + other_chunk_61() + other_chunk_62() + other_chunk_63() + other_chunk_64() + other_chunk_65() + other_chunk_66() + other_chunk_67() + other_chunk_68() + other_chunk_69()
}

pub open spec fn other_block_7() -> Seq<SRange> {
    other_chunk_70() + other_chunk_71() + other_chunk_72() + other_chunk_73() + other_chunk_74() + other_chunk_75() + other_chunk_76() + other_chunk_77() + other_chunk_78() + other_chunk_79()
}

pub open spec fn other_block_8() -> Seq<SRange> {
    other_chunk_80() + other_chunk_81() + other_chunk_82() + other_chunk_83() + other_chunk_84() + other_chunk_85() + other_chunk_86() + other_chunk_87() + other_chunk_88() + other_chunk_89()
}

pub open spec fn other_block_9() -> Seq<SRange> {
    other_chunk_90() + other_chunk_91()
}

/// The ranges of the general category Other.
pub open spec fn other_ranges() -> Seq<SRange> {
    other_block_0() + other_block_1() + other_block_2() + other_block_3() + other_block_4() + other_block_5() + other_block_6() + other_block_7() + other_block_8() + other_block_9()
}

proof fn lemma_other_block_0()
    ensures
        canonical(other_block_0()),
        other_block_0().len() > 0,
        other_block_0()[0] == other_chunk_0()[0],
        other_block_0().last() == other_chunk_9().last(),
{
    reveal_with_fuel(canonical, 9);
    assert(canonical(other_chunk_0()));
    assert(canonical(other_chunk_1()));
    assert(canonical(other_chunk_2()));
    assert(canonical(other_chunk_3()));
    assert(canonical(other_chunk_4()));
    assert(canonical(other_chunk_5()));
    assert(canonical(other_chunk_6()));
    assert(canonical(other_chunk_7()));
    assert(canonical(other_chunk_8()));
    assert(canonical(other_chunk_9()));
    lemma_canonical_append(other_chunk_0(), other_chunk_1());
    lemma_canonical_append(other_chunk_0() + other_chunk_1(), other_chunk_2());
    lemma_canonical_append(other_chunk_0() + other_chunk_1() + other_chunk_2(), other_chunk_3());
    lemma_canonical_append(other_chunk_0() + other_chunk_1() + other_chunk_2() + other_chunk_3(), other_chunk_4());
    lemma_canonical_append(other_chunk_0() + other_chunk_1() + other_chunk_2() + other_chunk_3() + other_chunk_4(), other_chunk_5());
    lemma_canonical_append(other_chunk_0() + other_chunk_1() + other_chunk_2() + other_chunk_3() + other_chunk_4() + other_chunk_5(), other_chunk_6());
    lemma_canonical_append(other_chunk_0() + other_chunk_1() + other_chunk_2() + other_chunk_3() + other_chunk_4() + other_chunk_5() + other_chunk_6(), other_chunk_7());
    lemma_canonical_append(other_chunk_0() + other_chunk_1() + other_chunk_2() + other_chunk_3() + other_chunk_4() + other_chunk_5() + other_chunk_6() + other_chunk_7(), other_chunk_8());
    lemma_canonical_append(other_chunk_0() + other_chunk_1() + other_chunk_2() + other_chunk_3() + other_chunk_4() + other_chunk_5() + other_chunk_6() + other_chunk_7() + other_chunk_8(), other_chunk_9());
}

proof fn lemma_other_block_1()
    ensures
        canonical(other_block_1()),
        other_block_1().len() > 0,
        other_block_1()[0] == other_chunk_10()[0],
        other_block_1().last() == other_chunk_19().last(),
{
    reveal_with_fuel(canonical, 9);
    assert(canonical(other_chunk_10()));
    assert(canonical(other_chunk_11()));
    assert(canonical(other_chunk_12()));
    assert(canonical(other_chunk_13()));
    assert(canonical(other_chunk_14()));
    assert(canonical(other_chunk_15()));
    assert(canonical(other_chunk_16()));
    assert(canonical(other_chunk_17()));
    assert(canonical(other_chunk_18()));
    assert(canonical(other_chunk_19()));
    lemma_canonical_append(other_chunk_10(), other_chunk_11());
    lemma_canonical_append(other_chunk_10() + other_chunk_11(), other_chunk_12());
    lemma_canonical_append(other_chunk_10() + other_chunk_11() + other_chunk_12(), other_chunk_13());
    lemma_canonical_append(other_chunk_10() + other_chunk_11() + other_chunk_12() + other_chunk_13(), other_chunk_14());
    lemma_canonical_append(other_chunk_10() + other_chunk_11() + other_chunk_12() + other_chunk_13() + other_chunk_14(), other_chunk_15());
    lemma_canonical_append(other_chunk_10() + other_chunk_11() + other_chunk_12() + other_chunk_13() + other_chunk_14() + other_chunk_15(), other_chunk_16());
    lemma_canonical_append(other_chunk_10() + other_chunk_11() + other_chunk_12() + other_chunk_13() + other_chunk_14() + other_chunk_15() + other_chunk_16(), other_chunk_17());
    lemma_canonical_append(other_chunk_10() + other_chunk_11() + other_chunk_12() + other_chunk_13() + other_chunk_14() + other_chunk_15() + other_chunk_16() + other_chunk_17(), other_chunk_18());
    lemma_canonical_append(other_chunk_10() + other_chunk_11() + other_chunk_12() + other_chunk_13() + other_chunk_14() + other_chunk_15() + other_chunk_16() + other_chunk_17() + other_chunk_18(), other_chunk_19());
}

proof fn lemma_other_block_2()
    ensures
        canonical(other_block_2()),
        other_block_2().len() > 0,
        other_block_2()[0] == other_chunk_20()[0],
        other_block_2().last() == other_chunk_29().last(),
{
    reveal_with_fuel(canonical, 9);
    assert(canonical(other_chunk_20()));
    assert(canonical(other_chunk_21()));
    assert(canonical(other_chunk_22()));
    assert(canonical(other_chunk_23()));
    assert(canonical(other_chunk_24()));
    assert(canonical(other_chunk_25()));
    assert(canonical(other_chunk_26()));
    assert(canonical(other_chunk_27()));
    assert(canonical(other_chunk_28()));
    assert(canonical(other_chunk_29()));
    lemma_canonical_append(other_chunk_20(), other_chunk_21());
    lemma_canonical_append(other_chunk_20() + other_chunk_21(), other_chunk_22());
    lemma_canonical_append(other_chunk_20() + other_chunk_21() + other_chunk_22(), other_chunk_23());
    lemma_canonical_append(other_chunk_20() + other_chunk_21() + other_chunk_22() + other_chunk_23(), other_chunk_24());
    lemma_canonical_append(other_chunk_20() + other_chunk_21() + other_chunk_22() + other_chunk_23() + other_chunk_24(), other_chunk_25());
    lemma_canonical_append(other_chunk_20() + other_chunk_21() + other_chunk_22() + other_chunk_23() + other_chunk_24() + other_chunk_25(), other_chunk_26());
    lemma_canonical_append(other_chunk_20() + other_chunk_21() + other_chunk_22() + other_chunk_23() + other_chunk_24() + other_chunk_25() + other_chunk_26(), other_chunk_27());
    lemma_canonical_append(other_chunk_20() + other_chunk_21() + other_chunk_22() + other_chunk_23() + other_chunk_24() + other_chunk_25() + other_chunk_26() + other_chunk_27(), other_chunk_28());
    lemma_canonical_append(other_chunk_20() + other_chunk_21() + other_chunk_22() + other_chunk_23() + other_chunk_24() + other_chunk_25() + other_chunk_26() + other_chunk_27() + other_chunk_28(), other_chunk_29());
}

proof fn lemma_other_block_3()
    ensures
        canonical(other_block_3()),
        other_block_3().len() > 0,
        other_block_3()[0] == other_chunk_30()[0],
        other_block_3().last() == other_chunk_39().last(),
{
    reveal_with_fuel(canonical, 9);
    assert(canonical(other_chunk_30()));
    assert(canonical(other_chunk_31()));
    assert(canonical(other_chunk_32()));
    assert(canonical(other_chunk_33()));
    assert(canonical(other_chunk_34()));
    assert(canonical(other_chunk_35()));
    assert(canonical(other_chunk_36()));
    assert(canonical(other_chunk_37()));
    assert(canonical(other_chunk_38()));
    assert(canonical(other_chunk_39()));
    lemma_canonical_append(other_chunk_30(), other_chunk_31());
    lemma_canonical_append(other_chunk_30() + other_chunk_31(), other_chunk_32());
    lemma_canonical_append(other_chunk_30() + other_chunk_31() + other_chunk_32(), other_chunk_33());
    lemma_canonical_append(other_chunk_30() + other_chunk_31() + other_chunk_32() + other_chunk_33(), other_chunk_34());
    lemma_canonical_append(other_chunk_30() + other_chunk_31() + other_chunk_32() + other_chunk_33() + other_chunk_34(), other_chunk_35());
    lemma_canonical_append(other_chunk_30() + other_chunk_31() + other_chunk_32() + other_chunk_33() + other_chunk_34() + other_chunk_35(), other_chunk_36());
    lemma_canonical_append(other_chunk_30() + other_chunk_31() + other_chunk_32() + other_chunk_33() + other_chunk_34() + other_chunk_35() + other_chunk_36(), other_chunk_37());
    lemma_canonical_append(other_chunk_30() + other_chunk_31() + other_chunk_32() + other_chunk_33() + other_chunk_34() + other_chunk_35() + other_chunk_36() + other_chunk_37(), other_chunk_38());
    lemma_canonical_append(other_chunk_30() + other_chunk_31() + other_chunk_32() + other_chunk_33() + other_chunk_34() + other_chunk_35() + other_chunk_36() + other_chunk_37() + other_chunk_38(), other_chunk_39());
}

proof fn lemma_other_block_4()
    ensures
        canonical(other_block_4()),
        other_block_4().len() > 0,
        other_block_4()[0] == other_chunk_40()[0],
        other_block_4().last() == other_chunk_49().last(),
{
    reveal_with_fuel(canonical, 9);
    assert(canonical(other_chunk_40()));
    assert(canonical(other_chunk_41()));
    assert(canonical(other_chunk_42()));
    assert(canonical(other_chunk_43()));
    assert(canonical(other_chunk_44()));
    assert(canonical(other_chunk_45()));
    assert(canonical(other_chunk_46()));
    assert(canonical(other_chunk_47()));
    assert(canonical(other_chunk_48()));
    assert(canonical(other_chunk_49()));
    lemma_canonical_append(other_chunk_40(), other_chunk_41());
    lemma_canonical_append(other_chunk_40() + other_chunk_41(), other_chunk_42());
    lemma_canonical_append(other_chunk_40() + other_chunk_41() + other_chunk_42(), other_chunk_43());
    lemma_canonical_append(other_chunk_40() + other_chunk_41() + other_chunk_42() + other_chunk_43(), other_chunk_44());
    lemma_canonical_append(other_chunk_40() + other_chunk_41() + other_chunk_42() + other_chunk_43() + other_chunk_44(), other_chunk_45());
    lemma_canonical_append(other_chunk_40() + other_chunk_41() + other_chunk_42() + other_chunk_43() + other_chunk_44() + other_chunk_45(), other_chunk_46());
    lemma_canonical_append(other_chunk_40() + other_chunk_41() + other_chunk_42() + other_chunk_43() + other_chunk_44() + other_chunk_45() + other_chunk_46(), other_chunk_47());
    lemma_canonical_append(other_chunk_40() + other_chunk_41() + other_chunk_42() + other_chunk_43() + other_chunk_44() + other_chunk_45() + other_chunk_46() + other_chunk_47(), other_chunk_48());
    lemma_canonical_append(other_chunk_40() + other_chunk_41() + other_chunk_42() + other_chunk_43() + other_chunk_44() + other_chunk_45() + other_chunk_46() + other_chunk_47() + other_chunk_48(), other_chunk_49());
}

proof fn lemma_other_block_5()
    ensures
        canonical(other_block_5()),
        other_block_5().len() > 0,
        other_block_5()[0] == other_chunk_50()[0],
        other_block_5().last() == other_chunk_59().last(),
{
    reveal_with_fuel(canonical, 9);
    assert(canonical(other_chunk_50()));
    assert(canonical(other_chunk_51()));
    assert(canonical(other_chunk_52()));
    assert(canonical(other_chunk_53()));
    assert(canonical(other_chunk_54()));
    assert(canonical(other_chunk_55()));
    assert(canonical(other_chunk_56()));
    assert(canonical(other_chunk_57()));
    assert(canonical(other_chunk_58()));
    assert(canonical(other_chunk_59()));
    lemma_canonical_append(other_chunk_50(), other_chunk_51());
    lemma_canonical_append(other_chunk_50() + other_chunk_51(), other_chunk_52());
    lemma_canonical_append(other_chunk_50() + other_chunk_51() + other_chunk_52(), other_chunk_53());
    lemma_canonical_append(other_chunk_50() + other_chunk_51() + other_chunk_52() + other_chunk_53(), other_chunk_54());
    lemma_canonical_append(other_chunk_50() + other_chunk_51() + other_chunk_52() + other_chunk_53() + other_chunk_54(), other_chunk_55());
    lemma_canonical_append(other_chunk_50() + other_chunk_51() + other_chunk_52() + other_chunk_53() + other_chunk_54() + other_chunk_55(), other_chunk_56());
    lemma_canonical_append(other_chunk_50() + other_chunk_51() + other_chunk_52() + other_chunk_53() + other_chunk_54() + other_chunk_55() + other_chunk_56(), other_chunk_57());
    lemma_canonical_append(other_chunk_50() + other_chunk_51() + other_chunk_52() + other_chunk_53() + other_chunk_54() + other_chunk_55() + other_chunk_56() + other_chunk_57(), other_chunk_58());
    lemma_canonical_append(other_chunk_50() + other_chunk_51() + other_chunk_52() + other_chunk_53() + other_chunk_54() + other_chunk_55() + other_chunk_56() + other_chunk_57() + other_chunk_58(), other_chunk_59());
}

proof fn lemma_other_block_6()
    ensures
        canonical(other_block_6()),
        other_block_6().len() > 0,
        other_block_6()[0] == other_chunk_60()[0],
        other_block_6().last() == other_chunk_69().last(),
{
    reveal_with_fuel(canonical, 9);
    assert(canonical(other_chunk_60()));
    assert(canonical(other_chunk_61()));
    assert(canonical(other_chunk_62()));
    assert(canonical(other_chunk_63()));
    assert(canonical(other_chunk_64()));
    assert(canonical(other_chunk_65()));
    assert(canonical(other_chunk_66()));
    assert(canonical(other_chunk_67()));
    assert(canonical(other_chunk_68()));
    assert(canonical(other_chunk_69()));
    lemma_canonical_append(other_chunk_60(), other_chunk_61());
    lemma_canonical_append(other_chunk_60() + other_chunk_61(), other_chunk_62());
    lemma_canonical_append(other_chunk_60() + other_chunk_61() + other_chunk_62(), other_chunk_63());
    lemma_canonical_append(other_chunk_60() + other_chunk_61() + other_chunk_62() + other_chunk_63(), other_chunk_64());
    lemma_canonical_append(other_chunk_60() + other_chunk_61() + other_chunk_62() + other_chunk_63() + other_chunk_64(), other_chunk_65());
    lemma_canonical_append(other_chunk_60() + other_chunk_61() + other_chunk_62() + other_chunk_63() + other_chunk_64() + other_chunk_65(), other_chunk_66());
    lemma_canonical_append(other_chunk_60() + other_chunk_61() + other_chunk_62() + other_chunk_63() + other_chunk_64() + other_chunk_65() + other_chunk_66(), other_chunk_67());
    lemma_canonical_append(other_chunk_60() + other_chunk_61() + other_chunk_62() + other_chunk_63() + other_chunk_64() + other_chunk_65() + other_chunk_66() + other_chunk_67(), other_chunk_68());
    lemma_canonical_append(other_chunk_60() + other_chunk_61() + other_chunk_62() + other_chunk_63() + other_chunk_64() + other_chunk_65() + other_chunk_66() + other_chunk_67() + other_chunk_68(), other_chunk_69());
}

proof fn lemma_other_block_7()
    ensures
        canonical(other_block_7()),
        other_block_7().len() > 0,
        other_block_7()[0] == other_chunk_70()[0],
        other_block_7().last() == other_chunk_79().last(),
{
    reveal_with_fuel(canonical, 9);
    assert(canonical(other_chunk_70()));
    assert(canonical(other_chunk_71()));
    assert(canonical(other_chunk_72()));
    assert(canonical(other_chunk_73()));
    assert(canonical(other_chunk_74()));
    assert(canonical(other_chunk_75()));
    assert(canonical(other_chunk_76()));
    assert(canonical(other_chunk_77()));
    assert(canonical(other_chunk_78()));
    assert(canonical(other_chunk_79()));
    lemma_canonical_append(other_chunk_70(), other_chunk_71());
    lemma_canonical_append(other_chunk_70() + other_chunk_71(), other_chunk_72());
    lemma_canonical_append(other_chunk_70() + other_chunk_71() + other_chunk_72(), other_chunk_73());
    lemma_canonical_append(other_chunk_70() + other_chunk_71() + other_chunk_72() + other_chunk_73(), other_chunk_74());
    lemma_canonical_append(other_chunk_70() + other_chunk_71() + other_chunk_72() + other_chunk_73() + other_chunk_74(), other_chunk_75());
    lemma_canonical_append(other_chunk_70() + other_chunk_71() + other_chunk_72() + other_chunk_73() + other_chunk_74() + other_chunk_75(), other_chunk_76());
    lemma_canonical_append(other_chunk_70() + other_chunk_71() + other_chunk_72() + other_chunk_73() + other_chunk_74() + other_chunk_75() + other_chunk_76(), other_chunk_77());
    lemma_canonical_append(other_chunk_70() + other_chunk_71() + other_chunk_72() + other_chunk_73() + other_chunk_74() + other_chunk_75() + other_chunk_76() + other_chunk_77(), other_chunk_78());
    lemma_canonical_append(other_chunk_70() + other_chunk_71() + other_chunk_72() + other_chunk_73() + other_chunk_74() + other_chunk_75() + other_chunk_76() + other_chunk_77() + other_chunk_78(), other_chunk_79());
}

proof fn lemma_other_block_8()
    ensures
        canonical(other_block_8()),
        other_block_8().len() > 0,
        other_block_8()[0] == other_chunk_80()[0],
        other_block_8().last() == other_chunk_89().last(),
{
    reveal_with_fuel(canonical, 9);
    assert(canonical(other_chunk_80()));
    assert(canonical(other_chunk_81()));
    assert(canonical(other_chunk_82()));
    assert(canonical(other_chunk_83()));
    assert(canonical(other_chunk_84()));
    assert(canonical(other_chunk_85()));
    assert(canonical(other_chunk_86()));
    assert(canonical(other_chunk_87()));
    assert(canonical(other_chunk_88()));
    assert(canonical(other_chunk_89()));
    lemma_canonical_append(other_chunk_80(), other_chunk_81());
    lemma_canonical_append(other_chunk_80() + other_chunk_81(), other_chunk_82());
    lemma_canonical_append(other_chunk_80() + other_chunk_81() + other_chunk_82(), other_chunk_83());
    lemma_canonical_append(other_chunk_80() + other_chunk_81() + other_chunk_82() + other_chunk_83(), other_chunk_84());
    lemma_canonical_append(other_chunk_80() + other_chunk_81() + other_chunk_82() + other_chunk_83() + other_chunk_84(), other_chunk_85());
    lemma_canonical_append(other_chunk_80() + other_chunk_81() + other_chunk_82() + other_chunk_83() + other_chunk_84() + other_chunk_85(), other_chunk_86());
    lemma_canonical_append(other_chunk_80() + other_chunk_81() + other_chunk_82() + other_chunk_83() + other_chunk_84() + other_chunk_85() + other_chunk_86(), other_chunk_87());
    lemma_canonical_append(other_chunk_80() + other_chunk_81() + other_chunk_82() + other_chunk_83() + other_chunk_84() + other_chunk_85() + other_chunk_86() + other_chunk_87(), other_chunk_88());
    lemma_canonical_append(other_chunk_80() + other_chunk_81() + other_chunk_82() + other_chunk_83() + other_chunk_84() + other_chunk_85() + other_chunk_86() + other_chunk_87() + other_chunk_88(), other_chunk_89());
}

proof fn lemma_other_block_9()
    ensures
        canonical(other_block_9()),
        other_block_9().len() > 0,
        other_block_9()[0] == other_chunk_90()[0],
        other_block_9().last() == other_chunk_91().last(),
{
    reveal_with_fuel(canonical, 9);
    assert(canonical(other_chunk_90()));
    assert(canonical(other_chunk_91()));
    lemma_canonical_append(other_chunk_90(), other_chunk_91());
}

/// The general category Other is a canonical class.
pub proof fn lemma_other_canonical()
    ensures
        canonical(other_ranges()),
{
    lemma_other_block_0();
    lemma_other_block_1();
    lemma_other_block_2();
    lemma_other_block_3();
    lemma_other_block_4();
    lemma_other_block_5();
    lemma_other_block_6();
    lemma_other_block_7();
    lemma_other_block_8();
    lemma_other_block_9();
    lemma_canonical_append(other_block_0(), other_block_1());
    lemma_canonical_append(other_block_0() + other_block_1(), other_block_2());
    lemma_canonical_append(other_block_0() + other_block_1() + other_block_2(), other_block_3());
    lemma_canonical_append(other_block_0() + other_block_1() + other_block_2() + other_block_3(), other_block_4());
    lemma_canonical_append(other_block_0() + other_block_1() + other_block_2() + other_block_3() + other_block_4(), other_block_5());
    lemma_canonical_append(other_block_0() + other_block_1() + other_block_2() + other_block_3() + other_block_4() + other_block_5(), other_block_6());
    lemma_canonical_append(other_block_0() + other_block_1() + other_block_2() + other_block_3() + other_block_4() + other_block_5() + other_block_6(), other_block_7());
    lemma_canonical_append(other_block_0() + other_block_1() + other_block_2() + other_block_3() + other_block_4() + other_block_5() + other_block_6() + other_block_7(), other_block_8());
    lemma_canonical_append(other_block_0() + other_block_1() + other_block_2() + other_block_3() + other_block_4() + other_block_5() + other_block_6() + other_block_7() + other_block_8(), other_block_9());
}

fn push_other_chunk_0(v: &mut Vec<ClassUnicodeRange>)
    ensures
        rview(final(v)@) == rview(old(v)@) + other_chunk_0(),
{
    let ghost o = rview(v@);
    push_range(v, '\u{0}', '\u{1F}');
    push_range(v, '\u{7F}', '\u{9F}');
    push_range(v, '\u{AD}', '\u{AD}');
    push_range(v, '\u{378}', '\u{379}');
    push_range(v, '\u{380}', '\u{383}');
    push_range(v, '\u{38B}', '\u{38B}');
    push_range(v, '\u{38D}', '\u{38D}');
    push_range(v, '\u{3A2}', '\u{3A2}');
    assert(rview(v@) =~= o + other_chunk_0());
}

fn push_other_chunk_1(v: &mut Vec<ClassUnicodeRange>)
    ensures
        rview(final(v)@) == rview(old(v)@) + other_chunk_1(),
{
    let ghost o = rview(v@);
    push_range(v, '\u{530}', '\u{530}');
    push_range(v, '\u{557}', '\u{558}');
    push_range(v, '\u{58B}', '\u{58C}');
    push_range(v, '\u{590}', '\u{590}');
    push_range(v, '\u{5C8}', '\u{5CF}');
    push_range(v, '\u{5EB}', '\u{5EE}');
    push_range(v, '\u{5F5}', '\u{605}');
    push_range(v, '\u{61C}', '\u{61C}');
    assert(rview(v@) =~= o + other_chunk_1());
}

fn push_other_chunk_2(v: &mut Vec<ClassUnicodeRange>)
    ensures
        rview(final(v)@) == rview(old(v)@) + other_chunk_2(),
{
    let ghost o = rview(v@);
    push_range(v, '\u{6DD}', '\u{6DD}');
    push_range(v, '\u{70E}', '\u{70F}');
    push_range(v, '\u{74B}', '\u{74C}');
    push_range(v, '\u{7B2}', '\u{7BF}');
    push_range(v, '\u{7FB}', '\u{7FC}');
    push_range(v, '\u{82E}', '\u{82F}');
    push_range(v, '\u{83F}', '\u{83F}');
    push_range(v, '\u{85C}', '\u{85D}');
    assert(rview(v@) =~= o + other_chunk_2());
}

fn push_other_chunk_3(v: &mut Vec<ClassUnicodeRange>)
    ensures
        rview(final(v)@) == rview(old(v)@) + other_chunk_3(),
{
    let ghost o = rview(v@);
    push_range(v, '\u{85F}', '\u{85F}');
    push_range(v, '\u{86B}', '\u{86F}');
    push_range(v, '\u{88F}', '\u{896}');
    push_range(v, '\u{8E2}', '\u{8E2}');
    push_range(v, '\u{984}', '\u{984}');
    push_range(v, '\u{98D}', '\u{98E}');
    push_range(v, '\u{991}', '\u{992}');
    push_range(v, '\u{9A9}', '\u{9A9}');
    assert(rview(v@) =~= o + other_chunk_3());
}

fn push_other_chunk_4(v: &mut Vec<ClassUnicodeRange>)
    ensures
        rview(final(v)@) == rview(old(v)@) + other_chunk_4(),
{
    let ghost o = rview(v@);
    push_range(v, '\u{9B1}', '\u{9B1}');
    push_range(v, '\u{9B3}', '\u{9B5}');
    push_range(v, '\u{9BA}', '\u{9BB}');
    push_range(v, '\u{9C5}', '\u{9C6}');
    push_range(v, '\u{9C9}', '\u{9CA}');
    push_range(v, '\u{9CF}', '\u{9D6}');
    push_range(v, '\u{9D8}', '\u{9DB}');
    push_range(v, '\u{9DE}', '\u{9DE}');
    assert(rview(v@) =~= o + other_chunk_4());
}

fn push_other_chunk_5(v: &mut Vec<ClassUnicodeRange>)
    ensures
        rview(final(v)@) == rview(old(v)@) + other_chunk_5(),
{
    let ghost o = rview(v@);
    push_range(v, '\u{9E4}', '\u{9E5}');
    push_range(v, '\u{9FF}', '\u{A00}');
    push_range(v, '\u{A04}', '\u{A04}');
    push_range(v, '\u{A0B}', '\u{A0E}');
    push_range(v, '\u{A11}', '\u{A12}');
    push_range(v, '\u{A29}', '\u{A29}');
    push_range(v, '\u{A31}', '\u{A31}');
    push_range(v, '\u{A34}', '\u{A34}');
    assert(rview(v@) =~= o + other_chunk_5());
}

fn push_other_chunk_6(v: &mut Vec<ClassUnicodeRange>)
    ensures
        rview(final(v)@) == rview(old(v)@) + other_chunk_6(),
{
    let ghost o = rview(v@);
    push_range(v, '\u{A37}', '\u{A37}');
    push_range(v, '\u{A3A}', '\u{A3B}');
    push_range(v, '\u{A3D}', '\u{A3D}');
    push_range(v, '\u{A43}', '\u{A46}');
    push_range(v, '\u{A49}', '\u{A4A}');
    push_range(v, '\u{A4E}', '\u{A50}');
    push_range(v, '\u{A52}', '\u{A58}');
    push_range(v, '\u{A5D}', '\u{A5D}');
    assert(rview(v@) =~= o + other_chunk_6());
}

fn push_other_chunk_7(v: &mut Vec<ClassUnicodeRange>)
    ensures
        rview(final(v)@) == rview(old(v)@) + other_chunk_7(),
{
    let ghost o = rview(v@);
    push_range(v, '\u{A5F}', '\u{A65}');
    push_range(v, '\u{A77}', '\u{A80}');
    push_range(v, '\u{A84}', '\u{A84}');
    push_range(v, '\u{A8E}', '\u{A8E}');
    push_range(v, '\u{A92}', '\u{A92}');
    push_range(v, '\u{AA9}', '\u{AA9}');
    push_range(v, '\u{AB1}', '\u{AB1}');
    push_range(v, '\u{AB4}', '\u{AB4}');
    assert(rview(v@) =~= o + other_chunk_7());
}

fn push_other_chunk_8(v: &mut Vec<ClassUnicodeRange>)
    ensures
        rview(final(v)@) == rview(old(v)@) + other_chunk_8(),
{
    let ghost o = rview(v@);
    push_range(v, '\u{ABA}', '\u{ABB}');
    push_range(v, '\u{AC6}', '\u{AC6}');
    push_range(v, '\u{ACA}', '\u{ACA}');
    push_range(v, '\u{ACE}', '\u{ACF}');
    push_range(v, '\u{AD1}', '\u{ADF}');
    push_range(v, '\u{AE4}', '\u{AE5}');
    push_range(v, '\u{AF2}', '\u{AF8}');
    push_range(v, '\u{B00}', '\u{B00}');
    assert(rview(v@) =~= o + other_chunk_8());
}

fn push_other_chunk_9(v: &mut Vec<ClassUnicodeRange>)
    ensures
        rview(final(v)@) == rview(old(v)@) + other_chunk_9(),
{
    let ghost o = rview(v@);
    push_range(v, '\u{B04}', '\u{B04}');
    push_range(v, '\u{B0D}', '\u{B0E}');
    push_range(v, '\u{B11}', '\u{B12}');
    push_range(v, '\u{B29}', '\u{B29}');
    push_range(v, '\u{B31}', '\u{B31}');
    push_range(v, '\u{B34}', '\u{B34}');
    push_range(v, '\u{B3A}', '\u{B3B}');
    push_range(v, '\u{B45}', '\u{B46}');
    assert(rview(v@) =~= o + other_chunk_9());
}

fn push_other_chunk_10(v: &mut Vec<ClassUnicodeRange>)
    ensures
        rview(final(v)@) == rview(old(v)@) + other_chunk_10(),
{
    let ghost o = rview(v@);
    push_range(v, '\u{B49}', '\u{B4A}');
    push_range(v, '\u{B4E}', '\u{B54}');
    push_range(v, '\u{B58}', '\u{B5B}');
    push_range(v, '\u{B5E}', '\u{B5E}');
    push_range(v, '\u{B64}', '\u{B65}');
    push_range(v, '\u{B78}', '\u{B81}');
    push_range(v, '\u{B84}', '\u{B84}');
    push_range(v, '\u{B8B}', '\u{B8D}');
    assert(rview(v@) =~= o + other_chunk_10());
}

fn push_other_chunk_11(v: &mut Vec<ClassUnicodeRange>)
    ensures
        rview(final(v)@) == rview(old(v)@) + other_chunk_11(),
{
    let ghost o = rview(v@);
    push_range(v, '\u{B91}', '\u{B91}');
    push_range(v, '\u{B96}', '\u{B98}');
    push_range(v, '\u{B9B}', '\u{B9B}');
    push_range(v, '\u{B9D}', '\u{B9D}');
    push_range(v, '\u{BA0}', '\u{BA2}');
    push_range(v, '\u{BA5}', '\u{BA7}');
    push_range(v, '\u{BAB}', '\u{BAD}');
    push_range(v, '\u{BBA}', '\u{BBD}');
    assert(rview(v@) =~= o + other_chunk_11());
}

fn push_other_chunk_12(v: &mut Vec<ClassUnicodeRange>)
    ensures
        rview(final(v)@) == rview(old(v)@) + other_chunk_12(),
{
    let ghost o = rview(v@);
    push_range(v, '\u{BC3}', '\u{BC5}');
    push_range(v, '\u{BC9}', '\u{BC9}');
    push_range(v, '\u{BCE}', '\u{BCF}');
    push_range(v, '\u{BD1}', '\u{BD6}');
    push_range(v, '\u{BD8}', '\u{BE5}');
    push_range(v, '\u{BFB}', '\u{BFF}');
    push_range(v, '\u{C0D}', '\u{C0D}');
    push_range(v, '\u{C11}', '\u{C11}');
    assert(rview(v@) =~= o + other_chunk_12());
}

fn push_other_chunk_13(v: &mut Vec<ClassUnicodeRange>)
    ensures
        rview(final(v)@) == rview(old(v)@) + other_chunk_13(),
{
    let ghost o = rview(v@);
    push_range(v, '\u{C29}', '\u{C29}');
    push_range(v, '\u{C3A}', '\u{C3B}');
    push_range(v, '\u{C45}', '\u{C45}');
    push_range(v, '\u{C49}', '\u{C49}');
    push_range(v, '\u{C4E}', '\u{C54}');
    push_range(v, '\u{C57}', '\u{C57}');
    push_range(v, '\u{C5B}', '\u{C5C}');
    push_range(v, '\u{C5E}', '\u{C5F}');
    assert(rview(v@) =~= o + other_chunk_13());
}

fn push_other_chunk_14(v: &mut Vec<ClassUnicodeRange>)
    ensures
        rview(final(v)@) == rview(old(v)@) + other_chunk_14(),
{
    let ghost o = rview(v@);
    push_range(v, '\u{C64}', '\u{C65}');
    push_range(v, '\u{C70}', '\u{C76}');
    push_range(v, '\u{C8D}', '\u{C8D}');
    push_range(v, '\u{C91}', '\u{C91}');
    push_range(v, '\u{CA9}', '\u{CA9}');
    push_range(v, '\u{CB4}', '\u{CB4}');
    push_range(v, '\u{CBA}', '\u{CBB}');
    push_range(v, '\u{CC5}', '\u{CC5}');
    assert(rview(v@) =~= o + other_chunk_14());
}

fn push_other_chunk_15(v: &mut Vec<ClassUnicodeRange>)
    ensures
        rview(final(v)@) == rview(old(v)@) + other_chunk_15(),
{
    let ghost o = rview(v@);
    push_range(v, '\u{CC9}', '\u{CC9}');
    push_range(v, '\u{CCE}', '\u{CD4}');
    push_range(v, '\u{CD7}', '\u{CDC}');
    push_range(v, '\u{CDF}', '\u{CDF}');
    push_range(v, '\u{CE4}', '\u{CE5}');
    push_range(v, '\u{CF0}', '\u{CF0}');
    push_range(v, '\u{CF4}', '\u{CFF}');
    push_range(v, '\u{D0D}', '\u{D0D}');
    assert(rview(v@) =~= o + other_chunk_15());
}

fn push_other_chunk_16(v: &mut Vec<ClassUnicodeRange>)
    ensures
        rview(final(v)@) == rview(old(v)@) + other_chunk_16(),
{
    let ghost o = rview(v@);
    push_range(v, '\u{D11}', '\u{D11}');
    push_range(v, '\u{D45}', '\u{D45}');
    push_range(v, '\u{D49}', '\u{D49}');
    push_range(v, '\u{D50}', '\u{D53}');
    push_range(v, '\u{D64}', '\u{D65}');
    push_range(v, '\u{D80}', '\u{D80}');
    push_range(v, '\u{D84}', '\u{D84}');
    push_range(v, '\u{D97}', '\u{D99}');
    assert(rview(v@) =~= o + other_chunk_16());
}

fn push_other_chunk_17(v: &mut Vec<ClassUnicodeRange>)
    ensures
        rview(final(v)@) == rview(old(v)@) + other_chunk_17(),
{
    let ghost o = rview(v@);
    push_range(v, '\u{DB2}', '\u{DB2}');
    push_range(v, '\u{DBC}', '\u{DBC}');
    push_range(v, '\u{DBE}', '\u{DBF}');
    push_range(v, '\u{DC7}', '\u{DC9}');
    push_range(v, '\u{DCB}', '\u{DCE}');
    push_range(v, '\u{DD5}', '\u{DD5}');
    push_range(v, '\u{DD7}', '\u{DD7}');
    push_range(v, '\u{DE0}', '\u{DE5}');
    assert(rview(v@) =~= o + other_chunk_17());
}

fn push_other_chunk_18(v: &mut Vec<ClassUnicodeRange>)
    ensures
        rview(final(v)@) == rview(old(v)@) + other_chunk_18(),
{
    let ghost o = rview(v@);
    push_range(v, '\u{DF0}', '\u{DF1}');
    push_range(v, '\u{DF5}', '\u{E00}');
    push_range(v, '\u{E3B}', '\u{E3E}');
    push_range(v, '\u{E5C}', '\u{E80}');
    push_range(v, '\u{E83}', '\u{E83}');
    push_range(v, '\u{E85}', '\u{E85}');
    push_range(v, '\u{E8B}', '\u{E8B}');
    push_range(v, '\u{EA4}', '\u{EA4}');
    assert(rview(v@) =~= o + other_chunk_18());
}

fn push_other_chunk_19(v: &mut Vec<ClassUnicodeRange>)
    ensures
        rview(final(v)@) == rview(old(v)@) + other_chunk_19(),
{
    let ghost o = rview(v@);
    push_range(v, '\u{EA6}', '\u{EA6}');
    push_range(v, '\u{EBE}', '\u{EBF}');
    push_range(v, '\u{EC5}', '\u{EC5}');
    push_range(v, '\u{EC7}', '\u{EC7}');
    push_range(v, '\u{ECF}', '\u{ECF}');
    push_range(v, '\u{EDA}', '\u{EDB}');
    push_range(v, '\u{EE0}', '\u{EFF}');
    push_range(v, '\u{F48}', '\u{F48}');
    assert(rview(v@) =~= o + other_chunk_19());
}

fn push_other_chunk_20(v: &mut Vec<ClassUnicodeRange>)
    ensures
        rview(final(v)@) == rview(old(v)@) + other_chunk_20(),
{
    let ghost o = rview(v@);
    push_range(v, '\u{F6D}', '\u{F70}');
    push_range(v, '\u{F98}', '\u{F98}');
    push_range(v, '\u{FBD}', '\u{FBD}');
    push_range(v, '\u{FCD}', '\u{FCD}');
    push_range(v, '\u{FDB}', '\u{FFF}');
    push_range(v, '\u{10C6}', '\u{10C6}');
    push_range(v, '\u{10C8}', '\u{10CC}');
    push_range(v, '\u{10CE}', '\u{10CF}');
    assert(rview(v@) =~= o + other_chunk_20());
}

fn push_other_chunk_21(v: &mut Vec<ClassUnicodeRange>)
    ensures
        rview(final(v)@) == rview(old(v)@) + other_chunk_21(),
{
    let ghost o = rview(v@);
    push_range(v, '\u{1249}', '\u{1249}');
    push_range(v, '\u{124E}', '\u{124F}');
    push_range(v, '\u{1257}', '\u{1257}');
    push_range(v, '\u{1259}', '\u{1259}');
    push_range(v, '\u{125E}', '\u{125F}');
    push_range(v, '\u{1289}', '\u{1289}');
    push_range(v, '\u{128E}', '\u{128F}');
    push_range(v, '\u{12B1}', '\u{12B1}');
    assert(rview(v@) =~= o + other_chunk_21());
}

fn push_other_chunk_22(v: &mut Vec<ClassUnicodeRange>)
    ensures
        rview(final(v)@) == rview(old(v)@) + other_chunk_22(),
{
    let ghost o = rview(v@);
    push_range(v, '\u{12B6}', '\u{12B7}');
    push_range(v, '\u{12BF}', '\u{12BF}');
    push_range(v, '\u{12C1}', '\u{12C1}');
    push_range(v, '\u{12C6}', '\u{12C7}');
    push_range(v, '\u{12D7}', '\u{12D7}');
    push_range(v, '\u{1311}', '\u{1311}');
    push_range(v, '\u{1316}', '\u{1317}');
    push_range(v, '\u{135B}', '\u{135C}');
    assert(rview(v@) =~= o + other_chunk_22());
}

fn push_other_chunk_23(v: &mut Vec<ClassUnicodeRange>)
    ensures
        rview(final(v)@) == rview(old(v)@) + other_chunk_23(),
{
    let ghost o = rview(v@);
    push_range(v, '\u{137D}', '\u{137F}');
    push_range(v, '\u{139A}', '\u{139F}');
    push_range(v, '\u{13F6}', '\u{13F7}');
    push_range(v, '\u{13FE}', '\u{13FF}');
    push_range(v, '\u{169D}', '\u{169F}');
    push_range(v, '\u{16F9}', '\u{16FF}');
    push_range(v, '\u{1716}', '\u{171E}');
    push_range(v, '\u{1737}', '\u{173F}');
    assert(rview(v@) =~= o + other_chunk_23());
}

fn push_other_chunk_24(v: &mut Vec<ClassUnicodeRange>)
    ensures
        rview(final(v)@) == rview(old(v)@) + other_chunk_24(),
{
    let ghost o = rview(v@);
    push_range(v, '\u{1754}', '\u{175F}');
    push_range(v, '\u{176D}', '\u{176D}');
    push_range(v, '\u{1771}', '\u{1771}');
    push_range(v, '\u{1774}', '\u{177F}');
    push_range(v, '\u{17DE}', '\u{17DF}');
    push_range(v, '\u{17EA}', '\u{17EF}');
    push_range(v, '\u{17FA}', '\u{17FF}');
    push_range(v, '\u{180E}', '\u{180E}');
    assert(rview(v@) =~= o + other_chunk_24());
}

fn push_other_chunk_25(v: &mut Vec<ClassUnicodeRange>)
    ensures
        rview(final(v)@) == rview(old(v)@) + other_chunk_25(),
{
    let ghost o = rview(v@);
    push_range(v, '\u{181A}', '\u{181F}');
    push_range(v, '\u{1879}', '\u{187F}');
    push_range(v, '\u{18AB}', '\u{18AF}');
    push_range(v, '\u{18F6}', '\u{18FF}');
    push_range(v, '\u{191F}', '\u{191F}');
    push_range(v, '\u{192C}', '\u{192F}');
    push_range(v, '\u{193C}', '\u{193F}');
    push_range(v, '\u{1941}', '\u{1943}');
    assert(rview(v@) =~= o + other_chunk_25());
}

fn push_other_chunk_26(v: &mut Vec<ClassUnicodeRange>)
    ensures
        rview(final(v)@) == rview(old(v)@) + other_chunk_26(),
{
    let ghost o = rview(v@);
    push_range(v, '\u{196E}', '\u{196F}');
    push_range(v, '\u{1975}', '\u{197F}');
    push_range(v, '\u{19AC}', '\u{19AF}');
    push_range(v, '\u{19CA}', '\u{19CF}');
    push_range(v, '\u{19DB}', '\u{19DD}');
    push_range(v, '\u{1A1C}', '\u{1A1D}');
    push_range(v, '\u{1A5F}', '\u{1A5F}');
    push_range(v, '\u{1A7D}', '\u{1A7E}');
    assert(rview(v@) =~= o + other_chunk_26());
}

fn push_other_chunk_27(v: &mut Vec<ClassUnicodeRange>)
    ensures
        rview(final(v)@) == rview(old(v)@) + other_chunk_27(),
{
    let ghost o = rview(v@);
    push_range(v, '\u{1A8A}', '\u{1A8F}');
    push_range(v, '\u{1A9A}', '\u{1A9F}');
    push_range(v, '\u{1AAE}', '\u{1AAF}');
    push_range(v, '\u{1ACF}', '\u{1AFF}');
    push_range(v, '\u{1B4D}', '\u{1B4D}');
    push_range(v, '\u{1BF4}', '\u{1BFB}');
    push_range(v, '\u{1C38}', '\u{1C3A}');
    push_range(v, '\u{1C4A}', '\u{1C4C}');
    assert(rview(v@) =~= o + other_chunk_27());
}

fn push_other_chunk_28(v: &mut Vec<ClassUnicodeRange>)
    ensures
        rview(final(v)@) == rview(old(v)@) + other_chunk_28(),
{
    let ghost o = rview(v@);
    push_range(v, '\u{1C8B}', '\u{1C8F}');
    push_range(v, '\u{1CBB}', '\u{1CBC}');
    push_range(v, '\u{1CC8}', '\u{1CCF}');
    push_range(v, '\u{1CFB}', '\u{1CFF}');
    push_range(v, '\u{1F16}', '\u{1F17}');
    push_range(v, '\u{1F1E}', '\u{1F1F}');
    push_range(v, '\u{1F46}', '\u{1F47}');
    push_range(v, '\u{1F4E}', '\u{1F4F}');
    assert(rview(v@) =~= o + other_chunk_28());
}

fn push_other_chunk_29(v: &mut Vec<ClassUnicodeRange>)
    ensures
        rview(final(v)@) == rview(old(v)@) + other_chunk_29(),
{
    let ghost o = rview(v@);
    push_range(v, '\u{1F58}', '\u{1F58}');
    push_range(v, '\u{1F5A}', '\u{1F5A}');
    push_range(v, '\u{1F5C}', '\u{1F5C}');
    push_range(v, '\u{1F5E}', '\u{1F5E}');
    push_range(v, '\u{1F7E}', '\u{1F7F}');
    push_range(v, '\u{1FB5}', '\u{1FB5}');
    push_range(v, '\u{1FC5}', '\u{1FC5}');
    push_range(v, '\u{1FD4}', '\u{1FD5}');
    assert(rview(v@) =~= o + other_chunk_29());
}

fn push_other_chunk_30(v: &mut Vec<ClassUnicodeRange>)
    ensures
        rview(final(v)@) == rview(old(v)@) + other_chunk_30(),
{
    let ghost o = rview(v@);
    push_range(v, '\u{1FDC}', '\u{1FDC}');
    push_range(v, '\u{1FF0}', '\u{1FF1}');
    push_range(v, '\u{1FF5}', '\u{1FF5}');
    push_range(v, '\u{1FFF}', '\u{1FFF}');
    push_range(v, '\u{200B}', '\u{200F}');
    push_range(v, '\u{202A}', '\u{202E}');
    push_range(v, '\u{2060}', '\u{206F}');
    push_range(v, '\u{2072}', '\u{2073}');
    assert(rview(v@) =~= o + other_chunk_30());
}

fn push_other_chunk_31(v: &mut Vec<ClassUnicodeRange>)
    ensures
        rview(final(v)@) == rview(old(v)@) + other_chunk_31(),
{
    let ghost o = rview(v@);
    push_range(v, '\u{208F}', '\u{208F}');
    push_range(v, '\u{209D}', '\u{209F}');
    push_range(v, '\u{20C1}', '\u{20CF}');
    push_range(v, '\u{20F1}', '\u{20FF}');
    push_range(v, '\u{218C}', '\u{218F}');
    push_range(v, '\u{242A}', '\u{243F}');
    push_range(v, '\u{244B}', '\u{245F}');
    push_range(v, '\u{2B74}', '\u{2B75}');
    assert(rview(v@) =~= o + other_chunk_31());
}

fn push_other_chunk_32(v: &mut Vec<ClassUnicodeRange>)
    ensures
        rview(final(v)@) == rview(old(v)@) + other_chunk_32(),
{
    let ghost o = rview(v@);
    push_range(v, '\u{2B96}', '\u{2B96}');
    push_range(v, '\u{2CF4}', '\u{2CF8}');
    push_range(v, '\u{2D26}', '\u{2D26}');
    push_range(v, '\u{2D28}', '\u{2D2C}');
    push_range(v, '\u{2D2E}', '\u{2D2F}');
    push_range(v, '\u{2D68}', '\u{2D6E}');
    push_range(v, '\u{2D71}', '\u{2D7E}');
    push_range(v, '\u{2D97}', '\u{2D9F}');
    assert(rview(v@) =~= o + other_chunk_32());
}

fn push_other_chunk_33(v: &mut Vec<ClassUnicodeRange>)
    ensures
        rview(final(v)@) == rview(old(v)@) + other_chunk_33(),
{
    let ghost o = rview(v@);
    push_range(v, '\u{2DA7}', '\u{2DA7}');
    push_range(v, '\u{2DAF}', '\u{2DAF}');
    push_range(v, '\u{2DB7}', '\u{2DB7}');
    push_range(v, '\u{2DBF}', '\u{2DBF}');
    push_range(v, '\u{2DC7}', '\u{2DC7}');
    push_range(v, '\u{2DCF}', '\u{2DCF}');
    push_range(v, '\u{2DD7}', '\u{2DD7}');
    push_range(v, '\u{2DDF}', '\u{2DDF}');
    assert(rview(v@) =~= o + other_chunk_33());
}

fn push_other_chunk_34(v: &mut Vec<ClassUnicodeRange>)
    ensures
        rview(final(v)@) == rview(old(v)@) + other_chunk_34(),
{
    let ghost o = rview(v@);
    push_range(v, '\u{2E5E}', '\u{2E7F}');
    push_range(v, '\u{2E9A}', '\u{2E9A}');
    push_range(v, '\u{2EF4}', '\u{2EFF}');
    push_range(v, '\u{2FD6}', '\u{2FEF}');
    push_range(v, '\u{3040}', '\u{3040}');
    push_range(v, '\u{3097}', '\u{3098}');
    push_range(v, '\u{3100}', '\u{3104}');
    push_range(v, '\u{3130}', '\u{3130}');
    assert(rview(v@) =~= o + other_chunk_34());
}

fn push_other_chunk_35(v: &mut Vec<ClassUnicodeRange>)
    ensures
        rview(final(v)@) == rview(old(v)@) + other_chunk_35(),
{
    let ghost o = rview(v@);
    push_range(v, '\u{318F}', '\u{318F}');
    push_range(v, '\u{31E6}', '\u{31EE}');
    push_range(v, '\u{321F}', '\u{321F}');
    push_range(v, '\u{A48D}', '\u{A48F}');
    push_range(v, '\u{A4C7}', '\u{A4CF}');
    push_range(v, '\u{A62C}', '\u{A63F}');
    push_range(v, '\u{A6F8}', '\u{A6FF}');
    push_range(v, '\u{A7CE}', '\u{A7CF}');
    assert(rview(v@) =~= o + other_chunk_35());
}

fn push_other_chunk_36(v: &mut Vec<ClassUnicodeRange>)
    ensures
        rview(final(v)@) == rview(old(v)@) + other_chunk_36(),
{
    let ghost o = rview(v@);
    push_range(v, '\u{A7D2}', '\u{A7D2}');
    push_range(v, '\u{A7D4}', '\u{A7D4}');
    push_range(v, '\u{A7DD}', '\u{A7F1}');
    push_range(v, '\u{A82D}', '\u{A82F}');
    push_range(v, '\u{A83A}', '\u{A83F}');
    push_range(v, '\u{A878}', '\u{A87F}');
    push_range(v, '\u{A8C6}', '\u{A8CD}');
    push_range(v, '\u{A8DA}', '\u{A8DF}');
    assert(rview(v@) =~= o + other_chunk_36());
}

fn push_other_chunk_37(v: &mut Vec<ClassUnicodeRange>)
    ensures
        rview(final(v)@) == rview(old(v)@) + other_chunk_37(),
{
    let ghost o = rview(v@);
    push_range(v, '\u{A954}', '\u{A95E}');
    push_range(v, '\u{A97D}', '\u{A97F}');
    push_range(v, '\u{A9CE}', '\u{A9CE}');
    push_range(v, '\u{A9DA}', '\u{A9DD}');
    push_range(v, '\u{A9FF}', '\u{A9FF}');
    push_range(v, '\u{AA37}', '\u{AA3F}');
    push_range(v, '\u{AA4E}', '\u{AA4F}');
    push_range(v, '\u{AA5A}', '\u{AA5B}');
    assert(rview(v@) =~= o + other_chunk_37());
}

fn push_other_chunk_38(v: &mut Vec<ClassUnicodeRange>)
    ensures
        rview(final(v)@) == rview(old(v)@) + other_chunk_38(),
{
    let ghost o = rview(v@);
    push_range(v, '\u{AAC3}', '\u{AADA}');
    push_range(v, '\u{AAF7}', '\u{AB00}');
    push_range(v, '\u{AB07}', '\u{AB08}');
    push_range(v, '\u{AB0F}', '\u{AB10}');
    push_range(v, '\u{AB17}', '\u{AB1F}');
    push_range(v, '\u{AB27}', '\u{AB27}');
    push_range(v, '\u{AB2F}', '\u{AB2F}');
    push_range(v, '\u{AB6C}', '\u{AB6F}');
    assert(rview(v@) =~= o + other_chunk_38());
}

fn push_other_chunk_39(v: &mut Vec<ClassUnicodeRange>)
    ensures
        rview(final(v)@) == rview(old(v)@) + other_chunk_39(),
{
    let ghost o = rview(v@);
    push_range(v, '\u{ABEE}', '\u{ABEF}');
    push_range(v, '\u{ABFA}', '\u{ABFF}');
    push_range(v, '\u{D7A4}', '\u{D7AF}');
    push_range(v, '\u{D7C7}', '\u{D7CA}');
    push_range(v, '\u{D7FC}', '\u{F8FF}');
    push_range(v, '\u{FA6E}', '\u{FA6F}');
    push_range(v, '\u{FADA}', '\u{FAFF}');
    push_range(v, '\u{FB07}', '\u{FB12}');
    assert(rview(v@) =~= o + other_chunk_39());
}

fn push_other_chunk_40(v: &mut Vec<ClassUnicodeRange>)
    ensures
        rview(final(v)@) == rview(old(v)@) + other_chunk_40(),
{
    let ghost o = rview(v@);
    push_range(v, '\u{FB18}', '\u{FB1C}');
    push_range(v, '\u{FB37}', '\u{FB37}');
    push_range(v, '\u{FB3D}', '\u{FB3D}');
    push_range(v, '\u{FB3F}', '\u{FB3F}');
    push_range(v, '\u{FB42}', '\u{FB42}');
    push_range(v, '\u{FB45}', '\u{FB45}');
    push_range(v, '\u{FBC3}', '\u{FBD2}');
    push_range(v, '\u{FD90}', '\u{FD91}');
    assert(rview(v@) =~= o + other_chunk_40());
}

fn push_other_chunk_41(v: &mut Vec<ClassUnicodeRange>)
    ensures
        rview(final(v)@) == rview(old(v)@) + other_chunk_41(),
{
    let ghost o = rview(v@);
    push_range(v, '\u{FDC8}', '\u{FDCE}');
    push_range(v, '\u{FDD0}', '\u{FDEF}');
    push_range(v, '\u{FE1A}', '\u{FE1F}');
    push_range(v, '\u{FE53}', '\u{FE53}');
    push_range(v, '\u{FE67}', '\u{FE67}');
    push_range(v, '\u{FE6C}', '\u{FE6F}');
    push_range(v, '\u{FE75}', '\u{FE75}');
    push_range(v, '\u{FEFD}', '\u{FF00}');
    assert(rview(v@) =~= o + other_chunk_41());
}

fn push_other_chunk_42(v: &mut Vec<ClassUnicodeRange>)
    ensures
        rview(final(v)@) == rview(old(v)@) + other_chunk_42(),
{
    let ghost o = rview(v@);
    push_range(v, '\u{FFBF}', '\u{FFC1}');
    push_range(v, '\u{FFC8}', '\u{FFC9}');
    push_range(v, '\u{FFD0}', '\u{FFD1}');
    push_range(v, '\u{FFD8}', '\u{FFD9}');
    push_range(v, '\u{FFDD}', '\u{FFDF}');
    push_range(v, '\u{FFE7}', '\u{FFE7}');
    push_range(v, '\u{FFEF}', '\u{FFFB}');
    push_range(v, '\u{FFFE}', '\u{FFFF}');
    assert(rview(v@) =~= o + other_chunk_42());
}

fn push_other_chunk_43(v: &mut Vec<ClassUnicodeRange>)
    ensures
        rview(final(v)@) == rview(old(v)@) + other_chunk_43(),
{
    let ghost o = rview(v@);
    push_range(v, '\u{1000C}', '\u{1000C}');
    push_range(v, '\u{10027}', '\u{10027}');
    push_range(v, '\u{1003B}', '\u{1003B}');
    push_range(v, '\u{1003E}', '\u{1003E}');
    push_range(v, '\u{1004E}', '\u{1004F}');
    push_range(v, '\u{1005E}', '\u{1007F}');
    push_range(v, '\u{100FB}', '\u{100FF}');
    push_range(v, '\u{10103}', '\u{10106}');
    assert(rview(v@) =~= o + other_chunk_43());
}

fn push_other_chunk_44(v: &mut Vec<ClassUnicodeRange>)
    ensures
        rview(final(v)@) == rview(old(v)@) + other_chunk_44(),
{
    let ghost o = rview(v@);
    push_range(v, '\u{10134}', '\u{10136}');
    push_range(v, '\u{1018F}', '\u{1018F}');
    push_range(v, '\u{1019D}', '\u{1019F}');
    push_range(v, '\u{101A1}', '\u{101CF}');
    push_range(v, '\u{101FE}', '\u{1027F}');
    push_range(v, '\u{1029D}', '\u{1029F}');
    push_range(v, '\u{102D1}', '\u{102DF}');
    push_range(v, '\u{102FC}', '\u{102FF}');
    assert(rview(v@) =~= o + other_chunk_44());
}

fn push_other_chunk_45(v: &mut Vec<ClassUnicodeRange>)
    ensures
        rview(final(v)@) == rview(old(v)@) + other_chunk_45(),
{
    let ghost o = rview(v@);
    push_range(v, '\u{10324}', '\u{1032C}');
    push_range(v, '\u{1034B}', '\u{1034F}');
    push_range(v, '\u{1037B}', '\u{1037F}');
    push_range(v, '\u{1039E}', '\u{1039E}');
    push_range(v, '\u{103C4}', '\u{103C7}');
    push_range(v, '\u{103D6}', '\u{103FF}');
    push_range(v, '\u{1049E}', '\u{1049F}');
    push_range(v, '\u{104AA}', '\u{104AF}');
    assert(rview(v@) =~= o + other_chunk_45());
}

fn push_other_chunk_46(v: &mut Vec<ClassUnicodeRange>)
    ensures
        rview(final(v)@) == rview(old(v)@) + other_chunk_46(),
{
    let ghost o = rview(v@);
    push_range(v, '\u{104D4}', '\u{104D7}');
    push_range(v, '\u{104FC}', '\u{104FF}');
    push_range(v, '\u{10528}', '\u{1052F}');
    push_range(v, '\u{10564}', '\u{1056E}');
    push_range(v, '\u{1057B}', '\u{1057B}');
    push_range(v, '\u{1058B}', '\u{1058B}');
    push_range(v, '\u{10593}', '\u{10593}');
    push_range(v, '\u{10596}', '\u{10596}');
    assert(rview(v@) =~= o + other_chunk_46());
}

fn push_other_chunk_47(v: &mut Vec<ClassUnicodeRange>)
    ensures
        rview(final(v)@) == rview(old(v)@) + other_chunk_47(),
{
    let ghost o = rview(v@);
    push_range(v, '\u{105A2}', '\u{105A2}');
    push_range(v, '\u{105B2}', '\u{105B2}');
    push_range(v, '\u{105BA}', '\u{105BA}');
    push_range(v, '\u{105BD}', '\u{105BF}');
    push_range(v, '\u{105F4}', '\u{105FF}');
    push_range(v, '\u{10737}', '\u{1073F}');
    push_range(v, '\u{10756}', '\u{1075F}');
    push_range(v, '\u{10768}', '\u{1077F}');
    assert(rview(v@) =~= o + other_chunk_47());
}

fn push_other_chunk_48(v: &mut Vec<ClassUnicodeRange>)
    ensures
        rview(final(v)@) == rview(old(v)@) + other_chunk_48(),
{
    let ghost o = rview(v@);
    push_range(v, '\u{10786}', '\u{10786}');
    push_range(v, '\u{107B1}', '\u{107B1}');
    push_range(v, '\u{107BB}', '\u{107FF}');
    push_range(v, '\u{10806}', '\u{10807}');
    push_range(v, '\u{10809}', '\u{10809}');
    push_range(v, '\u{10836}', '\u{10836}');
    push_range(v, '\u{10839}', '\u{1083B}');
    push_range(v, '\u{1083D}', '\u{1083E}');
    assert(rview(v@) =~= o + other_chunk_48());
}

fn push_other_chunk_49(v: &mut Vec<ClassUnicodeRange>)
    ensures
        rview(final(v)@) == rview(old(v)@) + other_chunk_49(),
{
    let ghost o = rview(v@);
    push_range(v, '\u{10856}', '\u{10856}');
    push_range(v, '\u{1089F}', '\u{108A6}');
    push_range(v, '\u{108B0}', '\u{108DF}');
    push_range(v, '\u{108F3}', '\u{108F3}');
    push_range(v, '\u{108F6}', '\u{108FA}');
    push_range(v, '\u{1091C}', '\u{1091E}');
    push_range(v, '\u{1093A}', '\u{1093E}');
    push_range(v, '\u{10940}', '\u{1097F}');
    assert(rview(v@) =~= o + other_chunk_49());
}

fn push_other_chunk_50(v: &mut Vec<ClassUnicodeRange>)
    ensures
        rview(final(v)@) == rview(old(v)@) + other_chunk_50(),
{
    let ghost o = rview(v@);
    push_range(v, '\u{109B8}', '\u{109BB}');
    push_range(v, '\u{109D0}', '\u{109D1}');
    push_range(v, '\u{10A04}', '\u{10A04}');
    push_range(v, '\u{10A07}', '\u{10A0B}');
    push_range(v, '\u{10A14}', '\u{10A14}');
    push_range(v, '\u{10A18}', '\u{10A18}');
    push_range(v, '\u{10A36}', '\u{10A37}');
    push_range(v, '\u{10A3B}', '\u{10A3E}');
    assert(rview(v@) =~= o + other_chunk_50());
}

fn push_other_chunk_51(v: &mut Vec<ClassUnicodeRange>)
    ensures
        rview(final(v)@) == rview(old(v)@) + other_chunk_51(),
{
    let ghost o = rview(v@);
    push_range(v, '\u{10A49}', '\u{10A4F}');
    push_range(v, '\u{10A59}', '\u{10A5F}');
    push_range(v, '\u{10AA0}', '\u{10ABF}');
    push_range(v, '\u{10AE7}', '\u{10AEA}');
    push_range(v, '\u{10AF7}', '\u{10AFF}');
    push_range(v, '\u{10B36}', '\u{10B38}');
    push_range(v, '\u{10B56}', '\u{10B57}');
    push_range(v, '\u{10B73}', '\u{10B77}');
    assert(rview(v@) =~= o + other_chunk_51());
}

fn push_other_chunk_52(v: &mut Vec<ClassUnicodeRange>)
    ensures
        rview(final(v)@) == rview(old(v)@) + other_chunk_52(),
{
    let ghost o = rview(v@);
    push_range(v, '\u{10B92}', '\u{10B98}');
    push_range(v, '\u{10B9D}', '\u{10BA8}');
    push_range(v, '\u{10BB0}', '\u{10BFF}');
    push_range(v, '\u{10C49}', '\u{10C7F}');
    push_range(v, '\u{10CB3}', '\u{10CBF}');
    push_range(v, '\u{10CF3}', '\u{10CF9}');
    push_range(v, '\u{10D28}', '\u{10D2F}');
    push_range(v, '\u{10D3A}', '\u{10D3F}');
    assert(rview(v@) =~= o + other_chunk_52());
}

fn push_other_chunk_53(v: &mut Vec<ClassUnicodeRange>)
    ensures
        rview(final(v)@) == rview(old(v)@) + other_chunk_53(),
{
    let ghost o = rview(v@);
    push_range(v, '\u{10D66}', '\u{10D68}');
    push_range(v, '\u{10D86}', '\u{10D8D}');
    push_range(v, '\u{10D90}', '\u{10E5F}');
    push_range(v, '\u{10E7F}', '\u{10E7F}');
    push_range(v, '\u{10EAA}', '\u{10EAA}');
    push_range(v, '\u{10EAE}', '\u{10EAF}');
    push_range(v, '\u{10EB2}', '\u{10EC1}');
    push_range(v, '\u{10EC5}', '\u{10EFB}');
    assert(rview(v@) =~= o + other_chunk_53());
}

fn push_other_chunk_54(v: &mut Vec<ClassUnicodeRange>)
    ensures
        rview(final(v)@) == rview(old(v)@) + other_chunk_54(),
{
    let ghost o = rview(v@);
    push_range(v, '\u{10F28}', '\u{10F2F}');
    push_range(v, '\u{10F5A}', '\u{10F6F}');
    push_range(v, '\u{10F8A}', '\u{10FAF}');
    push_range(v, '\u{10FCC}', '\u{10FDF}');
    push_range(v, '\u{10FF7}', '\u{10FFF}');
    push_range(v, '\u{1104E}', '\u{11051}');
    push_range(v, '\u{11076}', '\u{1107E}');
    push_range(v, '\u{110BD}', '\u{110BD}');
    assert(rview(v@) =~= o + other_chunk_54());
}

fn push_other_chunk_55(v: &mut Vec<ClassUnicodeRange>)
    ensures
        rview(final(v)@) == rview(old(v)@) + other_chunk_55(),
{
    let ghost o = rview(v@);
    push_range(v, '\u{110C3}', '\u{110CF}');
    push_range(v, '\u{110E9}', '\u{110EF}');
    push_range(v, '\u{110FA}', '\u{110FF}');
    push_range(v, '\u{11135}', '\u{11135}');
    push_range(v, '\u{11148}', '\u{1114F}');
    push_range(v, '\u{11177}', '\u{1117F}');
    push_range(v, '\u{111E0}', '\u{111E0}');
    push_range(v, '\u{111F5}', '\u{111FF}');
    assert(rview(v@) =~= o + other_chunk_55());
}

fn push_other_chunk_56(v: &mut Vec<ClassUnicodeRange>)
    ensures
        rview(final(v)@) == rview(old(v)@) + other_chunk_56(),
{
    let ghost o = rview(v@);
    push_range(v, '\u{11212}', '\u{11212}');
    push_range(v, '\u{11242}', '\u{1127F}');
    push_range(v, '\u{11287}', '\u{11287}');
    push_range(v, '\u{11289}', '\u{11289}');
    push_range(v, '\u{1128E}', '\u{1128E}');
    push_range(v, '\u{1129E}', '\u{1129E}');
    push_range(v, '\u{112AA}', '\u{112AF}');
    push_range(v, '\u{112EB}', '\u{112EF}');
    assert(rview(v@) =~= o + other_chunk_56());
}

fn push_other_chunk_57(v: &mut Vec<ClassUnicodeRange>)
    ensures
        rview(final(v)@) == rview(old(v)@) + other_chunk_57(),
{
    let ghost o = rview(v@);
    push_range(v, '\u{112FA}', '\u{112FF}');
    push_range(v, '\u{11304}', '\u{11304}');
    push_range(v, '\u{1130D}', '\u{1130E}');
    push_range(v, '\u{11311}', '\u{11312}');
    push_range(v, '\u{11329}', '\u{11329}');
    push_range(v, '\u{11331}', '\u{11331}');
    push_range(v, '\u{11334}', '\u{11334}');
    push_range(v, '\u{1133A}', '\u{1133A}');
    assert(rview(v@) =~= o + other_chunk_57());
}

fn push_other_chunk_58(v: &mut Vec<ClassUnicodeRange>)
    ensures
        rview(final(v)@) == rview(old(v)@) + other_chunk_58(),
{
    let ghost o = rview(v@);
    push_range(v, '\u{11345}', '\u{11346}');
    push_range(v, '\u{11349}', '\u{1134A}');
    push_range(v, '\u{1134E}', '\u{1134F}');
    push_range(v, '\u{11351}', '\u{11356}');
    push_range(v, '\u{11358}', '\u{1135C}');
    push_range(v, '\u{11364}', '\u{11365}');
    push_range(v, '\u{1136D}', '\u{1136F}');
    push_range(v, '\u{11375}', '\u{1137F}');
    assert(rview(v@) =~= o + other_chunk_58());
}

fn push_other_chunk_59(v: &mut Vec<ClassUnicodeRange>)
    ensures
        rview(final(v)@) == rview(old(v)@) + other_chunk_59(),
{
    let ghost o = rview(v@);
    push_range(v, '\u{1138A}', '\u{1138A}');
    push_range(v, '\u{1138C}', '\u{1138D}');
    push_range(v, '\u{1138F}', '\u{1138F}');
    push_range(v, '\u{113B6}', '\u{113B6}');
    push_range(v, '\u{113C1}', '\u{113C1}');
    push_range(v, '\u{113C3}', '\u{113C4}');
    push_range(v, '\u{113C6}', '\u{113C6}');
    push_range(v, '\u{113CB}', '\u{113CB}');
    assert(rview(v@) =~= o + other_chunk_59());
}

fn push_other_chunk_60(v: &mut Vec<ClassUnicodeRange>)
    ensures
        rview(final(v)@) == rview(old(v)@) + other_chunk_60(),
{
    let ghost o = rview(v@);
    push_range(v, '\u{113D6}', '\u{113D6}');
    push_range(v, '\u{113D9}', '\u{113E0}');
    push_range(v, '\u{113E3}', '\u{113FF}');
    push_range(v, '\u{1145C}', '\u{1145C}');
    push_range(v, '\u{11462}', '\u{1147F}');
    push_range(v, '\u{114C8}', '\u{114CF}');
    push_range(v, '\u{114DA}', '\u{1157F}');
    push_range(v, '\u{115B6}', '\u{115B7}');
    assert(rview(v@) =~= o + other_chunk_60());
}

fn push_other_chunk_61(v: &mut Vec<ClassUnicodeRange>)
    ensures
        rview(final(v)@) == rview(old(v)@) + other_chunk_61(),
{
    let ghost o = rview(v@);
    push_range(v, '\u{115DE}', '\u{115FF}');
    push_range(v, '\u{11645}', '\u{1164F}');
    push_range(v, '\u{1165A}', '\u{1165F}');
    push_range(v, '\u{1166D}', '\u{1167F}');
    push_range(v, '\u{116BA}', '\u{116BF}');
    push_range(v, '\u{116CA}', '\u{116CF}');
    push_range(v, '\u{116E4}', '\u{116FF}');
    push_range(v, '\u{1171B}', '\u{1171C}');
    assert(rview(v@) =~= o + other_chunk_61());
}

fn push_other_chunk_62(v: &mut Vec<ClassUnicodeRange>)
    ensures
        rview(final(v)@) == rview(old(v)@) + other_chunk_62(),
{
    let ghost o = rview(v@);
    push_range(v, '\u{1172C}', '\u{1172F}');
    push_range(v, '\u{11747}', '\u{117FF}');
    push_range(v, '\u{1183C}', '\u{1189F}');
    push_range(v, '\u{118F3}', '\u{118FE}');
    push_range(v, '\u{11907}', '\u{11908}');
    push_range(v, '\u{1190A}', '\u{1190B}');
    push_range(v, '\u{11914}', '\u{11914}');
    push_range(v, '\u{11917}', '\u{11917}');
    assert(rview(v@) =~= o + other_chunk_62());
}

fn push_other_chunk_63(v: &mut Vec<ClassUnicodeRange>)
    ensures
        rview(final(v)@) == rview(old(v)@) + other_chunk_63(),
{
    let ghost o = rview(v@);
    push_range(v, '\u{11936}', '\u{11936}');
    push_range(v, '\u{11939}', '\u{1193A}');
    push_range(v, '\u{11947}', '\u{1194F}');
    push_range(v, '\u{1195A}', '\u{1199F}');
    push_range(v, '\u{119A8}', '\u{119A9}');
    push_range(v, '\u{119D8}', '\u{119D9}');
    push_range(v, '\u{119E5}', '\u{119FF}');
    push_range(v, '\u{11A48}', '\u{11A4F}');
    assert(rview(v@) =~= o + other_chunk_63());
}

fn push_other_chunk_64(v: &mut Vec<ClassUnicodeRange>)
    ensures
        rview(final(v)@) == rview(old(v)@) + other_chunk_64(),
{
    let ghost o = rview(v@);
    push_range(v, '\u{11AA3}', '\u{11AAF}');
    push_range(v, '\u{11AF9}', '\u{11AFF}');
    push_range(v, '\u{11B0A}', '\u{11BBF}');
    push_range(v, '\u{11BE2}', '\u{11BEF}');
    push_range(v, '\u{11BFA}', '\u{11BFF}');
    push_range(v, '\u{11C09}', '\u{11C09}');
    push_range(v, '\u{11C37}', '\u{11C37}');
    push_range(v, '\u{11C46}', '\u{11C4F}');
    assert(rview(v@) =~= o + other_chunk_64());
}

fn push_other_chunk_65(v: &mut Vec<ClassUnicodeRange>)
    ensures
        rview(final(v)@) == rview(old(v)@) + other_chunk_65(),
{
    let ghost o = rview(v@);
    push_range(v, '\u{11C6D}', '\u{11C6F}');
    push_range(v, '\u{11C90}', '\u{11C91}');
    push_range(v, '\u{11CA8}', '\u{11CA8}');
    push_range(v, '\u{11CB7}', '\u{11CFF}');
    push_range(v, '\u{11D07}', '\u{11D07}');
    push_range(v, '\u{11D0A}', '\u{11D0A}');
    push_range(v, '\u{11D37}', '\u{11D39}');
    push_range(v, '\u{11D3B}', '\u{11D3B}');
    assert(rview(v@) =~= o + other_chunk_65());
}

fn push_other_chunk_66(v: &mut Vec<ClassUnicodeRange>)
    ensures
        rview(final(v)@) == rview(old(v)@) + other_chunk_66(),
{
    let ghost o = rview(v@);
    push_range(v, '\u{11D3E}', '\u{11D3E}');
    push_range(v, '\u{11D48}', '\u{11D4F}');
    push_range(v, '\u{11D5A}', '\u{11D5F}');
    push_range(v, '\u{11D66}', '\u{11D66}');
    push_range(v, '\u{11D69}', '\u{11D69}');
    push_range(v, '\u{11D8F}', '\u{11D8F}');
    push_range(v, '\u{11D92}', '\u{11D92}');
    push_range(v, '\u{11D99}', '\u{11D9F}');
    assert(rview(v@) =~= o + other_chunk_66());
}

fn push_other_chunk_67(v: &mut Vec<ClassUnicodeRange>)
    ensures
        rview(final(v)@) == rview(old(v)@) + other_chunk_67(),
{
    let ghost o = rview(v@);
    push_range(v, '\u{11DAA}', '\u{11EDF}');
    push_range(v, '\u{11EF9}', '\u{11EFF}');
    push_range(v, '\u{11F11}', '\u{11F11}');
    push_range(v, '\u{11F3B}', '\u{11F3D}');
    push_range(v, '\u{11F5B}', '\u{11FAF}');
    push_range(v, '\u{11FB1}', '\u{11FBF}');
    push_range(v, '\u{11FF2}', '\u{11FFE}');
    push_range(v, '\u{1239A}', '\u{123FF}');
    assert(rview(v@) =~= o + other_chunk_67());
}

fn push_other_chunk_68(v: &mut Vec<ClassUnicodeRange>)
    ensures
        rview(final(v)@) == rview(old(v)@) + other_chunk_68(),
{
    let ghost o = rview(v@);
    push_range(v, '\u{1246F}', '\u{1246F}');
    push_range(v, '\u{12475}', '\u{1247F}');
    push_range(v, '\u{12544}', '\u{12F8F}');
    push_range(v, '\u{12FF3}', '\u{12FFF}');
    push_range(v, '\u{13430}', '\u{1343F}');
    push_range(v, '\u{13456}', '\u{1345F}');
    push_range(v, '\u{143FB}', '\u{143FF}');
    push_range(v, '\u{14647}', '\u{160FF}');
    assert(rview(v@) =~= o + other_chunk_68());
}

fn push_other_chunk_69(v: &mut Vec<ClassUnicodeRange>)
    ensures
        rview(final(v)@) == rview(old(v)@) + other_chunk_69(),
{
    let ghost o = rview(v@);
    push_range(v, '\u{1613A}', '\u{167FF}');
    push_range(v, '\u{16A39}', '\u{16A3F}');
    push_range(v, '\u{16A5F}', '\u{16A5F}');
    push_range(v, '\u{16A6A}', '\u{16A6D}');
    push_range(v, '\u{16ABF}', '\u{16ABF}');
    push_range(v, '\u{16ACA}', '\u{16ACF}');
    push_range(v, '\u{16AEE}', '\u{16AEF}');
    push_range(v, '\u{16AF6}', '\u{16AFF}');
    assert(rview(v@) =~= o + other_chunk_69());
}

fn push_other_chunk_70(v: &mut Vec<ClassUnicodeRange>)
    ensures
        rview(final(v)@) == rview(old(v)@) + other_chunk_70(),
{
    let ghost o = rview(v@);
    push_range(v, '\u{16B46}', '\u{16B4F}');
    push_range(v, '\u{16B5A}', '\u{16B5A}');
    push_range(v, '\u{16B62}', '\u{16B62}');
    push_range(v, '\u{16B78}', '\u{16B7C}');
    push_range(v, '\u{16B90}', '\u{16D3F}');
    push_range(v, '\u{16D7A}', '\u{16E3F}');
    push_range(v, '\u{16E9B}', '\u{16EFF}');
    push_range(v, '\u{16F4B}', '\u{16F4E}');
    assert(rview(v@) =~= o + other_chunk_70());
}

fn push_other_chunk_71(v: &mut Vec<ClassUnicodeRange>)
    ensures
        rview(final(v)@) == rview(old(v)@) + other_chunk_71(),
{
    let ghost o = rview(v@);
    push_range(v, '\u{16F88}', '\u{16F8E}');
    push_range(v, '\u{16FA0}', '\u{16FDF}');
    push_range(v, '\u{16FE5}', '\u{16FEF}');
    push_range(v, '\u{16FF2}', '\u{16FFF}');
    push_range(v, '\u{187F8}', '\u{187FF}');
    push_range(v, '\u{18CD6}', '\u{18CFE}');
    push_range(v, '\u{18D09}', '\u{1AFEF}');
    push_range(v, '\u{1AFF4}', '\u{1AFF4}');
    assert(rview(v@) =~= o + other_chunk_71());
}

fn push_other_chunk_72(v: &mut Vec<ClassUnicodeRange>)
    ensures
        rview(final(v)@) == rview(old(v)@) + other_chunk_72(),
{
    let ghost o = rview(v@);
    push_range(v, '\u{1AFFC}', '\u{1AFFC}');
    push_range(v, '\u{1AFFF}', '\u{1AFFF}');
    push_range(v, '\u{1B123}', '\u{1B131}');
    push_range(v, '\u{1B133}', '\u{1B14F}');
    push_range(v, '\u{1B153}', '\u{1B154}');
    push_range(v, '\u{1B156}', '\u{1B163}');
    push_range(v, '\u{1B168}', '\u{1B16F}');
    push_range(v, '\u{1B2FC}', '\u{1BBFF}');
    assert(rview(v@) =~= o + other_chunk_72());
}

fn push_other_chunk_73(v: &mut Vec<ClassUnicodeRange>)
    ensures
        rview(final(v)@) == rview(old(v)@) + other_chunk_73(),
{
    let ghost o = rview(v@);
    push_range(v, '\u{1BC6B}', '\u{1BC6F}');
    push_range(v, '\u{1BC7D}', '\u{1BC7F}');
    push_range(v, '\u{1BC89}', '\u{1BC8F}');
    push_range(v, '\u{1BC9A}', '\u{1BC9B}');
    push_range(v, '\u{1BCA0}', '\u{1CBFF}');
    push_range(v, '\u{1CCFA}', '\u{1CCFF}');
    push_range(v, '\u{1CEB4}', '\u{1CEFF}');
    push_range(v, '\u{1CF2E}', '\u{1CF2F}');
    assert(rview(v@) =~= o + other_chunk_73());
}

fn push_other_chunk_74(v: &mut Vec<ClassUnicodeRange>)
    ensures
        rview(final(v)@) == rview(old(v)@) + other_chunk_74(),
{
    let ghost o = rview(v@);
    push_range(v, '\u{1CF47}', '\u{1CF4F}');
    push_range(v, '\u{1CFC4}', '\u{1CFFF}');
    push_range(v, '\u{1D0F6}', '\u{1D0FF}');
    push_range(v, '\u{1D127}', '\u{1D128}');
    push_range(v, '\u{1D173}', '\u{1D17A}');
    push_range(v, '\u{1D1EB}', '\u{1D1FF}');
    push_range(v, '\u{1D246}', '\u{1D2BF}');
    push_range(v, '\u{1D2D4}', '\u{1D2DF}');
    assert(rview(v@) =~= o + other_chunk_74());
}

fn push_other_chunk_75(v: &mut Vec<ClassUnicodeRange>)
    ensures
        rview(final(v)@) == rview(old(v)@) + other_chunk_75(),
{
    let ghost o = rview(v@);
    push_range(v, '\u{1D2F4}', '\u{1D2FF}');
    push_range(v, '\u{1D357}', '\u{1D35F}');
    push_range(v, '\u{1D379}', '\u{1D3FF}');
    push_range(v, '\u{1D455}', '\u{1D455}');
    push_range(v, '\u{1D49D}', '\u{1D49D}');
    push_range(v, '\u{1D4A0}', '\u{1D4A1}');
    push_range(v, '\u{1D4A3}', '\u{1D4A4}');
    push_range(v, '\u{1D4A7}', '\u{1D4A8}');
    assert(rview(v@) =~= o + other_chunk_75());
}

fn push_other_chunk_76(v: &mut Vec<ClassUnicodeRange>)
    ensures
        rview(final(v)@) == rview(old(v)@) + other_chunk_76(),
{
    let ghost o = rview(v@);
    push_range(v, '\u{1D4AD}', '\u{1D4AD}');
    push_range(v, '\u{1D4BA}', '\u{1D4BA}');
    push_range(v, '\u{1D4BC}', '\u{1D4BC}');
    push_range(v, '\u{1D4C4}', '\u{1D4C4}');
    push_range(v, '\u{1D506}', '\u{1D506}');
    push_range(v, '\u{1D50B}', '\u{1D50C}');
    push_range(v, '\u{1D515}', '\u{1D515}');
    push_range(v, '\u{1D51D}', '\u{1D51D}');
    assert(rview(v@) =~= o + other_chunk_76());
}

fn push_other_chunk_77(v: &mut Vec<ClassUnicodeRange>)
    ensures
        rview(final(v)@) == rview(old(v)@) + other_chunk_77(),
{
    let ghost o = rview(v@);
    push_range(v, '\u{1D53A}', '\u{1D53A}');
    push_range(v, '\u{1D53F}', '\u{1D53F}');
    push_range(v, '\u{1D545}', '\u{1D545}');
    push_range(v, '\u{1D547}', '\u{1D549}');
    push_range(v, '\u{1D551}', '\u{1D551}');
    push_range(v, '\u{1D6A6}', '\u{1D6A7}');
    push_range(v, '\u{1D7CC}', '\u{1D7CD}');
    push_range(v, '\u{1DA8C}', '\u{1DA9A}');
    assert(rview(v@) =~= o + other_chunk_77());
}

fn push_other_chunk_78(v: &mut Vec<ClassUnicodeRange>)
    ensures
        rview(final(v)@) == rview(old(v)@) + other_chunk_78(),
{
    let ghost o = rview(v@);
    push_range(v, '\u{1DAA0}', '\u{1DAA0}');
    push_range(v, '\u{1DAB0}', '\u{1DEFF}');
    push_range(v, '\u{1DF1F}', '\u{1DF24}');
    push_range(v, '\u{1DF2B}', '\u{1DFFF}');
    push_range(v, '\u{1E007}', '\u{1E007}');
    push_range(v, '\u{1E019}', '\u{1E01A}');
    push_range(v, '\u{1E022}', '\u{1E022}');
    push_range(v, '\u{1E025}', '\u{1E025}');
    assert(rview(v@) =~= o + other_chunk_78());
}

fn push_other_chunk_79(v: &mut Vec<ClassUnicodeRange>)
    ensures
        rview(final(v)@) == rview(old(v)@) + other_chunk_79(),
{
    let ghost o = rview(v@);
    push_range(v, '\u{1E02B}', '\u{1E02F}');
    push_range(v, '\u{1E06E}', '\u{1E08E}');
    push_range(v, '\u{1E090}', '\u{1E0FF}');
    push_range(v, '\u{1E12D}', '\u{1E12F}');
    push_range(v, '\u{1E13E}', '\u{1E13F}');
    push_range(v, '\u{1E14A}', '\u{1E14D}');
    push_range(v, '\u{1E150}', '\u{1E28F}');
    push_range(v, '\u{1E2AF}', '\u{1E2BF}');
    assert(rview(v@) =~= o + other_chunk_79());
}

fn push_other_chunk_80(v: &mut Vec<ClassUnicodeRange>)
    ensures
        rview(final(v)@) == rview(old(v)@) + other_chunk_80(),
{
    let ghost o = rview(v@);
    push_range(v, '\u{1E2FA}', '\u{1E2FE}');
    push_range(v, '\u{1E300}', '\u{1E4CF}');
    push_range(v, '\u{1E4FA}', '\u{1E5CF}');
    push_range(v, '\u{1E5FB}', '\u{1E5FE}');
    push_range(v, '\u{1E600}', '\u{1E7DF}');
    push_range(v, '\u{1E7E7}', '\u{1E7E7}');
    push_range(v, '\u{1E7EC}', '\u{1E7EC}');
    push_range(v, '\u{1E7EF}', '\u{1E7EF}');
    assert(rview(v@) =~= o + other_chunk_80());
}

fn push_other_chunk_81(v: &mut Vec<ClassUnicodeRange>)
    ensures
        rview(final(v)@) == rview(old(v)@) + other_chunk_81(),
{
    let ghost o = rview(v@);
    push_range(v, '\u{1E7FF}', '\u{1E7FF}');
    push_range(v, '\u{1E8C5}', '\u{1E8C6}');
    push_range(v, '\u{1E8D7}', '\u{1E8FF}');
    push_range(v, '\u{1E94C}', '\u{1E94F}');
    push_range(v, '\u{1E95A}', '\u{1E95D}');
    push_range(v, '\u{1E960}', '\u{1EC70}');
    push_range(v, '\u{1ECB5}', '\u{1ED00}');
    push_range(v, '\u{1ED3E}', '\u{1EDFF}');
    assert(rview(v@) =~= o + other_chunk_81());
}

fn push_other_chunk_82(v: &mut Vec<ClassUnicodeRange>)
    ensures
        rview(final(v)@) == rview(old(v)@) + other_chunk_82(),
{
    let ghost o = rview(v@);
    push_range(v, '\u{1EE04}', '\u{1EE04}');
    push_range(v, '\u{1EE20}', '\u{1EE20}');
    push_range(v, '\u{1EE23}', '\u{1EE23}');
    push_range(v, '\u{1EE25}', '\u{1EE26}');
    push_range(v, '\u{1EE28}', '\u{1EE28}');
    push_range(v, '\u{1EE33}', '\u{1EE33}');
    push_range(v, '\u{1EE38}', '\u{1EE38}');
    push_range(v, '\u{1EE3A}', '\u{1EE3A}');
    assert(rview(v@) =~= o + other_chunk_82());
}

fn push_other_chunk_83(v: &mut Vec<ClassUnicodeRange>)
    ensures
        rview(final(v)@) == rview(old(v)@) + other_chunk_83(),
{
    let ghost o = rview(v@);
    push_range(v, '\u{1EE3C}', '\u{1EE41}');
    push_range(v, '\u{1EE43}', '\u{1EE46}');
    push_range(v, '\u{1EE48}', '\u{1EE48}');
    push_range(v, '\u{1EE4A}', '\u{1EE4A}');
    push_range(v, '\u{1EE4C}', '\u{1EE4C}');
    push_range(v, '\u{1EE50}', '\u{1EE50}');
    push_range(v, '\u{1EE53}', '\u{1EE53}');
    push_range(v, '\u{1EE55}', '\u{1EE56}');
    assert(rview(v@) =~= o + other_chunk_83());
}

fn push_other_chunk_84(v: &mut Vec<ClassUnicodeRange>)
    ensures
        rview(final(v)@) == rview(old(v)@) + other_chunk_84(),
{
    let ghost o = rview(v@);
    push_range(v, '\u{1EE58}', '\u{1EE58}');
    push_range(v, '\u{1EE5A}', '\u{1EE5A}');
    push_range(v, '\u{1EE5C}', '\u{1EE5C}');
    push_range(v, '\u{1EE5E}', '\u{1EE5E}');
    push_range(v, '\u{1EE60}', '\u{1EE60}');
    push_range(v, '\u{1EE63}', '\u{1EE63}');
    push_range(v, '\u{1EE65}', '\u{1EE66}');
    push_range(v, '\u{1EE6B}', '\u{1EE6B}');
    assert(rview(v@) =~= o + other_chunk_84());
}

fn push_other_chunk_85(v: &mut Vec<ClassUnicodeRange>)
    ensures
        rview(final(v)@) == rview(old(v)@) + other_chunk_85(),
{
    let ghost o = rview(v@);
    push_range(v, '\u{1EE73}', '\u{1EE73}');
    push_range(v, '\u{1EE78}', '\u{1EE78}');
    push_range(v, '\u{1EE7D}', '\u{1EE7D}');
    push_range(v, '\u{1EE7F}', '\u{1EE7F}');
    push_range(v, '\u{1EE8A}', '\u{1EE8A}');
    push_range(v, '\u{1EE9C}', '\u{1EEA0}');
    push_range(v, '\u{1EEA4}', '\u{1EEA4}');
    push_range(v, '\u{1EEAA}', '\u{1EEAA}');
    assert(rview(v@) =~= o + other_chunk_85());
}

fn push_other_chunk_86(v: &mut Vec<ClassUnicodeRange>)
    ensures
        rview(final(v)@) == rview(old(v)@) + other_chunk_86(),
{
    let ghost o = rview(v@);
    push_range(v, '\u{1EEBC}', '\u{1EEEF}');
    push_range(v, '\u{1EEF2}', '\u{1EFFF}');
    push_range(v, '\u{1F02C}', '\u{1F02F}');
    push_range(v, '\u{1F094}', '\u{1F09F}');
    push_range(v, '\u{1F0AF}', '\u{1F0B0}');
    push_range(v, '\u{1F0C0}', '\u{1F0C0}');
    push_range(v, '\u{1F0D0}', '\u{1F0D0}');
    push_range(v, '\u{1F0F6}', '\u{1F0FF}');
    assert(rview(v@) =~= o + other_chunk_86());
}

fn push_other_chunk_87(v: &mut Vec<ClassUnicodeRange>)
    ensures
        rview(final(v)@) == rview(old(v)@) + other_chunk_87(),
{
    let ghost o = rview(v@);
    push_range(v, '\u{1F1AE}', '\u{1F1E5}');
    push_range(v, '\u{1F203}', '\u{1F20F}');
    push_range(v, '\u{1F23C}', '\u{1F23F}');
    push_range(v, '\u{1F249}', '\u{1F24F}');
    push_range(v, '\u{1F252}', '\u{1F25F}');
    push_range(v, '\u{1F266}', '\u{1F2FF}');
    push_range(v, '\u{1F6D8}', '\u{1F6DB}');
    push_range(v, '\u{1F6ED}', '\u{1F6EF}');
    assert(rview(v@) =~= o + other_chunk_87());
}

fn push_other_chunk_88(v: &mut Vec<ClassUnicodeRange>)
    ensures
        rview(final(v)@) == rview(old(v)@) + other_chunk_88(),
{
    let ghost o = rview(v@);
    push_range(v, '\u{1F6FD}', '\u{1F6FF}');
    push_range(v, '\u{1F777}', '\u{1F77A}');
    push_range(v, '\u{1F7DA}', '\u{1F7DF}');
    push_range(v, '\u{1F7EC}', '\u{1F7EF}');
    push_range(v, '\u{1F7F1}', '\u{1F7FF}');
    push_range(v, '\u{1F80C}', '\u{1F80F}');
    push_range(v, '\u{1F848}', '\u{1F84F}');
    push_range(v, '\u{1F85A}', '\u{1F85F}');
    assert(rview(v@) =~= o + other_chunk_88());
}

fn push_other_chunk_89(v: &mut Vec<ClassUnicodeRange>)
    ensures
        rview(final(v)@) == rview(old(v)@) + other_chunk_89(),
{
    let ghost o = rview(v@);
    push_range(v, '\u{1F888}', '\u{1F88F}');
    push_range(v, '\u{1F8AE}', '\u{1F8AF}');
    push_range(v, '\u{1F8BC}', '\u{1F8BF}');
    push_range(v, '\u{1F8C2}', '\u{1F8FF}');
    push_range(v, '\u{1FA54}', '\u{1FA5F}');
    push_range(v, '\u{1FA6E}', '\u{1FA6F}');
    push_range(v, '\u{1FA7D}', '\u{1FA7F}');
    push_range(v, '\u{1FA8A}', '\u{1FA8E}');
    assert(rview(v@) =~= o + other_chunk_89());
}

fn push_other_chunk_90(v: &mut Vec<ClassUnicodeRange>)
    ensures
        rview(final(v)@) == rview(old(v)@) + other_chunk_90(),
{
    let ghost o = rview(v@);
    push_range(v, '\u{1FAC7}', '\u{1FACD}');
    push_range(v, '\u{1FADD}', '\u{1FADE}');
    push_range(v, '\u{1FAEA}', '\u{1FAEF}');
    push_range(v, '\u{1FAF9}', '\u{1FAFF}');
    push_range(v, '\u{1FB93}', '\u{1FB93}');
    push_range(v, '\u{1FBFA}', '\u{1FFFF}');
    push_range(v, '\u{2A6E0}', '\u{2A6FF}');
    push_range(v, '\u{2B73A}', '\u{2B73F}');
    assert(rview(v@) =~= o + other_chunk_90());
}

fn push_other_chunk_91(v: &mut Vec<ClassUnicodeRange>)
    ensures
        rview(final(v)@) == rview(old(v)@) + other_chunk_91(),
{
    let ghost o = rview(v@);
    push_range(v, '\u{2B81E}', '\u{2B81F}');
    push_range(v, '\u{2CEA2}', '\u{2CEAF}');
    push_range(v, '\u{2EBE1}', '\u{2EBEF}');
    push_range(v, '\u{2EE5E}', '\u{2F7FF}');
    push_range(v, '\u{2FA1E}', '\u{2FFFF}');
    push_range(v, '\u{3134B}', '\u{3134F}');
    push_range(v, '\u{323B0}', '\u{E00FF}');
    push_range(v, '\u{E01F0}', '\u{10FFFF}');
    assert(rview(v@) =~= o + other_chunk_91());
}

fn push_other_block_0(v: &mut Vec<ClassUnicodeRange>)
    ensures
        rview(final(v)@) == rview(old(v)@) + other_block_0(),
{
    let ghost o = rview(v@);
    push_other_chunk_0(v);
    assert(rview(v@) =~= o + (other_chunk_0()));
    push_other_chunk_1(v);
    assert(rview(v@) =~= o + (other_chunk_0() + other_chunk_1()));
    push_other_chunk_2(v);
    assert(rview(v@) =~= o + (other_chunk_0() + other_chunk_1() + other_chunk_2()));
    push_other_chunk_3(v);
    assert(rview(v@) =~= o + (other_chunk_0() + other_chunk_1() + other_chunk_2() + other_chunk_3()));
    push_other_chunk_4(v);
    assert(rview(v@) =~= o + (other_chunk_0() + other_chunk_1() + other_chunk_2() + other_chunk_3() + other_chunk_4()));
    push_other_chunk_5(v);
    assert(rview(v@) =~= o + (other_chunk_0() + other_chunk_1() + other_chunk_2() + other_chunk_3() + other_chunk_4() + other_chunk_5()));
    push_other_chunk_6(v);
    assert(rview(v@) =~= o + (other_chunk_0() + other_chunk_1() + other_chunk_2() + other_chunk_3() + other_chunk_4() + other_chunk_5() + other_chunk_6()));
    push_other_chunk_7(v);
    assert(rview(v@) =~= o + (other_chunk_0() + other_chunk_1() + other_chunk_2() + other_chunk_3() + other_chunk_4() + other_chunk_5() + other_chunk_6() + other_chunk_7()));
    push_other_chunk_8(v);
    assert(rview(v@) =~= o + (other_chunk_0() + other_chunk_1() + other_chunk_2() + other_chunk_3() + other_chunk_4() + other_chunk_5() + other_chunk_6() + other_chunk_7() + other_chunk_8()));
    push_other_chunk_9(v);
    assert(rview(v@) =~= o + (other_chunk_0() + other_chunk_1() + other_chunk_2() + other_chunk_3() + other_chunk_4() + other_chunk_5() + other_chunk_6() + other_chunk_7() + other_chunk_8() + other_chunk_9()));
}

fn push_other_block_1(v: &mut Vec<ClassUnicodeRange>)
    ensures
        rview(final(v)@) == rview(old(v)@) + other_block_1(),
{
    let ghost o = rview(v@);
    push_other_chunk_10(v);
    assert(rview(v@) =~= o + (other_chunk_10()));
    push_other_chunk_11(v);
    assert(rview(v@) =~= o + (other_chunk_10() + other_chunk_11()));
    push_other_chunk_12(v);
    assert(rview(v@) =~= o + (other_chunk_10() + other_chunk_11() + other_chunk_12()));
    push_other_chunk_13(v);
    assert(rview(v@) =~= o + (other_chunk_10() + other_chunk_11() + other_chunk_12() + other_chunk_13()));
    push_other_chunk_14(v);
    assert(rview(v@) =~= o + (other_chunk_10() + other_chunk_11() + other_chunk_12() + other_chunk_13() + other_chunk_14()));
    push_other_chunk_15(v);
    assert(rview(v@) =~= o + (other_chunk_10() + other_chunk_11() + other_chunk_12() + other_chunk_13() + other_chunk_14() + other_chunk_15()));
    push_other_chunk_16(v);
    assert(rview(v@) =~= o + (other_chunk_10() + other_chunk_11() + other_chunk_12() + other_chunk_13() + other_chunk_14() + other_chunk_15() + other_chunk_16()));
    push_other_chunk_17(v);
    assert(rview(v@) =~= o + (other_chunk_10() + other_chunk_11() + other_chunk_12() + other_chunk_13() + other_chunk_14() + other_chunk_15() + other_chunk_16() + other_chunk_17()));
    push_other_chunk_18(v);
    assert(rview(v@) =~= o + (other_chunk_10() + other_chunk_11() + other_chunk_12() + other_chunk_13() + other_chunk_14() + other_chunk_15() + other_chunk_16() + other_chunk_17() + other_chunk_18()));
    push_other_chunk_19(v);
    assert(rview(v@) =~= o + (other_chunk_10() + other_chunk_11() + other_chunk_12() + other_chunk_13() + other_chunk_14() + other_chunk_15() + other_chunk_16() + other_chunk_17() + other_chunk_18() + other_chunk_19()));
}

fn push_other_block_2(v: &mut Vec<ClassUnicodeRange>)
    ensures
        rview(final(v)@) == rview(old(v)@) + other_block_2(),
{
    let ghost o = rview(v@);
    push_other_chunk_20(v);
    assert(rview(v@) =~= o + (other_chunk_20()));
    push_other_chunk_21(v);
    assert(rview(v@) =~= o + (other_chunk_20() + other_chunk_21()));
    push_other_chunk_22(v);
    assert(rview(v@) =~= o + (other_chunk_20() + other_chunk_21() + other_chunk_22()));
    push_other_chunk_23(v);
    assert(rview(v@) =~= o + (other_chunk_20() + other_chunk_21() + other_chunk_22() + other_chunk_23()));
    push_other_chunk_24(v);
    assert(rview(v@) =~= o + (other_chunk_20() + other_chunk_21() + other_chunk_22() + other_chunk_23() + other_chunk_24()));
    push_other_chunk_25(v);
    assert(rview(v@) =~= o + (other_chunk_20() + other_chunk_21() + other_chunk_22() + other_chunk_23() + other_chunk_24() + other_chunk_25()));
    push_other_chunk_26(v);
    assert(rview(v@) =~= o + (other_chunk_20() + other_chunk_21() + other_chunk_22() + other_chunk_23() + other_chunk_24() + other_chunk_25() + other_chunk_26()));
    push_other_chunk_27(v);
    assert(rview(v@) =~= o + (other_chunk_20() + other_chunk_21() + other_chunk_22() + other_chunk_23() + other_chunk_24() + other_chunk_25() + other_chunk_26() + other_chunk_27()));
    push_other_chunk_28(v);
    assert(rview(v@) =~= o + (other_chunk_20() + other_chunk_21() + other_chunk_22() + other_chunk_23() + other_chunk_24() + other_chunk_25() + other_chunk_26() + other_chunk_27() + other_chunk_28()));
    push_other_chunk_29(v);
    assert(rview(v@) =~= o + (other_chunk_20() + other_chunk_21() + other_chunk_22() + other_chunk_23() + other_chunk_24() + other_chunk_25() + other_chunk_26() + other_chunk_27() + other_chunk_28() + other_chunk_29()));
}

fn push_other_block_3(v: &mut Vec<ClassUnicodeRange>)
    ensures
        rview(final(v)@) == rview(old(v)@) + other_block_3(),
{
    let ghost o = rview(v@);
    push_other_chunk_30(v);
    assert(rview(v@) =~= o + (other_chunk_30()));
    push_other_chunk_31(v);
    assert(rview(v@) =~= o + (other_chunk_30() + other_chunk_31()));
    push_other_chunk_32(v);
    assert(rview(v@) =~= o + (other_chunk_30() + other_chunk_31() + other_chunk_32()));
    push_other_chunk_33(v);
    assert(rview(v@) =~= o + (other_chunk_30() + other_chunk_31() + other_chunk_32() + other_chunk_33()));
    push_other_chunk_34(v);
    assert(rview(v@) =~= o + (other_chunk_30() + other_chunk_31() + other_chunk_32() + other_chunk_33() + other_chunk_34()));
    push_other_chunk_35(v);
    assert(rview(v@) =~= o + (other_chunk_30() + other_chunk_31() + other_chunk_32() + other_chunk_33() + other_chunk_34() + other_chunk_35()));
    push_other_chunk_36(v);
    assert(rview(v@) =~= o + (other_chunk_30() + other_chunk_31() + other_chunk_32() + other_chunk_33() + other_chunk_34() + other_chunk_35() + other_chunk_36()));
    push_other_chunk_37(v);
    assert(rview(v@) =~= o + (other_chunk_30() + other_chunk_31() + other_chunk_32() + other_chunk_33() + other_chunk_34() + other_chunk_35() + other_chunk_36() + other_chunk_37()));
    push_other_chunk_38(v);
    assert(rview(v@) =~= o + (other_chunk_30() + other_chunk_31() + other_chunk_32() + other_chunk_33() + other_chunk_34() + other_chunk_35() + other_chunk_36() + other_chunk_37() + other_chunk_38()));
    push_other_chunk_39(v);
    assert(rview(v@) =~= o + (other_chunk_30() + other_chunk_31() + other_chunk_32() + other_chunk_33() + other_chunk_34() + other_chunk_35() + other_chunk_36() + other_chunk_37() + other_chunk_38() + other_chunk_39()));
}

fn push_other_block_4(v: &mut Vec<ClassUnicodeRange>)
    ensures
        rview(final(v)@) == rview(old(v)@) + other_block_4(),
{
    let ghost o = rview(v@);
    push_other_chunk_40(v);
    assert(rview(v@) =~= o + (other_chunk_40()));
    push_other_chunk_41(v);
    assert(rview(v@) =~= o + (other_chunk_40() + other_chunk_41()));
    push_other_chunk_42(v);
    assert(rview(v@) =~= o + (other_chunk_40() + other_chunk_41() + other_chunk_42()));
    push_other_chunk_43(v);
    assert(rview(v@) =~= o + (other_chunk_40() + other_chunk_41() + other_chunk_42() + other_chunk_43()));
    push_other_chunk_44(v);
    assert(rview(v@) =~= o + (other_chunk_40() + other_chunk_41() + other_chunk_42() + other_chunk_43() + other_chunk_44()));
    push_other_chunk_45(v);
    assert(rview(v@) =~= o + (other_chunk_40() + other_chunk_41() + other_chunk_42() + other_chunk_43() + other_chunk_44() + other_chunk_45()));
    push_other_chunk_46(v);
    assert(rview(v@) =~= o + (other_chunk_40() + other_chunk_41() + other_chunk_42() + other_chunk_43() + other_chunk_44() + other_chunk_45() + other_chunk_46()));
    push_other_chunk_47(v);
    assert(rview(v@) =~= o + (other_chunk_40() + other_chunk_41() + other_chunk_42() + other_chunk_43() + other_chunk_44() + other_chunk_45() + other_chunk_46() + other_chunk_47()));
    push_other_chunk_48(v);
    assert(rview(v@) =~= o + (other_chunk_40() + other_chunk_41() + other_chunk_42() + other_chunk_43() + other_chunk_44() + other_chunk_45() + other_chunk_46() + other_chunk_47() + other_chunk_48()));
    push_other_chunk_49(v);
    assert(rview(v@) =~= o + (other_chunk_40() + other_chunk_41() + other_chunk_42() + other_chunk_43() + other_chunk_44() + other_chunk_45() + other_chunk_46() + other_chunk_47() + other_chunk_48() + other_chunk_49()));
}

fn push_other_block_5(v: &mut Vec<ClassUnicodeRange>)
    ensures
        rview(final(v)@) == rview(old(v)@) + other_block_5(),
{
    let ghost o = rview(v@);
    push_other_chunk_50(v);
    assert(rview(v@) =~= o + (other_chunk_50()));
    push_other_chunk_51(v);
    assert(rview(v@) =~= o + (other_chunk_50() + other_chunk_51()));
    push_other_chunk_52(v);
    assert(rview(v@) =~= o + (other_chunk_50() + other_chunk_51() + other_chunk_52()));
    push_other_chunk_53(v);
    assert(rview(v@) =~= o + (other_chunk_50() + other_chunk_51() + other_chunk_52() + other_chunk_53()));
    push_other_chunk_54(v);
    assert(rview(v@) =~= o + (other_chunk_50() + other_chunk_51() + other_chunk_52() + other_chunk_53() + other_chunk_54()));
    push_other_chunk_55(v);
    assert(rview(v@) =~= o + (other_chunk_50() + other_chunk_51() + other_chunk_52() + other_chunk_53() + other_chunk_54() + other_chunk_55()));
    push_other_chunk_56(v);
    assert(rview(v@) =~= o + (other_chunk_50() + other_chunk_51() + other_chunk_52() + other_chunk_53() + other_chunk_54() + other_chunk_55() + other_chunk_56()));
    push_other_chunk_57(v);
    assert(rview(v@) =~= o + (other_chunk_50() + other_chunk_51() + other_chunk_52() + other_chunk_53() + other_chunk_54() + other_chunk_55() + other_chunk_56() + other_chunk_57()));
    push_other_chunk_58(v);
    assert(rview(v@) =~= o + (other_chunk_50() + other_chunk_51() + other_chunk_52() + other_chunk_53() + other_chunk_54() + other_chunk_55() + other_chunk_56() + other_chunk_57() + other_chunk_58()));
    push_other_chunk_59(v);
    assert(rview(v@) =~= o + (other_chunk_50() + other_chunk_51() + other_chunk_52() + other_chunk_53() + other_chunk_54() + other_chunk_55() + other_chunk_56() + other_chunk_57() + other_chunk_58() + other_chunk_59()));
}

fn push_other_block_6(v: &mut Vec<ClassUnicodeRange>)
    ensures
        rview(final(v)@) == rview(old(v)@) + other_block_6(),
{
    let ghost o = rview(v@);
    push_other_chunk_60(v);
    assert(rview(v@) =~= o + (other_chunk_60()));
    push_other_chunk_61(v);
    assert(rview(v@) =~= o + (other_chunk_60() + other_chunk_61()));
    push_other_chunk_62(v);
    assert(rview(v@) =~= o + (other_chunk_60() + other_chunk_61() + other_chunk_62()));
    push_other_chunk_63(v);
    assert(rview(v@) =~= o + (other_chunk_60() + other_chunk_61() + other_chunk_62() + other_chunk_63()));
    push_other_chunk_64(v);
    assert(rview(v@) =~= o + (other_chunk_60() + other_chunk_61() + other_chunk_62() + other_chunk_63() + other_chunk_64()));
    push_other_chunk_65(v);
    assert(rview(v@) =~= o + (other_chunk_60() + other_chunk_61() + other_chunk_62() + other_chunk_63() + other_chunk_64() + other_chunk_65()));
    push_other_chunk_66(v);
    assert(rview(v@) =~= o + (other_chunk_60() + other_chunk_61() + other_chunk_62() + other_chunk_63() + other_chunk_64() + other_chunk_65() + other_chunk_66()));
    push_other_chunk_67(v);
    assert(rview(v@) =~= o + (other_chunk_60() + other_chunk_61() + other_chunk_62() + other_chunk_63() + other_chunk_64() + other_chunk_65() + other_chunk_66() + other_chunk_67()));
    push_other_chunk_68(v);
    assert(rview(v@) =~= o + (other_chunk_60() + other_chunk_61() + other_chunk_62() + other_chunk_63() + other_chunk_64() + other_chunk_65() + other_chunk_66() + other_chunk_67() + other_chunk_68()));
    push_other_chunk_69(v);
    assert(rview(v@) =~= o + (other_chunk_60() + other_chunk_61() + other_chunk_62() + other_chunk_63() + other_chunk_64() + other_chunk_65() + other_chunk_66() + other_chunk_67() + other_chunk_68() + other_chunk_69()));
}

fn push_other_block_7(v: &mut Vec<ClassUnicodeRange>)
    ensures
        rview(final(v)@) == rview(old(v)@) + other_block_7(),
{
    let ghost o = rview(v@);
    push_other_chunk_70(v);
    assert(rview(v@) =~= o + (other_chunk_70()));
    push_other_chunk_71(v);
    assert(rview(v@) =~= o + (other_chunk_70() + other_chunk_71()));
    push_other_chunk_72(v);
    assert(rview(v@) =~= o + (other_chunk_70() + other_chunk_71() + other_chunk_72()));
    push_other_chunk_73(v);
    assert(rview(v@) =~= o + (other_chunk_70() + other_chunk_71() + other_chunk_72() + other_chunk_73()));
    push_other_chunk_74(v);
    assert(rview(v@) =~= o + (other_chunk_70() + other_chunk_71() + other_chunk_72() + other_chunk_73() + other_chunk_74()));
    push_other_chunk_75(v);
    assert(rview(v@) =~= o + (other_chunk_70() + other_chunk_71() + other_chunk_72() + other_chunk_73() + other_chunk_74() + other_chunk_75()));
    push_other_chunk_76(v);
    assert(rview(v@) =~= o + (other_chunk_70() + other_chunk_71() + other_chunk_72() + other_chunk_73() + other_chunk_74() + other_chunk_75() + other_chunk_76()));
    push_other_chunk_77(v);
    assert(rview(v@) =~= o + (other_chunk_70() + other_chunk_71() + other_chunk_72() + other_chunk_73() + other_chunk_74() + other_chunk_75() + other_chunk_76() + other_chunk_77()));
    push_other_chunk_78(v);
    assert(rview(v@) =~= o + (other_chunk_70() + other_chunk_71() + other_chunk_72() + other_chunk_73() + other_chunk_74() + other_chunk_75() + other_chunk_76() + other_chunk_77() + other_chunk_78()));
    push_other_chunk_79(v);
    assert(rview(v@) =~= o + (other_chunk_70() + other_chunk_71() + other_chunk_72() + other_chunk_73() + other_chunk_74() + other_chunk_75() + other_chunk_76() + other_chunk_77() + other_chunk_78() + other_chunk_79()));
}

fn push_other_block_8(v: &mut Vec<ClassUnicodeRange>)
    ensures
        rview(final(v)@) == rview(old(v)@) + other_block_8(),
{
    let ghost o = rview(v@);
    push_other_chunk_80(v);
    assert(rview(v@) =~= o + (other_chunk_80()));
    push_other_chunk_81(v);
    assert(rview(v@) =~= o + (other_chunk_80() + other_chunk_81()));
    push_other_chunk_82(v);
    assert(rview(v@) =~= o + (other_chunk_80() + other_chunk_81() + other_chunk_82()));
    push_other_chunk_83(v);
    assert(rview(v@) =~= o + (other_chunk_80() + other_chunk_81() + other_chunk_82() + other_chunk_83()));
    push_other_chunk_84(v);
    assert(rview(v@) =~= o + (other_chunk_80() + other_chunk_81() + other_chunk_82() + other_chunk_83() + other_chunk_84()));
    push_other_chunk_85(v);
    assert(rview(v@) =~= o + (other_chunk_80() + other_chunk_81() + other_chunk_82() + other_chunk_83() + other_chunk_84() + other_chunk_85()));
    push_other_chunk_86(v);
    assert(rview(v@) =~= o + (other_chunk_80() + other_chunk_81() + other_chunk_82() + other_chunk_83() + other_chunk_84() + other_chunk_85() + other_chunk_86()));
    push_other_chunk_87(v);
    assert(rview(v@) =~= o + (other_chunk_80() + other_chunk_81() + other_chunk_82() + other_chunk_83() + other_chunk_84() + other_chunk_85() + other_chunk_86() + other_chunk_87()));
    push_other_chunk_88(v);
    assert(rview(v@) =~= o + (other_chunk_80() + other_chunk_81() + other_chunk_82() + other_chunk_83() + other_chunk_84() + other_chunk_85() + other_chunk_86() + other_chunk_87() + other_chunk_88()));
    push_other_chunk_89(v);
    assert(rview(v@) =~= o + (other_chunk_80() + other_chunk_81() + other_chunk_82() + other_chunk_83() + other_chunk_84() + other_chunk_85() + other_chunk_86() + other_chunk_87() + other_chunk_88() + other_chunk_89()));
}

fn push_other_block_9(v: &mut Vec<ClassUnicodeRange>)
    ensures
        rview(final(v)@) == rview(old(v)@) + other_block_9(),
{
    let ghost o = rview(v@);
    push_other_chunk_90(v);
    assert(rview(v@) =~= o + (other_chunk_90()));
    push_other_chunk_91(v);
    assert(rview(v@) =~= o + (other_chunk_90() + other_chunk_91()));
}

/// The ranges of the general category Other.
pub fn other_class() -> (v: Vec<ClassUnicodeRange>)
    ensures
        rview(v@) == other_ranges(),
{
    let mut v: Vec<ClassUnicodeRange> = Vec::new();
    assert(rview(v@) =~= Seq::<SRange>::empty());
    push_other_block_0(&mut v);
    assert(rview(v@) =~= other_block_0());
    push_other_block_1(&mut v);
    assert(rview(v@) =~= other_block_0() + other_block_1());
    push_other_block_2(&mut v);
    assert(rview(v@) =~= other_block_0() + other_block_1() + other_block_2());
    push_other_block_3(&mut v);
    assert(rview(v@) =~= other_block_0() + other_block_1() + other_block_2() + other_block_3());
    push_other_block_4(&mut v);
    assert(rview(v@) =~= other_block_0() + other_block_1() + other_block_2() + other_block_3() + other_block_4());
    push_other_block_5(&mut v);
    assert(rview(v@) =~= other_block_0() + other_block_1() + other_block_2() + other_block_3() + other_block_4() + other_block_5());
    push_other_block_6(&mut v);
    assert(rview(v@) =~= other_block_0() + other_block_1() + other_block_2() + other_block_3() + other_block_4() + other_block_5() + other_block_6());
    push_other_block_7(&mut v);
    assert(rview(v@) =~= other_block_0() + other_block_1() + other_block_2() + other_block_3() + other_block_4() + other_block_5() + other_block_6() + other_block_7());
    push_other_block_8(&mut v);
    assert(rview(v@) =~= other_block_0() + other_block_1() + other_block_2() + other_block_3() + other_block_4() + other_block_5() + other_block_6() + other_block_7() + other_block_8());
    push_other_block_9(&mut v);
    assert(rview(v@) =~= other_block_0() + other_block_1() + other_block_2() + other_block_3() + other_block_4() + other_block_5() + other_block_6() + other_block_7() + other_block_8() + other_block_9());
    v
}

pub open spec fn other_letter_chunk_0() -> Seq<SRange> {
    seq![(0xAAint, 0xAAint), (0xBAint, 0xBAint), (0x1BBint, 0x1BBint), (0x1C0int, 0x1C3int), (0x294int, 0x294int), (0x5D0int, 0x5EAint), (0x5EFint, 0x5F2int), (0x620int, 0x63Fint)]
}

pub open spec fn other_letter_chunk_1() -> Seq<SRange> {
    seq![(0x641int, 0x64Aint), (0x66Eint, 0x66Fint), (0x671int, 0x6D3int), (0x6D5int, 0x6D5int), (0x6EEint, 0x6EFint), (0x6FAint, 0x6FCint), (0x6FFint, 0x6FFint), (0x710int, 0x710int)]
}

pub open spec fn other_letter_chunk_2() -> Seq<SRange> {
    seq![(0x712int, 0x72Fint), (0x74Dint, 0x7A5int), (0x7B1int, 0x7B1int), (0x7CAint, 0x7EAint), (0x800int, 0x815int), (0x840int, 0x858int), (0x860int, 0x86Aint), (0x870int, 0x887int)]
}

pub open spec fn other_letter_chunk_3() -> Seq<SRange> {
    seq![(0x889int, 0x88Eint), (0x8A0int, 0x8C8int), (0x904int, 0x939int), (0x93Dint, 0x93Dint), (0x950int, 0x950int), (0x958int, 0x961int), (0x972int, 0x980int), (0x985int, 0x98Cint)]
}

pub open spec fn other_letter_chunk_4() -> Seq<SRange> {
    seq![(0x98Fint, 0x990int), (0x993int, 0x9A8int), (0x9AAint, 0x9B0int), (0x9B2int, 0x9B2int), (0x9B6int, 0x9B9int), (0x9BDint, 0x9BDint), (0x9CEint, 0x9CEint), (0x9DCint, 0x9DDint)]
}

pub open spec fn other_letter_chunk_5() -> Seq<SRange> {
    seq![(0x9DFint, 0x9E1int), (0x9F0int, 0x9F1int), (0x9FCint, 0x9FCint), (0xA05int, 0xA0Aint), (0xA0Fint, 0xA10int), (0xA13int, 0xA28int), (0xA2Aint, 0xA30int), (0xA32int, 0xA33int)]
}

pub open spec fn other_letter_chunk_6() -> Seq<SRange> {
    seq![(0xA35int, 0xA36int), (0xA38int, 0xA39int), (0xA59int, 0xA5Cint), (0xA5Eint, 0xA5Eint), (0xA72int, 0xA74int), (0xA85int, 0xA8Dint), (0xA8Fint, 0xA91int), (0xA93int, 0xAA8int)]
}

pub open spec fn other_letter_chunk_7() -> Seq<SRange> {
    seq![(0xAAAint, 0xAB0int), (0xAB2int, 0xAB3int), (0xAB5int, 0xAB9int), (0xABDint, 0xABDint), (0xAD0int, 0xAD0int), (0xAE0int, 0xAE1int), (0xAF9int, 0xAF9int), (0xB05int, 0xB0Cint)]
}

pub open spec fn other_letter_chunk_8() -> Seq<SRange> {
    seq![(0xB0Fint, 0xB10int), (0xB13int, 0xB28int), (0xB2Aint, 0xB30int), (0xB32int, 0xB33int), (0xB35int, 0xB39int), (0xB3Dint, 0xB3Dint), (0xB5Cint, 0xB5Dint), (0xB5Fint, 0xB61int)]
}

pub open spec fn other_letter_chunk_9() -> Seq<SRange> {
    seq![(0xB71int, 0xB71int), (0xB83int, 0xB83int), (0xB85int, 0xB8Aint), (0xB8Eint, 0xB90int), (0xB92int, 0xB95int), (0xB99int, 0xB9Aint), (0xB9Cint, 0xB9Cint), (0xB9Eint, 0xB9Fint)]
}

pub open spec fn other_letter_chunk_10() -> Seq<SRange> {
    seq![(0xBA3int, 0xBA4int), (0xBA8int, 0xBAAint), (0xBAEint, 0xBB9int), (0xBD0int, 0xBD0int), (0xC05int, 0xC0Cint), (0xC0Eint, 0xC10int), (0xC12int, 0xC28int), (0xC2Aint, 0xC39int)]
}

pub open spec fn other_letter_chunk_11() -> Seq<SRange> {
    seq![(0xC3Dint, 0xC3Dint), (0xC58int, 0xC5Aint), (0xC5Dint, 0xC5Dint), (0xC60int, 0xC61int), (0xC80int, 0xC80int), (0xC85int, 0xC8Cint), (0xC8Eint, 0xC90int), (0xC92int, 0xCA8int)]
}

pub open spec fn other_letter_chunk_12() -> Seq<SRange> {
    seq![(0xCAAint, 0xCB3int), (0xCB5int, 0xCB9int), (0xCBDint, 0xCBDint), (0xCDDint, 0xCDEint), (0xCE0int, 0xCE1int), (0xCF1int, 0xCF2int), (0xD04int, 0xD0Cint), (0xD0Eint, 0xD10int)]
}

pub open spec fn other_letter_chunk_13() -> Seq<SRange> {
    seq![(0xD12int, 0xD3Aint), (0xD3Dint, 0xD3Dint), (0xD4Eint, 0xD4Eint), (0xD54int, 0xD56int), (0xD5Fint, 0xD61int), (0xD7Aint, 0xD7Fint), (0xD85int, 0xD96int), (0xD9Aint, 0xDB1int)]
}

pub open spec fn other_letter_chunk_14() -> Seq<SRange> {
    seq![(0xDB3int, 0xDBBint), (0xDBDint, 0xDBDint), (0xDC0int, 0xDC6int), (0xE01int, 0xE30int), (0xE32int, 0xE33int), (0xE40int, 0xE45int), (0xE81int, 0xE82int), (0xE84int, 0xE84int)]
}

pub open spec fn other_letter_chunk_15() -> Seq<SRange> {
    seq![(0xE86int, 0xE8Aint), (0xE8Cint, 0xEA3int), (0xEA5int, 0xEA5int), (0xEA7int, 0xEB0int), (0xEB2int, 0xEB3int), (0xEBDint, 0xEBDint), (0xEC0int, 0xEC4int), (0xEDCint, 0xEDFint)]
}

pub open spec fn other_letter_chunk_16() -> Seq<SRange> {
    seq![(0xF00int, 0xF00int), (0xF40int, 0xF47int), (0xF49int, 0xF6Cint), (0xF88int, 0xF8Cint), (0x1000int, 0x102Aint), (0x103Fint, 0x103Fint), (0x1050int, 0x1055int), (0x105Aint, 0x105Dint)]
}

pub open spec fn other_letter_chunk_17() -> Seq<SRange> {
    seq![(0x1061int, 0x1061int), (0x1065int, 0x1066int), (0x106Eint, 0x1070int), (0x1075int, 0x1081int), (0x108Eint, 0x108Eint), (0x1100int, 0x1248int), (0x124Aint, 0x124Dint), (0x1250int, 0x1256int)]
}

pub open spec fn other_letter_chunk_18() -> Seq<SRange> {
    seq![(0x1258int, 0x1258int), (0x125Aint, 0x125Dint), (0x1260int, 0x1288int), (0x128Aint, 0x128Dint), (0x1290int, 0x12B0int), (0x12B2int, 0x12B5int), (0x12B8int, 0x12BEint), (0x12C0int, 0x12C0int)]
}

pub open spec fn other_letter_chunk_19() -> Seq<SRange> {
    seq![(0x12C2int, 0x12C5int), (0x12C8int, 0x12D6int), (0x12D8int, 0x1310int), (0x1312int, 0x1315int), (0x1318int, 0x135Aint), (0x1380int, 0x138Fint), (0x1401int, 0x166Cint), (0x166Fint, 0x167Fint)]
}

pub open spec fn other_letter_chunk_20() -> Seq<SRange> {
    seq![(0x1681int, 0x169Aint), (0x16A0int, 0x16EAint), (0x16F1int, 0x16F8int), (0x1700int, 0x1711int), (0x171Fint, 0x1731int), (0x1740int, 0x1751int), (0x1760int, 0x176Cint), (0x176Eint, 0x1770int)]
}

pub open spec fn other_letter_chunk_21() -> Seq<SRange> {
    seq![(0x1780int, 0x17B3int), (0x17DCint, 0x17DCint), (0x1820int, 0x1842int), (0x1844int, 0x1878int), (0x1880int, 0x1884int), (0x1887int, 0x18A8int), (0x18AAint, 0x18AAint), (0x18B0int, 0x18F5int)]
}

pub open spec fn other_letter_chunk_22() -> Seq<SRange> {
    seq![(0x1900int, 0x191Eint), (0x1950int, 0x196Dint), (0x1970int, 0x1974int), (0x1980int, 0x19ABint), (0x19B0int, 0x19C9int), (0x1A00int, 0x1A16int), (0x1A20int, 0x1A54int), (0x1B05int, 0x1B33int)]
}

pub open spec fn other_letter_chunk_23() -> Seq<SRange> {
    seq![(0x1B45int, 0x1B4Cint), (0x1B83int, 0x1BA0int), (0x1BAEint, 0x1BAFint), (0x1BBAint, 0x1BE5int), (0x1C00int, 0x1C23int), (0x1C4Dint, 0x1C4Fint), (0x1C5Aint, 0x1C77int), (0x1CE9int, 0x1CECint)]
}

pub open spec fn other_letter_chunk_24() -> Seq<SRange> {
    seq![(0x1CEEint, 0x1CF3int), (0x1CF5int, 0x1CF6int), (0x1CFAint, 0x1CFAint), (0x2135int, 0x2138int), (0x2D30int, 0x2D67int), (0x2D80int, 0x2D96int), (0x2DA0int, 0x2DA6int), (0x2DA8int, 0x2DAEint)]
}

pub open spec fn other_letter_chunk_25() -> Seq<SRange> {
    seq![(0x2DB0int, 0x2DB6int), (0x2DB8int, 0x2DBEint), (0x2DC0int, 0x2DC6int), (0x2DC8int, 0x2DCEint), (0x2DD0int, 0x2DD6int), (0x2DD8int, 0x2DDEint), (0x3006int, 0x3006int), (0x303Cint, 0x303Cint)]
}

pub open spec fn other_letter_chunk_26() -> Seq<SRange> {
    seq![(0x3041int, 0x3096int), (0x309Fint, 0x309Fint), (0x30A1int, 0x30FAint), (0x30FFint, 0x30FFint), (0x3105int, 0x312Fint), (0x3131int, 0x318Eint), (0x31A0int, 0x31BFint), (0x31F0int, 0x31FFint)]
}

pub open spec fn other_letter_chunk_27() -> Seq<SRange> {
    seq![(0x3400int, 0x4DBFint), (0x4E00int, 0xA014int), (0xA016int, 0xA48Cint), (0xA4D0int, 0xA4F7int), (0xA500int, 0xA60Bint), (0xA610int, 0xA61Fint), (0xA62Aint, 0xA62Bint), (0xA66Eint, 0xA66Eint)]
}

pub open spec fn other_letter_chunk_28() -> Seq<SRange> {
    seq![(0xA6A0int, 0xA6E5int), (0xA78Fint, 0xA78Fint), (0xA7F7int, 0xA7F7int), (0xA7FBint, 0xA801int), (0xA803int, 0xA805int), (0xA807int, 0xA80Aint), (0xA80Cint, 0xA822int), (0xA840int, 0xA873int)]
}

pub open spec fn other_letter_chunk_29() -> Seq<SRange> {
    seq![(0xA882int, 0xA8B3int), (0xA8F2int, 0xA8F7int), (0xA8FBint, 0xA8FBint), (0xA8FDint, 0xA8FEint), (0xA90Aint, 0xA925int), (0xA930int, 0xA946int), (0xA960int, 0xA97Cint), (0xA984int, 0xA9B2int)]
}

pub open spec fn other_letter_chunk_30() -> Seq<SRange> {
    seq![(0xA9E0int, 0xA9E4int), (0xA9E7int, 0xA9EFint), (0xA9FAint, 0xA9FEint), (0xAA00int, 0xAA28int), (0xAA40int, 0xAA42int), (0xAA44int, 0xAA4Bint), (0xAA60int, 0xAA6Fint), (0xAA71int, 0xAA76int)]
}

pub open spec fn other_letter_chunk_31() -> Seq<SRange> {
    seq![(0xAA7Aint, 0xAA7Aint), (0xAA7Eint, 0xAAAFint), (0xAAB1int, 0xAAB1int), (0xAAB5int, 0xAAB6int), (0xAAB9int, 0xAABDint), (0xAAC0int, 0xAAC0int), (0xAAC2int, 0xAAC2int), (0xAADBint, 0xAADCint)]
}

pub open spec fn other_letter_chunk_32() -> Seq<SRange> {
    seq![(0xAAE0int, 0xAAEAint), (0xAAF2int, 0xAAF2int), (0xAB01int, 0xAB06int), (0xAB09int, 0xAB0Eint), (0xAB11int, 0xAB16int), (0xAB20int, 0xAB26int), (0xAB28int, 0xAB2Eint), (0xABC0int, 0xABE2int)]
}

pub open spec fn other_letter_chunk_33() -> Seq<SRange> {
    seq![(0xAC00int, 0xD7A3int), (0xD7B0int, 0xD7C6int), (0xD7CBint, 0xD7FBint), (0xF900int, 0xFA6Dint), (0xFA70int, 0xFAD9int), (0xFB1Dint, 0xFB1Dint), (0xFB1Fint, 0xFB28int), (0xFB2Aint, 0xFB36int)]
}

pub open spec fn other_letter_chunk_34() -> Seq<SRange> {
    seq![(0xFB38int, 0xFB3Cint), (0xFB3Eint, 0xFB3Eint), (0xFB40int, 0xFB41int), (0xFB43int, 0xFB44int), (0xFB46int, 0xFBB1int), (0xFBD3int, 0xFD3Dint), (0xFD50int, 0xFD8Fint), (0xFD92int, 0xFDC7int)]
}

pub open spec fn other_letter_chunk_35() -> Seq<SRange> {
    seq![(0xFDF0int, 0xFDFBint), (0xFE70int, 0xFE74int), (0xFE76int, 0xFEFCint), (0xFF66int, 0xFF6Fint), (0xFF71int, 0xFF9Dint), (0xFFA0int, 0xFFBEint), (0xFFC2int, 0xFFC7int), (0xFFCAint, 0xFFCFint)]
}

pub open spec fn other_letter_chunk_36() -> Seq<SRange> {
    seq![(0xFFD2int, 0xFFD7int), (0xFFDAint, 0xFFDCint), (0x10000int, 0x1000Bint), (0x1000Dint, 0x10026int), (0x10028int, 0x1003Aint), (0x1003Cint, 0x1003Dint), (0x1003Fint, 0x1004Dint), (0x10050int, 0x1005Dint)]
}

pub open spec fn other_letter_chunk_37() -> Seq<SRange> {
    seq![(0x10080int, 0x100FAint), (0x10280int, 0x1029Cint), (0x102A0int, 0x102D0int), (0x10300int, 0x1031Fint), (0x1032Dint, 0x10340int), (0x10342int, 0x10349int), (0x10350int, 0x10375int), (0x10380int, 0x1039Dint)]
}

pub open spec fn other_letter_chunk_38() -> Seq<SRange> {
    seq![(0x103A0int, 0x103C3int), (0x103C8int, 0x103CFint), (0x10450int, 0x1049Dint), (0x10500int, 0x10527int), (0x10530int, 0x10563int), (0x105C0int, 0x105F3int), (0x10600int, 0x10736int), (0x10740int, 0x10755int)]
}

pub open spec fn other_letter_chunk_39() -> Seq<SRange> {
    seq![(0x10760int, 0x10767int), (0x10800int, 0x10805int), (0x10808int, 0x10808int), (0x1080Aint, 0x10835int), (0x10837int, 0x10838int), (0x1083Cint, 0x1083Cint), (0x1083Fint, 0x10855int), (0x10860int, 0x10876int)]
}

pub open spec fn other_letter_chunk_40() -> Seq<SRange> {
    seq![(0x10880int, 0x1089Eint), (0x108E0int, 0x108F2int), (0x108F4int, 0x108F5int), (0x10900int, 0x10915int), (0x10920int, 0x10939int), (0x10980int, 0x109B7int), (0x109BEint, 0x109BFint), (0x10A00int, 0x10A00int)]
}

pub open spec fn other_letter_chunk_41() -> Seq<SRange> {
    seq![(0x10A10int, 0x10A13int), (0x10A15int, 0x10A17int), (0x10A19int, 0x10A35int), (0x10A60int, 0x10A7Cint), (0x10A80int, 0x10A9Cint), (0x10AC0int, 0x10AC7int), (0x10AC9int, 0x10AE4int), (0x10B00int, 0x10B35int)]
}

pub open spec fn other_letter_chunk_42() -> Seq<SRange> {
    seq![(0x10B40int, 0x10B55int), (0x10B60int, 0x10B72int), (0x10B80int, 0x10B91int), (0x10C00int, 0x10C48int), (0x10D00int, 0x10D23int), (0x10D4Aint, 0x10D4Dint), (0x10D4Fint, 0x10D4Fint), (0x10E80int, 0x10EA9int)]
}

pub open spec fn other_letter_chunk_43() -> Seq<SRange> {
    seq![(0x10EB0int, 0x10EB1int), (0x10EC2int, 0x10EC4int), (0x10F00int, 0x10F1Cint), (0x10F27int, 0x10F27int), (0x10F30int, 0x10F45int), (0x10F70int, 0x10F81int), (0x10FB0int, 0x10FC4int), (0x10FE0int, 0x10FF6int)]
}

pub open spec fn other_letter_chunk_44() -> Seq<SRange> {
    seq![(0x11003int, 0x11037int), (0x11071int, 0x11072int), (0x11075int, 0x11075int), (0x11083int, 0x110AFint), (0x110D0int, 0x110E8int), (0x11103int, 0x11126int), (0x11144int, 0x11144int), (0x11147int, 0x11147int)]
}

pub open spec fn other_letter_chunk_45() -> Seq<SRange> {
    seq![(0x11150int, 0x11172int), (0x11176int, 0x11176int), (0x11183int, 0x111B2int), (0x111C1int, 0x111C4int), (0x111DAint, 0x111DAint), (0x111DCint, 0x111DCint), (0x11200int, 0x11211int), (0x11213int, 0x1122Bint)]
}

pub open spec fn other_letter_chunk_46() -> Seq<SRange> {
    seq![(0x1123Fint, 0x11240int), (0x11280int, 0x11286int), (0x11288int, 0x11288int), (0x1128Aint, 0x1128Dint), (0x1128Fint, 0x1129Dint), (0x1129Fint, 0x112A8int), (0x112B0int, 0x112DEint), (0x11305int, 0x1130Cint)]
}

pub open spec fn other_letter_chunk_47() -> Seq<SRange> {
    seq![(0x1130Fint, 0x11310int), (0x11313int, 0x11328int), (0x1132Aint, 0x11330int), (0x11332int, 0x11333int), (0x11335int, 0x11339int), (0x1133Dint, 0x1133Dint), (0x11350int, 0x11350int), (0x1135Dint, 0x11361int)]
}

pub open spec fn other_letter_chunk_48() -> Seq<SRange> {
    seq![(0x11380int, 0x11389int), (0x1138Bint, 0x1138Bint), (0x1138Eint, 0x1138Eint), (0x11390int, 0x113B5int), (0x113B7int, 0x113B7int), (0x113D1int, 0x113D1int), (0x113D3int, 0x113D3int), (0x11400int, 0x11434int)]
}

pub open spec fn other_letter_chunk_49() -> Seq<SRange> {
    seq![(0x11447int, 0x1144Aint), (0x1145Fint, 0x11461int), (0x11480int, 0x114AFint), (0x114C4int, 0x114C5int), (0x114C7int, 0x114C7int), (0x11580int, 0x115AEint), (0x115D8int, 0x115DBint), (0x11600int, 0x1162Fint)]
}

pub open spec fn other_letter_chunk_50() -> Seq<SRange> {
    seq![(0x11644int, 0x11644int), (0x11680int, 0x116AAint), (0x116B8int, 0x116B8int), (0x11700int, 0x1171Aint), (0x11740int, 0x11746int), (0x11800int, 0x1182Bint), (0x118FFint, 0x11906int), (0x11909int, 0x11909int)]
}

pub open spec fn other_letter_chunk_51() -> Seq<SRange> {
    seq![(0x1190Cint, 0x11913int), (0x11915int, 0x11916int), (0x11918int, 0x1192Fint), (0x1193Fint, 0x1193Fint), (0x11941int, 0x11941int), (0x119A0int, 0x119A7int), (0x119AAint, 0x119D0int), (0x119E1int, 0x119E1int)]
}

pub open spec fn other_letter_chunk_52() -> Seq<SRange> {
    seq![(0x119E3int, 0x119E3int), (0x11A00int, 0x11A00int), (0x11A0Bint, 0x11A32int), (0x11A3Aint, 0x11A3Aint), (0x11A50int, 0x11A50int), (0x11A5Cint, 0x11A89int), (0x11A9Dint, 0x11A9Dint), (0x11AB0int, 0x11AF8int)]
}

pub open spec fn other_letter_chunk_53() -> Seq<SRange> {
    seq![(0x11BC0int, 0x11BE0int), (0x11C00int, 0x11C08int), (0x11C0Aint, 0x11C2Eint), (0x11C40int, 0x11C40int), (0x11C72int, 0x11C8Fint), (0x11D00int, 0x11D06int), (0x11D08int, 0x11D09int), (0x11D0Bint, 0x11D30int)]
}

pub open spec fn other_letter_chunk_54() -> Seq<SRange> {
    seq![(0x11D46int, 0x11D46int), (0x11D60int, 0x11D65int), (0x11D67int, 0x11D68int), (0x11D6Aint, 0x11D89int), (0x11D98int, 0x11D98int), (0x11EE0int, 0x11EF2int), (0x11F02int, 0x11F02int), (0x11F04int, 0x11F10int)]
}

pub open spec fn other_letter_chunk_55() -> Seq<SRange> {
    seq![(0x11F12int, 0x11F33int), (0x11FB0int, 0x11FB0int), (0x12000int, 0x12399int), (0x12480int, 0x12543int), (0x12F90int, 0x12FF0int), (0x13000int, 0x1342Fint), (0x13441int, 0x13446int), (0x13460int, 0x143FAint)]
}

pub open spec fn other_letter_chunk_56() -> Seq<SRange> {
    seq![(0x14400int, 0x14646int), (0x16100int, 0x1611Dint), (0x16800int, 0x16A38int), (0x16A40int, 0x16A5Eint), (0x16A70int, 0x16ABEint), (0x16AD0int, 0x16AEDint), (0x16B00int, 0x16B2Fint), (0x16B63int, 0x16B77int)]
}

pub open spec fn other_letter_chunk_57() -> Seq<SRange> {
    seq![(0x16B7Dint, 0x16B8Fint), (0x16D43int, 0x16D6Aint), (0x16F00int, 0x16F4Aint), (0x16F50int, 0x16F50int), (0x17000int, 0x187F7int), (0x18800int, 0x18CD5int), (0x18CFFint, 0x18D08int), (0x1B000int, 0x1B122int)]
}

pub open spec fn other_letter_chunk_58() -> Seq<SRange> {
    seq![(0x1B132int, 0x1B132int), (0x1B150int, 0x1B152int), (0x1B155int, 0x1B155int), (0x1B164int, 0x1B167int), (0x1B170int, 0x1B2FBint), (0x1BC00int, 0x1BC6Aint), (0x1BC70int, 0x1BC7Cint), (0x1BC80int, 0x1BC88int)]
}

pub open spec fn other_letter_chunk_59() -> Seq<SRange> {
    seq![(0x1BC90int, 0x1BC99int), (0x1DF0Aint, 0x1DF0Aint), (0x1E100int, 0x1E12Cint), (0x1E14Eint, 0x1E14Eint), (0x1E290int, 0x1E2ADint), (0x1E2C0int, 0x1E2EBint), (0x1E4D0int, 0x1E4EAint), (0x1E5D0int, 0x1E5EDint)]
}

pub open spec fn other_letter_chunk_60() -> Seq<SRange> {
    seq![(0x1E5F0int, 0x1E5F0int), (0x1E7E0int, 0x1E7E6int), (0x1E7E8int, 0x1E7EBint), (0x1E7EDint, 0x1E7EEint), (0x1E7F0int, 0x1E7FEint), (0x1E800int, 0x1E8C4int), (0x1EE00int, 0x1EE03int), (0x1EE05int, 0x1EE1Fint)]
}

pub open spec fn other_letter_chunk_61() -> Seq<SRange> {
    seq![(0x1EE21int, 0x1EE22int), (0x1EE24int, 0x1EE24int), (0x1EE27int, 0x1EE27int), (0x1EE29int, 0x1EE32int), (0x1EE34int, 0x1EE37int), (0x1EE39int, 0x1EE39int), (0x1EE3Bint, 0x1EE3Bint), (0x1EE42int, 0x1EE42int)]
}

pub open spec fn other_letter_chunk_62() -> Seq<SRange> {
    seq![(0x1EE47int, 0x1EE47int), (0x1EE49int, 0x1EE49int), (0x1EE4Bint, 0x1EE4Bint), (0x1EE4Dint, 0x1EE4Fint), (0x1EE51int, 0x1EE52int), (0x1EE54int, 0x1EE54int), (0x1EE57int, 0x1EE57int), (0x1EE59int, 0x1EE59int)]
}

pub open spec fn other_letter_chunk_63() -> Seq<SRange> {
    seq![(0x1EE5Bint, 0x1EE5Bint), (0x1EE5Dint, 0x1EE5Dint), (0x1EE5Fint, 0x1EE5Fint), (0x1EE61int, 0x1EE62int), (0x1EE64int, 0x1EE64int), (0x1EE67int, 0x1EE6Aint), (0x1EE6Cint, 0x1EE72int), (0x1EE74int, 0x1EE77int)]
}

pub open spec fn other_letter_chunk_64() -> Seq<SRange> {
    seq![(0x1EE79int, 0x1EE7Cint), (0x1EE7Eint, 0x1EE7Eint), (0x1EE80int, 0x1EE89int), (0x1EE8Bint, 0x1EE9Bint), (0x1EEA1int, 0x1EEA3int), (0x1EEA5int, 0x1EEA9int), (0x1EEABint, 0x1EEBBint), (0x20000int, 0x2A6DFint)]
}

pub open spec fn other_letter_chunk_65() -> Seq<SRange> {
    seq![(0x2A700int, 0x2B739int), (0x2B740int, 0x2B81Dint), (0x2B820int, 0x2CEA1int), (0x2CEB0int, 0x2EBE0int), (0x2EBF0int, 0x2EE5Dint), (0x2F800int, 0x2FA1Dint), (0x30000int, 0x3134Aint), (0x31350int, 0x323AFint)]
}

pub open spec fn other_letter_block_0() -> Seq<SRange> {
    other_letter_chunk_0() + other_letter_chunk_1() + other_letter_chunk_2() + other_letter_chunk_3() + other_letter_chunk_4() + other_letter_chunk_5() + other_letter_chunk_6() + other_letter_chunk_7() + other_letter_chunk_8() + other_letter_chunk_9()
}

pub open spec fn other_letter_block_1() -> Seq<SRange> {
    other_letter_chunk_10() + other_letter_chunk_11() + other_letter_chunk_12() + other_letter_chunk_13() + other_letter_chunk_14() + other_letter_chunk_15() + other_letter_chunk_16() + other_letter_chunk_17() + other_letter_chunk_18() + other_letter_chunk_19()
}

pub open spec fn other_letter_block_2() -> Seq<SRange> {
    other_letter_chunk_20() + other_letter_chunk_21() + other_letter_chunk_22() + other_letter_chunk_23() + other_letter_chunk_24() + other_letter_chunk_25() + other_letter_chunk_26() + other_letter_chunk_27() + other_letter_chunk_28() + other_letter_chunk_29()
}

pub open spec fn other_letter_block_3() -> Seq<SRange> {
    other_letter_chunk_30() + other_letter_chunk_31() + other_letter_chunk_32() + other_letter_chunk_33() + other_letter_chunk_34() + other_letter_chunk_35() + other_letter_chunk_36() + other_letter_chunk_37() + other_letter_chunk_38() + other_letter_chunk_39()
}

pub open spec fn other_letter_block_4() -> Seq<SRange> {
    other_letter_chunk_40() + other_letter_chunk_41() + other_letter_chunk_42() + other_letter_chunk_43() + other_letter_chunk_44() + other_letter_chunk_45() + other_letter_chunk_46() + other_letter_chunk_47() + other_letter_chunk_48() + other_letter_chunk_49()
}

pub open spec fn other_letter_block_5() -> Seq<SRange> {
    other_letter_chunk_50() + other_letter_chunk_51() + other_letter_chunk_52() + other_letter_chunk_53() + other_letter_chunk_54() + other_letter_chunk_55() + other_letter_chunk_56() + other_letter_chunk_57() + other_letter_chunk_58() + other_letter_chunk_59()
}

pub open spec fn other_letter_block_6() -> Seq<SRange> {
    other_letter_chunk_60() + other_letter_chunk_61() + other_letter_chunk_62() + other_letter_chunk_63() + other_letter_chunk_64() + other_letter_chunk_65()
}

/// The ranges of the general category Other_Letter.
pub open spec fn other_letter_ranges() -> Seq<SRange> {
    other_letter_block_0() + other_letter_block_1() + other_letter_block_2() + other_letter_block_3() + other_letter_block_4() + other_letter_block_5() + other_letter_block_6()
}

proof fn lemma_other_letter_block_0()
    ensures
        canonical(other_letter_block_0()),
        other_letter_block_0().len() > 0,
        other_letter_block_0()[0] == other_letter_chunk_0()[0],
        other_letter_block_0().last() == other_letter_chunk_9().last(),
{
    reveal_with_fuel(canonical, 9);
    assert(canonical(other_letter_chunk_0()));
    assert(canonical(other_letter_chunk_1()));
    assert(canonical(other_letter_chunk_2()));
    assert(canonical(other_letter_chunk_3()));
    assert(canonical(other_letter_chunk_4()));
    assert(canonical(other_letter_chunk_5()));
    assert(canonical(other_letter_chunk_6()));
    assert(canonical(other_letter_chunk_7()));
    assert(canonical(other_letter_chunk_8()));
    assert(canonical(other_letter_chunk_9()));
    lemma_canonical_append(other_letter_chunk_0(), other_letter_chunk_1());
    lemma_canonical_append(other_letter_chunk_0() + other_letter_chunk_1(), other_letter_chunk_2());
    lemma_canonical_append(other_letter_chunk_0() + other_letter_chunk_1() + other_letter_chunk_2(), other_letter_chunk_3());
    lemma_canonical_append(other_letter_chunk_0() + other_letter_chunk_1() + other_letter_chunk_2() + other_letter_chunk_3(), other_letter_chunk_4());
    lemma_canonical_append(other_letter_chunk_0() + other_letter_chunk_1() + other_letter_chunk_2() + other_letter_chunk_3() + other_letter_chunk_4(), other_letter_chunk_5());
    lemma_canonical_append(other_letter_chunk_0() + other_letter_chunk_1() + other_letter_chunk_2() + other_letter_chunk_3() + other_letter_chunk_4() + other_letter_chunk_5(), other_letter_chunk_6());
    lemma_canonical_append(other_letter_chunk_0() + other_letter_chunk_1() + other_letter_chunk_2() + other_letter_chunk_3() + other_letter_chunk_4() + other_letter_chunk_5() + other_letter_chunk_6(), other_letter_chunk_7());
    lemma_canonical_append(other_letter_chunk_0() + other_letter_chunk_1() + other_letter_chunk_2() + other_letter_chunk_3() + other_letter_chunk_4() + other_letter_chunk_5() + other_letter_chunk_6() + other_letter_chunk_7(), other_letter_chunk_8());
    lemma_canonical_append(other_letter_chunk_0() + other_letter_chunk_1() + other_letter_chunk_2() + other_letter_chunk_3() + other_letter_chunk_4() + other_letter_chunk_5() + other_letter_chunk_6() + other_letter_chunk_7() + other_letter_chunk_8(), other_letter_chunk_9());
}

proof fn lemma_other_letter_block_1()
    ensures
        canonical(other_letter_block_1()),
        other_letter_block_1().len() > 0,
        other_letter_block_1()[0] == other_letter_chunk_10()[0],
        other_letter_block_1().last() == other_letter_chunk_19().last(),
{
    reveal_with_fuel(canonical, 9);
    assert(canonical(other_letter_chunk_10()));
    assert(canonical(other_letter_chunk_11()));
    assert(canonical(other_letter_chunk_12()));
    assert(canonical(other_letter_chunk_13()));
    assert(canonical(other_letter_chunk_14()));
    assert(canonical(other_letter_chunk_15()));
    assert(canonical(other_letter_chunk_16()));
    assert(canonical(other_letter_chunk_17()));
    assert(canonical(other_letter_chunk_18()));
    assert(canonical(other_letter_chunk_19()));
    lemma_canonical_append(other_letter_chunk_10(), other_letter_chunk_11());
    lemma_canonical_append(other_letter_chunk_10() + other_letter_chunk_11(), other_letter_chunk_12());
    lemma_canonical_append(other_letter_chunk_10() + other_letter_chunk_11() + other_letter_chunk_12(), other_letter_chunk_13());
    lemma_canonical_append(other_letter_chunk_10() + other_letter_chunk_11() + other_letter_chunk_12() + other_letter_chunk_13(), other_letter_chunk_14());
    lemma_canonical_append(other_letter_chunk_10() + other_letter_chunk_11() + other_letter_chunk_12() + other_letter_chunk_13() + other_letter_chunk_14(), other_letter_chunk_15());
    lemma_canonical_append(other_letter_chunk_10() + other_letter_chunk_11() + other_letter_chunk_12() + other_letter_chunk_13() + other_letter_chunk_14() + other_letter_chunk_15(), other_letter_chunk_16());
    lemma_canonical_append(other_letter_chunk_10() + other_letter_chunk_11() + other_letter_chunk_12() + other_letter_chunk_13() + other_letter_chunk_14() + other_letter_chunk_15() + other_letter_chunk_16(), other_letter_chunk_17());
    lemma_canonical_append(other_letter_chunk_10() + other_letter_chunk_11() + other_letter_chunk_12() + other_letter_chunk_13() + other_letter_chunk_14() + other_letter_chunk_15() + other_letter_chunk_16() + other_letter_chunk_17(), other_letter_chunk_18());
    lemma_canonical_append(other_letter_chunk_10() + other_letter_chunk_11() + other_letter_chunk_12() + other_letter_chunk_13() + other_letter_chunk_14() + other_letter_chunk_15() + other_letter_chunk_16() + other_letter_chunk_17() + other_letter_chunk_18(), other_letter_chunk_19());
}

proof fn lemma_other_letter_block_2()
    ensures
        canonical(other_letter_block_2()),
        other_letter_block_2().len() > 0,
        other_letter_block_2()[0] == other_letter_chunk_20()[0],
        other_letter_block_2().last() == other_letter_chunk_29().last(),
{
    reveal_with_fuel(canonical, 9);
    assert(canonical(other_letter_chunk_20()));
    assert(canonical(other_letter_chunk_21()));
    assert(canonical(other_letter_chunk_22()));
    assert(canonical(other_letter_chunk_23()));
    assert(canonical(other_letter_chunk_24()));
    assert(canonical(other_letter_chunk_25()));
    assert(canonical(other_letter_chunk_26()));
    assert(canonical(other_letter_chunk_27()));
    assert(canonical(other_letter_chunk_28()));
    assert(canonical(other_letter_chunk_29()));
    lemma_canonical_append(other_letter_chunk_20(), other_letter_chunk_21());
    lemma_canonical_append(other_letter_chunk_20() + other_letter_chunk_21(), other_letter_chunk_22());
    lemma_canonical_append(other_letter_chunk_20() + other_letter_chunk_21() + other_letter_chunk_22(), other_letter_chunk_23());
    lemma_canonical_append(other_letter_chunk_20() + other_letter_chunk_21() + other_letter_chunk_22() + other_letter_chunk_23(), other_letter_chunk_24());
    lemma_canonical_append(other_letter_chunk_20() + other_letter_chunk_21() + other_letter_chunk_22() + other_letter_chunk_23() + other_letter_chunk_24(), other_letter_chunk_25());
    lemma_canonical_append(other_letter_chunk_20() + other_letter_chunk_21() + other_letter_chunk_22() + other_letter_chunk_23() + other_letter_chunk_24() + other_letter_chunk_25(), other_letter_chunk_26());
    lemma_canonical_append(other_letter_chunk_20() + other_letter_chunk_21() + other_letter_chunk_22() + other_letter_chunk_23() + other_letter_chunk_24() + other_letter_chunk_25() + other_letter_chunk_26(), other_letter_chunk_27());
    lemma_canonical_append(other_letter_chunk_20() + other_letter_chunk_21() + other_letter_chunk_22() + other_letter_chunk_23() + other_letter_chunk_24() + other_letter_chunk_25() + other_letter_chunk_26() + other_letter_chunk_27(), other_letter_chunk_28());
    lemma_canonical_append(other_letter_chunk_20() + other_letter_chunk_21() + other_letter_chunk_22() + other_letter_chunk_23() + other_letter_chunk_24() + other_letter_chunk_25() + other_letter_chunk_26() + other_letter_chunk_27() + other_letter_chunk_28(), other_letter_chunk_29());
}

proof fn lemma_other_letter_block_3()
    ensures
        canonical(other_letter_block_3()),
        other_letter_block_3().len() > 0,
        other_letter_block_3()[0] == other_letter_chunk_30()[0],
        other_letter_block_3().last() == other_letter_chunk_39().last(),
{
    reveal_with_fuel(canonical, 9);
    assert(canonical(other_letter_chunk_30()));
    assert(canonical(other_letter_chunk_31()));
    assert(canonical(other_letter_chunk_32()));
    assert(canonical(other_letter_chunk_33()));
    assert(canonical(other_letter_chunk_34()));
    assert(canonical(other_letter_chunk_35()));
    assert(canonical(other_letter_chunk_36()));
    assert(canonical(other_letter_chunk_37()));
    assert(canonical(other_letter_chunk_38()));
    assert(canonical(other_letter_chunk_39()));
    lemma_canonical_append(other_letter_chunk_30(), other_letter_chunk_31());
    lemma_canonical_append(other_letter_chunk_30() + other_letter_chunk_31(), other_letter_chunk_32());
    lemma_canonical_append(other_letter_chunk_30() + other_letter_chunk_31() + other_letter_chunk_32(), other_letter_chunk_33());
    lemma_canonical_append(other_letter_chunk_30() + other_letter_chunk_31() + other_letter_chunk_32() + other_letter_chunk_33(), other_letter_chunk_34());
    lemma_canonical_append(other_letter_chunk_30() + other_letter_chunk_31() + other_letter_chunk_32() + other_letter_chunk_33() + other_letter_chunk_34(), other_letter_chunk_35());
    lemma_canonical_append(other_letter_chunk_30() + other_letter_chunk_31() + other_letter_chunk_32() + other_letter_chunk_33() + other_letter_chunk_34() + other_letter_chunk_35(), other_letter_chunk_36());
    lemma_canonical_append(other_letter_chunk_30() + other_letter_chunk_31() + other_letter_chunk_32() + other_letter_chunk_33() + other_letter_chunk_34() + other_letter_chunk_35() + other_letter_chunk_36(), other_letter_chunk_37());
    lemma_canonical_append(other_letter_chunk_30() + other_letter_chunk_31() + other_letter_chunk_32() + other_letter_chunk_33() + other_letter_chunk_34() + other_letter_chunk_35() + other_letter_chunk_36() + other_letter_chunk_37(), other_letter_chunk_38());
    lemma_canonical_append(other_letter_chunk_30() + other_letter_chunk_31() + other_letter_chunk_32() + other_letter_chunk_33() + other_letter_chunk_34() + other_letter_chunk_35() + other_letter_chunk_36() + other_letter_chunk_37() + other_letter_chunk_38(), other_letter_chunk_39());
}

proof fn lemma_other_letter_block_4()
    ensures
        canonical(other_letter_block_4()),
        other_letter_block_4().len() > 0,
        other_letter_block_4()[0] == other_letter_chunk_40()[0],
        other_letter_block_4().last() == other_letter_chunk_49().last(),
{
    reveal_with_fuel(canonical, 9);
    assert(canonical(other_letter_chunk_40()));
    assert(canonical(other_letter_chunk_41()));
    assert(canonical(other_letter_chunk_42()));
    assert(canonical(other_letter_chunk_43()));
    assert(canonical(other_letter_chunk_44()));
    assert(canonical(other_letter_chunk_45()));
    assert(canonical(other_letter_chunk_46()));
    assert(canonical(other_letter_chunk_47()));
    assert(canonical(other_letter_chunk_48()));
    assert(canonical(other_letter_chunk_49()));
    lemma_canonical_append(other_letter_chunk_40(), other_letter_chunk_41());
    lemma_canonical_append(other_letter_chunk_40() + other_letter_chunk_41(), other_letter_chunk_42());
    lemma_canonical_append(other_letter_chunk_40() + other_letter_chunk_41() + other_letter_chunk_42(), other_letter_chunk_43());
    lemma_canonical_append(other_letter_chunk_40() + other_letter_chunk_41() + other_letter_chunk_42() + other_letter_chunk_43(), other_letter_chunk_44());
    lemma_canonical_append(other_letter_chunk_40() + other_letter_chunk_41() + other_letter_chunk_42() + other_letter_chunk_43() + other_letter_chunk_44(), other_letter_chunk_45());
    lemma_canonical_append(other_letter_chunk_40() + other_letter_chunk_41() + other_letter_chunk_42() + other_letter_chunk_43() + other_letter_chunk_44() + other_letter_chunk_45(), other_letter_chunk_46());
    lemma_canonical_append(other_letter_chunk_40() + other_letter_chunk_41() + other_letter_chunk_42() + other_letter_chunk_43() + other_letter_chunk_44() + other_letter_chunk_45() + other_letter_chunk_46(), other_letter_chunk_47());
    lemma_canonical_append(other_letter_chunk_40() + other_letter_chunk_41() + other_letter_chunk_42() + other_letter_chunk_43() + other_letter_chunk_44() + other_letter_chunk_45() + other_letter_chunk_46() + other_letter_chunk_47(), other_letter_chunk_48());
    lemma_canonical_append(other_letter_chunk_40() + other_letter_chunk_41() + other_letter_chunk_42() + other_letter_chunk_43() + other_letter_chunk_44() + other_letter_chunk_45() + other_letter_chunk_46() + other_letter_chunk_47() + other_letter_chunk_48(), other_letter_chunk_49());
}

proof fn lemma_other_letter_block_5()
    ensures
        canonical(other_letter_block_5()),
        other_letter_block_5().len() > 0,
        other_letter_block_5()[0] == other_letter_chunk_50()[0],
        other_letter_block_5().last() == other_letter_chunk_59().last(),
{
    reveal_with_fuel(canonical, 9);
    assert(canonical(other_letter_chunk_50()));
    assert(canonical(other_letter_chunk_51()));
    assert(canonical(other_letter_chunk_52()));
    assert(canonical(other_letter_chunk_53()));
    assert(canonical(other_letter_chunk_54()));
    assert(canonical(other_letter_chunk_55()));
    assert(canonical(other_letter_chunk_56()));
    assert(canonical(other_letter_chunk_57()));
    assert(canonical(other_letter_chunk_58()));
    assert(canonical(other_letter_chunk_59()));
    lemma_canonical_append(other_letter_chunk_50(), other_letter_chunk_51());
    lemma_canonical_append(other_letter_chunk_50() + other_letter_chunk_51(), other_letter_chunk_52());
    lemma_canonical_append(other_letter_chunk_50() + other_letter_chunk_51() + other_letter_chunk_52(), other_letter_chunk_53());
    lemma_canonical_append(other_letter_chunk_50() + other_letter_chunk_51() + other_letter_chunk_52() + other_letter_chunk_53(), other_letter_chunk_54());
    lemma_canonical_append(other_letter_chunk_50() + other_letter_chunk_51() + other_letter_chunk_52() + other_letter_chunk_53() + other_letter_chunk_54(), other_letter_chunk_55());
    lemma_canonical_append(other_letter_chunk_50() + other_letter_chunk_51() + other_letter_chunk_52() + other_letter_chunk_53() + other_letter_chunk_54() + other_letter_chunk_55(), other_letter_chunk_56());
    lemma_canonical_append(other_letter_chunk_50() + other_letter_chunk_51() + other_letter_chunk_52() + other_letter_chunk_53() + other_letter_chunk_54() + other_letter_chunk_55() + other_letter_chunk_56(), other_letter_chunk_57());
    lemma_canonical_append(other_letter_chunk_50() + other_letter_chunk_51() + other_letter_chunk_52() + other_letter_chunk_53() + other_letter_chunk_54() + other_letter_chunk_55() + other_letter_chunk_56() + other_letter_chunk_57(), other_letter_chunk_58());
    lemma_canonical_append(other_letter_chunk_50() + other_letter_chunk_51() + other_letter_chunk_52() + other_letter_chunk_53() + other_letter_chunk_54() + other_letter_chunk_55() + other_letter_chunk_56() + other_letter_chunk_57() + other_letter_chunk_58(), other_letter_chunk_59());
}

proof fn lemma_other_letter_block_6()
    ensures
        canonical(other_letter_block_6()),
        other_letter_block_6().len() > 0,
        other_letter_block_6()[0] == other_letter_chunk_60()[0],
        other_letter_block_6().last() == other_letter_chunk_65().last(),
{
    reveal_with_fuel(canonical, 9);
    assert(canonical(other_letter_chunk_60()));
    assert(canonical(other_letter_chunk_61()));
    assert(canonical(other_letter_chunk_62()));
    assert(canonical(other_letter_chunk_63()));
    assert(canonical(other_letter_chunk_64()));
    assert(canonical(other_letter_chunk_65()));
    lemma_canonical_append(other_letter_chunk_60(), other_letter_chunk_61());
    lemma_canonical_append(other_letter_chunk_60() + other_letter_chunk_61(), other_letter_chunk_62());
    lemma_canonical_append(other_letter_chunk_60() + other_letter_chunk_61() + other_letter_chunk_62(), other_letter_chunk_63());
    lemma_canonical_append(other_letter_chunk_60() + other_letter_chunk_61() + other_letter_chunk_62() + other_letter_chunk_63(), other_letter_chunk_64());
    lemma_canonical_append(other_letter_chunk_60() + other_letter_chunk_61() + other_letter_chunk_62() + other_letter_chunk_63() + other_letter_chunk_64(), other_letter_chunk_65());
}

/// The general category Other_Letter is a canonical class.
pub proof fn lemma_other_letter_canonical()
    ensures
        canonical(other_letter_ranges()),
{
    lemma_other_letter_block_0();
    lemma_other_letter_block_1();
    lemma_other_letter_block_2();
    lemma_other_letter_block_3();
    lemma_other_letter_block_4();
    lemma_other_letter_block_5();
    lemma_other_letter_block_6();
    lemma_canonical_append(other_letter_block_0(), other_letter_block_1());
    lemma_canonical_append(other_letter_block_0() + other_letter_block_1(), other_letter_block_2());
    lemma_canonical_append(other_letter_block_0() + other_letter_block_1() + other_letter_block_2(), other_letter_block_3());
    lemma_canonical_append(other_letter_block_0() + other_letter_block_1() + other_letter_block_2() + other_letter_block_3(), other_letter_block_4());
    lemma_canonical_append(other_letter_block_0() + other_letter_block_1() + other_letter_block_2() + other_letter_block_3() + other_letter_block_4(), other_letter_block_5());
    lemma_canonical_append(other_letter_block_0() + other_letter_block_1() + other_letter_block_2() + other_letter_block_3() + other_letter_block_4() + other_letter_block_5(), other_letter_block_6());
}

fn push_other_letter_chunk_0(v: &mut Vec<ClassUnicodeRange>)
    ensures
        rview(final(v)@) == rview(old(v)@) + other_letter_chunk_0(),
{
    let ghost o = rview(v@);
    push_range(v, '\u{AA}', '\u{AA}');
    push_range(v, '\u{BA}', '\u{BA}');
    push_range(v, '\u{1BB}', '\u{1BB}');
    push_range(v, '\u{1C0}', '\u{1C3}');
    push_range(v, '\u{294}', '\u{294}');
    push_range(v, '\u{5D0}', '\u{5EA}');
    push_range(v, '\u{5EF}', '\u{5F2}');
    push_range(v, '\u{620}', '\u{63F}');
    assert(rview(v@) =~= o + other_letter_chunk_0());
}

fn push_other_letter_chunk_1(v: &mut Vec<ClassUnicodeRange>)
    ensures
        rview(final(v)@) == rview(old(v)@) + other_letter_chunk_1(),
{
    let ghost o = rview(v@);
    push_range(v, '\u{641}', '\u{64A}');
    push_range(v, '\u{66E}', '\u{66F}');
    push_range(v, '\u{671}', '\u{6D3}');
    push_range(v, '\u{6D5}', '\u{6D5}');
    push_range(v, '\u{6EE}', '\u{6EF}');
    push_range(v, '\u{6FA}', '\u{6FC}');
    push_range(v, '\u{6FF}', '\u{6FF}');
    push_range(v, '\u{710}', '\u{710}');
    assert(rview(v@) =~= o + other_letter_chunk_1());
}

fn push_other_letter_chunk_2(v: &mut Vec<ClassUnicodeRange>)
    ensures
        rview(final(v)@) == rview(old(v)@) + other_letter_chunk_2(),
{
    let ghost o = rview(v@);
    push_range(v, '\u{712}', '\u{72F}');
    push_range(v, '\u{74D}', '\u{7A5}');
    push_range(v, '\u{7B1}', '\u{7B1}');
    push_range(v, '\u{7CA}', '\u{7EA}');
    push_range(v, '\u{800}', '\u{815}');
    push_range(v, '\u{840}', '\u{858}');
    push_range(v, '\u{860}', '\u{86A}');
    push_range(v, '\u{870}', '\u{887}');
    assert(rview(v@) =~= o + other_letter_chunk_2());
}

fn push_other_letter_chunk_3(v: &mut Vec<ClassUnicodeRange>)
    ensures
        rview(final(v)@) == rview(old(v)@) + other_letter_chunk_3(),
{
    let ghost o = rview(v@);
    push_range(v, '\u{889}', '\u{88E}');
    push_range(v, '\u{8A0}', '\u{8C8}');
    push_range(v, '\u{904}', '\u{939}');
    push_range(v, '\u{93D}', '\u{93D}');
    push_range(v, '\u{950}', '\u{950}');
    push_range(v, '\u{958}', '\u{961}');
    push_range(v, '\u{972}', '\u{980}');
    push_range(v, '\u{985}', '\u{98C}');
    assert(rview(v@) =~= o + other_letter_chunk_3());
}

fn push_other_letter_chunk_4(v: &mut Vec<ClassUnicodeRange>)
    ensures
        rview(final(v)@) == rview(old(v)@) + other_letter_chunk_4(),
{
    let ghost o = rview(v@);
    push_range(v, '\u{98F}', '\u{990}');
    push_range(v, '\u{993}', '\u{9A8}');
    push_range(v, '\u{9AA}', '\u{9B0}');
    push_range(v, '\u{9B2}', '\u{9B2}');
    push_range(v, '\u{9B6}', '\u{9B9}');
    push_range(v, '\u{9BD}', '\u{9BD}');
    push_range(v, '\u{9CE}', '\u{9CE}');
    push_range(v, '\u{9DC}', '\u{9DD}');
    assert(rview(v@) =~= o + other_letter_chunk_4());
}

fn push_other_letter_chunk_5(v: &mut Vec<ClassUnicodeRange>)
    ensures
        rview(final(v)@) == rview(old(v)@) + other_letter_chunk_5(),
{
    let ghost o = rview(v@);
    push_range(v, '\u{9DF}', '\u{9E1}');
    push_range(v, '\u{9F0}', '\u{9F1}');
    push_range(v, '\u{9FC}', '\u{9FC}');
    push_range(v, '\u{A05}', '\u{A0A}');
    push_range(v, '\u{A0F}', '\u{A10}');
    push_range(v, '\u{A13}', '\u{A28}');
    push_range(v, '\u{A2A}', '\u{A30}');
    push_range(v, '\u{A32}', '\u{A33}');
    assert(rview(v@) =~= o + other_letter_chunk_5());
}

fn push_other_letter_chunk_6(v: &mut Vec<ClassUnicodeRange>)
    ensures
        rview(final(v)@) == rview(old(v)@) + other_letter_chunk_6(),
{
    let ghost o = rview(v@);
    push_range(v, '\u{A35}', '\u{A36}');
    push_range(v, '\u{A38}', '\u{A39}');
    push_range(v, '\u{A59}', '\u{A5C}');
    push_range(v, '\u{A5E}', '\u{A5E}');
    push_range(v, '\u{A72}', '\u{A74}');
    push_range(v, '\u{A85}', '\u{A8D}');
    push_range(v, '\u{A8F}', '\u{A91}');
    push_range(v, '\u{A93}', '\u{AA8}');
    assert(rview(v@) =~= o + other_letter_chunk_6());
}

fn push_other_letter_chunk_7(v: &mut Vec<ClassUnicodeRange>)
    ensures
        rview(final(v)@) == rview(old(v)@) + other_letter_chunk_7(),
{
    let ghost o = rview(v@);
    push_range(v, '\u{AAA}', '\u{AB0}');
    push_range(v, '\u{AB2}', '\u{AB3}');
    push_range(v, '\u{AB5}', '\u{AB9}');
    push_range(v, '\u{ABD}', '\u{ABD}');
    push_range(v, '\u{AD0}', '\u{AD0}');
    push_range(v, '\u{AE0}', '\u{AE1}');
    push_range(v, '\u{AF9}', '\u{AF9}');
    push_range(v, '\u{B05}', '\u{B0C}');
    assert(rview(v@) =~= o + other_letter_chunk_7());
}

fn push_other_letter_chunk_8(v: &mut Vec<ClassUnicodeRange>)
    ensures
        rview(final(v)@) == rview(old(v)@) + other_letter_chunk_8(),
{
    let ghost o = rview(v@);
    push_range(v, '\u{B0F}', '\u{B10}');
    push_range(v, '\u{B13}', '\u{B28}');
    push_range(v, '\u{B2A}', '\u{B30}');
    push_range(v, '\u{B32}', '\u{B33}');
    push_range(v, '\u{B35}', '\u{B39}');
    push_range(v, '\u{B3D}', '\u{B3D}');
    push_range(v, '\u{B5C}', '\u{B5D}');
    push_range(v, '\u{B5F}', '\u{B61}');
    assert(rview(v@) =~= o + other_letter_chunk_8());
}

fn push_other_letter_chunk_9(v: &mut Vec<ClassUnicodeRange>)
    ensures
        rview(final(v)@) == rview(old(v)@) + other_letter_chunk_9(),
{
    let ghost o = rview(v@);
    push_range(v, '\u{B71}', '\u{B71}');
    push_range(v, '\u{B83}', '\u{B83}');
    push_range(v, '\u{B85}', '\u{B8A}');
    push_range(v, '\u{B8E}', '\u{B90}');
    push_range(v, '\u{B92}', '\u{B95}');
    push_range(v, '\u{B99}', '\u{B9A}');
    push_range(v, '\u{B9C}', '\u{B9C}');
    push_range(v, '\u{B9E}', '\u{B9F}');
    assert(rview(v@) =~= o + other_letter_chunk_9());
}

fn push_other_letter_chunk_10(v: &mut Vec<ClassUnicodeRange>)
    ensures
        rview(final(v)@) == rview(old(v)@) + other_letter_chunk_10(),
{
    let ghost o = rview(v@);
    push_range(v, '\u{BA3}', '\u{BA4}');
    push_range(v, '\u{BA8}', '\u{BAA}');
    push_range(v, '\u{BAE}', '\u{BB9}');
    push_range(v, '\u{BD0}', '\u{BD0}');
    push_range(v, '\u{C05}', '\u{C0C}');
    push_range(v, '\u{C0E}', '\u{C10}');
    push_range(v, '\u{C12}', '\u{C28}');
    push_range(v, '\u{C2A}', '\u{C39}');
    assert(rview(v@) =~= o + other_letter_chunk_10());
}

fn push_other_letter_chunk_11(v: &mut Vec<ClassUnicodeRange>)
    ensures
        rview(final(v)@) == rview(old(v)@) + other_letter_chunk_11(),
{
    let ghost o = rview(v@);
    push_range(v, '\u{C3D}', '\u{C3D}');
    push_range(v, '\u{C58}', '\u{C5A}');
    push_range(v, '\u{C5D}', '\u{C5D}');
    push_range(v, '\u{C60}', '\u{C61}');
    push_range(v, '\u{C80}', '\u{C80}');
    push_range(v, '\u{C85}', '\u{C8C}');
    push_range(v, '\u{C8E}', '\u{C90}');
    push_range(v, '\u{C92}', '\u{CA8}');
    assert(rview(v@) =~= o + other_letter_chunk_11());
}

fn push_other_letter_chunk_12(v: &mut Vec<ClassUnicodeRange>)
    ensures
        rview(final(v)@) == rview(old(v)@) + other_letter_chunk_12(),
{
    let ghost o = rview(v@);
    push_range(v, '\u{CAA}', '\u{CB3}');
    push_range(v, '\u{CB5}', '\u{CB9}');
    push_range(v, '\u{CBD}', '\u{CBD}');
    push_range(v, '\u{CDD}', '\u{CDE}');
    push_range(v, '\u{CE0}', '\u{CE1}');
    push_range(v, '\u{CF1}', '\u{CF2}');
    push_range(v, '\u{D04}', '\u{D0C}');
    push_range(v, '\u{D0E}', '\u{D10}');
    assert(rview(v@) =~= o + other_letter_chunk_12());
}

fn push_other_letter_chunk_13(v: &mut Vec<ClassUnicodeRange>)
    ensures
        rview(final(v)@) == rview(old(v)@) + other_letter_chunk_13(),
{
    let ghost o = rview(v@);
    push_range(v, '\u{D12}', '\u{D3A}');
    push_range(v, '\u{D3D}', '\u{D3D}');
    push_range(v, '\u{D4E}', '\u{D4E}');
    push_range(v, '\u{D54}', '\u{D56}');
    push_range(v, '\u{D5F}', '\u{D61}');
    push_range(v, '\u{D7A}', '\u{D7F}');
    push_range(v, '\u{D85}', '\u{D96}');
    push_range(v, '\u{D9A}', '\u{DB1}');
    assert(rview(v@) =~= o + other_letter_chunk_13());
}

fn push_other_letter_chunk_14(v: &mut Vec<ClassUnicodeRange>)
    ensures
        rview(final(v)@) == rview(old(v)@) + other_letter_chunk_14(),
{
    let ghost o = rview(v@);
    push_range(v, '\u{DB3}', '\u{DBB}');
    push_range(v, '\u{DBD}', '\u{DBD}');
    push_range(v, '\u{DC0}', '\u{DC6}');
    push_range(v, '\u{E01}', '\u{E30}');
    push_range(v, '\u{E32}', '\u{E33}');
    push_range(v, '\u{E40}', '\u{E45}');
    push_range(v, '\u{E81}', '\u{E82}');
    push_range(v, '\u{E84}', '\u{E84}');
    assert(rview(v@) =~= o + other_letter_chunk_14());
}

fn push_other_letter_chunk_15(v: &mut Vec<ClassUnicodeRange>)
    ensures
        rview(final(v)@) == rview(old(v)@) + other_letter_chunk_15(),
{
    let ghost o = rview(v@);
    push_range(v, '\u{E86}', '\u{E8A}');
    push_range(v, '\u{E8C}', '\u{EA3}');
    push_range(v, '\u{EA5}', '\u{EA5}');
    push_range(v, '\u{EA7}', '\u{EB0}');
    push_range(v, '\u{EB2}', '\u{EB3}');
    push_range(v, '\u{EBD}', '\u{EBD}');
    push_range(v, '\u{EC0}', '\u{EC4}');
    push_range(v, '\u{EDC}', '\u{EDF}');
    assert(rview(v@) =~= o + other_letter_chunk_15());
}

fn push_other_letter_chunk_16(v: &mut Vec<ClassUnicodeRange>)
    ensures
        rview(final(v)@) == rview(old(v)@) + other_letter_chunk_16(),
{
    let ghost o = rview(v@);
    push_range(v, '\u{F00}', '\u{F00}');
    push_range(v, '\u{F40}', '\u{F47}');
    push_range(v, '\u{F49}', '\u{F6C}');
    push_range(v, '\u{F88}', '\u{F8C}');
    push_range(v, '\u{1000}', '\u{102A}');
    push_range(v, '\u{103F}', '\u{103F}');
    push_range(v, '\u{1050}', '\u{1055}');
    push_range(v, '\u{105A}', '\u{105D}');
    assert(rview(v@) =~= o + other_letter_chunk_16());
}

fn push_other_letter_chunk_17(v: &mut Vec<ClassUnicodeRange>)
    ensures
        rview(final(v)@) == rview(old(v)@) + other_letter_chunk_17(),
{
    let ghost o = rview(v@);
    push_range(v, '\u{1061}', '\u{1061}');
    push_range(v, '\u{1065}', '\u{1066}');
    push_range(v, '\u{106E}', '\u{1070}');
    push_range(v, '\u{1075}', '\u{1081}');
    push_range(v, '\u{108E}', '\u{108E}');
    push_range(v, '\u{1100}', '\u{1248}');
    push_range(v, '\u{124A}', '\u{124D}');
    push_range(v, '\u{1250}', '\u{1256}');
    assert(rview(v@) =~= o + other_letter_chunk_17());
}

fn push_other_letter_chunk_18(v: &mut Vec<ClassUnicodeRange>)
    ensures
        rview(final(v)@) == rview(old(v)@) + other_letter_chunk_18(),
{
    let ghost o = rview(v@);
    push_range(v, '\u{1258}', '\u{1258}');
    push_range(v, '\u{125A}', '\u{125D}');
    push_range(v, '\u{1260}', '\u{1288}');
    push_range(v, '\u{128A}', '\u{128D}');
    push_range(v, '\u{1290}', '\u{12B0}');
    push_range(v, '\u{12B2}', '\u{12B5}');
    push_range(v, '\u{12B8}', '\u{12BE}');
    push_range(v, '\u{12C0}', '\u{12C0}');
    assert(rview(v@) =~= o + other_letter_chunk_18());
}

fn push_other_letter_chunk_19(v: &mut Vec<ClassUnicodeRange>)
    ensures
        rview(final(v)@) == rview(old(v)@) + other_letter_chunk_19(),
{
    let ghost o = rview(v@);
    push_range(v, '\u{12C2}', '\u{12C5}');
    push_range(v, '\u{12C8}', '\u{12D6}');
    push_range(v, '\u{12D8}', '\u{1310}');
    push_range(v, '\u{1312}', '\u{1315}');
    push_range(v, '\u{1318}', '\u{135A}');
    push_range(v, '\u{1380}', '\u{138F}');
    push_range(v, '\u{1401}', '\u{166C}');
    push_range(v, '\u{166F}', '\u{167F}');
    assert(rview(v@) =~= o + other_letter_chunk_19());
}

fn push_other_letter_chunk_20(v: &mut Vec<ClassUnicodeRange>)
    ensures
        rview(final(v)@) == rview(old(v)@) + other_letter_chunk_20(),
{
    let ghost o = rview(v@);
    push_range(v, '\u{1681}', '\u{169A}');
    push_range(v, '\u{16A0}', '\u{16EA}');
    push_range(v, '\u{16F1}', '\u{16F8}');
    push_range(v, '\u{1700}', '\u{1711}');
    push_range(v, '\u{171F}', '\u{1731}');
    push_range(v, '\u{1740}', '\u{1751}');
    push_range(v, '\u{1760}', '\u{176C}');
    push_range(v, '\u{176E}', '\u{1770}');
    assert(rview(v@) =~= o + other_letter_chunk_20());
}

fn push_other_letter_chunk_21(v: &mut Vec<ClassUnicodeRange>)
    ensures
        rview(final(v)@) == rview(old(v)@) + other_letter_chunk_21(),
{
    let ghost o = rview(v@);
    push_range(v, '\u{1780}', '\u{17B3}');
    push_range(v, '\u{17DC}', '\u{17DC}');
    push_range(v, '\u{1820}', '\u{1842}');
    push_range(v, '\u{1844}', '\u{1878}');
    push_range(v, '\u{1880}', '\u{1884}');
    push_range(v, '\u{1887}', '\u{18A8}');
    push_range(v, '\u{18AA}', '\u{18AA}');
    push_range(v, '\u{18B0}', '\u{18F5}');
    assert(rview(v@) =~= o + other_letter_chunk_21());
}

fn push_other_letter_chunk_22(v: &mut Vec<ClassUnicodeRange>)
    ensures
        rview(final(v)@) == rview(old(v)@) + other_letter_chunk_22(),
{
    let ghost o = rview(v@);
    push_range(v, '\u{1900}', '\u{191E}');
    push_range(v, '\u{1950}', '\u{196D}');
    push_range(v, '\u{1970}', '\u{1974}');
    push_range(v, '\u{1980}', '\u{19AB}');
    push_range(v, '\u{19B0}', '\u{19C9}');
    push_range(v, '\u{1A00}', '\u{1A16}');
    push_range(v, '\u{1A20}', '\u{1A54}');
    push_range(v, '\u{1B05}', '\u{1B33}');
    assert(rview(v@) =~= o + other_letter_chunk_22());
}

fn push_other_letter_chunk_23(v: &mut Vec<ClassUnicodeRange>)
    ensures
        rview(final(v)@) == rview(old(v)@) + other_letter_chunk_23(),
{
    let ghost o = rview(v@);
    push_range(v, '\u{1B45}', '\u{1B4C}');
    push_range(v, '\u{1B83}', '\u{1BA0}');
    push_range(v, '\u{1BAE}', '\u{1BAF}');
    push_range(v, '\u{1BBA}', '\u{1BE5}');
    push_range(v, '\u{1C00}', '\u{1C23}');
    push_range(v, '\u{1C4D}', '\u{1C4F}');
    push_range(v, '\u{1C5A}', '\u{1C77}');
    push_range(v, '\u{1CE9}', '\u{1CEC}');
    assert(rview(v@) =~= o + other_letter_chunk_23());
}

fn push_other_letter_chunk_24(v: &mut Vec<ClassUnicodeRange>)
    ensures
        rview(final(v)@) == rview(old(v)@) + other_letter_chunk_24(),
{
    let ghost o = rview(v@);
    push_range(v, '\u{1CEE}', '\u{1CF3}');
    push_range(v, '\u{1CF5}', '\u{1CF6}');
    push_range(v, '\u{1CFA}', '\u{1CFA}');
    push_range(v, '\u{2135}', '\u{2138}');
    push_range(v, '\u{2D30}', '\u{2D67}');
    push_range(v, '\u{2D80}', '\u{2D96}');
    push_range(v, '\u{2DA0}', '\u{2DA6}');
    push_range(v, '\u{2DA8}', '\u{2DAE}');
    assert(rview(v@) =~= o + other_letter_chunk_24());
}

fn push_other_letter_chunk_25(v: &mut Vec<ClassUnicodeRange>)
    ensures
        rview(final(v)@) == rview(old(v)@) + other_letter_chunk_25(),
{
    let ghost o = rview(v@);
    push_range(v, '\u{2DB0}', '\u{2DB6}');
    push_range(v, '\u{2DB8}', '\u{2DBE}');
    push_range(v, '\u{2DC0}', '\u{2DC6}');
    push_range(v, '\u{2DC8}', '\u{2DCE}');
    push_range(v, '\u{2DD0}', '\u{2DD6}');
    push_range(v, '\u{2DD8}', '\u{2DDE}');
    push_range(v, '\u{3006}', '\u{3006}');
    push_range(v, '\u{303C}', '\u{303C}');
    assert(rview(v@) =~= o + other_letter_chunk_25());
}

fn push_other_letter_chunk_26(v: &mut Vec<ClassUnicodeRange>)
    ensures
        rview(final(v)@) == rview(old(v)@) + other_letter_chunk_26(),
{
    let ghost o = rview(v@);
    push_range(v, '\u{3041}', '\u{3096}');
    push_range(v, '\u{309F}', '\u{309F}');
    push_range(v, '\u{30A1}', '\u{30FA}');
    push_range(v, '\u{30FF}', '\u{30FF}');
    push_range(v, '\u{3105}', '\u{312F}');
    push_range(v, '\u{3131}', '\u{318E}');
    push_range(v, '\u{31A0}', '\u{31BF}');
    push_range(v, '\u{31F0}', '\u{31FF}');
    assert(rview(v@) =~= o + other_letter_chunk_26());
}

fn push_other_letter_chunk_27(v: &mut Vec<ClassUnicodeRange>)
    ensures
        rview(final(v)@) == rview(old(v)@) + other_letter_chunk_27(),
{
    let ghost o = rview(v@);
    push_range(v, '\u{3400}', '\u{4DBF}');
    push_range(v, '\u{4E00}', '\u{A014}');
    push_range(v, '\u{A016}', '\u{A48C}');
    push_range(v, '\u{A4D0}', '\u{A4F7}');
    push_range(v, '\u{A500}', '\u{A60B}');
    push_range(v, '\u{A610}', '\u{A61F}');
    push_range(v, '\u{A62A}', '\u{A62B}');
    push_range(v, '\u{A66E}', '\u{A66E}');
    assert(rview(v@) =~= o + other_letter_chunk_27());
}

fn push_other_letter_chunk_28(v: &mut Vec<ClassUnicodeRange>)
    ensures
        rview(final(v)@) == rview(old(v)@) + other_letter_chunk_28(),
{
    let ghost o = rview(v@);
    push_range(v, '\u{A6A0}', '\u{A6E5}');
    push_range(v, '\u{A78F}', '\u{A78F}');
    push_range(v, '\u{A7F7}', '\u{A7F7}');
    push_range(v, '\u{A7FB}', '\u{A801}');
    push_range(v, '\u{A803}', '\u{A805}');
    push_range(v, '\u{A807}', '\u{A80A}');
    push_range(v, '\u{A80C}', '\u{A822}');
    push_range(v, '\u{A840}', '\u{A873}');
    assert(rview(v@) =~= o + other_letter_chunk_28());
}

fn push_other_letter_chunk_29(v: &mut Vec<ClassUnicodeRange>)
    ensures
        rview(final(v)@) == rview(old(v)@) + other_letter_chunk_29(),
{
    let ghost o = rview(v@);
    push_range(v, '\u{A882}', '\u{A8B3}');
    push_range(v, '\u{A8F2}', '\u{A8F7}');
    push_range(v, '\u{A8FB}', '\u{A8FB}');
    push_range(v, '\u{A8FD}', '\u{A8FE}');
    push_range(v, '\u{A90A}', '\u{A925}');
    push_range(v, '\u{A930}', '\u{A946}');
    push_range(v, '\u{A960}', '\u{A97C}');
    push_range(v, '\u{A984}', '\u{A9B2}');
    assert(rview(v@) =~= o + other_letter_chunk_29());
}

fn push_other_letter_chunk_30(v: &mut Vec<ClassUnicodeRange>)
    ensures
        rview(final(v)@) == rview(old(v)@) + other_letter_chunk_30(),
{
    let ghost o = rview(v@);
    push_range(v, '\u{A9E0}', '\u{A9E4}');
    push_range(v, '\u{A9E7}', '\u{A9EF}');
    push_range(v, '\u{A9FA}', '\u{A9FE}');
    push_range(v, '\u{AA00}', '\u{AA28}');
    push_range(v, '\u{AA40}', '\u{AA42}');
    push_range(v, '\u{AA44}', '\u{AA4B}');
    push_range(v, '\u{AA60}', '\u{AA6F}');
    push_range(v, '\u{AA71}', '\u{AA76}');
    assert(rview(v@) =~= o + other_letter_chunk_30());
}

fn push_other_letter_chunk_31(v: &mut Vec<ClassUnicodeRange>)
    ensures
        rview(final(v)@) == rview(old(v)@) + other_letter_chunk_31(),
{
    let ghost o = rview(v@);
    push_range(v, '\u{AA7A}', '\u{AA7A}');
    push_range(v, '\u{AA7E}', '\u{AAAF}');
    push_range(v, '\u{AAB1}', '\u{AAB1}');
    push_range(v, '\u{AAB5}', '\u{AAB6}');
    push_range(v, '\u{AAB9}', '\u{AABD}');
    push_range(v, '\u{AAC0}', '\u{AAC0}');
    push_range(v, '\u{AAC2}', '\u{AAC2}');
    push_range(v, '\u{AADB}', '\u{AADC}');
    assert(rview(v@) =~= o + other_letter_chunk_31());
}

fn push_other_letter_chunk_32(v: &mut Vec<ClassUnicodeRange>)
    ensures
        rview(final(v)@) == rview(old(v)@) + other_letter_chunk_32(),
{
    let ghost o = rview(v@);
    push_range(v, '\u{AAE0}', '\u{AAEA}');
    push_range(v, '\u{AAF2}', '\u{AAF2}');
    push_range(v, '\u{AB01}', '\u{AB06}');
    push_range(v, '\u{AB09}', '\u{AB0E}');
    push_range(v, '\u{AB11}', '\u{AB16}');
    push_range(v, '\u{AB20}', '\u{AB26}');
    push_range(v, '\u{AB28}', '\u{AB2E}');
    push_range(v, '\u{ABC0}', '\u{ABE2}');
    assert(rview(v@) =~= o + other_letter_chunk_32());
}

fn push_other_letter_chunk_33(v: &mut Vec<ClassUnicodeRange>)
    ensures
        rview(final(v)@) == rview(old(v)@) + other_letter_chunk_33(),
{
    let ghost o = rview(v@);
    push_range(v, '\u{AC00}', '\u{D7A3}');
    push_range(v, '\u{D7B0}', '\u{D7C6}');
    push_range(v, '\u{D7CB}', '\u{D7FB}');
    push_range(v, '\u{F900}', '\u{FA6D}');
    push_range(v, '\u{FA70}', '\u{FAD9}');
    push_range(v, '\u{FB1D}', '\u{FB1D}');
    push_range(v, '\u{FB1F}', '\u{FB28}');
    push_range(v, '\u{FB2A}', '\u{FB36}');
    assert(rview(v@) =~= o + other_letter_chunk_33());
}

fn push_other_letter_chunk_34(v: &mut Vec<ClassUnicodeRange>)
    ensures
        rview(final(v)@) == rview(old(v)@) + other_letter_chunk_34(),
{
    let ghost o = rview(v@);
    push_range(v, '\u{FB38}', '\u{FB3C}');
    push_range(v, '\u{FB3E}', '\u{FB3E}');
    push_range(v, '\u{FB40}', '\u{FB41}');
    push_range(v, '\u{FB43}', '\u{FB44}');
    push_range(v, '\u{FB46}', '\u{FBB1}');
    push_range(v, '\u{FBD3}', '\u{FD3D}');
    push_range(v, '\u{FD50}', '\u{FD8F}');
    push_range(v, '\u{FD92}', '\u{FDC7}');
    assert(rview(v@) =~= o + other_letter_chunk_34());
}

fn push_other_letter_chunk_35(v: &mut Vec<ClassUnicodeRange>)
    ensures
        rview(final(v)@) == rview(old(v)@) + other_letter_chunk_35(),
{
    let ghost o = rview(v@);
    push_range(v, '\u{FDF0}', '\u{FDFB}');
    push_range(v, '\u{FE70}', '\u{FE74}');
    push_range(v, '\u{FE76}', '\u{FEFC}');
    push_range(v, '\u{FF66}', '\u{FF6F}');
    push_range(v, '\u{FF71}', '\u{FF9D}');
    push_range(v, '\u{FFA0}', '\u{FFBE}');
    push_range(v, '\u{FFC2}', '\u{FFC7}');
    push_range(v, '\u{FFCA}', '\u{FFCF}');
    assert(rview(v@) =~= o + other_letter_chunk_35());
}

fn push_other_letter_chunk_36(v: &mut Vec<ClassUnicodeRange>)
    ensures
        rview(final(v)@) == rview(old(v)@) + other_letter_chunk_36(),
{
    let ghost o = rview(v@);
    push_range(v, '\u{FFD2}', '\u{FFD7}');
    push_range(v, '\u{FFDA}', '\u{FFDC}');
    push_range(v, '\u{10000}', '\u{1000B}');
    push_range(v, '\u{1000D}', '\u{10026}');
    push_range(v, '\u{10028}', '\u{1003A}');
    push_range(v, '\u{1003C}', '\u{1003D}');
    push_range(v, '\u{1003F}', '\u{1004D}');
    push_range(v, '\u{10050}', '\u{1005D}');
    assert(rview(v@) =~= o + other_letter_chunk_36());
}

fn push_other_letter_chunk_37(v: &mut Vec<ClassUnicodeRange>)
    ensures
        rview(final(v)@) == rview(old(v)@) + other_letter_chunk_37(),
{
    let ghost o = rview(v@);
    push_range(v, '\u{10080}', '\u{100FA}');
    push_range(v, '\u{10280}', '\u{1029C}');
    push_range(v, '\u{102A0}', '\u{102D0}');
    push_range(v, '\u{10300}', '\u{1031F}');
    push_range(v, '\u{1032D}', '\u{10340}');
    push_range(v, '\u{10342}', '\u{10349}');
    push_range(v, '\u{10350}', '\u{10375}');
    push_range(v, '\u{10380}', '\u{1039D}');
    assert(rview(v@) =~= o + other_letter_chunk_37());
}

fn push_other_letter_chunk_38(v: &mut Vec<ClassUnicodeRange>)
    ensures
        rview(final(v)@) == rview(old(v)@) + other_letter_chunk_38(),
{
    let ghost o = rview(v@);
    push_range(v, '\u{103A0}', '\u{103C3}');
    push_range(v, '\u{103C8}', '\u{103CF}');
    push_range(v, '\u{10450}', '\u{1049D}');
    push_range(v, '\u{10500}', '\u{10527}');
    push_range(v, '\u{10530}', '\u{10563}');
    push_range(v, '\u{105C0}', '\u{105F3}');
    push_range(v, '\u{10600}', '\u{10736}');
    push_range(v, '\u{10740}', '\u{10755}');
    assert(rview(v@) =~= o + other_letter_chunk_38());
}

fn push_other_letter_chunk_39(v: &mut Vec<ClassUnicodeRange>)
    ensures
        rview(final(v)@) == rview(old(v)@) + other_letter_chunk_39(),
{
    let ghost o = rview(v@);
    push_range(v, '\u{10760}', '\u{10767}');
    push_range(v, '\u{10800}', '\u{10805}');
    push_range(v, '\u{10808}', '\u{10808}');
    push_range(v, '\u{1080A}', '\u{10835}');
    push_range(v, '\u{10837}', '\u{10838}');
    push_range(v, '\u{1083C}', '\u{1083C}');
    push_range(v, '\u{1083F}', '\u{10855}');
    push_range(v, '\u{10860}', '\u{10876}');
    assert(rview(v@) =~= o + other_letter_chunk_39());
}

fn push_other_letter_chunk_40(v: &mut Vec<ClassUnicodeRange>)
    ensures
        rview(final(v)@) == rview(old(v)@) + other_letter_chunk_40(),
{
    let ghost o = rview(v@);
    push_range(v, '\u{10880}', '\u{1089E}');
    push_range(v, '\u{108E0}', '\u{108F2}');
    push_range(v, '\u{108F4}', '\u{108F5}');
    push_range(v, '\u{10900}', '\u{10915}');
    push_range(v, '\u{10920}', '\u{10939}');
    push_range(v, '\u{10980}', '\u{109B7}');
    push_range(v, '\u{109BE}', '\u{109BF}');
    push_range(v, '\u{10A00}', '\u{10A00}');
    assert(rview(v@) =~= o + other_letter_chunk_40());
}

fn push_other_letter_chunk_41(v: &mut Vec<ClassUnicodeRange>)
    ensures
        rview(final(v)@) == rview(old(v)@) + other_letter_chunk_41(),
{
    let ghost o = rview(v@);
    push_range(v, '\u{10A10}', '\u{10A13}');
    push_range(v, '\u{10A15}', '\u{10A17}');
    push_range(v, '\u{10A19}', '\u{10A35}');
    push_range(v, '\u{10A60}', '\u{10A7C}');
    push_range(v, '\u{10A80}', '\u{10A9C}');
    push_range(v, '\u{10AC0}', '\u{10AC7}');
    push_range(v, '\u{10AC9}', '\u{10AE4}');
    push_range(v, '\u{10B00}', '\u{10B35}');
    assert(rview(v@) =~= o + other_letter_chunk_41());
}

fn push_other_letter_chunk_42(v: &mut Vec<ClassUnicodeRange>)
    ensures
        rview(final(v)@) == rview(old(v)@) + other_letter_chunk_42(),
{
    let ghost o = rview(v@);
    push_range(v, '\u{10B40}', '\u{10B55}');
    push_range(v, '\u{10B60}', '\u{10B72}');
    push_range(v, '\u{10B80}', '\u{10B91}');
    push_range(v, '\u{10C00}', '\u{10C48}');
    push_range(v, '\u{10D00}', '\u{10D23}');
    push_range(v, '\u{10D4A}', '\u{10D4D}');
    push_range(v, '\u{10D4F}', '\u{10D4F}');
    push_range(v, '\u{10E80}', '\u{10EA9}');
    assert(rview(v@) =~= o + other_letter_chunk_42());
}

fn push_other_letter_chunk_43(v: &mut Vec<ClassUnicodeRange>)
    ensures
        rview(final(v)@) == rview(old(v)@) + other_letter_chunk_43(),
{
    let ghost o = rview(v@);
    push_range(v, '\u{10EB0}', '\u{10EB1}');
    push_range(v, '\u{10EC2}', '\u{10EC4}');
    push_range(v, '\u{10F00}', '\u{10F1C}');
    push_range(v, '\u{10F27}', '\u{10F27}');
    push_range(v, '\u{10F30}', '\u{10F45}');
    push_range(v, '\u{10F70}', '\u{10F81}');
    push_range(v, '\u{10FB0}', '\u{10FC4}');
    push_range(v, '\u{10FE0}', '\u{10FF6}');
    assert(rview(v@) =~= o + other_letter_chunk_43());
}

fn push_other_letter_chunk_44(v: &mut Vec<ClassUnicodeRange>)
    ensures
        rview(final(v)@) == rview(old(v)@) + other_letter_chunk_44(),
{
    let ghost o = rview(v@);
    push_range(v, '\u{11003}', '\u{11037}');
    push_range(v, '\u{11071}', '\u{11072}');
    push_range(v, '\u{11075}', '\u{11075}');
    push_range(v, '\u{11083}', '\u{110AF}');
    push_range(v, '\u{110D0}', '\u{110E8}');
    push_range(v, '\u{11103}', '\u{11126}');
    push_range(v, '\u{11144}', '\u{11144}');
    push_range(v, '\u{11147}', '\u{11147}');
    assert(rview(v@) =~= o + other_letter_chunk_44());
}

fn push_other_letter_chunk_45(v: &mut Vec<ClassUnicodeRange>)
    ensures
        rview(final(v)@) == rview(old(v)@) + other_letter_chunk_45(),
{
    let ghost o = rview(v@);
    push_range(v, '\u{11150}', '\u{11172}');
    push_range(v, '\u{11176}', '\u{11176}');
    push_range(v, '\u{11183}', '\u{111B2}');
    push_range(v, '\u{111C1}', '\u{111C4}');
    push_range(v, '\u{111DA}', '\u{111DA}');
    push_range(v, '\u{111DC}', '\u{111DC}');
    push_range(v, '\u{11200}', '\u{11211}');
    push_range(v, '\u{11213}', '\u{1122B}');
    assert(rview(v@) =~= o + other_letter_chunk_45());
}

fn push_other_letter_chunk_46(v: &mut Vec<ClassUnicodeRange>)
    ensures
        rview(final(v)@) == rview(old(v)@) + other_letter_chunk_46(),
{
    let ghost o = rview(v@);
    push_range(v, '\u{1123F}', '\u{11240}');
    push_range(v, '\u{11280}', '\u{11286}');
    push_range(v, '\u{11288}', '\u{11288}');
    push_range(v, '\u{1128A}', '\u{1128D}');
    push_range(v, '\u{1128F}', '\u{1129D}');
    push_range(v, '\u{1129F}', '\u{112A8}');
    push_range(v, '\u{112B0}', '\u{112DE}');
    push_range(v, '\u{11305}', '\u{1130C}');
    assert(rview(v@) =~= o + other_letter_chunk_46());
}

fn push_other_letter_chunk_47(v: &mut Vec<ClassUnicodeRange>)
    ensures
        rview(final(v)@) == rview(old(v)@) + other_letter_chunk_47(),
{
    let ghost o = rview(v@);
    push_range(v, '\u{1130F}', '\u{11310}');
    push_range(v, '\u{11313}', '\u{11328}');
    push_range(v, '\u{1132A}', '\u{11330}');
    push_range(v, '\u{11332}', '\u{11333}');
    push_range(v, '\u{11335}', '\u{11339}');
    push_range(v, '\u{1133D}', '\u{1133D}');
    push_range(v, '\u{11350}', '\u{11350}');
    push_range(v, '\u{1135D}', '\u{11361}');
    assert(rview(v@) =~= o + other_letter_chunk_47());
}

fn push_other_letter_chunk_48(v: &mut Vec<ClassUnicodeRange>)
    ensures
        rview(final(v)@) == rview(old(v)@) + other_letter_chunk_48(),
{
    let ghost o = rview(v@);
    push_range(v, '\u{11380}', '\u{11389}');
    push_range(v, '\u{1138B}', '\u{1138B}');
    push_range(v, '\u{1138E}', '\u{1138E}');
    push_range(v, '\u{11390}', '\u{113B5}');
    push_range(v, '\u{113B7}', '\u{113B7}');
    push_range(v, '\u{113D1}', '\u{113D1}');
    push_range(v, '\u{113D3}', '\u{113D3}');
    push_range(v, '\u{11400}', '\u{11434}');
    assert(rview(v@) =~= o + other_letter_chunk_48());
}

fn push_other_letter_chunk_49(v: &mut Vec<ClassUnicodeRange>)
    ensures
        rview(final(v)@) == rview(old(v)@) + other_letter_chunk_49(),
{
    let ghost o = rview(v@);
    push_range(v, '\u{11447}', '\u{1144A}');
    push_range(v, '\u{1145F}', '\u{11461}');
    push_range(v, '\u{11480}', '\u{114AF}');
    push_range(v, '\u{114C4}', '\u{114C5}');
    push_range(v, '\u{114C7}', '\u{114C7}');
    push_range(v, '\u{11580}', '\u{115AE}');
    push_range(v, '\u{115D8}', '\u{115DB}');
    push_range(v, '\u{11600}', '\u{1162F}');
    assert(rview(v@) =~= o + other_letter_chunk_49());
}

fn push_other_letter_chunk_50(v: &mut Vec<ClassUnicodeRange>)
    ensures
        rview(final(v)@) == rview(old(v)@) + other_letter_chunk_50(),
{
    let ghost o = rview(v@);
    push_range(v, '\u{11644}', '\u{11644}');
    push_range(v, '\u{11680}', '\u{116AA}');
    push_range(v, '\u{116B8}', '\u{116B8}');
    push_range(v, '\u{11700}', '\u{1171A}');
    push_range(v, '\u{11740}', '\u{11746}');
    push_range(v, '\u{11800}', '\u{1182B}');
    push_range(v, '\u{118FF}', '\u{11906}');
    push_range(v, '\u{11909}', '\u{11909}');
    assert(rview(v@) =~= o + other_letter_chunk_50());
}

fn push_other_letter_chunk_51(v: &mut Vec<ClassUnicodeRange>)
    ensures
        rview(final(v)@) == rview(old(v)@) + other_letter_chunk_51(),
{
    let ghost o = rview(v@);
    push_range(v, '\u{1190C}', '\u{11913}');
    push_range(v, '\u{11915}', '\u{11916}');
    push_range(v, '\u{11918}', '\u{1192F}');
    push_range(v, '\u{1193F}', '\u{1193F}');
    push_range(v, '\u{11941}', '\u{11941}');
    push_range(v, '\u{119A0}', '\u{119A7}');
    push_range(v, '\u{119AA}', '\u{119D0}');
    push_range(v, '\u{119E1}', '\u{119E1}');
    assert(rview(v@) =~= o + other_letter_chunk_51());
}

fn push_other_letter_chunk_52(v: &mut Vec<ClassUnicodeRange>)
    ensures
        rview(final(v)@) == rview(old(v)@) + other_letter_chunk_52(),
{
    let ghost o = rview(v@);
    push_range(v, '\u{119E3}', '\u{119E3}');
    push_range(v, '\u{11A00}', '\u{11A00}');
    push_range(v, '\u{11A0B}', '\u{11A32}');
    push_range(v, '\u{11A3A}', '\u{11A3A}');
    push_range(v, '\u{11A50}', '\u{11A50}');
    push_range(v, '\u{11A5C}', '\u{11A89}');
    push_range(v, '\u{11A9D}', '\u{11A9D}');
    push_range(v, '\u{11AB0}', '\u{11AF8}');
    assert(rview(v@) =~= o + other_letter_chunk_52());
}

fn push_other_letter_chunk_53(v: &mut Vec<ClassUnicodeRange>)
    ensures
        rview(final(v)@) == rview(old(v)@) + other_letter_chunk_53(),
{
    let ghost o = rview(v@);
    push_range(v, '\u{11BC0}', '\u{11BE0}');
    push_range(v, '\u{11C00}', '\u{11C08}');
    push_range(v, '\u{11C0A}', '\u{11C2E}');
    push_range(v, '\u{11C40}', '\u{11C40}');
    push_range(v, '\u{11C72}', '\u{11C8F}');
    push_range(v, '\u{11D00}', '\u{11D06}');
    push_range(v, '\u{11D08}', '\u{11D09}');
    push_range(v, '\u{11D0B}', '\u{11D30}');
    assert(rview(v@) =~= o + other_letter_chunk_53());
}

fn push_other_letter_chunk_54(v: &mut Vec<ClassUnicodeRange>)
    ensures
        rview(final(v)@) == rview(old(v)@) + other_letter_chunk_54(),
{
    let ghost o = rview(v@);
    push_range(v, '\u{11D46}', '\u{11D46}');
    push_range(v, '\u{11D60}', '\u{11D65}');
    push_range(v, '\u{11D67}', '\u{11D68}');
    push_range(v, '\u{11D6A}', '\u{11D89}');
    push_range(v, '\u{11D98}', '\u{11D98}');
    push_range(v, '\u{11EE0}', '\u{11EF2}');
    push_range(v, '\u{11F02}', '\u{11F02}');
    push_range(v, '\u{11F04}', '\u{11F10}');
    assert(rview(v@) =~= o + other_letter_chunk_54());
}

fn push_other_letter_chunk_55(v: &mut Vec<ClassUnicodeRange>)
    ensures
        rview(final(v)@) == rview(old(v)@) + other_letter_chunk_55(),
{
    let ghost o = rview(v@);
    push_range(v, '\u{11F12}', '\u{11F33}');
    push_range(v, '\u{11FB0}', '\u{11FB0}');
    push_range(v, '\u{12000}', '\u{12399}');
    push_range(v, '\u{12480}', '\u{12543}');
    push_range(v, '\u{12F90}', '\u{12FF0}');
    push_range(v, '\u{13000}', '\u{1342F}');
    push_range(v, '\u{13441}', '\u{13446}');
    push_range(v, '\u{13460}', '\u{143FA}');
    assert(rview(v@) =~= o + other_letter_chunk_55());
}

fn push_other_letter_chunk_56(v: &mut Vec<ClassUnicodeRange>)
    ensures
        rview(final(v)@) == rview(old(v)@) + other_letter_chunk_56(),
{
    let ghost o = rview(v@);
    push_range(v, '\u{14400}', '\u{14646}');
    push_range(v, '\u{16100}', '\u{1611D}');
    push_range(v, '\u{16800}', '\u{16A38}');
    push_range(v, '\u{16A40}', '\u{16A5E}');
    push_range(v, '\u{16A70}', '\u{16ABE}');
    push_range(v, '\u{16AD0}', '\u{16AED}');
    push_range(v, '\u{16B00}', '\u{16B2F}');
    push_range(v, '\u{16B63}', '\u{16B77}');
    assert(rview(v@) =~= o + other_letter_chunk_56());
}

fn push_other_letter_chunk_57(v: &mut Vec<ClassUnicodeRange>)
    ensures
        rview(final(v)@) == rview(old(v)@) + other_letter_chunk_57(),
{
    let ghost o = rview(v@);
    push_range(v, '\u{16B7D}', '\u{16B8F}');
    push_range(v, '\u{16D43}', '\u{16D6A}');
    push_range(v, '\u{16F00}', '\u{16F4A}');
    push_range(v, '\u{16F50}', '\u{16F50}');
    push_range(v, '\u{17000}', '\u{187F7}');
    push_range(v, '\u{18800}', '\u{18CD5}');
    push_range(v, '\u{18CFF}', '\u{18D08}');
    push_range(v, '\u{1B000}', '\u{1B122}');
    assert(rview(v@) =~= o + other_letter_chunk_57());
}

fn push_other_letter_chunk_58(v: &mut Vec<ClassUnicodeRange>)
    ensures
        rview(final(v)@) == rview(old(v)@) + other_letter_chunk_58(),
{
    let ghost o = rview(v@);
    push_range(v, '\u{1B132}', '\u{1B132}');
    push_range(v, '\u{1B150}', '\u{1B152}');
    push_range(v, '\u{1B155}', '\u{1B155}');
    push_range(v, '\u{1B164}', '\u{1B167}');
    push_range(v, '\u{1B170}', '\u{1B2FB}');
    push_range(v, '\u{1BC00}', '\u{1BC6A}');
    push_range(v, '\u{1BC70}', '\u{1BC7C}');
    push_range(v, '\u{1BC80}', '\u{1BC88}');
    assert(rview(v@) =~= o + other_letter_chunk_58());
}

fn push_other_letter_chunk_59(v: &mut Vec<ClassUnicodeRange>)
    ensures
        rview(final(v)@) == rview(old(v)@) + other_letter_chunk_59(),
{
    let ghost o = rview(v@);
    push_range(v, '\u{1BC90}', '\u{1BC99}');
    push_range(v, '\u{1DF0A}', '\u{1DF0A}');
    push_range(v, '\u{1E100}', '\u{1E12C}');
    push_range(v, '\u{1E14E}', '\u{1E14E}');
    push_range(v, '\u{1E290}', '\u{1E2AD}');
    push_range(v, '\u{1E2C0}', '\u{1E2EB}');
    push_range(v, '\u{1E4D0}', '\u{1E4EA}');
    push_range(v, '\u{1E5D0}', '\u{1E5ED}');
    assert(rview(v@) =~= o + other_letter_chunk_59());
}

fn push_other_letter_chunk_60(v: &mut Vec<ClassUnicodeRange>)
    ensures
        rview(final(v)@) == rview(old(v)@) + other_letter_chunk_60(),
{
    let ghost o = rview(v@);
    push_range(v, '\u{1E5F0}', '\u{1E5F0}');
    push_range(v, '\u{1E7E0}', '\u{1E7E6}');
    push_range(v, '\u{1E7E8}', '\u{1E7EB}');
    push_range(v, '\u{1E7ED}', '\u{1E7EE}');
    push_range(v, '\u{1E7F0}', '\u{1E7FE}');
    push_range(v, '\u{1E800}', '\u{1E8C4}');
    push_range(v, '\u{1EE00}', '\u{1EE03}');
    push_range(v, '\u{1EE05}', '\u{1EE1F}');
    assert(rview(v@) =~= o + other_letter_chunk_60());
}

fn push_other_letter_chunk_61(v: &mut Vec<ClassUnicodeRange>)
    ensures
        rview(final(v)@) == rview(old(v)@) + other_letter_chunk_61(),
{
    let ghost o = rview(v@);
    push_range(v, '\u{1EE21}', '\u{1EE22}');
    push_range(v, '\u{1EE24}', '\u{1EE24}');
    push_range(v, '\u{1EE27}', '\u{1EE27}');
    push_range(v, '\u{1EE29}', '\u{1EE32}');
    push_range(v, '\u{1EE34}', '\u{1EE37}');
    push_range(v, '\u{1EE39}', '\u{1EE39}');
    push_range(v, '\u{1EE3B}', '\u{1EE3B}');
    push_range(v, '\u{1EE42}', '\u{1EE42}');
    assert(rview(v@) =~= o + other_letter_chunk_61());
}

fn push_other_letter_chunk_62(v: &mut Vec<ClassUnicodeRange>)
    ensures
        rview(final(v)@) == rview(old(v)@) + other_letter_chunk_62(),
{
    let ghost o = rview(v@);
    push_range(v, '\u{1EE47}', '\u{1EE47}');
    push_range(v, '\u{1EE49}', '\u{1EE49}');
    push_range(v, '\u{1EE4B}', '\u{1EE4B}');
    push_range(v, '\u{1EE4D}', '\u{1EE4F}');
    push_range(v, '\u{1EE51}', '\u{1EE52}');
    push_range(v, '\u{1EE54}', '\u{1EE54}');
    push_range(v, '\u{1EE57}', '\u{1EE57}');
    push_range(v, '\u{1EE59}', '\u{1EE59}');
    assert(rview(v@) =~= o + other_letter_chunk_62());
}

fn push_other_letter_chunk_63(v: &mut Vec<ClassUnicodeRange>)
    ensures
        rview(final(v)@) == rview(old(v)@) + other_letter_chunk_63(),
{
    let ghost o = rview(v@);
    push_range(v, '\u{1EE5B}', '\u{1EE5B}');
    push_range(v, '\u{1EE5D}', '\u{1EE5D}');
    push_range(v, '\u{1EE5F}', '\u{1EE5F}');
    push_range(v, '\u{1EE61}', '\u{1EE62}');
    push_range(v, '\u{1EE64}', '\u{1EE64}');
    push_range(v, '\u{1EE67}', '\u{1EE6A}');
    push_range(v, '\u{1EE6C}', '\u{1EE72}');
    push_range(v, '\u{1EE74}', '\u{1EE77}');
    assert(rview(v@) =~= o + other_letter_chunk_63());
}

fn push_other_letter_chunk_64(v: &mut Vec<ClassUnicodeRange>)
    ensures
        rview(final(v)@) == rview(old(v)@) + other_letter_chunk_64(),
{
    let ghost o = rview(v@);
    push_range(v, '\u{1EE79}', '\u{1EE7C}');
    push_range(v, '\u{1EE7E}', '\u{1EE7E}');
    push_range(v, '\u{1EE80}', '\u{1EE89}');
    push_range(v, '\u{1EE8B}', '\u{1EE9B}');
    push_range(v, '\u{1EEA1}', '\u{1EEA3}');
    push_range(v, '\u{1EEA5}', '\u{1EEA9}');
    push_range(v, '\u{1EEAB}', '\u{1EEBB}');
    push_range(v, '\u{20000}', '\u{2A6DF}');
    assert(rview(v@) =~= o + other_letter_chunk_64());
}

fn push_other_letter_chunk_65(v: &mut Vec<ClassUnicodeRange>)
    ensures
        rview(final(v)@) == rview(old(v)@) + other_letter_chunk_65(),
{
    let ghost o = rview(v@);
    push_range(v, '\u{2A700}', '\u{2B739}');
    push_range(v, '\u{2B740}', '\u{2B81D}');
    push_range(v, '\u{2B820}', '\u{2CEA1}');
    push_range(v, '\u{2CEB0}', '\u{2EBE0}');
    push_range(v, '\u{2EBF0}', '\u{2EE5D}');
    push_range(v, '\u{2F800}', '\u{2FA1D}');
    push_range(v, '\u{30000}', '\u{3134A}');
    push_range(v, '\u{31350}', '\u{323AF}');
    assert(rview(v@) =~= o + other_letter_chunk_65());
}

fn push_other_letter_block_0(v: &mut Vec<ClassUnicodeRange>)
    ensures
        rview(final(v)@) == rview(old(v)@) + other_letter_block_0(),
{
    let ghost o = rview(v@);
    push_other_letter_chunk_0(v);
    assert(rview(v@) =~= o + (other_letter_chunk_0()));
    push_other_letter_chunk_1(v);
    assert(rview(v@) =~= o + (other_letter_chunk_0() + other_letter_chunk_1()));
    push_other_letter_chunk_2(v);
    assert(rview(v@) =~= o + (other_letter_chunk_0() + other_letter_chunk_1() + other_letter_chunk_2()));
    push_other_letter_chunk_3(v);
    assert(rview(v@) =~= o + (other_letter_chunk_0() + other_letter_chunk_1() + other_letter_chunk_2() + other_letter_chunk_3()));
    push_other_letter_chunk_4(v);
    assert(rview(v@) =~= o + (other_letter_chunk_0() + other_letter_chunk_1() + other_letter_chunk_2() + other_letter_chunk_3() + other_letter_chunk_4()));
    push_other_letter_chunk_5(v);
    assert(rview(v@) =~= o + (other_letter_chunk_0() + other_letter_chunk_1() + other_letter_chunk_2() + other_letter_chunk_3() + other_letter_chunk_4() + other_letter_chunk_5()));
    push_other_letter_chunk_6(v);
    assert(rview(v@) =~= o + (other_letter_chunk_0() + other_letter_chunk_1() + other_letter_chunk_2() + other_letter_chunk_3() + other_letter_chunk_4() + other_letter_chunk_5() + other_letter_chunk_6()));
    push_other_letter_chunk_7(v);
    assert(rview(v@) =~= o + (other_letter_chunk_0() + other_letter_chunk_1() + other_letter_chunk_2() + other_letter_chunk_3() + other_letter_chunk_4() + other_letter_chunk_5() + other_letter_chunk_6() + other_letter_chunk_7()));
    push_other_letter_chunk_8(v);
    assert(rview(v@) =~= o + (other_letter_chunk_0() + other_letter_chunk_1() + other_letter_chunk_2() + other_letter_chunk_3() + other_letter_chunk_4() + other_letter_chunk_5() + other_letter_chunk_6() + other_letter_chunk_7() + other_letter_chunk_8()));
    push_other_letter_chunk_9(v);
    assert(rview(v@) =~= o + (other_letter_chunk_0() + other_letter_chunk_1() + other_letter_chunk_2() + other_letter_chunk_3() + other_letter_chunk_4() + other_letter_chunk_5() + other_letter_chunk_6() + other_letter_chunk_7() + other_letter_chunk_8() + other_letter_chunk_9()));
}

fn push_other_letter_block_1(v: &mut Vec<ClassUnicodeRange>)
    ensures
        rview(final(v)@) == rview(old(v)@) + other_letter_block_1(),
{
    let ghost o = rview(v@);
    push_other_letter_chunk_10(v);
    assert(rview(v@) =~= o + (other_letter_chunk_10()));
    push_other_letter_chunk_11(v);
    assert(rview(v@) =~= o + (other_letter_chunk_10() + other_letter_chunk_11()));
    push_other_letter_chunk_12(v);
    assert(rview(v@) =~= o + (other_letter_chunk_10() + other_letter_chunk_11() + other_letter_chunk_12()));
    push_other_letter_chunk_13(v);
    assert(rview(v@) =~= o + (other_letter_chunk_10() + other_letter_chunk_11() + other_letter_chunk_12() + other_letter_chunk_13()));
    push_other_letter_chunk_14(v);
    assert(rview(v@) =~= o + (other_letter_chunk_10() + other_letter_chunk_11() + other_letter_chunk_12() + other_letter_chunk_13() + other_letter_chunk_14()));
    push_other_letter_chunk_15(v);
    assert(rview(v@) =~= o + (other_letter_chunk_10() + other_letter_chunk_11() + other_letter_chunk_12() + other_letter_chunk_13() + other_letter_chunk_14() + other_letter_chunk_15()));
    push_other_letter_chunk_16(v);
    assert(rview(v@) =~= o + (other_letter_chunk_10() + other_letter_chunk_11() + other_letter_chunk_12() + other_letter_chunk_13() + other_letter_chunk_14() + other_letter_chunk_15() + other_letter_chunk_16()));
    push_other_letter_chunk_17(v);
    assert(rview(v@) =~= o + (other_letter_chunk_10() + other_letter_chunk_11() + other_letter_chunk_12() + other_letter_chunk_13() + other_letter_chunk_14() + other_letter_chunk_15() + other_letter_chunk_16() + other_letter_chunk_17()));
    push_other_letter_chunk_18(v);
    assert(rview(v@) =~= o + (other_letter_chunk_10() + other_letter_chunk_11() + other_letter_chunk_12() + other_letter_chunk_13() + other_letter_chunk_14() + other_letter_chunk_15() + other_letter_chunk_16() + other_letter_chunk_17() + other_letter_chunk_18()));
    push_other_letter_chunk_19(v);
    assert(rview(v@) =~= o + (other_letter_chunk_10() + other_letter_chunk_11() + other_letter_chunk_12() + other_letter_chunk_13() + other_letter_chunk_14() + other_letter_chunk_15() + other_letter_chunk_16() + other_letter_chunk_17() + other_letter_chunk_18() + other_letter_chunk_19()));
}

fn push_other_letter_block_2(v: &mut Vec<ClassUnicodeRange>)
    ensures
        rview(final(v)@) == rview(old(v)@) + other_letter_block_2(),
{
    let ghost o = rview(v@);
    push_other_letter_chunk_20(v);
    assert(rview(v@) =~= o + (other_letter_chunk_20()));
    push_other_letter_chunk_21(v);
    assert(rview(v@) =~= o + (other_letter_chunk_20() + other_letter_chunk_21()));
    push_other_letter_chunk_22(v);
    assert(rview(v@) =~= o + (other_letter_chunk_20() + other_letter_chunk_21() + other_letter_chunk_22()));
    push_other_letter_chunk_23(v);
    assert(rview(v@) =~= o + (other_letter_chunk_20() + other_letter_chunk_21() + other_letter_chunk_22() + other_letter_chunk_23()));
    push_other_letter_chunk_24(v);
    assert(rview(v@) =~= o + (other_letter_chunk_20() + other_letter_chunk_21() + other_letter_chunk_22() + other_letter_chunk_23() + other_letter_chunk_24()));
    push_other_letter_chunk_25(v);
    assert(rview(v@) =~= o + (other_letter_chunk_20() + other_letter_chunk_21() + other_letter_chunk_22() + other_letter_chunk_23() + other_letter_chunk_24() + other_letter_chunk_25()));
    push_other_letter_chunk_26(v);
    assert(rview(v@) =~= o + (other_letter_chunk_20() + other_letter_chunk_21() + other_letter_chunk_22() + other_letter_chunk_23() + other_letter_chunk_24() + other_letter_chunk_25() + other_letter_chunk_26()));
    push_other_letter_chunk_27(v);
    assert(rview(v@) =~= o + (other_letter_chunk_20() + other_letter_chunk_21() + other_letter_chunk_22() + other_letter_chunk_23() + other_letter_chunk_24() + other_letter_chunk_25() + other_letter_chunk_26() + other_letter_chunk_27()));
    push_other_letter_chunk_28(v);
    assert(rview(v@) =~= o + (other_letter_chunk_20() + other_letter_chunk_21() + other_letter_chunk_22() + other_letter_chunk_23() + other_letter_chunk_24() + other_letter_chunk_25() + other_letter_chunk_26() + other_letter_chunk_27() + other_letter_chunk_28()));
    push_other_letter_chunk_29(v);
    assert(rview(v@) =~= o + (other_letter_chunk_20() + other_letter_chunk_21() + other_letter_chunk_22() + other_letter_chunk_23() + other_letter_chunk_24() + other_letter_chunk_25() + other_letter_chunk_26() + other_letter_chunk_27() + other_letter_chunk_28() + other_letter_chunk_29()));
}

fn push_other_letter_block_3(v: &mut Vec<ClassUnicodeRange>)
    ensures
        rview(final(v)@) == rview(old(v)@) + other_letter_block_3(),
{
    let ghost o = rview(v@);
    push_other_letter_chunk_30(v);
    assert(rview(v@) =~= o + (other_letter_chunk_30()));
    push_other_letter_chunk_31(v);
    assert(rview(v@) =~= o + (other_letter_chunk_30() + other_letter_chunk_31()));
    push_other_letter_chunk_32(v);
    assert(rview(v@) =~= o + (other_letter_chunk_30() + other_letter_chunk_31() + other_letter_chunk_32()));
    push_other_letter_chunk_33(v);
    assert(rview(v@) =~= o + (other_letter_chunk_30() + other_letter_chunk_31() + other_letter_chunk_32() + other_letter_chunk_33()));
    push_other_letter_chunk_34(v);
    assert(rview(v@) =~= o + (other_letter_chunk_30() + other_letter_chunk_31() + other_letter_chunk_32() + other_letter_chunk_33() + other_letter_chunk_34()));
    push_other_letter_chunk_35(v);
    assert(rview(v@) =~= o + (other_letter_chunk_30() + other_letter_chunk_31() + other_letter_chunk_32() + other_letter_chunk_33() + other_letter_chunk_34() + other_letter_chunk_35()));
    push_other_letter_chunk_36(v);
    assert(rview(v@) =~= o + (other_letter_chunk_30() + other_letter_chunk_31() + other_letter_chunk_32() + other_letter_chunk_33() + other_letter_chunk_34() + other_letter_chunk_35() + other_letter_chunk_36()));
    push_other_letter_chunk_37(v);
    assert(rview(v@) =~= o + (other_letter_chunk_30() + other_letter_chunk_31() + other_letter_chunk_32() + other_letter_chunk_33() + other_letter_chunk_34() + other_letter_chunk_35() + other_letter_chunk_36() + other_letter_chunk_37()));
    push_other_letter_chunk_38(v);
    assert(rview(v@) =~= o + (other_letter_chunk_30() + other_letter_chunk_31() + other_letter_chunk_32() + other_letter_chunk_33() + other_letter_chunk_34() + other_letter_chunk_35() + other_letter_chunk_36() + other_letter_chunk_37() + other_letter_chunk_38()));
    push_other_letter_chunk_39(v);
    assert(rview(v@) =~= o + (other_letter_chunk_30() + other_letter_chunk_31() + other_letter_chunk_32() + other_letter_chunk_33() + other_letter_chunk_34() + other_letter_chunk_35() + other_letter_chunk_36() + other_letter_chunk_37() + other_letter_chunk_38() + other_letter_chunk_39()));
}

fn push_other_letter_block_4(v: &mut Vec<ClassUnicodeRange>)
    ensures
        rview(final(v)@) == rview(old(v)@) + other_letter_block_4(),
{
    let ghost o = rview(v@);
    push_other_letter_chunk_40(v);
    assert(rview(v@) =~= o + (other_letter_chunk_40()));
    push_other_letter_chunk_41(v);
    assert(rview(v@) =~= o + (other_letter_chunk_40() + other_letter_chunk_41()));
    push_other_letter_chunk_42(v);
    assert(rview(v@) =~= o + (other_letter_chunk_40() + other_letter_chunk_41() + other_letter_chunk_42()));
    push_other_letter_chunk_43(v);
    assert(rview(v@) =~= o + (other_letter_chunk_40() + other_letter_chunk_41() + other_letter_chunk_42() + other_letter_chunk_43()));
    push_other_letter_chunk_44(v);
    assert(rview(v@) =~= o + (other_letter_chunk_40() + other_letter_chunk_41() + other_letter_chunk_42() + other_letter_chunk_43() + other_letter_chunk_44()));
    push_other_letter_chunk_45(v);
    assert(rview(v@) =~= o + (other_letter_chunk_40() + other_letter_chunk_41() + other_letter_chunk_42() + other_letter_chunk_43() + other_letter_chunk_44() + other_letter_chunk_45()));
    push_other_letter_chunk_46(v);
    assert(rview(v@) =~= o + (other_letter_chunk_40() + other_letter_chunk_41() + other_letter_chunk_42() + other_letter_chunk_43() + other_letter_chunk_44() + other_letter_chunk_45() + other_letter_chunk_46()));
    push_other_letter_chunk_47(v);
    assert(rview(v@) =~= o + (other_letter_chunk_40() + other_letter_chunk_41() + other_letter_chunk_42() + other_letter_chunk_43() + other_letter_chunk_44() + other_letter_chunk_45() + other_letter_chunk_46() + other_letter_chunk_47()));
    push_other_letter_chunk_48(v);
    assert(rview(v@) =~= o + (other_letter_chunk_40() + other_letter_chunk_41() + other_letter_chunk_42() + other_letter_chunk_43() + other_letter_chunk_44() + other_letter_chunk_45() + other_letter_chunk_46() + other_letter_chunk_47() + other_letter_chunk_48()));
    push_other_letter_chunk_49(v);
    assert(rview(v@) =~= o + (other_letter_chunk_40() + other_letter_chunk_41() + other_letter_chunk_42() + other_letter_chunk_43() + other_letter_chunk_44() + other_letter_chunk_45() + other_letter_chunk_46() + other_letter_chunk_47() + other_letter_chunk_48() + other_letter_chunk_49()));
}

fn push_other_letter_block_5(v: &mut Vec<ClassUnicodeRange>)
    ensures
        rview(final(v)@) == rview(old(v)@) + other_letter_block_5(),
{
    let ghost o = rview(v@);
    push_other_letter_chunk_50(v);
    assert(rview(v@) =~= o + (other_letter_chunk_50()));
    push_other_letter_chunk_51(v);
    assert(rview(v@) =~= o + (other_letter_chunk_50() + other_letter_chunk_51()));
    push_other_letter_chunk_52(v);
    assert(rview(v@) =~= o + (other_letter_chunk_50() + other_letter_chunk_51() + other_letter_chunk_52()));
    push_other_letter_chunk_53(v);
    assert(rview(v@) =~= o + (other_letter_chunk_50() + other_letter_chunk_51() + other_letter_chunk_52() + other_letter_chunk_53()));
    push_other_letter_chunk_54(v);
    assert(rview(v@) =~= o + (other_letter_chunk_50() + other_letter_chunk_51() + other_letter_chunk_52() + other_letter_chunk_53() + other_letter_chunk_54()));
    push_other_letter_chunk_55(v);
    assert(rview(v@) =~= o + (other_letter_chunk_50() + other_letter_chunk_51() + other_letter_chunk_52() + other_letter_chunk_53() + other_letter_chunk_54() + other_letter_chunk_55()));
    push_other_letter_chunk_56(v);
    assert(rview(v@) =~= o + (other_letter_chunk_50() + other_letter_chunk_51() + other_letter_chunk_52() + other_letter_chunk_53() + other_letter_chunk_54() + other_letter_chunk_55() + other_letter_chunk_56()));
    push_other_letter_chunk_57(v);
    assert(rview(v@) =~= o + (other_letter_chunk_50() + other_letter_chunk_51() + other_letter_chunk_52() + other_letter_chunk_53() + other_letter_chunk_54() + other_letter_chunk_55() + other_letter_chunk_56() + other_letter_chunk_57()));
    push_other_letter_chunk_58(v);
    assert(rview(v@) =~= o + (other_letter_chunk_50() + other_letter_chunk_51() + other_letter_chunk_52() + other_letter_chunk_53() + other_letter_chunk_54() + other_letter_chunk_55() + other_letter_chunk_56() + other_letter_chunk_57() + other_letter_chunk_58()));
    push_other_letter_chunk_59(v);
    assert(rview(v@) =~= o + (other_letter_chunk_50() + other_letter_chunk_51() + other_letter_chunk_52() + other_letter_chunk_53() + other_letter_chunk_54() + other_letter_chunk_55() + other_letter_chunk_56() + other_letter_chunk_57() + other_letter_chunk_58() + other_letter_chunk_59()));
}

fn push_other_letter_block_6(v: &mut Vec<ClassUnicodeRange>)
    ensures
        rview(final(v)@) == rview(old(v)@) + other_letter_block_6(),
{
    let ghost o = rview(v@);
    push_other_letter_chunk_60(v);
    assert(rview(v@) =~= o + (other_letter_chunk_60()));
    push_other_letter_chunk_61(v);
    assert(rview(v@) =~= o + (other_letter_chunk_60() + other_letter_chunk_61()));
    push_other_letter_chunk_62(v);
    assert(rview(v@) =~= o + (other_letter_chunk_60() + other_letter_chunk_61() + other_letter_chunk_62()));
    push_other_letter_chunk_63(v);
    assert(rview(v@) =~= o + (other_letter_chunk_60() + other_letter_chunk_61() + other_letter_chunk_62() + other_letter_chunk_63()));
    push_other_letter_chunk_64(v);
    assert(rview(v@) =~= o + (other_letter_chunk_60() + other_letter_chunk_61() + other_letter_chunk_62() + other_letter_chunk_63() + other_letter_chunk_64()));
    push_other_letter_chunk_65(v);
    assert(rview(v@) =~= o + (other_letter_chunk_60() + other_letter_chunk_61() + other_letter_chunk_62() + other_letter_chunk_63() + other_letter_chunk_64() + other_letter_chunk_65()));
}

/// The ranges of the general category Other_Letter.
pub fn other_letter_class() -> (v: Vec<ClassUnicodeRange>)
    ensures
        rview(v@) == other_letter_ranges(),
{
    let mut v: Vec<ClassUnicodeRange> = Vec::new();
    assert(rview(v@) =~= Seq::<SRange>::empty());
    push_other_letter_block_0(&mut v);
    assert(rview(v@) =~= other_letter_block_0());
    push_other_letter_block_1(&mut v);
    assert(rview(v@) =~= other_letter_block_0() + other_letter_block_1());
    push_other_letter_block_2(&mut v);
    assert(rview(v@) =~= other_letter_block_0() + other_letter_block_1() + other_letter_block_2());
    push_other_letter_block_3(&mut v);
    assert(rview(v@) =~= other_letter_block_0() + other_letter_block_1() + other_letter_block_2() + other_letter_block_3());
    push_other_letter_block_4(&mut v);
    assert(rview(v@) =~= other_letter_block_0() + other_letter_block_1() + other_letter_block_2() + other_letter_block_3() + other_letter_block_4());
    push_other_letter_block_5(&mut v);
    assert(rview(v@) =~= other_letter_block_0() + other_letter_block_1() + other_letter_block_2() + other_letter_block_3() + other_letter_block_4() + other_letter_block_5());
    push_other_letter_block_6(&mut v);
    assert(rview(v@) =~= other_letter_block_0() + other_letter_block_1() + other_letter_block_2() + other_letter_block_3() + other_letter_block_4() + other_letter_block_5() + other_letter_block_6());
    v
}

pub open spec fn other_number_chunk_0() -> Seq<SRange> {
    seq![(0xB2int, 0xB3int), (0xB9int, 0xB9int), (0xBCint, 0xBEint), (0x9F4int, 0x9F9int), (0xB72int, 0xB77int), (0xBF0int, 0xBF2int), (0xC78int, 0xC7Eint), (0xD58int, 0xD5Eint)]
}

pub open spec fn other_number_chunk_1() -> Seq<SRange> {
    seq![(0xD70int, 0xD78int), (0xF2Aint, 0xF33int), (0x1369int, 0x137Cint), (0x17F0int, 0x17F9int), (0x19DAint, 0x19DAint), (0x2070int, 0x2070int), (0x2074int, 0x2079int), (0x2080int, 0x2089int)]
}

pub open spec fn other_number_chunk_2() -> Seq<SRange> {
    seq![(0x2150int, 0x215Fint), (0x2189int, 0x2189int), (0x2460int, 0x249Bint), (0x24EAint, 0x24FFint), (0x2776int, 0x2793int), (0x2CFDint, 0x2CFDint), (0x3192int, 0x3195int), (0x3220int, 0x3229int)]
}

pub open spec fn other_number_chunk_3() -> Seq<SRange> {
    seq![(0x3248int, 0x324Fint), (0x3251int, 0x325Fint), (0x3280int, 0x3289int), (0x32B1int, 0x32BFint), (0xA830int, 0xA835int), (0x10107int, 0x10133int), (0x10175int, 0x10178int), (0x1018Aint, 0x1018Bint)]
}

pub open spec fn other_number_chunk_4() -> Seq<SRange> {
    seq![(0x102E1int, 0x102FBint), (0x10320int, 0x10323int), (0x10858int, 0x1085Fint), (0x10879int, 0x1087Fint), (0x108A7int, 0x108AFint), (0x108FBint, 0x108FFint), (0x10916int, 0x1091Bint), (0x109BCint, 0x109BDint)]
}

pub open spec fn other_number_chunk_5() -> Seq<SRange> {
    seq![(0x109C0int, 0x109CFint), (0x109D2int, 0x109FFint), (0x10A40int, 0x10A48int), (0x10A7Dint, 0x10A7Eint), (0x10A9Dint, 0x10A9Fint), (0x10AEBint, 0x10AEFint), (0x10B58int, 0x10B5Fint), (0x10B78int, 0x10B7Fint)]
}

pub open spec fn other_number_chunk_6() -> Seq<SRange> {
    seq![(0x10BA9int, 0x10BAFint), (0x10CFAint, 0x10CFFint), (0x10E60int, 0x10E7Eint), (0x10F1Dint, 0x10F26int), (0x10F51int, 0x10F54int), (0x10FC5int, 0x10FCBint), (0x11052int, 0x11065int), (0x111E1int, 0x111F4int)]
}

pub open spec fn other_number_chunk_7() -> Seq<SRange> {
    seq![(0x1173Aint, 0x1173Bint), (0x118EAint, 0x118F2int), (0x11C5Aint, 0x11C6Cint), (0x11FC0int, 0x11FD4int), (0x16B5Bint, 0x16B61int), (0x16E80int, 0x16E96int), (0x1D2C0int, 0x1D2D3int), (0x1D2E0int, 0x1D2F3int)]
}

pub open spec fn other_number_chunk_8() -> Seq<SRange> {
    seq![(0x1D360int, 0x1D378int), (0x1E8C7int, 0x1E8CFint), (0x1EC71int, 0x1ECABint), (0x1ECADint, 0x1ECAFint), (0x1ECB1int, 0x1ECB4int), (0x1ED01int, 0x1ED2Dint), (0x1ED2Fint, 0x1ED3Dint), (0x1F100int, 0x1F10Cint)]
}

pub open spec fn other_number_block_0() -> Seq<SRange> {
    other_number_chunk_0() + other_number_chunk_1() + other_number_chunk_2() + other_number_chunk_3() + other_number_chunk_4() + other_number_chunk_5() + other_number_chunk_6() + other_number_chunk_7() + other_number_chunk_8()
}

/// The ranges of the general category Other_Number.
pub open spec fn other_number_ranges() -> Seq<SRange> {
    other_number_block_0()
}

proof fn lemma_other_number_block_0()
    ensures
        canonical(other_number_block_0()),
        other_number_block_0().len() > 0,
        other_number_block_0()[0] == other_number_chunk_0()[0],
        other_number_block_0().last() == other_number_chunk_8().last(),
{
    reveal_with_fuel(canonical, 9);
    assert(canonical(other_number_chunk_0()));
    assert(canonical(other_number_chunk_1()));
    assert(canonical(other_number_chunk_2()));
    assert(canonical(other_number_chunk_3()));
    assert(canonical(other_number_chunk_4()));
    assert(canonical(other_number_chunk_5()));
    assert(canonical(other_number_chunk_6()));
    assert(canonical(other_number_chunk_7()));
    assert(canonical(other_number_chunk_8()));
    lemma_canonical_append(other_number_chunk_0(), other_number_chunk_1());
    lemma_canonical_append(other_number_chunk_0() + other_number_chunk_1(), other_number_chunk_2());
    lemma_canonical_append(other_number_chunk_0() + other_number_chunk_1() + other_number_chunk_2(), other_number_chunk_3());
    lemma_canonical_append(other_number_chunk_0() + other_number_chunk_1() + other_number_chunk_2() + other_number_chunk_3(), other_number_chunk_4());
    lemma_canonical_append(other_number_chunk_0() + other_number_chunk_1() + other_number_chunk_2() + other_number_chunk_3() + other_number_chunk_4(), other_number_chunk_5());
    lemma_canonical_append(other_number_chunk_0() + other_number_chunk_1() + other_number_chunk_2() + other_number_chunk_3() + other_number_chunk_4() + other_number_chunk_5(), other_number_chunk_6());
    lemma_canonical_append(other_number_chunk_0() + other_number_chunk_1() + other_number_chunk_2() + other_number_chunk_3() + other_number_chunk_4() + other_number_chunk_5() + other_number_chunk_6(), other_number_chunk_7());
    lemma_canonical_append(other_number_chunk_0() + other_number_chunk_1() + other_number_chunk_2() + other_number_chunk_3() + other_number_chunk_4() + other_number_chunk_5() + other_number_chunk_6() + other_number_chunk_7(), other_number_chunk_8());
}

/// The general category Other_Number is a canonical class.
pub proof fn lemma_other_number_canonical()
    ensures
        canonical(other_number_ranges()),
{
    lemma_other_number_block_0();
}

fn push_other_number_chunk_0(v: &mut Vec<ClassUnicodeRange>)
    ensures
        rview(final(v)@) == rview(old(v)@) + other_number_chunk_0(),
{
    let ghost o = rview(v@);
    push_range(v, '\u{B2}', '\u{B3}');
    push_range(v, '\u{B9}', '\u{B9}');
    push_range(v, '\u{BC}', '\u{BE}');
    push_range(v, '\u{9F4}', '\u{9F9}');
    push_range(v, '\u{B72}', '\u{B77}');
    push_range(v, '\u{BF0}', '\u{BF2}');
    push_range(v, '\u{C78}', '\u{C7E}');
    push_range(v, '\u{D58}', '\u{D5E}');
    assert(rview(v@) =~= o + other_number_chunk_0());
}

fn push_other_number_chunk_1(v: &mut Vec<ClassUnicodeRange>)
    ensures
        rview(final(v)@) == rview(old(v)@) + other_number_chunk_1(),
{
    let ghost o = rview(v@);
    push_range(v, '\u{D70}', '\u{D78}');
    push_range(v, '\u{F2A}', '\u{F33}');
    push_range(v, '\u{1369}', '\u{137C}');
    push_range(v, '\u{17F0}', '\u{17F9}');
    push_range(v, '\u{19DA}', '\u{19DA}');
    push_range(v, '\u{2070}', '\u{2070}');
    push_range(v, '\u{2074}', '\u{2079}');
    push_range(v, '\u{2080}', '\u{2089}');
    assert(rview(v@) =~= o + other_number_chunk_1());
}

fn push_other_number_chunk_2(v: &mut Vec<ClassUnicodeRange>)
    ensures
        rview(final(v)@) == rview(old(v)@) + other_number_chunk_2(),
{
    let ghost o = rview(v@);
    push_range(v, '\u{2150}', '\u{215F}');
    push_range(v, '\u{2189}', '\u{2189}');
    push_range(v, '\u{2460}', '\u{249B}');
    push_range(v, '\u{24EA}', '\u{24FF}');
    push_range(v, '\u{2776}', '\u{2793}');
    push_range(v, '\u{2CFD}', '\u{2CFD}');
    push_range(v, '\u{3192}', '\u{3195}');
    push_range(v, '\u{3220}', '\u{3229}');
    assert(rview(v@) =~= o + other_number_chunk_2());
}

fn push_other_number_chunk_3(v: &mut Vec<ClassUnicodeRange>)
    ensures
        rview(final(v)@) == rview(old(v)@) + other_number_chunk_3(),
{
    let ghost o = rview(v@);
    push_range(v, '\u{3248}', '\u{324F}');
    push_range(v, '\u{3251}', '\u{325F}');
    push_range(v, '\u{3280}', '\u{3289}');
    push_range(v, '\u{32B1}', '\u{32BF}');
    push_range(v, '\u{A830}', '\u{A835}');
    push_range(v, '\u{10107}', '\u{10133}');
    push_range(v, '\u{10175}', '\u{10178}');
    push_range(v, '\u{1018A}', '\u{1018B}');
    assert(rview(v@) =~= o + other_number_chunk_3());
}

fn push_other_number_chunk_4(v: &mut Vec<ClassUnicodeRange>)
    ensures
        rview(final(v)@) == rview(old(v)@) + other_number_chunk_4(),
{
    let ghost o = rview(v@);
    push_range(v, '\u{102E1}', '\u{102FB}');
    push_range(v, '\u{10320}', '\u{10323}');
    push_range(v, '\u{10858}', '\u{1085F}');
    push_range(v, '\u{10879}', '\u{1087F}');
    push_range(v, '\u{108A7}', '\u{108AF}');
    push_range(v, '\u{108FB}', '\u{108FF}');
    push_range(v, '\u{10916}', '\u{1091B}');
    push_range(v, '\u{109BC}', '\u{109BD}');
    assert(rview(v@) =~= o + other_number_chunk_4());
}

fn push_other_number_chunk_5(v: &mut Vec<ClassUnicodeRange>)
    ensures
        rview(final(v)@) == rview(old(v)@) + other_number_chunk_5(),
{
    let ghost o = rview(v@);
    push_range(v, '\u{109C0}', '\u{109CF}');
    push_range(v, '\u{109D2}', '\u{109FF}');
    push_range(v, '\u{10A40}', '\u{10A48}');
    push_range(v, '\u{10A7D}', '\u{10A7E}');
    push_range(v, '\u{10A9D}', '\u{10A9F}');
    push_range(v, '\u{10AEB}', '\u{10AEF}');
    push_range(v, '\u{10B58}', '\u{10B5F}');
    push_range(v, '\u{10B78}', '\u{10B7F}');
    assert(rview(v@) =~= o + other_number_chunk_5());
}

fn push_other_number_chunk_6(v: &mut Vec<ClassUnicodeRange>)
    ensures
        rview(final(v)@) == rview(old(v)@) + other_number_chunk_6(),
{
    let ghost o = rview(v@);
    push_range(v, '\u{10BA9}', '\u{10BAF}');
    push_range(v, '\u{10CFA}', '\u{10CFF}');
    push_range(v, '\u{10E60}', '\u{10E7E}');
    push_range(v, '\u{10F1D}', '\u{10F26}');
    push_range(v, '\u{10F51}', '\u{10F54}');
    push_range(v, '\u{10FC5}', '\u{10FCB}');
    push_range(v, '\u{11052}', '\u{11065}');
    push_range(v, '\u{111E1}', '\u{111F4}');
    assert(rview(v@) =~= o + other_number_chunk_6());
}

fn push_other_number_chunk_7(v: &mut Vec<ClassUnicodeRange>)
    ensures
        rview(final(v)@) == rview(old(v)@) + other_number_chunk_7(),
{
    let ghost o = rview(v@);
    push_range(v, '\u{1173A}', '\u{1173B}');
    push_range(v, '\u{118EA}', '\u{118F2}');
    push_range(v, '\u{11C5A}', '\u{11C6C}');
    push_range(v, '\u{11FC0}', '\u{11FD4}');
    push_range(v, '\u{16B5B}', '\u{16B61}');
    push_range(v, '\u{16E80}', '\u{16E96}');
    push_range(v, '\u{1D2C0}', '\u{1D2D3}');
    push_range(v, '\u{1D2E0}', '\u{1D2F3}');
    assert(rview(v@) =~= o + other_number_chunk_7());
}

fn push_other_number_chunk_8(v: &mut Vec<ClassUnicodeRange>)
    ensures
        rview(final(v)@) == rview(old(v)@) + other_number_chunk_8(),
{
    let ghost o = rview(v@);
    push_range(v, '\u{1D360}', '\u{1D378}');
    push_range(v, '\u{1E8C7}', '\u{1E8CF}');
    push_range(v, '\u{1EC71}', '\u{1ECAB}');
    push_range(v, '\u{1ECAD}', '\u{1ECAF}');
    push_range(v, '\u{1ECB1}', '\u{1ECB4}');
    push_range(v, '\u{1ED01}', '\u{1ED2D}');
    push_range(v, '\u{1ED2F}', '\u{1ED3D}');
    push_range(v, '\u{1F100}', '\u{1F10C}');
    assert(rview(v@) =~= o + other_number_chunk_8());
}

fn push_other_number_block_0(v: &mut Vec<ClassUnicodeRange>)
    ensures
        rview(final(v)@) == rview(old(v)@) + other_number_block_0(),
{
    let ghost o = rview(v@);
    push_other_number_chunk_0(v);
    assert(rview(v@) =~= o + (other_number_chunk_0()));
    push_other_number_chunk_1(v);
    assert(rview(v@) =~= o + (other_number_chunk_0() + other_number_chunk_1()));
    push_other_number_chunk_2(v);
    assert(rview(v@) =~= o + (other_number_chunk_0() + other_number_chunk_1() + other_number_chunk_2()));
    push_other_number_chunk_3(v);
    assert(rview(v@) =~= o + (other_number_chunk_0() + other_number_chunk_1() + other_number_chunk_2() + other_number_chunk_3()));
    push_other_number_chunk_4(v);
    assert(rview(v@) =~= o + (other_number_chunk_0() + other_number_chunk_1() + other_number_chunk_2() + other_number_chunk_3() + other_number_chunk_4()));
    push_other_number_chunk_5(v);
    assert(rview(v@) =~= o + (other_number_chunk_0() + other_number_chunk_1() + other_number_chunk_2() + other_number_chunk_3() + other_number_chunk_4() + other_number_chunk_5()));
    push_other_number_chunk_6(v);
    assert(rview(v@) =~= o + (other_number_chunk_0() + other_number_chunk_1() + other_number_chunk_2() + other_number_chunk_3() + other_number_chunk_4() + other_number_chunk_5() + other_number_chunk_6()));
    push_other_number_chunk_7(v);
    assert(rview(v@) =~= o + (other_number_chunk_0() + other_number_chunk_1() + other_number_chunk_2() + other_number_chunk_3() + other_number_chunk_4() + other_number_chunk_5() + other_number_chunk_6() + other_number_chunk_7()));
    push_other_number_chunk_8(v);
    assert(rview(v@) =~= o + (other_number_chunk_0() + other_number_chunk_1() + other_number_chunk_2() + other_number_chunk_3() + other_number_chunk_4() + other_number_chunk_5() + other_number_chunk_6() + other_number_chunk_7() + other_number_chunk_8()));
}

/// The ranges of the general category Other_Number.
pub fn other_number_class() -> (v: Vec<ClassUnicodeRange>)
    ensures
        rview(v@) == other_number_ranges(),
{
    let mut v: Vec<ClassUnicodeRange> = Vec::new();
    assert(rview(v@) =~= Seq::<SRange>::empty());
    push_other_number_block_0(&mut v);
    assert(rview(v@) =~= other_number_block_0());
    v
}

pub open spec fn other_punctuation_chunk_0() -> Seq<SRange> {
    seq![(0x21int, 0x23int), (0x25int, 0x27int), (0x2Aint, 0x2Aint), (0x2Cint, 0x2Cint), (0x2Eint, 0x2Fint), (0x3Aint, 0x3Bint), (0x3Fint, 0x40int), (0x5Cint, 0x5Cint)]
}

pub open spec fn other_punctuation_chunk_1() -> Seq<SRange> {
    seq![(0xA1int, 0xA1int), (0xA7int, 0xA7int), (0xB6int, 0xB7int), (0xBFint, 0xBFint), (0x37Eint, 0x37Eint), (0x387int, 0x387int), (0x55Aint, 0x55Fint), (0x589int, 0x589int)]
}

pub open spec fn other_punctuation_chunk_2() -> Seq<SRange> {
    seq![(0x5C0int, 0x5C0int), (0x5C3int, 0x5C3int), (0x5C6int, 0x5C6int), (0x5F3int, 0x5F4int), (0x609int, 0x60Aint), (0x60Cint, 0x60Dint), (0x61Bint, 0x61Bint), (0x61Dint, 0x61Fint)]
}

pub open spec fn other_punctuation_chunk_3() -> Seq<SRange> {
    seq![(0x66Aint, 0x66Dint), (0x6D4int, 0x6D4int), (0x700int, 0x70Dint), (0x7F7int, 0x7F9int), (0x830int, 0x83Eint), (0x85Eint, 0x85Eint), (0x964int, 0x965int), (0x970int, 0x970int)]
}

pub open spec fn other_punctuation_chunk_4() -> Seq<SRange> {
    seq![(0x9FDint, 0x9FDint), (0xA76int, 0xA76int), (0xAF0int, 0xAF0int), (0xC77int, 0xC77int), (0xC84int, 0xC84int), (0xDF4int, 0xDF4int), (0xE4Fint, 0xE4Fint), (0xE5Aint, 0xE5Bint)]
}

pub open spec fn other_punctuation_chunk_5() -> Seq<SRange> {
    seq![(0xF04int, 0xF12int), (0xF14int, 0xF14int), (0xF85int, 0xF85int), (0xFD0int, 0xFD4int), (0xFD9int, 0xFDAint), (0x104Aint, 0x104Fint), (0x10FBint, 0x10FBint), (0x1360int, 0x1368int)]
}

pub open spec fn other_punctuation_chunk_6() -> Seq<SRange> {
    seq![(0x166Eint, 0x166Eint), (0x16EBint, 0x16EDint), (0x1735int, 0x1736int), (0x17D4int, 0x17D6int), (0x17D8int, 0x17DAint), (0x1800int, 0x1805int), (0x1807int, 0x180Aint), (0x1944int, 0x1945int)]
}

pub open spec fn other_punctuation_chunk_7() -> Seq<SRange> {
    seq![(0x1A1Eint, 0x1A1Fint), (0x1AA0int, 0x1AA6int), (0x1AA8int, 0x1AADint), (0x1B4Eint, 0x1B4Fint), (0x1B5Aint, 0x1B60int), (0x1B7Dint, 0x1B7Fint), (0x1BFCint, 0x1BFFint), (0x1C3Bint, 0x1C3Fint)]
}

pub open spec fn other_punctuation_chunk_8() -> Seq<SRange> {
    seq![(0x1C7Eint, 0x1C7Fint), (0x1CC0int, 0x1CC7int), (0x1CD3int, 0x1CD3int), (0x2016int, 0x2017int), (0x2020int, 0x2027int), (0x2030int, 0x2038int), (0x203Bint, 0x203Eint), (0x2041int, 0x2043int)]
}

pub open spec fn other_punctuation_chunk_9() -> Seq<SRange> {
    seq![(0x2047int, 0x2051int), (0x2053int, 0x2053int), (0x2055int, 0x205Eint), (0x2CF9int, 0x2CFCint), (0x2CFEint, 0x2CFFint), (0x2D70int, 0x2D70int), (0x2E00int, 0x2E01int), (0x2E06int, 0x2E08int)]
}

pub open spec fn other_punctuation_chunk_10() -> Seq<SRange> {
    seq![(0x2E0Bint, 0x2E0Bint), (0x2E0Eint, 0x2E16int), (0x2E18int, 0x2E19int), (0x2E1Bint, 0x2E1Bint), (0x2E1Eint, 0x2E1Fint), (0x2E2Aint, 0x2E2Eint), (0x2E30int, 0x2E39int), (0x2E3Cint, 0x2E3Fint)]
}

pub open spec fn other_punctuation_chunk_11() -> Seq<SRange> {
    seq![(0x2E41int, 0x2E41int), (0x2E43int, 0x2E4Fint), (0x2E52int, 0x2E54int), (0x3001int, 0x3003int), (0x303Dint, 0x303Dint), (0x30FBint, 0x30FBint), (0xA4FEint, 0xA4FFint), (0xA60Dint, 0xA60Fint)]
}

pub open spec fn other_punctuation_chunk_12() -> Seq<SRange> {
    seq![(0xA673int, 0xA673int), (0xA67Eint, 0xA67Eint), (0xA6F2int, 0xA6F7int), (0xA874int, 0xA877int), (0xA8CEint, 0xA8CFint), (0xA8F8int, 0xA8FAint), (0xA8FCint, 0xA8FCint), (0xA92Eint, 0xA92Fint)]
}

pub open spec fn other_punctuation_chunk_13() -> Seq<SRange> {
    seq![(0xA95Fint, 0xA95Fint), (0xA9C1int, 0xA9CDint), (0xA9DEint, 0xA9DFint), (0xAA5Cint, 0xAA5Fint), (0xAADEint, 0xAADFint), (0xAAF0int, 0xAAF1int), (0xABEBint, 0xABEBint), (0xFE10int, 0xFE16int)]
}

pub open spec fn other_punctuation_chunk_14() -> Seq<SRange> {
    seq![(0xFE19int, 0xFE19int), (0xFE30int, 0xFE30int), (0xFE45int, 0xFE46int), (0xFE49int, 0xFE4Cint), (0xFE50int, 0xFE52int), (0xFE54int, 0xFE57int), (0xFE5Fint, 0xFE61int), (0xFE68int, 0xFE68int)]
}

pub open spec fn other_punctuation_chunk_15() -> Seq<SRange> {
    seq![(0xFE6Aint, 0xFE6Bint), (0xFF01int, 0xFF03int), (0xFF05int, 0xFF07int), (0xFF0Aint, 0xFF0Aint), (0xFF0Cint, 0xFF0Cint), (0xFF0Eint, 0xFF0Fint), (0xFF1Aint, 0xFF1Bint), (0xFF1Fint, 0xFF20int)]
}

pub open spec fn other_punctuation_chunk_16() -> Seq<SRange> {
    seq![(0xFF3Cint, 0xFF3Cint), (0xFF61int, 0xFF61int), (0xFF64int, 0xFF65int), (0x10100int, 0x10102int), (0x1039Fint, 0x1039Fint), (0x103D0int, 0x103D0int), (0x1056Fint, 0x1056Fint), (0x10857int, 0x10857int)]
}

pub open spec fn other_punctuation_chunk_17() -> Seq<SRange> {
    seq![(0x1091Fint, 0x1091Fint), (0x1093Fint, 0x1093Fint), (0x10A50int, 0x10A58int), (0x10A7Fint, 0x10A7Fint), (0x10AF0int, 0x10AF6int), (0x10B39int, 0x10B3Fint), (0x10B99int, 0x10B9Cint), (0x10F55int, 0x10F59int)]
}

pub open spec fn other_punctuation_chunk_18() -> Seq<SRange> {
    seq![(0x10F86int, 0x10F89int), (0x11047int, 0x1104Dint), (0x110BBint, 0x110BCint), (0x110BEint, 0x110C1int), (0x11140int, 0x11143int), (0x11174int, 0x11175int), (0x111C5int, 0x111C8int), (0x111CDint, 0x111CDint)]
}

pub open spec fn other_punctuation_chunk_19() -> Seq<SRange> {
    seq![(0x111DBint, 0x111DBint), (0x111DDint, 0x111DFint), (0x11238int, 0x1123Dint), (0x112A9int, 0x112A9int), (0x113D4int, 0x113D5int), (0x113D7int, 0x113D8int), (0x1144Bint, 0x1144Fint), (0x1145Aint, 0x1145Bint)]
}

pub open spec fn other_punctuation_chunk_20() -> Seq<SRange> {
    seq![(0x1145Dint, 0x1145Dint), (0x114C6int, 0x114C6int), (0x115C1int, 0x115D7int), (0x11641int, 0x11643int), (0x11660int, 0x1166Cint), (0x116B9int, 0x116B9int), (0x1173Cint, 0x1173Eint), (0x1183Bint, 0x1183Bint)]
}

pub open spec fn other_punctuation_chunk_21() -> Seq<SRange> {
    seq![(0x11944int, 0x11946int), (0x119E2int, 0x119E2int), (0x11A3Fint, 0x11A46int), (0x11A9Aint, 0x11A9Cint), (0x11A9Eint, 0x11AA2int), (0x11B00int, 0x11B09int), (0x11BE1int, 0x11BE1int), (0x11C41int, 0x11C45int)]
}

pub open spec fn other_punctuation_chunk_22() -> Seq<SRange> {
    seq![(0x11C70int, 0x11C71int), (0x11EF7int, 0x11EF8int), (0x11F43int, 0x11F4Fint), (0x11FFFint, 0x11FFFint), (0x12470int, 0x12474int), (0x12FF1int, 0x12FF2int), (0x16A6Eint, 0x16A6Fint), (0x16AF5int, 0x16AF5int)]
}

pub open spec fn other_punctuation_chunk_23() -> Seq<SRange> {
    seq![(0x16B37int, 0x16B3Bint), (0x16B44int, 0x16B44int), (0x16D6Dint, 0x16D6Fint), (0x16E97int, 0x16E9Aint), (0x16FE2int, 0x16FE2int), (0x1BC9Fint, 0x1BC9Fint), (0x1DA87int, 0x1DA8Bint), (0x1E5FFint, 0x1E5FFint)]
}

pub open spec fn other_punctuation_chunk_24() -> Seq<SRange> {
    seq![(0x1E95Eint, 0x1E95Fint)]
}

pub open spec fn other_punctuation_block_0() -> Seq<SRange> {
    other_punctuation_chunk_0() + other_punctuation_chunk_1() + other_punctuation_chunk_2() + other_punctuation_chunk_3() + other_punctuation_chunk_4() + other_punctuation_chunk_5() + other_punctuation_chunk_6() + other_punctuation_chunk_7() + other_punctuation_chunk_8() + other_punctuation_chunk_9()
}

pub open spec fn other_punctuation_block_1() -> Seq<SRange> {
    other_punctuation_chunk_10() + other_punctuation_chunk_11() + other_punctuation_chunk_12() + other_punctuation_chunk_13() + other_punctuation_chunk_14() + other_punctuation_chunk_15() + other_punctuation_chunk_16() + other_punctuation_chunk_17() + other_punctuation_chunk_18() + other_punctuation_chunk_19()
}

pub open spec fn other_punctuation_block_2() -> Seq<SRange> {
    other_punctuation_chunk_20() + other_punctuation_chunk_21() + other_punctuation_chunk_22() + other_punctuation_chunk_23() + other_punctuation_chunk_24()
}

/// The ranges of the general category Other_Punctuation.
pub open spec fn other_punctuation_ranges() -> Seq<SRange> {
    other_punctuation_block_0() + other_punctuation_block_1() + other_punctuation_block_2()
}

proof fn lemma_other_punctuation_block_0()
    ensures
        canonical(other_punctuation_block_0()),
        other_punctuation_block_0().len() > 0,
        other_punctuation_block_0()[0] == other_punctuation_chunk_0()[0],
        other_punctuation_block_0().last() == other_punctuation_chunk_9().last(),
{
    reveal_with_fuel(canonical, 9);
    assert(canonical(other_punctuation_chunk_0()));
    assert(canonical(other_punctuation_chunk_1()));
    assert(canonical(other_punctuation_chunk_2()));
    assert(canonical(other_punctuation_chunk_3()));
    assert(canonical(other_punctuation_chunk_4()));
    assert(canonical(other_punctuation_chunk_5()));
    assert(canonical(other_punctuation_chunk_6()));
    assert(canonical(other_punctuation_chunk_7()));
    assert(canonical(other_punctuation_chunk_8()));
    assert(canonical(other_punctuation_chunk_9()));
    lemma_canonical_append(other_punctuation_chunk_0(), other_punctuation_chunk_1());
    lemma_canonical_append(other_punctuation_chunk_0() + other_punctuation_chunk_1(), other_punctuation_chunk_2());
    lemma_canonical_append(other_punctuation_chunk_0() + other_punctuation_chunk_1() + other_punctuation_chunk_2(), other_punctuation_chunk_3());
    lemma_canonical_append(other_punctuation_chunk_0() + other_punctuation_chunk_1() + other_punctuation_chunk_2() + other_punctuation_chunk_3(), other_punctuation_chunk_4());
    lemma_canonical_append(other_punctuation_chunk_0() + other_punctuation_chunk_1() + other_punctuation_chunk_2() + other_punctuation_chunk_3() + other_punctuation_chunk_4(), other_punctuation_chunk_5());
    lemma_canonical_append(other_punctuation_chunk_0() + other_punctuation_chunk_1() + other_punctuation_chunk_2() + other_punctuation_chunk_3() + other_punctuation_chunk_4() + other_punctuation_chunk_5(), other_punctuation_chunk_6());
    lemma_canonical_append(other_punctuation_chunk_0() + other_punctuation_chunk_1() + other_punctuation_chunk_2() + other_punctuation_chunk_3() + other_punctuation_chunk_4() + other_punctuation_chunk_5() + other_punctuation_chunk_6(), other_punctuation_chunk_7());
    lemma_canonical_append(other_punctuation_chunk_0() + other_punctuation_chunk_1() + other_punctuation_chunk_2() + other_punctuation_chunk_3() + other_punctuation_chunk_4() + other_punctuation_chunk_5() + other_punctuation_chunk_6() + other_punctuation_chunk_7(), other_punctuation_chunk_8());
    lemma_canonical_append(other_punctuation_chunk_0() + other_punctuation_chunk_1() + other_punctuation_chunk_2() + other_punctuation_chunk_3() + other_punctuation_chunk_4() + other_punctuation_chunk_5() + other_punctuation_chunk_6() + other_punctuation_chunk_7() + other_punctuation_chunk_8(), other_punctuation_chunk_9());
}

proof fn lemma_other_punctuation_block_1()
    ensures
        canonical(other_punctuation_block_1()),
        other_punctuation_block_1().len() > 0,
        other_punctuation_block_1()[0] == other_punctuation_chunk_10()[0],
        other_punctuation_block_1().last() == other_punctuation_chunk_19().last(),
{
    reveal_with_fuel(canonical, 9);
    assert(canonical(other_punctuation_chunk_10()));
    assert(canonical(other_punctuation_chunk_11()));
    assert(canonical(other_punctuation_chunk_12()));
    assert(canonical(other_punctuation_chunk_13()));
    assert(canonical(other_punctuation_chunk_14()));
    assert(canonical(other_punctuation_chunk_15()));
    assert(canonical(other_punctuation_chunk_16()));
    assert(canonical(other_punctuation_chunk_17()));
    assert(canonical(other_punctuation_chunk_18()));
    assert(canonical(other_punctuation_chunk_19()));
    lemma_canonical_append(other_punctuation_chunk_10(), other_punctuation_chunk_11());
    lemma_canonical_append(other_punctuation_chunk_10() + other_punctuation_chunk_11(), other_punctuation_chunk_12());
    lemma_canonical_append(other_punctuation_chunk_10() + other_punctuation_chunk_11() + other_punctuation_chunk_12(), other_punctuation_chunk_13());
    lemma_canonical_append(other_punctuation_chunk_10() + other_punctuation_chunk_11() + other_punctuation_chunk_12() + other_punctuation_chunk_13(), other_punctuation_chunk_14());
    lemma_canonical_append(other_punctuation_chunk_10() + other_punctuation_chunk_11() + other_punctuation_chunk_12() + other_punctuation_chunk_13() + other_punctuation_chunk_14(), other_punctuation_chunk_15());
    lemma_canonical_append(other_punctuation_chunk_10() + other_punctuation_chunk_11() + other_punctuation_chunk_12() + other_punctuation_chunk_13() + other_punctuation_chunk_14() + other_punctuation_chunk_15(), other_punctuation_chunk_16());
    lemma_canonical_append(other_punctuation_chunk_10() + other_punctuation_chunk_11() + other_punctuation_chunk_12() + other_punctuation_chunk_13() + other_punctuation_chunk_14() + other_punctuation_chunk_15() + other_punctuation_chunk_16(), other_punctuation_chunk_17());
    lemma_canonical_append(other_punctuation_chunk_10() + other_punctuation_chunk_11() + other_punctuation_chunk_12() + other_punctuation_chunk_13() + other_punctuation_chunk_14() + other_punctuation_chunk_15() + other_punctuation_chunk_16() + other_punctuation_chunk_17(), other_punctuation_chunk_18());
    lemma_canonical_append(other_punctuation_chunk_10() + other_punctuation_chunk_11() + other_punctuation_chunk_12() + other_punctuation_chunk_13() + other_punctuation_chunk_14() + other_punctuation_chunk_15() + other_punctuation_chunk_16() + other_punctuation_chunk_17() + other_punctuation_chunk_18(), other_punctuation_chunk_19());
}

proof fn lemma_other_punctuation_block_2()
    ensures
        canonical(other_punctuation_block_2()),
        other_punctuation_block_2().len() > 0,
        other_punctuation_block_2()[0] == other_punctuation_chunk_20()[0],
        other_punctuation_block_2().last() == other_punctuation_chunk_24().last(),
{
    reveal_with_fuel(canonical, 9);
    assert(canonical(other_punctuation_chunk_20()));
    assert(canonical(other_punctuation_chunk_21()));
    assert(canonical(other_punctuation_chunk_22()));
    assert(canonical(other_punctuation_chunk_23()));
    assert(canonical(other_punctuation_chunk_24()));
    lemma_canonical_append(other_punctuation_chunk_20(), other_punctuation_chunk_21());
    lemma_canonical_append(other_punctuation_chunk_20() + other_punctuation_chunk_21(), other_punctuation_chunk_22());
    lemma_canonical_append(other_punctuation_chunk_20() + other_punctuation_chunk_21() + other_punctuation_chunk_22(), other_punctuation_chunk_23());
    lemma_canonical_append(other_punctuation_chunk_20() + other_punctuation_chunk_21() + other_punctuation_chunk_22() + other_punctuation_chunk_23(), other_punctuation_chunk_24());
}

/// The general category Other_Punctuation is a canonical class.
pub proof fn lemma_other_punctuation_canonical()
    ensures
        canonical(other_punctuation_ranges()),
{
    lemma_other_punctuation_block_0();
    lemma_other_punctuation_block_1();
    lemma_other_punctuation_block_2();
    lemma_canonical_append(other_punctuation_block_0(), other_punctuation_block_1());
    lemma_canonical_append(other_punctuation_block_0() + other_punctuation_block_1(), other_punctuation_block_2());
}

fn push_other_punctuation_chunk_0(v: &mut Vec<ClassUnicodeRange>)
    ensures
        rview(final(v)@) == rview(old(v)@) + other_punctuation_chunk_0(),
{
    let ghost o = rview(v@);
    push_range(v, '\u{21}', '\u{23}');
    push_range(v, '\u{25}', '\u{27}');
    push_range(v, '\u{2A}', '\u{2A}');
    push_range(v, '\u{2C}', '\u{2C}');
    push_range(v, '\u{2E}', '\u{2F}');
    push_range(v, '\u{3A}', '\u{3B}');
    push_range(v, '\u{3F}', '\u{40}');
    push_range(v, '\u{5C}', '\u{5C}');
    assert(rview(v@) =~= o + other_punctuation_chunk_0());
}

fn push_other_punctuation_chunk_1(v: &mut Vec<ClassUnicodeRange>)
    ensures
        rview(final(v)@) == rview(old(v)@) + other_punctuation_chunk_1(),
{
    let ghost o = rview(v@);
    push_range(v, '\u{A1}', '\u{A1}');
    push_range(v, '\u{A7}', '\u{A7}');
    push_range(v, '\u{B6}', '\u{B7}');
    push_range(v, '\u{BF}', '\u{BF}');
    push_range(v, '\u{37E}', '\u{37E}');
    push_range(v, '\u{387}', '\u{387}');
    push_range(v, '\u{55A}', '\u{55F}');
    push_range(v, '\u{589}', '\u{589}');
    assert(rview(v@) =~= o + other_punctuation_chunk_1());
}

fn push_other_punctuation_chunk_2(v: &mut Vec<ClassUnicodeRange>)
    ensures
        rview(final(v)@) == rview(old(v)@) + other_punctuation_chunk_2(),
{
    let ghost o = rview(v@);
    push_range(v, '\u{5C0}', '\u{5C0}');
    push_range(v, '\u{5C3}', '\u{5C3}');
    push_range(v, '\u{5C6}', '\u{5C6}');
    push_range(v, '\u{5F3}', '\u{5F4}');
    push_range(v, '\u{609}', '\u{60A}');
    push_range(v, '\u{60C}', '\u{60D}');
    push_range(v, '\u{61B}', '\u{61B}');
    push_range(v, '\u{61D}', '\u{61F}');
    assert(rview(v@) =~= o + other_punctuation_chunk_2());
}

fn push_other_punctuation_chunk_3(v: &mut Vec<ClassUnicodeRange>)
    ensures
        rview(final(v)@) == rview(old(v)@) + other_punctuation_chunk_3(),
{
    let ghost o = rview(v@);
    push_range(v, '\u{66A}', '\u{66D}');
    push_range(v, '\u{6D4}', '\u{6D4}');
    push_range(v, '\u{700}', '\u{70D}');
    push_range(v, '\u{7F7}', '\u{7F9}');
    push_range(v, '\u{830}', '\u{83E}');
    push_range(v, '\u{85E}', '\u{85E}');
    push_range(v, '\u{964}', '\u{965}');
    push_range(v, '\u{970}', '\u{970}');
    assert(rview(v@) =~= o + other_punctuation_chunk_3());
}

fn push_other_punctuation_chunk_4(v: &mut Vec<ClassUnicodeRange>)
    ensures
        rview(final(v)@) == rview(old(v)@) + other_punctuation_chunk_4(),
{
    let ghost o = rview(v@);
    push_range(v, '\u{9FD}', '\u{9FD}');
    push_range(v, '\u{A76}', '\u{A76}');
    push_range(v, '\u{AF0}', '\u{AF0}');
    push_range(v, '\u{C77}', '\u{C77}');
    push_range(v, '\u{C84}', '\u{C84}');
    push_range(v, '\u{DF4}', '\u{DF4}');
    push_range(v, '\u{E4F}', '\u{E4F}');
    push_range(v, '\u{E5A}', '\u{E5B}');
    assert(rview(v@) =~= o + other_punctuation_chunk_4());
}

fn push_other_punctuation_chunk_5(v: &mut Vec<ClassUnicodeRange>)
    ensures
        rview(final(v)@) == rview(old(v)@) + other_punctuation_chunk_5(),
{
    let ghost o = rview(v@);
    push_range(v, '\u{F04}', '\u{F12}');
    push_range(v, '\u{F14}', '\u{F14}');
    push_range(v, '\u{F85}', '\u{F85}');
    push_range(v, '\u{FD0}', '\u{FD4}');
    push_range(v, '\u{FD9}', '\u{FDA}');
    push_range(v, '\u{104A}', '\u{104F}');
    push_range(v, '\u{10FB}', '\u{10FB}');
    push_range(v, '\u{1360}', '\u{1368}');
    assert(rview(v@) =~= o + other_punctuation_chunk_5());
}

fn push_other_punctuation_chunk_6(v: &mut Vec<ClassUnicodeRange>)
    ensures
        rview(final(v)@) == rview(old(v)@) + other_punctuation_chunk_6(),
{
    let ghost o = rview(v@);
    push_range(v, '\u{166E}', '\u{166E}');
    push_range(v, '\u{16EB}', '\u{16ED}');
    push_range(v, '\u{1735}', '\u{1736}');
    push_range(v, '\u{17D4}', '\u{17D6}');
    push_range(v, '\u{17D8}', '\u{17DA}');
    push_range(v, '\u{1800}', '\u{1805}');
    push_range(v, '\u{1807}', '\u{180A}');
    push_range(v, '\u{1944}', '\u{1945}');
    assert(rview(v@) =~= o + other_punctuation_chunk_6());
}

fn push_other_punctuation_chunk_7(v: &mut Vec<ClassUnicodeRange>)
    ensures
        rview(final(v)@) == rview(old(v)@) + other_punctuation_chunk_7(),
{
    let ghost o = rview(v@);
    push_range(v, '\u{1A1E}', '\u{1A1F}');
    push_range(v, '\u{1AA0}', '\u{1AA6}');
    push_range(v, '\u{1AA8}', '\u{1AAD}');
    push_range(v, '\u{1B4E}', '\u{1B4F}');
    push_range(v, '\u{1B5A}', '\u{1B60}');
    push_range(v, '\u{1B7D}', '\u{1B7F}');
    push_range(v, '\u{1BFC}', '\u{1BFF}');
    push_range(v, '\u{1C3B}', '\u{1C3F}');
    assert(rview(v@) =~= o + other_punctuation_chunk_7());
}

fn push_other_punctuation_chunk_8(v: &mut Vec<ClassUnicodeRange>)
    ensures
        rview(final(v)@) == rview(old(v)@) + other_punctuation_chunk_8(),
{
    let ghost o = rview(v@);
    push_range(v, '\u{1C7E}', '\u{1C7F}');
    push_range(v, '\u{1CC0}', '\u{1CC7}');
    push_range(v, '\u{1CD3}', '\u{1CD3}');
    push_range(v, '\u{2016}', '\u{2017}');
    push_range(v, '\u{2020}', '\u{2027}');
    push_range(v, '\u{2030}', '\u{2038}');
    push_range(v, '\u{203B}', '\u{203E}');
    push_range(v, '\u{2041}', '\u{2043}');
    assert(rview(v@) =~= o + other_punctuation_chunk_8());
}

fn push_other_punctuation_chunk_9(v: &mut Vec<ClassUnicodeRange>)
    ensures
        rview(final(v)@) == rview(old(v)@) + other_punctuation_chunk_9(),
{
    let ghost o = rview(v@);
    push_range(v, '\u{2047}', '\u{2051}');
    push_range(v, '\u{2053}', '\u{2053}');
    push_range(v, '\u{2055}', '\u{205E}');
    push_range(v, '\u{2CF9}', '\u{2CFC}');
    push_range(v, '\u{2CFE}', '\u{2CFF}');
    push_range(v, '\u{2D70}', '\u{2D70}');
    push_range(v, '\u{2E00}', '\u{2E01}');
    push_range(v, '\u{2E06}', '\u{2E08}');
    assert(rview(v@) =~= o + other_punctuation_chunk_9());
}

fn push_other_punctuation_chunk_10(v: &mut Vec<ClassUnicodeRange>)
    ensures
        rview(final(v)@) == rview(old(v)@) + other_punctuation_chunk_10(),
{
    let ghost o = rview(v@);
    push_range(v, '\u{2E0B}', '\u{2E0B}');
    push_range(v, '\u{2E0E}', '\u{2E16}');
    push_range(v, '\u{2E18}', '\u{2E19}');
    push_range(v, '\u{2E1B}', '\u{2E1B}');
    push_range(v, '\u{2E1E}', '\u{2E1F}');
    push_range(v, '\u{2E2A}', '\u{2E2E}');
    push_range(v, '\u{2E30}', '\u{2E39}');
    push_range(v, '\u{2E3C}', '\u{2E3F}');
    assert(rview(v@) =~= o + other_punctuation_chunk_10());
}

fn push_other_punctuation_chunk_11(v: &mut Vec<ClassUnicodeRange>)
    ensures
        rview(final(v)@) == rview(old(v)@) + other_punctuation_chunk_11(),
{
    let ghost o = rview(v@);
    push_range(v, '\u{2E41}', '\u{2E41}');
    push_range(v, '\u{2E43}', '\u{2E4F}');
    push_range(v, '\u{2E52}', '\u{2E54}');
    push_range(v, '\u{3001}', '\u{3003}');
    push_range(v, '\u{303D}', '\u{303D}');
    push_range(v, '\u{30FB}', '\u{30FB}');
    push_range(v, '\u{A4FE}', '\u{A4FF}');
    push_range(v, '\u{A60D}', '\u{A60F}');
    assert(rview(v@) =~= o + other_punctuation_chunk_11());
}

fn push_other_punctuation_chunk_12(v: &mut Vec<ClassUnicodeRange>)
    ensures
        rview(final(v)@) == rview(old(v)@) + other_punctuation_chunk_12(),
{
    let ghost o = rview(v@);
    push_range(v, '\u{A673}', '\u{A673}');
    push_range(v, '\u{A67E}', '\u{A67E}');
    push_range(v, '\u{A6F2}', '\u{A6F7}');
    push_range(v, '\u{A874}', '\u{A877}');
    push_range(v, '\u{A8CE}', '\u{A8CF}');
    push_range(v, '\u{A8F8}', '\u{A8FA}');
    push_range(v, '\u{A8FC}', '\u{A8FC}');
    push_range(v, '\u{A92E}', '\u{A92F}');
    assert(rview(v@) =~= o + other_punctuation_chunk_12());
}

fn push_other_punctuation_chunk_13(v: &mut Vec<ClassUnicodeRange>)
    ensures
        rview(final(v)@) == rview(old(v)@) + other_punctuation_chunk_13(),
{
    let ghost o = rview(v@);
    push_range(v, '\u{A95F}', '\u{A95F}');
    push_range(v, '\u{A9C1}', '\u{A9CD}');
    push_range(v, '\u{A9DE}', '\u{A9DF}');
    push_range(v, '\u{AA5C}', '\u{AA5F}');
    push_range(v, '\u{AADE}', '\u{AADF}');
    push_range(v, '\u{AAF0}', '\u{AAF1}');
    push_range(v, '\u{ABEB}', '\u{ABEB}');
    push_range(v, '\u{FE10}', '\u{FE16}');
    assert(rview(v@) =~= o + other_punctuation_chunk_13());
}

fn push_other_punctuation_chunk_14(v: &mut Vec<ClassUnicodeRange>)
    ensures
        rview(final(v)@) == rview(old(v)@) + other_punctuation_chunk_14(),
{
    let ghost o = rview(v@);
    push_range(v, '\u{FE19}', '\u{FE19}');
    push_range(v, '\u{FE30}', '\u{FE30}');
    push_range(v, '\u{FE45}', '\u{FE46}');
    push_range(v, '\u{FE49}', '\u{FE4C}');
    push_range(v, '\u{FE50}', '\u{FE52}');
    push_range(v, '\u{FE54}', '\u{FE57}');
    push_range(v, '\u{FE5F}', '\u{FE61}');
    push_range(v, '\u{FE68}', '\u{FE68}');
    assert(rview(v@) =~= o + other_punctuation_chunk_14());
}

fn push_other_punctuation_chunk_15(v: &mut Vec<ClassUnicodeRange>)
    ensures
        rview(final(v)@) == rview(old(v)@) + other_punctuation_chunk_15(),
{
    let ghost o = rview(v@);
    push_range(v, '\u{FE6A}', '\u{FE6B}');
    push_range(v, '\u{FF01}', '\u{FF03}');
    push_range(v, '\u{FF05}', '\u{FF07}');
    push_range(v, '\u{FF0A}', '\u{FF0A}');
    push_range(v, '\u{FF0C}', '\u{FF0C}');
    push_range(v, '\u{FF0E}', '\u{FF0F}');
    push_range(v, '\u{FF1A}', '\u{FF1B}');
    push_range(v, '\u{FF1F}', '\u{FF20}');
    assert(rview(v@) =~= o + other_punctuation_chunk_15());
}

fn push_other_punctuation_chunk_16(v: &mut Vec<ClassUnicodeRange>)
    ensures
        rview(final(v)@) == rview(old(v)@) + other_punctuation_chunk_16(),
{
    let ghost o = rview(v@);
    push_range(v, '\u{FF3C}', '\u{FF3C}');
    push_range(v, '\u{FF61}', '\u{FF61}');
    push_range(v, '\u{FF64}', '\u{FF65}');
    push_range(v, '\u{10100}', '\u{10102}');
    push_range(v, '\u{1039F}', '\u{1039F}');
    push_range(v, '\u{103D0}', '\u{103D0}');
    push_range(v, '\u{1056F}', '\u{1056F}');
    push_range(v, '\u{10857}', '\u{10857}');
    assert(rview(v@) =~= o + other_punctuation_chunk_16());
}

fn push_other_punctuation_chunk_17(v: &mut Vec<ClassUnicodeRange>)
    ensures
        rview(final(v)@) == rview(old(v)@) + other_punctuation_chunk_17(),
{
    let ghost o = rview(v@);
    push_range(v, '\u{1091F}', '\u{1091F}');
    push_range(v, '\u{1093F}', '\u{1093F}');
    push_range(v, '\u{10A50}', '\u{10A58}');
    push_range(v, '\u{10A7F}', '\u{10A7F}');
    push_range(v, '\u{10AF0}', '\u{10AF6}');
    push_range(v, '\u{10B39}', '\u{10B3F}');
    push_range(v, '\u{10B99}', '\u{10B9C}');
    push_range(v, '\u{10F55}', '\u{10F59}');
    assert(rview(v@) =~= o + other_punctuation_chunk_17());
}

fn push_other_punctuation_chunk_18(v: &mut Vec<ClassUnicodeRange>)
    ensures
        rview(final(v)@) == rview(old(v)@) + other_punctuation_chunk_18(),
{
    let ghost o = rview(v@);
    push_range(v, '\u{10F86}', '\u{10F89}');
    push_range(v, '\u{11047}', '\u{1104D}');
    push_range(v, '\u{110BB}', '\u{110BC}');
    push_range(v, '\u{110BE}', '\u{110C1}');
    push_range(v, '\u{11140}', '\u{11143}');
    push_range(v, '\u{11174}', '\u{11175}');
    push_range(v, '\u{111C5}', '\u{111C8}');
    push_range(v, '\u{111CD}', '\u{111CD}');
    assert(rview(v@) =~= o + other_punctuation_chunk_18());
}

fn push_other_punctuation_chunk_19(v: &mut Vec<ClassUnicodeRange>)
    ensures
        rview(final(v)@) == rview(old(v)@) + other_punctuation_chunk_19(),
{
    let ghost o = rview(v@);
    push_range(v, '\u{111DB}', '\u{111DB}');
    push_range(v, '\u{111DD}', '\u{111DF}');
    push_range(v, '\u{11238}', '\u{1123D}');
    push_range(v, '\u{112A9}', '\u{112A9}');
    push_range(v, '\u{113D4}', '\u{113D5}');
    push_range(v, '\u{113D7}', '\u{113D8}');
    push_range(v, '\u{1144B}', '\u{1144F}');
    push_range(v, '\u{1145A}', '\u{1145B}');
    assert(rview(v@) =~= o + other_punctuation_chunk_19());
}

fn push_other_punctuation_chunk_20(v: &mut Vec<ClassUnicodeRange>)
    ensures
        rview(final(v)@) == rview(old(v)@) + other_punctuation_chunk_20(),
{
    let ghost o = rview(v@);
    push_range(v, '\u{1145D}', '\u{1145D}');
    push_range(v, '\u{114C6}', '\u{114C6}');
    push_range(v, '\u{115C1}', '\u{115D7}');
    push_range(v, '\u{11641}', '\u{11643}');
    push_range(v, '\u{11660}', '\u{1166C}');
    push_range(v, '\u{116B9}', '\u{116B9}');
    push_range(v, '\u{1173C}', '\u{1173E}');
    push_range(v, '\u{1183B}', '\u{1183B}');
    assert(rview(v@) =~= o + other_punctuation_chunk_20());
}

fn push_other_punctuation_chunk_21(v: &mut Vec<ClassUnicodeRange>)
    ensures
        rview(final(v)@) == rview(old(v)@) + other_punctuation_chunk_21(),
{
    let ghost o = rview(v@);
    push_range(v, '\u{11944}', '\u{11946}');
    push_range(v, '\u{119E2}', '\u{119E2}');
    push_range(v, '\u{11A3F}', '\u{11A46}');
    push_range(v, '\u{11A9A}', '\u{11A9C}');
    push_range(v, '\u{11A9E}', '\u{11AA2}');
    push_range(v, '\u{11B00}', '\u{11B09}');
    push_range(v, '\u{11BE1}', '\u{11BE1}');
    push_range(v, '\u{11C41}', '\u{11C45}');
    assert(rview(v@) =~= o + other_punctuation_chunk_21());
}

fn push_other_punctuation_chunk_22(v: &mut Vec<ClassUnicodeRange>)
    ensures
        rview(final(v)@) == rview(old(v)@) + other_punctuation_chunk_22(),
{
    let ghost o = rview(v@);
    push_range(v, '\u{11C70}', '\u{11C71}');
    push_range(v, '\u{11EF7}', '\u{11EF8}');
    push_range(v, '\u{11F43}', '\u{11F4F}');
    push_range(v, '\u{11FFF}', '\u{11FFF}');
    push_range(v, '\u{12470}', '\u{12474}');
    push_range(v, '\u{12FF1}', '\u{12FF2}');
    push_range(v, '\u{16A6E}', '\u{16A6F}');
    push_range(v, '\u{16AF5}', '\u{16AF5}');
    assert(rview(v@) =~= o + other_punctuation_chunk_22());
}

fn push_other_punctuation_chunk_23(v: &mut Vec<ClassUnicodeRange>)
    ensures
        rview(final(v)@) == rview(old(v)@) + other_punctuation_chunk_23(),
{
    let ghost o = rview(v@);
    push_range(v, '\u{16B37}', '\u{16B3B}');
    push_range(v, '\u{16B44}', '\u{16B44}');
    push_range(v, '\u{16D6D}', '\u{16D6F}');
    push_range(v, '\u{16E97}', '\u{16E9A}');
    push_range(v, '\u{16FE2}', '\u{16FE2}');
    push_range(v, '\u{1BC9F}', '\u{1BC9F}');
    push_range(v, '\u{1DA87}', '\u{1DA8B}');
    push_range(v, '\u{1E5FF}', '\u{1E5FF}');
    assert(rview(v@) =~= o + other_punctuation_chunk_23());
}

fn push_other_punctuation_chunk_24(v: &mut Vec<ClassUnicodeRange>)
    ensures
        rview(final(v)@) == rview(old(v)@) + other_punctuation_chunk_24(),
{
    let ghost o = rview(v@);
    push_range(v, '\u{1E95E}', '\u{1E95F}');
    assert(rview(v@) =~= o + other_punctuation_chunk_24());
}

fn push_other_punctuation_block_0(v: &mut Vec<ClassUnicodeRange>)
    ensures
        rview(final(v)@) == rview(old(v)@) + other_punctuation_block_0(),
{
    let ghost o = rview(v@);
    push_other_punctuation_chunk_0(v);
    assert(rview(v@) =~= o + (other_punctuation_chunk_0()));
    push_other_punctuation_chunk_1(v);
    assert(rview(v@) =~= o + (other_punctuation_chunk_0() + other_punctuation_chunk_1()));
    push_other_punctuation_chunk_2(v);
    assert(rview(v@) =~= o + (other_punctuation_chunk_0() + other_punctuation_chunk_1() + other_punctuation_chunk_2()));
    push_other_punctuation_chunk_3(v);
    assert(rview(v@) =~= o + (other_punctuation_chunk_0() + other_punctuation_chunk_1() + other_punctuation_chunk_2() + other_punctuation_chunk_3()));
    push_other_punctuation_chunk_4(v);
    assert(rview(v@) =~= o + (other_punctuation_chunk_0() + other_punctuation_chunk_1() + other_punctuation_chunk_2() + other_punctuation_chunk_3() + other_punctuation_chunk_4()));
    push_other_punctuation_chunk_5(v);
    assert(rview(v@) =~= o + (other_punctuation_chunk_0() + other_punctuation_chunk_1() + other_punctuation_chunk_2() + other_punctuation_chunk_3() + other_punctuation_chunk_4() + other_punctuation_chunk_5()));
    push_other_punctuation_chunk_6(v);
    assert(rview(v@) =~= o + (other_punctuation_chunk_0() + other_punctuation_chunk_1() + other_punctuation_chunk_2() + other_punctuation_chunk_3() + other_punctuation_chunk_4() + other_punctuation_chunk_5() + other_punctuation_chunk_6()));
    push_other_punctuation_chunk_7(v);
    assert(rview(v@) =~= o + (other_punctuation_chunk_0() + other_punctuation_chunk_1() + other_punctuation_chunk_2() + other_punctuation_chunk_3() + other_punctuation_chunk_4() + other_punctuation_chunk_5() + other_punctuation_chunk_6() + other_punctuation_chunk_7()));
    push_other_punctuation_chunk_8(v);
    assert(rview(v@) =~= o + (other_punctuation_chunk_0() + other_punctuation_chunk_1() + other_punctuation_chunk_2() + other_punctuation_chunk_3() + other_punctuation_chunk_4() + other_punctuation_chunk_5() + other_punctuation_chunk_6() + other_punctuation_chunk_7() + other_punctuation_chunk_8()));
    push_other_punctuation_chunk_9(v);
    assert(rview(v@) =~= o + (other_punctuation_chunk_0() + other_punctuation_chunk_1() + other_punctuation_chunk_2() + other_punctuation_chunk_3() + other_punctuation_chunk_4() + other_punctuation_chunk_5() + other_punctuation_chunk_6() + other_punctuation_chunk_7() + other_punctuation_chunk_8() + other_punctuation_chunk_9()));
}

fn push_other_punctuation_block_1(v: &mut Vec<ClassUnicodeRange>)
    ensures
        rview(final(v)@) == rview(old(v)@) + other_punctuation_block_1(),
{
    let ghost o = rview(v@);
    push_other_punctuation_chunk_10(v);
    assert(rview(v@) =~= o + (other_punctuation_chunk_10()));
    push_other_punctuation_chunk_11(v);
    assert(rview(v@) =~= o + (other_punctuation_chunk_10() + other_punctuation_chunk_11()));
    push_other_punctuation_chunk_12(v);
    assert(rview(v@) =~= o + (other_punctuation_chunk_10() + other_punctuation_chunk_11() + other_punctuation_chunk_12()));
    push_other_punctuation_chunk_13(v);
    assert(rview(v@) =~= o + (other_punctuation_chunk_10() + other_punctuation_chunk_11() + other_punctuation_chunk_12() + other_punctuation_chunk_13()));
    push_other_punctuation_chunk_14(v);
    assert(rview(v@) =~= o + (other_punctuation_chunk_10() + other_punctuation_chunk_11() + other_punctuation_chunk_12() + other_punctuation_chunk_13() + other_punctuation_chunk_14()));
    push_other_punctuation_chunk_15(v);
    assert(rview(v@) =~= o + (other_punctuation_chunk_10() + other_punctuation_chunk_11() + other_punctuation_chunk_12() + other_punctuation_chunk_13() + other_punctuation_chunk_14() + other_punctuation_chunk_15()));
    push_other_punctuation_chunk_16(v);
    assert(rview(v@) =~= o + (other_punctuation_chunk_10() + other_punctuation_chunk_11() + other_punctuation_chunk_12() + other_punctuation_chunk_13() + other_punctuation_chunk_14() + other_punctuation_chunk_15() + other_punctuation_chunk_16()));
    push_other_punctuation_chunk_17(v);
    assert(rview(v@) =~= o + (other_punctuation_chunk_10() + other_punctuation_chunk_11() + other_punctuation_chunk_12() + other_punctuation_chunk_13() + other_punctuation_chunk_14() + other_punctuation_chunk_15() + other_punctuation_chunk_16() + other_punctuation_chunk_17()));
    push_other_punctuation_chunk_18(v);
    assert(rview(v@) =~= o + (other_punctuation_chunk_10() + other_punctuation_chunk_11() + other_punctuation_chunk_12() + other_punctuation_chunk_13() + other_punctuation_chunk_14() + other_punctuation_chunk_15() + other_punctuation_chunk_16() + other_punctuation_chunk_17() + other_punctuation_chunk_18()));
    push_other_punctuation_chunk_19(v);
    assert(rview(v@) =~= o + (other_punctuation_chunk_10() + other_punctuation_chunk_11() + other_punctuation_chunk_12() + other_punctuation_chunk_13() + other_punctuation_chunk_14() + other_punctuation_chunk_15() + other_punctuation_chunk_16() + other_punctuation_chunk_17() + other_punctuation_chunk_18() + other_punctuation_chunk_19()));
}

fn push_other_punctuation_block_2(v: &mut Vec<ClassUnicodeRange>)
    ensures
        rview(final(v)@) == rview(old(v)@) + other_punctuation_block_2(),
{
    let ghost o = rview(v@);
    push_other_punctuation_chunk_20(v);
    assert(rview(v@) =~= o + (other_punctuation_chunk_20()));
    push_other_punctuation_chunk_21(v);
    assert(rview(v@) =~= o + (other_punctuation_chunk_20() + other_punctuation_chunk_21()));
    push_other_punctuation_chunk_22(v);
    assert(rview(v@) =~= o + (other_punctuation_chunk_20() + other_punctuation_chunk_21() + other_punctuation_chunk_22()));
    push_other_punctuation_chunk_23(v);
    assert(rview(v@) =~= o + (other_punctuation_chunk_20() + other_punctuation_chunk_21() + other_punctuation_chunk_22() + other_punctuation_chunk_23()));
    push_other_punctuation_chunk_24(v);
    assert(rview(v@) =~= o + (other_punctuation_chunk_20() + other_punctuation_chunk_21() + other_punctuation_chunk_22() + other_punctuation_chunk_23() + other_punctuation_chunk_24()));
}

/// The ranges of the general category Other_Punctuation.
pub fn other_punctuation_class() -> (v: Vec<ClassUnicodeRange>)
    ensures
        rview(v@) == other_punctuation_ranges(),
{
    let mut v: Vec<ClassUnicodeRange> = Vec::new();
    assert(rview(v@) =~= Seq::<SRange>::empty());
    push_other_punctuation_block_0(&mut v);
    assert(rview(v@) =~= other_punctuation_block_0());
    push_other_punctuation_block_1(&mut v);
    assert(rview(v@) =~= other_punctuation_block_0() + other_punctuation_block_1());
    push_other_punctuation_block_2(&mut v);
    assert(rview(v@) =~= other_punctuation_block_0() + other_punctuation_block_1() + other_punctuation_block_2());
    v
}

pub open spec fn other_symbol_chunk_0() -> Seq<SRange> {
    seq![(0xA6int, 0xA6int), (0xA9int, 0xA9int), (0xAEint, 0xAEint), (0xB0int, 0xB0int), (0x482int, 0x482int), (0x58Dint, 0x58Eint), (0x60Eint, 0x60Fint), (0x6DEint, 0x6DEint)]
}

pub open spec fn other_symbol_chunk_1() -> Seq<SRange> {
    seq![(0x6E9int, 0x6E9int), (0x6FDint, 0x6FEint), (0x7F6int, 0x7F6int), (0x9FAint, 0x9FAint), (0xB70int, 0xB70int), (0xBF3int, 0xBF8int), (0xBFAint, 0xBFAint), (0xC7Fint, 0xC7Fint)]
}

pub open spec fn other_symbol_chunk_2() -> Seq<SRange> {
    seq![(0xD4Fint, 0xD4Fint), (0xD79int, 0xD79int), (0xF01int, 0xF03int), (0xF13int, 0xF13int), (0xF15int, 0xF17int), (0xF1Aint, 0xF1Fint), (0xF34int, 0xF34int), (0xF36int, 0xF36int)]
}

pub open spec fn other_symbol_chunk_3() -> Seq<SRange> {
    seq![(0xF38int, 0xF38int), (0xFBEint, 0xFC5int), (0xFC7int, 0xFCCint), (0xFCEint, 0xFCFint), (0xFD5int, 0xFD8int), (0x109Eint, 0x109Fint), (0x1390int, 0x1399int), (0x166Dint, 0x166Dint)]
}

pub open spec fn other_symbol_chunk_4() -> Seq<SRange> {
    seq![(0x1940int, 0x1940int), (0x19DEint, 0x19FFint), (0x1B61int, 0x1B6Aint), (0x1B74int, 0x1B7Cint), (0x2100int, 0x2101int), (0x2103int, 0x2106int), (0x2108int, 0x2109int), (0x2114int, 0x2114int)]
}

pub open spec fn other_symbol_chunk_5() -> Seq<SRange> {
    seq![(0x2116int, 0x2117int), (0x211Eint, 0x2123int), (0x2125int, 0x2125int), (0x2127int, 0x2127int), (0x2129int, 0x2129int), (0x212Eint, 0x212Eint), (0x213Aint, 0x213Bint), (0x214Aint, 0x214Aint)]
}

pub open spec fn other_symbol_chunk_6() -> Seq<SRange> {
    seq![(0x214Cint, 0x214Dint), (0x214Fint, 0x214Fint), (0x218Aint, 0x218Bint), (0x2195int, 0x2199int), (0x219Cint, 0x219Fint), (0x21A1int, 0x21A2int), (0x21A4int, 0x21A5int), (0x21A7int, 0x21ADint)]
}

pub open spec fn other_symbol_chunk_7() -> Seq<SRange> {
    seq![(0x21AFint, 0x21CDint), (0x21D0int, 0x21D1int), (0x21D3int, 0x21D3int), (0x21D5int, 0x21F3int), (0x2300int, 0x2307int), (0x230Cint, 0x231Fint), (0x2322int, 0x2328int), (0x232Bint, 0x237Bint)]
}

pub open spec fn other_symbol_chunk_8() -> Seq<SRange> {
    seq![(0x237Dint, 0x239Aint), (0x23B4int, 0x23DBint), (0x23E2int, 0x2429int), (0x2440int, 0x244Aint), (0x249Cint, 0x24E9int), (0x2500int, 0x25B6int), (0x25B8int, 0x25C0int), (0x25C2int, 0x25F7int)]
}

pub open spec fn other_symbol_chunk_9() -> Seq<SRange> {
    seq![(0x2600int, 0x266Eint), (0x2670int, 0x2767int), (0x2794int, 0x27BFint), (0x2800int, 0x28FFint), (0x2B00int, 0x2B2Fint), (0x2B45int, 0x2B46int), (0x2B4Dint, 0x2B73int), (0x2B76int, 0x2B95int)]
}

pub open spec fn other_symbol_chunk_10() -> Seq<SRange> {
    seq![(0x2B97int, 0x2BFFint), (0x2CE5int, 0x2CEAint), (0x2E50int, 0x2E51int), (0x2E80int, 0x2E99int), (0x2E9Bint, 0x2EF3int), (0x2F00int, 0x2FD5int), (0x2FF0int, 0x2FFFint), (0x3004int, 0x3004int)]
}

pub open spec fn other_symbol_chunk_11() -> Seq<SRange> {
    seq![(0x3012int, 0x3013int), (0x3020int, 0x3020int), (0x3036int, 0x3037int), (0x303Eint, 0x303Fint), (0x3190int, 0x3191int), (0x3196int, 0x319Fint), (0x31C0int, 0x31E5int), (0x31EFint, 0x31EFint)]
}

pub open spec fn other_symbol_chunk_12() -> Seq<SRange> {
    seq![(0x3200int, 0x321Eint), (0x322Aint, 0x3247int), (0x3250int, 0x3250int), (0x3260int, 0x327Fint), (0x328Aint, 0x32B0int), (0x32C0int, 0x33FFint), (0x4DC0int, 0x4DFFint), (0xA490int, 0xA4C6int)]
}

pub open spec fn other_symbol_chunk_13() -> Seq<SRange> {
    seq![(0xA828int, 0xA82Bint), (0xA836int, 0xA837int), (0xA839int, 0xA839int), (0xAA77int, 0xAA79int), (0xFD40int, 0xFD4Fint), (0xFDCFint, 0xFDCFint), (0xFDFDint, 0xFDFFint), (0xFFE4int, 0xFFE4int)]
}

pub open spec fn other_symbol_chunk_14() -> Seq<SRange> {
    seq![(0xFFE8int, 0xFFE8int), (0xFFEDint, 0xFFEEint), (0xFFFCint, 0xFFFDint), (0x10137int, 0x1013Fint), (0x10179int, 0x10189int), (0x1018Cint, 0x1018Eint), (0x10190int, 0x1019Cint), (0x101A0int, 0x101A0int)]
}

pub open spec fn other_symbol_chunk_15() -> Seq<SRange> {
    seq![(0x101D0int, 0x101FCint), (0x10877int, 0x10878int), (0x10AC8int, 0x10AC8int), (0x1173Fint, 0x1173Fint), (0x11FD5int, 0x11FDCint), (0x11FE1int, 0x11FF1int), (0x16B3Cint, 0x16B3Fint), (0x16B45int, 0x16B45int)]
}

pub open spec fn other_symbol_chunk_16() -> Seq<SRange> {
    seq![(0x1BC9Cint, 0x1BC9Cint), (0x1CC00int, 0x1CCEFint), (0x1CD00int, 0x1CEB3int), (0x1CF50int, 0x1CFC3int), (0x1D000int, 0x1D0F5int), (0x1D100int, 0x1D126int), (0x1D129int, 0x1D164int), (0x1D16Aint, 0x1D16Cint)]
}

pub open spec fn other_symbol_chunk_17() -> Seq<SRange> {
    seq![(0x1D183int, 0x1D184int), (0x1D18Cint, 0x1D1A9int), (0x1D1AEint, 0x1D1EAint), (0x1D200int, 0x1D241int), (0x1D245int, 0x1D245int), (0x1D300int, 0x1D356int), (0x1D800int, 0x1D9FFint), (0x1DA37int, 0x1DA3Aint)]
}

pub open spec fn other_symbol_chunk_18() -> Seq<SRange> {
    seq![(0x1DA6Dint, 0x1DA74int), (0x1DA76int, 0x1DA83int), (0x1DA85int, 0x1DA86int), (0x1E14Fint, 0x1E14Fint), (0x1ECACint, 0x1ECACint), (0x1ED2Eint, 0x1ED2Eint), (0x1F000int, 0x1F02Bint), (0x1F030int, 0x1F093int)]
}

pub open spec fn other_symbol_chunk_19() -> Seq<SRange> {
    seq![(0x1F0A0int, 0x1F0AEint), (0x1F0B1int, 0x1F0BFint), (0x1F0C1int, 0x1F0CFint), (0x1F0D1int, 0x1F0F5int), (0x1F10Dint, 0x1F1ADint), (0x1F1E6int, 0x1F202int), (0x1F210int, 0x1F23Bint), (0x1F240int, 0x1F248int)]
}

pub open spec fn other_symbol_chunk_20() -> Seq<SRange> {
    seq![(0x1F250int, 0x1F251int), (0x1F260int, 0x1F265int), (0x1F300int, 0x1F3FAint), (0x1F400int, 0x1F6D7int), (0x1F6DCint, 0x1F6ECint), (0x1F6F0int, 0x1F6FCint), (0x1F700int, 0x1F776int), (0x1F77Bint, 0x1F7D9int)]
}

pub open spec fn other_symbol_chunk_21() -> Seq<SRange> {
    seq![(0x1F7E0int, 0x1F7EBint), (0x1F7F0int, 0x1F7F0int), (0x1F800int, 0x1F80Bint), (0x1F810int, 0x1F847int), (0x1F850int, 0x1F859int), (0x1F860int, 0x1F887int), (0x1F890int, 0x1F8ADint), (0x1F8B0int, 0x1F8BBint)]
}

pub open spec fn other_symbol_chunk_22() -> Seq<SRange> {
    seq![(0x1F8C0int, 0x1F8C1int), (0x1F900int, 0x1FA53int), (0x1FA60int, 0x1FA6Dint), (0x1FA70int, 0x1FA7Cint), (0x1FA80int, 0x1FA89int), (0x1FA8Fint, 0x1FAC6int), (0x1FACEint, 0x1FADCint), (0x1FADFint, 0x1FAE9int)]
}

pub open spec fn other_symbol_chunk_23() -> Seq<SRange> {
    seq![(0x1FAF0int, 0x1FAF8int), (0x1FB00int, 0x1FB92int), (0x1FB94int, 0x1FBEFint)]
}

pub open spec fn other_symbol_block_0() -> Seq<SRange> {
    other_symbol_chunk_0() + other_symbol_chunk_1() + other_symbol_chunk_2() + other_symbol_chunk_3() + other_symbol_chunk_4() + other_symbol_chunk_5() + other_symbol_chunk_6() + other_symbol_chunk_7() + other_symbol_chunk_8() + other_symbol_chunk_9()
}

pub open spec fn other_symbol_block_1() -> Seq<SRange> {
    other_symbol_chunk_10() + other_symbol_chunk_11() + other_symbol_chunk_12() + other_symbol_chunk_13() + other_symbol_chunk_14() + other_symbol_chunk_15() + other_symbol_chunk_16() + other_symbol_chunk_17() + other_symbol_chunk_18() + other_symbol_chunk_19()
}

pub open spec fn other_symbol_block_2() -> Seq<SRange> {
    other_symbol_chunk_20() + other_symbol_chunk_21() + other_symbol_chunk_22() + other_symbol_chunk_23()
}

/// The ranges of the general category Other_Symbol.
pub open spec fn other_symbol_ranges() -> Seq<SRange> {
    other_symbol_block_0() + other_symbol_block_1() + other_symbol_block_2()
}

proof fn lemma_other_symbol_block_0()
    ensures
        canonical(other_symbol_block_0()),
        other_symbol_block_0().len() > 0,
        other_symbol_block_0()[0] == other_symbol_chunk_0()[0],
        other_symbol_block_0().last() == other_symbol_chunk_9().last(),
{
    reveal_with_fuel(canonical, 9);
    assert(canonical(other_symbol_chunk_0()));
    assert(canonical(other_symbol_chunk_1()));
    assert(canonical(other_symbol_chunk_2()));
    assert(canonical(other_symbol_chunk_3()));
    assert(canonical(other_symbol_chunk_4()));
    assert(canonical(other_symbol_chunk_5()));
    assert(canonical(other_symbol_chunk_6()));
    assert(canonical(other_symbol_chunk_7()));
    assert(canonical(other_symbol_chunk_8()));
    assert(canonical(other_symbol_chunk_9()));
    lemma_canonical_append(other_symbol_chunk_0(), other_symbol_chunk_1());
    lemma_canonical_append(other_symbol_chunk_0() + other_symbol_chunk_1(), other_symbol_chunk_2());
    lemma_canonical_append(other_symbol_chunk_0() + other_symbol_chunk_1() + other_symbol_chunk_2(), other_symbol_chunk_3());
    lemma_canonical_append(other_symbol_chunk_0() + other_symbol_chunk_1() + other_symbol_chunk_2() + other_symbol_chunk_3(), other_symbol_chunk_4());
    lemma_canonical_append(other_symbol_chunk_0() + other_symbol_chunk_1() + other_symbol_chunk_2() + other_symbol_chunk_3() + other_symbol_chunk_4(), other_symbol_chunk_5());
    lemma_canonical_append(other_symbol_chunk_0() + other_symbol_chunk_1() + other_symbol_chunk_2() + other_symbol_chunk_3() + other_symbol_chunk_4() + other_symbol_chunk_5(), other_symbol_chunk_6());
    lemma_canonical_append(other_symbol_chunk_0() + other_symbol_chunk_1() + other_symbol_chunk_2() + other_symbol_chunk_3() + other_symbol_chunk_4() + other_symbol_chunk_5() + other_symbol_chunk_6(), other_symbol_chunk_7());
    lemma_canonical_append(other_symbol_chunk_0() + other_symbol_chunk_1() + other_symbol_chunk_2() + other_symbol_chunk_3() + other_symbol_chunk_4() + other_symbol_chunk_5() + other_symbol_chunk_6() + other_symbol_chunk_7(), other_symbol_chunk_8());
    lemma_canonical_append(other_symbol_chunk_0() + other_symbol_chunk_1() + other_symbol_chunk_2() + other_symbol_chunk_3() + other_symbol_chunk_4() + other_symbol_chunk_5() + other_symbol_chunk_6() + other_symbol_chunk_7() + other_symbol_chunk_8(), other_symbol_chunk_9());
}

proof fn lemma_other_symbol_block_1()
    ensures
        canonical(other_symbol_block_1()),
        other_symbol_block_1().len() > 0,
        other_symbol_block_1()[0] == other_symbol_chunk_10()[0],
        other_symbol_block_1().last() == other_symbol_chunk_19().last(),
{
    reveal_with_fuel(canonical, 9);
    assert(canonical(other_symbol_chunk_10()));
    assert(canonical(other_symbol_chunk_11()));
    assert(canonical(other_symbol_chunk_12()));
    assert(canonical(other_symbol_chunk_13()));
    assert(canonical(other_symbol_chunk_14()));
    assert(canonical(other_symbol_chunk_15()));
    assert(canonical(other_symbol_chunk_16()));
    assert(canonical(other_symbol_chunk_17()));
    assert(canonical(other_symbol_chunk_18()));
    assert(canonical(other_symbol_chunk_19()));
    lemma_canonical_append(other_symbol_chunk_10(), other_symbol_chunk_11());
    lemma_canonical_append(other_symbol_chunk_10() + other_symbol_chunk_11(), other_symbol_chunk_12());
    lemma_canonical_append(other_symbol_chunk_10() + other_symbol_chunk_11() + other_symbol_chunk_12(), other_symbol_chunk_13());
    lemma_canonical_append(other_symbol_chunk_10() + other_symbol_chunk_11() + other_symbol_chunk_12() + other_symbol_chunk_13(), other_symbol_chunk_14());
    lemma_canonical_append(other_symbol_chunk_10() + other_symbol_chunk_11() + other_symbol_chunk_12() + other_symbol_chunk_13() + other_symbol_chunk_14(), other_symbol_chunk_15());
    lemma_canonical_append(other_symbol_chunk_10() + other_symbol_chunk_11() + other_symbol_chunk_12() + other_symbol_chunk_13() + other_symbol_chunk_14() + other_symbol_chunk_15(), other_symbol_chunk_16());
    lemma_canonical_append(other_symbol_chunk_10() + other_symbol_chunk_11() + other_symbol_chunk_12() + other_symbol_chunk_13() + other_symbol_chunk_14() + other_symbol_chunk_15() + other_symbol_chunk_16(), other_symbol_chunk_17());
    lemma_canonical_append(other_symbol_chunk_10() + other_symbol_chunk_11() + other_symbol_chunk_12() + other_symbol_chunk_13() + other_symbol_chunk_14() + other_symbol_chunk_15() + other_symbol_chunk_16() + other_symbol_chunk_17(), other_symbol_chunk_18());
    lemma_canonical_append(other_symbol_chunk_10() + other_symbol_chunk_11() + other_symbol_chunk_12() + other_symbol_chunk_13() + other_symbol_chunk_14() + other_symbol_chunk_15() + other_symbol_chunk_16() + other_symbol_chunk_17() + other_symbol_chunk_18(), other_symbol_chunk_19());
}

proof fn lemma_other_symbol_block_2()
    ensures
        canonical(other_symbol_block_2()),
        other_symbol_block_2().len() > 0,
        other_symbol_block_2()[0] == other_symbol_chunk_20()[0],
        other_symbol_block_2().last() == other_symbol_chunk_23().last(),
{
    reveal_with_fuel(canonical, 9);
    assert(canonical(other_symbol_chunk_20()));
    assert(canonical(other_symbol_chunk_21()));
    assert(canonical(other_symbol_chunk_22()));
    assert(canonical(other_symbol_chunk_23()));
    lemma_canonical_append(other_symbol_chunk_20(), other_symbol_chunk_21());
    lemma_canonical_append(other_symbol_chunk_20() + other_symbol_chunk_21(), other_symbol_chunk_22());
    lemma_canonical_append(other_symbol_chunk_20() + other_symbol_chunk_21() + other_symbol_chunk_22(), other_symbol_chunk_23());
}

/// The general category Other_Symbol is a canonical class.
pub proof fn lemma_other_symbol_canonical()
    ensures
        canonical(other_symbol_ranges()),
{
    lemma_other_symbol_block_0();
    lemma_other_symbol_block_1();
    lemma_other_symbol_block_2();
    lemma_canonical_append(other_symbol_block_0(), other_symbol_block_1());
    lemma_canonical_append(other_symbol_block_0() + other_symbol_block_1(), other_symbol_block_2());
}

fn push_other_symbol_chunk_0(v: &mut Vec<ClassUnicodeRange>)
    ensures
        rview(final(v)@) == rview(old(v)@) + other_symbol_chunk_0(),
{
    let ghost o = rview(v@);
    push_range(v, '\u{A6}', '\u{A6}');
    push_range(v, '\u{A9}', '\u{A9}');
    push_range(v, '\u{AE}', '\u{AE}');
    push_range(v, '\u{B0}', '\u{B0}');
    push_range(v, '\u{482}', '\u{482}');
    push_range(v, '\u{58D}', '\u{58E}');
    push_range(v, '\u{60E}', '\u{60F}');
    push_range(v, '\u{6DE}', '\u{6DE}');
    assert(rview(v@) =~= o + other_symbol_chunk_0());
}

fn push_other_symbol_chunk_1(v: &mut Vec<ClassUnicodeRange>)
    ensures
        rview(final(v)@) == rview(old(v)@) + other_symbol_chunk_1(),
{
    let ghost o = rview(v@);
    push_range(v, '\u{6E9}', '\u{6E9}');
    push_range(v, '\u{6FD}', '\u{6FE}');
    push_range(v, '\u{7F6}', '\u{7F6}');
    push_range(v, '\u{9FA}', '\u{9FA}');
    push_range(v, '\u{B70}', '\u{B70}');
    push_range(v, '\u{BF3}', '\u{BF8}');
    push_range(v, '\u{BFA}', '\u{BFA}');
    push_range(v, '\u{C7F}', '\u{C7F}');
    assert(rview(v@) =~= o + other_symbol_chunk_1());
}

fn push_other_symbol_chunk_2(v: &mut Vec<ClassUnicodeRange>)
    ensures
        rview(final(v)@) == rview(old(v)@) + other_symbol_chunk_2(),
{
    let ghost o = rview(v@);
    push_range(v, '\u{D4F}', '\u{D4F}');
    push_range(v, '\u{D79}', '\u{D79}');
    push_range(v, '\u{F01}', '\u{F03}');
    push_range(v, '\u{F13}', '\u{F13}');
    push_range(v, '\u{F15}', '\u{F17}');
    push_range(v, '\u{F1A}', '\u{F1F}');
    push_range(v, '\u{F34}', '\u{F34}');
    push_range(v, '\u{F36}', '\u{F36}');
    assert(rview(v@) =~= o + other_symbol_chunk_2());
}

fn push_other_symbol_chunk_3(v: &mut Vec<ClassUnicodeRange>)
    ensures
        rview(final(v)@) == rview(old(v)@) + other_symbol_chunk_3(),
{
    let ghost o = rview(v@);
    push_range(v, '\u{F38}', '\u{F38}');
    push_range(v, '\u{FBE}', '\u{FC5}');
    push_range(v, '\u{FC7}', '\u{FCC}');
    push_range(v, '\u{FCE}', '\u{FCF}');
    push_range(v, '\u{FD5}', '\u{FD8}');
    push_range(v, '\u{109E}', '\u{109F}');
    push_range(v, '\u{1390}', '\u{1399}');
    push_range(v, '\u{166D}', '\u{166D}');
    assert(rview(v@) =~= o + other_symbol_chunk_3());
}

fn push_other_symbol_chunk_4(v: &mut Vec<ClassUnicodeRange>)
    ensures
        rview(final(v)@) == rview(old(v)@) + other_symbol_chunk_4(),
{
    let ghost o = rview(v@);
    push_range(v, '\u{1940}', '\u{1940}');
    push_range(v, '\u{19DE}', '\u{19FF}');
    push_range(v, '\u{1B61}', '\u{1B6A}');
    push_range(v, '\u{1B74}', '\u{1B7C}');
    push_range(v, '\u{2100}', '\u{2101}');
    push_range(v, '\u{2103}', '\u{2106}');
    push_range(v, '\u{2108}', '\u{2109}');
    push_range(v, '\u{2114}', '\u{2114}');
    assert(rview(v@) =~= o + other_symbol_chunk_4());
}

fn push_other_symbol_chunk_5(v: &mut Vec<ClassUnicodeRange>)
    ensures
        rview(final(v)@) == rview(old(v)@) + other_symbol_chunk_5(),
{
    let ghost o = rview(v@);
    push_range(v, '\u{2116}', '\u{2117}');
    push_range(v, '\u{211E}', '\u{2123}');
    push_range(v, '\u{2125}', '\u{2125}');
    push_range(v, '\u{2127}', '\u{2127}');
    push_range(v, '\u{2129}', '\u{2129}');
    push_range(v, '\u{212E}', '\u{212E}');
    push_range(v, '\u{213A}', '\u{213B}');
    push_range(v, '\u{214A}', '\u{214A}');
    assert(rview(v@) =~= o + other_symbol_chunk_5());
}

fn push_other_symbol_chunk_6(v: &mut Vec<ClassUnicodeRange>)
    ensures
        rview(final(v)@) == rview(old(v)@) + other_symbol_chunk_6(),
{
    let ghost o = rview(v@);
    push_range(v, '\u{214C}', '\u{214D}');
    push_range(v, '\u{214F}', '\u{214F}');
    push_range(v, '\u{218A}', '\u{218B}');
    push_range(v, '\u{2195}', '\u{2199}');
    push_range(v, '\u{219C}', '\u{219F}');
    push_range(v, '\u{21A1}', '\u{21A2}');
    push_range(v, '\u{21A4}', '\u{21A5}');
    push_range(v, '\u{21A7}', '\u{21AD}');
    assert(rview(v@) =~= o + other_symbol_chunk_6());
}

fn push_other_symbol_chunk_7(v: &mut Vec<ClassUnicodeRange>)
    ensures
        rview(final(v)@) == rview(old(v)@) + other_symbol_chunk_7(),
{
    let ghost o = rview(v@);
    push_range(v, '\u{21AF}', '\u{21CD}');
    push_range(v, '\u{21D0}', '\u{21D1}');
    push_range(v, '\u{21D3}', '\u{21D3}');
    push_range(v, '\u{21D5}', '\u{21F3}');
    push_range(v, '\u{2300}', '\u{2307}');
    push_range(v, '\u{230C}', '\u{231F}');
    push_range(v, '\u{2322}', '\u{2328}');
    push_range(v, '\u{232B}', '\u{237B}');
    assert(rview(v@) =~= o + other_symbol_chunk_7());
}

fn push_other_symbol_chunk_8(v: &mut Vec<ClassUnicodeRange>)
    ensures
        rview(final(v)@) == rview(old(v)@) + other_symbol_chunk_8(),
{
    let ghost o = rview(v@);
    push_range(v, '\u{237D}', '\u{239A}');
    push_range(v, '\u{23B4}', '\u{23DB}');
    push_range(v, '\u{23E2}', '\u{2429}');
    push_range(v, '\u{2440}', '\u{244A}');
    push_range(v, '\u{249C}', '\u{24E9}');
    push_range(v, '\u{2500}', '\u{25B6}');
    push_range(v, '\u{25B8}', '\u{25C0}');
    push_range(v, '\u{25C2}', '\u{25F7}');
    assert(rview(v@) =~= o + other_symbol_chunk_8());
}

fn push_other_symbol_chunk_9(v: &mut Vec<ClassUnicodeRange>)
    ensures
        rview(final(v)@) == rview(old(v)@) + other_symbol_chunk_9(),
{
    let ghost o = rview(v@);
    push_range(v, '\u{2600}', '\u{266E}');
    push_range(v, '\u{2670}', '\u{2767}');
    push_range(v, '\u{2794}', '\u{27BF}');
    push_range(v, '\u{2800}', '\u{28FF}');
    push_range(v, '\u{2B00}', '\u{2B2F}');
    push_range(v, '\u{2B45}', '\u{2B46}');
    push_range(v, '\u{2B4D}', '\u{2B73}');
    push_range(v, '\u{2B76}', '\u{2B95}');
    assert(rview(v@) =~= o + other_symbol_chunk_9());
}

fn push_other_symbol_chunk_10(v: &mut Vec<ClassUnicodeRange>)
    ensures
        rview(final(v)@) == rview(old(v)@) + other_symbol_chunk_10(),
{
    let ghost o = rview(v@);
    push_range(v, '\u{2B97}', '\u{2BFF}');
    push_range(v, '\u{2CE5}', '\u{2CEA}');
    push_range(v, '\u{2E50}', '\u{2E51}');
    push_range(v, '\u{2E80}', '\u{2E99}');
    push_range(v, '\u{2E9B}', '\u{2EF3}');
    push_range(v, '\u{2F00}', '\u{2FD5}');
    push_range(v, '\u{2FF0}', '\u{2FFF}');
    push_range(v, '\u{3004}', '\u{3004}');
    assert(rview(v@) =~= o + other_symbol_chunk_10());
}

fn push_other_symbol_chunk_11(v: &mut Vec<ClassUnicodeRange>)
    ensures
        rview(final(v)@) == rview(old(v)@) + other_symbol_chunk_11(),
{
    let ghost o = rview(v@);
    push_range(v, '\u{3012}', '\u{3013}');
    push_range(v, '\u{3020}', '\u{3020}');
    push_range(v, '\u{3036}', '\u{3037}');
    push_range(v, '\u{303E}', '\u{303F}');
    push_range(v, '\u{3190}', '\u{3191}');
    push_range(v, '\u{3196}', '\u{319F}');
    push_range(v, '\u{31C0}', '\u{31E5}');
    push_range(v, '\u{31EF}', '\u{31EF}');
    assert(rview(v@) =~= o + other_symbol_chunk_11());
}

fn push_other_symbol_chunk_12(v: &mut Vec<ClassUnicodeRange>)
    ensures
        rview(final(v)@) == rview(old(v)@) + other_symbol_chunk_12(),
{
    let ghost o = rview(v@);
    push_range(v, '\u{3200}', '\u{321E}');
    push_range(v, '\u{322A}', '\u{3247}');
    push_range(v, '\u{3250}', '\u{3250}');
    push_range(v, '\u{3260}', '\u{327F}');
    push_range(v, '\u{328A}', '\u{32B0}');
    push_range(v, '\u{32C0}', '\u{33FF}');
    push_range(v, '\u{4DC0}', '\u{4DFF}');
    push_range(v, '\u{A490}', '\u{A4C6}');
    assert(rview(v@) =~= o + other_symbol_chunk_12());
}

fn push_other_symbol_chunk_13(v: &mut Vec<ClassUnicodeRange>)
    ensures
        rview(final(v)@) == rview(old(v)@) + other_symbol_chunk_13(),
{
    let ghost o = rview(v@);
    push_range(v, '\u{A828}', '\u{A82B}');
    push_range(v, '\u{A836}', '\u{A837}');
    push_range(v, '\u{A839}', '\u{A839}');
    push_range(v, '\u{AA77}', '\u{AA79}');
    push_range(v, '\u{FD40}', '\u{FD4F}');
    push_range(v, '\u{FDCF}', '\u{FDCF}');
    push_range(v, '\u{FDFD}', '\u{FDFF}');
    push_range(v, '\u{FFE4}', '\u{FFE4}');
    assert(rview(v@) =~= o + other_symbol_chunk_13());
}

fn push_other_symbol_chunk_14(v: &mut Vec<ClassUnicodeRange>)
    ensures
        rview(final(v)@) == rview(old(v)@) + other_symbol_chunk_14(),
{
    let ghost o = rview(v@);
    push_range(v, '\u{FFE8}', '\u{FFE8}');
    push_range(v, '\u{FFED}', '\u{FFEE}');
    push_range(v, '\u{FFFC}', '\u{FFFD}');
    push_range(v, '\u{10137}', '\u{1013F}');
    push_range(v, '\u{10179}', '\u{10189}');
    push_range(v, '\u{1018C}', '\u{1018E}');
    push_range(v, '\u{10190}', '\u{1019C}');
    push_range(v, '\u{101A0}', '\u{101A0}');
    assert(rview(v@) =~= o + other_symbol_chunk_14());
}

fn push_other_symbol_chunk_15(v: &mut Vec<ClassUnicodeRange>)
    ensures
        rview(final(v)@) == rview(old(v)@) + other_symbol_chunk_15(),
{
    let ghost o = rview(v@);
    push_range(v, '\u{101D0}', '\u{101FC}');
    push_range(v, '\u{10877}', '\u{10878}');
    push_range(v, '\u{10AC8}', '\u{10AC8}');
    push_range(v, '\u{1173F}', '\u{1173F}');
    push_range(v, '\u{11FD5}', '\u{11FDC}');
    push_range(v, '\u{11FE1}', '\u{11FF1}');
    push_range(v, '\u{16B3C}', '\u{16B3F}');
    push_range(v, '\u{16B45}', '\u{16B45}');
    assert(rview(v@) =~= o + other_symbol_chunk_15());
}

fn push_other_symbol_chunk_16(v: &mut Vec<ClassUnicodeRange>)
    ensures
        rview(final(v)@) == rview(old(v)@) + other_symbol_chunk_16(),
{
    let ghost o = rview(v@);
    push_range(v, '\u{1BC9C}', '\u{1BC9C}');
    push_range(v, '\u{1CC00}', '\u{1CCEF}');
    push_range(v, '\u{1CD00}', '\u{1CEB3}');
    push_range(v, '\u{1CF50}', '\u{1CFC3}');
    push_range(v, '\u{1D000}', '\u{1D0F5}');
    push_range(v, '\u{1D100}', '\u{1D126}');
    push_range(v, '\u{1D129}', '\u{1D164}');
    push_range(v, '\u{1D16A}', '\u{1D16C}');
    assert(rview(v@) =~= o + other_symbol_chunk_16());
}

fn push_other_symbol_chunk_17(v: &mut Vec<ClassUnicodeRange>)
    ensures
        rview(final(v)@) == rview(old(v)@) + other_symbol_chunk_17(),
{
    let ghost o = rview(v@);
    push_range(v, '\u{1D183}', '\u{1D184}');
    push_range(v, '\u{1D18C}', '\u{1D1A9}');
    push_range(v, '\u{1D1AE}', '\u{1D1EA}');
    push_range(v, '\u{1D200}', '\u{1D241}');
    push_range(v, '\u{1D245}', '\u{1D245}');
    push_range(v, '\u{1D300}', '\u{1D356}');
    push_range(v, '\u{1D800}', '\u{1D9FF}');
    push_range(v, '\u{1DA37}', '\u{1DA3A}');
    assert(rview(v@) =~= o + other_symbol_chunk_17());
}

fn push_other_symbol_chunk_18(v: &mut Vec<ClassUnicodeRange>)
    ensures
        rview(final(v)@) == rview(old(v)@) + other_symbol_chunk_18(),
{
    let ghost o = rview(v@);
    push_range(v, '\u{1DA6D}', '\u{1DA74}');
    push_range(v, '\u{1DA76}', '\u{1DA83}');
    push_range(v, '\u{1DA85}', '\u{1DA86}');
    push_range(v, '\u{1E14F}', '\u{1E14F}');
    push_range(v, '\u{1ECAC}', '\u{1ECAC}');
    push_range(v, '\u{1ED2E}', '\u{1ED2E}');
    push_range(v, '\u{1F000}', '\u{1F02B}');
    push_range(v, '\u{1F030}', '\u{1F093}');
    assert(rview(v@) =~= o + other_symbol_chunk_18());
}

fn push_other_symbol_chunk_19(v: &mut Vec<ClassUnicodeRange>)
    ensures
        rview(final(v)@) == rview(old(v)@) + other_symbol_chunk_19(),
{
    let ghost o = rview(v@);
    push_range(v, '\u{1F0A0}', '\u{1F0AE}');
    push_range(v, '\u{1F0B1}', '\u{1F0BF}');
    push_range(v, '\u{1F0C1}', '\u{1F0CF}');
    push_range(v, '\u{1F0D1}', '\u{1F0F5}');
    push_range(v, '\u{1F10D}', '\u{1F1AD}');
    push_range(v, '\u{1F1E6}', '\u{1F202}');
    push_range(v, '\u{1F210}', '\u{1F23B}');
    push_range(v, '\u{1F240}', '\u{1F248}');
    assert(rview(v@) =~= o + other_symbol_chunk_19());
}

fn push_other_symbol_chunk_20(v: &mut Vec<ClassUnicodeRange>)
    ensures
        rview(final(v)@) == rview(old(v)@) + other_symbol_chunk_20(),
{
    let ghost o = rview(v@);
    push_range(v, '\u{1F250}', '\u{1F251}');
    push_range(v, '\u{1F260}', '\u{1F265}');
    push_range(v, '\u{1F300}', '\u{1F3FA}');
    push_range(v, '\u{1F400}', '\u{1F6D7}');
    push_range(v, '\u{1F6DC}', '\u{1F6EC}');
    push_range(v, '\u{1F6F0}', '\u{1F6FC}');
    push_range(v, '\u{1F700}', '\u{1F776}');
    push_range(v, '\u{1F77B}', '\u{1F7D9}');
    assert(rview(v@) =~= o + other_symbol_chunk_20());
}

fn push_other_symbol_chunk_21(v: &mut Vec<ClassUnicodeRange>)
    ensures
        rview(final(v)@) == rview(old(v)@) + other_symbol_chunk_21(),
{
    let ghost o = rview(v@);
    push_range(v, '\u{1F7E0}', '\u{1F7EB}');
    push_range(v, '\u{1F7F0}', '\u{1F7F0}');
    push_range(v, '\u{1F800}', '\u{1F80B}');
    push_range(v, '\u{1F810}', '\u{1F847}');
    push_range(v, '\u{1F850}', '\u{1F859}');
    push_range(v, '\u{1F860}', '\u{1F887}');
    push_range(v, '\u{1F890}', '\u{1F8AD}');
    push_range(v, '\u{1F8B0}', '\u{1F8BB}');
    assert(rview(v@) =~= o + other_symbol_chunk_21());
}

fn push_other_symbol_chunk_22(v: &mut Vec<ClassUnicodeRange>)
    ensures
        rview(final(v)@) == rview(old(v)@) + other_symbol_chunk_22(),
{
    let ghost o = rview(v@);
    push_range(v, '\u{1F8C0}', '\u{1F8C1}');
    push_range(v, '\u{1F900}', '\u{1FA53}');
    push_range(v, '\u{1FA60}', '\u{1FA6D}');
    push_range(v, '\u{1FA70}', '\u{1FA7C}');
    push_range(v, '\u{1FA80}', '\u{1FA89}');
    push_range(v, '\u{1FA8F}', '\u{1FAC6}');
    push_range(v, '\u{1FACE}', '\u{1FADC}');
    push_range(v, '\u{1FADF}', '\u{1FAE9}');
    assert(rview(v@) =~= o + other_symbol_chunk_22());
}

fn push_other_symbol_chunk_23(v: &mut Vec<ClassUnicodeRange>)
    ensures
        rview(final(v)@) == rview(old(v)@) + other_symbol_chunk_23(),
{
    let ghost o = rview(v@);
    push_range(v, '\u{1FAF0}', '\u{1FAF8}');
    push_range(v, '\u{1FB00}', '\u{1FB92}');
    push_range(v, '\u{1FB94}', '\u{1FBEF}');
    assert(rview(v@) =~= o + other_symbol_chunk_23());
}

fn push_other_symbol_block_0(v: &mut Vec<ClassUnicodeRange>)
    ensures
        rview(final(v)@) == rview(old(v)@) + other_symbol_block_0(),
{
    let ghost o = rview(v@);
    push_other_symbol_chunk_0(v);
    assert(rview(v@) =~= o + (other_symbol_chunk_0()));
    push_other_symbol_chunk_1(v);
    assert(rview(v@) =~= o + (other_symbol_chunk_0() + other_symbol_chunk_1()));
    push_other_symbol_chunk_2(v);
    assert(rview(v@) =~= o + (other_symbol_chunk_0() + other_symbol_chunk_1() + other_symbol_chunk_2()));
    push_other_symbol_chunk_3(v);
    assert(rview(v@) =~= o + (other_symbol_chunk_0() + other_symbol_chunk_1() + other_symbol_chunk_2() + other_symbol_chunk_3()));
    push_other_symbol_chunk_4(v);
    assert(rview(v@) =~= o + (other_symbol_chunk_0() + other_symbol_chunk_1() + other_symbol_chunk_2() + other_symbol_chunk_3() + other_symbol_chunk_4()));
    push_other_symbol_chunk_5(v);
    assert(rview(v@) =~= o + (other_symbol_chunk_0() + other_symbol_chunk_1() + other_symbol_chunk_2() + other_symbol_chunk_3() + other_symbol_chunk_4() + other_symbol_chunk_5()));
    push_other_symbol_chunk_6(v);
    assert(rview(v@) =~= o + (other_symbol_chunk_0() + other_symbol_chunk_1() + other_symbol_chunk_2() + other_symbol_chunk_3() + other_symbol_chunk_4() + other_symbol_chunk_5() + other_symbol_chunk_6()));
    push_other_symbol_chunk_7(v);
    assert(rview(v@) =~= o + (other_symbol_chunk_0() + other_symbol_chunk_1() + other_symbol_chunk_2() + other_symbol_chunk_3() + other_symbol_chunk_4() + other_symbol_chunk_5() + other_symbol_chunk_6() + other_symbol_chunk_7()));
    push_other_symbol_chunk_8(v);
    assert(rview(v@) =~= o + (other_symbol_chunk_0() + other_symbol_chunk_1() + other_symbol_chunk_2() + other_symbol_chunk_3() + other_symbol_chunk_4() + other_symbol_chunk_5() + other_symbol_chunk_6() + other_symbol_chunk_7() + other_symbol_chunk_8()));
    push_other_symbol_chunk_9(v);
    assert(rview(v@) =~= o + (other_symbol_chunk_0() + other_symbol_chunk_1() + other_symbol_chunk_2() + other_symbol_chunk_3() + other_symbol_chunk_4() + other_symbol_chunk_5() + other_symbol_chunk_6() + other_symbol_chunk_7() + other_symbol_chunk_8() + other_symbol_chunk_9()));
}

fn push_other_symbol_block_1(v: &mut Vec<ClassUnicodeRange>)
    ensures
        rview(final(v)@) == rview(old(v)@) + other_symbol_block_1(),
{
    let ghost o = rview(v@);
    push_other_symbol_chunk_10(v);
    assert(rview(v@) =~= o + (other_symbol_chunk_10()));
    push_other_symbol_chunk_11(v);
    assert(rview(v@) =~= o + (other_symbol_chunk_10() + other_symbol_chunk_11()));
    push_other_symbol_chunk_12(v);
    assert(rview(v@) =~= o + (other_symbol_chunk_10() + other_symbol_chunk_11() + other_symbol_chunk_12()));
    push_other_symbol_chunk_13(v);
    assert(rview(v@) =~= o + (other_symbol_chunk_10() + other_symbol_chunk_11() + other_symbol_chunk_12() + other_symbol_chunk_13()));
    push_other_symbol_chunk_14(v);
    assert(rview(v@) =~= o + (other_symbol_chunk_10() + other_symbol_chunk_11() + other_symbol_chunk_12() + other_symbol_chunk_13() + other_symbol_chunk_14()));
    push_other_symbol_chunk_15(v);
    assert(rview(v@) =~= o + (other_symbol_chunk_10() + other_symbol_chunk_11() + other_symbol_chunk_12() + other_symbol_chunk_13() + other_symbol_chunk_14() + other_symbol_chunk_15()));
    push_other_symbol_chunk_16(v);
    assert(rview(v@) =~= o + (other_symbol_chunk_10() + other_symbol_chunk_11() + other_symbol_chunk_12() + other_symbol_chunk_13() + other_symbol_chunk_14() + other_symbol_chunk_15() + other_symbol_chunk_16()));
    push_other_symbol_chunk_17(v);
    assert(rview(v@) =~= o + (other_symbol_chunk_10() + other_symbol_chunk_11() + other_symbol_chunk_12() + other_symbol_chunk_13() + other_symbol_chunk_14() + other_symbol_chunk_15() + other_symbol_chunk_16() + other_symbol_chunk_17()));
    push_other_symbol_chunk_18(v);
    assert(rview(v@) =~= o + (other_symbol_chunk_10() + other_symbol_chunk_11() + other_symbol_chunk_12() + other_symbol_chunk_13() + other_symbol_chunk_14() + other_symbol_chunk_15() + other_symbol_chunk_16() + other_symbol_chunk_17() + other_symbol_chunk_18()));
    push_other_symbol_chunk_19(v);
    assert(rview(v@) =~= o + (other_symbol_chunk_10() + other_symbol_chunk_11() + other_symbol_chunk_12() + other_symbol_chunk_13() + other_symbol_chunk_14() + other_symbol_chunk_15() + other_symbol_chunk_16() + other_symbol_chunk_17() + other_symbol_chunk_18() + other_symbol_chunk_19()));
}

fn push_other_symbol_block_2(v: &mut Vec<ClassUnicodeRange>)
    ensures
        rview(final(v)@) == rview(old(v)@) + other_symbol_block_2(),
{
    let ghost o = rview(v@);
    push_other_symbol_chunk_20(v);
    assert(rview(v@) =~= o + (other_symbol_chunk_20()));
    push_other_symbol_chunk_21(v);
    assert(rview(v@) =~= o + (other_symbol_chunk_20() + other_symbol_chunk_21()));
    push_other_symbol_chunk_22(v);
    assert(rview(v@) =~= o + (other_symbol_chunk_20() + other_symbol_chunk_21() + other_symbol_chunk_22()));
    push_other_symbol_chunk_23(v);
    assert(rview(v@) =~= o + (other_symbol_chunk_20() + other_symbol_chunk_21() + other_symbol_chunk_22() + other_symbol_chunk_23()));
}

/// The ranges of the general category Other_Symbol.
pub fn other_symbol_class() -> (v: Vec<ClassUnicodeRange>)
    ensures
        rview(v@) == other_symbol_ranges(),
{
    let mut v: Vec<ClassUnicodeRange> = Vec::new();
    assert(rview(v@) =~= Seq::<SRange>::empty());
    push_other_symbol_block_0(&mut v);
    assert(rview(v@) =~= other_symbol_block_0());
    push_other_symbol_block_1(&mut v);
    assert(rview(v@) =~= other_symbol_block_0() + other_symbol_block_1());
    push_other_symbol_block_2(&mut v);
    assert(rview(v@) =~= other_symbol_block_0() + other_symbol_block_1() + other_symbol_block_2());
    v
}

pub open spec fn private_use_chunk_0() -> Seq<SRange> {
    seq![(0xE000int, 0xF8FFint), (0xF0000int, 0xFFFFDint), (0x100000int, 0x10FFFDint)]
}

pub open spec fn private_use_block_0() -> Seq<SRange> {
    private_use_chunk_0()
}

/// The ranges of the general category Private_Use.
pub open spec fn private_use_ranges() -> Seq<SRange> {
    private_use_block_0()
}

proof fn lemma_private_use_block_0()
    ensures
        canonical(private_use_block_0()),
        private_use_block_0().len() > 0,
        private_use_block_0()[0] == private_use_chunk_0()[0],
        private_use_block_0().last() == private_use_chunk_0().last(),
{
    reveal_with_fuel(canonical, 9);
    assert(canonical(private_use_chunk_0()));
}

/// The general category Private_Use is a canonical class.
pub proof fn lemma_private_use_canonical()
    ensures
        canonical(private_use_ranges()),
{
    lemma_private_use_block_0();
}

fn push_private_use_chunk_0(v: &mut Vec<ClassUnicodeRange>)
    ensures
        rview(final(v)@) == rview(old(v)@) + private_use_chunk_0(),
{
    let ghost o = rview(v@);
    push_range(v, '\u{E000}', '\u{F8FF}');
    push_range(v, '\u{F0000}', '\u{FFFFD}');
    push_range(v, '\u{100000}', '\u{10FFFD}');
    assert(rview(v@) =~= o + private_use_chunk_0());
}

fn push_private_use_block_0(v: &mut Vec<ClassUnicodeRange>)
    ensures
        rview(final(v)@) == rview(old(v)@) + private_use_block_0(),
{
    let ghost o = rview(v@);
    push_private_use_chunk_0(v);
    assert(rview(v@) =~= o + (private_use_chunk_0()));
}

/// The ranges of the general category Private_Use.
pub fn private_use_class() -> (v: Vec<ClassUnicodeRange>)
    ensures
        rview(v@) == private_use_ranges(),
{
    let mut v: Vec<ClassUnicodeRange> = Vec::new();
    assert(rview(v@) =~= Seq::<SRange>::empty());
    push_private_use_block_0(&mut v);
    assert(rview(v@) =~= private_use_block_0());
    v
}

pub open spec fn punctuation_chunk_0() -> Seq<SRange> {
    seq![(0x21int, 0x23int), (0x25int, 0x2Aint), (0x2Cint, 0x2Fint), (0x3Aint, 0x3Bint), (0x3Fint, 0x40int), (0x5Bint, 0x5Dint), (0x5Fint, 0x5Fint), (0x7Bint, 0x7Bint)]
}

pub open spec fn punctuation_chunk_1() -> Seq<SRange> {
    seq![(0x7Dint, 0x7Dint), (0xA1int, 0xA1int), (0xA7int, 0xA7int), (0xABint, 0xABint), (0xB6int, 0xB7int), (0xBBint, 0xBBint), (0xBFint, 0xBFint), (0x37Eint, 0x37Eint)]
}

pub open spec fn punctuation_chunk_2() -> Seq<SRange> {
    seq![(0x387int, 0x387int), (0x55Aint, 0x55Fint), (0x589int, 0x58Aint), (0x5BEint, 0x5BEint), (0x5C0int, 0x5C0int), (0x5C3int, 0x5C3int), (0x5C6int, 0x5C6int), (0x5F3int, 0x5F4int)]
}

pub open spec fn punctuation_chunk_3() -> Seq<SRange> {
    seq![(0x609int, 0x60Aint), (0x60Cint, 0x60Dint), (0x61Bint, 0x61Bint), (0x61Dint, 0x61Fint), (0x66Aint, 0x66Dint), (0x6D4int, 0x6D4int), (0x700int, 0x70Dint), (0x7F7int, 0x7F9int)]
}

pub open spec fn punctuation_chunk_4() -> Seq<SRange> {
    seq![(0x830int, 0x83Eint), (0x85Eint, 0x85Eint), (0x964int, 0x965int), (0x970int, 0x970int), (0x9FDint, 0x9FDint), (0xA76int, 0xA76int), (0xAF0int, 0xAF0int), (0xC77int, 0xC77int)]
}

pub open spec fn punctuation_chunk_5() -> Seq<SRange> {
    seq![(0xC84int, 0xC84int), (0xDF4int, 0xDF4int), (0xE4Fint, 0xE4Fint), (0xE5Aint, 0xE5Bint), (0xF04int, 0xF12int), (0xF14int, 0xF14int), (0xF3Aint, 0xF3Dint), (0xF85int, 0xF85int)]
}

pub open spec fn punctuation_chunk_6() -> Seq<SRange> {
    seq![(0xFD0int, 0xFD4int), (0xFD9int, 0xFDAint), (0x104Aint, 0x104Fint), (0x10FBint, 0x10FBint), (0x1360int, 0x1368int), (0x1400int, 0x1400int), (0x166Eint, 0x166Eint), (0x169Bint, 0x169Cint)]
}

pub open spec fn punctuation_chunk_7() -> Seq<SRange> {
    seq![(0x16EBint, 0x16EDint), (0x1735int, 0x1736int), (0x17D4int, 0x17D6int), (0x17D8int, 0x17DAint), (0x1800int, 0x180Aint), (0x1944int, 0x1945int), (0x1A1Eint, 0x1A1Fint), (0x1AA0int, 0x1AA6int)]
}

pub open spec fn punctuation_chunk_8() -> Seq<SRange> {
    seq![(0x1AA8int, 0x1AADint), (0x1B4Eint, 0x1B4Fint), (0x1B5Aint, 0x1B60int), (0x1B7Dint, 0x1B7Fint), (0x1BFCint, 0x1BFFint), (0x1C3Bint, 0x1C3Fint), (0x1C7Eint, 0x1C7Fint), (0x1CC0int, 0x1CC7int)]
}

pub open spec fn punctuation_chunk_9() -> Seq<SRange> {
    seq![(0x1CD3int, 0x1CD3int), (0x2010int, 0x2027int), (0x2030int, 0x2043int), (0x2045int, 0x2051int), (0x2053int, 0x205Eint), (0x207Dint, 0x207Eint), (0x208Dint, 0x208Eint), (0x2308int, 0x230Bint)]
}

pub open spec fn punctuation_chunk_10() -> Seq<SRange> {
    seq![(0x2329int, 0x232Aint), (0x2768int, 0x2775int), (0x27C5int, 0x27C6int), (0x27E6int, 0x27EFint), (0x2983int, 0x2998int), (0x29D8int, 0x29DBint), (0x29FCint, 0x29FDint), (0x2CF9int, 0x2CFCint)]
}

pub open spec fn punctuation_chunk_11() -> Seq<SRange> {
    seq![(0x2CFEint, 0x2CFFint), (0x2D70int, 0x2D70int), (0x2E00int, 0x2E2Eint), (0x2E30int, 0x2E4Fint), (0x2E52int, 0x2E5Dint), (0x3001int, 0x3003int), (0x3008int, 0x3011int), (0x3014int, 0x301Fint)]
}

pub open spec fn punctuation_chunk_12() -> Seq<SRange> {
    seq![(0x3030int, 0x3030int), (0x303Dint, 0x303Dint), (0x30A0int, 0x30A0int), (0x30FBint, 0x30FBint), (0xA4FEint, 0xA4FFint), (0xA60Dint, 0xA60Fint), (0xA673int, 0xA673int), (0xA67Eint, 0xA67Eint)]
}

pub open spec fn punctuation_chunk_13() -> Seq<SRange> {
    seq![(0xA6F2int, 0xA6F7int), (0xA874int, 0xA877int), (0xA8CEint, 0xA8CFint), (0xA8F8int, 0xA8FAint), (0xA8FCint, 0xA8FCint), (0xA92Eint, 0xA92Fint), (0xA95Fint, 0xA95Fint), (0xA9C1int, 0xA9CDint)]
}

pub open spec fn punctuation_chunk_14() -> Seq<SRange> {
    seq![(0xA9DEint, 0xA9DFint), (0xAA5Cint, 0xAA5Fint), (0xAADEint, 0xAADFint), (0xAAF0int, 0xAAF1int), (0xABEBint, 0xABEBint), (0xFD3Eint, 0xFD3Fint), (0xFE10int, 0xFE19int), (0xFE30int, 0xFE52int)]
}

pub open spec fn punctuation_chunk_15() -> Seq<SRange> {
    seq![(0xFE54int, 0xFE61int), (0xFE63int, 0xFE63int), (0xFE68int, 0xFE68int), (0xFE6Aint, 0xFE6Bint), (0xFF01int, 0xFF03int), (0xFF05int, 0xFF0Aint), (0xFF0Cint, 0xFF0Fint), (0xFF1Aint, 0xFF1Bint)]
}

pub open spec fn punctuation_chunk_16() -> Seq<SRange> {
    seq![(0xFF1Fint, 0xFF20int), (0xFF3Bint, 0xFF3Dint), (0xFF3Fint, 0xFF3Fint), (0xFF5Bint, 0xFF5Bint), (0xFF5Dint, 0xFF5Dint), (0xFF5Fint, 0xFF65int), (0x10100int, 0x10102int), (0x1039Fint, 0x1039Fint)]
}

pub open spec fn punctuation_chunk_17() -> Seq<SRange> {
    seq![(0x103D0int, 0x103D0int), (0x1056Fint, 0x1056Fint), (0x10857int, 0x10857int), (0x1091Fint, 0x1091Fint), (0x1093Fint, 0x1093Fint), (0x10A50int, 0x10A58int), (0x10A7Fint, 0x10A7Fint), (0x10AF0int, 0x10AF6int)]
}

pub open spec fn punctuation_chunk_18() -> Seq<SRange> {
    seq![(0x10B39int, 0x10B3Fint), (0x10B99int, 0x10B9Cint), (0x10D6Eint, 0x10D6Eint), (0x10EADint, 0x10EADint), (0x10F55int, 0x10F59int), (0x10F86int, 0x10F89int), (0x11047int, 0x1104Dint), (0x110BBint, 0x110BCint)]
}

pub open spec fn punctuation_chunk_19() -> Seq<SRange> {
    seq![(0x110BEint, 0x110C1int), (0x11140int, 0x11143int), (0x11174int, 0x11175int), (0x111C5int, 0x111C8int), (0x111CDint, 0x111CDint), (0x111DBint, 0x111DBint), (0x111DDint, 0x111DFint), (0x11238int, 0x1123Dint)]
}

pub open spec fn punctuation_chunk_20() -> Seq<SRange> {
    seq![(0x112A9int, 0x112A9int), (0x113D4int, 0x113D5int), (0x113D7int, 0x113D8int), (0x1144Bint, 0x1144Fint), (0x1145Aint, 0x1145Bint), (0x1145Dint, 0x1145Dint), (0x114C6int, 0x114C6int), (0x115C1int, 0x115D7int)]
}

pub open spec fn punctuation_chunk_21() -> Seq<SRange> {
    seq![(0x11641int, 0x11643int), (0x11660int, 0x1166Cint), (0x116B9int, 0x116B9int), (0x1173Cint, 0x1173Eint), (0x1183Bint, 0x1183Bint), (0x11944int, 0x11946int), (0x119E2int, 0x119E2int), (0x11A3Fint, 0x11A46int)]
}

pub open spec fn punctuation_chunk_22() -> Seq<SRange> {
    seq![(0x11A9Aint, 0x11A9Cint), (0x11A9Eint, 0x11AA2int), (0x11B00int, 0x11B09int), (0x11BE1int, 0x11BE1int), (0x11C41int, 0x11C45int), (0x11C70int, 0x11C71int), (0x11EF7int, 0x11EF8int), (0x11F43int, 0x11F4Fint)]
}

pub open spec fn punctuation_chunk_23() -> Seq<SRange> {
    seq![(0x11FFFint, 0x11FFFint), (0x12470int, 0x12474int), (0x12FF1int, 0x12FF2int), (0x16A6Eint, 0x16A6Fint), (0x16AF5int, 0x16AF5int), (0x16B37int, 0x16B3Bint), (0x16B44int, 0x16B44int), (0x16D6Dint, 0x16D6Fint)]
}

pub open spec fn punctuation_chunk_24() -> Seq<SRange> {
    seq![(0x16E97int, 0x16E9Aint), (0x16FE2int, 0x16FE2int), (0x1BC9Fint, 0x1BC9Fint), (0x1DA87int, 0x1DA8Bint), (0x1E5FFint, 0x1E5FFint), (0x1E95Eint, 0x1E95Fint)]
}

pub open spec fn punctuation_block_0() -> Seq<SRange> {
    punctuation_chunk_0() + punctuation_chunk_1() + punctuation_chunk_2() + punctuation_chunk_3() + punctuation_chunk_4() + punctuation_chunk_5() + punctuation_chunk_6() + punctuation_chunk_7() + punctuation_chunk_8() + punctuation_chunk_9()
}

pub open spec fn punctuation_block_1() -> Seq<SRange> {
    punctuation_chunk_10() + punctuation_chunk_11() + punctuation_chunk_12() + punctuation_chunk_13() + punctuation_chunk_14() + punctuation_chunk_15() + punctuation_chunk_16() + punctuation_chunk_17() + punctuation_chunk_18() + punctuation_chunk_19()
}

pub open spec fn punctuation_block_2() -> Seq<SRange> {
    punctuation_chunk_20() + punctuation_chunk_21() + punctuation_chunk_22() + punctuation_chunk_23() + punctuation_chunk_24()
}

/// The ranges of the general category Punctuation.
pub open spec fn punctuation_ranges() -> Seq<SRange> {
    punctuation_block_0() + punctuation_block_1() + punctuation_block_2()
}

proof fn lemma_punctuation_block_0()
    ensures
        canonical(punctuation_block_0()),
        punctuation_block_0().len() > 0,
        punctuation_block_0()[0] == punctuation_chunk_0()[0],
        punctuation_block_0().last() == punctuation_chunk_9().last(),
{
    reveal_with_fuel(canonical, 9);
    assert(canonical(punctuation_chunk_0()));
    assert(canonical(punctuation_chunk_1()));
    assert(canonical(punctuation_chunk_2()));
    assert(canonical(punctuation_chunk_3()));
    assert(canonical(punctuation_chunk_4()));
    assert(canonical(punctuation_chunk_5()));
    assert(canonical(punctuation_chunk_6()));
    assert(canonical(punctuation_chunk_7()));
    assert(canonical(punctuation_chunk_8()));
    assert(canonical(punctuation_chunk_9()));
    lemma_canonical_append(punctuation_chunk_0(), punctuation_chunk_1());
    lemma_canonical_append(punctuation_chunk_0() + punctuation_chunk_1(), punctuation_chunk_2());
    lemma_canonical_append(punctuation_chunk_0() + punctuation_chunk_1() + punctuation_chunk_2(), punctuation_chunk_3());
    lemma_canonical_append(punctuation_chunk_0() + punctuation_chunk_1() + punctuation_chunk_2() + punctuation_chunk_3(), punctuation_chunk_4());
    lemma_canonical_append(punctuation_chunk_0() + punctuation_chunk_1() + punctuation_chunk_2() + punctuation_chunk_3() + punctuation_chunk_4(), punctuation_chunk_5());
    lemma_canonical_append(punctuation_chunk_0() + punctuation_chunk_1() + punctuation_chunk_2() + punctuation_chunk_3() + punctuation_chunk_4() + punctuation_chunk_5(), punctuation_chunk_6());
    lemma_canonical_append(punctuation_chunk_0() + punctuation_chunk_1() + punctuation_chunk_2() + punctuation_chunk_3() + punctuation_chunk_4() + punctuation_chunk_5() + punctuation_chunk_6(), punctuation_chunk_7());
    lemma_canonical_append(punctuation_chunk_0() + punctuation_chunk_1() + punctuation_chunk_2() + punctuation_chunk_3() + punctuation_chunk_4() + punctuation_chunk_5() + punctuation_chunk_6() + punctuation_chunk_7(), punctuation_chunk_8());
    lemma_canonical_append(punctuation_chunk_0() + punctuation_chunk_1() + punctuation_chunk_2() + punctuation_chunk_3() + punctuation_chunk_4() + punctuation_chunk_5() + punctuation_chunk_6() + punctuation_chunk_7() + punctuation_chunk_8(), punctuation_chunk_9());
}

proof fn lemma_punctuation_block_1()
    ensures
        canonical(punctuation_block_1()),
        punctuation_block_1().len() > 0,
        punctuation_block_1()[0] == punctuation_chunk_10()[0],
        punctuation_block_1().last() == punctuation_chunk_19().last(),
{
    reveal_with_fuel(canonical, 9);
    assert(canonical(punctuation_chunk_10()));
    assert(canonical(punctuation_chunk_11()));
    assert(canonical(punctuation_chunk_12()));
    assert(canonical(punctuation_chunk_13()));
    assert(canonical(punctuation_chunk_14()));
    assert(canonical(punctuation_chunk_15()));
    assert(canonical(punctuation_chunk_16()));
    assert(canonical(punctuation_chunk_17()));
    assert(canonical(punctuation_chunk_18()));
    assert(canonical(punctuation_chunk_19()));
    lemma_canonical_append(punctuation_chunk_10(), punctuation_chunk_11());
    lemma_canonical_append(punctuation_chunk_10() + punctuation_chunk_11(), punctuation_chunk_12());
    lemma_canonical_append(punctuation_chunk_10() + punctuation_chunk_11() + punctuation_chunk_12(), punctuation_chunk_13());
    lemma_canonical_append(punctuation_chunk_10() + punctuation_chunk_11() + punctuation_chunk_12() + punctuation_chunk_13(), punctuation_chunk_14());
    lemma_canonical_append(punctuation_chunk_10() + punctuation_chunk_11() + punctuation_chunk_12() + punctuation_chunk_13() + punctuation_chunk_14(), punctuation_chunk_15());
    lemma_canonical_append(punctuation_chunk_10() + punctuation_chunk_11() + punctuation_chunk_12() + punctuation_chunk_13() + punctuation_chunk_14() + punctuation_chunk_15(), punctuation_chunk_16());
    lemma_canonical_append(punctuation_chunk_10() + punctuation_chunk_11() + punctuation_chunk_12() + punctuation_chunk_13() + punctuation_chunk_14() + punctuation_chunk_15() + punctuation_chunk_16(), punctuation_chunk_17());
    lemma_canonical_append(punctuation_chunk_10() + punctuation_chunk_11() + punctuation_chunk_12() + punctuation_chunk_13() + punctuation_chunk_14() + punctuation_chunk_15() + punctuation_chunk_16() + punctuation_chunk_17(), punctuation_chunk_18());
    lemma_canonical_append(punctuation_chunk_10() + punctuation_chunk_11() + punctuation_chunk_12() + punctuation_chunk_13() + punctuation_chunk_14() + punctuation_chunk_15() + punctuation_chunk_16() + punctuation_chunk_17() + punctuation_chunk_18(), punctuation_chunk_19());
}

proof fn lemma_punctuation_block_2()
    ensures
        canonical(punctuation_block_2()),
        punctuation_block_2().len() > 0,
        punctuation_block_2()[0] == punctuation_chunk_20()[0],
        punctuation_block_2().last() == punctuation_chunk_24().last(),
{
    reveal_with_fuel(canonical, 9);
    assert(canonical(punctuation_chunk_20()));
    assert(canonical(punctuation_chunk_21()));
    assert(canonical(punctuation_chunk_22()));
    assert(canonical(punctuation_chunk_23()));
    assert(canonical(punctuation_chunk_24()));
    lemma_canonical_append(punctuation_chunk_20(), punctuation_chunk_21());
    lemma_canonical_append(punctuation_chunk_20() + punctuation_chunk_21(), punctuation_chunk_22());
    lemma_canonical_append(punctuation_chunk_20() + punctuation_chunk_21() + punctuation_chunk_22(), punctuation_chunk_23());
    lemma_canonical_append(punctuation_chunk_20() + punctuation_chunk_21() + punctuation_chunk_22() + punctuation_chunk_23(), punctuation_chunk_24());
}

/// The general category Punctuation is a canonical class.
pub proof fn lemma_punctuation_canonical()
    ensures
        canonical(punctuation_ranges()),
{
    lemma_punctuation_block_0();
    lemma_punctuation_block_1();
    lemma_punctuation_block_2();
    lemma_canonical_append(punctuation_block_0(), punctuation_block_1());
    lemma_canonical_append(punctuation_block_0() + punctuation_block_1(), punctuation_block_2());
}

fn push_punctuation_chunk_0(v: &mut Vec<ClassUnicodeRange>)
    ensures
        rview(final(v)@) == rview(old(v)@) + punctuation_chunk_0(),
{
    let ghost o = rview(v@);
    push_range(v, '\u{21}', '\u{23}');
    push_range(v, '\u{25}', '\u{2A}');
    push_range(v, '\u{2C}', '\u{2F}');
    push_range(v, '\u{3A}', '\u{3B}');
    push_range(v, '\u{3F}', '\u{40}');
    push_range(v, '\u{5B}', '\u{5D}');
    push_range(v, '\u{5F}', '\u{5F}');
    push_range(v, '\u{7B}', '\u{7B}');
    assert(rview(v@) =~= o + punctuation_chunk_0());
}

fn push_punctuation_chunk_1(v: &mut Vec<ClassUnicodeRange>)
    ensures
        rview(final(v)@) == rview(old(v)@) + punctuation_chunk_1(),
{
    let ghost o = rview(v@);
    push_range(v, '\u{7D}', '\u{7D}');
    push_range(v, '\u{A1}', '\u{A1}');
    push_range(v, '\u{A7}', '\u{A7}');
    push_range(v, '\u{AB}', '\u{AB}');
    push_range(v, '\u{B6}', '\u{B7}');
    push_range(v, '\u{BB}', '\u{BB}');
    push_range(v, '\u{BF}', '\u{BF}');
    push_range(v, '\u{37E}', '\u{37E}');
    assert(rview(v@) =~= o + punctuation_chunk_1());
}

fn push_punctuation_chunk_2(v: &mut Vec<ClassUnicodeRange>)
    ensures
        rview(final(v)@) == rview(old(v)@) + punctuation_chunk_2(),
{
    let ghost o = rview(v@);
    push_range(v, '\u{387}', '\u{387}');
    push_range(v, '\u{55A}', '\u{55F}');
    push_range(v, '\u{589}', '\u{58A}');
    push_range(v, '\u{5BE}', '\u{5BE}');
    push_range(v, '\u{5C0}', '\u{5C0}');
    push_range(v, '\u{5C3}', '\u{5C3}');
    push_range(v, '\u{5C6}', '\u{5C6}');
    push_range(v, '\u{5F3}', '\u{5F4}');
    assert(rview(v@) =~= o + punctuation_chunk_2());
}

fn push_punctuation_chunk_3(v: &mut Vec<ClassUnicodeRange>)
    ensures
        rview(final(v)@) == rview(old(v)@) + punctuation_chunk_3(),
{
    let ghost o = rview(v@);
    push_range(v, '\u{609}', '\u{60A}');
    push_range(v, '\u{60C}', '\u{60D}');
    push_range(v, '\u{61B}', '\u{61B}');
    push_range(v, '\u{61D}', '\u{61F}');
    push_range(v, '\u{66A}', '\u{66D}');
    push_range(v, '\u{6D4}', '\u{6D4}');
    push_range(v, '\u{700}', '\u{70D}');
    push_range(v, '\u{7F7}', '\u{7F9}');
    assert(rview(v@) =~= o + punctuation_chunk_3());
}

fn push_punctuation_chunk_4(v: &mut Vec<ClassUnicodeRange>)
    ensures
        rview(final(v)@) == rview(old(v)@) + punctuation_chunk_4(),
{
    let ghost o = rview(v@);
    push_range(v, '\u{830}', '\u{83E}');
    push_range(v, '\u{85E}', '\u{85E}');
    push_range(v, '\u{964}', '\u{965}');
    push_range(v, '\u{970}', '\u{970}');
    push_range(v, '\u{9FD}', '\u{9FD}');
    push_range(v, '\u{A76}', '\u{A76}');
    push_range(v, '\u{AF0}', '\u{AF0}');
    push_range(v, '\u{C77}', '\u{C77}');
    assert(rview(v@) =~= o + punctuation_chunk_4());
}

fn push_punctuation_chunk_5(v: &mut Vec<ClassUnicodeRange>)
    ensures
        rview(final(v)@) == rview(old(v)@) + punctuation_chunk_5(),
{
    let ghost o = rview(v@);
    push_range(v, '\u{C84}', '\u{C84}');
    push_range(v, '\u{DF4}', '\u{DF4}');
    push_range(v, '\u{E4F}', '\u{E4F}');
    push_range(v, '\u{E5A}', '\u{E5B}');
    push_range(v, '\u{F04}', '\u{F12}');
    push_range(v, '\u{F14}', '\u{F14}');
    push_range(v, '\u{F3A}', '\u{F3D}');
    push_range(v, '\u{F85}', '\u{F85}');
    assert(rview(v@) =~= o + punctuation_chunk_5());
}

fn push_punctuation_chunk_6(v: &mut Vec<ClassUnicodeRange>)
    ensures
        rview(final(v)@) == rview(old(v)@) + punctuation_chunk_6(),
{
    let ghost o = rview(v@);
    push_range(v, '\u{FD0}', '\u{FD4}');
    push_range(v, '\u{FD9}', '\u{FDA}');
    push_range(v, '\u{104A}', '\u{104F}');
    push_range(v, '\u{10FB}', '\u{10FB}');
    push_range(v, '\u{1360}', '\u{1368}');
    push_range(v, '\u{1400}', '\u{1400}');
    push_range(v, '\u{166E}', '\u{166E}');
    push_range(v, '\u{169B}', '\u{169C}');
    assert(rview(v@) =~= o + punctuation_chunk_6());
}

fn push_punctuation_chunk_7(v: &mut Vec<ClassUnicodeRange>)
    ensures
        rview(final(v)@) == rview(old(v)@) + punctuation_chunk_7(),
{
    let ghost o = rview(v@);
    push_range(v, '\u{16EB}', '\u{16ED}');
    push_range(v, '\u{1735}', '\u{1736}');
    push_range(v, '\u{17D4}', '\u{17D6}');
    push_range(v, '\u{17D8}', '\u{17DA}');
    push_range(v, '\u{1800}', '\u{180A}');
    push_range(v, '\u{1944}', '\u{1945}');
    push_range(v, '\u{1A1E}', '\u{1A1F}');
    push_range(v, '\u{1AA0}', '\u{1AA6}');
    assert(rview(v@) =~= o + punctuation_chunk_7());
}

fn push_punctuation_chunk_8(v: &mut Vec<ClassUnicodeRange>)
    ensures
        rview(final(v)@) == rview(old(v)@) + punctuation_chunk_8(),
{
    let ghost o = rview(v@);
    push_range(v, '\u{1AA8}', '\u{1AAD}');
    push_range(v, '\u{1B4E}', '\u{1B4F}');
    push_range(v, '\u{1B5A}', '\u{1B60}');
    push_range(v, '\u{1B7D}', '\u{1B7F}');
    push_range(v, '\u{1BFC}', '\u{1BFF}');
    push_range(v, '\u{1C3B}', '\u{1C3F}');
    push_range(v, '\u{1C7E}', '\u{1C7F}');
    push_range(v, '\u{1CC0}', '\u{1CC7}');
    assert(rview(v@) =~= o + punctuation_chunk_8());
}

fn push_punctuation_chunk_9(v: &mut Vec<ClassUnicodeRange>)
    ensures
        rview(final(v)@) == rview(old(v)@) + punctuation_chunk_9(),
{
    let ghost o = rview(v@);
    push_range(v, '\u{1CD3}', '\u{1CD3}');
    push_range(v, '\u{2010}', '\u{2027}');
    push_range(v, '\u{2030}', '\u{2043}');
    push_range(v, '\u{2045}', '\u{2051}');
    push_range(v, '\u{2053}', '\u{205E}');
    push_range(v, '\u{207D}', '\u{207E}');
    push_range(v, '\u{208D}', '\u{208E}');
    push_range(v, '\u{2308}', '\u{230B}');
    assert(rview(v@) =~= o + punctuation_chunk_9());
}

fn push_punctuation_chunk_10(v: &mut Vec<ClassUnicodeRange>)
    ensures
        rview(final(v)@) == rview(old(v)@) + punctuation_chunk_10(),
{
    let ghost o = rview(v@);
    push_range(v, '\u{2329}', '\u{232A}');
    push_range(v, '\u{2768}', '\u{2775}');
    push_range(v, '\u{27C5}', '\u{27C6}');
    push_range(v, '\u{27E6}', '\u{27EF}');
    push_range(v, '\u{2983}', '\u{2998}');
    push_range(v, '\u{29D8}', '\u{29DB}');
    push_range(v, '\u{29FC}', '\u{29FD}');
    push_range(v, '\u{2CF9}', '\u{2CFC}');
    assert(rview(v@) =~= o + punctuation_chunk_10());
}

fn push_punctuation_chunk_11(v: &mut Vec<ClassUnicodeRange>)
    ensures
        rview(final(v)@) == rview(old(v)@) + punctuation_chunk_11(),
{
    let ghost o = rview(v@);
    push_range(v, '\u{2CFE}', '\u{2CFF}');
    push_range(v, '\u{2D70}', '\u{2D70}');
    push_range(v, '\u{2E00}', '\u{2E2E}');
    push_range(v, '\u{2E30}', '\u{2E4F}');
    push_range(v, '\u{2E52}', '\u{2E5D}');
    push_range(v, '\u{3001}', '\u{3003}');
    push_range(v, '\u{3008}', '\u{3011}');
    push_range(v, '\u{3014}', '\u{301F}');
    assert(rview(v@) =~= o + punctuation_chunk_11());
}

fn push_punctuation_chunk_12(v: &mut Vec<ClassUnicodeRange>)
    ensures
        rview(final(v)@) == rview(old(v)@) + punctuation_chunk_12(),
{
    let ghost o = rview(v@);
    push_range(v, '\u{3030}', '\u{3030}');
    push_range(v, '\u{303D}', '\u{303D}');
    push_range(v, '\u{30A0}', '\u{30A0}');
    push_range(v, '\u{30FB}', '\u{30FB}');
    push_range(v, '\u{A4FE}', '\u{A4FF}');
    push_range(v, '\u{A60D}', '\u{A60F}');
    push_range(v, '\u{A673}', '\u{A673}');
    push_range(v, '\u{A67E}', '\u{A67E}');
    assert(rview(v@) =~= o + punctuation_chunk_12());
}

fn push_punctuation_chunk_13(v: &mut Vec<ClassUnicodeRange>)
    ensures
        rview(final(v)@) == rview(old(v)@) + punctuation_chunk_13(),
{
    let ghost o = rview(v@);
    push_range(v, '\u{A6F2}', '\u{A6F7}');
    push_range(v, '\u{A874}', '\u{A877}');
    push_range(v, '\u{A8CE}', '\u{A8CF}');
    push_range(v, '\u{A8F8}', '\u{A8FA}');
    push_range(v, '\u{A8FC}', '\u{A8FC}');
    push_range(v, '\u{A92E}', '\u{A92F}');
    push_range(v, '\u{A95F}', '\u{A95F}');
    push_range(v, '\u{A9C1}', '\u{A9CD}');
    assert(rview(v@) =~= o + punctuation_chunk_13());
}

fn push_punctuation_chunk_14(v: &mut Vec<ClassUnicodeRange>)
    ensures
        rview(final(v)@) == rview(old(v)@) + punctuation_chunk_14(),
{
    let ghost o = rview(v@);
    push_range(v, '\u{A9DE}', '\u{A9DF}');
    push_range(v, '\u{AA5C}', '\u{AA5F}');
    push_range(v, '\u{AADE}', '\u{AADF}');
    push_range(v, '\u{AAF0}', '\u{AAF1}');
    push_range(v, '\u{ABEB}', '\u{ABEB}');
    push_range(v, '\u{FD3E}', '\u{FD3F}');
    push_range(v, '\u{FE10}', '\u{FE19}');
    push_range(v, '\u{FE30}', '\u{FE52}');
    assert(rview(v@) =~= o + punctuation_chunk_14());
}

fn push_punctuation_chunk_15(v: &mut Vec<ClassUnicodeRange>)
    ensures
        rview(final(v)@) == rview(old(v)@) + punctuation_chunk_15(),
{
    let ghost o = rview(v@);
    push_range(v, '\u{FE54}', '\u{FE61}');
    push_range(v, '\u{FE63}', '\u{FE63}');
    push_range(v, '\u{FE68}', '\u{FE68}');
    push_range(v, '\u{FE6A}', '\u{FE6B}');
    push_range(v, '\u{FF01}', '\u{FF03}');
    push_range(v, '\u{FF05}', '\u{FF0A}');
    push_range(v, '\u{FF0C}', '\u{FF0F}');
    push_range(v, '\u{FF1A}', '\u{FF1B}');
    assert(rview(v@) =~= o + punctuation_chunk_15());
}

fn push_punctuation_chunk_16(v: &mut Vec<ClassUnicodeRange>)
    ensures
        rview(final(v)@) == rview(old(v)@) + punctuation_chunk_16(),
{
    let ghost o = rview(v@);
    push_range(v, '\u{FF1F}', '\u{FF20}');
    push_range(v, '\u{FF3B}', '\u{FF3D}');
    push_range(v, '\u{FF3F}', '\u{FF3F}');
    push_range(v, '\u{FF5B}', '\u{FF5B}');
    push_range(v, '\u{FF5D}', '\u{FF5D}');
    push_range(v, '\u{FF5F}', '\u{FF65}');
    push_range(v, '\u{10100}', '\u{10102}');
    push_range(v, '\u{1039F}', '\u{1039F}');
    assert(rview(v@) =~= o + punctuation_chunk_16());
}

fn push_punctuation_chunk_17(v: &mut Vec<ClassUnicodeRange>)
    ensures
        rview(final(v)@) == rview(old(v)@) + punctuation_chunk_17(),
{
    let ghost o = rview(v@);
    push_range(v, '\u{103D0}', '\u{103D0}');
    push_range(v, '\u{1056F}', '\u{1056F}');
    push_range(v, '\u{10857}', '\u{10857}');
    push_range(v, '\u{1091F}', '\u{1091F}');
    push_range(v, '\u{1093F}', '\u{1093F}');
    push_range(v, '\u{10A50}', '\u{10A58}');
    push_range(v, '\u{10A7F}', '\u{10A7F}');
    push_range(v, '\u{10AF0}', '\u{10AF6}');
    assert(rview(v@) =~= o + punctuation_chunk_17());
}

fn push_punctuation_chunk_18(v: &mut Vec<ClassUnicodeRange>)
    ensures
        rview(final(v)@) == rview(old(v)@) + punctuation_chunk_18(),
{
    let ghost o = rview(v@);
    push_range(v, '\u{10B39}', '\u{10B3F}');
    push_range(v, '\u{10B99}', '\u{10B9C}');
    push_range(v, '\u{10D6E}', '\u{10D6E}');
    push_range(v, '\u{10EAD}', '\u{10EAD}');
    push_range(v, '\u{10F55}', '\u{10F59}');
    push_range(v, '\u{10F86}', '\u{10F89}');
    push_range(v, '\u{11047}', '\u{1104D}');
    push_range(v, '\u{110BB}', '\u{110BC}');
    assert(rview(v@) =~= o + punctuation_chunk_18());
}

fn push_punctuation_chunk_19(v: &mut Vec<ClassUnicodeRange>)
    ensures
        rview(final(v)@) == rview(old(v)@) + punctuation_chunk_19(),
{
    let ghost o = rview(v@);
    push_range(v, '\u{110BE}', '\u{110C1}');
    push_range(v, '\u{11140}', '\u{11143}');
    push_range(v, '\u{11174}', '\u{11175}');
    push_range(v, '\u{111C5}', '\u{111C8}');
    push_range(v, '\u{111CD}', '\u{111CD}');
    push_range(v, '\u{111DB}', '\u{111DB}');
    push_range(v, '\u{111DD}', '\u{111DF}');
    push_range(v, '\u{11238}', '\u{1123D}');
    assert(rview(v@) =~= o + punctuation_chunk_19());
}

fn push_punctuation_chunk_20(v: &mut Vec<ClassUnicodeRange>)
    ensures
        rview(final(v)@) == rview(old(v)@) + punctuation_chunk_20(),
{
    let ghost o = rview(v@);
    push_range(v, '\u{112A9}', '\u{112A9}');
    push_range(v, '\u{113D4}', '\u{113D5}');
    push_range(v, '\u{113D7}', '\u{113D8}');
    push_range(v, '\u{1144B}', '\u{1144F}');
    push_range(v, '\u{1145A}', '\u{1145B}');
    push_range(v, '\u{1145D}', '\u{1145D}');
    push_range(v, '\u{114C6}', '\u{114C6}');
    push_range(v, '\u{115C1}', '\u{115D7}');
    assert(rview(v@) =~= o + punctuation_chunk_20());
}

fn push_punctuation_chunk_21(v: &mut Vec<ClassUnicodeRange>)
    ensures
        rview(final(v)@) == rview(old(v)@) + punctuation_chunk_21(),
{
    let ghost o = rview(v@);
    push_range(v, '\u{11641}', '\u{11643}');
    push_range(v, '\u{11660}', '\u{1166C}');
    push_range(v, '\u{116B9}', '\u{116B9}');
    push_range(v, '\u{1173C}', '\u{1173E}');
    push_range(v, '\u{1183B}', '\u{1183B}');
    push_range(v, '\u{11944}', '\u{11946}');
    push_range(v, '\u{119E2}', '\u{119E2}');
    push_range(v, '\u{11A3F}', '\u{11A46}');
    assert(rview(v@) =~= o + punctuation_chunk_21());
}

fn push_punctuation_chunk_22(v: &mut Vec<ClassUnicodeRange>)
    ensures
        rview(final(v)@) == rview(old(v)@) + punctuation_chunk_22(),
{
    let ghost o = rview(v@);
    push_range(v, '\u{11A9A}', '\u{11A9C}');
    push_range(v, '\u{11A9E}', '\u{11AA2}');
    push_range(v, '\u{11B00}', '\u{11B09}');
    push_range(v, '\u{11BE1}', '\u{11BE1}');
    push_range(v, '\u{11C41}', '\u{11C45}');
    push_range(v, '\u{11C70}', '\u{11C71}');
    push_range(v, '\u{11EF7}', '\u{11EF8}');
    push_range(v, '\u{11F43}', '\u{11F4F}');
    assert(rview(v@) =~= o + punctuation_chunk_22());
}

fn push_punctuation_chunk_23(v: &mut Vec<ClassUnicodeRange>)
    ensures
        rview(final(v)@) == rview(old(v)@) + punctuation_chunk_23(),
{
    let ghost o = rview(v@);
    push_range(v, '\u{11FFF}', '\u{11FFF}');
    push_range(v, '\u{12470}', '\u{12474}');
    push_range(v, '\u{12FF1}', '\u{12FF2}');
    push_range(v, '\u{16A6E}', '\u{16A6F}');
    push_range(v, '\u{16AF5}', '\u{16AF5}');
    push_range(v, '\u{16B37}', '\u{16B3B}');
    push_range(v, '\u{16B44}', '\u{16B44}');
    push_range(v, '\u{16D6D}', '\u{16D6F}');
    assert(rview(v@) =~= o + punctuation_chunk_23());
}

fn push_punctuation_chunk_24(v: &mut Vec<ClassUnicodeRange>)
    ensures
        rview(final(v)@) == rview(old(v)@) + punctuation_chunk_24(),
{
    let ghost o = rview(v@);
    push_range(v, '\u{16E97}', '\u{16E9A}');
    push_range(v, '\u{16FE2}', '\u{16FE2}');
    push_range(v, '\u{1BC9F}', '\u{1BC9F}');
    push_range(v, '\u{1DA87}', '\u{1DA8B}');
    push_range(v, '\u{1E5FF}', '\u{1E5FF}');
    push_range(v, '\u{1E95E}', '\u{1E95F}');
    assert(rview(v@) =~= o + punctuation_chunk_24());
}

fn push_punctuation_block_0(v: &mut Vec<ClassUnicodeRange>)
    ensures
        rview(final(v)@) == rview(old(v)@) + punctuation_block_0(),
{
    let ghost o = rview(v@);
    push_punctuation_chunk_0(v);
    assert(rview(v@) =~= o + (punctuation_chunk_0()));
    push_punctuation_chunk_1(v);
    assert(rview(v@) =~= o + (punctuation_chunk_0() + punctuation_chunk_1()));
    push_punctuation_chunk_2(v);
    assert(rview(v@) =~= o + (punctuation_chunk_0() + punctuation_chunk_1() + punctuation_chunk_2()));
    push_punctuation_chunk_3(v);
    assert(rview(v@) =~= o + (punctuation_chunk_0() + punctuation_chunk_1() + punctuation_chunk_2() + punctuation_chunk_3()));
    push_punctuation_chunk_4(v);
    assert(rview(v@) =~= o + (punctuation_chunk_0() + punctuation_chunk_1() + punctuation_chunk_2() + punctuation_chunk_3() + punctuation_chunk_4()));
    push_punctuation_chunk_5(v);
    assert(rview(v@) =~= o + (punctuation_chunk_0() + punctuation_chunk_1() + punctuation_chunk_2() + punctuation_chunk_3() + punctuation_chunk_4() + punctuation_chunk_5()));
    push_punctuation_chunk_6(v);
    assert(rview(v@) =~= o + (punctuation_chunk_0() + punctuation_chunk_1() + punctuation_chunk_2() + punctuation_chunk_3() + punctuation_chunk_4() + punctuation_chunk_5() + punctuation_chunk_6()));
    push_punctuation_chunk_7(v);
    assert(rview(v@) =~= o + (punctuation_chunk_0() + punctuation_chunk_1() + punctuation_chunk_2() + punctuation_chunk_3() + punctuation_chunk_4() + punctuation_chunk_5() + punctuation_chunk_6() + punctuation_chunk_7()));
    push_punctuation_chunk_8(v);
    assert(rview(v@) =~= o + (punctuation_chunk_0() + punctuation_chunk_1() + punctuation_chunk_2() + punctuation_chunk_3() + punctuation_chunk_4() + punctuation_chunk_5() + punctuation_chunk_6() + punctuation_chunk_7() + punctuation_chunk_8()));
    push_punctuation_chunk_9(v);
    assert(rview(v@) =~= o + (punctuation_chunk_0() + punctuation_chunk_1() + punctuation_chunk_2() + punctuation_chunk_3() + punctuation_chunk_4() + punctuation_chunk_5() + punctuation_chunk_6() + punctuation_chunk_7() + punctuation_chunk_8() + punctuation_chunk_9()));
}

fn push_punctuation_block_1(v: &mut Vec<ClassUnicodeRange>)
    ensures
        rview(final(v)@) == rview(old(v)@) + punctuation_block_1(),
{
    let ghost o = rview(v@);
    push_punctuation_chunk_10(v);
    assert(rview(v@) =~= o + (punctuation_chunk_10()));
    push_punctuation_chunk_11(v);
    assert(rview(v@) =~= o + (punctuation_chunk_10() + punctuation_chunk_11()));
    push_punctuation_chunk_12(v);
    assert(rview(v@) =~= o + (punctuation_chunk_10() + punctuation_chunk_11() + punctuation_chunk_12()));
    push_punctuation_chunk_13(v);
    assert(rview(v@) =~= o + (punctuation_chunk_10() + punctuation_chunk_11() + punctuation_chunk_12() + punctuation_chunk_13()));
    push_punctuation_chunk_14(v);
    assert(rview(v@) =~= o + (punctuation_chunk_10() + punctuation_chunk_11() + punctuation_chunk_12() + punctuation_chunk_13() + punctuation_chunk_14()));
    push_punctuation_chunk_15(v);
    assert(rview(v@) =~= o + (punctuation_chunk_10() + punctuation_chunk_11() + punctuation_chunk_12() + punctuation_chunk_13() + punctuation_chunk_14() + punctuation_chunk_15()));
    push_punctuation_chunk_16(v);
    assert(rview(v@) =~= o + (punctuation_chunk_10() + punctuation_chunk_11() + punctuation_chunk_12() + punctuation_chunk_13() + punctuation_chunk_14() + punctuation_chunk_15() + punctuation_chunk_16()));
    push_punctuation_chunk_17(v);
    assert(rview(v@) =~= o + (punctuation_chunk_10() + punctuation_chunk_11() + punctuation_chunk_12() + punctuation_chunk_13() + punctuation_chunk_14() + punctuation_chunk_15() + punctuation_chunk_16() + punctuation_chunk_17()));
    push_punctuation_chunk_18(v);
    assert(rview(v@) =~= o + (punctuation_chunk_10() + punctuation_chunk_11() + punctuation_chunk_12() + punctuation_chunk_13() + punctuation_chunk_14() + punctuation_chunk_15() + punctuation_chunk_16() + punctuation_chunk_17() + punctuation_chunk_18()));
    push_punctuation_chunk_19(v);
    assert(rview(v@) =~= o + (punctuation_chunk_10() + punctuation_chunk_11() + punctuation_chunk_12() + punctuation_chunk_13() + punctuation_chunk_14() + punctuation_chunk_15() + punctuation_chunk_16() + punctuation_chunk_17() + punctuation_chunk_18() + punctuation_chunk_19()));
}

fn push_punctuation_block_2(v: &mut Vec<ClassUnicodeRange>)
    ensures
        rview(final(v)@) == rview(old(v)@) + punctuation_block_2(),
{
    let ghost o = rview(v@);
    push_punctuation_chunk_20(v);
    assert(rview(v@) =~= o + (punctuation_chunk_20()));
    push_punctuation_chunk_21(v);
    assert(rview(v@) =~= o + (punctuation_chunk_20() + punctuation_chunk_21()));
    push_punctuation_chunk_22(v);
    assert(rview(v@) =~= o + (punctuation_chunk_20() + punctuation_chunk_21() + punctuation_chunk_22()));
    push_punctuation_chunk_23(v);
    assert(rview(v@) =~= o + (punctuation_chunk_20() + punctuation_chunk_21() + punctuation_chunk_22() + punctuation_chunk_23()));
    push_punctuation_chunk_24(v);
    assert(rview(v@) =~= o + (punctuation_chunk_20() + punctuation_chunk_21() + punctuation_chunk_22() + punctuation_chunk_23() + punctuation_chunk_24()));
}

/// The ranges of the general category Punctuation.
pub fn punctuation_class() -> (v: Vec<ClassUnicodeRange>)
    ensures
        rview(v@) == punctuation_ranges(),
{
    let mut v: Vec<ClassUnicodeRange> = Vec::new();
    assert(rview(v@) =~= Seq::<SRange>::empty());
    push_punctuation_block_0(&mut v);
    assert(rview(v@) =~= punctuation_block_0());
    push_punctuation_block_1(&mut v);
    assert(rview(v@) =~= punctuation_block_0() + punctuation_block_1());
    push_punctuation_block_2(&mut v);
    assert(rview(v@) =~= punctuation_block_0() + punctuation_block_1() + punctuation_block_2());
    v
}

pub open spec fn spacing_mark_chunk_0() -> Seq<SRange> {
    seq![(0x903int, 0x903int), (0x93Bint, 0x93Bint), (0x93Eint, 0x940int), (0x949int, 0x94Cint), (0x94Eint, 0x94Fint), (0x982int, 0x983int), (0x9BEint, 0x9C0int), (0x9C7int, 0x9C8int)]
}

pub open spec fn spacing_mark_chunk_1() -> Seq<SRange> {
    seq![(0x9CBint, 0x9CCint), (0x9D7int, 0x9D7int), (0xA03int, 0xA03int), (0xA3Eint, 0xA40int), (0xA83int, 0xA83int), (0xABEint, 0xAC0int), (0xAC9int, 0xAC9int), (0xACBint, 0xACCint)]
}

pub open spec fn spacing_mark_chunk_2() -> Seq<SRange> {
    seq![(0xB02int, 0xB03int), (0xB3Eint, 0xB3Eint), (0xB40int, 0xB40int), (0xB47int, 0xB48int), (0xB4Bint, 0xB4Cint), (0xB57int, 0xB57int), (0xBBEint, 0xBBFint), (0xBC1int, 0xBC2int)]
}

pub open spec fn spacing_mark_chunk_3() -> Seq<SRange> {
    seq![(0xBC6int, 0xBC8int), (0xBCAint, 0xBCCint), (0xBD7int, 0xBD7int), (0xC01int, 0xC03int), (0xC41int, 0xC44int), (0xC82int, 0xC83int), (0xCBEint, 0xCBEint), (0xCC0int, 0xCC4int)]
}

pub open spec fn spacing_mark_chunk_4() -> Seq<SRange> {
    seq![(0xCC7int, 0xCC8int), (0xCCAint, 0xCCBint), (0xCD5int, 0xCD6int), (0xCF3int, 0xCF3int), (0xD02int, 0xD03int), (0xD3Eint, 0xD40int), (0xD46int, 0xD48int), (0xD4Aint, 0xD4Cint)]
}

pub open spec fn spacing_mark_chunk_5() -> Seq<SRange> {
    seq![(0xD57int, 0xD57int), (0xD82int, 0xD83int), (0xDCFint, 0xDD1int), (0xDD8int, 0xDDFint), (0xDF2int, 0xDF3int), (0xF3Eint, 0xF3Fint), (0xF7Fint, 0xF7Fint), (0x102Bint, 0x102Cint)]
}

pub open spec fn spacing_mark_chunk_6() -> Seq<SRange> {
    seq![(0x1031int, 0x1031int), (0x1038int, 0x1038int), (0x103Bint, 0x103Cint), (0x1056int, 0x1057int), (0x1062int, 0x1064int), (0x1067int, 0x106Dint), (0x1083int, 0x1084int), (0x1087int, 0x108Cint)]
}

pub open spec fn spacing_mark_chunk_7() -> Seq<SRange> {
    seq![(0x108Fint, 0x108Fint), (0x109Aint, 0x109Cint), (0x1715int, 0x1715int), (0x1734int, 0x1734int), (0x17B6int, 0x17B6int), (0x17BEint, 0x17C5int), (0x17C7int, 0x17C8int), (0x1923int, 0x1926int)]
}

pub open spec fn spacing_mark_chunk_8() -> Seq<SRange> {
    seq![(0x1929int, 0x192Bint), (0x1930int, 0x1931int), (0x1933int, 0x1938int), (0x1A19int, 0x1A1Aint), (0x1A55int, 0x1A55int), (0x1A57int, 0x1A57int), (0x1A61int, 0x1A61int), (0x1A63int, 0x1A64int)]
}

pub open spec fn spacing_mark_chunk_9() -> Seq<SRange> {
    seq![(0x1A6Dint, 0x1A72int), (0x1B04int, 0x1B04int), (0x1B35int, 0x1B35int), (0x1B3Bint, 0x1B3Bint), (0x1B3Dint, 0x1B41int), (0x1B43int, 0x1B44int), (0x1B82int, 0x1B82int), (0x1BA1int, 0x1BA1int)]
}

pub open spec fn spacing_mark_chunk_10() -> Seq<SRange> {
    seq![(0x1BA6int, 0x1BA7int), (0x1BAAint, 0x1BAAint), (0x1BE7int, 0x1BE7int), (0x1BEAint, 0x1BECint), (0x1BEEint, 0x1BEEint), (0x1BF2int, 0x1BF3int), (0x1C24int, 0x1C2Bint), (0x1C34int, 0x1C35int)]
}

pub open spec fn spacing_mark_chunk_11() -> Seq<SRange> {
    seq![(0x1CE1int, 0x1CE1int), (0x1CF7int, 0x1CF7int), (0x302Eint, 0x302Fint), (0xA823int, 0xA824int), (0xA827int, 0xA827int), (0xA880int, 0xA881int), (0xA8B4int, 0xA8C3int), (0xA952int, 0xA953int)]
}

pub open spec fn spacing_mark_chunk_12() -> Seq<SRange> {
    seq![(0xA983int, 0xA983int), (0xA9B4int, 0xA9B5int), (0xA9BAint, 0xA9BBint), (0xA9BEint, 0xA9C0int), (0xAA2Fint, 0xAA30int), (0xAA33int, 0xAA34int), (0xAA4Dint, 0xAA4Dint), (0xAA7Bint, 0xAA7Bint)]
}

pub open spec fn spacing_mark_chunk_13() -> Seq<SRange> {
    seq![(0xAA7Dint, 0xAA7Dint), (0xAAEBint, 0xAAEBint), (0xAAEEint, 0xAAEFint), (0xAAF5int, 0xAAF5int), (0xABE3int, 0xABE4int), (0xABE6int, 0xABE7int), (0xABE9int, 0xABEAint), (0xABECint, 0xABECint)]
}

pub open spec fn spacing_mark_chunk_14() -> Seq<SRange> {
    seq![(0x11000int, 0x11000int), (0x11002int, 0x11002int), (0x11082int, 0x11082int), (0x110B0int, 0x110B2int), (0x110B7int, 0x110B8int), (0x1112Cint, 0x1112Cint), (0x11145int, 0x11146int), (0x11182int, 0x11182int)]
}

pub open spec fn spacing_mark_chunk_15() -> Seq<SRange> {
    seq![(0x111B3int, 0x111B5int), (0x111BFint, 0x111C0int), (0x111CEint, 0x111CEint), (0x1122Cint, 0x1122Eint), (0x11232int, 0x11233int), (0x11235int, 0x11235int), (0x112E0int, 0x112E2int), (0x11302int, 0x11303int)]
}

pub open spec fn spacing_mark_chunk_16() -> Seq<SRange> {
    seq![(0x1133Eint, 0x1133Fint), (0x11341int, 0x11344int), (0x11347int, 0x11348int), (0x1134Bint, 0x1134Dint), (0x11357int, 0x11357int), (0x11362int, 0x11363int), (0x113B8int, 0x113BAint), (0x113C2int, 0x113C2int)]
}

pub open spec fn spacing_mark_chunk_17() -> Seq<SRange> {
    seq![(0x113C5int, 0x113C5int), (0x113C7int, 0x113CAint), (0x113CCint, 0x113CDint), (0x113CFint, 0x113CFint), (0x11435int, 0x11437int), (0x11440int, 0x11441int), (0x11445int, 0x11445int), (0x114B0int, 0x114B2int)]
}

pub open spec fn spacing_mark_chunk_18() -> Seq<SRange> {
    seq![(0x114B9int, 0x114B9int), (0x114BBint, 0x114BEint), (0x114C1int, 0x114C1int), (0x115AFint, 0x115B1int), (0x115B8int, 0x115BBint), (0x115BEint, 0x115BEint), (0x11630int, 0x11632int), (0x1163Bint, 0x1163Cint)]
}

pub open spec fn spacing_mark_chunk_19() -> Seq<SRange> {
    seq![(0x1163Eint, 0x1163Eint), (0x116ACint, 0x116ACint), (0x116AEint, 0x116AFint), (0x116B6int, 0x116B6int), (0x1171Eint, 0x1171Eint), (0x11720int, 0x11721int), (0x11726int, 0x11726int), (0x1182Cint, 0x1182Eint)]
}

pub open spec fn spacing_mark_chunk_20() -> Seq<SRange> {
    seq![(0x11838int, 0x11838int), (0x11930int, 0x11935int), (0x11937int, 0x11938int), (0x1193Dint, 0x1193Dint), (0x11940int, 0x11940int), (0x11942int, 0x11942int), (0x119D1int, 0x119D3int), (0x119DCint, 0x119DFint)]
}

pub open spec fn spacing_mark_chunk_21() -> Seq<SRange> {
    seq![(0x119E4int, 0x119E4int), (0x11A39int, 0x11A39int), (0x11A57int, 0x11A58int), (0x11A97int, 0x11A97int), (0x11C2Fint, 0x11C2Fint), (0x11C3Eint, 0x11C3Eint), (0x11CA9int, 0x11CA9int), (0x11CB1int, 0x11CB1int)]
}

pub open spec fn spacing_mark_chunk_22() -> Seq<SRange> {
    seq![(0x11CB4int, 0x11CB4int), (0x11D8Aint, 0x11D8Eint), (0x11D93int, 0x11D94int), (0x11D96int, 0x11D96int), (0x11EF5int, 0x11EF6int), (0x11F03int, 0x11F03int), (0x11F34int, 0x11F35int), (0x11F3Eint, 0x11F3Fint)]
}

pub open spec fn spacing_mark_chunk_23() -> Seq<SRange> {
    seq![(0x11F41int, 0x11F41int), (0x1612Aint, 0x1612Cint), (0x16F51int, 0x16F87int), (0x16FF0int, 0x16FF1int), (0x1D165int, 0x1D166int), (0x1D16Dint, 0x1D172int)]
}

pub open spec fn spacing_mark_block_0() -> Seq<SRange> {
    spacing_mark_chunk_0() + spacing_mark_chunk_1() + spacing_mark_chunk_2() + spacing_mark_chunk_3() + spacing_mark_chunk_4() + spacing_mark_chunk_5() + spacing_mark_chunk_6() + spacing_mark_chunk_7() + spacing_mark_chunk_8() + spacing_mark_chunk_9()
}

pub open spec fn spacing_mark_block_1() -> Seq<SRange> {
    spacing_mark_chunk_10() + spacing_mark_chunk_11() + spacing_mark_chunk_12() + spacing_mark_chunk_13() + spacing_mark_chunk_14() + spacing_mark_chunk_15() + spacing_mark_chunk_16() + spacing_mark_chunk_17() + spacing_mark_chunk_18() + spacing_mark_chunk_19()
}

pub open spec fn spacing_mark_block_2() -> Seq<SRange> {
    spacing_mark_chunk_20() + spacing_mark_chunk_21() + spacing_mark_chunk_22() + spacing_mark_chunk_23()
}

/// The ranges of the general category Spacing_Mark.
pub open spec fn spacing_mark_ranges() -> Seq<SRange> {
    spacing_mark_block_0() + spacing_mark_block_1() + spacing_mark_block_2()
}

proof fn lemma_spacing_mark_block_0()
    ensures
        canonical(spacing_mark_block_0()),
        spacing_mark_block_0().len() > 0,
        spacing_mark_block_0()[0] == spacing_mark_chunk_0()[0],
        spacing_mark_block_0().last() == spacing_mark_chunk_9().last(),
{
    reveal_with_fuel(canonical, 9);
    assert(canonical(spacing_mark_chunk_0()));
    assert(canonical(spacing_mark_chunk_1()));
    assert(canonical(spacing_mark_chunk_2()));
    assert(canonical(spacing_mark_chunk_3()));
    assert(canonical(spacing_mark_chunk_4()));
    assert(canonical(spacing_mark_chunk_5()));
    assert(canonical(spacing_mark_chunk_6()));
    assert(canonical(spacing_mark_chunk_7()));
    assert(canonical(spacing_mark_chunk_8()));
    assert(canonical(spacing_mark_chunk_9()));
    lemma_canonical_append(spacing_mark_chunk_0(), spacing_mark_chunk_1());
    lemma_canonical_append(spacing_mark_chunk_0() + spacing_mark_chunk_1(), spacing_mark_chunk_2());
    lemma_canonical_append(spacing_mark_chunk_0() + spacing_mark_chunk_1() + spacing_mark_chunk_2(), spacing_mark_chunk_3());
    lemma_canonical_append(spacing_mark_chunk_0() + spacing_mark_chunk_1() + spacing_mark_chunk_2() + spacing_mark_chunk_3(), spacing_mark_chunk_4());
    lemma_canonical_append(spacing_mark_chunk_0() + spacing_mark_chunk_1() + spacing_mark_chunk_2() + spacing_mark_chunk_3() + spacing_mark_chunk_4(), spacing_mark_chunk_5());
    lemma_canonical_append(spacing_mark_chunk_0() + spacing_mark_chunk_1() + spacing_mark_chunk_2() + spacing_mark_chunk_3() + spacing_mark_chunk_4() + spacing_mark_chunk_5(), spacing_mark_chunk_6());
    lemma_canonical_append(spacing_mark_chunk_0() + spacing_mark_chunk_1() + spacing_mark_chunk_2() + spacing_mark_chunk_3() + spacing_mark_chunk_4() + spacing_mark_chunk_5() + spacing_mark_chunk_6(), spacing_mark_chunk_7());
    lemma_canonical_append(spacing_mark_chunk_0() + spacing_mark_chunk_1() + spacing_mark_chunk_2() + spacing_mark_chunk_3() + spacing_mark_chunk_4() + spacing_mark_chunk_5() + spacing_mark_chunk_6() + spacing_mark_chunk_7(), spacing_mark_chunk_8());
    lemma_canonical_append(spacing_mark_chunk_0() + spacing_mark_chunk_1() + spacing_mark_chunk_2() + spacing_mark_chunk_3() + spacing_mark_chunk_4() + spacing_mark_chunk_5() + spacing_mark_chunk_6() + spacing_mark_chunk_7() + spacing_mark_chunk_8(), spacing_mark_chunk_9());
}

proof fn lemma_spacing_mark_block_1()
    ensures
        canonical(spacing_mark_block_1()),
        spacing_mark_block_1().len() > 0,
        spacing_mark_block_1()[0] == spacing_mark_chunk_10()[0],
        spacing_mark_block_1().last() == spacing_mark_chunk_19().last(),
{
    reveal_with_fuel(canonical, 9);
    assert(canonical(spacing_mark_chunk_10()));
    assert(canonical(spacing_mark_chunk_11()));
    assert(canonical(spacing_mark_chunk_12()));
    assert(canonical(spacing_mark_chunk_13()));
    assert(canonical(spacing_mark_chunk_14()));
    assert(canonical(spacing_mark_chunk_15()));
    assert(canonical(spacing_mark_chunk_16()));
    assert(canonical(spacing_mark_chunk_17()));
    assert(canonical(spacing_mark_chunk_18()));
    assert(canonical(spacing_mark_chunk_19()));
    lemma_canonical_append(spacing_mark_chunk_10(), spacing_mark_chunk_11());
    lemma_canonical_append(spacing_mark_chunk_10() + spacing_mark_chunk_11(), spacing_mark_chunk_12());
    lemma_canonical_append(spacing_mark_chunk_10() + spacing_mark_chunk_11() + spacing_mark_chunk_12(), spacing_mark_chunk_13());
    lemma_canonical_append(spacing_mark_chunk_10() + spacing_mark_chunk_11() + spacing_mark_chunk_12() + spacing_mark_chunk_13(), spacing_mark_chunk_14());
    lemma_canonical_append(spacing_mark_chunk_10() + spacing_mark_chunk_11() + spacing_mark_chunk_12() + spacing_mark_chunk_13() + spacing_mark_chunk_14(), spacing_mark_chunk_15());
    lemma_canonical_append(spacing_mark_chunk_10() + spacing_mark_chunk_11() + spacing_mark_chunk_12() + spacing_mark_chunk_13() + spacing_mark_chunk_14() + spacing_mark_chunk_15(), spacing_mark_chunk_16());
    lemma_canonical_append(spacing_mark_chunk_10() + spacing_mark_chunk_11() + spacing_mark_chunk_12() + spacing_mark_chunk_13() + spacing_mark_chunk_14() + spacing_mark_chunk_15() + spacing_mark_chunk_16(), spacing_mark_chunk_17());
    lemma_canonical_append(spacing_mark_chunk_10() + spacing_mark_chunk_11() + spacing_mark_chunk_12() + spacing_mark_chunk_13() + spacing_mark_chunk_14() + spacing_mark_chunk_15() + spacing_mark_chunk_16() + spacing_mark_chunk_17(), spacing_mark_chunk_18());
    lemma_canonical_append(spacing_mark_chunk_10() + spacing_mark_chunk_11() + spacing_mark_chunk_12() + spacing_mark_chunk_13() + spacing_mark_chunk_14() + spacing_mark_chunk_15() + spacing_mark_chunk_16() + spacing_mark_chunk_17() + spacing_mark_chunk_18(), spacing_mark_chunk_19());
}

proof fn lemma_spacing_mark_block_2()
    ensures
        canonical(spacing_mark_block_2()),
        spacing_mark_block_2().len() > 0,
        spacing_mark_block_2()[0] == spacing_mark_chunk_20()[0],
        spacing_mark_block_2().last() == spacing_mark_chunk_23().last(),
{
    reveal_with_fuel(canonical, 9);
    assert(canonical(spacing_mark_chunk_20()));
    assert(canonical(spacing_mark_chunk_21()));
    assert(canonical(spacing_mark_chunk_22()));
    assert(canonical(spacing_mark_chunk_23()));
    lemma_canonical_append(spacing_mark_chunk_20(), spacing_mark_chunk_21());
    lemma_canonical_append(spacing_mark_chunk_20() + spacing_mark_chunk_21(), spacing_mark_chunk_22());
    lemma_canonical_append(spacing_mark_chunk_20() + spacing_mark_chunk_21() + spacing_mark_chunk_22(), spacing_mark_chunk_23());
}

/// The general category Spacing_Mark is a canonical class.
pub proof fn lemma_spacing_mark_canonical()
    ensures
        canonical(spacing_mark_ranges()),
{
    lemma_spacing_mark_block_0();
    lemma_spacing_mark_block_1();
    lemma_spacing_mark_block_2();
    lemma_canonical_append(spacing_mark_block_0(), spacing_mark_block_1());
    lemma_canonical_append(spacing_mark_block_0() + spacing_mark_block_1(), spacing_mark_block_2());
}

fn push_spacing_mark_chunk_0(v: &mut Vec<ClassUnicodeRange>)
    ensures
        rview(final(v)@) == rview(old(v)@) + spacing_mark_chunk_0(),
{
    let ghost o = rview(v@);
    push_range(v, '\u{903}', '\u{903}');
    push_range(v, '\u{93B}', '\u{93B}');
    push_range(v, '\u{93E}', '\u{940}');
    push_range(v, '\u{949}', '\u{94C}');
    push_range(v, '\u{94E}', '\u{94F}');
    push_range(v, '\u{982}', '\u{983}');
    push_range(v, '\u{9BE}', '\u{9C0}');
    push_range(v, '\u{9C7}', '\u{9C8}');
    assert(rview(v@) =~= o + spacing_mark_chunk_0());
}

fn push_spacing_mark_chunk_1(v: &mut Vec<ClassUnicodeRange>)
    ensures
        rview(final(v)@) == rview(old(v)@) + spacing_mark_chunk_1(),
{
    let ghost o = rview(v@);
    push_range(v, '\u{9CB}', '\u{9CC}');
    push_range(v, '\u{9D7}', '\u{9D7}');
    push_range(v, '\u{A03}', '\u{A03}');
    push_range(v, '\u{A3E}', '\u{A40}');
    push_range(v, '\u{A83}', '\u{A83}');
    push_range(v, '\u{ABE}', '\u{AC0}');
    push_range(v, '\u{AC9}', '\u{AC9}');
    push_range(v, '\u{ACB}', '\u{ACC}');
    assert(rview(v@) =~= o + spacing_mark_chunk_1());
}

fn push_spacing_mark_chunk_2(v: &mut Vec<ClassUnicodeRange>)
    ensures
        rview(final(v)@) == rview(old(v)@) + spacing_mark_chunk_2(),
{
    let ghost o = rview(v@);
    push_range(v, '\u{B02}', '\u{B03}');
    push_range(v, '\u{B3E}', '\u{B3E}');
    push_range(v, '\u{B40}', '\u{B40}');
    push_range(v, '\u{B47}', '\u{B48}');
    push_range(v, '\u{B4B}', '\u{B4C}');
    push_range(v, '\u{B57}', '\u{B57}');
    push_range(v, '\u{BBE}', '\u{BBF}');
    push_range(v, '\u{BC1}', '\u{BC2}');
    assert(rview(v@) =~= o + spacing_mark_chunk_2());
}

fn push_spacing_mark_chunk_3(v: &mut Vec<ClassUnicodeRange>)
    ensures
        rview(final(v)@) == rview(old(v)@) + spacing_mark_chunk_3(),
{
    let ghost o = rview(v@);
    push_range(v, '\u{BC6}', '\u{BC8}');
    push_range(v, '\u{BCA}', '\u{BCC}');
    push_range(v, '\u{BD7}', '\u{BD7}');
    push_range(v, '\u{C01}', '\u{C03}');
    push_range(v, '\u{C41}', '\u{C44}');
    push_range(v, '\u{C82}', '\u{C83}');
    push_range(v, '\u{CBE}', '\u{CBE}');
    push_range(v, '\u{CC0}', '\u{CC4}');
    assert(rview(v@) =~= o + spacing_mark_chunk_3());
}

fn push_spacing_mark_chunk_4(v: &mut Vec<ClassUnicodeRange>)
    ensures
        rview(final(v)@) == rview(old(v)@) + spacing_mark_chunk_4(),
{
    let ghost o = rview(v@);
    push_range(v, '\u{CC7}', '\u{CC8}');
    push_range(v, '\u{CCA}', '\u{CCB}');
    push_range(v, '\u{CD5}', '\u{CD6}');
    push_range(v, '\u{CF3}', '\u{CF3}');
    push_range(v, '\u{D02}', '\u{D03}');
    push_range(v, '\u{D3E}', '\u{D40}');
    push_range(v, '\u{D46}', '\u{D48}');
    push_range(v, '\u{D4A}', '\u{D4C}');
    assert(rview(v@) =~= o + spacing_mark_chunk_4());
}

fn push_spacing_mark_chunk_5(v: &mut Vec<ClassUnicodeRange>)
    ensures
        rview(final(v)@) == rview(old(v)@) + spacing_mark_chunk_5(),
{
    let ghost o = rview(v@);
    push_range(v, '\u{D57}', '\u{D57}');
    push_range(v, '\u{D82}', '\u{D83}');
    push_range(v, '\u{DCF}', '\u{DD1}');
    push_range(v, '\u{DD8}', '\u{DDF}');
    push_range(v, '\u{DF2}', '\u{DF3}');
    push_range(v, '\u{F3E}', '\u{F3F}');
    push_range(v, '\u{F7F}', '\u{F7F}');
    push_range(v, '\u{102B}', '\u{102C}');
    assert(rview(v@) =~= o + spacing_mark_chunk_5());
}

fn push_spacing_mark_chunk_6(v: &mut Vec<ClassUnicodeRange>)
    ensures
        rview(final(v)@) == rview(old(v)@) + spacing_mark_chunk_6(),
{
    let ghost o = rview(v@);
    push_range(v, '\u{1031}', '\u{1031}');
    push_range(v, '\u{1038}', '\u{1038}');
    push_range(v, '\u{103B}', '\u{103C}');
    push_range(v, '\u{1056}', '\u{1057}');
    push_range(v, '\u{1062}', '\u{1064}');
    push_range(v, '\u{1067}', '\u{106D}');
    push_range(v, '\u{1083}', '\u{1084}');
    push_range(v, '\u{1087}', '\u{108C}');
    assert(rview(v@) =~= o + spacing_mark_chunk_6());
}

fn push_spacing_mark_chunk_7(v: &mut Vec<ClassUnicodeRange>)
    ensures
        rview(final(v)@) == rview(old(v)@) + spacing_mark_chunk_7(),
{
    let ghost o = rview(v@);
    push_range(v, '\u{108F}', '\u{108F}');
    push_range(v, '\u{109A}', '\u{109C}');
    push_range(v, '\u{1715}', '\u{1715}');
    push_range(v, '\u{1734}', '\u{1734}');
    push_range(v, '\u{17B6}', '\u{17B6}');
    push_range(v, '\u{17BE}', '\u{17C5}');
    push_range(v, '\u{17C7}', '\u{17C8}');
    push_range(v, '\u{1923}', '\u{1926}');
    assert(rview(v@) =~= o + spacing_mark_chunk_7());
}

fn push_spacing_mark_chunk_8(v: &mut Vec<ClassUnicodeRange>)
    ensures
        rview(final(v)@) == rview(old(v)@) + spacing_mark_chunk_8(),
{
    let ghost o = rview(v@);
    push_range(v, '\u{1929}', '\u{192B}');
    push_range(v, '\u{1930}', '\u{1931}');
    push_range(v, '\u{1933}', '\u{1938}');
    push_range(v, '\u{1A19}', '\u{1A1A}');
    push_range(v, '\u{1A55}', '\u{1A55}');
    push_range(v, '\u{1A57}', '\u{1A57}');
    push_range(v, '\u{1A61}', '\u{1A61}');
    push_range(v, '\u{1A63}', '\u{1A64}');
    assert(rview(v@) =~= o + spacing_mark_chunk_8());
}

fn push_spacing_mark_chunk_9(v: &mut Vec<ClassUnicodeRange>)
    ensures
        rview(final(v)@) == rview(old(v)@) + spacing_mark_chunk_9(),
{
    let ghost o = rview(v@);
    push_range(v, '\u{1A6D}', '\u{1A72}');
    push_range(v, '\u{1B04}', '\u{1B04}');
    push_range(v, '\u{1B35}', '\u{1B35}');
    push_range(v, '\u{1B3B}', '\u{1B3B}');
    push_range(v, '\u{1B3D}', '\u{1B41}');
    push_range(v, '\u{1B43}', '\u{1B44}');
    push_range(v, '\u{1B82}', '\u{1B82}');
    push_range(v, '\u{1BA1}', '\u{1BA1}');
    assert(rview(v@) =~= o + spacing_mark_chunk_9());
}

fn push_spacing_mark_chunk_10(v: &mut Vec<ClassUnicodeRange>)
    ensures
        rview(final(v)@) == rview(old(v)@) + spacing_mark_chunk_10(),
{
    let ghost o = rview(v@);
    push_range(v, '\u{1BA6}', '\u{1BA7}');
    push_range(v, '\u{1BAA}', '\u{1BAA}');
    push_range(v, '\u{1BE7}', '\u{1BE7}');
    push_range(v, '\u{1BEA}', '\u{1BEC}');
    push_range(v, '\u{1BEE}', '\u{1BEE}');
    push_range(v, '\u{1BF2}', '\u{1BF3}');
    push_range(v, '\u{1C24}', '\u{1C2B}');
    push_range(v, '\u{1C34}', '\u{1C35}');
    assert(rview(v@) =~= o + spacing_mark_chunk_10());
}

fn push_spacing_mark_chunk_11(v: &mut Vec<ClassUnicodeRange>)
    ensures
        rview(final(v)@) == rview(old(v)@) + spacing_mark_chunk_11(),
{
    let ghost o = rview(v@);
    push_range(v, '\u{1CE1}', '\u{1CE1}');
    push_range(v, '\u{1CF7}', '\u{1CF7}');
    push_range(v, '\u{302E}', '\u{302F}');
    push_range(v, '\u{A823}', '\u{A824}');
    push_range(v, '\u{A827}', '\u{A827}');
    push_range(v, '\u{A880}', '\u{A881}');
    push_range(v, '\u{A8B4}', '\u{A8C3}');
    push_range(v, '\u{A952}', '\u{A953}');
    assert(rview(v@) =~= o + spacing_mark_chunk_11());
}

fn push_spacing_mark_chunk_12(v: &mut Vec<ClassUnicodeRange>)
    ensures
        rview(final(v)@) == rview(old(v)@) + spacing_mark_chunk_12(),
{
    let ghost o = rview(v@);
    push_range(v, '\u{A983}', '\u{A983}');
    push_range(v, '\u{A9B4}', '\u{A9B5}');
    push_range(v, '\u{A9BA}', '\u{A9BB}');
    push_range(v, '\u{A9BE}', '\u{A9C0}');
    push_range(v, '\u{AA2F}', '\u{AA30}');
    push_range(v, '\u{AA33}', '\u{AA34}');
    push_range(v, '\u{AA4D}', '\u{AA4D}');
    push_range(v, '\u{AA7B}', '\u{AA7B}');
    assert(rview(v@) =~= o + spacing_mark_chunk_12());
}

fn push_spacing_mark_chunk_13(v: &mut Vec<ClassUnicodeRange>)
    ensures
        rview(final(v)@) == rview(old(v)@) + spacing_mark_chunk_13(),
{
    let ghost o = rview(v@);
    push_range(v, '\u{AA7D}', '\u{AA7D}');
    push_range(v, '\u{AAEB}', '\u{AAEB}');
    push_range(v, '\u{AAEE}', '\u{AAEF}');
    push_range(v, '\u{AAF5}', '\u{AAF5}');
    push_range(v, '\u{ABE3}', '\u{ABE4}');
    push_range(v, '\u{ABE6}', '\u{ABE7}');
    push_range(v, '\u{ABE9}', '\u{ABEA}');
    push_range(v, '\u{ABEC}', '\u{ABEC}');
    assert(rview(v@) =~= o + spacing_mark_chunk_13());
}

fn push_spacing_mark_chunk_14(v: &mut Vec<ClassUnicodeRange>)
    ensures
        rview(final(v)@) == rview(old(v)@) + spacing_mark_chunk_14(),
{
    let ghost o = rview(v@);
    push_range(v, '\u{11000}', '\u{11000}');
    push_range(v, '\u{11002}', '\u{11002}');
    push_range(v, '\u{11082}', '\u{11082}');
    push_range(v, '\u{110B0}', '\u{110B2}');
    push_range(v, '\u{110B7}', '\u{110B8}');
    push_range(v, '\u{1112C}', '\u{1112C}');
    push_range(v, '\u{11145}', '\u{11146}');
    push_range(v, '\u{11182}', '\u{11182}');
    assert(rview(v@) =~= o + spacing_mark_chunk_14());
}

fn push_spacing_mark_chunk_15(v: &mut Vec<ClassUnicodeRange>)
    ensures
        rview(final(v)@) == rview(old(v)@) + spacing_mark_chunk_15(),
{
    let ghost o = rview(v@);
    push_range(v, '\u{111B3}', '\u{111B5}');
    push_range(v, '\u{111BF}', '\u{111C0}');
    push_range(v, '\u{111CE}', '\u{111CE}');
    push_range(v, '\u{1122C}', '\u{1122E}');
    push_range(v, '\u{11232}', '\u{11233}');
    push_range(v, '\u{11235}', '\u{11235}');
    push_range(v, '\u{112E0}', '\u{112E2}');
    push_range(v, '\u{11302}', '\u{11303}');
    assert(rview(v@) =~= o + spacing_mark_chunk_15());
}

fn push_spacing_mark_chunk_16(v: &mut Vec<ClassUnicodeRange>)
    ensures
        rview(final(v)@) == rview(old(v)@) + spacing_mark_chunk_16(),
{
    let ghost o = rview(v@);
    push_range(v, '\u{1133E}', '\u{1133F}');
    push_range(v, '\u{11341}', '\u{11344}');
    push_range(v, '\u{11347}', '\u{11348}');
    push_range(v, '\u{1134B}', '\u{1134D}');
    push_range(v, '\u{11357}', '\u{11357}');
    push_range(v, '\u{11362}', '\u{11363}');
    push_range(v, '\u{113B8}', '\u{113BA}');
    push_range(v, '\u{113C2}', '\u{113C2}');
    assert(rview(v@) =~= o + spacing_mark_chunk_16());
}

fn push_spacing_mark_chunk_17(v: &mut Vec<ClassUnicodeRange>)
    ensures
        rview(final(v)@) == rview(old(v)@) + spacing_mark_chunk_17(),
{
    let ghost o = rview(v@);
    push_range(v, '\u{113C5}', '\u{113C5}');
    push_range(v, '\u{113C7}', '\u{113CA}');
    push_range(v, '\u{113CC}', '\u{113CD}');
    push_range(v, '\u{113CF}', '\u{113CF}');
    push_range(v, '\u{11435}', '\u{11437}');
    push_range(v, '\u{11440}', '\u{11441}');
    push_range(v, '\u{11445}', '\u{11445}');
    push_range(v, '\u{114B0}', '\u{114B2}');
    assert(rview(v@) =~= o + spacing_mark_chunk_17());
}

fn push_spacing_mark_chunk_18(v: &mut Vec<ClassUnicodeRange>)
    ensures
        rview(final(v)@) == rview(old(v)@) + spacing_mark_chunk_18(),
{
    let ghost o = rview(v@);
    push_range(v, '\u{114B9}', '\u{114B9}');
    push_range(v, '\u{114BB}', '\u{114BE}');
    push_range(v, '\u{114C1}', '\u{114C1}');
    push_range(v, '\u{115AF}', '\u{115B1}');
    push_range(v, '\u{115B8}', '\u{115BB}');
    push_range(v, '\u{115BE}', '\u{115BE}');
    push_range(v, '\u{11630}', '\u{11632}');
    push_range(v, '\u{1163B}', '\u{1163C}');
    assert(rview(v@) =~= o + spacing_mark_chunk_18());
}

fn push_spacing_mark_chunk_19(v: &mut Vec<ClassUnicodeRange>)
    ensures
        rview(final(v)@) == rview(old(v)@) + spacing_mark_chunk_19(),
{
    let ghost o = rview(v@);
    push_range(v, '\u{1163E}', '\u{1163E}');
    push_range(v, '\u{116AC}', '\u{116AC}');
    push_range(v, '\u{116AE}', '\u{116AF}');
    push_range(v, '\u{116B6}', '\u{116B6}');
    push_range(v, '\u{1171E}', '\u{1171E}');
    push_range(v, '\u{11720}', '\u{11721}');
    push_range(v, '\u{11726}', '\u{11726}');
    push_range(v, '\u{1182C}', '\u{1182E}');
    assert(rview(v@) =~= o + spacing_mark_chunk_19());
}

fn push_spacing_mark_chunk_20(v: &mut Vec<ClassUnicodeRange>)
    ensures
        rview(final(v)@) == rview(old(v)@) + spacing_mark_chunk_20(),
{
    let ghost o = rview(v@);
    push_range(v, '\u{11838}', '\u{11838}');
    push_range(v, '\u{11930}', '\u{11935}');
    push_range(v, '\u{11937}', '\u{11938}');
    push_range(v, '\u{1193D}', '\u{1193D}');
    push_range(v, '\u{11940}', '\u{11940}');
    push_range(v, '\u{11942}', '\u{11942}');
    push_range(v, '\u{119D1}', '\u{119D3}');
    push_range(v, '\u{119DC}', '\u{119DF}');
    assert(rview(v@) =~= o + spacing_mark_chunk_20());
}

fn push_spacing_mark_chunk_21(v: &mut Vec<ClassUnicodeRange>)
    ensures
        rview(final(v)@) == rview(old(v)@) + spacing_mark_chunk_21(),
{
    let ghost o = rview(v@);
    push_range(v, '\u{119E4}', '\u{119E4}');
    push_range(v, '\u{11A39}', '\u{11A39}');
    push_range(v, '\u{11A57}', '\u{11A58}');
    push_range(v, '\u{11A97}', '\u{11A97}');
    push_range(v, '\u{11C2F}', '\u{11C2F}');
    push_range(v, '\u{11C3E}', '\u{11C3E}');
    push_range(v, '\u{11CA9}', '\u{11CA9}');
    push_range(v, '\u{11CB1}', '\u{11CB1}');
    assert(rview(v@) =~= o + spacing_mark_chunk_21());
}

fn push_spacing_mark_chunk_22(v: &mut Vec<ClassUnicodeRange>)
    ensures
        rview(final(v)@) == rview(old(v)@) + spacing_mark_chunk_22(),
{
    let ghost o = rview(v@);
    push_range(v, '\u{11CB4}', '\u{11CB4}');
    push_range(v, '\u{11D8A}', '\u{11D8E}');
    push_range(v, '\u{11D93}', '\u{11D94}');
    push_range(v, '\u{11D96}', '\u{11D96}');
    push_range(v, '\u{11EF5}', '\u{11EF6}');
    push_range(v, '\u{11F03}', '\u{11F03}');
    push_range(v, '\u{11F34}', '\u{11F35}');
    push_range(v, '\u{11F3E}', '\u{11F3F}');
    assert(rview(v@) =~= o + spacing_mark_chunk_22());
}

fn push_spacing_mark_chunk_23(v: &mut Vec<ClassUnicodeRange>)
    ensures
        rview(final(v)@) == rview(old(v)@) + spacing_mark_chunk_23(),
{
    let ghost o = rview(v@);
    push_range(v, '\u{11F41}', '\u{11F41}');
    push_range(v, '\u{1612A}', '\u{1612C}');
    push_range(v, '\u{16F51}', '\u{16F87}');
    push_range(v, '\u{16FF0}', '\u{16FF1}');
    push_range(v, '\u{1D165}', '\u{1D166}');
    push_range(v, '\u{1D16D}', '\u{1D172}');
    assert(rview(v@) =~= o + spacing_mark_chunk_23());
}

fn push_spacing_mark_block_0(v: &mut Vec<ClassUnicodeRange>)
    ensures
        rview(final(v)@) == rview(old(v)@) + spacing_mark_block_0(),
{
    let ghost o = rview(v@);
    push_spacing_mark_chunk_0(v);
    assert(rview(v@) =~= o + (spacing_mark_chunk_0()));
    push_spacing_mark_chunk_1(v);
    assert(rview(v@) =~= o + (spacing_mark_chunk_0() + spacing_mark_chunk_1()));
    push_spacing_mark_chunk_2(v);
    assert(rview(v@) =~= o + (spacing_mark_chunk_0() + spacing_mark_chunk_1() + spacing_mark_chunk_2()));
    push_spacing_mark_chunk_3(v);
    assert(rview(v@) =~= o + (spacing_mark_chunk_0() + spacing_mark_chunk_1() + spacing_mark_chunk_2() + spacing_mark_chunk_3()));
    push_spacing_mark_chunk_4(v);
    assert(rview(v@) =~= o + (spacing_mark_chunk_0() + spacing_mark_chunk_1() + spacing_mark_chunk_2() + spacing_mark_chunk_3() + spacing_mark_chunk_4()));
    push_spacing_mark_chunk_5(v);
    assert(rview(v@) =~= o + (spacing_mark_chunk_0() + spacing_mark_chunk_1() + spacing_mark_chunk_2() + spacing_mark_chunk_3() + spacing_mark_chunk_4() + spacing_mark_chunk_5()));
    push_spacing_mark_chunk_6(v);
    assert(rview(v@) =~= o + (spacing_mark_chunk_0() + spacing_mark_chunk_1() + spacing_mark_chunk_2() + spacing_mark_chunk_3() + spacing_mark_chunk_4() + spacing_mark_chunk_5() + spacing_mark_chunk_6()));
    push_spacing_mark_chunk_7(v);
    assert(rview(v@) =~= o + (spacing_mark_chunk_0() + spacing_mark_chunk_1() + spacing_mark_chunk_2() + spacing_mark_chunk_3() + spacing_mark_chunk_4() + spacing_mark_chunk_5() + spacing_mark_chunk_6() + spacing_mark_chunk_7()));
    push_spacing_mark_chunk_8(v);
    assert(rview(v@) =~= o + (spacing_mark_chunk_0() + spacing_mark_chunk_1() + spacing_mark_chunk_2() + spacing_mark_chunk_3() + spacing_mark_chunk_4() + spacing_mark_chunk_5() + spacing_mark_chunk_6() + spacing_mark_chunk_7() + spacing_mark_chunk_8()));
    push_spacing_mark_chunk_9(v);
    assert(rview(v@) =~= o + (spacing_mark_chunk_0() + spacing_mark_chunk_1() + spacing_mark_chunk_2() + spacing_mark_chunk_3() + spacing_mark_chunk_4() + spacing_mark_chunk_5() + spacing_mark_chunk_6() + spacing_mark_chunk_7() + spacing_mark_chunk_8() + spacing_mark_chunk_9()));
}

fn push_spacing_mark_block_1(v: &mut Vec<ClassUnicodeRange>)
    ensures
        rview(final(v)@) == rview(old(v)@) + spacing_mark_block_1(),
{
    let ghost o = rview(v@);
    push_spacing_mark_chunk_10(v);
    assert(rview(v@) =~= o + (spacing_mark_chunk_10()));
    push_spacing_mark_chunk_11(v);
    assert(rview(v@) =~= o + (spacing_mark_chunk_10() + spacing_mark_chunk_11()));
    push_spacing_mark_chunk_12(v);
    assert(rview(v@) =~= o + (spacing_mark_chunk_10() + spacing_mark_chunk_11() + spacing_mark_chunk_12()));
    push_spacing_mark_chunk_13(v);
    assert(rview(v@) =~= o + (spacing_mark_chunk_10() + spacing_mark_chunk_11() + spacing_mark_chunk_12() + spacing_mark_chunk_13()));
    push_spacing_mark_chunk_14(v);
    assert(rview(v@) =~= o + (spacing_mark_chunk_10() + spacing_mark_chunk_11() + spacing_mark_chunk_12() + spacing_mark_chunk_13() + spacing_mark_chunk_14()));
    push_spacing_mark_chunk_15(v);
    assert(rview(v@) =~= o + (spacing_mark_chunk_10() + spacing_mark_chunk_11() + spacing_mark_chunk_12() + spacing_mark_chunk_13() + spacing_mark_chunk_14() + spacing_mark_chunk_15()));
    push_spacing_mark_chunk_16(v);
    assert(rview(v@) =~= o + (spacing_mark_chunk_10() + spacing_mark_chunk_11() + spacing_mark_chunk_12() + spacing_mark_chunk_13() + spacing_mark_chunk_14() + spacing_mark_chunk_15() + spacing_mark_chunk_16()));
    push_spacing_mark_chunk_17(v);
    assert(rview(v@) =~= o + (spacing_mark_chunk_10() + spacing_mark_chunk_11() + spacing_mark_chunk_12() + spacing_mark_chunk_13() + spacing_mark_chunk_14() + spacing_mark_chunk_15() + spacing_mark_chunk_16() + spacing_mark_chunk_17()));
    push_spacing_mark_chunk_18(v);
    assert(rview(v@) =~= o + (spacing_mark_chunk_10() + spacing_mark_chunk_11() + spacing_mark_chunk_12() + spacing_mark_chunk_13() + spacing_mark_chunk_14() + spacing_mark_chunk_15() + spacing_mark_chunk_16() + spacing_mark_chunk_17() + spacing_mark_chunk_18()));
    push_spacing_mark_chunk_19(v);
    assert(rview(v@) =~= o + (spacing_mark_chunk_10() + spacing_mark_chunk_11() + spacing_mark_chunk_12() + spacing_mark_chunk_13() + spacing_mark_chunk_14() + spacing_mark_chunk_15() + spacing_mark_chunk_16() + spacing_mark_chunk_17() + spacing_mark_chunk_18() + spacing_mark_chunk_19()));
}

fn push_spacing_mark_block_2(v: &mut Vec<ClassUnicodeRange>)
    ensures
        rview(final(v)@) == rview(old(v)@) + spacing_mark_block_2(),
{
    let ghost o = rview(v@);
    push_spacing_mark_chunk_20(v);
    assert(rview(v@) =~= o + (spacing_mark_chunk_20()));
    push_spacing_mark_chunk_21(v);
    assert(rview(v@) =~= o + (spacing_mark_chunk_20() + spacing_mark_chunk_21()));
    push_spacing_mark_chunk_22(v);
    assert(rview(v@) =~= o + (spacing_mark_chunk_20() + spacing_mark_chunk_21() + spacing_mark_chunk_22()));
    push_spacing_mark_chunk_23(v);
    assert(rview(v@) =~= o + (spacing_mark_chunk_20() + spacing_mark_chunk_21() + spacing_mark_chunk_22() + spacing_mark_chunk_23()));
}

/// The ranges of the general category Spacing_Mark.
pub fn spacing_mark_class() -> (v: Vec<ClassUnicodeRange>)
    ensures
        rview(v@) == spacing_mark_ranges(),
{
    let mut v: Vec<ClassUnicodeRange> = Vec::new();
    assert(rview(v@) =~= Seq::<SRange>::empty());
    push_spacing_mark_block_0(&mut v);
    assert(rview(v@) =~= spacing_mark_block_0());
    push_spacing_mark_block_1(&mut v);
    assert(rview(v@) =~= spacing_mark_block_0() + spacing_mark_block_1());
    push_spacing_mark_block_2(&mut v);
    assert(rview(v@) =~= spacing_mark_block_0() + spacing_mark_block_1() + spacing_mark_block_2());
    v
}

pub open spec fn symbol_chunk_0() -> Seq<SRange> {
    seq![(0x24int, 0x24int), (0x2Bint, 0x2Bint), (0x3Cint, 0x3Eint), (0x5Eint, 0x5Eint), (0x60int, 0x60int), (0x7Cint, 0x7Cint), (0x7Eint, 0x7Eint), (0xA2int, 0xA6int)]
}

pub open spec fn symbol_chunk_1() -> Seq<SRange> {
    seq![(0xA8int, 0xA9int), (0xACint, 0xACint), (0xAEint, 0xB1int), (0xB4int, 0xB4int), (0xB8int, 0xB8int), (0xD7int, 0xD7int), (0xF7int, 0xF7int), (0x2C2int, 0x2C5int)]
}

pub open spec fn symbol_chunk_2() -> Seq<SRange> {
    seq![(0x2D2int, 0x2DFint), (0x2E5int, 0x2EBint), (0x2EDint, 0x2EDint), (0x2EFint, 0x2FFint), (0x375int, 0x375int), (0x384int, 0x385int), (0x3F6int, 0x3F6int), (0x482int, 0x482int)]
}

pub open spec fn symbol_chunk_3() -> Seq<SRange> {
    seq![(0x58Dint, 0x58Fint), (0x606int, 0x608int), (0x60Bint, 0x60Bint), (0x60Eint, 0x60Fint), (0x6DEint, 0x6DEint), (0x6E9int, 0x6E9int), (0x6FDint, 0x6FEint), (0x7F6int, 0x7F6int)]
}

pub open spec fn symbol_chunk_4() -> Seq<SRange> {
    seq![(0x7FEint, 0x7FFint), (0x888int, 0x888int), (0x9F2int, 0x9F3int), (0x9FAint, 0x9FBint), (0xAF1int, 0xAF1int), (0xB70int, 0xB70int), (0xBF3int, 0xBFAint), (0xC7Fint, 0xC7Fint)]
}

pub open spec fn symbol_chunk_5() -> Seq<SRange> {
    seq![(0xD4Fint, 0xD4Fint), (0xD79int, 0xD79int), (0xE3Fint, 0xE3Fint), (0xF01int, 0xF03int), (0xF13int, 0xF13int), (0xF15int, 0xF17int), (0xF1Aint, 0xF1Fint), (0xF34int, 0xF34int)]
}

pub open spec fn symbol_chunk_6() -> Seq<SRange> {
    seq![(0xF36int, 0xF36int), (0xF38int, 0xF38int), (0xFBEint, 0xFC5int), (0xFC7int, 0xFCCint), (0xFCEint, 0xFCFint), (0xFD5int, 0xFD8int), (0x109Eint, 0x109Fint), (0x1390int, 0x1399int)]
}

pub open spec fn symbol_chunk_7() -> Seq<SRange> {
    seq![(0x166Dint, 0x166Dint), (0x17DBint, 0x17DBint), (0x1940int, 0x1940int), (0x19DEint, 0x19FFint), (0x1B61int, 0x1B6Aint), (0x1B74int, 0x1B7Cint), (0x1FBDint, 0x1FBDint), (0x1FBFint, 0x1FC1int)]
}

pub open spec fn symbol_chunk_8() -> Seq<SRange> {
    seq![(0x1FCDint, 0x1FCFint), (0x1FDDint, 0x1FDFint), (0x1FEDint, 0x1FEFint), (0x1FFDint, 0x1FFEint), (0x2044int, 0x2044int), (0x2052int, 0x2052int), (0x207Aint, 0x207Cint), (0x208Aint, 0x208Cint)]
}

pub open spec fn symbol_chunk_9() -> Seq<SRange> {
    seq![(0x20A0int, 0x20C0int), (0x2100int, 0x2101int), (0x2103int, 0x2106int), (0x2108int, 0x2109int), (0x2114int, 0x2114int), (0x2116int, 0x2118int), (0x211Eint, 0x2123int), (0x2125int, 0x2125int)]
}

pub open spec fn symbol_chunk_10() -> Seq<SRange> {
    seq![(0x2127int, 0x2127int), (0x2129int, 0x2129int), (0x212Eint, 0x212Eint), (0x213Aint, 0x213Bint), (0x2140int, 0x2144int), (0x214Aint, 0x214Dint), (0x214Fint, 0x214Fint), (0x218Aint, 0x218Bint)]
}

pub open spec fn symbol_chunk_11() -> Seq<SRange> {
    seq![(0x2190int, 0x2307int), (0x230Cint, 0x2328int), (0x232Bint, 0x2429int), (0x2440int, 0x244Aint), (0x249Cint, 0x24E9int), (0x2500int, 0x2767int), (0x2794int, 0x27C4int), (0x27C7int, 0x27E5int)]
}

pub open spec fn symbol_chunk_12() -> Seq<SRange> {
    seq![(0x27F0int, 0x2982int), (0x2999int, 0x29D7int), (0x29DCint, 0x29FBint), (0x29FEint, 0x2B73int), (0x2B76int, 0x2B95int), (0x2B97int, 0x2BFFint), (0x2CE5int, 0x2CEAint), (0x2E50int, 0x2E51int)]
}

pub open spec fn symbol_chunk_13() -> Seq<SRange> {
    seq![(0x2E80int, 0x2E99int), (0x2E9Bint, 0x2EF3int), (0x2F00int, 0x2FD5int), (0x2FF0int, 0x2FFFint), (0x3004int, 0x3004int), (0x3012int, 0x3013int), (0x3020int, 0x3020int), (0x3036int, 0x3037int)]
}

pub open spec fn symbol_chunk_14() -> Seq<SRange> {
    seq![(0x303Eint, 0x303Fint), (0x309Bint, 0x309Cint), (0x3190int, 0x3191int), (0x3196int, 0x319Fint), (0x31C0int, 0x31E5int), (0x31EFint, 0x31EFint), (0x3200int, 0x321Eint), (0x322Aint, 0x3247int)]
}

pub open spec fn symbol_chunk_15() -> Seq<SRange> {
    seq![(0x3250int, 0x3250int), (0x3260int, 0x327Fint), (0x328Aint, 0x32B0int), (0x32C0int, 0x33FFint), (0x4DC0int, 0x4DFFint), (0xA490int, 0xA4C6int), (0xA700int, 0xA716int), (0xA720int, 0xA721int)]
}

pub open spec fn symbol_chunk_16() -> Seq<SRange> {
    seq![(0xA789int, 0xA78Aint), (0xA828int, 0xA82Bint), (0xA836int, 0xA839int), (0xAA77int, 0xAA79int), (0xAB5Bint, 0xAB5Bint), (0xAB6Aint, 0xAB6Bint), (0xFB29int, 0xFB29int), (0xFBB2int, 0xFBC2int)]
}

pub open spec fn symbol_chunk_17() -> Seq<SRange> {
    seq![(0xFD40int, 0xFD4Fint), (0xFDCFint, 0xFDCFint), (0xFDFCint, 0xFDFFint), (0xFE62int, 0xFE62int), (0xFE64int, 0xFE66int), (0xFE69int, 0xFE69int), (0xFF04int, 0xFF04int), (0xFF0Bint, 0xFF0Bint)]
}

pub open spec fn symbol_chunk_18() -> Seq<SRange> {
    seq![(0xFF1Cint, 0xFF1Eint), (0xFF3Eint, 0xFF3Eint), (0xFF40int, 0xFF40int), (0xFF5Cint, 0xFF5Cint), (0xFF5Eint, 0xFF5Eint), (0xFFE0int, 0xFFE6int), (0xFFE8int, 0xFFEEint), (0xFFFCint, 0xFFFDint)]
}

pub open spec fn symbol_chunk_19() -> Seq<SRange> {
    seq![(0x10137int, 0x1013Fint), (0x10179int, 0x10189int), (0x1018Cint, 0x1018Eint), (0x10190int, 0x1019Cint), (0x101A0int, 0x101A0int), (0x101D0int, 0x101FCint), (0x10877int, 0x10878int), (0x10AC8int, 0x10AC8int)]
}

pub open spec fn symbol_chunk_20() -> Seq<SRange> {
    seq![(0x10D8Eint, 0x10D8Fint), (0x1173Fint, 0x1173Fint), (0x11FD5int, 0x11FF1int), (0x16B3Cint, 0x16B3Fint), (0x16B45int, 0x16B45int), (0x1BC9Cint, 0x1BC9Cint), (0x1CC00int, 0x1CCEFint), (0x1CD00int, 0x1CEB3int)]
}

pub open spec fn symbol_chunk_21() -> Seq<SRange> {
    seq![(0x1CF50int, 0x1CFC3int), (0x1D000int, 0x1D0F5int), (0x1D100int, 0x1D126int), (0x1D129int, 0x1D164int), (0x1D16Aint, 0x1D16Cint), (0x1D183int, 0x1D184int), (0x1D18Cint, 0x1D1A9int), (0x1D1AEint, 0x1D1EAint)]
}

pub open spec fn symbol_chunk_22() -> Seq<SRange> {
    seq![(0x1D200int, 0x1D241int), (0x1D245int, 0x1D245int), (0x1D300int, 0x1D356int), (0x1D6C1int, 0x1D6C1int), (0x1D6DBint, 0x1D6DBint), (0x1D6FBint, 0x1D6FBint), (0x1D715int, 0x1D715int), (0x1D735int, 0x1D735int)]
}

pub open spec fn symbol_chunk_23() -> Seq<SRange> {
    seq![(0x1D74Fint, 0x1D74Fint), (0x1D76Fint, 0x1D76Fint), (0x1D789int, 0x1D789int), (0x1D7A9int, 0x1D7A9int), (0x1D7C3int, 0x1D7C3int), (0x1D800int, 0x1D9FFint), (0x1DA37int, 0x1DA3Aint), (0x1DA6Dint, 0x1DA74int)]
}

pub open spec fn symbol_chunk_24() -> Seq<SRange> {
    seq![(0x1DA76int, 0x1DA83int), (0x1DA85int, 0x1DA86int), (0x1E14Fint, 0x1E14Fint), (0x1E2FFint, 0x1E2FFint), (0x1ECACint, 0x1ECACint), (0x1ECB0int, 0x1ECB0int), (0x1ED2Eint, 0x1ED2Eint), (0x1EEF0int, 0x1EEF1int)]
}

pub open spec fn symbol_chunk_25() -> Seq<SRange> {
    seq![(0x1F000int, 0x1F02Bint), (0x1F030int, 0x1F093int), (0x1F0A0int, 0x1F0AEint), (0x1F0B1int, 0x1F0BFint), (0x1F0C1int, 0x1F0CFint), (0x1F0D1int, 0x1F0F5int), (0x1F10Dint, 0x1F1ADint), (0x1F1E6int, 0x1F202int)]
}

pub open spec fn symbol_chunk_26() -> Seq<SRange> {
    seq![(0x1F210int, 0x1F23Bint), (0x1F240int, 0x1F248int), (0x1F250int, 0x1F251int), (0x1F260int, 0x1F265int), (0x1F300int, 0x1F6D7int), (0x1F6DCint, 0x1F6ECint), (0x1F6F0int, 0x1F6FCint), (0x1F700int, 0x1F776int)]
}

pub open spec fn symbol_chunk_27() -> Seq<SRange> {
    seq![(0x1F77Bint, 0x1F7D9int), (0x1F7E0int, 0x1F7EBint), (0x1F7F0int, 0x1F7F0int), (0x1F800int, 0x1F80Bint), (0x1F810int, 0x1F847int), (0x1F850int, 0x1F859int), (0x1F860int, 0x1F887int), (0x1F890int, 0x1F8ADint)]
}

pub open spec fn symbol_chunk_28() -> Seq<SRange> {
    seq![(0x1F8B0int, 0x1F8BBint), (0x1F8C0int, 0x1F8C1int), (0x1F900int, 0x1FA53int), (0x1FA60int, 0x1FA6Dint), (0x1FA70int, 0x1FA7Cint), (0x1FA80int, 0x1FA89int), (0x1FA8Fint, 0x1FAC6int), (0x1FACEint, 0x1FADCint)]
}

pub open spec fn symbol_chunk_29() -> Seq<SRange> {
    seq![(0x1FADFint, 0x1FAE9int), (0x1FAF0int, 0x1FAF8int), (0x1FB00int, 0x1FB92int), (0x1FB94int, 0x1FBEFint)]
}

pub open spec fn symbol_block_0() -> Seq<SRange> {
    symbol_chunk_0() + symbol_chunk_1() + symbol_chunk_2() + symbol_chunk_3() + symbol_chunk_4() + symbol_chunk_5() + symbol_chunk_6() + symbol_chunk_7() + symbol_chunk_8() + symbol_chunk_9()
}

pub open spec fn symbol_block_1() -> Seq<SRange> {
    symbol_chunk_10() + symbol_chunk_11() + symbol_chunk_12() + symbol_chunk_13() + symbol_chunk_14() + symbol_chunk_15() + symbol_chunk_16() + symbol_chunk_17() + symbol_chunk_18() + symbol_chunk_19()
}

pub open spec fn symbol_block_2() -> Seq<SRange> {
    symbol_chunk_20() + symbol_chunk_21() + symbol_chunk_22() + symbol_chunk_23() + symbol_chunk_24() + symbol_chunk_25() + symbol_chunk_26() + symbol_chunk_27() + symbol_chunk_28() + symbol_chunk_29()
}

/// The ranges of the general category Symbol.
pub open spec fn symbol_ranges() -> Seq<SRange> {
    symbol_block_0() + symbol_block_1() + symbol_block_2()
}

proof fn lemma_symbol_block_0()
    ensures
        canonical(symbol_block_0()),
        symbol_block_0().len() > 0,
        symbol_block_0()[0] == symbol_chunk_0()[0],
        symbol_block_0().last() == symbol_chunk_9().last(),
{
    reveal_with_fuel(canonical, 9);
    assert(canonical(symbol_chunk_0()));
    assert(canonical(symbol_chunk_1()));
    assert(canonical(symbol_chunk_2()));
    assert(canonical(symbol_chunk_3()));
    assert(canonical(symbol_chunk_4()));
    assert(canonical(symbol_chunk_5()));
    assert(canonical(symbol_chunk_6()));
    assert(canonical(symbol_chunk_7()));
    assert(canonical(symbol_chunk_8()));
    assert(canonical(symbol_chunk_9()));
    lemma_canonical_append(symbol_chunk_0(), symbol_chunk_1());
    lemma_canonical_append(symbol_chunk_0() + symbol_chunk_1(), symbol_chunk_2());
    lemma_canonical_append(symbol_chunk_0() + symbol_chunk_1() + symbol_chunk_2(), symbol_chunk_3());
    lemma_canonical_append(symbol_chunk_0() + symbol_chunk_1() + symbol_chunk_2() + symbol_chunk_3(), symbol_chunk_4());
    lemma_canonical_append(symbol_chunk_0() + symbol_chunk_1() + symbol_chunk_2() + symbol_chunk_3() + symbol_chunk_4(), symbol_chunk_5());
    lemma_canonical_append(symbol_chunk_0() + symbol_chunk_1() + symbol_chunk_2() + symbol_chunk_3() + symbol_chunk_4() + symbol_chunk_5(), symbol_chunk_6());
    lemma_canonical_append(symbol_chunk_0() + symbol_chunk_1() + symbol_chunk_2() + symbol_chunk_3() + symbol_chunk_4() + symbol_chunk_5() + symbol_chunk_6(), symbol_chunk_7());
    lemma_canonical_append(symbol_chunk_0() + symbol_chunk_1() + symbol_chunk_2() + symbol_chunk_3() + symbol_chunk_4() + symbol_chunk_5() + symbol_chunk_6() + symbol_chunk_7(), symbol_chunk_8());
    lemma_canonical_append(symbol_chunk_0() + symbol_chunk_1() + symbol_chunk_2() + symbol_chunk_3() + symbol_chunk_4() + symbol_chunk_5() + symbol_chunk_6() + symbol_chunk_7() + symbol_chunk_8(), symbol_chunk_9());
}

proof fn lemma_symbol_block_1()
    ensures
        canonical(symbol_block_1()),
        symbol_block_1().len() > 0,
        symbol_block_1()[0] == symbol_chunk_10()[0],
        symbol_block_1().last() == symbol_chunk_19().last(),
{
    reveal_with_fuel(canonical, 9);
    assert(canonical(symbol_chunk_10()));
    assert(canonical(symbol_chunk_11()));
    assert(canonical(symbol_chunk_12()));
    assert(canonical(symbol_chunk_13()));
    assert(canonical(symbol_chunk_14()));
    assert(canonical(symbol_chunk_15()));
    assert(canonical(symbol_chunk_16()));
    assert(canonical(symbol_chunk_17()));
    assert(canonical(symbol_chunk_18()));
    assert(canonical(symbol_chunk_19()));
    lemma_canonical_append(symbol_chunk_10(), symbol_chunk_11());
    lemma_canonical_append(symbol_chunk_10() + symbol_chunk_11(), symbol_chunk_12());
    lemma_canonical_append(symbol_chunk_10() + symbol_chunk_11() + symbol_chunk_12(), symbol_chunk_13());
    lemma_canonical_append(symbol_chunk_10() + symbol_chunk_11() + symbol_chunk_12() + symbol_chunk_13(), symbol_chunk_14());
    lemma_canonical_append(symbol_chunk_10() + symbol_chunk_11() + symbol_chunk_12() + symbol_chunk_13() + symbol_chunk_14(), symbol_chunk_15());
    lemma_canonical_append(symbol_chunk_10() + symbol_chunk_11() + symbol_chunk_12() + symbol_chunk_13() + symbol_chunk_14() + symbol_chunk_15(), symbol_chunk_16());
    lemma_canonical_append(symbol_chunk_10() + symbol_chunk_11() + symbol_chunk_12() + symbol_chunk_13() + symbol_chunk_14() + symbol_chunk_15() + symbol_chunk_16(), symbol_chunk_17());
    lemma_canonical_append(symbol_chunk_10() + symbol_chunk_11() + symbol_chunk_12() + symbol_chunk_13() + symbol_chunk_14() + symbol_chunk_15() + symbol_chunk_16() + symbol_chunk_17(), symbol_chunk_18());
    lemma_canonical_append(symbol_chunk_10() + symbol_chunk_11() + symbol_chunk_12() + symbol_chunk_13() + symbol_chunk_14() + symbol_chunk_15() + symbol_chunk_16() + symbol_chunk_17() + symbol_chunk_18(), symbol_chunk_19());
}

proof fn lemma_symbol_block_2()
    ensures
        canonical(symbol_block_2()),
        symbol_block_2().len() > 0,
        symbol_block_2()[0] == symbol_chunk_20()[0],
        symbol_block_2().last() == symbol_chunk_29().last(),
{
    reveal_with_fuel(canonical, 9);
    assert(canonical(symbol_chunk_20()));
    assert(canonical(symbol_chunk_21()));
    assert(canonical(symbol_chunk_22()));
    assert(canonical(symbol_chunk_23()));
    assert(canonical(symbol_chunk_24()));
    assert(canonical(symbol_chunk_25()));
    assert(canonical(symbol_chunk_26()));
    assert(canonical(symbol_chunk_27()));
    assert(canonical(symbol_chunk_28()));
    assert(canonical(symbol_chunk_29()));
    lemma_canonical_append(symbol_chunk_20(), symbol_chunk_21());
    lemma_canonical_append(symbol_chunk_20() + symbol_chunk_21(), symbol_chunk_22());
    lemma_canonical_append(symbol_chunk_20() + symbol_chunk_21() + symbol_chunk_22(), symbol_chunk_23());
    lemma_canonical_append(symbol_chunk_20() + symbol_chunk_21() + symbol_chunk_22() + symbol_chunk_23(), symbol_chunk_24());
    lemma_canonical_append(symbol_chunk_20() + symbol_chunk_21() + symbol_chunk_22() + symbol_chunk_23() + symbol_chunk_24(), symbol_chunk_25());
    lemma_canonical_append(symbol_chunk_20() + symbol_chunk_21() + symbol_chunk_22() + symbol_chunk_23() + symbol_chunk_24() + symbol_chunk_25(), symbol_chunk_26());
    lemma_canonical_append(symbol_chunk_20() + symbol_chunk_21() + symbol_chunk_22() + symbol_chunk_23() + symbol_chunk_24() + symbol_chunk_25() + symbol_chunk_26(), symbol_chunk_27());
    lemma_canonical_append(symbol_chunk_20() + symbol_chunk_21() + symbol_chunk_22() + symbol_chunk_23() + symbol_chunk_24() + symbol_chunk_25() + symbol_chunk_26() + symbol_chunk_27(), symbol_chunk_28());
    lemma_canonical_append(symbol_chunk_20() + symbol_chunk_21() + symbol_chunk_22() + symbol_chunk_23() + symbol_chunk_24() + symbol_chunk_25() + symbol_chunk_26() + symbol_chunk_27() + symbol_chunk_28(), symbol_chunk_29());
}

/// The general category Symbol is a canonical class.
pub proof fn lemma_symbol_canonical()
    ensures
        canonical(symbol_ranges()),
{
    lemma_symbol_block_0();
    lemma_symbol_block_1();
    lemma_symbol_block_2();
    lemma_canonical_append(symbol_block_0(), symbol_block_1());
    lemma_canonical_append(symbol_block_0() + symbol_block_1(), symbol_block_2());
}

fn push_symbol_chunk_0(v: &mut Vec<ClassUnicodeRange>)
    ensures
        rview(final(v)@) == rview(old(v)@) + symbol_chunk_0(),
{
    let ghost o = rview(v@);
    push_range(v, '\u{24}', '\u{24}');
    push_range(v, '\u{2B}', '\u{2B}');
    push_range(v, '\u{3C}', '\u{3E}');
    push_range(v, '\u{5E}', '\u{5E}');
    push_range(v, '\u{60}', '\u{60}');
    push_range(v, '\u{7C}', '\u{7C}');
    push_range(v, '\u{7E}', '\u{7E}');
    push_range(v, '\u{A2}', '\u{A6}');
    assert(rview(v@) =~= o + symbol_chunk_0());
}

fn push_symbol_chunk_1(v: &mut Vec<ClassUnicodeRange>)
    ensures
        rview(final(v)@) == rview(old(v)@) + symbol_chunk_1(),
{
    let ghost o = rview(v@);
    push_range(v, '\u{A8}', '\u{A9}');
    push_range(v, '\u{AC}', '\u{AC}');
    push_range(v, '\u{AE}', '\u{B1}');
    push_range(v, '\u{B4}', '\u{B4}');
    push_range(v, '\u{B8}', '\u{B8}');
    push_range(v, '\u{D7}', '\u{D7}');
    push_range(v, '\u{F7}', '\u{F7}');
    push_range(v, '\u{2C2}', '\u{2C5}');
    assert(rview(v@) =~= o + symbol_chunk_1());
}

fn push_symbol_chunk_2(v: &mut Vec<ClassUnicodeRange>)
    ensures
        rview(final(v)@) == rview(old(v)@) + symbol_chunk_2(),
{
    let ghost o = rview(v@);
    push_range(v, '\u{2D2}', '\u{2DF}');
    push_range(v, '\u{2E5}', '\u{2EB}');
    push_range(v, '\u{2ED}', '\u{2ED}');
    push_range(v, '\u{2EF}', '\u{2FF}');
    push_range(v, '\u{375}', '\u{375}');
    push_range(v, '\u{384}', '\u{385}');
    push_range(v, '\u{3F6}', '\u{3F6}');
    push_range(v, '\u{482}', '\u{482}');
    assert(rview(v@) =~= o + symbol_chunk_2());
}

fn push_symbol_chunk_3(v: &mut Vec<ClassUnicodeRange>)
    ensures
        rview(final(v)@) == rview(old(v)@) + symbol_chunk_3(),
{
    let ghost o = rview(v@);
    push_range(v, '\u{58D}', '\u{58F}');
    push_range(v, '\u{606}', '\u{608}');
    push_range(v, '\u{60B}', '\u{60B}');
    push_range(v, '\u{60E}', '\u{60F}');
    push_range(v, '\u{6DE}', '\u{6DE}');
    push_range(v, '\u{6E9}', '\u{6E9}');
    push_range(v, '\u{6FD}', '\u{6FE}');
    push_range(v, '\u{7F6}', '\u{7F6}');
    assert(rview(v@) =~= o + symbol_chunk_3());
}

fn push_symbol_chunk_4(v: &mut Vec<ClassUnicodeRange>)
    ensures
        rview(final(v)@) == rview(old(v)@) + symbol_chunk_4(),
{
    let ghost o = rview(v@);
    push_range(v, '\u{7FE}', '\u{7FF}');
    push_range(v, '\u{888}', '\u{888}');
    push_range(v, '\u{9F2}', '\u{9F3}');
    push_range(v, '\u{9FA}', '\u{9FB}');
    push_range(v, '\u{AF1}', '\u{AF1}');
    push_range(v, '\u{B70}', '\u{B70}');
    push_range(v, '\u{BF3}', '\u{BFA}');
    push_range(v, '\u{C7F}', '\u{C7F}');
    assert(rview(v@) =~= o + symbol_chunk_4());
}

fn push_symbol_chunk_5(v: &mut Vec<ClassUnicodeRange>)
    ensures
        rview(final(v)@) == rview(old(v)@) + symbol_chunk_5(),
{
    let ghost o = rview(v@);
    push_range(v, '\u{D4F}', '\u{D4F}');
    push_range(v, '\u{D79}', '\u{D79}');
    push_range(v, '\u{E3F}', '\u{E3F}');
    push_range(v, '\u{F01}', '\u{F03}');
    push_range(v, '\u{F13}', '\u{F13}');
    push_range(v, '\u{F15}', '\u{F17}');
    push_range(v, '\u{F1A}', '\u{F1F}');
    push_range(v, '\u{F34}', '\u{F34}');
    assert(rview(v@) =~= o + symbol_chunk_5());
}

fn push_symbol_chunk_6(v: &mut Vec<ClassUnicodeRange>)
    ensures
        rview(final(v)@) == rview(old(v)@) + symbol_chunk_6(),
{
    let ghost o = rview(v@);
    push_range(v, '\u{F36}', '\u{F36}');
    push_range(v, '\u{F38}', '\u{F38}');
    push_range(v, '\u{FBE}', '\u{FC5}');
    push_range(v, '\u{FC7}', '\u{FCC}');
    push_range(v, '\u{FCE}', '\u{FCF}');
    push_range(v, '\u{FD5}', '\u{FD8}');
    push_range(v, '\u{109E}', '\u{109F}');
    push_range(v, '\u{1390}', '\u{1399}');
    assert(rview(v@) =~= o + symbol_chunk_6());
}

fn push_symbol_chunk_7(v: &mut Vec<ClassUnicodeRange>)
    ensures
        rview(final(v)@) == rview(old(v)@) + symbol_chunk_7(),
{
    let ghost o = rview(v@);
    push_range(v, '\u{166D}', '\u{166D}');
    push_range(v, '\u{17DB}', '\u{17DB}');
    push_range(v, '\u{1940}', '\u{1940}');
    push_range(v, '\u{19DE}', '\u{19FF}');
    push_range(v, '\u{1B61}', '\u{1B6A}');
    push_range(v, '\u{1B74}', '\u{1B7C}');
    push_range(v, '\u{1FBD}', '\u{1FBD}');
    push_range(v, '\u{1FBF}', '\u{1FC1}');
    assert(rview(v@) =~= o + symbol_chunk_7());
}

fn push_symbol_chunk_8(v: &mut Vec<ClassUnicodeRange>)
    ensures
        rview(final(v)@) == rview(old(v)@) + symbol_chunk_8(),
{
    let ghost o = rview(v@);
    push_range(v, '\u{1FCD}', '\u{1FCF}');
    push_range(v, '\u{1FDD}', '\u{1FDF}');
    push_range(v, '\u{1FED}', '\u{1FEF}');
    push_range(v, '\u{1FFD}', '\u{1FFE}');
    push_range(v, '\u{2044}', '\u{2044}');
    push_range(v, '\u{2052}', '\u{2052}');
    push_range(v, '\u{207A}', '\u{207C}');
    push_range(v, '\u{208A}', '\u{208C}');
    assert(rview(v@) =~= o + symbol_chunk_8());
}

fn push_symbol_chunk_9(v: &mut Vec<ClassUnicodeRange>)
    ensures
        rview(final(v)@) == rview(old(v)@) + symbol_chunk_9(),
{
    let ghost o = rview(v@);
    push_range(v, '\u{20A0}', '\u{20C0}');
    push_range(v, '\u{2100}', '\u{2101}');
    push_range(v, '\u{2103}', '\u{2106}');
    push_range(v, '\u{2108}', '\u{2109}');
    push_range(v, '\u{2114}', '\u{2114}');
    push_range(v, '\u{2116}', '\u{2118}');
    push_range(v, '\u{211E}', '\u{2123}');
    push_range(v, '\u{2125}', '\u{2125}');
    assert(rview(v@) =~= o + symbol_chunk_9());
}

fn push_symbol_chunk_10(v: &mut Vec<ClassUnicodeRange>)
    ensures
        rview(final(v)@) == rview(old(v)@) + symbol_chunk_10(),
{
    let ghost o = rview(v@);
    push_range(v, '\u{2127}', '\u{2127}');
    push_range(v, '\u{2129}', '\u{2129}');
    push_range(v, '\u{212E}', '\u{212E}');
    push_range(v, '\u{213A}', '\u{213B}');
    push_range(v, '\u{2140}', '\u{2144}');
    push_range(v, '\u{214A}', '\u{214D}');
    push_range(v, '\u{214F}', '\u{214F}');
    push_range(v, '\u{218A}', '\u{218B}');
    assert(rview(v@) =~= o + symbol_chunk_10());
}

fn push_symbol_chunk_11(v: &mut Vec<ClassUnicodeRange>)
    ensures
        rview(final(v)@) == rview(old(v)@) + symbol_chunk_11(),
{
    let ghost o = rview(v@);
    push_range(v, '\u{2190}', '\u{2307}');
    push_range(v, '\u{230C}', '\u{2328}');
    push_range(v, '\u{232B}', '\u{2429}');
    push_range(v, '\u{2440}', '\u{244A}');
    push_range(v, '\u{249C}', '\u{24E9}');
    push_range(v, '\u{2500}', '\u{2767}');
    push_range(v, '\u{2794}', '\u{27C4}');
    push_range(v, '\u{27C7}', '\u{27E5}');
    assert(rview(v@) =~= o + symbol_chunk_11());
}

fn push_symbol_chunk_12(v: &mut Vec<ClassUnicodeRange>)
    ensures
        rview(final(v)@) == rview(old(v)@) + symbol_chunk_12(),
{
    let ghost o = rview(v@);
    push_range(v, '\u{27F0}', '\u{2982}');
    push_range(v, '\u{2999}', '\u{29D7}');
    push_range(v, '\u{29DC}', '\u{29FB}');
    push_range(v, '\u{29FE}', '\u{2B73}');
    push_range(v, '\u{2B76}', '\u{2B95}');
    push_range(v, '\u{2B97}', '\u{2BFF}');
    push_range(v, '\u{2CE5}', '\u{2CEA}');
    push_range(v, '\u{2E50}', '\u{2E51}');
    assert(rview(v@) =~= o + symbol_chunk_12());
}

fn push_symbol_chunk_13(v: &mut Vec<ClassUnicodeRange>)
    ensures
        rview(final(v)@) == rview(old(v)@) + symbol_chunk_13(),
{
    let ghost o = rview(v@);
    push_range(v, '\u{2E80}', '\u{2E99}');
    push_range(v, '\u{2E9B}', '\u{2EF3}');
    push_range(v, '\u{2F00}', '\u{2FD5}');
    push_range(v, '\u{2FF0}', '\u{2FFF}');
    push_range(v, '\u{3004}', '\u{3004}');
    push_range(v, '\u{3012}', '\u{3013}');
    push_range(v, '\u{3020}', '\u{3020}');
    push_range(v, '\u{3036}', '\u{3037}');
    assert(rview(v@) =~= o + symbol_chunk_13());
}

fn push_symbol_chunk_14(v: &mut Vec<ClassUnicodeRange>)
    ensures
        rview(final(v)@) == rview(old(v)@) + symbol_chunk_14(),
{
    let ghost o = rview(v@);
    push_range(v, '\u{303E}', '\u{303F}');
    push_range(v, '\u{309B}', '\u{309C}');
    push_range(v, '\u{3190}', '\u{3191}');
    push_range(v, '\u{3196}', '\u{319F}');
    push_range(v, '\u{31C0}', '\u{31E5}');
    push_range(v, '\u{31EF}', '\u{31EF}');
    push_range(v, '\u{3200}', '\u{321E}');
    push_range(v, '\u{322A}', '\u{3247}');
    assert(rview(v@) =~= o + symbol_chunk_14());
}

fn push_symbol_chunk_15(v: &mut Vec<ClassUnicodeRange>)
    ensures
        rview(final(v)@) == rview(old(v)@) + symbol_chunk_15(),
{
    let ghost o = rview(v@);
    push_range(v, '\u{3250}', '\u{3250}');
    push_range(v, '\u{3260}', '\u{327F}');
    push_range(v, '\u{328A}', '\u{32B0}');
    push_range(v, '\u{32C0}', '\u{33FF}');
    push_range(v, '\u{4DC0}', '\u{4DFF}');
    push_range(v, '\u{A490}', '\u{A4C6}');
    push_range(v, '\u{A700}', '\u{A716}');
    push_range(v, '\u{A720}', '\u{A721}');
    assert(rview(v@) =~= o + symbol_chunk_15());
}

fn push_symbol_chunk_16(v: &mut Vec<ClassUnicodeRange>)
    ensures
        rview(final(v)@) == rview(old(v)@) + symbol_chunk_16(),
{
    let ghost o = rview(v@);
    push_range(v, '\u{A789}', '\u{A78A}');
    push_range(v, '\u{A828}', '\u{A82B}');
    push_range(v, '\u{A836}', '\u{A839}');
    push_range(v, '\u{AA77}', '\u{AA79}');
    push_range(v, '\u{AB5B}', '\u{AB5B}');
    push_range(v, '\u{AB6A}', '\u{AB6B}');
    push_range(v, '\u{FB29}', '\u{FB29}');
    push_range(v, '\u{FBB2}', '\u{FBC2}');
    assert(rview(v@) =~= o + symbol_chunk_16());
}

fn push_symbol_chunk_17(v: &mut Vec<ClassUnicodeRange>)
    ensures
        rview(final(v)@) == rview(old(v)@) + symbol_chunk_17(),
{
    let ghost o = rview(v@);
    push_range(v, '\u{FD40}', '\u{FD4F}');
    push_range(v, '\u{FDCF}', '\u{FDCF}');
    push_range(v, '\u{FDFC}', '\u{FDFF}');
    push_range(v, '\u{FE62}', '\u{FE62}');
    push_range(v, '\u{FE64}', '\u{FE66}');
    push_range(v, '\u{FE69}', '\u{FE69}');
    push_range(v, '\u{FF04}', '\u{FF04}');
    push_range(v, '\u{FF0B}', '\u{FF0B}');
    assert(rview(v@) =~= o + symbol_chunk_17());
}

fn push_symbol_chunk_18(v: &mut Vec<ClassUnicodeRange>)
    ensures
        rview(final(v)@) == rview(old(v)@) + symbol_chunk_18(),
{
    let ghost o = rview(v@);
    push_range(v, '\u{FF1C}', '\u{FF1E}');
    push_range(v, '\u{FF3E}', '\u{FF3E}');
    push_range(v, '\u{FF40}', '\u{FF40}');
    push_range(v, '\u{FF5C}', '\u{FF5C}');
    push_range(v, '\u{FF5E}', '\u{FF5E}');
    push_range(v, '\u{FFE0}', '\u{FFE6}');
    push_range(v, '\u{FFE8}', '\u{FFEE}');
    push_range(v, '\u{FFFC}', '\u{FFFD}');
    assert(rview(v@) =~= o + symbol_chunk_18());
}

fn push_symbol_chunk_19(v: &mut Vec<ClassUnicodeRange>)
    ensures
        rview(final(v)@) == rview(old(v)@) + symbol_chunk_19(),
{
    let ghost o = rview(v@);
    push_range(v, '\u{10137}', '\u{1013F}');
    push_range(v, '\u{10179}', '\u{10189}');
    push_range(v, '\u{1018C}', '\u{1018E}');
    push_range(v, '\u{10190}', '\u{1019C}');
    push_range(v, '\u{101A0}', '\u{101A0}');
    push_range(v, '\u{101D0}', '\u{101FC}');
    push_range(v, '\u{10877}', '\u{10878}');
    push_range(v, '\u{10AC8}', '\u{10AC8}');
    assert(rview(v@) =~= o + symbol_chunk_19());
}

fn push_symbol_chunk_20(v: &mut Vec<ClassUnicodeRange>)
    ensures
        rview(final(v)@) == rview(old(v)@) + symbol_chunk_20(),
{
    let ghost o = rview(v@);
    push_range(v, '\u{10D8E}', '\u{10D8F}');
    push_range(v, '\u{1173F}', '\u{1173F}');
    push_range(v, '\u{11FD5}', '\u{11FF1}');
    push_range(v, '\u{16B3C}', '\u{16B3F}');
    push_range(v, '\u{16B45}', '\u{16B45}');
    push_range(v, '\u{1BC9C}', '\u{1BC9C}');
    push_range(v, '\u{1CC00}', '\u{1CCEF}');
    push_range(v, '\u{1CD00}', '\u{1CEB3}');
    assert(rview(v@) =~= o + symbol_chunk_20());
}

fn push_symbol_chunk_21(v: &mut Vec<ClassUnicodeRange>)
    ensures
        rview(final(v)@) == rview(old(v)@) + symbol_chunk_21(),
{
    let ghost o = rview(v@);
    push_range(v, '\u{1CF50}', '\u{1CFC3}');
    push_range(v, '\u{1D000}', '\u{1D0F5}');
    push_range(v, '\u{1D100}', '\u{1D126}');
    push_range(v, '\u{1D129}', '\u{1D164}');
    push_range(v, '\u{1D16A}', '\u{1D16C}');
    push_range(v, '\u{1D183}', '\u{1D184}');
    push_range(v, '\u{1D18C}', '\u{1D1A9}');
    push_range(v, '\u{1D1AE}', '\u{1D1EA}');
    assert(rview(v@) =~= o + symbol_chunk_21());
}

fn push_symbol_chunk_22(v: &mut Vec<ClassUnicodeRange>)
    ensures
        rview(final(v)@) == rview(old(v)@) + symbol_chunk_22(),
{
    let ghost o = rview(v@);
    push_range(v, '\u{1D200}', '\u{1D241}');
    push_range(v, '\u{1D245}', '\u{1D245}');
    push_range(v, '\u{1D300}', '\u{1D356}');
    push_range(v, '\u{1D6C1}', '\u{1D6C1}');
    push_range(v, '\u{1D6DB}', '\u{1D6DB}');
    push_range(v, '\u{1D6FB}', '\u{1D6FB}');
    push_range(v, '\u{1D715}', '\u{1D715}');
    push_range(v, '\u{1D735}', '\u{1D735}');
    assert(rview(v@) =~= o + symbol_chunk_22());
}

fn push_symbol_chunk_23(v: &mut Vec<ClassUnicodeRange>)
    ensures
        rview(final(v)@) == rview(old(v)@) + symbol_chunk_23(),
{
    let ghost o = rview(v@);
    push_range(v, '\u{1D74F}', '\u{1D74F}');
    push_range(v, '\u{1D76F}', '\u{1D76F}');
    push_range(v, '\u{1D789}', '\u{1D789}');
    push_range(v, '\u{1D7A9}', '\u{1D7A9}');
    push_range(v, '\u{1D7C3}', '\u{1D7C3}');
    push_range(v, '\u{1D800}', '\u{1D9FF}');
    push_range(v, '\u{1DA37}', '\u{1DA3A}');
    push_range(v, '\u{1DA6D}', '\u{1DA74}');
    assert(rview(v@) =~= o + symbol_chunk_23());
}

fn push_symbol_chunk_24(v: &mut Vec<ClassUnicodeRange>)
    ensures
        rview(final(v)@) == rview(old(v)@) + symbol_chunk_24(),
{
    let ghost o = rview(v@);
    push_range(v, '\u{1DA76}', '\u{1DA83}');
    push_range(v, '\u{1DA85}', '\u{1DA86}');
    push_range(v, '\u{1E14F}', '\u{1E14F}');
    push_range(v, '\u{1E2FF}', '\u{1E2FF}');
    push_range(v, '\u{1ECAC}', '\u{1ECAC}');
    push_range(v, '\u{1ECB0}', '\u{1ECB0}');
    push_range(v, '\u{1ED2E}', '\u{1ED2E}');
    push_range(v, '\u{1EEF0}', '\u{1EEF1}');
    assert(rview(v@) =~= o + symbol_chunk_24());
}

fn push_symbol_chunk_25(v: &mut Vec<ClassUnicodeRange>)
    ensures
        rview(final(v)@) == rview(old(v)@) + symbol_chunk_25(),
{
    let ghost o = rview(v@);
    push_range(v, '\u{1F000}', '\u{1F02B}');
    push_range(v, '\u{1F030}', '\u{1F093}');
    push_range(v, '\u{1F0A0}', '\u{1F0AE}');
    push_range(v, '\u{1F0B1}', '\u{1F0BF}');
    push_range(v, '\u{1F0C1}', '\u{1F0CF}');
    push_range(v, '\u{1F0D1}', '\u{1F0F5}');
    push_range(v, '\u{1F10D}', '\u{1F1AD}');
    push_range(v, '\u{1F1E6}', '\u{1F202}');
    assert(rview(v@) =~= o + symbol_chunk_25());
}

fn push_symbol_chunk_26(v: &mut Vec<ClassUnicodeRange>)
    ensures
        rview(final(v)@) == rview(old(v)@) + symbol_chunk_26(),
{
    let ghost o = rview(v@);
    push_range(v, '\u{1F210}', '\u{1F23B}');
    push_range(v, '\u{1F240}', '\u{1F248}');
    push_range(v, '\u{1F250}', '\u{1F251}');
    push_range(v, '\u{1F260}', '\u{1F265}');
    push_range(v, '\u{1F300}', '\u{1F6D7}');
    push_range(v, '\u{1F6DC}', '\u{1F6EC}');
    push_range(v, '\u{1F6F0}', '\u{1F6FC}');
    push_range(v, '\u{1F700}', '\u{1F776}');
    assert(rview(v@) =~= o + symbol_chunk_26());
}

fn push_symbol_chunk_27(v: &mut Vec<ClassUnicodeRange>)
    ensures
        rview(final(v)@) == rview(old(v)@) + symbol_chunk_27(),
{
    let ghost o = rview(v@);
    push_range(v, '\u{1F77B}', '\u{1F7D9}');
    push_range(v, '\u{1F7E0}', '\u{1F7EB}');
    push_range(v, '\u{1F7F0}', '\u{1F7F0}');
    push_range(v, '\u{1F800}', '\u{1F80B}');
    push_range(v, '\u{1F810}', '\u{1F847}');
    push_range(v, '\u{1F850}', '\u{1F859}');
    push_range(v, '\u{1F860}', '\u{1F887}');
    push_range(v, '\u{1F890}', '\u{1F8AD}');
    assert(rview(v@) =~= o + symbol_chunk_27());
}

fn push_symbol_chunk_28(v: &mut Vec<ClassUnicodeRange>)
    ensures
        rview(final(v)@) == rview(old(v)@) + symbol_chunk_28(),
{
    let ghost o = rview(v@);
    push_range(v, '\u{1F8B0}', '\u{1F8BB}');
    push_range(v, '\u{1F8C0}', '\u{1F8C1}');
    push_range(v, '\u{1F900}', '\u{1FA53}');
    push_range(v, '\u{1FA60}', '\u{1FA6D}');
    push_range(v, '\u{1FA70}', '\u{1FA7C}');
    push_range(v, '\u{1FA80}', '\u{1FA89}');
    push_range(v, '\u{1FA8F}', '\u{1FAC6}');
    push_range(v, '\u{1FACE}', '\u{1FADC}');
    assert(rview(v@) =~= o + symbol_chunk_28());
}

fn push_symbol_chunk_29(v: &mut Vec<ClassUnicodeRange>)
    ensures
        rview(final(v)@) == rview(old(v)@) + symbol_chunk_29(),
{
    let ghost o = rview(v@);
    push_range(v, '\u{1FADF}', '\u{1FAE9}');
    push_range(v, '\u{1FAF0}', '\u{1FAF8}');
    push_range(v, '\u{1FB00}', '\u{1FB92}');
    push_range(v, '\u{1FB94}', '\u{1FBEF}');
    assert(rview(v@) =~= o + symbol_chunk_29());
}

fn push_symbol_block_0(v: &mut Vec<ClassUnicodeRange>)
    ensures
        rview(final(v)@) == rview(old(v)@) + symbol_block_0(),
{
    let ghost o = rview(v@);
    push_symbol_chunk_0(v);
    assert(rview(v@) =~= o + (symbol_chunk_0()));
    push_symbol_chunk_1(v);
    assert(rview(v@) =~= o + (symbol_chunk_0() + symbol_chunk_1()));
    push_symbol_chunk_2(v);
    assert(rview(v@) =~= o + (symbol_chunk_0() + symbol_chunk_1() + symbol_chunk_2()));
    push_symbol_chunk_3(v);
    assert(rview(v@) =~= o + (symbol_chunk_0() + symbol_chunk_1() + symbol_chunk_2() + symbol_chunk_3()));
    push_symbol_chunk_4(v);
    assert(rview(v@) =~= o + (symbol_chunk_0() + symbol_chunk_1() + symbol_chunk_2() + symbol_chunk_3() + symbol_chunk_4()));
    push_symbol_chunk_5(v);
    assert(rview(v@) =~= o + (symbol_chunk_0() + symbol_chunk_1() + symbol_chunk_2() + symbol_chunk_3() + symbol_chunk_4() + symbol_chunk_5()));
    push_symbol_chunk_6(v);
    assert(rview(v@) =~= o + (symbol_chunk_0() + symbol_chunk_1() + symbol_chunk_2() + symbol_chunk_3() + symbol_chunk_4() + symbol_chunk_5() + symbol_chunk_6()));
    push_symbol_chunk_7(v);
    assert(rview(v@) =~= o + (symbol_chunk_0() + symbol_chunk_1() + symbol_chunk_2() + symbol_chunk_3() + symbol_chunk_4() + symbol_chunk_5() + symbol_chunk_6() + symbol_chunk_7()));
    push_symbol_chunk_8(v);
    assert(rview(v@) =~= o + (symbol_chunk_0() + symbol_chunk_1() + symbol_chunk_2() + symbol_chunk_3() + symbol_chunk_4() + symbol_chunk_5() + symbol_chunk_6() + symbol_chunk_7() + symbol_chunk_8()));
    push_symbol_chunk_9(v);
    assert(rview(v@) =~= o + (symbol_chunk_0() + symbol_chunk_1() + symbol_chunk_2() + symbol_chunk_3() + symbol_chunk_4() + symbol_chunk_5() + symbol_chunk_6() + symbol_chunk_7() + symbol_chunk_8() + symbol_chunk_9()));
}

fn push_symbol_block_1(v: &mut Vec<ClassUnicodeRange>)
    ensures
        rview(final(v)@) == rview(old(v)@) + symbol_block_1(),
{
    let ghost o = rview(v@);
    push_symbol_chunk_10(v);
    assert(rview(v@) =~= o + (symbol_chunk_10()));
    push_symbol_chunk_11(v);
    assert(rview(v@) =~= o + (symbol_chunk_10() + symbol_chunk_11()));
    push_symbol_chunk_12(v);
    assert(rview(v@) =~= o + (symbol_chunk_10() + symbol_chunk_11() + symbol_chunk_12()));
    push_symbol_chunk_13(v);
    assert(rview(v@) =~= o + (symbol_chunk_10() + symbol_chunk_11() + symbol_chunk_12() + symbol_chunk_13()));
    push_symbol_chunk_14(v);
    assert(rview(v@) =~= o + (symbol_chunk_10() + symbol_chunk_11() + symbol_chunk_12() + symbol_chunk_13() + symbol_chunk_14()));
    push_symbol_chunk_15(v);
    assert(rview(v@) =~= o + (symbol_chunk_10() + symbol_chunk_11() + symbol_chunk_12() + symbol_chunk_13() + symbol_chunk_14() + symbol_chunk_15()));
    push_symbol_chunk_16(v);
    assert(rview(v@) =~= o + (symbol_chunk_10() + symbol_chunk_11() + symbol_chunk_12() + symbol_chunk_13() + symbol_chunk_14() + symbol_chunk_15() + symbol_chunk_16()));
    push_symbol_chunk_17(v);
    assert(rview(v@) =~= o + (symbol_chunk_10() + symbol_chunk_11() + symbol_chunk_12() + symbol_chunk_13() + symbol_chunk_14() + symbol_chunk_15() + symbol_chunk_16() + symbol_chunk_17()));
    push_symbol_chunk_18(v);
    assert(rview(v@) =~= o + (symbol_chunk_10() + symbol_chunk_11() + symbol_chunk_12() + symbol_chunk_13() + symbol_chunk_14() + symbol_chunk_15() + symbol_chunk_16() + symbol_chunk_17() + symbol_chunk_18()));
    push_symbol_chunk_19(v);
    assert(rview(v@) =~= o + (symbol_chunk_10() + symbol_chunk_11() + symbol_chunk_12() + symbol_chunk_13() + symbol_chunk_14() + symbol_chunk_15() + symbol_chunk_16() + symbol_chunk_17() + symbol_chunk_18() + symbol_chunk_19()));
}

fn push_symbol_block_2(v: &mut Vec<ClassUnicodeRange>)
    ensures
        rview(final(v)@) == rview(old(v)@) + symbol_block_2(),
{
    let ghost o = rview(v@);
    push_symbol_chunk_20(v);
    assert(rview(v@) =~= o + (symbol_chunk_20()));
    push_symbol_chunk_21(v);
    assert(rview(v@) =~= o + (symbol_chunk_20() + symbol_chunk_21()));
    push_symbol_chunk_22(v);
    assert(rview(v@) =~= o + (symbol_chunk_20() + symbol_chunk_21() + symbol_chunk_22()));
    push_symbol_chunk_23(v);
    assert(rview(v@) =~= o + (symbol_chunk_20() + symbol_chunk_21() + symbol_chunk_22() + symbol_chunk_23()));
    push_symbol_chunk_24(v);
    assert(rview(v@) =~= o + (symbol_chunk_20() + symbol_chunk_21() + symbol_chunk_22() + symbol_chunk_23() + symbol_chunk_24()));
    push_symbol_chunk_25(v);
    assert(rview(v@) =~= o + (symbol_chunk_20() + symbol_chunk_21() + symbol_chunk_22() + symbol_chunk_23() + symbol_chunk_24() + symbol_chunk_25()));
    push_symbol_chunk_26(v);
    assert(rview(v@) =~= o + (symbol_chunk_20() + symbol_chunk_21() + symbol_chunk_22() + symbol_chunk_23() + symbol_chunk_24() + symbol_chunk_25() + symbol_chunk_26()));
    push_symbol_chunk_27(v);
    assert(rview(v@) =~= o + (symbol_chunk_20() + symbol_chunk_21() + symbol_chunk_22() + symbol_chunk_23() + symbol_chunk_24() + symbol_chunk_25() + symbol_chunk_26() + symbol_chunk_27()));
    push_symbol_chunk_28(v);
    assert(rview(v@) =~= o + (symbol_chunk_20() + symbol_chunk_21() + symbol_chunk_22() + symbol_chunk_23() + symbol_chunk_24() + symbol_chunk_25() + symbol_chunk_26() + symbol_chunk_27() + symbol_chunk_28()));
    push_symbol_chunk_29(v);
    assert(rview(v@) =~= o + (symbol_chunk_20() + symbol_chunk_21() + symbol_chunk_22() + symbol_chunk_23() + symbol_chunk_24() + symbol_chunk_25() + symbol_chunk_26() + symbol_chunk_27() + symbol_chunk_28() + symbol_chunk_29()));
}

/// The ranges of the general category Symbol.
pub fn symbol_class() -> (v: Vec<ClassUnicodeRange>)
    ensures
        rview(v@) == symbol_ranges(),
{
    let mut v: Vec<ClassUnicodeRange> = Vec::new();
    assert(rview(v@) =~= Seq::<SRange>::empty());
    push_symbol_block_0(&mut v);
    assert(rview(v@) =~= symbol_block_0());
    push_symbol_block_1(&mut v);
    assert(rview(v@) =~= symbol_block_0() + symbol_block_1());
    push_symbol_block_2(&mut v);
    assert(rview(v@) =~= symbol_block_0() + symbol_block_1() + symbol_block_2());
    v
}

pub open spec fn titlecase_letter_chunk_0() -> Seq<SRange> {
    seq![(0x1C5int, 0x1C5int), (0x1C8int, 0x1C8int), (0x1CBint, 0x1CBint), (0x1F2int, 0x1F2int), (0x1F88int, 0x1F8Fint), (0x1F98int, 0x1F9Fint), (0x1FA8int, 0x1FAFint), (0x1FBCint, 0x1FBCint)]
}

pub open spec fn titlecase_letter_chunk_1() -> Seq<SRange> {
    seq![(0x1FCCint, 0x1FCCint), (0x1FFCint, 0x1FFCint)]
}

pub open spec fn titlecase_letter_block_0() -> Seq<SRange> {
    titlecase_letter_chunk_0() + titlecase_letter_chunk_1()
}

/// The ranges of the general category Titlecase_Letter.
pub open spec fn titlecase_letter_ranges() -> Seq<SRange> {
    titlecase_letter_block_0()
}

proof fn lemma_titlecase_letter_block_0()
    ensures
        canonical(titlecase_letter_block_0()),
        titlecase_letter_block_0().len() > 0,
        titlecase_letter_block_0()[0] == titlecase_letter_chunk_0()[0],
        titlecase_letter_block_0().last() == titlecase_letter_chunk_1().last(),
{
    reveal_with_fuel(canonical, 9);
    assert(canonical(titlecase_letter_chunk_0()));
    assert(canonical(titlecase_letter_chunk_1()));
    lemma_canonical_append(titlecase_letter_chunk_0(), titlecase_letter_chunk_1());
}

/// The general category Titlecase_Letter is a canonical class.
pub proof fn lemma_titlecase_letter_canonical()
    ensures
        canonical(titlecase_letter_ranges()),
{
    lemma_titlecase_letter_block_0();
}

fn push_titlecase_letter_chunk_0(v: &mut Vec<ClassUnicodeRange>)
    ensures
        rview(final(v)@) == rview(old(v)@) + titlecase_letter_chunk_0(),
{
    let ghost o = rview(v@);
    push_range(v, '\u{1C5}', '\u{1C5}');
    push_range(v, '\u{1C8}', '\u{1C8}');
    push_range(v, '\u{1CB}', '\u{1CB}');
    push_range(v, '\u{1F2}', '\u{1F2}');
    push_range(v, '\u{1F88}', '\u{1F8F}');
    push_range(v, '\u{1F98}', '\u{1F9F}');
    push_range(v, '\u{1FA8}', '\u{1FAF}');
    push_range(v, '\u{1FBC}', '\u{1FBC}');
    assert(rview(v@) =~= o + titlecase_letter_chunk_0());
}

fn push_titlecase_letter_chunk_1(v: &mut Vec<ClassUnicodeRange>)
    ensures
        rview(final(v)@) == rview(old(v)@) + titlecase_letter_chunk_1(),
{
    let ghost o = rview(v@);
    push_range(v, '\u{1FCC}', '\u{1FCC}');
    push_range(v, '\u{1FFC}', '\u{1FFC}');
    assert(rview(v@) =~= o + titlecase_letter_chunk_1());
}

fn push_titlecase_letter_block_0(v: &mut Vec<ClassUnicodeRange>)
    ensures
        rview(final(v)@) == rview(old(v)@) + titlecase_letter_block_0(),
{
    let ghost o = rview(v@);
    push_titlecase_letter_chunk_0(v);
    assert(rview(v@) =~= o + (titlecase_letter_chunk_0()));
    push_titlecase_letter_chunk_1(v);
    assert(rview(v@) =~= o + (titlecase_letter_chunk_0() + titlecase_letter_chunk_1()));
}

/// The ranges of the general category Titlecase_Letter.
pub fn titlecase_letter_class() -> (v: Vec<ClassUnicodeRange>)
    ensures
        rview(v@) == titlecase_letter_ranges(),
{
    let mut v: Vec<ClassUnicodeRange> = Vec::new();
    assert(rview(v@) =~= Seq::<SRange>::empty());
    push_titlecase_letter_block_0(&mut v);
    assert(rview(v@) =~= titlecase_letter_block_0());
    v
}

pub open spec fn unassigned_chunk_0() -> Seq<SRange> {
    seq![(0x378int, 0x379int), (0x380int, 0x383int), (0x38Bint, 0x38Bint), (0x38Dint, 0x38Dint), (0x3A2int, 0x3A2int), (0x530int, 0x530int), (0x557int, 0x558int), (0x58Bint, 0x58Cint)]
}

pub open spec fn unassigned_chunk_1() -> Seq<SRange> {
    seq![(0x590int, 0x590int), (0x5C8int, 0x5CFint), (0x5EBint, 0x5EEint), (0x5F5int, 0x5FFint), (0x70Eint, 0x70Eint), (0x74Bint, 0x74Cint), (0x7B2int, 0x7BFint), (0x7FBint, 0x7FCint)]
}

pub open spec fn unassigned_chunk_2() -> Seq<SRange> {
    seq![(0x82Eint, 0x82Fint), (0x83Fint, 0x83Fint), (0x85Cint, 0x85Dint), (0x85Fint, 0x85Fint), (0x86Bint, 0x86Fint), (0x88Fint, 0x88Fint), (0x892int, 0x896int), (0x984int, 0x984int)]
}

pub open spec fn unassigned_chunk_3() -> Seq<SRange> {
    seq![(0x98Dint, 0x98Eint), (0x991int, 0x992int), (0x9A9int, 0x9A9int), (0x9B1int, 0x9B1int), (0x9B3int, 0x9B5int), (0x9BAint, 0x9BBint), (0x9C5int, 0x9C6int), (0x9C9int, 0x9CAint)]
}

pub open spec fn unassigned_chunk_4() -> Seq<SRange> {
    seq![(0x9CFint, 0x9D6int), (0x9D8int, 0x9DBint), (0x9DEint, 0x9DEint), (0x9E4int, 0x9E5int), (0x9FFint, 0xA00int), (0xA04int, 0xA04int), (0xA0Bint, 0xA0Eint), (0xA11int, 0xA12int)]
}

pub open spec fn unassigned_chunk_5() -> Seq<SRange> {
    seq![(0xA29int, 0xA29int), (0xA31int, 0xA31int), (0xA34int, 0xA34int), (0xA37int, 0xA37int), (0xA3Aint, 0xA3Bint), (0xA3Dint, 0xA3Dint), (0xA43int, 0xA46int), (0xA49int, 0xA4Aint)]
}

pub open spec fn unassigned_chunk_6() -> Seq<SRange> {
    seq![(0xA4Eint, 0xA50int), (0xA52int, 0xA58int), (0xA5Dint, 0xA5Dint), (0xA5Fint, 0xA65int), (0xA77int, 0xA80int), (0xA84int, 0xA84int), (0xA8Eint, 0xA8Eint), (0xA92int, 0xA92int)]
}

pub open spec fn unassigned_chunk_7() -> Seq<SRange> {
    seq![(0xAA9int, 0xAA9int), (0xAB1int, 0xAB1int), (0xAB4int, 0xAB4int), (0xABAint, 0xABBint), (0xAC6int, 0xAC6int), (0xACAint, 0xACAint), (0xACEint, 0xACFint), (0xAD1int, 0xADFint)]
}

pub open spec fn unassigned_chunk_8() -> Seq<SRange> {
    seq![(0xAE4int, 0xAE5int), (0xAF2int, 0xAF8int), (0xB00int, 0xB00int), (0xB04int, 0xB04int), (0xB0Dint, 0xB0Eint), (0xB11int, 0xB12int), (0xB29int, 0xB29int), (0xB31int, 0xB31int)]
}

pub open spec fn unassigned_chunk_9() -> Seq<SRange> {
    seq![(0xB34int, 0xB34int), (0xB3Aint, 0xB3Bint), (0xB45int, 0xB46int), (0xB49int, 0xB4Aint), (0xB4Eint, 0xB54int), (0xB58int, 0xB5Bint), (0xB5Eint, 0xB5Eint), (0xB64int, 0xB65int)]
}

pub open spec fn unassigned_chunk_10() -> Seq<SRange> {
    seq![(0xB78int, 0xB81int), (0xB84int, 0xB84int), (0xB8Bint, 0xB8Dint), (0xB91int, 0xB91int), (0xB96int, 0xB98int), (0xB9Bint, 0xB9Bint), (0xB9Dint, 0xB9Dint), (0xBA0int, 0xBA2int)]
}

pub open spec fn unassigned_chunk_11() -> Seq<SRange> {
    seq![(0xBA5int, 0xBA7int), (0xBABint, 0xBADint), (0xBBAint, 0xBBDint), (0xBC3int, 0xBC5int), (0xBC9int, 0xBC9int), (0xBCEint, 0xBCFint), (0xBD1int, 0xBD6int), (0xBD8int, 0xBE5int)]
}

pub open spec fn unassigned_chunk_12() -> Seq<SRange> {
    seq![(0xBFBint, 0xBFFint), (0xC0Dint, 0xC0Dint), (0xC11int, 0xC11int), (0xC29int, 0xC29int), (0xC3Aint, 0xC3Bint), (0xC45int, 0xC45int), (0xC49int, 0xC49int), (0xC4Eint, 0xC54int)]
}

pub open spec fn unassigned_chunk_13() -> Seq<SRange> {
    seq![(0xC57int, 0xC57int), (0xC5Bint, 0xC5Cint), (0xC5Eint, 0xC5Fint), (0xC64int, 0xC65int), (0xC70int, 0xC76int), (0xC8Dint, 0xC8Dint), (0xC91int, 0xC91int), (0xCA9int, 0xCA9int)]
}

pub open spec fn unassigned_chunk_14() -> Seq<SRange> {
    seq![(0xCB4int, 0xCB4int), (0xCBAint, 0xCBBint), (0xCC5int, 0xCC5int), (0xCC9int, 0xCC9int), (0xCCEint, 0xCD4int), (0xCD7int, 0xCDCint), (0xCDFint, 0xCDFint), (0xCE4int, 0xCE5int)]
}

pub open spec fn unassigned_chunk_15() -> Seq<SRange> {
    seq![(0xCF0int, 0xCF0int), (0xCF4int, 0xCFFint), (0xD0Dint, 0xD0Dint), (0xD11int, 0xD11int), (0xD45int, 0xD45int), (0xD49int, 0xD49int), (0xD50int, 0xD53int), (0xD64int, 0xD65int)]
}

pub open spec fn unassigned_chunk_16() -> Seq<SRange> {
    seq![(0xD80int, 0xD80int), (0xD84int, 0xD84int), (0xD97int, 0xD99int), (0xDB2int, 0xDB2int), (0xDBCint, 0xDBCint), (0xDBEint, 0xDBFint), (0xDC7int, 0xDC9int), (0xDCBint, 0xDCEint)]
}

pub open spec fn unassigned_chunk_17() -> Seq<SRange> {
    seq![(0xDD5int, 0xDD5int), (0xDD7int, 0xDD7int), (0xDE0int, 0xDE5int), (0xDF0int, 0xDF1int), (0xDF5int, 0xE00int), (0xE3Bint, 0xE3Eint), (0xE5Cint, 0xE80int), (0xE83int, 0xE83int)]
}

pub open spec fn unassigned_chunk_18() -> Seq<SRange> {
    seq![(0xE85int, 0xE85int), (0xE8Bint, 0xE8Bint), (0xEA4int, 0xEA4int), (0xEA6int, 0xEA6int), (0xEBEint, 0xEBFint), (0xEC5int, 0xEC5int), (0xEC7int, 0xEC7int), (0xECFint, 0xECFint)]
}

pub open spec fn unassigned_chunk_19() -> Seq<SRange> {
    seq![(0xEDAint, 0xEDBint), (0xEE0int, 0xEFFint), (0xF48int, 0xF48int), (0xF6Dint, 0xF70int), (0xF98int, 0xF98int), (0xFBDint, 0xFBDint), (0xFCDint, 0xFCDint), (0xFDBint, 0xFFFint)]
}

pub open spec fn unassigned_chunk_20() -> Seq<SRange> {
    seq![(0x10C6int, 0x10C6int), (0x10C8int, 0x10CCint), (0x10CEint, 0x10CFint), (0x1249int, 0x1249int), (0x124Eint, 0x124Fint), (0x1257int, 0x1257int), (0x1259int, 0x1259int), (0x125Eint, 0x125Fint)]
}

pub open spec fn unassigned_chunk_21() -> Seq<SRange> {
    seq![(0x1289int, 0x1289int), (0x128Eint, 0x128Fint), (0x12B1int, 0x12B1int), (0x12B6int, 0x12B7int), (0x12BFint, 0x12BFint), (0x12C1int, 0x12C1int), (0x12C6int, 0x12C7int), (0x12D7int, 0x12D7int)]
}

pub open spec fn unassigned_chunk_22() -> Seq<SRange> {
    seq![(0x1311int, 0x1311int), (0x1316int, 0x1317int), (0x135Bint, 0x135Cint), (0x137Dint, 0x137Fint), (0x139Aint, 0x139Fint), (0x13F6int, 0x13F7int), (0x13FEint, 0x13FFint), (0x169Dint, 0x169Fint)]
}

pub open spec fn unassigned_chunk_23() -> Seq<SRange> {
    seq![(0x16F9int, 0x16FFint), (0x1716int, 0x171Eint), (0x1737int, 0x173Fint), (0x1754int, 0x175Fint), (0x176Dint, 0x176Dint), (0x1771int, 0x1771int), (0x1774int, 0x177Fint), (0x17DEint, 0x17DFint)]
}

pub open spec fn unassigned_chunk_24() -> Seq<SRange> {
    seq![(0x17EAint, 0x17EFint), (0x17FAint, 0x17FFint), (0x181Aint, 0x181Fint), (0x1879int, 0x187Fint), (0x18ABint, 0x18AFint), (0x18F6int, 0x18FFint), (0x191Fint, 0x191Fint), (0x192Cint, 0x192Fint)]
}

pub open spec fn unassigned_chunk_25() -> Seq<SRange> {
    seq![(0x193Cint, 0x193Fint), (0x1941int, 0x1943int), (0x196Eint, 0x196Fint), (0x1975int, 0x197Fint), (0x19ACint, 0x19AFint), (0x19CAint, 0x19CFint), (0x19DBint, 0x19DDint), (0x1A1Cint, 0x1A1Dint)]
}

pub open spec fn unassigned_chunk_26() -> Seq<SRange> {
    seq![(0x1A5Fint, 0x1A5Fint), (0x1A7Dint, 0x1A7Eint), (0x1A8Aint, 0x1A8Fint), (0x1A9Aint, 0x1A9Fint), (0x1AAEint, 0x1AAFint), (0x1ACFint, 0x1AFFint), (0x1B4Dint, 0x1B4Dint), (0x1BF4int, 0x1BFBint)]
}

pub open spec fn unassigned_chunk_27() -> Seq<SRange> {
    seq![(0x1C38int, 0x1C3Aint), (0x1C4Aint, 0x1C4Cint), (0x1C8Bint, 0x1C8Fint), (0x1CBBint, 0x1CBCint), (0x1CC8int, 0x1CCFint), (0x1CFBint, 0x1CFFint), (0x1F16int, 0x1F17int), (0x1F1Eint, 0x1F1Fint)]
}

pub open spec fn unassigned_chunk_28() -> Seq<SRange> {
    seq![(0x1F46int, 0x1F47int), (0x1F4Eint, 0x1F4Fint), (0x1F58int, 0x1F58int), (0x1F5Aint, 0x1F5Aint), (0x1F5Cint, 0x1F5Cint), (0x1F5Eint, 0x1F5Eint), (0x1F7Eint, 0x1F7Fint), (0x1FB5int, 0x1FB5int)]
}

pub open spec fn unassigned_chunk_29() -> Seq<SRange> {
    seq![(0x1FC5int, 0x1FC5int), (0x1FD4int, 0x1FD5int), (0x1FDCint, 0x1FDCint), (0x1FF0int, 0x1FF1int), (0x1FF5int, 0x1FF5int), (0x1FFFint, 0x1FFFint), (0x2065int, 0x2065int), (0x2072int, 0x2073int)]
}

pub open spec fn unassigned_chunk_30() -> Seq<SRange> {
    seq![(0x208Fint, 0x208Fint), (0x209Dint, 0x209Fint), (0x20C1int, 0x20CFint), (0x20F1int, 0x20FFint), (0x218Cint, 0x218Fint), (0x242Aint, 0x243Fint), (0x244Bint, 0x245Fint), (0x2B74int, 0x2B75int)]
}

pub open spec fn unassigned_chunk_31() -> Seq<SRange> {
    seq![(0x2B96int, 0x2B96int), (0x2CF4int, 0x2CF8int), (0x2D26int, 0x2D26int), (0x2D28int, 0x2D2Cint), (0x2D2Eint, 0x2D2Fint), (0x2D68int, 0x2D6Eint), (0x2D71int, 0x2D7Eint), (0x2D97int, 0x2D9Fint)]
}

pub open spec fn unassigned_chunk_32() -> Seq<SRange> {
    seq![(0x2DA7int, 0x2DA7int), (0x2DAFint, 0x2DAFint), (0x2DB7int, 0x2DB7int), (0x2DBFint, 0x2DBFint), (0x2DC7int, 0x2DC7int), (0x2DCFint, 0x2DCFint), (0x2DD7int, 0x2DD7int), (0x2DDFint, 0x2DDFint)]
}

pub open spec fn unassigned_chunk_33() -> Seq<SRange> {
    seq![(0x2E5Eint, 0x2E7Fint), (0x2E9Aint, 0x2E9Aint), (0x2EF4int, 0x2EFFint), (0x2FD6int, 0x2FEFint), (0x3040int, 0x3040int), (0x3097int, 0x3098int), (0x3100int, 0x3104int), (0x3130int, 0x3130int)]
}

pub open spec fn unassigned_chunk_34() -> Seq<SRange> {
    seq![(0x318Fint, 0x318Fint), (0x31E6int, 0x31EEint), (0x321Fint, 0x321Fint), (0xA48Dint, 0xA48Fint), (0xA4C7int, 0xA4CFint), (0xA62Cint, 0xA63Fint), (0xA6F8int, 0xA6FFint), (0xA7CEint, 0xA7CFint)]
}

pub open spec fn unassigned_chunk_35() -> Seq<SRange> {
    seq![(0xA7D2int, 0xA7D2int), (0xA7D4int, 0xA7D4int), (0xA7DDint, 0xA7F1int), (0xA82Dint, 0xA82Fint), (0xA83Aint, 0xA83Fint), (0xA878int, 0xA87Fint), (0xA8C6int, 0xA8CDint), (0xA8DAint, 0xA8DFint)]
}

pub open spec fn unassigned_chunk_36() -> Seq<SRange> {
    seq![(0xA954int, 0xA95Eint), (0xA97Dint, 0xA97Fint), (0xA9CEint, 0xA9CEint), (0xA9DAint, 0xA9DDint), (0xA9FFint, 0xA9FFint), (0xAA37int, 0xAA3Fint), (0xAA4Eint, 0xAA4Fint), (0xAA5Aint, 0xAA5Bint)]
}

pub open spec fn unassigned_chunk_37() -> Seq<SRange> {
    seq![(0xAAC3int, 0xAADAint), (0xAAF7int, 0xAB00int), (0xAB07int, 0xAB08int), (0xAB0Fint, 0xAB10int), (0xAB17int, 0xAB1Fint), (0xAB27int, 0xAB27int), (0xAB2Fint, 0xAB2Fint), (0xAB6Cint, 0xAB6Fint)]
}

pub open spec fn unassigned_chunk_38() -> Seq<SRange> {
    seq![(0xABEEint, 0xABEFint), (0xABFAint, 0xABFFint), (0xD7A4int, 0xD7AFint), (0xD7C7int, 0xD7CAint), (0xD7FCint, 0xD7FFint), (0xFA6Eint, 0xFA6Fint), (0xFADAint, 0xFAFFint), (0xFB07int, 0xFB12int)]
}

pub open spec fn unassigned_chunk_39() -> Seq<SRange> {
    seq![(0xFB18int, 0xFB1Cint), (0xFB37int, 0xFB37int), (0xFB3Dint, 0xFB3Dint), (0xFB3Fint, 0xFB3Fint), (0xFB42int, 0xFB42int), (0xFB45int, 0xFB45int), (0xFBC3int, 0xFBD2int), (0xFD90int, 0xFD91int)]
}

pub open spec fn unassigned_chunk_40() -> Seq<SRange> {
    seq![(0xFDC8int, 0xFDCEint), (0xFDD0int, 0xFDEFint), (0xFE1Aint, 0xFE1Fint), (0xFE53int, 0xFE53int), (0xFE67int, 0xFE67int), (0xFE6Cint, 0xFE6Fint), (0xFE75int, 0xFE75int), (0xFEFDint, 0xFEFEint)]
}

pub open spec fn unassigned_chunk_41() -> Seq<SRange> {
    seq![(0xFF00int, 0xFF00int), (0xFFBFint, 0xFFC1int), (0xFFC8int, 0xFFC9int), (0xFFD0int, 0xFFD1int), (0xFFD8int, 0xFFD9int), (0xFFDDint, 0xFFDFint), (0xFFE7int, 0xFFE7int), (0xFFEFint, 0xFFF8int)]
}

pub open spec fn unassigned_chunk_42() -> Seq<SRange> {
    seq![(0xFFFEint, 0xFFFFint), (0x1000Cint, 0x1000Cint), (0x10027int, 0x10027int), (0x1003Bint, 0x1003Bint), (0x1003Eint, 0x1003Eint), (0x1004Eint, 0x1004Fint), (0x1005Eint, 0x1007Fint), (0x100FBint, 0x100FFint)]
}

pub open spec fn unassigned_chunk_43() -> Seq<SRange> {
    seq![(0x10103int, 0x10106int), (0x10134int, 0x10136int), (0x1018Fint, 0x1018Fint), (0x1019Dint, 0x1019Fint), (0x101A1int, 0x101CFint), (0x101FEint, 0x1027Fint), (0x1029Dint, 0x1029Fint), (0x102D1int, 0x102DFint)]
}

pub open spec fn unassigned_chunk_44() -> Seq<SRange> {
    seq![(0x102FCint, 0x102FFint), (0x10324int, 0x1032Cint), (0x1034Bint, 0x1034Fint), (0x1037Bint, 0x1037Fint), (0x1039Eint, 0x1039Eint), (0x103C4int, 0x103C7int), (0x103D6int, 0x103FFint), (0x1049Eint, 0x1049Fint)]
}

pub open spec fn unassigned_chunk_45() -> Seq<SRange> {
    seq![(0x104AAint, 0x104AFint), (0x104D4int, 0x104D7int), (0x104FCint, 0x104FFint), (0x10528int, 0x1052Fint), (0x10564int, 0x1056Eint), (0x1057Bint, 0x1057Bint), (0x1058Bint, 0x1058Bint), (0x10593int, 0x10593int)]
}

pub open spec fn unassigned_chunk_46() -> Seq<SRange> {
    seq![(0x10596int, 0x10596int), (0x105A2int, 0x105A2int), (0x105B2int, 0x105B2int), (0x105BAint, 0x105BAint), (0x105BDint, 0x105BFint), (0x105F4int, 0x105FFint), (0x10737int, 0x1073Fint), (0x10756int, 0x1075Fint)]
}

pub open spec fn unassigned_chunk_47() -> Seq<SRange> {
    seq![(0x10768int, 0x1077Fint), (0x10786int, 0x10786int), (0x107B1int, 0x107B1int), (0x107BBint, 0x107FFint), (0x10806int, 0x10807int), (0x10809int, 0x10809int), (0x10836int, 0x10836int), (0x10839int, 0x1083Bint)]
}

pub open spec fn unassigned_chunk_48() -> Seq<SRange> {
    seq![(0x1083Dint, 0x1083Eint), (0x10856int, 0x10856int), (0x1089Fint, 0x108A6int), (0x108B0int, 0x108DFint), (0x108F3int, 0x108F3int), (0x108F6int, 0x108FAint), (0x1091Cint, 0x1091Eint), (0x1093Aint, 0x1093Eint)]
}

pub open spec fn unassigned_chunk_49() -> Seq<SRange> {
    seq![(0x10940int, 0x1097Fint), (0x109B8int, 0x109BBint), (0x109D0int, 0x109D1int), (0x10A04int, 0x10A04int), (0x10A07int, 0x10A0Bint), (0x10A14int, 0x10A14int), (0x10A18int, 0x10A18int), (0x10A36int, 0x10A37int)]
}

pub open spec fn unassigned_chunk_50() -> Seq<SRange> {
    seq![(0x10A3Bint, 0x10A3Eint), (0x10A49int, 0x10A4Fint), (0x10A59int, 0x10A5Fint), (0x10AA0int, 0x10ABFint), (0x10AE7int, 0x10AEAint), (0x10AF7int, 0x10AFFint), (0x10B36int, 0x10B38int), (0x10B56int, 0x10B57int)]
}

pub open spec fn unassigned_chunk_51() -> Seq<SRange> {
    seq![(0x10B73int, 0x10B77int), (0x10B92int, 0x10B98int), (0x10B9Dint, 0x10BA8int), (0x10BB0int, 0x10BFFint), (0x10C49int, 0x10C7Fint), (0x10CB3int, 0x10CBFint), (0x10CF3int, 0x10CF9int), (0x10D28int, 0x10D2Fint)]
}

pub open spec fn unassigned_chunk_52() -> Seq<SRange> {
    seq![(0x10D3Aint, 0x10D3Fint), (0x10D66int, 0x10D68int), (0x10D86int, 0x10D8Dint), (0x10D90int, 0x10E5Fint), (0x10E7Fint, 0x10E7Fint), (0x10EAAint, 0x10EAAint), (0x10EAEint, 0x10EAFint), (0x10EB2int, 0x10EC1int)]
}

pub open spec fn unassigned_chunk_53() -> Seq<SRange> {
    seq![(0x10EC5int, 0x10EFBint), (0x10F28int, 0x10F2Fint), (0x10F5Aint, 0x10F6Fint), (0x10F8Aint, 0x10FAFint), (0x10FCCint, 0x10FDFint), (0x10FF7int, 0x10FFFint), (0x1104Eint, 0x11051int), (0x11076int, 0x1107Eint)]
}

pub open spec fn unassigned_chunk_54() -> Seq<SRange> {
    seq![(0x110C3int, 0x110CCint), (0x110CEint, 0x110CFint), (0x110E9int, 0x110EFint), (0x110FAint, 0x110FFint), (0x11135int, 0x11135int), (0x11148int, 0x1114Fint), (0x11177int, 0x1117Fint), (0x111E0int, 0x111E0int)]
}

pub open spec fn unassigned_chunk_55() -> Seq<SRange> {
    seq![(0x111F5int, 0x111FFint), (0x11212int, 0x11212int), (0x11242int, 0x1127Fint), (0x11287int, 0x11287int), (0x11289int, 0x11289int), (0x1128Eint, 0x1128Eint), (0x1129Eint, 0x1129Eint), (0x112AAint, 0x112AFint)]
}

pub open spec fn unassigned_chunk_56() -> Seq<SRange> {
    seq![(0x112EBint, 0x112EFint), (0x112FAint, 0x112FFint), (0x11304int, 0x11304int), (0x1130Dint, 0x1130Eint), (0x11311int, 0x11312int), (0x11329int, 0x11329int), (0x11331int, 0x11331int), (0x11334int, 0x11334int)]
}

pub open spec fn unassigned_chunk_57() -> Seq<SRange> {
    seq![(0x1133Aint, 0x1133Aint), (0x11345int, 0x11346int), (0x11349int, 0x1134Aint), (0x1134Eint, 0x1134Fint), (0x11351int, 0x11356int), (0x11358int, 0x1135Cint), (0x11364int, 0x11365int), (0x1136Dint, 0x1136Fint)]
}

pub open spec fn unassigned_chunk_58() -> Seq<SRange> {
    seq![(0x11375int, 0x1137Fint), (0x1138Aint, 0x1138Aint), (0x1138Cint, 0x1138Dint), (0x1138Fint, 0x1138Fint), (0x113B6int, 0x113B6int), (0x113C1int, 0x113C1int), (0x113C3int, 0x113C4int), (0x113C6int, 0x113C6int)]
}

pub open spec fn unassigned_chunk_59() -> Seq<SRange> {
    seq![(0x113CBint, 0x113CBint), (0x113D6int, 0x113D6int), (0x113D9int, 0x113E0int), (0x113E3int, 0x113FFint), (0x1145Cint, 0x1145Cint), (0x11462int, 0x1147Fint), (0x114C8int, 0x114CFint), (0x114DAint, 0x1157Fint)]
}

pub open spec fn unassigned_chunk_60() -> Seq<SRange> {
    seq![(0x115B6int, 0x115B7int), (0x115DEint, 0x115FFint), (0x11645int, 0x1164Fint), (0x1165Aint, 0x1165Fint), (0x1166Dint, 0x1167Fint), (0x116BAint, 0x116BFint), (0x116CAint, 0x116CFint), (0x116E4int, 0x116FFint)]
}

pub open spec fn unassigned_chunk_61() -> Seq<SRange> {
    seq![(0x1171Bint, 0x1171Cint), (0x1172Cint, 0x1172Fint), (0x11747int, 0x117FFint), (0x1183Cint, 0x1189Fint), (0x118F3int, 0x118FEint), (0x11907int, 0x11908int), (0x1190Aint, 0x1190Bint), (0x11914int, 0x11914int)]
}

pub open spec fn unassigned_chunk_62() -> Seq<SRange> {
    seq![(0x11917int, 0x11917int), (0x11936int, 0x11936int), (0x11939int, 0x1193Aint), (0x11947int, 0x1194Fint), (0x1195Aint, 0x1199Fint), (0x119A8int, 0x119A9int), (0x119D8int, 0x119D9int), (0x119E5int, 0x119FFint)]
}

pub open spec fn unassigned_chunk_63() -> Seq<SRange> {
    seq![(0x11A48int, 0x11A4Fint), (0x11AA3int, 0x11AAFint), (0x11AF9int, 0x11AFFint), (0x11B0Aint, 0x11BBFint), (0x11BE2int, 0x11BEFint), (0x11BFAint, 0x11BFFint), (0x11C09int, 0x11C09int), (0x11C37int, 0x11C37int)]
}

pub open spec fn unassigned_chunk_64() -> Seq<SRange> {
    seq![(0x11C46int, 0x11C4Fint), (0x11C6Dint, 0x11C6Fint), (0x11C90int, 0x11C91int), (0x11CA8int, 0x11CA8int), (0x11CB7int, 0x11CFFint), (0x11D07int, 0x11D07int), (0x11D0Aint, 0x11D0Aint), (0x11D37int, 0x11D39int)]
}

pub open spec fn unassigned_chunk_65() -> Seq<SRange> {
    seq![(0x11D3Bint, 0x11D3Bint), (0x11D3Eint, 0x11D3Eint), (0x11D48int, 0x11D4Fint), (0x11D5Aint, 0x11D5Fint), (0x11D66int, 0x11D66int), (0x11D69int, 0x11D69int), (0x11D8Fint, 0x11D8Fint), (0x11D92int, 0x11D92int)]
}

pub open spec fn unassigned_chunk_66() -> Seq<SRange> {
    seq![(0x11D99int, 0x11D9Fint), (0x11DAAint, 0x11EDFint), (0x11EF9int, 0x11EFFint), (0x11F11int, 0x11F11int), (0x11F3Bint, 0x11F3Dint), (0x11F5Bint, 0x11FAFint), (0x11FB1int, 0x11FBFint), (0x11FF2int, 0x11FFEint)]
}

pub open spec fn unassigned_chunk_67() -> Seq<SRange> {
    seq![(0x1239Aint, 0x123FFint), (0x1246Fint, 0x1246Fint), (0x12475int, 0x1247Fint), (0x12544int, 0x12F8Fint), (0x12FF3int, 0x12FFFint), (0x13456int, 0x1345Fint), (0x143FBint, 0x143FFint), (0x14647int, 0x160FFint)]
}

pub open spec fn unassigned_chunk_68() -> Seq<SRange> {
    seq![(0x1613Aint, 0x167FFint), (0x16A39int, 0x16A3Fint), (0x16A5Fint, 0x16A5Fint), (0x16A6Aint, 0x16A6Dint), (0x16ABFint, 0x16ABFint), (0x16ACAint, 0x16ACFint), (0x16AEEint, 0x16AEFint), (0x16AF6int, 0x16AFFint)]
}

pub open spec fn unassigned_chunk_69() -> Seq<SRange> {
    seq![(0x16B46int, 0x16B4Fint), (0x16B5Aint, 0x16B5Aint), (0x16B62int, 0x16B62int), (0x16B78int, 0x16B7Cint), (0x16B90int, 0x16D3Fint), (0x16D7Aint, 0x16E3Fint), (0x16E9Bint, 0x16EFFint), (0x16F4Bint, 0x16F4Eint)]
}

pub open spec fn unassigned_chunk_70() -> Seq<SRange> {
    seq![(0x16F88int, 0x16F8Eint), (0x16FA0int, 0x16FDFint), (0x16FE5int, 0x16FEFint), (0x16FF2int, 0x16FFFint), (0x187F8int, 0x187FFint), (0x18CD6int, 0x18CFEint), (0x18D09int, 0x1AFEFint), (0x1AFF4int, 0x1AFF4int)]
}

pub open spec fn unassigned_chunk_71() -> Seq<SRange> {
    seq![(0x1AFFCint, 0x1AFFCint), (0x1AFFFint, 0x1AFFFint), (0x1B123int, 0x1B131int), (0x1B133int, 0x1B14Fint), (0x1B153int, 0x1B154int), (0x1B156int, 0x1B163int), (0x1B168int, 0x1B16Fint), (0x1B2FCint, 0x1BBFFint)]
}

pub open spec fn unassigned_chunk_72() -> Seq<SRange> {
    seq![(0x1BC6Bint, 0x1BC6Fint), (0x1BC7Dint, 0x1BC7Fint), (0x1BC89int, 0x1BC8Fint), (0x1BC9Aint, 0x1BC9Bint), (0x1BCA4int, 0x1CBFFint), (0x1CCFAint, 0x1CCFFint), (0x1CEB4int, 0x1CEFFint), (0x1CF2Eint, 0x1CF2Fint)]
}

pub open spec fn unassigned_chunk_73() -> Seq<SRange> {
    seq![(0x1CF47int, 0x1CF4Fint), (0x1CFC4int, 0x1CFFFint), (0x1D0F6int, 0x1D0FFint), (0x1D127int, 0x1D128int), (0x1D1EBint, 0x1D1FFint), (0x1D246int, 0x1D2BFint), (0x1D2D4int, 0x1D2DFint), (0x1D2F4int, 0x1D2FFint)]
}

pub open spec fn unassigned_chunk_74() -> Seq<SRange> {
    seq![(0x1D357int, 0x1D35Fint), (0x1D379int, 0x1D3FFint), (0x1D455int, 0x1D455int), (0x1D49Dint, 0x1D49Dint), (0x1D4A0int, 0x1D4A1int), (0x1D4A3int, 0x1D4A4int), (0x1D4A7int, 0x1D4A8int), (0x1D4ADint, 0x1D4ADint)]
}

pub open spec fn unassigned_chunk_75() -> Seq<SRange> {
    seq![(0x1D4BAint, 0x1D4BAint), (0x1D4BCint, 0x1D4BCint), (0x1D4C4int, 0x1D4C4int), (0x1D506int, 0x1D506int), (0x1D50Bint, 0x1D50Cint), (0x1D515int, 0x1D515int), (0x1D51Dint, 0x1D51Dint), (0x1D53Aint, 0x1D53Aint)]
}

pub open spec fn unassigned_chunk_76() -> Seq<SRange> {
    seq![(0x1D53Fint, 0x1D53Fint), (0x1D545int, 0x1D545int), (0x1D547int, 0x1D549int), (0x1D551int, 0x1D551int), (0x1D6A6int, 0x1D6A7int), (0x1D7CCint, 0x1D7CDint), (0x1DA8Cint, 0x1DA9Aint), (0x1DAA0int, 0x1DAA0int)]
}

pub open spec fn unassigned_chunk_77() -> Seq<SRange> {
    seq![(0x1DAB0int, 0x1DEFFint), (0x1DF1Fint, 0x1DF24int), (0x1DF2Bint, 0x1DFFFint), (0x1E007int, 0x1E007int), (0x1E019int, 0x1E01Aint), (0x1E022int, 0x1E022int), (0x1E025int, 0x1E025int), (0x1E02Bint, 0x1E02Fint)]
}

pub open spec fn unassigned_chunk_78() -> Seq<SRange> {
    seq![(0x1E06Eint, 0x1E08Eint), (0x1E090int, 0x1E0FFint), (0x1E12Dint, 0x1E12Fint), (0x1E13Eint, 0x1E13Fint), (0x1E14Aint, 0x1E14Dint), (0x1E150int, 0x1E28Fint), (0x1E2AFint, 0x1E2BFint), (0x1E2FAint, 0x1E2FEint)]
}

pub open spec fn unassigned_chunk_79() -> Seq<SRange> {
    seq![(0x1E300int, 0x1E4CFint), (0x1E4FAint, 0x1E5CFint), (0x1E5FBint, 0x1E5FEint), (0x1E600int, 0x1E7DFint), (0x1E7E7int, 0x1E7E7int), (0x1E7ECint, 0x1E7ECint), (0x1E7EFint, 0x1E7EFint), (0x1E7FFint, 0x1E7FFint)]
}

pub open spec fn unassigned_chunk_80() -> Seq<SRange> {
    seq![(0x1E8C5int, 0x1E8C6int), (0x1E8D7int, 0x1E8FFint), (0x1E94Cint, 0x1E94Fint), (0x1E95Aint, 0x1E95Dint), (0x1E960int, 0x1EC70int), (0x1ECB5int, 0x1ED00int), (0x1ED3Eint, 0x1EDFFint), (0x1EE04int, 0x1EE04int)]
}

pub open spec fn unassigned_chunk_81() -> Seq<SRange> {
    seq![(0x1EE20int, 0x1EE20int), (0x1EE23int, 0x1EE23int), (0x1EE25int, 0x1EE26int), (0x1EE28int, 0x1EE28int), (0x1EE33int, 0x1EE33int), (0x1EE38int, 0x1EE38int), (0x1EE3Aint, 0x1EE3Aint), (0x1EE3Cint, 0x1EE41int)]
}

pub open spec fn unassigned_chunk_82() -> Seq<SRange> {
    seq![(0x1EE43int, 0x1EE46int), (0x1EE48int, 0x1EE48int), (0x1EE4Aint, 0x1EE4Aint), (0x1EE4Cint, 0x1EE4Cint), (0x1EE50int, 0x1EE50int), (0x1EE53int, 0x1EE53int), (0x1EE55int, 0x1EE56int), (0x1EE58int, 0x1EE58int)]
}

pub open spec fn unassigned_chunk_83() -> Seq<SRange> {
    seq![(0x1EE5Aint, 0x1EE5Aint), (0x1EE5Cint, 0x1EE5Cint), (0x1EE5Eint, 0x1EE5Eint), (0x1EE60int, 0x1EE60int), (0x1EE63int, 0x1EE63int), (0x1EE65int, 0x1EE66int), (0x1EE6Bint, 0x1EE6Bint), (0x1EE73int, 0x1EE73int)]
}

pub open spec fn unassigned_chunk_84() -> Seq<SRange> {
    seq![(0x1EE78int, 0x1EE78int), (0x1EE7Dint, 0x1EE7Dint), (0x1EE7Fint, 0x1EE7Fint), (0x1EE8Aint, 0x1EE8Aint), (0x1EE9Cint, 0x1EEA0int), (0x1EEA4int, 0x1EEA4int), (0x1EEAAint, 0x1EEAAint), (0x1EEBCint, 0x1EEEFint)]
}

pub open spec fn unassigned_chunk_85() -> Seq<SRange> {
    seq![(0x1EEF2int, 0x1EFFFint), (0x1F02Cint, 0x1F02Fint), (0x1F094int, 0x1F09Fint), (0x1F0AFint, 0x1F0B0int), (0x1F0C0int, 0x1F0C0int), (0x1F0D0int, 0x1F0D0int), (0x1F0F6int, 0x1F0FFint), (0x1F1AEint, 0x1F1E5int)]
}

pub open spec fn unassigned_chunk_86() -> Seq<SRange> {
    seq![(0x1F203int, 0x1F20Fint), (0x1F23Cint, 0x1F23Fint), (0x1F249int, 0x1F24Fint), (0x1F252int, 0x1F25Fint), (0x1F266int, 0x1F2FFint), (0x1F6D8int, 0x1F6DBint), (0x1F6EDint, 0x1F6EFint), (0x1F6FDint, 0x1F6FFint)]
}

pub open spec fn unassigned_chunk_87() -> Seq<SRange> {
    seq![(0x1F777int, 0x1F77Aint), (0x1F7DAint, 0x1F7DFint), (0x1F7ECint, 0x1F7EFint), (0x1F7F1int, 0x1F7FFint), (0x1F80Cint, 0x1F80Fint), (0x1F848int, 0x1F84Fint), (0x1F85Aint, 0x1F85Fint), (0x1F888int, 0x1F88Fint)]
}

pub open spec fn unassigned_chunk_88() -> Seq<SRange> {
    seq![(0x1F8AEint, 0x1F8AFint), (0x1F8BCint, 0x1F8BFint), (0x1F8C2int, 0x1F8FFint), (0x1FA54int, 0x1FA5Fint), (0x1FA6Eint, 0x1FA6Fint), (0x1FA7Dint, 0x1FA7Fint), (0x1FA8Aint, 0x1FA8Eint), (0x1FAC7int, 0x1FACDint)]
}

pub open spec fn unassigned_chunk_89() -> Seq<SRange> {
    seq![(0x1FADDint, 0x1FADEint), (0x1FAEAint, 0x1FAEFint), (0x1FAF9int, 0x1FAFFint), (0x1FB93int, 0x1FB93int), (0x1FBFAint, 0x1FFFFint), (0x2A6E0int, 0x2A6FFint), (0x2B73Aint, 0x2B73Fint), (0x2B81Eint, 0x2B81Fint)]
}

pub open spec fn unassigned_chunk_90() -> Seq<SRange> {
    seq![(0x2CEA2int, 0x2CEAFint), (0x2EBE1int, 0x2EBEFint), (0x2EE5Eint, 0x2F7FFint), (0x2FA1Eint, 0x2FFFFint), (0x3134Bint, 0x3134Fint), (0x323B0int, 0xE0000int), (0xE0002int, 0xE001Fint), (0xE0080int, 0xE00FFint)]
}

pub open spec fn unassigned_chunk_91() -> Seq<SRange> {
    seq![(0xE01F0int, 0xEFFFFint), (0xFFFFEint, 0xFFFFFint), (0x10FFFEint, 0x10FFFFint)]
}

pub open spec fn unassigned_block_0() -> Seq<SRange> {
    unassigned_chunk_0() + unassigned_chunk_1() + unassigned_chunk_2() + unassigned_chunk_3() + unassigned_chunk_4() + unassigned_chunk_5() + unassigned_chunk_6() + unassigned_chunk_7() + unassigned_chunk_8() + unassigned_chunk_9()
}

pub open spec fn unassigned_block_1() -> Seq<SRange> {
    unassigned_chunk_10() + unassigned_chunk_11() + unassigned_chunk_12() + unassigned_chunk_13() + unassigned_chunk_14() + unassigned_chunk_15() + unassigned_chunk_16() + unassigned_chunk_17() + unassigned_chunk_18() + unassigned_chunk_19()
}

pub open spec fn unassigned_block_2() -> Seq<SRange> {
    unassigned_chunk_20() + unassigned_chunk_21() + unassigned_chunk_22() + unassigned_chunk_23() + unassigned_chunk_24() + unassigned_chunk_25() + unassigned_chunk_26() + unassigned_chunk_27() + unassigned_chunk_28() + unassigned_chunk_29()
}

pub open spec fn unassigned_block_3() -> Seq<SRange> {
    unassigned_chunk_30() + unassigned_chunk_31() + unassigned_chunk_32() + unassigned_chunk_33() + unassigned_chunk_34() + unassigned_chunk_35() + unassigned_chunk_36() + unassigned_chunk_37() + unassigned_chunk_38() + unassigned_chunk_39()
}

pub open spec fn unassigned_block_4() -> Seq<SRange> {
    unassigned_chunk_40() + unassigned_chunk_41() + unassigned_chunk_42() + unassigned_chunk_43() + unassigned_chunk_44() + unassigned_chunk_45() + unassigned_chunk_46() + unassigned_chunk_47() + unassigned_chunk_48() + unassigned_chunk_49()
}

pub open spec fn unassigned_block_5() -> Seq<SRange> {
    unassigned_chunk_50() + unassigned_chunk_51() + unassigned_chunk_52() + unassigned_chunk_53() + unassigned_chunk_54() + unassigned_chunk_55() + unassigned_chunk_56() + unassigned_chunk_57() + unassigned_chunk_58() + unassigned_chunk_59()
}

pub open spec fn unassigned_block_6() -> Seq<SRange> {
    unassigned_chunk_60() + unassigned_chunk_61() + unassigned_chunk_62() + unassigned_chunk_63() + unassigned_chunk_64() + unassigned_chunk_65() + unassigned_chunk_66() + unassigned_chunk_67() + unassigned_chunk_68() + unassigned_chunk_69()
}

pub open spec fn unassigned_block_7() -> Seq<SRange> {
    unassigned_chunk_70() + unassigned_chunk_71() + unassigned_chunk_72() + unassigned_chunk_73() + unassigned_chunk_74() + unassigned_chunk_75() + unassigned_chunk_76() + unassigned_chunk_77() + unassigned_chunk_78() + unassigned_chunk_79()
}

pub open spec fn unassigned_block_8() -> Seq<SRange> {
    unassigned_chunk_80() + unassigned_chunk_81() + unassigned_chunk_82() + unassigned_chunk_83() + unassigned_chunk_84() + unassigned_chunk_85() + unassigned_chunk_86() + unassigned_chunk_87() + unassigned_chunk_88() + unassigned_chunk_89()
}

pub open spec fn unassigned_block_9() -> Seq<SRange> {
    unassigned_chunk_90() + unassigned_chunk_91()
}

/// The ranges of the general category Unassigned.
pub open spec fn unassigned_ranges() -> Seq<SRange> {
    unassigned_block_0() + unassigned_block_1() + unassigned_block_2() + unassigned_block_3() + unassigned_block_4() + unassigned_block_5() + unassigned_block_6() + unassigned_block_7() + unassigned_block_8() + unassigned_block_9()
}

proof fn lemma_unassigned_block_0()
    ensures
        canonical(unassigned_block_0()),
        unassigned_block_0().len() > 0,
        unassigned_block_0()[0] == unassigned_chunk_0()[0],
        unassigned_block_0().last() == unassigned_chunk_9().last(),
{
    reveal_with_fuel(canonical, 9);
    assert(canonical(unassigned_chunk_0()));
    assert(canonical(unassigned_chunk_1()));
    assert(canonical(unassigned_chunk_2()));
    assert(canonical(unassigned_chunk_3()));
    assert(canonical(unassigned_chunk_4()));
    assert(canonical(unassigned_chunk_5()));
    assert(canonical(unassigned_chunk_6()));
    assert(canonical(unassigned_chunk_7()));
    assert(canonical(unassigned_chunk_8()));
    assert(canonical(unassigned_chunk_9()));
    lemma_canonical_append(unassigned_chunk_0(), unassigned_chunk_1());
    lemma_canonical_append(unassigned_chunk_0() + unassigned_chunk_1(), unassigned_chunk_2());
    lemma_canonical_append(unassigned_chunk_0() + unassigned_chunk_1() + unassigned_chunk_2(), unassigned_chunk_3());
    lemma_canonical_append(unassigned_chunk_0() + unassigned_chunk_1() + unassigned_chunk_2() + unassigned_chunk_3(), unassigned_chunk_4());
    lemma_canonical_append(unassigned_chunk_0() + unassigned_chunk_1() + unassigned_chunk_2() + unassigned_chunk_3() + unassigned_chunk_4(), unassigned_chunk_5());
    lemma_canonical_append(unassigned_chunk_0() + unassigned_chunk_1() + unassigned_chunk_2() + unassigned_chunk_3() + unassigned_chunk_4() + unassigned_chunk_5(), unassigned_chunk_6());
    lemma_canonical_append(unassigned_chunk_0() + unassigned_chunk_1() + unassigned_chunk_2() + unassigned_chunk_3() + unassigned_chunk_4() + unassigned_chunk_5() + unassigned_chunk_6(), unassigned_chunk_7());
    lemma_canonical_append(unassigned_chunk_0() + unassigned_chunk_1() + unassigned_chunk_2() + unassigned_chunk_3() + unassigned_chunk_4() + unassigned_chunk_5() + unassigned_chunk_6() + unassigned_chunk_7(), unassigned_chunk_8());
    lemma_canonical_append(unassigned_chunk_0() + unassigned_chunk_1() + unassigned_chunk_2() + unassigned_chunk_3() + unassigned_chunk_4() + unassigned_chunk_5() + unassigned_chunk_6() + unassigned_chunk_7() + unassigned_chunk_8(), unassigned_chunk_9());
}

proof fn lemma_unassigned_block_1()
    ensures
        canonical(unassigned_block_1()),
        unassigned_block_1().len() > 0,
        unassigned_block_1()[0] == unassigned_chunk_10()[0],
        unassigned_block_1().last() == unassigned_chunk_19().last(),
{
    reveal_with_fuel(canonical, 9);
    assert(canonical(unassigned_chunk_10()));
    assert(canonical(unassigned_chunk_11()));
    assert(canonical(unassigned_chunk_12()));
    assert(canonical(unassigned_chunk_13()));
    assert(canonical(unassigned_chunk_14()));
    assert(canonical(unassigned_chunk_15()));
    assert(canonical(unassigned_chunk_16()));
    assert(canonical(unassigned_chunk_17()));
    assert(canonical(unassigned_chunk_18()));
    assert(canonical(unassigned_chunk_19()));
    lemma_canonical_append(unassigned_chunk_10(), unassigned_chunk_11());
    lemma_canonical_append(unassigned_chunk_10() + unassigned_chunk_11(), unassigned_chunk_12());
    lemma_canonical_append(unassigned_chunk_10() + unassigned_chunk_11() + unassigned_chunk_12(), unassigned_chunk_13());
    lemma_canonical_append(unassigned_chunk_10() + unassigned_chunk_11() + unassigned_chunk_12() + unassigned_chunk_13(), unassigned_chunk_14());
    lemma_canonical_append(unassigned_chunk_10() + unassigned_chunk_11() + unassigned_chunk_12() + unassigned_chunk_13() + unassigned_chunk_14(), unassigned_chunk_15());
    lemma_canonical_append(unassigned_chunk_10() + unassigned_chunk_11() + unassigned_chunk_12() + unassigned_chunk_13() + unassigned_chunk_14() + unassigned_chunk_15(), unassigned_chunk_16());
    lemma_canonical_append(unassigned_chunk_10() + unassigned_chunk_11() + unassigned_chunk_12() + unassigned_chunk_13() + unassigned_chunk_14() + unassigned_chunk_15() + unassigned_chunk_16(), unassigned_chunk_17());
    lemma_canonical_append(unassigned_chunk_10() + unassigned_chunk_11() + unassigned_chunk_12() + unassigned_chunk_13() + unassigned_chunk_14() + unassigned_chunk_15() + unassigned_chunk_16() + unassigned_chunk_17(), unassigned_chunk_18());
    lemma_canonical_append(unassigned_chunk_10() + unassigned_chunk_11() + unassigned_chunk_12() + unassigned_chunk_13() + unassigned_chunk_14() + unassigned_chunk_15() + unassigned_chunk_16() + unassigned_chunk_17() + unassigned_chunk_18(), unassigned_chunk_19());
}

proof fn lemma_unassigned_block_2()
    ensures
        canonical(unassigned_block_2()),
        unassigned_block_2().len() > 0,
        unassigned_block_2()[0] == unassigned_chunk_20()[0],
        unassigned_block_2().last() == unassigned_chunk_29().last(),
{
    reveal_with_fuel(canonical, 9);
    assert(canonical(unassigned_chunk_20()));
    assert(canonical(unassigned_chunk_21()));
    assert(canonical(unassigned_chunk_22()));
    assert(canonical(unassigned_chunk_23()));
    assert(canonical(unassigned_chunk_24()));
    assert(canonical(unassigned_chunk_25()));
    assert(canonical(unassigned_chunk_26()));
    assert(canonical(unassigned_chunk_27()));
    assert(canonical(unassigned_chunk_28()));
    assert(canonical(unassigned_chunk_29()));
    lemma_canonical_append(unassigned_chunk_20(), unassigned_chunk_21());
    lemma_canonical_append(unassigned_chunk_20() + unassigned_chunk_21(), unassigned_chunk_22());
    lemma_canonical_append(unassigned_chunk_20() + unassigned_chunk_21() + unassigned_chunk_22(), unassigned_chunk_23());
    lemma_canonical_append(unassigned_chunk_20() + unassigned_chunk_21() + unassigned_chunk_22() + unassigned_chunk_23(), unassigned_chunk_24());
    lemma_canonical_append(unassigned_chunk_20() + unassigned_chunk_21() + unassigned_chunk_22() + unassigned_chunk_23() + unassigned_chunk_24(), unassigned_chunk_25());
    lemma_canonical_append(unassigned_chunk_20() + unassigned_chunk_21() + unassigned_chunk_22() + unassigned_chunk_23() + unassigned_chunk_24() + unassigned_chunk_25(), unassigned_chunk_26());
    lemma_canonical_append(unassigned_chunk_20() + unassigned_chunk_21() + unassigned_chunk_22() + unassigned_chunk_23() + unassigned_chunk_24() + unassigned_chunk_25() + unassigned_chunk_26(), unassigned_chunk_27());
    lemma_canonical_append(unassigned_chunk_20() + unassigned_chunk_21() + unassigned_chunk_22() + unassigned_chunk_23() + unassigned_chunk_24() + unassigned_chunk_25() + unassigned_chunk_26() + unassigned_chunk_27(), unassigned_chunk_28());
    lemma_canonical_append(unassigned_chunk_20() + unassigned_chunk_21() + unassigned_chunk_22() + unassigned_chunk_23() + unassigned_chunk_24() + unassigned_chunk_25() + unassigned_chunk_26() + unassigned_chunk_27() + unassigned_chunk_28(), unassigned_chunk_29());
}

proof fn lemma_unassigned_block_3()
    ensures
        canonical(unassigned_block_3()),
        unassigned_block_3().len() > 0,
        unassigned_block_3()[0] == unassigned_chunk_30()[0],
        unassigned_block_3().last() == unassigned_chunk_39().last(),
{
    reveal_with_fuel(canonical, 9);
    assert(canonical(unassigned_chunk_30()));
    assert(canonical(unassigned_chunk_31()));
    assert(canonical(unassigned_chunk_32()));
    assert(canonical(unassigned_chunk_33()));
    assert(canonical(unassigned_chunk_34()));
    assert(canonical(unassigned_chunk_35()));
    assert(canonical(unassigned_chunk_36()));
    assert(canonical(unassigned_chunk_37()));
    assert(canonical(unassigned_chunk_38()));
    assert(canonical(unassigned_chunk_39()));
    lemma_canonical_append(unassigned_chunk_30(), unassigned_chunk_31());
    lemma_canonical_append(unassigned_chunk_30() + unassigned_chunk_31(), unassigned_chunk_32());
    lemma_canonical_append(unassigned_chunk_30() + unassigned_chunk_31() + unassigned_chunk_32(), unassigned_chunk_33());
    lemma_canonical_append(unassigned_chunk_30() + unassigned_chunk_31() + unassigned_chunk_32() + unassigned_chunk_33(), unassigned_chunk_34());
    lemma_canonical_append(unassigned_chunk_30() + unassigned_chunk_31() + unassigned_chunk_32() + unassigned_chunk_33() + unassigned_chunk_34(), unassigned_chunk_35());
    lemma_canonical_append(unassigned_chunk_30() + unassigned_chunk_31() + unassigned_chunk_32() + unassigned_chunk_33() + unassigned_chunk_34() + unassigned_chunk_35(), unassigned_chunk_36());
    lemma_canonical_append(unassigned_chunk_30() + unassigned_chunk_31() + unassigned_chunk_32() + unassigned_chunk_33() + unassigned_chunk_34() + unassigned_chunk_35() + unassigned_chunk_36(), unassigned_chunk_37());
    lemma_canonical_append(unassigned_chunk_30() + unassigned_chunk_31() + unassigned_chunk_32() + unassigned_chunk_33() + unassigned_chunk_34() + unassigned_chunk_35() + unassigned_chunk_36() + unassigned_chunk_37(), unassigned_chunk_38());
    lemma_canonical_append(unassigned_chunk_30() + unassigned_chunk_31() + unassigned_chunk_32() + unassigned_chunk_33() + unassigned_chunk_34() + unassigned_chunk_35() + unassigned_chunk_36() + unassigned_chunk_37() + unassigned_chunk_38(), unassigned_chunk_39());
}

proof fn lemma_unassigned_block_4()
    ensures
        canonical(unassigned_block_4()),
        unassigned_block_4().len() > 0,
        unassigned_block_4()[0] == unassigned_chunk_40()[0],
        unassigned_block_4().last() == unassigned_chunk_49().last(),
{
    reveal_with_fuel(canonical, 9);
    assert(canonical(unassigned_chunk_40()));
    assert(canonical(unassigned_chunk_41()));
    assert(canonical(unassigned_chunk_42()));
    assert(canonical(unassigned_chunk_43()));
    assert(canonical(unassigned_chunk_44()));
    assert(canonical(unassigned_chunk_45()));
    assert(canonical(unassigned_chunk_46()));
    assert(canonical(unassigned_chunk_47()));
    assert(canonical(unassigned_chunk_48()));
    assert(canonical(unassigned_chunk_49()));
    lemma_canonical_append(unassigned_chunk_40(), unassigned_chunk_41());
    lemma_canonical_append(unassigned_chunk_40() + unassigned_chunk_41(), unassigned_chunk_42());
    lemma_canonical_append(unassigned_chunk_40() + unassigned_chunk_41() + unassigned_chunk_42(), unassigned_chunk_43());
    lemma_canonical_append(unassigned_chunk_40() + unassigned_chunk_41() + unassigned_chunk_42() + unassigned_chunk_43(), unassigned_chunk_44());
    lemma_canonical_append(unassigned_chunk_40() + unassigned_chunk_41() + unassigned_chunk_42() + unassigned_chunk_43() + unassigned_chunk_44(), unassigned_chunk_45());
    lemma_canonical_append(unassigned_chunk_40() + unassigned_chunk_41() + unassigned_chunk_42() + unassigned_chunk_43() + unassigned_chunk_44() + unassigned_chunk_45(), unassigned_chunk_46());
    lemma_canonical_append(unassigned_chunk_40() + unassigned_chunk_41() + unassigned_chunk_42() + unassigned_chunk_43() + unassigned_chunk_44() + unassigned_chunk_45() + unassigned_chunk_46(), unassigned_chunk_47());
    lemma_canonical_append(unassigned_chunk_40() + unassigned_chunk_41() + unassigned_chunk_42() + unassigned_chunk_43() + unassigned_chunk_44() + unassigned_chunk_45() + unassigned_chunk_46() + unassigned_chunk_47(), unassigned_chunk_48());
    lemma_canonical_append(unassigned_chunk_40() + unassigned_chunk_41() + unassigned_chunk_42() + unassigned_chunk_43() + unassigned_chunk_44() + unassigned_chunk_45() + unassigned_chunk_46() + unassigned_chunk_47() + unassigned_chunk_48(), unassigned_chunk_49());
}

proof fn lemma_unassigned_block_5()
    ensures
        canonical(unassigned_block_5()),
        unassigned_block_5().len() > 0,
        unassigned_block_5()[0] == unassigned_chunk_50()[0],
        unassigned_block_5().last() == unassigned_chunk_59().last(),
{
    reveal_with_fuel(canonical, 9);
    assert(canonical(unassigned_chunk_50()));
    assert(canonical(unassigned_chunk_51()));
    assert(canonical(unassigned_chunk_52()));
    assert(canonical(unassigned_chunk_53()));
    assert(canonical(unassigned_chunk_54()));
    assert(canonical(unassigned_chunk_55()));
    assert(canonical(unassigned_chunk_56()));
    assert(canonical(unassigned_chunk_57()));
    assert(canonical(unassigned_chunk_58()));
    assert(canonical(unassigned_chunk_59()));
    lemma_canonical_append(unassigned_chunk_50(), unassigned_chunk_51());
    lemma_canonical_append(unassigned_chunk_50() + unassigned_chunk_51(), unassigned_chunk_52());
    lemma_canonical_append(unassigned_chunk_50() + unassigned_chunk_51() + unassigned_chunk_52(), unassigned_chunk_53());
    lemma_canonical_append(unassigned_chunk_50() + unassigned_chunk_51() + unassigned_chunk_52() + unassigned_chunk_53(), unassigned_chunk_54());
    lemma_canonical_append(unassigned_chunk_50() + unassigned_chunk_51() + unassigned_chunk_52() + unassigned_chunk_53() + unassigned_chunk_54(), unassigned_chunk_55());
    lemma_canonical_append(unassigned_chunk_50() + unassigned_chunk_51() + unassigned_chunk_52() + unassigned_chunk_53() + unassigned_chunk_54() + unassigned_chunk_55(), unassigned_chunk_56());
    lemma_canonical_append(unassigned_chunk_50() + unassigned_chunk_51() + unassigned_chunk_52() + unassigned_chunk_53() + unassigned_chunk_54() + unassigned_chunk_55() + unassigned_chunk_56(), unassigned_chunk_57());
    lemma_canonical_append(unassigned_chunk_50() + unassigned_chunk_51() + unassigned_chunk_52() + unassigned_chunk_53() + unassigned_chunk_54() + unassigned_chunk_55() + unassigned_chunk_56() + unassigned_chunk_57(), unassigned_chunk_58());
    lemma_canonical_append(unassigned_chunk_50() + unassigned_chunk_51() + unassigned_chunk_52() + unassigned_chunk_53() + unassigned_chunk_54() + unassigned_chunk_55() + unassigned_chunk_56() + unassigned_chunk_57() + unassigned_chunk_58(), unassigned_chunk_59());
}

proof fn lemma_unassigned_block_6()
    ensures
        canonical(unassigned_block_6()),
        unassigned_block_6().len() > 0,
        unassigned_block_6()[0] == unassigned_chunk_60()[0],
        unassigned_block_6().last() == unassigned_chunk_69().last(),
{
    reveal_with_fuel(canonical, 9);
    assert(canonical(unassigned_chunk_60()));
    assert(canonical(unassigned_chunk_61()));
    assert(canonical(unassigned_chunk_62()));
    assert(canonical(unassigned_chunk_63()));
    assert(canonical(unassigned_chunk_64()));
    assert(canonical(unassigned_chunk_65()));
    assert(canonical(unassigned_chunk_66()));
    assert(canonical(unassigned_chunk_67()));
    assert(canonical(unassigned_chunk_68()));
    assert(canonical(unassigned_chunk_69()));
    lemma_canonical_append(unassigned_chunk_60(), unassigned_chunk_61());
    lemma_canonical_append(unassigned_chunk_60() + unassigned_chunk_61(), unassigned_chunk_62());
    lemma_canonical_append(unassigned_chunk_60() + unassigned_chunk_61() + unassigned_chunk_62(), unassigned_chunk_63());
    lemma_canonical_append(unassigned_chunk_60() + unassigned_chunk_61() + unassigned_chunk_62() + unassigned_chunk_63(), unassigned_chunk_64());
    lemma_canonical_append(unassigned_chunk_60() + unassigned_chunk_61() + unassigned_chunk_62() + unassigned_chunk_63() + unassigned_chunk_64(), unassigned_chunk_65());
    lemma_canonical_append(unassigned_chunk_60() + unassigned_chunk_61() + unassigned_chunk_62() + unassigned_chunk_63() + unassigned_chunk_64() + unassigned_chunk_65(), unassigned_chunk_66());
    lemma_canonical_append(unassigned_chunk_60() + unassigned_chunk_61() + unassigned_chunk_62() + unassigned_chunk_63() + unassigned_chunk_64() + unassigned_chunk_65() + unassigned_chunk_66(), unassigned_chunk_67());
    lemma_canonical_append(unassigned_chunk_60() + unassigned_chunk_61() + unassigned_chunk_62() + unassigned_chunk_63() + unassigned_chunk_64() + unassigned_chunk_65() + unassigned_chunk_66() + unassigned_chunk_67(), unassigned_chunk_68());
    lemma_canonical_append(unassigned_chunk_60() + unassigned_chunk_61() + unassigned_chunk_62() + unassigned_chunk_63() + unassigned_chunk_64() + unassigned_chunk_65() + unassigned_chunk_66() + unassigned_chunk_67() + unassigned_chunk_68(), unassigned_chunk_69());
}

proof fn lemma_unassigned_block_7()
    ensures
        canonical(unassigned_block_7()),
        unassigned_block_7().len() > 0,
        unassigned_block_7()[0] == unassigned_chunk_70()[0],
        unassigned_block_7().last() == unassigned_chunk_79().last(),
{
    reveal_with_fuel(canonical, 9);
    assert(canonical(unassigned_chunk_70()));
    assert(canonical(unassigned_chunk_71()));
    assert(canonical(unassigned_chunk_72()));
    assert(canonical(unassigned_chunk_73()));
    assert(canonical(unassigned_chunk_74()));
    assert(canonical(unassigned_chunk_75()));
    assert(canonical(unassigned_chunk_76()));
    assert(canonical(unassigned_chunk_77()));
    assert(canonical(unassigned_chunk_78()));
    assert(canonical(unassigned_chunk_79()));
    lemma_canonical_append(unassigned_chunk_70(), unassigned_chunk_71());
    lemma_canonical_append(unassigned_chunk_70() + unassigned_chunk_71(), unassigned_chunk_72());
    lemma_canonical_append(unassigned_chunk_70() + unassigned_chunk_71() + unassigned_chunk_72(), unassigned_chunk_73());
    lemma_canonical_append(unassigned_chunk_70() + unassigned_chunk_71() + unassigned_chunk_72() + unassigned_chunk_73(), unassigned_chunk_74());
    lemma_canonical_append(unassigned_chunk_70() + unassigned_chunk_71() + unassigned_chunk_72() + unassigned_chunk_73() + unassigned_chunk_74(), unassigned_chunk_75());
    lemma_canonical_append(unassigned_chunk_70() + unassigned_chunk_71() + unassigned_chunk_72() + unassigned_chunk_73() + unassigned_chunk_74() + unassigned_chunk_75(), unassigned_chunk_76());
    lemma_canonical_append(unassigned_chunk_70() + unassigned_chunk_71() + unassigned_chunk_72() + unassigned_chunk_73() + unassigned_chunk_74() + unassigned_chunk_75() + unassigned_chunk_76(), unassigned_chunk_77());
    lemma_canonical_append(unassigned_chunk_70() + unassigned_chunk_71() + unassigned_chunk_72() + unassigned_chunk_73() + unassigned_chunk_74() + unassigned_chunk_75() + unassigned_chunk_76() + unassigned_chunk_77(), unassigned_chunk_78());
    lemma_canonical_append(unassigned_chunk_70() + unassigned_chunk_71() + unassigned_chunk_72() + unassigned_chunk_73() + unassigned_chunk_74() + unassigned_chunk_75() + unassigned_chunk_76() + unassigned_chunk_77() + unassigned_chunk_78(), unassigned_chunk_79());
}

proof fn lemma_unassigned_block_8()
    ensures
        canonical(unassigned_block_8()),
        unassigned_block_8().len() > 0,
        unassigned_block_8()[0] == unassigned_chunk_80()[0],
        unassigned_block_8().last() == unassigned_chunk_89().last(),
{
    reveal_with_fuel(canonical, 9);
    assert(canonical(unassigned_chunk_80()));
    assert(canonical(unassigned_chunk_81()));
    assert(canonical(unassigned_chunk_82()));
    assert(canonical(unassigned_chunk_83()));
    assert(canonical(unassigned_chunk_84()));
    assert(canonical(unassigned_chunk_85()));
    assert(canonical(unassigned_chunk_86()));
    assert(canonical(unassigned_chunk_87()));
    assert(canonical(unassigned_chunk_88()));
    assert(canonical(unassigned_chunk_89()));
    lemma_canonical_append(unassigned_chunk_80(), unassigned_chunk_81());
    lemma_canonical_append(unassigned_chunk_80() + unassigned_chunk_81(), unassigned_chunk_82());
    lemma_canonical_append(unassigned_chunk_80() + unassigned_chunk_81() + unassigned_chunk_82(), unassigned_chunk_83());
    lemma_canonical_append(unassigned_chunk_80() + unassigned_chunk_81() + unassigned_chunk_82() + unassigned_chunk_83(), unassigned_chunk_84());
    lemma_canonical_append(unassigned_chunk_80() + unassigned_chunk_81() + unassigned_chunk_82() + unassigned_chunk_83() + unassigned_chunk_84(), unassigned_chunk_85());
    lemma_canonical_append(unassigned_chunk_80() + unassigned_chunk_81() + unassigned_chunk_82() + unassigned_chunk_83() + unassigned_chunk_84() + unassigned_chunk_85(), unassigned_chunk_86());
    lemma_canonical_append(unassigned_chunk_80() + unassigned_chunk_81() + unassigned_chunk_82() + unassigned_chunk_83() + unassigned_chunk_84() + unassigned_chunk_85() + unassigned_chunk_86(), unassigned_chunk_87());
    lemma_canonical_append(unassigned_chunk_80() + unassigned_chunk_81() + unassigned_chunk_82() + unassigned_chunk_83() + unassigned_chunk_84() + unassigned_chunk_85() + unassigned_chunk_86() + unassigned_chunk_87(), unassigned_chunk_88());
    lemma_canonical_append(unassigned_chunk_80() + unassigned_chunk_81() + unassigned_chunk_82() + unassigned_chunk_83() + unassigned_chunk_84() + unassigned_chunk_85() + unassigned_chunk_86() + unassigned_chunk_87() + unassigned_chunk_88(), unassigned_chunk_89());
}

proof fn lemma_unassigned_block_9()
    ensures
        canonical(unassigned_block_9()),
        unassigned_block_9().len() > 0,
        unassigned_block_9()[0] == unassigned_chunk_90()[0],
        unassigned_block_9().last() == unassigned_chunk_91().last(),
{
    reveal_with_fuel(canonical, 9);
    assert(canonical(unassigned_chunk_90()));
    assert(canonical(unassigned_chunk_91()));
    lemma_canonical_append(unassigned_chunk_90(), unassigned_chunk_91());
}

/// The general category Unassigned is a canonical class.
pub proof fn lemma_unassigned_canonical()
    ensures
        canonical(unassigned_ranges()),
{
    lemma_unassigned_block_0();
    lemma_unassigned_block_1();
    lemma_unassigned_block_2();
    lemma_unassigned_block_3();
    lemma_unassigned_block_4();
    lemma_unassigned_block_5();
    lemma_unassigned_block_6();
    lemma_unassigned_block_7();
    lemma_unassigned_block_8();
    lemma_unassigned_block_9();
    lemma_canonical_append(unassigned_block_0(), unassigned_block_1());
    lemma_canonical_append(unassigned_block_0() + unassigned_block_1(), unassigned_block_2());
    lemma_canonical_append(unassigned_block_0() + unassigned_block_1() + unassigned_block_2(), unassigned_block_3());
    lemma_canonical_append(unassigned_block_0() + unassigned_block_1() + unassigned_block_2() + unassigned_block_3(), unassigned_block_4());
    lemma_canonical_append(unassigned_block_0() + unassigned_block_1() + unassigned_block_2() + unassigned_block_3() + unassigned_block_4(), unassigned_block_5());
    lemma_canonical_append(unassigned_block_0() + unassigned_block_1() + unassigned_block_2() + unassigned_block_3() + unassigned_block_4() + unassigned_block_5(), unassigned_block_6());
    lemma_canonical_append(unassigned_block_0() + unassigned_block_1() + unassigned_block_2() + unassigned_block_3() + unassigned_block_4() + unassigned_block_5() + unassigned_block_6(), unassigned_block_7());
    lemma_canonical_append(unassigned_block_0() + unassigned_block_1() + unassigned_block_2() + unassigned_block_3() + unassigned_block_4() + unassigned_block_5() + unassigned_block_6() + unassigned_block_7(), unassigned_block_8());
    lemma_canonical_append(unassigned_block_0() + unassigned_block_1() + unassigned_block_2() + unassigned_block_3() + unassigned_block_4() + unassigned_block_5() + unassigned_block_6() + unassigned_block_7() + unassigned_block_8(), unassigned_block_9());
}

fn push_unassigned_chunk_0(v: &mut Vec<ClassUnicodeRange>)
    ensures
        rview(final(v)@) == rview(old(v)@) + unassigned_chunk_0(),
{
    let ghost o = rview(v@);
    push_range(v, '\u{378}', '\u{379}');
    push_range(v, '\u{380}', '\u{383}');
    push_range(v, '\u{38B}', '\u{38B}');
    push_range(v, '\u{38D}', '\u{38D}');
    push_range(v, '\u{3A2}', '\u{3A2}');
    push_range(v, '\u{530}', '\u{530}');
    push_range(v, '\u{557}', '\u{558}');
    push_range(v, '\u{58B}', '\u{58C}');
    assert(rview(v@) =~= o + unassigned_chunk_0());
}

fn push_unassigned_chunk_1(v: &mut Vec<ClassUnicodeRange>)
    ensures
        rview(final(v)@) == rview(old(v)@) + unassigned_chunk_1(),
{
    let ghost o = rview(v@);
    push_range(v, '\u{590}', '\u{590}');
    push_range(v, '\u{5C8}', '\u{5CF}');
    push_range(v, '\u{5EB}', '\u{5EE}');
    push_range(v, '\u{5F5}', '\u{5FF}');
    push_range(v, '\u{70E}', '\u{70E}');
    push_range(v, '\u{74B}', '\u{74C}');
    push_range(v, '\u{7B2}', '\u{7BF}');
    push_range(v, '\u{7FB}', '\u{7FC}');
    assert(rview(v@) =~= o + unassigned_chunk_1());
}

fn push_unassigned_chunk_2(v: &mut Vec<ClassUnicodeRange>)
    ensures
        rview(final(v)@) == rview(old(v)@) + unassigned_chunk_2(),
{
    let ghost o = rview(v@);
    push_range(v, '\u{82E}', '\u{82F}');
    push_range(v, '\u{83F}', '\u{83F}');
    push_range(v, '\u{85C}', '\u{85D}');
    push_range(v, '\u{85F}', '\u{85F}');
    push_range(v, '\u{86B}', '\u{86F}');
    push_range(v, '\u{88F}', '\u{88F}');
    push_range(v, '\u{892}', '\u{896}');
    push_range(v, '\u{984}', '\u{984}');
    assert(rview(v@) =~= o + unassigned_chunk_2());
}

fn push_unassigned_chunk_3(v: &mut Vec<ClassUnicodeRange>)
    ensures
        rview(final(v)@) == rview(old(v)@) + unassigned_chunk_3(),
{
    let ghost o = rview(v@);
    push_range(v, '\u{98D}', '\u{98E}');
    push_range(v, '\u{991}', '\u{992}');
    push_range(v, '\u{9A9}', '\u{9A9}');
    push_range(v, '\u{9B1}', '\u{9B1}');
    push_range(v, '\u{9B3}', '\u{9B5}');
    push_range(v, '\u{9BA}', '\u{9BB}');
    push_range(v, '\u{9C5}', '\u{9C6}');
    push_range(v, '\u{9C9}', '\u{9CA}');
    assert(rview(v@) =~= o + unassigned_chunk_3());
}

fn push_unassigned_chunk_4(v: &mut Vec<ClassUnicodeRange>)
    ensures
        rview(final(v)@) == rview(old(v)@) + unassigned_chunk_4(),
{
    let ghost o = rview(v@);
    push_range(v, '\u{9CF}', '\u{9D6}');
    push_range(v, '\u{9D8}', '\u{9DB}');
    push_range(v, '\u{9DE}', '\u{9DE}');
    push_range(v, '\u{9E4}', '\u{9E5}');
    push_range(v, '\u{9FF}', '\u{A00}');
    push_range(v, '\u{A04}', '\u{A04}');
    push_range(v, '\u{A0B}', '\u{A0E}');
    push_range(v, '\u{A11}', '\u{A12}');
    assert(rview(v@) =~= o + unassigned_chunk_4());
}

fn push_unassigned_chunk_5(v: &mut Vec<ClassUnicodeRange>)
    ensures
        rview(final(v)@) == rview(old(v)@) + unassigned_chunk_5(),
{
    let ghost o = rview(v@);
    push_range(v, '\u{A29}', '\u{A29}');
    push_range(v, '\u{A31}', '\u{A31}');
    push_range(v, '\u{A34}', '\u{A34}');
    push_range(v, '\u{A37}', '\u{A37}');
    push_range(v, '\u{A3A}', '\u{A3B}');
    push_range(v, '\u{A3D}', '\u{A3D}');
    push_range(v, '\u{A43}', '\u{A46}');
    push_range(v, '\u{A49}', '\u{A4A}');
    assert(rview(v@) =~= o + unassigned_chunk_5());
}

fn push_unassigned_chunk_6(v: &mut Vec<ClassUnicodeRange>)
    ensures
        rview(final(v)@) == rview(old(v)@) + unassigned_chunk_6(),
{
    let ghost o = rview(v@);
    push_range(v, '\u{A4E}', '\u{A50}');
    push_range(v, '\u{A52}', '\u{A58}');
    push_range(v, '\u{A5D}', '\u{A5D}');
    push_range(v, '\u{A5F}', '\u{A65}');
    push_range(v, '\u{A77}', '\u{A80}');
    push_range(v, '\u{A84}', '\u{A84}');
    push_range(v, '\u{A8E}', '\u{A8E}');
    push_range(v, '\u{A92}', '\u{A92}');
    assert(rview(v@) =~= o + unassigned_chunk_6());
}

fn push_unassigned_chunk_7(v: &mut Vec<ClassUnicodeRange>)
    ensures
        rview(final(v)@) == rview(old(v)@) + unassigned_chunk_7(),
{
    let ghost o = rview(v@);
    push_range(v, '\u{AA9}', '\u{AA9}');
    push_range(v, '\u{AB1}', '\u{AB1}');
    push_range(v, '\u{AB4}', '\u{AB4}');
    push_range(v, '\u{ABA}', '\u{ABB}');
    push_range(v, '\u{AC6}', '\u{AC6}');
    push_range(v, '\u{ACA}', '\u{ACA}');
    push_range(v, '\u{ACE}', '\u{ACF}');
    push_range(v, '\u{AD1}', '\u{ADF}');
    assert(rview(v@) =~= o + unassigned_chunk_7());
}

fn push_unassigned_chunk_8(v: &mut Vec<ClassUnicodeRange>)
    ensures
        rview(final(v)@) == rview(old(v)@) + unassigned_chunk_8(),
{
    let ghost o = rview(v@);
    push_range(v, '\u{AE4}', '\u{AE5}');
    push_range(v, '\u{AF2}', '\u{AF8}');
    push_range(v, '\u{B00}', '\u{B00}');
    push_range(v, '\u{B04}', '\u{B04}');
    push_range(v, '\u{B0D}', '\u{B0E}');
    push_range(v, '\u{B11}', '\u{B12}');
    push_range(v, '\u{B29}', '\u{B29}');
    push_range(v, '\u{B31}', '\u{B31}');
    assert(rview(v@) =~= o + unassigned_chunk_8());
}

fn push_unassigned_chunk_9(v: &mut Vec<ClassUnicodeRange>)
    ensures
        rview(final(v)@) == rview(old(v)@) + unassigned_chunk_9(),
{
    let ghost o = rview(v@);
    push_range(v, '\u{B34}', '\u{B34}');
    push_range(v, '\u{B3A}', '\u{B3B}');
    push_range(v, '\u{B45}', '\u{B46}');
    push_range(v, '\u{B49}', '\u{B4A}');
    push_range(v, '\u{B4E}', '\u{B54}');
    push_range(v, '\u{B58}', '\u{B5B}');
    push_range(v, '\u{B5E}', '\u{B5E}');
    push_range(v, '\u{B64}', '\u{B65}');
    assert(rview(v@) =~= o + unassigned_chunk_9());
}

fn push_unassigned_chunk_10(v: &mut Vec<ClassUnicodeRange>)
    ensures
        rview(final(v)@) == rview(old(v)@) + unassigned_chunk_10(),
{
    let ghost o = rview(v@);
    push_range(v, '\u{B78}', '\u{B81}');
    push_range(v, '\u{B84}', '\u{B84}');
    push_range(v, '\u{B8B}', '\u{B8D}');
    push_range(v, '\u{B91}', '\u{B91}');
    push_range(v, '\u{B96}', '\u{B98}');
    push_range(v, '\u{B9B}', '\u{B9B}');
    push_range(v, '\u{B9D}', '\u{B9D}');
    push_range(v, '\u{BA0}', '\u{BA2}');
    assert(rview(v@) =~= o + unassigned_chunk_10());
}

fn push_unassigned_chunk_11(v: &mut Vec<ClassUnicodeRange>)
    ensures
        rview(final(v)@) == rview(old(v)@) + unassigned_chunk_11(),
{
    let ghost o = rview(v@);
    push_range(v, '\u{BA5}', '\u{BA7}');
    push_range(v, '\u{BAB}', '\u{BAD}');
    push_range(v, '\u{BBA}', '\u{BBD}');
    push_range(v, '\u{BC3}', '\u{BC5}');
    push_range(v, '\u{BC9}', '\u{BC9}');
    push_range(v, '\u{BCE}', '\u{BCF}');
    push_range(v, '\u{BD1}', '\u{BD6}');
    push_range(v, '\u{BD8}', '\u{BE5}');
    assert(rview(v@) =~= o + unassigned_chunk_11());
}

fn push_unassigned_chunk_12(v: &mut Vec<ClassUnicodeRange>)
    ensures
        rview(final(v)@) == rview(old(v)@) + unassigned_chunk_12(),
{
    let ghost o = rview(v@);
    push_range(v, '\u{BFB}', '\u{BFF}');
    push_range(v, '\u{C0D}', '\u{C0D}');
    push_range(v, '\u{C11}', '\u{C11}');
    push_range(v, '\u{C29}', '\u{C29}');
    push_range(v, '\u{C3A}', '\u{C3B}');
    push_range(v, '\u{C45}', '\u{C45}');
    push_range(v, '\u{C49}', '\u{C49}');
    push_range(v, '\u{C4E}', '\u{C54}');
    assert(rview(v@) =~= o + unassigned_chunk_12());
}

fn push_unassigned_chunk_13(v: &mut Vec<ClassUnicodeRange>)
    ensures
        rview(final(v)@) == rview(old(v)@) + unassigned_chunk_13(),
{
    let ghost o = rview(v@);
    push_range(v, '\u{C57}', '\u{C57}');
    push_range(v, '\u{C5B}', '\u{C5C}');
    push_range(v, '\u{C5E}', '\u{C5F}');
    push_range(v, '\u{C64}', '\u{C65}');
    push_range(v, '\u{C70}', '\u{C76}');
    push_range(v, '\u{C8D}', '\u{C8D}');
    push_range(v, '\u{C91}', '\u{C91}');
    push_range(v, '\u{CA9}', '\u{CA9}');
    assert(rview(v@) =~= o + unassigned_chunk_13());
}

fn push_unassigned_chunk_14(v: &mut Vec<ClassUnicodeRange>)
    ensures
        rview(final(v)@) == rview(old(v)@) + unassigned_chunk_14(),
{
    let ghost o = rview(v@);
    push_range(v, '\u{CB4}', '\u{CB4}');
    push_range(v, '\u{CBA}', '\u{CBB}');
    push_range(v, '\u{CC5}', '\u{CC5}');
    push_range(v, '\u{CC9}', '\u{CC9}');
    push_range(v, '\u{CCE}', '\u{CD4}');
    push_range(v, '\u{CD7}', '\u{CDC}');
    push_range(v, '\u{CDF}', '\u{CDF}');
    push_range(v, '\u{CE4}', '\u{CE5}');
    assert(rview(v@) =~= o + unassigned_chunk_14());
}

fn push_unassigned_chunk_15(v: &mut Vec<ClassUnicodeRange>)
    ensures
        rview(final(v)@) == rview(old(v)@) + unassigned_chunk_15(),
{
    let ghost o = rview(v@);
    push_range(v, '\u{CF0}', '\u{CF0}');
    push_range(v, '\u{CF4}', '\u{CFF}');
    push_range(v, '\u{D0D}', '\u{D0D}');
    push_range(v, '\u{D11}', '\u{D11}');
    push_range(v, '\u{D45}', '\u{D45}');
    push_range(v, '\u{D49}', '\u{D49}');
    push_range(v, '\u{D50}', '\u{D53}');
    push_range(v, '\u{D64}', '\u{D65}');
    assert(rview(v@) =~= o + unassigned_chunk_15());
}

fn push_unassigned_chunk_16(v: &mut Vec<ClassUnicodeRange>)
    ensures
        rview(final(v)@) == rview(old(v)@) + unassigned_chunk_16(),
{
    let ghost o = rview(v@);
    push_range(v, '\u{D80}', '\u{D80}');
    push_range(v, '\u{D84}', '\u{D84}');
    push_range(v, '\u{D97}', '\u{D99}');
    push_range(v, '\u{DB2}', '\u{DB2}');
    push_range(v, '\u{DBC}', '\u{DBC}');
    push_range(v, '\u{DBE}', '\u{DBF}');
    push_range(v, '\u{DC7}', '\u{DC9}');
    push_range(v, '\u{DCB}', '\u{DCE}');
    assert(rview(v@) =~= o + unassigned_chunk_16());
}

fn push_unassigned_chunk_17(v: &mut Vec<ClassUnicodeRange>)
    ensures
        rview(final(v)@) == rview(old(v)@) + unassigned_chunk_17(),
{
    let ghost o = rview(v@);
    push_range(v, '\u{DD5}', '\u{DD5}');
    push_range(v, '\u{DD7}', '\u{DD7}');
    push_range(v, '\u{DE0}', '\u{DE5}');
    push_range(v, '\u{DF0}', '\u{DF1}');
    push_range(v, '\u{DF5}', '\u{E00}');
    push_range(v, '\u{E3B}', '\u{E3E}');
    push_range(v, '\u{E5C}', '\u{E80}');
    push_range(v, '\u{E83}', '\u{E83}');
    assert(rview(v@) =~= o + unassigned_chunk_17());
}

fn push_unassigned_chunk_18(v: &mut Vec<ClassUnicodeRange>)
    ensures
        rview(final(v)@) == rview(old(v)@) + unassigned_chunk_18(),
{
    let ghost o = rview(v@);
    push_range(v, '\u{E85}', '\u{E85}');
    push_range(v, '\u{E8B}', '\u{E8B}');
    push_range(v, '\u{EA4}', '\u{EA4}');
    push_range(v, '\u{EA6}', '\u{EA6}');
    push_range(v, '\u{EBE}', '\u{EBF}');
    push_range(v, '\u{EC5}', '\u{EC5}');
    push_range(v, '\u{EC7}', '\u{EC7}');
    push_range(v, '\u{ECF}', '\u{ECF}');
    assert(rview(v@) =~= o + unassigned_chunk_18());
}

fn push_unassigned_chunk_19(v: &mut Vec<ClassUnicodeRange>)
    ensures
        rview(final(v)@) == rview(old(v)@) + unassigned_chunk_19(),
{
    let ghost o = rview(v@);
    push_range(v, '\u{EDA}', '\u{EDB}');
    push_range(v, '\u{EE0}', '\u{EFF}');
    push_range(v, '\u{F48}', '\u{F48}');
    push_range(v, '\u{F6D}', '\u{F70}');
    push_range(v, '\u{F98}', '\u{F98}');
    push_range(v, '\u{FBD}', '\u{FBD}');
    push_range(v, '\u{FCD}', '\u{FCD}');
    push_range(v, '\u{FDB}', '\u{FFF}');
    assert(rview(v@) =~= o + unassigned_chunk_19());
}

fn push_unassigned_chunk_20(v: &mut Vec<ClassUnicodeRange>)
    ensures
        rview(final(v)@) == rview(old(v)@) + unassigned_chunk_20(),
{
    let ghost o = rview(v@);
    push_range(v, '\u{10C6}', '\u{10C6}');
    push_range(v, '\u{10C8}', '\u{10CC}');
    push_range(v, '\u{10CE}', '\u{10CF}');
    push_range(v, '\u{1249}', '\u{1249}');
    push_range(v, '\u{124E}', '\u{124F}');
    push_range(v, '\u{1257}', '\u{1257}');
    push_range(v, '\u{1259}', '\u{1259}');
    push_range(v, '\u{125E}', '\u{125F}');
    assert(rview(v@) =~= o + unassigned_chunk_20());
}

fn push_unassigned_chunk_21(v: &mut Vec<ClassUnicodeRange>)
    ensures
        rview(final(v)@) == rview(old(v)@) + unassigned_chunk_21(),
{
    let ghost o = rview(v@);
    push_range(v, '\u{1289}', '\u{1289}');
    push_range(v, '\u{128E}', '\u{128F}');
    push_range(v, '\u{12B1}', '\u{12B1}');
    push_range(v, '\u{12B6}', '\u{12B7}');
    push_range(v, '\u{12BF}', '\u{12BF}');
    push_range(v, '\u{12C1}', '\u{12C1}');
    push_range(v, '\u{12C6}', '\u{12C7}');
    push_range(v, '\u{12D7}', '\u{12D7}');
    assert(rview(v@) =~= o + unassigned_chunk_21());
}

fn push_unassigned_chunk_22(v: &mut Vec<ClassUnicodeRange>)
    ensures
        rview(final(v)@) == rview(old(v)@) + unassigned_chunk_22(),
{
    let ghost o = rview(v@);
    push_range(v, '\u{1311}', '\u{1311}');
    push_range(v, '\u{1316}', '\u{1317}');
    push_range(v, '\u{135B}', '\u{135C}');
    push_range(v, '\u{137D}', '\u{137F}');
    push_range(v, '\u{139A}', '\u{139F}');
    push_range(v, '\u{13F6}', '\u{13F7}');
    push_range(v, '\u{13FE}', '\u{13FF}');
    push_range(v, '\u{169D}', '\u{169F}');
    assert(rview(v@) =~= o + unassigned_chunk_22());
}

fn push_unassigned_chunk_23(v: &mut Vec<ClassUnicodeRange>)
    ensures
        rview(final(v)@) == rview(old(v)@) + unassigned_chunk_23(),
{
    let ghost o = rview(v@);
    push_range(v, '\u{16F9}', '\u{16FF}');
    push_range(v, '\u{1716}', '\u{171E}');
    push_range(v, '\u{1737}', '\u{173F}');
    push_range(v, '\u{1754}', '\u{175F}');
    push_range(v, '\u{176D}', '\u{176D}');
    push_range(v, '\u{1771}', '\u{1771}');
    push_range(v, '\u{1774}', '\u{177F}');
    push_range(v, '\u{17DE}', '\u{17DF}');
    assert(rview(v@) =~= o + unassigned_chunk_23());
}

fn push_unassigned_chunk_24(v: &mut Vec<ClassUnicodeRange>)
    ensures
        rview(final(v)@) == rview(old(v)@) + unassigned_chunk_24(),
{
    let ghost o = rview(v@);
    push_range(v, '\u{17EA}', '\u{17EF}');
    push_range(v, '\u{17FA}', '\u{17FF}');
    push_range(v, '\u{181A}', '\u{181F}');
    push_range(v, '\u{1879}', '\u{187F}');
    push_range(v, '\u{18AB}', '\u{18AF}');
    push_range(v, '\u{18F6}', '\u{18FF}');
    push_range(v, '\u{191F}', '\u{191F}');
    push_range(v, '\u{192C}', '\u{192F}');
    assert(rview(v@) =~= o + unassigned_chunk_24());
}

fn push_unassigned_chunk_25(v: &mut Vec<ClassUnicodeRange>)
    ensures
        rview(final(v)@) == rview(old(v)@) + unassigned_chunk_25(),
{
    let ghost o = rview(v@);
    push_range(v, '\u{193C}', '\u{193F}');
    push_range(v, '\u{1941}', '\u{1943}');
    push_range(v, '\u{196E}', '\u{196F}');
    push_range(v, '\u{1975}', '\u{197F}');
    push_range(v, '\u{19AC}', '\u{19AF}');
    push_range(v, '\u{19CA}', '\u{19CF}');
    push_range(v, '\u{19DB}', '\u{19DD}');
    push_range(v, '\u{1A1C}', '\u{1A1D}');
    assert(rview(v@) =~= o + unassigned_chunk_25());
}

fn push_unassigned_chunk_26(v: &mut Vec<ClassUnicodeRange>)
    ensures
        rview(final(v)@) == rview(old(v)@) + unassigned_chunk_26(),
{
    let ghost o = rview(v@);
    push_range(v, '\u{1A5F}', '\u{1A5F}');
    push_range(v, '\u{1A7D}', '\u{1A7E}');
    push_range(v, '\u{1A8A}', '\u{1A8F}');
    push_range(v, '\u{1A9A}', '\u{1A9F}');
    push_range(v, '\u{1AAE}', '\u{1AAF}');
    push_range(v, '\u{1ACF}', '\u{1AFF}');
    push_range(v, '\u{1B4D}', '\u{1B4D}');
    push_range(v, '\u{1BF4}', '\u{1BFB}');
    assert(rview(v@) =~= o + unassigned_chunk_26());
}

fn push_unassigned_chunk_27(v: &mut Vec<ClassUnicodeRange>)
    ensures
        rview(final(v)@) == rview(old(v)@) + unassigned_chunk_27(),
{
    let ghost o = rview(v@);
    push_range(v, '\u{1C38}', '\u{1C3A}');
    push_range(v, '\u{1C4A}', '\u{1C4C}');
    push_range(v, '\u{1C8B}', '\u{1C8F}');
    push_range(v, '\u{1CBB}', '\u{1CBC}');
    push_range(v, '\u{1CC8}', '\u{1CCF}');
    push_range(v, '\u{1CFB}', '\u{1CFF}');
    push_range(v, '\u{1F16}', '\u{1F17}');
    push_range(v, '\u{1F1E}', '\u{1F1F}');
    assert(rview(v@) =~= o + unassigned_chunk_27());
}

fn push_unassigned_chunk_28(v: &mut Vec<ClassUnicodeRange>)
    ensures
        rview(final(v)@) == rview(old(v)@) + unassigned_chunk_28(),
{
    let ghost o = rview(v@);
    push_range(v, '\u{1F46}', '\u{1F47}');
    push_range(v, '\u{1F4E}', '\u{1F4F}');
    push_range(v, '\u{1F58}', '\u{1F58}');
    push_range(v, '\u{1F5A}', '\u{1F5A}');
    push_range(v, '\u{1F5C}', '\u{1F5C}');
    push_range(v, '\u{1F5E}', '\u{1F5E}');
    push_range(v, '\u{1F7E}', '\u{1F7F}');
    push_range(v, '\u{1FB5}', '\u{1FB5}');
    assert(rview(v@) =~= o + unassigned_chunk_28());
}

fn push_unassigned_chunk_29(v: &mut Vec<ClassUnicodeRange>)
    ensures
        rview(final(v)@) == rview(old(v)@) + unassigned_chunk_29(),
{
    let ghost o = rview(v@);
    push_range(v, '\u{1FC5}', '\u{1FC5}');
    push_range(v, '\u{1FD4}', '\u{1FD5}');
    push_range(v, '\u{1FDC}', '\u{1FDC}');
    push_range(v, '\u{1FF0}', '\u{1FF1}');
    push_range(v, '\u{1FF5}', '\u{1FF5}');
    push_range(v, '\u{1FFF}', '\u{1FFF}');
    push_range(v, '\u{2065}', '\u{2065}');
    push_range(v, '\u{2072}', '\u{2073}');
    assert(rview(v@) =~= o + unassigned_chunk_29());
}

fn push_unassigned_chunk_30(v: &mut Vec<ClassUnicodeRange>)
    ensures
        rview(final(v)@) == rview(old(v)@) + unassigned_chunk_30(),
{
    let ghost o = rview(v@);
    push_range(v, '\u{208F}', '\u{208F}');
    push_range(v, '\u{209D}', '\u{209F}');
    push_range(v, '\u{20C1}', '\u{20CF}');
    push_range(v, '\u{20F1}', '\u{20FF}');
    push_range(v, '\u{218C}', '\u{218F}');
    push_range(v, '\u{242A}', '\u{243F}');
    push_range(v, '\u{244B}', '\u{245F}');
    push_range(v, '\u{2B74}', '\u{2B75}');
    assert(rview(v@) =~= o + unassigned_chunk_30());
}

fn push_unassigned_chunk_31(v: &mut Vec<ClassUnicodeRange>)
    ensures
        rview(final(v)@) == rview(old(v)@) + unassigned_chunk_31(),
{
    let ghost o = rview(v@);
    push_range(v, '\u{2B96}', '\u{2B96}');
    push_range(v, '\u{2CF4}', '\u{2CF8}');
    push_range(v, '\u{2D26}', '\u{2D26}');
    push_range(v, '\u{2D28}', '\u{2D2C}');
    push_range(v, '\u{2D2E}', '\u{2D2F}');
    push_range(v, '\u{2D68}', '\u{2D6E}');
    push_range(v, '\u{2D71}', '\u{2D7E}');
    push_range(v, '\u{2D97}', '\u{2D9F}');
    assert(rview(v@) =~= o + unassigned_chunk_31());
}

fn push_unassigned_chunk_32(v: &mut Vec<ClassUnicodeRange>)
    ensures
        rview(final(v)@) == rview(old(v)@) + unassigned_chunk_32(),
{
    let ghost o = rview(v@);
    push_range(v, '\u{2DA7}', '\u{2DA7}');
    push_range(v, '\u{2DAF}', '\u{2DAF}');
    push_range(v, '\u{2DB7}', '\u{2DB7}');
    push_range(v, '\u{2DBF}', '\u{2DBF}');
    push_range(v, '\u{2DC7}', '\u{2DC7}');
    push_range(v, '\u{2DCF}', '\u{2DCF}');
    push_range(v, '\u{2DD7}', '\u{2DD7}');
    push_range(v, '\u{2DDF}', '\u{2DDF}');
    assert(rview(v@) =~= o + unassigned_chunk_32());
}

fn push_unassigned_chunk_33(v: &mut Vec<ClassUnicodeRange>)
    ensures
        rview(final(v)@) == rview(old(v)@) + unassigned_chunk_33(),
{
    let ghost o = rview(v@);
    push_range(v, '\u{2E5E}', '\u{2E7F}');
    push_range(v, '\u{2E9A}', '\u{2E9A}');
    push_range(v, '\u{2EF4}', '\u{2EFF}');
    push_range(v, '\u{2FD6}', '\u{2FEF}');
    push_range(v, '\u{3040}', '\u{3040}');
    push_range(v, '\u{3097}', '\u{3098}');
    push_range(v, '\u{3100}', '\u{3104}');
    push_range(v, '\u{3130}', '\u{3130}');
    assert(rview(v@) =~= o + unassigned_chunk_33());
}

fn push_unassigned_chunk_34(v: &mut Vec<ClassUnicodeRange>)
    ensures
        rview(final(v)@) == rview(old(v)@) + unassigned_chunk_34(),
{
    let ghost o = rview(v@);
    push_range(v, '\u{318F}', '\u{318F}');
    push_range(v, '\u{31E6}', '\u{31EE}');
    push_range(v, '\u{321F}', '\u{321F}');
    push_range(v, '\u{A48D}', '\u{A48F}');
    push_range(v, '\u{A4C7}', '\u{A4CF}');
    push_range(v, '\u{A62C}', '\u{A63F}');
    push_range(v, '\u{A6F8}', '\u{A6FF}');
    push_range(v, '\u{A7CE}', '\u{A7CF}');
    assert(rview(v@) =~= o + unassigned_chunk_34());
}

fn push_unassigned_chunk_35(v: &mut Vec<ClassUnicodeRange>)
    ensures
        rview(final(v)@) == rview(old(v)@) + unassigned_chunk_35(),
{
    let ghost o = rview(v@);
    push_range(v, '\u{A7D2}', '\u{A7D2}');
    push_range(v, '\u{A7D4}', '\u{A7D4}');
    push_range(v, '\u{A7DD}', '\u{A7F1}');
    push_range(v, '\u{A82D}', '\u{A82F}');
    push_range(v, '\u{A83A}', '\u{A83F}');
    push_range(v, '\u{A878}', '\u{A87F}');
    push_range(v, '\u{A8C6}', '\u{A8CD}');
    push_range(v, '\u{A8DA}', '\u{A8DF}');
    assert(rview(v@) =~= o + unassigned_chunk_35());
}

fn push_unassigned_chunk_36(v: &mut Vec<ClassUnicodeRange>)
    ensures
        rview(final(v)@) == rview(old(v)@) + unassigned_chunk_36(),
{
    let ghost o = rview(v@);
    push_range(v, '\u{A954}', '\u{A95E}');
    push_range(v, '\u{A97D}', '\u{A97F}');
    push_range(v, '\u{A9CE}', '\u{A9CE}');
    push_range(v, '\u{A9DA}', '\u{A9DD}');
    push_range(v, '\u{A9FF}', '\u{A9FF}');
    push_range(v, '\u{AA37}', '\u{AA3F}');
    push_range(v, '\u{AA4E}', '\u{AA4F}');
    push_range(v, '\u{AA5A}', '\u{AA5B}');
    assert(rview(v@) =~= o + unassigned_chunk_36());
}

fn push_unassigned_chunk_37(v: &mut Vec<ClassUnicodeRange>)
    ensures
        rview(final(v)@) == rview(old(v)@) + unassigned_chunk_37(),
{
    let ghost o = rview(v@);
    push_range(v, '\u{AAC3}', '\u{AADA}');
    push_range(v, '\u{AAF7}', '\u{AB00}');
    push_range(v, '\u{AB07}', '\u{AB08}');
    push_range(v, '\u{AB0F}', '\u{AB10}');
    push_range(v, '\u{AB17}', '\u{AB1F}');
    push_range(v, '\u{AB27}', '\u{AB27}');
    push_range(v, '\u{AB2F}', '\u{AB2F}');
    push_range(v, '\u{AB6C}', '\u{AB6F}');
    assert(rview(v@) =~= o + unassigned_chunk_37());
}

fn push_unassigned_chunk_38(v: &mut Vec<ClassUnicodeRange>)
    ensures
        rview(final(v)@) == rview(old(v)@) + unassigned_chunk_38(),
{
    let ghost o = rview(v@);
    push_range(v, '\u{ABEE}', '\u{ABEF}');
    push_range(v, '\u{ABFA}', '\u{ABFF}');
    push_range(v, '\u{D7A4}', '\u{D7AF}');
    push_range(v, '\u{D7C7}', '\u{D7CA}');
    push_range(v, '\u{D7FC}', '\u{D7FF}');
    push_range(v, '\u{FA6E}', '\u{FA6F}');
    push_range(v, '\u{FADA}', '\u{FAFF}');
    push_range(v, '\u{FB07}', '\u{FB12}');
    assert(rview(v@) =~= o + unassigned_chunk_38());
}

fn push_unassigned_chunk_39(v: &mut Vec<ClassUnicodeRange>)
    ensures
        rview(final(v)@) == rview(old(v)@) + unassigned_chunk_39(),
{
    let ghost o = rview(v@);
    push_range(v, '\u{FB18}', '\u{FB1C}');
    push_range(v, '\u{FB37}', '\u{FB37}');
    push_range(v, '\u{FB3D}', '\u{FB3D}');
    push_range(v, '\u{FB3F}', '\u{FB3F}');
    push_range(v, '\u{FB42}', '\u{FB42}');
    push_range(v, '\u{FB45}', '\u{FB45}');
    push_range(v, '\u{FBC3}', '\u{FBD2}');
    push_range(v, '\u{FD90}', '\u{FD91}');
    assert(rview(v@) =~= o + unassigned_chunk_39());
}

fn push_unassigned_chunk_40(v: &mut Vec<ClassUnicodeRange>)
    ensures
        rview(final(v)@) == rview(old(v)@) + unassigned_chunk_40(),
{
    let ghost o = rview(v@);
    push_range(v, '\u{FDC8}', '\u{FDCE}');
    push_range(v, '\u{FDD0}', '\u{FDEF}');
    push_range(v, '\u{FE1A}', '\u{FE1F}');
    push_range(v, '\u{FE53}', '\u{FE53}');
    push_range(v, '\u{FE67}', '\u{FE67}');
    push_range(v, '\u{FE6C}', '\u{FE6F}');
    push_range(v, '\u{FE75}', '\u{FE75}');
    push_range(v, '\u{FEFD}', '\u{FEFE}');
    assert(rview(v@) =~= o + unassigned_chunk_40());
}

fn push_unassigned_chunk_41(v: &mut Vec<ClassUnicodeRange>)
    ensures
        rview(final(v)@) == rview(old(v)@) + unassigned_chunk_41(),
{
    let ghost o = rview(v@);
    push_range(v, '\u{FF00}', '\u{FF00}');
    push_range(v, '\u{FFBF}', '\u{FFC1}');
    push_range(v, '\u{FFC8}', '\u{FFC9}');
    push_range(v, '\u{FFD0}', '\u{FFD1}');
    push_range(v, '\u{FFD8}', '\u{FFD9}');
    push_range(v, '\u{FFDD}', '\u{FFDF}');
    push_range(v, '\u{FFE7}', '\u{FFE7}');
    push_range(v, '\u{FFEF}', '\u{FFF8}');
    assert(rview(v@) =~= o + unassigned_chunk_41());
}

fn push_unassigned_chunk_42(v: &mut Vec<ClassUnicodeRange>)
    ensures
        rview(final(v)@) == rview(old(v)@) + unassigned_chunk_42(),
{
    let ghost o = rview(v@);
    push_range(v, '\u{FFFE}', '\u{FFFF}');
    push_range(v, '\u{1000C}', '\u{1000C}');
    push_range(v, '\u{10027}', '\u{10027}');
    push_range(v, '\u{1003B}', '\u{1003B}');
    push_range(v, '\u{1003E}', '\u{1003E}');
    push_range(v, '\u{1004E}', '\u{1004F}');
    push_range(v, '\u{1005E}', '\u{1007F}');
    push_range(v, '\u{100FB}', '\u{100FF}');
    assert(rview(v@) =~= o + unassigned_chunk_42());
}

fn push_unassigned_chunk_43(v: &mut Vec<ClassUnicodeRange>)
    ensures
        rview(final(v)@) == rview(old(v)@) + unassigned_chunk_43(),
{
    let ghost o = rview(v@);
    push_range(v, '\u{10103}', '\u{10106}');
    push_range(v, '\u{10134}', '\u{10136}');
    push_range(v, '\u{1018F}', '\u{1018F}');
    push_range(v, '\u{1019D}', '\u{1019F}');
    push_range(v, '\u{101A1}', '\u{101CF}');
    push_range(v, '\u{101FE}', '\u{1027F}');
    push_range(v, '\u{1029D}', '\u{1029F}');
    push_range(v, '\u{102D1}', '\u{102DF}');
    assert(rview(v@) =~= o + unassigned_chunk_43());
}

fn push_unassigned_chunk_44(v: &mut Vec<ClassUnicodeRange>)
    ensures
        rview(final(v)@) == rview(old(v)@) + unassigned_chunk_44(),
{
    let ghost o = rview(v@);
    push_range(v, '\u{102FC}', '\u{102FF}');
    push_range(v, '\u{10324}', '\u{1032C}');
    push_range(v, '\u{1034B}', '\u{1034F}');
    push_range(v, '\u{1037B}', '\u{1037F}');
    push_range(v, '\u{1039E}', '\u{1039E}');
    push_range(v, '\u{103C4}', '\u{103C7}');
    push_range(v, '\u{103D6}', '\u{103FF}');
    push_range(v, '\u{1049E}', '\u{1049F}');
    assert(rview(v@) =~= o + unassigned_chunk_44());
}

fn push_unassigned_chunk_45(v: &mut Vec<ClassUnicodeRange>)
    ensures
        rview(final(v)@) == rview(old(v)@) + unassigned_chunk_45(),
{
    let ghost o = rview(v@);
    push_range(v, '\u{104AA}', '\u{104AF}');
    push_range(v, '\u{104D4}', '\u{104D7}');
    push_range(v, '\u{104FC}', '\u{104FF}');
    push_range(v, '\u{10528}', '\u{1052F}');
    push_range(v, '\u{10564}', '\u{1056E}');
    push_range(v, '\u{1057B}', '\u{1057B}');
    push_range(v, '\u{1058B}', '\u{1058B}');
    push_range(v, '\u{10593}', '\u{10593}');
    assert(rview(v@) =~= o + unassigned_chunk_45());
}

fn push_unassigned_chunk_46(v: &mut Vec<ClassUnicodeRange>)
    ensures
        rview(final(v)@) == rview(old(v)@) + unassigned_chunk_46(),
{
    let ghost o = rview(v@);
    push_range(v, '\u{10596}', '\u{10596}');
    push_range(v, '\u{105A2}', '\u{105A2}');
    push_range(v, '\u{105B2}', '\u{105B2}');
    push_range(v, '\u{105BA}', '\u{105BA}');
    push_range(v, '\u{105BD}', '\u{105BF}');
    push_range(v, '\u{105F4}', '\u{105FF}');
    push_range(v, '\u{10737}', '\u{1073F}');
    push_range(v, '\u{10756}', '\u{1075F}');
    assert(rview(v@) =~= o + unassigned_chunk_46());
}

fn push_unassigned_chunk_47(v: &mut Vec<ClassUnicodeRange>)
    ensures
        rview(final(v)@) == rview(old(v)@) + unassigned_chunk_47(),
{
    let ghost o = rview(v@);
    push_range(v, '\u{10768}', '\u{1077F}');
    push_range(v, '\u{10786}', '\u{10786}');
    push_range(v, '\u{107B1}', '\u{107B1}');
    push_range(v, '\u{107BB}', '\u{107FF}');
    push_range(v, '\u{10806}', '\u{10807}');
    push_range(v, '\u{10809}', '\u{10809}');
    push_range(v, '\u{10836}', '\u{10836}');
    push_range(v, '\u{10839}', '\u{1083B}');
    assert(rview(v@) =~= o + unassigned_chunk_47());
}

fn push_unassigned_chunk_48(v: &mut Vec<ClassUnicodeRange>)
    ensures
        rview(final(v)@) == rview(old(v)@) + unassigned_chunk_48(),
{
    let ghost o = rview(v@);
    push_range(v, '\u{1083D}', '\u{1083E}');
    push_range(v, '\u{10856}', '\u{10856}');
    push_range(v, '\u{1089F}', '\u{108A6}');
    push_range(v, '\u{108B0}', '\u{108DF}');
    push_range(v, '\u{108F3}', '\u{108F3}');
    push_range(v, '\u{108F6}', '\u{108FA}');
    push_range(v, '\u{1091C}', '\u{1091E}');
    push_range(v, '\u{1093A}', '\u{1093E}');
    assert(rview(v@) =~= o + unassigned_chunk_48());
}

fn push_unassigned_chunk_49(v: &mut Vec<ClassUnicodeRange>)
    ensures
        rview(final(v)@) == rview(old(v)@) + unassigned_chunk_49(),
{
    let ghost o = rview(v@);
    push_range(v, '\u{10940}', '\u{1097F}');
    push_range(v, '\u{109B8}', '\u{109BB}');
    push_range(v, '\u{109D0}', '\u{109D1}');
    push_range(v, '\u{10A04}', '\u{10A04}');
    push_range(v, '\u{10A07}', '\u{10A0B}');
    push_range(v, '\u{10A14}', '\u{10A14}');
    push_range(v, '\u{10A18}', '\u{10A18}');
    push_range(v, '\u{10A36}', '\u{10A37}');
    assert(rview(v@) =~= o + unassigned_chunk_49());
}

fn push_unassigned_chunk_50(v: &mut Vec<ClassUnicodeRange>)
    ensures
        rview(final(v)@) == rview(old(v)@) + unassigned_chunk_50(),
{
    let ghost o = rview(v@);
    push_range(v, '\u{10A3B}', '\u{10A3E}');
    push_range(v, '\u{10A49}', '\u{10A4F}');
    push_range(v, '\u{10A59}', '\u{10A5F}');
    push_range(v, '\u{10AA0}', '\u{10ABF}');
    push_range(v, '\u{10AE7}', '\u{10AEA}');
    push_range(v, '\u{10AF7}', '\u{10AFF}');
    push_range(v, '\u{10B36}', '\u{10B38}');
    push_range(v, '\u{10B56}', '\u{10B57}');
    assert(rview(v@) =~= o + unassigned_chunk_50());
}

fn push_unassigned_chunk_51(v: &mut Vec<ClassUnicodeRange>)
    ensures
        rview(final(v)@) == rview(old(v)@) + unassigned_chunk_51(),
{
    let ghost o = rview(v@);
    push_range(v, '\u{10B73}', '\u{10B77}');
    push_range(v, '\u{10B92}', '\u{10B98}');
    push_range(v, '\u{10B9D}', '\u{10BA8}');
    push_range(v, '\u{10BB0}', '\u{10BFF}');
    push_range(v, '\u{10C49}', '\u{10C7F}');
    push_range(v, '\u{10CB3}', '\u{10CBF}');
    push_range(v, '\u{10CF3}', '\u{10CF9}');
    push_range(v, '\u{10D28}', '\u{10D2F}');
    assert(rview(v@) =~= o + unassigned_chunk_51());
}

fn push_unassigned_chunk_52(v: &mut Vec<ClassUnicodeRange>)
    ensures
        rview(final(v)@) == rview(old(v)@) + unassigned_chunk_52(),
{
    let ghost o = rview(v@);
    push_range(v, '\u{10D3A}', '\u{10D3F}');
    push_range(v, '\u{10D66}', '\u{10D68}');
    push_range(v, '\u{10D86}', '\u{10D8D}');
    push_range(v, '\u{10D90}', '\u{10E5F}');
    push_range(v, '\u{10E7F}', '\u{10E7F}');
    push_range(v, '\u{10EAA}', '\u{10EAA}');
    push_range(v, '\u{10EAE}', '\u{10EAF}');
    push_range(v, '\u{10EB2}', '\u{10EC1}');
    assert(rview(v@) =~= o + unassigned_chunk_52());
}

fn push_unassigned_chunk_53(v: &mut Vec<ClassUnicodeRange>)
    ensures
        rview(final(v)@) == rview(old(v)@) + unassigned_chunk_53(),
{
    let ghost o = rview(v@);
    push_range(v, '\u{10EC5}', '\u{10EFB}');
    push_range(v, '\u{10F28}', '\u{10F2F}');
    push_range(v, '\u{10F5A}', '\u{10F6F}');
    push_range(v, '\u{10F8A}', '\u{10FAF}');
    push_range(v, '\u{10FCC}', '\u{10FDF}');
    push_range(v, '\u{10FF7}', '\u{10FFF}');
    push_range(v, '\u{1104E}', '\u{11051}');
    push_range(v, '\u{11076}', '\u{1107E}');
    assert(rview(v@) =~= o + unassigned_chunk_53());
}

fn push_unassigned_chunk_54(v: &mut Vec<ClassUnicodeRange>)
    ensures
        rview(final(v)@) == rview(old(v)@) + unassigned_chunk_54(),
{
    let ghost o = rview(v@);
    push_range(v, '\u{110C3}', '\u{110CC}');
    push_range(v, '\u{110CE}', '\u{110CF}');
    push_range(v, '\u{110E9}', '\u{110EF}');
    push_range(v, '\u{110FA}', '\u{110FF}');
    push_range(v, '\u{11135}', '\u{11135}');
    push_range(v, '\u{11148}', '\u{1114F}');
    push_range(v, '\u{11177}', '\u{1117F}');
    push_range(v, '\u{111E0}', '\u{111E0}');
    assert(rview(v@) =~= o + unassigned_chunk_54());
}

fn push_unassigned_chunk_55(v: &mut Vec<ClassUnicodeRange>)
    ensures
        rview(final(v)@) == rview(old(v)@) + unassigned_chunk_55(),
{
    let ghost o = rview(v@);
    push_range(v, '\u{111F5}', '\u{111FF}');
    push_range(v, '\u{11212}', '\u{11212}');
    push_range(v, '\u{11242}', '\u{1127F}');
    push_range(v, '\u{11287}', '\u{11287}');
    push_range(v, '\u{11289}', '\u{11289}');
    push_range(v, '\u{1128E}', '\u{1128E}');
    push_range(v, '\u{1129E}', '\u{1129E}');
    push_range(v, '\u{112AA}', '\u{112AF}');
    assert(rview(v@) =~= o + unassigned_chunk_55());
}

fn push_unassigned_chunk_56(v: &mut Vec<ClassUnicodeRange>)
    ensures
        rview(final(v)@) == rview(old(v)@) + unassigned_chunk_56(),
{
    let ghost o = rview(v@);
    push_range(v, '\u{112EB}', '\u{112EF}');
    push_range(v, '\u{112FA}', '\u{112FF}');
    push_range(v, '\u{11304}', '\u{11304}');
    push_range(v, '\u{1130D}', '\u{1130E}');
    push_range(v, '\u{11311}', '\u{11312}');
    push_range(v, '\u{11329}', '\u{11329}');
    push_range(v, '\u{11331}', '\u{11331}');
    push_range(v, '\u{11334}', '\u{11334}');
    assert(rview(v@) =~= o + unassigned_chunk_56());
}

fn push_unassigned_chunk_57(v: &mut Vec<ClassUnicodeRange>)
    ensures
        rview(final(v)@) == rview(old(v)@) + unassigned_chunk_57(),
{
    let ghost o = rview(v@);
    push_range(v, '\u{1133A}', '\u{1133A}');
    push_range(v, '\u{11345}', '\u{11346}');
    push_range(v, '\u{11349}', '\u{1134A}');
    push_range(v, '\u{1134E}', '\u{1134F}');
    push_range(v, '\u{11351}', '\u{11356}');
    push_range(v, '\u{11358}', '\u{1135C}');
    push_range(v, '\u{11364}', '\u{11365}');
    push_range(v, '\u{1136D}', '\u{1136F}');
    assert(rview(v@) =~= o + unassigned_chunk_57());
}

fn push_unassigned_chunk_58(v: &mut Vec<ClassUnicodeRange>)
    ensures
        rview(final(v)@) == rview(old(v)@) + unassigned_chunk_58(),
{
    let ghost o = rview(v@);
    push_range(v, '\u{11375}', '\u{1137F}');
    push_range(v, '\u{1138A}', '\u{1138A}');
    push_range(v, '\u{1138C}', '\u{1138D}');
    push_range(v, '\u{1138F}', '\u{1138F}');
    push_range(v, '\u{113B6}', '\u{113B6}');
    push_range(v, '\u{113C1}', '\u{113C1}');
    push_range(v, '\u{113C3}', '\u{113C4}');
    push_range(v, '\u{113C6}', '\u{113C6}');
    assert(rview(v@) =~= o + unassigned_chunk_58());
}

fn push_unassigned_chunk_59(v: &mut Vec<ClassUnicodeRange>)
    ensures
        rview(final(v)@) == rview(old(v)@) + unassigned_chunk_59(),
{
    let ghost o = rview(v@);
    push_range(v, '\u{113CB}', '\u{113CB}');
    push_range(v, '\u{113D6}', '\u{113D6}');
    push_range(v, '\u{113D9}', '\u{113E0}');
    push_range(v, '\u{113E3}', '\u{113FF}');
    push_range(v, '\u{1145C}', '\u{1145C}');
    push_range(v, '\u{11462}', '\u{1147F}');
    push_range(v, '\u{114C8}', '\u{114CF}');
    push_range(v, '\u{114DA}', '\u{1157F}');
    assert(rview(v@) =~= o + unassigned_chunk_59());
}

fn push_unassigned_chunk_60(v: &mut Vec<ClassUnicodeRange>)
    ensures
        rview(final(v)@) == rview(old(v)@) + unassigned_chunk_60(),
{
    let ghost o = rview(v@);
    push_range(v, '\u{115B6}', '\u{115B7}');
    push_range(v, '\u{115DE}', '\u{115FF}');
    push_range(v, '\u{11645}', '\u{1164F}');
    push_range(v, '\u{1165A}', '\u{1165F}');
    push_range(v, '\u{1166D}', '\u{1167F}');
    push_range(v, '\u{116BA}', '\u{116BF}');
    push_range(v, '\u{116CA}', '\u{116CF}');
    push_range(v, '\u{116E4}', '\u{116FF}');
    assert(rview(v@) =~= o + unassigned_chunk_60());
}

fn push_unassigned_chunk_61(v: &mut Vec<ClassUnicodeRange>)
    ensures
        rview(final(v)@) == rview(old(v)@) + unassigned_chunk_61(),
{
    let ghost o = rview(v@);
    push_range(v, '\u{1171B}', '\u{1171C}');
    push_range(v, '\u{1172C}', '\u{1172F}');
    push_range(v, '\u{11747}', '\u{117FF}');
    push_range(v, '\u{1183C}', '\u{1189F}');
    push_range(v, '\u{118F3}', '\u{118FE}');
    push_range(v, '\u{11907}', '\u{11908}');
    push_range(v, '\u{1190A}', '\u{1190B}');
    push_range(v, '\u{11914}', '\u{11914}');
    assert(rview(v@) =~= o + unassigned_chunk_61());
}

fn push_unassigned_chunk_62(v: &mut Vec<ClassUnicodeRange>)
    ensures
        rview(final(v)@) == rview(old(v)@) + unassigned_chunk_62(),
{
    let ghost o = rview(v@);
    push_range(v, '\u{11917}', '\u{11917}');
    push_range(v, '\u{11936}', '\u{11936}');
    push_range(v, '\u{11939}', '\u{1193A}');
    push_range(v, '\u{11947}', '\u{1194F}');
    push_range(v, '\u{1195A}', '\u{1199F}');
    push_range(v, '\u{119A8}', '\u{119A9}');
    push_range(v, '\u{119D8}', '\u{119D9}');
    push_range(v, '\u{119E5}', '\u{119FF}');
    assert(rview(v@) =~= o + unassigned_chunk_62());
}

fn push_unassigned_chunk_63(v: &mut Vec<ClassUnicodeRange>)
    ensures
        rview(final(v)@) == rview(old(v)@) + unassigned_chunk_63(),
{
    let ghost o = rview(v@);
    push_range(v, '\u{11A48}', '\u{11A4F}');
    push_range(v, '\u{11AA3}', '\u{11AAF}');
    push_range(v, '\u{11AF9}', '\u{11AFF}');
    push_range(v, '\u{11B0A}', '\u{11BBF}');
    push_range(v, '\u{11BE2}', '\u{11BEF}');
    push_range(v, '\u{11BFA}', '\u{11BFF}');
    push_range(v, '\u{11C09}', '\u{11C09}');
    push_range(v, '\u{11C37}', '\u{11C37}');
    assert(rview(v@) =~= o + unassigned_chunk_63());
}

fn push_unassigned_chunk_64(v: &mut Vec<ClassUnicodeRange>)
    ensures
        rview(final(v)@) == rview(old(v)@) + unassigned_chunk_64(),
{
    let ghost o = rview(v@);
    push_range(v, '\u{11C46}', '\u{11C4F}');
    push_range(v, '\u{11C6D}', '\u{11C6F}');
    push_range(v, '\u{11C90}', '\u{11C91}');
    push_range(v, '\u{11CA8}', '\u{11CA8}');
    push_range(v, '\u{11CB7}', '\u{11CFF}');
    push_range(v, '\u{11D07}', '\u{11D07}');
    push_range(v, '\u{11D0A}', '\u{11D0A}');
    push_range(v, '\u{11D37}', '\u{11D39}');
    assert(rview(v@) =~= o + unassigned_chunk_64());
}

fn push_unassigned_chunk_65(v: &mut Vec<ClassUnicodeRange>)
    ensures
        rview(final(v)@) == rview(old(v)@) + unassigned_chunk_65(),
{
    let ghost o = rview(v@);
    push_range(v, '\u{11D3B}', '\u{11D3B}');
    push_range(v, '\u{11D3E}', '\u{11D3E}');
    push_range(v, '\u{11D48}', '\u{11D4F}');
    push_range(v, '\u{11D5A}', '\u{11D5F}');
    push_range(v, '\u{11D66}', '\u{11D66}');
    push_range(v, '\u{11D69}', '\u{11D69}');
    push_range(v, '\u{11D8F}', '\u{11D8F}');
    push_range(v, '\u{11D92}', '\u{11D92}');
    assert(rview(v@) =~= o + unassigned_chunk_65());
}

fn push_unassigned_chunk_66(v: &mut Vec<ClassUnicodeRange>)
    ensures
        rview(final(v)@) == rview(old(v)@) + unassigned_chunk_66(),
{
    let ghost o = rview(v@);
    push_range(v, '\u{11D99}', '\u{11D9F}');
    push_range(v, '\u{11DAA}', '\u{11EDF}');
    push_range(v, '\u{11EF9}', '\u{11EFF}');
    push_range(v, '\u{11F11}', '\u{11F11}');
    push_range(v, '\u{11F3B}', '\u{11F3D}');
    push_range(v, '\u{11F5B}', '\u{11FAF}');
    push_range(v, '\u{11FB1}', '\u{11FBF}');
    push_range(v, '\u{11FF2}', '\u{11FFE}');
    assert(rview(v@) =~= o + unassigned_chunk_66());
}

fn push_unassigned_chunk_67(v: &mut Vec<ClassUnicodeRange>)
    ensures
        rview(final(v)@) == rview(old(v)@) + unassigned_chunk_67(),
{
    let ghost o = rview(v@);
    push_range(v, '\u{1239A}', '\u{123FF}');
    push_range(v, '\u{1246F}', '\u{1246F}');
    push_range(v, '\u{12475}', '\u{1247F}');
    push_range(v, '\u{12544}', '\u{12F8F}');
    push_range(v, '\u{12FF3}', '\u{12FFF}');
    push_range(v, '\u{13456}', '\u{1345F}');
    push_range(v, '\u{143FB}', '\u{143FF}');
    push_range(v, '\u{14647}', '\u{160FF}');
    assert(rview(v@) =~= o + unassigned_chunk_67());
}

fn push_unassigned_chunk_68(v: &mut Vec<ClassUnicodeRange>)
    ensures
        rview(final(v)@) == rview(old(v)@) + unassigned_chunk_68(),
{
    let ghost o = rview(v@);
    push_range(v, '\u{1613A}', '\u{167FF}');
    push_range(v, '\u{16A39}', '\u{16A3F}');
    push_range(v, '\u{16A5F}', '\u{16A5F}');
    push_range(v, '\u{16A6A}', '\u{16A6D}');
    push_range(v, '\u{16ABF}', '\u{16ABF}');
    push_range(v, '\u{16ACA}', '\u{16ACF}');
    push_range(v, '\u{16AEE}', '\u{16AEF}');
    push_range(v, '\u{16AF6}', '\u{16AFF}');
    assert(rview(v@) =~= o + unassigned_chunk_68());
}

fn push_unassigned_chunk_69(v: &mut Vec<ClassUnicodeRange>)
    ensures
        rview(final(v)@) == rview(old(v)@) + unassigned_chunk_69(),
{
    let ghost o = rview(v@);
    push_range(v, '\u{16B46}', '\u{16B4F}');
    push_range(v, '\u{16B5A}', '\u{16B5A}');
    push_range(v, '\u{16B62}', '\u{16B62}');
    push_range(v, '\u{16B78}', '\u{16B7C}');
    push_range(v, '\u{16B90}', '\u{16D3F}');
    push_range(v, '\u{16D7A}', '\u{16E3F}');
    push_range(v, '\u{16E9B}', '\u{16EFF}');
    push_range(v, '\u{16F4B}', '\u{16F4E}');
    assert(rview(v@) =~= o + unassigned_chunk_69());
}

fn push_unassigned_chunk_70(v: &mut Vec<ClassUnicodeRange>)
    ensures
        rview(final(v)@) == rview(old(v)@) + unassigned_chunk_70(),
{
    let ghost o = rview(v@);
    push_range(v, '\u{16F88}', '\u{16F8E}');
    push_range(v, '\u{16FA0}', '\u{16FDF}');
    push_range(v, '\u{16FE5}', '\u{16FEF}');
    push_range(v, '\u{16FF2}', '\u{16FFF}');
    push_range(v, '\u{187F8}', '\u{187FF}');
    push_range(v, '\u{18CD6}', '\u{18CFE}');
    push_range(v, '\u{18D09}', '\u{1AFEF}');
    push_range(v, '\u{1AFF4}', '\u{1AFF4}');
    assert(rview(v@) =~= o + unassigned_chunk_70());
}

fn push_unassigned_chunk_71(v: &mut Vec<ClassUnicodeRange>)
    ensures
        rview(final(v)@) == rview(old(v)@) + unassigned_chunk_71(),
{
    let ghost o = rview(v@);
    push_range(v, '\u{1AFFC}', '\u{1AFFC}');
    push_range(v, '\u{1AFFF}', '\u{1AFFF}');
    push_range(v, '\u{1B123}', '\u{1B131}');
    push_range(v, '\u{1B133}', '\u{1B14F}');
    push_range(v, '\u{1B153}', '\u{1B154}');
    push_range(v, '\u{1B156}', '\u{1B163}');
    push_range(v, '\u{1B168}', '\u{1B16F}');
    push_range(v, '\u{1B2FC}', '\u{1BBFF}');
    assert(rview(v@) =~= o + unassigned_chunk_71());
}

fn push_unassigned_chunk_72(v: &mut Vec<ClassUnicodeRange>)
    ensures
        rview(final(v)@) == rview(old(v)@) + unassigned_chunk_72(),
{
    let ghost o = rview(v@);
    push_range(v, '\u{1BC6B}', '\u{1BC6F}');
    push_range(v, '\u{1BC7D}', '\u{1BC7F}');
    push_range(v, '\u{1BC89}', '\u{1BC8F}');
    push_range(v, '\u{1BC9A}', '\u{1BC9B}');
    push_range(v, '\u{1BCA4}', '\u{1CBFF}');
    push_range(v, '\u{1CCFA}', '\u{1CCFF}');
    push_range(v, '\u{1CEB4}', '\u{1CEFF}');
    push_range(v, '\u{1CF2E}', '\u{1CF2F}');
    assert(rview(v@) =~= o + unassigned_chunk_72());
}

fn push_unassigned_chunk_73(v: &mut Vec<ClassUnicodeRange>)
    ensures
        rview(final(v)@) == rview(old(v)@) + unassigned_chunk_73(),
{
    let ghost o = rview(v@);
    push_range(v, '\u{1CF47}', '\u{1CF4F}');
    push_range(v, '\u{1CFC4}', '\u{1CFFF}');
    push_range(v, '\u{1D0F6}', '\u{1D0FF}');
    push_range(v, '\u{1D127}', '\u{1D128}');
    push_range(v, '\u{1D1EB}', '\u{1D1FF}');
    push_range(v, '\u{1D246}', '\u{1D2BF}');
    push_range(v, '\u{1D2D4}', '\u{1D2DF}');
    push_range(v, '\u{1D2F4}', '\u{1D2FF}');
    assert(rview(v@) =~= o + unassigned_chunk_73());
}

fn push_unassigned_chunk_74(v: &mut Vec<ClassUnicodeRange>)
    ensures
        rview(final(v)@) == rview(old(v)@) + unassigned_chunk_74(),
{
    let ghost o = rview(v@);
    push_range(v, '\u{1D357}', '\u{1D35F}');
    push_range(v, '\u{1D379}', '\u{1D3FF}');
    push_range(v, '\u{1D455}', '\u{1D455}');
    push_range(v, '\u{1D49D}', '\u{1D49D}');
    push_range(v, '\u{1D4A0}', '\u{1D4A1}');
    push_range(v, '\u{1D4A3}', '\u{1D4A4}');
    push_range(v, '\u{1D4A7}', '\u{1D4A8}');
    push_range(v, '\u{1D4AD}', '\u{1D4AD}');
    assert(rview(v@) =~= o + unassigned_chunk_74());
}

fn push_unassigned_chunk_75(v: &mut Vec<ClassUnicodeRange>)
    ensures
        rview(final(v)@) == rview(old(v)@) + unassigned_chunk_75(),
{
    let ghost o = rview(v@);
    push_range(v, '\u{1D4BA}', '\u{1D4BA}');
    push_range(v, '\u{1D4BC}', '\u{1D4BC}');
    push_range(v, '\u{1D4C4}', '\u{1D4C4}');
    push_range(v, '\u{1D506}', '\u{1D506}');
    push_range(v, '\u{1D50B}', '\u{1D50C}');
    push_range(v, '\u{1D515}', '\u{1D515}');
    push_range(v, '\u{1D51D}', '\u{1D51D}');
    push_range(v, '\u{1D53A}', '\u{1D53A}');
    assert(rview(v@) =~= o + unassigned_chunk_75());
}

fn push_unassigned_chunk_76(v: &mut Vec<ClassUnicodeRange>)
    ensures
        rview(final(v)@) == rview(old(v)@) + unassigned_chunk_76(),
{
    let ghost o = rview(v@);
    push_range(v, '\u{1D53F}', '\u{1D53F}');
    push_range(v, '\u{1D545}', '\u{1D545}');
    push_range(v, '\u{1D547}', '\u{1D549}');
    push_range(v, '\u{1D551}', '\u{1D551}');
    push_range(v, '\u{1D6A6}', '\u{1D6A7}');
    push_range(v, '\u{1D7CC}', '\u{1D7CD}');
    push_range(v, '\u{1DA8C}', '\u{1DA9A}');
    push_range(v, '\u{1DAA0}', '\u{1DAA0}');
    assert(rview(v@) =~= o + unassigned_chunk_76());
}

fn push_unassigned_chunk_77(v: &mut Vec<ClassUnicodeRange>)
    ensures
        rview(final(v)@) == rview(old(v)@) + unassigned_chunk_77(),
{
    let ghost o = rview(v@);
    push_range(v, '\u{1DAB0}', '\u{1DEFF}');
    push_range(v, '\u{1DF1F}', '\u{1DF24}');
    push_range(v, '\u{1DF2B}', '\u{1DFFF}');
    push_range(v, '\u{1E007}', '\u{1E007}');
    push_range(v, '\u{1E019}', '\u{1E01A}');
    push_range(v, '\u{1E022}', '\u{1E022}');
    push_range(v, '\u{1E025}', '\u{1E025}');
    push_range(v, '\u{1E02B}', '\u{1E02F}');
    assert(rview(v@) =~= o + unassigned_chunk_77());
}

fn push_unassigned_chunk_78(v: &mut Vec<ClassUnicodeRange>)
    ensures
        rview(final(v)@) == rview(old(v)@) + unassigned_chunk_78(),
{
    let ghost o = rview(v@);
    push_range(v, '\u{1E06E}', '\u{1E08E}');
    push_range(v, '\u{1E090}', '\u{1E0FF}');
    push_range(v, '\u{1E12D}', '\u{1E12F}');
    push_range(v, '\u{1E13E}', '\u{1E13F}');
    push_range(v, '\u{1E14A}', '\u{1E14D}');
    push_range(v, '\u{1E150}', '\u{1E28F}');
    push_range(v, '\u{1E2AF}', '\u{1E2BF}');
    push_range(v, '\u{1E2FA}', '\u{1E2FE}');
    assert(rview(v@) =~= o + unassigned_chunk_78());
}

fn push_unassigned_chunk_79(v: &mut Vec<ClassUnicodeRange>)
    ensures
        rview(final(v)@) == rview(old(v)@) + unassigned_chunk_79(),
{
    let ghost o = rview(v@);
    push_range(v, '\u{1E300}', '\u{1E4CF}');
    push_range(v, '\u{1E4FA}', '\u{1E5CF}');
    push_range(v, '\u{1E5FB}', '\u{1E5FE}');
    push_range(v, '\u{1E600}', '\u{1E7DF}');
    push_range(v, '\u{1E7E7}', '\u{1E7E7}');
    push_range(v, '\u{1E7EC}', '\u{1E7EC}');
    push_range(v, '\u{1E7EF}', '\u{1E7EF}');
    push_range(v, '\u{1E7FF}', '\u{1E7FF}');
    assert(rview(v@) =~= o + unassigned_chunk_79());
}

fn push_unassigned_chunk_80(v: &mut Vec<ClassUnicodeRange>)
    ensures
        rview(final(v)@) == rview(old(v)@) + unassigned_chunk_80(),
{
    let ghost o = rview(v@);
    push_range(v, '\u{1E8C5}', '\u{1E8C6}');
    push_range(v, '\u{1E8D7}', '\u{1E8FF}');
    push_range(v, '\u{1E94C}', '\u{1E94F}');
    push_range(v, '\u{1E95A}', '\u{1E95D}');
    push_range(v, '\u{1E960}', '\u{1EC70}');
    push_range(v, '\u{1ECB5}', '\u{1ED00}');
    push_range(v, '\u{1ED3E}', '\u{1EDFF}');
    push_range(v, '\u{1EE04}', '\u{1EE04}');
    assert(rview(v@) =~= o + unassigned_chunk_80());
}

fn push_unassigned_chunk_81(v: &mut Vec<ClassUnicodeRange>)
    ensures
        rview(final(v)@) == rview(old(v)@) + unassigned_chunk_81(),
{
    let ghost o = rview(v@);
    push_range(v, '\u{1EE20}', '\u{1EE20}');
    push_range(v, '\u{1EE23}', '\u{1EE23}');
    push_range(v, '\u{1EE25}', '\u{1EE26}');
    push_range(v, '\u{1EE28}', '\u{1EE28}');
    push_range(v, '\u{1EE33}', '\u{1EE33}');
    push_range(v, '\u{1EE38}', '\u{1EE38}');
    push_range(v, '\u{1EE3A}', '\u{1EE3A}');
    push_range(v, '\u{1EE3C}', '\u{1EE41}');
    assert(rview(v@) =~= o + unassigned_chunk_81());
}

fn push_unassigned_chunk_82(v: &mut Vec<ClassUnicodeRange>)
    ensures
        rview(final(v)@) == rview(old(v)@) + unassigned_chunk_82(),
{
    let ghost o = rview(v@);
    push_range(v, '\u{1EE43}', '\u{1EE46}');
    push_range(v, '\u{1EE48}', '\u{1EE48}');
    push_range(v, '\u{1EE4A}', '\u{1EE4A}');
    push_range(v, '\u{1EE4C}', '\u{1EE4C}');
    push_range(v, '\u{1EE50}', '\u{1EE50}');
    push_range(v, '\u{1EE53}', '\u{1EE53}');
    push_range(v, '\u{1EE55}', '\u{1EE56}');
    push_range(v, '\u{1EE58}', '\u{1EE58}');
    assert(rview(v@) =~= o + unassigned_chunk_82());
}

fn push_unassigned_chunk_83(v: &mut Vec<ClassUnicodeRange>)
    ensures
        rview(final(v)@) == rview(old(v)@) + unassigned_chunk_83(),
{
    let ghost o = rview(v@);
    push_range(v, '\u{1EE5A}', '\u{1EE5A}');
    push_range(v, '\u{1EE5C}', '\u{1EE5C}');
    push_range(v, '\u{1EE5E}', '\u{1EE5E}');
    push_range(v, '\u{1EE60}', '\u{1EE60}');
    push_range(v, '\u{1EE63}', '\u{1EE63}');
    push_range(v, '\u{1EE65}', '\u{1EE66}');
    push_range(v, '\u{1EE6B}', '\u{1EE6B}');
    push_range(v, '\u{1EE73}', '\u{1EE73}');
    assert(rview(v@) =~= o + unassigned_chunk_83());
}

fn push_unassigned_chunk_84(v: &mut Vec<ClassUnicodeRange>)
    ensures
        rview(final(v)@) == rview(old(v)@) + unassigned_chunk_84(),
{
    let ghost o = rview(v@);
    push_range(v, '\u{1EE78}', '\u{1EE78}');
    push_range(v, '\u{1EE7D}', '\u{1EE7D}');
    push_range(v, '\u{1EE7F}', '\u{1EE7F}');
    push_range(v, '\u{1EE8A}', '\u{1EE8A}');
    push_range(v, '\u{1EE9C}', '\u{1EEA0}');
    push_range(v, '\u{1EEA4}', '\u{1EEA4}');
    push_range(v, '\u{1EEAA}', '\u{1EEAA}');
    push_range(v, '\u{1EEBC}', '\u{1EEEF}');
    assert(rview(v@) =~= o + unassigned_chunk_84());
}

fn push_unassigned_chunk_85(v: &mut Vec<ClassUnicodeRange>)
    ensures
        rview(final(v)@) == rview(old(v)@) + unassigned_chunk_85(),
{
    let ghost o = rview(v@);
    push_range(v, '\u{1EEF2}', '\u{1EFFF}');
    push_range(v, '\u{1F02C}', '\u{1F02F}');
    push_range(v, '\u{1F094}', '\u{1F09F}');
    push_range(v, '\u{1F0AF}', '\u{1F0B0}');
    push_range(v, '\u{1F0C0}', '\u{1F0C0}');
    push_range(v, '\u{1F0D0}', '\u{1F0D0}');
    push_range(v, '\u{1F0F6}', '\u{1F0FF}');
    push_range(v, '\u{1F1AE}', '\u{1F1E5}');
    assert(rview(v@) =~= o + unassigned_chunk_85());
}

fn push_unassigned_chunk_86(v: &mut Vec<ClassUnicodeRange>)
    ensures
        rview(final(v)@) == rview(old(v)@) + unassigned_chunk_86(),
{
    let ghost o = rview(v@);
    push_range(v, '\u{1F203}', '\u{1F20F}');
    push_range(v, '\u{1F23C}', '\u{1F23F}');
    push_range(v, '\u{1F249}', '\u{1F24F}');
    push_range(v, '\u{1F252}', '\u{1F25F}');
    push_range(v, '\u{1F266}', '\u{1F2FF}');
    push_range(v, '\u{1F6D8}', '\u{1F6DB}');
    push_range(v, '\u{1F6ED}', '\u{1F6EF}');
    push_range(v, '\u{1F6FD}', '\u{1F6FF}');
    assert(rview(v@) =~= o + unassigned_chunk_86());
}

fn push_unassigned_chunk_87(v: &mut Vec<ClassUnicodeRange>)
    ensures
        rview(final(v)@) == rview(old(v)@) + unassigned_chunk_87(),
{
    let ghost o = rview(v@);
    push_range(v, '\u{1F777}', '\u{1F77A}');
    push_range(v, '\u{1F7DA}', '\u{1F7DF}');
    push_range(v, '\u{1F7EC}', '\u{1F7EF}');
    push_range(v, '\u{1F7F1}', '\u{1F7FF}');
    push_range(v, '\u{1F80C}', '\u{1F80F}');
    push_range(v, '\u{1F848}', '\u{1F84F}');
    push_range(v, '\u{1F85A}', '\u{1F85F}');
    push_range(v, '\u{1F888}', '\u{1F88F}');
    assert(rview(v@) =~= o + unassigned_chunk_87());
}

fn push_unassigned_chunk_88(v: &mut Vec<ClassUnicodeRange>)
    ensures
        rview(final(v)@) == rview(old(v)@) + unassigned_chunk_88(),
{
    let ghost o = rview(v@);
    push_range(v, '\u{1F8AE}', '\u{1F8AF}');
    push_range(v, '\u{1F8BC}', '\u{1F8BF}');
    push_range(v, '\u{1F8C2}', '\u{1F8FF}');
    push_range(v, '\u{1FA54}', '\u{1FA5F}');
    push_range(v, '\u{1FA6E}', '\u{1FA6F}');
    push_range(v, '\u{1FA7D}', '\u{1FA7F}');
    push_range(v, '\u{1FA8A}', '\u{1FA8E}');
    push_range(v, '\u{1FAC7}', '\u{1FACD}');
    assert(rview(v@) =~= o + unassigned_chunk_88());
}

fn push_unassigned_chunk_89(v: &mut Vec<ClassUnicodeRange>)
    ensures
        rview(final(v)@) == rview(old(v)@) + unassigned_chunk_89(),
{
    let ghost o = rview(v@);
    push_range(v, '\u{1FADD}', '\u{1FADE}');
    push_range(v, '\u{1FAEA}', '\u{1FAEF}');
    push_range(v, '\u{1FAF9}', '\u{1FAFF}');
    push_range(v, '\u{1FB93}', '\u{1FB93}');
    push_range(v, '\u{1FBFA}', '\u{1FFFF}');
    push_range(v, '\u{2A6E0}', '\u{2A6FF}');
    push_range(v, '\u{2B73A}', '\u{2B73F}');
    push_range(v, '\u{2B81E}', '\u{2B81F}');
    assert(rview(v@) =~= o + unassigned_chunk_89());
}

fn push_unassigned_chunk_90(v: &mut Vec<ClassUnicodeRange>)
    ensures
        rview(final(v)@) == rview(old(v)@) + unassigned_chunk_90(),
{
    let ghost o = rview(v@);
    push_range(v, '\u{2CEA2}', '\u{2CEAF}');
    push_range(v, '\u{2EBE1}', '\u{2EBEF}');
    push_range(v, '\u{2EE5E}', '\u{2F7FF}');
    push_range(v, '\u{2FA1E}', '\u{2FFFF}');
    push_range(v, '\u{3134B}', '\u{3134F}');
    push_range(v, '\u{323B0}', '\u{E0000}');
    push_range(v, '\u{E0002}', '\u{E001F}');
    push_range(v, '\u{E0080}', '\u{E00FF}');
    assert(rview(v@) =~= o + unassigned_chunk_90());
}

fn push_unassigned_chunk_91(v: &mut Vec<ClassUnicodeRange>)
    ensures
        rview(final(v)@) == rview(old(v)@) + unassigned_chunk_91(),
{
    let ghost o = rview(v@);
    push_range(v, '\u{E01F0}', '\u{EFFFF}');
    push_range(v, '\u{FFFFE}', '\u{FFFFF}');
    push_range(v, '\u{10FFFE}', '\u{10FFFF}');
    assert(rview(v@) =~= o + unassigned_chunk_91());
}

fn push_unassigned_block_0(v: &mut Vec<ClassUnicodeRange>)
    ensures
        rview(final(v)@) == rview(old(v)@) + unassigned_block_0(),
{
    let ghost o = rview(v@);
    push_unassigned_chunk_0(v);
    assert(rview(v@) =~= o + (unassigned_chunk_0()));
    push_unassigned_chunk_1(v);
    assert(rview(v@) =~= o + (unassigned_chunk_0() + unassigned_chunk_1()));
    push_unassigned_chunk_2(v);
    assert(rview(v@) =~= o + (unassigned_chunk_0() + unassigned_chunk_1() + unassigned_chunk_2()));
    push_unassigned_chunk_3(v);
    assert(rview(v@) =~= o + (unassigned_chunk_0() + unassigned_chunk_1() + unassigned_chunk_2() + unassigned_chunk_3()));
    push_unassigned_chunk_4(v);
    assert(rview(v@) =~= o + (unassigned_chunk_0() + unassigned_chunk_1() + unassigned_chunk_2() + unassigned_chunk_3() + unassigned_chunk_4()));
    push_unassigned_chunk_5(v);
    assert(rview(v@) =~= o + (unassigned_chunk_0() + unassigned_chunk_1() + unassigned_chunk_2() + unassigned_chunk_3() + unassigned_chunk_4() + unassigned_chunk_5()));
    push_unassigned_chunk_6(v);
    assert(rview(v@) =~= o + (unassigned_chunk_0() + unassigned_chunk_1() + unassigned_chunk_2() + unassigned_chunk_3() + unassigned_chunk_4() + unassigned_chunk_5() + unassigned_chunk_6()));
    push_unassigned_chunk_7(v);
    assert(rview(v@) =~= o + (unassigned_chunk_0() + unassigned_chunk_1() + unassigned_chunk_2() + unassigned_chunk_3() + unassigned_chunk_4() + unassigned_chunk_5() + unassigned_chunk_6() + unassigned_chunk_7()));
    push_unassigned_chunk_8(v);
    assert(rview(v@) =~= o + (unassigned_chunk_0() + unassigned_chunk_1() + unassigned_chunk_2() + unassigned_chunk_3() + unassigned_chunk_4() + unassigned_chunk_5() + unassigned_chunk_6() + unassigned_chunk_7() + unassigned_chunk_8()));
    push_unassigned_chunk_9(v);
    assert(rview(v@) =~= o + (unassigned_chunk_0() + unassigned_chunk_1() + unassigned_chunk_2() + unassigned_chunk_3() + unassigned_chunk_4() + unassigned_chunk_5() + unassigned_chunk_6() + unassigned_chunk_7() + unassigned_chunk_8() + unassigned_chunk_9()));
}

fn push_unassigned_block_1(v: &mut Vec<ClassUnicodeRange>)
    ensures
        rview(final(v)@) == rview(old(v)@) + unassigned_block_1(),
{
    let ghost o = rview(v@);
    push_unassigned_chunk_10(v);
    assert(rview(v@) =~= o + (unassigned_chunk_10()));
    push_unassigned_chunk_11(v);
    assert(rview(v@) =~= o + (unassigned_chunk_10() + unassigned_chunk_11()));
    push_unassigned_chunk_12(v);
    assert(rview(v@) =~= o + (unassigned_chunk_10() + unassigned_chunk_11() + unassigned_chunk_12()));
    push_unassigned_chunk_13(v);
    assert(rview(v@) =~= o + (unassigned_chunk_10() + unassigned_chunk_11() + unassigned_chunk_12() + unassigned_chunk_13()));
    push_unassigned_chunk_14(v);
    assert(rview(v@) =~= o + (unassigned_chunk_10() + unassigned_chunk_11() + unassigned_chunk_12() + unassigned_chunk_13() + unassigned_chunk_14()));
    push_unassigned_chunk_15(v);
    assert(rview(v@) =~= o + (unassigned_chunk_10() + unassigned_chunk_11() + unassigned_chunk_12() + unassigned_chunk_13() + unassigned_chunk_14() + unassigned_chunk_15()));
    push_unassigned_chunk_16(v);
    assert(rview(v@) =~= o + (unassigned_chunk_10() + unassigned_chunk_11() + unassigned_chunk_12() + unassigned_chunk_13() + unassigned_chunk_14() + unassigned_chunk_15() + unassigned_chunk_16()));
    push_unassigned_chunk_17(v);
    assert(rview(v@) =~= o + (unassigned_chunk_10() + unassigned_chunk_11() + unassigned_chunk_12() + unassigned_chunk_13() + unassigned_chunk_14() + unassigned_chunk_15() + unassigned_chunk_16() + unassigned_chunk_17()));
    push_unassigned_chunk_18(v);
    assert(rview(v@) =~= o + (unassigned_chunk_10() + unassigned_chunk_11() + unassigned_chunk_12() + unassigned_chunk_13() + unassigned_chunk_14() + unassigned_chunk_15() + unassigned_chunk_16() + unassigned_chunk_17() + unassigned_chunk_18()));
    push_unassigned_chunk_19(v);
    assert(rview(v@) =~= o + (unassigned_chunk_10() + unassigned_chunk_11() + unassigned_chunk_12() + unassigned_chunk_13() + unassigned_chunk_14() + unassigned_chunk_15() + unassigned_chunk_16() + unassigned_chunk_17() + unassigned_chunk_18() + unassigned_chunk_19()));
}

fn push_unassigned_block_2(v: &mut Vec<ClassUnicodeRange>)
    ensures
        rview(final(v)@) == rview(old(v)@) + unassigned_block_2(),
{
    let ghost o = rview(v@);
    push_unassigned_chunk_20(v);
    assert(rview(v@) =~= o + (unassigned_chunk_20()));
    push_unassigned_chunk_21(v);
    assert(rview(v@) =~= o + (unassigned_chunk_20() + unassigned_chunk_21()));
    push_unassigned_chunk_22(v);
    assert(rview(v@) =~= o + (unassigned_chunk_20() + unassigned_chunk_21() + unassigned_chunk_22()));
    push_unassigned_chunk_23(v);
    assert(rview(v@) =~= o + (unassigned_chunk_20() + unassigned_chunk_21() + unassigned_chunk_22() + unassigned_chunk_23()));
    push_unassigned_chunk_24(v);
    assert(rview(v@) =~= o + (unassigned_chunk_20() + unassigned_chunk_21() + unassigned_chunk_22() + unassigned_chunk_23() + unassigned_chunk_24()));
    push_unassigned_chunk_25(v);
    assert(rview(v@) =~= o + (unassigned_chunk_20() + unassigned_chunk_21() + unassigned_chunk_22() + unassigned_chunk_23() + unassigned_chunk_24() + unassigned_chunk_25()));
    push_unassigned_chunk_26(v);
    assert(rview(v@) =~= o + (unassigned_chunk_20() + unassigned_chunk_21() + unassigned_chunk_22() + unassigned_chunk_23() + unassigned_chunk_24() + unassigned_chunk_25() + unassigned_chunk_26()));
    push_unassigned_chunk_27(v);
    assert(rview(v@) =~= o + (unassigned_chunk_20() + unassigned_chunk_21() + unassigned_chunk_22() + unassigned_chunk_23() + unassigned_chunk_24() + unassigned_chunk_25() + unassigned_chunk_26() + unassigned_chunk_27()));
    push_unassigned_chunk_28(v);
    assert(rview(v@) =~= o + (unassigned_chunk_20() + unassigned_chunk_21() + unassigned_chunk_22() + unassigned_chunk_23() + unassigned_chunk_24() + unassigned_chunk_25() + unassigned_chunk_26() + unassigned_chunk_27() + unassigned_chunk_28()));
    push_unassigned_chunk_29(v);
    assert(rview(v@) =~= o + (unassigned_chunk_20() + unassigned_chunk_21() + unassigned_chunk_22() + unassigned_chunk_23() + unassigned_chunk_24() + unassigned_chunk_25() + unassigned_chunk_26() + unassigned_chunk_27() + unassigned_chunk_28() + unassigned_chunk_29()));
}

fn push_unassigned_block_3(v: &mut Vec<ClassUnicodeRange>)
    ensures
        rview(final(v)@) == rview(old(v)@) + unassigned_block_3(),
{
    let ghost o = rview(v@);
    push_unassigned_chunk_30(v);
    assert(rview(v@) =~= o + (unassigned_chunk_30()));
    push_unassigned_chunk_31(v);
    assert(rview(v@) =~= o + (unassigned_chunk_30() + unassigned_chunk_31()));
    push_unassigned_chunk_32(v);
    assert(rview(v@) =~= o + (unassigned_chunk_30() + unassigned_chunk_31() + unassigned_chunk_32()));
    push_unassigned_chunk_33(v);
    assert(rview(v@) =~= o + (unassigned_chunk_30() + unassigned_chunk_31() + unassigned_chunk_32() + unassigned_chunk_33()));
    push_unassigned_chunk_34(v);
    assert(rview(v@) =~= o + (unassigned_chunk_30() + unassigned_chunk_31() + unassigned_chunk_32() + unassigned_chunk_33() + unassigned_chunk_34()));
    push_unassigned_chunk_35(v);
    assert(rview(v@) =~= o + (unassigned_chunk_30() + unassigned_chunk_31() + unassigned_chunk_32() + unassigned_chunk_33() + unassigned_chunk_34() + unassigned_chunk_35()));
    push_unassigned_chunk_36(v);
    assert(rview(v@) =~= o + (unassigned_chunk_30() + unassigned_chunk_31() + unassigned_chunk_32() + unassigned_chunk_33() + unassigned_chunk_34() + unassigned_chunk_35() + unassigned_chunk_36()));
    push_unassigned_chunk_37(v);
    assert(rview(v@) =~= o + (unassigned_chunk_30() + unassigned_chunk_31() + unassigned_chunk_32() + unassigned_chunk_33() + unassigned_chunk_34() + unassigned_chunk_35() + unassigned_chunk_36() + unassigned_chunk_37()));
    push_unassigned_chunk_38(v);
    assert(rview(v@) =~= o + (unassigned_chunk_30() + unassigned_chunk_31() + unassigned_chunk_32() + unassigned_chunk_33() + unassigned_chunk_34() + unassigned_chunk_35() + unassigned_chunk_36() + unassigned_chunk_37() + unassigned_chunk_38()));
    push_unassigned_chunk_39(v);
    assert(rview(v@) =~= o + (unassigned_chunk_30() + unassigned_chunk_31() + unassigned_chunk_32() + unassigned_chunk_33() + unassigned_chunk_34() + unassigned_chunk_35() + unassigned_chunk_36() + unassigned_chunk_37() + unassigned_chunk_38() + unassigned_chunk_39()));
}

fn push_unassigned_block_4(v: &mut Vec<ClassUnicodeRange>)
    ensures
        rview(final(v)@) == rview(old(v)@) + unassigned_block_4(),
{
    let ghost o = rview(v@);
    push_unassigned_chunk_40(v);
    assert(rview(v@) =~= o + (unassigned_chunk_40()));
    push_unassigned_chunk_41(v);
    assert(rview(v@) =~= o + (unassigned_chunk_40() + unassigned_chunk_41()));
    push_unassigned_chunk_42(v);
    assert(rview(v@) =~= o + (unassigned_chunk_40() + unassigned_chunk_41() + unassigned_chunk_42()));
    push_unassigned_chunk_43(v);
    assert(rview(v@) =~= o + (unassigned_chunk_40() + unassigned_chunk_41() + unassigned_chunk_42() + unassigned_chunk_43()));
    push_unassigned_chunk_44(v);
    assert(rview(v@) =~= o + (unassigned_chunk_40() + unassigned_chunk_41() + unassigned_chunk_42() + unassigned_chunk_43() + unassigned_chunk_44()));
    push_unassigned_chunk_45(v);
    assert(rview(v@) =~= o + (unassigned_chunk_40() + unassigned_chunk_41() + unassigned_chunk_42() + unassigned_chunk_43() + unassigned_chunk_44() + unassigned_chunk_45()));
    push_unassigned_chunk_46(v);
    assert(rview(v@) =~= o + (unassigned_chunk_40() + unassigned_chunk_41() + unassigned_chunk_42() + unassigned_chunk_43() + unassigned_chunk_44() + unassigned_chunk_45() + unassigned_chunk_46()));
    push_unassigned_chunk_47(v);
    assert(rview(v@) =~= o + (unassigned_chunk_40() + unassigned_chunk_41() + unassigned_chunk_42() + unassigned_chunk_43() + unassigned_chunk_44() + unassigned_chunk_45() + unassigned_chunk_46() + unassigned_chunk_47()));
    push_unassigned_chunk_48(v);
    assert(rview(v@) =~= o + (unassigned_chunk_40() + unassigned_chunk_41() + unassigned_chunk_42() + unassigned_chunk_43() + unassigned_chunk_44() + unassigned_chunk_45() + unassigned_chunk_46() + unassigned_chunk_47() + unassigned_chunk_48()));
    push_unassigned_chunk_49(v);
    assert(rview(v@) =~= o + (unassigned_chunk_40() + unassigned_chunk_41() + unassigned_chunk_42() + unassigned_chunk_43() + unassigned_chunk_44() + unassigned_chunk_45() + unassigned_chunk_46() + unassigned_chunk_47() + unassigned_chunk_48() + unassigned_chunk_49()));
}

fn push_unassigned_block_5(v: &mut Vec<ClassUnicodeRange>)
    ensures
        rview(final(v)@) == rview(old(v)@) + unassigned_block_5(),
{
    let ghost o = rview(v@);
    push_unassigned_chunk_50(v);
    assert(rview(v@) =~= o + (unassigned_chunk_50()));
    push_unassigned_chunk_51(v);
    assert(rview(v@) =~= o + (unassigned_chunk_50() + unassigned_chunk_51()));
    push_unassigned_chunk_52(v);
    assert(rview(v@) =~= o + (unassigned_chunk_50() + unassigned_chunk_51() + unassigned_chunk_52()));
    push_unassigned_chunk_53(v);
    assert(rview(v@) =~= o + (unassigned_chunk_50() + unassigned_chunk_51() + unassigned_chunk_52() + unassigned_chunk_53()));
    push_unassigned_chunk_54(v);
    assert(rview(v@) =~= o + (unassigned_chunk_50() + unassigned_chunk_51() + unassigned_chunk_52() + unassigned_chunk_53() + unassigned_chunk_54()));
    push_unassigned_chunk_55(v);
    assert(rview(v@) =~= o + (unassigned_chunk_50() + unassigned_chunk_51() + unassigned_chunk_52() + unassigned_chunk_53() + unassigned_chunk_54() + unassigned_chunk_55()));
    push_unassigned_chunk_56(v);
    assert(rview(v@) =~= o + (unassigned_chunk_50() + unassigned_chunk_51() + unassigned_chunk_52() + unassigned_chunk_53() + unassigned_chunk_54() + unassigned_chunk_55() + unassigned_chunk_56()));
    push_unassigned_chunk_57(v);
    assert(rview(v@) =~= o + (unassigned_chunk_50() + unassigned_chunk_51() + unassigned_chunk_52() + unassigned_chunk_53() + unassigned_chunk_54() + unassigned_chunk_55() + unassigned_chunk_56() + unassigned_chunk_57()));
    push_unassigned_chunk_58(v);
    assert(rview(v@) =~= o + (unassigned_chunk_50() + unassigned_chunk_51() + unassigned_chunk_52() + unassigned_chunk_53() + unassigned_chunk_54() + unassigned_chunk_55() + unassigned_chunk_56() + unassigned_chunk_57() + unassigned_chunk_58()));
    push_unassigned_chunk_59(v);
    assert(rview(v@) =~= o + (unassigned_chunk_50() + unassigned_chunk_51() + unassigned_chunk_52() + unassigned_chunk_53() + unassigned_chunk_54() + unassigned_chunk_55() + unassigned_chunk_56() + unassigned_chunk_57() + unassigned_chunk_58() + unassigned_chunk_59()));
}

fn push_unassigned_block_6(v: &mut Vec<ClassUnicodeRange>)
    ensures
        rview(final(v)@) == rview(old(v)@) + unassigned_block_6(),
{
    let ghost o = rview(v@);
    push_unassigned_chunk_60(v);
    assert(rview(v@) =~= o + (unassigned_chunk_60()));
    push_unassigned_chunk_61(v);
    assert(rview(v@) =~= o + (unassigned_chunk_60() + unassigned_chunk_61()));
    push_unassigned_chunk_62(v);
    assert(rview(v@) =~= o + (unassigned_chunk_60() + unassigned_chunk_61() + unassigned_chunk_62()));
    push_unassigned_chunk_63(v);
    assert(rview(v@) =~= o + (unassigned_chunk_60() + unassigned_chunk_61() + unassigned_chunk_62() + unassigned_chunk_63()));
    push_unassigned_chunk_64(v);
    assert(rview(v@) =~= o + (unassigned_chunk_60() + unassigned_chunk_61() + unassigned_chunk_62() + unassigned_chunk_63() + unassigned_chunk_64()));
    push_unassigned_chunk_65(v);
    assert(rview(v@) =~= o + (unassigned_chunk_60() + unassigned_chunk_61() + unassigned_chunk_62() + unassigned_chunk_63() + unassigned_chunk_64() + unassigned_chunk_65()));
    push_unassigned_chunk_66(v);
    assert(rview(v@) =~= o + (unassigned_chunk_60() + unassigned_chunk_61() + unassigned_chunk_62() + unassigned_chunk_63() + unassigned_chunk_64() + unassigned_chunk_65() + unassigned_chunk_66()));
    push_unassigned_chunk_67(v);
    assert(rview(v@) =~= o + (unassigned_chunk_60() + unassigned_chunk_61() + unassigned_chunk_62() + unassigned_chunk_63() + unassigned_chunk_64() + unassigned_chunk_65() + unassigned_chunk_66() + unassigned_chunk_67()));
    push_unassigned_chunk_68(v);
    assert(rview(v@) =~= o + (unassigned_chunk_60() + unassigned_chunk_61() + unassigned_chunk_62() + unassigned_chunk_63() + unassigned_chunk_64() + unassigned_chunk_65() + unassigned_chunk_66() + unassigned_chunk_67() + unassigned_chunk_68()));
    push_unassigned_chunk_69(v);
    assert(rview(v@) =~= o + (unassigned_chunk_60() + unassigned_chunk_61() + unassigned_chunk_62() + unassigned_chunk_63() + unassigned_chunk_64() + unassigned_chunk_65() + unassigned_chunk_66() + unassigned_chunk_67() + unassigned_chunk_68() + unassigned_chunk_69()));
}

fn push_unassigned_block_7(v: &mut Vec<ClassUnicodeRange>)
    ensures
        rview(final(v)@) == rview(old(v)@) + unassigned_block_7(),
{
    let ghost o = rview(v@);
    push_unassigned_chunk_70(v);
    assert(rview(v@) =~= o + (unassigned_chunk_70()));
    push_unassigned_chunk_71(v);
    assert(rview(v@) =~= o + (unassigned_chunk_70() + unassigned_chunk_71()));
    push_unassigned_chunk_72(v);
    assert(rview(v@) =~= o + (unassigned_chunk_70() + unassigned_chunk_71() + unassigned_chunk_72()));
    push_unassigned_chunk_73(v);
    assert(rview(v@) =~= o + (unassigned_chunk_70() + unassigned_chunk_71() + unassigned_chunk_72() + unassigned_chunk_73()));
    push_unassigned_chunk_74(v);
    assert(rview(v@) =~= o + (unassigned_chunk_70() + unassigned_chunk_71() + unassigned_chunk_72() + unassigned_chunk_73() + unassigned_chunk_74()));
    push_unassigned_chunk_75(v);
    assert(rview(v@) =~= o + (unassigned_chunk_70() + unassigned_chunk_71() + unassigned_chunk_72() + unassigned_chunk_73() + unassigned_chunk_74() + unassigned_chunk_75()));
    push_unassigned_chunk_76(v);
    assert(rview(v@) =~= o + (unassigned_chunk_70() + unassigned_chunk_71() + unassigned_chunk_72() + unassigned_chunk_73() + unassigned_chunk_74() + unassigned_chunk_75() + unassigned_chunk_76()));
    push_unassigned_chunk_77(v);
    assert(rview(v@) =~= o + (unassigned_chunk_70() + unassigned_chunk_71() + unassigned_chunk_72() + unassigned_chunk_73() + unassigned_chunk_74() + unassigned_chunk_75() + unassigned_chunk_76() + unassigned_chunk_77()));
    push_unassigned_chunk_78(v);
    assert(rview(v@) =~= o + (unassigned_chunk_70() + unassigned_chunk_71() + unassigned_chunk_72() + unassigned_chunk_73() + unassigned_chunk_74() + unassigned_chunk_75() + unassigned_chunk_76() + unassigned_chunk_77() + unassigned_chunk_78()));
    push_unassigned_chunk_79(v);
    assert(rview(v@) =~= o + (unassigned_chunk_70() + unassigned_chunk_71() + unassigned_chunk_72() + unassigned_chunk_73() + unassigned_chunk_74() + unassigned_chunk_75() + unassigned_chunk_76() + unassigned_chunk_77() + unassigned_chunk_78() + unassigned_chunk_79()));
}

fn push_unassigned_block_8(v: &mut Vec<ClassUnicodeRange>)
    ensures
        rview(final(v)@) == rview(old(v)@) + unassigned_block_8(),
{
    let ghost o = rview(v@);
    push_unassigned_chunk_80(v);
    assert(rview(v@) =~= o + (unassigned_chunk_80()));
    push_unassigned_chunk_81(v);
    assert(rview(v@) =~= o + (unassigned_chunk_80() + unassigned_chunk_81()));
    push_unassigned_chunk_82(v);
    assert(rview(v@) =~= o + (unassigned_chunk_80() + unassigned_chunk_81() + unassigned_chunk_82()));
    push_unassigned_chunk_83(v);
    assert(rview(v@) =~= o + (unassigned_chunk_80() + unassigned_chunk_81() + unassigned_chunk_82() + unassigned_chunk_83()));
    push_unassigned_chunk_84(v);
    assert(rview(v@) =~= o + (unassigned_chunk_80() + unassigned_chunk_81() + unassigned_chunk_82() + unassigned_chunk_83() + unassigned_chunk_84()));
    push_unassigned_chunk_85(v);
    assert(rview(v@) =~= o + (unassigned_chunk_80() + unassigned_chunk_81() + unassigned_chunk_82() + unassigned_chunk_83() + unassigned_chunk_84() + unassigned_chunk_85()));
    push_unassigned_chunk_86(v);
    assert(rview(v@) =~= o + (unassigned_chunk_80() + unassigned_chunk_81() + unassigned_chunk_82() + unassigned_chunk_83() + unassigned_chunk_84() + unassigned_chunk_85() + unassigned_chunk_86()));
    push_unassigned_chunk_87(v);
    assert(rview(v@) =~= o + (unassigned_chunk_80() + unassigned_chunk_81() + unassigned_chunk_82() + unassigned_chunk_83() + unassigned_chunk_84() + unassigned_chunk_85() + unassigned_chunk_86() + unassigned_chunk_87()));
    push_unassigned_chunk_88(v);
    assert(rview(v@) =~= o + (unassigned_chunk_80() + unassigned_chunk_81() + unassigned_chunk_82() + unassigned_chunk_83() + unassigned_chunk_84() + unassigned_chunk_85() + unassigned_chunk_86() + unassigned_chunk_87() + unassigned_chunk_88()));
    push_unassigned_chunk_89(v);
    assert(rview(v@) =~= o + (unassigned_chunk_80() + unassigned_chunk_81() + unassigned_chunk_82() + unassigned_chunk_83() + unassigned_chunk_84() + unassigned_chunk_85() + unassigned_chunk_86() + unassigned_chunk_87() + unassigned_chunk_88() + unassigned_chunk_89()));
}

fn push_unassigned_block_9(v: &mut Vec<ClassUnicodeRange>)
    ensures
        rview(final(v)@) == rview(old(v)@) + unassigned_block_9(),
{
    let ghost o = rview(v@);
    push_unassigned_chunk_90(v);
    assert(rview(v@) =~= o + (unassigned_chunk_90()));
    push_unassigned_chunk_91(v);
    assert(rview(v@) =~= o + (unassigned_chunk_90() + unassigned_chunk_91()));
}

/// The ranges of the general category Unassigned.
pub fn unassigned_class() -> (v: Vec<ClassUnicodeRange>)
    ensures
        rview(v@) == unassigned_ranges(),
{
    let mut v: Vec<ClassUnicodeRange> = Vec::new();
    assert(rview(v@) =~= Seq::<SRange>::empty());
    push_unassigned_block_0(&mut v);
    assert(rview(v@) =~= unassigned_block_0());
    push_unassigned_block_1(&mut v);
    assert(rview(v@) =~= unassigned_block_0() + unassigned_block_1());
    push_unassigned_block_2(&mut v);
    assert(rview(v@) =~= unassigned_block_0() + unassigned_block_1() + unassigned_block_2());
    push_unassigned_block_3(&mut v);
    assert(rview(v@) =~= unassigned_block_0() + unassigned_block_1() + unassigned_block_2() + unassigned_block_3());
    push_unassigned_block_4(&mut v);
    assert(rview(v@) =~= unassigned_block_0() + unassigned_block_1() + unassigned_block_2() + unassigned_block_3() + unassigned_block_4());
    push_unassigned_block_5(&mut v);
    assert(rview(v@) =~= unassigned_block_0() + unassigned_block_1() + unassigned_block_2() + unassigned_block_3() + unassigned_block_4() + unassigned_block_5());
    push_unassigned_block_6(&mut v);
    assert(rview(v@) =~= unassigned_block_0() + unassigned_block_1() + unassigned_block_2() + unassigned_block_3() + unassigned_block_4() + unassigned_block_5() + unassigned_block_6());
    push_unassigned_block_7(&mut v);
    assert(rview(v@) =~= unassigned_block_0() + unassigned_block_1() + unassigned_block_2() + unassigned_block_3() + unassigned_block_4() + unassigned_block_5() + unassigned_block_6() + unassigned_block_7());
    push_unassigned_block_8(&mut v);
    assert(rview(v@) =~= unassigned_block_0() + unassigned_block_1() + unassigned_block_2() + unassigned_block_3() + unassigned_block_4() + unassigned_block_5() + unassigned_block_6() + unassigned_block_7() + unassigned_block_8());
    push_unassigned_block_9(&mut v);
    assert(rview(v@) =~= unassigned_block_0() + unassigned_block_1() + unassigned_block_2() + unassigned_block_3() + unassigned_block_4() + unassigned_block_5() + unassigned_block_6() + unassigned_block_7() + unassigned_block_8() + unassigned_block_9());
    v
}

pub open spec fn uppercase_letter_chunk_0() -> Seq<SRange> {
    seq![(0x41int, 0x5Aint), (0xC0int, 0xD6int), (0xD8int, 0xDEint), (0x100int, 0x100int), (0x102int, 0x102int), (0x104int, 0x104int), (0x106int, 0x106int), (0x108int, 0x108int)]
}

pub open spec fn uppercase_letter_chunk_1() -> Seq<SRange> {
    seq![(0x10Aint, 0x10Aint), (0x10Cint, 0x10Cint), (0x10Eint, 0x10Eint), (0x110int, 0x110int), (0x112int, 0x112int), (0x114int, 0x114int), (0x116int, 0x116int), (0x118int, 0x118int)]
}

pub open spec fn uppercase_letter_chunk_2() -> Seq<SRange> {
    seq![(0x11Aint, 0x11Aint), (0x11Cint, 0x11Cint), (0x11Eint, 0x11Eint), (0x120int, 0x120int), (0x122int, 0x122int), (0x124int, 0x124int), (0x126int, 0x126int), (0x128int, 0x128int)]
}

pub open spec fn uppercase_letter_chunk_3() -> Seq<SRange> {
    seq![(0x12Aint, 0x12Aint), (0x12Cint, 0x12Cint), (0x12Eint, 0x12Eint), (0x130int, 0x130int), (0x132int, 0x132int), (0x134int, 0x134int), (0x136int, 0x136int), (0x139int, 0x139int)]
}

pub open spec fn uppercase_letter_chunk_4() -> Seq<SRange> {
    seq![(0x13Bint, 0x13Bint), (0x13Dint, 0x13Dint), (0x13Fint, 0x13Fint), (0x141int, 0x141int), (0x143int, 0x143int), (0x145int, 0x145int), (0x147int, 0x147int), (0x14Aint, 0x14Aint)]
}

pub open spec fn uppercase_letter_chunk_5() -> Seq<SRange> {
    seq![(0x14Cint, 0x14Cint), (0x14Eint, 0x14Eint), (0x150int, 0x150int), (0x152int, 0x152int), (0x154int, 0x154int), (0x156int, 0x156int), (0x158int, 0x158int), (0x15Aint, 0x15Aint)]
}

pub open spec fn uppercase_letter_chunk_6() -> Seq<SRange> {
    seq![(0x15Cint, 0x15Cint), (0x15Eint, 0x15Eint), (0x160int, 0x160int), (0x162int, 0x162int), (0x164int, 0x164int), (0x166int, 0x166int), (0x168int, 0x168int), (0x16Aint, 0x16Aint)]
}

pub open spec fn uppercase_letter_chunk_7() -> Seq<SRange> {
    seq![(0x16Cint, 0x16Cint), (0x16Eint, 0x16Eint), (0x170int, 0x170int), (0x172int, 0x172int), (0x174int, 0x174int), (0x176int, 0x176int), (0x178int, 0x179int), (0x17Bint, 0x17Bint)]
}

pub open spec fn uppercase_letter_chunk_8() -> Seq<SRange> {
    seq![(0x17Dint, 0x17Dint), (0x181int, 0x182int), (0x184int, 0x184int), (0x186int, 0x187int), (0x189int, 0x18Bint), (0x18Eint, 0x191int), (0x193int, 0x194int), (0x196int, 0x198int)]
}

pub open spec fn uppercase_letter_chunk_9() -> Seq<SRange> {
    seq![(0x19Cint, 0x19Dint), (0x19Fint, 0x1A0int), (0x1A2int, 0x1A2int), (0x1A4int, 0x1A4int), (0x1A6int, 0x1A7int), (0x1A9int, 0x1A9int), (0x1ACint, 0x1ACint), (0x1AEint, 0x1AFint)]
}

pub open spec fn uppercase_letter_chunk_10() -> Seq<SRange> {
    seq![(0x1B1int, 0x1B3int), (0x1B5int, 0x1B5int), (0x1B7int, 0x1B8int), (0x1BCint, 0x1BCint), (0x1C4int, 0x1C4int), (0x1C7int, 0x1C7int), (0x1CAint, 0x1CAint), (0x1CDint, 0x1CDint)]
}

pub open spec fn uppercase_letter_chunk_11() -> Seq<SRange> {
    seq![(0x1CFint, 0x1CFint), (0x1D1int, 0x1D1int), (0x1D3int, 0x1D3int), (0x1D5int, 0x1D5int), (0x1D7int, 0x1D7int), (0x1D9int, 0x1D9int), (0x1DBint, 0x1DBint), (0x1DEint, 0x1DEint)]
}

pub open spec fn uppercase_letter_chunk_12() -> Seq<SRange> {
    seq![(0x1E0int, 0x1E0int), (0x1E2int, 0x1E2int), (0x1E4int, 0x1E4int), (0x1E6int, 0x1E6int), (0x1E8int, 0x1E8int), (0x1EAint, 0x1EAint), (0x1ECint, 0x1ECint), (0x1EEint, 0x1EEint)]
}

pub open spec fn uppercase_letter_chunk_13() -> Seq<SRange> {
    seq![(0x1F1int, 0x1F1int), (0x1F4int, 0x1F4int), (0x1F6int, 0x1F8int), (0x1FAint, 0x1FAint), (0x1FCint, 0x1FCint), (0x1FEint, 0x1FEint), (0x200int, 0x200int), (0x202int, 0x202int)]
}

pub open spec fn uppercase_letter_chunk_14() -> Seq<SRange> {
    seq![(0x204int, 0x204int), (0x206int, 0x206int), (0x208int, 0x208int), (0x20Aint, 0x20Aint), (0x20Cint, 0x20Cint), (0x20Eint, 0x20Eint), (0x210int, 0x210int), (0x212int, 0x212int)]
}

pub open spec fn uppercase_letter_chunk_15() -> Seq<SRange> {
    seq![(0x214int, 0x214int), (0x216int, 0x216int), (0x218int, 0x218int), (0x21Aint, 0x21Aint), (0x21Cint, 0x21Cint), (0x21Eint, 0x21Eint), (0x220int, 0x220int), (0x222int, 0x222int)]
}

pub open spec fn uppercase_letter_chunk_16() -> Seq<SRange> {
    seq![(0x224int, 0x224int), (0x226int, 0x226int), (0x228int, 0x228int), (0x22Aint, 0x22Aint), (0x22Cint, 0x22Cint), (0x22Eint, 0x22Eint), (0x230int, 0x230int), (0x232int, 0x232int)]
}

pub open spec fn uppercase_letter_chunk_17() -> Seq<SRange> {
    seq![(0x23Aint, 0x23Bint), (0x23Dint, 0x23Eint), (0x241int, 0x241int), (0x243int, 0x246int), (0x248int, 0x248int), (0x24Aint, 0x24Aint), (0x24Cint, 0x24Cint), (0x24Eint, 0x24Eint)]
}

pub open spec fn uppercase_letter_chunk_18() -> Seq<SRange> {
    seq![(0x370int, 0x370int), (0x372int, 0x372int), (0x376int, 0x376int), (0x37Fint, 0x37Fint), (0x386int, 0x386int), (0x388int, 0x38Aint), (0x38Cint, 0x38Cint), (0x38Eint, 0x38Fint)]
}

pub open spec fn uppercase_letter_chunk_19() -> Seq<SRange> {
    seq![(0x391int, 0x3A1int), (0x3A3int, 0x3ABint), (0x3CFint, 0x3CFint), (0x3D2int, 0x3D4int), (0x3D8int, 0x3D8int), (0x3DAint, 0x3DAint), (0x3DCint, 0x3DCint), (0x3DEint, 0x3DEint)]
}

pub open spec fn uppercase_letter_chunk_20() -> Seq<SRange> {
    seq![(0x3E0int, 0x3E0int), (0x3E2int, 0x3E2int), (0x3E4int, 0x3E4int), (0x3E6int, 0x3E6int), (0x3E8int, 0x3E8int), (0x3EAint, 0x3EAint), (0x3ECint, 0x3ECint), (0x3EEint, 0x3EEint)]
}

pub open spec fn uppercase_letter_chunk_21() -> Seq<SRange> {
    seq![(0x3F4int, 0x3F4int), (0x3F7int, 0x3F7int), (0x3F9int, 0x3FAint), (0x3FDint, 0x42Fint), (0x460int, 0x460int), (0x462int, 0x462int), (0x464int, 0x464int), (0x466int, 0x466int)]
}

pub open spec fn uppercase_letter_chunk_22() -> Seq<SRange> {
    seq![(0x468int, 0x468int), (0x46Aint, 0x46Aint), (0x46Cint, 0x46Cint), (0x46Eint, 0x46Eint), (0x470int, 0x470int), (0x472int, 0x472int), (0x474int, 0x474int), (0x476int, 0x476int)]
}

pub open spec fn uppercase_letter_chunk_23() -> Seq<SRange> {
    seq![(0x478int, 0x478int), (0x47Aint, 0x47Aint), (0x47Cint, 0x47Cint), (0x47Eint, 0x47Eint), (0x480int, 0x480int), (0x48Aint, 0x48Aint), (0x48Cint, 0x48Cint), (0x48Eint, 0x48Eint)]
}

pub open spec fn uppercase_letter_chunk_24() -> Seq<SRange> {
    seq![(0x490int, 0x490int), (0x492int, 0x492int), (0x494int, 0x494int), (0x496int, 0x496int), (0x498int, 0x498int), (0x49Aint, 0x49Aint), (0x49Cint, 0x49Cint), (0x49Eint, 0x49Eint)]
}

pub open spec fn uppercase_letter_chunk_25() -> Seq<SRange> {
    seq![(0x4A0int, 0x4A0int), (0x4A2int, 0x4A2int), (0x4A4int, 0x4A4int), (0x4A6int, 0x4A6int), (0x4A8int, 0x4A8int), (0x4AAint, 0x4AAint), (0x4ACint, 0x4ACint), (0x4AEint, 0x4AEint)]
}

pub open spec fn uppercase_letter_chunk_26() -> Seq<SRange> {
    seq![(0x4B0int, 0x4B0int), (0x4B2int, 0x4B2int), (0x4B4int, 0x4B4int), (0x4B6int, 0x4B6int), (0x4B8int, 0x4B8int), (0x4BAint, 0x4BAint), (0x4BCint, 0x4BCint), (0x4BEint, 0x4BEint)]
}

pub open spec fn uppercase_letter_chunk_27() -> Seq<SRange> {
    seq![(0x4C0int, 0x4C1int), (0x4C3int, 0x4C3int), (0x4C5int, 0x4C5int), (0x4C7int, 0x4C7int), (0x4C9int, 0x4C9int), (0x4CBint, 0x4CBint), (0x4CDint, 0x4CDint), (0x4D0int, 0x4D0int)]
}

pub open spec fn uppercase_letter_chunk_28() -> Seq<SRange> {
    seq![(0x4D2int, 0x4D2int), (0x4D4int, 0x4D4int), (0x4D6int, 0x4D6int), (0x4D8int, 0x4D8int), (0x4DAint, 0x4DAint), (0x4DCint, 0x4DCint), (0x4DEint, 0x4DEint), (0x4E0int, 0x4E0int)]
}

pub open spec fn uppercase_letter_chunk_29() -> Seq<SRange> {
    seq![(0x4E2int, 0x4E2int), (0x4E4int, 0x4E4int), (0x4E6int, 0x4E6int), (0x4E8int, 0x4E8int), (0x4EAint, 0x4EAint), (0x4ECint, 0x4ECint), (0x4EEint, 0x4EEint), (0x4F0int, 0x4F0int)]
}

pub open spec fn uppercase_letter_chunk_30() -> Seq<SRange> {
    seq![(0x4F2int, 0x4F2int), (0x4F4int, 0x4F4int), (0x4F6int, 0x4F6int), (0x4F8int, 0x4F8int), (0x4FAint, 0x4FAint), (0x4FCint, 0x4FCint), (0x4FEint, 0x4FEint), (0x500int, 0x500int)]
}

pub open spec fn uppercase_letter_chunk_31() -> Seq<SRange> {
    seq![(0x502int, 0x502int), (0x504int, 0x504int), (0x506int, 0x506int), (0x508int, 0x508int), (0x50Aint, 0x50Aint), (0x50Cint, 0x50Cint), (0x50Eint, 0x50Eint), (0x510int, 0x510int)]
}

pub open spec fn uppercase_letter_chunk_32() -> Seq<SRange> {
    seq![(0x512int, 0x512int), (0x514int, 0x514int), (0x516int, 0x516int), (0x518int, 0x518int), (0x51Aint, 0x51Aint), (0x51Cint, 0x51Cint), (0x51Eint, 0x51Eint), (0x520int, 0x520int)]
}

pub open spec fn uppercase_letter_chunk_33() -> Seq<SRange> {
    seq![(0x522int, 0x522int), (0x524int, 0x524int), (0x526int, 0x526int), (0x528int, 0x528int), (0x52Aint, 0x52Aint), (0x52Cint, 0x52Cint), (0x52Eint, 0x52Eint), (0x531int, 0x556int)]
}

pub open spec fn uppercase_letter_chunk_34() -> Seq<SRange> {
    seq![(0x10A0int, 0x10C5int), (0x10C7int, 0x10C7int), (0x10CDint, 0x10CDint), (0x13A0int, 0x13F5int), (0x1C89int, 0x1C89int), (0x1C90int, 0x1CBAint), (0x1CBDint, 0x1CBFint), (0x1E00int, 0x1E00int)]
}

pub open spec fn uppercase_letter_chunk_35() -> Seq<SRange> {
    seq![(0x1E02int, 0x1E02int), (0x1E04int, 0x1E04int), (0x1E06int, 0x1E06int), (0x1E08int, 0x1E08int), (0x1E0Aint, 0x1E0Aint), (0x1E0Cint, 0x1E0Cint), (0x1E0Eint, 0x1E0Eint), (0x1E10int, 0x1E10int)]
}

pub open spec fn uppercase_letter_chunk_36() -> Seq<SRange> {
    seq![(0x1E12int, 0x1E12int), (0x1E14int, 0x1E14int), (0x1E16int, 0x1E16int), (0x1E18int, 0x1E18int), (0x1E1Aint, 0x1E1Aint), (0x1E1Cint, 0x1E1Cint), (0x1E1Eint, 0x1E1Eint), (0x1E20int, 0x1E20int)]
}

pub open spec fn uppercase_letter_chunk_37() -> Seq<SRange> {
    seq![(0x1E22int, 0x1E22int), (0x1E24int, 0x1E24int), (0x1E26int, 0x1E26int), (0x1E28int, 0x1E28int), (0x1E2Aint, 0x1E2Aint), (0x1E2Cint, 0x1E2Cint), (0x1E2Eint, 0x1E2Eint), (0x1E30int, 0x1E30int)]
}

pub open spec fn uppercase_letter_chunk_38() -> Seq<SRange> {
    seq![(0x1E32int, 0x1E32int), (0x1E34int, 0x1E34int), (0x1E36int, 0x1E36int), (0x1E38int, 0x1E38int), (0x1E3Aint, 0x1E3Aint), (0x1E3Cint, 0x1E3Cint), (0x1E3Eint, 0x1E3Eint), (0x1E40int, 0x1E40int)]
}

pub open spec fn uppercase_letter_chunk_39() -> Seq<SRange> {
    seq![(0x1E42int, 0x1E42int), (0x1E44int, 0x1E44int), (0x1E46int, 0x1E46int), (0x1E48int, 0x1E48int), (0x1E4Aint, 0x1E4Aint), (0x1E4Cint, 0x1E4Cint), (0x1E4Eint, 0x1E4Eint), (0x1E50int, 0x1E50int)]
}

pub open spec fn uppercase_letter_chunk_40() -> Seq<SRange> {
    seq![(0x1E52int, 0x1E52int), (0x1E54int, 0x1E54int), (0x1E56int, 0x1E56int), (0x1E58int, 0x1E58int), (0x1E5Aint, 0x1E5Aint), (0x1E5Cint, 0x1E5Cint), (0x1E5Eint, 0x1E5Eint), (0x1E60int, 0x1E60int)]
}

pub open spec fn uppercase_letter_chunk_41() -> Seq<SRange> {
    seq![(0x1E62int, 0x1E62int), (0x1E64int, 0x1E64int), (0x1E66int, 0x1E66int), (0x1E68int, 0x1E68int), (0x1E6Aint, 0x1E6Aint), (0x1E6Cint, 0x1E6Cint), (0x1E6Eint, 0x1E6Eint), (0x1E70int, 0x1E70int)]
}

pub open spec fn uppercase_letter_chunk_42() -> Seq<SRange> {
    seq![(0x1E72int, 0x1E72int), (0x1E74int, 0x1E74int), (0x1E76int, 0x1E76int), (0x1E78int, 0x1E78int), (0x1E7Aint, 0x1E7Aint), (0x1E7Cint, 0x1E7Cint), (0x1E7Eint, 0x1E7Eint), (0x1E80int, 0x1E80int)]
}

pub open spec fn uppercase_letter_chunk_43() -> Seq<SRange> {
    seq![(0x1E82int, 0x1E82int), (0x1E84int, 0x1E84int), (0x1E86int, 0x1E86int), (0x1E88int, 0x1E88int), (0x1E8Aint, 0x1E8Aint), (0x1E8Cint, 0x1E8Cint), (0x1E8Eint, 0x1E8Eint), (0x1E90int, 0x1E90int)]
}

pub open spec fn uppercase_letter_chunk_44() -> Seq<SRange> {
    seq![(0x1E92int, 0x1E92int), (0x1E94int, 0x1E94int), (0x1E9Eint, 0x1E9Eint), (0x1EA0int, 0x1EA0int), (0x1EA2int, 0x1EA2int), (0x1EA4int, 0x1EA4int), (0x1EA6int, 0x1EA6int), (0x1EA8int, 0x1EA8int)]
}

pub open spec fn uppercase_letter_chunk_45() -> Seq<SRange> {
    seq![(0x1EAAint, 0x1EAAint), (0x1EACint, 0x1EACint), (0x1EAEint, 0x1EAEint), (0x1EB0int, 0x1EB0int), (0x1EB2int, 0x1EB2int), (0x1EB4int, 0x1EB4int), (0x1EB6int, 0x1EB6int), (0x1EB8int, 0x1EB8int)]
}

pub open spec fn uppercase_letter_chunk_46() -> Seq<SRange> {
    seq![(0x1EBAint, 0x1EBAint), (0x1EBCint, 0x1EBCint), (0x1EBEint, 0x1EBEint), (0x1EC0int, 0x1EC0int), (0x1EC2int, 0x1EC2int), (0x1EC4int, 0x1EC4int), (0x1EC6int, 0x1EC6int), (0x1EC8int, 0x1EC8int)]
}

pub open spec fn uppercase_letter_chunk_47() -> Seq<SRange> {
    seq![(0x1ECAint, 0x1ECAint), (0x1ECCint, 0x1ECCint), (0x1ECEint, 0x1ECEint), (0x1ED0int, 0x1ED0int), (0x1ED2int, 0x1ED2int), (0x1ED4int, 0x1ED4int), (0x1ED6int, 0x1ED6int), (0x1ED8int, 0x1ED8int)]
}

pub open spec fn uppercase_letter_chunk_48() -> Seq<SRange> {
    seq![(0x1EDAint, 0x1EDAint), (0x1EDCint, 0x1EDCint), (0x1EDEint, 0x1EDEint), (0x1EE0int, 0x1EE0int), (0x1EE2int, 0x1EE2int), (0x1EE4int, 0x1EE4int), (0x1EE6int, 0x1EE6int), (0x1EE8int, 0x1EE8int)]
}

pub open spec fn uppercase_letter_chunk_49() -> Seq<SRange> {
    seq![(0x1EEAint, 0x1EEAint), (0x1EECint, 0x1EECint), (0x1EEEint, 0x1EEEint), (0x1EF0int, 0x1EF0int), (0x1EF2int, 0x1EF2int), (0x1EF4int, 0x1EF4int), (0x1EF6int, 0x1EF6int), (0x1EF8int, 0x1EF8int)]
}

pub open spec fn uppercase_letter_chunk_50() -> Seq<SRange> {
    seq![(0x1EFAint, 0x1EFAint), (0x1EFCint, 0x1EFCint), (0x1EFEint, 0x1EFEint), (0x1F08int, 0x1F0Fint), (0x1F18int, 0x1F1Dint), (0x1F28int, 0x1F2Fint), (0x1F38int, 0x1F3Fint), (0x1F48int, 0x1F4Dint)]
}

pub open spec fn uppercase_letter_chunk_51() -> Seq<SRange> {
    seq![(0x1F59int, 0x1F59int), (0x1F5Bint, 0x1F5Bint), (0x1F5Dint, 0x1F5Dint), (0x1F5Fint, 0x1F5Fint), (0x1F68int, 0x1F6Fint), (0x1FB8int, 0x1FBBint), (0x1FC8int, 0x1FCBint), (0x1FD8int, 0x1FDBint)]
}

pub open spec fn uppercase_letter_chunk_52() -> Seq<SRange> {
    seq![(0x1FE8int, 0x1FECint), (0x1FF8int, 0x1FFBint), (0x2102int, 0x2102int), (0x2107int, 0x2107int), (0x210Bint, 0x210Dint), (0x2110int, 0x2112int), (0x2115int, 0x2115int), (0x2119int, 0x211Dint)]
}

pub open spec fn uppercase_letter_chunk_53() -> Seq<SRange> {
    seq![(0x2124int, 0x2124int), (0x2126int, 0x2126int), (0x2128int, 0x2128int), (0x212Aint, 0x212Dint), (0x2130int, 0x2133int), (0x213Eint, 0x213Fint), (0x2145int, 0x2145int), (0x2183int, 0x2183int)]
}

pub open spec fn uppercase_letter_chunk_54() -> Seq<SRange> {
    seq![(0x2C00int, 0x2C2Fint), (0x2C60int, 0x2C60int), (0x2C62int, 0x2C64int), (0x2C67int, 0x2C67int), (0x2C69int, 0x2C69int), (0x2C6Bint, 0x2C6Bint), (0x2C6Dint, 0x2C70int), (0x2C72int, 0x2C72int)]
}

pub open spec fn uppercase_letter_chunk_55() -> Seq<SRange> {
    seq![(0x2C75int, 0x2C75int), (0x2C7Eint, 0x2C80int), (0x2C82int, 0x2C82int), (0x2C84int, 0x2C84int), (0x2C86int, 0x2C86int), (0x2C88int, 0x2C88int), (0x2C8Aint, 0x2C8Aint), (0x2C8Cint, 0x2C8Cint)]
}

pub open spec fn uppercase_letter_chunk_56() -> Seq<SRange> {
    seq![(0x2C8Eint, 0x2C8Eint), (0x2C90int, 0x2C90int), (0x2C92int, 0x2C92int), (0x2C94int, 0x2C94int), (0x2C96int, 0x2C96int), (0x2C98int, 0x2C98int), (0x2C9Aint, 0x2C9Aint), (0x2C9Cint, 0x2C9Cint)]
}

pub open spec fn uppercase_letter_chunk_57() -> Seq<SRange> {
    seq![(0x2C9Eint, 0x2C9Eint), (0x2CA0int, 0x2CA0int), (0x2CA2int, 0x2CA2int), (0x2CA4int, 0x2CA4int), (0x2CA6int, 0x2CA6int), (0x2CA8int, 0x2CA8int), (0x2CAAint, 0x2CAAint), (0x2CACint, 0x2CACint)]
}

pub open spec fn uppercase_letter_chunk_58() -> Seq<SRange> {
    seq![(0x2CAEint, 0x2CAEint), (0x2CB0int, 0x2CB0int), (0x2CB2int, 0x2CB2int), (0x2CB4int, 0x2CB4int), (0x2CB6int, 0x2CB6int), (0x2CB8int, 0x2CB8int), (0x2CBAint, 0x2CBAint), (0x2CBCint, 0x2CBCint)]
}

pub open spec fn uppercase_letter_chunk_59() -> Seq<SRange> {
    seq![(0x2CBEint, 0x2CBEint), (0x2CC0int, 0x2CC0int), (0x2CC2int, 0x2CC2int), (0x2CC4int, 0x2CC4int), (0x2CC6int, 0x2CC6int), (0x2CC8int, 0x2CC8int), (0x2CCAint, 0x2CCAint), (0x2CCCint, 0x2CCCint)]
}

pub open spec fn uppercase_letter_chunk_60() -> Seq<SRange> {
    seq![(0x2CCEint, 0x2CCEint), (0x2CD0int, 0x2CD0int), (0x2CD2int, 0x2CD2int), (0x2CD4int, 0x2CD4int), (0x2CD6int, 0x2CD6int), (0x2CD8int, 0x2CD8int), (0x2CDAint, 0x2CDAint), (0x2CDCint, 0x2CDCint)]
}

pub open spec fn uppercase_letter_chunk_61() -> Seq<SRange> {
    seq![(0x2CDEint, 0x2CDEint), (0x2CE0int, 0x2CE0int), (0x2CE2int, 0x2CE2int), (0x2CEBint, 0x2CEBint), (0x2CEDint, 0x2CEDint), (0x2CF2int, 0x2CF2int), (0xA640int, 0xA640int), (0xA642int, 0xA642int)]
}

pub open spec fn uppercase_letter_chunk_62() -> Seq<SRange> {
    seq![(0xA644int, 0xA644int), (0xA646int, 0xA646int), (0xA648int, 0xA648int), (0xA64Aint, 0xA64Aint), (0xA64Cint, 0xA64Cint), (0xA64Eint, 0xA64Eint), (0xA650int, 0xA650int), (0xA652int, 0xA652int)]
}

pub open spec fn uppercase_letter_chunk_63() -> Seq<SRange> {
    seq![(0xA654int, 0xA654int), (0xA656int, 0xA656int), (0xA658int, 0xA658int), (0xA65Aint, 0xA65Aint), (0xA65Cint, 0xA65Cint), (0xA65Eint, 0xA65Eint), (0xA660int, 0xA660int), (0xA662int, 0xA662int)]
}

pub open spec fn uppercase_letter_chunk_64() -> Seq<SRange> {
    seq![(0xA664int, 0xA664int), (0xA666int, 0xA666int), (0xA668int, 0xA668int), (0xA66Aint, 0xA66Aint), (0xA66Cint, 0xA66Cint), (0xA680int, 0xA680int), (0xA682int, 0xA682int), (0xA684int, 0xA684int)]
}

pub open spec fn uppercase_letter_chunk_65() -> Seq<SRange> {
    seq![(0xA686int, 0xA686int), (0xA688int, 0xA688int), (0xA68Aint, 0xA68Aint), (0xA68Cint, 0xA68Cint), (0xA68Eint, 0xA68Eint), (0xA690int, 0xA690int), (0xA692int, 0xA692int), (0xA694int, 0xA694int)]
}

pub open spec fn uppercase_letter_chunk_66() -> Seq<SRange> {
    seq![(0xA696int, 0xA696int), (0xA698int, 0xA698int), (0xA69Aint, 0xA69Aint), (0xA722int, 0xA722int), (0xA724int, 0xA724int), (0xA726int, 0xA726int), (0xA728int, 0xA728int), (0xA72Aint, 0xA72Aint)]
}

pub open spec fn uppercase_letter_chunk_67() -> Seq<SRange> {
    seq![(0xA72Cint, 0xA72Cint), (0xA72Eint, 0xA72Eint), (0xA732int, 0xA732int), (0xA734int, 0xA734int), (0xA736int, 0xA736int), (0xA738int, 0xA738int), (0xA73Aint, 0xA73Aint), (0xA73Cint, 0xA73Cint)]
}

pub open spec fn uppercase_letter_chunk_68() -> Seq<SRange> {
    seq![(0xA73Eint, 0xA73Eint), (0xA740int, 0xA740int), (0xA742int, 0xA742int), (0xA744int, 0xA744int), (0xA746int, 0xA746int), (0xA748int, 0xA748int), (0xA74Aint, 0xA74Aint), (0xA74Cint, 0xA74Cint)]
}

pub open spec fn uppercase_letter_chunk_69() -> Seq<SRange> {
    seq![(0xA74Eint, 0xA74Eint), (0xA750int, 0xA750int), (0xA752int, 0xA752int), (0xA754int, 0xA754int), (0xA756int, 0xA756int), (0xA758int, 0xA758int), (0xA75Aint, 0xA75Aint), (0xA75Cint, 0xA75Cint)]
}

pub open spec fn uppercase_letter_chunk_70() -> Seq<SRange> {
    seq![(0xA75Eint, 0xA75Eint), (0xA760int, 0xA760int), (0xA762int, 0xA762int), (0xA764int, 0xA764int), (0xA766int, 0xA766int), (0xA768int, 0xA768int), (0xA76Aint, 0xA76Aint), (0xA76Cint, 0xA76Cint)]
}

pub open spec fn uppercase_letter_chunk_71() -> Seq<SRange> {
    seq![(0xA76Eint, 0xA76Eint), (0xA779int, 0xA779int), (0xA77Bint, 0xA77Bint), (0xA77Dint, 0xA77Eint), (0xA780int, 0xA780int), (0xA782int, 0xA782int), (0xA784int, 0xA784int), (0xA786int, 0xA786int)]
}

pub open spec fn uppercase_letter_chunk_72() -> Seq<SRange> {
    seq![(0xA78Bint, 0xA78Bint), (0xA78Dint, 0xA78Dint), (0xA790int, 0xA790int), (0xA792int, 0xA792int), (0xA796int, 0xA796int), (0xA798int, 0xA798int), (0xA79Aint, 0xA79Aint), (0xA79Cint, 0xA79Cint)]
}

pub open spec fn uppercase_letter_chunk_73() -> Seq<SRange> {
    seq![(0xA79Eint, 0xA79Eint), (0xA7A0int, 0xA7A0int), (0xA7A2int, 0xA7A2int), (0xA7A4int, 0xA7A4int), (0xA7A6int, 0xA7A6int), (0xA7A8int, 0xA7A8int), (0xA7AAint, 0xA7AEint), (0xA7B0int, 0xA7B4int)]
}

pub open spec fn uppercase_letter_chunk_74() -> Seq<SRange> {
    seq![(0xA7B6int, 0xA7B6int), (0xA7B8int, 0xA7B8int), (0xA7BAint, 0xA7BAint), (0xA7BCint, 0xA7BCint), (0xA7BEint, 0xA7BEint), (0xA7C0int, 0xA7C0int), (0xA7C2int, 0xA7C2int), (0xA7C4int, 0xA7C7int)]
}

pub open spec fn uppercase_letter_chunk_75() -> Seq<SRange> {
    seq![(0xA7C9int, 0xA7C9int), (0xA7CBint, 0xA7CCint), (0xA7D0int, 0xA7D0int), (0xA7D6int, 0xA7D6int), (0xA7D8int, 0xA7D8int), (0xA7DAint, 0xA7DAint), (0xA7DCint, 0xA7DCint), (0xA7F5int, 0xA7F5int)]
}

pub open spec fn uppercase_letter_chunk_76() -> Seq<SRange> {
    seq![(0xFF21int, 0xFF3Aint), (0x10400int, 0x10427int), (0x104B0int, 0x104D3int), (0x10570int, 0x1057Aint), (0x1057Cint, 0x1058Aint), (0x1058Cint, 0x10592int), (0x10594int, 0x10595int), (0x10C80int, 0x10CB2int)]
}

pub open spec fn uppercase_letter_chunk_77() -> Seq<SRange> {
    seq![(0x10D50int, 0x10D65int), (0x118A0int, 0x118BFint), (0x16E40int, 0x16E5Fint), (0x1D400int, 0x1D419int), (0x1D434int, 0x1D44Dint), (0x1D468int, 0x1D481int), (0x1D49Cint, 0x1D49Cint), (0x1D49Eint, 0x1D49Fint)]
}

pub open spec fn uppercase_letter_chunk_78() -> Seq<SRange> {
    seq![(0x1D4A2int, 0x1D4A2int), (0x1D4A5int, 0x1D4A6int), (0x1D4A9int, 0x1D4ACint), (0x1D4AEint, 0x1D4B5int), (0x1D4D0int, 0x1D4E9int), (0x1D504int, 0x1D505int), (0x1D507int, 0x1D50Aint), (0x1D50Dint, 0x1D514int)]
}

pub open spec fn uppercase_letter_chunk_79() -> Seq<SRange> {
    seq![(0x1D516int, 0x1D51Cint), (0x1D538int, 0x1D539int), (0x1D53Bint, 0x1D53Eint), (0x1D540int, 0x1D544int), (0x1D546int, 0x1D546int), (0x1D54Aint, 0x1D550int), (0x1D56Cint, 0x1D585int), (0x1D5A0int, 0x1D5B9int)]
}

pub open spec fn uppercase_letter_chunk_80() -> Seq<SRange> {
    seq![(0x1D5D4int, 0x1D5EDint), (0x1D608int, 0x1D621int), (0x1D63Cint, 0x1D655int), (0x1D670int, 0x1D689int), (0x1D6A8int, 0x1D6C0int), (0x1D6E2int, 0x1D6FAint), (0x1D71Cint, 0x1D734int), (0x1D756int, 0x1D76Eint)]
}

pub open spec fn uppercase_letter_chunk_81() -> Seq<SRange> {
    seq![(0x1D790int, 0x1D7A8int), (0x1D7CAint, 0x1D7CAint), (0x1E900int, 0x1E921int)]
}

pub open spec fn uppercase_letter_block_0() -> Seq<SRange> {
    uppercase_letter_chunk_0() + uppercase_letter_chunk_1() + uppercase_letter_chunk_2() + uppercase_letter_chunk_3() + uppercase_letter_chunk_4() + uppercase_letter_chunk_5() + uppercase_letter_chunk_6() + uppercase_letter_chunk_7() + uppercase_letter_chunk_8() + uppercase_letter_chunk_9()
}

pub open spec fn uppercase_letter_block_1() -> Seq<SRange> {
    uppercase_letter_chunk_10() + uppercase_letter_chunk_11() + uppercase_letter_chunk_12() + uppercase_letter_chunk_13() + uppercase_letter_chunk_14() + uppercase_letter_chunk_15() + uppercase_letter_chunk_16() + uppercase_letter_chunk_17() + uppercase_letter_chunk_18() + uppercase_letter_chunk_19()
}

pub open spec fn uppercase_letter_block_2() -> Seq<SRange> {
    uppercase_letter_chunk_20() + uppercase_letter_chunk_21() + uppercase_letter_chunk_22() + uppercase_letter_chunk_23() + uppercase_letter_chunk_24() + uppercase_letter_chunk_25() + uppercase_letter_chunk_26() + uppercase_letter_chunk_27() + uppercase_letter_chunk_28() + uppercase_letter_chunk_29()
}

pub open spec fn uppercase_letter_block_3() -> Seq<SRange> {
    uppercase_letter_chunk_30() + uppercase_letter_chunk_31() + uppercase_letter_chunk_32() + uppercase_letter_chunk_33() + uppercase_letter_chunk_34() + uppercase_letter_chunk_35() + uppercase_letter_chunk_36() + uppercase_letter_chunk_37() + uppercase_letter_chunk_38() + uppercase_letter_chunk_39()
}

pub open spec fn uppercase_letter_block_4() -> Seq<SRange> {
    uppercase_letter_chunk_40() + uppercase_letter_chunk_41() + uppercase_letter_chunk_42() + uppercase_letter_chunk_43() + uppercase_letter_chunk_44() + uppercase_letter_chunk_45() + uppercase_letter_chunk_46() + uppercase_letter_chunk_47() + uppercase_letter_chunk_48() + uppercase_letter_chunk_49()
}

pub open spec fn uppercase_letter_block_5() -> Seq<SRange> {
    uppercase_letter_chunk_50() + uppercase_letter_chunk_51() + uppercase_letter_chunk_52() + uppercase_letter_chunk_53() + uppercase_letter_chunk_54() + uppercase_letter_chunk_55() + uppercase_letter_chunk_56() + uppercase_letter_chunk_57() + uppercase_letter_chunk_58() + uppercase_letter_chunk_59()
}

pub open spec fn uppercase_letter_block_6() -> Seq<SRange> {
    uppercase_letter_chunk_60() + uppercase_letter_chunk_61() + uppercase_letter_chunk_62() + uppercase_letter_chunk_63() + uppercase_letter_chunk_64() + uppercase_letter_chunk_65() + uppercase_letter_chunk_66() + uppercase_letter_chunk_67() + uppercase_letter_chunk_68() + uppercase_letter_chunk_69()
}

pub open spec fn uppercase_letter_block_7() -> Seq<SRange> {
    uppercase_letter_chunk_70() + uppercase_letter_chunk_71() + uppercase_letter_chunk_72() + uppercase_letter_chunk_73() + uppercase_letter_chunk_74() + uppercase_letter_chunk_75() + uppercase_letter_chunk_76() + uppercase_letter_chunk_77() + uppercase_letter_chunk_78() + uppercase_letter_chunk_79()
}

pub open spec fn uppercase_letter_block_8() -> Seq<SRange> {
    uppercase_letter_chunk_80() + uppercase_letter_chunk_81()
}

/// The ranges of the general category Uppercase_Letter.
pub open spec fn uppercase_letter_ranges() -> Seq<SRange> {
    uppercase_letter_block_0() + uppercase_letter_block_1() + uppercase_letter_block_2() + uppercase_letter_block_3() + uppercase_letter_block_4() + uppercase_letter_block_5() + uppercase_letter_block_6() + uppercase_letter_block_7() + uppercase_letter_block_8()
}

proof fn lemma_uppercase_letter_block_0()
    ensures
        canonical(uppercase_letter_block_0()),
        uppercase_letter_block_0().len() > 0,
        uppercase_letter_block_0()[0] == uppercase_letter_chunk_0()[0],
        uppercase_letter_block_0().last() == uppercase_letter_chunk_9().last(),
{
    reveal_with_fuel(canonical, 9);
    assert(canonical(uppercase_letter_chunk_0()));
    assert(canonical(uppercase_letter_chunk_1()));
    assert(canonical(uppercase_letter_chunk_2()));
    assert(canonical(uppercase_letter_chunk_3()));
    assert(canonical(uppercase_letter_chunk_4()));
    assert(canonical(uppercase_letter_chunk_5()));
    assert(canonical(uppercase_letter_chunk_6()));
    assert(canonical(uppercase_letter_chunk_7()));
    assert(canonical(uppercase_letter_chunk_8()));
    assert(canonical(uppercase_letter_chunk_9()));
    lemma_canonical_append(uppercase_letter_chunk_0(), uppercase_letter_chunk_1());
    lemma_canonical_append(uppercase_letter_chunk_0() + uppercase_letter_chunk_1(), uppercase_letter_chunk_2());
    lemma_canonical_append(uppercase_letter_chunk_0() + uppercase_letter_chunk_1() + uppercase_letter_chunk_2(), uppercase_letter_chunk_3());
    lemma_canonical_append(uppercase_letter_chunk_0() + uppercase_letter_chunk_1() + uppercase_letter_chunk_2() + uppercase_letter_chunk_3(), uppercase_letter_chunk_4());
    lemma_canonical_append(uppercase_letter_chunk_0() + uppercase_letter_chunk_1() + uppercase_letter_chunk_2() + uppercase_letter_chunk_3() + uppercase_letter_chunk_4(), uppercase_letter_chunk_5());
    lemma_canonical_append(uppercase_letter_chunk_0() + uppercase_letter_chunk_1() + uppercase_letter_chunk_2() + uppercase_letter_chunk_3() + uppercase_letter_chunk_4() + uppercase_letter_chunk_5(), uppercase_letter_chunk_6());
    lemma_canonical_append(uppercase_letter_chunk_0() + uppercase_letter_chunk_1() + uppercase_letter_chunk_2() + uppercase_letter_chunk_3() + uppercase_letter_chunk_4() + uppercase_letter_chunk_5() + uppercase_letter_chunk_6(), uppercase_letter_chunk_7());
    lemma_canonical_append(uppercase_letter_chunk_0() + uppercase_letter_chunk_1() + uppercase_letter_chunk_2() + uppercase_letter_chunk_3() + uppercase_letter_chunk_4() + uppercase_letter_chunk_5() + uppercase_letter_chunk_6() + uppercase_letter_chunk_7(), uppercase_letter_chunk_8());
    lemma_canonical_append(uppercase_letter_chunk_0() + uppercase_letter_chunk_1() + uppercase_letter_chunk_2() + uppercase_letter_chunk_3() + uppercase_letter_chunk_4() + uppercase_letter_chunk_5() + uppercase_letter_chunk_6() + uppercase_letter_chunk_7() + uppercase_letter_chunk_8(), uppercase_letter_chunk_9());
}

proof fn lemma_uppercase_letter_block_1()
    ensures
        canonical(uppercase_letter_block_1()),
        uppercase_letter_block_1().len() > 0,
        uppercase_letter_block_1()[0] == uppercase_letter_chunk_10()[0],
        uppercase_letter_block_1().last() == uppercase_letter_chunk_19().last(),
{
    reveal_with_fuel(canonical, 9);
    assert(canonical(uppercase_letter_chunk_10()));
    assert(canonical(uppercase_letter_chunk_11()));
    assert(canonical(uppercase_letter_chunk_12()));
    assert(canonical(uppercase_letter_chunk_13()));
    assert(canonical(uppercase_letter_chunk_14()));
    assert(canonical(uppercase_letter_chunk_15()));
    assert(canonical(uppercase_letter_chunk_16()));
    assert(canonical(uppercase_letter_chunk_17()));
    assert(canonical(uppercase_letter_chunk_18()));
    assert(canonical(uppercase_letter_chunk_19()));
    lemma_canonical_append(uppercase_letter_chunk_10(), uppercase_letter_chunk_11());
    lemma_canonical_append(uppercase_letter_chunk_10() + uppercase_letter_chunk_11(), uppercase_letter_chunk_12());
    lemma_canonical_append(uppercase_letter_chunk_10() + uppercase_letter_chunk_11() + uppercase_letter_chunk_12(), uppercase_letter_chunk_13());
    lemma_canonical_append(uppercase_letter_chunk_10() + uppercase_letter_chunk_11() + uppercase_letter_chunk_12() + uppercase_letter_chunk_13(), uppercase_letter_chunk_14());
    lemma_canonical_append(uppercase_letter_chunk_10() + uppercase_letter_chunk_11() + uppercase_letter_chunk_12() + uppercase_letter_chunk_13() + uppercase_letter_chunk_14(), uppercase_letter_chunk_15());
    lemma_canonical_append(uppercase_letter_chunk_10() + uppercase_letter_chunk_11() + uppercase_letter_chunk_12() + uppercase_letter_chunk_13() + uppercase_letter_chunk_14() + uppercase_letter_chunk_15(), uppercase_letter_chunk_16());
    lemma_canonical_append(uppercase_letter_chunk_10() + uppercase_letter_chunk_11() + uppercase_letter_chunk_12() + uppercase_letter_chunk_13() + uppercase_letter_chunk_14() + uppercase_letter_chunk_15() + uppercase_letter_chunk_16(), uppercase_letter_chunk_17());
    lemma_canonical_append(uppercase_letter_chunk_10() + uppercase_letter_chunk_11() + uppercase_letter_chunk_12() + uppercase_letter_chunk_13() + uppercase_letter_chunk_14() + uppercase_letter_chunk_15() + uppercase_letter_chunk_16() + uppercase_letter_chunk_17(), uppercase_letter_chunk_18());
    lemma_canonical_append(uppercase_letter_chunk_10() + uppercase_letter_chunk_11() + uppercase_letter_chunk_12() + uppercase_letter_chunk_13() + uppercase_letter_chunk_14() + uppercase_letter_chunk_15() + uppercase_letter_chunk_16() + uppercase_letter_chunk_17() + uppercase_letter_chunk_18(), uppercase_letter_chunk_19());
}

proof fn lemma_uppercase_letter_block_2()
    ensures
        canonical(uppercase_letter_block_2()),
        uppercase_letter_block_2().len() > 0,
        uppercase_letter_block_2()[0] == uppercase_letter_chunk_20()[0],
        uppercase_letter_block_2().last() == uppercase_letter_chunk_29().last(),
{
    reveal_with_fuel(canonical, 9);
    assert(canonical(uppercase_letter_chunk_20()));
    assert(canonical(uppercase_letter_chunk_21()));
    assert(canonical(uppercase_letter_chunk_22()));
    assert(canonical(uppercase_letter_chunk_23()));
    assert(canonical(uppercase_letter_chunk_24()));
    assert(canonical(uppercase_letter_chunk_25()));
    assert(canonical(uppercase_letter_chunk_26()));
    assert(canonical(uppercase_letter_chunk_27()));
    assert(canonical(uppercase_letter_chunk_28()));
    assert(canonical(uppercase_letter_chunk_29()));
    lemma_canonical_append(uppercase_letter_chunk_20(), uppercase_letter_chunk_21());
    lemma_canonical_append(uppercase_letter_chunk_20() + uppercase_letter_chunk_21(), uppercase_letter_chunk_22());
    lemma_canonical_append(uppercase_letter_chunk_20() + uppercase_letter_chunk_21() + uppercase_letter_chunk_22(), uppercase_letter_chunk_23());
    lemma_canonical_append(uppercase_letter_chunk_20() + uppercase_letter_chunk_21() + uppercase_letter_chunk_22() + uppercase_letter_chunk_23(), uppercase_letter_chunk_24());
    lemma_canonical_append(uppercase_letter_chunk_20() + uppercase_letter_chunk_21() + uppercase_letter_chunk_22() + uppercase_letter_chunk_23() + uppercase_letter_chunk_24(), uppercase_letter_chunk_25());
    lemma_canonical_append(uppercase_letter_chunk_20() + uppercase_letter_chunk_21() + uppercase_letter_chunk_22() + uppercase_letter_chunk_23() + uppercase_letter_chunk_24() + uppercase_letter_chunk_25(), uppercase_letter_chunk_26());
    lemma_canonical_append(uppercase_letter_chunk_20() + uppercase_letter_chunk_21() + uppercase_letter_chunk_22() + uppercase_letter_chunk_23() + uppercase_letter_chunk_24() + uppercase_letter_chunk_25() + uppercase_letter_chunk_26(), uppercase_letter_chunk_27());
    lemma_canonical_append(uppercase_letter_chunk_20() + uppercase_letter_chunk_21() + uppercase_letter_chunk_22() + uppercase_letter_chunk_23() + uppercase_letter_chunk_24() + uppercase_letter_chunk_25() + uppercase_letter_chunk_26() + uppercase_letter_chunk_27(), uppercase_letter_chunk_28());
    lemma_canonical_append(uppercase_letter_chunk_20() + uppercase_letter_chunk_21() + uppercase_letter_chunk_22() + uppercase_letter_chunk_23() + uppercase_letter_chunk_24() + uppercase_letter_chunk_25() + uppercase_letter_chunk_26() + uppercase_letter_chunk_27() + uppercase_letter_chunk_28(), uppercase_letter_chunk_29());
}

proof fn lemma_uppercase_letter_block_3()
    ensures
        canonical(uppercase_letter_block_3()),
        uppercase_letter_block_3().len() > 0,
        uppercase_letter_block_3()[0] == uppercase_letter_chunk_30()[0],
        uppercase_letter_block_3().last() == uppercase_letter_chunk_39().last(),
{
    reveal_with_fuel(canonical, 9);
    assert(canonical(uppercase_letter_chunk_30()));
    assert(canonical(uppercase_letter_chunk_31()));
    assert(canonical(uppercase_letter_chunk_32()));
    assert(canonical(uppercase_letter_chunk_33()));
    assert(canonical(uppercase_letter_chunk_34()));
    assert(canonical(uppercase_letter_chunk_35()));
    assert(canonical(uppercase_letter_chunk_36()));
    assert(canonical(uppercase_letter_chunk_37()));
    assert(canonical(uppercase_letter_chunk_38()));
    assert(canonical(uppercase_letter_chunk_39()));
    lemma_canonical_append(uppercase_letter_chunk_30(), uppercase_letter_chunk_31());
    lemma_canonical_append(uppercase_letter_chunk_30() + uppercase_letter_chunk_31(), uppercase_letter_chunk_32());
    lemma_canonical_append(uppercase_letter_chunk_30() + uppercase_letter_chunk_31() + uppercase_letter_chunk_32(), uppercase_letter_chunk_33());
    lemma_canonical_append(uppercase_letter_chunk_30() + uppercase_letter_chunk_31() + uppercase_letter_chunk_32() + uppercase_letter_chunk_33(), uppercase_letter_chunk_34());
    lemma_canonical_append(uppercase_letter_chunk_30() + uppercase_letter_chunk_31() + uppercase_letter_chunk_32() + uppercase_letter_chunk_33() + uppercase_letter_chunk_34(), uppercase_letter_chunk_35());
    lemma_canonical_append(uppercase_letter_chunk_30() + uppercase_letter_chunk_31() + uppercase_letter_chunk_32() + uppercase_letter_chunk_33() + uppercase_letter_chunk_34() + uppercase_letter_chunk_35(), uppercase_letter_chunk_36());
    lemma_canonical_append(uppercase_letter_chunk_30() + uppercase_letter_chunk_31() + uppercase_letter_chunk_32() + uppercase_letter_chunk_33() + uppercase_letter_chunk_34() + uppercase_letter_chunk_35() + uppercase_letter_chunk_36(), uppercase_letter_chunk_37());
    lemma_canonical_append(uppercase_letter_chunk_30() + uppercase_letter_chunk_31() + uppercase_letter_chunk_32() + uppercase_letter_chunk_33() + uppercase_letter_chunk_34() + uppercase_letter_chunk_35() + uppercase_letter_chunk_36() + uppercase_letter_chunk_37(), uppercase_letter_chunk_38());
    lemma_canonical_append(uppercase_letter_chunk_30() + uppercase_letter_chunk_31() + uppercase_letter_chunk_32() + uppercase_letter_chunk_33() + uppercase_letter_chunk_34() + uppercase_letter_chunk_35() + uppercase_letter_chunk_36() + uppercase_letter_chunk_37() + uppercase_letter_chunk_38(), uppercase_letter_chunk_39());
}

proof fn lemma_uppercase_letter_block_4()
    ensures
        canonical(uppercase_letter_block_4()),
        uppercase_letter_block_4().len() > 0,
        uppercase_letter_block_4()[0] == uppercase_letter_chunk_40()[0],
        uppercase_letter_block_4().last() == uppercase_letter_chunk_49().last(),
{
    reveal_with_fuel(canonical, 9);
    assert(canonical(uppercase_letter_chunk_40()));
    assert(canonical(uppercase_letter_chunk_41()));
    assert(canonical(uppercase_letter_chunk_42()));
    assert(canonical(uppercase_letter_chunk_43()));
    assert(canonical(uppercase_letter_chunk_44()));
    assert(canonical(uppercase_letter_chunk_45()));
    assert(canonical(uppercase_letter_chunk_46()));
    assert(canonical(uppercase_letter_chunk_47()));
    assert(canonical(uppercase_letter_chunk_48()));
    assert(canonical(uppercase_letter_chunk_49()));
    lemma_canonical_append(uppercase_letter_chunk_40(), uppercase_letter_chunk_41());
    lemma_canonical_append(uppercase_letter_chunk_40() + uppercase_letter_chunk_41(), uppercase_letter_chunk_42());
    lemma_canonical_append(uppercase_letter_chunk_40() + uppercase_letter_chunk_41() + uppercase_letter_chunk_42(), uppercase_letter_chunk_43());
    lemma_canonical_append(uppercase_letter_chunk_40() + uppercase_letter_chunk_41() + uppercase_letter_chunk_42() + uppercase_letter_chunk_43(), uppercase_letter_chunk_44());
    lemma_canonical_append(uppercase_letter_chunk_40() + uppercase_letter_chunk_41() + uppercase_letter_chunk_42() + uppercase_letter_chunk_43() + uppercase_letter_chunk_44(), uppercase_letter_chunk_45());
    lemma_canonical_append(uppercase_letter_chunk_40() + uppercase_letter_chunk_41() + uppercase_letter_chunk_42() + uppercase_letter_chunk_43() + uppercase_letter_chunk_44() + uppercase_letter_chunk_45(), uppercase_letter_chunk_46());
    lemma_canonical_append(uppercase_letter_chunk_40() + uppercase_letter_chunk_41() + uppercase_letter_chunk_42() + uppercase_letter_chunk_43() + uppercase_letter_chunk_44() + uppercase_letter_chunk_45() + uppercase_letter_chunk_46(), uppercase_letter_chunk_47());
    lemma_canonical_append(uppercase_letter_chunk_40() + uppercase_letter_chunk_41() + uppercase_letter_chunk_42() + uppercase_letter_chunk_43() + uppercase_letter_chunk_44() + uppercase_letter_chunk_45() + uppercase_letter_chunk_46() + uppercase_letter_chunk_47(), uppercase_letter_chunk_48());
    lemma_canonical_append(uppercase_letter_chunk_40() + uppercase_letter_chunk_41() + uppercase_letter_chunk_42() + uppercase_letter_chunk_43() + uppercase_letter_chunk_44() + uppercase_letter_chunk_45() + uppercase_letter_chunk_46() + uppercase_letter_chunk_47() + uppercase_letter_chunk_48(), uppercase_letter_chunk_49());
}

proof fn lemma_uppercase_letter_block_5()
    ensures
        canonical(uppercase_letter_block_5()),
        uppercase_letter_block_5().len() > 0,
        uppercase_letter_block_5()[0] == uppercase_letter_chunk_50()[0],
        uppercase_letter_block_5().last() == uppercase_letter_chunk_59().last(),
{
    reveal_with_fuel(canonical, 9);
    assert(canonical(uppercase_letter_chunk_50()));
    assert(canonical(uppercase_letter_chunk_51()));
    assert(canonical(uppercase_letter_chunk_52()));
    assert(canonical(uppercase_letter_chunk_53()));
    assert(canonical(uppercase_letter_chunk_54()));
    assert(canonical(uppercase_letter_chunk_55()));
    assert(canonical(uppercase_letter_chunk_56()));
    assert(canonical(uppercase_letter_chunk_57()));
    assert(canonical(uppercase_letter_chunk_58()));
    assert(canonical(uppercase_letter_chunk_59()));
    lemma_canonical_append(uppercase_letter_chunk_50(), uppercase_letter_chunk_51());
    lemma_canonical_append(uppercase_letter_chunk_50() + uppercase_letter_chunk_51(), uppercase_letter_chunk_52());
    lemma_canonical_append(uppercase_letter_chunk_50() + uppercase_letter_chunk_51() + uppercase_letter_chunk_52(), uppercase_letter_chunk_53());
    lemma_canonical_append(uppercase_letter_chunk_50() + uppercase_letter_chunk_51() + uppercase_letter_chunk_52() + uppercase_letter_chunk_53(), uppercase_letter_chunk_54());
    lemma_canonical_append(uppercase_letter_chunk_50() + uppercase_letter_chunk_51() + uppercase_letter_chunk_52() + uppercase_letter_chunk_53() + uppercase_letter_chunk_54(), uppercase_letter_chunk_55());
    lemma_canonical_append(uppercase_letter_chunk_50() + uppercase_letter_chunk_51() + uppercase_letter_chunk_52() + uppercase_letter_chunk_53() + uppercase_letter_chunk_54() + uppercase_letter_chunk_55(), uppercase_letter_chunk_56());
    lemma_canonical_append(uppercase_letter_chunk_50() + uppercase_letter_chunk_51() + uppercase_letter_chunk_52() + uppercase_letter_chunk_53() + uppercase_letter_chunk_54() + uppercase_letter_chunk_55() + uppercase_letter_chunk_56(), uppercase_letter_chunk_57());
    lemma_canonical_append(uppercase_letter_chunk_50() + uppercase_letter_chunk_51() + uppercase_letter_chunk_52() + uppercase_letter_chunk_53() + uppercase_letter_chunk_54() + uppercase_letter_chunk_55() + uppercase_letter_chunk_56() + uppercase_letter_chunk_57(), uppercase_letter_chunk_58());
    lemma_canonical_append(uppercase_letter_chunk_50() + uppercase_letter_chunk_51() + uppercase_letter_chunk_52() + uppercase_letter_chunk_53() + uppercase_letter_chunk_54() + uppercase_letter_chunk_55() + uppercase_letter_chunk_56() + uppercase_letter_chunk_57() + uppercase_letter_chunk_58(), uppercase_letter_chunk_59());
}

proof fn lemma_uppercase_letter_block_6()
    ensures
        canonical(uppercase_letter_block_6()),
        uppercase_letter_block_6().len() > 0,
        uppercase_letter_block_6()[0] == uppercase_letter_chunk_60()[0],
        uppercase_letter_block_6().last() == uppercase_letter_chunk_69().last(),
{
    reveal_with_fuel(canonical, 9);
    assert(canonical(uppercase_letter_chunk_60()));
    assert(canonical(uppercase_letter_chunk_61()));
    assert(canonical(uppercase_letter_chunk_62()));
    assert(canonical(uppercase_letter_chunk_63()));
    assert(canonical(uppercase_letter_chunk_64()));
    assert(canonical(uppercase_letter_chunk_65()));
    assert(canonical(uppercase_letter_chunk_66()));
    assert(canonical(uppercase_letter_chunk_67()));
    assert(canonical(uppercase_letter_chunk_68()));
    assert(canonical(uppercase_letter_chunk_69()));
    lemma_canonical_append(uppercase_letter_chunk_60(), uppercase_letter_chunk_61());
    lemma_canonical_append(uppercase_letter_chunk_60() + uppercase_letter_chunk_61(), uppercase_letter_chunk_62());
    lemma_canonical_append(uppercase_letter_chunk_60() + uppercase_letter_chunk_61() + uppercase_letter_chunk_62(), uppercase_letter_chunk_63());
    lemma_canonical_append(uppercase_letter_chunk_60() + uppercase_letter_chunk_61() + uppercase_letter_chunk_62() + uppercase_letter_chunk_63(), uppercase_letter_chunk_64());
    lemma_canonical_append(uppercase_letter_chunk_60() + uppercase_letter_chunk_61() + uppercase_letter_chunk_62() + uppercase_letter_chunk_63() + uppercase_letter_chunk_64(), uppercase_letter_chunk_65());
    lemma_canonical_append(uppercase_letter_chunk_60() + uppercase_letter_chunk_61() + uppercase_letter_chunk_62() + uppercase_letter_chunk_63() + uppercase_letter_chunk_64() + uppercase_letter_chunk_65(), uppercase_letter_chunk_66());
    lemma_canonical_append(uppercase_letter_chunk_60() + uppercase_letter_chunk_61() + uppercase_letter_chunk_62() + uppercase_letter_chunk_63() + uppercase_letter_chunk_64() + uppercase_letter_chunk_65() + uppercase_letter_chunk_66(), uppercase_letter_chunk_67());
    lemma_canonical_append(uppercase_letter_chunk_60() + uppercase_letter_chunk_61() + uppercase_letter_chunk_62() + uppercase_letter_chunk_63() + uppercase_letter_chunk_64() + uppercase_letter_chunk_65() + uppercase_letter_chunk_66() + uppercase_letter_chunk_67(), uppercase_letter_chunk_68());
    lemma_canonical_append(uppercase_letter_chunk_60() + uppercase_letter_chunk_61() + uppercase_letter_chunk_62() + uppercase_letter_chunk_63() + uppercase_letter_chunk_64() + uppercase_letter_chunk_65() + uppercase_letter_chunk_66() + uppercase_letter_chunk_67() + uppercase_letter_chunk_68(), uppercase_letter_chunk_69());
}

proof fn lemma_uppercase_letter_block_7()
    ensures
        canonical(uppercase_letter_block_7()),
        uppercase_letter_block_7().len() > 0,
        uppercase_letter_block_7()[0] == uppercase_letter_chunk_70()[0],
        uppercase_letter_block_7().last() == uppercase_letter_chunk_79().last(),
{
    reveal_with_fuel(canonical, 9);
    assert(canonical(uppercase_letter_chunk_70()));
    assert(canonical(uppercase_letter_chunk_71()));
    assert(canonical(uppercase_letter_chunk_72()));
    assert(canonical(uppercase_letter_chunk_73()));
    assert(canonical(uppercase_letter_chunk_74()));
    assert(canonical(uppercase_letter_chunk_75()));
    assert(canonical(uppercase_letter_chunk_76()));
    assert(canonical(uppercase_letter_chunk_77()));
    assert(canonical(uppercase_letter_chunk_78()));
    assert(canonical(uppercase_letter_chunk_79()));
    lemma_canonical_append(uppercase_letter_chunk_70(), uppercase_letter_chunk_71());
    lemma_canonical_append(uppercase_letter_chunk_70() + uppercase_letter_chunk_71(), uppercase_letter_chunk_72());
    lemma_canonical_append(uppercase_letter_chunk_70() + uppercase_letter_chunk_71() + uppercase_letter_chunk_72(), uppercase_letter_chunk_73());
    lemma_canonical_append(uppercase_letter_chunk_70() + uppercase_letter_chunk_71() + uppercase_letter_chunk_72() + uppercase_letter_chunk_73(), uppercase_letter_chunk_74());
    lemma_canonical_append(uppercase_letter_chunk_70() + uppercase_letter_chunk_71() + uppercase_letter_chunk_72() + uppercase_letter_chunk_73() + uppercase_letter_chunk_74(), uppercase_letter_chunk_75());
    lemma_canonical_append(uppercase_letter_chunk_70() + uppercase_letter_chunk_71() + uppercase_letter_chunk_72() + uppercase_letter_chunk_73() + uppercase_letter_chunk_74() + uppercase_letter_chunk_75(), uppercase_letter_chunk_76());
    lemma_canonical_append(uppercase_letter_chunk_70() + uppercase_letter_chunk_71() + uppercase_letter_chunk_72() + uppercase_letter_chunk_73() + uppercase_letter_chunk_74() + uppercase_letter_chunk_75() + uppercase_letter_chunk_76(), uppercase_letter_chunk_77());
    lemma_canonical_append(uppercase_letter_chunk_70() + uppercase_letter_chunk_71() + uppercase_letter_chunk_72() + uppercase_letter_chunk_73() + uppercase_letter_chunk_74() + uppercase_letter_chunk_75() + uppercase_letter_chunk_76() + uppercase_letter_chunk_77(), uppercase_letter_chunk_78());
    lemma_canonical_append(uppercase_letter_chunk_70() + uppercase_letter_chunk_71() + uppercase_letter_chunk_72() + uppercase_letter_chunk_73() + uppercase_letter_chunk_74() + uppercase_letter_chunk_75() + uppercase_letter_chunk_76() + uppercase_letter_chunk_77() + uppercase_letter_chunk_78(), uppercase_letter_chunk_79());
}

proof fn lemma_uppercase_letter_block_8()
    ensures
        canonical(uppercase_letter_block_8()),
        uppercase_letter_block_8().len() > 0,
        uppercase_letter_block_8()[0] == uppercase_letter_chunk_80()[0],
        uppercase_letter_block_8().last() == uppercase_letter_chunk_81().last(),
{
    reveal_with_fuel(canonical, 9);
    assert(canonical(uppercase_letter_chunk_80()));
    assert(canonical(uppercase_letter_chunk_81()));
    lemma_canonical_append(uppercase_letter_chunk_80(), uppercase_letter_chunk_81());
}

/// The general category Uppercase_Letter is a canonical class.
pub proof fn lemma_uppercase_letter_canonical()
    ensures
        canonical(uppercase_letter_ranges()),
{
    lemma_uppercase_letter_block_0();
    lemma_uppercase_letter_block_1();
    lemma_uppercase_letter_block_2();
    lemma_uppercase_letter_block_3();
    lemma_uppercase_letter_block_4();
    lemma_uppercase_letter_block_5();
    lemma_uppercase_letter_block_6();
    lemma_uppercase_letter_block_7();
    lemma_uppercase_letter_block_8();
    lemma_canonical_append(uppercase_letter_block_0(), uppercase_letter_block_1());
    lemma_canonical_append(uppercase_letter_block_0() + uppercase_letter_block_1(), uppercase_letter_block_2());
    lemma_canonical_append(uppercase_letter_block_0() + uppercase_letter_block_1() + uppercase_letter_block_2(), uppercase_letter_block_3());
    lemma_canonical_append(uppercase_letter_block_0() + uppercase_letter_block_1() + uppercase_letter_block_2() + uppercase_letter_block_3(), uppercase_letter_block_4());
    lemma_canonical_append(uppercase_letter_block_0() + uppercase_letter_block_1() + uppercase_letter_block_2() + uppercase_letter_block_3() + uppercase_letter_block_4(), uppercase_letter_block_5());
    lemma_canonical_append(uppercase_letter_block_0() + uppercase_letter_block_1() + uppercase_letter_block_2() + uppercase_letter_block_3() + uppercase_letter_block_4() + uppercase_letter_block_5(), uppercase_letter_block_6());
    lemma_canonical_append(uppercase_letter_block_0() + uppercase_letter_block_1() + uppercase_letter_block_2() + uppercase_letter_block_3() + uppercase_letter_block_4() + uppercase_letter_block_5() + uppercase_letter_block_6(), uppercase_letter_block_7());
    lemma_canonical_append(uppercase_letter_block_0() + uppercase_letter_block_1() + uppercase_letter_block_2() + uppercase_letter_block_3() + uppercase_letter_block_4() + uppercase_letter_block_5() + uppercase_letter_block_6() + uppercase_letter_block_7(), uppercase_letter_block_8());
}

fn push_uppercase_letter_chunk_0(v: &mut Vec<ClassUnicodeRange>)
    ensures
        rview(final(v)@) == rview(old(v)@) + uppercase_letter_chunk_0(),
{
    let ghost o = rview(v@);
    push_range(v, '\u{41}', '\u{5A}');
    push_range(v, '\u{C0}', '\u{D6}');
    push_range(v, '\u{D8}', '\u{DE}');
    push_range(v, '\u{100}', '\u{100}');
    push_range(v, '\u{102}', '\u{102}');
    push_range(v, '\u{104}', '\u{104}');
    push_range(v, '\u{106}', '\u{106}');
    push_range(v, '\u{108}', '\u{108}');
    assert(rview(v@) =~= o + uppercase_letter_chunk_0());
}

fn push_uppercase_letter_chunk_1(v: &mut Vec<ClassUnicodeRange>)
    ensures
        rview(final(v)@) == rview(old(v)@) + uppercase_letter_chunk_1(),
{
    let ghost o = rview(v@);
    push_range(v, '\u{10A}', '\u{10A}');
    push_range(v, '\u{10C}', '\u{10C}');
    push_range(v, '\u{10E}', '\u{10E}');
    push_range(v, '\u{110}', '\u{110}');
    push_range(v, '\u{112}', '\u{112}');
    push_range(v, '\u{114}', '\u{114}');
    push_range(v, '\u{116}', '\u{116}');
    push_range(v, '\u{118}', '\u{118}');
    assert(rview(v@) =~= o + uppercase_letter_chunk_1());
}

fn push_uppercase_letter_chunk_2(v: &mut Vec<ClassUnicodeRange>)
    ensures
        rview(final(v)@) == rview(old(v)@) + uppercase_letter_chunk_2(),
{
    let ghost o = rview(v@);
    push_range(v, '\u{11A}', '\u{11A}');
    push_range(v, '\u{11C}', '\u{11C}');
    push_range(v, '\u{11E}', '\u{11E}');
    push_range(v, '\u{120}', '\u{120}');
    push_range(v, '\u{122}', '\u{122}');
    push_range(v, '\u{124}', '\u{124}');
    push_range(v, '\u{126}', '\u{126}');
    push_range(v, '\u{128}', '\u{128}');
    assert(rview(v@) =~= o + uppercase_letter_chunk_2());
}

fn push_uppercase_letter_chunk_3(v: &mut Vec<ClassUnicodeRange>)
    ensures
        rview(final(v)@) == rview(old(v)@) + uppercase_letter_chunk_3(),
{
    let ghost o = rview(v@);
    push_range(v, '\u{12A}', '\u{12A}');
    push_range(v, '\u{12C}', '\u{12C}');
    push_range(v, '\u{12E}', '\u{12E}');
    push_range(v, '\u{130}', '\u{130}');
    push_range(v, '\u{132}', '\u{132}');
    push_range(v, '\u{134}', '\u{134}');
    push_range(v, '\u{136}', '\u{136}');
    push_range(v, '\u{139}', '\u{139}');
    assert(rview(v@) =~= o + uppercase_letter_chunk_3());
}

fn push_uppercase_letter_chunk_4(v: &mut Vec<ClassUnicodeRange>)
    ensures
        rview(final(v)@) == rview(old(v)@) + uppercase_letter_chunk_4(),
{
    let ghost o = rview(v@);
    push_range(v, '\u{13B}', '\u{13B}');
    push_range(v, '\u{13D}', '\u{13D}');
    push_range(v, '\u{13F}', '\u{13F}');
    push_range(v, '\u{141}', '\u{141}');
    push_range(v, '\u{143}', '\u{143}');
    push_range(v, '\u{145}', '\u{145}');
    push_range(v, '\u{147}', '\u{147}');
    push_range(v, '\u{14A}', '\u{14A}');
    assert(rview(v@) =~= o + uppercase_letter_chunk_4());
}

fn push_uppercase_letter_chunk_5(v: &mut Vec<ClassUnicodeRange>)
    ensures
        rview(final(v)@) == rview(old(v)@) + uppercase_letter_chunk_5(),
{
    let ghost o = rview(v@);
    push_range(v, '\u{14C}', '\u{14C}');
    push_range(v, '\u{14E}', '\u{14E}');
    push_range(v, '\u{150}', '\u{150}');
    push_range(v, '\u{152}', '\u{152}');
    push_range(v, '\u{154}', '\u{154}');
    push_range(v, '\u{156}', '\u{156}');
    push_range(v, '\u{158}', '\u{158}');
    push_range(v, '\u{15A}', '\u{15A}');
    assert(rview(v@) =~= o + uppercase_letter_chunk_5());
}

fn push_uppercase_letter_chunk_6(v: &mut Vec<ClassUnicodeRange>)
    ensures
        rview(final(v)@) == rview(old(v)@) + uppercase_letter_chunk_6(),
{
    let ghost o = rview(v@);
    push_range(v, '\u{15C}', '\u{15C}');
    push_range(v, '\u{15E}', '\u{15E}');
    push_range(v, '\u{160}', '\u{160}');
    push_range(v, '\u{162}', '\u{162}');
    push_range(v, '\u{164}', '\u{164}');
    push_range(v, '\u{166}', '\u{166}');
    push_range(v, '\u{168}', '\u{168}');
    push_range(v, '\u{16A}', '\u{16A}');
    assert(rview(v@) =~= o + uppercase_letter_chunk_6());
}

fn push_uppercase_letter_chunk_7(v: &mut Vec<ClassUnicodeRange>)
    ensures
        rview(final(v)@) == rview(old(v)@) + uppercase_letter_chunk_7(),
{
    let ghost o = rview(v@);
    push_range(v, '\u{16C}', '\u{16C}');
    push_range(v, '\u{16E}', '\u{16E}');
    push_range(v, '\u{170}', '\u{170}');
    push_range(v, '\u{172}', '\u{172}');
    push_range(v, '\u{174}', '\u{174}');
    push_range(v, '\u{176}', '\u{176}');
    push_range(v, '\u{178}', '\u{179}');
    push_range(v, '\u{17B}', '\u{17B}');
    assert(rview(v@) =~= o + uppercase_letter_chunk_7());
}

fn push_uppercase_letter_chunk_8(v: &mut Vec<ClassUnicodeRange>)
    ensures
        rview(final(v)@) == rview(old(v)@) + uppercase_letter_chunk_8(),
{
    let ghost o = rview(v@);
    push_range(v, '\u{17D}', '\u{17D}');
    push_range(v, '\u{181}', '\u{182}');
    push_range(v, '\u{184}', '\u{184}');
    push_range(v, '\u{186}', '\u{187}');
    push_range(v, '\u{189}', '\u{18B}');
    push_range(v, '\u{18E}', '\u{191}');
    push_range(v, '\u{193}', '\u{194}');
    push_range(v, '\u{196}', '\u{198}');
    assert(rview(v@) =~= o + uppercase_letter_chunk_8());
}

fn push_uppercase_letter_chunk_9(v: &mut Vec<ClassUnicodeRange>)
    ensures
        rview(final(v)@) == rview(old(v)@) + uppercase_letter_chunk_9(),
{
    let ghost o = rview(v@);
    push_range(v, '\u{19C}', '\u{19D}');
    push_range(v, '\u{19F}', '\u{1A0}');
    push_range(v, '\u{1A2}', '\u{1A2}');
    push_range(v, '\u{1A4}', '\u{1A4}');
    push_range(v, '\u{1A6}', '\u{1A7}');
    push_range(v, '\u{1A9}', '\u{1A9}');
    push_range(v, '\u{1AC}', '\u{1AC}');
    push_range(v, '\u{1AE}', '\u{1AF}');
    assert(rview(v@) =~= o + uppercase_letter_chunk_9());
}

fn push_uppercase_letter_chunk_10(v: &mut Vec<ClassUnicodeRange>)
    ensures
        rview(final(v)@) == rview(old(v)@) + uppercase_letter_chunk_10(),
{
    let ghost o = rview(v@);
    push_range(v, '\u{1B1}', '\u{1B3}');
    push_range(v, '\u{1B5}', '\u{1B5}');
    push_range(v, '\u{1B7}', '\u{1B8}');
    push_range(v, '\u{1BC}', '\u{1BC}');
    push_range(v, '\u{1C4}', '\u{1C4}');
    push_range(v, '\u{1C7}', '\u{1C7}');
    push_range(v, '\u{1CA}', '\u{1CA}');
    push_range(v, '\u{1CD}', '\u{1CD}');
    assert(rview(v@) =~= o + uppercase_letter_chunk_10());
}

fn push_uppercase_letter_chunk_11(v: &mut Vec<ClassUnicodeRange>)
    ensures
        rview(final(v)@) == rview(old(v)@) + uppercase_letter_chunk_11(),
{
    let ghost o = rview(v@);
    push_range(v, '\u{1CF}', '\u{1CF}');
    push_range(v, '\u{1D1}', '\u{1D1}');
    push_range(v, '\u{1D3}', '\u{1D3}');
    push_range(v, '\u{1D5}', '\u{1D5}');
    push_range(v, '\u{1D7}', '\u{1D7}');
    push_range(v, '\u{1D9}', '\u{1D9}');
    push_range(v, '\u{1DB}', '\u{1DB}');
    push_range(v, '\u{1DE}', '\u{1DE}');
    assert(rview(v@) =~= o + uppercase_letter_chunk_11());
}

fn push_uppercase_letter_chunk_12(v: &mut Vec<ClassUnicodeRange>)
    ensures
        rview(final(v)@) == rview(old(v)@) + uppercase_letter_chunk_12(),
{
    let ghost o = rview(v@);
    push_range(v, '\u{1E0}', '\u{1E0}');
    push_range(v, '\u{1E2}', '\u{1E2}');
    push_range(v, '\u{1E4}', '\u{1E4}');
    push_range(v, '\u{1E6}', '\u{1E6}');
    push_range(v, '\u{1E8}', '\u{1E8}');
    push_range(v, '\u{1EA}', '\u{1EA}');
    push_range(v, '\u{1EC}', '\u{1EC}');
    push_range(v, '\u{1EE}', '\u{1EE}');
    assert(rview(v@) =~= o + uppercase_letter_chunk_12());
}

fn push_uppercase_letter_chunk_13(v: &mut Vec<ClassUnicodeRange>)
    ensures
        rview(final(v)@) == rview(old(v)@) + uppercase_letter_chunk_13(),
{
    let ghost o = rview(v@);
    push_range(v, '\u{1F1}', '\u{1F1}');
    push_range(v, '\u{1F4}', '\u{1F4}');
    push_range(v, '\u{1F6}', '\u{1F8}');
    push_range(v, '\u{1FA}', '\u{1FA}');
    push_range(v, '\u{1FC}', '\u{1FC}');
    push_range(v, '\u{1FE}', '\u{1FE}');
    push_range(v, '\u{200}', '\u{200}');
    push_range(v, '\u{202}', '\u{202}');
    assert(rview(v@) =~= o + uppercase_letter_chunk_13());
}

fn push_uppercase_letter_chunk_14(v: &mut Vec<ClassUnicodeRange>)
    ensures
        rview(final(v)@) == rview(old(v)@) + uppercase_letter_chunk_14(),
{
    let ghost o = rview(v@);
    push_range(v, '\u{204}', '\u{204}');
    push_range(v, '\u{206}', '\u{206}');
    push_range(v, '\u{208}', '\u{208}');
    push_range(v, '\u{20A}', '\u{20A}');
    push_range(v, '\u{20C}', '\u{20C}');
    push_range(v, '\u{20E}', '\u{20E}');
    push_range(v, '\u{210}', '\u{210}');
    push_range(v, '\u{212}', '\u{212}');
    assert(rview(v@) =~= o + uppercase_letter_chunk_14());
}

fn push_uppercase_letter_chunk_15(v: &mut Vec<ClassUnicodeRange>)
    ensures
        rview(final(v)@) == rview(old(v)@) + uppercase_letter_chunk_15(),
{
    let ghost o = rview(v@);
    push_range(v, '\u{214}', '\u{214}');
    push_range(v, '\u{216}', '\u{216}');
    push_range(v, '\u{218}', '\u{218}');
    push_range(v, '\u{21A}', '\u{21A}');
    push_range(v, '\u{21C}', '\u{21C}');
    push_range(v, '\u{21E}', '\u{21E}');
    push_range(v, '\u{220}', '\u{220}');
    push_range(v, '\u{222}', '\u{222}');
    assert(rview(v@) =~= o + uppercase_letter_chunk_15());
}

fn push_uppercase_letter_chunk_16(v: &mut Vec<ClassUnicodeRange>)
    ensures
        rview(final(v)@) == rview(old(v)@) + uppercase_letter_chunk_16(),
{
    let ghost o = rview(v@);
    push_range(v, '\u{224}', '\u{224}');
    push_range(v, '\u{226}', '\u{226}');
    push_range(v, '\u{228}', '\u{228}');
    push_range(v, '\u{22A}', '\u{22A}');
    push_range(v, '\u{22C}', '\u{22C}');
    push_range(v, '\u{22E}', '\u{22E}');
    push_range(v, '\u{230}', '\u{230}');
    push_range(v, '\u{232}', '\u{232}');
    assert(rview(v@) =~= o + uppercase_letter_chunk_16());
}

fn push_uppercase_letter_chunk_17(v: &mut Vec<ClassUnicodeRange>)
    ensures
        rview(final(v)@) == rview(old(v)@) + uppercase_letter_chunk_17(),
{
    let ghost o = rview(v@);
    push_range(v, '\u{23A}', '\u{23B}');
    push_range(v, '\u{23D}', '\u{23E}');
    push_range(v, '\u{241}', '\u{241}');
    push_range(v, '\u{243}', '\u{246}');
    push_range(v, '\u{248}', '\u{248}');
    push_range(v, '\u{24A}', '\u{24A}');
    push_range(v, '\u{24C}', '\u{24C}');
    push_range(v, '\u{24E}', '\u{24E}');
    assert(rview(v@) =~= o + uppercase_letter_chunk_17());
}

fn push_uppercase_letter_chunk_18(v: &mut Vec<ClassUnicodeRange>)
    ensures
        rview(final(v)@) == rview(old(v)@) + uppercase_letter_chunk_18(),
{
    let ghost o = rview(v@);
    push_range(v, '\u{370}', '\u{370}');
    push_range(v, '\u{372}', '\u{372}');
    push_range(v, '\u{376}', '\u{376}');
    push_range(v, '\u{37F}', '\u{37F}');
    push_range(v, '\u{386}', '\u{386}');
    push_range(v, '\u{388}', '\u{38A}');
    push_range(v, '\u{38C}', '\u{38C}');
    push_range(v, '\u{38E}', '\u{38F}');
    assert(rview(v@) =~= o + uppercase_letter_chunk_18());
}

fn push_uppercase_letter_chunk_19(v: &mut Vec<ClassUnicodeRange>)
    ensures
        rview(final(v)@) == rview(old(v)@) + uppercase_letter_chunk_19(),
{
    let ghost o = rview(v@);
    push_range(v, '\u{391}', '\u{3A1}');
    push_range(v, '\u{3A3}', '\u{3AB}');
    push_range(v, '\u{3CF}', '\u{3CF}');
    push_range(v, '\u{3D2}', '\u{3D4}');
    push_range(v, '\u{3D8}', '\u{3D8}');
    push_range(v, '\u{3DA}', '\u{3DA}');
    push_range(v, '\u{3DC}', '\u{3DC}');
    push_range(v, '\u{3DE}', '\u{3DE}');
    assert(rview(v@) =~= o + uppercase_letter_chunk_19());
}

fn push_uppercase_letter_chunk_20(v: &mut Vec<ClassUnicodeRange>)
    ensures
        rview(final(v)@) == rview(old(v)@) + uppercase_letter_chunk_20(),
{
    let ghost o = rview(v@);
    push_range(v, '\u{3E0}', '\u{3E0}');
    push_range(v, '\u{3E2}', '\u{3E2}');
    push_range(v, '\u{3E4}', '\u{3E4}');
    push_range(v, '\u{3E6}', '\u{3E6}');
    push_range(v, '\u{3E8}', '\u{3E8}');
    push_range(v, '\u{3EA}', '\u{3EA}');
    push_range(v, '\u{3EC}', '\u{3EC}');
    push_range(v, '\u{3EE}', '\u{3EE}');
    assert(rview(v@) =~= o + uppercase_letter_chunk_20());
}

fn push_uppercase_letter_chunk_21(v: &mut Vec<ClassUnicodeRange>)
    ensures
        rview(final(v)@) == rview(old(v)@) + uppercase_letter_chunk_21(),
{
    let ghost o = rview(v@);
    push_range(v, '\u{3F4}', '\u{3F4}');
    push_range(v, '\u{3F7}', '\u{3F7}');
    push_range(v, '\u{3F9}', '\u{3FA}');
    push_range(v, '\u{3FD}', '\u{42F}');
    push_range(v, '\u{460}', '\u{460}');
    push_range(v, '\u{462}', '\u{462}');
    push_range(v, '\u{464}', '\u{464}');
    push_range(v, '\u{466}', '\u{466}');
    assert(rview(v@) =~= o + uppercase_letter_chunk_21());
}

fn push_uppercase_letter_chunk_22(v: &mut Vec<ClassUnicodeRange>)
    ensures
        rview(final(v)@) == rview(old(v)@) + uppercase_letter_chunk_22(),
{
    let ghost o = rview(v@);
    push_range(v, '\u{468}', '\u{468}');
    push_range(v, '\u{46A}', '\u{46A}');
    push_range(v, '\u{46C}', '\u{46C}');
    push_range(v, '\u{46E}', '\u{46E}');
    push_range(v, '\u{470}', '\u{470}');
    push_range(v, '\u{472}', '\u{472}');
    push_range(v, '\u{474}', '\u{474}');
    push_range(v, '\u{476}', '\u{476}');
    assert(rview(v@) =~= o + uppercase_letter_chunk_22());
}

fn push_uppercase_letter_chunk_23(v: &mut Vec<ClassUnicodeRange>)
    ensures
        rview(final(v)@) == rview(old(v)@) + uppercase_letter_chunk_23(),
{
    let ghost o = rview(v@);
    push_range(v, '\u{478}', '\u{478}');
    push_range(v, '\u{47A}', '\u{47A}');
    push_range(v, '\u{47C}', '\u{47C}');
    push_range(v, '\u{47E}', '\u{47E}');
    push_range(v, '\u{480}', '\u{480}');
    push_range(v, '\u{48A}', '\u{48A}');
    push_range(v, '\u{48C}', '\u{48C}');
    push_range(v, '\u{48E}', '\u{48E}');
    assert(rview(v@) =~= o + uppercase_letter_chunk_23());
}

fn push_uppercase_letter_chunk_24(v: &mut Vec<ClassUnicodeRange>)
    ensures
        rview(final(v)@) == rview(old(v)@) + uppercase_letter_chunk_24(),
{
    let ghost o = rview(v@);
    push_range(v, '\u{490}', '\u{490}');
    push_range(v, '\u{492}', '\u{492}');
    push_range(v, '\u{494}', '\u{494}');
    push_range(v, '\u{496}', '\u{496}');
    push_range(v, '\u{498}', '\u{498}');
    push_range(v, '\u{49A}', '\u{49A}');
    push_range(v, '\u{49C}', '\u{49C}');
    push_range(v, '\u{49E}', '\u{49E}');
    assert(rview(v@) =~= o + uppercase_letter_chunk_24());
}

fn push_uppercase_letter_chunk_25(v: &mut Vec<ClassUnicodeRange>)
    ensures
        rview(final(v)@) == rview(old(v)@) + uppercase_letter_chunk_25(),
{
    let ghost o = rview(v@);
    push_range(v, '\u{4A0}', '\u{4A0}');
    push_range(v, '\u{4A2}', '\u{4A2}');
    push_range(v, '\u{4A4}', '\u{4A4}');
    push_range(v, '\u{4A6}', '\u{4A6}');
    push_range(v, '\u{4A8}', '\u{4A8}');
    push_range(v, '\u{4AA}', '\u{4AA}');
    push_range(v, '\u{4AC}', '\u{4AC}');
    push_range(v, '\u{4AE}', '\u{4AE}');
    assert(rview(v@) =~= o + uppercase_letter_chunk_25());
}

fn push_uppercase_letter_chunk_26(v: &mut Vec<ClassUnicodeRange>)
    ensures
        rview(final(v)@) == rview(old(v)@) + uppercase_letter_chunk_26(),
{
    let ghost o = rview(v@);
    push_range(v, '\u{4B0}', '\u{4B0}');
    push_range(v, '\u{4B2}', '\u{4B2}');
    push_range(v, '\u{4B4}', '\u{4B4}');
    push_range(v, '\u{4B6}', '\u{4B6}');
    push_range(v, '\u{4B8}', '\u{4B8}');
    push_range(v, '\u{4BA}', '\u{4BA}');
    push_range(v, '\u{4BC}', '\u{4BC}');
    push_range(v, '\u{4BE}', '\u{4BE}');
    assert(rview(v@) =~= o + uppercase_letter_chunk_26());
}

fn push_uppercase_letter_chunk_27(v: &mut Vec<ClassUnicodeRange>)
    ensures
        rview(final(v)@) == rview(old(v)@) + uppercase_letter_chunk_27(),
{
    let ghost o = rview(v@);
    push_range(v, '\u{4C0}', '\u{4C1}');
    push_range(v, '\u{4C3}', '\u{4C3}');
    push_range(v, '\u{4C5}', '\u{4C5}');
    push_range(v, '\u{4C7}', '\u{4C7}');
    push_range(v, '\u{4C9}', '\u{4C9}');
    push_range(v, '\u{4CB}', '\u{4CB}');
    push_range(v, '\u{4CD}', '\u{4CD}');
    push_range(v, '\u{4D0}', '\u{4D0}');
    assert(rview(v@) =~= o + uppercase_letter_chunk_27());
}

fn push_uppercase_letter_chunk_28(v: &mut Vec<ClassUnicodeRange>)
    ensures
        rview(final(v)@) == rview(old(v)@) + uppercase_letter_chunk_28(),
{
    let ghost o = rview(v@);
    push_range(v, '\u{4D2}', '\u{4D2}');
    push_range(v, '\u{4D4}', '\u{4D4}');
    push_range(v, '\u{4D6}', '\u{4D6}');
    push_range(v, '\u{4D8}', '\u{4D8}');
    push_range(v, '\u{4DA}', '\u{4DA}');
    push_range(v, '\u{4DC}', '\u{4DC}');
    push_range(v, '\u{4DE}', '\u{4DE}');
    push_range(v, '\u{4E0}', '\u{4E0}');
    assert(rview(v@) =~= o + uppercase_letter_chunk_28());
}

fn push_uppercase_letter_chunk_29(v: &mut Vec<ClassUnicodeRange>)
    ensures
        rview(final(v)@) == rview(old(v)@) + uppercase_letter_chunk_29(),
{
    let ghost o = rview(v@);
    push_range(v, '\u{4E2}', '\u{4E2}');
    push_range(v, '\u{4E4}', '\u{4E4}');
    push_range(v, '\u{4E6}', '\u{4E6}');
    push_range(v, '\u{4E8}', '\u{4E8}');
    push_range(v, '\u{4EA}', '\u{4EA}');
    push_range(v, '\u{4EC}', '\u{4EC}');
    push_range(v, '\u{4EE}', '\u{4EE}');
    push_range(v, '\u{4F0}', '\u{4F0}');
    assert(rview(v@) =~= o + uppercase_letter_chunk_29());
}

fn push_uppercase_letter_chunk_30(v: &mut Vec<ClassUnicodeRange>)
    ensures
        rview(final(v)@) == rview(old(v)@) + uppercase_letter_chunk_30(),
{
    let ghost o = rview(v@);
    push_range(v, '\u{4F2}', '\u{4F2}');
    push_range(v, '\u{4F4}', '\u{4F4}');
    push_range(v, '\u{4F6}', '\u{4F6}');
    push_range(v, '\u{4F8}', '\u{4F8}');
    push_range(v, '\u{4FA}', '\u{4FA}');
    push_range(v, '\u{4FC}', '\u{4FC}');
    push_range(v, '\u{4FE}', '\u{4FE}');
    push_range(v, '\u{500}', '\u{500}');
    assert(rview(v@) =~= o + uppercase_letter_chunk_30());
}

fn push_uppercase_letter_chunk_31(v: &mut Vec<ClassUnicodeRange>)
    ensures
        rview(final(v)@) == rview(old(v)@) + uppercase_letter_chunk_31(),
{
    let ghost o = rview(v@);
    push_range(v, '\u{502}', '\u{502}');
    push_range(v, '\u{504}', '\u{504}');
    push_range(v, '\u{506}', '\u{506}');
    push_range(v, '\u{508}', '\u{508}');
    push_range(v, '\u{50A}', '\u{50A}');
    push_range(v, '\u{50C}', '\u{50C}');
    push_range(v, '\u{50E}', '\u{50E}');
    push_range(v, '\u{510}', '\u{510}');
    assert(rview(v@) =~= o + uppercase_letter_chunk_31());
}

fn push_uppercase_letter_chunk_32(v: &mut Vec<ClassUnicodeRange>)
    ensures
        rview(final(v)@) == rview(old(v)@) + uppercase_letter_chunk_32(),
{
    let ghost o = rview(v@);
    push_range(v, '\u{512}', '\u{512}');
    push_range(v, '\u{514}', '\u{514}');
    push_range(v, '\u{516}', '\u{516}');
    push_range(v, '\u{518}', '\u{518}');
    push_range(v, '\u{51A}', '\u{51A}');
    push_range(v, '\u{51C}', '\u{51C}');
    push_range(v, '\u{51E}', '\u{51E}');
    push_range(v, '\u{520}', '\u{520}');
    assert(rview(v@) =~= o + uppercase_letter_chunk_32());
}

fn push_uppercase_letter_chunk_33(v: &mut Vec<ClassUnicodeRange>)
    ensures
        rview(final(v)@) == rview(old(v)@) + uppercase_letter_chunk_33(),
{
    let ghost o = rview(v@);
    push_range(v, '\u{522}', '\u{522}');
    push_range(v, '\u{524}', '\u{524}');
    push_range(v, '\u{526}', '\u{526}');
    push_range(v, '\u{528}', '\u{528}');
    push_range(v, '\u{52A}', '\u{52A}');
    push_range(v, '\u{52C}', '\u{52C}');
    push_range(v, '\u{52E}', '\u{52E}');
    push_range(v, '\u{531}', '\u{556}');
    assert(rview(v@) =~= o + uppercase_letter_chunk_33());
}

fn push_uppercase_letter_chunk_34(v: &mut Vec<ClassUnicodeRange>)
    ensures
        rview(final(v)@) == rview(old(v)@) + uppercase_letter_chunk_34(),
{
    let ghost o = rview(v@);
    push_range(v, '\u{10A0}', '\u{10C5}');
    push_range(v, '\u{10C7}', '\u{10C7}');
    push_range(v, '\u{10CD}', '\u{10CD}');
    push_range(v, '\u{13A0}', '\u{13F5}');
    push_range(v, '\u{1C89}', '\u{1C89}');
    push_range(v, '\u{1C90}', '\u{1CBA}');
    push_range(v, '\u{1CBD}', '\u{1CBF}');
    push_range(v, '\u{1E00}', '\u{1E00}');
    assert(rview(v@) =~= o + uppercase_letter_chunk_34());
}

fn push_uppercase_letter_chunk_35(v: &mut Vec<ClassUnicodeRange>)
    ensures
        rview(final(v)@) == rview(old(v)@) + uppercase_letter_chunk_35(),
{
    let ghost o = rview(v@);
    push_range(v, '\u{1E02}', '\u{1E02}');
    push_range(v, '\u{1E04}', '\u{1E04}');
    push_range(v, '\u{1E06}', '\u{1E06}');
    push_range(v, '\u{1E08}', '\u{1E08}');
    push_range(v, '\u{1E0A}', '\u{1E0A}');
    push_range(v, '\u{1E0C}', '\u{1E0C}');
    push_range(v, '\u{1E0E}', '\u{1E0E}');
    push_range(v, '\u{1E10}', '\u{1E10}');
    assert(rview(v@) =~= o + uppercase_letter_chunk_35());
}

fn push_uppercase_letter_chunk_36(v: &mut Vec<ClassUnicodeRange>)
    ensures
        rview(final(v)@) == rview(old(v)@) + uppercase_letter_chunk_36(),
{
    let ghost o = rview(v@);
    push_range(v, '\u{1E12}', '\u{1E12}');
    push_range(v, '\u{1E14}', '\u{1E14}');
    push_range(v, '\u{1E16}', '\u{1E16}');
    push_range(v, '\u{1E18}', '\u{1E18}');
    push_range(v, '\u{1E1A}', '\u{1E1A}');
    push_range(v, '\u{1E1C}', '\u{1E1C}');
    push_range(v, '\u{1E1E}', '\u{1E1E}');
    push_range(v, '\u{1E20}', '\u{1E20}');
    assert(rview(v@) =~= o + uppercase_letter_chunk_36());
}

fn push_uppercase_letter_chunk_37(v: &mut Vec<ClassUnicodeRange>)
    ensures
        rview(final(v)@) == rview(old(v)@) + uppercase_letter_chunk_37(),
{
    let ghost o = rview(v@);
    push_range(v, '\u{1E22}', '\u{1E22}');
    push_range(v, '\u{1E24}', '\u{1E24}');
    push_range(v, '\u{1E26}', '\u{1E26}');
    push_range(v, '\u{1E28}', '\u{1E28}');
    push_range(v, '\u{1E2A}', '\u{1E2A}');
    push_range(v, '\u{1E2C}', '\u{1E2C}');
    push_range(v, '\u{1E2E}', '\u{1E2E}');
    push_range(v, '\u{1E30}', '\u{1E30}');
    assert(rview(v@) =~= o + uppercase_letter_chunk_37());
}

fn push_uppercase_letter_chunk_38(v: &mut Vec<ClassUnicodeRange>)
    ensures
        rview(final(v)@) == rview(old(v)@) + uppercase_letter_chunk_38(),
{
    let ghost o = rview(v@);
    push_range(v, '\u{1E32}', '\u{1E32}');
    push_range(v, '\u{1E34}', '\u{1E34}');
    push_range(v, '\u{1E36}', '\u{1E36}');
    push_range(v, '\u{1E38}', '\u{1E38}');
    push_range(v, '\u{1E3A}', '\u{1E3A}');
    push_range(v, '\u{1E3C}', '\u{1E3C}');
    push_range(v, '\u{1E3E}', '\u{1E3E}');
    push_range(v, '\u{1E40}', '\u{1E40}');
    assert(rview(v@) =~= o + uppercase_letter_chunk_38());
}

fn push_uppercase_letter_chunk_39(v: &mut Vec<ClassUnicodeRange>)
    ensures
        rview(final(v)@) == rview(old(v)@) + uppercase_letter_chunk_39(),
{
    let ghost o = rview(v@);
    push_range(v, '\u{1E42}', '\u{1E42}');
    push_range(v, '\u{1E44}', '\u{1E44}');
    push_range(v, '\u{1E46}', '\u{1E46}');
    push_range(v, '\u{1E48}', '\u{1E48}');
    push_range(v, '\u{1E4A}', '\u{1E4A}');
    push_range(v, '\u{1E4C}', '\u{1E4C}');
    push_range(v, '\u{1E4E}', '\u{1E4E}');
    push_range(v, '\u{1E50}', '\u{1E50}');
    assert(rview(v@) =~= o + uppercase_letter_chunk_39());
}

fn push_uppercase_letter_chunk_40(v: &mut Vec<ClassUnicodeRange>)
    ensures
        rview(final(v)@) == rview(old(v)@) + uppercase_letter_chunk_40(),
{
    let ghost o = rview(v@);
    push_range(v, '\u{1E52}', '\u{1E52}');
    push_range(v, '\u{1E54}', '\u{1E54}');
    push_range(v, '\u{1E56}', '\u{1E56}');
    push_range(v, '\u{1E58}', '\u{1E58}');
    push_range(v, '\u{1E5A}', '\u{1E5A}');
    push_range(v, '\u{1E5C}', '\u{1E5C}');
    push_range(v, '\u{1E5E}', '\u{1E5E}');
    push_range(v, '\u{1E60}', '\u{1E60}');
    assert(rview(v@) =~= o + uppercase_letter_chunk_40());
}

fn push_uppercase_letter_chunk_41(v: &mut Vec<ClassUnicodeRange>)
    ensures
        rview(final(v)@) == rview(old(v)@) + uppercase_letter_chunk_41(),
{
    let ghost o = rview(v@);
    push_range(v, '\u{1E62}', '\u{1E62}');
    push_range(v, '\u{1E64}', '\u{1E64}');
    push_range(v, '\u{1E66}', '\u{1E66}');
    push_range(v, '\u{1E68}', '\u{1E68}');
    push_range(v, '\u{1E6A}', '\u{1E6A}');
    push_range(v, '\u{1E6C}', '\u{1E6C}');
    push_range(v, '\u{1E6E}', '\u{1E6E}');
    push_range(v, '\u{1E70}', '\u{1E70}');
    assert(rview(v@) =~= o + uppercase_letter_chunk_41());
}

fn push_uppercase_letter_chunk_42(v: &mut Vec<ClassUnicodeRange>)
    ensures
        rview(final(v)@) == rview(old(v)@) + uppercase_letter_chunk_42(),
{
    let ghost o = rview(v@);
    push_range(v, '\u{1E72}', '\u{1E72}');
    push_range(v, '\u{1E74}', '\u{1E74}');
    push_range(v, '\u{1E76}', '\u{1E76}');
    push_range(v, '\u{1E78}', '\u{1E78}');
    push_range(v, '\u{1E7A}', '\u{1E7A}');
    push_range(v, '\u{1E7C}', '\u{1E7C}');
    push_range(v, '\u{1E7E}', '\u{1E7E}');
    push_range(v, '\u{1E80}', '\u{1E80}');
    assert(rview(v@) =~= o + uppercase_letter_chunk_42());
}

fn push_uppercase_letter_chunk_43(v: &mut Vec<ClassUnicodeRange>)
    ensures
        rview(final(v)@) == rview(old(v)@) + uppercase_letter_chunk_43(),
{
    let ghost o = rview(v@);
    push_range(v, '\u{1E82}', '\u{1E82}');
    push_range(v, '\u{1E84}', '\u{1E84}');
    push_range(v, '\u{1E86}', '\u{1E86}');
    push_range(v, '\u{1E88}', '\u{1E88}');
    push_range(v, '\u{1E8A}', '\u{1E8A}');
    push_range(v, '\u{1E8C}', '\u{1E8C}');
    push_range(v, '\u{1E8E}', '\u{1E8E}');
    push_range(v, '\u{1E90}', '\u{1E90}');
    assert(rview(v@) =~= o + uppercase_letter_chunk_43());
}

fn push_uppercase_letter_chunk_44(v: &mut Vec<ClassUnicodeRange>)
    ensures
        rview(final(v)@) == rview(old(v)@) + uppercase_letter_chunk_44(),
{
    let ghost o = rview(v@);
    push_range(v, '\u{1E92}', '\u{1E92}');
    push_range(v, '\u{1E94}', '\u{1E94}');
    push_range(v, '\u{1E9E}', '\u{1E9E}');
    push_range(v, '\u{1EA0}', '\u{1EA0}');
    push_range(v, '\u{1EA2}', '\u{1EA2}');
    push_range(v, '\u{1EA4}', '\u{1EA4}');
    push_range(v, '\u{1EA6}', '\u{1EA6}');
    push_range(v, '\u{1EA8}', '\u{1EA8}');
    assert(rview(v@) =~= o + uppercase_letter_chunk_44());
}

fn push_uppercase_letter_chunk_45(v: &mut Vec<ClassUnicodeRange>)
    ensures
        rview(final(v)@) == rview(old(v)@) + uppercase_letter_chunk_45(),
{
    let ghost o = rview(v@);
    push_range(v, '\u{1EAA}', '\u{1EAA}');
    push_range(v, '\u{1EAC}', '\u{1EAC}');
    push_range(v, '\u{1EAE}', '\u{1EAE}');
    push_range(v, '\u{1EB0}', '\u{1EB0}');
    push_range(v, '\u{1EB2}', '\u{1EB2}');
    push_range(v, '\u{1EB4}', '\u{1EB4}');
    push_range(v, '\u{1EB6}', '\u{1EB6}');
    push_range(v, '\u{1EB8}', '\u{1EB8}');
    assert(rview(v@) =~= o + uppercase_letter_chunk_45());
}

fn push_uppercase_letter_chunk_46(v: &mut Vec<ClassUnicodeRange>)
    ensures
        rview(final(v)@) == rview(old(v)@) + uppercase_letter_chunk_46(),
{
    let ghost o = rview(v@);
    push_range(v, '\u{1EBA}', '\u{1EBA}');
    push_range(v, '\u{1EBC}', '\u{1EBC}');
    push_range(v, '\u{1EBE}', '\u{1EBE}');
    push_range(v, '\u{1EC0}', '\u{1EC0}');
    push_range(v, '\u{1EC2}', '\u{1EC2}');
    push_range(v, '\u{1EC4}', '\u{1EC4}');
    push_range(v, '\u{1EC6}', '\u{1EC6}');
    push_range(v, '\u{1EC8}', '\u{1EC8}');
    assert(rview(v@) =~= o + uppercase_letter_chunk_46());
}

fn push_uppercase_letter_chunk_47(v: &mut Vec<ClassUnicodeRange>)
    ensures
        rview(final(v)@) == rview(old(v)@) + uppercase_letter_chunk_47(),
{
    let ghost o = rview(v@);
    push_range(v, '\u{1ECA}', '\u{1ECA}');
    push_range(v, '\u{1ECC}', '\u{1ECC}');
    push_range(v, '\u{1ECE}', '\u{1ECE}');
    push_range(v, '\u{1ED0}', '\u{1ED0}');
    push_range(v, '\u{1ED2}', '\u{1ED2}');
    push_range(v, '\u{1ED4}', '\u{1ED4}');
    push_range(v, '\u{1ED6}', '\u{1ED6}');
    push_range(v, '\u{1ED8}', '\u{1ED8}');
    assert(rview(v@) =~= o + uppercase_letter_chunk_47());
}

fn push_uppercase_letter_chunk_48(v: &mut Vec<ClassUnicodeRange>)
    ensures
        rview(final(v)@) == rview(old(v)@) + uppercase_letter_chunk_48(),
{
    let ghost o = rview(v@);
    push_range(v, '\u{1EDA}', '\u{1EDA}');
    push_range(v, '\u{1EDC}', '\u{1EDC}');
    push_range(v, '\u{1EDE}', '\u{1EDE}');
    push_range(v, '\u{1EE0}', '\u{1EE0}');
    push_range(v, '\u{1EE2}', '\u{1EE2}');
    push_range(v, '\u{1EE4}', '\u{1EE4}');
    push_range(v, '\u{1EE6}', '\u{1EE6}');
    push_range(v, '\u{1EE8}', '\u{1EE8}');
    assert(rview(v@) =~= o + uppercase_letter_chunk_48());
}

fn push_uppercase_letter_chunk_49(v: &mut Vec<ClassUnicodeRange>)
    ensures
        rview(final(v)@) == rview(old(v)@) + uppercase_letter_chunk_49(),
{
    let ghost o = rview(v@);
    push_range(v, '\u{1EEA}', '\u{1EEA}');
    push_range(v, '\u{1EEC}', '\u{1EEC}');
    push_range(v, '\u{1EEE}', '\u{1EEE}');
    push_range(v, '\u{1EF0}', '\u{1EF0}');
    push_range(v, '\u{1EF2}', '\u{1EF2}');
    push_range(v, '\u{1EF4}', '\u{1EF4}');
    push_range(v, '\u{1EF6}', '\u{1EF6}');
    push_range(v, '\u{1EF8}', '\u{1EF8}');
    assert(rview(v@) =~= o + uppercase_letter_chunk_49());
}

fn push_uppercase_letter_chunk_50(v: &mut Vec<ClassUnicodeRange>)
    ensures
        rview(final(v)@) == rview(old(v)@) + uppercase_letter_chunk_50(),
{
    let ghost o = rview(v@);
    push_range(v, '\u{1EFA}', '\u{1EFA}');
    push_range(v, '\u{1EFC}', '\u{1EFC}');
    push_range(v, '\u{1EFE}', '\u{1EFE}');
    push_range(v, '\u{1F08}', '\u{1F0F}');
    push_range(v, '\u{1F18}', '\u{1F1D}');
    push_range(v, '\u{1F28}', '\u{1F2F}');
    push_range(v, '\u{1F38}', '\u{1F3F}');
    push_range(v, '\u{1F48}', '\u{1F4D}');
    assert(rview(v@) =~= o + uppercase_letter_chunk_50());
}

fn push_uppercase_letter_chunk_51(v: &mut Vec<ClassUnicodeRange>)
    ensures
        rview(final(v)@) == rview(old(v)@) + uppercase_letter_chunk_51(),
{
    let ghost o = rview(v@);
    push_range(v, '\u{1F59}', '\u{1F59}');
    push_range(v, '\u{1F5B}', '\u{1F5B}');
    push_range(v, '\u{1F5D}', '\u{1F5D}');
    push_range(v, '\u{1F5F}', '\u{1F5F}');
    push_range(v, '\u{1F68}', '\u{1F6F}');
    push_range(v, '\u{1FB8}', '\u{1FBB}');
    push_range(v, '\u{1FC8}', '\u{1FCB}');
    push_range(v, '\u{1FD8}', '\u{1FDB}');
    assert(rview(v@) =~= o + uppercase_letter_chunk_51());
}

fn push_uppercase_letter_chunk_52(v: &mut Vec<ClassUnicodeRange>)
    ensures
        rview(final(v)@) == rview(old(v)@) + uppercase_letter_chunk_52(),
{
    let ghost o = rview(v@);
    push_range(v, '\u{1FE8}', '\u{1FEC}');
    push_range(v, '\u{1FF8}', '\u{1FFB}');
    push_range(v, '\u{2102}', '\u{2102}');
    push_range(v, '\u{2107}', '\u{2107}');
    push_range(v, '\u{210B}', '\u{210D}');
    push_range(v, '\u{2110}', '\u{2112}');
    push_range(v, '\u{2115}', '\u{2115}');
    push_range(v, '\u{2119}', '\u{211D}');
    assert(rview(v@) =~= o + uppercase_letter_chunk_52());
}

fn push_uppercase_letter_chunk_53(v: &mut Vec<ClassUnicodeRange>)
    ensures
        rview(final(v)@) == rview(old(v)@) + uppercase_letter_chunk_53(),
{
    let ghost o = rview(v@);
    push_range(v, '\u{2124}', '\u{2124}');
    push_range(v, '\u{2126}', '\u{2126}');
    push_range(v, '\u{2128}', '\u{2128}');
    push_range(v, '\u{212A}', '\u{212D}');
    push_range(v, '\u{2130}', '\u{2133}');
    push_range(v, '\u{213E}', '\u{213F}');
    push_range(v, '\u{2145}', '\u{2145}');
    push_range(v, '\u{2183}', '\u{2183}');
    assert(rview(v@) =~= o + uppercase_letter_chunk_53());
}

fn push_uppercase_letter_chunk_54(v: &mut Vec<ClassUnicodeRange>)
    ensures
        rview(final(v)@) == rview(old(v)@) + uppercase_letter_chunk_54(),
{
    let ghost o = rview(v@);
    push_range(v, '\u{2C00}', '\u{2C2F}');
    push_range(v, '\u{2C60}', '\u{2C60}');
    push_range(v, '\u{2C62}', '\u{2C64}');
    push_range(v, '\u{2C67}', '\u{2C67}');
    push_range(v, '\u{2C69}', '\u{2C69}');
    push_range(v, '\u{2C6B}', '\u{2C6B}');
    push_range(v, '\u{2C6D}', '\u{2C70}');
    push_range(v, '\u{2C72}', '\u{2C72}');
    assert(rview(v@) =~= o + uppercase_letter_chunk_54());
}

fn push_uppercase_letter_chunk_55(v: &mut Vec<ClassUnicodeRange>)
    ensures
        rview(final(v)@) == rview(old(v)@) + uppercase_letter_chunk_55(),
{
    let ghost o = rview(v@);
    push_range(v, '\u{2C75}', '\u{2C75}');
    push_range(v, '\u{2C7E}', '\u{2C80}');
    push_range(v, '\u{2C82}', '\u{2C82}');
    push_range(v, '\u{2C84}', '\u{2C84}');
    push_range(v, '\u{2C86}', '\u{2C86}');
    push_range(v, '\u{2C88}', '\u{2C88}');
    push_range(v, '\u{2C8A}', '\u{2C8A}');
    push_range(v, '\u{2C8C}', '\u{2C8C}');
    assert(rview(v@) =~= o + uppercase_letter_chunk_55());
}

fn push_uppercase_letter_chunk_56(v: &mut Vec<ClassUnicodeRange>)
    ensures
        rview(final(v)@) == rview(old(v)@) + uppercase_letter_chunk_56(),
{
    let ghost o = rview(v@);
    push_range(v, '\u{2C8E}', '\u{2C8E}');
    push_range(v, '\u{2C90}', '\u{2C90}');
    push_range(v, '\u{2C92}', '\u{2C92}');
    push_range(v, '\u{2C94}', '\u{2C94}');
    push_range(v, '\u{2C96}', '\u{2C96}');
    push_range(v, '\u{2C98}', '\u{2C98}');
    push_range(v, '\u{2C9A}', '\u{2C9A}');
    push_range(v, '\u{2C9C}', '\u{2C9C}');
    assert(rview(v@) =~= o + uppercase_letter_chunk_56());
}

fn push_uppercase_letter_chunk_57(v: &mut Vec<ClassUnicodeRange>)
    ensures
        rview(final(v)@) == rview(old(v)@) + uppercase_letter_chunk_57(),
{
    let ghost o = rview(v@);
    push_range(v, '\u{2C9E}', '\u{2C9E}');
    push_range(v, '\u{2CA0}', '\u{2CA0}');
    push_range(v, '\u{2CA2}', '\u{2CA2}');
    push_range(v, '\u{2CA4}', '\u{2CA4}');
    push_range(v, '\u{2CA6}', '\u{2CA6}');
    push_range(v, '\u{2CA8}', '\u{2CA8}');
    push_range(v, '\u{2CAA}', '\u{2CAA}');
    push_range(v, '\u{2CAC}', '\u{2CAC}');
    assert(rview(v@) =~= o + uppercase_letter_chunk_57());
}

fn push_uppercase_letter_chunk_58(v: &mut Vec<ClassUnicodeRange>)
    ensures
        rview(final(v)@) == rview(old(v)@) + uppercase_letter_chunk_58(),
{
    let ghost o = rview(v@);
    push_range(v, '\u{2CAE}', '\u{2CAE}');
    push_range(v, '\u{2CB0}', '\u{2CB0}');
    push_range(v, '\u{2CB2}', '\u{2CB2}');
    push_range(v, '\u{2CB4}', '\u{2CB4}');
    push_range(v, '\u{2CB6}', '\u{2CB6}');
    push_range(v, '\u{2CB8}', '\u{2CB8}');
    push_range(v, '\u{2CBA}', '\u{2CBA}');
    push_range(v, '\u{2CBC}', '\u{2CBC}');
    assert(rview(v@) =~= o + uppercase_letter_chunk_58());
}

fn push_uppercase_letter_chunk_59(v: &mut Vec<ClassUnicodeRange>)
    ensures
        rview(final(v)@) == rview(old(v)@) + uppercase_letter_chunk_59(),
{
    let ghost o = rview(v@);
    push_range(v, '\u{2CBE}', '\u{2CBE}');
    push_range(v, '\u{2CC0}', '\u{2CC0}');
    push_range(v, '\u{2CC2}', '\u{2CC2}');
    push_range(v, '\u{2CC4}', '\u{2CC4}');
    push_range(v, '\u{2CC6}', '\u{2CC6}');
    push_range(v, '\u{2CC8}', '\u{2CC8}');
    push_range(v, '\u{2CCA}', '\u{2CCA}');
    push_range(v, '\u{2CCC}', '\u{2CCC}');
    assert(rview(v@) =~= o + uppercase_letter_chunk_59());
}

fn push_uppercase_letter_chunk_60(v: &mut Vec<ClassUnicodeRange>)
    ensures
        rview(final(v)@) == rview(old(v)@) + uppercase_letter_chunk_60(),
{
    let ghost o = rview(v@);
    push_range(v, '\u{2CCE}', '\u{2CCE}');
    push_range(v, '\u{2CD0}', '\u{2CD0}');
    push_range(v, '\u{2CD2}', '\u{2CD2}');
    push_range(v, '\u{2CD4}', '\u{2CD4}');
    push_range(v, '\u{2CD6}', '\u{2CD6}');
    push_range(v, '\u{2CD8}', '\u{2CD8}');
    push_range(v, '\u{2CDA}', '\u{2CDA}');
    push_range(v, '\u{2CDC}', '\u{2CDC}');
    assert(rview(v@) =~= o + uppercase_letter_chunk_60());
}

fn push_uppercase_letter_chunk_61(v: &mut Vec<ClassUnicodeRange>)
    ensures
        rview(final(v)@) == rview(old(v)@) + uppercase_letter_chunk_61(),
{
    let ghost o = rview(v@);
    push_range(v, '\u{2CDE}', '\u{2CDE}');
    push_range(v, '\u{2CE0}', '\u{2CE0}');
    push_range(v, '\u{2CE2}', '\u{2CE2}');
    push_range(v, '\u{2CEB}', '\u{2CEB}');
    push_range(v, '\u{2CED}', '\u{2CED}');
    push_range(v, '\u{2CF2}', '\u{2CF2}');
    push_range(v, '\u{A640}', '\u{A640}');
    push_range(v, '\u{A642}', '\u{A642}');
    assert(rview(v@) =~= o + uppercase_letter_chunk_61());
}

fn push_uppercase_letter_chunk_62(v: &mut Vec<ClassUnicodeRange>)
    ensures
        rview(final(v)@) == rview(old(v)@) + uppercase_letter_chunk_62(),
{
    let ghost o = rview(v@);
    push_range(v, '\u{A644}', '\u{A644}');
    push_range(v, '\u{A646}', '\u{A646}');
    push_range(v, '\u{A648}', '\u{A648}');
    push_range(v, '\u{A64A}', '\u{A64A}');
    push_range(v, '\u{A64C}', '\u{A64C}');
    push_range(v, '\u{A64E}', '\u{A64E}');
    push_range(v, '\u{A650}', '\u{A650}');
    push_range(v, '\u{A652}', '\u{A652}');
    assert(rview(v@) =~= o + uppercase_letter_chunk_62());
}

fn push_uppercase_letter_chunk_63(v: &mut Vec<ClassUnicodeRange>)
    ensures
        rview(final(v)@) == rview(old(v)@) + uppercase_letter_chunk_63(),
{
    let ghost o = rview(v@);
    push_range(v, '\u{A654}', '\u{A654}');
    push_range(v, '\u{A656}', '\u{A656}');
    push_range(v, '\u{A658}', '\u{A658}');
    push_range(v, '\u{A65A}', '\u{A65A}');
    push_range(v, '\u{A65C}', '\u{A65C}');
    push_range(v, '\u{A65E}', '\u{A65E}');
    push_range(v, '\u{A660}', '\u{A660}');
    push_range(v, '\u{A662}', '\u{A662}');
    assert(rview(v@) =~= o + uppercase_letter_chunk_63());
}

fn push_uppercase_letter_chunk_64(v: &mut Vec<ClassUnicodeRange>)
    ensures
        rview(final(v)@) == rview(old(v)@) + uppercase_letter_chunk_64(),
{
    let ghost o = rview(v@);
    push_range(v, '\u{A664}', '\u{A664}');
    push_range(v, '\u{A666}', '\u{A666}');
    push_range(v, '\u{A668}', '\u{A668}');
    push_range(v, '\u{A66A}', '\u{A66A}');
    push_range(v, '\u{A66C}', '\u{A66C}');
    push_range(v, '\u{A680}', '\u{A680}');
    push_range(v, '\u{A682}', '\u{A682}');
    push_range(v, '\u{A684}', '\u{A684}');
    assert(rview(v@) =~= o + uppercase_letter_chunk_64());
}

fn push_uppercase_letter_chunk_65(v: &mut Vec<ClassUnicodeRange>)
    ensures
        rview(final(v)@) == rview(old(v)@) + uppercase_letter_chunk_65(),
{
    let ghost o = rview(v@);
    push_range(v, '\u{A686}', '\u{A686}');
    push_range(v, '\u{A688}', '\u{A688}');
    push_range(v, '\u{A68A}', '\u{A68A}');
    push_range(v, '\u{A68C}', '\u{A68C}');
    push_range(v, '\u{A68E}', '\u{A68E}');
    push_range(v, '\u{A690}', '\u{A690}');
    push_range(v, '\u{A692}', '\u{A692}');
    push_range(v, '\u{A694}', '\u{A694}');
    assert(rview(v@) =~= o + uppercase_letter_chunk_65());
}

fn push_uppercase_letter_chunk_66(v: &mut Vec<ClassUnicodeRange>)
    ensures
        rview(final(v)@) == rview(old(v)@) + uppercase_letter_chunk_66(),
{
    let ghost o = rview(v@);
    push_range(v, '\u{A696}', '\u{A696}');
    push_range(v, '\u{A698}', '\u{A698}');
    push_range(v, '\u{A69A}', '\u{A69A}');
    push_range(v, '\u{A722}', '\u{A722}');
    push_range(v, '\u{A724}', '\u{A724}');
    push_range(v, '\u{A726}', '\u{A726}');
    push_range(v, '\u{A728}', '\u{A728}');
    push_range(v, '\u{A72A}', '\u{A72A}');
    assert(rview(v@) =~= o + uppercase_letter_chunk_66());
}

fn push_uppercase_letter_chunk_67(v: &mut Vec<ClassUnicodeRange>)
    ensures
        rview(final(v)@) == rview(old(v)@) + uppercase_letter_chunk_67(),
{
    let ghost o = rview(v@);
    push_range(v, '\u{A72C}', '\u{A72C}');
    push_range(v, '\u{A72E}', '\u{A72E}');
    push_range(v, '\u{A732}', '\u{A732}');
    push_range(v, '\u{A734}', '\u{A734}');
    push_range(v, '\u{A736}', '\u{A736}');
    push_range(v, '\u{A738}', '\u{A738}');
    push_range(v, '\u{A73A}', '\u{A73A}');
    push_range(v, '\u{A73C}', '\u{A73C}');
    assert(rview(v@) =~= o + uppercase_letter_chunk_67());
}

fn push_uppercase_letter_chunk_68(v: &mut Vec<ClassUnicodeRange>)
    ensures
        rview(final(v)@) == rview(old(v)@) + uppercase_letter_chunk_68(),
{
    let ghost o = rview(v@);
    push_range(v, '\u{A73E}', '\u{A73E}');
    push_range(v, '\u{A740}', '\u{A740}');
    push_range(v, '\u{A742}', '\u{A742}');
    push_range(v, '\u{A744}', '\u{A744}');
    push_range(v, '\u{A746}', '\u{A746}');
    push_range(v, '\u{A748}', '\u{A748}');
    push_range(v, '\u{A74A}', '\u{A74A}');
    push_range(v, '\u{A74C}', '\u{A74C}');
    assert(rview(v@) =~= o + uppercase_letter_chunk_68());
}

fn push_uppercase_letter_chunk_69(v: &mut Vec<ClassUnicodeRange>)
    ensures
        rview(final(v)@) == rview(old(v)@) + uppercase_letter_chunk_69(),
{
    let ghost o = rview(v@);
    push_range(v, '\u{A74E}', '\u{A74E}');
    push_range(v, '\u{A750}', '\u{A750}');
    push_range(v, '\u{A752}', '\u{A752}');
    push_range(v, '\u{A754}', '\u{A754}');
    push_range(v, '\u{A756}', '\u{A756}');
    push_range(v, '\u{A758}', '\u{A758}');
    push_range(v, '\u{A75A}', '\u{A75A}');
    push_range(v, '\u{A75C}', '\u{A75C}');
    assert(rview(v@) =~= o + uppercase_letter_chunk_69());
}

fn push_uppercase_letter_chunk_70(v: &mut Vec<ClassUnicodeRange>)
    ensures
        rview(final(v)@) == rview(old(v)@) + uppercase_letter_chunk_70(),
{
    let ghost o = rview(v@);
    push_range(v, '\u{A75E}', '\u{A75E}');
    push_range(v, '\u{A760}', '\u{A760}');
    push_range(v, '\u{A762}', '\u{A762}');
    push_range(v, '\u{A764}', '\u{A764}');
    push_range(v, '\u{A766}', '\u{A766}');
    push_range(v, '\u{A768}', '\u{A768}');
    push_range(v, '\u{A76A}', '\u{A76A}');
    push_range(v, '\u{A76C}', '\u{A76C}');
    assert(rview(v@) =~= o + uppercase_letter_chunk_70());
}

fn push_uppercase_letter_chunk_71(v: &mut Vec<ClassUnicodeRange>)
    ensures
        rview(final(v)@) == rview(old(v)@) + uppercase_letter_chunk_71(),
{
    let ghost o = rview(v@);
    push_range(v, '\u{A76E}', '\u{A76E}');
    push_range(v, '\u{A779}', '\u{A779}');
    push_range(v, '\u{A77B}', '\u{A77B}');
    push_range(v, '\u{A77D}', '\u{A77E}');
    push_range(v, '\u{A780}', '\u{A780}');
    push_range(v, '\u{A782}', '\u{A782}');
    push_range(v, '\u{A784}', '\u{A784}');
    push_range(v, '\u{A786}', '\u{A786}');
    assert(rview(v@) =~= o + uppercase_letter_chunk_71());
}

fn push_uppercase_letter_chunk_72(v: &mut Vec<ClassUnicodeRange>)
    ensures
        rview(final(v)@) == rview(old(v)@) + uppercase_letter_chunk_72(),
{
    let ghost o = rview(v@);
    push_range(v, '\u{A78B}', '\u{A78B}');
    push_range(v, '\u{A78D}', '\u{A78D}');
    push_range(v, '\u{A790}', '\u{A790}');
    push_range(v, '\u{A792}', '\u{A792}');
    push_range(v, '\u{A796}', '\u{A796}');
    push_range(v, '\u{A798}', '\u{A798}');
    push_range(v, '\u{A79A}', '\u{A79A}');
    push_range(v, '\u{A79C}', '\u{A79C}');
    assert(rview(v@) =~= o + uppercase_letter_chunk_72());
}

fn push_uppercase_letter_chunk_73(v: &mut Vec<ClassUnicodeRange>)
    ensures
        rview(final(v)@) == rview(old(v)@) + uppercase_letter_chunk_73(),
{
    let ghost o = rview(v@);
    push_range(v, '\u{A79E}', '\u{A79E}');
    push_range(v, '\u{A7A0}', '\u{A7A0}');
    push_range(v, '\u{A7A2}', '\u{A7A2}');
    push_range(v, '\u{A7A4}', '\u{A7A4}');
    push_range(v, '\u{A7A6}', '\u{A7A6}');
    push_range(v, '\u{A7A8}', '\u{A7A8}');
    push_range(v, '\u{A7AA}', '\u{A7AE}');
    push_range(v, '\u{A7B0}', '\u{A7B4}');
    assert(rview(v@) =~= o + uppercase_letter_chunk_73());
}

fn push_uppercase_letter_chunk_74(v: &mut Vec<ClassUnicodeRange>)
    ensures
        rview(final(v)@) == rview(old(v)@) + uppercase_letter_chunk_74(),
{
    let ghost o = rview(v@);
    push_range(v, '\u{A7B6}', '\u{A7B6}');
    push_range(v, '\u{A7B8}', '\u{A7B8}');
    push_range(v, '\u{A7BA}', '\u{A7BA}');
    push_range(v, '\u{A7BC}', '\u{A7BC}');
    push_range(v, '\u{A7BE}', '\u{A7BE}');
    push_range(v, '\u{A7C0}', '\u{A7C0}');
    push_range(v, '\u{A7C2}', '\u{A7C2}');
    push_range(v, '\u{A7C4}', '\u{A7C7}');
    assert(rview(v@) =~= o + uppercase_letter_chunk_74());
}

fn push_uppercase_letter_chunk_75(v: &mut Vec<ClassUnicodeRange>)
    ensures
        rview(final(v)@) == rview(old(v)@) + uppercase_letter_chunk_75(),
{
    let ghost o = rview(v@);
    push_range(v, '\u{A7C9}', '\u{A7C9}');
    push_range(v, '\u{A7CB}', '\u{A7CC}');
    push_range(v, '\u{A7D0}', '\u{A7D0}');
    push_range(v, '\u{A7D6}', '\u{A7D6}');
    push_range(v, '\u{A7D8}', '\u{A7D8}');
    push_range(v, '\u{A7DA}', '\u{A7DA}');
    push_range(v, '\u{A7DC}', '\u{A7DC}');
    push_range(v, '\u{A7F5}', '\u{A7F5}');
    assert(rview(v@) =~= o + uppercase_letter_chunk_75());
}

fn push_uppercase_letter_chunk_76(v: &mut Vec<ClassUnicodeRange>)
    ensures
        rview(final(v)@) == rview(old(v)@) + uppercase_letter_chunk_76(),
{
    let ghost o = rview(v@);
    push_range(v, '\u{FF21}', '\u{FF3A}');
    push_range(v, '\u{10400}', '\u{10427}');
    push_range(v, '\u{104B0}', '\u{104D3}');
    push_range(v, '\u{10570}', '\u{1057A}');
    push_range(v, '\u{1057C}', '\u{1058A}');
    push_range(v, '\u{1058C}', '\u{10592}');
    push_range(v, '\u{10594}', '\u{10595}');
    push_range(v, '\u{10C80}', '\u{10CB2}');
    assert(rview(v@) =~= o + uppercase_letter_chunk_76());
}

fn push_uppercase_letter_chunk_77(v: &mut Vec<ClassUnicodeRange>)
    ensures
        rview(final(v)@) == rview(old(v)@) + uppercase_letter_chunk_77(),
{
    let ghost o = rview(v@);
    push_range(v, '\u{10D50}', '\u{10D65}');
    push_range(v, '\u{118A0}', '\u{118BF}');
    push_range(v, '\u{16E40}', '\u{16E5F}');
    push_range(v, '\u{1D400}', '\u{1D419}');
    push_range(v, '\u{1D434}', '\u{1D44D}');
    push_range(v, '\u{1D468}', '\u{1D481}');
    push_range(v, '\u{1D49C}', '\u{1D49C}');
    push_range(v, '\u{1D49E}', '\u{1D49F}');
    assert(rview(v@) =~= o + uppercase_letter_chunk_77());
}

fn push_uppercase_letter_chunk_78(v: &mut Vec<ClassUnicodeRange>)
    ensures
        rview(final(v)@) == rview(old(v)@) + uppercase_letter_chunk_78(),
{
    let ghost o = rview(v@);
    push_range(v, '\u{1D4A2}', '\u{1D4A2}');
    push_range(v, '\u{1D4A5}', '\u{1D4A6}');
    push_range(v, '\u{1D4A9}', '\u{1D4AC}');
    push_range(v, '\u{1D4AE}', '\u{1D4B5}');
    push_range(v, '\u{1D4D0}', '\u{1D4E9}');
    push_range(v, '\u{1D504}', '\u{1D505}');
    push_range(v, '\u{1D507}', '\u{1D50A}');
    push_range(v, '\u{1D50D}', '\u{1D514}');
    assert(rview(v@) =~= o + uppercase_letter_chunk_78());
}

fn push_uppercase_letter_chunk_79(v: &mut Vec<ClassUnicodeRange>)
    ensures
        rview(final(v)@) == rview(old(v)@) + uppercase_letter_chunk_79(),
{
    let ghost o = rview(v@);
    push_range(v, '\u{1D516}', '\u{1D51C}');
    push_range(v, '\u{1D538}', '\u{1D539}');
    push_range(v, '\u{1D53B}', '\u{1D53E}');
    push_range(v, '\u{1D540}', '\u{1D544}');
    push_range(v, '\u{1D546}', '\u{1D546}');
    push_range(v, '\u{1D54A}', '\u{1D550}');
    push_range(v, '\u{1D56C}', '\u{1D585}');
    push_range(v, '\u{1D5A0}', '\u{1D5B9}');
    assert(rview(v@) =~= o + uppercase_letter_chunk_79());
}

fn push_uppercase_letter_chunk_80(v: &mut Vec<ClassUnicodeRange>)
    ensures
        rview(final(v)@) == rview(old(v)@) + uppercase_letter_chunk_80(),
{
    let ghost o = rview(v@);
    push_range(v, '\u{1D5D4}', '\u{1D5ED}');
    push_range(v, '\u{1D608}', '\u{1D621}');
    push_range(v, '\u{1D63C}', '\u{1D655}');
    push_range(v, '\u{1D670}', '\u{1D689}');
    push_range(v, '\u{1D6A8}', '\u{1D6C0}');
    push_range(v, '\u{1D6E2}', '\u{1D6FA}');
    push_range(v, '\u{1D71C}', '\u{1D734}');
    push_range(v, '\u{1D756}', '\u{1D76E}');
    assert(rview(v@) =~= o + uppercase_letter_chunk_80());
}

fn push_uppercase_letter_chunk_81(v: &mut Vec<ClassUnicodeRange>)
    ensures
        rview(final(v)@) == rview(old(v)@) + uppercase_letter_chunk_81(),
{
    let ghost o = rview(v@);
    push_range(v, '\u{1D790}', '\u{1D7A8}');
    push_range(v, '\u{1D7CA}', '\u{1D7CA}');
    push_range(v, '\u{1E900}', '\u{1E921}');
    assert(rview(v@) =~= o + uppercase_letter_chunk_81());
}

fn push_uppercase_letter_block_0(v: &mut Vec<ClassUnicodeRange>)
    ensures
        rview(final(v)@) == rview(old(v)@) + uppercase_letter_block_0(),
{
    let ghost o = rview(v@);
    push_uppercase_letter_chunk_0(v);
    assert(rview(v@) =~= o + (uppercase_letter_chunk_0()));
    push_uppercase_letter_chunk_1(v);
    assert(rview(v@) =~= o + (uppercase_letter_chunk_0() + uppercase_letter_chunk_1()));
    push_uppercase_letter_chunk_2(v);
    assert(rview(v@) =~= o + (uppercase_letter_chunk_0() + uppercase_letter_chunk_1() + uppercase_letter_chunk_2()));
    push_uppercase_letter_chunk_3(v);
    assert(rview(v@) =~= o + (uppercase_letter_chunk_0() + uppercase_letter_chunk_1() + uppercase_letter_chunk_2() + uppercase_letter_chunk_3()));
    push_uppercase_letter_chunk_4(v);
    assert(rview(v@) =~= o + (uppercase_letter_chunk_0() + uppercase_letter_chunk_1() + uppercase_letter_chunk_2() + uppercase_letter_chunk_3() + uppercase_letter_chunk_4()));
    push_uppercase_letter_chunk_5(v);
    assert(rview(v@) =~= o + (uppercase_letter_chunk_0() + uppercase_letter_chunk_1() + uppercase_letter_chunk_2() + uppercase_letter_chunk_3() + uppercase_letter_chunk_4() + uppercase_letter_chunk_5()));
    push_uppercase_letter_chunk_6(v);
    assert(rview(v@) =~= o + (uppercase_letter_chunk_0() + uppercase_letter_chunk_1() + uppercase_letter_chunk_2() + uppercase_letter_chunk_3() + uppercase_letter_chunk_4() + uppercase_letter_chunk_5() + uppercase_letter_chunk_6()));
    push_uppercase_letter_chunk_7(v);
    assert(rview(v@) =~= o + (uppercase_letter_chunk_0() + uppercase_letter_chunk_1() + uppercase_letter_chunk_2() + uppercase_letter_chunk_3() + uppercase_letter_chunk_4() + uppercase_letter_chunk_5() + uppercase_letter_chunk_6() + uppercase_letter_chunk_7()));
    push_uppercase_letter_chunk_8(v);
    assert(rview(v@) =~= o + (uppercase_letter_chunk_0() + uppercase_letter_chunk_1() + uppercase_letter_chunk_2() + uppercase_letter_chunk_3() + uppercase_letter_chunk_4() + uppercase_letter_chunk_5() + uppercase_letter_chunk_6() + uppercase_letter_chunk_7() + uppercase_letter_chunk_8()));
    push_uppercase_letter_chunk_9(v);
    assert(rview(v@) =~= o + (uppercase_letter_chunk_0() + uppercase_letter_chunk_1() + uppercase_letter_chunk_2() + uppercase_letter_chunk_3() + uppercase_letter_chunk_4() + uppercase_letter_chunk_5() + uppercase_letter_chunk_6() + uppercase_letter_chunk_7() + uppercase_letter_chunk_8() + uppercase_letter_chunk_9()));
}

fn push_uppercase_letter_block_1(v: &mut Vec<ClassUnicodeRange>)
    ensures
        rview(final(v)@) == rview(old(v)@) + uppercase_letter_block_1(),
{
    let ghost o = rview(v@);
    push_uppercase_letter_chunk_10(v);
    assert(rview(v@) =~= o + (uppercase_letter_chunk_10()));
    push_uppercase_letter_chunk_11(v);
    assert(rview(v@) =~= o + (uppercase_letter_chunk_10() + uppercase_letter_chunk_11()));
    push_uppercase_letter_chunk_12(v);
    assert(rview(v@) =~= o + (uppercase_letter_chunk_10() + uppercase_letter_chunk_11() + uppercase_letter_chunk_12()));
    push_uppercase_letter_chunk_13(v);
    assert(rview(v@) =~= o + (uppercase_letter_chunk_10() + uppercase_letter_chunk_11() + uppercase_letter_chunk_12() + uppercase_letter_chunk_13()));
    push_uppercase_letter_chunk_14(v);
    assert(rview(v@) =~= o + (uppercase_letter_chunk_10() + uppercase_letter_chunk_11() + uppercase_letter_chunk_12() + uppercase_letter_chunk_13() + uppercase_letter_chunk_14()));
    push_uppercase_letter_chunk_15(v);
    assert(rview(v@) =~= o + (uppercase_letter_chunk_10() + uppercase_letter_chunk_11() + uppercase_letter_chunk_12() + uppercase_letter_chunk_13() + uppercase_letter_chunk_14() + uppercase_letter_chunk_15()));
    push_uppercase_letter_chunk_16(v);
    assert(rview(v@) =~= o + (uppercase_letter_chunk_10() + uppercase_letter_chunk_11() + uppercase_letter_chunk_12() + uppercase_letter_chunk_13() + uppercase_letter_chunk_14() + uppercase_letter_chunk_15() + uppercase_letter_chunk_16()));
    push_uppercase_letter_chunk_17(v);
    assert(rview(v@) =~= o + (uppercase_letter_chunk_10() + uppercase_letter_chunk_11() + uppercase_letter_chunk_12() + uppercase_letter_chunk_13() + uppercase_letter_chunk_14() + uppercase_letter_chunk_15() + uppercase_letter_chunk_16() + uppercase_letter_chunk_17()));
    push_uppercase_letter_chunk_18(v);
    assert(rview(v@) =~= o + (uppercase_letter_chunk_10() + uppercase_letter_chunk_11() + uppercase_letter_chunk_12() + uppercase_letter_chunk_13() + uppercase_letter_chunk_14() + uppercase_letter_chunk_15() + uppercase_letter_chunk_16() + uppercase_letter_chunk_17() + uppercase_letter_chunk_18()));
    push_uppercase_letter_chunk_19(v);
    assert(rview(v@) =~= o + (uppercase_letter_chunk_10() + uppercase_letter_chunk_11() + uppercase_letter_chunk_12() + uppercase_letter_chunk_13() + uppercase_letter_chunk_14() + uppercase_letter_chunk_15() + uppercase_letter_chunk_16() + uppercase_letter_chunk_17() + uppercase_letter_chunk_18() + uppercase_letter_chunk_19()));
}

fn push_uppercase_letter_block_2(v: &mut Vec<ClassUnicodeRange>)
    ensures
        rview(final(v)@) == rview(old(v)@) + uppercase_letter_block_2(),
{
    let ghost o = rview(v@);
    push_uppercase_letter_chunk_20(v);
    assert(rview(v@) =~= o + (uppercase_letter_chunk_20()));
    push_uppercase_letter_chunk_21(v);
    assert(rview(v@) =~= o + (uppercase_letter_chunk_20() + uppercase_letter_chunk_21()));
    push_uppercase_letter_chunk_22(v);
    assert(rview(v@) =~= o + (uppercase_letter_chunk_20() + uppercase_letter_chunk_21() + uppercase_letter_chunk_22()));
    push_uppercase_letter_chunk_23(v);
    assert(rview(v@) =~= o + (uppercase_letter_chunk_20() + uppercase_letter_chunk_21() + uppercase_letter_chunk_22() + uppercase_letter_chunk_23()));
    push_uppercase_letter_chunk_24(v);
    assert(rview(v@) =~= o + (uppercase_letter_chunk_20() + uppercase_letter_chunk_21() + uppercase_letter_chunk_22() + uppercase_letter_chunk_23() + uppercase_letter_chunk_24()));
    push_uppercase_letter_chunk_25(v);
    assert(rview(v@) =~= o + (uppercase_letter_chunk_20() + uppercase_letter_chunk_21() + uppercase_letter_chunk_22() + uppercase_letter_chunk_23() + uppercase_letter_chunk_24() + uppercase_letter_chunk_25()));
    push_uppercase_letter_chunk_26(v);
    assert(rview(v@) =~= o + (uppercase_letter_chunk_20() + uppercase_letter_chunk_21() + uppercase_letter_chunk_22() + uppercase_letter_chunk_23() + uppercase_letter_chunk_24() + uppercase_letter_chunk_25() + uppercase_letter_chunk_26()));
    push_uppercase_letter_chunk_27(v);
    assert(rview(v@) =~= o + (uppercase_letter_chunk_20() + uppercase_letter_chunk_21() + uppercase_letter_chunk_22() + uppercase_letter_chunk_23() + uppercase_letter_chunk_24() + uppercase_letter_chunk_25() + uppercase_letter_chunk_26() + uppercase_letter_chunk_27()));
    push_uppercase_letter_chunk_28(v);
    assert(rview(v@) =~= o + (uppercase_letter_chunk_20() + uppercase_letter_chunk_21() + uppercase_letter_chunk_22() + uppercase_letter_chunk_23() + uppercase_letter_chunk_24() + uppercase_letter_chunk_25() + uppercase_letter_chunk_26() + uppercase_letter_chunk_27() + uppercase_letter_chunk_28()));
    push_uppercase_letter_chunk_29(v);
    assert(rview(v@) =~= o + (uppercase_letter_chunk_20() + uppercase_letter_chunk_21() + uppercase_letter_chunk_22() + uppercase_letter_chunk_23() + uppercase_letter_chunk_24() + uppercase_letter_chunk_25() + uppercase_letter_chunk_26() + uppercase_letter_chunk_27() + uppercase_letter_chunk_28() + uppercase_letter_chunk_29()));
}

fn push_uppercase_letter_block_3(v: &mut Vec<ClassUnicodeRange>)
    ensures
        rview(final(v)@) == rview(old(v)@) + uppercase_letter_block_3(),
{
    let ghost o = rview(v@);
    push_uppercase_letter_chunk_30(v);
    assert(rview(v@) =~= o + (uppercase_letter_chunk_30()));
    push_uppercase_letter_chunk_31(v);
    assert(rview(v@) =~= o + (uppercase_letter_chunk_30() + uppercase_letter_chunk_31()));
    push_uppercase_letter_chunk_32(v);
    assert(rview(v@) =~= o + (uppercase_letter_chunk_30() + uppercase_letter_chunk_31() + uppercase_letter_chunk_32()));
    push_uppercase_letter_chunk_33(v);
    assert(rview(v@) =~= o + (uppercase_letter_chunk_30() + uppercase_letter_chunk_31() + uppercase_letter_chunk_32() + uppercase_letter_chunk_33()));
    push_uppercase_letter_chunk_34(v);
    assert(rview(v@) =~= o + (uppercase_letter_chunk_30() + uppercase_letter_chunk_31() + uppercase_letter_chunk_32() + uppercase_letter_chunk_33() + uppercase_letter_chunk_34()));
    push_uppercase_letter_chunk_35(v);
    assert(rview(v@) =~= o + (uppercase_letter_chunk_30() + uppercase_letter_chunk_31() + uppercase_letter_chunk_32() + uppercase_letter_chunk_33() + uppercase_letter_chunk_34() + uppercase_letter_chunk_35()));
    push_uppercase_letter_chunk_36(v);
    assert(rview(v@) =~= o + (uppercase_letter_chunk_30() + uppercase_letter_chunk_31() + uppercase_letter_chunk_32() + uppercase_letter_chunk_33() + uppercase_letter_chunk_34() + uppercase_letter_chunk_35() + uppercase_letter_chunk_36()));
    push_uppercase_letter_chunk_37(v);
    assert(rview(v@) =~= o + (uppercase_letter_chunk_30() + uppercase_letter_chunk_31() + uppercase_letter_chunk_32() + uppercase_letter_chunk_33() + uppercase_letter_chunk_34() + uppercase_letter_chunk_35() + uppercase_letter_chunk_36() + uppercase_letter_chunk_37()));
    push_uppercase_letter_chunk_38(v);
    assert(rview(v@) =~= o + (uppercase_letter_chunk_30() + uppercase_letter_chunk_31() + uppercase_letter_chunk_32() + uppercase_letter_chunk_33() + uppercase_letter_chunk_34() + uppercase_letter_chunk_35() + uppercase_letter_chunk_36() + uppercase_letter_chunk_37() + uppercase_letter_chunk_38()));
    push_uppercase_letter_chunk_39(v);
    assert(rview(v@) =~= o + (uppercase_letter_chunk_30() + uppercase_letter_chunk_31() + uppercase_letter_chunk_32() + uppercase_letter_chunk_33() + uppercase_letter_chunk_34() + uppercase_letter_chunk_35() + uppercase_letter_chunk_36() + uppercase_letter_chunk_37() + uppercase_letter_chunk_38() + uppercase_letter_chunk_39()));
}

fn push_uppercase_letter_block_4(v: &mut Vec<ClassUnicodeRange>)
    ensures
        rview(final(v)@) == rview(old(v)@) + uppercase_letter_block_4(),
{
    let ghost o = rview(v@);
    push_uppercase_letter_chunk_40(v);
    assert(rview(v@) =~= o + (uppercase_letter_chunk_40()));
    push_uppercase_letter_chunk_41(v);
    assert(rview(v@) =~= o + (uppercase_letter_chunk_40() + uppercase_letter_chunk_41()));
    push_uppercase_letter_chunk_42(v);
    assert(rview(v@) =~= o + (uppercase_letter_chunk_40() + uppercase_letter_chunk_41() + uppercase_letter_chunk_42()));
    push_uppercase_letter_chunk_43(v);
    assert(rview(v@) =~= o + (uppercase_letter_chunk_40() + uppercase_letter_chunk_41() + uppercase_letter_chunk_42() + uppercase_letter_chunk_43()));
    push_uppercase_letter_chunk_44(v);
    assert(rview(v@) =~= o + (uppercase_letter_chunk_40() + uppercase_letter_chunk_41() + uppercase_letter_chunk_42() + uppercase_letter_chunk_43() + uppercase_letter_chunk_44()));
    push_uppercase_letter_chunk_45(v);
    assert(rview(v@) =~= o + (uppercase_letter_chunk_40() + uppercase_letter_chunk_41() + uppercase_letter_chunk_42() + uppercase_letter_chunk_43() + uppercase_letter_chunk_44() + uppercase_letter_chunk_45()));
    push_uppercase_letter_chunk_46(v);
    assert(rview(v@) =~= o + (uppercase_letter_chunk_40() + uppercase_letter_chunk_41() + uppercase_letter_chunk_42() + uppercase_letter_chunk_43() + uppercase_letter_chunk_44() + uppercase_letter_chunk_45() + uppercase_letter_chunk_46()));
    push_uppercase_letter_chunk_47(v);
    assert(rview(v@) =~= o + (uppercase_letter_chunk_40() + uppercase_letter_chunk_41() + uppercase_letter_chunk_42() + uppercase_letter_chunk_43() + uppercase_letter_chunk_44() + uppercase_letter_chunk_45() + uppercase_letter_chunk_46() + uppercase_letter_chunk_47()));
    push_uppercase_letter_chunk_48(v);
    assert(rview(v@) =~= o + (uppercase_letter_chunk_40() + uppercase_letter_chunk_41() + uppercase_letter_chunk_42() + uppercase_letter_chunk_43() + uppercase_letter_chunk_44() + uppercase_letter_chunk_45() + uppercase_letter_chunk_46() + uppercase_letter_chunk_47() + uppercase_letter_chunk_48()));
    push_uppercase_letter_chunk_49(v);
    assert(rview(v@) =~= o + (uppercase_letter_chunk_40() + uppercase_letter_chunk_41() + uppercase_letter_chunk_42() + uppercase_letter_chunk_43() + uppercase_letter_chunk_44() + uppercase_letter_chunk_45() + uppercase_letter_chunk_46() + uppercase_letter_chunk_47() + uppercase_letter_chunk_48() + uppercase_letter_chunk_49()));
}

fn push_uppercase_letter_block_5(v: &mut Vec<ClassUnicodeRange>)
    ensures
        rview(final(v)@) == rview(old(v)@) + uppercase_letter_block_5(),
{
    let ghost o = rview(v@);
    push_uppercase_letter_chunk_50(v);
    assert(rview(v@) =~= o + (uppercase_letter_chunk_50()));
    push_uppercase_letter_chunk_51(v);
    assert(rview(v@) =~= o + (uppercase_letter_chunk_50() + uppercase_letter_chunk_51()));
    push_uppercase_letter_chunk_52(v);
    assert(rview(v@) =~= o + (uppercase_letter_chunk_50() + uppercase_letter_chunk_51() + uppercase_letter_chunk_52()));
    push_uppercase_letter_chunk_53(v);
    assert(rview(v@) =~= o + (uppercase_letter_chunk_50() + uppercase_letter_chunk_51() + uppercase_letter_chunk_52() + uppercase_letter_chunk_53()));
    push_uppercase_letter_chunk_54(v);
    assert(rview(v@) =~= o + (uppercase_letter_chunk_50() + uppercase_letter_chunk_51() + uppercase_letter_chunk_52() + uppercase_letter_chunk_53() + uppercase_letter_chunk_54()));
    push_uppercase_letter_chunk_55(v);
    assert(rview(v@) =~= o + (uppercase_letter_chunk_50() + uppercase_letter_chunk_51() + uppercase_letter_chunk_52() + uppercase_letter_chunk_53() + uppercase_letter_chunk_54() + uppercase_letter_chunk_55()));
    push_uppercase_letter_chunk_56(v);
    assert(rview(v@) =~= o + (uppercase_letter_chunk_50() + uppercase_letter_chunk_51() + uppercase_letter_chunk_52() + uppercase_letter_chunk_53() + uppercase_letter_chunk_54() + uppercase_letter_chunk_55() + uppercase_letter_chunk_56()));
    push_uppercase_letter_chunk_57(v);
    assert(rview(v@) =~= o + (uppercase_letter_chunk_50() + uppercase_letter_chunk_51() + uppercase_letter_chunk_52() + uppercase_letter_chunk_53() + uppercase_letter_chunk_54() + uppercase_letter_chunk_55() + uppercase_letter_chunk_56() + uppercase_letter_chunk_57()));
    push_uppercase_letter_chunk_58(v);
    assert(rview(v@) =~= o + (uppercase_letter_chunk_50() + uppercase_letter_chunk_51() + uppercase_letter_chunk_52() + uppercase_letter_chunk_53() + uppercase_letter_chunk_54() + uppercase_letter_chunk_55() + uppercase_letter_chunk_56() + uppercase_letter_chunk_57() + uppercase_letter_chunk_58()));
    push_uppercase_letter_chunk_59(v);
    assert(rview(v@) =~= o + (uppercase_letter_chunk_50() + uppercase_letter_chunk_51() + uppercase_letter_chunk_52() + uppercase_letter_chunk_53() + uppercase_letter_chunk_54() + uppercase_letter_chunk_55() + uppercase_letter_chunk_56() + uppercase_letter_chunk_57() + uppercase_letter_chunk_58() + uppercase_letter_chunk_59()));
}

fn push_uppercase_letter_block_6(v: &mut Vec<ClassUnicodeRange>)
    ensures
        rview(final(v)@) == rview(old(v)@) + uppercase_letter_block_6(),
{
    let ghost o = rview(v@);
    push_uppercase_letter_chunk_60(v);
    assert(rview(v@) =~= o + (uppercase_letter_chunk_60()));
    push_uppercase_letter_chunk_61(v);
    assert(rview(v@) =~= o + (uppercase_letter_chunk_60() + uppercase_letter_chunk_61()));
    push_uppercase_letter_chunk_62(v);
    assert(rview(v@) =~= o + (uppercase_letter_chunk_60() + uppercase_letter_chunk_61() + uppercase_letter_chunk_62()));
    push_uppercase_letter_chunk_63(v);
    assert(rview(v@) =~= o + (uppercase_letter_chunk_60() + uppercase_letter_chunk_61() + uppercase_letter_chunk_62() + uppercase_letter_chunk_63()));
    push_uppercase_letter_chunk_64(v);
    assert(rview(v@) =~= o + (uppercase_letter_chunk_60() + uppercase_letter_chunk_61() + uppercase_letter_chunk_62() + uppercase_letter_chunk_63() + uppercase_letter_chunk_64()));
    push_uppercase_letter_chunk_65(v);
    assert(rview(v@) =~= o + (uppercase_letter_chunk_60() + uppercase_letter_chunk_61() + uppercase_letter_chunk_62() + uppercase_letter_chunk_63() + uppercase_letter_chunk_64() + uppercase_letter_chunk_65()));
    push_uppercase_letter_chunk_66(v);
    assert(rview(v@) =~= o + (uppercase_letter_chunk_60() + uppercase_letter_chunk_61() + uppercase_letter_chunk_62() + uppercase_letter_chunk_63() + uppercase_letter_chunk_64() + uppercase_letter_chunk_65() + uppercase_letter_chunk_66()));
    push_uppercase_letter_chunk_67(v);
    assert(rview(v@) =~= o + (uppercase_letter_chunk_60() + uppercase_letter_chunk_61() + uppercase_letter_chunk_62() + uppercase_letter_chunk_63() + uppercase_letter_chunk_64() + uppercase_letter_chunk_65() + uppercase_letter_chunk_66() + uppercase_letter_chunk_67()));
    push_uppercase_letter_chunk_68(v);
    assert(rview(v@) =~= o + (uppercase_letter_chunk_60() + uppercase_letter_chunk_61() + uppercase_letter_chunk_62() + uppercase_letter_chunk_63() + uppercase_letter_chunk_64() + uppercase_letter_chunk_65() + uppercase_letter_chunk_66() + uppercase_letter_chunk_67() + uppercase_letter_chunk_68()));
    push_uppercase_letter_chunk_69(v);
    assert(rview(v@) =~= o + (uppercase_letter_chunk_60() + uppercase_letter_chunk_61() + uppercase_letter_chunk_62() + uppercase_letter_chunk_63() + uppercase_letter_chunk_64() + uppercase_letter_chunk_65() + uppercase_letter_chunk_66() + uppercase_letter_chunk_67() + uppercase_letter_chunk_68() + uppercase_letter_chunk_69()));
}

fn push_uppercase_letter_block_7(v: &mut Vec<ClassUnicodeRange>)
    ensures
        rview(final(v)@) == rview(old(v)@) + uppercase_letter_block_7(),
{
    let ghost o = rview(v@);
    push_uppercase_letter_chunk_70(v);
    assert(rview(v@) =~= o + (uppercase_letter_chunk_70()));
    push_uppercase_letter_chunk_71(v);
    assert(rview(v@) =~= o + (uppercase_letter_chunk_70() + uppercase_letter_chunk_71()));
    push_uppercase_letter_chunk_72(v);
    assert(rview(v@) =~= o + (uppercase_letter_chunk_70() + uppercase_letter_chunk_71() + uppercase_letter_chunk_72()));
    push_uppercase_letter_chunk_73(v);
    assert(rview(v@) =~= o + (uppercase_letter_chunk_70() + uppercase_letter_chunk_71() + uppercase_letter_chunk_72() + uppercase_letter_chunk_73()));
    push_uppercase_letter_chunk_74(v);
    assert(rview(v@) =~= o + (uppercase_letter_chunk_70() + uppercase_letter_chunk_71() + uppercase_letter_chunk_72() + uppercase_letter_chunk_73() + uppercase_letter_chunk_74()));
    push_uppercase_letter_chunk_75(v);
    assert(rview(v@) =~= o + (uppercase_letter_chunk_70() + uppercase_letter_chunk_71() + uppercase_letter_chunk_72() + uppercase_letter_chunk_73() + uppercase_letter_chunk_74() + uppercase_letter_chunk_75()));
    push_uppercase_letter_chunk_76(v);
    assert(rview(v@) =~= o + (uppercase_letter_chunk_70() + uppercase_letter_chunk_71() + uppercase_letter_chunk_72() + uppercase_letter_chunk_73() + uppercase_letter_chunk_74() + uppercase_letter_chunk_75() + uppercase_letter_chunk_76()));
    push_uppercase_letter_chunk_77(v);
    assert(rview(v@) =~= o + (uppercase_letter_chunk_70() + uppercase_letter_chunk_71() + uppercase_letter_chunk_72() + uppercase_letter_chunk_73() + uppercase_letter_chunk_74() + uppercase_letter_chunk_75() + uppercase_letter_chunk_76() + uppercase_letter_chunk_77()));
    push_uppercase_letter_chunk_78(v);
    assert(rview(v@) =~= o + (uppercase_letter_chunk_70() + uppercase_letter_chunk_71() + uppercase_letter_chunk_72() + uppercase_letter_chunk_73() + uppercase_letter_chunk_74() + uppercase_letter_chunk_75() + uppercase_letter_chunk_76() + uppercase_letter_chunk_77() + uppercase_letter_chunk_78()));
    push_uppercase_letter_chunk_79(v);
    assert(rview(v@) =~= o + (uppercase_letter_chunk_70() + uppercase_letter_chunk_71() + uppercase_letter_chunk_72() + uppercase_letter_chunk_73() + uppercase_letter_chunk_74() + uppercase_letter_chunk_75() + uppercase_letter_chunk_76() + uppercase_letter_chunk_77() + uppercase_letter_chunk_78() + uppercase_letter_chunk_79()));
}

fn push_uppercase_letter_block_8(v: &mut Vec<ClassUnicodeRange>)
    ensures
        rview(final(v)@) == rview(old(v)@) + uppercase_letter_block_8(),
{
    let ghost o = rview(v@);
    push_uppercase_letter_chunk_80(v);
    assert(rview(v@) =~= o + (uppercase_letter_chunk_80()));
    push_uppercase_letter_chunk_81(v);
    assert(rview(v@) =~= o + (uppercase_letter_chunk_80() + uppercase_letter_chunk_81()));
}

/// The ranges of the general category Uppercase_Letter.
pub fn uppercase_letter_class() -> (v: Vec<ClassUnicodeRange>)
    ensures
        rview(v@) == uppercase_letter_ranges(),
{
    let mut v: Vec<ClassUnicodeRange> = Vec::new();
    assert(rview(v@) =~= Seq::<SRange>::empty());
    push_uppercase_letter_block_0(&mut v);
    assert(rview(v@) =~= uppercase_letter_block_0());
    push_uppercase_letter_block_1(&mut v);
    assert(rview(v@) =~= uppercase_letter_block_0() + uppercase_letter_block_1());
    push_uppercase_letter_block_2(&mut v);
    assert(rview(v@) =~= uppercase_letter_block_0() + uppercase_letter_block_1() + uppercase_letter_block_2());
    push_uppercase_letter_block_3(&mut v);
    assert(rview(v@) =~= uppercase_letter_block_0() + uppercase_letter_block_1() + uppercase_letter_block_2() + uppercase_letter_block_3());
    push_uppercase_letter_block_4(&mut v);
    assert(rview(v@) =~= uppercase_letter_block_0() + uppercase_letter_block_1() + uppercase_letter_block_2() + uppercase_letter_block_3() + uppercase_letter_block_4());
    push_uppercase_letter_block_5(&mut v);
    assert(rview(v@) =~= uppercase_letter_block_0() + uppercase_letter_block_1() + uppercase_letter_block_2() + uppercase_letter_block_3() + uppercase_letter_block_4() + uppercase_letter_block_5());
    push_uppercase_letter_block_6(&mut v);
    assert(rview(v@) =~= uppercase_letter_block_0() + uppercase_letter_block_1() + uppercase_letter_block_2() + uppercase_letter_block_3() + uppercase_letter_block_4() + uppercase_letter_block_5() + uppercase_letter_block_6());
    push_uppercase_letter_block_7(&mut v);
    assert(rview(v@) =~= uppercase_letter_block_0() + uppercase_letter_block_1() + uppercase_letter_block_2() + uppercase_letter_block_3() + uppercase_letter_block_4() + uppercase_letter_block_5() + uppercase_letter_block_6() + uppercase_letter_block_7());
    push_uppercase_letter_block_8(&mut v);
    assert(rview(v@) =~= uppercase_letter_block_0() + uppercase_letter_block_1() + uppercase_letter_block_2() + uppercase_letter_block_3() + uppercase_letter_block_4() + uppercase_letter_block_5() + uppercase_letter_block_6() + uppercase_letter_block_7() + uppercase_letter_block_8());
    v
}

} // verus!
