//! The ranges of a part of the boolean Unicode properties (see `boolprop`).
use vstd::prelude::*;
use crate::ranges::{SRange, canonical};
use crate::class::{ClassUnicodeRange, rview, lemma_rview_push};
use crate::word::lemma_canonical_append;

verus! {

fn push_range(v: &mut Vec<ClassUnicodeRange>, a: char, b: char)
    ensures
        rview(final(v)@) == rview(old(v)@).push((a as int, b as int)),
{
    let r = ClassUnicodeRange { start: a, end: b };
    proof {
        lemma_rview_push(v@, r);
    }
    v.push(r);
}

pub open spec fn other_math_chunk_0() -> Seq<SRange> {
    seq![(0x5Eint, 0x5Eint), (0x3D0int, 0x3D2int), (0x3D5int, 0x3D5int), (0x3F0int, 0x3F1int), (0x3F4int, 0x3F5int), (0x2016int, 0x2016int), (0x2032int, 0x2034int), (0x2040int, 0x2040int)]
}

pub open spec fn other_math_chunk_1() -> Seq<SRange> {
    seq![(0x2061int, 0x2064int), (0x207Dint, 0x207Eint), (0x208Dint, 0x208Eint), (0x20D0int, 0x20DCint), (0x20E1int, 0x20E1int), (0x20E5int, 0x20E6int), (0x20EBint, 0x20EFint), (0x2102int, 0x2102int)]
}

pub open spec fn other_math_chunk_2() -> Seq<SRange> {
    seq![(0x2107int, 0x2107int), (0x210Aint, 0x2113int), (0x2115int, 0x2115int), (0x2119int, 0x211Dint), (0x2124int, 0x2124int), (0x2128int, 0x2129int), (0x212Cint, 0x212Dint), (0x212Fint, 0x2131int)]
}

pub open spec fn other_math_chunk_3() -> Seq<SRange> {
    seq![(0x2133int, 0x2138int), (0x213Cint, 0x213Fint), (0x2145int, 0x2149int), (0x2195int, 0x2199int), (0x219Cint, 0x219Fint), (0x21A1int, 0x21A2int), (0x21A4int, 0x21A5int), (0x21A7int, 0x21A7int)]
}

pub open spec fn other_math_chunk_4() -> Seq<SRange> {
    seq![(0x21A9int, 0x21ADint), (0x21B0int, 0x21B1int), (0x21B6int, 0x21B7int), (0x21BCint, 0x21CDint), (0x21D0int, 0x21D1int), (0x21D3int, 0x21D3int), (0x21D5int, 0x21DBint), (0x21DDint, 0x21DDint)]
}

pub open spec fn other_math_chunk_5() -> Seq<SRange> {
    seq![(0x21E4int, 0x21E5int), (0x2308int, 0x230Bint), (0x23B4int, 0x23B5int), (0x23B7int, 0x23B7int), (0x23D0int, 0x23D0int), (0x23E2int, 0x23E2int), (0x25A0int, 0x25A1int), (0x25AEint, 0x25B6int)]
}

pub open spec fn other_math_chunk_6() -> Seq<SRange> {
    seq![(0x25BCint, 0x25C0int), (0x25C6int, 0x25C7int), (0x25CAint, 0x25CBint), (0x25CFint, 0x25D3int), (0x25E2int, 0x25E2int), (0x25E4int, 0x25E4int), (0x25E7int, 0x25ECint), (0x2605int, 0x2606int)]
}

pub open spec fn other_math_chunk_7() -> Seq<SRange> {
    seq![(0x2640int, 0x2640int), (0x2642int, 0x2642int), (0x2660int, 0x2663int), (0x266Dint, 0x266Eint), (0x27C5int, 0x27C6int), (0x27E6int, 0x27EFint), (0x2983int, 0x2998int), (0x29D8int, 0x29DBint)]
}

pub open spec fn other_math_chunk_8() -> Seq<SRange> {
    seq![(0x29FCint, 0x29FDint), (0xFE61int, 0xFE61int), (0xFE63int, 0xFE63int), (0xFE68int, 0xFE68int), (0xFF3Cint, 0xFF3Cint), (0xFF3Eint, 0xFF3Eint), (0x1D400int, 0x1D454int), (0x1D456int, 0x1D49Cint)]
}

pub open spec fn other_math_chunk_9() -> Seq<SRange> {
    seq![(0x1D49Eint, 0x1D49Fint), (0x1D4A2int, 0x1D4A2int), (0x1D4A5int, 0x1D4A6int), (0x1D4A9int, 0x1D4ACint), (0x1D4AEint, 0x1D4B9int), (0x1D4BBint, 0x1D4BBint), (0x1D4BDint, 0x1D4C3int), (0x1D4C5int, 0x1D505int)]
}

pub open spec fn other_math_chunk_10() -> Seq<SRange> {
    seq![(0x1D507int, 0x1D50Aint), (0x1D50Dint, 0x1D514int), (0x1D516int, 0x1D51Cint), (0x1D51Eint, 0x1D539int), (0x1D53Bint, 0x1D53Eint), (0x1D540int, 0x1D544int), (0x1D546int, 0x1D546int), (0x1D54Aint, 0x1D550int)]
}

pub open spec fn other_math_chunk_11() -> Seq<SRange> {
    seq![(0x1D552int, 0x1D6A5int), (0x1D6A8int, 0x1D6C0int), (0x1D6C2int, 0x1D6DAint), (0x1D6DCint, 0x1D6FAint), (0x1D6FCint, 0x1D714int), (0x1D716int, 0x1D734int), (0x1D736int, 0x1D74Eint), (0x1D750int, 0x1D76Eint)]
}

pub open spec fn other_math_chunk_12() -> Seq<SRange> {
    seq![(0x1D770int, 0x1D788int), (0x1D78Aint, 0x1D7A8int), (0x1D7AAint, 0x1D7C2int), (0x1D7C4int, 0x1D7CBint), (0x1D7CEint, 0x1D7FFint), (0x1EE00int, 0x1EE03int), (0x1EE05int, 0x1EE1Fint), (0x1EE21int, 0x1EE22int)]
}

pub open spec fn other_math_chunk_13() -> Seq<SRange> {
    seq![(0x1EE24int, 0x1EE24int), (0x1EE27int, 0x1EE27int), (0x1EE29int, 0x1EE32int), (0x1EE34int, 0x1EE37int), (0x1EE39int, 0x1EE39int), (0x1EE3Bint, 0x1EE3Bint), (0x1EE42int, 0x1EE42int), (0x1EE47int, 0x1EE47int)]
}

pub open spec fn other_math_chunk_14() -> Seq<SRange> {
    seq![(0x1EE49int, 0x1EE49int), (0x1EE4Bint, 0x1EE4Bint), (0x1EE4Dint, 0x1EE4Fint), (0x1EE51int, 0x1EE52int), (0x1EE54int, 0x1EE54int), (0x1EE57int, 0x1EE57int), (0x1EE59int, 0x1EE59int), (0x1EE5Bint, 0x1EE5Bint)]
}

pub open spec fn other_math_chunk_15() -> Seq<SRange> {
    seq![(0x1EE5Dint, 0x1EE5Dint), (0x1EE5Fint, 0x1EE5Fint), (0x1EE61int, 0x1EE62int), (0x1EE64int, 0x1EE64int), (0x1EE67int, 0x1EE6Aint), (0x1EE6Cint, 0x1EE72int), (0x1EE74int, 0x1EE77int), (0x1EE79int, 0x1EE7Cint)]
}

pub open spec fn other_math_chunk_16() -> Seq<SRange> {
    seq![(0x1EE7Eint, 0x1EE7Eint), (0x1EE80int, 0x1EE89int), (0x1EE8Bint, 0x1EE9Bint), (0x1EEA1int, 0x1EEA3int), (0x1EEA5int, 0x1EEA9int), (0x1EEABint, 0x1EEBBint)]
}

pub open spec fn other_math_block_0() -> Seq<SRange> {
    other_math_chunk_0() + other_math_chunk_1() + other_math_chunk_2() + other_math_chunk_3() + other_math_chunk_4() + other_math_chunk_5() + other_math_chunk_6() + other_math_chunk_7() + other_math_chunk_8() + other_math_chunk_9()
}

pub open spec fn other_math_block_1() -> Seq<SRange> {
    other_math_chunk_10() + other_math_chunk_11() + other_math_chunk_12() + other_math_chunk_13() + other_math_chunk_14() + other_math_chunk_15() + other_math_chunk_16()
}

/// The ranges of the property Other_Math.
pub open spec fn other_math_ranges() -> Seq<SRange> {
    other_math_block_0() + other_math_block_1()
}

proof fn lemma_other_math_block_0()
    ensures
        canonical(other_math_block_0()),
        other_math_block_0().len() > 0,
        other_math_block_0()[0] == other_math_chunk_0()[0],
        other_math_block_0().last() == other_math_chunk_9().last(),
{
    reveal_with_fuel(canonical, 9);
    assert(canonical(other_math_chunk_0()));
    assert(canonical(other_math_chunk_1()));
    assert(canonical(other_math_chunk_2()));
    assert(canonical(other_math_chunk_3()));
    assert(canonical(other_math_chunk_4()));
    assert(canonical(other_math_chunk_5()));
    assert(canonical(other_math_chunk_6()));
    assert(canonical(other_math_chunk_7()));
    assert(canonical(other_math_chunk_8()));
    assert(canonical(other_math_chunk_9()));
    lemma_canonical_append(other_math_chunk_0(), other_math_chunk_1());
    lemma_canonical_append(other_math_chunk_0() + other_math_chunk_1(), other_math_chunk_2());
    lemma_canonical_append(other_math_chunk_0() + other_math_chunk_1() + other_math_chunk_2(), other_math_chunk_3());
    lemma_canonical_append(other_math_chunk_0() + other_math_chunk_1() + other_math_chunk_2() + other_math_chunk_3(), other_math_chunk_4());
    lemma_canonical_append(other_math_chunk_0() + other_math_chunk_1() + other_math_chunk_2() + other_math_chunk_3() + other_math_chunk_4(), other_math_chunk_5());
    lemma_canonical_append(other_math_chunk_0() + other_math_chunk_1() + other_math_chunk_2() + other_math_chunk_3() + other_math_chunk_4() + other_math_chunk_5(), other_math_chunk_6());
    lemma_canonical_append(other_math_chunk_0() + other_math_chunk_1() + other_math_chunk_2() + other_math_chunk_3() + other_math_chunk_4() + other_math_chunk_5() + other_math_chunk_6(), other_math_chunk_7());
    lemma_canonical_append(other_math_chunk_0() + other_math_chunk_1() + other_math_chunk_2() + other_math_chunk_3() + other_math_chunk_4() + other_math_chunk_5() + other_math_chunk_6() + other_math_chunk_7(), other_math_chunk_8());
    lemma_canonical_append(other_math_chunk_0() + other_math_chunk_1() + other_math_chunk_2() + other_math_chunk_3() + other_math_chunk_4() + other_math_chunk_5() + other_math_chunk_6() + other_math_chunk_7() + other_math_chunk_8(), other_math_chunk_9());
}

proof fn lemma_other_math_block_1()
    ensures
        canonical(other_math_block_1()),
        other_math_block_1().len() > 0,
        other_math_block_1()[0] == other_math_chunk_10()[0],
        other_math_block_1().last() == other_math_chunk_16().last(),
{
    reveal_with_fuel(canonical, 9);
    assert(canonical(other_math_chunk_10()));
    assert(canonical(other_math_chunk_11()));
    assert(canonical(other_math_chunk_12()));
    assert(canonical(other_math_chunk_13()));
    assert(canonical(other_math_chunk_14()));
    assert(canonical(other_math_chunk_15()));
    assert(canonical(other_math_chunk_16()));
    lemma_canonical_append(other_math_chunk_10(), other_math_chunk_11());
    lemma_canonical_append(other_math_chunk_10() + other_math_chunk_11(), other_math_chunk_12());
    lemma_canonical_append(other_math_chunk_10() + other_math_chunk_11() + other_math_chunk_12(), other_math_chunk_13());
    lemma_canonical_append(other_math_chunk_10() + other_math_chunk_11() + other_math_chunk_12() + other_math_chunk_13(), other_math_chunk_14());
    lemma_canonical_append(other_math_chunk_10() + other_math_chunk_11() + other_math_chunk_12() + other_math_chunk_13() + other_math_chunk_14(), other_math_chunk_15());
    lemma_canonical_append(other_math_chunk_10() + other_math_chunk_11() + other_math_chunk_12() + other_math_chunk_13() + other_math_chunk_14() + other_math_chunk_15(), other_math_chunk_16());
}

pub proof fn lemma_other_math_canonical()
    ensures
        canonical(other_math_ranges()),
{
    lemma_other_math_block_0();
    lemma_other_math_block_1();
    lemma_canonical_append(other_math_block_0(), other_math_block_1());
}

fn push_other_math_chunk_0(v: &mut Vec<ClassUnicodeRange>)
    ensures
        rview(final(v)@) == rview(old(v)@) + other_math_chunk_0(),
{
    let ghost o = rview(v@);
    push_range(v, '\u{5E}', '\u{5E}');
    push_range(v, '\u{3D0}', '\u{3D2}');
    push_range(v, '\u{3D5}', '\u{3D5}');
    push_range(v, '\u{3F0}', '\u{3F1}');
    push_range(v, '\u{3F4}', '\u{3F5}');
    push_range(v, '\u{2016}', '\u{2016}');
    push_range(v, '\u{2032}', '\u{2034}');
    push_range(v, '\u{2040}', '\u{2040}');
    assert(rview(v@) =~= o + other_math_chunk_0());
}

fn push_other_math_chunk_1(v: &mut Vec<ClassUnicodeRange>)
    ensures
        rview(final(v)@) == rview(old(v)@) + other_math_chunk_1(),
{
    let ghost o = rview(v@);
    push_range(v, '\u{2061}', '\u{2064}');
    push_range(v, '\u{207D}', '\u{207E}');
    push_range(v, '\u{208D}', '\u{208E}');
    push_range(v, '\u{20D0}', '\u{20DC}');
    push_range(v, '\u{20E1}', '\u{20E1}');
    push_range(v, '\u{20E5}', '\u{20E6}');
    push_range(v, '\u{20EB}', '\u{20EF}');
    push_range(v, '\u{2102}', '\u{2102}');
    assert(rview(v@) =~= o + other_math_chunk_1());
}

fn push_other_math_chunk_2(v: &mut Vec<ClassUnicodeRange>)
    ensures
        rview(final(v)@) == rview(old(v)@) + other_math_chunk_2(),
{
    let ghost o = rview(v@);
    push_range(v, '\u{2107}', '\u{2107}');
    push_range(v, '\u{210A}', '\u{2113}');
    push_range(v, '\u{2115}', '\u{2115}');
    push_range(v, '\u{2119}', '\u{211D}');
    push_range(v, '\u{2124}', '\u{2124}');
    push_range(v, '\u{2128}', '\u{2129}');
    push_range(v, '\u{212C}', '\u{212D}');
    push_range(v, '\u{212F}', '\u{2131}');
    assert(rview(v@) =~= o + other_math_chunk_2());
}

fn push_other_math_chunk_3(v: &mut Vec<ClassUnicodeRange>)
    ensures
        rview(final(v)@) == rview(old(v)@) + other_math_chunk_3(),
{
    let ghost o = rview(v@);
    push_range(v, '\u{2133}', '\u{2138}');
    push_range(v, '\u{213C}', '\u{213F}');
    push_range(v, '\u{2145}', '\u{2149}');
    push_range(v, '\u{2195}', '\u{2199}');
    push_range(v, '\u{219C}', '\u{219F}');
    push_range(v, '\u{21A1}', '\u{21A2}');
    push_range(v, '\u{21A4}', '\u{21A5}');
    push_range(v, '\u{21A7}', '\u{21A7}');
    assert(rview(v@) =~= o + other_math_chunk_3());
}

fn push_other_math_chunk_4(v: &mut Vec<ClassUnicodeRange>)
    ensures
        rview(final(v)@) == rview(old(v)@) + other_math_chunk_4(),
{
    let ghost o = rview(v@);
    push_range(v, '\u{21A9}', '\u{21AD}');
    push_range(v, '\u{21B0}', '\u{21B1}');
    push_range(v, '\u{21B6}', '\u{21B7}');
    push_range(v, '\u{21BC}', '\u{21CD}');
    push_range(v, '\u{21D0}', '\u{21D1}');
    push_range(v, '\u{21D3}', '\u{21D3}');
    push_range(v, '\u{21D5}', '\u{21DB}');
    push_range(v, '\u{21DD}', '\u{21DD}');
    assert(rview(v@) =~= o + other_math_chunk_4());
}

fn push_other_math_chunk_5(v: &mut Vec<ClassUnicodeRange>)
    ensures
        rview(final(v)@) == rview(old(v)@) + other_math_chunk_5(),
{
    let ghost o = rview(v@);
    push_range(v, '\u{21E4}', '\u{21E5}');
    push_range(v, '\u{2308}', '\u{230B}');
    push_range(v, '\u{23B4}', '\u{23B5}');
    push_range(v, '\u{23B7}', '\u{23B7}');
    push_range(v, '\u{23D0}', '\u{23D0}');
    push_range(v, '\u{23E2}', '\u{23E2}');
    push_range(v, '\u{25A0}', '\u{25A1}');
    push_range(v, '\u{25AE}', '\u{25B6}');
    assert(rview(v@) =~= o + other_math_chunk_5());
}

fn push_other_math_chunk_6(v: &mut Vec<ClassUnicodeRange>)
    ensures
        rview(final(v)@) == rview(old(v)@) + other_math_chunk_6(),
{
    let ghost o = rview(v@);
    push_range(v, '\u{25BC}', '\u{25C0}');
    push_range(v, '\u{25C6}', '\u{25C7}');
    push_range(v, '\u{25CA}', '\u{25CB}');
    push_range(v, '\u{25CF}', '\u{25D3}');
    push_range(v, '\u{25E2}', '\u{25E2}');
    push_range(v, '\u{25E4}', '\u{25E4}');
    push_range(v, '\u{25E7}', '\u{25EC}');
    push_range(v, '\u{2605}', '\u{2606}');
    assert(rview(v@) =~= o + other_math_chunk_6());
}

fn push_other_math_chunk_7(v: &mut Vec<ClassUnicodeRange>)
    ensures
        rview(final(v)@) == rview(old(v)@) + other_math_chunk_7(),
{
    let ghost o = rview(v@);
    push_range(v, '\u{2640}', '\u{2640}');
    push_range(v, '\u{2642}', '\u{2642}');
    push_range(v, '\u{2660}', '\u{2663}');
    push_range(v, '\u{266D}', '\u{266E}');
    push_range(v, '\u{27C5}', '\u{27C6}');
    push_range(v, '\u{27E6}', '\u{27EF}');
    push_range(v, '\u{2983}', '\u{2998}');
    push_range(v, '\u{29D8}', '\u{29DB}');
    assert(rview(v@) =~= o + other_math_chunk_7());
}

fn push_other_math_chunk_8(v: &mut Vec<ClassUnicodeRange>)
    ensures
        rview(final(v)@) == rview(old(v)@) + other_math_chunk_8(),
{
    let ghost o = rview(v@);
    push_range(v, '\u{29FC}', '\u{29FD}');
    push_range(v, '\u{FE61}', '\u{FE61}');
    push_range(v, '\u{FE63}', '\u{FE63}');
    push_range(v, '\u{FE68}', '\u{FE68}');
    push_range(v, '\u{FF3C}', '\u{FF3C}');
    push_range(v, '\u{FF3E}', '\u{FF3E}');
    push_range(v, '\u{1D400}', '\u{1D454}');
    push_range(v, '\u{1D456}', '\u{1D49C}');
    assert(rview(v@) =~= o + other_math_chunk_8());
}

fn push_other_math_chunk_9(v: &mut Vec<ClassUnicodeRange>)
    ensures
        rview(final(v)@) == rview(old(v)@) + other_math_chunk_9(),
{
    let ghost o = rview(v@);
    push_range(v, '\u{1D49E}', '\u{1D49F}');
    push_range(v, '\u{1D4A2}', '\u{1D4A2}');
    push_range(v, '\u{1D4A5}', '\u{1D4A6}');
    push_range(v, '\u{1D4A9}', '\u{1D4AC}');
    push_range(v, '\u{1D4AE}', '\u{1D4B9}');
    push_range(v, '\u{1D4BB}', '\u{1D4BB}');
    push_range(v, '\u{1D4BD}', '\u{1D4C3}');
    push_range(v, '\u{1D4C5}', '\u{1D505}');
    assert(rview(v@) =~= o + other_math_chunk_9());
}

fn push_other_math_chunk_10(v: &mut Vec<ClassUnicodeRange>)
    ensures
        rview(final(v)@) == rview(old(v)@) + other_math_chunk_10(),
{
    let ghost o = rview(v@);
    push_range(v, '\u{1D507}', '\u{1D50A}');
    push_range(v, '\u{1D50D}', '\u{1D514}');
    push_range(v, '\u{1D516}', '\u{1D51C}');
    push_range(v, '\u{1D51E}', '\u{1D539}');
    push_range(v, '\u{1D53B}', '\u{1D53E}');
    push_range(v, '\u{1D540}', '\u{1D544}');
    push_range(v, '\u{1D546}', '\u{1D546}');
    push_range(v, '\u{1D54A}', '\u{1D550}');
    assert(rview(v@) =~= o + other_math_chunk_10());
}

fn push_other_math_chunk_11(v: &mut Vec<ClassUnicodeRange>)
    ensures
        rview(final(v)@) == rview(old(v)@) + other_math_chunk_11(),
{
    let ghost o = rview(v@);
    push_range(v, '\u{1D552}', '\u{1D6A5}');
    push_range(v, '\u{1D6A8}', '\u{1D6C0}');
    push_range(v, '\u{1D6C2}', '\u{1D6DA}');
    push_range(v, '\u{1D6DC}', '\u{1D6FA}');
    push_range(v, '\u{1D6FC}', '\u{1D714}');
    push_range(v, '\u{1D716}', '\u{1D734}');
    push_range(v, '\u{1D736}', '\u{1D74E}');
    push_range(v, '\u{1D750}', '\u{1D76E}');
    assert(rview(v@) =~= o + other_math_chunk_11());
}

fn push_other_math_chunk_12(v: &mut Vec<ClassUnicodeRange>)
    ensures
        rview(final(v)@) == rview(old(v)@) + other_math_chunk_12(),
{
    let ghost o = rview(v@);
    push_range(v, '\u{1D770}', '\u{1D788}');
    push_range(v, '\u{1D78A}', '\u{1D7A8}');
    push_range(v, '\u{1D7AA}', '\u{1D7C2}');
    push_range(v, '\u{1D7C4}', '\u{1D7CB}');
    push_range(v, '\u{1D7CE}', '\u{1D7FF}');
    push_range(v, '\u{1EE00}', '\u{1EE03}');
    push_range(v, '\u{1EE05}', '\u{1EE1F}');
    push_range(v, '\u{1EE21}', '\u{1EE22}');
    assert(rview(v@) =~= o + other_math_chunk_12());
}

fn push_other_math_chunk_13(v: &mut Vec<ClassUnicodeRange>)
    ensures
        rview(final(v)@) == rview(old(v)@) + other_math_chunk_13(),
{
    let ghost o = rview(v@);
    push_range(v, '\u{1EE24}', '\u{1EE24}');
    push_range(v, '\u{1EE27}', '\u{1EE27}');
    push_range(v, '\u{1EE29}', '\u{1EE32}');
    push_range(v, '\u{1EE34}', '\u{1EE37}');
    push_range(v, '\u{1EE39}', '\u{1EE39}');
    push_range(v, '\u{1EE3B}', '\u{1EE3B}');
    push_range(v, '\u{1EE42}', '\u{1EE42}');
    push_range(v, '\u{1EE47}', '\u{1EE47}');
    assert(rview(v@) =~= o + other_math_chunk_13());
}

fn push_other_math_chunk_14(v: &mut Vec<ClassUnicodeRange>)
    ensures
        rview(final(v)@) == rview(old(v)@) + other_math_chunk_14(),
{
    let ghost o = rview(v@);
    push_range(v, '\u{1EE49}', '\u{1EE49}');
    push_range(v, '\u{1EE4B}', '\u{1EE4B}');
    push_range(v, '\u{1EE4D}', '\u{1EE4F}');
    push_range(v, '\u{1EE51}', '\u{1EE52}');
    push_range(v, '\u{1EE54}', '\u{1EE54}');
    push_range(v, '\u{1EE57}', '\u{1EE57}');
    push_range(v, '\u{1EE59}', '\u{1EE59}');
    push_range(v, '\u{1EE5B}', '\u{1EE5B}');
    assert(rview(v@) =~= o + other_math_chunk_14());
}

fn push_other_math_chunk_15(v: &mut Vec<ClassUnicodeRange>)
    ensures
        rview(final(v)@) == rview(old(v)@) + other_math_chunk_15(),
{
    let ghost o = rview(v@);
    push_range(v, '\u{1EE5D}', '\u{1EE5D}');
    push_range(v, '\u{1EE5F}', '\u{1EE5F}');
    push_range(v, '\u{1EE61}', '\u{1EE62}');
    push_range(v, '\u{1EE64}', '\u{1EE64}');
    push_range(v, '\u{1EE67}', '\u{1EE6A}');
    push_range(v, '\u{1EE6C}', '\u{1EE72}');
    push_range(v, '\u{1EE74}', '\u{1EE77}');
    push_range(v, '\u{1EE79}', '\u{1EE7C}');
    assert(rview(v@) =~= o + other_math_chunk_15());
}

fn push_other_math_chunk_16(v: &mut Vec<ClassUnicodeRange>)
    ensures
        rview(final(v)@) == rview(old(v)@) + other_math_chunk_16(),
{
    let ghost o = rview(v@);
    push_range(v, '\u{1EE7E}', '\u{1EE7E}');
    push_range(v, '\u{1EE80}', '\u{1EE89}');
    push_range(v, '\u{1EE8B}', '\u{1EE9B}');
    push_range(v, '\u{1EEA1}', '\u{1EEA3}');
    push_range(v, '\u{1EEA5}', '\u{1EEA9}');
    push_range(v, '\u{1EEAB}', '\u{1EEBB}');
    assert(rview(v@) =~= o + other_math_chunk_16());
}

fn push_other_math_block_0(v: &mut Vec<ClassUnicodeRange>)
    ensures
        rview(final(v)@) == rview(old(v)@) + other_math_block_0(),
{
    let ghost o = rview(v@);
    push_other_math_chunk_0(v);
    assert(rview(v@) =~= o + (other_math_chunk_0()));
    push_other_math_chunk_1(v);
    assert(rview(v@) =~= o + (other_math_chunk_0() + other_math_chunk_1()));
    push_other_math_chunk_2(v);
    assert(rview(v@) =~= o + (other_math_chunk_0() + other_math_chunk_1() + other_math_chunk_2()));
    push_other_math_chunk_3(v);
    assert(rview(v@) =~= o + (other_math_chunk_0() + other_math_chunk_1() + other_math_chunk_2() + other_math_chunk_3()));
    push_other_math_chunk_4(v);
    assert(rview(v@) =~= o + (other_math_chunk_0() + other_math_chunk_1() + other_math_chunk_2() + other_math_chunk_3() + other_math_chunk_4()));
    push_other_math_chunk_5(v);
    assert(rview(v@) =~= o + (other_math_chunk_0() + other_math_chunk_1() + other_math_chunk_2() + other_math_chunk_3() + other_math_chunk_4() + other_math_chunk_5()));
    push_other_math_chunk_6(v);
    assert(rview(v@) =~= o + (other_math_chunk_0() + other_math_chunk_1() + other_math_chunk_2() + other_math_chunk_3() + other_math_chunk_4() + other_math_chunk_5() + other_math_chunk_6()));
    push_other_math_chunk_7(v);
    assert(rview(v@) =~= o + (other_math_chunk_0() + other_math_chunk_1() + other_math_chunk_2() + other_math_chunk_3() + other_math_chunk_4() + other_math_chunk_5() + other_math_chunk_6() + other_math_chunk_7()));
    push_other_math_chunk_8(v);
    assert(rview(v@) =~= o + (other_math_chunk_0() + other_math_chunk_1() + other_math_chunk_2() + other_math_chunk_3() + other_math_chunk_4() + other_math_chunk_5() + other_math_chunk_6() + other_math_chunk_7() + other_math_chunk_8()));
    push_other_math_chunk_9(v);
    assert(rview(v@) =~= o + (other_math_chunk_0() + other_math_chunk_1() + other_math_chunk_2() + other_math_chunk_3() + other_math_chunk_4() + other_math_chunk_5() + other_math_chunk_6() + other_math_chunk_7() + other_math_chunk_8() + other_math_chunk_9()));
}

fn push_other_math_block_1(v: &mut Vec<ClassUnicodeRange>)
    ensures
        rview(final(v)@) == rview(old(v)@) + other_math_block_1(),
{
    let ghost o = rview(v@);
    push_other_math_chunk_10(v);
    assert(rview(v@) =~= o + (other_math_chunk_10()));
    push_other_math_chunk_11(v);
    assert(rview(v@) =~= o + (other_math_chunk_10() + other_math_chunk_11()));
    push_other_math_chunk_12(v);
    assert(rview(v@) =~= o + (other_math_chunk_10() + other_math_chunk_11() + other_math_chunk_12()));
    push_other_math_chunk_13(v);
    assert(rview(v@) =~= o + (other_math_chunk_10() + other_math_chunk_11() + other_math_chunk_12() + other_math_chunk_13()));
    push_other_math_chunk_14(v);
    assert(rview(v@) =~= o + (other_math_chunk_10() + other_math_chunk_11() + other_math_chunk_12() + other_math_chunk_13() + other_math_chunk_14()));
    push_other_math_chunk_15(v);
    assert(rview(v@) =~= o + (other_math_chunk_10() + other_math_chunk_11() + other_math_chunk_12() + other_math_chunk_13() + other_math_chunk_14() + other_math_chunk_15()));
    push_other_math_chunk_16(v);
    assert(rview(v@) =~= o + (other_math_chunk_10() + other_math_chunk_11() + other_math_chunk_12() + other_math_chunk_13() + other_math_chunk_14() + other_math_chunk_15() + other_math_chunk_16()));
}

pub fn other_math_class() -> (v: Vec<ClassUnicodeRange>)
    ensures
        rview(v@) == other_math_ranges(),
{
    let mut v: Vec<ClassUnicodeRange> = Vec::new();
    assert(rview(v@) =~= Seq::<SRange>::empty());
    push_other_math_block_0(&mut v);
    assert(rview(v@) =~= other_math_block_0());
    push_other_math_block_1(&mut v);
    assert(rview(v@) =~= other_math_block_0() + other_math_block_1());
    v
}

pub open spec fn other_uppercase_chunk_0() -> Seq<SRange> {
    seq![(0x2160int, 0x216Fint), (0x24B6int, 0x24CFint), (0x1F130int, 0x1F149int), (0x1F150int, 0x1F169int), (0x1F170int, 0x1F189int)]
}

/// The ranges of the property Other_Uppercase.
pub open spec fn other_uppercase_ranges() -> Seq<SRange> {
    other_uppercase_chunk_0()
}

pub proof fn lemma_other_uppercase_canonical()
    ensures
        canonical(other_uppercase_ranges()),
{
    reveal_with_fuel(canonical, 9);
    assert(canonical(other_uppercase_chunk_0()));
}

fn push_other_uppercase_chunk_0(v: &mut Vec<ClassUnicodeRange>)
    ensures
        rview(final(v)@) == rview(old(v)@) + other_uppercase_chunk_0(),
{
    let ghost o = rview(v@);
    push_range(v, '\u{2160}', '\u{216F}');
    push_range(v, '\u{24B6}', '\u{24CF}');
    push_range(v, '\u{1F130}', '\u{1F149}');
    push_range(v, '\u{1F150}', '\u{1F169}');
    push_range(v, '\u{1F170}', '\u{1F189}');
    assert(rview(v@) =~= o + other_uppercase_chunk_0());
}

pub fn other_uppercase_class() -> (v: Vec<ClassUnicodeRange>)
    ensures
        rview(v@) == other_uppercase_ranges(),
{
    let mut v: Vec<ClassUnicodeRange> = Vec::new();
    assert(rview(v@) =~= Seq::<SRange>::empty());
    push_other_uppercase_chunk_0(&mut v);
    assert(rview(v@) =~= other_uppercase_chunk_0());
    v
}

pub open spec fn pattern_syntax_chunk_0() -> Seq<SRange> {
    seq![(0x21int, 0x2Fint), (0x3Aint, 0x40int), (0x5Bint, 0x5Eint), (0x60int, 0x60int), (0x7Bint, 0x7Eint), (0xA1int, 0xA7int), (0xA9int, 0xA9int), (0xABint, 0xACint)]
}

pub open spec fn pattern_syntax_chunk_1() -> Seq<SRange> {
    seq![(0xAEint, 0xAEint), (0xB0int, 0xB1int), (0xB6int, 0xB6int), (0xBBint, 0xBBint), (0xBFint, 0xBFint), (0xD7int, 0xD7int), (0xF7int, 0xF7int), (0x2010int, 0x2027int)]
}

pub open spec fn pattern_syntax_chunk_2() -> Seq<SRange> {
    seq![(0x2030int, 0x203Eint), (0x2041int, 0x2053int), (0x2055int, 0x205Eint), (0x2190int, 0x245Fint), (0x2500int, 0x2775int), (0x2794int, 0x2BFFint), (0x2E00int, 0x2E7Fint), (0x3001int, 0x3003int)]
}

pub open spec fn pattern_syntax_chunk_3() -> Seq<SRange> {
    seq![(0x3008int, 0x3020int), (0x3030int, 0x3030int), (0xFD3Eint, 0xFD3Fint), (0xFE45int, 0xFE46int)]
}

/// The ranges of the property Pattern_Syntax.
pub open spec fn pattern_syntax_ranges() -> Seq<SRange> {
    pattern_syntax_chunk_0() + pattern_syntax_chunk_1() + pattern_syntax_chunk_2() + pattern_syntax_chunk_3()
}

pub proof fn lemma_pattern_syntax_canonical()
    ensures
        canonical(pattern_syntax_ranges()),
{
    reveal_with_fuel(canonical, 9);
    assert(canonical(pattern_syntax_chunk_0()));
    assert(canonical(pattern_syntax_chunk_1()));
    assert(canonical(pattern_syntax_chunk_2()));
    assert(canonical(pattern_syntax_chunk_3()));
    lemma_canonical_append(pattern_syntax_chunk_0(), pattern_syntax_chunk_1());
    lemma_canonical_append(pattern_syntax_chunk_0() + pattern_syntax_chunk_1(), pattern_syntax_chunk_2());
    lemma_canonical_append(pattern_syntax_chunk_0() + pattern_syntax_chunk_1() + pattern_syntax_chunk_2(), pattern_syntax_chunk_3());
}

fn push_pattern_syntax_chunk_0(v: &mut Vec<ClassUnicodeRange>)
    ensures
        rview(final(v)@) == rview(old(v)@) + pattern_syntax_chunk_0(),
{
    let ghost o = rview(v@);
    push_range(v, '\u{21}', '\u{2F}');
    push_range(v, '\u{3A}', '\u{40}');
    push_range(v, '\u{5B}', '\u{5E}');
    push_range(v, '\u{60}', '\u{60}');
    push_range(v, '\u{7B}', '\u{7E}');
    push_range(v, '\u{A1}', '\u{A7}');
    push_range(v, '\u{A9}', '\u{A9}');
    push_range(v, '\u{AB}', '\u{AC}');
    assert(rview(v@) =~= o + pattern_syntax_chunk_0());
}

fn push_pattern_syntax_chunk_1(v: &mut Vec<ClassUnicodeRange>)
    ensures
        rview(final(v)@) == rview(old(v)@) + pattern_syntax_chunk_1(),
{
    let ghost o = rview(v@);
    push_range(v, '\u{AE}', '\u{AE}');
    push_range(v, '\u{B0}', '\u{B1}');
    push_range(v, '\u{B6}', '\u{B6}');
    push_range(v, '\u{BB}', '\u{BB}');
    push_range(v, '\u{BF}', '\u{BF}');
    push_range(v, '\u{D7}', '\u{D7}');
    push_range(v, '\u{F7}', '\u{F7}');
    push_range(v, '\u{2010}', '\u{2027}');
    assert(rview(v@) =~= o + pattern_syntax_chunk_1());
}

fn push_pattern_syntax_chunk_2(v: &mut Vec<ClassUnicodeRange>)
    ensures
        rview(final(v)@) == rview(old(v)@) + pattern_syntax_chunk_2(),
{
    let ghost o = rview(v@);
    push_range(v, '\u{2030}', '\u{203E}');
    push_range(v, '\u{2041}', '\u{2053}');
    push_range(v, '\u{2055}', '\u{205E}');
    push_range(v, '\u{2190}', '\u{245F}');
    push_range(v, '\u{2500}', '\u{2775}');
    push_range(v, '\u{2794}', '\u{2BFF}');
    push_range(v, '\u{2E00}', '\u{2E7F}');
    push_range(v, '\u{3001}', '\u{3003}');
    assert(rview(v@) =~= o + pattern_syntax_chunk_2());
}

fn push_pattern_syntax_chunk_3(v: &mut Vec<ClassUnicodeRange>)
    ensures
        rview(final(v)@) == rview(old(v)@) + pattern_syntax_chunk_3(),
{
    let ghost o = rview(v@);
    push_range(v, '\u{3008}', '\u{3020}');
    push_range(v, '\u{3030}', '\u{3030}');
    push_range(v, '\u{FD3E}', '\u{FD3F}');
    push_range(v, '\u{FE45}', '\u{FE46}');
    assert(rview(v@) =~= o + pattern_syntax_chunk_3());
}

pub fn pattern_syntax_class() -> (v: Vec<ClassUnicodeRange>)
    ensures
        rview(v@) == pattern_syntax_ranges(),
{
    let mut v: Vec<ClassUnicodeRange> = Vec::new();
    assert(rview(v@) =~= Seq::<SRange>::empty());
    push_pattern_syntax_chunk_0(&mut v);
    assert(rview(v@) =~= pattern_syntax_chunk_0());
    push_pattern_syntax_chunk_1(&mut v);
    assert(rview(v@) =~= pattern_syntax_chunk_0() + pattern_syntax_chunk_1());
    push_pattern_syntax_chunk_2(&mut v);
    assert(rview(v@) =~= pattern_syntax_chunk_0() + pattern_syntax_chunk_1() + pattern_syntax_chunk_2());
    push_pattern_syntax_chunk_3(&mut v);
    assert(rview(v@) =~= pattern_syntax_chunk_0() + pattern_syntax_chunk_1() + pattern_syntax_chunk_2() + pattern_syntax_chunk_3());
    v
}

pub open spec fn pattern_white_space_chunk_0() -> Seq<SRange> {
    seq![(0x9int, 0xDint), (0x20int, 0x20int), (0x85int, 0x85int), (0x200Eint, 0x200Fint), (0x2028int, 0x2029int)]
}

/// The ranges of the property Pattern_White_Space.
pub open spec fn pattern_white_space_ranges() -> Seq<SRange> {
    pattern_white_space_chunk_0()
}

pub proof fn lemma_pattern_white_space_canonical()
    ensures
        canonical(pattern_white_space_ranges()),
{
    reveal_with_fuel(canonical, 9);
    assert(canonical(pattern_white_space_chunk_0()));
}

fn push_pattern_white_space_chunk_0(v: &mut Vec<ClassUnicodeRange>)
    ensures
        rview(final(v)@) == rview(old(v)@) + pattern_white_space_chunk_0(),
{
    let ghost o = rview(v@);
    push_range(v, '\u{9}', '\u{D}');
    push_range(v, '\u{20}', '\u{20}');
    push_range(v, '\u{85}', '\u{85}');
    push_range(v, '\u{200E}', '\u{200F}');
    push_range(v, '\u{2028}', '\u{2029}');
    assert(rview(v@) =~= o + pattern_white_space_chunk_0());
}

pub fn pattern_white_space_class() -> (v: Vec<ClassUnicodeRange>)
    ensures
        rview(v@) == pattern_white_space_ranges(),
{
    let mut v: Vec<ClassUnicodeRange> = Vec::new();
    assert(rview(v@) =~= Seq::<SRange>::empty());
    push_pattern_white_space_chunk_0(&mut v);
    assert(rview(v@) =~= pattern_white_space_chunk_0());
    v
}

pub open spec fn prepended_concatenation_mark_chunk_0() -> Seq<SRange> {
    seq![(0x600int, 0x605int), (0x6DDint, 0x6DDint), (0x70Fint, 0x70Fint), (0x890int, 0x891int), (0x8E2int, 0x8E2int), (0x110BDint, 0x110BDint), (0x110CDint, 0x110CDint)]
}

/// The ranges of the property Prepended_Concatenation_Mark.
pub open spec fn prepended_concatenation_mark_ranges() -> Seq<SRange> {
    prepended_concatenation_mark_chunk_0()
}

pub proof fn lemma_prepended_concatenation_mark_canonical()
    ensures
        canonical(prepended_concatenation_mark_ranges()),
{
    reveal_with_fuel(canonical, 9);
    assert(canonical(prepended_concatenation_mark_chunk_0()));
}

fn push_prepended_concatenation_mark_chunk_0(v: &mut Vec<ClassUnicodeRange>)
    ensures
        rview(final(v)@) == rview(old(v)@) + prepended_concatenation_mark_chunk_0(),
{
    let ghost o = rview(v@);
    push_range(v, '\u{600}', '\u{605}');
    push_range(v, '\u{6DD}', '\u{6DD}');
    push_range(v, '\u{70F}', '\u{70F}');
    push_range(v, '\u{890}', '\u{891}');
    push_range(v, '\u{8E2}', '\u{8E2}');
    push_range(v, '\u{110BD}', '\u{110BD}');
    push_range(v, '\u{110CD}', '\u{110CD}');
    assert(rview(v@) =~= o + prepended_concatenation_mark_chunk_0());
}

pub fn prepended_concatenation_mark_class() -> (v: Vec<ClassUnicodeRange>)
    ensures
        rview(v@) == prepended_concatenation_mark_ranges(),
{
    let mut v: Vec<ClassUnicodeRange> = Vec::new();
    assert(rview(v@) =~= Seq::<SRange>::empty());
    push_prepended_concatenation_mark_chunk_0(&mut v);
    assert(rview(v@) =~= prepended_concatenation_mark_chunk_0());
    v
}

pub open spec fn quotation_mark_chunk_0() -> Seq<SRange> {
    seq![(0x22int, 0x22int), (0x27int, 0x27int), (0xABint, 0xABint), (0xBBint, 0xBBint), (0x2018int, 0x201Fint), (0x2039int, 0x203Aint), (0x2E42int, 0x2E42int), (0x300Cint, 0x300Fint)]
}

pub open spec fn quotation_mark_chunk_1() -> Seq<SRange> {
    seq![(0x301Dint, 0x301Fint), (0xFE41int, 0xFE44int), (0xFF02int, 0xFF02int), (0xFF07int, 0xFF07int), (0xFF62int, 0xFF63int)]
}

/// The ranges of the property Quotation_Mark.
pub open spec fn quotation_mark_ranges() -> Seq<SRange> {
    quotation_mark_chunk_0() + quotation_mark_chunk_1()
}

pub proof fn lemma_quotation_mark_canonical()
    ensures
        canonical(quotation_mark_ranges()),
{
    reveal_with_fuel(canonical, 9);
    assert(canonical(quotation_mark_chunk_0()));
    assert(canonical(quotation_mark_chunk_1()));
    lemma_canonical_append(quotation_mark_chunk_0(), quotation_mark_chunk_1());
}

fn push_quotation_mark_chunk_0(v: &mut Vec<ClassUnicodeRange>)
    ensures
        rview(final(v)@) == rview(old(v)@) + quotation_mark_chunk_0(),
{
    let ghost o = rview(v@);
    push_range(v, '\u{22}', '\u{22}');
    push_range(v, '\u{27}', '\u{27}');
    push_range(v, '\u{AB}', '\u{AB}');
    push_range(v, '\u{BB}', '\u{BB}');
    push_range(v, '\u{2018}', '\u{201F}');
    push_range(v, '\u{2039}', '\u{203A}');
    push_range(v, '\u{2E42}', '\u{2E42}');
    push_range(v, '\u{300C}', '\u{300F}');
    assert(rview(v@) =~= o + quotation_mark_chunk_0());
}

fn push_quotation_mark_chunk_1(v: &mut Vec<ClassUnicodeRange>)
    ensures
        rview(final(v)@) == rview(old(v)@) + quotation_mark_chunk_1(),
{
    let ghost o = rview(v@);
    push_range(v, '\u{301D}', '\u{301F}');
    push_range(v, '\u{FE41}', '\u{FE44}');
    push_range(v, '\u{FF02}', '\u{FF02}');
    push_range(v, '\u{FF07}', '\u{FF07}');
    push_range(v, '\u{FF62}', '\u{FF63}');
    assert(rview(v@) =~= o + quotation_mark_chunk_1());
}

pub fn quotation_mark_class() -> (v: Vec<ClassUnicodeRange>)
    ensures
        rview(v@) == quotation_mark_ranges(),
{
    let mut v: Vec<ClassUnicodeRange> = Vec::new();
    assert(rview(v@) =~= Seq::<SRange>::empty());
    push_quotation_mark_chunk_0(&mut v);
    assert(rview(v@) =~= quotation_mark_chunk_0());
    push_quotation_mark_chunk_1(&mut v);
    assert(rview(v@) =~= quotation_mark_chunk_0() + quotation_mark_chunk_1());
    v
}

pub open spec fn radical_chunk_0() -> Seq<SRange> {
    seq![(0x2E80int, 0x2E99int), (0x2E9Bint, 0x2EF3int), (0x2F00int, 0x2FD5int)]
}

/// The ranges of the property Radical.
pub open spec fn radical_ranges() -> Seq<SRange> {
    radical_chunk_0()
}

pub proof fn lemma_radical_canonical()
    ensures
        canonical(radical_ranges()),
{
    reveal_with_fuel(canonical, 9);
    assert(canonical(radical_chunk_0()));
}

fn push_radical_chunk_0(v: &mut Vec<ClassUnicodeRange>)
    ensures
        rview(final(v)@) == rview(old(v)@) + radical_chunk_0(),
{
    let ghost o = rview(v@);
    push_range(v, '\u{2E80}', '\u{2E99}');
    push_range(v, '\u{2E9B}', '\u{2EF3}');
    push_range(v, '\u{2F00}', '\u{2FD5}');
    assert(rview(v@) =~= o + radical_chunk_0());
}

pub fn radical_class() -> (v: Vec<ClassUnicodeRange>)
    ensures
        rview(v@) == radical_ranges(),
{
    let mut v: Vec<ClassUnicodeRange> = Vec::new();
    assert(rview(v@) =~= Seq::<SRange>::empty());
    push_radical_chunk_0(&mut v);
    assert(rview(v@) =~= radical_chunk_0());
    v
}

pub open spec fn regional_indicator_chunk_0() -> Seq<SRange> {
    seq![(0x1F1E6int, 0x1F1FFint)]
}

/// The ranges of the property Regional_Indicator.
pub open spec fn regional_indicator_ranges() -> Seq<SRange> {
    regional_indicator_chunk_0()
}

pub proof fn lemma_regional_indicator_canonical()
    ensures
        canonical(regional_indicator_ranges()),
{
    reveal_with_fuel(canonical, 9);
    assert(canonical(regional_indicator_chunk_0()));
}

fn push_regional_indicator_chunk_0(v: &mut Vec<ClassUnicodeRange>)
    ensures
        rview(final(v)@) == rview(old(v)@) + regional_indicator_chunk_0(),
{
    let ghost o = rview(v@);
    push_range(v, '\u{1F1E6}', '\u{1F1FF}');
    assert(rview(v@) =~= o + regional_indicator_chunk_0());
}

pub fn regional_indicator_class() -> (v: Vec<ClassUnicodeRange>)
    ensures
        rview(v@) == regional_indicator_ranges(),
{
    let mut v: Vec<ClassUnicodeRange> = Vec::new();
    assert(rview(v@) =~= Seq::<SRange>::empty());
    push_regional_indicator_chunk_0(&mut v);
    assert(rview(v@) =~= regional_indicator_chunk_0());
    v
}

pub open spec fn sentence_terminal_chunk_0() -> Seq<SRange> {
    seq![(0x21int, 0x21int), (0x2Eint, 0x2Eint), (0x3Fint, 0x3Fint), (0x589int, 0x589int), (0x61Dint, 0x61Fint), (0x6D4int, 0x6D4int), (0x700int, 0x702int), (0x7F9int, 0x7F9int)]
}

pub open spec fn sentence_terminal_chunk_1() -> Seq<SRange> {
    seq![(0x837int, 0x837int), (0x839int, 0x839int), (0x83Dint, 0x83Eint), (0x964int, 0x965int), (0x104Aint, 0x104Bint), (0x1362int, 0x1362int), (0x1367int, 0x1368int), (0x166Eint, 0x166Eint)]
}

pub open spec fn sentence_terminal_chunk_2() -> Seq<SRange> {
    seq![(0x1735int, 0x1736int), (0x17D4int, 0x17D5int), (0x1803int, 0x1803int), (0x1809int, 0x1809int), (0x1944int, 0x1945int), (0x1AA8int, 0x1AABint), (0x1B4Eint, 0x1B4Fint), (0x1B5Aint, 0x1B5Bint)]
}

pub open spec fn sentence_terminal_chunk_3() -> Seq<SRange> {
    seq![(0x1B5Eint, 0x1B5Fint), (0x1B7Dint, 0x1B7Fint), (0x1C3Bint, 0x1C3Cint), (0x1C7Eint, 0x1C7Fint), (0x2024int, 0x2024int), (0x203Cint, 0x203Dint), (0x2047int, 0x2049int), (0x2CF9int, 0x2CFBint)]
}

pub open spec fn sentence_terminal_chunk_4() -> Seq<SRange> {
    seq![(0x2E2Eint, 0x2E2Eint), (0x2E3Cint, 0x2E3Cint), (0x2E53int, 0x2E54int), (0x3002int, 0x3002int), (0xA4FFint, 0xA4FFint), (0xA60Eint, 0xA60Fint), (0xA6F3int, 0xA6F3int), (0xA6F7int, 0xA6F7int)]
}

pub open spec fn sentence_terminal_chunk_5() -> Seq<SRange> {
    seq![(0xA876int, 0xA877int), (0xA8CEint, 0xA8CFint), (0xA92Fint, 0xA92Fint), (0xA9C8int, 0xA9C9int), (0xAA5Dint, 0xAA5Fint), (0xAAF0int, 0xAAF1int), (0xABEBint, 0xABEBint), (0xFE12int, 0xFE12int)]
}

pub open spec fn sentence_terminal_chunk_6() -> Seq<SRange> {
    seq![(0xFE15int, 0xFE16int), (0xFE52int, 0xFE52int), (0xFE56int, 0xFE57int), (0xFF01int, 0xFF01int), (0xFF0Eint, 0xFF0Eint), (0xFF1Fint, 0xFF1Fint), (0xFF61int, 0xFF61int), (0x10A56int, 0x10A57int)]
}

pub open spec fn sentence_terminal_chunk_7() -> Seq<SRange> {
    seq![(0x10F55int, 0x10F59int), (0x10F86int, 0x10F89int), (0x11047int, 0x11048int), (0x110BEint, 0x110C1int), (0x11141int, 0x11143int), (0x111C5int, 0x111C6int), (0x111CDint, 0x111CDint), (0x111DEint, 0x111DFint)]
}

pub open spec fn sentence_terminal_chunk_8() -> Seq<SRange> {
    seq![(0x11238int, 0x11239int), (0x1123Bint, 0x1123Cint), (0x112A9int, 0x112A9int), (0x113D4int, 0x113D5int), (0x1144Bint, 0x1144Cint), (0x115C2int, 0x115C3int), (0x115C9int, 0x115D7int), (0x11641int, 0x11642int)]
}

pub open spec fn sentence_terminal_chunk_9() -> Seq<SRange> {
    seq![(0x1173Cint, 0x1173Eint), (0x11944int, 0x11944int), (0x11946int, 0x11946int), (0x11A42int, 0x11A43int), (0x11A9Bint, 0x11A9Cint), (0x11C41int, 0x11C42int), (0x11EF7int, 0x11EF8int), (0x11F43int, 0x11F44int)]
}

pub open spec fn sentence_terminal_chunk_10() -> Seq<SRange> {
    seq![(0x16A6Eint, 0x16A6Fint), (0x16AF5int, 0x16AF5int), (0x16B37int, 0x16B38int), (0x16B44int, 0x16B44int), (0x16D6Eint, 0x16D6Fint), (0x16E98int, 0x16E98int), (0x1BC9Fint, 0x1BC9Fint), (0x1DA88int, 0x1DA88int)]
}

pub open spec fn sentence_terminal_block_0() -> Seq<SRange> {
    sentence_terminal_chunk_0() + sentence_terminal_chunk_1() + sentence_terminal_chunk_2() + sentence_terminal_chunk_3() + sentence_terminal_chunk_4() + sentence_terminal_chunk_5() + sentence_terminal_chunk_6() + sentence_terminal_chunk_7() + sentence_terminal_chunk_8() + sentence_terminal_chunk_9()
}

pub open spec fn sentence_terminal_block_1() -> Seq<SRange> {
    sentence_terminal_chunk_10()
}

/// The ranges of the property Sentence_Terminal.
pub open spec fn sentence_terminal_ranges() -> Seq<SRange> {
    sentence_terminal_block_0() + sentence_terminal_block_1()
}

proof fn lemma_sentence_terminal_block_0()
    ensures
        canonical(sentence_terminal_block_0()),
        sentence_terminal_block_0().len() > 0,
        sentence_terminal_block_0()[0] == sentence_terminal_chunk_0()[0],
        sentence_terminal_block_0().last() == sentence_terminal_chunk_9().last(),
{
    reveal_with_fuel(canonical, 9);
    assert(canonical(sentence_terminal_chunk_0()));
    assert(canonical(sentence_terminal_chunk_1()));
    assert(canonical(sentence_terminal_chunk_2()));
    assert(canonical(sentence_terminal_chunk_3()));
    assert(canonical(sentence_terminal_chunk_4()));
    assert(canonical(sentence_terminal_chunk_5()));
    assert(canonical(sentence_terminal_chunk_6()));
    assert(canonical(sentence_terminal_chunk_7()));
    assert(canonical(sentence_terminal_chunk_8()));
    assert(canonical(sentence_terminal_chunk_9()));
    lemma_canonical_append(sentence_terminal_chunk_0(), sentence_terminal_chunk_1());
    lemma_canonical_append(sentence_terminal_chunk_0() + sentence_terminal_chunk_1(), sentence_terminal_chunk_2());
    lemma_canonical_append(sentence_terminal_chunk_0() + sentence_terminal_chunk_1() + sentence_terminal_chunk_2(), sentence_terminal_chunk_3());
    lemma_canonical_append(sentence_terminal_chunk_0() + sentence_terminal_chunk_1() + sentence_terminal_chunk_2() + sentence_terminal_chunk_3(), sentence_terminal_chunk_4());
    lemma_canonical_append(sentence_terminal_chunk_0() + sentence_terminal_chunk_1() + sentence_terminal_chunk_2() + sentence_terminal_chunk_3() + sentence_terminal_chunk_4(), sentence_terminal_chunk_5());
    lemma_canonical_append(sentence_terminal_chunk_0() + sentence_terminal_chunk_1() + sentence_terminal_chunk_2() + sentence_terminal_chunk_3() + sentence_terminal_chunk_4() + sentence_terminal_chunk_5(), sentence_terminal_chunk_6());
    lemma_canonical_append(sentence_terminal_chunk_0() + sentence_terminal_chunk_1() + sentence_terminal_chunk_2() + sentence_terminal_chunk_3() + sentence_terminal_chunk_4() + sentence_terminal_chunk_5() + sentence_terminal_chunk_6(), sentence_terminal_chunk_7());
    lemma_canonical_append(sentence_terminal_chunk_0() + sentence_terminal_chunk_1() + sentence_terminal_chunk_2() + sentence_terminal_chunk_3() + sentence_terminal_chunk_4() + sentence_terminal_chunk_5() + sentence_terminal_chunk_6() + sentence_terminal_chunk_7(), sentence_terminal_chunk_8());
    lemma_canonical_append(sentence_terminal_chunk_0() + sentence_terminal_chunk_1() + sentence_terminal_chunk_2() + sentence_terminal_chunk_3() + sentence_terminal_chunk_4() + sentence_terminal_chunk_5() + sentence_terminal_chunk_6() + sentence_terminal_chunk_7() + sentence_terminal_chunk_8(), sentence_terminal_chunk_9());
}

proof fn lemma_sentence_terminal_block_1()
    ensures
        canonical(sentence_terminal_block_1()),
        sentence_terminal_block_1().len() > 0,
        sentence_terminal_block_1()[0] == sentence_terminal_chunk_10()[0],
        sentence_terminal_block_1().last() == sentence_terminal_chunk_10().last(),
{
    reveal_with_fuel(canonical, 9);
    assert(canonical(sentence_terminal_chunk_10()));
}

pub proof fn lemma_sentence_terminal_canonical()
    ensures
        canonical(sentence_terminal_ranges()),
{
    lemma_sentence_terminal_block_0();
    lemma_sentence_terminal_block_1();
    lemma_canonical_append(sentence_terminal_block_0(), sentence_terminal_block_1());
}

fn push_sentence_terminal_chunk_0(v: &mut Vec<ClassUnicodeRange>)
    ensures
        rview(final(v)@) == rview(old(v)@) + sentence_terminal_chunk_0(),
{
    let ghost o = rview(v@);
    push_range(v, '\u{21}', '\u{21}');
    push_range(v, '\u{2E}', '\u{2E}');
    push_range(v, '\u{3F}', '\u{3F}');
    push_range(v, '\u{589}', '\u{589}');
    push_range(v, '\u{61D}', '\u{61F}');
    push_range(v, '\u{6D4}', '\u{6D4}');
    push_range(v, '\u{700}', '\u{702}');
    push_range(v, '\u{7F9}', '\u{7F9}');
    assert(rview(v@) =~= o + sentence_terminal_chunk_0());
}

fn push_sentence_terminal_chunk_1(v: &mut Vec<ClassUnicodeRange>)
    ensures
        rview(final(v)@) == rview(old(v)@) + sentence_terminal_chunk_1(),
{
    let ghost o = rview(v@);
    push_range(v, '\u{837}', '\u{837}');
    push_range(v, '\u{839}', '\u{839}');
    push_range(v, '\u{83D}', '\u{83E}');
    push_range(v, '\u{964}', '\u{965}');
    push_range(v, '\u{104A}', '\u{104B}');
    push_range(v, '\u{1362}', '\u{1362}');
    push_range(v, '\u{1367}', '\u{1368}');
    push_range(v, '\u{166E}', '\u{166E}');
    assert(rview(v@) =~= o + sentence_terminal_chunk_1());
}

fn push_sentence_terminal_chunk_2(v: &mut Vec<ClassUnicodeRange>)
    ensures
        rview(final(v)@) == rview(old(v)@) + sentence_terminal_chunk_2(),
{
    let ghost o = rview(v@);
    push_range(v, '\u{1735}', '\u{1736}');
    push_range(v, '\u{17D4}', '\u{17D5}');
    push_range(v, '\u{1803}', '\u{1803}');
    push_range(v, '\u{1809}', '\u{1809}');
    push_range(v, '\u{1944}', '\u{1945}');
    push_range(v, '\u{1AA8}', '\u{1AAB}');
    push_range(v, '\u{1B4E}', '\u{1B4F}');
    push_range(v, '\u{1B5A}', '\u{1B5B}');
    assert(rview(v@) =~= o + sentence_terminal_chunk_2());
}

fn push_sentence_terminal_chunk_3(v: &mut Vec<ClassUnicodeRange>)
    ensures
        rview(final(v)@) == rview(old(v)@) + sentence_terminal_chunk_3(),
{
    let ghost o = rview(v@);
    push_range(v, '\u{1B5E}', '\u{1B5F}');
    push_range(v, '\u{1B7D}', '\u{1B7F}');
    push_range(v, '\u{1C3B}', '\u{1C3C}');
    push_range(v, '\u{1C7E}', '\u{1C7F}');
    push_range(v, '\u{2024}', '\u{2024}');
    push_range(v, '\u{203C}', '\u{203D}');
    push_range(v, '\u{2047}', '\u{2049}');
    push_range(v, '\u{2CF9}', '\u{2CFB}');
    assert(rview(v@) =~= o + sentence_terminal_chunk_3());
}

fn push_sentence_terminal_chunk_4(v: &mut Vec<ClassUnicodeRange>)
    ensures
        rview(final(v)@) == rview(old(v)@) + sentence_terminal_chunk_4(),
{
    let ghost o = rview(v@);
    push_range(v, '\u{2E2E}', '\u{2E2E}');
    push_range(v, '\u{2E3C}', '\u{2E3C}');
    push_range(v, '\u{2E53}', '\u{2E54}');
    push_range(v, '\u{3002}', '\u{3002}');
    push_range(v, '\u{A4FF}', '\u{A4FF}');
    push_range(v, '\u{A60E}', '\u{A60F}');
    push_range(v, '\u{A6F3}', '\u{A6F3}');
    push_range(v, '\u{A6F7}', '\u{A6F7}');
    assert(rview(v@) =~= o + sentence_terminal_chunk_4());
}

fn push_sentence_terminal_chunk_5(v: &mut Vec<ClassUnicodeRange>)
    ensures
        rview(final(v)@) == rview(old(v)@) + sentence_terminal_chunk_5(),
{
    let ghost o = rview(v@);
    push_range(v, '\u{A876}', '\u{A877}');
    push_range(v, '\u{A8CE}', '\u{A8CF}');
    push_range(v, '\u{A92F}', '\u{A92F}');
    push_range(v, '\u{A9C8}', '\u{A9C9}');
    push_range(v, '\u{AA5D}', '\u{AA5F}');
    push_range(v, '\u{AAF0}', '\u{AAF1}');
    push_range(v, '\u{ABEB}', '\u{ABEB}');
    push_range(v, '\u{FE12}', '\u{FE12}');
    assert(rview(v@) =~= o + sentence_terminal_chunk_5());
}

fn push_sentence_terminal_chunk_6(v: &mut Vec<ClassUnicodeRange>)
    ensures
        rview(final(v)@) == rview(old(v)@) + sentence_terminal_chunk_6(),
{
    let ghost o = rview(v@);
    push_range(v, '\u{FE15}', '\u{FE16}');
    push_range(v, '\u{FE52}', '\u{FE52}');
    push_range(v, '\u{FE56}', '\u{FE57}');
    push_range(v, '\u{FF01}', '\u{FF01}');
    push_range(v, '\u{FF0E}', '\u{FF0E}');
    push_range(v, '\u{FF1F}', '\u{FF1F}');
    push_range(v, '\u{FF61}', '\u{FF61}');
    push_range(v, '\u{10A56}', '\u{10A57}');
    assert(rview(v@) =~= o + sentence_terminal_chunk_6());
}

fn push_sentence_terminal_chunk_7(v: &mut Vec<ClassUnicodeRange>)
    ensures
        rview(final(v)@) == rview(old(v)@) + sentence_terminal_chunk_7(),
{
    let ghost o = rview(v@);
    push_range(v, '\u{10F55}', '\u{10F59}');
    push_range(v, '\u{10F86}', '\u{10F89}');
    push_range(v, '\u{11047}', '\u{11048}');
    push_range(v, '\u{110BE}', '\u{110C1}');
    push_range(v, '\u{11141}', '\u{11143}');
    push_range(v, '\u{111C5}', '\u{111C6}');
    push_range(v, '\u{111CD}', '\u{111CD}');
    push_range(v, '\u{111DE}', '\u{111DF}');
    assert(rview(v@) =~= o + sentence_terminal_chunk_7());
}

fn push_sentence_terminal_chunk_8(v: &mut Vec<ClassUnicodeRange>)
    ensures
        rview(final(v)@) == rview(old(v)@) + sentence_terminal_chunk_8(),
{
    let ghost o = rview(v@);
    push_range(v, '\u{11238}', '\u{11239}');
    push_range(v, '\u{1123B}', '\u{1123C}');
    push_range(v, '\u{112A9}', '\u{112A9}');
    push_range(v, '\u{113D4}', '\u{113D5}');
    push_range(v, '\u{1144B}', '\u{1144C}');
    push_range(v, '\u{115C2}', '\u{115C3}');
    push_range(v, '\u{115C9}', '\u{115D7}');
    push_range(v, '\u{11641}', '\u{11642}');
    assert(rview(v@) =~= o + sentence_terminal_chunk_8());
}

fn push_sentence_terminal_chunk_9(v: &mut Vec<ClassUnicodeRange>)
    ensures
        rview(final(v)@) == rview(old(v)@) + sentence_terminal_chunk_9(),
{
    let ghost o = rview(v@);
    push_range(v, '\u{1173C}', '\u{1173E}');
    push_range(v, '\u{11944}', '\u{11944}');
    push_range(v, '\u{11946}', '\u{11946}');
    push_range(v, '\u{11A42}', '\u{11A43}');
    push_range(v, '\u{11A9B}', '\u{11A9C}');
    push_range(v, '\u{11C41}', '\u{11C42}');
    push_range(v, '\u{11EF7}', '\u{11EF8}');
    push_range(v, '\u{11F43}', '\u{11F44}');
    assert(rview(v@) =~= o + sentence_terminal_chunk_9());
}

fn push_sentence_terminal_chunk_10(v: &mut Vec<ClassUnicodeRange>)
    ensures
        rview(final(v)@) == rview(old(v)@) + sentence_terminal_chunk_10(),
{
    let ghost o = rview(v@);
    push_range(v, '\u{16A6E}', '\u{16A6F}');
    push_range(v, '\u{16AF5}', '\u{16AF5}');
    push_range(v, '\u{16B37}', '\u{16B38}');
    push_range(v, '\u{16B44}', '\u{16B44}');
    push_range(v, '\u{16D6E}', '\u{16D6F}');
    push_range(v, '\u{16E98}', '\u{16E98}');
    push_range(v, '\u{1BC9F}', '\u{1BC9F}');
    push_range(v, '\u{1DA88}', '\u{1DA88}');
    assert(rview(v@) =~= o + sentence_terminal_chunk_10());
}

fn push_sentence_terminal_block_0(v: &mut Vec<ClassUnicodeRange>)
    ensures
        rview(final(v)@) == rview(old(v)@) + sentence_terminal_block_0(),
{
    let ghost o = rview(v@);
    push_sentence_terminal_chunk_0(v);
    assert(rview(v@) =~= o + (sentence_terminal_chunk_0()));
    push_sentence_terminal_chunk_1(v);
    assert(rview(v@) =~= o + (sentence_terminal_chunk_0() + sentence_terminal_chunk_1()));
    push_sentence_terminal_chunk_2(v);
    assert(rview(v@) =~= o + (sentence_terminal_chunk_0() + sentence_terminal_chunk_1() + sentence_terminal_chunk_2()));
    push_sentence_terminal_chunk_3(v);
    assert(rview(v@) =~= o + (sentence_terminal_chunk_0() + sentence_terminal_chunk_1() + sentence_terminal_chunk_2() + sentence_terminal_chunk_3()));
    push_sentence_terminal_chunk_4(v);
    assert(rview(v@) =~= o + (sentence_terminal_chunk_0() + sentence_terminal_chunk_1() + sentence_terminal_chunk_2() + sentence_terminal_chunk_3() + sentence_terminal_chunk_4()));
    push_sentence_terminal_chunk_5(v);
    assert(rview(v@) =~= o + (sentence_terminal_chunk_0() + sentence_terminal_chunk_1() + sentence_terminal_chunk_2() + sentence_terminal_chunk_3() + sentence_terminal_chunk_4() + sentence_terminal_chunk_5()));
    push_sentence_terminal_chunk_6(v);
    assert(rview(v@) =~= o + (sentence_terminal_chunk_0() + sentence_terminal_chunk_1() + sentence_terminal_chunk_2() + sentence_terminal_chunk_3() + sentence_terminal_chunk_4() + sentence_terminal_chunk_5() + sentence_terminal_chunk_6()));
    push_sentence_terminal_chunk_7(v);
    assert(rview(v@) =~= o + (sentence_terminal_chunk_0() + sentence_terminal_chunk_1() + sentence_terminal_chunk_2() + sentence_terminal_chunk_3() + sentence_terminal_chunk_4() + sentence_terminal_chunk_5() + sentence_terminal_chunk_6() + sentence_terminal_chunk_7()));
    push_sentence_terminal_chunk_8(v);
    assert(rview(v@) =~= o + (sentence_terminal_chunk_0() + sentence_terminal_chunk_1() + sentence_terminal_chunk_2() + sentence_terminal_chunk_3() + sentence_terminal_chunk_4() + sentence_terminal_chunk_5() + sentence_terminal_chunk_6() + sentence_terminal_chunk_7() + sentence_terminal_chunk_8()));
    push_sentence_terminal_chunk_9(v);
    assert(rview(v@) =~= o + (sentence_terminal_chunk_0() + sentence_terminal_chunk_1() + sentence_terminal_chunk_2() + sentence_terminal_chunk_3() + sentence_terminal_chunk_4() + sentence_terminal_chunk_5() + sentence_terminal_chunk_6() + sentence_terminal_chunk_7() + sentence_terminal_chunk_8() + sentence_terminal_chunk_9()));
}

fn push_sentence_terminal_block_1(v: &mut Vec<ClassUnicodeRange>)
    ensures
        rview(final(v)@) == rview(old(v)@) + sentence_terminal_block_1(),
{
    let ghost o = rview(v@);
    push_sentence_terminal_chunk_10(v);
    assert(rview(v@) =~= o + (sentence_terminal_chunk_10()));
}

pub fn sentence_terminal_class() -> (v: Vec<ClassUnicodeRange>)
    ensures
        rview(v@) == sentence_terminal_ranges(),
{
    let mut v: Vec<ClassUnicodeRange> = Vec::new();
    assert(rview(v@) =~= Seq::<SRange>::empty());
    push_sentence_terminal_block_0(&mut v);
    assert(rview(v@) =~= sentence_terminal_block_0());
    push_sentence_terminal_block_1(&mut v);
    assert(rview(v@) =~= sentence_terminal_block_0() + sentence_terminal_block_1());
    v
}

pub open spec fn soft_dotted_chunk_0() -> Seq<SRange> {
    seq![(0x69int, 0x6Aint), (0x12Fint, 0x12Fint), (0x249int, 0x249int), (0x268int, 0x268int), (0x29Dint, 0x29Dint), (0x2B2int, 0x2B2int), (0x3F3int, 0x3F3int), (0x456int, 0x456int)]
}

pub open spec fn soft_dotted_chunk_1() -> Seq<SRange> {
    seq![(0x458int, 0x458int), (0x1D62int, 0x1D62int), (0x1D96int, 0x1D96int), (0x1DA4int, 0x1DA4int), (0x1DA8int, 0x1DA8int), (0x1E2Dint, 0x1E2Dint), (0x1ECBint, 0x1ECBint), (0x2071int, 0x2071int)]
}

pub open spec fn soft_dotted_chunk_2() -> Seq<SRange> {
    seq![(0x2148int, 0x2149int), (0x2C7Cint, 0x2C7Cint), (0x1D422int, 0x1D423int), (0x1D456int, 0x1D457int), (0x1D48Aint, 0x1D48Bint), (0x1D4BEint, 0x1D4BFint), (0x1D4F2int, 0x1D4F3int), (0x1D526int, 0x1D527int)]
}

pub open spec fn soft_dotted_chunk_3() -> Seq<SRange> {
    seq![(0x1D55Aint, 0x1D55Bint), (0x1D58Eint, 0x1D58Fint), (0x1D5C2int, 0x1D5C3int), (0x1D5F6int, 0x1D5F7int), (0x1D62Aint, 0x1D62Bint), (0x1D65Eint, 0x1D65Fint), (0x1D692int, 0x1D693int), (0x1DF1Aint, 0x1DF1Aint)]
}

pub open spec fn soft_dotted_chunk_4() -> Seq<SRange> {
    seq![(0x1E04Cint, 0x1E04Dint), (0x1E068int, 0x1E068int)]
}

/// The ranges of the property Soft_Dotted.
pub open spec fn soft_dotted_ranges() -> Seq<SRange> {
    soft_dotted_chunk_0() + soft_dotted_chunk_1() + soft_dotted_chunk_2() + soft_dotted_chunk_3() + soft_dotted_chunk_4()
}

pub proof fn lemma_soft_dotted_canonical()
    ensures
        canonical(soft_dotted_ranges()),
{
    reveal_with_fuel(canonical, 9);
    assert(canonical(soft_dotted_chunk_0()));
    assert(canonical(soft_dotted_chunk_1()));
    assert(canonical(soft_dotted_chunk_2()));
    assert(canonical(soft_dotted_chunk_3()));
    assert(canonical(soft_dotted_chunk_4()));
    lemma_canonical_append(soft_dotted_chunk_0(), soft_dotted_chunk_1());
    lemma_canonical_append(soft_dotted_chunk_0() + soft_dotted_chunk_1(), soft_dotted_chunk_2());
    lemma_canonical_append(soft_dotted_chunk_0() + soft_dotted_chunk_1() + soft_dotted_chunk_2(), soft_dotted_chunk_3());
    lemma_canonical_append(soft_dotted_chunk_0() + soft_dotted_chunk_1() + soft_dotted_chunk_2() + soft_dotted_chunk_3(), soft_dotted_chunk_4());
}

fn push_soft_dotted_chunk_0(v: &mut Vec<ClassUnicodeRange>)
    ensures
        rview(final(v)@) == rview(old(v)@) + soft_dotted_chunk_0(),
{
    let ghost o = rview(v@);
    push_range(v, '\u{69}', '\u{6A}');
    push_range(v, '\u{12F}', '\u{12F}');
    push_range(v, '\u{249}', '\u{249}');
    push_range(v, '\u{268}', '\u{268}');
    push_range(v, '\u{29D}', '\u{29D}');
    push_range(v, '\u{2B2}', '\u{2B2}');
    push_range(v, '\u{3F3}', '\u{3F3}');
    push_range(v, '\u{456}', '\u{456}');
    assert(rview(v@) =~= o + soft_dotted_chunk_0());
}

fn push_soft_dotted_chunk_1(v: &mut Vec<ClassUnicodeRange>)
    ensures
        rview(final(v)@) == rview(old(v)@) + soft_dotted_chunk_1(),
{
    let ghost o = rview(v@);
    push_range(v, '\u{458}', '\u{458}');
    push_range(v, '\u{1D62}', '\u{1D62}');
    push_range(v, '\u{1D96}', '\u{1D96}');
    push_range(v, '\u{1DA4}', '\u{1DA4}');
    push_range(v, '\u{1DA8}', '\u{1DA8}');
    push_range(v, '\u{1E2D}', '\u{1E2D}');
    push_range(v, '\u{1ECB}', '\u{1ECB}');
    push_range(v, '\u{2071}', '\u{2071}');
    assert(rview(v@) =~= o + soft_dotted_chunk_1());
}

fn push_soft_dotted_chunk_2(v: &mut Vec<ClassUnicodeRange>)
    ensures
        rview(final(v)@) == rview(old(v)@) + soft_dotted_chunk_2(),
{
    let ghost o = rview(v@);
    push_range(v, '\u{2148}', '\u{2149}');
    push_range(v, '\u{2C7C}', '\u{2C7C}');
    push_range(v, '\u{1D422}', '\u{1D423}');
    push_range(v, '\u{1D456}', '\u{1D457}');
    push_range(v, '\u{1D48A}', '\u{1D48B}');
    push_range(v, '\u{1D4BE}', '\u{1D4BF}');
    push_range(v, '\u{1D4F2}', '\u{1D4F3}');
    push_range(v, '\u{1D526}', '\u{1D527}');
    assert(rview(v@) =~= o + soft_dotted_chunk_2());
}

fn push_soft_dotted_chunk_3(v: &mut Vec<ClassUnicodeRange>)
    ensures
        rview(final(v)@) == rview(old(v)@) + soft_dotted_chunk_3(),
{
    let ghost o = rview(v@);
    push_range(v, '\u{1D55A}', '\u{1D55B}');
    push_range(v, '\u{1D58E}', '\u{1D58F}');
    push_range(v, '\u{1D5C2}', '\u{1D5C3}');
    push_range(v, '\u{1D5F6}', '\u{1D5F7}');
    push_range(v, '\u{1D62A}', '\u{1D62B}');
    push_range(v, '\u{1D65E}', '\u{1D65F}');
    push_range(v, '\u{1D692}', '\u{1D693}');
    push_range(v, '\u{1DF1A}', '\u{1DF1A}');
    assert(rview(v@) =~= o + soft_dotted_chunk_3());
}

fn push_soft_dotted_chunk_4(v: &mut Vec<ClassUnicodeRange>)
    ensures
        rview(final(v)@) == rview(old(v)@) + soft_dotted_chunk_4(),
{
    let ghost o = rview(v@);
    push_range(v, '\u{1E04C}', '\u{1E04D}');
    push_range(v, '\u{1E068}', '\u{1E068}');
    assert(rview(v@) =~= o + soft_dotted_chunk_4());
}

pub fn soft_dotted_class() -> (v: Vec<ClassUnicodeRange>)
    ensures
        rview(v@) == soft_dotted_ranges(),
{
    let mut v: Vec<ClassUnicodeRange> = Vec::new();
    assert(rview(v@) =~= Seq::<SRange>::empty());
    push_soft_dotted_chunk_0(&mut v);
    assert(rview(v@) =~= soft_dotted_chunk_0());
    push_soft_dotted_chunk_1(&mut v);
    assert(rview(v@) =~= soft_dotted_chunk_0() + soft_dotted_chunk_1());
    push_soft_dotted_chunk_2(&mut v);
    assert(rview(v@) =~= soft_dotted_chunk_0() + soft_dotted_chunk_1() + soft_dotted_chunk_2());
    push_soft_dotted_chunk_3(&mut v);
    assert(rview(v@) =~= soft_dotted_chunk_0() + soft_dotted_chunk_1() + soft_dotted_chunk_2() + soft_dotted_chunk_3());
    push_soft_dotted_chunk_4(&mut v);
    assert(rview(v@) =~= soft_dotted_chunk_0() + soft_dotted_chunk_1() + soft_dotted_chunk_2() + soft_dotted_chunk_3() + soft_dotted_chunk_4());
    v
}

pub open spec fn terminal_punctuation_chunk_0() -> Seq<SRange> {
    seq![(0x21int, 0x21int), (0x2Cint, 0x2Cint), (0x2Eint, 0x2Eint), (0x3Aint, 0x3Bint), (0x3Fint, 0x3Fint), (0x37Eint, 0x37Eint), (0x387int, 0x387int), (0x589int, 0x589int)]
}

pub open spec fn terminal_punctuation_chunk_1() -> Seq<SRange> {
    seq![(0x5C3int, 0x5C3int), (0x60Cint, 0x60Cint), (0x61Bint, 0x61Bint), (0x61Dint, 0x61Fint), (0x6D4int, 0x6D4int), (0x700int, 0x70Aint), (0x70Cint, 0x70Cint), (0x7F8int, 0x7F9int)]
}

pub open spec fn terminal_punctuation_chunk_2() -> Seq<SRange> {
    seq![(0x830int, 0x835int), (0x837int, 0x83Eint), (0x85Eint, 0x85Eint), (0x964int, 0x965int), (0xE5Aint, 0xE5Bint), (0xF08int, 0xF08int), (0xF0Dint, 0xF12int), (0x104Aint, 0x104Bint)]
}

pub open spec fn terminal_punctuation_chunk_3() -> Seq<SRange> {
    seq![(0x1361int, 0x1368int), (0x166Eint, 0x166Eint), (0x16EBint, 0x16EDint), (0x1735int, 0x1736int), (0x17D4int, 0x17D6int), (0x17DAint, 0x17DAint), (0x1802int, 0x1805int), (0x1808int, 0x1809int)]
}

pub open spec fn terminal_punctuation_chunk_4() -> Seq<SRange> {
    seq![(0x1944int, 0x1945int), (0x1AA8int, 0x1AABint), (0x1B4Eint, 0x1B4Fint), (0x1B5Aint, 0x1B5Bint), (0x1B5Dint, 0x1B5Fint), (0x1B7Dint, 0x1B7Fint), (0x1C3Bint, 0x1C3Fint), (0x1C7Eint, 0x1C7Fint)]
}

pub open spec fn terminal_punctuation_chunk_5() -> Seq<SRange> {
    seq![(0x2024int, 0x2024int), (0x203Cint, 0x203Dint), (0x2047int, 0x2049int), (0x2CF9int, 0x2CFBint), (0x2E2Eint, 0x2E2Eint), (0x2E3Cint, 0x2E3Cint), (0x2E41int, 0x2E41int), (0x2E4Cint, 0x2E4Cint)]
}

pub open spec fn terminal_punctuation_chunk_6() -> Seq<SRange> {
    seq![(0x2E4Eint, 0x2E4Fint), (0x2E53int, 0x2E54int), (0x3001int, 0x3002int), (0xA4FEint, 0xA4FFint), (0xA60Dint, 0xA60Fint), (0xA6F3int, 0xA6F7int), (0xA876int, 0xA877int), (0xA8CEint, 0xA8CFint)]
}

pub open spec fn terminal_punctuation_chunk_7() -> Seq<SRange> {
    seq![(0xA92Fint, 0xA92Fint), (0xA9C7int, 0xA9C9int), (0xAA5Dint, 0xAA5Fint), (0xAADFint, 0xAADFint), (0xAAF0int, 0xAAF1int), (0xABEBint, 0xABEBint), (0xFE12int, 0xFE12int), (0xFE15int, 0xFE16int)]
}

pub open spec fn terminal_punctuation_chunk_8() -> Seq<SRange> {
    seq![(0xFE50int, 0xFE52int), (0xFE54int, 0xFE57int), (0xFF01int, 0xFF01int), (0xFF0Cint, 0xFF0Cint), (0xFF0Eint, 0xFF0Eint), (0xFF1Aint, 0xFF1Bint), (0xFF1Fint, 0xFF1Fint), (0xFF61int, 0xFF61int)]
}

pub open spec fn terminal_punctuation_chunk_9() -> Seq<SRange> {
    seq![(0xFF64int, 0xFF64int), (0x1039Fint, 0x1039Fint), (0x103D0int, 0x103D0int), (0x10857int, 0x10857int), (0x1091Fint, 0x1091Fint), (0x10A56int, 0x10A57int), (0x10AF0int, 0x10AF5int), (0x10B3Aint, 0x10B3Fint)]
}

pub open spec fn terminal_punctuation_chunk_10() -> Seq<SRange> {
    seq![(0x10B99int, 0x10B9Cint), (0x10F55int, 0x10F59int), (0x10F86int, 0x10F89int), (0x11047int, 0x1104Dint), (0x110BEint, 0x110C1int), (0x11141int, 0x11143int), (0x111C5int, 0x111C6int), (0x111CDint, 0x111CDint)]
}

pub open spec fn terminal_punctuation_chunk_11() -> Seq<SRange> {
    seq![(0x111DEint, 0x111DFint), (0x11238int, 0x1123Cint), (0x112A9int, 0x112A9int), (0x113D4int, 0x113D5int), (0x1144Bint, 0x1144Dint), (0x1145Aint, 0x1145Bint), (0x115C2int, 0x115C5int), (0x115C9int, 0x115D7int)]
}

pub open spec fn terminal_punctuation_chunk_12() -> Seq<SRange> {
    seq![(0x11641int, 0x11642int), (0x1173Cint, 0x1173Eint), (0x11944int, 0x11944int), (0x11946int, 0x11946int), (0x11A42int, 0x11A43int), (0x11A9Bint, 0x11A9Cint), (0x11AA1int, 0x11AA2int), (0x11C41int, 0x11C43int)]
}

pub open spec fn terminal_punctuation_chunk_13() -> Seq<SRange> {
    seq![(0x11C71int, 0x11C71int), (0x11EF7int, 0x11EF8int), (0x11F43int, 0x11F44int), (0x12470int, 0x12474int), (0x16A6Eint, 0x16A6Fint), (0x16AF5int, 0x16AF5int), (0x16B37int, 0x16B39int), (0x16B44int, 0x16B44int)]
}

pub open spec fn terminal_punctuation_chunk_14() -> Seq<SRange> {
    seq![(0x16D6Eint, 0x16D6Fint), (0x16E97int, 0x16E98int), (0x1BC9Fint, 0x1BC9Fint), (0x1DA87int, 0x1DA8Aint)]
}

pub open spec fn terminal_punctuation_block_0() -> Seq<SRange> {
    terminal_punctuation_chunk_0() + terminal_punctuation_chunk_1() + terminal_punctuation_chunk_2() + terminal_punctuation_chunk_3() + terminal_punctuation_chunk_4() + terminal_punctuation_chunk_5() + terminal_punctuation_chunk_6() + terminal_punctuation_chunk_7() + terminal_punctuation_chunk_8() + terminal_punctuation_chunk_9()
}

pub open spec fn terminal_punctuation_block_1() -> Seq<SRange> {
    terminal_punctuation_chunk_10() + terminal_punctuation_chunk_11() + terminal_punctuation_chunk_12() + terminal_punctuation_chunk_13() + terminal_punctuation_chunk_14()
}

/// The ranges of the property Terminal_Punctuation.
pub open spec fn terminal_punctuation_ranges() -> Seq<SRange> {
    terminal_punctuation_block_0() + terminal_punctuation_block_1()
}

proof fn lemma_terminal_punctuation_block_0()
    ensures
        canonical(terminal_punctuation_block_0()),
        terminal_punctuation_block_0().len() > 0,
        terminal_punctuation_block_0()[0] == terminal_punctuation_chunk_0()[0],
        terminal_punctuation_block_0().last() == terminal_punctuation_chunk_9().last(),
{
    reveal_with_fuel(canonical, 9);
    assert(canonical(terminal_punctuation_chunk_0()));
    assert(canonical(terminal_punctuation_chunk_1()));
    assert(canonical(terminal_punctuation_chunk_2()));
    assert(canonical(terminal_punctuation_chunk_3()));
    assert(canonical(terminal_punctuation_chunk_4()));
    assert(canonical(terminal_punctuation_chunk_5()));
    assert(canonical(terminal_punctuation_chunk_6()));
    assert(canonical(terminal_punctuation_chunk_7()));
    assert(canonical(terminal_punctuation_chunk_8()));
    assert(canonical(terminal_punctuation_chunk_9()));
    lemma_canonical_append(terminal_punctuation_chunk_0(), terminal_punctuation_chunk_1());
    lemma_canonical_append(terminal_punctuation_chunk_0() + terminal_punctuation_chunk_1(), terminal_punctuation_chunk_2());
    lemma_canonical_append(terminal_punctuation_chunk_0() + terminal_punctuation_chunk_1() + terminal_punctuation_chunk_2(), terminal_punctuation_chunk_3());
    lemma_canonical_append(terminal_punctuation_chunk_0() + terminal_punctuation_chunk_1() + terminal_punctuation_chunk_2() + terminal_punctuation_chunk_3(), terminal_punctuation_chunk_4());
    lemma_canonical_append(terminal_punctuation_chunk_0() + terminal_punctuation_chunk_1() + terminal_punctuation_chunk_2() + terminal_punctuation_chunk_3() + terminal_punctuation_chunk_4(), terminal_punctuation_chunk_5());
    lemma_canonical_append(terminal_punctuation_chunk_0() + terminal_punctuation_chunk_1() + terminal_punctuation_chunk_2() + terminal_punctuation_chunk_3() + terminal_punctuation_chunk_4() + terminal_punctuation_chunk_5(), terminal_punctuation_chunk_6());
    lemma_canonical_append(terminal_punctuation_chunk_0() + terminal_punctuation_chunk_1() + terminal_punctuation_chunk_2() + terminal_punctuation_chunk_3() + terminal_punctuation_chunk_4() + terminal_punctuation_chunk_5() + terminal_punctuation_chunk_6(), terminal_punctuation_chunk_7());
    lemma_canonical_append(terminal_punctuation_chunk_0() + terminal_punctuation_chunk_1() + terminal_punctuation_chunk_2() + terminal_punctuation_chunk_3() + terminal_punctuation_chunk_4() + terminal_punctuation_chunk_5() + terminal_punctuation_chunk_6() + terminal_punctuation_chunk_7(), terminal_punctuation_chunk_8());
    lemma_canonical_append(terminal_punctuation_chunk_0() + terminal_punctuation_chunk_1() + terminal_punctuation_chunk_2() + terminal_punctuation_chunk_3() + terminal_punctuation_chunk_4() + terminal_punctuation_chunk_5() + terminal_punctuation_chunk_6() + terminal_punctuation_chunk_7() + terminal_punctuation_chunk_8(), terminal_punctuation_chunk_9());
}

proof fn lemma_terminal_punctuation_block_1()
    ensures
        canonical(terminal_punctuation_block_1()),
        terminal_punctuation_block_1().len() > 0,
        terminal_punctuation_block_1()[0] == terminal_punctuation_chunk_10()[0],
        terminal_punctuation_block_1().last() == terminal_punctuation_chunk_14().last(),
{
    reveal_with_fuel(canonical, 9);
    assert(canonical(terminal_punctuation_chunk_10()));
    assert(canonical(terminal_punctuation_chunk_11()));
    assert(canonical(terminal_punctuation_chunk_12()));
    assert(canonical(terminal_punctuation_chunk_13()));
    assert(canonical(terminal_punctuation_chunk_14()));
    lemma_canonical_append(terminal_punctuation_chunk_10(), terminal_punctuation_chunk_11());
    lemma_canonical_append(terminal_punctuation_chunk_10() + terminal_punctuation_chunk_11(), terminal_punctuation_chunk_12());
    lemma_canonical_append(terminal_punctuation_chunk_10() + terminal_punctuation_chunk_11() + terminal_punctuation_chunk_12(), terminal_punctuation_chunk_13());
    lemma_canonical_append(terminal_punctuation_chunk_10() + terminal_punctuation_chunk_11() + terminal_punctuation_chunk_12() + terminal_punctuation_chunk_13(), terminal_punctuation_chunk_14());
}

pub proof fn lemma_terminal_punctuation_canonical()
    ensures
        canonical(terminal_punctuation_ranges()),
{
    lemma_terminal_punctuation_block_0();
    lemma_terminal_punctuation_block_1();
    lemma_canonical_append(terminal_punctuation_block_0(), terminal_punctuation_block_1());
}

fn push_terminal_punctuation_chunk_0(v: &mut Vec<ClassUnicodeRange>)
    ensures
        rview(final(v)@) == rview(old(v)@) + terminal_punctuation_chunk_0(),
{
    let ghost o = rview(v@);
    push_range(v, '\u{21}', '\u{21}');
    push_range(v, '\u{2C}', '\u{2C}');
    push_range(v, '\u{2E}', '\u{2E}');
    push_range(v, '\u{3A}', '\u{3B}');
    push_range(v, '\u{3F}', '\u{3F}');
    push_range(v, '\u{37E}', '\u{37E}');
    push_range(v, '\u{387}', '\u{387}');
    push_range(v, '\u{589}', '\u{589}');
    assert(rview(v@) =~= o + terminal_punctuation_chunk_0());
}

fn push_terminal_punctuation_chunk_1(v: &mut Vec<ClassUnicodeRange>)
    ensures
        rview(final(v)@) == rview(old(v)@) + terminal_punctuation_chunk_1(),
{
    let ghost o = rview(v@);
    push_range(v, '\u{5C3}', '\u{5C3}');
    push_range(v, '\u{60C}', '\u{60C}');
    push_range(v, '\u{61B}', '\u{61B}');
    push_range(v, '\u{61D}', '\u{61F}');
    push_range(v, '\u{6D4}', '\u{6D4}');
    push_range(v, '\u{700}', '\u{70A}');
    push_range(v, '\u{70C}', '\u{70C}');
    push_range(v, '\u{7F8}', '\u{7F9}');
    assert(rview(v@) =~= o + terminal_punctuation_chunk_1());
}

fn push_terminal_punctuation_chunk_2(v: &mut Vec<ClassUnicodeRange>)
    ensures
        rview(final(v)@) == rview(old(v)@) + terminal_punctuation_chunk_2(),
{
    let ghost o = rview(v@);
    push_range(v, '\u{830}', '\u{835}');
    push_range(v, '\u{837}', '\u{83E}');
    push_range(v, '\u{85E}', '\u{85E}');
    push_range(v, '\u{964}', '\u{965}');
    push_range(v, '\u{E5A}', '\u{E5B}');
    push_range(v, '\u{F08}', '\u{F08}');
    push_range(v, '\u{F0D}', '\u{F12}');
    push_range(v, '\u{104A}', '\u{104B}');
    assert(rview(v@) =~= o + terminal_punctuation_chunk_2());
}

fn push_terminal_punctuation_chunk_3(v: &mut Vec<ClassUnicodeRange>)
    ensures
        rview(final(v)@) == rview(old(v)@) + terminal_punctuation_chunk_3(),
{
    let ghost o = rview(v@);
    push_range(v, '\u{1361}', '\u{1368}');
    push_range(v, '\u{166E}', '\u{166E}');
    push_range(v, '\u{16EB}', '\u{16ED}');
    push_range(v, '\u{1735}', '\u{1736}');
    push_range(v, '\u{17D4}', '\u{17D6}');
    push_range(v, '\u{17DA}', '\u{17DA}');
    push_range(v, '\u{1802}', '\u{1805}');
    push_range(v, '\u{1808}', '\u{1809}');
    assert(rview(v@) =~= o + terminal_punctuation_chunk_3());
}

fn push_terminal_punctuation_chunk_4(v: &mut Vec<ClassUnicodeRange>)
    ensures
        rview(final(v)@) == rview(old(v)@) + terminal_punctuation_chunk_4(),
{
    let ghost o = rview(v@);
    push_range(v, '\u{1944}', '\u{1945}');
    push_range(v, '\u{1AA8}', '\u{1AAB}');
    push_range(v, '\u{1B4E}', '\u{1B4F}');
    push_range(v, '\u{1B5A}', '\u{1B5B}');
    push_range(v, '\u{1B5D}', '\u{1B5F}');
    push_range(v, '\u{1B7D}', '\u{1B7F}');
    push_range(v, '\u{1C3B}', '\u{1C3F}');
    push_range(v, '\u{1C7E}', '\u{1C7F}');
    assert(rview(v@) =~= o + terminal_punctuation_chunk_4());
}

fn push_terminal_punctuation_chunk_5(v: &mut Vec<ClassUnicodeRange>)
    ensures
        rview(final(v)@) == rview(old(v)@) + terminal_punctuation_chunk_5(),
{
    let ghost o = rview(v@);
    push_range(v, '\u{2024}', '\u{2024}');
    push_range(v, '\u{203C}', '\u{203D}');
    push_range(v, '\u{2047}', '\u{2049}');
    push_range(v, '\u{2CF9}', '\u{2CFB}');
    push_range(v, '\u{2E2E}', '\u{2E2E}');
    push_range(v, '\u{2E3C}', '\u{2E3C}');
    push_range(v, '\u{2E41}', '\u{2E41}');
    push_range(v, '\u{2E4C}', '\u{2E4C}');
    assert(rview(v@) =~= o + terminal_punctuation_chunk_5());
}

fn push_terminal_punctuation_chunk_6(v: &mut Vec<ClassUnicodeRange>)
    ensures
        rview(final(v)@) == rview(old(v)@) + terminal_punctuation_chunk_6(),
{
    let ghost o = rview(v@);
    push_range(v, '\u{2E4E}', '\u{2E4F}');
    push_range(v, '\u{2E53}', '\u{2E54}');
    push_range(v, '\u{3001}', '\u{3002}');
    push_range(v, '\u{A4FE}', '\u{A4FF}');
    push_range(v, '\u{A60D}', '\u{A60F}');
    push_range(v, '\u{A6F3}', '\u{A6F7}');
    push_range(v, '\u{A876}', '\u{A877}');
    push_range(v, '\u{A8CE}', '\u{A8CF}');
    assert(rview(v@) =~= o + terminal_punctuation_chunk_6());
}

fn push_terminal_punctuation_chunk_7(v: &mut Vec<ClassUnicodeRange>)
    ensures
        rview(final(v)@) == rview(old(v)@) + terminal_punctuation_chunk_7(),
{
    let ghost o = rview(v@);
    push_range(v, '\u{A92F}', '\u{A92F}');
    push_range(v, '\u{A9C7}', '\u{A9C9}');
    push_range(v, '\u{AA5D}', '\u{AA5F}');
    push_range(v, '\u{AADF}', '\u{AADF}');
    push_range(v, '\u{AAF0}', '\u{AAF1}');
    push_range(v, '\u{ABEB}', '\u{ABEB}');
    push_range(v, '\u{FE12}', '\u{FE12}');
    push_range(v, '\u{FE15}', '\u{FE16}');
    assert(rview(v@) =~= o + terminal_punctuation_chunk_7());
}

fn push_terminal_punctuation_chunk_8(v: &mut Vec<ClassUnicodeRange>)
    ensures
        rview(final(v)@) == rview(old(v)@) + terminal_punctuation_chunk_8(),
{
    let ghost o = rview(v@);
    push_range(v, '\u{FE50}', '\u{FE52}');
    push_range(v, '\u{FE54}', '\u{FE57}');
    push_range(v, '\u{FF01}', '\u{FF01}');
    push_range(v, '\u{FF0C}', '\u{FF0C}');
    push_range(v, '\u{FF0E}', '\u{FF0E}');
    push_range(v, '\u{FF1A}', '\u{FF1B}');
    push_range(v, '\u{FF1F}', '\u{FF1F}');
    push_range(v, '\u{FF61}', '\u{FF61}');
    assert(rview(v@) =~= o + terminal_punctuation_chunk_8());
}

fn push_terminal_punctuation_chunk_9(v: &mut Vec<ClassUnicodeRange>)
    ensures
        rview(final(v)@) == rview(old(v)@) + terminal_punctuation_chunk_9(),
{
    let ghost o = rview(v@);
    push_range(v, '\u{FF64}', '\u{FF64}');
    push_range(v, '\u{1039F}', '\u{1039F}');
    push_range(v, '\u{103D0}', '\u{103D0}');
    push_range(v, '\u{10857}', '\u{10857}');
    push_range(v, '\u{1091F}', '\u{1091F}');
    push_range(v, '\u{10A56}', '\u{10A57}');
    push_range(v, '\u{10AF0}', '\u{10AF5}');
    push_range(v, '\u{10B3A}', '\u{10B3F}');
    assert(rview(v@) =~= o + terminal_punctuation_chunk_9());
}

fn push_terminal_punctuation_chunk_10(v: &mut Vec<ClassUnicodeRange>)
    ensures
        rview(final(v)@) == rview(old(v)@) + terminal_punctuation_chunk_10(),
{
    let ghost o = rview(v@);
    push_range(v, '\u{10B99}', '\u{10B9C}');
    push_range(v, '\u{10F55}', '\u{10F59}');
    push_range(v, '\u{10F86}', '\u{10F89}');
    push_range(v, '\u{11047}', '\u{1104D}');
    push_range(v, '\u{110BE}', '\u{110C1}');
    push_range(v, '\u{11141}', '\u{11143}');
    push_range(v, '\u{111C5}', '\u{111C6}');
    push_range(v, '\u{111CD}', '\u{111CD}');
    assert(rview(v@) =~= o + terminal_punctuation_chunk_10());
}

fn push_terminal_punctuation_chunk_11(v: &mut Vec<ClassUnicodeRange>)
    ensures
        rview(final(v)@) == rview(old(v)@) + terminal_punctuation_chunk_11(),
{
    let ghost o = rview(v@);
    push_range(v, '\u{111DE}', '\u{111DF}');
    push_range(v, '\u{11238}', '\u{1123C}');
    push_range(v, '\u{112A9}', '\u{112A9}');
    push_range(v, '\u{113D4}', '\u{113D5}');
    push_range(v, '\u{1144B}', '\u{1144D}');
    push_range(v, '\u{1145A}', '\u{1145B}');
    push_range(v, '\u{115C2}', '\u{115C5}');
    push_range(v, '\u{115C9}', '\u{115D7}');
    assert(rview(v@) =~= o + terminal_punctuation_chunk_11());
}

fn push_terminal_punctuation_chunk_12(v: &mut Vec<ClassUnicodeRange>)
    ensures
        rview(final(v)@) == rview(old(v)@) + terminal_punctuation_chunk_12(),
{
    let ghost o = rview(v@);
    push_range(v, '\u{11641}', '\u{11642}');
    push_range(v, '\u{1173C}', '\u{1173E}');
    push_range(v, '\u{11944}', '\u{11944}');
    push_range(v, '\u{11946}', '\u{11946}');
    push_range(v, '\u{11A42}', '\u{11A43}');
    push_range(v, '\u{11A9B}', '\u{11A9C}');
    push_range(v, '\u{11AA1}', '\u{11AA2}');
    push_range(v, '\u{11C41}', '\u{11C43}');
    assert(rview(v@) =~= o + terminal_punctuation_chunk_12());
}

fn push_terminal_punctuation_chunk_13(v: &mut Vec<ClassUnicodeRange>)
    ensures
        rview(final(v)@) == rview(old(v)@) + terminal_punctuation_chunk_13(),
{
    let ghost o = rview(v@);
    push_range(v, '\u{11C71}', '\u{11C71}');
    push_range(v, '\u{11EF7}', '\u{11EF8}');
    push_range(v, '\u{11F43}', '\u{11F44}');
    push_range(v, '\u{12470}', '\u{12474}');
    push_range(v, '\u{16A6E}', '\u{16A6F}');
    push_range(v, '\u{16AF5}', '\u{16AF5}');
    push_range(v, '\u{16B37}', '\u{16B39}');
    push_range(v, '\u{16B44}', '\u{16B44}');
    assert(rview(v@) =~= o + terminal_punctuation_chunk_13());
}

fn push_terminal_punctuation_chunk_14(v: &mut Vec<ClassUnicodeRange>)
    ensures
        rview(final(v)@) == rview(old(v)@) + terminal_punctuation_chunk_14(),
{
    let ghost o = rview(v@);
    push_range(v, '\u{16D6E}', '\u{16D6F}');
    push_range(v, '\u{16E97}', '\u{16E98}');
    push_range(v, '\u{1BC9F}', '\u{1BC9F}');
    push_range(v, '\u{1DA87}', '\u{1DA8A}');
    assert(rview(v@) =~= o + terminal_punctuation_chunk_14());
}

fn push_terminal_punctuation_block_0(v: &mut Vec<ClassUnicodeRange>)
    ensures
        rview(final(v)@) == rview(old(v)@) + terminal_punctuation_block_0(),
{
    let ghost o = rview(v@);
    push_terminal_punctuation_chunk_0(v);
    assert(rview(v@) =~= o + (terminal_punctuation_chunk_0()));
    push_terminal_punctuation_chunk_1(v);
    assert(rview(v@) =~= o + (terminal_punctuation_chunk_0() + terminal_punctuation_chunk_1()));
    push_terminal_punctuation_chunk_2(v);
    assert(rview(v@) =~= o + (terminal_punctuation_chunk_0() + terminal_punctuation_chunk_1() + terminal_punctuation_chunk_2()));
    push_terminal_punctuation_chunk_3(v);
    assert(rview(v@) =~= o + (terminal_punctuation_chunk_0() + terminal_punctuation_chunk_1() + terminal_punctuation_chunk_2() + terminal_punctuation_chunk_3()));
    push_terminal_punctuation_chunk_4(v);
    assert(rview(v@) =~= o + (terminal_punctuation_chunk_0() + terminal_punctuation_chunk_1() + terminal_punctuation_chunk_2() + terminal_punctuation_chunk_3() + terminal_punctuation_chunk_4()));
    push_terminal_punctuation_chunk_5(v);
    assert(rview(v@) =~= o + (terminal_punctuation_chunk_0() + terminal_punctuation_chunk_1() + terminal_punctuation_chunk_2() + terminal_punctuation_chunk_3() + terminal_punctuation_chunk_4() + terminal_punctuation_chunk_5()));
    push_terminal_punctuation_chunk_6(v);
    assert(rview(v@) =~= o + (terminal_punctuation_chunk_0() + terminal_punctuation_chunk_1() + terminal_punctuation_chunk_2() + terminal_punctuation_chunk_3() + terminal_punctuation_chunk_4() + terminal_punctuation_chunk_5() + terminal_punctuation_chunk_6()));
    push_terminal_punctuation_chunk_7(v);
    assert(rview(v@) =~= o + (terminal_punctuation_chunk_0() + terminal_punctuation_chunk_1() + terminal_punctuation_chunk_2() + terminal_punctuation_chunk_3() + terminal_punctuation_chunk_4() + terminal_punctuation_chunk_5() + terminal_punctuation_chunk_6() + terminal_punctuation_chunk_7()));
    push_terminal_punctuation_chunk_8(v);
    assert(rview(v@) =~= o + (terminal_punctuation_chunk_0() + terminal_punctuation_chunk_1() + terminal_punctuation_chunk_2() + terminal_punctuation_chunk_3() + terminal_punctuation_chunk_4() + terminal_punctuation_chunk_5() + terminal_punctuation_chunk_6() + terminal_punctuation_chunk_7() + terminal_punctuation_chunk_8()));
    push_terminal_punctuation_chunk_9(v);
    assert(rview(v@) =~= o + (terminal_punctuation_chunk_0() + terminal_punctuation_chunk_1() + terminal_punctuation_chunk_2() + terminal_punctuation_chunk_3() + terminal_punctuation_chunk_4() + terminal_punctuation_chunk_5() + terminal_punctuation_chunk_6() + terminal_punctuation_chunk_7() + terminal_punctuation_chunk_8() + terminal_punctuation_chunk_9()));
}

fn push_terminal_punctuation_block_1(v: &mut Vec<ClassUnicodeRange>)
    ensures
        rview(final(v)@) == rview(old(v)@) + terminal_punctuation_block_1(),
{
    let ghost o = rview(v@);
    push_terminal_punctuation_chunk_10(v);
    assert(rview(v@) =~= o + (terminal_punctuation_chunk_10()));
    push_terminal_punctuation_chunk_11(v);
    assert(rview(v@) =~= o + (terminal_punctuation_chunk_10() + terminal_punctuation_chunk_11()));
    push_terminal_punctuation_chunk_12(v);
    assert(rview(v@) =~= o + (terminal_punctuation_chunk_10() + terminal_punctuation_chunk_11() + terminal_punctuation_chunk_12()));
    push_terminal_punctuation_chunk_13(v);
    assert(rview(v@) =~= o + (terminal_punctuation_chunk_10() + terminal_punctuation_chunk_11() + terminal_punctuation_chunk_12() + terminal_punctuation_chunk_13()));
    push_terminal_punctuation_chunk_14(v);
    assert(rview(v@) =~= o + (terminal_punctuation_chunk_10() + terminal_punctuation_chunk_11() + terminal_punctuation_chunk_12() + terminal_punctuation_chunk_13() + terminal_punctuation_chunk_14()));
}

pub fn terminal_punctuation_class() -> (v: Vec<ClassUnicodeRange>)
    ensures
        rview(v@) == terminal_punctuation_ranges(),
{
    let mut v: Vec<ClassUnicodeRange> = Vec::new();
    assert(rview(v@) =~= Seq::<SRange>::empty());
    push_terminal_punctuation_block_0(&mut v);
    assert(rview(v@) =~= terminal_punctuation_block_0());
    push_terminal_punctuation_block_1(&mut v);
    assert(rview(v@) =~= terminal_punctuation_block_0() + terminal_punctuation_block_1());
    v
}

pub open spec fn unified_ideograph_chunk_0() -> Seq<SRange> {
    seq![(0x3400int, 0x4DBFint), (0x4E00int, 0x9FFFint), (0xFA0Eint, 0xFA0Fint), (0xFA11int, 0xFA11int), (0xFA13int, 0xFA14int), (0xFA1Fint, 0xFA1Fint), (0xFA21int, 0xFA21int), (0xFA23int, 0xFA24int)]
}

pub open spec fn unified_ideograph_chunk_1() -> Seq<SRange> {
    seq![(0xFA27int, 0xFA29int), (0x20000int, 0x2A6DFint), (0x2A700int, 0x2B739int), (0x2B740int, 0x2B81Dint), (0x2B820int, 0x2CEA1int), (0x2CEB0int, 0x2EBE0int), (0x2EBF0int, 0x2EE5Dint), (0x30000int, 0x3134Aint)]
}

pub open spec fn unified_ideograph_chunk_2() -> Seq<SRange> {
    seq![(0x31350int, 0x323AFint)]
}

/// The ranges of the property Unified_Ideograph.
pub open spec fn unified_ideograph_ranges() -> Seq<SRange> {
    unified_ideograph_chunk_0() + unified_ideograph_chunk_1() + unified_ideograph_chunk_2()
}

pub proof fn lemma_unified_ideograph_canonical()
    ensures
        canonical(unified_ideograph_ranges()),
{
    reveal_with_fuel(canonical, 9);
    assert(canonical(unified_ideograph_chunk_0()));
    assert(canonical(unified_ideograph_chunk_1()));
    assert(canonical(unified_ideograph_chunk_2()));
    lemma_canonical_append(unified_ideograph_chunk_0(), unified_ideograph_chunk_1());
    lemma_canonical_append(unified_ideograph_chunk_0() + unified_ideograph_chunk_1(), unified_ideograph_chunk_2());
}

fn push_unified_ideograph_chunk_0(v: &mut Vec<ClassUnicodeRange>)
    ensures
        rview(final(v)@) == rview(old(v)@) + unified_ideograph_chunk_0(),
{
    let ghost o = rview(v@);
    push_range(v, '\u{3400}', '\u{4DBF}');
    push_range(v, '\u{4E00}', '\u{9FFF}');
    push_range(v, '\u{FA0E}', '\u{FA0F}');
    push_range(v, '\u{FA11}', '\u{FA11}');
    push_range(v, '\u{FA13}', '\u{FA14}');
    push_range(v, '\u{FA1F}', '\u{FA1F}');
    push_range(v, '\u{FA21}', '\u{FA21}');
    push_range(v, '\u{FA23}', '\u{FA24}');
    assert(rview(v@) =~= o + unified_ideograph_chunk_0());
}

fn push_unified_ideograph_chunk_1(v: &mut Vec<ClassUnicodeRange>)
    ensures
        rview(final(v)@) == rview(old(v)@) + unified_ideograph_chunk_1(),
{
    let ghost o = rview(v@);
    push_range(v, '\u{FA27}', '\u{FA29}');
    push_range(v, '\u{20000}', '\u{2A6DF}');
    push_range(v, '\u{2A700}', '\u{2B739}');
    push_range(v, '\u{2B740}', '\u{2B81D}');
    push_range(v, '\u{2B820}', '\u{2CEA1}');
    push_range(v, '\u{2CEB0}', '\u{2EBE0}');
    push_range(v, '\u{2EBF0}', '\u{2EE5D}');
    push_range(v, '\u{30000}', '\u{3134A}');
    assert(rview(v@) =~= o + unified_ideograph_chunk_1());
}

fn push_unified_ideograph_chunk_2(v: &mut Vec<ClassUnicodeRange>)
    ensures
        rview(final(v)@) == rview(old(v)@) + unified_ideograph_chunk_2(),
{
    let ghost o = rview(v@);
    push_range(v, '\u{31350}', '\u{323AF}');
    assert(rview(v@) =~= o + unified_ideograph_chunk_2());
}

pub fn unified_ideograph_class() -> (v: Vec<ClassUnicodeRange>)
    ensures
        rview(v@) == unified_ideograph_ranges(),
{
    let mut v: Vec<ClassUnicodeRange> = Vec::new();
    assert(rview(v@) =~= Seq::<SRange>::empty());
    push_unified_ideograph_chunk_0(&mut v);
    assert(rview(v@) =~= unified_ideograph_chunk_0());
    push_unified_ideograph_chunk_1(&mut v);
    assert(rview(v@) =~= unified_ideograph_chunk_0() + unified_ideograph_chunk_1());
    push_unified_ideograph_chunk_2(&mut v);
    assert(rview(v@) =~= unified_ideograph_chunk_0() + unified_ideograph_chunk_1() + unified_ideograph_chunk_2());
    v
}

pub open spec fn uppercase_chunk_0() -> Seq<SRange> {
    seq![(0x41int, 0x5Aint), (0xC0int, 0xD6int), (0xD8int, 0xDEint), (0x100int, 0x100int), (0x102int, 0x102int), (0x104int, 0x104int), (0x106int, 0x106int), (0x108int, 0x108int)]
}

pub open spec fn uppercase_chunk_1() -> Seq<SRange> {
    seq![(0x10Aint, 0x10Aint), (0x10Cint, 0x10Cint), (0x10Eint, 0x10Eint), (0x110int, 0x110int), (0x112int, 0x112int), (0x114int, 0x114int), (0x116int, 0x116int), (0x118int, 0x118int)]
}

pub open spec fn uppercase_chunk_2() -> Seq<SRange> {
    seq![(0x11Aint, 0x11Aint), (0x11Cint, 0x11Cint), (0x11Eint, 0x11Eint), (0x120int, 0x120int), (0x122int, 0x122int), (0x124int, 0x124int), (0x126int, 0x126int), (0x128int, 0x128int)]
}

pub open spec fn uppercase_chunk_3() -> Seq<SRange> {
    seq![(0x12Aint, 0x12Aint), (0x12Cint, 0x12Cint), (0x12Eint, 0x12Eint), (0x130int, 0x130int), (0x132int, 0x132int), (0x134int, 0x134int), (0x136int, 0x136int), (0x139int, 0x139int)]
}

pub open spec fn uppercase_chunk_4() -> Seq<SRange> {
    seq![(0x13Bint, 0x13Bint), (0x13Dint, 0x13Dint), (0x13Fint, 0x13Fint), (0x141int, 0x141int), (0x143int, 0x143int), (0x145int, 0x145int), (0x147int, 0x147int), (0x14Aint, 0x14Aint)]
}

pub open spec fn uppercase_chunk_5() -> Seq<SRange> {
    seq![(0x14Cint, 0x14Cint), (0x14Eint, 0x14Eint), (0x150int, 0x150int), (0x152int, 0x152int), (0x154int, 0x154int), (0x156int, 0x156int), (0x158int, 0x158int), (0x15Aint, 0x15Aint)]
}

pub open spec fn uppercase_chunk_6() -> Seq<SRange> {
    seq![(0x15Cint, 0x15Cint), (0x15Eint, 0x15Eint), (0x160int, 0x160int), (0x162int, 0x162int), (0x164int, 0x164int), (0x166int, 0x166int), (0x168int, 0x168int), (0x16Aint, 0x16Aint)]
}

pub open spec fn uppercase_chunk_7() -> Seq<SRange> {
    seq![(0x16Cint, 0x16Cint), (0x16Eint, 0x16Eint), (0x170int, 0x170int), (0x172int, 0x172int), (0x174int, 0x174int), (0x176int, 0x176int), (0x178int, 0x179int), (0x17Bint, 0x17Bint)]
}

pub open spec fn uppercase_chunk_8() -> Seq<SRange> {
    seq![(0x17Dint, 0x17Dint), (0x181int, 0x182int), (0x184int, 0x184int), (0x186int, 0x187int), (0x189int, 0x18Bint), (0x18Eint, 0x191int), (0x193int, 0x194int), (0x196int, 0x198int)]
}

pub open spec fn uppercase_chunk_9() -> Seq<SRange> {
    seq![(0x19Cint, 0x19Dint), (0x19Fint, 0x1A0int), (0x1A2int, 0x1A2int), (0x1A4int, 0x1A4int), (0x1A6int, 0x1A7int), (0x1A9int, 0x1A9int), (0x1ACint, 0x1ACint), (0x1AEint, 0x1AFint)]
}

pub open spec fn uppercase_chunk_10() -> Seq<SRange> {
    seq![(0x1B1int, 0x1B3int), (0x1B5int, 0x1B5int), (0x1B7int, 0x1B8int), (0x1BCint, 0x1BCint), (0x1C4int, 0x1C4int), (0x1C7int, 0x1C7int), (0x1CAint, 0x1CAint), (0x1CDint, 0x1CDint)]
}

pub open spec fn uppercase_chunk_11() -> Seq<SRange> {
    seq![(0x1CFint, 0x1CFint), (0x1D1int, 0x1D1int), (0x1D3int, 0x1D3int), (0x1D5int, 0x1D5int), (0x1D7int, 0x1D7int), (0x1D9int, 0x1D9int), (0x1DBint, 0x1DBint), (0x1DEint, 0x1DEint)]
}

pub open spec fn uppercase_chunk_12() -> Seq<SRange> {
    seq![(0x1E0int, 0x1E0int), (0x1E2int, 0x1E2int), (0x1E4int, 0x1E4int), (0x1E6int, 0x1E6int), (0x1E8int, 0x1E8int), (0x1EAint, 0x1EAint), (0x1ECint, 0x1ECint), (0x1EEint, 0x1EEint)]
}

pub open spec fn uppercase_chunk_13() -> Seq<SRange> {
    seq![(0x1F1int, 0x1F1int), (0x1F4int, 0x1F4int), (0x1F6int, 0x1F8int), (0x1FAint, 0x1FAint), (0x1FCint, 0x1FCint), (0x1FEint, 0x1FEint), (0x200int, 0x200int), (0x202int, 0x202int)]
}

pub open spec fn uppercase_chunk_14() -> Seq<SRange> {
    seq![(0x204int, 0x204int), (0x206int, 0x206int), (0x208int, 0x208int), (0x20Aint, 0x20Aint), (0x20Cint, 0x20Cint), (0x20Eint, 0x20Eint), (0x210int, 0x210int), (0x212int, 0x212int)]
}

pub open spec fn uppercase_chunk_15() -> Seq<SRange> {
    seq![(0x214int, 0x214int), (0x216int, 0x216int), (0x218int, 0x218int), (0x21Aint, 0x21Aint), (0x21Cint, 0x21Cint), (0x21Eint, 0x21Eint), (0x220int, 0x220int), (0x222int, 0x222int)]
}

pub open spec fn uppercase_chunk_16() -> Seq<SRange> {
    seq![(0x224int, 0x224int), (0x226int, 0x226int), (0x228int, 0x228int), (0x22Aint, 0x22Aint), (0x22Cint, 0x22Cint), (0x22Eint, 0x22Eint), (0x230int, 0x230int), (0x232int, 0x232int)]
}

pub open spec fn uppercase_chunk_17() -> Seq<SRange> {
    seq![(0x23Aint, 0x23Bint), (0x23Dint, 0x23Eint), (0x241int, 0x241int), (0x243int, 0x246int), (0x248int, 0x248int), (0x24Aint, 0x24Aint), (0x24Cint, 0x24Cint), (0x24Eint, 0x24Eint)]
}

pub open spec fn uppercase_chunk_18() -> Seq<SRange> {
    seq![(0x370int, 0x370int), (0x372int, 0x372int), (0x376int, 0x376int), (0x37Fint, 0x37Fint), (0x386int, 0x386int), (0x388int, 0x38Aint), (0x38Cint, 0x38Cint), (0x38Eint, 0x38Fint)]
}

pub open spec fn uppercase_chunk_19() -> Seq<SRange> {
    seq![(0x391int, 0x3A1int), (0x3A3int, 0x3ABint), (0x3CFint, 0x3CFint), (0x3D2int, 0x3D4int), (0x3D8int, 0x3D8int), (0x3DAint, 0x3DAint), (0x3DCint, 0x3DCint), (0x3DEint, 0x3DEint)]
}

pub open spec fn uppercase_chunk_20() -> Seq<SRange> {
    seq![(0x3E0int, 0x3E0int), (0x3E2int, 0x3E2int), (0x3E4int, 0x3E4int), (0x3E6int, 0x3E6int), (0x3E8int, 0x3E8int), (0x3EAint, 0x3EAint), (0x3ECint, 0x3ECint), (0x3EEint, 0x3EEint)]
}

pub open spec fn uppercase_chunk_21() -> Seq<SRange> {
    seq![(0x3F4int, 0x3F4int), (0x3F7int, 0x3F7int), (0x3F9int, 0x3FAint), (0x3FDint, 0x42Fint), (0x460int, 0x460int), (0x462int, 0x462int), (0x464int, 0x464int), (0x466int, 0x466int)]
}

pub open spec fn uppercase_chunk_22() -> Seq<SRange> {
    seq![(0x468int, 0x468int), (0x46Aint, 0x46Aint), (0x46Cint, 0x46Cint), (0x46Eint, 0x46Eint), (0x470int, 0x470int), (0x472int, 0x472int), (0x474int, 0x474int), (0x476int, 0x476int)]
}

pub open spec fn uppercase_chunk_23() -> Seq<SRange> {
    seq![(0x478int, 0x478int), (0x47Aint, 0x47Aint), (0x47Cint, 0x47Cint), (0x47Eint, 0x47Eint), (0x480int, 0x480int), (0x48Aint, 0x48Aint), (0x48Cint, 0x48Cint), (0x48Eint, 0x48Eint)]
}

pub open spec fn uppercase_chunk_24() -> Seq<SRange> {
    seq![(0x490int, 0x490int), (0x492int, 0x492int), (0x494int, 0x494int), (0x496int, 0x496int), (0x498int, 0x498int), (0x49Aint, 0x49Aint), (0x49Cint, 0x49Cint), (0x49Eint, 0x49Eint)]
}

pub open spec fn uppercase_chunk_25() -> Seq<SRange> {
    seq![(0x4A0int, 0x4A0int), (0x4A2int, 0x4A2int), (0x4A4int, 0x4A4int), (0x4A6int, 0x4A6int), (0x4A8int, 0x4A8int), (0x4AAint, 0x4AAint), (0x4ACint, 0x4ACint), (0x4AEint, 0x4AEint)]
}

pub open spec fn uppercase_chunk_26() -> Seq<SRange> {
    seq![(0x4B0int, 0x4B0int), (0x4B2int, 0x4B2int), (0x4B4int, 0x4B4int), (0x4B6int, 0x4B6int), (0x4B8int, 0x4B8int), (0x4BAint, 0x4BAint), (0x4BCint, 0x4BCint), (0x4BEint, 0x4BEint)]
}

pub open spec fn uppercase_chunk_27() -> Seq<SRange> {
    seq![(0x4C0int, 0x4C1int), (0x4C3int, 0x4C3int), (0x4C5int, 0x4C5int), (0x4C7int, 0x4C7int), (0x4C9int, 0x4C9int), (0x4CBint, 0x4CBint), (0x4CDint, 0x4CDint), (0x4D0int, 0x4D0int)]
}

pub open spec fn uppercase_chunk_28() -> Seq<SRange> {
    seq![(0x4D2int, 0x4D2int), (0x4D4int, 0x4D4int), (0x4D6int, 0x4D6int), (0x4D8int, 0x4D8int), (0x4DAint, 0x4DAint), (0x4DCint, 0x4DCint), (0x4DEint, 0x4DEint), (0x4E0int, 0x4E0int)]
}

pub open spec fn uppercase_chunk_29() -> Seq<SRange> {
    seq![(0x4E2int, 0x4E2int), (0x4E4int, 0x4E4int), (0x4E6int, 0x4E6int), (0x4E8int, 0x4E8int), (0x4EAint, 0x4EAint), (0x4ECint, 0x4ECint), (0x4EEint, 0x4EEint), (0x4F0int, 0x4F0int)]
}

pub open spec fn uppercase_chunk_30() -> Seq<SRange> {
    seq![(0x4F2int, 0x4F2int), (0x4F4int, 0x4F4int), (0x4F6int, 0x4F6int), (0x4F8int, 0x4F8int), (0x4FAint, 0x4FAint), (0x4FCint, 0x4FCint), (0x4FEint, 0x4FEint), (0x500int, 0x500int)]
}

pub open spec fn uppercase_chunk_31() -> Seq<SRange> {
    seq![(0x502int, 0x502int), (0x504int, 0x504int), (0x506int, 0x506int), (0x508int, 0x508int), (0x50Aint, 0x50Aint), (0x50Cint, 0x50Cint), (0x50Eint, 0x50Eint), (0x510int, 0x510int)]
}

pub open spec fn uppercase_chunk_32() -> Seq<SRange> {
    seq![(0x512int, 0x512int), (0x514int, 0x514int), (0x516int, 0x516int), (0x518int, 0x518int), (0x51Aint, 0x51Aint), (0x51Cint, 0x51Cint), (0x51Eint, 0x51Eint), (0x520int, 0x520int)]
}

pub open spec fn uppercase_chunk_33() -> Seq<SRange> {
    seq![(0x522int, 0x522int), (0x524int, 0x524int), (0x526int, 0x526int), (0x528int, 0x528int), (0x52Aint, 0x52Aint), (0x52Cint, 0x52Cint), (0x52Eint, 0x52Eint), (0x531int, 0x556int)]
}

pub open spec fn uppercase_chunk_34() -> Seq<SRange> {
    seq![(0x10A0int, 0x10C5int), (0x10C7int, 0x10C7int), (0x10CDint, 0x10CDint), (0x13A0int, 0x13F5int), (0x1C89int, 0x1C89int), (0x1C90int, 0x1CBAint), (0x1CBDint, 0x1CBFint), (0x1E00int, 0x1E00int)]
}

pub open spec fn uppercase_chunk_35() -> Seq<SRange> {
    seq![(0x1E02int, 0x1E02int), (0x1E04int, 0x1E04int), (0x1E06int, 0x1E06int), (0x1E08int, 0x1E08int), (0x1E0Aint, 0x1E0Aint), (0x1E0Cint, 0x1E0Cint), (0x1E0Eint, 0x1E0Eint), (0x1E10int, 0x1E10int)]
}

pub open spec fn uppercase_chunk_36() -> Seq<SRange> {
    seq![(0x1E12int, 0x1E12int), (0x1E14int, 0x1E14int), (0x1E16int, 0x1E16int), (0x1E18int, 0x1E18int), (0x1E1Aint, 0x1E1Aint), (0x1E1Cint, 0x1E1Cint), (0x1E1Eint, 0x1E1Eint), (0x1E20int, 0x1E20int)]
}

pub open spec fn uppercase_chunk_37() -> Seq<SRange> {
    seq![(0x1E22int, 0x1E22int), (0x1E24int, 0x1E24int), (0x1E26int, 0x1E26int), (0x1E28int, 0x1E28int), (0x1E2Aint, 0x1E2Aint), (0x1E2Cint, 0x1E2Cint), (0x1E2Eint, 0x1E2Eint), (0x1E30int, 0x1E30int)]
}

pub open spec fn uppercase_chunk_38() -> Seq<SRange> {
    seq![(0x1E32int, 0x1E32int), (0x1E34int, 0x1E34int), (0x1E36int, 0x1E36int), (0x1E38int, 0x1E38int), (0x1E3Aint, 0x1E3Aint), (0x1E3Cint, 0x1E3Cint), (0x1E3Eint, 0x1E3Eint), (0x1E40int, 0x1E40int)]
}

pub open spec fn uppercase_chunk_39() -> Seq<SRange> {
    seq![(0x1E42int, 0x1E42int), (0x1E44int, 0x1E44int), (0x1E46int, 0x1E46int), (0x1E48int, 0x1E48int), (0x1E4Aint, 0x1E4Aint), (0x1E4Cint, 0x1E4Cint), (0x1E4Eint, 0x1E4Eint), (0x1E50int, 0x1E50int)]
}

pub open spec fn uppercase_chunk_40() -> Seq<SRange> {
    seq![(0x1E52int, 0x1E52int), (0x1E54int, 0x1E54int), (0x1E56int, 0x1E56int), (0x1E58int, 0x1E58int), (0x1E5Aint, 0x1E5Aint), (0x1E5Cint, 0x1E5Cint), (0x1E5Eint, 0x1E5Eint), (0x1E60int, 0x1E60int)]
}

pub open spec fn uppercase_chunk_41() -> Seq<SRange> {
    seq![(0x1E62int, 0x1E62int), (0x1E64int, 0x1E64int), (0x1E66int, 0x1E66int), (0x1E68int, 0x1E68int), (0x1E6Aint, 0x1E6Aint), (0x1E6Cint, 0x1E6Cint), (0x1E6Eint, 0x1E6Eint), (0x1E70int, 0x1E70int)]
}

pub open spec fn uppercase_chunk_42() -> Seq<SRange> {
    seq![(0x1E72int, 0x1E72int), (0x1E74int, 0x1E74int), (0x1E76int, 0x1E76int), (0x1E78int, 0x1E78int), (0x1E7Aint, 0x1E7Aint), (0x1E7Cint, 0x1E7Cint), (0x1E7Eint, 0x1E7Eint), (0x1E80int, 0x1E80int)]
}

pub open spec fn uppercase_chunk_43() -> Seq<SRange> {
    seq![(0x1E82int, 0x1E82int), (0x1E84int, 0x1E84int), (0x1E86int, 0x1E86int), (0x1E88int, 0x1E88int), (0x1E8Aint, 0x1E8Aint), (0x1E8Cint, 0x1E8Cint), (0x1E8Eint, 0x1E8Eint), (0x1E90int, 0x1E90int)]
}

pub open spec fn uppercase_chunk_44() -> Seq<SRange> {
    seq![(0x1E92int, 0x1E92int), (0x1E94int, 0x1E94int), (0x1E9Eint, 0x1E9Eint), (0x1EA0int, 0x1EA0int), (0x1EA2int, 0x1EA2int), (0x1EA4int, 0x1EA4int), (0x1EA6int, 0x1EA6int), (0x1EA8int, 0x1EA8int)]
}

pub open spec fn uppercase_chunk_45() -> Seq<SRange> {
    seq![(0x1EAAint, 0x1EAAint), (0x1EACint, 0x1EACint), (0x1EAEint, 0x1EAEint), (0x1EB0int, 0x1EB0int), (0x1EB2int, 0x1EB2int), (0x1EB4int, 0x1EB4int), (0x1EB6int, 0x1EB6int), (0x1EB8int, 0x1EB8int)]
}

pub open spec fn uppercase_chunk_46() -> Seq<SRange> {
    seq![(0x1EBAint, 0x1EBAint), (0x1EBCint, 0x1EBCint), (0x1EBEint, 0x1EBEint), (0x1EC0int, 0x1EC0int), (0x1EC2int, 0x1EC2int), (0x1EC4int, 0x1EC4int), (0x1EC6int, 0x1EC6int), (0x1EC8int, 0x1EC8int)]
}

pub open spec fn uppercase_chunk_47() -> Seq<SRange> {
    seq![(0x1ECAint, 0x1ECAint), (0x1ECCint, 0x1ECCint), (0x1ECEint, 0x1ECEint), (0x1ED0int, 0x1ED0int), (0x1ED2int, 0x1ED2int), (0x1ED4int, 0x1ED4int), (0x1ED6int, 0x1ED6int), (0x1ED8int, 0x1ED8int)]
}

pub open spec fn uppercase_chunk_48() -> Seq<SRange> {
    seq![(0x1EDAint, 0x1EDAint), (0x1EDCint, 0x1EDCint), (0x1EDEint, 0x1EDEint), (0x1EE0int, 0x1EE0int), (0x1EE2int, 0x1EE2int), (0x1EE4int, 0x1EE4int), (0x1EE6int, 0x1EE6int), (0x1EE8int, 0x1EE8int)]
}

pub open spec fn uppercase_chunk_49() -> Seq<SRange> {
    seq![(0x1EEAint, 0x1EEAint), (0x1EECint, 0x1EECint), (0x1EEEint, 0x1EEEint), (0x1EF0int, 0x1EF0int), (0x1EF2int, 0x1EF2int), (0x1EF4int, 0x1EF4int), (0x1EF6int, 0x1EF6int), (0x1EF8int, 0x1EF8int)]
}

pub open spec fn uppercase_chunk_50() -> Seq<SRange> {
    seq![(0x1EFAint, 0x1EFAint), (0x1EFCint, 0x1EFCint), (0x1EFEint, 0x1EFEint), (0x1F08int, 0x1F0Fint), (0x1F18int, 0x1F1Dint), (0x1F28int, 0x1F2Fint), (0x1F38int, 0x1F3Fint), (0x1F48int, 0x1F4Dint)]
}

pub open spec fn uppercase_chunk_51() -> Seq<SRange> {
    seq![(0x1F59int, 0x1F59int), (0x1F5Bint, 0x1F5Bint), (0x1F5Dint, 0x1F5Dint), (0x1F5Fint, 0x1F5Fint), (0x1F68int, 0x1F6Fint), (0x1FB8int, 0x1FBBint), (0x1FC8int, 0x1FCBint), (0x1FD8int, 0x1FDBint)]
}

pub open spec fn uppercase_chunk_52() -> Seq<SRange> {
    seq![(0x1FE8int, 0x1FECint), (0x1FF8int, 0x1FFBint), (0x2102int, 0x2102int), (0x2107int, 0x2107int), (0x210Bint, 0x210Dint), (0x2110int, 0x2112int), (0x2115int, 0x2115int), (0x2119int, 0x211Dint)]
}

pub open spec fn uppercase_chunk_53() -> Seq<SRange> {
    seq![(0x2124int, 0x2124int), (0x2126int, 0x2126int), (0x2128int, 0x2128int), (0x212Aint, 0x212Dint), (0x2130int, 0x2133int), (0x213Eint, 0x213Fint), (0x2145int, 0x2145int), (0x2160int, 0x216Fint)]
}

pub open spec fn uppercase_chunk_54() -> Seq<SRange> {
    seq![(0x2183int, 0x2183int), (0x24B6int, 0x24CFint), (0x2C00int, 0x2C2Fint), (0x2C60int, 0x2C60int), (0x2C62int, 0x2C64int), (0x2C67int, 0x2C67int), (0x2C69int, 0x2C69int), (0x2C6Bint, 0x2C6Bint)]
}

pub open spec fn uppercase_chunk_55() -> Seq<SRange> {
    seq![(0x2C6Dint, 0x2C70int), (0x2C72int, 0x2C72int), (0x2C75int, 0x2C75int), (0x2C7Eint, 0x2C80int), (0x2C82int, 0x2C82int), (0x2C84int, 0x2C84int), (0x2C86int, 0x2C86int), (0x2C88int, 0x2C88int)]
}

pub open spec fn uppercase_chunk_56() -> Seq<SRange> {
    seq![(0x2C8Aint, 0x2C8Aint), (0x2C8Cint, 0x2C8Cint), (0x2C8Eint, 0x2C8Eint), (0x2C90int, 0x2C90int), (0x2C92int, 0x2C92int), (0x2C94int, 0x2C94int), (0x2C96int, 0x2C96int), (0x2C98int, 0x2C98int)]
}

pub open spec fn uppercase_chunk_57() -> Seq<SRange> {
    seq![(0x2C9Aint, 0x2C9Aint), (0x2C9Cint, 0x2C9Cint), (0x2C9Eint, 0x2C9Eint), (0x2CA0int, 0x2CA0int), (0x2CA2int, 0x2CA2int), (0x2CA4int, 0x2CA4int), (0x2CA6int, 0x2CA6int), (0x2CA8int, 0x2CA8int)]
}

pub open spec fn uppercase_chunk_58() -> Seq<SRange> {
    seq![(0x2CAAint, 0x2CAAint), (0x2CACint, 0x2CACint), (0x2CAEint, 0x2CAEint), (0x2CB0int, 0x2CB0int), (0x2CB2int, 0x2CB2int), (0x2CB4int, 0x2CB4int), (0x2CB6int, 0x2CB6int), (0x2CB8int, 0x2CB8int)]
}

pub open spec fn uppercase_chunk_59() -> Seq<SRange> {
    seq![(0x2CBAint, 0x2CBAint), (0x2CBCint, 0x2CBCint), (0x2CBEint, 0x2CBEint), (0x2CC0int, 0x2CC0int), (0x2CC2int, 0x2CC2int), (0x2CC4int, 0x2CC4int), (0x2CC6int, 0x2CC6int), (0x2CC8int, 0x2CC8int)]
}

pub open spec fn uppercase_chunk_60() -> Seq<SRange> {
    seq![(0x2CCAint, 0x2CCAint), (0x2CCCint, 0x2CCCint), (0x2CCEint, 0x2CCEint), (0x2CD0int, 0x2CD0int), (0x2CD2int, 0x2CD2int), (0x2CD4int, 0x2CD4int), (0x2CD6int, 0x2CD6int), (0x2CD8int, 0x2CD8int)]
}

pub open spec fn uppercase_chunk_61() -> Seq<SRange> {
    seq![(0x2CDAint, 0x2CDAint), (0x2CDCint, 0x2CDCint), (0x2CDEint, 0x2CDEint), (0x2CE0int, 0x2CE0int), (0x2CE2int, 0x2CE2int), (0x2CEBint, 0x2CEBint), (0x2CEDint, 0x2CEDint), (0x2CF2int, 0x2CF2int)]
}

pub open spec fn uppercase_chunk_62() -> Seq<SRange> {
    seq![(0xA640int, 0xA640int), (0xA642int, 0xA642int), (0xA644int, 0xA644int), (0xA646int, 0xA646int), (0xA648int, 0xA648int), (0xA64Aint, 0xA64Aint), (0xA64Cint, 0xA64Cint), (0xA64Eint, 0xA64Eint)]
}

pub open spec fn uppercase_chunk_63() -> Seq<SRange> {
    seq![(0xA650int, 0xA650int), (0xA652int, 0xA652int), (0xA654int, 0xA654int), (0xA656int, 0xA656int), (0xA658int, 0xA658int), (0xA65Aint, 0xA65Aint), (0xA65Cint, 0xA65Cint), (0xA65Eint, 0xA65Eint)]
}

pub open spec fn uppercase_chunk_64() -> Seq<SRange> {
    seq![(0xA660int, 0xA660int), (0xA662int, 0xA662int), (0xA664int, 0xA664int), (0xA666int, 0xA666int), (0xA668int, 0xA668int), (0xA66Aint, 0xA66Aint), (0xA66Cint, 0xA66Cint), (0xA680int, 0xA680int)]
}

pub open spec fn uppercase_chunk_65() -> Seq<SRange> {
    seq![(0xA682int, 0xA682int), (0xA684int, 0xA684int), (0xA686int, 0xA686int), (0xA688int, 0xA688int), (0xA68Aint, 0xA68Aint), (0xA68Cint, 0xA68Cint), (0xA68Eint, 0xA68Eint), (0xA690int, 0xA690int)]
}

pub open spec fn uppercase_chunk_66() -> Seq<SRange> {
    seq![(0xA692int, 0xA692int), (0xA694int, 0xA694int), (0xA696int, 0xA696int), (0xA698int, 0xA698int), (0xA69Aint, 0xA69Aint), (0xA722int, 0xA722int), (0xA724int, 0xA724int), (0xA726int, 0xA726int)]
}

pub open spec fn uppercase_chunk_67() -> Seq<SRange> {
    seq![(0xA728int, 0xA728int), (0xA72Aint, 0xA72Aint), (0xA72Cint, 0xA72Cint), (0xA72Eint, 0xA72Eint), (0xA732int, 0xA732int), (0xA734int, 0xA734int), (0xA736int, 0xA736int), (0xA738int, 0xA738int)]
}

pub open spec fn uppercase_chunk_68() -> Seq<SRange> {
    seq![(0xA73Aint, 0xA73Aint), (0xA73Cint, 0xA73Cint), (0xA73Eint, 0xA73Eint), (0xA740int, 0xA740int), (0xA742int, 0xA742int), (0xA744int, 0xA744int), (0xA746int, 0xA746int), (0xA748int, 0xA748int)]
}

pub open spec fn uppercase_chunk_69() -> Seq<SRange> {
    seq![(0xA74Aint, 0xA74Aint), (0xA74Cint, 0xA74Cint), (0xA74Eint, 0xA74Eint), (0xA750int, 0xA750int), (0xA752int, 0xA752int), (0xA754int, 0xA754int), (0xA756int, 0xA756int), (0xA758int, 0xA758int)]
}

pub open spec fn uppercase_chunk_70() -> Seq<SRange> {
    seq![(0xA75Aint, 0xA75Aint), (0xA75Cint, 0xA75Cint), (0xA75Eint, 0xA75Eint), (0xA760int, 0xA760int), (0xA762int, 0xA762int), (0xA764int, 0xA764int), (0xA766int, 0xA766int), (0xA768int, 0xA768int)]
}

pub open spec fn uppercase_chunk_71() -> Seq<SRange> {
    seq![(0xA76Aint, 0xA76Aint), (0xA76Cint, 0xA76Cint), (0xA76Eint, 0xA76Eint), (0xA779int, 0xA779int), (0xA77Bint, 0xA77Bint), (0xA77Dint, 0xA77Eint), (0xA780int, 0xA780int), (0xA782int, 0xA782int)]
}

pub open spec fn uppercase_chunk_72() -> Seq<SRange> {
    seq![(0xA784int, 0xA784int), (0xA786int, 0xA786int), (0xA78Bint, 0xA78Bint), (0xA78Dint, 0xA78Dint), (0xA790int, 0xA790int), (0xA792int, 0xA792int), (0xA796int, 0xA796int), (0xA798int, 0xA798int)]
}

pub open spec fn uppercase_chunk_73() -> Seq<SRange> {
    seq![(0xA79Aint, 0xA79Aint), (0xA79Cint, 0xA79Cint), (0xA79Eint, 0xA79Eint), (0xA7A0int, 0xA7A0int), (0xA7A2int, 0xA7A2int), (0xA7A4int, 0xA7A4int), (0xA7A6int, 0xA7A6int), (0xA7A8int, 0xA7A8int)]
}

pub open spec fn uppercase_chunk_74() -> Seq<SRange> {
    seq![(0xA7AAint, 0xA7AEint), (0xA7B0int, 0xA7B4int), (0xA7B6int, 0xA7B6int), (0xA7B8int, 0xA7B8int), (0xA7BAint, 0xA7BAint), (0xA7BCint, 0xA7BCint), (0xA7BEint, 0xA7BEint), (0xA7C0int, 0xA7C0int)]
}

pub open spec fn uppercase_chunk_75() -> Seq<SRange> {
    seq![(0xA7C2int, 0xA7C2int), (0xA7C4int, 0xA7C7int), (0xA7C9int, 0xA7C9int), (0xA7CBint, 0xA7CCint), (0xA7D0int, 0xA7D0int), (0xA7D6int, 0xA7D6int), (0xA7D8int, 0xA7D8int), (0xA7DAint, 0xA7DAint)]
}

pub open spec fn uppercase_chunk_76() -> Seq<SRange> {
    seq![(0xA7DCint, 0xA7DCint), (0xA7F5int, 0xA7F5int), (0xFF21int, 0xFF3Aint), (0x10400int, 0x10427int), (0x104B0int, 0x104D3int), (0x10570int, 0x1057Aint), (0x1057Cint, 0x1058Aint), (0x1058Cint, 0x10592int)]
}

pub open spec fn uppercase_chunk_77() -> Seq<SRange> {
    seq![(0x10594int, 0x10595int), (0x10C80int, 0x10CB2int), (0x10D50int, 0x10D65int), (0x118A0int, 0x118BFint), (0x16E40int, 0x16E5Fint), (0x1D400int, 0x1D419int), (0x1D434int, 0x1D44Dint), (0x1D468int, 0x1D481int)]
}

pub open spec fn uppercase_chunk_78() -> Seq<SRange> {
    seq![(0x1D49Cint, 0x1D49Cint), (0x1D49Eint, 0x1D49Fint), (0x1D4A2int, 0x1D4A2int), (0x1D4A5int, 0x1D4A6int), (0x1D4A9int, 0x1D4ACint), (0x1D4AEint, 0x1D4B5int), (0x1D4D0int, 0x1D4E9int), (0x1D504int, 0x1D505int)]
}

pub open spec fn uppercase_chunk_79() -> Seq<SRange> {
    seq![(0x1D507int, 0x1D50Aint), (0x1D50Dint, 0x1D514int), (0x1D516int, 0x1D51Cint), (0x1D538int, 0x1D539int), (0x1D53Bint, 0x1D53Eint), (0x1D540int, 0x1D544int), (0x1D546int, 0x1D546int), (0x1D54Aint, 0x1D550int)]
}

pub open spec fn uppercase_chunk_80() -> Seq<SRange> {
    seq![(0x1D56Cint, 0x1D585int), (0x1D5A0int, 0x1D5B9int), (0x1D5D4int, 0x1D5EDint), (0x1D608int, 0x1D621int), (0x1D63Cint, 0x1D655int), (0x1D670int, 0x1D689int), (0x1D6A8int, 0x1D6C0int), (0x1D6E2int, 0x1D6FAint)]
}

pub open spec fn uppercase_chunk_81() -> Seq<SRange> {
    seq![(0x1D71Cint, 0x1D734int), (0x1D756int, 0x1D76Eint), (0x1D790int, 0x1D7A8int), (0x1D7CAint, 0x1D7CAint), (0x1E900int, 0x1E921int), (0x1F130int, 0x1F149int), (0x1F150int, 0x1F169int), (0x1F170int, 0x1F189int)]
}

pub open spec fn uppercase_block_0() -> Seq<SRange> {
    uppercase_chunk_0() + uppercase_chunk_1() + uppercase_chunk_2() + uppercase_chunk_3() + uppercase_chunk_4() + uppercase_chunk_5() + uppercase_chunk_6() + uppercase_chunk_7() + uppercase_chunk_8() + uppercase_chunk_9()
}

pub open spec fn uppercase_block_1() -> Seq<SRange> {
    uppercase_chunk_10() + uppercase_chunk_11() + uppercase_chunk_12() + uppercase_chunk_13() + uppercase_chunk_14() + uppercase_chunk_15() + uppercase_chunk_16() + uppercase_chunk_17() + uppercase_chunk_18() + uppercase_chunk_19()
}

pub open spec fn uppercase_block_2() -> Seq<SRange> {
    uppercase_chunk_20() + uppercase_chunk_21() + uppercase_chunk_22() + uppercase_chunk_23() + uppercase_chunk_24() + uppercase_chunk_25() + uppercase_chunk_26() + uppercase_chunk_27() + uppercase_chunk_28() + uppercase_chunk_29()
}

pub open spec fn uppercase_block_3() -> Seq<SRange> {
    uppercase_chunk_30() + uppercase_chunk_31() + uppercase_chunk_32() + uppercase_chunk_33() + uppercase_chunk_34() + uppercase_chunk_35() + uppercase_chunk_36() + uppercase_chunk_37() + uppercase_chunk_38() + uppercase_chunk_39()
}

pub open spec fn uppercase_block_4() -> Seq<SRange> {
    uppercase_chunk_40() + uppercase_chunk_41() + uppercase_chunk_42() + uppercase_chunk_43() + uppercase_chunk_44() + uppercase_chunk_45() + uppercase_chunk_46() + uppercase_chunk_47() + uppercase_chunk_48() + uppercase_chunk_49()
}

pub open spec fn uppercase_block_5() -> Seq<SRange> {
    uppercase_chunk_50() + uppercase_chunk_51() + uppercase_chunk_52() + uppercase_chunk_53() + uppercase_chunk_54() + uppercase_chunk_55() + uppercase_chunk_56() + uppercase_chunk_57() + uppercase_chunk_58() + uppercase_chunk_59()
}

pub open spec fn uppercase_block_6() -> Seq<SRange> {
    uppercase_chunk_60() + uppercase_chunk_61() + uppercase_chunk_62() + uppercase_chunk_63() + uppercase_chunk_64() + uppercase_chunk_65() + uppercase_chunk_66() + uppercase_chunk_67() + uppercase_chunk_68() + uppercase_chunk_69()
}

pub open spec fn uppercase_block_7() -> Seq<SRange> {
    uppercase_chunk_70() + uppercase_chunk_71() + uppercase_chunk_72() + uppercase_chunk_73() + uppercase_chunk_74() + uppercase_chunk_75() + uppercase_chunk_76() + uppercase_chunk_77() + uppercase_chunk_78() + uppercase_chunk_79()
}

pub open spec fn uppercase_block_8() -> Seq<SRange> {
    uppercase_chunk_80() + uppercase_chunk_81()
}

/// The ranges of the property Uppercase.
pub open spec fn uppercase_ranges() -> Seq<SRange> {
    uppercase_block_0() + uppercase_block_1() + uppercase_block_2() + uppercase_block_3() + uppercase_block_4() + uppercase_block_5() + uppercase_block_6() + uppercase_block_7() + uppercase_block_8()
}

proof fn lemma_uppercase_block_0()
    ensures
        canonical(uppercase_block_0()),
        uppercase_block_0().len() > 0,
        uppercase_block_0()[0] == uppercase_chunk_0()[0],
        uppercase_block_0().last() == uppercase_chunk_9().last(),
{
    reveal_with_fuel(canonical, 9);
    assert(canonical(uppercase_chunk_0()));
    assert(canonical(uppercase_chunk_1()));
    assert(canonical(uppercase_chunk_2()));
    assert(canonical(uppercase_chunk_3()));
    assert(canonical(uppercase_chunk_4()));
    assert(canonical(uppercase_chunk_5()));
    assert(canonical(uppercase_chunk_6()));
    assert(canonical(uppercase_chunk_7()));
    assert(canonical(uppercase_chunk_8()));
    assert(canonical(uppercase_chunk_9()));
    lemma_canonical_append(uppercase_chunk_0(), uppercase_chunk_1());
    lemma_canonical_append(uppercase_chunk_0() + uppercase_chunk_1(), uppercase_chunk_2());
    lemma_canonical_append(uppercase_chunk_0() + uppercase_chunk_1() + uppercase_chunk_2(), uppercase_chunk_3());
    lemma_canonical_append(uppercase_chunk_0() + uppercase_chunk_1() + uppercase_chunk_2() + uppercase_chunk_3(), uppercase_chunk_4());
    lemma_canonical_append(uppercase_chunk_0() + uppercase_chunk_1() + uppercase_chunk_2() + uppercase_chunk_3() + uppercase_chunk_4(), uppercase_chunk_5());
    lemma_canonical_append(uppercase_chunk_0() + uppercase_chunk_1() + uppercase_chunk_2() + uppercase_chunk_3() + uppercase_chunk_4() + uppercase_chunk_5(), uppercase_chunk_6());
    lemma_canonical_append(uppercase_chunk_0() + uppercase_chunk_1() + uppercase_chunk_2() + uppercase_chunk_3() + uppercase_chunk_4() + uppercase_chunk_5() + uppercase_chunk_6(), uppercase_chunk_7());
    lemma_canonical_append(uppercase_chunk_0() + uppercase_chunk_1() + uppercase_chunk_2() + uppercase_chunk_3() + uppercase_chunk_4() + uppercase_chunk_5() + uppercase_chunk_6() + uppercase_chunk_7(), uppercase_chunk_8());
    lemma_canonical_append(uppercase_chunk_0() + uppercase_chunk_1() + uppercase_chunk_2() + uppercase_chunk_3() + uppercase_chunk_4() + uppercase_chunk_5() + uppercase_chunk_6() + uppercase_chunk_7() + uppercase_chunk_8(), uppercase_chunk_9());
}

proof fn lemma_uppercase_block_1()
    ensures
        canonical(uppercase_block_1()),
        uppercase_block_1().len() > 0,
        uppercase_block_1()[0] == uppercase_chunk_10()[0],
        uppercase_block_1().last() == uppercase_chunk_19().last(),
{
    reveal_with_fuel(canonical, 9);
    assert(canonical(uppercase_chunk_10()));
    assert(canonical(uppercase_chunk_11()));
    assert(canonical(uppercase_chunk_12()));
    assert(canonical(uppercase_chunk_13()));
    assert(canonical(uppercase_chunk_14()));
    assert(canonical(uppercase_chunk_15()));
    assert(canonical(uppercase_chunk_16()));
    assert(canonical(uppercase_chunk_17()));
    assert(canonical(uppercase_chunk_18()));
    assert(canonical(uppercase_chunk_19()));
    lemma_canonical_append(uppercase_chunk_10(), uppercase_chunk_11());
    lemma_canonical_append(uppercase_chunk_10() + uppercase_chunk_11(), uppercase_chunk_12());
    lemma_canonical_append(uppercase_chunk_10() + uppercase_chunk_11() + uppercase_chunk_12(), uppercase_chunk_13());
    lemma_canonical_append(uppercase_chunk_10() + uppercase_chunk_11() + uppercase_chunk_12() + uppercase_chunk_13(), uppercase_chunk_14());
    lemma_canonical_append(uppercase_chunk_10() + uppercase_chunk_11() + uppercase_chunk_12() + uppercase_chunk_13() + uppercase_chunk_14(), uppercase_chunk_15());
    lemma_canonical_append(uppercase_chunk_10() + uppercase_chunk_11() + uppercase_chunk_12() + uppercase_chunk_13() + uppercase_chunk_14() + uppercase_chunk_15(), uppercase_chunk_16());
    lemma_canonical_append(uppercase_chunk_10() + uppercase_chunk_11() + uppercase_chunk_12() + uppercase_chunk_13() + uppercase_chunk_14() + uppercase_chunk_15() + uppercase_chunk_16(), uppercase_chunk_17());
    lemma_canonical_append(uppercase_chunk_10() + uppercase_chunk_11() + uppercase_chunk_12() + uppercase_chunk_13() + uppercase_chunk_14() + uppercase_chunk_15() + uppercase_chunk_16() + uppercase_chunk_17(), uppercase_chunk_18());
    lemma_canonical_append(uppercase_chunk_10() + uppercase_chunk_11() + uppercase_chunk_12() + uppercase_chunk_13() + uppercase_chunk_14() + uppercase_chunk_15() + uppercase_chunk_16() + uppercase_chunk_17() + uppercase_chunk_18(), uppercase_chunk_19());
}

proof fn lemma_uppercase_block_2()
    ensures
        canonical(uppercase_block_2()),
        uppercase_block_2().len() > 0,
        uppercase_block_2()[0] == uppercase_chunk_20()[0],
        uppercase_block_2().last() == uppercase_chunk_29().last(),
{
    reveal_with_fuel(canonical, 9);
    assert(canonical(uppercase_chunk_20()));
    assert(canonical(uppercase_chunk_21()));
    assert(canonical(uppercase_chunk_22()));
    assert(canonical(uppercase_chunk_23()));
    assert(canonical(uppercase_chunk_24()));
    assert(canonical(uppercase_chunk_25()));
    assert(canonical(uppercase_chunk_26()));
    assert(canonical(uppercase_chunk_27()));
    assert(canonical(uppercase_chunk_28()));
    assert(canonical(uppercase_chunk_29()));
    lemma_canonical_append(uppercase_chunk_20(), uppercase_chunk_21());
    lemma_canonical_append(uppercase_chunk_20() + uppercase_chunk_21(), uppercase_chunk_22());
    lemma_canonical_append(uppercase_chunk_20() + uppercase_chunk_21() + uppercase_chunk_22(), uppercase_chunk_23());
    lemma_canonical_append(uppercase_chunk_20() + uppercase_chunk_21() + uppercase_chunk_22() + uppercase_chunk_23(), uppercase_chunk_24());
    lemma_canonical_append(uppercase_chunk_20() + uppercase_chunk_21() + uppercase_chunk_22() + uppercase_chunk_23() + uppercase_chunk_24(), uppercase_chunk_25());
    lemma_canonical_append(uppercase_chunk_20() + uppercase_chunk_21() + uppercase_chunk_22() + uppercase_chunk_23() + uppercase_chunk_24() + uppercase_chunk_25(), uppercase_chunk_26());
    lemma_canonical_append(uppercase_chunk_20() + uppercase_chunk_21() + uppercase_chunk_22() + uppercase_chunk_23() + uppercase_chunk_24() + uppercase_chunk_25() + uppercase_chunk_26(), uppercase_chunk_27());
    lemma_canonical_append(uppercase_chunk_20() + uppercase_chunk_21() + uppercase_chunk_22() + uppercase_chunk_23() + uppercase_chunk_24() + uppercase_chunk_25() + uppercase_chunk_26() + uppercase_chunk_27(), uppercase_chunk_28());
    lemma_canonical_append(uppercase_chunk_20() + uppercase_chunk_21() + uppercase_chunk_22() + uppercase_chunk_23() + uppercase_chunk_24() + uppercase_chunk_25() + uppercase_chunk_26() + uppercase_chunk_27() + uppercase_chunk_28(), uppercase_chunk_29());
}

proof fn lemma_uppercase_block_3()
    ensures
        canonical(uppercase_block_3()),
        uppercase_block_3().len() > 0,
        uppercase_block_3()[0] == uppercase_chunk_30()[0],
        uppercase_block_3().last() == uppercase_chunk_39().last(),
{
    reveal_with_fuel(canonical, 9);
    assert(canonical(uppercase_chunk_30()));
    assert(canonical(uppercase_chunk_31()));
    assert(canonical(uppercase_chunk_32()));
    assert(canonical(uppercase_chunk_33()));
    assert(canonical(uppercase_chunk_34()));
    assert(canonical(uppercase_chunk_35()));
    assert(canonical(uppercase_chunk_36()));
    assert(canonical(uppercase_chunk_37()));
    assert(canonical(uppercase_chunk_38()));
    assert(canonical(uppercase_chunk_39()));
    lemma_canonical_append(uppercase_chunk_30(), uppercase_chunk_31());
    lemma_canonical_append(uppercase_chunk_30() + uppercase_chunk_31(), uppercase_chunk_32());
    lemma_canonical_append(uppercase_chunk_30() + uppercase_chunk_31() + uppercase_chunk_32(), uppercase_chunk_33());
    lemma_canonical_append(uppercase_chunk_30() + uppercase_chunk_31() + uppercase_chunk_32() + uppercase_chunk_33(), uppercase_chunk_34());
    lemma_canonical_append(uppercase_chunk_30() + uppercase_chunk_31() + uppercase_chunk_32() + uppercase_chunk_33() + uppercase_chunk_34(), uppercase_chunk_35());
    lemma_canonical_append(uppercase_chunk_30() + uppercase_chunk_31() + uppercase_chunk_32() + uppercase_chunk_33() + uppercase_chunk_34() + uppercase_chunk_35(), uppercase_chunk_36());
    lemma_canonical_append(uppercase_chunk_30() + uppercase_chunk_31() + uppercase_chunk_32() + uppercase_chunk_33() + uppercase_chunk_34() + uppercase_chunk_35() + uppercase_chunk_36(), uppercase_chunk_37());
    lemma_canonical_append(uppercase_chunk_30() + uppercase_chunk_31() + uppercase_chunk_32() + uppercase_chunk_33() + uppercase_chunk_34() + uppercase_chunk_35() + uppercase_chunk_36() + uppercase_chunk_37(), uppercase_chunk_38());
    lemma_canonical_append(uppercase_chunk_30() + uppercase_chunk_31() + uppercase_chunk_32() + uppercase_chunk_33() + uppercase_chunk_34() + uppercase_chunk_35() + uppercase_chunk_36() + uppercase_chunk_37() + uppercase_chunk_38(), uppercase_chunk_39());
}

proof fn lemma_uppercase_block_4()
    ensures
        canonical(uppercase_block_4()),
        uppercase_block_4().len() > 0,
        uppercase_block_4()[0] == uppercase_chunk_40()[0],
        uppercase_block_4().last() == uppercase_chunk_49().last(),
{
    reveal_with_fuel(canonical, 9);
    assert(canonical(uppercase_chunk_40()));
    assert(canonical(uppercase_chunk_41()));
    assert(canonical(uppercase_chunk_42()));
    assert(canonical(uppercase_chunk_43()));
    assert(canonical(uppercase_chunk_44()));
    assert(canonical(uppercase_chunk_45()));
    assert(canonical(uppercase_chunk_46()));
    assert(canonical(uppercase_chunk_47()));
    assert(canonical(uppercase_chunk_48()));
    assert(canonical(uppercase_chunk_49()));
    lemma_canonical_append(uppercase_chunk_40(), uppercase_chunk_41());
    lemma_canonical_append(uppercase_chunk_40() + uppercase_chunk_41(), uppercase_chunk_42());
    lemma_canonical_append(uppercase_chunk_40() + uppercase_chunk_41() + uppercase_chunk_42(), uppercase_chunk_43());
    lemma_canonical_append(uppercase_chunk_40() + uppercase_chunk_41() + uppercase_chunk_42() + uppercase_chunk_43(), uppercase_chunk_44());
    lemma_canonical_append(uppercase_chunk_40() + uppercase_chunk_41() + uppercase_chunk_42() + uppercase_chunk_43() + uppercase_chunk_44(), uppercase_chunk_45());
    lemma_canonical_append(uppercase_chunk_40() + uppercase_chunk_41() + uppercase_chunk_42() + uppercase_chunk_43() + uppercase_chunk_44() + uppercase_chunk_45(), uppercase_chunk_46());
    lemma_canonical_append(uppercase_chunk_40() + uppercase_chunk_41() + uppercase_chunk_42() + uppercase_chunk_43() + uppercase_chunk_44() + uppercase_chunk_45() + uppercase_chunk_46(), uppercase_chunk_47());
    lemma_canonical_append(uppercase_chunk_40() + uppercase_chunk_41() + uppercase_chunk_42() + uppercase_chunk_43() + uppercase_chunk_44() + uppercase_chunk_45() + uppercase_chunk_46() + uppercase_chunk_47(), uppercase_chunk_48());
    lemma_canonical_append(uppercase_chunk_40() + uppercase_chunk_41() + uppercase_chunk_42() + uppercase_chunk_43() + uppercase_chunk_44() + uppercase_chunk_45() + uppercase_chunk_46() + uppercase_chunk_47() + uppercase_chunk_48(), uppercase_chunk_49());
}

proof fn lemma_uppercase_block_5()
    ensures
        canonical(uppercase_block_5()),
        uppercase_block_5().len() > 0,
        uppercase_block_5()[0] == uppercase_chunk_50()[0],
        uppercase_block_5().last() == uppercase_chunk_59().last(),
{
    reveal_with_fuel(canonical, 9);
    assert(canonical(uppercase_chunk_50()));
    assert(canonical(uppercase_chunk_51()));
    assert(canonical(uppercase_chunk_52()));
    assert(canonical(uppercase_chunk_53()));
    assert(canonical(uppercase_chunk_54()));
    assert(canonical(uppercase_chunk_55()));
    assert(canonical(uppercase_chunk_56()));
    assert(canonical(uppercase_chunk_57()));
    assert(canonical(uppercase_chunk_58()));
    assert(canonical(uppercase_chunk_59()));
    lemma_canonical_append(uppercase_chunk_50(), uppercase_chunk_51());
    lemma_canonical_append(uppercase_chunk_50() + uppercase_chunk_51(), uppercase_chunk_52());
    lemma_canonical_append(uppercase_chunk_50() + uppercase_chunk_51() + uppercase_chunk_52(), uppercase_chunk_53());
    lemma_canonical_append(uppercase_chunk_50() + uppercase_chunk_51() + uppercase_chunk_52() + uppercase_chunk_53(), uppercase_chunk_54());
    lemma_canonical_append(uppercase_chunk_50() + uppercase_chunk_51() + uppercase_chunk_52() + uppercase_chunk_53() + uppercase_chunk_54(), uppercase_chunk_55());
    lemma_canonical_append(uppercase_chunk_50() + uppercase_chunk_51() + uppercase_chunk_52() + uppercase_chunk_53() + uppercase_chunk_54() + uppercase_chunk_55(), uppercase_chunk_56());
    lemma_canonical_append(uppercase_chunk_50() + uppercase_chunk_51() + uppercase_chunk_52() + uppercase_chunk_53() + uppercase_chunk_54() + uppercase_chunk_55() + uppercase_chunk_56(), uppercase_chunk_57());
    lemma_canonical_append(uppercase_chunk_50() + uppercase_chunk_51() + uppercase_chunk_52() + uppercase_chunk_53() + uppercase_chunk_54() + uppercase_chunk_55() + uppercase_chunk_56() + uppercase_chunk_57(), uppercase_chunk_58());
    lemma_canonical_append(uppercase_chunk_50() + uppercase_chunk_51() + uppercase_chunk_52() + uppercase_chunk_53() + uppercase_chunk_54() + uppercase_chunk_55() + uppercase_chunk_56() + uppercase_chunk_57() + uppercase_chunk_58(), uppercase_chunk_59());
}

proof fn lemma_uppercase_block_6()
    ensures
        canonical(uppercase_block_6()),
        uppercase_block_6().len() > 0,
        uppercase_block_6()[0] == uppercase_chunk_60()[0],
        uppercase_block_6().last() == uppercase_chunk_69().last(),
{
    reveal_with_fuel(canonical, 9);
    assert(canonical(uppercase_chunk_60()));
    assert(canonical(uppercase_chunk_61()));
    assert(canonical(uppercase_chunk_62()));
    assert(canonical(uppercase_chunk_63()));
    assert(canonical(uppercase_chunk_64()));
    assert(canonical(uppercase_chunk_65()));
    assert(canonical(uppercase_chunk_66()));
    assert(canonical(uppercase_chunk_67()));
    assert(canonical(uppercase_chunk_68()));
    assert(canonical(uppercase_chunk_69()));
    lemma_canonical_append(uppercase_chunk_60(), uppercase_chunk_61());
    lemma_canonical_append(uppercase_chunk_60() + uppercase_chunk_61(), uppercase_chunk_62());
    lemma_canonical_append(uppercase_chunk_60() + uppercase_chunk_61() + uppercase_chunk_62(), uppercase_chunk_63());
    lemma_canonical_append(uppercase_chunk_60() + uppercase_chunk_61() + uppercase_chunk_62() + uppercase_chunk_63(), uppercase_chunk_64());
    lemma_canonical_append(uppercase_chunk_60() + uppercase_chunk_61() + uppercase_chunk_62() + uppercase_chunk_63() + uppercase_chunk_64(), uppercase_chunk_65());
    lemma_canonical_append(uppercase_chunk_60() + uppercase_chunk_61() + uppercase_chunk_62() + uppercase_chunk_63() + uppercase_chunk_64() + uppercase_chunk_65(), uppercase_chunk_66());
    lemma_canonical_append(uppercase_chunk_60() + uppercase_chunk_61() + uppercase_chunk_62() + uppercase_chunk_63() + uppercase_chunk_64() + uppercase_chunk_65() + uppercase_chunk_66(), uppercase_chunk_67());
    lemma_canonical_append(uppercase_chunk_60() + uppercase_chunk_61() + uppercase_chunk_62() + uppercase_chunk_63() + uppercase_chunk_64() + uppercase_chunk_65() + uppercase_chunk_66() + uppercase_chunk_67(), uppercase_chunk_68());
    lemma_canonical_append(uppercase_chunk_60() + uppercase_chunk_61() + uppercase_chunk_62() + uppercase_chunk_63() + uppercase_chunk_64() + uppercase_chunk_65() + uppercase_chunk_66() + uppercase_chunk_67() + uppercase_chunk_68(), uppercase_chunk_69());
}

proof fn lemma_uppercase_block_7()
    ensures
        canonical(uppercase_block_7()),
        uppercase_block_7().len() > 0,
        uppercase_block_7()[0] == uppercase_chunk_70()[0],
        uppercase_block_7().last() == uppercase_chunk_79().last(),
{
    reveal_with_fuel(canonical, 9);
    assert(canonical(uppercase_chunk_70()));
    assert(canonical(uppercase_chunk_71()));
    assert(canonical(uppercase_chunk_72()));
    assert(canonical(uppercase_chunk_73()));
    assert(canonical(uppercase_chunk_74()));
    assert(canonical(uppercase_chunk_75()));
    assert(canonical(uppercase_chunk_76()));
    assert(canonical(uppercase_chunk_77()));
    assert(canonical(uppercase_chunk_78()));
    assert(canonical(uppercase_chunk_79()));
    lemma_canonical_append(uppercase_chunk_70(), uppercase_chunk_71());
    lemma_canonical_append(uppercase_chunk_70() + uppercase_chunk_71(), uppercase_chunk_72());
    lemma_canonical_append(uppercase_chunk_70() + uppercase_chunk_71() + uppercase_chunk_72(), uppercase_chunk_73());
    lemma_canonical_append(uppercase_chunk_70() + uppercase_chunk_71() + uppercase_chunk_72() + uppercase_chunk_73(), uppercase_chunk_74());
    lemma_canonical_append(uppercase_chunk_70() + uppercase_chunk_71() + uppercase_chunk_72() + uppercase_chunk_73() + uppercase_chunk_74(), uppercase_chunk_75());
    lemma_canonical_append(uppercase_chunk_70() + uppercase_chunk_71() + uppercase_chunk_72() + uppercase_chunk_73() + uppercase_chunk_74() + uppercase_chunk_75(), uppercase_chunk_76());
    lemma_canonical_append(uppercase_chunk_70() + uppercase_chunk_71() + uppercase_chunk_72() + uppercase_chunk_73() + uppercase_chunk_74() + uppercase_chunk_75() + uppercase_chunk_76(), uppercase_chunk_77());
    lemma_canonical_append(uppercase_chunk_70() + uppercase_chunk_71() + uppercase_chunk_72() + uppercase_chunk_73() + uppercase_chunk_74() + uppercase_chunk_75() + uppercase_chunk_76() + uppercase_chunk_77(), uppercase_chunk_78());
    lemma_canonical_append(uppercase_chunk_70() + uppercase_chunk_71() + uppercase_chunk_72() + uppercase_chunk_73() + uppercase_chunk_74() + uppercase_chunk_75() + uppercase_chunk_76() + uppercase_chunk_77() + uppercase_chunk_78(), uppercase_chunk_79());
}

proof fn lemma_uppercase_block_8()
    ensures
        canonical(uppercase_block_8()),
        uppercase_block_8().len() > 0,
        uppercase_block_8()[0] == uppercase_chunk_80()[0],
        uppercase_block_8().last() == uppercase_chunk_81().last(),
{
    reveal_with_fuel(canonical, 9);
    assert(canonical(uppercase_chunk_80()));
    assert(canonical(uppercase_chunk_81()));
    lemma_canonical_append(uppercase_chunk_80(), uppercase_chunk_81());
}

#[verifier::rlimit(100)]
pub proof fn lemma_uppercase_canonical()
    ensures
        canonical(uppercase_ranges()),
{
    lemma_uppercase_block_0();
    lemma_uppercase_block_1();
    lemma_uppercase_block_2();
    lemma_uppercase_block_3();
    lemma_uppercase_block_4();
    lemma_uppercase_block_5();
    lemma_uppercase_block_6();
    lemma_uppercase_block_7();
    lemma_uppercase_block_8();
    lemma_canonical_append(uppercase_block_0(), uppercase_block_1());
    lemma_canonical_append(uppercase_block_0() + uppercase_block_1(), uppercase_block_2());
    lemma_canonical_append(uppercase_block_0() + uppercase_block_1() + uppercase_block_2(), uppercase_block_3());
    lemma_canonical_append(uppercase_block_0() + uppercase_block_1() + uppercase_block_2() + uppercase_block_3(), uppercase_block_4());
    lemma_canonical_append(uppercase_block_0() + uppercase_block_1() + uppercase_block_2() + uppercase_block_3() + uppercase_block_4(), uppercase_block_5());
    lemma_canonical_append(uppercase_block_0() + uppercase_block_1() + uppercase_block_2() + uppercase_block_3() + uppercase_block_4() + uppercase_block_5(), uppercase_block_6());
    lemma_canonical_append(uppercase_block_0() + uppercase_block_1() + uppercase_block_2() + uppercase_block_3() + uppercase_block_4() + uppercase_block_5() + uppercase_block_6(), uppercase_block_7());
    lemma_canonical_append(uppercase_block_0() + uppercase_block_1() + uppercase_block_2() + uppercase_block_3() + uppercase_block_4() + uppercase_block_5() + uppercase_block_6() + uppercase_block_7(), uppercase_block_8());
}

fn push_uppercase_chunk_0(v: &mut Vec<ClassUnicodeRange>)
    ensures
        rview(final(v)@) == rview(old(v)@) + uppercase_chunk_0(),
{
    let ghost o = rview(v@);
    push_range(v, '\u{41}', '\u{5A}');
    push_range(v, '\u{C0}', '\u{D6}');
    push_range(v, '\u{D8}', '\u{DE}');
    push_range(v, '\u{100}', '\u{100}');
    push_range(v, '\u{102}', '\u{102}');
    push_range(v, '\u{104}', '\u{104}');
    push_range(v, '\u{106}', '\u{106}');
    push_range(v, '\u{108}', '\u{108}');
    assert(rview(v@) =~= o + uppercase_chunk_0());
}

fn push_uppercase_chunk_1(v: &mut Vec<ClassUnicodeRange>)
    ensures
        rview(final(v)@) == rview(old(v)@) + uppercase_chunk_1(),
{
    let ghost o = rview(v@);
    push_range(v, '\u{10A}', '\u{10A}');
    push_range(v, '\u{10C}', '\u{10C}');
    push_range(v, '\u{10E}', '\u{10E}');
    push_range(v, '\u{110}', '\u{110}');
    push_range(v, '\u{112}', '\u{112}');
    push_range(v, '\u{114}', '\u{114}');
    push_range(v, '\u{116}', '\u{116}');
    push_range(v, '\u{118}', '\u{118}');
    assert(rview(v@) =~= o + uppercase_chunk_1());
}

fn push_uppercase_chunk_2(v: &mut Vec<ClassUnicodeRange>)
    ensures
        rview(final(v)@) == rview(old(v)@) + uppercase_chunk_2(),
{
    let ghost o = rview(v@);
    push_range(v, '\u{11A}', '\u{11A}');
    push_range(v, '\u{11C}', '\u{11C}');
    push_range(v, '\u{11E}', '\u{11E}');
    push_range(v, '\u{120}', '\u{120}');
    push_range(v, '\u{122}', '\u{122}');
    push_range(v, '\u{124}', '\u{124}');
    push_range(v, '\u{126}', '\u{126}');
    push_range(v, '\u{128}', '\u{128}');
    assert(rview(v@) =~= o + uppercase_chunk_2());
}

fn push_uppercase_chunk_3(v: &mut Vec<ClassUnicodeRange>)
    ensures
        rview(final(v)@) == rview(old(v)@) + uppercase_chunk_3(),
{
    let ghost o = rview(v@);
    push_range(v, '\u{12A}', '\u{12A}');
    push_range(v, '\u{12C}', '\u{12C}');
    push_range(v, '\u{12E}', '\u{12E}');
    push_range(v, '\u{130}', '\u{130}');
    push_range(v, '\u{132}', '\u{132}');
    push_range(v, '\u{134}', '\u{134}');
    push_range(v, '\u{136}', '\u{136}');
    push_range(v, '\u{139}', '\u{139}');
    assert(rview(v@) =~= o + uppercase_chunk_3());
}

fn push_uppercase_chunk_4(v: &mut Vec<ClassUnicodeRange>)
    ensures
        rview(final(v)@) == rview(old(v)@) + uppercase_chunk_4(),
{
    let ghost o = rview(v@);
    push_range(v, '\u{13B}', '\u{13B}');
    push_range(v, '\u{13D}', '\u{13D}');
    push_range(v, '\u{13F}', '\u{13F}');
    push_range(v, '\u{141}', '\u{141}');
    push_range(v, '\u{143}', '\u{143}');
    push_range(v, '\u{145}', '\u{145}');
    push_range(v, '\u{147}', '\u{147}');
    push_range(v, '\u{14A}', '\u{14A}');
    assert(rview(v@) =~= o + uppercase_chunk_4());
}

fn push_uppercase_chunk_5(v: &mut Vec<ClassUnicodeRange>)
    ensures
        rview(final(v)@) == rview(old(v)@) + uppercase_chunk_5(),
{
    let ghost o = rview(v@);
    push_range(v, '\u{14C}', '\u{14C}');
    push_range(v, '\u{14E}', '\u{14E}');
    push_range(v, '\u{150}', '\u{150}');
    push_range(v, '\u{152}', '\u{152}');
    push_range(v, '\u{154}', '\u{154}');
    push_range(v, '\u{156}', '\u{156}');
    push_range(v, '\u{158}', '\u{158}');
    push_range(v, '\u{15A}', '\u{15A}');
    assert(rview(v@) =~= o + uppercase_chunk_5());
}

fn push_uppercase_chunk_6(v: &mut Vec<ClassUnicodeRange>)
    ensures
        rview(final(v)@) == rview(old(v)@) + uppercase_chunk_6(),
{
    let ghost o = rview(v@);
    push_range(v, '\u{15C}', '\u{15C}');
    push_range(v, '\u{15E}', '\u{15E}');
    push_range(v, '\u{160}', '\u{160}');
    push_range(v, '\u{162}', '\u{162}');
    push_range(v, '\u{164}', '\u{164}');
    push_range(v, '\u{166}', '\u{166}');
    push_range(v, '\u{168}', '\u{168}');
    push_range(v, '\u{16A}', '\u{16A}');
    assert(rview(v@) =~= o + uppercase_chunk_6());
}

fn push_uppercase_chunk_7(v: &mut Vec<ClassUnicodeRange>)
    ensures
        rview(final(v)@) == rview(old(v)@) + uppercase_chunk_7(),
{
    let ghost o = rview(v@);
    push_range(v, '\u{16C}', '\u{16C}');
    push_range(v, '\u{16E}', '\u{16E}');
    push_range(v, '\u{170}', '\u{170}');
    push_range(v, '\u{172}', '\u{172}');
    push_range(v, '\u{174}', '\u{174}');
    push_range(v, '\u{176}', '\u{176}');
    push_range(v, '\u{178}', '\u{179}');
    push_range(v, '\u{17B}', '\u{17B}');
    assert(rview(v@) =~= o + uppercase_chunk_7());
}

fn push_uppercase_chunk_8(v: &mut Vec<ClassUnicodeRange>)
    ensures
        rview(final(v)@) == rview(old(v)@) + uppercase_chunk_8(),
{
    let ghost o = rview(v@);
    push_range(v, '\u{17D}', '\u{17D}');
    push_range(v, '\u{181}', '\u{182}');
    push_range(v, '\u{184}', '\u{184}');
    push_range(v, '\u{186}', '\u{187}');
    push_range(v, '\u{189}', '\u{18B}');
    push_range(v, '\u{18E}', '\u{191}');
    push_range(v, '\u{193}', '\u{194}');
    push_range(v, '\u{196}', '\u{198}');
    assert(rview(v@) =~= o + uppercase_chunk_8());
}

fn push_uppercase_chunk_9(v: &mut Vec<ClassUnicodeRange>)
    ensures
        rview(final(v)@) == rview(old(v)@) + uppercase_chunk_9(),
{
    let ghost o = rview(v@);
    push_range(v, '\u{19C}', '\u{19D}');
    push_range(v, '\u{19F}', '\u{1A0}');
    push_range(v, '\u{1A2}', '\u{1A2}');
    push_range(v, '\u{1A4}', '\u{1A4}');
    push_range(v, '\u{1A6}', '\u{1A7}');
    push_range(v, '\u{1A9}', '\u{1A9}');
    push_range(v, '\u{1AC}', '\u{1AC}');
    push_range(v, '\u{1AE}', '\u{1AF}');
    assert(rview(v@) =~= o + uppercase_chunk_9());
}

fn push_uppercase_chunk_10(v: &mut Vec<ClassUnicodeRange>)
    ensures
        rview(final(v)@) == rview(old(v)@) + uppercase_chunk_10(),
{
    let ghost o = rview(v@);
    push_range(v, '\u{1B1}', '\u{1B3}');
    push_range(v, '\u{1B5}', '\u{1B5}');
    push_range(v, '\u{1B7}', '\u{1B8}');
    push_range(v, '\u{1BC}', '\u{1BC}');
    push_range(v, '\u{1C4}', '\u{1C4}');
    push_range(v, '\u{1C7}', '\u{1C7}');
    push_range(v, '\u{1CA}', '\u{1CA}');
    push_range(v, '\u{1CD}', '\u{1CD}');
    assert(rview(v@) =~= o + uppercase_chunk_10());
}

fn push_uppercase_chunk_11(v: &mut Vec<ClassUnicodeRange>)
    ensures
        rview(final(v)@) == rview(old(v)@) + uppercase_chunk_11(),
{
    let ghost o = rview(v@);
    push_range(v, '\u{1CF}', '\u{1CF}');
    push_range(v, '\u{1D1}', '\u{1D1}');
    push_range(v, '\u{1D3}', '\u{1D3}');
    push_range(v, '\u{1D5}', '\u{1D5}');
    push_range(v, '\u{1D7}', '\u{1D7}');
    push_range(v, '\u{1D9}', '\u{1D9}');
    push_range(v, '\u{1DB}', '\u{1DB}');
    push_range(v, '\u{1DE}', '\u{1DE}');
    assert(rview(v@) =~= o + uppercase_chunk_11());
}

fn push_uppercase_chunk_12(v: &mut Vec<ClassUnicodeRange>)
    ensures
        rview(final(v)@) == rview(old(v)@) + uppercase_chunk_12(),
{
    let ghost o = rview(v@);
    push_range(v, '\u{1E0}', '\u{1E0}');
    push_range(v, '\u{1E2}', '\u{1E2}');
    push_range(v, '\u{1E4}', '\u{1E4}');
    push_range(v, '\u{1E6}', '\u{1E6}');
    push_range(v, '\u{1E8}', '\u{1E8}');
    push_range(v, '\u{1EA}', '\u{1EA}');
    push_range(v, '\u{1EC}', '\u{1EC}');
    push_range(v, '\u{1EE}', '\u{1EE}');
    assert(rview(v@) =~= o + uppercase_chunk_12());
}

fn push_uppercase_chunk_13(v: &mut Vec<ClassUnicodeRange>)
    ensures
        rview(final(v)@) == rview(old(v)@) + uppercase_chunk_13(),
{
    let ghost o = rview(v@);
    push_range(v, '\u{1F1}', '\u{1F1}');
    push_range(v, '\u{1F4}', '\u{1F4}');
    push_range(v, '\u{1F6}', '\u{1F8}');
    push_range(v, '\u{1FA}', '\u{1FA}');
    push_range(v, '\u{1FC}', '\u{1FC}');
    push_range(v, '\u{1FE}', '\u{1FE}');
    push_range(v, '\u{200}', '\u{200}');
    push_range(v, '\u{202}', '\u{202}');
    assert(rview(v@) =~= o + uppercase_chunk_13());
}

fn push_uppercase_chunk_14(v: &mut Vec<ClassUnicodeRange>)
    ensures
        rview(final(v)@) == rview(old(v)@) + uppercase_chunk_14(),
{
    let ghost o = rview(v@);
    push_range(v, '\u{204}', '\u{204}');
    push_range(v, '\u{206}', '\u{206}');
    push_range(v, '\u{208}', '\u{208}');
    push_range(v, '\u{20A}', '\u{20A}');
    push_range(v, '\u{20C}', '\u{20C}');
    push_range(v, '\u{20E}', '\u{20E}');
    push_range(v, '\u{210}', '\u{210}');
    push_range(v, '\u{212}', '\u{212}');
    assert(rview(v@) =~= o + uppercase_chunk_14());
}

fn push_uppercase_chunk_15(v: &mut Vec<ClassUnicodeRange>)
    ensures
        rview(final(v)@) == rview(old(v)@) + uppercase_chunk_15(),
{
    let ghost o = rview(v@);
    push_range(v, '\u{214}', '\u{214}');
    push_range(v, '\u{216}', '\u{216}');
    push_range(v, '\u{218}', '\u{218}');
    push_range(v, '\u{21A}', '\u{21A}');
    push_range(v, '\u{21C}', '\u{21C}');
    push_range(v, '\u{21E}', '\u{21E}');
    push_range(v, '\u{220}', '\u{220}');
    push_range(v, '\u{222}', '\u{222}');
    assert(rview(v@) =~= o + uppercase_chunk_15());
}

fn push_uppercase_chunk_16(v: &mut Vec<ClassUnicodeRange>)
    ensures
        rview(final(v)@) == rview(old(v)@) + uppercase_chunk_16(),
{
    let ghost o = rview(v@);
    push_range(v, '\u{224}', '\u{224}');
    push_range(v, '\u{226}', '\u{226}');
    push_range(v, '\u{228}', '\u{228}');
    push_range(v, '\u{22A}', '\u{22A}');
    push_range(v, '\u{22C}', '\u{22C}');
    push_range(v, '\u{22E}', '\u{22E}');
    push_range(v, '\u{230}', '\u{230}');
    push_range(v, '\u{232}', '\u{232}');
    assert(rview(v@) =~= o + uppercase_chunk_16());
}

fn push_uppercase_chunk_17(v: &mut Vec<ClassUnicodeRange>)
    ensures
        rview(final(v)@) == rview(old(v)@) + uppercase_chunk_17(),
{
    let ghost o = rview(v@);
    push_range(v, '\u{23A}', '\u{23B}');
    push_range(v, '\u{23D}', '\u{23E}');
    push_range(v, '\u{241}', '\u{241}');
    push_range(v, '\u{243}', '\u{246}');
    push_range(v, '\u{248}', '\u{248}');
    push_range(v, '\u{24A}', '\u{24A}');
    push_range(v, '\u{24C}', '\u{24C}');
    push_range(v, '\u{24E}', '\u{24E}');
    assert(rview(v@) =~= o + uppercase_chunk_17());
}

fn push_uppercase_chunk_18(v: &mut Vec<ClassUnicodeRange>)
    ensures
        rview(final(v)@) == rview(old(v)@) + uppercase_chunk_18(),
{
    let ghost o = rview(v@);
    push_range(v, '\u{370}', '\u{370}');
    push_range(v, '\u{372}', '\u{372}');
    push_range(v, '\u{376}', '\u{376}');
    push_range(v, '\u{37F}', '\u{37F}');
    push_range(v, '\u{386}', '\u{386}');
    push_range(v, '\u{388}', '\u{38A}');
    push_range(v, '\u{38C}', '\u{38C}');
    push_range(v, '\u{38E}', '\u{38F}');
    assert(rview(v@) =~= o + uppercase_chunk_18());
}

fn push_uppercase_chunk_19(v: &mut Vec<ClassUnicodeRange>)
    ensures
        rview(final(v)@) == rview(old(v)@) + uppercase_chunk_19(),
{
    let ghost o = rview(v@);
    push_range(v, '\u{391}', '\u{3A1}');
    push_range(v, '\u{3A3}', '\u{3AB}');
    push_range(v, '\u{3CF}', '\u{3CF}');
    push_range(v, '\u{3D2}', '\u{3D4}');
    push_range(v, '\u{3D8}', '\u{3D8}');
    push_range(v, '\u{3DA}', '\u{3DA}');
    push_range(v, '\u{3DC}', '\u{3DC}');
    push_range(v, '\u{3DE}', '\u{3DE}');
    assert(rview(v@) =~= o + uppercase_chunk_19());
}

fn push_uppercase_chunk_20(v: &mut Vec<ClassUnicodeRange>)
    ensures
        rview(final(v)@) == rview(old(v)@) + uppercase_chunk_20(),
{
    let ghost o = rview(v@);
    push_range(v, '\u{3E0}', '\u{3E0}');
    push_range(v, '\u{3E2}', '\u{3E2}');
    push_range(v, '\u{3E4}', '\u{3E4}');
    push_range(v, '\u{3E6}', '\u{3E6}');
    push_range(v, '\u{3E8}', '\u{3E8}');
    push_range(v, '\u{3EA}', '\u{3EA}');
    push_range(v, '\u{3EC}', '\u{3EC}');
    push_range(v, '\u{3EE}', '\u{3EE}');
    assert(rview(v@) =~= o + uppercase_chunk_20());
}

fn push_uppercase_chunk_21(v: &mut Vec<ClassUnicodeRange>)
    ensures
        rview(final(v)@) == rview(old(v)@) + uppercase_chunk_21(),
{
    let ghost o = rview(v@);
    push_range(v, '\u{3F4}', '\u{3F4}');
    push_range(v, '\u{3F7}', '\u{3F7}');
    push_range(v, '\u{3F9}', '\u{3FA}');
    push_range(v, '\u{3FD}', '\u{42F}');
    push_range(v, '\u{460}', '\u{460}');
    push_range(v, '\u{462}', '\u{462}');
    push_range(v, '\u{464}', '\u{464}');
    push_range(v, '\u{466}', '\u{466}');
    assert(rview(v@) =~= o + uppercase_chunk_21());
}

fn push_uppercase_chunk_22(v: &mut Vec<ClassUnicodeRange>)
    ensures
        rview(final(v)@) == rview(old(v)@) + uppercase_chunk_22(),
{
    let ghost o = rview(v@);
    push_range(v, '\u{468}', '\u{468}');
    push_range(v, '\u{46A}', '\u{46A}');
    push_range(v, '\u{46C}', '\u{46C}');
    push_range(v, '\u{46E}', '\u{46E}');
    push_range(v, '\u{470}', '\u{470}');
    push_range(v, '\u{472}', '\u{472}');
    push_range(v, '\u{474}', '\u{474}');
    push_range(v, '\u{476}', '\u{476}');
    assert(rview(v@) =~= o + uppercase_chunk_22());
}

fn push_uppercase_chunk_23(v: &mut Vec<ClassUnicodeRange>)
    ensures
        rview(final(v)@) == rview(old(v)@) + uppercase_chunk_23(),
{
    let ghost o = rview(v@);
    push_range(v, '\u{478}', '\u{478}');
    push_range(v, '\u{47A}', '\u{47A}');
    push_range(v, '\u{47C}', '\u{47C}');
    push_range(v, '\u{47E}', '\u{47E}');
    push_range(v, '\u{480}', '\u{480}');
    push_range(v, '\u{48A}', '\u{48A}');
    push_range(v, '\u{48C}', '\u{48C}');
    push_range(v, '\u{48E}', '\u{48E}');
    assert(rview(v@) =~= o + uppercase_chunk_23());
}

fn push_uppercase_chunk_24(v: &mut Vec<ClassUnicodeRange>)
    ensures
        rview(final(v)@) == rview(old(v)@) + uppercase_chunk_24(),
{
    let ghost o = rview(v@);
    push_range(v, '\u{490}', '\u{490}');
    push_range(v, '\u{492}', '\u{492}');
    push_range(v, '\u{494}', '\u{494}');
    push_range(v, '\u{496}', '\u{496}');
    push_range(v, '\u{498}', '\u{498}');
    push_range(v, '\u{49A}', '\u{49A}');
    push_range(v, '\u{49C}', '\u{49C}');
    push_range(v, '\u{49E}', '\u{49E}');
    assert(rview(v@) =~= o + uppercase_chunk_24());
}

fn push_uppercase_chunk_25(v: &mut Vec<ClassUnicodeRange>)
    ensures
        rview(final(v)@) == rview(old(v)@) + uppercase_chunk_25(),
{
    let ghost o = rview(v@);
    push_range(v, '\u{4A0}', '\u{4A0}');
    push_range(v, '\u{4A2}', '\u{4A2}');
    push_range(v, '\u{4A4}', '\u{4A4}');
    push_range(v, '\u{4A6}', '\u{4A6}');
    push_range(v, '\u{4A8}', '\u{4A8}');
    push_range(v, '\u{4AA}', '\u{4AA}');
    push_range(v, '\u{4AC}', '\u{4AC}');
    push_range(v, '\u{4AE}', '\u{4AE}');
    assert(rview(v@) =~= o + uppercase_chunk_25());
}

fn push_uppercase_chunk_26(v: &mut Vec<ClassUnicodeRange>)
    ensures
        rview(final(v)@) == rview(old(v)@) + uppercase_chunk_26(),
{
    let ghost o = rview(v@);
    push_range(v, '\u{4B0}', '\u{4B0}');
    push_range(v, '\u{4B2}', '\u{4B2}');
    push_range(v, '\u{4B4}', '\u{4B4}');
    push_range(v, '\u{4B6}', '\u{4B6}');
    push_range(v, '\u{4B8}', '\u{4B8}');
    push_range(v, '\u{4BA}', '\u{4BA}');
    push_range(v, '\u{4BC}', '\u{4BC}');
    push_range(v, '\u{4BE}', '\u{4BE}');
    assert(rview(v@) =~= o + uppercase_chunk_26());
}

fn push_uppercase_chunk_27(v: &mut Vec<ClassUnicodeRange>)
    ensures
        rview(final(v)@) == rview(old(v)@) + uppercase_chunk_27(),
{
    let ghost o = rview(v@);
    push_range(v, '\u{4C0}', '\u{4C1}');
    push_range(v, '\u{4C3}', '\u{4C3}');
    push_range(v, '\u{4C5}', '\u{4C5}');
    push_range(v, '\u{4C7}', '\u{4C7}');
    push_range(v, '\u{4C9}', '\u{4C9}');
    push_range(v, '\u{4CB}', '\u{4CB}');
    push_range(v, '\u{4CD}', '\u{4CD}');
    push_range(v, '\u{4D0}', '\u{4D0}');
    assert(rview(v@) =~= o + uppercase_chunk_27());
}

fn push_uppercase_chunk_28(v: &mut Vec<ClassUnicodeRange>)
    ensures
        rview(final(v)@) == rview(old(v)@) + uppercase_chunk_28(),
{
    let ghost o = rview(v@);
    push_range(v, '\u{4D2}', '\u{4D2}');
    push_range(v, '\u{4D4}', '\u{4D4}');
    push_range(v, '\u{4D6}', '\u{4D6}');
    push_range(v, '\u{4D8}', '\u{4D8}');
    push_range(v, '\u{4DA}', '\u{4DA}');
    push_range(v, '\u{4DC}', '\u{4DC}');
    push_range(v, '\u{4DE}', '\u{4DE}');
    push_range(v, '\u{4E0}', '\u{4E0}');
    assert(rview(v@) =~= o + uppercase_chunk_28());
}

fn push_uppercase_chunk_29(v: &mut Vec<ClassUnicodeRange>)
    ensures
        rview(final(v)@) == rview(old(v)@) + uppercase_chunk_29(),
{
    let ghost o = rview(v@);
    push_range(v, '\u{4E2}', '\u{4E2}');
    push_range(v, '\u{4E4}', '\u{4E4}');
    push_range(v, '\u{4E6}', '\u{4E6}');
    push_range(v, '\u{4E8}', '\u{4E8}');
    push_range(v, '\u{4EA}', '\u{4EA}');
    push_range(v, '\u{4EC}', '\u{4EC}');
    push_range(v, '\u{4EE}', '\u{4EE}');
    push_range(v, '\u{4F0}', '\u{4F0}');
    assert(rview(v@) =~= o + uppercase_chunk_29());
}

fn push_uppercase_chunk_30(v: &mut Vec<ClassUnicodeRange>)
    ensures
        rview(final(v)@) == rview(old(v)@) + uppercase_chunk_30(),
{
    let ghost o = rview(v@);
    push_range(v, '\u{4F2}', '\u{4F2}');
    push_range(v, '\u{4F4}', '\u{4F4}');
    push_range(v, '\u{4F6}', '\u{4F6}');
    push_range(v, '\u{4F8}', '\u{4F8}');
    push_range(v, '\u{4FA}', '\u{4FA}');
    push_range(v, '\u{4FC}', '\u{4FC}');
    push_range(v, '\u{4FE}', '\u{4FE}');
    push_range(v, '\u{500}', '\u{500}');
    assert(rview(v@) =~= o + uppercase_chunk_30());
}

fn push_uppercase_chunk_31(v: &mut Vec<ClassUnicodeRange>)
    ensures
        rview(final(v)@) == rview(old(v)@) + uppercase_chunk_31(),
{
    let ghost o = rview(v@);
    push_range(v, '\u{502}', '\u{502}');
    push_range(v, '\u{504}', '\u{504}');
    push_range(v, '\u{506}', '\u{506}');
    push_range(v, '\u{508}', '\u{508}');
    push_range(v, '\u{50A}', '\u{50A}');
    push_range(v, '\u{50C}', '\u{50C}');
    push_range(v, '\u{50E}', '\u{50E}');
    push_range(v, '\u{510}', '\u{510}');
    assert(rview(v@) =~= o + uppercase_chunk_31());
}

fn push_uppercase_chunk_32(v: &mut Vec<ClassUnicodeRange>)
    ensures
        rview(final(v)@) == rview(old(v)@) + uppercase_chunk_32(),
{
    let ghost o = rview(v@);
    push_range(v, '\u{512}', '\u{512}');
    push_range(v, '\u{514}', '\u{514}');
    push_range(v, '\u{516}', '\u{516}');
    push_range(v, '\u{518}', '\u{518}');
    push_range(v, '\u{51A}', '\u{51A}');
    push_range(v, '\u{51C}', '\u{51C}');
    push_range(v, '\u{51E}', '\u{51E}');
    push_range(v, '\u{520}', '\u{520}');
    assert(rview(v@) =~= o + uppercase_chunk_32());
}

fn push_uppercase_chunk_33(v: &mut Vec<ClassUnicodeRange>)
    ensures
        rview(final(v)@) == rview(old(v)@) + uppercase_chunk_33(),
{
    let ghost o = rview(v@);
    push_range(v, '\u{522}', '\u{522}');
    push_range(v, '\u{524}', '\u{524}');
    push_range(v, '\u{526}', '\u{526}');
    push_range(v, '\u{528}', '\u{528}');
    push_range(v, '\u{52A}', '\u{52A}');
    push_range(v, '\u{52C}', '\u{52C}');
    push_range(v, '\u{52E}', '\u{52E}');
    push_range(v, '\u{531}', '\u{556}');
    assert(rview(v@) =~= o + uppercase_chunk_33());
}

fn push_uppercase_chunk_34(v: &mut Vec<ClassUnicodeRange>)
    ensures
        rview(final(v)@) == rview(old(v)@) + uppercase_chunk_34(),
{
    let ghost o = rview(v@);
    push_range(v, '\u{10A0}', '\u{10C5}');
    push_range(v, '\u{10C7}', '\u{10C7}');
    push_range(v, '\u{10CD}', '\u{10CD}');
    push_range(v, '\u{13A0}', '\u{13F5}');
    push_range(v, '\u{1C89}', '\u{1C89}');
    push_range(v, '\u{1C90}', '\u{1CBA}');
    push_range(v, '\u{1CBD}', '\u{1CBF}');
    push_range(v, '\u{1E00}', '\u{1E00}');
    assert(rview(v@) =~= o + uppercase_chunk_34());
}

fn push_uppercase_chunk_35(v: &mut Vec<ClassUnicodeRange>)
    ensures
        rview(final(v)@) == rview(old(v)@) + uppercase_chunk_35(),
{
    let ghost o = rview(v@);
    push_range(v, '\u{1E02}', '\u{1E02}');
    push_range(v, '\u{1E04}', '\u{1E04}');
    push_range(v, '\u{1E06}', '\u{1E06}');
    push_range(v, '\u{1E08}', '\u{1E08}');
    push_range(v, '\u{1E0A}', '\u{1E0A}');
    push_range(v, '\u{1E0C}', '\u{1E0C}');
    push_range(v, '\u{1E0E}', '\u{1E0E}');
    push_range(v, '\u{1E10}', '\u{1E10}');
    assert(rview(v@) =~= o + uppercase_chunk_35());
}

fn push_uppercase_chunk_36(v: &mut Vec<ClassUnicodeRange>)
    ensures
        rview(final(v)@) == rview(old(v)@) + uppercase_chunk_36(),
{
    let ghost o = rview(v@);
    push_range(v, '\u{1E12}', '\u{1E12}');
    push_range(v, '\u{1E14}', '\u{1E14}');
    push_range(v, '\u{1E16}', '\u{1E16}');
    push_range(v, '\u{1E18}', '\u{1E18}');
    push_range(v, '\u{1E1A}', '\u{1E1A}');
    push_range(v, '\u{1E1C}', '\u{1E1C}');
    push_range(v, '\u{1E1E}', '\u{1E1E}');
    push_range(v, '\u{1E20}', '\u{1E20}');
    assert(rview(v@) =~= o + uppercase_chunk_36());
}

fn push_uppercase_chunk_37(v: &mut Vec<ClassUnicodeRange>)
    ensures
        rview(final(v)@) == rview(old(v)@) + uppercase_chunk_37(),
{
    let ghost o = rview(v@);
    push_range(v, '\u{1E22}', '\u{1E22}');
    push_range(v, '\u{1E24}', '\u{1E24}');
    push_range(v, '\u{1E26}', '\u{1E26}');
    push_range(v, '\u{1E28}', '\u{1E28}');
    push_range(v, '\u{1E2A}', '\u{1E2A}');
    push_range(v, '\u{1E2C}', '\u{1E2C}');
    push_range(v, '\u{1E2E}', '\u{1E2E}');
    push_range(v, '\u{1E30}', '\u{1E30}');
    assert(rview(v@) =~= o + uppercase_chunk_37());
}

fn push_uppercase_chunk_38(v: &mut Vec<ClassUnicodeRange>)
    ensures
        rview(final(v)@) == rview(old(v)@) + uppercase_chunk_38(),
{
    let ghost o = rview(v@);
    push_range(v, '\u{1E32}', '\u{1E32}');
    push_range(v, '\u{1E34}', '\u{1E34}');
    push_range(v, '\u{1E36}', '\u{1E36}');
    push_range(v, '\u{1E38}', '\u{1E38}');
    push_range(v, '\u{1E3A}', '\u{1E3A}');
    push_range(v, '\u{1E3C}', '\u{1E3C}');
    push_range(v, '\u{1E3E}', '\u{1E3E}');
    push_range(v, '\u{1E40}', '\u{1E40}');
    assert(rview(v@) =~= o + uppercase_chunk_38());
}

fn push_uppercase_chunk_39(v: &mut Vec<ClassUnicodeRange>)
    ensures
        rview(final(v)@) == rview(old(v)@) + uppercase_chunk_39(),
{
    let ghost o = rview(v@);
    push_range(v, '\u{1E42}', '\u{1E42}');
    push_range(v, '\u{1E44}', '\u{1E44}');
    push_range(v, '\u{1E46}', '\u{1E46}');
    push_range(v, '\u{1E48}', '\u{1E48}');
    push_range(v, '\u{1E4A}', '\u{1E4A}');
    push_range(v, '\u{1E4C}', '\u{1E4C}');
    push_range(v, '\u{1E4E}', '\u{1E4E}');
    push_range(v, '\u{1E50}', '\u{1E50}');
    assert(rview(v@) =~= o + uppercase_chunk_39());
}

fn push_uppercase_chunk_40(v: &mut Vec<ClassUnicodeRange>)
    ensures
        rview(final(v)@) == rview(old(v)@) + uppercase_chunk_40(),
{
    let ghost o = rview(v@);
    push_range(v, '\u{1E52}', '\u{1E52}');
    push_range(v, '\u{1E54}', '\u{1E54}');
    push_range(v, '\u{1E56}', '\u{1E56}');
    push_range(v, '\u{1E58}', '\u{1E58}');
    push_range(v, '\u{1E5A}', '\u{1E5A}');
    push_range(v, '\u{1E5C}', '\u{1E5C}');
    push_range(v, '\u{1E5E}', '\u{1E5E}');
    push_range(v, '\u{1E60}', '\u{1E60}');
    assert(rview(v@) =~= o + uppercase_chunk_40());
}

fn push_uppercase_chunk_41(v: &mut Vec<ClassUnicodeRange>)
    ensures
        rview(final(v)@) == rview(old(v)@) + uppercase_chunk_41(),
{
    let ghost o = rview(v@);
    push_range(v, '\u{1E62}', '\u{1E62}');
    push_range(v, '\u{1E64}', '\u{1E64}');
    push_range(v, '\u{1E66}', '\u{1E66}');
    push_range(v, '\u{1E68}', '\u{1E68}');
    push_range(v, '\u{1E6A}', '\u{1E6A}');
    push_range(v, '\u{1E6C}', '\u{1E6C}');
    push_range(v, '\u{1E6E}', '\u{1E6E}');
    push_range(v, '\u{1E70}', '\u{1E70}');
    assert(rview(v@) =~= o + uppercase_chunk_41());
}

fn push_uppercase_chunk_42(v: &mut Vec<ClassUnicodeRange>)
    ensures
        rview(final(v)@) == rview(old(v)@) + uppercase_chunk_42(),
{
    let ghost o = rview(v@);
    push_range(v, '\u{1E72}', '\u{1E72}');
    push_range(v, '\u{1E74}', '\u{1E74}');
    push_range(v, '\u{1E76}', '\u{1E76}');
    push_range(v, '\u{1E78}', '\u{1E78}');
    push_range(v, '\u{1E7A}', '\u{1E7A}');
    push_range(v, '\u{1E7C}', '\u{1E7C}');
    push_range(v, '\u{1E7E}', '\u{1E7E}');
    push_range(v, '\u{1E80}', '\u{1E80}');
    assert(rview(v@) =~= o + uppercase_chunk_42());
}

fn push_uppercase_chunk_43(v: &mut Vec<ClassUnicodeRange>)
    ensures
        rview(final(v)@) == rview(old(v)@) + uppercase_chunk_43(),
{
    let ghost o = rview(v@);
    push_range(v, '\u{1E82}', '\u{1E82}');
    push_range(v, '\u{1E84}', '\u{1E84}');
    push_range(v, '\u{1E86}', '\u{1E86}');
    push_range(v, '\u{1E88}', '\u{1E88}');
    push_range(v, '\u{1E8A}', '\u{1E8A}');
    push_range(v, '\u{1E8C}', '\u{1E8C}');
    push_range(v, '\u{1E8E}', '\u{1E8E}');
    push_range(v, '\u{1E90}', '\u{1E90}');
    assert(rview(v@) =~= o + uppercase_chunk_43());
}

fn push_uppercase_chunk_44(v: &mut Vec<ClassUnicodeRange>)
    ensures
        rview(final(v)@) == rview(old(v)@) + uppercase_chunk_44(),
{
    let ghost o = rview(v@);
    push_range(v, '\u{1E92}', '\u{1E92}');
    push_range(v, '\u{1E94}', '\u{1E94}');
    push_range(v, '\u{1E9E}', '\u{1E9E}');
    push_range(v, '\u{1EA0}', '\u{1EA0}');
    push_range(v, '\u{1EA2}', '\u{1EA2}');
    push_range(v, '\u{1EA4}', '\u{1EA4}');
    push_range(v, '\u{1EA6}', '\u{1EA6}');
    push_range(v, '\u{1EA8}', '\u{1EA8}');
    assert(rview(v@) =~= o + uppercase_chunk_44());
}

fn push_uppercase_chunk_45(v: &mut Vec<ClassUnicodeRange>)
    ensures
        rview(final(v)@) == rview(old(v)@) + uppercase_chunk_45(),
{
    let ghost o = rview(v@);
    push_range(v, '\u{1EAA}', '\u{1EAA}');
    push_range(v, '\u{1EAC}', '\u{1EAC}');
    push_range(v, '\u{1EAE}', '\u{1EAE}');
    push_range(v, '\u{1EB0}', '\u{1EB0}');
    push_range(v, '\u{1EB2}', '\u{1EB2}');
    push_range(v, '\u{1EB4}', '\u{1EB4}');
    push_range(v, '\u{1EB6}', '\u{1EB6}');
    push_range(v, '\u{1EB8}', '\u{1EB8}');
    assert(rview(v@) =~= o + uppercase_chunk_45());
}

fn push_uppercase_chunk_46(v: &mut Vec<ClassUnicodeRange>)
    ensures
        rview(final(v)@) == rview(old(v)@) + uppercase_chunk_46(),
{
    let ghost o = rview(v@);
    push_range(v, '\u{1EBA}', '\u{1EBA}');
    push_range(v, '\u{1EBC}', '\u{1EBC}');
    push_range(v, '\u{1EBE}', '\u{1EBE}');
    push_range(v, '\u{1EC0}', '\u{1EC0}');
    push_range(v, '\u{1EC2}', '\u{1EC2}');
    push_range(v, '\u{1EC4}', '\u{1EC4}');
    push_range(v, '\u{1EC6}', '\u{1EC6}');
    push_range(v, '\u{1EC8}', '\u{1EC8}');
    assert(rview(v@) =~= o + uppercase_chunk_46());
}

fn push_uppercase_chunk_47(v: &mut Vec<ClassUnicodeRange>)
    ensures
        rview(final(v)@) == rview(old(v)@) + uppercase_chunk_47(),
{
    let ghost o = rview(v@);
    push_range(v, '\u{1ECA}', '\u{1ECA}');
    push_range(v, '\u{1ECC}', '\u{1ECC}');
    push_range(v, '\u{1ECE}', '\u{1ECE}');
    push_range(v, '\u{1ED0}', '\u{1ED0}');
    push_range(v, '\u{1ED2}', '\u{1ED2}');
    push_range(v, '\u{1ED4}', '\u{1ED4}');
    push_range(v, '\u{1ED6}', '\u{1ED6}');
    push_range(v, '\u{1ED8}', '\u{1ED8}');
    assert(rview(v@) =~= o + uppercase_chunk_47());
}

fn push_uppercase_chunk_48(v: &mut Vec<ClassUnicodeRange>)
    ensures
        rview(final(v)@) == rview(old(v)@) + uppercase_chunk_48(),
{
    let ghost o = rview(v@);
    push_range(v, '\u{1EDA}', '\u{1EDA}');
    push_range(v, '\u{1EDC}', '\u{1EDC}');
    push_range(v, '\u{1EDE}', '\u{1EDE}');
    push_range(v, '\u{1EE0}', '\u{1EE0}');
    push_range(v, '\u{1EE2}', '\u{1EE2}');
    push_range(v, '\u{1EE4}', '\u{1EE4}');
    push_range(v, '\u{1EE6}', '\u{1EE6}');
    push_range(v, '\u{1EE8}', '\u{1EE8}');
    assert(rview(v@) =~= o + uppercase_chunk_48());
}

fn push_uppercase_chunk_49(v: &mut Vec<ClassUnicodeRange>)
    ensures
        rview(final(v)@) == rview(old(v)@) + uppercase_chunk_49(),
{
    let ghost o = rview(v@);
    push_range(v, '\u{1EEA}', '\u{1EEA}');
    push_range(v, '\u{1EEC}', '\u{1EEC}');
    push_range(v, '\u{1EEE}', '\u{1EEE}');
    push_range(v, '\u{1EF0}', '\u{1EF0}');
    push_range(v, '\u{1EF2}', '\u{1EF2}');
    push_range(v, '\u{1EF4}', '\u{1EF4}');
    push_range(v, '\u{1EF6}', '\u{1EF6}');
    push_range(v, '\u{1EF8}', '\u{1EF8}');
    assert(rview(v@) =~= o + uppercase_chunk_49());
}

fn push_uppercase_chunk_50(v: &mut Vec<ClassUnicodeRange>)
    ensures
        rview(final(v)@) == rview(old(v)@) + uppercase_chunk_50(),
{
    let ghost o = rview(v@);
    push_range(v, '\u{1EFA}', '\u{1EFA}');
    push_range(v, '\u{1EFC}', '\u{1EFC}');
    push_range(v, '\u{1EFE}', '\u{1EFE}');
    push_range(v, '\u{1F08}', '\u{1F0F}');
    push_range(v, '\u{1F18}', '\u{1F1D}');
    push_range(v, '\u{1F28}', '\u{1F2F}');
    push_range(v, '\u{1F38}', '\u{1F3F}');
    push_range(v, '\u{1F48}', '\u{1F4D}');
    assert(rview(v@) =~= o + uppercase_chunk_50());
}

fn push_uppercase_chunk_51(v: &mut Vec<ClassUnicodeRange>)
    ensures
        rview(final(v)@) == rview(old(v)@) + uppercase_chunk_51(),
{
    let ghost o = rview(v@);
    push_range(v, '\u{1F59}', '\u{1F59}');
    push_range(v, '\u{1F5B}', '\u{1F5B}');
    push_range(v, '\u{1F5D}', '\u{1F5D}');
    push_range(v, '\u{1F5F}', '\u{1F5F}');
    push_range(v, '\u{1F68}', '\u{1F6F}');
    push_range(v, '\u{1FB8}', '\u{1FBB}');
    push_range(v, '\u{1FC8}', '\u{1FCB}');
    push_range(v, '\u{1FD8}', '\u{1FDB}');
    assert(rview(v@) =~= o + uppercase_chunk_51());
}

fn push_uppercase_chunk_52(v: &mut Vec<ClassUnicodeRange>)
    ensures
        rview(final(v)@) == rview(old(v)@) + uppercase_chunk_52(),
{
    let ghost o = rview(v@);
    push_range(v, '\u{1FE8}', '\u{1FEC}');
    push_range(v, '\u{1FF8}', '\u{1FFB}');
    push_range(v, '\u{2102}', '\u{2102}');
    push_range(v, '\u{2107}', '\u{2107}');
    push_range(v, '\u{210B}', '\u{210D}');
    push_range(v, '\u{2110}', '\u{2112}');
    push_range(v, '\u{2115}', '\u{2115}');
    push_range(v, '\u{2119}', '\u{211D}');
    assert(rview(v@) =~= o + uppercase_chunk_52());
}

fn push_uppercase_chunk_53(v: &mut Vec<ClassUnicodeRange>)
    ensures
        rview(final(v)@) == rview(old(v)@) + uppercase_chunk_53(),
{
    let ghost o = rview(v@);
    push_range(v, '\u{2124}', '\u{2124}');
    push_range(v, '\u{2126}', '\u{2126}');
    push_range(v, '\u{2128}', '\u{2128}');
    push_range(v, '\u{212A}', '\u{212D}');
    push_range(v, '\u{2130}', '\u{2133}');
    push_range(v, '\u{213E}', '\u{213F}');
    push_range(v, '\u{2145}', '\u{2145}');
    push_range(v, '\u{2160}', '\u{216F}');
    assert(rview(v@) =~= o + uppercase_chunk_53());
}

fn push_uppercase_chunk_54(v: &mut Vec<ClassUnicodeRange>)
    ensures
        rview(final(v)@) == rview(old(v)@) + uppercase_chunk_54(),
{
    let ghost o = rview(v@);
    push_range(v, '\u{2183}', '\u{2183}');
    push_range(v, '\u{24B6}', '\u{24CF}');
    push_range(v, '\u{2C00}', '\u{2C2F}');
    push_range(v, '\u{2C60}', '\u{2C60}');
    push_range(v, '\u{2C62}', '\u{2C64}');
    push_range(v, '\u{2C67}', '\u{2C67}');
    push_range(v, '\u{2C69}', '\u{2C69}');
    push_range(v, '\u{2C6B}', '\u{2C6B}');
    assert(rview(v@) =~= o + uppercase_chunk_54());
}

fn push_uppercase_chunk_55(v: &mut Vec<ClassUnicodeRange>)
    ensures
        rview(final(v)@) == rview(old(v)@) + uppercase_chunk_55(),
{
    let ghost o = rview(v@);
    push_range(v, '\u{2C6D}', '\u{2C70}');
    push_range(v, '\u{2C72}', '\u{2C72}');
    push_range(v, '\u{2C75}', '\u{2C75}');
    push_range(v, '\u{2C7E}', '\u{2C80}');
    push_range(v, '\u{2C82}', '\u{2C82}');
    push_range(v, '\u{2C84}', '\u{2C84}');
    push_range(v, '\u{2C86}', '\u{2C86}');
    push_range(v, '\u{2C88}', '\u{2C88}');
    assert(rview(v@) =~= o + uppercase_chunk_55());
}

fn push_uppercase_chunk_56(v: &mut Vec<ClassUnicodeRange>)
    ensures
        rview(final(v)@) == rview(old(v)@) + uppercase_chunk_56(),
{
    let ghost o = rview(v@);
    push_range(v, '\u{2C8A}', '\u{2C8A}');
    push_range(v, '\u{2C8C}', '\u{2C8C}');
    push_range(v, '\u{2C8E}', '\u{2C8E}');
    push_range(v, '\u{2C90}', '\u{2C90}');
    push_range(v, '\u{2C92}', '\u{2C92}');
    push_range(v, '\u{2C94}', '\u{2C94}');
    push_range(v, '\u{2C96}', '\u{2C96}');
    push_range(v, '\u{2C98}', '\u{2C98}');
    assert(rview(v@) =~= o + uppercase_chunk_56());
}

fn push_uppercase_chunk_57(v: &mut Vec<ClassUnicodeRange>)
    ensures
        rview(final(v)@) == rview(old(v)@) + uppercase_chunk_57(),
{
    let ghost o = rview(v@);
    push_range(v, '\u{2C9A}', '\u{2C9A}');
    push_range(v, '\u{2C9C}', '\u{2C9C}');
    push_range(v, '\u{2C9E}', '\u{2C9E}');
    push_range(v, '\u{2CA0}', '\u{2CA0}');
    push_range(v, '\u{2CA2}', '\u{2CA2}');
    push_range(v, '\u{2CA4}', '\u{2CA4}');
    push_range(v, '\u{2CA6}', '\u{2CA6}');
    push_range(v, '\u{2CA8}', '\u{2CA8}');
    assert(rview(v@) =~= o + uppercase_chunk_57());
}

fn push_uppercase_chunk_58(v: &mut Vec<ClassUnicodeRange>)
    ensures
        rview(final(v)@) == rview(old(v)@) + uppercase_chunk_58(),
{
    let ghost o = rview(v@);
    push_range(v, '\u{2CAA}', '\u{2CAA}');
    push_range(v, '\u{2CAC}', '\u{2CAC}');
    push_range(v, '\u{2CAE}', '\u{2CAE}');
    push_range(v, '\u{2CB0}', '\u{2CB0}');
    push_range(v, '\u{2CB2}', '\u{2CB2}');
    push_range(v, '\u{2CB4}', '\u{2CB4}');
    push_range(v, '\u{2CB6}', '\u{2CB6}');
    push_range(v, '\u{2CB8}', '\u{2CB8}');
    assert(rview(v@) =~= o + uppercase_chunk_58());
}

fn push_uppercase_chunk_59(v: &mut Vec<ClassUnicodeRange>)
    ensures
        rview(final(v)@) == rview(old(v)@) + uppercase_chunk_59(),
{
    let ghost o = rview(v@);
    push_range(v, '\u{2CBA}', '\u{2CBA}');
    push_range(v, '\u{2CBC}', '\u{2CBC}');
    push_range(v, '\u{2CBE}', '\u{2CBE}');
    push_range(v, '\u{2CC0}', '\u{2CC0}');
    push_range(v, '\u{2CC2}', '\u{2CC2}');
    push_range(v, '\u{2CC4}', '\u{2CC4}');
    push_range(v, '\u{2CC6}', '\u{2CC6}');
    push_range(v, '\u{2CC8}', '\u{2CC8}');
    assert(rview(v@) =~= o + uppercase_chunk_59());
}

fn push_uppercase_chunk_60(v: &mut Vec<ClassUnicodeRange>)
    ensures
        rview(final(v)@) == rview(old(v)@) + uppercase_chunk_60(),
{
    let ghost o = rview(v@);
    push_range(v, '\u{2CCA}', '\u{2CCA}');
    push_range(v, '\u{2CCC}', '\u{2CCC}');
    push_range(v, '\u{2CCE}', '\u{2CCE}');
    push_range(v, '\u{2CD0}', '\u{2CD0}');
    push_range(v, '\u{2CD2}', '\u{2CD2}');
    push_range(v, '\u{2CD4}', '\u{2CD4}');
    push_range(v, '\u{2CD6}', '\u{2CD6}');
    push_range(v, '\u{2CD8}', '\u{2CD8}');
    assert(rview(v@) =~= o + uppercase_chunk_60());
}

fn push_uppercase_chunk_61(v: &mut Vec<ClassUnicodeRange>)
    ensures
        rview(final(v)@) == rview(old(v)@) + uppercase_chunk_61(),
{
    let ghost o = rview(v@);
    push_range(v, '\u{2CDA}', '\u{2CDA}');
    push_range(v, '\u{2CDC}', '\u{2CDC}');
    push_range(v, '\u{2CDE}', '\u{2CDE}');
    push_range(v, '\u{2CE0}', '\u{2CE0}');
    push_range(v, '\u{2CE2}', '\u{2CE2}');
    push_range(v, '\u{2CEB}', '\u{2CEB}');
    push_range(v, '\u{2CED}', '\u{2CED}');
    push_range(v, '\u{2CF2}', '\u{2CF2}');
    assert(rview(v@) =~= o + uppercase_chunk_61());
}

fn push_uppercase_chunk_62(v: &mut Vec<ClassUnicodeRange>)
    ensures
        rview(final(v)@) == rview(old(v)@) + uppercase_chunk_62(),
{
    let ghost o = rview(v@);
    push_range(v, '\u{A640}', '\u{A640}');
    push_range(v, '\u{A642}', '\u{A642}');
    push_range(v, '\u{A644}', '\u{A644}');
    push_range(v, '\u{A646}', '\u{A646}');
    push_range(v, '\u{A648}', '\u{A648}');
    push_range(v, '\u{A64A}', '\u{A64A}');
    push_range(v, '\u{A64C}', '\u{A64C}');
    push_range(v, '\u{A64E}', '\u{A64E}');
    assert(rview(v@) =~= o + uppercase_chunk_62());
}

fn push_uppercase_chunk_63(v: &mut Vec<ClassUnicodeRange>)
    ensures
        rview(final(v)@) == rview(old(v)@) + uppercase_chunk_63(),
{
    let ghost o = rview(v@);
    push_range(v, '\u{A650}', '\u{A650}');
    push_range(v, '\u{A652}', '\u{A652}');
    push_range(v, '\u{A654}', '\u{A654}');
    push_range(v, '\u{A656}', '\u{A656}');
    push_range(v, '\u{A658}', '\u{A658}');
    push_range(v, '\u{A65A}', '\u{A65A}');
    push_range(v, '\u{A65C}', '\u{A65C}');
    push_range(v, '\u{A65E}', '\u{A65E}');
    assert(rview(v@) =~= o + uppercase_chunk_63());
}

fn push_uppercase_chunk_64(v: &mut Vec<ClassUnicodeRange>)
    ensures
        rview(final(v)@) == rview(old(v)@) + uppercase_chunk_64(),
{
    let ghost o = rview(v@);
    push_range(v, '\u{A660}', '\u{A660}');
    push_range(v, '\u{A662}', '\u{A662}');
    push_range(v, '\u{A664}', '\u{A664}');
    push_range(v, '\u{A666}', '\u{A666}');
    push_range(v, '\u{A668}', '\u{A668}');
    push_range(v, '\u{A66A}', '\u{A66A}');
    push_range(v, '\u{A66C}', '\u{A66C}');
    push_range(v, '\u{A680}', '\u{A680}');
    assert(rview(v@) =~= o + uppercase_chunk_64());
}

fn push_uppercase_chunk_65(v: &mut Vec<ClassUnicodeRange>)
    ensures
        rview(final(v)@) == rview(old(v)@) + uppercase_chunk_65(),
{
    let ghost o = rview(v@);
    push_range(v, '\u{A682}', '\u{A682}');
    push_range(v, '\u{A684}', '\u{A684}');
    push_range(v, '\u{A686}', '\u{A686}');
    push_range(v, '\u{A688}', '\u{A688}');
    push_range(v, '\u{A68A}', '\u{A68A}');
    push_range(v, '\u{A68C}', '\u{A68C}');
    push_range(v, '\u{A68E}', '\u{A68E}');
    push_range(v, '\u{A690}', '\u{A690}');
    assert(rview(v@) =~= o + uppercase_chunk_65());
}

fn push_uppercase_chunk_66(v: &mut Vec<ClassUnicodeRange>)
    ensures
        rview(final(v)@) == rview(old(v)@) + uppercase_chunk_66(),
{
    let ghost o = rview(v@);
    push_range(v, '\u{A692}', '\u{A692}');
    push_range(v, '\u{A694}', '\u{A694}');
    push_range(v, '\u{A696}', '\u{A696}');
    push_range(v, '\u{A698}', '\u{A698}');
    push_range(v, '\u{A69A}', '\u{A69A}');
    push_range(v, '\u{A722}', '\u{A722}');
    push_range(v, '\u{A724}', '\u{A724}');
    push_range(v, '\u{A726}', '\u{A726}');
    assert(rview(v@) =~= o + uppercase_chunk_66());
}

fn push_uppercase_chunk_67(v: &mut Vec<ClassUnicodeRange>)
    ensures
        rview(final(v)@) == rview(old(v)@) + uppercase_chunk_67(),
{
    let ghost o = rview(v@);
    push_range(v, '\u{A728}', '\u{A728}');
    push_range(v, '\u{A72A}', '\u{A72A}');
    push_range(v, '\u{A72C}', '\u{A72C}');
    push_range(v, '\u{A72E}', '\u{A72E}');
    push_range(v, '\u{A732}', '\u{A732}');
    push_range(v, '\u{A734}', '\u{A734}');
    push_range(v, '\u{A736}', '\u{A736}');
    push_range(v, '\u{A738}', '\u{A738}');
    assert(rview(v@) =~= o + uppercase_chunk_67());
}

fn push_uppercase_chunk_68(v: &mut Vec<ClassUnicodeRange>)
    ensures
        rview(final(v)@) == rview(old(v)@) + uppercase_chunk_68(),
{
    let ghost o = rview(v@);
    push_range(v, '\u{A73A}', '\u{A73A}');
    push_range(v, '\u{A73C}', '\u{A73C}');
    push_range(v, '\u{A73E}', '\u{A73E}');
    push_range(v, '\u{A740}', '\u{A740}');
    push_range(v, '\u{A742}', '\u{A742}');
    push_range(v, '\u{A744}', '\u{A744}');
    push_range(v, '\u{A746}', '\u{A746}');
    push_range(v, '\u{A748}', '\u{A748}');
    assert(rview(v@) =~= o + uppercase_chunk_68());
}

fn push_uppercase_chunk_69(v: &mut Vec<ClassUnicodeRange>)
    ensures
        rview(final(v)@) == rview(old(v)@) + uppercase_chunk_69(),
{
    let ghost o = rview(v@);
    push_range(v, '\u{A74A}', '\u{A74A}');
    push_range(v, '\u{A74C}', '\u{A74C}');
    push_range(v, '\u{A74E}', '\u{A74E}');
    push_range(v, '\u{A750}', '\u{A750}');
    push_range(v, '\u{A752}', '\u{A752}');
    push_range(v, '\u{A754}', '\u{A754}');
    push_range(v, '\u{A756}', '\u{A756}');
    push_range(v, '\u{A758}', '\u{A758}');
    assert(rview(v@) =~= o + uppercase_chunk_69());
}

fn push_uppercase_chunk_70(v: &mut Vec<ClassUnicodeRange>)
    ensures
        rview(final(v)@) == rview(old(v)@) + uppercase_chunk_70(),
{
    let ghost o = rview(v@);
    push_range(v, '\u{A75A}', '\u{A75A}');
    push_range(v, '\u{A75C}', '\u{A75C}');
    push_range(v, '\u{A75E}', '\u{A75E}');
    push_range(v, '\u{A760}', '\u{A760}');
    push_range(v, '\u{A762}', '\u{A762}');
    push_range(v, '\u{A764}', '\u{A764}');
    push_range(v, '\u{A766}', '\u{A766}');
    push_range(v, '\u{A768}', '\u{A768}');
    assert(rview(v@) =~= o + uppercase_chunk_70());
}

fn push_uppercase_chunk_71(v: &mut Vec<ClassUnicodeRange>)
    ensures
        rview(final(v)@) == rview(old(v)@) + uppercase_chunk_71(),
{
    let ghost o = rview(v@);
    push_range(v, '\u{A76A}', '\u{A76A}');
    push_range(v, '\u{A76C}', '\u{A76C}');
    push_range(v, '\u{A76E}', '\u{A76E}');
    push_range(v, '\u{A779}', '\u{A779}');
    push_range(v, '\u{A77B}', '\u{A77B}');
    push_range(v, '\u{A77D}', '\u{A77E}');
    push_range(v, '\u{A780}', '\u{A780}');
    push_range(v, '\u{A782}', '\u{A782}');
    assert(rview(v@) =~= o + uppercase_chunk_71());
}

fn push_uppercase_chunk_72(v: &mut Vec<ClassUnicodeRange>)
    ensures
        rview(final(v)@) == rview(old(v)@) + uppercase_chunk_72(),
{
    let ghost o = rview(v@);
    push_range(v, '\u{A784}', '\u{A784}');
    push_range(v, '\u{A786}', '\u{A786}');
    push_range(v, '\u{A78B}', '\u{A78B}');
    push_range(v, '\u{A78D}', '\u{A78D}');
    push_range(v, '\u{A790}', '\u{A790}');
    push_range(v, '\u{A792}', '\u{A792}');
    push_range(v, '\u{A796}', '\u{A796}');
    push_range(v, '\u{A798}', '\u{A798}');
    assert(rview(v@) =~= o + uppercase_chunk_72());
}

fn push_uppercase_chunk_73(v: &mut Vec<ClassUnicodeRange>)
    ensures
        rview(final(v)@) == rview(old(v)@) + uppercase_chunk_73(),
{
    let ghost o = rview(v@);
    push_range(v, '\u{A79A}', '\u{A79A}');
    push_range(v, '\u{A79C}', '\u{A79C}');
    push_range(v, '\u{A79E}', '\u{A79E}');
    push_range(v, '\u{A7A0}', '\u{A7A0}');
    push_range(v, '\u{A7A2}', '\u{A7A2}');
    push_range(v, '\u{A7A4}', '\u{A7A4}');
    push_range(v, '\u{A7A6}', '\u{A7A6}');
    push_range(v, '\u{A7A8}', '\u{A7A8}');
    assert(rview(v@) =~= o + uppercase_chunk_73());
}

fn push_uppercase_chunk_74(v: &mut Vec<ClassUnicodeRange>)
    ensures
        rview(final(v)@) == rview(old(v)@) + uppercase_chunk_74(),
{
    let ghost o = rview(v@);
    push_range(v, '\u{A7AA}', '\u{A7AE}');
    push_range(v, '\u{A7B0}', '\u{A7B4}');
    push_range(v, '\u{A7B6}', '\u{A7B6}');
    push_range(v, '\u{A7B8}', '\u{A7B8}');
    push_range(v, '\u{A7BA}', '\u{A7BA}');
    push_range(v, '\u{A7BC}', '\u{A7BC}');
    push_range(v, '\u{A7BE}', '\u{A7BE}');
    push_range(v, '\u{A7C0}', '\u{A7C0}');
    assert(rview(v@) =~= o + uppercase_chunk_74());
}

fn push_uppercase_chunk_75(v: &mut Vec<ClassUnicodeRange>)
    ensures
        rview(final(v)@) == rview(old(v)@) + uppercase_chunk_75(),
{
    let ghost o = rview(v@);
    push_range(v, '\u{A7C2}', '\u{A7C2}');
    push_range(v, '\u{A7C4}', '\u{A7C7}');
    push_range(v, '\u{A7C9}', '\u{A7C9}');
    push_range(v, '\u{A7CB}', '\u{A7CC}');
    push_range(v, '\u{A7D0}', '\u{A7D0}');
    push_range(v, '\u{A7D6}', '\u{A7D6}');
    push_range(v, '\u{A7D8}', '\u{A7D8}');
    push_range(v, '\u{A7DA}', '\u{A7DA}');
    assert(rview(v@) =~= o + uppercase_chunk_75());
}

fn push_uppercase_chunk_76(v: &mut Vec<ClassUnicodeRange>)
    ensures
        rview(final(v)@) == rview(old(v)@) + uppercase_chunk_76(),
{
    let ghost o = rview(v@);
    push_range(v, '\u{A7DC}', '\u{A7DC}');
    push_range(v, '\u{A7F5}', '\u{A7F5}');
    push_range(v, '\u{FF21}', '\u{FF3A}');
    push_range(v, '\u{10400}', '\u{10427}');
    push_range(v, '\u{104B0}', '\u{104D3}');
    push_range(v, '\u{10570}', '\u{1057A}');
    push_range(v, '\u{1057C}', '\u{1058A}');
    push_range(v, '\u{1058C}', '\u{10592}');
    assert(rview(v@) =~= o + uppercase_chunk_76());
}

fn push_uppercase_chunk_77(v: &mut Vec<ClassUnicodeRange>)
    ensures
        rview(final(v)@) == rview(old(v)@) + uppercase_chunk_77(),
{
    let ghost o = rview(v@);
    push_range(v, '\u{10594}', '\u{10595}');
    push_range(v, '\u{10C80}', '\u{10CB2}');
    push_range(v, '\u{10D50}', '\u{10D65}');
    push_range(v, '\u{118A0}', '\u{118BF}');
    push_range(v, '\u{16E40}', '\u{16E5F}');
    push_range(v, '\u{1D400}', '\u{1D419}');
    push_range(v, '\u{1D434}', '\u{1D44D}');
    push_range(v, '\u{1D468}', '\u{1D481}');
    assert(rview(v@) =~= o + uppercase_chunk_77());
}

fn push_uppercase_chunk_78(v: &mut Vec<ClassUnicodeRange>)
    ensures
        rview(final(v)@) == rview(old(v)@) + uppercase_chunk_78(),
{
    let ghost o = rview(v@);
    push_range(v, '\u{1D49C}', '\u{1D49C}');
    push_range(v, '\u{1D49E}', '\u{1D49F}');
    push_range(v, '\u{1D4A2}', '\u{1D4A2}');
    push_range(v, '\u{1D4A5}', '\u{1D4A6}');
    push_range(v, '\u{1D4A9}', '\u{1D4AC}');
    push_range(v, '\u{1D4AE}', '\u{1D4B5}');
    push_range(v, '\u{1D4D0}', '\u{1D4E9}');
    push_range(v, '\u{1D504}', '\u{1D505}');
    assert(rview(v@) =~= o + uppercase_chunk_78());
}

fn push_uppercase_chunk_79(v: &mut Vec<ClassUnicodeRange>)
    ensures
        rview(final(v)@) == rview(old(v)@) + uppercase_chunk_79(),
{
    let ghost o = rview(v@);
    push_range(v, '\u{1D507}', '\u{1D50A}');
    push_range(v, '\u{1D50D}', '\u{1D514}');
    push_range(v, '\u{1D516}', '\u{1D51C}');
    push_range(v, '\u{1D538}', '\u{1D539}');
    push_range(v, '\u{1D53B}', '\u{1D53E}');
    push_range(v, '\u{1D540}', '\u{1D544}');
    push_range(v, '\u{1D546}', '\u{1D546}');
    push_range(v, '\u{1D54A}', '\u{1D550}');
    assert(rview(v@) =~= o + uppercase_chunk_79());
}

fn push_uppercase_chunk_80(v: &mut Vec<ClassUnicodeRange>)
    ensures
        rview(final(v)@) == rview(old(v)@) + uppercase_chunk_80(),
{
    let ghost o = rview(v@);
    push_range(v, '\u{1D56C}', '\u{1D585}');
    push_range(v, '\u{1D5A0}', '\u{1D5B9}');
    push_range(v, '\u{1D5D4}', '\u{1D5ED}');
    push_range(v, '\u{1D608}', '\u{1D621}');
    push_range(v, '\u{1D63C}', '\u{1D655}');
    push_range(v, '\u{1D670}', '\u{1D689}');
    push_range(v, '\u{1D6A8}', '\u{1D6C0}');
    push_range(v, '\u{1D6E2}', '\u{1D6FA}');
    assert(rview(v@) =~= o + uppercase_chunk_80());
}

fn push_uppercase_chunk_81(v: &mut Vec<ClassUnicodeRange>)
    ensures
        rview(final(v)@) == rview(old(v)@) + uppercase_chunk_81(),
{
    let ghost o = rview(v@);
    push_range(v, '\u{1D71C}', '\u{1D734}');
    push_range(v, '\u{1D756}', '\u{1D76E}');
    push_range(v, '\u{1D790}', '\u{1D7A8}');
    push_range(v, '\u{1D7CA}', '\u{1D7CA}');
    push_range(v, '\u{1E900}', '\u{1E921}');
    push_range(v, '\u{1F130}', '\u{1F149}');
    push_range(v, '\u{1F150}', '\u{1F169}');
    push_range(v, '\u{1F170}', '\u{1F189}');
    assert(rview(v@) =~= o + uppercase_chunk_81());
}

fn push_uppercase_block_0(v: &mut Vec<ClassUnicodeRange>)
    ensures
        rview(final(v)@) == rview(old(v)@) + uppercase_block_0(),
{
    let ghost o = rview(v@);
    push_uppercase_chunk_0(v);
    assert(rview(v@) =~= o + (uppercase_chunk_0()));
    push_uppercase_chunk_1(v);
    assert(rview(v@) =~= o + (uppercase_chunk_0() + uppercase_chunk_1()));
    push_uppercase_chunk_2(v);
    assert(rview(v@) =~= o + (uppercase_chunk_0() + uppercase_chunk_1() + uppercase_chunk_2()));
    push_uppercase_chunk_3(v);
    assert(rview(v@) =~= o + (uppercase_chunk_0() + uppercase_chunk_1() + uppercase_chunk_2() + uppercase_chunk_3()));
    push_uppercase_chunk_4(v);
    assert(rview(v@) =~= o + (uppercase_chunk_0() + uppercase_chunk_1() + uppercase_chunk_2() + uppercase_chunk_3() + uppercase_chunk_4()));
    push_uppercase_chunk_5(v);
    assert(rview(v@) =~= o + (uppercase_chunk_0() + uppercase_chunk_1() + uppercase_chunk_2() + uppercase_chunk_3() + uppercase_chunk_4() + uppercase_chunk_5()));
    push_uppercase_chunk_6(v);
    assert(rview(v@) =~= o + (uppercase_chunk_0() + uppercase_chunk_1() + uppercase_chunk_2() + uppercase_chunk_3() + uppercase_chunk_4() + uppercase_chunk_5() + uppercase_chunk_6()));
    push_uppercase_chunk_7(v);
    assert(rview(v@) =~= o + (uppercase_chunk_0() + uppercase_chunk_1() + uppercase_chunk_2() + uppercase_chunk_3() + uppercase_chunk_4() + uppercase_chunk_5() + uppercase_chunk_6() + uppercase_chunk_7()));
    push_uppercase_chunk_8(v);
    assert(rview(v@) =~= o + (uppercase_chunk_0() + uppercase_chunk_1() + uppercase_chunk_2() + uppercase_chunk_3() + uppercase_chunk_4() + uppercase_chunk_5() + uppercase_chunk_6() + uppercase_chunk_7() + uppercase_chunk_8()));
    push_uppercase_chunk_9(v);
    assert(rview(v@) =~= o + (uppercase_chunk_0() + uppercase_chunk_1() + uppercase_chunk_2() + uppercase_chunk_3() + uppercase_chunk_4() + uppercase_chunk_5() + uppercase_chunk_6() + uppercase_chunk_7() + uppercase_chunk_8() + uppercase_chunk_9()));
}

fn push_uppercase_block_1(v: &mut Vec<ClassUnicodeRange>)
    ensures
        rview(final(v)@) == rview(old(v)@) + uppercase_block_1(),
{
    let ghost o = rview(v@);
    push_uppercase_chunk_10(v);
    assert(rview(v@) =~= o + (uppercase_chunk_10()));
    push_uppercase_chunk_11(v);
    assert(rview(v@) =~= o + (uppercase_chunk_10() + uppercase_chunk_11()));
    push_uppercase_chunk_12(v);
    assert(rview(v@) =~= o + (uppercase_chunk_10() + uppercase_chunk_11() + uppercase_chunk_12()));
    push_uppercase_chunk_13(v);
    assert(rview(v@) =~= o + (uppercase_chunk_10() + uppercase_chunk_11() + uppercase_chunk_12() + uppercase_chunk_13()));
    push_uppercase_chunk_14(v);
    assert(rview(v@) =~= o + (uppercase_chunk_10() + uppercase_chunk_11() + uppercase_chunk_12() + uppercase_chunk_13() + uppercase_chunk_14()));
    push_uppercase_chunk_15(v);
    assert(rview(v@) =~= o + (uppercase_chunk_10() + uppercase_chunk_11() + uppercase_chunk_12() + uppercase_chunk_13() + uppercase_chunk_14() + uppercase_chunk_15()));
    push_uppercase_chunk_16(v);
    assert(rview(v@) =~= o + (uppercase_chunk_10() + uppercase_chunk_11() + uppercase_chunk_12() + uppercase_chunk_13() + uppercase_chunk_14() + uppercase_chunk_15() + uppercase_chunk_16()));
    push_uppercase_chunk_17(v);
    assert(rview(v@) =~= o + (uppercase_chunk_10() + uppercase_chunk_11() + uppercase_chunk_12() + uppercase_chunk_13() + uppercase_chunk_14() + uppercase_chunk_15() + uppercase_chunk_16() + uppercase_chunk_17()));
    push_uppercase_chunk_18(v);
    assert(rview(v@) =~= o + (uppercase_chunk_10() + uppercase_chunk_11() + uppercase_chunk_12() + uppercase_chunk_13() + uppercase_chunk_14() + uppercase_chunk_15() + uppercase_chunk_16() + uppercase_chunk_17() + uppercase_chunk_18()));
    push_uppercase_chunk_19(v);
    assert(rview(v@) =~= o + (uppercase_chunk_10() + uppercase_chunk_11() + uppercase_chunk_12() + uppercase_chunk_13() + uppercase_chunk_14() + uppercase_chunk_15() + uppercase_chunk_16() + uppercase_chunk_17() + uppercase_chunk_18() + uppercase_chunk_19()));
}

fn push_uppercase_block_2(v: &mut Vec<ClassUnicodeRange>)
    ensures
        rview(final(v)@) == rview(old(v)@) + uppercase_block_2(),
{
    let ghost o = rview(v@);
    push_uppercase_chunk_20(v);
    assert(rview(v@) =~= o + (uppercase_chunk_20()));
    push_uppercase_chunk_21(v);
    assert(rview(v@) =~= o + (uppercase_chunk_20() + uppercase_chunk_21()));
    push_uppercase_chunk_22(v);
    assert(rview(v@) =~= o + (uppercase_chunk_20() + uppercase_chunk_21() + uppercase_chunk_22()));
    push_uppercase_chunk_23(v);
    assert(rview(v@) =~= o + (uppercase_chunk_20() + uppercase_chunk_21() + uppercase_chunk_22() + uppercase_chunk_23()));
    push_uppercase_chunk_24(v);
    assert(rview(v@) =~= o + (uppercase_chunk_20() + uppercase_chunk_21() + uppercase_chunk_22() + uppercase_chunk_23() + uppercase_chunk_24()));
    push_uppercase_chunk_25(v);
    assert(rview(v@) =~= o + (uppercase_chunk_20() + uppercase_chunk_21() + uppercase_chunk_22() + uppercase_chunk_23() + uppercase_chunk_24() + uppercase_chunk_25()));
    push_uppercase_chunk_26(v);
    assert(rview(v@) =~= o + (uppercase_chunk_20() + uppercase_chunk_21() + uppercase_chunk_22() + uppercase_chunk_23() + uppercase_chunk_24() + uppercase_chunk_25() + uppercase_chunk_26()));
    push_uppercase_chunk_27(v);
    assert(rview(v@) =~= o + (uppercase_chunk_20() + uppercase_chunk_21() + uppercase_chunk_22() + uppercase_chunk_23() + uppercase_chunk_24() + uppercase_chunk_25() + uppercase_chunk_26() + uppercase_chunk_27()));
    push_uppercase_chunk_28(v);
    assert(rview(v@) =~= o + (uppercase_chunk_20() + uppercase_chunk_21() + uppercase_chunk_22() + uppercase_chunk_23() + uppercase_chunk_24() + uppercase_chunk_25() + uppercase_chunk_26() + uppercase_chunk_27() + uppercase_chunk_28()));
    push_uppercase_chunk_29(v);
    assert(rview(v@) =~= o + (uppercase_chunk_20() + uppercase_chunk_21() + uppercase_chunk_22() + uppercase_chunk_23() + uppercase_chunk_24() + uppercase_chunk_25() + uppercase_chunk_26() + uppercase_chunk_27() + uppercase_chunk_28() + uppercase_chunk_29()));
}

fn push_uppercase_block_3(v: &mut Vec<ClassUnicodeRange>)
    ensures
        rview(final(v)@) == rview(old(v)@) + uppercase_block_3(),
{
    let ghost o = rview(v@);
    push_uppercase_chunk_30(v);
    assert(rview(v@) =~= o + (uppercase_chunk_30()));
    push_uppercase_chunk_31(v);
    assert(rview(v@) =~= o + (uppercase_chunk_30() + uppercase_chunk_31()));
    push_uppercase_chunk_32(v);
    assert(rview(v@) =~= o + (uppercase_chunk_30() + uppercase_chunk_31() + uppercase_chunk_32()));
    push_uppercase_chunk_33(v);
    assert(rview(v@) =~= o + (uppercase_chunk_30() + uppercase_chunk_31() + uppercase_chunk_32() + uppercase_chunk_33()));
    push_uppercase_chunk_34(v);
    assert(rview(v@) =~= o + (uppercase_chunk_30() + uppercase_chunk_31() + uppercase_chunk_32() + uppercase_chunk_33() + uppercase_chunk_34()));
    push_uppercase_chunk_35(v);
    assert(rview(v@) =~= o + (uppercase_chunk_30() + uppercase_chunk_31() + uppercase_chunk_32() + uppercase_chunk_33() + uppercase_chunk_34() + uppercase_chunk_35()));
    push_uppercase_chunk_36(v);
    assert(rview(v@) =~= o + (uppercase_chunk_30() + uppercase_chunk_31() + uppercase_chunk_32() + uppercase_chunk_33() + uppercase_chunk_34() + uppercase_chunk_35() + uppercase_chunk_36()));
    push_uppercase_chunk_37(v);
    assert(rview(v@) =~= o + (uppercase_chunk_30() + uppercase_chunk_31() + uppercase_chunk_32() + uppercase_chunk_33() + uppercase_chunk_34() + uppercase_chunk_35() + uppercase_chunk_36() + uppercase_chunk_37()));
    push_uppercase_chunk_38(v);
    assert(rview(v@) =~= o + (uppercase_chunk_30() + uppercase_chunk_31() + uppercase_chunk_32() + uppercase_chunk_33() + uppercase_chunk_34() + uppercase_chunk_35() + uppercase_chunk_36() + uppercase_chunk_37() + uppercase_chunk_38()));
    push_uppercase_chunk_39(v);
    assert(rview(v@) =~= o + (uppercase_chunk_30() + uppercase_chunk_31() + uppercase_chunk_32() + uppercase_chunk_33() + uppercase_chunk_34() + uppercase_chunk_35() + uppercase_chunk_36() + uppercase_chunk_37() + uppercase_chunk_38() + uppercase_chunk_39()));
}

fn push_uppercase_block_4(v: &mut Vec<ClassUnicodeRange>)
    ensures
        rview(final(v)@) == rview(old(v)@) + uppercase_block_4(),
{
    let ghost o = rview(v@);
    push_uppercase_chunk_40(v);
    assert(rview(v@) =~= o + (uppercase_chunk_40()));
    push_uppercase_chunk_41(v);
    assert(rview(v@) =~= o + (uppercase_chunk_40() + uppercase_chunk_41()));
    push_uppercase_chunk_42(v);
    assert(rview(v@) =~= o + (uppercase_chunk_40() + uppercase_chunk_41() + uppercase_chunk_42()));
    push_uppercase_chunk_43(v);
    assert(rview(v@) =~= o + (uppercase_chunk_40() + uppercase_chunk_41() + uppercase_chunk_42() + uppercase_chunk_43()));
    push_uppercase_chunk_44(v);
    assert(rview(v@) =~= o + (uppercase_chunk_40() + uppercase_chunk_41() + uppercase_chunk_42() + uppercase_chunk_43() + uppercase_chunk_44()));
    push_uppercase_chunk_45(v);
    assert(rview(v@) =~= o + (uppercase_chunk_40() + uppercase_chunk_41() + uppercase_chunk_42() + uppercase_chunk_43() + uppercase_chunk_44() + uppercase_chunk_45()));
    push_uppercase_chunk_46(v);
    assert(rview(v@) =~= o + (uppercase_chunk_40() + uppercase_chunk_41() + uppercase_chunk_42() + uppercase_chunk_43() + uppercase_chunk_44() + uppercase_chunk_45() + uppercase_chunk_46()));
    push_uppercase_chunk_47(v);
    assert(rview(v@) =~= o + (uppercase_chunk_40() + uppercase_chunk_41() + uppercase_chunk_42() + uppercase_chunk_43() + uppercase_chunk_44() + uppercase_chunk_45() + uppercase_chunk_46() + uppercase_chunk_47()));
    push_uppercase_chunk_48(v);
    assert(rview(v@) =~= o + (uppercase_chunk_40() + uppercase_chunk_41() + uppercase_chunk_42() + uppercase_chunk_43() + uppercase_chunk_44() + uppercase_chunk_45() + uppercase_chunk_46() + uppercase_chunk_47() + uppercase_chunk_48()));
    push_uppercase_chunk_49(v);
    assert(rview(v@) =~= o + (uppercase_chunk_40() + uppercase_chunk_41() + uppercase_chunk_42() + uppercase_chunk_43() + uppercase_chunk_44() + uppercase_chunk_45() + uppercase_chunk_46() + uppercase_chunk_47() + uppercase_chunk_48() + uppercase_chunk_49()));
}

fn push_uppercase_block_5(v: &mut Vec<ClassUnicodeRange>)
    ensures
        rview(final(v)@) == rview(old(v)@) + uppercase_block_5(),
{
    let ghost o = rview(v@);
    push_uppercase_chunk_50(v);
    assert(rview(v@) =~= o + (uppercase_chunk_50()));
    push_uppercase_chunk_51(v);
    assert(rview(v@) =~= o + (uppercase_chunk_50() + uppercase_chunk_51()));
    push_uppercase_chunk_52(v);
    assert(rview(v@) =~= o + (uppercase_chunk_50() + uppercase_chunk_51() + uppercase_chunk_52()));
    push_uppercase_chunk_53(v);
    assert(rview(v@) =~= o + (uppercase_chunk_50() + uppercase_chunk_51() + uppercase_chunk_52() + uppercase_chunk_53()));
    push_uppercase_chunk_54(v);
    assert(rview(v@) =~= o + (uppercase_chunk_50() + uppercase_chunk_51() + uppercase_chunk_52() + uppercase_chunk_53() + uppercase_chunk_54()));
    push_uppercase_chunk_55(v);
    assert(rview(v@) =~= o + (uppercase_chunk_50() + uppercase_chunk_51() + uppercase_chunk_52() + uppercase_chunk_53() + uppercase_chunk_54() + uppercase_chunk_55()));
    push_uppercase_chunk_56(v);
    assert(rview(v@) =~= o + (uppercase_chunk_50() + uppercase_chunk_51() + uppercase_chunk_52() + uppercase_chunk_53() + uppercase_chunk_54() + uppercase_chunk_55() + uppercase_chunk_56()));
    push_uppercase_chunk_57(v);
    assert(rview(v@) =~= o + (uppercase_chunk_50() + uppercase_chunk_51() + uppercase_chunk_52() + uppercase_chunk_53() + uppercase_chunk_54() + uppercase_chunk_55() + uppercase_chunk_56() + uppercase_chunk_57()));
    push_uppercase_chunk_58(v);
    assert(rview(v@) =~= o + (uppercase_chunk_50() + uppercase_chunk_51() + uppercase_chunk_52() + uppercase_chunk_53() + uppercase_chunk_54() + uppercase_chunk_55() + uppercase_chunk_56() + uppercase_chunk_57() + uppercase_chunk_58()));
    push_uppercase_chunk_59(v);
    assert(rview(v@) =~= o + (uppercase_chunk_50() + uppercase_chunk_51() + uppercase_chunk_52() + uppercase_chunk_53() + uppercase_chunk_54() + uppercase_chunk_55() + uppercase_chunk_56() + uppercase_chunk_57() + uppercase_chunk_58() + uppercase_chunk_59()));
}

fn push_uppercase_block_6(v: &mut Vec<ClassUnicodeRange>)
    ensures
        rview(final(v)@) == rview(old(v)@) + uppercase_block_6(),
{
    let ghost o = rview(v@);
    push_uppercase_chunk_60(v);
    assert(rview(v@) =~= o + (uppercase_chunk_60()));
    push_uppercase_chunk_61(v);
    assert(rview(v@) =~= o + (uppercase_chunk_60() + uppercase_chunk_61()));
    push_uppercase_chunk_62(v);
    assert(rview(v@) =~= o + (uppercase_chunk_60() + uppercase_chunk_61() + uppercase_chunk_62()));
    push_uppercase_chunk_63(v);
    assert(rview(v@) =~= o + (uppercase_chunk_60() + uppercase_chunk_61() + uppercase_chunk_62() + uppercase_chunk_63()));
    push_uppercase_chunk_64(v);
    assert(rview(v@) =~= o + (uppercase_chunk_60() + uppercase_chunk_61() + uppercase_chunk_62() + uppercase_chunk_63() + uppercase_chunk_64()));
    push_uppercase_chunk_65(v);
    assert(rview(v@) =~= o + (uppercase_chunk_60() + uppercase_chunk_61() + uppercase_chunk_62() + uppercase_chunk_63() + uppercase_chunk_64() + uppercase_chunk_65()));
    push_uppercase_chunk_66(v);
    assert(rview(v@) =~= o + (uppercase_chunk_60() + uppercase_chunk_61() + uppercase_chunk_62() + uppercase_chunk_63() + uppercase_chunk_64() + uppercase_chunk_65() + uppercase_chunk_66()));
    push_uppercase_chunk_67(v);
    assert(rview(v@) =~= o + (uppercase_chunk_60() + uppercase_chunk_61() + uppercase_chunk_62() + uppercase_chunk_63() + uppercase_chunk_64() + uppercase_chunk_65() + uppercase_chunk_66() + uppercase_chunk_67()));
    push_uppercase_chunk_68(v);
    assert(rview(v@) =~= o + (uppercase_chunk_60() + uppercase_chunk_61() + uppercase_chunk_62() + uppercase_chunk_63() + uppercase_chunk_64() + uppercase_chunk_65() + uppercase_chunk_66() + uppercase_chunk_67() + uppercase_chunk_68()));
    push_uppercase_chunk_69(v);
    assert(rview(v@) =~= o + (uppercase_chunk_60() + uppercase_chunk_61() + uppercase_chunk_62() + uppercase_chunk_63() + uppercase_chunk_64() + uppercase_chunk_65() + uppercase_chunk_66() + uppercase_chunk_67() + uppercase_chunk_68() + uppercase_chunk_69()));
}

fn push_uppercase_block_7(v: &mut Vec<ClassUnicodeRange>)
    ensures
        rview(final(v)@) == rview(old(v)@) + uppercase_block_7(),
{
    let ghost o = rview(v@);
    push_uppercase_chunk_70(v);
    assert(rview(v@) =~= o + (uppercase_chunk_70()));
    push_uppercase_chunk_71(v);
    assert(rview(v@) =~= o + (uppercase_chunk_70() + uppercase_chunk_71()));
    push_uppercase_chunk_72(v);
    assert(rview(v@) =~= o + (uppercase_chunk_70() + uppercase_chunk_71() + uppercase_chunk_72()));
    push_uppercase_chunk_73(v);
    assert(rview(v@) =~= o + (uppercase_chunk_70() + uppercase_chunk_71() + uppercase_chunk_72() + uppercase_chunk_73()));
    push_uppercase_chunk_74(v);
    assert(rview(v@) =~= o + (uppercase_chunk_70() + uppercase_chunk_71() + uppercase_chunk_72() + uppercase_chunk_73() + uppercase_chunk_74()));
    push_uppercase_chunk_75(v);
    assert(rview(v@) =~= o + (uppercase_chunk_70() + uppercase_chunk_71() + uppercase_chunk_72() + uppercase_chunk_73() + uppercase_chunk_74() + uppercase_chunk_75()));
    push_uppercase_chunk_76(v);
    assert(rview(v@) =~= o + (uppercase_chunk_70() + uppercase_chunk_71() + uppercase_chunk_72() + uppercase_chunk_73() + uppercase_chunk_74() + uppercase_chunk_75() + uppercase_chunk_76()));
    push_uppercase_chunk_77(v);
    assert(rview(v@) =~= o + (uppercase_chunk_70() + uppercase_chunk_71() + uppercase_chunk_72() + uppercase_chunk_73() + uppercase_chunk_74() + uppercase_chunk_75() + uppercase_chunk_76() + uppercase_chunk_77()));
    push_uppercase_chunk_78(v);
    assert(rview(v@) =~= o + (uppercase_chunk_70() + uppercase_chunk_71() + uppercase_chunk_72() + uppercase_chunk_73() + uppercase_chunk_74() + uppercase_chunk_75() + uppercase_chunk_76() + uppercase_chunk_77() + uppercase_chunk_78()));
    push_uppercase_chunk_79(v);
    assert(rview(v@) =~= o + (uppercase_chunk_70() + uppercase_chunk_71() + uppercase_chunk_72() + uppercase_chunk_73() + uppercase_chunk_74() + uppercase_chunk_75() + uppercase_chunk_76() + uppercase_chunk_77() + uppercase_chunk_78() + uppercase_chunk_79()));
}

fn push_uppercase_block_8(v: &mut Vec<ClassUnicodeRange>)
    ensures
        rview(final(v)@) == rview(old(v)@) + uppercase_block_8(),
{
    let ghost o = rview(v@);
    push_uppercase_chunk_80(v);
    assert(rview(v@) =~= o + (uppercase_chunk_80()));
    push_uppercase_chunk_81(v);
    assert(rview(v@) =~= o + (uppercase_chunk_80() + uppercase_chunk_81()));
}

pub fn uppercase_class() -> (v: Vec<ClassUnicodeRange>)
    ensures
        rview(v@) == uppercase_ranges(),
{
    let mut v: Vec<ClassUnicodeRange> = Vec::new();
    assert(rview(v@) =~= Seq::<SRange>::empty());
    push_uppercase_block_0(&mut v);
    assert(rview(v@) =~= uppercase_block_0());
    push_uppercase_block_1(&mut v);
    assert(rview(v@) =~= uppercase_block_0() + uppercase_block_1());
    push_uppercase_block_2(&mut v);
    assert(rview(v@) =~= uppercase_block_0() + uppercase_block_1() + uppercase_block_2());
    push_uppercase_block_3(&mut v);
    assert(rview(v@) =~= uppercase_block_0() + uppercase_block_1() + uppercase_block_2() + uppercase_block_3());
    push_uppercase_block_4(&mut v);
    assert(rview(v@) =~= uppercase_block_0() + uppercase_block_1() + uppercase_block_2() + uppercase_block_3() + uppercase_block_4());
    push_uppercase_block_5(&mut v);
    assert(rview(v@) =~= uppercase_block_0() + uppercase_block_1() + uppercase_block_2() + uppercase_block_3() + uppercase_block_4() + uppercase_block_5());
    push_uppercase_block_6(&mut v);
    assert(rview(v@) =~= uppercase_block_0() + uppercase_block_1() + uppercase_block_2() + uppercase_block_3() + uppercase_block_4() + uppercase_block_5() + uppercase_block_6());
    push_uppercase_block_7(&mut v);
    assert(rview(v@) =~= uppercase_block_0() + uppercase_block_1() + uppercase_block_2() + uppercase_block_3() + uppercase_block_4() + uppercase_block_5() + uppercase_block_6() + uppercase_block_7());
    push_uppercase_block_8(&mut v);
    assert(rview(v@) =~= uppercase_block_0() + uppercase_block_1() + uppercase_block_2() + uppercase_block_3() + uppercase_block_4() + uppercase_block_5() + uppercase_block_6() + uppercase_block_7() + uppercase_block_8());
    v
}

pub open spec fn variation_selector_chunk_0() -> Seq<SRange> {
    seq![(0x180Bint, 0x180Dint), (0x180Fint, 0x180Fint), (0xFE00int, 0xFE0Fint), (0xE0100int, 0xE01EFint)]
}

/// The ranges of the property Variation_Selector.
pub open spec fn variation_selector_ranges() -> Seq<SRange> {
    variation_selector_chunk_0()
}

pub proof fn lemma_variation_selector_canonical()
    ensures
        canonical(variation_selector_ranges()),
{
    reveal_with_fuel(canonical, 9);
    assert(canonical(variation_selector_chunk_0()));
}

fn push_variation_selector_chunk_0(v: &mut Vec<ClassUnicodeRange>)
    ensures
        rview(final(v)@) == rview(old(v)@) + variation_selector_chunk_0(),
{
    let ghost o = rview(v@);
    push_range(v, '\u{180B}', '\u{180D}');
    push_range(v, '\u{180F}', '\u{180F}');
    push_range(v, '\u{FE00}', '\u{FE0F}');
    push_range(v, '\u{E0100}', '\u{E01EF}');
    assert(rview(v@) =~= o + variation_selector_chunk_0());
}

pub fn variation_selector_class() -> (v: Vec<ClassUnicodeRange>)
    ensures
        rview(v@) == variation_selector_ranges(),
{
    let mut v: Vec<ClassUnicodeRange> = Vec::new();
    assert(rview(v@) =~= Seq::<SRange>::empty());
    push_variation_selector_chunk_0(&mut v);
    assert(rview(v@) =~= variation_selector_chunk_0());
    v
}

pub open spec fn xid_continue_chunk_0() -> Seq<SRange> {
    seq![(0x30int, 0x39int), (0x41int, 0x5Aint), (0x5Fint, 0x5Fint), (0x61int, 0x7Aint), (0xAAint, 0xAAint), (0xB5int, 0xB5int), (0xB7int, 0xB7int), (0xBAint, 0xBAint)]
}

pub open spec fn xid_continue_chunk_1() -> Seq<SRange> {
    seq![(0xC0int, 0xD6int), (0xD8int, 0xF6int), (0xF8int, 0x2C1int), (0x2C6int, 0x2D1int), (0x2E0int, 0x2E4int), (0x2ECint, 0x2ECint), (0x2EEint, 0x2EEint), (0x300int, 0x374int)]
}

pub open spec fn xid_continue_chunk_2() -> Seq<SRange> {
    seq![(0x376int, 0x377int), (0x37Bint, 0x37Dint), (0x37Fint, 0x37Fint), (0x386int, 0x38Aint), (0x38Cint, 0x38Cint), (0x38Eint, 0x3A1int), (0x3A3int, 0x3F5int), (0x3F7int, 0x481int)]
}

pub open spec fn xid_continue_chunk_3() -> Seq<SRange> {
    seq![(0x483int, 0x487int), (0x48Aint, 0x52Fint), (0x531int, 0x556int), (0x559int, 0x559int), (0x560int, 0x588int), (0x591int, 0x5BDint), (0x5BFint, 0x5BFint), (0x5C1int, 0x5C2int)]
}

pub open spec fn xid_continue_chunk_4() -> Seq<SRange> {
    seq![(0x5C4int, 0x5C5int), (0x5C7int, 0x5C7int), (0x5D0int, 0x5EAint), (0x5EFint, 0x5F2int), (0x610int, 0x61Aint), (0x620int, 0x669int), (0x66Eint, 0x6D3int), (0x6D5int, 0x6DCint)]
}

pub open spec fn xid_continue_chunk_5() -> Seq<SRange> {
    seq![(0x6DFint, 0x6E8int), (0x6EAint, 0x6FCint), (0x6FFint, 0x6FFint), (0x710int, 0x74Aint), (0x74Dint, 0x7B1int), (0x7C0int, 0x7F5int), (0x7FAint, 0x7FAint), (0x7FDint, 0x7FDint)]
}

pub open spec fn xid_continue_chunk_6() -> Seq<SRange> {
    seq![(0x800int, 0x82Dint), (0x840int, 0x85Bint), (0x860int, 0x86Aint), (0x870int, 0x887int), (0x889int, 0x88Eint), (0x897int, 0x8E1int), (0x8E3int, 0x963int), (0x966int, 0x96Fint)]
}

pub open spec fn xid_continue_chunk_7() -> Seq<SRange> {
    seq![(0x971int, 0x983int), (0x985int, 0x98Cint), (0x98Fint, 0x990int), (0x993int, 0x9A8int), (0x9AAint, 0x9B0int), (0x9B2int, 0x9B2int), (0x9B6int, 0x9B9int), (0x9BCint, 0x9C4int)]
}

pub open spec fn xid_continue_chunk_8() -> Seq<SRange> {
    seq![(0x9C7int, 0x9C8int), (0x9CBint, 0x9CEint), (0x9D7int, 0x9D7int), (0x9DCint, 0x9DDint), (0x9DFint, 0x9E3int), (0x9E6int, 0x9F1int), (0x9FCint, 0x9FCint), (0x9FEint, 0x9FEint)]
}

pub open spec fn xid_continue_chunk_9() -> Seq<SRange> {
    seq![(0xA01int, 0xA03int), (0xA05int, 0xA0Aint), (0xA0Fint, 0xA10int), (0xA13int, 0xA28int), (0xA2Aint, 0xA30int), (0xA32int, 0xA33int), (0xA35int, 0xA36int), (0xA38int, 0xA39int)]
}

pub open spec fn xid_continue_chunk_10() -> Seq<SRange> {
    seq![(0xA3Cint, 0xA3Cint), (0xA3Eint, 0xA42int), (0xA47int, 0xA48int), (0xA4Bint, 0xA4Dint), (0xA51int, 0xA51int), (0xA59int, 0xA5Cint), (0xA5Eint, 0xA5Eint), (0xA66int, 0xA75int)]
}

pub open spec fn xid_continue_chunk_11() -> Seq<SRange> {
    seq![(0xA81int, 0xA83int), (0xA85int, 0xA8Dint), (0xA8Fint, 0xA91int), (0xA93int, 0xAA8int), (0xAAAint, 0xAB0int), (0xAB2int, 0xAB3int), (0xAB5int, 0xAB9int), (0xABCint, 0xAC5int)]
}

pub open spec fn xid_continue_chunk_12() -> Seq<SRange> {
    seq![(0xAC7int, 0xAC9int), (0xACBint, 0xACDint), (0xAD0int, 0xAD0int), (0xAE0int, 0xAE3int), (0xAE6int, 0xAEFint), (0xAF9int, 0xAFFint), (0xB01int, 0xB03int), (0xB05int, 0xB0Cint)]
}

pub open spec fn xid_continue_chunk_13() -> Seq<SRange> {
    seq![(0xB0Fint, 0xB10int), (0xB13int, 0xB28int), (0xB2Aint, 0xB30int), (0xB32int, 0xB33int), (0xB35int, 0xB39int), (0xB3Cint, 0xB44int), (0xB47int, 0xB48int), (0xB4Bint, 0xB4Dint)]
}

pub open spec fn xid_continue_chunk_14() -> Seq<SRange> {
    seq![(0xB55int, 0xB57int), (0xB5Cint, 0xB5Dint), (0xB5Fint, 0xB63int), (0xB66int, 0xB6Fint), (0xB71int, 0xB71int), (0xB82int, 0xB83int), (0xB85int, 0xB8Aint), (0xB8Eint, 0xB90int)]
}

pub open spec fn xid_continue_chunk_15() -> Seq<SRange> {
    seq![(0xB92int, 0xB95int), (0xB99int, 0xB9Aint), (0xB9Cint, 0xB9Cint), (0xB9Eint, 0xB9Fint), (0xBA3int, 0xBA4int), (0xBA8int, 0xBAAint), (0xBAEint, 0xBB9int), (0xBBEint, 0xBC2int)]
}

pub open spec fn xid_continue_chunk_16() -> Seq<SRange> {
    seq![(0xBC6int, 0xBC8int), (0xBCAint, 0xBCDint), (0xBD0int, 0xBD0int), (0xBD7int, 0xBD7int), (0xBE6int, 0xBEFint), (0xC00int, 0xC0Cint), (0xC0Eint, 0xC10int), (0xC12int, 0xC28int)]
}

pub open spec fn xid_continue_chunk_17() -> Seq<SRange> {
    seq![(0xC2Aint, 0xC39int), (0xC3Cint, 0xC44int), (0xC46int, 0xC48int), (0xC4Aint, 0xC4Dint), (0xC55int, 0xC56int), (0xC58int, 0xC5Aint), (0xC5Dint, 0xC5Dint), (0xC60int, 0xC63int)]
}

pub open spec fn xid_continue_chunk_18() -> Seq<SRange> {
    seq![(0xC66int, 0xC6Fint), (0xC80int, 0xC83int), (0xC85int, 0xC8Cint), (0xC8Eint, 0xC90int), (0xC92int, 0xCA8int), (0xCAAint, 0xCB3int), (0xCB5int, 0xCB9int), (0xCBCint, 0xCC4int)]
}

pub open spec fn xid_continue_chunk_19() -> Seq<SRange> {
    seq![(0xCC6int, 0xCC8int), (0xCCAint, 0xCCDint), (0xCD5int, 0xCD6int), (0xCDDint, 0xCDEint), (0xCE0int, 0xCE3int), (0xCE6int, 0xCEFint), (0xCF1int, 0xCF3int), (0xD00int, 0xD0Cint)]
}

pub open spec fn xid_continue_chunk_20() -> Seq<SRange> {
    seq![(0xD0Eint, 0xD10int), (0xD12int, 0xD44int), (0xD46int, 0xD48int), (0xD4Aint, 0xD4Eint), (0xD54int, 0xD57int), (0xD5Fint, 0xD63int), (0xD66int, 0xD6Fint), (0xD7Aint, 0xD7Fint)]
}

pub open spec fn xid_continue_chunk_21() -> Seq<SRange> {
    seq![(0xD81int, 0xD83int), (0xD85int, 0xD96int), (0xD9Aint, 0xDB1int), (0xDB3int, 0xDBBint), (0xDBDint, 0xDBDint), (0xDC0int, 0xDC6int), (0xDCAint, 0xDCAint), (0xDCFint, 0xDD4int)]
}

pub open spec fn xid_continue_chunk_22() -> Seq<SRange> {
    seq![(0xDD6int, 0xDD6int), (0xDD8int, 0xDDFint), (0xDE6int, 0xDEFint), (0xDF2int, 0xDF3int), (0xE01int, 0xE3Aint), (0xE40int, 0xE4Eint), (0xE50int, 0xE59int), (0xE81int, 0xE82int)]
}

pub open spec fn xid_continue_chunk_23() -> Seq<SRange> {
    seq![(0xE84int, 0xE84int), (0xE86int, 0xE8Aint), (0xE8Cint, 0xEA3int), (0xEA5int, 0xEA5int), (0xEA7int, 0xEBDint), (0xEC0int, 0xEC4int), (0xEC6int, 0xEC6int), (0xEC8int, 0xECEint)]
}

pub open spec fn xid_continue_chunk_24() -> Seq<SRange> {
    seq![(0xED0int, 0xED9int), (0xEDCint, 0xEDFint), (0xF00int, 0xF00int), (0xF18int, 0xF19int), (0xF20int, 0xF29int), (0xF35int, 0xF35int), (0xF37int, 0xF37int), (0xF39int, 0xF39int)]
}

pub open spec fn xid_continue_chunk_25() -> Seq<SRange> {
    seq![(0xF3Eint, 0xF47int), (0xF49int, 0xF6Cint), (0xF71int, 0xF84int), (0xF86int, 0xF97int), (0xF99int, 0xFBCint), (0xFC6int, 0xFC6int), (0x1000int, 0x1049int), (0x1050int, 0x109Dint)]
}

pub open spec fn xid_continue_chunk_26() -> Seq<SRange> {
    seq![(0x10A0int, 0x10C5int), (0x10C7int, 0x10C7int), (0x10CDint, 0x10CDint), (0x10D0int, 0x10FAint), (0x10FCint, 0x1248int), (0x124Aint, 0x124Dint), (0x1250int, 0x1256int), (0x1258int, 0x1258int)]
}

pub open spec fn xid_continue_chunk_27() -> Seq<SRange> {
    seq![(0x125Aint, 0x125Dint), (0x1260int, 0x1288int), (0x128Aint, 0x128Dint), (0x1290int, 0x12B0int), (0x12B2int, 0x12B5int), (0x12B8int, 0x12BEint), (0x12C0int, 0x12C0int), (0x12C2int, 0x12C5int)]
}

pub open spec fn xid_continue_chunk_28() -> Seq<SRange> {
    seq![(0x12C8int, 0x12D6int), (0x12D8int, 0x1310int), (0x1312int, 0x1315int), (0x1318int, 0x135Aint), (0x135Dint, 0x135Fint), (0x1369int, 0x1371int), (0x1380int, 0x138Fint), (0x13A0int, 0x13F5int)]
}

pub open spec fn xid_continue_chunk_29() -> Seq<SRange> {
    seq![(0x13F8int, 0x13FDint), (0x1401int, 0x166Cint), (0x166Fint, 0x167Fint), (0x1681int, 0x169Aint), (0x16A0int, 0x16EAint), (0x16EEint, 0x16F8int), (0x1700int, 0x1715int), (0x171Fint, 0x1734int)]
}

pub open spec fn xid_continue_chunk_30() -> Seq<SRange> {
    seq![(0x1740int, 0x1753int), (0x1760int, 0x176Cint), (0x176Eint, 0x1770int), (0x1772int, 0x1773int), (0x1780int, 0x17D3int), (0x17D7int, 0x17D7int), (0x17DCint, 0x17DDint), (0x17E0int, 0x17E9int)]
}

pub open spec fn xid_continue_chunk_31() -> Seq<SRange> {
    seq![(0x180Bint, 0x180Dint), (0x180Fint, 0x1819int), (0x1820int, 0x1878int), (0x1880int, 0x18AAint), (0x18B0int, 0x18F5int), (0x1900int, 0x191Eint), (0x1920int, 0x192Bint), (0x1930int, 0x193Bint)]
}

pub open spec fn xid_continue_chunk_32() -> Seq<SRange> {
    seq![(0x1946int, 0x196Dint), (0x1970int, 0x1974int), (0x1980int, 0x19ABint), (0x19B0int, 0x19C9int), (0x19D0int, 0x19DAint), (0x1A00int, 0x1A1Bint), (0x1A20int, 0x1A5Eint), (0x1A60int, 0x1A7Cint)]
}

pub open spec fn xid_continue_chunk_33() -> Seq<SRange> {
    seq![(0x1A7Fint, 0x1A89int), (0x1A90int, 0x1A99int), (0x1AA7int, 0x1AA7int), (0x1AB0int, 0x1ABDint), (0x1ABFint, 0x1ACEint), (0x1B00int, 0x1B4Cint), (0x1B50int, 0x1B59int), (0x1B6Bint, 0x1B73int)]
}

pub open spec fn xid_continue_chunk_34() -> Seq<SRange> {
    seq![(0x1B80int, 0x1BF3int), (0x1C00int, 0x1C37int), (0x1C40int, 0x1C49int), (0x1C4Dint, 0x1C7Dint), (0x1C80int, 0x1C8Aint), (0x1C90int, 0x1CBAint), (0x1CBDint, 0x1CBFint), (0x1CD0int, 0x1CD2int)]
}

pub open spec fn xid_continue_chunk_35() -> Seq<SRange> {
    seq![(0x1CD4int, 0x1CFAint), (0x1D00int, 0x1F15int), (0x1F18int, 0x1F1Dint), (0x1F20int, 0x1F45int), (0x1F48int, 0x1F4Dint), (0x1F50int, 0x1F57int), (0x1F59int, 0x1F59int), (0x1F5Bint, 0x1F5Bint)]
}

pub open spec fn xid_continue_chunk_36() -> Seq<SRange> {
    seq![(0x1F5Dint, 0x1F5Dint), (0x1F5Fint, 0x1F7Dint), (0x1F80int, 0x1FB4int), (0x1FB6int, 0x1FBCint), (0x1FBEint, 0x1FBEint), (0x1FC2int, 0x1FC4int), (0x1FC6int, 0x1FCCint), (0x1FD0int, 0x1FD3int)]
}

pub open spec fn xid_continue_chunk_37() -> Seq<SRange> {
    seq![(0x1FD6int, 0x1FDBint), (0x1FE0int, 0x1FECint), (0x1FF2int, 0x1FF4int), (0x1FF6int, 0x1FFCint), (0x200Cint, 0x200Dint), (0x203Fint, 0x2040int), (0x2054int, 0x2054int), (0x2071int, 0x2071int)]
}

pub open spec fn xid_continue_chunk_38() -> Seq<SRange> {
    seq![(0x207Fint, 0x207Fint), (0x2090int, 0x209Cint), (0x20D0int, 0x20DCint), (0x20E1int, 0x20E1int), (0x20E5int, 0x20F0int), (0x2102int, 0x2102int), (0x2107int, 0x2107int), (0x210Aint, 0x2113int)]
}

pub open spec fn xid_continue_chunk_39() -> Seq<SRange> {
    seq![(0x2115int, 0x2115int), (0x2118int, 0x211Dint), (0x2124int, 0x2124int), (0x2126int, 0x2126int), (0x2128int, 0x2128int), (0x212Aint, 0x2139int), (0x213Cint, 0x213Fint), (0x2145int, 0x2149int)]
}

pub open spec fn xid_continue_chunk_40() -> Seq<SRange> {
    seq![(0x214Eint, 0x214Eint), (0x2160int, 0x2188int), (0x2C00int, 0x2CE4int), (0x2CEBint, 0x2CF3int), (0x2D00int, 0x2D25int), (0x2D27int, 0x2D27int), (0x2D2Dint, 0x2D2Dint), (0x2D30int, 0x2D67int)]
}

pub open spec fn xid_continue_chunk_41() -> Seq<SRange> {
    seq![(0x2D6Fint, 0x2D6Fint), (0x2D7Fint, 0x2D96int), (0x2DA0int, 0x2DA6int), (0x2DA8int, 0x2DAEint), (0x2DB0int, 0x2DB6int), (0x2DB8int, 0x2DBEint), (0x2DC0int, 0x2DC6int), (0x2DC8int, 0x2DCEint)]
}

pub open spec fn xid_continue_chunk_42() -> Seq<SRange> {
    seq![(0x2DD0int, 0x2DD6int), (0x2DD8int, 0x2DDEint), (0x2DE0int, 0x2DFFint), (0x3005int, 0x3007int), (0x3021int, 0x302Fint), (0x3031int, 0x3035int), (0x3038int, 0x303Cint), (0x3041int, 0x3096int)]
}

pub open spec fn xid_continue_chunk_43() -> Seq<SRange> {
    seq![(0x3099int, 0x309Aint), (0x309Dint, 0x309Fint), (0x30A1int, 0x30FFint), (0x3105int, 0x312Fint), (0x3131int, 0x318Eint), (0x31A0int, 0x31BFint), (0x31F0int, 0x31FFint), (0x3400int, 0x4DBFint)]
}

pub open spec fn xid_continue_chunk_44() -> Seq<SRange> {
    seq![(0x4E00int, 0xA48Cint), (0xA4D0int, 0xA4FDint), (0xA500int, 0xA60Cint), (0xA610int, 0xA62Bint), (0xA640int, 0xA66Fint), (0xA674int, 0xA67Dint), (0xA67Fint, 0xA6F1int), (0xA717int, 0xA71Fint)]
}

pub open spec fn xid_continue_chunk_45() -> Seq<SRange> {
    seq![(0xA722int, 0xA788int), (0xA78Bint, 0xA7CDint), (0xA7D0int, 0xA7D1int), (0xA7D3int, 0xA7D3int), (0xA7D5int, 0xA7DCint), (0xA7F2int, 0xA827int), (0xA82Cint, 0xA82Cint), (0xA840int, 0xA873int)]
}

pub open spec fn xid_continue_chunk_46() -> Seq<SRange> {
    seq![(0xA880int, 0xA8C5int), (0xA8D0int, 0xA8D9int), (0xA8E0int, 0xA8F7int), (0xA8FBint, 0xA8FBint), (0xA8FDint, 0xA92Dint), (0xA930int, 0xA953int), (0xA960int, 0xA97Cint), (0xA980int, 0xA9C0int)]
}

pub open spec fn xid_continue_chunk_47() -> Seq<SRange> {
    seq![(0xA9CFint, 0xA9D9int), (0xA9E0int, 0xA9FEint), (0xAA00int, 0xAA36int), (0xAA40int, 0xAA4Dint), (0xAA50int, 0xAA59int), (0xAA60int, 0xAA76int), (0xAA7Aint, 0xAAC2int), (0xAADBint, 0xAADDint)]
}

pub open spec fn xid_continue_chunk_48() -> Seq<SRange> {
    seq![(0xAAE0int, 0xAAEFint), (0xAAF2int, 0xAAF6int), (0xAB01int, 0xAB06int), (0xAB09int, 0xAB0Eint), (0xAB11int, 0xAB16int), (0xAB20int, 0xAB26int), (0xAB28int, 0xAB2Eint), (0xAB30int, 0xAB5Aint)]
}

pub open spec fn xid_continue_chunk_49() -> Seq<SRange> {
    seq![(0xAB5Cint, 0xAB69int), (0xAB70int, 0xABEAint), (0xABECint, 0xABEDint), (0xABF0int, 0xABF9int), (0xAC00int, 0xD7A3int), (0xD7B0int, 0xD7C6int), (0xD7CBint, 0xD7FBint), (0xF900int, 0xFA6Dint)]
}

pub open spec fn xid_continue_chunk_50() -> Seq<SRange> {
    seq![(0xFA70int, 0xFAD9int), (0xFB00int, 0xFB06int), (0xFB13int, 0xFB17int), (0xFB1Dint, 0xFB28int), (0xFB2Aint, 0xFB36int), (0xFB38int, 0xFB3Cint), (0xFB3Eint, 0xFB3Eint), (0xFB40int, 0xFB41int)]
}

pub open spec fn xid_continue_chunk_51() -> Seq<SRange> {
    seq![(0xFB43int, 0xFB44int), (0xFB46int, 0xFBB1int), (0xFBD3int, 0xFC5Dint), (0xFC64int, 0xFD3Dint), (0xFD50int, 0xFD8Fint), (0xFD92int, 0xFDC7int), (0xFDF0int, 0xFDF9int), (0xFE00int, 0xFE0Fint)]
}

pub open spec fn xid_continue_chunk_52() -> Seq<SRange> {
    seq![(0xFE20int, 0xFE2Fint), (0xFE33int, 0xFE34int), (0xFE4Dint, 0xFE4Fint), (0xFE71int, 0xFE71int), (0xFE73int, 0xFE73int), (0xFE77int, 0xFE77int), (0xFE79int, 0xFE79int), (0xFE7Bint, 0xFE7Bint)]
}

pub open spec fn xid_continue_chunk_53() -> Seq<SRange> {
    seq![(0xFE7Dint, 0xFE7Dint), (0xFE7Fint, 0xFEFCint), (0xFF10int, 0xFF19int), (0xFF21int, 0xFF3Aint), (0xFF3Fint, 0xFF3Fint), (0xFF41int, 0xFF5Aint), (0xFF65int, 0xFFBEint), (0xFFC2int, 0xFFC7int)]
}

pub open spec fn xid_continue_chunk_54() -> Seq<SRange> {
    seq![(0xFFCAint, 0xFFCFint), (0xFFD2int, 0xFFD7int), (0xFFDAint, 0xFFDCint), (0x10000int, 0x1000Bint), (0x1000Dint, 0x10026int), (0x10028int, 0x1003Aint), (0x1003Cint, 0x1003Dint), (0x1003Fint, 0x1004Dint)]
}

pub open spec fn xid_continue_chunk_55() -> Seq<SRange> {
    seq![(0x10050int, 0x1005Dint), (0x10080int, 0x100FAint), (0x10140int, 0x10174int), (0x101FDint, 0x101FDint), (0x10280int, 0x1029Cint), (0x102A0int, 0x102D0int), (0x102E0int, 0x102E0int), (0x10300int, 0x1031Fint)]
}

pub open spec fn xid_continue_chunk_56() -> Seq<SRange> {
    seq![(0x1032Dint, 0x1034Aint), (0x10350int, 0x1037Aint), (0x10380int, 0x1039Dint), (0x103A0int, 0x103C3int), (0x103C8int, 0x103CFint), (0x103D1int, 0x103D5int), (0x10400int, 0x1049Dint), (0x104A0int, 0x104A9int)]
}

pub open spec fn xid_continue_chunk_57() -> Seq<SRange> {
    seq![(0x104B0int, 0x104D3int), (0x104D8int, 0x104FBint), (0x10500int, 0x10527int), (0x10530int, 0x10563int), (0x10570int, 0x1057Aint), (0x1057Cint, 0x1058Aint), (0x1058Cint, 0x10592int), (0x10594int, 0x10595int)]
}

pub open spec fn xid_continue_chunk_58() -> Seq<SRange> {
    seq![(0x10597int, 0x105A1int), (0x105A3int, 0x105B1int), (0x105B3int, 0x105B9int), (0x105BBint, 0x105BCint), (0x105C0int, 0x105F3int), (0x10600int, 0x10736int), (0x10740int, 0x10755int), (0x10760int, 0x10767int)]
}

pub open spec fn xid_continue_chunk_59() -> Seq<SRange> {
    seq![(0x10780int, 0x10785int), (0x10787int, 0x107B0int), (0x107B2int, 0x107BAint), (0x10800int, 0x10805int), (0x10808int, 0x10808int), (0x1080Aint, 0x10835int), (0x10837int, 0x10838int), (0x1083Cint, 0x1083Cint)]
}

pub open spec fn xid_continue_chunk_60() -> Seq<SRange> {
    seq![(0x1083Fint, 0x10855int), (0x10860int, 0x10876int), (0x10880int, 0x1089Eint), (0x108E0int, 0x108F2int), (0x108F4int, 0x108F5int), (0x10900int, 0x10915int), (0x10920int, 0x10939int), (0x10980int, 0x109B7int)]
}

pub open spec fn xid_continue_chunk_61() -> Seq<SRange> {
    seq![(0x109BEint, 0x109BFint), (0x10A00int, 0x10A03int), (0x10A05int, 0x10A06int), (0x10A0Cint, 0x10A13int), (0x10A15int, 0x10A17int), (0x10A19int, 0x10A35int), (0x10A38int, 0x10A3Aint), (0x10A3Fint, 0x10A3Fint)]
}

pub open spec fn xid_continue_chunk_62() -> Seq<SRange> {
    seq![(0x10A60int, 0x10A7Cint), (0x10A80int, 0x10A9Cint), (0x10AC0int, 0x10AC7int), (0x10AC9int, 0x10AE6int), (0x10B00int, 0x10B35int), (0x10B40int, 0x10B55int), (0x10B60int, 0x10B72int), (0x10B80int, 0x10B91int)]
}

pub open spec fn xid_continue_chunk_63() -> Seq<SRange> {
    seq![(0x10C00int, 0x10C48int), (0x10C80int, 0x10CB2int), (0x10CC0int, 0x10CF2int), (0x10D00int, 0x10D27int), (0x10D30int, 0x10D39int), (0x10D40int, 0x10D65int), (0x10D69int, 0x10D6Dint), (0x10D6Fint, 0x10D85int)]
}

pub open spec fn xid_continue_chunk_64() -> Seq<SRange> {
    seq![(0x10E80int, 0x10EA9int), (0x10EABint, 0x10EACint), (0x10EB0int, 0x10EB1int), (0x10EC2int, 0x10EC4int), (0x10EFCint, 0x10F1Cint), (0x10F27int, 0x10F27int), (0x10F30int, 0x10F50int), (0x10F70int, 0x10F85int)]
}

pub open spec fn xid_continue_chunk_65() -> Seq<SRange> {
    seq![(0x10FB0int, 0x10FC4int), (0x10FE0int, 0x10FF6int), (0x11000int, 0x11046int), (0x11066int, 0x11075int), (0x1107Fint, 0x110BAint), (0x110C2int, 0x110C2int), (0x110D0int, 0x110E8int), (0x110F0int, 0x110F9int)]
}

pub open spec fn xid_continue_chunk_66() -> Seq<SRange> {
    seq![(0x11100int, 0x11134int), (0x11136int, 0x1113Fint), (0x11144int, 0x11147int), (0x11150int, 0x11173int), (0x11176int, 0x11176int), (0x11180int, 0x111C4int), (0x111C9int, 0x111CCint), (0x111CEint, 0x111DAint)]
}

pub open spec fn xid_continue_chunk_67() -> Seq<SRange> {
    seq![(0x111DCint, 0x111DCint), (0x11200int, 0x11211int), (0x11213int, 0x11237int), (0x1123Eint, 0x11241int), (0x11280int, 0x11286int), (0x11288int, 0x11288int), (0x1128Aint, 0x1128Dint), (0x1128Fint, 0x1129Dint)]
}

pub open spec fn xid_continue_chunk_68() -> Seq<SRange> {
    seq![(0x1129Fint, 0x112A8int), (0x112B0int, 0x112EAint), (0x112F0int, 0x112F9int), (0x11300int, 0x11303int), (0x11305int, 0x1130Cint), (0x1130Fint, 0x11310int), (0x11313int, 0x11328int), (0x1132Aint, 0x11330int)]
}

pub open spec fn xid_continue_chunk_69() -> Seq<SRange> {
    seq![(0x11332int, 0x11333int), (0x11335int, 0x11339int), (0x1133Bint, 0x11344int), (0x11347int, 0x11348int), (0x1134Bint, 0x1134Dint), (0x11350int, 0x11350int), (0x11357int, 0x11357int), (0x1135Dint, 0x11363int)]
}

pub open spec fn xid_continue_chunk_70() -> Seq<SRange> {
    seq![(0x11366int, 0x1136Cint), (0x11370int, 0x11374int), (0x11380int, 0x11389int), (0x1138Bint, 0x1138Bint), (0x1138Eint, 0x1138Eint), (0x11390int, 0x113B5int), (0x113B7int, 0x113C0int), (0x113C2int, 0x113C2int)]
}

pub open spec fn xid_continue_chunk_71() -> Seq<SRange> {
    seq![(0x113C5int, 0x113C5int), (0x113C7int, 0x113CAint), (0x113CCint, 0x113D3int), (0x113E1int, 0x113E2int), (0x11400int, 0x1144Aint), (0x11450int, 0x11459int), (0x1145Eint, 0x11461int), (0x11480int, 0x114C5int)]
}

pub open spec fn xid_continue_chunk_72() -> Seq<SRange> {
    seq![(0x114C7int, 0x114C7int), (0x114D0int, 0x114D9int), (0x11580int, 0x115B5int), (0x115B8int, 0x115C0int), (0x115D8int, 0x115DDint), (0x11600int, 0x11640int), (0x11644int, 0x11644int), (0x11650int, 0x11659int)]
}

pub open spec fn xid_continue_chunk_73() -> Seq<SRange> {
    seq![(0x11680int, 0x116B8int), (0x116C0int, 0x116C9int), (0x116D0int, 0x116E3int), (0x11700int, 0x1171Aint), (0x1171Dint, 0x1172Bint), (0x11730int, 0x11739int), (0x11740int, 0x11746int), (0x11800int, 0x1183Aint)]
}

pub open spec fn xid_continue_chunk_74() -> Seq<SRange> {
    seq![(0x118A0int, 0x118E9int), (0x118FFint, 0x11906int), (0x11909int, 0x11909int), (0x1190Cint, 0x11913int), (0x11915int, 0x11916int), (0x11918int, 0x11935int), (0x11937int, 0x11938int), (0x1193Bint, 0x11943int)]
}

pub open spec fn xid_continue_chunk_75() -> Seq<SRange> {
    seq![(0x11950int, 0x11959int), (0x119A0int, 0x119A7int), (0x119AAint, 0x119D7int), (0x119DAint, 0x119E1int), (0x119E3int, 0x119E4int), (0x11A00int, 0x11A3Eint), (0x11A47int, 0x11A47int), (0x11A50int, 0x11A99int)]
}

pub open spec fn xid_continue_chunk_76() -> Seq<SRange> {
    seq![(0x11A9Dint, 0x11A9Dint), (0x11AB0int, 0x11AF8int), (0x11BC0int, 0x11BE0int), (0x11BF0int, 0x11BF9int), (0x11C00int, 0x11C08int), (0x11C0Aint, 0x11C36int), (0x11C38int, 0x11C40int), (0x11C50int, 0x11C59int)]
}

pub open spec fn xid_continue_chunk_77() -> Seq<SRange> {
    seq![(0x11C72int, 0x11C8Fint), (0x11C92int, 0x11CA7int), (0x11CA9int, 0x11CB6int), (0x11D00int, 0x11D06int), (0x11D08int, 0x11D09int), (0x11D0Bint, 0x11D36int), (0x11D3Aint, 0x11D3Aint), (0x11D3Cint, 0x11D3Dint)]
}

pub open spec fn xid_continue_chunk_78() -> Seq<SRange> {
    seq![(0x11D3Fint, 0x11D47int), (0x11D50int, 0x11D59int), (0x11D60int, 0x11D65int), (0x11D67int, 0x11D68int), (0x11D6Aint, 0x11D8Eint), (0x11D90int, 0x11D91int), (0x11D93int, 0x11D98int), (0x11DA0int, 0x11DA9int)]
}

pub open spec fn xid_continue_chunk_79() -> Seq<SRange> {
    seq![(0x11EE0int, 0x11EF6int), (0x11F00int, 0x11F10int), (0x11F12int, 0x11F3Aint), (0x11F3Eint, 0x11F42int), (0x11F50int, 0x11F5Aint), (0x11FB0int, 0x11FB0int), (0x12000int, 0x12399int), (0x12400int, 0x1246Eint)]
}

pub open spec fn xid_continue_chunk_80() -> Seq<SRange> {
    seq![(0x12480int, 0x12543int), (0x12F90int, 0x12FF0int), (0x13000int, 0x1342Fint), (0x13440int, 0x13455int), (0x13460int, 0x143FAint), (0x14400int, 0x14646int), (0x16100int, 0x16139int), (0x16800int, 0x16A38int)]
}

pub open spec fn xid_continue_chunk_81() -> Seq<SRange> {
    seq![(0x16A40int, 0x16A5Eint), (0x16A60int, 0x16A69int), (0x16A70int, 0x16ABEint), (0x16AC0int, 0x16AC9int), (0x16AD0int, 0x16AEDint), (0x16AF0int, 0x16AF4int), (0x16B00int, 0x16B36int), (0x16B40int, 0x16B43int)]
}

pub open spec fn xid_continue_chunk_82() -> Seq<SRange> {
    seq![(0x16B50int, 0x16B59int), (0x16B63int, 0x16B77int), (0x16B7Dint, 0x16B8Fint), (0x16D40int, 0x16D6Cint), (0x16D70int, 0x16D79int), (0x16E40int, 0x16E7Fint), (0x16F00int, 0x16F4Aint), (0x16F4Fint, 0x16F87int)]
}

pub open spec fn xid_continue_chunk_83() -> Seq<SRange> {
    seq![(0x16F8Fint, 0x16F9Fint), (0x16FE0int, 0x16FE1int), (0x16FE3int, 0x16FE4int), (0x16FF0int, 0x16FF1int), (0x17000int, 0x187F7int), (0x18800int, 0x18CD5int), (0x18CFFint, 0x18D08int), (0x1AFF0int, 0x1AFF3int)]
}

pub open spec fn xid_continue_chunk_84() -> Seq<SRange> {
    seq![(0x1AFF5int, 0x1AFFBint), (0x1AFFDint, 0x1AFFEint), (0x1B000int, 0x1B122int), (0x1B132int, 0x1B132int), (0x1B150int, 0x1B152int), (0x1B155int, 0x1B155int), (0x1B164int, 0x1B167int), (0x1B170int, 0x1B2FBint)]
}

pub open spec fn xid_continue_chunk_85() -> Seq<SRange> {
    seq![(0x1BC00int, 0x1BC6Aint), (0x1BC70int, 0x1BC7Cint), (0x1BC80int, 0x1BC88int), (0x1BC90int, 0x1BC99int), (0x1BC9Dint, 0x1BC9Eint), (0x1CCF0int, 0x1CCF9int), (0x1CF00int, 0x1CF2Dint), (0x1CF30int, 0x1CF46int)]
}

pub open spec fn xid_continue_chunk_86() -> Seq<SRange> {
    seq![(0x1D165int, 0x1D169int), (0x1D16Dint, 0x1D172int), (0x1D17Bint, 0x1D182int), (0x1D185int, 0x1D18Bint), (0x1D1AAint, 0x1D1ADint), (0x1D242int, 0x1D244int), (0x1D400int, 0x1D454int), (0x1D456int, 0x1D49Cint)]
}

pub open spec fn xid_continue_chunk_87() -> Seq<SRange> {
    seq![(0x1D49Eint, 0x1D49Fint), (0x1D4A2int, 0x1D4A2int), (0x1D4A5int, 0x1D4A6int), (0x1D4A9int, 0x1D4ACint), (0x1D4AEint, 0x1D4B9int), (0x1D4BBint, 0x1D4BBint), (0x1D4BDint, 0x1D4C3int), (0x1D4C5int, 0x1D505int)]
}

pub open spec fn xid_continue_chunk_88() -> Seq<SRange> {
    seq![(0x1D507int, 0x1D50Aint), (0x1D50Dint, 0x1D514int), (0x1D516int, 0x1D51Cint), (0x1D51Eint, 0x1D539int), (0x1D53Bint, 0x1D53Eint), (0x1D540int, 0x1D544int), (0x1D546int, 0x1D546int), (0x1D54Aint, 0x1D550int)]
}

pub open spec fn xid_continue_chunk_89() -> Seq<SRange> {
    seq![(0x1D552int, 0x1D6A5int), (0x1D6A8int, 0x1D6C0int), (0x1D6C2int, 0x1D6DAint), (0x1D6DCint, 0x1D6FAint), (0x1D6FCint, 0x1D714int), (0x1D716int, 0x1D734int), (0x1D736int, 0x1D74Eint), (0x1D750int, 0x1D76Eint)]
}

pub open spec fn xid_continue_chunk_90() -> Seq<SRange> {
    seq![(0x1D770int, 0x1D788int), (0x1D78Aint, 0x1D7A8int), (0x1D7AAint, 0x1D7C2int), (0x1D7C4int, 0x1D7CBint), (0x1D7CEint, 0x1D7FFint), (0x1DA00int, 0x1DA36int), (0x1DA3Bint, 0x1DA6Cint), (0x1DA75int, 0x1DA75int)]
}

pub open spec fn xid_continue_chunk_91() -> Seq<SRange> {
    seq![(0x1DA84int, 0x1DA84int), (0x1DA9Bint, 0x1DA9Fint), (0x1DAA1int, 0x1DAAFint), (0x1DF00int, 0x1DF1Eint), (0x1DF25int, 0x1DF2Aint), (0x1E000int, 0x1E006int), (0x1E008int, 0x1E018int), (0x1E01Bint, 0x1E021int)]
}

pub open spec fn xid_continue_chunk_92() -> Seq<SRange> {
    seq![(0x1E023int, 0x1E024int), (0x1E026int, 0x1E02Aint), (0x1E030int, 0x1E06Dint), (0x1E08Fint, 0x1E08Fint), (0x1E100int, 0x1E12Cint), (0x1E130int, 0x1E13Dint), (0x1E140int, 0x1E149int), (0x1E14Eint, 0x1E14Eint)]
}

pub open spec fn xid_continue_chunk_93() -> Seq<SRange> {
    seq![(0x1E290int, 0x1E2AEint), (0x1E2C0int, 0x1E2F9int), (0x1E4D0int, 0x1E4F9int), (0x1E5D0int, 0x1E5FAint), (0x1E7E0int, 0x1E7E6int), (0x1E7E8int, 0x1E7EBint), (0x1E7EDint, 0x1E7EEint), (0x1E7F0int, 0x1E7FEint)]
}

pub open spec fn xid_continue_chunk_94() -> Seq<SRange> {
    seq![(0x1E800int, 0x1E8C4int), (0x1E8D0int, 0x1E8D6int), (0x1E900int, 0x1E94Bint), (0x1E950int, 0x1E959int), (0x1EE00int, 0x1EE03int), (0x1EE05int, 0x1EE1Fint), (0x1EE21int, 0x1EE22int), (0x1EE24int, 0x1EE24int)]
}

pub open spec fn xid_continue_chunk_95() -> Seq<SRange> {
    seq![(0x1EE27int, 0x1EE27int), (0x1EE29int, 0x1EE32int), (0x1EE34int, 0x1EE37int), (0x1EE39int, 0x1EE39int), (0x1EE3Bint, 0x1EE3Bint), (0x1EE42int, 0x1EE42int), (0x1EE47int, 0x1EE47int), (0x1EE49int, 0x1EE49int)]
}

pub open spec fn xid_continue_chunk_96() -> Seq<SRange> {
    seq![(0x1EE4Bint, 0x1EE4Bint), (0x1EE4Dint, 0x1EE4Fint), (0x1EE51int, 0x1EE52int), (0x1EE54int, 0x1EE54int), (0x1EE57int, 0x1EE57int), (0x1EE59int, 0x1EE59int), (0x1EE5Bint, 0x1EE5Bint), (0x1EE5Dint, 0x1EE5Dint)]
}

pub open spec fn xid_continue_chunk_97() -> Seq<SRange> {
    seq![(0x1EE5Fint, 0x1EE5Fint), (0x1EE61int, 0x1EE62int), (0x1EE64int, 0x1EE64int), (0x1EE67int, 0x1EE6Aint), (0x1EE6Cint, 0x1EE72int), (0x1EE74int, 0x1EE77int), (0x1EE79int, 0x1EE7Cint), (0x1EE7Eint, 0x1EE7Eint)]
}

pub open spec fn xid_continue_chunk_98() -> Seq<SRange> {
    seq![(0x1EE80int, 0x1EE89int), (0x1EE8Bint, 0x1EE9Bint), (0x1EEA1int, 0x1EEA3int), (0x1EEA5int, 0x1EEA9int), (0x1EEABint, 0x1EEBBint), (0x1FBF0int, 0x1FBF9int), (0x20000int, 0x2A6DFint), (0x2A700int, 0x2B739int)]
}

pub open spec fn xid_continue_chunk_99() -> Seq<SRange> {
    seq![(0x2B740int, 0x2B81Dint), (0x2B820int, 0x2CEA1int), (0x2CEB0int, 0x2EBE0int), (0x2EBF0int, 0x2EE5Dint), (0x2F800int, 0x2FA1Dint), (0x30000int, 0x3134Aint), (0x31350int, 0x323AFint), (0xE0100int, 0xE01EFint)]
}

pub open spec fn xid_continue_block_0() -> Seq<SRange> {
    xid_continue_chunk_0() + xid_continue_chunk_1() + xid_continue_chunk_2() + xid_continue_chunk_3() + xid_continue_chunk_4() + xid_continue_chunk_5() + xid_continue_chunk_6() + xid_continue_chunk_7() + xid_continue_chunk_8() + xid_continue_chunk_9()
}

pub open spec fn xid_continue_block_1() -> Seq<SRange> {
    xid_continue_chunk_10() + xid_continue_chunk_11() + xid_continue_chunk_12() + xid_continue_chunk_13() + xid_continue_chunk_14() + xid_continue_chunk_15() + xid_continue_chunk_16() + xid_continue_chunk_17() + xid_continue_chunk_18() + xid_continue_chunk_19()
}

pub open spec fn xid_continue_block_2() -> Seq<SRange> {
    xid_continue_chunk_20() + xid_continue_chunk_21() + xid_continue_chunk_22() + xid_continue_chunk_23() + xid_continue_chunk_24() + xid_continue_chunk_25() + xid_continue_chunk_26() + xid_continue_chunk_27() + xid_continue_chunk_28() + xid_continue_chunk_29()
}

pub open spec fn xid_continue_block_3() -> Seq<SRange> {
    xid_continue_chunk_30() + xid_continue_chunk_31() + xid_continue_chunk_32() + xid_continue_chunk_33() + xid_continue_chunk_34() + xid_continue_chunk_35() + xid_continue_chunk_36() + xid_continue_chunk_37() + xid_continue_chunk_38() + xid_continue_chunk_39()
}

pub open spec fn xid_continue_block_4() -> Seq<SRange> {
    xid_continue_chunk_40() + xid_continue_chunk_41() + xid_continue_chunk_42() + xid_continue_chunk_43() + xid_continue_chunk_44() + xid_continue_chunk_45() + xid_continue_chunk_46() + xid_continue_chunk_47() + xid_continue_chunk_48() + xid_continue_chunk_49()
}

pub open spec fn xid_continue_block_5() -> Seq<SRange> {
    xid_continue_chunk_50() + xid_continue_chunk_51() + xid_continue_chunk_52() + xid_continue_chunk_53() + xid_continue_chunk_54() + xid_continue_chunk_55() + xid_continue_chunk_56() + xid_continue_chunk_57() + xid_continue_chunk_58() + xid_continue_chunk_59()
}

pub open spec fn xid_continue_block_6() -> Seq<SRange> {
    xid_continue_chunk_60() + xid_continue_chunk_61() + xid_continue_chunk_62() + xid_continue_chunk_63() + xid_continue_chunk_64() + xid_continue_chunk_65() + xid_continue_chunk_66() + xid_continue_chunk_67() + xid_continue_chunk_68() + xid_continue_chunk_69()
}

pub open spec fn xid_continue_block_7() -> Seq<SRange> {
    xid_continue_chunk_70() + xid_continue_chunk_71() + xid_continue_chunk_72() + xid_continue_chunk_73() + xid_continue_chunk_74() + xid_continue_chunk_75() + xid_continue_chunk_76() + xid_continue_chunk_77() + xid_continue_chunk_78() + xid_continue_chunk_79()
}

pub open spec fn xid_continue_block_8() -> Seq<SRange> {
    xid_continue_chunk_80() + xid_continue_chunk_81() + xid_continue_chunk_82() + xid_continue_chunk_83() + xid_continue_chunk_84() + xid_continue_chunk_85() + xid_continue_chunk_86() + xid_continue_chunk_87() + xid_continue_chunk_88() + xid_continue_chunk_89()
}

pub open spec fn xid_continue_block_9() -> Seq<SRange> {
    xid_continue_chunk_90() + xid_continue_chunk_91() + xid_continue_chunk_92() + xid_continue_chunk_93() + xid_continue_chunk_94() + xid_continue_chunk_95() + xid_continue_chunk_96() + xid_continue_chunk_97() + xid_continue_chunk_98() + xid_continue_chunk_99()
}

/// The ranges of the property XID_Continue.
pub open spec fn xid_continue_ranges() -> Seq<SRange> {
    xid_continue_block_0() + xid_continue_block_1() + xid_continue_block_2() + xid_continue_block_3() + xid_continue_block_4() + xid_continue_block_5() + xid_continue_block_6() + xid_continue_block_7() + xid_continue_block_8() + xid_continue_block_9()
}

proof fn lemma_xid_continue_block_0()
    ensures
        canonical(xid_continue_block_0()),
        xid_continue_block_0().len() > 0,
        xid_continue_block_0()[0] == xid_continue_chunk_0()[0],
        xid_continue_block_0().last() == xid_continue_chunk_9().last(),
{
    reveal_with_fuel(canonical, 9);
    assert(canonical(xid_continue_chunk_0()));
    assert(canonical(xid_continue_chunk_1()));
    assert(canonical(xid_continue_chunk_2()));
    assert(canonical(xid_continue_chunk_3()));
    assert(canonical(xid_continue_chunk_4()));
    assert(canonical(xid_continue_chunk_5()));
    assert(canonical(xid_continue_chunk_6()));
    assert(canonical(xid_continue_chunk_7()));
    assert(canonical(xid_continue_chunk_8()));
    assert(canonical(xid_continue_chunk_9()));
    lemma_canonical_append(xid_continue_chunk_0(), xid_continue_chunk_1());
    lemma_canonical_append(xid_continue_chunk_0() + xid_continue_chunk_1(), xid_continue_chunk_2());
    lemma_canonical_append(xid_continue_chunk_0() + xid_continue_chunk_1() + xid_continue_chunk_2(), xid_continue_chunk_3());
    lemma_canonical_append(xid_continue_chunk_0() + xid_continue_chunk_1() + xid_continue_chunk_2() + xid_continue_chunk_3(), xid_continue_chunk_4());
    lemma_canonical_append(xid_continue_chunk_0() + xid_continue_chunk_1() + xid_continue_chunk_2() + xid_continue_chunk_3() + xid_continue_chunk_4(), xid_continue_chunk_5());
    lemma_canonical_append(xid_continue_chunk_0() + xid_continue_chunk_1() + xid_continue_chunk_2() + xid_continue_chunk_3() + xid_continue_chunk_4() + xid_continue_chunk_5(), xid_continue_chunk_6());
    lemma_canonical_append(xid_continue_chunk_0() + xid_continue_chunk_1() + xid_continue_chunk_2() + xid_continue_chunk_3() + xid_continue_chunk_4() + xid_continue_chunk_5() + xid_continue_chunk_6(), xid_continue_chunk_7());
    lemma_canonical_append(xid_continue_chunk_0() + xid_continue_chunk_1() + xid_continue_chunk_2() + xid_continue_chunk_3() + xid_continue_chunk_4() + xid_continue_chunk_5() + xid_continue_chunk_6() + xid_continue_chunk_7(), xid_continue_chunk_8());
    lemma_canonical_append(xid_continue_chunk_0() + xid_continue_chunk_1() + xid_continue_chunk_2() + xid_continue_chunk_3() + xid_continue_chunk_4() + xid_continue_chunk_5() + xid_continue_chunk_6() + xid_continue_chunk_7() + xid_continue_chunk_8(), xid_continue_chunk_9());
}

proof fn lemma_xid_continue_block_1()
    ensures
        canonical(xid_continue_block_1()),
        xid_continue_block_1().len() > 0,
        xid_continue_block_1()[0] == xid_continue_chunk_10()[0],
        xid_continue_block_1().last() == xid_continue_chunk_19().last(),
{
    reveal_with_fuel(canonical, 9);
    assert(canonical(xid_continue_chunk_10()));
    assert(canonical(xid_continue_chunk_11()));
    assert(canonical(xid_continue_chunk_12()));
    assert(canonical(xid_continue_chunk_13()));
    assert(canonical(xid_continue_chunk_14()));
    assert(canonical(xid_continue_chunk_15()));
    assert(canonical(xid_continue_chunk_16()));
    assert(canonical(xid_continue_chunk_17()));
    assert(canonical(xid_continue_chunk_18()));
    assert(canonical(xid_continue_chunk_19()));
    lemma_canonical_append(xid_continue_chunk_10(), xid_continue_chunk_11());
    lemma_canonical_append(xid_continue_chunk_10() + xid_continue_chunk_11(), xid_continue_chunk_12());
    lemma_canonical_append(xid_continue_chunk_10() + xid_continue_chunk_11() + xid_continue_chunk_12(), xid_continue_chunk_13());
    lemma_canonical_append(xid_continue_chunk_10() + xid_continue_chunk_11() + xid_continue_chunk_12() + xid_continue_chunk_13(), xid_continue_chunk_14());
    lemma_canonical_append(xid_continue_chunk_10() + xid_continue_chunk_11() + xid_continue_chunk_12() + xid_continue_chunk_13() + xid_continue_chunk_14(), xid_continue_chunk_15());
    lemma_canonical_append(xid_continue_chunk_10() + xid_continue_chunk_11() + xid_continue_chunk_12() + xid_continue_chunk_13() + xid_continue_chunk_14() + xid_continue_chunk_15(), xid_continue_chunk_16());
    lemma_canonical_append(xid_continue_chunk_10() + xid_continue_chunk_11() + xid_continue_chunk_12() + xid_continue_chunk_13() + xid_continue_chunk_14() + xid_continue_chunk_15() + xid_continue_chunk_16(), xid_continue_chunk_17());
    lemma_canonical_append(xid_continue_chunk_10() + xid_continue_chunk_11() + xid_continue_chunk_12() + xid_continue_chunk_13() + xid_continue_chunk_14() + xid_continue_chunk_15() + xid_continue_chunk_16() + xid_continue_chunk_17(), xid_continue_chunk_18());
    lemma_canonical_append(xid_continue_chunk_10() + xid_continue_chunk_11() + xid_continue_chunk_12() + xid_continue_chunk_13() + xid_continue_chunk_14() + xid_continue_chunk_15() + xid_continue_chunk_16() + xid_continue_chunk_17() + xid_continue_chunk_18(), xid_continue_chunk_19());
}

proof fn lemma_xid_continue_block_2()
    ensures
        canonical(xid_continue_block_2()),
        xid_continue_block_2().len() > 0,
        xid_continue_block_2()[0] == xid_continue_chunk_20()[0],
        xid_continue_block_2().last() == xid_continue_chunk_29().last(),
{
    reveal_with_fuel(canonical, 9);
    assert(canonical(xid_continue_chunk_20()));
    assert(canonical(xid_continue_chunk_21()));
    assert(canonical(xid_continue_chunk_22()));
    assert(canonical(xid_continue_chunk_23()));
    assert(canonical(xid_continue_chunk_24()));
    assert(canonical(xid_continue_chunk_25()));
    assert(canonical(xid_continue_chunk_26()));
    assert(canonical(xid_continue_chunk_27()));
    assert(canonical(xid_continue_chunk_28()));
    assert(canonical(xid_continue_chunk_29()));
    lemma_canonical_append(xid_continue_chunk_20(), xid_continue_chunk_21());
    lemma_canonical_append(xid_continue_chunk_20() + xid_continue_chunk_21(), xid_continue_chunk_22());
    lemma_canonical_append(xid_continue_chunk_20() + xid_continue_chunk_21() + xid_continue_chunk_22(), xid_continue_chunk_23());
    lemma_canonical_append(xid_continue_chunk_20() + xid_continue_chunk_21() + xid_continue_chunk_22() + xid_continue_chunk_23(), xid_continue_chunk_24());
    lemma_canonical_append(xid_continue_chunk_20() + xid_continue_chunk_21() + xid_continue_chunk_22() + xid_continue_chunk_23() + xid_continue_chunk_24(), xid_continue_chunk_25());
    lemma_canonical_append(xid_continue_chunk_20() + xid_continue_chunk_21() + xid_continue_chunk_22() + xid_continue_chunk_23() + xid_continue_chunk_24() + xid_continue_chunk_25(), xid_continue_chunk_26());
    lemma_canonical_append(xid_continue_chunk_20() + xid_continue_chunk_21() + xid_continue_chunk_22() + xid_continue_chunk_23() + xid_continue_chunk_24() + xid_continue_chunk_25() + xid_continue_chunk_26(), xid_continue_chunk_27());
    lemma_canonical_append(xid_continue_chunk_20() + xid_continue_chunk_21() + xid_continue_chunk_22() + xid_continue_chunk_23() + xid_continue_chunk_24() + xid_continue_chunk_25() + xid_continue_chunk_26() + xid_continue_chunk_27(), xid_continue_chunk_28());
    lemma_canonical_append(xid_continue_chunk_20() + xid_continue_chunk_21() + xid_continue_chunk_22() + xid_continue_chunk_23() + xid_continue_chunk_24() + xid_continue_chunk_25() + xid_continue_chunk_26() + xid_continue_chunk_27() + xid_continue_chunk_28(), xid_continue_chunk_29());
}

proof fn lemma_xid_continue_block_3()
    ensures
        canonical(xid_continue_block_3()),
        xid_continue_block_3().len() > 0,
        xid_continue_block_3()[0] == xid_continue_chunk_30()[0],
        xid_continue_block_3().last() == xid_continue_chunk_39().last(),
{
    reveal_with_fuel(canonical, 9);
    assert(canonical(xid_continue_chunk_30()));
    assert(canonical(xid_continue_chunk_31()));
    assert(canonical(xid_continue_chunk_32()));
    assert(canonical(xid_continue_chunk_33()));
    assert(canonical(xid_continue_chunk_34()));
    assert(canonical(xid_continue_chunk_35()));
    assert(canonical(xid_continue_chunk_36()));
    assert(canonical(xid_continue_chunk_37()));
    assert(canonical(xid_continue_chunk_38()));
    assert(canonical(xid_continue_chunk_39()));
    lemma_canonical_append(xid_continue_chunk_30(), xid_continue_chunk_31());
    lemma_canonical_append(xid_continue_chunk_30() + xid_continue_chunk_31(), xid_continue_chunk_32());
    lemma_canonical_append(xid_continue_chunk_30() + xid_continue_chunk_31() + xid_continue_chunk_32(), xid_continue_chunk_33());
    lemma_canonical_append(xid_continue_chunk_30() + xid_continue_chunk_31() + xid_continue_chunk_32() + xid_continue_chunk_33(), xid_continue_chunk_34());
    lemma_canonical_append(xid_continue_chunk_30() + xid_continue_chunk_31() + xid_continue_chunk_32() + xid_continue_chunk_33() + xid_continue_chunk_34(), xid_continue_chunk_35());
    lemma_canonical_append(xid_continue_chunk_30() + xid_continue_chunk_31() + xid_continue_chunk_32() + xid_continue_chunk_33() + xid_continue_chunk_34() + xid_continue_chunk_35(), xid_continue_chunk_36());
    lemma_canonical_append(xid_continue_chunk_30() + xid_continue_chunk_31() + xid_continue_chunk_32() + xid_continue_chunk_33() + xid_continue_chunk_34() + xid_continue_chunk_35() + xid_continue_chunk_36(), xid_continue_chunk_37());
    lemma_canonical_append(xid_continue_chunk_30() + xid_continue_chunk_31() + xid_continue_chunk_32() + xid_continue_chunk_33() + xid_continue_chunk_34() + xid_continue_chunk_35() + xid_continue_chunk_36() + xid_continue_chunk_37(), xid_continue_chunk_38());
    lemma_canonical_append(xid_continue_chunk_30() + xid_continue_chunk_31() + xid_continue_chunk_32() + xid_continue_chunk_33() + xid_continue_chunk_34() + xid_continue_chunk_35() + xid_continue_chunk_36() + xid_continue_chunk_37() + xid_continue_chunk_38(), xid_continue_chunk_39());
}

proof fn lemma_xid_continue_block_4()
    ensures
        canonical(xid_continue_block_4()),
        xid_continue_block_4().len() > 0,
        xid_continue_block_4()[0] == xid_continue_chunk_40()[0],
        xid_continue_block_4().last() == xid_continue_chunk_49().last(),
{
    reveal_with_fuel(canonical, 9);
    assert(canonical(xid_continue_chunk_40()));
    assert(canonical(xid_continue_chunk_41()));
    assert(canonical(xid_continue_chunk_42()));
    assert(canonical(xid_continue_chunk_43()));
    assert(canonical(xid_continue_chunk_44()));
    assert(canonical(xid_continue_chunk_45()));
    assert(canonical(xid_continue_chunk_46()));
    assert(canonical(xid_continue_chunk_47()));
    assert(canonical(xid_continue_chunk_48()));
    assert(canonical(xid_continue_chunk_49()));
    lemma_canonical_append(xid_continue_chunk_40(), xid_continue_chunk_41());
    lemma_canonical_append(xid_continue_chunk_40() + xid_continue_chunk_41(), xid_continue_chunk_42());
    lemma_canonical_append(xid_continue_chunk_40() + xid_continue_chunk_41() + xid_continue_chunk_42(), xid_continue_chunk_43());
    lemma_canonical_append(xid_continue_chunk_40() + xid_continue_chunk_41() + xid_continue_chunk_42() + xid_continue_chunk_43(), xid_continue_chunk_44());
    lemma_canonical_append(xid_continue_chunk_40() + xid_continue_chunk_41() + xid_continue_chunk_42() + xid_continue_chunk_43() + xid_continue_chunk_44(), xid_continue_chunk_45());
    lemma_canonical_append(xid_continue_chunk_40() + xid_continue_chunk_41() + xid_continue_chunk_42() + xid_continue_chunk_43() + xid_continue_chunk_44() + xid_continue_chunk_45(), xid_continue_chunk_46());
    lemma_canonical_append(xid_continue_chunk_40() + xid_continue_chunk_41() + xid_continue_chunk_42() + xid_continue_chunk_43() + xid_continue_chunk_44() + xid_continue_chunk_45() + xid_continue_chunk_46(), xid_continue_chunk_47());
    lemma_canonical_append(xid_continue_chunk_40() + xid_continue_chunk_41() + xid_continue_chunk_42() + xid_continue_chunk_43() + xid_continue_chunk_44() + xid_continue_chunk_45() + xid_continue_chunk_46() + xid_continue_chunk_47(), xid_continue_chunk_48());
    lemma_canonical_append(xid_continue_chunk_40() + xid_continue_chunk_41() + xid_continue_chunk_42() + xid_continue_chunk_43() + xid_continue_chunk_44() + xid_continue_chunk_45() + xid_continue_chunk_46() + xid_continue_chunk_47() + xid_continue_chunk_48(), xid_continue_chunk_49());
}

proof fn lemma_xid_continue_block_5()
    ensures
        canonical(xid_continue_block_5()),
        xid_continue_block_5().len() > 0,
        xid_continue_block_5()[0] == xid_continue_chunk_50()[0],
        xid_continue_block_5().last() == xid_continue_chunk_59().last(),
{
    reveal_with_fuel(canonical, 9);
    assert(canonical(xid_continue_chunk_50()));
    assert(canonical(xid_continue_chunk_51()));
    assert(canonical(xid_continue_chunk_52()));
    assert(canonical(xid_continue_chunk_53()));
    assert(canonical(xid_continue_chunk_54()));
    assert(canonical(xid_continue_chunk_55()));
    assert(canonical(xid_continue_chunk_56()));
    assert(canonical(xid_continue_chunk_57()));
    assert(canonical(xid_continue_chunk_58()));
    assert(canonical(xid_continue_chunk_59()));
    lemma_canonical_append(xid_continue_chunk_50(), xid_continue_chunk_51());
    lemma_canonical_append(xid_continue_chunk_50() + xid_continue_chunk_51(), xid_continue_chunk_52());
    lemma_canonical_append(xid_continue_chunk_50() + xid_continue_chunk_51() + xid_continue_chunk_52(), xid_continue_chunk_53());
    lemma_canonical_append(xid_continue_chunk_50() + xid_continue_chunk_51() + xid_continue_chunk_52() + xid_continue_chunk_53(), xid_continue_chunk_54());
    lemma_canonical_append(xid_continue_chunk_50() + xid_continue_chunk_51() + xid_continue_chunk_52() + xid_continue_chunk_53() + xid_continue_chunk_54(), xid_continue_chunk_55());
    lemma_canonical_append(xid_continue_chunk_50() + xid_continue_chunk_51() + xid_continue_chunk_52() + xid_continue_chunk_53() + xid_continue_chunk_54() + xid_continue_chunk_55(), xid_continue_chunk_56());
    lemma_canonical_append(xid_continue_chunk_50() + xid_continue_chunk_51() + xid_continue_chunk_52() + xid_continue_chunk_53() + xid_continue_chunk_54() + xid_continue_chunk_55() + xid_continue_chunk_56(), xid_continue_chunk_57());
    lemma_canonical_append(xid_continue_chunk_50() + xid_continue_chunk_51() + xid_continue_chunk_52() + xid_continue_chunk_53() + xid_continue_chunk_54() + xid_continue_chunk_55() + xid_continue_chunk_56() + xid_continue_chunk_57(), xid_continue_chunk_58());
    lemma_canonical_append(xid_continue_chunk_50() + xid_continue_chunk_51() + xid_continue_chunk_52() + xid_continue_chunk_53() + xid_continue_chunk_54() + xid_continue_chunk_55() + xid_continue_chunk_56() + xid_continue_chunk_57() + xid_continue_chunk_58(), xid_continue_chunk_59());
}

proof fn lemma_xid_continue_block_6()
    ensures
        canonical(xid_continue_block_6()),
        xid_continue_block_6().len() > 0,
        xid_continue_block_6()[0] == xid_continue_chunk_60()[0],
        xid_continue_block_6().last() == xid_continue_chunk_69().last(),
{
    reveal_with_fuel(canonical, 9);
    assert(canonical(xid_continue_chunk_60()));
    assert(canonical(xid_continue_chunk_61()));
    assert(canonical(xid_continue_chunk_62()));
    assert(canonical(xid_continue_chunk_63()));
    assert(canonical(xid_continue_chunk_64()));
    assert(canonical(xid_continue_chunk_65()));
    assert(canonical(xid_continue_chunk_66()));
    assert(canonical(xid_continue_chunk_67()));
    assert(canonical(xid_continue_chunk_68()));
    assert(canonical(xid_continue_chunk_69()));
    lemma_canonical_append(xid_continue_chunk_60(), xid_continue_chunk_61());
    lemma_canonical_append(xid_continue_chunk_60() + xid_continue_chunk_61(), xid_continue_chunk_62());
    lemma_canonical_append(xid_continue_chunk_60() + xid_continue_chunk_61() + xid_continue_chunk_62(), xid_continue_chunk_63());
    lemma_canonical_append(xid_continue_chunk_60() + xid_continue_chunk_61() + xid_continue_chunk_62() + xid_continue_chunk_63(), xid_continue_chunk_64());
    lemma_canonical_append(xid_continue_chunk_60() + xid_continue_chunk_61() + xid_continue_chunk_62() + xid_continue_chunk_63() + xid_continue_chunk_64(), xid_continue_chunk_65());
    lemma_canonical_append(xid_continue_chunk_60() + xid_continue_chunk_61() + xid_continue_chunk_62() + xid_continue_chunk_63() + xid_continue_chunk_64() + xid_continue_chunk_65(), xid_continue_chunk_66());
    lemma_canonical_append(xid_continue_chunk_60() + xid_continue_chunk_61() + xid_continue_chunk_62() + xid_continue_chunk_63() + xid_continue_chunk_64() + xid_continue_chunk_65() + xid_continue_chunk_66(), xid_continue_chunk_67());
    lemma_canonical_append(xid_continue_chunk_60() + xid_continue_chunk_61() + xid_continue_chunk_62() + xid_continue_chunk_63() + xid_continue_chunk_64() + xid_continue_chunk_65() + xid_continue_chunk_66() + xid_continue_chunk_67(), xid_continue_chunk_68());
    lemma_canonical_append(xid_continue_chunk_60() + xid_continue_chunk_61() + xid_continue_chunk_62() + xid_continue_chunk_63() + xid_continue_chunk_64() + xid_continue_chunk_65() + xid_continue_chunk_66() + xid_continue_chunk_67() + xid_continue_chunk_68(), xid_continue_chunk_69());
}

proof fn lemma_xid_continue_block_7()
    ensures
        canonical(xid_continue_block_7()),
        xid_continue_block_7().len() > 0,
        xid_continue_block_7()[0] == xid_continue_chunk_70()[0],
        xid_continue_block_7().last() == xid_continue_chunk_79().last(),
{
    reveal_with_fuel(canonical, 9);
    assert(canonical(xid_continue_chunk_70()));
    assert(canonical(xid_continue_chunk_71()));
    assert(canonical(xid_continue_chunk_72()));
    assert(canonical(xid_continue_chunk_73()));
    assert(canonical(xid_continue_chunk_74()));
    assert(canonical(xid_continue_chunk_75()));
    assert(canonical(xid_continue_chunk_76()));
    assert(canonical(xid_continue_chunk_77()));
    assert(canonical(xid_continue_chunk_78()));
    assert(canonical(xid_continue_chunk_79()));
    lemma_canonical_append(xid_continue_chunk_70(), xid_continue_chunk_71());
    lemma_canonical_append(xid_continue_chunk_70() + xid_continue_chunk_71(), xid_continue_chunk_72());
    lemma_canonical_append(xid_continue_chunk_70() + xid_continue_chunk_71() + xid_continue_chunk_72(), xid_continue_chunk_73());
    lemma_canonical_append(xid_continue_chunk_70() + xid_continue_chunk_71() + xid_continue_chunk_72() + xid_continue_chunk_73(), xid_continue_chunk_74());
    lemma_canonical_append(xid_continue_chunk_70() + xid_continue_chunk_71() + xid_continue_chunk_72() + xid_continue_chunk_73() + xid_continue_chunk_74(), xid_continue_chunk_75());
    lemma_canonical_append(xid_continue_chunk_70() + xid_continue_chunk_71() + xid_continue_chunk_72() + xid_continue_chunk_73() + xid_continue_chunk_74() + xid_continue_chunk_75(), xid_continue_chunk_76());
    lemma_canonical_append(xid_continue_chunk_70() + xid_continue_chunk_71() + xid_continue_chunk_72() + xid_continue_chunk_73() + xid_continue_chunk_74() + xid_continue_chunk_75() + xid_continue_chunk_76(), xid_continue_chunk_77());
    lemma_canonical_append(xid_continue_chunk_70() + xid_continue_chunk_71() + xid_continue_chunk_72() + xid_continue_chunk_73() + xid_continue_chunk_74() + xid_continue_chunk_75() + xid_continue_chunk_76() + xid_continue_chunk_77(), xid_continue_chunk_78());
    lemma_canonical_append(xid_continue_chunk_70() + xid_continue_chunk_71() + xid_continue_chunk_72() + xid_continue_chunk_73() + xid_continue_chunk_74() + xid_continue_chunk_75() + xid_continue_chunk_76() + xid_continue_chunk_77() + xid_continue_chunk_78(), xid_continue_chunk_79());
}

proof fn lemma_xid_continue_block_8()
    ensures
        canonical(xid_continue_block_8()),
        xid_continue_block_8().len() > 0,
        xid_continue_block_8()[0] == xid_continue_chunk_80()[0],
        xid_continue_block_8().last() == xid_continue_chunk_89().last(),
{
    reveal_with_fuel(canonical, 9);
    assert(canonical(xid_continue_chunk_80()));
    assert(canonical(xid_continue_chunk_81()));
    assert(canonical(xid_continue_chunk_82()));
    assert(canonical(xid_continue_chunk_83()));
    assert(canonical(xid_continue_chunk_84()));
    assert(canonical(xid_continue_chunk_85()));
    assert(canonical(xid_continue_chunk_86()));
    assert(canonical(xid_continue_chunk_87()));
    assert(canonical(xid_continue_chunk_88()));
    assert(canonical(xid_continue_chunk_89()));
    lemma_canonical_append(xid_continue_chunk_80(), xid_continue_chunk_81());
    lemma_canonical_append(xid_continue_chunk_80() + xid_continue_chunk_81(), xid_continue_chunk_82());
    lemma_canonical_append(xid_continue_chunk_80() + xid_continue_chunk_81() + xid_continue_chunk_82(), xid_continue_chunk_83());
    lemma_canonical_append(xid_continue_chunk_80() + xid_continue_chunk_81() + xid_continue_chunk_82() + xid_continue_chunk_83(), xid_continue_chunk_84());
    lemma_canonical_append(xid_continue_chunk_80() + xid_continue_chunk_81() + xid_continue_chunk_82() + xid_continue_chunk_83() + xid_continue_chunk_84(), xid_continue_chunk_85());
    lemma_canonical_append(xid_continue_chunk_80() + xid_continue_chunk_81() + xid_continue_chunk_82() + xid_continue_chunk_83() + xid_continue_chunk_84() + xid_continue_chunk_85(), xid_continue_chunk_86());
    lemma_canonical_append(xid_continue_chunk_80() + xid_continue_chunk_81() + xid_continue_chunk_82() + xid_continue_chunk_83() + xid_continue_chunk_84() + xid_continue_chunk_85() + xid_continue_chunk_86(), xid_continue_chunk_87());
    lemma_canonical_append(xid_continue_chunk_80() + xid_continue_chunk_81() + xid_continue_chunk_82() + xid_continue_chunk_83() + xid_continue_chunk_84() + xid_continue_chunk_85() + xid_continue_chunk_86() + xid_continue_chunk_87(), xid_continue_chunk_88());
    lemma_canonical_append(xid_continue_chunk_80() + xid_continue_chunk_81() + xid_continue_chunk_82() + xid_continue_chunk_83() + xid_continue_chunk_84() + xid_continue_chunk_85() + xid_continue_chunk_86() + xid_continue_chunk_87() + xid_continue_chunk_88(), xid_continue_chunk_89());
}

proof fn lemma_xid_continue_block_9()
    ensures
        canonical(xid_continue_block_9()),
        xid_continue_block_9().len() > 0,
        xid_continue_block_9()[0] == xid_continue_chunk_90()[0],
        xid_continue_block_9().last() == xid_continue_chunk_99().last(),
{
    reveal_with_fuel(canonical, 9);
    assert(canonical(xid_continue_chunk_90()));
    assert(canonical(xid_continue_chunk_91()));
    assert(canonical(xid_continue_chunk_92()));
    assert(canonical(xid_continue_chunk_93()));
    assert(canonical(xid_continue_chunk_94()));
    assert(canonical(xid_continue_chunk_95()));
    assert(canonical(xid_continue_chunk_96()));
    assert(canonical(xid_continue_chunk_97()));
    assert(canonical(xid_continue_chunk_98()));
    assert(canonical(xid_continue_chunk_99()));
    lemma_canonical_append(xid_continue_chunk_90(), xid_continue_chunk_91());
    lemma_canonical_append(xid_continue_chunk_90() + xid_continue_chunk_91(), xid_continue_chunk_92());
    lemma_canonical_append(xid_continue_chunk_90() + xid_continue_chunk_91() + xid_continue_chunk_92(), xid_continue_chunk_93());
    lemma_canonical_append(xid_continue_chunk_90() + xid_continue_chunk_91() + xid_continue_chunk_92() + xid_continue_chunk_93(), xid_continue_chunk_94());
    lemma_canonical_append(xid_continue_chunk_90() + xid_continue_chunk_91() + xid_continue_chunk_92() + xid_continue_chunk_93() + xid_continue_chunk_94(), xid_continue_chunk_95());
    lemma_canonical_append(xid_continue_chunk_90() + xid_continue_chunk_91() + xid_continue_chunk_92() + xid_continue_chunk_93() + xid_continue_chunk_94() + xid_continue_chunk_95(), xid_continue_chunk_96());
    lemma_canonical_append(xid_continue_chunk_90() + xid_continue_chunk_91() + xid_continue_chunk_92() + xid_continue_chunk_93() + xid_continue_chunk_94() + xid_continue_chunk_95() + xid_continue_chunk_96(), xid_continue_chunk_97());
    lemma_canonical_append(xid_continue_chunk_90() + xid_continue_chunk_91() + xid_continue_chunk_92() + xid_continue_chunk_93() + xid_continue_chunk_94() + xid_continue_chunk_95() + xid_continue_chunk_96() + xid_continue_chunk_97(), xid_continue_chunk_98());
    lemma_canonical_append(xid_continue_chunk_90() + xid_continue_chunk_91() + xid_continue_chunk_92() + xid_continue_chunk_93() + xid_continue_chunk_94() + xid_continue_chunk_95() + xid_continue_chunk_96() + xid_continue_chunk_97() + xid_continue_chunk_98(), xid_continue_chunk_99());
}

#[verifier::rlimit(100)]
pub proof fn lemma_xid_continue_canonical()
    ensures
        canonical(xid_continue_ranges()),
{
    lemma_xid_continue_block_0();
    lemma_xid_continue_block_1();
    lemma_xid_continue_block_2();
    lemma_xid_continue_block_3();
    lemma_xid_continue_block_4();
    lemma_xid_continue_block_5();
    lemma_xid_continue_block_6();
    lemma_xid_continue_block_7();
    lemma_xid_continue_block_8();
    lemma_xid_continue_block_9();
    lemma_canonical_append(xid_continue_block_0(), xid_continue_block_1());
    lemma_canonical_append(xid_continue_block_0() + xid_continue_block_1(), xid_continue_block_2());
    lemma_canonical_append(xid_continue_block_0() + xid_continue_block_1() + xid_continue_block_2(), xid_continue_block_3());
    lemma_canonical_append(xid_continue_block_0() + xid_continue_block_1() + xid_continue_block_2() + xid_continue_block_3(), xid_continue_block_4());
    lemma_canonical_append(xid_continue_block_0() + xid_continue_block_1() + xid_continue_block_2() + xid_continue_block_3() + xid_continue_block_4(), xid_continue_block_5());
    lemma_canonical_append(xid_continue_block_0() + xid_continue_block_1() + xid_continue_block_2() + xid_continue_block_3() + xid_continue_block_4() + xid_continue_block_5(), xid_continue_block_6());
    lemma_canonical_append(xid_continue_block_0() + xid_continue_block_1() + xid_continue_block_2() + xid_continue_block_3() + xid_continue_block_4() + xid_continue_block_5() + xid_continue_block_6(), xid_continue_block_7());
    lemma_canonical_append(xid_continue_block_0() + xid_continue_block_1() + xid_continue_block_2() + xid_continue_block_3() + xid_continue_block_4() + xid_continue_block_5() + xid_continue_block_6() + xid_continue_block_7(), xid_continue_block_8());
    lemma_canonical_append(xid_continue_block_0() + xid_continue_block_1() + xid_continue_block_2() + xid_continue_block_3() + xid_continue_block_4() + xid_continue_block_5() + xid_continue_block_6() + xid_continue_block_7() + xid_continue_block_8(), xid_continue_block_9());
}

fn push_xid_continue_chunk_0(v: &mut Vec<ClassUnicodeRange>)
    ensures
        rview(final(v)@) == rview(old(v)@) + xid_continue_chunk_0(),
{
    let ghost o = rview(v@);
    push_range(v, '\u{30}', '\u{39}');
    push_range(v, '\u{41}', '\u{5A}');
    push_range(v, '\u{5F}', '\u{5F}');
    push_range(v, '\u{61}', '\u{7A}');
    push_range(v, '\u{AA}', '\u{AA}');
    push_range(v, '\u{B5}', '\u{B5}');
    push_range(v, '\u{B7}', '\u{B7}');
    push_range(v, '\u{BA}', '\u{BA}');
    assert(rview(v@) =~= o + xid_continue_chunk_0());
}

fn push_xid_continue_chunk_1(v: &mut Vec<ClassUnicodeRange>)
    ensures
        rview(final(v)@) == rview(old(v)@) + xid_continue_chunk_1(),
{
    let ghost o = rview(v@);
    push_range(v, '\u{C0}', '\u{D6}');
    push_range(v, '\u{D8}', '\u{F6}');
    push_range(v, '\u{F8}', '\u{2C1}');
    push_range(v, '\u{2C6}', '\u{2D1}');
    push_range(v, '\u{2E0}', '\u{2E4}');
    push_range(v, '\u{2EC}', '\u{2EC}');
    push_range(v, '\u{2EE}', '\u{2EE}');
    push_range(v, '\u{300}', '\u{374}');
    assert(rview(v@) =~= o + xid_continue_chunk_1());
}

fn push_xid_continue_chunk_2(v: &mut Vec<ClassUnicodeRange>)
    ensures
        rview(final(v)@) == rview(old(v)@) + xid_continue_chunk_2(),
{
    let ghost o = rview(v@);
    push_range(v, '\u{376}', '\u{377}');
    push_range(v, '\u{37B}', '\u{37D}');
    push_range(v, '\u{37F}', '\u{37F}');
    push_range(v, '\u{386}', '\u{38A}');
    push_range(v, '\u{38C}', '\u{38C}');
    push_range(v, '\u{38E}', '\u{3A1}');
    push_range(v, '\u{3A3}', '\u{3F5}');
    push_range(v, '\u{3F7}', '\u{481}');
    assert(rview(v@) =~= o + xid_continue_chunk_2());
}

fn push_xid_continue_chunk_3(v: &mut Vec<ClassUnicodeRange>)
    ensures
        rview(final(v)@) == rview(old(v)@) + xid_continue_chunk_3(),
{
    let ghost o = rview(v@);
    push_range(v, '\u{483}', '\u{487}');
    push_range(v, '\u{48A}', '\u{52F}');
    push_range(v, '\u{531}', '\u{556}');
    push_range(v, '\u{559}', '\u{559}');
    push_range(v, '\u{560}', '\u{588}');
    push_range(v, '\u{591}', '\u{5BD}');
    push_range(v, '\u{5BF}', '\u{5BF}');
    push_range(v, '\u{5C1}', '\u{5C2}');
    assert(rview(v@) =~= o + xid_continue_chunk_3());
}

fn push_xid_continue_chunk_4(v: &mut Vec<ClassUnicodeRange>)
    ensures
        rview(final(v)@) == rview(old(v)@) + xid_continue_chunk_4(),
{
    let ghost o = rview(v@);
    push_range(v, '\u{5C4}', '\u{5C5}');
    push_range(v, '\u{5C7}', '\u{5C7}');
    push_range(v, '\u{5D0}', '\u{5EA}');
    push_range(v, '\u{5EF}', '\u{5F2}');
    push_range(v, '\u{610}', '\u{61A}');
    push_range(v, '\u{620}', '\u{669}');
    push_range(v, '\u{66E}', '\u{6D3}');
    push_range(v, '\u{6D5}', '\u{6DC}');
    assert(rview(v@) =~= o + xid_continue_chunk_4());
}

fn push_xid_continue_chunk_5(v: &mut Vec<ClassUnicodeRange>)
    ensures
        rview(final(v)@) == rview(old(v)@) + xid_continue_chunk_5(),
{
    let ghost o = rview(v@);
    push_range(v, '\u{6DF}', '\u{6E8}');
    push_range(v, '\u{6EA}', '\u{6FC}');
    push_range(v, '\u{6FF}', '\u{6FF}');
    push_range(v, '\u{710}', '\u{74A}');
    push_range(v, '\u{74D}', '\u{7B1}');
    push_range(v, '\u{7C0}', '\u{7F5}');
    push_range(v, '\u{7FA}', '\u{7FA}');
    push_range(v, '\u{7FD}', '\u{7FD}');
    assert(rview(v@) =~= o + xid_continue_chunk_5());
}

fn push_xid_continue_chunk_6(v: &mut Vec<ClassUnicodeRange>)
    ensures
        rview(final(v)@) == rview(old(v)@) + xid_continue_chunk_6(),
{
    let ghost o = rview(v@);
    push_range(v, '\u{800}', '\u{82D}');
    push_range(v, '\u{840}', '\u{85B}');
    push_range(v, '\u{860}', '\u{86A}');
    push_range(v, '\u{870}', '\u{887}');
    push_range(v, '\u{889}', '\u{88E}');
    push_range(v, '\u{897}', '\u{8E1}');
    push_range(v, '\u{8E3}', '\u{963}');
    push_range(v, '\u{966}', '\u{96F}');
    assert(rview(v@) =~= o + xid_continue_chunk_6());
}

fn push_xid_continue_chunk_7(v: &mut Vec<ClassUnicodeRange>)
    ensures
        rview(final(v)@) == rview(old(v)@) + xid_continue_chunk_7(),
{
    let ghost o = rview(v@);
    push_range(v, '\u{971}', '\u{983}');
    push_range(v, '\u{985}', '\u{98C}');
    push_range(v, '\u{98F}', '\u{990}');
    push_range(v, '\u{993}', '\u{9A8}');
    push_range(v, '\u{9AA}', '\u{9B0}');
    push_range(v, '\u{9B2}', '\u{9B2}');
    push_range(v, '\u{9B6}', '\u{9B9}');
    push_range(v, '\u{9BC}', '\u{9C4}');
    assert(rview(v@) =~= o + xid_continue_chunk_7());
}

fn push_xid_continue_chunk_8(v: &mut Vec<ClassUnicodeRange>)
    ensures
        rview(final(v)@) == rview(old(v)@) + xid_continue_chunk_8(),
{
    let ghost o = rview(v@);
    push_range(v, '\u{9C7}', '\u{9C8}');
    push_range(v, '\u{9CB}', '\u{9CE}');
    push_range(v, '\u{9D7}', '\u{9D7}');
    push_range(v, '\u{9DC}', '\u{9DD}');
    push_range(v, '\u{9DF}', '\u{9E3}');
    push_range(v, '\u{9E6}', '\u{9F1}');
    push_range(v, '\u{9FC}', '\u{9FC}');
    push_range(v, '\u{9FE}', '\u{9FE}');
    assert(rview(v@) =~= o + xid_continue_chunk_8());
}

fn push_xid_continue_chunk_9(v: &mut Vec<ClassUnicodeRange>)
    ensures
        rview(final(v)@) == rview(old(v)@) + xid_continue_chunk_9(),
{
    let ghost o = rview(v@);
    push_range(v, '\u{A01}', '\u{A03}');
    push_range(v, '\u{A05}', '\u{A0A}');
    push_range(v, '\u{A0F}', '\u{A10}');
    push_range(v, '\u{A13}', '\u{A28}');
    push_range(v, '\u{A2A}', '\u{A30}');
    push_range(v, '\u{A32}', '\u{A33}');
    push_range(v, '\u{A35}', '\u{A36}');
    push_range(v, '\u{A38}', '\u{A39}');
    assert(rview(v@) =~= o + xid_continue_chunk_9());
}

fn push_xid_continue_chunk_10(v: &mut Vec<ClassUnicodeRange>)
    ensures
        rview(final(v)@) == rview(old(v)@) + xid_continue_chunk_10(),
{
    let ghost o = rview(v@);
    push_range(v, '\u{A3C}', '\u{A3C}');
    push_range(v, '\u{A3E}', '\u{A42}');
    push_range(v, '\u{A47}', '\u{A48}');
    push_range(v, '\u{A4B}', '\u{A4D}');
    push_range(v, '\u{A51}', '\u{A51}');
    push_range(v, '\u{A59}', '\u{A5C}');
    push_range(v, '\u{A5E}', '\u{A5E}');
    push_range(v, '\u{A66}', '\u{A75}');
    assert(rview(v@) =~= o + xid_continue_chunk_10());
}

fn push_xid_continue_chunk_11(v: &mut Vec<ClassUnicodeRange>)
    ensures
        rview(final(v)@) == rview(old(v)@) + xid_continue_chunk_11(),
{
    let ghost o = rview(v@);
    push_range(v, '\u{A81}', '\u{A83}');
    push_range(v, '\u{A85}', '\u{A8D}');
    push_range(v, '\u{A8F}', '\u{A91}');
    push_range(v, '\u{A93}', '\u{AA8}');
    push_range(v, '\u{AAA}', '\u{AB0}');
    push_range(v, '\u{AB2}', '\u{AB3}');
    push_range(v, '\u{AB5}', '\u{AB9}');
    push_range(v, '\u{ABC}', '\u{AC5}');
    assert(rview(v@) =~= o + xid_continue_chunk_11());
}

fn push_xid_continue_chunk_12(v: &mut Vec<ClassUnicodeRange>)
    ensures
        rview(final(v)@) == rview(old(v)@) + xid_continue_chunk_12(),
{
    let ghost o = rview(v@);
    push_range(v, '\u{AC7}', '\u{AC9}');
    push_range(v, '\u{ACB}', '\u{ACD}');
    push_range(v, '\u{AD0}', '\u{AD0}');
    push_range(v, '\u{AE0}', '\u{AE3}');
    push_range(v, '\u{AE6}', '\u{AEF}');
    push_range(v, '\u{AF9}', '\u{AFF}');
    push_range(v, '\u{B01}', '\u{B03}');
    push_range(v, '\u{B05}', '\u{B0C}');
    assert(rview(v@) =~= o + xid_continue_chunk_12());
}

fn push_xid_continue_chunk_13(v: &mut Vec<ClassUnicodeRange>)
    ensures
        rview(final(v)@) == rview(old(v)@) + xid_continue_chunk_13(),
{
    let ghost o = rview(v@);
    push_range(v, '\u{B0F}', '\u{B10}');
    push_range(v, '\u{B13}', '\u{B28}');
    push_range(v, '\u{B2A}', '\u{B30}');
    push_range(v, '\u{B32}', '\u{B33}');
    push_range(v, '\u{B35}', '\u{B39}');
    push_range(v, '\u{B3C}', '\u{B44}');
    push_range(v, '\u{B47}', '\u{B48}');
    push_range(v, '\u{B4B}', '\u{B4D}');
    assert(rview(v@) =~= o + xid_continue_chunk_13());
}

fn push_xid_continue_chunk_14(v: &mut Vec<ClassUnicodeRange>)
    ensures
        rview(final(v)@) == rview(old(v)@) + xid_continue_chunk_14(),
{
    let ghost o = rview(v@);
    push_range(v, '\u{B55}', '\u{B57}');
    push_range(v, '\u{B5C}', '\u{B5D}');
    push_range(v, '\u{B5F}', '\u{B63}');
    push_range(v, '\u{B66}', '\u{B6F}');
    push_range(v, '\u{B71}', '\u{B71}');
    push_range(v, '\u{B82}', '\u{B83}');
    push_range(v, '\u{B85}', '\u{B8A}');
    push_range(v, '\u{B8E}', '\u{B90}');
    assert(rview(v@) =~= o + xid_continue_chunk_14());
}

fn push_xid_continue_chunk_15(v: &mut Vec<ClassUnicodeRange>)
    ensures
        rview(final(v)@) == rview(old(v)@) + xid_continue_chunk_15(),
{
    let ghost o = rview(v@);
    push_range(v, '\u{B92}', '\u{B95}');
    push_range(v, '\u{B99}', '\u{B9A}');
    push_range(v, '\u{B9C}', '\u{B9C}');
    push_range(v, '\u{B9E}', '\u{B9F}');
    push_range(v, '\u{BA3}', '\u{BA4}');
    push_range(v, '\u{BA8}', '\u{BAA}');
    push_range(v, '\u{BAE}', '\u{BB9}');
    push_range(v, '\u{BBE}', '\u{BC2}');
    assert(rview(v@) =~= o + xid_continue_chunk_15());
}

fn push_xid_continue_chunk_16(v: &mut Vec<ClassUnicodeRange>)
    ensures
        rview(final(v)@) == rview(old(v)@) + xid_continue_chunk_16(),
{
    let ghost o = rview(v@);
    push_range(v, '\u{BC6}', '\u{BC8}');
    push_range(v, '\u{BCA}', '\u{BCD}');
    push_range(v, '\u{BD0}', '\u{BD0}');
    push_range(v, '\u{BD7}', '\u{BD7}');
    push_range(v, '\u{BE6}', '\u{BEF}');
    push_range(v, '\u{C00}', '\u{C0C}');
    push_range(v, '\u{C0E}', '\u{C10}');
    push_range(v, '\u{C12}', '\u{C28}');
    assert(rview(v@) =~= o + xid_continue_chunk_16());
}

fn push_xid_continue_chunk_17(v: &mut Vec<ClassUnicodeRange>)
    ensures
        rview(final(v)@) == rview(old(v)@) + xid_continue_chunk_17(),
{
    let ghost o = rview(v@);
    push_range(v, '\u{C2A}', '\u{C39}');
    push_range(v, '\u{C3C}', '\u{C44}');
    push_range(v, '\u{C46}', '\u{C48}');
    push_range(v, '\u{C4A}', '\u{C4D}');
    push_range(v, '\u{C55}', '\u{C56}');
    push_range(v, '\u{C58}', '\u{C5A}');
    push_range(v, '\u{C5D}', '\u{C5D}');
    push_range(v, '\u{C60}', '\u{C63}');
    assert(rview(v@) =~= o + xid_continue_chunk_17());
}

fn push_xid_continue_chunk_18(v: &mut Vec<ClassUnicodeRange>)
    ensures
        rview(final(v)@) == rview(old(v)@) + xid_continue_chunk_18(),
{
    let ghost o = rview(v@);
    push_range(v, '\u{C66}', '\u{C6F}');
    push_range(v, '\u{C80}', '\u{C83}');
    push_range(v, '\u{C85}', '\u{C8C}');
    push_range(v, '\u{C8E}', '\u{C90}');
    push_range(v, '\u{C92}', '\u{CA8}');
    push_range(v, '\u{CAA}', '\u{CB3}');
    push_range(v, '\u{CB5}', '\u{CB9}');
    push_range(v, '\u{CBC}', '\u{CC4}');
    assert(rview(v@) =~= o + xid_continue_chunk_18());
}

fn push_xid_continue_chunk_19(v: &mut Vec<ClassUnicodeRange>)
    ensures
        rview(final(v)@) == rview(old(v)@) + xid_continue_chunk_19(),
{
    let ghost o = rview(v@);
    push_range(v, '\u{CC6}', '\u{CC8}');
    push_range(v, '\u{CCA}', '\u{CCD}');
    push_range(v, '\u{CD5}', '\u{CD6}');
    push_range(v, '\u{CDD}', '\u{CDE}');
    push_range(v, '\u{CE0}', '\u{CE3}');
    push_range(v, '\u{CE6}', '\u{CEF}');
    push_range(v, '\u{CF1}', '\u{CF3}');
    push_range(v, '\u{D00}', '\u{D0C}');
    assert(rview(v@) =~= o + xid_continue_chunk_19());
}

fn push_xid_continue_chunk_20(v: &mut Vec<ClassUnicodeRange>)
    ensures
        rview(final(v)@) == rview(old(v)@) + xid_continue_chunk_20(),
{
    let ghost o = rview(v@);
    push_range(v, '\u{D0E}', '\u{D10}');
    push_range(v, '\u{D12}', '\u{D44}');
    push_range(v, '\u{D46}', '\u{D48}');
    push_range(v, '\u{D4A}', '\u{D4E}');
    push_range(v, '\u{D54}', '\u{D57}');
    push_range(v, '\u{D5F}', '\u{D63}');
    push_range(v, '\u{D66}', '\u{D6F}');
    push_range(v, '\u{D7A}', '\u{D7F}');
    assert(rview(v@) =~= o + xid_continue_chunk_20());
}

fn push_xid_continue_chunk_21(v: &mut Vec<ClassUnicodeRange>)
    ensures
        rview(final(v)@) == rview(old(v)@) + xid_continue_chunk_21(),
{
    let ghost o = rview(v@);
    push_range(v, '\u{D81}', '\u{D83}');
    push_range(v, '\u{D85}', '\u{D96}');
    push_range(v, '\u{D9A}', '\u{DB1}');
    push_range(v, '\u{DB3}', '\u{DBB}');
    push_range(v, '\u{DBD}', '\u{DBD}');
    push_range(v, '\u{DC0}', '\u{DC6}');
    push_range(v, '\u{DCA}', '\u{DCA}');
    push_range(v, '\u{DCF}', '\u{DD4}');
    assert(rview(v@) =~= o + xid_continue_chunk_21());
}

fn push_xid_continue_chunk_22(v: &mut Vec<ClassUnicodeRange>)
    ensures
        rview(final(v)@) == rview(old(v)@) + xid_continue_chunk_22(),
{
    let ghost o = rview(v@);
    push_range(v, '\u{DD6}', '\u{DD6}');
    push_range(v, '\u{DD8}', '\u{DDF}');
    push_range(v, '\u{DE6}', '\u{DEF}');
    push_range(v, '\u{DF2}', '\u{DF3}');
    push_range(v, '\u{E01}', '\u{E3A}');
    push_range(v, '\u{E40}', '\u{E4E}');
    push_range(v, '\u{E50}', '\u{E59}');
    push_range(v, '\u{E81}', '\u{E82}');
    assert(rview(v@) =~= o + xid_continue_chunk_22());
}

fn push_xid_continue_chunk_23(v: &mut Vec<ClassUnicodeRange>)
    ensures
        rview(final(v)@) == rview(old(v)@) + xid_continue_chunk_23(),
{
    let ghost o = rview(v@);
    push_range(v, '\u{E84}', '\u{E84}');
    push_range(v, '\u{E86}', '\u{E8A}');
    push_range(v, '\u{E8C}', '\u{EA3}');
    push_range(v, '\u{EA5}', '\u{EA5}');
    push_range(v, '\u{EA7}', '\u{EBD}');
    push_range(v, '\u{EC0}', '\u{EC4}');
    push_range(v, '\u{EC6}', '\u{EC6}');
    push_range(v, '\u{EC8}', '\u{ECE}');
    assert(rview(v@) =~= o + xid_continue_chunk_23());
}

fn push_xid_continue_chunk_24(v: &mut Vec<ClassUnicodeRange>)
    ensures
        rview(final(v)@) == rview(old(v)@) + xid_continue_chunk_24(),
{
    let ghost o = rview(v@);
    push_range(v, '\u{ED0}', '\u{ED9}');
    push_range(v, '\u{EDC}', '\u{EDF}');
    push_range(v, '\u{F00}', '\u{F00}');
    push_range(v, '\u{F18}', '\u{F19}');
    push_range(v, '\u{F20}', '\u{F29}');
    push_range(v, '\u{F35}', '\u{F35}');
    push_range(v, '\u{F37}', '\u{F37}');
    push_range(v, '\u{F39}', '\u{F39}');
    assert(rview(v@) =~= o + xid_continue_chunk_24());
}

fn push_xid_continue_chunk_25(v: &mut Vec<ClassUnicodeRange>)
    ensures
        rview(final(v)@) == rview(old(v)@) + xid_continue_chunk_25(),
{
    let ghost o = rview(v@);
    push_range(v, '\u{F3E}', '\u{F47}');
    push_range(v, '\u{F49}', '\u{F6C}');
    push_range(v, '\u{F71}', '\u{F84}');
    push_range(v, '\u{F86}', '\u{F97}');
    push_range(v, '\u{F99}', '\u{FBC}');
    push_range(v, '\u{FC6}', '\u{FC6}');
    push_range(v, '\u{1000}', '\u{1049}');
    push_range(v, '\u{1050}', '\u{109D}');
    assert(rview(v@) =~= o + xid_continue_chunk_25());
}

fn push_xid_continue_chunk_26(v: &mut Vec<ClassUnicodeRange>)
    ensures
        rview(final(v)@) == rview(old(v)@) + xid_continue_chunk_26(),
{
    let ghost o = rview(v@);
    push_range(v, '\u{10A0}', '\u{10C5}');
    push_range(v, '\u{10C7}', '\u{10C7}');
    push_range(v, '\u{10CD}', '\u{10CD}');
    push_range(v, '\u{10D0}', '\u{10FA}');
    push_range(v, '\u{10FC}', '\u{1248}');
    push_range(v, '\u{124A}', '\u{124D}');
    push_range(v, '\u{1250}', '\u{1256}');
    push_range(v, '\u{1258}', '\u{1258}');
    assert(rview(v@) =~= o + xid_continue_chunk_26());
}

fn push_xid_continue_chunk_27(v: &mut Vec<ClassUnicodeRange>)
    ensures
        rview(final(v)@) == rview(old(v)@) + xid_continue_chunk_27(),
{
    let ghost o = rview(v@);
    push_range(v, '\u{125A}', '\u{125D}');
    push_range(v, '\u{1260}', '\u{1288}');
    push_range(v, '\u{128A}', '\u{128D}');
    push_range(v, '\u{1290}', '\u{12B0}');
    push_range(v, '\u{12B2}', '\u{12B5}');
    push_range(v, '\u{12B8}', '\u{12BE}');
    push_range(v, '\u{12C0}', '\u{12C0}');
    push_range(v, '\u{12C2}', '\u{12C5}');
    assert(rview(v@) =~= o + xid_continue_chunk_27());
}

fn push_xid_continue_chunk_28(v: &mut Vec<ClassUnicodeRange>)
    ensures
        rview(final(v)@) == rview(old(v)@) + xid_continue_chunk_28(),
{
    let ghost o = rview(v@);
    push_range(v, '\u{12C8}', '\u{12D6}');
    push_range(v, '\u{12D8}', '\u{1310}');
    push_range(v, '\u{1312}', '\u{1315}');
    push_range(v, '\u{1318}', '\u{135A}');
    push_range(v, '\u{135D}', '\u{135F}');
    push_range(v, '\u{1369}', '\u{1371}');
    push_range(v, '\u{1380}', '\u{138F}');
    push_range(v, '\u{13A0}', '\u{13F5}');
    assert(rview(v@) =~= o + xid_continue_chunk_28());
}

fn push_xid_continue_chunk_29(v: &mut Vec<ClassUnicodeRange>)
    ensures
        rview(final(v)@) == rview(old(v)@) + xid_continue_chunk_29(),
{
    let ghost o = rview(v@);
    push_range(v, '\u{13F8}', '\u{13FD}');
    push_range(v, '\u{1401}', '\u{166C}');
    push_range(v, '\u{166F}', '\u{167F}');
    push_range(v, '\u{1681}', '\u{169A}');
    push_range(v, '\u{16A0}', '\u{16EA}');
    push_range(v, '\u{16EE}', '\u{16F8}');
    push_range(v, '\u{1700}', '\u{1715}');
    push_range(v, '\u{171F}', '\u{1734}');
    assert(rview(v@) =~= o + xid_continue_chunk_29());
}

fn push_xid_continue_chunk_30(v: &mut Vec<ClassUnicodeRange>)
    ensures
        rview(final(v)@) == rview(old(v)@) + xid_continue_chunk_30(),
{
    let ghost o = rview(v@);
    push_range(v, '\u{1740}', '\u{1753}');
    push_range(v, '\u{1760}', '\u{176C}');
    push_range(v, '\u{176E}', '\u{1770}');
    push_range(v, '\u{1772}', '\u{1773}');
    push_range(v, '\u{1780}', '\u{17D3}');
    push_range(v, '\u{17D7}', '\u{17D7}');
    push_range(v, '\u{17DC}', '\u{17DD}');
    push_range(v, '\u{17E0}', '\u{17E9}');
    assert(rview(v@) =~= o + xid_continue_chunk_30());
}

fn push_xid_continue_chunk_31(v: &mut Vec<ClassUnicodeRange>)
    ensures
        rview(final(v)@) == rview(old(v)@) + xid_continue_chunk_31(),
{
    let ghost o = rview(v@);
    push_range(v, '\u{180B}', '\u{180D}');
    push_range(v, '\u{180F}', '\u{1819}');
    push_range(v, '\u{1820}', '\u{1878}');
    push_range(v, '\u{1880}', '\u{18AA}');
    push_range(v, '\u{18B0}', '\u{18F5}');
    push_range(v, '\u{1900}', '\u{191E}');
    push_range(v, '\u{1920}', '\u{192B}');
    push_range(v, '\u{1930}', '\u{193B}');
    assert(rview(v@) =~= o + xid_continue_chunk_31());
}

fn push_xid_continue_chunk_32(v: &mut Vec<ClassUnicodeRange>)
    ensures
        rview(final(v)@) == rview(old(v)@) + xid_continue_chunk_32(),
{
    let ghost o = rview(v@);
    push_range(v, '\u{1946}', '\u{196D}');
    push_range(v, '\u{1970}', '\u{1974}');
    push_range(v, '\u{1980}', '\u{19AB}');
    push_range(v, '\u{19B0}', '\u{19C9}');
    push_range(v, '\u{19D0}', '\u{19DA}');
    push_range(v, '\u{1A00}', '\u{1A1B}');
    push_range(v, '\u{1A20}', '\u{1A5E}');
    push_range(v, '\u{1A60}', '\u{1A7C}');
    assert(rview(v@) =~= o + xid_continue_chunk_32());
}

fn push_xid_continue_chunk_33(v: &mut Vec<ClassUnicodeRange>)
    ensures
        rview(final(v)@) == rview(old(v)@) + xid_continue_chunk_33(),
{
    let ghost o = rview(v@);
    push_range(v, '\u{1A7F}', '\u{1A89}');
    push_range(v, '\u{1A90}', '\u{1A99}');
    push_range(v, '\u{1AA7}', '\u{1AA7}');
    push_range(v, '\u{1AB0}', '\u{1ABD}');
    push_range(v, '\u{1ABF}', '\u{1ACE}');
    push_range(v, '\u{1B00}', '\u{1B4C}');
    push_range(v, '\u{1B50}', '\u{1B59}');
    push_range(v, '\u{1B6B}', '\u{1B73}');
    assert(rview(v@) =~= o + xid_continue_chunk_33());
}

fn push_xid_continue_chunk_34(v: &mut Vec<ClassUnicodeRange>)
    ensures
        rview(final(v)@) == rview(old(v)@) + xid_continue_chunk_34(),
{
    let ghost o = rview(v@);
    push_range(v, '\u{1B80}', '\u{1BF3}');
    push_range(v, '\u{1C00}', '\u{1C37}');
    push_range(v, '\u{1C40}', '\u{1C49}');
    push_range(v, '\u{1C4D}', '\u{1C7D}');
    push_range(v, '\u{1C80}', '\u{1C8A}');
    push_range(v, '\u{1C90}', '\u{1CBA}');
    push_range(v, '\u{1CBD}', '\u{1CBF}');
    push_range(v, '\u{1CD0}', '\u{1CD2}');
    assert(rview(v@) =~= o + xid_continue_chunk_34());
}

fn push_xid_continue_chunk_35(v: &mut Vec<ClassUnicodeRange>)
    ensures
        rview(final(v)@) == rview(old(v)@) + xid_continue_chunk_35(),
{
    let ghost o = rview(v@);
    push_range(v, '\u{1CD4}', '\u{1CFA}');
    push_range(v, '\u{1D00}', '\u{1F15}');
    push_range(v, '\u{1F18}', '\u{1F1D}');
    push_range(v, '\u{1F20}', '\u{1F45}');
    push_range(v, '\u{1F48}', '\u{1F4D}');
    push_range(v, '\u{1F50}', '\u{1F57}');
    push_range(v, '\u{1F59}', '\u{1F59}');
    push_range(v, '\u{1F5B}', '\u{1F5B}');
    assert(rview(v@) =~= o + xid_continue_chunk_35());
}

fn push_xid_continue_chunk_36(v: &mut Vec<ClassUnicodeRange>)
    ensures
        rview(final(v)@) == rview(old(v)@) + xid_continue_chunk_36(),
{
    let ghost o = rview(v@);
    push_range(v, '\u{1F5D}', '\u{1F5D}');
    push_range(v, '\u{1F5F}', '\u{1F7D}');
    push_range(v, '\u{1F80}', '\u{1FB4}');
    push_range(v, '\u{1FB6}', '\u{1FBC}');
    push_range(v, '\u{1FBE}', '\u{1FBE}');
    push_range(v, '\u{1FC2}', '\u{1FC4}');
    push_range(v, '\u{1FC6}', '\u{1FCC}');
    push_range(v, '\u{1FD0}', '\u{1FD3}');
    assert(rview(v@) =~= o + xid_continue_chunk_36());
}

fn push_xid_continue_chunk_37(v: &mut Vec<ClassUnicodeRange>)
    ensures
        rview(final(v)@) == rview(old(v)@) + xid_continue_chunk_37(),
{
    let ghost o = rview(v@);
    push_range(v, '\u{1FD6}', '\u{1FDB}');
    push_range(v, '\u{1FE0}', '\u{1FEC}');
    push_range(v, '\u{1FF2}', '\u{1FF4}');
    push_range(v, '\u{1FF6}', '\u{1FFC}');
    push_range(v, '\u{200C}', '\u{200D}');
    push_range(v, '\u{203F}', '\u{2040}');
    push_range(v, '\u{2054}', '\u{2054}');
    push_range(v, '\u{2071}', '\u{2071}');
    assert(rview(v@) =~= o + xid_continue_chunk_37());
}

fn push_xid_continue_chunk_38(v: &mut Vec<ClassUnicodeRange>)
    ensures
        rview(final(v)@) == rview(old(v)@) + xid_continue_chunk_38(),
{
    let ghost o = rview(v@);
    push_range(v, '\u{207F}', '\u{207F}');
    push_range(v, '\u{2090}', '\u{209C}');
    push_range(v, '\u{20D0}', '\u{20DC}');
    push_range(v, '\u{20E1}', '\u{20E1}');
    push_range(v, '\u{20E5}', '\u{20F0}');
    push_range(v, '\u{2102}', '\u{2102}');
    push_range(v, '\u{2107}', '\u{2107}');
    push_range(v, '\u{210A}', '\u{2113}');
    assert(rview(v@) =~= o + xid_continue_chunk_38());
}

fn push_xid_continue_chunk_39(v: &mut Vec<ClassUnicodeRange>)
    ensures
        rview(final(v)@) == rview(old(v)@) + xid_continue_chunk_39(),
{
    let ghost o = rview(v@);
    push_range(v, '\u{2115}', '\u{2115}');
    push_range(v, '\u{2118}', '\u{211D}');
    push_range(v, '\u{2124}', '\u{2124}');
    push_range(v, '\u{2126}', '\u{2126}');
    push_range(v, '\u{2128}', '\u{2128}');
    push_range(v, '\u{212A}', '\u{2139}');
    push_range(v, '\u{213C}', '\u{213F}');
    push_range(v, '\u{2145}', '\u{2149}');
    assert(rview(v@) =~= o + xid_continue_chunk_39());
}

fn push_xid_continue_chunk_40(v: &mut Vec<ClassUnicodeRange>)
    ensures
        rview(final(v)@) == rview(old(v)@) + xid_continue_chunk_40(),
{
    let ghost o = rview(v@);
    push_range(v, '\u{214E}', '\u{214E}');
    push_range(v, '\u{2160}', '\u{2188}');
    push_range(v, '\u{2C00}', '\u{2CE4}');
    push_range(v, '\u{2CEB}', '\u{2CF3}');
    push_range(v, '\u{2D00}', '\u{2D25}');
    push_range(v, '\u{2D27}', '\u{2D27}');
    push_range(v, '\u{2D2D}', '\u{2D2D}');
    push_range(v, '\u{2D30}', '\u{2D67}');
    assert(rview(v@) =~= o + xid_continue_chunk_40());
}

fn push_xid_continue_chunk_41(v: &mut Vec<ClassUnicodeRange>)
    ensures
        rview(final(v)@) == rview(old(v)@) + xid_continue_chunk_41(),
{
    let ghost o = rview(v@);
    push_range(v, '\u{2D6F}', '\u{2D6F}');
    push_range(v, '\u{2D7F}', '\u{2D96}');
    push_range(v, '\u{2DA0}', '\u{2DA6}');
    push_range(v, '\u{2DA8}', '\u{2DAE}');
    push_range(v, '\u{2DB0}', '\u{2DB6}');
    push_range(v, '\u{2DB8}', '\u{2DBE}');
    push_range(v, '\u{2DC0}', '\u{2DC6}');
    push_range(v, '\u{2DC8}', '\u{2DCE}');
    assert(rview(v@) =~= o + xid_continue_chunk_41());
}

fn push_xid_continue_chunk_42(v: &mut Vec<ClassUnicodeRange>)
    ensures
        rview(final(v)@) == rview(old(v)@) + xid_continue_chunk_42(),
{
    let ghost o = rview(v@);
    push_range(v, '\u{2DD0}', '\u{2DD6}');
    push_range(v, '\u{2DD8}', '\u{2DDE}');
    push_range(v, '\u{2DE0}', '\u{2DFF}');
    push_range(v, '\u{3005}', '\u{3007}');
    push_range(v, '\u{3021}', '\u{302F}');
    push_range(v, '\u{3031}', '\u{3035}');
    push_range(v, '\u{3038}', '\u{303C}');
    push_range(v, '\u{3041}', '\u{3096}');
    assert(rview(v@) =~= o + xid_continue_chunk_42());
}

fn push_xid_continue_chunk_43(v: &mut Vec<ClassUnicodeRange>)
    ensures
        rview(final(v)@) == rview(old(v)@) + xid_continue_chunk_43(),
{
    let ghost o = rview(v@);
    push_range(v, '\u{3099}', '\u{309A}');
    push_range(v, '\u{309D}', '\u{309F}');
    push_range(v, '\u{30A1}', '\u{30FF}');
    push_range(v, '\u{3105}', '\u{312F}');
    push_range(v, '\u{3131}', '\u{318E}');
    push_range(v, '\u{31A0}', '\u{31BF}');
    push_range(v, '\u{31F0}', '\u{31FF}');
    push_range(v, '\u{3400}', '\u{4DBF}');
    assert(rview(v@) =~= o + xid_continue_chunk_43());
}

fn push_xid_continue_chunk_44(v: &mut Vec<ClassUnicodeRange>)
    ensures
        rview(final(v)@) == rview(old(v)@) + xid_continue_chunk_44(),
{
    let ghost o = rview(v@);
    push_range(v, '\u{4E00}', '\u{A48C}');
    push_range(v, '\u{A4D0}', '\u{A4FD}');
    push_range(v, '\u{A500}', '\u{A60C}');
    push_range(v, '\u{A610}', '\u{A62B}');
    push_range(v, '\u{A640}', '\u{A66F}');
    push_range(v, '\u{A674}', '\u{A67D}');
    push_range(v, '\u{A67F}', '\u{A6F1}');
    push_range(v, '\u{A717}', '\u{A71F}');
    assert(rview(v@) =~= o + xid_continue_chunk_44());
}

fn push_xid_continue_chunk_45(v: &mut Vec<ClassUnicodeRange>)
    ensures
        rview(final(v)@) == rview(old(v)@) + xid_continue_chunk_45(),
{
    let ghost o = rview(v@);
    push_range(v, '\u{A722}', '\u{A788}');
    push_range(v, '\u{A78B}', '\u{A7CD}');
    push_range(v, '\u{A7D0}', '\u{A7D1}');
    push_range(v, '\u{A7D3}', '\u{A7D3}');
    push_range(v, '\u{A7D5}', '\u{A7DC}');
    push_range(v, '\u{A7F2}', '\u{A827}');
    push_range(v, '\u{A82C}', '\u{A82C}');
    push_range(v, '\u{A840}', '\u{A873}');
    assert(rview(v@) =~= o + xid_continue_chunk_45());
}

fn push_xid_continue_chunk_46(v: &mut Vec<ClassUnicodeRange>)
    ensures
        rview(final(v)@) == rview(old(v)@) + xid_continue_chunk_46(),
{
    let ghost o = rview(v@);
    push_range(v, '\u{A880}', '\u{A8C5}');
    push_range(v, '\u{A8D0}', '\u{A8D9}');
    push_range(v, '\u{A8E0}', '\u{A8F7}');
    push_range(v, '\u{A8FB}', '\u{A8FB}');
    push_range(v, '\u{A8FD}', '\u{A92D}');
    push_range(v, '\u{A930}', '\u{A953}');
    push_range(v, '\u{A960}', '\u{A97C}');
    push_range(v, '\u{A980}', '\u{A9C0}');
    assert(rview(v@) =~= o + xid_continue_chunk_46());
}

fn push_xid_continue_chunk_47(v: &mut Vec<ClassUnicodeRange>)
    ensures
        rview(final(v)@) == rview(old(v)@) + xid_continue_chunk_47(),
{
    let ghost o = rview(v@);
    push_range(v, '\u{A9CF}', '\u{A9D9}');
    push_range(v, '\u{A9E0}', '\u{A9FE}');
    push_range(v, '\u{AA00}', '\u{AA36}');
    push_range(v, '\u{AA40}', '\u{AA4D}');
    push_range(v, '\u{AA50}', '\u{AA59}');
    push_range(v, '\u{AA60}', '\u{AA76}');
    push_range(v, '\u{AA7A}', '\u{AAC2}');
    push_range(v, '\u{AADB}', '\u{AADD}');
    assert(rview(v@) =~= o + xid_continue_chunk_47());
}

fn push_xid_continue_chunk_48(v: &mut Vec<ClassUnicodeRange>)
    ensures
        rview(final(v)@) == rview(old(v)@) + xid_continue_chunk_48(),
{
    let ghost o = rview(v@);
    push_range(v, '\u{AAE0}', '\u{AAEF}');
    push_range(v, '\u{AAF2}', '\u{AAF6}');
    push_range(v, '\u{AB01}', '\u{AB06}');
    push_range(v, '\u{AB09}', '\u{AB0E}');
    push_range(v, '\u{AB11}', '\u{AB16}');
    push_range(v, '\u{AB20}', '\u{AB26}');
    push_range(v, '\u{AB28}', '\u{AB2E}');
    push_range(v, '\u{AB30}', '\u{AB5A}');
    assert(rview(v@) =~= o + xid_continue_chunk_48());
}

fn push_xid_continue_chunk_49(v: &mut Vec<ClassUnicodeRange>)
    ensures
        rview(final(v)@) == rview(old(v)@) + xid_continue_chunk_49(),
{
    let ghost o = rview(v@);
    push_range(v, '\u{AB5C}', '\u{AB69}');
    push_range(v, '\u{AB70}', '\u{ABEA}');
    push_range(v, '\u{ABEC}', '\u{ABED}');
    push_range(v, '\u{ABF0}', '\u{ABF9}');
    push_range(v, '\u{AC00}', '\u{D7A3}');
    push_range(v, '\u{D7B0}', '\u{D7C6}');
    push_range(v, '\u{D7CB}', '\u{D7FB}');
    push_range(v, '\u{F900}', '\u{FA6D}');
    assert(rview(v@) =~= o + xid_continue_chunk_49());
}

fn push_xid_continue_chunk_50(v: &mut Vec<ClassUnicodeRange>)
    ensures
        rview(final(v)@) == rview(old(v)@) + xid_continue_chunk_50(),
{
    let ghost o = rview(v@);
    push_range(v, '\u{FA70}', '\u{FAD9}');
    push_range(v, '\u{FB00}', '\u{FB06}');
    push_range(v, '\u{FB13}', '\u{FB17}');
    push_range(v, '\u{FB1D}', '\u{FB28}');
    push_range(v, '\u{FB2A}', '\u{FB36}');
    push_range(v, '\u{FB38}', '\u{FB3C}');
    push_range(v, '\u{FB3E}', '\u{FB3E}');
    push_range(v, '\u{FB40}', '\u{FB41}');
    assert(rview(v@) =~= o + xid_continue_chunk_50());
}

fn push_xid_continue_chunk_51(v: &mut Vec<ClassUnicodeRange>)
    ensures
        rview(final(v)@) == rview(old(v)@) + xid_continue_chunk_51(),
{
    let ghost o = rview(v@);
    push_range(v, '\u{FB43}', '\u{FB44}');
    push_range(v, '\u{FB46}', '\u{FBB1}');
    push_range(v, '\u{FBD3}', '\u{FC5D}');
    push_range(v, '\u{FC64}', '\u{FD3D}');
    push_range(v, '\u{FD50}', '\u{FD8F}');
    push_range(v, '\u{FD92}', '\u{FDC7}');
    push_range(v, '\u{FDF0}', '\u{FDF9}');
    push_range(v, '\u{FE00}', '\u{FE0F}');
    assert(rview(v@) =~= o + xid_continue_chunk_51());
}

fn push_xid_continue_chunk_52(v: &mut Vec<ClassUnicodeRange>)
    ensures
        rview(final(v)@) == rview(old(v)@) + xid_continue_chunk_52(),
{
    let ghost o = rview(v@);
    push_range(v, '\u{FE20}', '\u{FE2F}');
    push_range(v, '\u{FE33}', '\u{FE34}');
    push_range(v, '\u{FE4D}', '\u{FE4F}');
    push_range(v, '\u{FE71}', '\u{FE71}');
    push_range(v, '\u{FE73}', '\u{FE73}');
    push_range(v, '\u{FE77}', '\u{FE77}');
    push_range(v, '\u{FE79}', '\u{FE79}');
    push_range(v, '\u{FE7B}', '\u{FE7B}');
    assert(rview(v@) =~= o + xid_continue_chunk_52());
}

fn push_xid_continue_chunk_53(v: &mut Vec<ClassUnicodeRange>)
    ensures
        rview(final(v)@) == rview(old(v)@) + xid_continue_chunk_53(),
{
    let ghost o = rview(v@);
    push_range(v, '\u{FE7D}', '\u{FE7D}');
    push_range(v, '\u{FE7F}', '\u{FEFC}');
    push_range(v, '\u{FF10}', '\u{FF19}');
    push_range(v, '\u{FF21}', '\u{FF3A}');
    push_range(v, '\u{FF3F}', '\u{FF3F}');
    push_range(v, '\u{FF41}', '\u{FF5A}');
    push_range(v, '\u{FF65}', '\u{FFBE}');
    push_range(v, '\u{FFC2}', '\u{FFC7}');
    assert(rview(v@) =~= o + xid_continue_chunk_53());
}

fn push_xid_continue_chunk_54(v: &mut Vec<ClassUnicodeRange>)
    ensures
        rview(final(v)@) == rview(old(v)@) + xid_continue_chunk_54(),
{
    let ghost o = rview(v@);
    push_range(v, '\u{FFCA}', '\u{FFCF}');
    push_range(v, '\u{FFD2}', '\u{FFD7}');
    push_range(v, '\u{FFDA}', '\u{FFDC}');
    push_range(v, '\u{10000}', '\u{1000B}');
    push_range(v, '\u{1000D}', '\u{10026}');
    push_range(v, '\u{10028}', '\u{1003A}');
    push_range(v, '\u{1003C}', '\u{1003D}');
    push_range(v, '\u{1003F}', '\u{1004D}');
    assert(rview(v@) =~= o + xid_continue_chunk_54());
}

fn push_xid_continue_chunk_55(v: &mut Vec<ClassUnicodeRange>)
    ensures
        rview(final(v)@) == rview(old(v)@) + xid_continue_chunk_55(),
{
    let ghost o = rview(v@);
    push_range(v, '\u{10050}', '\u{1005D}');
    push_range(v, '\u{10080}', '\u{100FA}');
    push_range(v, '\u{10140}', '\u{10174}');
    push_range(v, '\u{101FD}', '\u{101FD}');
    push_range(v, '\u{10280}', '\u{1029C}');
    push_range(v, '\u{102A0}', '\u{102D0}');
    push_range(v, '\u{102E0}', '\u{102E0}');
    push_range(v, '\u{10300}', '\u{1031F}');
    assert(rview(v@) =~= o + xid_continue_chunk_55());
}

fn push_xid_continue_chunk_56(v: &mut Vec<ClassUnicodeRange>)
    ensures
        rview(final(v)@) == rview(old(v)@) + xid_continue_chunk_56(),
{
    let ghost o = rview(v@);
    push_range(v, '\u{1032D}', '\u{1034A}');
    push_range(v, '\u{10350}', '\u{1037A}');
    push_range(v, '\u{10380}', '\u{1039D}');
    push_range(v, '\u{103A0}', '\u{103C3}');
    push_range(v, '\u{103C8}', '\u{103CF}');
    push_range(v, '\u{103D1}', '\u{103D5}');
    push_range(v, '\u{10400}', '\u{1049D}');
    push_range(v, '\u{104A0}', '\u{104A9}');
    assert(rview(v@) =~= o + xid_continue_chunk_56());
}

fn push_xid_continue_chunk_57(v: &mut Vec<ClassUnicodeRange>)
    ensures
        rview(final(v)@) == rview(old(v)@) + xid_continue_chunk_57(),
{
    let ghost o = rview(v@);
    push_range(v, '\u{104B0}', '\u{104D3}');
    push_range(v, '\u{104D8}', '\u{104FB}');
    push_range(v, '\u{10500}', '\u{10527}');
    push_range(v, '\u{10530}', '\u{10563}');
    push_range(v, '\u{10570}', '\u{1057A}');
    push_range(v, '\u{1057C}', '\u{1058A}');
    push_range(v, '\u{1058C}', '\u{10592}');
    push_range(v, '\u{10594}', '\u{10595}');
    assert(rview(v@) =~= o + xid_continue_chunk_57());
}

fn push_xid_continue_chunk_58(v: &mut Vec<ClassUnicodeRange>)
    ensures
        rview(final(v)@) == rview(old(v)@) + xid_continue_chunk_58(),
{
    let ghost o = rview(v@);
    push_range(v, '\u{10597}', '\u{105A1}');
    push_range(v, '\u{105A3}', '\u{105B1}');
    push_range(v, '\u{105B3}', '\u{105B9}');
    push_range(v, '\u{105BB}', '\u{105BC}');
    push_range(v, '\u{105C0}', '\u{105F3}');
    push_range(v, '\u{10600}', '\u{10736}');
    push_range(v, '\u{10740}', '\u{10755}');
    push_range(v, '\u{10760}', '\u{10767}');
    assert(rview(v@) =~= o + xid_continue_chunk_58());
}

fn push_xid_continue_chunk_59(v: &mut Vec<ClassUnicodeRange>)
    ensures
        rview(final(v)@) == rview(old(v)@) + xid_continue_chunk_59(),
{
    let ghost o = rview(v@);
    push_range(v, '\u{10780}', '\u{10785}');
    push_range(v, '\u{10787}', '\u{107B0}');
    push_range(v, '\u{107B2}', '\u{107BA}');
    push_range(v, '\u{10800}', '\u{10805}');
    push_range(v, '\u{10808}', '\u{10808}');
    push_range(v, '\u{1080A}', '\u{10835}');
    push_range(v, '\u{10837}', '\u{10838}');
    push_range(v, '\u{1083C}', '\u{1083C}');
    assert(rview(v@) =~= o + xid_continue_chunk_59());
}

fn push_xid_continue_chunk_60(v: &mut Vec<ClassUnicodeRange>)
    ensures
        rview(final(v)@) == rview(old(v)@) + xid_continue_chunk_60(),
{
    let ghost o = rview(v@);
    push_range(v, '\u{1083F}', '\u{10855}');
    push_range(v, '\u{10860}', '\u{10876}');
    push_range(v, '\u{10880}', '\u{1089E}');
    push_range(v, '\u{108E0}', '\u{108F2}');
    push_range(v, '\u{108F4}', '\u{108F5}');
    push_range(v, '\u{10900}', '\u{10915}');
    push_range(v, '\u{10920}', '\u{10939}');
    push_range(v, '\u{10980}', '\u{109B7}');
    assert(rview(v@) =~= o + xid_continue_chunk_60());
}

fn push_xid_continue_chunk_61(v: &mut Vec<ClassUnicodeRange>)
    ensures
        rview(final(v)@) == rview(old(v)@) + xid_continue_chunk_61(),
{
    let ghost o = rview(v@);
    push_range(v, '\u{109BE}', '\u{109BF}');
    push_range(v, '\u{10A00}', '\u{10A03}');
    push_range(v, '\u{10A05}', '\u{10A06}');
    push_range(v, '\u{10A0C}', '\u{10A13}');
    push_range(v, '\u{10A15}', '\u{10A17}');
    push_range(v, '\u{10A19}', '\u{10A35}');
    push_range(v, '\u{10A38}', '\u{10A3A}');
    push_range(v, '\u{10A3F}', '\u{10A3F}');
    assert(rview(v@) =~= o + xid_continue_chunk_61());
}

fn push_xid_continue_chunk_62(v: &mut Vec<ClassUnicodeRange>)
    ensures
        rview(final(v)@) == rview(old(v)@) + xid_continue_chunk_62(),
{
    let ghost o = rview(v@);
    push_range(v, '\u{10A60}', '\u{10A7C}');
    push_range(v, '\u{10A80}', '\u{10A9C}');
    push_range(v, '\u{10AC0}', '\u{10AC7}');
    push_range(v, '\u{10AC9}', '\u{10AE6}');
    push_range(v, '\u{10B00}', '\u{10B35}');
    push_range(v, '\u{10B40}', '\u{10B55}');
    push_range(v, '\u{10B60}', '\u{10B72}');
    push_range(v, '\u{10B80}', '\u{10B91}');
    assert(rview(v@) =~= o + xid_continue_chunk_62());
}

fn push_xid_continue_chunk_63(v: &mut Vec<ClassUnicodeRange>)
    ensures
        rview(final(v)@) == rview(old(v)@) + xid_continue_chunk_63(),
{
    let ghost o = rview(v@);
    push_range(v, '\u{10C00}', '\u{10C48}');
    push_range(v, '\u{10C80}', '\u{10CB2}');
    push_range(v, '\u{10CC0}', '\u{10CF2}');
    push_range(v, '\u{10D00}', '\u{10D27}');
    push_range(v, '\u{10D30}', '\u{10D39}');
    push_range(v, '\u{10D40}', '\u{10D65}');
    push_range(v, '\u{10D69}', '\u{10D6D}');
    push_range(v, '\u{10D6F}', '\u{10D85}');
    assert(rview(v@) =~= o + xid_continue_chunk_63());
}

fn push_xid_continue_chunk_64(v: &mut Vec<ClassUnicodeRange>)
    ensures
        rview(final(v)@) == rview(old(v)@) + xid_continue_chunk_64(),
{
    let ghost o = rview(v@);
    push_range(v, '\u{10E80}', '\u{10EA9}');
    push_range(v, '\u{10EAB}', '\u{10EAC}');
    push_range(v, '\u{10EB0}', '\u{10EB1}');
    push_range(v, '\u{10EC2}', '\u{10EC4}');
    push_range(v, '\u{10EFC}', '\u{10F1C}');
    push_range(v, '\u{10F27}', '\u{10F27}');
    push_range(v, '\u{10F30}', '\u{10F50}');
    push_range(v, '\u{10F70}', '\u{10F85}');
    assert(rview(v@) =~= o + xid_continue_chunk_64());
}

fn push_xid_continue_chunk_65(v: &mut Vec<ClassUnicodeRange>)
    ensures
        rview(final(v)@) == rview(old(v)@) + xid_continue_chunk_65(),
{
    let ghost o = rview(v@);
    push_range(v, '\u{10FB0}', '\u{10FC4}');
    push_range(v, '\u{10FE0}', '\u{10FF6}');
    push_range(v, '\u{11000}', '\u{11046}');
    push_range(v, '\u{11066}', '\u{11075}');
    push_range(v, '\u{1107F}', '\u{110BA}');
    push_range(v, '\u{110C2}', '\u{110C2}');
    push_range(v, '\u{110D0}', '\u{110E8}');
    push_range(v, '\u{110F0}', '\u{110F9}');
    assert(rview(v@) =~= o + xid_continue_chunk_65());
}

fn push_xid_continue_chunk_66(v: &mut Vec<ClassUnicodeRange>)
    ensures
        rview(final(v)@) == rview(old(v)@) + xid_continue_chunk_66(),
{
    let ghost o = rview(v@);
    push_range(v, '\u{11100}', '\u{11134}');
    push_range(v, '\u{11136}', '\u{1113F}');
    push_range(v, '\u{11144}', '\u{11147}');
    push_range(v, '\u{11150}', '\u{11173}');
    push_range(v, '\u{11176}', '\u{11176}');
    push_range(v, '\u{11180}', '\u{111C4}');
    push_range(v, '\u{111C9}', '\u{111CC}');
    push_range(v, '\u{111CE}', '\u{111DA}');
    assert(rview(v@) =~= o + xid_continue_chunk_66());
}

fn push_xid_continue_chunk_67(v: &mut Vec<ClassUnicodeRange>)
    ensures
        rview(final(v)@) == rview(old(v)@) + xid_continue_chunk_67(),
{
    let ghost o = rview(v@);
    push_range(v, '\u{111DC}', '\u{111DC}');
    push_range(v, '\u{11200}', '\u{11211}');
    push_range(v, '\u{11213}', '\u{11237}');
    push_range(v, '\u{1123E}', '\u{11241}');
    push_range(v, '\u{11280}', '\u{11286}');
    push_range(v, '\u{11288}', '\u{11288}');
    push_range(v, '\u{1128A}', '\u{1128D}');
    push_range(v, '\u{1128F}', '\u{1129D}');
    assert(rview(v@) =~= o + xid_continue_chunk_67());
}

fn push_xid_continue_chunk_68(v: &mut Vec<ClassUnicodeRange>)
    ensures
        rview(final(v)@) == rview(old(v)@) + xid_continue_chunk_68(),
{
    let ghost o = rview(v@);
    push_range(v, '\u{1129F}', '\u{112A8}');
    push_range(v, '\u{112B0}', '\u{112EA}');
    push_range(v, '\u{112F0}', '\u{112F9}');
    push_range(v, '\u{11300}', '\u{11303}');
    push_range(v, '\u{11305}', '\u{1130C}');
    push_range(v, '\u{1130F}', '\u{11310}');
    push_range(v, '\u{11313}', '\u{11328}');
    push_range(v, '\u{1132A}', '\u{11330}');
    assert(rview(v@) =~= o + xid_continue_chunk_68());
}

fn push_xid_continue_chunk_69(v: &mut Vec<ClassUnicodeRange>)
    ensures
        rview(final(v)@) == rview(old(v)@) + xid_continue_chunk_69(),
{
    let ghost o = rview(v@);
    push_range(v, '\u{11332}', '\u{11333}');
    push_range(v, '\u{11335}', '\u{11339}');
    push_range(v, '\u{1133B}', '\u{11344}');
    push_range(v, '\u{11347}', '\u{11348}');
    push_range(v, '\u{1134B}', '\u{1134D}');
    push_range(v, '\u{11350}', '\u{11350}');
    push_range(v, '\u{11357}', '\u{11357}');
    push_range(v, '\u{1135D}', '\u{11363}');
    assert(rview(v@) =~= o + xid_continue_chunk_69());
}

fn push_xid_continue_chunk_70(v: &mut Vec<ClassUnicodeRange>)
    ensures
        rview(final(v)@) == rview(old(v)@) + xid_continue_chunk_70(),
{
    let ghost o = rview(v@);
    push_range(v, '\u{11366}', '\u{1136C}');
    push_range(v, '\u{11370}', '\u{11374}');
    push_range(v, '\u{11380}', '\u{11389}');
    push_range(v, '\u{1138B}', '\u{1138B}');
    push_range(v, '\u{1138E}', '\u{1138E}');
    push_range(v, '\u{11390}', '\u{113B5}');
    push_range(v, '\u{113B7}', '\u{113C0}');
    push_range(v, '\u{113C2}', '\u{113C2}');
    assert(rview(v@) =~= o + xid_continue_chunk_70());
}

fn push_xid_continue_chunk_71(v: &mut Vec<ClassUnicodeRange>)
    ensures
        rview(final(v)@) == rview(old(v)@) + xid_continue_chunk_71(),
{
    let ghost o = rview(v@);
    push_range(v, '\u{113C5}', '\u{113C5}');
    push_range(v, '\u{113C7}', '\u{113CA}');
    push_range(v, '\u{113CC}', '\u{113D3}');
    push_range(v, '\u{113E1}', '\u{113E2}');
    push_range(v, '\u{11400}', '\u{1144A}');
    push_range(v, '\u{11450}', '\u{11459}');
    push_range(v, '\u{1145E}', '\u{11461}');
    push_range(v, '\u{11480}', '\u{114C5}');
    assert(rview(v@) =~= o + xid_continue_chunk_71());
}

fn push_xid_continue_chunk_72(v: &mut Vec<ClassUnicodeRange>)
    ensures
        rview(final(v)@) == rview(old(v)@) + xid_continue_chunk_72(),
{
    let ghost o = rview(v@);
    push_range(v, '\u{114C7}', '\u{114C7}');
    push_range(v, '\u{114D0}', '\u{114D9}');
    push_range(v, '\u{11580}', '\u{115B5}');
    push_range(v, '\u{115B8}', '\u{115C0}');
    push_range(v, '\u{115D8}', '\u{115DD}');
    push_range(v, '\u{11600}', '\u{11640}');
    push_range(v, '\u{11644}', '\u{11644}');
    push_range(v, '\u{11650}', '\u{11659}');
    assert(rview(v@) =~= o + xid_continue_chunk_72());
}

fn push_xid_continue_chunk_73(v: &mut Vec<ClassUnicodeRange>)
    ensures
        rview(final(v)@) == rview(old(v)@) + xid_continue_chunk_73(),
{
    let ghost o = rview(v@);
    push_range(v, '\u{11680}', '\u{116B8}');
    push_range(v, '\u{116C0}', '\u{116C9}');
    push_range(v, '\u{116D0}', '\u{116E3}');
    push_range(v, '\u{11700}', '\u{1171A}');
    push_range(v, '\u{1171D}', '\u{1172B}');
    push_range(v, '\u{11730}', '\u{11739}');
    push_range(v, '\u{11740}', '\u{11746}');
    push_range(v, '\u{11800}', '\u{1183A}');
    assert(rview(v@) =~= o + xid_continue_chunk_73());
}

fn push_xid_continue_chunk_74(v: &mut Vec<ClassUnicodeRange>)
    ensures
        rview(final(v)@) == rview(old(v)@) + xid_continue_chunk_74(),
{
    let ghost o = rview(v@);
    push_range(v, '\u{118A0}', '\u{118E9}');
    push_range(v, '\u{118FF}', '\u{11906}');
    push_range(v, '\u{11909}', '\u{11909}');
    push_range(v, '\u{1190C}', '\u{11913}');
    push_range(v, '\u{11915}', '\u{11916}');
    push_range(v, '\u{11918}', '\u{11935}');
    push_range(v, '\u{11937}', '\u{11938}');
    push_range(v, '\u{1193B}', '\u{11943}');
    assert(rview(v@) =~= o + xid_continue_chunk_74());
}

fn push_xid_continue_chunk_75(v: &mut Vec<ClassUnicodeRange>)
    ensures
        rview(final(v)@) == rview(old(v)@) + xid_continue_chunk_75(),
{
    let ghost o = rview(v@);
    push_range(v, '\u{11950}', '\u{11959}');
    push_range(v, '\u{119A0}', '\u{119A7}');
    push_range(v, '\u{119AA}', '\u{119D7}');
    push_range(v, '\u{119DA}', '\u{119E1}');
    push_range(v, '\u{119E3}', '\u{119E4}');
    push_range(v, '\u{11A00}', '\u{11A3E}');
    push_range(v, '\u{11A47}', '\u{11A47}');
    push_range(v, '\u{11A50}', '\u{11A99}');
    assert(rview(v@) =~= o + xid_continue_chunk_75());
}

fn push_xid_continue_chunk_76(v: &mut Vec<ClassUnicodeRange>)
    ensures
        rview(final(v)@) == rview(old(v)@) + xid_continue_chunk_76(),
{
    let ghost o = rview(v@);
    push_range(v, '\u{11A9D}', '\u{11A9D}');
    push_range(v, '\u{11AB0}', '\u{11AF8}');
    push_range(v, '\u{11BC0}', '\u{11BE0}');
    push_range(v, '\u{11BF0}', '\u{11BF9}');
    push_range(v, '\u{11C00}', '\u{11C08}');
    push_range(v, '\u{11C0A}', '\u{11C36}');
    push_range(v, '\u{11C38}', '\u{11C40}');
    push_range(v, '\u{11C50}', '\u{11C59}');
    assert(rview(v@) =~= o + xid_continue_chunk_76());
}

fn push_xid_continue_chunk_77(v: &mut Vec<ClassUnicodeRange>)
    ensures
        rview(final(v)@) == rview(old(v)@) + xid_continue_chunk_77(),
{
    let ghost o = rview(v@);
    push_range(v, '\u{11C72}', '\u{11C8F}');
    push_range(v, '\u{11C92}', '\u{11CA7}');
    push_range(v, '\u{11CA9}', '\u{11CB6}');
    push_range(v, '\u{11D00}', '\u{11D06}');
    push_range(v, '\u{11D08}', '\u{11D09}');
    push_range(v, '\u{11D0B}', '\u{11D36}');
    push_range(v, '\u{11D3A}', '\u{11D3A}');
    push_range(v, '\u{11D3C}', '\u{11D3D}');
    assert(rview(v@) =~= o + xid_continue_chunk_77());
}

fn push_xid_continue_chunk_78(v: &mut Vec<ClassUnicodeRange>)
    ensures
        rview(final(v)@) == rview(old(v)@) + xid_continue_chunk_78(),
{
    let ghost o = rview(v@);
    push_range(v, '\u{11D3F}', '\u{11D47}');
    push_range(v, '\u{11D50}', '\u{11D59}');
    push_range(v, '\u{11D60}', '\u{11D65}');
    push_range(v, '\u{11D67}', '\u{11D68}');
    push_range(v, '\u{11D6A}', '\u{11D8E}');
    push_range(v, '\u{11D90}', '\u{11D91}');
    push_range(v, '\u{11D93}', '\u{11D98}');
    push_range(v, '\u{11DA0}', '\u{11DA9}');
    assert(rview(v@) =~= o + xid_continue_chunk_78());
}

fn push_xid_continue_chunk_79(v: &mut Vec<ClassUnicodeRange>)
    ensures
        rview(final(v)@) == rview(old(v)@) + xid_continue_chunk_79(),
{
    let ghost o = rview(v@);
    push_range(v, '\u{11EE0}', '\u{11EF6}');
    push_range(v, '\u{11F00}', '\u{11F10}');
    push_range(v, '\u{11F12}', '\u{11F3A}');
    push_range(v, '\u{11F3E}', '\u{11F42}');
    push_range(v, '\u{11F50}', '\u{11F5A}');
    push_range(v, '\u{11FB0}', '\u{11FB0}');
    push_range(v, '\u{12000}', '\u{12399}');
    push_range(v, '\u{12400}', '\u{1246E}');
    assert(rview(v@) =~= o + xid_continue_chunk_79());
}

fn push_xid_continue_chunk_80(v: &mut Vec<ClassUnicodeRange>)
    ensures
        rview(final(v)@) == rview(old(v)@) + xid_continue_chunk_80(),
{
    let ghost o = rview(v@);
    push_range(v, '\u{12480}', '\u{12543}');
    push_range(v, '\u{12F90}', '\u{12FF0}');
    push_range(v, '\u{13000}', '\u{1342F}');
    push_range(v, '\u{13440}', '\u{13455}');
    push_range(v, '\u{13460}', '\u{143FA}');
    push_range(v, '\u{14400}', '\u{14646}');
    push_range(v, '\u{16100}', '\u{16139}');
    push_range(v, '\u{16800}', '\u{16A38}');
    assert(rview(v@) =~= o + xid_continue_chunk_80());
}

fn push_xid_continue_chunk_81(v: &mut Vec<ClassUnicodeRange>)
    ensures
        rview(final(v)@) == rview(old(v)@) + xid_continue_chunk_81(),
{
    let ghost o = rview(v@);
    push_range(v, '\u{16A40}', '\u{16A5E}');
    push_range(v, '\u{16A60}', '\u{16A69}');
    push_range(v, '\u{16A70}', '\u{16ABE}');
    push_range(v, '\u{16AC0}', '\u{16AC9}');
    push_range(v, '\u{16AD0}', '\u{16AED}');
    push_range(v, '\u{16AF0}', '\u{16AF4}');
    push_range(v, '\u{16B00}', '\u{16B36}');
    push_range(v, '\u{16B40}', '\u{16B43}');
    assert(rview(v@) =~= o + xid_continue_chunk_81());
}

fn push_xid_continue_chunk_82(v: &mut Vec<ClassUnicodeRange>)
    ensures
        rview(final(v)@) == rview(old(v)@) + xid_continue_chunk_82(),
{
    let ghost o = rview(v@);
    push_range(v, '\u{16B50}', '\u{16B59}');
    push_range(v, '\u{16B63}', '\u{16B77}');
    push_range(v, '\u{16B7D}', '\u{16B8F}');
    push_range(v, '\u{16D40}', '\u{16D6C}');
    push_range(v, '\u{16D70}', '\u{16D79}');
    push_range(v, '\u{16E40}', '\u{16E7F}');
    push_range(v, '\u{16F00}', '\u{16F4A}');
    push_range(v, '\u{16F4F}', '\u{16F87}');
    assert(rview(v@) =~= o + xid_continue_chunk_82());
}

fn push_xid_continue_chunk_83(v: &mut Vec<ClassUnicodeRange>)
    ensures
        rview(final(v)@) == rview(old(v)@) + xid_continue_chunk_83(),
{
    let ghost o = rview(v@);
    push_range(v, '\u{16F8F}', '\u{16F9F}');
    push_range(v, '\u{16FE0}', '\u{16FE1}');
    push_range(v, '\u{16FE3}', '\u{16FE4}');
    push_range(v, '\u{16FF0}', '\u{16FF1}');
    push_range(v, '\u{17000}', '\u{187F7}');
    push_range(v, '\u{18800}', '\u{18CD5}');
    push_range(v, '\u{18CFF}', '\u{18D08}');
    push_range(v, '\u{1AFF0}', '\u{1AFF3}');
    assert(rview(v@) =~= o + xid_continue_chunk_83());
}

fn push_xid_continue_chunk_84(v: &mut Vec<ClassUnicodeRange>)
    ensures
        rview(final(v)@) == rview(old(v)@) + xid_continue_chunk_84(),
{
    let ghost o = rview(v@);
    push_range(v, '\u{1AFF5}', '\u{1AFFB}');
    push_range(v, '\u{1AFFD}', '\u{1AFFE}');
    push_range(v, '\u{1B000}', '\u{1B122}');
    push_range(v, '\u{1B132}', '\u{1B132}');
    push_range(v, '\u{1B150}', '\u{1B152}');
    push_range(v, '\u{1B155}', '\u{1B155}');
    push_range(v, '\u{1B164}', '\u{1B167}');
    push_range(v, '\u{1B170}', '\u{1B2FB}');
    assert(rview(v@) =~= o + xid_continue_chunk_84());
}

fn push_xid_continue_chunk_85(v: &mut Vec<ClassUnicodeRange>)
    ensures
        rview(final(v)@) == rview(old(v)@) + xid_continue_chunk_85(),
{
    let ghost o = rview(v@);
    push_range(v, '\u{1BC00}', '\u{1BC6A}');
    push_range(v, '\u{1BC70}', '\u{1BC7C}');
    push_range(v, '\u{1BC80}', '\u{1BC88}');
    push_range(v, '\u{1BC90}', '\u{1BC99}');
    push_range(v, '\u{1BC9D}', '\u{1BC9E}');
    push_range(v, '\u{1CCF0}', '\u{1CCF9}');
    push_range(v, '\u{1CF00}', '\u{1CF2D}');
    push_range(v, '\u{1CF30}', '\u{1CF46}');
    assert(rview(v@) =~= o + xid_continue_chunk_85());
}

fn push_xid_continue_chunk_86(v: &mut Vec<ClassUnicodeRange>)
    ensures
        rview(final(v)@) == rview(old(v)@) + xid_continue_chunk_86(),
{
    let ghost o = rview(v@);
    push_range(v, '\u{1D165}', '\u{1D169}');
    push_range(v, '\u{1D16D}', '\u{1D172}');
    push_range(v, '\u{1D17B}', '\u{1D182}');
    push_range(v, '\u{1D185}', '\u{1D18B}');
    push_range(v, '\u{1D1AA}', '\u{1D1AD}');
    push_range(v, '\u{1D242}', '\u{1D244}');
    push_range(v, '\u{1D400}', '\u{1D454}');
    push_range(v, '\u{1D456}', '\u{1D49C}');
    assert(rview(v@) =~= o + xid_continue_chunk_86());
}

fn push_xid_continue_chunk_87(v: &mut Vec<ClassUnicodeRange>)
    ensures
        rview(final(v)@) == rview(old(v)@) + xid_continue_chunk_87(),
{
    let ghost o = rview(v@);
    push_range(v, '\u{1D49E}', '\u{1D49F}');
    push_range(v, '\u{1D4A2}', '\u{1D4A2}');
    push_range(v, '\u{1D4A5}', '\u{1D4A6}');
    push_range(v, '\u{1D4A9}', '\u{1D4AC}');
    push_range(v, '\u{1D4AE}', '\u{1D4B9}');
    push_range(v, '\u{1D4BB}', '\u{1D4BB}');
    push_range(v, '\u{1D4BD}', '\u{1D4C3}');
    push_range(v, '\u{1D4C5}', '\u{1D505}');
    assert(rview(v@) =~= o + xid_continue_chunk_87());
}

fn push_xid_continue_chunk_88(v: &mut Vec<ClassUnicodeRange>)
    ensures
        rview(final(v)@) == rview(old(v)@) + xid_continue_chunk_88(),
{
    let ghost o = rview(v@);
    push_range(v, '\u{1D507}', '\u{1D50A}');
    push_range(v, '\u{1D50D}', '\u{1D514}');
    push_range(v, '\u{1D516}', '\u{1D51C}');
    push_range(v, '\u{1D51E}', '\u{1D539}');
    push_range(v, '\u{1D53B}', '\u{1D53E}');
    push_range(v, '\u{1D540}', '\u{1D544}');
    push_range(v, '\u{1D546}', '\u{1D546}');
    push_range(v, '\u{1D54A}', '\u{1D550}');
    assert(rview(v@) =~= o + xid_continue_chunk_88());
}

fn push_xid_continue_chunk_89(v: &mut Vec<ClassUnicodeRange>)
    ensures
        rview(final(v)@) == rview(old(v)@) + xid_continue_chunk_89(),
{
    let ghost o = rview(v@);
    push_range(v, '\u{1D552}', '\u{1D6A5}');
    push_range(v, '\u{1D6A8}', '\u{1D6C0}');
    push_range(v, '\u{1D6C2}', '\u{1D6DA}');
    push_range(v, '\u{1D6DC}', '\u{1D6FA}');
    push_range(v, '\u{1D6FC}', '\u{1D714}');
    push_range(v, '\u{1D716}', '\u{1D734}');
    push_range(v, '\u{1D736}', '\u{1D74E}');
    push_range(v, '\u{1D750}', '\u{1D76E}');
    assert(rview(v@) =~= o + xid_continue_chunk_89());
}

fn push_xid_continue_chunk_90(v: &mut Vec<ClassUnicodeRange>)
    ensures
        rview(final(v)@) == rview(old(v)@) + xid_continue_chunk_90(),
{
    let ghost o = rview(v@);
    push_range(v, '\u{1D770}', '\u{1D788}');
    push_range(v, '\u{1D78A}', '\u{1D7A8}');
    push_range(v, '\u{1D7AA}', '\u{1D7C2}');
    push_range(v, '\u{1D7C4}', '\u{1D7CB}');
    push_range(v, '\u{1D7CE}', '\u{1D7FF}');
    push_range(v, '\u{1DA00}', '\u{1DA36}');
    push_range(v, '\u{1DA3B}', '\u{1DA6C}');
    push_range(v, '\u{1DA75}', '\u{1DA75}');
    assert(rview(v@) =~= o + xid_continue_chunk_90());
}

fn push_xid_continue_chunk_91(v: &mut Vec<ClassUnicodeRange>)
    ensures
        rview(final(v)@) == rview(old(v)@) + xid_continue_chunk_91(),
{
    let ghost o = rview(v@);
    push_range(v, '\u{1DA84}', '\u{1DA84}');
    push_range(v, '\u{1DA9B}', '\u{1DA9F}');
    push_range(v, '\u{1DAA1}', '\u{1DAAF}');
    push_range(v, '\u{1DF00}', '\u{1DF1E}');
    push_range(v, '\u{1DF25}', '\u{1DF2A}');
    push_range(v, '\u{1E000}', '\u{1E006}');
    push_range(v, '\u{1E008}', '\u{1E018}');
    push_range(v, '\u{1E01B}', '\u{1E021}');
    assert(rview(v@) =~= o + xid_continue_chunk_91());
}

fn push_xid_continue_chunk_92(v: &mut Vec<ClassUnicodeRange>)
    ensures
        rview(final(v)@) == rview(old(v)@) + xid_continue_chunk_92(),
{
    let ghost o = rview(v@);
    push_range(v, '\u{1E023}', '\u{1E024}');
    push_range(v, '\u{1E026}', '\u{1E02A}');
    push_range(v, '\u{1E030}', '\u{1E06D}');
    push_range(v, '\u{1E08F}', '\u{1E08F}');
    push_range(v, '\u{1E100}', '\u{1E12C}');
    push_range(v, '\u{1E130}', '\u{1E13D}');
    push_range(v, '\u{1E140}', '\u{1E149}');
    push_range(v, '\u{1E14E}', '\u{1E14E}');
    assert(rview(v@) =~= o + xid_continue_chunk_92());
}

fn push_xid_continue_chunk_93(v: &mut Vec<ClassUnicodeRange>)
    ensures
        rview(final(v)@) == rview(old(v)@) + xid_continue_chunk_93(),
{
    let ghost o = rview(v@);
    push_range(v, '\u{1E290}', '\u{1E2AE}');
    push_range(v, '\u{1E2C0}', '\u{1E2F9}');
    push_range(v, '\u{1E4D0}', '\u{1E4F9}');
    push_range(v, '\u{1E5D0}', '\u{1E5FA}');
    push_range(v, '\u{1E7E0}', '\u{1E7E6}');
    push_range(v, '\u{1E7E8}', '\u{1E7EB}');
    push_range(v, '\u{1E7ED}', '\u{1E7EE}');
    push_range(v, '\u{1E7F0}', '\u{1E7FE}');
    assert(rview(v@) =~= o + xid_continue_chunk_93());
}

fn push_xid_continue_chunk_94(v: &mut Vec<ClassUnicodeRange>)
    ensures
        rview(final(v)@) == rview(old(v)@) + xid_continue_chunk_94(),
{
    let ghost o = rview(v@);
    push_range(v, '\u{1E800}', '\u{1E8C4}');
    push_range(v, '\u{1E8D0}', '\u{1E8D6}');
    push_range(v, '\u{1E900}', '\u{1E94B}');
    push_range(v, '\u{1E950}', '\u{1E959}');
    push_range(v, '\u{1EE00}', '\u{1EE03}');
    push_range(v, '\u{1EE05}', '\u{1EE1F}');
    push_range(v, '\u{1EE21}', '\u{1EE22}');
    push_range(v, '\u{1EE24}', '\u{1EE24}');
    assert(rview(v@) =~= o + xid_continue_chunk_94());
}

fn push_xid_continue_chunk_95(v: &mut Vec<ClassUnicodeRange>)
    ensures
        rview(final(v)@) == rview(old(v)@) + xid_continue_chunk_95(),
{
    let ghost o = rview(v@);
    push_range(v, '\u{1EE27}', '\u{1EE27}');
    push_range(v, '\u{1EE29}', '\u{1EE32}');
    push_range(v, '\u{1EE34}', '\u{1EE37}');
    push_range(v, '\u{1EE39}', '\u{1EE39}');
    push_range(v, '\u{1EE3B}', '\u{1EE3B}');
    push_range(v, '\u{1EE42}', '\u{1EE42}');
    push_range(v, '\u{1EE47}', '\u{1EE47}');
    push_range(v, '\u{1EE49}', '\u{1EE49}');
    assert(rview(v@) =~= o + xid_continue_chunk_95());
}

fn push_xid_continue_chunk_96(v: &mut Vec<ClassUnicodeRange>)
    ensures
        rview(final(v)@) == rview(old(v)@) + xid_continue_chunk_96(),
{
    let ghost o = rview(v@);
    push_range(v, '\u{1EE4B}', '\u{1EE4B}');
    push_range(v, '\u{1EE4D}', '\u{1EE4F}');
    push_range(v, '\u{1EE51}', '\u{1EE52}');
    push_range(v, '\u{1EE54}', '\u{1EE54}');
    push_range(v, '\u{1EE57}', '\u{1EE57}');
    push_range(v, '\u{1EE59}', '\u{1EE59}');
    push_range(v, '\u{1EE5B}', '\u{1EE5B}');
    push_range(v, '\u{1EE5D}', '\u{1EE5D}');
    assert(rview(v@) =~= o + xid_continue_chunk_96());
}

fn push_xid_continue_chunk_97(v: &mut Vec<ClassUnicodeRange>)
    ensures
        rview(final(v)@) == rview(old(v)@) + xid_continue_chunk_97(),
{
    let ghost o = rview(v@);
    push_range(v, '\u{1EE5F}', '\u{1EE5F}');
    push_range(v, '\u{1EE61}', '\u{1EE62}');
    push_range(v, '\u{1EE64}', '\u{1EE64}');
    push_range(v, '\u{1EE67}', '\u{1EE6A}');
    push_range(v, '\u{1EE6C}', '\u{1EE72}');
    push_range(v, '\u{1EE74}', '\u{1EE77}');
    push_range(v, '\u{1EE79}', '\u{1EE7C}');
    push_range(v, '\u{1EE7E}', '\u{1EE7E}');
    assert(rview(v@) =~= o + xid_continue_chunk_97());
}

fn push_xid_continue_chunk_98(v: &mut Vec<ClassUnicodeRange>)
    ensures
        rview(final(v)@) == rview(old(v)@) + xid_continue_chunk_98(),
{
    let ghost o = rview(v@);
    push_range(v, '\u{1EE80}', '\u{1EE89}');
    push_range(v, '\u{1EE8B}', '\u{1EE9B}');
    push_range(v, '\u{1EEA1}', '\u{1EEA3}');
    push_range(v, '\u{1EEA5}', '\u{1EEA9}');
    push_range(v, '\u{1EEAB}', '\u{1EEBB}');
    push_range(v, '\u{1FBF0}', '\u{1FBF9}');
    push_range(v, '\u{20000}', '\u{2A6DF}');
    push_range(v, '\u{2A700}', '\u{2B739}');
    assert(rview(v@) =~= o + xid_continue_chunk_98());
}

fn push_xid_continue_chunk_99(v: &mut Vec<ClassUnicodeRange>)
    ensures
        rview(final(v)@) == rview(old(v)@) + xid_continue_chunk_99(),
{
    let ghost o = rview(v@);
    push_range(v, '\u{2B740}', '\u{2B81D}');
    push_range(v, '\u{2B820}', '\u{2CEA1}');
    push_range(v, '\u{2CEB0}', '\u{2EBE0}');
    push_range(v, '\u{2EBF0}', '\u{2EE5D}');
    push_range(v, '\u{2F800}', '\u{2FA1D}');
    push_range(v, '\u{30000}', '\u{3134A}');
    push_range(v, '\u{31350}', '\u{323AF}');
    push_range(v, '\u{E0100}', '\u{E01EF}');
    assert(rview(v@) =~= o + xid_continue_chunk_99());
}

fn push_xid_continue_block_0(v: &mut Vec<ClassUnicodeRange>)
    ensures
        rview(final(v)@) == rview(old(v)@) + xid_continue_block_0(),
{
    let ghost o = rview(v@);
    push_xid_continue_chunk_0(v);
    assert(rview(v@) =~= o + (xid_continue_chunk_0()));
    push_xid_continue_chunk_1(v);
    assert(rview(v@) =~= o + (xid_continue_chunk_0() + xid_continue_chunk_1()));
    push_xid_continue_chunk_2(v);
    assert(rview(v@) =~= o + (xid_continue_chunk_0() + xid_continue_chunk_1() + xid_continue_chunk_2()));
    push_xid_continue_chunk_3(v);
    assert(rview(v@) =~= o + (xid_continue_chunk_0() + xid_continue_chunk_1() + xid_continue_chunk_2() + xid_continue_chunk_3()));
    push_xid_continue_chunk_4(v);
    assert(rview(v@) =~= o + (xid_continue_chunk_0() + xid_continue_chunk_1() + xid_continue_chunk_2() + xid_continue_chunk_3() + xid_continue_chunk_4()));
    push_xid_continue_chunk_5(v);
    assert(rview(v@) =~= o + (xid_continue_chunk_0() + xid_continue_chunk_1() + xid_continue_chunk_2() + xid_continue_chunk_3() + xid_continue_chunk_4() + xid_continue_chunk_5()));
    push_xid_continue_chunk_6(v);
    assert(rview(v@) =~= o + (xid_continue_chunk_0() + xid_continue_chunk_1() + xid_continue_chunk_2() + xid_continue_chunk_3() + xid_continue_chunk_4() + xid_continue_chunk_5() + xid_continue_chunk_6()));
    push_xid_continue_chunk_7(v);
    assert(rview(v@) =~= o + (xid_continue_chunk_0() + xid_continue_chunk_1() + xid_continue_chunk_2() + xid_continue_chunk_3() + xid_continue_chunk_4() + xid_continue_chunk_5() + xid_continue_chunk_6() + xid_continue_chunk_7()));
    push_xid_continue_chunk_8(v);
    assert(rview(v@) =~= o + (xid_continue_chunk_0() + xid_continue_chunk_1() + xid_continue_chunk_2() + xid_continue_chunk_3() + xid_continue_chunk_4() + xid_continue_chunk_5() + xid_continue_chunk_6() + xid_continue_chunk_7() + xid_continue_chunk_8()));
    push_xid_continue_chunk_9(v);
    assert(rview(v@) =~= o + (xid_continue_chunk_0() + xid_continue_chunk_1() + xid_continue_chunk_2() + xid_continue_chunk_3() + xid_continue_chunk_4() + xid_continue_chunk_5() + xid_continue_chunk_6() + xid_continue_chunk_7() + xid_continue_chunk_8() + xid_continue_chunk_9()));
}

fn push_xid_continue_block_1(v: &mut Vec<ClassUnicodeRange>)
    ensures
        rview(final(v)@) == rview(old(v)@) + xid_continue_block_1(),
{
    let ghost o = rview(v@);
    push_xid_continue_chunk_10(v);
    assert(rview(v@) =~= o + (xid_continue_chunk_10()));
    push_xid_continue_chunk_11(v);
    assert(rview(v@) =~= o + (xid_continue_chunk_10() + xid_continue_chunk_11()));
    push_xid_continue_chunk_12(v);
    assert(rview(v@) =~= o + (xid_continue_chunk_10() + xid_continue_chunk_11() + xid_continue_chunk_12()));
    push_xid_continue_chunk_13(v);
    assert(rview(v@) =~= o + (xid_continue_chunk_10() + xid_continue_chunk_11() + xid_continue_chunk_12() + xid_continue_chunk_13()));
    push_xid_continue_chunk_14(v);
    assert(rview(v@) =~= o + (xid_continue_chunk_10() + xid_continue_chunk_11() + xid_continue_chunk_12() + xid_continue_chunk_13() + xid_continue_chunk_14()));
    push_xid_continue_chunk_15(v);
    assert(rview(v@) =~= o + (xid_continue_chunk_10() + xid_continue_chunk_11() + xid_continue_chunk_12() + xid_continue_chunk_13() + xid_continue_chunk_14() + xid_continue_chunk_15()));
    push_xid_continue_chunk_16(v);
    assert(rview(v@) =~= o + (xid_continue_chunk_10() + xid_continue_chunk_11() + xid_continue_chunk_12() + xid_continue_chunk_13() + xid_continue_chunk_14() + xid_continue_chunk_15() + xid_continue_chunk_16()));
    push_xid_continue_chunk_17(v);
    assert(rview(v@) =~= o + (xid_continue_chunk_10() + xid_continue_chunk_11() + xid_continue_chunk_12() + xid_continue_chunk_13() + xid_continue_chunk_14() + xid_continue_chunk_15() + xid_continue_chunk_16() + xid_continue_chunk_17()));
    push_xid_continue_chunk_18(v);
    assert(rview(v@) =~= o + (xid_continue_chunk_10() + xid_continue_chunk_11() + xid_continue_chunk_12() + xid_continue_chunk_13() + xid_continue_chunk_14() + xid_continue_chunk_15() + xid_continue_chunk_16() + xid_continue_chunk_17() + xid_continue_chunk_18()));
    push_xid_continue_chunk_19(v);
    assert(rview(v@) =~= o + (xid_continue_chunk_10() + xid_continue_chunk_11() + xid_continue_chunk_12() + xid_continue_chunk_13() + xid_continue_chunk_14() + xid_continue_chunk_15() + xid_continue_chunk_16() + xid_continue_chunk_17() + xid_continue_chunk_18() + xid_continue_chunk_19()));
}

fn push_xid_continue_block_2(v: &mut Vec<ClassUnicodeRange>)
    ensures
        rview(final(v)@) == rview(old(v)@) + xid_continue_block_2(),
{
    let ghost o = rview(v@);
    push_xid_continue_chunk_20(v);
    assert(rview(v@) =~= o + (xid_continue_chunk_20()));
    push_xid_continue_chunk_21(v);
    assert(rview(v@) =~= o + (xid_continue_chunk_20() + xid_continue_chunk_21()));
    push_xid_continue_chunk_22(v);
    assert(rview(v@) =~= o + (xid_continue_chunk_20() + xid_continue_chunk_21() + xid_continue_chunk_22()));
    push_xid_continue_chunk_23(v);
    assert(rview(v@) =~= o + (xid_continue_chunk_20() + xid_continue_chunk_21() + xid_continue_chunk_22() + xid_continue_chunk_23()));
    push_xid_continue_chunk_24(v);
    assert(rview(v@) =~= o + (xid_continue_chunk_20() + xid_continue_chunk_21() + xid_continue_chunk_22() + xid_continue_chunk_23() + xid_continue_chunk_24()));
    push_xid_continue_chunk_25(v);
    assert(rview(v@) =~= o + (xid_continue_chunk_20() + xid_continue_chunk_21() + xid_continue_chunk_22() + xid_continue_chunk_23() + xid_continue_chunk_24() + xid_continue_chunk_25()));
    push_xid_continue_chunk_26(v);
    assert(rview(v@) =~= o + (xid_continue_chunk_20() + xid_continue_chunk_21() + xid_continue_chunk_22() + xid_continue_chunk_23() + xid_continue_chunk_24() + xid_continue_chunk_25() + xid_continue_chunk_26()));
    push_xid_continue_chunk_27(v);
    assert(rview(v@) =~= o + (xid_continue_chunk_20() + xid_continue_chunk_21() + xid_continue_chunk_22() + xid_continue_chunk_23() + xid_continue_chunk_24() + xid_continue_chunk_25() + xid_continue_chunk_26() + xid_continue_chunk_27()));
    push_xid_continue_chunk_28(v);
    assert(rview(v@) =~= o + (xid_continue_chunk_20() + xid_continue_chunk_21() + xid_continue_chunk_22() + xid_continue_chunk_23() + xid_continue_chunk_24() + xid_continue_chunk_25() + xid_continue_chunk_26() + xid_continue_chunk_27() + xid_continue_chunk_28()));
    push_xid_continue_chunk_29(v);
    assert(rview(v@) =~= o + (xid_continue_chunk_20() + xid_continue_chunk_21() + xid_continue_chunk_22() + xid_continue_chunk_23() + xid_continue_chunk_24() + xid_continue_chunk_25() + xid_continue_chunk_26() + xid_continue_chunk_27() + xid_continue_chunk_28() + xid_continue_chunk_29()));
}

fn push_xid_continue_block_3(v: &mut Vec<ClassUnicodeRange>)
    ensures
        rview(final(v)@) == rview(old(v)@) + xid_continue_block_3(),
{
    let ghost o = rview(v@);
    push_xid_continue_chunk_30(v);
    assert(rview(v@) =~= o + (xid_continue_chunk_30()));
    push_xid_continue_chunk_31(v);
    assert(rview(v@) =~= o + (xid_continue_chunk_30() + xid_continue_chunk_31()));
    push_xid_continue_chunk_32(v);
    assert(rview(v@) =~= o + (xid_continue_chunk_30() + xid_continue_chunk_31() + xid_continue_chunk_32()));
    push_xid_continue_chunk_33(v);
    assert(rview(v@) =~= o + (xid_continue_chunk_30() + xid_continue_chunk_31() + xid_continue_chunk_32() + xid_continue_chunk_33()));
    push_xid_continue_chunk_34(v);
    assert(rview(v@) =~= o + (xid_continue_chunk_30() + xid_continue_chunk_31() + xid_continue_chunk_32() + xid_continue_chunk_33() + xid_continue_chunk_34()));
    push_xid_continue_chunk_35(v);
    assert(rview(v@) =~= o + (xid_continue_chunk_30() + xid_continue_chunk_31() + xid_continue_chunk_32() + xid_continue_chunk_33() + xid_continue_chunk_34() + xid_continue_chunk_35()));
    push_xid_continue_chunk_36(v);
    assert(rview(v@) =~= o + (xid_continue_chunk_30() + xid_continue_chunk_31() + xid_continue_chunk_32() + xid_continue_chunk_33() + xid_continue_chunk_34() + xid_continue_chunk_35() + xid_continue_chunk_36()));
    push_xid_continue_chunk_37(v);
    assert(rview(v@) =~= o + (xid_continue_chunk_30() + xid_continue_chunk_31() + xid_continue_chunk_32() + xid_continue_chunk_33() + xid_continue_chunk_34() + xid_continue_chunk_35() + xid_continue_chunk_36() + xid_continue_chunk_37()));
    push_xid_continue_chunk_38(v);
    assert(rview(v@) =~= o + (xid_continue_chunk_30() + xid_continue_chunk_31() + xid_continue_chunk_32() + xid_continue_chunk_33() + xid_continue_chunk_34() + xid_continue_chunk_35() + xid_continue_chunk_36() + xid_continue_chunk_37() + xid_continue_chunk_38()));
    push_xid_continue_chunk_39(v);
    assert(rview(v@) =~= o + (xid_continue_chunk_30() + xid_continue_chunk_31() + xid_continue_chunk_32() + xid_continue_chunk_33() + xid_continue_chunk_34() + xid_continue_chunk_35() + xid_continue_chunk_36() + xid_continue_chunk_37() + xid_continue_chunk_38() + xid_continue_chunk_39()));
}

fn push_xid_continue_block_4(v: &mut Vec<ClassUnicodeRange>)
    ensures
        rview(final(v)@) == rview(old(v)@) + xid_continue_block_4(),
{
    let ghost o = rview(v@);
    push_xid_continue_chunk_40(v);
    assert(rview(v@) =~= o + (xid_continue_chunk_40()));
    push_xid_continue_chunk_41(v);
    assert(rview(v@) =~= o + (xid_continue_chunk_40() + xid_continue_chunk_41()));
    push_xid_continue_chunk_42(v);
    assert(rview(v@) =~= o + (xid_continue_chunk_40() + xid_continue_chunk_41() + xid_continue_chunk_42()));
    push_xid_continue_chunk_43(v);
    assert(rview(v@) =~= o + (xid_continue_chunk_40() + xid_continue_chunk_41() + xid_continue_chunk_42() + xid_continue_chunk_43()));
    push_xid_continue_chunk_44(v);
    assert(rview(v@) =~= o + (xid_continue_chunk_40() + xid_continue_chunk_41() + xid_continue_chunk_42() + xid_continue_chunk_43() + xid_continue_chunk_44()));
    push_xid_continue_chunk_45(v);
    assert(rview(v@) =~= o + (xid_continue_chunk_40() + xid_continue_chunk_41() + xid_continue_chunk_42() + xid_continue_chunk_43() + xid_continue_chunk_44() + xid_continue_chunk_45()));
    push_xid_continue_chunk_46(v);
    assert(rview(v@) =~= o + (xid_continue_chunk_40() + xid_continue_chunk_41() + xid_continue_chunk_42() + xid_continue_chunk_43() + xid_continue_chunk_44() + xid_continue_chunk_45() + xid_continue_chunk_46()));
    push_xid_continue_chunk_47(v);
    assert(rview(v@) =~= o + (xid_continue_chunk_40() + xid_continue_chunk_41() + xid_continue_chunk_42() + xid_continue_chunk_43() + xid_continue_chunk_44() + xid_continue_chunk_45() + xid_continue_chunk_46() + xid_continue_chunk_47()));
    push_xid_continue_chunk_48(v);
    assert(rview(v@) =~= o + (xid_continue_chunk_40() + xid_continue_chunk_41() + xid_continue_chunk_42() + xid_continue_chunk_43() + xid_continue_chunk_44() + xid_continue_chunk_45() + xid_continue_chunk_46() + xid_continue_chunk_47() + xid_continue_chunk_48()));
    push_xid_continue_chunk_49(v);
    assert(rview(v@) =~= o + (xid_continue_chunk_40() + xid_continue_chunk_41() + xid_continue_chunk_42() + xid_continue_chunk_43() + xid_continue_chunk_44() + xid_continue_chunk_45() + xid_continue_chunk_46() + xid_continue_chunk_47() + xid_continue_chunk_48() + xid_continue_chunk_49()));
}

fn push_xid_continue_block_5(v: &mut Vec<ClassUnicodeRange>)
    ensures
        rview(final(v)@) == rview(old(v)@) + xid_continue_block_5(),
{
    let ghost o = rview(v@);
    push_xid_continue_chunk_50(v);
    assert(rview(v@) =~= o + (xid_continue_chunk_50()));
    push_xid_continue_chunk_51(v);
    assert(rview(v@) =~= o + (xid_continue_chunk_50() + xid_continue_chunk_51()));
    push_xid_continue_chunk_52(v);
    assert(rview(v@) =~= o + (xid_continue_chunk_50() + xid_continue_chunk_51() + xid_continue_chunk_52()));
    push_xid_continue_chunk_53(v);
    assert(rview(v@) =~= o + (xid_continue_chunk_50() + xid_continue_chunk_51() + xid_continue_chunk_52() + xid_continue_chunk_53()));
    push_xid_continue_chunk_54(v);
    assert(rview(v@) =~= o + (xid_continue_chunk_50() + xid_continue_chunk_51() + xid_continue_chunk_52() + xid_continue_chunk_53() + xid_continue_chunk_54()));
    push_xid_continue_chunk_55(v);
    assert(rview(v@) =~= o + (xid_continue_chunk_50() + xid_continue_chunk_51() + xid_continue_chunk_52() + xid_continue_chunk_53() + xid_continue_chunk_54() + xid_continue_chunk_55()));
    push_xid_continue_chunk_56(v);
    assert(rview(v@) =~= o + (xid_continue_chunk_50() + xid_continue_chunk_51() + xid_continue_chunk_52() + xid_continue_chunk_53() + xid_continue_chunk_54() + xid_continue_chunk_55() + xid_continue_chunk_56()));
    push_xid_continue_chunk_57(v);
    assert(rview(v@) =~= o + (xid_continue_chunk_50() + xid_continue_chunk_51() + xid_continue_chunk_52() + xid_continue_chunk_53() + xid_continue_chunk_54() + xid_continue_chunk_55() + xid_continue_chunk_56() + xid_continue_chunk_57()));
    push_xid_continue_chunk_58(v);
    assert(rview(v@) =~= o + (xid_continue_chunk_50() + xid_continue_chunk_51() + xid_continue_chunk_52() + xid_continue_chunk_53() + xid_continue_chunk_54() + xid_continue_chunk_55() + xid_continue_chunk_56() + xid_continue_chunk_57() + xid_continue_chunk_58()));
    push_xid_continue_chunk_59(v);
    assert(rview(v@) =~= o + (xid_continue_chunk_50() + xid_continue_chunk_51() + xid_continue_chunk_52() + xid_continue_chunk_53() + xid_continue_chunk_54() + xid_continue_chunk_55() + xid_continue_chunk_56() + xid_continue_chunk_57() + xid_continue_chunk_58() + xid_continue_chunk_59()));
}

fn push_xid_continue_block_6(v: &mut Vec<ClassUnicodeRange>)
    ensures
        rview(final(v)@) == rview(old(v)@) + xid_continue_block_6(),
{
    let ghost o = rview(v@);
    push_xid_continue_chunk_60(v);
    assert(rview(v@) =~= o + (xid_continue_chunk_60()));
    push_xid_continue_chunk_61(v);
    assert(rview(v@) =~= o + (xid_continue_chunk_60() + xid_continue_chunk_61()));
    push_xid_continue_chunk_62(v);
    assert(rview(v@) =~= o + (xid_continue_chunk_60() + xid_continue_chunk_61() + xid_continue_chunk_62()));
    push_xid_continue_chunk_63(v);
    assert(rview(v@) =~= o + (xid_continue_chunk_60() + xid_continue_chunk_61() + xid_continue_chunk_62() + xid_continue_chunk_63()));
    push_xid_continue_chunk_64(v);
    assert(rview(v@) =~= o + (xid_continue_chunk_60() + xid_continue_chunk_61() + xid_continue_chunk_62() + xid_continue_chunk_63() + xid_continue_chunk_64()));
    push_xid_continue_chunk_65(v);
    assert(rview(v@) =~= o + (xid_continue_chunk_60() + xid_continue_chunk_61() + xid_continue_chunk_62() + xid_continue_chunk_63() + xid_continue_chunk_64() + xid_continue_chunk_65()));
    push_xid_continue_chunk_66(v);
    assert(rview(v@) =~= o + (xid_continue_chunk_60() + xid_continue_chunk_61() + xid_continue_chunk_62() + xid_continue_chunk_63() + xid_continue_chunk_64() + xid_continue_chunk_65() + xid_continue_chunk_66()));
    push_xid_continue_chunk_67(v);
    assert(rview(v@) =~= o + (xid_continue_chunk_60() + xid_continue_chunk_61() + xid_continue_chunk_62() + xid_continue_chunk_63() + xid_continue_chunk_64() + xid_continue_chunk_65() + xid_continue_chunk_66() + xid_continue_chunk_67()));
    push_xid_continue_chunk_68(v);
    assert(rview(v@) =~= o + (xid_continue_chunk_60() + xid_continue_chunk_61() + xid_continue_chunk_62() + xid_continue_chunk_63() + xid_continue_chunk_64() + xid_continue_chunk_65() + xid_continue_chunk_66() + xid_continue_chunk_67() + xid_continue_chunk_68()));
    push_xid_continue_chunk_69(v);
    assert(rview(v@) =~= o + (xid_continue_chunk_60() + xid_continue_chunk_61() + xid_continue_chunk_62() + xid_continue_chunk_63() + xid_continue_chunk_64() + xid_continue_chunk_65() + xid_continue_chunk_66() + xid_continue_chunk_67() + xid_continue_chunk_68() + xid_continue_chunk_69()));
}

fn push_xid_continue_block_7(v: &mut Vec<ClassUnicodeRange>)
    ensures
        rview(final(v)@) == rview(old(v)@) + xid_continue_block_7(),
{
    let ghost o = rview(v@);
    push_xid_continue_chunk_70(v);
    assert(rview(v@) =~= o + (xid_continue_chunk_70()));
    push_xid_continue_chunk_71(v);
    assert(rview(v@) =~= o + (xid_continue_chunk_70() + xid_continue_chunk_71()));
    push_xid_continue_chunk_72(v);
    assert(rview(v@) =~= o + (xid_continue_chunk_70() + xid_continue_chunk_71() + xid_continue_chunk_72()));
    push_xid_continue_chunk_73(v);
    assert(rview(v@) =~= o + (xid_continue_chunk_70() + xid_continue_chunk_71() + xid_continue_chunk_72() + xid_continue_chunk_73()));
    push_xid_continue_chunk_74(v);
    assert(rview(v@) =~= o + (xid_continue_chunk_70() + xid_continue_chunk_71() + xid_continue_chunk_72() + xid_continue_chunk_73() + xid_continue_chunk_74()));
    push_xid_continue_chunk_75(v);
    assert(rview(v@) =~= o + (xid_continue_chunk_70() + xid_continue_chunk_71() + xid_continue_chunk_72() + xid_continue_chunk_73() + xid_continue_chunk_74() + xid_continue_chunk_75()));
    push_xid_continue_chunk_76(v);
    assert(rview(v@) =~= o + (xid_continue_chunk_70() + xid_continue_chunk_71() + xid_continue_chunk_72() + xid_continue_chunk_73() + xid_continue_chunk_74() + xid_continue_chunk_75() + xid_continue_chunk_76()));
    push_xid_continue_chunk_77(v);
    assert(rview(v@) =~= o + (xid_continue_chunk_70() + xid_continue_chunk_71() + xid_continue_chunk_72() + xid_continue_chunk_73() + xid_continue_chunk_74() + xid_continue_chunk_75() + xid_continue_chunk_76() + xid_continue_chunk_77()));
    push_xid_continue_chunk_78(v);
    assert(rview(v@) =~= o + (xid_continue_chunk_70() + xid_continue_chunk_71() + xid_continue_chunk_72() + xid_continue_chunk_73() + xid_continue_chunk_74() + xid_continue_chunk_75() + xid_continue_chunk_76() + xid_continue_chunk_77() + xid_continue_chunk_78()));
    push_xid_continue_chunk_79(v);
    assert(rview(v@) =~= o + (xid_continue_chunk_70() + xid_continue_chunk_71() + xid_continue_chunk_72() + xid_continue_chunk_73() + xid_continue_chunk_74() + xid_continue_chunk_75() + xid_continue_chunk_76() + xid_continue_chunk_77() + xid_continue_chunk_78() + xid_continue_chunk_79()));
}

fn push_xid_continue_block_8(v: &mut Vec<ClassUnicodeRange>)
    ensures
        rview(final(v)@) == rview(old(v)@) + xid_continue_block_8(),
{
    let ghost o = rview(v@);
    push_xid_continue_chunk_80(v);
    assert(rview(v@) =~= o + (xid_continue_chunk_80()));
    push_xid_continue_chunk_81(v);
    assert(rview(v@) =~= o + (xid_continue_chunk_80() + xid_continue_chunk_81()));
    push_xid_continue_chunk_82(v);
    assert(rview(v@) =~= o + (xid_continue_chunk_80() + xid_continue_chunk_81() + xid_continue_chunk_82()));
    push_xid_continue_chunk_83(v);
    assert(rview(v@) =~= o + (xid_continue_chunk_80() + xid_continue_chunk_81() + xid_continue_chunk_82() + xid_continue_chunk_83()));
    push_xid_continue_chunk_84(v);
    assert(rview(v@) =~= o + (xid_continue_chunk_80() + xid_continue_chunk_81() + xid_continue_chunk_82() + xid_continue_chunk_83() + xid_continue_chunk_84()));
    push_xid_continue_chunk_85(v);
    assert(rview(v@) =~= o + (xid_continue_chunk_80() + xid_continue_chunk_81() + xid_continue_chunk_82() + xid_continue_chunk_83() + xid_continue_chunk_84() + xid_continue_chunk_85()));
    push_xid_continue_chunk_86(v);
    assert(rview(v@) =~= o + (xid_continue_chunk_80() + xid_continue_chunk_81() + xid_continue_chunk_82() + xid_continue_chunk_83() + xid_continue_chunk_84() + xid_continue_chunk_85() + xid_continue_chunk_86()));
    push_xid_continue_chunk_87(v);
    assert(rview(v@) =~= o + (xid_continue_chunk_80() + xid_continue_chunk_81() + xid_continue_chunk_82() + xid_continue_chunk_83() + xid_continue_chunk_84() + xid_continue_chunk_85() + xid_continue_chunk_86() + xid_continue_chunk_87()));
    push_xid_continue_chunk_88(v);
    assert(rview(v@) =~= o + (xid_continue_chunk_80() + xid_continue_chunk_81() + xid_continue_chunk_82() + xid_continue_chunk_83() + xid_continue_chunk_84() + xid_continue_chunk_85() + xid_continue_chunk_86() + xid_continue_chunk_87() + xid_continue_chunk_88()));
    push_xid_continue_chunk_89(v);
    assert(rview(v@) =~= o + (xid_continue_chunk_80() + xid_continue_chunk_81() + xid_continue_chunk_82() + xid_continue_chunk_83() + xid_continue_chunk_84() + xid_continue_chunk_85() + xid_continue_chunk_86() + xid_continue_chunk_87() + xid_continue_chunk_88() + xid_continue_chunk_89()));
}

fn push_xid_continue_block_9(v: &mut Vec<ClassUnicodeRange>)
    ensures
        rview(final(v)@) == rview(old(v)@) + xid_continue_block_9(),
{
    let ghost o = rview(v@);
    push_xid_continue_chunk_90(v);
    assert(rview(v@) =~= o + (xid_continue_chunk_90()));
    push_xid_continue_chunk_91(v);
    assert(rview(v@) =~= o + (xid_continue_chunk_90() + xid_continue_chunk_91()));
    push_xid_continue_chunk_92(v);
    assert(rview(v@) =~= o + (xid_continue_chunk_90() + xid_continue_chunk_91() + xid_continue_chunk_92()));
    push_xid_continue_chunk_93(v);
    assert(rview(v@) =~= o + (xid_continue_chunk_90() + xid_continue_chunk_91() + xid_continue_chunk_92() + xid_continue_chunk_93()));
    push_xid_continue_chunk_94(v);
    assert(rview(v@) =~= o + (xid_continue_chunk_90() + xid_continue_chunk_91() + xid_continue_chunk_92() + xid_continue_chunk_93() + xid_continue_chunk_94()));
    push_xid_continue_chunk_95(v);
    assert(rview(v@) =~= o + (xid_continue_chunk_90() + xid_continue_chunk_91() + xid_continue_chunk_92() + xid_continue_chunk_93() + xid_continue_chunk_94() + xid_continue_chunk_95()));
    push_xid_continue_chunk_96(v);
    assert(rview(v@) =~= o + (xid_continue_chunk_90() + xid_continue_chunk_91() + xid_continue_chunk_92() + xid_continue_chunk_93() + xid_continue_chunk_94() + xid_continue_chunk_95() + xid_continue_chunk_96()));
    push_xid_continue_chunk_97(v);
    assert(rview(v@) =~= o + (xid_continue_chunk_90() + xid_continue_chunk_91() + xid_continue_chunk_92() + xid_continue_chunk_93() + xid_continue_chunk_94() + xid_continue_chunk_95() + xid_continue_chunk_96() + xid_continue_chunk_97()));
    push_xid_continue_chunk_98(v);
    assert(rview(v@) =~= o + (xid_continue_chunk_90() + xid_continue_chunk_91() + xid_continue_chunk_92() + xid_continue_chunk_93() + xid_continue_chunk_94() + xid_continue_chunk_95() + xid_continue_chunk_96() + xid_continue_chunk_97() + xid_continue_chunk_98()));
    push_xid_continue_chunk_99(v);
    assert(rview(v@) =~= o + (xid_continue_chunk_90() + xid_continue_chunk_91() + xid_continue_chunk_92() + xid_continue_chunk_93() + xid_continue_chunk_94() + xid_continue_chunk_95() + xid_continue_chunk_96() + xid_continue_chunk_97() + xid_continue_chunk_98() + xid_continue_chunk_99()));
}

pub fn xid_continue_class() -> (v: Vec<ClassUnicodeRange>)
    ensures
        rview(v@) == xid_continue_ranges(),
{
    let mut v: Vec<ClassUnicodeRange> = Vec::new();
    assert(rview(v@) =~= Seq::<SRange>::empty());
    push_xid_continue_block_0(&mut v);
    assert(rview(v@) =~= xid_continue_block_0());
    push_xid_continue_block_1(&mut v);
    assert(rview(v@) =~= xid_continue_block_0() + xid_continue_block_1());
    push_xid_continue_block_2(&mut v);
    assert(rview(v@) =~= xid_continue_block_0() + xid_continue_block_1() + xid_continue_block_2());
    push_xid_continue_block_3(&mut v);
    assert(rview(v@) =~= xid_continue_block_0() + xid_continue_block_1() + xid_continue_block_2() + xid_continue_block_3());
    push_xid_continue_block_4(&mut v);
    assert(rview(v@) =~= xid_continue_block_0() + xid_continue_block_1() + xid_continue_block_2() + xid_continue_block_3() + xid_continue_block_4());
    push_xid_continue_block_5(&mut v);
    assert(rview(v@) =~= xid_continue_block_0() + xid_continue_block_1() + xid_continue_block_2() + xid_continue_block_3() + xid_continue_block_4() + xid_continue_block_5());
    push_xid_continue_block_6(&mut v);
    assert(rview(v@) =~= xid_continue_block_0() + xid_continue_block_1() + xid_continue_block_2() + xid_continue_block_3() + xid_continue_block_4() + xid_continue_block_5() + xid_continue_block_6());
    push_xid_continue_block_7(&mut v);
    assert(rview(v@) =~= xid_continue_block_0() + xid_continue_block_1() + xid_continue_block_2() + xid_continue_block_3() + xid_continue_block_4() + xid_continue_block_5() + xid_continue_block_6() + xid_continue_block_7());
    push_xid_continue_block_8(&mut v);
    assert(rview(v@) =~= xid_continue_block_0() + xid_continue_block_1() + xid_continue_block_2() + xid_continue_block_3() + xid_continue_block_4() + xid_continue_block_5() + xid_continue_block_6() + xid_continue_block_7() + xid_continue_block_8());
    push_xid_continue_block_9(&mut v);
    assert(rview(v@) =~= xid_continue_block_0() + xid_continue_block_1() + xid_continue_block_2() + xid_continue_block_3() + xid_continue_block_4() + xid_continue_block_5() + xid_continue_block_6() + xid_continue_block_7() + xid_continue_block_8() + xid_continue_block_9());
    v
}

pub open spec fn xid_start_chunk_0() -> Seq<SRange> {
    seq![(0x41int, 0x5Aint), (0x61int, 0x7Aint), (0xAAint, 0xAAint), (0xB5int, 0xB5int), (0xBAint, 0xBAint), (0xC0int, 0xD6int), (0xD8int, 0xF6int), (0xF8int, 0x2C1int)]
}

pub open spec fn xid_start_chunk_1() -> Seq<SRange> {
    seq![(0x2C6int, 0x2D1int), (0x2E0int, 0x2E4int), (0x2ECint, 0x2ECint), (0x2EEint, 0x2EEint), (0x370int, 0x374int), (0x376int, 0x377int), (0x37Bint, 0x37Dint), (0x37Fint, 0x37Fint)]
}

pub open spec fn xid_start_chunk_2() -> Seq<SRange> {
    seq![(0x386int, 0x386int), (0x388int, 0x38Aint), (0x38Cint, 0x38Cint), (0x38Eint, 0x3A1int), (0x3A3int, 0x3F5int), (0x3F7int, 0x481int), (0x48Aint, 0x52Fint), (0x531int, 0x556int)]
}

pub open spec fn xid_start_chunk_3() -> Seq<SRange> {
    seq![(0x559int, 0x559int), (0x560int, 0x588int), (0x5D0int, 0x5EAint), (0x5EFint, 0x5F2int), (0x620int, 0x64Aint), (0x66Eint, 0x66Fint), (0x671int, 0x6D3int), (0x6D5int, 0x6D5int)]
}

pub open spec fn xid_start_chunk_4() -> Seq<SRange> {
    seq![(0x6E5int, 0x6E6int), (0x6EEint, 0x6EFint), (0x6FAint, 0x6FCint), (0x6FFint, 0x6FFint), (0x710int, 0x710int), (0x712int, 0x72Fint), (0x74Dint, 0x7A5int), (0x7B1int, 0x7B1int)]
}

pub open spec fn xid_start_chunk_5() -> Seq<SRange> {
    seq![(0x7CAint, 0x7EAint), (0x7F4int, 0x7F5int), (0x7FAint, 0x7FAint), (0x800int, 0x815int), (0x81Aint, 0x81Aint), (0x824int, 0x824int), (0x828int, 0x828int), (0x840int, 0x858int)]
}

pub open spec fn xid_start_chunk_6() -> Seq<SRange> {
    seq![(0x860int, 0x86Aint), (0x870int, 0x887int), (0x889int, 0x88Eint), (0x8A0int, 0x8C9int), (0x904int, 0x939int), (0x93Dint, 0x93Dint), (0x950int, 0x950int), (0x958int, 0x961int)]
}

pub open spec fn xid_start_chunk_7() -> Seq<SRange> {
    seq![(0x971int, 0x980int), (0x985int, 0x98Cint), (0x98Fint, 0x990int), (0x993int, 0x9A8int), (0x9AAint, 0x9B0int), (0x9B2int, 0x9B2int), (0x9B6int, 0x9B9int), (0x9BDint, 0x9BDint)]
}

pub open spec fn xid_start_chunk_8() -> Seq<SRange> {
    seq![(0x9CEint, 0x9CEint), (0x9DCint, 0x9DDint), (0x9DFint, 0x9E1int), (0x9F0int, 0x9F1int), (0x9FCint, 0x9FCint), (0xA05int, 0xA0Aint), (0xA0Fint, 0xA10int), (0xA13int, 0xA28int)]
}

pub open spec fn xid_start_chunk_9() -> Seq<SRange> {
    seq![(0xA2Aint, 0xA30int), (0xA32int, 0xA33int), (0xA35int, 0xA36int), (0xA38int, 0xA39int), (0xA59int, 0xA5Cint), (0xA5Eint, 0xA5Eint), (0xA72int, 0xA74int), (0xA85int, 0xA8Dint)]
}

pub open spec fn xid_start_chunk_10() -> Seq<SRange> {
    seq![(0xA8Fint, 0xA91int), (0xA93int, 0xAA8int), (0xAAAint, 0xAB0int), (0xAB2int, 0xAB3int), (0xAB5int, 0xAB9int), (0xABDint, 0xABDint), (0xAD0int, 0xAD0int), (0xAE0int, 0xAE1int)]
}

pub open spec fn xid_start_chunk_11() -> Seq<SRange> {
    seq![(0xAF9int, 0xAF9int), (0xB05int, 0xB0Cint), (0xB0Fint, 0xB10int), (0xB13int, 0xB28int), (0xB2Aint, 0xB30int), (0xB32int, 0xB33int), (0xB35int, 0xB39int), (0xB3Dint, 0xB3Dint)]
}

pub open spec fn xid_start_chunk_12() -> Seq<SRange> {
    seq![(0xB5Cint, 0xB5Dint), (0xB5Fint, 0xB61int), (0xB71int, 0xB71int), (0xB83int, 0xB83int), (0xB85int, 0xB8Aint), (0xB8Eint, 0xB90int), (0xB92int, 0xB95int), (0xB99int, 0xB9Aint)]
}

pub open spec fn xid_start_chunk_13() -> Seq<SRange> {
    seq![(0xB9Cint, 0xB9Cint), (0xB9Eint, 0xB9Fint), (0xBA3int, 0xBA4int), (0xBA8int, 0xBAAint), (0xBAEint, 0xBB9int), (0xBD0int, 0xBD0int), (0xC05int, 0xC0Cint), (0xC0Eint, 0xC10int)]
}

pub open spec fn xid_start_chunk_14() -> Seq<SRange> {
    seq![(0xC12int, 0xC28int), (0xC2Aint, 0xC39int), (0xC3Dint, 0xC3Dint), (0xC58int, 0xC5Aint), (0xC5Dint, 0xC5Dint), (0xC60int, 0xC61int), (0xC80int, 0xC80int), (0xC85int, 0xC8Cint)]
}

pub open spec fn xid_start_chunk_15() -> Seq<SRange> {
    seq![(0xC8Eint, 0xC90int), (0xC92int, 0xCA8int), (0xCAAint, 0xCB3int), (0xCB5int, 0xCB9int), (0xCBDint, 0xCBDint), (0xCDDint, 0xCDEint), (0xCE0int, 0xCE1int), (0xCF1int, 0xCF2int)]
}

pub open spec fn xid_start_chunk_16() -> Seq<SRange> {
    seq![(0xD04int, 0xD0Cint), (0xD0Eint, 0xD10int), (0xD12int, 0xD3Aint), (0xD3Dint, 0xD3Dint), (0xD4Eint, 0xD4Eint), (0xD54int, 0xD56int), (0xD5Fint, 0xD61int), (0xD7Aint, 0xD7Fint)]
}

pub open spec fn xid_start_chunk_17() -> Seq<SRange> {
    seq![(0xD85int, 0xD96int), (0xD9Aint, 0xDB1int), (0xDB3int, 0xDBBint), (0xDBDint, 0xDBDint), (0xDC0int, 0xDC6int), (0xE01int, 0xE30int), (0xE32int, 0xE32int), (0xE40int, 0xE46int)]
}

pub open spec fn xid_start_chunk_18() -> Seq<SRange> {
    seq![(0xE81int, 0xE82int), (0xE84int, 0xE84int), (0xE86int, 0xE8Aint), (0xE8Cint, 0xEA3int), (0xEA5int, 0xEA5int), (0xEA7int, 0xEB0int), (0xEB2int, 0xEB2int), (0xEBDint, 0xEBDint)]
}

pub open spec fn xid_start_chunk_19() -> Seq<SRange> {
    seq![(0xEC0int, 0xEC4int), (0xEC6int, 0xEC6int), (0xEDCint, 0xEDFint), (0xF00int, 0xF00int), (0xF40int, 0xF47int), (0xF49int, 0xF6Cint), (0xF88int, 0xF8Cint), (0x1000int, 0x102Aint)]
}

pub open spec fn xid_start_chunk_20() -> Seq<SRange> {
    seq![(0x103Fint, 0x103Fint), (0x1050int, 0x1055int), (0x105Aint, 0x105Dint), (0x1061int, 0x1061int), (0x1065int, 0x1066int), (0x106Eint, 0x1070int), (0x1075int, 0x1081int), (0x108Eint, 0x108Eint)]
}

pub open spec fn xid_start_chunk_21() -> Seq<SRange> {
    seq![(0x10A0int, 0x10C5int), (0x10C7int, 0x10C7int), (0x10CDint, 0x10CDint), (0x10D0int, 0x10FAint), (0x10FCint, 0x1248int), (0x124Aint, 0x124Dint), (0x1250int, 0x1256int), (0x1258int, 0x1258int)]
}

pub open spec fn xid_start_chunk_22() -> Seq<SRange> {
    seq![(0x125Aint, 0x125Dint), (0x1260int, 0x1288int), (0x128Aint, 0x128Dint), (0x1290int, 0x12B0int), (0x12B2int, 0x12B5int), (0x12B8int, 0x12BEint), (0x12C0int, 0x12C0int), (0x12C2int, 0x12C5int)]
}

pub open spec fn xid_start_chunk_23() -> Seq<SRange> {
    seq![(0x12C8int, 0x12D6int), (0x12D8int, 0x1310int), (0x1312int, 0x1315int), (0x1318int, 0x135Aint), (0x1380int, 0x138Fint), (0x13A0int, 0x13F5int), (0x13F8int, 0x13FDint), (0x1401int, 0x166Cint)]
}

pub open spec fn xid_start_chunk_24() -> Seq<SRange> {
    seq![(0x166Fint, 0x167Fint), (0x1681int, 0x169Aint), (0x16A0int, 0x16EAint), (0x16EEint, 0x16F8int), (0x1700int, 0x1711int), (0x171Fint, 0x1731int), (0x1740int, 0x1751int), (0x1760int, 0x176Cint)]
}

pub open spec fn xid_start_chunk_25() -> Seq<SRange> {
    seq![(0x176Eint, 0x1770int), (0x1780int, 0x17B3int), (0x17D7int, 0x17D7int), (0x17DCint, 0x17DCint), (0x1820int, 0x1878int), (0x1880int, 0x18A8int), (0x18AAint, 0x18AAint), (0x18B0int, 0x18F5int)]
}

pub open spec fn xid_start_chunk_26() -> Seq<SRange> {
    seq![(0x1900int, 0x191Eint), (0x1950int, 0x196Dint), (0x1970int, 0x1974int), (0x1980int, 0x19ABint), (0x19B0int, 0x19C9int), (0x1A00int, 0x1A16int), (0x1A20int, 0x1A54int), (0x1AA7int, 0x1AA7int)]
}

pub open spec fn xid_start_chunk_27() -> Seq<SRange> {
    seq![(0x1B05int, 0x1B33int), (0x1B45int, 0x1B4Cint), (0x1B83int, 0x1BA0int), (0x1BAEint, 0x1BAFint), (0x1BBAint, 0x1BE5int), (0x1C00int, 0x1C23int), (0x1C4Dint, 0x1C4Fint), (0x1C5Aint, 0x1C7Dint)]
}

pub open spec fn xid_start_chunk_28() -> Seq<SRange> {
    seq![(0x1C80int, 0x1C8Aint), (0x1C90int, 0x1CBAint), (0x1CBDint, 0x1CBFint), (0x1CE9int, 0x1CECint), (0x1CEEint, 0x1CF3int), (0x1CF5int, 0x1CF6int), (0x1CFAint, 0x1CFAint), (0x1D00int, 0x1DBFint)]
}

pub open spec fn xid_start_chunk_29() -> Seq<SRange> {
    seq![(0x1E00int, 0x1F15int), (0x1F18int, 0x1F1Dint), (0x1F20int, 0x1F45int), (0x1F48int, 0x1F4Dint), (0x1F50int, 0x1F57int), (0x1F59int, 0x1F59int), (0x1F5Bint, 0x1F5Bint), (0x1F5Dint, 0x1F5Dint)]
}

pub open spec fn xid_start_chunk_30() -> Seq<SRange> {
    seq![(0x1F5Fint, 0x1F7Dint), (0x1F80int, 0x1FB4int), (0x1FB6int, 0x1FBCint), (0x1FBEint, 0x1FBEint), (0x1FC2int, 0x1FC4int), (0x1FC6int, 0x1FCCint), (0x1FD0int, 0x1FD3int), (0x1FD6int, 0x1FDBint)]
}

pub open spec fn xid_start_chunk_31() -> Seq<SRange> {
    seq![(0x1FE0int, 0x1FECint), (0x1FF2int, 0x1FF4int), (0x1FF6int, 0x1FFCint), (0x2071int, 0x2071int), (0x207Fint, 0x207Fint), (0x2090int, 0x209Cint), (0x2102int, 0x2102int), (0x2107int, 0x2107int)]
}

pub open spec fn xid_start_chunk_32() -> Seq<SRange> {
    seq![(0x210Aint, 0x2113int), (0x2115int, 0x2115int), (0x2118int, 0x211Dint), (0x2124int, 0x2124int), (0x2126int, 0x2126int), (0x2128int, 0x2128int), (0x212Aint, 0x2139int), (0x213Cint, 0x213Fint)]
}

pub open spec fn xid_start_chunk_33() -> Seq<SRange> {
    seq![(0x2145int, 0x2149int), (0x214Eint, 0x214Eint), (0x2160int, 0x2188int), (0x2C00int, 0x2CE4int), (0x2CEBint, 0x2CEEint), (0x2CF2int, 0x2CF3int), (0x2D00int, 0x2D25int), (0x2D27int, 0x2D27int)]
}

pub open spec fn xid_start_chunk_34() -> Seq<SRange> {
    seq![(0x2D2Dint, 0x2D2Dint), (0x2D30int, 0x2D67int), (0x2D6Fint, 0x2D6Fint), (0x2D80int, 0x2D96int), (0x2DA0int, 0x2DA6int), (0x2DA8int, 0x2DAEint), (0x2DB0int, 0x2DB6int), (0x2DB8int, 0x2DBEint)]
}

pub open spec fn xid_start_chunk_35() -> Seq<SRange> {
    seq![(0x2DC0int, 0x2DC6int), (0x2DC8int, 0x2DCEint), (0x2DD0int, 0x2DD6int), (0x2DD8int, 0x2DDEint), (0x3005int, 0x3007int), (0x3021int, 0x3029int), (0x3031int, 0x3035int), (0x3038int, 0x303Cint)]
}

pub open spec fn xid_start_chunk_36() -> Seq<SRange> {
    seq![(0x3041int, 0x3096int), (0x309Dint, 0x309Fint), (0x30A1int, 0x30FAint), (0x30FCint, 0x30FFint), (0x3105int, 0x312Fint), (0x3131int, 0x318Eint), (0x31A0int, 0x31BFint), (0x31F0int, 0x31FFint)]
}

pub open spec fn xid_start_chunk_37() -> Seq<SRange> {
    seq![(0x3400int, 0x4DBFint), (0x4E00int, 0xA48Cint), (0xA4D0int, 0xA4FDint), (0xA500int, 0xA60Cint), (0xA610int, 0xA61Fint), (0xA62Aint, 0xA62Bint), (0xA640int, 0xA66Eint), (0xA67Fint, 0xA69Dint)]
}

pub open spec fn xid_start_chunk_38() -> Seq<SRange> {
    seq![(0xA6A0int, 0xA6EFint), (0xA717int, 0xA71Fint), (0xA722int, 0xA788int), (0xA78Bint, 0xA7CDint), (0xA7D0int, 0xA7D1int), (0xA7D3int, 0xA7D3int), (0xA7D5int, 0xA7DCint), (0xA7F2int, 0xA801int)]
}

pub open spec fn xid_start_chunk_39() -> Seq<SRange> {
    seq![(0xA803int, 0xA805int), (0xA807int, 0xA80Aint), (0xA80Cint, 0xA822int), (0xA840int, 0xA873int), (0xA882int, 0xA8B3int), (0xA8F2int, 0xA8F7int), (0xA8FBint, 0xA8FBint), (0xA8FDint, 0xA8FEint)]
}

pub open spec fn xid_start_chunk_40() -> Seq<SRange> {
    seq![(0xA90Aint, 0xA925int), (0xA930int, 0xA946int), (0xA960int, 0xA97Cint), (0xA984int, 0xA9B2int), (0xA9CFint, 0xA9CFint), (0xA9E0int, 0xA9E4int), (0xA9E6int, 0xA9EFint), (0xA9FAint, 0xA9FEint)]
}

pub open spec fn xid_start_chunk_41() -> Seq<SRange> {
    seq![(0xAA00int, 0xAA28int), (0xAA40int, 0xAA42int), (0xAA44int, 0xAA4Bint), (0xAA60int, 0xAA76int), (0xAA7Aint, 0xAA7Aint), (0xAA7Eint, 0xAAAFint), (0xAAB1int, 0xAAB1int), (0xAAB5int, 0xAAB6int)]
}

pub open spec fn xid_start_chunk_42() -> Seq<SRange> {
    seq![(0xAAB9int, 0xAABDint), (0xAAC0int, 0xAAC0int), (0xAAC2int, 0xAAC2int), (0xAADBint, 0xAADDint), (0xAAE0int, 0xAAEAint), (0xAAF2int, 0xAAF4int), (0xAB01int, 0xAB06int), (0xAB09int, 0xAB0Eint)]
}

pub open spec fn xid_start_chunk_43() -> Seq<SRange> {
    seq![(0xAB11int, 0xAB16int), (0xAB20int, 0xAB26int), (0xAB28int, 0xAB2Eint), (0xAB30int, 0xAB5Aint), (0xAB5Cint, 0xAB69int), (0xAB70int, 0xABE2int), (0xAC00int, 0xD7A3int), (0xD7B0int, 0xD7C6int)]
}

pub open spec fn xid_start_chunk_44() -> Seq<SRange> {
    seq![(0xD7CBint, 0xD7FBint), (0xF900int, 0xFA6Dint), (0xFA70int, 0xFAD9int), (0xFB00int, 0xFB06int), (0xFB13int, 0xFB17int), (0xFB1Dint, 0xFB1Dint), (0xFB1Fint, 0xFB28int), (0xFB2Aint, 0xFB36int)]
}

pub open spec fn xid_start_chunk_45() -> Seq<SRange> {
    seq![(0xFB38int, 0xFB3Cint), (0xFB3Eint, 0xFB3Eint), (0xFB40int, 0xFB41int), (0xFB43int, 0xFB44int), (0xFB46int, 0xFBB1int), (0xFBD3int, 0xFC5Dint), (0xFC64int, 0xFD3Dint), (0xFD50int, 0xFD8Fint)]
}

pub open spec fn xid_start_chunk_46() -> Seq<SRange> {
    seq![(0xFD92int, 0xFDC7int), (0xFDF0int, 0xFDF9int), (0xFE71int, 0xFE71int), (0xFE73int, 0xFE73int), (0xFE77int, 0xFE77int), (0xFE79int, 0xFE79int), (0xFE7Bint, 0xFE7Bint), (0xFE7Dint, 0xFE7Dint)]
}

pub open spec fn xid_start_chunk_47() -> Seq<SRange> {
    seq![(0xFE7Fint, 0xFEFCint), (0xFF21int, 0xFF3Aint), (0xFF41int, 0xFF5Aint), (0xFF66int, 0xFF9Dint), (0xFFA0int, 0xFFBEint), (0xFFC2int, 0xFFC7int), (0xFFCAint, 0xFFCFint), (0xFFD2int, 0xFFD7int)]
}

pub open spec fn xid_start_chunk_48() -> Seq<SRange> {
    seq![(0xFFDAint, 0xFFDCint), (0x10000int, 0x1000Bint), (0x1000Dint, 0x10026int), (0x10028int, 0x1003Aint), (0x1003Cint, 0x1003Dint), (0x1003Fint, 0x1004Dint), (0x10050int, 0x1005Dint), (0x10080int, 0x100FAint)]
}

pub open spec fn xid_start_chunk_49() -> Seq<SRange> {
    seq![(0x10140int, 0x10174int), (0x10280int, 0x1029Cint), (0x102A0int, 0x102D0int), (0x10300int, 0x1031Fint), (0x1032Dint, 0x1034Aint), (0x10350int, 0x10375int), (0x10380int, 0x1039Dint), (0x103A0int, 0x103C3int)]
}

pub open spec fn xid_start_chunk_50() -> Seq<SRange> {
    seq![(0x103C8int, 0x103CFint), (0x103D1int, 0x103D5int), (0x10400int, 0x1049Dint), (0x104B0int, 0x104D3int), (0x104D8int, 0x104FBint), (0x10500int, 0x10527int), (0x10530int, 0x10563int), (0x10570int, 0x1057Aint)]
}

pub open spec fn xid_start_chunk_51() -> Seq<SRange> {
    seq![(0x1057Cint, 0x1058Aint), (0x1058Cint, 0x10592int), (0x10594int, 0x10595int), (0x10597int, 0x105A1int), (0x105A3int, 0x105B1int), (0x105B3int, 0x105B9int), (0x105BBint, 0x105BCint), (0x105C0int, 0x105F3int)]
}

pub open spec fn xid_start_chunk_52() -> Seq<SRange> {
    seq![(0x10600int, 0x10736int), (0x10740int, 0x10755int), (0x10760int, 0x10767int), (0x10780int, 0x10785int), (0x10787int, 0x107B0int), (0x107B2int, 0x107BAint), (0x10800int, 0x10805int), (0x10808int, 0x10808int)]
}

pub open spec fn xid_start_chunk_53() -> Seq<SRange> {
    seq![(0x1080Aint, 0x10835int), (0x10837int, 0x10838int), (0x1083Cint, 0x1083Cint), (0x1083Fint, 0x10855int), (0x10860int, 0x10876int), (0x10880int, 0x1089Eint), (0x108E0int, 0x108F2int), (0x108F4int, 0x108F5int)]
}

pub open spec fn xid_start_chunk_54() -> Seq<SRange> {
    seq![(0x10900int, 0x10915int), (0x10920int, 0x10939int), (0x10980int, 0x109B7int), (0x109BEint, 0x109BFint), (0x10A00int, 0x10A00int), (0x10A10int, 0x10A13int), (0x10A15int, 0x10A17int), (0x10A19int, 0x10A35int)]
}

pub open spec fn xid_start_chunk_55() -> Seq<SRange> {
    seq![(0x10A60int, 0x10A7Cint), (0x10A80int, 0x10A9Cint), (0x10AC0int, 0x10AC7int), (0x10AC9int, 0x10AE4int), (0x10B00int, 0x10B35int), (0x10B40int, 0x10B55int), (0x10B60int, 0x10B72int), (0x10B80int, 0x10B91int)]
}

pub open spec fn xid_start_chunk_56() -> Seq<SRange> {
    seq![(0x10C00int, 0x10C48int), (0x10C80int, 0x10CB2int), (0x10CC0int, 0x10CF2int), (0x10D00int, 0x10D23int), (0x10D4Aint, 0x10D65int), (0x10D6Fint, 0x10D85int), (0x10E80int, 0x10EA9int), (0x10EB0int, 0x10EB1int)]
}

pub open spec fn xid_start_chunk_57() -> Seq<SRange> {
    seq![(0x10EC2int, 0x10EC4int), (0x10F00int, 0x10F1Cint), (0x10F27int, 0x10F27int), (0x10F30int, 0x10F45int), (0x10F70int, 0x10F81int), (0x10FB0int, 0x10FC4int), (0x10FE0int, 0x10FF6int), (0x11003int, 0x11037int)]
}

pub open spec fn xid_start_chunk_58() -> Seq<SRange> {
    seq![(0x11071int, 0x11072int), (0x11075int, 0x11075int), (0x11083int, 0x110AFint), (0x110D0int, 0x110E8int), (0x11103int, 0x11126int), (0x11144int, 0x11144int), (0x11147int, 0x11147int), (0x11150int, 0x11172int)]
}

pub open spec fn xid_start_chunk_59() -> Seq<SRange> {
    seq![(0x11176int, 0x11176int), (0x11183int, 0x111B2int), (0x111C1int, 0x111C4int), (0x111DAint, 0x111DAint), (0x111DCint, 0x111DCint), (0x11200int, 0x11211int), (0x11213int, 0x1122Bint), (0x1123Fint, 0x11240int)]
}

pub open spec fn xid_start_chunk_60() -> Seq<SRange> {
    seq![(0x11280int, 0x11286int), (0x11288int, 0x11288int), (0x1128Aint, 0x1128Dint), (0x1128Fint, 0x1129Dint), (0x1129Fint, 0x112A8int), (0x112B0int, 0x112DEint), (0x11305int, 0x1130Cint), (0x1130Fint, 0x11310int)]
}

pub open spec fn xid_start_chunk_61() -> Seq<SRange> {
    seq![(0x11313int, 0x11328int), (0x1132Aint, 0x11330int), (0x11332int, 0x11333int), (0x11335int, 0x11339int), (0x1133Dint, 0x1133Dint), (0x11350int, 0x11350int), (0x1135Dint, 0x11361int), (0x11380int, 0x11389int)]
}

pub open spec fn xid_start_chunk_62() -> Seq<SRange> {
    seq![(0x1138Bint, 0x1138Bint), (0x1138Eint, 0x1138Eint), (0x11390int, 0x113B5int), (0x113B7int, 0x113B7int), (0x113D1int, 0x113D1int), (0x113D3int, 0x113D3int), (0x11400int, 0x11434int), (0x11447int, 0x1144Aint)]
}

pub open spec fn xid_start_chunk_63() -> Seq<SRange> {
    seq![(0x1145Fint, 0x11461int), (0x11480int, 0x114AFint), (0x114C4int, 0x114C5int), (0x114C7int, 0x114C7int), (0x11580int, 0x115AEint), (0x115D8int, 0x115DBint), (0x11600int, 0x1162Fint), (0x11644int, 0x11644int)]
}

pub open spec fn xid_start_chunk_64() -> Seq<SRange> {
    seq![(0x11680int, 0x116AAint), (0x116B8int, 0x116B8int), (0x11700int, 0x1171Aint), (0x11740int, 0x11746int), (0x11800int, 0x1182Bint), (0x118A0int, 0x118DFint), (0x118FFint, 0x11906int), (0x11909int, 0x11909int)]
}

pub open spec fn xid_start_chunk_65() -> Seq<SRange> {
    seq![(0x1190Cint, 0x11913int), (0x11915int, 0x11916int), (0x11918int, 0x1192Fint), (0x1193Fint, 0x1193Fint), (0x11941int, 0x11941int), (0x119A0int, 0x119A7int), (0x119AAint, 0x119D0int), (0x119E1int, 0x119E1int)]
}

pub open spec fn xid_start_chunk_66() -> Seq<SRange> {
    seq![(0x119E3int, 0x119E3int), (0x11A00int, 0x11A00int), (0x11A0Bint, 0x11A32int), (0x11A3Aint, 0x11A3Aint), (0x11A50int, 0x11A50int), (0x11A5Cint, 0x11A89int), (0x11A9Dint, 0x11A9Dint), (0x11AB0int, 0x11AF8int)]
}

pub open spec fn xid_start_chunk_67() -> Seq<SRange> {
    seq![(0x11BC0int, 0x11BE0int), (0x11C00int, 0x11C08int), (0x11C0Aint, 0x11C2Eint), (0x11C40int, 0x11C40int), (0x11C72int, 0x11C8Fint), (0x11D00int, 0x11D06int), (0x11D08int, 0x11D09int), (0x11D0Bint, 0x11D30int)]
}

pub open spec fn xid_start_chunk_68() -> Seq<SRange> {
    seq![(0x11D46int, 0x11D46int), (0x11D60int, 0x11D65int), (0x11D67int, 0x11D68int), (0x11D6Aint, 0x11D89int), (0x11D98int, 0x11D98int), (0x11EE0int, 0x11EF2int), (0x11F02int, 0x11F02int), (0x11F04int, 0x11F10int)]
}

pub open spec fn xid_start_chunk_69() -> Seq<SRange> {
    seq![(0x11F12int, 0x11F33int), (0x11FB0int, 0x11FB0int), (0x12000int, 0x12399int), (0x12400int, 0x1246Eint), (0x12480int, 0x12543int), (0x12F90int, 0x12FF0int), (0x13000int, 0x1342Fint), (0x13441int, 0x13446int)]
}

pub open spec fn xid_start_chunk_70() -> Seq<SRange> {
    seq![(0x13460int, 0x143FAint), (0x14400int, 0x14646int), (0x16100int, 0x1611Dint), (0x16800int, 0x16A38int), (0x16A40int, 0x16A5Eint), (0x16A70int, 0x16ABEint), (0x16AD0int, 0x16AEDint), (0x16B00int, 0x16B2Fint)]
}

pub open spec fn xid_start_chunk_71() -> Seq<SRange> {
    seq![(0x16B40int, 0x16B43int), (0x16B63int, 0x16B77int), (0x16B7Dint, 0x16B8Fint), (0x16D40int, 0x16D6Cint), (0x16E40int, 0x16E7Fint), (0x16F00int, 0x16F4Aint), (0x16F50int, 0x16F50int), (0x16F93int, 0x16F9Fint)]
}

pub open spec fn xid_start_chunk_72() -> Seq<SRange> {
    seq![(0x16FE0int, 0x16FE1int), (0x16FE3int, 0x16FE3int), (0x17000int, 0x187F7int), (0x18800int, 0x18CD5int), (0x18CFFint, 0x18D08int), (0x1AFF0int, 0x1AFF3int), (0x1AFF5int, 0x1AFFBint), (0x1AFFDint, 0x1AFFEint)]
}

pub open spec fn xid_start_chunk_73() -> Seq<SRange> {
    seq![(0x1B000int, 0x1B122int), (0x1B132int, 0x1B132int), (0x1B150int, 0x1B152int), (0x1B155int, 0x1B155int), (0x1B164int, 0x1B167int), (0x1B170int, 0x1B2FBint), (0x1BC00int, 0x1BC6Aint), (0x1BC70int, 0x1BC7Cint)]
}

pub open spec fn xid_start_chunk_74() -> Seq<SRange> {
    seq![(0x1BC80int, 0x1BC88int), (0x1BC90int, 0x1BC99int), (0x1D400int, 0x1D454int), (0x1D456int, 0x1D49Cint), (0x1D49Eint, 0x1D49Fint), (0x1D4A2int, 0x1D4A2int), (0x1D4A5int, 0x1D4A6int), (0x1D4A9int, 0x1D4ACint)]
}

pub open spec fn xid_start_chunk_75() -> Seq<SRange> {
    seq![(0x1D4AEint, 0x1D4B9int), (0x1D4BBint, 0x1D4BBint), (0x1D4BDint, 0x1D4C3int), (0x1D4C5int, 0x1D505int), (0x1D507int, 0x1D50Aint), (0x1D50Dint, 0x1D514int), (0x1D516int, 0x1D51Cint), (0x1D51Eint, 0x1D539int)]
}

pub open spec fn xid_start_chunk_76() -> Seq<SRange> {
    seq![(0x1D53Bint, 0x1D53Eint), (0x1D540int, 0x1D544int), (0x1D546int, 0x1D546int), (0x1D54Aint, 0x1D550int), (0x1D552int, 0x1D6A5int), (0x1D6A8int, 0x1D6C0int), (0x1D6C2int, 0x1D6DAint), (0x1D6DCint, 0x1D6FAint)]
}

pub open spec fn xid_start_chunk_77() -> Seq<SRange> {
    seq![(0x1D6FCint, 0x1D714int), (0x1D716int, 0x1D734int), (0x1D736int, 0x1D74Eint), (0x1D750int, 0x1D76Eint), (0x1D770int, 0x1D788int), (0x1D78Aint, 0x1D7A8int), (0x1D7AAint, 0x1D7C2int), (0x1D7C4int, 0x1D7CBint)]
}

pub open spec fn xid_start_chunk_78() -> Seq<SRange> {
    seq![(0x1DF00int, 0x1DF1Eint), (0x1DF25int, 0x1DF2Aint), (0x1E030int, 0x1E06Dint), (0x1E100int, 0x1E12Cint), (0x1E137int, 0x1E13Dint), (0x1E14Eint, 0x1E14Eint), (0x1E290int, 0x1E2ADint), (0x1E2C0int, 0x1E2EBint)]
}

pub open spec fn xid_start_chunk_79() -> Seq<SRange> {
    seq![(0x1E4D0int, 0x1E4EBint), (0x1E5D0int, 0x1E5EDint), (0x1E5F0int, 0x1E5F0int), (0x1E7E0int, 0x1E7E6int), (0x1E7E8int, 0x1E7EBint), (0x1E7EDint, 0x1E7EEint), (0x1E7F0int, 0x1E7FEint), (0x1E800int, 0x1E8C4int)]
}

pub open spec fn xid_start_chunk_80() -> Seq<SRange> {
    seq![(0x1E900int, 0x1E943int), (0x1E94Bint, 0x1E94Bint), (0x1EE00int, 0x1EE03int), (0x1EE05int, 0x1EE1Fint), (0x1EE21int, 0x1EE22int), (0x1EE24int, 0x1EE24int), (0x1EE27int, 0x1EE27int), (0x1EE29int, 0x1EE32int)]
}

pub open spec fn xid_start_chunk_81() -> Seq<SRange> {
    seq![(0x1EE34int, 0x1EE37int), (0x1EE39int, 0x1EE39int), (0x1EE3Bint, 0x1EE3Bint), (0x1EE42int, 0x1EE42int), (0x1EE47int, 0x1EE47int), (0x1EE49int, 0x1EE49int), (0x1EE4Bint, 0x1EE4Bint), (0x1EE4Dint, 0x1EE4Fint)]
}

pub open spec fn xid_start_chunk_82() -> Seq<SRange> {
    seq![(0x1EE51int, 0x1EE52int), (0x1EE54int, 0x1EE54int), (0x1EE57int, 0x1EE57int), (0x1EE59int, 0x1EE59int), (0x1EE5Bint, 0x1EE5Bint), (0x1EE5Dint, 0x1EE5Dint), (0x1EE5Fint, 0x1EE5Fint), (0x1EE61int, 0x1EE62int)]
}

pub open spec fn xid_start_chunk_83() -> Seq<SRange> {
    seq![(0x1EE64int, 0x1EE64int), (0x1EE67int, 0x1EE6Aint), (0x1EE6Cint, 0x1EE72int), (0x1EE74int, 0x1EE77int), (0x1EE79int, 0x1EE7Cint), (0x1EE7Eint, 0x1EE7Eint), (0x1EE80int, 0x1EE89int), (0x1EE8Bint, 0x1EE9Bint)]
}

pub open spec fn xid_start_chunk_84() -> Seq<SRange> {
    seq![(0x1EEA1int, 0x1EEA3int), (0x1EEA5int, 0x1EEA9int), (0x1EEABint, 0x1EEBBint), (0x20000int, 0x2A6DFint), (0x2A700int, 0x2B739int), (0x2B740int, 0x2B81Dint), (0x2B820int, 0x2CEA1int), (0x2CEB0int, 0x2EBE0int)]
}

pub open spec fn xid_start_chunk_85() -> Seq<SRange> {
    seq![(0x2EBF0int, 0x2EE5Dint), (0x2F800int, 0x2FA1Dint), (0x30000int, 0x3134Aint), (0x31350int, 0x323AFint)]
}

pub open spec fn xid_start_block_0() -> Seq<SRange> {
    xid_start_chunk_0() + xid_start_chunk_1() + xid_start_chunk_2() + xid_start_chunk_3() + xid_start_chunk_4() + xid_start_chunk_5() + xid_start_chunk_6() + xid_start_chunk_7() + xid_start_chunk_8() + xid_start_chunk_9()
}

pub open spec fn xid_start_block_1() -> Seq<SRange> {
    xid_start_chunk_10() + xid_start_chunk_11() + xid_start_chunk_12() + xid_start_chunk_13() + xid_start_chunk_14() + xid_start_chunk_15() + xid_start_chunk_16() + xid_start_chunk_17() + xid_start_chunk_18() + xid_start_chunk_19()
}

pub open spec fn xid_start_block_2() -> Seq<SRange> {
    xid_start_chunk_20() + xid_start_chunk_21() + xid_start_chunk_22() + xid_start_chunk_23() + xid_start_chunk_24() + xid_start_chunk_25() + xid_start_chunk_26() + xid_start_chunk_27() + xid_start_chunk_28() + xid_start_chunk_29()
}

pub open spec fn xid_start_block_3() -> Seq<SRange> {
    xid_start_chunk_30() + xid_start_chunk_31() + xid_start_chunk_32() + xid_start_chunk_33() + xid_start_chunk_34() + xid_start_chunk_35() + xid_start_chunk_36() + xid_start_chunk_37() + xid_start_chunk_38() + xid_start_chunk_39()
}

pub open spec fn xid_start_block_4() -> Seq<SRange> {
    xid_start_chunk_40() + xid_start_chunk_41() + xid_start_chunk_42() + xid_start_chunk_43() + xid_start_chunk_44() + xid_start_chunk_45() + xid_start_chunk_46() + xid_start_chunk_47() + xid_start_chunk_48() + xid_start_chunk_49()
}

pub open spec fn xid_start_block_5() -> Seq<SRange> {
    xid_start_chunk_50() + xid_start_chunk_51() + xid_start_chunk_52() + xid_start_chunk_53() + xid_start_chunk_54() + xid_start_chunk_55() + xid_start_chunk_56() + xid_start_chunk_57() + xid_start_chunk_58() + xid_start_chunk_59()
}

pub open spec fn xid_start_block_6() -> Seq<SRange> {
    xid_start_chunk_60() + xid_start_chunk_61() + xid_start_chunk_62() + xid_start_chunk_63() + xid_start_chunk_64() + xid_start_chunk_65() + xid_start_chunk_66() + xid_start_chunk_67() + xid_start_chunk_68() + xid_start_chunk_69()
}

pub open spec fn xid_start_block_7() -> Seq<SRange> {
    xid_start_chunk_70() + xid_start_chunk_71() + xid_start_chunk_72() + xid_start_chunk_73() + xid_start_chunk_74() + xid_start_chunk_75() + xid_start_chunk_76() + xid_start_chunk_77() + xid_start_chunk_78() + xid_start_chunk_79()
}

pub open spec fn xid_start_block_8() -> Seq<SRange> {
    xid_start_chunk_80() + xid_start_chunk_81() + xid_start_chunk_82() + xid_start_chunk_83() + xid_start_chunk_84() + xid_start_chunk_85()
}

/// The ranges of the property XID_Start.
pub open spec fn xid_start_ranges() -> Seq<SRange> {
    xid_start_block_0() + xid_start_block_1() + xid_start_block_2() + xid_start_block_3() + xid_start_block_4() + xid_start_block_5() + xid_start_block_6() + xid_start_block_7() + xid_start_block_8()
}

proof fn lemma_xid_start_block_0()
    ensures
        canonical(xid_start_block_0()),
        xid_start_block_0().len() > 0,
        xid_start_block_0()[0] == xid_start_chunk_0()[0],
        xid_start_block_0().last() == xid_start_chunk_9().last(),
{
    reveal_with_fuel(canonical, 9);
    assert(canonical(xid_start_chunk_0()));
    assert(canonical(xid_start_chunk_1()));
    assert(canonical(xid_start_chunk_2()));
    assert(canonical(xid_start_chunk_3()));
    assert(canonical(xid_start_chunk_4()));
    assert(canonical(xid_start_chunk_5()));
    assert(canonical(xid_start_chunk_6()));
    assert(canonical(xid_start_chunk_7()));
    assert(canonical(xid_start_chunk_8()));
    assert(canonical(xid_start_chunk_9()));
    lemma_canonical_append(xid_start_chunk_0(), xid_start_chunk_1());
    lemma_canonical_append(xid_start_chunk_0() + xid_start_chunk_1(), xid_start_chunk_2());
    lemma_canonical_append(xid_start_chunk_0() + xid_start_chunk_1() + xid_start_chunk_2(), xid_start_chunk_3());
    lemma_canonical_append(xid_start_chunk_0() + xid_start_chunk_1() + xid_start_chunk_2() + xid_start_chunk_3(), xid_start_chunk_4());
    lemma_canonical_append(xid_start_chunk_0() + xid_start_chunk_1() + xid_start_chunk_2() + xid_start_chunk_3() + xid_start_chunk_4(), xid_start_chunk_5());
    lemma_canonical_append(xid_start_chunk_0() + xid_start_chunk_1() + xid_start_chunk_2() + xid_start_chunk_3() + xid_start_chunk_4() + xid_start_chunk_5(), xid_start_chunk_6());
    lemma_canonical_append(xid_start_chunk_0() + xid_start_chunk_1() + xid_start_chunk_2() + xid_start_chunk_3() + xid_start_chunk_4() + xid_start_chunk_5() + xid_start_chunk_6(), xid_start_chunk_7());
    lemma_canonical_append(xid_start_chunk_0() + xid_start_chunk_1() + xid_start_chunk_2() + xid_start_chunk_3() + xid_start_chunk_4() + xid_start_chunk_5() + xid_start_chunk_6() + xid_start_chunk_7(), xid_start_chunk_8());
    lemma_canonical_append(xid_start_chunk_0() + xid_start_chunk_1() + xid_start_chunk_2() + xid_start_chunk_3() + xid_start_chunk_4() + xid_start_chunk_5() + xid_start_chunk_6() + xid_start_chunk_7() + xid_start_chunk_8(), xid_start_chunk_9());
}

proof fn lemma_xid_start_block_1()
    ensures
        canonical(xid_start_block_1()),
        xid_start_block_1().len() > 0,
        xid_start_block_1()[0] == xid_start_chunk_10()[0],
        xid_start_block_1().last() == xid_start_chunk_19().last(),
{
    reveal_with_fuel(canonical, 9);
    assert(canonical(xid_start_chunk_10()));
    assert(canonical(xid_start_chunk_11()));
    assert(canonical(xid_start_chunk_12()));
    assert(canonical(xid_start_chunk_13()));
    assert(canonical(xid_start_chunk_14()));
    assert(canonical(xid_start_chunk_15()));
    assert(canonical(xid_start_chunk_16()));
    assert(canonical(xid_start_chunk_17()));
    assert(canonical(xid_start_chunk_18()));
    assert(canonical(xid_start_chunk_19()));
    lemma_canonical_append(xid_start_chunk_10(), xid_start_chunk_11());
    lemma_canonical_append(xid_start_chunk_10() + xid_start_chunk_11(), xid_start_chunk_12());
    lemma_canonical_append(xid_start_chunk_10() + xid_start_chunk_11() + xid_start_chunk_12(), xid_start_chunk_13());
    lemma_canonical_append(xid_start_chunk_10() + xid_start_chunk_11() + xid_start_chunk_12() + xid_start_chunk_13(), xid_start_chunk_14());
    lemma_canonical_append(xid_start_chunk_10() + xid_start_chunk_11() + xid_start_chunk_12() + xid_start_chunk_13() + xid_start_chunk_14(), xid_start_chunk_15());
    lemma_canonical_append(xid_start_chunk_10() + xid_start_chunk_11() + xid_start_chunk_12() + xid_start_chunk_13() + xid_start_chunk_14() + xid_start_chunk_15(), xid_start_chunk_16());
    lemma_canonical_append(xid_start_chunk_10() + xid_start_chunk_11() + xid_start_chunk_12() + xid_start_chunk_13() + xid_start_chunk_14() + xid_start_chunk_15() + xid_start_chunk_16(), xid_start_chunk_17());
    lemma_canonical_append(xid_start_chunk_10() + xid_start_chunk_11() + xid_start_chunk_12() + xid_start_chunk_13() + xid_start_chunk_14() + xid_start_chunk_15() + xid_start_chunk_16() + xid_start_chunk_17(), xid_start_chunk_18());
    lemma_canonical_append(xid_start_chunk_10() + xid_start_chunk_11() + xid_start_chunk_12() + xid_start_chunk_13() + xid_start_chunk_14() + xid_start_chunk_15() + xid_start_chunk_16() + xid_start_chunk_17() + xid_start_chunk_18(), xid_start_chunk_19());
}

proof fn lemma_xid_start_block_2()
    ensures
        canonical(xid_start_block_2()),
        xid_start_block_2().len() > 0,
        xid_start_block_2()[0] == xid_start_chunk_20()[0],
        xid_start_block_2().last() == xid_start_chunk_29().last(),
{
    reveal_with_fuel(canonical, 9);
    assert(canonical(xid_start_chunk_20()));
    assert(canonical(xid_start_chunk_21()));
    assert(canonical(xid_start_chunk_22()));
    assert(canonical(xid_start_chunk_23()));
    assert(canonical(xid_start_chunk_24()));
    assert(canonical(xid_start_chunk_25()));
    assert(canonical(xid_start_chunk_26()));
    assert(canonical(xid_start_chunk_27()));
    assert(canonical(xid_start_chunk_28()));
    assert(canonical(xid_start_chunk_29()));
    lemma_canonical_append(xid_start_chunk_20(), xid_start_chunk_21());
    lemma_canonical_append(xid_start_chunk_20() + xid_start_chunk_21(), xid_start_chunk_22());
    lemma_canonical_append(xid_start_chunk_20() + xid_start_chunk_21() + xid_start_chunk_22(), xid_start_chunk_23());
    lemma_canonical_append(xid_start_chunk_20() + xid_start_chunk_21() + xid_start_chunk_22() + xid_start_chunk_23(), xid_start_chunk_24());
    lemma_canonical_append(xid_start_chunk_20() + xid_start_chunk_21() + xid_start_chunk_22() + xid_start_chunk_23() + xid_start_chunk_24(), xid_start_chunk_25());
    lemma_canonical_append(xid_start_chunk_20() + xid_start_chunk_21() + xid_start_chunk_22() + xid_start_chunk_23() + xid_start_chunk_24() + xid_start_chunk_25(), xid_start_chunk_26());
    lemma_canonical_append(xid_start_chunk_20() + xid_start_chunk_21() + xid_start_chunk_22() + xid_start_chunk_23() + xid_start_chunk_24() + xid_start_chunk_25() + xid_start_chunk_26(), xid_start_chunk_27());
    lemma_canonical_append(xid_start_chunk_20() + xid_start_chunk_21() + xid_start_chunk_22() + xid_start_chunk_23() + xid_start_chunk_24() + xid_start_chunk_25() + xid_start_chunk_26() + xid_start_chunk_27(), xid_start_chunk_28());
    lemma_canonical_append(xid_start_chunk_20() + xid_start_chunk_21() + xid_start_chunk_22() + xid_start_chunk_23() + xid_start_chunk_24() + xid_start_chunk_25() + xid_start_chunk_26() + xid_start_chunk_27() + xid_start_chunk_28(), xid_start_chunk_29());
}

proof fn lemma_xid_start_block_3()
    ensures
        canonical(xid_start_block_3()),
        xid_start_block_3().len() > 0,
        xid_start_block_3()[0] == xid_start_chunk_30()[0],
        xid_start_block_3().last() == xid_start_chunk_39().last(),
{
    reveal_with_fuel(canonical, 9);
    assert(canonical(xid_start_chunk_30()));
    assert(canonical(xid_start_chunk_31()));
    assert(canonical(xid_start_chunk_32()));
    assert(canonical(xid_start_chunk_33()));
    assert(canonical(xid_start_chunk_34()));
    assert(canonical(xid_start_chunk_35()));
    assert(canonical(xid_start_chunk_36()));
    assert(canonical(xid_start_chunk_37()));
    assert(canonical(xid_start_chunk_38()));
    assert(canonical(xid_start_chunk_39()));
    lemma_canonical_append(xid_start_chunk_30(), xid_start_chunk_31());
    lemma_canonical_append(xid_start_chunk_30() + xid_start_chunk_31(), xid_start_chunk_32());
    lemma_canonical_append(xid_start_chunk_30() + xid_start_chunk_31() + xid_start_chunk_32(), xid_start_chunk_33());
    lemma_canonical_append(xid_start_chunk_30() + xid_start_chunk_31() + xid_start_chunk_32() + xid_start_chunk_33(), xid_start_chunk_34());
    lemma_canonical_append(xid_start_chunk_30() + xid_start_chunk_31() + xid_start_chunk_32() + xid_start_chunk_33() + xid_start_chunk_34(), xid_start_chunk_35());
    lemma_canonical_append(xid_start_chunk_30() + xid_start_chunk_31() + xid_start_chunk_32() + xid_start_chunk_33() + xid_start_chunk_34() + xid_start_chunk_35(), xid_start_chunk_36());
    lemma_canonical_append(xid_start_chunk_30() + xid_start_chunk_31() + xid_start_chunk_32() + xid_start_chunk_33() + xid_start_chunk_34() + xid_start_chunk_35() + xid_start_chunk_36(), xid_start_chunk_37());
    lemma_canonical_append(xid_start_chunk_30() + xid_start_chunk_31() + xid_start_chunk_32() + xid_start_chunk_33() + xid_start_chunk_34() + xid_start_chunk_35() + xid_start_chunk_36() + xid_start_chunk_37(), xid_start_chunk_38());
    lemma_canonical_append(xid_start_chunk_30() + xid_start_chunk_31() + xid_start_chunk_32() + xid_start_chunk_33() + xid_start_chunk_34() + xid_start_chunk_35() + xid_start_chunk_36() + xid_start_chunk_37() + xid_start_chunk_38(), xid_start_chunk_39());
}

proof fn lemma_xid_start_block_4()
    ensures
        canonical(xid_start_block_4()),
        xid_start_block_4().len() > 0,
        xid_start_block_4()[0] == xid_start_chunk_40()[0],
        xid_start_block_4().last() == xid_start_chunk_49().last(),
{
    reveal_with_fuel(canonical, 9);
    assert(canonical(xid_start_chunk_40()));
    assert(canonical(xid_start_chunk_41()));
    assert(canonical(xid_start_chunk_42()));
    assert(canonical(xid_start_chunk_43()));
    assert(canonical(xid_start_chunk_44()));
    assert(canonical(xid_start_chunk_45()));
    assert(canonical(xid_start_chunk_46()));
    assert(canonical(xid_start_chunk_47()));
    assert(canonical(xid_start_chunk_48()));
    assert(canonical(xid_start_chunk_49()));
    lemma_canonical_append(xid_start_chunk_40(), xid_start_chunk_41());
    lemma_canonical_append(xid_start_chunk_40() + xid_start_chunk_41(), xid_start_chunk_42());
    lemma_canonical_append(xid_start_chunk_40() + xid_start_chunk_41() + xid_start_chunk_42(), xid_start_chunk_43());
    lemma_canonical_append(xid_start_chunk_40() + xid_start_chunk_41() + xid_start_chunk_42() + xid_start_chunk_43(), xid_start_chunk_44());
    lemma_canonical_append(xid_start_chunk_40() + xid_start_chunk_41() + xid_start_chunk_42() + xid_start_chunk_43() + xid_start_chunk_44(), xid_start_chunk_45());
    lemma_canonical_append(xid_start_chunk_40() + xid_start_chunk_41() + xid_start_chunk_42() + xid_start_chunk_43() + xid_start_chunk_44() + xid_start_chunk_45(), xid_start_chunk_46());
    lemma_canonical_append(xid_start_chunk_40() + xid_start_chunk_41() + xid_start_chunk_42() + xid_start_chunk_43() + xid_start_chunk_44() + xid_start_chunk_45() + xid_start_chunk_46(), xid_start_chunk_47());
    lemma_canonical_append(xid_start_chunk_40() + xid_start_chunk_41() + xid_start_chunk_42() + xid_start_chunk_43() + xid_start_chunk_44() + xid_start_chunk_45() + xid_start_chunk_46() + xid_start_chunk_47(), xid_start_chunk_48());
    lemma_canonical_append(xid_start_chunk_40() + xid_start_chunk_41() + xid_start_chunk_42() + xid_start_chunk_43() + xid_start_chunk_44() + xid_start_chunk_45() + xid_start_chunk_46() + xid_start_chunk_47() + xid_start_chunk_48(), xid_start_chunk_49());
}

proof fn lemma_xid_start_block_5()
    ensures
        canonical(xid_start_block_5()),
        xid_start_block_5().len() > 0,
        xid_start_block_5()[0] == xid_start_chunk_50()[0],
        xid_start_block_5().last() == xid_start_chunk_59().last(),
{
    reveal_with_fuel(canonical, 9);
    assert(canonical(xid_start_chunk_50()));
    assert(canonical(xid_start_chunk_51()));
    assert(canonical(xid_start_chunk_52()));
    assert(canonical(xid_start_chunk_53()));
    assert(canonical(xid_start_chunk_54()));
    assert(canonical(xid_start_chunk_55()));
    assert(canonical(xid_start_chunk_56()));
    assert(canonical(xid_start_chunk_57()));
    assert(canonical(xid_start_chunk_58()));
    assert(canonical(xid_start_chunk_59()));
    lemma_canonical_append(xid_start_chunk_50(), xid_start_chunk_51());
    lemma_canonical_append(xid_start_chunk_50() + xid_start_chunk_51(), xid_start_chunk_52());
    lemma_canonical_append(xid_start_chunk_50() + xid_start_chunk_51() + xid_start_chunk_52(), xid_start_chunk_53());
    lemma_canonical_append(xid_start_chunk_50() + xid_start_chunk_51() + xid_start_chunk_52() + xid_start_chunk_53(), xid_start_chunk_54());
    lemma_canonical_append(xid_start_chunk_50() + xid_start_chunk_51() + xid_start_chunk_52() + xid_start_chunk_53() + xid_start_chunk_54(), xid_start_chunk_55());
    lemma_canonical_append(xid_start_chunk_50() + xid_start_chunk_51() + xid_start_chunk_52() + xid_start_chunk_53() + xid_start_chunk_54() + xid_start_chunk_55(), xid_start_chunk_56());
    lemma_canonical_append(xid_start_chunk_50() + xid_start_chunk_51() + xid_start_chunk_52() + xid_start_chunk_53() + xid_start_chunk_54() + xid_start_chunk_55() + xid_start_chunk_56(), xid_start_chunk_57());
    lemma_canonical_append(xid_start_chunk_50() + xid_start_chunk_51() + xid_start_chunk_52() + xid_start_chunk_53() + xid_start_chunk_54() + xid_start_chunk_55() + xid_start_chunk_56() + xid_start_chunk_57(), xid_start_chunk_58());
    lemma_canonical_append(xid_start_chunk_50() + xid_start_chunk_51() + xid_start_chunk_52() + xid_start_chunk_53() + xid_start_chunk_54() + xid_start_chunk_55() + xid_start_chunk_56() + xid_start_chunk_57() + xid_start_chunk_58(), xid_start_chunk_59());
}

proof fn lemma_xid_start_block_6()
    ensures
        canonical(xid_start_block_6()),
        xid_start_block_6().len() > 0,
        xid_start_block_6()[0] == xid_start_chunk_60()[0],
        xid_start_block_6().last() == xid_start_chunk_69().last(),
{
    reveal_with_fuel(canonical, 9);
    assert(canonical(xid_start_chunk_60()));
    assert(canonical(xid_start_chunk_61()));
    assert(canonical(xid_start_chunk_62()));
    assert(canonical(xid_start_chunk_63()));
    assert(canonical(xid_start_chunk_64()));
    assert(canonical(xid_start_chunk_65()));
    assert(canonical(xid_start_chunk_66()));
    assert(canonical(xid_start_chunk_67()));
    assert(canonical(xid_start_chunk_68()));
    assert(canonical(xid_start_chunk_69()));
    lemma_canonical_append(xid_start_chunk_60(), xid_start_chunk_61());
    lemma_canonical_append(xid_start_chunk_60() + xid_start_chunk_61(), xid_start_chunk_62());
    lemma_canonical_append(xid_start_chunk_60() + xid_start_chunk_61() + xid_start_chunk_62(), xid_start_chunk_63());
    lemma_canonical_append(xid_start_chunk_60() + xid_start_chunk_61() + xid_start_chunk_62() + xid_start_chunk_63(), xid_start_chunk_64());
    lemma_canonical_append(xid_start_chunk_60() + xid_start_chunk_61() + xid_start_chunk_62() + xid_start_chunk_63() + xid_start_chunk_64(), xid_start_chunk_65());
    lemma_canonical_append(xid_start_chunk_60() + xid_start_chunk_61() + xid_start_chunk_62() + xid_start_chunk_63() + xid_start_chunk_64() + xid_start_chunk_65(), xid_start_chunk_66());
    lemma_canonical_append(xid_start_chunk_60() + xid_start_chunk_61() + xid_start_chunk_62() + xid_start_chunk_63() + xid_start_chunk_64() + xid_start_chunk_65() + xid_start_chunk_66(), xid_start_chunk_67());
    lemma_canonical_append(xid_start_chunk_60() + xid_start_chunk_61() + xid_start_chunk_62() + xid_start_chunk_63() + xid_start_chunk_64() + xid_start_chunk_65() + xid_start_chunk_66() + xid_start_chunk_67(), xid_start_chunk_68());
    lemma_canonical_append(xid_start_chunk_60() + xid_start_chunk_61() + xid_start_chunk_62() + xid_start_chunk_63() + xid_start_chunk_64() + xid_start_chunk_65() + xid_start_chunk_66() + xid_start_chunk_67() + xid_start_chunk_68(), xid_start_chunk_69());
}

proof fn lemma_xid_start_block_7()
    ensures
        canonical(xid_start_block_7()),
        xid_start_block_7().len() > 0,
        xid_start_block_7()[0] == xid_start_chunk_70()[0],
        xid_start_block_7().last() == xid_start_chunk_79().last(),
{
    reveal_with_fuel(canonical, 9);
    assert(canonical(xid_start_chunk_70()));
    assert(canonical(xid_start_chunk_71()));
    assert(canonical(xid_start_chunk_72()));
    assert(canonical(xid_start_chunk_73()));
    assert(canonical(xid_start_chunk_74()));
    assert(canonical(xid_start_chunk_75()));
    assert(canonical(xid_start_chunk_76()));
    assert(canonical(xid_start_chunk_77()));
    assert(canonical(xid_start_chunk_78()));
    assert(canonical(xid_start_chunk_79()));
    lemma_canonical_append(xid_start_chunk_70(), xid_start_chunk_71());
    lemma_canonical_append(xid_start_chunk_70() + xid_start_chunk_71(), xid_start_chunk_72());
    lemma_canonical_append(xid_start_chunk_70() + xid_start_chunk_71() + xid_start_chunk_72(), xid_start_chunk_73());
    lemma_canonical_append(xid_start_chunk_70() + xid_start_chunk_71() + xid_start_chunk_72() + xid_start_chunk_73(), xid_start_chunk_74());
    lemma_canonical_append(xid_start_chunk_70() + xid_start_chunk_71() + xid_start_chunk_72() + xid_start_chunk_73() + xid_start_chunk_74(), xid_start_chunk_75());
    lemma_canonical_append(xid_start_chunk_70() + xid_start_chunk_71() + xid_start_chunk_72() + xid_start_chunk_73() + xid_start_chunk_74() + xid_start_chunk_75(), xid_start_chunk_76());
    lemma_canonical_append(xid_start_chunk_70() + xid_start_chunk_71() + xid_start_chunk_72() + xid_start_chunk_73() + xid_start_chunk_74() + xid_start_chunk_75() + xid_start_chunk_76(), xid_start_chunk_77());
    lemma_canonical_append(xid_start_chunk_70() + xid_start_chunk_71() + xid_start_chunk_72() + xid_start_chunk_73() + xid_start_chunk_74() + xid_start_chunk_75() + xid_start_chunk_76() + xid_start_chunk_77(), xid_start_chunk_78());
    lemma_canonical_append(xid_start_chunk_70() + xid_start_chunk_71() + xid_start_chunk_72() + xid_start_chunk_73() + xid_start_chunk_74() + xid_start_chunk_75() + xid_start_chunk_76() + xid_start_chunk_77() + xid_start_chunk_78(), xid_start_chunk_79());
}

proof fn lemma_xid_start_block_8()
    ensures
        canonical(xid_start_block_8()),
        xid_start_block_8().len() > 0,
        xid_start_block_8()[0] == xid_start_chunk_80()[0],
        xid_start_block_8().last() == xid_start_chunk_85().last(),
{
    reveal_with_fuel(canonical, 9);
    assert(canonical(xid_start_chunk_80()));
    assert(canonical(xid_start_chunk_81()));
    assert(canonical(xid_start_chunk_82()));
    assert(canonical(xid_start_chunk_83()));
    assert(canonical(xid_start_chunk_84()));
    assert(canonical(xid_start_chunk_85()));
    lemma_canonical_append(xid_start_chunk_80(), xid_start_chunk_81());
    lemma_canonical_append(xid_start_chunk_80() + xid_start_chunk_81(), xid_start_chunk_82());
    lemma_canonical_append(xid_start_chunk_80() + xid_start_chunk_81() + xid_start_chunk_82(), xid_start_chunk_83());
    lemma_canonical_append(xid_start_chunk_80() + xid_start_chunk_81() + xid_start_chunk_82() + xid_start_chunk_83(), xid_start_chunk_84());
    lemma_canonical_append(xid_start_chunk_80() + xid_start_chunk_81() + xid_start_chunk_82() + xid_start_chunk_83() + xid_start_chunk_84(), xid_start_chunk_85());
}

#[verifier::rlimit(100)]
pub proof fn lemma_xid_start_canonical()
    ensures
        canonical(xid_start_ranges()),
{
    lemma_xid_start_block_0();
    lemma_xid_start_block_1();
    lemma_xid_start_block_2();
    lemma_xid_start_block_3();
    lemma_xid_start_block_4();
    lemma_xid_start_block_5();
    lemma_xid_start_block_6();
    lemma_xid_start_block_7();
    lemma_xid_start_block_8();
    lemma_canonical_append(xid_start_block_0(), xid_start_block_1());
    lemma_canonical_append(xid_start_block_0() + xid_start_block_1(), xid_start_block_2());
    lemma_canonical_append(xid_start_block_0() + xid_start_block_1() + xid_start_block_2(), xid_start_block_3());
    lemma_canonical_append(xid_start_block_0() + xid_start_block_1() + xid_start_block_2() + xid_start_block_3(), xid_start_block_4());
    lemma_canonical_append(xid_start_block_0() + xid_start_block_1() + xid_start_block_2() + xid_start_block_3() + xid_start_block_4(), xid_start_block_5());
    lemma_canonical_append(xid_start_block_0() + xid_start_block_1() + xid_start_block_2() + xid_start_block_3() + xid_start_block_4() + xid_start_block_5(), xid_start_block_6());
    lemma_canonical_append(xid_start_block_0() + xid_start_block_1() + xid_start_block_2() + xid_start_block_3() + xid_start_block_4() + xid_start_block_5() + xid_start_block_6(), xid_start_block_7());
    lemma_canonical_append(xid_start_block_0() + xid_start_block_1() + xid_start_block_2() + xid_start_block_3() + xid_start_block_4() + xid_start_block_5() + xid_start_block_6() + xid_start_block_7(), xid_start_block_8());
}

fn push_xid_start_chunk_0(v: &mut Vec<ClassUnicodeRange>)
    ensures
        rview(final(v)@) == rview(old(v)@) + xid_start_chunk_0(),
{
    let ghost o = rview(v@);
    push_range(v, '\u{41}', '\u{5A}');
    push_range(v, '\u{61}', '\u{7A}');
    push_range(v, '\u{AA}', '\u{AA}');
    push_range(v, '\u{B5}', '\u{B5}');
    push_range(v, '\u{BA}', '\u{BA}');
    push_range(v, '\u{C0}', '\u{D6}');
    push_range(v, '\u{D8}', '\u{F6}');
    push_range(v, '\u{F8}', '\u{2C1}');
    assert(rview(v@) =~= o + xid_start_chunk_0());
}

fn push_xid_start_chunk_1(v: &mut Vec<ClassUnicodeRange>)
    ensures
        rview(final(v)@) == rview(old(v)@) + xid_start_chunk_1(),
{
    let ghost o = rview(v@);
    push_range(v, '\u{2C6}', '\u{2D1}');
    push_range(v, '\u{2E0}', '\u{2E4}');
    push_range(v, '\u{2EC}', '\u{2EC}');
    push_range(v, '\u{2EE}', '\u{2EE}');
    push_range(v, '\u{370}', '\u{374}');
    push_range(v, '\u{376}', '\u{377}');
    push_range(v, '\u{37B}', '\u{37D}');
    push_range(v, '\u{37F}', '\u{37F}');
    assert(rview(v@) =~= o + xid_start_chunk_1());
}

fn push_xid_start_chunk_2(v: &mut Vec<ClassUnicodeRange>)
    ensures
        rview(final(v)@) == rview(old(v)@) + xid_start_chunk_2(),
{
    let ghost o = rview(v@);
    push_range(v, '\u{386}', '\u{386}');
    push_range(v, '\u{388}', '\u{38A}');
    push_range(v, '\u{38C}', '\u{38C}');
    push_range(v, '\u{38E}', '\u{3A1}');
    push_range(v, '\u{3A3}', '\u{3F5}');
    push_range(v, '\u{3F7}', '\u{481}');
    push_range(v, '\u{48A}', '\u{52F}');
    push_range(v, '\u{531}', '\u{556}');
    assert(rview(v@) =~= o + xid_start_chunk_2());
}

fn push_xid_start_chunk_3(v: &mut Vec<ClassUnicodeRange>)
    ensures
        rview(final(v)@) == rview(old(v)@) + xid_start_chunk_3(),
{
    let ghost o = rview(v@);
    push_range(v, '\u{559}', '\u{559}');
    push_range(v, '\u{560}', '\u{588}');
    push_range(v, '\u{5D0}', '\u{5EA}');
    push_range(v, '\u{5EF}', '\u{5F2}');
    push_range(v, '\u{620}', '\u{64A}');
    push_range(v, '\u{66E}', '\u{66F}');
    push_range(v, '\u{671}', '\u{6D3}');
    push_range(v, '\u{6D5}', '\u{6D5}');
    assert(rview(v@) =~= o + xid_start_chunk_3());
}

fn push_xid_start_chunk_4(v: &mut Vec<ClassUnicodeRange>)
    ensures
        rview(final(v)@) == rview(old(v)@) + xid_start_chunk_4(),
{
    let ghost o = rview(v@);
    push_range(v, '\u{6E5}', '\u{6E6}');
    push_range(v, '\u{6EE}', '\u{6EF}');
    push_range(v, '\u{6FA}', '\u{6FC}');
    push_range(v, '\u{6FF}', '\u{6FF}');
    push_range(v, '\u{710}', '\u{710}');
    push_range(v, '\u{712}', '\u{72F}');
    push_range(v, '\u{74D}', '\u{7A5}');
    push_range(v, '\u{7B1}', '\u{7B1}');
    assert(rview(v@) =~= o + xid_start_chunk_4());
}

fn push_xid_start_chunk_5(v: &mut Vec<ClassUnicodeRange>)
    ensures
        rview(final(v)@) == rview(old(v)@) + xid_start_chunk_5(),
{
    let ghost o = rview(v@);
    push_range(v, '\u{7CA}', '\u{7EA}');
    push_range(v, '\u{7F4}', '\u{7F5}');
    push_range(v, '\u{7FA}', '\u{7FA}');
    push_range(v, '\u{800}', '\u{815}');
    push_range(v, '\u{81A}', '\u{81A}');
    push_range(v, '\u{824}', '\u{824}');
    push_range(v, '\u{828}', '\u{828}');
    push_range(v, '\u{840}', '\u{858}');
    assert(rview(v@) =~= o + xid_start_chunk_5());
}

fn push_xid_start_chunk_6(v: &mut Vec<ClassUnicodeRange>)
    ensures
        rview(final(v)@) == rview(old(v)@) + xid_start_chunk_6(),
{
    let ghost o = rview(v@);
    push_range(v, '\u{860}', '\u{86A}');
    push_range(v, '\u{870}', '\u{887}');
    push_range(v, '\u{889}', '\u{88E}');
    push_range(v, '\u{8A0}', '\u{8C9}');
    push_range(v, '\u{904}', '\u{939}');
    push_range(v, '\u{93D}', '\u{93D}');
    push_range(v, '\u{950}', '\u{950}');
    push_range(v, '\u{958}', '\u{961}');
    assert(rview(v@) =~= o + xid_start_chunk_6());
}

fn push_xid_start_chunk_7(v: &mut Vec<ClassUnicodeRange>)
    ensures
        rview(final(v)@) == rview(old(v)@) + xid_start_chunk_7(),
{
    let ghost o = rview(v@);
    push_range(v, '\u{971}', '\u{980}');
    push_range(v, '\u{985}', '\u{98C}');
    push_range(v, '\u{98F}', '\u{990}');
    push_range(v, '\u{993}', '\u{9A8}');
    push_range(v, '\u{9AA}', '\u{9B0}');
    push_range(v, '\u{9B2}', '\u{9B2}');
    push_range(v, '\u{9B6}', '\u{9B9}');
    push_range(v, '\u{9BD}', '\u{9BD}');
    assert(rview(v@) =~= o + xid_start_chunk_7());
}

fn push_xid_start_chunk_8(v: &mut Vec<ClassUnicodeRange>)
    ensures
        rview(final(v)@) == rview(old(v)@) + xid_start_chunk_8(),
{
    let ghost o = rview(v@);
    push_range(v, '\u{9CE}', '\u{9CE}');
    push_range(v, '\u{9DC}', '\u{9DD}');
    push_range(v, '\u{9DF}', '\u{9E1}');
    push_range(v, '\u{9F0}', '\u{9F1}');
    push_range(v, '\u{9FC}', '\u{9FC}');
    push_range(v, '\u{A05}', '\u{A0A}');
    push_range(v, '\u{A0F}', '\u{A10}');
    push_range(v, '\u{A13}', '\u{A28}');
    assert(rview(v@) =~= o + xid_start_chunk_8());
}

fn push_xid_start_chunk_9(v: &mut Vec<ClassUnicodeRange>)
    ensures
        rview(final(v)@) == rview(old(v)@) + xid_start_chunk_9(),
{
    let ghost o = rview(v@);
    push_range(v, '\u{A2A}', '\u{A30}');
    push_range(v, '\u{A32}', '\u{A33}');
    push_range(v, '\u{A35}', '\u{A36}');
    push_range(v, '\u{A38}', '\u{A39}');
    push_range(v, '\u{A59}', '\u{A5C}');
    push_range(v, '\u{A5E}', '\u{A5E}');
    push_range(v, '\u{A72}', '\u{A74}');
    push_range(v, '\u{A85}', '\u{A8D}');
    assert(rview(v@) =~= o + xid_start_chunk_9());
}

fn push_xid_start_chunk_10(v: &mut Vec<ClassUnicodeRange>)
    ensures
        rview(final(v)@) == rview(old(v)@) + xid_start_chunk_10(),
{
    let ghost o = rview(v@);
    push_range(v, '\u{A8F}', '\u{A91}');
    push_range(v, '\u{A93}', '\u{AA8}');
    push_range(v, '\u{AAA}', '\u{AB0}');
    push_range(v, '\u{AB2}', '\u{AB3}');
    push_range(v, '\u{AB5}', '\u{AB9}');
    push_range(v, '\u{ABD}', '\u{ABD}');
    push_range(v, '\u{AD0}', '\u{AD0}');
    push_range(v, '\u{AE0}', '\u{AE1}');
    assert(rview(v@) =~= o + xid_start_chunk_10());
}

fn push_xid_start_chunk_11(v: &mut Vec<ClassUnicodeRange>)
    ensures
        rview(final(v)@) == rview(old(v)@) + xid_start_chunk_11(),
{
    let ghost o = rview(v@);
    push_range(v, '\u{AF9}', '\u{AF9}');
    push_range(v, '\u{B05}', '\u{B0C}');
    push_range(v, '\u{B0F}', '\u{B10}');
    push_range(v, '\u{B13}', '\u{B28}');
    push_range(v, '\u{B2A}', '\u{B30}');
    push_range(v, '\u{B32}', '\u{B33}');
    push_range(v, '\u{B35}', '\u{B39}');
    push_range(v, '\u{B3D}', '\u{B3D}');
    assert(rview(v@) =~= o + xid_start_chunk_11());
}

fn push_xid_start_chunk_12(v: &mut Vec<ClassUnicodeRange>)
    ensures
        rview(final(v)@) == rview(old(v)@) + xid_start_chunk_12(),
{
    let ghost o = rview(v@);
    push_range(v, '\u{B5C}', '\u{B5D}');
    push_range(v, '\u{B5F}', '\u{B61}');
    push_range(v, '\u{B71}', '\u{B71}');
    push_range(v, '\u{B83}', '\u{B83}');
    push_range(v, '\u{B85}', '\u{B8A}');
    push_range(v, '\u{B8E}', '\u{B90}');
    push_range(v, '\u{B92}', '\u{B95}');
    push_range(v, '\u{B99}', '\u{B9A}');
    assert(rview(v@) =~= o + xid_start_chunk_12());
}

fn push_xid_start_chunk_13(v: &mut Vec<ClassUnicodeRange>)
    ensures
        rview(final(v)@) == rview(old(v)@) + xid_start_chunk_13(),
{
    let ghost o = rview(v@);
    push_range(v, '\u{B9C}', '\u{B9C}');
    push_range(v, '\u{B9E}', '\u{B9F}');
    push_range(v, '\u{BA3}', '\u{BA4}');
    push_range(v, '\u{BA8}', '\u{BAA}');
    push_range(v, '\u{BAE}', '\u{BB9}');
    push_range(v, '\u{BD0}', '\u{BD0}');
    push_range(v, '\u{C05}', '\u{C0C}');
    push_range(v, '\u{C0E}', '\u{C10}');
    assert(rview(v@) =~= o + xid_start_chunk_13());
}

fn push_xid_start_chunk_14(v: &mut Vec<ClassUnicodeRange>)
    ensures
        rview(final(v)@) == rview(old(v)@) + xid_start_chunk_14(),
{
    let ghost o = rview(v@);
    push_range(v, '\u{C12}', '\u{C28}');
    push_range(v, '\u{C2A}', '\u{C39}');
    push_range(v, '\u{C3D}', '\u{C3D}');
    push_range(v, '\u{C58}', '\u{C5A}');
    push_range(v, '\u{C5D}', '\u{C5D}');
    push_range(v, '\u{C60}', '\u{C61}');
    push_range(v, '\u{C80}', '\u{C80}');
    push_range(v, '\u{C85}', '\u{C8C}');
    assert(rview(v@) =~= o + xid_start_chunk_14());
}

fn push_xid_start_chunk_15(v: &mut Vec<ClassUnicodeRange>)
    ensures
        rview(final(v)@) == rview(old(v)@) + xid_start_chunk_15(),
{
    let ghost o = rview(v@);
    push_range(v, '\u{C8E}', '\u{C90}');
    push_range(v, '\u{C92}', '\u{CA8}');
    push_range(v, '\u{CAA}', '\u{CB3}');
    push_range(v, '\u{CB5}', '\u{CB9}');
    push_range(v, '\u{CBD}', '\u{CBD}');
    push_range(v, '\u{CDD}', '\u{CDE}');
    push_range(v, '\u{CE0}', '\u{CE1}');
    push_range(v, '\u{CF1}', '\u{CF2}');
    assert(rview(v@) =~= o + xid_start_chunk_15());
}

fn push_xid_start_chunk_16(v: &mut Vec<ClassUnicodeRange>)
    ensures
        rview(final(v)@) == rview(old(v)@) + xid_start_chunk_16(),
{
    let ghost o = rview(v@);
    push_range(v, '\u{D04}', '\u{D0C}');
    push_range(v, '\u{D0E}', '\u{D10}');
    push_range(v, '\u{D12}', '\u{D3A}');
    push_range(v, '\u{D3D}', '\u{D3D}');
    push_range(v, '\u{D4E}', '\u{D4E}');
    push_range(v, '\u{D54}', '\u{D56}');
    push_range(v, '\u{D5F}', '\u{D61}');
    push_range(v, '\u{D7A}', '\u{D7F}');
    assert(rview(v@) =~= o + xid_start_chunk_16());
}

fn push_xid_start_chunk_17(v: &mut Vec<ClassUnicodeRange>)
    ensures
        rview(final(v)@) == rview(old(v)@) + xid_start_chunk_17(),
{
    let ghost o = rview(v@);
    push_range(v, '\u{D85}', '\u{D96}');
    push_range(v, '\u{D9A}', '\u{DB1}');
    push_range(v, '\u{DB3}', '\u{DBB}');
    push_range(v, '\u{DBD}', '\u{DBD}');
    push_range(v, '\u{DC0}', '\u{DC6}');
    push_range(v, '\u{E01}', '\u{E30}');
    push_range(v, '\u{E32}', '\u{E32}');
    push_range(v, '\u{E40}', '\u{E46}');
    assert(rview(v@) =~= o + xid_start_chunk_17());
}

fn push_xid_start_chunk_18(v: &mut Vec<ClassUnicodeRange>)
    ensures
        rview(final(v)@) == rview(old(v)@) + xid_start_chunk_18(),
{
    let ghost o = rview(v@);
    push_range(v, '\u{E81}', '\u{E82}');
    push_range(v, '\u{E84}', '\u{E84}');
    push_range(v, '\u{E86}', '\u{E8A}');
    push_range(v, '\u{E8C}', '\u{EA3}');
    push_range(v, '\u{EA5}', '\u{EA5}');
    push_range(v, '\u{EA7}', '\u{EB0}');
    push_range(v, '\u{EB2}', '\u{EB2}');
    push_range(v, '\u{EBD}', '\u{EBD}');
    assert(rview(v@) =~= o + xid_start_chunk_18());
}

fn push_xid_start_chunk_19(v: &mut Vec<ClassUnicodeRange>)
    ensures
        rview(final(v)@) == rview(old(v)@) + xid_start_chunk_19(),
{
    let ghost o = rview(v@);
    push_range(v, '\u{EC0}', '\u{EC4}');
    push_range(v, '\u{EC6}', '\u{EC6}');
    push_range(v, '\u{EDC}', '\u{EDF}');
    push_range(v, '\u{F00}', '\u{F00}');
    push_range(v, '\u{F40}', '\u{F47}');
    push_range(v, '\u{F49}', '\u{F6C}');
    push_range(v, '\u{F88}', '\u{F8C}');
    push_range(v, '\u{1000}', '\u{102A}');
    assert(rview(v@) =~= o + xid_start_chunk_19());
}

fn push_xid_start_chunk_20(v: &mut Vec<ClassUnicodeRange>)
    ensures
        rview(final(v)@) == rview(old(v)@) + xid_start_chunk_20(),
{
    let ghost o = rview(v@);
    push_range(v, '\u{103F}', '\u{103F}');
    push_range(v, '\u{1050}', '\u{1055}');
    push_range(v, '\u{105A}', '\u{105D}');
    push_range(v, '\u{1061}', '\u{1061}');
    push_range(v, '\u{1065}', '\u{1066}');
    push_range(v, '\u{106E}', '\u{1070}');
    push_range(v, '\u{1075}', '\u{1081}');
    push_range(v, '\u{108E}', '\u{108E}');
    assert(rview(v@) =~= o + xid_start_chunk_20());
}

fn push_xid_start_chunk_21(v: &mut Vec<ClassUnicodeRange>)
    ensures
        rview(final(v)@) == rview(old(v)@) + xid_start_chunk_21(),
{
    let ghost o = rview(v@);
    push_range(v, '\u{10A0}', '\u{10C5}');
    push_range(v, '\u{10C7}', '\u{10C7}');
    push_range(v, '\u{10CD}', '\u{10CD}');
    push_range(v, '\u{10D0}', '\u{10FA}');
    push_range(v, '\u{10FC}', '\u{1248}');
    push_range(v, '\u{124A}', '\u{124D}');
    push_range(v, '\u{1250}', '\u{1256}');
    push_range(v, '\u{1258}', '\u{1258}');
    assert(rview(v@) =~= o + xid_start_chunk_21());
}

fn push_xid_start_chunk_22(v: &mut Vec<ClassUnicodeRange>)
    ensures
        rview(final(v)@) == rview(old(v)@) + xid_start_chunk_22(),
{
    let ghost o = rview(v@);
    push_range(v, '\u{125A}', '\u{125D}');
    push_range(v, '\u{1260}', '\u{1288}');
    push_range(v, '\u{128A}', '\u{128D}');
    push_range(v, '\u{1290}', '\u{12B0}');
    push_range(v, '\u{12B2}', '\u{12B5}');
    push_range(v, '\u{12B8}', '\u{12BE}');
    push_range(v, '\u{12C0}', '\u{12C0}');
    push_range(v, '\u{12C2}', '\u{12C5}');
    assert(rview(v@) =~= o + xid_start_chunk_22());
}

fn push_xid_start_chunk_23(v: &mut Vec<ClassUnicodeRange>)
    ensures
        rview(final(v)@) == rview(old(v)@) + xid_start_chunk_23(),
{
    let ghost o = rview(v@);
    push_range(v, '\u{12C8}', '\u{12D6}');
    push_range(v, '\u{12D8}', '\u{1310}');
    push_range(v, '\u{1312}', '\u{1315}');
    push_range(v, '\u{1318}', '\u{135A}');
    push_range(v, '\u{1380}', '\u{138F}');
    push_range(v, '\u{13A0}', '\u{13F5}');
    push_range(v, '\u{13F8}', '\u{13FD}');
    push_range(v, '\u{1401}', '\u{166C}');
    assert(rview(v@) =~= o + xid_start_chunk_23());
}

fn push_xid_start_chunk_24(v: &mut Vec<ClassUnicodeRange>)
    ensures
        rview(final(v)@) == rview(old(v)@) + xid_start_chunk_24(),
{
    let ghost o = rview(v@);
    push_range(v, '\u{166F}', '\u{167F}');
    push_range(v, '\u{1681}', '\u{169A}');
    push_range(v, '\u{16A0}', '\u{16EA}');
    push_range(v, '\u{16EE}', '\u{16F8}');
    push_range(v, '\u{1700}', '\u{1711}');
    push_range(v, '\u{171F}', '\u{1731}');
    push_range(v, '\u{1740}', '\u{1751}');
    push_range(v, '\u{1760}', '\u{176C}');
    assert(rview(v@) =~= o + xid_start_chunk_24());
}

fn push_xid_start_chunk_25(v: &mut Vec<ClassUnicodeRange>)
    ensures
        rview(final(v)@) == rview(old(v)@) + xid_start_chunk_25(),
{
    let ghost o = rview(v@);
    push_range(v, '\u{176E}', '\u{1770}');
    push_range(v, '\u{1780}', '\u{17B3}');
    push_range(v, '\u{17D7}', '\u{17D7}');
    push_range(v, '\u{17DC}', '\u{17DC}');
    push_range(v, '\u{1820}', '\u{1878}');
    push_range(v, '\u{1880}', '\u{18A8}');
    push_range(v, '\u{18AA}', '\u{18AA}');
    push_range(v, '\u{18B0}', '\u{18F5}');
    assert(rview(v@) =~= o + xid_start_chunk_25());
}

fn push_xid_start_chunk_26(v: &mut Vec<ClassUnicodeRange>)
    ensures
        rview(final(v)@) == rview(old(v)@) + xid_start_chunk_26(),
{
    let ghost o = rview(v@);
    push_range(v, '\u{1900}', '\u{191E}');
    push_range(v, '\u{1950}', '\u{196D}');
    push_range(v, '\u{1970}', '\u{1974}');
    push_range(v, '\u{1980}', '\u{19AB}');
    push_range(v, '\u{19B0}', '\u{19C9}');
    push_range(v, '\u{1A00}', '\u{1A16}');
    push_range(v, '\u{1A20}', '\u{1A54}');
    push_range(v, '\u{1AA7}', '\u{1AA7}');
    assert(rview(v@) =~= o + xid_start_chunk_26());
}

fn push_xid_start_chunk_27(v: &mut Vec<ClassUnicodeRange>)
    ensures
        rview(final(v)@) == rview(old(v)@) + xid_start_chunk_27(),
{
    let ghost o = rview(v@);
    push_range(v, '\u{1B05}', '\u{1B33}');
    push_range(v, '\u{1B45}', '\u{1B4C}');
    push_range(v, '\u{1B83}', '\u{1BA0}');
    push_range(v, '\u{1BAE}', '\u{1BAF}');
    push_range(v, '\u{1BBA}', '\u{1BE5}');
    push_range(v, '\u{1C00}', '\u{1C23}');
    push_range(v, '\u{1C4D}', '\u{1C4F}');
    push_range(v, '\u{1C5A}', '\u{1C7D}');
    assert(rview(v@) =~= o + xid_start_chunk_27());
}

fn push_xid_start_chunk_28(v: &mut Vec<ClassUnicodeRange>)
    ensures
        rview(final(v)@) == rview(old(v)@) + xid_start_chunk_28(),
{
    let ghost o = rview(v@);
    push_range(v, '\u{1C80}', '\u{1C8A}');
    push_range(v, '\u{1C90}', '\u{1CBA}');
    push_range(v, '\u{1CBD}', '\u{1CBF}');
    push_range(v, '\u{1CE9}', '\u{1CEC}');
    push_range(v, '\u{1CEE}', '\u{1CF3}');
    push_range(v, '\u{1CF5}', '\u{1CF6}');
    push_range(v, '\u{1CFA}', '\u{1CFA}');
    push_range(v, '\u{1D00}', '\u{1DBF}');
    assert(rview(v@) =~= o + xid_start_chunk_28());
}

fn push_xid_start_chunk_29(v: &mut Vec<ClassUnicodeRange>)
    ensures
        rview(final(v)@) == rview(old(v)@) + xid_start_chunk_29(),
{
    let ghost o = rview(v@);
    push_range(v, '\u{1E00}', '\u{1F15}');
    push_range(v, '\u{1F18}', '\u{1F1D}');
    push_range(v, '\u{1F20}', '\u{1F45}');
    push_range(v, '\u{1F48}', '\u{1F4D}');
    push_range(v, '\u{1F50}', '\u{1F57}');
    push_range(v, '\u{1F59}', '\u{1F59}');
    push_range(v, '\u{1F5B}', '\u{1F5B}');
    push_range(v, '\u{1F5D}', '\u{1F5D}');
    assert(rview(v@) =~= o + xid_start_chunk_29());
}

fn push_xid_start_chunk_30(v: &mut Vec<ClassUnicodeRange>)
    ensures
        rview(final(v)@) == rview(old(v)@) + xid_start_chunk_30(),
{
    let ghost o = rview(v@);
    push_range(v, '\u{1F5F}', '\u{1F7D}');
    push_range(v, '\u{1F80}', '\u{1FB4}');
    push_range(v, '\u{1FB6}', '\u{1FBC}');
    push_range(v, '\u{1FBE}', '\u{1FBE}');
    push_range(v, '\u{1FC2}', '\u{1FC4}');
    push_range(v, '\u{1FC6}', '\u{1FCC}');
    push_range(v, '\u{1FD0}', '\u{1FD3}');
    push_range(v, '\u{1FD6}', '\u{1FDB}');
    assert(rview(v@) =~= o + xid_start_chunk_30());
}

fn push_xid_start_chunk_31(v: &mut Vec<ClassUnicodeRange>)
    ensures
        rview(final(v)@) == rview(old(v)@) + xid_start_chunk_31(),
{
    let ghost o = rview(v@);
    push_range(v, '\u{1FE0}', '\u{1FEC}');
    push_range(v, '\u{1FF2}', '\u{1FF4}');
    push_range(v, '\u{1FF6}', '\u{1FFC}');
    push_range(v, '\u{2071}', '\u{2071}');
    push_range(v, '\u{207F}', '\u{207F}');
    push_range(v, '\u{2090}', '\u{209C}');
    push_range(v, '\u{2102}', '\u{2102}');
    push_range(v, '\u{2107}', '\u{2107}');
    assert(rview(v@) =~= o + xid_start_chunk_31());
}

fn push_xid_start_chunk_32(v: &mut Vec<ClassUnicodeRange>)
    ensures
        rview(final(v)@) == rview(old(v)@) + xid_start_chunk_32(),
{
    let ghost o = rview(v@);
    push_range(v, '\u{210A}', '\u{2113}');
    push_range(v, '\u{2115}', '\u{2115}');
    push_range(v, '\u{2118}', '\u{211D}');
    push_range(v, '\u{2124}', '\u{2124}');
    push_range(v, '\u{2126}', '\u{2126}');
    push_range(v, '\u{2128}', '\u{2128}');
    push_range(v, '\u{212A}', '\u{2139}');
    push_range(v, '\u{213C}', '\u{213F}');
    assert(rview(v@) =~= o + xid_start_chunk_32());
}

fn push_xid_start_chunk_33(v: &mut Vec<ClassUnicodeRange>)
    ensures
        rview(final(v)@) == rview(old(v)@) + xid_start_chunk_33(),
{
    let ghost o = rview(v@);
    push_range(v, '\u{2145}', '\u{2149}');
    push_range(v, '\u{214E}', '\u{214E}');
    push_range(v, '\u{2160}', '\u{2188}');
    push_range(v, '\u{2C00}', '\u{2CE4}');
    push_range(v, '\u{2CEB}', '\u{2CEE}');
    push_range(v, '\u{2CF2}', '\u{2CF3}');
    push_range(v, '\u{2D00}', '\u{2D25}');
    push_range(v, '\u{2D27}', '\u{2D27}');
    assert(rview(v@) =~= o + xid_start_chunk_33());
}

fn push_xid_start_chunk_34(v: &mut Vec<ClassUnicodeRange>)
    ensures
        rview(final(v)@) == rview(old(v)@) + xid_start_chunk_34(),
{
    let ghost o = rview(v@);
    push_range(v, '\u{2D2D}', '\u{2D2D}');
    push_range(v, '\u{2D30}', '\u{2D67}');
    push_range(v, '\u{2D6F}', '\u{2D6F}');
    push_range(v, '\u{2D80}', '\u{2D96}');
    push_range(v, '\u{2DA0}', '\u{2DA6}');
    push_range(v, '\u{2DA8}', '\u{2DAE}');
    push_range(v, '\u{2DB0}', '\u{2DB6}');
    push_range(v, '\u{2DB8}', '\u{2DBE}');
    assert(rview(v@) =~= o + xid_start_chunk_34());
}

fn push_xid_start_chunk_35(v: &mut Vec<ClassUnicodeRange>)
    ensures
        rview(final(v)@) == rview(old(v)@) + xid_start_chunk_35(),
{
    let ghost o = rview(v@);
    push_range(v, '\u{2DC0}', '\u{2DC6}');
    push_range(v, '\u{2DC8}', '\u{2DCE}');
    push_range(v, '\u{2DD0}', '\u{2DD6}');
    push_range(v, '\u{2DD8}', '\u{2DDE}');
    push_range(v, '\u{3005}', '\u{3007}');
    push_range(v, '\u{3021}', '\u{3029}');
    push_range(v, '\u{3031}', '\u{3035}');
    push_range(v, '\u{3038}', '\u{303C}');
    assert(rview(v@) =~= o + xid_start_chunk_35());
}

fn push_xid_start_chunk_36(v: &mut Vec<ClassUnicodeRange>)
    ensures
        rview(final(v)@) == rview(old(v)@) + xid_start_chunk_36(),
{
    let ghost o = rview(v@);
    push_range(v, '\u{3041}', '\u{3096}');
    push_range(v, '\u{309D}', '\u{309F}');
    push_range(v, '\u{30A1}', '\u{30FA}');
    push_range(v, '\u{30FC}', '\u{30FF}');
    push_range(v, '\u{3105}', '\u{312F}');
    push_range(v, '\u{3131}', '\u{318E}');
    push_range(v, '\u{31A0}', '\u{31BF}');
    push_range(v, '\u{31F0}', '\u{31FF}');
    assert(rview(v@) =~= o + xid_start_chunk_36());
}

fn push_xid_start_chunk_37(v: &mut Vec<ClassUnicodeRange>)
    ensures
        rview(final(v)@) == rview(old(v)@) + xid_start_chunk_37(),
{
    let ghost o = rview(v@);
    push_range(v, '\u{3400}', '\u{4DBF}');
    push_range(v, '\u{4E00}', '\u{A48C}');
    push_range(v, '\u{A4D0}', '\u{A4FD}');
    push_range(v, '\u{A500}', '\u{A60C}');
    push_range(v, '\u{A610}', '\u{A61F}');
    push_range(v, '\u{A62A}', '\u{A62B}');
    push_range(v, '\u{A640}', '\u{A66E}');
    push_range(v, '\u{A67F}', '\u{A69D}');
    assert(rview(v@) =~= o + xid_start_chunk_37());
}

fn push_xid_start_chunk_38(v: &mut Vec<ClassUnicodeRange>)
    ensures
        rview(final(v)@) == rview(old(v)@) + xid_start_chunk_38(),
{
    let ghost o = rview(v@);
    push_range(v, '\u{A6A0}', '\u{A6EF}');
    push_range(v, '\u{A717}', '\u{A71F}');
    push_range(v, '\u{A722}', '\u{A788}');
    push_range(v, '\u{A78B}', '\u{A7CD}');
    push_range(v, '\u{A7D0}', '\u{A7D1}');
    push_range(v, '\u{A7D3}', '\u{A7D3}');
    push_range(v, '\u{A7D5}', '\u{A7DC}');
    push_range(v, '\u{A7F2}', '\u{A801}');
    assert(rview(v@) =~= o + xid_start_chunk_38());
}

fn push_xid_start_chunk_39(v: &mut Vec<ClassUnicodeRange>)
    ensures
        rview(final(v)@) == rview(old(v)@) + xid_start_chunk_39(),
{
    let ghost o = rview(v@);
    push_range(v, '\u{A803}', '\u{A805}');
    push_range(v, '\u{A807}', '\u{A80A}');
    push_range(v, '\u{A80C}', '\u{A822}');
    push_range(v, '\u{A840}', '\u{A873}');
    push_range(v, '\u{A882}', '\u{A8B3}');
    push_range(v, '\u{A8F2}', '\u{A8F7}');
    push_range(v, '\u{A8FB}', '\u{A8FB}');
    push_range(v, '\u{A8FD}', '\u{A8FE}');
    assert(rview(v@) =~= o + xid_start_chunk_39());
}

fn push_xid_start_chunk_40(v: &mut Vec<ClassUnicodeRange>)
    ensures
        rview(final(v)@) == rview(old(v)@) + xid_start_chunk_40(),
{
    let ghost o = rview(v@);
    push_range(v, '\u{A90A}', '\u{A925}');
    push_range(v, '\u{A930}', '\u{A946}');
    push_range(v, '\u{A960}', '\u{A97C}');
    push_range(v, '\u{A984}', '\u{A9B2}');
    push_range(v, '\u{A9CF}', '\u{A9CF}');
    push_range(v, '\u{A9E0}', '\u{A9E4}');
    push_range(v, '\u{A9E6}', '\u{A9EF}');
    push_range(v, '\u{A9FA}', '\u{A9FE}');
    assert(rview(v@) =~= o + xid_start_chunk_40());
}

fn push_xid_start_chunk_41(v: &mut Vec<ClassUnicodeRange>)
    ensures
        rview(final(v)@) == rview(old(v)@) + xid_start_chunk_41(),
{
    let ghost o = rview(v@);
    push_range(v, '\u{AA00}', '\u{AA28}');
    push_range(v, '\u{AA40}', '\u{AA42}');
    push_range(v, '\u{AA44}', '\u{AA4B}');
    push_range(v, '\u{AA60}', '\u{AA76}');
    push_range(v, '\u{AA7A}', '\u{AA7A}');
    push_range(v, '\u{AA7E}', '\u{AAAF}');
    push_range(v, '\u{AAB1}', '\u{AAB1}');
    push_range(v, '\u{AAB5}', '\u{AAB6}');
    assert(rview(v@) =~= o + xid_start_chunk_41());
}

fn push_xid_start_chunk_42(v: &mut Vec<ClassUnicodeRange>)
    ensures
        rview(final(v)@) == rview(old(v)@) + xid_start_chunk_42(),
{
    let ghost o = rview(v@);
    push_range(v, '\u{AAB9}', '\u{AABD}');
    push_range(v, '\u{AAC0}', '\u{AAC0}');
    push_range(v, '\u{AAC2}', '\u{AAC2}');
    push_range(v, '\u{AADB}', '\u{AADD}');
    push_range(v, '\u{AAE0}', '\u{AAEA}');
    push_range(v, '\u{AAF2}', '\u{AAF4}');
    push_range(v, '\u{AB01}', '\u{AB06}');
    push_range(v, '\u{AB09}', '\u{AB0E}');
    assert(rview(v@) =~= o + xid_start_chunk_42());
}

fn push_xid_start_chunk_43(v: &mut Vec<ClassUnicodeRange>)
    ensures
        rview(final(v)@) == rview(old(v)@) + xid_start_chunk_43(),
{
    let ghost o = rview(v@);
    push_range(v, '\u{AB11}', '\u{AB16}');
    push_range(v, '\u{AB20}', '\u{AB26}');
    push_range(v, '\u{AB28}', '\u{AB2E}');
    push_range(v, '\u{AB30}', '\u{AB5A}');
    push_range(v, '\u{AB5C}', '\u{AB69}');
    push_range(v, '\u{AB70}', '\u{ABE2}');
    push_range(v, '\u{AC00}', '\u{D7A3}');
    push_range(v, '\u{D7B0}', '\u{D7C6}');
    assert(rview(v@) =~= o + xid_start_chunk_43());
}

fn push_xid_start_chunk_44(v: &mut Vec<ClassUnicodeRange>)
    ensures
        rview(final(v)@) == rview(old(v)@) + xid_start_chunk_44(),
{
    let ghost o = rview(v@);
    push_range(v, '\u{D7CB}', '\u{D7FB}');
    push_range(v, '\u{F900}', '\u{FA6D}');
    push_range(v, '\u{FA70}', '\u{FAD9}');
    push_range(v, '\u{FB00}', '\u{FB06}');
    push_range(v, '\u{FB13}', '\u{FB17}');
    push_range(v, '\u{FB1D}', '\u{FB1D}');
    push_range(v, '\u{FB1F}', '\u{FB28}');
    push_range(v, '\u{FB2A}', '\u{FB36}');
    assert(rview(v@) =~= o + xid_start_chunk_44());
}

fn push_xid_start_chunk_45(v: &mut Vec<ClassUnicodeRange>)
    ensures
        rview(final(v)@) == rview(old(v)@) + xid_start_chunk_45(),
{
    let ghost o = rview(v@);
    push_range(v, '\u{FB38}', '\u{FB3C}');
    push_range(v, '\u{FB3E}', '\u{FB3E}');
    push_range(v, '\u{FB40}', '\u{FB41}');
    push_range(v, '\u{FB43}', '\u{FB44}');
    push_range(v, '\u{FB46}', '\u{FBB1}');
    push_range(v, '\u{FBD3}', '\u{FC5D}');
    push_range(v, '\u{FC64}', '\u{FD3D}');
    push_range(v, '\u{FD50}', '\u{FD8F}');
    assert(rview(v@) =~= o + xid_start_chunk_45());
}

fn push_xid_start_chunk_46(v: &mut Vec<ClassUnicodeRange>)
    ensures
        rview(final(v)@) == rview(old(v)@) + xid_start_chunk_46(),
{
    let ghost o = rview(v@);
    push_range(v, '\u{FD92}', '\u{FDC7}');
    push_range(v, '\u{FDF0}', '\u{FDF9}');
    push_range(v, '\u{FE71}', '\u{FE71}');
    push_range(v, '\u{FE73}', '\u{FE73}');
    push_range(v, '\u{FE77}', '\u{FE77}');
    push_range(v, '\u{FE79}', '\u{FE79}');
    push_range(v, '\u{FE7B}', '\u{FE7B}');
    push_range(v, '\u{FE7D}', '\u{FE7D}');
    assert(rview(v@) =~= o + xid_start_chunk_46());
}

fn push_xid_start_chunk_47(v: &mut Vec<ClassUnicodeRange>)
    ensures
        rview(final(v)@) == rview(old(v)@) + xid_start_chunk_47(),
{
    let ghost o = rview(v@);
    push_range(v, '\u{FE7F}', '\u{FEFC}');
    push_range(v, '\u{FF21}', '\u{FF3A}');
    push_range(v, '\u{FF41}', '\u{FF5A}');
    push_range(v, '\u{FF66}', '\u{FF9D}');
    push_range(v, '\u{FFA0}', '\u{FFBE}');
    push_range(v, '\u{FFC2}', '\u{FFC7}');
    push_range(v, '\u{FFCA}', '\u{FFCF}');
    push_range(v, '\u{FFD2}', '\u{FFD7}');
    assert(rview(v@) =~= o + xid_start_chunk_47());
}

fn push_xid_start_chunk_48(v: &mut Vec<ClassUnicodeRange>)
    ensures
        rview(final(v)@) == rview(old(v)@) + xid_start_chunk_48(),
{
    let ghost o = rview(v@);
    push_range(v, '\u{FFDA}', '\u{FFDC}');
    push_range(v, '\u{10000}', '\u{1000B}');
    push_range(v, '\u{1000D}', '\u{10026}');
    push_range(v, '\u{10028}', '\u{1003A}');
    push_range(v, '\u{1003C}', '\u{1003D}');
    push_range(v, '\u{1003F}', '\u{1004D}');
    push_range(v, '\u{10050}', '\u{1005D}');
    push_range(v, '\u{10080}', '\u{100FA}');
    assert(rview(v@) =~= o + xid_start_chunk_48());
}

fn push_xid_start_chunk_49(v: &mut Vec<ClassUnicodeRange>)
    ensures
        rview(final(v)@) == rview(old(v)@) + xid_start_chunk_49(),
{
    let ghost o = rview(v@);
    push_range(v, '\u{10140}', '\u{10174}');
    push_range(v, '\u{10280}', '\u{1029C}');
    push_range(v, '\u{102A0}', '\u{102D0}');
    push_range(v, '\u{10300}', '\u{1031F}');
    push_range(v, '\u{1032D}', '\u{1034A}');
    push_range(v, '\u{10350}', '\u{10375}');
    push_range(v, '\u{10380}', '\u{1039D}');
    push_range(v, '\u{103A0}', '\u{103C3}');
    assert(rview(v@) =~= o + xid_start_chunk_49());
}

fn push_xid_start_chunk_50(v: &mut Vec<ClassUnicodeRange>)
    ensures
        rview(final(v)@) == rview(old(v)@) + xid_start_chunk_50(),
{
    let ghost o = rview(v@);
    push_range(v, '\u{103C8}', '\u{103CF}');
    push_range(v, '\u{103D1}', '\u{103D5}');
    push_range(v, '\u{10400}', '\u{1049D}');
    push_range(v, '\u{104B0}', '\u{104D3}');
    push_range(v, '\u{104D8}', '\u{104FB}');
    push_range(v, '\u{10500}', '\u{10527}');
    push_range(v, '\u{10530}', '\u{10563}');
    push_range(v, '\u{10570}', '\u{1057A}');
    assert(rview(v@) =~= o + xid_start_chunk_50());
}

fn push_xid_start_chunk_51(v: &mut Vec<ClassUnicodeRange>)
    ensures
        rview(final(v)@) == rview(old(v)@) + xid_start_chunk_51(),
{
    let ghost o = rview(v@);
    push_range(v, '\u{1057C}', '\u{1058A}');
    push_range(v, '\u{1058C}', '\u{10592}');
    push_range(v, '\u{10594}', '\u{10595}');
    push_range(v, '\u{10597}', '\u{105A1}');
    push_range(v, '\u{105A3}', '\u{105B1}');
    push_range(v, '\u{105B3}', '\u{105B9}');
    push_range(v, '\u{105BB}', '\u{105BC}');
    push_range(v, '\u{105C0}', '\u{105F3}');
    assert(rview(v@) =~= o + xid_start_chunk_51());
}

fn push_xid_start_chunk_52(v: &mut Vec<ClassUnicodeRange>)
    ensures
        rview(final(v)@) == rview(old(v)@) + xid_start_chunk_52(),
{
    let ghost o = rview(v@);
    push_range(v, '\u{10600}', '\u{10736}');
    push_range(v, '\u{10740}', '\u{10755}');
    push_range(v, '\u{10760}', '\u{10767}');
    push_range(v, '\u{10780}', '\u{10785}');
    push_range(v, '\u{10787}', '\u{107B0}');
    push_range(v, '\u{107B2}', '\u{107BA}');
    push_range(v, '\u{10800}', '\u{10805}');
    push_range(v, '\u{10808}', '\u{10808}');
    assert(rview(v@) =~= o + xid_start_chunk_52());
}

fn push_xid_start_chunk_53(v: &mut Vec<ClassUnicodeRange>)
    ensures
        rview(final(v)@) == rview(old(v)@) + xid_start_chunk_53(),
{
    let ghost o = rview(v@);
    push_range(v, '\u{1080A}', '\u{10835}');
    push_range(v, '\u{10837}', '\u{10838}');
    push_range(v, '\u{1083C}', '\u{1083C}');
    push_range(v, '\u{1083F}', '\u{10855}');
    push_range(v, '\u{10860}', '\u{10876}');
    push_range(v, '\u{10880}', '\u{1089E}');
    push_range(v, '\u{108E0}', '\u{108F2}');
    push_range(v, '\u{108F4}', '\u{108F5}');
    assert(rview(v@) =~= o + xid_start_chunk_53());
}

fn push_xid_start_chunk_54(v: &mut Vec<ClassUnicodeRange>)
    ensures
        rview(final(v)@) == rview(old(v)@) + xid_start_chunk_54(),
{
    let ghost o = rview(v@);
    push_range(v, '\u{10900}', '\u{10915}');
    push_range(v, '\u{10920}', '\u{10939}');
    push_range(v, '\u{10980}', '\u{109B7}');
    push_range(v, '\u{109BE}', '\u{109BF}');
    push_range(v, '\u{10A00}', '\u{10A00}');
    push_range(v, '\u{10A10}', '\u{10A13}');
    push_range(v, '\u{10A15}', '\u{10A17}');
    push_range(v, '\u{10A19}', '\u{10A35}');
    assert(rview(v@) =~= o + xid_start_chunk_54());
}

fn push_xid_start_chunk_55(v: &mut Vec<ClassUnicodeRange>)
    ensures
        rview(final(v)@) == rview(old(v)@) + xid_start_chunk_55(),
{
    let ghost o = rview(v@);
    push_range(v, '\u{10A60}', '\u{10A7C}');
    push_range(v, '\u{10A80}', '\u{10A9C}');
    push_range(v, '\u{10AC0}', '\u{10AC7}');
    push_range(v, '\u{10AC9}', '\u{10AE4}');
    push_range(v, '\u{10B00}', '\u{10B35}');
    push_range(v, '\u{10B40}', '\u{10B55}');
    push_range(v, '\u{10B60}', '\u{10B72}');
    push_range(v, '\u{10B80}', '\u{10B91}');
    assert(rview(v@) =~= o + xid_start_chunk_55());
}

fn push_xid_start_chunk_56(v: &mut Vec<ClassUnicodeRange>)
    ensures
        rview(final(v)@) == rview(old(v)@) + xid_start_chunk_56(),
{
    let ghost o = rview(v@);
    push_range(v, '\u{10C00}', '\u{10C48}');
    push_range(v, '\u{10C80}', '\u{10CB2}');
    push_range(v, '\u{10CC0}', '\u{10CF2}');
    push_range(v, '\u{10D00}', '\u{10D23}');
    push_range(v, '\u{10D4A}', '\u{10D65}');
    push_range(v, '\u{10D6F}', '\u{10D85}');
    push_range(v, '\u{10E80}', '\u{10EA9}');
    push_range(v, '\u{10EB0}', '\u{10EB1}');
    assert(rview(v@) =~= o + xid_start_chunk_56());
}

fn push_xid_start_chunk_57(v: &mut Vec<ClassUnicodeRange>)
    ensures
        rview(final(v)@) == rview(old(v)@) + xid_start_chunk_57(),
{
    let ghost o = rview(v@);
    push_range(v, '\u{10EC2}', '\u{10EC4}');
    push_range(v, '\u{10F00}', '\u{10F1C}');
    push_range(v, '\u{10F27}', '\u{10F27}');
    push_range(v, '\u{10F30}', '\u{10F45}');
    push_range(v, '\u{10F70}', '\u{10F81}');
    push_range(v, '\u{10FB0}', '\u{10FC4}');
    push_range(v, '\u{10FE0}', '\u{10FF6}');
    push_range(v, '\u{11003}', '\u{11037}');
    assert(rview(v@) =~= o + xid_start_chunk_57());
}

fn push_xid_start_chunk_58(v: &mut Vec<ClassUnicodeRange>)
    ensures
        rview(final(v)@) == rview(old(v)@) + xid_start_chunk_58(),
{
    let ghost o = rview(v@);
    push_range(v, '\u{11071}', '\u{11072}');
    push_range(v, '\u{11075}', '\u{11075}');
    push_range(v, '\u{11083}', '\u{110AF}');
    push_range(v, '\u{110D0}', '\u{110E8}');
    push_range(v, '\u{11103}', '\u{11126}');
    push_range(v, '\u{11144}', '\u{11144}');
    push_range(v, '\u{11147}', '\u{11147}');
    push_range(v, '\u{11150}', '\u{11172}');
    assert(rview(v@) =~= o + xid_start_chunk_58());
}

fn push_xid_start_chunk_59(v: &mut Vec<ClassUnicodeRange>)
    ensures
        rview(final(v)@) == rview(old(v)@) + xid_start_chunk_59(),
{
    let ghost o = rview(v@);
    push_range(v, '\u{11176}', '\u{11176}');
    push_range(v, '\u{11183}', '\u{111B2}');
    push_range(v, '\u{111C1}', '\u{111C4}');
    push_range(v, '\u{111DA}', '\u{111DA}');
    push_range(v, '\u{111DC}', '\u{111DC}');
    push_range(v, '\u{11200}', '\u{11211}');
    push_range(v, '\u{11213}', '\u{1122B}');
    push_range(v, '\u{1123F}', '\u{11240}');
    assert(rview(v@) =~= o + xid_start_chunk_59());
}

fn push_xid_start_chunk_60(v: &mut Vec<ClassUnicodeRange>)
    ensures
        rview(final(v)@) == rview(old(v)@) + xid_start_chunk_60(),
{
    let ghost o = rview(v@);
    push_range(v, '\u{11280}', '\u{11286}');
    push_range(v, '\u{11288}', '\u{11288}');
    push_range(v, '\u{1128A}', '\u{1128D}');
    push_range(v, '\u{1128F}', '\u{1129D}');
    push_range(v, '\u{1129F}', '\u{112A8}');
    push_range(v, '\u{112B0}', '\u{112DE}');
    push_range(v, '\u{11305}', '\u{1130C}');
    push_range(v, '\u{1130F}', '\u{11310}');
    assert(rview(v@) =~= o + xid_start_chunk_60());
}

fn push_xid_start_chunk_61(v: &mut Vec<ClassUnicodeRange>)
    ensures
        rview(final(v)@) == rview(old(v)@) + xid_start_chunk_61(),
{
    let ghost o = rview(v@);
    push_range(v, '\u{11313}', '\u{11328}');
    push_range(v, '\u{1132A}', '\u{11330}');
    push_range(v, '\u{11332}', '\u{11333}');
    push_range(v, '\u{11335}', '\u{11339}');
    push_range(v, '\u{1133D}', '\u{1133D}');
    push_range(v, '\u{11350}', '\u{11350}');
    push_range(v, '\u{1135D}', '\u{11361}');
    push_range(v, '\u{11380}', '\u{11389}');
    assert(rview(v@) =~= o + xid_start_chunk_61());
}

fn push_xid_start_chunk_62(v: &mut Vec<ClassUnicodeRange>)
    ensures
        rview(final(v)@) == rview(old(v)@) + xid_start_chunk_62(),
{
    let ghost o = rview(v@);
    push_range(v, '\u{1138B}', '\u{1138B}');
    push_range(v, '\u{1138E}', '\u{1138E}');
    push_range(v, '\u{11390}', '\u{113B5}');
    push_range(v, '\u{113B7}', '\u{113B7}');
    push_range(v, '\u{113D1}', '\u{113D1}');
    push_range(v, '\u{113D3}', '\u{113D3}');
    push_range(v, '\u{11400}', '\u{11434}');
    push_range(v, '\u{11447}', '\u{1144A}');
    assert(rview(v@) =~= o + xid_start_chunk_62());
}

fn push_xid_start_chunk_63(v: &mut Vec<ClassUnicodeRange>)
    ensures
        rview(final(v)@) == rview(old(v)@) + xid_start_chunk_63(),
{
    let ghost o = rview(v@);
    push_range(v, '\u{1145F}', '\u{11461}');
    push_range(v, '\u{11480}', '\u{114AF}');
    push_range(v, '\u{114C4}', '\u{114C5}');
    push_range(v, '\u{114C7}', '\u{114C7}');
    push_range(v, '\u{11580}', '\u{115AE}');
    push_range(v, '\u{115D8}', '\u{115DB}');
    push_range(v, '\u{11600}', '\u{1162F}');
    push_range(v, '\u{11644}', '\u{11644}');
    assert(rview(v@) =~= o + xid_start_chunk_63());
}

fn push_xid_start_chunk_64(v: &mut Vec<ClassUnicodeRange>)
    ensures
        rview(final(v)@) == rview(old(v)@) + xid_start_chunk_64(),
{
    let ghost o = rview(v@);
    push_range(v, '\u{11680}', '\u{116AA}');
    push_range(v, '\u{116B8}', '\u{116B8}');
    push_range(v, '\u{11700}', '\u{1171A}');
    push_range(v, '\u{11740}', '\u{11746}');
    push_range(v, '\u{11800}', '\u{1182B}');
    push_range(v, '\u{118A0}', '\u{118DF}');
    push_range(v, '\u{118FF}', '\u{11906}');
    push_range(v, '\u{11909}', '\u{11909}');
    assert(rview(v@) =~= o + xid_start_chunk_64());
}

fn push_xid_start_chunk_65(v: &mut Vec<ClassUnicodeRange>)
    ensures
        rview(final(v)@) == rview(old(v)@) + xid_start_chunk_65(),
{
    let ghost o = rview(v@);
    push_range(v, '\u{1190C}', '\u{11913}');
    push_range(v, '\u{11915}', '\u{11916}');
    push_range(v, '\u{11918}', '\u{1192F}');
    push_range(v, '\u{1193F}', '\u{1193F}');
    push_range(v, '\u{11941}', '\u{11941}');
    push_range(v, '\u{119A0}', '\u{119A7}');
    push_range(v, '\u{119AA}', '\u{119D0}');
    push_range(v, '\u{119E1}', '\u{119E1}');
    assert(rview(v@) =~= o + xid_start_chunk_65());
}

fn push_xid_start_chunk_66(v: &mut Vec<ClassUnicodeRange>)
    ensures
        rview(final(v)@) == rview(old(v)@) + xid_start_chunk_66(),
{
    let ghost o = rview(v@);
    push_range(v, '\u{119E3}', '\u{119E3}');
    push_range(v, '\u{11A00}', '\u{11A00}');
    push_range(v, '\u{11A0B}', '\u{11A32}');
    push_range(v, '\u{11A3A}', '\u{11A3A}');
    push_range(v, '\u{11A50}', '\u{11A50}');
    push_range(v, '\u{11A5C}', '\u{11A89}');
    push_range(v, '\u{11A9D}', '\u{11A9D}');
    push_range(v, '\u{11AB0}', '\u{11AF8}');
    assert(rview(v@) =~= o + xid_start_chunk_66());
}

fn push_xid_start_chunk_67(v: &mut Vec<ClassUnicodeRange>)
    ensures
        rview(final(v)@) == rview(old(v)@) + xid_start_chunk_67(),
{
    let ghost o = rview(v@);
    push_range(v, '\u{11BC0}', '\u{11BE0}');
    push_range(v, '\u{11C00}', '\u{11C08}');
    push_range(v, '\u{11C0A}', '\u{11C2E}');
    push_range(v, '\u{11C40}', '\u{11C40}');
    push_range(v, '\u{11C72}', '\u{11C8F}');
    push_range(v, '\u{11D00}', '\u{11D06}');
    push_range(v, '\u{11D08}', '\u{11D09}');
    push_range(v, '\u{11D0B}', '\u{11D30}');
    assert(rview(v@) =~= o + xid_start_chunk_67());
}

fn push_xid_start_chunk_68(v: &mut Vec<ClassUnicodeRange>)
    ensures
        rview(final(v)@) == rview(old(v)@) + xid_start_chunk_68(),
{
    let ghost o = rview(v@);
    push_range(v, '\u{11D46}', '\u{11D46}');
    push_range(v, '\u{11D60}', '\u{11D65}');
    push_range(v, '\u{11D67}', '\u{11D68}');
    push_range(v, '\u{11D6A}', '\u{11D89}');
    push_range(v, '\u{11D98}', '\u{11D98}');
    push_range(v, '\u{11EE0}', '\u{11EF2}');
    push_range(v, '\u{11F02}', '\u{11F02}');
    push_range(v, '\u{11F04}', '\u{11F10}');
    assert(rview(v@) =~= o + xid_start_chunk_68());
}

fn push_xid_start_chunk_69(v: &mut Vec<ClassUnicodeRange>)
    ensures
        rview(final(v)@) == rview(old(v)@) + xid_start_chunk_69(),
{
    let ghost o = rview(v@);
    push_range(v, '\u{11F12}', '\u{11F33}');
    push_range(v, '\u{11FB0}', '\u{11FB0}');
    push_range(v, '\u{12000}', '\u{12399}');
    push_range(v, '\u{12400}', '\u{1246E}');
    push_range(v, '\u{12480}', '\u{12543}');
    push_range(v, '\u{12F90}', '\u{12FF0}');
    push_range(v, '\u{13000}', '\u{1342F}');
    push_range(v, '\u{13441}', '\u{13446}');
    assert(rview(v@) =~= o + xid_start_chunk_69());
}

fn push_xid_start_chunk_70(v: &mut Vec<ClassUnicodeRange>)
    ensures
        rview(final(v)@) == rview(old(v)@) + xid_start_chunk_70(),
{
    let ghost o = rview(v@);
    push_range(v, '\u{13460}', '\u{143FA}');
    push_range(v, '\u{14400}', '\u{14646}');
    push_range(v, '\u{16100}', '\u{1611D}');
    push_range(v, '\u{16800}', '\u{16A38}');
    push_range(v, '\u{16A40}', '\u{16A5E}');
    push_range(v, '\u{16A70}', '\u{16ABE}');
    push_range(v, '\u{16AD0}', '\u{16AED}');
    push_range(v, '\u{16B00}', '\u{16B2F}');
    assert(rview(v@) =~= o + xid_start_chunk_70());
}

fn push_xid_start_chunk_71(v: &mut Vec<ClassUnicodeRange>)
    ensures
        rview(final(v)@) == rview(old(v)@) + xid_start_chunk_71(),
{
    let ghost o = rview(v@);
    push_range(v, '\u{16B40}', '\u{16B43}');
    push_range(v, '\u{16B63}', '\u{16B77}');
    push_range(v, '\u{16B7D}', '\u{16B8F}');
    push_range(v, '\u{16D40}', '\u{16D6C}');
    push_range(v, '\u{16E40}', '\u{16E7F}');
    push_range(v, '\u{16F00}', '\u{16F4A}');
    push_range(v, '\u{16F50}', '\u{16F50}');
    push_range(v, '\u{16F93}', '\u{16F9F}');
    assert(rview(v@) =~= o + xid_start_chunk_71());
}

fn push_xid_start_chunk_72(v: &mut Vec<ClassUnicodeRange>)
    ensures
        rview(final(v)@) == rview(old(v)@) + xid_start_chunk_72(),
{
    let ghost o = rview(v@);
    push_range(v, '\u{16FE0}', '\u{16FE1}');
    push_range(v, '\u{16FE3}', '\u{16FE3}');
    push_range(v, '\u{17000}', '\u{187F7}');
    push_range(v, '\u{18800}', '\u{18CD5}');
    push_range(v, '\u{18CFF}', '\u{18D08}');
    push_range(v, '\u{1AFF0}', '\u{1AFF3}');
    push_range(v, '\u{1AFF5}', '\u{1AFFB}');
    push_range(v, '\u{1AFFD}', '\u{1AFFE}');
    assert(rview(v@) =~= o + xid_start_chunk_72());
}

fn push_xid_start_chunk_73(v: &mut Vec<ClassUnicodeRange>)
    ensures
        rview(final(v)@) == rview(old(v)@) + xid_start_chunk_73(),
{
    let ghost o = rview(v@);
    push_range(v, '\u{1B000}', '\u{1B122}');
    push_range(v, '\u{1B132}', '\u{1B132}');
    push_range(v, '\u{1B150}', '\u{1B152}');
    push_range(v, '\u{1B155}', '\u{1B155}');
    push_range(v, '\u{1B164}', '\u{1B167}');
    push_range(v, '\u{1B170}', '\u{1B2FB}');
    push_range(v, '\u{1BC00}', '\u{1BC6A}');
    push_range(v, '\u{1BC70}', '\u{1BC7C}');
    assert(rview(v@) =~= o + xid_start_chunk_73());
}

fn push_xid_start_chunk_74(v: &mut Vec<ClassUnicodeRange>)
    ensures
        rview(final(v)@) == rview(old(v)@) + xid_start_chunk_74(),
{
    let ghost o = rview(v@);
    push_range(v, '\u{1BC80}', '\u{1BC88}');
    push_range(v, '\u{1BC90}', '\u{1BC99}');
    push_range(v, '\u{1D400}', '\u{1D454}');
    push_range(v, '\u{1D456}', '\u{1D49C}');
    push_range(v, '\u{1D49E}', '\u{1D49F}');
    push_range(v, '\u{1D4A2}', '\u{1D4A2}');
    push_range(v, '\u{1D4A5}', '\u{1D4A6}');
    push_range(v, '\u{1D4A9}', '\u{1D4AC}');
    assert(rview(v@) =~= o + xid_start_chunk_74());
}

fn push_xid_start_chunk_75(v: &mut Vec<ClassUnicodeRange>)
    ensures
        rview(final(v)@) == rview(old(v)@) + xid_start_chunk_75(),
{
    let ghost o = rview(v@);
    push_range(v, '\u{1D4AE}', '\u{1D4B9}');
    push_range(v, '\u{1D4BB}', '\u{1D4BB}');
    push_range(v, '\u{1D4BD}', '\u{1D4C3}');
    push_range(v, '\u{1D4C5}', '\u{1D505}');
    push_range(v, '\u{1D507}', '\u{1D50A}');
    push_range(v, '\u{1D50D}', '\u{1D514}');
    push_range(v, '\u{1D516}', '\u{1D51C}');
    push_range(v, '\u{1D51E}', '\u{1D539}');
    assert(rview(v@) =~= o + xid_start_chunk_75());
}

fn push_xid_start_chunk_76(v: &mut Vec<ClassUnicodeRange>)
    ensures
        rview(final(v)@) == rview(old(v)@) + xid_start_chunk_76(),
{
    let ghost o = rview(v@);
    push_range(v, '\u{1D53B}', '\u{1D53E}');
    push_range(v, '\u{1D540}', '\u{1D544}');
    push_range(v, '\u{1D546}', '\u{1D546}');
    push_range(v, '\u{1D54A}', '\u{1D550}');
    push_range(v, '\u{1D552}', '\u{1D6A5}');
    push_range(v, '\u{1D6A8}', '\u{1D6C0}');
    push_range(v, '\u{1D6C2}', '\u{1D6DA}');
    push_range(v, '\u{1D6DC}', '\u{1D6FA}');
    assert(rview(v@) =~= o + xid_start_chunk_76());
}

fn push_xid_start_chunk_77(v: &mut Vec<ClassUnicodeRange>)
    ensures
        rview(final(v)@) == rview(old(v)@) + xid_start_chunk_77(),
{
    let ghost o = rview(v@);
    push_range(v, '\u{1D6FC}', '\u{1D714}');
    push_range(v, '\u{1D716}', '\u{1D734}');
    push_range(v, '\u{1D736}', '\u{1D74E}');
    push_range(v, '\u{1D750}', '\u{1D76E}');
    push_range(v, '\u{1D770}', '\u{1D788}');
    push_range(v, '\u{1D78A}', '\u{1D7A8}');
    push_range(v, '\u{1D7AA}', '\u{1D7C2}');
    push_range(v, '\u{1D7C4}', '\u{1D7CB}');
    assert(rview(v@) =~= o + xid_start_chunk_77());
}

fn push_xid_start_chunk_78(v: &mut Vec<ClassUnicodeRange>)
    ensures
        rview(final(v)@) == rview(old(v)@) + xid_start_chunk_78(),
{
    let ghost o = rview(v@);
    push_range(v, '\u{1DF00}', '\u{1DF1E}');
    push_range(v, '\u{1DF25}', '\u{1DF2A}');
    push_range(v, '\u{1E030}', '\u{1E06D}');
    push_range(v, '\u{1E100}', '\u{1E12C}');
    push_range(v, '\u{1E137}', '\u{1E13D}');
    push_range(v, '\u{1E14E}', '\u{1E14E}');
    push_range(v, '\u{1E290}', '\u{1E2AD}');
    push_range(v, '\u{1E2C0}', '\u{1E2EB}');
    assert(rview(v@) =~= o + xid_start_chunk_78());
}

fn push_xid_start_chunk_79(v: &mut Vec<ClassUnicodeRange>)
    ensures
        rview(final(v)@) == rview(old(v)@) + xid_start_chunk_79(),
{
    let ghost o = rview(v@);
    push_range(v, '\u{1E4D0}', '\u{1E4EB}');
    push_range(v, '\u{1E5D0}', '\u{1E5ED}');
    push_range(v, '\u{1E5F0}', '\u{1E5F0}');
    push_range(v, '\u{1E7E0}', '\u{1E7E6}');
    push_range(v, '\u{1E7E8}', '\u{1E7EB}');
    push_range(v, '\u{1E7ED}', '\u{1E7EE}');
    push_range(v, '\u{1E7F0}', '\u{1E7FE}');
    push_range(v, '\u{1E800}', '\u{1E8C4}');
    assert(rview(v@) =~= o + xid_start_chunk_79());
}

fn push_xid_start_chunk_80(v: &mut Vec<ClassUnicodeRange>)
    ensures
        rview(final(v)@) == rview(old(v)@) + xid_start_chunk_80(),
{
    let ghost o = rview(v@);
    push_range(v, '\u{1E900}', '\u{1E943}');
    push_range(v, '\u{1E94B}', '\u{1E94B}');
    push_range(v, '\u{1EE00}', '\u{1EE03}');
    push_range(v, '\u{1EE05}', '\u{1EE1F}');
    push_range(v, '\u{1EE21}', '\u{1EE22}');
    push_range(v, '\u{1EE24}', '\u{1EE24}');
    push_range(v, '\u{1EE27}', '\u{1EE27}');
    push_range(v, '\u{1EE29}', '\u{1EE32}');
    assert(rview(v@) =~= o + xid_start_chunk_80());
}

fn push_xid_start_chunk_81(v: &mut Vec<ClassUnicodeRange>)
    ensures
        rview(final(v)@) == rview(old(v)@) + xid_start_chunk_81(),
{
    let ghost o = rview(v@);
    push_range(v, '\u{1EE34}', '\u{1EE37}');
    push_range(v, '\u{1EE39}', '\u{1EE39}');
    push_range(v, '\u{1EE3B}', '\u{1EE3B}');
    push_range(v, '\u{1EE42}', '\u{1EE42}');
    push_range(v, '\u{1EE47}', '\u{1EE47}');
    push_range(v, '\u{1EE49}', '\u{1EE49}');
    push_range(v, '\u{1EE4B}', '\u{1EE4B}');
    push_range(v, '\u{1EE4D}', '\u{1EE4F}');
    assert(rview(v@) =~= o + xid_start_chunk_81());
}

fn push_xid_start_chunk_82(v: &mut Vec<ClassUnicodeRange>)
    ensures
        rview(final(v)@) == rview(old(v)@) + xid_start_chunk_82(),
{
    let ghost o = rview(v@);
    push_range(v, '\u{1EE51}', '\u{1EE52}');
    push_range(v, '\u{1EE54}', '\u{1EE54}');
    push_range(v, '\u{1EE57}', '\u{1EE57}');
    push_range(v, '\u{1EE59}', '\u{1EE59}');
    push_range(v, '\u{1EE5B}', '\u{1EE5B}');
    push_range(v, '\u{1EE5D}', '\u{1EE5D}');
    push_range(v, '\u{1EE5F}', '\u{1EE5F}');
    push_range(v, '\u{1EE61}', '\u{1EE62}');
    assert(rview(v@) =~= o + xid_start_chunk_82());
}

fn push_xid_start_chunk_83(v: &mut Vec<ClassUnicodeRange>)
    ensures
        rview(final(v)@) == rview(old(v)@) + xid_start_chunk_83(),
{
    let ghost o = rview(v@);
    push_range(v, '\u{1EE64}', '\u{1EE64}');
    push_range(v, '\u{1EE67}', '\u{1EE6A}');
    push_range(v, '\u{1EE6C}', '\u{1EE72}');
    push_range(v, '\u{1EE74}', '\u{1EE77}');
    push_range(v, '\u{1EE79}', '\u{1EE7C}');
    push_range(v, '\u{1EE7E}', '\u{1EE7E}');
    push_range(v, '\u{1EE80}', '\u{1EE89}');
    push_range(v, '\u{1EE8B}', '\u{1EE9B}');
    assert(rview(v@) =~= o + xid_start_chunk_83());
}

fn push_xid_start_chunk_84(v: &mut Vec<ClassUnicodeRange>)
    ensures
        rview(final(v)@) == rview(old(v)@) + xid_start_chunk_84(),
{
    let ghost o = rview(v@);
    push_range(v, '\u{1EEA1}', '\u{1EEA3}');
    push_range(v, '\u{1EEA5}', '\u{1EEA9}');
    push_range(v, '\u{1EEAB}', '\u{1EEBB}');
    push_range(v, '\u{20000}', '\u{2A6DF}');
    push_range(v, '\u{2A700}', '\u{2B739}');
    push_range(v, '\u{2B740}', '\u{2B81D}');
    push_range(v, '\u{2B820}', '\u{2CEA1}');
    push_range(v, '\u{2CEB0}', '\u{2EBE0}');
    assert(rview(v@) =~= o + xid_start_chunk_84());
}

fn push_xid_start_chunk_85(v: &mut Vec<ClassUnicodeRange>)
    ensures
        rview(final(v)@) == rview(old(v)@) + xid_start_chunk_85(),
{
    let ghost o = rview(v@);
    push_range(v, '\u{2EBF0}', '\u{2EE5D}');
    push_range(v, '\u{2F800}', '\u{2FA1D}');
    push_range(v, '\u{30000}', '\u{3134A}');
    push_range(v, '\u{31350}', '\u{323AF}');
    assert(rview(v@) =~= o + xid_start_chunk_85());
}

fn push_xid_start_block_0(v: &mut Vec<ClassUnicodeRange>)
    ensures
        rview(final(v)@) == rview(old(v)@) + xid_start_block_0(),
{
    let ghost o = rview(v@);
    push_xid_start_chunk_0(v);
    assert(rview(v@) =~= o + (xid_start_chunk_0()));
    push_xid_start_chunk_1(v);
    assert(rview(v@) =~= o + (xid_start_chunk_0() + xid_start_chunk_1()));
    push_xid_start_chunk_2(v);
    assert(rview(v@) =~= o + (xid_start_chunk_0() + xid_start_chunk_1() + xid_start_chunk_2()));
    push_xid_start_chunk_3(v);
    assert(rview(v@) =~= o + (xid_start_chunk_0() + xid_start_chunk_1() + xid_start_chunk_2() + xid_start_chunk_3()));
    push_xid_start_chunk_4(v);
    assert(rview(v@) =~= o + (xid_start_chunk_0() + xid_start_chunk_1() + xid_start_chunk_2() + xid_start_chunk_3() + xid_start_chunk_4()));
    push_xid_start_chunk_5(v);
    assert(rview(v@) =~= o + (xid_start_chunk_0() + xid_start_chunk_1() + xid_start_chunk_2() + xid_start_chunk_3() + xid_start_chunk_4() + xid_start_chunk_5()));
    push_xid_start_chunk_6(v);
    assert(rview(v@) =~= o + (xid_start_chunk_0() + xid_start_chunk_1() + xid_start_chunk_2() + xid_start_chunk_3() + xid_start_chunk_4() + xid_start_chunk_5() + xid_start_chunk_6()));
    push_xid_start_chunk_7(v);
    assert(rview(v@) =~= o + (xid_start_chunk_0() + xid_start_chunk_1() + xid_start_chunk_2() + xid_start_chunk_3() + xid_start_chunk_4() + xid_start_chunk_5() + xid_start_chunk_6() + xid_start_chunk_7()));
    push_xid_start_chunk_8(v);
    assert(rview(v@) =~= o + (xid_start_chunk_0() + xid_start_chunk_1() + xid_start_chunk_2() + xid_start_chunk_3() + xid_start_chunk_4() + xid_start_chunk_5() + xid_start_chunk_6() + xid_start_chunk_7() + xid_start_chunk_8()));
    push_xid_start_chunk_9(v);
    assert(rview(v@) =~= o + (xid_start_chunk_0() + xid_start_chunk_1() + xid_start_chunk_2() + xid_start_chunk_3() + xid_start_chunk_4() + xid_start_chunk_5() + xid_start_chunk_6() + xid_start_chunk_7() + xid_start_chunk_8() + xid_start_chunk_9()));
}

fn push_xid_start_block_1(v: &mut Vec<ClassUnicodeRange>)
    ensures
        rview(final(v)@) == rview(old(v)@) + xid_start_block_1(),
{
    let ghost o = rview(v@);
    push_xid_start_chunk_10(v);
    assert(rview(v@) =~= o + (xid_start_chunk_10()));
    push_xid_start_chunk_11(v);
    assert(rview(v@) =~= o + (xid_start_chunk_10() + xid_start_chunk_11()));
    push_xid_start_chunk_12(v);
    assert(rview(v@) =~= o + (xid_start_chunk_10() + xid_start_chunk_11() + xid_start_chunk_12()));
    push_xid_start_chunk_13(v);
    assert(rview(v@) =~= o + (xid_start_chunk_10() + xid_start_chunk_11() + xid_start_chunk_12() + xid_start_chunk_13()));
    push_xid_start_chunk_14(v);
    assert(rview(v@) =~= o + (xid_start_chunk_10() + xid_start_chunk_11() + xid_start_chunk_12() + xid_start_chunk_13() + xid_start_chunk_14()));
    push_xid_start_chunk_15(v);
    assert(rview(v@) =~= o + (xid_start_chunk_10() + xid_start_chunk_11() + xid_start_chunk_12() + xid_start_chunk_13() + xid_start_chunk_14() + xid_start_chunk_15()));
    push_xid_start_chunk_16(v);
    assert(rview(v@) =~= o + (xid_start_chunk_10() + xid_start_chunk_11() + xid_start_chunk_12() + xid_start_chunk_13() + xid_start_chunk_14() + xid_start_chunk_15() + xid_start_chunk_16()));
    push_xid_start_chunk_17(v);
    assert(rview(v@) =~= o + (xid_start_chunk_10() + xid_start_chunk_11() + xid_start_chunk_12() + xid_start_chunk_13() + xid_start_chunk_14() + xid_start_chunk_15() + xid_start_chunk_16() + xid_start_chunk_17()));
    push_xid_start_chunk_18(v);
    assert(rview(v@) =~= o + (xid_start_chunk_10() + xid_start_chunk_11() + xid_start_chunk_12() + xid_start_chunk_13() + xid_start_chunk_14() + xid_start_chunk_15() + xid_start_chunk_16() + xid_start_chunk_17() + xid_start_chunk_18()));
    push_xid_start_chunk_19(v);
    assert(rview(v@) =~= o + (xid_start_chunk_10() + xid_start_chunk_11() + xid_start_chunk_12() + xid_start_chunk_13() + xid_start_chunk_14() + xid_start_chunk_15() + xid_start_chunk_16() + xid_start_chunk_17() + xid_start_chunk_18() + xid_start_chunk_19()));
}

fn push_xid_start_block_2(v: &mut Vec<ClassUnicodeRange>)
    ensures
        rview(final(v)@) == rview(old(v)@) + xid_start_block_2(),
{
    let ghost o = rview(v@);
    push_xid_start_chunk_20(v);
    assert(rview(v@) =~= o + (xid_start_chunk_20()));
    push_xid_start_chunk_21(v);
    assert(rview(v@) =~= o + (xid_start_chunk_20() + xid_start_chunk_21()));
    push_xid_start_chunk_22(v);
    assert(rview(v@) =~= o + (xid_start_chunk_20() + xid_start_chunk_21() + xid_start_chunk_22()));
    push_xid_start_chunk_23(v);
    assert(rview(v@) =~= o + (xid_start_chunk_20() + xid_start_chunk_21() + xid_start_chunk_22() + xid_start_chunk_23()));
    push_xid_start_chunk_24(v);
    assert(rview(v@) =~= o + (xid_start_chunk_20() + xid_start_chunk_21() + xid_start_chunk_22() + xid_start_chunk_23() + xid_start_chunk_24()));
    push_xid_start_chunk_25(v);
    assert(rview(v@) =~= o + (xid_start_chunk_20() + xid_start_chunk_21() + xid_start_chunk_22() + xid_start_chunk_23() + xid_start_chunk_24() + xid_start_chunk_25()));
    push_xid_start_chunk_26(v);
    assert(rview(v@) =~= o + (xid_start_chunk_20() + xid_start_chunk_21() + xid_start_chunk_22() + xid_start_chunk_23() + xid_start_chunk_24() + xid_start_chunk_25() + xid_start_chunk_26()));
    push_xid_start_chunk_27(v);
    assert(rview(v@) =~= o + (xid_start_chunk_20() + xid_start_chunk_21() + xid_start_chunk_22() + xid_start_chunk_23() + xid_start_chunk_24() + xid_start_chunk_25() + xid_start_chunk_26() + xid_start_chunk_27()));
    push_xid_start_chunk_28(v);
    assert(rview(v@) =~= o + (xid_start_chunk_20() + xid_start_chunk_21() + xid_start_chunk_22() + xid_start_chunk_23() + xid_start_chunk_24() + xid_start_chunk_25() + xid_start_chunk_26() + xid_start_chunk_27() + xid_start_chunk_28()));
    push_xid_start_chunk_29(v);
    assert(rview(v@) =~= o + (xid_start_chunk_20() + xid_start_chunk_21() + xid_start_chunk_22() + xid_start_chunk_23() + xid_start_chunk_24() + xid_start_chunk_25() + xid_start_chunk_26() + xid_start_chunk_27() + xid_start_chunk_28() + xid_start_chunk_29()));
}

fn push_xid_start_block_3(v: &mut Vec<ClassUnicodeRange>)
    ensures
        rview(final(v)@) == rview(old(v)@) + xid_start_block_3(),
{
    let ghost o = rview(v@);
    push_xid_start_chunk_30(v);
    assert(rview(v@) =~= o + (xid_start_chunk_30()));
    push_xid_start_chunk_31(v);
    assert(rview(v@) =~= o + (xid_start_chunk_30() + xid_start_chunk_31()));
    push_xid_start_chunk_32(v);
    assert(rview(v@) =~= o + (xid_start_chunk_30() + xid_start_chunk_31() + xid_start_chunk_32()));
    push_xid_start_chunk_33(v);
    assert(rview(v@) =~= o + (xid_start_chunk_30() + xid_start_chunk_31() + xid_start_chunk_32() + xid_start_chunk_33()));
    push_xid_start_chunk_34(v);
    assert(rview(v@) =~= o + (xid_start_chunk_30() + xid_start_chunk_31() + xid_start_chunk_32() + xid_start_chunk_33() + xid_start_chunk_34()));
    push_xid_start_chunk_35(v);
    assert(rview(v@) =~= o + (xid_start_chunk_30() + xid_start_chunk_31() + xid_start_chunk_32() + xid_start_chunk_33() + xid_start_chunk_34() + xid_start_chunk_35()));
    push_xid_start_chunk_36(v);
    assert(rview(v@) =~= o + (xid_start_chunk_30() + xid_start_chunk_31() + xid_start_chunk_32() + xid_start_chunk_33() + xid_start_chunk_34() + xid_start_chunk_35() + xid_start_chunk_36()));
    push_xid_start_chunk_37(v);
    assert(rview(v@) =~= o + (xid_start_chunk_30() + xid_start_chunk_31() + xid_start_chunk_32() + xid_start_chunk_33() + xid_start_chunk_34() + xid_start_chunk_35() + xid_start_chunk_36() + xid_start_chunk_37()));
    push_xid_start_chunk_38(v);
    assert(rview(v@) =~= o + (xid_start_chunk_30() + xid_start_chunk_31() + xid_start_chunk_32() + xid_start_chunk_33() + xid_start_chunk_34() + xid_start_chunk_35() + xid_start_chunk_36() + xid_start_chunk_37() + xid_start_chunk_38()));
    push_xid_start_chunk_39(v);
    assert(rview(v@) =~= o + (xid_start_chunk_30() + xid_start_chunk_31() + xid_start_chunk_32() + xid_start_chunk_33() + xid_start_chunk_34() + xid_start_chunk_35() + xid_start_chunk_36() + xid_start_chunk_37() + xid_start_chunk_38() + xid_start_chunk_39()));
}

fn push_xid_start_block_4(v: &mut Vec<ClassUnicodeRange>)
    ensures
        rview(final(v)@) == rview(old(v)@) + xid_start_block_4(),
{
    let ghost o = rview(v@);
    push_xid_start_chunk_40(v);
    assert(rview(v@) =~= o + (xid_start_chunk_40()));
    push_xid_start_chunk_41(v);
    assert(rview(v@) =~= o + (xid_start_chunk_40() + xid_start_chunk_41()));
    push_xid_start_chunk_42(v);
    assert(rview(v@) =~= o + (xid_start_chunk_40() + xid_start_chunk_41() + xid_start_chunk_42()));
    push_xid_start_chunk_43(v);
    assert(rview(v@) =~= o + (xid_start_chunk_40() + xid_start_chunk_41() + xid_start_chunk_42() + xid_start_chunk_43()));
    push_xid_start_chunk_44(v);
    assert(rview(v@) =~= o + (xid_start_chunk_40() + xid_start_chunk_41() + xid_start_chunk_42() + xid_start_chunk_43() + xid_start_chunk_44()));
    push_xid_start_chunk_45(v);
    assert(rview(v@) =~= o + (xid_start_chunk_40() + xid_start_chunk_41() + xid_start_chunk_42() + xid_start_chunk_43() + xid_start_chunk_44() + xid_start_chunk_45()));
    push_xid_start_chunk_46(v);
    assert(rview(v@) =~= o + (xid_start_chunk_40() + xid_start_chunk_41() + xid_start_chunk_42() + xid_start_chunk_43() + xid_start_chunk_44() + xid_start_chunk_45() + xid_start_chunk_46()));
    push_xid_start_chunk_47(v);
    assert(rview(v@) =~= o + (xid_start_chunk_40() + xid_start_chunk_41() + xid_start_chunk_42() + xid_start_chunk_43() + xid_start_chunk_44() + xid_start_chunk_45() + xid_start_chunk_46() + xid_start_chunk_47()));
    push_xid_start_chunk_48(v);
    assert(rview(v@) =~= o + (xid_start_chunk_40() + xid_start_chunk_41() + xid_start_chunk_42() + xid_start_chunk_43() + xid_start_chunk_44() + xid_start_chunk_45() + xid_start_chunk_46() + xid_start_chunk_47() + xid_start_chunk_48()));
    push_xid_start_chunk_49(v);
    assert(rview(v@) =~= o + (xid_start_chunk_40() + xid_start_chunk_41() + xid_start_chunk_42() + xid_start_chunk_43() + xid_start_chunk_44() + xid_start_chunk_45() + xid_start_chunk_46() + xid_start_chunk_47() + xid_start_chunk_48() + xid_start_chunk_49()));
}

fn push_xid_start_block_5(v: &mut Vec<ClassUnicodeRange>)
    ensures
        rview(final(v)@) == rview(old(v)@) + xid_start_block_5(),
{
    let ghost o = rview(v@);
    push_xid_start_chunk_50(v);
    assert(rview(v@) =~= o + (xid_start_chunk_50()));
    push_xid_start_chunk_51(v);
    assert(rview(v@) =~= o + (xid_start_chunk_50() + xid_start_chunk_51()));
    push_xid_start_chunk_52(v);
    assert(rview(v@) =~= o + (xid_start_chunk_50() + xid_start_chunk_51() + xid_start_chunk_52()));
    push_xid_start_chunk_53(v);
    assert(rview(v@) =~= o + (xid_start_chunk_50() + xid_start_chunk_51() + xid_start_chunk_52() + xid_start_chunk_53()));
    push_xid_start_chunk_54(v);
    assert(rview(v@) =~= o + (xid_start_chunk_50() + xid_start_chunk_51() + xid_start_chunk_52() + xid_start_chunk_53() + xid_start_chunk_54()));
    push_xid_start_chunk_55(v);
    assert(rview(v@) =~= o + (xid_start_chunk_50() + xid_start_chunk_51() + xid_start_chunk_52() + xid_start_chunk_53() + xid_start_chunk_54() + xid_start_chunk_55()));
    push_xid_start_chunk_56(v);
    assert(rview(v@) =~= o + (xid_start_chunk_50() + xid_start_chunk_51() + xid_start_chunk_52() + xid_start_chunk_53() + xid_start_chunk_54() + xid_start_chunk_55() + xid_start_chunk_56()));
    push_xid_start_chunk_57(v);
    assert(rview(v@) =~= o + (xid_start_chunk_50() + xid_start_chunk_51() + xid_start_chunk_52() + xid_start_chunk_53() + xid_start_chunk_54() + xid_start_chunk_55() + xid_start_chunk_56() + xid_start_chunk_57()));
    push_xid_start_chunk_58(v);
    assert(rview(v@) =~= o + (xid_start_chunk_50() + xid_start_chunk_51() + xid_start_chunk_52() + xid_start_chunk_53() + xid_start_chunk_54() + xid_start_chunk_55() + xid_start_chunk_56() + xid_start_chunk_57() + xid_start_chunk_58()));
    push_xid_start_chunk_59(v);
    assert(rview(v@) =~= o + (xid_start_chunk_50() + xid_start_chunk_51() + xid_start_chunk_52() + xid_start_chunk_53() + xid_start_chunk_54() + xid_start_chunk_55() + xid_start_chunk_56() + xid_start_chunk_57() + xid_start_chunk_58() + xid_start_chunk_59()));
}

fn push_xid_start_block_6(v: &mut Vec<ClassUnicodeRange>)
    ensures
        rview(final(v)@) == rview(old(v)@) + xid_start_block_6(),
{
    let ghost o = rview(v@);
    push_xid_start_chunk_60(v);
    assert(rview(v@) =~= o + (xid_start_chunk_60()));
    push_xid_start_chunk_61(v);
    assert(rview(v@) =~= o + (xid_start_chunk_60() + xid_start_chunk_61()));
    push_xid_start_chunk_62(v);
    assert(rview(v@) =~= o + (xid_start_chunk_60() + xid_start_chunk_61() + xid_start_chunk_62()));
    push_xid_start_chunk_63(v);
    assert(rview(v@) =~= o + (xid_start_chunk_60() + xid_start_chunk_61() + xid_start_chunk_62() + xid_start_chunk_63()));
    push_xid_start_chunk_64(v);
    assert(rview(v@) =~= o + (xid_start_chunk_60() + xid_start_chunk_61() + xid_start_chunk_62() + xid_start_chunk_63() + xid_start_chunk_64()));
    push_xid_start_chunk_65(v);
    assert(rview(v@) =~= o + (xid_start_chunk_60() + xid_start_chunk_61() + xid_start_chunk_62() + xid_start_chunk_63() + xid_start_chunk_64() + xid_start_chunk_65()));
    push_xid_start_chunk_66(v);
    assert(rview(v@) =~= o + (xid_start_chunk_60() + xid_start_chunk_61() + xid_start_chunk_62() + xid_start_chunk_63() + xid_start_chunk_64() + xid_start_chunk_65() + xid_start_chunk_66()));
    push_xid_start_chunk_67(v);
    assert(rview(v@) =~= o + (xid_start_chunk_60() + xid_start_chunk_61() + xid_start_chunk_62() + xid_start_chunk_63() + xid_start_chunk_64() + xid_start_chunk_65() + xid_start_chunk_66() + xid_start_chunk_67()));
    push_xid_start_chunk_68(v);
    assert(rview(v@) =~= o + (xid_start_chunk_60() + xid_start_chunk_61() + xid_start_chunk_62() + xid_start_chunk_63() + xid_start_chunk_64() + xid_start_chunk_65() + xid_start_chunk_66() + xid_start_chunk_67() + xid_start_chunk_68()));
    push_xid_start_chunk_69(v);
    assert(rview(v@) =~= o + (xid_start_chunk_60() + xid_start_chunk_61() + xid_start_chunk_62() + xid_start_chunk_63() + xid_start_chunk_64() + xid_start_chunk_65() + xid_start_chunk_66() + xid_start_chunk_67() + xid_start_chunk_68() + xid_start_chunk_69()));
}

fn push_xid_start_block_7(v: &mut Vec<ClassUnicodeRange>)
    ensures
        rview(final(v)@) == rview(old(v)@) + xid_start_block_7(),
{
    let ghost o = rview(v@);
    push_xid_start_chunk_70(v);
    assert(rview(v@) =~= o + (xid_start_chunk_70()));
    push_xid_start_chunk_71(v);
    assert(rview(v@) =~= o + (xid_start_chunk_70() + xid_start_chunk_71()));
    push_xid_start_chunk_72(v);
    assert(rview(v@) =~= o + (xid_start_chunk_70() + xid_start_chunk_71() + xid_start_chunk_72()));
    push_xid_start_chunk_73(v);
    assert(rview(v@) =~= o + (xid_start_chunk_70() + xid_start_chunk_71() + xid_start_chunk_72() + xid_start_chunk_73()));
    push_xid_start_chunk_74(v);
    assert(rview(v@) =~= o + (xid_start_chunk_70() + xid_start_chunk_71() + xid_start_chunk_72() + xid_start_chunk_73() + xid_start_chunk_74()));
    push_xid_start_chunk_75(v);
    assert(rview(v@) =~= o + (xid_start_chunk_70() + xid_start_chunk_71() + xid_start_chunk_72() + xid_start_chunk_73() + xid_start_chunk_74() + xid_start_chunk_75()));
    push_xid_start_chunk_76(v);
    assert(rview(v@) =~= o + (xid_start_chunk_70() + xid_start_chunk_71() + xid_start_chunk_72() + xid_start_chunk_73() + xid_start_chunk_74() + xid_start_chunk_75() + xid_start_chunk_76()));
    push_xid_start_chunk_77(v);
    assert(rview(v@) =~= o + (xid_start_chunk_70() + xid_start_chunk_71() + xid_start_chunk_72() + xid_start_chunk_73() + xid_start_chunk_74() + xid_start_chunk_75() + xid_start_chunk_76() + xid_start_chunk_77()));
    push_xid_start_chunk_78(v);
    assert(rview(v@) =~= o + (xid_start_chunk_70() + xid_start_chunk_71() + xid_start_chunk_72() + xid_start_chunk_73() + xid_start_chunk_74() + xid_start_chunk_75() + xid_start_chunk_76() + xid_start_chunk_77() + xid_start_chunk_78()));
    push_xid_start_chunk_79(v);
    assert(rview(v@) =~= o + (xid_start_chunk_70() + xid_start_chunk_71() + xid_start_chunk_72() + xid_start_chunk_73() + xid_start_chunk_74() + xid_start_chunk_75() + xid_start_chunk_76() + xid_start_chunk_77() + xid_start_chunk_78() + xid_start_chunk_79()));
}

fn push_xid_start_block_8(v: &mut Vec<ClassUnicodeRange>)
    ensures
        rview(final(v)@) == rview(old(v)@) + xid_start_block_8(),
{
    let ghost o = rview(v@);
    push_xid_start_chunk_80(v);
    assert(rview(v@) =~= o + (xid_start_chunk_80()));
    push_xid_start_chunk_81(v);
    assert(rview(v@) =~= o + (xid_start_chunk_80() + xid_start_chunk_81()));
    push_xid_start_chunk_82(v);
    assert(rview(v@) =~= o + (xid_start_chunk_80() + xid_start_chunk_81() + xid_start_chunk_82()));
    push_xid_start_chunk_83(v);
    assert(rview(v@) =~= o + (xid_start_chunk_80() + xid_start_chunk_81() + xid_start_chunk_82() + xid_start_chunk_83()));
    push_xid_start_chunk_84(v);
    assert(rview(v@) =~= o + (xid_start_chunk_80() + xid_start_chunk_81() + xid_start_chunk_82() + xid_start_chunk_83() + xid_start_chunk_84()));
    push_xid_start_chunk_85(v);
    assert(rview(v@) =~= o + (xid_start_chunk_80() + xid_start_chunk_81() + xid_start_chunk_82() + xid_start_chunk_83() + xid_start_chunk_84() + xid_start_chunk_85()));
}

pub fn xid_start_class() -> (v: Vec<ClassUnicodeRange>)
    ensures
        rview(v@) == xid_start_ranges(),
{
    let mut v: Vec<ClassUnicodeRange> = Vec::new();
    assert(rview(v@) =~= Seq::<SRange>::empty());
    push_xid_start_block_0(&mut v);
    assert(rview(v@) =~= xid_start_block_0());
    push_xid_start_block_1(&mut v);
    assert(rview(v@) =~= xid_start_block_0() + xid_start_block_1());
    push_xid_start_block_2(&mut v);
    assert(rview(v@) =~= xid_start_block_0() + xid_start_block_1() + xid_start_block_2());
    push_xid_start_block_3(&mut v);
    assert(rview(v@) =~= xid_start_block_0() + xid_start_block_1() + xid_start_block_2() + xid_start_block_3());
    push_xid_start_block_4(&mut v);
    assert(rview(v@) =~= xid_start_block_0() + xid_start_block_1() + xid_start_block_2() + xid_start_block_3() + xid_start_block_4());
    push_xid_start_block_5(&mut v);
    assert(rview(v@) =~= xid_start_block_0() + xid_start_block_1() + xid_start_block_2() + xid_start_block_3() + xid_start_block_4() + xid_start_block_5());
    push_xid_start_block_6(&mut v);
    assert(rview(v@) =~= xid_start_block_0() + xid_start_block_1() + xid_start_block_2() + xid_start_block_3() + xid_start_block_4() + xid_start_block_5() + xid_start_block_6());
    push_xid_start_block_7(&mut v);
    assert(rview(v@) =~= xid_start_block_0() + xid_start_block_1() + xid_start_block_2() + xid_start_block_3() + xid_start_block_4() + xid_start_block_5() + xid_start_block_6() + xid_start_block_7());
    push_xid_start_block_8(&mut v);
    assert(rview(v@) =~= xid_start_block_0() + xid_start_block_1() + xid_start_block_2() + xid_start_block_3() + xid_start_block_4() + xid_start_block_5() + xid_start_block_6() + xid_start_block_7() + xid_start_block_8());
    v
}

} // verus!
