//! The script extensions of Unicode 16.0 that `\p{scx=..}` names: for each
//! script, the characters that are used with it, as a canonical class.
use vstd::prelude::*;
use crate::ranges::{SRange, canonical};
use crate::class::{ClassUnicodeRange, rview, lemma_rview_push};
use crate::word::lemma_canonical_append;
use crate::script::Script;

verus! {

fn push_range(v: &mut Vec<ClassUnicodeRange>, a: char, b: char)
    ensures
        rview(final(v)@) == rview(old(v)@).push((a as int, b as int)),
{
    let r = ClassUnicodeRange { start: a, end: b };
    proof {
        lemma_rview_push(v@, r);
    }
    v.push(r);
}

pub open spec fn adlam_scx_chunk_0() -> Seq<SRange> {
    seq![(0x61Fint, 0x61Fint), (0x640int, 0x640int), (0x204Fint, 0x204Fint), (0x2E41int, 0x2E41int), (0x1E900int, 0x1E94Bint), (0x1E950int, 0x1E959int), (0x1E95Eint, 0x1E95Fint)]
}

/// The ranges of the property Adlam.
pub open spec fn adlam_scx_ranges() -> Seq<SRange> {
    adlam_scx_chunk_0()
}

pub proof fn lemma_adlam_scx_canonical()
    ensures
        canonical(adlam_scx_ranges()),
{
    reveal_with_fuel(canonical, 9);
    assert(canonical(adlam_scx_chunk_0()));
}

fn push_adlam_scx_chunk_0(v: &mut Vec<ClassUnicodeRange>)
    ensures
        rview(final(v)@) == rview(old(v)@) + adlam_scx_chunk_0(),
{
    let ghost o = rview(v@);
    push_range(v, '\u{61F}', '\u{61F}');
    push_range(v, '\u{640}', '\u{640}');
    push_range(v, '\u{204F}', '\u{204F}');
    push_range(v, '\u{2E41}', '\u{2E41}');
    push_range(v, '\u{1E900}', '\u{1E94B}');
    push_range(v, '\u{1E950}', '\u{1E959}');
    push_range(v, '\u{1E95E}', '\u{1E95F}');
    assert(rview(v@) =~= o + adlam_scx_chunk_0());
}

pub fn adlam_scx_class() -> (v: Vec<ClassUnicodeRange>)
    ensures
        rview(v@) == adlam_scx_ranges(),
{
    let mut v: Vec<ClassUnicodeRange> = Vec::new();
    assert(rview(v@) =~= Seq::<SRange>::empty());
    push_adlam_scx_chunk_0(&mut v);
    assert(rview(v@) =~= adlam_scx_chunk_0());
    v
}

pub open spec fn ahom_scx_chunk_0() -> Seq<SRange> {
    seq![(0x11700int, 0x1171Aint), (0x1171Dint, 0x1172Bint), (0x11730int, 0x11746int)]
}

/// The ranges of the property Ahom.
pub open spec fn ahom_scx_ranges() -> Seq<SRange> {
    ahom_scx_chunk_0()
}

pub proof fn lemma_ahom_scx_canonical()
    ensures
        canonical(ahom_scx_ranges()),
{
    reveal_with_fuel(canonical, 9);
    assert(canonical(ahom_scx_chunk_0()));
}

fn push_ahom_scx_chunk_0(v: &mut Vec<ClassUnicodeRange>)
    ensures
        rview(final(v)@) == rview(old(v)@) + ahom_scx_chunk_0(),
{
    let ghost o = rview(v@);
    push_range(v, '\u{11700}', '\u{1171A}');
    push_range(v, '\u{1171D}', '\u{1172B}');
    push_range(v, '\u{11730}', '\u{11746}');
    assert(rview(v@) =~= o + ahom_scx_chunk_0());
}

pub fn ahom_scx_class() -> (v: Vec<ClassUnicodeRange>)
    ensures
        rview(v@) == ahom_scx_ranges(),
{
    let mut v: Vec<ClassUnicodeRange> = Vec::new();
    assert(rview(v@) =~= Seq::<SRange>::empty());
    push_ahom_scx_chunk_0(&mut v);
    assert(rview(v@) =~= ahom_scx_chunk_0());
    v
}

pub open spec fn anatolian_hieroglyphs_scx_chunk_0() -> Seq<SRange> {
    seq![(0x14400int, 0x14646int)]
}

/// The ranges of the property Anatolian_Hieroglyphs.
pub open spec fn anatolian_hieroglyphs_scx_ranges() -> Seq<SRange> {
    anatolian_hieroglyphs_scx_chunk_0()
}

pub proof fn lemma_anatolian_hieroglyphs_scx_canonical()
    ensures
        canonical(anatolian_hieroglyphs_scx_ranges()),
{
    reveal_with_fuel(canonical, 9);
    assert(canonical(anatolian_hieroglyphs_scx_chunk_0()));
}

fn push_anatolian_hieroglyphs_scx_chunk_0(v: &mut Vec<ClassUnicodeRange>)
    ensures
        rview(final(v)@) == rview(old(v)@) + anatolian_hieroglyphs_scx_chunk_0(),
{
    let ghost o = rview(v@);
    push_range(v, '\u{14400}', '\u{14646}');
    assert(rview(v@) =~= o + anatolian_hieroglyphs_scx_chunk_0());
}

pub fn anatolian_hieroglyphs_scx_class() -> (v: Vec<ClassUnicodeRange>)
    ensures
        rview(v@) == anatolian_hieroglyphs_scx_ranges(),
{
    let mut v: Vec<ClassUnicodeRange> = Vec::new();
    assert(rview(v@) =~= Seq::<SRange>::empty());
    push_anatolian_hieroglyphs_scx_chunk_0(&mut v);
    assert(rview(v@) =~= anatolian_hieroglyphs_scx_chunk_0());
    v
}

pub open spec fn arabic_scx_chunk_0() -> Seq<SRange> {
    seq![(0x600int, 0x604int), (0x606int, 0x6DCint), (0x6DEint, 0x6FFint), (0x750int, 0x77Fint), (0x870int, 0x88Eint), (0x890int, 0x891int), (0x897int, 0x8E1int), (0x8E3int, 0x8FFint)]
}

pub open spec fn arabic_scx_chunk_1() -> Seq<SRange> {
    seq![(0x204Fint, 0x204Fint), (0x2E41int, 0x2E41int), (0xFB50int, 0xFBC2int), (0xFBD3int, 0xFD8Fint), (0xFD92int, 0xFDC7int), (0xFDCFint, 0xFDCFint), (0xFDF0int, 0xFDFFint), (0xFE70int, 0xFE74int)]
}

pub open spec fn arabic_scx_chunk_2() -> Seq<SRange> {
    seq![(0xFE76int, 0xFEFCint), (0x102E0int, 0x102FBint), (0x10E60int, 0x10E7Eint), (0x10EC2int, 0x10EC4int), (0x10EFCint, 0x10EFFint), (0x1EE00int, 0x1EE03int), (0x1EE05int, 0x1EE1Fint), (0x1EE21int, 0x1EE22int)]
}

pub open spec fn arabic_scx_chunk_3() -> Seq<SRange> {
    seq![(0x1EE24int, 0x1EE24int), (0x1EE27int, 0x1EE27int), (0x1EE29int, 0x1EE32int), (0x1EE34int, 0x1EE37int), (0x1EE39int, 0x1EE39int), (0x1EE3Bint, 0x1EE3Bint), (0x1EE42int, 0x1EE42int), (0x1EE47int, 0x1EE47int)]
}

pub open spec fn arabic_scx_chunk_4() -> Seq<SRange> {
    seq![(0x1EE49int, 0x1EE49int), (0x1EE4Bint, 0x1EE4Bint), (0x1EE4Dint, 0x1EE4Fint), (0x1EE51int, 0x1EE52int), (0x1EE54int, 0x1EE54int), (0x1EE57int, 0x1EE57int), (0x1EE59int, 0x1EE59int), (0x1EE5Bint, 0x1EE5Bint)]
}

pub open spec fn arabic_scx_chunk_5() -> Seq<SRange> {
    seq![(0x1EE5Dint, 0x1EE5Dint), (0x1EE5Fint, 0x1EE5Fint), (0x1EE61int, 0x1EE62int), (0x1EE64int, 0x1EE64int), (0x1EE67int, 0x1EE6Aint), (0x1EE6Cint, 0x1EE72int), (0x1EE74int, 0x1EE77int), (0x1EE79int, 0x1EE7Cint)]
}

pub open spec fn arabic_scx_chunk_6() -> Seq<SRange> {
    seq![(0x1EE7Eint, 0x1EE7Eint), (0x1EE80int, 0x1EE89int), (0x1EE8Bint, 0x1EE9Bint), (0x1EEA1int, 0x1EEA3int), (0x1EEA5int, 0x1EEA9int), (0x1EEABint, 0x1EEBBint), (0x1EEF0int, 0x1EEF1int)]
}

/// The ranges of the property Arabic.
pub open spec fn arabic_scx_ranges() -> Seq<SRange> {
    arabic_scx_chunk_0() + arabic_scx_chunk_1() + arabic_scx_chunk_2() + arabic_scx_chunk_3() + arabic_scx_chunk_4() + arabic_scx_chunk_5() + arabic_scx_chunk_6()
}

pub proof fn lemma_arabic_scx_canonical()
    ensures
        canonical(arabic_scx_ranges()),
{
    reveal_with_fuel(canonical, 9);
    assert(canonical(arabic_scx_chunk_0()));
    assert(canonical(arabic_scx_chunk_1()));
    assert(canonical(arabic_scx_chunk_2()));
    assert(canonical(arabic_scx_chunk_3()));
    assert(canonical(arabic_scx_chunk_4()));
    assert(canonical(arabic_scx_chunk_5()));
    assert(canonical(arabic_scx_chunk_6()));
    lemma_canonical_append(arabic_scx_chunk_0(), arabic_scx_chunk_1());
    lemma_canonical_append(arabic_scx_chunk_0() + arabic_scx_chunk_1(), arabic_scx_chunk_2());
    lemma_canonical_append(arabic_scx_chunk_0() + arabic_scx_chunk_1() + arabic_scx_chunk_2(), arabic_scx_chunk_3());
    lemma_canonical_append(arabic_scx_chunk_0() + arabic_scx_chunk_1() + arabic_scx_chunk_2() + arabic_scx_chunk_3(), arabic_scx_chunk_4());
    lemma_canonical_append(arabic_scx_chunk_0() + arabic_scx_chunk_1() + arabic_scx_chunk_2() + arabic_scx_chunk_3() + arabic_scx_chunk_4(), arabic_scx_chunk_5());
    lemma_canonical_append(arabic_scx_chunk_0() + arabic_scx_chunk_1() + arabic_scx_chunk_2() + arabic_scx_chunk_3() + arabic_scx_chunk_4() + arabic_scx_chunk_5(), arabic_scx_chunk_6());
}

fn push_arabic_scx_chunk_0(v: &mut Vec<ClassUnicodeRange>)
    ensures
        rview(final(v)@) == rview(old(v)@) + arabic_scx_chunk_0(),
{
    let ghost o = rview(v@);
    push_range(v, '\u{600}', '\u{604}');
    push_range(v, '\u{606}', '\u{6DC}');
    push_range(v, '\u{6DE}', '\u{6FF}');
    push_range(v, '\u{750}', '\u{77F}');
    push_range(v, '\u{870}', '\u{88E}');
    push_range(v, '\u{890}', '\u{891}');
    push_range(v, '\u{897}', '\u{8E1}');
    push_range(v, '\u{8E3}', '\u{8FF}');
    assert(rview(v@) =~= o + arabic_scx_chunk_0());
}

fn push_arabic_scx_chunk_1(v: &mut Vec<ClassUnicodeRange>)
    ensures
        rview(final(v)@) == rview(old(v)@) + arabic_scx_chunk_1(),
{
    let ghost o = rview(v@);
    push_range(v, '\u{204F}', '\u{204F}');
    push_range(v, '\u{2E41}', '\u{2E41}');
    push_range(v, '\u{FB50}', '\u{FBC2}');
    push_range(v, '\u{FBD3}', '\u{FD8F}');
    push_range(v, '\u{FD92}', '\u{FDC7}');
    push_range(v, '\u{FDCF}', '\u{FDCF}');
    push_range(v, '\u{FDF0}', '\u{FDFF}');
    push_range(v, '\u{FE70}', '\u{FE74}');
    assert(rview(v@) =~= o + arabic_scx_chunk_1());
}

fn push_arabic_scx_chunk_2(v: &mut Vec<ClassUnicodeRange>)
    ensures
        rview(final(v)@) == rview(old(v)@) + arabic_scx_chunk_2(),
{
    let ghost o = rview(v@);
    push_range(v, '\u{FE76}', '\u{FEFC}');
    push_range(v, '\u{102E0}', '\u{102FB}');
    push_range(v, '\u{10E60}', '\u{10E7E}');
    push_range(v, '\u{10EC2}', '\u{10EC4}');
    push_range(v, '\u{10EFC}', '\u{10EFF}');
    push_range(v, '\u{1EE00}', '\u{1EE03}');
    push_range(v, '\u{1EE05}', '\u{1EE1F}');
    push_range(v, '\u{1EE21}', '\u{1EE22}');
    assert(rview(v@) =~= o + arabic_scx_chunk_2());
}

fn push_arabic_scx_chunk_3(v: &mut Vec<ClassUnicodeRange>)
    ensures
        rview(final(v)@) == rview(old(v)@) + arabic_scx_chunk_3(),
{
    let ghost o = rview(v@);
    push_range(v, '\u{1EE24}', '\u{1EE24}');
    push_range(v, '\u{1EE27}', '\u{1EE27}');
    push_range(v, '\u{1EE29}', '\u{1EE32}');
    push_range(v, '\u{1EE34}', '\u{1EE37}');
    push_range(v, '\u{1EE39}', '\u{1EE39}');
    push_range(v, '\u{1EE3B}', '\u{1EE3B}');
    push_range(v, '\u{1EE42}', '\u{1EE42}');
    push_range(v, '\u{1EE47}', '\u{1EE47}');
    assert(rview(v@) =~= o + arabic_scx_chunk_3());
}

fn push_arabic_scx_chunk_4(v: &mut Vec<ClassUnicodeRange>)
    ensures
        rview(final(v)@) == rview(old(v)@) + arabic_scx_chunk_4(),
{
    let ghost o = rview(v@);
    push_range(v, '\u{1EE49}', '\u{1EE49}');
    push_range(v, '\u{1EE4B}', '\u{1EE4B}');
    push_range(v, '\u{1EE4D}', '\u{1EE4F}');
    push_range(v, '\u{1EE51}', '\u{1EE52}');
    push_range(v, '\u{1EE54}', '\u{1EE54}');
    push_range(v, '\u{1EE57}', '\u{1EE57}');
    push_range(v, '\u{1EE59}', '\u{1EE59}');
    push_range(v, '\u{1EE5B}', '\u{1EE5B}');
    assert(rview(v@) =~= o + arabic_scx_chunk_4());
}

fn push_arabic_scx_chunk_5(v: &mut Vec<ClassUnicodeRange>)
    ensures
        rview(final(v)@) == rview(old(v)@) + arabic_scx_chunk_5(),
{
    let ghost o = rview(v@);
    push_range(v, '\u{1EE5D}', '\u{1EE5D}');
    push_range(v, '\u{1EE5F}', '\u{1EE5F}');
    push_range(v, '\u{1EE61}', '\u{1EE62}');
    push_range(v, '\u{1EE64}', '\u{1EE64}');
    push_range(v, '\u{1EE67}', '\u{1EE6A}');
    push_range(v, '\u{1EE6C}', '\u{1EE72}');
    push_range(v, '\u{1EE74}', '\u{1EE77}');
    push_range(v, '\u{1EE79}', '\u{1EE7C}');
    assert(rview(v@) =~= o + arabic_scx_chunk_5());
}

fn push_arabic_scx_chunk_6(v: &mut Vec<ClassUnicodeRange>)
    ensures
        rview(final(v)@) == rview(old(v)@) + arabic_scx_chunk_6(),
{
    let ghost o = rview(v@);
    push_range(v, '\u{1EE7E}', '\u{1EE7E}');
    push_range(v, '\u{1EE80}', '\u{1EE89}');
    push_range(v, '\u{1EE8B}', '\u{1EE9B}');
    push_range(v, '\u{1EEA1}', '\u{1EEA3}');
    push_range(v, '\u{1EEA5}', '\u{1EEA9}');
    push_range(v, '\u{1EEAB}', '\u{1EEBB}');
    push_range(v, '\u{1EEF0}', '\u{1EEF1}');
    assert(rview(v@) =~= o + arabic_scx_chunk_6());
}

pub fn arabic_scx_class() -> (v: Vec<ClassUnicodeRange>)
    ensures
        rview(v@) == arabic_scx_ranges(),
{
    let mut v: Vec<ClassUnicodeRange> = Vec::new();
    assert(rview(v@) =~= Seq::<SRange>::empty());
    push_arabic_scx_chunk_0(&mut v);
    assert(rview(v@) =~= arabic_scx_chunk_0());
    push_arabic_scx_chunk_1(&mut v);
    assert(rview(v@) =~= arabic_scx_chunk_0() + arabic_scx_chunk_1());
    push_arabic_scx_chunk_2(&mut v);
    assert(rview(v@) =~= arabic_scx_chunk_0() + arabic_scx_chunk_1() + arabic_scx_chunk_2());
    push_arabic_scx_chunk_3(&mut v);
    assert(rview(v@) =~= arabic_scx_chunk_0() + arabic_scx_chunk_1() + arabic_scx_chunk_2() + arabic_scx_chunk_3());
    push_arabic_scx_chunk_4(&mut v);
    assert(rview(v@) =~= arabic_scx_chunk_0() + arabic_scx_chunk_1() + arabic_scx_chunk_2() + arabic_scx_chunk_3() + arabic_scx_chunk_4());
    push_arabic_scx_chunk_5(&mut v);
    assert(rview(v@) =~= arabic_scx_chunk_0() + arabic_scx_chunk_1() + arabic_scx_chunk_2() + arabic_scx_chunk_3() + arabic_scx_chunk_4() + arabic_scx_chunk_5());
    push_arabic_scx_chunk_6(&mut v);
    assert(rview(v@) =~= arabic_scx_chunk_0() + arabic_scx_chunk_1() + arabic_scx_chunk_2() + arabic_scx_chunk_3() + arabic_scx_chunk_4() + arabic_scx_chunk_5() + arabic_scx_chunk_6());
    v
}

pub open spec fn armenian_scx_chunk_0() -> Seq<SRange> {
    seq![(0x308int, 0x308int), (0x531int, 0x556int), (0x559int, 0x58Aint), (0x58Dint, 0x58Fint), (0xFB13int, 0xFB17int)]
}

/// The ranges of the property Armenian.
pub open spec fn armenian_scx_ranges() -> Seq<SRange> {
    armenian_scx_chunk_0()
}

pub proof fn lemma_armenian_scx_canonical()
    ensures
        canonical(armenian_scx_ranges()),
{
    reveal_with_fuel(canonical, 9);
    assert(canonical(armenian_scx_chunk_0()));
}

fn push_armenian_scx_chunk_0(v: &mut Vec<ClassUnicodeRange>)
    ensures
        rview(final(v)@) == rview(old(v)@) + armenian_scx_chunk_0(),
{
    let ghost o = rview(v@);
    push_range(v, '\u{308}', '\u{308}');
    push_range(v, '\u{531}', '\u{556}');
    push_range(v, '\u{559}', '\u{58A}');
    push_range(v, '\u{58D}', '\u{58F}');
    push_range(v, '\u{FB13}', '\u{FB17}');
    assert(rview(v@) =~= o + armenian_scx_chunk_0());
}

pub fn armenian_scx_class() -> (v: Vec<ClassUnicodeRange>)
    ensures
        rview(v@) == armenian_scx_ranges(),
{
    let mut v: Vec<ClassUnicodeRange> = Vec::new();
    assert(rview(v@) =~= Seq::<SRange>::empty());
    push_armenian_scx_chunk_0(&mut v);
    assert(rview(v@) =~= armenian_scx_chunk_0());
    v
}

pub open spec fn avestan_scx_chunk_0() -> Seq<SRange> {
    seq![(0xB7int, 0xB7int), (0x2E30int, 0x2E31int), (0x10B00int, 0x10B35int), (0x10B39int, 0x10B3Fint)]
}

/// The ranges of the property Avestan.
pub open spec fn avestan_scx_ranges() -> Seq<SRange> {
    avestan_scx_chunk_0()
}

pub proof fn lemma_avestan_scx_canonical()
    ensures
        canonical(avestan_scx_ranges()),
{
    reveal_with_fuel(canonical, 9);
    assert(canonical(avestan_scx_chunk_0()));
}

fn push_avestan_scx_chunk_0(v: &mut Vec<ClassUnicodeRange>)
    ensures
        rview(final(v)@) == rview(old(v)@) + avestan_scx_chunk_0(),
{
    let ghost o = rview(v@);
    push_range(v, '\u{B7}', '\u{B7}');
    push_range(v, '\u{2E30}', '\u{2E31}');
    push_range(v, '\u{10B00}', '\u{10B35}');
    push_range(v, '\u{10B39}', '\u{10B3F}');
    assert(rview(v@) =~= o + avestan_scx_chunk_0());
}

pub fn avestan_scx_class() -> (v: Vec<ClassUnicodeRange>)
    ensures
        rview(v@) == avestan_scx_ranges(),
{
    let mut v: Vec<ClassUnicodeRange> = Vec::new();
    assert(rview(v@) =~= Seq::<SRange>::empty());
    push_avestan_scx_chunk_0(&mut v);
    assert(rview(v@) =~= avestan_scx_chunk_0());
    v
}

pub open spec fn balinese_scx_chunk_0() -> Seq<SRange> {
    seq![(0x1B00int, 0x1B4Cint), (0x1B4Eint, 0x1B7Fint)]
}

/// The ranges of the property Balinese.
pub open spec fn balinese_scx_ranges() -> Seq<SRange> {
    balinese_scx_chunk_0()
}

pub proof fn lemma_balinese_scx_canonical()
    ensures
        canonical(balinese_scx_ranges()),
{
    reveal_with_fuel(canonical, 9);
    assert(canonical(balinese_scx_chunk_0()));
}

fn push_balinese_scx_chunk_0(v: &mut Vec<ClassUnicodeRange>)
    ensures
        rview(final(v)@) == rview(old(v)@) + balinese_scx_chunk_0(),
{
    let ghost o = rview(v@);
    push_range(v, '\u{1B00}', '\u{1B4C}');
    push_range(v, '\u{1B4E}', '\u{1B7F}');
    assert(rview(v@) =~= o + balinese_scx_chunk_0());
}

pub fn balinese_scx_class() -> (v: Vec<ClassUnicodeRange>)
    ensures
        rview(v@) == balinese_scx_ranges(),
{
    let mut v: Vec<ClassUnicodeRange> = Vec::new();
    assert(rview(v@) =~= Seq::<SRange>::empty());
    push_balinese_scx_chunk_0(&mut v);
    assert(rview(v@) =~= balinese_scx_chunk_0());
    v
}

pub open spec fn bamum_scx_chunk_0() -> Seq<SRange> {
    seq![(0xA6A0int, 0xA6F7int), (0x16800int, 0x16A38int)]
}

/// The ranges of the property Bamum.
pub open spec fn bamum_scx_ranges() -> Seq<SRange> {
    bamum_scx_chunk_0()
}

pub proof fn lemma_bamum_scx_canonical()
    ensures
        canonical(bamum_scx_ranges()),
{
    reveal_with_fuel(canonical, 9);
    assert(canonical(bamum_scx_chunk_0()));
}

fn push_bamum_scx_chunk_0(v: &mut Vec<ClassUnicodeRange>)
    ensures
        rview(final(v)@) == rview(old(v)@) + bamum_scx_chunk_0(),
{
    let ghost o = rview(v@);
    push_range(v, '\u{A6A0}', '\u{A6F7}');
    push_range(v, '\u{16800}', '\u{16A38}');
    assert(rview(v@) =~= o + bamum_scx_chunk_0());
}

pub fn bamum_scx_class() -> (v: Vec<ClassUnicodeRange>)
    ensures
        rview(v@) == bamum_scx_ranges(),
{
    let mut v: Vec<ClassUnicodeRange> = Vec::new();
    assert(rview(v@) =~= Seq::<SRange>::empty());
    push_bamum_scx_chunk_0(&mut v);
    assert(rview(v@) =~= bamum_scx_chunk_0());
    v
}

pub open spec fn bassa_vah_scx_chunk_0() -> Seq<SRange> {
    seq![(0x16AD0int, 0x16AEDint), (0x16AF0int, 0x16AF5int)]
}

/// The ranges of the property Bassa_Vah.
pub open spec fn bassa_vah_scx_ranges() -> Seq<SRange> {
    bassa_vah_scx_chunk_0()
}

pub proof fn lemma_bassa_vah_scx_canonical()
    ensures
        canonical(bassa_vah_scx_ranges()),
{
    reveal_with_fuel(canonical, 9);
    assert(canonical(bassa_vah_scx_chunk_0()));
}

fn push_bassa_vah_scx_chunk_0(v: &mut Vec<ClassUnicodeRange>)
    ensures
        rview(final(v)@) == rview(old(v)@) + bassa_vah_scx_chunk_0(),
{
    let ghost o = rview(v@);
    push_range(v, '\u{16AD0}', '\u{16AED}');
    push_range(v, '\u{16AF0}', '\u{16AF5}');
    assert(rview(v@) =~= o + bassa_vah_scx_chunk_0());
}

pub fn bassa_vah_scx_class() -> (v: Vec<ClassUnicodeRange>)
    ensures
        rview(v@) == bassa_vah_scx_ranges(),
{
    let mut v: Vec<ClassUnicodeRange> = Vec::new();
    assert(rview(v@) =~= Seq::<SRange>::empty());
    push_bassa_vah_scx_chunk_0(&mut v);
    assert(rview(v@) =~= bassa_vah_scx_chunk_0());
    v
}

pub open spec fn batak_scx_chunk_0() -> Seq<SRange> {
    seq![(0x1BC0int, 0x1BF3int), (0x1BFCint, 0x1BFFint)]
}

/// The ranges of the property Batak.
pub open spec fn batak_scx_ranges() -> Seq<SRange> {
    batak_scx_chunk_0()
}

pub proof fn lemma_batak_scx_canonical()
    ensures
        canonical(batak_scx_ranges()),
{
    reveal_with_fuel(canonical, 9);
    assert(canonical(batak_scx_chunk_0()));
}

fn push_batak_scx_chunk_0(v: &mut Vec<ClassUnicodeRange>)
    ensures
        rview(final(v)@) == rview(old(v)@) + batak_scx_chunk_0(),
{
    let ghost o = rview(v@);
    push_range(v, '\u{1BC0}', '\u{1BF3}');
    push_range(v, '\u{1BFC}', '\u{1BFF}');
    assert(rview(v@) =~= o + batak_scx_chunk_0());
}

pub fn batak_scx_class() -> (v: Vec<ClassUnicodeRange>)
    ensures
        rview(v@) == batak_scx_ranges(),
{
    let mut v: Vec<ClassUnicodeRange> = Vec::new();
    assert(rview(v@) =~= Seq::<SRange>::empty());
    push_batak_scx_chunk_0(&mut v);
    assert(rview(v@) =~= batak_scx_chunk_0());
    v
}

pub open spec fn bengali_scx_chunk_0() -> Seq<SRange> {
    seq![(0x2BCint, 0x2BCint), (0x951int, 0x952int), (0x964int, 0x965int), (0x980int, 0x983int), (0x985int, 0x98Cint), (0x98Fint, 0x990int), (0x993int, 0x9A8int), (0x9AAint, 0x9B0int)]
}

pub open spec fn bengali_scx_chunk_1() -> Seq<SRange> {
    seq![(0x9B2int, 0x9B2int), (0x9B6int, 0x9B9int), (0x9BCint, 0x9C4int), (0x9C7int, 0x9C8int), (0x9CBint, 0x9CEint), (0x9D7int, 0x9D7int), (0x9DCint, 0x9DDint), (0x9DFint, 0x9E3int)]
}

pub open spec fn bengali_scx_chunk_2() -> Seq<SRange> {
    seq![(0x9E6int, 0x9FEint), (0x1CD0int, 0x1CD0int), (0x1CD2int, 0x1CD2int), (0x1CD5int, 0x1CD6int), (0x1CD8int, 0x1CD8int), (0x1CE1int, 0x1CE1int), (0x1CEAint, 0x1CEAint), (0x1CEDint, 0x1CEDint)]
}

pub open spec fn bengali_scx_chunk_3() -> Seq<SRange> {
    seq![(0x1CF2int, 0x1CF2int), (0x1CF5int, 0x1CF7int), (0xA8F1int, 0xA8F1int)]
}

/// The ranges of the property Bengali.
pub open spec fn bengali_scx_ranges() -> Seq<SRange> {
    bengali_scx_chunk_0() + bengali_scx_chunk_1() + bengali_scx_chunk_2() + bengali_scx_chunk_3()
}

pub proof fn lemma_bengali_scx_canonical()
    ensures
        canonical(bengali_scx_ranges()),
{
    reveal_with_fuel(canonical, 9);
    assert(canonical(bengali_scx_chunk_0()));
    assert(canonical(bengali_scx_chunk_1()));
    assert(canonical(bengali_scx_chunk_2()));
    assert(canonical(bengali_scx_chunk_3()));
    lemma_canonical_append(bengali_scx_chunk_0(), bengali_scx_chunk_1());
    lemma_canonical_append(bengali_scx_chunk_0() + bengali_scx_chunk_1(), bengali_scx_chunk_2());
    lemma_canonical_append(bengali_scx_chunk_0() + bengali_scx_chunk_1() + bengali_scx_chunk_2(), bengali_scx_chunk_3());
}

fn push_bengali_scx_chunk_0(v: &mut Vec<ClassUnicodeRange>)
    ensures
        rview(final(v)@) == rview(old(v)@) + bengali_scx_chunk_0(),
{
    let ghost o = rview(v@);
    push_range(v, '\u{2BC}', '\u{2BC}');
    push_range(v, '\u{951}', '\u{952}');
    push_range(v, '\u{964}', '\u{965}');
    push_range(v, '\u{980}', '\u{983}');
    push_range(v, '\u{985}', '\u{98C}');
    push_range(v, '\u{98F}', '\u{990}');
    push_range(v, '\u{993}', '\u{9A8}');
    push_range(v, '\u{9AA}', '\u{9B0}');
    assert(rview(v@) =~= o + bengali_scx_chunk_0());
}

fn push_bengali_scx_chunk_1(v: &mut Vec<ClassUnicodeRange>)
    ensures
        rview(final(v)@) == rview(old(v)@) + bengali_scx_chunk_1(),
{
    let ghost o = rview(v@);
    push_range(v, '\u{9B2}', '\u{9B2}');
    push_range(v, '\u{9B6}', '\u{9B9}');
    push_range(v, '\u{9BC}', '\u{9C4}');
    push_range(v, '\u{9C7}', '\u{9C8}');
    push_range(v, '\u{9CB}', '\u{9CE}');
    push_range(v, '\u{9D7}', '\u{9D7}');
    push_range(v, '\u{9DC}', '\u{9DD}');
    push_range(v, '\u{9DF}', '\u{9E3}');
    assert(rview(v@) =~= o + bengali_scx_chunk_1());
}

fn push_bengali_scx_chunk_2(v: &mut Vec<ClassUnicodeRange>)
    ensures
        rview(final(v)@) == rview(old(v)@) + bengali_scx_chunk_2(),
{
    let ghost o = rview(v@);
    push_range(v, '\u{9E6}', '\u{9FE}');
    push_range(v, '\u{1CD0}', '\u{1CD0}');
    push_range(v, '\u{1CD2}', '\u{1CD2}');
    push_range(v, '\u{1CD5}', '\u{1CD6}');
    push_range(v, '\u{1CD8}', '\u{1CD8}');
    push_range(v, '\u{1CE1}', '\u{1CE1}');
    push_range(v, '\u{1CEA}', '\u{1CEA}');
    push_range(v, '\u{1CED}', '\u{1CED}');
    assert(rview(v@) =~= o + bengali_scx_chunk_2());
}

fn push_bengali_scx_chunk_3(v: &mut Vec<ClassUnicodeRange>)
    ensures
        rview(final(v)@) == rview(old(v)@) + bengali_scx_chunk_3(),
{
    let ghost o = rview(v@);
    push_range(v, '\u{1CF2}', '\u{1CF2}');
    push_range(v, '\u{1CF5}', '\u{1CF7}');
    push_range(v, '\u{A8F1}', '\u{A8F1}');
    assert(rview(v@) =~= o + bengali_scx_chunk_3());
}

pub fn bengali_scx_class() -> (v: Vec<ClassUnicodeRange>)
    ensures
        rview(v@) == bengali_scx_ranges(),
{
    let mut v: Vec<ClassUnicodeRange> = Vec::new();
    assert(rview(v@) =~= Seq::<SRange>::empty());
    push_bengali_scx_chunk_0(&mut v);
    assert(rview(v@) =~= bengali_scx_chunk_0());
    push_bengali_scx_chunk_1(&mut v);
    assert(rview(v@) =~= bengali_scx_chunk_0() + bengali_scx_chunk_1());
    push_bengali_scx_chunk_2(&mut v);
    assert(rview(v@) =~= bengali_scx_chunk_0() + bengali_scx_chunk_1() + bengali_scx_chunk_2());
    push_bengali_scx_chunk_3(&mut v);
    assert(rview(v@) =~= bengali_scx_chunk_0() + bengali_scx_chunk_1() + bengali_scx_chunk_2() + bengali_scx_chunk_3());
    v
}

pub open spec fn bhaiksuki_scx_chunk_0() -> Seq<SRange> {
    seq![(0x11C00int, 0x11C08int), (0x11C0Aint, 0x11C36int), (0x11C38int, 0x11C45int), (0x11C50int, 0x11C6Cint)]
}

/// The ranges of the property Bhaiksuki.
pub open spec fn bhaiksuki_scx_ranges() -> Seq<SRange> {
    bhaiksuki_scx_chunk_0()
}

pub proof fn lemma_bhaiksuki_scx_canonical()
    ensures
        canonical(bhaiksuki_scx_ranges()),
{
    reveal_with_fuel(canonical, 9);
    assert(canonical(bhaiksuki_scx_chunk_0()));
}

fn push_bhaiksuki_scx_chunk_0(v: &mut Vec<ClassUnicodeRange>)
    ensures
        rview(final(v)@) == rview(old(v)@) + bhaiksuki_scx_chunk_0(),
{
    let ghost o = rview(v@);
    push_range(v, '\u{11C00}', '\u{11C08}');
    push_range(v, '\u{11C0A}', '\u{11C36}');
    push_range(v, '\u{11C38}', '\u{11C45}');
    push_range(v, '\u{11C50}', '\u{11C6C}');
    assert(rview(v@) =~= o + bhaiksuki_scx_chunk_0());
}

pub fn bhaiksuki_scx_class() -> (v: Vec<ClassUnicodeRange>)
    ensures
        rview(v@) == bhaiksuki_scx_ranges(),
{
    let mut v: Vec<ClassUnicodeRange> = Vec::new();
    assert(rview(v@) =~= Seq::<SRange>::empty());
    push_bhaiksuki_scx_chunk_0(&mut v);
    assert(rview(v@) =~= bhaiksuki_scx_chunk_0());
    v
}

pub open spec fn bopomofo_scx_chunk_0() -> Seq<SRange> {
    seq![(0x2C7int, 0x2C7int), (0x2C9int, 0x2CBint), (0x2D9int, 0x2D9int), (0x2EAint, 0x2EBint), (0x3001int, 0x3003int), (0x3008int, 0x3011int), (0x3013int, 0x301Fint), (0x302Aint, 0x302Dint)]
}

pub open spec fn bopomofo_scx_chunk_1() -> Seq<SRange> {
    seq![(0x3030int, 0x3030int), (0x3037int, 0x3037int), (0x30FBint, 0x30FBint), (0x3105int, 0x312Fint), (0x31A0int, 0x31BFint), (0xFE45int, 0xFE46int), (0xFF61int, 0xFF65int)]
}

/// The ranges of the property Bopomofo.
pub open spec fn bopomofo_scx_ranges() -> Seq<SRange> {
    bopomofo_scx_chunk_0() + bopomofo_scx_chunk_1()
}

pub proof fn lemma_bopomofo_scx_canonical()
    ensures
        canonical(bopomofo_scx_ranges()),
{
    reveal_with_fuel(canonical, 9);
    assert(canonical(bopomofo_scx_chunk_0()));
    assert(canonical(bopomofo_scx_chunk_1()));
    lemma_canonical_append(bopomofo_scx_chunk_0(), bopomofo_scx_chunk_1());
}

fn push_bopomofo_scx_chunk_0(v: &mut Vec<ClassUnicodeRange>)
    ensures
        rview(final(v)@) == rview(old(v)@) + bopomofo_scx_chunk_0(),
{
    let ghost o = rview(v@);
    push_range(v, '\u{2C7}', '\u{2C7}');
    push_range(v, '\u{2C9}', '\u{2CB}');
    push_range(v, '\u{2D9}', '\u{2D9}');
    push_range(v, '\u{2EA}', '\u{2EB}');
    push_range(v, '\u{3001}', '\u{3003}');
    push_range(v, '\u{3008}', '\u{3011}');
    push_range(v, '\u{3013}', '\u{301F}');
    push_range(v, '\u{302A}', '\u{302D}');
    assert(rview(v@) =~= o + bopomofo_scx_chunk_0());
}

fn push_bopomofo_scx_chunk_1(v: &mut Vec<ClassUnicodeRange>)
    ensures
        rview(final(v)@) == rview(old(v)@) + bopomofo_scx_chunk_1(),
{
    let ghost o = rview(v@);
    push_range(v, '\u{3030}', '\u{3030}');
    push_range(v, '\u{3037}', '\u{3037}');
    push_range(v, '\u{30FB}', '\u{30FB}');
    push_range(v, '\u{3105}', '\u{312F}');
    push_range(v, '\u{31A0}', '\u{31BF}');
    push_range(v, '\u{FE45}', '\u{FE46}');
    push_range(v, '\u{FF61}', '\u{FF65}');
    assert(rview(v@) =~= o + bopomofo_scx_chunk_1());
}

pub fn bopomofo_scx_class() -> (v: Vec<ClassUnicodeRange>)
    ensures
        rview(v@) == bopomofo_scx_ranges(),
{
    let mut v: Vec<ClassUnicodeRange> = Vec::new();
    assert(rview(v@) =~= Seq::<SRange>::empty());
    push_bopomofo_scx_chunk_0(&mut v);
    assert(rview(v@) =~= bopomofo_scx_chunk_0());
    push_bopomofo_scx_chunk_1(&mut v);
    assert(rview(v@) =~= bopomofo_scx_chunk_0() + bopomofo_scx_chunk_1());
    v
}

pub open spec fn brahmi_scx_chunk_0() -> Seq<SRange> {
    seq![(0x11000int, 0x1104Dint), (0x11052int, 0x11075int), (0x1107Fint, 0x1107Fint)]
}

/// The ranges of the property Brahmi.
pub open spec fn brahmi_scx_ranges() -> Seq<SRange> {
    brahmi_scx_chunk_0()
}

pub proof fn lemma_brahmi_scx_canonical()
    ensures
        canonical(brahmi_scx_ranges()),
{
    reveal_with_fuel(canonical, 9);
    assert(canonical(brahmi_scx_chunk_0()));
}

fn push_brahmi_scx_chunk_0(v: &mut Vec<ClassUnicodeRange>)
    ensures
        rview(final(v)@) == rview(old(v)@) + brahmi_scx_chunk_0(),
{
    let ghost o = rview(v@);
    push_range(v, '\u{11000}', '\u{1104D}');
    push_range(v, '\u{11052}', '\u{11075}');
    push_range(v, '\u{1107F}', '\u{1107F}');
    assert(rview(v@) =~= o + brahmi_scx_chunk_0());
}

pub fn brahmi_scx_class() -> (v: Vec<ClassUnicodeRange>)
    ensures
        rview(v@) == brahmi_scx_ranges(),
{
    let mut v: Vec<ClassUnicodeRange> = Vec::new();
    assert(rview(v@) =~= Seq::<SRange>::empty());
    push_brahmi_scx_chunk_0(&mut v);
    assert(rview(v@) =~= brahmi_scx_chunk_0());
    v
}

pub open spec fn braille_scx_chunk_0() -> Seq<SRange> {
    seq![(0x2800int, 0x28FFint)]
}

/// The ranges of the property Braille.
pub open spec fn braille_scx_ranges() -> Seq<SRange> {
    braille_scx_chunk_0()
}

pub proof fn lemma_braille_scx_canonical()
    ensures
        canonical(braille_scx_ranges()),
{
    reveal_with_fuel(canonical, 9);
    assert(canonical(braille_scx_chunk_0()));
}

fn push_braille_scx_chunk_0(v: &mut Vec<ClassUnicodeRange>)
    ensures
        rview(final(v)@) == rview(old(v)@) + braille_scx_chunk_0(),
{
    let ghost o = rview(v@);
    push_range(v, '\u{2800}', '\u{28FF}');
    assert(rview(v@) =~= o + braille_scx_chunk_0());
}

pub fn braille_scx_class() -> (v: Vec<ClassUnicodeRange>)
    ensures
        rview(v@) == braille_scx_ranges(),
{
    let mut v: Vec<ClassUnicodeRange> = Vec::new();
    assert(rview(v@) =~= Seq::<SRange>::empty());
    push_braille_scx_chunk_0(&mut v);
    assert(rview(v@) =~= braille_scx_chunk_0());
    v
}

pub open spec fn buginese_scx_chunk_0() -> Seq<SRange> {
    seq![(0x1A00int, 0x1A1Bint), (0x1A1Eint, 0x1A1Fint), (0xA9CFint, 0xA9CFint)]
}

/// The ranges of the property Buginese.
pub open spec fn buginese_scx_ranges() -> Seq<SRange> {
    buginese_scx_chunk_0()
}

pub proof fn lemma_buginese_scx_canonical()
    ensures
        canonical(buginese_scx_ranges()),
{
    reveal_with_fuel(canonical, 9);
    assert(canonical(buginese_scx_chunk_0()));
}

fn push_buginese_scx_chunk_0(v: &mut Vec<ClassUnicodeRange>)
    ensures
        rview(final(v)@) == rview(old(v)@) + buginese_scx_chunk_0(),
{
    let ghost o = rview(v@);
    push_range(v, '\u{1A00}', '\u{1A1B}');
    push_range(v, '\u{1A1E}', '\u{1A1F}');
    push_range(v, '\u{A9CF}', '\u{A9CF}');
    assert(rview(v@) =~= o + buginese_scx_chunk_0());
}

pub fn buginese_scx_class() -> (v: Vec<ClassUnicodeRange>)
    ensures
        rview(v@) == buginese_scx_ranges(),
{
    let mut v: Vec<ClassUnicodeRange> = Vec::new();
    assert(rview(v@) =~= Seq::<SRange>::empty());
    push_buginese_scx_chunk_0(&mut v);
    assert(rview(v@) =~= buginese_scx_chunk_0());
    v
}

pub open spec fn buhid_scx_chunk_0() -> Seq<SRange> {
    seq![(0x1735int, 0x1736int), (0x1740int, 0x1753int)]
}

/// The ranges of the property Buhid.
pub open spec fn buhid_scx_ranges() -> Seq<SRange> {
    buhid_scx_chunk_0()
}

pub proof fn lemma_buhid_scx_canonical()
    ensures
        canonical(buhid_scx_ranges()),
{
    reveal_with_fuel(canonical, 9);
    assert(canonical(buhid_scx_chunk_0()));
}

fn push_buhid_scx_chunk_0(v: &mut Vec<ClassUnicodeRange>)
    ensures
        rview(final(v)@) == rview(old(v)@) + buhid_scx_chunk_0(),
{
    let ghost o = rview(v@);
    push_range(v, '\u{1735}', '\u{1736}');
    push_range(v, '\u{1740}', '\u{1753}');
    assert(rview(v@) =~= o + buhid_scx_chunk_0());
}

pub fn buhid_scx_class() -> (v: Vec<ClassUnicodeRange>)
    ensures
        rview(v@) == buhid_scx_ranges(),
{
    let mut v: Vec<ClassUnicodeRange> = Vec::new();
    assert(rview(v@) =~= Seq::<SRange>::empty());
    push_buhid_scx_chunk_0(&mut v);
    assert(rview(v@) =~= buhid_scx_chunk_0());
    v
}

pub open spec fn canadian_aboriginal_scx_chunk_0() -> Seq<SRange> {
    seq![(0x1400int, 0x167Fint), (0x18B0int, 0x18F5int), (0x11AB0int, 0x11ABFint)]
}

/// The ranges of the property Canadian_Aboriginal.
pub open spec fn canadian_aboriginal_scx_ranges() -> Seq<SRange> {
    canadian_aboriginal_scx_chunk_0()
}

pub proof fn lemma_canadian_aboriginal_scx_canonical()
    ensures
        canonical(canadian_aboriginal_scx_ranges()),
{
    reveal_with_fuel(canonical, 9);
    assert(canonical(canadian_aboriginal_scx_chunk_0()));
}

fn push_canadian_aboriginal_scx_chunk_0(v: &mut Vec<ClassUnicodeRange>)
    ensures
        rview(final(v)@) == rview(old(v)@) + canadian_aboriginal_scx_chunk_0(),
{
    let ghost o = rview(v@);
    push_range(v, '\u{1400}', '\u{167F}');
    push_range(v, '\u{18B0}', '\u{18F5}');
    push_range(v, '\u{11AB0}', '\u{11ABF}');
    assert(rview(v@) =~= o + canadian_aboriginal_scx_chunk_0());
}

pub fn canadian_aboriginal_scx_class() -> (v: Vec<ClassUnicodeRange>)
    ensures
        rview(v@) == canadian_aboriginal_scx_ranges(),
{
    let mut v: Vec<ClassUnicodeRange> = Vec::new();
    assert(rview(v@) =~= Seq::<SRange>::empty());
    push_canadian_aboriginal_scx_chunk_0(&mut v);
    assert(rview(v@) =~= canadian_aboriginal_scx_chunk_0());
    v
}

pub open spec fn carian_scx_chunk_0() -> Seq<SRange> {
    seq![(0xB7int, 0xB7int), (0x205Aint, 0x205Aint), (0x205Dint, 0x205Dint), (0x2E31int, 0x2E31int), (0x102A0int, 0x102D0int)]
}

/// The ranges of the property Carian.
pub open spec fn carian_scx_ranges() -> Seq<SRange> {
    carian_scx_chunk_0()
}

pub proof fn lemma_carian_scx_canonical()
    ensures
        canonical(carian_scx_ranges()),
{
    reveal_with_fuel(canonical, 9);
    assert(canonical(carian_scx_chunk_0()));
}

fn push_carian_scx_chunk_0(v: &mut Vec<ClassUnicodeRange>)
    ensures
        rview(final(v)@) == rview(old(v)@) + carian_scx_chunk_0(),
{
    let ghost o = rview(v@);
    push_range(v, '\u{B7}', '\u{B7}');
    push_range(v, '\u{205A}', '\u{205A}');
    push_range(v, '\u{205D}', '\u{205D}');
    push_range(v, '\u{2E31}', '\u{2E31}');
    push_range(v, '\u{102A0}', '\u{102D0}');
    assert(rview(v@) =~= o + carian_scx_chunk_0());
}

pub fn carian_scx_class() -> (v: Vec<ClassUnicodeRange>)
    ensures
        rview(v@) == carian_scx_ranges(),
{
    let mut v: Vec<ClassUnicodeRange> = Vec::new();
    assert(rview(v@) =~= Seq::<SRange>::empty());
    push_carian_scx_chunk_0(&mut v);
    assert(rview(v@) =~= carian_scx_chunk_0());
    v
}

pub open spec fn caucasian_albanian_scx_chunk_0() -> Seq<SRange> {
    seq![(0x304int, 0x304int), (0x331int, 0x331int), (0x35Eint, 0x35Eint), (0x10530int, 0x10563int), (0x1056Fint, 0x1056Fint)]
}

/// The ranges of the property Caucasian_Albanian.
pub open spec fn caucasian_albanian_scx_ranges() -> Seq<SRange> {
    caucasian_albanian_scx_chunk_0()
}

pub proof fn lemma_caucasian_albanian_scx_canonical()
    ensures
        canonical(caucasian_albanian_scx_ranges()),
{
    reveal_with_fuel(canonical, 9);
    assert(canonical(caucasian_albanian_scx_chunk_0()));
}

fn push_caucasian_albanian_scx_chunk_0(v: &mut Vec<ClassUnicodeRange>)
    ensures
        rview(final(v)@) == rview(old(v)@) + caucasian_albanian_scx_chunk_0(),
{
    let ghost o = rview(v@);
    push_range(v, '\u{304}', '\u{304}');
    push_range(v, '\u{331}', '\u{331}');
    push_range(v, '\u{35E}', '\u{35E}');
    push_range(v, '\u{10530}', '\u{10563}');
    push_range(v, '\u{1056F}', '\u{1056F}');
    assert(rview(v@) =~= o + caucasian_albanian_scx_chunk_0());
}

pub fn caucasian_albanian_scx_class() -> (v: Vec<ClassUnicodeRange>)
    ensures
        rview(v@) == caucasian_albanian_scx_ranges(),
{
    let mut v: Vec<ClassUnicodeRange> = Vec::new();
    assert(rview(v@) =~= Seq::<SRange>::empty());
    push_caucasian_albanian_scx_chunk_0(&mut v);
    assert(rview(v@) =~= caucasian_albanian_scx_chunk_0());
    v
}

pub open spec fn chakma_scx_chunk_0() -> Seq<SRange> {
    seq![(0x9E6int, 0x9EFint), (0x1040int, 0x1049int), (0x11100int, 0x11134int), (0x11136int, 0x11147int)]
}

/// The ranges of the property Chakma.
pub open spec fn chakma_scx_ranges() -> Seq<SRange> {
    chakma_scx_chunk_0()
}

pub proof fn lemma_chakma_scx_canonical()
    ensures
        canonical(chakma_scx_ranges()),
{
    reveal_with_fuel(canonical, 9);
    assert(canonical(chakma_scx_chunk_0()));
}

fn push_chakma_scx_chunk_0(v: &mut Vec<ClassUnicodeRange>)
    ensures
        rview(final(v)@) == rview(old(v)@) + chakma_scx_chunk_0(),
{
    let ghost o = rview(v@);
    push_range(v, '\u{9E6}', '\u{9EF}');
    push_range(v, '\u{1040}', '\u{1049}');
    push_range(v, '\u{11100}', '\u{11134}');
    push_range(v, '\u{11136}', '\u{11147}');
    assert(rview(v@) =~= o + chakma_scx_chunk_0());
}

pub fn chakma_scx_class() -> (v: Vec<ClassUnicodeRange>)
    ensures
        rview(v@) == chakma_scx_ranges(),
{
    let mut v: Vec<ClassUnicodeRange> = Vec::new();
    assert(rview(v@) =~= Seq::<SRange>::empty());
    push_chakma_scx_chunk_0(&mut v);
    assert(rview(v@) =~= chakma_scx_chunk_0());
    v
}

pub open spec fn cham_scx_chunk_0() -> Seq<SRange> {
    seq![(0xAA00int, 0xAA36int), (0xAA40int, 0xAA4Dint), (0xAA50int, 0xAA59int), (0xAA5Cint, 0xAA5Fint)]
}

/// The ranges of the property Cham.
pub open spec fn cham_scx_ranges() -> Seq<SRange> {
    cham_scx_chunk_0()
}

pub proof fn lemma_cham_scx_canonical()
    ensures
        canonical(cham_scx_ranges()),
{
    reveal_with_fuel(canonical, 9);
    assert(canonical(cham_scx_chunk_0()));
}

fn push_cham_scx_chunk_0(v: &mut Vec<ClassUnicodeRange>)
    ensures
        rview(final(v)@) == rview(old(v)@) + cham_scx_chunk_0(),
{
    let ghost o = rview(v@);
    push_range(v, '\u{AA00}', '\u{AA36}');
    push_range(v, '\u{AA40}', '\u{AA4D}');
    push_range(v, '\u{AA50}', '\u{AA59}');
    push_range(v, '\u{AA5C}', '\u{AA5F}');
    assert(rview(v@) =~= o + cham_scx_chunk_0());
}

pub fn cham_scx_class() -> (v: Vec<ClassUnicodeRange>)
    ensures
        rview(v@) == cham_scx_ranges(),
{
    let mut v: Vec<ClassUnicodeRange> = Vec::new();
    assert(rview(v@) =~= Seq::<SRange>::empty());
    push_cham_scx_chunk_0(&mut v);
    assert(rview(v@) =~= cham_scx_chunk_0());
    v
}

pub open spec fn cherokee_scx_chunk_0() -> Seq<SRange> {
    seq![(0x300int, 0x302int), (0x304int, 0x304int), (0x30Bint, 0x30Cint), (0x323int, 0x324int), (0x330int, 0x331int), (0x13A0int, 0x13F5int), (0x13F8int, 0x13FDint), (0xAB70int, 0xABBFint)]
}

/// The ranges of the property Cherokee.
pub open spec fn cherokee_scx_ranges() -> Seq<SRange> {
    cherokee_scx_chunk_0()
}

pub proof fn lemma_cherokee_scx_canonical()
    ensures
        canonical(cherokee_scx_ranges()),
{
    reveal_with_fuel(canonical, 9);
    assert(canonical(cherokee_scx_chunk_0()));
}

fn push_cherokee_scx_chunk_0(v: &mut Vec<ClassUnicodeRange>)
    ensures
        rview(final(v)@) == rview(old(v)@) + cherokee_scx_chunk_0(),
{
    let ghost o = rview(v@);
    push_range(v, '\u{300}', '\u{302}');
    push_range(v, '\u{304}', '\u{304}');
    push_range(v, '\u{30B}', '\u{30C}');
    push_range(v, '\u{323}', '\u{324}');
    push_range(v, '\u{330}', '\u{331}');
    push_range(v, '\u{13A0}', '\u{13F5}');
    push_range(v, '\u{13F8}', '\u{13FD}');
    push_range(v, '\u{AB70}', '\u{ABBF}');
    assert(rview(v@) =~= o + cherokee_scx_chunk_0());
}

pub fn cherokee_scx_class() -> (v: Vec<ClassUnicodeRange>)
    ensures
        rview(v@) == cherokee_scx_ranges(),
{
    let mut v: Vec<ClassUnicodeRange> = Vec::new();
    assert(rview(v@) =~= Seq::<SRange>::empty());
    push_cherokee_scx_chunk_0(&mut v);
    assert(rview(v@) =~= cherokee_scx_chunk_0());
    v
}

pub open spec fn chorasmian_scx_chunk_0() -> Seq<SRange> {
    seq![(0x10FB0int, 0x10FCBint)]
}

/// The ranges of the property Chorasmian.
pub open spec fn chorasmian_scx_ranges() -> Seq<SRange> {
    chorasmian_scx_chunk_0()
}

pub proof fn lemma_chorasmian_scx_canonical()
    ensures
        canonical(chorasmian_scx_ranges()),
{
    reveal_with_fuel(canonical, 9);
    assert(canonical(chorasmian_scx_chunk_0()));
}

fn push_chorasmian_scx_chunk_0(v: &mut Vec<ClassUnicodeRange>)
    ensures
        rview(final(v)@) == rview(old(v)@) + chorasmian_scx_chunk_0(),
{
    let ghost o = rview(v@);
    push_range(v, '\u{10FB0}', '\u{10FCB}');
    assert(rview(v@) =~= o + chorasmian_scx_chunk_0());
}

pub fn chorasmian_scx_class() -> (v: Vec<ClassUnicodeRange>)
    ensures
        rview(v@) == chorasmian_scx_ranges(),
{
    let mut v: Vec<ClassUnicodeRange> = Vec::new();
    assert(rview(v@) =~= Seq::<SRange>::empty());
    push_chorasmian_scx_chunk_0(&mut v);
    assert(rview(v@) =~= chorasmian_scx_chunk_0());
    v
}

pub open spec fn common_scx_chunk_0() -> Seq<SRange> {
    seq![(0x0int, 0x40int), (0x5Bint, 0x60int), (0x7Bint, 0xA9int), (0xABint, 0xB6int), (0xB8int, 0xB9int), (0xBBint, 0xBFint), (0xD7int, 0xD7int), (0xF7int, 0xF7int)]
}

pub open spec fn common_scx_chunk_1() -> Seq<SRange> {
    seq![(0x2B9int, 0x2BBint), (0x2BDint, 0x2C6int), (0x2C8int, 0x2C8int), (0x2CCint, 0x2CCint), (0x2CEint, 0x2D6int), (0x2D8int, 0x2D8int), (0x2DAint, 0x2DFint), (0x2E5int, 0x2E9int)]
}

pub open spec fn common_scx_chunk_2() -> Seq<SRange> {
    seq![(0x2ECint, 0x2FFint), (0x37Eint, 0x37Eint), (0x385int, 0x385int), (0x387int, 0x387int), (0x605int, 0x605int), (0x6DDint, 0x6DDint), (0x8E2int, 0x8E2int), (0xE3Fint, 0xE3Fint)]
}

pub open spec fn common_scx_chunk_3() -> Seq<SRange> {
    seq![(0xFD5int, 0xFD8int), (0x2000int, 0x200Bint), (0x200Eint, 0x202Eint), (0x2030int, 0x204Eint), (0x2050int, 0x2059int), (0x205Bint, 0x205Cint), (0x205Eint, 0x2064int), (0x2066int, 0x2070int)]
}

pub open spec fn common_scx_chunk_4() -> Seq<SRange> {
    seq![(0x2074int, 0x207Eint), (0x2080int, 0x208Eint), (0x20A0int, 0x20C0int), (0x2100int, 0x2125int), (0x2127int, 0x2129int), (0x212Cint, 0x2131int), (0x2133int, 0x214Dint), (0x214Fint, 0x215Fint)]
}

pub open spec fn common_scx_chunk_5() -> Seq<SRange> {
    seq![(0x2189int, 0x218Bint), (0x2190int, 0x2429int), (0x2440int, 0x244Aint), (0x2460int, 0x27FFint), (0x2900int, 0x2B73int), (0x2B76int, 0x2B95int), (0x2B97int, 0x2BFFint), (0x2E00int, 0x2E16int)]
}

pub open spec fn common_scx_chunk_6() -> Seq<SRange> {
    seq![(0x2E18int, 0x2E2Fint), (0x2E32int, 0x2E3Bint), (0x2E3Dint, 0x2E40int), (0x2E42int, 0x2E42int), (0x2E44int, 0x2E5Dint), (0x3000int, 0x3000int), (0x3004int, 0x3004int), (0x3012int, 0x3012int)]
}

pub open spec fn common_scx_chunk_7() -> Seq<SRange> {
    seq![(0x3020int, 0x3020int), (0x3036int, 0x3036int), (0x3248int, 0x325Fint), (0x327Fint, 0x327Fint), (0x32B1int, 0x32BFint), (0x32CCint, 0x32CFint), (0x3371int, 0x337Aint), (0x3380int, 0x33DFint)]
}

pub open spec fn common_scx_chunk_8() -> Seq<SRange> {
    seq![(0x33FFint, 0x33FFint), (0x4DC0int, 0x4DFFint), (0xA708int, 0xA721int), (0xA788int, 0xA78Aint), (0xAB5Bint, 0xAB5Bint), (0xAB6Aint, 0xAB6Bint), (0xFE10int, 0xFE19int), (0xFE30int, 0xFE44int)]
}

pub open spec fn common_scx_chunk_9() -> Seq<SRange> {
    seq![(0xFE47int, 0xFE52int), (0xFE54int, 0xFE66int), (0xFE68int, 0xFE6Bint), (0xFEFFint, 0xFEFFint), (0xFF01int, 0xFF20int), (0xFF3Bint, 0xFF40int), (0xFF5Bint, 0xFF60int), (0xFFE0int, 0xFFE6int)]
}

pub open spec fn common_scx_chunk_10() -> Seq<SRange> {
    seq![(0xFFE8int, 0xFFEEint), (0xFFF9int, 0xFFFDint), (0x10190int, 0x1019Cint), (0x101D0int, 0x101FCint), (0x1CC00int, 0x1CCF9int), (0x1CD00int, 0x1CEB3int), (0x1CF50int, 0x1CFC3int), (0x1D000int, 0x1D0F5int)]
}

pub open spec fn common_scx_chunk_11() -> Seq<SRange> {
    seq![(0x1D100int, 0x1D126int), (0x1D129int, 0x1D166int), (0x1D16Aint, 0x1D17Aint), (0x1D183int, 0x1D184int), (0x1D18Cint, 0x1D1A9int), (0x1D1AEint, 0x1D1EAint), (0x1D2C0int, 0x1D2D3int), (0x1D2E0int, 0x1D2F3int)]
}

pub open spec fn common_scx_chunk_12() -> Seq<SRange> {
    seq![(0x1D300int, 0x1D356int), (0x1D372int, 0x1D378int), (0x1D400int, 0x1D454int), (0x1D456int, 0x1D49Cint), (0x1D49Eint, 0x1D49Fint), (0x1D4A2int, 0x1D4A2int), (0x1D4A5int, 0x1D4A6int), (0x1D4A9int, 0x1D4ACint)]
}

pub open spec fn common_scx_chunk_13() -> Seq<SRange> {
    seq![(0x1D4AEint, 0x1D4B9int), (0x1D4BBint, 0x1D4BBint), (0x1D4BDint, 0x1D4C3int), (0x1D4C5int, 0x1D505int), (0x1D507int, 0x1D50Aint), (0x1D50Dint, 0x1D514int), (0x1D516int, 0x1D51Cint), (0x1D51Eint, 0x1D539int)]
}

pub open spec fn common_scx_chunk_14() -> Seq<SRange> {
    seq![(0x1D53Bint, 0x1D53Eint), (0x1D540int, 0x1D544int), (0x1D546int, 0x1D546int), (0x1D54Aint, 0x1D550int), (0x1D552int, 0x1D6A5int), (0x1D6A8int, 0x1D7CBint), (0x1D7CEint, 0x1D7FFint), (0x1EC71int, 0x1ECB4int)]
}

pub open spec fn common_scx_chunk_15() -> Seq<SRange> {
    seq![(0x1ED01int, 0x1ED3Dint), (0x1F000int, 0x1F02Bint), (0x1F030int, 0x1F093int), (0x1F0A0int, 0x1F0AEint), (0x1F0B1int, 0x1F0BFint), (0x1F0C1int, 0x1F0CFint), (0x1F0D1int, 0x1F0F5int), (0x1F100int, 0x1F1ADint)]
}

pub open spec fn common_scx_chunk_16() -> Seq<SRange> {
    seq![(0x1F1E6int, 0x1F1FFint), (0x1F201int, 0x1F202int), (0x1F210int, 0x1F23Bint), (0x1F240int, 0x1F248int), (0x1F260int, 0x1F265int), (0x1F300int, 0x1F6D7int), (0x1F6DCint, 0x1F6ECint), (0x1F6F0int, 0x1F6FCint)]
}

pub open spec fn common_scx_chunk_17() -> Seq<SRange> {
    seq![(0x1F700int, 0x1F776int), (0x1F77Bint, 0x1F7D9int), (0x1F7E0int, 0x1F7EBint), (0x1F7F0int, 0x1F7F0int), (0x1F800int, 0x1F80Bint), (0x1F810int, 0x1F847int), (0x1F850int, 0x1F859int), (0x1F860int, 0x1F887int)]
}

pub open spec fn common_scx_chunk_18() -> Seq<SRange> {
    seq![(0x1F890int, 0x1F8ADint), (0x1F8B0int, 0x1F8BBint), (0x1F8C0int, 0x1F8C1int), (0x1F900int, 0x1FA53int), (0x1FA60int, 0x1FA6Dint), (0x1FA70int, 0x1FA7Cint), (0x1FA80int, 0x1FA89int), (0x1FA8Fint, 0x1FAC6int)]
}

pub open spec fn common_scx_chunk_19() -> Seq<SRange> {
    seq![(0x1FACEint, 0x1FADCint), (0x1FADFint, 0x1FAE9int), (0x1FAF0int, 0x1FAF8int), (0x1FB00int, 0x1FB92int), (0x1FB94int, 0x1FBF9int), (0xE0001int, 0xE0001int), (0xE0020int, 0xE007Fint)]
}

pub open spec fn common_scx_block_0() -> Seq<SRange> {
    common_scx_chunk_0() + common_scx_chunk_1() + common_scx_chunk_2() + common_scx_chunk_3() + common_scx_chunk_4() + common_scx_chunk_5() + common_scx_chunk_6() + common_scx_chunk_7() + common_scx_chunk_8() + common_scx_chunk_9()
}

pub open spec fn common_scx_block_1() -> Seq<SRange> {
    common_scx_chunk_10() + common_scx_chunk_11() + common_scx_chunk_12() + common_scx_chunk_13() + common_scx_chunk_14() + common_scx_chunk_15() + common_scx_chunk_16() + common_scx_chunk_17() + common_scx_chunk_18() + common_scx_chunk_19()
}

/// The ranges of the property Common.
pub open spec fn common_scx_ranges() -> Seq<SRange> {
    common_scx_block_0() + common_scx_block_1()
}

proof fn lemma_common_scx_block_0()
    ensures
        canonical(common_scx_block_0()),
        common_scx_block_0().len() > 0,
        common_scx_block_0()[0] == common_scx_chunk_0()[0],
        common_scx_block_0().last() == common_scx_chunk_9().last(),
{
    reveal_with_fuel(canonical, 9);
    assert(canonical(common_scx_chunk_0()));
    assert(canonical(common_scx_chunk_1()));
    assert(canonical(common_scx_chunk_2()));
    assert(canonical(common_scx_chunk_3()));
    assert(canonical(common_scx_chunk_4()));
    assert(canonical(common_scx_chunk_5()));
    assert(canonical(common_scx_chunk_6()));
    assert(canonical(common_scx_chunk_7()));
    assert(canonical(common_scx_chunk_8()));
    assert(canonical(common_scx_chunk_9()));
    lemma_canonical_append(common_scx_chunk_0(), common_scx_chunk_1());
    lemma_canonical_append(common_scx_chunk_0() + common_scx_chunk_1(), common_scx_chunk_2());
    lemma_canonical_append(common_scx_chunk_0() + common_scx_chunk_1() + common_scx_chunk_2(), common_scx_chunk_3());
    lemma_canonical_append(common_scx_chunk_0() + common_scx_chunk_1() + common_scx_chunk_2() + common_scx_chunk_3(), common_scx_chunk_4());
    lemma_canonical_append(common_scx_chunk_0() + common_scx_chunk_1() + common_scx_chunk_2() + common_scx_chunk_3() + common_scx_chunk_4(), common_scx_chunk_5());
    lemma_canonical_append(common_scx_chunk_0() + common_scx_chunk_1() + common_scx_chunk_2() + common_scx_chunk_3() + common_scx_chunk_4() + common_scx_chunk_5(), common_scx_chunk_6());
    lemma_canonical_append(common_scx_chunk_0() + common_scx_chunk_1() + common_scx_chunk_2() + common_scx_chunk_3() + common_scx_chunk_4() + common_scx_chunk_5() + common_scx_chunk_6(), common_scx_chunk_7());
    lemma_canonical_append(common_scx_chunk_0() + common_scx_chunk_1() + common_scx_chunk_2() + common_scx_chunk_3() + common_scx_chunk_4() + common_scx_chunk_5() + common_scx_chunk_6() + common_scx_chunk_7(), common_scx_chunk_8());
    lemma_canonical_append(common_scx_chunk_0() + common_scx_chunk_1() + common_scx_chunk_2() + common_scx_chunk_3() + common_scx_chunk_4() + common_scx_chunk_5() + common_scx_chunk_6() + common_scx_chunk_7() + common_scx_chunk_8(), common_scx_chunk_9());
}

proof fn lemma_common_scx_block_1()
    ensures
        canonical(common_scx_block_1()),
        common_scx_block_1().len() > 0,
        common_scx_block_1()[0] == common_scx_chunk_10()[0],
        common_scx_block_1().last() == common_scx_chunk_19().last(),
{
    reveal_with_fuel(canonical, 9);
    assert(canonical(common_scx_chunk_10()));
    assert(canonical(common_scx_chunk_11()));
    assert(canonical(common_scx_chunk_12()));
    assert(canonical(common_scx_chunk_13()));
    assert(canonical(common_scx_chunk_14()));
    assert(canonical(common_scx_chunk_15()));
    assert(canonical(common_scx_chunk_16()));
    assert(canonical(common_scx_chunk_17()));
    assert(canonical(common_scx_chunk_18()));
    assert(canonical(common_scx_chunk_19()));
    lemma_canonical_append(common_scx_chunk_10(), common_scx_chunk_11());
    lemma_canonical_append(common_scx_chunk_10() + common_scx_chunk_11(), common_scx_chunk_12());
    lemma_canonical_append(common_scx_chunk_10() + common_scx_chunk_11() + common_scx_chunk_12(), common_scx_chunk_13());
    lemma_canonical_append(common_scx_chunk_10() + common_scx_chunk_11() + common_scx_chunk_12() + common_scx_chunk_13(), common_scx_chunk_14());
    lemma_canonical_append(common_scx_chunk_10() + common_scx_chunk_11() + common_scx_chunk_12() + common_scx_chunk_13() + common_scx_chunk_14(), common_scx_chunk_15());
    lemma_canonical_append(common_scx_chunk_10() + common_scx_chunk_11() + common_scx_chunk_12() + common_scx_chunk_13() + common_scx_chunk_14() + common_scx_chunk_15(), common_scx_chunk_16());
    lemma_canonical_append(common_scx_chunk_10() + common_scx_chunk_11() + common_scx_chunk_12() + common_scx_chunk_13() + common_scx_chunk_14() + common_scx_chunk_15() + common_scx_chunk_16(), common_scx_chunk_17());
    lemma_canonical_append(common_scx_chunk_10() + common_scx_chunk_11() + common_scx_chunk_12() + common_scx_chunk_13() + common_scx_chunk_14() + common_scx_chunk_15() + common_scx_chunk_16() + common_scx_chunk_17(), common_scx_chunk_18());
    lemma_canonical_append(common_scx_chunk_10() + common_scx_chunk_11() + common_scx_chunk_12() + common_scx_chunk_13() + common_scx_chunk_14() + common_scx_chunk_15() + common_scx_chunk_16() + common_scx_chunk_17() + common_scx_chunk_18(), common_scx_chunk_19());
}

pub proof fn lemma_common_scx_canonical()
    ensures
        canonical(common_scx_ranges()),
{
    lemma_common_scx_block_0();
    lemma_common_scx_block_1();
    lemma_canonical_append(common_scx_block_0(), common_scx_block_1());
}

fn push_common_scx_chunk_0(v: &mut Vec<ClassUnicodeRange>)
    ensures
        rview(final(v)@) == rview(old(v)@) + common_scx_chunk_0(),
{
    let ghost o = rview(v@);
    push_range(v, '\u{0}', '\u{40}');
    push_range(v, '\u{5B}', '\u{60}');
    push_range(v, '\u{7B}', '\u{A9}');
    push_range(v, '\u{AB}', '\u{B6}');
    push_range(v, '\u{B8}', '\u{B9}');
    push_range(v, '\u{BB}', '\u{BF}');
    push_range(v, '\u{D7}', '\u{D7}');
    push_range(v, '\u{F7}', '\u{F7}');
    assert(rview(v@) =~= o + common_scx_chunk_0());
}

fn push_common_scx_chunk_1(v: &mut Vec<ClassUnicodeRange>)
    ensures
        rview(final(v)@) == rview(old(v)@) + common_scx_chunk_1(),
{
    let ghost o = rview(v@);
    push_range(v, '\u{2B9}', '\u{2BB}');
    push_range(v, '\u{2BD}', '\u{2C6}');
    push_range(v, '\u{2C8}', '\u{2C8}');
    push_range(v, '\u{2CC}', '\u{2CC}');
    push_range(v, '\u{2CE}', '\u{2D6}');
    push_range(v, '\u{2D8}', '\u{2D8}');
    push_range(v, '\u{2DA}', '\u{2DF}');
    push_range(v, '\u{2E5}', '\u{2E9}');
    assert(rview(v@) =~= o + common_scx_chunk_1());
}

fn push_common_scx_chunk_2(v: &mut Vec<ClassUnicodeRange>)
    ensures
        rview(final(v)@) == rview(old(v)@) + common_scx_chunk_2(),
{
    let ghost o = rview(v@);
    push_range(v, '\u{2EC}', '\u{2FF}');
    push_range(v, '\u{37E}', '\u{37E}');
    push_range(v, '\u{385}', '\u{385}');
    push_range(v, '\u{387}', '\u{387}');
    push_range(v, '\u{605}', '\u{605}');
    push_range(v, '\u{6DD}', '\u{6DD}');
    push_range(v, '\u{8E2}', '\u{8E2}');
    push_range(v, '\u{E3F}', '\u{E3F}');
    assert(rview(v@) =~= o + common_scx_chunk_2());
}

fn push_common_scx_chunk_3(v: &mut Vec<ClassUnicodeRange>)
    ensures
        rview(final(v)@) == rview(old(v)@) + common_scx_chunk_3(),
{
    let ghost o = rview(v@);
    push_range(v, '\u{FD5}', '\u{FD8}');
    push_range(v, '\u{2000}', '\u{200B}');
    push_range(v, '\u{200E}', '\u{202E}');
    push_range(v, '\u{2030}', '\u{204E}');
    push_range(v, '\u{2050}', '\u{2059}');
    push_range(v, '\u{205B}', '\u{205C}');
    push_range(v, '\u{205E}', '\u{2064}');
    push_range(v, '\u{2066}', '\u{2070}');
    assert(rview(v@) =~= o + common_scx_chunk_3());
}

fn push_common_scx_chunk_4(v: &mut Vec<ClassUnicodeRange>)
    ensures
        rview(final(v)@) == rview(old(v)@) + common_scx_chunk_4(),
{
    let ghost o = rview(v@);
    push_range(v, '\u{2074}', '\u{207E}');
    push_range(v, '\u{2080}', '\u{208E}');
    push_range(v, '\u{20A0}', '\u{20C0}');
    push_range(v, '\u{2100}', '\u{2125}');
    push_range(v, '\u{2127}', '\u{2129}');
    push_range(v, '\u{212C}', '\u{2131}');
    push_range(v, '\u{2133}', '\u{214D}');
    push_range(v, '\u{214F}', '\u{215F}');
    assert(rview(v@) =~= o + common_scx_chunk_4());
}

fn push_common_scx_chunk_5(v: &mut Vec<ClassUnicodeRange>)
    ensures
        rview(final(v)@) == rview(old(v)@) + common_scx_chunk_5(),
{
    let ghost o = rview(v@);
    push_range(v, '\u{2189}', '\u{218B}');
    push_range(v, '\u{2190}', '\u{2429}');
    push_range(v, '\u{2440}', '\u{244A}');
    push_range(v, '\u{2460}', '\u{27FF}');
    push_range(v, '\u{2900}', '\u{2B73}');
    push_range(v, '\u{2B76}', '\u{2B95}');
    push_range(v, '\u{2B97}', '\u{2BFF}');
    push_range(v, '\u{2E00}', '\u{2E16}');
    assert(rview(v@) =~= o + common_scx_chunk_5());
}

fn push_common_scx_chunk_6(v: &mut Vec<ClassUnicodeRange>)
    ensures
        rview(final(v)@) == rview(old(v)@) + common_scx_chunk_6(),
{
    let ghost o = rview(v@);
    push_range(v, '\u{2E18}', '\u{2E2F}');
    push_range(v, '\u{2E32}', '\u{2E3B}');
    push_range(v, '\u{2E3D}', '\u{2E40}');
    push_range(v, '\u{2E42}', '\u{2E42}');
    push_range(v, '\u{2E44}', '\u{2E5D}');
    push_range(v, '\u{3000}', '\u{3000}');
    push_range(v, '\u{3004}', '\u{3004}');
    push_range(v, '\u{3012}', '\u{3012}');
    assert(rview(v@) =~= o + common_scx_chunk_6());
}

fn push_common_scx_chunk_7(v: &mut Vec<ClassUnicodeRange>)
    ensures
        rview(final(v)@) == rview(old(v)@) + common_scx_chunk_7(),
{
    let ghost o = rview(v@);
    push_range(v, '\u{3020}', '\u{3020}');
    push_range(v, '\u{3036}', '\u{3036}');
    push_range(v, '\u{3248}', '\u{325F}');
    push_range(v, '\u{327F}', '\u{327F}');
    push_range(v, '\u{32B1}', '\u{32BF}');
    push_range(v, '\u{32CC}', '\u{32CF}');
    push_range(v, '\u{3371}', '\u{337A}');
    push_range(v, '\u{3380}', '\u{33DF}');
    assert(rview(v@) =~= o + common_scx_chunk_7());
}

fn push_common_scx_chunk_8(v: &mut Vec<ClassUnicodeRange>)
    ensures
        rview(final(v)@) == rview(old(v)@) + common_scx_chunk_8(),
{
    let ghost o = rview(v@);
    push_range(v, '\u{33FF}', '\u{33FF}');
    push_range(v, '\u{4DC0}', '\u{4DFF}');
    push_range(v, '\u{A708}', '\u{A721}');
    push_range(v, '\u{A788}', '\u{A78A}');
    push_range(v, '\u{AB5B}', '\u{AB5B}');
    push_range(v, '\u{AB6A}', '\u{AB6B}');
    push_range(v, '\u{FE10}', '\u{FE19}');
    push_range(v, '\u{FE30}', '\u{FE44}');
    assert(rview(v@) =~= o + common_scx_chunk_8());
}

fn push_common_scx_chunk_9(v: &mut Vec<ClassUnicodeRange>)
    ensures
        rview(final(v)@) == rview(old(v)@) + common_scx_chunk_9(),
{
    let ghost o = rview(v@);
    push_range(v, '\u{FE47}', '\u{FE52}');
    push_range(v, '\u{FE54}', '\u{FE66}');
    push_range(v, '\u{FE68}', '\u{FE6B}');
    push_range(v, '\u{FEFF}', '\u{FEFF}');
    push_range(v, '\u{FF01}', '\u{FF20}');
    push_range(v, '\u{FF3B}', '\u{FF40}');
    push_range(v, '\u{FF5B}', '\u{FF60}');
    push_range(v, '\u{FFE0}', '\u{FFE6}');
    assert(rview(v@) =~= o + common_scx_chunk_9());
}

fn push_common_scx_chunk_10(v: &mut Vec<ClassUnicodeRange>)
    ensures
        rview(final(v)@) == rview(old(v)@) + common_scx_chunk_10(),
{
    let ghost o = rview(v@);
    push_range(v, '\u{FFE8}', '\u{FFEE}');
    push_range(v, '\u{FFF9}', '\u{FFFD}');
    push_range(v, '\u{10190}', '\u{1019C}');
    push_range(v, '\u{101D0}', '\u{101FC}');
    push_range(v, '\u{1CC00}', '\u{1CCF9}');
    push_range(v, '\u{1CD00}', '\u{1CEB3}');
    push_range(v, '\u{1CF50}', '\u{1CFC3}');
    push_range(v, '\u{1D000}', '\u{1D0F5}');
    assert(rview(v@) =~= o + common_scx_chunk_10());
}

fn push_common_scx_chunk_11(v: &mut Vec<ClassUnicodeRange>)
    ensures
        rview(final(v)@) == rview(old(v)@) + common_scx_chunk_11(),
{
    let ghost o = rview(v@);
    push_range(v, '\u{1D100}', '\u{1D126}');
    push_range(v, '\u{1D129}', '\u{1D166}');
    push_range(v, '\u{1D16A}', '\u{1D17A}');
    push_range(v, '\u{1D183}', '\u{1D184}');
    push_range(v, '\u{1D18C}', '\u{1D1A9}');
    push_range(v, '\u{1D1AE}', '\u{1D1EA}');
    push_range(v, '\u{1D2C0}', '\u{1D2D3}');
    push_range(v, '\u{1D2E0}', '\u{1D2F3}');
    assert(rview(v@) =~= o + common_scx_chunk_11());
}

fn push_common_scx_chunk_12(v: &mut Vec<ClassUnicodeRange>)
    ensures
        rview(final(v)@) == rview(old(v)@) + common_scx_chunk_12(),
{
    let ghost o = rview(v@);
    push_range(v, '\u{1D300}', '\u{1D356}');
    push_range(v, '\u{1D372}', '\u{1D378}');
    push_range(v, '\u{1D400}', '\u{1D454}');
    push_range(v, '\u{1D456}', '\u{1D49C}');
    push_range(v, '\u{1D49E}', '\u{1D49F}');
    push_range(v, '\u{1D4A2}', '\u{1D4A2}');
    push_range(v, '\u{1D4A5}', '\u{1D4A6}');
    push_range(v, '\u{1D4A9}', '\u{1D4AC}');
    assert(rview(v@) =~= o + common_scx_chunk_12());
}

fn push_common_scx_chunk_13(v: &mut Vec<ClassUnicodeRange>)
    ensures
        rview(final(v)@) == rview(old(v)@) + common_scx_chunk_13(),
{
    let ghost o = rview(v@);
    push_range(v, '\u{1D4AE}', '\u{1D4B9}');
    push_range(v, '\u{1D4BB}', '\u{1D4BB}');
    push_range(v, '\u{1D4BD}', '\u{1D4C3}');
    push_range(v, '\u{1D4C5}', '\u{1D505}');
    push_range(v, '\u{1D507}', '\u{1D50A}');
    push_range(v, '\u{1D50D}', '\u{1D514}');
    push_range(v, '\u{1D516}', '\u{1D51C}');
    push_range(v, '\u{1D51E}', '\u{1D539}');
    assert(rview(v@) =~= o + common_scx_chunk_13());
}

fn push_common_scx_chunk_14(v: &mut Vec<ClassUnicodeRange>)
    ensures
        rview(final(v)@) == rview(old(v)@) + common_scx_chunk_14(),
{
    let ghost o = rview(v@);
    push_range(v, '\u{1D53B}', '\u{1D53E}');
    push_range(v, '\u{1D540}', '\u{1D544}');
    push_range(v, '\u{1D546}', '\u{1D546}');
    push_range(v, '\u{1D54A}', '\u{1D550}');
    push_range(v, '\u{1D552}', '\u{1D6A5}');
    push_range(v, '\u{1D6A8}', '\u{1D7CB}');
    push_range(v, '\u{1D7CE}', '\u{1D7FF}');
    push_range(v, '\u{1EC71}', '\u{1ECB4}');
    assert(rview(v@) =~= o + common_scx_chunk_14());
}

fn push_common_scx_chunk_15(v: &mut Vec<ClassUnicodeRange>)
    ensures
        rview(final(v)@) == rview(old(v)@) + common_scx_chunk_15(),
{
    let ghost o = rview(v@);
    push_range(v, '\u{1ED01}', '\u{1ED3D}');
    push_range(v, '\u{1F000}', '\u{1F02B}');
    push_range(v, '\u{1F030}', '\u{1F093}');
    push_range(v, '\u{1F0A0}', '\u{1F0AE}');
    push_range(v, '\u{1F0B1}', '\u{1F0BF}');
    push_range(v, '\u{1F0C1}', '\u{1F0CF}');
    push_range(v, '\u{1F0D1}', '\u{1F0F5}');
    push_range(v, '\u{1F100}', '\u{1F1AD}');
    assert(rview(v@) =~= o + common_scx_chunk_15());
}

fn push_common_scx_chunk_16(v: &mut Vec<ClassUnicodeRange>)
    ensures
        rview(final(v)@) == rview(old(v)@) + common_scx_chunk_16(),
{
    let ghost o = rview(v@);
    push_range(v, '\u{1F1E6}', '\u{1F1FF}');
    push_range(v, '\u{1F201}', '\u{1F202}');
    push_range(v, '\u{1F210}', '\u{1F23B}');
    push_range(v, '\u{1F240}', '\u{1F248}');
    push_range(v, '\u{1F260}', '\u{1F265}');
    push_range(v, '\u{1F300}', '\u{1F6D7}');
    push_range(v, '\u{1F6DC}', '\u{1F6EC}');
    push_range(v, '\u{1F6F0}', '\u{1F6FC}');
    assert(rview(v@) =~= o + common_scx_chunk_16());
}

fn push_common_scx_chunk_17(v: &mut Vec<ClassUnicodeRange>)
    ensures
        rview(final(v)@) == rview(old(v)@) + common_scx_chunk_17(),
{
    let ghost o = rview(v@);
    push_range(v, '\u{1F700}', '\u{1F776}');
    push_range(v, '\u{1F77B}', '\u{1F7D9}');
    push_range(v, '\u{1F7E0}', '\u{1F7EB}');
    push_range(v, '\u{1F7F0}', '\u{1F7F0}');
    push_range(v, '\u{1F800}', '\u{1F80B}');
    push_range(v, '\u{1F810}', '\u{1F847}');
    push_range(v, '\u{1F850}', '\u{1F859}');
    push_range(v, '\u{1F860}', '\u{1F887}');
    assert(rview(v@) =~= o + common_scx_chunk_17());
}

fn push_common_scx_chunk_18(v: &mut Vec<ClassUnicodeRange>)
    ensures
        rview(final(v)@) == rview(old(v)@) + common_scx_chunk_18(),
{
    let ghost o = rview(v@);
    push_range(v, '\u{1F890}', '\u{1F8AD}');
    push_range(v, '\u{1F8B0}', '\u{1F8BB}');
    push_range(v, '\u{1F8C0}', '\u{1F8C1}');
    push_range(v, '\u{1F900}', '\u{1FA53}');
    push_range(v, '\u{1FA60}', '\u{1FA6D}');
    push_range(v, '\u{1FA70}', '\u{1FA7C}');
    push_range(v, '\u{1FA80}', '\u{1FA89}');
    push_range(v, '\u{1FA8F}', '\u{1FAC6}');
    assert(rview(v@) =~= o + common_scx_chunk_18());
}

fn push_common_scx_chunk_19(v: &mut Vec<ClassUnicodeRange>)
    ensures
        rview(final(v)@) == rview(old(v)@) + common_scx_chunk_19(),
{
    let ghost o = rview(v@);
    push_range(v, '\u{1FACE}', '\u{1FADC}');
    push_range(v, '\u{1FADF}', '\u{1FAE9}');
    push_range(v, '\u{1FAF0}', '\u{1FAF8}');
    push_range(v, '\u{1FB00}', '\u{1FB92}');
    push_range(v, '\u{1FB94}', '\u{1FBF9}');
    push_range(v, '\u{E0001}', '\u{E0001}');
    push_range(v, '\u{E0020}', '\u{E007F}');
    assert(rview(v@) =~= o + common_scx_chunk_19());
}

fn push_common_scx_block_0(v: &mut Vec<ClassUnicodeRange>)
    ensures
        rview(final(v)@) == rview(old(v)@) + common_scx_block_0(),
{
    let ghost o = rview(v@);
    push_common_scx_chunk_0(v);
    assert(rview(v@) =~= o + (common_scx_chunk_0()));
    push_common_scx_chunk_1(v);
    assert(rview(v@) =~= o + (common_scx_chunk_0() + common_scx_chunk_1()));
    push_common_scx_chunk_2(v);
    assert(rview(v@) =~= o + (common_scx_chunk_0() + common_scx_chunk_1() + common_scx_chunk_2()));
    push_common_scx_chunk_3(v);
    assert(rview(v@) =~= o + (common_scx_chunk_0() + common_scx_chunk_1() + common_scx_chunk_2() + common_scx_chunk_3()));
    push_common_scx_chunk_4(v);
    assert(rview(v@) =~= o + (common_scx_chunk_0() + common_scx_chunk_1() + common_scx_chunk_2() + common_scx_chunk_3() + common_scx_chunk_4()));
    push_common_scx_chunk_5(v);
    assert(rview(v@) =~= o + (common_scx_chunk_0() + common_scx_chunk_1() + common_scx_chunk_2() + common_scx_chunk_3() + common_scx_chunk_4() + common_scx_chunk_5()));
    push_common_scx_chunk_6(v);
    assert(rview(v@) =~= o + (common_scx_chunk_0() + common_scx_chunk_1() + common_scx_chunk_2() + common_scx_chunk_3() + common_scx_chunk_4() + common_scx_chunk_5() + common_scx_chunk_6()));
    push_common_scx_chunk_7(v);
    assert(rview(v@) =~= o + (common_scx_chunk_0() + common_scx_chunk_1() + common_scx_chunk_2() + common_scx_chunk_3() + common_scx_chunk_4() + common_scx_chunk_5() + common_scx_chunk_6() + common_scx_chunk_7()));
    push_common_scx_chunk_8(v);
    assert(rview(v@) =~= o + (common_scx_chunk_0() + common_scx_chunk_1() + common_scx_chunk_2() + common_scx_chunk_3() + common_scx_chunk_4() + common_scx_chunk_5() + common_scx_chunk_6() + common_scx_chunk_7() + common_scx_chunk_8()));
    push_common_scx_chunk_9(v);
    assert(rview(v@) =~= o + (common_scx_chunk_0() + common_scx_chunk_1() + common_scx_chunk_2() + common_scx_chunk_3() + common_scx_chunk_4() + common_scx_chunk_5() + common_scx_chunk_6() + common_scx_chunk_7() + common_scx_chunk_8() + common_scx_chunk_9()));
}

fn push_common_scx_block_1(v: &mut Vec<ClassUnicodeRange>)
    ensures
        rview(final(v)@) == rview(old(v)@) + common_scx_block_1(),
{
    let ghost o = rview(v@);
    push_common_scx_chunk_10(v);
    assert(rview(v@) =~= o + (common_scx_chunk_10()));
    push_common_scx_chunk_11(v);
    assert(rview(v@) =~= o + (common_scx_chunk_10() + common_scx_chunk_11()));
    push_common_scx_chunk_12(v);
    assert(rview(v@) =~= o + (common_scx_chunk_10() + common_scx_chunk_11() + common_scx_chunk_12()));
    push_common_scx_chunk_13(v);
    assert(rview(v@) =~= o + (common_scx_chunk_10() + common_scx_chunk_11() + common_scx_chunk_12() + common_scx_chunk_13()));
    push_common_scx_chunk_14(v);
    assert(rview(v@) =~= o + (common_scx_chunk_10() + common_scx_chunk_11() + common_scx_chunk_12() + common_scx_chunk_13() + common_scx_chunk_14()));
    push_common_scx_chunk_15(v);
    assert(rview(v@) =~= o + (common_scx_chunk_10() + common_scx_chunk_11() + common_scx_chunk_12() + common_scx_chunk_13() + common_scx_chunk_14() + common_scx_chunk_15()));
    push_common_scx_chunk_16(v);
    assert(rview(v@) =~= o + (common_scx_chunk_10() + common_scx_chunk_11() + common_scx_chunk_12() + common_scx_chunk_13() + common_scx_chunk_14() + common_scx_chunk_15() + common_scx_chunk_16()));
    push_common_scx_chunk_17(v);
    assert(rview(v@) =~= o + (common_scx_chunk_10() + common_scx_chunk_11() + common_scx_chunk_12() + common_scx_chunk_13() + common_scx_chunk_14() + common_scx_chunk_15() + common_scx_chunk_16() + common_scx_chunk_17()));
    push_common_scx_chunk_18(v);
    assert(rview(v@) =~= o + (common_scx_chunk_10() + common_scx_chunk_11() + common_scx_chunk_12() + common_scx_chunk_13() + common_scx_chunk_14() + common_scx_chunk_15() + common_scx_chunk_16() + common_scx_chunk_17() + common_scx_chunk_18()));
    push_common_scx_chunk_19(v);
    assert(rview(v@) =~= o + (common_scx_chunk_10() + common_scx_chunk_11() + common_scx_chunk_12() + common_scx_chunk_13() + common_scx_chunk_14() + common_scx_chunk_15() + common_scx_chunk_16() + common_scx_chunk_17() + common_scx_chunk_18() + common_scx_chunk_19()));
}

pub fn common_scx_class() -> (v: Vec<ClassUnicodeRange>)
    ensures
        rview(v@) == common_scx_ranges(),
{
    let mut v: Vec<ClassUnicodeRange> = Vec::new();
    assert(rview(v@) =~= Seq::<SRange>::empty());
    push_common_scx_block_0(&mut v);
    assert(rview(v@) =~= common_scx_block_0());
    push_common_scx_block_1(&mut v);
    assert(rview(v@) =~= common_scx_block_0() + common_scx_block_1());
    v
}

pub open spec fn coptic_scx_chunk_0() -> Seq<SRange> {
    seq![(0xB7int, 0xB7int), (0x300int, 0x300int), (0x304int, 0x305int), (0x307int, 0x307int), (0x374int, 0x375int), (0x3E2int, 0x3EFint), (0x2C80int, 0x2CF3int), (0x2CF9int, 0x2CFFint)]
}

pub open spec fn coptic_scx_chunk_1() -> Seq<SRange> {
    seq![(0x2E17int, 0x2E17int), (0x102E0int, 0x102FBint)]
}

/// The ranges of the property Coptic.
pub open spec fn coptic_scx_ranges() -> Seq<SRange> {
    coptic_scx_chunk_0() + coptic_scx_chunk_1()
}

pub proof fn lemma_coptic_scx_canonical()
    ensures
        canonical(coptic_scx_ranges()),
{
    reveal_with_fuel(canonical, 9);
    assert(canonical(coptic_scx_chunk_0()));
    assert(canonical(coptic_scx_chunk_1()));
    lemma_canonical_append(coptic_scx_chunk_0(), coptic_scx_chunk_1());
}

fn push_coptic_scx_chunk_0(v: &mut Vec<ClassUnicodeRange>)
    ensures
        rview(final(v)@) == rview(old(v)@) + coptic_scx_chunk_0(),
{
    let ghost o = rview(v@);
    push_range(v, '\u{B7}', '\u{B7}');
    push_range(v, '\u{300}', '\u{300}');
    push_range(v, '\u{304}', '\u{305}');
    push_range(v, '\u{307}', '\u{307}');
    push_range(v, '\u{374}', '\u{375}');
    push_range(v, '\u{3E2}', '\u{3EF}');
    push_range(v, '\u{2C80}', '\u{2CF3}');
    push_range(v, '\u{2CF9}', '\u{2CFF}');
    assert(rview(v@) =~= o + coptic_scx_chunk_0());
}

fn push_coptic_scx_chunk_1(v: &mut Vec<ClassUnicodeRange>)
    ensures
        rview(final(v)@) == rview(old(v)@) + coptic_scx_chunk_1(),
{
    let ghost o = rview(v@);
    push_range(v, '\u{2E17}', '\u{2E17}');
    push_range(v, '\u{102E0}', '\u{102FB}');
    assert(rview(v@) =~= o + coptic_scx_chunk_1());
}

pub fn coptic_scx_class() -> (v: Vec<ClassUnicodeRange>)
    ensures
        rview(v@) == coptic_scx_ranges(),
{
    let mut v: Vec<ClassUnicodeRange> = Vec::new();
    assert(rview(v@) =~= Seq::<SRange>::empty());
    push_coptic_scx_chunk_0(&mut v);
    assert(rview(v@) =~= coptic_scx_chunk_0());
    push_coptic_scx_chunk_1(&mut v);
    assert(rview(v@) =~= coptic_scx_chunk_0() + coptic_scx_chunk_1());
    v
}

pub open spec fn cuneiform_scx_chunk_0() -> Seq<SRange> {
    seq![(0x12000int, 0x12399int), (0x12400int, 0x1246Eint), (0x12470int, 0x12474int), (0x12480int, 0x12543int)]
}

/// The ranges of the property Cuneiform.
pub open spec fn cuneiform_scx_ranges() -> Seq<SRange> {
    cuneiform_scx_chunk_0()
}

pub proof fn lemma_cuneiform_scx_canonical()
    ensures
        canonical(cuneiform_scx_ranges()),
{
    reveal_with_fuel(canonical, 9);
    assert(canonical(cuneiform_scx_chunk_0()));
}

fn push_cuneiform_scx_chunk_0(v: &mut Vec<ClassUnicodeRange>)
    ensures
        rview(final(v)@) == rview(old(v)@) + cuneiform_scx_chunk_0(),
{
    let ghost o = rview(v@);
    push_range(v, '\u{12000}', '\u{12399}');
    push_range(v, '\u{12400}', '\u{1246E}');
    push_range(v, '\u{12470}', '\u{12474}');
    push_range(v, '\u{12480}', '\u{12543}');
    assert(rview(v@) =~= o + cuneiform_scx_chunk_0());
}

pub fn cuneiform_scx_class() -> (v: Vec<ClassUnicodeRange>)
    ensures
        rview(v@) == cuneiform_scx_ranges(),
{
    let mut v: Vec<ClassUnicodeRange> = Vec::new();
    assert(rview(v@) =~= Seq::<SRange>::empty());
    push_cuneiform_scx_chunk_0(&mut v);
    assert(rview(v@) =~= cuneiform_scx_chunk_0());
    v
}

pub open spec fn cypriot_scx_chunk_0() -> Seq<SRange> {
    seq![(0x10100int, 0x10102int), (0x10107int, 0x10133int), (0x10137int, 0x1013Fint), (0x10800int, 0x10805int), (0x10808int, 0x10808int), (0x1080Aint, 0x10835int), (0x10837int, 0x10838int), (0x1083Cint, 0x1083Cint)]
}

pub open spec fn cypriot_scx_chunk_1() -> Seq<SRange> {
    seq![(0x1083Fint, 0x1083Fint)]
}

/// The ranges of the property Cypriot.
pub open spec fn cypriot_scx_ranges() -> Seq<SRange> {
    cypriot_scx_chunk_0() + cypriot_scx_chunk_1()
}

pub proof fn lemma_cypriot_scx_canonical()
    ensures
        canonical(cypriot_scx_ranges()),
{
    reveal_with_fuel(canonical, 9);
    assert(canonical(cypriot_scx_chunk_0()));
    assert(canonical(cypriot_scx_chunk_1()));
    lemma_canonical_append(cypriot_scx_chunk_0(), cypriot_scx_chunk_1());
}

fn push_cypriot_scx_chunk_0(v: &mut Vec<ClassUnicodeRange>)
    ensures
        rview(final(v)@) == rview(old(v)@) + cypriot_scx_chunk_0(),
{
    let ghost o = rview(v@);
    push_range(v, '\u{10100}', '\u{10102}');
    push_range(v, '\u{10107}', '\u{10133}');
    push_range(v, '\u{10137}', '\u{1013F}');
    push_range(v, '\u{10800}', '\u{10805}');
    push_range(v, '\u{10808}', '\u{10808}');
    push_range(v, '\u{1080A}', '\u{10835}');
    push_range(v, '\u{10837}', '\u{10838}');
    push_range(v, '\u{1083C}', '\u{1083C}');
    assert(rview(v@) =~= o + cypriot_scx_chunk_0());
}

fn push_cypriot_scx_chunk_1(v: &mut Vec<ClassUnicodeRange>)
    ensures
        rview(final(v)@) == rview(old(v)@) + cypriot_scx_chunk_1(),
{
    let ghost o = rview(v@);
    push_range(v, '\u{1083F}', '\u{1083F}');
    assert(rview(v@) =~= o + cypriot_scx_chunk_1());
}

pub fn cypriot_scx_class() -> (v: Vec<ClassUnicodeRange>)
    ensures
        rview(v@) == cypriot_scx_ranges(),
{
    let mut v: Vec<ClassUnicodeRange> = Vec::new();
    assert(rview(v@) =~= Seq::<SRange>::empty());
    push_cypriot_scx_chunk_0(&mut v);
    assert(rview(v@) =~= cypriot_scx_chunk_0());
    push_cypriot_scx_chunk_1(&mut v);
    assert(rview(v@) =~= cypriot_scx_chunk_0() + cypriot_scx_chunk_1());
    v
}

pub open spec fn cypro_minoan_scx_chunk_0() -> Seq<SRange> {
    seq![(0x10100int, 0x10101int), (0x12F90int, 0x12FF2int)]
}

/// The ranges of the property Cypro_Minoan.
pub open spec fn cypro_minoan_scx_ranges() -> Seq<SRange> {
    cypro_minoan_scx_chunk_0()
}

pub proof fn lemma_cypro_minoan_scx_canonical()
    ensures
        canonical(cypro_minoan_scx_ranges()),
{
    reveal_with_fuel(canonical, 9);
    assert(canonical(cypro_minoan_scx_chunk_0()));
}

fn push_cypro_minoan_scx_chunk_0(v: &mut Vec<ClassUnicodeRange>)
    ensures
        rview(final(v)@) == rview(old(v)@) + cypro_minoan_scx_chunk_0(),
{
    let ghost o = rview(v@);
    push_range(v, '\u{10100}', '\u{10101}');
    push_range(v, '\u{12F90}', '\u{12FF2}');
    assert(rview(v@) =~= o + cypro_minoan_scx_chunk_0());
}

pub fn cypro_minoan_scx_class() -> (v: Vec<ClassUnicodeRange>)
    ensures
        rview(v@) == cypro_minoan_scx_ranges(),
{
    let mut v: Vec<ClassUnicodeRange> = Vec::new();
    assert(rview(v@) =~= Seq::<SRange>::empty());
    push_cypro_minoan_scx_chunk_0(&mut v);
    assert(rview(v@) =~= cypro_minoan_scx_chunk_0());
    v
}

pub open spec fn cyrillic_scx_chunk_0() -> Seq<SRange> {
    seq![(0x2BCint, 0x2BCint), (0x300int, 0x302int), (0x304int, 0x304int), (0x306int, 0x306int), (0x308int, 0x308int), (0x30Bint, 0x30Bint), (0x311int, 0x311int), (0x400int, 0x52Fint)]
}

pub open spec fn cyrillic_scx_chunk_1() -> Seq<SRange> {
    seq![(0x1C80int, 0x1C8Aint), (0x1D2Bint, 0x1D2Bint), (0x1D78int, 0x1D78int), (0x1DF8int, 0x1DF8int), (0x2DE0int, 0x2DFFint), (0x2E43int, 0x2E43int), (0xA640int, 0xA69Fint), (0xFE2Eint, 0xFE2Fint)]
}

pub open spec fn cyrillic_scx_chunk_2() -> Seq<SRange> {
    seq![(0x1E030int, 0x1E06Dint), (0x1E08Fint, 0x1E08Fint)]
}

/// The ranges of the property Cyrillic.
pub open spec fn cyrillic_scx_ranges() -> Seq<SRange> {
    cyrillic_scx_chunk_0() + cyrillic_scx_chunk_1() + cyrillic_scx_chunk_2()
}

pub proof fn lemma_cyrillic_scx_canonical()
    ensures
        canonical(cyrillic_scx_ranges()),
{
    reveal_with_fuel(canonical, 9);
    assert(canonical(cyrillic_scx_chunk_0()));
    assert(canonical(cyrillic_scx_chunk_1()));
    assert(canonical(cyrillic_scx_chunk_2()));
    lemma_canonical_append(cyrillic_scx_chunk_0(), cyrillic_scx_chunk_1());
    lemma_canonical_append(cyrillic_scx_chunk_0() + cyrillic_scx_chunk_1(), cyrillic_scx_chunk_2());
}

fn push_cyrillic_scx_chunk_0(v: &mut Vec<ClassUnicodeRange>)
    ensures
        rview(final(v)@) == rview(old(v)@) + cyrillic_scx_chunk_0(),
{
    let ghost o = rview(v@);
    push_range(v, '\u{2BC}', '\u{2BC}');
    push_range(v, '\u{300}', '\u{302}');
    push_range(v, '\u{304}', '\u{304}');
    push_range(v, '\u{306}', '\u{306}');
    push_range(v, '\u{308}', '\u{308}');
    push_range(v, '\u{30B}', '\u{30B}');
    push_range(v, '\u{311}', '\u{311}');
    push_range(v, '\u{400}', '\u{52F}');
    assert(rview(v@) =~= o + cyrillic_scx_chunk_0());
}

fn push_cyrillic_scx_chunk_1(v: &mut Vec<ClassUnicodeRange>)
    ensures
        rview(final(v)@) == rview(old(v)@) + cyrillic_scx_chunk_1(),
{
    let ghost o = rview(v@);
    push_range(v, '\u{1C80}', '\u{1C8A}');
    push_range(v, '\u{1D2B}', '\u{1D2B}');
    push_range(v, '\u{1D78}', '\u{1D78}');
    push_range(v, '\u{1DF8}', '\u{1DF8}');
    push_range(v, '\u{2DE0}', '\u{2DFF}');
    push_range(v, '\u{2E43}', '\u{2E43}');
    push_range(v, '\u{A640}', '\u{A69F}');
    push_range(v, '\u{FE2E}', '\u{FE2F}');
    assert(rview(v@) =~= o + cyrillic_scx_chunk_1());
}

fn push_cyrillic_scx_chunk_2(v: &mut Vec<ClassUnicodeRange>)
    ensures
        rview(final(v)@) == rview(old(v)@) + cyrillic_scx_chunk_2(),
{
    let ghost o = rview(v@);
    push_range(v, '\u{1E030}', '\u{1E06D}');
    push_range(v, '\u{1E08F}', '\u{1E08F}');
    assert(rview(v@) =~= o + cyrillic_scx_chunk_2());
}

pub fn cyrillic_scx_class() -> (v: Vec<ClassUnicodeRange>)
    ensures
        rview(v@) == cyrillic_scx_ranges(),
{
    let mut v: Vec<ClassUnicodeRange> = Vec::new();
    assert(rview(v@) =~= Seq::<SRange>::empty());
    push_cyrillic_scx_chunk_0(&mut v);
    assert(rview(v@) =~= cyrillic_scx_chunk_0());
    push_cyrillic_scx_chunk_1(&mut v);
    assert(rview(v@) =~= cyrillic_scx_chunk_0() + cyrillic_scx_chunk_1());
    push_cyrillic_scx_chunk_2(&mut v);
    assert(rview(v@) =~= cyrillic_scx_chunk_0() + cyrillic_scx_chunk_1() + cyrillic_scx_chunk_2());
    v
}

pub open spec fn deseret_scx_chunk_0() -> Seq<SRange> {
    seq![(0x10400int, 0x1044Fint)]
}

/// The ranges of the property Deseret.
pub open spec fn deseret_scx_ranges() -> Seq<SRange> {
    deseret_scx_chunk_0()
}

pub proof fn lemma_deseret_scx_canonical()
    ensures
        canonical(deseret_scx_ranges()),
{
    reveal_with_fuel(canonical, 9);
    assert(canonical(deseret_scx_chunk_0()));
}

fn push_deseret_scx_chunk_0(v: &mut Vec<ClassUnicodeRange>)
    ensures
        rview(final(v)@) == rview(old(v)@) + deseret_scx_chunk_0(),
{
    let ghost o = rview(v@);
    push_range(v, '\u{10400}', '\u{1044F}');
    assert(rview(v@) =~= o + deseret_scx_chunk_0());
}

pub fn deseret_scx_class() -> (v: Vec<ClassUnicodeRange>)
    ensures
        rview(v@) == deseret_scx_ranges(),
{
    let mut v: Vec<ClassUnicodeRange> = Vec::new();
    assert(rview(v@) =~= Seq::<SRange>::empty());
    push_deseret_scx_chunk_0(&mut v);
    assert(rview(v@) =~= deseret_scx_chunk_0());
    v
}

pub open spec fn devanagari_scx_chunk_0() -> Seq<SRange> {
    seq![(0x2BCint, 0x2BCint), (0x900int, 0x952int), (0x955int, 0x97Fint), (0x1CD0int, 0x1CF6int), (0x1CF8int, 0x1CF9int), (0x20F0int, 0x20F0int), (0xA830int, 0xA839int), (0xA8E0int, 0xA8FFint)]
}

pub open spec fn devanagari_scx_chunk_1() -> Seq<SRange> {
    seq![(0x11B00int, 0x11B09int)]
}

/// The ranges of the property Devanagari.
pub open spec fn devanagari_scx_ranges() -> Seq<SRange> {
    devanagari_scx_chunk_0() + devanagari_scx_chunk_1()
}

pub proof fn lemma_devanagari_scx_canonical()
    ensures
        canonical(devanagari_scx_ranges()),
{
    reveal_with_fuel(canonical, 9);
    assert(canonical(devanagari_scx_chunk_0()));
    assert(canonical(devanagari_scx_chunk_1()));
    lemma_canonical_append(devanagari_scx_chunk_0(), devanagari_scx_chunk_1());
}

fn push_devanagari_scx_chunk_0(v: &mut Vec<ClassUnicodeRange>)
    ensures
        rview(final(v)@) == rview(old(v)@) + devanagari_scx_chunk_0(),
{
    let ghost o = rview(v@);
    push_range(v, '\u{2BC}', '\u{2BC}');
    push_range(v, '\u{900}', '\u{952}');
    push_range(v, '\u{955}', '\u{97F}');
    push_range(v, '\u{1CD0}', '\u{1CF6}');
    push_range(v, '\u{1CF8}', '\u{1CF9}');
    push_range(v, '\u{20F0}', '\u{20F0}');
    push_range(v, '\u{A830}', '\u{A839}');
    push_range(v, '\u{A8E0}', '\u{A8FF}');
    assert(rview(v@) =~= o + devanagari_scx_chunk_0());
}

fn push_devanagari_scx_chunk_1(v: &mut Vec<ClassUnicodeRange>)
    ensures
        rview(final(v)@) == rview(old(v)@) + devanagari_scx_chunk_1(),
{
    let ghost o = rview(v@);
    push_range(v, '\u{11B00}', '\u{11B09}');
    assert(rview(v@) =~= o + devanagari_scx_chunk_1());
}

pub fn devanagari_scx_class() -> (v: Vec<ClassUnicodeRange>)
    ensures
        rview(v@) == devanagari_scx_ranges(),
{
    let mut v: Vec<ClassUnicodeRange> = Vec::new();
    assert(rview(v@) =~= Seq::<SRange>::empty());
    push_devanagari_scx_chunk_0(&mut v);
    assert(rview(v@) =~= devanagari_scx_chunk_0());
    push_devanagari_scx_chunk_1(&mut v);
    assert(rview(v@) =~= devanagari_scx_chunk_0() + devanagari_scx_chunk_1());
    v
}

pub open spec fn dives_akuru_scx_chunk_0() -> Seq<SRange> {
    seq![(0x11900int, 0x11906int), (0x11909int, 0x11909int), (0x1190Cint, 0x11913int), (0x11915int, 0x11916int), (0x11918int, 0x11935int), (0x11937int, 0x11938int), (0x1193Bint, 0x11946int), (0x11950int, 0x11959int)]
}

/// The ranges of the property Dives_Akuru.
pub open spec fn dives_akuru_scx_ranges() -> Seq<SRange> {
    dives_akuru_scx_chunk_0()
}

pub proof fn lemma_dives_akuru_scx_canonical()
    ensures
        canonical(dives_akuru_scx_ranges()),
{
    reveal_with_fuel(canonical, 9);
    assert(canonical(dives_akuru_scx_chunk_0()));
}

fn push_dives_akuru_scx_chunk_0(v: &mut Vec<ClassUnicodeRange>)
    ensures
        rview(final(v)@) == rview(old(v)@) + dives_akuru_scx_chunk_0(),
{
    let ghost o = rview(v@);
    push_range(v, '\u{11900}', '\u{11906}');
    push_range(v, '\u{11909}', '\u{11909}');
    push_range(v, '\u{1190C}', '\u{11913}');
    push_range(v, '\u{11915}', '\u{11916}');
    push_range(v, '\u{11918}', '\u{11935}');
    push_range(v, '\u{11937}', '\u{11938}');
    push_range(v, '\u{1193B}', '\u{11946}');
    push_range(v, '\u{11950}', '\u{11959}');
    assert(rview(v@) =~= o + dives_akuru_scx_chunk_0());
}

pub fn dives_akuru_scx_class() -> (v: Vec<ClassUnicodeRange>)
    ensures
        rview(v@) == dives_akuru_scx_ranges(),
{
    let mut v: Vec<ClassUnicodeRange> = Vec::new();
    assert(rview(v@) =~= Seq::<SRange>::empty());
    push_dives_akuru_scx_chunk_0(&mut v);
    assert(rview(v@) =~= dives_akuru_scx_chunk_0());
    v
}

pub open spec fn dogra_scx_chunk_0() -> Seq<SRange> {
    seq![(0x964int, 0x96Fint), (0xA830int, 0xA839int), (0x11800int, 0x1183Bint)]
}

/// The ranges of the property Dogra.
pub open spec fn dogra_scx_ranges() -> Seq<SRange> {
    dogra_scx_chunk_0()
}

pub proof fn lemma_dogra_scx_canonical()
    ensures
        canonical(dogra_scx_ranges()),
{
    reveal_with_fuel(canonical, 9);
    assert(canonical(dogra_scx_chunk_0()));
}

fn push_dogra_scx_chunk_0(v: &mut Vec<ClassUnicodeRange>)
    ensures
        rview(final(v)@) == rview(old(v)@) + dogra_scx_chunk_0(),
{
    let ghost o = rview(v@);
    push_range(v, '\u{964}', '\u{96F}');
    push_range(v, '\u{A830}', '\u{A839}');
    push_range(v, '\u{11800}', '\u{1183B}');
    assert(rview(v@) =~= o + dogra_scx_chunk_0());
}

pub fn dogra_scx_class() -> (v: Vec<ClassUnicodeRange>)
    ensures
        rview(v@) == dogra_scx_ranges(),
{
    let mut v: Vec<ClassUnicodeRange> = Vec::new();
    assert(rview(v@) =~= Seq::<SRange>::empty());
    push_dogra_scx_chunk_0(&mut v);
    assert(rview(v@) =~= dogra_scx_chunk_0());
    v
}

pub open spec fn duployan_scx_chunk_0() -> Seq<SRange> {
    seq![(0xB7int, 0xB7int), (0x307int, 0x308int), (0x30Aint, 0x30Aint), (0x323int, 0x324int), (0x2E3Cint, 0x2E3Cint), (0x1BC00int, 0x1BC6Aint), (0x1BC70int, 0x1BC7Cint), (0x1BC80int, 0x1BC88int)]
}

pub open spec fn duployan_scx_chunk_1() -> Seq<SRange> {
    seq![(0x1BC90int, 0x1BC99int), (0x1BC9Cint, 0x1BCA3int)]
}

/// The ranges of the property Duployan.
pub open spec fn duployan_scx_ranges() -> Seq<SRange> {
    duployan_scx_chunk_0() + duployan_scx_chunk_1()
}

pub proof fn lemma_duployan_scx_canonical()
    ensures
        canonical(duployan_scx_ranges()),
{
    reveal_with_fuel(canonical, 9);
    assert(canonical(duployan_scx_chunk_0()));
    assert(canonical(duployan_scx_chunk_1()));
    lemma_canonical_append(duployan_scx_chunk_0(), duployan_scx_chunk_1());
}

fn push_duployan_scx_chunk_0(v: &mut Vec<ClassUnicodeRange>)
    ensures
        rview(final(v)@) == rview(old(v)@) + duployan_scx_chunk_0(),
{
    let ghost o = rview(v@);
    push_range(v, '\u{B7}', '\u{B7}');
    push_range(v, '\u{307}', '\u{308}');
    push_range(v, '\u{30A}', '\u{30A}');
    push_range(v, '\u{323}', '\u{324}');
    push_range(v, '\u{2E3C}', '\u{2E3C}');
    push_range(v, '\u{1BC00}', '\u{1BC6A}');
    push_range(v, '\u{1BC70}', '\u{1BC7C}');
    push_range(v, '\u{1BC80}', '\u{1BC88}');
    assert(rview(v@) =~= o + duployan_scx_chunk_0());
}

fn push_duployan_scx_chunk_1(v: &mut Vec<ClassUnicodeRange>)
    ensures
        rview(final(v)@) == rview(old(v)@) + duployan_scx_chunk_1(),
{
    let ghost o = rview(v@);
    push_range(v, '\u{1BC90}', '\u{1BC99}');
    push_range(v, '\u{1BC9C}', '\u{1BCA3}');
    assert(rview(v@) =~= o + duployan_scx_chunk_1());
}

pub fn duployan_scx_class() -> (v: Vec<ClassUnicodeRange>)
    ensures
        rview(v@) == duployan_scx_ranges(),
{
    let mut v: Vec<ClassUnicodeRange> = Vec::new();
    assert(rview(v@) =~= Seq::<SRange>::empty());
    push_duployan_scx_chunk_0(&mut v);
    assert(rview(v@) =~= duployan_scx_chunk_0());
    push_duployan_scx_chunk_1(&mut v);
    assert(rview(v@) =~= duployan_scx_chunk_0() + duployan_scx_chunk_1());
    v
}

pub open spec fn egyptian_hieroglyphs_scx_chunk_0() -> Seq<SRange> {
    seq![(0x13000int, 0x13455int), (0x13460int, 0x143FAint)]
}

/// The ranges of the property Egyptian_Hieroglyphs.
pub open spec fn egyptian_hieroglyphs_scx_ranges() -> Seq<SRange> {
    egyptian_hieroglyphs_scx_chunk_0()
}

pub proof fn lemma_egyptian_hieroglyphs_scx_canonical()
    ensures
        canonical(egyptian_hieroglyphs_scx_ranges()),
{
    reveal_with_fuel(canonical, 9);
    assert(canonical(egyptian_hieroglyphs_scx_chunk_0()));
}

fn push_egyptian_hieroglyphs_scx_chunk_0(v: &mut Vec<ClassUnicodeRange>)
    ensures
        rview(final(v)@) == rview(old(v)@) + egyptian_hieroglyphs_scx_chunk_0(),
{
    let ghost o = rview(v@);
    push_range(v, '\u{13000}', '\u{13455}');
    push_range(v, '\u{13460}', '\u{143FA}');
    assert(rview(v@) =~= o + egyptian_hieroglyphs_scx_chunk_0());
}

pub fn egyptian_hieroglyphs_scx_class() -> (v: Vec<ClassUnicodeRange>)
    ensures
        rview(v@) == egyptian_hieroglyphs_scx_ranges(),
{
    let mut v: Vec<ClassUnicodeRange> = Vec::new();
    assert(rview(v@) =~= Seq::<SRange>::empty());
    push_egyptian_hieroglyphs_scx_chunk_0(&mut v);
    assert(rview(v@) =~= egyptian_hieroglyphs_scx_chunk_0());
    v
}

pub open spec fn elbasan_scx_chunk_0() -> Seq<SRange> {
    seq![(0xB7int, 0xB7int), (0x305int, 0x305int), (0x10500int, 0x10527int)]
}

/// The ranges of the property Elbasan.
pub open spec fn elbasan_scx_ranges() -> Seq<SRange> {
    elbasan_scx_chunk_0()
}

pub proof fn lemma_elbasan_scx_canonical()
    ensures
        canonical(elbasan_scx_ranges()),
{
    reveal_with_fuel(canonical, 9);
    assert(canonical(elbasan_scx_chunk_0()));
}

fn push_elbasan_scx_chunk_0(v: &mut Vec<ClassUnicodeRange>)
    ensures
        rview(final(v)@) == rview(old(v)@) + elbasan_scx_chunk_0(),
{
    let ghost o = rview(v@);
    push_range(v, '\u{B7}', '\u{B7}');
    push_range(v, '\u{305}', '\u{305}');
    push_range(v, '\u{10500}', '\u{10527}');
    assert(rview(v@) =~= o + elbasan_scx_chunk_0());
}

pub fn elbasan_scx_class() -> (v: Vec<ClassUnicodeRange>)
    ensures
        rview(v@) == elbasan_scx_ranges(),
{
    let mut v: Vec<ClassUnicodeRange> = Vec::new();
    assert(rview(v@) =~= Seq::<SRange>::empty());
    push_elbasan_scx_chunk_0(&mut v);
    assert(rview(v@) =~= elbasan_scx_chunk_0());
    v
}

pub open spec fn elymaic_scx_chunk_0() -> Seq<SRange> {
    seq![(0x10FE0int, 0x10FF6int)]
}

/// The ranges of the property Elymaic.
pub open spec fn elymaic_scx_ranges() -> Seq<SRange> {
    elymaic_scx_chunk_0()
}

pub proof fn lemma_elymaic_scx_canonical()
    ensures
        canonical(elymaic_scx_ranges()),
{
    reveal_with_fuel(canonical, 9);
    assert(canonical(elymaic_scx_chunk_0()));
}

fn push_elymaic_scx_chunk_0(v: &mut Vec<ClassUnicodeRange>)
    ensures
        rview(final(v)@) == rview(old(v)@) + elymaic_scx_chunk_0(),
{
    let ghost o = rview(v@);
    push_range(v, '\u{10FE0}', '\u{10FF6}');
    assert(rview(v@) =~= o + elymaic_scx_chunk_0());
}

pub fn elymaic_scx_class() -> (v: Vec<ClassUnicodeRange>)
    ensures
        rview(v@) == elymaic_scx_ranges(),
{
    let mut v: Vec<ClassUnicodeRange> = Vec::new();
    assert(rview(v@) =~= Seq::<SRange>::empty());
    push_elymaic_scx_chunk_0(&mut v);
    assert(rview(v@) =~= elymaic_scx_chunk_0());
    v
}

pub open spec fn ethiopic_scx_chunk_0() -> Seq<SRange> {
    seq![(0x30Eint, 0x30Eint), (0x1200int, 0x1248int), (0x124Aint, 0x124Dint), (0x1250int, 0x1256int), (0x1258int, 0x1258int), (0x125Aint, 0x125Dint), (0x1260int, 0x1288int), (0x128Aint, 0x128Dint)]
}

pub open spec fn ethiopic_scx_chunk_1() -> Seq<SRange> {
    seq![(0x1290int, 0x12B0int), (0x12B2int, 0x12B5int), (0x12B8int, 0x12BEint), (0x12C0int, 0x12C0int), (0x12C2int, 0x12C5int), (0x12C8int, 0x12D6int), (0x12D8int, 0x1310int), (0x1312int, 0x1315int)]
}

pub open spec fn ethiopic_scx_chunk_2() -> Seq<SRange> {
    seq![(0x1318int, 0x135Aint), (0x135Dint, 0x137Cint), (0x1380int, 0x1399int), (0x2D80int, 0x2D96int), (0x2DA0int, 0x2DA6int), (0x2DA8int, 0x2DAEint), (0x2DB0int, 0x2DB6int), (0x2DB8int, 0x2DBEint)]
}

pub open spec fn ethiopic_scx_chunk_3() -> Seq<SRange> {
    seq![(0x2DC0int, 0x2DC6int), (0x2DC8int, 0x2DCEint), (0x2DD0int, 0x2DD6int), (0x2DD8int, 0x2DDEint), (0xAB01int, 0xAB06int), (0xAB09int, 0xAB0Eint), (0xAB11int, 0xAB16int), (0xAB20int, 0xAB26int)]
}

pub open spec fn ethiopic_scx_chunk_4() -> Seq<SRange> {
    seq![(0xAB28int, 0xAB2Eint), (0x1E7E0int, 0x1E7E6int), (0x1E7E8int, 0x1E7EBint), (0x1E7EDint, 0x1E7EEint), (0x1E7F0int, 0x1E7FEint)]
}

/// The ranges of the property Ethiopic.
pub open spec fn ethiopic_scx_ranges() -> Seq<SRange> {
    ethiopic_scx_chunk_0() + ethiopic_scx_chunk_1() + ethiopic_scx_chunk_2() + ethiopic_scx_chunk_3() + ethiopic_scx_chunk_4()
}

pub proof fn lemma_ethiopic_scx_canonical()
    ensures
        canonical(ethiopic_scx_ranges()),
{
    reveal_with_fuel(canonical, 9);
    assert(canonical(ethiopic_scx_chunk_0()));
    assert(canonical(ethiopic_scx_chunk_1()));
    assert(canonical(ethiopic_scx_chunk_2()));
    assert(canonical(ethiopic_scx_chunk_3()));
    assert(canonical(ethiopic_scx_chunk_4()));
    lemma_canonical_append(ethiopic_scx_chunk_0(), ethiopic_scx_chunk_1());
    lemma_canonical_append(ethiopic_scx_chunk_0() + ethiopic_scx_chunk_1(), ethiopic_scx_chunk_2());
    lemma_canonical_append(ethiopic_scx_chunk_0() + ethiopic_scx_chunk_1() + ethiopic_scx_chunk_2(), ethiopic_scx_chunk_3());
    lemma_canonical_append(ethiopic_scx_chunk_0() + ethiopic_scx_chunk_1() + ethiopic_scx_chunk_2() + ethiopic_scx_chunk_3(), ethiopic_scx_chunk_4());
}

fn push_ethiopic_scx_chunk_0(v: &mut Vec<ClassUnicodeRange>)
    ensures
        rview(final(v)@) == rview(old(v)@) + ethiopic_scx_chunk_0(),
{
    let ghost o = rview(v@);
    push_range(v, '\u{30E}', '\u{30E}');
    push_range(v, '\u{1200}', '\u{1248}');
    push_range(v, '\u{124A}', '\u{124D}');
    push_range(v, '\u{1250}', '\u{1256}');
    push_range(v, '\u{1258}', '\u{1258}');
    push_range(v, '\u{125A}', '\u{125D}');
    push_range(v, '\u{1260}', '\u{1288}');
    push_range(v, '\u{128A}', '\u{128D}');
    assert(rview(v@) =~= o + ethiopic_scx_chunk_0());
}

fn push_ethiopic_scx_chunk_1(v: &mut Vec<ClassUnicodeRange>)
    ensures
        rview(final(v)@) == rview(old(v)@) + ethiopic_scx_chunk_1(),
{
    let ghost o = rview(v@);
    push_range(v, '\u{1290}', '\u{12B0}');
    push_range(v, '\u{12B2}', '\u{12B5}');
    push_range(v, '\u{12B8}', '\u{12BE}');
    push_range(v, '\u{12C0}', '\u{12C0}');
    push_range(v, '\u{12C2}', '\u{12C5}');
    push_range(v, '\u{12C8}', '\u{12D6}');
    push_range(v, '\u{12D8}', '\u{1310}');
    push_range(v, '\u{1312}', '\u{1315}');
    assert(rview(v@) =~= o + ethiopic_scx_chunk_1());
}

fn push_ethiopic_scx_chunk_2(v: &mut Vec<ClassUnicodeRange>)
    ensures
        rview(final(v)@) == rview(old(v)@) + ethiopic_scx_chunk_2(),
{
    let ghost o = rview(v@);
    push_range(v, '\u{1318}', '\u{135A}');
    push_range(v, '\u{135D}', '\u{137C}');
    push_range(v, '\u{1380}', '\u{1399}');
    push_range(v, '\u{2D80}', '\u{2D96}');
    push_range(v, '\u{2DA0}', '\u{2DA6}');
    push_range(v, '\u{2DA8}', '\u{2DAE}');
    push_range(v, '\u{2DB0}', '\u{2DB6}');
    push_range(v, '\u{2DB8}', '\u{2DBE}');
    assert(rview(v@) =~= o + ethiopic_scx_chunk_2());
}

fn push_ethiopic_scx_chunk_3(v: &mut Vec<ClassUnicodeRange>)
    ensures
        rview(final(v)@) == rview(old(v)@) + ethiopic_scx_chunk_3(),
{
    let ghost o = rview(v@);
    push_range(v, '\u{2DC0}', '\u{2DC6}');
    push_range(v, '\u{2DC8}', '\u{2DCE}');
    push_range(v, '\u{2DD0}', '\u{2DD6}');
    push_range(v, '\u{2DD8}', '\u{2DDE}');
    push_range(v, '\u{AB01}', '\u{AB06}');
    push_range(v, '\u{AB09}', '\u{AB0E}');
    push_range(v, '\u{AB11}', '\u{AB16}');
    push_range(v, '\u{AB20}', '\u{AB26}');
    assert(rview(v@) =~= o + ethiopic_scx_chunk_3());
}

fn push_ethiopic_scx_chunk_4(v: &mut Vec<ClassUnicodeRange>)
    ensures
        rview(final(v)@) == rview(old(v)@) + ethiopic_scx_chunk_4(),
{
    let ghost o = rview(v@);
    push_range(v, '\u{AB28}', '\u{AB2E}');
    push_range(v, '\u{1E7E0}', '\u{1E7E6}');
    push_range(v, '\u{1E7E8}', '\u{1E7EB}');
    push_range(v, '\u{1E7ED}', '\u{1E7EE}');
    push_range(v, '\u{1E7F0}', '\u{1E7FE}');
    assert(rview(v@) =~= o + ethiopic_scx_chunk_4());
}

pub fn ethiopic_scx_class() -> (v: Vec<ClassUnicodeRange>)
    ensures
        rview(v@) == ethiopic_scx_ranges(),
{
    let mut v: Vec<ClassUnicodeRange> = Vec::new();
    assert(rview(v@) =~= Seq::<SRange>::empty());
    push_ethiopic_scx_chunk_0(&mut v);
    assert(rview(v@) =~= ethiopic_scx_chunk_0());
    push_ethiopic_scx_chunk_1(&mut v);
    assert(rview(v@) =~= ethiopic_scx_chunk_0() + ethiopic_scx_chunk_1());
    push_ethiopic_scx_chunk_2(&mut v);
    assert(rview(v@) =~= ethiopic_scx_chunk_0() + ethiopic_scx_chunk_1() + ethiopic_scx_chunk_2());
    push_ethiopic_scx_chunk_3(&mut v);
    assert(rview(v@) =~= ethiopic_scx_chunk_0() + ethiopic_scx_chunk_1() + ethiopic_scx_chunk_2() + ethiopic_scx_chunk_3());
    push_ethiopic_scx_chunk_4(&mut v);
    assert(rview(v@) =~= ethiopic_scx_chunk_0() + ethiopic_scx_chunk_1() + ethiopic_scx_chunk_2() + ethiopic_scx_chunk_3() + ethiopic_scx_chunk_4());
    v
}

pub open spec fn garay_scx_chunk_0() -> Seq<SRange> {
    seq![(0x60Cint, 0x60Cint), (0x61Bint, 0x61Bint), (0x61Fint, 0x61Fint), (0x10D40int, 0x10D65int), (0x10D69int, 0x10D85int), (0x10D8Eint, 0x10D8Fint)]
}

/// The ranges of the property Garay.
pub open spec fn garay_scx_ranges() -> Seq<SRange> {
    garay_scx_chunk_0()
}

pub proof fn lemma_garay_scx_canonical()
    ensures
        canonical(garay_scx_ranges()),
{
    reveal_with_fuel(canonical, 9);
    assert(canonical(garay_scx_chunk_0()));
}

fn push_garay_scx_chunk_0(v: &mut Vec<ClassUnicodeRange>)
    ensures
        rview(final(v)@) == rview(old(v)@) + garay_scx_chunk_0(),
{
    let ghost o = rview(v@);
    push_range(v, '\u{60C}', '\u{60C}');
    push_range(v, '\u{61B}', '\u{61B}');
    push_range(v, '\u{61F}', '\u{61F}');
    push_range(v, '\u{10D40}', '\u{10D65}');
    push_range(v, '\u{10D69}', '\u{10D85}');
    push_range(v, '\u{10D8E}', '\u{10D8F}');
    assert(rview(v@) =~= o + garay_scx_chunk_0());
}

pub fn garay_scx_class() -> (v: Vec<ClassUnicodeRange>)
    ensures
        rview(v@) == garay_scx_ranges(),
{
    let mut v: Vec<ClassUnicodeRange> = Vec::new();
    assert(rview(v@) =~= Seq::<SRange>::empty());
    push_garay_scx_chunk_0(&mut v);
    assert(rview(v@) =~= garay_scx_chunk_0());
    v
}

pub open spec fn georgian_scx_chunk_0() -> Seq<SRange> {
    seq![(0xB7int, 0xB7int), (0x589int, 0x589int), (0x10A0int, 0x10C5int), (0x10C7int, 0x10C7int), (0x10CDint, 0x10CDint), (0x10D0int, 0x10FFint), (0x1C90int, 0x1CBAint), (0x1CBDint, 0x1CBFint)]
}

pub open spec fn georgian_scx_chunk_1() -> Seq<SRange> {
    seq![(0x205Aint, 0x205Aint), (0x2D00int, 0x2D25int), (0x2D27int, 0x2D27int), (0x2D2Dint, 0x2D2Dint), (0x2E31int, 0x2E31int)]
}

/// The ranges of the property Georgian.
pub open spec fn georgian_scx_ranges() -> Seq<SRange> {
    georgian_scx_chunk_0() + georgian_scx_chunk_1()
}

pub proof fn lemma_georgian_scx_canonical()
    ensures
        canonical(georgian_scx_ranges()),
{
    reveal_with_fuel(canonical, 9);
    assert(canonical(georgian_scx_chunk_0()));
    assert(canonical(georgian_scx_chunk_1()));
    lemma_canonical_append(georgian_scx_chunk_0(), georgian_scx_chunk_1());
}

fn push_georgian_scx_chunk_0(v: &mut Vec<ClassUnicodeRange>)
    ensures
        rview(final(v)@) == rview(old(v)@) + georgian_scx_chunk_0(),
{
    let ghost o = rview(v@);
    push_range(v, '\u{B7}', '\u{B7}');
    push_range(v, '\u{589}', '\u{589}');
    push_range(v, '\u{10A0}', '\u{10C5}');
    push_range(v, '\u{10C7}', '\u{10C7}');
    push_range(v, '\u{10CD}', '\u{10CD}');
    push_range(v, '\u{10D0}', '\u{10FF}');
    push_range(v, '\u{1C90}', '\u{1CBA}');
    push_range(v, '\u{1CBD}', '\u{1CBF}');
    assert(rview(v@) =~= o + georgian_scx_chunk_0());
}

fn push_georgian_scx_chunk_1(v: &mut Vec<ClassUnicodeRange>)
    ensures
        rview(final(v)@) == rview(old(v)@) + georgian_scx_chunk_1(),
{
    let ghost o = rview(v@);
    push_range(v, '\u{205A}', '\u{205A}');
    push_range(v, '\u{2D00}', '\u{2D25}');
    push_range(v, '\u{2D27}', '\u{2D27}');
    push_range(v, '\u{2D2D}', '\u{2D2D}');
    push_range(v, '\u{2E31}', '\u{2E31}');
    assert(rview(v@) =~= o + georgian_scx_chunk_1());
}

pub fn georgian_scx_class() -> (v: Vec<ClassUnicodeRange>)
    ensures
        rview(v@) == georgian_scx_ranges(),
{
    let mut v: Vec<ClassUnicodeRange> = Vec::new();
    assert(rview(v@) =~= Seq::<SRange>::empty());
    push_georgian_scx_chunk_0(&mut v);
    assert(rview(v@) =~= georgian_scx_chunk_0());
    push_georgian_scx_chunk_1(&mut v);
    assert(rview(v@) =~= georgian_scx_chunk_0() + georgian_scx_chunk_1());
    v
}

pub open spec fn glagolitic_scx_chunk_0() -> Seq<SRange> {
    seq![(0xB7int, 0xB7int), (0x303int, 0x303int), (0x305int, 0x305int), (0x484int, 0x484int), (0x487int, 0x487int), (0x589int, 0x589int), (0x10FBint, 0x10FBint), (0x205Aint, 0x205Aint)]
}

pub open spec fn glagolitic_scx_chunk_1() -> Seq<SRange> {
    seq![(0x2C00int, 0x2C5Fint), (0x2E43int, 0x2E43int), (0xA66Fint, 0xA66Fint), (0x1E000int, 0x1E006int), (0x1E008int, 0x1E018int), (0x1E01Bint, 0x1E021int), (0x1E023int, 0x1E024int), (0x1E026int, 0x1E02Aint)]
}

/// The ranges of the property Glagolitic.
pub open spec fn glagolitic_scx_ranges() -> Seq<SRange> {
    glagolitic_scx_chunk_0() + glagolitic_scx_chunk_1()
}

pub proof fn lemma_glagolitic_scx_canonical()
    ensures
        canonical(glagolitic_scx_ranges()),
{
    reveal_with_fuel(canonical, 9);
    assert(canonical(glagolitic_scx_chunk_0()));
    assert(canonical(glagolitic_scx_chunk_1()));
    lemma_canonical_append(glagolitic_scx_chunk_0(), glagolitic_scx_chunk_1());
}

fn push_glagolitic_scx_chunk_0(v: &mut Vec<ClassUnicodeRange>)
    ensures
        rview(final(v)@) == rview(old(v)@) + glagolitic_scx_chunk_0(),
{
    let ghost o = rview(v@);
    push_range(v, '\u{B7}', '\u{B7}');
    push_range(v, '\u{303}', '\u{303}');
    push_range(v, '\u{305}', '\u{305}');
    push_range(v, '\u{484}', '\u{484}');
    push_range(v, '\u{487}', '\u{487}');
    push_range(v, '\u{589}', '\u{589}');
    push_range(v, '\u{10FB}', '\u{10FB}');
    push_range(v, '\u{205A}', '\u{205A}');
    assert(rview(v@) =~= o + glagolitic_scx_chunk_0());
}

fn push_glagolitic_scx_chunk_1(v: &mut Vec<ClassUnicodeRange>)
    ensures
        rview(final(v)@) == rview(old(v)@) + glagolitic_scx_chunk_1(),
{
    let ghost o = rview(v@);
    push_range(v, '\u{2C00}', '\u{2C5F}');
    push_range(v, '\u{2E43}', '\u{2E43}');
    push_range(v, '\u{A66F}', '\u{A66F}');
    push_range(v, '\u{1E000}', '\u{1E006}');
    push_range(v, '\u{1E008}', '\u{1E018}');
    push_range(v, '\u{1E01B}', '\u{1E021}');
    push_range(v, '\u{1E023}', '\u{1E024}');
    push_range(v, '\u{1E026}', '\u{1E02A}');
    assert(rview(v@) =~= o + glagolitic_scx_chunk_1());
}

pub fn glagolitic_scx_class() -> (v: Vec<ClassUnicodeRange>)
    ensures
        rview(v@) == glagolitic_scx_ranges(),
{
    let mut v: Vec<ClassUnicodeRange> = Vec::new();
    assert(rview(v@) =~= Seq::<SRange>::empty());
    push_glagolitic_scx_chunk_0(&mut v);
    assert(rview(v@) =~= glagolitic_scx_chunk_0());
    push_glagolitic_scx_chunk_1(&mut v);
    assert(rview(v@) =~= glagolitic_scx_chunk_0() + glagolitic_scx_chunk_1());
    v
}

pub open spec fn gothic_scx_chunk_0() -> Seq<SRange> {
    seq![(0xB7int, 0xB7int), (0x304int, 0x305int), (0x308int, 0x308int), (0x331int, 0x331int), (0x10330int, 0x1034Aint)]
}

/// The ranges of the property Gothic.
pub open spec fn gothic_scx_ranges() -> Seq<SRange> {
    gothic_scx_chunk_0()
}

pub proof fn lemma_gothic_scx_canonical()
    ensures
        canonical(gothic_scx_ranges()),
{
    reveal_with_fuel(canonical, 9);
    assert(canonical(gothic_scx_chunk_0()));
}

fn push_gothic_scx_chunk_0(v: &mut Vec<ClassUnicodeRange>)
    ensures
        rview(final(v)@) == rview(old(v)@) + gothic_scx_chunk_0(),
{
    let ghost o = rview(v@);
    push_range(v, '\u{B7}', '\u{B7}');
    push_range(v, '\u{304}', '\u{305}');
    push_range(v, '\u{308}', '\u{308}');
    push_range(v, '\u{331}', '\u{331}');
    push_range(v, '\u{10330}', '\u{1034A}');
    assert(rview(v@) =~= o + gothic_scx_chunk_0());
}

pub fn gothic_scx_class() -> (v: Vec<ClassUnicodeRange>)
    ensures
        rview(v@) == gothic_scx_ranges(),
{
    let mut v: Vec<ClassUnicodeRange> = Vec::new();
    assert(rview(v@) =~= Seq::<SRange>::empty());
    push_gothic_scx_chunk_0(&mut v);
    assert(rview(v@) =~= gothic_scx_chunk_0());
    v
}

pub open spec fn grantha_scx_chunk_0() -> Seq<SRange> {
    seq![(0x951int, 0x952int), (0x964int, 0x965int), (0xBE6int, 0xBF3int), (0x1CD0int, 0x1CD0int), (0x1CD2int, 0x1CD3int), (0x1CF2int, 0x1CF4int), (0x1CF8int, 0x1CF9int), (0x20F0int, 0x20F0int)]
}

pub open spec fn grantha_scx_chunk_1() -> Seq<SRange> {
    seq![(0x11300int, 0x11303int), (0x11305int, 0x1130Cint), (0x1130Fint, 0x11310int), (0x11313int, 0x11328int), (0x1132Aint, 0x11330int), (0x11332int, 0x11333int), (0x11335int, 0x11339int), (0x1133Bint, 0x11344int)]
}

pub open spec fn grantha_scx_chunk_2() -> Seq<SRange> {
    seq![(0x11347int, 0x11348int), (0x1134Bint, 0x1134Dint), (0x11350int, 0x11350int), (0x11357int, 0x11357int), (0x1135Dint, 0x11363int), (0x11366int, 0x1136Cint), (0x11370int, 0x11374int), (0x11FD0int, 0x11FD1int)]
}

pub open spec fn grantha_scx_chunk_3() -> Seq<SRange> {
    seq![(0x11FD3int, 0x11FD3int)]
}

/// The ranges of the property Grantha.
pub open spec fn grantha_scx_ranges() -> Seq<SRange> {
    grantha_scx_chunk_0() + grantha_scx_chunk_1() + grantha_scx_chunk_2() + grantha_scx_chunk_3()
}

pub proof fn lemma_grantha_scx_canonical()
    ensures
        canonical(grantha_scx_ranges()),
{
    reveal_with_fuel(canonical, 9);
    assert(canonical(grantha_scx_chunk_0()));
    assert(canonical(grantha_scx_chunk_1()));
    assert(canonical(grantha_scx_chunk_2()));
    assert(canonical(grantha_scx_chunk_3()));
    lemma_canonical_append(grantha_scx_chunk_0(), grantha_scx_chunk_1());
    lemma_canonical_append(grantha_scx_chunk_0() + grantha_scx_chunk_1(), grantha_scx_chunk_2());
    lemma_canonical_append(grantha_scx_chunk_0() + grantha_scx_chunk_1() + grantha_scx_chunk_2(), grantha_scx_chunk_3());
}

fn push_grantha_scx_chunk_0(v: &mut Vec<ClassUnicodeRange>)
    ensures
        rview(final(v)@) == rview(old(v)@) + grantha_scx_chunk_0(),
{
    let ghost o = rview(v@);
    push_range(v, '\u{951}', '\u{952}');
    push_range(v, '\u{964}', '\u{965}');
    push_range(v, '\u{BE6}', '\u{BF3}');
    push_range(v, '\u{1CD0}', '\u{1CD0}');
    push_range(v, '\u{1CD2}', '\u{1CD3}');
    push_range(v, '\u{1CF2}', '\u{1CF4}');
    push_range(v, '\u{1CF8}', '\u{1CF9}');
    push_range(v, '\u{20F0}', '\u{20F0}');
    assert(rview(v@) =~= o + grantha_scx_chunk_0());
}

fn push_grantha_scx_chunk_1(v: &mut Vec<ClassUnicodeRange>)
    ensures
        rview(final(v)@) == rview(old(v)@) + grantha_scx_chunk_1(),
{
    let ghost o = rview(v@);
    push_range(v, '\u{11300}', '\u{11303}');
    push_range(v, '\u{11305}', '\u{1130C}');
    push_range(v, '\u{1130F}', '\u{11310}');
    push_range(v, '\u{11313}', '\u{11328}');
    push_range(v, '\u{1132A}', '\u{11330}');
    push_range(v, '\u{11332}', '\u{11333}');
    push_range(v, '\u{11335}', '\u{11339}');
    push_range(v, '\u{1133B}', '\u{11344}');
    assert(rview(v@) =~= o + grantha_scx_chunk_1());
}

fn push_grantha_scx_chunk_2(v: &mut Vec<ClassUnicodeRange>)
    ensures
        rview(final(v)@) == rview(old(v)@) + grantha_scx_chunk_2(),
{
    let ghost o = rview(v@);
    push_range(v, '\u{11347}', '\u{11348}');
    push_range(v, '\u{1134B}', '\u{1134D}');
    push_range(v, '\u{11350}', '\u{11350}');
    push_range(v, '\u{11357}', '\u{11357}');
    push_range(v, '\u{1135D}', '\u{11363}');
    push_range(v, '\u{11366}', '\u{1136C}');
    push_range(v, '\u{11370}', '\u{11374}');
    push_range(v, '\u{11FD0}', '\u{11FD1}');
    assert(rview(v@) =~= o + grantha_scx_chunk_2());
}

fn push_grantha_scx_chunk_3(v: &mut Vec<ClassUnicodeRange>)
    ensures
        rview(final(v)@) == rview(old(v)@) + grantha_scx_chunk_3(),
{
    let ghost o = rview(v@);
    push_range(v, '\u{11FD3}', '\u{11FD3}');
    assert(rview(v@) =~= o + grantha_scx_chunk_3());
}

pub fn grantha_scx_class() -> (v: Vec<ClassUnicodeRange>)
    ensures
        rview(v@) == grantha_scx_ranges(),
{
    let mut v: Vec<ClassUnicodeRange> = Vec::new();
    assert(rview(v@) =~= Seq::<SRange>::empty());
    push_grantha_scx_chunk_0(&mut v);
    assert(rview(v@) =~= grantha_scx_chunk_0());
    push_grantha_scx_chunk_1(&mut v);
    assert(rview(v@) =~= grantha_scx_chunk_0() + grantha_scx_chunk_1());
    push_grantha_scx_chunk_2(&mut v);
    assert(rview(v@) =~= grantha_scx_chunk_0() + grantha_scx_chunk_1() + grantha_scx_chunk_2());
    push_grantha_scx_chunk_3(&mut v);
    assert(rview(v@) =~= grantha_scx_chunk_0() + grantha_scx_chunk_1() + grantha_scx_chunk_2() + grantha_scx_chunk_3());
    v
}

pub open spec fn greek_scx_chunk_0() -> Seq<SRange> {
    seq![(0xB7int, 0xB7int), (0x300int, 0x301int), (0x304int, 0x304int), (0x306int, 0x306int), (0x308int, 0x308int), (0x313int, 0x313int), (0x342int, 0x342int), (0x345int, 0x345int)]
}

pub open spec fn greek_scx_chunk_1() -> Seq<SRange> {
    seq![(0x370int, 0x377int), (0x37Aint, 0x37Dint), (0x37Fint, 0x37Fint), (0x384int, 0x384int), (0x386int, 0x386int), (0x388int, 0x38Aint), (0x38Cint, 0x38Cint), (0x38Eint, 0x3A1int)]
}

pub open spec fn greek_scx_chunk_2() -> Seq<SRange> {
    seq![(0x3A3int, 0x3E1int), (0x3F0int, 0x3FFint), (0x1D26int, 0x1D2Aint), (0x1D5Dint, 0x1D61int), (0x1D66int, 0x1D6Aint), (0x1DBFint, 0x1DC1int), (0x1F00int, 0x1F15int), (0x1F18int, 0x1F1Dint)]
}

pub open spec fn greek_scx_chunk_3() -> Seq<SRange> {
    seq![(0x1F20int, 0x1F45int), (0x1F48int, 0x1F4Dint), (0x1F50int, 0x1F57int), (0x1F59int, 0x1F59int), (0x1F5Bint, 0x1F5Bint), (0x1F5Dint, 0x1F5Dint), (0x1F5Fint, 0x1F7Dint), (0x1F80int, 0x1FB4int)]
}

pub open spec fn greek_scx_chunk_4() -> Seq<SRange> {
    seq![(0x1FB6int, 0x1FC4int), (0x1FC6int, 0x1FD3int), (0x1FD6int, 0x1FDBint), (0x1FDDint, 0x1FEFint), (0x1FF2int, 0x1FF4int), (0x1FF6int, 0x1FFEint), (0x205Dint, 0x205Dint), (0x2126int, 0x2126int)]
}

pub open spec fn greek_scx_chunk_5() -> Seq<SRange> {
    seq![(0xAB65int, 0xAB65int), (0x10140int, 0x1018Eint), (0x101A0int, 0x101A0int), (0x1D200int, 0x1D245int)]
}

/// The ranges of the property Greek.
pub open spec fn greek_scx_ranges() -> Seq<SRange> {
    greek_scx_chunk_0() + greek_scx_chunk_1() + greek_scx_chunk_2() + greek_scx_chunk_3() + greek_scx_chunk_4() + greek_scx_chunk_5()
}

pub proof fn lemma_greek_scx_canonical()
    ensures
        canonical(greek_scx_ranges()),
{
    reveal_with_fuel(canonical, 9);
    assert(canonical(greek_scx_chunk_0()));
    assert(canonical(greek_scx_chunk_1()));
    assert(canonical(greek_scx_chunk_2()));
    assert(canonical(greek_scx_chunk_3()));
    assert(canonical(greek_scx_chunk_4()));
    assert(canonical(greek_scx_chunk_5()));
    lemma_canonical_append(greek_scx_chunk_0(), greek_scx_chunk_1());
    lemma_canonical_append(greek_scx_chunk_0() + greek_scx_chunk_1(), greek_scx_chunk_2());
    lemma_canonical_append(greek_scx_chunk_0() + greek_scx_chunk_1() + greek_scx_chunk_2(), greek_scx_chunk_3());
    lemma_canonical_append(greek_scx_chunk_0() + greek_scx_chunk_1() + greek_scx_chunk_2() + greek_scx_chunk_3(), greek_scx_chunk_4());
    lemma_canonical_append(greek_scx_chunk_0() + greek_scx_chunk_1() + greek_scx_chunk_2() + greek_scx_chunk_3() + greek_scx_chunk_4(), greek_scx_chunk_5());
}

fn push_greek_scx_chunk_0(v: &mut Vec<ClassUnicodeRange>)
    ensures
        rview(final(v)@) == rview(old(v)@) + greek_scx_chunk_0(),
{
    let ghost o = rview(v@);
    push_range(v, '\u{B7}', '\u{B7}');
    push_range(v, '\u{300}', '\u{301}');
    push_range(v, '\u{304}', '\u{304}');
    push_range(v, '\u{306}', '\u{306}');
    push_range(v, '\u{308}', '\u{308}');
    push_range(v, '\u{313}', '\u{313}');
    push_range(v, '\u{342}', '\u{342}');
    push_range(v, '\u{345}', '\u{345}');
    assert(rview(v@) =~= o + greek_scx_chunk_0());
}

fn push_greek_scx_chunk_1(v: &mut Vec<ClassUnicodeRange>)
    ensures
        rview(final(v)@) == rview(old(v)@) + greek_scx_chunk_1(),
{
    let ghost o = rview(v@);
    push_range(v, '\u{370}', '\u{377}');
    push_range(v, '\u{37A}', '\u{37D}');
    push_range(v, '\u{37F}', '\u{37F}');
    push_range(v, '\u{384}', '\u{384}');
    push_range(v, '\u{386}', '\u{386}');
    push_range(v, '\u{388}', '\u{38A}');
    push_range(v, '\u{38C}', '\u{38C}');
    push_range(v, '\u{38E}', '\u{3A1}');
    assert(rview(v@) =~= o + greek_scx_chunk_1());
}

fn push_greek_scx_chunk_2(v: &mut Vec<ClassUnicodeRange>)
    ensures
        rview(final(v)@) == rview(old(v)@) + greek_scx_chunk_2(),
{
    let ghost o = rview(v@);
    push_range(v, '\u{3A3}', '\u{3E1}');
    push_range(v, '\u{3F0}', '\u{3FF}');
    push_range(v, '\u{1D26}', '\u{1D2A}');
    push_range(v, '\u{1D5D}', '\u{1D61}');
    push_range(v, '\u{1D66}', '\u{1D6A}');
    push_range(v, '\u{1DBF}', '\u{1DC1}');
    push_range(v, '\u{1F00}', '\u{1F15}');
    push_range(v, '\u{1F18}', '\u{1F1D}');
    assert(rview(v@) =~= o + greek_scx_chunk_2());
}

fn push_greek_scx_chunk_3(v: &mut Vec<ClassUnicodeRange>)
    ensures
        rview(final(v)@) == rview(old(v)@) + greek_scx_chunk_3(),
{
    let ghost o = rview(v@);
    push_range(v, '\u{1F20}', '\u{1F45}');
    push_range(v, '\u{1F48}', '\u{1F4D}');
    push_range(v, '\u{1F50}', '\u{1F57}');
    push_range(v, '\u{1F59}', '\u{1F59}');
    push_range(v, '\u{1F5B}', '\u{1F5B}');
    push_range(v, '\u{1F5D}', '\u{1F5D}');
    push_range(v, '\u{1F5F}', '\u{1F7D}');
    push_range(v, '\u{1F80}', '\u{1FB4}');
    assert(rview(v@) =~= o + greek_scx_chunk_3());
}

fn push_greek_scx_chunk_4(v: &mut Vec<ClassUnicodeRange>)
    ensures
        rview(final(v)@) == rview(old(v)@) + greek_scx_chunk_4(),
{
    let ghost o = rview(v@);
    push_range(v, '\u{1FB6}', '\u{1FC4}');
    push_range(v, '\u{1FC6}', '\u{1FD3}');
    push_range(v, '\u{1FD6}', '\u{1FDB}');
    push_range(v, '\u{1FDD}', '\u{1FEF}');
    push_range(v, '\u{1FF2}', '\u{1FF4}');
    push_range(v, '\u{1FF6}', '\u{1FFE}');
    push_range(v, '\u{205D}', '\u{205D}');
    push_range(v, '\u{2126}', '\u{2126}');
    assert(rview(v@) =~= o + greek_scx_chunk_4());
}

fn push_greek_scx_chunk_5(v: &mut Vec<ClassUnicodeRange>)
    ensures
        rview(final(v)@) == rview(old(v)@) + greek_scx_chunk_5(),
{
    let ghost o = rview(v@);
    push_range(v, '\u{AB65}', '\u{AB65}');
    push_range(v, '\u{10140}', '\u{1018E}');
    push_range(v, '\u{101A0}', '\u{101A0}');
    push_range(v, '\u{1D200}', '\u{1D245}');
    assert(rview(v@) =~= o + greek_scx_chunk_5());
}

pub fn greek_scx_class() -> (v: Vec<ClassUnicodeRange>)
    ensures
        rview(v@) == greek_scx_ranges(),
{
    let mut v: Vec<ClassUnicodeRange> = Vec::new();
    assert(rview(v@) =~= Seq::<SRange>::empty());
    push_greek_scx_chunk_0(&mut v);
    assert(rview(v@) =~= greek_scx_chunk_0());
    push_greek_scx_chunk_1(&mut v);
    assert(rview(v@) =~= greek_scx_chunk_0() + greek_scx_chunk_1());
    push_greek_scx_chunk_2(&mut v);
    assert(rview(v@) =~= greek_scx_chunk_0() + greek_scx_chunk_1() + greek_scx_chunk_2());
    push_greek_scx_chunk_3(&mut v);
    assert(rview(v@) =~= greek_scx_chunk_0() + greek_scx_chunk_1() + greek_scx_chunk_2() + greek_scx_chunk_3());
    push_greek_scx_chunk_4(&mut v);
    assert(rview(v@) =~= greek_scx_chunk_0() + greek_scx_chunk_1() + greek_scx_chunk_2() + greek_scx_chunk_3() + greek_scx_chunk_4());
    push_greek_scx_chunk_5(&mut v);
    assert(rview(v@) =~= greek_scx_chunk_0() + greek_scx_chunk_1() + greek_scx_chunk_2() + greek_scx_chunk_3() + greek_scx_chunk_4() + greek_scx_chunk_5());
    v
}

pub open spec fn gujarati_scx_chunk_0() -> Seq<SRange> {
    seq![(0x951int, 0x952int), (0x964int, 0x965int), (0xA81int, 0xA83int), (0xA85int, 0xA8Dint), (0xA8Fint, 0xA91int), (0xA93int, 0xAA8int), (0xAAAint, 0xAB0int), (0xAB2int, 0xAB3int)]
}

pub open spec fn gujarati_scx_chunk_1() -> Seq<SRange> {
    seq![(0xAB5int, 0xAB9int), (0xABCint, 0xAC5int), (0xAC7int, 0xAC9int), (0xACBint, 0xACDint), (0xAD0int, 0xAD0int), (0xAE0int, 0xAE3int), (0xAE6int, 0xAF1int), (0xAF9int, 0xAFFint)]
}

pub open spec fn gujarati_scx_chunk_2() -> Seq<SRange> {
    seq![(0xA830int, 0xA839int)]
}

/// The ranges of the property Gujarati.
pub open spec fn gujarati_scx_ranges() -> Seq<SRange> {
    gujarati_scx_chunk_0() + gujarati_scx_chunk_1() + gujarati_scx_chunk_2()
}

pub proof fn lemma_gujarati_scx_canonical()
    ensures
        canonical(gujarati_scx_ranges()),
{
    reveal_with_fuel(canonical, 9);
    assert(canonical(gujarati_scx_chunk_0()));
    assert(canonical(gujarati_scx_chunk_1()));
    assert(canonical(gujarati_scx_chunk_2()));
    lemma_canonical_append(gujarati_scx_chunk_0(), gujarati_scx_chunk_1());
    lemma_canonical_append(gujarati_scx_chunk_0() + gujarati_scx_chunk_1(), gujarati_scx_chunk_2());
}

fn push_gujarati_scx_chunk_0(v: &mut Vec<ClassUnicodeRange>)
    ensures
        rview(final(v)@) == rview(old(v)@) + gujarati_scx_chunk_0(),
{
    let ghost o = rview(v@);
    push_range(v, '\u{951}', '\u{952}');
    push_range(v, '\u{964}', '\u{965}');
    push_range(v, '\u{A81}', '\u{A83}');
    push_range(v, '\u{A85}', '\u{A8D}');
    push_range(v, '\u{A8F}', '\u{A91}');
    push_range(v, '\u{A93}', '\u{AA8}');
    push_range(v, '\u{AAA}', '\u{AB0}');
    push_range(v, '\u{AB2}', '\u{AB3}');
    assert(rview(v@) =~= o + gujarati_scx_chunk_0());
}

fn push_gujarati_scx_chunk_1(v: &mut Vec<ClassUnicodeRange>)
    ensures
        rview(final(v)@) == rview(old(v)@) + gujarati_scx_chunk_1(),
{
    let ghost o = rview(v@);
    push_range(v, '\u{AB5}', '\u{AB9}');
    push_range(v, '\u{ABC}', '\u{AC5}');
    push_range(v, '\u{AC7}', '\u{AC9}');
    push_range(v, '\u{ACB}', '\u{ACD}');
    push_range(v, '\u{AD0}', '\u{AD0}');
    push_range(v, '\u{AE0}', '\u{AE3}');
    push_range(v, '\u{AE6}', '\u{AF1}');
    push_range(v, '\u{AF9}', '\u{AFF}');
    assert(rview(v@) =~= o + gujarati_scx_chunk_1());
}

fn push_gujarati_scx_chunk_2(v: &mut Vec<ClassUnicodeRange>)
    ensures
        rview(final(v)@) == rview(old(v)@) + gujarati_scx_chunk_2(),
{
    let ghost o = rview(v@);
    push_range(v, '\u{A830}', '\u{A839}');
    assert(rview(v@) =~= o + gujarati_scx_chunk_2());
}

pub fn gujarati_scx_class() -> (v: Vec<ClassUnicodeRange>)
    ensures
        rview(v@) == gujarati_scx_ranges(),
{
    let mut v: Vec<ClassUnicodeRange> = Vec::new();
    assert(rview(v@) =~= Seq::<SRange>::empty());
    push_gujarati_scx_chunk_0(&mut v);
    assert(rview(v@) =~= gujarati_scx_chunk_0());
    push_gujarati_scx_chunk_1(&mut v);
    assert(rview(v@) =~= gujarati_scx_chunk_0() + gujarati_scx_chunk_1());
    push_gujarati_scx_chunk_2(&mut v);
    assert(rview(v@) =~= gujarati_scx_chunk_0() + gujarati_scx_chunk_1() + gujarati_scx_chunk_2());
    v
}

pub open spec fn gunjala_gondi_scx_chunk_0() -> Seq<SRange> {
    seq![(0xB7int, 0xB7int), (0x964int, 0x965int), (0x11D60int, 0x11D65int), (0x11D67int, 0x11D68int), (0x11D6Aint, 0x11D8Eint), (0x11D90int, 0x11D91int), (0x11D93int, 0x11D98int), (0x11DA0int, 0x11DA9int)]
}

/// The ranges of the property Gunjala_Gondi.
pub open spec fn gunjala_gondi_scx_ranges() -> Seq<SRange> {
    gunjala_gondi_scx_chunk_0()
}

pub proof fn lemma_gunjala_gondi_scx_canonical()
    ensures
        canonical(gunjala_gondi_scx_ranges()),
{
    reveal_with_fuel(canonical, 9);
    assert(canonical(gunjala_gondi_scx_chunk_0()));
}

fn push_gunjala_gondi_scx_chunk_0(v: &mut Vec<ClassUnicodeRange>)
    ensures
        rview(final(v)@) == rview(old(v)@) + gunjala_gondi_scx_chunk_0(),
{
    let ghost o = rview(v@);
    push_range(v, '\u{B7}', '\u{B7}');
    push_range(v, '\u{964}', '\u{965}');
    push_range(v, '\u{11D60}', '\u{11D65}');
    push_range(v, '\u{11D67}', '\u{11D68}');
    push_range(v, '\u{11D6A}', '\u{11D8E}');
    push_range(v, '\u{11D90}', '\u{11D91}');
    push_range(v, '\u{11D93}', '\u{11D98}');
    push_range(v, '\u{11DA0}', '\u{11DA9}');
    assert(rview(v@) =~= o + gunjala_gondi_scx_chunk_0());
}

pub fn gunjala_gondi_scx_class() -> (v: Vec<ClassUnicodeRange>)
    ensures
        rview(v@) == gunjala_gondi_scx_ranges(),
{
    let mut v: Vec<ClassUnicodeRange> = Vec::new();
    assert(rview(v@) =~= Seq::<SRange>::empty());
    push_gunjala_gondi_scx_chunk_0(&mut v);
    assert(rview(v@) =~= gunjala_gondi_scx_chunk_0());
    v
}

pub open spec fn gurmukhi_scx_chunk_0() -> Seq<SRange> {
    seq![(0x951int, 0x952int), (0x964int, 0x965int), (0xA01int, 0xA03int), (0xA05int, 0xA0Aint), (0xA0Fint, 0xA10int), (0xA13int, 0xA28int), (0xA2Aint, 0xA30int), (0xA32int, 0xA33int)]
}

pub open spec fn gurmukhi_scx_chunk_1() -> Seq<SRange> {
    seq![(0xA35int, 0xA36int), (0xA38int, 0xA39int), (0xA3Cint, 0xA3Cint), (0xA3Eint, 0xA42int), (0xA47int, 0xA48int), (0xA4Bint, 0xA4Dint), (0xA51int, 0xA51int), (0xA59int, 0xA5Cint)]
}

pub open spec fn gurmukhi_scx_chunk_2() -> Seq<SRange> {
    seq![(0xA5Eint, 0xA5Eint), (0xA66int, 0xA76int), (0xA830int, 0xA839int)]
}

/// The ranges of the property Gurmukhi.
pub open spec fn gurmukhi_scx_ranges() -> Seq<SRange> {
    gurmukhi_scx_chunk_0() + gurmukhi_scx_chunk_1() + gurmukhi_scx_chunk_2()
}

pub proof fn lemma_gurmukhi_scx_canonical()
    ensures
        canonical(gurmukhi_scx_ranges()),
{
    reveal_with_fuel(canonical, 9);
    assert(canonical(gurmukhi_scx_chunk_0()));
    assert(canonical(gurmukhi_scx_chunk_1()));
    assert(canonical(gurmukhi_scx_chunk_2()));
    lemma_canonical_append(gurmukhi_scx_chunk_0(), gurmukhi_scx_chunk_1());
    lemma_canonical_append(gurmukhi_scx_chunk_0() + gurmukhi_scx_chunk_1(), gurmukhi_scx_chunk_2());
}

fn push_gurmukhi_scx_chunk_0(v: &mut Vec<ClassUnicodeRange>)
    ensures
        rview(final(v)@) == rview(old(v)@) + gurmukhi_scx_chunk_0(),
{
    let ghost o = rview(v@);
    push_range(v, '\u{951}', '\u{952}');
    push_range(v, '\u{964}', '\u{965}');
    push_range(v, '\u{A01}', '\u{A03}');
    push_range(v, '\u{A05}', '\u{A0A}');
    push_range(v, '\u{A0F}', '\u{A10}');
    push_range(v, '\u{A13}', '\u{A28}');
    push_range(v, '\u{A2A}', '\u{A30}');
    push_range(v, '\u{A32}', '\u{A33}');
    assert(rview(v@) =~= o + gurmukhi_scx_chunk_0());
}

fn push_gurmukhi_scx_chunk_1(v: &mut Vec<ClassUnicodeRange>)
    ensures
        rview(final(v)@) == rview(old(v)@) + gurmukhi_scx_chunk_1(),
{
    let ghost o = rview(v@);
    push_range(v, '\u{A35}', '\u{A36}');
    push_range(v, '\u{A38}', '\u{A39}');
    push_range(v, '\u{A3C}', '\u{A3C}');
    push_range(v, '\u{A3E}', '\u{A42}');
    push_range(v, '\u{A47}', '\u{A48}');
    push_range(v, '\u{A4B}', '\u{A4D}');
    push_range(v, '\u{A51}', '\u{A51}');
    push_range(v, '\u{A59}', '\u{A5C}');
    assert(rview(v@) =~= o + gurmukhi_scx_chunk_1());
}

fn push_gurmukhi_scx_chunk_2(v: &mut Vec<ClassUnicodeRange>)
    ensures
        rview(final(v)@) == rview(old(v)@) + gurmukhi_scx_chunk_2(),
{
    let ghost o = rview(v@);
    push_range(v, '\u{A5E}', '\u{A5E}');
    push_range(v, '\u{A66}', '\u{A76}');
    push_range(v, '\u{A830}', '\u{A839}');
    assert(rview(v@) =~= o + gurmukhi_scx_chunk_2());
}

pub fn gurmukhi_scx_class() -> (v: Vec<ClassUnicodeRange>)
    ensures
        rview(v@) == gurmukhi_scx_ranges(),
{
    let mut v: Vec<ClassUnicodeRange> = Vec::new();
    assert(rview(v@) =~= Seq::<SRange>::empty());
    push_gurmukhi_scx_chunk_0(&mut v);
    assert(rview(v@) =~= gurmukhi_scx_chunk_0());
    push_gurmukhi_scx_chunk_1(&mut v);
    assert(rview(v@) =~= gurmukhi_scx_chunk_0() + gurmukhi_scx_chunk_1());
    push_gurmukhi_scx_chunk_2(&mut v);
    assert(rview(v@) =~= gurmukhi_scx_chunk_0() + gurmukhi_scx_chunk_1() + gurmukhi_scx_chunk_2());
    v
}

pub open spec fn gurung_khema_scx_chunk_0() -> Seq<SRange> {
    seq![(0x965int, 0x965int), (0x16100int, 0x16139int)]
}

/// The ranges of the property Gurung_Khema.
pub open spec fn gurung_khema_scx_ranges() -> Seq<SRange> {
    gurung_khema_scx_chunk_0()
}

pub proof fn lemma_gurung_khema_scx_canonical()
    ensures
        canonical(gurung_khema_scx_ranges()),
{
    reveal_with_fuel(canonical, 9);
    assert(canonical(gurung_khema_scx_chunk_0()));
}

fn push_gurung_khema_scx_chunk_0(v: &mut Vec<ClassUnicodeRange>)
    ensures
        rview(final(v)@) == rview(old(v)@) + gurung_khema_scx_chunk_0(),
{
    let ghost o = rview(v@);
    push_range(v, '\u{965}', '\u{965}');
    push_range(v, '\u{16100}', '\u{16139}');
    assert(rview(v@) =~= o + gurung_khema_scx_chunk_0());
}

pub fn gurung_khema_scx_class() -> (v: Vec<ClassUnicodeRange>)
    ensures
        rview(v@) == gurung_khema_scx_ranges(),
{
    let mut v: Vec<ClassUnicodeRange> = Vec::new();
    assert(rview(v@) =~= Seq::<SRange>::empty());
    push_gurung_khema_scx_chunk_0(&mut v);
    assert(rview(v@) =~= gurung_khema_scx_chunk_0());
    v
}

pub open spec fn han_scx_chunk_0() -> Seq<SRange> {
    seq![(0xB7int, 0xB7int), (0x2E80int, 0x2E99int), (0x2E9Bint, 0x2EF3int), (0x2F00int, 0x2FD5int), (0x2FF0int, 0x2FFFint), (0x3001int, 0x3003int), (0x3005int, 0x3011int), (0x3013int, 0x301Fint)]
}

pub open spec fn han_scx_chunk_1() -> Seq<SRange> {
    seq![(0x3021int, 0x302Dint), (0x3030int, 0x3030int), (0x3037int, 0x303Fint), (0x30FBint, 0x30FBint), (0x3190int, 0x319Fint), (0x31C0int, 0x31E5int), (0x31EFint, 0x31EFint), (0x3220int, 0x3247int)]
}

pub open spec fn han_scx_chunk_2() -> Seq<SRange> {
    seq![(0x3280int, 0x32B0int), (0x32C0int, 0x32CBint), (0x32FFint, 0x32FFint), (0x3358int, 0x3370int), (0x337Bint, 0x337Fint), (0x33E0int, 0x33FEint), (0x3400int, 0x4DBFint), (0x4E00int, 0x9FFFint)]
}

pub open spec fn han_scx_chunk_3() -> Seq<SRange> {
    seq![(0xA700int, 0xA707int), (0xF900int, 0xFA6Dint), (0xFA70int, 0xFAD9int), (0xFE45int, 0xFE46int), (0xFF61int, 0xFF65int), (0x16FE2int, 0x16FE3int), (0x16FF0int, 0x16FF1int), (0x1D360int, 0x1D371int)]
}

pub open spec fn han_scx_chunk_4() -> Seq<SRange> {
    seq![(0x1F250int, 0x1F251int), (0x20000int, 0x2A6DFint), (0x2A700int, 0x2B739int), (0x2B740int, 0x2B81Dint), (0x2B820int, 0x2CEA1int), (0x2CEB0int, 0x2EBE0int), (0x2EBF0int, 0x2EE5Dint), (0x2F800int, 0x2FA1Dint)]
}

pub open spec fn han_scx_chunk_5() -> Seq<SRange> {
    seq![(0x30000int, 0x3134Aint), (0x31350int, 0x323AFint)]
}

/// The ranges of the property Han.
pub open spec fn han_scx_ranges() -> Seq<SRange> {
    han_scx_chunk_0() + han_scx_chunk_1() + han_scx_chunk_2() + han_scx_chunk_3() + han_scx_chunk_4() + han_scx_chunk_5()
}

pub proof fn lemma_han_scx_canonical()
    ensures
        canonical(han_scx_ranges()),
{
    reveal_with_fuel(canonical, 9);
    assert(canonical(han_scx_chunk_0()));
    assert(canonical(han_scx_chunk_1()));
    assert(canonical(han_scx_chunk_2()));
    assert(canonical(han_scx_chunk_3()));
    assert(canonical(han_scx_chunk_4()));
    assert(canonical(han_scx_chunk_5()));
    lemma_canonical_append(han_scx_chunk_0(), han_scx_chunk_1());
    lemma_canonical_append(han_scx_chunk_0() + han_scx_chunk_1(), han_scx_chunk_2());
    lemma_canonical_append(han_scx_chunk_0() + han_scx_chunk_1() + han_scx_chunk_2(), han_scx_chunk_3());
    lemma_canonical_append(han_scx_chunk_0() + han_scx_chunk_1() + han_scx_chunk_2() + han_scx_chunk_3(), han_scx_chunk_4());
    lemma_canonical_append(han_scx_chunk_0() + han_scx_chunk_1() + han_scx_chunk_2() + han_scx_chunk_3() + han_scx_chunk_4(), han_scx_chunk_5());
}

fn push_han_scx_chunk_0(v: &mut Vec<ClassUnicodeRange>)
    ensures
        rview(final(v)@) == rview(old(v)@) + han_scx_chunk_0(),
{
    let ghost o = rview(v@);
    push_range(v, '\u{B7}', '\u{B7}');
    push_range(v, '\u{2E80}', '\u{2E99}');
    push_range(v, '\u{2E9B}', '\u{2EF3}');
    push_range(v, '\u{2F00}', '\u{2FD5}');
    push_range(v, '\u{2FF0}', '\u{2FFF}');
    push_range(v, '\u{3001}', '\u{3003}');
    push_range(v, '\u{3005}', '\u{3011}');
    push_range(v, '\u{3013}', '\u{301F}');
    assert(rview(v@) =~= o + han_scx_chunk_0());
}

fn push_han_scx_chunk_1(v: &mut Vec<ClassUnicodeRange>)
    ensures
        rview(final(v)@) == rview(old(v)@) + han_scx_chunk_1(),
{
    let ghost o = rview(v@);
    push_range(v, '\u{3021}', '\u{302D}');
    push_range(v, '\u{3030}', '\u{3030}');
    push_range(v, '\u{3037}', '\u{303F}');
    push_range(v, '\u{30FB}', '\u{30FB}');
    push_range(v, '\u{3190}', '\u{319F}');
    push_range(v, '\u{31C0}', '\u{31E5}');
    push_range(v, '\u{31EF}', '\u{31EF}');
    push_range(v, '\u{3220}', '\u{3247}');
    assert(rview(v@) =~= o + han_scx_chunk_1());
}

fn push_han_scx_chunk_2(v: &mut Vec<ClassUnicodeRange>)
    ensures
        rview(final(v)@) == rview(old(v)@) + han_scx_chunk_2(),
{
    let ghost o = rview(v@);
    push_range(v, '\u{3280}', '\u{32B0}');
    push_range(v, '\u{32C0}', '\u{32CB}');
    push_range(v, '\u{32FF}', '\u{32FF}');
    push_range(v, '\u{3358}', '\u{3370}');
    push_range(v, '\u{337B}', '\u{337F}');
    push_range(v, '\u{33E0}', '\u{33FE}');
    push_range(v, '\u{3400}', '\u{4DBF}');
    push_range(v, '\u{4E00}', '\u{9FFF}');
    assert(rview(v@) =~= o + han_scx_chunk_2());
}

fn push_han_scx_chunk_3(v: &mut Vec<ClassUnicodeRange>)
    ensures
        rview(final(v)@) == rview(old(v)@) + han_scx_chunk_3(),
{
    let ghost o = rview(v@);
    push_range(v, '\u{A700}', '\u{A707}');
    push_range(v, '\u{F900}', '\u{FA6D}');
    push_range(v, '\u{FA70}', '\u{FAD9}');
    push_range(v, '\u{FE45}', '\u{FE46}');
    push_range(v, '\u{FF61}', '\u{FF65}');
    push_range(v, '\u{16FE2}', '\u{16FE3}');
    push_range(v, '\u{16FF0}', '\u{16FF1}');
    push_range(v, '\u{1D360}', '\u{1D371}');
    assert(rview(v@) =~= o + han_scx_chunk_3());
}

fn push_han_scx_chunk_4(v: &mut Vec<ClassUnicodeRange>)
    ensures
        rview(final(v)@) == rview(old(v)@) + han_scx_chunk_4(),
{
    let ghost o = rview(v@);
    push_range(v, '\u{1F250}', '\u{1F251}');
    push_range(v, '\u{20000}', '\u{2A6DF}');
    push_range(v, '\u{2A700}', '\u{2B739}');
    push_range(v, '\u{2B740}', '\u{2B81D}');
    push_range(v, '\u{2B820}', '\u{2CEA1}');
    push_range(v, '\u{2CEB0}', '\u{2EBE0}');
    push_range(v, '\u{2EBF0}', '\u{2EE5D}');
    push_range(v, '\u{2F800}', '\u{2FA1D}');
    assert(rview(v@) =~= o + han_scx_chunk_4());
}

fn push_han_scx_chunk_5(v: &mut Vec<ClassUnicodeRange>)
    ensures
        rview(final(v)@) == rview(old(v)@) + han_scx_chunk_5(),
{
    let ghost o = rview(v@);
    push_range(v, '\u{30000}', '\u{3134A}');
    push_range(v, '\u{31350}', '\u{323AF}');
    assert(rview(v@) =~= o + han_scx_chunk_5());
}

pub fn han_scx_class() -> (v: Vec<ClassUnicodeRange>)
    ensures
        rview(v@) == han_scx_ranges(),
{
    let mut v: Vec<ClassUnicodeRange> = Vec::new();
    assert(rview(v@) =~= Seq::<SRange>::empty());
    push_han_scx_chunk_0(&mut v);
    assert(rview(v@) =~= han_scx_chunk_0());
    push_han_scx_chunk_1(&mut v);
    assert(rview(v@) =~= han_scx_chunk_0() + han_scx_chunk_1());
    push_han_scx_chunk_2(&mut v);
    assert(rview(v@) =~= han_scx_chunk_0() + han_scx_chunk_1() + han_scx_chunk_2());
    push_han_scx_chunk_3(&mut v);
    assert(rview(v@) =~= han_scx_chunk_0() + han_scx_chunk_1() + han_scx_chunk_2() + han_scx_chunk_3());
    push_han_scx_chunk_4(&mut v);
    assert(rview(v@) =~= han_scx_chunk_0() + han_scx_chunk_1() + han_scx_chunk_2() + han_scx_chunk_3() + han_scx_chunk_4());
    push_han_scx_chunk_5(&mut v);
    assert(rview(v@) =~= han_scx_chunk_0() + han_scx_chunk_1() + han_scx_chunk_2() + han_scx_chunk_3() + han_scx_chunk_4() + han_scx_chunk_5());
    v
}

pub open spec fn hangul_scx_chunk_0() -> Seq<SRange> {
    seq![(0x1100int, 0x11FFint), (0x3001int, 0x3003int), (0x3008int, 0x3011int), (0x3013int, 0x301Fint), (0x302Eint, 0x3030int), (0x3037int, 0x3037int), (0x30FBint, 0x30FBint), (0x3131int, 0x318Eint)]
}

pub open spec fn hangul_scx_chunk_1() -> Seq<SRange> {
    seq![(0x3200int, 0x321Eint), (0x3260int, 0x327Eint), (0xA960int, 0xA97Cint), (0xAC00int, 0xD7A3int), (0xD7B0int, 0xD7C6int), (0xD7CBint, 0xD7FBint), (0xFE45int, 0xFE46int), (0xFF61int, 0xFF65int)]
}

pub open spec fn hangul_scx_chunk_2() -> Seq<SRange> {
    seq![(0xFFA0int, 0xFFBEint), (0xFFC2int, 0xFFC7int), (0xFFCAint, 0xFFCFint), (0xFFD2int, 0xFFD7int), (0xFFDAint, 0xFFDCint)]
}

/// The ranges of the property Hangul.
pub open spec fn hangul_scx_ranges() -> Seq<SRange> {
    hangul_scx_chunk_0() + hangul_scx_chunk_1() + hangul_scx_chunk_2()
}

pub proof fn lemma_hangul_scx_canonical()
    ensures
        canonical(hangul_scx_ranges()),
{
    reveal_with_fuel(canonical, 9);
    assert(canonical(hangul_scx_chunk_0()));
    assert(canonical(hangul_scx_chunk_1()));
    assert(canonical(hangul_scx_chunk_2()));
    lemma_canonical_append(hangul_scx_chunk_0(), hangul_scx_chunk_1());
    lemma_canonical_append(hangul_scx_chunk_0() + hangul_scx_chunk_1(), hangul_scx_chunk_2());
}

fn push_hangul_scx_chunk_0(v: &mut Vec<ClassUnicodeRange>)
    ensures
        rview(final(v)@) == rview(old(v)@) + hangul_scx_chunk_0(),
{
    let ghost o = rview(v@);
    push_range(v, '\u{1100}', '\u{11FF}');
    push_range(v, '\u{3001}', '\u{3003}');
    push_range(v, '\u{3008}', '\u{3011}');
    push_range(v, '\u{3013}', '\u{301F}');
    push_range(v, '\u{302E}', '\u{3030}');
    push_range(v, '\u{3037}', '\u{3037}');
    push_range(v, '\u{30FB}', '\u{30FB}');
    push_range(v, '\u{3131}', '\u{318E}');
    assert(rview(v@) =~= o + hangul_scx_chunk_0());
}

fn push_hangul_scx_chunk_1(v: &mut Vec<ClassUnicodeRange>)
    ensures
        rview(final(v)@) == rview(old(v)@) + hangul_scx_chunk_1(),
{
    let ghost o = rview(v@);
    push_range(v, '\u{3200}', '\u{321E}');
    push_range(v, '\u{3260}', '\u{327E}');
    push_range(v, '\u{A960}', '\u{A97C}');
    push_range(v, '\u{AC00}', '\u{D7A3}');
    push_range(v, '\u{D7B0}', '\u{D7C6}');
    push_range(v, '\u{D7CB}', '\u{D7FB}');
    push_range(v, '\u{FE45}', '\u{FE46}');
    push_range(v, '\u{FF61}', '\u{FF65}');
    assert(rview(v@) =~= o + hangul_scx_chunk_1());
}

fn push_hangul_scx_chunk_2(v: &mut Vec<ClassUnicodeRange>)
    ensures
        rview(final(v)@) == rview(old(v)@) + hangul_scx_chunk_2(),
{
    let ghost o = rview(v@);
    push_range(v, '\u{FFA0}', '\u{FFBE}');
    push_range(v, '\u{FFC2}', '\u{FFC7}');
    push_range(v, '\u{FFCA}', '\u{FFCF}');
    push_range(v, '\u{FFD2}', '\u{FFD7}');
    push_range(v, '\u{FFDA}', '\u{FFDC}');
    assert(rview(v@) =~= o + hangul_scx_chunk_2());
}

pub fn hangul_scx_class() -> (v: Vec<ClassUnicodeRange>)
    ensures
        rview(v@) == hangul_scx_ranges(),
{
    let mut v: Vec<ClassUnicodeRange> = Vec::new();
    assert(rview(v@) =~= Seq::<SRange>::empty());
    push_hangul_scx_chunk_0(&mut v);
    assert(rview(v@) =~= hangul_scx_chunk_0());
    push_hangul_scx_chunk_1(&mut v);
    assert(rview(v@) =~= hangul_scx_chunk_0() + hangul_scx_chunk_1());
    push_hangul_scx_chunk_2(&mut v);
    assert(rview(v@) =~= hangul_scx_chunk_0() + hangul_scx_chunk_1() + hangul_scx_chunk_2());
    v
}

pub open spec fn hanifi_rohingya_scx_chunk_0() -> Seq<SRange> {
    seq![(0x60Cint, 0x60Cint), (0x61Bint, 0x61Bint), (0x61Fint, 0x61Fint), (0x640int, 0x640int), (0x6D4int, 0x6D4int), (0x10D00int, 0x10D27int), (0x10D30int, 0x10D39int)]
}

/// The ranges of the property Hanifi_Rohingya.
pub open spec fn hanifi_rohingya_scx_ranges() -> Seq<SRange> {
    hanifi_rohingya_scx_chunk_0()
}

pub proof fn lemma_hanifi_rohingya_scx_canonical()
    ensures
        canonical(hanifi_rohingya_scx_ranges()),
{
    reveal_with_fuel(canonical, 9);
    assert(canonical(hanifi_rohingya_scx_chunk_0()));
}

fn push_hanifi_rohingya_scx_chunk_0(v: &mut Vec<ClassUnicodeRange>)
    ensures
        rview(final(v)@) == rview(old(v)@) + hanifi_rohingya_scx_chunk_0(),
{
    let ghost o = rview(v@);
    push_range(v, '\u{60C}', '\u{60C}');
    push_range(v, '\u{61B}', '\u{61B}');
    push_range(v, '\u{61F}', '\u{61F}');
    push_range(v, '\u{640}', '\u{640}');
    push_range(v, '\u{6D4}', '\u{6D4}');
    push_range(v, '\u{10D00}', '\u{10D27}');
    push_range(v, '\u{10D30}', '\u{10D39}');
    assert(rview(v@) =~= o + hanifi_rohingya_scx_chunk_0());
}

pub fn hanifi_rohingya_scx_class() -> (v: Vec<ClassUnicodeRange>)
    ensures
        rview(v@) == hanifi_rohingya_scx_ranges(),
{
    let mut v: Vec<ClassUnicodeRange> = Vec::new();
    assert(rview(v@) =~= Seq::<SRange>::empty());
    push_hanifi_rohingya_scx_chunk_0(&mut v);
    assert(rview(v@) =~= hanifi_rohingya_scx_chunk_0());
    v
}

pub open spec fn hanunoo_scx_chunk_0() -> Seq<SRange> {
    seq![(0x1720int, 0x1736int)]
}

/// The ranges of the property Hanunoo.
pub open spec fn hanunoo_scx_ranges() -> Seq<SRange> {
    hanunoo_scx_chunk_0()
}

pub proof fn lemma_hanunoo_scx_canonical()
    ensures
        canonical(hanunoo_scx_ranges()),
{
    reveal_with_fuel(canonical, 9);
    assert(canonical(hanunoo_scx_chunk_0()));
}

fn push_hanunoo_scx_chunk_0(v: &mut Vec<ClassUnicodeRange>)
    ensures
        rview(final(v)@) == rview(old(v)@) + hanunoo_scx_chunk_0(),
{
    let ghost o = rview(v@);
    push_range(v, '\u{1720}', '\u{1736}');
    assert(rview(v@) =~= o + hanunoo_scx_chunk_0());
}

pub fn hanunoo_scx_class() -> (v: Vec<ClassUnicodeRange>)
    ensures
        rview(v@) == hanunoo_scx_ranges(),
{
    let mut v: Vec<ClassUnicodeRange> = Vec::new();
    assert(rview(v@) =~= Seq::<SRange>::empty());
    push_hanunoo_scx_chunk_0(&mut v);
    assert(rview(v@) =~= hanunoo_scx_chunk_0());
    v
}

pub open spec fn hatran_scx_chunk_0() -> Seq<SRange> {
    seq![(0x108E0int, 0x108F2int), (0x108F4int, 0x108F5int), (0x108FBint, 0x108FFint)]
}

/// The ranges of the property Hatran.
pub open spec fn hatran_scx_ranges() -> Seq<SRange> {
    hatran_scx_chunk_0()
}

pub proof fn lemma_hatran_scx_canonical()
    ensures
        canonical(hatran_scx_ranges()),
{
    reveal_with_fuel(canonical, 9);
    assert(canonical(hatran_scx_chunk_0()));
}

fn push_hatran_scx_chunk_0(v: &mut Vec<ClassUnicodeRange>)
    ensures
        rview(final(v)@) == rview(old(v)@) + hatran_scx_chunk_0(),
{
    let ghost o = rview(v@);
    push_range(v, '\u{108E0}', '\u{108F2}');
    push_range(v, '\u{108F4}', '\u{108F5}');
    push_range(v, '\u{108FB}', '\u{108FF}');
    assert(rview(v@) =~= o + hatran_scx_chunk_0());
}

pub fn hatran_scx_class() -> (v: Vec<ClassUnicodeRange>)
    ensures
        rview(v@) == hatran_scx_ranges(),
{
    let mut v: Vec<ClassUnicodeRange> = Vec::new();
    assert(rview(v@) =~= Seq::<SRange>::empty());
    push_hatran_scx_chunk_0(&mut v);
    assert(rview(v@) =~= hatran_scx_chunk_0());
    v
}

pub open spec fn hebrew_scx_chunk_0() -> Seq<SRange> {
    seq![(0x307int, 0x308int), (0x591int, 0x5C7int), (0x5D0int, 0x5EAint), (0x5EFint, 0x5F4int), (0xFB1Dint, 0xFB36int), (0xFB38int, 0xFB3Cint), (0xFB3Eint, 0xFB3Eint), (0xFB40int, 0xFB41int)]
}

pub open spec fn hebrew_scx_chunk_1() -> Seq<SRange> {
    seq![(0xFB43int, 0xFB44int), (0xFB46int, 0xFB4Fint)]
}

/// The ranges of the property Hebrew.
pub open spec fn hebrew_scx_ranges() -> Seq<SRange> {
    hebrew_scx_chunk_0() + hebrew_scx_chunk_1()
}

pub proof fn lemma_hebrew_scx_canonical()
    ensures
        canonical(hebrew_scx_ranges()),
{
    reveal_with_fuel(canonical, 9);
    assert(canonical(hebrew_scx_chunk_0()));
    assert(canonical(hebrew_scx_chunk_1()));
    lemma_canonical_append(hebrew_scx_chunk_0(), hebrew_scx_chunk_1());
}

fn push_hebrew_scx_chunk_0(v: &mut Vec<ClassUnicodeRange>)
    ensures
        rview(final(v)@) == rview(old(v)@) + hebrew_scx_chunk_0(),
{
    let ghost o = rview(v@);
    push_range(v, '\u{307}', '\u{308}');
    push_range(v, '\u{591}', '\u{5C7}');
    push_range(v, '\u{5D0}', '\u{5EA}');
    push_range(v, '\u{5EF}', '\u{5F4}');
    push_range(v, '\u{FB1D}', '\u{FB36}');
    push_range(v, '\u{FB38}', '\u{FB3C}');
    push_range(v, '\u{FB3E}', '\u{FB3E}');
    push_range(v, '\u{FB40}', '\u{FB41}');
    assert(rview(v@) =~= o + hebrew_scx_chunk_0());
}

fn push_hebrew_scx_chunk_1(v: &mut Vec<ClassUnicodeRange>)
    ensures
        rview(final(v)@) == rview(old(v)@) + hebrew_scx_chunk_1(),
{
    let ghost o = rview(v@);
    push_range(v, '\u{FB43}', '\u{FB44}');
    push_range(v, '\u{FB46}', '\u{FB4F}');
    assert(rview(v@) =~= o + hebrew_scx_chunk_1());
}

pub fn hebrew_scx_class() -> (v: Vec<ClassUnicodeRange>)
    ensures
        rview(v@) == hebrew_scx_ranges(),
{
    let mut v: Vec<ClassUnicodeRange> = Vec::new();
    assert(rview(v@) =~= Seq::<SRange>::empty());
    push_hebrew_scx_chunk_0(&mut v);
    assert(rview(v@) =~= hebrew_scx_chunk_0());
    push_hebrew_scx_chunk_1(&mut v);
    assert(rview(v@) =~= hebrew_scx_chunk_0() + hebrew_scx_chunk_1());
    v
}

pub open spec fn hiragana_scx_chunk_0() -> Seq<SRange> {
    seq![(0x3001int, 0x3003int), (0x3008int, 0x3011int), (0x3013int, 0x301Fint), (0x3030int, 0x3035int), (0x3037int, 0x3037int), (0x303Cint, 0x303Dint), (0x3041int, 0x3096int), (0x3099int, 0x30A0int)]
}

pub open spec fn hiragana_scx_chunk_1() -> Seq<SRange> {
    seq![(0x30FBint, 0x30FCint), (0xFE45int, 0xFE46int), (0xFF61int, 0xFF65int), (0xFF70int, 0xFF70int), (0xFF9Eint, 0xFF9Fint), (0x1B001int, 0x1B11Fint), (0x1B132int, 0x1B132int), (0x1B150int, 0x1B152int)]
}

pub open spec fn hiragana_scx_chunk_2() -> Seq<SRange> {
    seq![(0x1F200int, 0x1F200int)]
}

/// The ranges of the property Hiragana.
pub open spec fn hiragana_scx_ranges() -> Seq<SRange> {
    hiragana_scx_chunk_0() + hiragana_scx_chunk_1() + hiragana_scx_chunk_2()
}

pub proof fn lemma_hiragana_scx_canonical()
    ensures
        canonical(hiragana_scx_ranges()),
{
    reveal_with_fuel(canonical, 9);
    assert(canonical(hiragana_scx_chunk_0()));
    assert(canonical(hiragana_scx_chunk_1()));
    assert(canonical(hiragana_scx_chunk_2()));
    lemma_canonical_append(hiragana_scx_chunk_0(), hiragana_scx_chunk_1());
    lemma_canonical_append(hiragana_scx_chunk_0() + hiragana_scx_chunk_1(), hiragana_scx_chunk_2());
}

fn push_hiragana_scx_chunk_0(v: &mut Vec<ClassUnicodeRange>)
    ensures
        rview(final(v)@) == rview(old(v)@) + hiragana_scx_chunk_0(),
{
    let ghost o = rview(v@);
    push_range(v, '\u{3001}', '\u{3003}');
    push_range(v, '\u{3008}', '\u{3011}');
    push_range(v, '\u{3013}', '\u{301F}');
    push_range(v, '\u{3030}', '\u{3035}');
    push_range(v, '\u{3037}', '\u{3037}');
    push_range(v, '\u{303C}', '\u{303D}');
    push_range(v, '\u{3041}', '\u{3096}');
    push_range(v, '\u{3099}', '\u{30A0}');
    assert(rview(v@) =~= o + hiragana_scx_chunk_0());
}

fn push_hiragana_scx_chunk_1(v: &mut Vec<ClassUnicodeRange>)
    ensures
        rview(final(v)@) == rview(old(v)@) + hiragana_scx_chunk_1(),
{
    let ghost o = rview(v@);
    push_range(v, '\u{30FB}', '\u{30FC}');
    push_range(v, '\u{FE45}', '\u{FE46}');
    push_range(v, '\u{FF61}', '\u{FF65}');
    push_range(v, '\u{FF70}', '\u{FF70}');
    push_range(v, '\u{FF9E}', '\u{FF9F}');
    push_range(v, '\u{1B001}', '\u{1B11F}');
    push_range(v, '\u{1B132}', '\u{1B132}');
    push_range(v, '\u{1B150}', '\u{1B152}');
    assert(rview(v@) =~= o + hiragana_scx_chunk_1());
}

fn push_hiragana_scx_chunk_2(v: &mut Vec<ClassUnicodeRange>)
    ensures
        rview(final(v)@) == rview(old(v)@) + hiragana_scx_chunk_2(),
{
    let ghost o = rview(v@);
    push_range(v, '\u{1F200}', '\u{1F200}');
    assert(rview(v@) =~= o + hiragana_scx_chunk_2());
}

pub fn hiragana_scx_class() -> (v: Vec<ClassUnicodeRange>)
    ensures
        rview(v@) == hiragana_scx_ranges(),
{
    let mut v: Vec<ClassUnicodeRange> = Vec::new();
    assert(rview(v@) =~= Seq::<SRange>::empty());
    push_hiragana_scx_chunk_0(&mut v);
    assert(rview(v@) =~= hiragana_scx_chunk_0());
    push_hiragana_scx_chunk_1(&mut v);
    assert(rview(v@) =~= hiragana_scx_chunk_0() + hiragana_scx_chunk_1());
    push_hiragana_scx_chunk_2(&mut v);
    assert(rview(v@) =~= hiragana_scx_chunk_0() + hiragana_scx_chunk_1() + hiragana_scx_chunk_2());
    v
}

pub open spec fn imperial_aramaic_scx_chunk_0() -> Seq<SRange> {
    seq![(0x10840int, 0x10855int), (0x10857int, 0x1085Fint)]
}

/// The ranges of the property Imperial_Aramaic.
pub open spec fn imperial_aramaic_scx_ranges() -> Seq<SRange> {
    imperial_aramaic_scx_chunk_0()
}

pub proof fn lemma_imperial_aramaic_scx_canonical()
    ensures
        canonical(imperial_aramaic_scx_ranges()),
{
    reveal_with_fuel(canonical, 9);
    assert(canonical(imperial_aramaic_scx_chunk_0()));
}

fn push_imperial_aramaic_scx_chunk_0(v: &mut Vec<ClassUnicodeRange>)
    ensures
        rview(final(v)@) == rview(old(v)@) + imperial_aramaic_scx_chunk_0(),
{
    let ghost o = rview(v@);
    push_range(v, '\u{10840}', '\u{10855}');
    push_range(v, '\u{10857}', '\u{1085F}');
    assert(rview(v@) =~= o + imperial_aramaic_scx_chunk_0());
}

pub fn imperial_aramaic_scx_class() -> (v: Vec<ClassUnicodeRange>)
    ensures
        rview(v@) == imperial_aramaic_scx_ranges(),
{
    let mut v: Vec<ClassUnicodeRange> = Vec::new();
    assert(rview(v@) =~= Seq::<SRange>::empty());
    push_imperial_aramaic_scx_chunk_0(&mut v);
    assert(rview(v@) =~= imperial_aramaic_scx_chunk_0());
    v
}

pub open spec fn inherited_scx_chunk_0() -> Seq<SRange> {
    seq![(0x30Fint, 0x30Fint), (0x312int, 0x312int), (0x314int, 0x31Fint), (0x321int, 0x322int), (0x326int, 0x32Cint), (0x32Fint, 0x32Fint), (0x332int, 0x341int), (0x343int, 0x344int)]
}

pub open spec fn inherited_scx_chunk_1() -> Seq<SRange> {
    seq![(0x346int, 0x357int), (0x359int, 0x35Dint), (0x35Fint, 0x362int), (0x953int, 0x954int), (0x1AB0int, 0x1ACEint), (0x1DC2int, 0x1DF7int), (0x1DF9int, 0x1DF9int), (0x1DFBint, 0x1DFFint)]
}

pub open spec fn inherited_scx_chunk_2() -> Seq<SRange> {
    seq![(0x200Cint, 0x200Dint), (0x20D0int, 0x20EFint), (0xFE00int, 0xFE0Fint), (0xFE20int, 0xFE2Dint), (0x101FDint, 0x101FDint), (0x1CF00int, 0x1CF2Dint), (0x1CF30int, 0x1CF46int), (0x1D167int, 0x1D169int)]
}

pub open spec fn inherited_scx_chunk_3() -> Seq<SRange> {
    seq![(0x1D17Bint, 0x1D182int), (0x1D185int, 0x1D18Bint), (0x1D1AAint, 0x1D1ADint), (0xE0100int, 0xE01EFint)]
}

/// The ranges of the property Inherited.
pub open spec fn inherited_scx_ranges() -> Seq<SRange> {
    inherited_scx_chunk_0() + inherited_scx_chunk_1() + inherited_scx_chunk_2() + inherited_scx_chunk_3()
}

pub proof fn lemma_inherited_scx_canonical()
    ensures
        canonical(inherited_scx_ranges()),
{
    reveal_with_fuel(canonical, 9);
    assert(canonical(inherited_scx_chunk_0()));
    assert(canonical(inherited_scx_chunk_1()));
    assert(canonical(inherited_scx_chunk_2()));
    assert(canonical(inherited_scx_chunk_3()));
    lemma_canonical_append(inherited_scx_chunk_0(), inherited_scx_chunk_1());
    lemma_canonical_append(inherited_scx_chunk_0() + inherited_scx_chunk_1(), inherited_scx_chunk_2());
    lemma_canonical_append(inherited_scx_chunk_0() + inherited_scx_chunk_1() + inherited_scx_chunk_2(), inherited_scx_chunk_3());
}

fn push_inherited_scx_chunk_0(v: &mut Vec<ClassUnicodeRange>)
    ensures
        rview(final(v)@) == rview(old(v)@) + inherited_scx_chunk_0(),
{
    let ghost o = rview(v@);
    push_range(v, '\u{30F}', '\u{30F}');
    push_range(v, '\u{312}', '\u{312}');
    push_range(v, '\u{314}', '\u{31F}');
    push_range(v, '\u{321}', '\u{322}');
    push_range(v, '\u{326}', '\u{32C}');
    push_range(v, '\u{32F}', '\u{32F}');
    push_range(v, '\u{332}', '\u{341}');
    push_range(v, '\u{343}', '\u{344}');
    assert(rview(v@) =~= o + inherited_scx_chunk_0());
}

fn push_inherited_scx_chunk_1(v: &mut Vec<ClassUnicodeRange>)
    ensures
        rview(final(v)@) == rview(old(v)@) + inherited_scx_chunk_1(),
{
    let ghost o = rview(v@);
    push_range(v, '\u{346}', '\u{357}');
    push_range(v, '\u{359}', '\u{35D}');
    push_range(v, '\u{35F}', '\u{362}');
    push_range(v, '\u{953}', '\u{954}');
    push_range(v, '\u{1AB0}', '\u{1ACE}');
    push_range(v, '\u{1DC2}', '\u{1DF7}');
    push_range(v, '\u{1DF9}', '\u{1DF9}');
    push_range(v, '\u{1DFB}', '\u{1DFF}');
    assert(rview(v@) =~= o + inherited_scx_chunk_1());
}

fn push_inherited_scx_chunk_2(v: &mut Vec<ClassUnicodeRange>)
    ensures
        rview(final(v)@) == rview(old(v)@) + inherited_scx_chunk_2(),
{
    let ghost o = rview(v@);
    push_range(v, '\u{200C}', '\u{200D}');
    push_range(v, '\u{20D0}', '\u{20EF}');
    push_range(v, '\u{FE00}', '\u{FE0F}');
    push_range(v, '\u{FE20}', '\u{FE2D}');
    push_range(v, '\u{101FD}', '\u{101FD}');
    push_range(v, '\u{1CF00}', '\u{1CF2D}');
    push_range(v, '\u{1CF30}', '\u{1CF46}');
    push_range(v, '\u{1D167}', '\u{1D169}');
    assert(rview(v@) =~= o + inherited_scx_chunk_2());
}

fn push_inherited_scx_chunk_3(v: &mut Vec<ClassUnicodeRange>)
    ensures
        rview(final(v)@) == rview(old(v)@) + inherited_scx_chunk_3(),
{
    let ghost o = rview(v@);
    push_range(v, '\u{1D17B}', '\u{1D182}');
    push_range(v, '\u{1D185}', '\u{1D18B}');
    push_range(v, '\u{1D1AA}', '\u{1D1AD}');
    push_range(v, '\u{E0100}', '\u{E01EF}');
    assert(rview(v@) =~= o + inherited_scx_chunk_3());
}

pub fn inherited_scx_class() -> (v: Vec<ClassUnicodeRange>)
    ensures
        rview(v@) == inherited_scx_ranges(),
{
    let mut v: Vec<ClassUnicodeRange> = Vec::new();
    assert(rview(v@) =~= Seq::<SRange>::empty());
    push_inherited_scx_chunk_0(&mut v);
    assert(rview(v@) =~= inherited_scx_chunk_0());
    push_inherited_scx_chunk_1(&mut v);
    assert(rview(v@) =~= inherited_scx_chunk_0() + inherited_scx_chunk_1());
    push_inherited_scx_chunk_2(&mut v);
    assert(rview(v@) =~= inherited_scx_chunk_0() + inherited_scx_chunk_1() + inherited_scx_chunk_2());
    push_inherited_scx_chunk_3(&mut v);
    assert(rview(v@) =~= inherited_scx_chunk_0() + inherited_scx_chunk_1() + inherited_scx_chunk_2() + inherited_scx_chunk_3());
    v
}

pub open spec fn inscriptional_pahlavi_scx_chunk_0() -> Seq<SRange> {
    seq![(0x10B60int, 0x10B72int), (0x10B78int, 0x10B7Fint)]
}

/// The ranges of the property Inscriptional_Pahlavi.
pub open spec fn inscriptional_pahlavi_scx_ranges() -> Seq<SRange> {
    inscriptional_pahlavi_scx_chunk_0()
}

pub proof fn lemma_inscriptional_pahlavi_scx_canonical()
    ensures
        canonical(inscriptional_pahlavi_scx_ranges()),
{
    reveal_with_fuel(canonical, 9);
    assert(canonical(inscriptional_pahlavi_scx_chunk_0()));
}

fn push_inscriptional_pahlavi_scx_chunk_0(v: &mut Vec<ClassUnicodeRange>)
    ensures
        rview(final(v)@) == rview(old(v)@) + inscriptional_pahlavi_scx_chunk_0(),
{
    let ghost o = rview(v@);
    push_range(v, '\u{10B60}', '\u{10B72}');
    push_range(v, '\u{10B78}', '\u{10B7F}');
    assert(rview(v@) =~= o + inscriptional_pahlavi_scx_chunk_0());
}

pub fn inscriptional_pahlavi_scx_class() -> (v: Vec<ClassUnicodeRange>)
    ensures
        rview(v@) == inscriptional_pahlavi_scx_ranges(),
{
    let mut v: Vec<ClassUnicodeRange> = Vec::new();
    assert(rview(v@) =~= Seq::<SRange>::empty());
    push_inscriptional_pahlavi_scx_chunk_0(&mut v);
    assert(rview(v@) =~= inscriptional_pahlavi_scx_chunk_0());
    v
}

pub open spec fn inscriptional_parthian_scx_chunk_0() -> Seq<SRange> {
    seq![(0x10B40int, 0x10B55int), (0x10B58int, 0x10B5Fint)]
}

/// The ranges of the property Inscriptional_Parthian.
pub open spec fn inscriptional_parthian_scx_ranges() -> Seq<SRange> {
    inscriptional_parthian_scx_chunk_0()
}

pub proof fn lemma_inscriptional_parthian_scx_canonical()
    ensures
        canonical(inscriptional_parthian_scx_ranges()),
{
    reveal_with_fuel(canonical, 9);
    assert(canonical(inscriptional_parthian_scx_chunk_0()));
}

fn push_inscriptional_parthian_scx_chunk_0(v: &mut Vec<ClassUnicodeRange>)
    ensures
        rview(final(v)@) == rview(old(v)@) + inscriptional_parthian_scx_chunk_0(),
{
    let ghost o = rview(v@);
    push_range(v, '\u{10B40}', '\u{10B55}');
    push_range(v, '\u{10B58}', '\u{10B5F}');
    assert(rview(v@) =~= o + inscriptional_parthian_scx_chunk_0());
}

pub fn inscriptional_parthian_scx_class() -> (v: Vec<ClassUnicodeRange>)
    ensures
        rview(v@) == inscriptional_parthian_scx_ranges(),
{
    let mut v: Vec<ClassUnicodeRange> = Vec::new();
    assert(rview(v@) =~= Seq::<SRange>::empty());
    push_inscriptional_parthian_scx_chunk_0(&mut v);
    assert(rview(v@) =~= inscriptional_parthian_scx_chunk_0());
    v
}

pub open spec fn javanese_scx_chunk_0() -> Seq<SRange> {
    seq![(0xA980int, 0xA9CDint), (0xA9CFint, 0xA9D9int), (0xA9DEint, 0xA9DFint)]
}

/// The ranges of the property Javanese.
pub open spec fn javanese_scx_ranges() -> Seq<SRange> {
    javanese_scx_chunk_0()
}

pub proof fn lemma_javanese_scx_canonical()
    ensures
        canonical(javanese_scx_ranges()),
{
    reveal_with_fuel(canonical, 9);
    assert(canonical(javanese_scx_chunk_0()));
}

fn push_javanese_scx_chunk_0(v: &mut Vec<ClassUnicodeRange>)
    ensures
        rview(final(v)@) == rview(old(v)@) + javanese_scx_chunk_0(),
{
    let ghost o = rview(v@);
    push_range(v, '\u{A980}', '\u{A9CD}');
    push_range(v, '\u{A9CF}', '\u{A9D9}');
    push_range(v, '\u{A9DE}', '\u{A9DF}');
    assert(rview(v@) =~= o + javanese_scx_chunk_0());
}

pub fn javanese_scx_class() -> (v: Vec<ClassUnicodeRange>)
    ensures
        rview(v@) == javanese_scx_ranges(),
{
    let mut v: Vec<ClassUnicodeRange> = Vec::new();
    assert(rview(v@) =~= Seq::<SRange>::empty());
    push_javanese_scx_chunk_0(&mut v);
    assert(rview(v@) =~= javanese_scx_chunk_0());
    v
}

pub open spec fn kaithi_scx_chunk_0() -> Seq<SRange> {
    seq![(0x966int, 0x96Fint), (0x2E31int, 0x2E31int), (0xA830int, 0xA839int), (0x11080int, 0x110C2int), (0x110CDint, 0x110CDint)]
}

/// The ranges of the property Kaithi.
pub open spec fn kaithi_scx_ranges() -> Seq<SRange> {
    kaithi_scx_chunk_0()
}

pub proof fn lemma_kaithi_scx_canonical()
    ensures
        canonical(kaithi_scx_ranges()),
{
    reveal_with_fuel(canonical, 9);
    assert(canonical(kaithi_scx_chunk_0()));
}

fn push_kaithi_scx_chunk_0(v: &mut Vec<ClassUnicodeRange>)
    ensures
        rview(final(v)@) == rview(old(v)@) + kaithi_scx_chunk_0(),
{
    let ghost o = rview(v@);
    push_range(v, '\u{966}', '\u{96F}');
    push_range(v, '\u{2E31}', '\u{2E31}');
    push_range(v, '\u{A830}', '\u{A839}');
    push_range(v, '\u{11080}', '\u{110C2}');
    push_range(v, '\u{110CD}', '\u{110CD}');
    assert(rview(v@) =~= o + kaithi_scx_chunk_0());
}

pub fn kaithi_scx_class() -> (v: Vec<ClassUnicodeRange>)
    ensures
        rview(v@) == kaithi_scx_ranges(),
{
    let mut v: Vec<ClassUnicodeRange> = Vec::new();
    assert(rview(v@) =~= Seq::<SRange>::empty());
    push_kaithi_scx_chunk_0(&mut v);
    assert(rview(v@) =~= kaithi_scx_chunk_0());
    v
}

pub open spec fn kannada_scx_chunk_0() -> Seq<SRange> {
    seq![(0x951int, 0x952int), (0x964int, 0x965int), (0xC80int, 0xC8Cint), (0xC8Eint, 0xC90int), (0xC92int, 0xCA8int), (0xCAAint, 0xCB3int), (0xCB5int, 0xCB9int), (0xCBCint, 0xCC4int)]
}

pub open spec fn kannada_scx_chunk_1() -> Seq<SRange> {
    seq![(0xCC6int, 0xCC8int), (0xCCAint, 0xCCDint), (0xCD5int, 0xCD6int), (0xCDDint, 0xCDEint), (0xCE0int, 0xCE3int), (0xCE6int, 0xCEFint), (0xCF1int, 0xCF3int), (0x1CD0int, 0x1CD0int)]
}

pub open spec fn kannada_scx_chunk_2() -> Seq<SRange> {
    seq![(0x1CD2int, 0x1CD3int), (0x1CDAint, 0x1CDAint), (0x1CF2int, 0x1CF2int), (0x1CF4int, 0x1CF4int), (0xA830int, 0xA835int)]
}

/// The ranges of the property Kannada.
pub open spec fn kannada_scx_ranges() -> Seq<SRange> {
    kannada_scx_chunk_0() + kannada_scx_chunk_1() + kannada_scx_chunk_2()
}

pub proof fn lemma_kannada_scx_canonical()
    ensures
        canonical(kannada_scx_ranges()),
{
    reveal_with_fuel(canonical, 9);
    assert(canonical(kannada_scx_chunk_0()));
    assert(canonical(kannada_scx_chunk_1()));
    assert(canonical(kannada_scx_chunk_2()));
    lemma_canonical_append(kannada_scx_chunk_0(), kannada_scx_chunk_1());
    lemma_canonical_append(kannada_scx_chunk_0() + kannada_scx_chunk_1(), kannada_scx_chunk_2());
}

fn push_kannada_scx_chunk_0(v: &mut Vec<ClassUnicodeRange>)
    ensures
        rview(final(v)@) == rview(old(v)@) + kannada_scx_chunk_0(),
{
    let ghost o = rview(v@);
    push_range(v, '\u{951}', '\u{952}');
    push_range(v, '\u{964}', '\u{965}');
    push_range(v, '\u{C80}', '\u{C8C}');
    push_range(v, '\u{C8E}', '\u{C90}');
    push_range(v, '\u{C92}', '\u{CA8}');
    push_range(v, '\u{CAA}', '\u{CB3}');
    push_range(v, '\u{CB5}', '\u{CB9}');
    push_range(v, '\u{CBC}', '\u{CC4}');
    assert(rview(v@) =~= o + kannada_scx_chunk_0());
}

fn push_kannada_scx_chunk_1(v: &mut Vec<ClassUnicodeRange>)
    ensures
        rview(final(v)@) == rview(old(v)@) + kannada_scx_chunk_1(),
{
    let ghost o = rview(v@);
    push_range(v, '\u{CC6}', '\u{CC8}');
    push_range(v, '\u{CCA}', '\u{CCD}');
    push_range(v, '\u{CD5}', '\u{CD6}');
    push_range(v, '\u{CDD}', '\u{CDE}');
    push_range(v, '\u{CE0}', '\u{CE3}');
    push_range(v, '\u{CE6}', '\u{CEF}');
    push_range(v, '\u{CF1}', '\u{CF3}');
    push_range(v, '\u{1CD0}', '\u{1CD0}');
    assert(rview(v@) =~= o + kannada_scx_chunk_1());
}

fn push_kannada_scx_chunk_2(v: &mut Vec<ClassUnicodeRange>)
    ensures
        rview(final(v)@) == rview(old(v)@) + kannada_scx_chunk_2(),
{
    let ghost o = rview(v@);
    push_range(v, '\u{1CD2}', '\u{1CD3}');
    push_range(v, '\u{1CDA}', '\u{1CDA}');
    push_range(v, '\u{1CF2}', '\u{1CF2}');
    push_range(v, '\u{1CF4}', '\u{1CF4}');
    push_range(v, '\u{A830}', '\u{A835}');
    assert(rview(v@) =~= o + kannada_scx_chunk_2());
}

pub fn kannada_scx_class() -> (v: Vec<ClassUnicodeRange>)
    ensures
        rview(v@) == kannada_scx_ranges(),
{
    let mut v: Vec<ClassUnicodeRange> = Vec::new();
    assert(rview(v@) =~= Seq::<SRange>::empty());
    push_kannada_scx_chunk_0(&mut v);
    assert(rview(v@) =~= kannada_scx_chunk_0());
    push_kannada_scx_chunk_1(&mut v);
    assert(rview(v@) =~= kannada_scx_chunk_0() + kannada_scx_chunk_1());
    push_kannada_scx_chunk_2(&mut v);
    assert(rview(v@) =~= kannada_scx_chunk_0() + kannada_scx_chunk_1() + kannada_scx_chunk_2());
    v
}

pub open spec fn katakana_scx_chunk_0() -> Seq<SRange> {
    seq![(0x305int, 0x305int), (0x323int, 0x323int), (0x3001int, 0x3003int), (0x3008int, 0x3011int), (0x3013int, 0x301Fint), (0x3030int, 0x3035int), (0x3037int, 0x3037int), (0x303Cint, 0x303Dint)]
}

pub open spec fn katakana_scx_chunk_1() -> Seq<SRange> {
    seq![(0x3099int, 0x309Cint), (0x30A0int, 0x30FFint), (0x31F0int, 0x31FFint), (0x32D0int, 0x32FEint), (0x3300int, 0x3357int), (0xFE45int, 0xFE46int), (0xFF61int, 0xFF9Fint), (0x1AFF0int, 0x1AFF3int)]
}

pub open spec fn katakana_scx_chunk_2() -> Seq<SRange> {
    seq![(0x1AFF5int, 0x1AFFBint), (0x1AFFDint, 0x1AFFEint), (0x1B000int, 0x1B000int), (0x1B120int, 0x1B122int), (0x1B155int, 0x1B155int), (0x1B164int, 0x1B167int)]
}

/// The ranges of the property Katakana.
pub open spec fn katakana_scx_ranges() -> Seq<SRange> {
    katakana_scx_chunk_0() + katakana_scx_chunk_1() + katakana_scx_chunk_2()
}

pub proof fn lemma_katakana_scx_canonical()
    ensures
        canonical(katakana_scx_ranges()),
{
    reveal_with_fuel(canonical, 9);
    assert(canonical(katakana_scx_chunk_0()));
    assert(canonical(katakana_scx_chunk_1()));
    assert(canonical(katakana_scx_chunk_2()));
    lemma_canonical_append(katakana_scx_chunk_0(), katakana_scx_chunk_1());
    lemma_canonical_append(katakana_scx_chunk_0() + katakana_scx_chunk_1(), katakana_scx_chunk_2());
}

fn push_katakana_scx_chunk_0(v: &mut Vec<ClassUnicodeRange>)
    ensures
        rview(final(v)@) == rview(old(v)@) + katakana_scx_chunk_0(),
{
    let ghost o = rview(v@);
    push_range(v, '\u{305}', '\u{305}');
    push_range(v, '\u{323}', '\u{323}');
    push_range(v, '\u{3001}', '\u{3003}');
    push_range(v, '\u{3008}', '\u{3011}');
    push_range(v, '\u{3013}', '\u{301F}');
    push_range(v, '\u{3030}', '\u{3035}');
    push_range(v, '\u{3037}', '\u{3037}');
    push_range(v, '\u{303C}', '\u{303D}');
    assert(rview(v@) =~= o + katakana_scx_chunk_0());
}

fn push_katakana_scx_chunk_1(v: &mut Vec<ClassUnicodeRange>)
    ensures
        rview(final(v)@) == rview(old(v)@) + katakana_scx_chunk_1(),
{
    let ghost o = rview(v@);
    push_range(v, '\u{3099}', '\u{309C}');
    push_range(v, '\u{30A0}', '\u{30FF}');
    push_range(v, '\u{31F0}', '\u{31FF}');
    push_range(v, '\u{32D0}', '\u{32FE}');
    push_range(v, '\u{3300}', '\u{3357}');
    push_range(v, '\u{FE45}', '\u{FE46}');
    push_range(v, '\u{FF61}', '\u{FF9F}');
    push_range(v, '\u{1AFF0}', '\u{1AFF3}');
    assert(rview(v@) =~= o + katakana_scx_chunk_1());
}

fn push_katakana_scx_chunk_2(v: &mut Vec<ClassUnicodeRange>)
    ensures
        rview(final(v)@) == rview(old(v)@) + katakana_scx_chunk_2(),
{
    let ghost o = rview(v@);
    push_range(v, '\u{1AFF5}', '\u{1AFFB}');
    push_range(v, '\u{1AFFD}', '\u{1AFFE}');
    push_range(v, '\u{1B000}', '\u{1B000}');
    push_range(v, '\u{1B120}', '\u{1B122}');
    push_range(v, '\u{1B155}', '\u{1B155}');
    push_range(v, '\u{1B164}', '\u{1B167}');
    assert(rview(v@) =~= o + katakana_scx_chunk_2());
}

pub fn katakana_scx_class() -> (v: Vec<ClassUnicodeRange>)
    ensures
        rview(v@) == katakana_scx_ranges(),
{
    let mut v: Vec<ClassUnicodeRange> = Vec::new();
    assert(rview(v@) =~= Seq::<SRange>::empty());
    push_katakana_scx_chunk_0(&mut v);
    assert(rview(v@) =~= katakana_scx_chunk_0());
    push_katakana_scx_chunk_1(&mut v);
    assert(rview(v@) =~= katakana_scx_chunk_0() + katakana_scx_chunk_1());
    push_katakana_scx_chunk_2(&mut v);
    assert(rview(v@) =~= katakana_scx_chunk_0() + katakana_scx_chunk_1() + katakana_scx_chunk_2());
    v
}

pub open spec fn kawi_scx_chunk_0() -> Seq<SRange> {
    seq![(0x11F00int, 0x11F10int), (0x11F12int, 0x11F3Aint), (0x11F3Eint, 0x11F5Aint)]
}

/// The ranges of the property Kawi.
pub open spec fn kawi_scx_ranges() -> Seq<SRange> {
    kawi_scx_chunk_0()
}

pub proof fn lemma_kawi_scx_canonical()
    ensures
        canonical(kawi_scx_ranges()),
{
    reveal_with_fuel(canonical, 9);
    assert(canonical(kawi_scx_chunk_0()));
}

fn push_kawi_scx_chunk_0(v: &mut Vec<ClassUnicodeRange>)
    ensures
        rview(final(v)@) == rview(old(v)@) + kawi_scx_chunk_0(),
{
    let ghost o = rview(v@);
    push_range(v, '\u{11F00}', '\u{11F10}');
    push_range(v, '\u{11F12}', '\u{11F3A}');
    push_range(v, '\u{11F3E}', '\u{11F5A}');
    assert(rview(v@) =~= o + kawi_scx_chunk_0());
}

pub fn kawi_scx_class() -> (v: Vec<ClassUnicodeRange>)
    ensures
        rview(v@) == kawi_scx_ranges(),
{
    let mut v: Vec<ClassUnicodeRange> = Vec::new();
    assert(rview(v@) =~= Seq::<SRange>::empty());
    push_kawi_scx_chunk_0(&mut v);
    assert(rview(v@) =~= kawi_scx_chunk_0());
    v
}

pub open spec fn kayah_li_scx_chunk_0() -> Seq<SRange> {
    seq![(0xA900int, 0xA92Fint)]
}

/// The ranges of the property Kayah_Li.
pub open spec fn kayah_li_scx_ranges() -> Seq<SRange> {
    kayah_li_scx_chunk_0()
}

pub proof fn lemma_kayah_li_scx_canonical()
    ensures
        canonical(kayah_li_scx_ranges()),
{
    reveal_with_fuel(canonical, 9);
    assert(canonical(kayah_li_scx_chunk_0()));
}

fn push_kayah_li_scx_chunk_0(v: &mut Vec<ClassUnicodeRange>)
    ensures
        rview(final(v)@) == rview(old(v)@) + kayah_li_scx_chunk_0(),
{
    let ghost o = rview(v@);
    push_range(v, '\u{A900}', '\u{A92F}');
    assert(rview(v@) =~= o + kayah_li_scx_chunk_0());
}

pub fn kayah_li_scx_class() -> (v: Vec<ClassUnicodeRange>)
    ensures
        rview(v@) == kayah_li_scx_ranges(),
{
    let mut v: Vec<ClassUnicodeRange> = Vec::new();
    assert(rview(v@) =~= Seq::<SRange>::empty());
    push_kayah_li_scx_chunk_0(&mut v);
    assert(rview(v@) =~= kayah_li_scx_chunk_0());
    v
}

pub open spec fn kharoshthi_scx_chunk_0() -> Seq<SRange> {
    seq![(0x10A00int, 0x10A03int), (0x10A05int, 0x10A06int), (0x10A0Cint, 0x10A13int), (0x10A15int, 0x10A17int), (0x10A19int, 0x10A35int), (0x10A38int, 0x10A3Aint), (0x10A3Fint, 0x10A48int), (0x10A50int, 0x10A58int)]
}

/// The ranges of the property Kharoshthi.
pub open spec fn kharoshthi_scx_ranges() -> Seq<SRange> {
    kharoshthi_scx_chunk_0()
}

pub proof fn lemma_kharoshthi_scx_canonical()
    ensures
        canonical(kharoshthi_scx_ranges()),
{
    reveal_with_fuel(canonical, 9);
    assert(canonical(kharoshthi_scx_chunk_0()));
}

fn push_kharoshthi_scx_chunk_0(v: &mut Vec<ClassUnicodeRange>)
    ensures
        rview(final(v)@) == rview(old(v)@) + kharoshthi_scx_chunk_0(),
{
    let ghost o = rview(v@);
    push_range(v, '\u{10A00}', '\u{10A03}');
    push_range(v, '\u{10A05}', '\u{10A06}');
    push_range(v, '\u{10A0C}', '\u{10A13}');
    push_range(v, '\u{10A15}', '\u{10A17}');
    push_range(v, '\u{10A19}', '\u{10A35}');
    push_range(v, '\u{10A38}', '\u{10A3A}');
    push_range(v, '\u{10A3F}', '\u{10A48}');
    push_range(v, '\u{10A50}', '\u{10A58}');
    assert(rview(v@) =~= o + kharoshthi_scx_chunk_0());
}

pub fn kharoshthi_scx_class() -> (v: Vec<ClassUnicodeRange>)
    ensures
        rview(v@) == kharoshthi_scx_ranges(),
{
    let mut v: Vec<ClassUnicodeRange> = Vec::new();
    assert(rview(v@) =~= Seq::<SRange>::empty());
    push_kharoshthi_scx_chunk_0(&mut v);
    assert(rview(v@) =~= kharoshthi_scx_chunk_0());
    v
}

pub open spec fn khitan_small_script_scx_chunk_0() -> Seq<SRange> {
    seq![(0x16FE4int, 0x16FE4int), (0x18B00int, 0x18CD5int), (0x18CFFint, 0x18CFFint)]
}

/// The ranges of the property Khitan_Small_Script.
pub open spec fn khitan_small_script_scx_ranges() -> Seq<SRange> {
    khitan_small_script_scx_chunk_0()
}

pub proof fn lemma_khitan_small_script_scx_canonical()
    ensures
        canonical(khitan_small_script_scx_ranges()),
{
    reveal_with_fuel(canonical, 9);
    assert(canonical(khitan_small_script_scx_chunk_0()));
}

fn push_khitan_small_script_scx_chunk_0(v: &mut Vec<ClassUnicodeRange>)
    ensures
        rview(final(v)@) == rview(old(v)@) + khitan_small_script_scx_chunk_0(),
{
    let ghost o = rview(v@);
    push_range(v, '\u{16FE4}', '\u{16FE4}');
    push_range(v, '\u{18B00}', '\u{18CD5}');
    push_range(v, '\u{18CFF}', '\u{18CFF}');
    assert(rview(v@) =~= o + khitan_small_script_scx_chunk_0());
}

pub fn khitan_small_script_scx_class() -> (v: Vec<ClassUnicodeRange>)
    ensures
        rview(v@) == khitan_small_script_scx_ranges(),
{
    let mut v: Vec<ClassUnicodeRange> = Vec::new();
    assert(rview(v@) =~= Seq::<SRange>::empty());
    push_khitan_small_script_scx_chunk_0(&mut v);
    assert(rview(v@) =~= khitan_small_script_scx_chunk_0());
    v
}

pub open spec fn khmer_scx_chunk_0() -> Seq<SRange> {
    seq![(0x1780int, 0x17DDint), (0x17E0int, 0x17E9int), (0x17F0int, 0x17F9int), (0x19E0int, 0x19FFint)]
}

/// The ranges of the property Khmer.
pub open spec fn khmer_scx_ranges() -> Seq<SRange> {
    khmer_scx_chunk_0()
}

pub proof fn lemma_khmer_scx_canonical()
    ensures
        canonical(khmer_scx_ranges()),
{
    reveal_with_fuel(canonical, 9);
    assert(canonical(khmer_scx_chunk_0()));
}

fn push_khmer_scx_chunk_0(v: &mut Vec<ClassUnicodeRange>)
    ensures
        rview(final(v)@) == rview(old(v)@) + khmer_scx_chunk_0(),
{
    let ghost o = rview(v@);
    push_range(v, '\u{1780}', '\u{17DD}');
    push_range(v, '\u{17E0}', '\u{17E9}');
    push_range(v, '\u{17F0}', '\u{17F9}');
    push_range(v, '\u{19E0}', '\u{19FF}');
    assert(rview(v@) =~= o + khmer_scx_chunk_0());
}

pub fn khmer_scx_class() -> (v: Vec<ClassUnicodeRange>)
    ensures
        rview(v@) == khmer_scx_ranges(),
{
    let mut v: Vec<ClassUnicodeRange> = Vec::new();
    assert(rview(v@) =~= Seq::<SRange>::empty());
    push_khmer_scx_chunk_0(&mut v);
    assert(rview(v@) =~= khmer_scx_chunk_0());
    v
}

pub open spec fn khojki_scx_chunk_0() -> Seq<SRange> {
    seq![(0xAE6int, 0xAEFint), (0xA830int, 0xA839int), (0x11200int, 0x11211int), (0x11213int, 0x11241int)]
}

/// The ranges of the property Khojki.
pub open spec fn khojki_scx_ranges() -> Seq<SRange> {
    khojki_scx_chunk_0()
}

pub proof fn lemma_khojki_scx_canonical()
    ensures
        canonical(khojki_scx_ranges()),
{
    reveal_with_fuel(canonical, 9);
    assert(canonical(khojki_scx_chunk_0()));
}

fn push_khojki_scx_chunk_0(v: &mut Vec<ClassUnicodeRange>)
    ensures
        rview(final(v)@) == rview(old(v)@) + khojki_scx_chunk_0(),
{
    let ghost o = rview(v@);
    push_range(v, '\u{AE6}', '\u{AEF}');
    push_range(v, '\u{A830}', '\u{A839}');
    push_range(v, '\u{11200}', '\u{11211}');
    push_range(v, '\u{11213}', '\u{11241}');
    assert(rview(v@) =~= o + khojki_scx_chunk_0());
}

pub fn khojki_scx_class() -> (v: Vec<ClassUnicodeRange>)
    ensures
        rview(v@) == khojki_scx_ranges(),
{
    let mut v: Vec<ClassUnicodeRange> = Vec::new();
    assert(rview(v@) =~= Seq::<SRange>::empty());
    push_khojki_scx_chunk_0(&mut v);
    assert(rview(v@) =~= khojki_scx_chunk_0());
    v
}

pub open spec fn khudawadi_scx_chunk_0() -> Seq<SRange> {
    seq![(0x964int, 0x965int), (0xA830int, 0xA839int), (0x112B0int, 0x112EAint), (0x112F0int, 0x112F9int)]
}

/// The ranges of the property Khudawadi.
pub open spec fn khudawadi_scx_ranges() -> Seq<SRange> {
    khudawadi_scx_chunk_0()
}

pub proof fn lemma_khudawadi_scx_canonical()
    ensures
        canonical(khudawadi_scx_ranges()),
{
    reveal_with_fuel(canonical, 9);
    assert(canonical(khudawadi_scx_chunk_0()));
}

fn push_khudawadi_scx_chunk_0(v: &mut Vec<ClassUnicodeRange>)
    ensures
        rview(final(v)@) == rview(old(v)@) + khudawadi_scx_chunk_0(),
{
    let ghost o = rview(v@);
    push_range(v, '\u{964}', '\u{965}');
    push_range(v, '\u{A830}', '\u{A839}');
    push_range(v, '\u{112B0}', '\u{112EA}');
    push_range(v, '\u{112F0}', '\u{112F9}');
    assert(rview(v@) =~= o + khudawadi_scx_chunk_0());
}

pub fn khudawadi_scx_class() -> (v: Vec<ClassUnicodeRange>)
    ensures
        rview(v@) == khudawadi_scx_ranges(),
{
    let mut v: Vec<ClassUnicodeRange> = Vec::new();
    assert(rview(v@) =~= Seq::<SRange>::empty());
    push_khudawadi_scx_chunk_0(&mut v);
    assert(rview(v@) =~= khudawadi_scx_chunk_0());
    v
}

pub open spec fn kirat_rai_scx_chunk_0() -> Seq<SRange> {
    seq![(0x16D40int, 0x16D79int)]
}

/// The ranges of the property Kirat_Rai.
pub open spec fn kirat_rai_scx_ranges() -> Seq<SRange> {
    kirat_rai_scx_chunk_0()
}

pub proof fn lemma_kirat_rai_scx_canonical()
    ensures
        canonical(kirat_rai_scx_ranges()),
{
    reveal_with_fuel(canonical, 9);
    assert(canonical(kirat_rai_scx_chunk_0()));
}

fn push_kirat_rai_scx_chunk_0(v: &mut Vec<ClassUnicodeRange>)
    ensures
        rview(final(v)@) == rview(old(v)@) + kirat_rai_scx_chunk_0(),
{
    let ghost o = rview(v@);
    push_range(v, '\u{16D40}', '\u{16D79}');
    assert(rview(v@) =~= o + kirat_rai_scx_chunk_0());
}

pub fn kirat_rai_scx_class() -> (v: Vec<ClassUnicodeRange>)
    ensures
        rview(v@) == kirat_rai_scx_ranges(),
{
    let mut v: Vec<ClassUnicodeRange> = Vec::new();
    assert(rview(v@) =~= Seq::<SRange>::empty());
    push_kirat_rai_scx_chunk_0(&mut v);
    assert(rview(v@) =~= kirat_rai_scx_chunk_0());
    v
}

pub open spec fn lao_scx_chunk_0() -> Seq<SRange> {
    seq![(0xE81int, 0xE82int), (0xE84int, 0xE84int), (0xE86int, 0xE8Aint), (0xE8Cint, 0xEA3int), (0xEA5int, 0xEA5int), (0xEA7int, 0xEBDint), (0xEC0int, 0xEC4int), (0xEC6int, 0xEC6int)]
}

pub open spec fn lao_scx_chunk_1() -> Seq<SRange> {
    seq![(0xEC8int, 0xECEint), (0xED0int, 0xED9int), (0xEDCint, 0xEDFint)]
}

/// The ranges of the property Lao.
pub open spec fn lao_scx_ranges() -> Seq<SRange> {
    lao_scx_chunk_0() + lao_scx_chunk_1()
}

pub proof fn lemma_lao_scx_canonical()
    ensures
        canonical(lao_scx_ranges()),
{
    reveal_with_fuel(canonical, 9);
    assert(canonical(lao_scx_chunk_0()));
    assert(canonical(lao_scx_chunk_1()));
    lemma_canonical_append(lao_scx_chunk_0(), lao_scx_chunk_1());
}

fn push_lao_scx_chunk_0(v: &mut Vec<ClassUnicodeRange>)
    ensures
        rview(final(v)@) == rview(old(v)@) + lao_scx_chunk_0(),
{
    let ghost o = rview(v@);
    push_range(v, '\u{E81}', '\u{E82}');
    push_range(v, '\u{E84}', '\u{E84}');
    push_range(v, '\u{E86}', '\u{E8A}');
    push_range(v, '\u{E8C}', '\u{EA3}');
    push_range(v, '\u{EA5}', '\u{EA5}');
    push_range(v, '\u{EA7}', '\u{EBD}');
    push_range(v, '\u{EC0}', '\u{EC4}');
    push_range(v, '\u{EC6}', '\u{EC6}');
    assert(rview(v@) =~= o + lao_scx_chunk_0());
}

fn push_lao_scx_chunk_1(v: &mut Vec<ClassUnicodeRange>)
    ensures
        rview(final(v)@) == rview(old(v)@) + lao_scx_chunk_1(),
{
    let ghost o = rview(v@);
    push_range(v, '\u{EC8}', '\u{ECE}');
    push_range(v, '\u{ED0}', '\u{ED9}');
    push_range(v, '\u{EDC}', '\u{EDF}');
    assert(rview(v@) =~= o + lao_scx_chunk_1());
}

pub fn lao_scx_class() -> (v: Vec<ClassUnicodeRange>)
    ensures
        rview(v@) == lao_scx_ranges(),
{
    let mut v: Vec<ClassUnicodeRange> = Vec::new();
    assert(rview(v@) =~= Seq::<SRange>::empty());
    push_lao_scx_chunk_0(&mut v);
    assert(rview(v@) =~= lao_scx_chunk_0());
    push_lao_scx_chunk_1(&mut v);
    assert(rview(v@) =~= lao_scx_chunk_0() + lao_scx_chunk_1());
    v
}

pub open spec fn latin_scx_chunk_0() -> Seq<SRange> {
    seq![(0x41int, 0x5Aint), (0x61int, 0x7Aint), (0xAAint, 0xAAint), (0xB7int, 0xB7int), (0xBAint, 0xBAint), (0xC0int, 0xD6int), (0xD8int, 0xF6int), (0xF8int, 0x2B8int)]
}

pub open spec fn latin_scx_chunk_1() -> Seq<SRange> {
    seq![(0x2BCint, 0x2BCint), (0x2C7int, 0x2C7int), (0x2C9int, 0x2CBint), (0x2CDint, 0x2CDint), (0x2D7int, 0x2D7int), (0x2D9int, 0x2D9int), (0x2E0int, 0x2E4int), (0x300int, 0x30Eint)]
}

pub open spec fn latin_scx_chunk_2() -> Seq<SRange> {
    seq![(0x310int, 0x311int), (0x313int, 0x313int), (0x320int, 0x320int), (0x323int, 0x325int), (0x32Dint, 0x32Eint), (0x330int, 0x331int), (0x358int, 0x358int), (0x35Eint, 0x35Eint)]
}

pub open spec fn latin_scx_chunk_3() -> Seq<SRange> {
    seq![(0x363int, 0x36Fint), (0x485int, 0x486int), (0x951int, 0x952int), (0x10FBint, 0x10FBint), (0x1D00int, 0x1D25int), (0x1D2Cint, 0x1D5Cint), (0x1D62int, 0x1D65int), (0x1D6Bint, 0x1D77int)]
}

pub open spec fn latin_scx_chunk_4() -> Seq<SRange> {
    seq![(0x1D79int, 0x1DBEint), (0x1DF8int, 0x1DF8int), (0x1E00int, 0x1EFFint), (0x202Fint, 0x202Fint), (0x2071int, 0x2071int), (0x207Fint, 0x207Fint), (0x2090int, 0x209Cint), (0x20F0int, 0x20F0int)]
}

pub open spec fn latin_scx_chunk_5() -> Seq<SRange> {
    seq![(0x212Aint, 0x212Bint), (0x2132int, 0x2132int), (0x214Eint, 0x214Eint), (0x2160int, 0x2188int), (0x2C60int, 0x2C7Fint), (0x2E17int, 0x2E17int), (0xA700int, 0xA707int), (0xA722int, 0xA787int)]
}

pub open spec fn latin_scx_chunk_6() -> Seq<SRange> {
    seq![(0xA78Bint, 0xA7CDint), (0xA7D0int, 0xA7D1int), (0xA7D3int, 0xA7D3int), (0xA7D5int, 0xA7DCint), (0xA7F2int, 0xA7FFint), (0xA92Eint, 0xA92Eint), (0xAB30int, 0xAB5Aint), (0xAB5Cint, 0xAB64int)]
}

pub open spec fn latin_scx_chunk_7() -> Seq<SRange> {
    seq![(0xAB66int, 0xAB69int), (0xFB00int, 0xFB06int), (0xFF21int, 0xFF3Aint), (0xFF41int, 0xFF5Aint), (0x10780int, 0x10785int), (0x10787int, 0x107B0int), (0x107B2int, 0x107BAint), (0x1DF00int, 0x1DF1Eint)]
}

pub open spec fn latin_scx_chunk_8() -> Seq<SRange> {
    seq![(0x1DF25int, 0x1DF2Aint)]
}

/// The ranges of the property Latin.
pub open spec fn latin_scx_ranges() -> Seq<SRange> {
    latin_scx_chunk_0() + latin_scx_chunk_1() + latin_scx_chunk_2() + latin_scx_chunk_3() + latin_scx_chunk_4() + latin_scx_chunk_5() + latin_scx_chunk_6() + latin_scx_chunk_7() + latin_scx_chunk_8()
}

pub proof fn lemma_latin_scx_canonical()
    ensures
        canonical(latin_scx_ranges()),
{
    reveal_with_fuel(canonical, 9);
    assert(canonical(latin_scx_chunk_0()));
    assert(canonical(latin_scx_chunk_1()));
    assert(canonical(latin_scx_chunk_2()));
    assert(canonical(latin_scx_chunk_3()));
    assert(canonical(latin_scx_chunk_4()));
    assert(canonical(latin_scx_chunk_5()));
    assert(canonical(latin_scx_chunk_6()));
    assert(canonical(latin_scx_chunk_7()));
    assert(canonical(latin_scx_chunk_8()));
    lemma_canonical_append(latin_scx_chunk_0(), latin_scx_chunk_1());
    lemma_canonical_append(latin_scx_chunk_0() + latin_scx_chunk_1(), latin_scx_chunk_2());
    lemma_canonical_append(latin_scx_chunk_0() + latin_scx_chunk_1() + latin_scx_chunk_2(), latin_scx_chunk_3());
    lemma_canonical_append(latin_scx_chunk_0() + latin_scx_chunk_1() + latin_scx_chunk_2() + latin_scx_chunk_3(), latin_scx_chunk_4());
    lemma_canonical_append(latin_scx_chunk_0() + latin_scx_chunk_1() + latin_scx_chunk_2() + latin_scx_chunk_3() + latin_scx_chunk_4(), latin_scx_chunk_5());
    lemma_canonical_append(latin_scx_chunk_0() + latin_scx_chunk_1() + latin_scx_chunk_2() + latin_scx_chunk_3() + latin_scx_chunk_4() + latin_scx_chunk_5(), latin_scx_chunk_6());
    lemma_canonical_append(latin_scx_chunk_0() + latin_scx_chunk_1() + latin_scx_chunk_2() + latin_scx_chunk_3() + latin_scx_chunk_4() + latin_scx_chunk_5() + latin_scx_chunk_6(), latin_scx_chunk_7());
    lemma_canonical_append(latin_scx_chunk_0() + latin_scx_chunk_1() + latin_scx_chunk_2() + latin_scx_chunk_3() + latin_scx_chunk_4() + latin_scx_chunk_5() + latin_scx_chunk_6() + latin_scx_chunk_7(), latin_scx_chunk_8());
}

fn push_latin_scx_chunk_0(v: &mut Vec<ClassUnicodeRange>)
    ensures
        rview(final(v)@) == rview(old(v)@) + latin_scx_chunk_0(),
{
    let ghost o = rview(v@);
    push_range(v, '\u{41}', '\u{5A}');
    push_range(v, '\u{61}', '\u{7A}');
    push_range(v, '\u{AA}', '\u{AA}');
    push_range(v, '\u{B7}', '\u{B7}');
    push_range(v, '\u{BA}', '\u{BA}');
    push_range(v, '\u{C0}', '\u{D6}');
    push_range(v, '\u{D8}', '\u{F6}');
    push_range(v, '\u{F8}', '\u{2B8}');
    assert(rview(v@) =~= o + latin_scx_chunk_0());
}

fn push_latin_scx_chunk_1(v: &mut Vec<ClassUnicodeRange>)
    ensures
        rview(final(v)@) == rview(old(v)@) + latin_scx_chunk_1(),
{
    let ghost o = rview(v@);
    push_range(v, '\u{2BC}', '\u{2BC}');
    push_range(v, '\u{2C7}', '\u{2C7}');
    push_range(v, '\u{2C9}', '\u{2CB}');
    push_range(v, '\u{2CD}', '\u{2CD}');
    push_range(v, '\u{2D7}', '\u{2D7}');
    push_range(v, '\u{2D9}', '\u{2D9}');
    push_range(v, '\u{2E0}', '\u{2E4}');
    push_range(v, '\u{300}', '\u{30E}');
    assert(rview(v@) =~= o + latin_scx_chunk_1());
}

fn push_latin_scx_chunk_2(v: &mut Vec<ClassUnicodeRange>)
    ensures
        rview(final(v)@) == rview(old(v)@) + latin_scx_chunk_2(),
{
    let ghost o = rview(v@);
    push_range(v, '\u{310}', '\u{311}');
    push_range(v, '\u{313}', '\u{313}');
    push_range(v, '\u{320}', '\u{320}');
    push_range(v, '\u{323}', '\u{325}');
    push_range(v, '\u{32D}', '\u{32E}');
    push_range(v, '\u{330}', '\u{331}');
    push_range(v, '\u{358}', '\u{358}');
    push_range(v, '\u{35E}', '\u{35E}');
    assert(rview(v@) =~= o + latin_scx_chunk_2());
}

fn push_latin_scx_chunk_3(v: &mut Vec<ClassUnicodeRange>)
    ensures
        rview(final(v)@) == rview(old(v)@) + latin_scx_chunk_3(),
{
    let ghost o = rview(v@);
    push_range(v, '\u{363}', '\u{36F}');
    push_range(v, '\u{485}', '\u{486}');
    push_range(v, '\u{951}', '\u{952}');
    push_range(v, '\u{10FB}', '\u{10FB}');
    push_range(v, '\u{1D00}', '\u{1D25}');
    push_range(v, '\u{1D2C}', '\u{1D5C}');
    push_range(v, '\u{1D62}', '\u{1D65}');
    push_range(v, '\u{1D6B}', '\u{1D77}');
    assert(rview(v@) =~= o + latin_scx_chunk_3());
}

fn push_latin_scx_chunk_4(v: &mut Vec<ClassUnicodeRange>)
    ensures
        rview(final(v)@) == rview(old(v)@) + latin_scx_chunk_4(),
{
    let ghost o = rview(v@);
    push_range(v, '\u{1D79}', '\u{1DBE}');
    push_range(v, '\u{1DF8}', '\u{1DF8}');
    push_range(v, '\u{1E00}', '\u{1EFF}');
    push_range(v, '\u{202F}', '\u{202F}');
    push_range(v, '\u{2071}', '\u{2071}');
    push_range(v, '\u{207F}', '\u{207F}');
    push_range(v, '\u{2090}', '\u{209C}');
    push_range(v, '\u{20F0}', '\u{20F0}');
    assert(rview(v@) =~= o + latin_scx_chunk_4());
}

fn push_latin_scx_chunk_5(v: &mut Vec<ClassUnicodeRange>)
    ensures
        rview(final(v)@) == rview(old(v)@) + latin_scx_chunk_5(),
{
    let ghost o = rview(v@);
    push_range(v, '\u{212A}', '\u{212B}');
    push_range(v, '\u{2132}', '\u{2132}');
    push_range(v, '\u{214E}', '\u{214E}');
    push_range(v, '\u{2160}', '\u{2188}');
    push_range(v, '\u{2C60}', '\u{2C7F}');
    push_range(v, '\u{2E17}', '\u{2E17}');
    push_range(v, '\u{A700}', '\u{A707}');
    push_range(v, '\u{A722}', '\u{A787}');
    assert(rview(v@) =~= o + latin_scx_chunk_5());
}

fn push_latin_scx_chunk_6(v: &mut Vec<ClassUnicodeRange>)
    ensures
        rview(final(v)@) == rview(old(v)@) + latin_scx_chunk_6(),
{
    let ghost o = rview(v@);
    push_range(v, '\u{A78B}', '\u{A7CD}');
    push_range(v, '\u{A7D0}', '\u{A7D1}');
    push_range(v, '\u{A7D3}', '\u{A7D3}');
    push_range(v, '\u{A7D5}', '\u{A7DC}');
    push_range(v, '\u{A7F2}', '\u{A7FF}');
    push_range(v, '\u{A92E}', '\u{A92E}');
    push_range(v, '\u{AB30}', '\u{AB5A}');
    push_range(v, '\u{AB5C}', '\u{AB64}');
    assert(rview(v@) =~= o + latin_scx_chunk_6());
}

fn push_latin_scx_chunk_7(v: &mut Vec<ClassUnicodeRange>)
    ensures
        rview(final(v)@) == rview(old(v)@) + latin_scx_chunk_7(),
{
    let ghost o = rview(v@);
    push_range(v, '\u{AB66}', '\u{AB69}');
    push_range(v, '\u{FB00}', '\u{FB06}');
    push_range(v, '\u{FF21}', '\u{FF3A}');
    push_range(v, '\u{FF41}', '\u{FF5A}');
    push_range(v, '\u{10780}', '\u{10785}');
    push_range(v, '\u{10787}', '\u{107B0}');
    push_range(v, '\u{107B2}', '\u{107BA}');
    push_range(v, '\u{1DF00}', '\u{1DF1E}');
    assert(rview(v@) =~= o + latin_scx_chunk_7());
}

fn push_latin_scx_chunk_8(v: &mut Vec<ClassUnicodeRange>)
    ensures
        rview(final(v)@) == rview(old(v)@) + latin_scx_chunk_8(),
{
    let ghost o = rview(v@);
    push_range(v, '\u{1DF25}', '\u{1DF2A}');
    assert(rview(v@) =~= o + latin_scx_chunk_8());
}

pub fn latin_scx_class() -> (v: Vec<ClassUnicodeRange>)
    ensures
        rview(v@) == latin_scx_ranges(),
{
    let mut v: Vec<ClassUnicodeRange> = Vec::new();
    assert(rview(v@) =~= Seq::<SRange>::empty());
    push_latin_scx_chunk_0(&mut v);
    assert(rview(v@) =~= latin_scx_chunk_0());
    push_latin_scx_chunk_1(&mut v);
    assert(rview(v@) =~= latin_scx_chunk_0() + latin_scx_chunk_1());
    push_latin_scx_chunk_2(&mut v);
    assert(rview(v@) =~= latin_scx_chunk_0() + latin_scx_chunk_1() + latin_scx_chunk_2());
    push_latin_scx_chunk_3(&mut v);
    assert(rview(v@) =~= latin_scx_chunk_0() + latin_scx_chunk_1() + latin_scx_chunk_2() + latin_scx_chunk_3());
    push_latin_scx_chunk_4(&mut v);
    assert(rview(v@) =~= latin_scx_chunk_0() + latin_scx_chunk_1() + latin_scx_chunk_2() + latin_scx_chunk_3() + latin_scx_chunk_4());
    push_latin_scx_chunk_5(&mut v);
    assert(rview(v@) =~= latin_scx_chunk_0() + latin_scx_chunk_1() + latin_scx_chunk_2() + latin_scx_chunk_3() + latin_scx_chunk_4() + latin_scx_chunk_5());
    push_latin_scx_chunk_6(&mut v);
    assert(rview(v@) =~= latin_scx_chunk_0() + latin_scx_chunk_1() + latin_scx_chunk_2() + latin_scx_chunk_3() + latin_scx_chunk_4() + latin_scx_chunk_5() + latin_scx_chunk_6());
    push_latin_scx_chunk_7(&mut v);
    assert(rview(v@) =~= latin_scx_chunk_0() + latin_scx_chunk_1() + latin_scx_chunk_2() + latin_scx_chunk_3() + latin_scx_chunk_4() + latin_scx_chunk_5() + latin_scx_chunk_6() + latin_scx_chunk_7());
    push_latin_scx_chunk_8(&mut v);
    assert(rview(v@) =~= latin_scx_chunk_0() + latin_scx_chunk_1() + latin_scx_chunk_2() + latin_scx_chunk_3() + latin_scx_chunk_4() + latin_scx_chunk_5() + latin_scx_chunk_6() + latin_scx_chunk_7() + latin_scx_chunk_8());
    v
}

pub open spec fn lepcha_scx_chunk_0() -> Seq<SRange> {
    seq![(0x1C00int, 0x1C37int), (0x1C3Bint, 0x1C49int), (0x1C4Dint, 0x1C4Fint)]
}

/// The ranges of the property Lepcha.
pub open spec fn lepcha_scx_ranges() -> Seq<SRange> {
    lepcha_scx_chunk_0()
}

pub proof fn lemma_lepcha_scx_canonical()
    ensures
        canonical(lepcha_scx_ranges()),
{
    reveal_with_fuel(canonical, 9);
    assert(canonical(lepcha_scx_chunk_0()));
}

fn push_lepcha_scx_chunk_0(v: &mut Vec<ClassUnicodeRange>)
    ensures
        rview(final(v)@) == rview(old(v)@) + lepcha_scx_chunk_0(),
{
    let ghost o = rview(v@);
    push_range(v, '\u{1C00}', '\u{1C37}');
    push_range(v, '\u{1C3B}', '\u{1C49}');
    push_range(v, '\u{1C4D}', '\u{1C4F}');
    assert(rview(v@) =~= o + lepcha_scx_chunk_0());
}

pub fn lepcha_scx_class() -> (v: Vec<ClassUnicodeRange>)
    ensures
        rview(v@) == lepcha_scx_ranges(),
{
    let mut v: Vec<ClassUnicodeRange> = Vec::new();
    assert(rview(v@) =~= Seq::<SRange>::empty());
    push_lepcha_scx_chunk_0(&mut v);
    assert(rview(v@) =~= lepcha_scx_chunk_0());
    v
}

pub open spec fn limbu_scx_chunk_0() -> Seq<SRange> {
    seq![(0x965int, 0x965int), (0x1900int, 0x191Eint), (0x1920int, 0x192Bint), (0x1930int, 0x193Bint), (0x1940int, 0x1940int), (0x1944int, 0x194Fint)]
}

/// The ranges of the property Limbu.
pub open spec fn limbu_scx_ranges() -> Seq<SRange> {
    limbu_scx_chunk_0()
}

pub proof fn lemma_limbu_scx_canonical()
    ensures
        canonical(limbu_scx_ranges()),
{
    reveal_with_fuel(canonical, 9);
    assert(canonical(limbu_scx_chunk_0()));
}

fn push_limbu_scx_chunk_0(v: &mut Vec<ClassUnicodeRange>)
    ensures
        rview(final(v)@) == rview(old(v)@) + limbu_scx_chunk_0(),
{
    let ghost o = rview(v@);
    push_range(v, '\u{965}', '\u{965}');
    push_range(v, '\u{1900}', '\u{191E}');
    push_range(v, '\u{1920}', '\u{192B}');
    push_range(v, '\u{1930}', '\u{193B}');
    push_range(v, '\u{1940}', '\u{1940}');
    push_range(v, '\u{1944}', '\u{194F}');
    assert(rview(v@) =~= o + limbu_scx_chunk_0());
}

pub fn limbu_scx_class() -> (v: Vec<ClassUnicodeRange>)
    ensures
        rview(v@) == limbu_scx_ranges(),
{
    let mut v: Vec<ClassUnicodeRange> = Vec::new();
    assert(rview(v@) =~= Seq::<SRange>::empty());
    push_limbu_scx_chunk_0(&mut v);
    assert(rview(v@) =~= limbu_scx_chunk_0());
    v
}

pub open spec fn linear_a_scx_chunk_0() -> Seq<SRange> {
    seq![(0x10107int, 0x10133int), (0x10600int, 0x10736int), (0x10740int, 0x10755int), (0x10760int, 0x10767int)]
}

/// The ranges of the property Linear_A.
pub open spec fn linear_a_scx_ranges() -> Seq<SRange> {
    linear_a_scx_chunk_0()
}

pub proof fn lemma_linear_a_scx_canonical()
    ensures
        canonical(linear_a_scx_ranges()),
{
    reveal_with_fuel(canonical, 9);
    assert(canonical(linear_a_scx_chunk_0()));
}

fn push_linear_a_scx_chunk_0(v: &mut Vec<ClassUnicodeRange>)
    ensures
        rview(final(v)@) == rview(old(v)@) + linear_a_scx_chunk_0(),
{
    let ghost o = rview(v@);
    push_range(v, '\u{10107}', '\u{10133}');
    push_range(v, '\u{10600}', '\u{10736}');
    push_range(v, '\u{10740}', '\u{10755}');
    push_range(v, '\u{10760}', '\u{10767}');
    assert(rview(v@) =~= o + linear_a_scx_chunk_0());
}

pub fn linear_a_scx_class() -> (v: Vec<ClassUnicodeRange>)
    ensures
        rview(v@) == linear_a_scx_ranges(),
{
    let mut v: Vec<ClassUnicodeRange> = Vec::new();
    assert(rview(v@) =~= Seq::<SRange>::empty());
    push_linear_a_scx_chunk_0(&mut v);
    assert(rview(v@) =~= linear_a_scx_chunk_0());
    v
}

pub open spec fn linear_b_scx_chunk_0() -> Seq<SRange> {
    seq![(0x10000int, 0x1000Bint), (0x1000Dint, 0x10026int), (0x10028int, 0x1003Aint), (0x1003Cint, 0x1003Dint), (0x1003Fint, 0x1004Dint), (0x10050int, 0x1005Dint), (0x10080int, 0x100FAint), (0x10100int, 0x10102int)]
}

pub open spec fn linear_b_scx_chunk_1() -> Seq<SRange> {
    seq![(0x10107int, 0x10133int), (0x10137int, 0x1013Fint)]
}

/// The ranges of the property Linear_B.
pub open spec fn linear_b_scx_ranges() -> Seq<SRange> {
    linear_b_scx_chunk_0() + linear_b_scx_chunk_1()
}

pub proof fn lemma_linear_b_scx_canonical()
    ensures
        canonical(linear_b_scx_ranges()),
{
    reveal_with_fuel(canonical, 9);
    assert(canonical(linear_b_scx_chunk_0()));
    assert(canonical(linear_b_scx_chunk_1()));
    lemma_canonical_append(linear_b_scx_chunk_0(), linear_b_scx_chunk_1());
}

fn push_linear_b_scx_chunk_0(v: &mut Vec<ClassUnicodeRange>)
    ensures
        rview(final(v)@) == rview(old(v)@) + linear_b_scx_chunk_0(),
{
    let ghost o = rview(v@);
    push_range(v, '\u{10000}', '\u{1000B}');
    push_range(v, '\u{1000D}', '\u{10026}');
    push_range(v, '\u{10028}', '\u{1003A}');
    push_range(v, '\u{1003C}', '\u{1003D}');
    push_range(v, '\u{1003F}', '\u{1004D}');
    push_range(v, '\u{10050}', '\u{1005D}');
    push_range(v, '\u{10080}', '\u{100FA}');
    push_range(v, '\u{10100}', '\u{10102}');
    assert(rview(v@) =~= o + linear_b_scx_chunk_0());
}

fn push_linear_b_scx_chunk_1(v: &mut Vec<ClassUnicodeRange>)
    ensures
        rview(final(v)@) == rview(old(v)@) + linear_b_scx_chunk_1(),
{
    let ghost o = rview(v@);
    push_range(v, '\u{10107}', '\u{10133}');
    push_range(v, '\u{10137}', '\u{1013F}');
    assert(rview(v@) =~= o + linear_b_scx_chunk_1());
}

pub fn linear_b_scx_class() -> (v: Vec<ClassUnicodeRange>)
    ensures
        rview(v@) == linear_b_scx_ranges(),
{
    let mut v: Vec<ClassUnicodeRange> = Vec::new();
    assert(rview(v@) =~= Seq::<SRange>::empty());
    push_linear_b_scx_chunk_0(&mut v);
    assert(rview(v@) =~= linear_b_scx_chunk_0());
    push_linear_b_scx_chunk_1(&mut v);
    assert(rview(v@) =~= linear_b_scx_chunk_0() + linear_b_scx_chunk_1());
    v
}

pub open spec fn lisu_scx_chunk_0() -> Seq<SRange> {
    seq![(0x2BCint, 0x2BCint), (0x2CDint, 0x2CDint), (0x300Aint, 0x300Bint), (0xA4D0int, 0xA4FFint), (0x11FB0int, 0x11FB0int)]
}

/// The ranges of the property Lisu.
pub open spec fn lisu_scx_ranges() -> Seq<SRange> {
    lisu_scx_chunk_0()
}

pub proof fn lemma_lisu_scx_canonical()
    ensures
        canonical(lisu_scx_ranges()),
{
    reveal_with_fuel(canonical, 9);
    assert(canonical(lisu_scx_chunk_0()));
}

fn push_lisu_scx_chunk_0(v: &mut Vec<ClassUnicodeRange>)
    ensures
        rview(final(v)@) == rview(old(v)@) + lisu_scx_chunk_0(),
{
    let ghost o = rview(v@);
    push_range(v, '\u{2BC}', '\u{2BC}');
    push_range(v, '\u{2CD}', '\u{2CD}');
    push_range(v, '\u{300A}', '\u{300B}');
    push_range(v, '\u{A4D0}', '\u{A4FF}');
    push_range(v, '\u{11FB0}', '\u{11FB0}');
    assert(rview(v@) =~= o + lisu_scx_chunk_0());
}

pub fn lisu_scx_class() -> (v: Vec<ClassUnicodeRange>)
    ensures
        rview(v@) == lisu_scx_ranges(),
{
    let mut v: Vec<ClassUnicodeRange> = Vec::new();
    assert(rview(v@) =~= Seq::<SRange>::empty());
    push_lisu_scx_chunk_0(&mut v);
    assert(rview(v@) =~= lisu_scx_chunk_0());
    v
}

pub open spec fn lycian_scx_chunk_0() -> Seq<SRange> {
    seq![(0x205Aint, 0x205Aint), (0x10280int, 0x1029Cint)]
}

/// The ranges of the property Lycian.
pub open spec fn lycian_scx_ranges() -> Seq<SRange> {
    lycian_scx_chunk_0()
}

pub proof fn lemma_lycian_scx_canonical()
    ensures
        canonical(lycian_scx_ranges()),
{
    reveal_with_fuel(canonical, 9);
    assert(canonical(lycian_scx_chunk_0()));
}

fn push_lycian_scx_chunk_0(v: &mut Vec<ClassUnicodeRange>)
    ensures
        rview(final(v)@) == rview(old(v)@) + lycian_scx_chunk_0(),
{
    let ghost o = rview(v@);
    push_range(v, '\u{205A}', '\u{205A}');
    push_range(v, '\u{10280}', '\u{1029C}');
    assert(rview(v@) =~= o + lycian_scx_chunk_0());
}

pub fn lycian_scx_class() -> (v: Vec<ClassUnicodeRange>)
    ensures
        rview(v@) == lycian_scx_ranges(),
{
    let mut v: Vec<ClassUnicodeRange> = Vec::new();
    assert(rview(v@) =~= Seq::<SRange>::empty());
    push_lycian_scx_chunk_0(&mut v);
    assert(rview(v@) =~= lycian_scx_chunk_0());
    v
}

pub open spec fn lydian_scx_chunk_0() -> Seq<SRange> {
    seq![(0xB7int, 0xB7int), (0x2E31int, 0x2E31int), (0x10920int, 0x10939int), (0x1093Fint, 0x1093Fint)]
}

/// The ranges of the property Lydian.
pub open spec fn lydian_scx_ranges() -> Seq<SRange> {
    lydian_scx_chunk_0()
}

pub proof fn lemma_lydian_scx_canonical()
    ensures
        canonical(lydian_scx_ranges()),
{
    reveal_with_fuel(canonical, 9);
    assert(canonical(lydian_scx_chunk_0()));
}

fn push_lydian_scx_chunk_0(v: &mut Vec<ClassUnicodeRange>)
    ensures
        rview(final(v)@) == rview(old(v)@) + lydian_scx_chunk_0(),
{
    let ghost o = rview(v@);
    push_range(v, '\u{B7}', '\u{B7}');
    push_range(v, '\u{2E31}', '\u{2E31}');
    push_range(v, '\u{10920}', '\u{10939}');
    push_range(v, '\u{1093F}', '\u{1093F}');
    assert(rview(v@) =~= o + lydian_scx_chunk_0());
}

pub fn lydian_scx_class() -> (v: Vec<ClassUnicodeRange>)
    ensures
        rview(v@) == lydian_scx_ranges(),
{
    let mut v: Vec<ClassUnicodeRange> = Vec::new();
    assert(rview(v@) =~= Seq::<SRange>::empty());
    push_lydian_scx_chunk_0(&mut v);
    assert(rview(v@) =~= lydian_scx_chunk_0());
    v
}

pub open spec fn mahajani_scx_chunk_0() -> Seq<SRange> {
    seq![(0xB7int, 0xB7int), (0x964int, 0x96Fint), (0xA830int, 0xA839int), (0x11150int, 0x11176int)]
}

/// The ranges of the property Mahajani.
pub open spec fn mahajani_scx_ranges() -> Seq<SRange> {
    mahajani_scx_chunk_0()
}

pub proof fn lemma_mahajani_scx_canonical()
    ensures
        canonical(mahajani_scx_ranges()),
{
    reveal_with_fuel(canonical, 9);
    assert(canonical(mahajani_scx_chunk_0()));
}

fn push_mahajani_scx_chunk_0(v: &mut Vec<ClassUnicodeRange>)
    ensures
        rview(final(v)@) == rview(old(v)@) + mahajani_scx_chunk_0(),
{
    let ghost o = rview(v@);
    push_range(v, '\u{B7}', '\u{B7}');
    push_range(v, '\u{964}', '\u{96F}');
    push_range(v, '\u{A830}', '\u{A839}');
    push_range(v, '\u{11150}', '\u{11176}');
    assert(rview(v@) =~= o + mahajani_scx_chunk_0());
}

pub fn mahajani_scx_class() -> (v: Vec<ClassUnicodeRange>)
    ensures
        rview(v@) == mahajani_scx_ranges(),
{
    let mut v: Vec<ClassUnicodeRange> = Vec::new();
    assert(rview(v@) =~= Seq::<SRange>::empty());
    push_mahajani_scx_chunk_0(&mut v);
    assert(rview(v@) =~= mahajani_scx_chunk_0());
    v
}

pub open spec fn makasar_scx_chunk_0() -> Seq<SRange> {
    seq![(0x11EE0int, 0x11EF8int)]
}

/// The ranges of the property Makasar.
pub open spec fn makasar_scx_ranges() -> Seq<SRange> {
    makasar_scx_chunk_0()
}

pub proof fn lemma_makasar_scx_canonical()
    ensures
        canonical(makasar_scx_ranges()),
{
    reveal_with_fuel(canonical, 9);
    assert(canonical(makasar_scx_chunk_0()));
}

fn push_makasar_scx_chunk_0(v: &mut Vec<ClassUnicodeRange>)
    ensures
        rview(final(v)@) == rview(old(v)@) + makasar_scx_chunk_0(),
{
    let ghost o = rview(v@);
    push_range(v, '\u{11EE0}', '\u{11EF8}');
    assert(rview(v@) =~= o + makasar_scx_chunk_0());
}

pub fn makasar_scx_class() -> (v: Vec<ClassUnicodeRange>)
    ensures
        rview(v@) == makasar_scx_ranges(),
{
    let mut v: Vec<ClassUnicodeRange> = Vec::new();
    assert(rview(v@) =~= Seq::<SRange>::empty());
    push_makasar_scx_chunk_0(&mut v);
    assert(rview(v@) =~= makasar_scx_chunk_0());
    v
}

pub open spec fn malayalam_scx_chunk_0() -> Seq<SRange> {
    seq![(0x951int, 0x952int), (0x964int, 0x965int), (0xD00int, 0xD0Cint), (0xD0Eint, 0xD10int), (0xD12int, 0xD44int), (0xD46int, 0xD48int), (0xD4Aint, 0xD4Fint), (0xD54int, 0xD63int)]
}

pub open spec fn malayalam_scx_chunk_1() -> Seq<SRange> {
    seq![(0xD66int, 0xD7Fint), (0x1CDAint, 0x1CDAint), (0x1CF2int, 0x1CF2int), (0xA830int, 0xA832int)]
}

/// The ranges of the property Malayalam.
pub open spec fn malayalam_scx_ranges() -> Seq<SRange> {
    malayalam_scx_chunk_0() + malayalam_scx_chunk_1()
}

pub proof fn lemma_malayalam_scx_canonical()
    ensures
        canonical(malayalam_scx_ranges()),
{
    reveal_with_fuel(canonical, 9);
    assert(canonical(malayalam_scx_chunk_0()));
    assert(canonical(malayalam_scx_chunk_1()));
    lemma_canonical_append(malayalam_scx_chunk_0(), malayalam_scx_chunk_1());
}

fn push_malayalam_scx_chunk_0(v: &mut Vec<ClassUnicodeRange>)
    ensures
        rview(final(v)@) == rview(old(v)@) + malayalam_scx_chunk_0(),
{
    let ghost o = rview(v@);
    push_range(v, '\u{951}', '\u{952}');
    push_range(v, '\u{964}', '\u{965}');
    push_range(v, '\u{D00}', '\u{D0C}');
    push_range(v, '\u{D0E}', '\u{D10}');
    push_range(v, '\u{D12}', '\u{D44}');
    push_range(v, '\u{D46}', '\u{D48}');
    push_range(v, '\u{D4A}', '\u{D4F}');
    push_range(v, '\u{D54}', '\u{D63}');
    assert(rview(v@) =~= o + malayalam_scx_chunk_0());
}

fn push_malayalam_scx_chunk_1(v: &mut Vec<ClassUnicodeRange>)
    ensures
        rview(final(v)@) == rview(old(v)@) + malayalam_scx_chunk_1(),
{
    let ghost o = rview(v@);
    push_range(v, '\u{D66}', '\u{D7F}');
    push_range(v, '\u{1CDA}', '\u{1CDA}');
    push_range(v, '\u{1CF2}', '\u{1CF2}');
    push_range(v, '\u{A830}', '\u{A832}');
    assert(rview(v@) =~= o + malayalam_scx_chunk_1());
}

pub fn malayalam_scx_class() -> (v: Vec<ClassUnicodeRange>)
    ensures
        rview(v@) == malayalam_scx_ranges(),
{
    let mut v: Vec<ClassUnicodeRange> = Vec::new();
    assert(rview(v@) =~= Seq::<SRange>::empty());
    push_malayalam_scx_chunk_0(&mut v);
    assert(rview(v@) =~= malayalam_scx_chunk_0());
    push_malayalam_scx_chunk_1(&mut v);
    assert(rview(v@) =~= malayalam_scx_chunk_0() + malayalam_scx_chunk_1());
    v
}

pub open spec fn mandaic_scx_chunk_0() -> Seq<SRange> {
    seq![(0x640int, 0x640int), (0x840int, 0x85Bint), (0x85Eint, 0x85Eint)]
}

/// The ranges of the property Mandaic.
pub open spec fn mandaic_scx_ranges() -> Seq<SRange> {
    mandaic_scx_chunk_0()
}

pub proof fn lemma_mandaic_scx_canonical()
    ensures
        canonical(mandaic_scx_ranges()),
{
    reveal_with_fuel(canonical, 9);
    assert(canonical(mandaic_scx_chunk_0()));
}

fn push_mandaic_scx_chunk_0(v: &mut Vec<ClassUnicodeRange>)
    ensures
        rview(final(v)@) == rview(old(v)@) + mandaic_scx_chunk_0(),
{
    let ghost o = rview(v@);
    push_range(v, '\u{640}', '\u{640}');
    push_range(v, '\u{840}', '\u{85B}');
    push_range(v, '\u{85E}', '\u{85E}');
    assert(rview(v@) =~= o + mandaic_scx_chunk_0());
}

pub fn mandaic_scx_class() -> (v: Vec<ClassUnicodeRange>)
    ensures
        rview(v@) == mandaic_scx_ranges(),
{
    let mut v: Vec<ClassUnicodeRange> = Vec::new();
    assert(rview(v@) =~= Seq::<SRange>::empty());
    push_mandaic_scx_chunk_0(&mut v);
    assert(rview(v@) =~= mandaic_scx_chunk_0());
    v
}

pub open spec fn manichaean_scx_chunk_0() -> Seq<SRange> {
    seq![(0x640int, 0x640int), (0x10AC0int, 0x10AE6int), (0x10AEBint, 0x10AF6int)]
}

/// The ranges of the property Manichaean.
pub open spec fn manichaean_scx_ranges() -> Seq<SRange> {
    manichaean_scx_chunk_0()
}

pub proof fn lemma_manichaean_scx_canonical()
    ensures
        canonical(manichaean_scx_ranges()),
{
    reveal_with_fuel(canonical, 9);
    assert(canonical(manichaean_scx_chunk_0()));
}

fn push_manichaean_scx_chunk_0(v: &mut Vec<ClassUnicodeRange>)
    ensures
        rview(final(v)@) == rview(old(v)@) + manichaean_scx_chunk_0(),
{
    let ghost o = rview(v@);
    push_range(v, '\u{640}', '\u{640}');
    push_range(v, '\u{10AC0}', '\u{10AE6}');
    push_range(v, '\u{10AEB}', '\u{10AF6}');
    assert(rview(v@) =~= o + manichaean_scx_chunk_0());
}

pub fn manichaean_scx_class() -> (v: Vec<ClassUnicodeRange>)
    ensures
        rview(v@) == manichaean_scx_ranges(),
{
    let mut v: Vec<ClassUnicodeRange> = Vec::new();
    assert(rview(v@) =~= Seq::<SRange>::empty());
    push_manichaean_scx_chunk_0(&mut v);
    assert(rview(v@) =~= manichaean_scx_chunk_0());
    v
}

pub open spec fn marchen_scx_chunk_0() -> Seq<SRange> {
    seq![(0x11C70int, 0x11C8Fint), (0x11C92int, 0x11CA7int), (0x11CA9int, 0x11CB6int)]
}

/// The ranges of the property Marchen.
pub open spec fn marchen_scx_ranges() -> Seq<SRange> {
    marchen_scx_chunk_0()
}

pub proof fn lemma_marchen_scx_canonical()
    ensures
        canonical(marchen_scx_ranges()),
{
    reveal_with_fuel(canonical, 9);
    assert(canonical(marchen_scx_chunk_0()));
}

fn push_marchen_scx_chunk_0(v: &mut Vec<ClassUnicodeRange>)
    ensures
        rview(final(v)@) == rview(old(v)@) + marchen_scx_chunk_0(),
{
    let ghost o = rview(v@);
    push_range(v, '\u{11C70}', '\u{11C8F}');
    push_range(v, '\u{11C92}', '\u{11CA7}');
    push_range(v, '\u{11CA9}', '\u{11CB6}');
    assert(rview(v@) =~= o + marchen_scx_chunk_0());
}

pub fn marchen_scx_class() -> (v: Vec<ClassUnicodeRange>)
    ensures
        rview(v@) == marchen_scx_ranges(),
{
    let mut v: Vec<ClassUnicodeRange> = Vec::new();
    assert(rview(v@) =~= Seq::<SRange>::empty());
    push_marchen_scx_chunk_0(&mut v);
    assert(rview(v@) =~= marchen_scx_chunk_0());
    v
}

pub open spec fn masaram_gondi_scx_chunk_0() -> Seq<SRange> {
    seq![(0x964int, 0x965int), (0x11D00int, 0x11D06int), (0x11D08int, 0x11D09int), (0x11D0Bint, 0x11D36int), (0x11D3Aint, 0x11D3Aint), (0x11D3Cint, 0x11D3Dint), (0x11D3Fint, 0x11D47int), (0x11D50int, 0x11D59int)]
}

/// The ranges of the property Masaram_Gondi.
pub open spec fn masaram_gondi_scx_ranges() -> Seq<SRange> {
    masaram_gondi_scx_chunk_0()
}

pub proof fn lemma_masaram_gondi_scx_canonical()
    ensures
        canonical(masaram_gondi_scx_ranges()),
{
    reveal_with_fuel(canonical, 9);
    assert(canonical(masaram_gondi_scx_chunk_0()));
}

fn push_masaram_gondi_scx_chunk_0(v: &mut Vec<ClassUnicodeRange>)
    ensures
        rview(final(v)@) == rview(old(v)@) + masaram_gondi_scx_chunk_0(),
{
    let ghost o = rview(v@);
    push_range(v, '\u{964}', '\u{965}');
    push_range(v, '\u{11D00}', '\u{11D06}');
    push_range(v, '\u{11D08}', '\u{11D09}');
    push_range(v, '\u{11D0B}', '\u{11D36}');
    push_range(v, '\u{11D3A}', '\u{11D3A}');
    push_range(v, '\u{11D3C}', '\u{11D3D}');
    push_range(v, '\u{11D3F}', '\u{11D47}');
    push_range(v, '\u{11D50}', '\u{11D59}');
    assert(rview(v@) =~= o + masaram_gondi_scx_chunk_0());
}

pub fn masaram_gondi_scx_class() -> (v: Vec<ClassUnicodeRange>)
    ensures
        rview(v@) == masaram_gondi_scx_ranges(),
{
    let mut v: Vec<ClassUnicodeRange> = Vec::new();
    assert(rview(v@) =~= Seq::<SRange>::empty());
    push_masaram_gondi_scx_chunk_0(&mut v);
    assert(rview(v@) =~= masaram_gondi_scx_chunk_0());
    v
}

pub open spec fn medefaidrin_scx_chunk_0() -> Seq<SRange> {
    seq![(0x16E40int, 0x16E9Aint)]
}

/// The ranges of the property Medefaidrin.
pub open spec fn medefaidrin_scx_ranges() -> Seq<SRange> {
    medefaidrin_scx_chunk_0()
}

pub proof fn lemma_medefaidrin_scx_canonical()
    ensures
        canonical(medefaidrin_scx_ranges()),
{
    reveal_with_fuel(canonical, 9);
    assert(canonical(medefaidrin_scx_chunk_0()));
}

fn push_medefaidrin_scx_chunk_0(v: &mut Vec<ClassUnicodeRange>)
    ensures
        rview(final(v)@) == rview(old(v)@) + medefaidrin_scx_chunk_0(),
{
    let ghost o = rview(v@);
    push_range(v, '\u{16E40}', '\u{16E9A}');
    assert(rview(v@) =~= o + medefaidrin_scx_chunk_0());
}

pub fn medefaidrin_scx_class() -> (v: Vec<ClassUnicodeRange>)
    ensures
        rview(v@) == medefaidrin_scx_ranges(),
{
    let mut v: Vec<ClassUnicodeRange> = Vec::new();
    assert(rview(v@) =~= Seq::<SRange>::empty());
    push_medefaidrin_scx_chunk_0(&mut v);
    assert(rview(v@) =~= medefaidrin_scx_chunk_0());
    v
}

pub open spec fn meetei_mayek_scx_chunk_0() -> Seq<SRange> {
    seq![(0xAAE0int, 0xAAF6int), (0xABC0int, 0xABEDint), (0xABF0int, 0xABF9int)]
}

/// The ranges of the property Meetei_Mayek.
pub open spec fn meetei_mayek_scx_ranges() -> Seq<SRange> {
    meetei_mayek_scx_chunk_0()
}

pub proof fn lemma_meetei_mayek_scx_canonical()
    ensures
        canonical(meetei_mayek_scx_ranges()),
{
    reveal_with_fuel(canonical, 9);
    assert(canonical(meetei_mayek_scx_chunk_0()));
}

fn push_meetei_mayek_scx_chunk_0(v: &mut Vec<ClassUnicodeRange>)
    ensures
        rview(final(v)@) == rview(old(v)@) + meetei_mayek_scx_chunk_0(),
{
    let ghost o = rview(v@);
    push_range(v, '\u{AAE0}', '\u{AAF6}');
    push_range(v, '\u{ABC0}', '\u{ABED}');
    push_range(v, '\u{ABF0}', '\u{ABF9}');
    assert(rview(v@) =~= o + meetei_mayek_scx_chunk_0());
}

pub fn meetei_mayek_scx_class() -> (v: Vec<ClassUnicodeRange>)
    ensures
        rview(v@) == meetei_mayek_scx_ranges(),
{
    let mut v: Vec<ClassUnicodeRange> = Vec::new();
    assert(rview(v@) =~= Seq::<SRange>::empty());
    push_meetei_mayek_scx_chunk_0(&mut v);
    assert(rview(v@) =~= meetei_mayek_scx_chunk_0());
    v
}

pub open spec fn mende_kikakui_scx_chunk_0() -> Seq<SRange> {
    seq![(0x1E800int, 0x1E8C4int), (0x1E8C7int, 0x1E8D6int)]
}

/// The ranges of the property Mende_Kikakui.
pub open spec fn mende_kikakui_scx_ranges() -> Seq<SRange> {
    mende_kikakui_scx_chunk_0()
}

pub proof fn lemma_mende_kikakui_scx_canonical()
    ensures
        canonical(mende_kikakui_scx_ranges()),
{
    reveal_with_fuel(canonical, 9);
    assert(canonical(mende_kikakui_scx_chunk_0()));
}

fn push_mende_kikakui_scx_chunk_0(v: &mut Vec<ClassUnicodeRange>)
    ensures
        rview(final(v)@) == rview(old(v)@) + mende_kikakui_scx_chunk_0(),
{
    let ghost o = rview(v@);
    push_range(v, '\u{1E800}', '\u{1E8C4}');
    push_range(v, '\u{1E8C7}', '\u{1E8D6}');
    assert(rview(v@) =~= o + mende_kikakui_scx_chunk_0());
}

pub fn mende_kikakui_scx_class() -> (v: Vec<ClassUnicodeRange>)
    ensures
        rview(v@) == mende_kikakui_scx_ranges(),
{
    let mut v: Vec<ClassUnicodeRange> = Vec::new();
    assert(rview(v@) =~= Seq::<SRange>::empty());
    push_mende_kikakui_scx_chunk_0(&mut v);
    assert(rview(v@) =~= mende_kikakui_scx_chunk_0());
    v
}

pub open spec fn meroitic_cursive_scx_chunk_0() -> Seq<SRange> {
    seq![(0x109A0int, 0x109B7int), (0x109BCint, 0x109CFint), (0x109D2int, 0x109FFint)]
}

/// The ranges of the property Meroitic_Cursive.
pub open spec fn meroitic_cursive_scx_ranges() -> Seq<SRange> {
    meroitic_cursive_scx_chunk_0()
}

pub proof fn lemma_meroitic_cursive_scx_canonical()
    ensures
        canonical(meroitic_cursive_scx_ranges()),
{
    reveal_with_fuel(canonical, 9);
    assert(canonical(meroitic_cursive_scx_chunk_0()));
}

fn push_meroitic_cursive_scx_chunk_0(v: &mut Vec<ClassUnicodeRange>)
    ensures
        rview(final(v)@) == rview(old(v)@) + meroitic_cursive_scx_chunk_0(),
{
    let ghost o = rview(v@);
    push_range(v, '\u{109A0}', '\u{109B7}');
    push_range(v, '\u{109BC}', '\u{109CF}');
    push_range(v, '\u{109D2}', '\u{109FF}');
    assert(rview(v@) =~= o + meroitic_cursive_scx_chunk_0());
}

pub fn meroitic_cursive_scx_class() -> (v: Vec<ClassUnicodeRange>)
    ensures
        rview(v@) == meroitic_cursive_scx_ranges(),
{
    let mut v: Vec<ClassUnicodeRange> = Vec::new();
    assert(rview(v@) =~= Seq::<SRange>::empty());
    push_meroitic_cursive_scx_chunk_0(&mut v);
    assert(rview(v@) =~= meroitic_cursive_scx_chunk_0());
    v
}

pub open spec fn meroitic_hieroglyphs_scx_chunk_0() -> Seq<SRange> {
    seq![(0x205Dint, 0x205Dint), (0x10980int, 0x1099Fint)]
}

/// The ranges of the property Meroitic_Hieroglyphs.
pub open spec fn meroitic_hieroglyphs_scx_ranges() -> Seq<SRange> {
    meroitic_hieroglyphs_scx_chunk_0()
}

pub proof fn lemma_meroitic_hieroglyphs_scx_canonical()
    ensures
        canonical(meroitic_hieroglyphs_scx_ranges()),
{
    reveal_with_fuel(canonical, 9);
    assert(canonical(meroitic_hieroglyphs_scx_chunk_0()));
}

fn push_meroitic_hieroglyphs_scx_chunk_0(v: &mut Vec<ClassUnicodeRange>)
    ensures
        rview(final(v)@) == rview(old(v)@) + meroitic_hieroglyphs_scx_chunk_0(),
{
    let ghost o = rview(v@);
    push_range(v, '\u{205D}', '\u{205D}');
    push_range(v, '\u{10980}', '\u{1099F}');
    assert(rview(v@) =~= o + meroitic_hieroglyphs_scx_chunk_0());
}

pub fn meroitic_hieroglyphs_scx_class() -> (v: Vec<ClassUnicodeRange>)
    ensures
        rview(v@) == meroitic_hieroglyphs_scx_ranges(),
{
    let mut v: Vec<ClassUnicodeRange> = Vec::new();
    assert(rview(v@) =~= Seq::<SRange>::empty());
    push_meroitic_hieroglyphs_scx_chunk_0(&mut v);
    assert(rview(v@) =~= meroitic_hieroglyphs_scx_chunk_0());
    v
}

pub open spec fn miao_scx_chunk_0() -> Seq<SRange> {
    seq![(0x16F00int, 0x16F4Aint), (0x16F4Fint, 0x16F87int), (0x16F8Fint, 0x16F9Fint)]
}

/// The ranges of the property Miao.
pub open spec fn miao_scx_ranges() -> Seq<SRange> {
    miao_scx_chunk_0()
}

pub proof fn lemma_miao_scx_canonical()
    ensures
        canonical(miao_scx_ranges()),
{
    reveal_with_fuel(canonical, 9);
    assert(canonical(miao_scx_chunk_0()));
}

fn push_miao_scx_chunk_0(v: &mut Vec<ClassUnicodeRange>)
    ensures
        rview(final(v)@) == rview(old(v)@) + miao_scx_chunk_0(),
{
    let ghost o = rview(v@);
    push_range(v, '\u{16F00}', '\u{16F4A}');
    push_range(v, '\u{16F4F}', '\u{16F87}');
    push_range(v, '\u{16F8F}', '\u{16F9F}');
    assert(rview(v@) =~= o + miao_scx_chunk_0());
}

pub fn miao_scx_class() -> (v: Vec<ClassUnicodeRange>)
    ensures
        rview(v@) == miao_scx_ranges(),
{
    let mut v: Vec<ClassUnicodeRange> = Vec::new();
    assert(rview(v@) =~= Seq::<SRange>::empty());
    push_miao_scx_chunk_0(&mut v);
    assert(rview(v@) =~= miao_scx_chunk_0());
    v
}

pub open spec fn modi_scx_chunk_0() -> Seq<SRange> {
    seq![(0xA830int, 0xA839int), (0x11600int, 0x11644int), (0x11650int, 0x11659int)]
}

/// The ranges of the property Modi.
pub open spec fn modi_scx_ranges() -> Seq<SRange> {
    modi_scx_chunk_0()
}

pub proof fn lemma_modi_scx_canonical()
    ensures
        canonical(modi_scx_ranges()),
{
    reveal_with_fuel(canonical, 9);
    assert(canonical(modi_scx_chunk_0()));
}

fn push_modi_scx_chunk_0(v: &mut Vec<ClassUnicodeRange>)
    ensures
        rview(final(v)@) == rview(old(v)@) + modi_scx_chunk_0(),
{
    let ghost o = rview(v@);
    push_range(v, '\u{A830}', '\u{A839}');
    push_range(v, '\u{11600}', '\u{11644}');
    push_range(v, '\u{11650}', '\u{11659}');
    assert(rview(v@) =~= o + modi_scx_chunk_0());
}

pub fn modi_scx_class() -> (v: Vec<ClassUnicodeRange>)
    ensures
        rview(v@) == modi_scx_ranges(),
{
    let mut v: Vec<ClassUnicodeRange> = Vec::new();
    assert(rview(v@) =~= Seq::<SRange>::empty());
    push_modi_scx_chunk_0(&mut v);
    assert(rview(v@) =~= modi_scx_chunk_0());
    v
}

pub open spec fn mongolian_scx_chunk_0() -> Seq<SRange> {
    seq![(0x1800int, 0x1819int), (0x1820int, 0x1878int), (0x1880int, 0x18AAint), (0x202Fint, 0x202Fint), (0x3001int, 0x3002int), (0x3008int, 0x300Bint), (0x11660int, 0x1166Cint)]
}

/// The ranges of the property Mongolian.
pub open spec fn mongolian_scx_ranges() -> Seq<SRange> {
    mongolian_scx_chunk_0()
}

pub proof fn lemma_mongolian_scx_canonical()
    ensures
        canonical(mongolian_scx_ranges()),
{
    reveal_with_fuel(canonical, 9);
    assert(canonical(mongolian_scx_chunk_0()));
}

fn push_mongolian_scx_chunk_0(v: &mut Vec<ClassUnicodeRange>)
    ensures
        rview(final(v)@) == rview(old(v)@) + mongolian_scx_chunk_0(),
{
    let ghost o = rview(v@);
    push_range(v, '\u{1800}', '\u{1819}');
    push_range(v, '\u{1820}', '\u{1878}');
    push_range(v, '\u{1880}', '\u{18AA}');
    push_range(v, '\u{202F}', '\u{202F}');
    push_range(v, '\u{3001}', '\u{3002}');
    push_range(v, '\u{3008}', '\u{300B}');
    push_range(v, '\u{11660}', '\u{1166C}');
    assert(rview(v@) =~= o + mongolian_scx_chunk_0());
}

pub fn mongolian_scx_class() -> (v: Vec<ClassUnicodeRange>)
    ensures
        rview(v@) == mongolian_scx_ranges(),
{
    let mut v: Vec<ClassUnicodeRange> = Vec::new();
    assert(rview(v@) =~= Seq::<SRange>::empty());
    push_mongolian_scx_chunk_0(&mut v);
    assert(rview(v@) =~= mongolian_scx_chunk_0());
    v
}

pub open spec fn mro_scx_chunk_0() -> Seq<SRange> {
    seq![(0x16A40int, 0x16A5Eint), (0x16A60int, 0x16A69int), (0x16A6Eint, 0x16A6Fint)]
}

/// The ranges of the property Mro.
pub open spec fn mro_scx_ranges() -> Seq<SRange> {
    mro_scx_chunk_0()
}

pub proof fn lemma_mro_scx_canonical()
    ensures
        canonical(mro_scx_ranges()),
{
    reveal_with_fuel(canonical, 9);
    assert(canonical(mro_scx_chunk_0()));
}

fn push_mro_scx_chunk_0(v: &mut Vec<ClassUnicodeRange>)
    ensures
        rview(final(v)@) == rview(old(v)@) + mro_scx_chunk_0(),
{
    let ghost o = rview(v@);
    push_range(v, '\u{16A40}', '\u{16A5E}');
    push_range(v, '\u{16A60}', '\u{16A69}');
    push_range(v, '\u{16A6E}', '\u{16A6F}');
    assert(rview(v@) =~= o + mro_scx_chunk_0());
}

pub fn mro_scx_class() -> (v: Vec<ClassUnicodeRange>)
    ensures
        rview(v@) == mro_scx_ranges(),
{
    let mut v: Vec<ClassUnicodeRange> = Vec::new();
    assert(rview(v@) =~= Seq::<SRange>::empty());
    push_mro_scx_chunk_0(&mut v);
    assert(rview(v@) =~= mro_scx_chunk_0());
    v
}

pub open spec fn multani_scx_chunk_0() -> Seq<SRange> {
    seq![(0xA66int, 0xA6Fint), (0x11280int, 0x11286int), (0x11288int, 0x11288int), (0x1128Aint, 0x1128Dint), (0x1128Fint, 0x1129Dint), (0x1129Fint, 0x112A9int)]
}

/// The ranges of the property Multani.
pub open spec fn multani_scx_ranges() -> Seq<SRange> {
    multani_scx_chunk_0()
}

pub proof fn lemma_multani_scx_canonical()
    ensures
        canonical(multani_scx_ranges()),
{
    reveal_with_fuel(canonical, 9);
    assert(canonical(multani_scx_chunk_0()));
}

fn push_multani_scx_chunk_0(v: &mut Vec<ClassUnicodeRange>)
    ensures
        rview(final(v)@) == rview(old(v)@) + multani_scx_chunk_0(),
{
    let ghost o = rview(v@);
    push_range(v, '\u{A66}', '\u{A6F}');
    push_range(v, '\u{11280}', '\u{11286}');
    push_range(v, '\u{11288}', '\u{11288}');
    push_range(v, '\u{1128A}', '\u{1128D}');
    push_range(v, '\u{1128F}', '\u{1129D}');
    push_range(v, '\u{1129F}', '\u{112A9}');
    assert(rview(v@) =~= o + multani_scx_chunk_0());
}

pub fn multani_scx_class() -> (v: Vec<ClassUnicodeRange>)
    ensures
        rview(v@) == multani_scx_ranges(),
{
    let mut v: Vec<ClassUnicodeRange> = Vec::new();
    assert(rview(v@) =~= Seq::<SRange>::empty());
    push_multani_scx_chunk_0(&mut v);
    assert(rview(v@) =~= multani_scx_chunk_0());
    v
}

pub open spec fn myanmar_scx_chunk_0() -> Seq<SRange> {
    seq![(0x1000int, 0x109Fint), (0xA92Eint, 0xA92Eint), (0xA9E0int, 0xA9FEint), (0xAA60int, 0xAA7Fint), (0x116D0int, 0x116E3int)]
}

/// The ranges of the property Myanmar.
pub open spec fn myanmar_scx_ranges() -> Seq<SRange> {
    myanmar_scx_chunk_0()
}

pub proof fn lemma_myanmar_scx_canonical()
    ensures
        canonical(myanmar_scx_ranges()),
{
    reveal_with_fuel(canonical, 9);
    assert(canonical(myanmar_scx_chunk_0()));
}

fn push_myanmar_scx_chunk_0(v: &mut Vec<ClassUnicodeRange>)
    ensures
        rview(final(v)@) == rview(old(v)@) + myanmar_scx_chunk_0(),
{
    let ghost o = rview(v@);
    push_range(v, '\u{1000}', '\u{109F}');
    push_range(v, '\u{A92E}', '\u{A92E}');
    push_range(v, '\u{A9E0}', '\u{A9FE}');
    push_range(v, '\u{AA60}', '\u{AA7F}');
    push_range(v, '\u{116D0}', '\u{116E3}');
    assert(rview(v@) =~= o + myanmar_scx_chunk_0());
}

pub fn myanmar_scx_class() -> (v: Vec<ClassUnicodeRange>)
    ensures
        rview(v@) == myanmar_scx_ranges(),
{
    let mut v: Vec<ClassUnicodeRange> = Vec::new();
    assert(rview(v@) =~= Seq::<SRange>::empty());
    push_myanmar_scx_chunk_0(&mut v);
    assert(rview(v@) =~= myanmar_scx_chunk_0());
    v
}

pub open spec fn nabataean_scx_chunk_0() -> Seq<SRange> {
    seq![(0x10880int, 0x1089Eint), (0x108A7int, 0x108AFint)]
}

/// The ranges of the property Nabataean.
pub open spec fn nabataean_scx_ranges() -> Seq<SRange> {
    nabataean_scx_chunk_0()
}

pub proof fn lemma_nabataean_scx_canonical()
    ensures
        canonical(nabataean_scx_ranges()),
{
    reveal_with_fuel(canonical, 9);
    assert(canonical(nabataean_scx_chunk_0()));
}

fn push_nabataean_scx_chunk_0(v: &mut Vec<ClassUnicodeRange>)
    ensures
        rview(final(v)@) == rview(old(v)@) + nabataean_scx_chunk_0(),
{
    let ghost o = rview(v@);
    push_range(v, '\u{10880}', '\u{1089E}');
    push_range(v, '\u{108A7}', '\u{108AF}');
    assert(rview(v@) =~= o + nabataean_scx_chunk_0());
}

pub fn nabataean_scx_class() -> (v: Vec<ClassUnicodeRange>)
    ensures
        rview(v@) == nabataean_scx_ranges(),
{
    let mut v: Vec<ClassUnicodeRange> = Vec::new();
    assert(rview(v@) =~= Seq::<SRange>::empty());
    push_nabataean_scx_chunk_0(&mut v);
    assert(rview(v@) =~= nabataean_scx_chunk_0());
    v
}

pub open spec fn nag_mundari_scx_chunk_0() -> Seq<SRange> {
    seq![(0x1E4D0int, 0x1E4F9int)]
}

/// The ranges of the property Nag_Mundari.
pub open spec fn nag_mundari_scx_ranges() -> Seq<SRange> {
    nag_mundari_scx_chunk_0()
}

pub proof fn lemma_nag_mundari_scx_canonical()
    ensures
        canonical(nag_mundari_scx_ranges()),
{
    reveal_with_fuel(canonical, 9);
    assert(canonical(nag_mundari_scx_chunk_0()));
}

fn push_nag_mundari_scx_chunk_0(v: &mut Vec<ClassUnicodeRange>)
    ensures
        rview(final(v)@) == rview(old(v)@) + nag_mundari_scx_chunk_0(),
{
    let ghost o = rview(v@);
    push_range(v, '\u{1E4D0}', '\u{1E4F9}');
    assert(rview(v@) =~= o + nag_mundari_scx_chunk_0());
}

pub fn nag_mundari_scx_class() -> (v: Vec<ClassUnicodeRange>)
    ensures
        rview(v@) == nag_mundari_scx_ranges(),
{
    let mut v: Vec<ClassUnicodeRange> = Vec::new();
    assert(rview(v@) =~= Seq::<SRange>::empty());
    push_nag_mundari_scx_chunk_0(&mut v);
    assert(rview(v@) =~= nag_mundari_scx_chunk_0());
    v
}

pub open spec fn nandinagari_scx_chunk_0() -> Seq<SRange> {
    seq![(0x964int, 0x965int), (0xCE6int, 0xCEFint), (0x1CE9int, 0x1CE9int), (0x1CF2int, 0x1CF2int), (0x1CFAint, 0x1CFAint), (0xA830int, 0xA835int), (0x119A0int, 0x119A7int), (0x119AAint, 0x119D7int)]
}

pub open spec fn nandinagari_scx_chunk_1() -> Seq<SRange> {
    seq![(0x119DAint, 0x119E4int)]
}

/// The ranges of the property Nandinagari.
pub open spec fn nandinagari_scx_ranges() -> Seq<SRange> {
    nandinagari_scx_chunk_0() + nandinagari_scx_chunk_1()
}

pub proof fn lemma_nandinagari_scx_canonical()
    ensures
        canonical(nandinagari_scx_ranges()),
{
    reveal_with_fuel(canonical, 9);
    assert(canonical(nandinagari_scx_chunk_0()));
    assert(canonical(nandinagari_scx_chunk_1()));
    lemma_canonical_append(nandinagari_scx_chunk_0(), nandinagari_scx_chunk_1());
}

fn push_nandinagari_scx_chunk_0(v: &mut Vec<ClassUnicodeRange>)
    ensures
        rview(final(v)@) == rview(old(v)@) + nandinagari_scx_chunk_0(),
{
    let ghost o = rview(v@);
    push_range(v, '\u{964}', '\u{965}');
    push_range(v, '\u{CE6}', '\u{CEF}');
    push_range(v, '\u{1CE9}', '\u{1CE9}');
    push_range(v, '\u{1CF2}', '\u{1CF2}');
    push_range(v, '\u{1CFA}', '\u{1CFA}');
    push_range(v, '\u{A830}', '\u{A835}');
    push_range(v, '\u{119A0}', '\u{119A7}');
    push_range(v, '\u{119AA}', '\u{119D7}');
    assert(rview(v@) =~= o + nandinagari_scx_chunk_0());
}

fn push_nandinagari_scx_chunk_1(v: &mut Vec<ClassUnicodeRange>)
    ensures
        rview(final(v)@) == rview(old(v)@) + nandinagari_scx_chunk_1(),
{
    let ghost o = rview(v@);
    push_range(v, '\u{119DA}', '\u{119E4}');
    assert(rview(v@) =~= o + nandinagari_scx_chunk_1());
}

pub fn nandinagari_scx_class() -> (v: Vec<ClassUnicodeRange>)
    ensures
        rview(v@) == nandinagari_scx_ranges(),
{
    let mut v: Vec<ClassUnicodeRange> = Vec::new();
    assert(rview(v@) =~= Seq::<SRange>::empty());
    push_nandinagari_scx_chunk_0(&mut v);
    assert(rview(v@) =~= nandinagari_scx_chunk_0());
    push_nandinagari_scx_chunk_1(&mut v);
    assert(rview(v@) =~= nandinagari_scx_chunk_0() + nandinagari_scx_chunk_1());
    v
}

pub open spec fn new_tai_lue_scx_chunk_0() -> Seq<SRange> {
    seq![(0x1980int, 0x19ABint), (0x19B0int, 0x19C9int), (0x19D0int, 0x19DAint), (0x19DEint, 0x19DFint)]
}

/// The ranges of the property New_Tai_Lue.
pub open spec fn new_tai_lue_scx_ranges() -> Seq<SRange> {
    new_tai_lue_scx_chunk_0()
}

pub proof fn lemma_new_tai_lue_scx_canonical()
    ensures
        canonical(new_tai_lue_scx_ranges()),
{
    reveal_with_fuel(canonical, 9);
    assert(canonical(new_tai_lue_scx_chunk_0()));
}

fn push_new_tai_lue_scx_chunk_0(v: &mut Vec<ClassUnicodeRange>)
    ensures
        rview(final(v)@) == rview(old(v)@) + new_tai_lue_scx_chunk_0(),
{
    let ghost o = rview(v@);
    push_range(v, '\u{1980}', '\u{19AB}');
    push_range(v, '\u{19B0}', '\u{19C9}');
    push_range(v, '\u{19D0}', '\u{19DA}');
    push_range(v, '\u{19DE}', '\u{19DF}');
    assert(rview(v@) =~= o + new_tai_lue_scx_chunk_0());
}

pub fn new_tai_lue_scx_class() -> (v: Vec<ClassUnicodeRange>)
    ensures
        rview(v@) == new_tai_lue_scx_ranges(),
{
    let mut v: Vec<ClassUnicodeRange> = Vec::new();
    assert(rview(v@) =~= Seq::<SRange>::empty());
    push_new_tai_lue_scx_chunk_0(&mut v);
    assert(rview(v@) =~= new_tai_lue_scx_chunk_0());
    v
}

pub open spec fn newa_scx_chunk_0() -> Seq<SRange> {
    seq![(0x11400int, 0x1145Bint), (0x1145Dint, 0x11461int)]
}

/// The ranges of the property Newa.
pub open spec fn newa_scx_ranges() -> Seq<SRange> {
    newa_scx_chunk_0()
}

pub proof fn lemma_newa_scx_canonical()
    ensures
        canonical(newa_scx_ranges()),
{
    reveal_with_fuel(canonical, 9);
    assert(canonical(newa_scx_chunk_0()));
}

fn push_newa_scx_chunk_0(v: &mut Vec<ClassUnicodeRange>)
    ensures
        rview(final(v)@) == rview(old(v)@) + newa_scx_chunk_0(),
{
    let ghost o = rview(v@);
    push_range(v, '\u{11400}', '\u{1145B}');
    push_range(v, '\u{1145D}', '\u{11461}');
    assert(rview(v@) =~= o + newa_scx_chunk_0());
}

pub fn newa_scx_class() -> (v: Vec<ClassUnicodeRange>)
    ensures
        rview(v@) == newa_scx_ranges(),
{
    let mut v: Vec<ClassUnicodeRange> = Vec::new();
    assert(rview(v@) =~= Seq::<SRange>::empty());
    push_newa_scx_chunk_0(&mut v);
    assert(rview(v@) =~= newa_scx_chunk_0());
    v
}

pub open spec fn nko_scx_chunk_0() -> Seq<SRange> {
    seq![(0x60Cint, 0x60Cint), (0x61Bint, 0x61Bint), (0x61Fint, 0x61Fint), (0x7C0int, 0x7FAint), (0x7FDint, 0x7FFint), (0xFD3Eint, 0xFD3Fint)]
}

/// The ranges of the property Nko.
pub open spec fn nko_scx_ranges() -> Seq<SRange> {
    nko_scx_chunk_0()
}

pub proof fn lemma_nko_scx_canonical()
    ensures
        canonical(nko_scx_ranges()),
{
    reveal_with_fuel(canonical, 9);
    assert(canonical(nko_scx_chunk_0()));
}

fn push_nko_scx_chunk_0(v: &mut Vec<ClassUnicodeRange>)
    ensures
        rview(final(v)@) == rview(old(v)@) + nko_scx_chunk_0(),
{
    let ghost o = rview(v@);
    push_range(v, '\u{60C}', '\u{60C}');
    push_range(v, '\u{61B}', '\u{61B}');
    push_range(v, '\u{61F}', '\u{61F}');
    push_range(v, '\u{7C0}', '\u{7FA}');
    push_range(v, '\u{7FD}', '\u{7FF}');
    push_range(v, '\u{FD3E}', '\u{FD3F}');
    assert(rview(v@) =~= o + nko_scx_chunk_0());
}

pub fn nko_scx_class() -> (v: Vec<ClassUnicodeRange>)
    ensures
        rview(v@) == nko_scx_ranges(),
{
    let mut v: Vec<ClassUnicodeRange> = Vec::new();
    assert(rview(v@) =~= Seq::<SRange>::empty());
    push_nko_scx_chunk_0(&mut v);
    assert(rview(v@) =~= nko_scx_chunk_0());
    v
}

pub open spec fn nushu_scx_chunk_0() -> Seq<SRange> {
    seq![(0x16FE1int, 0x16FE1int), (0x1B170int, 0x1B2FBint)]
}

/// The ranges of the property Nushu.
pub open spec fn nushu_scx_ranges() -> Seq<SRange> {
    nushu_scx_chunk_0()
}

pub proof fn lemma_nushu_scx_canonical()
    ensures
        canonical(nushu_scx_ranges()),
{
    reveal_with_fuel(canonical, 9);
    assert(canonical(nushu_scx_chunk_0()));
}

fn push_nushu_scx_chunk_0(v: &mut Vec<ClassUnicodeRange>)
    ensures
        rview(final(v)@) == rview(old(v)@) + nushu_scx_chunk_0(),
{
    let ghost o = rview(v@);
    push_range(v, '\u{16FE1}', '\u{16FE1}');
    push_range(v, '\u{1B170}', '\u{1B2FB}');
    assert(rview(v@) =~= o + nushu_scx_chunk_0());
}

pub fn nushu_scx_class() -> (v: Vec<ClassUnicodeRange>)
    ensures
        rview(v@) == nushu_scx_ranges(),
{
    let mut v: Vec<ClassUnicodeRange> = Vec::new();
    assert(rview(v@) =~= Seq::<SRange>::empty());
    push_nushu_scx_chunk_0(&mut v);
    assert(rview(v@) =~= nushu_scx_chunk_0());
    v
}

pub open spec fn nyiakeng_puachue_hmong_scx_chunk_0() -> Seq<SRange> {
    seq![(0x1E100int, 0x1E12Cint), (0x1E130int, 0x1E13Dint), (0x1E140int, 0x1E149int), (0x1E14Eint, 0x1E14Fint)]
}

/// The ranges of the property Nyiakeng_Puachue_Hmong.
pub open spec fn nyiakeng_puachue_hmong_scx_ranges() -> Seq<SRange> {
    nyiakeng_puachue_hmong_scx_chunk_0()
}

pub proof fn lemma_nyiakeng_puachue_hmong_scx_canonical()
    ensures
        canonical(nyiakeng_puachue_hmong_scx_ranges()),
{
    reveal_with_fuel(canonical, 9);
    assert(canonical(nyiakeng_puachue_hmong_scx_chunk_0()));
}

fn push_nyiakeng_puachue_hmong_scx_chunk_0(v: &mut Vec<ClassUnicodeRange>)
    ensures
        rview(final(v)@) == rview(old(v)@) + nyiakeng_puachue_hmong_scx_chunk_0(),
{
    let ghost o = rview(v@);
    push_range(v, '\u{1E100}', '\u{1E12C}');
    push_range(v, '\u{1E130}', '\u{1E13D}');
    push_range(v, '\u{1E140}', '\u{1E149}');
    push_range(v, '\u{1E14E}', '\u{1E14F}');
    assert(rview(v@) =~= o + nyiakeng_puachue_hmong_scx_chunk_0());
}

pub fn nyiakeng_puachue_hmong_scx_class() -> (v: Vec<ClassUnicodeRange>)
    ensures
        rview(v@) == nyiakeng_puachue_hmong_scx_ranges(),
{
    let mut v: Vec<ClassUnicodeRange> = Vec::new();
    assert(rview(v@) =~= Seq::<SRange>::empty());
    push_nyiakeng_puachue_hmong_scx_chunk_0(&mut v);
    assert(rview(v@) =~= nyiakeng_puachue_hmong_scx_chunk_0());
    v
}

pub open spec fn ogham_scx_chunk_0() -> Seq<SRange> {
    seq![(0x1680int, 0x169Cint)]
}

/// The ranges of the property Ogham.
pub open spec fn ogham_scx_ranges() -> Seq<SRange> {
    ogham_scx_chunk_0()
}

pub proof fn lemma_ogham_scx_canonical()
    ensures
        canonical(ogham_scx_ranges()),
{
    reveal_with_fuel(canonical, 9);
    assert(canonical(ogham_scx_chunk_0()));
}

fn push_ogham_scx_chunk_0(v: &mut Vec<ClassUnicodeRange>)
    ensures
        rview(final(v)@) == rview(old(v)@) + ogham_scx_chunk_0(),
{
    let ghost o = rview(v@);
    push_range(v, '\u{1680}', '\u{169C}');
    assert(rview(v@) =~= o + ogham_scx_chunk_0());
}

pub fn ogham_scx_class() -> (v: Vec<ClassUnicodeRange>)
    ensures
        rview(v@) == ogham_scx_ranges(),
{
    let mut v: Vec<ClassUnicodeRange> = Vec::new();
    assert(rview(v@) =~= Seq::<SRange>::empty());
    push_ogham_scx_chunk_0(&mut v);
    assert(rview(v@) =~= ogham_scx_chunk_0());
    v
}

pub open spec fn ol_chiki_scx_chunk_0() -> Seq<SRange> {
    seq![(0x1C50int, 0x1C7Fint)]
}

/// The ranges of the property Ol_Chiki.
pub open spec fn ol_chiki_scx_ranges() -> Seq<SRange> {
    ol_chiki_scx_chunk_0()
}

pub proof fn lemma_ol_chiki_scx_canonical()
    ensures
        canonical(ol_chiki_scx_ranges()),
{
    reveal_with_fuel(canonical, 9);
    assert(canonical(ol_chiki_scx_chunk_0()));
}

fn push_ol_chiki_scx_chunk_0(v: &mut Vec<ClassUnicodeRange>)
    ensures
        rview(final(v)@) == rview(old(v)@) + ol_chiki_scx_chunk_0(),
{
    let ghost o = rview(v@);
    push_range(v, '\u{1C50}', '\u{1C7F}');
    assert(rview(v@) =~= o + ol_chiki_scx_chunk_0());
}

pub fn ol_chiki_scx_class() -> (v: Vec<ClassUnicodeRange>)
    ensures
        rview(v@) == ol_chiki_scx_ranges(),
{
    let mut v: Vec<ClassUnicodeRange> = Vec::new();
    assert(rview(v@) =~= Seq::<SRange>::empty());
    push_ol_chiki_scx_chunk_0(&mut v);
    assert(rview(v@) =~= ol_chiki_scx_chunk_0());
    v
}

pub open spec fn ol_onal_scx_chunk_0() -> Seq<SRange> {
    seq![(0x964int, 0x965int), (0x1E5D0int, 0x1E5FAint), (0x1E5FFint, 0x1E5FFint)]
}

/// The ranges of the property Ol_Onal.
pub open spec fn ol_onal_scx_ranges() -> Seq<SRange> {
    ol_onal_scx_chunk_0()
}

pub proof fn lemma_ol_onal_scx_canonical()
    ensures
        canonical(ol_onal_scx_ranges()),
{
    reveal_with_fuel(canonical, 9);
    assert(canonical(ol_onal_scx_chunk_0()));
}

fn push_ol_onal_scx_chunk_0(v: &mut Vec<ClassUnicodeRange>)
    ensures
        rview(final(v)@) == rview(old(v)@) + ol_onal_scx_chunk_0(),
{
    let ghost o = rview(v@);
    push_range(v, '\u{964}', '\u{965}');
    push_range(v, '\u{1E5D0}', '\u{1E5FA}');
    push_range(v, '\u{1E5FF}', '\u{1E5FF}');
    assert(rview(v@) =~= o + ol_onal_scx_chunk_0());
}

pub fn ol_onal_scx_class() -> (v: Vec<ClassUnicodeRange>)
    ensures
        rview(v@) == ol_onal_scx_ranges(),
{
    let mut v: Vec<ClassUnicodeRange> = Vec::new();
    assert(rview(v@) =~= Seq::<SRange>::empty());
    push_ol_onal_scx_chunk_0(&mut v);
    assert(rview(v@) =~= ol_onal_scx_chunk_0());
    v
}

pub open spec fn old_hungarian_scx_chunk_0() -> Seq<SRange> {
    seq![(0x205Aint, 0x205Aint), (0x205Dint, 0x205Dint), (0x2E31int, 0x2E31int), (0x2E41int, 0x2E41int), (0x10C80int, 0x10CB2int), (0x10CC0int, 0x10CF2int), (0x10CFAint, 0x10CFFint)]
}

/// The ranges of the property Old_Hungarian.
pub open spec fn old_hungarian_scx_ranges() -> Seq<SRange> {
    old_hungarian_scx_chunk_0()
}

pub proof fn lemma_old_hungarian_scx_canonical()
    ensures
        canonical(old_hungarian_scx_ranges()),
{
    reveal_with_fuel(canonical, 9);
    assert(canonical(old_hungarian_scx_chunk_0()));
}

fn push_old_hungarian_scx_chunk_0(v: &mut Vec<ClassUnicodeRange>)
    ensures
        rview(final(v)@) == rview(old(v)@) + old_hungarian_scx_chunk_0(),
{
    let ghost o = rview(v@);
    push_range(v, '\u{205A}', '\u{205A}');
    push_range(v, '\u{205D}', '\u{205D}');
    push_range(v, '\u{2E31}', '\u{2E31}');
    push_range(v, '\u{2E41}', '\u{2E41}');
    push_range(v, '\u{10C80}', '\u{10CB2}');
    push_range(v, '\u{10CC0}', '\u{10CF2}');
    push_range(v, '\u{10CFA}', '\u{10CFF}');
    assert(rview(v@) =~= o + old_hungarian_scx_chunk_0());
}

pub fn old_hungarian_scx_class() -> (v: Vec<ClassUnicodeRange>)
    ensures
        rview(v@) == old_hungarian_scx_ranges(),
{
    let mut v: Vec<ClassUnicodeRange> = Vec::new();
    assert(rview(v@) =~= Seq::<SRange>::empty());
    push_old_hungarian_scx_chunk_0(&mut v);
    assert(rview(v@) =~= old_hungarian_scx_chunk_0());
    v
}

pub open spec fn old_italic_scx_chunk_0() -> Seq<SRange> {
    seq![(0x10300int, 0x10323int), (0x1032Dint, 0x1032Fint)]
}

/// The ranges of the property Old_Italic.
pub open spec fn old_italic_scx_ranges() -> Seq<SRange> {
    old_italic_scx_chunk_0()
}

pub proof fn lemma_old_italic_scx_canonical()
    ensures
        canonical(old_italic_scx_ranges()),
{
    reveal_with_fuel(canonical, 9);
    assert(canonical(old_italic_scx_chunk_0()));
}

fn push_old_italic_scx_chunk_0(v: &mut Vec<ClassUnicodeRange>)
    ensures
        rview(final(v)@) == rview(old(v)@) + old_italic_scx_chunk_0(),
{
    let ghost o = rview(v@);
    push_range(v, '\u{10300}', '\u{10323}');
    push_range(v, '\u{1032D}', '\u{1032F}');
    assert(rview(v@) =~= o + old_italic_scx_chunk_0());
}

pub fn old_italic_scx_class() -> (v: Vec<ClassUnicodeRange>)
    ensures
        rview(v@) == old_italic_scx_ranges(),
{
    let mut v: Vec<ClassUnicodeRange> = Vec::new();
    assert(rview(v@) =~= Seq::<SRange>::empty());
    push_old_italic_scx_chunk_0(&mut v);
    assert(rview(v@) =~= old_italic_scx_chunk_0());
    v
}

pub open spec fn old_north_arabian_scx_chunk_0() -> Seq<SRange> {
    seq![(0x10A80int, 0x10A9Fint)]
}

/// The ranges of the property Old_North_Arabian.
pub open spec fn old_north_arabian_scx_ranges() -> Seq<SRange> {
    old_north_arabian_scx_chunk_0()
}

pub proof fn lemma_old_north_arabian_scx_canonical()
    ensures
        canonical(old_north_arabian_scx_ranges()),
{
    reveal_with_fuel(canonical, 9);
    assert(canonical(old_north_arabian_scx_chunk_0()));
}

fn push_old_north_arabian_scx_chunk_0(v: &mut Vec<ClassUnicodeRange>)
    ensures
        rview(final(v)@) == rview(old(v)@) + old_north_arabian_scx_chunk_0(),
{
    let ghost o = rview(v@);
    push_range(v, '\u{10A80}', '\u{10A9F}');
    assert(rview(v@) =~= o + old_north_arabian_scx_chunk_0());
}

pub fn old_north_arabian_scx_class() -> (v: Vec<ClassUnicodeRange>)
    ensures
        rview(v@) == old_north_arabian_scx_ranges(),
{
    let mut v: Vec<ClassUnicodeRange> = Vec::new();
    assert(rview(v@) =~= Seq::<SRange>::empty());
    push_old_north_arabian_scx_chunk_0(&mut v);
    assert(rview(v@) =~= old_north_arabian_scx_chunk_0());
    v
}

pub open spec fn old_permic_scx_chunk_0() -> Seq<SRange> {
    seq![(0xB7int, 0xB7int), (0x300int, 0x300int), (0x306int, 0x308int), (0x313int, 0x313int), (0x483int, 0x483int), (0x10350int, 0x1037Aint)]
}

/// The ranges of the property Old_Permic.
pub open spec fn old_permic_scx_ranges() -> Seq<SRange> {
    old_permic_scx_chunk_0()
}

pub proof fn lemma_old_permic_scx_canonical()
    ensures
        canonical(old_permic_scx_ranges()),
{
    reveal_with_fuel(canonical, 9);
    assert(canonical(old_permic_scx_chunk_0()));
}

fn push_old_permic_scx_chunk_0(v: &mut Vec<ClassUnicodeRange>)
    ensures
        rview(final(v)@) == rview(old(v)@) + old_permic_scx_chunk_0(),
{
    let ghost o = rview(v@);
    push_range(v, '\u{B7}', '\u{B7}');
    push_range(v, '\u{300}', '\u{300}');
    push_range(v, '\u{306}', '\u{308}');
    push_range(v, '\u{313}', '\u{313}');
    push_range(v, '\u{483}', '\u{483}');
    push_range(v, '\u{10350}', '\u{1037A}');
    assert(rview(v@) =~= o + old_permic_scx_chunk_0());
}

pub fn old_permic_scx_class() -> (v: Vec<ClassUnicodeRange>)
    ensures
        rview(v@) == old_permic_scx_ranges(),
{
    let mut v: Vec<ClassUnicodeRange> = Vec::new();
    assert(rview(v@) =~= Seq::<SRange>::empty());
    push_old_permic_scx_chunk_0(&mut v);
    assert(rview(v@) =~= old_permic_scx_chunk_0());
    v
}

pub open spec fn old_persian_scx_chunk_0() -> Seq<SRange> {
    seq![(0x103A0int, 0x103C3int), (0x103C8int, 0x103D5int)]
}

/// The ranges of the property Old_Persian.
pub open spec fn old_persian_scx_ranges() -> Seq<SRange> {
    old_persian_scx_chunk_0()
}

pub proof fn lemma_old_persian_scx_canonical()
    ensures
        canonical(old_persian_scx_ranges()),
{
    reveal_with_fuel(canonical, 9);
    assert(canonical(old_persian_scx_chunk_0()));
}

fn push_old_persian_scx_chunk_0(v: &mut Vec<ClassUnicodeRange>)
    ensures
        rview(final(v)@) == rview(old(v)@) + old_persian_scx_chunk_0(),
{
    let ghost o = rview(v@);
    push_range(v, '\u{103A0}', '\u{103C3}');
    push_range(v, '\u{103C8}', '\u{103D5}');
    assert(rview(v@) =~= o + old_persian_scx_chunk_0());
}

pub fn old_persian_scx_class() -> (v: Vec<ClassUnicodeRange>)
    ensures
        rview(v@) == old_persian_scx_ranges(),
{
    let mut v: Vec<ClassUnicodeRange> = Vec::new();
    assert(rview(v@) =~= Seq::<SRange>::empty());
    push_old_persian_scx_chunk_0(&mut v);
    assert(rview(v@) =~= old_persian_scx_chunk_0());
    v
}

pub open spec fn old_sogdian_scx_chunk_0() -> Seq<SRange> {
    seq![(0x10F00int, 0x10F27int)]
}

/// The ranges of the property Old_Sogdian.
pub open spec fn old_sogdian_scx_ranges() -> Seq<SRange> {
    old_sogdian_scx_chunk_0()
}

pub proof fn lemma_old_sogdian_scx_canonical()
    ensures
        canonical(old_sogdian_scx_ranges()),
{
    reveal_with_fuel(canonical, 9);
    assert(canonical(old_sogdian_scx_chunk_0()));
}

fn push_old_sogdian_scx_chunk_0(v: &mut Vec<ClassUnicodeRange>)
    ensures
        rview(final(v)@) == rview(old(v)@) + old_sogdian_scx_chunk_0(),
{
    let ghost o = rview(v@);
    push_range(v, '\u{10F00}', '\u{10F27}');
    assert(rview(v@) =~= o + old_sogdian_scx_chunk_0());
}

pub fn old_sogdian_scx_class() -> (v: Vec<ClassUnicodeRange>)
    ensures
        rview(v@) == old_sogdian_scx_ranges(),
{
    let mut v: Vec<ClassUnicodeRange> = Vec::new();
    assert(rview(v@) =~= Seq::<SRange>::empty());
    push_old_sogdian_scx_chunk_0(&mut v);
    assert(rview(v@) =~= old_sogdian_scx_chunk_0());
    v
}

pub open spec fn old_south_arabian_scx_chunk_0() -> Seq<SRange> {
    seq![(0x10A60int, 0x10A7Fint)]
}

/// The ranges of the property Old_South_Arabian.
pub open spec fn old_south_arabian_scx_ranges() -> Seq<SRange> {
    old_south_arabian_scx_chunk_0()
}

pub proof fn lemma_old_south_arabian_scx_canonical()
    ensures
        canonical(old_south_arabian_scx_ranges()),
{
    reveal_with_fuel(canonical, 9);
    assert(canonical(old_south_arabian_scx_chunk_0()));
}

fn push_old_south_arabian_scx_chunk_0(v: &mut Vec<ClassUnicodeRange>)
    ensures
        rview(final(v)@) == rview(old(v)@) + old_south_arabian_scx_chunk_0(),
{
    let ghost o = rview(v@);
    push_range(v, '\u{10A60}', '\u{10A7F}');
    assert(rview(v@) =~= o + old_south_arabian_scx_chunk_0());
}

pub fn old_south_arabian_scx_class() -> (v: Vec<ClassUnicodeRange>)
    ensures
        rview(v@) == old_south_arabian_scx_ranges(),
{
    let mut v: Vec<ClassUnicodeRange> = Vec::new();
    assert(rview(v@) =~= Seq::<SRange>::empty());
    push_old_south_arabian_scx_chunk_0(&mut v);
    assert(rview(v@) =~= old_south_arabian_scx_chunk_0());
    v
}

pub open spec fn old_turkic_scx_chunk_0() -> Seq<SRange> {
    seq![(0x205Aint, 0x205Aint), (0x2E30int, 0x2E30int), (0x10C00int, 0x10C48int)]
}

/// The ranges of the property Old_Turkic.
pub open spec fn old_turkic_scx_ranges() -> Seq<SRange> {
    old_turkic_scx_chunk_0()
}

pub proof fn lemma_old_turkic_scx_canonical()
    ensures
        canonical(old_turkic_scx_ranges()),
{
    reveal_with_fuel(canonical, 9);
    assert(canonical(old_turkic_scx_chunk_0()));
}

fn push_old_turkic_scx_chunk_0(v: &mut Vec<ClassUnicodeRange>)
    ensures
        rview(final(v)@) == rview(old(v)@) + old_turkic_scx_chunk_0(),
{
    let ghost o = rview(v@);
    push_range(v, '\u{205A}', '\u{205A}');
    push_range(v, '\u{2E30}', '\u{2E30}');
    push_range(v, '\u{10C00}', '\u{10C48}');
    assert(rview(v@) =~= o + old_turkic_scx_chunk_0());
}

pub fn old_turkic_scx_class() -> (v: Vec<ClassUnicodeRange>)
    ensures
        rview(v@) == old_turkic_scx_ranges(),
{
    let mut v: Vec<ClassUnicodeRange> = Vec::new();
    assert(rview(v@) =~= Seq::<SRange>::empty());
    push_old_turkic_scx_chunk_0(&mut v);
    assert(rview(v@) =~= old_turkic_scx_chunk_0());
    v
}

pub open spec fn old_uyghur_scx_chunk_0() -> Seq<SRange> {
    seq![(0x640int, 0x640int), (0x10AF2int, 0x10AF2int), (0x10F70int, 0x10F89int)]
}

/// The ranges of the property Old_Uyghur.
pub open spec fn old_uyghur_scx_ranges() -> Seq<SRange> {
    old_uyghur_scx_chunk_0()
}

pub proof fn lemma_old_uyghur_scx_canonical()
    ensures
        canonical(old_uyghur_scx_ranges()),
{
    reveal_with_fuel(canonical, 9);
    assert(canonical(old_uyghur_scx_chunk_0()));
}

fn push_old_uyghur_scx_chunk_0(v: &mut Vec<ClassUnicodeRange>)
    ensures
        rview(final(v)@) == rview(old(v)@) + old_uyghur_scx_chunk_0(),
{
    let ghost o = rview(v@);
    push_range(v, '\u{640}', '\u{640}');
    push_range(v, '\u{10AF2}', '\u{10AF2}');
    push_range(v, '\u{10F70}', '\u{10F89}');
    assert(rview(v@) =~= o + old_uyghur_scx_chunk_0());
}

pub fn old_uyghur_scx_class() -> (v: Vec<ClassUnicodeRange>)
    ensures
        rview(v@) == old_uyghur_scx_ranges(),
{
    let mut v: Vec<ClassUnicodeRange> = Vec::new();
    assert(rview(v@) =~= Seq::<SRange>::empty());
    push_old_uyghur_scx_chunk_0(&mut v);
    assert(rview(v@) =~= old_uyghur_scx_chunk_0());
    v
}

pub open spec fn oriya_scx_chunk_0() -> Seq<SRange> {
    seq![(0x951int, 0x952int), (0x964int, 0x965int), (0xB01int, 0xB03int), (0xB05int, 0xB0Cint), (0xB0Fint, 0xB10int), (0xB13int, 0xB28int), (0xB2Aint, 0xB30int), (0xB32int, 0xB33int)]
}

pub open spec fn oriya_scx_chunk_1() -> Seq<SRange> {
    seq![(0xB35int, 0xB39int), (0xB3Cint, 0xB44int), (0xB47int, 0xB48int), (0xB4Bint, 0xB4Dint), (0xB55int, 0xB57int), (0xB5Cint, 0xB5Dint), (0xB5Fint, 0xB63int), (0xB66int, 0xB77int)]
}

pub open spec fn oriya_scx_chunk_2() -> Seq<SRange> {
    seq![(0x1CDAint, 0x1CDAint), (0x1CF2int, 0x1CF2int)]
}

/// The ranges of the property Oriya.
pub open spec fn oriya_scx_ranges() -> Seq<SRange> {
    oriya_scx_chunk_0() + oriya_scx_chunk_1() + oriya_scx_chunk_2()
}

pub proof fn lemma_oriya_scx_canonical()
    ensures
        canonical(oriya_scx_ranges()),
{
    reveal_with_fuel(canonical, 9);
    assert(canonical(oriya_scx_chunk_0()));
    assert(canonical(oriya_scx_chunk_1()));
    assert(canonical(oriya_scx_chunk_2()));
    lemma_canonical_append(oriya_scx_chunk_0(), oriya_scx_chunk_1());
    lemma_canonical_append(oriya_scx_chunk_0() + oriya_scx_chunk_1(), oriya_scx_chunk_2());
}

fn push_oriya_scx_chunk_0(v: &mut Vec<ClassUnicodeRange>)
    ensures
        rview(final(v)@) == rview(old(v)@) + oriya_scx_chunk_0(),
{
    let ghost o = rview(v@);
    push_range(v, '\u{951}', '\u{952}');
    push_range(v, '\u{964}', '\u{965}');
    push_range(v, '\u{B01}', '\u{B03}');
    push_range(v, '\u{B05}', '\u{B0C}');
    push_range(v, '\u{B0F}', '\u{B10}');
    push_range(v, '\u{B13}', '\u{B28}');
    push_range(v, '\u{B2A}', '\u{B30}');
    push_range(v, '\u{B32}', '\u{B33}');
    assert(rview(v@) =~= o + oriya_scx_chunk_0());
}

fn push_oriya_scx_chunk_1(v: &mut Vec<ClassUnicodeRange>)
    ensures
        rview(final(v)@) == rview(old(v)@) + oriya_scx_chunk_1(),
{
    let ghost o = rview(v@);
    push_range(v, '\u{B35}', '\u{B39}');
    push_range(v, '\u{B3C}', '\u{B44}');
    push_range(v, '\u{B47}', '\u{B48}');
    push_range(v, '\u{B4B}', '\u{B4D}');
    push_range(v, '\u{B55}', '\u{B57}');
    push_range(v, '\u{B5C}', '\u{B5D}');
    push_range(v, '\u{B5F}', '\u{B63}');
    push_range(v, '\u{B66}', '\u{B77}');
    assert(rview(v@) =~= o + oriya_scx_chunk_1());
}

fn push_oriya_scx_chunk_2(v: &mut Vec<ClassUnicodeRange>)
    ensures
        rview(final(v)@) == rview(old(v)@) + oriya_scx_chunk_2(),
{
    let ghost o = rview(v@);
    push_range(v, '\u{1CDA}', '\u{1CDA}');
    push_range(v, '\u{1CF2}', '\u{1CF2}');
    assert(rview(v@) =~= o + oriya_scx_chunk_2());
}

pub fn oriya_scx_class() -> (v: Vec<ClassUnicodeRange>)
    ensures
        rview(v@) == oriya_scx_ranges(),
{
    let mut v: Vec<ClassUnicodeRange> = Vec::new();
    assert(rview(v@) =~= Seq::<SRange>::empty());
    push_oriya_scx_chunk_0(&mut v);
    assert(rview(v@) =~= oriya_scx_chunk_0());
    push_oriya_scx_chunk_1(&mut v);
    assert(rview(v@) =~= oriya_scx_chunk_0() + oriya_scx_chunk_1());
    push_oriya_scx_chunk_2(&mut v);
    assert(rview(v@) =~= oriya_scx_chunk_0() + oriya_scx_chunk_1() + oriya_scx_chunk_2());
    v
}

pub open spec fn osage_scx_chunk_0() -> Seq<SRange> {
    seq![(0x301int, 0x301int), (0x304int, 0x304int), (0x30Bint, 0x30Bint), (0x358int, 0x358int), (0x104B0int, 0x104D3int), (0x104D8int, 0x104FBint)]
}

/// The ranges of the property Osage.
pub open spec fn osage_scx_ranges() -> Seq<SRange> {
    osage_scx_chunk_0()
}

pub proof fn lemma_osage_scx_canonical()
    ensures
        canonical(osage_scx_ranges()),
{
    reveal_with_fuel(canonical, 9);
    assert(canonical(osage_scx_chunk_0()));
}

fn push_osage_scx_chunk_0(v: &mut Vec<ClassUnicodeRange>)
    ensures
        rview(final(v)@) == rview(old(v)@) + osage_scx_chunk_0(),
{
    let ghost o = rview(v@);
    push_range(v, '\u{301}', '\u{301}');
    push_range(v, '\u{304}', '\u{304}');
    push_range(v, '\u{30B}', '\u{30B}');
    push_range(v, '\u{358}', '\u{358}');
    push_range(v, '\u{104B0}', '\u{104D3}');
    push_range(v, '\u{104D8}', '\u{104FB}');
    assert(rview(v@) =~= o + osage_scx_chunk_0());
}

pub fn osage_scx_class() -> (v: Vec<ClassUnicodeRange>)
    ensures
        rview(v@) == osage_scx_ranges(),
{
    let mut v: Vec<ClassUnicodeRange> = Vec::new();
    assert(rview(v@) =~= Seq::<SRange>::empty());
    push_osage_scx_chunk_0(&mut v);
    assert(rview(v@) =~= osage_scx_chunk_0());
    v
}

pub open spec fn osmanya_scx_chunk_0() -> Seq<SRange> {
    seq![(0x10480int, 0x1049Dint), (0x104A0int, 0x104A9int)]
}

/// The ranges of the property Osmanya.
pub open spec fn osmanya_scx_ranges() -> Seq<SRange> {
    osmanya_scx_chunk_0()
}

pub proof fn lemma_osmanya_scx_canonical()
    ensures
        canonical(osmanya_scx_ranges()),
{
    reveal_with_fuel(canonical, 9);
    assert(canonical(osmanya_scx_chunk_0()));
}

fn push_osmanya_scx_chunk_0(v: &mut Vec<ClassUnicodeRange>)
    ensures
        rview(final(v)@) == rview(old(v)@) + osmanya_scx_chunk_0(),
{
    let ghost o = rview(v@);
    push_range(v, '\u{10480}', '\u{1049D}');
    push_range(v, '\u{104A0}', '\u{104A9}');
    assert(rview(v@) =~= o + osmanya_scx_chunk_0());
}

pub fn osmanya_scx_class() -> (v: Vec<ClassUnicodeRange>)
    ensures
        rview(v@) == osmanya_scx_ranges(),
{
    let mut v: Vec<ClassUnicodeRange> = Vec::new();
    assert(rview(v@) =~= Seq::<SRange>::empty());
    push_osmanya_scx_chunk_0(&mut v);
    assert(rview(v@) =~= osmanya_scx_chunk_0());
    v
}

pub open spec fn pahawh_hmong_scx_chunk_0() -> Seq<SRange> {
    seq![(0x16B00int, 0x16B45int), (0x16B50int, 0x16B59int), (0x16B5Bint, 0x16B61int), (0x16B63int, 0x16B77int), (0x16B7Dint, 0x16B8Fint)]
}

/// The ranges of the property Pahawh_Hmong.
pub open spec fn pahawh_hmong_scx_ranges() -> Seq<SRange> {
    pahawh_hmong_scx_chunk_0()
}

pub proof fn lemma_pahawh_hmong_scx_canonical()
    ensures
        canonical(pahawh_hmong_scx_ranges()),
{
    reveal_with_fuel(canonical, 9);
    assert(canonical(pahawh_hmong_scx_chunk_0()));
}

fn push_pahawh_hmong_scx_chunk_0(v: &mut Vec<ClassUnicodeRange>)
    ensures
        rview(final(v)@) == rview(old(v)@) + pahawh_hmong_scx_chunk_0(),
{
    let ghost o = rview(v@);
    push_range(v, '\u{16B00}', '\u{16B45}');
    push_range(v, '\u{16B50}', '\u{16B59}');
    push_range(v, '\u{16B5B}', '\u{16B61}');
    push_range(v, '\u{16B63}', '\u{16B77}');
    push_range(v, '\u{16B7D}', '\u{16B8F}');
    assert(rview(v@) =~= o + pahawh_hmong_scx_chunk_0());
}

pub fn pahawh_hmong_scx_class() -> (v: Vec<ClassUnicodeRange>)
    ensures
        rview(v@) == pahawh_hmong_scx_ranges(),
{
    let mut v: Vec<ClassUnicodeRange> = Vec::new();
    assert(rview(v@) =~= Seq::<SRange>::empty());
    push_pahawh_hmong_scx_chunk_0(&mut v);
    assert(rview(v@) =~= pahawh_hmong_scx_chunk_0());
    v
}

pub open spec fn palmyrene_scx_chunk_0() -> Seq<SRange> {
    seq![(0x10860int, 0x1087Fint)]
}

/// The ranges of the property Palmyrene.
pub open spec fn palmyrene_scx_ranges() -> Seq<SRange> {
    palmyrene_scx_chunk_0()
}

pub proof fn lemma_palmyrene_scx_canonical()
    ensures
        canonical(palmyrene_scx_ranges()),
{
    reveal_with_fuel(canonical, 9);
    assert(canonical(palmyrene_scx_chunk_0()));
}

fn push_palmyrene_scx_chunk_0(v: &mut Vec<ClassUnicodeRange>)
    ensures
        rview(final(v)@) == rview(old(v)@) + palmyrene_scx_chunk_0(),
{
    let ghost o = rview(v@);
    push_range(v, '\u{10860}', '\u{1087F}');
    assert(rview(v@) =~= o + palmyrene_scx_chunk_0());
}

pub fn palmyrene_scx_class() -> (v: Vec<ClassUnicodeRange>)
    ensures
        rview(v@) == palmyrene_scx_ranges(),
{
    let mut v: Vec<ClassUnicodeRange> = Vec::new();
    assert(rview(v@) =~= Seq::<SRange>::empty());
    push_palmyrene_scx_chunk_0(&mut v);
    assert(rview(v@) =~= palmyrene_scx_chunk_0());
    v
}

pub open spec fn pau_cin_hau_scx_chunk_0() -> Seq<SRange> {
    seq![(0x11AC0int, 0x11AF8int)]
}

/// The ranges of the property Pau_Cin_Hau.
pub open spec fn pau_cin_hau_scx_ranges() -> Seq<SRange> {
    pau_cin_hau_scx_chunk_0()
}

pub proof fn lemma_pau_cin_hau_scx_canonical()
    ensures
        canonical(pau_cin_hau_scx_ranges()),
{
    reveal_with_fuel(canonical, 9);
    assert(canonical(pau_cin_hau_scx_chunk_0()));
}

fn push_pau_cin_hau_scx_chunk_0(v: &mut Vec<ClassUnicodeRange>)
    ensures
        rview(final(v)@) == rview(old(v)@) + pau_cin_hau_scx_chunk_0(),
{
    let ghost o = rview(v@);
    push_range(v, '\u{11AC0}', '\u{11AF8}');
    assert(rview(v@) =~= o + pau_cin_hau_scx_chunk_0());
}

pub fn pau_cin_hau_scx_class() -> (v: Vec<ClassUnicodeRange>)
    ensures
        rview(v@) == pau_cin_hau_scx_ranges(),
{
    let mut v: Vec<ClassUnicodeRange> = Vec::new();
    assert(rview(v@) =~= Seq::<SRange>::empty());
    push_pau_cin_hau_scx_chunk_0(&mut v);
    assert(rview(v@) =~= pau_cin_hau_scx_chunk_0());
    v
}

pub open spec fn phags_pa_scx_chunk_0() -> Seq<SRange> {
    seq![(0x1802int, 0x1803int), (0x1805int, 0x1805int), (0x202Fint, 0x202Fint), (0x3002int, 0x3002int), (0xA840int, 0xA877int)]
}

/// The ranges of the property Phags_Pa.
pub open spec fn phags_pa_scx_ranges() -> Seq<SRange> {
    phags_pa_scx_chunk_0()
}

pub proof fn lemma_phags_pa_scx_canonical()
    ensures
        canonical(phags_pa_scx_ranges()),
{
    reveal_with_fuel(canonical, 9);
    assert(canonical(phags_pa_scx_chunk_0()));
}

fn push_phags_pa_scx_chunk_0(v: &mut Vec<ClassUnicodeRange>)
    ensures
        rview(final(v)@) == rview(old(v)@) + phags_pa_scx_chunk_0(),
{
    let ghost o = rview(v@);
    push_range(v, '\u{1802}', '\u{1803}');
    push_range(v, '\u{1805}', '\u{1805}');
    push_range(v, '\u{202F}', '\u{202F}');
    push_range(v, '\u{3002}', '\u{3002}');
    push_range(v, '\u{A840}', '\u{A877}');
    assert(rview(v@) =~= o + phags_pa_scx_chunk_0());
}

pub fn phags_pa_scx_class() -> (v: Vec<ClassUnicodeRange>)
    ensures
        rview(v@) == phags_pa_scx_ranges(),
{
    let mut v: Vec<ClassUnicodeRange> = Vec::new();
    assert(rview(v@) =~= Seq::<SRange>::empty());
    push_phags_pa_scx_chunk_0(&mut v);
    assert(rview(v@) =~= phags_pa_scx_chunk_0());
    v
}

pub open spec fn phoenician_scx_chunk_0() -> Seq<SRange> {
    seq![(0x10900int, 0x1091Bint), (0x1091Fint, 0x1091Fint)]
}

/// The ranges of the property Phoenician.
pub open spec fn phoenician_scx_ranges() -> Seq<SRange> {
    phoenician_scx_chunk_0()
}

pub proof fn lemma_phoenician_scx_canonical()
    ensures
        canonical(phoenician_scx_ranges()),
{
    reveal_with_fuel(canonical, 9);
    assert(canonical(phoenician_scx_chunk_0()));
}

fn push_phoenician_scx_chunk_0(v: &mut Vec<ClassUnicodeRange>)
    ensures
        rview(final(v)@) == rview(old(v)@) + phoenician_scx_chunk_0(),
{
    let ghost o = rview(v@);
    push_range(v, '\u{10900}', '\u{1091B}');
    push_range(v, '\u{1091F}', '\u{1091F}');
    assert(rview(v@) =~= o + phoenician_scx_chunk_0());
}

pub fn phoenician_scx_class() -> (v: Vec<ClassUnicodeRange>)
    ensures
        rview(v@) == phoenician_scx_ranges(),
{
    let mut v: Vec<ClassUnicodeRange> = Vec::new();
    assert(rview(v@) =~= Seq::<SRange>::empty());
    push_phoenician_scx_chunk_0(&mut v);
    assert(rview(v@) =~= phoenician_scx_chunk_0());
    v
}

pub open spec fn psalter_pahlavi_scx_chunk_0() -> Seq<SRange> {
    seq![(0x640int, 0x640int), (0x10B80int, 0x10B91int), (0x10B99int, 0x10B9Cint), (0x10BA9int, 0x10BAFint)]
}

/// The ranges of the property Psalter_Pahlavi.
pub open spec fn psalter_pahlavi_scx_ranges() -> Seq<SRange> {
    psalter_pahlavi_scx_chunk_0()
}

pub proof fn lemma_psalter_pahlavi_scx_canonical()
    ensures
        canonical(psalter_pahlavi_scx_ranges()),
{
    reveal_with_fuel(canonical, 9);
    assert(canonical(psalter_pahlavi_scx_chunk_0()));
}

fn push_psalter_pahlavi_scx_chunk_0(v: &mut Vec<ClassUnicodeRange>)
    ensures
        rview(final(v)@) == rview(old(v)@) + psalter_pahlavi_scx_chunk_0(),
{
    let ghost o = rview(v@);
    push_range(v, '\u{640}', '\u{640}');
    push_range(v, '\u{10B80}', '\u{10B91}');
    push_range(v, '\u{10B99}', '\u{10B9C}');
    push_range(v, '\u{10BA9}', '\u{10BAF}');
    assert(rview(v@) =~= o + psalter_pahlavi_scx_chunk_0());
}

pub fn psalter_pahlavi_scx_class() -> (v: Vec<ClassUnicodeRange>)
    ensures
        rview(v@) == psalter_pahlavi_scx_ranges(),
{
    let mut v: Vec<ClassUnicodeRange> = Vec::new();
    assert(rview(v@) =~= Seq::<SRange>::empty());
    push_psalter_pahlavi_scx_chunk_0(&mut v);
    assert(rview(v@) =~= psalter_pahlavi_scx_chunk_0());
    v
}

pub open spec fn rejang_scx_chunk_0() -> Seq<SRange> {
    seq![(0xA930int, 0xA953int), (0xA95Fint, 0xA95Fint)]
}

/// The ranges of the property Rejang.
pub open spec fn rejang_scx_ranges() -> Seq<SRange> {
    rejang_scx_chunk_0()
}

pub proof fn lemma_rejang_scx_canonical()
    ensures
        canonical(rejang_scx_ranges()),
{
    reveal_with_fuel(canonical, 9);
    assert(canonical(rejang_scx_chunk_0()));
}

fn push_rejang_scx_chunk_0(v: &mut Vec<ClassUnicodeRange>)
    ensures
        rview(final(v)@) == rview(old(v)@) + rejang_scx_chunk_0(),
{
    let ghost o = rview(v@);
    push_range(v, '\u{A930}', '\u{A953}');
    push_range(v, '\u{A95F}', '\u{A95F}');
    assert(rview(v@) =~= o + rejang_scx_chunk_0());
}

pub fn rejang_scx_class() -> (v: Vec<ClassUnicodeRange>)
    ensures
        rview(v@) == rejang_scx_ranges(),
{
    let mut v: Vec<ClassUnicodeRange> = Vec::new();
    assert(rview(v@) =~= Seq::<SRange>::empty());
    push_rejang_scx_chunk_0(&mut v);
    assert(rview(v@) =~= rejang_scx_chunk_0());
    v
}

pub open spec fn runic_scx_chunk_0() -> Seq<SRange> {
    seq![(0x16A0int, 0x16F8int)]
}

/// The ranges of the property Runic.
pub open spec fn runic_scx_ranges() -> Seq<SRange> {
    runic_scx_chunk_0()
}

pub proof fn lemma_runic_scx_canonical()
    ensures
        canonical(runic_scx_ranges()),
{
    reveal_with_fuel(canonical, 9);
    assert(canonical(runic_scx_chunk_0()));
}

fn push_runic_scx_chunk_0(v: &mut Vec<ClassUnicodeRange>)
    ensures
        rview(final(v)@) == rview(old(v)@) + runic_scx_chunk_0(),
{
    let ghost o = rview(v@);
    push_range(v, '\u{16A0}', '\u{16F8}');
    assert(rview(v@) =~= o + runic_scx_chunk_0());
}

pub fn runic_scx_class() -> (v: Vec<ClassUnicodeRange>)
    ensures
        rview(v@) == runic_scx_ranges(),
{
    let mut v: Vec<ClassUnicodeRange> = Vec::new();
    assert(rview(v@) =~= Seq::<SRange>::empty());
    push_runic_scx_chunk_0(&mut v);
    assert(rview(v@) =~= runic_scx_chunk_0());
    v
}

pub open spec fn samaritan_scx_chunk_0() -> Seq<SRange> {
    seq![(0x800int, 0x82Dint), (0x830int, 0x83Eint), (0x2E31int, 0x2E31int)]
}

/// The ranges of the property Samaritan.
pub open spec fn samaritan_scx_ranges() -> Seq<SRange> {
    samaritan_scx_chunk_0()
}

pub proof fn lemma_samaritan_scx_canonical()
    ensures
        canonical(samaritan_scx_ranges()),
{
    reveal_with_fuel(canonical, 9);
    assert(canonical(samaritan_scx_chunk_0()));
}

fn push_samaritan_scx_chunk_0(v: &mut Vec<ClassUnicodeRange>)
    ensures
        rview(final(v)@) == rview(old(v)@) + samaritan_scx_chunk_0(),
{
    let ghost o = rview(v@);
    push_range(v, '\u{800}', '\u{82D}');
    push_range(v, '\u{830}', '\u{83E}');
    push_range(v, '\u{2E31}', '\u{2E31}');
    assert(rview(v@) =~= o + samaritan_scx_chunk_0());
}

pub fn samaritan_scx_class() -> (v: Vec<ClassUnicodeRange>)
    ensures
        rview(v@) == samaritan_scx_ranges(),
{
    let mut v: Vec<ClassUnicodeRange> = Vec::new();
    assert(rview(v@) =~= Seq::<SRange>::empty());
    push_samaritan_scx_chunk_0(&mut v);
    assert(rview(v@) =~= samaritan_scx_chunk_0());
    v
}

pub open spec fn saurashtra_scx_chunk_0() -> Seq<SRange> {
    seq![(0xA880int, 0xA8C5int), (0xA8CEint, 0xA8D9int)]
}

/// The ranges of the property Saurashtra.
pub open spec fn saurashtra_scx_ranges() -> Seq<SRange> {
    saurashtra_scx_chunk_0()
}

pub proof fn lemma_saurashtra_scx_canonical()
    ensures
        canonical(saurashtra_scx_ranges()),
{
    reveal_with_fuel(canonical, 9);
    assert(canonical(saurashtra_scx_chunk_0()));
}

fn push_saurashtra_scx_chunk_0(v: &mut Vec<ClassUnicodeRange>)
    ensures
        rview(final(v)@) == rview(old(v)@) + saurashtra_scx_chunk_0(),
{
    let ghost o = rview(v@);
    push_range(v, '\u{A880}', '\u{A8C5}');
    push_range(v, '\u{A8CE}', '\u{A8D9}');
    assert(rview(v@) =~= o + saurashtra_scx_chunk_0());
}

pub fn saurashtra_scx_class() -> (v: Vec<ClassUnicodeRange>)
    ensures
        rview(v@) == saurashtra_scx_ranges(),
{
    let mut v: Vec<ClassUnicodeRange> = Vec::new();
    assert(rview(v@) =~= Seq::<SRange>::empty());
    push_saurashtra_scx_chunk_0(&mut v);
    assert(rview(v@) =~= saurashtra_scx_chunk_0());
    v
}

pub open spec fn sharada_scx_chunk_0() -> Seq<SRange> {
    seq![(0x951int, 0x951int), (0x1CD7int, 0x1CD7int), (0x1CD9int, 0x1CD9int), (0x1CDCint, 0x1CDDint), (0x1CE0int, 0x1CE0int), (0xA830int, 0xA835int), (0xA838int, 0xA838int), (0x11180int, 0x111DFint)]
}

/// The ranges of the property Sharada.
pub open spec fn sharada_scx_ranges() -> Seq<SRange> {
    sharada_scx_chunk_0()
}

pub proof fn lemma_sharada_scx_canonical()
    ensures
        canonical(sharada_scx_ranges()),
{
    reveal_with_fuel(canonical, 9);
    assert(canonical(sharada_scx_chunk_0()));
}

fn push_sharada_scx_chunk_0(v: &mut Vec<ClassUnicodeRange>)
    ensures
        rview(final(v)@) == rview(old(v)@) + sharada_scx_chunk_0(),
{
    let ghost o = rview(v@);
    push_range(v, '\u{951}', '\u{951}');
    push_range(v, '\u{1CD7}', '\u{1CD7}');
    push_range(v, '\u{1CD9}', '\u{1CD9}');
    push_range(v, '\u{1CDC}', '\u{1CDD}');
    push_range(v, '\u{1CE0}', '\u{1CE0}');
    push_range(v, '\u{A830}', '\u{A835}');
    push_range(v, '\u{A838}', '\u{A838}');
    push_range(v, '\u{11180}', '\u{111DF}');
    assert(rview(v@) =~= o + sharada_scx_chunk_0());
}

pub fn sharada_scx_class() -> (v: Vec<ClassUnicodeRange>)
    ensures
        rview(v@) == sharada_scx_ranges(),
{
    let mut v: Vec<ClassUnicodeRange> = Vec::new();
    assert(rview(v@) =~= Seq::<SRange>::empty());
    push_sharada_scx_chunk_0(&mut v);
    assert(rview(v@) =~= sharada_scx_chunk_0());
    v
}

pub open spec fn shavian_scx_chunk_0() -> Seq<SRange> {
    seq![(0xB7int, 0xB7int), (0x10450int, 0x1047Fint)]
}

/// The ranges of the property Shavian.
pub open spec fn shavian_scx_ranges() -> Seq<SRange> {
    shavian_scx_chunk_0()
}

pub proof fn lemma_shavian_scx_canonical()
    ensures
        canonical(shavian_scx_ranges()),
{
    reveal_with_fuel(canonical, 9);
    assert(canonical(shavian_scx_chunk_0()));
}

fn push_shavian_scx_chunk_0(v: &mut Vec<ClassUnicodeRange>)
    ensures
        rview(final(v)@) == rview(old(v)@) + shavian_scx_chunk_0(),
{
    let ghost o = rview(v@);
    push_range(v, '\u{B7}', '\u{B7}');
    push_range(v, '\u{10450}', '\u{1047F}');
    assert(rview(v@) =~= o + shavian_scx_chunk_0());
}

pub fn shavian_scx_class() -> (v: Vec<ClassUnicodeRange>)
    ensures
        rview(v@) == shavian_scx_ranges(),
{
    let mut v: Vec<ClassUnicodeRange> = Vec::new();
    assert(rview(v@) =~= Seq::<SRange>::empty());
    push_shavian_scx_chunk_0(&mut v);
    assert(rview(v@) =~= shavian_scx_chunk_0());
    v
}

pub open spec fn siddham_scx_chunk_0() -> Seq<SRange> {
    seq![(0x11580int, 0x115B5int), (0x115B8int, 0x115DDint)]
}

/// The ranges of the property Siddham.
pub open spec fn siddham_scx_ranges() -> Seq<SRange> {
    siddham_scx_chunk_0()
}

pub proof fn lemma_siddham_scx_canonical()
    ensures
        canonical(siddham_scx_ranges()),
{
    reveal_with_fuel(canonical, 9);
    assert(canonical(siddham_scx_chunk_0()));
}

fn push_siddham_scx_chunk_0(v: &mut Vec<ClassUnicodeRange>)
    ensures
        rview(final(v)@) == rview(old(v)@) + siddham_scx_chunk_0(),
{
    let ghost o = rview(v@);
    push_range(v, '\u{11580}', '\u{115B5}');
    push_range(v, '\u{115B8}', '\u{115DD}');
    assert(rview(v@) =~= o + siddham_scx_chunk_0());
}

pub fn siddham_scx_class() -> (v: Vec<ClassUnicodeRange>)
    ensures
        rview(v@) == siddham_scx_ranges(),
{
    let mut v: Vec<ClassUnicodeRange> = Vec::new();
    assert(rview(v@) =~= Seq::<SRange>::empty());
    push_siddham_scx_chunk_0(&mut v);
    assert(rview(v@) =~= siddham_scx_chunk_0());
    v
}

pub open spec fn signwriting_scx_chunk_0() -> Seq<SRange> {
    seq![(0x1D800int, 0x1DA8Bint), (0x1DA9Bint, 0x1DA9Fint), (0x1DAA1int, 0x1DAAFint)]
}

/// The ranges of the property SignWriting.
pub open spec fn signwriting_scx_ranges() -> Seq<SRange> {
    signwriting_scx_chunk_0()
}

pub proof fn lemma_signwriting_scx_canonical()
    ensures
        canonical(signwriting_scx_ranges()),
{
    reveal_with_fuel(canonical, 9);
    assert(canonical(signwriting_scx_chunk_0()));
}

fn push_signwriting_scx_chunk_0(v: &mut Vec<ClassUnicodeRange>)
    ensures
        rview(final(v)@) == rview(old(v)@) + signwriting_scx_chunk_0(),
{
    let ghost o = rview(v@);
    push_range(v, '\u{1D800}', '\u{1DA8B}');
    push_range(v, '\u{1DA9B}', '\u{1DA9F}');
    push_range(v, '\u{1DAA1}', '\u{1DAAF}');
    assert(rview(v@) =~= o + signwriting_scx_chunk_0());
}

pub fn signwriting_scx_class() -> (v: Vec<ClassUnicodeRange>)
    ensures
        rview(v@) == signwriting_scx_ranges(),
{
    let mut v: Vec<ClassUnicodeRange> = Vec::new();
    assert(rview(v@) =~= Seq::<SRange>::empty());
    push_signwriting_scx_chunk_0(&mut v);
    assert(rview(v@) =~= signwriting_scx_chunk_0());
    v
}

pub open spec fn sinhala_scx_chunk_0() -> Seq<SRange> {
    seq![(0x964int, 0x965int), (0xD81int, 0xD83int), (0xD85int, 0xD96int), (0xD9Aint, 0xDB1int), (0xDB3int, 0xDBBint), (0xDBDint, 0xDBDint), (0xDC0int, 0xDC6int), (0xDCAint, 0xDCAint)]
}

pub open spec fn sinhala_scx_chunk_1() -> Seq<SRange> {
    seq![(0xDCFint, 0xDD4int), (0xDD6int, 0xDD6int), (0xDD8int, 0xDDFint), (0xDE6int, 0xDEFint), (0xDF2int, 0xDF4int), (0x1CF2int, 0x1CF2int), (0x111E1int, 0x111F4int)]
}

/// The ranges of the property Sinhala.
pub open spec fn sinhala_scx_ranges() -> Seq<SRange> {
    sinhala_scx_chunk_0() + sinhala_scx_chunk_1()
}

pub proof fn lemma_sinhala_scx_canonical()
    ensures
        canonical(sinhala_scx_ranges()),
{
    reveal_with_fuel(canonical, 9);
    assert(canonical(sinhala_scx_chunk_0()));
    assert(canonical(sinhala_scx_chunk_1()));
    lemma_canonical_append(sinhala_scx_chunk_0(), sinhala_scx_chunk_1());
}

fn push_sinhala_scx_chunk_0(v: &mut Vec<ClassUnicodeRange>)
    ensures
        rview(final(v)@) == rview(old(v)@) + sinhala_scx_chunk_0(),
{
    let ghost o = rview(v@);
    push_range(v, '\u{964}', '\u{965}');
    push_range(v, '\u{D81}', '\u{D83}');
    push_range(v, '\u{D85}', '\u{D96}');
    push_range(v, '\u{D9A}', '\u{DB1}');
    push_range(v, '\u{DB3}', '\u{DBB}');
    push_range(v, '\u{DBD}', '\u{DBD}');
    push_range(v, '\u{DC0}', '\u{DC6}');
    push_range(v, '\u{DCA}', '\u{DCA}');
    assert(rview(v@) =~= o + sinhala_scx_chunk_0());
}

fn push_sinhala_scx_chunk_1(v: &mut Vec<ClassUnicodeRange>)
    ensures
        rview(final(v)@) == rview(old(v)@) + sinhala_scx_chunk_1(),
{
    let ghost o = rview(v@);
    push_range(v, '\u{DCF}', '\u{DD4}');
    push_range(v, '\u{DD6}', '\u{DD6}');
    push_range(v, '\u{DD8}', '\u{DDF}');
    push_range(v, '\u{DE6}', '\u{DEF}');
    push_range(v, '\u{DF2}', '\u{DF4}');
    push_range(v, '\u{1CF2}', '\u{1CF2}');
    push_range(v, '\u{111E1}', '\u{111F4}');
    assert(rview(v@) =~= o + sinhala_scx_chunk_1());
}

pub fn sinhala_scx_class() -> (v: Vec<ClassUnicodeRange>)
    ensures
        rview(v@) == sinhala_scx_ranges(),
{
    let mut v: Vec<ClassUnicodeRange> = Vec::new();
    assert(rview(v@) =~= Seq::<SRange>::empty());
    push_sinhala_scx_chunk_0(&mut v);
    assert(rview(v@) =~= sinhala_scx_chunk_0());
    push_sinhala_scx_chunk_1(&mut v);
    assert(rview(v@) =~= sinhala_scx_chunk_0() + sinhala_scx_chunk_1());
    v
}

pub open spec fn sogdian_scx_chunk_0() -> Seq<SRange> {
    seq![(0x640int, 0x640int), (0x10F30int, 0x10F59int)]
}

/// The ranges of the property Sogdian.
pub open spec fn sogdian_scx_ranges() -> Seq<SRange> {
    sogdian_scx_chunk_0()
}

pub proof fn lemma_sogdian_scx_canonical()
    ensures
        canonical(sogdian_scx_ranges()),
{
    reveal_with_fuel(canonical, 9);
    assert(canonical(sogdian_scx_chunk_0()));
}

fn push_sogdian_scx_chunk_0(v: &mut Vec<ClassUnicodeRange>)
    ensures
        rview(final(v)@) == rview(old(v)@) + sogdian_scx_chunk_0(),
{
    let ghost o = rview(v@);
    push_range(v, '\u{640}', '\u{640}');
    push_range(v, '\u{10F30}', '\u{10F59}');
    assert(rview(v@) =~= o + sogdian_scx_chunk_0());
}

pub fn sogdian_scx_class() -> (v: Vec<ClassUnicodeRange>)
    ensures
        rview(v@) == sogdian_scx_ranges(),
{
    let mut v: Vec<ClassUnicodeRange> = Vec::new();
    assert(rview(v@) =~= Seq::<SRange>::empty());
    push_sogdian_scx_chunk_0(&mut v);
    assert(rview(v@) =~= sogdian_scx_chunk_0());
    v
}

pub open spec fn sora_sompeng_scx_chunk_0() -> Seq<SRange> {
    seq![(0x110D0int, 0x110E8int), (0x110F0int, 0x110F9int)]
}

/// The ranges of the property Sora_Sompeng.
pub open spec fn sora_sompeng_scx_ranges() -> Seq<SRange> {
    sora_sompeng_scx_chunk_0()
}

pub proof fn lemma_sora_sompeng_scx_canonical()
    ensures
        canonical(sora_sompeng_scx_ranges()),
{
    reveal_with_fuel(canonical, 9);
    assert(canonical(sora_sompeng_scx_chunk_0()));
}

fn push_sora_sompeng_scx_chunk_0(v: &mut Vec<ClassUnicodeRange>)
    ensures
        rview(final(v)@) == rview(old(v)@) + sora_sompeng_scx_chunk_0(),
{
    let ghost o = rview(v@);
    push_range(v, '\u{110D0}', '\u{110E8}');
    push_range(v, '\u{110F0}', '\u{110F9}');
    assert(rview(v@) =~= o + sora_sompeng_scx_chunk_0());
}

pub fn sora_sompeng_scx_class() -> (v: Vec<ClassUnicodeRange>)
    ensures
        rview(v@) == sora_sompeng_scx_ranges(),
{
    let mut v: Vec<ClassUnicodeRange> = Vec::new();
    assert(rview(v@) =~= Seq::<SRange>::empty());
    push_sora_sompeng_scx_chunk_0(&mut v);
    assert(rview(v@) =~= sora_sompeng_scx_chunk_0());
    v
}

pub open spec fn soyombo_scx_chunk_0() -> Seq<SRange> {
    seq![(0x11A50int, 0x11AA2int)]
}

/// The ranges of the property Soyombo.
pub open spec fn soyombo_scx_ranges() -> Seq<SRange> {
    soyombo_scx_chunk_0()
}

pub proof fn lemma_soyombo_scx_canonical()
    ensures
        canonical(soyombo_scx_ranges()),
{
    reveal_with_fuel(canonical, 9);
    assert(canonical(soyombo_scx_chunk_0()));
}

fn push_soyombo_scx_chunk_0(v: &mut Vec<ClassUnicodeRange>)
    ensures
        rview(final(v)@) == rview(old(v)@) + soyombo_scx_chunk_0(),
{
    let ghost o = rview(v@);
    push_range(v, '\u{11A50}', '\u{11AA2}');
    assert(rview(v@) =~= o + soyombo_scx_chunk_0());
}

pub fn soyombo_scx_class() -> (v: Vec<ClassUnicodeRange>)
    ensures
        rview(v@) == soyombo_scx_ranges(),
{
    let mut v: Vec<ClassUnicodeRange> = Vec::new();
    assert(rview(v@) =~= Seq::<SRange>::empty());
    push_soyombo_scx_chunk_0(&mut v);
    assert(rview(v@) =~= soyombo_scx_chunk_0());
    v
}

pub open spec fn sundanese_scx_chunk_0() -> Seq<SRange> {
    seq![(0x1B80int, 0x1BBFint), (0x1CC0int, 0x1CC7int)]
}

/// The ranges of the property Sundanese.
pub open spec fn sundanese_scx_ranges() -> Seq<SRange> {
    sundanese_scx_chunk_0()
}

pub proof fn lemma_sundanese_scx_canonical()
    ensures
        canonical(sundanese_scx_ranges()),
{
    reveal_with_fuel(canonical, 9);
    assert(canonical(sundanese_scx_chunk_0()));
}

fn push_sundanese_scx_chunk_0(v: &mut Vec<ClassUnicodeRange>)
    ensures
        rview(final(v)@) == rview(old(v)@) + sundanese_scx_chunk_0(),
{
    let ghost o = rview(v@);
    push_range(v, '\u{1B80}', '\u{1BBF}');
    push_range(v, '\u{1CC0}', '\u{1CC7}');
    assert(rview(v@) =~= o + sundanese_scx_chunk_0());
}

pub fn sundanese_scx_class() -> (v: Vec<ClassUnicodeRange>)
    ensures
        rview(v@) == sundanese_scx_ranges(),
{
    let mut v: Vec<ClassUnicodeRange> = Vec::new();
    assert(rview(v@) =~= Seq::<SRange>::empty());
    push_sundanese_scx_chunk_0(&mut v);
    assert(rview(v@) =~= sundanese_scx_chunk_0());
    v
}

pub open spec fn sunuwar_scx_chunk_0() -> Seq<SRange> {
    seq![(0x300int, 0x301int), (0x303int, 0x303int), (0x30Dint, 0x30Dint), (0x310int, 0x310int), (0x32Dint, 0x32Dint), (0x331int, 0x331int), (0x11BC0int, 0x11BE1int), (0x11BF0int, 0x11BF9int)]
}

/// The ranges of the property Sunuwar.
pub open spec fn sunuwar_scx_ranges() -> Seq<SRange> {
    sunuwar_scx_chunk_0()
}

pub proof fn lemma_sunuwar_scx_canonical()
    ensures
        canonical(sunuwar_scx_ranges()),
{
    reveal_with_fuel(canonical, 9);
    assert(canonical(sunuwar_scx_chunk_0()));
}

fn push_sunuwar_scx_chunk_0(v: &mut Vec<ClassUnicodeRange>)
    ensures
        rview(final(v)@) == rview(old(v)@) + sunuwar_scx_chunk_0(),
{
    let ghost o = rview(v@);
    push_range(v, '\u{300}', '\u{301}');
    push_range(v, '\u{303}', '\u{303}');
    push_range(v, '\u{30D}', '\u{30D}');
    push_range(v, '\u{310}', '\u{310}');
    push_range(v, '\u{32D}', '\u{32D}');
    push_range(v, '\u{331}', '\u{331}');
    push_range(v, '\u{11BC0}', '\u{11BE1}');
    push_range(v, '\u{11BF0}', '\u{11BF9}');
    assert(rview(v@) =~= o + sunuwar_scx_chunk_0());
}

pub fn sunuwar_scx_class() -> (v: Vec<ClassUnicodeRange>)
    ensures
        rview(v@) == sunuwar_scx_ranges(),
{
    let mut v: Vec<ClassUnicodeRange> = Vec::new();
    assert(rview(v@) =~= Seq::<SRange>::empty());
    push_sunuwar_scx_chunk_0(&mut v);
    assert(rview(v@) =~= sunuwar_scx_chunk_0());
    v
}

pub open spec fn syloti_nagri_scx_chunk_0() -> Seq<SRange> {
    seq![(0x964int, 0x965int), (0x9E6int, 0x9EFint), (0xA800int, 0xA82Cint)]
}

/// The ranges of the property Syloti_Nagri.
pub open spec fn syloti_nagri_scx_ranges() -> Seq<SRange> {
    syloti_nagri_scx_chunk_0()
}

pub proof fn lemma_syloti_nagri_scx_canonical()
    ensures
        canonical(syloti_nagri_scx_ranges()),
{
    reveal_with_fuel(canonical, 9);
    assert(canonical(syloti_nagri_scx_chunk_0()));
}

fn push_syloti_nagri_scx_chunk_0(v: &mut Vec<ClassUnicodeRange>)
    ensures
        rview(final(v)@) == rview(old(v)@) + syloti_nagri_scx_chunk_0(),
{
    let ghost o = rview(v@);
    push_range(v, '\u{964}', '\u{965}');
    push_range(v, '\u{9E6}', '\u{9EF}');
    push_range(v, '\u{A800}', '\u{A82C}');
    assert(rview(v@) =~= o + syloti_nagri_scx_chunk_0());
}

pub fn syloti_nagri_scx_class() -> (v: Vec<ClassUnicodeRange>)
    ensures
        rview(v@) == syloti_nagri_scx_ranges(),
{
    let mut v: Vec<ClassUnicodeRange> = Vec::new();
    assert(rview(v@) =~= Seq::<SRange>::empty());
    push_syloti_nagri_scx_chunk_0(&mut v);
    assert(rview(v@) =~= syloti_nagri_scx_chunk_0());
    v
}

pub open spec fn syriac_scx_chunk_0() -> Seq<SRange> {
    seq![(0x303int, 0x304int), (0x307int, 0x308int), (0x30Aint, 0x30Aint), (0x320int, 0x320int), (0x323int, 0x325int), (0x32Dint, 0x32Eint), (0x330int, 0x330int), (0x60Cint, 0x60Cint)]
}

pub open spec fn syriac_scx_chunk_1() -> Seq<SRange> {
    seq![(0x61Bint, 0x61Cint), (0x61Fint, 0x61Fint), (0x640int, 0x640int), (0x64Bint, 0x655int), (0x670int, 0x670int), (0x700int, 0x70Dint), (0x70Fint, 0x74Aint), (0x74Dint, 0x74Fint)]
}

pub open spec fn syriac_scx_chunk_2() -> Seq<SRange> {
    seq![(0x860int, 0x86Aint), (0x1DF8int, 0x1DF8int), (0x1DFAint, 0x1DFAint)]
}

/// The ranges of the property Syriac.
pub open spec fn syriac_scx_ranges() -> Seq<SRange> {
    syriac_scx_chunk_0() + syriac_scx_chunk_1() + syriac_scx_chunk_2()
}

pub proof fn lemma_syriac_scx_canonical()
    ensures
        canonical(syriac_scx_ranges()),
{
    reveal_with_fuel(canonical, 9);
    assert(canonical(syriac_scx_chunk_0()));
    assert(canonical(syriac_scx_chunk_1()));
    assert(canonical(syriac_scx_chunk_2()));
    lemma_canonical_append(syriac_scx_chunk_0(), syriac_scx_chunk_1());
    lemma_canonical_append(syriac_scx_chunk_0() + syriac_scx_chunk_1(), syriac_scx_chunk_2());
}

fn push_syriac_scx_chunk_0(v: &mut Vec<ClassUnicodeRange>)
    ensures
        rview(final(v)@) == rview(old(v)@) + syriac_scx_chunk_0(),
{
    let ghost o = rview(v@);
    push_range(v, '\u{303}', '\u{304}');
    push_range(v, '\u{307}', '\u{308}');
    push_range(v, '\u{30A}', '\u{30A}');
    push_range(v, '\u{320}', '\u{320}');
    push_range(v, '\u{323}', '\u{325}');
    push_range(v, '\u{32D}', '\u{32E}');
    push_range(v, '\u{330}', '\u{330}');
    push_range(v, '\u{60C}', '\u{60C}');
    assert(rview(v@) =~= o + syriac_scx_chunk_0());
}

fn push_syriac_scx_chunk_1(v: &mut Vec<ClassUnicodeRange>)
    ensures
        rview(final(v)@) == rview(old(v)@) + syriac_scx_chunk_1(),
{
    let ghost o = rview(v@);
    push_range(v, '\u{61B}', '\u{61C}');
    push_range(v, '\u{61F}', '\u{61F}');
    push_range(v, '\u{640}', '\u{640}');
    push_range(v, '\u{64B}', '\u{655}');
    push_range(v, '\u{670}', '\u{670}');
    push_range(v, '\u{700}', '\u{70D}');
    push_range(v, '\u{70F}', '\u{74A}');
    push_range(v, '\u{74D}', '\u{74F}');
    assert(rview(v@) =~= o + syriac_scx_chunk_1());
}

fn push_syriac_scx_chunk_2(v: &mut Vec<ClassUnicodeRange>)
    ensures
        rview(final(v)@) == rview(old(v)@) + syriac_scx_chunk_2(),
{
    let ghost o = rview(v@);
    push_range(v, '\u{860}', '\u{86A}');
    push_range(v, '\u{1DF8}', '\u{1DF8}');
    push_range(v, '\u{1DFA}', '\u{1DFA}');
    assert(rview(v@) =~= o + syriac_scx_chunk_2());
}

pub fn syriac_scx_class() -> (v: Vec<ClassUnicodeRange>)
    ensures
        rview(v@) == syriac_scx_ranges(),
{
    let mut v: Vec<ClassUnicodeRange> = Vec::new();
    assert(rview(v@) =~= Seq::<SRange>::empty());
    push_syriac_scx_chunk_0(&mut v);
    assert(rview(v@) =~= syriac_scx_chunk_0());
    push_syriac_scx_chunk_1(&mut v);
    assert(rview(v@) =~= syriac_scx_chunk_0() + syriac_scx_chunk_1());
    push_syriac_scx_chunk_2(&mut v);
    assert(rview(v@) =~= syriac_scx_chunk_0() + syriac_scx_chunk_1() + syriac_scx_chunk_2());
    v
}

pub open spec fn tagalog_scx_chunk_0() -> Seq<SRange> {
    seq![(0x1700int, 0x1715int), (0x171Fint, 0x171Fint), (0x1735int, 0x1736int)]
}

/// The ranges of the property Tagalog.
pub open spec fn tagalog_scx_ranges() -> Seq<SRange> {
    tagalog_scx_chunk_0()
}

pub proof fn lemma_tagalog_scx_canonical()
    ensures
        canonical(tagalog_scx_ranges()),
{
    reveal_with_fuel(canonical, 9);
    assert(canonical(tagalog_scx_chunk_0()));
}

fn push_tagalog_scx_chunk_0(v: &mut Vec<ClassUnicodeRange>)
    ensures
        rview(final(v)@) == rview(old(v)@) + tagalog_scx_chunk_0(),
{
    let ghost o = rview(v@);
    push_range(v, '\u{1700}', '\u{1715}');
    push_range(v, '\u{171F}', '\u{171F}');
    push_range(v, '\u{1735}', '\u{1736}');
    assert(rview(v@) =~= o + tagalog_scx_chunk_0());
}

pub fn tagalog_scx_class() -> (v: Vec<ClassUnicodeRange>)
    ensures
        rview(v@) == tagalog_scx_ranges(),
{
    let mut v: Vec<ClassUnicodeRange> = Vec::new();
    assert(rview(v@) =~= Seq::<SRange>::empty());
    push_tagalog_scx_chunk_0(&mut v);
    assert(rview(v@) =~= tagalog_scx_chunk_0());
    v
}

pub open spec fn tagbanwa_scx_chunk_0() -> Seq<SRange> {
    seq![(0x1735int, 0x1736int), (0x1760int, 0x176Cint), (0x176Eint, 0x1770int), (0x1772int, 0x1773int)]
}

/// The ranges of the property Tagbanwa.
pub open spec fn tagbanwa_scx_ranges() -> Seq<SRange> {
    tagbanwa_scx_chunk_0()
}

pub proof fn lemma_tagbanwa_scx_canonical()
    ensures
        canonical(tagbanwa_scx_ranges()),
{
    reveal_with_fuel(canonical, 9);
    assert(canonical(tagbanwa_scx_chunk_0()));
}

fn push_tagbanwa_scx_chunk_0(v: &mut Vec<ClassUnicodeRange>)
    ensures
        rview(final(v)@) == rview(old(v)@) + tagbanwa_scx_chunk_0(),
{
    let ghost o = rview(v@);
    push_range(v, '\u{1735}', '\u{1736}');
    push_range(v, '\u{1760}', '\u{176C}');
    push_range(v, '\u{176E}', '\u{1770}');
    push_range(v, '\u{1772}', '\u{1773}');
    assert(rview(v@) =~= o + tagbanwa_scx_chunk_0());
}

pub fn tagbanwa_scx_class() -> (v: Vec<ClassUnicodeRange>)
    ensures
        rview(v@) == tagbanwa_scx_ranges(),
{
    let mut v: Vec<ClassUnicodeRange> = Vec::new();
    assert(rview(v@) =~= Seq::<SRange>::empty());
    push_tagbanwa_scx_chunk_0(&mut v);
    assert(rview(v@) =~= tagbanwa_scx_chunk_0());
    v
}

pub open spec fn tai_le_scx_chunk_0() -> Seq<SRange> {
    seq![(0x300int, 0x301int), (0x307int, 0x308int), (0x30Cint, 0x30Cint), (0x1040int, 0x1049int), (0x1950int, 0x196Dint), (0x1970int, 0x1974int)]
}

/// The ranges of the property Tai_Le.
pub open spec fn tai_le_scx_ranges() -> Seq<SRange> {
    tai_le_scx_chunk_0()
}

pub proof fn lemma_tai_le_scx_canonical()
    ensures
        canonical(tai_le_scx_ranges()),
{
    reveal_with_fuel(canonical, 9);
    assert(canonical(tai_le_scx_chunk_0()));
}

fn push_tai_le_scx_chunk_0(v: &mut Vec<ClassUnicodeRange>)
    ensures
        rview(final(v)@) == rview(old(v)@) + tai_le_scx_chunk_0(),
{
    let ghost o = rview(v@);
    push_range(v, '\u{300}', '\u{301}');
    push_range(v, '\u{307}', '\u{308}');
    push_range(v, '\u{30C}', '\u{30C}');
    push_range(v, '\u{1040}', '\u{1049}');
    push_range(v, '\u{1950}', '\u{196D}');
    push_range(v, '\u{1970}', '\u{1974}');
    assert(rview(v@) =~= o + tai_le_scx_chunk_0());
}

pub fn tai_le_scx_class() -> (v: Vec<ClassUnicodeRange>)
    ensures
        rview(v@) == tai_le_scx_ranges(),
{
    let mut v: Vec<ClassUnicodeRange> = Vec::new();
    assert(rview(v@) =~= Seq::<SRange>::empty());
    push_tai_le_scx_chunk_0(&mut v);
    assert(rview(v@) =~= tai_le_scx_chunk_0());
    v
}

pub open spec fn tai_tham_scx_chunk_0() -> Seq<SRange> {
    seq![(0x1A20int, 0x1A5Eint), (0x1A60int, 0x1A7Cint), (0x1A7Fint, 0x1A89int), (0x1A90int, 0x1A99int), (0x1AA0int, 0x1AADint)]
}

/// The ranges of the property Tai_Tham.
pub open spec fn tai_tham_scx_ranges() -> Seq<SRange> {
    tai_tham_scx_chunk_0()
}

pub proof fn lemma_tai_tham_scx_canonical()
    ensures
        canonical(tai_tham_scx_ranges()),
{
    reveal_with_fuel(canonical, 9);
    assert(canonical(tai_tham_scx_chunk_0()));
}

fn push_tai_tham_scx_chunk_0(v: &mut Vec<ClassUnicodeRange>)
    ensures
        rview(final(v)@) == rview(old(v)@) + tai_tham_scx_chunk_0(),
{
    let ghost o = rview(v@);
    push_range(v, '\u{1A20}', '\u{1A5E}');
    push_range(v, '\u{1A60}', '\u{1A7C}');
    push_range(v, '\u{1A7F}', '\u{1A89}');
    push_range(v, '\u{1A90}', '\u{1A99}');
    push_range(v, '\u{1AA0}', '\u{1AAD}');
    assert(rview(v@) =~= o + tai_tham_scx_chunk_0());
}

pub fn tai_tham_scx_class() -> (v: Vec<ClassUnicodeRange>)
    ensures
        rview(v@) == tai_tham_scx_ranges(),
{
    let mut v: Vec<ClassUnicodeRange> = Vec::new();
    assert(rview(v@) =~= Seq::<SRange>::empty());
    push_tai_tham_scx_chunk_0(&mut v);
    assert(rview(v@) =~= tai_tham_scx_chunk_0());
    v
}

pub open spec fn tai_viet_scx_chunk_0() -> Seq<SRange> {
    seq![(0xAA80int, 0xAAC2int), (0xAADBint, 0xAADFint)]
}

/// The ranges of the property Tai_Viet.
pub open spec fn tai_viet_scx_ranges() -> Seq<SRange> {
    tai_viet_scx_chunk_0()
}

pub proof fn lemma_tai_viet_scx_canonical()
    ensures
        canonical(tai_viet_scx_ranges()),
{
    reveal_with_fuel(canonical, 9);
    assert(canonical(tai_viet_scx_chunk_0()));
}

fn push_tai_viet_scx_chunk_0(v: &mut Vec<ClassUnicodeRange>)
    ensures
        rview(final(v)@) == rview(old(v)@) + tai_viet_scx_chunk_0(),
{
    let ghost o = rview(v@);
    push_range(v, '\u{AA80}', '\u{AAC2}');
    push_range(v, '\u{AADB}', '\u{AADF}');
    assert(rview(v@) =~= o + tai_viet_scx_chunk_0());
}

pub fn tai_viet_scx_class() -> (v: Vec<ClassUnicodeRange>)
    ensures
        rview(v@) == tai_viet_scx_ranges(),
{
    let mut v: Vec<ClassUnicodeRange> = Vec::new();
    assert(rview(v@) =~= Seq::<SRange>::empty());
    push_tai_viet_scx_chunk_0(&mut v);
    assert(rview(v@) =~= tai_viet_scx_chunk_0());
    v
}

pub open spec fn takri_scx_chunk_0() -> Seq<SRange> {
    seq![(0x964int, 0x965int), (0xA830int, 0xA839int), (0x11680int, 0x116B9int), (0x116C0int, 0x116C9int)]
}

/// The ranges of the property Takri.
pub open spec fn takri_scx_ranges() -> Seq<SRange> {
    takri_scx_chunk_0()
}

pub proof fn lemma_takri_scx_canonical()
    ensures
        canonical(takri_scx_ranges()),
{
    reveal_with_fuel(canonical, 9);
    assert(canonical(takri_scx_chunk_0()));
}

fn push_takri_scx_chunk_0(v: &mut Vec<ClassUnicodeRange>)
    ensures
        rview(final(v)@) == rview(old(v)@) + takri_scx_chunk_0(),
{
    let ghost o = rview(v@);
    push_range(v, '\u{964}', '\u{965}');
    push_range(v, '\u{A830}', '\u{A839}');
    push_range(v, '\u{11680}', '\u{116B9}');
    push_range(v, '\u{116C0}', '\u{116C9}');
    assert(rview(v@) =~= o + takri_scx_chunk_0());
}

pub fn takri_scx_class() -> (v: Vec<ClassUnicodeRange>)
    ensures
        rview(v@) == takri_scx_ranges(),
{
    let mut v: Vec<ClassUnicodeRange> = Vec::new();
    assert(rview(v@) =~= Seq::<SRange>::empty());
    push_takri_scx_chunk_0(&mut v);
    assert(rview(v@) =~= takri_scx_chunk_0());
    v
}

pub open spec fn tamil_scx_chunk_0() -> Seq<SRange> {
    seq![(0x951int, 0x952int), (0x964int, 0x965int), (0xB82int, 0xB83int), (0xB85int, 0xB8Aint), (0xB8Eint, 0xB90int), (0xB92int, 0xB95int), (0xB99int, 0xB9Aint), (0xB9Cint, 0xB9Cint)]
}

pub open spec fn tamil_scx_chunk_1() -> Seq<SRange> {
    seq![(0xB9Eint, 0xB9Fint), (0xBA3int, 0xBA4int), (0xBA8int, 0xBAAint), (0xBAEint, 0xBB9int), (0xBBEint, 0xBC2int), (0xBC6int, 0xBC8int), (0xBCAint, 0xBCDint), (0xBD0int, 0xBD0int)]
}

pub open spec fn tamil_scx_chunk_2() -> Seq<SRange> {
    seq![(0xBD7int, 0xBD7int), (0xBE6int, 0xBFAint), (0x1CDAint, 0x1CDAint), (0xA8F3int, 0xA8F3int), (0x11301int, 0x11301int), (0x11303int, 0x11303int), (0x1133Bint, 0x1133Cint), (0x11FC0int, 0x11FF1int)]
}

pub open spec fn tamil_scx_chunk_3() -> Seq<SRange> {
    seq![(0x11FFFint, 0x11FFFint)]
}

/// The ranges of the property Tamil.
pub open spec fn tamil_scx_ranges() -> Seq<SRange> {
    tamil_scx_chunk_0() + tamil_scx_chunk_1() + tamil_scx_chunk_2() + tamil_scx_chunk_3()
}

pub proof fn lemma_tamil_scx_canonical()
    ensures
        canonical(tamil_scx_ranges()),
{
    reveal_with_fuel(canonical, 9);
    assert(canonical(tamil_scx_chunk_0()));
    assert(canonical(tamil_scx_chunk_1()));
    assert(canonical(tamil_scx_chunk_2()));
    assert(canonical(tamil_scx_chunk_3()));
    lemma_canonical_append(tamil_scx_chunk_0(), tamil_scx_chunk_1());
    lemma_canonical_append(tamil_scx_chunk_0() + tamil_scx_chunk_1(), tamil_scx_chunk_2());
    lemma_canonical_append(tamil_scx_chunk_0() + tamil_scx_chunk_1() + tamil_scx_chunk_2(), tamil_scx_chunk_3());
}

fn push_tamil_scx_chunk_0(v: &mut Vec<ClassUnicodeRange>)
    ensures
        rview(final(v)@) == rview(old(v)@) + tamil_scx_chunk_0(),
{
    let ghost o = rview(v@);
    push_range(v, '\u{951}', '\u{952}');
    push_range(v, '\u{964}', '\u{965}');
    push_range(v, '\u{B82}', '\u{B83}');
    push_range(v, '\u{B85}', '\u{B8A}');
    push_range(v, '\u{B8E}', '\u{B90}');
    push_range(v, '\u{B92}', '\u{B95}');
    push_range(v, '\u{B99}', '\u{B9A}');
    push_range(v, '\u{B9C}', '\u{B9C}');
    assert(rview(v@) =~= o + tamil_scx_chunk_0());
}

fn push_tamil_scx_chunk_1(v: &mut Vec<ClassUnicodeRange>)
    ensures
        rview(final(v)@) == rview(old(v)@) + tamil_scx_chunk_1(),
{
    let ghost o = rview(v@);
    push_range(v, '\u{B9E}', '\u{B9F}');
    push_range(v, '\u{BA3}', '\u{BA4}');
    push_range(v, '\u{BA8}', '\u{BAA}');
    push_range(v, '\u{BAE}', '\u{BB9}');
    push_range(v, '\u{BBE}', '\u{BC2}');
    push_range(v, '\u{BC6}', '\u{BC8}');
    push_range(v, '\u{BCA}', '\u{BCD}');
    push_range(v, '\u{BD0}', '\u{BD0}');
    assert(rview(v@) =~= o + tamil_scx_chunk_1());
}

fn push_tamil_scx_chunk_2(v: &mut Vec<ClassUnicodeRange>)
    ensures
        rview(final(v)@) == rview(old(v)@) + tamil_scx_chunk_2(),
{
    let ghost o = rview(v@);
    push_range(v, '\u{BD7}', '\u{BD7}');
    push_range(v, '\u{BE6}', '\u{BFA}');
    push_range(v, '\u{1CDA}', '\u{1CDA}');
    push_range(v, '\u{A8F3}', '\u{A8F3}');
    push_range(v, '\u{11301}', '\u{11301}');
    push_range(v, '\u{11303}', '\u{11303}');
    push_range(v, '\u{1133B}', '\u{1133C}');
    push_range(v, '\u{11FC0}', '\u{11FF1}');
    assert(rview(v@) =~= o + tamil_scx_chunk_2());
}

fn push_tamil_scx_chunk_3(v: &mut Vec<ClassUnicodeRange>)
    ensures
        rview(final(v)@) == rview(old(v)@) + tamil_scx_chunk_3(),
{
    let ghost o = rview(v@);
    push_range(v, '\u{11FFF}', '\u{11FFF}');
    assert(rview(v@) =~= o + tamil_scx_chunk_3());
}

pub fn tamil_scx_class() -> (v: Vec<ClassUnicodeRange>)
    ensures
        rview(v@) == tamil_scx_ranges(),
{
    let mut v: Vec<ClassUnicodeRange> = Vec::new();
    assert(rview(v@) =~= Seq::<SRange>::empty());
    push_tamil_scx_chunk_0(&mut v);
    assert(rview(v@) =~= tamil_scx_chunk_0());
    push_tamil_scx_chunk_1(&mut v);
    assert(rview(v@) =~= tamil_scx_chunk_0() + tamil_scx_chunk_1());
    push_tamil_scx_chunk_2(&mut v);
    assert(rview(v@) =~= tamil_scx_chunk_0() + tamil_scx_chunk_1() + tamil_scx_chunk_2());
    push_tamil_scx_chunk_3(&mut v);
    assert(rview(v@) =~= tamil_scx_chunk_0() + tamil_scx_chunk_1() + tamil_scx_chunk_2() + tamil_scx_chunk_3());
    v
}

pub open spec fn tangsa_scx_chunk_0() -> Seq<SRange> {
    seq![(0x16A70int, 0x16ABEint), (0x16AC0int, 0x16AC9int)]
}

/// The ranges of the property Tangsa.
pub open spec fn tangsa_scx_ranges() -> Seq<SRange> {
    tangsa_scx_chunk_0()
}

pub proof fn lemma_tangsa_scx_canonical()
    ensures
        canonical(tangsa_scx_ranges()),
{
    reveal_with_fuel(canonical, 9);
    assert(canonical(tangsa_scx_chunk_0()));
}

fn push_tangsa_scx_chunk_0(v: &mut Vec<ClassUnicodeRange>)
    ensures
        rview(final(v)@) == rview(old(v)@) + tangsa_scx_chunk_0(),
{
    let ghost o = rview(v@);
    push_range(v, '\u{16A70}', '\u{16ABE}');
    push_range(v, '\u{16AC0}', '\u{16AC9}');
    assert(rview(v@) =~= o + tangsa_scx_chunk_0());
}

pub fn tangsa_scx_class() -> (v: Vec<ClassUnicodeRange>)
    ensures
        rview(v@) == tangsa_scx_ranges(),
{
    let mut v: Vec<ClassUnicodeRange> = Vec::new();
    assert(rview(v@) =~= Seq::<SRange>::empty());
    push_tangsa_scx_chunk_0(&mut v);
    assert(rview(v@) =~= tangsa_scx_chunk_0());
    v
}

pub open spec fn tangut_scx_chunk_0() -> Seq<SRange> {
    seq![(0x2FF0int, 0x2FFFint), (0x31EFint, 0x31EFint), (0x16FE0int, 0x16FE0int), (0x17000int, 0x187F7int), (0x18800int, 0x18AFFint), (0x18D00int, 0x18D08int)]
}

/// The ranges of the property Tangut.
pub open spec fn tangut_scx_ranges() -> Seq<SRange> {
    tangut_scx_chunk_0()
}

pub proof fn lemma_tangut_scx_canonical()
    ensures
        canonical(tangut_scx_ranges()),
{
    reveal_with_fuel(canonical, 9);
    assert(canonical(tangut_scx_chunk_0()));
}

fn push_tangut_scx_chunk_0(v: &mut Vec<ClassUnicodeRange>)
    ensures
        rview(final(v)@) == rview(old(v)@) + tangut_scx_chunk_0(),
{
    let ghost o = rview(v@);
    push_range(v, '\u{2FF0}', '\u{2FFF}');
    push_range(v, '\u{31EF}', '\u{31EF}');
    push_range(v, '\u{16FE0}', '\u{16FE0}');
    push_range(v, '\u{17000}', '\u{187F7}');
    push_range(v, '\u{18800}', '\u{18AFF}');
    push_range(v, '\u{18D00}', '\u{18D08}');
    assert(rview(v@) =~= o + tangut_scx_chunk_0());
}

pub fn tangut_scx_class() -> (v: Vec<ClassUnicodeRange>)
    ensures
        rview(v@) == tangut_scx_ranges(),
{
    let mut v: Vec<ClassUnicodeRange> = Vec::new();
    assert(rview(v@) =~= Seq::<SRange>::empty());
    push_tangut_scx_chunk_0(&mut v);
    assert(rview(v@) =~= tangut_scx_chunk_0());
    v
}

pub open spec fn telugu_scx_chunk_0() -> Seq<SRange> {
    seq![(0x951int, 0x952int), (0x964int, 0x965int), (0xC00int, 0xC0Cint), (0xC0Eint, 0xC10int), (0xC12int, 0xC28int), (0xC2Aint, 0xC39int), (0xC3Cint, 0xC44int), (0xC46int, 0xC48int)]
}

pub open spec fn telugu_scx_chunk_1() -> Seq<SRange> {
    seq![(0xC4Aint, 0xC4Dint), (0xC55int, 0xC56int), (0xC58int, 0xC5Aint), (0xC5Dint, 0xC5Dint), (0xC60int, 0xC63int), (0xC66int, 0xC6Fint), (0xC77int, 0xC7Fint), (0x1CDAint, 0x1CDAint)]
}

pub open spec fn telugu_scx_chunk_2() -> Seq<SRange> {
    seq![(0x1CF2int, 0x1CF2int)]
}

/// The ranges of the property Telugu.
pub open spec fn telugu_scx_ranges() -> Seq<SRange> {
    telugu_scx_chunk_0() + telugu_scx_chunk_1() + telugu_scx_chunk_2()
}

pub proof fn lemma_telugu_scx_canonical()
    ensures
        canonical(telugu_scx_ranges()),
{
    reveal_with_fuel(canonical, 9);
    assert(canonical(telugu_scx_chunk_0()));
    assert(canonical(telugu_scx_chunk_1()));
    assert(canonical(telugu_scx_chunk_2()));
    lemma_canonical_append(telugu_scx_chunk_0(), telugu_scx_chunk_1());
    lemma_canonical_append(telugu_scx_chunk_0() + telugu_scx_chunk_1(), telugu_scx_chunk_2());
}

fn push_telugu_scx_chunk_0(v: &mut Vec<ClassUnicodeRange>)
    ensures
        rview(final(v)@) == rview(old(v)@) + telugu_scx_chunk_0(),
{
    let ghost o = rview(v@);
    push_range(v, '\u{951}', '\u{952}');
    push_range(v, '\u{964}', '\u{965}');
    push_range(v, '\u{C00}', '\u{C0C}');
    push_range(v, '\u{C0E}', '\u{C10}');
    push_range(v, '\u{C12}', '\u{C28}');
    push_range(v, '\u{C2A}', '\u{C39}');
    push_range(v, '\u{C3C}', '\u{C44}');
    push_range(v, '\u{C46}', '\u{C48}');
    assert(rview(v@) =~= o + telugu_scx_chunk_0());
}

fn push_telugu_scx_chunk_1(v: &mut Vec<ClassUnicodeRange>)
    ensures
        rview(final(v)@) == rview(old(v)@) + telugu_scx_chunk_1(),
{
    let ghost o = rview(v@);
    push_range(v, '\u{C4A}', '\u{C4D}');
    push_range(v, '\u{C55}', '\u{C56}');
    push_range(v, '\u{C58}', '\u{C5A}');
    push_range(v, '\u{C5D}', '\u{C5D}');
    push_range(v, '\u{C60}', '\u{C63}');
    push_range(v, '\u{C66}', '\u{C6F}');
    push_range(v, '\u{C77}', '\u{C7F}');
    push_range(v, '\u{1CDA}', '\u{1CDA}');
    assert(rview(v@) =~= o + telugu_scx_chunk_1());
}

fn push_telugu_scx_chunk_2(v: &mut Vec<ClassUnicodeRange>)
    ensures
        rview(final(v)@) == rview(old(v)@) + telugu_scx_chunk_2(),
{
    let ghost o = rview(v@);
    push_range(v, '\u{1CF2}', '\u{1CF2}');
    assert(rview(v@) =~= o + telugu_scx_chunk_2());
}

pub fn telugu_scx_class() -> (v: Vec<ClassUnicodeRange>)
    ensures
        rview(v@) == telugu_scx_ranges(),
{
    let mut v: Vec<ClassUnicodeRange> = Vec::new();
    assert(rview(v@) =~= Seq::<SRange>::empty());
    push_telugu_scx_chunk_0(&mut v);
    assert(rview(v@) =~= telugu_scx_chunk_0());
    push_telugu_scx_chunk_1(&mut v);
    assert(rview(v@) =~= telugu_scx_chunk_0() + telugu_scx_chunk_1());
    push_telugu_scx_chunk_2(&mut v);
    assert(rview(v@) =~= telugu_scx_chunk_0() + telugu_scx_chunk_1() + telugu_scx_chunk_2());
    v
}

pub open spec fn thaana_scx_chunk_0() -> Seq<SRange> {
    seq![(0x60Cint, 0x60Cint), (0x61Bint, 0x61Cint), (0x61Fint, 0x61Fint), (0x660int, 0x669int), (0x780int, 0x7B1int), (0xFDF2int, 0xFDF2int), (0xFDFDint, 0xFDFDint)]
}

/// The ranges of the property Thaana.
pub open spec fn thaana_scx_ranges() -> Seq<SRange> {
    thaana_scx_chunk_0()
}

pub proof fn lemma_thaana_scx_canonical()
    ensures
        canonical(thaana_scx_ranges()),
{
    reveal_with_fuel(canonical, 9);
    assert(canonical(thaana_scx_chunk_0()));
}

fn push_thaana_scx_chunk_0(v: &mut Vec<ClassUnicodeRange>)
    ensures
        rview(final(v)@) == rview(old(v)@) + thaana_scx_chunk_0(),
{
    let ghost o = rview(v@);
    push_range(v, '\u{60C}', '\u{60C}');
    push_range(v, '\u{61B}', '\u{61C}');
    push_range(v, '\u{61F}', '\u{61F}');
    push_range(v, '\u{660}', '\u{669}');
    push_range(v, '\u{780}', '\u{7B1}');
    push_range(v, '\u{FDF2}', '\u{FDF2}');
    push_range(v, '\u{FDFD}', '\u{FDFD}');
    assert(rview(v@) =~= o + thaana_scx_chunk_0());
}

pub fn thaana_scx_class() -> (v: Vec<ClassUnicodeRange>)
    ensures
        rview(v@) == thaana_scx_ranges(),
{
    let mut v: Vec<ClassUnicodeRange> = Vec::new();
    assert(rview(v@) =~= Seq::<SRange>::empty());
    push_thaana_scx_chunk_0(&mut v);
    assert(rview(v@) =~= thaana_scx_chunk_0());
    v
}

pub open spec fn thai_scx_chunk_0() -> Seq<SRange> {
    seq![(0x2BCint, 0x2BCint), (0x2D7int, 0x2D7int), (0x303int, 0x303int), (0x331int, 0x331int), (0xE01int, 0xE3Aint), (0xE40int, 0xE5Bint)]
}

/// The ranges of the property Thai.
pub open spec fn thai_scx_ranges() -> Seq<SRange> {
    thai_scx_chunk_0()
}

pub proof fn lemma_thai_scx_canonical()
    ensures
        canonical(thai_scx_ranges()),
{
    reveal_with_fuel(canonical, 9);
    assert(canonical(thai_scx_chunk_0()));
}

fn push_thai_scx_chunk_0(v: &mut Vec<ClassUnicodeRange>)
    ensures
        rview(final(v)@) == rview(old(v)@) + thai_scx_chunk_0(),
{
    let ghost o = rview(v@);
    push_range(v, '\u{2BC}', '\u{2BC}');
    push_range(v, '\u{2D7}', '\u{2D7}');
    push_range(v, '\u{303}', '\u{303}');
    push_range(v, '\u{331}', '\u{331}');
    push_range(v, '\u{E01}', '\u{E3A}');
    push_range(v, '\u{E40}', '\u{E5B}');
    assert(rview(v@) =~= o + thai_scx_chunk_0());
}

pub fn thai_scx_class() -> (v: Vec<ClassUnicodeRange>)
    ensures
        rview(v@) == thai_scx_ranges(),
{
    let mut v: Vec<ClassUnicodeRange> = Vec::new();
    assert(rview(v@) =~= Seq::<SRange>::empty());
    push_thai_scx_chunk_0(&mut v);
    assert(rview(v@) =~= thai_scx_chunk_0());
    v
}

pub open spec fn tibetan_scx_chunk_0() -> Seq<SRange> {
    seq![(0xF00int, 0xF47int), (0xF49int, 0xF6Cint), (0xF71int, 0xF97int), (0xF99int, 0xFBCint), (0xFBEint, 0xFCCint), (0xFCEint, 0xFD4int), (0xFD9int, 0xFDAint), (0x3008int, 0x300Bint)]
}

/// The ranges of the property Tibetan.
pub open spec fn tibetan_scx_ranges() -> Seq<SRange> {
    tibetan_scx_chunk_0()
}

pub proof fn lemma_tibetan_scx_canonical()
    ensures
        canonical(tibetan_scx_ranges()),
{
    reveal_with_fuel(canonical, 9);
    assert(canonical(tibetan_scx_chunk_0()));
}

fn push_tibetan_scx_chunk_0(v: &mut Vec<ClassUnicodeRange>)
    ensures
        rview(final(v)@) == rview(old(v)@) + tibetan_scx_chunk_0(),
{
    let ghost o = rview(v@);
    push_range(v, '\u{F00}', '\u{F47}');
    push_range(v, '\u{F49}', '\u{F6C}');
    push_range(v, '\u{F71}', '\u{F97}');
    push_range(v, '\u{F99}', '\u{FBC}');
    push_range(v, '\u{FBE}', '\u{FCC}');
    push_range(v, '\u{FCE}', '\u{FD4}');
    push_range(v, '\u{FD9}', '\u{FDA}');
    push_range(v, '\u{3008}', '\u{300B}');
    assert(rview(v@) =~= o + tibetan_scx_chunk_0());
}

pub fn tibetan_scx_class() -> (v: Vec<ClassUnicodeRange>)
    ensures
        rview(v@) == tibetan_scx_ranges(),
{
    let mut v: Vec<ClassUnicodeRange> = Vec::new();
    assert(rview(v@) =~= Seq::<SRange>::empty());
    push_tibetan_scx_chunk_0(&mut v);
    assert(rview(v@) =~= tibetan_scx_chunk_0());
    v
}

pub open spec fn tifinagh_scx_chunk_0() -> Seq<SRange> {
    seq![(0x302int, 0x302int), (0x304int, 0x304int), (0x307int, 0x307int), (0x309int, 0x309int), (0x2D30int, 0x2D67int), (0x2D6Fint, 0x2D70int), (0x2D7Fint, 0x2D7Fint)]
}

/// The ranges of the property Tifinagh.
pub open spec fn tifinagh_scx_ranges() -> Seq<SRange> {
    tifinagh_scx_chunk_0()
}

pub proof fn lemma_tifinagh_scx_canonical()
    ensures
        canonical(tifinagh_scx_ranges()),
{
    reveal_with_fuel(canonical, 9);
    assert(canonical(tifinagh_scx_chunk_0()));
}

fn push_tifinagh_scx_chunk_0(v: &mut Vec<ClassUnicodeRange>)
    ensures
        rview(final(v)@) == rview(old(v)@) + tifinagh_scx_chunk_0(),
{
    let ghost o = rview(v@);
    push_range(v, '\u{302}', '\u{302}');
    push_range(v, '\u{304}', '\u{304}');
    push_range(v, '\u{307}', '\u{307}');
    push_range(v, '\u{309}', '\u{309}');
    push_range(v, '\u{2D30}', '\u{2D67}');
    push_range(v, '\u{2D6F}', '\u{2D70}');
    push_range(v, '\u{2D7F}', '\u{2D7F}');
    assert(rview(v@) =~= o + tifinagh_scx_chunk_0());
}

pub fn tifinagh_scx_class() -> (v: Vec<ClassUnicodeRange>)
    ensures
        rview(v@) == tifinagh_scx_ranges(),
{
    let mut v: Vec<ClassUnicodeRange> = Vec::new();
    assert(rview(v@) =~= Seq::<SRange>::empty());
    push_tifinagh_scx_chunk_0(&mut v);
    assert(rview(v@) =~= tifinagh_scx_chunk_0());
    v
}

pub open spec fn tirhuta_scx_chunk_0() -> Seq<SRange> {
    seq![(0x951int, 0x952int), (0x964int, 0x965int), (0x1CF2int, 0x1CF2int), (0xA830int, 0xA839int), (0x11480int, 0x114C7int), (0x114D0int, 0x114D9int)]
}

/// The ranges of the property Tirhuta.
pub open spec fn tirhuta_scx_ranges() -> Seq<SRange> {
    tirhuta_scx_chunk_0()
}

pub proof fn lemma_tirhuta_scx_canonical()
    ensures
        canonical(tirhuta_scx_ranges()),
{
    reveal_with_fuel(canonical, 9);
    assert(canonical(tirhuta_scx_chunk_0()));
}

fn push_tirhuta_scx_chunk_0(v: &mut Vec<ClassUnicodeRange>)
    ensures
        rview(final(v)@) == rview(old(v)@) + tirhuta_scx_chunk_0(),
{
    let ghost o = rview(v@);
    push_range(v, '\u{951}', '\u{952}');
    push_range(v, '\u{964}', '\u{965}');
    push_range(v, '\u{1CF2}', '\u{1CF2}');
    push_range(v, '\u{A830}', '\u{A839}');
    push_range(v, '\u{11480}', '\u{114C7}');
    push_range(v, '\u{114D0}', '\u{114D9}');
    assert(rview(v@) =~= o + tirhuta_scx_chunk_0());
}

pub fn tirhuta_scx_class() -> (v: Vec<ClassUnicodeRange>)
    ensures
        rview(v@) == tirhuta_scx_ranges(),
{
    let mut v: Vec<ClassUnicodeRange> = Vec::new();
    assert(rview(v@) =~= Seq::<SRange>::empty());
    push_tirhuta_scx_chunk_0(&mut v);
    assert(rview(v@) =~= tirhuta_scx_chunk_0());
    v
}

pub open spec fn todhri_scx_chunk_0() -> Seq<SRange> {
    seq![(0x301int, 0x301int), (0x304int, 0x304int), (0x307int, 0x307int), (0x311int, 0x311int), (0x313int, 0x313int), (0x35Eint, 0x35Eint), (0x105C0int, 0x105F3int)]
}

/// The ranges of the property Todhri.
pub open spec fn todhri_scx_ranges() -> Seq<SRange> {
    todhri_scx_chunk_0()
}

pub proof fn lemma_todhri_scx_canonical()
    ensures
        canonical(todhri_scx_ranges()),
{
    reveal_with_fuel(canonical, 9);
    assert(canonical(todhri_scx_chunk_0()));
}

fn push_todhri_scx_chunk_0(v: &mut Vec<ClassUnicodeRange>)
    ensures
        rview(final(v)@) == rview(old(v)@) + todhri_scx_chunk_0(),
{
    let ghost o = rview(v@);
    push_range(v, '\u{301}', '\u{301}');
    push_range(v, '\u{304}', '\u{304}');
    push_range(v, '\u{307}', '\u{307}');
    push_range(v, '\u{311}', '\u{311}');
    push_range(v, '\u{313}', '\u{313}');
    push_range(v, '\u{35E}', '\u{35E}');
    push_range(v, '\u{105C0}', '\u{105F3}');
    assert(rview(v@) =~= o + todhri_scx_chunk_0());
}

pub fn todhri_scx_class() -> (v: Vec<ClassUnicodeRange>)
    ensures
        rview(v@) == todhri_scx_ranges(),
{
    let mut v: Vec<ClassUnicodeRange> = Vec::new();
    assert(rview(v@) =~= Seq::<SRange>::empty());
    push_todhri_scx_chunk_0(&mut v);
    assert(rview(v@) =~= todhri_scx_chunk_0());
    v
}

pub open spec fn toto_scx_chunk_0() -> Seq<SRange> {
    seq![(0x2BCint, 0x2BCint), (0x1E290int, 0x1E2AEint)]
}

/// The ranges of the property Toto.
pub open spec fn toto_scx_ranges() -> Seq<SRange> {
    toto_scx_chunk_0()
}

pub proof fn lemma_toto_scx_canonical()
    ensures
        canonical(toto_scx_ranges()),
{
    reveal_with_fuel(canonical, 9);
    assert(canonical(toto_scx_chunk_0()));
}

fn push_toto_scx_chunk_0(v: &mut Vec<ClassUnicodeRange>)
    ensures
        rview(final(v)@) == rview(old(v)@) + toto_scx_chunk_0(),
{
    let ghost o = rview(v@);
    push_range(v, '\u{2BC}', '\u{2BC}');
    push_range(v, '\u{1E290}', '\u{1E2AE}');
    assert(rview(v@) =~= o + toto_scx_chunk_0());
}

pub fn toto_scx_class() -> (v: Vec<ClassUnicodeRange>)
    ensures
        rview(v@) == toto_scx_ranges(),
{
    let mut v: Vec<ClassUnicodeRange> = Vec::new();
    assert(rview(v@) =~= Seq::<SRange>::empty());
    push_toto_scx_chunk_0(&mut v);
    assert(rview(v@) =~= toto_scx_chunk_0());
    v
}

pub open spec fn tulu_tigalari_scx_chunk_0() -> Seq<SRange> {
    seq![(0xCE6int, 0xCEFint), (0x1CF2int, 0x1CF2int), (0x1CF4int, 0x1CF4int), (0xA830int, 0xA835int), (0xA8F1int, 0xA8F1int), (0x11380int, 0x11389int), (0x1138Bint, 0x1138Bint), (0x1138Eint, 0x1138Eint)]
}

pub open spec fn tulu_tigalari_scx_chunk_1() -> Seq<SRange> {
    seq![(0x11390int, 0x113B5int), (0x113B7int, 0x113C0int), (0x113C2int, 0x113C2int), (0x113C5int, 0x113C5int), (0x113C7int, 0x113CAint), (0x113CCint, 0x113D5int), (0x113D7int, 0x113D8int), (0x113E1int, 0x113E2int)]
}

/// The ranges of the property Tulu_Tigalari.
pub open spec fn tulu_tigalari_scx_ranges() -> Seq<SRange> {
    tulu_tigalari_scx_chunk_0() + tulu_tigalari_scx_chunk_1()
}

pub proof fn lemma_tulu_tigalari_scx_canonical()
    ensures
        canonical(tulu_tigalari_scx_ranges()),
{
    reveal_with_fuel(canonical, 9);
    assert(canonical(tulu_tigalari_scx_chunk_0()));
    assert(canonical(tulu_tigalari_scx_chunk_1()));
    lemma_canonical_append(tulu_tigalari_scx_chunk_0(), tulu_tigalari_scx_chunk_1());
}

fn push_tulu_tigalari_scx_chunk_0(v: &mut Vec<ClassUnicodeRange>)
    ensures
        rview(final(v)@) == rview(old(v)@) + tulu_tigalari_scx_chunk_0(),
{
    let ghost o = rview(v@);
    push_range(v, '\u{CE6}', '\u{CEF}');
    push_range(v, '\u{1CF2}', '\u{1CF2}');
    push_range(v, '\u{1CF4}', '\u{1CF4}');
    push_range(v, '\u{A830}', '\u{A835}');
    push_range(v, '\u{A8F1}', '\u{A8F1}');
    push_range(v, '\u{11380}', '\u{11389}');
    push_range(v, '\u{1138B}', '\u{1138B}');
    push_range(v, '\u{1138E}', '\u{1138E}');
    assert(rview(v@) =~= o + tulu_tigalari_scx_chunk_0());
}

fn push_tulu_tigalari_scx_chunk_1(v: &mut Vec<ClassUnicodeRange>)
    ensures
        rview(final(v)@) == rview(old(v)@) + tulu_tigalari_scx_chunk_1(),
{
    let ghost o = rview(v@);
    push_range(v, '\u{11390}', '\u{113B5}');
    push_range(v, '\u{113B7}', '\u{113C0}');
    push_range(v, '\u{113C2}', '\u{113C2}');
    push_range(v, '\u{113C5}', '\u{113C5}');
    push_range(v, '\u{113C7}', '\u{113CA}');
    push_range(v, '\u{113CC}', '\u{113D5}');
    push_range(v, '\u{113D7}', '\u{113D8}');
    push_range(v, '\u{113E1}', '\u{113E2}');
    assert(rview(v@) =~= o + tulu_tigalari_scx_chunk_1());
}

pub fn tulu_tigalari_scx_class() -> (v: Vec<ClassUnicodeRange>)
    ensures
        rview(v@) == tulu_tigalari_scx_ranges(),
{
    let mut v: Vec<ClassUnicodeRange> = Vec::new();
    assert(rview(v@) =~= Seq::<SRange>::empty());
    push_tulu_tigalari_scx_chunk_0(&mut v);
    assert(rview(v@) =~= tulu_tigalari_scx_chunk_0());
    push_tulu_tigalari_scx_chunk_1(&mut v);
    assert(rview(v@) =~= tulu_tigalari_scx_chunk_0() + tulu_tigalari_scx_chunk_1());
    v
}

pub open spec fn ugaritic_scx_chunk_0() -> Seq<SRange> {
    seq![(0x10380int, 0x1039Dint), (0x1039Fint, 0x1039Fint)]
}

/// The ranges of the property Ugaritic.
pub open spec fn ugaritic_scx_ranges() -> Seq<SRange> {
    ugaritic_scx_chunk_0()
}

pub proof fn lemma_ugaritic_scx_canonical()
    ensures
        canonical(ugaritic_scx_ranges()),
{
    reveal_with_fuel(canonical, 9);
    assert(canonical(ugaritic_scx_chunk_0()));
}

fn push_ugaritic_scx_chunk_0(v: &mut Vec<ClassUnicodeRange>)
    ensures
        rview(final(v)@) == rview(old(v)@) + ugaritic_scx_chunk_0(),
{
    let ghost o = rview(v@);
    push_range(v, '\u{10380}', '\u{1039D}');
    push_range(v, '\u{1039F}', '\u{1039F}');
    assert(rview(v@) =~= o + ugaritic_scx_chunk_0());
}

pub fn ugaritic_scx_class() -> (v: Vec<ClassUnicodeRange>)
    ensures
        rview(v@) == ugaritic_scx_ranges(),
{
    let mut v: Vec<ClassUnicodeRange> = Vec::new();
    assert(rview(v@) =~= Seq::<SRange>::empty());
    push_ugaritic_scx_chunk_0(&mut v);
    assert(rview(v@) =~= ugaritic_scx_chunk_0());
    v
}

pub open spec fn vai_scx_chunk_0() -> Seq<SRange> {
    seq![(0xA500int, 0xA62Bint)]
}

/// The ranges of the property Vai.
pub open spec fn vai_scx_ranges() -> Seq<SRange> {
    vai_scx_chunk_0()
}

pub proof fn lemma_vai_scx_canonical()
    ensures
        canonical(vai_scx_ranges()),
{
    reveal_with_fuel(canonical, 9);
    assert(canonical(vai_scx_chunk_0()));
}

fn push_vai_scx_chunk_0(v: &mut Vec<ClassUnicodeRange>)
    ensures
        rview(final(v)@) == rview(old(v)@) + vai_scx_chunk_0(),
{
    let ghost o = rview(v@);
    push_range(v, '\u{A500}', '\u{A62B}');
    assert(rview(v@) =~= o + vai_scx_chunk_0());
}

pub fn vai_scx_class() -> (v: Vec<ClassUnicodeRange>)
    ensures
        rview(v@) == vai_scx_ranges(),
{
    let mut v: Vec<ClassUnicodeRange> = Vec::new();
    assert(rview(v@) =~= Seq::<SRange>::empty());
    push_vai_scx_chunk_0(&mut v);
    assert(rview(v@) =~= vai_scx_chunk_0());
    v
}

pub open spec fn vithkuqi_scx_chunk_0() -> Seq<SRange> {
    seq![(0x10570int, 0x1057Aint), (0x1057Cint, 0x1058Aint), (0x1058Cint, 0x10592int), (0x10594int, 0x10595int), (0x10597int, 0x105A1int), (0x105A3int, 0x105B1int), (0x105B3int, 0x105B9int), (0x105BBint, 0x105BCint)]
}

/// The ranges of the property Vithkuqi.
pub open spec fn vithkuqi_scx_ranges() -> Seq<SRange> {
    vithkuqi_scx_chunk_0()
}

pub proof fn lemma_vithkuqi_scx_canonical()
    ensures
        canonical(vithkuqi_scx_ranges()),
{
    reveal_with_fuel(canonical, 9);
    assert(canonical(vithkuqi_scx_chunk_0()));
}

fn push_vithkuqi_scx_chunk_0(v: &mut Vec<ClassUnicodeRange>)
    ensures
        rview(final(v)@) == rview(old(v)@) + vithkuqi_scx_chunk_0(),
{
    let ghost o = rview(v@);
    push_range(v, '\u{10570}', '\u{1057A}');
    push_range(v, '\u{1057C}', '\u{1058A}');
    push_range(v, '\u{1058C}', '\u{10592}');
    push_range(v, '\u{10594}', '\u{10595}');
    push_range(v, '\u{10597}', '\u{105A1}');
    push_range(v, '\u{105A3}', '\u{105B1}');
    push_range(v, '\u{105B3}', '\u{105B9}');
    push_range(v, '\u{105BB}', '\u{105BC}');
    assert(rview(v@) =~= o + vithkuqi_scx_chunk_0());
}

pub fn vithkuqi_scx_class() -> (v: Vec<ClassUnicodeRange>)
    ensures
        rview(v@) == vithkuqi_scx_ranges(),
{
    let mut v: Vec<ClassUnicodeRange> = Vec::new();
    assert(rview(v@) =~= Seq::<SRange>::empty());
    push_vithkuqi_scx_chunk_0(&mut v);
    assert(rview(v@) =~= vithkuqi_scx_chunk_0());
    v
}

pub open spec fn wancho_scx_chunk_0() -> Seq<SRange> {
    seq![(0x1E2C0int, 0x1E2F9int), (0x1E2FFint, 0x1E2FFint)]
}

/// The ranges of the property Wancho.
pub open spec fn wancho_scx_ranges() -> Seq<SRange> {
    wancho_scx_chunk_0()
}

pub proof fn lemma_wancho_scx_canonical()
    ensures
        canonical(wancho_scx_ranges()),
{
    reveal_with_fuel(canonical, 9);
    assert(canonical(wancho_scx_chunk_0()));
}

fn push_wancho_scx_chunk_0(v: &mut Vec<ClassUnicodeRange>)
    ensures
        rview(final(v)@) == rview(old(v)@) + wancho_scx_chunk_0(),
{
    let ghost o = rview(v@);
    push_range(v, '\u{1E2C0}', '\u{1E2F9}');
    push_range(v, '\u{1E2FF}', '\u{1E2FF}');
    assert(rview(v@) =~= o + wancho_scx_chunk_0());
}

pub fn wancho_scx_class() -> (v: Vec<ClassUnicodeRange>)
    ensures
        rview(v@) == wancho_scx_ranges(),
{
    let mut v: Vec<ClassUnicodeRange> = Vec::new();
    assert(rview(v@) =~= Seq::<SRange>::empty());
    push_wancho_scx_chunk_0(&mut v);
    assert(rview(v@) =~= wancho_scx_chunk_0());
    v
}

pub open spec fn warang_citi_scx_chunk_0() -> Seq<SRange> {
    seq![(0x118A0int, 0x118F2int), (0x118FFint, 0x118FFint)]
}

/// The ranges of the property Warang_Citi.
pub open spec fn warang_citi_scx_ranges() -> Seq<SRange> {
    warang_citi_scx_chunk_0()
}

pub proof fn lemma_warang_citi_scx_canonical()
    ensures
        canonical(warang_citi_scx_ranges()),
{
    reveal_with_fuel(canonical, 9);
    assert(canonical(warang_citi_scx_chunk_0()));
}

fn push_warang_citi_scx_chunk_0(v: &mut Vec<ClassUnicodeRange>)
    ensures
        rview(final(v)@) == rview(old(v)@) + warang_citi_scx_chunk_0(),
{
    let ghost o = rview(v@);
    push_range(v, '\u{118A0}', '\u{118F2}');
    push_range(v, '\u{118FF}', '\u{118FF}');
    assert(rview(v@) =~= o + warang_citi_scx_chunk_0());
}

pub fn warang_citi_scx_class() -> (v: Vec<ClassUnicodeRange>)
    ensures
        rview(v@) == warang_citi_scx_ranges(),
{
    let mut v: Vec<ClassUnicodeRange> = Vec::new();
    assert(rview(v@) =~= Seq::<SRange>::empty());
    push_warang_citi_scx_chunk_0(&mut v);
    assert(rview(v@) =~= warang_citi_scx_chunk_0());
    v
}

pub open spec fn yezidi_scx_chunk_0() -> Seq<SRange> {
    seq![(0x60Cint, 0x60Cint), (0x61Bint, 0x61Bint), (0x61Fint, 0x61Fint), (0x660int, 0x669int), (0x10E80int, 0x10EA9int), (0x10EABint, 0x10EADint), (0x10EB0int, 0x10EB1int)]
}

/// The ranges of the property Yezidi.
pub open spec fn yezidi_scx_ranges() -> Seq<SRange> {
    yezidi_scx_chunk_0()
}

pub proof fn lemma_yezidi_scx_canonical()
    ensures
        canonical(yezidi_scx_ranges()),
{
    reveal_with_fuel(canonical, 9);
    assert(canonical(yezidi_scx_chunk_0()));
}

fn push_yezidi_scx_chunk_0(v: &mut Vec<ClassUnicodeRange>)
    ensures
        rview(final(v)@) == rview(old(v)@) + yezidi_scx_chunk_0(),
{
    let ghost o = rview(v@);
    push_range(v, '\u{60C}', '\u{60C}');
    push_range(v, '\u{61B}', '\u{61B}');
    push_range(v, '\u{61F}', '\u{61F}');
    push_range(v, '\u{660}', '\u{669}');
    push_range(v, '\u{10E80}', '\u{10EA9}');
    push_range(v, '\u{10EAB}', '\u{10EAD}');
    push_range(v, '\u{10EB0}', '\u{10EB1}');
    assert(rview(v@) =~= o + yezidi_scx_chunk_0());
}

pub fn yezidi_scx_class() -> (v: Vec<ClassUnicodeRange>)
    ensures
        rview(v@) == yezidi_scx_ranges(),
{
    let mut v: Vec<ClassUnicodeRange> = Vec::new();
    assert(rview(v@) =~= Seq::<SRange>::empty());
    push_yezidi_scx_chunk_0(&mut v);
    assert(rview(v@) =~= yezidi_scx_chunk_0());
    v
}

pub open spec fn yi_scx_chunk_0() -> Seq<SRange> {
    seq![(0x3001int, 0x3002int), (0x3008int, 0x3011int), (0x3014int, 0x301Bint), (0x30FBint, 0x30FBint), (0xA000int, 0xA48Cint), (0xA490int, 0xA4C6int), (0xFF61int, 0xFF65int)]
}

/// The ranges of the property Yi.
pub open spec fn yi_scx_ranges() -> Seq<SRange> {
    yi_scx_chunk_0()
}

pub proof fn lemma_yi_scx_canonical()
    ensures
        canonical(yi_scx_ranges()),
{
    reveal_with_fuel(canonical, 9);
    assert(canonical(yi_scx_chunk_0()));
}

fn push_yi_scx_chunk_0(v: &mut Vec<ClassUnicodeRange>)
    ensures
        rview(final(v)@) == rview(old(v)@) + yi_scx_chunk_0(),
{
    let ghost o = rview(v@);
    push_range(v, '\u{3001}', '\u{3002}');
    push_range(v, '\u{3008}', '\u{3011}');
    push_range(v, '\u{3014}', '\u{301B}');
    push_range(v, '\u{30FB}', '\u{30FB}');
    push_range(v, '\u{A000}', '\u{A48C}');
    push_range(v, '\u{A490}', '\u{A4C6}');
    push_range(v, '\u{FF61}', '\u{FF65}');
    assert(rview(v@) =~= o + yi_scx_chunk_0());
}

pub fn yi_scx_class() -> (v: Vec<ClassUnicodeRange>)
    ensures
        rview(v@) == yi_scx_ranges(),
{
    let mut v: Vec<ClassUnicodeRange> = Vec::new();
    assert(rview(v@) =~= Seq::<SRange>::empty());
    push_yi_scx_chunk_0(&mut v);
    assert(rview(v@) =~= yi_scx_chunk_0());
    v
}

pub open spec fn zanabazar_square_scx_chunk_0() -> Seq<SRange> {
    seq![(0x11A00int, 0x11A47int)]
}

/// The ranges of the property Zanabazar_Square.
pub open spec fn zanabazar_square_scx_ranges() -> Seq<SRange> {
    zanabazar_square_scx_chunk_0()
}

pub proof fn lemma_zanabazar_square_scx_canonical()
    ensures
        canonical(zanabazar_square_scx_ranges()),
{
    reveal_with_fuel(canonical, 9);
    assert(canonical(zanabazar_square_scx_chunk_0()));
}

fn push_zanabazar_square_scx_chunk_0(v: &mut Vec<ClassUnicodeRange>)
    ensures
        rview(final(v)@) == rview(old(v)@) + zanabazar_square_scx_chunk_0(),
{
    let ghost o = rview(v@);
    push_range(v, '\u{11A00}', '\u{11A47}');
    assert(rview(v@) =~= o + zanabazar_square_scx_chunk_0());
}

pub fn zanabazar_square_scx_class() -> (v: Vec<ClassUnicodeRange>)
    ensures
        rview(v@) == zanabazar_square_scx_ranges(),
{
    let mut v: Vec<ClassUnicodeRange> = Vec::new();
    assert(rview(v@) =~= Seq::<SRange>::empty());
    push_zanabazar_square_scx_chunk_0(&mut v);
    assert(rview(v@) =~= zanabazar_square_scx_chunk_0());
    v
}

/// The ranges of the characters whose script extensions hold a script.
pub open spec fn scx_ranges(s: Script) -> Seq<SRange> {
    match s {
        Script::Adlam => adlam_scx_ranges(),
        Script::Ahom => ahom_scx_ranges(),
        Script::AnatolianHieroglyphs => anatolian_hieroglyphs_scx_ranges(),
        Script::Arabic => arabic_scx_ranges(),
        Script::Armenian => armenian_scx_ranges(),
        Script::Avestan => avestan_scx_ranges(),
        Script::Balinese => balinese_scx_ranges(),
        Script::Bamum => bamum_scx_ranges(),
        Script::BassaVah => bassa_vah_scx_ranges(),
        Script::Batak => batak_scx_ranges(),
        Script::Bengali => bengali_scx_ranges(),
        Script::Bhaiksuki => bhaiksuki_scx_ranges(),
        Script::Bopomofo => bopomofo_scx_ranges(),
        Script::Brahmi => brahmi_scx_ranges(),
        Script::Braille => braille_scx_ranges(),
        Script::Buginese => buginese_scx_ranges(),
        Script::Buhid => buhid_scx_ranges(),
        Script::CanadianAboriginal => canadian_aboriginal_scx_ranges(),
        Script::Carian => carian_scx_ranges(),
        Script::CaucasianAlbanian => caucasian_albanian_scx_ranges(),
        Script::Chakma => chakma_scx_ranges(),
        Script::Cham => cham_scx_ranges(),
        Script::Cherokee => cherokee_scx_ranges(),
        Script::Chorasmian => chorasmian_scx_ranges(),
        Script::Common => common_scx_ranges(),
        Script::Coptic => coptic_scx_ranges(),
        Script::Cuneiform => cuneiform_scx_ranges(),
        Script::Cypriot => cypriot_scx_ranges(),
        Script::CyproMinoan => cypro_minoan_scx_ranges(),
        Script::Cyrillic => cyrillic_scx_ranges(),
        Script::Deseret => deseret_scx_ranges(),
        Script::Devanagari => devanagari_scx_ranges(),
        Script::DivesAkuru => dives_akuru_scx_ranges(),
        Script::Dogra => dogra_scx_ranges(),
        Script::Duployan => duployan_scx_ranges(),
        Script::EgyptianHieroglyphs => egyptian_hieroglyphs_scx_ranges(),
        Script::Elbasan => elbasan_scx_ranges(),
        Script::Elymaic => elymaic_scx_ranges(),
        Script::Ethiopic => ethiopic_scx_ranges(),
        Script::Garay => garay_scx_ranges(),
        Script::Georgian => georgian_scx_ranges(),
        Script::Glagolitic => glagolitic_scx_ranges(),
        Script::Gothic => gothic_scx_ranges(),
        Script::Grantha => grantha_scx_ranges(),
        Script::Greek => greek_scx_ranges(),
        Script::Gujarati => gujarati_scx_ranges(),
        Script::GunjalaGondi => gunjala_gondi_scx_ranges(),
        Script::Gurmukhi => gurmukhi_scx_ranges(),
        Script::GurungKhema => gurung_khema_scx_ranges(),
        Script::Han => han_scx_ranges(),
        Script::Hangul => hangul_scx_ranges(),
        Script::HanifiRohingya => hanifi_rohingya_scx_ranges(),
        Script::Hanunoo => hanunoo_scx_ranges(),
        Script::Hatran => hatran_scx_ranges(),
        Script::Hebrew => hebrew_scx_ranges(),
        Script::Hiragana => hiragana_scx_ranges(),
        Script::ImperialAramaic => imperial_aramaic_scx_ranges(),
        Script::Inherited => inherited_scx_ranges(),
        Script::InscriptionalPahlavi => inscriptional_pahlavi_scx_ranges(),
        Script::InscriptionalParthian => inscriptional_parthian_scx_ranges(),
        Script::Javanese => javanese_scx_ranges(),
        Script::Kaithi => kaithi_scx_ranges(),
        Script::Kannada => kannada_scx_ranges(),
        Script::Katakana => katakana_scx_ranges(),
        Script::Kawi => kawi_scx_ranges(),
        Script::KayahLi => kayah_li_scx_ranges(),
        Script::Kharoshthi => kharoshthi_scx_ranges(),
        Script::KhitanSmallScript => khitan_small_script_scx_ranges(),
        Script::Khmer => khmer_scx_ranges(),
        Script::Khojki => khojki_scx_ranges(),
        Script::Khudawadi => khudawadi_scx_ranges(),
        Script::KiratRai => kirat_rai_scx_ranges(),
        Script::Lao => lao_scx_ranges(),
        Script::Latin => latin_scx_ranges(),
        Script::Lepcha => lepcha_scx_ranges(),
        Script::Limbu => limbu_scx_ranges(),
        Script::LinearA => linear_a_scx_ranges(),
        Script::LinearB => linear_b_scx_ranges(),
        Script::Lisu => lisu_scx_ranges(),
        Script::Lycian => lycian_scx_ranges(),
        Script::Lydian => lydian_scx_ranges(),
        Script::Mahajani => mahajani_scx_ranges(),
        Script::Makasar => makasar_scx_ranges(),
        Script::Malayalam => malayalam_scx_ranges(),
        Script::Mandaic => mandaic_scx_ranges(),
        Script::Manichaean => manichaean_scx_ranges(),
        Script::Marchen => marchen_scx_ranges(),
        Script::MasaramGondi => masaram_gondi_scx_ranges(),
        Script::Medefaidrin => medefaidrin_scx_ranges(),
        Script::MeeteiMayek => meetei_mayek_scx_ranges(),
        Script::MendeKikakui => mende_kikakui_scx_ranges(),
        Script::MeroiticCursive => meroitic_cursive_scx_ranges(),
        Script::MeroiticHieroglyphs => meroitic_hieroglyphs_scx_ranges(),
        Script::Miao => miao_scx_ranges(),
        Script::Modi => modi_scx_ranges(),
        Script::Mongolian => mongolian_scx_ranges(),
        Script::Mro => mro_scx_ranges(),
        Script::Multani => multani_scx_ranges(),
        Script::Myanmar => myanmar_scx_ranges(),
        Script::Nabataean => nabataean_scx_ranges(),
        Script::NagMundari => nag_mundari_scx_ranges(),
        Script::Nandinagari => nandinagari_scx_ranges(),
        Script::NewTaiLue => new_tai_lue_scx_ranges(),
        Script::Newa => newa_scx_ranges(),
        Script::Nko => nko_scx_ranges(),
        Script::Nushu => nushu_scx_ranges(),
        Script::NyiakengPuachueHmong => nyiakeng_puachue_hmong_scx_ranges(),
        Script::Ogham => ogham_scx_ranges(),
        Script::OlChiki => ol_chiki_scx_ranges(),
        Script::OlOnal => ol_onal_scx_ranges(),
        Script::OldHungarian => old_hungarian_scx_ranges(),
        Script::OldItalic => old_italic_scx_ranges(),
        Script::OldNorthArabian => old_north_arabian_scx_ranges(),
        Script::OldPermic => old_permic_scx_ranges(),
        Script::OldPersian => old_persian_scx_ranges(),
        Script::OldSogdian => old_sogdian_scx_ranges(),
        Script::OldSouthArabian => old_south_arabian_scx_ranges(),
        Script::OldTurkic => old_turkic_scx_ranges(),
        Script::OldUyghur => old_uyghur_scx_ranges(),
        Script::Oriya => oriya_scx_ranges(),
        Script::Osage => osage_scx_ranges(),
        Script::Osmanya => osmanya_scx_ranges(),
        Script::PahawhHmong => pahawh_hmong_scx_ranges(),
        Script::Palmyrene => palmyrene_scx_ranges(),
        Script::PauCinHau => pau_cin_hau_scx_ranges(),
        Script::PhagsPa => phags_pa_scx_ranges(),
        Script::Phoenician => phoenician_scx_ranges(),
        Script::PsalterPahlavi => psalter_pahlavi_scx_ranges(),
        Script::Rejang => rejang_scx_ranges(),
        Script::Runic => runic_scx_ranges(),
        Script::Samaritan => samaritan_scx_ranges(),
        Script::Saurashtra => saurashtra_scx_ranges(),
        Script::Sharada => sharada_scx_ranges(),
        Script::Shavian => shavian_scx_ranges(),
        Script::Siddham => siddham_scx_ranges(),
        Script::SignWriting => signwriting_scx_ranges(),
        Script::Sinhala => sinhala_scx_ranges(),
        Script::Sogdian => sogdian_scx_ranges(),
        Script::SoraSompeng => sora_sompeng_scx_ranges(),
        Script::Soyombo => soyombo_scx_ranges(),
        Script::Sundanese => sundanese_scx_ranges(),
        Script::Sunuwar => sunuwar_scx_ranges(),
        Script::SylotiNagri => syloti_nagri_scx_ranges(),
        Script::Syriac => syriac_scx_ranges(),
        Script::Tagalog => tagalog_scx_ranges(),
        Script::Tagbanwa => tagbanwa_scx_ranges(),
        Script::TaiLe => tai_le_scx_ranges(),
        Script::TaiTham => tai_tham_scx_ranges(),
        Script::TaiViet => tai_viet_scx_ranges(),
        Script::Takri => takri_scx_ranges(),
        Script::Tamil => tamil_scx_ranges(),
        Script::Tangsa => tangsa_scx_ranges(),
        Script::Tangut => tangut_scx_ranges(),
        Script::Telugu => telugu_scx_ranges(),
        Script::Thaana => thaana_scx_ranges(),
        Script::Thai => thai_scx_ranges(),
        Script::Tibetan => tibetan_scx_ranges(),
        Script::Tifinagh => tifinagh_scx_ranges(),
        Script::Tirhuta => tirhuta_scx_ranges(),
        Script::Todhri => todhri_scx_ranges(),
        Script::Toto => toto_scx_ranges(),
        Script::TuluTigalari => tulu_tigalari_scx_ranges(),
        Script::Ugaritic => ugaritic_scx_ranges(),
        Script::Vai => vai_scx_ranges(),
        Script::Vithkuqi => vithkuqi_scx_ranges(),
        Script::Wancho => wancho_scx_ranges(),
        Script::WarangCiti => warang_citi_scx_ranges(),
        Script::Yezidi => yezidi_scx_ranges(),
        Script::Yi => yi_scx_ranges(),
        Script::ZanabazarSquare => zanabazar_square_scx_ranges(),
    }
}

pub proof fn lemma_scx_canonical(s: Script)
    ensures
        canonical(scx_ranges(s)),
{
    match s {
        Script::Adlam => lemma_adlam_scx_canonical(),
        Script::Ahom => lemma_ahom_scx_canonical(),
        Script::AnatolianHieroglyphs => lemma_anatolian_hieroglyphs_scx_canonical(),
        Script::Arabic => lemma_arabic_scx_canonical(),
        Script::Armenian => lemma_armenian_scx_canonical(),
        Script::Avestan => lemma_avestan_scx_canonical(),
        Script::Balinese => lemma_balinese_scx_canonical(),
        Script::Bamum => lemma_bamum_scx_canonical(),
        Script::BassaVah => lemma_bassa_vah_scx_canonical(),
        Script::Batak => lemma_batak_scx_canonical(),
        Script::Bengali => lemma_bengali_scx_canonical(),
        Script::Bhaiksuki => lemma_bhaiksuki_scx_canonical(),
        Script::Bopomofo => lemma_bopomofo_scx_canonical(),
        Script::Brahmi => lemma_brahmi_scx_canonical(),
        Script::Braille => lemma_braille_scx_canonical(),
        Script::Buginese => lemma_buginese_scx_canonical(),
        Script::Buhid => lemma_buhid_scx_canonical(),
        Script::CanadianAboriginal => lemma_canadian_aboriginal_scx_canonical(),
        Script::Carian => lemma_carian_scx_canonical(),
        Script::CaucasianAlbanian => lemma_caucasian_albanian_scx_canonical(),
        Script::Chakma => lemma_chakma_scx_canonical(),
        Script::Cham => lemma_cham_scx_canonical(),
        Script::Cherokee => lemma_cherokee_scx_canonical(),
        Script::Chorasmian => lemma_chorasmian_scx_canonical(),
        Script::Common => lemma_common_scx_canonical(),
        Script::Coptic => lemma_coptic_scx_canonical(),
        Script::Cuneiform => lemma_cuneiform_scx_canonical(),
        Script::Cypriot => lemma_cypriot_scx_canonical(),
        Script::CyproMinoan => lemma_cypro_minoan_scx_canonical(),
        Script::Cyrillic => lemma_cyrillic_scx_canonical(),
        Script::Deseret => lemma_deseret_scx_canonical(),
        Script::Devanagari => lemma_devanagari_scx_canonical(),
        Script::DivesAkuru => lemma_dives_akuru_scx_canonical(),
        Script::Dogra => lemma_dogra_scx_canonical(),
        Script::Duployan => lemma_duployan_scx_canonical(),
        Script::EgyptianHieroglyphs => lemma_egyptian_hieroglyphs_scx_canonical(),
        Script::Elbasan => lemma_elbasan_scx_canonical(),
        Script::Elymaic => lemma_elymaic_scx_canonical(),
        Script::Ethiopic => lemma_ethiopic_scx_canonical(),
        Script::Garay => lemma_garay_scx_canonical(),
        Script::Georgian => lemma_georgian_scx_canonical(),
        Script::Glagolitic => lemma_glagolitic_scx_canonical(),
        Script::Gothic => lemma_gothic_scx_canonical(),
        Script::Grantha => lemma_grantha_scx_canonical(),
        Script::Greek => lemma_greek_scx_canonical(),
        Script::Gujarati => lemma_gujarati_scx_canonical(),
        Script::GunjalaGondi => lemma_gunjala_gondi_scx_canonical(),
        Script::Gurmukhi => lemma_gurmukhi_scx_canonical(),
        Script::GurungKhema => lemma_gurung_khema_scx_canonical(),
        Script::Han => lemma_han_scx_canonical(),
        Script::Hangul => lemma_hangul_scx_canonical(),
        Script::HanifiRohingya => lemma_hanifi_rohingya_scx_canonical(),
        Script::Hanunoo => lemma_hanunoo_scx_canonical(),
        Script::Hatran => lemma_hatran_scx_canonical(),
        Script::Hebrew => lemma_hebrew_scx_canonical(),
        Script::Hiragana => lemma_hiragana_scx_canonical(),
        Script::ImperialAramaic => lemma_imperial_aramaic_scx_canonical(),
        Script::Inherited => lemma_inherited_scx_canonical(),
        Script::InscriptionalPahlavi => lemma_inscriptional_pahlavi_scx_canonical(),
        Script::InscriptionalParthian => lemma_inscriptional_parthian_scx_canonical(),
        Script::Javanese => lemma_javanese_scx_canonical(),
        Script::Kaithi => lemma_kaithi_scx_canonical(),
        Script::Kannada => lemma_kannada_scx_canonical(),
        Script::Katakana => lemma_katakana_scx_canonical(),
        Script::Kawi => lemma_kawi_scx_canonical(),
        Script::KayahLi => lemma_kayah_li_scx_canonical(),
        Script::Kharoshthi => lemma_kharoshthi_scx_canonical(),
        Script::KhitanSmallScript => lemma_khitan_small_script_scx_canonical(),
        Script::Khmer => lemma_khmer_scx_canonical(),
        Script::Khojki => lemma_khojki_scx_canonical(),
        Script::Khudawadi => lemma_khudawadi_scx_canonical(),
        Script::KiratRai => lemma_kirat_rai_scx_canonical(),
        Script::Lao => lemma_lao_scx_canonical(),
        Script::Latin => lemma_latin_scx_canonical(),
        Script::Lepcha => lemma_lepcha_scx_canonical(),
        Script::Limbu => lemma_limbu_scx_canonical(),
        Script::LinearA => lemma_linear_a_scx_canonical(),
        Script::LinearB => lemma_linear_b_scx_canonical(),
        Script::Lisu => lemma_lisu_scx_canonical(),
        Script::Lycian => lemma_lycian_scx_canonical(),
        Script::Lydian => lemma_lydian_scx_canonical(),
        Script::Mahajani => lemma_mahajani_scx_canonical(),
        Script::Makasar => lemma_makasar_scx_canonical(),
        Script::Malayalam => lemma_malayalam_scx_canonical(),
        Script::Mandaic => lemma_mandaic_scx_canonical(),
        Script::Manichaean => lemma_manichaean_scx_canonical(),
        Script::Marchen => lemma_marchen_scx_canonical(),
        Script::MasaramGondi => lemma_masaram_gondi_scx_canonical(),
        Script::Medefaidrin => lemma_medefaidrin_scx_canonical(),
        Script::MeeteiMayek => lemma_meetei_mayek_scx_canonical(),
        Script::MendeKikakui => lemma_mende_kikakui_scx_canonical(),
        Script::MeroiticCursive => lemma_meroitic_cursive_scx_canonical(),
        Script::MeroiticHieroglyphs => lemma_meroitic_hieroglyphs_scx_canonical(),
        Script::Miao => lemma_miao_scx_canonical(),
        Script::Modi => lemma_modi_scx_canonical(),
        Script::Mongolian => lemma_mongolian_scx_canonical(),
        Script::Mro => lemma_mro_scx_canonical(),
        Script::Multani => lemma_multani_scx_canonical(),
        Script::Myanmar => lemma_myanmar_scx_canonical(),
        Script::Nabataean => lemma_nabataean_scx_canonical(),
        Script::NagMundari => lemma_nag_mundari_scx_canonical(),
        Script::Nandinagari => lemma_nandinagari_scx_canonical(),
        Script::NewTaiLue => lemma_new_tai_lue_scx_canonical(),
        Script::Newa => lemma_newa_scx_canonical(),
        Script::Nko => lemma_nko_scx_canonical(),
        Script::Nushu => lemma_nushu_scx_canonical(),
        Script::NyiakengPuachueHmong => lemma_nyiakeng_puachue_hmong_scx_canonical(),
        Script::Ogham => lemma_ogham_scx_canonical(),
        Script::OlChiki => lemma_ol_chiki_scx_canonical(),
        Script::OlOnal => lemma_ol_onal_scx_canonical(),
        Script::OldHungarian => lemma_old_hungarian_scx_canonical(),
        Script::OldItalic => lemma_old_italic_scx_canonical(),
        Script::OldNorthArabian => lemma_old_north_arabian_scx_canonical(),
        Script::OldPermic => lemma_old_permic_scx_canonical(),
        Script::OldPersian => lemma_old_persian_scx_canonical(),
        Script::OldSogdian => lemma_old_sogdian_scx_canonical(),
        Script::OldSouthArabian => lemma_old_south_arabian_scx_canonical(),
        Script::OldTurkic => lemma_old_turkic_scx_canonical(),
        Script::OldUyghur => lemma_old_uyghur_scx_canonical(),
        Script::Oriya => lemma_oriya_scx_canonical(),
        Script::Osage => lemma_osage_scx_canonical(),
        Script::Osmanya => lemma_osmanya_scx_canonical(),
        Script::PahawhHmong => lemma_pahawh_hmong_scx_canonical(),
        Script::Palmyrene => lemma_palmyrene_scx_canonical(),
        Script::PauCinHau => lemma_pau_cin_hau_scx_canonical(),
        Script::PhagsPa => lemma_phags_pa_scx_canonical(),
        Script::Phoenician => lemma_phoenician_scx_canonical(),
        Script::PsalterPahlavi => lemma_psalter_pahlavi_scx_canonical(),
        Script::Rejang => lemma_rejang_scx_canonical(),
        Script::Runic => lemma_runic_scx_canonical(),
        Script::Samaritan => lemma_samaritan_scx_canonical(),
        Script::Saurashtra => lemma_saurashtra_scx_canonical(),
        Script::Sharada => lemma_sharada_scx_canonical(),
        Script::Shavian => lemma_shavian_scx_canonical(),
        Script::Siddham => lemma_siddham_scx_canonical(),
        Script::SignWriting => lemma_signwriting_scx_canonical(),
        Script::Sinhala => lemma_sinhala_scx_canonical(),
        Script::Sogdian => lemma_sogdian_scx_canonical(),
        Script::SoraSompeng => lemma_sora_sompeng_scx_canonical(),
        Script::Soyombo => lemma_soyombo_scx_canonical(),
        Script::Sundanese => lemma_sundanese_scx_canonical(),
        Script::Sunuwar => lemma_sunuwar_scx_canonical(),
        Script::SylotiNagri => lemma_syloti_nagri_scx_canonical(),
        Script::Syriac => lemma_syriac_scx_canonical(),
        Script::Tagalog => lemma_tagalog_scx_canonical(),
        Script::Tagbanwa => lemma_tagbanwa_scx_canonical(),
        Script::TaiLe => lemma_tai_le_scx_canonical(),
        Script::TaiTham => lemma_tai_tham_scx_canonical(),
        Script::TaiViet => lemma_tai_viet_scx_canonical(),
        Script::Takri => lemma_takri_scx_canonical(),
        Script::Tamil => lemma_tamil_scx_canonical(),
        Script::Tangsa => lemma_tangsa_scx_canonical(),
        Script::Tangut => lemma_tangut_scx_canonical(),
        Script::Telugu => lemma_telugu_scx_canonical(),
        Script::Thaana => lemma_thaana_scx_canonical(),
        Script::Thai => lemma_thai_scx_canonical(),
        Script::Tibetan => lemma_tibetan_scx_canonical(),
        Script::Tifinagh => lemma_tifinagh_scx_canonical(),
        Script::Tirhuta => lemma_tirhuta_scx_canonical(),
        Script::Todhri => lemma_todhri_scx_canonical(),
        Script::Toto => lemma_toto_scx_canonical(),
        Script::TuluTigalari => lemma_tulu_tigalari_scx_canonical(),
        Script::Ugaritic => lemma_ugaritic_scx_canonical(),
        Script::Vai => lemma_vai_scx_canonical(),
        Script::Vithkuqi => lemma_vithkuqi_scx_canonical(),
        Script::Wancho => lemma_wancho_scx_canonical(),
        Script::WarangCiti => lemma_warang_citi_scx_canonical(),
        Script::Yezidi => lemma_yezidi_scx_canonical(),
        Script::Yi => lemma_yi_scx_canonical(),
        Script::ZanabazarSquare => lemma_zanabazar_square_scx_canonical(),
    }
}

/// The class of the characters whose script extensions hold a script.
pub fn scx_class(s: Script) -> (v: Vec<ClassUnicodeRange>)
    ensures
        rview(v@) == scx_ranges(s),
{
    match s {
        Script::Adlam => adlam_scx_class(),
        Script::Ahom => ahom_scx_class(),
        Script::AnatolianHieroglyphs => anatolian_hieroglyphs_scx_class(),
        Script::Arabic => arabic_scx_class(),
        Script::Armenian => armenian_scx_class(),
        Script::Avestan => avestan_scx_class(),
        Script::Balinese => balinese_scx_class(),
        Script::Bamum => bamum_scx_class(),
        Script::BassaVah => bassa_vah_scx_class(),
        Script::Batak => batak_scx_class(),
        Script::Bengali => bengali_scx_class(),
        Script::Bhaiksuki => bhaiksuki_scx_class(),
        Script::Bopomofo => bopomofo_scx_class(),
        Script::Brahmi => brahmi_scx_class(),
        Script::Braille => braille_scx_class(),
        Script::Buginese => buginese_scx_class(),
        Script::Buhid => buhid_scx_class(),
        Script::CanadianAboriginal => canadian_aboriginal_scx_class(),
        Script::Carian => carian_scx_class(),
        Script::CaucasianAlbanian => caucasian_albanian_scx_class(),
        Script::Chakma => chakma_scx_class(),
        Script::Cham => cham_scx_class(),
        Script::Cherokee => cherokee_scx_class(),
        Script::Chorasmian => chorasmian_scx_class(),
        Script::Common => common_scx_class(),
        Script::Coptic => coptic_scx_class(),
        Script::Cuneiform => cuneiform_scx_class(),
        Script::Cypriot => cypriot_scx_class(),
        Script::CyproMinoan => cypro_minoan_scx_class(),
        Script::Cyrillic => cyrillic_scx_class(),
        Script::Deseret => deseret_scx_class(),
        Script::Devanagari => devanagari_scx_class(),
        Script::DivesAkuru => dives_akuru_scx_class(),
        Script::Dogra => dogra_scx_class(),
        Script::Duployan => duployan_scx_class(),
        Script::EgyptianHieroglyphs => egyptian_hieroglyphs_scx_class(),
        Script::Elbasan => elbasan_scx_class(),
        Script::Elymaic => elymaic_scx_class(),
        Script::Ethiopic => ethiopic_scx_class(),
        Script::Garay => garay_scx_class(),
        Script::Georgian => georgian_scx_class(),
        Script::Glagolitic => glagolitic_scx_class(),
        Script::Gothic => gothic_scx_class(),
        Script::Grantha => grantha_scx_class(),
        Script::Greek => greek_scx_class(),
        Script::Gujarati => gujarati_scx_class(),
        Script::GunjalaGondi => gunjala_gondi_scx_class(),
        Script::Gurmukhi => gurmukhi_scx_class(),
        Script::GurungKhema => gurung_khema_scx_class(),
        Script::Han => han_scx_class(),
        Script::Hangul => hangul_scx_class(),
        Script::HanifiRohingya => hanifi_rohingya_scx_class(),
        Script::Hanunoo => hanunoo_scx_class(),
        Script::Hatran => hatran_scx_class(),
        Script::Hebrew => hebrew_scx_class(),
        Script::Hiragana => hiragana_scx_class(),
        Script::ImperialAramaic => imperial_aramaic_scx_class(),
        Script::Inherited => inherited_scx_class(),
        Script::InscriptionalPahlavi => inscriptional_pahlavi_scx_class(),
        Script::InscriptionalParthian => inscriptional_parthian_scx_class(),
        Script::Javanese => javanese_scx_class(),
        Script::Kaithi => kaithi_scx_class(),
        Script::Kannada => kannada_scx_class(),
        Script::Katakana => katakana_scx_class(),
        Script::Kawi => kawi_scx_class(),
        Script::KayahLi => kayah_li_scx_class(),
        Script::Kharoshthi => kharoshthi_scx_class(),
        Script::KhitanSmallScript => khitan_small_script_scx_class(),
        Script::Khmer => khmer_scx_class(),
        Script::Khojki => khojki_scx_class(),
        Script::Khudawadi => khudawadi_scx_class(),
        Script::KiratRai => kirat_rai_scx_class(),
        Script::Lao => lao_scx_class(),
        Script::Latin => latin_scx_class(),
        Script::Lepcha => lepcha_scx_class(),
        Script::Limbu => limbu_scx_class(),
        Script::LinearA => linear_a_scx_class(),
        Script::LinearB => linear_b_scx_class(),
        Script::Lisu => lisu_scx_class(),
        Script::Lycian => lycian_scx_class(),
        Script::Lydian => lydian_scx_class(),
        Script::Mahajani => mahajani_scx_class(),
        Script::Makasar => makasar_scx_class(),
        Script::Malayalam => malayalam_scx_class(),
        Script::Mandaic => mandaic_scx_class(),
        Script::Manichaean => manichaean_scx_class(),
        Script::Marchen => marchen_scx_class(),
        Script::MasaramGondi => masaram_gondi_scx_class(),
        Script::Medefaidrin => medefaidrin_scx_class(),
        Script::MeeteiMayek => meetei_mayek_scx_class(),
        Script::MendeKikakui => mende_kikakui_scx_class(),
        Script::MeroiticCursive => meroitic_cursive_scx_class(),
        Script::MeroiticHieroglyphs => meroitic_hieroglyphs_scx_class(),
        Script::Miao => miao_scx_class(),
        Script::Modi => modi_scx_class(),
        Script::Mongolian => mongolian_scx_class(),
        Script::Mro => mro_scx_class(),
        Script::Multani => multani_scx_class(),
        Script::Myanmar => myanmar_scx_class(),
        Script::Nabataean => nabataean_scx_class(),
        Script::NagMundari => nag_mundari_scx_class(),
        Script::Nandinagari => nandinagari_scx_class(),
        Script::NewTaiLue => new_tai_lue_scx_class(),
        Script::Newa => newa_scx_class(),
        Script::Nko => nko_scx_class(),
        Script::Nushu => nushu_scx_class(),
        Script::NyiakengPuachueHmong => nyiakeng_puachue_hmong_scx_class(),
        Script::Ogham => ogham_scx_class(),
        Script::OlChiki => ol_chiki_scx_class(),
        Script::OlOnal => ol_onal_scx_class(),
        Script::OldHungarian => old_hungarian_scx_class(),
        Script::OldItalic => old_italic_scx_class(),
        Script::OldNorthArabian => old_north_arabian_scx_class(),
        Script::OldPermic => old_permic_scx_class(),
        Script::OldPersian => old_persian_scx_class(),
        Script::OldSogdian => old_sogdian_scx_class(),
        Script::OldSouthArabian => old_south_arabian_scx_class(),
        Script::OldTurkic => old_turkic_scx_class(),
        Script::OldUyghur => old_uyghur_scx_class(),
        Script::Oriya => oriya_scx_class(),
        Script::Osage => osage_scx_class(),
        Script::Osmanya => osmanya_scx_class(),
        Script::PahawhHmong => pahawh_hmong_scx_class(),
        Script::Palmyrene => palmyrene_scx_class(),
        Script::PauCinHau => pau_cin_hau_scx_class(),
        Script::PhagsPa => phags_pa_scx_class(),
        Script::Phoenician => phoenician_scx_class(),
        Script::PsalterPahlavi => psalter_pahlavi_scx_class(),
        Script::Rejang => rejang_scx_class(),
        Script::Runic => runic_scx_class(),
        Script::Samaritan => samaritan_scx_class(),
        Script::Saurashtra => saurashtra_scx_class(),
        Script::Sharada => sharada_scx_class(),
        Script::Shavian => shavian_scx_class(),
        Script::Siddham => siddham_scx_class(),
        Script::SignWriting => signwriting_scx_class(),
        Script::Sinhala => sinhala_scx_class(),
        Script::Sogdian => sogdian_scx_class(),
        Script::SoraSompeng => sora_sompeng_scx_class(),
        Script::Soyombo => soyombo_scx_class(),
        Script::Sundanese => sundanese_scx_class(),
        Script::Sunuwar => sunuwar_scx_class(),
        Script::SylotiNagri => syloti_nagri_scx_class(),
        Script::Syriac => syriac_scx_class(),
        Script::Tagalog => tagalog_scx_class(),
        Script::Tagbanwa => tagbanwa_scx_class(),
        Script::TaiLe => tai_le_scx_class(),
        Script::TaiTham => tai_tham_scx_class(),
        Script::TaiViet => tai_viet_scx_class(),
        Script::Takri => takri_scx_class(),
        Script::Tamil => tamil_scx_class(),
        Script::Tangsa => tangsa_scx_class(),
        Script::Tangut => tangut_scx_class(),
        Script::Telugu => telugu_scx_class(),
        Script::Thaana => thaana_scx_class(),
        Script::Thai => thai_scx_class(),
        Script::Tibetan => tibetan_scx_class(),
        Script::Tifinagh => tifinagh_scx_class(),
        Script::Tirhuta => tirhuta_scx_class(),
        Script::Todhri => todhri_scx_class(),
        Script::Toto => toto_scx_class(),
        Script::TuluTigalari => tulu_tigalari_scx_class(),
        Script::Ugaritic => ugaritic_scx_class(),
        Script::Vai => vai_scx_class(),
        Script::Vithkuqi => vithkuqi_scx_class(),
        Script::Wancho => wancho_scx_class(),
        Script::WarangCiti => warang_citi_scx_class(),
        Script::Yezidi => yezidi_scx_class(),
        Script::Yi => yi_scx_class(),
        Script::ZanabazarSquare => zanabazar_square_scx_class(),
    }
}

/// A normalized property key that names the script extensions.
pub open spec fn is_scx_key(n: Seq<char>) -> bool {
    n == seq!['s', 'c', 'x'] || n == seq!['s', 'c', 'r', 'i', 'p', 't', 'e', 'x', 't', 'e', 'n', 's', 'i', 'o', 'n', 's']
}

/// See `is_scx_key`.
pub fn scx_key(n: &[char]) -> (r: bool)
    ensures
        r == is_scx_key(n@),
{
    let w0: [char; 3] = ['s', 'c', 'x'];
    assert(w0@ =~= seq!['s', 'c', 'x']);
    let w1: [char; 16] = ['s', 'c', 'r', 'i', 'p', 't', 'e', 'x', 't', 'e', 'n', 's', 'i', 'o', 'n', 's'];
    assert(w1@ =~= seq!['s', 'c', 'r', 'i', 'p', 't', 'e', 'x', 't', 'e', 'n', 's', 'i', 'o', 'n', 's']);
    crate::tables::chars_eq(n, &w0) || crate::tables::chars_eq(n, &w1)
}

} // verus!
