//! The ranges of a part of the boolean Unicode properties (see `boolprop`).
use vstd::prelude::*;
use crate::ranges::{SRange, canonical};
use crate::class::{ClassUnicodeRange, rview, lemma_rview_push};
use crate::word::lemma_canonical_append;

verus! {

fn push_range(v: &mut Vec<ClassUnicodeRange>, a: char, b: char)
    ensures
        rview(final(v)@) == rview(old(v)@).push((a as int, b as int)),
{
    let r = ClassUnicodeRange { start: a, end: b };
    proof {
        lemma_rview_push(v@, r);
    }
    v.push(r);
}

pub open spec fn emoji_component_chunk_0() -> Seq<SRange> {
    seq![(0x23int, 0x23int), (0x2Aint, 0x2Aint), (0x30int, 0x39int), (0x200Dint, 0x200Dint), (0x20E3int, 0x20E3int), (0xFE0Fint, 0xFE0Fint), (0x1F1E6int, 0x1F1FFint), (0x1F3FBint, 0x1F3FFint)]
}

pub open spec fn emoji_component_chunk_1() -> Seq<SRange> {
    seq![(0x1F9B0int, 0x1F9B3int), (0xE0020int, 0xE007Fint)]
}

/// The ranges of the property Emoji_Component.
pub open spec fn emoji_component_ranges() -> Seq<SRange> {
    emoji_component_chunk_0() + emoji_component_chunk_1()
}

pub proof fn lemma_emoji_component_canonical()
    ensures
        canonical(emoji_component_ranges()),
{
    reveal_with_fuel(canonical, 9);
    assert(canonical(emoji_component_chunk_0()));
    assert(canonical(emoji_component_chunk_1()));
    lemma_canonical_append(emoji_component_chunk_0(), emoji_component_chunk_1());
}

fn push_emoji_component_chunk_0(v: &mut Vec<ClassUnicodeRange>)
    ensures
        rview(final(v)@) == rview(old(v)@) + emoji_component_chunk_0(),
{
    let ghost o = rview(v@);
    push_range(v, '\u{23}', '\u{23}');
    push_range(v, '\u{2A}', '\u{2A}');
    push_range(v, '\u{30}', '\u{39}');
    push_range(v, '\u{200D}', '\u{200D}');
    push_range(v, '\u{20E3}', '\u{20E3}');
    push_range(v, '\u{FE0F}', '\u{FE0F}');
    push_range(v, '\u{1F1E6}', '\u{1F1FF}');
    push_range(v, '\u{1F3FB}', '\u{1F3FF}');
    assert(rview(v@) =~= o + emoji_component_chunk_0());
}

fn push_emoji_component_chunk_1(v: &mut Vec<ClassUnicodeRange>)
    ensures
        rview(final(v)@) == rview(old(v)@) + emoji_component_chunk_1(),
{
    let ghost o = rview(v@);
    push_range(v, '\u{1F9B0}', '\u{1F9B3}');
    push_range(v, '\u{E0020}', '\u{E007F}');
    assert(rview(v@) =~= o + emoji_component_chunk_1());
}

pub fn emoji_component_class() -> (v: Vec<ClassUnicodeRange>)
    ensures
        rview(v@) == emoji_component_ranges(),
{
    let mut v: Vec<ClassUnicodeRange> = Vec::new();
    assert(rview(v@) =~= Seq::<SRange>::empty());
    push_emoji_component_chunk_0(&mut v);
    assert(rview(v@) =~= emoji_component_chunk_0());
    push_emoji_component_chunk_1(&mut v);
    assert(rview(v@) =~= emoji_component_chunk_0() + emoji_component_chunk_1());
    v
}

pub open spec fn emoji_modifier_chunk_0() -> Seq<SRange> {
    seq![(0x1F3FBint, 0x1F3FFint)]
}

/// The ranges of the property Emoji_Modifier.
pub open spec fn emoji_modifier_ranges() -> Seq<SRange> {
    emoji_modifier_chunk_0()
}

pub proof fn lemma_emoji_modifier_canonical()
    ensures
        canonical(emoji_modifier_ranges()),
{
    reveal_with_fuel(canonical, 9);
    assert(canonical(emoji_modifier_chunk_0()));
}

fn push_emoji_modifier_chunk_0(v: &mut Vec<ClassUnicodeRange>)
    ensures
        rview(final(v)@) == rview(old(v)@) + emoji_modifier_chunk_0(),
{
    let ghost o = rview(v@);
    push_range(v, '\u{1F3FB}', '\u{1F3FF}');
    assert(rview(v@) =~= o + emoji_modifier_chunk_0());
}

pub fn emoji_modifier_class() -> (v: Vec<ClassUnicodeRange>)
    ensures
        rview(v@) == emoji_modifier_ranges(),
{
    let mut v: Vec<ClassUnicodeRange> = Vec::new();
    assert(rview(v@) =~= Seq::<SRange>::empty());
    push_emoji_modifier_chunk_0(&mut v);
    assert(rview(v@) =~= emoji_modifier_chunk_0());
    v
}

pub open spec fn emoji_modifier_base_chunk_0() -> Seq<SRange> {
    seq![(0x261Dint, 0x261Dint), (0x26F9int, 0x26F9int), (0x270Aint, 0x270Dint), (0x1F385int, 0x1F385int), (0x1F3C2int, 0x1F3C4int), (0x1F3C7int, 0x1F3C7int), (0x1F3CAint, 0x1F3CCint), (0x1F442int, 0x1F443int)]
}

pub open spec fn emoji_modifier_base_chunk_1() -> Seq<SRange> {
    seq![(0x1F446int, 0x1F450int), (0x1F466int, 0x1F478int), (0x1F47Cint, 0x1F47Cint), (0x1F481int, 0x1F483int), (0x1F485int, 0x1F487int), (0x1F48Fint, 0x1F48Fint), (0x1F491int, 0x1F491int), (0x1F4AAint, 0x1F4AAint)]
}

pub open spec fn emoji_modifier_base_chunk_2() -> Seq<SRange> {
    seq![(0x1F574int, 0x1F575int), (0x1F57Aint, 0x1F57Aint), (0x1F590int, 0x1F590int), (0x1F595int, 0x1F596int), (0x1F645int, 0x1F647int), (0x1F64Bint, 0x1F64Fint), (0x1F6A3int, 0x1F6A3int), (0x1F6B4int, 0x1F6B6int)]
}

pub open spec fn emoji_modifier_base_chunk_3() -> Seq<SRange> {
    seq![(0x1F6C0int, 0x1F6C0int), (0x1F6CCint, 0x1F6CCint), (0x1F90Cint, 0x1F90Cint), (0x1F90Fint, 0x1F90Fint), (0x1F918int, 0x1F91Fint), (0x1F926int, 0x1F926int), (0x1F930int, 0x1F939int), (0x1F93Cint, 0x1F93Eint)]
}

pub open spec fn emoji_modifier_base_chunk_4() -> Seq<SRange> {
    seq![(0x1F977int, 0x1F977int), (0x1F9B5int, 0x1F9B6int), (0x1F9B8int, 0x1F9B9int), (0x1F9BBint, 0x1F9BBint), (0x1F9CDint, 0x1F9CFint), (0x1F9D1int, 0x1F9DDint), (0x1FAC3int, 0x1FAC5int), (0x1FAF0int, 0x1FAF8int)]
}

/// The ranges of the property Emoji_Modifier_Base.
pub open spec fn emoji_modifier_base_ranges() -> Seq<SRange> {
    emoji_modifier_base_chunk_0() + emoji_modifier_base_chunk_1() + emoji_modifier_base_chunk_2() + emoji_modifier_base_chunk_3() + emoji_modifier_base_chunk_4()
}

pub proof fn lemma_emoji_modifier_base_canonical()
    ensures
        canonical(emoji_modifier_base_ranges()),
{
    reveal_with_fuel(canonical, 9);
    assert(canonical(emoji_modifier_base_chunk_0()));
    assert(canonical(emoji_modifier_base_chunk_1()));
    assert(canonical(emoji_modifier_base_chunk_2()));
    assert(canonical(emoji_modifier_base_chunk_3()));
    assert(canonical(emoji_modifier_base_chunk_4()));
    lemma_canonical_append(emoji_modifier_base_chunk_0(), emoji_modifier_base_chunk_1());
    lemma_canonical_append(emoji_modifier_base_chunk_0() + emoji_modifier_base_chunk_1(), emoji_modifier_base_chunk_2());
    lemma_canonical_append(emoji_modifier_base_chunk_0() + emoji_modifier_base_chunk_1() + emoji_modifier_base_chunk_2(), emoji_modifier_base_chunk_3());
    lemma_canonical_append(emoji_modifier_base_chunk_0() + emoji_modifier_base_chunk_1() + emoji_modifier_base_chunk_2() + emoji_modifier_base_chunk_3(), emoji_modifier_base_chunk_4());
}

fn push_emoji_modifier_base_chunk_0(v: &mut Vec<ClassUnicodeRange>)
    ensures
        rview(final(v)@) == rview(old(v)@) + emoji_modifier_base_chunk_0(),
{
    let ghost o = rview(v@);
    push_range(v, '\u{261D}', '\u{261D}');
    push_range(v, '\u{26F9}', '\u{26F9}');
    push_range(v, '\u{270A}', '\u{270D}');
    push_range(v, '\u{1F385}', '\u{1F385}');
    push_range(v, '\u{1F3C2}', '\u{1F3C4}');
    push_range(v, '\u{1F3C7}', '\u{1F3C7}');
    push_range(v, '\u{1F3CA}', '\u{1F3CC}');
    push_range(v, '\u{1F442}', '\u{1F443}');
    assert(rview(v@) =~= o + emoji_modifier_base_chunk_0());
}

fn push_emoji_modifier_base_chunk_1(v: &mut Vec<ClassUnicodeRange>)
    ensures
        rview(final(v)@) == rview(old(v)@) + emoji_modifier_base_chunk_1(),
{
    let ghost o = rview(v@);
    push_range(v, '\u{1F446}', '\u{1F450}');
    push_range(v, '\u{1F466}', '\u{1F478}');
    push_range(v, '\u{1F47C}', '\u{1F47C}');
    push_range(v, '\u{1F481}', '\u{1F483}');
    push_range(v, '\u{1F485}', '\u{1F487}');
    push_range(v, '\u{1F48F}', '\u{1F48F}');
    push_range(v, '\u{1F491}', '\u{1F491}');
    push_range(v, '\u{1F4AA}', '\u{1F4AA}');
    assert(rview(v@) =~= o + emoji_modifier_base_chunk_1());
}

fn push_emoji_modifier_base_chunk_2(v: &mut Vec<ClassUnicodeRange>)
    ensures
        rview(final(v)@) == rview(old(v)@) + emoji_modifier_base_chunk_2(),
{
    let ghost o = rview(v@);
    push_range(v, '\u{1F574}', '\u{1F575}');
    push_range(v, '\u{1F57A}', '\u{1F57A}');
    push_range(v, '\u{1F590}', '\u{1F590}');
    push_range(v, '\u{1F595}', '\u{1F596}');
    push_range(v, '\u{1F645}', '\u{1F647}');
    push_range(v, '\u{1F64B}', '\u{1F64F}');
    push_range(v, '\u{1F6A3}', '\u{1F6A3}');
    push_range(v, '\u{1F6B4}', '\u{1F6B6}');
    assert(rview(v@) =~= o + emoji_modifier_base_chunk_2());
}

fn push_emoji_modifier_base_chunk_3(v: &mut Vec<ClassUnicodeRange>)
    ensures
        rview(final(v)@) == rview(old(v)@) + emoji_modifier_base_chunk_3(),
{
    let ghost o = rview(v@);
    push_range(v, '\u{1F6C0}', '\u{1F6C0}');
    push_range(v, '\u{1F6CC}', '\u{1F6CC}');
    push_range(v, '\u{1F90C}', '\u{1F90C}');
    push_range(v, '\u{1F90F}', '\u{1F90F}');
    push_range(v, '\u{1F918}', '\u{1F91F}');
    push_range(v, '\u{1F926}', '\u{1F926}');
    push_range(v, '\u{1F930}', '\u{1F939}');
    push_range(v, '\u{1F93C}', '\u{1F93E}');
    assert(rview(v@) =~= o + emoji_modifier_base_chunk_3());
}

fn push_emoji_modifier_base_chunk_4(v: &mut Vec<ClassUnicodeRange>)
    ensures
        rview(final(v)@) == rview(old(v)@) + emoji_modifier_base_chunk_4(),
{
    let ghost o = rview(v@);
    push_range(v, '\u{1F977}', '\u{1F977}');
    push_range(v, '\u{1F9B5}', '\u{1F9B6}');
    push_range(v, '\u{1F9B8}', '\u{1F9B9}');
    push_range(v, '\u{1F9BB}', '\u{1F9BB}');
    push_range(v, '\u{1F9CD}', '\u{1F9CF}');
    push_range(v, '\u{1F9D1}', '\u{1F9DD}');
    push_range(v, '\u{1FAC3}', '\u{1FAC5}');
    push_range(v, '\u{1FAF0}', '\u{1FAF8}');
    assert(rview(v@) =~= o + emoji_modifier_base_chunk_4());
}

pub fn emoji_modifier_base_class() -> (v: Vec<ClassUnicodeRange>)
    ensures
        rview(v@) == emoji_modifier_base_ranges(),
{
    let mut v: Vec<ClassUnicodeRange> = Vec::new();
    assert(rview(v@) =~= Seq::<SRange>::empty());
    push_emoji_modifier_base_chunk_0(&mut v);
    assert(rview(v@) =~= emoji_modifier_base_chunk_0());
    push_emoji_modifier_base_chunk_1(&mut v);
    assert(rview(v@) =~= emoji_modifier_base_chunk_0() + emoji_modifier_base_chunk_1());
    push_emoji_modifier_base_chunk_2(&mut v);
    assert(rview(v@) =~= emoji_modifier_base_chunk_0() + emoji_modifier_base_chunk_1() + emoji_modifier_base_chunk_2());
    push_emoji_modifier_base_chunk_3(&mut v);
    assert(rview(v@) =~= emoji_modifier_base_chunk_0() + emoji_modifier_base_chunk_1() + emoji_modifier_base_chunk_2() + emoji_modifier_base_chunk_3());
    push_emoji_modifier_base_chunk_4(&mut v);
    assert(rview(v@) =~= emoji_modifier_base_chunk_0() + emoji_modifier_base_chunk_1() + emoji_modifier_base_chunk_2() + emoji_modifier_base_chunk_3() + emoji_modifier_base_chunk_4());
    v
}

pub open spec fn emoji_presentation_chunk_0() -> Seq<SRange> {
    seq![(0x231Aint, 0x231Bint), (0x23E9int, 0x23ECint), (0x23F0int, 0x23F0int), (0x23F3int, 0x23F3int), (0x25FDint, 0x25FEint), (0x2614int, 0x2615int), (0x2648int, 0x2653int), (0x267Fint, 0x267Fint)]
}

pub open spec fn emoji_presentation_chunk_1() -> Seq<SRange> {
    seq![(0x2693int, 0x2693int), (0x26A1int, 0x26A1int), (0x26AAint, 0x26ABint), (0x26BDint, 0x26BEint), (0x26C4int, 0x26C5int), (0x26CEint, 0x26CEint), (0x26D4int, 0x26D4int), (0x26EAint, 0x26EAint)]
}

pub open spec fn emoji_presentation_chunk_2() -> Seq<SRange> {
    seq![(0x26F2int, 0x26F3int), (0x26F5int, 0x26F5int), (0x26FAint, 0x26FAint), (0x26FDint, 0x26FDint), (0x2705int, 0x2705int), (0x270Aint, 0x270Bint), (0x2728int, 0x2728int), (0x274Cint, 0x274Cint)]
}

pub open spec fn emoji_presentation_chunk_3() -> Seq<SRange> {
    seq![(0x274Eint, 0x274Eint), (0x2753int, 0x2755int), (0x2757int, 0x2757int), (0x2795int, 0x2797int), (0x27B0int, 0x27B0int), (0x27BFint, 0x27BFint), (0x2B1Bint, 0x2B1Cint), (0x2B50int, 0x2B50int)]
}

pub open spec fn emoji_presentation_chunk_4() -> Seq<SRange> {
    seq![(0x2B55int, 0x2B55int), (0x1F004int, 0x1F004int), (0x1F0CFint, 0x1F0CFint), (0x1F18Eint, 0x1F18Eint), (0x1F191int, 0x1F19Aint), (0x1F1E6int, 0x1F1FFint), (0x1F201int, 0x1F201int), (0x1F21Aint, 0x1F21Aint)]
}

pub open spec fn emoji_presentation_chunk_5() -> Seq<SRange> {
    seq![(0x1F22Fint, 0x1F22Fint), (0x1F232int, 0x1F236int), (0x1F238int, 0x1F23Aint), (0x1F250int, 0x1F251int), (0x1F300int, 0x1F320int), (0x1F32Dint, 0x1F335int), (0x1F337int, 0x1F37Cint), (0x1F37Eint, 0x1F393int)]
}

pub open spec fn emoji_presentation_chunk_6() -> Seq<SRange> {
    seq![(0x1F3A0int, 0x1F3CAint), (0x1F3CFint, 0x1F3D3int), (0x1F3E0int, 0x1F3F0int), (0x1F3F4int, 0x1F3F4int), (0x1F3F8int, 0x1F43Eint), (0x1F440int, 0x1F440int), (0x1F442int, 0x1F4FCint), (0x1F4FFint, 0x1F53Dint)]
}

pub open spec fn emoji_presentation_chunk_7() -> Seq<SRange> {
    seq![(0x1F54Bint, 0x1F54Eint), (0x1F550int, 0x1F567int), (0x1F57Aint, 0x1F57Aint), (0x1F595int, 0x1F596int), (0x1F5A4int, 0x1F5A4int), (0x1F5FBint, 0x1F64Fint), (0x1F680int, 0x1F6C5int), (0x1F6CCint, 0x1F6CCint)]
}

pub open spec fn emoji_presentation_chunk_8() -> Seq<SRange> {
    seq![(0x1F6D0int, 0x1F6D2int), (0x1F6D5int, 0x1F6D7int), (0x1F6DCint, 0x1F6DFint), (0x1F6EBint, 0x1F6ECint), (0x1F6F4int, 0x1F6FCint), (0x1F7E0int, 0x1F7EBint), (0x1F7F0int, 0x1F7F0int), (0x1F90Cint, 0x1F93Aint)]
}

pub open spec fn emoji_presentation_chunk_9() -> Seq<SRange> {
    seq![(0x1F93Cint, 0x1F945int), (0x1F947int, 0x1F9FFint), (0x1FA70int, 0x1FA7Cint), (0x1FA80int, 0x1FA89int), (0x1FA8Fint, 0x1FAC6int), (0x1FACEint, 0x1FADCint), (0x1FADFint, 0x1FAE9int), (0x1FAF0int, 0x1FAF8int)]
}

/// The ranges of the property Emoji_Presentation.
pub open spec fn emoji_presentation_ranges() -> Seq<SRange> {
    emoji_presentation_chunk_0() + emoji_presentation_chunk_1() + emoji_presentation_chunk_2() + emoji_presentation_chunk_3() + emoji_presentation_chunk_4() + emoji_presentation_chunk_5() + emoji_presentation_chunk_6() + emoji_presentation_chunk_7() + emoji_presentation_chunk_8() + emoji_presentation_chunk_9()
}

pub proof fn lemma_emoji_presentation_canonical()
    ensures
        canonical(emoji_presentation_ranges()),
{
    reveal_with_fuel(canonical, 9);
    assert(canonical(emoji_presentation_chunk_0()));
    assert(canonical(emoji_presentation_chunk_1()));
    assert(canonical(emoji_presentation_chunk_2()));
    assert(canonical(emoji_presentation_chunk_3()));
    assert(canonical(emoji_presentation_chunk_4()));
    assert(canonical(emoji_presentation_chunk_5()));
    assert(canonical(emoji_presentation_chunk_6()));
    assert(canonical(emoji_presentation_chunk_7()));
    assert(canonical(emoji_presentation_chunk_8()));
    assert(canonical(emoji_presentation_chunk_9()));
    lemma_canonical_append(emoji_presentation_chunk_0(), emoji_presentation_chunk_1());
    lemma_canonical_append(emoji_presentation_chunk_0() + emoji_presentation_chunk_1(), emoji_presentation_chunk_2());
    lemma_canonical_append(emoji_presentation_chunk_0() + emoji_presentation_chunk_1() + emoji_presentation_chunk_2(), emoji_presentation_chunk_3());
    lemma_canonical_append(emoji_presentation_chunk_0() + emoji_presentation_chunk_1() + emoji_presentation_chunk_2() + emoji_presentation_chunk_3(), emoji_presentation_chunk_4());
    lemma_canonical_append(emoji_presentation_chunk_0() + emoji_presentation_chunk_1() + emoji_presentation_chunk_2() + emoji_presentation_chunk_3() + emoji_presentation_chunk_4(), emoji_presentation_chunk_5());
    lemma_canonical_append(emoji_presentation_chunk_0() + emoji_presentation_chunk_1() + emoji_presentation_chunk_2() + emoji_presentation_chunk_3() + emoji_presentation_chunk_4() + emoji_presentation_chunk_5(), emoji_presentation_chunk_6());
    lemma_canonical_append(emoji_presentation_chunk_0() + emoji_presentation_chunk_1() + emoji_presentation_chunk_2() + emoji_presentation_chunk_3() + emoji_presentation_chunk_4() + emoji_presentation_chunk_5() + emoji_presentation_chunk_6(), emoji_presentation_chunk_7());
    lemma_canonical_append(emoji_presentation_chunk_0() + emoji_presentation_chunk_1() + emoji_presentation_chunk_2() + emoji_presentation_chunk_3() + emoji_presentation_chunk_4() + emoji_presentation_chunk_5() + emoji_presentation_chunk_6() + emoji_presentation_chunk_7(), emoji_presentation_chunk_8());
    lemma_canonical_append(emoji_presentation_chunk_0() + emoji_presentation_chunk_1() + emoji_presentation_chunk_2() + emoji_presentation_chunk_3() + emoji_presentation_chunk_4() + emoji_presentation_chunk_5() + emoji_presentation_chunk_6() + emoji_presentation_chunk_7() + emoji_presentation_chunk_8(), emoji_presentation_chunk_9());
}

fn push_emoji_presentation_chunk_0(v: &mut Vec<ClassUnicodeRange>)
    ensures
        rview(final(v)@) == rview(old(v)@) + emoji_presentation_chunk_0(),
{
    let ghost o = rview(v@);
    push_range(v, '\u{231A}', '\u{231B}');
    push_range(v, '\u{23E9}', '\u{23EC}');
    push_range(v, '\u{23F0}', '\u{23F0}');
    push_range(v, '\u{23F3}', '\u{23F3}');
    push_range(v, '\u{25FD}', '\u{25FE}');
    push_range(v, '\u{2614}', '\u{2615}');
    push_range(v, '\u{2648}', '\u{2653}');
    push_range(v, '\u{267F}', '\u{267F}');
    assert(rview(v@) =~= o + emoji_presentation_chunk_0());
}

fn push_emoji_presentation_chunk_1(v: &mut Vec<ClassUnicodeRange>)
    ensures
        rview(final(v)@) == rview(old(v)@) + emoji_presentation_chunk_1(),
{
    let ghost o = rview(v@);
    push_range(v, '\u{2693}', '\u{2693}');
    push_range(v, '\u{26A1}', '\u{26A1}');
    push_range(v, '\u{26AA}', '\u{26AB}');
    push_range(v, '\u{26BD}', '\u{26BE}');
    push_range(v, '\u{26C4}', '\u{26C5}');
    push_range(v, '\u{26CE}', '\u{26CE}');
    push_range(v, '\u{26D4}', '\u{26D4}');
    push_range(v, '\u{26EA}', '\u{26EA}');
    assert(rview(v@) =~= o + emoji_presentation_chunk_1());
}

fn push_emoji_presentation_chunk_2(v: &mut Vec<ClassUnicodeRange>)
    ensures
        rview(final(v)@) == rview(old(v)@) + emoji_presentation_chunk_2(),
{
    let ghost o = rview(v@);
    push_range(v, '\u{26F2}', '\u{26F3}');
    push_range(v, '\u{26F5}', '\u{26F5}');
    push_range(v, '\u{26FA}', '\u{26FA}');
    push_range(v, '\u{26FD}', '\u{26FD}');
    push_range(v, '\u{2705}', '\u{2705}');
    push_range(v, '\u{270A}', '\u{270B}');
    push_range(v, '\u{2728}', '\u{2728}');
    push_range(v, '\u{274C}', '\u{274C}');
    assert(rview(v@) =~= o + emoji_presentation_chunk_2());
}

fn push_emoji_presentation_chunk_3(v: &mut Vec<ClassUnicodeRange>)
    ensures
        rview(final(v)@) == rview(old(v)@) + emoji_presentation_chunk_3(),
{
    let ghost o = rview(v@);
    push_range(v, '\u{274E}', '\u{274E}');
    push_range(v, '\u{2753}', '\u{2755}');
    push_range(v, '\u{2757}', '\u{2757}');
    push_range(v, '\u{2795}', '\u{2797}');
    push_range(v, '\u{27B0}', '\u{27B0}');
    push_range(v, '\u{27BF}', '\u{27BF}');
    push_range(v, '\u{2B1B}', '\u{2B1C}');
    push_range(v, '\u{2B50}', '\u{2B50}');
    assert(rview(v@) =~= o + emoji_presentation_chunk_3());
}

fn push_emoji_presentation_chunk_4(v: &mut Vec<ClassUnicodeRange>)
    ensures
        rview(final(v)@) == rview(old(v)@) + emoji_presentation_chunk_4(),
{
    let ghost o = rview(v@);
    push_range(v, '\u{2B55}', '\u{2B55}');
    push_range(v, '\u{1F004}', '\u{1F004}');
    push_range(v, '\u{1F0CF}', '\u{1F0CF}');
    push_range(v, '\u{1F18E}', '\u{1F18E}');
    push_range(v, '\u{1F191}', '\u{1F19A}');
    push_range(v, '\u{1F1E6}', '\u{1F1FF}');
    push_range(v, '\u{1F201}', '\u{1F201}');
    push_range(v, '\u{1F21A}', '\u{1F21A}');
    assert(rview(v@) =~= o + emoji_presentation_chunk_4());
}

fn push_emoji_presentation_chunk_5(v: &mut Vec<ClassUnicodeRange>)
    ensures
        rview(final(v)@) == rview(old(v)@) + emoji_presentation_chunk_5(),
{
    let ghost o = rview(v@);
    push_range(v, '\u{1F22F}', '\u{1F22F}');
    push_range(v, '\u{1F232}', '\u{1F236}');
    push_range(v, '\u{1F238}', '\u{1F23A}');
    push_range(v, '\u{1F250}', '\u{1F251}');
    push_range(v, '\u{1F300}', '\u{1F320}');
    push_range(v, '\u{1F32D}', '\u{1F335}');
    push_range(v, '\u{1F337}', '\u{1F37C}');
    push_range(v, '\u{1F37E}', '\u{1F393}');
    assert(rview(v@) =~= o + emoji_presentation_chunk_5());
}

fn push_emoji_presentation_chunk_6(v: &mut Vec<ClassUnicodeRange>)
    ensures
        rview(final(v)@) == rview(old(v)@) + emoji_presentation_chunk_6(),
{
    let ghost o = rview(v@);
    push_range(v, '\u{1F3A0}', '\u{1F3CA}');
    push_range(v, '\u{1F3CF}', '\u{1F3D3}');
    push_range(v, '\u{1F3E0}', '\u{1F3F0}');
    push_range(v, '\u{1F3F4}', '\u{1F3F4}');
    push_range(v, '\u{1F3F8}', '\u{1F43E}');
    push_range(v, '\u{1F440}', '\u{1F440}');
    push_range(v, '\u{1F442}', '\u{1F4FC}');
    push_range(v, '\u{1F4FF}', '\u{1F53D}');
    assert(rview(v@) =~= o + emoji_presentation_chunk_6());
}

fn push_emoji_presentation_chunk_7(v: &mut Vec<ClassUnicodeRange>)
    ensures
        rview(final(v)@) == rview(old(v)@) + emoji_presentation_chunk_7(),
{
    let ghost o = rview(v@);
    push_range(v, '\u{1F54B}', '\u{1F54E}');
    push_range(v, '\u{1F550}', '\u{1F567}');
    push_range(v, '\u{1F57A}', '\u{1F57A}');
    push_range(v, '\u{1F595}', '\u{1F596}');
    push_range(v, '\u{1F5A4}', '\u{1F5A4}');
    push_range(v, '\u{1F5FB}', '\u{1F64F}');
    push_range(v, '\u{1F680}', '\u{1F6C5}');
    push_range(v, '\u{1F6CC}', '\u{1F6CC}');
    assert(rview(v@) =~= o + emoji_presentation_chunk_7());
}

fn push_emoji_presentation_chunk_8(v: &mut Vec<ClassUnicodeRange>)
    ensures
        rview(final(v)@) == rview(old(v)@) + emoji_presentation_chunk_8(),
{
    let ghost o = rview(v@);
    push_range(v, '\u{1F6D0}', '\u{1F6D2}');
    push_range(v, '\u{1F6D5}', '\u{1F6D7}');
    push_range(v, '\u{1F6DC}', '\u{1F6DF}');
    push_range(v, '\u{1F6EB}', '\u{1F6EC}');
    push_range(v, '\u{1F6F4}', '\u{1F6FC}');
    push_range(v, '\u{1F7E0}', '\u{1F7EB}');
    push_range(v, '\u{1F7F0}', '\u{1F7F0}');
    push_range(v, '\u{1F90C}', '\u{1F93A}');
    assert(rview(v@) =~= o + emoji_presentation_chunk_8());
}

fn push_emoji_presentation_chunk_9(v: &mut Vec<ClassUnicodeRange>)
    ensures
        rview(final(v)@) == rview(old(v)@) + emoji_presentation_chunk_9(),
{
    let ghost o = rview(v@);
    push_range(v, '\u{1F93C}', '\u{1F945}');
    push_range(v, '\u{1F947}', '\u{1F9FF}');
    push_range(v, '\u{1FA70}', '\u{1FA7C}');
    push_range(v, '\u{1FA80}', '\u{1FA89}');
    push_range(v, '\u{1FA8F}', '\u{1FAC6}');
    push_range(v, '\u{1FACE}', '\u{1FADC}');
    push_range(v, '\u{1FADF}', '\u{1FAE9}');
    push_range(v, '\u{1FAF0}', '\u{1FAF8}');
    assert(rview(v@) =~= o + emoji_presentation_chunk_9());
}

pub fn emoji_presentation_class() -> (v: Vec<ClassUnicodeRange>)
    ensures
        rview(v@) == emoji_presentation_ranges(),
{
    let mut v: Vec<ClassUnicodeRange> = Vec::new();
    assert(rview(v@) =~= Seq::<SRange>::empty());
    push_emoji_presentation_chunk_0(&mut v);
    assert(rview(v@) =~= emoji_presentation_chunk_0());
    push_emoji_presentation_chunk_1(&mut v);
    assert(rview(v@) =~= emoji_presentation_chunk_0() + emoji_presentation_chunk_1());
    push_emoji_presentation_chunk_2(&mut v);
    assert(rview(v@) =~= emoji_presentation_chunk_0() + emoji_presentation_chunk_1() + emoji_presentation_chunk_2());
    push_emoji_presentation_chunk_3(&mut v);
    assert(rview(v@) =~= emoji_presentation_chunk_0() + emoji_presentation_chunk_1() + emoji_presentation_chunk_2() + emoji_presentation_chunk_3());
    push_emoji_presentation_chunk_4(&mut v);
    assert(rview(v@) =~= emoji_presentation_chunk_0() + emoji_presentation_chunk_1() + emoji_presentation_chunk_2() + emoji_presentation_chunk_3() + emoji_presentation_chunk_4());
    push_emoji_presentation_chunk_5(&mut v);
    assert(rview(v@) =~= emoji_presentation_chunk_0() + emoji_presentation_chunk_1() + emoji_presentation_chunk_2() + emoji_presentation_chunk_3() + emoji_presentation_chunk_4() + emoji_presentation_chunk_5());
    push_emoji_presentation_chunk_6(&mut v);
    assert(rview(v@) =~= emoji_presentation_chunk_0() + emoji_presentation_chunk_1() + emoji_presentation_chunk_2() + emoji_presentation_chunk_3() + emoji_presentation_chunk_4() + emoji_presentation_chunk_5() + emoji_presentation_chunk_6());
    push_emoji_presentation_chunk_7(&mut v);
    assert(rview(v@) =~= emoji_presentation_chunk_0() + emoji_presentation_chunk_1() + emoji_presentation_chunk_2() + emoji_presentation_chunk_3() + emoji_presentation_chunk_4() + emoji_presentation_chunk_5() + emoji_presentation_chunk_6() + emoji_presentation_chunk_7());
    push_emoji_presentation_chunk_8(&mut v);
    assert(rview(v@) =~= emoji_presentation_chunk_0() + emoji_presentation_chunk_1() + emoji_presentation_chunk_2() + emoji_presentation_chunk_3() + emoji_presentation_chunk_4() + emoji_presentation_chunk_5() + emoji_presentation_chunk_6() + emoji_presentation_chunk_7() + emoji_presentation_chunk_8());
    push_emoji_presentation_chunk_9(&mut v);
    assert(rview(v@) =~= emoji_presentation_chunk_0() + emoji_presentation_chunk_1() + emoji_presentation_chunk_2() + emoji_presentation_chunk_3() + emoji_presentation_chunk_4() + emoji_presentation_chunk_5() + emoji_presentation_chunk_6() + emoji_presentation_chunk_7() + emoji_presentation_chunk_8() + emoji_presentation_chunk_9());
    v
}

pub open spec fn extended_pictographic_chunk_0() -> Seq<SRange> {
    seq![(0xA9int, 0xA9int), (0xAEint, 0xAEint), (0x203Cint, 0x203Cint), (0x2049int, 0x2049int), (0x2122int, 0x2122int), (0x2139int, 0x2139int), (0x2194int, 0x2199int), (0x21A9int, 0x21AAint)]
}

pub open spec fn extended_pictographic_chunk_1() -> Seq<SRange> {
    seq![(0x231Aint, 0x231Bint), (0x2328int, 0x2328int), (0x2388int, 0x2388int), (0x23CFint, 0x23CFint), (0x23E9int, 0x23F3int), (0x23F8int, 0x23FAint), (0x24C2int, 0x24C2int), (0x25AAint, 0x25ABint)]
}

pub open spec fn extended_pictographic_chunk_2() -> Seq<SRange> {
    seq![(0x25B6int, 0x25B6int), (0x25C0int, 0x25C0int), (0x25FBint, 0x25FEint), (0x2600int, 0x2605int), (0x2607int, 0x2612int), (0x2614int, 0x2685int), (0x2690int, 0x2705int), (0x2708int, 0x2712int)]
}

pub open spec fn extended_pictographic_chunk_3() -> Seq<SRange> {
    seq![(0x2714int, 0x2714int), (0x2716int, 0x2716int), (0x271Dint, 0x271Dint), (0x2721int, 0x2721int), (0x2728int, 0x2728int), (0x2733int, 0x2734int), (0x2744int, 0x2744int), (0x2747int, 0x2747int)]
}

pub open spec fn extended_pictographic_chunk_4() -> Seq<SRange> {
    seq![(0x274Cint, 0x274Cint), (0x274Eint, 0x274Eint), (0x2753int, 0x2755int), (0x2757int, 0x2757int), (0x2763int, 0x2767int), (0x2795int, 0x2797int), (0x27A1int, 0x27A1int), (0x27B0int, 0x27B0int)]
}

pub open spec fn extended_pictographic_chunk_5() -> Seq<SRange> {
    seq![(0x27BFint, 0x27BFint), (0x2934int, 0x2935int), (0x2B05int, 0x2B07int), (0x2B1Bint, 0x2B1Cint), (0x2B50int, 0x2B50int), (0x2B55int, 0x2B55int), (0x3030int, 0x3030int), (0x303Dint, 0x303Dint)]
}

pub open spec fn extended_pictographic_chunk_6() -> Seq<SRange> {
    seq![(0x3297int, 0x3297int), (0x3299int, 0x3299int), (0x1F000int, 0x1F0FFint), (0x1F10Dint, 0x1F10Fint), (0x1F12Fint, 0x1F12Fint), (0x1F16Cint, 0x1F171int), (0x1F17Eint, 0x1F17Fint), (0x1F18Eint, 0x1F18Eint)]
}

pub open spec fn extended_pictographic_chunk_7() -> Seq<SRange> {
    seq![(0x1F191int, 0x1F19Aint), (0x1F1ADint, 0x1F1E5int), (0x1F201int, 0x1F20Fint), (0x1F21Aint, 0x1F21Aint), (0x1F22Fint, 0x1F22Fint), (0x1F232int, 0x1F23Aint), (0x1F23Cint, 0x1F23Fint), (0x1F249int, 0x1F3FAint)]
}

pub open spec fn extended_pictographic_chunk_8() -> Seq<SRange> {
    seq![(0x1F400int, 0x1F53Dint), (0x1F546int, 0x1F64Fint), (0x1F680int, 0x1F6FFint), (0x1F774int, 0x1F77Fint), (0x1F7D5int, 0x1F7FFint), (0x1F80Cint, 0x1F80Fint), (0x1F848int, 0x1F84Fint), (0x1F85Aint, 0x1F85Fint)]
}

pub open spec fn extended_pictographic_chunk_9() -> Seq<SRange> {
    seq![(0x1F888int, 0x1F88Fint), (0x1F8AEint, 0x1F8FFint), (0x1F90Cint, 0x1F93Aint), (0x1F93Cint, 0x1F945int), (0x1F947int, 0x1FAFFint), (0x1FC00int, 0x1FFFDint)]
}

/// The ranges of the property Extended_Pictographic.
pub open spec fn extended_pictographic_ranges() -> Seq<SRange> {
    extended_pictographic_chunk_0() + extended_pictographic_chunk_1() + extended_pictographic_chunk_2() + extended_pictographic_chunk_3() + extended_pictographic_chunk_4() + extended_pictographic_chunk_5() + extended_pictographic_chunk_6() + extended_pictographic_chunk_7() + extended_pictographic_chunk_8() + extended_pictographic_chunk_9()
}

pub proof fn lemma_extended_pictographic_canonical()
    ensures
        canonical(extended_pictographic_ranges()),
{
    reveal_with_fuel(canonical, 9);
    assert(canonical(extended_pictographic_chunk_0()));
    assert(canonical(extended_pictographic_chunk_1()));
    assert(canonical(extended_pictographic_chunk_2()));
    assert(canonical(extended_pictographic_chunk_3()));
    assert(canonical(extended_pictographic_chunk_4()));
    assert(canonical(extended_pictographic_chunk_5()));
    assert(canonical(extended_pictographic_chunk_6()));
    assert(canonical(extended_pictographic_chunk_7()));
    assert(canonical(extended_pictographic_chunk_8()));
    assert(canonical(extended_pictographic_chunk_9()));
    lemma_canonical_append(extended_pictographic_chunk_0(), extended_pictographic_chunk_1());
    lemma_canonical_append(extended_pictographic_chunk_0() + extended_pictographic_chunk_1(), extended_pictographic_chunk_2());
    lemma_canonical_append(extended_pictographic_chunk_0() + extended_pictographic_chunk_1() + extended_pictographic_chunk_2(), extended_pictographic_chunk_3());
    lemma_canonical_append(extended_pictographic_chunk_0() + extended_pictographic_chunk_1() + extended_pictographic_chunk_2() + extended_pictographic_chunk_3(), extended_pictographic_chunk_4());
    lemma_canonical_append(extended_pictographic_chunk_0() + extended_pictographic_chunk_1() + extended_pictographic_chunk_2() + extended_pictographic_chunk_3() + extended_pictographic_chunk_4(), extended_pictographic_chunk_5());
    lemma_canonical_append(extended_pictographic_chunk_0() + extended_pictographic_chunk_1() + extended_pictographic_chunk_2() + extended_pictographic_chunk_3() + extended_pictographic_chunk_4() + extended_pictographic_chunk_5(), extended_pictographic_chunk_6());
    lemma_canonical_append(extended_pictographic_chunk_0() + extended_pictographic_chunk_1() + extended_pictographic_chunk_2() + extended_pictographic_chunk_3() + extended_pictographic_chunk_4() + extended_pictographic_chunk_5() + extended_pictographic_chunk_6(), extended_pictographic_chunk_7());
    lemma_canonical_append(extended_pictographic_chunk_0() + extended_pictographic_chunk_1() + extended_pictographic_chunk_2() + extended_pictographic_chunk_3() + extended_pictographic_chunk_4() + extended_pictographic_chunk_5() + extended_pictographic_chunk_6() + extended_pictographic_chunk_7(), extended_pictographic_chunk_8());
    lemma_canonical_append(extended_pictographic_chunk_0() + extended_pictographic_chunk_1() + extended_pictographic_chunk_2() + extended_pictographic_chunk_3() + extended_pictographic_chunk_4() + extended_pictographic_chunk_5() + extended_pictographic_chunk_6() + extended_pictographic_chunk_7() + extended_pictographic_chunk_8(), extended_pictographic_chunk_9());
}

fn push_extended_pictographic_chunk_0(v: &mut Vec<ClassUnicodeRange>)
    ensures
        rview(final(v)@) == rview(old(v)@) + extended_pictographic_chunk_0(),
{
    let ghost o = rview(v@);
    push_range(v, '\u{A9}', '\u{A9}');
    push_range(v, '\u{AE}', '\u{AE}');
    push_range(v, '\u{203C}', '\u{203C}');
    push_range(v, '\u{2049}', '\u{2049}');
    push_range(v, '\u{2122}', '\u{2122}');
    push_range(v, '\u{2139}', '\u{2139}');
    push_range(v, '\u{2194}', '\u{2199}');
    push_range(v, '\u{21A9}', '\u{21AA}');
    assert(rview(v@) =~= o + extended_pictographic_chunk_0());
}

fn push_extended_pictographic_chunk_1(v: &mut Vec<ClassUnicodeRange>)
    ensures
        rview(final(v)@) == rview(old(v)@) + extended_pictographic_chunk_1(),
{
    let ghost o = rview(v@);
    push_range(v, '\u{231A}', '\u{231B}');
    push_range(v, '\u{2328}', '\u{2328}');
    push_range(v, '\u{2388}', '\u{2388}');
    push_range(v, '\u{23CF}', '\u{23CF}');
    push_range(v, '\u{23E9}', '\u{23F3}');
    push_range(v, '\u{23F8}', '\u{23FA}');
    push_range(v, '\u{24C2}', '\u{24C2}');
    push_range(v, '\u{25AA}', '\u{25AB}');
    assert(rview(v@) =~= o + extended_pictographic_chunk_1());
}

fn push_extended_pictographic_chunk_2(v: &mut Vec<ClassUnicodeRange>)
    ensures
        rview(final(v)@) == rview(old(v)@) + extended_pictographic_chunk_2(),
{
    let ghost o = rview(v@);
    push_range(v, '\u{25B6}', '\u{25B6}');
    push_range(v, '\u{25C0}', '\u{25C0}');
    push_range(v, '\u{25FB}', '\u{25FE}');
    push_range(v, '\u{2600}', '\u{2605}');
    push_range(v, '\u{2607}', '\u{2612}');
    push_range(v, '\u{2614}', '\u{2685}');
    push_range(v, '\u{2690}', '\u{2705}');
    push_range(v, '\u{2708}', '\u{2712}');
    assert(rview(v@) =~= o + extended_pictographic_chunk_2());
}

fn push_extended_pictographic_chunk_3(v: &mut Vec<ClassUnicodeRange>)
    ensures
        rview(final(v)@) == rview(old(v)@) + extended_pictographic_chunk_3(),
{
    let ghost o = rview(v@);
    push_range(v, '\u{2714}', '\u{2714}');
    push_range(v, '\u{2716}', '\u{2716}');
    push_range(v, '\u{271D}', '\u{271D}');
    push_range(v, '\u{2721}', '\u{2721}');
    push_range(v, '\u{2728}', '\u{2728}');
    push_range(v, '\u{2733}', '\u{2734}');
    push_range(v, '\u{2744}', '\u{2744}');
    push_range(v, '\u{2747}', '\u{2747}');
    assert(rview(v@) =~= o + extended_pictographic_chunk_3());
}

fn push_extended_pictographic_chunk_4(v: &mut Vec<ClassUnicodeRange>)
    ensures
        rview(final(v)@) == rview(old(v)@) + extended_pictographic_chunk_4(),
{
    let ghost o = rview(v@);
    push_range(v, '\u{274C}', '\u{274C}');
    push_range(v, '\u{274E}', '\u{274E}');
    push_range(v, '\u{2753}', '\u{2755}');
    push_range(v, '\u{2757}', '\u{2757}');
    push_range(v, '\u{2763}', '\u{2767}');
    push_range(v, '\u{2795}', '\u{2797}');
    push_range(v, '\u{27A1}', '\u{27A1}');
    push_range(v, '\u{27B0}', '\u{27B0}');
    assert(rview(v@) =~= o + extended_pictographic_chunk_4());
}

fn push_extended_pictographic_chunk_5(v: &mut Vec<ClassUnicodeRange>)
    ensures
        rview(final(v)@) == rview(old(v)@) + extended_pictographic_chunk_5(),
{
    let ghost o = rview(v@);
    push_range(v, '\u{27BF}', '\u{27BF}');
    push_range(v, '\u{2934}', '\u{2935}');
    push_range(v, '\u{2B05}', '\u{2B07}');
    push_range(v, '\u{2B1B}', '\u{2B1C}');
    push_range(v, '\u{2B50}', '\u{2B50}');
    push_range(v, '\u{2B55}', '\u{2B55}');
    push_range(v, '\u{3030}', '\u{3030}');
    push_range(v, '\u{303D}', '\u{303D}');
    assert(rview(v@) =~= o + extended_pictographic_chunk_5());
}

fn push_extended_pictographic_chunk_6(v: &mut Vec<ClassUnicodeRange>)
    ensures
        rview(final(v)@) == rview(old(v)@) + extended_pictographic_chunk_6(),
{
    let ghost o = rview(v@);
    push_range(v, '\u{3297}', '\u{3297}');
    push_range(v, '\u{3299}', '\u{3299}');
    push_range(v, '\u{1F000}', '\u{1F0FF}');
    push_range(v, '\u{1F10D}', '\u{1F10F}');
    push_range(v, '\u{1F12F}', '\u{1F12F}');
    push_range(v, '\u{1F16C}', '\u{1F171}');
    push_range(v, '\u{1F17E}', '\u{1F17F}');
    push_range(v, '\u{1F18E}', '\u{1F18E}');
    assert(rview(v@) =~= o + extended_pictographic_chunk_6());
}

fn push_extended_pictographic_chunk_7(v: &mut Vec<ClassUnicodeRange>)
    ensures
        rview(final(v)@) == rview(old(v)@) + extended_pictographic_chunk_7(),
{
    let ghost o = rview(v@);
    push_range(v, '\u{1F191}', '\u{1F19A}');
    push_range(v, '\u{1F1AD}', '\u{1F1E5}');
    push_range(v, '\u{1F201}', '\u{1F20F}');
    push_range(v, '\u{1F21A}', '\u{1F21A}');
    push_range(v, '\u{1F22F}', '\u{1F22F}');
    push_range(v, '\u{1F232}', '\u{1F23A}');
    push_range(v, '\u{1F23C}', '\u{1F23F}');
    push_range(v, '\u{1F249}', '\u{1F3FA}');
    assert(rview(v@) =~= o + extended_pictographic_chunk_7());
}

fn push_extended_pictographic_chunk_8(v: &mut Vec<ClassUnicodeRange>)
    ensures
        rview(final(v)@) == rview(old(v)@) + extended_pictographic_chunk_8(),
{
    let ghost o = rview(v@);
    push_range(v, '\u{1F400}', '\u{1F53D}');
    push_range(v, '\u{1F546}', '\u{1F64F}');
    push_range(v, '\u{1F680}', '\u{1F6FF}');
    push_range(v, '\u{1F774}', '\u{1F77F}');
    push_range(v, '\u{1F7D5}', '\u{1F7FF}');
    push_range(v, '\u{1F80C}', '\u{1F80F}');
    push_range(v, '\u{1F848}', '\u{1F84F}');
    push_range(v, '\u{1F85A}', '\u{1F85F}');
    assert(rview(v@) =~= o + extended_pictographic_chunk_8());
}

fn push_extended_pictographic_chunk_9(v: &mut Vec<ClassUnicodeRange>)
    ensures
        rview(final(v)@) == rview(old(v)@) + extended_pictographic_chunk_9(),
{
    let ghost o = rview(v@);
    push_range(v, '\u{1F888}', '\u{1F88F}');
    push_range(v, '\u{1F8AE}', '\u{1F8FF}');
    push_range(v, '\u{1F90C}', '\u{1F93A}');
    push_range(v, '\u{1F93C}', '\u{1F945}');
    push_range(v, '\u{1F947}', '\u{1FAFF}');
    push_range(v, '\u{1FC00}', '\u{1FFFD}');
    assert(rview(v@) =~= o + extended_pictographic_chunk_9());
}

pub fn extended_pictographic_class() -> (v: Vec<ClassUnicodeRange>)
    ensures
        rview(v@) == extended_pictographic_ranges(),
{
    let mut v: Vec<ClassUnicodeRange> = Vec::new();
    assert(rview(v@) =~= Seq::<SRange>::empty());
    push_extended_pictographic_chunk_0(&mut v);
    assert(rview(v@) =~= extended_pictographic_chunk_0());
    push_extended_pictographic_chunk_1(&mut v);
    assert(rview(v@) =~= extended_pictographic_chunk_0() + extended_pictographic_chunk_1());
    push_extended_pictographic_chunk_2(&mut v);
    assert(rview(v@) =~= extended_pictographic_chunk_0() + extended_pictographic_chunk_1() + extended_pictographic_chunk_2());
    push_extended_pictographic_chunk_3(&mut v);
    assert(rview(v@) =~= extended_pictographic_chunk_0() + extended_pictographic_chunk_1() + extended_pictographic_chunk_2() + extended_pictographic_chunk_3());
    push_extended_pictographic_chunk_4(&mut v);
    assert(rview(v@) =~= extended_pictographic_chunk_0() + extended_pictographic_chunk_1() + extended_pictographic_chunk_2() + extended_pictographic_chunk_3() + extended_pictographic_chunk_4());
    push_extended_pictographic_chunk_5(&mut v);
    assert(rview(v@) =~= extended_pictographic_chunk_0() + extended_pictographic_chunk_1() + extended_pictographic_chunk_2() + extended_pictographic_chunk_3() + extended_pictographic_chunk_4() + extended_pictographic_chunk_5());
    push_extended_pictographic_chunk_6(&mut v);
    assert(rview(v@) =~= extended_pictographic_chunk_0() + extended_pictographic_chunk_1() + extended_pictographic_chunk_2() + extended_pictographic_chunk_3() + extended_pictographic_chunk_4() + extended_pictographic_chunk_5() + extended_pictographic_chunk_6());
    push_extended_pictographic_chunk_7(&mut v);
    assert(rview(v@) =~= extended_pictographic_chunk_0() + extended_pictographic_chunk_1() + extended_pictographic_chunk_2() + extended_pictographic_chunk_3() + extended_pictographic_chunk_4() + extended_pictographic_chunk_5() + extended_pictographic_chunk_6() + extended_pictographic_chunk_7());
    push_extended_pictographic_chunk_8(&mut v);
    assert(rview(v@) =~= extended_pictographic_chunk_0() + extended_pictographic_chunk_1() + extended_pictographic_chunk_2() + extended_pictographic_chunk_3() + extended_pictographic_chunk_4() + extended_pictographic_chunk_5() + extended_pictographic_chunk_6() + extended_pictographic_chunk_7() + extended_pictographic_chunk_8());
    push_extended_pictographic_chunk_9(&mut v);
    assert(rview(v@) =~= extended_pictographic_chunk_0() + extended_pictographic_chunk_1() + extended_pictographic_chunk_2() + extended_pictographic_chunk_3() + extended_pictographic_chunk_4() + extended_pictographic_chunk_5() + extended_pictographic_chunk_6() + extended_pictographic_chunk_7() + extended_pictographic_chunk_8() + extended_pictographic_chunk_9());
    v
}

pub open spec fn extender_chunk_0() -> Seq<SRange> {
    seq![(0xB7int, 0xB7int), (0x2D0int, 0x2D1int), (0x640int, 0x640int), (0x7FAint, 0x7FAint), (0xA71int, 0xA71int), (0xAFBint, 0xAFBint), (0xB55int, 0xB55int), (0xE46int, 0xE46int)]
}

pub open spec fn extender_chunk_1() -> Seq<SRange> {
    seq![(0xEC6int, 0xEC6int), (0x180Aint, 0x180Aint), (0x1843int, 0x1843int), (0x1AA7int, 0x1AA7int), (0x1C36int, 0x1C36int), (0x1C7Bint, 0x1C7Bint), (0x3005int, 0x3005int), (0x3031int, 0x3035int)]
}

pub open spec fn extender_chunk_2() -> Seq<SRange> {
    seq![(0x309Dint, 0x309Eint), (0x30FCint, 0x30FEint), (0xA015int, 0xA015int), (0xA60Cint, 0xA60Cint), (0xA9CFint, 0xA9CFint), (0xA9E6int, 0xA9E6int), (0xAA70int, 0xAA70int), (0xAADDint, 0xAADDint)]
}

pub open spec fn extender_chunk_3() -> Seq<SRange> {
    seq![(0xAAF3int, 0xAAF4int), (0xFF70int, 0xFF70int), (0x10781int, 0x10782int), (0x10D4Eint, 0x10D4Eint), (0x10D6Aint, 0x10D6Aint), (0x10D6Fint, 0x10D6Fint), (0x11237int, 0x11237int), (0x1135Dint, 0x1135Dint)]
}

pub open spec fn extender_chunk_4() -> Seq<SRange> {
    seq![(0x113D2int, 0x113D3int), (0x115C6int, 0x115C8int), (0x11A98int, 0x11A98int), (0x16B42int, 0x16B43int), (0x16FE0int, 0x16FE1int), (0x16FE3int, 0x16FE3int), (0x1E13Cint, 0x1E13Dint), (0x1E5EFint, 0x1E5EFint)]
}

pub open spec fn extender_chunk_5() -> Seq<SRange> {
    seq![(0x1E944int, 0x1E946int)]
}

/// The ranges of the property Extender.
pub open spec fn extender_ranges() -> Seq<SRange> {
    extender_chunk_0() + extender_chunk_1() + extender_chunk_2() + extender_chunk_3() + extender_chunk_4() + extender_chunk_5()
}

pub proof fn lemma_extender_canonical()
    ensures
        canonical(extender_ranges()),
{
    reveal_with_fuel(canonical, 9);
    assert(canonical(extender_chunk_0()));
    assert(canonical(extender_chunk_1()));
    assert(canonical(extender_chunk_2()));
    assert(canonical(extender_chunk_3()));
    assert(canonical(extender_chunk_4()));
    assert(canonical(extender_chunk_5()));
    lemma_canonical_append(extender_chunk_0(), extender_chunk_1());
    lemma_canonical_append(extender_chunk_0() + extender_chunk_1(), extender_chunk_2());
    lemma_canonical_append(extender_chunk_0() + extender_chunk_1() + extender_chunk_2(), extender_chunk_3());
    lemma_canonical_append(extender_chunk_0() + extender_chunk_1() + extender_chunk_2() + extender_chunk_3(), extender_chunk_4());
    lemma_canonical_append(extender_chunk_0() + extender_chunk_1() + extender_chunk_2() + extender_chunk_3() + extender_chunk_4(), extender_chunk_5());
}

fn push_extender_chunk_0(v: &mut Vec<ClassUnicodeRange>)
    ensures
        rview(final(v)@) == rview(old(v)@) + extender_chunk_0(),
{
    let ghost o = rview(v@);
    push_range(v, '\u{B7}', '\u{B7}');
    push_range(v, '\u{2D0}', '\u{2D1}');
    push_range(v, '\u{640}', '\u{640}');
    push_range(v, '\u{7FA}', '\u{7FA}');
    push_range(v, '\u{A71}', '\u{A71}');
    push_range(v, '\u{AFB}', '\u{AFB}');
    push_range(v, '\u{B55}', '\u{B55}');
    push_range(v, '\u{E46}', '\u{E46}');
    assert(rview(v@) =~= o + extender_chunk_0());
}

fn push_extender_chunk_1(v: &mut Vec<ClassUnicodeRange>)
    ensures
        rview(final(v)@) == rview(old(v)@) + extender_chunk_1(),
{
    let ghost o = rview(v@);
    push_range(v, '\u{EC6}', '\u{EC6}');
    push_range(v, '\u{180A}', '\u{180A}');
    push_range(v, '\u{1843}', '\u{1843}');
    push_range(v, '\u{1AA7}', '\u{1AA7}');
    push_range(v, '\u{1C36}', '\u{1C36}');
    push_range(v, '\u{1C7B}', '\u{1C7B}');
    push_range(v, '\u{3005}', '\u{3005}');
    push_range(v, '\u{3031}', '\u{3035}');
    assert(rview(v@) =~= o + extender_chunk_1());
}

fn push_extender_chunk_2(v: &mut Vec<ClassUnicodeRange>)
    ensures
        rview(final(v)@) == rview(old(v)@) + extender_chunk_2(),
{
    let ghost o = rview(v@);
    push_range(v, '\u{309D}', '\u{309E}');
    push_range(v, '\u{30FC}', '\u{30FE}');
    push_range(v, '\u{A015}', '\u{A015}');
    push_range(v, '\u{A60C}', '\u{A60C}');
    push_range(v, '\u{A9CF}', '\u{A9CF}');
    push_range(v, '\u{A9E6}', '\u{A9E6}');
    push_range(v, '\u{AA70}', '\u{AA70}');
    push_range(v, '\u{AADD}', '\u{AADD}');
    assert(rview(v@) =~= o + extender_chunk_2());
}

fn push_extender_chunk_3(v: &mut Vec<ClassUnicodeRange>)
    ensures
        rview(final(v)@) == rview(old(v)@) + extender_chunk_3(),
{
    let ghost o = rview(v@);
    push_range(v, '\u{AAF3}', '\u{AAF4}');
    push_range(v, '\u{FF70}', '\u{FF70}');
    push_range(v, '\u{10781}', '\u{10782}');
    push_range(v, '\u{10D4E}', '\u{10D4E}');
    push_range(v, '\u{10D6A}', '\u{10D6A}');
    push_range(v, '\u{10D6F}', '\u{10D6F}');
    push_range(v, '\u{11237}', '\u{11237}');
    push_range(v, '\u{1135D}', '\u{1135D}');
    assert(rview(v@) =~= o + extender_chunk_3());
}

fn push_extender_chunk_4(v: &mut Vec<ClassUnicodeRange>)
    ensures
        rview(final(v)@) == rview(old(v)@) + extender_chunk_4(),
{
    let ghost o = rview(v@);
    push_range(v, '\u{113D2}', '\u{113D3}');
    push_range(v, '\u{115C6}', '\u{115C8}');
    push_range(v, '\u{11A98}', '\u{11A98}');
    push_range(v, '\u{16B42}', '\u{16B43}');
    push_range(v, '\u{16FE0}', '\u{16FE1}');
    push_range(v, '\u{16FE3}', '\u{16FE3}');
    push_range(v, '\u{1E13C}', '\u{1E13D}');
    push_range(v, '\u{1E5EF}', '\u{1E5EF}');
    assert(rview(v@) =~= o + extender_chunk_4());
}

fn push_extender_chunk_5(v: &mut Vec<ClassUnicodeRange>)
    ensures
        rview(final(v)@) == rview(old(v)@) + extender_chunk_5(),
{
    let ghost o = rview(v@);
    push_range(v, '\u{1E944}', '\u{1E946}');
    assert(rview(v@) =~= o + extender_chunk_5());
}

pub fn extender_class() -> (v: Vec<ClassUnicodeRange>)
    ensures
        rview(v@) == extender_ranges(),
{
    let mut v: Vec<ClassUnicodeRange> = Vec::new();
    assert(rview(v@) =~= Seq::<SRange>::empty());
    push_extender_chunk_0(&mut v);
    assert(rview(v@) =~= extender_chunk_0());
    push_extender_chunk_1(&mut v);
    assert(rview(v@) =~= extender_chunk_0() + extender_chunk_1());
    push_extender_chunk_2(&mut v);
    assert(rview(v@) =~= extender_chunk_0() + extender_chunk_1() + extender_chunk_2());
    push_extender_chunk_3(&mut v);
    assert(rview(v@) =~= extender_chunk_0() + extender_chunk_1() + extender_chunk_2() + extender_chunk_3());
    push_extender_chunk_4(&mut v);
    assert(rview(v@) =~= extender_chunk_0() + extender_chunk_1() + extender_chunk_2() + extender_chunk_3() + extender_chunk_4());
    push_extender_chunk_5(&mut v);
    assert(rview(v@) =~= extender_chunk_0() + extender_chunk_1() + extender_chunk_2() + extender_chunk_3() + extender_chunk_4() + extender_chunk_5());
    v
}

pub open spec fn grapheme_base_chunk_0() -> Seq<SRange> {
    seq![(0x20int, 0x7Eint), (0xA0int, 0xACint), (0xAEint, 0x2FFint), (0x370int, 0x377int), (0x37Aint, 0x37Fint), (0x384int, 0x38Aint), (0x38Cint, 0x38Cint), (0x38Eint, 0x3A1int)]
}

pub open spec fn grapheme_base_chunk_1() -> Seq<SRange> {
    seq![(0x3A3int, 0x482int), (0x48Aint, 0x52Fint), (0x531int, 0x556int), (0x559int, 0x58Aint), (0x58Dint, 0x58Fint), (0x5BEint, 0x5BEint), (0x5C0int, 0x5C0int), (0x5C3int, 0x5C3int)]
}

pub open spec fn grapheme_base_chunk_2() -> Seq<SRange> {
    seq![(0x5C6int, 0x5C6int), (0x5D0int, 0x5EAint), (0x5EFint, 0x5F4int), (0x606int, 0x60Fint), (0x61Bint, 0x61Bint), (0x61Dint, 0x64Aint), (0x660int, 0x66Fint), (0x671int, 0x6D5int)]
}

pub open spec fn grapheme_base_chunk_3() -> Seq<SRange> {
    seq![(0x6DEint, 0x6DEint), (0x6E5int, 0x6E6int), (0x6E9int, 0x6E9int), (0x6EEint, 0x70Dint), (0x710int, 0x710int), (0x712int, 0x72Fint), (0x74Dint, 0x7A5int), (0x7B1int, 0x7B1int)]
}

pub open spec fn grapheme_base_chunk_4() -> Seq<SRange> {
    seq![(0x7C0int, 0x7EAint), (0x7F4int, 0x7FAint), (0x7FEint, 0x815int), (0x81Aint, 0x81Aint), (0x824int, 0x824int), (0x828int, 0x828int), (0x830int, 0x83Eint), (0x840int, 0x858int)]
}

pub open spec fn grapheme_base_chunk_5() -> Seq<SRange> {
    seq![(0x85Eint, 0x85Eint), (0x860int, 0x86Aint), (0x870int, 0x88Eint), (0x8A0int, 0x8C9int), (0x903int, 0x939int), (0x93Bint, 0x93Bint), (0x93Dint, 0x940int), (0x949int, 0x94Cint)]
}

pub open spec fn grapheme_base_chunk_6() -> Seq<SRange> {
    seq![(0x94Eint, 0x950int), (0x958int, 0x961int), (0x964int, 0x980int), (0x982int, 0x983int), (0x985int, 0x98Cint), (0x98Fint, 0x990int), (0x993int, 0x9A8int), (0x9AAint, 0x9B0int)]
}

pub open spec fn grapheme_base_chunk_7() -> Seq<SRange> {
    seq![(0x9B2int, 0x9B2int), (0x9B6int, 0x9B9int), (0x9BDint, 0x9BDint), (0x9BFint, 0x9C0int), (0x9C7int, 0x9C8int), (0x9CBint, 0x9CCint), (0x9CEint, 0x9CEint), (0x9DCint, 0x9DDint)]
}

pub open spec fn grapheme_base_chunk_8() -> Seq<SRange> {
    seq![(0x9DFint, 0x9E1int), (0x9E6int, 0x9FDint), (0xA03int, 0xA03int), (0xA05int, 0xA0Aint), (0xA0Fint, 0xA10int), (0xA13int, 0xA28int), (0xA2Aint, 0xA30int), (0xA32int, 0xA33int)]
}

pub open spec fn grapheme_base_chunk_9() -> Seq<SRange> {
    seq![(0xA35int, 0xA36int), (0xA38int, 0xA39int), (0xA3Eint, 0xA40int), (0xA59int, 0xA5Cint), (0xA5Eint, 0xA5Eint), (0xA66int, 0xA6Fint), (0xA72int, 0xA74int), (0xA76int, 0xA76int)]
}

pub open spec fn grapheme_base_chunk_10() -> Seq<SRange> {
    seq![(0xA83int, 0xA83int), (0xA85int, 0xA8Dint), (0xA8Fint, 0xA91int), (0xA93int, 0xAA8int), (0xAAAint, 0xAB0int), (0xAB2int, 0xAB3int), (0xAB5int, 0xAB9int), (0xABDint, 0xAC0int)]
}

pub open spec fn grapheme_base_chunk_11() -> Seq<SRange> {
    seq![(0xAC9int, 0xAC9int), (0xACBint, 0xACCint), (0xAD0int, 0xAD0int), (0xAE0int, 0xAE1int), (0xAE6int, 0xAF1int), (0xAF9int, 0xAF9int), (0xB02int, 0xB03int), (0xB05int, 0xB0Cint)]
}

pub open spec fn grapheme_base_chunk_12() -> Seq<SRange> {
    seq![(0xB0Fint, 0xB10int), (0xB13int, 0xB28int), (0xB2Aint, 0xB30int), (0xB32int, 0xB33int), (0xB35int, 0xB39int), (0xB3Dint, 0xB3Dint), (0xB40int, 0xB40int), (0xB47int, 0xB48int)]
}

pub open spec fn grapheme_base_chunk_13() -> Seq<SRange> {
    seq![(0xB4Bint, 0xB4Cint), (0xB5Cint, 0xB5Dint), (0xB5Fint, 0xB61int), (0xB66int, 0xB77int), (0xB83int, 0xB83int), (0xB85int, 0xB8Aint), (0xB8Eint, 0xB90int), (0xB92int, 0xB95int)]
}

pub open spec fn grapheme_base_chunk_14() -> Seq<SRange> {
    seq![(0xB99int, 0xB9Aint), (0xB9Cint, 0xB9Cint), (0xB9Eint, 0xB9Fint), (0xBA3int, 0xBA4int), (0xBA8int, 0xBAAint), (0xBAEint, 0xBB9int), (0xBBFint, 0xBBFint), (0xBC1int, 0xBC2int)]
}

pub open spec fn grapheme_base_chunk_15() -> Seq<SRange> {
    seq![(0xBC6int, 0xBC8int), (0xBCAint, 0xBCCint), (0xBD0int, 0xBD0int), (0xBE6int, 0xBFAint), (0xC01int, 0xC03int), (0xC05int, 0xC0Cint), (0xC0Eint, 0xC10int), (0xC12int, 0xC28int)]
}

pub open spec fn grapheme_base_chunk_16() -> Seq<SRange> {
    seq![(0xC2Aint, 0xC39int), (0xC3Dint, 0xC3Dint), (0xC41int, 0xC44int), (0xC58int, 0xC5Aint), (0xC5Dint, 0xC5Dint), (0xC60int, 0xC61int), (0xC66int, 0xC6Fint), (0xC77int, 0xC80int)]
}

pub open spec fn grapheme_base_chunk_17() -> Seq<SRange> {
    seq![(0xC82int, 0xC8Cint), (0xC8Eint, 0xC90int), (0xC92int, 0xCA8int), (0xCAAint, 0xCB3int), (0xCB5int, 0xCB9int), (0xCBDint, 0xCBEint), (0xCC1int, 0xCC1int), (0xCC3int, 0xCC4int)]
}

pub open spec fn grapheme_base_chunk_18() -> Seq<SRange> {
    seq![(0xCDDint, 0xCDEint), (0xCE0int, 0xCE1int), (0xCE6int, 0xCEFint), (0xCF1int, 0xCF3int), (0xD02int, 0xD0Cint), (0xD0Eint, 0xD10int), (0xD12int, 0xD3Aint), (0xD3Dint, 0xD3Dint)]
}

pub open spec fn grapheme_base_chunk_19() -> Seq<SRange> {
    seq![(0xD3Fint, 0xD40int), (0xD46int, 0xD48int), (0xD4Aint, 0xD4Cint), (0xD4Eint, 0xD4Fint), (0xD54int, 0xD56int), (0xD58int, 0xD61int), (0xD66int, 0xD7Fint), (0xD82int, 0xD83int)]
}

pub open spec fn grapheme_base_chunk_20() -> Seq<SRange> {
    seq![(0xD85int, 0xD96int), (0xD9Aint, 0xDB1int), (0xDB3int, 0xDBBint), (0xDBDint, 0xDBDint), (0xDC0int, 0xDC6int), (0xDD0int, 0xDD1int), (0xDD8int, 0xDDEint), (0xDE6int, 0xDEFint)]
}

pub open spec fn grapheme_base_chunk_21() -> Seq<SRange> {
    seq![(0xDF2int, 0xDF4int), (0xE01int, 0xE30int), (0xE32int, 0xE33int), (0xE3Fint, 0xE46int), (0xE4Fint, 0xE5Bint), (0xE81int, 0xE82int), (0xE84int, 0xE84int), (0xE86int, 0xE8Aint)]
}

pub open spec fn grapheme_base_chunk_22() -> Seq<SRange> {
    seq![(0xE8Cint, 0xEA3int), (0xEA5int, 0xEA5int), (0xEA7int, 0xEB0int), (0xEB2int, 0xEB3int), (0xEBDint, 0xEBDint), (0xEC0int, 0xEC4int), (0xEC6int, 0xEC6int), (0xED0int, 0xED9int)]
}

pub open spec fn grapheme_base_chunk_23() -> Seq<SRange> {
    seq![(0xEDCint, 0xEDFint), (0xF00int, 0xF17int), (0xF1Aint, 0xF34int), (0xF36int, 0xF36int), (0xF38int, 0xF38int), (0xF3Aint, 0xF47int), (0xF49int, 0xF6Cint), (0xF7Fint, 0xF7Fint)]
}

pub open spec fn grapheme_base_chunk_24() -> Seq<SRange> {
    seq![(0xF85int, 0xF85int), (0xF88int, 0xF8Cint), (0xFBEint, 0xFC5int), (0xFC7int, 0xFCCint), (0xFCEint, 0xFDAint), (0x1000int, 0x102Cint), (0x1031int, 0x1031int), (0x1038int, 0x1038int)]
}

pub open spec fn grapheme_base_chunk_25() -> Seq<SRange> {
    seq![(0x103Bint, 0x103Cint), (0x103Fint, 0x1057int), (0x105Aint, 0x105Dint), (0x1061int, 0x1070int), (0x1075int, 0x1081int), (0x1083int, 0x1084int), (0x1087int, 0x108Cint), (0x108Eint, 0x109Cint)]
}

pub open spec fn grapheme_base_chunk_26() -> Seq<SRange> {
    seq![(0x109Eint, 0x10C5int), (0x10C7int, 0x10C7int), (0x10CDint, 0x10CDint), (0x10D0int, 0x1248int), (0x124Aint, 0x124Dint), (0x1250int, 0x1256int), (0x1258int, 0x1258int), (0x125Aint, 0x125Dint)]
}

pub open spec fn grapheme_base_chunk_27() -> Seq<SRange> {
    seq![(0x1260int, 0x1288int), (0x128Aint, 0x128Dint), (0x1290int, 0x12B0int), (0x12B2int, 0x12B5int), (0x12B8int, 0x12BEint), (0x12C0int, 0x12C0int), (0x12C2int, 0x12C5int), (0x12C8int, 0x12D6int)]
}

pub open spec fn grapheme_base_chunk_28() -> Seq<SRange> {
    seq![(0x12D8int, 0x1310int), (0x1312int, 0x1315int), (0x1318int, 0x135Aint), (0x1360int, 0x137Cint), (0x1380int, 0x1399int), (0x13A0int, 0x13F5int), (0x13F8int, 0x13FDint), (0x1400int, 0x169Cint)]
}

pub open spec fn grapheme_base_chunk_29() -> Seq<SRange> {
    seq![(0x16A0int, 0x16F8int), (0x1700int, 0x1711int), (0x171Fint, 0x1731int), (0x1735int, 0x1736int), (0x1740int, 0x1751int), (0x1760int, 0x176Cint), (0x176Eint, 0x1770int), (0x1780int, 0x17B3int)]
}

pub open spec fn grapheme_base_chunk_30() -> Seq<SRange> {
    seq![(0x17B6int, 0x17B6int), (0x17BEint, 0x17C5int), (0x17C7int, 0x17C8int), (0x17D4int, 0x17DCint), (0x17E0int, 0x17E9int), (0x17F0int, 0x17F9int), (0x1800int, 0x180Aint), (0x1810int, 0x1819int)]
}

pub open spec fn grapheme_base_chunk_31() -> Seq<SRange> {
    seq![(0x1820int, 0x1878int), (0x1880int, 0x1884int), (0x1887int, 0x18A8int), (0x18AAint, 0x18AAint), (0x18B0int, 0x18F5int), (0x1900int, 0x191Eint), (0x1923int, 0x1926int), (0x1929int, 0x192Bint)]
}

pub open spec fn grapheme_base_chunk_32() -> Seq<SRange> {
    seq![(0x1930int, 0x1931int), (0x1933int, 0x1938int), (0x1940int, 0x1940int), (0x1944int, 0x196Dint), (0x1970int, 0x1974int), (0x1980int, 0x19ABint), (0x19B0int, 0x19C9int), (0x19D0int, 0x19DAint)]
}

pub open spec fn grapheme_base_chunk_33() -> Seq<SRange> {
    seq![(0x19DEint, 0x1A16int), (0x1A19int, 0x1A1Aint), (0x1A1Eint, 0x1A55int), (0x1A57int, 0x1A57int), (0x1A61int, 0x1A61int), (0x1A63int, 0x1A64int), (0x1A6Dint, 0x1A72int), (0x1A80int, 0x1A89int)]
}

pub open spec fn grapheme_base_chunk_34() -> Seq<SRange> {
    seq![(0x1A90int, 0x1A99int), (0x1AA0int, 0x1AADint), (0x1B04int, 0x1B33int), (0x1B3Eint, 0x1B41int), (0x1B45int, 0x1B4Cint), (0x1B4Eint, 0x1B6Aint), (0x1B74int, 0x1B7Fint), (0x1B82int, 0x1BA1int)]
}

pub open spec fn grapheme_base_chunk_35() -> Seq<SRange> {
    seq![(0x1BA6int, 0x1BA7int), (0x1BAEint, 0x1BE5int), (0x1BE7int, 0x1BE7int), (0x1BEAint, 0x1BECint), (0x1BEEint, 0x1BEEint), (0x1BFCint, 0x1C2Bint), (0x1C34int, 0x1C35int), (0x1C3Bint, 0x1C49int)]
}

pub open spec fn grapheme_base_chunk_36() -> Seq<SRange> {
    seq![(0x1C4Dint, 0x1C8Aint), (0x1C90int, 0x1CBAint), (0x1CBDint, 0x1CC7int), (0x1CD3int, 0x1CD3int), (0x1CE1int, 0x1CE1int), (0x1CE9int, 0x1CECint), (0x1CEEint, 0x1CF3int), (0x1CF5int, 0x1CF7int)]
}

pub open spec fn grapheme_base_chunk_37() -> Seq<SRange> {
    seq![(0x1CFAint, 0x1CFAint), (0x1D00int, 0x1DBFint), (0x1E00int, 0x1F15int), (0x1F18int, 0x1F1Dint), (0x1F20int, 0x1F45int), (0x1F48int, 0x1F4Dint), (0x1F50int, 0x1F57int), (0x1F59int, 0x1F59int)]
}

pub open spec fn grapheme_base_chunk_38() -> Seq<SRange> {
    seq![(0x1F5Bint, 0x1F5Bint), (0x1F5Dint, 0x1F5Dint), (0x1F5Fint, 0x1F7Dint), (0x1F80int, 0x1FB4int), (0x1FB6int, 0x1FC4int), (0x1FC6int, 0x1FD3int), (0x1FD6int, 0x1FDBint), (0x1FDDint, 0x1FEFint)]
}

pub open spec fn grapheme_base_chunk_39() -> Seq<SRange> {
    seq![(0x1FF2int, 0x1FF4int), (0x1FF6int, 0x1FFEint), (0x2000int, 0x200Aint), (0x2010int, 0x2027int), (0x202Fint, 0x205Fint), (0x2070int, 0x2071int), (0x2074int, 0x208Eint), (0x2090int, 0x209Cint)]
}

pub open spec fn grapheme_base_chunk_40() -> Seq<SRange> {
    seq![(0x20A0int, 0x20C0int), (0x2100int, 0x218Bint), (0x2190int, 0x2429int), (0x2440int, 0x244Aint), (0x2460int, 0x2B73int), (0x2B76int, 0x2B95int), (0x2B97int, 0x2CEEint), (0x2CF2int, 0x2CF3int)]
}

pub open spec fn grapheme_base_chunk_41() -> Seq<SRange> {
    seq![(0x2CF9int, 0x2D25int), (0x2D27int, 0x2D27int), (0x2D2Dint, 0x2D2Dint), (0x2D30int, 0x2D67int), (0x2D6Fint, 0x2D70int), (0x2D80int, 0x2D96int), (0x2DA0int, 0x2DA6int), (0x2DA8int, 0x2DAEint)]
}

pub open spec fn grapheme_base_chunk_42() -> Seq<SRange> {
    seq![(0x2DB0int, 0x2DB6int), (0x2DB8int, 0x2DBEint), (0x2DC0int, 0x2DC6int), (0x2DC8int, 0x2DCEint), (0x2DD0int, 0x2DD6int), (0x2DD8int, 0x2DDEint), (0x2E00int, 0x2E5Dint), (0x2E80int, 0x2E99int)]
}

pub open spec fn grapheme_base_chunk_43() -> Seq<SRange> {
    seq![(0x2E9Bint, 0x2EF3int), (0x2F00int, 0x2FD5int), (0x2FF0int, 0x3029int), (0x3030int, 0x303Fint), (0x3041int, 0x3096int), (0x309Bint, 0x30FFint), (0x3105int, 0x312Fint), (0x3131int, 0x318Eint)]
}

pub open spec fn grapheme_base_chunk_44() -> Seq<SRange> {
    seq![(0x3190int, 0x31E5int), (0x31EFint, 0x321Eint), (0x3220int, 0xA48Cint), (0xA490int, 0xA4C6int), (0xA4D0int, 0xA62Bint), (0xA640int, 0xA66Eint), (0xA673int, 0xA673int), (0xA67Eint, 0xA69Dint)]
}

pub open spec fn grapheme_base_chunk_45() -> Seq<SRange> {
    seq![(0xA6A0int, 0xA6EFint), (0xA6F2int, 0xA6F7int), (0xA700int, 0xA7CDint), (0xA7D0int, 0xA7D1int), (0xA7D3int, 0xA7D3int), (0xA7D5int, 0xA7DCint), (0xA7F2int, 0xA801int), (0xA803int, 0xA805int)]
}

pub open spec fn grapheme_base_chunk_46() -> Seq<SRange> {
    seq![(0xA807int, 0xA80Aint), (0xA80Cint, 0xA824int), (0xA827int, 0xA82Bint), (0xA830int, 0xA839int), (0xA840int, 0xA877int), (0xA880int, 0xA8C3int), (0xA8CEint, 0xA8D9int), (0xA8F2int, 0xA8FEint)]
}

pub open spec fn grapheme_base_chunk_47() -> Seq<SRange> {
    seq![(0xA900int, 0xA925int), (0xA92Eint, 0xA946int), (0xA952int, 0xA952int), (0xA95Fint, 0xA97Cint), (0xA983int, 0xA9B2int), (0xA9B4int, 0xA9B5int), (0xA9BAint, 0xA9BBint), (0xA9BEint, 0xA9BFint)]
}

pub open spec fn grapheme_base_chunk_48() -> Seq<SRange> {
    seq![(0xA9C1int, 0xA9CDint), (0xA9CFint, 0xA9D9int), (0xA9DEint, 0xA9E4int), (0xA9E6int, 0xA9FEint), (0xAA00int, 0xAA28int), (0xAA2Fint, 0xAA30int), (0xAA33int, 0xAA34int), (0xAA40int, 0xAA42int)]
}

pub open spec fn grapheme_base_chunk_49() -> Seq<SRange> {
    seq![(0xAA44int, 0xAA4Bint), (0xAA4Dint, 0xAA4Dint), (0xAA50int, 0xAA59int), (0xAA5Cint, 0xAA7Bint), (0xAA7Dint, 0xAAAFint), (0xAAB1int, 0xAAB1int), (0xAAB5int, 0xAAB6int), (0xAAB9int, 0xAABDint)]
}

pub open spec fn grapheme_base_chunk_50() -> Seq<SRange> {
    seq![(0xAAC0int, 0xAAC0int), (0xAAC2int, 0xAAC2int), (0xAADBint, 0xAAEBint), (0xAAEEint, 0xAAF5int), (0xAB01int, 0xAB06int), (0xAB09int, 0xAB0Eint), (0xAB11int, 0xAB16int), (0xAB20int, 0xAB26int)]
}

pub open spec fn grapheme_base_chunk_51() -> Seq<SRange> {
    seq![(0xAB28int, 0xAB2Eint), (0xAB30int, 0xAB6Bint), (0xAB70int, 0xABE4int), (0xABE6int, 0xABE7int), (0xABE9int, 0xABECint), (0xABF0int, 0xABF9int), (0xAC00int, 0xD7A3int), (0xD7B0int, 0xD7C6int)]
}

pub open spec fn grapheme_base_chunk_52() -> Seq<SRange> {
    seq![(0xD7CBint, 0xD7FBint), (0xF900int, 0xFA6Dint), (0xFA70int, 0xFAD9int), (0xFB00int, 0xFB06int), (0xFB13int, 0xFB17int), (0xFB1Dint, 0xFB1Dint), (0xFB1Fint, 0xFB36int), (0xFB38int, 0xFB3Cint)]
}

pub open spec fn grapheme_base_chunk_53() -> Seq<SRange> {
    seq![(0xFB3Eint, 0xFB3Eint), (0xFB40int, 0xFB41int), (0xFB43int, 0xFB44int), (0xFB46int, 0xFBC2int), (0xFBD3int, 0xFD8Fint), (0xFD92int, 0xFDC7int), (0xFDCFint, 0xFDCFint), (0xFDF0int, 0xFDFFint)]
}

pub open spec fn grapheme_base_chunk_54() -> Seq<SRange> {
    seq![(0xFE10int, 0xFE19int), (0xFE30int, 0xFE52int), (0xFE54int, 0xFE66int), (0xFE68int, 0xFE6Bint), (0xFE70int, 0xFE74int), (0xFE76int, 0xFEFCint), (0xFF01int, 0xFF9Dint), (0xFFA0int, 0xFFBEint)]
}

pub open spec fn grapheme_base_chunk_55() -> Seq<SRange> {
    seq![(0xFFC2int, 0xFFC7int), (0xFFCAint, 0xFFCFint), (0xFFD2int, 0xFFD7int), (0xFFDAint, 0xFFDCint), (0xFFE0int, 0xFFE6int), (0xFFE8int, 0xFFEEint), (0xFFFCint, 0xFFFDint), (0x10000int, 0x1000Bint)]
}

pub open spec fn grapheme_base_chunk_56() -> Seq<SRange> {
    seq![(0x1000Dint, 0x10026int), (0x10028int, 0x1003Aint), (0x1003Cint, 0x1003Dint), (0x1003Fint, 0x1004Dint), (0x10050int, 0x1005Dint), (0x10080int, 0x100FAint), (0x10100int, 0x10102int), (0x10107int, 0x10133int)]
}

pub open spec fn grapheme_base_chunk_57() -> Seq<SRange> {
    seq![(0x10137int, 0x1018Eint), (0x10190int, 0x1019Cint), (0x101A0int, 0x101A0int), (0x101D0int, 0x101FCint), (0x10280int, 0x1029Cint), (0x102A0int, 0x102D0int), (0x102E1int, 0x102FBint), (0x10300int, 0x10323int)]
}

pub open spec fn grapheme_base_chunk_58() -> Seq<SRange> {
    seq![(0x1032Dint, 0x1034Aint), (0x10350int, 0x10375int), (0x10380int, 0x1039Dint), (0x1039Fint, 0x103C3int), (0x103C8int, 0x103D5int), (0x10400int, 0x1049Dint), (0x104A0int, 0x104A9int), (0x104B0int, 0x104D3int)]
}

pub open spec fn grapheme_base_chunk_59() -> Seq<SRange> {
    seq![(0x104D8int, 0x104FBint), (0x10500int, 0x10527int), (0x10530int, 0x10563int), (0x1056Fint, 0x1057Aint), (0x1057Cint, 0x1058Aint), (0x1058Cint, 0x10592int), (0x10594int, 0x10595int), (0x10597int, 0x105A1int)]
}

pub open spec fn grapheme_base_chunk_60() -> Seq<SRange> {
    seq![(0x105A3int, 0x105B1int), (0x105B3int, 0x105B9int), (0x105BBint, 0x105BCint), (0x105C0int, 0x105F3int), (0x10600int, 0x10736int), (0x10740int, 0x10755int), (0x10760int, 0x10767int), (0x10780int, 0x10785int)]
}

pub open spec fn grapheme_base_chunk_61() -> Seq<SRange> {
    seq![(0x10787int, 0x107B0int), (0x107B2int, 0x107BAint), (0x10800int, 0x10805int), (0x10808int, 0x10808int), (0x1080Aint, 0x10835int), (0x10837int, 0x10838int), (0x1083Cint, 0x1083Cint), (0x1083Fint, 0x10855int)]
}

pub open spec fn grapheme_base_chunk_62() -> Seq<SRange> {
    seq![(0x10857int, 0x1089Eint), (0x108A7int, 0x108AFint), (0x108E0int, 0x108F2int), (0x108F4int, 0x108F5int), (0x108FBint, 0x1091Bint), (0x1091Fint, 0x10939int), (0x1093Fint, 0x1093Fint), (0x10980int, 0x109B7int)]
}

pub open spec fn grapheme_base_chunk_63() -> Seq<SRange> {
    seq![(0x109BCint, 0x109CFint), (0x109D2int, 0x10A00int), (0x10A10int, 0x10A13int), (0x10A15int, 0x10A17int), (0x10A19int, 0x10A35int), (0x10A40int, 0x10A48int), (0x10A50int, 0x10A58int), (0x10A60int, 0x10A9Fint)]
}

pub open spec fn grapheme_base_chunk_64() -> Seq<SRange> {
    seq![(0x10AC0int, 0x10AE4int), (0x10AEBint, 0x10AF6int), (0x10B00int, 0x10B35int), (0x10B39int, 0x10B55int), (0x10B58int, 0x10B72int), (0x10B78int, 0x10B91int), (0x10B99int, 0x10B9Cint), (0x10BA9int, 0x10BAFint)]
}

pub open spec fn grapheme_base_chunk_65() -> Seq<SRange> {
    seq![(0x10C00int, 0x10C48int), (0x10C80int, 0x10CB2int), (0x10CC0int, 0x10CF2int), (0x10CFAint, 0x10D23int), (0x10D30int, 0x10D39int), (0x10D40int, 0x10D65int), (0x10D6Eint, 0x10D85int), (0x10D8Eint, 0x10D8Fint)]
}

pub open spec fn grapheme_base_chunk_66() -> Seq<SRange> {
    seq![(0x10E60int, 0x10E7Eint), (0x10E80int, 0x10EA9int), (0x10EADint, 0x10EADint), (0x10EB0int, 0x10EB1int), (0x10EC2int, 0x10EC4int), (0x10F00int, 0x10F27int), (0x10F30int, 0x10F45int), (0x10F51int, 0x10F59int)]
}

pub open spec fn grapheme_base_chunk_67() -> Seq<SRange> {
    seq![(0x10F70int, 0x10F81int), (0x10F86int, 0x10F89int), (0x10FB0int, 0x10FCBint), (0x10FE0int, 0x10FF6int), (0x11000int, 0x11000int), (0x11002int, 0x11037int), (0x11047int, 0x1104Dint), (0x11052int, 0x1106Fint)]
}

pub open spec fn grapheme_base_chunk_68() -> Seq<SRange> {
    seq![(0x11071int, 0x11072int), (0x11075int, 0x11075int), (0x11082int, 0x110B2int), (0x110B7int, 0x110B8int), (0x110BBint, 0x110BCint), (0x110BEint, 0x110C1int), (0x110D0int, 0x110E8int), (0x110F0int, 0x110F9int)]
}

pub open spec fn grapheme_base_chunk_69() -> Seq<SRange> {
    seq![(0x11103int, 0x11126int), (0x1112Cint, 0x1112Cint), (0x11136int, 0x11147int), (0x11150int, 0x11172int), (0x11174int, 0x11176int), (0x11182int, 0x111B5int), (0x111BFint, 0x111BFint), (0x111C1int, 0x111C8int)]
}

pub open spec fn grapheme_base_chunk_70() -> Seq<SRange> {
    seq![(0x111CDint, 0x111CEint), (0x111D0int, 0x111DFint), (0x111E1int, 0x111F4int), (0x11200int, 0x11211int), (0x11213int, 0x1122Eint), (0x11232int, 0x11233int), (0x11238int, 0x1123Dint), (0x1123Fint, 0x11240int)]
}

pub open spec fn grapheme_base_chunk_71() -> Seq<SRange> {
    seq![(0x11280int, 0x11286int), (0x11288int, 0x11288int), (0x1128Aint, 0x1128Dint), (0x1128Fint, 0x1129Dint), (0x1129Fint, 0x112A9int), (0x112B0int, 0x112DEint), (0x112E0int, 0x112E2int), (0x112F0int, 0x112F9int)]
}

pub open spec fn grapheme_base_chunk_72() -> Seq<SRange> {
    seq![(0x11302int, 0x11303int), (0x11305int, 0x1130Cint), (0x1130Fint, 0x11310int), (0x11313int, 0x11328int), (0x1132Aint, 0x11330int), (0x11332int, 0x11333int), (0x11335int, 0x11339int), (0x1133Dint, 0x1133Dint)]
}

pub open spec fn grapheme_base_chunk_73() -> Seq<SRange> {
    seq![(0x1133Fint, 0x1133Fint), (0x11341int, 0x11344int), (0x11347int, 0x11348int), (0x1134Bint, 0x1134Cint), (0x11350int, 0x11350int), (0x1135Dint, 0x11363int), (0x11380int, 0x11389int), (0x1138Bint, 0x1138Bint)]
}

pub open spec fn grapheme_base_chunk_74() -> Seq<SRange> {
    seq![(0x1138Eint, 0x1138Eint), (0x11390int, 0x113B5int), (0x113B7int, 0x113B7int), (0x113B9int, 0x113BAint), (0x113CAint, 0x113CAint), (0x113CCint, 0x113CDint), (0x113D1int, 0x113D1int), (0x113D3int, 0x113D5int)]
}

pub open spec fn grapheme_base_chunk_75() -> Seq<SRange> {
    seq![(0x113D7int, 0x113D8int), (0x11400int, 0x11437int), (0x11440int, 0x11441int), (0x11445int, 0x11445int), (0x11447int, 0x1145Bint), (0x1145Dint, 0x1145Dint), (0x1145Fint, 0x11461int), (0x11480int, 0x114AFint)]
}

pub open spec fn grapheme_base_chunk_76() -> Seq<SRange> {
    seq![(0x114B1int, 0x114B2int), (0x114B9int, 0x114B9int), (0x114BBint, 0x114BCint), (0x114BEint, 0x114BEint), (0x114C1int, 0x114C1int), (0x114C4int, 0x114C7int), (0x114D0int, 0x114D9int), (0x11580int, 0x115AEint)]
}

pub open spec fn grapheme_base_chunk_77() -> Seq<SRange> {
    seq![(0x115B0int, 0x115B1int), (0x115B8int, 0x115BBint), (0x115BEint, 0x115BEint), (0x115C1int, 0x115DBint), (0x11600int, 0x11632int), (0x1163Bint, 0x1163Cint), (0x1163Eint, 0x1163Eint), (0x11641int, 0x11644int)]
}

pub open spec fn grapheme_base_chunk_78() -> Seq<SRange> {
    seq![(0x11650int, 0x11659int), (0x11660int, 0x1166Cint), (0x11680int, 0x116AAint), (0x116ACint, 0x116ACint), (0x116AEint, 0x116AFint), (0x116B8int, 0x116B9int), (0x116C0int, 0x116C9int), (0x116D0int, 0x116E3int)]
}

pub open spec fn grapheme_base_chunk_79() -> Seq<SRange> {
    seq![(0x11700int, 0x1171Aint), (0x1171Eint, 0x1171Eint), (0x11720int, 0x11721int), (0x11726int, 0x11726int), (0x11730int, 0x11746int), (0x11800int, 0x1182Eint), (0x11838int, 0x11838int), (0x1183Bint, 0x1183Bint)]
}

pub open spec fn grapheme_base_chunk_80() -> Seq<SRange> {
    seq![(0x118A0int, 0x118F2int), (0x118FFint, 0x11906int), (0x11909int, 0x11909int), (0x1190Cint, 0x11913int), (0x11915int, 0x11916int), (0x11918int, 0x1192Fint), (0x11931int, 0x11935int), (0x11937int, 0x11938int)]
}

pub open spec fn grapheme_base_chunk_81() -> Seq<SRange> {
    seq![(0x1193Fint, 0x11942int), (0x11944int, 0x11946int), (0x11950int, 0x11959int), (0x119A0int, 0x119A7int), (0x119AAint, 0x119D3int), (0x119DCint, 0x119DFint), (0x119E1int, 0x119E4int), (0x11A00int, 0x11A00int)]
}

pub open spec fn grapheme_base_chunk_82() -> Seq<SRange> {
    seq![(0x11A0Bint, 0x11A32int), (0x11A39int, 0x11A3Aint), (0x11A3Fint, 0x11A46int), (0x11A50int, 0x11A50int), (0x11A57int, 0x11A58int), (0x11A5Cint, 0x11A89int), (0x11A97int, 0x11A97int), (0x11A9Aint, 0x11AA2int)]
}

pub open spec fn grapheme_base_chunk_83() -> Seq<SRange> {
    seq![(0x11AB0int, 0x11AF8int), (0x11B00int, 0x11B09int), (0x11BC0int, 0x11BE1int), (0x11BF0int, 0x11BF9int), (0x11C00int, 0x11C08int), (0x11C0Aint, 0x11C2Fint), (0x11C3Eint, 0x11C3Eint), (0x11C40int, 0x11C45int)]
}

pub open spec fn grapheme_base_chunk_84() -> Seq<SRange> {
    seq![(0x11C50int, 0x11C6Cint), (0x11C70int, 0x11C8Fint), (0x11CA9int, 0x11CA9int), (0x11CB1int, 0x11CB1int), (0x11CB4int, 0x11CB4int), (0x11D00int, 0x11D06int), (0x11D08int, 0x11D09int), (0x11D0Bint, 0x11D30int)]
}

pub open spec fn grapheme_base_chunk_85() -> Seq<SRange> {
    seq![(0x11D46int, 0x11D46int), (0x11D50int, 0x11D59int), (0x11D60int, 0x11D65int), (0x11D67int, 0x11D68int), (0x11D6Aint, 0x11D8Eint), (0x11D93int, 0x11D94int), (0x11D96int, 0x11D96int), (0x11D98int, 0x11D98int)]
}

pub open spec fn grapheme_base_chunk_86() -> Seq<SRange> {
    seq![(0x11DA0int, 0x11DA9int), (0x11EE0int, 0x11EF2int), (0x11EF5int, 0x11EF8int), (0x11F02int, 0x11F10int), (0x11F12int, 0x11F35int), (0x11F3Eint, 0x11F3Fint), (0x11F43int, 0x11F59int), (0x11FB0int, 0x11FB0int)]
}

pub open spec fn grapheme_base_chunk_87() -> Seq<SRange> {
    seq![(0x11FC0int, 0x11FF1int), (0x11FFFint, 0x12399int), (0x12400int, 0x1246Eint), (0x12470int, 0x12474int), (0x12480int, 0x12543int), (0x12F90int, 0x12FF2int), (0x13000int, 0x1342Fint), (0x13441int, 0x13446int)]
}

pub open spec fn grapheme_base_chunk_88() -> Seq<SRange> {
    seq![(0x13460int, 0x143FAint), (0x14400int, 0x14646int), (0x16100int, 0x1611Dint), (0x1612Aint, 0x1612Cint), (0x16130int, 0x16139int), (0x16800int, 0x16A38int), (0x16A40int, 0x16A5Eint), (0x16A60int, 0x16A69int)]
}

pub open spec fn grapheme_base_chunk_89() -> Seq<SRange> {
    seq![(0x16A6Eint, 0x16ABEint), (0x16AC0int, 0x16AC9int), (0x16AD0int, 0x16AEDint), (0x16AF5int, 0x16AF5int), (0x16B00int, 0x16B2Fint), (0x16B37int, 0x16B45int), (0x16B50int, 0x16B59int), (0x16B5Bint, 0x16B61int)]
}

pub open spec fn grapheme_base_chunk_90() -> Seq<SRange> {
    seq![(0x16B63int, 0x16B77int), (0x16B7Dint, 0x16B8Fint), (0x16D40int, 0x16D79int), (0x16E40int, 0x16E9Aint), (0x16F00int, 0x16F4Aint), (0x16F50int, 0x16F87int), (0x16F93int, 0x16F9Fint), (0x16FE0int, 0x16FE3int)]
}

pub open spec fn grapheme_base_chunk_91() -> Seq<SRange> {
    seq![(0x17000int, 0x187F7int), (0x18800int, 0x18CD5int), (0x18CFFint, 0x18D08int), (0x1AFF0int, 0x1AFF3int), (0x1AFF5int, 0x1AFFBint), (0x1AFFDint, 0x1AFFEint), (0x1B000int, 0x1B122int), (0x1B132int, 0x1B132int)]
}

pub open spec fn grapheme_base_chunk_92() -> Seq<SRange> {
    seq![(0x1B150int, 0x1B152int), (0x1B155int, 0x1B155int), (0x1B164int, 0x1B167int), (0x1B170int, 0x1B2FBint), (0x1BC00int, 0x1BC6Aint), (0x1BC70int, 0x1BC7Cint), (0x1BC80int, 0x1BC88int), (0x1BC90int, 0x1BC99int)]
}

pub open spec fn grapheme_base_chunk_93() -> Seq<SRange> {
    seq![(0x1BC9Cint, 0x1BC9Cint), (0x1BC9Fint, 0x1BC9Fint), (0x1CC00int, 0x1CCF9int), (0x1CD00int, 0x1CEB3int), (0x1CF50int, 0x1CFC3int), (0x1D000int, 0x1D0F5int), (0x1D100int, 0x1D126int), (0x1D129int, 0x1D164int)]
}

pub open spec fn grapheme_base_chunk_94() -> Seq<SRange> {
    seq![(0x1D16Aint, 0x1D16Cint), (0x1D183int, 0x1D184int), (0x1D18Cint, 0x1D1A9int), (0x1D1AEint, 0x1D1EAint), (0x1D200int, 0x1D241int), (0x1D245int, 0x1D245int), (0x1D2C0int, 0x1D2D3int), (0x1D2E0int, 0x1D2F3int)]
}

pub open spec fn grapheme_base_chunk_95() -> Seq<SRange> {
    seq![(0x1D300int, 0x1D356int), (0x1D360int, 0x1D378int), (0x1D400int, 0x1D454int), (0x1D456int, 0x1D49Cint), (0x1D49Eint, 0x1D49Fint), (0x1D4A2int, 0x1D4A2int), (0x1D4A5int, 0x1D4A6int), (0x1D4A9int, 0x1D4ACint)]
}

pub open spec fn grapheme_base_chunk_96() -> Seq<SRange> {
    seq![(0x1D4AEint, 0x1D4B9int), (0x1D4BBint, 0x1D4BBint), (0x1D4BDint, 0x1D4C3int), (0x1D4C5int, 0x1D505int), (0x1D507int, 0x1D50Aint), (0x1D50Dint, 0x1D514int), (0x1D516int, 0x1D51Cint), (0x1D51Eint, 0x1D539int)]
}

pub open spec fn grapheme_base_chunk_97() -> Seq<SRange> {
    seq![(0x1D53Bint, 0x1D53Eint), (0x1D540int, 0x1D544int), (0x1D546int, 0x1D546int), (0x1D54Aint, 0x1D550int), (0x1D552int, 0x1D6A5int), (0x1D6A8int, 0x1D7CBint), (0x1D7CEint, 0x1D9FFint), (0x1DA37int, 0x1DA3Aint)]
}

pub open spec fn grapheme_base_chunk_98() -> Seq<SRange> {
    seq![(0x1DA6Dint, 0x1DA74int), (0x1DA76int, 0x1DA83int), (0x1DA85int, 0x1DA8Bint), (0x1DF00int, 0x1DF1Eint), (0x1DF25int, 0x1DF2Aint), (0x1E030int, 0x1E06Dint), (0x1E100int, 0x1E12Cint), (0x1E137int, 0x1E13Dint)]
}

pub open spec fn grapheme_base_chunk_99() -> Seq<SRange> {
    seq![(0x1E140int, 0x1E149int), (0x1E14Eint, 0x1E14Fint), (0x1E290int, 0x1E2ADint), (0x1E2C0int, 0x1E2EBint), (0x1E2F0int, 0x1E2F9int), (0x1E2FFint, 0x1E2FFint), (0x1E4D0int, 0x1E4EBint), (0x1E4F0int, 0x1E4F9int)]
}

pub open spec fn grapheme_base_chunk_100() -> Seq<SRange> {
    seq![(0x1E5D0int, 0x1E5EDint), (0x1E5F0int, 0x1E5FAint), (0x1E5FFint, 0x1E5FFint), (0x1E7E0int, 0x1E7E6int), (0x1E7E8int, 0x1E7EBint), (0x1E7EDint, 0x1E7EEint), (0x1E7F0int, 0x1E7FEint), (0x1E800int, 0x1E8C4int)]
}

pub open spec fn grapheme_base_chunk_101() -> Seq<SRange> {
    seq![(0x1E8C7int, 0x1E8CFint), (0x1E900int, 0x1E943int), (0x1E94Bint, 0x1E94Bint), (0x1E950int, 0x1E959int), (0x1E95Eint, 0x1E95Fint), (0x1EC71int, 0x1ECB4int), (0x1ED01int, 0x1ED3Dint), (0x1EE00int, 0x1EE03int)]
}

pub open spec fn grapheme_base_chunk_102() -> Seq<SRange> {
    seq![(0x1EE05int, 0x1EE1Fint), (0x1EE21int, 0x1EE22int), (0x1EE24int, 0x1EE24int), (0x1EE27int, 0x1EE27int), (0x1EE29int, 0x1EE32int), (0x1EE34int, 0x1EE37int), (0x1EE39int, 0x1EE39int), (0x1EE3Bint, 0x1EE3Bint)]
}

pub open spec fn grapheme_base_chunk_103() -> Seq<SRange> {
    seq![(0x1EE42int, 0x1EE42int), (0x1EE47int, 0x1EE47int), (0x1EE49int, 0x1EE49int), (0x1EE4Bint, 0x1EE4Bint), (0x1EE4Dint, 0x1EE4Fint), (0x1EE51int, 0x1EE52int), (0x1EE54int, 0x1EE54int), (0x1EE57int, 0x1EE57int)]
}

pub open spec fn grapheme_base_chunk_104() -> Seq<SRange> {
    seq![(0x1EE59int, 0x1EE59int), (0x1EE5Bint, 0x1EE5Bint), (0x1EE5Dint, 0x1EE5Dint), (0x1EE5Fint, 0x1EE5Fint), (0x1EE61int, 0x1EE62int), (0x1EE64int, 0x1EE64int), (0x1EE67int, 0x1EE6Aint), (0x1EE6Cint, 0x1EE72int)]
}

pub open spec fn grapheme_base_chunk_105() -> Seq<SRange> {
    seq![(0x1EE74int, 0x1EE77int), (0x1EE79int, 0x1EE7Cint), (0x1EE7Eint, 0x1EE7Eint), (0x1EE80int, 0x1EE89int), (0x1EE8Bint, 0x1EE9Bint), (0x1EEA1int, 0x1EEA3int), (0x1EEA5int, 0x1EEA9int), (0x1EEABint, 0x1EEBBint)]
}

pub open spec fn grapheme_base_chunk_106() -> Seq<SRange> {
    seq![(0x1EEF0int, 0x1EEF1int), (0x1F000int, 0x1F02Bint), (0x1F030int, 0x1F093int), (0x1F0A0int, 0x1F0AEint), (0x1F0B1int, 0x1F0BFint), (0x1F0C1int, 0x1F0CFint), (0x1F0D1int, 0x1F0F5int), (0x1F100int, 0x1F1ADint)]
}

pub open spec fn grapheme_base_chunk_107() -> Seq<SRange> {
    seq![(0x1F1E6int, 0x1F202int), (0x1F210int, 0x1F23Bint), (0x1F240int, 0x1F248int), (0x1F250int, 0x1F251int), (0x1F260int, 0x1F265int), (0x1F300int, 0x1F6D7int), (0x1F6DCint, 0x1F6ECint), (0x1F6F0int, 0x1F6FCint)]
}

pub open spec fn grapheme_base_chunk_108() -> Seq<SRange> {
    seq![(0x1F700int, 0x1F776int), (0x1F77Bint, 0x1F7D9int), (0x1F7E0int, 0x1F7EBint), (0x1F7F0int, 0x1F7F0int), (0x1F800int, 0x1F80Bint), (0x1F810int, 0x1F847int), (0x1F850int, 0x1F859int), (0x1F860int, 0x1F887int)]
}

pub open spec fn grapheme_base_chunk_109() -> Seq<SRange> {
    seq![(0x1F890int, 0x1F8ADint), (0x1F8B0int, 0x1F8BBint), (0x1F8C0int, 0x1F8C1int), (0x1F900int, 0x1FA53int), (0x1FA60int, 0x1FA6Dint), (0x1FA70int, 0x1FA7Cint), (0x1FA80int, 0x1FA89int), (0x1FA8Fint, 0x1FAC6int)]
}

pub open spec fn grapheme_base_chunk_110() -> Seq<SRange> {
    seq![(0x1FACEint, 0x1FADCint), (0x1FADFint, 0x1FAE9int), (0x1FAF0int, 0x1FAF8int), (0x1FB00int, 0x1FB92int), (0x1FB94int, 0x1FBF9int), (0x20000int, 0x2A6DFint), (0x2A700int, 0x2B739int), (0x2B740int, 0x2B81Dint)]
}

pub open spec fn grapheme_base_chunk_111() -> Seq<SRange> {
    seq![(0x2B820int, 0x2CEA1int), (0x2CEB0int, 0x2EBE0int), (0x2EBF0int, 0x2EE5Dint), (0x2F800int, 0x2FA1Dint), (0x30000int, 0x3134Aint), (0x31350int, 0x323AFint)]
}

pub open spec fn grapheme_base_block_0() -> Seq<SRange> {
    grapheme_base_chunk_0() + grapheme_base_chunk_1() + grapheme_base_chunk_2() + grapheme_base_chunk_3() + grapheme_base_chunk_4() + grapheme_base_chunk_5() + grapheme_base_chunk_6() + grapheme_base_chunk_7() + grapheme_base_chunk_8() + grapheme_base_chunk_9()
}

pub open spec fn grapheme_base_block_1() -> Seq<SRange> {
    grapheme_base_chunk_10() + grapheme_base_chunk_11() + grapheme_base_chunk_12() + grapheme_base_chunk_13() + grapheme_base_chunk_14() + grapheme_base_chunk_15() + grapheme_base_chunk_16() + grapheme_base_chunk_17() + grapheme_base_chunk_18() + grapheme_base_chunk_19()
}

pub open spec fn grapheme_base_block_2() -> Seq<SRange> {
    grapheme_base_chunk_20() + grapheme_base_chunk_21() + grapheme_base_chunk_22() + grapheme_base_chunk_23() + grapheme_base_chunk_24() + grapheme_base_chunk_25() + grapheme_base_chunk_26() + grapheme_base_chunk_27() + grapheme_base_chunk_28() + grapheme_base_chunk_29()
}

pub open spec fn grapheme_base_block_3() -> Seq<SRange> {
    grapheme_base_chunk_30() + grapheme_base_chunk_31() + grapheme_base_chunk_32() + grapheme_base_chunk_33() + grapheme_base_chunk_34() + grapheme_base_chunk_35() + grapheme_base_chunk_36() + grapheme_base_chunk_37() + grapheme_base_chunk_38() + grapheme_base_chunk_39()
}

pub open spec fn grapheme_base_block_4() -> Seq<SRange> {
    grapheme_base_chunk_40() + grapheme_base_chunk_41() + grapheme_base_chunk_42() + grapheme_base_chunk_43() + grapheme_base_chunk_44() + grapheme_base_chunk_45() + grapheme_base_chunk_46() + grapheme_base_chunk_47() + grapheme_base_chunk_48() + grapheme_base_chunk_49()
}

pub open spec fn grapheme_base_block_5() -> Seq<SRange> {
    grapheme_base_chunk_50() + grapheme_base_chunk_51() + grapheme_base_chunk_52() + grapheme_base_chunk_53() + grapheme_base_chunk_54() + grapheme_base_chunk_55() + grapheme_base_chunk_56() + grapheme_base_chunk_57() + grapheme_base_chunk_58() + grapheme_base_chunk_59()
}

pub open spec fn grapheme_base_block_6() -> Seq<SRange> {
    grapheme_base_chunk_60() + grapheme_base_chunk_61() + grapheme_base_chunk_62() + grapheme_base_chunk_63() + grapheme_base_chunk_64() + grapheme_base_chunk_65() + grapheme_base_chunk_66() + grapheme_base_chunk_67() + grapheme_base_chunk_68() + grapheme_base_chunk_69()
}

pub open spec fn grapheme_base_block_7() -> Seq<SRange> {
    grapheme_base_chunk_70() + grapheme_base_chunk_71() + grapheme_base_chunk_72() + grapheme_base_chunk_73() + grapheme_base_chunk_74() + grapheme_base_chunk_75() + grapheme_base_chunk_76() + grapheme_base_chunk_77() + grapheme_base_chunk_78() + grapheme_base_chunk_79()
}

pub open spec fn grapheme_base_block_8() -> Seq<SRange> {
    grapheme_base_chunk_80() + grapheme_base_chunk_81() + grapheme_base_chunk_82() + grapheme_base_chunk_83() + grapheme_base_chunk_84() + grapheme_base_chunk_85() + grapheme_base_chunk_86() + grapheme_base_chunk_87() + grapheme_base_chunk_88() + grapheme_base_chunk_89()
}

pub open spec fn grapheme_base_block_9() -> Seq<SRange> {
    grapheme_base_chunk_90() + grapheme_base_chunk_91() + grapheme_base_chunk_92() + grapheme_base_chunk_93() + grapheme_base_chunk_94() + grapheme_base_chunk_95() + grapheme_base_chunk_96() + grapheme_base_chunk_97() + grapheme_base_chunk_98() + grapheme_base_chunk_99()
}

pub open spec fn grapheme_base_block_10() -> Seq<SRange> {
    grapheme_base_chunk_100() + grapheme_base_chunk_101() + grapheme_base_chunk_102() + grapheme_base_chunk_103() + grapheme_base_chunk_104() + grapheme_base_chunk_105() + grapheme_base_chunk_106() + grapheme_base_chunk_107() + grapheme_base_chunk_108() + grapheme_base_chunk_109()
}

pub open spec fn grapheme_base_block_11() -> Seq<SRange> {
    grapheme_base_chunk_110() + grapheme_base_chunk_111()
}

/// The ranges of the property Grapheme_Base.
pub open spec fn grapheme_base_ranges() -> Seq<SRange> {
    grapheme_base_block_0() + grapheme_base_block_1() + grapheme_base_block_2() + grapheme_base_block_3() + grapheme_base_block_4() + grapheme_base_block_5() + grapheme_base_block_6() + grapheme_base_block_7() + grapheme_base_block_8() + grapheme_base_block_9() + grapheme_base_block_10() + grapheme_base_block_11()
}

proof fn lemma_grapheme_base_block_0()
    ensures
        canonical(grapheme_base_block_0()),
        grapheme_base_block_0().len() > 0,
        grapheme_base_block_0()[0] == grapheme_base_chunk_0()[0],
        grapheme_base_block_0().last() == grapheme_base_chunk_9().last(),
{
    reveal_with_fuel(canonical, 9);
    assert(canonical(grapheme_base_chunk_0()));
    assert(canonical(grapheme_base_chunk_1()));
    assert(canonical(grapheme_base_chunk_2()));
    assert(canonical(grapheme_base_chunk_3()));
    assert(canonical(grapheme_base_chunk_4()));
    assert(canonical(grapheme_base_chunk_5()));
    assert(canonical(grapheme_base_chunk_6()));
    assert(canonical(grapheme_base_chunk_7()));
    assert(canonical(grapheme_base_chunk_8()));
    assert(canonical(grapheme_base_chunk_9()));
    lemma_canonical_append(grapheme_base_chunk_0(), grapheme_base_chunk_1());
    lemma_canonical_append(grapheme_base_chunk_0() + grapheme_base_chunk_1(), grapheme_base_chunk_2());
    lemma_canonical_append(grapheme_base_chunk_0() + grapheme_base_chunk_1() + grapheme_base_chunk_2(), grapheme_base_chunk_3());
    lemma_canonical_append(grapheme_base_chunk_0() + grapheme_base_chunk_1() + grapheme_base_chunk_2() + grapheme_base_chunk_3(), grapheme_base_chunk_4());
    lemma_canonical_append(grapheme_base_chunk_0() + grapheme_base_chunk_1() + grapheme_base_chunk_2() + grapheme_base_chunk_3() + grapheme_base_chunk_4(), grapheme_base_chunk_5());
    lemma_canonical_append(grapheme_base_chunk_0() + grapheme_base_chunk_1() + grapheme_base_chunk_2() + grapheme_base_chunk_3() + grapheme_base_chunk_4() + grapheme_base_chunk_5(), grapheme_base_chunk_6());
    lemma_canonical_append(grapheme_base_chunk_0() + grapheme_base_chunk_1() + grapheme_base_chunk_2() + grapheme_base_chunk_3() + grapheme_base_chunk_4() + grapheme_base_chunk_5() + grapheme_base_chunk_6(), grapheme_base_chunk_7());
    lemma_canonical_append(grapheme_base_chunk_0() + grapheme_base_chunk_1() + grapheme_base_chunk_2() + grapheme_base_chunk_3() + grapheme_base_chunk_4() + grapheme_base_chunk_5() + grapheme_base_chunk_6() + grapheme_base_chunk_7(), grapheme_base_chunk_8());
    lemma_canonical_append(grapheme_base_chunk_0() + grapheme_base_chunk_1() + grapheme_base_chunk_2() + grapheme_base_chunk_3() + grapheme_base_chunk_4() + grapheme_base_chunk_5() + grapheme_base_chunk_6() + grapheme_base_chunk_7() + grapheme_base_chunk_8(), grapheme_base_chunk_9());
}

proof fn lemma_grapheme_base_block_1()
    ensures
        canonical(grapheme_base_block_1()),
        grapheme_base_block_1().len() > 0,
        grapheme_base_block_1()[0] == grapheme_base_chunk_10()[0],
        grapheme_base_block_1().last() == grapheme_base_chunk_19().last(),
{
    reveal_with_fuel(canonical, 9);
    assert(canonical(grapheme_base_chunk_10()));
    assert(canonical(grapheme_base_chunk_11()));
    assert(canonical(grapheme_base_chunk_12()));
    assert(canonical(grapheme_base_chunk_13()));
    assert(canonical(grapheme_base_chunk_14()));
    assert(canonical(grapheme_base_chunk_15()));
    assert(canonical(grapheme_base_chunk_16()));
    assert(canonical(grapheme_base_chunk_17()));
    assert(canonical(grapheme_base_chunk_18()));
    assert(canonical(grapheme_base_chunk_19()));
    lemma_canonical_append(grapheme_base_chunk_10(), grapheme_base_chunk_11());
    lemma_canonical_append(grapheme_base_chunk_10() + grapheme_base_chunk_11(), grapheme_base_chunk_12());
    lemma_canonical_append(grapheme_base_chunk_10() + grapheme_base_chunk_11() + grapheme_base_chunk_12(), grapheme_base_chunk_13());
    lemma_canonical_append(grapheme_base_chunk_10() + grapheme_base_chunk_11() + grapheme_base_chunk_12() + grapheme_base_chunk_13(), grapheme_base_chunk_14());
    lemma_canonical_append(grapheme_base_chunk_10() + grapheme_base_chunk_11() + grapheme_base_chunk_12() + grapheme_base_chunk_13() + grapheme_base_chunk_14(), grapheme_base_chunk_15());
    lemma_canonical_append(grapheme_base_chunk_10() + grapheme_base_chunk_11() + grapheme_base_chunk_12() + grapheme_base_chunk_13() + grapheme_base_chunk_14() + grapheme_base_chunk_15(), grapheme_base_chunk_16());
    lemma_canonical_append(grapheme_base_chunk_10() + grapheme_base_chunk_11() + grapheme_base_chunk_12() + grapheme_base_chunk_13() + grapheme_base_chunk_14() + grapheme_base_chunk_15() + grapheme_base_chunk_16(), grapheme_base_chunk_17());
    lemma_canonical_append(grapheme_base_chunk_10() + grapheme_base_chunk_11() + grapheme_base_chunk_12() + grapheme_base_chunk_13() + grapheme_base_chunk_14() + grapheme_base_chunk_15() + grapheme_base_chunk_16() + grapheme_base_chunk_17(), grapheme_base_chunk_18());
    lemma_canonical_append(grapheme_base_chunk_10() + grapheme_base_chunk_11() + grapheme_base_chunk_12() + grapheme_base_chunk_13() + grapheme_base_chunk_14() + grapheme_base_chunk_15() + grapheme_base_chunk_16() + grapheme_base_chunk_17() + grapheme_base_chunk_18(), grapheme_base_chunk_19());
}

proof fn lemma_grapheme_base_block_2()
    ensures
        canonical(grapheme_base_block_2()),
        grapheme_base_block_2().len() > 0,
        grapheme_base_block_2()[0] == grapheme_base_chunk_20()[0],
        grapheme_base_block_2().last() == grapheme_base_chunk_29().last(),
{
    reveal_with_fuel(canonical, 9);
    assert(canonical(grapheme_base_chunk_20()));
    assert(canonical(grapheme_base_chunk_21()));
    assert(canonical(grapheme_base_chunk_22()));
    assert(canonical(grapheme_base_chunk_23()));
    assert(canonical(grapheme_base_chunk_24()));
    assert(canonical(grapheme_base_chunk_25()));
    assert(canonical(grapheme_base_chunk_26()));
    assert(canonical(grapheme_base_chunk_27()));
    assert(canonical(grapheme_base_chunk_28()));
    assert(canonical(grapheme_base_chunk_29()));
    lemma_canonical_append(grapheme_base_chunk_20(), grapheme_base_chunk_21());
    lemma_canonical_append(grapheme_base_chunk_20() + grapheme_base_chunk_21(), grapheme_base_chunk_22());
    lemma_canonical_append(grapheme_base_chunk_20() + grapheme_base_chunk_21() + grapheme_base_chunk_22(), grapheme_base_chunk_23());
    lemma_canonical_append(grapheme_base_chunk_20() + grapheme_base_chunk_21() + grapheme_base_chunk_22() + grapheme_base_chunk_23(), grapheme_base_chunk_24());
    lemma_canonical_append(grapheme_base_chunk_20() + grapheme_base_chunk_21() + grapheme_base_chunk_22() + grapheme_base_chunk_23() + grapheme_base_chunk_24(), grapheme_base_chunk_25());
    lemma_canonical_append(grapheme_base_chunk_20() + grapheme_base_chunk_21() + grapheme_base_chunk_22() + grapheme_base_chunk_23() + grapheme_base_chunk_24() + grapheme_base_chunk_25(), grapheme_base_chunk_26());
    lemma_canonical_append(grapheme_base_chunk_20() + grapheme_base_chunk_21() + grapheme_base_chunk_22() + grapheme_base_chunk_23() + grapheme_base_chunk_24() + grapheme_base_chunk_25() + grapheme_base_chunk_26(), grapheme_base_chunk_27());
    lemma_canonical_append(grapheme_base_chunk_20() + grapheme_base_chunk_21() + grapheme_base_chunk_22() + grapheme_base_chunk_23() + grapheme_base_chunk_24() + grapheme_base_chunk_25() + grapheme_base_chunk_26() + grapheme_base_chunk_27(), grapheme_base_chunk_28());
    lemma_canonical_append(grapheme_base_chunk_20() + grapheme_base_chunk_21() + grapheme_base_chunk_22() + grapheme_base_chunk_23() + grapheme_base_chunk_24() + grapheme_base_chunk_25() + grapheme_base_chunk_26() + grapheme_base_chunk_27() + grapheme_base_chunk_28(), grapheme_base_chunk_29());
}

proof fn lemma_grapheme_base_block_3()
    ensures
        canonical(grapheme_base_block_3()),
        grapheme_base_block_3().len() > 0,
        grapheme_base_block_3()[0] == grapheme_base_chunk_30()[0],
        grapheme_base_block_3().last() == grapheme_base_chunk_39().last(),
{
    reveal_with_fuel(canonical, 9);
    assert(canonical(grapheme_base_chunk_30()));
    assert(canonical(grapheme_base_chunk_31()));
    assert(canonical(grapheme_base_chunk_32()));
    assert(canonical(grapheme_base_chunk_33()));
    assert(canonical(grapheme_base_chunk_34()));
    assert(canonical(grapheme_base_chunk_35()));
    assert(canonical(grapheme_base_chunk_36()));
    assert(canonical(grapheme_base_chunk_37()));
    assert(canonical(grapheme_base_chunk_38()));
    assert(canonical(grapheme_base_chunk_39()));
    lemma_canonical_append(grapheme_base_chunk_30(), grapheme_base_chunk_31());
    lemma_canonical_append(grapheme_base_chunk_30() + grapheme_base_chunk_31(), grapheme_base_chunk_32());
    lemma_canonical_append(grapheme_base_chunk_30() + grapheme_base_chunk_31() + grapheme_base_chunk_32(), grapheme_base_chunk_33());
    lemma_canonical_append(grapheme_base_chunk_30() + grapheme_base_chunk_31() + grapheme_base_chunk_32() + grapheme_base_chunk_33(), grapheme_base_chunk_34());
    lemma_canonical_append(grapheme_base_chunk_30() + grapheme_base_chunk_31() + grapheme_base_chunk_32() + grapheme_base_chunk_33() + grapheme_base_chunk_34(), grapheme_base_chunk_35());
    lemma_canonical_append(grapheme_base_chunk_30() + grapheme_base_chunk_31() + grapheme_base_chunk_32() + grapheme_base_chunk_33() + grapheme_base_chunk_34() + grapheme_base_chunk_35(), grapheme_base_chunk_36());
    lemma_canonical_append(grapheme_base_chunk_30() + grapheme_base_chunk_31() + grapheme_base_chunk_32() + grapheme_base_chunk_33() + grapheme_base_chunk_34() + grapheme_base_chunk_35() + grapheme_base_chunk_36(), grapheme_base_chunk_37());
    lemma_canonical_append(grapheme_base_chunk_30() + grapheme_base_chunk_31() + grapheme_base_chunk_32() + grapheme_base_chunk_33() + grapheme_base_chunk_34() + grapheme_base_chunk_35() + grapheme_base_chunk_36() + grapheme_base_chunk_37(), grapheme_base_chunk_38());
    lemma_canonical_append(grapheme_base_chunk_30() + grapheme_base_chunk_31() + grapheme_base_chunk_32() + grapheme_base_chunk_33() + grapheme_base_chunk_34() + grapheme_base_chunk_35() + grapheme_base_chunk_36() + grapheme_base_chunk_37() + grapheme_base_chunk_38(), grapheme_base_chunk_39());
}

proof fn lemma_grapheme_base_block_4()
    ensures
        canonical(grapheme_base_block_4()),
        grapheme_base_block_4().len() > 0,
        grapheme_base_block_4()[0] == grapheme_base_chunk_40()[0],
        grapheme_base_block_4().last() == grapheme_base_chunk_49().last(),
{
    reveal_with_fuel(canonical, 9);
    assert(canonical(grapheme_base_chunk_40()));
    assert(canonical(grapheme_base_chunk_41()));
    assert(canonical(grapheme_base_chunk_42()));
    assert(canonical(grapheme_base_chunk_43()));
    assert(canonical(grapheme_base_chunk_44()));
    assert(canonical(grapheme_base_chunk_45()));
    assert(canonical(grapheme_base_chunk_46()));
    assert(canonical(grapheme_base_chunk_47()));
    assert(canonical(grapheme_base_chunk_48()));
    assert(canonical(grapheme_base_chunk_49()));
    lemma_canonical_append(grapheme_base_chunk_40(), grapheme_base_chunk_41());
    lemma_canonical_append(grapheme_base_chunk_40() + grapheme_base_chunk_41(), grapheme_base_chunk_42());
    lemma_canonical_append(grapheme_base_chunk_40() + grapheme_base_chunk_41() + grapheme_base_chunk_42(), grapheme_base_chunk_43());
    lemma_canonical_append(grapheme_base_chunk_40() + grapheme_base_chunk_41() + grapheme_base_chunk_42() + grapheme_base_chunk_43(), grapheme_base_chunk_44());
    lemma_canonical_append(grapheme_base_chunk_40() + grapheme_base_chunk_41() + grapheme_base_chunk_42() + grapheme_base_chunk_43() + grapheme_base_chunk_44(), grapheme_base_chunk_45());
    lemma_canonical_append(grapheme_base_chunk_40() + grapheme_base_chunk_41() + grapheme_base_chunk_42() + grapheme_base_chunk_43() + grapheme_base_chunk_44() + grapheme_base_chunk_45(), grapheme_base_chunk_46());
    lemma_canonical_append(grapheme_base_chunk_40() + grapheme_base_chunk_41() + grapheme_base_chunk_42() + grapheme_base_chunk_43() + grapheme_base_chunk_44() + grapheme_base_chunk_45() + grapheme_base_chunk_46(), grapheme_base_chunk_47());
    lemma_canonical_append(grapheme_base_chunk_40() + grapheme_base_chunk_41() + grapheme_base_chunk_42() + grapheme_base_chunk_43() + grapheme_base_chunk_44() + grapheme_base_chunk_45() + grapheme_base_chunk_46() + grapheme_base_chunk_47(), grapheme_base_chunk_48());
    lemma_canonical_append(grapheme_base_chunk_40() + grapheme_base_chunk_41() + grapheme_base_chunk_42() + grapheme_base_chunk_43() + grapheme_base_chunk_44() + grapheme_base_chunk_45() + grapheme_base_chunk_46() + grapheme_base_chunk_47() + grapheme_base_chunk_48(), grapheme_base_chunk_49());
}

proof fn lemma_grapheme_base_block_5()
    ensures
        canonical(grapheme_base_block_5()),
        grapheme_base_block_5().len() > 0,
        grapheme_base_block_5()[0] == grapheme_base_chunk_50()[0],
        grapheme_base_block_5().last() == grapheme_base_chunk_59().last(),
{
    reveal_with_fuel(canonical, 9);
    assert(canonical(grapheme_base_chunk_50()));
    assert(canonical(grapheme_base_chunk_51()));
    assert(canonical(grapheme_base_chunk_52()));
    assert(canonical(grapheme_base_chunk_53()));
    assert(canonical(grapheme_base_chunk_54()));
    assert(canonical(grapheme_base_chunk_55()));
    assert(canonical(grapheme_base_chunk_56()));
    assert(canonical(grapheme_base_chunk_57()));
    assert(canonical(grapheme_base_chunk_58()));
    assert(canonical(grapheme_base_chunk_59()));
    lemma_canonical_append(grapheme_base_chunk_50(), grapheme_base_chunk_51());
    lemma_canonical_append(grapheme_base_chunk_50() + grapheme_base_chunk_51(), grapheme_base_chunk_52());
    lemma_canonical_append(grapheme_base_chunk_50() + grapheme_base_chunk_51() + grapheme_base_chunk_52(), grapheme_base_chunk_53());
    lemma_canonical_append(grapheme_base_chunk_50() + grapheme_base_chunk_51() + grapheme_base_chunk_52() + grapheme_base_chunk_53(), grapheme_base_chunk_54());
    lemma_canonical_append(grapheme_base_chunk_50() + grapheme_base_chunk_51() + grapheme_base_chunk_52() + grapheme_base_chunk_53() + grapheme_base_chunk_54(), grapheme_base_chunk_55());
    lemma_canonical_append(grapheme_base_chunk_50() + grapheme_base_chunk_51() + grapheme_base_chunk_52() + grapheme_base_chunk_53() + grapheme_base_chunk_54() + grapheme_base_chunk_55(), grapheme_base_chunk_56());
    lemma_canonical_append(grapheme_base_chunk_50() + grapheme_base_chunk_51() + grapheme_base_chunk_52() + grapheme_base_chunk_53() + grapheme_base_chunk_54() + grapheme_base_chunk_55() + grapheme_base_chunk_56(), grapheme_base_chunk_57());
    lemma_canonical_append(grapheme_base_chunk_50() + grapheme_base_chunk_51() + grapheme_base_chunk_52() + grapheme_base_chunk_53() + grapheme_base_chunk_54() + grapheme_base_chunk_55() + grapheme_base_chunk_56() + grapheme_base_chunk_57(), grapheme_base_chunk_58());
    lemma_canonical_append(grapheme_base_chunk_50() + grapheme_base_chunk_51() + grapheme_base_chunk_52() + grapheme_base_chunk_53() + grapheme_base_chunk_54() + grapheme_base_chunk_55() + grapheme_base_chunk_56() + grapheme_base_chunk_57() + grapheme_base_chunk_58(), grapheme_base_chunk_59());
}

proof fn lemma_grapheme_base_block_6()
    ensures
        canonical(grapheme_base_block_6()),
        grapheme_base_block_6().len() > 0,
        grapheme_base_block_6()[0] == grapheme_base_chunk_60()[0],
        grapheme_base_block_6().last() == grapheme_base_chunk_69().last(),
{
    reveal_with_fuel(canonical, 9);
    assert(canonical(grapheme_base_chunk_60()));
    assert(canonical(grapheme_base_chunk_61()));
    assert(canonical(grapheme_base_chunk_62()));
    assert(canonical(grapheme_base_chunk_63()));
    assert(canonical(grapheme_base_chunk_64()));
    assert(canonical(grapheme_base_chunk_65()));
    assert(canonical(grapheme_base_chunk_66()));
    assert(canonical(grapheme_base_chunk_67()));
    assert(canonical(grapheme_base_chunk_68()));
    assert(canonical(grapheme_base_chunk_69()));
    lemma_canonical_append(grapheme_base_chunk_60(), grapheme_base_chunk_61());
    lemma_canonical_append(grapheme_base_chunk_60() + grapheme_base_chunk_61(), grapheme_base_chunk_62());
    lemma_canonical_append(grapheme_base_chunk_60() + grapheme_base_chunk_61() + grapheme_base_chunk_62(), grapheme_base_chunk_63());
    lemma_canonical_append(grapheme_base_chunk_60() + grapheme_base_chunk_61() + grapheme_base_chunk_62() + grapheme_base_chunk_63(), grapheme_base_chunk_64());
    lemma_canonical_append(grapheme_base_chunk_60() + grapheme_base_chunk_61() + grapheme_base_chunk_62() + grapheme_base_chunk_63() + grapheme_base_chunk_64(), grapheme_base_chunk_65());
    lemma_canonical_append(grapheme_base_chunk_60() + grapheme_base_chunk_61() + grapheme_base_chunk_62() + grapheme_base_chunk_63() + grapheme_base_chunk_64() + grapheme_base_chunk_65(), grapheme_base_chunk_66());
    lemma_canonical_append(grapheme_base_chunk_60() + grapheme_base_chunk_61() + grapheme_base_chunk_62() + grapheme_base_chunk_63() + grapheme_base_chunk_64() + grapheme_base_chunk_65() + grapheme_base_chunk_66(), grapheme_base_chunk_67());
    lemma_canonical_append(grapheme_base_chunk_60() + grapheme_base_chunk_61() + grapheme_base_chunk_62() + grapheme_base_chunk_63() + grapheme_base_chunk_64() + grapheme_base_chunk_65() + grapheme_base_chunk_66() + grapheme_base_chunk_67(), grapheme_base_chunk_68());
    lemma_canonical_append(grapheme_base_chunk_60() + grapheme_base_chunk_61() + grapheme_base_chunk_62() + grapheme_base_chunk_63() + grapheme_base_chunk_64() + grapheme_base_chunk_65() + grapheme_base_chunk_66() + grapheme_base_chunk_67() + grapheme_base_chunk_68(), grapheme_base_chunk_69());
}

proof fn lemma_grapheme_base_block_7()
    ensures
        canonical(grapheme_base_block_7()),
        grapheme_base_block_7().len() > 0,
        grapheme_base_block_7()[0] == grapheme_base_chunk_70()[0],
        grapheme_base_block_7().last() == grapheme_base_chunk_79().last(),
{
    reveal_with_fuel(canonical, 9);
    assert(canonical(grapheme_base_chunk_70()));
    assert(canonical(grapheme_base_chunk_71()));
    assert(canonical(grapheme_base_chunk_72()));
    assert(canonical(grapheme_base_chunk_73()));
    assert(canonical(grapheme_base_chunk_74()));
    assert(canonical(grapheme_base_chunk_75()));
    assert(canonical(grapheme_base_chunk_76()));
    assert(canonical(grapheme_base_chunk_77()));
    assert(canonical(grapheme_base_chunk_78()));
    assert(canonical(grapheme_base_chunk_79()));
    lemma_canonical_append(grapheme_base_chunk_70(), grapheme_base_chunk_71());
    lemma_canonical_append(grapheme_base_chunk_70() + grapheme_base_chunk_71(), grapheme_base_chunk_72());
    lemma_canonical_append(grapheme_base_chunk_70() + grapheme_base_chunk_71() + grapheme_base_chunk_72(), grapheme_base_chunk_73());
    lemma_canonical_append(grapheme_base_chunk_70() + grapheme_base_chunk_71() + grapheme_base_chunk_72() + grapheme_base_chunk_73(), grapheme_base_chunk_74());
    lemma_canonical_append(grapheme_base_chunk_70() + grapheme_base_chunk_71() + grapheme_base_chunk_72() + grapheme_base_chunk_73() + grapheme_base_chunk_74(), grapheme_base_chunk_75());
    lemma_canonical_append(grapheme_base_chunk_70() + grapheme_base_chunk_71() + grapheme_base_chunk_72() + grapheme_base_chunk_73() + grapheme_base_chunk_74() + grapheme_base_chunk_75(), grapheme_base_chunk_76());
    lemma_canonical_append(grapheme_base_chunk_70() + grapheme_base_chunk_71() + grapheme_base_chunk_72() + grapheme_base_chunk_73() + grapheme_base_chunk_74() + grapheme_base_chunk_75() + grapheme_base_chunk_76(), grapheme_base_chunk_77());
    lemma_canonical_append(grapheme_base_chunk_70() + grapheme_base_chunk_71() + grapheme_base_chunk_72() + grapheme_base_chunk_73() + grapheme_base_chunk_74() + grapheme_base_chunk_75() + grapheme_base_chunk_76() + grapheme_base_chunk_77(), grapheme_base_chunk_78());
    lemma_canonical_append(grapheme_base_chunk_70() + grapheme_base_chunk_71() + grapheme_base_chunk_72() + grapheme_base_chunk_73() + grapheme_base_chunk_74() + grapheme_base_chunk_75() + grapheme_base_chunk_76() + grapheme_base_chunk_77() + grapheme_base_chunk_78(), grapheme_base_chunk_79());
}

proof fn lemma_grapheme_base_block_8()
    ensures
        canonical(grapheme_base_block_8()),
        grapheme_base_block_8().len() > 0,
        grapheme_base_block_8()[0] == grapheme_base_chunk_80()[0],
        grapheme_base_block_8().last() == grapheme_base_chunk_89().last(),
{
    reveal_with_fuel(canonical, 9);
    assert(canonical(grapheme_base_chunk_80()));
    assert(canonical(grapheme_base_chunk_81()));
    assert(canonical(grapheme_base_chunk_82()));
    assert(canonical(grapheme_base_chunk_83()));
    assert(canonical(grapheme_base_chunk_84()));
    assert(canonical(grapheme_base_chunk_85()));
    assert(canonical(grapheme_base_chunk_86()));
    assert(canonical(grapheme_base_chunk_87()));
    assert(canonical(grapheme_base_chunk_88()));
    assert(canonical(grapheme_base_chunk_89()));
    lemma_canonical_append(grapheme_base_chunk_80(), grapheme_base_chunk_81());
    lemma_canonical_append(grapheme_base_chunk_80() + grapheme_base_chunk_81(), grapheme_base_chunk_82());
    lemma_canonical_append(grapheme_base_chunk_80() + grapheme_base_chunk_81() + grapheme_base_chunk_82(), grapheme_base_chunk_83());
    lemma_canonical_append(grapheme_base_chunk_80() + grapheme_base_chunk_81() + grapheme_base_chunk_82() + grapheme_base_chunk_83(), grapheme_base_chunk_84());
    lemma_canonical_append(grapheme_base_chunk_80() + grapheme_base_chunk_81() + grapheme_base_chunk_82() + grapheme_base_chunk_83() + grapheme_base_chunk_84(), grapheme_base_chunk_85());
    lemma_canonical_append(grapheme_base_chunk_80() + grapheme_base_chunk_81() + grapheme_base_chunk_82() + grapheme_base_chunk_83() + grapheme_base_chunk_84() + grapheme_base_chunk_85(), grapheme_base_chunk_86());
    lemma_canonical_append(grapheme_base_chunk_80() + grapheme_base_chunk_81() + grapheme_base_chunk_82() + grapheme_base_chunk_83() + grapheme_base_chunk_84() + grapheme_base_chunk_85() + grapheme_base_chunk_86(), grapheme_base_chunk_87());
    lemma_canonical_append(grapheme_base_chunk_80() + grapheme_base_chunk_81() + grapheme_base_chunk_82() + grapheme_base_chunk_83() + grapheme_base_chunk_84() + grapheme_base_chunk_85() + grapheme_base_chunk_86() + grapheme_base_chunk_87(), grapheme_base_chunk_88());
    lemma_canonical_append(grapheme_base_chunk_80() + grapheme_base_chunk_81() + grapheme_base_chunk_82() + grapheme_base_chunk_83() + grapheme_base_chunk_84() + grapheme_base_chunk_85() + grapheme_base_chunk_86() + grapheme_base_chunk_87() + grapheme_base_chunk_88(), grapheme_base_chunk_89());
}

proof fn lemma_grapheme_base_block_9()
    ensures
        canonical(grapheme_base_block_9()),
        grapheme_base_block_9().len() > 0,
        grapheme_base_block_9()[0] == grapheme_base_chunk_90()[0],
        grapheme_base_block_9().last() == grapheme_base_chunk_99().last(),
{
    reveal_with_fuel(canonical, 9);
    assert(canonical(grapheme_base_chunk_90()));
    assert(canonical(grapheme_base_chunk_91()));
    assert(canonical(grapheme_base_chunk_92()));
    assert(canonical(grapheme_base_chunk_93()));
    assert(canonical(grapheme_base_chunk_94()));
    assert(canonical(grapheme_base_chunk_95()));
    assert(canonical(grapheme_base_chunk_96()));
    assert(canonical(grapheme_base_chunk_97()));
    assert(canonical(grapheme_base_chunk_98()));
    assert(canonical(grapheme_base_chunk_99()));
    lemma_canonical_append(grapheme_base_chunk_90(), grapheme_base_chunk_91());
    lemma_canonical_append(grapheme_base_chunk_90() + grapheme_base_chunk_91(), grapheme_base_chunk_92());
    lemma_canonical_append(grapheme_base_chunk_90() + grapheme_base_chunk_91() + grapheme_base_chunk_92(), grapheme_base_chunk_93());
    lemma_canonical_append(grapheme_base_chunk_90() + grapheme_base_chunk_91() + grapheme_base_chunk_92() + grapheme_base_chunk_93(), grapheme_base_chunk_94());
    lemma_canonical_append(grapheme_base_chunk_90() + grapheme_base_chunk_91() + grapheme_base_chunk_92() + grapheme_base_chunk_93() + grapheme_base_chunk_94(), grapheme_base_chunk_95());
    lemma_canonical_append(grapheme_base_chunk_90() + grapheme_base_chunk_91() + grapheme_base_chunk_92() + grapheme_base_chunk_93() + grapheme_base_chunk_94() + grapheme_base_chunk_95(), grapheme_base_chunk_96());
    lemma_canonical_append(grapheme_base_chunk_90() + grapheme_base_chunk_91() + grapheme_base_chunk_92() + grapheme_base_chunk_93() + grapheme_base_chunk_94() + grapheme_base_chunk_95() + grapheme_base_chunk_96(), grapheme_base_chunk_97());
    lemma_canonical_append(grapheme_base_chunk_90() + grapheme_base_chunk_91() + grapheme_base_chunk_92() + grapheme_base_chunk_93() + grapheme_base_chunk_94() + grapheme_base_chunk_95() + grapheme_base_chunk_96() + grapheme_base_chunk_97(), grapheme_base_chunk_98());
    lemma_canonical_append(grapheme_base_chunk_90() + grapheme_base_chunk_91() + grapheme_base_chunk_92() + grapheme_base_chunk_93() + grapheme_base_chunk_94() + grapheme_base_chunk_95() + grapheme_base_chunk_96() + grapheme_base_chunk_97() + grapheme_base_chunk_98(), grapheme_base_chunk_99());
}

proof fn lemma_grapheme_base_block_10()
    ensures
        canonical(grapheme_base_block_10()),
        grapheme_base_block_10().len() > 0,
        grapheme_base_block_10()[0] == grapheme_base_chunk_100()[0],
        grapheme_base_block_10().last() == grapheme_base_chunk_109().last(),
{
    reveal_with_fuel(canonical, 9);
    assert(canonical(grapheme_base_chunk_100()));
    assert(canonical(grapheme_base_chunk_101()));
    assert(canonical(grapheme_base_chunk_102()));
    assert(canonical(grapheme_base_chunk_103()));
    assert(canonical(grapheme_base_chunk_104()));
    assert(canonical(grapheme_base_chunk_105()));
    assert(canonical(grapheme_base_chunk_106()));
    assert(canonical(grapheme_base_chunk_107()));
    assert(canonical(grapheme_base_chunk_108()));
    assert(canonical(grapheme_base_chunk_109()));
    lemma_canonical_append(grapheme_base_chunk_100(), grapheme_base_chunk_101());
    lemma_canonical_append(grapheme_base_chunk_100() + grapheme_base_chunk_101(), grapheme_base_chunk_102());
    lemma_canonical_append(grapheme_base_chunk_100() + grapheme_base_chunk_101() + grapheme_base_chunk_102(), grapheme_base_chunk_103());
    lemma_canonical_append(grapheme_base_chunk_100() + grapheme_base_chunk_101() + grapheme_base_chunk_102() + grapheme_base_chunk_103(), grapheme_base_chunk_104());
    lemma_canonical_append(grapheme_base_chunk_100() + grapheme_base_chunk_101() + grapheme_base_chunk_102() + grapheme_base_chunk_103() + grapheme_base_chunk_104(), grapheme_base_chunk_105());
    lemma_canonical_append(grapheme_base_chunk_100() + grapheme_base_chunk_101() + grapheme_base_chunk_102() + grapheme_base_chunk_103() + grapheme_base_chunk_104() + grapheme_base_chunk_105(), grapheme_base_chunk_106());
    lemma_canonical_append(grapheme_base_chunk_100() + grapheme_base_chunk_101() + grapheme_base_chunk_102() + grapheme_base_chunk_103() + grapheme_base_chunk_104() + grapheme_base_chunk_105() + grapheme_base_chunk_106(), grapheme_base_chunk_107());
    lemma_canonical_append(grapheme_base_chunk_100() + grapheme_base_chunk_101() + grapheme_base_chunk_102() + grapheme_base_chunk_103() + grapheme_base_chunk_104() + grapheme_base_chunk_105() + grapheme_base_chunk_106() + grapheme_base_chunk_107(), grapheme_base_chunk_108());
    lemma_canonical_append(grapheme_base_chunk_100() + grapheme_base_chunk_101() + grapheme_base_chunk_102() + grapheme_base_chunk_103() + grapheme_base_chunk_104() + grapheme_base_chunk_105() + grapheme_base_chunk_106() + grapheme_base_chunk_107() + grapheme_base_chunk_108(), grapheme_base_chunk_109());
}

proof fn lemma_grapheme_base_block_11()
    ensures
        canonical(grapheme_base_block_11()),
        grapheme_base_block_11().len() > 0,
        grapheme_base_block_11()[0] == grapheme_base_chunk_110()[0],
        grapheme_base_block_11().last() == grapheme_base_chunk_111().last(),
{
    reveal_with_fuel(canonical, 9);
    assert(canonical(grapheme_base_chunk_110()));
    assert(canonical(grapheme_base_chunk_111()));
    lemma_canonical_append(grapheme_base_chunk_110(), grapheme_base_chunk_111());
}

#[verifier::rlimit(100)]
pub proof fn lemma_grapheme_base_canonical()
    ensures
        canonical(grapheme_base_ranges()),
{
    lemma_grapheme_base_block_0();
    lemma_grapheme_base_block_1();
    lemma_grapheme_base_block_2();
    lemma_grapheme_base_block_3();
    lemma_grapheme_base_block_4();
    lemma_grapheme_base_block_5();
    lemma_grapheme_base_block_6();
    lemma_grapheme_base_block_7();
    lemma_grapheme_base_block_8();
    lemma_grapheme_base_block_9();
    lemma_grapheme_base_block_10();
    lemma_grapheme_base_block_11();
    lemma_canonical_append(grapheme_base_block_0(), grapheme_base_block_1());
    lemma_canonical_append(grapheme_base_block_0() + grapheme_base_block_1(), grapheme_base_block_2());
    lemma_canonical_append(grapheme_base_block_0() + grapheme_base_block_1() + grapheme_base_block_2(), grapheme_base_block_3());
    lemma_canonical_append(grapheme_base_block_0() + grapheme_base_block_1() + grapheme_base_block_2() + grapheme_base_block_3(), grapheme_base_block_4());
    lemma_canonical_append(grapheme_base_block_0() + grapheme_base_block_1() + grapheme_base_block_2() + grapheme_base_block_3() + grapheme_base_block_4(), grapheme_base_block_5());
    lemma_canonical_append(grapheme_base_block_0() + grapheme_base_block_1() + grapheme_base_block_2() + grapheme_base_block_3() + grapheme_base_block_4() + grapheme_base_block_5(), grapheme_base_block_6());
    lemma_canonical_append(grapheme_base_block_0() + grapheme_base_block_1() + grapheme_base_block_2() + grapheme_base_block_3() + grapheme_base_block_4() + grapheme_base_block_5() + grapheme_base_block_6(), grapheme_base_block_7());
    lemma_canonical_append(grapheme_base_block_0() + grapheme_base_block_1() + grapheme_base_block_2() + grapheme_base_block_3() + grapheme_base_block_4() + grapheme_base_block_5() + grapheme_base_block_6() + grapheme_base_block_7(), grapheme_base_block_8());
    lemma_canonical_append(grapheme_base_block_0() + grapheme_base_block_1() + grapheme_base_block_2() + grapheme_base_block_3() + grapheme_base_block_4() + grapheme_base_block_5() + grapheme_base_block_6() + grapheme_base_block_7() + grapheme_base_block_8(), grapheme_base_block_9());
    lemma_canonical_append(grapheme_base_block_0() + grapheme_base_block_1() + grapheme_base_block_2() + grapheme_base_block_3() + grapheme_base_block_4() + grapheme_base_block_5() + grapheme_base_block_6() + grapheme_base_block_7() + grapheme_base_block_8() + grapheme_base_block_9(), grapheme_base_block_10());
    lemma_canonical_append(grapheme_base_block_0() + grapheme_base_block_1() + grapheme_base_block_2() + grapheme_base_block_3() + grapheme_base_block_4() + grapheme_base_block_5() + grapheme_base_block_6() + grapheme_base_block_7() + grapheme_base_block_8() + grapheme_base_block_9() + grapheme_base_block_10(), grapheme_base_block_11());
}

fn push_grapheme_base_chunk_0(v: &mut Vec<ClassUnicodeRange>)
    ensures
        rview(final(v)@) == rview(old(v)@) + grapheme_base_chunk_0(),
{
    let ghost o = rview(v@);
    push_range(v, '\u{20}', '\u{7E}');
    push_range(v, '\u{A0}', '\u{AC}');
    push_range(v, '\u{AE}', '\u{2FF}');
    push_range(v, '\u{370}', '\u{377}');
    push_range(v, '\u{37A}', '\u{37F}');
    push_range(v, '\u{384}', '\u{38A}');
    push_range(v, '\u{38C}', '\u{38C}');
    push_range(v, '\u{38E}', '\u{3A1}');
    assert(rview(v@) =~= o + grapheme_base_chunk_0());
}

fn push_grapheme_base_chunk_1(v: &mut Vec<ClassUnicodeRange>)
    ensures
        rview(final(v)@) == rview(old(v)@) + grapheme_base_chunk_1(),
{
    let ghost o = rview(v@);
    push_range(v, '\u{3A3}', '\u{482}');
    push_range(v, '\u{48A}', '\u{52F}');
    push_range(v, '\u{531}', '\u{556}');
    push_range(v, '\u{559}', '\u{58A}');
    push_range(v, '\u{58D}', '\u{58F}');
    push_range(v, '\u{5BE}', '\u{5BE}');
    push_range(v, '\u{5C0}', '\u{5C0}');
    push_range(v, '\u{5C3}', '\u{5C3}');
    assert(rview(v@) =~= o + grapheme_base_chunk_1());
}

fn push_grapheme_base_chunk_2(v: &mut Vec<ClassUnicodeRange>)
    ensures
        rview(final(v)@) == rview(old(v)@) + grapheme_base_chunk_2(),
{
    let ghost o = rview(v@);
    push_range(v, '\u{5C6}', '\u{5C6}');
    push_range(v, '\u{5D0}', '\u{5EA}');
    push_range(v, '\u{5EF}', '\u{5F4}');
    push_range(v, '\u{606}', '\u{60F}');
    push_range(v, '\u{61B}', '\u{61B}');
    push_range(v, '\u{61D}', '\u{64A}');
    push_range(v, '\u{660}', '\u{66F}');
    push_range(v, '\u{671}', '\u{6D5}');
    assert(rview(v@) =~= o + grapheme_base_chunk_2());
}

fn push_grapheme_base_chunk_3(v: &mut Vec<ClassUnicodeRange>)
    ensures
        rview(final(v)@) == rview(old(v)@) + grapheme_base_chunk_3(),
{
    let ghost o = rview(v@);
    push_range(v, '\u{6DE}', '\u{6DE}');
    push_range(v, '\u{6E5}', '\u{6E6}');
    push_range(v, '\u{6E9}', '\u{6E9}');
    push_range(v, '\u{6EE}', '\u{70D}');
    push_range(v, '\u{710}', '\u{710}');
    push_range(v, '\u{712}', '\u{72F}');
    push_range(v, '\u{74D}', '\u{7A5}');
    push_range(v, '\u{7B1}', '\u{7B1}');
    assert(rview(v@) =~= o + grapheme_base_chunk_3());
}

fn push_grapheme_base_chunk_4(v: &mut Vec<ClassUnicodeRange>)
    ensures
        rview(final(v)@) == rview(old(v)@) + grapheme_base_chunk_4(),
{
    let ghost o = rview(v@);
    push_range(v, '\u{7C0}', '\u{7EA}');
    push_range(v, '\u{7F4}', '\u{7FA}');
    push_range(v, '\u{7FE}', '\u{815}');
    push_range(v, '\u{81A}', '\u{81A}');
    push_range(v, '\u{824}', '\u{824}');
    push_range(v, '\u{828}', '\u{828}');
    push_range(v, '\u{830}', '\u{83E}');
    push_range(v, '\u{840}', '\u{858}');
    assert(rview(v@) =~= o + grapheme_base_chunk_4());
}

fn push_grapheme_base_chunk_5(v: &mut Vec<ClassUnicodeRange>)
    ensures
        rview(final(v)@) == rview(old(v)@) + grapheme_base_chunk_5(),
{
    let ghost o = rview(v@);
    push_range(v, '\u{85E}', '\u{85E}');
    push_range(v, '\u{860}', '\u{86A}');
    push_range(v, '\u{870}', '\u{88E}');
    push_range(v, '\u{8A0}', '\u{8C9}');
    push_range(v, '\u{903}', '\u{939}');
    push_range(v, '\u{93B}', '\u{93B}');
    push_range(v, '\u{93D}', '\u{940}');
    push_range(v, '\u{949}', '\u{94C}');
    assert(rview(v@) =~= o + grapheme_base_chunk_5());
}

fn push_grapheme_base_chunk_6(v: &mut Vec<ClassUnicodeRange>)
    ensures
        rview(final(v)@) == rview(old(v)@) + grapheme_base_chunk_6(),
{
    let ghost o = rview(v@);
    push_range(v, '\u{94E}', '\u{950}');
    push_range(v, '\u{958}', '\u{961}');
    push_range(v, '\u{964}', '\u{980}');
    push_range(v, '\u{982}', '\u{983}');
    push_range(v, '\u{985}', '\u{98C}');
    push_range(v, '\u{98F}', '\u{990}');
    push_range(v, '\u{993}', '\u{9A8}');
    push_range(v, '\u{9AA}', '\u{9B0}');
    assert(rview(v@) =~= o + grapheme_base_chunk_6());
}

fn push_grapheme_base_chunk_7(v: &mut Vec<ClassUnicodeRange>)
    ensures
        rview(final(v)@) == rview(old(v)@) + grapheme_base_chunk_7(),
{
    let ghost o = rview(v@);
    push_range(v, '\u{9B2}', '\u{9B2}');
    push_range(v, '\u{9B6}', '\u{9B9}');
    push_range(v, '\u{9BD}', '\u{9BD}');
    push_range(v, '\u{9BF}', '\u{9C0}');
    push_range(v, '\u{9C7}', '\u{9C8}');
    push_range(v, '\u{9CB}', '\u{9CC}');
    push_range(v, '\u{9CE}', '\u{9CE}');
    push_range(v, '\u{9DC}', '\u{9DD}');
    assert(rview(v@) =~= o + grapheme_base_chunk_7());
}

fn push_grapheme_base_chunk_8(v: &mut Vec<ClassUnicodeRange>)
    ensures
        rview(final(v)@) == rview(old(v)@) + grapheme_base_chunk_8(),
{
    let ghost o = rview(v@);
    push_range(v, '\u{9DF}', '\u{9E1}');
    push_range(v, '\u{9E6}', '\u{9FD}');
    push_range(v, '\u{A03}', '\u{A03}');
    push_range(v, '\u{A05}', '\u{A0A}');
    push_range(v, '\u{A0F}', '\u{A10}');
    push_range(v, '\u{A13}', '\u{A28}');
    push_range(v, '\u{A2A}', '\u{A30}');
    push_range(v, '\u{A32}', '\u{A33}');
    assert(rview(v@) =~= o + grapheme_base_chunk_8());
}

fn push_grapheme_base_chunk_9(v: &mut Vec<ClassUnicodeRange>)
    ensures
        rview(final(v)@) == rview(old(v)@) + grapheme_base_chunk_9(),
{
    let ghost o = rview(v@);
    push_range(v, '\u{A35}', '\u{A36}');
    push_range(v, '\u{A38}', '\u{A39}');
    push_range(v, '\u{A3E}', '\u{A40}');
    push_range(v, '\u{A59}', '\u{A5C}');
    push_range(v, '\u{A5E}', '\u{A5E}');
    push_range(v, '\u{A66}', '\u{A6F}');
    push_range(v, '\u{A72}', '\u{A74}');
    push_range(v, '\u{A76}', '\u{A76}');
    assert(rview(v@) =~= o + grapheme_base_chunk_9());
}

fn push_grapheme_base_chunk_10(v: &mut Vec<ClassUnicodeRange>)
    ensures
        rview(final(v)@) == rview(old(v)@) + grapheme_base_chunk_10(),
{
    let ghost o = rview(v@);
    push_range(v, '\u{A83}', '\u{A83}');
    push_range(v, '\u{A85}', '\u{A8D}');
    push_range(v, '\u{A8F}', '\u{A91}');
    push_range(v, '\u{A93}', '\u{AA8}');
    push_range(v, '\u{AAA}', '\u{AB0}');
    push_range(v, '\u{AB2}', '\u{AB3}');
    push_range(v, '\u{AB5}', '\u{AB9}');
    push_range(v, '\u{ABD}', '\u{AC0}');
    assert(rview(v@) =~= o + grapheme_base_chunk_10());
}

fn push_grapheme_base_chunk_11(v: &mut Vec<ClassUnicodeRange>)
    ensures
        rview(final(v)@) == rview(old(v)@) + grapheme_base_chunk_11(),
{
    let ghost o = rview(v@);
    push_range(v, '\u{AC9}', '\u{AC9}');
    push_range(v, '\u{ACB}', '\u{ACC}');
    push_range(v, '\u{AD0}', '\u{AD0}');
    push_range(v, '\u{AE0}', '\u{AE1}');
    push_range(v, '\u{AE6}', '\u{AF1}');
    push_range(v, '\u{AF9}', '\u{AF9}');
    push_range(v, '\u{B02}', '\u{B03}');
    push_range(v, '\u{B05}', '\u{B0C}');
    assert(rview(v@) =~= o + grapheme_base_chunk_11());
}

fn push_grapheme_base_chunk_12(v: &mut Vec<ClassUnicodeRange>)
    ensures
        rview(final(v)@) == rview(old(v)@) + grapheme_base_chunk_12(),
{
    let ghost o = rview(v@);
    push_range(v, '\u{B0F}', '\u{B10}');
    push_range(v, '\u{B13}', '\u{B28}');
    push_range(v, '\u{B2A}', '\u{B30}');
    push_range(v, '\u{B32}', '\u{B33}');
    push_range(v, '\u{B35}', '\u{B39}');
    push_range(v, '\u{B3D}', '\u{B3D}');
    push_range(v, '\u{B40}', '\u{B40}');
    push_range(v, '\u{B47}', '\u{B48}');
    assert(rview(v@) =~= o + grapheme_base_chunk_12());
}

fn push_grapheme_base_chunk_13(v: &mut Vec<ClassUnicodeRange>)
    ensures
        rview(final(v)@) == rview(old(v)@) + grapheme_base_chunk_13(),
{
    let ghost o = rview(v@);
    push_range(v, '\u{B4B}', '\u{B4C}');
    push_range(v, '\u{B5C}', '\u{B5D}');
    push_range(v, '\u{B5F}', '\u{B61}');
    push_range(v, '\u{B66}', '\u{B77}');
    push_range(v, '\u{B83}', '\u{B83}');
    push_range(v, '\u{B85}', '\u{B8A}');
    push_range(v, '\u{B8E}', '\u{B90}');
    push_range(v, '\u{B92}', '\u{B95}');
    assert(rview(v@) =~= o + grapheme_base_chunk_13());
}

fn push_grapheme_base_chunk_14(v: &mut Vec<ClassUnicodeRange>)
    ensures
        rview(final(v)@) == rview(old(v)@) + grapheme_base_chunk_14(),
{
    let ghost o = rview(v@);
    push_range(v, '\u{B99}', '\u{B9A}');
    push_range(v, '\u{B9C}', '\u{B9C}');
    push_range(v, '\u{B9E}', '\u{B9F}');
    push_range(v, '\u{BA3}', '\u{BA4}');
    push_range(v, '\u{BA8}', '\u{BAA}');
    push_range(v, '\u{BAE}', '\u{BB9}');
    push_range(v, '\u{BBF}', '\u{BBF}');
    push_range(v, '\u{BC1}', '\u{BC2}');
    assert(rview(v@) =~= o + grapheme_base_chunk_14());
}

fn push_grapheme_base_chunk_15(v: &mut Vec<ClassUnicodeRange>)
    ensures
        rview(final(v)@) == rview(old(v)@) + grapheme_base_chunk_15(),
{
    let ghost o = rview(v@);
    push_range(v, '\u{BC6}', '\u{BC8}');
    push_range(v, '\u{BCA}', '\u{BCC}');
    push_range(v, '\u{BD0}', '\u{BD0}');
    push_range(v, '\u{BE6}', '\u{BFA}');
    push_range(v, '\u{C01}', '\u{C03}');
    push_range(v, '\u{C05}', '\u{C0C}');
    push_range(v, '\u{C0E}', '\u{C10}');
    push_range(v, '\u{C12}', '\u{C28}');
    assert(rview(v@) =~= o + grapheme_base_chunk_15());
}

fn push_grapheme_base_chunk_16(v: &mut Vec<ClassUnicodeRange>)
    ensures
        rview(final(v)@) == rview(old(v)@) + grapheme_base_chunk_16(),
{
    let ghost o = rview(v@);
    push_range(v, '\u{C2A}', '\u{C39}');
    push_range(v, '\u{C3D}', '\u{C3D}');
    push_range(v, '\u{C41}', '\u{C44}');
    push_range(v, '\u{C58}', '\u{C5A}');
    push_range(v, '\u{C5D}', '\u{C5D}');
    push_range(v, '\u{C60}', '\u{C61}');
    push_range(v, '\u{C66}', '\u{C6F}');
    push_range(v, '\u{C77}', '\u{C80}');
    assert(rview(v@) =~= o + grapheme_base_chunk_16());
}

fn push_grapheme_base_chunk_17(v: &mut Vec<ClassUnicodeRange>)
    ensures
        rview(final(v)@) == rview(old(v)@) + grapheme_base_chunk_17(),
{
    let ghost o = rview(v@);
    push_range(v, '\u{C82}', '\u{C8C}');
    push_range(v, '\u{C8E}', '\u{C90}');
    push_range(v, '\u{C92}', '\u{CA8}');
    push_range(v, '\u{CAA}', '\u{CB3}');
    push_range(v, '\u{CB5}', '\u{CB9}');
    push_range(v, '\u{CBD}', '\u{CBE}');
    push_range(v, '\u{CC1}', '\u{CC1}');
    push_range(v, '\u{CC3}', '\u{CC4}');
    assert(rview(v@) =~= o + grapheme_base_chunk_17());
}

fn push_grapheme_base_chunk_18(v: &mut Vec<ClassUnicodeRange>)
    ensures
        rview(final(v)@) == rview(old(v)@) + grapheme_base_chunk_18(),
{
    let ghost o = rview(v@);
    push_range(v, '\u{CDD}', '\u{CDE}');
    push_range(v, '\u{CE0}', '\u{CE1}');
    push_range(v, '\u{CE6}', '\u{CEF}');
    push_range(v, '\u{CF1}', '\u{CF3}');
    push_range(v, '\u{D02}', '\u{D0C}');
    push_range(v, '\u{D0E}', '\u{D10}');
    push_range(v, '\u{D12}', '\u{D3A}');
    push_range(v, '\u{D3D}', '\u{D3D}');
    assert(rview(v@) =~= o + grapheme_base_chunk_18());
}

fn push_grapheme_base_chunk_19(v: &mut Vec<ClassUnicodeRange>)
    ensures
        rview(final(v)@) == rview(old(v)@) + grapheme_base_chunk_19(),
{
    let ghost o = rview(v@);
    push_range(v, '\u{D3F}', '\u{D40}');
    push_range(v, '\u{D46}', '\u{D48}');
    push_range(v, '\u{D4A}', '\u{D4C}');
    push_range(v, '\u{D4E}', '\u{D4F}');
    push_range(v, '\u{D54}', '\u{D56}');
    push_range(v, '\u{D58}', '\u{D61}');
    push_range(v, '\u{D66}', '\u{D7F}');
    push_range(v, '\u{D82}', '\u{D83}');
    assert(rview(v@) =~= o + grapheme_base_chunk_19());
}

fn push_grapheme_base_chunk_20(v: &mut Vec<ClassUnicodeRange>)
    ensures
        rview(final(v)@) == rview(old(v)@) + grapheme_base_chunk_20(),
{
    let ghost o = rview(v@);
    push_range(v, '\u{D85}', '\u{D96}');
    push_range(v, '\u{D9A}', '\u{DB1}');
    push_range(v, '\u{DB3}', '\u{DBB}');
    push_range(v, '\u{DBD}', '\u{DBD}');
    push_range(v, '\u{DC0}', '\u{DC6}');
    push_range(v, '\u{DD0}', '\u{DD1}');
    push_range(v, '\u{DD8}', '\u{DDE}');
    push_range(v, '\u{DE6}', '\u{DEF}');
    assert(rview(v@) =~= o + grapheme_base_chunk_20());
}

fn push_grapheme_base_chunk_21(v: &mut Vec<ClassUnicodeRange>)
    ensures
        rview(final(v)@) == rview(old(v)@) + grapheme_base_chunk_21(),
{
    let ghost o = rview(v@);
    push_range(v, '\u{DF2}', '\u{DF4}');
    push_range(v, '\u{E01}', '\u{E30}');
    push_range(v, '\u{E32}', '\u{E33}');
    push_range(v, '\u{E3F}', '\u{E46}');
    push_range(v, '\u{E4F}', '\u{E5B}');
    push_range(v, '\u{E81}', '\u{E82}');
    push_range(v, '\u{E84}', '\u{E84}');
    push_range(v, '\u{E86}', '\u{E8A}');
    assert(rview(v@) =~= o + grapheme_base_chunk_21());
}

fn push_grapheme_base_chunk_22(v: &mut Vec<ClassUnicodeRange>)
    ensures
        rview(final(v)@) == rview(old(v)@) + grapheme_base_chunk_22(),
{
    let ghost o = rview(v@);
    push_range(v, '\u{E8C}', '\u{EA3}');
    push_range(v, '\u{EA5}', '\u{EA5}');
    push_range(v, '\u{EA7}', '\u{EB0}');
    push_range(v, '\u{EB2}', '\u{EB3}');
    push_range(v, '\u{EBD}', '\u{EBD}');
    push_range(v, '\u{EC0}', '\u{EC4}');
    push_range(v, '\u{EC6}', '\u{EC6}');
    push_range(v, '\u{ED0}', '\u{ED9}');
    assert(rview(v@) =~= o + grapheme_base_chunk_22());
}

fn push_grapheme_base_chunk_23(v: &mut Vec<ClassUnicodeRange>)
    ensures
        rview(final(v)@) == rview(old(v)@) + grapheme_base_chunk_23(),
{
    let ghost o = rview(v@);
    push_range(v, '\u{EDC}', '\u{EDF}');
    push_range(v, '\u{F00}', '\u{F17}');
    push_range(v, '\u{F1A}', '\u{F34}');
    push_range(v, '\u{F36}', '\u{F36}');
    push_range(v, '\u{F38}', '\u{F38}');
    push_range(v, '\u{F3A}', '\u{F47}');
    push_range(v, '\u{F49}', '\u{F6C}');
    push_range(v, '\u{F7F}', '\u{F7F}');
    assert(rview(v@) =~= o + grapheme_base_chunk_23());
}

fn push_grapheme_base_chunk_24(v: &mut Vec<ClassUnicodeRange>)
    ensures
        rview(final(v)@) == rview(old(v)@) + grapheme_base_chunk_24(),
{
    let ghost o = rview(v@);
    push_range(v, '\u{F85}', '\u{F85}');
    push_range(v, '\u{F88}', '\u{F8C}');
    push_range(v, '\u{FBE}', '\u{FC5}');
    push_range(v, '\u{FC7}', '\u{FCC}');
    push_range(v, '\u{FCE}', '\u{FDA}');
    push_range(v, '\u{1000}', '\u{102C}');
    push_range(v, '\u{1031}', '\u{1031}');
    push_range(v, '\u{1038}', '\u{1038}');
    assert(rview(v@) =~= o + grapheme_base_chunk_24());
}

fn push_grapheme_base_chunk_25(v: &mut Vec<ClassUnicodeRange>)
    ensures
        rview(final(v)@) == rview(old(v)@) + grapheme_base_chunk_25(),
{
    let ghost o = rview(v@);
    push_range(v, '\u{103B}', '\u{103C}');
    push_range(v, '\u{103F}', '\u{1057}');
    push_range(v, '\u{105A}', '\u{105D}');
    push_range(v, '\u{1061}', '\u{1070}');
    push_range(v, '\u{1075}', '\u{1081}');
    push_range(v, '\u{1083}', '\u{1084}');
    push_range(v, '\u{1087}', '\u{108C}');
    push_range(v, '\u{108E}', '\u{109C}');
    assert(rview(v@) =~= o + grapheme_base_chunk_25());
}

fn push_grapheme_base_chunk_26(v: &mut Vec<ClassUnicodeRange>)
    ensures
        rview(final(v)@) == rview(old(v)@) + grapheme_base_chunk_26(),
{
    let ghost o = rview(v@);
    push_range(v, '\u{109E}', '\u{10C5}');
    push_range(v, '\u{10C7}', '\u{10C7}');
    push_range(v, '\u{10CD}', '\u{10CD}');
    push_range(v, '\u{10D0}', '\u{1248}');
    push_range(v, '\u{124A}', '\u{124D}');
    push_range(v, '\u{1250}', '\u{1256}');
    push_range(v, '\u{1258}', '\u{1258}');
    push_range(v, '\u{125A}', '\u{125D}');
    assert(rview(v@) =~= o + grapheme_base_chunk_26());
}

fn push_grapheme_base_chunk_27(v: &mut Vec<ClassUnicodeRange>)
    ensures
        rview(final(v)@) == rview(old(v)@) + grapheme_base_chunk_27(),
{
    let ghost o = rview(v@);
    push_range(v, '\u{1260}', '\u{1288}');
    push_range(v, '\u{128A}', '\u{128D}');
    push_range(v, '\u{1290}', '\u{12B0}');
    push_range(v, '\u{12B2}', '\u{12B5}');
    push_range(v, '\u{12B8}', '\u{12BE}');
    push_range(v, '\u{12C0}', '\u{12C0}');
    push_range(v, '\u{12C2}', '\u{12C5}');
    push_range(v, '\u{12C8}', '\u{12D6}');
    assert(rview(v@) =~= o + grapheme_base_chunk_27());
}

fn push_grapheme_base_chunk_28(v: &mut Vec<ClassUnicodeRange>)
    ensures
        rview(final(v)@) == rview(old(v)@) + grapheme_base_chunk_28(),
{
    let ghost o = rview(v@);
    push_range(v, '\u{12D8}', '\u{1310}');
    push_range(v, '\u{1312}', '\u{1315}');
    push_range(v, '\u{1318}', '\u{135A}');
    push_range(v, '\u{1360}', '\u{137C}');
    push_range(v, '\u{1380}', '\u{1399}');
    push_range(v, '\u{13A0}', '\u{13F5}');
    push_range(v, '\u{13F8}', '\u{13FD}');
    push_range(v, '\u{1400}', '\u{169C}');
    assert(rview(v@) =~= o + grapheme_base_chunk_28());
}

fn push_grapheme_base_chunk_29(v: &mut Vec<ClassUnicodeRange>)
    ensures
        rview(final(v)@) == rview(old(v)@) + grapheme_base_chunk_29(),
{
    let ghost o = rview(v@);
    push_range(v, '\u{16A0}', '\u{16F8}');
    push_range(v, '\u{1700}', '\u{1711}');
    push_range(v, '\u{171F}', '\u{1731}');
    push_range(v, '\u{1735}', '\u{1736}');
    push_range(v, '\u{1740}', '\u{1751}');
    push_range(v, '\u{1760}', '\u{176C}');
    push_range(v, '\u{176E}', '\u{1770}');
    push_range(v, '\u{1780}', '\u{17B3}');
    assert(rview(v@) =~= o + grapheme_base_chunk_29());
}

fn push_grapheme_base_chunk_30(v: &mut Vec<ClassUnicodeRange>)
    ensures
        rview(final(v)@) == rview(old(v)@) + grapheme_base_chunk_30(),
{
    let ghost o = rview(v@);
    push_range(v, '\u{17B6}', '\u{17B6}');
    push_range(v, '\u{17BE}', '\u{17C5}');
    push_range(v, '\u{17C7}', '\u{17C8}');
    push_range(v, '\u{17D4}', '\u{17DC}');
    push_range(v, '\u{17E0}', '\u{17E9}');
    push_range(v, '\u{17F0}', '\u{17F9}');
    push_range(v, '\u{1800}', '\u{180A}');
    push_range(v, '\u{1810}', '\u{1819}');
    assert(rview(v@) =~= o + grapheme_base_chunk_30());
}

fn push_grapheme_base_chunk_31(v: &mut Vec<ClassUnicodeRange>)
    ensures
        rview(final(v)@) == rview(old(v)@) + grapheme_base_chunk_31(),
{
    let ghost o = rview(v@);
    push_range(v, '\u{1820}', '\u{1878}');
    push_range(v, '\u{1880}', '\u{1884}');
    push_range(v, '\u{1887}', '\u{18A8}');
    push_range(v, '\u{18AA}', '\u{18AA}');
    push_range(v, '\u{18B0}', '\u{18F5}');
    push_range(v, '\u{1900}', '\u{191E}');
    push_range(v, '\u{1923}', '\u{1926}');
    push_range(v, '\u{1929}', '\u{192B}');
    assert(rview(v@) =~= o + grapheme_base_chunk_31());
}

fn push_grapheme_base_chunk_32(v: &mut Vec<ClassUnicodeRange>)
    ensures
        rview(final(v)@) == rview(old(v)@) + grapheme_base_chunk_32(),
{
    let ghost o = rview(v@);
    push_range(v, '\u{1930}', '\u{1931}');
    push_range(v, '\u{1933}', '\u{1938}');
    push_range(v, '\u{1940}', '\u{1940}');
    push_range(v, '\u{1944}', '\u{196D}');
    push_range(v, '\u{1970}', '\u{1974}');
    push_range(v, '\u{1980}', '\u{19AB}');
    push_range(v, '\u{19B0}', '\u{19C9}');
    push_range(v, '\u{19D0}', '\u{19DA}');
    assert(rview(v@) =~= o + grapheme_base_chunk_32());
}

fn push_grapheme_base_chunk_33(v: &mut Vec<ClassUnicodeRange>)
    ensures
        rview(final(v)@) == rview(old(v)@) + grapheme_base_chunk_33(),
{
    let ghost o = rview(v@);
    push_range(v, '\u{19DE}', '\u{1A16}');
    push_range(v, '\u{1A19}', '\u{1A1A}');
    push_range(v, '\u{1A1E}', '\u{1A55}');
    push_range(v, '\u{1A57}', '\u{1A57}');
    push_range(v, '\u{1A61}', '\u{1A61}');
    push_range(v, '\u{1A63}', '\u{1A64}');
    push_range(v, '\u{1A6D}', '\u{1A72}');
    push_range(v, '\u{1A80}', '\u{1A89}');
    assert(rview(v@) =~= o + grapheme_base_chunk_33());
}

fn push_grapheme_base_chunk_34(v: &mut Vec<ClassUnicodeRange>)
    ensures
        rview(final(v)@) == rview(old(v)@) + grapheme_base_chunk_34(),
{
    let ghost o = rview(v@);
    push_range(v, '\u{1A90}', '\u{1A99}');
    push_range(v, '\u{1AA0}', '\u{1AAD}');
    push_range(v, '\u{1B04}', '\u{1B33}');
    push_range(v, '\u{1B3E}', '\u{1B41}');
    push_range(v, '\u{1B45}', '\u{1B4C}');
    push_range(v, '\u{1B4E}', '\u{1B6A}');
    push_range(v, '\u{1B74}', '\u{1B7F}');
    push_range(v, '\u{1B82}', '\u{1BA1}');
    assert(rview(v@) =~= o + grapheme_base_chunk_34());
}

fn push_grapheme_base_chunk_35(v: &mut Vec<ClassUnicodeRange>)
    ensures
        rview(final(v)@) == rview(old(v)@) + grapheme_base_chunk_35(),
{
    let ghost o = rview(v@);
    push_range(v, '\u{1BA6}', '\u{1BA7}');
    push_range(v, '\u{1BAE}', '\u{1BE5}');
    push_range(v, '\u{1BE7}', '\u{1BE7}');
    push_range(v, '\u{1BEA}', '\u{1BEC}');
    push_range(v, '\u{1BEE}', '\u{1BEE}');
    push_range(v, '\u{1BFC}', '\u{1C2B}');
    push_range(v, '\u{1C34}', '\u{1C35}');
    push_range(v, '\u{1C3B}', '\u{1C49}');
    assert(rview(v@) =~= o + grapheme_base_chunk_35());
}

fn push_grapheme_base_chunk_36(v: &mut Vec<ClassUnicodeRange>)
    ensures
        rview(final(v)@) == rview(old(v)@) + grapheme_base_chunk_36(),
{
    let ghost o = rview(v@);
    push_range(v, '\u{1C4D}', '\u{1C8A}');
    push_range(v, '\u{1C90}', '\u{1CBA}');
    push_range(v, '\u{1CBD}', '\u{1CC7}');
    push_range(v, '\u{1CD3}', '\u{1CD3}');
    push_range(v, '\u{1CE1}', '\u{1CE1}');
    push_range(v, '\u{1CE9}', '\u{1CEC}');
    push_range(v, '\u{1CEE}', '\u{1CF3}');
    push_range(v, '\u{1CF5}', '\u{1CF7}');
    assert(rview(v@) =~= o + grapheme_base_chunk_36());
}

fn push_grapheme_base_chunk_37(v: &mut Vec<ClassUnicodeRange>)
    ensures
        rview(final(v)@) == rview(old(v)@) + grapheme_base_chunk_37(),
{
    let ghost o = rview(v@);
    push_range(v, '\u{1CFA}', '\u{1CFA}');
    push_range(v, '\u{1D00}', '\u{1DBF}');
    push_range(v, '\u{1E00}', '\u{1F15}');
    push_range(v, '\u{1F18}', '\u{1F1D}');
    push_range(v, '\u{1F20}', '\u{1F45}');
    push_range(v, '\u{1F48}', '\u{1F4D}');
    push_range(v, '\u{1F50}', '\u{1F57}');
    push_range(v, '\u{1F59}', '\u{1F59}');
    assert(rview(v@) =~= o + grapheme_base_chunk_37());
}

fn push_grapheme_base_chunk_38(v: &mut Vec<ClassUnicodeRange>)
    ensures
        rview(final(v)@) == rview(old(v)@) + grapheme_base_chunk_38(),
{
    let ghost o = rview(v@);
    push_range(v, '\u{1F5B}', '\u{1F5B}');
    push_range(v, '\u{1F5D}', '\u{1F5D}');
    push_range(v, '\u{1F5F}', '\u{1F7D}');
    push_range(v, '\u{1F80}', '\u{1FB4}');
    push_range(v, '\u{1FB6}', '\u{1FC4}');
    push_range(v, '\u{1FC6}', '\u{1FD3}');
    push_range(v, '\u{1FD6}', '\u{1FDB}');
    push_range(v, '\u{1FDD}', '\u{1FEF}');
    assert(rview(v@) =~= o + grapheme_base_chunk_38());
}

fn push_grapheme_base_chunk_39(v: &mut Vec<ClassUnicodeRange>)
    ensures
        rview(final(v)@) == rview(old(v)@) + grapheme_base_chunk_39(),
{
    let ghost o = rview(v@);
    push_range(v, '\u{1FF2}', '\u{1FF4}');
    push_range(v, '\u{1FF6}', '\u{1FFE}');
    push_range(v, '\u{2000}', '\u{200A}');
    push_range(v, '\u{2010}', '\u{2027}');
    push_range(v, '\u{202F}', '\u{205F}');
    push_range(v, '\u{2070}', '\u{2071}');
    push_range(v, '\u{2074}', '\u{208E}');
    push_range(v, '\u{2090}', '\u{209C}');
    assert(rview(v@) =~= o + grapheme_base_chunk_39());
}

fn push_grapheme_base_chunk_40(v: &mut Vec<ClassUnicodeRange>)
    ensures
        rview(final(v)@) == rview(old(v)@) + grapheme_base_chunk_40(),
{
    let ghost o = rview(v@);
    push_range(v, '\u{20A0}', '\u{20C0}');
    push_range(v, '\u{2100}', '\u{218B}');
    push_range(v, '\u{2190}', '\u{2429}');
    push_range(v, '\u{2440}', '\u{244A}');
    push_range(v, '\u{2460}', '\u{2B73}');
    push_range(v, '\u{2B76}', '\u{2B95}');
    push_range(v, '\u{2B97}', '\u{2CEE}');
    push_range(v, '\u{2CF2}', '\u{2CF3}');
    assert(rview(v@) =~= o + grapheme_base_chunk_40());
}

fn push_grapheme_base_chunk_41(v: &mut Vec<ClassUnicodeRange>)
    ensures
        rview(final(v)@) == rview(old(v)@) + grapheme_base_chunk_41(),
{
    let ghost o = rview(v@);
    push_range(v, '\u{2CF9}', '\u{2D25}');
    push_range(v, '\u{2D27}', '\u{2D27}');
    push_range(v, '\u{2D2D}', '\u{2D2D}');
    push_range(v, '\u{2D30}', '\u{2D67}');
    push_range(v, '\u{2D6F}', '\u{2D70}');
    push_range(v, '\u{2D80}', '\u{2D96}');
    push_range(v, '\u{2DA0}', '\u{2DA6}');
    push_range(v, '\u{2DA8}', '\u{2DAE}');
    assert(rview(v@) =~= o + grapheme_base_chunk_41());
}

fn push_grapheme_base_chunk_42(v: &mut Vec<ClassUnicodeRange>)
    ensures
        rview(final(v)@) == rview(old(v)@) + grapheme_base_chunk_42(),
{
    let ghost o = rview(v@);
    push_range(v, '\u{2DB0}', '\u{2DB6}');
    push_range(v, '\u{2DB8}', '\u{2DBE}');
    push_range(v, '\u{2DC0}', '\u{2DC6}');
    push_range(v, '\u{2DC8}', '\u{2DCE}');
    push_range(v, '\u{2DD0}', '\u{2DD6}');
    push_range(v, '\u{2DD8}', '\u{2DDE}');
    push_range(v, '\u{2E00}', '\u{2E5D}');
    push_range(v, '\u{2E80}', '\u{2E99}');
    assert(rview(v@) =~= o + grapheme_base_chunk_42());
}

fn push_grapheme_base_chunk_43(v: &mut Vec<ClassUnicodeRange>)
    ensures
        rview(final(v)@) == rview(old(v)@) + grapheme_base_chunk_43(),
{
    let ghost o = rview(v@);
    push_range(v, '\u{2E9B}', '\u{2EF3}');
    push_range(v, '\u{2F00}', '\u{2FD5}');
    push_range(v, '\u{2FF0}', '\u{3029}');
    push_range(v, '\u{3030}', '\u{303F}');
    push_range(v, '\u{3041}', '\u{3096}');
    push_range(v, '\u{309B}', '\u{30FF}');
    push_range(v, '\u{3105}', '\u{312F}');
    push_range(v, '\u{3131}', '\u{318E}');
    assert(rview(v@) =~= o + grapheme_base_chunk_43());
}

fn push_grapheme_base_chunk_44(v: &mut Vec<ClassUnicodeRange>)
    ensures
        rview(final(v)@) == rview(old(v)@) + grapheme_base_chunk_44(),
{
    let ghost o = rview(v@);
    push_range(v, '\u{3190}', '\u{31E5}');
    push_range(v, '\u{31EF}', '\u{321E}');
    push_range(v, '\u{3220}', '\u{A48C}');
    push_range(v, '\u{A490}', '\u{A4C6}');
    push_range(v, '\u{A4D0}', '\u{A62B}');
    push_range(v, '\u{A640}', '\u{A66E}');
    push_range(v, '\u{A673}', '\u{A673}');
    push_range(v, '\u{A67E}', '\u{A69D}');
    assert(rview(v@) =~= o + grapheme_base_chunk_44());
}

fn push_grapheme_base_chunk_45(v: &mut Vec<ClassUnicodeRange>)
    ensures
        rview(final(v)@) == rview(old(v)@) + grapheme_base_chunk_45(),
{
    let ghost o = rview(v@);
    push_range(v, '\u{A6A0}', '\u{A6EF}');
    push_range(v, '\u{A6F2}', '\u{A6F7}');
    push_range(v, '\u{A700}', '\u{A7CD}');
    push_range(v, '\u{A7D0}', '\u{A7D1}');
    push_range(v, '\u{A7D3}', '\u{A7D3}');
    push_range(v, '\u{A7D5}', '\u{A7DC}');
    push_range(v, '\u{A7F2}', '\u{A801}');
    push_range(v, '\u{A803}', '\u{A805}');
    assert(rview(v@) =~= o + grapheme_base_chunk_45());
}

fn push_grapheme_base_chunk_46(v: &mut Vec<ClassUnicodeRange>)
    ensures
        rview(final(v)@) == rview(old(v)@) + grapheme_base_chunk_46(),
{
    let ghost o = rview(v@);
    push_range(v, '\u{A807}', '\u{A80A}');
    push_range(v, '\u{A80C}', '\u{A824}');
    push_range(v, '\u{A827}', '\u{A82B}');
    push_range(v, '\u{A830}', '\u{A839}');
    push_range(v, '\u{A840}', '\u{A877}');
    push_range(v, '\u{A880}', '\u{A8C3}');
    push_range(v, '\u{A8CE}', '\u{A8D9}');
    push_range(v, '\u{A8F2}', '\u{A8FE}');
    assert(rview(v@) =~= o + grapheme_base_chunk_46());
}

fn push_grapheme_base_chunk_47(v: &mut Vec<ClassUnicodeRange>)
    ensures
        rview(final(v)@) == rview(old(v)@) + grapheme_base_chunk_47(),
{
    let ghost o = rview(v@);
    push_range(v, '\u{A900}', '\u{A925}');
    push_range(v, '\u{A92E}', '\u{A946}');
    push_range(v, '\u{A952}', '\u{A952}');
    push_range(v, '\u{A95F}', '\u{A97C}');
    push_range(v, '\u{A983}', '\u{A9B2}');
    push_range(v, '\u{A9B4}', '\u{A9B5}');
    push_range(v, '\u{A9BA}', '\u{A9BB}');
    push_range(v, '\u{A9BE}', '\u{A9BF}');
    assert(rview(v@) =~= o + grapheme_base_chunk_47());
}

fn push_grapheme_base_chunk_48(v: &mut Vec<ClassUnicodeRange>)
    ensures
        rview(final(v)@) == rview(old(v)@) + grapheme_base_chunk_48(),
{
    let ghost o = rview(v@);
    push_range(v, '\u{A9C1}', '\u{A9CD}');
    push_range(v, '\u{A9CF}', '\u{A9D9}');
    push_range(v, '\u{A9DE}', '\u{A9E4}');
    push_range(v, '\u{A9E6}', '\u{A9FE}');
    push_range(v, '\u{AA00}', '\u{AA28}');
    push_range(v, '\u{AA2F}', '\u{AA30}');
    push_range(v, '\u{AA33}', '\u{AA34}');
    push_range(v, '\u{AA40}', '\u{AA42}');
    assert(rview(v@) =~= o + grapheme_base_chunk_48());
}

fn push_grapheme_base_chunk_49(v: &mut Vec<ClassUnicodeRange>)
    ensures
        rview(final(v)@) == rview(old(v)@) + grapheme_base_chunk_49(),
{
    let ghost o = rview(v@);
    push_range(v, '\u{AA44}', '\u{AA4B}');
    push_range(v, '\u{AA4D}', '\u{AA4D}');
    push_range(v, '\u{AA50}', '\u{AA59}');
    push_range(v, '\u{AA5C}', '\u{AA7B}');
    push_range(v, '\u{AA7D}', '\u{AAAF}');
    push_range(v, '\u{AAB1}', '\u{AAB1}');
    push_range(v, '\u{AAB5}', '\u{AAB6}');
    push_range(v, '\u{AAB9}', '\u{AABD}');
    assert(rview(v@) =~= o + grapheme_base_chunk_49());
}

fn push_grapheme_base_chunk_50(v: &mut Vec<ClassUnicodeRange>)
    ensures
        rview(final(v)@) == rview(old(v)@) + grapheme_base_chunk_50(),
{
    let ghost o = rview(v@);
    push_range(v, '\u{AAC0}', '\u{AAC0}');
    push_range(v, '\u{AAC2}', '\u{AAC2}');
    push_range(v, '\u{AADB}', '\u{AAEB}');
    push_range(v, '\u{AAEE}', '\u{AAF5}');
    push_range(v, '\u{AB01}', '\u{AB06}');
    push_range(v, '\u{AB09}', '\u{AB0E}');
    push_range(v, '\u{AB11}', '\u{AB16}');
    push_range(v, '\u{AB20}', '\u{AB26}');
    assert(rview(v@) =~= o + grapheme_base_chunk_50());
}

fn push_grapheme_base_chunk_51(v: &mut Vec<ClassUnicodeRange>)
    ensures
        rview(final(v)@) == rview(old(v)@) + grapheme_base_chunk_51(),
{
    let ghost o = rview(v@);
    push_range(v, '\u{AB28}', '\u{AB2E}');
    push_range(v, '\u{AB30}', '\u{AB6B}');
    push_range(v, '\u{AB70}', '\u{ABE4}');
    push_range(v, '\u{ABE6}', '\u{ABE7}');
    push_range(v, '\u{ABE9}', '\u{ABEC}');
    push_range(v, '\u{ABF0}', '\u{ABF9}');
    push_range(v, '\u{AC00}', '\u{D7A3}');
    push_range(v, '\u{D7B0}', '\u{D7C6}');
    assert(rview(v@) =~= o + grapheme_base_chunk_51());
}

fn push_grapheme_base_chunk_52(v: &mut Vec<ClassUnicodeRange>)
    ensures
        rview(final(v)@) == rview(old(v)@) + grapheme_base_chunk_52(),
{
    let ghost o = rview(v@);
    push_range(v, '\u{D7CB}', '\u{D7FB}');
    push_range(v, '\u{F900}', '\u{FA6D}');
    push_range(v, '\u{FA70}', '\u{FAD9}');
    push_range(v, '\u{FB00}', '\u{FB06}');
    push_range(v, '\u{FB13}', '\u{FB17}');
    push_range(v, '\u{FB1D}', '\u{FB1D}');
    push_range(v, '\u{FB1F}', '\u{FB36}');
    push_range(v, '\u{FB38}', '\u{FB3C}');
    assert(rview(v@) =~= o + grapheme_base_chunk_52());
}

fn push_grapheme_base_chunk_53(v: &mut Vec<ClassUnicodeRange>)
    ensures
        rview(final(v)@) == rview(old(v)@) + grapheme_base_chunk_53(),
{
    let ghost o = rview(v@);
    push_range(v, '\u{FB3E}', '\u{FB3E}');
    push_range(v, '\u{FB40}', '\u{FB41}');
    push_range(v, '\u{FB43}', '\u{FB44}');
    push_range(v, '\u{FB46}', '\u{FBC2}');
    push_range(v, '\u{FBD3}', '\u{FD8F}');
    push_range(v, '\u{FD92}', '\u{FDC7}');
    push_range(v, '\u{FDCF}', '\u{FDCF}');
    push_range(v, '\u{FDF0}', '\u{FDFF}');
    assert(rview(v@) =~= o + grapheme_base_chunk_53());
}

fn push_grapheme_base_chunk_54(v: &mut Vec<ClassUnicodeRange>)
    ensures
        rview(final(v)@) == rview(old(v)@) + grapheme_base_chunk_54(),
{
    let ghost o = rview(v@);
    push_range(v, '\u{FE10}', '\u{FE19}');
    push_range(v, '\u{FE30}', '\u{FE52}');
    push_range(v, '\u{FE54}', '\u{FE66}');
    push_range(v, '\u{FE68}', '\u{FE6B}');
    push_range(v, '\u{FE70}', '\u{FE74}');
    push_range(v, '\u{FE76}', '\u{FEFC}');
    push_range(v, '\u{FF01}', '\u{FF9D}');
    push_range(v, '\u{FFA0}', '\u{FFBE}');
    assert(rview(v@) =~= o + grapheme_base_chunk_54());
}

fn push_grapheme_base_chunk_55(v: &mut Vec<ClassUnicodeRange>)
    ensures
        rview(final(v)@) == rview(old(v)@) + grapheme_base_chunk_55(),
{
    let ghost o = rview(v@);
    push_range(v, '\u{FFC2}', '\u{FFC7}');
    push_range(v, '\u{FFCA}', '\u{FFCF}');
    push_range(v, '\u{FFD2}', '\u{FFD7}');
    push_range(v, '\u{FFDA}', '\u{FFDC}');
    push_range(v, '\u{FFE0}', '\u{FFE6}');
    push_range(v, '\u{FFE8}', '\u{FFEE}');
    push_range(v, '\u{FFFC}', '\u{FFFD}');
    push_range(v, '\u{10000}', '\u{1000B}');
    assert(rview(v@) =~= o + grapheme_base_chunk_55());
}

fn push_grapheme_base_chunk_56(v: &mut Vec<ClassUnicodeRange>)
    ensures
        rview(final(v)@) == rview(old(v)@) + grapheme_base_chunk_56(),
{
    let ghost o = rview(v@);
    push_range(v, '\u{1000D}', '\u{10026}');
    push_range(v, '\u{10028}', '\u{1003A}');
    push_range(v, '\u{1003C}', '\u{1003D}');
    push_range(v, '\u{1003F}', '\u{1004D}');
    push_range(v, '\u{10050}', '\u{1005D}');
    push_range(v, '\u{10080}', '\u{100FA}');
    push_range(v, '\u{10100}', '\u{10102}');
    push_range(v, '\u{10107}', '\u{10133}');
    assert(rview(v@) =~= o + grapheme_base_chunk_56());
}

fn push_grapheme_base_chunk_57(v: &mut Vec<ClassUnicodeRange>)
    ensures
        rview(final(v)@) == rview(old(v)@) + grapheme_base_chunk_57(),
{
    let ghost o = rview(v@);
    push_range(v, '\u{10137}', '\u{1018E}');
    push_range(v, '\u{10190}', '\u{1019C}');
    push_range(v, '\u{101A0}', '\u{101A0}');
    push_range(v, '\u{101D0}', '\u{101FC}');
    push_range(v, '\u{10280}', '\u{1029C}');
    push_range(v, '\u{102A0}', '\u{102D0}');
    push_range(v, '\u{102E1}', '\u{102FB}');
    push_range(v, '\u{10300}', '\u{10323}');
    assert(rview(v@) =~= o + grapheme_base_chunk_57());
}

fn push_grapheme_base_chunk_58(v: &mut Vec<ClassUnicodeRange>)
    ensures
        rview(final(v)@) == rview(old(v)@) + grapheme_base_chunk_58(),
{
    let ghost o = rview(v@);
    push_range(v, '\u{1032D}', '\u{1034A}');
    push_range(v, '\u{10350}', '\u{10375}');
    push_range(v, '\u{10380}', '\u{1039D}');
    push_range(v, '\u{1039F}', '\u{103C3}');
    push_range(v, '\u{103C8}', '\u{103D5}');
    push_range(v, '\u{10400}', '\u{1049D}');
    push_range(v, '\u{104A0}', '\u{104A9}');
    push_range(v, '\u{104B0}', '\u{104D3}');
    assert(rview(v@) =~= o + grapheme_base_chunk_58());
}

fn push_grapheme_base_chunk_59(v: &mut Vec<ClassUnicodeRange>)
    ensures
        rview(final(v)@) == rview(old(v)@) + grapheme_base_chunk_59(),
{
    let ghost o = rview(v@);
    push_range(v, '\u{104D8}', '\u{104FB}');
    push_range(v, '\u{10500}', '\u{10527}');
    push_range(v, '\u{10530}', '\u{10563}');
    push_range(v, '\u{1056F}', '\u{1057A}');
    push_range(v, '\u{1057C}', '\u{1058A}');
    push_range(v, '\u{1058C}', '\u{10592}');
    push_range(v, '\u{10594}', '\u{10595}');
    push_range(v, '\u{10597}', '\u{105A1}');
    assert(rview(v@) =~= o + grapheme_base_chunk_59());
}

fn push_grapheme_base_chunk_60(v: &mut Vec<ClassUnicodeRange>)
    ensures
        rview(final(v)@) == rview(old(v)@) + grapheme_base_chunk_60(),
{
    let ghost o = rview(v@);
    push_range(v, '\u{105A3}', '\u{105B1}');
    push_range(v, '\u{105B3}', '\u{105B9}');
    push_range(v, '\u{105BB}', '\u{105BC}');
    push_range(v, '\u{105C0}', '\u{105F3}');
    push_range(v, '\u{10600}', '\u{10736}');
    push_range(v, '\u{10740}', '\u{10755}');
    push_range(v, '\u{10760}', '\u{10767}');
    push_range(v, '\u{10780}', '\u{10785}');
    assert(rview(v@) =~= o + grapheme_base_chunk_60());
}

fn push_grapheme_base_chunk_61(v: &mut Vec<ClassUnicodeRange>)
    ensures
        rview(final(v)@) == rview(old(v)@) + grapheme_base_chunk_61(),
{
    let ghost o = rview(v@);
    push_range(v, '\u{10787}', '\u{107B0}');
    push_range(v, '\u{107B2}', '\u{107BA}');
    push_range(v, '\u{10800}', '\u{10805}');
    push_range(v, '\u{10808}', '\u{10808}');
    push_range(v, '\u{1080A}', '\u{10835}');
    push_range(v, '\u{10837}', '\u{10838}');
    push_range(v, '\u{1083C}', '\u{1083C}');
    push_range(v, '\u{1083F}', '\u{10855}');
    assert(rview(v@) =~= o + grapheme_base_chunk_61());
}

fn push_grapheme_base_chunk_62(v: &mut Vec<ClassUnicodeRange>)
    ensures
        rview(final(v)@) == rview(old(v)@) + grapheme_base_chunk_62(),
{
    let ghost o = rview(v@);
    push_range(v, '\u{10857}', '\u{1089E}');
    push_range(v, '\u{108A7}', '\u{108AF}');
    push_range(v, '\u{108E0}', '\u{108F2}');
    push_range(v, '\u{108F4}', '\u{108F5}');
    push_range(v, '\u{108FB}', '\u{1091B}');
    push_range(v, '\u{1091F}', '\u{10939}');
    push_range(v, '\u{1093F}', '\u{1093F}');
    push_range(v, '\u{10980}', '\u{109B7}');
    assert(rview(v@) =~= o + grapheme_base_chunk_62());
}

fn push_grapheme_base_chunk_63(v: &mut Vec<ClassUnicodeRange>)
    ensures
        rview(final(v)@) == rview(old(v)@) + grapheme_base_chunk_63(),
{
    let ghost o = rview(v@);
    push_range(v, '\u{109BC}', '\u{109CF}');
    push_range(v, '\u{109D2}', '\u{10A00}');
    push_range(v, '\u{10A10}', '\u{10A13}');
    push_range(v, '\u{10A15}', '\u{10A17}');
    push_range(v, '\u{10A19}', '\u{10A35}');
    push_range(v, '\u{10A40}', '\u{10A48}');
    push_range(v, '\u{10A50}', '\u{10A58}');
    push_range(v, '\u{10A60}', '\u{10A9F}');
    assert(rview(v@) =~= o + grapheme_base_chunk_63());
}

fn push_grapheme_base_chunk_64(v: &mut Vec<ClassUnicodeRange>)
    ensures
        rview(final(v)@) == rview(old(v)@) + grapheme_base_chunk_64(),
{
    let ghost o = rview(v@);
    push_range(v, '\u{10AC0}', '\u{10AE4}');
    push_range(v, '\u{10AEB}', '\u{10AF6}');
    push_range(v, '\u{10B00}', '\u{10B35}');
    push_range(v, '\u{10B39}', '\u{10B55}');
    push_range(v, '\u{10B58}', '\u{10B72}');
    push_range(v, '\u{10B78}', '\u{10B91}');
    push_range(v, '\u{10B99}', '\u{10B9C}');
    push_range(v, '\u{10BA9}', '\u{10BAF}');
    assert(rview(v@) =~= o + grapheme_base_chunk_64());
}

fn push_grapheme_base_chunk_65(v: &mut Vec<ClassUnicodeRange>)
    ensures
        rview(final(v)@) == rview(old(v)@) + grapheme_base_chunk_65(),
{
    let ghost o = rview(v@);
    push_range(v, '\u{10C00}', '\u{10C48}');
    push_range(v, '\u{10C80}', '\u{10CB2}');
    push_range(v, '\u{10CC0}', '\u{10CF2}');
    push_range(v, '\u{10CFA}', '\u{10D23}');
    push_range(v, '\u{10D30}', '\u{10D39}');
    push_range(v, '\u{10D40}', '\u{10D65}');
    push_range(v, '\u{10D6E}', '\u{10D85}');
    push_range(v, '\u{10D8E}', '\u{10D8F}');
    assert(rview(v@) =~= o + grapheme_base_chunk_65());
}

fn push_grapheme_base_chunk_66(v: &mut Vec<ClassUnicodeRange>)
    ensures
        rview(final(v)@) == rview(old(v)@) + grapheme_base_chunk_66(),
{
    let ghost o = rview(v@);
    push_range(v, '\u{10E60}', '\u{10E7E}');
    push_range(v, '\u{10E80}', '\u{10EA9}');
    push_range(v, '\u{10EAD}', '\u{10EAD}');
    push_range(v, '\u{10EB0}', '\u{10EB1}');
    push_range(v, '\u{10EC2}', '\u{10EC4}');
    push_range(v, '\u{10F00}', '\u{10F27}');
    push_range(v, '\u{10F30}', '\u{10F45}');
    push_range(v, '\u{10F51}', '\u{10F59}');
    assert(rview(v@) =~= o + grapheme_base_chunk_66());
}

fn push_grapheme_base_chunk_67(v: &mut Vec<ClassUnicodeRange>)
    ensures
        rview(final(v)@) == rview(old(v)@) + grapheme_base_chunk_67(),
{
    let ghost o = rview(v@);
    push_range(v, '\u{10F70}', '\u{10F81}');
    push_range(v, '\u{10F86}', '\u{10F89}');
    push_range(v, '\u{10FB0}', '\u{10FCB}');
    push_range(v, '\u{10FE0}', '\u{10FF6}');
    push_range(v, '\u{11000}', '\u{11000}');
    push_range(v, '\u{11002}', '\u{11037}');
    push_range(v, '\u{11047}', '\u{1104D}');
    push_range(v, '\u{11052}', '\u{1106F}');
    assert(rview(v@) =~= o + grapheme_base_chunk_67());
}

fn push_grapheme_base_chunk_68(v: &mut Vec<ClassUnicodeRange>)
    ensures
        rview(final(v)@) == rview(old(v)@) + grapheme_base_chunk_68(),
{
    let ghost o = rview(v@);
    push_range(v, '\u{11071}', '\u{11072}');
    push_range(v, '\u{11075}', '\u{11075}');
    push_range(v, '\u{11082}', '\u{110B2}');
    push_range(v, '\u{110B7}', '\u{110B8}');
    push_range(v, '\u{110BB}', '\u{110BC}');
    push_range(v, '\u{110BE}', '\u{110C1}');
    push_range(v, '\u{110D0}', '\u{110E8}');
    push_range(v, '\u{110F0}', '\u{110F9}');
    assert(rview(v@) =~= o + grapheme_base_chunk_68());
}

fn push_grapheme_base_chunk_69(v: &mut Vec<ClassUnicodeRange>)
    ensures
        rview(final(v)@) == rview(old(v)@) + grapheme_base_chunk_69(),
{
    let ghost o = rview(v@);
    push_range(v, '\u{11103}', '\u{11126}');
    push_range(v, '\u{1112C}', '\u{1112C}');
    push_range(v, '\u{11136}', '\u{11147}');
    push_range(v, '\u{11150}', '\u{11172}');
    push_range(v, '\u{11174}', '\u{11176}');
    push_range(v, '\u{11182}', '\u{111B5}');
    push_range(v, '\u{111BF}', '\u{111BF}');
    push_range(v, '\u{111C1}', '\u{111C8}');
    assert(rview(v@) =~= o + grapheme_base_chunk_69());
}

fn push_grapheme_base_chunk_70(v: &mut Vec<ClassUnicodeRange>)
    ensures
        rview(final(v)@) == rview(old(v)@) + grapheme_base_chunk_70(),
{
    let ghost o = rview(v@);
    push_range(v, '\u{111CD}', '\u{111CE}');
    push_range(v, '\u{111D0}', '\u{111DF}');
    push_range(v, '\u{111E1}', '\u{111F4}');
    push_range(v, '\u{11200}', '\u{11211}');
    push_range(v, '\u{11213}', '\u{1122E}');
    push_range(v, '\u{11232}', '\u{11233}');
    push_range(v, '\u{11238}', '\u{1123D}');
    push_range(v, '\u{1123F}', '\u{11240}');
    assert(rview(v@) =~= o + grapheme_base_chunk_70());
}

fn push_grapheme_base_chunk_71(v: &mut Vec<ClassUnicodeRange>)
    ensures
        rview(final(v)@) == rview(old(v)@) + grapheme_base_chunk_71(),
{
    let ghost o = rview(v@);
    push_range(v, '\u{11280}', '\u{11286}');
    push_range(v, '\u{11288}', '\u{11288}');
    push_range(v, '\u{1128A}', '\u{1128D}');
    push_range(v, '\u{1128F}', '\u{1129D}');
    push_range(v, '\u{1129F}', '\u{112A9}');
    push_range(v, '\u{112B0}', '\u{112DE}');
    push_range(v, '\u{112E0}', '\u{112E2}');
    push_range(v, '\u{112F0}', '\u{112F9}');
    assert(rview(v@) =~= o + grapheme_base_chunk_71());
}

fn push_grapheme_base_chunk_72(v: &mut Vec<ClassUnicodeRange>)
    ensures
        rview(final(v)@) == rview(old(v)@) + grapheme_base_chunk_72(),
{
    let ghost o = rview(v@);
    push_range(v, '\u{11302}', '\u{11303}');
    push_range(v, '\u{11305}', '\u{1130C}');
    push_range(v, '\u{1130F}', '\u{11310}');
    push_range(v, '\u{11313}', '\u{11328}');
    push_range(v, '\u{1132A}', '\u{11330}');
    push_range(v, '\u{11332}', '\u{11333}');
    push_range(v, '\u{11335}', '\u{11339}');
    push_range(v, '\u{1133D}', '\u{1133D}');
    assert(rview(v@) =~= o + grapheme_base_chunk_72());
}

fn push_grapheme_base_chunk_73(v: &mut Vec<ClassUnicodeRange>)
    ensures
        rview(final(v)@) == rview(old(v)@) + grapheme_base_chunk_73(),
{
    let ghost o = rview(v@);
    push_range(v, '\u{1133F}', '\u{1133F}');
    push_range(v, '\u{11341}', '\u{11344}');
    push_range(v, '\u{11347}', '\u{11348}');
    push_range(v, '\u{1134B}', '\u{1134C}');
    push_range(v, '\u{11350}', '\u{11350}');
    push_range(v, '\u{1135D}', '\u{11363}');
    push_range(v, '\u{11380}', '\u{11389}');
    push_range(v, '\u{1138B}', '\u{1138B}');
    assert(rview(v@) =~= o + grapheme_base_chunk_73());
}

fn push_grapheme_base_chunk_74(v: &mut Vec<ClassUnicodeRange>)
    ensures
        rview(final(v)@) == rview(old(v)@) + grapheme_base_chunk_74(),
{
    let ghost o = rview(v@);
    push_range(v, '\u{1138E}', '\u{1138E}');
    push_range(v, '\u{11390}', '\u{113B5}');
    push_range(v, '\u{113B7}', '\u{113B7}');
    push_range(v, '\u{113B9}', '\u{113BA}');
    push_range(v, '\u{113CA}', '\u{113CA}');
    push_range(v, '\u{113CC}', '\u{113CD}');
    push_range(v, '\u{113D1}', '\u{113D1}');
    push_range(v, '\u{113D3}', '\u{113D5}');
    assert(rview(v@) =~= o + grapheme_base_chunk_74());
}

fn push_grapheme_base_chunk_75(v: &mut Vec<ClassUnicodeRange>)
    ensures
        rview(final(v)@) == rview(old(v)@) + grapheme_base_chunk_75(),
{
    let ghost o = rview(v@);
    push_range(v, '\u{113D7}', '\u{113D8}');
    push_range(v, '\u{11400}', '\u{11437}');
    push_range(v, '\u{11440}', '\u{11441}');
    push_range(v, '\u{11445}', '\u{11445}');
    push_range(v, '\u{11447}', '\u{1145B}');
    push_range(v, '\u{1145D}', '\u{1145D}');
    push_range(v, '\u{1145F}', '\u{11461}');
    push_range(v, '\u{11480}', '\u{114AF}');
    assert(rview(v@) =~= o + grapheme_base_chunk_75());
}

fn push_grapheme_base_chunk_76(v: &mut Vec<ClassUnicodeRange>)
    ensures
        rview(final(v)@) == rview(old(v)@) + grapheme_base_chunk_76(),
{
    let ghost o = rview(v@);
    push_range(v, '\u{114B1}', '\u{114B2}');
    push_range(v, '\u{114B9}', '\u{114B9}');
    push_range(v, '\u{114BB}', '\u{114BC}');
    push_range(v, '\u{114BE}', '\u{114BE}');
    push_range(v, '\u{114C1}', '\u{114C1}');
    push_range(v, '\u{114C4}', '\u{114C7}');
    push_range(v, '\u{114D0}', '\u{114D9}');
    push_range(v, '\u{11580}', '\u{115AE}');
    assert(rview(v@) =~= o + grapheme_base_chunk_76());
}

fn push_grapheme_base_chunk_77(v: &mut Vec<ClassUnicodeRange>)
    ensures
        rview(final(v)@) == rview(old(v)@) + grapheme_base_chunk_77(),
{
    let ghost o = rview(v@);
    push_range(v, '\u{115B0}', '\u{115B1}');
    push_range(v, '\u{115B8}', '\u{115BB}');
    push_range(v, '\u{115BE}', '\u{115BE}');
    push_range(v, '\u{115C1}', '\u{115DB}');
    push_range(v, '\u{11600}', '\u{11632}');
    push_range(v, '\u{1163B}', '\u{1163C}');
    push_range(v, '\u{1163E}', '\u{1163E}');
    push_range(v, '\u{11641}', '\u{11644}');
    assert(rview(v@) =~= o + grapheme_base_chunk_77());
}

fn push_grapheme_base_chunk_78(v: &mut Vec<ClassUnicodeRange>)
    ensures
        rview(final(v)@) == rview(old(v)@) + grapheme_base_chunk_78(),
{
    let ghost o = rview(v@);
    push_range(v, '\u{11650}', '\u{11659}');
    push_range(v, '\u{11660}', '\u{1166C}');
    push_range(v, '\u{11680}', '\u{116AA}');
    push_range(v, '\u{116AC}', '\u{116AC}');
    push_range(v, '\u{116AE}', '\u{116AF}');
    push_range(v, '\u{116B8}', '\u{116B9}');
    push_range(v, '\u{116C0}', '\u{116C9}');
    push_range(v, '\u{116D0}', '\u{116E3}');
    assert(rview(v@) =~= o + grapheme_base_chunk_78());
}

fn push_grapheme_base_chunk_79(v: &mut Vec<ClassUnicodeRange>)
    ensures
        rview(final(v)@) == rview(old(v)@) + grapheme_base_chunk_79(),
{
    let ghost o = rview(v@);
    push_range(v, '\u{11700}', '\u{1171A}');
    push_range(v, '\u{1171E}', '\u{1171E}');
    push_range(v, '\u{11720}', '\u{11721}');
    push_range(v, '\u{11726}', '\u{11726}');
    push_range(v, '\u{11730}', '\u{11746}');
    push_range(v, '\u{11800}', '\u{1182E}');
    push_range(v, '\u{11838}', '\u{11838}');
    push_range(v, '\u{1183B}', '\u{1183B}');
    assert(rview(v@) =~= o + grapheme_base_chunk_79());
}

fn push_grapheme_base_chunk_80(v: &mut Vec<ClassUnicodeRange>)
    ensures
        rview(final(v)@) == rview(old(v)@) + grapheme_base_chunk_80(),
{
    let ghost o = rview(v@);
    push_range(v, '\u{118A0}', '\u{118F2}');
    push_range(v, '\u{118FF}', '\u{11906}');
    push_range(v, '\u{11909}', '\u{11909}');
    push_range(v, '\u{1190C}', '\u{11913}');
    push_range(v, '\u{11915}', '\u{11916}');
    push_range(v, '\u{11918}', '\u{1192F}');
    push_range(v, '\u{11931}', '\u{11935}');
    push_range(v, '\u{11937}', '\u{11938}');
    assert(rview(v@) =~= o + grapheme_base_chunk_80());
}

fn push_grapheme_base_chunk_81(v: &mut Vec<ClassUnicodeRange>)
    ensures
        rview(final(v)@) == rview(old(v)@) + grapheme_base_chunk_81(),
{
    let ghost o = rview(v@);
    push_range(v, '\u{1193F}', '\u{11942}');
    push_range(v, '\u{11944}', '\u{11946}');
    push_range(v, '\u{11950}', '\u{11959}');
    push_range(v, '\u{119A0}', '\u{119A7}');
    push_range(v, '\u{119AA}', '\u{119D3}');
    push_range(v, '\u{119DC}', '\u{119DF}');
    push_range(v, '\u{119E1}', '\u{119E4}');
    push_range(v, '\u{11A00}', '\u{11A00}');
    assert(rview(v@) =~= o + grapheme_base_chunk_81());
}

fn push_grapheme_base_chunk_82(v: &mut Vec<ClassUnicodeRange>)
    ensures
        rview(final(v)@) == rview(old(v)@) + grapheme_base_chunk_82(),
{
    let ghost o = rview(v@);
    push_range(v, '\u{11A0B}', '\u{11A32}');
    push_range(v, '\u{11A39}', '\u{11A3A}');
    push_range(v, '\u{11A3F}', '\u{11A46}');
    push_range(v, '\u{11A50}', '\u{11A50}');
    push_range(v, '\u{11A57}', '\u{11A58}');
    push_range(v, '\u{11A5C}', '\u{11A89}');
    push_range(v, '\u{11A97}', '\u{11A97}');
    push_range(v, '\u{11A9A}', '\u{11AA2}');
    assert(rview(v@) =~= o + grapheme_base_chunk_82());
}

fn push_grapheme_base_chunk_83(v: &mut Vec<ClassUnicodeRange>)
    ensures
        rview(final(v)@) == rview(old(v)@) + grapheme_base_chunk_83(),
{
    let ghost o = rview(v@);
    push_range(v, '\u{11AB0}', '\u{11AF8}');
    push_range(v, '\u{11B00}', '\u{11B09}');
    push_range(v, '\u{11BC0}', '\u{11BE1}');
    push_range(v, '\u{11BF0}', '\u{11BF9}');
    push_range(v, '\u{11C00}', '\u{11C08}');
    push_range(v, '\u{11C0A}', '\u{11C2F}');
    push_range(v, '\u{11C3E}', '\u{11C3E}');
    push_range(v, '\u{11C40}', '\u{11C45}');
    assert(rview(v@) =~= o + grapheme_base_chunk_83());
}

fn push_grapheme_base_chunk_84(v: &mut Vec<ClassUnicodeRange>)
    ensures
        rview(final(v)@) == rview(old(v)@) + grapheme_base_chunk_84(),
{
    let ghost o = rview(v@);
    push_range(v, '\u{11C50}', '\u{11C6C}');
    push_range(v, '\u{11C70}', '\u{11C8F}');
    push_range(v, '\u{11CA9}', '\u{11CA9}');
    push_range(v, '\u{11CB1}', '\u{11CB1}');
    push_range(v, '\u{11CB4}', '\u{11CB4}');
    push_range(v, '\u{11D00}', '\u{11D06}');
    push_range(v, '\u{11D08}', '\u{11D09}');
    push_range(v, '\u{11D0B}', '\u{11D30}');
    assert(rview(v@) =~= o + grapheme_base_chunk_84());
}

fn push_grapheme_base_chunk_85(v: &mut Vec<ClassUnicodeRange>)
    ensures
        rview(final(v)@) == rview(old(v)@) + grapheme_base_chunk_85(),
{
    let ghost o = rview(v@);
    push_range(v, '\u{11D46}', '\u{11D46}');
    push_range(v, '\u{11D50}', '\u{11D59}');
    push_range(v, '\u{11D60}', '\u{11D65}');
    push_range(v, '\u{11D67}', '\u{11D68}');
    push_range(v, '\u{11D6A}', '\u{11D8E}');
    push_range(v, '\u{11D93}', '\u{11D94}');
    push_range(v, '\u{11D96}', '\u{11D96}');
    push_range(v, '\u{11D98}', '\u{11D98}');
    assert(rview(v@) =~= o + grapheme_base_chunk_85());
}

fn push_grapheme_base_chunk_86(v: &mut Vec<ClassUnicodeRange>)
    ensures
        rview(final(v)@) == rview(old(v)@) + grapheme_base_chunk_86(),
{
    let ghost o = rview(v@);
    push_range(v, '\u{11DA0}', '\u{11DA9}');
    push_range(v, '\u{11EE0}', '\u{11EF2}');
    push_range(v, '\u{11EF5}', '\u{11EF8}');
    push_range(v, '\u{11F02}', '\u{11F10}');
    push_range(v, '\u{11F12}', '\u{11F35}');
    push_range(v, '\u{11F3E}', '\u{11F3F}');
    push_range(v, '\u{11F43}', '\u{11F59}');
    push_range(v, '\u{11FB0}', '\u{11FB0}');
    assert(rview(v@) =~= o + grapheme_base_chunk_86());
}

fn push_grapheme_base_chunk_87(v: &mut Vec<ClassUnicodeRange>)
    ensures
        rview(final(v)@) == rview(old(v)@) + grapheme_base_chunk_87(),
{
    let ghost o = rview(v@);
    push_range(v, '\u{11FC0}', '\u{11FF1}');
    push_range(v, '\u{11FFF}', '\u{12399}');
    push_range(v, '\u{12400}', '\u{1246E}');
    push_range(v, '\u{12470}', '\u{12474}');
    push_range(v, '\u{12480}', '\u{12543}');
    push_range(v, '\u{12F90}', '\u{12FF2}');
    push_range(v, '\u{13000}', '\u{1342F}');
    push_range(v, '\u{13441}', '\u{13446}');
    assert(rview(v@) =~= o + grapheme_base_chunk_87());
}

fn push_grapheme_base_chunk_88(v: &mut Vec<ClassUnicodeRange>)
    ensures
        rview(final(v)@) == rview(old(v)@) + grapheme_base_chunk_88(),
{
    let ghost o = rview(v@);
    push_range(v, '\u{13460}', '\u{143FA}');
    push_range(v, '\u{14400}', '\u{14646}');
    push_range(v, '\u{16100}', '\u{1611D}');
    push_range(v, '\u{1612A}', '\u{1612C}');
    push_range(v, '\u{16130}', '\u{16139}');
    push_range(v, '\u{16800}', '\u{16A38}');
    push_range(v, '\u{16A40}', '\u{16A5E}');
    push_range(v, '\u{16A60}', '\u{16A69}');
    assert(rview(v@) =~= o + grapheme_base_chunk_88());
}

fn push_grapheme_base_chunk_89(v: &mut Vec<ClassUnicodeRange>)
    ensures
        rview(final(v)@) == rview(old(v)@) + grapheme_base_chunk_89(),
{
    let ghost o = rview(v@);
    push_range(v, '\u{16A6E}', '\u{16ABE}');
    push_range(v, '\u{16AC0}', '\u{16AC9}');
    push_range(v, '\u{16AD0}', '\u{16AED}');
    push_range(v, '\u{16AF5}', '\u{16AF5}');
    push_range(v, '\u{16B00}', '\u{16B2F}');
    push_range(v, '\u{16B37}', '\u{16B45}');
    push_range(v, '\u{16B50}', '\u{16B59}');
    push_range(v, '\u{16B5B}', '\u{16B61}');
    assert(rview(v@) =~= o + grapheme_base_chunk_89());
}

fn push_grapheme_base_chunk_90(v: &mut Vec<ClassUnicodeRange>)
    ensures
        rview(final(v)@) == rview(old(v)@) + grapheme_base_chunk_90(),
{
    let ghost o = rview(v@);
    push_range(v, '\u{16B63}', '\u{16B77}');
    push_range(v, '\u{16B7D}', '\u{16B8F}');
    push_range(v, '\u{16D40}', '\u{16D79}');
    push_range(v, '\u{16E40}', '\u{16E9A}');
    push_range(v, '\u{16F00}', '\u{16F4A}');
    push_range(v, '\u{16F50}', '\u{16F87}');
    push_range(v, '\u{16F93}', '\u{16F9F}');
    push_range(v, '\u{16FE0}', '\u{16FE3}');
    assert(rview(v@) =~= o + grapheme_base_chunk_90());
}

fn push_grapheme_base_chunk_91(v: &mut Vec<ClassUnicodeRange>)
    ensures
        rview(final(v)@) == rview(old(v)@) + grapheme_base_chunk_91(),
{
    let ghost o = rview(v@);
    push_range(v, '\u{17000}', '\u{187F7}');
    push_range(v, '\u{18800}', '\u{18CD5}');
    push_range(v, '\u{18CFF}', '\u{18D08}');
    push_range(v, '\u{1AFF0}', '\u{1AFF3}');
    push_range(v, '\u{1AFF5}', '\u{1AFFB}');
    push_range(v, '\u{1AFFD}', '\u{1AFFE}');
    push_range(v, '\u{1B000}', '\u{1B122}');
    push_range(v, '\u{1B132}', '\u{1B132}');
    assert(rview(v@) =~= o + grapheme_base_chunk_91());
}

fn push_grapheme_base_chunk_92(v: &mut Vec<ClassUnicodeRange>)
    ensures
        rview(final(v)@) == rview(old(v)@) + grapheme_base_chunk_92(),
{
    let ghost o = rview(v@);
    push_range(v, '\u{1B150}', '\u{1B152}');
    push_range(v, '\u{1B155}', '\u{1B155}');
    push_range(v, '\u{1B164}', '\u{1B167}');
    push_range(v, '\u{1B170}', '\u{1B2FB}');
    push_range(v, '\u{1BC00}', '\u{1BC6A}');
    push_range(v, '\u{1BC70}', '\u{1BC7C}');
    push_range(v, '\u{1BC80}', '\u{1BC88}');
    push_range(v, '\u{1BC90}', '\u{1BC99}');
    assert(rview(v@) =~= o + grapheme_base_chunk_92());
}

fn push_grapheme_base_chunk_93(v: &mut Vec<ClassUnicodeRange>)
    ensures
        rview(final(v)@) == rview(old(v)@) + grapheme_base_chunk_93(),
{
    let ghost o = rview(v@);
    push_range(v, '\u{1BC9C}', '\u{1BC9C}');
    push_range(v, '\u{1BC9F}', '\u{1BC9F}');
    push_range(v, '\u{1CC00}', '\u{1CCF9}');
    push_range(v, '\u{1CD00}', '\u{1CEB3}');
    push_range(v, '\u{1CF50}', '\u{1CFC3}');
    push_range(v, '\u{1D000}', '\u{1D0F5}');
    push_range(v, '\u{1D100}', '\u{1D126}');
    push_range(v, '\u{1D129}', '\u{1D164}');
    assert(rview(v@) =~= o + grapheme_base_chunk_93());
}

fn push_grapheme_base_chunk_94(v: &mut Vec<ClassUnicodeRange>)
    ensures
        rview(final(v)@) == rview(old(v)@) + grapheme_base_chunk_94(),
{
    let ghost o = rview(v@);
    push_range(v, '\u{1D16A}', '\u{1D16C}');
    push_range(v, '\u{1D183}', '\u{1D184}');
    push_range(v, '\u{1D18C}', '\u{1D1A9}');
    push_range(v, '\u{1D1AE}', '\u{1D1EA}');
    push_range(v, '\u{1D200}', '\u{1D241}');
    push_range(v, '\u{1D245}', '\u{1D245}');
    push_range(v, '\u{1D2C0}', '\u{1D2D3}');
    push_range(v, '\u{1D2E0}', '\u{1D2F3}');
    assert(rview(v@) =~= o + grapheme_base_chunk_94());
}

fn push_grapheme_base_chunk_95(v: &mut Vec<ClassUnicodeRange>)
    ensures
        rview(final(v)@) == rview(old(v)@) + grapheme_base_chunk_95(),
{
    let ghost o = rview(v@);
    push_range(v, '\u{1D300}', '\u{1D356}');
    push_range(v, '\u{1D360}', '\u{1D378}');
    push_range(v, '\u{1D400}', '\u{1D454}');
    push_range(v, '\u{1D456}', '\u{1D49C}');
    push_range(v, '\u{1D49E}', '\u{1D49F}');
    push_range(v, '\u{1D4A2}', '\u{1D4A2}');
    push_range(v, '\u{1D4A5}', '\u{1D4A6}');
    push_range(v, '\u{1D4A9}', '\u{1D4AC}');
    assert(rview(v@) =~= o + grapheme_base_chunk_95());
}

fn push_grapheme_base_chunk_96(v: &mut Vec<ClassUnicodeRange>)
    ensures
        rview(final(v)@) == rview(old(v)@) + grapheme_base_chunk_96(),
{
    let ghost o = rview(v@);
    push_range(v, '\u{1D4AE}', '\u{1D4B9}');
    push_range(v, '\u{1D4BB}', '\u{1D4BB}');
    push_range(v, '\u{1D4BD}', '\u{1D4C3}');
    push_range(v, '\u{1D4C5}', '\u{1D505}');
    push_range(v, '\u{1D507}', '\u{1D50A}');
    push_range(v, '\u{1D50D}', '\u{1D514}');
    push_range(v, '\u{1D516}', '\u{1D51C}');
    push_range(v, '\u{1D51E}', '\u{1D539}');
    assert(rview(v@) =~= o + grapheme_base_chunk_96());
}

fn push_grapheme_base_chunk_97(v: &mut Vec<ClassUnicodeRange>)
    ensures
        rview(final(v)@) == rview(old(v)@) + grapheme_base_chunk_97(),
{
    let ghost o = rview(v@);
    push_range(v, '\u{1D53B}', '\u{1D53E}');
    push_range(v, '\u{1D540}', '\u{1D544}');
    push_range(v, '\u{1D546}', '\u{1D546}');
    push_range(v, '\u{1D54A}', '\u{1D550}');
    push_range(v, '\u{1D552}', '\u{1D6A5}');
    push_range(v, '\u{1D6A8}', '\u{1D7CB}');
    push_range(v, '\u{1D7CE}', '\u{1D9FF}');
    push_range(v, '\u{1DA37}', '\u{1DA3A}');
    assert(rview(v@) =~= o + grapheme_base_chunk_97());
}

fn push_grapheme_base_chunk_98(v: &mut Vec<ClassUnicodeRange>)
    ensures
        rview(final(v)@) == rview(old(v)@) + grapheme_base_chunk_98(),
{
    let ghost o = rview(v@);
    push_range(v, '\u{1DA6D}', '\u{1DA74}');
    push_range(v, '\u{1DA76}', '\u{1DA83}');
    push_range(v, '\u{1DA85}', '\u{1DA8B}');
    push_range(v, '\u{1DF00}', '\u{1DF1E}');
    push_range(v, '\u{1DF25}', '\u{1DF2A}');
    push_range(v, '\u{1E030}', '\u{1E06D}');
    push_range(v, '\u{1E100}', '\u{1E12C}');
    push_range(v, '\u{1E137}', '\u{1E13D}');
    assert(rview(v@) =~= o + grapheme_base_chunk_98());
}

fn push_grapheme_base_chunk_99(v: &mut Vec<ClassUnicodeRange>)
    ensures
        rview(final(v)@) == rview(old(v)@) + grapheme_base_chunk_99(),
{
    let ghost o = rview(v@);
    push_range(v, '\u{1E140}', '\u{1E149}');
    push_range(v, '\u{1E14E}', '\u{1E14F}');
    push_range(v, '\u{1E290}', '\u{1E2AD}');
    push_range(v, '\u{1E2C0}', '\u{1E2EB}');
    push_range(v, '\u{1E2F0}', '\u{1E2F9}');
    push_range(v, '\u{1E2FF}', '\u{1E2FF}');
    push_range(v, '\u{1E4D0}', '\u{1E4EB}');
    push_range(v, '\u{1E4F0}', '\u{1E4F9}');
    assert(rview(v@) =~= o + grapheme_base_chunk_99());
}

fn push_grapheme_base_chunk_100(v: &mut Vec<ClassUnicodeRange>)
    ensures
        rview(final(v)@) == rview(old(v)@) + grapheme_base_chunk_100(),
{
    let ghost o = rview(v@);
    push_range(v, '\u{1E5D0}', '\u{1E5ED}');
    push_range(v, '\u{1E5F0}', '\u{1E5FA}');
    push_range(v, '\u{1E5FF}', '\u{1E5FF}');
    push_range(v, '\u{1E7E0}', '\u{1E7E6}');
    push_range(v, '\u{1E7E8}', '\u{1E7EB}');
    push_range(v, '\u{1E7ED}', '\u{1E7EE}');
    push_range(v, '\u{1E7F0}', '\u{1E7FE}');
    push_range(v, '\u{1E800}', '\u{1E8C4}');
    assert(rview(v@) =~= o + grapheme_base_chunk_100());
}

fn push_grapheme_base_chunk_101(v: &mut Vec<ClassUnicodeRange>)
    ensures
        rview(final(v)@) == rview(old(v)@) + grapheme_base_chunk_101(),
{
    let ghost o = rview(v@);
    push_range(v, '\u{1E8C7}', '\u{1E8CF}');
    push_range(v, '\u{1E900}', '\u{1E943}');
    push_range(v, '\u{1E94B}', '\u{1E94B}');
    push_range(v, '\u{1E950}', '\u{1E959}');
    push_range(v, '\u{1E95E}', '\u{1E95F}');
    push_range(v, '\u{1EC71}', '\u{1ECB4}');
    push_range(v, '\u{1ED01}', '\u{1ED3D}');
    push_range(v, '\u{1EE00}', '\u{1EE03}');
    assert(rview(v@) =~= o + grapheme_base_chunk_101());
}

fn push_grapheme_base_chunk_102(v: &mut Vec<ClassUnicodeRange>)
    ensures
        rview(final(v)@) == rview(old(v)@) + grapheme_base_chunk_102(),
{
    let ghost o = rview(v@);
    push_range(v, '\u{1EE05}', '\u{1EE1F}');
    push_range(v, '\u{1EE21}', '\u{1EE22}');
    push_range(v, '\u{1EE24}', '\u{1EE24}');
    push_range(v, '\u{1EE27}', '\u{1EE27}');
    push_range(v, '\u{1EE29}', '\u{1EE32}');
    push_range(v, '\u{1EE34}', '\u{1EE37}');
    push_range(v, '\u{1EE39}', '\u{1EE39}');
    push_range(v, '\u{1EE3B}', '\u{1EE3B}');
    assert(rview(v@) =~= o + grapheme_base_chunk_102());
}

fn push_grapheme_base_chunk_103(v: &mut Vec<ClassUnicodeRange>)
    ensures
        rview(final(v)@) == rview(old(v)@) + grapheme_base_chunk_103(),
{
    let ghost o = rview(v@);
    push_range(v, '\u{1EE42}', '\u{1EE42}');
    push_range(v, '\u{1EE47}', '\u{1EE47}');
    push_range(v, '\u{1EE49}', '\u{1EE49}');
    push_range(v, '\u{1EE4B}', '\u{1EE4B}');
    push_range(v, '\u{1EE4D}', '\u{1EE4F}');
    push_range(v, '\u{1EE51}', '\u{1EE52}');
    push_range(v, '\u{1EE54}', '\u{1EE54}');
    push_range(v, '\u{1EE57}', '\u{1EE57}');
    assert(rview(v@) =~= o + grapheme_base_chunk_103());
}

fn push_grapheme_base_chunk_104(v: &mut Vec<ClassUnicodeRange>)
    ensures
        rview(final(v)@) == rview(old(v)@) + grapheme_base_chunk_104(),
{
    let ghost o = rview(v@);
    push_range(v, '\u{1EE59}', '\u{1EE59}');
    push_range(v, '\u{1EE5B}', '\u{1EE5B}');
    push_range(v, '\u{1EE5D}', '\u{1EE5D}');
    push_range(v, '\u{1EE5F}', '\u{1EE5F}');
    push_range(v, '\u{1EE61}', '\u{1EE62}');
    push_range(v, '\u{1EE64}', '\u{1EE64}');
    push_range(v, '\u{1EE67}', '\u{1EE6A}');
    push_range(v, '\u{1EE6C}', '\u{1EE72}');
    assert(rview(v@) =~= o + grapheme_base_chunk_104());
}

fn push_grapheme_base_chunk_105(v: &mut Vec<ClassUnicodeRange>)
    ensures
        rview(final(v)@) == rview(old(v)@) + grapheme_base_chunk_105(),
{
    let ghost o = rview(v@);
    push_range(v, '\u{1EE74}', '\u{1EE77}');
    push_range(v, '\u{1EE79}', '\u{1EE7C}');
    push_range(v, '\u{1EE7E}', '\u{1EE7E}');
    push_range(v, '\u{1EE80}', '\u{1EE89}');
    push_range(v, '\u{1EE8B}', '\u{1EE9B}');
    push_range(v, '\u{1EEA1}', '\u{1EEA3}');
    push_range(v, '\u{1EEA5}', '\u{1EEA9}');
    push_range(v, '\u{1EEAB}', '\u{1EEBB}');
    assert(rview(v@) =~= o + grapheme_base_chunk_105());
}

fn push_grapheme_base_chunk_106(v: &mut Vec<ClassUnicodeRange>)
    ensures
        rview(final(v)@) == rview(old(v)@) + grapheme_base_chunk_106(),
{
    let ghost o = rview(v@);
    push_range(v, '\u{1EEF0}', '\u{1EEF1}');
    push_range(v, '\u{1F000}', '\u{1F02B}');
    push_range(v, '\u{1F030}', '\u{1F093}');
    push_range(v, '\u{1F0A0}', '\u{1F0AE}');
    push_range(v, '\u{1F0B1}', '\u{1F0BF}');
    push_range(v, '\u{1F0C1}', '\u{1F0CF}');
    push_range(v, '\u{1F0D1}', '\u{1F0F5}');
    push_range(v, '\u{1F100}', '\u{1F1AD}');
    assert(rview(v@) =~= o + grapheme_base_chunk_106());
}

fn push_grapheme_base_chunk_107(v: &mut Vec<ClassUnicodeRange>)
    ensures
        rview(final(v)@) == rview(old(v)@) + grapheme_base_chunk_107(),
{
    let ghost o = rview(v@);
    push_range(v, '\u{1F1E6}', '\u{1F202}');
    push_range(v, '\u{1F210}', '\u{1F23B}');
    push_range(v, '\u{1F240}', '\u{1F248}');
    push_range(v, '\u{1F250}', '\u{1F251}');
    push_range(v, '\u{1F260}', '\u{1F265}');
    push_range(v, '\u{1F300}', '\u{1F6D7}');
    push_range(v, '\u{1F6DC}', '\u{1F6EC}');
    push_range(v, '\u{1F6F0}', '\u{1F6FC}');
    assert(rview(v@) =~= o + grapheme_base_chunk_107());
}

fn push_grapheme_base_chunk_108(v: &mut Vec<ClassUnicodeRange>)
    ensures
        rview(final(v)@) == rview(old(v)@) + grapheme_base_chunk_108(),
{
    let ghost o = rview(v@);
    push_range(v, '\u{1F700}', '\u{1F776}');
    push_range(v, '\u{1F77B}', '\u{1F7D9}');
    push_range(v, '\u{1F7E0}', '\u{1F7EB}');
    push_range(v, '\u{1F7F0}', '\u{1F7F0}');
    push_range(v, '\u{1F800}', '\u{1F80B}');
    push_range(v, '\u{1F810}', '\u{1F847}');
    push_range(v, '\u{1F850}', '\u{1F859}');
    push_range(v, '\u{1F860}', '\u{1F887}');
    assert(rview(v@) =~= o + grapheme_base_chunk_108());
}

fn push_grapheme_base_chunk_109(v: &mut Vec<ClassUnicodeRange>)
    ensures
        rview(final(v)@) == rview(old(v)@) + grapheme_base_chunk_109(),
{
    let ghost o = rview(v@);
    push_range(v, '\u{1F890}', '\u{1F8AD}');
    push_range(v, '\u{1F8B0}', '\u{1F8BB}');
    push_range(v, '\u{1F8C0}', '\u{1F8C1}');
    push_range(v, '\u{1F900}', '\u{1FA53}');
    push_range(v, '\u{1FA60}', '\u{1FA6D}');
    push_range(v, '\u{1FA70}', '\u{1FA7C}');
    push_range(v, '\u{1FA80}', '\u{1FA89}');
    push_range(v, '\u{1FA8F}', '\u{1FAC6}');
    assert(rview(v@) =~= o + grapheme_base_chunk_109());
}

fn push_grapheme_base_chunk_110(v: &mut Vec<ClassUnicodeRange>)
    ensures
        rview(final(v)@) == rview(old(v)@) + grapheme_base_chunk_110(),
{
    let ghost o = rview(v@);
    push_range(v, '\u{1FACE}', '\u{1FADC}');
    push_range(v, '\u{1FADF}', '\u{1FAE9}');
    push_range(v, '\u{1FAF0}', '\u{1FAF8}');
    push_range(v, '\u{1FB00}', '\u{1FB92}');
    push_range(v, '\u{1FB94}', '\u{1FBF9}');
    push_range(v, '\u{20000}', '\u{2A6DF}');
    push_range(v, '\u{2A700}', '\u{2B739}');
    push_range(v, '\u{2B740}', '\u{2B81D}');
    assert(rview(v@) =~= o + grapheme_base_chunk_110());
}

fn push_grapheme_base_chunk_111(v: &mut Vec<ClassUnicodeRange>)
    ensures
        rview(final(v)@) == rview(old(v)@) + grapheme_base_chunk_111(),
{
    let ghost o = rview(v@);
    push_range(v, '\u{2B820}', '\u{2CEA1}');
    push_range(v, '\u{2CEB0}', '\u{2EBE0}');
    push_range(v, '\u{2EBF0}', '\u{2EE5D}');
    push_range(v, '\u{2F800}', '\u{2FA1D}');
    push_range(v, '\u{30000}', '\u{3134A}');
    push_range(v, '\u{31350}', '\u{323AF}');
    assert(rview(v@) =~= o + grapheme_base_chunk_111());
}

fn push_grapheme_base_block_0(v: &mut Vec<ClassUnicodeRange>)
    ensures
        rview(final(v)@) == rview(old(v)@) + grapheme_base_block_0(),
{
    let ghost o = rview(v@);
    push_grapheme_base_chunk_0(v);
    assert(rview(v@) =~= o + (grapheme_base_chunk_0()));
    push_grapheme_base_chunk_1(v);
    assert(rview(v@) =~= o + (grapheme_base_chunk_0() + grapheme_base_chunk_1()));
    push_grapheme_base_chunk_2(v);
    assert(rview(v@) =~= o + (grapheme_base_chunk_0() + grapheme_base_chunk_1() + grapheme_base_chunk_2()));
    push_grapheme_base_chunk_3(v);
    assert(rview(v@) =~= o + (grapheme_base_chunk_0() + grapheme_base_chunk_1() + grapheme_base_chunk_2() + grapheme_base_chunk_3()));
    push_grapheme_base_chunk_4(v);
    assert(rview(v@) =~= o + (grapheme_base_chunk_0() + grapheme_base_chunk_1() + grapheme_base_chunk_2() + grapheme_base_chunk_3() + grapheme_base_chunk_4()));
    push_grapheme_base_chunk_5(v);
    assert(rview(v@) =~= o + (grapheme_base_chunk_0() + grapheme_base_chunk_1() + grapheme_base_chunk_2() + grapheme_base_chunk_3() + grapheme_base_chunk_4() + grapheme_base_chunk_5()));
    push_grapheme_base_chunk_6(v);
    assert(rview(v@) =~= o + (grapheme_base_chunk_0() + grapheme_base_chunk_1() + grapheme_base_chunk_2() + grapheme_base_chunk_3() + grapheme_base_chunk_4() + grapheme_base_chunk_5() + grapheme_base_chunk_6()));
    push_grapheme_base_chunk_7(v);
    assert(rview(v@) =~= o + (grapheme_base_chunk_0() + grapheme_base_chunk_1() + grapheme_base_chunk_2() + grapheme_base_chunk_3() + grapheme_base_chunk_4() + grapheme_base_chunk_5() + grapheme_base_chunk_6() + grapheme_base_chunk_7()));
    push_grapheme_base_chunk_8(v);
    assert(rview(v@) =~= o + (grapheme_base_chunk_0() + grapheme_base_chunk_1() + grapheme_base_chunk_2() + grapheme_base_chunk_3() + grapheme_base_chunk_4() + grapheme_base_chunk_5() + grapheme_base_chunk_6() + grapheme_base_chunk_7() + grapheme_base_chunk_8()));
    push_grapheme_base_chunk_9(v);
    assert(rview(v@) =~= o + (grapheme_base_chunk_0() + grapheme_base_chunk_1() + grapheme_base_chunk_2() + grapheme_base_chunk_3() + grapheme_base_chunk_4() + grapheme_base_chunk_5() + grapheme_base_chunk_6() + grapheme_base_chunk_7() + grapheme_base_chunk_8() + grapheme_base_chunk_9()));
}

fn push_grapheme_base_block_1(v: &mut Vec<ClassUnicodeRange>)
    ensures
        rview(final(v)@) == rview(old(v)@) + grapheme_base_block_1(),
{
    let ghost o = rview(v@);
    push_grapheme_base_chunk_10(v);
    assert(rview(v@) =~= o + (grapheme_base_chunk_10()));
    push_grapheme_base_chunk_11(v);
    assert(rview(v@) =~= o + (grapheme_base_chunk_10() + grapheme_base_chunk_11()));
    push_grapheme_base_chunk_12(v);
    assert(rview(v@) =~= o + (grapheme_base_chunk_10() + grapheme_base_chunk_11() + grapheme_base_chunk_12()));
    push_grapheme_base_chunk_13(v);
    assert(rview(v@) =~= o + (grapheme_base_chunk_10() + grapheme_base_chunk_11() + grapheme_base_chunk_12() + grapheme_base_chunk_13()));
    push_grapheme_base_chunk_14(v);
    assert(rview(v@) =~= o + (grapheme_base_chunk_10() + grapheme_base_chunk_11() + grapheme_base_chunk_12() + grapheme_base_chunk_13() + grapheme_base_chunk_14()));
    push_grapheme_base_chunk_15(v);
    assert(rview(v@) =~= o + (grapheme_base_chunk_10() + grapheme_base_chunk_11() + grapheme_base_chunk_12() + grapheme_base_chunk_13() + grapheme_base_chunk_14() + grapheme_base_chunk_15()));
    push_grapheme_base_chunk_16(v);
    assert(rview(v@) =~= o + (grapheme_base_chunk_10() + grapheme_base_chunk_11() + grapheme_base_chunk_12() + grapheme_base_chunk_13() + grapheme_base_chunk_14() + grapheme_base_chunk_15() + grapheme_base_chunk_16()));
    push_grapheme_base_chunk_17(v);
    assert(rview(v@) =~= o + (grapheme_base_chunk_10() + grapheme_base_chunk_11() + grapheme_base_chunk_12() + grapheme_base_chunk_13() + grapheme_base_chunk_14() + grapheme_base_chunk_15() + grapheme_base_chunk_16() + grapheme_base_chunk_17()));
    push_grapheme_base_chunk_18(v);
    assert(rview(v@) =~= o + (grapheme_base_chunk_10() + grapheme_base_chunk_11() + grapheme_base_chunk_12() + grapheme_base_chunk_13() + grapheme_base_chunk_14() + grapheme_base_chunk_15() + grapheme_base_chunk_16() + grapheme_base_chunk_17() + grapheme_base_chunk_18()));
    push_grapheme_base_chunk_19(v);
    assert(rview(v@) =~= o + (grapheme_base_chunk_10() + grapheme_base_chunk_11() + grapheme_base_chunk_12() + grapheme_base_chunk_13() + grapheme_base_chunk_14() + grapheme_base_chunk_15() + grapheme_base_chunk_16() + grapheme_base_chunk_17() + grapheme_base_chunk_18() + grapheme_base_chunk_19()));
}

fn push_grapheme_base_block_2(v: &mut Vec<ClassUnicodeRange>)
    ensures
        rview(final(v)@) == rview(old(v)@) + grapheme_base_block_2(),
{
    let ghost o = rview(v@);
    push_grapheme_base_chunk_20(v);
    assert(rview(v@) =~= o + (grapheme_base_chunk_20()));
    push_grapheme_base_chunk_21(v);
    assert(rview(v@) =~= o + (grapheme_base_chunk_20() + grapheme_base_chunk_21()));
    push_grapheme_base_chunk_22(v);
    assert(rview(v@) =~= o + (grapheme_base_chunk_20() + grapheme_base_chunk_21() + grapheme_base_chunk_22()));
    push_grapheme_base_chunk_23(v);
    assert(rview(v@) =~= o + (grapheme_base_chunk_20() + grapheme_base_chunk_21() + grapheme_base_chunk_22() + grapheme_base_chunk_23()));
    push_grapheme_base_chunk_24(v);
    assert(rview(v@) =~= o + (grapheme_base_chunk_20() + grapheme_base_chunk_21() + grapheme_base_chunk_22() + grapheme_base_chunk_23() + grapheme_base_chunk_24()));
    push_grapheme_base_chunk_25(v);
    assert(rview(v@) =~= o + (grapheme_base_chunk_20() + grapheme_base_chunk_21() + grapheme_base_chunk_22() + grapheme_base_chunk_23() + grapheme_base_chunk_24() + grapheme_base_chunk_25()));
    push_grapheme_base_chunk_26(v);
    assert(rview(v@) =~= o + (grapheme_base_chunk_20() + grapheme_base_chunk_21() + grapheme_base_chunk_22() + grapheme_base_chunk_23() + grapheme_base_chunk_24() + grapheme_base_chunk_25() + grapheme_base_chunk_26()));
    push_grapheme_base_chunk_27(v);
    assert(rview(v@) =~= o + (grapheme_base_chunk_20() + grapheme_base_chunk_21() + grapheme_base_chunk_22() + grapheme_base_chunk_23() + grapheme_base_chunk_24() + grapheme_base_chunk_25() + grapheme_base_chunk_26() + grapheme_base_chunk_27()));
    push_grapheme_base_chunk_28(v);
    assert(rview(v@) =~= o + (grapheme_base_chunk_20() + grapheme_base_chunk_21() + grapheme_base_chunk_22() + grapheme_base_chunk_23() + grapheme_base_chunk_24() + grapheme_base_chunk_25() + grapheme_base_chunk_26() + grapheme_base_chunk_27() + grapheme_base_chunk_28()));
    push_grapheme_base_chunk_29(v);
    assert(rview(v@) =~= o + (grapheme_base_chunk_20() + grapheme_base_chunk_21() + grapheme_base_chunk_22() + grapheme_base_chunk_23() + grapheme_base_chunk_24() + grapheme_base_chunk_25() + grapheme_base_chunk_26() + grapheme_base_chunk_27() + grapheme_base_chunk_28() + grapheme_base_chunk_29()));
}

fn push_grapheme_base_block_3(v: &mut Vec<ClassUnicodeRange>)
    ensures
        rview(final(v)@) == rview(old(v)@) + grapheme_base_block_3(),
{
    let ghost o = rview(v@);
    push_grapheme_base_chunk_30(v);
    assert(rview(v@) =~= o + (grapheme_base_chunk_30()));
    push_grapheme_base_chunk_31(v);
    assert(rview(v@) =~= o + (grapheme_base_chunk_30() + grapheme_base_chunk_31()));
    push_grapheme_base_chunk_32(v);
    assert(rview(v@) =~= o + (grapheme_base_chunk_30() + grapheme_base_chunk_31() + grapheme_base_chunk_32()));
    push_grapheme_base_chunk_33(v);
    assert(rview(v@) =~= o + (grapheme_base_chunk_30() + grapheme_base_chunk_31() + grapheme_base_chunk_32() + grapheme_base_chunk_33()));
    push_grapheme_base_chunk_34(v);
    assert(rview(v@) =~= o + (grapheme_base_chunk_30() + grapheme_base_chunk_31() + grapheme_base_chunk_32() + grapheme_base_chunk_33() + grapheme_base_chunk_34()));
    push_grapheme_base_chunk_35(v);
    assert(rview(v@) =~= o + (grapheme_base_chunk_30() + grapheme_base_chunk_31() + grapheme_base_chunk_32() + grapheme_base_chunk_33() + grapheme_base_chunk_34() + grapheme_base_chunk_35()));
    push_grapheme_base_chunk_36(v);
    assert(rview(v@) =~= o + (grapheme_base_chunk_30() + grapheme_base_chunk_31() + grapheme_base_chunk_32() + grapheme_base_chunk_33() + grapheme_base_chunk_34() + grapheme_base_chunk_35() + grapheme_base_chunk_36()));
    push_grapheme_base_chunk_37(v);
    assert(rview(v@) =~= o + (grapheme_base_chunk_30() + grapheme_base_chunk_31() + grapheme_base_chunk_32() + grapheme_base_chunk_33() + grapheme_base_chunk_34() + grapheme_base_chunk_35() + grapheme_base_chunk_36() + grapheme_base_chunk_37()));
    push_grapheme_base_chunk_38(v);
    assert(rview(v@) =~= o + (grapheme_base_chunk_30() + grapheme_base_chunk_31() + grapheme_base_chunk_32() + grapheme_base_chunk_33() + grapheme_base_chunk_34() + grapheme_base_chunk_35() + grapheme_base_chunk_36() + grapheme_base_chunk_37() + grapheme_base_chunk_38()));
    push_grapheme_base_chunk_39(v);
    assert(rview(v@) =~= o + (grapheme_base_chunk_30() + grapheme_base_chunk_31() + grapheme_base_chunk_32() + grapheme_base_chunk_33() + grapheme_base_chunk_34() + grapheme_base_chunk_35() + grapheme_base_chunk_36() + grapheme_base_chunk_37() + grapheme_base_chunk_38() + grapheme_base_chunk_39()));
}

fn push_grapheme_base_block_4(v: &mut Vec<ClassUnicodeRange>)
    ensures
        rview(final(v)@) == rview(old(v)@) + grapheme_base_block_4(),
{
    let ghost o = rview(v@);
    push_grapheme_base_chunk_40(v);
    assert(rview(v@) =~= o + (grapheme_base_chunk_40()));
    push_grapheme_base_chunk_41(v);
    assert(rview(v@) =~= o + (grapheme_base_chunk_40() + grapheme_base_chunk_41()));
    push_grapheme_base_chunk_42(v);
    assert(rview(v@) =~= o + (grapheme_base_chunk_40() + grapheme_base_chunk_41() + grapheme_base_chunk_42()));
    push_grapheme_base_chunk_43(v);
    assert(rview(v@) =~= o + (grapheme_base_chunk_40() + grapheme_base_chunk_41() + grapheme_base_chunk_42() + grapheme_base_chunk_43()));
    push_grapheme_base_chunk_44(v);
    assert(rview(v@) =~= o + (grapheme_base_chunk_40() + grapheme_base_chunk_41() + grapheme_base_chunk_42() + grapheme_base_chunk_43() + grapheme_base_chunk_44()));
    push_grapheme_base_chunk_45(v);
    assert(rview(v@) =~= o + (grapheme_base_chunk_40() + grapheme_base_chunk_41() + grapheme_base_chunk_42() + grapheme_base_chunk_43() + grapheme_base_chunk_44() + grapheme_base_chunk_45()));
    push_grapheme_base_chunk_46(v);
    assert(rview(v@) =~= o + (grapheme_base_chunk_40() + grapheme_base_chunk_41() + grapheme_base_chunk_42() + grapheme_base_chunk_43() + grapheme_base_chunk_44() + grapheme_base_chunk_45() + grapheme_base_chunk_46()));
    push_grapheme_base_chunk_47(v);
    assert(rview(v@) =~= o + (grapheme_base_chunk_40() + grapheme_base_chunk_41() + grapheme_base_chunk_42() + grapheme_base_chunk_43() + grapheme_base_chunk_44() + grapheme_base_chunk_45() + grapheme_base_chunk_46() + grapheme_base_chunk_47()));
    push_grapheme_base_chunk_48(v);
    assert(rview(v@) =~= o + (grapheme_base_chunk_40() + grapheme_base_chunk_41() + grapheme_base_chunk_42() + grapheme_base_chunk_43() + grapheme_base_chunk_44() + grapheme_base_chunk_45() + grapheme_base_chunk_46() + grapheme_base_chunk_47() + grapheme_base_chunk_48()));
    push_grapheme_base_chunk_49(v);
    assert(rview(v@) =~= o + (grapheme_base_chunk_40() + grapheme_base_chunk_41() + grapheme_base_chunk_42() + grapheme_base_chunk_43() + grapheme_base_chunk_44() + grapheme_base_chunk_45() + grapheme_base_chunk_46() + grapheme_base_chunk_47() + grapheme_base_chunk_48() + grapheme_base_chunk_49()));
}

fn push_grapheme_base_block_5(v: &mut Vec<ClassUnicodeRange>)
    ensures
        rview(final(v)@) == rview(old(v)@) + grapheme_base_block_5(),
{
    let ghost o = rview(v@);
    push_grapheme_base_chunk_50(v);
    assert(rview(v@) =~= o + (grapheme_base_chunk_50()));
    push_grapheme_base_chunk_51(v);
    assert(rview(v@) =~= o + (grapheme_base_chunk_50() + grapheme_base_chunk_51()));
    push_grapheme_base_chunk_52(v);
    assert(rview(v@) =~= o + (grapheme_base_chunk_50() + grapheme_base_chunk_51() + grapheme_base_chunk_52()));
    push_grapheme_base_chunk_53(v);
    assert(rview(v@) =~= o + (grapheme_base_chunk_50() + grapheme_base_chunk_51() + grapheme_base_chunk_52() + grapheme_base_chunk_53()));
    push_grapheme_base_chunk_54(v);
    assert(rview(v@) =~= o + (grapheme_base_chunk_50() + grapheme_base_chunk_51() + grapheme_base_chunk_52() + grapheme_base_chunk_53() + grapheme_base_chunk_54()));
    push_grapheme_base_chunk_55(v);
    assert(rview(v@) =~= o + (grapheme_base_chunk_50() + grapheme_base_chunk_51() + grapheme_base_chunk_52() + grapheme_base_chunk_53() + grapheme_base_chunk_54() + grapheme_base_chunk_55()));
    push_grapheme_base_chunk_56(v);
    assert(rview(v@) =~= o + (grapheme_base_chunk_50() + grapheme_base_chunk_51() + grapheme_base_chunk_52() + grapheme_base_chunk_53() + grapheme_base_chunk_54() + grapheme_base_chunk_55() + grapheme_base_chunk_56()));
    push_grapheme_base_chunk_57(v);
    assert(rview(v@) =~= o + (grapheme_base_chunk_50() + grapheme_base_chunk_51() + grapheme_base_chunk_52() + grapheme_base_chunk_53() + grapheme_base_chunk_54() + grapheme_base_chunk_55() + grapheme_base_chunk_56() + grapheme_base_chunk_57()));
    push_grapheme_base_chunk_58(v);
    assert(rview(v@) =~= o + (grapheme_base_chunk_50() + grapheme_base_chunk_51() + grapheme_base_chunk_52() + grapheme_base_chunk_53() + grapheme_base_chunk_54() + grapheme_base_chunk_55() + grapheme_base_chunk_56() + grapheme_base_chunk_57() + grapheme_base_chunk_58()));
    push_grapheme_base_chunk_59(v);
    assert(rview(v@) =~= o + (grapheme_base_chunk_50() + grapheme_base_chunk_51() + grapheme_base_chunk_52() + grapheme_base_chunk_53() + grapheme_base_chunk_54() + grapheme_base_chunk_55() + grapheme_base_chunk_56() + grapheme_base_chunk_57() + grapheme_base_chunk_58() + grapheme_base_chunk_59()));
}

fn push_grapheme_base_block_6(v: &mut Vec<ClassUnicodeRange>)
    ensures
        rview(final(v)@) == rview(old(v)@) + grapheme_base_block_6(),
{
    let ghost o = rview(v@);
    push_grapheme_base_chunk_60(v);
    assert(rview(v@) =~= o + (grapheme_base_chunk_60()));
    push_grapheme_base_chunk_61(v);
    assert(rview(v@) =~= o + (grapheme_base_chunk_60() + grapheme_base_chunk_61()));
    push_grapheme_base_chunk_62(v);
    assert(rview(v@) =~= o + (grapheme_base_chunk_60() + grapheme_base_chunk_61() + grapheme_base_chunk_62()));
    push_grapheme_base_chunk_63(v);
    assert(rview(v@) =~= o + (grapheme_base_chunk_60() + grapheme_base_chunk_61() + grapheme_base_chunk_62() + grapheme_base_chunk_63()));
    push_grapheme_base_chunk_64(v);
    assert(rview(v@) =~= o + (grapheme_base_chunk_60() + grapheme_base_chunk_61() + grapheme_base_chunk_62() + grapheme_base_chunk_63() + grapheme_base_chunk_64()));
    push_grapheme_base_chunk_65(v);
    assert(rview(v@) =~= o + (grapheme_base_chunk_60() + grapheme_base_chunk_61() + grapheme_base_chunk_62() + grapheme_base_chunk_63() + grapheme_base_chunk_64() + grapheme_base_chunk_65()));
    push_grapheme_base_chunk_66(v);
    assert(rview(v@) =~= o + (grapheme_base_chunk_60() + grapheme_base_chunk_61() + grapheme_base_chunk_62() + grapheme_base_chunk_63() + grapheme_base_chunk_64() + grapheme_base_chunk_65() + grapheme_base_chunk_66()));
    push_grapheme_base_chunk_67(v);
    assert(rview(v@) =~= o + (grapheme_base_chunk_60() + grapheme_base_chunk_61() + grapheme_base_chunk_62() + grapheme_base_chunk_63() + grapheme_base_chunk_64() + grapheme_base_chunk_65() + grapheme_base_chunk_66() + grapheme_base_chunk_67()));
    push_grapheme_base_chunk_68(v);
    assert(rview(v@) =~= o + (grapheme_base_chunk_60() + grapheme_base_chunk_61() + grapheme_base_chunk_62() + grapheme_base_chunk_63() + grapheme_base_chunk_64() + grapheme_base_chunk_65() + grapheme_base_chunk_66() + grapheme_base_chunk_67() + grapheme_base_chunk_68()));
    push_grapheme_base_chunk_69(v);
    assert(rview(v@) =~= o + (grapheme_base_chunk_60() + grapheme_base_chunk_61() + grapheme_base_chunk_62() + grapheme_base_chunk_63() + grapheme_base_chunk_64() + grapheme_base_chunk_65() + grapheme_base_chunk_66() + grapheme_base_chunk_67() + grapheme_base_chunk_68() + grapheme_base_chunk_69()));
}

fn push_grapheme_base_block_7(v: &mut Vec<ClassUnicodeRange>)
    ensures
        rview(final(v)@) == rview(old(v)@) + grapheme_base_block_7(),
{
    let ghost o = rview(v@);
    push_grapheme_base_chunk_70(v);
    assert(rview(v@) =~= o + (grapheme_base_chunk_70()));
    push_grapheme_base_chunk_71(v);
    assert(rview(v@) =~= o + (grapheme_base_chunk_70() + grapheme_base_chunk_71()));
    push_grapheme_base_chunk_72(v);
    assert(rview(v@) =~= o + (grapheme_base_chunk_70() + grapheme_base_chunk_71() + grapheme_base_chunk_72()));
    push_grapheme_base_chunk_73(v);
    assert(rview(v@) =~= o + (grapheme_base_chunk_70() + grapheme_base_chunk_71() + grapheme_base_chunk_72() + grapheme_base_chunk_73()));
    push_grapheme_base_chunk_74(v);
    assert(rview(v@) =~= o + (grapheme_base_chunk_70() + grapheme_base_chunk_71() + grapheme_base_chunk_72() + grapheme_base_chunk_73() + grapheme_base_chunk_74()));
    push_grapheme_base_chunk_75(v);
    assert(rview(v@) =~= o + (grapheme_base_chunk_70() + grapheme_base_chunk_71() + grapheme_base_chunk_72() + grapheme_base_chunk_73() + grapheme_base_chunk_74() + grapheme_base_chunk_75()));
    push_grapheme_base_chunk_76(v);
    assert(rview(v@) =~= o + (grapheme_base_chunk_70() + grapheme_base_chunk_71() + grapheme_base_chunk_72() + grapheme_base_chunk_73() + grapheme_base_chunk_74() + grapheme_base_chunk_75() + grapheme_base_chunk_76()));
    push_grapheme_base_chunk_77(v);
    assert(rview(v@) =~= o + (grapheme_base_chunk_70() + grapheme_base_chunk_71() + grapheme_base_chunk_72() + grapheme_base_chunk_73() + grapheme_base_chunk_74() + grapheme_base_chunk_75() + grapheme_base_chunk_76() + grapheme_base_chunk_77()));
    push_grapheme_base_chunk_78(v);
    assert(rview(v@) =~= o + (grapheme_base_chunk_70() + grapheme_base_chunk_71() + grapheme_base_chunk_72() + grapheme_base_chunk_73() + grapheme_base_chunk_74() + grapheme_base_chunk_75() + grapheme_base_chunk_76() + grapheme_base_chunk_77() + grapheme_base_chunk_78()));
    push_grapheme_base_chunk_79(v);
    assert(rview(v@) =~= o + (grapheme_base_chunk_70() + grapheme_base_chunk_71() + grapheme_base_chunk_72() + grapheme_base_chunk_73() + grapheme_base_chunk_74() + grapheme_base_chunk_75() + grapheme_base_chunk_76() + grapheme_base_chunk_77() + grapheme_base_chunk_78() + grapheme_base_chunk_79()));
}

fn push_grapheme_base_block_8(v: &mut Vec<ClassUnicodeRange>)
    ensures
        rview(final(v)@) == rview(old(v)@) + grapheme_base_block_8(),
{
    let ghost o = rview(v@);
    push_grapheme_base_chunk_80(v);
    assert(rview(v@) =~= o + (grapheme_base_chunk_80()));
    push_grapheme_base_chunk_81(v);
    assert(rview(v@) =~= o + (grapheme_base_chunk_80() + grapheme_base_chunk_81()));
    push_grapheme_base_chunk_82(v);
    assert(rview(v@) =~= o + (grapheme_base_chunk_80() + grapheme_base_chunk_81() + grapheme_base_chunk_82()));
    push_grapheme_base_chunk_83(v);
    assert(rview(v@) =~= o + (grapheme_base_chunk_80() + grapheme_base_chunk_81() + grapheme_base_chunk_82() + grapheme_base_chunk_83()));
    push_grapheme_base_chunk_84(v);
    assert(rview(v@) =~= o + (grapheme_base_chunk_80() + grapheme_base_chunk_81() + grapheme_base_chunk_82() + grapheme_base_chunk_83() + grapheme_base_chunk_84()));
    push_grapheme_base_chunk_85(v);
    assert(rview(v@) =~= o + (grapheme_base_chunk_80() + grapheme_base_chunk_81() + grapheme_base_chunk_82() + grapheme_base_chunk_83() + grapheme_base_chunk_84() + grapheme_base_chunk_85()));
    push_grapheme_base_chunk_86(v);
    assert(rview(v@) =~= o + (grapheme_base_chunk_80() + grapheme_base_chunk_81() + grapheme_base_chunk_82() + grapheme_base_chunk_83() + grapheme_base_chunk_84() + grapheme_base_chunk_85() + grapheme_base_chunk_86()));
    push_grapheme_base_chunk_87(v);
    assert(rview(v@) =~= o + (grapheme_base_chunk_80() + grapheme_base_chunk_81() + grapheme_base_chunk_82() + grapheme_base_chunk_83() + grapheme_base_chunk_84() + grapheme_base_chunk_85() + grapheme_base_chunk_86() + grapheme_base_chunk_87()));
    push_grapheme_base_chunk_88(v);
    assert(rview(v@) =~= o + (grapheme_base_chunk_80() + grapheme_base_chunk_81() + grapheme_base_chunk_82() + grapheme_base_chunk_83() + grapheme_base_chunk_84() + grapheme_base_chunk_85() + grapheme_base_chunk_86() + grapheme_base_chunk_87() + grapheme_base_chunk_88()));
    push_grapheme_base_chunk_89(v);
    assert(rview(v@) =~= o + (grapheme_base_chunk_80() + grapheme_base_chunk_81() + grapheme_base_chunk_82() + grapheme_base_chunk_83() + grapheme_base_chunk_84() + grapheme_base_chunk_85() + grapheme_base_chunk_86() + grapheme_base_chunk_87() + grapheme_base_chunk_88() + grapheme_base_chunk_89()));
}

fn push_grapheme_base_block_9(v: &mut Vec<ClassUnicodeRange>)
    ensures
        rview(final(v)@) == rview(old(v)@) + grapheme_base_block_9(),
{
    let ghost o = rview(v@);
    push_grapheme_base_chunk_90(v);
    assert(rview(v@) =~= o + (grapheme_base_chunk_90()));
    push_grapheme_base_chunk_91(v);
    assert(rview(v@) =~= o + (grapheme_base_chunk_90() + grapheme_base_chunk_91()));
    push_grapheme_base_chunk_92(v);
    assert(rview(v@) =~= o + (grapheme_base_chunk_90() + grapheme_base_chunk_91() + grapheme_base_chunk_92()));
    push_grapheme_base_chunk_93(v);
    assert(rview(v@) =~= o + (grapheme_base_chunk_90() + grapheme_base_chunk_91() + grapheme_base_chunk_92() + grapheme_base_chunk_93()));
    push_grapheme_base_chunk_94(v);
    assert(rview(v@) =~= o + (grapheme_base_chunk_90() + grapheme_base_chunk_91() + grapheme_base_chunk_92() + grapheme_base_chunk_93() + grapheme_base_chunk_94()));
    push_grapheme_base_chunk_95(v);
    assert(rview(v@) =~= o + (grapheme_base_chunk_90() + grapheme_base_chunk_91() + grapheme_base_chunk_92() + grapheme_base_chunk_93() + grapheme_base_chunk_94() + grapheme_base_chunk_95()));
    push_grapheme_base_chunk_96(v);
    assert(rview(v@) =~= o + (grapheme_base_chunk_90() + grapheme_base_chunk_91() + grapheme_base_chunk_92() + grapheme_base_chunk_93() + grapheme_base_chunk_94() + grapheme_base_chunk_95() + grapheme_base_chunk_96()));
    push_grapheme_base_chunk_97(v);
    assert(rview(v@) =~= o + (grapheme_base_chunk_90() + grapheme_base_chunk_91() + grapheme_base_chunk_92() + grapheme_base_chunk_93() + grapheme_base_chunk_94() + grapheme_base_chunk_95() + grapheme_base_chunk_96() + grapheme_base_chunk_97()));
    push_grapheme_base_chunk_98(v);
    assert(rview(v@) =~= o + (grapheme_base_chunk_90() + grapheme_base_chunk_91() + grapheme_base_chunk_92() + grapheme_base_chunk_93() + grapheme_base_chunk_94() + grapheme_base_chunk_95() + grapheme_base_chunk_96() + grapheme_base_chunk_97() + grapheme_base_chunk_98()));
    push_grapheme_base_chunk_99(v);
    assert(rview(v@) =~= o + (grapheme_base_chunk_90() + grapheme_base_chunk_91() + grapheme_base_chunk_92() + grapheme_base_chunk_93() + grapheme_base_chunk_94() + grapheme_base_chunk_95() + grapheme_base_chunk_96() + grapheme_base_chunk_97() + grapheme_base_chunk_98() + grapheme_base_chunk_99()));
}

fn push_grapheme_base_block_10(v: &mut Vec<ClassUnicodeRange>)
    ensures
        rview(final(v)@) == rview(old(v)@) + grapheme_base_block_10(),
{
    let ghost o = rview(v@);
    push_grapheme_base_chunk_100(v);
    assert(rview(v@) =~= o + (grapheme_base_chunk_100()));
    push_grapheme_base_chunk_101(v);
    assert(rview(v@) =~= o + (grapheme_base_chunk_100() + grapheme_base_chunk_101()));
    push_grapheme_base_chunk_102(v);
    assert(rview(v@) =~= o + (grapheme_base_chunk_100() + grapheme_base_chunk_101() + grapheme_base_chunk_102()));
    push_grapheme_base_chunk_103(v);
    assert(rview(v@) =~= o + (grapheme_base_chunk_100() + grapheme_base_chunk_101() + grapheme_base_chunk_102() + grapheme_base_chunk_103()));
    push_grapheme_base_chunk_104(v);
    assert(rview(v@) =~= o + (grapheme_base_chunk_100() + grapheme_base_chunk_101() + grapheme_base_chunk_102() + grapheme_base_chunk_103() + grapheme_base_chunk_104()));
    push_grapheme_base_chunk_105(v);
    assert(rview(v@) =~= o + (grapheme_base_chunk_100() + grapheme_base_chunk_101() + grapheme_base_chunk_102() + grapheme_base_chunk_103() + grapheme_base_chunk_104() + grapheme_base_chunk_105()));
    push_grapheme_base_chunk_106(v);
    assert(rview(v@) =~= o + (grapheme_base_chunk_100() + grapheme_base_chunk_101() + grapheme_base_chunk_102() + grapheme_base_chunk_103() + grapheme_base_chunk_104() + grapheme_base_chunk_105() + grapheme_base_chunk_106()));
    push_grapheme_base_chunk_107(v);
    assert(rview(v@) =~= o + (grapheme_base_chunk_100() + grapheme_base_chunk_101() + grapheme_base_chunk_102() + grapheme_base_chunk_103() + grapheme_base_chunk_104() + grapheme_base_chunk_105() + grapheme_base_chunk_106() + grapheme_base_chunk_107()));
    push_grapheme_base_chunk_108(v);
    assert(rview(v@) =~= o + (grapheme_base_chunk_100() + grapheme_base_chunk_101() + grapheme_base_chunk_102() + grapheme_base_chunk_103() + grapheme_base_chunk_104() + grapheme_base_chunk_105() + grapheme_base_chunk_106() + grapheme_base_chunk_107() + grapheme_base_chunk_108()));
    push_grapheme_base_chunk_109(v);
    assert(rview(v@) =~= o + (grapheme_base_chunk_100() + grapheme_base_chunk_101() + grapheme_base_chunk_102() + grapheme_base_chunk_103() + grapheme_base_chunk_104() + grapheme_base_chunk_105() + grapheme_base_chunk_106() + grapheme_base_chunk_107() + grapheme_base_chunk_108() + grapheme_base_chunk_109()));
}

fn push_grapheme_base_block_11(v: &mut Vec<ClassUnicodeRange>)
    ensures
        rview(final(v)@) == rview(old(v)@) + grapheme_base_block_11(),
{
    let ghost o = rview(v@);
    push_grapheme_base_chunk_110(v);
    assert(rview(v@) =~= o + (grapheme_base_chunk_110()));
    push_grapheme_base_chunk_111(v);
    assert(rview(v@) =~= o + (grapheme_base_chunk_110() + grapheme_base_chunk_111()));
}

pub fn grapheme_base_class() -> (v: Vec<ClassUnicodeRange>)
    ensures
        rview(v@) == grapheme_base_ranges(),
{
    let mut v: Vec<ClassUnicodeRange> = Vec::new();
    assert(rview(v@) =~= Seq::<SRange>::empty());
    push_grapheme_base_block_0(&mut v);
    assert(rview(v@) =~= grapheme_base_block_0());
    push_grapheme_base_block_1(&mut v);
    assert(rview(v@) =~= grapheme_base_block_0() + grapheme_base_block_1());
    push_grapheme_base_block_2(&mut v);
    assert(rview(v@) =~= grapheme_base_block_0() + grapheme_base_block_1() + grapheme_base_block_2());
    push_grapheme_base_block_3(&mut v);
    assert(rview(v@) =~= grapheme_base_block_0() + grapheme_base_block_1() + grapheme_base_block_2() + grapheme_base_block_3());
    push_grapheme_base_block_4(&mut v);
    assert(rview(v@) =~= grapheme_base_block_0() + grapheme_base_block_1() + grapheme_base_block_2() + grapheme_base_block_3() + grapheme_base_block_4());
    push_grapheme_base_block_5(&mut v);
    assert(rview(v@) =~= grapheme_base_block_0() + grapheme_base_block_1() + grapheme_base_block_2() + grapheme_base_block_3() + grapheme_base_block_4() + grapheme_base_block_5());
    push_grapheme_base_block_6(&mut v);
    assert(rview(v@) =~= grapheme_base_block_0() + grapheme_base_block_1() + grapheme_base_block_2() + grapheme_base_block_3() + grapheme_base_block_4() + grapheme_base_block_5() + grapheme_base_block_6());
    push_grapheme_base_block_7(&mut v);
    assert(rview(v@) =~= grapheme_base_block_0() + grapheme_base_block_1() + grapheme_base_block_2() + grapheme_base_block_3() + grapheme_base_block_4() + grapheme_base_block_5() + grapheme_base_block_6() + grapheme_base_block_7());
    push_grapheme_base_block_8(&mut v);
    assert(rview(v@) =~= grapheme_base_block_0() + grapheme_base_block_1() + grapheme_base_block_2() + grapheme_base_block_3() + grapheme_base_block_4() + grapheme_base_block_5() + grapheme_base_block_6() + grapheme_base_block_7() + grapheme_base_block_8());
    push_grapheme_base_block_9(&mut v);
    assert(rview(v@) =~= grapheme_base_block_0() + grapheme_base_block_1() + grapheme_base_block_2() + grapheme_base_block_3() + grapheme_base_block_4() + grapheme_base_block_5() + grapheme_base_block_6() + grapheme_base_block_7() + grapheme_base_block_8() + grapheme_base_block_9());
    push_grapheme_base_block_10(&mut v);
    assert(rview(v@) =~= grapheme_base_block_0() + grapheme_base_block_1() + grapheme_base_block_2() + grapheme_base_block_3() + grapheme_base_block_4() + grapheme_base_block_5() + grapheme_base_block_6() + grapheme_base_block_7() + grapheme_base_block_8() + grapheme_base_block_9() + grapheme_base_block_10());
    push_grapheme_base_block_11(&mut v);
    assert(rview(v@) =~= grapheme_base_block_0() + grapheme_base_block_1() + grapheme_base_block_2() + grapheme_base_block_3() + grapheme_base_block_4() + grapheme_base_block_5() + grapheme_base_block_6() + grapheme_base_block_7() + grapheme_base_block_8() + grapheme_base_block_9() + grapheme_base_block_10() + grapheme_base_block_11());
    v
}

pub open spec fn grapheme_extend_chunk_0() -> Seq<SRange> {
    seq![(0x300int, 0x36Fint), (0x483int, 0x489int), (0x591int, 0x5BDint), (0x5BFint, 0x5BFint), (0x5C1int, 0x5C2int), (0x5C4int, 0x5C5int), (0x5C7int, 0x5C7int), (0x610int, 0x61Aint)]
}

pub open spec fn grapheme_extend_chunk_1() -> Seq<SRange> {
    seq![(0x64Bint, 0x65Fint), (0x670int, 0x670int), (0x6D6int, 0x6DCint), (0x6DFint, 0x6E4int), (0x6E7int, 0x6E8int), (0x6EAint, 0x6EDint), (0x711int, 0x711int), (0x730int, 0x74Aint)]
}

pub open spec fn grapheme_extend_chunk_2() -> Seq<SRange> {
    seq![(0x7A6int, 0x7B0int), (0x7EBint, 0x7F3int), (0x7FDint, 0x7FDint), (0x816int, 0x819int), (0x81Bint, 0x823int), (0x825int, 0x827int), (0x829int, 0x82Dint), (0x859int, 0x85Bint)]
}

pub open spec fn grapheme_extend_chunk_3() -> Seq<SRange> {
    seq![(0x897int, 0x89Fint), (0x8CAint, 0x8E1int), (0x8E3int, 0x902int), (0x93Aint, 0x93Aint), (0x93Cint, 0x93Cint), (0x941int, 0x948int), (0x94Dint, 0x94Dint), (0x951int, 0x957int)]
}

pub open spec fn grapheme_extend_chunk_4() -> Seq<SRange> {
    seq![(0x962int, 0x963int), (0x981int, 0x981int), (0x9BCint, 0x9BCint), (0x9BEint, 0x9BEint), (0x9C1int, 0x9C4int), (0x9CDint, 0x9CDint), (0x9D7int, 0x9D7int), (0x9E2int, 0x9E3int)]
}

pub open spec fn grapheme_extend_chunk_5() -> Seq<SRange> {
    seq![(0x9FEint, 0x9FEint), (0xA01int, 0xA02int), (0xA3Cint, 0xA3Cint), (0xA41int, 0xA42int), (0xA47int, 0xA48int), (0xA4Bint, 0xA4Dint), (0xA51int, 0xA51int), (0xA70int, 0xA71int)]
}

pub open spec fn grapheme_extend_chunk_6() -> Seq<SRange> {
    seq![(0xA75int, 0xA75int), (0xA81int, 0xA82int), (0xABCint, 0xABCint), (0xAC1int, 0xAC5int), (0xAC7int, 0xAC8int), (0xACDint, 0xACDint), (0xAE2int, 0xAE3int), (0xAFAint, 0xAFFint)]
}

pub open spec fn grapheme_extend_chunk_7() -> Seq<SRange> {
    seq![(0xB01int, 0xB01int), (0xB3Cint, 0xB3Cint), (0xB3Eint, 0xB3Fint), (0xB41int, 0xB44int), (0xB4Dint, 0xB4Dint), (0xB55int, 0xB57int), (0xB62int, 0xB63int), (0xB82int, 0xB82int)]
}

pub open spec fn grapheme_extend_chunk_8() -> Seq<SRange> {
    seq![(0xBBEint, 0xBBEint), (0xBC0int, 0xBC0int), (0xBCDint, 0xBCDint), (0xBD7int, 0xBD7int), (0xC00int, 0xC00int), (0xC04int, 0xC04int), (0xC3Cint, 0xC3Cint), (0xC3Eint, 0xC40int)]
}

pub open spec fn grapheme_extend_chunk_9() -> Seq<SRange> {
    seq![(0xC46int, 0xC48int), (0xC4Aint, 0xC4Dint), (0xC55int, 0xC56int), (0xC62int, 0xC63int), (0xC81int, 0xC81int), (0xCBCint, 0xCBCint), (0xCBFint, 0xCC0int), (0xCC2int, 0xCC2int)]
}

pub open spec fn grapheme_extend_chunk_10() -> Seq<SRange> {
    seq![(0xCC6int, 0xCC8int), (0xCCAint, 0xCCDint), (0xCD5int, 0xCD6int), (0xCE2int, 0xCE3int), (0xD00int, 0xD01int), (0xD3Bint, 0xD3Cint), (0xD3Eint, 0xD3Eint), (0xD41int, 0xD44int)]
}

pub open spec fn grapheme_extend_chunk_11() -> Seq<SRange> {
    seq![(0xD4Dint, 0xD4Dint), (0xD57int, 0xD57int), (0xD62int, 0xD63int), (0xD81int, 0xD81int), (0xDCAint, 0xDCAint), (0xDCFint, 0xDCFint), (0xDD2int, 0xDD4int), (0xDD6int, 0xDD6int)]
}

pub open spec fn grapheme_extend_chunk_12() -> Seq<SRange> {
    seq![(0xDDFint, 0xDDFint), (0xE31int, 0xE31int), (0xE34int, 0xE3Aint), (0xE47int, 0xE4Eint), (0xEB1int, 0xEB1int), (0xEB4int, 0xEBCint), (0xEC8int, 0xECEint), (0xF18int, 0xF19int)]
}

pub open spec fn grapheme_extend_chunk_13() -> Seq<SRange> {
    seq![(0xF35int, 0xF35int), (0xF37int, 0xF37int), (0xF39int, 0xF39int), (0xF71int, 0xF7Eint), (0xF80int, 0xF84int), (0xF86int, 0xF87int), (0xF8Dint, 0xF97int), (0xF99int, 0xFBCint)]
}

pub open spec fn grapheme_extend_chunk_14() -> Seq<SRange> {
    seq![(0xFC6int, 0xFC6int), (0x102Dint, 0x1030int), (0x1032int, 0x1037int), (0x1039int, 0x103Aint), (0x103Dint, 0x103Eint), (0x1058int, 0x1059int), (0x105Eint, 0x1060int), (0x1071int, 0x1074int)]
}

pub open spec fn grapheme_extend_chunk_15() -> Seq<SRange> {
    seq![(0x1082int, 0x1082int), (0x1085int, 0x1086int), (0x108Dint, 0x108Dint), (0x109Dint, 0x109Dint), (0x135Dint, 0x135Fint), (0x1712int, 0x1715int), (0x1732int, 0x1734int), (0x1752int, 0x1753int)]
}

pub open spec fn grapheme_extend_chunk_16() -> Seq<SRange> {
    seq![(0x1772int, 0x1773int), (0x17B4int, 0x17B5int), (0x17B7int, 0x17BDint), (0x17C6int, 0x17C6int), (0x17C9int, 0x17D3int), (0x17DDint, 0x17DDint), (0x180Bint, 0x180Dint), (0x180Fint, 0x180Fint)]
}

pub open spec fn grapheme_extend_chunk_17() -> Seq<SRange> {
    seq![(0x1885int, 0x1886int), (0x18A9int, 0x18A9int), (0x1920int, 0x1922int), (0x1927int, 0x1928int), (0x1932int, 0x1932int), (0x1939int, 0x193Bint), (0x1A17int, 0x1A18int), (0x1A1Bint, 0x1A1Bint)]
}

pub open spec fn grapheme_extend_chunk_18() -> Seq<SRange> {
    seq![(0x1A56int, 0x1A56int), (0x1A58int, 0x1A5Eint), (0x1A60int, 0x1A60int), (0x1A62int, 0x1A62int), (0x1A65int, 0x1A6Cint), (0x1A73int, 0x1A7Cint), (0x1A7Fint, 0x1A7Fint), (0x1AB0int, 0x1ACEint)]
}

pub open spec fn grapheme_extend_chunk_19() -> Seq<SRange> {
    seq![(0x1B00int, 0x1B03int), (0x1B34int, 0x1B3Dint), (0x1B42int, 0x1B44int), (0x1B6Bint, 0x1B73int), (0x1B80int, 0x1B81int), (0x1BA2int, 0x1BA5int), (0x1BA8int, 0x1BADint), (0x1BE6int, 0x1BE6int)]
}

pub open spec fn grapheme_extend_chunk_20() -> Seq<SRange> {
    seq![(0x1BE8int, 0x1BE9int), (0x1BEDint, 0x1BEDint), (0x1BEFint, 0x1BF3int), (0x1C2Cint, 0x1C33int), (0x1C36int, 0x1C37int), (0x1CD0int, 0x1CD2int), (0x1CD4int, 0x1CE0int), (0x1CE2int, 0x1CE8int)]
}

pub open spec fn grapheme_extend_chunk_21() -> Seq<SRange> {
    seq![(0x1CEDint, 0x1CEDint), (0x1CF4int, 0x1CF4int), (0x1CF8int, 0x1CF9int), (0x1DC0int, 0x1DFFint), (0x200Cint, 0x200Cint), (0x20D0int, 0x20F0int), (0x2CEFint, 0x2CF1int), (0x2D7Fint, 0x2D7Fint)]
}

pub open spec fn grapheme_extend_chunk_22() -> Seq<SRange> {
    seq![(0x2DE0int, 0x2DFFint), (0x302Aint, 0x302Fint), (0x3099int, 0x309Aint), (0xA66Fint, 0xA672int), (0xA674int, 0xA67Dint), (0xA69Eint, 0xA69Fint), (0xA6F0int, 0xA6F1int), (0xA802int, 0xA802int)]
}

pub open spec fn grapheme_extend_chunk_23() -> Seq<SRange> {
    seq![(0xA806int, 0xA806int), (0xA80Bint, 0xA80Bint), (0xA825int, 0xA826int), (0xA82Cint, 0xA82Cint), (0xA8C4int, 0xA8C5int), (0xA8E0int, 0xA8F1int), (0xA8FFint, 0xA8FFint), (0xA926int, 0xA92Dint)]
}

pub open spec fn grapheme_extend_chunk_24() -> Seq<SRange> {
    seq![(0xA947int, 0xA951int), (0xA953int, 0xA953int), (0xA980int, 0xA982int), (0xA9B3int, 0xA9B3int), (0xA9B6int, 0xA9B9int), (0xA9BCint, 0xA9BDint), (0xA9C0int, 0xA9C0int), (0xA9E5int, 0xA9E5int)]
}

pub open spec fn grapheme_extend_chunk_25() -> Seq<SRange> {
    seq![(0xAA29int, 0xAA2Eint), (0xAA31int, 0xAA32int), (0xAA35int, 0xAA36int), (0xAA43int, 0xAA43int), (0xAA4Cint, 0xAA4Cint), (0xAA7Cint, 0xAA7Cint), (0xAAB0int, 0xAAB0int), (0xAAB2int, 0xAAB4int)]
}

pub open spec fn grapheme_extend_chunk_26() -> Seq<SRange> {
    seq![(0xAAB7int, 0xAAB8int), (0xAABEint, 0xAABFint), (0xAAC1int, 0xAAC1int), (0xAAECint, 0xAAEDint), (0xAAF6int, 0xAAF6int), (0xABE5int, 0xABE5int), (0xABE8int, 0xABE8int), (0xABEDint, 0xABEDint)]
}

pub open spec fn grapheme_extend_chunk_27() -> Seq<SRange> {
    seq![(0xFB1Eint, 0xFB1Eint), (0xFE00int, 0xFE0Fint), (0xFE20int, 0xFE2Fint), (0xFF9Eint, 0xFF9Fint), (0x101FDint, 0x101FDint), (0x102E0int, 0x102E0int), (0x10376int, 0x1037Aint), (0x10A01int, 0x10A03int)]
}

pub open spec fn grapheme_extend_chunk_28() -> Seq<SRange> {
    seq![(0x10A05int, 0x10A06int), (0x10A0Cint, 0x10A0Fint), (0x10A38int, 0x10A3Aint), (0x10A3Fint, 0x10A3Fint), (0x10AE5int, 0x10AE6int), (0x10D24int, 0x10D27int), (0x10D69int, 0x10D6Dint), (0x10EABint, 0x10EACint)]
}

pub open spec fn grapheme_extend_chunk_29() -> Seq<SRange> {
    seq![(0x10EFCint, 0x10EFFint), (0x10F46int, 0x10F50int), (0x10F82int, 0x10F85int), (0x11001int, 0x11001int), (0x11038int, 0x11046int), (0x11070int, 0x11070int), (0x11073int, 0x11074int), (0x1107Fint, 0x11081int)]
}

pub open spec fn grapheme_extend_chunk_30() -> Seq<SRange> {
    seq![(0x110B3int, 0x110B6int), (0x110B9int, 0x110BAint), (0x110C2int, 0x110C2int), (0x11100int, 0x11102int), (0x11127int, 0x1112Bint), (0x1112Dint, 0x11134int), (0x11173int, 0x11173int), (0x11180int, 0x11181int)]
}

pub open spec fn grapheme_extend_chunk_31() -> Seq<SRange> {
    seq![(0x111B6int, 0x111BEint), (0x111C0int, 0x111C0int), (0x111C9int, 0x111CCint), (0x111CFint, 0x111CFint), (0x1122Fint, 0x11231int), (0x11234int, 0x11237int), (0x1123Eint, 0x1123Eint), (0x11241int, 0x11241int)]
}

pub open spec fn grapheme_extend_chunk_32() -> Seq<SRange> {
    seq![(0x112DFint, 0x112DFint), (0x112E3int, 0x112EAint), (0x11300int, 0x11301int), (0x1133Bint, 0x1133Cint), (0x1133Eint, 0x1133Eint), (0x11340int, 0x11340int), (0x1134Dint, 0x1134Dint), (0x11357int, 0x11357int)]
}

pub open spec fn grapheme_extend_chunk_33() -> Seq<SRange> {
    seq![(0x11366int, 0x1136Cint), (0x11370int, 0x11374int), (0x113B8int, 0x113B8int), (0x113BBint, 0x113C0int), (0x113C2int, 0x113C2int), (0x113C5int, 0x113C5int), (0x113C7int, 0x113C9int), (0x113CEint, 0x113D0int)]
}

pub open spec fn grapheme_extend_chunk_34() -> Seq<SRange> {
    seq![(0x113D2int, 0x113D2int), (0x113E1int, 0x113E2int), (0x11438int, 0x1143Fint), (0x11442int, 0x11444int), (0x11446int, 0x11446int), (0x1145Eint, 0x1145Eint), (0x114B0int, 0x114B0int), (0x114B3int, 0x114B8int)]
}

pub open spec fn grapheme_extend_chunk_35() -> Seq<SRange> {
    seq![(0x114BAint, 0x114BAint), (0x114BDint, 0x114BDint), (0x114BFint, 0x114C0int), (0x114C2int, 0x114C3int), (0x115AFint, 0x115AFint), (0x115B2int, 0x115B5int), (0x115BCint, 0x115BDint), (0x115BFint, 0x115C0int)]
}

pub open spec fn grapheme_extend_chunk_36() -> Seq<SRange> {
    seq![(0x115DCint, 0x115DDint), (0x11633int, 0x1163Aint), (0x1163Dint, 0x1163Dint), (0x1163Fint, 0x11640int), (0x116ABint, 0x116ABint), (0x116ADint, 0x116ADint), (0x116B0int, 0x116B7int), (0x1171Dint, 0x1171Dint)]
}

pub open spec fn grapheme_extend_chunk_37() -> Seq<SRange> {
    seq![(0x1171Fint, 0x1171Fint), (0x11722int, 0x11725int), (0x11727int, 0x1172Bint), (0x1182Fint, 0x11837int), (0x11839int, 0x1183Aint), (0x11930int, 0x11930int), (0x1193Bint, 0x1193Eint), (0x11943int, 0x11943int)]
}

pub open spec fn grapheme_extend_chunk_38() -> Seq<SRange> {
    seq![(0x119D4int, 0x119D7int), (0x119DAint, 0x119DBint), (0x119E0int, 0x119E0int), (0x11A01int, 0x11A0Aint), (0x11A33int, 0x11A38int), (0x11A3Bint, 0x11A3Eint), (0x11A47int, 0x11A47int), (0x11A51int, 0x11A56int)]
}

pub open spec fn grapheme_extend_chunk_39() -> Seq<SRange> {
    seq![(0x11A59int, 0x11A5Bint), (0x11A8Aint, 0x11A96int), (0x11A98int, 0x11A99int), (0x11C30int, 0x11C36int), (0x11C38int, 0x11C3Dint), (0x11C3Fint, 0x11C3Fint), (0x11C92int, 0x11CA7int), (0x11CAAint, 0x11CB0int)]
}

pub open spec fn grapheme_extend_chunk_40() -> Seq<SRange> {
    seq![(0x11CB2int, 0x11CB3int), (0x11CB5int, 0x11CB6int), (0x11D31int, 0x11D36int), (0x11D3Aint, 0x11D3Aint), (0x11D3Cint, 0x11D3Dint), (0x11D3Fint, 0x11D45int), (0x11D47int, 0x11D47int), (0x11D90int, 0x11D91int)]
}

pub open spec fn grapheme_extend_chunk_41() -> Seq<SRange> {
    seq![(0x11D95int, 0x11D95int), (0x11D97int, 0x11D97int), (0x11EF3int, 0x11EF4int), (0x11F00int, 0x11F01int), (0x11F36int, 0x11F3Aint), (0x11F40int, 0x11F42int), (0x11F5Aint, 0x11F5Aint), (0x13440int, 0x13440int)]
}

pub open spec fn grapheme_extend_chunk_42() -> Seq<SRange> {
    seq![(0x13447int, 0x13455int), (0x1611Eint, 0x16129int), (0x1612Dint, 0x1612Fint), (0x16AF0int, 0x16AF4int), (0x16B30int, 0x16B36int), (0x16F4Fint, 0x16F4Fint), (0x16F8Fint, 0x16F92int), (0x16FE4int, 0x16FE4int)]
}

pub open spec fn grapheme_extend_chunk_43() -> Seq<SRange> {
    seq![(0x16FF0int, 0x16FF1int), (0x1BC9Dint, 0x1BC9Eint), (0x1CF00int, 0x1CF2Dint), (0x1CF30int, 0x1CF46int), (0x1D165int, 0x1D169int), (0x1D16Dint, 0x1D172int), (0x1D17Bint, 0x1D182int), (0x1D185int, 0x1D18Bint)]
}

pub open spec fn grapheme_extend_chunk_44() -> Seq<SRange> {
    seq![(0x1D1AAint, 0x1D1ADint), (0x1D242int, 0x1D244int), (0x1DA00int, 0x1DA36int), (0x1DA3Bint, 0x1DA6Cint), (0x1DA75int, 0x1DA75int), (0x1DA84int, 0x1DA84int), (0x1DA9Bint, 0x1DA9Fint), (0x1DAA1int, 0x1DAAFint)]
}

pub open spec fn grapheme_extend_chunk_45() -> Seq<SRange> {
    seq![(0x1E000int, 0x1E006int), (0x1E008int, 0x1E018int), (0x1E01Bint, 0x1E021int), (0x1E023int, 0x1E024int), (0x1E026int, 0x1E02Aint), (0x1E08Fint, 0x1E08Fint), (0x1E130int, 0x1E136int), (0x1E2AEint, 0x1E2AEint)]
}

pub open spec fn grapheme_extend_chunk_46() -> Seq<SRange> {
    seq![(0x1E2ECint, 0x1E2EFint), (0x1E4ECint, 0x1E4EFint), (0x1E5EEint, 0x1E5EFint), (0x1E8D0int, 0x1E8D6int), (0x1E944int, 0x1E94Aint), (0xE0020int, 0xE007Fint), (0xE0100int, 0xE01EFint)]
}

pub open spec fn grapheme_extend_block_0() -> Seq<SRange> {
    grapheme_extend_chunk_0() + grapheme_extend_chunk_1() + grapheme_extend_chunk_2() + grapheme_extend_chunk_3() + grapheme_extend_chunk_4() + grapheme_extend_chunk_5() + grapheme_extend_chunk_6() + grapheme_extend_chunk_7() + grapheme_extend_chunk_8() + grapheme_extend_chunk_9()
}

pub open spec fn grapheme_extend_block_1() -> Seq<SRange> {
    grapheme_extend_chunk_10() + grapheme_extend_chunk_11() + grapheme_extend_chunk_12() + grapheme_extend_chunk_13() + grapheme_extend_chunk_14() + grapheme_extend_chunk_15() + grapheme_extend_chunk_16() + grapheme_extend_chunk_17() + grapheme_extend_chunk_18() + grapheme_extend_chunk_19()
}

pub open spec fn grapheme_extend_block_2() -> Seq<SRange> {
    grapheme_extend_chunk_20() + grapheme_extend_chunk_21() + grapheme_extend_chunk_22() + grapheme_extend_chunk_23() + grapheme_extend_chunk_24() + grapheme_extend_chunk_25() + grapheme_extend_chunk_26() + grapheme_extend_chunk_27() + grapheme_extend_chunk_28() + grapheme_extend_chunk_29()
}

pub open spec fn grapheme_extend_block_3() -> Seq<SRange> {
    grapheme_extend_chunk_30() + grapheme_extend_chunk_31() + grapheme_extend_chunk_32() + grapheme_extend_chunk_33() + grapheme_extend_chunk_34() + grapheme_extend_chunk_35() + grapheme_extend_chunk_36() + grapheme_extend_chunk_37() + grapheme_extend_chunk_38() + grapheme_extend_chunk_39()
}

pub open spec fn grapheme_extend_block_4() -> Seq<SRange> {
    grapheme_extend_chunk_40() + grapheme_extend_chunk_41() + grapheme_extend_chunk_42() + grapheme_extend_chunk_43() + grapheme_extend_chunk_44() + grapheme_extend_chunk_45() + grapheme_extend_chunk_46()
}

/// The ranges of the property Grapheme_Extend.
pub open spec fn grapheme_extend_ranges() -> Seq<SRange> {
    grapheme_extend_block_0() + grapheme_extend_block_1() + grapheme_extend_block_2() + grapheme_extend_block_3() + grapheme_extend_block_4()
}

proof fn lemma_grapheme_extend_block_0()
    ensures
        canonical(grapheme_extend_block_0()),
        grapheme_extend_block_0().len() > 0,
        grapheme_extend_block_0()[0] == grapheme_extend_chunk_0()[0],
        grapheme_extend_block_0().last() == grapheme_extend_chunk_9().last(),
{
    reveal_with_fuel(canonical, 9);
    assert(canonical(grapheme_extend_chunk_0()));
    assert(canonical(grapheme_extend_chunk_1()));
    assert(canonical(grapheme_extend_chunk_2()));
    assert(canonical(grapheme_extend_chunk_3()));
    assert(canonical(grapheme_extend_chunk_4()));
    assert(canonical(grapheme_extend_chunk_5()));
    assert(canonical(grapheme_extend_chunk_6()));
    assert(canonical(grapheme_extend_chunk_7()));
    assert(canonical(grapheme_extend_chunk_8()));
    assert(canonical(grapheme_extend_chunk_9()));
    lemma_canonical_append(grapheme_extend_chunk_0(), grapheme_extend_chunk_1());
    lemma_canonical_append(grapheme_extend_chunk_0() + grapheme_extend_chunk_1(), grapheme_extend_chunk_2());
    lemma_canonical_append(grapheme_extend_chunk_0() + grapheme_extend_chunk_1() + grapheme_extend_chunk_2(), grapheme_extend_chunk_3());
    lemma_canonical_append(grapheme_extend_chunk_0() + grapheme_extend_chunk_1() + grapheme_extend_chunk_2() + grapheme_extend_chunk_3(), grapheme_extend_chunk_4());
    lemma_canonical_append(grapheme_extend_chunk_0() + grapheme_extend_chunk_1() + grapheme_extend_chunk_2() + grapheme_extend_chunk_3() + grapheme_extend_chunk_4(), grapheme_extend_chunk_5());
    lemma_canonical_append(grapheme_extend_chunk_0() + grapheme_extend_chunk_1() + grapheme_extend_chunk_2() + grapheme_extend_chunk_3() + grapheme_extend_chunk_4() + grapheme_extend_chunk_5(), grapheme_extend_chunk_6());
    lemma_canonical_append(grapheme_extend_chunk_0() + grapheme_extend_chunk_1() + grapheme_extend_chunk_2() + grapheme_extend_chunk_3() + grapheme_extend_chunk_4() + grapheme_extend_chunk_5() + grapheme_extend_chunk_6(), grapheme_extend_chunk_7());
    lemma_canonical_append(grapheme_extend_chunk_0() + grapheme_extend_chunk_1() + grapheme_extend_chunk_2() + grapheme_extend_chunk_3() + grapheme_extend_chunk_4() + grapheme_extend_chunk_5() + grapheme_extend_chunk_6() + grapheme_extend_chunk_7(), grapheme_extend_chunk_8());
    lemma_canonical_append(grapheme_extend_chunk_0() + grapheme_extend_chunk_1() + grapheme_extend_chunk_2() + grapheme_extend_chunk_3() + grapheme_extend_chunk_4() + grapheme_extend_chunk_5() + grapheme_extend_chunk_6() + grapheme_extend_chunk_7() + grapheme_extend_chunk_8(), grapheme_extend_chunk_9());
}

proof fn lemma_grapheme_extend_block_1()
    ensures
        canonical(grapheme_extend_block_1()),
        grapheme_extend_block_1().len() > 0,
        grapheme_extend_block_1()[0] == grapheme_extend_chunk_10()[0],
        grapheme_extend_block_1().last() == grapheme_extend_chunk_19().last(),
{
    reveal_with_fuel(canonical, 9);
    assert(canonical(grapheme_extend_chunk_10()));
    assert(canonical(grapheme_extend_chunk_11()));
    assert(canonical(grapheme_extend_chunk_12()));
    assert(canonical(grapheme_extend_chunk_13()));
    assert(canonical(grapheme_extend_chunk_14()));
    assert(canonical(grapheme_extend_chunk_15()));
    assert(canonical(grapheme_extend_chunk_16()));
    assert(canonical(grapheme_extend_chunk_17()));
    assert(canonical(grapheme_extend_chunk_18()));
    assert(canonical(grapheme_extend_chunk_19()));
    lemma_canonical_append(grapheme_extend_chunk_10(), grapheme_extend_chunk_11());
    lemma_canonical_append(grapheme_extend_chunk_10() + grapheme_extend_chunk_11(), grapheme_extend_chunk_12());
    lemma_canonical_append(grapheme_extend_chunk_10() + grapheme_extend_chunk_11() + grapheme_extend_chunk_12(), grapheme_extend_chunk_13());
    lemma_canonical_append(grapheme_extend_chunk_10() + grapheme_extend_chunk_11() + grapheme_extend_chunk_12() + grapheme_extend_chunk_13(), grapheme_extend_chunk_14());
    lemma_canonical_append(grapheme_extend_chunk_10() + grapheme_extend_chunk_11() + grapheme_extend_chunk_12() + grapheme_extend_chunk_13() + grapheme_extend_chunk_14(), grapheme_extend_chunk_15());
    lemma_canonical_append(grapheme_extend_chunk_10() + grapheme_extend_chunk_11() + grapheme_extend_chunk_12() + grapheme_extend_chunk_13() + grapheme_extend_chunk_14() + grapheme_extend_chunk_15(), grapheme_extend_chunk_16());
    lemma_canonical_append(grapheme_extend_chunk_10() + grapheme_extend_chunk_11() + grapheme_extend_chunk_12() + grapheme_extend_chunk_13() + grapheme_extend_chunk_14() + grapheme_extend_chunk_15() + grapheme_extend_chunk_16(), grapheme_extend_chunk_17());
    lemma_canonical_append(grapheme_extend_chunk_10() + grapheme_extend_chunk_11() + grapheme_extend_chunk_12() + grapheme_extend_chunk_13() + grapheme_extend_chunk_14() + grapheme_extend_chunk_15() + grapheme_extend_chunk_16() + grapheme_extend_chunk_17(), grapheme_extend_chunk_18());
    lemma_canonical_append(grapheme_extend_chunk_10() + grapheme_extend_chunk_11() + grapheme_extend_chunk_12() + grapheme_extend_chunk_13() + grapheme_extend_chunk_14() + grapheme_extend_chunk_15() + grapheme_extend_chunk_16() + grapheme_extend_chunk_17() + grapheme_extend_chunk_18(), grapheme_extend_chunk_19());
}

proof fn lemma_grapheme_extend_block_2()
    ensures
        canonical(grapheme_extend_block_2()),
        grapheme_extend_block_2().len() > 0,
        grapheme_extend_block_2()[0] == grapheme_extend_chunk_20()[0],
        grapheme_extend_block_2().last() == grapheme_extend_chunk_29().last(),
{
    reveal_with_fuel(canonical, 9);
    assert(canonical(grapheme_extend_chunk_20()));
    assert(canonical(grapheme_extend_chunk_21()));
    assert(canonical(grapheme_extend_chunk_22()));
    assert(canonical(grapheme_extend_chunk_23()));
    assert(canonical(grapheme_extend_chunk_24()));
    assert(canonical(grapheme_extend_chunk_25()));
    assert(canonical(grapheme_extend_chunk_26()));
    assert(canonical(grapheme_extend_chunk_27()));
    assert(canonical(grapheme_extend_chunk_28()));
    assert(canonical(grapheme_extend_chunk_29()));
    lemma_canonical_append(grapheme_extend_chunk_20(), grapheme_extend_chunk_21());
    lemma_canonical_append(grapheme_extend_chunk_20() + grapheme_extend_chunk_21(), grapheme_extend_chunk_22());
    lemma_canonical_append(grapheme_extend_chunk_20() + grapheme_extend_chunk_21() + grapheme_extend_chunk_22(), grapheme_extend_chunk_23());
    lemma_canonical_append(grapheme_extend_chunk_20() + grapheme_extend_chunk_21() + grapheme_extend_chunk_22() + grapheme_extend_chunk_23(), grapheme_extend_chunk_24());
    lemma_canonical_append(grapheme_extend_chunk_20() + grapheme_extend_chunk_21() + grapheme_extend_chunk_22() + grapheme_extend_chunk_23() + grapheme_extend_chunk_24(), grapheme_extend_chunk_25());
    lemma_canonical_append(grapheme_extend_chunk_20() + grapheme_extend_chunk_21() + grapheme_extend_chunk_22() + grapheme_extend_chunk_23() + grapheme_extend_chunk_24() + grapheme_extend_chunk_25(), grapheme_extend_chunk_26());
    lemma_canonical_append(grapheme_extend_chunk_20() + grapheme_extend_chunk_21() + grapheme_extend_chunk_22() + grapheme_extend_chunk_23() + grapheme_extend_chunk_24() + grapheme_extend_chunk_25() + grapheme_extend_chunk_26(), grapheme_extend_chunk_27());
    lemma_canonical_append(grapheme_extend_chunk_20() + grapheme_extend_chunk_21() + grapheme_extend_chunk_22() + grapheme_extend_chunk_23() + grapheme_extend_chunk_24() + grapheme_extend_chunk_25() + grapheme_extend_chunk_26() + grapheme_extend_chunk_27(), grapheme_extend_chunk_28());
    lemma_canonical_append(grapheme_extend_chunk_20() + grapheme_extend_chunk_21() + grapheme_extend_chunk_22() + grapheme_extend_chunk_23() + grapheme_extend_chunk_24() + grapheme_extend_chunk_25() + grapheme_extend_chunk_26() + grapheme_extend_chunk_27() + grapheme_extend_chunk_28(), grapheme_extend_chunk_29());
}

proof fn lemma_grapheme_extend_block_3()
    ensures
        canonical(grapheme_extend_block_3()),
        grapheme_extend_block_3().len() > 0,
        grapheme_extend_block_3()[0] == grapheme_extend_chunk_30()[0],
        grapheme_extend_block_3().last() == grapheme_extend_chunk_39().last(),
{
    reveal_with_fuel(canonical, 9);
    assert(canonical(grapheme_extend_chunk_30()));
    assert(canonical(grapheme_extend_chunk_31()));
    assert(canonical(grapheme_extend_chunk_32()));
    assert(canonical(grapheme_extend_chunk_33()));
    assert(canonical(grapheme_extend_chunk_34()));
    assert(canonical(grapheme_extend_chunk_35()));
    assert(canonical(grapheme_extend_chunk_36()));
    assert(canonical(grapheme_extend_chunk_37()));
    assert(canonical(grapheme_extend_chunk_38()));
    assert(canonical(grapheme_extend_chunk_39()));
    lemma_canonical_append(grapheme_extend_chunk_30(), grapheme_extend_chunk_31());
    lemma_canonical_append(grapheme_extend_chunk_30() + grapheme_extend_chunk_31(), grapheme_extend_chunk_32());
    lemma_canonical_append(grapheme_extend_chunk_30() + grapheme_extend_chunk_31() + grapheme_extend_chunk_32(), grapheme_extend_chunk_33());
    lemma_canonical_append(grapheme_extend_chunk_30() + grapheme_extend_chunk_31() + grapheme_extend_chunk_32() + grapheme_extend_chunk_33(), grapheme_extend_chunk_34());
    lemma_canonical_append(grapheme_extend_chunk_30() + grapheme_extend_chunk_31() + grapheme_extend_chunk_32() + grapheme_extend_chunk_33() + grapheme_extend_chunk_34(), grapheme_extend_chunk_35());
    lemma_canonical_append(grapheme_extend_chunk_30() + grapheme_extend_chunk_31() + grapheme_extend_chunk_32() + grapheme_extend_chunk_33() + grapheme_extend_chunk_34() + grapheme_extend_chunk_35(), grapheme_extend_chunk_36());
    lemma_canonical_append(grapheme_extend_chunk_30() + grapheme_extend_chunk_31() + grapheme_extend_chunk_32() + grapheme_extend_chunk_33() + grapheme_extend_chunk_34() + grapheme_extend_chunk_35() + grapheme_extend_chunk_36(), grapheme_extend_chunk_37());
    lemma_canonical_append(grapheme_extend_chunk_30() + grapheme_extend_chunk_31() + grapheme_extend_chunk_32() + grapheme_extend_chunk_33() + grapheme_extend_chunk_34() + grapheme_extend_chunk_35() + grapheme_extend_chunk_36() + grapheme_extend_chunk_37(), grapheme_extend_chunk_38());
    lemma_canonical_append(grapheme_extend_chunk_30() + grapheme_extend_chunk_31() + grapheme_extend_chunk_32() + grapheme_extend_chunk_33() + grapheme_extend_chunk_34() + grapheme_extend_chunk_35() + grapheme_extend_chunk_36() + grapheme_extend_chunk_37() + grapheme_extend_chunk_38(), grapheme_extend_chunk_39());
}

proof fn lemma_grapheme_extend_block_4()
    ensures
        canonical(grapheme_extend_block_4()),
        grapheme_extend_block_4().len() > 0,
        grapheme_extend_block_4()[0] == grapheme_extend_chunk_40()[0],
        grapheme_extend_block_4().last() == grapheme_extend_chunk_46().last(),
{
    reveal_with_fuel(canonical, 9);
    assert(canonical(grapheme_extend_chunk_40()));
    assert(canonical(grapheme_extend_chunk_41()));
    assert(canonical(grapheme_extend_chunk_42()));
    assert(canonical(grapheme_extend_chunk_43()));
    assert(canonical(grapheme_extend_chunk_44()));
    assert(canonical(grapheme_extend_chunk_45()));
    assert(canonical(grapheme_extend_chunk_46()));
    lemma_canonical_append(grapheme_extend_chunk_40(), grapheme_extend_chunk_41());
    lemma_canonical_append(grapheme_extend_chunk_40() + grapheme_extend_chunk_41(), grapheme_extend_chunk_42());
    lemma_canonical_append(grapheme_extend_chunk_40() + grapheme_extend_chunk_41() + grapheme_extend_chunk_42(), grapheme_extend_chunk_43());
    lemma_canonical_append(grapheme_extend_chunk_40() + grapheme_extend_chunk_41() + grapheme_extend_chunk_42() + grapheme_extend_chunk_43(), grapheme_extend_chunk_44());
    lemma_canonical_append(grapheme_extend_chunk_40() + grapheme_extend_chunk_41() + grapheme_extend_chunk_42() + grapheme_extend_chunk_43() + grapheme_extend_chunk_44(), grapheme_extend_chunk_45());
    lemma_canonical_append(grapheme_extend_chunk_40() + grapheme_extend_chunk_41() + grapheme_extend_chunk_42() + grapheme_extend_chunk_43() + grapheme_extend_chunk_44() + grapheme_extend_chunk_45(), grapheme_extend_chunk_46());
}

pub proof fn lemma_grapheme_extend_canonical()
    ensures
        canonical(grapheme_extend_ranges()),
{
    lemma_grapheme_extend_block_0();
    lemma_grapheme_extend_block_1();
    lemma_grapheme_extend_block_2();
    lemma_grapheme_extend_block_3();
    lemma_grapheme_extend_block_4();
    lemma_canonical_append(grapheme_extend_block_0(), grapheme_extend_block_1());
    lemma_canonical_append(grapheme_extend_block_0() + grapheme_extend_block_1(), grapheme_extend_block_2());
    lemma_canonical_append(grapheme_extend_block_0() + grapheme_extend_block_1() + grapheme_extend_block_2(), grapheme_extend_block_3());
    lemma_canonical_append(grapheme_extend_block_0() + grapheme_extend_block_1() + grapheme_extend_block_2() + grapheme_extend_block_3(), grapheme_extend_block_4());
}

fn push_grapheme_extend_chunk_0(v: &mut Vec<ClassUnicodeRange>)
    ensures
        rview(final(v)@) == rview(old(v)@) + grapheme_extend_chunk_0(),
{
    let ghost o = rview(v@);
    push_range(v, '\u{300}', '\u{36F}');
    push_range(v, '\u{483}', '\u{489}');
    push_range(v, '\u{591}', '\u{5BD}');
    push_range(v, '\u{5BF}', '\u{5BF}');
    push_range(v, '\u{5C1}', '\u{5C2}');
    push_range(v, '\u{5C4}', '\u{5C5}');
    push_range(v, '\u{5C7}', '\u{5C7}');
    push_range(v, '\u{610}', '\u{61A}');
    assert(rview(v@) =~= o + grapheme_extend_chunk_0());
}

fn push_grapheme_extend_chunk_1(v: &mut Vec<ClassUnicodeRange>)
    ensures
        rview(final(v)@) == rview(old(v)@) + grapheme_extend_chunk_1(),
{
    let ghost o = rview(v@);
    push_range(v, '\u{64B}', '\u{65F}');
    push_range(v, '\u{670}', '\u{670}');
    push_range(v, '\u{6D6}', '\u{6DC}');
    push_range(v, '\u{6DF}', '\u{6E4}');
    push_range(v, '\u{6E7}', '\u{6E8}');
    push_range(v, '\u{6EA}', '\u{6ED}');
    push_range(v, '\u{711}', '\u{711}');
    push_range(v, '\u{730}', '\u{74A}');
    assert(rview(v@) =~= o + grapheme_extend_chunk_1());
}

fn push_grapheme_extend_chunk_2(v: &mut Vec<ClassUnicodeRange>)
    ensures
        rview(final(v)@) == rview(old(v)@) + grapheme_extend_chunk_2(),
{
    let ghost o = rview(v@);
    push_range(v, '\u{7A6}', '\u{7B0}');
    push_range(v, '\u{7EB}', '\u{7F3}');
    push_range(v, '\u{7FD}', '\u{7FD}');
    push_range(v, '\u{816}', '\u{819}');
    push_range(v, '\u{81B}', '\u{823}');
    push_range(v, '\u{825}', '\u{827}');
    push_range(v, '\u{829}', '\u{82D}');
    push_range(v, '\u{859}', '\u{85B}');
    assert(rview(v@) =~= o + grapheme_extend_chunk_2());
}

fn push_grapheme_extend_chunk_3(v: &mut Vec<ClassUnicodeRange>)
    ensures
        rview(final(v)@) == rview(old(v)@) + grapheme_extend_chunk_3(),
{
    let ghost o = rview(v@);
    push_range(v, '\u{897}', '\u{89F}');
    push_range(v, '\u{8CA}', '\u{8E1}');
    push_range(v, '\u{8E3}', '\u{902}');
    push_range(v, '\u{93A}', '\u{93A}');
    push_range(v, '\u{93C}', '\u{93C}');
    push_range(v, '\u{941}', '\u{948}');
    push_range(v, '\u{94D}', '\u{94D}');
    push_range(v, '\u{951}', '\u{957}');
    assert(rview(v@) =~= o + grapheme_extend_chunk_3());
}

fn push_grapheme_extend_chunk_4(v: &mut Vec<ClassUnicodeRange>)
    ensures
        rview(final(v)@) == rview(old(v)@) + grapheme_extend_chunk_4(),
{
    let ghost o = rview(v@);
    push_range(v, '\u{962}', '\u{963}');
    push_range(v, '\u{981}', '\u{981}');
    push_range(v, '\u{9BC}', '\u{9BC}');
    push_range(v, '\u{9BE}', '\u{9BE}');
    push_range(v, '\u{9C1}', '\u{9C4}');
    push_range(v, '\u{9CD}', '\u{9CD}');
    push_range(v, '\u{9D7}', '\u{9D7}');
    push_range(v, '\u{9E2}', '\u{9E3}');
    assert(rview(v@) =~= o + grapheme_extend_chunk_4());
}

fn push_grapheme_extend_chunk_5(v: &mut Vec<ClassUnicodeRange>)
    ensures
        rview(final(v)@) == rview(old(v)@) + grapheme_extend_chunk_5(),
{
    let ghost o = rview(v@);
    push_range(v, '\u{9FE}', '\u{9FE}');
    push_range(v, '\u{A01}', '\u{A02}');
    push_range(v, '\u{A3C}', '\u{A3C}');
    push_range(v, '\u{A41}', '\u{A42}');
    push_range(v, '\u{A47}', '\u{A48}');
    push_range(v, '\u{A4B}', '\u{A4D}');
    push_range(v, '\u{A51}', '\u{A51}');
    push_range(v, '\u{A70}', '\u{A71}');
    assert(rview(v@) =~= o + grapheme_extend_chunk_5());
}

fn push_grapheme_extend_chunk_6(v: &mut Vec<ClassUnicodeRange>)
    ensures
        rview(final(v)@) == rview(old(v)@) + grapheme_extend_chunk_6(),
{
    let ghost o = rview(v@);
    push_range(v, '\u{A75}', '\u{A75}');
    push_range(v, '\u{A81}', '\u{A82}');
    push_range(v, '\u{ABC}', '\u{ABC}');
    push_range(v, '\u{AC1}', '\u{AC5}');
    push_range(v, '\u{AC7}', '\u{AC8}');
    push_range(v, '\u{ACD}', '\u{ACD}');
    push_range(v, '\u{AE2}', '\u{AE3}');
    push_range(v, '\u{AFA}', '\u{AFF}');
    assert(rview(v@) =~= o + grapheme_extend_chunk_6());
}

fn push_grapheme_extend_chunk_7(v: &mut Vec<ClassUnicodeRange>)
    ensures
        rview(final(v)@) == rview(old(v)@) + grapheme_extend_chunk_7(),
{
    let ghost o = rview(v@);
    push_range(v, '\u{B01}', '\u{B01}');
    push_range(v, '\u{B3C}', '\u{B3C}');
    push_range(v, '\u{B3E}', '\u{B3F}');
    push_range(v, '\u{B41}', '\u{B44}');
    push_range(v, '\u{B4D}', '\u{B4D}');
    push_range(v, '\u{B55}', '\u{B57}');
    push_range(v, '\u{B62}', '\u{B63}');
    push_range(v, '\u{B82}', '\u{B82}');
    assert(rview(v@) =~= o + grapheme_extend_chunk_7());
}

fn push_grapheme_extend_chunk_8(v: &mut Vec<ClassUnicodeRange>)
    ensures
        rview(final(v)@) == rview(old(v)@) + grapheme_extend_chunk_8(),
{
    let ghost o = rview(v@);
    push_range(v, '\u{BBE}', '\u{BBE}');
    push_range(v, '\u{BC0}', '\u{BC0}');
    push_range(v, '\u{BCD}', '\u{BCD}');
    push_range(v, '\u{BD7}', '\u{BD7}');
    push_range(v, '\u{C00}', '\u{C00}');
    push_range(v, '\u{C04}', '\u{C04}');
    push_range(v, '\u{C3C}', '\u{C3C}');
    push_range(v, '\u{C3E}', '\u{C40}');
    assert(rview(v@) =~= o + grapheme_extend_chunk_8());
}

fn push_grapheme_extend_chunk_9(v: &mut Vec<ClassUnicodeRange>)
    ensures
        rview(final(v)@) == rview(old(v)@) + grapheme_extend_chunk_9(),
{
    let ghost o = rview(v@);
    push_range(v, '\u{C46}', '\u{C48}');
    push_range(v, '\u{C4A}', '\u{C4D}');
    push_range(v, '\u{C55}', '\u{C56}');
    push_range(v, '\u{C62}', '\u{C63}');
    push_range(v, '\u{C81}', '\u{C81}');
    push_range(v, '\u{CBC}', '\u{CBC}');
    push_range(v, '\u{CBF}', '\u{CC0}');
    push_range(v, '\u{CC2}', '\u{CC2}');
    assert(rview(v@) =~= o + grapheme_extend_chunk_9());
}

fn push_grapheme_extend_chunk_10(v: &mut Vec<ClassUnicodeRange>)
    ensures
        rview(final(v)@) == rview(old(v)@) + grapheme_extend_chunk_10(),
{
    let ghost o = rview(v@);
    push_range(v, '\u{CC6}', '\u{CC8}');
    push_range(v, '\u{CCA}', '\u{CCD}');
    push_range(v, '\u{CD5}', '\u{CD6}');
    push_range(v, '\u{CE2}', '\u{CE3}');
    push_range(v, '\u{D00}', '\u{D01}');
    push_range(v, '\u{D3B}', '\u{D3C}');
    push_range(v, '\u{D3E}', '\u{D3E}');
    push_range(v, '\u{D41}', '\u{D44}');
    assert(rview(v@) =~= o + grapheme_extend_chunk_10());
}

fn push_grapheme_extend_chunk_11(v: &mut Vec<ClassUnicodeRange>)
    ensures
        rview(final(v)@) == rview(old(v)@) + grapheme_extend_chunk_11(),
{
    let ghost o = rview(v@);
    push_range(v, '\u{D4D}', '\u{D4D}');
    push_range(v, '\u{D57}', '\u{D57}');
    push_range(v, '\u{D62}', '\u{D63}');
    push_range(v, '\u{D81}', '\u{D81}');
    push_range(v, '\u{DCA}', '\u{DCA}');
    push_range(v, '\u{DCF}', '\u{DCF}');
    push_range(v, '\u{DD2}', '\u{DD4}');
    push_range(v, '\u{DD6}', '\u{DD6}');
    assert(rview(v@) =~= o + grapheme_extend_chunk_11());
}

fn push_grapheme_extend_chunk_12(v: &mut Vec<ClassUnicodeRange>)
    ensures
        rview(final(v)@) == rview(old(v)@) + grapheme_extend_chunk_12(),
{
    let ghost o = rview(v@);
    push_range(v, '\u{DDF}', '\u{DDF}');
    push_range(v, '\u{E31}', '\u{E31}');
    push_range(v, '\u{E34}', '\u{E3A}');
    push_range(v, '\u{E47}', '\u{E4E}');
    push_range(v, '\u{EB1}', '\u{EB1}');
    push_range(v, '\u{EB4}', '\u{EBC}');
    push_range(v, '\u{EC8}', '\u{ECE}');
    push_range(v, '\u{F18}', '\u{F19}');
    assert(rview(v@) =~= o + grapheme_extend_chunk_12());
}

fn push_grapheme_extend_chunk_13(v: &mut Vec<ClassUnicodeRange>)
    ensures
        rview(final(v)@) == rview(old(v)@) + grapheme_extend_chunk_13(),
{
    let ghost o = rview(v@);
    push_range(v, '\u{F35}', '\u{F35}');
    push_range(v, '\u{F37}', '\u{F37}');
    push_range(v, '\u{F39}', '\u{F39}');
    push_range(v, '\u{F71}', '\u{F7E}');
    push_range(v, '\u{F80}', '\u{F84}');
    push_range(v, '\u{F86}', '\u{F87}');
    push_range(v, '\u{F8D}', '\u{F97}');
    push_range(v, '\u{F99}', '\u{FBC}');
    assert(rview(v@) =~= o + grapheme_extend_chunk_13());
}

fn push_grapheme_extend_chunk_14(v: &mut Vec<ClassUnicodeRange>)
    ensures
        rview(final(v)@) == rview(old(v)@) + grapheme_extend_chunk_14(),
{
    let ghost o = rview(v@);
    push_range(v, '\u{FC6}', '\u{FC6}');
    push_range(v, '\u{102D}', '\u{1030}');
    push_range(v, '\u{1032}', '\u{1037}');
    push_range(v, '\u{1039}', '\u{103A}');
    push_range(v, '\u{103D}', '\u{103E}');
    push_range(v, '\u{1058}', '\u{1059}');
    push_range(v, '\u{105E}', '\u{1060}');
    push_range(v, '\u{1071}', '\u{1074}');
    assert(rview(v@) =~= o + grapheme_extend_chunk_14());
}

fn push_grapheme_extend_chunk_15(v: &mut Vec<ClassUnicodeRange>)
    ensures
        rview(final(v)@) == rview(old(v)@) + grapheme_extend_chunk_15(),
{
    let ghost o = rview(v@);
    push_range(v, '\u{1082}', '\u{1082}');
    push_range(v, '\u{1085}', '\u{1086}');
    push_range(v, '\u{108D}', '\u{108D}');
    push_range(v, '\u{109D}', '\u{109D}');
    push_range(v, '\u{135D}', '\u{135F}');
    push_range(v, '\u{1712}', '\u{1715}');
    push_range(v, '\u{1732}', '\u{1734}');
    push_range(v, '\u{1752}', '\u{1753}');
    assert(rview(v@) =~= o + grapheme_extend_chunk_15());
}

fn push_grapheme_extend_chunk_16(v: &mut Vec<ClassUnicodeRange>)
    ensures
        rview(final(v)@) == rview(old(v)@) + grapheme_extend_chunk_16(),
{
    let ghost o = rview(v@);
    push_range(v, '\u{1772}', '\u{1773}');
    push_range(v, '\u{17B4}', '\u{17B5}');
    push_range(v, '\u{17B7}', '\u{17BD}');
    push_range(v, '\u{17C6}', '\u{17C6}');
    push_range(v, '\u{17C9}', '\u{17D3}');
    push_range(v, '\u{17DD}', '\u{17DD}');
    push_range(v, '\u{180B}', '\u{180D}');
    push_range(v, '\u{180F}', '\u{180F}');
    assert(rview(v@) =~= o + grapheme_extend_chunk_16());
}

fn push_grapheme_extend_chunk_17(v: &mut Vec<ClassUnicodeRange>)
    ensures
        rview(final(v)@) == rview(old(v)@) + grapheme_extend_chunk_17(),
{
    let ghost o = rview(v@);
    push_range(v, '\u{1885}', '\u{1886}');
    push_range(v, '\u{18A9}', '\u{18A9}');
    push_range(v, '\u{1920}', '\u{1922}');
    push_range(v, '\u{1927}', '\u{1928}');
    push_range(v, '\u{1932}', '\u{1932}');
    push_range(v, '\u{1939}', '\u{193B}');
    push_range(v, '\u{1A17}', '\u{1A18}');
    push_range(v, '\u{1A1B}', '\u{1A1B}');
    assert(rview(v@) =~= o + grapheme_extend_chunk_17());
}

fn push_grapheme_extend_chunk_18(v: &mut Vec<ClassUnicodeRange>)
    ensures
        rview(final(v)@) == rview(old(v)@) + grapheme_extend_chunk_18(),
{
    let ghost o = rview(v@);
    push_range(v, '\u{1A56}', '\u{1A56}');
    push_range(v, '\u{1A58}', '\u{1A5E}');
    push_range(v, '\u{1A60}', '\u{1A60}');
    push_range(v, '\u{1A62}', '\u{1A62}');
    push_range(v, '\u{1A65}', '\u{1A6C}');
    push_range(v, '\u{1A73}', '\u{1A7C}');
    push_range(v, '\u{1A7F}', '\u{1A7F}');
    push_range(v, '\u{1AB0}', '\u{1ACE}');
    assert(rview(v@) =~= o + grapheme_extend_chunk_18());
}

fn push_grapheme_extend_chunk_19(v: &mut Vec<ClassUnicodeRange>)
    ensures
        rview(final(v)@) == rview(old(v)@) + grapheme_extend_chunk_19(),
{
    let ghost o = rview(v@);
    push_range(v, '\u{1B00}', '\u{1B03}');
    push_range(v, '\u{1B34}', '\u{1B3D}');
    push_range(v, '\u{1B42}', '\u{1B44}');
    push_range(v, '\u{1B6B}', '\u{1B73}');
    push_range(v, '\u{1B80}', '\u{1B81}');
    push_range(v, '\u{1BA2}', '\u{1BA5}');
    push_range(v, '\u{1BA8}', '\u{1BAD}');
    push_range(v, '\u{1BE6}', '\u{1BE6}');
    assert(rview(v@) =~= o + grapheme_extend_chunk_19());
}

fn push_grapheme_extend_chunk_20(v: &mut Vec<ClassUnicodeRange>)
    ensures
        rview(final(v)@) == rview(old(v)@) + grapheme_extend_chunk_20(),
{
    let ghost o = rview(v@);
    push_range(v, '\u{1BE8}', '\u{1BE9}');
    push_range(v, '\u{1BED}', '\u{1BED}');
    push_range(v, '\u{1BEF}', '\u{1BF3}');
    push_range(v, '\u{1C2C}', '\u{1C33}');
    push_range(v, '\u{1C36}', '\u{1C37}');
    push_range(v, '\u{1CD0}', '\u{1CD2}');
    push_range(v, '\u{1CD4}', '\u{1CE0}');
    push_range(v, '\u{1CE2}', '\u{1CE8}');
    assert(rview(v@) =~= o + grapheme_extend_chunk_20());
}

fn push_grapheme_extend_chunk_21(v: &mut Vec<ClassUnicodeRange>)
    ensures
        rview(final(v)@) == rview(old(v)@) + grapheme_extend_chunk_21(),
{
    let ghost o = rview(v@);
    push_range(v, '\u{1CED}', '\u{1CED}');
    push_range(v, '\u{1CF4}', '\u{1CF4}');
    push_range(v, '\u{1CF8}', '\u{1CF9}');
    push_range(v, '\u{1DC0}', '\u{1DFF}');
    push_range(v, '\u{200C}', '\u{200C}');
    push_range(v, '\u{20D0}', '\u{20F0}');
    push_range(v, '\u{2CEF}', '\u{2CF1}');
    push_range(v, '\u{2D7F}', '\u{2D7F}');
    assert(rview(v@) =~= o + grapheme_extend_chunk_21());
}

fn push_grapheme_extend_chunk_22(v: &mut Vec<ClassUnicodeRange>)
    ensures
        rview(final(v)@) == rview(old(v)@) + grapheme_extend_chunk_22(),
{
    let ghost o = rview(v@);
    push_range(v, '\u{2DE0}', '\u{2DFF}');
    push_range(v, '\u{302A}', '\u{302F}');
    push_range(v, '\u{3099}', '\u{309A}');
    push_range(v, '\u{A66F}', '\u{A672}');
    push_range(v, '\u{A674}', '\u{A67D}');
    push_range(v, '\u{A69E}', '\u{A69F}');
    push_range(v, '\u{A6F0}', '\u{A6F1}');
    push_range(v, '\u{A802}', '\u{A802}');
    assert(rview(v@) =~= o + grapheme_extend_chunk_22());
}

fn push_grapheme_extend_chunk_23(v: &mut Vec<ClassUnicodeRange>)
    ensures
        rview(final(v)@) == rview(old(v)@) + grapheme_extend_chunk_23(),
{
    let ghost o = rview(v@);
    push_range(v, '\u{A806}', '\u{A806}');
    push_range(v, '\u{A80B}', '\u{A80B}');
    push_range(v, '\u{A825}', '\u{A826}');
    push_range(v, '\u{A82C}', '\u{A82C}');
    push_range(v, '\u{A8C4}', '\u{A8C5}');
    push_range(v, '\u{A8E0}', '\u{A8F1}');
    push_range(v, '\u{A8FF}', '\u{A8FF}');
    push_range(v, '\u{A926}', '\u{A92D}');
    assert(rview(v@) =~= o + grapheme_extend_chunk_23());
}

fn push_grapheme_extend_chunk_24(v: &mut Vec<ClassUnicodeRange>)
    ensures
        rview(final(v)@) == rview(old(v)@) + grapheme_extend_chunk_24(),
{
    let ghost o = rview(v@);
    push_range(v, '\u{A947}', '\u{A951}');
    push_range(v, '\u{A953}', '\u{A953}');
    push_range(v, '\u{A980}', '\u{A982}');
    push_range(v, '\u{A9B3}', '\u{A9B3}');
    push_range(v, '\u{A9B6}', '\u{A9B9}');
    push_range(v, '\u{A9BC}', '\u{A9BD}');
    push_range(v, '\u{A9C0}', '\u{A9C0}');
    push_range(v, '\u{A9E5}', '\u{A9E5}');
    assert(rview(v@) =~= o + grapheme_extend_chunk_24());
}

fn push_grapheme_extend_chunk_25(v: &mut Vec<ClassUnicodeRange>)
    ensures
        rview(final(v)@) == rview(old(v)@) + grapheme_extend_chunk_25(),
{
    let ghost o = rview(v@);
    push_range(v, '\u{AA29}', '\u{AA2E}');
    push_range(v, '\u{AA31}', '\u{AA32}');
    push_range(v, '\u{AA35}', '\u{AA36}');
    push_range(v, '\u{AA43}', '\u{AA43}');
    push_range(v, '\u{AA4C}', '\u{AA4C}');
    push_range(v, '\u{AA7C}', '\u{AA7C}');
    push_range(v, '\u{AAB0}', '\u{AAB0}');
    push_range(v, '\u{AAB2}', '\u{AAB4}');
    assert(rview(v@) =~= o + grapheme_extend_chunk_25());
}

fn push_grapheme_extend_chunk_26(v: &mut Vec<ClassUnicodeRange>)
    ensures
        rview(final(v)@) == rview(old(v)@) + grapheme_extend_chunk_26(),
{
    let ghost o = rview(v@);
    push_range(v, '\u{AAB7}', '\u{AAB8}');
    push_range(v, '\u{AABE}', '\u{AABF}');
    push_range(v, '\u{AAC1}', '\u{AAC1}');
    push_range(v, '\u{AAEC}', '\u{AAED}');
    push_range(v, '\u{AAF6}', '\u{AAF6}');
    push_range(v, '\u{ABE5}', '\u{ABE5}');
    push_range(v, '\u{ABE8}', '\u{ABE8}');
    push_range(v, '\u{ABED}', '\u{ABED}');
    assert(rview(v@) =~= o + grapheme_extend_chunk_26());
}

fn push_grapheme_extend_chunk_27(v: &mut Vec<ClassUnicodeRange>)
    ensures
        rview(final(v)@) == rview(old(v)@) + grapheme_extend_chunk_27(),
{
    let ghost o = rview(v@);
    push_range(v, '\u{FB1E}', '\u{FB1E}');
    push_range(v, '\u{FE00}', '\u{FE0F}');
    push_range(v, '\u{FE20}', '\u{FE2F}');
    push_range(v, '\u{FF9E}', '\u{FF9F}');
    push_range(v, '\u{101FD}', '\u{101FD}');
    push_range(v, '\u{102E0}', '\u{102E0}');
    push_range(v, '\u{10376}', '\u{1037A}');
    push_range(v, '\u{10A01}', '\u{10A03}');
    assert(rview(v@) =~= o + grapheme_extend_chunk_27());
}

fn push_grapheme_extend_chunk_28(v: &mut Vec<ClassUnicodeRange>)
    ensures
        rview(final(v)@) == rview(old(v)@) + grapheme_extend_chunk_28(),
{
    let ghost o = rview(v@);
    push_range(v, '\u{10A05}', '\u{10A06}');
    push_range(v, '\u{10A0C}', '\u{10A0F}');
    push_range(v, '\u{10A38}', '\u{10A3A}');
    push_range(v, '\u{10A3F}', '\u{10A3F}');
    push_range(v, '\u{10AE5}', '\u{10AE6}');
    push_range(v, '\u{10D24}', '\u{10D27}');
    push_range(v, '\u{10D69}', '\u{10D6D}');
    push_range(v, '\u{10EAB}', '\u{10EAC}');
    assert(rview(v@) =~= o + grapheme_extend_chunk_28());
}

fn push_grapheme_extend_chunk_29(v: &mut Vec<ClassUnicodeRange>)
    ensures
        rview(final(v)@) == rview(old(v)@) + grapheme_extend_chunk_29(),
{
    let ghost o = rview(v@);
    push_range(v, '\u{10EFC}', '\u{10EFF}');
    push_range(v, '\u{10F46}', '\u{10F50}');
    push_range(v, '\u{10F82}', '\u{10F85}');
    push_range(v, '\u{11001}', '\u{11001}');
    push_range(v, '\u{11038}', '\u{11046}');
    push_range(v, '\u{11070}', '\u{11070}');
    push_range(v, '\u{11073}', '\u{11074}');
    push_range(v, '\u{1107F}', '\u{11081}');
    assert(rview(v@) =~= o + grapheme_extend_chunk_29());
}

fn push_grapheme_extend_chunk_30(v: &mut Vec<ClassUnicodeRange>)
    ensures
        rview(final(v)@) == rview(old(v)@) + grapheme_extend_chunk_30(),
{
    let ghost o = rview(v@);
    push_range(v, '\u{110B3}', '\u{110B6}');
    push_range(v, '\u{110B9}', '\u{110BA}');
    push_range(v, '\u{110C2}', '\u{110C2}');
    push_range(v, '\u{11100}', '\u{11102}');
    push_range(v, '\u{11127}', '\u{1112B}');
    push_range(v, '\u{1112D}', '\u{11134}');
    push_range(v, '\u{11173}', '\u{11173}');
    push_range(v, '\u{11180}', '\u{11181}');
    assert(rview(v@) =~= o + grapheme_extend_chunk_30());
}

fn push_grapheme_extend_chunk_31(v: &mut Vec<ClassUnicodeRange>)
    ensures
        rview(final(v)@) == rview(old(v)@) + grapheme_extend_chunk_31(),
{
    let ghost o = rview(v@);
    push_range(v, '\u{111B6}', '\u{111BE}');
    push_range(v, '\u{111C0}', '\u{111C0}');
    push_range(v, '\u{111C9}', '\u{111CC}');
    push_range(v, '\u{111CF}', '\u{111CF}');
    push_range(v, '\u{1122F}', '\u{11231}');
    push_range(v, '\u{11234}', '\u{11237}');
    push_range(v, '\u{1123E}', '\u{1123E}');
    push_range(v, '\u{11241}', '\u{11241}');
    assert(rview(v@) =~= o + grapheme_extend_chunk_31());
}

fn push_grapheme_extend_chunk_32(v: &mut Vec<ClassUnicodeRange>)
    ensures
        rview(final(v)@) == rview(old(v)@) + grapheme_extend_chunk_32(),
{
    let ghost o = rview(v@);
    push_range(v, '\u{112DF}', '\u{112DF}');
    push_range(v, '\u{112E3}', '\u{112EA}');
    push_range(v, '\u{11300}', '\u{11301}');
    push_range(v, '\u{1133B}', '\u{1133C}');
    push_range(v, '\u{1133E}', '\u{1133E}');
    push_range(v, '\u{11340}', '\u{11340}');
    push_range(v, '\u{1134D}', '\u{1134D}');
    push_range(v, '\u{11357}', '\u{11357}');
    assert(rview(v@) =~= o + grapheme_extend_chunk_32());
}

fn push_grapheme_extend_chunk_33(v: &mut Vec<ClassUnicodeRange>)
    ensures
        rview(final(v)@) == rview(old(v)@) + grapheme_extend_chunk_33(),
{
    let ghost o = rview(v@);
    push_range(v, '\u{11366}', '\u{1136C}');
    push_range(v, '\u{11370}', '\u{11374}');
    push_range(v, '\u{113B8}', '\u{113B8}');
    push_range(v, '\u{113BB}', '\u{113C0}');
    push_range(v, '\u{113C2}', '\u{113C2}');
    push_range(v, '\u{113C5}', '\u{113C5}');
    push_range(v, '\u{113C7}', '\u{113C9}');
    push_range(v, '\u{113CE}', '\u{113D0}');
    assert(rview(v@) =~= o + grapheme_extend_chunk_33());
}

fn push_grapheme_extend_chunk_34(v: &mut Vec<ClassUnicodeRange>)
    ensures
        rview(final(v)@) == rview(old(v)@) + grapheme_extend_chunk_34(),
{
    let ghost o = rview(v@);
    push_range(v, '\u{113D2}', '\u{113D2}');
    push_range(v, '\u{113E1}', '\u{113E2}');
    push_range(v, '\u{11438}', '\u{1143F}');
    push_range(v, '\u{11442}', '\u{11444}');
    push_range(v, '\u{11446}', '\u{11446}');
    push_range(v, '\u{1145E}', '\u{1145E}');
    push_range(v, '\u{114B0}', '\u{114B0}');
    push_range(v, '\u{114B3}', '\u{114B8}');
    assert(rview(v@) =~= o + grapheme_extend_chunk_34());
}

fn push_grapheme_extend_chunk_35(v: &mut Vec<ClassUnicodeRange>)
    ensures
        rview(final(v)@) == rview(old(v)@) + grapheme_extend_chunk_35(),
{
    let ghost o = rview(v@);
    push_range(v, '\u{114BA}', '\u{114BA}');
    push_range(v, '\u{114BD}', '\u{114BD}');
    push_range(v, '\u{114BF}', '\u{114C0}');
    push_range(v, '\u{114C2}', '\u{114C3}');
    push_range(v, '\u{115AF}', '\u{115AF}');
    push_range(v, '\u{115B2}', '\u{115B5}');
    push_range(v, '\u{115BC}', '\u{115BD}');
    push_range(v, '\u{115BF}', '\u{115C0}');
    assert(rview(v@) =~= o + grapheme_extend_chunk_35());
}

fn push_grapheme_extend_chunk_36(v: &mut Vec<ClassUnicodeRange>)
    ensures
        rview(final(v)@) == rview(old(v)@) + grapheme_extend_chunk_36(),
{
    let ghost o = rview(v@);
    push_range(v, '\u{115DC}', '\u{115DD}');
    push_range(v, '\u{11633}', '\u{1163A}');
    push_range(v, '\u{1163D}', '\u{1163D}');
    push_range(v, '\u{1163F}', '\u{11640}');
    push_range(v, '\u{116AB}', '\u{116AB}');
    push_range(v, '\u{116AD}', '\u{116AD}');
    push_range(v, '\u{116B0}', '\u{116B7}');
    push_range(v, '\u{1171D}', '\u{1171D}');
    assert(rview(v@) =~= o + grapheme_extend_chunk_36());
}

fn push_grapheme_extend_chunk_37(v: &mut Vec<ClassUnicodeRange>)
    ensures
        rview(final(v)@) == rview(old(v)@) + grapheme_extend_chunk_37(),
{
    let ghost o = rview(v@);
    push_range(v, '\u{1171F}', '\u{1171F}');
    push_range(v, '\u{11722}', '\u{11725}');
    push_range(v, '\u{11727}', '\u{1172B}');
    push_range(v, '\u{1182F}', '\u{11837}');
    push_range(v, '\u{11839}', '\u{1183A}');
    push_range(v, '\u{11930}', '\u{11930}');
    push_range(v, '\u{1193B}', '\u{1193E}');
    push_range(v, '\u{11943}', '\u{11943}');
    assert(rview(v@) =~= o + grapheme_extend_chunk_37());
}

fn push_grapheme_extend_chunk_38(v: &mut Vec<ClassUnicodeRange>)
    ensures
        rview(final(v)@) == rview(old(v)@) + grapheme_extend_chunk_38(),
{
    let ghost o = rview(v@);
    push_range(v, '\u{119D4}', '\u{119D7}');
    push_range(v, '\u{119DA}', '\u{119DB}');
    push_range(v, '\u{119E0}', '\u{119E0}');
    push_range(v, '\u{11A01}', '\u{11A0A}');
    push_range(v, '\u{11A33}', '\u{11A38}');
    push_range(v, '\u{11A3B}', '\u{11A3E}');
    push_range(v, '\u{11A47}', '\u{11A47}');
    push_range(v, '\u{11A51}', '\u{11A56}');
    assert(rview(v@) =~= o + grapheme_extend_chunk_38());
}

fn push_grapheme_extend_chunk_39(v: &mut Vec<ClassUnicodeRange>)
    ensures
        rview(final(v)@) == rview(old(v)@) + grapheme_extend_chunk_39(),
{
    let ghost o = rview(v@);
    push_range(v, '\u{11A59}', '\u{11A5B}');
    push_range(v, '\u{11A8A}', '\u{11A96}');
    push_range(v, '\u{11A98}', '\u{11A99}');
    push_range(v, '\u{11C30}', '\u{11C36}');
    push_range(v, '\u{11C38}', '\u{11C3D}');
    push_range(v, '\u{11C3F}', '\u{11C3F}');
    push_range(v, '\u{11C92}', '\u{11CA7}');
    push_range(v, '\u{11CAA}', '\u{11CB0}');
    assert(rview(v@) =~= o + grapheme_extend_chunk_39());
}

fn push_grapheme_extend_chunk_40(v: &mut Vec<ClassUnicodeRange>)
    ensures
        rview(final(v)@) == rview(old(v)@) + grapheme_extend_chunk_40(),
{
    let ghost o = rview(v@);
    push_range(v, '\u{11CB2}', '\u{11CB3}');
    push_range(v, '\u{11CB5}', '\u{11CB6}');
    push_range(v, '\u{11D31}', '\u{11D36}');
    push_range(v, '\u{11D3A}', '\u{11D3A}');
    push_range(v, '\u{11D3C}', '\u{11D3D}');
    push_range(v, '\u{11D3F}', '\u{11D45}');
    push_range(v, '\u{11D47}', '\u{11D47}');
    push_range(v, '\u{11D90}', '\u{11D91}');
    assert(rview(v@) =~= o + grapheme_extend_chunk_40());
}

fn push_grapheme_extend_chunk_41(v: &mut Vec<ClassUnicodeRange>)
    ensures
        rview(final(v)@) == rview(old(v)@) + grapheme_extend_chunk_41(),
{
    let ghost o = rview(v@);
    push_range(v, '\u{11D95}', '\u{11D95}');
    push_range(v, '\u{11D97}', '\u{11D97}');
    push_range(v, '\u{11EF3}', '\u{11EF4}');
    push_range(v, '\u{11F00}', '\u{11F01}');
    push_range(v, '\u{11F36}', '\u{11F3A}');
    push_range(v, '\u{11F40}', '\u{11F42}');
    push_range(v, '\u{11F5A}', '\u{11F5A}');
    push_range(v, '\u{13440}', '\u{13440}');
    assert(rview(v@) =~= o + grapheme_extend_chunk_41());
}

fn push_grapheme_extend_chunk_42(v: &mut Vec<ClassUnicodeRange>)
    ensures
        rview(final(v)@) == rview(old(v)@) + grapheme_extend_chunk_42(),
{
    let ghost o = rview(v@);
    push_range(v, '\u{13447}', '\u{13455}');
    push_range(v, '\u{1611E}', '\u{16129}');
    push_range(v, '\u{1612D}', '\u{1612F}');
    push_range(v, '\u{16AF0}', '\u{16AF4}');
    push_range(v, '\u{16B30}', '\u{16B36}');
    push_range(v, '\u{16F4F}', '\u{16F4F}');
    push_range(v, '\u{16F8F}', '\u{16F92}');
    push_range(v, '\u{16FE4}', '\u{16FE4}');
    assert(rview(v@) =~= o + grapheme_extend_chunk_42());
}

fn push_grapheme_extend_chunk_43(v: &mut Vec<ClassUnicodeRange>)
    ensures
        rview(final(v)@) == rview(old(v)@) + grapheme_extend_chunk_43(),
{
    let ghost o = rview(v@);
    push_range(v, '\u{16FF0}', '\u{16FF1}');
    push_range(v, '\u{1BC9D}', '\u{1BC9E}');
    push_range(v, '\u{1CF00}', '\u{1CF2D}');
    push_range(v, '\u{1CF30}', '\u{1CF46}');
    push_range(v, '\u{1D165}', '\u{1D169}');
    push_range(v, '\u{1D16D}', '\u{1D172}');
    push_range(v, '\u{1D17B}', '\u{1D182}');
    push_range(v, '\u{1D185}', '\u{1D18B}');
    assert(rview(v@) =~= o + grapheme_extend_chunk_43());
}

fn push_grapheme_extend_chunk_44(v: &mut Vec<ClassUnicodeRange>)
    ensures
        rview(final(v)@) == rview(old(v)@) + grapheme_extend_chunk_44(),
{
    let ghost o = rview(v@);
    push_range(v, '\u{1D1AA}', '\u{1D1AD}');
    push_range(v, '\u{1D242}', '\u{1D244}');
    push_range(v, '\u{1DA00}', '\u{1DA36}');
    push_range(v, '\u{1DA3B}', '\u{1DA6C}');
    push_range(v, '\u{1DA75}', '\u{1DA75}');
    push_range(v, '\u{1DA84}', '\u{1DA84}');
    push_range(v, '\u{1DA9B}', '\u{1DA9F}');
    push_range(v, '\u{1DAA1}', '\u{1DAAF}');
    assert(rview(v@) =~= o + grapheme_extend_chunk_44());
}

fn push_grapheme_extend_chunk_45(v: &mut Vec<ClassUnicodeRange>)
    ensures
        rview(final(v)@) == rview(old(v)@) + grapheme_extend_chunk_45(),
{
    let ghost o = rview(v@);
    push_range(v, '\u{1E000}', '\u{1E006}');
    push_range(v, '\u{1E008}', '\u{1E018}');
    push_range(v, '\u{1E01B}', '\u{1E021}');
    push_range(v, '\u{1E023}', '\u{1E024}');
    push_range(v, '\u{1E026}', '\u{1E02A}');
    push_range(v, '\u{1E08F}', '\u{1E08F}');
    push_range(v, '\u{1E130}', '\u{1E136}');
    push_range(v, '\u{1E2AE}', '\u{1E2AE}');
    assert(rview(v@) =~= o + grapheme_extend_chunk_45());
}

fn push_grapheme_extend_chunk_46(v: &mut Vec<ClassUnicodeRange>)
    ensures
        rview(final(v)@) == rview(old(v)@) + grapheme_extend_chunk_46(),
{
    let ghost o = rview(v@);
    push_range(v, '\u{1E2EC}', '\u{1E2EF}');
    push_range(v, '\u{1E4EC}', '\u{1E4EF}');
    push_range(v, '\u{1E5EE}', '\u{1E5EF}');
    push_range(v, '\u{1E8D0}', '\u{1E8D6}');
    push_range(v, '\u{1E944}', '\u{1E94A}');
    push_range(v, '\u{E0020}', '\u{E007F}');
    push_range(v, '\u{E0100}', '\u{E01EF}');
    assert(rview(v@) =~= o + grapheme_extend_chunk_46());
}

fn push_grapheme_extend_block_0(v: &mut Vec<ClassUnicodeRange>)
    ensures
        rview(final(v)@) == rview(old(v)@) + grapheme_extend_block_0(),
{
    let ghost o = rview(v@);
    push_grapheme_extend_chunk_0(v);
    assert(rview(v@) =~= o + (grapheme_extend_chunk_0()));
    push_grapheme_extend_chunk_1(v);
    assert(rview(v@) =~= o + (grapheme_extend_chunk_0() + grapheme_extend_chunk_1()));
    push_grapheme_extend_chunk_2(v);
    assert(rview(v@) =~= o + (grapheme_extend_chunk_0() + grapheme_extend_chunk_1() + grapheme_extend_chunk_2()));
    push_grapheme_extend_chunk_3(v);
    assert(rview(v@) =~= o + (grapheme_extend_chunk_0() + grapheme_extend_chunk_1() + grapheme_extend_chunk_2() + grapheme_extend_chunk_3()));
    push_grapheme_extend_chunk_4(v);
    assert(rview(v@) =~= o + (grapheme_extend_chunk_0() + grapheme_extend_chunk_1() + grapheme_extend_chunk_2() + grapheme_extend_chunk_3() + grapheme_extend_chunk_4()));
    push_grapheme_extend_chunk_5(v);
    assert(rview(v@) =~= o + (grapheme_extend_chunk_0() + grapheme_extend_chunk_1() + grapheme_extend_chunk_2() + grapheme_extend_chunk_3() + grapheme_extend_chunk_4() + grapheme_extend_chunk_5()));
    push_grapheme_extend_chunk_6(v);
    assert(rview(v@) =~= o + (grapheme_extend_chunk_0() + grapheme_extend_chunk_1() + grapheme_extend_chunk_2() + grapheme_extend_chunk_3() + grapheme_extend_chunk_4() + grapheme_extend_chunk_5() + grapheme_extend_chunk_6()));
    push_grapheme_extend_chunk_7(v);
    assert(rview(v@) =~= o + (grapheme_extend_chunk_0() + grapheme_extend_chunk_1() + grapheme_extend_chunk_2() + grapheme_extend_chunk_3() + grapheme_extend_chunk_4() + grapheme_extend_chunk_5() + grapheme_extend_chunk_6() + grapheme_extend_chunk_7()));
    push_grapheme_extend_chunk_8(v);
    assert(rview(v@) =~= o + (grapheme_extend_chunk_0() + grapheme_extend_chunk_1() + grapheme_extend_chunk_2() + grapheme_extend_chunk_3() + grapheme_extend_chunk_4() + grapheme_extend_chunk_5() + grapheme_extend_chunk_6() + grapheme_extend_chunk_7() + grapheme_extend_chunk_8()));
    push_grapheme_extend_chunk_9(v);
    assert(rview(v@) =~= o + (grapheme_extend_chunk_0() + grapheme_extend_chunk_1() + grapheme_extend_chunk_2() + grapheme_extend_chunk_3() + grapheme_extend_chunk_4() + grapheme_extend_chunk_5() + grapheme_extend_chunk_6() + grapheme_extend_chunk_7() + grapheme_extend_chunk_8() + grapheme_extend_chunk_9()));
}

fn push_grapheme_extend_block_1(v: &mut Vec<ClassUnicodeRange>)
    ensures
        rview(final(v)@) == rview(old(v)@) + grapheme_extend_block_1(),
{
    let ghost o = rview(v@);
    push_grapheme_extend_chunk_10(v);
    assert(rview(v@) =~= o + (grapheme_extend_chunk_10()));
    push_grapheme_extend_chunk_11(v);
    assert(rview(v@) =~= o + (grapheme_extend_chunk_10() + grapheme_extend_chunk_11()));
    push_grapheme_extend_chunk_12(v);
    assert(rview(v@) =~= o + (grapheme_extend_chunk_10() + grapheme_extend_chunk_11() + grapheme_extend_chunk_12()));
    push_grapheme_extend_chunk_13(v);
    assert(rview(v@) =~= o + (grapheme_extend_chunk_10() + grapheme_extend_chunk_11() + grapheme_extend_chunk_12() + grapheme_extend_chunk_13()));
    push_grapheme_extend_chunk_14(v);
    assert(rview(v@) =~= o + (grapheme_extend_chunk_10() + grapheme_extend_chunk_11() + grapheme_extend_chunk_12() + grapheme_extend_chunk_13() + grapheme_extend_chunk_14()));
    push_grapheme_extend_chunk_15(v);
    assert(rview(v@) =~= o + (grapheme_extend_chunk_10() + grapheme_extend_chunk_11() + grapheme_extend_chunk_12() + grapheme_extend_chunk_13() + grapheme_extend_chunk_14() + grapheme_extend_chunk_15()));
    push_grapheme_extend_chunk_16(v);
    assert(rview(v@) =~= o + (grapheme_extend_chunk_10() + grapheme_extend_chunk_11() + grapheme_extend_chunk_12() + grapheme_extend_chunk_13() + grapheme_extend_chunk_14() + grapheme_extend_chunk_15() + grapheme_extend_chunk_16()));
    push_grapheme_extend_chunk_17(v);
    assert(rview(v@) =~= o + (grapheme_extend_chunk_10() + grapheme_extend_chunk_11() + grapheme_extend_chunk_12() + grapheme_extend_chunk_13() + grapheme_extend_chunk_14() + grapheme_extend_chunk_15() + grapheme_extend_chunk_16() + grapheme_extend_chunk_17()));
    push_grapheme_extend_chunk_18(v);
    assert(rview(v@) =~= o + (grapheme_extend_chunk_10() + grapheme_extend_chunk_11() + grapheme_extend_chunk_12() + grapheme_extend_chunk_13() + grapheme_extend_chunk_14() + grapheme_extend_chunk_15() + grapheme_extend_chunk_16() + grapheme_extend_chunk_17() + grapheme_extend_chunk_18()));
    push_grapheme_extend_chunk_19(v);
    assert(rview(v@) =~= o + (grapheme_extend_chunk_10() + grapheme_extend_chunk_11() + grapheme_extend_chunk_12() + grapheme_extend_chunk_13() + grapheme_extend_chunk_14() + grapheme_extend_chunk_15() + grapheme_extend_chunk_16() + grapheme_extend_chunk_17() + grapheme_extend_chunk_18() + grapheme_extend_chunk_19()));
}

fn push_grapheme_extend_block_2(v: &mut Vec<ClassUnicodeRange>)
    ensures
        rview(final(v)@) == rview(old(v)@) + grapheme_extend_block_2(),
{
    let ghost o = rview(v@);
    push_grapheme_extend_chunk_20(v);
    assert(rview(v@) =~= o + (grapheme_extend_chunk_20()));
    push_grapheme_extend_chunk_21(v);
    assert(rview(v@) =~= o + (grapheme_extend_chunk_20() + grapheme_extend_chunk_21()));
    push_grapheme_extend_chunk_22(v);
    assert(rview(v@) =~= o + (grapheme_extend_chunk_20() + grapheme_extend_chunk_21() + grapheme_extend_chunk_22()));
    push_grapheme_extend_chunk_23(v);
    assert(rview(v@) =~= o + (grapheme_extend_chunk_20() + grapheme_extend_chunk_21() + grapheme_extend_chunk_22() + grapheme_extend_chunk_23()));
    push_grapheme_extend_chunk_24(v);
    assert(rview(v@) =~= o + (grapheme_extend_chunk_20() + grapheme_extend_chunk_21() + grapheme_extend_chunk_22() + grapheme_extend_chunk_23() + grapheme_extend_chunk_24()));
    push_grapheme_extend_chunk_25(v);
    assert(rview(v@) =~= o + (grapheme_extend_chunk_20() + grapheme_extend_chunk_21() + grapheme_extend_chunk_22() + grapheme_extend_chunk_23() + grapheme_extend_chunk_24() + grapheme_extend_chunk_25()));
    push_grapheme_extend_chunk_26(v);
    assert(rview(v@) =~= o + (grapheme_extend_chunk_20() + grapheme_extend_chunk_21() + grapheme_extend_chunk_22() + grapheme_extend_chunk_23() + grapheme_extend_chunk_24() + grapheme_extend_chunk_25() + grapheme_extend_chunk_26()));
    push_grapheme_extend_chunk_27(v);
    assert(rview(v@) =~= o + (grapheme_extend_chunk_20() + grapheme_extend_chunk_21() + grapheme_extend_chunk_22() + grapheme_extend_chunk_23() + grapheme_extend_chunk_24() + grapheme_extend_chunk_25() + grapheme_extend_chunk_26() + grapheme_extend_chunk_27()));
    push_grapheme_extend_chunk_28(v);
    assert(rview(v@) =~= o + (grapheme_extend_chunk_20() + grapheme_extend_chunk_21() + grapheme_extend_chunk_22() + grapheme_extend_chunk_23() + grapheme_extend_chunk_24() + grapheme_extend_chunk_25() + grapheme_extend_chunk_26() + grapheme_extend_chunk_27() + grapheme_extend_chunk_28()));
    push_grapheme_extend_chunk_29(v);
    assert(rview(v@) =~= o + (grapheme_extend_chunk_20() + grapheme_extend_chunk_21() + grapheme_extend_chunk_22() + grapheme_extend_chunk_23() + grapheme_extend_chunk_24() + grapheme_extend_chunk_25() + grapheme_extend_chunk_26() + grapheme_extend_chunk_27() + grapheme_extend_chunk_28() + grapheme_extend_chunk_29()));
}

fn push_grapheme_extend_block_3(v: &mut Vec<ClassUnicodeRange>)
    ensures
        rview(final(v)@) == rview(old(v)@) + grapheme_extend_block_3(),
{
    let ghost o = rview(v@);
    push_grapheme_extend_chunk_30(v);
    assert(rview(v@) =~= o + (grapheme_extend_chunk_30()));
    push_grapheme_extend_chunk_31(v);
    assert(rview(v@) =~= o + (grapheme_extend_chunk_30() + grapheme_extend_chunk_31()));
    push_grapheme_extend_chunk_32(v);
    assert(rview(v@) =~= o + (grapheme_extend_chunk_30() + grapheme_extend_chunk_31() + grapheme_extend_chunk_32()));
    push_grapheme_extend_chunk_33(v);
    assert(rview(v@) =~= o + (grapheme_extend_chunk_30() + grapheme_extend_chunk_31() + grapheme_extend_chunk_32() + grapheme_extend_chunk_33()));
    push_grapheme_extend_chunk_34(v);
    assert(rview(v@) =~= o + (grapheme_extend_chunk_30() + grapheme_extend_chunk_31() + grapheme_extend_chunk_32() + grapheme_extend_chunk_33() + grapheme_extend_chunk_34()));
    push_grapheme_extend_chunk_35(v);
    assert(rview(v@) =~= o + (grapheme_extend_chunk_30() + grapheme_extend_chunk_31() + grapheme_extend_chunk_32() + grapheme_extend_chunk_33() + grapheme_extend_chunk_34() + grapheme_extend_chunk_35()));
    push_grapheme_extend_chunk_36(v);
    assert(rview(v@) =~= o + (grapheme_extend_chunk_30() + grapheme_extend_chunk_31() + grapheme_extend_chunk_32() + grapheme_extend_chunk_33() + grapheme_extend_chunk_34() + grapheme_extend_chunk_35() + grapheme_extend_chunk_36()));
    push_grapheme_extend_chunk_37(v);
    assert(rview(v@) =~= o + (grapheme_extend_chunk_30() + grapheme_extend_chunk_31() + grapheme_extend_chunk_32() + grapheme_extend_chunk_33() + grapheme_extend_chunk_34() + grapheme_extend_chunk_35() + grapheme_extend_chunk_36() + grapheme_extend_chunk_37()));
    push_grapheme_extend_chunk_38(v);
    assert(rview(v@) =~= o + (grapheme_extend_chunk_30() + grapheme_extend_chunk_31() + grapheme_extend_chunk_32() + grapheme_extend_chunk_33() + grapheme_extend_chunk_34() + grapheme_extend_chunk_35() + grapheme_extend_chunk_36() + grapheme_extend_chunk_37() + grapheme_extend_chunk_38()));
    push_grapheme_extend_chunk_39(v);
    assert(rview(v@) =~= o + (grapheme_extend_chunk_30() + grapheme_extend_chunk_31() + grapheme_extend_chunk_32() + grapheme_extend_chunk_33() + grapheme_extend_chunk_34() + grapheme_extend_chunk_35() + grapheme_extend_chunk_36() + grapheme_extend_chunk_37() + grapheme_extend_chunk_38() + grapheme_extend_chunk_39()));
}

fn push_grapheme_extend_block_4(v: &mut Vec<ClassUnicodeRange>)
    ensures
        rview(final(v)@) == rview(old(v)@) + grapheme_extend_block_4(),
{
    let ghost o = rview(v@);
    push_grapheme_extend_chunk_40(v);
    assert(rview(v@) =~= o + (grapheme_extend_chunk_40()));
    push_grapheme_extend_chunk_41(v);
    assert(rview(v@) =~= o + (grapheme_extend_chunk_40() + grapheme_extend_chunk_41()));
    push_grapheme_extend_chunk_42(v);
    assert(rview(v@) =~= o + (grapheme_extend_chunk_40() + grapheme_extend_chunk_41() + grapheme_extend_chunk_42()));
    push_grapheme_extend_chunk_43(v);
    assert(rview(v@) =~= o + (grapheme_extend_chunk_40() + grapheme_extend_chunk_41() + grapheme_extend_chunk_42() + grapheme_extend_chunk_43()));
    push_grapheme_extend_chunk_44(v);
    assert(rview(v@) =~= o + (grapheme_extend_chunk_40() + grapheme_extend_chunk_41() + grapheme_extend_chunk_42() + grapheme_extend_chunk_43() + grapheme_extend_chunk_44()));
    push_grapheme_extend_chunk_45(v);
    assert(rview(v@) =~= o + (grapheme_extend_chunk_40() + grapheme_extend_chunk_41() + grapheme_extend_chunk_42() + grapheme_extend_chunk_43() + grapheme_extend_chunk_44() + grapheme_extend_chunk_45()));
    push_grapheme_extend_chunk_46(v);
    assert(rview(v@) =~= o + (grapheme_extend_chunk_40() + grapheme_extend_chunk_41() + grapheme_extend_chunk_42() + grapheme_extend_chunk_43() + grapheme_extend_chunk_44() + grapheme_extend_chunk_45() + grapheme_extend_chunk_46()));
}

pub fn grapheme_extend_class() -> (v: Vec<ClassUnicodeRange>)
    ensures
        rview(v@) == grapheme_extend_ranges(),
{
    let mut v: Vec<ClassUnicodeRange> = Vec::new();
    assert(rview(v@) =~= Seq::<SRange>::empty());
    push_grapheme_extend_block_0(&mut v);
    assert(rview(v@) =~= grapheme_extend_block_0());
    push_grapheme_extend_block_1(&mut v);
    assert(rview(v@) =~= grapheme_extend_block_0() + grapheme_extend_block_1());
    push_grapheme_extend_block_2(&mut v);
    assert(rview(v@) =~= grapheme_extend_block_0() + grapheme_extend_block_1() + grapheme_extend_block_2());
    push_grapheme_extend_block_3(&mut v);
    assert(rview(v@) =~= grapheme_extend_block_0() + grapheme_extend_block_1() + grapheme_extend_block_2() + grapheme_extend_block_3());
    push_grapheme_extend_block_4(&mut v);
    assert(rview(v@) =~= grapheme_extend_block_0() + grapheme_extend_block_1() + grapheme_extend_block_2() + grapheme_extend_block_3() + grapheme_extend_block_4());
    v
}

pub open spec fn grapheme_link_chunk_0() -> Seq<SRange> {
    seq![(0x94Dint, 0x94Dint), (0x9CDint, 0x9CDint), (0xA4Dint, 0xA4Dint), (0xACDint, 0xACDint), (0xB4Dint, 0xB4Dint), (0xBCDint, 0xBCDint), (0xC4Dint, 0xC4Dint), (0xCCDint, 0xCCDint)]
}

pub open spec fn grapheme_link_chunk_1() -> Seq<SRange> {
    seq![(0xD3Bint, 0xD3Cint), (0xD4Dint, 0xD4Dint), (0xDCAint, 0xDCAint), (0xE3Aint, 0xE3Aint), (0xEBAint, 0xEBAint), (0xF84int, 0xF84int), (0x1039int, 0x103Aint), (0x1714int, 0x1715int)]
}

pub open spec fn grapheme_link_chunk_2() -> Seq<SRange> {
    seq![(0x1734int, 0x1734int), (0x17D2int, 0x17D2int), (0x1A60int, 0x1A60int), (0x1B44int, 0x1B44int), (0x1BAAint, 0x1BABint), (0x1BF2int, 0x1BF3int), (0x2D7Fint, 0x2D7Fint), (0xA806int, 0xA806int)]
}

pub open spec fn grapheme_link_chunk_3() -> Seq<SRange> {
    seq![(0xA82Cint, 0xA82Cint), (0xA8C4int, 0xA8C4int), (0xA953int, 0xA953int), (0xA9C0int, 0xA9C0int), (0xAAF6int, 0xAAF6int), (0xABEDint, 0xABEDint), (0x10A3Fint, 0x10A3Fint), (0x11046int, 0x11046int)]
}

pub open spec fn grapheme_link_chunk_4() -> Seq<SRange> {
    seq![(0x11070int, 0x11070int), (0x1107Fint, 0x1107Fint), (0x110B9int, 0x110B9int), (0x11133int, 0x11134int), (0x111C0int, 0x111C0int), (0x11235int, 0x11235int), (0x112EAint, 0x112EAint), (0x1134Dint, 0x1134Dint)]
}

pub open spec fn grapheme_link_chunk_5() -> Seq<SRange> {
    seq![(0x113CEint, 0x113D0int), (0x11442int, 0x11442int), (0x114C2int, 0x114C2int), (0x115BFint, 0x115BFint), (0x1163Fint, 0x1163Fint), (0x116B6int, 0x116B6int), (0x1172Bint, 0x1172Bint), (0x11839int, 0x11839int)]
}

pub open spec fn grapheme_link_chunk_6() -> Seq<SRange> {
    seq![(0x1193Dint, 0x1193Eint), (0x119E0int, 0x119E0int), (0x11A34int, 0x11A34int), (0x11A47int, 0x11A47int), (0x11A99int, 0x11A99int), (0x11C3Fint, 0x11C3Fint), (0x11D44int, 0x11D45int), (0x11D97int, 0x11D97int)]
}

pub open spec fn grapheme_link_chunk_7() -> Seq<SRange> {
    seq![(0x11F41int, 0x11F42int), (0x1612Fint, 0x1612Fint)]
}

/// The ranges of the property Grapheme_Link.
pub open spec fn grapheme_link_ranges() -> Seq<SRange> {
    grapheme_link_chunk_0() + grapheme_link_chunk_1() + grapheme_link_chunk_2() + grapheme_link_chunk_3() + grapheme_link_chunk_4() + grapheme_link_chunk_5() + grapheme_link_chunk_6() + grapheme_link_chunk_7()
}

pub proof fn lemma_grapheme_link_canonical()
    ensures
        canonical(grapheme_link_ranges()),
{
    reveal_with_fuel(canonical, 9);
    assert(canonical(grapheme_link_chunk_0()));
    assert(canonical(grapheme_link_chunk_1()));
    assert(canonical(grapheme_link_chunk_2()));
    assert(canonical(grapheme_link_chunk_3()));
    assert(canonical(grapheme_link_chunk_4()));
    assert(canonical(grapheme_link_chunk_5()));
    assert(canonical(grapheme_link_chunk_6()));
    assert(canonical(grapheme_link_chunk_7()));
    lemma_canonical_append(grapheme_link_chunk_0(), grapheme_link_chunk_1());
    lemma_canonical_append(grapheme_link_chunk_0() + grapheme_link_chunk_1(), grapheme_link_chunk_2());
    lemma_canonical_append(grapheme_link_chunk_0() + grapheme_link_chunk_1() + grapheme_link_chunk_2(), grapheme_link_chunk_3());
    lemma_canonical_append(grapheme_link_chunk_0() + grapheme_link_chunk_1() + grapheme_link_chunk_2() + grapheme_link_chunk_3(), grapheme_link_chunk_4());
    lemma_canonical_append(grapheme_link_chunk_0() + grapheme_link_chunk_1() + grapheme_link_chunk_2() + grapheme_link_chunk_3() + grapheme_link_chunk_4(), grapheme_link_chunk_5());
    lemma_canonical_append(grapheme_link_chunk_0() + grapheme_link_chunk_1() + grapheme_link_chunk_2() + grapheme_link_chunk_3() + grapheme_link_chunk_4() + grapheme_link_chunk_5(), grapheme_link_chunk_6());
    lemma_canonical_append(grapheme_link_chunk_0() + grapheme_link_chunk_1() + grapheme_link_chunk_2() + grapheme_link_chunk_3() + grapheme_link_chunk_4() + grapheme_link_chunk_5() + grapheme_link_chunk_6(), grapheme_link_chunk_7());
}

fn push_grapheme_link_chunk_0(v: &mut Vec<ClassUnicodeRange>)
    ensures
        rview(final(v)@) == rview(old(v)@) + grapheme_link_chunk_0(),
{
    let ghost o = rview(v@);
    push_range(v, '\u{94D}', '\u{94D}');
    push_range(v, '\u{9CD}', '\u{9CD}');
    push_range(v, '\u{A4D}', '\u{A4D}');
    push_range(v, '\u{ACD}', '\u{ACD}');
    push_range(v, '\u{B4D}', '\u{B4D}');
    push_range(v, '\u{BCD}', '\u{BCD}');
    push_range(v, '\u{C4D}', '\u{C4D}');
    push_range(v, '\u{CCD}', '\u{CCD}');
    assert(rview(v@) =~= o + grapheme_link_chunk_0());
}

fn push_grapheme_link_chunk_1(v: &mut Vec<ClassUnicodeRange>)
    ensures
        rview(final(v)@) == rview(old(v)@) + grapheme_link_chunk_1(),
{
    let ghost o = rview(v@);
    push_range(v, '\u{D3B}', '\u{D3C}');
    push_range(v, '\u{D4D}', '\u{D4D}');
    push_range(v, '\u{DCA}', '\u{DCA}');
    push_range(v, '\u{E3A}', '\u{E3A}');
    push_range(v, '\u{EBA}', '\u{EBA}');
    push_range(v, '\u{F84}', '\u{F84}');
    push_range(v, '\u{1039}', '\u{103A}');
    push_range(v, '\u{1714}', '\u{1715}');
    assert(rview(v@) =~= o + grapheme_link_chunk_1());
}

fn push_grapheme_link_chunk_2(v: &mut Vec<ClassUnicodeRange>)
    ensures
        rview(final(v)@) == rview(old(v)@) + grapheme_link_chunk_2(),
{
    let ghost o = rview(v@);
    push_range(v, '\u{1734}', '\u{1734}');
    push_range(v, '\u{17D2}', '\u{17D2}');
    push_range(v, '\u{1A60}', '\u{1A60}');
    push_range(v, '\u{1B44}', '\u{1B44}');
    push_range(v, '\u{1BAA}', '\u{1BAB}');
    push_range(v, '\u{1BF2}', '\u{1BF3}');
    push_range(v, '\u{2D7F}', '\u{2D7F}');
    push_range(v, '\u{A806}', '\u{A806}');
    assert(rview(v@) =~= o + grapheme_link_chunk_2());
}

fn push_grapheme_link_chunk_3(v: &mut Vec<ClassUnicodeRange>)
    ensures
        rview(final(v)@) == rview(old(v)@) + grapheme_link_chunk_3(),
{
    let ghost o = rview(v@);
    push_range(v, '\u{A82C}', '\u{A82C}');
    push_range(v, '\u{A8C4}', '\u{A8C4}');
    push_range(v, '\u{A953}', '\u{A953}');
    push_range(v, '\u{A9C0}', '\u{A9C0}');
    push_range(v, '\u{AAF6}', '\u{AAF6}');
    push_range(v, '\u{ABED}', '\u{ABED}');
    push_range(v, '\u{10A3F}', '\u{10A3F}');
    push_range(v, '\u{11046}', '\u{11046}');
    assert(rview(v@) =~= o + grapheme_link_chunk_3());
}

fn push_grapheme_link_chunk_4(v: &mut Vec<ClassUnicodeRange>)
    ensures
        rview(final(v)@) == rview(old(v)@) + grapheme_link_chunk_4(),
{
    let ghost o = rview(v@);
    push_range(v, '\u{11070}', '\u{11070}');
    push_range(v, '\u{1107F}', '\u{1107F}');
    push_range(v, '\u{110B9}', '\u{110B9}');
    push_range(v, '\u{11133}', '\u{11134}');
    push_range(v, '\u{111C0}', '\u{111C0}');
    push_range(v, '\u{11235}', '\u{11235}');
    push_range(v, '\u{112EA}', '\u{112EA}');
    push_range(v, '\u{1134D}', '\u{1134D}');
    assert(rview(v@) =~= o + grapheme_link_chunk_4());
}

fn push_grapheme_link_chunk_5(v: &mut Vec<ClassUnicodeRange>)
    ensures
        rview(final(v)@) == rview(old(v)@) + grapheme_link_chunk_5(),
{
    let ghost o = rview(v@);
    push_range(v, '\u{113CE}', '\u{113D0}');
    push_range(v, '\u{11442}', '\u{11442}');
    push_range(v, '\u{114C2}', '\u{114C2}');
    push_range(v, '\u{115BF}', '\u{115BF}');
    push_range(v, '\u{1163F}', '\u{1163F}');
    push_range(v, '\u{116B6}', '\u{116B6}');
    push_range(v, '\u{1172B}', '\u{1172B}');
    push_range(v, '\u{11839}', '\u{11839}');
    assert(rview(v@) =~= o + grapheme_link_chunk_5());
}

fn push_grapheme_link_chunk_6(v: &mut Vec<ClassUnicodeRange>)
    ensures
        rview(final(v)@) == rview(old(v)@) + grapheme_link_chunk_6(),
{
    let ghost o = rview(v@);
    push_range(v, '\u{1193D}', '\u{1193E}');
    push_range(v, '\u{119E0}', '\u{119E0}');
    push_range(v, '\u{11A34}', '\u{11A34}');
    push_range(v, '\u{11A47}', '\u{11A47}');
    push_range(v, '\u{11A99}', '\u{11A99}');
    push_range(v, '\u{11C3F}', '\u{11C3F}');
    push_range(v, '\u{11D44}', '\u{11D45}');
    push_range(v, '\u{11D97}', '\u{11D97}');
    assert(rview(v@) =~= o + grapheme_link_chunk_6());
}

fn push_grapheme_link_chunk_7(v: &mut Vec<ClassUnicodeRange>)
    ensures
        rview(final(v)@) == rview(old(v)@) + grapheme_link_chunk_7(),
{
    let ghost o = rview(v@);
    push_range(v, '\u{11F41}', '\u{11F42}');
    push_range(v, '\u{1612F}', '\u{1612F}');
    assert(rview(v@) =~= o + grapheme_link_chunk_7());
}

pub fn grapheme_link_class() -> (v: Vec<ClassUnicodeRange>)
    ensures
        rview(v@) == grapheme_link_ranges(),
{
    let mut v: Vec<ClassUnicodeRange> = Vec::new();
    assert(rview(v@) =~= Seq::<SRange>::empty());
    push_grapheme_link_chunk_0(&mut v);
    assert(rview(v@) =~= grapheme_link_chunk_0());
    push_grapheme_link_chunk_1(&mut v);
    assert(rview(v@) =~= grapheme_link_chunk_0() + grapheme_link_chunk_1());
    push_grapheme_link_chunk_2(&mut v);
    assert(rview(v@) =~= grapheme_link_chunk_0() + grapheme_link_chunk_1() + grapheme_link_chunk_2());
    push_grapheme_link_chunk_3(&mut v);
    assert(rview(v@) =~= grapheme_link_chunk_0() + grapheme_link_chunk_1() + grapheme_link_chunk_2() + grapheme_link_chunk_3());
    push_grapheme_link_chunk_4(&mut v);
    assert(rview(v@) =~= grapheme_link_chunk_0() + grapheme_link_chunk_1() + grapheme_link_chunk_2() + grapheme_link_chunk_3() + grapheme_link_chunk_4());
    push_grapheme_link_chunk_5(&mut v);
    assert(rview(v@) =~= grapheme_link_chunk_0() + grapheme_link_chunk_1() + grapheme_link_chunk_2() + grapheme_link_chunk_3() + grapheme_link_chunk_4() + grapheme_link_chunk_5());
    push_grapheme_link_chunk_6(&mut v);
    assert(rview(v@) =~= grapheme_link_chunk_0() + grapheme_link_chunk_1() + grapheme_link_chunk_2() + grapheme_link_chunk_3() + grapheme_link_chunk_4() + grapheme_link_chunk_5() + grapheme_link_chunk_6());
    push_grapheme_link_chunk_7(&mut v);
    assert(rview(v@) =~= grapheme_link_chunk_0() + grapheme_link_chunk_1() + grapheme_link_chunk_2() + grapheme_link_chunk_3() + grapheme_link_chunk_4() + grapheme_link_chunk_5() + grapheme_link_chunk_6() + grapheme_link_chunk_7());
    v
}

pub open spec fn hex_digit_chunk_0() -> Seq<SRange> {
    seq![(0x30int, 0x39int), (0x41int, 0x46int), (0x61int, 0x66int), (0xFF10int, 0xFF19int), (0xFF21int, 0xFF26int), (0xFF41int, 0xFF46int)]
}

/// The ranges of the property Hex_Digit.
pub open spec fn hex_digit_ranges() -> Seq<SRange> {
    hex_digit_chunk_0()
}

pub proof fn lemma_hex_digit_canonical()
    ensures
        canonical(hex_digit_ranges()),
{
    reveal_with_fuel(canonical, 9);
    assert(canonical(hex_digit_chunk_0()));
}

fn push_hex_digit_chunk_0(v: &mut Vec<ClassUnicodeRange>)
    ensures
        rview(final(v)@) == rview(old(v)@) + hex_digit_chunk_0(),
{
    let ghost o = rview(v@);
    push_range(v, '\u{30}', '\u{39}');
    push_range(v, '\u{41}', '\u{46}');
    push_range(v, '\u{61}', '\u{66}');
    push_range(v, '\u{FF10}', '\u{FF19}');
    push_range(v, '\u{FF21}', '\u{FF26}');
    push_range(v, '\u{FF41}', '\u{FF46}');
    assert(rview(v@) =~= o + hex_digit_chunk_0());
}

pub fn hex_digit_class() -> (v: Vec<ClassUnicodeRange>)
    ensures
        rview(v@) == hex_digit_ranges(),
{
    let mut v: Vec<ClassUnicodeRange> = Vec::new();
    assert(rview(v@) =~= Seq::<SRange>::empty());
    push_hex_digit_chunk_0(&mut v);
    assert(rview(v@) =~= hex_digit_chunk_0());
    v
}

pub open spec fn hyphen_chunk_0() -> Seq<SRange> {
    seq![(0x2Dint, 0x2Dint), (0xADint, 0xADint), (0x58Aint, 0x58Aint), (0x1806int, 0x1806int), (0x2010int, 0x2011int), (0x2E17int, 0x2E17int), (0x30FBint, 0x30FBint), (0xFE63int, 0xFE63int)]
}

pub open spec fn hyphen_chunk_1() -> Seq<SRange> {
    seq![(0xFF0Dint, 0xFF0Dint), (0xFF65int, 0xFF65int)]
}

/// The ranges of the property Hyphen.
pub open spec fn hyphen_ranges() -> Seq<SRange> {
    hyphen_chunk_0() + hyphen_chunk_1()
}

pub proof fn lemma_hyphen_canonical()
    ensures
        canonical(hyphen_ranges()),
{
    reveal_with_fuel(canonical, 9);
    assert(canonical(hyphen_chunk_0()));
    assert(canonical(hyphen_chunk_1()));
    lemma_canonical_append(hyphen_chunk_0(), hyphen_chunk_1());
}

fn push_hyphen_chunk_0(v: &mut Vec<ClassUnicodeRange>)
    ensures
        rview(final(v)@) == rview(old(v)@) + hyphen_chunk_0(),
{
    let ghost o = rview(v@);
    push_range(v, '\u{2D}', '\u{2D}');
    push_range(v, '\u{AD}', '\u{AD}');
    push_range(v, '\u{58A}', '\u{58A}');
    push_range(v, '\u{1806}', '\u{1806}');
    push_range(v, '\u{2010}', '\u{2011}');
    push_range(v, '\u{2E17}', '\u{2E17}');
    push_range(v, '\u{30FB}', '\u{30FB}');
    push_range(v, '\u{FE63}', '\u{FE63}');
    assert(rview(v@) =~= o + hyphen_chunk_0());
}

fn push_hyphen_chunk_1(v: &mut Vec<ClassUnicodeRange>)
    ensures
        rview(final(v)@) == rview(old(v)@) + hyphen_chunk_1(),
{
    let ghost o = rview(v@);
    push_range(v, '\u{FF0D}', '\u{FF0D}');
    push_range(v, '\u{FF65}', '\u{FF65}');
    assert(rview(v@) =~= o + hyphen_chunk_1());
}

pub fn hyphen_class() -> (v: Vec<ClassUnicodeRange>)
    ensures
        rview(v@) == hyphen_ranges(),
{
    let mut v: Vec<ClassUnicodeRange> = Vec::new();
    assert(rview(v@) =~= Seq::<SRange>::empty());
    push_hyphen_chunk_0(&mut v);
    assert(rview(v@) =~= hyphen_chunk_0());
    push_hyphen_chunk_1(&mut v);
    assert(rview(v@) =~= hyphen_chunk_0() + hyphen_chunk_1());
    v
}

pub open spec fn ids_binary_operator_chunk_0() -> Seq<SRange> {
    seq![(0x2FF0int, 0x2FF1int), (0x2FF4int, 0x2FFDint), (0x31EFint, 0x31EFint)]
}

/// The ranges of the property IDS_Binary_Operator.
pub open spec fn ids_binary_operator_ranges() -> Seq<SRange> {
    ids_binary_operator_chunk_0()
}

pub proof fn lemma_ids_binary_operator_canonical()
    ensures
        canonical(ids_binary_operator_ranges()),
{
    reveal_with_fuel(canonical, 9);
    assert(canonical(ids_binary_operator_chunk_0()));
}

fn push_ids_binary_operator_chunk_0(v: &mut Vec<ClassUnicodeRange>)
    ensures
        rview(final(v)@) == rview(old(v)@) + ids_binary_operator_chunk_0(),
{
    let ghost o = rview(v@);
    push_range(v, '\u{2FF0}', '\u{2FF1}');
    push_range(v, '\u{2FF4}', '\u{2FFD}');
    push_range(v, '\u{31EF}', '\u{31EF}');
    assert(rview(v@) =~= o + ids_binary_operator_chunk_0());
}

pub fn ids_binary_operator_class() -> (v: Vec<ClassUnicodeRange>)
    ensures
        rview(v@) == ids_binary_operator_ranges(),
{
    let mut v: Vec<ClassUnicodeRange> = Vec::new();
    assert(rview(v@) =~= Seq::<SRange>::empty());
    push_ids_binary_operator_chunk_0(&mut v);
    assert(rview(v@) =~= ids_binary_operator_chunk_0());
    v
}

pub open spec fn ids_trinary_operator_chunk_0() -> Seq<SRange> {
    seq![(0x2FF2int, 0x2FF3int)]
}

/// The ranges of the property IDS_Trinary_Operator.
pub open spec fn ids_trinary_operator_ranges() -> Seq<SRange> {
    ids_trinary_operator_chunk_0()
}

pub proof fn lemma_ids_trinary_operator_canonical()
    ensures
        canonical(ids_trinary_operator_ranges()),
{
    reveal_with_fuel(canonical, 9);
    assert(canonical(ids_trinary_operator_chunk_0()));
}

fn push_ids_trinary_operator_chunk_0(v: &mut Vec<ClassUnicodeRange>)
    ensures
        rview(final(v)@) == rview(old(v)@) + ids_trinary_operator_chunk_0(),
{
    let ghost o = rview(v@);
    push_range(v, '\u{2FF2}', '\u{2FF3}');
    assert(rview(v@) =~= o + ids_trinary_operator_chunk_0());
}

pub fn ids_trinary_operator_class() -> (v: Vec<ClassUnicodeRange>)
    ensures
        rview(v@) == ids_trinary_operator_ranges(),
{
    let mut v: Vec<ClassUnicodeRange> = Vec::new();
    assert(rview(v@) =~= Seq::<SRange>::empty());
    push_ids_trinary_operator_chunk_0(&mut v);
    assert(rview(v@) =~= ids_trinary_operator_chunk_0());
    v
}

pub open spec fn ids_unary_operator_chunk_0() -> Seq<SRange> {
    seq![(0x2FFEint, 0x2FFFint)]
}

/// The ranges of the property IDS_Unary_Operator.
pub open spec fn ids_unary_operator_ranges() -> Seq<SRange> {
    ids_unary_operator_chunk_0()
}

pub proof fn lemma_ids_unary_operator_canonical()
    ensures
        canonical(ids_unary_operator_ranges()),
{
    reveal_with_fuel(canonical, 9);
    assert(canonical(ids_unary_operator_chunk_0()));
}

fn push_ids_unary_operator_chunk_0(v: &mut Vec<ClassUnicodeRange>)
    ensures
        rview(final(v)@) == rview(old(v)@) + ids_unary_operator_chunk_0(),
{
    let ghost o = rview(v@);
    push_range(v, '\u{2FFE}', '\u{2FFF}');
    assert(rview(v@) =~= o + ids_unary_operator_chunk_0());
}

pub fn ids_unary_operator_class() -> (v: Vec<ClassUnicodeRange>)
    ensures
        rview(v@) == ids_unary_operator_ranges(),
{
    let mut v: Vec<ClassUnicodeRange> = Vec::new();
    assert(rview(v@) =~= Seq::<SRange>::empty());
    push_ids_unary_operator_chunk_0(&mut v);
    assert(rview(v@) =~= ids_unary_operator_chunk_0());
    v
}

pub open spec fn id_compat_math_continue_chunk_0() -> Seq<SRange> {
    seq![(0xB2int, 0xB3int), (0xB9int, 0xB9int), (0x2070int, 0x2070int), (0x2074int, 0x207Eint), (0x2080int, 0x208Eint), (0x2202int, 0x2202int), (0x2207int, 0x2207int), (0x221Eint, 0x221Eint)]
}

pub open spec fn id_compat_math_continue_chunk_1() -> Seq<SRange> {
    seq![(0x1D6C1int, 0x1D6C1int), (0x1D6DBint, 0x1D6DBint), (0x1D6FBint, 0x1D6FBint), (0x1D715int, 0x1D715int), (0x1D735int, 0x1D735int), (0x1D74Fint, 0x1D74Fint), (0x1D76Fint, 0x1D76Fint), (0x1D789int, 0x1D789int)]
}

pub open spec fn id_compat_math_continue_chunk_2() -> Seq<SRange> {
    seq![(0x1D7A9int, 0x1D7A9int), (0x1D7C3int, 0x1D7C3int)]
}

/// The ranges of the property ID_Compat_Math_Continue.
pub open spec fn id_compat_math_continue_ranges() -> Seq<SRange> {
    id_compat_math_continue_chunk_0() + id_compat_math_continue_chunk_1() + id_compat_math_continue_chunk_2()
}

pub proof fn lemma_id_compat_math_continue_canonical()
    ensures
        canonical(id_compat_math_continue_ranges()),
{
    reveal_with_fuel(canonical, 9);
    assert(canonical(id_compat_math_continue_chunk_0()));
    assert(canonical(id_compat_math_continue_chunk_1()));
    assert(canonical(id_compat_math_continue_chunk_2()));
    lemma_canonical_append(id_compat_math_continue_chunk_0(), id_compat_math_continue_chunk_1());
    lemma_canonical_append(id_compat_math_continue_chunk_0() + id_compat_math_continue_chunk_1(), id_compat_math_continue_chunk_2());
}

fn push_id_compat_math_continue_chunk_0(v: &mut Vec<ClassUnicodeRange>)
    ensures
        rview(final(v)@) == rview(old(v)@) + id_compat_math_continue_chunk_0(),
{
    let ghost o = rview(v@);
    push_range(v, '\u{B2}', '\u{B3}');
    push_range(v, '\u{B9}', '\u{B9}');
    push_range(v, '\u{2070}', '\u{2070}');
    push_range(v, '\u{2074}', '\u{207E}');
    push_range(v, '\u{2080}', '\u{208E}');
    push_range(v, '\u{2202}', '\u{2202}');
    push_range(v, '\u{2207}', '\u{2207}');
    push_range(v, '\u{221E}', '\u{221E}');
    assert(rview(v@) =~= o + id_compat_math_continue_chunk_0());
}

fn push_id_compat_math_continue_chunk_1(v: &mut Vec<ClassUnicodeRange>)
    ensures
        rview(final(v)@) == rview(old(v)@) + id_compat_math_continue_chunk_1(),
{
    let ghost o = rview(v@);
    push_range(v, '\u{1D6C1}', '\u{1D6C1}');
    push_range(v, '\u{1D6DB}', '\u{1D6DB}');
    push_range(v, '\u{1D6FB}', '\u{1D6FB}');
    push_range(v, '\u{1D715}', '\u{1D715}');
    push_range(v, '\u{1D735}', '\u{1D735}');
    push_range(v, '\u{1D74F}', '\u{1D74F}');
    push_range(v, '\u{1D76F}', '\u{1D76F}');
    push_range(v, '\u{1D789}', '\u{1D789}');
    assert(rview(v@) =~= o + id_compat_math_continue_chunk_1());
}

fn push_id_compat_math_continue_chunk_2(v: &mut Vec<ClassUnicodeRange>)
    ensures
        rview(final(v)@) == rview(old(v)@) + id_compat_math_continue_chunk_2(),
{
    let ghost o = rview(v@);
    push_range(v, '\u{1D7A9}', '\u{1D7A9}');
    push_range(v, '\u{1D7C3}', '\u{1D7C3}');
    assert(rview(v@) =~= o + id_compat_math_continue_chunk_2());
}

pub fn id_compat_math_continue_class() -> (v: Vec<ClassUnicodeRange>)
    ensures
        rview(v@) == id_compat_math_continue_ranges(),
{
    let mut v: Vec<ClassUnicodeRange> = Vec::new();
    assert(rview(v@) =~= Seq::<SRange>::empty());
    push_id_compat_math_continue_chunk_0(&mut v);
    assert(rview(v@) =~= id_compat_math_continue_chunk_0());
    push_id_compat_math_continue_chunk_1(&mut v);
    assert(rview(v@) =~= id_compat_math_continue_chunk_0() + id_compat_math_continue_chunk_1());
    push_id_compat_math_continue_chunk_2(&mut v);
    assert(rview(v@) =~= id_compat_math_continue_chunk_0() + id_compat_math_continue_chunk_1() + id_compat_math_continue_chunk_2());
    v
}

pub open spec fn id_compat_math_start_chunk_0() -> Seq<SRange> {
    seq![(0x2202int, 0x2202int), (0x2207int, 0x2207int), (0x221Eint, 0x221Eint), (0x1D6C1int, 0x1D6C1int), (0x1D6DBint, 0x1D6DBint), (0x1D6FBint, 0x1D6FBint), (0x1D715int, 0x1D715int), (0x1D735int, 0x1D735int)]
}

pub open spec fn id_compat_math_start_chunk_1() -> Seq<SRange> {
    seq![(0x1D74Fint, 0x1D74Fint), (0x1D76Fint, 0x1D76Fint), (0x1D789int, 0x1D789int), (0x1D7A9int, 0x1D7A9int), (0x1D7C3int, 0x1D7C3int)]
}

/// The ranges of the property ID_Compat_Math_Start.
pub open spec fn id_compat_math_start_ranges() -> Seq<SRange> {
    id_compat_math_start_chunk_0() + id_compat_math_start_chunk_1()
}

pub proof fn lemma_id_compat_math_start_canonical()
    ensures
        canonical(id_compat_math_start_ranges()),
{
    reveal_with_fuel(canonical, 9);
    assert(canonical(id_compat_math_start_chunk_0()));
    assert(canonical(id_compat_math_start_chunk_1()));
    lemma_canonical_append(id_compat_math_start_chunk_0(), id_compat_math_start_chunk_1());
}

fn push_id_compat_math_start_chunk_0(v: &mut Vec<ClassUnicodeRange>)
    ensures
        rview(final(v)@) == rview(old(v)@) + id_compat_math_start_chunk_0(),
{
    let ghost o = rview(v@);
    push_range(v, '\u{2202}', '\u{2202}');
    push_range(v, '\u{2207}', '\u{2207}');
    push_range(v, '\u{221E}', '\u{221E}');
    push_range(v, '\u{1D6C1}', '\u{1D6C1}');
    push_range(v, '\u{1D6DB}', '\u{1D6DB}');
    push_range(v, '\u{1D6FB}', '\u{1D6FB}');
    push_range(v, '\u{1D715}', '\u{1D715}');
    push_range(v, '\u{1D735}', '\u{1D735}');
    assert(rview(v@) =~= o + id_compat_math_start_chunk_0());
}

fn push_id_compat_math_start_chunk_1(v: &mut Vec<ClassUnicodeRange>)
    ensures
        rview(final(v)@) == rview(old(v)@) + id_compat_math_start_chunk_1(),
{
    let ghost o = rview(v@);
    push_range(v, '\u{1D74F}', '\u{1D74F}');
    push_range(v, '\u{1D76F}', '\u{1D76F}');
    push_range(v, '\u{1D789}', '\u{1D789}');
    push_range(v, '\u{1D7A9}', '\u{1D7A9}');
    push_range(v, '\u{1D7C3}', '\u{1D7C3}');
    assert(rview(v@) =~= o + id_compat_math_start_chunk_1());
}

pub fn id_compat_math_start_class() -> (v: Vec<ClassUnicodeRange>)
    ensures
        rview(v@) == id_compat_math_start_ranges(),
{
    let mut v: Vec<ClassUnicodeRange> = Vec::new();
    assert(rview(v@) =~= Seq::<SRange>::empty());
    push_id_compat_math_start_chunk_0(&mut v);
    assert(rview(v@) =~= id_compat_math_start_chunk_0());
    push_id_compat_math_start_chunk_1(&mut v);
    assert(rview(v@) =~= id_compat_math_start_chunk_0() + id_compat_math_start_chunk_1());
    v
}

} // verus!
