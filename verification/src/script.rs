//! The scripts of Unicode 16.0 that `\\p{..}` can name (`\\p{Greek}`,
//! `\\p{sc=Latn}`), each as a canonical class, with their names.
use vstd::prelude::*;
use crate::ranges::{SRange, canonical};
use crate::class::{ClassUnicodeRange, rview, lemma_rview_push};
use crate::tables::chars_eq;
use crate::word::lemma_canonical_append;

verus! {

/// A Unicode script.
#[derive(Clone, Copy, Debug, PartialEq, Eq, Structural)]
pub enum Script {
    Adlam,
    Ahom,
    AnatolianHieroglyphs,
    Arabic,
    Armenian,
    Avestan,
    Balinese,
    Bamum,
    BassaVah,
    Batak,
    Bengali,
    Bhaiksuki,
    Bopomofo,
    Brahmi,
    Braille,
    Buginese,
    Buhid,
    CanadianAboriginal,
    Carian,
    CaucasianAlbanian,
    Chakma,
    Cham,
    Cherokee,
    Chorasmian,
    Common,
    Coptic,
    Cuneiform,
    Cypriot,
    CyproMinoan,
    Cyrillic,
    Deseret,
    Devanagari,
    DivesAkuru,
    Dogra,
    Duployan,
    EgyptianHieroglyphs,
    Elbasan,
    Elymaic,
    Ethiopic,
    Garay,
    Georgian,
    Glagolitic,
    Gothic,
    Grantha,
    Greek,
    Gujarati,
    GunjalaGondi,
    Gurmukhi,
    GurungKhema,
    Han,
    Hangul,
    HanifiRohingya,
    Hanunoo,
    Hatran,
    Hebrew,
    Hiragana,
    ImperialAramaic,
    Inherited,
    InscriptionalPahlavi,
    InscriptionalParthian,
    Javanese,
    Kaithi,
    Kannada,
    Katakana,
    Kawi,
    KayahLi,
    Kharoshthi,
    KhitanSmallScript,
    Khmer,
    Khojki,
    Khudawadi,
    KiratRai,
    Lao,
    Latin,
    Lepcha,
    Limbu,
    LinearA,
    LinearB,
    Lisu,
    Lycian,
    Lydian,
    Mahajani,
    Makasar,
    Malayalam,
    Mandaic,
    Manichaean,
    Marchen,
    MasaramGondi,
    Medefaidrin,
    MeeteiMayek,
    MendeKikakui,
    MeroiticCursive,
    MeroiticHieroglyphs,
    Miao,
    Modi,
    Mongolian,
    Mro,
    Multani,
    Myanmar,
    Nabataean,
    NagMundari,
    Nandinagari,
    NewTaiLue,
    Newa,
    Nko,
    Nushu,
    NyiakengPuachueHmong,
    Ogham,
    OlChiki,
    OlOnal,
    OldHungarian,
    OldItalic,
    OldNorthArabian,
    OldPermic,
    OldPersian,
    OldSogdian,
    OldSouthArabian,
    OldTurkic,
    OldUyghur,
    Oriya,
    Osage,
    Osmanya,
    PahawhHmong,
    Palmyrene,
    PauCinHau,
    PhagsPa,
    Phoenician,
    PsalterPahlavi,
    Rejang,
    Runic,
    Samaritan,
    Saurashtra,
    Sharada,
    Shavian,
    Siddham,
    SignWriting,
    Sinhala,
    Sogdian,
    SoraSompeng,
    Soyombo,
    Sundanese,
    Sunuwar,
    SylotiNagri,
    Syriac,
    Tagalog,
    Tagbanwa,
    TaiLe,
    TaiTham,
    TaiViet,
    Takri,
    Tamil,
    Tangsa,
    Tangut,
    Telugu,
    Thaana,
    Thai,
    Tibetan,
    Tifinagh,
    Tirhuta,
    Todhri,
    Toto,
    TuluTigalari,
    Ugaritic,
    Vai,
    Vithkuqi,
    Wancho,
    WarangCiti,
    Yezidi,
    Yi,
    ZanabazarSquare,
}

fn push_range(v: &mut Vec<ClassUnicodeRange>, a: char, b: char)
    ensures
        rview(final(v)@) == rview(old(v)@).push((a as int, b as int)),
{
    let r = ClassUnicodeRange { start: a, end: b };
    proof {
        lemma_rview_push(v@, r);
    }
    v.push(r);
}

pub open spec fn adlam_chunk_0() -> Seq<SRange> {
    seq![(0x1E900int, 0x1E94Bint), (0x1E950int, 0x1E959int), (0x1E95Eint, 0x1E95Fint)]
}

/// The ranges of the script Adlam.
pub open spec fn adlam_ranges() -> Seq<SRange> {
    adlam_chunk_0()
}

proof fn lemma_adlam_canonical()
    ensures
        canonical(adlam_ranges()),
{
    reveal_with_fuel(canonical, 9);
    assert(canonical(adlam_chunk_0()));
}

fn adlam_class() -> (v: Vec<ClassUnicodeRange>)
    ensures
        rview(v@) == adlam_ranges(),
{
    let mut v: Vec<ClassUnicodeRange> = Vec::new();
    push_range(&mut v, '\u{1E900}', '\u{1E94B}');
    push_range(&mut v, '\u{1E950}', '\u{1E959}');
    push_range(&mut v, '\u{1E95E}', '\u{1E95F}');
    assert(rview(v@) =~= adlam_ranges());
    v
}

pub open spec fn ahom_chunk_0() -> Seq<SRange> {
    seq![(0x11700int, 0x1171Aint), (0x1171Dint, 0x1172Bint), (0x11730int, 0x11746int)]
}

/// The ranges of the script Ahom.
pub open spec fn ahom_ranges() -> Seq<SRange> {
    ahom_chunk_0()
}

proof fn lemma_ahom_canonical()
    ensures
        canonical(ahom_ranges()),
{
    reveal_with_fuel(canonical, 9);
    assert(canonical(ahom_chunk_0()));
}

fn ahom_class() -> (v: Vec<ClassUnicodeRange>)
    ensures
        rview(v@) == ahom_ranges(),
{
    let mut v: Vec<ClassUnicodeRange> = Vec::new();
    push_range(&mut v, '\u{11700}', '\u{1171A}');
    push_range(&mut v, '\u{1171D}', '\u{1172B}');
    push_range(&mut v, '\u{11730}', '\u{11746}');
    assert(rview(v@) =~= ahom_ranges());
    v
}

pub open spec fn anatolian_hieroglyphs_chunk_0() -> Seq<SRange> {
    seq![(0x14400int, 0x14646int)]
}

/// The ranges of the script Anatolian_Hieroglyphs.
pub open spec fn anatolian_hieroglyphs_ranges() -> Seq<SRange> {
    anatolian_hieroglyphs_chunk_0()
}

proof fn lemma_anatolian_hieroglyphs_canonical()
    ensures
        canonical(anatolian_hieroglyphs_ranges()),
{
    reveal_with_fuel(canonical, 9);
    assert(canonical(anatolian_hieroglyphs_chunk_0()));
}

fn anatolian_hieroglyphs_class() -> (v: Vec<ClassUnicodeRange>)
    ensures
        rview(v@) == anatolian_hieroglyphs_ranges(),
{
    let mut v: Vec<ClassUnicodeRange> = Vec::new();
    push_range(&mut v, '\u{14400}', '\u{14646}');
    assert(rview(v@) =~= anatolian_hieroglyphs_ranges());
    v
}

pub open spec fn arabic_chunk_0() -> Seq<SRange> {
    seq![(0x600int, 0x604int), (0x606int, 0x60Bint), (0x60Dint, 0x61Aint), (0x61Cint, 0x61Eint), (0x620int, 0x63Fint), (0x641int, 0x64Aint), (0x656int, 0x66Fint), (0x671int, 0x6DCint)]
}

pub open spec fn arabic_chunk_1() -> Seq<SRange> {
    seq![(0x6DEint, 0x6FFint), (0x750int, 0x77Fint), (0x870int, 0x88Eint), (0x890int, 0x891int), (0x897int, 0x8E1int), (0x8E3int, 0x8FFint), (0xFB50int, 0xFBC2int), (0xFBD3int, 0xFD3Dint)]
}

pub open spec fn arabic_chunk_2() -> Seq<SRange> {
    seq![(0xFD40int, 0xFD8Fint), (0xFD92int, 0xFDC7int), (0xFDCFint, 0xFDCFint), (0xFDF0int, 0xFDFFint), (0xFE70int, 0xFE74int), (0xFE76int, 0xFEFCint), (0x10E60int, 0x10E7Eint), (0x10EC2int, 0x10EC4int)]
}

pub open spec fn arabic_chunk_3() -> Seq<SRange> {
    seq![(0x10EFCint, 0x10EFFint), (0x1EE00int, 0x1EE03int), (0x1EE05int, 0x1EE1Fint), (0x1EE21int, 0x1EE22int), (0x1EE24int, 0x1EE24int), (0x1EE27int, 0x1EE27int), (0x1EE29int, 0x1EE32int), (0x1EE34int, 0x1EE37int)]
}

pub open spec fn arabic_chunk_4() -> Seq<SRange> {
    seq![(0x1EE39int, 0x1EE39int), (0x1EE3Bint, 0x1EE3Bint), (0x1EE42int, 0x1EE42int), (0x1EE47int, 0x1EE47int), (0x1EE49int, 0x1EE49int), (0x1EE4Bint, 0x1EE4Bint), (0x1EE4Dint, 0x1EE4Fint), (0x1EE51int, 0x1EE52int)]
}

pub open spec fn arabic_chunk_5() -> Seq<SRange> {
    seq![(0x1EE54int, 0x1EE54int), (0x1EE57int, 0x1EE57int), (0x1EE59int, 0x1EE59int), (0x1EE5Bint, 0x1EE5Bint), (0x1EE5Dint, 0x1EE5Dint), (0x1EE5Fint, 0x1EE5Fint), (0x1EE61int, 0x1EE62int), (0x1EE64int, 0x1EE64int)]
}

pub open spec fn arabic_chunk_6() -> Seq<SRange> {
    seq![(0x1EE67int, 0x1EE6Aint), (0x1EE6Cint, 0x1EE72int), (0x1EE74int, 0x1EE77int), (0x1EE79int, 0x1EE7Cint), (0x1EE7Eint, 0x1EE7Eint), (0x1EE80int, 0x1EE89int), (0x1EE8Bint, 0x1EE9Bint), (0x1EEA1int, 0x1EEA3int)]
}

pub open spec fn arabic_chunk_7() -> Seq<SRange> {
    seq![(0x1EEA5int, 0x1EEA9int), (0x1EEABint, 0x1EEBBint), (0x1EEF0int, 0x1EEF1int)]
}

/// The ranges of the script Arabic.
pub open spec fn arabic_ranges() -> Seq<SRange> {
    arabic_chunk_0() + arabic_chunk_1() + arabic_chunk_2() + arabic_chunk_3() + arabic_chunk_4() + arabic_chunk_5() + arabic_chunk_6() + arabic_chunk_7()
}

proof fn lemma_arabic_canonical()
    ensures
        canonical(arabic_ranges()),
{
    reveal_with_fuel(canonical, 9);
    assert(canonical(arabic_chunk_0()));
    assert(canonical(arabic_chunk_1()));
    assert(canonical(arabic_chunk_2()));
    assert(canonical(arabic_chunk_3()));
    assert(canonical(arabic_chunk_4()));
    assert(canonical(arabic_chunk_5()));
    assert(canonical(arabic_chunk_6()));
    assert(canonical(arabic_chunk_7()));
    lemma_canonical_append(arabic_chunk_0(), arabic_chunk_1());
    lemma_canonical_append(arabic_chunk_0() + arabic_chunk_1(), arabic_chunk_2());
    lemma_canonical_append(arabic_chunk_0() + arabic_chunk_1() + arabic_chunk_2(), arabic_chunk_3());
    lemma_canonical_append(arabic_chunk_0() + arabic_chunk_1() + arabic_chunk_2() + arabic_chunk_3(), arabic_chunk_4());
    lemma_canonical_append(arabic_chunk_0() + arabic_chunk_1() + arabic_chunk_2() + arabic_chunk_3() + arabic_chunk_4(), arabic_chunk_5());
    lemma_canonical_append(arabic_chunk_0() + arabic_chunk_1() + arabic_chunk_2() + arabic_chunk_3() + arabic_chunk_4() + arabic_chunk_5(), arabic_chunk_6());
    lemma_canonical_append(arabic_chunk_0() + arabic_chunk_1() + arabic_chunk_2() + arabic_chunk_3() + arabic_chunk_4() + arabic_chunk_5() + arabic_chunk_6(), arabic_chunk_7());
}

fn push_arabic_chunk_0(v: &mut Vec<ClassUnicodeRange>)
    ensures
        rview(final(v)@) == rview(old(v)@) + arabic_chunk_0(),
{
    let ghost o = rview(v@);
    push_range(v, '\u{600}', '\u{604}');
    push_range(v, '\u{606}', '\u{60B}');
    push_range(v, '\u{60D}', '\u{61A}');
    push_range(v, '\u{61C}', '\u{61E}');
    push_range(v, '\u{620}', '\u{63F}');
    push_range(v, '\u{641}', '\u{64A}');
    push_range(v, '\u{656}', '\u{66F}');
    push_range(v, '\u{671}', '\u{6DC}');
    assert(rview(v@) =~= o + arabic_chunk_0());
}

fn push_arabic_chunk_1(v: &mut Vec<ClassUnicodeRange>)
    ensures
        rview(final(v)@) == rview(old(v)@) + arabic_chunk_1(),
{
    let ghost o = rview(v@);
    push_range(v, '\u{6DE}', '\u{6FF}');
    push_range(v, '\u{750}', '\u{77F}');
    push_range(v, '\u{870}', '\u{88E}');
    push_range(v, '\u{890}', '\u{891}');
    push_range(v, '\u{897}', '\u{8E1}');
    push_range(v, '\u{8E3}', '\u{8FF}');
    push_range(v, '\u{FB50}', '\u{FBC2}');
    push_range(v, '\u{FBD3}', '\u{FD3D}');
    assert(rview(v@) =~= o + arabic_chunk_1());
}

fn push_arabic_chunk_2(v: &mut Vec<ClassUnicodeRange>)
    ensures
        rview(final(v)@) == rview(old(v)@) + arabic_chunk_2(),
{
    let ghost o = rview(v@);
    push_range(v, '\u{FD40}', '\u{FD8F}');
    push_range(v, '\u{FD92}', '\u{FDC7}');
    push_range(v, '\u{FDCF}', '\u{FDCF}');
    push_range(v, '\u{FDF0}', '\u{FDFF}');
    push_range(v, '\u{FE70}', '\u{FE74}');
    push_range(v, '\u{FE76}', '\u{FEFC}');
    push_range(v, '\u{10E60}', '\u{10E7E}');
    push_range(v, '\u{10EC2}', '\u{10EC4}');
    assert(rview(v@) =~= o + arabic_chunk_2());
}

fn push_arabic_chunk_3(v: &mut Vec<ClassUnicodeRange>)
    ensures
        rview(final(v)@) == rview(old(v)@) + arabic_chunk_3(),
{
    let ghost o = rview(v@);
    push_range(v, '\u{10EFC}', '\u{10EFF}');
    push_range(v, '\u{1EE00}', '\u{1EE03}');
    push_range(v, '\u{1EE05}', '\u{1EE1F}');
    push_range(v, '\u{1EE21}', '\u{1EE22}');
    push_range(v, '\u{1EE24}', '\u{1EE24}');
    push_range(v, '\u{1EE27}', '\u{1EE27}');
    push_range(v, '\u{1EE29}', '\u{1EE32}');
    push_range(v, '\u{1EE34}', '\u{1EE37}');
    assert(rview(v@) =~= o + arabic_chunk_3());
}

fn push_arabic_chunk_4(v: &mut Vec<ClassUnicodeRange>)
    ensures
        rview(final(v)@) == rview(old(v)@) + arabic_chunk_4(),
{
    let ghost o = rview(v@);
    push_range(v, '\u{1EE39}', '\u{1EE39}');
    push_range(v, '\u{1EE3B}', '\u{1EE3B}');
    push_range(v, '\u{1EE42}', '\u{1EE42}');
    push_range(v, '\u{1EE47}', '\u{1EE47}');
    push_range(v, '\u{1EE49}', '\u{1EE49}');
    push_range(v, '\u{1EE4B}', '\u{1EE4B}');
    push_range(v, '\u{1EE4D}', '\u{1EE4F}');
    push_range(v, '\u{1EE51}', '\u{1EE52}');
    assert(rview(v@) =~= o + arabic_chunk_4());
}

fn push_arabic_chunk_5(v: &mut Vec<ClassUnicodeRange>)
    ensures
        rview(final(v)@) == rview(old(v)@) + arabic_chunk_5(),
{
    let ghost o = rview(v@);
    push_range(v, '\u{1EE54}', '\u{1EE54}');
    push_range(v, '\u{1EE57}', '\u{1EE57}');
    push_range(v, '\u{1EE59}', '\u{1EE59}');
    push_range(v, '\u{1EE5B}', '\u{1EE5B}');
    push_range(v, '\u{1EE5D}', '\u{1EE5D}');
    push_range(v, '\u{1EE5F}', '\u{1EE5F}');
    push_range(v, '\u{1EE61}', '\u{1EE62}');
    push_range(v, '\u{1EE64}', '\u{1EE64}');
    assert(rview(v@) =~= o + arabic_chunk_5());
}

fn push_arabic_chunk_6(v: &mut Vec<ClassUnicodeRange>)
    ensures
        rview(final(v)@) == rview(old(v)@) + arabic_chunk_6(),
{
    let ghost o = rview(v@);
    push_range(v, '\u{1EE67}', '\u{1EE6A}');
    push_range(v, '\u{1EE6C}', '\u{1EE72}');
    push_range(v, '\u{1EE74}', '\u{1EE77}');
    push_range(v, '\u{1EE79}', '\u{1EE7C}');
    push_range(v, '\u{1EE7E}', '\u{1EE7E}');
    push_range(v, '\u{1EE80}', '\u{1EE89}');
    push_range(v, '\u{1EE8B}', '\u{1EE9B}');
    push_range(v, '\u{1EEA1}', '\u{1EEA3}');
    assert(rview(v@) =~= o + arabic_chunk_6());
}

fn push_arabic_chunk_7(v: &mut Vec<ClassUnicodeRange>)
    ensures
        rview(final(v)@) == rview(old(v)@) + arabic_chunk_7(),
{
    let ghost o = rview(v@);
    push_range(v, '\u{1EEA5}', '\u{1EEA9}');
    push_range(v, '\u{1EEAB}', '\u{1EEBB}');
    push_range(v, '\u{1EEF0}', '\u{1EEF1}');
    assert(rview(v@) =~= o + arabic_chunk_7());
}

fn arabic_class() -> (v: Vec<ClassUnicodeRange>)
    ensures
        rview(v@) == arabic_ranges(),
{
    let mut v: Vec<ClassUnicodeRange> = Vec::new();
    assert(rview(v@) =~= Seq::<SRange>::empty());
    push_arabic_chunk_0(&mut v);
    assert(rview(v@) =~= arabic_chunk_0());
    push_arabic_chunk_1(&mut v);
    assert(rview(v@) =~= arabic_chunk_0() + arabic_chunk_1());
    push_arabic_chunk_2(&mut v);
    assert(rview(v@) =~= arabic_chunk_0() + arabic_chunk_1() + arabic_chunk_2());
    push_arabic_chunk_3(&mut v);
    assert(rview(v@) =~= arabic_chunk_0() + arabic_chunk_1() + arabic_chunk_2() + arabic_chunk_3());
    push_arabic_chunk_4(&mut v);
    assert(rview(v@) =~= arabic_chunk_0() + arabic_chunk_1() + arabic_chunk_2() + arabic_chunk_3() + arabic_chunk_4());
    push_arabic_chunk_5(&mut v);
    assert(rview(v@) =~= arabic_chunk_0() + arabic_chunk_1() + arabic_chunk_2() + arabic_chunk_3() + arabic_chunk_4() + arabic_chunk_5());
    push_arabic_chunk_6(&mut v);
    assert(rview(v@) =~= arabic_chunk_0() + arabic_chunk_1() + arabic_chunk_2() + arabic_chunk_3() + arabic_chunk_4() + arabic_chunk_5() + arabic_chunk_6());
    push_arabic_chunk_7(&mut v);
    assert(rview(v@) =~= arabic_chunk_0() + arabic_chunk_1() + arabic_chunk_2() + arabic_chunk_3() + arabic_chunk_4() + arabic_chunk_5() + arabic_chunk_6() + arabic_chunk_7());
    v
}

pub open spec fn armenian_chunk_0() -> Seq<SRange> {
    seq![(0x531int, 0x556int), (0x559int, 0x58Aint), (0x58Dint, 0x58Fint), (0xFB13int, 0xFB17int)]
}

/// The ranges of the script Armenian.
pub open spec fn armenian_ranges() -> Seq<SRange> {
    armenian_chunk_0()
}

proof fn lemma_armenian_canonical()
    ensures
        canonical(armenian_ranges()),
{
    reveal_with_fuel(canonical, 9);
    assert(canonical(armenian_chunk_0()));
}

fn armenian_class() -> (v: Vec<ClassUnicodeRange>)
    ensures
        rview(v@) == armenian_ranges(),
{
    let mut v: Vec<ClassUnicodeRange> = Vec::new();
    push_range(&mut v, '\u{531}', '\u{556}');
    push_range(&mut v, '\u{559}', '\u{58A}');
    push_range(&mut v, '\u{58D}', '\u{58F}');
    push_range(&mut v, '\u{FB13}', '\u{FB17}');
    assert(rview(v@) =~= armenian_ranges());
    v
}

pub open spec fn avestan_chunk_0() -> Seq<SRange> {
    seq![(0x10B00int, 0x10B35int), (0x10B39int, 0x10B3Fint)]
}

/// The ranges of the script Avestan.
pub open spec fn avestan_ranges() -> Seq<SRange> {
    avestan_chunk_0()
}

proof fn lemma_avestan_canonical()
    ensures
        canonical(avestan_ranges()),
{
    reveal_with_fuel(canonical, 9);
    assert(canonical(avestan_chunk_0()));
}

fn avestan_class() -> (v: Vec<ClassUnicodeRange>)
    ensures
        rview(v@) == avestan_ranges(),
{
    let mut v: Vec<ClassUnicodeRange> = Vec::new();
    push_range(&mut v, '\u{10B00}', '\u{10B35}');
    push_range(&mut v, '\u{10B39}', '\u{10B3F}');
    assert(rview(v@) =~= avestan_ranges());
    v
}

pub open spec fn balinese_chunk_0() -> Seq<SRange> {
    seq![(0x1B00int, 0x1B4Cint), (0x1B4Eint, 0x1B7Fint)]
}

/// The ranges of the script Balinese.
pub open spec fn balinese_ranges() -> Seq<SRange> {
    balinese_chunk_0()
}

proof fn lemma_balinese_canonical()
    ensures
        canonical(balinese_ranges()),
{
    reveal_with_fuel(canonical, 9);
    assert(canonical(balinese_chunk_0()));
}

fn balinese_class() -> (v: Vec<ClassUnicodeRange>)
    ensures
        rview(v@) == balinese_ranges(),
{
    let mut v: Vec<ClassUnicodeRange> = Vec::new();
    push_range(&mut v, '\u{1B00}', '\u{1B4C}');
    push_range(&mut v, '\u{1B4E}', '\u{1B7F}');
    assert(rview(v@) =~= balinese_ranges());
    v
}

pub open spec fn bamum_chunk_0() -> Seq<SRange> {
    seq![(0xA6A0int, 0xA6F7int), (0x16800int, 0x16A38int)]
}

/// The ranges of the script Bamum.
pub open spec fn bamum_ranges() -> Seq<SRange> {
    bamum_chunk_0()
}

proof fn lemma_bamum_canonical()
    ensures
        canonical(bamum_ranges()),
{
    reveal_with_fuel(canonical, 9);
    assert(canonical(bamum_chunk_0()));
}

fn bamum_class() -> (v: Vec<ClassUnicodeRange>)
    ensures
        rview(v@) == bamum_ranges(),
{
    let mut v: Vec<ClassUnicodeRange> = Vec::new();
    push_range(&mut v, '\u{A6A0}', '\u{A6F7}');
    push_range(&mut v, '\u{16800}', '\u{16A38}');
    assert(rview(v@) =~= bamum_ranges());
    v
}

pub open spec fn bassa_vah_chunk_0() -> Seq<SRange> {
    seq![(0x16AD0int, 0x16AEDint), (0x16AF0int, 0x16AF5int)]
}

/// The ranges of the script Bassa_Vah.
pub open spec fn bassa_vah_ranges() -> Seq<SRange> {
    bassa_vah_chunk_0()
}

proof fn lemma_bassa_vah_canonical()
    ensures
        canonical(bassa_vah_ranges()),
{
    reveal_with_fuel(canonical, 9);
    assert(canonical(bassa_vah_chunk_0()));
}

fn bassa_vah_class() -> (v: Vec<ClassUnicodeRange>)
    ensures
        rview(v@) == bassa_vah_ranges(),
{
    let mut v: Vec<ClassUnicodeRange> = Vec::new();
    push_range(&mut v, '\u{16AD0}', '\u{16AED}');
    push_range(&mut v, '\u{16AF0}', '\u{16AF5}');
    assert(rview(v@) =~= bassa_vah_ranges());
    v
}

pub open spec fn batak_chunk_0() -> Seq<SRange> {
    seq![(0x1BC0int, 0x1BF3int), (0x1BFCint, 0x1BFFint)]
}

/// The ranges of the script Batak.
pub open spec fn batak_ranges() -> Seq<SRange> {
    batak_chunk_0()
}

proof fn lemma_batak_canonical()
    ensures
        canonical(batak_ranges()),
{
    reveal_with_fuel(canonical, 9);
    assert(canonical(batak_chunk_0()));
}

fn batak_class() -> (v: Vec<ClassUnicodeRange>)
    ensures
        rview(v@) == batak_ranges(),
{
    let mut v: Vec<ClassUnicodeRange> = Vec::new();
    push_range(&mut v, '\u{1BC0}', '\u{1BF3}');
    push_range(&mut v, '\u{1BFC}', '\u{1BFF}');
    assert(rview(v@) =~= batak_ranges());
    v
}

pub open spec fn bengali_chunk_0() -> Seq<SRange> {
    seq![(0x980int, 0x983int), (0x985int, 0x98Cint), (0x98Fint, 0x990int), (0x993int, 0x9A8int), (0x9AAint, 0x9B0int), (0x9B2int, 0x9B2int), (0x9B6int, 0x9B9int), (0x9BCint, 0x9C4int)]
}

pub open spec fn bengali_chunk_1() -> Seq<SRange> {
    seq![(0x9C7int, 0x9C8int), (0x9CBint, 0x9CEint), (0x9D7int, 0x9D7int), (0x9DCint, 0x9DDint), (0x9DFint, 0x9E3int), (0x9E6int, 0x9FEint)]
}

/// The ranges of the script Bengali.
pub open spec fn bengali_ranges() -> Seq<SRange> {
    bengali_chunk_0() + bengali_chunk_1()
}

proof fn lemma_bengali_canonical()
    ensures
        canonical(bengali_ranges()),
{
    reveal_with_fuel(canonical, 9);
    assert(canonical(bengali_chunk_0()));
    assert(canonical(bengali_chunk_1()));
    lemma_canonical_append(bengali_chunk_0(), bengali_chunk_1());
}

fn bengali_class() -> (v: Vec<ClassUnicodeRange>)
    ensures
        rview(v@) == bengali_ranges(),
{
    let mut v: Vec<ClassUnicodeRange> = Vec::new();
    push_range(&mut v, '\u{980}', '\u{983}');
    push_range(&mut v, '\u{985}', '\u{98C}');
    push_range(&mut v, '\u{98F}', '\u{990}');
    push_range(&mut v, '\u{993}', '\u{9A8}');
    push_range(&mut v, '\u{9AA}', '\u{9B0}');
    push_range(&mut v, '\u{9B2}', '\u{9B2}');
    push_range(&mut v, '\u{9B6}', '\u{9B9}');
    push_range(&mut v, '\u{9BC}', '\u{9C4}');
    push_range(&mut v, '\u{9C7}', '\u{9C8}');
    push_range(&mut v, '\u{9CB}', '\u{9CE}');
    push_range(&mut v, '\u{9D7}', '\u{9D7}');
    push_range(&mut v, '\u{9DC}', '\u{9DD}');
    push_range(&mut v, '\u{9DF}', '\u{9E3}');
    push_range(&mut v, '\u{9E6}', '\u{9FE}');
    assert(rview(v@) =~= bengali_ranges());
    v
}

pub open spec fn bhaiksuki_chunk_0() -> Seq<SRange> {
    seq![(0x11C00int, 0x11C08int), (0x11C0Aint, 0x11C36int), (0x11C38int, 0x11C45int), (0x11C50int, 0x11C6Cint)]
}

/// The ranges of the script Bhaiksuki.
pub open spec fn bhaiksuki_ranges() -> Seq<SRange> {
    bhaiksuki_chunk_0()
}

proof fn lemma_bhaiksuki_canonical()
    ensures
        canonical(bhaiksuki_ranges()),
{
    reveal_with_fuel(canonical, 9);
    assert(canonical(bhaiksuki_chunk_0()));
}

fn bhaiksuki_class() -> (v: Vec<ClassUnicodeRange>)
    ensures
        rview(v@) == bhaiksuki_ranges(),
{
    let mut v: Vec<ClassUnicodeRange> = Vec::new();
    push_range(&mut v, '\u{11C00}', '\u{11C08}');
    push_range(&mut v, '\u{11C0A}', '\u{11C36}');
    push_range(&mut v, '\u{11C38}', '\u{11C45}');
    push_range(&mut v, '\u{11C50}', '\u{11C6C}');
    assert(rview(v@) =~= bhaiksuki_ranges());
    v
}

pub open spec fn bopomofo_chunk_0() -> Seq<SRange> {
    seq![(0x2EAint, 0x2EBint), (0x3105int, 0x312Fint), (0x31A0int, 0x31BFint)]
}

/// The ranges of the script Bopomofo.
pub open spec fn bopomofo_ranges() -> Seq<SRange> {
    bopomofo_chunk_0()
}

proof fn lemma_bopomofo_canonical()
    ensures
        canonical(bopomofo_ranges()),
{
    reveal_with_fuel(canonical, 9);
    assert(canonical(bopomofo_chunk_0()));
}

fn bopomofo_class() -> (v: Vec<ClassUnicodeRange>)
    ensures
        rview(v@) == bopomofo_ranges(),
{
    let mut v: Vec<ClassUnicodeRange> = Vec::new();
    push_range(&mut v, '\u{2EA}', '\u{2EB}');
    push_range(&mut v, '\u{3105}', '\u{312F}');
    push_range(&mut v, '\u{31A0}', '\u{31BF}');
    assert(rview(v@) =~= bopomofo_ranges());
    v
}

pub open spec fn brahmi_chunk_0() -> Seq<SRange> {
    seq![(0x11000int, 0x1104Dint), (0x11052int, 0x11075int), (0x1107Fint, 0x1107Fint)]
}

/// The ranges of the script Brahmi.
pub open spec fn brahmi_ranges() -> Seq<SRange> {
    brahmi_chunk_0()
}

proof fn lemma_brahmi_canonical()
    ensures
        canonical(brahmi_ranges()),
{
    reveal_with_fuel(canonical, 9);
    assert(canonical(brahmi_chunk_0()));
}

fn brahmi_class() -> (v: Vec<ClassUnicodeRange>)
    ensures
        rview(v@) == brahmi_ranges(),
{
    let mut v: Vec<ClassUnicodeRange> = Vec::new();
    push_range(&mut v, '\u{11000}', '\u{1104D}');
    push_range(&mut v, '\u{11052}', '\u{11075}');
    push_range(&mut v, '\u{1107F}', '\u{1107F}');
    assert(rview(v@) =~= brahmi_ranges());
    v
}

pub open spec fn braille_chunk_0() -> Seq<SRange> {
    seq![(0x2800int, 0x28FFint)]
}

/// The ranges of the script Braille.
pub open spec fn braille_ranges() -> Seq<SRange> {
    braille_chunk_0()
}

proof fn lemma_braille_canonical()
    ensures
        canonical(braille_ranges()),
{
    reveal_with_fuel(canonical, 9);
    assert(canonical(braille_chunk_0()));
}

fn braille_class() -> (v: Vec<ClassUnicodeRange>)
    ensures
        rview(v@) == braille_ranges(),
{
    let mut v: Vec<ClassUnicodeRange> = Vec::new();
    push_range(&mut v, '\u{2800}', '\u{28FF}');
    assert(rview(v@) =~= braille_ranges());
    v
}

pub open spec fn buginese_chunk_0() -> Seq<SRange> {
    seq![(0x1A00int, 0x1A1Bint), (0x1A1Eint, 0x1A1Fint)]
}

/// The ranges of the script Buginese.
pub open spec fn buginese_ranges() -> Seq<SRange> {
    buginese_chunk_0()
}

proof fn lemma_buginese_canonical()
    ensures
        canonical(buginese_ranges()),
{
    reveal_with_fuel(canonical, 9);
    assert(canonical(buginese_chunk_0()));
}

fn buginese_class() -> (v: Vec<ClassUnicodeRange>)
    ensures
        rview(v@) == buginese_ranges(),
{
    let mut v: Vec<ClassUnicodeRange> = Vec::new();
    push_range(&mut v, '\u{1A00}', '\u{1A1B}');
    push_range(&mut v, '\u{1A1E}', '\u{1A1F}');
    assert(rview(v@) =~= buginese_ranges());
    v
}

pub open spec fn buhid_chunk_0() -> Seq<SRange> {
    seq![(0x1740int, 0x1753int)]
}

/// The ranges of the script Buhid.
pub open spec fn buhid_ranges() -> Seq<SRange> {
    buhid_chunk_0()
}

proof fn lemma_buhid_canonical()
    ensures
        canonical(buhid_ranges()),
{
    reveal_with_fuel(canonical, 9);
    assert(canonical(buhid_chunk_0()));
}

fn buhid_class() -> (v: Vec<ClassUnicodeRange>)
    ensures
        rview(v@) == buhid_ranges(),
{
    let mut v: Vec<ClassUnicodeRange> = Vec::new();
    push_range(&mut v, '\u{1740}', '\u{1753}');
    assert(rview(v@) =~= buhid_ranges());
    v
}

pub open spec fn canadian_aboriginal_chunk_0() -> Seq<SRange> {
    seq![(0x1400int, 0x167Fint), (0x18B0int, 0x18F5int), (0x11AB0int, 0x11ABFint)]
}

/// The ranges of the script Canadian_Aboriginal.
pub open spec fn canadian_aboriginal_ranges() -> Seq<SRange> {
    canadian_aboriginal_chunk_0()
}

proof fn lemma_canadian_aboriginal_canonical()
    ensures
        canonical(canadian_aboriginal_ranges()),
{
    reveal_with_fuel(canonical, 9);
    assert(canonical(canadian_aboriginal_chunk_0()));
}

fn canadian_aboriginal_class() -> (v: Vec<ClassUnicodeRange>)
    ensures
        rview(v@) == canadian_aboriginal_ranges(),
{
    let mut v: Vec<ClassUnicodeRange> = Vec::new();
    push_range(&mut v, '\u{1400}', '\u{167F}');
    push_range(&mut v, '\u{18B0}', '\u{18F5}');
    push_range(&mut v, '\u{11AB0}', '\u{11ABF}');
    assert(rview(v@) =~= canadian_aboriginal_ranges());
    v
}

pub open spec fn carian_chunk_0() -> Seq<SRange> {
    seq![(0x102A0int, 0x102D0int)]
}

/// The ranges of the script Carian.
pub open spec fn carian_ranges() -> Seq<SRange> {
    carian_chunk_0()
}

proof fn lemma_carian_canonical()
    ensures
        canonical(carian_ranges()),
{
    reveal_with_fuel(canonical, 9);
    assert(canonical(carian_chunk_0()));
}

fn carian_class() -> (v: Vec<ClassUnicodeRange>)
    ensures
        rview(v@) == carian_ranges(),
{
    let mut v: Vec<ClassUnicodeRange> = Vec::new();
    push_range(&mut v, '\u{102A0}', '\u{102D0}');
    assert(rview(v@) =~= carian_ranges());
    v
}

pub open spec fn caucasian_albanian_chunk_0() -> Seq<SRange> {
    seq![(0x10530int, 0x10563int), (0x1056Fint, 0x1056Fint)]
}

/// The ranges of the script Caucasian_Albanian.
pub open spec fn caucasian_albanian_ranges() -> Seq<SRange> {
    caucasian_albanian_chunk_0()
}

proof fn lemma_caucasian_albanian_canonical()
    ensures
        canonical(caucasian_albanian_ranges()),
{
    reveal_with_fuel(canonical, 9);
    assert(canonical(caucasian_albanian_chunk_0()));
}

fn caucasian_albanian_class() -> (v: Vec<ClassUnicodeRange>)
    ensures
        rview(v@) == caucasian_albanian_ranges(),
{
    let mut v: Vec<ClassUnicodeRange> = Vec::new();
    push_range(&mut v, '\u{10530}', '\u{10563}');
    push_range(&mut v, '\u{1056F}', '\u{1056F}');
    assert(rview(v@) =~= caucasian_albanian_ranges());
    v
}

pub open spec fn chakma_chunk_0() -> Seq<SRange> {
    seq![(0x11100int, 0x11134int), (0x11136int, 0x11147int)]
}

/// The ranges of the script Chakma.
pub open spec fn chakma_ranges() -> Seq<SRange> {
    chakma_chunk_0()
}

proof fn lemma_chakma_canonical()
    ensures
        canonical(chakma_ranges()),
{
    reveal_with_fuel(canonical, 9);
    assert(canonical(chakma_chunk_0()));
}

fn chakma_class() -> (v: Vec<ClassUnicodeRange>)
    ensures
        rview(v@) == chakma_ranges(),
{
    let mut v: Vec<ClassUnicodeRange> = Vec::new();
    push_range(&mut v, '\u{11100}', '\u{11134}');
    push_range(&mut v, '\u{11136}', '\u{11147}');
    assert(rview(v@) =~= chakma_ranges());
    v
}

pub open spec fn cham_chunk_0() -> Seq<SRange> {
    seq![(0xAA00int, 0xAA36int), (0xAA40int, 0xAA4Dint), (0xAA50int, 0xAA59int), (0xAA5Cint, 0xAA5Fint)]
}

/// The ranges of the script Cham.
pub open spec fn cham_ranges() -> Seq<SRange> {
    cham_chunk_0()
}

proof fn lemma_cham_canonical()
    ensures
        canonical(cham_ranges()),
{
    reveal_with_fuel(canonical, 9);
    assert(canonical(cham_chunk_0()));
}

fn cham_class() -> (v: Vec<ClassUnicodeRange>)
    ensures
        rview(v@) == cham_ranges(),
{
    let mut v: Vec<ClassUnicodeRange> = Vec::new();
    push_range(&mut v, '\u{AA00}', '\u{AA36}');
    push_range(&mut v, '\u{AA40}', '\u{AA4D}');
    push_range(&mut v, '\u{AA50}', '\u{AA59}');
    push_range(&mut v, '\u{AA5C}', '\u{AA5F}');
    assert(rview(v@) =~= cham_ranges());
    v
}

pub open spec fn cherokee_chunk_0() -> Seq<SRange> {
    seq![(0x13A0int, 0x13F5int), (0x13F8int, 0x13FDint), (0xAB70int, 0xABBFint)]
}

/// The ranges of the script Cherokee.
pub open spec fn cherokee_ranges() -> Seq<SRange> {
    cherokee_chunk_0()
}

proof fn lemma_cherokee_canonical()
    ensures
        canonical(cherokee_ranges()),
{
    reveal_with_fuel(canonical, 9);
    assert(canonical(cherokee_chunk_0()));
}

fn cherokee_class() -> (v: Vec<ClassUnicodeRange>)
    ensures
        rview(v@) == cherokee_ranges(),
{
    let mut v: Vec<ClassUnicodeRange> = Vec::new();
    push_range(&mut v, '\u{13A0}', '\u{13F5}');
    push_range(&mut v, '\u{13F8}', '\u{13FD}');
    push_range(&mut v, '\u{AB70}', '\u{ABBF}');
    assert(rview(v@) =~= cherokee_ranges());
    v
}

pub open spec fn chorasmian_chunk_0() -> Seq<SRange> {
    seq![(0x10FB0int, 0x10FCBint)]
}

/// The ranges of the script Chorasmian.
pub open spec fn chorasmian_ranges() -> Seq<SRange> {
    chorasmian_chunk_0()
}

proof fn lemma_chorasmian_canonical()
    ensures
        canonical(chorasmian_ranges()),
{
    reveal_with_fuel(canonical, 9);
    assert(canonical(chorasmian_chunk_0()));
}

fn chorasmian_class() -> (v: Vec<ClassUnicodeRange>)
    ensures
        rview(v@) == chorasmian_ranges(),
{
    let mut v: Vec<ClassUnicodeRange> = Vec::new();
    push_range(&mut v, '\u{10FB0}', '\u{10FCB}');
    assert(rview(v@) =~= chorasmian_ranges());
    v
}

pub open spec fn common_chunk_0() -> Seq<SRange> {
    seq![(0x0int, 0x40int), (0x5Bint, 0x60int), (0x7Bint, 0xA9int), (0xABint, 0xB9int), (0xBBint, 0xBFint), (0xD7int, 0xD7int), (0xF7int, 0xF7int), (0x2B9int, 0x2DFint)]
}

pub open spec fn common_chunk_1() -> Seq<SRange> {
    seq![(0x2E5int, 0x2E9int), (0x2ECint, 0x2FFint), (0x374int, 0x374int), (0x37Eint, 0x37Eint), (0x385int, 0x385int), (0x387int, 0x387int), (0x605int, 0x605int), (0x60Cint, 0x60Cint)]
}

pub open spec fn common_chunk_2() -> Seq<SRange> {
    seq![(0x61Bint, 0x61Bint), (0x61Fint, 0x61Fint), (0x640int, 0x640int), (0x6DDint, 0x6DDint), (0x8E2int, 0x8E2int), (0x964int, 0x965int), (0xE3Fint, 0xE3Fint), (0xFD5int, 0xFD8int)]
}

pub open spec fn common_chunk_3() -> Seq<SRange> {
    seq![(0x10FBint, 0x10FBint), (0x16EBint, 0x16EDint), (0x1735int, 0x1736int), (0x1802int, 0x1803int), (0x1805int, 0x1805int), (0x1CD3int, 0x1CD3int), (0x1CE1int, 0x1CE1int), (0x1CE9int, 0x1CECint)]
}

pub open spec fn common_chunk_4() -> Seq<SRange> {
    seq![(0x1CEEint, 0x1CF3int), (0x1CF5int, 0x1CF7int), (0x1CFAint, 0x1CFAint), (0x2000int, 0x200Bint), (0x200Eint, 0x2064int), (0x2066int, 0x2070int), (0x2074int, 0x207Eint), (0x2080int, 0x208Eint)]
}

pub open spec fn common_chunk_5() -> Seq<SRange> {
    seq![(0x20A0int, 0x20C0int), (0x2100int, 0x2125int), (0x2127int, 0x2129int), (0x212Cint, 0x2131int), (0x2133int, 0x214Dint), (0x214Fint, 0x215Fint), (0x2189int, 0x218Bint), (0x2190int, 0x2429int)]
}

pub open spec fn common_chunk_6() -> Seq<SRange> {
    seq![(0x2440int, 0x244Aint), (0x2460int, 0x27FFint), (0x2900int, 0x2B73int), (0x2B76int, 0x2B95int), (0x2B97int, 0x2BFFint), (0x2E00int, 0x2E5Dint), (0x2FF0int, 0x3004int), (0x3006int, 0x3006int)]
}

pub open spec fn common_chunk_7() -> Seq<SRange> {
    seq![(0x3008int, 0x3020int), (0x3030int, 0x3037int), (0x303Cint, 0x303Fint), (0x309Bint, 0x309Cint), (0x30A0int, 0x30A0int), (0x30FBint, 0x30FCint), (0x3190int, 0x319Fint), (0x31C0int, 0x31E5int)]
}

pub open spec fn common_chunk_8() -> Seq<SRange> {
    seq![(0x31EFint, 0x31EFint), (0x3220int, 0x325Fint), (0x327Fint, 0x32CFint), (0x32FFint, 0x32FFint), (0x3358int, 0x33FFint), (0x4DC0int, 0x4DFFint), (0xA700int, 0xA721int), (0xA788int, 0xA78Aint)]
}

pub open spec fn common_chunk_9() -> Seq<SRange> {
    seq![(0xA830int, 0xA839int), (0xA92Eint, 0xA92Eint), (0xA9CFint, 0xA9CFint), (0xAB5Bint, 0xAB5Bint), (0xAB6Aint, 0xAB6Bint), (0xFD3Eint, 0xFD3Fint), (0xFE10int, 0xFE19int), (0xFE30int, 0xFE52int)]
}

pub open spec fn common_chunk_10() -> Seq<SRange> {
    seq![(0xFE54int, 0xFE66int), (0xFE68int, 0xFE6Bint), (0xFEFFint, 0xFEFFint), (0xFF01int, 0xFF20int), (0xFF3Bint, 0xFF40int), (0xFF5Bint, 0xFF65int), (0xFF70int, 0xFF70int), (0xFF9Eint, 0xFF9Fint)]
}

pub open spec fn common_chunk_11() -> Seq<SRange> {
    seq![(0xFFE0int, 0xFFE6int), (0xFFE8int, 0xFFEEint), (0xFFF9int, 0xFFFDint), (0x10100int, 0x10102int), (0x10107int, 0x10133int), (0x10137int, 0x1013Fint), (0x10190int, 0x1019Cint), (0x101D0int, 0x101FCint)]
}

pub open spec fn common_chunk_12() -> Seq<SRange> {
    seq![(0x102E1int, 0x102FBint), (0x1BCA0int, 0x1BCA3int), (0x1CC00int, 0x1CCF9int), (0x1CD00int, 0x1CEB3int), (0x1CF50int, 0x1CFC3int), (0x1D000int, 0x1D0F5int), (0x1D100int, 0x1D126int), (0x1D129int, 0x1D166int)]
}

pub open spec fn common_chunk_13() -> Seq<SRange> {
    seq![(0x1D16Aint, 0x1D17Aint), (0x1D183int, 0x1D184int), (0x1D18Cint, 0x1D1A9int), (0x1D1AEint, 0x1D1EAint), (0x1D2C0int, 0x1D2D3int), (0x1D2E0int, 0x1D2F3int), (0x1D300int, 0x1D356int), (0x1D360int, 0x1D378int)]
}

pub open spec fn common_chunk_14() -> Seq<SRange> {
    seq![(0x1D400int, 0x1D454int), (0x1D456int, 0x1D49Cint), (0x1D49Eint, 0x1D49Fint), (0x1D4A2int, 0x1D4A2int), (0x1D4A5int, 0x1D4A6int), (0x1D4A9int, 0x1D4ACint), (0x1D4AEint, 0x1D4B9int), (0x1D4BBint, 0x1D4BBint)]
}

pub open spec fn common_chunk_15() -> Seq<SRange> {
    seq![(0x1D4BDint, 0x1D4C3int), (0x1D4C5int, 0x1D505int), (0x1D507int, 0x1D50Aint), (0x1D50Dint, 0x1D514int), (0x1D516int, 0x1D51Cint), (0x1D51Eint, 0x1D539int), (0x1D53Bint, 0x1D53Eint), (0x1D540int, 0x1D544int)]
}

pub open spec fn common_chunk_16() -> Seq<SRange> {
    seq![(0x1D546int, 0x1D546int), (0x1D54Aint, 0x1D550int), (0x1D552int, 0x1D6A5int), (0x1D6A8int, 0x1D7CBint), (0x1D7CEint, 0x1D7FFint), (0x1EC71int, 0x1ECB4int), (0x1ED01int, 0x1ED3Dint), (0x1F000int, 0x1F02Bint)]
}

pub open spec fn common_chunk_17() -> Seq<SRange> {
    seq![(0x1F030int, 0x1F093int), (0x1F0A0int, 0x1F0AEint), (0x1F0B1int, 0x1F0BFint), (0x1F0C1int, 0x1F0CFint), (0x1F0D1int, 0x1F0F5int), (0x1F100int, 0x1F1ADint), (0x1F1E6int, 0x1F1FFint), (0x1F201int, 0x1F202int)]
}

pub open spec fn common_chunk_18() -> Seq<SRange> {
    seq![(0x1F210int, 0x1F23Bint), (0x1F240int, 0x1F248int), (0x1F250int, 0x1F251int), (0x1F260int, 0x1F265int), (0x1F300int, 0x1F6D7int), (0x1F6DCint, 0x1F6ECint), (0x1F6F0int, 0x1F6FCint), (0x1F700int, 0x1F776int)]
}

pub open spec fn common_chunk_19() -> Seq<SRange> {
    seq![(0x1F77Bint, 0x1F7D9int), (0x1F7E0int, 0x1F7EBint), (0x1F7F0int, 0x1F7F0int), (0x1F800int, 0x1F80Bint), (0x1F810int, 0x1F847int), (0x1F850int, 0x1F859int), (0x1F860int, 0x1F887int), (0x1F890int, 0x1F8ADint)]
}

pub open spec fn common_chunk_20() -> Seq<SRange> {
    seq![(0x1F8B0int, 0x1F8BBint), (0x1F8C0int, 0x1F8C1int), (0x1F900int, 0x1FA53int), (0x1FA60int, 0x1FA6Dint), (0x1FA70int, 0x1FA7Cint), (0x1FA80int, 0x1FA89int), (0x1FA8Fint, 0x1FAC6int), (0x1FACEint, 0x1FADCint)]
}

pub open spec fn common_chunk_21() -> Seq<SRange> {
    seq![(0x1FADFint, 0x1FAE9int), (0x1FAF0int, 0x1FAF8int), (0x1FB00int, 0x1FB92int), (0x1FB94int, 0x1FBF9int), (0xE0001int, 0xE0001int), (0xE0020int, 0xE007Fint)]
}

/// The ranges of the script Common.
pub open spec fn common_ranges() -> Seq<SRange> {
    common_chunk_0() + common_chunk_1() + common_chunk_2() + common_chunk_3() + common_chunk_4() + common_chunk_5() + common_chunk_6() + common_chunk_7() + common_chunk_8() + common_chunk_9() + common_chunk_10() + common_chunk_11() + common_chunk_12() + common_chunk_13() + common_chunk_14() + common_chunk_15() + common_chunk_16() + common_chunk_17() + common_chunk_18() + common_chunk_19() + common_chunk_20() + common_chunk_21()
}

proof fn lemma_common_canonical()
    ensures
        canonical(common_ranges()),
{
    reveal_with_fuel(canonical, 9);
    assert(canonical(common_chunk_0()));
    assert(canonical(common_chunk_1()));
    assert(canonical(common_chunk_2()));
    assert(canonical(common_chunk_3()));
    assert(canonical(common_chunk_4()));
    assert(canonical(common_chunk_5()));
    assert(canonical(common_chunk_6()));
    assert(canonical(common_chunk_7()));
    assert(canonical(common_chunk_8()));
    assert(canonical(common_chunk_9()));
    assert(canonical(common_chunk_10()));
    assert(canonical(common_chunk_11()));
    assert(canonical(common_chunk_12()));
    assert(canonical(common_chunk_13()));
    assert(canonical(common_chunk_14()));
    assert(canonical(common_chunk_15()));
    assert(canonical(common_chunk_16()));
    assert(canonical(common_chunk_17()));
    assert(canonical(common_chunk_18()));
    assert(canonical(common_chunk_19()));
    assert(canonical(common_chunk_20()));
    assert(canonical(common_chunk_21()));
    lemma_canonical_append(common_chunk_0(), common_chunk_1());
    lemma_canonical_append(common_chunk_0() + common_chunk_1(), common_chunk_2());
    lemma_canonical_append(common_chunk_0() + common_chunk_1() + common_chunk_2(), common_chunk_3());
    lemma_canonical_append(common_chunk_0() + common_chunk_1() + common_chunk_2() + common_chunk_3(), common_chunk_4());
    lemma_canonical_append(common_chunk_0() + common_chunk_1() + common_chunk_2() + common_chunk_3() + common_chunk_4(), common_chunk_5());
    lemma_canonical_append(common_chunk_0() + common_chunk_1() + common_chunk_2() + common_chunk_3() + common_chunk_4() + common_chunk_5(), common_chunk_6());
    lemma_canonical_append(common_chunk_0() + common_chunk_1() + common_chunk_2() + common_chunk_3() + common_chunk_4() + common_chunk_5() + common_chunk_6(), common_chunk_7());
    lemma_canonical_append(common_chunk_0() + common_chunk_1() + common_chunk_2() + common_chunk_3() + common_chunk_4() + common_chunk_5() + common_chunk_6() + common_chunk_7(), common_chunk_8());
    lemma_canonical_append(common_chunk_0() + common_chunk_1() + common_chunk_2() + common_chunk_3() + common_chunk_4() + common_chunk_5() + common_chunk_6() + common_chunk_7() + common_chunk_8(), common_chunk_9());
    lemma_canonical_append(common_chunk_0() + common_chunk_1() + common_chunk_2() + common_chunk_3() + common_chunk_4() + common_chunk_5() + common_chunk_6() + common_chunk_7() + common_chunk_8() + common_chunk_9(), common_chunk_10());
    lemma_canonical_append(common_chunk_0() + common_chunk_1() + common_chunk_2() + common_chunk_3() + common_chunk_4() + common_chunk_5() + common_chunk_6() + common_chunk_7() + common_chunk_8() + common_chunk_9() + common_chunk_10(), common_chunk_11());
    lemma_canonical_append(common_chunk_0() + common_chunk_1() + common_chunk_2() + common_chunk_3() + common_chunk_4() + common_chunk_5() + common_chunk_6() + common_chunk_7() + common_chunk_8() + common_chunk_9() + common_chunk_10() + common_chunk_11(), common_chunk_12());
    lemma_canonical_append(common_chunk_0() + common_chunk_1() + common_chunk_2() + common_chunk_3() + common_chunk_4() + common_chunk_5() + common_chunk_6() + common_chunk_7() + common_chunk_8() + common_chunk_9() + common_chunk_10() + common_chunk_11() + common_chunk_12(), common_chunk_13());
    lemma_canonical_append(common_chunk_0() + common_chunk_1() + common_chunk_2() + common_chunk_3() + common_chunk_4() + common_chunk_5() + common_chunk_6() + common_chunk_7() + common_chunk_8() + common_chunk_9() + common_chunk_10() + common_chunk_11() + common_chunk_12() + common_chunk_13(), common_chunk_14());
    lemma_canonical_append(common_chunk_0() + common_chunk_1() + common_chunk_2() + common_chunk_3() + common_chunk_4() + common_chunk_5() + common_chunk_6() + common_chunk_7() + common_chunk_8() + common_chunk_9() + common_chunk_10() + common_chunk_11() + common_chunk_12() + common_chunk_13() + common_chunk_14(), common_chunk_15());
    lemma_canonical_append(common_chunk_0() + common_chunk_1() + common_chunk_2() + common_chunk_3() + common_chunk_4() + common_chunk_5() + common_chunk_6() + common_chunk_7() + common_chunk_8() + common_chunk_9() + common_chunk_10() + common_chunk_11() + common_chunk_12() + common_chunk_13() + common_chunk_14() + common_chunk_15(), common_chunk_16());
    lemma_canonical_append(common_chunk_0() + common_chunk_1() + common_chunk_2() + common_chunk_3() + common_chunk_4() + common_chunk_5() + common_chunk_6() + common_chunk_7() + common_chunk_8() + common_chunk_9() + common_chunk_10() + common_chunk_11() + common_chunk_12() + common_chunk_13() + common_chunk_14() + common_chunk_15() + common_chunk_16(), common_chunk_17());
    lemma_canonical_append(common_chunk_0() + common_chunk_1() + common_chunk_2() + common_chunk_3() + common_chunk_4() + common_chunk_5() + common_chunk_6() + common_chunk_7() + common_chunk_8() + common_chunk_9() + common_chunk_10() + common_chunk_11() + common_chunk_12() + common_chunk_13() + common_chunk_14() + common_chunk_15() + common_chunk_16() + common_chunk_17(), common_chunk_18());
    lemma_canonical_append(common_chunk_0() + common_chunk_1() + common_chunk_2() + common_chunk_3() + common_chunk_4() + common_chunk_5() + common_chunk_6() + common_chunk_7() + common_chunk_8() + common_chunk_9() + common_chunk_10() + common_chunk_11() + common_chunk_12() + common_chunk_13() + common_chunk_14() + common_chunk_15() + common_chunk_16() + common_chunk_17() + common_chunk_18(), common_chunk_19());
    lemma_canonical_append(common_chunk_0() + common_chunk_1() + common_chunk_2() + common_chunk_3() + common_chunk_4() + common_chunk_5() + common_chunk_6() + common_chunk_7() + common_chunk_8() + common_chunk_9() + common_chunk_10() + common_chunk_11() + common_chunk_12() + common_chunk_13() + common_chunk_14() + common_chunk_15() + common_chunk_16() + common_chunk_17() + common_chunk_18() + common_chunk_19(), common_chunk_20());
    lemma_canonical_append(common_chunk_0() + common_chunk_1() + common_chunk_2() + common_chunk_3() + common_chunk_4() + common_chunk_5() + common_chunk_6() + common_chunk_7() + common_chunk_8() + common_chunk_9() + common_chunk_10() + common_chunk_11() + common_chunk_12() + common_chunk_13() + common_chunk_14() + common_chunk_15() + common_chunk_16() + common_chunk_17() + common_chunk_18() + common_chunk_19() + common_chunk_20(), common_chunk_21());
}

fn push_common_chunk_0(v: &mut Vec<ClassUnicodeRange>)
    ensures
        rview(final(v)@) == rview(old(v)@) + common_chunk_0(),
{
    let ghost o = rview(v@);
    push_range(v, '\u{0}', '\u{40}');
    push_range(v, '\u{5B}', '\u{60}');
    push_range(v, '\u{7B}', '\u{A9}');
    push_range(v, '\u{AB}', '\u{B9}');
    push_range(v, '\u{BB}', '\u{BF}');
    push_range(v, '\u{D7}', '\u{D7}');
    push_range(v, '\u{F7}', '\u{F7}');
    push_range(v, '\u{2B9}', '\u{2DF}');
    assert(rview(v@) =~= o + common_chunk_0());
}

fn push_common_chunk_1(v: &mut Vec<ClassUnicodeRange>)
    ensures
        rview(final(v)@) == rview(old(v)@) + common_chunk_1(),
{
    let ghost o = rview(v@);
    push_range(v, '\u{2E5}', '\u{2E9}');
    push_range(v, '\u{2EC}', '\u{2FF}');
    push_range(v, '\u{374}', '\u{374}');
    push_range(v, '\u{37E}', '\u{37E}');
    push_range(v, '\u{385}', '\u{385}');
    push_range(v, '\u{387}', '\u{387}');
    push_range(v, '\u{605}', '\u{605}');
    push_range(v, '\u{60C}', '\u{60C}');
    assert(rview(v@) =~= o + common_chunk_1());
}

fn push_common_chunk_2(v: &mut Vec<ClassUnicodeRange>)
    ensures
        rview(final(v)@) == rview(old(v)@) + common_chunk_2(),
{
    let ghost o = rview(v@);
    push_range(v, '\u{61B}', '\u{61B}');
    push_range(v, '\u{61F}', '\u{61F}');
    push_range(v, '\u{640}', '\u{640}');
    push_range(v, '\u{6DD}', '\u{6DD}');
    push_range(v, '\u{8E2}', '\u{8E2}');
    push_range(v, '\u{964}', '\u{965}');
    push_range(v, '\u{E3F}', '\u{E3F}');
    push_range(v, '\u{FD5}', '\u{FD8}');
    assert(rview(v@) =~= o + common_chunk_2());
}

fn push_common_chunk_3(v: &mut Vec<ClassUnicodeRange>)
    ensures
        rview(final(v)@) == rview(old(v)@) + common_chunk_3(),
{
    let ghost o = rview(v@);
    push_range(v, '\u{10FB}', '\u{10FB}');
    push_range(v, '\u{16EB}', '\u{16ED}');
    push_range(v, '\u{1735}', '\u{1736}');
    push_range(v, '\u{1802}', '\u{1803}');
    push_range(v, '\u{1805}', '\u{1805}');
    push_range(v, '\u{1CD3}', '\u{1CD3}');
    push_range(v, '\u{1CE1}', '\u{1CE1}');
    push_range(v, '\u{1CE9}', '\u{1CEC}');
    assert(rview(v@) =~= o + common_chunk_3());
}

fn push_common_chunk_4(v: &mut Vec<ClassUnicodeRange>)
    ensures
        rview(final(v)@) == rview(old(v)@) + common_chunk_4(),
{
    let ghost o = rview(v@);
    push_range(v, '\u{1CEE}', '\u{1CF3}');
    push_range(v, '\u{1CF5}', '\u{1CF7}');
    push_range(v, '\u{1CFA}', '\u{1CFA}');
    push_range(v, '\u{2000}', '\u{200B}');
    push_range(v, '\u{200E}', '\u{2064}');
    push_range(v, '\u{2066}', '\u{2070}');
    push_range(v, '\u{2074}', '\u{207E}');
    push_range(v, '\u{2080}', '\u{208E}');
    assert(rview(v@) =~= o + common_chunk_4());
}

fn push_common_chunk_5(v: &mut Vec<ClassUnicodeRange>)
    ensures
        rview(final(v)@) == rview(old(v)@) + common_chunk_5(),
{
    let ghost o = rview(v@);
    push_range(v, '\u{20A0}', '\u{20C0}');
    push_range(v, '\u{2100}', '\u{2125}');
    push_range(v, '\u{2127}', '\u{2129}');
    push_range(v, '\u{212C}', '\u{2131}');
    push_range(v, '\u{2133}', '\u{214D}');
    push_range(v, '\u{214F}', '\u{215F}');
    push_range(v, '\u{2189}', '\u{218B}');
    push_range(v, '\u{2190}', '\u{2429}');
    assert(rview(v@) =~= o + common_chunk_5());
}

fn push_common_chunk_6(v: &mut Vec<ClassUnicodeRange>)
    ensures
        rview(final(v)@) == rview(old(v)@) + common_chunk_6(),
{
    let ghost o = rview(v@);
    push_range(v, '\u{2440}', '\u{244A}');
    push_range(v, '\u{2460}', '\u{27FF}');
    push_range(v, '\u{2900}', '\u{2B73}');
    push_range(v, '\u{2B76}', '\u{2B95}');
    push_range(v, '\u{2B97}', '\u{2BFF}');
    push_range(v, '\u{2E00}', '\u{2E5D}');
    push_range(v, '\u{2FF0}', '\u{3004}');
    push_range(v, '\u{3006}', '\u{3006}');
    assert(rview(v@) =~= o + common_chunk_6());
}

fn push_common_chunk_7(v: &mut Vec<ClassUnicodeRange>)
    ensures
        rview(final(v)@) == rview(old(v)@) + common_chunk_7(),
{
    let ghost o = rview(v@);
    push_range(v, '\u{3008}', '\u{3020}');
    push_range(v, '\u{3030}', '\u{3037}');
    push_range(v, '\u{303C}', '\u{303F}');
    push_range(v, '\u{309B}', '\u{309C}');
    push_range(v, '\u{30A0}', '\u{30A0}');
    push_range(v, '\u{30FB}', '\u{30FC}');
    push_range(v, '\u{3190}', '\u{319F}');
    push_range(v, '\u{31C0}', '\u{31E5}');
    assert(rview(v@) =~= o + common_chunk_7());
}

fn push_common_chunk_8(v: &mut Vec<ClassUnicodeRange>)
    ensures
        rview(final(v)@) == rview(old(v)@) + common_chunk_8(),
{
    let ghost o = rview(v@);
    push_range(v, '\u{31EF}', '\u{31EF}');
    push_range(v, '\u{3220}', '\u{325F}');
    push_range(v, '\u{327F}', '\u{32CF}');
    push_range(v, '\u{32FF}', '\u{32FF}');
    push_range(v, '\u{3358}', '\u{33FF}');
    push_range(v, '\u{4DC0}', '\u{4DFF}');
    push_range(v, '\u{A700}', '\u{A721}');
    push_range(v, '\u{A788}', '\u{A78A}');
    assert(rview(v@) =~= o + common_chunk_8());
}

fn push_common_chunk_9(v: &mut Vec<ClassUnicodeRange>)
    ensures
        rview(final(v)@) == rview(old(v)@) + common_chunk_9(),
{
    let ghost o = rview(v@);
    push_range(v, '\u{A830}', '\u{A839}');
    push_range(v, '\u{A92E}', '\u{A92E}');
    push_range(v, '\u{A9CF}', '\u{A9CF}');
    push_range(v, '\u{AB5B}', '\u{AB5B}');
    push_range(v, '\u{AB6A}', '\u{AB6B}');
    push_range(v, '\u{FD3E}', '\u{FD3F}');
    push_range(v, '\u{FE10}', '\u{FE19}');
    push_range(v, '\u{FE30}', '\u{FE52}');
    assert(rview(v@) =~= o + common_chunk_9());
}

fn push_common_chunk_10(v: &mut Vec<ClassUnicodeRange>)
    ensures
        rview(final(v)@) == rview(old(v)@) + common_chunk_10(),
{
    let ghost o = rview(v@);
    push_range(v, '\u{FE54}', '\u{FE66}');
    push_range(v, '\u{FE68}', '\u{FE6B}');
    push_range(v, '\u{FEFF}', '\u{FEFF}');
    push_range(v, '\u{FF01}', '\u{FF20}');
    push_range(v, '\u{FF3B}', '\u{FF40}');
    push_range(v, '\u{FF5B}', '\u{FF65}');
    push_range(v, '\u{FF70}', '\u{FF70}');
    push_range(v, '\u{FF9E}', '\u{FF9F}');
    assert(rview(v@) =~= o + common_chunk_10());
}

fn push_common_chunk_11(v: &mut Vec<ClassUnicodeRange>)
    ensures
        rview(final(v)@) == rview(old(v)@) + common_chunk_11(),
{
    let ghost o = rview(v@);
    push_range(v, '\u{FFE0}', '\u{FFE6}');
    push_range(v, '\u{FFE8}', '\u{FFEE}');
    push_range(v, '\u{FFF9}', '\u{FFFD}');
    push_range(v, '\u{10100}', '\u{10102}');
    push_range(v, '\u{10107}', '\u{10133}');
    push_range(v, '\u{10137}', '\u{1013F}');
    push_range(v, '\u{10190}', '\u{1019C}');
    push_range(v, '\u{101D0}', '\u{101FC}');
    assert(rview(v@) =~= o + common_chunk_11());
}

fn push_common_chunk_12(v: &mut Vec<ClassUnicodeRange>)
    ensures
        rview(final(v)@) == rview(old(v)@) + common_chunk_12(),
{
    let ghost o = rview(v@);
    push_range(v, '\u{102E1}', '\u{102FB}');
    push_range(v, '\u{1BCA0}', '\u{1BCA3}');
    push_range(v, '\u{1CC00}', '\u{1CCF9}');
    push_range(v, '\u{1CD00}', '\u{1CEB3}');
    push_range(v, '\u{1CF50}', '\u{1CFC3}');
    push_range(v, '\u{1D000}', '\u{1D0F5}');
    push_range(v, '\u{1D100}', '\u{1D126}');
    push_range(v, '\u{1D129}', '\u{1D166}');
    assert(rview(v@) =~= o + common_chunk_12());
}

fn push_common_chunk_13(v: &mut Vec<ClassUnicodeRange>)
    ensures
        rview(final(v)@) == rview(old(v)@) + common_chunk_13(),
{
    let ghost o = rview(v@);
    push_range(v, '\u{1D16A}', '\u{1D17A}');
    push_range(v, '\u{1D183}', '\u{1D184}');
    push_range(v, '\u{1D18C}', '\u{1D1A9}');
    push_range(v, '\u{1D1AE}', '\u{1D1EA}');
    push_range(v, '\u{1D2C0}', '\u{1D2D3}');
    push_range(v, '\u{1D2E0}', '\u{1D2F3}');
    push_range(v, '\u{1D300}', '\u{1D356}');
    push_range(v, '\u{1D360}', '\u{1D378}');
    assert(rview(v@) =~= o + common_chunk_13());
}

fn push_common_chunk_14(v: &mut Vec<ClassUnicodeRange>)
    ensures
        rview(final(v)@) == rview(old(v)@) + common_chunk_14(),
{
    let ghost o = rview(v@);
    push_range(v, '\u{1D400}', '\u{1D454}');
    push_range(v, '\u{1D456}', '\u{1D49C}');
    push_range(v, '\u{1D49E}', '\u{1D49F}');
    push_range(v, '\u{1D4A2}', '\u{1D4A2}');
    push_range(v, '\u{1D4A5}', '\u{1D4A6}');
    push_range(v, '\u{1D4A9}', '\u{1D4AC}');
    push_range(v, '\u{1D4AE}', '\u{1D4B9}');
    push_range(v, '\u{1D4BB}', '\u{1D4BB}');
    assert(rview(v@) =~= o + common_chunk_14());
}

fn push_common_chunk_15(v: &mut Vec<ClassUnicodeRange>)
    ensures
        rview(final(v)@) == rview(old(v)@) + common_chunk_15(),
{
    let ghost o = rview(v@);
    push_range(v, '\u{1D4BD}', '\u{1D4C3}');
    push_range(v, '\u{1D4C5}', '\u{1D505}');
    push_range(v, '\u{1D507}', '\u{1D50A}');
    push_range(v, '\u{1D50D}', '\u{1D514}');
    push_range(v, '\u{1D516}', '\u{1D51C}');
    push_range(v, '\u{1D51E}', '\u{1D539}');
    push_range(v, '\u{1D53B}', '\u{1D53E}');
    push_range(v, '\u{1D540}', '\u{1D544}');
    assert(rview(v@) =~= o + common_chunk_15());
}

fn push_common_chunk_16(v: &mut Vec<ClassUnicodeRange>)
    ensures
        rview(final(v)@) == rview(old(v)@) + common_chunk_16(),
{
    let ghost o = rview(v@);
    push_range(v, '\u{1D546}', '\u{1D546}');
    push_range(v, '\u{1D54A}', '\u{1D550}');
    push_range(v, '\u{1D552}', '\u{1D6A5}');
    push_range(v, '\u{1D6A8}', '\u{1D7CB}');
    push_range(v, '\u{1D7CE}', '\u{1D7FF}');
    push_range(v, '\u{1EC71}', '\u{1ECB4}');
    push_range(v, '\u{1ED01}', '\u{1ED3D}');
    push_range(v, '\u{1F000}', '\u{1F02B}');
    assert(rview(v@) =~= o + common_chunk_16());
}

fn push_common_chunk_17(v: &mut Vec<ClassUnicodeRange>)
    ensures
        rview(final(v)@) == rview(old(v)@) + common_chunk_17(),
{
    let ghost o = rview(v@);
    push_range(v, '\u{1F030}', '\u{1F093}');
    push_range(v, '\u{1F0A0}', '\u{1F0AE}');
    push_range(v, '\u{1F0B1}', '\u{1F0BF}');
    push_range(v, '\u{1F0C1}', '\u{1F0CF}');
    push_range(v, '\u{1F0D1}', '\u{1F0F5}');
    push_range(v, '\u{1F100}', '\u{1F1AD}');
    push_range(v, '\u{1F1E6}', '\u{1F1FF}');
    push_range(v, '\u{1F201}', '\u{1F202}');
    assert(rview(v@) =~= o + common_chunk_17());
}

fn push_common_chunk_18(v: &mut Vec<ClassUnicodeRange>)
    ensures
        rview(final(v)@) == rview(old(v)@) + common_chunk_18(),
{
    let ghost o = rview(v@);
    push_range(v, '\u{1F210}', '\u{1F23B}');
    push_range(v, '\u{1F240}', '\u{1F248}');
    push_range(v, '\u{1F250}', '\u{1F251}');
    push_range(v, '\u{1F260}', '\u{1F265}');
    push_range(v, '\u{1F300}', '\u{1F6D7}');
    push_range(v, '\u{1F6DC}', '\u{1F6EC}');
    push_range(v, '\u{1F6F0}', '\u{1F6FC}');
    push_range(v, '\u{1F700}', '\u{1F776}');
    assert(rview(v@) =~= o + common_chunk_18());
}

fn push_common_chunk_19(v: &mut Vec<ClassUnicodeRange>)
    ensures
        rview(final(v)@) == rview(old(v)@) + common_chunk_19(),
{
    let ghost o = rview(v@);
    push_range(v, '\u{1F77B}', '\u{1F7D9}');
    push_range(v, '\u{1F7E0}', '\u{1F7EB}');
    push_range(v, '\u{1F7F0}', '\u{1F7F0}');
    push_range(v, '\u{1F800}', '\u{1F80B}');
    push_range(v, '\u{1F810}', '\u{1F847}');
    push_range(v, '\u{1F850}', '\u{1F859}');
    push_range(v, '\u{1F860}', '\u{1F887}');
    push_range(v, '\u{1F890}', '\u{1F8AD}');
    assert(rview(v@) =~= o + common_chunk_19());
}

fn push_common_chunk_20(v: &mut Vec<ClassUnicodeRange>)
    ensures
        rview(final(v)@) == rview(old(v)@) + common_chunk_20(),
{
    let ghost o = rview(v@);
    push_range(v, '\u{1F8B0}', '\u{1F8BB}');
    push_range(v, '\u{1F8C0}', '\u{1F8C1}');
    push_range(v, '\u{1F900}', '\u{1FA53}');
    push_range(v, '\u{1FA60}', '\u{1FA6D}');
    push_range(v, '\u{1FA70}', '\u{1FA7C}');
    push_range(v, '\u{1FA80}', '\u{1FA89}');
    push_range(v, '\u{1FA8F}', '\u{1FAC6}');
    push_range(v, '\u{1FACE}', '\u{1FADC}');
    assert(rview(v@) =~= o + common_chunk_20());
}

fn push_common_chunk_21(v: &mut Vec<ClassUnicodeRange>)
    ensures
        rview(final(v)@) == rview(old(v)@) + common_chunk_21(),
{
    let ghost o = rview(v@);
    push_range(v, '\u{1FADF}', '\u{1FAE9}');
    push_range(v, '\u{1FAF0}', '\u{1FAF8}');
    push_range(v, '\u{1FB00}', '\u{1FB92}');
    push_range(v, '\u{1FB94}', '\u{1FBF9}');
    push_range(v, '\u{E0001}', '\u{E0001}');
    push_range(v, '\u{E0020}', '\u{E007F}');
    assert(rview(v@) =~= o + common_chunk_21());
}

fn common_class() -> (v: Vec<ClassUnicodeRange>)
    ensures
        rview(v@) == common_ranges(),
{
    let mut v: Vec<ClassUnicodeRange> = Vec::new();
    assert(rview(v@) =~= Seq::<SRange>::empty());
    push_common_chunk_0(&mut v);
    assert(rview(v@) =~= common_chunk_0());
    push_common_chunk_1(&mut v);
    assert(rview(v@) =~= common_chunk_0() + common_chunk_1());
    push_common_chunk_2(&mut v);
    assert(rview(v@) =~= common_chunk_0() + common_chunk_1() + common_chunk_2());
    push_common_chunk_3(&mut v);
    assert(rview(v@) =~= common_chunk_0() + common_chunk_1() + common_chunk_2() + common_chunk_3());
    push_common_chunk_4(&mut v);
    assert(rview(v@) =~= common_chunk_0() + common_chunk_1() + common_chunk_2() + common_chunk_3() + common_chunk_4());
    push_common_chunk_5(&mut v);
    assert(rview(v@) =~= common_chunk_0() + common_chunk_1() + common_chunk_2() + common_chunk_3() + common_chunk_4() + common_chunk_5());
    push_common_chunk_6(&mut v);
    assert(rview(v@) =~= common_chunk_0() + common_chunk_1() + common_chunk_2() + common_chunk_3() + common_chunk_4() + common_chunk_5() + common_chunk_6());
    push_common_chunk_7(&mut v);
    assert(rview(v@) =~= common_chunk_0() + common_chunk_1() + common_chunk_2() + common_chunk_3() + common_chunk_4() + common_chunk_5() + common_chunk_6() + common_chunk_7());
    push_common_chunk_8(&mut v);
    assert(rview(v@) =~= common_chunk_0() + common_chunk_1() + common_chunk_2() + common_chunk_3() + common_chunk_4() + common_chunk_5() + common_chunk_6() + common_chunk_7() + common_chunk_8());
    push_common_chunk_9(&mut v);
    assert(rview(v@) =~= common_chunk_0() + common_chunk_1() + common_chunk_2() + common_chunk_3() + common_chunk_4() + common_chunk_5() + common_chunk_6() + common_chunk_7() + common_chunk_8() + common_chunk_9());
    push_common_chunk_10(&mut v);
    assert(rview(v@) =~= common_chunk_0() + common_chunk_1() + common_chunk_2() + common_chunk_3() + common_chunk_4() + common_chunk_5() + common_chunk_6() + common_chunk_7() + common_chunk_8() + common_chunk_9() + common_chunk_10());
    push_common_chunk_11(&mut v);
    assert(rview(v@) =~= common_chunk_0() + common_chunk_1() + common_chunk_2() + common_chunk_3() + common_chunk_4() + common_chunk_5() + common_chunk_6() + common_chunk_7() + common_chunk_8() + common_chunk_9() + common_chunk_10() + common_chunk_11());
    push_common_chunk_12(&mut v);
    assert(rview(v@) =~= common_chunk_0() + common_chunk_1() + common_chunk_2() + common_chunk_3() + common_chunk_4() + common_chunk_5() + common_chunk_6() + common_chunk_7() + common_chunk_8() + common_chunk_9() + common_chunk_10() + common_chunk_11() + common_chunk_12());
    push_common_chunk_13(&mut v);
    assert(rview(v@) =~= common_chunk_0() + common_chunk_1() + common_chunk_2() + common_chunk_3() + common_chunk_4() + common_chunk_5() + common_chunk_6() + common_chunk_7() + common_chunk_8() + common_chunk_9() + common_chunk_10() + common_chunk_11() + common_chunk_12() + common_chunk_13());
    push_common_chunk_14(&mut v);
    assert(rview(v@) =~= common_chunk_0() + common_chunk_1() + common_chunk_2() + common_chunk_3() + common_chunk_4() + common_chunk_5() + common_chunk_6() + common_chunk_7() + common_chunk_8() + common_chunk_9() + common_chunk_10() + common_chunk_11() + common_chunk_12() + common_chunk_13() + common_chunk_14());
    push_common_chunk_15(&mut v);
    assert(rview(v@) =~= common_chunk_0() + common_chunk_1() + common_chunk_2() + common_chunk_3() + common_chunk_4() + common_chunk_5() + common_chunk_6() + common_chunk_7() + common_chunk_8() + common_chunk_9() + common_chunk_10() + common_chunk_11() + common_chunk_12() + common_chunk_13() + common_chunk_14() + common_chunk_15());
    push_common_chunk_16(&mut v);
    assert(rview(v@) =~= common_chunk_0() + common_chunk_1() + common_chunk_2() + common_chunk_3() + common_chunk_4() + common_chunk_5() + common_chunk_6() + common_chunk_7() + common_chunk_8() + common_chunk_9() + common_chunk_10() + common_chunk_11() + common_chunk_12() + common_chunk_13() + common_chunk_14() + common_chunk_15() + common_chunk_16());
    push_common_chunk_17(&mut v);
    assert(rview(v@) =~= common_chunk_0() + common_chunk_1() + common_chunk_2() + common_chunk_3() + common_chunk_4() + common_chunk_5() + common_chunk_6() + common_chunk_7() + common_chunk_8() + common_chunk_9() + common_chunk_10() + common_chunk_11() + common_chunk_12() + common_chunk_13() + common_chunk_14() + common_chunk_15() + common_chunk_16() + common_chunk_17());
    push_common_chunk_18(&mut v);
    assert(rview(v@) =~= common_chunk_0() + common_chunk_1() + common_chunk_2() + common_chunk_3() + common_chunk_4() + common_chunk_5() + common_chunk_6() + common_chunk_7() + common_chunk_8() + common_chunk_9() + common_chunk_10() + common_chunk_11() + common_chunk_12() + common_chunk_13() + common_chunk_14() + common_chunk_15() + common_chunk_16() + common_chunk_17() + common_chunk_18());
    push_common_chunk_19(&mut v);
    assert(rview(v@) =~= common_chunk_0() + common_chunk_1() + common_chunk_2() + common_chunk_3() + common_chunk_4() + common_chunk_5() + common_chunk_6() + common_chunk_7() + common_chunk_8() + common_chunk_9() + common_chunk_10() + common_chunk_11() + common_chunk_12() + common_chunk_13() + common_chunk_14() + common_chunk_15() + common_chunk_16() + common_chunk_17() + common_chunk_18() + common_chunk_19());
    push_common_chunk_20(&mut v);
    assert(rview(v@) =~= common_chunk_0() + common_chunk_1() + common_chunk_2() + common_chunk_3() + common_chunk_4() + common_chunk_5() + common_chunk_6() + common_chunk_7() + common_chunk_8() + common_chunk_9() + common_chunk_10() + common_chunk_11() + common_chunk_12() + common_chunk_13() + common_chunk_14() + common_chunk_15() + common_chunk_16() + common_chunk_17() + common_chunk_18() + common_chunk_19() + common_chunk_20());
    push_common_chunk_21(&mut v);
    assert(rview(v@) =~= common_chunk_0() + common_chunk_1() + common_chunk_2() + common_chunk_3() + common_chunk_4() + common_chunk_5() + common_chunk_6() + common_chunk_7() + common_chunk_8() + common_chunk_9() + common_chunk_10() + common_chunk_11() + common_chunk_12() + common_chunk_13() + common_chunk_14() + common_chunk_15() + common_chunk_16() + common_chunk_17() + common_chunk_18() + common_chunk_19() + common_chunk_20() + common_chunk_21());
    v
}

pub open spec fn coptic_chunk_0() -> Seq<SRange> {
    seq![(0x3E2int, 0x3EFint), (0x2C80int, 0x2CF3int), (0x2CF9int, 0x2CFFint)]
}

/// The ranges of the script Coptic.
pub open spec fn coptic_ranges() -> Seq<SRange> {
    coptic_chunk_0()
}

proof fn lemma_coptic_canonical()
    ensures
        canonical(coptic_ranges()),
{
    reveal_with_fuel(canonical, 9);
    assert(canonical(coptic_chunk_0()));
}

fn coptic_class() -> (v: Vec<ClassUnicodeRange>)
    ensures
        rview(v@) == coptic_ranges(),
{
    let mut v: Vec<ClassUnicodeRange> = Vec::new();
    push_range(&mut v, '\u{3E2}', '\u{3EF}');
    push_range(&mut v, '\u{2C80}', '\u{2CF3}');
    push_range(&mut v, '\u{2CF9}', '\u{2CFF}');
    assert(rview(v@) =~= coptic_ranges());
    v
}

pub open spec fn cuneiform_chunk_0() -> Seq<SRange> {
    seq![(0x12000int, 0x12399int), (0x12400int, 0x1246Eint), (0x12470int, 0x12474int), (0x12480int, 0x12543int)]
}

/// The ranges of the script Cuneiform.
pub open spec fn cuneiform_ranges() -> Seq<SRange> {
    cuneiform_chunk_0()
}

proof fn lemma_cuneiform_canonical()
    ensures
        canonical(cuneiform_ranges()),
{
    reveal_with_fuel(canonical, 9);
    assert(canonical(cuneiform_chunk_0()));
}

fn cuneiform_class() -> (v: Vec<ClassUnicodeRange>)
    ensures
        rview(v@) == cuneiform_ranges(),
{
    let mut v: Vec<ClassUnicodeRange> = Vec::new();
    push_range(&mut v, '\u{12000}', '\u{12399}');
    push_range(&mut v, '\u{12400}', '\u{1246E}');
    push_range(&mut v, '\u{12470}', '\u{12474}');
    push_range(&mut v, '\u{12480}', '\u{12543}');
    assert(rview(v@) =~= cuneiform_ranges());
    v
}

pub open spec fn cypriot_chunk_0() -> Seq<SRange> {
    seq![(0x10800int, 0x10805int), (0x10808int, 0x10808int), (0x1080Aint, 0x10835int), (0x10837int, 0x10838int), (0x1083Cint, 0x1083Cint), (0x1083Fint, 0x1083Fint)]
}

/// The ranges of the script Cypriot.
pub open spec fn cypriot_ranges() -> Seq<SRange> {
    cypriot_chunk_0()
}

proof fn lemma_cypriot_canonical()
    ensures
        canonical(cypriot_ranges()),
{
    reveal_with_fuel(canonical, 9);
    assert(canonical(cypriot_chunk_0()));
}

fn cypriot_class() -> (v: Vec<ClassUnicodeRange>)
    ensures
        rview(v@) == cypriot_ranges(),
{
    let mut v: Vec<ClassUnicodeRange> = Vec::new();
    push_range(&mut v, '\u{10800}', '\u{10805}');
    push_range(&mut v, '\u{10808}', '\u{10808}');
    push_range(&mut v, '\u{1080A}', '\u{10835}');
    push_range(&mut v, '\u{10837}', '\u{10838}');
    push_range(&mut v, '\u{1083C}', '\u{1083C}');
    push_range(&mut v, '\u{1083F}', '\u{1083F}');
    assert(rview(v@) =~= cypriot_ranges());
    v
}

pub open spec fn cypro_minoan_chunk_0() -> Seq<SRange> {
    seq![(0x12F90int, 0x12FF2int)]
}

/// The ranges of the script Cypro_Minoan.
pub open spec fn cypro_minoan_ranges() -> Seq<SRange> {
    cypro_minoan_chunk_0()
}

proof fn lemma_cypro_minoan_canonical()
    ensures
        canonical(cypro_minoan_ranges()),
{
    reveal_with_fuel(canonical, 9);
    assert(canonical(cypro_minoan_chunk_0()));
}

fn cypro_minoan_class() -> (v: Vec<ClassUnicodeRange>)
    ensures
        rview(v@) == cypro_minoan_ranges(),
{
    let mut v: Vec<ClassUnicodeRange> = Vec::new();
    push_range(&mut v, '\u{12F90}', '\u{12FF2}');
    assert(rview(v@) =~= cypro_minoan_ranges());
    v
}

pub open spec fn cyrillic_chunk_0() -> Seq<SRange> {
    seq![(0x400int, 0x484int), (0x487int, 0x52Fint), (0x1C80int, 0x1C8Aint), (0x1D2Bint, 0x1D2Bint), (0x1D78int, 0x1D78int), (0x2DE0int, 0x2DFFint), (0xA640int, 0xA69Fint), (0xFE2Eint, 0xFE2Fint)]
}

pub open spec fn cyrillic_chunk_1() -> Seq<SRange> {
    seq![(0x1E030int, 0x1E06Dint), (0x1E08Fint, 0x1E08Fint)]
}

/// The ranges of the script Cyrillic.
pub open spec fn cyrillic_ranges() -> Seq<SRange> {
    cyrillic_chunk_0() + cyrillic_chunk_1()
}

proof fn lemma_cyrillic_canonical()
    ensures
        canonical(cyrillic_ranges()),
{
    reveal_with_fuel(canonical, 9);
    assert(canonical(cyrillic_chunk_0()));
    assert(canonical(cyrillic_chunk_1()));
    lemma_canonical_append(cyrillic_chunk_0(), cyrillic_chunk_1());
}

fn cyrillic_class() -> (v: Vec<ClassUnicodeRange>)
    ensures
        rview(v@) == cyrillic_ranges(),
{
    let mut v: Vec<ClassUnicodeRange> = Vec::new();
    push_range(&mut v, '\u{400}', '\u{484}');
    push_range(&mut v, '\u{487}', '\u{52F}');
    push_range(&mut v, '\u{1C80}', '\u{1C8A}');
    push_range(&mut v, '\u{1D2B}', '\u{1D2B}');
    push_range(&mut v, '\u{1D78}', '\u{1D78}');
    push_range(&mut v, '\u{2DE0}', '\u{2DFF}');
    push_range(&mut v, '\u{A640}', '\u{A69F}');
    push_range(&mut v, '\u{FE2E}', '\u{FE2F}');
    push_range(&mut v, '\u{1E030}', '\u{1E06D}');
    push_range(&mut v, '\u{1E08F}', '\u{1E08F}');
    assert(rview(v@) =~= cyrillic_ranges());
    v
}

pub open spec fn deseret_chunk_0() -> Seq<SRange> {
    seq![(0x10400int, 0x1044Fint)]
}

/// The ranges of the script Deseret.
pub open spec fn deseret_ranges() -> Seq<SRange> {
    deseret_chunk_0()
}

proof fn lemma_deseret_canonical()
    ensures
        canonical(deseret_ranges()),
{
    reveal_with_fuel(canonical, 9);
    assert(canonical(deseret_chunk_0()));
}

fn deseret_class() -> (v: Vec<ClassUnicodeRange>)
    ensures
        rview(v@) == deseret_ranges(),
{
    let mut v: Vec<ClassUnicodeRange> = Vec::new();
    push_range(&mut v, '\u{10400}', '\u{1044F}');
    assert(rview(v@) =~= deseret_ranges());
    v
}

pub open spec fn devanagari_chunk_0() -> Seq<SRange> {
    seq![(0x900int, 0x950int), (0x955int, 0x963int), (0x966int, 0x97Fint), (0xA8E0int, 0xA8FFint), (0x11B00int, 0x11B09int)]
}

/// The ranges of the script Devanagari.
pub open spec fn devanagari_ranges() -> Seq<SRange> {
    devanagari_chunk_0()
}

proof fn lemma_devanagari_canonical()
    ensures
        canonical(devanagari_ranges()),
{
    reveal_with_fuel(canonical, 9);
    assert(canonical(devanagari_chunk_0()));
}

fn devanagari_class() -> (v: Vec<ClassUnicodeRange>)
    ensures
        rview(v@) == devanagari_ranges(),
{
    let mut v: Vec<ClassUnicodeRange> = Vec::new();
    push_range(&mut v, '\u{900}', '\u{950}');
    push_range(&mut v, '\u{955}', '\u{963}');
    push_range(&mut v, '\u{966}', '\u{97F}');
    push_range(&mut v, '\u{A8E0}', '\u{A8FF}');
    push_range(&mut v, '\u{11B00}', '\u{11B09}');
    assert(rview(v@) =~= devanagari_ranges());
    v
}

pub open spec fn dives_akuru_chunk_0() -> Seq<SRange> {
    seq![(0x11900int, 0x11906int), (0x11909int, 0x11909int), (0x1190Cint, 0x11913int), (0x11915int, 0x11916int), (0x11918int, 0x11935int), (0x11937int, 0x11938int), (0x1193Bint, 0x11946int), (0x11950int, 0x11959int)]
}

/// The ranges of the script Dives_Akuru.
pub open spec fn dives_akuru_ranges() -> Seq<SRange> {
    dives_akuru_chunk_0()
}

proof fn lemma_dives_akuru_canonical()
    ensures
        canonical(dives_akuru_ranges()),
{
    reveal_with_fuel(canonical, 9);
    assert(canonical(dives_akuru_chunk_0()));
}

fn dives_akuru_class() -> (v: Vec<ClassUnicodeRange>)
    ensures
        rview(v@) == dives_akuru_ranges(),
{
    let mut v: Vec<ClassUnicodeRange> = Vec::new();
    push_range(&mut v, '\u{11900}', '\u{11906}');
    push_range(&mut v, '\u{11909}', '\u{11909}');
    push_range(&mut v, '\u{1190C}', '\u{11913}');
    push_range(&mut v, '\u{11915}', '\u{11916}');
    push_range(&mut v, '\u{11918}', '\u{11935}');
    push_range(&mut v, '\u{11937}', '\u{11938}');
    push_range(&mut v, '\u{1193B}', '\u{11946}');
    push_range(&mut v, '\u{11950}', '\u{11959}');
    assert(rview(v@) =~= dives_akuru_ranges());
    v
}

pub open spec fn dogra_chunk_0() -> Seq<SRange> {
    seq![(0x11800int, 0x1183Bint)]
}

/// The ranges of the script Dogra.
pub open spec fn dogra_ranges() -> Seq<SRange> {
    dogra_chunk_0()
}

proof fn lemma_dogra_canonical()
    ensures
        canonical(dogra_ranges()),
{
    reveal_with_fuel(canonical, 9);
    assert(canonical(dogra_chunk_0()));
}

fn dogra_class() -> (v: Vec<ClassUnicodeRange>)
    ensures
        rview(v@) == dogra_ranges(),
{
    let mut v: Vec<ClassUnicodeRange> = Vec::new();
    push_range(&mut v, '\u{11800}', '\u{1183B}');
    assert(rview(v@) =~= dogra_ranges());
    v
}

pub open spec fn duployan_chunk_0() -> Seq<SRange> {
    seq![(0x1BC00int, 0x1BC6Aint), (0x1BC70int, 0x1BC7Cint), (0x1BC80int, 0x1BC88int), (0x1BC90int, 0x1BC99int), (0x1BC9Cint, 0x1BC9Fint)]
}

/// The ranges of the script Duployan.
pub open spec fn duployan_ranges() -> Seq<SRange> {
    duployan_chunk_0()
}

proof fn lemma_duployan_canonical()
    ensures
        canonical(duployan_ranges()),
{
    reveal_with_fuel(canonical, 9);
    assert(canonical(duployan_chunk_0()));
}

fn duployan_class() -> (v: Vec<ClassUnicodeRange>)
    ensures
        rview(v@) == duployan_ranges(),
{
    let mut v: Vec<ClassUnicodeRange> = Vec::new();
    push_range(&mut v, '\u{1BC00}', '\u{1BC6A}');
    push_range(&mut v, '\u{1BC70}', '\u{1BC7C}');
    push_range(&mut v, '\u{1BC80}', '\u{1BC88}');
    push_range(&mut v, '\u{1BC90}', '\u{1BC99}');
    push_range(&mut v, '\u{1BC9C}', '\u{1BC9F}');
    assert(rview(v@) =~= duployan_ranges());
    v
}

pub open spec fn egyptian_hieroglyphs_chunk_0() -> Seq<SRange> {
    seq![(0x13000int, 0x13455int), (0x13460int, 0x143FAint)]
}

/// The ranges of the script Egyptian_Hieroglyphs.
pub open spec fn egyptian_hieroglyphs_ranges() -> Seq<SRange> {
    egyptian_hieroglyphs_chunk_0()
}

proof fn lemma_egyptian_hieroglyphs_canonical()
    ensures
        canonical(egyptian_hieroglyphs_ranges()),
{
    reveal_with_fuel(canonical, 9);
    assert(canonical(egyptian_hieroglyphs_chunk_0()));
}

fn egyptian_hieroglyphs_class() -> (v: Vec<ClassUnicodeRange>)
    ensures
        rview(v@) == egyptian_hieroglyphs_ranges(),
{
    let mut v: Vec<ClassUnicodeRange> = Vec::new();
    push_range(&mut v, '\u{13000}', '\u{13455}');
    push_range(&mut v, '\u{13460}', '\u{143FA}');
    assert(rview(v@) =~= egyptian_hieroglyphs_ranges());
    v
}

pub open spec fn elbasan_chunk_0() -> Seq<SRange> {
    seq![(0x10500int, 0x10527int)]
}

/// The ranges of the script Elbasan.
pub open spec fn elbasan_ranges() -> Seq<SRange> {
    elbasan_chunk_0()
}

proof fn lemma_elbasan_canonical()
    ensures
        canonical(elbasan_ranges()),
{
    reveal_with_fuel(canonical, 9);
    assert(canonical(elbasan_chunk_0()));
}

fn elbasan_class() -> (v: Vec<ClassUnicodeRange>)
    ensures
        rview(v@) == elbasan_ranges(),
{
    let mut v: Vec<ClassUnicodeRange> = Vec::new();
    push_range(&mut v, '\u{10500}', '\u{10527}');
    assert(rview(v@) =~= elbasan_ranges());
    v
}

pub open spec fn elymaic_chunk_0() -> Seq<SRange> {
    seq![(0x10FE0int, 0x10FF6int)]
}

/// The ranges of the script Elymaic.
pub open spec fn elymaic_ranges() -> Seq<SRange> {
    elymaic_chunk_0()
}

proof fn lemma_elymaic_canonical()
    ensures
        canonical(elymaic_ranges()),
{
    reveal_with_fuel(canonical, 9);
    assert(canonical(elymaic_chunk_0()));
}

fn elymaic_class() -> (v: Vec<ClassUnicodeRange>)
    ensures
        rview(v@) == elymaic_ranges(),
{
    let mut v: Vec<ClassUnicodeRange> = Vec::new();
    push_range(&mut v, '\u{10FE0}', '\u{10FF6}');
    assert(rview(v@) =~= elymaic_ranges());
    v
}

pub open spec fn ethiopic_chunk_0() -> Seq<SRange> {
    seq![(0x1200int, 0x1248int), (0x124Aint, 0x124Dint), (0x1250int, 0x1256int), (0x1258int, 0x1258int), (0x125Aint, 0x125Dint), (0x1260int, 0x1288int), (0x128Aint, 0x128Dint), (0x1290int, 0x12B0int)]
}

pub open spec fn ethiopic_chunk_1() -> Seq<SRange> {
    seq![(0x12B2int, 0x12B5int), (0x12B8int, 0x12BEint), (0x12C0int, 0x12C0int), (0x12C2int, 0x12C5int), (0x12C8int, 0x12D6int), (0x12D8int, 0x1310int), (0x1312int, 0x1315int), (0x1318int, 0x135Aint)]
}

pub open spec fn ethiopic_chunk_2() -> Seq<SRange> {
    seq![(0x135Dint, 0x137Cint), (0x1380int, 0x1399int), (0x2D80int, 0x2D96int), (0x2DA0int, 0x2DA6int), (0x2DA8int, 0x2DAEint), (0x2DB0int, 0x2DB6int), (0x2DB8int, 0x2DBEint), (0x2DC0int, 0x2DC6int)]
}

pub open spec fn ethiopic_chunk_3() -> Seq<SRange> {
    seq![(0x2DC8int, 0x2DCEint), (0x2DD0int, 0x2DD6int), (0x2DD8int, 0x2DDEint), (0xAB01int, 0xAB06int), (0xAB09int, 0xAB0Eint), (0xAB11int, 0xAB16int), (0xAB20int, 0xAB26int), (0xAB28int, 0xAB2Eint)]
}

pub open spec fn ethiopic_chunk_4() -> Seq<SRange> {
    seq![(0x1E7E0int, 0x1E7E6int), (0x1E7E8int, 0x1E7EBint), (0x1E7EDint, 0x1E7EEint), (0x1E7F0int, 0x1E7FEint)]
}

/// The ranges of the script Ethiopic.
pub open spec fn ethiopic_ranges() -> Seq<SRange> {
    ethiopic_chunk_0() + ethiopic_chunk_1() + ethiopic_chunk_2() + ethiopic_chunk_3() + ethiopic_chunk_4()
}

proof fn lemma_ethiopic_canonical()
    ensures
        canonical(ethiopic_ranges()),
{
    reveal_with_fuel(canonical, 9);
    assert(canonical(ethiopic_chunk_0()));
    assert(canonical(ethiopic_chunk_1()));
    assert(canonical(ethiopic_chunk_2()));
    assert(canonical(ethiopic_chunk_3()));
    assert(canonical(ethiopic_chunk_4()));
    lemma_canonical_append(ethiopic_chunk_0(), ethiopic_chunk_1());
    lemma_canonical_append(ethiopic_chunk_0() + ethiopic_chunk_1(), ethiopic_chunk_2());
    lemma_canonical_append(ethiopic_chunk_0() + ethiopic_chunk_1() + ethiopic_chunk_2(), ethiopic_chunk_3());
    lemma_canonical_append(ethiopic_chunk_0() + ethiopic_chunk_1() + ethiopic_chunk_2() + ethiopic_chunk_3(), ethiopic_chunk_4());
}

fn push_ethiopic_chunk_0(v: &mut Vec<ClassUnicodeRange>)
    ensures
        rview(final(v)@) == rview(old(v)@) + ethiopic_chunk_0(),
{
    let ghost o = rview(v@);
    push_range(v, '\u{1200}', '\u{1248}');
    push_range(v, '\u{124A}', '\u{124D}');
    push_range(v, '\u{1250}', '\u{1256}');
    push_range(v, '\u{1258}', '\u{1258}');
    push_range(v, '\u{125A}', '\u{125D}');
    push_range(v, '\u{1260}', '\u{1288}');
    push_range(v, '\u{128A}', '\u{128D}');
    push_range(v, '\u{1290}', '\u{12B0}');
    assert(rview(v@) =~= o + ethiopic_chunk_0());
}

fn push_ethiopic_chunk_1(v: &mut Vec<ClassUnicodeRange>)
    ensures
        rview(final(v)@) == rview(old(v)@) + ethiopic_chunk_1(),
{
    let ghost o = rview(v@);
    push_range(v, '\u{12B2}', '\u{12B5}');
    push_range(v, '\u{12B8}', '\u{12BE}');
    push_range(v, '\u{12C0}', '\u{12C0}');
    push_range(v, '\u{12C2}', '\u{12C5}');
    push_range(v, '\u{12C8}', '\u{12D6}');
    push_range(v, '\u{12D8}', '\u{1310}');
    push_range(v, '\u{1312}', '\u{1315}');
    push_range(v, '\u{1318}', '\u{135A}');
    assert(rview(v@) =~= o + ethiopic_chunk_1());
}

fn push_ethiopic_chunk_2(v: &mut Vec<ClassUnicodeRange>)
    ensures
        rview(final(v)@) == rview(old(v)@) + ethiopic_chunk_2(),
{
    let ghost o = rview(v@);
    push_range(v, '\u{135D}', '\u{137C}');
    push_range(v, '\u{1380}', '\u{1399}');
    push_range(v, '\u{2D80}', '\u{2D96}');
    push_range(v, '\u{2DA0}', '\u{2DA6}');
    push_range(v, '\u{2DA8}', '\u{2DAE}');
    push_range(v, '\u{2DB0}', '\u{2DB6}');
    push_range(v, '\u{2DB8}', '\u{2DBE}');
    push_range(v, '\u{2DC0}', '\u{2DC6}');
    assert(rview(v@) =~= o + ethiopic_chunk_2());
}

fn push_ethiopic_chunk_3(v: &mut Vec<ClassUnicodeRange>)
    ensures
        rview(final(v)@) == rview(old(v)@) + ethiopic_chunk_3(),
{
    let ghost o = rview(v@);
    push_range(v, '\u{2DC8}', '\u{2DCE}');
    push_range(v, '\u{2DD0}', '\u{2DD6}');
    push_range(v, '\u{2DD8}', '\u{2DDE}');
    push_range(v, '\u{AB01}', '\u{AB06}');
    push_range(v, '\u{AB09}', '\u{AB0E}');
    push_range(v, '\u{AB11}', '\u{AB16}');
    push_range(v, '\u{AB20}', '\u{AB26}');
    push_range(v, '\u{AB28}', '\u{AB2E}');
    assert(rview(v@) =~= o + ethiopic_chunk_3());
}

fn push_ethiopic_chunk_4(v: &mut Vec<ClassUnicodeRange>)
    ensures
        rview(final(v)@) == rview(old(v)@) + ethiopic_chunk_4(),
{
    let ghost o = rview(v@);
    push_range(v, '\u{1E7E0}', '\u{1E7E6}');
    push_range(v, '\u{1E7E8}', '\u{1E7EB}');
    push_range(v, '\u{1E7ED}', '\u{1E7EE}');
    push_range(v, '\u{1E7F0}', '\u{1E7FE}');
    assert(rview(v@) =~= o + ethiopic_chunk_4());
}

fn ethiopic_class() -> (v: Vec<ClassUnicodeRange>)
    ensures
        rview(v@) == ethiopic_ranges(),
{
    let mut v: Vec<ClassUnicodeRange> = Vec::new();
    assert(rview(v@) =~= Seq::<SRange>::empty());
    push_ethiopic_chunk_0(&mut v);
    assert(rview(v@) =~= ethiopic_chunk_0());
    push_ethiopic_chunk_1(&mut v);
    assert(rview(v@) =~= ethiopic_chunk_0() + ethiopic_chunk_1());
    push_ethiopic_chunk_2(&mut v);
    assert(rview(v@) =~= ethiopic_chunk_0() + ethiopic_chunk_1() + ethiopic_chunk_2());
    push_ethiopic_chunk_3(&mut v);
    assert(rview(v@) =~= ethiopic_chunk_0() + ethiopic_chunk_1() + ethiopic_chunk_2() + ethiopic_chunk_3());
    push_ethiopic_chunk_4(&mut v);
    assert(rview(v@) =~= ethiopic_chunk_0() + ethiopic_chunk_1() + ethiopic_chunk_2() + ethiopic_chunk_3() + ethiopic_chunk_4());
    v
}

pub open spec fn garay_chunk_0() -> Seq<SRange> {
    seq![(0x10D40int, 0x10D65int), (0x10D69int, 0x10D85int), (0x10D8Eint, 0x10D8Fint)]
}

/// The ranges of the script Garay.
pub open spec fn garay_ranges() -> Seq<SRange> {
    garay_chunk_0()
}

proof fn lemma_garay_canonical()
    ensures
        canonical(garay_ranges()),
{
    reveal_with_fuel(canonical, 9);
    assert(canonical(garay_chunk_0()));
}

fn garay_class() -> (v: Vec<ClassUnicodeRange>)
    ensures
        rview(v@) == garay_ranges(),
{
    let mut v: Vec<ClassUnicodeRange> = Vec::new();
    push_range(&mut v, '\u{10D40}', '\u{10D65}');
    push_range(&mut v, '\u{10D69}', '\u{10D85}');
    push_range(&mut v, '\u{10D8E}', '\u{10D8F}');
    assert(rview(v@) =~= garay_ranges());
    v
}

pub open spec fn georgian_chunk_0() -> Seq<SRange> {
    seq![(0x10A0int, 0x10C5int), (0x10C7int, 0x10C7int), (0x10CDint, 0x10CDint), (0x10D0int, 0x10FAint), (0x10FCint, 0x10FFint), (0x1C90int, 0x1CBAint), (0x1CBDint, 0x1CBFint), (0x2D00int, 0x2D25int)]
}

pub open spec fn georgian_chunk_1() -> Seq<SRange> {
    seq![(0x2D27int, 0x2D27int), (0x2D2Dint, 0x2D2Dint)]
}

/// The ranges of the script Georgian.
pub open spec fn georgian_ranges() -> Seq<SRange> {
    georgian_chunk_0() + georgian_chunk_1()
}

proof fn lemma_georgian_canonical()
    ensures
        canonical(georgian_ranges()),
{
    reveal_with_fuel(canonical, 9);
    assert(canonical(georgian_chunk_0()));
    assert(canonical(georgian_chunk_1()));
    lemma_canonical_append(georgian_chunk_0(), georgian_chunk_1());
}

fn georgian_class() -> (v: Vec<ClassUnicodeRange>)
    ensures
        rview(v@) == georgian_ranges(),
{
    let mut v: Vec<ClassUnicodeRange> = Vec::new();
    push_range(&mut v, '\u{10A0}', '\u{10C5}');
    push_range(&mut v, '\u{10C7}', '\u{10C7}');
    push_range(&mut v, '\u{10CD}', '\u{10CD}');
    push_range(&mut v, '\u{10D0}', '\u{10FA}');
    push_range(&mut v, '\u{10FC}', '\u{10FF}');
    push_range(&mut v, '\u{1C90}', '\u{1CBA}');
    push_range(&mut v, '\u{1CBD}', '\u{1CBF}');
    push_range(&mut v, '\u{2D00}', '\u{2D25}');
    push_range(&mut v, '\u{2D27}', '\u{2D27}');
    push_range(&mut v, '\u{2D2D}', '\u{2D2D}');
    assert(rview(v@) =~= georgian_ranges());
    v
}

pub open spec fn glagolitic_chunk_0() -> Seq<SRange> {
    seq![(0x2C00int, 0x2C5Fint), (0x1E000int, 0x1E006int), (0x1E008int, 0x1E018int), (0x1E01Bint, 0x1E021int), (0x1E023int, 0x1E024int), (0x1E026int, 0x1E02Aint)]
}

/// The ranges of the script Glagolitic.
pub open spec fn glagolitic_ranges() -> Seq<SRange> {
    glagolitic_chunk_0()
}

proof fn lemma_glagolitic_canonical()
    ensures
        canonical(glagolitic_ranges()),
{
    reveal_with_fuel(canonical, 9);
    assert(canonical(glagolitic_chunk_0()));
}

fn glagolitic_class() -> (v: Vec<ClassUnicodeRange>)
    ensures
        rview(v@) == glagolitic_ranges(),
{
    let mut v: Vec<ClassUnicodeRange> = Vec::new();
    push_range(&mut v, '\u{2C00}', '\u{2C5F}');
    push_range(&mut v, '\u{1E000}', '\u{1E006}');
    push_range(&mut v, '\u{1E008}', '\u{1E018}');
    push_range(&mut v, '\u{1E01B}', '\u{1E021}');
    push_range(&mut v, '\u{1E023}', '\u{1E024}');
    push_range(&mut v, '\u{1E026}', '\u{1E02A}');
    assert(rview(v@) =~= glagolitic_ranges());
    v
}

pub open spec fn gothic_chunk_0() -> Seq<SRange> {
    seq![(0x10330int, 0x1034Aint)]
}

/// The ranges of the script Gothic.
pub open spec fn gothic_ranges() -> Seq<SRange> {
    gothic_chunk_0()
}

proof fn lemma_gothic_canonical()
    ensures
        canonical(gothic_ranges()),
{
    reveal_with_fuel(canonical, 9);
    assert(canonical(gothic_chunk_0()));
}

fn gothic_class() -> (v: Vec<ClassUnicodeRange>)
    ensures
        rview(v@) == gothic_ranges(),
{
    let mut v: Vec<ClassUnicodeRange> = Vec::new();
    push_range(&mut v, '\u{10330}', '\u{1034A}');
    assert(rview(v@) =~= gothic_ranges());
    v
}

pub open spec fn grantha_chunk_0() -> Seq<SRange> {
    seq![(0x11300int, 0x11303int), (0x11305int, 0x1130Cint), (0x1130Fint, 0x11310int), (0x11313int, 0x11328int), (0x1132Aint, 0x11330int), (0x11332int, 0x11333int), (0x11335int, 0x11339int), (0x1133Cint, 0x11344int)]
}

pub open spec fn grantha_chunk_1() -> Seq<SRange> {
    seq![(0x11347int, 0x11348int), (0x1134Bint, 0x1134Dint), (0x11350int, 0x11350int), (0x11357int, 0x11357int), (0x1135Dint, 0x11363int), (0x11366int, 0x1136Cint), (0x11370int, 0x11374int)]
}

/// The ranges of the script Grantha.
pub open spec fn grantha_ranges() -> Seq<SRange> {
    grantha_chunk_0() + grantha_chunk_1()
}

proof fn lemma_grantha_canonical()
    ensures
        canonical(grantha_ranges()),
{
    reveal_with_fuel(canonical, 9);
    assert(canonical(grantha_chunk_0()));
    assert(canonical(grantha_chunk_1()));
    lemma_canonical_append(grantha_chunk_0(), grantha_chunk_1());
}

fn grantha_class() -> (v: Vec<ClassUnicodeRange>)
    ensures
        rview(v@) == grantha_ranges(),
{
    let mut v: Vec<ClassUnicodeRange> = Vec::new();
    push_range(&mut v, '\u{11300}', '\u{11303}');
    push_range(&mut v, '\u{11305}', '\u{1130C}');
    push_range(&mut v, '\u{1130F}', '\u{11310}');
    push_range(&mut v, '\u{11313}', '\u{11328}');
    push_range(&mut v, '\u{1132A}', '\u{11330}');
    push_range(&mut v, '\u{11332}', '\u{11333}');
    push_range(&mut v, '\u{11335}', '\u{11339}');
    push_range(&mut v, '\u{1133C}', '\u{11344}');
    push_range(&mut v, '\u{11347}', '\u{11348}');
    push_range(&mut v, '\u{1134B}', '\u{1134D}');
    push_range(&mut v, '\u{11350}', '\u{11350}');
    push_range(&mut v, '\u{11357}', '\u{11357}');
    push_range(&mut v, '\u{1135D}', '\u{11363}');
    push_range(&mut v, '\u{11366}', '\u{1136C}');
    push_range(&mut v, '\u{11370}', '\u{11374}');
    assert(rview(v@) =~= grantha_ranges());
    v
}

pub open spec fn greek_chunk_0() -> Seq<SRange> {
    seq![(0x370int, 0x373int), (0x375int, 0x377int), (0x37Aint, 0x37Dint), (0x37Fint, 0x37Fint), (0x384int, 0x384int), (0x386int, 0x386int), (0x388int, 0x38Aint), (0x38Cint, 0x38Cint)]
}

pub open spec fn greek_chunk_1() -> Seq<SRange> {
    seq![(0x38Eint, 0x3A1int), (0x3A3int, 0x3E1int), (0x3F0int, 0x3FFint), (0x1D26int, 0x1D2Aint), (0x1D5Dint, 0x1D61int), (0x1D66int, 0x1D6Aint), (0x1DBFint, 0x1DBFint), (0x1F00int, 0x1F15int)]
}

pub open spec fn greek_chunk_2() -> Seq<SRange> {
    seq![(0x1F18int, 0x1F1Dint), (0x1F20int, 0x1F45int), (0x1F48int, 0x1F4Dint), (0x1F50int, 0x1F57int), (0x1F59int, 0x1F59int), (0x1F5Bint, 0x1F5Bint), (0x1F5Dint, 0x1F5Dint), (0x1F5Fint, 0x1F7Dint)]
}

pub open spec fn greek_chunk_3() -> Seq<SRange> {
    seq![(0x1F80int, 0x1FB4int), (0x1FB6int, 0x1FC4int), (0x1FC6int, 0x1FD3int), (0x1FD6int, 0x1FDBint), (0x1FDDint, 0x1FEFint), (0x1FF2int, 0x1FF4int), (0x1FF6int, 0x1FFEint), (0x2126int, 0x2126int)]
}

pub open spec fn greek_chunk_4() -> Seq<SRange> {
    seq![(0xAB65int, 0xAB65int), (0x10140int, 0x1018Eint), (0x101A0int, 0x101A0int), (0x1D200int, 0x1D245int)]
}

/// The ranges of the script Greek.
pub open spec fn greek_ranges() -> Seq<SRange> {
    greek_chunk_0() + greek_chunk_1() + greek_chunk_2() + greek_chunk_3() + greek_chunk_4()
}

proof fn lemma_greek_canonical()
    ensures
        canonical(greek_ranges()),
{
    reveal_with_fuel(canonical, 9);
    assert(canonical(greek_chunk_0()));
    assert(canonical(greek_chunk_1()));
    assert(canonical(greek_chunk_2()));
    assert(canonical(greek_chunk_3()));
    assert(canonical(greek_chunk_4()));
    lemma_canonical_append(greek_chunk_0(), greek_chunk_1());
    lemma_canonical_append(greek_chunk_0() + greek_chunk_1(), greek_chunk_2());
    lemma_canonical_append(greek_chunk_0() + greek_chunk_1() + greek_chunk_2(), greek_chunk_3());
    lemma_canonical_append(greek_chunk_0() + greek_chunk_1() + greek_chunk_2() + greek_chunk_3(), greek_chunk_4());
}

fn push_greek_chunk_0(v: &mut Vec<ClassUnicodeRange>)
    ensures
        rview(final(v)@) == rview(old(v)@) + greek_chunk_0(),
{
    let ghost o = rview(v@);
    push_range(v, '\u{370}', '\u{373}');
    push_range(v, '\u{375}', '\u{377}');
    push_range(v, '\u{37A}', '\u{37D}');
    push_range(v, '\u{37F}', '\u{37F}');
    push_range(v, '\u{384}', '\u{384}');
    push_range(v, '\u{386}', '\u{386}');
    push_range(v, '\u{388}', '\u{38A}');
    push_range(v, '\u{38C}', '\u{38C}');
    assert(rview(v@) =~= o + greek_chunk_0());
}

fn push_greek_chunk_1(v: &mut Vec<ClassUnicodeRange>)
    ensures
        rview(final(v)@) == rview(old(v)@) + greek_chunk_1(),
{
    let ghost o = rview(v@);
    push_range(v, '\u{38E}', '\u{3A1}');
    push_range(v, '\u{3A3}', '\u{3E1}');
    push_range(v, '\u{3F0}', '\u{3FF}');
    push_range(v, '\u{1D26}', '\u{1D2A}');
    push_range(v, '\u{1D5D}', '\u{1D61}');
    push_range(v, '\u{1D66}', '\u{1D6A}');
    push_range(v, '\u{1DBF}', '\u{1DBF}');
    push_range(v, '\u{1F00}', '\u{1F15}');
    assert(rview(v@) =~= o + greek_chunk_1());
}

fn push_greek_chunk_2(v: &mut Vec<ClassUnicodeRange>)
    ensures
        rview(final(v)@) == rview(old(v)@) + greek_chunk_2(),
{
    let ghost o = rview(v@);
    push_range(v, '\u{1F18}', '\u{1F1D}');
    push_range(v, '\u{1F20}', '\u{1F45}');
    push_range(v, '\u{1F48}', '\u{1F4D}');
    push_range(v, '\u{1F50}', '\u{1F57}');
    push_range(v, '\u{1F59}', '\u{1F59}');
    push_range(v, '\u{1F5B}', '\u{1F5B}');
    push_range(v, '\u{1F5D}', '\u{1F5D}');
    push_range(v, '\u{1F5F}', '\u{1F7D}');
    assert(rview(v@) =~= o + greek_chunk_2());
}

fn push_greek_chunk_3(v: &mut Vec<ClassUnicodeRange>)
    ensures
        rview(final(v)@) == rview(old(v)@) + greek_chunk_3(),
{
    let ghost o = rview(v@);
    push_range(v, '\u{1F80}', '\u{1FB4}');
    push_range(v, '\u{1FB6}', '\u{1FC4}');
    push_range(v, '\u{1FC6}', '\u{1FD3}');
    push_range(v, '\u{1FD6}', '\u{1FDB}');
    push_range(v, '\u{1FDD}', '\u{1FEF}');
    push_range(v, '\u{1FF2}', '\u{1FF4}');
    push_range(v, '\u{1FF6}', '\u{1FFE}');
    push_range(v, '\u{2126}', '\u{2126}');
    assert(rview(v@) =~= o + greek_chunk_3());
}

fn push_greek_chunk_4(v: &mut Vec<ClassUnicodeRange>)
    ensures
        rview(final(v)@) == rview(old(v)@) + greek_chunk_4(),
{
    let ghost o = rview(v@);
    push_range(v, '\u{AB65}', '\u{AB65}');
    push_range(v, '\u{10140}', '\u{1018E}');
    push_range(v, '\u{101A0}', '\u{101A0}');
    push_range(v, '\u{1D200}', '\u{1D245}');
    assert(rview(v@) =~= o + greek_chunk_4());
}

fn greek_class() -> (v: Vec<ClassUnicodeRange>)
    ensures
        rview(v@) == greek_ranges(),
{
    let mut v: Vec<ClassUnicodeRange> = Vec::new();
    assert(rview(v@) =~= Seq::<SRange>::empty());
    push_greek_chunk_0(&mut v);
    assert(rview(v@) =~= greek_chunk_0());
    push_greek_chunk_1(&mut v);
    assert(rview(v@) =~= greek_chunk_0() + greek_chunk_1());
    push_greek_chunk_2(&mut v);
    assert(rview(v@) =~= greek_chunk_0() + greek_chunk_1() + greek_chunk_2());
    push_greek_chunk_3(&mut v);
    assert(rview(v@) =~= greek_chunk_0() + greek_chunk_1() + greek_chunk_2() + greek_chunk_3());
    push_greek_chunk_4(&mut v);
    assert(rview(v@) =~= greek_chunk_0() + greek_chunk_1() + greek_chunk_2() + greek_chunk_3() + greek_chunk_4());
    v
}

pub open spec fn gujarati_chunk_0() -> Seq<SRange> {
    seq![(0xA81int, 0xA83int), (0xA85int, 0xA8Dint), (0xA8Fint, 0xA91int), (0xA93int, 0xAA8int), (0xAAAint, 0xAB0int), (0xAB2int, 0xAB3int), (0xAB5int, 0xAB9int), (0xABCint, 0xAC5int)]
}

pub open spec fn gujarati_chunk_1() -> Seq<SRange> {
    seq![(0xAC7int, 0xAC9int), (0xACBint, 0xACDint), (0xAD0int, 0xAD0int), (0xAE0int, 0xAE3int), (0xAE6int, 0xAF1int), (0xAF9int, 0xAFFint)]
}

/// The ranges of the script Gujarati.
pub open spec fn gujarati_ranges() -> Seq<SRange> {
    gujarati_chunk_0() + gujarati_chunk_1()
}

proof fn lemma_gujarati_canonical()
    ensures
        canonical(gujarati_ranges()),
{
    reveal_with_fuel(canonical, 9);
    assert(canonical(gujarati_chunk_0()));
    assert(canonical(gujarati_chunk_1()));
    lemma_canonical_append(gujarati_chunk_0(), gujarati_chunk_1());
}

fn gujarati_class() -> (v: Vec<ClassUnicodeRange>)
    ensures
        rview(v@) == gujarati_ranges(),
{
    let mut v: Vec<ClassUnicodeRange> = Vec::new();
    push_range(&mut v, '\u{A81}', '\u{A83}');
    push_range(&mut v, '\u{A85}', '\u{A8D}');
    push_range(&mut v, '\u{A8F}', '\u{A91}');
    push_range(&mut v, '\u{A93}', '\u{AA8}');
    push_range(&mut v, '\u{AAA}', '\u{AB0}');
    push_range(&mut v, '\u{AB2}', '\u{AB3}');
    push_range(&mut v, '\u{AB5}', '\u{AB9}');
    push_range(&mut v, '\u{ABC}', '\u{AC5}');
    push_range(&mut v, '\u{AC7}', '\u{AC9}');
    push_range(&mut v, '\u{ACB}', '\u{ACD}');
    push_range(&mut v, '\u{AD0}', '\u{AD0}');
    push_range(&mut v, '\u{AE0}', '\u{AE3}');
    push_range(&mut v, '\u{AE6}', '\u{AF1}');
    push_range(&mut v, '\u{AF9}', '\u{AFF}');
    assert(rview(v@) =~= gujarati_ranges());
    v
}

pub open spec fn gunjala_gondi_chunk_0() -> Seq<SRange> {
    seq![(0x11D60int, 0x11D65int), (0x11D67int, 0x11D68int), (0x11D6Aint, 0x11D8Eint), (0x11D90int, 0x11D91int), (0x11D93int, 0x11D98int), (0x11DA0int, 0x11DA9int)]
}

/// The ranges of the script Gunjala_Gondi.
pub open spec fn gunjala_gondi_ranges() -> Seq<SRange> {
    gunjala_gondi_chunk_0()
}

proof fn lemma_gunjala_gondi_canonical()
    ensures
        canonical(gunjala_gondi_ranges()),
{
    reveal_with_fuel(canonical, 9);
    assert(canonical(gunjala_gondi_chunk_0()));
}

fn gunjala_gondi_class() -> (v: Vec<ClassUnicodeRange>)
    ensures
        rview(v@) == gunjala_gondi_ranges(),
{
    let mut v: Vec<ClassUnicodeRange> = Vec::new();
    push_range(&mut v, '\u{11D60}', '\u{11D65}');
    push_range(&mut v, '\u{11D67}', '\u{11D68}');
    push_range(&mut v, '\u{11D6A}', '\u{11D8E}');
    push_range(&mut v, '\u{11D90}', '\u{11D91}');
    push_range(&mut v, '\u{11D93}', '\u{11D98}');
    push_range(&mut v, '\u{11DA0}', '\u{11DA9}');
    assert(rview(v@) =~= gunjala_gondi_ranges());
    v
}

pub open spec fn gurmukhi_chunk_0() -> Seq<SRange> {
    seq![(0xA01int, 0xA03int), (0xA05int, 0xA0Aint), (0xA0Fint, 0xA10int), (0xA13int, 0xA28int), (0xA2Aint, 0xA30int), (0xA32int, 0xA33int), (0xA35int, 0xA36int), (0xA38int, 0xA39int)]
}

pub open spec fn gurmukhi_chunk_1() -> Seq<SRange> {
    seq![(0xA3Cint, 0xA3Cint), (0xA3Eint, 0xA42int), (0xA47int, 0xA48int), (0xA4Bint, 0xA4Dint), (0xA51int, 0xA51int), (0xA59int, 0xA5Cint), (0xA5Eint, 0xA5Eint), (0xA66int, 0xA76int)]
}

/// The ranges of the script Gurmukhi.
pub open spec fn gurmukhi_ranges() -> Seq<SRange> {
    gurmukhi_chunk_0() + gurmukhi_chunk_1()
}

proof fn lemma_gurmukhi_canonical()
    ensures
        canonical(gurmukhi_ranges()),
{
    reveal_with_fuel(canonical, 9);
    assert(canonical(gurmukhi_chunk_0()));
    assert(canonical(gurmukhi_chunk_1()));
    lemma_canonical_append(gurmukhi_chunk_0(), gurmukhi_chunk_1());
}

fn gurmukhi_class() -> (v: Vec<ClassUnicodeRange>)
    ensures
        rview(v@) == gurmukhi_ranges(),
{
    let mut v: Vec<ClassUnicodeRange> = Vec::new();
    push_range(&mut v, '\u{A01}', '\u{A03}');
    push_range(&mut v, '\u{A05}', '\u{A0A}');
    push_range(&mut v, '\u{A0F}', '\u{A10}');
    push_range(&mut v, '\u{A13}', '\u{A28}');
    push_range(&mut v, '\u{A2A}', '\u{A30}');
    push_range(&mut v, '\u{A32}', '\u{A33}');
    push_range(&mut v, '\u{A35}', '\u{A36}');
    push_range(&mut v, '\u{A38}', '\u{A39}');
    push_range(&mut v, '\u{A3C}', '\u{A3C}');
    push_range(&mut v, '\u{A3E}', '\u{A42}');
    push_range(&mut v, '\u{A47}', '\u{A48}');
    push_range(&mut v, '\u{A4B}', '\u{A4D}');
    push_range(&mut v, '\u{A51}', '\u{A51}');
    push_range(&mut v, '\u{A59}', '\u{A5C}');
    push_range(&mut v, '\u{A5E}', '\u{A5E}');
    push_range(&mut v, '\u{A66}', '\u{A76}');
    assert(rview(v@) =~= gurmukhi_ranges());
    v
}

pub open spec fn gurung_khema_chunk_0() -> Seq<SRange> {
    seq![(0x16100int, 0x16139int)]
}

/// The ranges of the script Gurung_Khema.
pub open spec fn gurung_khema_ranges() -> Seq<SRange> {
    gurung_khema_chunk_0()
}

proof fn lemma_gurung_khema_canonical()
    ensures
        canonical(gurung_khema_ranges()),
{
    reveal_with_fuel(canonical, 9);
    assert(canonical(gurung_khema_chunk_0()));
}

fn gurung_khema_class() -> (v: Vec<ClassUnicodeRange>)
    ensures
        rview(v@) == gurung_khema_ranges(),
{
    let mut v: Vec<ClassUnicodeRange> = Vec::new();
    push_range(&mut v, '\u{16100}', '\u{16139}');
    assert(rview(v@) =~= gurung_khema_ranges());
    v
}

pub open spec fn han_chunk_0() -> Seq<SRange> {
    seq![(0x2E80int, 0x2E99int), (0x2E9Bint, 0x2EF3int), (0x2F00int, 0x2FD5int), (0x3005int, 0x3005int), (0x3007int, 0x3007int), (0x3021int, 0x3029int), (0x3038int, 0x303Bint), (0x3400int, 0x4DBFint)]
}

pub open spec fn han_chunk_1() -> Seq<SRange> {
    seq![(0x4E00int, 0x9FFFint), (0xF900int, 0xFA6Dint), (0xFA70int, 0xFAD9int), (0x16FE2int, 0x16FE3int), (0x16FF0int, 0x16FF1int), (0x20000int, 0x2A6DFint), (0x2A700int, 0x2B739int), (0x2B740int, 0x2B81Dint)]
}

pub open spec fn han_chunk_2() -> Seq<SRange> {
    seq![(0x2B820int, 0x2CEA1int), (0x2CEB0int, 0x2EBE0int), (0x2EBF0int, 0x2EE5Dint), (0x2F800int, 0x2FA1Dint), (0x30000int, 0x3134Aint), (0x31350int, 0x323AFint)]
}

/// The ranges of the script Han.
pub open spec fn han_ranges() -> Seq<SRange> {
    han_chunk_0() + han_chunk_1() + han_chunk_2()
}

proof fn lemma_han_canonical()
    ensures
        canonical(han_ranges()),
{
    reveal_with_fuel(canonical, 9);
    assert(canonical(han_chunk_0()));
    assert(canonical(han_chunk_1()));
    assert(canonical(han_chunk_2()));
    lemma_canonical_append(han_chunk_0(), han_chunk_1());
    lemma_canonical_append(han_chunk_0() + han_chunk_1(), han_chunk_2());
}

fn han_class() -> (v: Vec<ClassUnicodeRange>)
    ensures
        rview(v@) == han_ranges(),
{
    let mut v: Vec<ClassUnicodeRange> = Vec::new();
    push_range(&mut v, '\u{2E80}', '\u{2E99}');
    push_range(&mut v, '\u{2E9B}', '\u{2EF3}');
    push_range(&mut v, '\u{2F00}', '\u{2FD5}');
    push_range(&mut v, '\u{3005}', '\u{3005}');
    push_range(&mut v, '\u{3007}', '\u{3007}');
    push_range(&mut v, '\u{3021}', '\u{3029}');
    push_range(&mut v, '\u{3038}', '\u{303B}');
    push_range(&mut v, '\u{3400}', '\u{4DBF}');
    push_range(&mut v, '\u{4E00}', '\u{9FFF}');
    push_range(&mut v, '\u{F900}', '\u{FA6D}');
    push_range(&mut v, '\u{FA70}', '\u{FAD9}');
    push_range(&mut v, '\u{16FE2}', '\u{16FE3}');
    push_range(&mut v, '\u{16FF0}', '\u{16FF1}');
    push_range(&mut v, '\u{20000}', '\u{2A6DF}');
    push_range(&mut v, '\u{2A700}', '\u{2B739}');
    push_range(&mut v, '\u{2B740}', '\u{2B81D}');
    push_range(&mut v, '\u{2B820}', '\u{2CEA1}');
    push_range(&mut v, '\u{2CEB0}', '\u{2EBE0}');
    push_range(&mut v, '\u{2EBF0}', '\u{2EE5D}');
    push_range(&mut v, '\u{2F800}', '\u{2FA1D}');
    push_range(&mut v, '\u{30000}', '\u{3134A}');
    push_range(&mut v, '\u{31350}', '\u{323AF}');
    assert(rview(v@) =~= han_ranges());
    v
}

pub open spec fn hangul_chunk_0() -> Seq<SRange> {
    seq![(0x1100int, 0x11FFint), (0x302Eint, 0x302Fint), (0x3131int, 0x318Eint), (0x3200int, 0x321Eint), (0x3260int, 0x327Eint), (0xA960int, 0xA97Cint), (0xAC00int, 0xD7A3int), (0xD7B0int, 0xD7C6int)]
}

pub open spec fn hangul_chunk_1() -> Seq<SRange> {
    seq![(0xD7CBint, 0xD7FBint), (0xFFA0int, 0xFFBEint), (0xFFC2int, 0xFFC7int), (0xFFCAint, 0xFFCFint), (0xFFD2int, 0xFFD7int), (0xFFDAint, 0xFFDCint)]
}

/// The ranges of the script Hangul.
pub open spec fn hangul_ranges() -> Seq<SRange> {
    hangul_chunk_0() + hangul_chunk_1()
}

proof fn lemma_hangul_canonical()
    ensures
        canonical(hangul_ranges()),
{
    reveal_with_fuel(canonical, 9);
    assert(canonical(hangul_chunk_0()));
    assert(canonical(hangul_chunk_1()));
    lemma_canonical_append(hangul_chunk_0(), hangul_chunk_1());
}

fn hangul_class() -> (v: Vec<ClassUnicodeRange>)
    ensures
        rview(v@) == hangul_ranges(),
{
    let mut v: Vec<ClassUnicodeRange> = Vec::new();
    push_range(&mut v, '\u{1100}', '\u{11FF}');
    push_range(&mut v, '\u{302E}', '\u{302F}');
    push_range(&mut v, '\u{3131}', '\u{318E}');
    push_range(&mut v, '\u{3200}', '\u{321E}');
    push_range(&mut v, '\u{3260}', '\u{327E}');
    push_range(&mut v, '\u{A960}', '\u{A97C}');
    push_range(&mut v, '\u{AC00}', '\u{D7A3}');
    push_range(&mut v, '\u{D7B0}', '\u{D7C6}');
    push_range(&mut v, '\u{D7CB}', '\u{D7FB}');
    push_range(&mut v, '\u{FFA0}', '\u{FFBE}');
    push_range(&mut v, '\u{FFC2}', '\u{FFC7}');
    push_range(&mut v, '\u{FFCA}', '\u{FFCF}');
    push_range(&mut v, '\u{FFD2}', '\u{FFD7}');
    push_range(&mut v, '\u{FFDA}', '\u{FFDC}');
    assert(rview(v@) =~= hangul_ranges());
    v
}

pub open spec fn hanifi_rohingya_chunk_0() -> Seq<SRange> {
    seq![(0x10D00int, 0x10D27int), (0x10D30int, 0x10D39int)]
}

/// The ranges of the script Hanifi_Rohingya.
pub open spec fn hanifi_rohingya_ranges() -> Seq<SRange> {
    hanifi_rohingya_chunk_0()
}

proof fn lemma_hanifi_rohingya_canonical()
    ensures
        canonical(hanifi_rohingya_ranges()),
{
    reveal_with_fuel(canonical, 9);
    assert(canonical(hanifi_rohingya_chunk_0()));
}

fn hanifi_rohingya_class() -> (v: Vec<ClassUnicodeRange>)
    ensures
        rview(v@) == hanifi_rohingya_ranges(),
{
    let mut v: Vec<ClassUnicodeRange> = Vec::new();
    push_range(&mut v, '\u{10D00}', '\u{10D27}');
    push_range(&mut v, '\u{10D30}', '\u{10D39}');
    assert(rview(v@) =~= hanifi_rohingya_ranges());
    v
}

pub open spec fn hanunoo_chunk_0() -> Seq<SRange> {
    seq![(0x1720int, 0x1734int)]
}

/// The ranges of the script Hanunoo.
pub open spec fn hanunoo_ranges() -> Seq<SRange> {
    hanunoo_chunk_0()
}

proof fn lemma_hanunoo_canonical()
    ensures
        canonical(hanunoo_ranges()),
{
    reveal_with_fuel(canonical, 9);
    assert(canonical(hanunoo_chunk_0()));
}

fn hanunoo_class() -> (v: Vec<ClassUnicodeRange>)
    ensures
        rview(v@) == hanunoo_ranges(),
{
    let mut v: Vec<ClassUnicodeRange> = Vec::new();
    push_range(&mut v, '\u{1720}', '\u{1734}');
    assert(rview(v@) =~= hanunoo_ranges());
    v
}

pub open spec fn hatran_chunk_0() -> Seq<SRange> {
    seq![(0x108E0int, 0x108F2int), (0x108F4int, 0x108F5int), (0x108FBint, 0x108FFint)]
}

/// The ranges of the script Hatran.
pub open spec fn hatran_ranges() -> Seq<SRange> {
    hatran_chunk_0()
}

proof fn lemma_hatran_canonical()
    ensures
        canonical(hatran_ranges()),
{
    reveal_with_fuel(canonical, 9);
    assert(canonical(hatran_chunk_0()));
}

fn hatran_class() -> (v: Vec<ClassUnicodeRange>)
    ensures
        rview(v@) == hatran_ranges(),
{
    let mut v: Vec<ClassUnicodeRange> = Vec::new();
    push_range(&mut v, '\u{108E0}', '\u{108F2}');
    push_range(&mut v, '\u{108F4}', '\u{108F5}');
    push_range(&mut v, '\u{108FB}', '\u{108FF}');
    assert(rview(v@) =~= hatran_ranges());
    v
}

pub open spec fn hebrew_chunk_0() -> Seq<SRange> {
    seq![(0x591int, 0x5C7int), (0x5D0int, 0x5EAint), (0x5EFint, 0x5F4int), (0xFB1Dint, 0xFB36int), (0xFB38int, 0xFB3Cint), (0xFB3Eint, 0xFB3Eint), (0xFB40int, 0xFB41int), (0xFB43int, 0xFB44int)]
}

pub open spec fn hebrew_chunk_1() -> Seq<SRange> {
    seq![(0xFB46int, 0xFB4Fint)]
}

/// The ranges of the script Hebrew.
pub open spec fn hebrew_ranges() -> Seq<SRange> {
    hebrew_chunk_0() + hebrew_chunk_1()
}

proof fn lemma_hebrew_canonical()
    ensures
        canonical(hebrew_ranges()),
{
    reveal_with_fuel(canonical, 9);
    assert(canonical(hebrew_chunk_0()));
    assert(canonical(hebrew_chunk_1()));
    lemma_canonical_append(hebrew_chunk_0(), hebrew_chunk_1());
}

fn hebrew_class() -> (v: Vec<ClassUnicodeRange>)
    ensures
        rview(v@) == hebrew_ranges(),
{
    let mut v: Vec<ClassUnicodeRange> = Vec::new();
    push_range(&mut v, '\u{591}', '\u{5C7}');
    push_range(&mut v, '\u{5D0}', '\u{5EA}');
    push_range(&mut v, '\u{5EF}', '\u{5F4}');
    push_range(&mut v, '\u{FB1D}', '\u{FB36}');
    push_range(&mut v, '\u{FB38}', '\u{FB3C}');
    push_range(&mut v, '\u{FB3E}', '\u{FB3E}');
    push_range(&mut v, '\u{FB40}', '\u{FB41}');
    push_range(&mut v, '\u{FB43}', '\u{FB44}');
    push_range(&mut v, '\u{FB46}', '\u{FB4F}');
    assert(rview(v@) =~= hebrew_ranges());
    v
}

pub open spec fn hiragana_chunk_0() -> Seq<SRange> {
    seq![(0x3041int, 0x3096int), (0x309Dint, 0x309Fint), (0x1B001int, 0x1B11Fint), (0x1B132int, 0x1B132int), (0x1B150int, 0x1B152int), (0x1F200int, 0x1F200int)]
}

/// The ranges of the script Hiragana.
pub open spec fn hiragana_ranges() -> Seq<SRange> {
    hiragana_chunk_0()
}

proof fn lemma_hiragana_canonical()
    ensures
        canonical(hiragana_ranges()),
{
    reveal_with_fuel(canonical, 9);
    assert(canonical(hiragana_chunk_0()));
}

fn hiragana_class() -> (v: Vec<ClassUnicodeRange>)
    ensures
        rview(v@) == hiragana_ranges(),
{
    let mut v: Vec<ClassUnicodeRange> = Vec::new();
    push_range(&mut v, '\u{3041}', '\u{3096}');
    push_range(&mut v, '\u{309D}', '\u{309F}');
    push_range(&mut v, '\u{1B001}', '\u{1B11F}');
    push_range(&mut v, '\u{1B132}', '\u{1B132}');
    push_range(&mut v, '\u{1B150}', '\u{1B152}');
    push_range(&mut v, '\u{1F200}', '\u{1F200}');
    assert(rview(v@) =~= hiragana_ranges());
    v
}

pub open spec fn imperial_aramaic_chunk_0() -> Seq<SRange> {
    seq![(0x10840int, 0x10855int), (0x10857int, 0x1085Fint)]
}

/// The ranges of the script Imperial_Aramaic.
pub open spec fn imperial_aramaic_ranges() -> Seq<SRange> {
    imperial_aramaic_chunk_0()
}

proof fn lemma_imperial_aramaic_canonical()
    ensures
        canonical(imperial_aramaic_ranges()),
{
    reveal_with_fuel(canonical, 9);
    assert(canonical(imperial_aramaic_chunk_0()));
}

fn imperial_aramaic_class() -> (v: Vec<ClassUnicodeRange>)
    ensures
        rview(v@) == imperial_aramaic_ranges(),
{
    let mut v: Vec<ClassUnicodeRange> = Vec::new();
    push_range(&mut v, '\u{10840}', '\u{10855}');
    push_range(&mut v, '\u{10857}', '\u{1085F}');
    assert(rview(v@) =~= imperial_aramaic_ranges());
    v
}

pub open spec fn inherited_chunk_0() -> Seq<SRange> {
    seq![(0x300int, 0x36Fint), (0x485int, 0x486int), (0x64Bint, 0x655int), (0x670int, 0x670int), (0x951int, 0x954int), (0x1AB0int, 0x1ACEint), (0x1CD0int, 0x1CD2int), (0x1CD4int, 0x1CE0int)]
}

pub open spec fn inherited_chunk_1() -> Seq<SRange> {
    seq![(0x1CE2int, 0x1CE8int), (0x1CEDint, 0x1CEDint), (0x1CF4int, 0x1CF4int), (0x1CF8int, 0x1CF9int), (0x1DC0int, 0x1DFFint), (0x200Cint, 0x200Dint), (0x20D0int, 0x20F0int), (0x302Aint, 0x302Dint)]
}

pub open spec fn inherited_chunk_2() -> Seq<SRange> {
    seq![(0x3099int, 0x309Aint), (0xFE00int, 0xFE0Fint), (0xFE20int, 0xFE2Dint), (0x101FDint, 0x101FDint), (0x102E0int, 0x102E0int), (0x1133Bint, 0x1133Bint), (0x1CF00int, 0x1CF2Dint), (0x1CF30int, 0x1CF46int)]
}

pub open spec fn inherited_chunk_3() -> Seq<SRange> {
    seq![(0x1D167int, 0x1D169int), (0x1D17Bint, 0x1D182int), (0x1D185int, 0x1D18Bint), (0x1D1AAint, 0x1D1ADint), (0xE0100int, 0xE01EFint)]
}

/// The ranges of the script Inherited.
pub open spec fn inherited_ranges() -> Seq<SRange> {
    inherited_chunk_0() + inherited_chunk_1() + inherited_chunk_2() + inherited_chunk_3()
}

proof fn lemma_inherited_canonical()
    ensures
        canonical(inherited_ranges()),
{
    reveal_with_fuel(canonical, 9);
    assert(canonical(inherited_chunk_0()));
    assert(canonical(inherited_chunk_1()));
    assert(canonical(inherited_chunk_2()));
    assert(canonical(inherited_chunk_3()));
    lemma_canonical_append(inherited_chunk_0(), inherited_chunk_1());
    lemma_canonical_append(inherited_chunk_0() + inherited_chunk_1(), inherited_chunk_2());
    lemma_canonical_append(inherited_chunk_0() + inherited_chunk_1() + inherited_chunk_2(), inherited_chunk_3());
}

fn push_inherited_chunk_0(v: &mut Vec<ClassUnicodeRange>)
    ensures
        rview(final(v)@) == rview(old(v)@) + inherited_chunk_0(),
{
    let ghost o = rview(v@);
    push_range(v, '\u{300}', '\u{36F}');
    push_range(v, '\u{485}', '\u{486}');
    push_range(v, '\u{64B}', '\u{655}');
    push_range(v, '\u{670}', '\u{670}');
    push_range(v, '\u{951}', '\u{954}');
    push_range(v, '\u{1AB0}', '\u{1ACE}');
    push_range(v, '\u{1CD0}', '\u{1CD2}');
    push_range(v, '\u{1CD4}', '\u{1CE0}');
    assert(rview(v@) =~= o + inherited_chunk_0());
}

fn push_inherited_chunk_1(v: &mut Vec<ClassUnicodeRange>)
    ensures
        rview(final(v)@) == rview(old(v)@) + inherited_chunk_1(),
{
    let ghost o = rview(v@);
    push_range(v, '\u{1CE2}', '\u{1CE8}');
    push_range(v, '\u{1CED}', '\u{1CED}');
    push_range(v, '\u{1CF4}', '\u{1CF4}');
    push_range(v, '\u{1CF8}', '\u{1CF9}');
    push_range(v, '\u{1DC0}', '\u{1DFF}');
    push_range(v, '\u{200C}', '\u{200D}');
    push_range(v, '\u{20D0}', '\u{20F0}');
    push_range(v, '\u{302A}', '\u{302D}');
    assert(rview(v@) =~= o + inherited_chunk_1());
}

fn push_inherited_chunk_2(v: &mut Vec<ClassUnicodeRange>)
    ensures
        rview(final(v)@) == rview(old(v)@) + inherited_chunk_2(),
{
    let ghost o = rview(v@);
    push_range(v, '\u{3099}', '\u{309A}');
    push_range(v, '\u{FE00}', '\u{FE0F}');
    push_range(v, '\u{FE20}', '\u{FE2D}');
    push_range(v, '\u{101FD}', '\u{101FD}');
    push_range(v, '\u{102E0}', '\u{102E0}');
    push_range(v, '\u{1133B}', '\u{1133B}');
    push_range(v, '\u{1CF00}', '\u{1CF2D}');
    push_range(v, '\u{1CF30}', '\u{1CF46}');
    assert(rview(v@) =~= o + inherited_chunk_2());
}

fn push_inherited_chunk_3(v: &mut Vec<ClassUnicodeRange>)
    ensures
        rview(final(v)@) == rview(old(v)@) + inherited_chunk_3(),
{
    let ghost o = rview(v@);
    push_range(v, '\u{1D167}', '\u{1D169}');
    push_range(v, '\u{1D17B}', '\u{1D182}');
    push_range(v, '\u{1D185}', '\u{1D18B}');
    push_range(v, '\u{1D1AA}', '\u{1D1AD}');
    push_range(v, '\u{E0100}', '\u{E01EF}');
    assert(rview(v@) =~= o + inherited_chunk_3());
}

fn inherited_class() -> (v: Vec<ClassUnicodeRange>)
    ensures
        rview(v@) == inherited_ranges(),
{
    let mut v: Vec<ClassUnicodeRange> = Vec::new();
    assert(rview(v@) =~= Seq::<SRange>::empty());
    push_inherited_chunk_0(&mut v);
    assert(rview(v@) =~= inherited_chunk_0());
    push_inherited_chunk_1(&mut v);
    assert(rview(v@) =~= inherited_chunk_0() + inherited_chunk_1());
    push_inherited_chunk_2(&mut v);
    assert(rview(v@) =~= inherited_chunk_0() + inherited_chunk_1() + inherited_chunk_2());
    push_inherited_chunk_3(&mut v);
    assert(rview(v@) =~= inherited_chunk_0() + inherited_chunk_1() + inherited_chunk_2() + inherited_chunk_3());
    v
}

pub open spec fn inscriptional_pahlavi_chunk_0() -> Seq<SRange> {
    seq![(0x10B60int, 0x10B72int), (0x10B78int, 0x10B7Fint)]
}

/// The ranges of the script Inscriptional_Pahlavi.
pub open spec fn inscriptional_pahlavi_ranges() -> Seq<SRange> {
    inscriptional_pahlavi_chunk_0()
}

proof fn lemma_inscriptional_pahlavi_canonical()
    ensures
        canonical(inscriptional_pahlavi_ranges()),
{
    reveal_with_fuel(canonical, 9);
    assert(canonical(inscriptional_pahlavi_chunk_0()));
}

fn inscriptional_pahlavi_class() -> (v: Vec<ClassUnicodeRange>)
    ensures
        rview(v@) == inscriptional_pahlavi_ranges(),
{
    let mut v: Vec<ClassUnicodeRange> = Vec::new();
    push_range(&mut v, '\u{10B60}', '\u{10B72}');
    push_range(&mut v, '\u{10B78}', '\u{10B7F}');
    assert(rview(v@) =~= inscriptional_pahlavi_ranges());
    v
}

pub open spec fn inscriptional_parthian_chunk_0() -> Seq<SRange> {
    seq![(0x10B40int, 0x10B55int), (0x10B58int, 0x10B5Fint)]
}

/// The ranges of the script Inscriptional_Parthian.
pub open spec fn inscriptional_parthian_ranges() -> Seq<SRange> {
    inscriptional_parthian_chunk_0()
}

proof fn lemma_inscriptional_parthian_canonical()
    ensures
        canonical(inscriptional_parthian_ranges()),
{
    reveal_with_fuel(canonical, 9);
    assert(canonical(inscriptional_parthian_chunk_0()));
}

fn inscriptional_parthian_class() -> (v: Vec<ClassUnicodeRange>)
    ensures
        rview(v@) == inscriptional_parthian_ranges(),
{
    let mut v: Vec<ClassUnicodeRange> = Vec::new();
    push_range(&mut v, '\u{10B40}', '\u{10B55}');
    push_range(&mut v, '\u{10B58}', '\u{10B5F}');
    assert(rview(v@) =~= inscriptional_parthian_ranges());
    v
}

pub open spec fn javanese_chunk_0() -> Seq<SRange> {
    seq![(0xA980int, 0xA9CDint), (0xA9D0int, 0xA9D9int), (0xA9DEint, 0xA9DFint)]
}

/// The ranges of the script Javanese.
pub open spec fn javanese_ranges() -> Seq<SRange> {
    javanese_chunk_0()
}

proof fn lemma_javanese_canonical()
    ensures
        canonical(javanese_ranges()),
{
    reveal_with_fuel(canonical, 9);
    assert(canonical(javanese_chunk_0()));
}

fn javanese_class() -> (v: Vec<ClassUnicodeRange>)
    ensures
        rview(v@) == javanese_ranges(),
{
    let mut v: Vec<ClassUnicodeRange> = Vec::new();
    push_range(&mut v, '\u{A980}', '\u{A9CD}');
    push_range(&mut v, '\u{A9D0}', '\u{A9D9}');
    push_range(&mut v, '\u{A9DE}', '\u{A9DF}');
    assert(rview(v@) =~= javanese_ranges());
    v
}

pub open spec fn kaithi_chunk_0() -> Seq<SRange> {
    seq![(0x11080int, 0x110C2int), (0x110CDint, 0x110CDint)]
}

/// The ranges of the script Kaithi.
pub open spec fn kaithi_ranges() -> Seq<SRange> {
    kaithi_chunk_0()
}

proof fn lemma_kaithi_canonical()
    ensures
        canonical(kaithi_ranges()),
{
    reveal_with_fuel(canonical, 9);
    assert(canonical(kaithi_chunk_0()));
}

fn kaithi_class() -> (v: Vec<ClassUnicodeRange>)
    ensures
        rview(v@) == kaithi_ranges(),
{
    let mut v: Vec<ClassUnicodeRange> = Vec::new();
    push_range(&mut v, '\u{11080}', '\u{110C2}');
    push_range(&mut v, '\u{110CD}', '\u{110CD}');
    assert(rview(v@) =~= kaithi_ranges());
    v
}

pub open spec fn kannada_chunk_0() -> Seq<SRange> {
    seq![(0xC80int, 0xC8Cint), (0xC8Eint, 0xC90int), (0xC92int, 0xCA8int), (0xCAAint, 0xCB3int), (0xCB5int, 0xCB9int), (0xCBCint, 0xCC4int), (0xCC6int, 0xCC8int), (0xCCAint, 0xCCDint)]
}

pub open spec fn kannada_chunk_1() -> Seq<SRange> {
    seq![(0xCD5int, 0xCD6int), (0xCDDint, 0xCDEint), (0xCE0int, 0xCE3int), (0xCE6int, 0xCEFint), (0xCF1int, 0xCF3int)]
}

/// The ranges of the script Kannada.
pub open spec fn kannada_ranges() -> Seq<SRange> {
    kannada_chunk_0() + kannada_chunk_1()
}

proof fn lemma_kannada_canonical()
    ensures
        canonical(kannada_ranges()),
{
    reveal_with_fuel(canonical, 9);
    assert(canonical(kannada_chunk_0()));
    assert(canonical(kannada_chunk_1()));
    lemma_canonical_append(kannada_chunk_0(), kannada_chunk_1());
}

fn kannada_class() -> (v: Vec<ClassUnicodeRange>)
    ensures
        rview(v@) == kannada_ranges(),
{
    let mut v: Vec<ClassUnicodeRange> = Vec::new();
    push_range(&mut v, '\u{C80}', '\u{C8C}');
    push_range(&mut v, '\u{C8E}', '\u{C90}');
    push_range(&mut v, '\u{C92}', '\u{CA8}');
    push_range(&mut v, '\u{CAA}', '\u{CB3}');
    push_range(&mut v, '\u{CB5}', '\u{CB9}');
    push_range(&mut v, '\u{CBC}', '\u{CC4}');
    push_range(&mut v, '\u{CC6}', '\u{CC8}');
    push_range(&mut v, '\u{CCA}', '\u{CCD}');
    push_range(&mut v, '\u{CD5}', '\u{CD6}');
    push_range(&mut v, '\u{CDD}', '\u{CDE}');
    push_range(&mut v, '\u{CE0}', '\u{CE3}');
    push_range(&mut v, '\u{CE6}', '\u{CEF}');
    push_range(&mut v, '\u{CF1}', '\u{CF3}');
    assert(rview(v@) =~= kannada_ranges());
    v
}

pub open spec fn katakana_chunk_0() -> Seq<SRange> {
    seq![(0x30A1int, 0x30FAint), (0x30FDint, 0x30FFint), (0x31F0int, 0x31FFint), (0x32D0int, 0x32FEint), (0x3300int, 0x3357int), (0xFF66int, 0xFF6Fint), (0xFF71int, 0xFF9Dint), (0x1AFF0int, 0x1AFF3int)]
}

pub open spec fn katakana_chunk_1() -> Seq<SRange> {
    seq![(0x1AFF5int, 0x1AFFBint), (0x1AFFDint, 0x1AFFEint), (0x1B000int, 0x1B000int), (0x1B120int, 0x1B122int), (0x1B155int, 0x1B155int), (0x1B164int, 0x1B167int)]
}

/// The ranges of the script Katakana.
pub open spec fn katakana_ranges() -> Seq<SRange> {
    katakana_chunk_0() + katakana_chunk_1()
}

proof fn lemma_katakana_canonical()
    ensures
        canonical(katakana_ranges()),
{
    reveal_with_fuel(canonical, 9);
    assert(canonical(katakana_chunk_0()));
    assert(canonical(katakana_chunk_1()));
    lemma_canonical_append(katakana_chunk_0(), katakana_chunk_1());
}

fn katakana_class() -> (v: Vec<ClassUnicodeRange>)
    ensures
        rview(v@) == katakana_ranges(),
{
    let mut v: Vec<ClassUnicodeRange> = Vec::new();
    push_range(&mut v, '\u{30A1}', '\u{30FA}');
    push_range(&mut v, '\u{30FD}', '\u{30FF}');
    push_range(&mut v, '\u{31F0}', '\u{31FF}');
    push_range(&mut v, '\u{32D0}', '\u{32FE}');
    push_range(&mut v, '\u{3300}', '\u{3357}');
    push_range(&mut v, '\u{FF66}', '\u{FF6F}');
    push_range(&mut v, '\u{FF71}', '\u{FF9D}');
    push_range(&mut v, '\u{1AFF0}', '\u{1AFF3}');
    push_range(&mut v, '\u{1AFF5}', '\u{1AFFB}');
    push_range(&mut v, '\u{1AFFD}', '\u{1AFFE}');
    push_range(&mut v, '\u{1B000}', '\u{1B000}');
    push_range(&mut v, '\u{1B120}', '\u{1B122}');
    push_range(&mut v, '\u{1B155}', '\u{1B155}');
    push_range(&mut v, '\u{1B164}', '\u{1B167}');
    assert(rview(v@) =~= katakana_ranges());
    v
}

pub open spec fn kawi_chunk_0() -> Seq<SRange> {
    seq![(0x11F00int, 0x11F10int), (0x11F12int, 0x11F3Aint), (0x11F3Eint, 0x11F5Aint)]
}

/// The ranges of the script Kawi.
pub open spec fn kawi_ranges() -> Seq<SRange> {
    kawi_chunk_0()
}

proof fn lemma_kawi_canonical()
    ensures
        canonical(kawi_ranges()),
{
    reveal_with_fuel(canonical, 9);
    assert(canonical(kawi_chunk_0()));
}

fn kawi_class() -> (v: Vec<ClassUnicodeRange>)
    ensures
        rview(v@) == kawi_ranges(),
{
    let mut v: Vec<ClassUnicodeRange> = Vec::new();
    push_range(&mut v, '\u{11F00}', '\u{11F10}');
    push_range(&mut v, '\u{11F12}', '\u{11F3A}');
    push_range(&mut v, '\u{11F3E}', '\u{11F5A}');
    assert(rview(v@) =~= kawi_ranges());
    v
}

pub open spec fn kayah_li_chunk_0() -> Seq<SRange> {
    seq![(0xA900int, 0xA92Dint), (0xA92Fint, 0xA92Fint)]
}

/// The ranges of the script Kayah_Li.
pub open spec fn kayah_li_ranges() -> Seq<SRange> {
    kayah_li_chunk_0()
}

proof fn lemma_kayah_li_canonical()
    ensures
        canonical(kayah_li_ranges()),
{
    reveal_with_fuel(canonical, 9);
    assert(canonical(kayah_li_chunk_0()));
}

fn kayah_li_class() -> (v: Vec<ClassUnicodeRange>)
    ensures
        rview(v@) == kayah_li_ranges(),
{
    let mut v: Vec<ClassUnicodeRange> = Vec::new();
    push_range(&mut v, '\u{A900}', '\u{A92D}');
    push_range(&mut v, '\u{A92F}', '\u{A92F}');
    assert(rview(v@) =~= kayah_li_ranges());
    v
}

pub open spec fn kharoshthi_chunk_0() -> Seq<SRange> {
    seq![(0x10A00int, 0x10A03int), (0x10A05int, 0x10A06int), (0x10A0Cint, 0x10A13int), (0x10A15int, 0x10A17int), (0x10A19int, 0x10A35int), (0x10A38int, 0x10A3Aint), (0x10A3Fint, 0x10A48int), (0x10A50int, 0x10A58int)]
}

/// The ranges of the script Kharoshthi.
pub open spec fn kharoshthi_ranges() -> Seq<SRange> {
    kharoshthi_chunk_0()
}

proof fn lemma_kharoshthi_canonical()
    ensures
        canonical(kharoshthi_ranges()),
{
    reveal_with_fuel(canonical, 9);
    assert(canonical(kharoshthi_chunk_0()));
}

fn kharoshthi_class() -> (v: Vec<ClassUnicodeRange>)
    ensures
        rview(v@) == kharoshthi_ranges(),
{
    let mut v: Vec<ClassUnicodeRange> = Vec::new();
    push_range(&mut v, '\u{10A00}', '\u{10A03}');
    push_range(&mut v, '\u{10A05}', '\u{10A06}');
    push_range(&mut v, '\u{10A0C}', '\u{10A13}');
    push_range(&mut v, '\u{10A15}', '\u{10A17}');
    push_range(&mut v, '\u{10A19}', '\u{10A35}');
    push_range(&mut v, '\u{10A38}', '\u{10A3A}');
    push_range(&mut v, '\u{10A3F}', '\u{10A48}');
    push_range(&mut v, '\u{10A50}', '\u{10A58}');
    assert(rview(v@) =~= kharoshthi_ranges());
    v
}

pub open spec fn khitan_small_script_chunk_0() -> Seq<SRange> {
    seq![(0x16FE4int, 0x16FE4int), (0x18B00int, 0x18CD5int), (0x18CFFint, 0x18CFFint)]
}

/// The ranges of the script Khitan_Small_Script.
pub open spec fn khitan_small_script_ranges() -> Seq<SRange> {
    khitan_small_script_chunk_0()
}

proof fn lemma_khitan_small_script_canonical()
    ensures
        canonical(khitan_small_script_ranges()),
{
    reveal_with_fuel(canonical, 9);
    assert(canonical(khitan_small_script_chunk_0()));
}

fn khitan_small_script_class() -> (v: Vec<ClassUnicodeRange>)
    ensures
        rview(v@) == khitan_small_script_ranges(),
{
    let mut v: Vec<ClassUnicodeRange> = Vec::new();
    push_range(&mut v, '\u{16FE4}', '\u{16FE4}');
    push_range(&mut v, '\u{18B00}', '\u{18CD5}');
    push_range(&mut v, '\u{18CFF}', '\u{18CFF}');
    assert(rview(v@) =~= khitan_small_script_ranges());
    v
}

pub open spec fn khmer_chunk_0() -> Seq<SRange> {
    seq![(0x1780int, 0x17DDint), (0x17E0int, 0x17E9int), (0x17F0int, 0x17F9int), (0x19E0int, 0x19FFint)]
}

/// The ranges of the script Khmer.
pub open spec fn khmer_ranges() -> Seq<SRange> {
    khmer_chunk_0()
}

proof fn lemma_khmer_canonical()
    ensures
        canonical(khmer_ranges()),
{
    reveal_with_fuel(canonical, 9);
    assert(canonical(khmer_chunk_0()));
}

fn khmer_class() -> (v: Vec<ClassUnicodeRange>)
    ensures
        rview(v@) == khmer_ranges(),
{
    let mut v: Vec<ClassUnicodeRange> = Vec::new();
    push_range(&mut v, '\u{1780}', '\u{17DD}');
    push_range(&mut v, '\u{17E0}', '\u{17E9}');
    push_range(&mut v, '\u{17F0}', '\u{17F9}');
    push_range(&mut v, '\u{19E0}', '\u{19FF}');
    assert(rview(v@) =~= khmer_ranges());
    v
}

pub open spec fn khojki_chunk_0() -> Seq<SRange> {
    seq![(0x11200int, 0x11211int), (0x11213int, 0x11241int)]
}

/// The ranges of the script Khojki.
pub open spec fn khojki_ranges() -> Seq<SRange> {
    khojki_chunk_0()
}

proof fn lemma_khojki_canonical()
    ensures
        canonical(khojki_ranges()),
{
    reveal_with_fuel(canonical, 9);
    assert(canonical(khojki_chunk_0()));
}

fn khojki_class() -> (v: Vec<ClassUnicodeRange>)
    ensures
        rview(v@) == khojki_ranges(),
{
    let mut v: Vec<ClassUnicodeRange> = Vec::new();
    push_range(&mut v, '\u{11200}', '\u{11211}');
    push_range(&mut v, '\u{11213}', '\u{11241}');
    assert(rview(v@) =~= khojki_ranges());
    v
}

pub open spec fn khudawadi_chunk_0() -> Seq<SRange> {
    seq![(0x112B0int, 0x112EAint), (0x112F0int, 0x112F9int)]
}

/// The ranges of the script Khudawadi.
pub open spec fn khudawadi_ranges() -> Seq<SRange> {
    khudawadi_chunk_0()
}

proof fn lemma_khudawadi_canonical()
    ensures
        canonical(khudawadi_ranges()),
{
    reveal_with_fuel(canonical, 9);
    assert(canonical(khudawadi_chunk_0()));
}

fn khudawadi_class() -> (v: Vec<ClassUnicodeRange>)
    ensures
        rview(v@) == khudawadi_ranges(),
{
    let mut v: Vec<ClassUnicodeRange> = Vec::new();
    push_range(&mut v, '\u{112B0}', '\u{112EA}');
    push_range(&mut v, '\u{112F0}', '\u{112F9}');
    assert(rview(v@) =~= khudawadi_ranges());
    v
}

pub open spec fn kirat_rai_chunk_0() -> Seq<SRange> {
    seq![(0x16D40int, 0x16D79int)]
}

/// The ranges of the script Kirat_Rai.
pub open spec fn kirat_rai_ranges() -> Seq<SRange> {
    kirat_rai_chunk_0()
}

proof fn lemma_kirat_rai_canonical()
    ensures
        canonical(kirat_rai_ranges()),
{
    reveal_with_fuel(canonical, 9);
    assert(canonical(kirat_rai_chunk_0()));
}

fn kirat_rai_class() -> (v: Vec<ClassUnicodeRange>)
    ensures
        rview(v@) == kirat_rai_ranges(),
{
    let mut v: Vec<ClassUnicodeRange> = Vec::new();
    push_range(&mut v, '\u{16D40}', '\u{16D79}');
    assert(rview(v@) =~= kirat_rai_ranges());
    v
}

pub open spec fn lao_chunk_0() -> Seq<SRange> {
    seq![(0xE81int, 0xE82int), (0xE84int, 0xE84int), (0xE86int, 0xE8Aint), (0xE8Cint, 0xEA3int), (0xEA5int, 0xEA5int), (0xEA7int, 0xEBDint), (0xEC0int, 0xEC4int), (0xEC6int, 0xEC6int)]
}

pub open spec fn lao_chunk_1() -> Seq<SRange> {
    seq![(0xEC8int, 0xECEint), (0xED0int, 0xED9int), (0xEDCint, 0xEDFint)]
}

/// The ranges of the script Lao.
pub open spec fn lao_ranges() -> Seq<SRange> {
    lao_chunk_0() + lao_chunk_1()
}

proof fn lemma_lao_canonical()
    ensures
        canonical(lao_ranges()),
{
    reveal_with_fuel(canonical, 9);
    assert(canonical(lao_chunk_0()));
    assert(canonical(lao_chunk_1()));
    lemma_canonical_append(lao_chunk_0(), lao_chunk_1());
}

fn lao_class() -> (v: Vec<ClassUnicodeRange>)
    ensures
        rview(v@) == lao_ranges(),
{
    let mut v: Vec<ClassUnicodeRange> = Vec::new();
    push_range(&mut v, '\u{E81}', '\u{E82}');
    push_range(&mut v, '\u{E84}', '\u{E84}');
    push_range(&mut v, '\u{E86}', '\u{E8A}');
    push_range(&mut v, '\u{E8C}', '\u{EA3}');
    push_range(&mut v, '\u{EA5}', '\u{EA5}');
    push_range(&mut v, '\u{EA7}', '\u{EBD}');
    push_range(&mut v, '\u{EC0}', '\u{EC4}');
    push_range(&mut v, '\u{EC6}', '\u{EC6}');
    push_range(&mut v, '\u{EC8}', '\u{ECE}');
    push_range(&mut v, '\u{ED0}', '\u{ED9}');
    push_range(&mut v, '\u{EDC}', '\u{EDF}');
    assert(rview(v@) =~= lao_ranges());
    v
}

pub open spec fn latin_chunk_0() -> Seq<SRange> {
    seq![(0x41int, 0x5Aint), (0x61int, 0x7Aint), (0xAAint, 0xAAint), (0xBAint, 0xBAint), (0xC0int, 0xD6int), (0xD8int, 0xF6int), (0xF8int, 0x2B8int), (0x2E0int, 0x2E4int)]
}

pub open spec fn latin_chunk_1() -> Seq<SRange> {
    seq![(0x1D00int, 0x1D25int), (0x1D2Cint, 0x1D5Cint), (0x1D62int, 0x1D65int), (0x1D6Bint, 0x1D77int), (0x1D79int, 0x1DBEint), (0x1E00int, 0x1EFFint), (0x2071int, 0x2071int), (0x207Fint, 0x207Fint)]
}

pub open spec fn latin_chunk_2() -> Seq<SRange> {
    seq![(0x2090int, 0x209Cint), (0x212Aint, 0x212Bint), (0x2132int, 0x2132int), (0x214Eint, 0x214Eint), (0x2160int, 0x2188int), (0x2C60int, 0x2C7Fint), (0xA722int, 0xA787int), (0xA78Bint, 0xA7CDint)]
}

pub open spec fn latin_chunk_3() -> Seq<SRange> {
    seq![(0xA7D0int, 0xA7D1int), (0xA7D3int, 0xA7D3int), (0xA7D5int, 0xA7DCint), (0xA7F2int, 0xA7FFint), (0xAB30int, 0xAB5Aint), (0xAB5Cint, 0xAB64int), (0xAB66int, 0xAB69int), (0xFB00int, 0xFB06int)]
}

pub open spec fn latin_chunk_4() -> Seq<SRange> {
    seq![(0xFF21int, 0xFF3Aint), (0xFF41int, 0xFF5Aint), (0x10780int, 0x10785int), (0x10787int, 0x107B0int), (0x107B2int, 0x107BAint), (0x1DF00int, 0x1DF1Eint), (0x1DF25int, 0x1DF2Aint)]
}

/// The ranges of the script Latin.
pub open spec fn latin_ranges() -> Seq<SRange> {
    latin_chunk_0() + latin_chunk_1() + latin_chunk_2() + latin_chunk_3() + latin_chunk_4()
}

proof fn lemma_latin_canonical()
    ensures
        canonical(latin_ranges()),
{
    reveal_with_fuel(canonical, 9);
    assert(canonical(latin_chunk_0()));
    assert(canonical(latin_chunk_1()));
    assert(canonical(latin_chunk_2()));
    assert(canonical(latin_chunk_3()));
    assert(canonical(latin_chunk_4()));
    lemma_canonical_append(latin_chunk_0(), latin_chunk_1());
    lemma_canonical_append(latin_chunk_0() + latin_chunk_1(), latin_chunk_2());
    lemma_canonical_append(latin_chunk_0() + latin_chunk_1() + latin_chunk_2(), latin_chunk_3());
    lemma_canonical_append(latin_chunk_0() + latin_chunk_1() + latin_chunk_2() + latin_chunk_3(), latin_chunk_4());
}

fn push_latin_chunk_0(v: &mut Vec<ClassUnicodeRange>)
    ensures
        rview(final(v)@) == rview(old(v)@) + latin_chunk_0(),
{
    let ghost o = rview(v@);
    push_range(v, '\u{41}', '\u{5A}');
    push_range(v, '\u{61}', '\u{7A}');
    push_range(v, '\u{AA}', '\u{AA}');
    push_range(v, '\u{BA}', '\u{BA}');
    push_range(v, '\u{C0}', '\u{D6}');
    push_range(v, '\u{D8}', '\u{F6}');
    push_range(v, '\u{F8}', '\u{2B8}');
    push_range(v, '\u{2E0}', '\u{2E4}');
    assert(rview(v@) =~= o + latin_chunk_0());
}

fn push_latin_chunk_1(v: &mut Vec<ClassUnicodeRange>)
    ensures
        rview(final(v)@) == rview(old(v)@) + latin_chunk_1(),
{
    let ghost o = rview(v@);
    push_range(v, '\u{1D00}', '\u{1D25}');
    push_range(v, '\u{1D2C}', '\u{1D5C}');
    push_range(v, '\u{1D62}', '\u{1D65}');
    push_range(v, '\u{1D6B}', '\u{1D77}');
    push_range(v, '\u{1D79}', '\u{1DBE}');
    push_range(v, '\u{1E00}', '\u{1EFF}');
    push_range(v, '\u{2071}', '\u{2071}');
    push_range(v, '\u{207F}', '\u{207F}');
    assert(rview(v@) =~= o + latin_chunk_1());
}

fn push_latin_chunk_2(v: &mut Vec<ClassUnicodeRange>)
    ensures
        rview(final(v)@) == rview(old(v)@) + latin_chunk_2(),
{
    let ghost o = rview(v@);
    push_range(v, '\u{2090}', '\u{209C}');
    push_range(v, '\u{212A}', '\u{212B}');
    push_range(v, '\u{2132}', '\u{2132}');
    push_range(v, '\u{214E}', '\u{214E}');
    push_range(v, '\u{2160}', '\u{2188}');
    push_range(v, '\u{2C60}', '\u{2C7F}');
    push_range(v, '\u{A722}', '\u{A787}');
    push_range(v, '\u{A78B}', '\u{A7CD}');
    assert(rview(v@) =~= o + latin_chunk_2());
}

fn push_latin_chunk_3(v: &mut Vec<ClassUnicodeRange>)
    ensures
        rview(final(v)@) == rview(old(v)@) + latin_chunk_3(),
{
    let ghost o = rview(v@);
    push_range(v, '\u{A7D0}', '\u{A7D1}');
    push_range(v, '\u{A7D3}', '\u{A7D3}');
    push_range(v, '\u{A7D5}', '\u{A7DC}');
    push_range(v, '\u{A7F2}', '\u{A7FF}');
    push_range(v, '\u{AB30}', '\u{AB5A}');
    push_range(v, '\u{AB5C}', '\u{AB64}');
    push_range(v, '\u{AB66}', '\u{AB69}');
    push_range(v, '\u{FB00}', '\u{FB06}');
    assert(rview(v@) =~= o + latin_chunk_3());
}

fn push_latin_chunk_4(v: &mut Vec<ClassUnicodeRange>)
    ensures
        rview(final(v)@) == rview(old(v)@) + latin_chunk_4(),
{
    let ghost o = rview(v@);
    push_range(v, '\u{FF21}', '\u{FF3A}');
    push_range(v, '\u{FF41}', '\u{FF5A}');
    push_range(v, '\u{10780}', '\u{10785}');
    push_range(v, '\u{10787}', '\u{107B0}');
    push_range(v, '\u{107B2}', '\u{107BA}');
    push_range(v, '\u{1DF00}', '\u{1DF1E}');
    push_range(v, '\u{1DF25}', '\u{1DF2A}');
    assert(rview(v@) =~= o + latin_chunk_4());
}

fn latin_class() -> (v: Vec<ClassUnicodeRange>)
    ensures
        rview(v@) == latin_ranges(),
{
    let mut v: Vec<ClassUnicodeRange> = Vec::new();
    assert(rview(v@) =~= Seq::<SRange>::empty());
    push_latin_chunk_0(&mut v);
    assert(rview(v@) =~= latin_chunk_0());
    push_latin_chunk_1(&mut v);
    assert(rview(v@) =~= latin_chunk_0() + latin_chunk_1());
    push_latin_chunk_2(&mut v);
    assert(rview(v@) =~= latin_chunk_0() + latin_chunk_1() + latin_chunk_2());
    push_latin_chunk_3(&mut v);
    assert(rview(v@) =~= latin_chunk_0() + latin_chunk_1() + latin_chunk_2() + latin_chunk_3());
    push_latin_chunk_4(&mut v);
    assert(rview(v@) =~= latin_chunk_0() + latin_chunk_1() + latin_chunk_2() + latin_chunk_3() + latin_chunk_4());
    v
}

pub open spec fn lepcha_chunk_0() -> Seq<SRange> {
    seq![(0x1C00int, 0x1C37int), (0x1C3Bint, 0x1C49int), (0x1C4Dint, 0x1C4Fint)]
}

/// The ranges of the script Lepcha.
pub open spec fn lepcha_ranges() -> Seq<SRange> {
    lepcha_chunk_0()
}

proof fn lemma_lepcha_canonical()
    ensures
        canonical(lepcha_ranges()),
{
    reveal_with_fuel(canonical, 9);
    assert(canonical(lepcha_chunk_0()));
}

fn lepcha_class() -> (v: Vec<ClassUnicodeRange>)
    ensures
        rview(v@) == lepcha_ranges(),
{
    let mut v: Vec<ClassUnicodeRange> = Vec::new();
    push_range(&mut v, '\u{1C00}', '\u{1C37}');
    push_range(&mut v, '\u{1C3B}', '\u{1C49}');
    push_range(&mut v, '\u{1C4D}', '\u{1C4F}');
    assert(rview(v@) =~= lepcha_ranges());
    v
}

pub open spec fn limbu_chunk_0() -> Seq<SRange> {
    seq![(0x1900int, 0x191Eint), (0x1920int, 0x192Bint), (0x1930int, 0x193Bint), (0x1940int, 0x1940int), (0x1944int, 0x194Fint)]
}

/// The ranges of the script Limbu.
pub open spec fn limbu_ranges() -> Seq<SRange> {
    limbu_chunk_0()
}

proof fn lemma_limbu_canonical()
    ensures
        canonical(limbu_ranges()),
{
    reveal_with_fuel(canonical, 9);
    assert(canonical(limbu_chunk_0()));
}

fn limbu_class() -> (v: Vec<ClassUnicodeRange>)
    ensures
        rview(v@) == limbu_ranges(),
{
    let mut v: Vec<ClassUnicodeRange> = Vec::new();
    push_range(&mut v, '\u{1900}', '\u{191E}');
    push_range(&mut v, '\u{1920}', '\u{192B}');
    push_range(&mut v, '\u{1930}', '\u{193B}');
    push_range(&mut v, '\u{1940}', '\u{1940}');
    push_range(&mut v, '\u{1944}', '\u{194F}');
    assert(rview(v@) =~= limbu_ranges());
    v
}

pub open spec fn linear_a_chunk_0() -> Seq<SRange> {
    seq![(0x10600int, 0x10736int), (0x10740int, 0x10755int), (0x10760int, 0x10767int)]
}

/// The ranges of the script Linear_A.
pub open spec fn linear_a_ranges() -> Seq<SRange> {
    linear_a_chunk_0()
}

proof fn lemma_linear_a_canonical()
    ensures
        canonical(linear_a_ranges()),
{
    reveal_with_fuel(canonical, 9);
    assert(canonical(linear_a_chunk_0()));
}

fn linear_a_class() -> (v: Vec<ClassUnicodeRange>)
    ensures
        rview(v@) == linear_a_ranges(),
{
    let mut v: Vec<ClassUnicodeRange> = Vec::new();
    push_range(&mut v, '\u{10600}', '\u{10736}');
    push_range(&mut v, '\u{10740}', '\u{10755}');
    push_range(&mut v, '\u{10760}', '\u{10767}');
    assert(rview(v@) =~= linear_a_ranges());
    v
}

pub open spec fn linear_b_chunk_0() -> Seq<SRange> {
    seq![(0x10000int, 0x1000Bint), (0x1000Dint, 0x10026int), (0x10028int, 0x1003Aint), (0x1003Cint, 0x1003Dint), (0x1003Fint, 0x1004Dint), (0x10050int, 0x1005Dint), (0x10080int, 0x100FAint)]
}

/// The ranges of the script Linear_B.
pub open spec fn linear_b_ranges() -> Seq<SRange> {
    linear_b_chunk_0()
}

proof fn lemma_linear_b_canonical()
    ensures
        canonical(linear_b_ranges()),
{
    reveal_with_fuel(canonical, 9);
    assert(canonical(linear_b_chunk_0()));
}

fn linear_b_class() -> (v: Vec<ClassUnicodeRange>)
    ensures
        rview(v@) == linear_b_ranges(),
{
    let mut v: Vec<ClassUnicodeRange> = Vec::new();
    push_range(&mut v, '\u{10000}', '\u{1000B}');
    push_range(&mut v, '\u{1000D}', '\u{10026}');
    push_range(&mut v, '\u{10028}', '\u{1003A}');
    push_range(&mut v, '\u{1003C}', '\u{1003D}');
    push_range(&mut v, '\u{1003F}', '\u{1004D}');
    push_range(&mut v, '\u{10050}', '\u{1005D}');
    push_range(&mut v, '\u{10080}', '\u{100FA}');
    assert(rview(v@) =~= linear_b_ranges());
    v
}

pub open spec fn lisu_chunk_0() -> Seq<SRange> {
    seq![(0xA4D0int, 0xA4FFint), (0x11FB0int, 0x11FB0int)]
}

/// The ranges of the script Lisu.
pub open spec fn lisu_ranges() -> Seq<SRange> {
    lisu_chunk_0()
}

proof fn lemma_lisu_canonical()
    ensures
        canonical(lisu_ranges()),
{
    reveal_with_fuel(canonical, 9);
    assert(canonical(lisu_chunk_0()));
}

fn lisu_class() -> (v: Vec<ClassUnicodeRange>)
    ensures
        rview(v@) == lisu_ranges(),
{
    let mut v: Vec<ClassUnicodeRange> = Vec::new();
    push_range(&mut v, '\u{A4D0}', '\u{A4FF}');
    push_range(&mut v, '\u{11FB0}', '\u{11FB0}');
    assert(rview(v@) =~= lisu_ranges());
    v
}

pub open spec fn lycian_chunk_0() -> Seq<SRange> {
    seq![(0x10280int, 0x1029Cint)]
}

/// The ranges of the script Lycian.
pub open spec fn lycian_ranges() -> Seq<SRange> {
    lycian_chunk_0()
}

proof fn lemma_lycian_canonical()
    ensures
        canonical(lycian_ranges()),
{
    reveal_with_fuel(canonical, 9);
    assert(canonical(lycian_chunk_0()));
}

fn lycian_class() -> (v: Vec<ClassUnicodeRange>)
    ensures
        rview(v@) == lycian_ranges(),
{
    let mut v: Vec<ClassUnicodeRange> = Vec::new();
    push_range(&mut v, '\u{10280}', '\u{1029C}');
    assert(rview(v@) =~= lycian_ranges());
    v
}

pub open spec fn lydian_chunk_0() -> Seq<SRange> {
    seq![(0x10920int, 0x10939int), (0x1093Fint, 0x1093Fint)]
}

/// The ranges of the script Lydian.
pub open spec fn lydian_ranges() -> Seq<SRange> {
    lydian_chunk_0()
}

proof fn lemma_lydian_canonical()
    ensures
        canonical(lydian_ranges()),
{
    reveal_with_fuel(canonical, 9);
    assert(canonical(lydian_chunk_0()));
}

fn lydian_class() -> (v: Vec<ClassUnicodeRange>)
    ensures
        rview(v@) == lydian_ranges(),
{
    let mut v: Vec<ClassUnicodeRange> = Vec::new();
    push_range(&mut v, '\u{10920}', '\u{10939}');
    push_range(&mut v, '\u{1093F}', '\u{1093F}');
    assert(rview(v@) =~= lydian_ranges());
    v
}

pub open spec fn mahajani_chunk_0() -> Seq<SRange> {
    seq![(0x11150int, 0x11176int)]
}

/// The ranges of the script Mahajani.
pub open spec fn mahajani_ranges() -> Seq<SRange> {
    mahajani_chunk_0()
}

proof fn lemma_mahajani_canonical()
    ensures
        canonical(mahajani_ranges()),
{
    reveal_with_fuel(canonical, 9);
    assert(canonical(mahajani_chunk_0()));
}

fn mahajani_class() -> (v: Vec<ClassUnicodeRange>)
    ensures
        rview(v@) == mahajani_ranges(),
{
    let mut v: Vec<ClassUnicodeRange> = Vec::new();
    push_range(&mut v, '\u{11150}', '\u{11176}');
    assert(rview(v@) =~= mahajani_ranges());
    v
}

pub open spec fn makasar_chunk_0() -> Seq<SRange> {
    seq![(0x11EE0int, 0x11EF8int)]
}

/// The ranges of the script Makasar.
pub open spec fn makasar_ranges() -> Seq<SRange> {
    makasar_chunk_0()
}

proof fn lemma_makasar_canonical()
    ensures
        canonical(makasar_ranges()),
{
    reveal_with_fuel(canonical, 9);
    assert(canonical(makasar_chunk_0()));
}

fn makasar_class() -> (v: Vec<ClassUnicodeRange>)
    ensures
        rview(v@) == makasar_ranges(),
{
    let mut v: Vec<ClassUnicodeRange> = Vec::new();
    push_range(&mut v, '\u{11EE0}', '\u{11EF8}');
    assert(rview(v@) =~= makasar_ranges());
    v
}

pub open spec fn malayalam_chunk_0() -> Seq<SRange> {
    seq![(0xD00int, 0xD0Cint), (0xD0Eint, 0xD10int), (0xD12int, 0xD44int), (0xD46int, 0xD48int), (0xD4Aint, 0xD4Fint), (0xD54int, 0xD63int), (0xD66int, 0xD7Fint)]
}

/// The ranges of the script Malayalam.
pub open spec fn malayalam_ranges() -> Seq<SRange> {
    malayalam_chunk_0()
}

proof fn lemma_malayalam_canonical()
    ensures
        canonical(malayalam_ranges()),
{
    reveal_with_fuel(canonical, 9);
    assert(canonical(malayalam_chunk_0()));
}

fn malayalam_class() -> (v: Vec<ClassUnicodeRange>)
    ensures
        rview(v@) == malayalam_ranges(),
{
    let mut v: Vec<ClassUnicodeRange> = Vec::new();
    push_range(&mut v, '\u{D00}', '\u{D0C}');
    push_range(&mut v, '\u{D0E}', '\u{D10}');
    push_range(&mut v, '\u{D12}', '\u{D44}');
    push_range(&mut v, '\u{D46}', '\u{D48}');
    push_range(&mut v, '\u{D4A}', '\u{D4F}');
    push_range(&mut v, '\u{D54}', '\u{D63}');
    push_range(&mut v, '\u{D66}', '\u{D7F}');
    assert(rview(v@) =~= malayalam_ranges());
    v
}

pub open spec fn mandaic_chunk_0() -> Seq<SRange> {
    seq![(0x840int, 0x85Bint), (0x85Eint, 0x85Eint)]
}

/// The ranges of the script Mandaic.
pub open spec fn mandaic_ranges() -> Seq<SRange> {
    mandaic_chunk_0()
}

proof fn lemma_mandaic_canonical()
    ensures
        canonical(mandaic_ranges()),
{
    reveal_with_fuel(canonical, 9);
    assert(canonical(mandaic_chunk_0()));
}

fn mandaic_class() -> (v: Vec<ClassUnicodeRange>)
    ensures
        rview(v@) == mandaic_ranges(),
{
    let mut v: Vec<ClassUnicodeRange> = Vec::new();
    push_range(&mut v, '\u{840}', '\u{85B}');
    push_range(&mut v, '\u{85E}', '\u{85E}');
    assert(rview(v@) =~= mandaic_ranges());
    v
}

pub open spec fn manichaean_chunk_0() -> Seq<SRange> {
    seq![(0x10AC0int, 0x10AE6int), (0x10AEBint, 0x10AF6int)]
}

/// The ranges of the script Manichaean.
pub open spec fn manichaean_ranges() -> Seq<SRange> {
    manichaean_chunk_0()
}

proof fn lemma_manichaean_canonical()
    ensures
        canonical(manichaean_ranges()),
{
    reveal_with_fuel(canonical, 9);
    assert(canonical(manichaean_chunk_0()));
}

fn manichaean_class() -> (v: Vec<ClassUnicodeRange>)
    ensures
        rview(v@) == manichaean_ranges(),
{
    let mut v: Vec<ClassUnicodeRange> = Vec::new();
    push_range(&mut v, '\u{10AC0}', '\u{10AE6}');
    push_range(&mut v, '\u{10AEB}', '\u{10AF6}');
    assert(rview(v@) =~= manichaean_ranges());
    v
}

pub open spec fn marchen_chunk_0() -> Seq<SRange> {
    seq![(0x11C70int, 0x11C8Fint), (0x11C92int, 0x11CA7int), (0x11CA9int, 0x11CB6int)]
}

/// The ranges of the script Marchen.
pub open spec fn marchen_ranges() -> Seq<SRange> {
    marchen_chunk_0()
}

proof fn lemma_marchen_canonical()
    ensures
        canonical(marchen_ranges()),
{
    reveal_with_fuel(canonical, 9);
    assert(canonical(marchen_chunk_0()));
}

fn marchen_class() -> (v: Vec<ClassUnicodeRange>)
    ensures
        rview(v@) == marchen_ranges(),
{
    let mut v: Vec<ClassUnicodeRange> = Vec::new();
    push_range(&mut v, '\u{11C70}', '\u{11C8F}');
    push_range(&mut v, '\u{11C92}', '\u{11CA7}');
    push_range(&mut v, '\u{11CA9}', '\u{11CB6}');
    assert(rview(v@) =~= marchen_ranges());
    v
}

pub open spec fn masaram_gondi_chunk_0() -> Seq<SRange> {
    seq![(0x11D00int, 0x11D06int), (0x11D08int, 0x11D09int), (0x11D0Bint, 0x11D36int), (0x11D3Aint, 0x11D3Aint), (0x11D3Cint, 0x11D3Dint), (0x11D3Fint, 0x11D47int), (0x11D50int, 0x11D59int)]
}

/// The ranges of the script Masaram_Gondi.
pub open spec fn masaram_gondi_ranges() -> Seq<SRange> {
    masaram_gondi_chunk_0()
}

proof fn lemma_masaram_gondi_canonical()
    ensures
        canonical(masaram_gondi_ranges()),
{
    reveal_with_fuel(canonical, 9);
    assert(canonical(masaram_gondi_chunk_0()));
}

fn masaram_gondi_class() -> (v: Vec<ClassUnicodeRange>)
    ensures
        rview(v@) == masaram_gondi_ranges(),
{
    let mut v: Vec<ClassUnicodeRange> = Vec::new();
    push_range(&mut v, '\u{11D00}', '\u{11D06}');
    push_range(&mut v, '\u{11D08}', '\u{11D09}');
    push_range(&mut v, '\u{11D0B}', '\u{11D36}');
    push_range(&mut v, '\u{11D3A}', '\u{11D3A}');
    push_range(&mut v, '\u{11D3C}', '\u{11D3D}');
    push_range(&mut v, '\u{11D3F}', '\u{11D47}');
    push_range(&mut v, '\u{11D50}', '\u{11D59}');
    assert(rview(v@) =~= masaram_gondi_ranges());
    v
}

pub open spec fn medefaidrin_chunk_0() -> Seq<SRange> {
    seq![(0x16E40int, 0x16E9Aint)]
}

/// The ranges of the script Medefaidrin.
pub open spec fn medefaidrin_ranges() -> Seq<SRange> {
    medefaidrin_chunk_0()
}

proof fn lemma_medefaidrin_canonical()
    ensures
        canonical(medefaidrin_ranges()),
{
    reveal_with_fuel(canonical, 9);
    assert(canonical(medefaidrin_chunk_0()));
}

fn medefaidrin_class() -> (v: Vec<ClassUnicodeRange>)
    ensures
        rview(v@) == medefaidrin_ranges(),
{
    let mut v: Vec<ClassUnicodeRange> = Vec::new();
    push_range(&mut v, '\u{16E40}', '\u{16E9A}');
    assert(rview(v@) =~= medefaidrin_ranges());
    v
}

pub open spec fn meetei_mayek_chunk_0() -> Seq<SRange> {
    seq![(0xAAE0int, 0xAAF6int), (0xABC0int, 0xABEDint), (0xABF0int, 0xABF9int)]
}

/// The ranges of the script Meetei_Mayek.
pub open spec fn meetei_mayek_ranges() -> Seq<SRange> {
    meetei_mayek_chunk_0()
}

proof fn lemma_meetei_mayek_canonical()
    ensures
        canonical(meetei_mayek_ranges()),
{
    reveal_with_fuel(canonical, 9);
    assert(canonical(meetei_mayek_chunk_0()));
}

fn meetei_mayek_class() -> (v: Vec<ClassUnicodeRange>)
    ensures
        rview(v@) == meetei_mayek_ranges(),
{
    let mut v: Vec<ClassUnicodeRange> = Vec::new();
    push_range(&mut v, '\u{AAE0}', '\u{AAF6}');
    push_range(&mut v, '\u{ABC0}', '\u{ABED}');
    push_range(&mut v, '\u{ABF0}', '\u{ABF9}');
    assert(rview(v@) =~= meetei_mayek_ranges());
    v
}

pub open spec fn mende_kikakui_chunk_0() -> Seq<SRange> {
    seq![(0x1E800int, 0x1E8C4int), (0x1E8C7int, 0x1E8D6int)]
}

/// The ranges of the script Mende_Kikakui.
pub open spec fn mende_kikakui_ranges() -> Seq<SRange> {
    mende_kikakui_chunk_0()
}

proof fn lemma_mende_kikakui_canonical()
    ensures
        canonical(mende_kikakui_ranges()),
{
    reveal_with_fuel(canonical, 9);
    assert(canonical(mende_kikakui_chunk_0()));
}

fn mende_kikakui_class() -> (v: Vec<ClassUnicodeRange>)
    ensures
        rview(v@) == mende_kikakui_ranges(),
{
    let mut v: Vec<ClassUnicodeRange> = Vec::new();
    push_range(&mut v, '\u{1E800}', '\u{1E8C4}');
    push_range(&mut v, '\u{1E8C7}', '\u{1E8D6}');
    assert(rview(v@) =~= mende_kikakui_ranges());
    v
}

pub open spec fn meroitic_cursive_chunk_0() -> Seq<SRange> {
    seq![(0x109A0int, 0x109B7int), (0x109BCint, 0x109CFint), (0x109D2int, 0x109FFint)]
}

/// The ranges of the script Meroitic_Cursive.
pub open spec fn meroitic_cursive_ranges() -> Seq<SRange> {
    meroitic_cursive_chunk_0()
}

proof fn lemma_meroitic_cursive_canonical()
    ensures
        canonical(meroitic_cursive_ranges()),
{
    reveal_with_fuel(canonical, 9);
    assert(canonical(meroitic_cursive_chunk_0()));
}

fn meroitic_cursive_class() -> (v: Vec<ClassUnicodeRange>)
    ensures
        rview(v@) == meroitic_cursive_ranges(),
{
    let mut v: Vec<ClassUnicodeRange> = Vec::new();
    push_range(&mut v, '\u{109A0}', '\u{109B7}');
    push_range(&mut v, '\u{109BC}', '\u{109CF}');
    push_range(&mut v, '\u{109D2}', '\u{109FF}');
    assert(rview(v@) =~= meroitic_cursive_ranges());
    v
}

pub open spec fn meroitic_hieroglyphs_chunk_0() -> Seq<SRange> {
    seq![(0x10980int, 0x1099Fint)]
}

/// The ranges of the script Meroitic_Hieroglyphs.
pub open spec fn meroitic_hieroglyphs_ranges() -> Seq<SRange> {
    meroitic_hieroglyphs_chunk_0()
}

proof fn lemma_meroitic_hieroglyphs_canonical()
    ensures
        canonical(meroitic_hieroglyphs_ranges()),
{
    reveal_with_fuel(canonical, 9);
    assert(canonical(meroitic_hieroglyphs_chunk_0()));
}

fn meroitic_hieroglyphs_class() -> (v: Vec<ClassUnicodeRange>)
    ensures
        rview(v@) == meroitic_hieroglyphs_ranges(),
{
    let mut v: Vec<ClassUnicodeRange> = Vec::new();
    push_range(&mut v, '\u{10980}', '\u{1099F}');
    assert(rview(v@) =~= meroitic_hieroglyphs_ranges());
    v
}

pub open spec fn miao_chunk_0() -> Seq<SRange> {
    seq![(0x16F00int, 0x16F4Aint), (0x16F4Fint, 0x16F87int), (0x16F8Fint, 0x16F9Fint)]
}

/// The ranges of the script Miao.
pub open spec fn miao_ranges() -> Seq<SRange> {
    miao_chunk_0()
}

proof fn lemma_miao_canonical()
    ensures
        canonical(miao_ranges()),
{
    reveal_with_fuel(canonical, 9);
    assert(canonical(miao_chunk_0()));
}

fn miao_class() -> (v: Vec<ClassUnicodeRange>)
    ensures
        rview(v@) == miao_ranges(),
{
    let mut v: Vec<ClassUnicodeRange> = Vec::new();
    push_range(&mut v, '\u{16F00}', '\u{16F4A}');
    push_range(&mut v, '\u{16F4F}', '\u{16F87}');
    push_range(&mut v, '\u{16F8F}', '\u{16F9F}');
    assert(rview(v@) =~= miao_ranges());
    v
}

pub open spec fn modi_chunk_0() -> Seq<SRange> {
    seq![(0x11600int, 0x11644int), (0x11650int, 0x11659int)]
}

/// The ranges of the script Modi.
pub open spec fn modi_ranges() -> Seq<SRange> {
    modi_chunk_0()
}

proof fn lemma_modi_canonical()
    ensures
        canonical(modi_ranges()),
{
    reveal_with_fuel(canonical, 9);
    assert(canonical(modi_chunk_0()));
}

fn modi_class() -> (v: Vec<ClassUnicodeRange>)
    ensures
        rview(v@) == modi_ranges(),
{
    let mut v: Vec<ClassUnicodeRange> = Vec::new();
    push_range(&mut v, '\u{11600}', '\u{11644}');
    push_range(&mut v, '\u{11650}', '\u{11659}');
    assert(rview(v@) =~= modi_ranges());
    v
}

pub open spec fn mongolian_chunk_0() -> Seq<SRange> {
    seq![(0x1800int, 0x1801int), (0x1804int, 0x1804int), (0x1806int, 0x1819int), (0x1820int, 0x1878int), (0x1880int, 0x18AAint), (0x11660int, 0x1166Cint)]
}

/// The ranges of the script Mongolian.
pub open spec fn mongolian_ranges() -> Seq<SRange> {
    mongolian_chunk_0()
}

proof fn lemma_mongolian_canonical()
    ensures
        canonical(mongolian_ranges()),
{
    reveal_with_fuel(canonical, 9);
    assert(canonical(mongolian_chunk_0()));
}

fn mongolian_class() -> (v: Vec<ClassUnicodeRange>)
    ensures
        rview(v@) == mongolian_ranges(),
{
    let mut v: Vec<ClassUnicodeRange> = Vec::new();
    push_range(&mut v, '\u{1800}', '\u{1801}');
    push_range(&mut v, '\u{1804}', '\u{1804}');
    push_range(&mut v, '\u{1806}', '\u{1819}');
    push_range(&mut v, '\u{1820}', '\u{1878}');
    push_range(&mut v, '\u{1880}', '\u{18AA}');
    push_range(&mut v, '\u{11660}', '\u{1166C}');
    assert(rview(v@) =~= mongolian_ranges());
    v
}

pub open spec fn mro_chunk_0() -> Seq<SRange> {
    seq![(0x16A40int, 0x16A5Eint), (0x16A60int, 0x16A69int), (0x16A6Eint, 0x16A6Fint)]
}

/// The ranges of the script Mro.
pub open spec fn mro_ranges() -> Seq<SRange> {
    mro_chunk_0()
}

proof fn lemma_mro_canonical()
    ensures
        canonical(mro_ranges()),
{
    reveal_with_fuel(canonical, 9);
    assert(canonical(mro_chunk_0()));
}

fn mro_class() -> (v: Vec<ClassUnicodeRange>)
    ensures
        rview(v@) == mro_ranges(),
{
    let mut v: Vec<ClassUnicodeRange> = Vec::new();
    push_range(&mut v, '\u{16A40}', '\u{16A5E}');
    push_range(&mut v, '\u{16A60}', '\u{16A69}');
    push_range(&mut v, '\u{16A6E}', '\u{16A6F}');
    assert(rview(v@) =~= mro_ranges());
    v
}

pub open spec fn multani_chunk_0() -> Seq<SRange> {
    seq![(0x11280int, 0x11286int), (0x11288int, 0x11288int), (0x1128Aint, 0x1128Dint), (0x1128Fint, 0x1129Dint), (0x1129Fint, 0x112A9int)]
}

/// The ranges of the script Multani.
pub open spec fn multani_ranges() -> Seq<SRange> {
    multani_chunk_0()
}

proof fn lemma_multani_canonical()
    ensures
        canonical(multani_ranges()),
{
    reveal_with_fuel(canonical, 9);
    assert(canonical(multani_chunk_0()));
}

fn multani_class() -> (v: Vec<ClassUnicodeRange>)
    ensures
        rview(v@) == multani_ranges(),
{
    let mut v: Vec<ClassUnicodeRange> = Vec::new();
    push_range(&mut v, '\u{11280}', '\u{11286}');
    push_range(&mut v, '\u{11288}', '\u{11288}');
    push_range(&mut v, '\u{1128A}', '\u{1128D}');
    push_range(&mut v, '\u{1128F}', '\u{1129D}');
    push_range(&mut v, '\u{1129F}', '\u{112A9}');
    assert(rview(v@) =~= multani_ranges());
    v
}

pub open spec fn myanmar_chunk_0() -> Seq<SRange> {
    seq![(0x1000int, 0x109Fint), (0xA9E0int, 0xA9FEint), (0xAA60int, 0xAA7Fint), (0x116D0int, 0x116E3int)]
}

/// The ranges of the script Myanmar.
pub open spec fn myanmar_ranges() -> Seq<SRange> {
    myanmar_chunk_0()
}

proof fn lemma_myanmar_canonical()
    ensures
        canonical(myanmar_ranges()),
{
    reveal_with_fuel(canonical, 9);
    assert(canonical(myanmar_chunk_0()));
}

fn myanmar_class() -> (v: Vec<ClassUnicodeRange>)
    ensures
        rview(v@) == myanmar_ranges(),
{
    let mut v: Vec<ClassUnicodeRange> = Vec::new();
    push_range(&mut v, '\u{1000}', '\u{109F}');
    push_range(&mut v, '\u{A9E0}', '\u{A9FE}');
    push_range(&mut v, '\u{AA60}', '\u{AA7F}');
    push_range(&mut v, '\u{116D0}', '\u{116E3}');
    assert(rview(v@) =~= myanmar_ranges());
    v
}

pub open spec fn nabataean_chunk_0() -> Seq<SRange> {
    seq![(0x10880int, 0x1089Eint), (0x108A7int, 0x108AFint)]
}

/// The ranges of the script Nabataean.
pub open spec fn nabataean_ranges() -> Seq<SRange> {
    nabataean_chunk_0()
}

proof fn lemma_nabataean_canonical()
    ensures
        canonical(nabataean_ranges()),
{
    reveal_with_fuel(canonical, 9);
    assert(canonical(nabataean_chunk_0()));
}

fn nabataean_class() -> (v: Vec<ClassUnicodeRange>)
    ensures
        rview(v@) == nabataean_ranges(),
{
    let mut v: Vec<ClassUnicodeRange> = Vec::new();
    push_range(&mut v, '\u{10880}', '\u{1089E}');
    push_range(&mut v, '\u{108A7}', '\u{108AF}');
    assert(rview(v@) =~= nabataean_ranges());
    v
}

pub open spec fn nag_mundari_chunk_0() -> Seq<SRange> {
    seq![(0x1E4D0int, 0x1E4F9int)]
}

/// The ranges of the script Nag_Mundari.
pub open spec fn nag_mundari_ranges() -> Seq<SRange> {
    nag_mundari_chunk_0()
}

proof fn lemma_nag_mundari_canonical()
    ensures
        canonical(nag_mundari_ranges()),
{
    reveal_with_fuel(canonical, 9);
    assert(canonical(nag_mundari_chunk_0()));
}

fn nag_mundari_class() -> (v: Vec<ClassUnicodeRange>)
    ensures
        rview(v@) == nag_mundari_ranges(),
{
    let mut v: Vec<ClassUnicodeRange> = Vec::new();
    push_range(&mut v, '\u{1E4D0}', '\u{1E4F9}');
    assert(rview(v@) =~= nag_mundari_ranges());
    v
}

pub open spec fn nandinagari_chunk_0() -> Seq<SRange> {
    seq![(0x119A0int, 0x119A7int), (0x119AAint, 0x119D7int), (0x119DAint, 0x119E4int)]
}

/// The ranges of the script Nandinagari.
pub open spec fn nandinagari_ranges() -> Seq<SRange> {
    nandinagari_chunk_0()
}

proof fn lemma_nandinagari_canonical()
    ensures
        canonical(nandinagari_ranges()),
{
    reveal_with_fuel(canonical, 9);
    assert(canonical(nandinagari_chunk_0()));
}

fn nandinagari_class() -> (v: Vec<ClassUnicodeRange>)
    ensures
        rview(v@) == nandinagari_ranges(),
{
    let mut v: Vec<ClassUnicodeRange> = Vec::new();
    push_range(&mut v, '\u{119A0}', '\u{119A7}');
    push_range(&mut v, '\u{119AA}', '\u{119D7}');
    push_range(&mut v, '\u{119DA}', '\u{119E4}');
    assert(rview(v@) =~= nandinagari_ranges());
    v
}

pub open spec fn new_tai_lue_chunk_0() -> Seq<SRange> {
    seq![(0x1980int, 0x19ABint), (0x19B0int, 0x19C9int), (0x19D0int, 0x19DAint), (0x19DEint, 0x19DFint)]
}

/// The ranges of the script New_Tai_Lue.
pub open spec fn new_tai_lue_ranges() -> Seq<SRange> {
    new_tai_lue_chunk_0()
}

proof fn lemma_new_tai_lue_canonical()
    ensures
        canonical(new_tai_lue_ranges()),
{
    reveal_with_fuel(canonical, 9);
    assert(canonical(new_tai_lue_chunk_0()));
}

fn new_tai_lue_class() -> (v: Vec<ClassUnicodeRange>)
    ensures
        rview(v@) == new_tai_lue_ranges(),
{
    let mut v: Vec<ClassUnicodeRange> = Vec::new();
    push_range(&mut v, '\u{1980}', '\u{19AB}');
    push_range(&mut v, '\u{19B0}', '\u{19C9}');
    push_range(&mut v, '\u{19D0}', '\u{19DA}');
    push_range(&mut v, '\u{19DE}', '\u{19DF}');
    assert(rview(v@) =~= new_tai_lue_ranges());
    v
}

pub open spec fn newa_chunk_0() -> Seq<SRange> {
    seq![(0x11400int, 0x1145Bint), (0x1145Dint, 0x11461int)]
}

/// The ranges of the script Newa.
pub open spec fn newa_ranges() -> Seq<SRange> {
    newa_chunk_0()
}

proof fn lemma_newa_canonical()
    ensures
        canonical(newa_ranges()),
{
    reveal_with_fuel(canonical, 9);
    assert(canonical(newa_chunk_0()));
}

fn newa_class() -> (v: Vec<ClassUnicodeRange>)
    ensures
        rview(v@) == newa_ranges(),
{
    let mut v: Vec<ClassUnicodeRange> = Vec::new();
    push_range(&mut v, '\u{11400}', '\u{1145B}');
    push_range(&mut v, '\u{1145D}', '\u{11461}');
    assert(rview(v@) =~= newa_ranges());
    v
}

pub open spec fn nko_chunk_0() -> Seq<SRange> {
    seq![(0x7C0int, 0x7FAint), (0x7FDint, 0x7FFint)]
}

/// The ranges of the script Nko.
pub open spec fn nko_ranges() -> Seq<SRange> {
    nko_chunk_0()
}

proof fn lemma_nko_canonical()
    ensures
        canonical(nko_ranges()),
{
    reveal_with_fuel(canonical, 9);
    assert(canonical(nko_chunk_0()));
}

fn nko_class() -> (v: Vec<ClassUnicodeRange>)
    ensures
        rview(v@) == nko_ranges(),
{
    let mut v: Vec<ClassUnicodeRange> = Vec::new();
    push_range(&mut v, '\u{7C0}', '\u{7FA}');
    push_range(&mut v, '\u{7FD}', '\u{7FF}');
    assert(rview(v@) =~= nko_ranges());
    v
}

pub open spec fn nushu_chunk_0() -> Seq<SRange> {
    seq![(0x16FE1int, 0x16FE1int), (0x1B170int, 0x1B2FBint)]
}

/// The ranges of the script Nushu.
pub open spec fn nushu_ranges() -> Seq<SRange> {
    nushu_chunk_0()
}

proof fn lemma_nushu_canonical()
    ensures
        canonical(nushu_ranges()),
{
    reveal_with_fuel(canonical, 9);
    assert(canonical(nushu_chunk_0()));
}

fn nushu_class() -> (v: Vec<ClassUnicodeRange>)
    ensures
        rview(v@) == nushu_ranges(),
{
    let mut v: Vec<ClassUnicodeRange> = Vec::new();
    push_range(&mut v, '\u{16FE1}', '\u{16FE1}');
    push_range(&mut v, '\u{1B170}', '\u{1B2FB}');
    assert(rview(v@) =~= nushu_ranges());
    v
}

pub open spec fn nyiakeng_puachue_hmong_chunk_0() -> Seq<SRange> {
    seq![(0x1E100int, 0x1E12Cint), (0x1E130int, 0x1E13Dint), (0x1E140int, 0x1E149int), (0x1E14Eint, 0x1E14Fint)]
}

/// The ranges of the script Nyiakeng_Puachue_Hmong.
pub open spec fn nyiakeng_puachue_hmong_ranges() -> Seq<SRange> {
    nyiakeng_puachue_hmong_chunk_0()
}

proof fn lemma_nyiakeng_puachue_hmong_canonical()
    ensures
        canonical(nyiakeng_puachue_hmong_ranges()),
{
    reveal_with_fuel(canonical, 9);
    assert(canonical(nyiakeng_puachue_hmong_chunk_0()));
}

fn nyiakeng_puachue_hmong_class() -> (v: Vec<ClassUnicodeRange>)
    ensures
        rview(v@) == nyiakeng_puachue_hmong_ranges(),
{
    let mut v: Vec<ClassUnicodeRange> = Vec::new();
    push_range(&mut v, '\u{1E100}', '\u{1E12C}');
    push_range(&mut v, '\u{1E130}', '\u{1E13D}');
    push_range(&mut v, '\u{1E140}', '\u{1E149}');
    push_range(&mut v, '\u{1E14E}', '\u{1E14F}');
    assert(rview(v@) =~= nyiakeng_puachue_hmong_ranges());
    v
}

pub open spec fn ogham_chunk_0() -> Seq<SRange> {
    seq![(0x1680int, 0x169Cint)]
}

/// The ranges of the script Ogham.
pub open spec fn ogham_ranges() -> Seq<SRange> {
    ogham_chunk_0()
}

proof fn lemma_ogham_canonical()
    ensures
        canonical(ogham_ranges()),
{
    reveal_with_fuel(canonical, 9);
    assert(canonical(ogham_chunk_0()));
}

fn ogham_class() -> (v: Vec<ClassUnicodeRange>)
    ensures
        rview(v@) == ogham_ranges(),
{
    let mut v: Vec<ClassUnicodeRange> = Vec::new();
    push_range(&mut v, '\u{1680}', '\u{169C}');
    assert(rview(v@) =~= ogham_ranges());
    v
}

pub open spec fn ol_chiki_chunk_0() -> Seq<SRange> {
    seq![(0x1C50int, 0x1C7Fint)]
}

/// The ranges of the script Ol_Chiki.
pub open spec fn ol_chiki_ranges() -> Seq<SRange> {
    ol_chiki_chunk_0()
}

proof fn lemma_ol_chiki_canonical()
    ensures
        canonical(ol_chiki_ranges()),
{
    reveal_with_fuel(canonical, 9);
    assert(canonical(ol_chiki_chunk_0()));
}

fn ol_chiki_class() -> (v: Vec<ClassUnicodeRange>)
    ensures
        rview(v@) == ol_chiki_ranges(),
{
    let mut v: Vec<ClassUnicodeRange> = Vec::new();
    push_range(&mut v, '\u{1C50}', '\u{1C7F}');
    assert(rview(v@) =~= ol_chiki_ranges());
    v
}

pub open spec fn ol_onal_chunk_0() -> Seq<SRange> {
    seq![(0x1E5D0int, 0x1E5FAint), (0x1E5FFint, 0x1E5FFint)]
}

/// The ranges of the script Ol_Onal.
pub open spec fn ol_onal_ranges() -> Seq<SRange> {
    ol_onal_chunk_0()
}

proof fn lemma_ol_onal_canonical()
    ensures
        canonical(ol_onal_ranges()),
{
    reveal_with_fuel(canonical, 9);
    assert(canonical(ol_onal_chunk_0()));
}

fn ol_onal_class() -> (v: Vec<ClassUnicodeRange>)
    ensures
        rview(v@) == ol_onal_ranges(),
{
    let mut v: Vec<ClassUnicodeRange> = Vec::new();
    push_range(&mut v, '\u{1E5D0}', '\u{1E5FA}');
    push_range(&mut v, '\u{1E5FF}', '\u{1E5FF}');
    assert(rview(v@) =~= ol_onal_ranges());
    v
}

pub open spec fn old_hungarian_chunk_0() -> Seq<SRange> {
    seq![(0x10C80int, 0x10CB2int), (0x10CC0int, 0x10CF2int), (0x10CFAint, 0x10CFFint)]
}

/// The ranges of the script Old_Hungarian.
pub open spec fn old_hungarian_ranges() -> Seq<SRange> {
    old_hungarian_chunk_0()
}

proof fn lemma_old_hungarian_canonical()
    ensures
        canonical(old_hungarian_ranges()),
{
    reveal_with_fuel(canonical, 9);
    assert(canonical(old_hungarian_chunk_0()));
}

fn old_hungarian_class() -> (v: Vec<ClassUnicodeRange>)
    ensures
        rview(v@) == old_hungarian_ranges(),
{
    let mut v: Vec<ClassUnicodeRange> = Vec::new();
    push_range(&mut v, '\u{10C80}', '\u{10CB2}');
    push_range(&mut v, '\u{10CC0}', '\u{10CF2}');
    push_range(&mut v, '\u{10CFA}', '\u{10CFF}');
    assert(rview(v@) =~= old_hungarian_ranges());
    v
}

pub open spec fn old_italic_chunk_0() -> Seq<SRange> {
    seq![(0x10300int, 0x10323int), (0x1032Dint, 0x1032Fint)]
}

/// The ranges of the script Old_Italic.
pub open spec fn old_italic_ranges() -> Seq<SRange> {
    old_italic_chunk_0()
}

proof fn lemma_old_italic_canonical()
    ensures
        canonical(old_italic_ranges()),
{
    reveal_with_fuel(canonical, 9);
    assert(canonical(old_italic_chunk_0()));
}

fn old_italic_class() -> (v: Vec<ClassUnicodeRange>)
    ensures
        rview(v@) == old_italic_ranges(),
{
    let mut v: Vec<ClassUnicodeRange> = Vec::new();
    push_range(&mut v, '\u{10300}', '\u{10323}');
    push_range(&mut v, '\u{1032D}', '\u{1032F}');
    assert(rview(v@) =~= old_italic_ranges());
    v
}

pub open spec fn old_north_arabian_chunk_0() -> Seq<SRange> {
    seq![(0x10A80int, 0x10A9Fint)]
}

/// The ranges of the script Old_North_Arabian.
pub open spec fn old_north_arabian_ranges() -> Seq<SRange> {
    old_north_arabian_chunk_0()
}

proof fn lemma_old_north_arabian_canonical()
    ensures
        canonical(old_north_arabian_ranges()),
{
    reveal_with_fuel(canonical, 9);
    assert(canonical(old_north_arabian_chunk_0()));
}

fn old_north_arabian_class() -> (v: Vec<ClassUnicodeRange>)
    ensures
        rview(v@) == old_north_arabian_ranges(),
{
    let mut v: Vec<ClassUnicodeRange> = Vec::new();
    push_range(&mut v, '\u{10A80}', '\u{10A9F}');
    assert(rview(v@) =~= old_north_arabian_ranges());
    v
}

pub open spec fn old_permic_chunk_0() -> Seq<SRange> {
    seq![(0x10350int, 0x1037Aint)]
}

/// The ranges of the script Old_Permic.
pub open spec fn old_permic_ranges() -> Seq<SRange> {
    old_permic_chunk_0()
}

proof fn lemma_old_permic_canonical()
    ensures
        canonical(old_permic_ranges()),
{
    reveal_with_fuel(canonical, 9);
    assert(canonical(old_permic_chunk_0()));
}

fn old_permic_class() -> (v: Vec<ClassUnicodeRange>)
    ensures
        rview(v@) == old_permic_ranges(),
{
    let mut v: Vec<ClassUnicodeRange> = Vec::new();
    push_range(&mut v, '\u{10350}', '\u{1037A}');
    assert(rview(v@) =~= old_permic_ranges());
    v
}

pub open spec fn old_persian_chunk_0() -> Seq<SRange> {
    seq![(0x103A0int, 0x103C3int), (0x103C8int, 0x103D5int)]
}

/// The ranges of the script Old_Persian.
pub open spec fn old_persian_ranges() -> Seq<SRange> {
    old_persian_chunk_0()
}

proof fn lemma_old_persian_canonical()
    ensures
        canonical(old_persian_ranges()),
{
    reveal_with_fuel(canonical, 9);
    assert(canonical(old_persian_chunk_0()));
}

fn old_persian_class() -> (v: Vec<ClassUnicodeRange>)
    ensures
        rview(v@) == old_persian_ranges(),
{
    let mut v: Vec<ClassUnicodeRange> = Vec::new();
    push_range(&mut v, '\u{103A0}', '\u{103C3}');
    push_range(&mut v, '\u{103C8}', '\u{103D5}');
    assert(rview(v@) =~= old_persian_ranges());
    v
}

pub open spec fn old_sogdian_chunk_0() -> Seq<SRange> {
    seq![(0x10F00int, 0x10F27int)]
}

/// The ranges of the script Old_Sogdian.
pub open spec fn old_sogdian_ranges() -> Seq<SRange> {
    old_sogdian_chunk_0()
}

proof fn lemma_old_sogdian_canonical()
    ensures
        canonical(old_sogdian_ranges()),
{
    reveal_with_fuel(canonical, 9);
    assert(canonical(old_sogdian_chunk_0()));
}

fn old_sogdian_class() -> (v: Vec<ClassUnicodeRange>)
    ensures
        rview(v@) == old_sogdian_ranges(),
{
    let mut v: Vec<ClassUnicodeRange> = Vec::new();
    push_range(&mut v, '\u{10F00}', '\u{10F27}');
    assert(rview(v@) =~= old_sogdian_ranges());
    v
}

pub open spec fn old_south_arabian_chunk_0() -> Seq<SRange> {
    seq![(0x10A60int, 0x10A7Fint)]
}

/// The ranges of the script Old_South_Arabian.
pub open spec fn old_south_arabian_ranges() -> Seq<SRange> {
    old_south_arabian_chunk_0()
}

proof fn lemma_old_south_arabian_canonical()
    ensures
        canonical(old_south_arabian_ranges()),
{
    reveal_with_fuel(canonical, 9);
    assert(canonical(old_south_arabian_chunk_0()));
}

fn old_south_arabian_class() -> (v: Vec<ClassUnicodeRange>)
    ensures
        rview(v@) == old_south_arabian_ranges(),
{
    let mut v: Vec<ClassUnicodeRange> = Vec::new();
    push_range(&mut v, '\u{10A60}', '\u{10A7F}');
    assert(rview(v@) =~= old_south_arabian_ranges());
    v
}

pub open spec fn old_turkic_chunk_0() -> Seq<SRange> {
    seq![(0x10C00int, 0x10C48int)]
}

/// The ranges of the script Old_Turkic.
pub open spec fn old_turkic_ranges() -> Seq<SRange> {
    old_turkic_chunk_0()
}

proof fn lemma_old_turkic_canonical()
    ensures
        canonical(old_turkic_ranges()),
{
    reveal_with_fuel(canonical, 9);
    assert(canonical(old_turkic_chunk_0()));
}

fn old_turkic_class() -> (v: Vec<ClassUnicodeRange>)
    ensures
        rview(v@) == old_turkic_ranges(),
{
    let mut v: Vec<ClassUnicodeRange> = Vec::new();
    push_range(&mut v, '\u{10C00}', '\u{10C48}');
    assert(rview(v@) =~= old_turkic_ranges());
    v
}

pub open spec fn old_uyghur_chunk_0() -> Seq<SRange> {
    seq![(0x10F70int, 0x10F89int)]
}

/// The ranges of the script Old_Uyghur.
pub open spec fn old_uyghur_ranges() -> Seq<SRange> {
    old_uyghur_chunk_0()
}

proof fn lemma_old_uyghur_canonical()
    ensures
        canonical(old_uyghur_ranges()),
{
    reveal_with_fuel(canonical, 9);
    assert(canonical(old_uyghur_chunk_0()));
}

fn old_uyghur_class() -> (v: Vec<ClassUnicodeRange>)
    ensures
        rview(v@) == old_uyghur_ranges(),
{
    let mut v: Vec<ClassUnicodeRange> = Vec::new();
    push_range(&mut v, '\u{10F70}', '\u{10F89}');
    assert(rview(v@) =~= old_uyghur_ranges());
    v
}

pub open spec fn oriya_chunk_0() -> Seq<SRange> {
    seq![(0xB01int, 0xB03int), (0xB05int, 0xB0Cint), (0xB0Fint, 0xB10int), (0xB13int, 0xB28int), (0xB2Aint, 0xB30int), (0xB32int, 0xB33int), (0xB35int, 0xB39int), (0xB3Cint, 0xB44int)]
}

pub open spec fn oriya_chunk_1() -> Seq<SRange> {
    seq![(0xB47int, 0xB48int), (0xB4Bint, 0xB4Dint), (0xB55int, 0xB57int), (0xB5Cint, 0xB5Dint), (0xB5Fint, 0xB63int), (0xB66int, 0xB77int)]
}

/// The ranges of the script Oriya.
pub open spec fn oriya_ranges() -> Seq<SRange> {
    oriya_chunk_0() + oriya_chunk_1()
}

proof fn lemma_oriya_canonical()
    ensures
        canonical(oriya_ranges()),
{
    reveal_with_fuel(canonical, 9);
    assert(canonical(oriya_chunk_0()));
    assert(canonical(oriya_chunk_1()));
    lemma_canonical_append(oriya_chunk_0(), oriya_chunk_1());
}

fn oriya_class() -> (v: Vec<ClassUnicodeRange>)
    ensures
        rview(v@) == oriya_ranges(),
{
    let mut v: Vec<ClassUnicodeRange> = Vec::new();
    push_range(&mut v, '\u{B01}', '\u{B03}');
    push_range(&mut v, '\u{B05}', '\u{B0C}');
    push_range(&mut v, '\u{B0F}', '\u{B10}');
    push_range(&mut v, '\u{B13}', '\u{B28}');
    push_range(&mut v, '\u{B2A}', '\u{B30}');
    push_range(&mut v, '\u{B32}', '\u{B33}');
    push_range(&mut v, '\u{B35}', '\u{B39}');
    push_range(&mut v, '\u{B3C}', '\u{B44}');
    push_range(&mut v, '\u{B47}', '\u{B48}');
    push_range(&mut v, '\u{B4B}', '\u{B4D}');
    push_range(&mut v, '\u{B55}', '\u{B57}');
    push_range(&mut v, '\u{B5C}', '\u{B5D}');
    push_range(&mut v, '\u{B5F}', '\u{B63}');
    push_range(&mut v, '\u{B66}', '\u{B77}');
    assert(rview(v@) =~= oriya_ranges());
    v
}

pub open spec fn osage_chunk_0() -> Seq<SRange> {
    seq![(0x104B0int, 0x104D3int), (0x104D8int, 0x104FBint)]
}

/// The ranges of the script Osage.
pub open spec fn osage_ranges() -> Seq<SRange> {
    osage_chunk_0()
}

proof fn lemma_osage_canonical()
    ensures
        canonical(osage_ranges()),
{
    reveal_with_fuel(canonical, 9);
    assert(canonical(osage_chunk_0()));
}

fn osage_class() -> (v: Vec<ClassUnicodeRange>)
    ensures
        rview(v@) == osage_ranges(),
{
    let mut v: Vec<ClassUnicodeRange> = Vec::new();
    push_range(&mut v, '\u{104B0}', '\u{104D3}');
    push_range(&mut v, '\u{104D8}', '\u{104FB}');
    assert(rview(v@) =~= osage_ranges());
    v
}

pub open spec fn osmanya_chunk_0() -> Seq<SRange> {
    seq![(0x10480int, 0x1049Dint), (0x104A0int, 0x104A9int)]
}

/// The ranges of the script Osmanya.
pub open spec fn osmanya_ranges() -> Seq<SRange> {
    osmanya_chunk_0()
}

proof fn lemma_osmanya_canonical()
    ensures
        canonical(osmanya_ranges()),
{
    reveal_with_fuel(canonical, 9);
    assert(canonical(osmanya_chunk_0()));
}

fn osmanya_class() -> (v: Vec<ClassUnicodeRange>)
    ensures
        rview(v@) == osmanya_ranges(),
{
    let mut v: Vec<ClassUnicodeRange> = Vec::new();
    push_range(&mut v, '\u{10480}', '\u{1049D}');
    push_range(&mut v, '\u{104A0}', '\u{104A9}');
    assert(rview(v@) =~= osmanya_ranges());
    v
}

pub open spec fn pahawh_hmong_chunk_0() -> Seq<SRange> {
    seq![(0x16B00int, 0x16B45int), (0x16B50int, 0x16B59int), (0x16B5Bint, 0x16B61int), (0x16B63int, 0x16B77int), (0x16B7Dint, 0x16B8Fint)]
}

/// The ranges of the script Pahawh_Hmong.
pub open spec fn pahawh_hmong_ranges() -> Seq<SRange> {
    pahawh_hmong_chunk_0()
}

proof fn lemma_pahawh_hmong_canonical()
    ensures
        canonical(pahawh_hmong_ranges()),
{
    reveal_with_fuel(canonical, 9);
    assert(canonical(pahawh_hmong_chunk_0()));
}

fn pahawh_hmong_class() -> (v: Vec<ClassUnicodeRange>)
    ensures
        rview(v@) == pahawh_hmong_ranges(),
{
    let mut v: Vec<ClassUnicodeRange> = Vec::new();
    push_range(&mut v, '\u{16B00}', '\u{16B45}');
    push_range(&mut v, '\u{16B50}', '\u{16B59}');
    push_range(&mut v, '\u{16B5B}', '\u{16B61}');
    push_range(&mut v, '\u{16B63}', '\u{16B77}');
    push_range(&mut v, '\u{16B7D}', '\u{16B8F}');
    assert(rview(v@) =~= pahawh_hmong_ranges());
    v
}

pub open spec fn palmyrene_chunk_0() -> Seq<SRange> {
    seq![(0x10860int, 0x1087Fint)]
}

/// The ranges of the script Palmyrene.
pub open spec fn palmyrene_ranges() -> Seq<SRange> {
    palmyrene_chunk_0()
}

proof fn lemma_palmyrene_canonical()
    ensures
        canonical(palmyrene_ranges()),
{
    reveal_with_fuel(canonical, 9);
    assert(canonical(palmyrene_chunk_0()));
}

fn palmyrene_class() -> (v: Vec<ClassUnicodeRange>)
    ensures
        rview(v@) == palmyrene_ranges(),
{
    let mut v: Vec<ClassUnicodeRange> = Vec::new();
    push_range(&mut v, '\u{10860}', '\u{1087F}');
    assert(rview(v@) =~= palmyrene_ranges());
    v
}

pub open spec fn pau_cin_hau_chunk_0() -> Seq<SRange> {
    seq![(0x11AC0int, 0x11AF8int)]
}

/// The ranges of the script Pau_Cin_Hau.
pub open spec fn pau_cin_hau_ranges() -> Seq<SRange> {
    pau_cin_hau_chunk_0()
}

proof fn lemma_pau_cin_hau_canonical()
    ensures
        canonical(pau_cin_hau_ranges()),
{
    reveal_with_fuel(canonical, 9);
    assert(canonical(pau_cin_hau_chunk_0()));
}

fn pau_cin_hau_class() -> (v: Vec<ClassUnicodeRange>)
    ensures
        rview(v@) == pau_cin_hau_ranges(),
{
    let mut v: Vec<ClassUnicodeRange> = Vec::new();
    push_range(&mut v, '\u{11AC0}', '\u{11AF8}');
    assert(rview(v@) =~= pau_cin_hau_ranges());
    v
}

pub open spec fn phags_pa_chunk_0() -> Seq<SRange> {
    seq![(0xA840int, 0xA877int)]
}

/// The ranges of the script Phags_Pa.
pub open spec fn phags_pa_ranges() -> Seq<SRange> {
    phags_pa_chunk_0()
}

proof fn lemma_phags_pa_canonical()
    ensures
        canonical(phags_pa_ranges()),
{
    reveal_with_fuel(canonical, 9);
    assert(canonical(phags_pa_chunk_0()));
}

fn phags_pa_class() -> (v: Vec<ClassUnicodeRange>)
    ensures
        rview(v@) == phags_pa_ranges(),
{
    let mut v: Vec<ClassUnicodeRange> = Vec::new();
    push_range(&mut v, '\u{A840}', '\u{A877}');
    assert(rview(v@) =~= phags_pa_ranges());
    v
}

pub open spec fn phoenician_chunk_0() -> Seq<SRange> {
    seq![(0x10900int, 0x1091Bint), (0x1091Fint, 0x1091Fint)]
}

/// The ranges of the script Phoenician.
pub open spec fn phoenician_ranges() -> Seq<SRange> {
    phoenician_chunk_0()
}

proof fn lemma_phoenician_canonical()
    ensures
        canonical(phoenician_ranges()),
{
    reveal_with_fuel(canonical, 9);
    assert(canonical(phoenician_chunk_0()));
}

fn phoenician_class() -> (v: Vec<ClassUnicodeRange>)
    ensures
        rview(v@) == phoenician_ranges(),
{
    let mut v: Vec<ClassUnicodeRange> = Vec::new();
    push_range(&mut v, '\u{10900}', '\u{1091B}');
    push_range(&mut v, '\u{1091F}', '\u{1091F}');
    assert(rview(v@) =~= phoenician_ranges());
    v
}

pub open spec fn psalter_pahlavi_chunk_0() -> Seq<SRange> {
    seq![(0x10B80int, 0x10B91int), (0x10B99int, 0x10B9Cint), (0x10BA9int, 0x10BAFint)]
}

/// The ranges of the script Psalter_Pahlavi.
pub open spec fn psalter_pahlavi_ranges() -> Seq<SRange> {
    psalter_pahlavi_chunk_0()
}

proof fn lemma_psalter_pahlavi_canonical()
    ensures
        canonical(psalter_pahlavi_ranges()),
{
    reveal_with_fuel(canonical, 9);
    assert(canonical(psalter_pahlavi_chunk_0()));
}

fn psalter_pahlavi_class() -> (v: Vec<ClassUnicodeRange>)
    ensures
        rview(v@) == psalter_pahlavi_ranges(),
{
    let mut v: Vec<ClassUnicodeRange> = Vec::new();
    push_range(&mut v, '\u{10B80}', '\u{10B91}');
    push_range(&mut v, '\u{10B99}', '\u{10B9C}');
    push_range(&mut v, '\u{10BA9}', '\u{10BAF}');
    assert(rview(v@) =~= psalter_pahlavi_ranges());
    v
}

pub open spec fn rejang_chunk_0() -> Seq<SRange> {
    seq![(0xA930int, 0xA953int), (0xA95Fint, 0xA95Fint)]
}

/// The ranges of the script Rejang.
pub open spec fn rejang_ranges() -> Seq<SRange> {
    rejang_chunk_0()
}

proof fn lemma_rejang_canonical()
    ensures
        canonical(rejang_ranges()),
{
    reveal_with_fuel(canonical, 9);
    assert(canonical(rejang_chunk_0()));
}

fn rejang_class() -> (v: Vec<ClassUnicodeRange>)
    ensures
        rview(v@) == rejang_ranges(),
{
    let mut v: Vec<ClassUnicodeRange> = Vec::new();
    push_range(&mut v, '\u{A930}', '\u{A953}');
    push_range(&mut v, '\u{A95F}', '\u{A95F}');
    assert(rview(v@) =~= rejang_ranges());
    v
}

pub open spec fn runic_chunk_0() -> Seq<SRange> {
    seq![(0x16A0int, 0x16EAint), (0x16EEint, 0x16F8int)]
}

/// The ranges of the script Runic.
pub open spec fn runic_ranges() -> Seq<SRange> {
    runic_chunk_0()
}

proof fn lemma_runic_canonical()
    ensures
        canonical(runic_ranges()),
{
    reveal_with_fuel(canonical, 9);
    assert(canonical(runic_chunk_0()));
}

fn runic_class() -> (v: Vec<ClassUnicodeRange>)
    ensures
        rview(v@) == runic_ranges(),
{
    let mut v: Vec<ClassUnicodeRange> = Vec::new();
    push_range(&mut v, '\u{16A0}', '\u{16EA}');
    push_range(&mut v, '\u{16EE}', '\u{16F8}');
    assert(rview(v@) =~= runic_ranges());
    v
}

pub open spec fn samaritan_chunk_0() -> Seq<SRange> {
    seq![(0x800int, 0x82Dint), (0x830int, 0x83Eint)]
}

/// The ranges of the script Samaritan.
pub open spec fn samaritan_ranges() -> Seq<SRange> {
    samaritan_chunk_0()
}

proof fn lemma_samaritan_canonical()
    ensures
        canonical(samaritan_ranges()),
{
    reveal_with_fuel(canonical, 9);
    assert(canonical(samaritan_chunk_0()));
}

fn samaritan_class() -> (v: Vec<ClassUnicodeRange>)
    ensures
        rview(v@) == samaritan_ranges(),
{
    let mut v: Vec<ClassUnicodeRange> = Vec::new();
    push_range(&mut v, '\u{800}', '\u{82D}');
    push_range(&mut v, '\u{830}', '\u{83E}');
    assert(rview(v@) =~= samaritan_ranges());
    v
}

pub open spec fn saurashtra_chunk_0() -> Seq<SRange> {
    seq![(0xA880int, 0xA8C5int), (0xA8CEint, 0xA8D9int)]
}

/// The ranges of the script Saurashtra.
pub open spec fn saurashtra_ranges() -> Seq<SRange> {
    saurashtra_chunk_0()
}

proof fn lemma_saurashtra_canonical()
    ensures
        canonical(saurashtra_ranges()),
{
    reveal_with_fuel(canonical, 9);
    assert(canonical(saurashtra_chunk_0()));
}

fn saurashtra_class() -> (v: Vec<ClassUnicodeRange>)
    ensures
        rview(v@) == saurashtra_ranges(),
{
    let mut v: Vec<ClassUnicodeRange> = Vec::new();
    push_range(&mut v, '\u{A880}', '\u{A8C5}');
    push_range(&mut v, '\u{A8CE}', '\u{A8D9}');
    assert(rview(v@) =~= saurashtra_ranges());
    v
}

pub open spec fn sharada_chunk_0() -> Seq<SRange> {
    seq![(0x11180int, 0x111DFint)]
}

/// The ranges of the script Sharada.
pub open spec fn sharada_ranges() -> Seq<SRange> {
    sharada_chunk_0()
}

proof fn lemma_sharada_canonical()
    ensures
        canonical(sharada_ranges()),
{
    reveal_with_fuel(canonical, 9);
    assert(canonical(sharada_chunk_0()));
}

fn sharada_class() -> (v: Vec<ClassUnicodeRange>)
    ensures
        rview(v@) == sharada_ranges(),
{
    let mut v: Vec<ClassUnicodeRange> = Vec::new();
    push_range(&mut v, '\u{11180}', '\u{111DF}');
    assert(rview(v@) =~= sharada_ranges());
    v
}

pub open spec fn shavian_chunk_0() -> Seq<SRange> {
    seq![(0x10450int, 0x1047Fint)]
}

/// The ranges of the script Shavian.
pub open spec fn shavian_ranges() -> Seq<SRange> {
    shavian_chunk_0()
}

proof fn lemma_shavian_canonical()
    ensures
        canonical(shavian_ranges()),
{
    reveal_with_fuel(canonical, 9);
    assert(canonical(shavian_chunk_0()));
}

fn shavian_class() -> (v: Vec<ClassUnicodeRange>)
    ensures
        rview(v@) == shavian_ranges(),
{
    let mut v: Vec<ClassUnicodeRange> = Vec::new();
    push_range(&mut v, '\u{10450}', '\u{1047F}');
    assert(rview(v@) =~= shavian_ranges());
    v
}

pub open spec fn siddham_chunk_0() -> Seq<SRange> {
    seq![(0x11580int, 0x115B5int), (0x115B8int, 0x115DDint)]
}

/// The ranges of the script Siddham.
pub open spec fn siddham_ranges() -> Seq<SRange> {
    siddham_chunk_0()
}

proof fn lemma_siddham_canonical()
    ensures
        canonical(siddham_ranges()),
{
    reveal_with_fuel(canonical, 9);
    assert(canonical(siddham_chunk_0()));
}

fn siddham_class() -> (v: Vec<ClassUnicodeRange>)
    ensures
        rview(v@) == siddham_ranges(),
{
    let mut v: Vec<ClassUnicodeRange> = Vec::new();
    push_range(&mut v, '\u{11580}', '\u{115B5}');
    push_range(&mut v, '\u{115B8}', '\u{115DD}');
    assert(rview(v@) =~= siddham_ranges());
    v
}

pub open spec fn signwriting_chunk_0() -> Seq<SRange> {
    seq![(0x1D800int, 0x1DA8Bint), (0x1DA9Bint, 0x1DA9Fint), (0x1DAA1int, 0x1DAAFint)]
}

/// The ranges of the script SignWriting.
pub open spec fn signwriting_ranges() -> Seq<SRange> {
    signwriting_chunk_0()
}

proof fn lemma_signwriting_canonical()
    ensures
        canonical(signwriting_ranges()),
{
    reveal_with_fuel(canonical, 9);
    assert(canonical(signwriting_chunk_0()));
}

fn signwriting_class() -> (v: Vec<ClassUnicodeRange>)
    ensures
        rview(v@) == signwriting_ranges(),
{
    let mut v: Vec<ClassUnicodeRange> = Vec::new();
    push_range(&mut v, '\u{1D800}', '\u{1DA8B}');
    push_range(&mut v, '\u{1DA9B}', '\u{1DA9F}');
    push_range(&mut v, '\u{1DAA1}', '\u{1DAAF}');
    assert(rview(v@) =~= signwriting_ranges());
    v
}

pub open spec fn sinhala_chunk_0() -> Seq<SRange> {
    seq![(0xD81int, 0xD83int), (0xD85int, 0xD96int), (0xD9Aint, 0xDB1int), (0xDB3int, 0xDBBint), (0xDBDint, 0xDBDint), (0xDC0int, 0xDC6int), (0xDCAint, 0xDCAint), (0xDCFint, 0xDD4int)]
}

pub open spec fn sinhala_chunk_1() -> Seq<SRange> {
    seq![(0xDD6int, 0xDD6int), (0xDD8int, 0xDDFint), (0xDE6int, 0xDEFint), (0xDF2int, 0xDF4int), (0x111E1int, 0x111F4int)]
}

/// The ranges of the script Sinhala.
pub open spec fn sinhala_ranges() -> Seq<SRange> {
    sinhala_chunk_0() + sinhala_chunk_1()
}

proof fn lemma_sinhala_canonical()
    ensures
        canonical(sinhala_ranges()),
{
    reveal_with_fuel(canonical, 9);
    assert(canonical(sinhala_chunk_0()));
    assert(canonical(sinhala_chunk_1()));
    lemma_canonical_append(sinhala_chunk_0(), sinhala_chunk_1());
}

fn sinhala_class() -> (v: Vec<ClassUnicodeRange>)
    ensures
        rview(v@) == sinhala_ranges(),
{
    let mut v: Vec<ClassUnicodeRange> = Vec::new();
    push_range(&mut v, '\u{D81}', '\u{D83}');
    push_range(&mut v, '\u{D85}', '\u{D96}');
    push_range(&mut v, '\u{D9A}', '\u{DB1}');
    push_range(&mut v, '\u{DB3}', '\u{DBB}');
    push_range(&mut v, '\u{DBD}', '\u{DBD}');
    push_range(&mut v, '\u{DC0}', '\u{DC6}');
    push_range(&mut v, '\u{DCA}', '\u{DCA}');
    push_range(&mut v, '\u{DCF}', '\u{DD4}');
    push_range(&mut v, '\u{DD6}', '\u{DD6}');
    push_range(&mut v, '\u{DD8}', '\u{DDF}');
    push_range(&mut v, '\u{DE6}', '\u{DEF}');
    push_range(&mut v, '\u{DF2}', '\u{DF4}');
    push_range(&mut v, '\u{111E1}', '\u{111F4}');
    assert(rview(v@) =~= sinhala_ranges());
    v
}

pub open spec fn sogdian_chunk_0() -> Seq<SRange> {
    seq![(0x10F30int, 0x10F59int)]
}

/// The ranges of the script Sogdian.
pub open spec fn sogdian_ranges() -> Seq<SRange> {
    sogdian_chunk_0()
}

proof fn lemma_sogdian_canonical()
    ensures
        canonical(sogdian_ranges()),
{
    reveal_with_fuel(canonical, 9);
    assert(canonical(sogdian_chunk_0()));
}

fn sogdian_class() -> (v: Vec<ClassUnicodeRange>)
    ensures
        rview(v@) == sogdian_ranges(),
{
    let mut v: Vec<ClassUnicodeRange> = Vec::new();
    push_range(&mut v, '\u{10F30}', '\u{10F59}');
    assert(rview(v@) =~= sogdian_ranges());
    v
}

pub open spec fn sora_sompeng_chunk_0() -> Seq<SRange> {
    seq![(0x110D0int, 0x110E8int), (0x110F0int, 0x110F9int)]
}

/// The ranges of the script Sora_Sompeng.
pub open spec fn sora_sompeng_ranges() -> Seq<SRange> {
    sora_sompeng_chunk_0()
}

proof fn lemma_sora_sompeng_canonical()
    ensures
        canonical(sora_sompeng_ranges()),
{
    reveal_with_fuel(canonical, 9);
    assert(canonical(sora_sompeng_chunk_0()));
}

fn sora_sompeng_class() -> (v: Vec<ClassUnicodeRange>)
    ensures
        rview(v@) == sora_sompeng_ranges(),
{
    let mut v: Vec<ClassUnicodeRange> = Vec::new();
    push_range(&mut v, '\u{110D0}', '\u{110E8}');
    push_range(&mut v, '\u{110F0}', '\u{110F9}');
    assert(rview(v@) =~= sora_sompeng_ranges());
    v
}

pub open spec fn soyombo_chunk_0() -> Seq<SRange> {
    seq![(0x11A50int, 0x11AA2int)]
}

/// The ranges of the script Soyombo.
pub open spec fn soyombo_ranges() -> Seq<SRange> {
    soyombo_chunk_0()
}

proof fn lemma_soyombo_canonical()
    ensures
        canonical(soyombo_ranges()),
{
    reveal_with_fuel(canonical, 9);
    assert(canonical(soyombo_chunk_0()));
}

fn soyombo_class() -> (v: Vec<ClassUnicodeRange>)
    ensures
        rview(v@) == soyombo_ranges(),
{
    let mut v: Vec<ClassUnicodeRange> = Vec::new();
    push_range(&mut v, '\u{11A50}', '\u{11AA2}');
    assert(rview(v@) =~= soyombo_ranges());
    v
}

pub open spec fn sundanese_chunk_0() -> Seq<SRange> {
    seq![(0x1B80int, 0x1BBFint), (0x1CC0int, 0x1CC7int)]
}

/// The ranges of the script Sundanese.
pub open spec fn sundanese_ranges() -> Seq<SRange> {
    sundanese_chunk_0()
}

proof fn lemma_sundanese_canonical()
    ensures
        canonical(sundanese_ranges()),
{
    reveal_with_fuel(canonical, 9);
    assert(canonical(sundanese_chunk_0()));
}

fn sundanese_class() -> (v: Vec<ClassUnicodeRange>)
    ensures
        rview(v@) == sundanese_ranges(),
{
    let mut v: Vec<ClassUnicodeRange> = Vec::new();
    push_range(&mut v, '\u{1B80}', '\u{1BBF}');
    push_range(&mut v, '\u{1CC0}', '\u{1CC7}');
    assert(rview(v@) =~= sundanese_ranges());
    v
}

pub open spec fn sunuwar_chunk_0() -> Seq<SRange> {
    seq![(0x11BC0int, 0x11BE1int), (0x11BF0int, 0x11BF9int)]
}

/// The ranges of the script Sunuwar.
pub open spec fn sunuwar_ranges() -> Seq<SRange> {
    sunuwar_chunk_0()
}

proof fn lemma_sunuwar_canonical()
    ensures
        canonical(sunuwar_ranges()),
{
    reveal_with_fuel(canonical, 9);
    assert(canonical(sunuwar_chunk_0()));
}

fn sunuwar_class() -> (v: Vec<ClassUnicodeRange>)
    ensures
        rview(v@) == sunuwar_ranges(),
{
    let mut v: Vec<ClassUnicodeRange> = Vec::new();
    push_range(&mut v, '\u{11BC0}', '\u{11BE1}');
    push_range(&mut v, '\u{11BF0}', '\u{11BF9}');
    assert(rview(v@) =~= sunuwar_ranges());
    v
}

pub open spec fn syloti_nagri_chunk_0() -> Seq<SRange> {
    seq![(0xA800int, 0xA82Cint)]
}

/// The ranges of the script Syloti_Nagri.
pub open spec fn syloti_nagri_ranges() -> Seq<SRange> {
    syloti_nagri_chunk_0()
}

proof fn lemma_syloti_nagri_canonical()
    ensures
        canonical(syloti_nagri_ranges()),
{
    reveal_with_fuel(canonical, 9);
    assert(canonical(syloti_nagri_chunk_0()));
}

fn syloti_nagri_class() -> (v: Vec<ClassUnicodeRange>)
    ensures
        rview(v@) == syloti_nagri_ranges(),
{
    let mut v: Vec<ClassUnicodeRange> = Vec::new();
    push_range(&mut v, '\u{A800}', '\u{A82C}');
    assert(rview(v@) =~= syloti_nagri_ranges());
    v
}

pub open spec fn syriac_chunk_0() -> Seq<SRange> {
    seq![(0x700int, 0x70Dint), (0x70Fint, 0x74Aint), (0x74Dint, 0x74Fint), (0x860int, 0x86Aint)]
}

/// The ranges of the script Syriac.
pub open spec fn syriac_ranges() -> Seq<SRange> {
    syriac_chunk_0()
}

proof fn lemma_syriac_canonical()
    ensures
        canonical(syriac_ranges()),
{
    reveal_with_fuel(canonical, 9);
    assert(canonical(syriac_chunk_0()));
}

fn syriac_class() -> (v: Vec<ClassUnicodeRange>)
    ensures
        rview(v@) == syriac_ranges(),
{
    let mut v: Vec<ClassUnicodeRange> = Vec::new();
    push_range(&mut v, '\u{700}', '\u{70D}');
    push_range(&mut v, '\u{70F}', '\u{74A}');
    push_range(&mut v, '\u{74D}', '\u{74F}');
    push_range(&mut v, '\u{860}', '\u{86A}');
    assert(rview(v@) =~= syriac_ranges());
    v
}

pub open spec fn tagalog_chunk_0() -> Seq<SRange> {
    seq![(0x1700int, 0x1715int), (0x171Fint, 0x171Fint)]
}

/// The ranges of the script Tagalog.
pub open spec fn tagalog_ranges() -> Seq<SRange> {
    tagalog_chunk_0()
}

proof fn lemma_tagalog_canonical()
    ensures
        canonical(tagalog_ranges()),
{
    reveal_with_fuel(canonical, 9);
    assert(canonical(tagalog_chunk_0()));
}

fn tagalog_class() -> (v: Vec<ClassUnicodeRange>)
    ensures
        rview(v@) == tagalog_ranges(),
{
    let mut v: Vec<ClassUnicodeRange> = Vec::new();
    push_range(&mut v, '\u{1700}', '\u{1715}');
    push_range(&mut v, '\u{171F}', '\u{171F}');
    assert(rview(v@) =~= tagalog_ranges());
    v
}

pub open spec fn tagbanwa_chunk_0() -> Seq<SRange> {
    seq![(0x1760int, 0x176Cint), (0x176Eint, 0x1770int), (0x1772int, 0x1773int)]
}

/// The ranges of the script Tagbanwa.
pub open spec fn tagbanwa_ranges() -> Seq<SRange> {
    tagbanwa_chunk_0()
}

proof fn lemma_tagbanwa_canonical()
    ensures
        canonical(tagbanwa_ranges()),
{
    reveal_with_fuel(canonical, 9);
    assert(canonical(tagbanwa_chunk_0()));
}

fn tagbanwa_class() -> (v: Vec<ClassUnicodeRange>)
    ensures
        rview(v@) == tagbanwa_ranges(),
{
    let mut v: Vec<ClassUnicodeRange> = Vec::new();
    push_range(&mut v, '\u{1760}', '\u{176C}');
    push_range(&mut v, '\u{176E}', '\u{1770}');
    push_range(&mut v, '\u{1772}', '\u{1773}');
    assert(rview(v@) =~= tagbanwa_ranges());
    v
}

pub open spec fn tai_le_chunk_0() -> Seq<SRange> {
    seq![(0x1950int, 0x196Dint), (0x1970int, 0x1974int)]
}

/// The ranges of the script Tai_Le.
pub open spec fn tai_le_ranges() -> Seq<SRange> {
    tai_le_chunk_0()
}

proof fn lemma_tai_le_canonical()
    ensures
        canonical(tai_le_ranges()),
{
    reveal_with_fuel(canonical, 9);
    assert(canonical(tai_le_chunk_0()));
}

fn tai_le_class() -> (v: Vec<ClassUnicodeRange>)
    ensures
        rview(v@) == tai_le_ranges(),
{
    let mut v: Vec<ClassUnicodeRange> = Vec::new();
    push_range(&mut v, '\u{1950}', '\u{196D}');
    push_range(&mut v, '\u{1970}', '\u{1974}');
    assert(rview(v@) =~= tai_le_ranges());
    v
}

pub open spec fn tai_tham_chunk_0() -> Seq<SRange> {
    seq![(0x1A20int, 0x1A5Eint), (0x1A60int, 0x1A7Cint), (0x1A7Fint, 0x1A89int), (0x1A90int, 0x1A99int), (0x1AA0int, 0x1AADint)]
}

/// The ranges of the script Tai_Tham.
pub open spec fn tai_tham_ranges() -> Seq<SRange> {
    tai_tham_chunk_0()
}

proof fn lemma_tai_tham_canonical()
    ensures
        canonical(tai_tham_ranges()),
{
    reveal_with_fuel(canonical, 9);
    assert(canonical(tai_tham_chunk_0()));
}

fn tai_tham_class() -> (v: Vec<ClassUnicodeRange>)
    ensures
        rview(v@) == tai_tham_ranges(),
{
    let mut v: Vec<ClassUnicodeRange> = Vec::new();
    push_range(&mut v, '\u{1A20}', '\u{1A5E}');
    push_range(&mut v, '\u{1A60}', '\u{1A7C}');
    push_range(&mut v, '\u{1A7F}', '\u{1A89}');
    push_range(&mut v, '\u{1A90}', '\u{1A99}');
    push_range(&mut v, '\u{1AA0}', '\u{1AAD}');
    assert(rview(v@) =~= tai_tham_ranges());
    v
}

pub open spec fn tai_viet_chunk_0() -> Seq<SRange> {
    seq![(0xAA80int, 0xAAC2int), (0xAADBint, 0xAADFint)]
}

/// The ranges of the script Tai_Viet.
pub open spec fn tai_viet_ranges() -> Seq<SRange> {
    tai_viet_chunk_0()
}

proof fn lemma_tai_viet_canonical()
    ensures
        canonical(tai_viet_ranges()),
{
    reveal_with_fuel(canonical, 9);
    assert(canonical(tai_viet_chunk_0()));
}

fn tai_viet_class() -> (v: Vec<ClassUnicodeRange>)
    ensures
        rview(v@) == tai_viet_ranges(),
{
    let mut v: Vec<ClassUnicodeRange> = Vec::new();
    push_range(&mut v, '\u{AA80}', '\u{AAC2}');
    push_range(&mut v, '\u{AADB}', '\u{AADF}');
    assert(rview(v@) =~= tai_viet_ranges());
    v
}

pub open spec fn takri_chunk_0() -> Seq<SRange> {
    seq![(0x11680int, 0x116B9int), (0x116C0int, 0x116C9int)]
}

/// The ranges of the script Takri.
pub open spec fn takri_ranges() -> Seq<SRange> {
    takri_chunk_0()
}

proof fn lemma_takri_canonical()
    ensures
        canonical(takri_ranges()),
{
    reveal_with_fuel(canonical, 9);
    assert(canonical(takri_chunk_0()));
}

fn takri_class() -> (v: Vec<ClassUnicodeRange>)
    ensures
        rview(v@) == takri_ranges(),
{
    let mut v: Vec<ClassUnicodeRange> = Vec::new();
    push_range(&mut v, '\u{11680}', '\u{116B9}');
    push_range(&mut v, '\u{116C0}', '\u{116C9}');
    assert(rview(v@) =~= takri_ranges());
    v
}

pub open spec fn tamil_chunk_0() -> Seq<SRange> {
    seq![(0xB82int, 0xB83int), (0xB85int, 0xB8Aint), (0xB8Eint, 0xB90int), (0xB92int, 0xB95int), (0xB99int, 0xB9Aint), (0xB9Cint, 0xB9Cint), (0xB9Eint, 0xB9Fint), (0xBA3int, 0xBA4int)]
}

pub open spec fn tamil_chunk_1() -> Seq<SRange> {
    seq![(0xBA8int, 0xBAAint), (0xBAEint, 0xBB9int), (0xBBEint, 0xBC2int), (0xBC6int, 0xBC8int), (0xBCAint, 0xBCDint), (0xBD0int, 0xBD0int), (0xBD7int, 0xBD7int), (0xBE6int, 0xBFAint)]
}

pub open spec fn tamil_chunk_2() -> Seq<SRange> {
    seq![(0x11FC0int, 0x11FF1int), (0x11FFFint, 0x11FFFint)]
}

/// The ranges of the script Tamil.
pub open spec fn tamil_ranges() -> Seq<SRange> {
    tamil_chunk_0() + tamil_chunk_1() + tamil_chunk_2()
}

proof fn lemma_tamil_canonical()
    ensures
        canonical(tamil_ranges()),
{
    reveal_with_fuel(canonical, 9);
    assert(canonical(tamil_chunk_0()));
    assert(canonical(tamil_chunk_1()));
    assert(canonical(tamil_chunk_2()));
    lemma_canonical_append(tamil_chunk_0(), tamil_chunk_1());
    lemma_canonical_append(tamil_chunk_0() + tamil_chunk_1(), tamil_chunk_2());
}

fn tamil_class() -> (v: Vec<ClassUnicodeRange>)
    ensures
        rview(v@) == tamil_ranges(),
{
    let mut v: Vec<ClassUnicodeRange> = Vec::new();
    push_range(&mut v, '\u{B82}', '\u{B83}');
    push_range(&mut v, '\u{B85}', '\u{B8A}');
    push_range(&mut v, '\u{B8E}', '\u{B90}');
    push_range(&mut v, '\u{B92}', '\u{B95}');
    push_range(&mut v, '\u{B99}', '\u{B9A}');
    push_range(&mut v, '\u{B9C}', '\u{B9C}');
    push_range(&mut v, '\u{B9E}', '\u{B9F}');
    push_range(&mut v, '\u{BA3}', '\u{BA4}');
    push_range(&mut v, '\u{BA8}', '\u{BAA}');
    push_range(&mut v, '\u{BAE}', '\u{BB9}');
    push_range(&mut v, '\u{BBE}', '\u{BC2}');
    push_range(&mut v, '\u{BC6}', '\u{BC8}');
    push_range(&mut v, '\u{BCA}', '\u{BCD}');
    push_range(&mut v, '\u{BD0}', '\u{BD0}');
    push_range(&mut v, '\u{BD7}', '\u{BD7}');
    push_range(&mut v, '\u{BE6}', '\u{BFA}');
    push_range(&mut v, '\u{11FC0}', '\u{11FF1}');
    push_range(&mut v, '\u{11FFF}', '\u{11FFF}');
    assert(rview(v@) =~= tamil_ranges());
    v
}

pub open spec fn tangsa_chunk_0() -> Seq<SRange> {
    seq![(0x16A70int, 0x16ABEint), (0x16AC0int, 0x16AC9int)]
}

/// The ranges of the script Tangsa.
pub open spec fn tangsa_ranges() -> Seq<SRange> {
    tangsa_chunk_0()
}

proof fn lemma_tangsa_canonical()
    ensures
        canonical(tangsa_ranges()),
{
    reveal_with_fuel(canonical, 9);
    assert(canonical(tangsa_chunk_0()));
}

fn tangsa_class() -> (v: Vec<ClassUnicodeRange>)
    ensures
        rview(v@) == tangsa_ranges(),
{
    let mut v: Vec<ClassUnicodeRange> = Vec::new();
    push_range(&mut v, '\u{16A70}', '\u{16ABE}');
    push_range(&mut v, '\u{16AC0}', '\u{16AC9}');
    assert(rview(v@) =~= tangsa_ranges());
    v
}

pub open spec fn tangut_chunk_0() -> Seq<SRange> {
    seq![(0x16FE0int, 0x16FE0int), (0x17000int, 0x187F7int), (0x18800int, 0x18AFFint), (0x18D00int, 0x18D08int)]
}

/// The ranges of the script Tangut.
pub open spec fn tangut_ranges() -> Seq<SRange> {
    tangut_chunk_0()
}

proof fn lemma_tangut_canonical()
    ensures
        canonical(tangut_ranges()),
{
    reveal_with_fuel(canonical, 9);
    assert(canonical(tangut_chunk_0()));
}

fn tangut_class() -> (v: Vec<ClassUnicodeRange>)
    ensures
        rview(v@) == tangut_ranges(),
{
    let mut v: Vec<ClassUnicodeRange> = Vec::new();
    push_range(&mut v, '\u{16FE0}', '\u{16FE0}');
    push_range(&mut v, '\u{17000}', '\u{187F7}');
    push_range(&mut v, '\u{18800}', '\u{18AFF}');
    push_range(&mut v, '\u{18D00}', '\u{18D08}');
    assert(rview(v@) =~= tangut_ranges());
    v
}

pub open spec fn telugu_chunk_0() -> Seq<SRange> {
    seq![(0xC00int, 0xC0Cint), (0xC0Eint, 0xC10int), (0xC12int, 0xC28int), (0xC2Aint, 0xC39int), (0xC3Cint, 0xC44int), (0xC46int, 0xC48int), (0xC4Aint, 0xC4Dint), (0xC55int, 0xC56int)]
}

pub open spec fn telugu_chunk_1() -> Seq<SRange> {
    seq![(0xC58int, 0xC5Aint), (0xC5Dint, 0xC5Dint), (0xC60int, 0xC63int), (0xC66int, 0xC6Fint), (0xC77int, 0xC7Fint)]
}

/// The ranges of the script Telugu.
pub open spec fn telugu_ranges() -> Seq<SRange> {
    telugu_chunk_0() + telugu_chunk_1()
}

proof fn lemma_telugu_canonical()
    ensures
        canonical(telugu_ranges()),
{
    reveal_with_fuel(canonical, 9);
    assert(canonical(telugu_chunk_0()));
    assert(canonical(telugu_chunk_1()));
    lemma_canonical_append(telugu_chunk_0(), telugu_chunk_1());
}

fn telugu_class() -> (v: Vec<ClassUnicodeRange>)
    ensures
        rview(v@) == telugu_ranges(),
{
    let mut v: Vec<ClassUnicodeRange> = Vec::new();
    push_range(&mut v, '\u{C00}', '\u{C0C}');
    push_range(&mut v, '\u{C0E}', '\u{C10}');
    push_range(&mut v, '\u{C12}', '\u{C28}');
    push_range(&mut v, '\u{C2A}', '\u{C39}');
    push_range(&mut v, '\u{C3C}', '\u{C44}');
    push_range(&mut v, '\u{C46}', '\u{C48}');
    push_range(&mut v, '\u{C4A}', '\u{C4D}');
    push_range(&mut v, '\u{C55}', '\u{C56}');
    push_range(&mut v, '\u{C58}', '\u{C5A}');
    push_range(&mut v, '\u{C5D}', '\u{C5D}');
    push_range(&mut v, '\u{C60}', '\u{C63}');
    push_range(&mut v, '\u{C66}', '\u{C6F}');
    push_range(&mut v, '\u{C77}', '\u{C7F}');
    assert(rview(v@) =~= telugu_ranges());
    v
}

pub open spec fn thaana_chunk_0() -> Seq<SRange> {
    seq![(0x780int, 0x7B1int)]
}

/// The ranges of the script Thaana.
pub open spec fn thaana_ranges() -> Seq<SRange> {
    thaana_chunk_0()
}

proof fn lemma_thaana_canonical()
    ensures
        canonical(thaana_ranges()),
{
    reveal_with_fuel(canonical, 9);
    assert(canonical(thaana_chunk_0()));
}

fn thaana_class() -> (v: Vec<ClassUnicodeRange>)
    ensures
        rview(v@) == thaana_ranges(),
{
    let mut v: Vec<ClassUnicodeRange> = Vec::new();
    push_range(&mut v, '\u{780}', '\u{7B1}');
    assert(rview(v@) =~= thaana_ranges());
    v
}

pub open spec fn thai_chunk_0() -> Seq<SRange> {
    seq![(0xE01int, 0xE3Aint), (0xE40int, 0xE5Bint)]
}

/// The ranges of the script Thai.
pub open spec fn thai_ranges() -> Seq<SRange> {
    thai_chunk_0()
}

proof fn lemma_thai_canonical()
    ensures
        canonical(thai_ranges()),
{
    reveal_with_fuel(canonical, 9);
    assert(canonical(thai_chunk_0()));
}

fn thai_class() -> (v: Vec<ClassUnicodeRange>)
    ensures
        rview(v@) == thai_ranges(),
{
    let mut v: Vec<ClassUnicodeRange> = Vec::new();
    push_range(&mut v, '\u{E01}', '\u{E3A}');
    push_range(&mut v, '\u{E40}', '\u{E5B}');
    assert(rview(v@) =~= thai_ranges());
    v
}

pub open spec fn tibetan_chunk_0() -> Seq<SRange> {
    seq![(0xF00int, 0xF47int), (0xF49int, 0xF6Cint), (0xF71int, 0xF97int), (0xF99int, 0xFBCint), (0xFBEint, 0xFCCint), (0xFCEint, 0xFD4int), (0xFD9int, 0xFDAint)]
}

/// The ranges of the script Tibetan.
pub open spec fn tibetan_ranges() -> Seq<SRange> {
    tibetan_chunk_0()
}

proof fn lemma_tibetan_canonical()
    ensures
        canonical(tibetan_ranges()),
{
    reveal_with_fuel(canonical, 9);
    assert(canonical(tibetan_chunk_0()));
}

fn tibetan_class() -> (v: Vec<ClassUnicodeRange>)
    ensures
        rview(v@) == tibetan_ranges(),
{
    let mut v: Vec<ClassUnicodeRange> = Vec::new();
    push_range(&mut v, '\u{F00}', '\u{F47}');
    push_range(&mut v, '\u{F49}', '\u{F6C}');
    push_range(&mut v, '\u{F71}', '\u{F97}');
    push_range(&mut v, '\u{F99}', '\u{FBC}');
    push_range(&mut v, '\u{FBE}', '\u{FCC}');
    push_range(&mut v, '\u{FCE}', '\u{FD4}');
    push_range(&mut v, '\u{FD9}', '\u{FDA}');
    assert(rview(v@) =~= tibetan_ranges());
    v
}

pub open spec fn tifinagh_chunk_0() -> Seq<SRange> {
    seq![(0x2D30int, 0x2D67int), (0x2D6Fint, 0x2D70int), (0x2D7Fint, 0x2D7Fint)]
}

/// The ranges of the script Tifinagh.
pub open spec fn tifinagh_ranges() -> Seq<SRange> {
    tifinagh_chunk_0()
}

proof fn lemma_tifinagh_canonical()
    ensures
        canonical(tifinagh_ranges()),
{
    reveal_with_fuel(canonical, 9);
    assert(canonical(tifinagh_chunk_0()));
}

fn tifinagh_class() -> (v: Vec<ClassUnicodeRange>)
    ensures
        rview(v@) == tifinagh_ranges(),
{
    let mut v: Vec<ClassUnicodeRange> = Vec::new();
    push_range(&mut v, '\u{2D30}', '\u{2D67}');
    push_range(&mut v, '\u{2D6F}', '\u{2D70}');
    push_range(&mut v, '\u{2D7F}', '\u{2D7F}');
    assert(rview(v@) =~= tifinagh_ranges());
    v
}

pub open spec fn tirhuta_chunk_0() -> Seq<SRange> {
    seq![(0x11480int, 0x114C7int), (0x114D0int, 0x114D9int)]
}

/// The ranges of the script Tirhuta.
pub open spec fn tirhuta_ranges() -> Seq<SRange> {
    tirhuta_chunk_0()
}

proof fn lemma_tirhuta_canonical()
    ensures
        canonical(tirhuta_ranges()),
{
    reveal_with_fuel(canonical, 9);
    assert(canonical(tirhuta_chunk_0()));
}

fn tirhuta_class() -> (v: Vec<ClassUnicodeRange>)
    ensures
        rview(v@) == tirhuta_ranges(),
{
    let mut v: Vec<ClassUnicodeRange> = Vec::new();
    push_range(&mut v, '\u{11480}', '\u{114C7}');
    push_range(&mut v, '\u{114D0}', '\u{114D9}');
    assert(rview(v@) =~= tirhuta_ranges());
    v
}

pub open spec fn todhri_chunk_0() -> Seq<SRange> {
    seq![(0x105C0int, 0x105F3int)]
}

/// The ranges of the script Todhri.
pub open spec fn todhri_ranges() -> Seq<SRange> {
    todhri_chunk_0()
}

proof fn lemma_todhri_canonical()
    ensures
        canonical(todhri_ranges()),
{
    reveal_with_fuel(canonical, 9);
    assert(canonical(todhri_chunk_0()));
}

fn todhri_class() -> (v: Vec<ClassUnicodeRange>)
    ensures
        rview(v@) == todhri_ranges(),
{
    let mut v: Vec<ClassUnicodeRange> = Vec::new();
    push_range(&mut v, '\u{105C0}', '\u{105F3}');
    assert(rview(v@) =~= todhri_ranges());
    v
}

pub open spec fn toto_chunk_0() -> Seq<SRange> {
    seq![(0x1E290int, 0x1E2AEint)]
}

/// The ranges of the script Toto.
pub open spec fn toto_ranges() -> Seq<SRange> {
    toto_chunk_0()
}

proof fn lemma_toto_canonical()
    ensures
        canonical(toto_ranges()),
{
    reveal_with_fuel(canonical, 9);
    assert(canonical(toto_chunk_0()));
}

fn toto_class() -> (v: Vec<ClassUnicodeRange>)
    ensures
        rview(v@) == toto_ranges(),
{
    let mut v: Vec<ClassUnicodeRange> = Vec::new();
    push_range(&mut v, '\u{1E290}', '\u{1E2AE}');
    assert(rview(v@) =~= toto_ranges());
    v
}

pub open spec fn tulu_tigalari_chunk_0() -> Seq<SRange> {
    seq![(0x11380int, 0x11389int), (0x1138Bint, 0x1138Bint), (0x1138Eint, 0x1138Eint), (0x11390int, 0x113B5int), (0x113B7int, 0x113C0int), (0x113C2int, 0x113C2int), (0x113C5int, 0x113C5int), (0x113C7int, 0x113CAint)]
}

pub open spec fn tulu_tigalari_chunk_1() -> Seq<SRange> {
    seq![(0x113CCint, 0x113D5int), (0x113D7int, 0x113D8int), (0x113E1int, 0x113E2int)]
}

/// The ranges of the script Tulu_Tigalari.
pub open spec fn tulu_tigalari_ranges() -> Seq<SRange> {
    tulu_tigalari_chunk_0() + tulu_tigalari_chunk_1()
}

proof fn lemma_tulu_tigalari_canonical()
    ensures
        canonical(tulu_tigalari_ranges()),
{
    reveal_with_fuel(canonical, 9);
    assert(canonical(tulu_tigalari_chunk_0()));
    assert(canonical(tulu_tigalari_chunk_1()));
    lemma_canonical_append(tulu_tigalari_chunk_0(), tulu_tigalari_chunk_1());
}

fn tulu_tigalari_class() -> (v: Vec<ClassUnicodeRange>)
    ensures
        rview(v@) == tulu_tigalari_ranges(),
{
    let mut v: Vec<ClassUnicodeRange> = Vec::new();
    push_range(&mut v, '\u{11380}', '\u{11389}');
    push_range(&mut v, '\u{1138B}', '\u{1138B}');
    push_range(&mut v, '\u{1138E}', '\u{1138E}');
    push_range(&mut v, '\u{11390}', '\u{113B5}');
    push_range(&mut v, '\u{113B7}', '\u{113C0}');
    push_range(&mut v, '\u{113C2}', '\u{113C2}');
    push_range(&mut v, '\u{113C5}', '\u{113C5}');
    push_range(&mut v, '\u{113C7}', '\u{113CA}');
    push_range(&mut v, '\u{113CC}', '\u{113D5}');
    push_range(&mut v, '\u{113D7}', '\u{113D8}');
    push_range(&mut v, '\u{113E1}', '\u{113E2}');
    assert(rview(v@) =~= tulu_tigalari_ranges());
    v
}

pub open spec fn ugaritic_chunk_0() -> Seq<SRange> {
    seq![(0x10380int, 0x1039Dint), (0x1039Fint, 0x1039Fint)]
}

/// The ranges of the script Ugaritic.
pub open spec fn ugaritic_ranges() -> Seq<SRange> {
    ugaritic_chunk_0()
}

proof fn lemma_ugaritic_canonical()
    ensures
        canonical(ugaritic_ranges()),
{
    reveal_with_fuel(canonical, 9);
    assert(canonical(ugaritic_chunk_0()));
}

fn ugaritic_class() -> (v: Vec<ClassUnicodeRange>)
    ensures
        rview(v@) == ugaritic_ranges(),
{
    let mut v: Vec<ClassUnicodeRange> = Vec::new();
    push_range(&mut v, '\u{10380}', '\u{1039D}');
    push_range(&mut v, '\u{1039F}', '\u{1039F}');
    assert(rview(v@) =~= ugaritic_ranges());
    v
}

pub open spec fn vai_chunk_0() -> Seq<SRange> {
    seq![(0xA500int, 0xA62Bint)]
}

/// The ranges of the script Vai.
pub open spec fn vai_ranges() -> Seq<SRange> {
    vai_chunk_0()
}

proof fn lemma_vai_canonical()
    ensures
        canonical(vai_ranges()),
{
    reveal_with_fuel(canonical, 9);
    assert(canonical(vai_chunk_0()));
}

fn vai_class() -> (v: Vec<ClassUnicodeRange>)
    ensures
        rview(v@) == vai_ranges(),
{
    let mut v: Vec<ClassUnicodeRange> = Vec::new();
    push_range(&mut v, '\u{A500}', '\u{A62B}');
    assert(rview(v@) =~= vai_ranges());
    v
}

pub open spec fn vithkuqi_chunk_0() -> Seq<SRange> {
    seq![(0x10570int, 0x1057Aint), (0x1057Cint, 0x1058Aint), (0x1058Cint, 0x10592int), (0x10594int, 0x10595int), (0x10597int, 0x105A1int), (0x105A3int, 0x105B1int), (0x105B3int, 0x105B9int), (0x105BBint, 0x105BCint)]
}

/// The ranges of the script Vithkuqi.
pub open spec fn vithkuqi_ranges() -> Seq<SRange> {
    vithkuqi_chunk_0()
}

proof fn lemma_vithkuqi_canonical()
    ensures
        canonical(vithkuqi_ranges()),
{
    reveal_with_fuel(canonical, 9);
    assert(canonical(vithkuqi_chunk_0()));
}

fn vithkuqi_class() -> (v: Vec<ClassUnicodeRange>)
    ensures
        rview(v@) == vithkuqi_ranges(),
{
    let mut v: Vec<ClassUnicodeRange> = Vec::new();
    push_range(&mut v, '\u{10570}', '\u{1057A}');
    push_range(&mut v, '\u{1057C}', '\u{1058A}');
    push_range(&mut v, '\u{1058C}', '\u{10592}');
    push_range(&mut v, '\u{10594}', '\u{10595}');
    push_range(&mut v, '\u{10597}', '\u{105A1}');
    push_range(&mut v, '\u{105A3}', '\u{105B1}');
    push_range(&mut v, '\u{105B3}', '\u{105B9}');
    push_range(&mut v, '\u{105BB}', '\u{105BC}');
    assert(rview(v@) =~= vithkuqi_ranges());
    v
}

pub open spec fn wancho_chunk_0() -> Seq<SRange> {
    seq![(0x1E2C0int, 0x1E2F9int), (0x1E2FFint, 0x1E2FFint)]
}

/// The ranges of the script Wancho.
pub open spec fn wancho_ranges() -> Seq<SRange> {
    wancho_chunk_0()
}

proof fn lemma_wancho_canonical()
    ensures
        canonical(wancho_ranges()),
{
    reveal_with_fuel(canonical, 9);
    assert(canonical(wancho_chunk_0()));
}

fn wancho_class() -> (v: Vec<ClassUnicodeRange>)
    ensures
        rview(v@) == wancho_ranges(),
{
    let mut v: Vec<ClassUnicodeRange> = Vec::new();
    push_range(&mut v, '\u{1E2C0}', '\u{1E2F9}');
    push_range(&mut v, '\u{1E2FF}', '\u{1E2FF}');
    assert(rview(v@) =~= wancho_ranges());
    v
}

pub open spec fn warang_citi_chunk_0() -> Seq<SRange> {
    seq![(0x118A0int, 0x118F2int), (0x118FFint, 0x118FFint)]
}

/// The ranges of the script Warang_Citi.
pub open spec fn warang_citi_ranges() -> Seq<SRange> {
    warang_citi_chunk_0()
}

proof fn lemma_warang_citi_canonical()
    ensures
        canonical(warang_citi_ranges()),
{
    reveal_with_fuel(canonical, 9);
    assert(canonical(warang_citi_chunk_0()));
}

fn warang_citi_class() -> (v: Vec<ClassUnicodeRange>)
    ensures
        rview(v@) == warang_citi_ranges(),
{
    let mut v: Vec<ClassUnicodeRange> = Vec::new();
    push_range(&mut v, '\u{118A0}', '\u{118F2}');
    push_range(&mut v, '\u{118FF}', '\u{118FF}');
    assert(rview(v@) =~= warang_citi_ranges());
    v
}

pub open spec fn yezidi_chunk_0() -> Seq<SRange> {
    seq![(0x10E80int, 0x10EA9int), (0x10EABint, 0x10EADint), (0x10EB0int, 0x10EB1int)]
}

/// The ranges of the script Yezidi.
pub open spec fn yezidi_ranges() -> Seq<SRange> {
    yezidi_chunk_0()
}

proof fn lemma_yezidi_canonical()
    ensures
        canonical(yezidi_ranges()),
{
    reveal_with_fuel(canonical, 9);
    assert(canonical(yezidi_chunk_0()));
}

fn yezidi_class() -> (v: Vec<ClassUnicodeRange>)
    ensures
        rview(v@) == yezidi_ranges(),
{
    let mut v: Vec<ClassUnicodeRange> = Vec::new();
    push_range(&mut v, '\u{10E80}', '\u{10EA9}');
    push_range(&mut v, '\u{10EAB}', '\u{10EAD}');
    push_range(&mut v, '\u{10EB0}', '\u{10EB1}');
    assert(rview(v@) =~= yezidi_ranges());
    v
}

pub open spec fn yi_chunk_0() -> Seq<SRange> {
    seq![(0xA000int, 0xA48Cint), (0xA490int, 0xA4C6int)]
}

/// The ranges of the script Yi.
pub open spec fn yi_ranges() -> Seq<SRange> {
    yi_chunk_0()
}

proof fn lemma_yi_canonical()
    ensures
        canonical(yi_ranges()),
{
    reveal_with_fuel(canonical, 9);
    assert(canonical(yi_chunk_0()));
}

fn yi_class() -> (v: Vec<ClassUnicodeRange>)
    ensures
        rview(v@) == yi_ranges(),
{
    let mut v: Vec<ClassUnicodeRange> = Vec::new();
    push_range(&mut v, '\u{A000}', '\u{A48C}');
    push_range(&mut v, '\u{A490}', '\u{A4C6}');
    assert(rview(v@) =~= yi_ranges());
    v
}

pub open spec fn zanabazar_square_chunk_0() -> Seq<SRange> {
    seq![(0x11A00int, 0x11A47int)]
}

/// The ranges of the script Zanabazar_Square.
pub open spec fn zanabazar_square_ranges() -> Seq<SRange> {
    zanabazar_square_chunk_0()
}

proof fn lemma_zanabazar_square_canonical()
    ensures
        canonical(zanabazar_square_ranges()),
{
    reveal_with_fuel(canonical, 9);
    assert(canonical(zanabazar_square_chunk_0()));
}

fn zanabazar_square_class() -> (v: Vec<ClassUnicodeRange>)
    ensures
        rview(v@) == zanabazar_square_ranges(),
{
    let mut v: Vec<ClassUnicodeRange> = Vec::new();
    push_range(&mut v, '\u{11A00}', '\u{11A47}');
    assert(rview(v@) =~= zanabazar_square_ranges());
    v
}

/// The ranges of a script.
pub open spec fn script_ranges(s: Script) -> Seq<SRange> {
    match s {
        Script::Adlam => adlam_ranges(),
        Script::Ahom => ahom_ranges(),
        Script::AnatolianHieroglyphs => anatolian_hieroglyphs_ranges(),
        Script::Arabic => arabic_ranges(),
        Script::Armenian => armenian_ranges(),
        Script::Avestan => avestan_ranges(),
        Script::Balinese => balinese_ranges(),
        Script::Bamum => bamum_ranges(),
        Script::BassaVah => bassa_vah_ranges(),
        Script::Batak => batak_ranges(),
        Script::Bengali => bengali_ranges(),
        Script::Bhaiksuki => bhaiksuki_ranges(),
        Script::Bopomofo => bopomofo_ranges(),
        Script::Brahmi => brahmi_ranges(),
        Script::Braille => braille_ranges(),
        Script::Buginese => buginese_ranges(),
        Script::Buhid => buhid_ranges(),
        Script::CanadianAboriginal => canadian_aboriginal_ranges(),
        Script::Carian => carian_ranges(),
        Script::CaucasianAlbanian => caucasian_albanian_ranges(),
        Script::Chakma => chakma_ranges(),
        Script::Cham => cham_ranges(),
        Script::Cherokee => cherokee_ranges(),
        Script::Chorasmian => chorasmian_ranges(),
        Script::Common => common_ranges(),
        Script::Coptic => coptic_ranges(),
        Script::Cuneiform => cuneiform_ranges(),
        Script::Cypriot => cypriot_ranges(),
        Script::CyproMinoan => cypro_minoan_ranges(),
        Script::Cyrillic => cyrillic_ranges(),
        Script::Deseret => deseret_ranges(),
        Script::Devanagari => devanagari_ranges(),
        Script::DivesAkuru => dives_akuru_ranges(),
        Script::Dogra => dogra_ranges(),
        Script::Duployan => duployan_ranges(),
        Script::EgyptianHieroglyphs => egyptian_hieroglyphs_ranges(),
        Script::Elbasan => elbasan_ranges(),
        Script::Elymaic => elymaic_ranges(),
        Script::Ethiopic => ethiopic_ranges(),
        Script::Garay => garay_ranges(),
        Script::Georgian => georgian_ranges(),
        Script::Glagolitic => glagolitic_ranges(),
        Script::Gothic => gothic_ranges(),
        Script::Grantha => grantha_ranges(),
        Script::Greek => greek_ranges(),
        Script::Gujarati => gujarati_ranges(),
        Script::GunjalaGondi => gunjala_gondi_ranges(),
        Script::Gurmukhi => gurmukhi_ranges(),
        Script::GurungKhema => gurung_khema_ranges(),
        Script::Han => han_ranges(),
        Script::Hangul => hangul_ranges(),
        Script::HanifiRohingya => hanifi_rohingya_ranges(),
        Script::Hanunoo => hanunoo_ranges(),
        Script::Hatran => hatran_ranges(),
        Script::Hebrew => hebrew_ranges(),
        Script::Hiragana => hiragana_ranges(),
        Script::ImperialAramaic => imperial_aramaic_ranges(),
        Script::Inherited => inherited_ranges(),
        Script::InscriptionalPahlavi => inscriptional_pahlavi_ranges(),
        Script::InscriptionalParthian => inscriptional_parthian_ranges(),
        Script::Javanese => javanese_ranges(),
        Script::Kaithi => kaithi_ranges(),
        Script::Kannada => kannada_ranges(),
        Script::Katakana => katakana_ranges(),
        Script::Kawi => kawi_ranges(),
        Script::KayahLi => kayah_li_ranges(),
        Script::Kharoshthi => kharoshthi_ranges(),
        Script::KhitanSmallScript => khitan_small_script_ranges(),
        Script::Khmer => khmer_ranges(),
        Script::Khojki => khojki_ranges(),
        Script::Khudawadi => khudawadi_ranges(),
        Script::KiratRai => kirat_rai_ranges(),
        Script::Lao => lao_ranges(),
        Script::Latin => latin_ranges(),
        Script::Lepcha => lepcha_ranges(),
        Script::Limbu => limbu_ranges(),
        Script::LinearA => linear_a_ranges(),
        Script::LinearB => linear_b_ranges(),
        Script::Lisu => lisu_ranges(),
        Script::Lycian => lycian_ranges(),
        Script::Lydian => lydian_ranges(),
        Script::Mahajani => mahajani_ranges(),
        Script::Makasar => makasar_ranges(),
        Script::Malayalam => malayalam_ranges(),
        Script::Mandaic => mandaic_ranges(),
        Script::Manichaean => manichaean_ranges(),
        Script::Marchen => marchen_ranges(),
        Script::MasaramGondi => masaram_gondi_ranges(),
        Script::Medefaidrin => medefaidrin_ranges(),
        Script::MeeteiMayek => meetei_mayek_ranges(),
        Script::MendeKikakui => mende_kikakui_ranges(),
        Script::MeroiticCursive => meroitic_cursive_ranges(),
        Script::MeroiticHieroglyphs => meroitic_hieroglyphs_ranges(),
        Script::Miao => miao_ranges(),
        Script::Modi => modi_ranges(),
        Script::Mongolian => mongolian_ranges(),
        Script::Mro => mro_ranges(),
        Script::Multani => multani_ranges(),
        Script::Myanmar => myanmar_ranges(),
        Script::Nabataean => nabataean_ranges(),
        Script::NagMundari => nag_mundari_ranges(),
        Script::Nandinagari => nandinagari_ranges(),
        Script::NewTaiLue => new_tai_lue_ranges(),
        Script::Newa => newa_ranges(),
        Script::Nko => nko_ranges(),
        Script::Nushu => nushu_ranges(),
        Script::NyiakengPuachueHmong => nyiakeng_puachue_hmong_ranges(),
        Script::Ogham => ogham_ranges(),
        Script::OlChiki => ol_chiki_ranges(),
        Script::OlOnal => ol_onal_ranges(),
        Script::OldHungarian => old_hungarian_ranges(),
        Script::OldItalic => old_italic_ranges(),
        Script::OldNorthArabian => old_north_arabian_ranges(),
        Script::OldPermic => old_permic_ranges(),
        Script::OldPersian => old_persian_ranges(),
        Script::OldSogdian => old_sogdian_ranges(),
        Script::OldSouthArabian => old_south_arabian_ranges(),
        Script::OldTurkic => old_turkic_ranges(),
        Script::OldUyghur => old_uyghur_ranges(),
        Script::Oriya => oriya_ranges(),
        Script::Osage => osage_ranges(),
        Script::Osmanya => osmanya_ranges(),
        Script::PahawhHmong => pahawh_hmong_ranges(),
        Script::Palmyrene => palmyrene_ranges(),
        Script::PauCinHau => pau_cin_hau_ranges(),
        Script::PhagsPa => phags_pa_ranges(),
        Script::Phoenician => phoenician_ranges(),
        Script::PsalterPahlavi => psalter_pahlavi_ranges(),
        Script::Rejang => rejang_ranges(),
        Script::Runic => runic_ranges(),
        Script::Samaritan => samaritan_ranges(),
        Script::Saurashtra => saurashtra_ranges(),
        Script::Sharada => sharada_ranges(),
        Script::Shavian => shavian_ranges(),
        Script::Siddham => siddham_ranges(),
        Script::SignWriting => signwriting_ranges(),
        Script::Sinhala => sinhala_ranges(),
        Script::Sogdian => sogdian_ranges(),
        Script::SoraSompeng => sora_sompeng_ranges(),
        Script::Soyombo => soyombo_ranges(),
        Script::Sundanese => sundanese_ranges(),
        Script::Sunuwar => sunuwar_ranges(),
        Script::SylotiNagri => syloti_nagri_ranges(),
        Script::Syriac => syriac_ranges(),
        Script::Tagalog => tagalog_ranges(),
        Script::Tagbanwa => tagbanwa_ranges(),
        Script::TaiLe => tai_le_ranges(),
        Script::TaiTham => tai_tham_ranges(),
        Script::TaiViet => tai_viet_ranges(),
        Script::Takri => takri_ranges(),
        Script::Tamil => tamil_ranges(),
        Script::Tangsa => tangsa_ranges(),
        Script::Tangut => tangut_ranges(),
        Script::Telugu => telugu_ranges(),
        Script::Thaana => thaana_ranges(),
        Script::Thai => thai_ranges(),
        Script::Tibetan => tibetan_ranges(),
        Script::Tifinagh => tifinagh_ranges(),
        Script::Tirhuta => tirhuta_ranges(),
        Script::Todhri => todhri_ranges(),
        Script::Toto => toto_ranges(),
        Script::TuluTigalari => tulu_tigalari_ranges(),
        Script::Ugaritic => ugaritic_ranges(),
        Script::Vai => vai_ranges(),
        Script::Vithkuqi => vithkuqi_ranges(),
        Script::Wancho => wancho_ranges(),
        Script::WarangCiti => warang_citi_ranges(),
        Script::Yezidi => yezidi_ranges(),
        Script::Yi => yi_ranges(),
        Script::ZanabazarSquare => zanabazar_square_ranges(),
    }
}

/// A script is a canonical class.
pub proof fn lemma_script_canonical(s: Script)
    ensures
        canonical(script_ranges(s)),
{
    match s {
        Script::Adlam => lemma_adlam_canonical(),
        Script::Ahom => lemma_ahom_canonical(),
        Script::AnatolianHieroglyphs => lemma_anatolian_hieroglyphs_canonical(),
        Script::Arabic => lemma_arabic_canonical(),
        Script::Armenian => lemma_armenian_canonical(),
        Script::Avestan => lemma_avestan_canonical(),
        Script::Balinese => lemma_balinese_canonical(),
        Script::Bamum => lemma_bamum_canonical(),
        Script::BassaVah => lemma_bassa_vah_canonical(),
        Script::Batak => lemma_batak_canonical(),
        Script::Bengali => lemma_bengali_canonical(),
        Script::Bhaiksuki => lemma_bhaiksuki_canonical(),
        Script::Bopomofo => lemma_bopomofo_canonical(),
        Script::Brahmi => lemma_brahmi_canonical(),
        Script::Braille => lemma_braille_canonical(),
        Script::Buginese => lemma_buginese_canonical(),
        Script::Buhid => lemma_buhid_canonical(),
        Script::CanadianAboriginal => lemma_canadian_aboriginal_canonical(),
        Script::Carian => lemma_carian_canonical(),
        Script::CaucasianAlbanian => lemma_caucasian_albanian_canonical(),
        Script::Chakma => lemma_chakma_canonical(),
        Script::Cham => lemma_cham_canonical(),
        Script::Cherokee => lemma_cherokee_canonical(),
        Script::Chorasmian => lemma_chorasmian_canonical(),
        Script::Common => lemma_common_canonical(),
        Script::Coptic => lemma_coptic_canonical(),
        Script::Cuneiform => lemma_cuneiform_canonical(),
        Script::Cypriot => lemma_cypriot_canonical(),
        Script::CyproMinoan => lemma_cypro_minoan_canonical(),
        Script::Cyrillic => lemma_cyrillic_canonical(),
        Script::Deseret => lemma_deseret_canonical(),
        Script::Devanagari => lemma_devanagari_canonical(),
        Script::DivesAkuru => lemma_dives_akuru_canonical(),
        Script::Dogra => lemma_dogra_canonical(),
        Script::Duployan => lemma_duployan_canonical(),
        Script::EgyptianHieroglyphs => lemma_egyptian_hieroglyphs_canonical(),
        Script::Elbasan => lemma_elbasan_canonical(),
        Script::Elymaic => lemma_elymaic_canonical(),
        Script::Ethiopic => lemma_ethiopic_canonical(),
        Script::Garay => lemma_garay_canonical(),
        Script::Georgian => lemma_georgian_canonical(),
        Script::Glagolitic => lemma_glagolitic_canonical(),
        Script::Gothic => lemma_gothic_canonical(),
        Script::Grantha => lemma_grantha_canonical(),
        Script::Greek => lemma_greek_canonical(),
        Script::Gujarati => lemma_gujarati_canonical(),
        Script::GunjalaGondi => lemma_gunjala_gondi_canonical(),
        Script::Gurmukhi => lemma_gurmukhi_canonical(),
        Script::GurungKhema => lemma_gurung_khema_canonical(),
        Script::Han => lemma_han_canonical(),
        Script::Hangul => lemma_hangul_canonical(),
        Script::HanifiRohingya => lemma_hanifi_rohingya_canonical(),
        Script::Hanunoo => lemma_hanunoo_canonical(),
        Script::Hatran => lemma_hatran_canonical(),
        Script::Hebrew => lemma_hebrew_canonical(),
        Script::Hiragana => lemma_hiragana_canonical(),
        Script::ImperialAramaic => lemma_imperial_aramaic_canonical(),
        Script::Inherited => lemma_inherited_canonical(),
        Script::InscriptionalPahlavi => lemma_inscriptional_pahlavi_canonical(),
        Script::InscriptionalParthian => lemma_inscriptional_parthian_canonical(),
        Script::Javanese => lemma_javanese_canonical(),
        Script::Kaithi => lemma_kaithi_canonical(),
        Script::Kannada => lemma_kannada_canonical(),
        Script::Katakana => lemma_katakana_canonical(),
        Script::Kawi => lemma_kawi_canonical(),
        Script::KayahLi => lemma_kayah_li_canonical(),
        Script::Kharoshthi => lemma_kharoshthi_canonical(),
        Script::KhitanSmallScript => lemma_khitan_small_script_canonical(),
        Script::Khmer => lemma_khmer_canonical(),
        Script::Khojki => lemma_khojki_canonical(),
        Script::Khudawadi => lemma_khudawadi_canonical(),
        Script::KiratRai => lemma_kirat_rai_canonical(),
        Script::Lao => lemma_lao_canonical(),
        Script::Latin => lemma_latin_canonical(),
        Script::Lepcha => lemma_lepcha_canonical(),
        Script::Limbu => lemma_limbu_canonical(),
        Script::LinearA => lemma_linear_a_canonical(),
        Script::LinearB => lemma_linear_b_canonical(),
        Script::Lisu => lemma_lisu_canonical(),
        Script::Lycian => lemma_lycian_canonical(),
        Script::Lydian => lemma_lydian_canonical(),
        Script::Mahajani => lemma_mahajani_canonical(),
        Script::Makasar => lemma_makasar_canonical(),
        Script::Malayalam => lemma_malayalam_canonical(),
        Script::Mandaic => lemma_mandaic_canonical(),
        Script::Manichaean => lemma_manichaean_canonical(),
        Script::Marchen => lemma_marchen_canonical(),
        Script::MasaramGondi => lemma_masaram_gondi_canonical(),
        Script::Medefaidrin => lemma_medefaidrin_canonical(),
        Script::MeeteiMayek => lemma_meetei_mayek_canonical(),
        Script::MendeKikakui => lemma_mende_kikakui_canonical(),
        Script::MeroiticCursive => lemma_meroitic_cursive_canonical(),
        Script::MeroiticHieroglyphs => lemma_meroitic_hieroglyphs_canonical(),
        Script::Miao => lemma_miao_canonical(),
        Script::Modi => lemma_modi_canonical(),
        Script::Mongolian => lemma_mongolian_canonical(),
        Script::Mro => lemma_mro_canonical(),
        Script::Multani => lemma_multani_canonical(),
        Script::Myanmar => lemma_myanmar_canonical(),
        Script::Nabataean => lemma_nabataean_canonical(),
        Script::NagMundari => lemma_nag_mundari_canonical(),
        Script::Nandinagari => lemma_nandinagari_canonical(),
        Script::NewTaiLue => lemma_new_tai_lue_canonical(),
        Script::Newa => lemma_newa_canonical(),
        Script::Nko => lemma_nko_canonical(),
        Script::Nushu => lemma_nushu_canonical(),
        Script::NyiakengPuachueHmong => lemma_nyiakeng_puachue_hmong_canonical(),
        Script::Ogham => lemma_ogham_canonical(),
        Script::OlChiki => lemma_ol_chiki_canonical(),
        Script::OlOnal => lemma_ol_onal_canonical(),
        Script::OldHungarian => lemma_old_hungarian_canonical(),
        Script::OldItalic => lemma_old_italic_canonical(),
        Script::OldNorthArabian => lemma_old_north_arabian_canonical(),
        Script::OldPermic => lemma_old_permic_canonical(),
        Script::OldPersian => lemma_old_persian_canonical(),
        Script::OldSogdian => lemma_old_sogdian_canonical(),
        Script::OldSouthArabian => lemma_old_south_arabian_canonical(),
        Script::OldTurkic => lemma_old_turkic_canonical(),
        Script::OldUyghur => lemma_old_uyghur_canonical(),
        Script::Oriya => lemma_oriya_canonical(),
        Script::Osage => lemma_osage_canonical(),
        Script::Osmanya => lemma_osmanya_canonical(),
        Script::PahawhHmong => lemma_pahawh_hmong_canonical(),
        Script::Palmyrene => lemma_palmyrene_canonical(),
        Script::PauCinHau => lemma_pau_cin_hau_canonical(),
        Script::PhagsPa => lemma_phags_pa_canonical(),
        Script::Phoenician => lemma_phoenician_canonical(),
        Script::PsalterPahlavi => lemma_psalter_pahlavi_canonical(),
        Script::Rejang => lemma_rejang_canonical(),
        Script::Runic => lemma_runic_canonical(),
        Script::Samaritan => lemma_samaritan_canonical(),
        Script::Saurashtra => lemma_saurashtra_canonical(),
        Script::Sharada => lemma_sharada_canonical(),
        Script::Shavian => lemma_shavian_canonical(),
        Script::Siddham => lemma_siddham_canonical(),
        Script::SignWriting => lemma_signwriting_canonical(),
        Script::Sinhala => lemma_sinhala_canonical(),
        Script::Sogdian => lemma_sogdian_canonical(),
        Script::SoraSompeng => lemma_sora_sompeng_canonical(),
        Script::Soyombo => lemma_soyombo_canonical(),
        Script::Sundanese => lemma_sundanese_canonical(),
        Script::Sunuwar => lemma_sunuwar_canonical(),
        Script::SylotiNagri => lemma_syloti_nagri_canonical(),
        Script::Syriac => lemma_syriac_canonical(),
        Script::Tagalog => lemma_tagalog_canonical(),
        Script::Tagbanwa => lemma_tagbanwa_canonical(),
        Script::TaiLe => lemma_tai_le_canonical(),
        Script::TaiTham => lemma_tai_tham_canonical(),
        Script::TaiViet => lemma_tai_viet_canonical(),
        Script::Takri => lemma_takri_canonical(),
        Script::Tamil => lemma_tamil_canonical(),
        Script::Tangsa => lemma_tangsa_canonical(),
        Script::Tangut => lemma_tangut_canonical(),
        Script::Telugu => lemma_telugu_canonical(),
        Script::Thaana => lemma_thaana_canonical(),
        Script::Thai => lemma_thai_canonical(),
        Script::Tibetan => lemma_tibetan_canonical(),
        Script::Tifinagh => lemma_tifinagh_canonical(),
        Script::Tirhuta => lemma_tirhuta_canonical(),
        Script::Todhri => lemma_todhri_canonical(),
        Script::Toto => lemma_toto_canonical(),
        Script::TuluTigalari => lemma_tulu_tigalari_canonical(),
        Script::Ugaritic => lemma_ugaritic_canonical(),
        Script::Vai => lemma_vai_canonical(),
        Script::Vithkuqi => lemma_vithkuqi_canonical(),
        Script::Wancho => lemma_wancho_canonical(),
        Script::WarangCiti => lemma_warang_citi_canonical(),
        Script::Yezidi => lemma_yezidi_canonical(),
        Script::Yi => lemma_yi_canonical(),
        Script::ZanabazarSquare => lemma_zanabazar_square_canonical(),
    }
}

/// The ranges of a script.
pub fn script_class(s: Script) -> (v: Vec<ClassUnicodeRange>)
    ensures
        rview(v@) == script_ranges(s),
{
    match s {
        Script::Adlam => adlam_class(),
        Script::Ahom => ahom_class(),
        Script::AnatolianHieroglyphs => anatolian_hieroglyphs_class(),
        Script::Arabic => arabic_class(),
        Script::Armenian => armenian_class(),
        Script::Avestan => avestan_class(),
        Script::Balinese => balinese_class(),
        Script::Bamum => bamum_class(),
        Script::BassaVah => bassa_vah_class(),
        Script::Batak => batak_class(),
        Script::Bengali => bengali_class(),
        Script::Bhaiksuki => bhaiksuki_class(),
        Script::Bopomofo => bopomofo_class(),
        Script::Brahmi => brahmi_class(),
        Script::Braille => braille_class(),
        Script::Buginese => buginese_class(),
        Script::Buhid => buhid_class(),
        Script::CanadianAboriginal => canadian_aboriginal_class(),
        Script::Carian => carian_class(),
        Script::CaucasianAlbanian => caucasian_albanian_class(),
        Script::Chakma => chakma_class(),
        Script::Cham => cham_class(),
        Script::Cherokee => cherokee_class(),
        Script::Chorasmian => chorasmian_class(),
        Script::Common => common_class(),
        Script::Coptic => coptic_class(),
        Script::Cuneiform => cuneiform_class(),
        Script::Cypriot => cypriot_class(),
        Script::CyproMinoan => cypro_minoan_class(),
        Script::Cyrillic => cyrillic_class(),
        Script::Deseret => deseret_class(),
        Script::Devanagari => devanagari_class(),
        Script::DivesAkuru => dives_akuru_class(),
        Script::Dogra => dogra_class(),
        Script::Duployan => duployan_class(),
        Script::EgyptianHieroglyphs => egyptian_hieroglyphs_class(),
        Script::Elbasan => elbasan_class(),
        Script::Elymaic => elymaic_class(),
        Script::Ethiopic => ethiopic_class(),
        Script::Garay => garay_class(),
        Script::Georgian => georgian_class(),
        Script::Glagolitic => glagolitic_class(),
        Script::Gothic => gothic_class(),
        Script::Grantha => grantha_class(),
        Script::Greek => greek_class(),
        Script::Gujarati => gujarati_class(),
        Script::GunjalaGondi => gunjala_gondi_class(),
        Script::Gurmukhi => gurmukhi_class(),
        Script::GurungKhema => gurung_khema_class(),
        Script::Han => han_class(),
        Script::Hangul => hangul_class(),
        Script::HanifiRohingya => hanifi_rohingya_class(),
        Script::Hanunoo => hanunoo_class(),
        Script::Hatran => hatran_class(),
        Script::Hebrew => hebrew_class(),
        Script::Hiragana => hiragana_class(),
        Script::ImperialAramaic => imperial_aramaic_class(),
        Script::Inherited => inherited_class(),
        Script::InscriptionalPahlavi => inscriptional_pahlavi_class(),
        Script::InscriptionalParthian => inscriptional_parthian_class(),
        Script::Javanese => javanese_class(),
        Script::Kaithi => kaithi_class(),
        Script::Kannada => kannada_class(),
        Script::Katakana => katakana_class(),
        Script::Kawi => kawi_class(),
        Script::KayahLi => kayah_li_class(),
        Script::Kharoshthi => kharoshthi_class(),
        Script::KhitanSmallScript => khitan_small_script_class(),
        Script::Khmer => khmer_class(),
        Script::Khojki => khojki_class(),
        Script::Khudawadi => khudawadi_class(),
        Script::KiratRai => kirat_rai_class(),
        Script::Lao => lao_class(),
        Script::Latin => latin_class(),
        Script::Lepcha => lepcha_class(),
        Script::Limbu => limbu_class(),
        Script::LinearA => linear_a_class(),
        Script::LinearB => linear_b_class(),
        Script::Lisu => lisu_class(),
        Script::Lycian => lycian_class(),
        Script::Lydian => lydian_class(),
        Script::Mahajani => mahajani_class(),
        Script::Makasar => makasar_class(),
        Script::Malayalam => malayalam_class(),
        Script::Mandaic => mandaic_class(),
        Script::Manichaean => manichaean_class(),
        Script::Marchen => marchen_class(),
        Script::MasaramGondi => masaram_gondi_class(),
        Script::Medefaidrin => medefaidrin_class(),
        Script::MeeteiMayek => meetei_mayek_class(),
        Script::MendeKikakui => mende_kikakui_class(),
        Script::MeroiticCursive => meroitic_cursive_class(),
        Script::MeroiticHieroglyphs => meroitic_hieroglyphs_class(),
        Script::Miao => miao_class(),
        Script::Modi => modi_class(),
        Script::Mongolian => mongolian_class(),
        Script::Mro => mro_class(),
        Script::Multani => multani_class(),
        Script::Myanmar => myanmar_class(),
        Script::Nabataean => nabataean_class(),
        Script::NagMundari => nag_mundari_class(),
        Script::Nandinagari => nandinagari_class(),
        Script::NewTaiLue => new_tai_lue_class(),
        Script::Newa => newa_class(),
        Script::Nko => nko_class(),
        Script::Nushu => nushu_class(),
        Script::NyiakengPuachueHmong => nyiakeng_puachue_hmong_class(),
        Script::Ogham => ogham_class(),
        Script::OlChiki => ol_chiki_class(),
        Script::OlOnal => ol_onal_class(),
        Script::OldHungarian => old_hungarian_class(),
        Script::OldItalic => old_italic_class(),
        Script::OldNorthArabian => old_north_arabian_class(),
        Script::OldPermic => old_permic_class(),
        Script::OldPersian => old_persian_class(),
        Script::OldSogdian => old_sogdian_class(),
        Script::OldSouthArabian => old_south_arabian_class(),
        Script::OldTurkic => old_turkic_class(),
        Script::OldUyghur => old_uyghur_class(),
        Script::Oriya => oriya_class(),
        Script::Osage => osage_class(),
        Script::Osmanya => osmanya_class(),
        Script::PahawhHmong => pahawh_hmong_class(),
        Script::Palmyrene => palmyrene_class(),
        Script::PauCinHau => pau_cin_hau_class(),
        Script::PhagsPa => phags_pa_class(),
        Script::Phoenician => phoenician_class(),
        Script::PsalterPahlavi => psalter_pahlavi_class(),
        Script::Rejang => rejang_class(),
        Script::Runic => runic_class(),
        Script::Samaritan => samaritan_class(),
        Script::Saurashtra => saurashtra_class(),
        Script::Sharada => sharada_class(),
        Script::Shavian => shavian_class(),
        Script::Siddham => siddham_class(),
        Script::SignWriting => signwriting_class(),
        Script::Sinhala => sinhala_class(),
        Script::Sogdian => sogdian_class(),
        Script::SoraSompeng => sora_sompeng_class(),
        Script::Soyombo => soyombo_class(),
        Script::Sundanese => sundanese_class(),
        Script::Sunuwar => sunuwar_class(),
        Script::SylotiNagri => syloti_nagri_class(),
        Script::Syriac => syriac_class(),
        Script::Tagalog => tagalog_class(),
        Script::Tagbanwa => tagbanwa_class(),
        Script::TaiLe => tai_le_class(),
        Script::TaiTham => tai_tham_class(),
        Script::TaiViet => tai_viet_class(),
        Script::Takri => takri_class(),
        Script::Tamil => tamil_class(),
        Script::Tangsa => tangsa_class(),
        Script::Tangut => tangut_class(),
        Script::Telugu => telugu_class(),
        Script::Thaana => thaana_class(),
        Script::Thai => thai_class(),
        Script::Tibetan => tibetan_class(),
        Script::Tifinagh => tifinagh_class(),
        Script::Tirhuta => tirhuta_class(),
        Script::Todhri => todhri_class(),
        Script::Toto => toto_class(),
        Script::TuluTigalari => tulu_tigalari_class(),
        Script::Ugaritic => ugaritic_class(),
        Script::Vai => vai_class(),
        Script::Vithkuqi => vithkuqi_class(),
        Script::Wancho => wancho_class(),
        Script::WarangCiti => warang_citi_class(),
        Script::Yezidi => yezidi_class(),
        Script::Yi => yi_class(),
        Script::ZanabazarSquare => zanabazar_square_class(),
    }
}

/// The normalized names of the script Adlam.
pub open spec fn script_names_adlam(n: Seq<char>) -> bool {
    n == seq!['a', 'd', 'l', 'a', 'm'] || n == seq!['a', 'd', 'l', 'm']
}

fn is_script_names_adlam(n: &[char]) -> (r: bool)
    ensures
        r == script_names_adlam(n@),
{
    let w0: [char; 5] = ['a', 'd', 'l', 'a', 'm'];
    assert(w0@ =~= seq!['a', 'd', 'l', 'a', 'm']);
    let w1: [char; 4] = ['a', 'd', 'l', 'm'];
    assert(w1@ =~= seq!['a', 'd', 'l', 'm']);
    chars_eq(n, &w0) || chars_eq(n, &w1)
}

/// The normalized names of the script Caucasian_Albanian.
pub open spec fn script_names_caucasian_albanian(n: Seq<char>) -> bool {
    n == seq!['a', 'g', 'h', 'b'] || n == seq!['c', 'a', 'u', 'c', 'a', 's', 'i', 'a', 'n', 'a', 'l', 'b', 'a', 'n', 'i', 'a', 'n']
}

fn is_script_names_caucasian_albanian(n: &[char]) -> (r: bool)
    ensures
        r == script_names_caucasian_albanian(n@),
{
    let w0: [char; 4] = ['a', 'g', 'h', 'b'];
    assert(w0@ =~= seq!['a', 'g', 'h', 'b']);
    let w1: [char; 17] = ['c', 'a', 'u', 'c', 'a', 's', 'i', 'a', 'n', 'a', 'l', 'b', 'a', 'n', 'i', 'a', 'n'];
    assert(w1@ =~= seq!['c', 'a', 'u', 'c', 'a', 's', 'i', 'a', 'n', 'a', 'l', 'b', 'a', 'n', 'i', 'a', 'n']);
    chars_eq(n, &w0) || chars_eq(n, &w1)
}

/// The normalized names of the script Ahom.
pub open spec fn script_names_ahom(n: Seq<char>) -> bool {
    n == seq!['a', 'h', 'o', 'm']
}

fn is_script_names_ahom(n: &[char]) -> (r: bool)
    ensures
        r == script_names_ahom(n@),
{
    let w0: [char; 4] = ['a', 'h', 'o', 'm'];
    assert(w0@ =~= seq!['a', 'h', 'o', 'm']);
    chars_eq(n, &w0)
}

/// The normalized names of the script Anatolian_Hieroglyphs.
pub open spec fn script_names_anatolian_hieroglyphs(n: Seq<char>) -> bool {
    n == seq!['a', 'n', 'a', 't', 'o', 'l', 'i', 'a', 'n', 'h', 'i', 'e', 'r', 'o', 'g', 'l', 'y', 'p', 'h', 's'] || n == seq!['h', 'l', 'u', 'w']
}

fn is_script_names_anatolian_hieroglyphs(n: &[char]) -> (r: bool)
    ensures
        r == script_names_anatolian_hieroglyphs(n@),
{
    let w0: [char; 20] = ['a', 'n', 'a', 't', 'o', 'l', 'i', 'a', 'n', 'h', 'i', 'e', 'r', 'o', 'g', 'l', 'y', 'p', 'h', 's'];
    assert(w0@ =~= seq!['a', 'n', 'a', 't', 'o', 'l', 'i', 'a', 'n', 'h', 'i', 'e', 'r', 'o', 'g', 'l', 'y', 'p', 'h', 's']);
    let w1: [char; 4] = ['h', 'l', 'u', 'w'];
    assert(w1@ =~= seq!['h', 'l', 'u', 'w']);
    chars_eq(n, &w0) || chars_eq(n, &w1)
}

/// The normalized names of the script Arabic.
pub open spec fn script_names_arabic(n: Seq<char>) -> bool {
    n == seq!['a', 'r', 'a', 'b'] || n == seq!['a', 'r', 'a', 'b', 'i', 'c']
}

fn is_script_names_arabic(n: &[char]) -> (r: bool)
    ensures
        r == script_names_arabic(n@),
{
    let w0: [char; 4] = ['a', 'r', 'a', 'b'];
    assert(w0@ =~= seq!['a', 'r', 'a', 'b']);
    let w1: [char; 6] = ['a', 'r', 'a', 'b', 'i', 'c'];
    assert(w1@ =~= seq!['a', 'r', 'a', 'b', 'i', 'c']);
    chars_eq(n, &w0) || chars_eq(n, &w1)
}

/// The normalized names of the script Armenian.
pub open spec fn script_names_armenian(n: Seq<char>) -> bool {
    n == seq!['a', 'r', 'm', 'e', 'n', 'i', 'a', 'n'] || n == seq!['a', 'r', 'm', 'n']
}

fn is_script_names_armenian(n: &[char]) -> (r: bool)
    ensures
        r == script_names_armenian(n@),
{
    let w0: [char; 8] = ['a', 'r', 'm', 'e', 'n', 'i', 'a', 'n'];
    assert(w0@ =~= seq!['a', 'r', 'm', 'e', 'n', 'i', 'a', 'n']);
    let w1: [char; 4] = ['a', 'r', 'm', 'n'];
    assert(w1@ =~= seq!['a', 'r', 'm', 'n']);
    chars_eq(n, &w0) || chars_eq(n, &w1)
}

/// The normalized names of the script Imperial_Aramaic.
pub open spec fn script_names_imperial_aramaic(n: Seq<char>) -> bool {
    n == seq!['a', 'r', 'm', 'i'] || n == seq!['i', 'm', 'p', 'e', 'r', 'i', 'a', 'l', 'a', 'r', 'a', 'm', 'a', 'i', 'c']
}

fn is_script_names_imperial_aramaic(n: &[char]) -> (r: bool)
    ensures
        r == script_names_imperial_aramaic(n@),
{
    let w0: [char; 4] = ['a', 'r', 'm', 'i'];
    assert(w0@ =~= seq!['a', 'r', 'm', 'i']);
    let w1: [char; 15] = ['i', 'm', 'p', 'e', 'r', 'i', 'a', 'l', 'a', 'r', 'a', 'm', 'a', 'i', 'c'];
    assert(w1@ =~= seq!['i', 'm', 'p', 'e', 'r', 'i', 'a', 'l', 'a', 'r', 'a', 'm', 'a', 'i', 'c']);
    chars_eq(n, &w0) || chars_eq(n, &w1)
}

/// The normalized names of the script Avestan.
pub open spec fn script_names_avestan(n: Seq<char>) -> bool {
    n == seq!['a', 'v', 'e', 's', 't', 'a', 'n'] || n == seq!['a', 'v', 's', 't']
}

fn is_script_names_avestan(n: &[char]) -> (r: bool)
    ensures
        r == script_names_avestan(n@),
{
    let w0: [char; 7] = ['a', 'v', 'e', 's', 't', 'a', 'n'];
    assert(w0@ =~= seq!['a', 'v', 'e', 's', 't', 'a', 'n']);
    let w1: [char; 4] = ['a', 'v', 's', 't'];
    assert(w1@ =~= seq!['a', 'v', 's', 't']);
    chars_eq(n, &w0) || chars_eq(n, &w1)
}

/// The normalized names of the script Balinese.
pub open spec fn script_names_balinese(n: Seq<char>) -> bool {
    n == seq!['b', 'a', 'l', 'i'] || n == seq!['b', 'a', 'l', 'i', 'n', 'e', 's', 'e']
}

fn is_script_names_balinese(n: &[char]) -> (r: bool)
    ensures
        r == script_names_balinese(n@),
{
    let w0: [char; 4] = ['b', 'a', 'l', 'i'];
    assert(w0@ =~= seq!['b', 'a', 'l', 'i']);
    let w1: [char; 8] = ['b', 'a', 'l', 'i', 'n', 'e', 's', 'e'];
    assert(w1@ =~= seq!['b', 'a', 'l', 'i', 'n', 'e', 's', 'e']);
    chars_eq(n, &w0) || chars_eq(n, &w1)
}

/// The normalized names of the script Bamum.
pub open spec fn script_names_bamum(n: Seq<char>) -> bool {
    n == seq!['b', 'a', 'm', 'u'] || n == seq!['b', 'a', 'm', 'u', 'm']
}

fn is_script_names_bamum(n: &[char]) -> (r: bool)
    ensures
        r == script_names_bamum(n@),
{
    let w0: [char; 4] = ['b', 'a', 'm', 'u'];
    assert(w0@ =~= seq!['b', 'a', 'm', 'u']);
    let w1: [char; 5] = ['b', 'a', 'm', 'u', 'm'];
    assert(w1@ =~= seq!['b', 'a', 'm', 'u', 'm']);
    chars_eq(n, &w0) || chars_eq(n, &w1)
}

/// The normalized names of the script Bassa_Vah.
pub open spec fn script_names_bassa_vah(n: Seq<char>) -> bool {
    n == seq!['b', 'a', 's', 's'] || n == seq!['b', 'a', 's', 's', 'a', 'v', 'a', 'h']
}

fn is_script_names_bassa_vah(n: &[char]) -> (r: bool)
    ensures
        r == script_names_bassa_vah(n@),
{
    let w0: [char; 4] = ['b', 'a', 's', 's'];
    assert(w0@ =~= seq!['b', 'a', 's', 's']);
    let w1: [char; 8] = ['b', 'a', 's', 's', 'a', 'v', 'a', 'h'];
    assert(w1@ =~= seq!['b', 'a', 's', 's', 'a', 'v', 'a', 'h']);
    chars_eq(n, &w0) || chars_eq(n, &w1)
}

/// The normalized names of the script Batak.
pub open spec fn script_names_batak(n: Seq<char>) -> bool {
    n == seq!['b', 'a', 't', 'a', 'k'] || n == seq!['b', 'a', 't', 'k']
}

fn is_script_names_batak(n: &[char]) -> (r: bool)
    ensures
        r == script_names_batak(n@),
{
    let w0: [char; 5] = ['b', 'a', 't', 'a', 'k'];
    assert(w0@ =~= seq!['b', 'a', 't', 'a', 'k']);
    let w1: [char; 4] = ['b', 'a', 't', 'k'];
    assert(w1@ =~= seq!['b', 'a', 't', 'k']);
    chars_eq(n, &w0) || chars_eq(n, &w1)
}

/// The normalized names of the script Bengali.
pub open spec fn script_names_bengali(n: Seq<char>) -> bool {
    n == seq!['b', 'e', 'n', 'g'] || n == seq!['b', 'e', 'n', 'g', 'a', 'l', 'i']
}

fn is_script_names_bengali(n: &[char]) -> (r: bool)
    ensures
        r == script_names_bengali(n@),
{
    let w0: [char; 4] = ['b', 'e', 'n', 'g'];
    assert(w0@ =~= seq!['b', 'e', 'n', 'g']);
    let w1: [char; 7] = ['b', 'e', 'n', 'g', 'a', 'l', 'i'];
    assert(w1@ =~= seq!['b', 'e', 'n', 'g', 'a', 'l', 'i']);
    chars_eq(n, &w0) || chars_eq(n, &w1)
}

/// The normalized names of the script Bhaiksuki.
pub open spec fn script_names_bhaiksuki(n: Seq<char>) -> bool {
    n == seq!['b', 'h', 'a', 'i', 'k', 's', 'u', 'k', 'i'] || n == seq!['b', 'h', 'k', 's']
}

fn is_script_names_bhaiksuki(n: &[char]) -> (r: bool)
    ensures
        r == script_names_bhaiksuki(n@),
{
    let w0: [char; 9] = ['b', 'h', 'a', 'i', 'k', 's', 'u', 'k', 'i'];
    assert(w0@ =~= seq!['b', 'h', 'a', 'i', 'k', 's', 'u', 'k', 'i']);
    let w1: [char; 4] = ['b', 'h', 'k', 's'];
    assert(w1@ =~= seq!['b', 'h', 'k', 's']);
    chars_eq(n, &w0) || chars_eq(n, &w1)
}

/// The normalized names of the script Bopomofo.
pub open spec fn script_names_bopomofo(n: Seq<char>) -> bool {
    n == seq!['b', 'o', 'p', 'o'] || n == seq!['b', 'o', 'p', 'o', 'm', 'o', 'f', 'o']
}

fn is_script_names_bopomofo(n: &[char]) -> (r: bool)
    ensures
        r == script_names_bopomofo(n@),
{
    let w0: [char; 4] = ['b', 'o', 'p', 'o'];
    assert(w0@ =~= seq!['b', 'o', 'p', 'o']);
    let w1: [char; 8] = ['b', 'o', 'p', 'o', 'm', 'o', 'f', 'o'];
    assert(w1@ =~= seq!['b', 'o', 'p', 'o', 'm', 'o', 'f', 'o']);
    chars_eq(n, &w0) || chars_eq(n, &w1)
}

/// The normalized names of the script Brahmi.
pub open spec fn script_names_brahmi(n: Seq<char>) -> bool {
    n == seq!['b', 'r', 'a', 'h'] || n == seq!['b', 'r', 'a', 'h', 'm', 'i']
}

fn is_script_names_brahmi(n: &[char]) -> (r: bool)
    ensures
        r == script_names_brahmi(n@),
{
    let w0: [char; 4] = ['b', 'r', 'a', 'h'];
    assert(w0@ =~= seq!['b', 'r', 'a', 'h']);
    let w1: [char; 6] = ['b', 'r', 'a', 'h', 'm', 'i'];
    assert(w1@ =~= seq!['b', 'r', 'a', 'h', 'm', 'i']);
    chars_eq(n, &w0) || chars_eq(n, &w1)
}

/// The normalized names of the script Braille.
pub open spec fn script_names_braille(n: Seq<char>) -> bool {
    n == seq!['b', 'r', 'a', 'i'] || n == seq!['b', 'r', 'a', 'i', 'l', 'l', 'e']
}

fn is_script_names_braille(n: &[char]) -> (r: bool)
    ensures
        r == script_names_braille(n@),
{
    let w0: [char; 4] = ['b', 'r', 'a', 'i'];
    assert(w0@ =~= seq!['b', 'r', 'a', 'i']);
    let w1: [char; 7] = ['b', 'r', 'a', 'i', 'l', 'l', 'e'];
    assert(w1@ =~= seq!['b', 'r', 'a', 'i', 'l', 'l', 'e']);
    chars_eq(n, &w0) || chars_eq(n, &w1)
}

/// The normalized names of the script Buginese.
pub open spec fn script_names_buginese(n: Seq<char>) -> bool {
    n == seq!['b', 'u', 'g', 'i'] || n == seq!['b', 'u', 'g', 'i', 'n', 'e', 's', 'e']
}

fn is_script_names_buginese(n: &[char]) -> (r: bool)
    ensures
        r == script_names_buginese(n@),
{
    let w0: [char; 4] = ['b', 'u', 'g', 'i'];
    assert(w0@ =~= seq!['b', 'u', 'g', 'i']);
    let w1: [char; 8] = ['b', 'u', 'g', 'i', 'n', 'e', 's', 'e'];
    assert(w1@ =~= seq!['b', 'u', 'g', 'i', 'n', 'e', 's', 'e']);
    chars_eq(n, &w0) || chars_eq(n, &w1)
}

/// The normalized names of the script Buhid.
pub open spec fn script_names_buhid(n: Seq<char>) -> bool {
    n == seq!['b', 'u', 'h', 'd'] || n == seq!['b', 'u', 'h', 'i', 'd']
}

fn is_script_names_buhid(n: &[char]) -> (r: bool)
    ensures
        r == script_names_buhid(n@),
{
    let w0: [char; 4] = ['b', 'u', 'h', 'd'];
    assert(w0@ =~= seq!['b', 'u', 'h', 'd']);
    let w1: [char; 5] = ['b', 'u', 'h', 'i', 'd'];
    assert(w1@ =~= seq!['b', 'u', 'h', 'i', 'd']);
    chars_eq(n, &w0) || chars_eq(n, &w1)
}

/// The normalized names of the script Chakma.
pub open spec fn script_names_chakma(n: Seq<char>) -> bool {
    n == seq!['c', 'a', 'k', 'm'] || n == seq!['c', 'h', 'a', 'k', 'm', 'a']
}

fn is_script_names_chakma(n: &[char]) -> (r: bool)
    ensures
        r == script_names_chakma(n@),
{
    let w0: [char; 4] = ['c', 'a', 'k', 'm'];
    assert(w0@ =~= seq!['c', 'a', 'k', 'm']);
    let w1: [char; 6] = ['c', 'h', 'a', 'k', 'm', 'a'];
    assert(w1@ =~= seq!['c', 'h', 'a', 'k', 'm', 'a']);
    chars_eq(n, &w0) || chars_eq(n, &w1)
}

/// The normalized names of the script Canadian_Aboriginal.
pub open spec fn script_names_canadian_aboriginal(n: Seq<char>) -> bool {
    n == seq!['c', 'a', 'n', 'a', 'd', 'i', 'a', 'n', 'a', 'b', 'o', 'r', 'i', 'g', 'i', 'n', 'a', 'l'] || n == seq!['c', 'a', 'n', 's']
}

fn is_script_names_canadian_aboriginal(n: &[char]) -> (r: bool)
    ensures
        r == script_names_canadian_aboriginal(n@),
{
    let w0: [char; 18] = ['c', 'a', 'n', 'a', 'd', 'i', 'a', 'n', 'a', 'b', 'o', 'r', 'i', 'g', 'i', 'n', 'a', 'l'];
    assert(w0@ =~= seq!['c', 'a', 'n', 'a', 'd', 'i', 'a', 'n', 'a', 'b', 'o', 'r', 'i', 'g', 'i', 'n', 'a', 'l']);
    let w1: [char; 4] = ['c', 'a', 'n', 's'];
    assert(w1@ =~= seq!['c', 'a', 'n', 's']);
    chars_eq(n, &w0) || chars_eq(n, &w1)
}

/// The normalized names of the script Carian.
pub open spec fn script_names_carian(n: Seq<char>) -> bool {
    n == seq!['c', 'a', 'r', 'i'] || n == seq!['c', 'a', 'r', 'i', 'a', 'n']
}

fn is_script_names_carian(n: &[char]) -> (r: bool)
    ensures
        r == script_names_carian(n@),
{
    let w0: [char; 4] = ['c', 'a', 'r', 'i'];
    assert(w0@ =~= seq!['c', 'a', 'r', 'i']);
    let w1: [char; 6] = ['c', 'a', 'r', 'i', 'a', 'n'];
    assert(w1@ =~= seq!['c', 'a', 'r', 'i', 'a', 'n']);
    chars_eq(n, &w0) || chars_eq(n, &w1)
}

/// The normalized names of the script Cham.
pub open spec fn script_names_cham(n: Seq<char>) -> bool {
    n == seq!['c', 'h', 'a', 'm']
}

fn is_script_names_cham(n: &[char]) -> (r: bool)
    ensures
        r == script_names_cham(n@),
{
    let w0: [char; 4] = ['c', 'h', 'a', 'm'];
    assert(w0@ =~= seq!['c', 'h', 'a', 'm']);
    chars_eq(n, &w0)
}

/// The normalized names of the script Cherokee.
pub open spec fn script_names_cherokee(n: Seq<char>) -> bool {
    n == seq!['c', 'h', 'e', 'r'] || n == seq!['c', 'h', 'e', 'r', 'o', 'k', 'e', 'e']
}

fn is_script_names_cherokee(n: &[char]) -> (r: bool)
    ensures
        r == script_names_cherokee(n@),
{
    let w0: [char; 4] = ['c', 'h', 'e', 'r'];
    assert(w0@ =~= seq!['c', 'h', 'e', 'r']);
    let w1: [char; 8] = ['c', 'h', 'e', 'r', 'o', 'k', 'e', 'e'];
    assert(w1@ =~= seq!['c', 'h', 'e', 'r', 'o', 'k', 'e', 'e']);
    chars_eq(n, &w0) || chars_eq(n, &w1)
}

/// The normalized names of the script Chorasmian.
pub open spec fn script_names_chorasmian(n: Seq<char>) -> bool {
    n == seq!['c', 'h', 'o', 'r', 'a', 's', 'm', 'i', 'a', 'n'] || n == seq!['c', 'h', 'r', 's']
}

fn is_script_names_chorasmian(n: &[char]) -> (r: bool)
    ensures
        r == script_names_chorasmian(n@),
{
    let w0: [char; 10] = ['c', 'h', 'o', 'r', 'a', 's', 'm', 'i', 'a', 'n'];
    assert(w0@ =~= seq!['c', 'h', 'o', 'r', 'a', 's', 'm', 'i', 'a', 'n']);
    let w1: [char; 4] = ['c', 'h', 'r', 's'];
    assert(w1@ =~= seq!['c', 'h', 'r', 's']);
    chars_eq(n, &w0) || chars_eq(n, &w1)
}

/// The normalized names of the script Common.
pub open spec fn script_names_common(n: Seq<char>) -> bool {
    n == seq!['c', 'o', 'm', 'm', 'o', 'n'] || n == seq!['z', 'y', 'y', 'y']
}

fn is_script_names_common(n: &[char]) -> (r: bool)
    ensures
        r == script_names_common(n@),
{
    let w0: [char; 6] = ['c', 'o', 'm', 'm', 'o', 'n'];
    assert(w0@ =~= seq!['c', 'o', 'm', 'm', 'o', 'n']);
    let w1: [char; 4] = ['z', 'y', 'y', 'y'];
    assert(w1@ =~= seq!['z', 'y', 'y', 'y']);
    chars_eq(n, &w0) || chars_eq(n, &w1)
}

/// The normalized names of the script Coptic.
pub open spec fn script_names_coptic(n: Seq<char>) -> bool {
    n == seq!['c', 'o', 'p', 't'] || n == seq!['c', 'o', 'p', 't', 'i', 'c'] || n == seq!['q', 'a', 'a', 'c']
}

fn is_script_names_coptic(n: &[char]) -> (r: bool)
    ensures
        r == script_names_coptic(n@),
{
    let w0: [char; 4] = ['c', 'o', 'p', 't'];
    assert(w0@ =~= seq!['c', 'o', 'p', 't']);
    let w1: [char; 6] = ['c', 'o', 'p', 't', 'i', 'c'];
    assert(w1@ =~= seq!['c', 'o', 'p', 't', 'i', 'c']);
    let w2: [char; 4] = ['q', 'a', 'a', 'c'];
    assert(w2@ =~= seq!['q', 'a', 'a', 'c']);
    chars_eq(n, &w0) || chars_eq(n, &w1) || chars_eq(n, &w2)
}

/// The normalized names of the script Cypro_Minoan.
pub open spec fn script_names_cypro_minoan(n: Seq<char>) -> bool {
    n == seq!['c', 'p', 'm', 'n'] || n == seq!['c', 'y', 'p', 'r', 'o', 'm', 'i', 'n', 'o', 'a', 'n']
}

fn is_script_names_cypro_minoan(n: &[char]) -> (r: bool)
    ensures
        r == script_names_cypro_minoan(n@),
{
    let w0: [char; 4] = ['c', 'p', 'm', 'n'];
    assert(w0@ =~= seq!['c', 'p', 'm', 'n']);
    let w1: [char; 11] = ['c', 'y', 'p', 'r', 'o', 'm', 'i', 'n', 'o', 'a', 'n'];
    assert(w1@ =~= seq!['c', 'y', 'p', 'r', 'o', 'm', 'i', 'n', 'o', 'a', 'n']);
    chars_eq(n, &w0) || chars_eq(n, &w1)
}

/// The normalized names of the script Cypriot.
pub open spec fn script_names_cypriot(n: Seq<char>) -> bool {
    n == seq!['c', 'p', 'r', 't'] || n == seq!['c', 'y', 'p', 'r', 'i', 'o', 't']
}

fn is_script_names_cypriot(n: &[char]) -> (r: bool)
    ensures
        r == script_names_cypriot(n@),
{
    let w0: [char; 4] = ['c', 'p', 'r', 't'];
    assert(w0@ =~= seq!['c', 'p', 'r', 't']);
    let w1: [char; 7] = ['c', 'y', 'p', 'r', 'i', 'o', 't'];
    assert(w1@ =~= seq!['c', 'y', 'p', 'r', 'i', 'o', 't']);
    chars_eq(n, &w0) || chars_eq(n, &w1)
}

/// The normalized names of the script Cuneiform.
pub open spec fn script_names_cuneiform(n: Seq<char>) -> bool {
    n == seq!['c', 'u', 'n', 'e', 'i', 'f', 'o', 'r', 'm'] || n == seq!['x', 's', 'u', 'x']
}

fn is_script_names_cuneiform(n: &[char]) -> (r: bool)
    ensures
        r == script_names_cuneiform(n@),
{
    let w0: [char; 9] = ['c', 'u', 'n', 'e', 'i', 'f', 'o', 'r', 'm'];
    assert(w0@ =~= seq!['c', 'u', 'n', 'e', 'i', 'f', 'o', 'r', 'm']);
    let w1: [char; 4] = ['x', 's', 'u', 'x'];
    assert(w1@ =~= seq!['x', 's', 'u', 'x']);
    chars_eq(n, &w0) || chars_eq(n, &w1)
}

/// The normalized names of the script Cyrillic.
pub open spec fn script_names_cyrillic(n: Seq<char>) -> bool {
    n == seq!['c', 'y', 'r', 'i', 'l', 'l', 'i', 'c'] || n == seq!['c', 'y', 'r', 'l']
}

fn is_script_names_cyrillic(n: &[char]) -> (r: bool)
    ensures
        r == script_names_cyrillic(n@),
{
    let w0: [char; 8] = ['c', 'y', 'r', 'i', 'l', 'l', 'i', 'c'];
    assert(w0@ =~= seq!['c', 'y', 'r', 'i', 'l', 'l', 'i', 'c']);
    let w1: [char; 4] = ['c', 'y', 'r', 'l'];
    assert(w1@ =~= seq!['c', 'y', 'r', 'l']);
    chars_eq(n, &w0) || chars_eq(n, &w1)
}

/// The normalized names of the script Deseret.
pub open spec fn script_names_deseret(n: Seq<char>) -> bool {
    n == seq!['d', 'e', 's', 'e', 'r', 'e', 't'] || n == seq!['d', 's', 'r', 't']
}

fn is_script_names_deseret(n: &[char]) -> (r: bool)
    ensures
        r == script_names_deseret(n@),
{
    let w0: [char; 7] = ['d', 'e', 's', 'e', 'r', 'e', 't'];
    assert(w0@ =~= seq!['d', 'e', 's', 'e', 'r', 'e', 't']);
    let w1: [char; 4] = ['d', 's', 'r', 't'];
    assert(w1@ =~= seq!['d', 's', 'r', 't']);
    chars_eq(n, &w0) || chars_eq(n, &w1)
}

/// The normalized names of the script Devanagari.
pub open spec fn script_names_devanagari(n: Seq<char>) -> bool {
    n == seq!['d', 'e', 'v', 'a'] || n == seq!['d', 'e', 'v', 'a', 'n', 'a', 'g', 'a', 'r', 'i']
}

fn is_script_names_devanagari(n: &[char]) -> (r: bool)
    ensures
        r == script_names_devanagari(n@),
{
    let w0: [char; 4] = ['d', 'e', 'v', 'a'];
    assert(w0@ =~= seq!['d', 'e', 'v', 'a']);
    let w1: [char; 10] = ['d', 'e', 'v', 'a', 'n', 'a', 'g', 'a', 'r', 'i'];
    assert(w1@ =~= seq!['d', 'e', 'v', 'a', 'n', 'a', 'g', 'a', 'r', 'i']);
    chars_eq(n, &w0) || chars_eq(n, &w1)
}

/// The normalized names of the script Dives_Akuru.
pub open spec fn script_names_dives_akuru(n: Seq<char>) -> bool {
    n == seq!['d', 'i', 'a', 'k'] || n == seq!['d', 'i', 'v', 'e', 's', 'a', 'k', 'u', 'r', 'u']
}

fn is_script_names_dives_akuru(n: &[char]) -> (r: bool)
    ensures
        r == script_names_dives_akuru(n@),
{
    let w0: [char; 4] = ['d', 'i', 'a', 'k'];
    assert(w0@ =~= seq!['d', 'i', 'a', 'k']);
    let w1: [char; 10] = ['d', 'i', 'v', 'e', 's', 'a', 'k', 'u', 'r', 'u'];
    assert(w1@ =~= seq!['d', 'i', 'v', 'e', 's', 'a', 'k', 'u', 'r', 'u']);
    chars_eq(n, &w0) || chars_eq(n, &w1)
}

/// The normalized names of the script Dogra.
pub open spec fn script_names_dogra(n: Seq<char>) -> bool {
    n == seq!['d', 'o', 'g', 'r'] || n == seq!['d', 'o', 'g', 'r', 'a']
}

fn is_script_names_dogra(n: &[char]) -> (r: bool)
    ensures
        r == script_names_dogra(n@),
{
    let w0: [char; 4] = ['d', 'o', 'g', 'r'];
    assert(w0@ =~= seq!['d', 'o', 'g', 'r']);
    let w1: [char; 5] = ['d', 'o', 'g', 'r', 'a'];
    assert(w1@ =~= seq!['d', 'o', 'g', 'r', 'a']);
    chars_eq(n, &w0) || chars_eq(n, &w1)
}

/// The normalized names of the script Duployan.
pub open spec fn script_names_duployan(n: Seq<char>) -> bool {
    n == seq!['d', 'u', 'p', 'l'] || n == seq!['d', 'u', 'p', 'l', 'o', 'y', 'a', 'n']
}

fn is_script_names_duployan(n: &[char]) -> (r: bool)
    ensures
        r == script_names_duployan(n@),
{
    let w0: [char; 4] = ['d', 'u', 'p', 'l'];
    assert(w0@ =~= seq!['d', 'u', 'p', 'l']);
    let w1: [char; 8] = ['d', 'u', 'p', 'l', 'o', 'y', 'a', 'n'];
    assert(w1@ =~= seq!['d', 'u', 'p', 'l', 'o', 'y', 'a', 'n']);
    chars_eq(n, &w0) || chars_eq(n, &w1)
}

/// The normalized names of the script Egyptian_Hieroglyphs.
pub open spec fn script_names_egyptian_hieroglyphs(n: Seq<char>) -> bool {
    n == seq!['e', 'g', 'y', 'p'] || n == seq!['e', 'g', 'y', 'p', 't', 'i', 'a', 'n', 'h', 'i', 'e', 'r', 'o', 'g', 'l', 'y', 'p', 'h', 's']
}

fn is_script_names_egyptian_hieroglyphs(n: &[char]) -> (r: bool)
    ensures
        r == script_names_egyptian_hieroglyphs(n@),
{
    let w0: [char; 4] = ['e', 'g', 'y', 'p'];
    assert(w0@ =~= seq!['e', 'g', 'y', 'p']);
    let w1: [char; 19] = ['e', 'g', 'y', 'p', 't', 'i', 'a', 'n', 'h', 'i', 'e', 'r', 'o', 'g', 'l', 'y', 'p', 'h', 's'];
    assert(w1@ =~= seq!['e', 'g', 'y', 'p', 't', 'i', 'a', 'n', 'h', 'i', 'e', 'r', 'o', 'g', 'l', 'y', 'p', 'h', 's']);
    chars_eq(n, &w0) || chars_eq(n, &w1)
}

/// The normalized names of the script Elbasan.
pub open spec fn script_names_elbasan(n: Seq<char>) -> bool {
    n == seq!['e', 'l', 'b', 'a'] || n == seq!['e', 'l', 'b', 'a', 's', 'a', 'n']
}

fn is_script_names_elbasan(n: &[char]) -> (r: bool)
    ensures
        r == script_names_elbasan(n@),
{
    let w0: [char; 4] = ['e', 'l', 'b', 'a'];
    assert(w0@ =~= seq!['e', 'l', 'b', 'a']);
    let w1: [char; 7] = ['e', 'l', 'b', 'a', 's', 'a', 'n'];
    assert(w1@ =~= seq!['e', 'l', 'b', 'a', 's', 'a', 'n']);
    chars_eq(n, &w0) || chars_eq(n, &w1)
}

/// The normalized names of the script Elymaic.
pub open spec fn script_names_elymaic(n: Seq<char>) -> bool {
    n == seq!['e', 'l', 'y', 'm'] || n == seq!['e', 'l', 'y', 'm', 'a', 'i', 'c']
}

fn is_script_names_elymaic(n: &[char]) -> (r: bool)
    ensures
        r == script_names_elymaic(n@),
{
    let w0: [char; 4] = ['e', 'l', 'y', 'm'];
    assert(w0@ =~= seq!['e', 'l', 'y', 'm']);
    let w1: [char; 7] = ['e', 'l', 'y', 'm', 'a', 'i', 'c'];
    assert(w1@ =~= seq!['e', 'l', 'y', 'm', 'a', 'i', 'c']);
    chars_eq(n, &w0) || chars_eq(n, &w1)
}

/// The normalized names of the script Ethiopic.
pub open spec fn script_names_ethiopic(n: Seq<char>) -> bool {
    n == seq!['e', 't', 'h', 'i'] || n == seq!['e', 't', 'h', 'i', 'o', 'p', 'i', 'c']
}

fn is_script_names_ethiopic(n: &[char]) -> (r: bool)
    ensures
        r == script_names_ethiopic(n@),
{
    let w0: [char; 4] = ['e', 't', 'h', 'i'];
    assert(w0@ =~= seq!['e', 't', 'h', 'i']);
    let w1: [char; 8] = ['e', 't', 'h', 'i', 'o', 'p', 'i', 'c'];
    assert(w1@ =~= seq!['e', 't', 'h', 'i', 'o', 'p', 'i', 'c']);
    chars_eq(n, &w0) || chars_eq(n, &w1)
}

/// The normalized names of the script Garay.
pub open spec fn script_names_garay(n: Seq<char>) -> bool {
    n == seq!['g', 'a', 'r', 'a'] || n == seq!['g', 'a', 'r', 'a', 'y']
}

fn is_script_names_garay(n: &[char]) -> (r: bool)
    ensures
        r == script_names_garay(n@),
{
    let w0: [char; 4] = ['g', 'a', 'r', 'a'];
    assert(w0@ =~= seq!['g', 'a', 'r', 'a']);
    let w1: [char; 5] = ['g', 'a', 'r', 'a', 'y'];
    assert(w1@ =~= seq!['g', 'a', 'r', 'a', 'y']);
    chars_eq(n, &w0) || chars_eq(n, &w1)
}

/// The normalized names of the script Georgian.
pub open spec fn script_names_georgian(n: Seq<char>) -> bool {
    n == seq!['g', 'e', 'o', 'r'] || n == seq!['g', 'e', 'o', 'r', 'g', 'i', 'a', 'n']
}

fn is_script_names_georgian(n: &[char]) -> (r: bool)
    ensures
        r == script_names_georgian(n@),
{
    let w0: [char; 4] = ['g', 'e', 'o', 'r'];
    assert(w0@ =~= seq!['g', 'e', 'o', 'r']);
    let w1: [char; 8] = ['g', 'e', 'o', 'r', 'g', 'i', 'a', 'n'];
    assert(w1@ =~= seq!['g', 'e', 'o', 'r', 'g', 'i', 'a', 'n']);
    chars_eq(n, &w0) || chars_eq(n, &w1)
}

/// The normalized names of the script Glagolitic.
pub open spec fn script_names_glagolitic(n: Seq<char>) -> bool {
    n == seq!['g', 'l', 'a', 'g'] || n == seq!['g', 'l', 'a', 'g', 'o', 'l', 'i', 't', 'i', 'c']
}

fn is_script_names_glagolitic(n: &[char]) -> (r: bool)
    ensures
        r == script_names_glagolitic(n@),
{
    let w0: [char; 4] = ['g', 'l', 'a', 'g'];
    assert(w0@ =~= seq!['g', 'l', 'a', 'g']);
    let w1: [char; 10] = ['g', 'l', 'a', 'g', 'o', 'l', 'i', 't', 'i', 'c'];
    assert(w1@ =~= seq!['g', 'l', 'a', 'g', 'o', 'l', 'i', 't', 'i', 'c']);
    chars_eq(n, &w0) || chars_eq(n, &w1)
}

/// The normalized names of the script Gunjala_Gondi.
pub open spec fn script_names_gunjala_gondi(n: Seq<char>) -> bool {
    n == seq!['g', 'o', 'n', 'g'] || n == seq!['g', 'u', 'n', 'j', 'a', 'l', 'a', 'g', 'o', 'n', 'd', 'i']
}

fn is_script_names_gunjala_gondi(n: &[char]) -> (r: bool)
    ensures
        r == script_names_gunjala_gondi(n@),
{
    let w0: [char; 4] = ['g', 'o', 'n', 'g'];
    assert(w0@ =~= seq!['g', 'o', 'n', 'g']);
    let w1: [char; 12] = ['g', 'u', 'n', 'j', 'a', 'l', 'a', 'g', 'o', 'n', 'd', 'i'];
    assert(w1@ =~= seq!['g', 'u', 'n', 'j', 'a', 'l', 'a', 'g', 'o', 'n', 'd', 'i']);
    chars_eq(n, &w0) || chars_eq(n, &w1)
}

/// The normalized names of the script Masaram_Gondi.
pub open spec fn script_names_masaram_gondi(n: Seq<char>) -> bool {
    n == seq!['g', 'o', 'n', 'm'] || n == seq!['m', 'a', 's', 'a', 'r', 'a', 'm', 'g', 'o', 'n', 'd', 'i']
}

fn is_script_names_masaram_gondi(n: &[char]) -> (r: bool)
    ensures
        r == script_names_masaram_gondi(n@),
{
    let w0: [char; 4] = ['g', 'o', 'n', 'm'];
    assert(w0@ =~= seq!['g', 'o', 'n', 'm']);
    let w1: [char; 12] = ['m', 'a', 's', 'a', 'r', 'a', 'm', 'g', 'o', 'n', 'd', 'i'];
    assert(w1@ =~= seq!['m', 'a', 's', 'a', 'r', 'a', 'm', 'g', 'o', 'n', 'd', 'i']);
    chars_eq(n, &w0) || chars_eq(n, &w1)
}

/// The normalized names of the script Gothic.
pub open spec fn script_names_gothic(n: Seq<char>) -> bool {
    n == seq!['g', 'o', 't', 'h'] || n == seq!['g', 'o', 't', 'h', 'i', 'c']
}

fn is_script_names_gothic(n: &[char]) -> (r: bool)
    ensures
        r == script_names_gothic(n@),
{
    let w0: [char; 4] = ['g', 'o', 't', 'h'];
    assert(w0@ =~= seq!['g', 'o', 't', 'h']);
    let w1: [char; 6] = ['g', 'o', 't', 'h', 'i', 'c'];
    assert(w1@ =~= seq!['g', 'o', 't', 'h', 'i', 'c']);
    chars_eq(n, &w0) || chars_eq(n, &w1)
}

/// The normalized names of the script Grantha.
pub open spec fn script_names_grantha(n: Seq<char>) -> bool {
    n == seq!['g', 'r', 'a', 'n'] || n == seq!['g', 'r', 'a', 'n', 't', 'h', 'a']
}

fn is_script_names_grantha(n: &[char]) -> (r: bool)
    ensures
        r == script_names_grantha(n@),
{
    let w0: [char; 4] = ['g', 'r', 'a', 'n'];
    assert(w0@ =~= seq!['g', 'r', 'a', 'n']);
    let w1: [char; 7] = ['g', 'r', 'a', 'n', 't', 'h', 'a'];
    assert(w1@ =~= seq!['g', 'r', 'a', 'n', 't', 'h', 'a']);
    chars_eq(n, &w0) || chars_eq(n, &w1)
}

/// The normalized names of the script Greek.
pub open spec fn script_names_greek(n: Seq<char>) -> bool {
    n == seq!['g', 'r', 'e', 'e', 'k'] || n == seq!['g', 'r', 'e', 'k']
}

fn is_script_names_greek(n: &[char]) -> (r: bool)
    ensures
        r == script_names_greek(n@),
{
    let w0: [char; 5] = ['g', 'r', 'e', 'e', 'k'];
    assert(w0@ =~= seq!['g', 'r', 'e', 'e', 'k']);
    let w1: [char; 4] = ['g', 'r', 'e', 'k'];
    assert(w1@ =~= seq!['g', 'r', 'e', 'k']);
    chars_eq(n, &w0) || chars_eq(n, &w1)
}

/// The normalized names of the script Gujarati.
pub open spec fn script_names_gujarati(n: Seq<char>) -> bool {
    n == seq!['g', 'u', 'j', 'a', 'r', 'a', 't', 'i'] || n == seq!['g', 'u', 'j', 'r']
}

fn is_script_names_gujarati(n: &[char]) -> (r: bool)
    ensures
        r == script_names_gujarati(n@),
{
    let w0: [char; 8] = ['g', 'u', 'j', 'a', 'r', 'a', 't', 'i'];
    assert(w0@ =~= seq!['g', 'u', 'j', 'a', 'r', 'a', 't', 'i']);
    let w1: [char; 4] = ['g', 'u', 'j', 'r'];
    assert(w1@ =~= seq!['g', 'u', 'j', 'r']);
    chars_eq(n, &w0) || chars_eq(n, &w1)
}

/// The normalized names of the script Gurung_Khema.
pub open spec fn script_names_gurung_khema(n: Seq<char>) -> bool {
    n == seq!['g', 'u', 'k', 'h'] || n == seq!['g', 'u', 'r', 'u', 'n', 'g', 'k', 'h', 'e', 'm', 'a']
}

fn is_script_names_gurung_khema(n: &[char]) -> (r: bool)
    ensures
        r == script_names_gurung_khema(n@),
{
    let w0: [char; 4] = ['g', 'u', 'k', 'h'];
    assert(w0@ =~= seq!['g', 'u', 'k', 'h']);
    let w1: [char; 11] = ['g', 'u', 'r', 'u', 'n', 'g', 'k', 'h', 'e', 'm', 'a'];
    assert(w1@ =~= seq!['g', 'u', 'r', 'u', 'n', 'g', 'k', 'h', 'e', 'm', 'a']);
    chars_eq(n, &w0) || chars_eq(n, &w1)
}

/// The normalized names of the script Gurmukhi.
pub open spec fn script_names_gurmukhi(n: Seq<char>) -> bool {
    n == seq!['g', 'u', 'r', 'm', 'u', 'k', 'h', 'i'] || n == seq!['g', 'u', 'r', 'u']
}

fn is_script_names_gurmukhi(n: &[char]) -> (r: bool)
    ensures
        r == script_names_gurmukhi(n@),
{
    let w0: [char; 8] = ['g', 'u', 'r', 'm', 'u', 'k', 'h', 'i'];
    assert(w0@ =~= seq!['g', 'u', 'r', 'm', 'u', 'k', 'h', 'i']);
    let w1: [char; 4] = ['g', 'u', 'r', 'u'];
    assert(w1@ =~= seq!['g', 'u', 'r', 'u']);
    chars_eq(n, &w0) || chars_eq(n, &w1)
}

/// The normalized names of the script Han.
pub open spec fn script_names_han(n: Seq<char>) -> bool {
    n == seq!['h', 'a', 'n'] || n == seq!['h', 'a', 'n', 'i']
}

fn is_script_names_han(n: &[char]) -> (r: bool)
    ensures
        r == script_names_han(n@),
{
    let w0: [char; 3] = ['h', 'a', 'n'];
    assert(w0@ =~= seq!['h', 'a', 'n']);
    let w1: [char; 4] = ['h', 'a', 'n', 'i'];
    assert(w1@ =~= seq!['h', 'a', 'n', 'i']);
    chars_eq(n, &w0) || chars_eq(n, &w1)
}

/// The normalized names of the script Hangul.
pub open spec fn script_names_hangul(n: Seq<char>) -> bool {
    n == seq!['h', 'a', 'n', 'g'] || n == seq!['h', 'a', 'n', 'g', 'u', 'l']
}

fn is_script_names_hangul(n: &[char]) -> (r: bool)
    ensures
        r == script_names_hangul(n@),
{
    let w0: [char; 4] = ['h', 'a', 'n', 'g'];
    assert(w0@ =~= seq!['h', 'a', 'n', 'g']);
    let w1: [char; 6] = ['h', 'a', 'n', 'g', 'u', 'l'];
    assert(w1@ =~= seq!['h', 'a', 'n', 'g', 'u', 'l']);
    chars_eq(n, &w0) || chars_eq(n, &w1)
}

/// The normalized names of the script Hanifi_Rohingya.
pub open spec fn script_names_hanifi_rohingya(n: Seq<char>) -> bool {
    n == seq!['h', 'a', 'n', 'i', 'f', 'i', 'r', 'o', 'h', 'i', 'n', 'g', 'y', 'a'] || n == seq!['r', 'o', 'h', 'g']
}

fn is_script_names_hanifi_rohingya(n: &[char]) -> (r: bool)
    ensures
        r == script_names_hanifi_rohingya(n@),
{
    let w0: [char; 14] = ['h', 'a', 'n', 'i', 'f', 'i', 'r', 'o', 'h', 'i', 'n', 'g', 'y', 'a'];
    assert(w0@ =~= seq!['h', 'a', 'n', 'i', 'f', 'i', 'r', 'o', 'h', 'i', 'n', 'g', 'y', 'a']);
    let w1: [char; 4] = ['r', 'o', 'h', 'g'];
    assert(w1@ =~= seq!['r', 'o', 'h', 'g']);
    chars_eq(n, &w0) || chars_eq(n, &w1)
}

/// The normalized names of the script Hanunoo.
pub open spec fn script_names_hanunoo(n: Seq<char>) -> bool {
    n == seq!['h', 'a', 'n', 'o'] || n == seq!['h', 'a', 'n', 'u', 'n', 'o', 'o']
}

fn is_script_names_hanunoo(n: &[char]) -> (r: bool)
    ensures
        r == script_names_hanunoo(n@),
{
    let w0: [char; 4] = ['h', 'a', 'n', 'o'];
    assert(w0@ =~= seq!['h', 'a', 'n', 'o']);
    let w1: [char; 7] = ['h', 'a', 'n', 'u', 'n', 'o', 'o'];
    assert(w1@ =~= seq!['h', 'a', 'n', 'u', 'n', 'o', 'o']);
    chars_eq(n, &w0) || chars_eq(n, &w1)
}

/// The normalized names of the script Hatran.
pub open spec fn script_names_hatran(n: Seq<char>) -> bool {
    n == seq!['h', 'a', 't', 'r'] || n == seq!['h', 'a', 't', 'r', 'a', 'n']
}

fn is_script_names_hatran(n: &[char]) -> (r: bool)
    ensures
        r == script_names_hatran(n@),
{
    let w0: [char; 4] = ['h', 'a', 't', 'r'];
    assert(w0@ =~= seq!['h', 'a', 't', 'r']);
    let w1: [char; 6] = ['h', 'a', 't', 'r', 'a', 'n'];
    assert(w1@ =~= seq!['h', 'a', 't', 'r', 'a', 'n']);
    chars_eq(n, &w0) || chars_eq(n, &w1)
}

/// The normalized names of the script Hebrew.
pub open spec fn script_names_hebrew(n: Seq<char>) -> bool {
    n == seq!['h', 'e', 'b', 'r'] || n == seq!['h', 'e', 'b', 'r', 'e', 'w']
}

fn is_script_names_hebrew(n: &[char]) -> (r: bool)
    ensures
        r == script_names_hebrew(n@),
{
    let w0: [char; 4] = ['h', 'e', 'b', 'r'];
    assert(w0@ =~= seq!['h', 'e', 'b', 'r']);
    let w1: [char; 6] = ['h', 'e', 'b', 'r', 'e', 'w'];
    assert(w1@ =~= seq!['h', 'e', 'b', 'r', 'e', 'w']);
    chars_eq(n, &w0) || chars_eq(n, &w1)
}

/// The normalized names of the script Hiragana.
pub open spec fn script_names_hiragana(n: Seq<char>) -> bool {
    n == seq!['h', 'i', 'r', 'a'] || n == seq!['h', 'i', 'r', 'a', 'g', 'a', 'n', 'a']
}

fn is_script_names_hiragana(n: &[char]) -> (r: bool)
    ensures
        r == script_names_hiragana(n@),
{
    let w0: [char; 4] = ['h', 'i', 'r', 'a'];
    assert(w0@ =~= seq!['h', 'i', 'r', 'a']);
    let w1: [char; 8] = ['h', 'i', 'r', 'a', 'g', 'a', 'n', 'a'];
    assert(w1@ =~= seq!['h', 'i', 'r', 'a', 'g', 'a', 'n', 'a']);
    chars_eq(n, &w0) || chars_eq(n, &w1)
}

/// The normalized names of the script Pahawh_Hmong.
pub open spec fn script_names_pahawh_hmong(n: Seq<char>) -> bool {
    n == seq!['h', 'm', 'n', 'g'] || n == seq!['p', 'a', 'h', 'a', 'w', 'h', 'h', 'm', 'o', 'n', 'g']
}

fn is_script_names_pahawh_hmong(n: &[char]) -> (r: bool)
    ensures
        r == script_names_pahawh_hmong(n@),
{
    let w0: [char; 4] = ['h', 'm', 'n', 'g'];
    assert(w0@ =~= seq!['h', 'm', 'n', 'g']);
    let w1: [char; 11] = ['p', 'a', 'h', 'a', 'w', 'h', 'h', 'm', 'o', 'n', 'g'];
    assert(w1@ =~= seq!['p', 'a', 'h', 'a', 'w', 'h', 'h', 'm', 'o', 'n', 'g']);
    chars_eq(n, &w0) || chars_eq(n, &w1)
}

/// The normalized names of the script Nyiakeng_Puachue_Hmong.
pub open spec fn script_names_nyiakeng_puachue_hmong(n: Seq<char>) -> bool {
    n == seq!['h', 'm', 'n', 'p'] || n == seq!['n', 'y', 'i', 'a', 'k', 'e', 'n', 'g', 'p', 'u', 'a', 'c', 'h', 'u', 'e', 'h', 'm', 'o', 'n', 'g']
}

fn is_script_names_nyiakeng_puachue_hmong(n: &[char]) -> (r: bool)
    ensures
        r == script_names_nyiakeng_puachue_hmong(n@),
{
    let w0: [char; 4] = ['h', 'm', 'n', 'p'];
    assert(w0@ =~= seq!['h', 'm', 'n', 'p']);
    let w1: [char; 20] = ['n', 'y', 'i', 'a', 'k', 'e', 'n', 'g', 'p', 'u', 'a', 'c', 'h', 'u', 'e', 'h', 'm', 'o', 'n', 'g'];
    assert(w1@ =~= seq!['n', 'y', 'i', 'a', 'k', 'e', 'n', 'g', 'p', 'u', 'a', 'c', 'h', 'u', 'e', 'h', 'm', 'o', 'n', 'g']);
    chars_eq(n, &w0) || chars_eq(n, &w1)
}

/// The normalized names of the script Katakana_Or_Hiragana.
pub open spec fn script_names_katakana_or_hiragana(n: Seq<char>) -> bool {
    n == seq!['h', 'r', 'k', 't'] || n == seq!['k', 'a', 't', 'a', 'k', 'a', 'n', 'a', 'o', 'r', 'h', 'i', 'r', 'a', 'g', 'a', 'n', 'a']
}

fn is_script_names_katakana_or_hiragana(n: &[char]) -> (r: bool)
    ensures
        r == script_names_katakana_or_hiragana(n@),
{
    let w0: [char; 4] = ['h', 'r', 'k', 't'];
    assert(w0@ =~= seq!['h', 'r', 'k', 't']);
    let w1: [char; 18] = ['k', 'a', 't', 'a', 'k', 'a', 'n', 'a', 'o', 'r', 'h', 'i', 'r', 'a', 'g', 'a', 'n', 'a'];
    assert(w1@ =~= seq!['k', 'a', 't', 'a', 'k', 'a', 'n', 'a', 'o', 'r', 'h', 'i', 'r', 'a', 'g', 'a', 'n', 'a']);
    chars_eq(n, &w0) || chars_eq(n, &w1)
}

/// The normalized names of the script Old_Hungarian.
pub open spec fn script_names_old_hungarian(n: Seq<char>) -> bool {
    n == seq!['h', 'u', 'n', 'g'] || n == seq!['o', 'l', 'd', 'h', 'u', 'n', 'g', 'a', 'r', 'i', 'a', 'n']
}

fn is_script_names_old_hungarian(n: &[char]) -> (r: bool)
    ensures
        r == script_names_old_hungarian(n@),
{
    let w0: [char; 4] = ['h', 'u', 'n', 'g'];
    assert(w0@ =~= seq!['h', 'u', 'n', 'g']);
    let w1: [char; 12] = ['o', 'l', 'd', 'h', 'u', 'n', 'g', 'a', 'r', 'i', 'a', 'n'];
    assert(w1@ =~= seq!['o', 'l', 'd', 'h', 'u', 'n', 'g', 'a', 'r', 'i', 'a', 'n']);
    chars_eq(n, &w0) || chars_eq(n, &w1)
}

/// The normalized names of the script Inherited.
pub open spec fn script_names_inherited(n: Seq<char>) -> bool {
    n == seq!['i', 'n', 'h', 'e', 'r', 'i', 't', 'e', 'd'] || n == seq!['q', 'a', 'a', 'i'] || n == seq!['z', 'i', 'n', 'h']
}

fn is_script_names_inherited(n: &[char]) -> (r: bool)
    ensures
        r == script_names_inherited(n@),
{
    let w0: [char; 9] = ['i', 'n', 'h', 'e', 'r', 'i', 't', 'e', 'd'];
    assert(w0@ =~= seq!['i', 'n', 'h', 'e', 'r', 'i', 't', 'e', 'd']);
    let w1: [char; 4] = ['q', 'a', 'a', 'i'];
    assert(w1@ =~= seq!['q', 'a', 'a', 'i']);
    let w2: [char; 4] = ['z', 'i', 'n', 'h'];
    assert(w2@ =~= seq!['z', 'i', 'n', 'h']);
    chars_eq(n, &w0) || chars_eq(n, &w1) || chars_eq(n, &w2)
}

/// The normalized names of the script Inscriptional_Pahlavi.
pub open spec fn script_names_inscriptional_pahlavi(n: Seq<char>) -> bool {
    n == seq!['i', 'n', 's', 'c', 'r', 'i', 'p', 't', 'i', 'o', 'n', 'a', 'l', 'p', 'a', 'h', 'l', 'a', 'v', 'i'] || n == seq!['p', 'h', 'l', 'i']
}

fn is_script_names_inscriptional_pahlavi(n: &[char]) -> (r: bool)
    ensures
        r == script_names_inscriptional_pahlavi(n@),
{
    let w0: [char; 20] = ['i', 'n', 's', 'c', 'r', 'i', 'p', 't', 'i', 'o', 'n', 'a', 'l', 'p', 'a', 'h', 'l', 'a', 'v', 'i'];
    assert(w0@ =~= seq!['i', 'n', 's', 'c', 'r', 'i', 'p', 't', 'i', 'o', 'n', 'a', 'l', 'p', 'a', 'h', 'l', 'a', 'v', 'i']);
    let w1: [char; 4] = ['p', 'h', 'l', 'i'];
    assert(w1@ =~= seq!['p', 'h', 'l', 'i']);
    chars_eq(n, &w0) || chars_eq(n, &w1)
}

/// The normalized names of the script Inscriptional_Parthian.
pub open spec fn script_names_inscriptional_parthian(n: Seq<char>) -> bool {
    n == seq!['i', 'n', 's', 'c', 'r', 'i', 'p', 't', 'i', 'o', 'n', 'a', 'l', 'p', 'a', 'r', 't', 'h', 'i', 'a', 'n'] || n == seq!['p', 'r', 't', 'i']
}

fn is_script_names_inscriptional_parthian(n: &[char]) -> (r: bool)
    ensures
        r == script_names_inscriptional_parthian(n@),
{
    let w0: [char; 21] = ['i', 'n', 's', 'c', 'r', 'i', 'p', 't', 'i', 'o', 'n', 'a', 'l', 'p', 'a', 'r', 't', 'h', 'i', 'a', 'n'];
    assert(w0@ =~= seq!['i', 'n', 's', 'c', 'r', 'i', 'p', 't', 'i', 'o', 'n', 'a', 'l', 'p', 'a', 'r', 't', 'h', 'i', 'a', 'n']);
    let w1: [char; 4] = ['p', 'r', 't', 'i'];
    assert(w1@ =~= seq!['p', 'r', 't', 'i']);
    chars_eq(n, &w0) || chars_eq(n, &w1)
}

/// The normalized names of the script Old_Italic.
pub open spec fn script_names_old_italic(n: Seq<char>) -> bool {
    n == seq!['i', 't', 'a', 'l'] || n == seq!['o', 'l', 'd', 'i', 't', 'a', 'l', 'i', 'c']
}

fn is_script_names_old_italic(n: &[char]) -> (r: bool)
    ensures
        r == script_names_old_italic(n@),
{
    let w0: [char; 4] = ['i', 't', 'a', 'l'];
    assert(w0@ =~= seq!['i', 't', 'a', 'l']);
    let w1: [char; 9] = ['o', 'l', 'd', 'i', 't', 'a', 'l', 'i', 'c'];
    assert(w1@ =~= seq!['o', 'l', 'd', 'i', 't', 'a', 'l', 'i', 'c']);
    chars_eq(n, &w0) || chars_eq(n, &w1)
}

/// The normalized names of the script Javanese.
pub open spec fn script_names_javanese(n: Seq<char>) -> bool {
    n == seq!['j', 'a', 'v', 'a'] || n == seq!['j', 'a', 'v', 'a', 'n', 'e', 's', 'e']
}

fn is_script_names_javanese(n: &[char]) -> (r: bool)
    ensures
        r == script_names_javanese(n@),
{
    let w0: [char; 4] = ['j', 'a', 'v', 'a'];
    assert(w0@ =~= seq!['j', 'a', 'v', 'a']);
    let w1: [char; 8] = ['j', 'a', 'v', 'a', 'n', 'e', 's', 'e'];
    assert(w1@ =~= seq!['j', 'a', 'v', 'a', 'n', 'e', 's', 'e']);
    chars_eq(n, &w0) || chars_eq(n, &w1)
}

/// The normalized names of the script Kaithi.
pub open spec fn script_names_kaithi(n: Seq<char>) -> bool {
    n == seq!['k', 'a', 'i', 't', 'h', 'i'] || n == seq!['k', 't', 'h', 'i']
}

fn is_script_names_kaithi(n: &[char]) -> (r: bool)
    ensures
        r == script_names_kaithi(n@),
{
    let w0: [char; 6] = ['k', 'a', 'i', 't', 'h', 'i'];
    assert(w0@ =~= seq!['k', 'a', 'i', 't', 'h', 'i']);
    let w1: [char; 4] = ['k', 't', 'h', 'i'];
    assert(w1@ =~= seq!['k', 't', 'h', 'i']);
    chars_eq(n, &w0) || chars_eq(n, &w1)
}

/// The normalized names of the script Kayah_Li.
pub open spec fn script_names_kayah_li(n: Seq<char>) -> bool {
    n == seq!['k', 'a', 'l', 'i'] || n == seq!['k', 'a', 'y', 'a', 'h', 'l', 'i']
}

fn is_script_names_kayah_li(n: &[char]) -> (r: bool)
    ensures
        r == script_names_kayah_li(n@),
{
    let w0: [char; 4] = ['k', 'a', 'l', 'i'];
    assert(w0@ =~= seq!['k', 'a', 'l', 'i']);
    let w1: [char; 7] = ['k', 'a', 'y', 'a', 'h', 'l', 'i'];
    assert(w1@ =~= seq!['k', 'a', 'y', 'a', 'h', 'l', 'i']);
    chars_eq(n, &w0) || chars_eq(n, &w1)
}

/// The normalized names of the script Katakana.
pub open spec fn script_names_katakana(n: Seq<char>) -> bool {
    n == seq!['k', 'a', 'n', 'a'] || n == seq!['k', 'a', 't', 'a', 'k', 'a', 'n', 'a']
}

fn is_script_names_katakana(n: &[char]) -> (r: bool)
    ensures
        r == script_names_katakana(n@),
{
    let w0: [char; 4] = ['k', 'a', 'n', 'a'];
    assert(w0@ =~= seq!['k', 'a', 'n', 'a']);
    let w1: [char; 8] = ['k', 'a', 't', 'a', 'k', 'a', 'n', 'a'];
    assert(w1@ =~= seq!['k', 'a', 't', 'a', 'k', 'a', 'n', 'a']);
    chars_eq(n, &w0) || chars_eq(n, &w1)
}

/// The normalized names of the script Kannada.
pub open spec fn script_names_kannada(n: Seq<char>) -> bool {
    n == seq!['k', 'a', 'n', 'n', 'a', 'd', 'a'] || n == seq!['k', 'n', 'd', 'a']
}

fn is_script_names_kannada(n: &[char]) -> (r: bool)
    ensures
        r == script_names_kannada(n@),
{
    let w0: [char; 7] = ['k', 'a', 'n', 'n', 'a', 'd', 'a'];
    assert(w0@ =~= seq!['k', 'a', 'n', 'n', 'a', 'd', 'a']);
    let w1: [char; 4] = ['k', 'n', 'd', 'a'];
    assert(w1@ =~= seq!['k', 'n', 'd', 'a']);
    chars_eq(n, &w0) || chars_eq(n, &w1)
}

/// The normalized names of the script Kawi.
pub open spec fn script_names_kawi(n: Seq<char>) -> bool {
    n == seq!['k', 'a', 'w', 'i']
}

fn is_script_names_kawi(n: &[char]) -> (r: bool)
    ensures
        r == script_names_kawi(n@),
{
    let w0: [char; 4] = ['k', 'a', 'w', 'i'];
    assert(w0@ =~= seq!['k', 'a', 'w', 'i']);
    chars_eq(n, &w0)
}

/// The normalized names of the script Kharoshthi.
pub open spec fn script_names_kharoshthi(n: Seq<char>) -> bool {
    n == seq!['k', 'h', 'a', 'r'] || n == seq!['k', 'h', 'a', 'r', 'o', 's', 'h', 't', 'h', 'i']
}

fn is_script_names_kharoshthi(n: &[char]) -> (r: bool)
    ensures
        r == script_names_kharoshthi(n@),
{
    let w0: [char; 4] = ['k', 'h', 'a', 'r'];
    assert(w0@ =~= seq!['k', 'h', 'a', 'r']);
    let w1: [char; 10] = ['k', 'h', 'a', 'r', 'o', 's', 'h', 't', 'h', 'i'];
    assert(w1@ =~= seq!['k', 'h', 'a', 'r', 'o', 's', 'h', 't', 'h', 'i']);
    chars_eq(n, &w0) || chars_eq(n, &w1)
}

/// The normalized names of the script Khitan_Small_Script.
pub open spec fn script_names_khitan_small_script(n: Seq<char>) -> bool {
    n == seq!['k', 'h', 'i', 't', 'a', 'n', 's', 'm', 'a', 'l', 'l', 's', 'c', 'r', 'i', 'p', 't'] || n == seq!['k', 'i', 't', 's']
}

fn is_script_names_khitan_small_script(n: &[char]) -> (r: bool)
    ensures
        r == script_names_khitan_small_script(n@),
{
    let w0: [char; 17] = ['k', 'h', 'i', 't', 'a', 'n', 's', 'm', 'a', 'l', 'l', 's', 'c', 'r', 'i', 'p', 't'];
    assert(w0@ =~= seq!['k', 'h', 'i', 't', 'a', 'n', 's', 'm', 'a', 'l', 'l', 's', 'c', 'r', 'i', 'p', 't']);
    let w1: [char; 4] = ['k', 'i', 't', 's'];
    assert(w1@ =~= seq!['k', 'i', 't', 's']);
    chars_eq(n, &w0) || chars_eq(n, &w1)
}

/// The normalized names of the script Khmer.
pub open spec fn script_names_khmer(n: Seq<char>) -> bool {
    n == seq!['k', 'h', 'm', 'e', 'r'] || n == seq!['k', 'h', 'm', 'r']
}

fn is_script_names_khmer(n: &[char]) -> (r: bool)
    ensures
        r == script_names_khmer(n@),
{
    let w0: [char; 5] = ['k', 'h', 'm', 'e', 'r'];
    assert(w0@ =~= seq!['k', 'h', 'm', 'e', 'r']);
    let w1: [char; 4] = ['k', 'h', 'm', 'r'];
    assert(w1@ =~= seq!['k', 'h', 'm', 'r']);
    chars_eq(n, &w0) || chars_eq(n, &w1)
}

/// The normalized names of the script Khojki.
pub open spec fn script_names_khojki(n: Seq<char>) -> bool {
    n == seq!['k', 'h', 'o', 'j'] || n == seq!['k', 'h', 'o', 'j', 'k', 'i']
}

fn is_script_names_khojki(n: &[char]) -> (r: bool)
    ensures
        r == script_names_khojki(n@),
{
    let w0: [char; 4] = ['k', 'h', 'o', 'j'];
    assert(w0@ =~= seq!['k', 'h', 'o', 'j']);
    let w1: [char; 6] = ['k', 'h', 'o', 'j', 'k', 'i'];
    assert(w1@ =~= seq!['k', 'h', 'o', 'j', 'k', 'i']);
    chars_eq(n, &w0) || chars_eq(n, &w1)
}

/// The normalized names of the script Khudawadi.
pub open spec fn script_names_khudawadi(n: Seq<char>) -> bool {
    n == seq!['k', 'h', 'u', 'd', 'a', 'w', 'a', 'd', 'i'] || n == seq!['s', 'i', 'n', 'd']
}

fn is_script_names_khudawadi(n: &[char]) -> (r: bool)
    ensures
        r == script_names_khudawadi(n@),
{
    let w0: [char; 9] = ['k', 'h', 'u', 'd', 'a', 'w', 'a', 'd', 'i'];
    assert(w0@ =~= seq!['k', 'h', 'u', 'd', 'a', 'w', 'a', 'd', 'i']);
    let w1: [char; 4] = ['s', 'i', 'n', 'd'];
    assert(w1@ =~= seq!['s', 'i', 'n', 'd']);
    chars_eq(n, &w0) || chars_eq(n, &w1)
}

/// The normalized names of the script Kirat_Rai.
pub open spec fn script_names_kirat_rai(n: Seq<char>) -> bool {
    n == seq!['k', 'i', 'r', 'a', 't', 'r', 'a', 'i'] || n == seq!['k', 'r', 'a', 'i']
}

fn is_script_names_kirat_rai(n: &[char]) -> (r: bool)
    ensures
        r == script_names_kirat_rai(n@),
{
    let w0: [char; 8] = ['k', 'i', 'r', 'a', 't', 'r', 'a', 'i'];
    assert(w0@ =~= seq!['k', 'i', 'r', 'a', 't', 'r', 'a', 'i']);
    let w1: [char; 4] = ['k', 'r', 'a', 'i'];
    assert(w1@ =~= seq!['k', 'r', 'a', 'i']);
    chars_eq(n, &w0) || chars_eq(n, &w1)
}

/// The normalized names of the script Tai_Tham.
pub open spec fn script_names_tai_tham(n: Seq<char>) -> bool {
    n == seq!['l', 'a', 'n', 'a'] || n == seq!['t', 'a', 'i', 't', 'h', 'a', 'm']
}

fn is_script_names_tai_tham(n: &[char]) -> (r: bool)
    ensures
        r == script_names_tai_tham(n@),
{
    let w0: [char; 4] = ['l', 'a', 'n', 'a'];
    assert(w0@ =~= seq!['l', 'a', 'n', 'a']);
    let w1: [char; 7] = ['t', 'a', 'i', 't', 'h', 'a', 'm'];
    assert(w1@ =~= seq!['t', 'a', 'i', 't', 'h', 'a', 'm']);
    chars_eq(n, &w0) || chars_eq(n, &w1)
}

/// The normalized names of the script Lao.
pub open spec fn script_names_lao(n: Seq<char>) -> bool {
    n == seq!['l', 'a', 'o'] || n == seq!['l', 'a', 'o', 'o']
}

fn is_script_names_lao(n: &[char]) -> (r: bool)
    ensures
        r == script_names_lao(n@),
{
    let w0: [char; 3] = ['l', 'a', 'o'];
    assert(w0@ =~= seq!['l', 'a', 'o']);
    let w1: [char; 4] = ['l', 'a', 'o', 'o'];
    assert(w1@ =~= seq!['l', 'a', 'o', 'o']);
    chars_eq(n, &w0) || chars_eq(n, &w1)
}

/// The normalized names of the script Latin.
pub open spec fn script_names_latin(n: Seq<char>) -> bool {
    n == seq!['l', 'a', 't', 'i', 'n'] || n == seq!['l', 'a', 't', 'n']
}

fn is_script_names_latin(n: &[char]) -> (r: bool)
    ensures
        r == script_names_latin(n@),
{
    let w0: [char; 5] = ['l', 'a', 't', 'i', 'n'];
    assert(w0@ =~= seq!['l', 'a', 't', 'i', 'n']);
    let w1: [char; 4] = ['l', 'a', 't', 'n'];
    assert(w1@ =~= seq!['l', 'a', 't', 'n']);
    chars_eq(n, &w0) || chars_eq(n, &w1)
}

/// The normalized names of the script Lepcha.
pub open spec fn script_names_lepcha(n: Seq<char>) -> bool {
    n == seq!['l', 'e', 'p', 'c'] || n == seq!['l', 'e', 'p', 'c', 'h', 'a']
}

fn is_script_names_lepcha(n: &[char]) -> (r: bool)
    ensures
        r == script_names_lepcha(n@),
{
    let w0: [char; 4] = ['l', 'e', 'p', 'c'];
    assert(w0@ =~= seq!['l', 'e', 'p', 'c']);
    let w1: [char; 6] = ['l', 'e', 'p', 'c', 'h', 'a'];
    assert(w1@ =~= seq!['l', 'e', 'p', 'c', 'h', 'a']);
    chars_eq(n, &w0) || chars_eq(n, &w1)
}

/// The normalized names of the script Limbu.
pub open spec fn script_names_limbu(n: Seq<char>) -> bool {
    n == seq!['l', 'i', 'm', 'b'] || n == seq!['l', 'i', 'm', 'b', 'u']
}

fn is_script_names_limbu(n: &[char]) -> (r: bool)
    ensures
        r == script_names_limbu(n@),
{
    let w0: [char; 4] = ['l', 'i', 'm', 'b'];
    assert(w0@ =~= seq!['l', 'i', 'm', 'b']);
    let w1: [char; 5] = ['l', 'i', 'm', 'b', 'u'];
    assert(w1@ =~= seq!['l', 'i', 'm', 'b', 'u']);
    chars_eq(n, &w0) || chars_eq(n, &w1)
}

/// The normalized names of the script Linear_A.
pub open spec fn script_names_linear_a(n: Seq<char>) -> bool {
    n == seq!['l', 'i', 'n', 'a'] || n == seq!['l', 'i', 'n', 'e', 'a', 'r', 'a']
}

fn is_script_names_linear_a(n: &[char]) -> (r: bool)
    ensures
        r == script_names_linear_a(n@),
{
    let w0: [char; 4] = ['l', 'i', 'n', 'a'];
    assert(w0@ =~= seq!['l', 'i', 'n', 'a']);
    let w1: [char; 7] = ['l', 'i', 'n', 'e', 'a', 'r', 'a'];
    assert(w1@ =~= seq!['l', 'i', 'n', 'e', 'a', 'r', 'a']);
    chars_eq(n, &w0) || chars_eq(n, &w1)
}

/// The normalized names of the script Linear_B.
pub open spec fn script_names_linear_b(n: Seq<char>) -> bool {
    n == seq!['l', 'i', 'n', 'b'] || n == seq!['l', 'i', 'n', 'e', 'a', 'r', 'b']
}

fn is_script_names_linear_b(n: &[char]) -> (r: bool)
    ensures
        r == script_names_linear_b(n@),
{
    let w0: [char; 4] = ['l', 'i', 'n', 'b'];
    assert(w0@ =~= seq!['l', 'i', 'n', 'b']);
    let w1: [char; 7] = ['l', 'i', 'n', 'e', 'a', 'r', 'b'];
    assert(w1@ =~= seq!['l', 'i', 'n', 'e', 'a', 'r', 'b']);
    chars_eq(n, &w0) || chars_eq(n, &w1)
}

/// The normalized names of the script Lisu.
pub open spec fn script_names_lisu(n: Seq<char>) -> bool {
    n == seq!['l', 'i', 's', 'u']
}

fn is_script_names_lisu(n: &[char]) -> (r: bool)
    ensures
        r == script_names_lisu(n@),
{
    let w0: [char; 4] = ['l', 'i', 's', 'u'];
    assert(w0@ =~= seq!['l', 'i', 's', 'u']);
    chars_eq(n, &w0)
}

/// The normalized names of the script Lycian.
pub open spec fn script_names_lycian(n: Seq<char>) -> bool {
    n == seq!['l', 'y', 'c', 'i'] || n == seq!['l', 'y', 'c', 'i', 'a', 'n']
}

fn is_script_names_lycian(n: &[char]) -> (r: bool)
    ensures
        r == script_names_lycian(n@),
{
    let w0: [char; 4] = ['l', 'y', 'c', 'i'];
    assert(w0@ =~= seq!['l', 'y', 'c', 'i']);
    let w1: [char; 6] = ['l', 'y', 'c', 'i', 'a', 'n'];
    assert(w1@ =~= seq!['l', 'y', 'c', 'i', 'a', 'n']);
    chars_eq(n, &w0) || chars_eq(n, &w1)
}

/// The normalized names of the script Lydian.
pub open spec fn script_names_lydian(n: Seq<char>) -> bool {
    n == seq!['l', 'y', 'd', 'i'] || n == seq!['l', 'y', 'd', 'i', 'a', 'n']
}

fn is_script_names_lydian(n: &[char]) -> (r: bool)
    ensures
        r == script_names_lydian(n@),
{
    let w0: [char; 4] = ['l', 'y', 'd', 'i'];
    assert(w0@ =~= seq!['l', 'y', 'd', 'i']);
    let w1: [char; 6] = ['l', 'y', 'd', 'i', 'a', 'n'];
    assert(w1@ =~= seq!['l', 'y', 'd', 'i', 'a', 'n']);
    chars_eq(n, &w0) || chars_eq(n, &w1)
}

/// The normalized names of the script Mahajani.
pub open spec fn script_names_mahajani(n: Seq<char>) -> bool {
    n == seq!['m', 'a', 'h', 'a', 'j', 'a', 'n', 'i'] || n == seq!['m', 'a', 'h', 'j']
}

fn is_script_names_mahajani(n: &[char]) -> (r: bool)
    ensures
        r == script_names_mahajani(n@),
{
    let w0: [char; 8] = ['m', 'a', 'h', 'a', 'j', 'a', 'n', 'i'];
    assert(w0@ =~= seq!['m', 'a', 'h', 'a', 'j', 'a', 'n', 'i']);
    let w1: [char; 4] = ['m', 'a', 'h', 'j'];
    assert(w1@ =~= seq!['m', 'a', 'h', 'j']);
    chars_eq(n, &w0) || chars_eq(n, &w1)
}

/// The normalized names of the script Makasar.
pub open spec fn script_names_makasar(n: Seq<char>) -> bool {
    n == seq!['m', 'a', 'k', 'a'] || n == seq!['m', 'a', 'k', 'a', 's', 'a', 'r']
}

fn is_script_names_makasar(n: &[char]) -> (r: bool)
    ensures
        r == script_names_makasar(n@),
{
    let w0: [char; 4] = ['m', 'a', 'k', 'a'];
    assert(w0@ =~= seq!['m', 'a', 'k', 'a']);
    let w1: [char; 7] = ['m', 'a', 'k', 'a', 's', 'a', 'r'];
    assert(w1@ =~= seq!['m', 'a', 'k', 'a', 's', 'a', 'r']);
    chars_eq(n, &w0) || chars_eq(n, &w1)
}

/// The normalized names of the script Malayalam.
pub open spec fn script_names_malayalam(n: Seq<char>) -> bool {
    n == seq!['m', 'a', 'l', 'a', 'y', 'a', 'l', 'a', 'm'] || n == seq!['m', 'l', 'y', 'm']
}

fn is_script_names_malayalam(n: &[char]) -> (r: bool)
    ensures
        r == script_names_malayalam(n@),
{
    let w0: [char; 9] = ['m', 'a', 'l', 'a', 'y', 'a', 'l', 'a', 'm'];
    assert(w0@ =~= seq!['m', 'a', 'l', 'a', 'y', 'a', 'l', 'a', 'm']);
    let w1: [char; 4] = ['m', 'l', 'y', 'm'];
    assert(w1@ =~= seq!['m', 'l', 'y', 'm']);
    chars_eq(n, &w0) || chars_eq(n, &w1)
}

/// The normalized names of the script Mandaic.
pub open spec fn script_names_mandaic(n: Seq<char>) -> bool {
    n == seq!['m', 'a', 'n', 'd'] || n == seq!['m', 'a', 'n', 'd', 'a', 'i', 'c']
}

fn is_script_names_mandaic(n: &[char]) -> (r: bool)
    ensures
        r == script_names_mandaic(n@),
{
    let w0: [char; 4] = ['m', 'a', 'n', 'd'];
    assert(w0@ =~= seq!['m', 'a', 'n', 'd']);
    let w1: [char; 7] = ['m', 'a', 'n', 'd', 'a', 'i', 'c'];
    assert(w1@ =~= seq!['m', 'a', 'n', 'd', 'a', 'i', 'c']);
    chars_eq(n, &w0) || chars_eq(n, &w1)
}

/// The normalized names of the script Manichaean.
pub open spec fn script_names_manichaean(n: Seq<char>) -> bool {
    n == seq!['m', 'a', 'n', 'i'] || n == seq!['m', 'a', 'n', 'i', 'c', 'h', 'a', 'e', 'a', 'n']
}

fn is_script_names_manichaean(n: &[char]) -> (r: bool)
    ensures
        r == script_names_manichaean(n@),
{
    let w0: [char; 4] = ['m', 'a', 'n', 'i'];
    assert(w0@ =~= seq!['m', 'a', 'n', 'i']);
    let w1: [char; 10] = ['m', 'a', 'n', 'i', 'c', 'h', 'a', 'e', 'a', 'n'];
    assert(w1@ =~= seq!['m', 'a', 'n', 'i', 'c', 'h', 'a', 'e', 'a', 'n']);
    chars_eq(n, &w0) || chars_eq(n, &w1)
}

/// The normalized names of the script Marchen.
pub open spec fn script_names_marchen(n: Seq<char>) -> bool {
    n == seq!['m', 'a', 'r', 'c'] || n == seq!['m', 'a', 'r', 'c', 'h', 'e', 'n']
}

fn is_script_names_marchen(n: &[char]) -> (r: bool)
    ensures
        r == script_names_marchen(n@),
{
    let w0: [char; 4] = ['m', 'a', 'r', 'c'];
    assert(w0@ =~= seq!['m', 'a', 'r', 'c']);
    let w1: [char; 7] = ['m', 'a', 'r', 'c', 'h', 'e', 'n'];
    assert(w1@ =~= seq!['m', 'a', 'r', 'c', 'h', 'e', 'n']);
    chars_eq(n, &w0) || chars_eq(n, &w1)
}

/// The normalized names of the script Medefaidrin.
pub open spec fn script_names_medefaidrin(n: Seq<char>) -> bool {
    n == seq!['m', 'e', 'd', 'e', 'f', 'a', 'i', 'd', 'r', 'i', 'n'] || n == seq!['m', 'e', 'd', 'f']
}

fn is_script_names_medefaidrin(n: &[char]) -> (r: bool)
    ensures
        r == script_names_medefaidrin(n@),
{
    let w0: [char; 11] = ['m', 'e', 'd', 'e', 'f', 'a', 'i', 'd', 'r', 'i', 'n'];
    assert(w0@ =~= seq!['m', 'e', 'd', 'e', 'f', 'a', 'i', 'd', 'r', 'i', 'n']);
    let w1: [char; 4] = ['m', 'e', 'd', 'f'];
    assert(w1@ =~= seq!['m', 'e', 'd', 'f']);
    chars_eq(n, &w0) || chars_eq(n, &w1)
}

/// The normalized names of the script Meetei_Mayek.
pub open spec fn script_names_meetei_mayek(n: Seq<char>) -> bool {
    n == seq!['m', 'e', 'e', 't', 'e', 'i', 'm', 'a', 'y', 'e', 'k'] || n == seq!['m', 't', 'e', 'i']
}

fn is_script_names_meetei_mayek(n: &[char]) -> (r: bool)
    ensures
        r == script_names_meetei_mayek(n@),
{
    let w0: [char; 11] = ['m', 'e', 'e', 't', 'e', 'i', 'm', 'a', 'y', 'e', 'k'];
    assert(w0@ =~= seq!['m', 'e', 'e', 't', 'e', 'i', 'm', 'a', 'y', 'e', 'k']);
    let w1: [char; 4] = ['m', 't', 'e', 'i'];
    assert(w1@ =~= seq!['m', 't', 'e', 'i']);
    chars_eq(n, &w0) || chars_eq(n, &w1)
}

/// The normalized names of the script Mende_Kikakui.
pub open spec fn script_names_mende_kikakui(n: Seq<char>) -> bool {
    n == seq!['m', 'e', 'n', 'd'] || n == seq!['m', 'e', 'n', 'd', 'e', 'k', 'i', 'k', 'a', 'k', 'u', 'i']
}

fn is_script_names_mende_kikakui(n: &[char]) -> (r: bool)
    ensures
        r == script_names_mende_kikakui(n@),
{
    let w0: [char; 4] = ['m', 'e', 'n', 'd'];
    assert(w0@ =~= seq!['m', 'e', 'n', 'd']);
    let w1: [char; 12] = ['m', 'e', 'n', 'd', 'e', 'k', 'i', 'k', 'a', 'k', 'u', 'i'];
    assert(w1@ =~= seq!['m', 'e', 'n', 'd', 'e', 'k', 'i', 'k', 'a', 'k', 'u', 'i']);
    chars_eq(n, &w0) || chars_eq(n, &w1)
}

/// The normalized names of the script Meroitic_Cursive.
pub open spec fn script_names_meroitic_cursive(n: Seq<char>) -> bool {
    n == seq!['m', 'e', 'r', 'c'] || n == seq!['m', 'e', 'r', 'o', 'i', 't', 'i', 'c', 'c', 'u', 'r', 's', 'i', 'v', 'e']
}

fn is_script_names_meroitic_cursive(n: &[char]) -> (r: bool)
    ensures
        r == script_names_meroitic_cursive(n@),
{
    let w0: [char; 4] = ['m', 'e', 'r', 'c'];
    assert(w0@ =~= seq!['m', 'e', 'r', 'c']);
    let w1: [char; 15] = ['m', 'e', 'r', 'o', 'i', 't', 'i', 'c', 'c', 'u', 'r', 's', 'i', 'v', 'e'];
    assert(w1@ =~= seq!['m', 'e', 'r', 'o', 'i', 't', 'i', 'c', 'c', 'u', 'r', 's', 'i', 'v', 'e']);
    chars_eq(n, &w0) || chars_eq(n, &w1)
}

/// The normalized names of the script Meroitic_Hieroglyphs.
pub open spec fn script_names_meroitic_hieroglyphs(n: Seq<char>) -> bool {
    n == seq!['m', 'e', 'r', 'o'] || n == seq!['m', 'e', 'r', 'o', 'i', 't', 'i', 'c', 'h', 'i', 'e', 'r', 'o', 'g', 'l', 'y', 'p', 'h', 's']
}

fn is_script_names_meroitic_hieroglyphs(n: &[char]) -> (r: bool)
    ensures
        r == script_names_meroitic_hieroglyphs(n@),
{
    let w0: [char; 4] = ['m', 'e', 'r', 'o'];
    assert(w0@ =~= seq!['m', 'e', 'r', 'o']);
    let w1: [char; 19] = ['m', 'e', 'r', 'o', 'i', 't', 'i', 'c', 'h', 'i', 'e', 'r', 'o', 'g', 'l', 'y', 'p', 'h', 's'];
    assert(w1@ =~= seq!['m', 'e', 'r', 'o', 'i', 't', 'i', 'c', 'h', 'i', 'e', 'r', 'o', 'g', 'l', 'y', 'p', 'h', 's']);
    chars_eq(n, &w0) || chars_eq(n, &w1)
}

/// The normalized names of the script Miao.
pub open spec fn script_names_miao(n: Seq<char>) -> bool {
    n == seq!['m', 'i', 'a', 'o'] || n == seq!['p', 'l', 'r', 'd']
}

fn is_script_names_miao(n: &[char]) -> (r: bool)
    ensures
        r == script_names_miao(n@),
{
    let w0: [char; 4] = ['m', 'i', 'a', 'o'];
    assert(w0@ =~= seq!['m', 'i', 'a', 'o']);
    let w1: [char; 4] = ['p', 'l', 'r', 'd'];
    assert(w1@ =~= seq!['p', 'l', 'r', 'd']);
    chars_eq(n, &w0) || chars_eq(n, &w1)
}

/// The normalized names of the script Modi.
pub open spec fn script_names_modi(n: Seq<char>) -> bool {
    n == seq!['m', 'o', 'd', 'i']
}

fn is_script_names_modi(n: &[char]) -> (r: bool)
    ensures
        r == script_names_modi(n@),
{
    let w0: [char; 4] = ['m', 'o', 'd', 'i'];
    assert(w0@ =~= seq!['m', 'o', 'd', 'i']);
    chars_eq(n, &w0)
}

/// The normalized names of the script Mongolian.
pub open spec fn script_names_mongolian(n: Seq<char>) -> bool {
    n == seq!['m', 'o', 'n', 'g'] || n == seq!['m', 'o', 'n', 'g', 'o', 'l', 'i', 'a', 'n']
}

fn is_script_names_mongolian(n: &[char]) -> (r: bool)
    ensures
        r == script_names_mongolian(n@),
{
    let w0: [char; 4] = ['m', 'o', 'n', 'g'];
    assert(w0@ =~= seq!['m', 'o', 'n', 'g']);
    let w1: [char; 9] = ['m', 'o', 'n', 'g', 'o', 'l', 'i', 'a', 'n'];
    assert(w1@ =~= seq!['m', 'o', 'n', 'g', 'o', 'l', 'i', 'a', 'n']);
    chars_eq(n, &w0) || chars_eq(n, &w1)
}

/// The normalized names of the script Mro.
pub open spec fn script_names_mro(n: Seq<char>) -> bool {
    n == seq!['m', 'r', 'o'] || n == seq!['m', 'r', 'o', 'o']
}

fn is_script_names_mro(n: &[char]) -> (r: bool)
    ensures
        r == script_names_mro(n@),
{
    let w0: [char; 3] = ['m', 'r', 'o'];
    assert(w0@ =~= seq!['m', 'r', 'o']);
    let w1: [char; 4] = ['m', 'r', 'o', 'o'];
    assert(w1@ =~= seq!['m', 'r', 'o', 'o']);
    chars_eq(n, &w0) || chars_eq(n, &w1)
}

/// The normalized names of the script Multani.
pub open spec fn script_names_multani(n: Seq<char>) -> bool {
    n == seq!['m', 'u', 'l', 't'] || n == seq!['m', 'u', 'l', 't', 'a', 'n', 'i']
}

fn is_script_names_multani(n: &[char]) -> (r: bool)
    ensures
        r == script_names_multani(n@),
{
    let w0: [char; 4] = ['m', 'u', 'l', 't'];
    assert(w0@ =~= seq!['m', 'u', 'l', 't']);
    let w1: [char; 7] = ['m', 'u', 'l', 't', 'a', 'n', 'i'];
    assert(w1@ =~= seq!['m', 'u', 'l', 't', 'a', 'n', 'i']);
    chars_eq(n, &w0) || chars_eq(n, &w1)
}

/// The normalized names of the script Myanmar.
pub open spec fn script_names_myanmar(n: Seq<char>) -> bool {
    n == seq!['m', 'y', 'a', 'n', 'm', 'a', 'r'] || n == seq!['m', 'y', 'm', 'r']
}

fn is_script_names_myanmar(n: &[char]) -> (r: bool)
    ensures
        r == script_names_myanmar(n@),
{
    let w0: [char; 7] = ['m', 'y', 'a', 'n', 'm', 'a', 'r'];
    assert(w0@ =~= seq!['m', 'y', 'a', 'n', 'm', 'a', 'r']);
    let w1: [char; 4] = ['m', 'y', 'm', 'r'];
    assert(w1@ =~= seq!['m', 'y', 'm', 'r']);
    chars_eq(n, &w0) || chars_eq(n, &w1)
}

/// The normalized names of the script Nabataean.
pub open spec fn script_names_nabataean(n: Seq<char>) -> bool {
    n == seq!['n', 'a', 'b', 'a', 't', 'a', 'e', 'a', 'n'] || n == seq!['n', 'b', 'a', 't']
}

fn is_script_names_nabataean(n: &[char]) -> (r: bool)
    ensures
        r == script_names_nabataean(n@),
{
    let w0: [char; 9] = ['n', 'a', 'b', 'a', 't', 'a', 'e', 'a', 'n'];
    assert(w0@ =~= seq!['n', 'a', 'b', 'a', 't', 'a', 'e', 'a', 'n']);
    let w1: [char; 4] = ['n', 'b', 'a', 't'];
    assert(w1@ =~= seq!['n', 'b', 'a', 't']);
    chars_eq(n, &w0) || chars_eq(n, &w1)
}

/// The normalized names of the script Nag_Mundari.
pub open spec fn script_names_nag_mundari(n: Seq<char>) -> bool {
    n == seq!['n', 'a', 'g', 'm'] || n == seq!['n', 'a', 'g', 'm', 'u', 'n', 'd', 'a', 'r', 'i']
}

fn is_script_names_nag_mundari(n: &[char]) -> (r: bool)
    ensures
        r == script_names_nag_mundari(n@),
{
    let w0: [char; 4] = ['n', 'a', 'g', 'm'];
    assert(w0@ =~= seq!['n', 'a', 'g', 'm']);
    let w1: [char; 10] = ['n', 'a', 'g', 'm', 'u', 'n', 'd', 'a', 'r', 'i'];
    assert(w1@ =~= seq!['n', 'a', 'g', 'm', 'u', 'n', 'd', 'a', 'r', 'i']);
    chars_eq(n, &w0) || chars_eq(n, &w1)
}

/// The normalized names of the script Nandinagari.
pub open spec fn script_names_nandinagari(n: Seq<char>) -> bool {
    n == seq!['n', 'a', 'n', 'd'] || n == seq!['n', 'a', 'n', 'd', 'i', 'n', 'a', 'g', 'a', 'r', 'i']
}

fn is_script_names_nandinagari(n: &[char]) -> (r: bool)
    ensures
        r == script_names_nandinagari(n@),
{
    let w0: [char; 4] = ['n', 'a', 'n', 'd'];
    assert(w0@ =~= seq!['n', 'a', 'n', 'd']);
    let w1: [char; 11] = ['n', 'a', 'n', 'd', 'i', 'n', 'a', 'g', 'a', 'r', 'i'];
    assert(w1@ =~= seq!['n', 'a', 'n', 'd', 'i', 'n', 'a', 'g', 'a', 'r', 'i']);
    chars_eq(n, &w0) || chars_eq(n, &w1)
}

/// The normalized names of the script Old_North_Arabian.
pub open spec fn script_names_old_north_arabian(n: Seq<char>) -> bool {
    n == seq!['n', 'a', 'r', 'b'] || n == seq!['o', 'l', 'd', 'n', 'o', 'r', 't', 'h', 'a', 'r', 'a', 'b', 'i', 'a', 'n']
}

fn is_script_names_old_north_arabian(n: &[char]) -> (r: bool)
    ensures
        r == script_names_old_north_arabian(n@),
{
    let w0: [char; 4] = ['n', 'a', 'r', 'b'];
    assert(w0@ =~= seq!['n', 'a', 'r', 'b']);
    let w1: [char; 15] = ['o', 'l', 'd', 'n', 'o', 'r', 't', 'h', 'a', 'r', 'a', 'b', 'i', 'a', 'n'];
    assert(w1@ =~= seq!['o', 'l', 'd', 'n', 'o', 'r', 't', 'h', 'a', 'r', 'a', 'b', 'i', 'a', 'n']);
    chars_eq(n, &w0) || chars_eq(n, &w1)
}

/// The normalized names of the script Newa.
pub open spec fn script_names_newa(n: Seq<char>) -> bool {
    n == seq!['n', 'e', 'w', 'a']
}

fn is_script_names_newa(n: &[char]) -> (r: bool)
    ensures
        r == script_names_newa(n@),
{
    let w0: [char; 4] = ['n', 'e', 'w', 'a'];
    assert(w0@ =~= seq!['n', 'e', 'w', 'a']);
    chars_eq(n, &w0)
}

/// The normalized names of the script New_Tai_Lue.
pub open spec fn script_names_new_tai_lue(n: Seq<char>) -> bool {
    n == seq!['n', 'e', 'w', 't', 'a', 'i', 'l', 'u', 'e'] || n == seq!['t', 'a', 'l', 'u']
}

fn is_script_names_new_tai_lue(n: &[char]) -> (r: bool)
    ensures
        r == script_names_new_tai_lue(n@),
{
    let w0: [char; 9] = ['n', 'e', 'w', 't', 'a', 'i', 'l', 'u', 'e'];
    assert(w0@ =~= seq!['n', 'e', 'w', 't', 'a', 'i', 'l', 'u', 'e']);
    let w1: [char; 4] = ['t', 'a', 'l', 'u'];
    assert(w1@ =~= seq!['t', 'a', 'l', 'u']);
    chars_eq(n, &w0) || chars_eq(n, &w1)
}

/// The normalized names of the script Nko.
pub open spec fn script_names_nko(n: Seq<char>) -> bool {
    n == seq!['n', 'k', 'o'] || n == seq!['n', 'k', 'o', 'o']
}

fn is_script_names_nko(n: &[char]) -> (r: bool)
    ensures
        r == script_names_nko(n@),
{
    let w0: [char; 3] = ['n', 'k', 'o'];
    assert(w0@ =~= seq!['n', 'k', 'o']);
    let w1: [char; 4] = ['n', 'k', 'o', 'o'];
    assert(w1@ =~= seq!['n', 'k', 'o', 'o']);
    chars_eq(n, &w0) || chars_eq(n, &w1)
}

/// The normalized names of the script Nushu.
pub open spec fn script_names_nushu(n: Seq<char>) -> bool {
    n == seq!['n', 's', 'h', 'u'] || n == seq!['n', 'u', 's', 'h', 'u']
}

fn is_script_names_nushu(n: &[char]) -> (r: bool)
    ensures
        r == script_names_nushu(n@),
{
    let w0: [char; 4] = ['n', 's', 'h', 'u'];
    assert(w0@ =~= seq!['n', 's', 'h', 'u']);
    let w1: [char; 5] = ['n', 'u', 's', 'h', 'u'];
    assert(w1@ =~= seq!['n', 'u', 's', 'h', 'u']);
    chars_eq(n, &w0) || chars_eq(n, &w1)
}

/// The normalized names of the script Ogham.
pub open spec fn script_names_ogham(n: Seq<char>) -> bool {
    n == seq!['o', 'g', 'a', 'm'] || n == seq!['o', 'g', 'h', 'a', 'm']
}

fn is_script_names_ogham(n: &[char]) -> (r: bool)
    ensures
        r == script_names_ogham(n@),
{
    let w0: [char; 4] = ['o', 'g', 'a', 'm'];
    assert(w0@ =~= seq!['o', 'g', 'a', 'm']);
    let w1: [char; 5] = ['o', 'g', 'h', 'a', 'm'];
    assert(w1@ =~= seq!['o', 'g', 'h', 'a', 'm']);
    chars_eq(n, &w0) || chars_eq(n, &w1)
}

/// The normalized names of the script Ol_Chiki.
pub open spec fn script_names_ol_chiki(n: Seq<char>) -> bool {
    n == seq!['o', 'l', 'c', 'h', 'i', 'k', 'i'] || n == seq!['o', 'l', 'c', 'k']
}

fn is_script_names_ol_chiki(n: &[char]) -> (r: bool)
    ensures
        r == script_names_ol_chiki(n@),
{
    let w0: [char; 7] = ['o', 'l', 'c', 'h', 'i', 'k', 'i'];
    assert(w0@ =~= seq!['o', 'l', 'c', 'h', 'i', 'k', 'i']);
    let w1: [char; 4] = ['o', 'l', 'c', 'k'];
    assert(w1@ =~= seq!['o', 'l', 'c', 'k']);
    chars_eq(n, &w0) || chars_eq(n, &w1)
}

/// The normalized names of the script Old_Permic.
pub open spec fn script_names_old_permic(n: Seq<char>) -> bool {
    n == seq!['o', 'l', 'd', 'p', 'e', 'r', 'm', 'i', 'c'] || n == seq!['p', 'e', 'r', 'm']
}

fn is_script_names_old_permic(n: &[char]) -> (r: bool)
    ensures
        r == script_names_old_permic(n@),
{
    let w0: [char; 9] = ['o', 'l', 'd', 'p', 'e', 'r', 'm', 'i', 'c'];
    assert(w0@ =~= seq!['o', 'l', 'd', 'p', 'e', 'r', 'm', 'i', 'c']);
    let w1: [char; 4] = ['p', 'e', 'r', 'm'];
    assert(w1@ =~= seq!['p', 'e', 'r', 'm']);
    chars_eq(n, &w0) || chars_eq(n, &w1)
}

/// The normalized names of the script Old_Persian.
pub open spec fn script_names_old_persian(n: Seq<char>) -> bool {
    n == seq!['o', 'l', 'd', 'p', 'e', 'r', 's', 'i', 'a', 'n'] || n == seq!['x', 'p', 'e', 'o']
}

fn is_script_names_old_persian(n: &[char]) -> (r: bool)
    ensures
        r == script_names_old_persian(n@),
{
    let w0: [char; 10] = ['o', 'l', 'd', 'p', 'e', 'r', 's', 'i', 'a', 'n'];
    assert(w0@ =~= seq!['o', 'l', 'd', 'p', 'e', 'r', 's', 'i', 'a', 'n']);
    let w1: [char; 4] = ['x', 'p', 'e', 'o'];
    assert(w1@ =~= seq!['x', 'p', 'e', 'o']);
    chars_eq(n, &w0) || chars_eq(n, &w1)
}

/// The normalized names of the script Old_Sogdian.
pub open spec fn script_names_old_sogdian(n: Seq<char>) -> bool {
    n == seq!['o', 'l', 'd', 's', 'o', 'g', 'd', 'i', 'a', 'n'] || n == seq!['s', 'o', 'g', 'o']
}

fn is_script_names_old_sogdian(n: &[char]) -> (r: bool)
    ensures
        r == script_names_old_sogdian(n@),
{
    let w0: [char; 10] = ['o', 'l', 'd', 's', 'o', 'g', 'd', 'i', 'a', 'n'];
    assert(w0@ =~= seq!['o', 'l', 'd', 's', 'o', 'g', 'd', 'i', 'a', 'n']);
    let w1: [char; 4] = ['s', 'o', 'g', 'o'];
    assert(w1@ =~= seq!['s', 'o', 'g', 'o']);
    chars_eq(n, &w0) || chars_eq(n, &w1)
}

/// The normalized names of the script Old_South_Arabian.
pub open spec fn script_names_old_south_arabian(n: Seq<char>) -> bool {
    n == seq!['o', 'l', 'd', 's', 'o', 'u', 't', 'h', 'a', 'r', 'a', 'b', 'i', 'a', 'n'] || n == seq!['s', 'a', 'r', 'b']
}

fn is_script_names_old_south_arabian(n: &[char]) -> (r: bool)
    ensures
        r == script_names_old_south_arabian(n@),
{
    let w0: [char; 15] = ['o', 'l', 'd', 's', 'o', 'u', 't', 'h', 'a', 'r', 'a', 'b', 'i', 'a', 'n'];
    assert(w0@ =~= seq!['o', 'l', 'd', 's', 'o', 'u', 't', 'h', 'a', 'r', 'a', 'b', 'i', 'a', 'n']);
    let w1: [char; 4] = ['s', 'a', 'r', 'b'];
    assert(w1@ =~= seq!['s', 'a', 'r', 'b']);
    chars_eq(n, &w0) || chars_eq(n, &w1)
}

/// The normalized names of the script Old_Turkic.
pub open spec fn script_names_old_turkic(n: Seq<char>) -> bool {
    n == seq!['o', 'l', 'd', 't', 'u', 'r', 'k', 'i', 'c'] || n == seq!['o', 'r', 'k', 'h']
}

fn is_script_names_old_turkic(n: &[char]) -> (r: bool)
    ensures
        r == script_names_old_turkic(n@),
{
    let w0: [char; 9] = ['o', 'l', 'd', 't', 'u', 'r', 'k', 'i', 'c'];
    assert(w0@ =~= seq!['o', 'l', 'd', 't', 'u', 'r', 'k', 'i', 'c']);
    let w1: [char; 4] = ['o', 'r', 'k', 'h'];
    assert(w1@ =~= seq!['o', 'r', 'k', 'h']);
    chars_eq(n, &w0) || chars_eq(n, &w1)
}

/// The normalized names of the script Old_Uyghur.
pub open spec fn script_names_old_uyghur(n: Seq<char>) -> bool {
    n == seq!['o', 'l', 'd', 'u', 'y', 'g', 'h', 'u', 'r'] || n == seq!['o', 'u', 'g', 'r']
}

fn is_script_names_old_uyghur(n: &[char]) -> (r: bool)
    ensures
        r == script_names_old_uyghur(n@),
{
    let w0: [char; 9] = ['o', 'l', 'd', 'u', 'y', 'g', 'h', 'u', 'r'];
    assert(w0@ =~= seq!['o', 'l', 'd', 'u', 'y', 'g', 'h', 'u', 'r']);
    let w1: [char; 4] = ['o', 'u', 'g', 'r'];
    assert(w1@ =~= seq!['o', 'u', 'g', 'r']);
    chars_eq(n, &w0) || chars_eq(n, &w1)
}

/// The normalized names of the script Ol_Onal.
pub open spec fn script_names_ol_onal(n: Seq<char>) -> bool {
    n == seq!['o', 'l', 'o', 'n', 'a', 'l'] || n == seq!['o', 'n', 'a', 'o']
}

fn is_script_names_ol_onal(n: &[char]) -> (r: bool)
    ensures
        r == script_names_ol_onal(n@),
{
    let w0: [char; 6] = ['o', 'l', 'o', 'n', 'a', 'l'];
    assert(w0@ =~= seq!['o', 'l', 'o', 'n', 'a', 'l']);
    let w1: [char; 4] = ['o', 'n', 'a', 'o'];
    assert(w1@ =~= seq!['o', 'n', 'a', 'o']);
    chars_eq(n, &w0) || chars_eq(n, &w1)
}

/// The normalized names of the script Oriya.
pub open spec fn script_names_oriya(n: Seq<char>) -> bool {
    n == seq!['o', 'r', 'i', 'y', 'a'] || n == seq!['o', 'r', 'y', 'a']
}

fn is_script_names_oriya(n: &[char]) -> (r: bool)
    ensures
        r == script_names_oriya(n@),
{
    let w0: [char; 5] = ['o', 'r', 'i', 'y', 'a'];
    assert(w0@ =~= seq!['o', 'r', 'i', 'y', 'a']);
    let w1: [char; 4] = ['o', 'r', 'y', 'a'];
    assert(w1@ =~= seq!['o', 'r', 'y', 'a']);
    chars_eq(n, &w0) || chars_eq(n, &w1)
}

/// The normalized names of the script Osage.
pub open spec fn script_names_osage(n: Seq<char>) -> bool {
    n == seq!['o', 's', 'a', 'g', 'e'] || n == seq!['o', 's', 'g', 'e']
}

fn is_script_names_osage(n: &[char]) -> (r: bool)
    ensures
        r == script_names_osage(n@),
{
    let w0: [char; 5] = ['o', 's', 'a', 'g', 'e'];
    assert(w0@ =~= seq!['o', 's', 'a', 'g', 'e']);
    let w1: [char; 4] = ['o', 's', 'g', 'e'];
    assert(w1@ =~= seq!['o', 's', 'g', 'e']);
    chars_eq(n, &w0) || chars_eq(n, &w1)
}

/// The normalized names of the script Osmanya.
pub open spec fn script_names_osmanya(n: Seq<char>) -> bool {
    n == seq!['o', 's', 'm', 'a'] || n == seq!['o', 's', 'm', 'a', 'n', 'y', 'a']
}

fn is_script_names_osmanya(n: &[char]) -> (r: bool)
    ensures
        r == script_names_osmanya(n@),
{
    let w0: [char; 4] = ['o', 's', 'm', 'a'];
    assert(w0@ =~= seq!['o', 's', 'm', 'a']);
    let w1: [char; 7] = ['o', 's', 'm', 'a', 'n', 'y', 'a'];
    assert(w1@ =~= seq!['o', 's', 'm', 'a', 'n', 'y', 'a']);
    chars_eq(n, &w0) || chars_eq(n, &w1)
}

/// The normalized names of the script Palmyrene.
pub open spec fn script_names_palmyrene(n: Seq<char>) -> bool {
    n == seq!['p', 'a', 'l', 'm'] || n == seq!['p', 'a', 'l', 'm', 'y', 'r', 'e', 'n', 'e']
}

fn is_script_names_palmyrene(n: &[char]) -> (r: bool)
    ensures
        r == script_names_palmyrene(n@),
{
    let w0: [char; 4] = ['p', 'a', 'l', 'm'];
    assert(w0@ =~= seq!['p', 'a', 'l', 'm']);
    let w1: [char; 9] = ['p', 'a', 'l', 'm', 'y', 'r', 'e', 'n', 'e'];
    assert(w1@ =~= seq!['p', 'a', 'l', 'm', 'y', 'r', 'e', 'n', 'e']);
    chars_eq(n, &w0) || chars_eq(n, &w1)
}

/// The normalized names of the script Pau_Cin_Hau.
pub open spec fn script_names_pau_cin_hau(n: Seq<char>) -> bool {
    n == seq!['p', 'a', 'u', 'c'] || n == seq!['p', 'a', 'u', 'c', 'i', 'n', 'h', 'a', 'u']
}

fn is_script_names_pau_cin_hau(n: &[char]) -> (r: bool)
    ensures
        r == script_names_pau_cin_hau(n@),
{
    let w0: [char; 4] = ['p', 'a', 'u', 'c'];
    assert(w0@ =~= seq!['p', 'a', 'u', 'c']);
    let w1: [char; 9] = ['p', 'a', 'u', 'c', 'i', 'n', 'h', 'a', 'u'];
    assert(w1@ =~= seq!['p', 'a', 'u', 'c', 'i', 'n', 'h', 'a', 'u']);
    chars_eq(n, &w0) || chars_eq(n, &w1)
}

/// The normalized names of the script Phags_Pa.
pub open spec fn script_names_phags_pa(n: Seq<char>) -> bool {
    n == seq!['p', 'h', 'a', 'g'] || n == seq!['p', 'h', 'a', 'g', 's', 'p', 'a']
}

fn is_script_names_phags_pa(n: &[char]) -> (r: bool)
    ensures
        r == script_names_phags_pa(n@),
{
    let w0: [char; 4] = ['p', 'h', 'a', 'g'];
    assert(w0@ =~= seq!['p', 'h', 'a', 'g']);
    let w1: [char; 7] = ['p', 'h', 'a', 'g', 's', 'p', 'a'];
    assert(w1@ =~= seq!['p', 'h', 'a', 'g', 's', 'p', 'a']);
    chars_eq(n, &w0) || chars_eq(n, &w1)
}

/// The normalized names of the script Psalter_Pahlavi.
pub open spec fn script_names_psalter_pahlavi(n: Seq<char>) -> bool {
    n == seq!['p', 'h', 'l', 'p'] || n == seq!['p', 's', 'a', 'l', 't', 'e', 'r', 'p', 'a', 'h', 'l', 'a', 'v', 'i']
}

fn is_script_names_psalter_pahlavi(n: &[char]) -> (r: bool)
    ensures
        r == script_names_psalter_pahlavi(n@),
{
    let w0: [char; 4] = ['p', 'h', 'l', 'p'];
    assert(w0@ =~= seq!['p', 'h', 'l', 'p']);
    let w1: [char; 14] = ['p', 's', 'a', 'l', 't', 'e', 'r', 'p', 'a', 'h', 'l', 'a', 'v', 'i'];
    assert(w1@ =~= seq!['p', 's', 'a', 'l', 't', 'e', 'r', 'p', 'a', 'h', 'l', 'a', 'v', 'i']);
    chars_eq(n, &w0) || chars_eq(n, &w1)
}

/// The normalized names of the script Phoenician.
pub open spec fn script_names_phoenician(n: Seq<char>) -> bool {
    n == seq!['p', 'h', 'n', 'x'] || n == seq!['p', 'h', 'o', 'e', 'n', 'i', 'c', 'i', 'a', 'n']
}

fn is_script_names_phoenician(n: &[char]) -> (r: bool)
    ensures
        r == script_names_phoenician(n@),
{
    let w0: [char; 4] = ['p', 'h', 'n', 'x'];
    assert(w0@ =~= seq!['p', 'h', 'n', 'x']);
    let w1: [char; 10] = ['p', 'h', 'o', 'e', 'n', 'i', 'c', 'i', 'a', 'n'];
    assert(w1@ =~= seq!['p', 'h', 'o', 'e', 'n', 'i', 'c', 'i', 'a', 'n']);
    chars_eq(n, &w0) || chars_eq(n, &w1)
}

/// The normalized names of the script Rejang.
pub open spec fn script_names_rejang(n: Seq<char>) -> bool {
    n == seq!['r', 'e', 'j', 'a', 'n', 'g'] || n == seq!['r', 'j', 'n', 'g']
}

fn is_script_names_rejang(n: &[char]) -> (r: bool)
    ensures
        r == script_names_rejang(n@),
{
    let w0: [char; 6] = ['r', 'e', 'j', 'a', 'n', 'g'];
    assert(w0@ =~= seq!['r', 'e', 'j', 'a', 'n', 'g']);
    let w1: [char; 4] = ['r', 'j', 'n', 'g'];
    assert(w1@ =~= seq!['r', 'j', 'n', 'g']);
    chars_eq(n, &w0) || chars_eq(n, &w1)
}

/// The normalized names of the script Runic.
pub open spec fn script_names_runic(n: Seq<char>) -> bool {
    n == seq!['r', 'u', 'n', 'i', 'c'] || n == seq!['r', 'u', 'n', 'r']
}

fn is_script_names_runic(n: &[char]) -> (r: bool)
    ensures
        r == script_names_runic(n@),
{
    let w0: [char; 5] = ['r', 'u', 'n', 'i', 'c'];
    assert(w0@ =~= seq!['r', 'u', 'n', 'i', 'c']);
    let w1: [char; 4] = ['r', 'u', 'n', 'r'];
    assert(w1@ =~= seq!['r', 'u', 'n', 'r']);
    chars_eq(n, &w0) || chars_eq(n, &w1)
}

/// The normalized names of the script Samaritan.
pub open spec fn script_names_samaritan(n: Seq<char>) -> bool {
    n == seq!['s', 'a', 'm', 'a', 'r', 'i', 't', 'a', 'n'] || n == seq!['s', 'a', 'm', 'r']
}

fn is_script_names_samaritan(n: &[char]) -> (r: bool)
    ensures
        r == script_names_samaritan(n@),
{
    let w0: [char; 9] = ['s', 'a', 'm', 'a', 'r', 'i', 't', 'a', 'n'];
    assert(w0@ =~= seq!['s', 'a', 'm', 'a', 'r', 'i', 't', 'a', 'n']);
    let w1: [char; 4] = ['s', 'a', 'm', 'r'];
    assert(w1@ =~= seq!['s', 'a', 'm', 'r']);
    chars_eq(n, &w0) || chars_eq(n, &w1)
}

/// The normalized names of the script Saurashtra.
pub open spec fn script_names_saurashtra(n: Seq<char>) -> bool {
    n == seq!['s', 'a', 'u', 'r'] || n == seq!['s', 'a', 'u', 'r', 'a', 's', 'h', 't', 'r', 'a']
}

fn is_script_names_saurashtra(n: &[char]) -> (r: bool)
    ensures
        r == script_names_saurashtra(n@),
{
    let w0: [char; 4] = ['s', 'a', 'u', 'r'];
    assert(w0@ =~= seq!['s', 'a', 'u', 'r']);
    let w1: [char; 10] = ['s', 'a', 'u', 'r', 'a', 's', 'h', 't', 'r', 'a'];
    assert(w1@ =~= seq!['s', 'a', 'u', 'r', 'a', 's', 'h', 't', 'r', 'a']);
    chars_eq(n, &w0) || chars_eq(n, &w1)
}

/// The normalized names of the script SignWriting.
pub open spec fn script_names_signwriting(n: Seq<char>) -> bool {
    n == seq!['s', 'g', 'n', 'w'] || n == seq!['s', 'i', 'g', 'n', 'w', 'r', 'i', 't', 'i', 'n', 'g']
}

fn is_script_names_signwriting(n: &[char]) -> (r: bool)
    ensures
        r == script_names_signwriting(n@),
{
    let w0: [char; 4] = ['s', 'g', 'n', 'w'];
    assert(w0@ =~= seq!['s', 'g', 'n', 'w']);
    let w1: [char; 11] = ['s', 'i', 'g', 'n', 'w', 'r', 'i', 't', 'i', 'n', 'g'];
    assert(w1@ =~= seq!['s', 'i', 'g', 'n', 'w', 'r', 'i', 't', 'i', 'n', 'g']);
    chars_eq(n, &w0) || chars_eq(n, &w1)
}

/// The normalized names of the script Sharada.
pub open spec fn script_names_sharada(n: Seq<char>) -> bool {
    n == seq!['s', 'h', 'a', 'r', 'a', 'd', 'a'] || n == seq!['s', 'h', 'r', 'd']
}

fn is_script_names_sharada(n: &[char]) -> (r: bool)
    ensures
        r == script_names_sharada(n@),
{
    let w0: [char; 7] = ['s', 'h', 'a', 'r', 'a', 'd', 'a'];
    assert(w0@ =~= seq!['s', 'h', 'a', 'r', 'a', 'd', 'a']);
    let w1: [char; 4] = ['s', 'h', 'r', 'd'];
    assert(w1@ =~= seq!['s', 'h', 'r', 'd']);
    chars_eq(n, &w0) || chars_eq(n, &w1)
}

/// The normalized names of the script Shavian.
pub open spec fn script_names_shavian(n: Seq<char>) -> bool {
    n == seq!['s', 'h', 'a', 'v', 'i', 'a', 'n'] || n == seq!['s', 'h', 'a', 'w']
}

fn is_script_names_shavian(n: &[char]) -> (r: bool)
    ensures
        r == script_names_shavian(n@),
{
    let w0: [char; 7] = ['s', 'h', 'a', 'v', 'i', 'a', 'n'];
    assert(w0@ =~= seq!['s', 'h', 'a', 'v', 'i', 'a', 'n']);
    let w1: [char; 4] = ['s', 'h', 'a', 'w'];
    assert(w1@ =~= seq!['s', 'h', 'a', 'w']);
    chars_eq(n, &w0) || chars_eq(n, &w1)
}

/// The normalized names of the script Siddham.
pub open spec fn script_names_siddham(n: Seq<char>) -> bool {
    n == seq!['s', 'i', 'd', 'd'] || n == seq!['s', 'i', 'd', 'd', 'h', 'a', 'm']
}

fn is_script_names_siddham(n: &[char]) -> (r: bool)
    ensures
        r == script_names_siddham(n@),
{
    let w0: [char; 4] = ['s', 'i', 'd', 'd'];
    assert(w0@ =~= seq!['s', 'i', 'd', 'd']);
    let w1: [char; 7] = ['s', 'i', 'd', 'd', 'h', 'a', 'm'];
    assert(w1@ =~= seq!['s', 'i', 'd', 'd', 'h', 'a', 'm']);
    chars_eq(n, &w0) || chars_eq(n, &w1)
}

/// The normalized names of the script Sinhala.
pub open spec fn script_names_sinhala(n: Seq<char>) -> bool {
    n == seq!['s', 'i', 'n', 'h'] || n == seq!['s', 'i', 'n', 'h', 'a', 'l', 'a']
}

fn is_script_names_sinhala(n: &[char]) -> (r: bool)
    ensures
        r == script_names_sinhala(n@),
{
    let w0: [char; 4] = ['s', 'i', 'n', 'h'];
    assert(w0@ =~= seq!['s', 'i', 'n', 'h']);
    let w1: [char; 7] = ['s', 'i', 'n', 'h', 'a', 'l', 'a'];
    assert(w1@ =~= seq!['s', 'i', 'n', 'h', 'a', 'l', 'a']);
    chars_eq(n, &w0) || chars_eq(n, &w1)
}

/// The normalized names of the script Sogdian.
pub open spec fn script_names_sogdian(n: Seq<char>) -> bool {
    n == seq!['s', 'o', 'g', 'd'] || n == seq!['s', 'o', 'g', 'd', 'i', 'a', 'n']
}

fn is_script_names_sogdian(n: &[char]) -> (r: bool)
    ensures
        r == script_names_sogdian(n@),
{
    let w0: [char; 4] = ['s', 'o', 'g', 'd'];
    assert(w0@ =~= seq!['s', 'o', 'g', 'd']);
    let w1: [char; 7] = ['s', 'o', 'g', 'd', 'i', 'a', 'n'];
    assert(w1@ =~= seq!['s', 'o', 'g', 'd', 'i', 'a', 'n']);
    chars_eq(n, &w0) || chars_eq(n, &w1)
}

/// The normalized names of the script Sora_Sompeng.
pub open spec fn script_names_sora_sompeng(n: Seq<char>) -> bool {
    n == seq!['s', 'o', 'r', 'a'] || n == seq!['s', 'o', 'r', 'a', 's', 'o', 'm', 'p', 'e', 'n', 'g']
}

fn is_script_names_sora_sompeng(n: &[char]) -> (r: bool)
    ensures
        r == script_names_sora_sompeng(n@),
{
    let w0: [char; 4] = ['s', 'o', 'r', 'a'];
    assert(w0@ =~= seq!['s', 'o', 'r', 'a']);
    let w1: [char; 11] = ['s', 'o', 'r', 'a', 's', 'o', 'm', 'p', 'e', 'n', 'g'];
    assert(w1@ =~= seq!['s', 'o', 'r', 'a', 's', 'o', 'm', 'p', 'e', 'n', 'g']);
    chars_eq(n, &w0) || chars_eq(n, &w1)
}

/// The normalized names of the script Soyombo.
pub open spec fn script_names_soyombo(n: Seq<char>) -> bool {
    n == seq!['s', 'o', 'y', 'o'] || n == seq!['s', 'o', 'y', 'o', 'm', 'b', 'o']
}

fn is_script_names_soyombo(n: &[char]) -> (r: bool)
    ensures
        r == script_names_soyombo(n@),
{
    let w0: [char; 4] = ['s', 'o', 'y', 'o'];
    assert(w0@ =~= seq!['s', 'o', 'y', 'o']);
    let w1: [char; 7] = ['s', 'o', 'y', 'o', 'm', 'b', 'o'];
    assert(w1@ =~= seq!['s', 'o', 'y', 'o', 'm', 'b', 'o']);
    chars_eq(n, &w0) || chars_eq(n, &w1)
}

/// The normalized names of the script Sundanese.
pub open spec fn script_names_sundanese(n: Seq<char>) -> bool {
    n == seq!['s', 'u', 'n', 'd'] || n == seq!['s', 'u', 'n', 'd', 'a', 'n', 'e', 's', 'e']
}

fn is_script_names_sundanese(n: &[char]) -> (r: bool)
    ensures
        r == script_names_sundanese(n@),
{
    let w0: [char; 4] = ['s', 'u', 'n', 'd'];
    assert(w0@ =~= seq!['s', 'u', 'n', 'd']);
    let w1: [char; 9] = ['s', 'u', 'n', 'd', 'a', 'n', 'e', 's', 'e'];
    assert(w1@ =~= seq!['s', 'u', 'n', 'd', 'a', 'n', 'e', 's', 'e']);
    chars_eq(n, &w0) || chars_eq(n, &w1)
}

/// The normalized names of the script Sunuwar.
pub open spec fn script_names_sunuwar(n: Seq<char>) -> bool {
    n == seq!['s', 'u', 'n', 'u'] || n == seq!['s', 'u', 'n', 'u', 'w', 'a', 'r']
}

fn is_script_names_sunuwar(n: &[char]) -> (r: bool)
    ensures
        r == script_names_sunuwar(n@),
{
    let w0: [char; 4] = ['s', 'u', 'n', 'u'];
    assert(w0@ =~= seq!['s', 'u', 'n', 'u']);
    let w1: [char; 7] = ['s', 'u', 'n', 'u', 'w', 'a', 'r'];
    assert(w1@ =~= seq!['s', 'u', 'n', 'u', 'w', 'a', 'r']);
    chars_eq(n, &w0) || chars_eq(n, &w1)
}

/// The normalized names of the script Syloti_Nagri.
pub open spec fn script_names_syloti_nagri(n: Seq<char>) -> bool {
    n == seq!['s', 'y', 'l', 'o'] || n == seq!['s', 'y', 'l', 'o', 't', 'i', 'n', 'a', 'g', 'r', 'i']
}

fn is_script_names_syloti_nagri(n: &[char]) -> (r: bool)
    ensures
        r == script_names_syloti_nagri(n@),
{
    let w0: [char; 4] = ['s', 'y', 'l', 'o'];
    assert(w0@ =~= seq!['s', 'y', 'l', 'o']);
    let w1: [char; 11] = ['s', 'y', 'l', 'o', 't', 'i', 'n', 'a', 'g', 'r', 'i'];
    assert(w1@ =~= seq!['s', 'y', 'l', 'o', 't', 'i', 'n', 'a', 'g', 'r', 'i']);
    chars_eq(n, &w0) || chars_eq(n, &w1)
}

/// The normalized names of the script Syriac.
pub open spec fn script_names_syriac(n: Seq<char>) -> bool {
    n == seq!['s', 'y', 'r', 'c'] || n == seq!['s', 'y', 'r', 'i', 'a', 'c']
}

fn is_script_names_syriac(n: &[char]) -> (r: bool)
    ensures
        r == script_names_syriac(n@),
{
    let w0: [char; 4] = ['s', 'y', 'r', 'c'];
    assert(w0@ =~= seq!['s', 'y', 'r', 'c']);
    let w1: [char; 6] = ['s', 'y', 'r', 'i', 'a', 'c'];
    assert(w1@ =~= seq!['s', 'y', 'r', 'i', 'a', 'c']);
    chars_eq(n, &w0) || chars_eq(n, &w1)
}

/// The normalized names of the script Tagalog.
pub open spec fn script_names_tagalog(n: Seq<char>) -> bool {
    n == seq!['t', 'a', 'g', 'a', 'l', 'o', 'g'] || n == seq!['t', 'g', 'l', 'g']
}

fn is_script_names_tagalog(n: &[char]) -> (r: bool)
    ensures
        r == script_names_tagalog(n@),
{
    let w0: [char; 7] = ['t', 'a', 'g', 'a', 'l', 'o', 'g'];
    assert(w0@ =~= seq!['t', 'a', 'g', 'a', 'l', 'o', 'g']);
    let w1: [char; 4] = ['t', 'g', 'l', 'g'];
    assert(w1@ =~= seq!['t', 'g', 'l', 'g']);
    chars_eq(n, &w0) || chars_eq(n, &w1)
}

/// The normalized names of the script Tagbanwa.
pub open spec fn script_names_tagbanwa(n: Seq<char>) -> bool {
    n == seq!['t', 'a', 'g', 'b'] || n == seq!['t', 'a', 'g', 'b', 'a', 'n', 'w', 'a']
}

fn is_script_names_tagbanwa(n: &[char]) -> (r: bool)
    ensures
        r == script_names_tagbanwa(n@),
{
    let w0: [char; 4] = ['t', 'a', 'g', 'b'];
    assert(w0@ =~= seq!['t', 'a', 'g', 'b']);
    let w1: [char; 8] = ['t', 'a', 'g', 'b', 'a', 'n', 'w', 'a'];
    assert(w1@ =~= seq!['t', 'a', 'g', 'b', 'a', 'n', 'w', 'a']);
    chars_eq(n, &w0) || chars_eq(n, &w1)
}

/// The normalized names of the script Tai_Le.
pub open spec fn script_names_tai_le(n: Seq<char>) -> bool {
    n == seq!['t', 'a', 'i', 'l', 'e'] || n == seq!['t', 'a', 'l', 'e']
}

fn is_script_names_tai_le(n: &[char]) -> (r: bool)
    ensures
        r == script_names_tai_le(n@),
{
    let w0: [char; 5] = ['t', 'a', 'i', 'l', 'e'];
    assert(w0@ =~= seq!['t', 'a', 'i', 'l', 'e']);
    let w1: [char; 4] = ['t', 'a', 'l', 'e'];
    assert(w1@ =~= seq!['t', 'a', 'l', 'e']);
    chars_eq(n, &w0) || chars_eq(n, &w1)
}

/// The normalized names of the script Tai_Viet.
pub open spec fn script_names_tai_viet(n: Seq<char>) -> bool {
    n == seq!['t', 'a', 'i', 'v', 'i', 'e', 't'] || n == seq!['t', 'a', 'v', 't']
}

fn is_script_names_tai_viet(n: &[char]) -> (r: bool)
    ensures
        r == script_names_tai_viet(n@),
{
    let w0: [char; 7] = ['t', 'a', 'i', 'v', 'i', 'e', 't'];
    assert(w0@ =~= seq!['t', 'a', 'i', 'v', 'i', 'e', 't']);
    let w1: [char; 4] = ['t', 'a', 'v', 't'];
    assert(w1@ =~= seq!['t', 'a', 'v', 't']);
    chars_eq(n, &w0) || chars_eq(n, &w1)
}

/// The normalized names of the script Takri.
pub open spec fn script_names_takri(n: Seq<char>) -> bool {
    n == seq!['t', 'a', 'k', 'r'] || n == seq!['t', 'a', 'k', 'r', 'i']
}

fn is_script_names_takri(n: &[char]) -> (r: bool)
    ensures
        r == script_names_takri(n@),
{
    let w0: [char; 4] = ['t', 'a', 'k', 'r'];
    assert(w0@ =~= seq!['t', 'a', 'k', 'r']);
    let w1: [char; 5] = ['t', 'a', 'k', 'r', 'i'];
    assert(w1@ =~= seq!['t', 'a', 'k', 'r', 'i']);
    chars_eq(n, &w0) || chars_eq(n, &w1)
}

/// The normalized names of the script Tamil.
pub open spec fn script_names_tamil(n: Seq<char>) -> bool {
    n == seq!['t', 'a', 'm', 'i', 'l'] || n == seq!['t', 'a', 'm', 'l']
}

fn is_script_names_tamil(n: &[char]) -> (r: bool)
    ensures
        r == script_names_tamil(n@),
{
    let w0: [char; 5] = ['t', 'a', 'm', 'i', 'l'];
    assert(w0@ =~= seq!['t', 'a', 'm', 'i', 'l']);
    let w1: [char; 4] = ['t', 'a', 'm', 'l'];
    assert(w1@ =~= seq!['t', 'a', 'm', 'l']);
    chars_eq(n, &w0) || chars_eq(n, &w1)
}

/// The normalized names of the script Tangut.
pub open spec fn script_names_tangut(n: Seq<char>) -> bool {
    n == seq!['t', 'a', 'n', 'g'] || n == seq!['t', 'a', 'n', 'g', 'u', 't']
}

fn is_script_names_tangut(n: &[char]) -> (r: bool)
    ensures
        r == script_names_tangut(n@),
{
    let w0: [char; 4] = ['t', 'a', 'n', 'g'];
    assert(w0@ =~= seq!['t', 'a', 'n', 'g']);
    let w1: [char; 6] = ['t', 'a', 'n', 'g', 'u', 't'];
    assert(w1@ =~= seq!['t', 'a', 'n', 'g', 'u', 't']);
    chars_eq(n, &w0) || chars_eq(n, &w1)
}

/// The normalized names of the script Tangsa.
pub open spec fn script_names_tangsa(n: Seq<char>) -> bool {
    n == seq!['t', 'a', 'n', 'g', 's', 'a'] || n == seq!['t', 'n', 's', 'a']
}

fn is_script_names_tangsa(n: &[char]) -> (r: bool)
    ensures
        r == script_names_tangsa(n@),
{
    let w0: [char; 6] = ['t', 'a', 'n', 'g', 's', 'a'];
    assert(w0@ =~= seq!['t', 'a', 'n', 'g', 's', 'a']);
    let w1: [char; 4] = ['t', 'n', 's', 'a'];
    assert(w1@ =~= seq!['t', 'n', 's', 'a']);
    chars_eq(n, &w0) || chars_eq(n, &w1)
}

/// The normalized names of the script Telugu.
pub open spec fn script_names_telugu(n: Seq<char>) -> bool {
    n == seq!['t', 'e', 'l', 'u'] || n == seq!['t', 'e', 'l', 'u', 'g', 'u']
}

fn is_script_names_telugu(n: &[char]) -> (r: bool)
    ensures
        r == script_names_telugu(n@),
{
    let w0: [char; 4] = ['t', 'e', 'l', 'u'];
    assert(w0@ =~= seq!['t', 'e', 'l', 'u']);
    let w1: [char; 6] = ['t', 'e', 'l', 'u', 'g', 'u'];
    assert(w1@ =~= seq!['t', 'e', 'l', 'u', 'g', 'u']);
    chars_eq(n, &w0) || chars_eq(n, &w1)
}

/// The normalized names of the script Tifinagh.
pub open spec fn script_names_tifinagh(n: Seq<char>) -> bool {
    n == seq!['t', 'f', 'n', 'g'] || n == seq!['t', 'i', 'f', 'i', 'n', 'a', 'g', 'h']
}

fn is_script_names_tifinagh(n: &[char]) -> (r: bool)
    ensures
        r == script_names_tifinagh(n@),
{
    let w0: [char; 4] = ['t', 'f', 'n', 'g'];
    assert(w0@ =~= seq!['t', 'f', 'n', 'g']);
    let w1: [char; 8] = ['t', 'i', 'f', 'i', 'n', 'a', 'g', 'h'];
    assert(w1@ =~= seq!['t', 'i', 'f', 'i', 'n', 'a', 'g', 'h']);
    chars_eq(n, &w0) || chars_eq(n, &w1)
}

/// The normalized names of the script Thaana.
pub open spec fn script_names_thaana(n: Seq<char>) -> bool {
    n == seq!['t', 'h', 'a', 'a'] || n == seq!['t', 'h', 'a', 'a', 'n', 'a']
}

fn is_script_names_thaana(n: &[char]) -> (r: bool)
    ensures
        r == script_names_thaana(n@),
{
    let w0: [char; 4] = ['t', 'h', 'a', 'a'];
    assert(w0@ =~= seq!['t', 'h', 'a', 'a']);
    let w1: [char; 6] = ['t', 'h', 'a', 'a', 'n', 'a'];
    assert(w1@ =~= seq!['t', 'h', 'a', 'a', 'n', 'a']);
    chars_eq(n, &w0) || chars_eq(n, &w1)
}

/// The normalized names of the script Thai.
pub open spec fn script_names_thai(n: Seq<char>) -> bool {
    n == seq!['t', 'h', 'a', 'i']
}

fn is_script_names_thai(n: &[char]) -> (r: bool)
    ensures
        r == script_names_thai(n@),
{
    let w0: [char; 4] = ['t', 'h', 'a', 'i'];
    assert(w0@ =~= seq!['t', 'h', 'a', 'i']);
    chars_eq(n, &w0)
}

/// The normalized names of the script Tibetan.
pub open spec fn script_names_tibetan(n: Seq<char>) -> bool {
    n == seq!['t', 'i', 'b', 'e', 't', 'a', 'n'] || n == seq!['t', 'i', 'b', 't']
}

fn is_script_names_tibetan(n: &[char]) -> (r: bool)
    ensures
        r == script_names_tibetan(n@),
{
    let w0: [char; 7] = ['t', 'i', 'b', 'e', 't', 'a', 'n'];
    assert(w0@ =~= seq!['t', 'i', 'b', 'e', 't', 'a', 'n']);
    let w1: [char; 4] = ['t', 'i', 'b', 't'];
    assert(w1@ =~= seq!['t', 'i', 'b', 't']);
    chars_eq(n, &w0) || chars_eq(n, &w1)
}

/// The normalized names of the script Tirhuta.
pub open spec fn script_names_tirhuta(n: Seq<char>) -> bool {
    n == seq!['t', 'i', 'r', 'h'] || n == seq!['t', 'i', 'r', 'h', 'u', 't', 'a']
}

fn is_script_names_tirhuta(n: &[char]) -> (r: bool)
    ensures
        r == script_names_tirhuta(n@),
{
    let w0: [char; 4] = ['t', 'i', 'r', 'h'];
    assert(w0@ =~= seq!['t', 'i', 'r', 'h']);
    let w1: [char; 7] = ['t', 'i', 'r', 'h', 'u', 't', 'a'];
    assert(w1@ =~= seq!['t', 'i', 'r', 'h', 'u', 't', 'a']);
    chars_eq(n, &w0) || chars_eq(n, &w1)
}

/// The normalized names of the script Todhri.
pub open spec fn script_names_todhri(n: Seq<char>) -> bool {
    n == seq!['t', 'o', 'd', 'h', 'r', 'i'] || n == seq!['t', 'o', 'd', 'r']
}

fn is_script_names_todhri(n: &[char]) -> (r: bool)
    ensures
        r == script_names_todhri(n@),
{
    let w0: [char; 6] = ['t', 'o', 'd', 'h', 'r', 'i'];
    assert(w0@ =~= seq!['t', 'o', 'd', 'h', 'r', 'i']);
    let w1: [char; 4] = ['t', 'o', 'd', 'r'];
    assert(w1@ =~= seq!['t', 'o', 'd', 'r']);
    chars_eq(n, &w0) || chars_eq(n, &w1)
}

/// The normalized names of the script Toto.
pub open spec fn script_names_toto(n: Seq<char>) -> bool {
    n == seq!['t', 'o', 't', 'o']
}

fn is_script_names_toto(n: &[char]) -> (r: bool)
    ensures
        r == script_names_toto(n@),
{
    let w0: [char; 4] = ['t', 'o', 't', 'o'];
    assert(w0@ =~= seq!['t', 'o', 't', 'o']);
    chars_eq(n, &w0)
}

/// The normalized names of the script Tulu_Tigalari.
pub open spec fn script_names_tulu_tigalari(n: Seq<char>) -> bool {
    n == seq!['t', 'u', 'l', 'u', 't', 'i', 'g', 'a', 'l', 'a', 'r', 'i'] || n == seq!['t', 'u', 't', 'g']
}

fn is_script_names_tulu_tigalari(n: &[char]) -> (r: bool)
    ensures
        r == script_names_tulu_tigalari(n@),
{
    let w0: [char; 12] = ['t', 'u', 'l', 'u', 't', 'i', 'g', 'a', 'l', 'a', 'r', 'i'];
    assert(w0@ =~= seq!['t', 'u', 'l', 'u', 't', 'i', 'g', 'a', 'l', 'a', 'r', 'i']);
    let w1: [char; 4] = ['t', 'u', 't', 'g'];
    assert(w1@ =~= seq!['t', 'u', 't', 'g']);
    chars_eq(n, &w0) || chars_eq(n, &w1)
}

/// The normalized names of the script Ugaritic.
pub open spec fn script_names_ugaritic(n: Seq<char>) -> bool {
    n == seq!['u', 'g', 'a', 'r'] || n == seq!['u', 'g', 'a', 'r', 'i', 't', 'i', 'c']
}

fn is_script_names_ugaritic(n: &[char]) -> (r: bool)
    ensures
        r == script_names_ugaritic(n@),
{
    let w0: [char; 4] = ['u', 'g', 'a', 'r'];
    assert(w0@ =~= seq!['u', 'g', 'a', 'r']);
    let w1: [char; 8] = ['u', 'g', 'a', 'r', 'i', 't', 'i', 'c'];
    assert(w1@ =~= seq!['u', 'g', 'a', 'r', 'i', 't', 'i', 'c']);
    chars_eq(n, &w0) || chars_eq(n, &w1)
}

/// The normalized names of the script Unknown.
pub open spec fn script_names_unknown(n: Seq<char>) -> bool {
    n == seq!['u', 'n', 'k', 'n', 'o', 'w', 'n'] || n == seq!['z', 'z', 'z', 'z']
}

fn is_script_names_unknown(n: &[char]) -> (r: bool)
    ensures
        r == script_names_unknown(n@),
{
    let w0: [char; 7] = ['u', 'n', 'k', 'n', 'o', 'w', 'n'];
    assert(w0@ =~= seq!['u', 'n', 'k', 'n', 'o', 'w', 'n']);
    let w1: [char; 4] = ['z', 'z', 'z', 'z'];
    assert(w1@ =~= seq!['z', 'z', 'z', 'z']);
    chars_eq(n, &w0) || chars_eq(n, &w1)
}

/// The normalized names of the script Vai.
pub open spec fn script_names_vai(n: Seq<char>) -> bool {
    n == seq!['v', 'a', 'i'] || n == seq!['v', 'a', 'i', 'i']
}

fn is_script_names_vai(n: &[char]) -> (r: bool)
    ensures
        r == script_names_vai(n@),
{
    let w0: [char; 3] = ['v', 'a', 'i'];
    assert(w0@ =~= seq!['v', 'a', 'i']);
    let w1: [char; 4] = ['v', 'a', 'i', 'i'];
    assert(w1@ =~= seq!['v', 'a', 'i', 'i']);
    chars_eq(n, &w0) || chars_eq(n, &w1)
}

/// The normalized names of the script Vithkuqi.
pub open spec fn script_names_vithkuqi(n: Seq<char>) -> bool {
    n == seq!['v', 'i', 't', 'h'] || n == seq!['v', 'i', 't', 'h', 'k', 'u', 'q', 'i']
}

fn is_script_names_vithkuqi(n: &[char]) -> (r: bool)
    ensures
        r == script_names_vithkuqi(n@),
{
    let w0: [char; 4] = ['v', 'i', 't', 'h'];
    assert(w0@ =~= seq!['v', 'i', 't', 'h']);
    let w1: [char; 8] = ['v', 'i', 't', 'h', 'k', 'u', 'q', 'i'];
    assert(w1@ =~= seq!['v', 'i', 't', 'h', 'k', 'u', 'q', 'i']);
    chars_eq(n, &w0) || chars_eq(n, &w1)
}

/// The normalized names of the script Wancho.
pub open spec fn script_names_wancho(n: Seq<char>) -> bool {
    n == seq!['w', 'a', 'n', 'c', 'h', 'o'] || n == seq!['w', 'c', 'h', 'o']
}

fn is_script_names_wancho(n: &[char]) -> (r: bool)
    ensures
        r == script_names_wancho(n@),
{
    let w0: [char; 6] = ['w', 'a', 'n', 'c', 'h', 'o'];
    assert(w0@ =~= seq!['w', 'a', 'n', 'c', 'h', 'o']);
    let w1: [char; 4] = ['w', 'c', 'h', 'o'];
    assert(w1@ =~= seq!['w', 'c', 'h', 'o']);
    chars_eq(n, &w0) || chars_eq(n, &w1)
}

/// The normalized names of the script Warang_Citi.
pub open spec fn script_names_warang_citi(n: Seq<char>) -> bool {
    n == seq!['w', 'a', 'r', 'a'] || n == seq!['w', 'a', 'r', 'a', 'n', 'g', 'c', 'i', 't', 'i']
}

fn is_script_names_warang_citi(n: &[char]) -> (r: bool)
    ensures
        r == script_names_warang_citi(n@),
{
    let w0: [char; 4] = ['w', 'a', 'r', 'a'];
    assert(w0@ =~= seq!['w', 'a', 'r', 'a']);
    let w1: [char; 10] = ['w', 'a', 'r', 'a', 'n', 'g', 'c', 'i', 't', 'i'];
    assert(w1@ =~= seq!['w', 'a', 'r', 'a', 'n', 'g', 'c', 'i', 't', 'i']);
    chars_eq(n, &w0) || chars_eq(n, &w1)
}

/// The normalized names of the script Yezidi.
pub open spec fn script_names_yezidi(n: Seq<char>) -> bool {
    n == seq!['y', 'e', 'z', 'i'] || n == seq!['y', 'e', 'z', 'i', 'd', 'i']
}

fn is_script_names_yezidi(n: &[char]) -> (r: bool)
    ensures
        r == script_names_yezidi(n@),
{
    let w0: [char; 4] = ['y', 'e', 'z', 'i'];
    assert(w0@ =~= seq!['y', 'e', 'z', 'i']);
    let w1: [char; 6] = ['y', 'e', 'z', 'i', 'd', 'i'];
    assert(w1@ =~= seq!['y', 'e', 'z', 'i', 'd', 'i']);
    chars_eq(n, &w0) || chars_eq(n, &w1)
}

/// The normalized names of the script Yi.
pub open spec fn script_names_yi(n: Seq<char>) -> bool {
    n == seq!['y', 'i'] || n == seq!['y', 'i', 'i', 'i']
}

fn is_script_names_yi(n: &[char]) -> (r: bool)
    ensures
        r == script_names_yi(n@),
{
    let w0: [char; 2] = ['y', 'i'];
    assert(w0@ =~= seq!['y', 'i']);
    let w1: [char; 4] = ['y', 'i', 'i', 'i'];
    assert(w1@ =~= seq!['y', 'i', 'i', 'i']);
    chars_eq(n, &w0) || chars_eq(n, &w1)
}

/// The normalized names of the script Zanabazar_Square.
pub open spec fn script_names_zanabazar_square(n: Seq<char>) -> bool {
    n == seq!['z', 'a', 'n', 'a', 'b', 'a', 'z', 'a', 'r', 's', 'q', 'u', 'a', 'r', 'e'] || n == seq!['z', 'a', 'n', 'b']
}

fn is_script_names_zanabazar_square(n: &[char]) -> (r: bool)
    ensures
        r == script_names_zanabazar_square(n@),
{
    let w0: [char; 15] = ['z', 'a', 'n', 'a', 'b', 'a', 'z', 'a', 'r', 's', 'q', 'u', 'a', 'r', 'e'];
    assert(w0@ =~= seq!['z', 'a', 'n', 'a', 'b', 'a', 'z', 'a', 'r', 's', 'q', 'u', 'a', 'r', 'e']);
    let w1: [char; 4] = ['z', 'a', 'n', 'b'];
    assert(w1@ =~= seq!['z', 'a', 'n', 'b']);
    chars_eq(n, &w0) || chars_eq(n, &w1)
}

/// The script that a normalized value names.
pub open spec fn script_by_value(n: Seq<char>) -> Option<Script> {
    if false {
        None
    } else if script_names_adlam(n) {
        Some(Script::Adlam)
    } else if script_names_caucasian_albanian(n) {
        Some(Script::CaucasianAlbanian)
    } else if script_names_ahom(n) {
        Some(Script::Ahom)
    } else if script_names_anatolian_hieroglyphs(n) {
        Some(Script::AnatolianHieroglyphs)
    } else if script_names_arabic(n) {
        Some(Script::Arabic)
    } else if script_names_armenian(n) {
        Some(Script::Armenian)
    } else if script_names_imperial_aramaic(n) {
        Some(Script::ImperialAramaic)
    } else if script_names_avestan(n) {
        Some(Script::Avestan)
    } else if script_names_balinese(n) {
        Some(Script::Balinese)
    } else if script_names_bamum(n) {
        Some(Script::Bamum)
    } else if script_names_bassa_vah(n) {
        Some(Script::BassaVah)
    } else if script_names_batak(n) {
        Some(Script::Batak)
    } else if script_names_bengali(n) {
        Some(Script::Bengali)
    } else if script_names_bhaiksuki(n) {
        Some(Script::Bhaiksuki)
    } else if script_names_bopomofo(n) {
        Some(Script::Bopomofo)
    } else if script_names_brahmi(n) {
        Some(Script::Brahmi)
    } else if script_names_braille(n) {
        Some(Script::Braille)
    } else if script_names_buginese(n) {
        Some(Script::Buginese)
    } else if script_names_buhid(n) {
        Some(Script::Buhid)
    } else if script_names_chakma(n) {
        Some(Script::Chakma)
    } else if script_names_canadian_aboriginal(n) {
        Some(Script::CanadianAboriginal)
    } else if script_names_carian(n) {
        Some(Script::Carian)
    } else if script_names_cham(n) {
        Some(Script::Cham)
    } else if script_names_cherokee(n) {
        Some(Script::Cherokee)
    } else if script_names_chorasmian(n) {
        Some(Script::Chorasmian)
    } else if script_names_common(n) {
        Some(Script::Common)
    } else if script_names_coptic(n) {
        Some(Script::Coptic)
    } else if script_names_cypro_minoan(n) {
        Some(Script::CyproMinoan)
    } else if script_names_cypriot(n) {
        Some(Script::Cypriot)
    } else if script_names_cuneiform(n) {
        Some(Script::Cuneiform)
    } else if script_names_cyrillic(n) {
        Some(Script::Cyrillic)
    } else if script_names_deseret(n) {
        Some(Script::Deseret)
    } else if script_names_devanagari(n) {
        Some(Script::Devanagari)
    } else if script_names_dives_akuru(n) {
        Some(Script::DivesAkuru)
    } else if script_names_dogra(n) {
        Some(Script::Dogra)
    } else if script_names_duployan(n) {
        Some(Script::Duployan)
    } else if script_names_egyptian_hieroglyphs(n) {
        Some(Script::EgyptianHieroglyphs)
    } else if script_names_elbasan(n) {
        Some(Script::Elbasan)
    } else if script_names_elymaic(n) {
        Some(Script::Elymaic)
    } else if script_names_ethiopic(n) {
        Some(Script::Ethiopic)
    } else if script_names_garay(n) {
        Some(Script::Garay)
    } else if script_names_georgian(n) {
        Some(Script::Georgian)
    } else if script_names_glagolitic(n) {
        Some(Script::Glagolitic)
    } else if script_names_gunjala_gondi(n) {
        Some(Script::GunjalaGondi)
    } else if script_names_masaram_gondi(n) {
        Some(Script::MasaramGondi)
    } else if script_names_gothic(n) {
        Some(Script::Gothic)
    } else if script_names_grantha(n) {
        Some(Script::Grantha)
    } else if script_names_greek(n) {
        Some(Script::Greek)
    } else if script_names_gujarati(n) {
        Some(Script::Gujarati)
    } else if script_names_gurung_khema(n) {
        Some(Script::GurungKhema)
    } else if script_names_gurmukhi(n) {
        Some(Script::Gurmukhi)
    } else if script_names_han(n) {
        Some(Script::Han)
    } else if script_names_hangul(n) {
        Some(Script::Hangul)
    } else if script_names_hanifi_rohingya(n) {
        Some(Script::HanifiRohingya)
    } else if script_names_hanunoo(n) {
        Some(Script::Hanunoo)
    } else if script_names_hatran(n) {
        Some(Script::Hatran)
    } else if script_names_hebrew(n) {
        Some(Script::Hebrew)
    } else if script_names_hiragana(n) {
        Some(Script::Hiragana)
    } else if script_names_pahawh_hmong(n) {
        Some(Script::PahawhHmong)
    } else if script_names_nyiakeng_puachue_hmong(n) {
        Some(Script::NyiakengPuachueHmong)
    } else if script_names_old_hungarian(n) {
        Some(Script::OldHungarian)
    } else if script_names_inherited(n) {
        Some(Script::Inherited)
    } else if script_names_inscriptional_pahlavi(n) {
        Some(Script::InscriptionalPahlavi)
    } else if script_names_inscriptional_parthian(n) {
        Some(Script::InscriptionalParthian)
    } else if script_names_old_italic(n) {
        Some(Script::OldItalic)
    } else if script_names_javanese(n) {
        Some(Script::Javanese)
    } else if script_names_kaithi(n) {
        Some(Script::Kaithi)
    } else if script_names_kayah_li(n) {
        Some(Script::KayahLi)
    } else if script_names_katakana(n) {
        Some(Script::Katakana)
    } else if script_names_kannada(n) {
        Some(Script::Kannada)
    } else if script_names_kawi(n) {
        Some(Script::Kawi)
    } else if script_names_kharoshthi(n) {
        Some(Script::Kharoshthi)
    } else if script_names_khitan_small_script(n) {
        Some(Script::KhitanSmallScript)
    } else if script_names_khmer(n) {
        Some(Script::Khmer)
    } else if script_names_khojki(n) {
        Some(Script::Khojki)
    } else if script_names_khudawadi(n) {
        Some(Script::Khudawadi)
    } else if script_names_kirat_rai(n) {
        Some(Script::KiratRai)
    } else if script_names_tai_tham(n) {
        Some(Script::TaiTham)
    } else if script_names_lao(n) {
        Some(Script::Lao)
    } else if script_names_latin(n) {
        Some(Script::Latin)
    } else if script_names_lepcha(n) {
        Some(Script::Lepcha)
    } else if script_names_limbu(n) {
        Some(Script::Limbu)
    } else if script_names_linear_a(n) {
        Some(Script::LinearA)
    } else if script_names_linear_b(n) {
        Some(Script::LinearB)
    } else if script_names_lisu(n) {
        Some(Script::Lisu)
    } else if script_names_lycian(n) {
        Some(Script::Lycian)
    } else if script_names_lydian(n) {
        Some(Script::Lydian)
    } else if script_names_mahajani(n) {
        Some(Script::Mahajani)
    } else if script_names_makasar(n) {
        Some(Script::Makasar)
    } else if script_names_malayalam(n) {
        Some(Script::Malayalam)
    } else if script_names_mandaic(n) {
        Some(Script::Mandaic)
    } else if script_names_manichaean(n) {
        Some(Script::Manichaean)
    } else if script_names_marchen(n) {
        Some(Script::Marchen)
    } else if script_names_medefaidrin(n) {
        Some(Script::Medefaidrin)
    } else if script_names_meetei_mayek(n) {
        Some(Script::MeeteiMayek)
    } else if script_names_mende_kikakui(n) {
        Some(Script::MendeKikakui)
    } else if script_names_meroitic_cursive(n) {
        Some(Script::MeroiticCursive)
    } else if script_names_meroitic_hieroglyphs(n) {
        Some(Script::MeroiticHieroglyphs)
    } else if script_names_miao(n) {
        Some(Script::Miao)
    } else if script_names_modi(n) {
        Some(Script::Modi)
    } else if script_names_mongolian(n) {
        Some(Script::Mongolian)
    } else if script_names_mro(n) {
        Some(Script::Mro)
    } else if script_names_multani(n) {
        Some(Script::Multani)
    } else if script_names_myanmar(n) {
        Some(Script::Myanmar)
    } else if script_names_nabataean(n) {
        Some(Script::Nabataean)
    } else if script_names_nag_mundari(n) {
        Some(Script::NagMundari)
    } else if script_names_nandinagari(n) {
        Some(Script::Nandinagari)
    } else if script_names_old_north_arabian(n) {
        Some(Script::OldNorthArabian)
    } else if script_names_newa(n) {
        Some(Script::Newa)
    } else if script_names_new_tai_lue(n) {
        Some(Script::NewTaiLue)
    } else if script_names_nko(n) {
        Some(Script::Nko)
    } else if script_names_nushu(n) {
        Some(Script::Nushu)
    } else if script_names_ogham(n) {
        Some(Script::Ogham)
    } else if script_names_ol_chiki(n) {
        Some(Script::OlChiki)
    } else if script_names_old_permic(n) {
        Some(Script::OldPermic)
    } else if script_names_old_persian(n) {
        Some(Script::OldPersian)
    } else if script_names_old_sogdian(n) {
        Some(Script::OldSogdian)
    } else if script_names_old_south_arabian(n) {
        Some(Script::OldSouthArabian)
    } else if script_names_old_turkic(n) {
        Some(Script::OldTurkic)
    } else if script_names_old_uyghur(n) {
        Some(Script::OldUyghur)
    } else if script_names_ol_onal(n) {
        Some(Script::OlOnal)
    } else if script_names_oriya(n) {
        Some(Script::Oriya)
    } else if script_names_osage(n) {
        Some(Script::Osage)
    } else if script_names_osmanya(n) {
        Some(Script::Osmanya)
    } else if script_names_palmyrene(n) {
        Some(Script::Palmyrene)
    } else if script_names_pau_cin_hau(n) {
        Some(Script::PauCinHau)
    } else if script_names_phags_pa(n) {
        Some(Script::PhagsPa)
    } else if script_names_psalter_pahlavi(n) {
        Some(Script::PsalterPahlavi)
    } else if script_names_phoenician(n) {
        Some(Script::Phoenician)
    } else if script_names_rejang(n) {
        Some(Script::Rejang)
    } else if script_names_runic(n) {
        Some(Script::Runic)
    } else if script_names_samaritan(n) {
        Some(Script::Samaritan)
    } else if script_names_saurashtra(n) {
        Some(Script::Saurashtra)
    } else if script_names_signwriting(n) {
        Some(Script::SignWriting)
    } else if script_names_sharada(n) {
        Some(Script::Sharada)
    } else if script_names_shavian(n) {
        Some(Script::Shavian)
    } else if script_names_siddham(n) {
        Some(Script::Siddham)
    } else if script_names_sinhala(n) {
        Some(Script::Sinhala)
    } else if script_names_sogdian(n) {
        Some(Script::Sogdian)
    } else if script_names_sora_sompeng(n) {
        Some(Script::SoraSompeng)
    } else if script_names_soyombo(n) {
        Some(Script::Soyombo)
    } else if script_names_sundanese(n) {
        Some(Script::Sundanese)
    } else if script_names_sunuwar(n) {
        Some(Script::Sunuwar)
    } else if script_names_syloti_nagri(n) {
        Some(Script::SylotiNagri)
    } else if script_names_syriac(n) {
        Some(Script::Syriac)
    } else if script_names_tagalog(n) {
        Some(Script::Tagalog)
    } else if script_names_tagbanwa(n) {
        Some(Script::Tagbanwa)
    } else if script_names_tai_le(n) {
        Some(Script::TaiLe)
    } else if script_names_tai_viet(n) {
        Some(Script::TaiViet)
    } else if script_names_takri(n) {
        Some(Script::Takri)
    } else if script_names_tamil(n) {
        Some(Script::Tamil)
    } else if script_names_tangut(n) {
        Some(Script::Tangut)
    } else if script_names_tangsa(n) {
        Some(Script::Tangsa)
    } else if script_names_telugu(n) {
        Some(Script::Telugu)
    } else if script_names_tifinagh(n) {
        Some(Script::Tifinagh)
    } else if script_names_thaana(n) {
        Some(Script::Thaana)
    } else if script_names_thai(n) {
        Some(Script::Thai)
    } else if script_names_tibetan(n) {
        Some(Script::Tibetan)
    } else if script_names_tirhuta(n) {
        Some(Script::Tirhuta)
    } else if script_names_todhri(n) {
        Some(Script::Todhri)
    } else if script_names_toto(n) {
        Some(Script::Toto)
    } else if script_names_tulu_tigalari(n) {
        Some(Script::TuluTigalari)
    } else if script_names_ugaritic(n) {
        Some(Script::Ugaritic)
    } else if script_names_vai(n) {
        Some(Script::Vai)
    } else if script_names_vithkuqi(n) {
        Some(Script::Vithkuqi)
    } else if script_names_wancho(n) {
        Some(Script::Wancho)
    } else if script_names_warang_citi(n) {
        Some(Script::WarangCiti)
    } else if script_names_yezidi(n) {
        Some(Script::Yezidi)
    } else if script_names_yi(n) {
        Some(Script::Yi)
    } else if script_names_zanabazar_square(n) {
        Some(Script::ZanabazarSquare)
    } else {
        None
    }
}

/// The script that a normalized value names.
pub fn script_lookup(n: &[char]) -> (r: Option<Script>)
    ensures
        r == script_by_value(n@),
{
    if is_script_names_adlam(n) {
        return Some(Script::Adlam);
    }
    if is_script_names_caucasian_albanian(n) {
        return Some(Script::CaucasianAlbanian);
    }
    if is_script_names_ahom(n) {
        return Some(Script::Ahom);
    }
    if is_script_names_anatolian_hieroglyphs(n) {
        return Some(Script::AnatolianHieroglyphs);
    }
    if is_script_names_arabic(n) {
        return Some(Script::Arabic);
    }
    if is_script_names_armenian(n) {
        return Some(Script::Armenian);
    }
    if is_script_names_imperial_aramaic(n) {
        return Some(Script::ImperialAramaic);
    }
    if is_script_names_avestan(n) {
        return Some(Script::Avestan);
    }
    if is_script_names_balinese(n) {
        return Some(Script::Balinese);
    }
    if is_script_names_bamum(n) {
        return Some(Script::Bamum);
    }
    if is_script_names_bassa_vah(n) {
        return Some(Script::BassaVah);
    }
    if is_script_names_batak(n) {
        return Some(Script::Batak);
    }
    if is_script_names_bengali(n) {
        return Some(Script::Bengali);
    }
    if is_script_names_bhaiksuki(n) {
        return Some(Script::Bhaiksuki);
    }
    if is_script_names_bopomofo(n) {
        return Some(Script::Bopomofo);
    }
    if is_script_names_brahmi(n) {
        return Some(Script::Brahmi);
    }
    if is_script_names_braille(n) {
        return Some(Script::Braille);
    }
    if is_script_names_buginese(n) {
        return Some(Script::Buginese);
    }
    if is_script_names_buhid(n) {
        return Some(Script::Buhid);
    }
    if is_script_names_chakma(n) {
        return Some(Script::Chakma);
    }
    if is_script_names_canadian_aboriginal(n) {
        return Some(Script::CanadianAboriginal);
    }
    if is_script_names_carian(n) {
        return Some(Script::Carian);
    }
    if is_script_names_cham(n) {
        return Some(Script::Cham);
    }
    if is_script_names_cherokee(n) {
        return Some(Script::Cherokee);
    }
    if is_script_names_chorasmian(n) {
        return Some(Script::Chorasmian);
    }
    if is_script_names_common(n) {
        return Some(Script::Common);
    }
    if is_script_names_coptic(n) {
        return Some(Script::Coptic);
    }
    if is_script_names_cypro_minoan(n) {
        return Some(Script::CyproMinoan);
    }
    if is_script_names_cypriot(n) {
        return Some(Script::Cypriot);
    }
    if is_script_names_cuneiform(n) {
        return Some(Script::Cuneiform);
    }
    if is_script_names_cyrillic(n) {
        return Some(Script::Cyrillic);
    }
    if is_script_names_deseret(n) {
        return Some(Script::Deseret);
    }
    if is_script_names_devanagari(n) {
        return Some(Script::Devanagari);
    }
    if is_script_names_dives_akuru(n) {
        return Some(Script::DivesAkuru);
    }
    if is_script_names_dogra(n) {
        return Some(Script::Dogra);
    }
    if is_script_names_duployan(n) {
        return Some(Script::Duployan);
    }
    if is_script_names_egyptian_hieroglyphs(n) {
        return Some(Script::EgyptianHieroglyphs);
    }
    if is_script_names_elbasan(n) {
        return Some(Script::Elbasan);
    }
    if is_script_names_elymaic(n) {
        return Some(Script::Elymaic);
    }
    if is_script_names_ethiopic(n) {
        return Some(Script::Ethiopic);
    }
    if is_script_names_garay(n) {
        return Some(Script::Garay);
    }
    if is_script_names_georgian(n) {
        return Some(Script::Georgian);
    }
    if is_script_names_glagolitic(n) {
        return Some(Script::Glagolitic);
    }
    if is_script_names_gunjala_gondi(n) {
        return Some(Script::GunjalaGondi);
    }
    if is_script_names_masaram_gondi(n) {
        return Some(Script::MasaramGondi);
    }
    if is_script_names_gothic(n) {
        return Some(Script::Gothic);
    }
    if is_script_names_grantha(n) {
        return Some(Script::Grantha);
    }
    if is_script_names_greek(n) {
        return Some(Script::Greek);
    }
    if is_script_names_gujarati(n) {
        return Some(Script::Gujarati);
    }
    if is_script_names_gurung_khema(n) {
        return Some(Script::GurungKhema);
    }
    if is_script_names_gurmukhi(n) {
        return Some(Script::Gurmukhi);
    }
    if is_script_names_han(n) {
        return Some(Script::Han);
    }
    if is_script_names_hangul(n) {
        return Some(Script::Hangul);
    }
    if is_script_names_hanifi_rohingya(n) {
        return Some(Script::HanifiRohingya);
    }
    if is_script_names_hanunoo(n) {
        return Some(Script::Hanunoo);
    }
    if is_script_names_hatran(n) {
        return Some(Script::Hatran);
    }
    if is_script_names_hebrew(n) {
        return Some(Script::Hebrew);
    }
    if is_script_names_hiragana(n) {
        return Some(Script::Hiragana);
    }
    if is_script_names_pahawh_hmong(n) {
        return Some(Script::PahawhHmong);
    }
    if is_script_names_nyiakeng_puachue_hmong(n) {
        return Some(Script::NyiakengPuachueHmong);
    }
    if is_script_names_old_hungarian(n) {
        return Some(Script::OldHungarian);
    }
    if is_script_names_inherited(n) {
        return Some(Script::Inherited);
    }
    if is_script_names_inscriptional_pahlavi(n) {
        return Some(Script::InscriptionalPahlavi);
    }
    if is_script_names_inscriptional_parthian(n) {
        return Some(Script::InscriptionalParthian);
    }
    if is_script_names_old_italic(n) {
        return Some(Script::OldItalic);
    }
    if is_script_names_javanese(n) {
        return Some(Script::Javanese);
    }
    if is_script_names_kaithi(n) {
        return Some(Script::Kaithi);
    }
    if is_script_names_kayah_li(n) {
        return Some(Script::KayahLi);
    }
    if is_script_names_katakana(n) {
        return Some(Script::Katakana);
    }
    if is_script_names_kannada(n) {
        return Some(Script::Kannada);
    }
    if is_script_names_kawi(n) {
        return Some(Script::Kawi);
    }
    if is_script_names_kharoshthi(n) {
        return Some(Script::Kharoshthi);
    }
    if is_script_names_khitan_small_script(n) {
        return Some(Script::KhitanSmallScript);
    }
    if is_script_names_khmer(n) {
        return Some(Script::Khmer);
    }
    if is_script_names_khojki(n) {
        return Some(Script::Khojki);
    }
    if is_script_names_khudawadi(n) {
        return Some(Script::Khudawadi);
    }
    if is_script_names_kirat_rai(n) {
        return Some(Script::KiratRai);
    }
    if is_script_names_tai_tham(n) {
        return Some(Script::TaiTham);
    }
    if is_script_names_lao(n) {
        return Some(Script::Lao);
    }
    if is_script_names_latin(n) {
        return Some(Script::Latin);
    }
    if is_script_names_lepcha(n) {
        return Some(Script::Lepcha);
    }
    if is_script_names_limbu(n) {
        return Some(Script::Limbu);
    }
    if is_script_names_linear_a(n) {
        return Some(Script::LinearA);
    }
    if is_script_names_linear_b(n) {
        return Some(Script::LinearB);
    }
    if is_script_names_lisu(n) {
        return Some(Script::Lisu);
    }
    if is_script_names_lycian(n) {
        return Some(Script::Lycian);
    }
    if is_script_names_lydian(n) {
        return Some(Script::Lydian);
    }
    if is_script_names_mahajani(n) {
        return Some(Script::Mahajani);
    }
    if is_script_names_makasar(n) {
        return Some(Script::Makasar);
    }
    if is_script_names_malayalam(n) {
        return Some(Script::Malayalam);
    }
    if is_script_names_mandaic(n) {
        return Some(Script::Mandaic);
    }
    if is_script_names_manichaean(n) {
        return Some(Script::Manichaean);
    }
    if is_script_names_marchen(n) {
        return Some(Script::Marchen);
    }
    if is_script_names_medefaidrin(n) {
        return Some(Script::Medefaidrin);
    }
    if is_script_names_meetei_mayek(n) {
        return Some(Script::MeeteiMayek);
    }
    if is_script_names_mende_kikakui(n) {
        return Some(Script::MendeKikakui);
    }
    if is_script_names_meroitic_cursive(n) {
        return Some(Script::MeroiticCursive);
    }
    if is_script_names_meroitic_hieroglyphs(n) {
        return Some(Script::MeroiticHieroglyphs);
    }
    if is_script_names_miao(n) {
        return Some(Script::Miao);
    }
    if is_script_names_modi(n) {
        return Some(Script::Modi);
    }
    if is_script_names_mongolian(n) {
        return Some(Script::Mongolian);
    }
    if is_script_names_mro(n) {
        return Some(Script::Mro);
    }
    if is_script_names_multani(n) {
        return Some(Script::Multani);
    }
    if is_script_names_myanmar(n) {
        return Some(Script::Myanmar);
    }
    if is_script_names_nabataean(n) {
        return Some(Script::Nabataean);
    }
    if is_script_names_nag_mundari(n) {
        return Some(Script::NagMundari);
    }
    if is_script_names_nandinagari(n) {
        return Some(Script::Nandinagari);
    }
    if is_script_names_old_north_arabian(n) {
        return Some(Script::OldNorthArabian);
    }
    if is_script_names_newa(n) {
        return Some(Script::Newa);
    }
    if is_script_names_new_tai_lue(n) {
        return Some(Script::NewTaiLue);
    }
    if is_script_names_nko(n) {
        return Some(Script::Nko);
    }
    if is_script_names_nushu(n) {
        return Some(Script::Nushu);
    }
    if is_script_names_ogham(n) {
        return Some(Script::Ogham);
    }
    if is_script_names_ol_chiki(n) {
        return Some(Script::OlChiki);
    }
    if is_script_names_old_permic(n) {
        return Some(Script::OldPermic);
    }
    if is_script_names_old_persian(n) {
        return Some(Script::OldPersian);
    }
    if is_script_names_old_sogdian(n) {
        return Some(Script::OldSogdian);
    }
    if is_script_names_old_south_arabian(n) {
        return Some(Script::OldSouthArabian);
    }
    if is_script_names_old_turkic(n) {
        return Some(Script::OldTurkic);
    }
    if is_script_names_old_uyghur(n) {
        return Some(Script::OldUyghur);
    }
    if is_script_names_ol_onal(n) {
        return Some(Script::OlOnal);
    }
    if is_script_names_oriya(n) {
        return Some(Script::Oriya);
    }
    if is_script_names_osage(n) {
        return Some(Script::Osage);
    }
    if is_script_names_osmanya(n) {
        return Some(Script::Osmanya);
    }
    if is_script_names_palmyrene(n) {
        return Some(Script::Palmyrene);
    }
    if is_script_names_pau_cin_hau(n) {
        return Some(Script::PauCinHau);
    }
    if is_script_names_phags_pa(n) {
        return Some(Script::PhagsPa);
    }
    if is_script_names_psalter_pahlavi(n) {
        return Some(Script::PsalterPahlavi);
    }
    if is_script_names_phoenician(n) {
        return Some(Script::Phoenician);
    }
    if is_script_names_rejang(n) {
        return Some(Script::Rejang);
    }
    if is_script_names_runic(n) {
        return Some(Script::Runic);
    }
    if is_script_names_samaritan(n) {
        return Some(Script::Samaritan);
    }
    if is_script_names_saurashtra(n) {
        return Some(Script::Saurashtra);
    }
    if is_script_names_signwriting(n) {
        return Some(Script::SignWriting);
    }
    if is_script_names_sharada(n) {
        return Some(Script::Sharada);
    }
    if is_script_names_shavian(n) {
        return Some(Script::Shavian);
    }
    if is_script_names_siddham(n) {
        return Some(Script::Siddham);
    }
    if is_script_names_sinhala(n) {
        return Some(Script::Sinhala);
    }
    if is_script_names_sogdian(n) {
        return Some(Script::Sogdian);
    }
    if is_script_names_sora_sompeng(n) {
        return Some(Script::SoraSompeng);
    }
    if is_script_names_soyombo(n) {
        return Some(Script::Soyombo);
    }
    if is_script_names_sundanese(n) {
        return Some(Script::Sundanese);
    }
    if is_script_names_sunuwar(n) {
        return Some(Script::Sunuwar);
    }
    if is_script_names_syloti_nagri(n) {
        return Some(Script::SylotiNagri);
    }
    if is_script_names_syriac(n) {
        return Some(Script::Syriac);
    }
    if is_script_names_tagalog(n) {
        return Some(Script::Tagalog);
    }
    if is_script_names_tagbanwa(n) {
        return Some(Script::Tagbanwa);
    }
    if is_script_names_tai_le(n) {
        return Some(Script::TaiLe);
    }
    if is_script_names_tai_viet(n) {
        return Some(Script::TaiViet);
    }
    if is_script_names_takri(n) {
        return Some(Script::Takri);
    }
    if is_script_names_tamil(n) {
        return Some(Script::Tamil);
    }
    if is_script_names_tangut(n) {
        return Some(Script::Tangut);
    }
    if is_script_names_tangsa(n) {
        return Some(Script::Tangsa);
    }
    if is_script_names_telugu(n) {
        return Some(Script::Telugu);
    }
    if is_script_names_tifinagh(n) {
        return Some(Script::Tifinagh);
    }
    if is_script_names_thaana(n) {
        return Some(Script::Thaana);
    }
    if is_script_names_thai(n) {
        return Some(Script::Thai);
    }
    if is_script_names_tibetan(n) {
        return Some(Script::Tibetan);
    }
    if is_script_names_tirhuta(n) {
        return Some(Script::Tirhuta);
    }
    if is_script_names_todhri(n) {
        return Some(Script::Todhri);
    }
    if is_script_names_toto(n) {
        return Some(Script::Toto);
    }
    if is_script_names_tulu_tigalari(n) {
        return Some(Script::TuluTigalari);
    }
    if is_script_names_ugaritic(n) {
        return Some(Script::Ugaritic);
    }
    if is_script_names_vai(n) {
        return Some(Script::Vai);
    }
    if is_script_names_vithkuqi(n) {
        return Some(Script::Vithkuqi);
    }
    if is_script_names_wancho(n) {
        return Some(Script::Wancho);
    }
    if is_script_names_warang_citi(n) {
        return Some(Script::WarangCiti);
    }
    if is_script_names_yezidi(n) {
        return Some(Script::Yezidi);
    }
    if is_script_names_yi(n) {
        return Some(Script::Yi);
    }
    if is_script_names_zanabazar_square(n) {
        return Some(Script::ZanabazarSquare);
    }
    None
}

/// The normalized names of scripts that no character has a table for (`Unknown`, `Katakana_Or_Hiragana`).
pub open spec fn script_without_table(n: Seq<char>) -> bool {
    script_names_katakana_or_hiragana(n) || script_names_unknown(n)
}

/// See `script_without_table`.
pub fn is_script_without_table(n: &[char]) -> (r: bool)
    ensures
        r == script_without_table(n@),
{
    is_script_names_katakana_or_hiragana(n) || is_script_names_unknown(n)
}

/// A normalized property key that names the script.
pub open spec fn is_script_key(n: Seq<char>) -> bool {
    n == seq!['s', 'c'] || n == seq!['s', 'c', 'r', 'i', 'p', 't']
}

/// See `is_script_key`.
pub fn script_key(n: &[char]) -> (r: bool)
    ensures
        r == is_script_key(n@),
{
    let w0: [char; 2] = ['s', 'c'];
    assert(w0@ =~= seq!['s', 'c']);
    let w1: [char; 6] = ['s', 'c', 'r', 'i', 'p', 't'];
    assert(w1@ =~= seq!['s', 'c', 'r', 'i', 'p', 't']);
    chars_eq(n, &w0) || chars_eq(n, &w1)
}

} // verus!
