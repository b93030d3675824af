//! The ranges of a part of the boolean Unicode properties (see `boolprop`).
use vstd::prelude::*;
use crate::ranges::{SRange, canonical};
use crate::class::{ClassUnicodeRange, rview, lemma_rview_push};
use crate::word::lemma_canonical_append;

verus! {

fn push_range(v: &mut Vec<ClassUnicodeRange>, a: char, b: char)
    ensures
        rview(final(v)@) == rview(old(v)@).push((a as int, b as int)),
{
    let r = ClassUnicodeRange { start: a, end: b };
    proof {
        lemma_rview_push(v@, r);
    }
    v.push(r);
}

pub open spec fn ascii_hex_digit_chunk_0() -> Seq<SRange> {
    seq![(0x30int, 0x39int), (0x41int, 0x46int), (0x61int, 0x66int)]
}

/// The ranges of the property ASCII_Hex_Digit.
pub open spec fn ascii_hex_digit_ranges() -> Seq<SRange> {
    ascii_hex_digit_chunk_0()
}

pub proof fn lemma_ascii_hex_digit_canonical()
    ensures
        canonical(ascii_hex_digit_ranges()),
{
    reveal_with_fuel(canonical, 9);
    assert(canonical(ascii_hex_digit_chunk_0()));
}

fn push_ascii_hex_digit_chunk_0(v: &mut Vec<ClassUnicodeRange>)
    ensures
        rview(final(v)@) == rview(old(v)@) + ascii_hex_digit_chunk_0(),
{
    let ghost o = rview(v@);
    push_range(v, '\u{30}', '\u{39}');
    push_range(v, '\u{41}', '\u{46}');
    push_range(v, '\u{61}', '\u{66}');
    assert(rview(v@) =~= o + ascii_hex_digit_chunk_0());
}

pub fn ascii_hex_digit_class() -> (v: Vec<ClassUnicodeRange>)
    ensures
        rview(v@) == ascii_hex_digit_ranges(),
{
    let mut v: Vec<ClassUnicodeRange> = Vec::new();
    assert(rview(v@) =~= Seq::<SRange>::empty());
    push_ascii_hex_digit_chunk_0(&mut v);
    assert(rview(v@) =~= ascii_hex_digit_chunk_0());
    v
}

pub open spec fn alphabetic_chunk_0() -> Seq<SRange> {
    seq![(0x41int, 0x5Aint), (0x61int, 0x7Aint), (0xAAint, 0xAAint), (0xB5int, 0xB5int), (0xBAint, 0xBAint), (0xC0int, 0xD6int), (0xD8int, 0xF6int), (0xF8int, 0x2C1int)]
}

pub open spec fn alphabetic_chunk_1() -> Seq<SRange> {
    seq![(0x2C6int, 0x2D1int), (0x2E0int, 0x2E4int), (0x2ECint, 0x2ECint), (0x2EEint, 0x2EEint), (0x345int, 0x345int), (0x363int, 0x374int), (0x376int, 0x377int), (0x37Aint, 0x37Dint)]
}

pub open spec fn alphabetic_chunk_2() -> Seq<SRange> {
    seq![(0x37Fint, 0x37Fint), (0x386int, 0x386int), (0x388int, 0x38Aint), (0x38Cint, 0x38Cint), (0x38Eint, 0x3A1int), (0x3A3int, 0x3F5int), (0x3F7int, 0x481int), (0x48Aint, 0x52Fint)]
}

pub open spec fn alphabetic_chunk_3() -> Seq<SRange> {
    seq![(0x531int, 0x556int), (0x559int, 0x559int), (0x560int, 0x588int), (0x5B0int, 0x5BDint), (0x5BFint, 0x5BFint), (0x5C1int, 0x5C2int), (0x5C4int, 0x5C5int), (0x5C7int, 0x5C7int)]
}

pub open spec fn alphabetic_chunk_4() -> Seq<SRange> {
    seq![(0x5D0int, 0x5EAint), (0x5EFint, 0x5F2int), (0x610int, 0x61Aint), (0x620int, 0x657int), (0x659int, 0x65Fint), (0x66Eint, 0x6D3int), (0x6D5int, 0x6DCint), (0x6E1int, 0x6E8int)]
}

pub open spec fn alphabetic_chunk_5() -> Seq<SRange> {
    seq![(0x6EDint, 0x6EFint), (0x6FAint, 0x6FCint), (0x6FFint, 0x6FFint), (0x710int, 0x73Fint), (0x74Dint, 0x7B1int), (0x7CAint, 0x7EAint), (0x7F4int, 0x7F5int), (0x7FAint, 0x7FAint)]
}

pub open spec fn alphabetic_chunk_6() -> Seq<SRange> {
    seq![(0x800int, 0x817int), (0x81Aint, 0x82Cint), (0x840int, 0x858int), (0x860int, 0x86Aint), (0x870int, 0x887int), (0x889int, 0x88Eint), (0x897int, 0x897int), (0x8A0int, 0x8C9int)]
}

pub open spec fn alphabetic_chunk_7() -> Seq<SRange> {
    seq![(0x8D4int, 0x8DFint), (0x8E3int, 0x8E9int), (0x8F0int, 0x93Bint), (0x93Dint, 0x94Cint), (0x94Eint, 0x950int), (0x955int, 0x963int), (0x971int, 0x983int), (0x985int, 0x98Cint)]
}

pub open spec fn alphabetic_chunk_8() -> Seq<SRange> {
    seq![(0x98Fint, 0x990int), (0x993int, 0x9A8int), (0x9AAint, 0x9B0int), (0x9B2int, 0x9B2int), (0x9B6int, 0x9B9int), (0x9BDint, 0x9C4int), (0x9C7int, 0x9C8int), (0x9CBint, 0x9CCint)]
}

pub open spec fn alphabetic_chunk_9() -> Seq<SRange> {
    seq![(0x9CEint, 0x9CEint), (0x9D7int, 0x9D7int), (0x9DCint, 0x9DDint), (0x9DFint, 0x9E3int), (0x9F0int, 0x9F1int), (0x9FCint, 0x9FCint), (0xA01int, 0xA03int), (0xA05int, 0xA0Aint)]
}

pub open spec fn alphabetic_chunk_10() -> Seq<SRange> {
    seq![(0xA0Fint, 0xA10int), (0xA13int, 0xA28int), (0xA2Aint, 0xA30int), (0xA32int, 0xA33int), (0xA35int, 0xA36int), (0xA38int, 0xA39int), (0xA3Eint, 0xA42int), (0xA47int, 0xA48int)]
}

pub open spec fn alphabetic_chunk_11() -> Seq<SRange> {
    seq![(0xA4Bint, 0xA4Cint), (0xA51int, 0xA51int), (0xA59int, 0xA5Cint), (0xA5Eint, 0xA5Eint), (0xA70int, 0xA75int), (0xA81int, 0xA83int), (0xA85int, 0xA8Dint), (0xA8Fint, 0xA91int)]
}

pub open spec fn alphabetic_chunk_12() -> Seq<SRange> {
    seq![(0xA93int, 0xAA8int), (0xAAAint, 0xAB0int), (0xAB2int, 0xAB3int), (0xAB5int, 0xAB9int), (0xABDint, 0xAC5int), (0xAC7int, 0xAC9int), (0xACBint, 0xACCint), (0xAD0int, 0xAD0int)]
}

pub open spec fn alphabetic_chunk_13() -> Seq<SRange> {
    seq![(0xAE0int, 0xAE3int), (0xAF9int, 0xAFCint), (0xB01int, 0xB03int), (0xB05int, 0xB0Cint), (0xB0Fint, 0xB10int), (0xB13int, 0xB28int), (0xB2Aint, 0xB30int), (0xB32int, 0xB33int)]
}

pub open spec fn alphabetic_chunk_14() -> Seq<SRange> {
    seq![(0xB35int, 0xB39int), (0xB3Dint, 0xB44int), (0xB47int, 0xB48int), (0xB4Bint, 0xB4Cint), (0xB56int, 0xB57int), (0xB5Cint, 0xB5Dint), (0xB5Fint, 0xB63int), (0xB71int, 0xB71int)]
}

pub open spec fn alphabetic_chunk_15() -> Seq<SRange> {
    seq![(0xB82int, 0xB83int), (0xB85int, 0xB8Aint), (0xB8Eint, 0xB90int), (0xB92int, 0xB95int), (0xB99int, 0xB9Aint), (0xB9Cint, 0xB9Cint), (0xB9Eint, 0xB9Fint), (0xBA3int, 0xBA4int)]
}

pub open spec fn alphabetic_chunk_16() -> Seq<SRange> {
    seq![(0xBA8int, 0xBAAint), (0xBAEint, 0xBB9int), (0xBBEint, 0xBC2int), (0xBC6int, 0xBC8int), (0xBCAint, 0xBCCint), (0xBD0int, 0xBD0int), (0xBD7int, 0xBD7int), (0xC00int, 0xC0Cint)]
}

pub open spec fn alphabetic_chunk_17() -> Seq<SRange> {
    seq![(0xC0Eint, 0xC10int), (0xC12int, 0xC28int), (0xC2Aint, 0xC39int), (0xC3Dint, 0xC44int), (0xC46int, 0xC48int), (0xC4Aint, 0xC4Cint), (0xC55int, 0xC56int), (0xC58int, 0xC5Aint)]
}

pub open spec fn alphabetic_chunk_18() -> Seq<SRange> {
    seq![(0xC5Dint, 0xC5Dint), (0xC60int, 0xC63int), (0xC80int, 0xC83int), (0xC85int, 0xC8Cint), (0xC8Eint, 0xC90int), (0xC92int, 0xCA8int), (0xCAAint, 0xCB3int), (0xCB5int, 0xCB9int)]
}

pub open spec fn alphabetic_chunk_19() -> Seq<SRange> {
    seq![(0xCBDint, 0xCC4int), (0xCC6int, 0xCC8int), (0xCCAint, 0xCCCint), (0xCD5int, 0xCD6int), (0xCDDint, 0xCDEint), (0xCE0int, 0xCE3int), (0xCF1int, 0xCF3int), (0xD00int, 0xD0Cint)]
}

pub open spec fn alphabetic_chunk_20() -> Seq<SRange> {
    seq![(0xD0Eint, 0xD10int), (0xD12int, 0xD3Aint), (0xD3Dint, 0xD44int), (0xD46int, 0xD48int), (0xD4Aint, 0xD4Cint), (0xD4Eint, 0xD4Eint), (0xD54int, 0xD57int), (0xD5Fint, 0xD63int)]
}

pub open spec fn alphabetic_chunk_21() -> Seq<SRange> {
    seq![(0xD7Aint, 0xD7Fint), (0xD81int, 0xD83int), (0xD85int, 0xD96int), (0xD9Aint, 0xDB1int), (0xDB3int, 0xDBBint), (0xDBDint, 0xDBDint), (0xDC0int, 0xDC6int), (0xDCFint, 0xDD4int)]
}

pub open spec fn alphabetic_chunk_22() -> Seq<SRange> {
    seq![(0xDD6int, 0xDD6int), (0xDD8int, 0xDDFint), (0xDF2int, 0xDF3int), (0xE01int, 0xE3Aint), (0xE40int, 0xE46int), (0xE4Dint, 0xE4Dint), (0xE81int, 0xE82int), (0xE84int, 0xE84int)]
}

pub open spec fn alphabetic_chunk_23() -> Seq<SRange> {
    seq![(0xE86int, 0xE8Aint), (0xE8Cint, 0xEA3int), (0xEA5int, 0xEA5int), (0xEA7int, 0xEB9int), (0xEBBint, 0xEBDint), (0xEC0int, 0xEC4int), (0xEC6int, 0xEC6int), (0xECDint, 0xECDint)]
}

pub open spec fn alphabetic_chunk_24() -> Seq<SRange> {
    seq![(0xEDCint, 0xEDFint), (0xF00int, 0xF00int), (0xF40int, 0xF47int), (0xF49int, 0xF6Cint), (0xF71int, 0xF83int), (0xF88int, 0xF97int), (0xF99int, 0xFBCint), (0x1000int, 0x1036int)]
}

pub open spec fn alphabetic_chunk_25() -> Seq<SRange> {
    seq![(0x1038int, 0x1038int), (0x103Bint, 0x103Fint), (0x1050int, 0x108Fint), (0x109Aint, 0x109Dint), (0x10A0int, 0x10C5int), (0x10C7int, 0x10C7int), (0x10CDint, 0x10CDint), (0x10D0int, 0x10FAint)]
}

pub open spec fn alphabetic_chunk_26() -> Seq<SRange> {
    seq![(0x10FCint, 0x1248int), (0x124Aint, 0x124Dint), (0x1250int, 0x1256int), (0x1258int, 0x1258int), (0x125Aint, 0x125Dint), (0x1260int, 0x1288int), (0x128Aint, 0x128Dint), (0x1290int, 0x12B0int)]
}

pub open spec fn alphabetic_chunk_27() -> Seq<SRange> {
    seq![(0x12B2int, 0x12B5int), (0x12B8int, 0x12BEint), (0x12C0int, 0x12C0int), (0x12C2int, 0x12C5int), (0x12C8int, 0x12D6int), (0x12D8int, 0x1310int), (0x1312int, 0x1315int), (0x1318int, 0x135Aint)]
}

pub open spec fn alphabetic_chunk_28() -> Seq<SRange> {
    seq![(0x1380int, 0x138Fint), (0x13A0int, 0x13F5int), (0x13F8int, 0x13FDint), (0x1401int, 0x166Cint), (0x166Fint, 0x167Fint), (0x1681int, 0x169Aint), (0x16A0int, 0x16EAint), (0x16EEint, 0x16F8int)]
}

pub open spec fn alphabetic_chunk_29() -> Seq<SRange> {
    seq![(0x1700int, 0x1713int), (0x171Fint, 0x1733int), (0x1740int, 0x1753int), (0x1760int, 0x176Cint), (0x176Eint, 0x1770int), (0x1772int, 0x1773int), (0x1780int, 0x17B3int), (0x17B6int, 0x17C8int)]
}

pub open spec fn alphabetic_chunk_30() -> Seq<SRange> {
    seq![(0x17D7int, 0x17D7int), (0x17DCint, 0x17DCint), (0x1820int, 0x1878int), (0x1880int, 0x18AAint), (0x18B0int, 0x18F5int), (0x1900int, 0x191Eint), (0x1920int, 0x192Bint), (0x1930int, 0x1938int)]
}

pub open spec fn alphabetic_chunk_31() -> Seq<SRange> {
    seq![(0x1950int, 0x196Dint), (0x1970int, 0x1974int), (0x1980int, 0x19ABint), (0x19B0int, 0x19C9int), (0x1A00int, 0x1A1Bint), (0x1A20int, 0x1A5Eint), (0x1A61int, 0x1A74int), (0x1AA7int, 0x1AA7int)]
}

pub open spec fn alphabetic_chunk_32() -> Seq<SRange> {
    seq![(0x1ABFint, 0x1AC0int), (0x1ACCint, 0x1ACEint), (0x1B00int, 0x1B33int), (0x1B35int, 0x1B43int), (0x1B45int, 0x1B4Cint), (0x1B80int, 0x1BA9int), (0x1BACint, 0x1BAFint), (0x1BBAint, 0x1BE5int)]
}

pub open spec fn alphabetic_chunk_33() -> Seq<SRange> {
    seq![(0x1BE7int, 0x1BF1int), (0x1C00int, 0x1C36int), (0x1C4Dint, 0x1C4Fint), (0x1C5Aint, 0x1C7Dint), (0x1C80int, 0x1C8Aint), (0x1C90int, 0x1CBAint), (0x1CBDint, 0x1CBFint), (0x1CE9int, 0x1CECint)]
}

pub open spec fn alphabetic_chunk_34() -> Seq<SRange> {
    seq![(0x1CEEint, 0x1CF3int), (0x1CF5int, 0x1CF6int), (0x1CFAint, 0x1CFAint), (0x1D00int, 0x1DBFint), (0x1DD3int, 0x1DF4int), (0x1E00int, 0x1F15int), (0x1F18int, 0x1F1Dint), (0x1F20int, 0x1F45int)]
}

pub open spec fn alphabetic_chunk_35() -> Seq<SRange> {
    seq![(0x1F48int, 0x1F4Dint), (0x1F50int, 0x1F57int), (0x1F59int, 0x1F59int), (0x1F5Bint, 0x1F5Bint), (0x1F5Dint, 0x1F5Dint), (0x1F5Fint, 0x1F7Dint), (0x1F80int, 0x1FB4int), (0x1FB6int, 0x1FBCint)]
}

pub open spec fn alphabetic_chunk_36() -> Seq<SRange> {
    seq![(0x1FBEint, 0x1FBEint), (0x1FC2int, 0x1FC4int), (0x1FC6int, 0x1FCCint), (0x1FD0int, 0x1FD3int), (0x1FD6int, 0x1FDBint), (0x1FE0int, 0x1FECint), (0x1FF2int, 0x1FF4int), (0x1FF6int, 0x1FFCint)]
}

pub open spec fn alphabetic_chunk_37() -> Seq<SRange> {
    seq![(0x2071int, 0x2071int), (0x207Fint, 0x207Fint), (0x2090int, 0x209Cint), (0x2102int, 0x2102int), (0x2107int, 0x2107int), (0x210Aint, 0x2113int), (0x2115int, 0x2115int), (0x2119int, 0x211Dint)]
}

pub open spec fn alphabetic_chunk_38() -> Seq<SRange> {
    seq![(0x2124int, 0x2124int), (0x2126int, 0x2126int), (0x2128int, 0x2128int), (0x212Aint, 0x212Dint), (0x212Fint, 0x2139int), (0x213Cint, 0x213Fint), (0x2145int, 0x2149int), (0x214Eint, 0x214Eint)]
}

pub open spec fn alphabetic_chunk_39() -> Seq<SRange> {
    seq![(0x2160int, 0x2188int), (0x24B6int, 0x24E9int), (0x2C00int, 0x2CE4int), (0x2CEBint, 0x2CEEint), (0x2CF2int, 0x2CF3int), (0x2D00int, 0x2D25int), (0x2D27int, 0x2D27int), (0x2D2Dint, 0x2D2Dint)]
}

pub open spec fn alphabetic_chunk_40() -> Seq<SRange> {
    seq![(0x2D30int, 0x2D67int), (0x2D6Fint, 0x2D6Fint), (0x2D80int, 0x2D96int), (0x2DA0int, 0x2DA6int), (0x2DA8int, 0x2DAEint), (0x2DB0int, 0x2DB6int), (0x2DB8int, 0x2DBEint), (0x2DC0int, 0x2DC6int)]
}

pub open spec fn alphabetic_chunk_41() -> Seq<SRange> {
    seq![(0x2DC8int, 0x2DCEint), (0x2DD0int, 0x2DD6int), (0x2DD8int, 0x2DDEint), (0x2DE0int, 0x2DFFint), (0x2E2Fint, 0x2E2Fint), (0x3005int, 0x3007int), (0x3021int, 0x3029int), (0x3031int, 0x3035int)]
}

pub open spec fn alphabetic_chunk_42() -> Seq<SRange> {
    seq![(0x3038int, 0x303Cint), (0x3041int, 0x3096int), (0x309Dint, 0x309Fint), (0x30A1int, 0x30FAint), (0x30FCint, 0x30FFint), (0x3105int, 0x312Fint), (0x3131int, 0x318Eint), (0x31A0int, 0x31BFint)]
}

pub open spec fn alphabetic_chunk_43() -> Seq<SRange> {
    seq![(0x31F0int, 0x31FFint), (0x3400int, 0x4DBFint), (0x4E00int, 0xA48Cint), (0xA4D0int, 0xA4FDint), (0xA500int, 0xA60Cint), (0xA610int, 0xA61Fint), (0xA62Aint, 0xA62Bint), (0xA640int, 0xA66Eint)]
}

pub open spec fn alphabetic_chunk_44() -> Seq<SRange> {
    seq![(0xA674int, 0xA67Bint), (0xA67Fint, 0xA6EFint), (0xA717int, 0xA71Fint), (0xA722int, 0xA788int), (0xA78Bint, 0xA7CDint), (0xA7D0int, 0xA7D1int), (0xA7D3int, 0xA7D3int), (0xA7D5int, 0xA7DCint)]
}

pub open spec fn alphabetic_chunk_45() -> Seq<SRange> {
    seq![(0xA7F2int, 0xA805int), (0xA807int, 0xA827int), (0xA840int, 0xA873int), (0xA880int, 0xA8C3int), (0xA8C5int, 0xA8C5int), (0xA8F2int, 0xA8F7int), (0xA8FBint, 0xA8FBint), (0xA8FDint, 0xA8FFint)]
}

pub open spec fn alphabetic_chunk_46() -> Seq<SRange> {
    seq![(0xA90Aint, 0xA92Aint), (0xA930int, 0xA952int), (0xA960int, 0xA97Cint), (0xA980int, 0xA9B2int), (0xA9B4int, 0xA9BFint), (0xA9CFint, 0xA9CFint), (0xA9E0int, 0xA9EFint), (0xA9FAint, 0xA9FEint)]
}

pub open spec fn alphabetic_chunk_47() -> Seq<SRange> {
    seq![(0xAA00int, 0xAA36int), (0xAA40int, 0xAA4Dint), (0xAA60int, 0xAA76int), (0xAA7Aint, 0xAABEint), (0xAAC0int, 0xAAC0int), (0xAAC2int, 0xAAC2int), (0xAADBint, 0xAADDint), (0xAAE0int, 0xAAEFint)]
}

pub open spec fn alphabetic_chunk_48() -> Seq<SRange> {
    seq![(0xAAF2int, 0xAAF5int), (0xAB01int, 0xAB06int), (0xAB09int, 0xAB0Eint), (0xAB11int, 0xAB16int), (0xAB20int, 0xAB26int), (0xAB28int, 0xAB2Eint), (0xAB30int, 0xAB5Aint), (0xAB5Cint, 0xAB69int)]
}

pub open spec fn alphabetic_chunk_49() -> Seq<SRange> {
    seq![(0xAB70int, 0xABEAint), (0xAC00int, 0xD7A3int), (0xD7B0int, 0xD7C6int), (0xD7CBint, 0xD7FBint), (0xF900int, 0xFA6Dint), (0xFA70int, 0xFAD9int), (0xFB00int, 0xFB06int), (0xFB13int, 0xFB17int)]
}

pub open spec fn alphabetic_chunk_50() -> Seq<SRange> {
    seq![(0xFB1Dint, 0xFB28int), (0xFB2Aint, 0xFB36int), (0xFB38int, 0xFB3Cint), (0xFB3Eint, 0xFB3Eint), (0xFB40int, 0xFB41int), (0xFB43int, 0xFB44int), (0xFB46int, 0xFBB1int), (0xFBD3int, 0xFD3Dint)]
}

pub open spec fn alphabetic_chunk_51() -> Seq<SRange> {
    seq![(0xFD50int, 0xFD8Fint), (0xFD92int, 0xFDC7int), (0xFDF0int, 0xFDFBint), (0xFE70int, 0xFE74int), (0xFE76int, 0xFEFCint), (0xFF21int, 0xFF3Aint), (0xFF41int, 0xFF5Aint), (0xFF66int, 0xFFBEint)]
}

pub open spec fn alphabetic_chunk_52() -> Seq<SRange> {
    seq![(0xFFC2int, 0xFFC7int), (0xFFCAint, 0xFFCFint), (0xFFD2int, 0xFFD7int), (0xFFDAint, 0xFFDCint), (0x10000int, 0x1000Bint), (0x1000Dint, 0x10026int), (0x10028int, 0x1003Aint), (0x1003Cint, 0x1003Dint)]
}

pub open spec fn alphabetic_chunk_53() -> Seq<SRange> {
    seq![(0x1003Fint, 0x1004Dint), (0x10050int, 0x1005Dint), (0x10080int, 0x100FAint), (0x10140int, 0x10174int), (0x10280int, 0x1029Cint), (0x102A0int, 0x102D0int), (0x10300int, 0x1031Fint), (0x1032Dint, 0x1034Aint)]
}

pub open spec fn alphabetic_chunk_54() -> Seq<SRange> {
    seq![(0x10350int, 0x1037Aint), (0x10380int, 0x1039Dint), (0x103A0int, 0x103C3int), (0x103C8int, 0x103CFint), (0x103D1int, 0x103D5int), (0x10400int, 0x1049Dint), (0x104B0int, 0x104D3int), (0x104D8int, 0x104FBint)]
}

pub open spec fn alphabetic_chunk_55() -> Seq<SRange> {
    seq![(0x10500int, 0x10527int), (0x10530int, 0x10563int), (0x10570int, 0x1057Aint), (0x1057Cint, 0x1058Aint), (0x1058Cint, 0x10592int), (0x10594int, 0x10595int), (0x10597int, 0x105A1int), (0x105A3int, 0x105B1int)]
}

pub open spec fn alphabetic_chunk_56() -> Seq<SRange> {
    seq![(0x105B3int, 0x105B9int), (0x105BBint, 0x105BCint), (0x105C0int, 0x105F3int), (0x10600int, 0x10736int), (0x10740int, 0x10755int), (0x10760int, 0x10767int), (0x10780int, 0x10785int), (0x10787int, 0x107B0int)]
}

pub open spec fn alphabetic_chunk_57() -> Seq<SRange> {
    seq![(0x107B2int, 0x107BAint), (0x10800int, 0x10805int), (0x10808int, 0x10808int), (0x1080Aint, 0x10835int), (0x10837int, 0x10838int), (0x1083Cint, 0x1083Cint), (0x1083Fint, 0x10855int), (0x10860int, 0x10876int)]
}

pub open spec fn alphabetic_chunk_58() -> Seq<SRange> {
    seq![(0x10880int, 0x1089Eint), (0x108E0int, 0x108F2int), (0x108F4int, 0x108F5int), (0x10900int, 0x10915int), (0x10920int, 0x10939int), (0x10980int, 0x109B7int), (0x109BEint, 0x109BFint), (0x10A00int, 0x10A03int)]
}

pub open spec fn alphabetic_chunk_59() -> Seq<SRange> {
    seq![(0x10A05int, 0x10A06int), (0x10A0Cint, 0x10A13int), (0x10A15int, 0x10A17int), (0x10A19int, 0x10A35int), (0x10A60int, 0x10A7Cint), (0x10A80int, 0x10A9Cint), (0x10AC0int, 0x10AC7int), (0x10AC9int, 0x10AE4int)]
}

pub open spec fn alphabetic_chunk_60() -> Seq<SRange> {
    seq![(0x10B00int, 0x10B35int), (0x10B40int, 0x10B55int), (0x10B60int, 0x10B72int), (0x10B80int, 0x10B91int), (0x10C00int, 0x10C48int), (0x10C80int, 0x10CB2int), (0x10CC0int, 0x10CF2int), (0x10D00int, 0x10D27int)]
}

pub open spec fn alphabetic_chunk_61() -> Seq<SRange> {
    seq![(0x10D4Aint, 0x10D65int), (0x10D69int, 0x10D69int), (0x10D6Fint, 0x10D85int), (0x10E80int, 0x10EA9int), (0x10EABint, 0x10EACint), (0x10EB0int, 0x10EB1int), (0x10EC2int, 0x10EC4int), (0x10EFCint, 0x10EFCint)]
}

pub open spec fn alphabetic_chunk_62() -> Seq<SRange> {
    seq![(0x10F00int, 0x10F1Cint), (0x10F27int, 0x10F27int), (0x10F30int, 0x10F45int), (0x10F70int, 0x10F81int), (0x10FB0int, 0x10FC4int), (0x10FE0int, 0x10FF6int), (0x11000int, 0x11045int), (0x11071int, 0x11075int)]
}

pub open spec fn alphabetic_chunk_63() -> Seq<SRange> {
    seq![(0x11080int, 0x110B8int), (0x110C2int, 0x110C2int), (0x110D0int, 0x110E8int), (0x11100int, 0x11132int), (0x11144int, 0x11147int), (0x11150int, 0x11172int), (0x11176int, 0x11176int), (0x11180int, 0x111BFint)]
}

pub open spec fn alphabetic_chunk_64() -> Seq<SRange> {
    seq![(0x111C1int, 0x111C4int), (0x111CEint, 0x111CFint), (0x111DAint, 0x111DAint), (0x111DCint, 0x111DCint), (0x11200int, 0x11211int), (0x11213int, 0x11234int), (0x11237int, 0x11237int), (0x1123Eint, 0x11241int)]
}

pub open spec fn alphabetic_chunk_65() -> Seq<SRange> {
    seq![(0x11280int, 0x11286int), (0x11288int, 0x11288int), (0x1128Aint, 0x1128Dint), (0x1128Fint, 0x1129Dint), (0x1129Fint, 0x112A8int), (0x112B0int, 0x112E8int), (0x11300int, 0x11303int), (0x11305int, 0x1130Cint)]
}

pub open spec fn alphabetic_chunk_66() -> Seq<SRange> {
    seq![(0x1130Fint, 0x11310int), (0x11313int, 0x11328int), (0x1132Aint, 0x11330int), (0x11332int, 0x11333int), (0x11335int, 0x11339int), (0x1133Dint, 0x11344int), (0x11347int, 0x11348int), (0x1134Bint, 0x1134Cint)]
}

pub open spec fn alphabetic_chunk_67() -> Seq<SRange> {
    seq![(0x11350int, 0x11350int), (0x11357int, 0x11357int), (0x1135Dint, 0x11363int), (0x11380int, 0x11389int), (0x1138Bint, 0x1138Bint), (0x1138Eint, 0x1138Eint), (0x11390int, 0x113B5int), (0x113B7int, 0x113C0int)]
}

pub open spec fn alphabetic_chunk_68() -> Seq<SRange> {
    seq![(0x113C2int, 0x113C2int), (0x113C5int, 0x113C5int), (0x113C7int, 0x113CAint), (0x113CCint, 0x113CDint), (0x113D1int, 0x113D1int), (0x113D3int, 0x113D3int), (0x11400int, 0x11441int), (0x11443int, 0x11445int)]
}

pub open spec fn alphabetic_chunk_69() -> Seq<SRange> {
    seq![(0x11447int, 0x1144Aint), (0x1145Fint, 0x11461int), (0x11480int, 0x114C1int), (0x114C4int, 0x114C5int), (0x114C7int, 0x114C7int), (0x11580int, 0x115B5int), (0x115B8int, 0x115BEint), (0x115D8int, 0x115DDint)]
}

pub open spec fn alphabetic_chunk_70() -> Seq<SRange> {
    seq![(0x11600int, 0x1163Eint), (0x11640int, 0x11640int), (0x11644int, 0x11644int), (0x11680int, 0x116B5int), (0x116B8int, 0x116B8int), (0x11700int, 0x1171Aint), (0x1171Dint, 0x1172Aint), (0x11740int, 0x11746int)]
}

pub open spec fn alphabetic_chunk_71() -> Seq<SRange> {
    seq![(0x11800int, 0x11838int), (0x118A0int, 0x118DFint), (0x118FFint, 0x11906int), (0x11909int, 0x11909int), (0x1190Cint, 0x11913int), (0x11915int, 0x11916int), (0x11918int, 0x11935int), (0x11937int, 0x11938int)]
}

pub open spec fn alphabetic_chunk_72() -> Seq<SRange> {
    seq![(0x1193Bint, 0x1193Cint), (0x1193Fint, 0x11942int), (0x119A0int, 0x119A7int), (0x119AAint, 0x119D7int), (0x119DAint, 0x119DFint), (0x119E1int, 0x119E1int), (0x119E3int, 0x119E4int), (0x11A00int, 0x11A32int)]
}

pub open spec fn alphabetic_chunk_73() -> Seq<SRange> {
    seq![(0x11A35int, 0x11A3Eint), (0x11A50int, 0x11A97int), (0x11A9Dint, 0x11A9Dint), (0x11AB0int, 0x11AF8int), (0x11BC0int, 0x11BE0int), (0x11C00int, 0x11C08int), (0x11C0Aint, 0x11C36int), (0x11C38int, 0x11C3Eint)]
}

pub open spec fn alphabetic_chunk_74() -> Seq<SRange> {
    seq![(0x11C40int, 0x11C40int), (0x11C72int, 0x11C8Fint), (0x11C92int, 0x11CA7int), (0x11CA9int, 0x11CB6int), (0x11D00int, 0x11D06int), (0x11D08int, 0x11D09int), (0x11D0Bint, 0x11D36int), (0x11D3Aint, 0x11D3Aint)]
}

pub open spec fn alphabetic_chunk_75() -> Seq<SRange> {
    seq![(0x11D3Cint, 0x11D3Dint), (0x11D3Fint, 0x11D41int), (0x11D43int, 0x11D43int), (0x11D46int, 0x11D47int), (0x11D60int, 0x11D65int), (0x11D67int, 0x11D68int), (0x11D6Aint, 0x11D8Eint), (0x11D90int, 0x11D91int)]
}

pub open spec fn alphabetic_chunk_76() -> Seq<SRange> {
    seq![(0x11D93int, 0x11D96int), (0x11D98int, 0x11D98int), (0x11EE0int, 0x11EF6int), (0x11F00int, 0x11F10int), (0x11F12int, 0x11F3Aint), (0x11F3Eint, 0x11F40int), (0x11FB0int, 0x11FB0int), (0x12000int, 0x12399int)]
}

pub open spec fn alphabetic_chunk_77() -> Seq<SRange> {
    seq![(0x12400int, 0x1246Eint), (0x12480int, 0x12543int), (0x12F90int, 0x12FF0int), (0x13000int, 0x1342Fint), (0x13441int, 0x13446int), (0x13460int, 0x143FAint), (0x14400int, 0x14646int), (0x16100int, 0x1612Eint)]
}

pub open spec fn alphabetic_chunk_78() -> Seq<SRange> {
    seq![(0x16800int, 0x16A38int), (0x16A40int, 0x16A5Eint), (0x16A70int, 0x16ABEint), (0x16AD0int, 0x16AEDint), (0x16B00int, 0x16B2Fint), (0x16B40int, 0x16B43int), (0x16B63int, 0x16B77int), (0x16B7Dint, 0x16B8Fint)]
}

pub open spec fn alphabetic_chunk_79() -> Seq<SRange> {
    seq![(0x16D40int, 0x16D6Cint), (0x16E40int, 0x16E7Fint), (0x16F00int, 0x16F4Aint), (0x16F4Fint, 0x16F87int), (0x16F8Fint, 0x16F9Fint), (0x16FE0int, 0x16FE1int), (0x16FE3int, 0x16FE3int), (0x16FF0int, 0x16FF1int)]
}

pub open spec fn alphabetic_chunk_80() -> Seq<SRange> {
    seq![(0x17000int, 0x187F7int), (0x18800int, 0x18CD5int), (0x18CFFint, 0x18D08int), (0x1AFF0int, 0x1AFF3int), (0x1AFF5int, 0x1AFFBint), (0x1AFFDint, 0x1AFFEint), (0x1B000int, 0x1B122int), (0x1B132int, 0x1B132int)]
}

pub open spec fn alphabetic_chunk_81() -> Seq<SRange> {
    seq![(0x1B150int, 0x1B152int), (0x1B155int, 0x1B155int), (0x1B164int, 0x1B167int), (0x1B170int, 0x1B2FBint), (0x1BC00int, 0x1BC6Aint), (0x1BC70int, 0x1BC7Cint), (0x1BC80int, 0x1BC88int), (0x1BC90int, 0x1BC99int)]
}

pub open spec fn alphabetic_chunk_82() -> Seq<SRange> {
    seq![(0x1BC9Eint, 0x1BC9Eint), (0x1D400int, 0x1D454int), (0x1D456int, 0x1D49Cint), (0x1D49Eint, 0x1D49Fint), (0x1D4A2int, 0x1D4A2int), (0x1D4A5int, 0x1D4A6int), (0x1D4A9int, 0x1D4ACint), (0x1D4AEint, 0x1D4B9int)]
}

pub open spec fn alphabetic_chunk_83() -> Seq<SRange> {
    seq![(0x1D4BBint, 0x1D4BBint), (0x1D4BDint, 0x1D4C3int), (0x1D4C5int, 0x1D505int), (0x1D507int, 0x1D50Aint), (0x1D50Dint, 0x1D514int), (0x1D516int, 0x1D51Cint), (0x1D51Eint, 0x1D539int), (0x1D53Bint, 0x1D53Eint)]
}

pub open spec fn alphabetic_chunk_84() -> Seq<SRange> {
    seq![(0x1D540int, 0x1D544int), (0x1D546int, 0x1D546int), (0x1D54Aint, 0x1D550int), (0x1D552int, 0x1D6A5int), (0x1D6A8int, 0x1D6C0int), (0x1D6C2int, 0x1D6DAint), (0x1D6DCint, 0x1D6FAint), (0x1D6FCint, 0x1D714int)]
}

pub open spec fn alphabetic_chunk_85() -> Seq<SRange> {
    seq![(0x1D716int, 0x1D734int), (0x1D736int, 0x1D74Eint), (0x1D750int, 0x1D76Eint), (0x1D770int, 0x1D788int), (0x1D78Aint, 0x1D7A8int), (0x1D7AAint, 0x1D7C2int), (0x1D7C4int, 0x1D7CBint), (0x1DF00int, 0x1DF1Eint)]
}

pub open spec fn alphabetic_chunk_86() -> Seq<SRange> {
    seq![(0x1DF25int, 0x1DF2Aint), (0x1E000int, 0x1E006int), (0x1E008int, 0x1E018int), (0x1E01Bint, 0x1E021int), (0x1E023int, 0x1E024int), (0x1E026int, 0x1E02Aint), (0x1E030int, 0x1E06Dint), (0x1E08Fint, 0x1E08Fint)]
}

pub open spec fn alphabetic_chunk_87() -> Seq<SRange> {
    seq![(0x1E100int, 0x1E12Cint), (0x1E137int, 0x1E13Dint), (0x1E14Eint, 0x1E14Eint), (0x1E290int, 0x1E2ADint), (0x1E2C0int, 0x1E2EBint), (0x1E4D0int, 0x1E4EBint), (0x1E5D0int, 0x1E5EDint), (0x1E5F0int, 0x1E5F0int)]
}

pub open spec fn alphabetic_chunk_88() -> Seq<SRange> {
    seq![(0x1E7E0int, 0x1E7E6int), (0x1E7E8int, 0x1E7EBint), (0x1E7EDint, 0x1E7EEint), (0x1E7F0int, 0x1E7FEint), (0x1E800int, 0x1E8C4int), (0x1E900int, 0x1E943int), (0x1E947int, 0x1E947int), (0x1E94Bint, 0x1E94Bint)]
}

pub open spec fn alphabetic_chunk_89() -> Seq<SRange> {
    seq![(0x1EE00int, 0x1EE03int), (0x1EE05int, 0x1EE1Fint), (0x1EE21int, 0x1EE22int), (0x1EE24int, 0x1EE24int), (0x1EE27int, 0x1EE27int), (0x1EE29int, 0x1EE32int), (0x1EE34int, 0x1EE37int), (0x1EE39int, 0x1EE39int)]
}

pub open spec fn alphabetic_chunk_90() -> Seq<SRange> {
    seq![(0x1EE3Bint, 0x1EE3Bint), (0x1EE42int, 0x1EE42int), (0x1EE47int, 0x1EE47int), (0x1EE49int, 0x1EE49int), (0x1EE4Bint, 0x1EE4Bint), (0x1EE4Dint, 0x1EE4Fint), (0x1EE51int, 0x1EE52int), (0x1EE54int, 0x1EE54int)]
}

pub open spec fn alphabetic_chunk_91() -> Seq<SRange> {
    seq![(0x1EE57int, 0x1EE57int), (0x1EE59int, 0x1EE59int), (0x1EE5Bint, 0x1EE5Bint), (0x1EE5Dint, 0x1EE5Dint), (0x1EE5Fint, 0x1EE5Fint), (0x1EE61int, 0x1EE62int), (0x1EE64int, 0x1EE64int), (0x1EE67int, 0x1EE6Aint)]
}

pub open spec fn alphabetic_chunk_92() -> Seq<SRange> {
    seq![(0x1EE6Cint, 0x1EE72int), (0x1EE74int, 0x1EE77int), (0x1EE79int, 0x1EE7Cint), (0x1EE7Eint, 0x1EE7Eint), (0x1EE80int, 0x1EE89int), (0x1EE8Bint, 0x1EE9Bint), (0x1EEA1int, 0x1EEA3int), (0x1EEA5int, 0x1EEA9int)]
}

pub open spec fn alphabetic_chunk_93() -> Seq<SRange> {
    seq![(0x1EEABint, 0x1EEBBint), (0x1F130int, 0x1F149int), (0x1F150int, 0x1F169int), (0x1F170int, 0x1F189int), (0x20000int, 0x2A6DFint), (0x2A700int, 0x2B739int), (0x2B740int, 0x2B81Dint), (0x2B820int, 0x2CEA1int)]
}

pub open spec fn alphabetic_chunk_94() -> Seq<SRange> {
    seq![(0x2CEB0int, 0x2EBE0int), (0x2EBF0int, 0x2EE5Dint), (0x2F800int, 0x2FA1Dint), (0x30000int, 0x3134Aint), (0x31350int, 0x323AFint)]
}

pub open spec fn alphabetic_block_0() -> Seq<SRange> {
    alphabetic_chunk_0() + alphabetic_chunk_1() + alphabetic_chunk_2() + alphabetic_chunk_3() + alphabetic_chunk_4() + alphabetic_chunk_5() + alphabetic_chunk_6() + alphabetic_chunk_7() + alphabetic_chunk_8() + alphabetic_chunk_9()
}

pub open spec fn alphabetic_block_1() -> Seq<SRange> {
    alphabetic_chunk_10() + alphabetic_chunk_11() + alphabetic_chunk_12() + alphabetic_chunk_13() + alphabetic_chunk_14() + alphabetic_chunk_15() + alphabetic_chunk_16() + alphabetic_chunk_17() + alphabetic_chunk_18() + alphabetic_chunk_19()
}

pub open spec fn alphabetic_block_2() -> Seq<SRange> {
    alphabetic_chunk_20() + alphabetic_chunk_21() + alphabetic_chunk_22() + alphabetic_chunk_23() + alphabetic_chunk_24() + alphabetic_chunk_25() + alphabetic_chunk_26() + alphabetic_chunk_27() + alphabetic_chunk_28() + alphabetic_chunk_29()
}

pub open spec fn alphabetic_block_3() -> Seq<SRange> {
    alphabetic_chunk_30() + alphabetic_chunk_31() + alphabetic_chunk_32() + alphabetic_chunk_33() + alphabetic_chunk_34() + alphabetic_chunk_35() + alphabetic_chunk_36() + alphabetic_chunk_37() + alphabetic_chunk_38() + alphabetic_chunk_39()
}

pub open spec fn alphabetic_block_4() -> Seq<SRange> {
    alphabetic_chunk_40() + alphabetic_chunk_41() + alphabetic_chunk_42() + alphabetic_chunk_43() + alphabetic_chunk_44() + alphabetic_chunk_45() + alphabetic_chunk_46() + alphabetic_chunk_47() + alphabetic_chunk_48() + alphabetic_chunk_49()
}

pub open spec fn alphabetic_block_5() -> Seq<SRange> {
    alphabetic_chunk_50() + alphabetic_chunk_51() + alphabetic_chunk_52() + alphabetic_chunk_53() + alphabetic_chunk_54() + alphabetic_chunk_55() + alphabetic_chunk_56() + alphabetic_chunk_57() + alphabetic_chunk_58() + alphabetic_chunk_59()
}

pub open spec fn alphabetic_block_6() -> Seq<SRange> {
    alphabetic_chunk_60() + alphabetic_chunk_61() + alphabetic_chunk_62() + alphabetic_chunk_63() + alphabetic_chunk_64() + alphabetic_chunk_65() + alphabetic_chunk_66() + alphabetic_chunk_67() + alphabetic_chunk_68() + alphabetic_chunk_69()
}

pub open spec fn alphabetic_block_7() -> Seq<SRange> {
    alphabetic_chunk_70() + alphabetic_chunk_71() + alphabetic_chunk_72() + alphabetic_chunk_73() + alphabetic_chunk_74() + alphabetic_chunk_75() + alphabetic_chunk_76() + alphabetic_chunk_77() + alphabetic_chunk_78() + alphabetic_chunk_79()
}

pub open spec fn alphabetic_block_8() -> Seq<SRange> {
    alphabetic_chunk_80() + alphabetic_chunk_81() + alphabetic_chunk_82() + alphabetic_chunk_83() + alphabetic_chunk_84() + alphabetic_chunk_85() + alphabetic_chunk_86() + alphabetic_chunk_87() + alphabetic_chunk_88() + alphabetic_chunk_89()
}

pub open spec fn alphabetic_block_9() -> Seq<SRange> {
    alphabetic_chunk_90() + alphabetic_chunk_91() + alphabetic_chunk_92() + alphabetic_chunk_93() + alphabetic_chunk_94()
}

/// The ranges of the property Alphabetic.
pub open spec fn alphabetic_ranges() -> Seq<SRange> {
    alphabetic_block_0() + alphabetic_block_1() + alphabetic_block_2() + alphabetic_block_3() + alphabetic_block_4() + alphabetic_block_5() + alphabetic_block_6() + alphabetic_block_7() + alphabetic_block_8() + alphabetic_block_9()
}

proof fn lemma_alphabetic_block_0()
    ensures
        canonical(alphabetic_block_0()),
        alphabetic_block_0().len() > 0,
        alphabetic_block_0()[0] == alphabetic_chunk_0()[0],
        alphabetic_block_0().last() == alphabetic_chunk_9().last(),
{
    reveal_with_fuel(canonical, 9);
    assert(canonical(alphabetic_chunk_0()));
    assert(canonical(alphabetic_chunk_1()));
    assert(canonical(alphabetic_chunk_2()));
    assert(canonical(alphabetic_chunk_3()));
    assert(canonical(alphabetic_chunk_4()));
    assert(canonical(alphabetic_chunk_5()));
    assert(canonical(alphabetic_chunk_6()));
    assert(canonical(alphabetic_chunk_7()));
    assert(canonical(alphabetic_chunk_8()));
    assert(canonical(alphabetic_chunk_9()));
    lemma_canonical_append(alphabetic_chunk_0(), alphabetic_chunk_1());
    lemma_canonical_append(alphabetic_chunk_0() + alphabetic_chunk_1(), alphabetic_chunk_2());
    lemma_canonical_append(alphabetic_chunk_0() + alphabetic_chunk_1() + alphabetic_chunk_2(), alphabetic_chunk_3());
    lemma_canonical_append(alphabetic_chunk_0() + alphabetic_chunk_1() + alphabetic_chunk_2() + alphabetic_chunk_3(), alphabetic_chunk_4());
    lemma_canonical_append(alphabetic_chunk_0() + alphabetic_chunk_1() + alphabetic_chunk_2() + alphabetic_chunk_3() + alphabetic_chunk_4(), alphabetic_chunk_5());
    lemma_canonical_append(alphabetic_chunk_0() + alphabetic_chunk_1() + alphabetic_chunk_2() + alphabetic_chunk_3() + alphabetic_chunk_4() + alphabetic_chunk_5(), alphabetic_chunk_6());
    lemma_canonical_append(alphabetic_chunk_0() + alphabetic_chunk_1() + alphabetic_chunk_2() + alphabetic_chunk_3() + alphabetic_chunk_4() + alphabetic_chunk_5() + alphabetic_chunk_6(), alphabetic_chunk_7());
    lemma_canonical_append(alphabetic_chunk_0() + alphabetic_chunk_1() + alphabetic_chunk_2() + alphabetic_chunk_3() + alphabetic_chunk_4() + alphabetic_chunk_5() + alphabetic_chunk_6() + alphabetic_chunk_7(), alphabetic_chunk_8());
    lemma_canonical_append(alphabetic_chunk_0() + alphabetic_chunk_1() + alphabetic_chunk_2() + alphabetic_chunk_3() + alphabetic_chunk_4() + alphabetic_chunk_5() + alphabetic_chunk_6() + alphabetic_chunk_7() + alphabetic_chunk_8(), alphabetic_chunk_9());
}

proof fn lemma_alphabetic_block_1()
    ensures
        canonical(alphabetic_block_1()),
        alphabetic_block_1().len() > 0,
        alphabetic_block_1()[0] == alphabetic_chunk_10()[0],
        alphabetic_block_1().last() == alphabetic_chunk_19().last(),
{
    reveal_with_fuel(canonical, 9);
    assert(canonical(alphabetic_chunk_10()));
    assert(canonical(alphabetic_chunk_11()));
    assert(canonical(alphabetic_chunk_12()));
    assert(canonical(alphabetic_chunk_13()));
    assert(canonical(alphabetic_chunk_14()));
    assert(canonical(alphabetic_chunk_15()));
    assert(canonical(alphabetic_chunk_16()));
    assert(canonical(alphabetic_chunk_17()));
    assert(canonical(alphabetic_chunk_18()));
    assert(canonical(alphabetic_chunk_19()));
    lemma_canonical_append(alphabetic_chunk_10(), alphabetic_chunk_11());
    lemma_canonical_append(alphabetic_chunk_10() + alphabetic_chunk_11(), alphabetic_chunk_12());
    lemma_canonical_append(alphabetic_chunk_10() + alphabetic_chunk_11() + alphabetic_chunk_12(), alphabetic_chunk_13());
    lemma_canonical_append(alphabetic_chunk_10() + alphabetic_chunk_11() + alphabetic_chunk_12() + alphabetic_chunk_13(), alphabetic_chunk_14());
    lemma_canonical_append(alphabetic_chunk_10() + alphabetic_chunk_11() + alphabetic_chunk_12() + alphabetic_chunk_13() + alphabetic_chunk_14(), alphabetic_chunk_15());
    lemma_canonical_append(alphabetic_chunk_10() + alphabetic_chunk_11() + alphabetic_chunk_12() + alphabetic_chunk_13() + alphabetic_chunk_14() + alphabetic_chunk_15(), alphabetic_chunk_16());
    lemma_canonical_append(alphabetic_chunk_10() + alphabetic_chunk_11() + alphabetic_chunk_12() + alphabetic_chunk_13() + alphabetic_chunk_14() + alphabetic_chunk_15() + alphabetic_chunk_16(), alphabetic_chunk_17());
    lemma_canonical_append(alphabetic_chunk_10() + alphabetic_chunk_11() + alphabetic_chunk_12() + alphabetic_chunk_13() + alphabetic_chunk_14() + alphabetic_chunk_15() + alphabetic_chunk_16() + alphabetic_chunk_17(), alphabetic_chunk_18());
    lemma_canonical_append(alphabetic_chunk_10() + alphabetic_chunk_11() + alphabetic_chunk_12() + alphabetic_chunk_13() + alphabetic_chunk_14() + alphabetic_chunk_15() + alphabetic_chunk_16() + alphabetic_chunk_17() + alphabetic_chunk_18(), alphabetic_chunk_19());
}

proof fn lemma_alphabetic_block_2()
    ensures
        canonical(alphabetic_block_2()),
        alphabetic_block_2().len() > 0,
        alphabetic_block_2()[0] == alphabetic_chunk_20()[0],
        alphabetic_block_2().last() == alphabetic_chunk_29().last(),
{
    reveal_with_fuel(canonical, 9);
    assert(canonical(alphabetic_chunk_20()));
    assert(canonical(alphabetic_chunk_21()));
    assert(canonical(alphabetic_chunk_22()));
    assert(canonical(alphabetic_chunk_23()));
    assert(canonical(alphabetic_chunk_24()));
    assert(canonical(alphabetic_chunk_25()));
    assert(canonical(alphabetic_chunk_26()));
    assert(canonical(alphabetic_chunk_27()));
    assert(canonical(alphabetic_chunk_28()));
    assert(canonical(alphabetic_chunk_29()));
    lemma_canonical_append(alphabetic_chunk_20(), alphabetic_chunk_21());
    lemma_canonical_append(alphabetic_chunk_20() + alphabetic_chunk_21(), alphabetic_chunk_22());
    lemma_canonical_append(alphabetic_chunk_20() + alphabetic_chunk_21() + alphabetic_chunk_22(), alphabetic_chunk_23());
    lemma_canonical_append(alphabetic_chunk_20() + alphabetic_chunk_21() + alphabetic_chunk_22() + alphabetic_chunk_23(), alphabetic_chunk_24());
    lemma_canonical_append(alphabetic_chunk_20() + alphabetic_chunk_21() + alphabetic_chunk_22() + alphabetic_chunk_23() + alphabetic_chunk_24(), alphabetic_chunk_25());
    lemma_canonical_append(alphabetic_chunk_20() + alphabetic_chunk_21() + alphabetic_chunk_22() + alphabetic_chunk_23() + alphabetic_chunk_24() + alphabetic_chunk_25(), alphabetic_chunk_26());
    lemma_canonical_append(alphabetic_chunk_20() + alphabetic_chunk_21() + alphabetic_chunk_22() + alphabetic_chunk_23() + alphabetic_chunk_24() + alphabetic_chunk_25() + alphabetic_chunk_26(), alphabetic_chunk_27());
    lemma_canonical_append(alphabetic_chunk_20() + alphabetic_chunk_21() + alphabetic_chunk_22() + alphabetic_chunk_23() + alphabetic_chunk_24() + alphabetic_chunk_25() + alphabetic_chunk_26() + alphabetic_chunk_27(), alphabetic_chunk_28());
    lemma_canonical_append(alphabetic_chunk_20() + alphabetic_chunk_21() + alphabetic_chunk_22() + alphabetic_chunk_23() + alphabetic_chunk_24() + alphabetic_chunk_25() + alphabetic_chunk_26() + alphabetic_chunk_27() + alphabetic_chunk_28(), alphabetic_chunk_29());
}

proof fn lemma_alphabetic_block_3()
    ensures
        canonical(alphabetic_block_3()),
        alphabetic_block_3().len() > 0,
        alphabetic_block_3()[0] == alphabetic_chunk_30()[0],
        alphabetic_block_3().last() == alphabetic_chunk_39().last(),
{
    reveal_with_fuel(canonical, 9);
    assert(canonical(alphabetic_chunk_30()));
    assert(canonical(alphabetic_chunk_31()));
    assert(canonical(alphabetic_chunk_32()));
    assert(canonical(alphabetic_chunk_33()));
    assert(canonical(alphabetic_chunk_34()));
    assert(canonical(alphabetic_chunk_35()));
    assert(canonical(alphabetic_chunk_36()));
    assert(canonical(alphabetic_chunk_37()));
    assert(canonical(alphabetic_chunk_38()));
    assert(canonical(alphabetic_chunk_39()));
    lemma_canonical_append(alphabetic_chunk_30(), alphabetic_chunk_31());
    lemma_canonical_append(alphabetic_chunk_30() + alphabetic_chunk_31(), alphabetic_chunk_32());
    lemma_canonical_append(alphabetic_chunk_30() + alphabetic_chunk_31() + alphabetic_chunk_32(), alphabetic_chunk_33());
    lemma_canonical_append(alphabetic_chunk_30() + alphabetic_chunk_31() + alphabetic_chunk_32() + alphabetic_chunk_33(), alphabetic_chunk_34());
    lemma_canonical_append(alphabetic_chunk_30() + alphabetic_chunk_31() + alphabetic_chunk_32() + alphabetic_chunk_33() + alphabetic_chunk_34(), alphabetic_chunk_35());
    lemma_canonical_append(alphabetic_chunk_30() + alphabetic_chunk_31() + alphabetic_chunk_32() + alphabetic_chunk_33() + alphabetic_chunk_34() + alphabetic_chunk_35(), alphabetic_chunk_36());
    lemma_canonical_append(alphabetic_chunk_30() + alphabetic_chunk_31() + alphabetic_chunk_32() + alphabetic_chunk_33() + alphabetic_chunk_34() + alphabetic_chunk_35() + alphabetic_chunk_36(), alphabetic_chunk_37());
    lemma_canonical_append(alphabetic_chunk_30() + alphabetic_chunk_31() + alphabetic_chunk_32() + alphabetic_chunk_33() + alphabetic_chunk_34() + alphabetic_chunk_35() + alphabetic_chunk_36() + alphabetic_chunk_37(), alphabetic_chunk_38());
    lemma_canonical_append(alphabetic_chunk_30() + alphabetic_chunk_31() + alphabetic_chunk_32() + alphabetic_chunk_33() + alphabetic_chunk_34() + alphabetic_chunk_35() + alphabetic_chunk_36() + alphabetic_chunk_37() + alphabetic_chunk_38(), alphabetic_chunk_39());
}

proof fn lemma_alphabetic_block_4()
    ensures
        canonical(alphabetic_block_4()),
        alphabetic_block_4().len() > 0,
        alphabetic_block_4()[0] == alphabetic_chunk_40()[0],
        alphabetic_block_4().last() == alphabetic_chunk_49().last(),
{
    reveal_with_fuel(canonical, 9);
    assert(canonical(alphabetic_chunk_40()));
    assert(canonical(alphabetic_chunk_41()));
    assert(canonical(alphabetic_chunk_42()));
    assert(canonical(alphabetic_chunk_43()));
    assert(canonical(alphabetic_chunk_44()));
    assert(canonical(alphabetic_chunk_45()));
    assert(canonical(alphabetic_chunk_46()));
    assert(canonical(alphabetic_chunk_47()));
    assert(canonical(alphabetic_chunk_48()));
    assert(canonical(alphabetic_chunk_49()));
    lemma_canonical_append(alphabetic_chunk_40(), alphabetic_chunk_41());
    lemma_canonical_append(alphabetic_chunk_40() + alphabetic_chunk_41(), alphabetic_chunk_42());
    lemma_canonical_append(alphabetic_chunk_40() + alphabetic_chunk_41() + alphabetic_chunk_42(), alphabetic_chunk_43());
    lemma_canonical_append(alphabetic_chunk_40() + alphabetic_chunk_41() + alphabetic_chunk_42() + alphabetic_chunk_43(), alphabetic_chunk_44());
    lemma_canonical_append(alphabetic_chunk_40() + alphabetic_chunk_41() + alphabetic_chunk_42() + alphabetic_chunk_43() + alphabetic_chunk_44(), alphabetic_chunk_45());
    lemma_canonical_append(alphabetic_chunk_40() + alphabetic_chunk_41() + alphabetic_chunk_42() + alphabetic_chunk_43() + alphabetic_chunk_44() + alphabetic_chunk_45(), alphabetic_chunk_46());
    lemma_canonical_append(alphabetic_chunk_40() + alphabetic_chunk_41() + alphabetic_chunk_42() + alphabetic_chunk_43() + alphabetic_chunk_44() + alphabetic_chunk_45() + alphabetic_chunk_46(), alphabetic_chunk_47());
    lemma_canonical_append(alphabetic_chunk_40() + alphabetic_chunk_41() + alphabetic_chunk_42() + alphabetic_chunk_43() + alphabetic_chunk_44() + alphabetic_chunk_45() + alphabetic_chunk_46() + alphabetic_chunk_47(), alphabetic_chunk_48());
    lemma_canonical_append(alphabetic_chunk_40() + alphabetic_chunk_41() + alphabetic_chunk_42() + alphabetic_chunk_43() + alphabetic_chunk_44() + alphabetic_chunk_45() + alphabetic_chunk_46() + alphabetic_chunk_47() + alphabetic_chunk_48(), alphabetic_chunk_49());
}

proof fn lemma_alphabetic_block_5()
    ensures
        canonical(alphabetic_block_5()),
        alphabetic_block_5().len() > 0,
        alphabetic_block_5()[0] == alphabetic_chunk_50()[0],
        alphabetic_block_5().last() == alphabetic_chunk_59().last(),
{
    reveal_with_fuel(canonical, 9);
    assert(canonical(alphabetic_chunk_50()));
    assert(canonical(alphabetic_chunk_51()));
    assert(canonical(alphabetic_chunk_52()));
    assert(canonical(alphabetic_chunk_53()));
    assert(canonical(alphabetic_chunk_54()));
    assert(canonical(alphabetic_chunk_55()));
    assert(canonical(alphabetic_chunk_56()));
    assert(canonical(alphabetic_chunk_57()));
    assert(canonical(alphabetic_chunk_58()));
    assert(canonical(alphabetic_chunk_59()));
    lemma_canonical_append(alphabetic_chunk_50(), alphabetic_chunk_51());
    lemma_canonical_append(alphabetic_chunk_50() + alphabetic_chunk_51(), alphabetic_chunk_52());
    lemma_canonical_append(alphabetic_chunk_50() + alphabetic_chunk_51() + alphabetic_chunk_52(), alphabetic_chunk_53());
    lemma_canonical_append(alphabetic_chunk_50() + alphabetic_chunk_51() + alphabetic_chunk_52() + alphabetic_chunk_53(), alphabetic_chunk_54());
    lemma_canonical_append(alphabetic_chunk_50() + alphabetic_chunk_51() + alphabetic_chunk_52() + alphabetic_chunk_53() + alphabetic_chunk_54(), alphabetic_chunk_55());
    lemma_canonical_append(alphabetic_chunk_50() + alphabetic_chunk_51() + alphabetic_chunk_52() + alphabetic_chunk_53() + alphabetic_chunk_54() + alphabetic_chunk_55(), alphabetic_chunk_56());
    lemma_canonical_append(alphabetic_chunk_50() + alphabetic_chunk_51() + alphabetic_chunk_52() + alphabetic_chunk_53() + alphabetic_chunk_54() + alphabetic_chunk_55() + alphabetic_chunk_56(), alphabetic_chunk_57());
    lemma_canonical_append(alphabetic_chunk_50() + alphabetic_chunk_51() + alphabetic_chunk_52() + alphabetic_chunk_53() + alphabetic_chunk_54() + alphabetic_chunk_55() + alphabetic_chunk_56() + alphabetic_chunk_57(), alphabetic_chunk_58());
    lemma_canonical_append(alphabetic_chunk_50() + alphabetic_chunk_51() + alphabetic_chunk_52() + alphabetic_chunk_53() + alphabetic_chunk_54() + alphabetic_chunk_55() + alphabetic_chunk_56() + alphabetic_chunk_57() + alphabetic_chunk_58(), alphabetic_chunk_59());
}

proof fn lemma_alphabetic_block_6()
    ensures
        canonical(alphabetic_block_6()),
        alphabetic_block_6().len() > 0,
        alphabetic_block_6()[0] == alphabetic_chunk_60()[0],
        alphabetic_block_6().last() == alphabetic_chunk_69().last(),
{
    reveal_with_fuel(canonical, 9);
    assert(canonical(alphabetic_chunk_60()));
    assert(canonical(alphabetic_chunk_61()));
    assert(canonical(alphabetic_chunk_62()));
    assert(canonical(alphabetic_chunk_63()));
    assert(canonical(alphabetic_chunk_64()));
    assert(canonical(alphabetic_chunk_65()));
    assert(canonical(alphabetic_chunk_66()));
    assert(canonical(alphabetic_chunk_67()));
    assert(canonical(alphabetic_chunk_68()));
    assert(canonical(alphabetic_chunk_69()));
    lemma_canonical_append(alphabetic_chunk_60(), alphabetic_chunk_61());
    lemma_canonical_append(alphabetic_chunk_60() + alphabetic_chunk_61(), alphabetic_chunk_62());
    lemma_canonical_append(alphabetic_chunk_60() + alphabetic_chunk_61() + alphabetic_chunk_62(), alphabetic_chunk_63());
    lemma_canonical_append(alphabetic_chunk_60() + alphabetic_chunk_61() + alphabetic_chunk_62() + alphabetic_chunk_63(), alphabetic_chunk_64());
    lemma_canonical_append(alphabetic_chunk_60() + alphabetic_chunk_61() + alphabetic_chunk_62() + alphabetic_chunk_63() + alphabetic_chunk_64(), alphabetic_chunk_65());
    lemma_canonical_append(alphabetic_chunk_60() + alphabetic_chunk_61() + alphabetic_chunk_62() + alphabetic_chunk_63() + alphabetic_chunk_64() + alphabetic_chunk_65(), alphabetic_chunk_66());
    lemma_canonical_append(alphabetic_chunk_60() + alphabetic_chunk_61() + alphabetic_chunk_62() + alphabetic_chunk_63() + alphabetic_chunk_64() + alphabetic_chunk_65() + alphabetic_chunk_66(), alphabetic_chunk_67());
    lemma_canonical_append(alphabetic_chunk_60() + alphabetic_chunk_61() + alphabetic_chunk_62() + alphabetic_chunk_63() + alphabetic_chunk_64() + alphabetic_chunk_65() + alphabetic_chunk_66() + alphabetic_chunk_67(), alphabetic_chunk_68());
    lemma_canonical_append(alphabetic_chunk_60() + alphabetic_chunk_61() + alphabetic_chunk_62() + alphabetic_chunk_63() + alphabetic_chunk_64() + alphabetic_chunk_65() + alphabetic_chunk_66() + alphabetic_chunk_67() + alphabetic_chunk_68(), alphabetic_chunk_69());
}

proof fn lemma_alphabetic_block_7()
    ensures
        canonical(alphabetic_block_7()),
        alphabetic_block_7().len() > 0,
        alphabetic_block_7()[0] == alphabetic_chunk_70()[0],
        alphabetic_block_7().last() == alphabetic_chunk_79().last(),
{
    reveal_with_fuel(canonical, 9);
    assert(canonical(alphabetic_chunk_70()));
    assert(canonical(alphabetic_chunk_71()));
    assert(canonical(alphabetic_chunk_72()));
    assert(canonical(alphabetic_chunk_73()));
    assert(canonical(alphabetic_chunk_74()));
    assert(canonical(alphabetic_chunk_75()));
    assert(canonical(alphabetic_chunk_76()));
    assert(canonical(alphabetic_chunk_77()));
    assert(canonical(alphabetic_chunk_78()));
    assert(canonical(alphabetic_chunk_79()));
    lemma_canonical_append(alphabetic_chunk_70(), alphabetic_chunk_71());
    lemma_canonical_append(alphabetic_chunk_70() + alphabetic_chunk_71(), alphabetic_chunk_72());
    lemma_canonical_append(alphabetic_chunk_70() + alphabetic_chunk_71() + alphabetic_chunk_72(), alphabetic_chunk_73());
    lemma_canonical_append(alphabetic_chunk_70() + alphabetic_chunk_71() + alphabetic_chunk_72() + alphabetic_chunk_73(), alphabetic_chunk_74());
    lemma_canonical_append(alphabetic_chunk_70() + alphabetic_chunk_71() + alphabetic_chunk_72() + alphabetic_chunk_73() + alphabetic_chunk_74(), alphabetic_chunk_75());
    lemma_canonical_append(alphabetic_chunk_70() + alphabetic_chunk_71() + alphabetic_chunk_72() + alphabetic_chunk_73() + alphabetic_chunk_74() + alphabetic_chunk_75(), alphabetic_chunk_76());
    lemma_canonical_append(alphabetic_chunk_70() + alphabetic_chunk_71() + alphabetic_chunk_72() + alphabetic_chunk_73() + alphabetic_chunk_74() + alphabetic_chunk_75() + alphabetic_chunk_76(), alphabetic_chunk_77());
    lemma_canonical_append(alphabetic_chunk_70() + alphabetic_chunk_71() + alphabetic_chunk_72() + alphabetic_chunk_73() + alphabetic_chunk_74() + alphabetic_chunk_75() + alphabetic_chunk_76() + alphabetic_chunk_77(), alphabetic_chunk_78());
    lemma_canonical_append(alphabetic_chunk_70() + alphabetic_chunk_71() + alphabetic_chunk_72() + alphabetic_chunk_73() + alphabetic_chunk_74() + alphabetic_chunk_75() + alphabetic_chunk_76() + alphabetic_chunk_77() + alphabetic_chunk_78(), alphabetic_chunk_79());
}

proof fn lemma_alphabetic_block_8()
    ensures
        canonical(alphabetic_block_8()),
        alphabetic_block_8().len() > 0,
        alphabetic_block_8()[0] == alphabetic_chunk_80()[0],
        alphabetic_block_8().last() == alphabetic_chunk_89().last(),
{
    reveal_with_fuel(canonical, 9);
    assert(canonical(alphabetic_chunk_80()));
    assert(canonical(alphabetic_chunk_81()));
    assert(canonical(alphabetic_chunk_82()));
    assert(canonical(alphabetic_chunk_83()));
    assert(canonical(alphabetic_chunk_84()));
    assert(canonical(alphabetic_chunk_85()));
    assert(canonical(alphabetic_chunk_86()));
    assert(canonical(alphabetic_chunk_87()));
    assert(canonical(alphabetic_chunk_88()));
    assert(canonical(alphabetic_chunk_89()));
    lemma_canonical_append(alphabetic_chunk_80(), alphabetic_chunk_81());
    lemma_canonical_append(alphabetic_chunk_80() + alphabetic_chunk_81(), alphabetic_chunk_82());
    lemma_canonical_append(alphabetic_chunk_80() + alphabetic_chunk_81() + alphabetic_chunk_82(), alphabetic_chunk_83());
    lemma_canonical_append(alphabetic_chunk_80() + alphabetic_chunk_81() + alphabetic_chunk_82() + alphabetic_chunk_83(), alphabetic_chunk_84());
    lemma_canonical_append(alphabetic_chunk_80() + alphabetic_chunk_81() + alphabetic_chunk_82() + alphabetic_chunk_83() + alphabetic_chunk_84(), alphabetic_chunk_85());
    lemma_canonical_append(alphabetic_chunk_80() + alphabetic_chunk_81() + alphabetic_chunk_82() + alphabetic_chunk_83() + alphabetic_chunk_84() + alphabetic_chunk_85(), alphabetic_chunk_86());
    lemma_canonical_append(alphabetic_chunk_80() + alphabetic_chunk_81() + alphabetic_chunk_82() + alphabetic_chunk_83() + alphabetic_chunk_84() + alphabetic_chunk_85() + alphabetic_chunk_86(), alphabetic_chunk_87());
    lemma_canonical_append(alphabetic_chunk_80() + alphabetic_chunk_81() + alphabetic_chunk_82() + alphabetic_chunk_83() + alphabetic_chunk_84() + alphabetic_chunk_85() + alphabetic_chunk_86() + alphabetic_chunk_87(), alphabetic_chunk_88());
    lemma_canonical_append(alphabetic_chunk_80() + alphabetic_chunk_81() + alphabetic_chunk_82() + alphabetic_chunk_83() + alphabetic_chunk_84() + alphabetic_chunk_85() + alphabetic_chunk_86() + alphabetic_chunk_87() + alphabetic_chunk_88(), alphabetic_chunk_89());
}

proof fn lemma_alphabetic_block_9()
    ensures
        canonical(alphabetic_block_9()),
        alphabetic_block_9().len() > 0,
        alphabetic_block_9()[0] == alphabetic_chunk_90()[0],
        alphabetic_block_9().last() == alphabetic_chunk_94().last(),
{
    reveal_with_fuel(canonical, 9);
    assert(canonical(alphabetic_chunk_90()));
    assert(canonical(alphabetic_chunk_91()));
    assert(canonical(alphabetic_chunk_92()));
    assert(canonical(alphabetic_chunk_93()));
    assert(canonical(alphabetic_chunk_94()));
    lemma_canonical_append(alphabetic_chunk_90(), alphabetic_chunk_91());
    lemma_canonical_append(alphabetic_chunk_90() + alphabetic_chunk_91(), alphabetic_chunk_92());
    lemma_canonical_append(alphabetic_chunk_90() + alphabetic_chunk_91() + alphabetic_chunk_92(), alphabetic_chunk_93());
    lemma_canonical_append(alphabetic_chunk_90() + alphabetic_chunk_91() + alphabetic_chunk_92() + alphabetic_chunk_93(), alphabetic_chunk_94());
}

#[verifier::rlimit(100)]
pub proof fn lemma_alphabetic_canonical()
    ensures
        canonical(alphabetic_ranges()),
{
    lemma_alphabetic_block_0();
    lemma_alphabetic_block_1();
    lemma_alphabetic_block_2();
    lemma_alphabetic_block_3();
    lemma_alphabetic_block_4();
    lemma_alphabetic_block_5();
    lemma_alphabetic_block_6();
    lemma_alphabetic_block_7();
    lemma_alphabetic_block_8();
    lemma_alphabetic_block_9();
    lemma_canonical_append(alphabetic_block_0(), alphabetic_block_1());
    lemma_canonical_append(alphabetic_block_0() + alphabetic_block_1(), alphabetic_block_2());
    lemma_canonical_append(alphabetic_block_0() + alphabetic_block_1() + alphabetic_block_2(), alphabetic_block_3());
    lemma_canonical_append(alphabetic_block_0() + alphabetic_block_1() + alphabetic_block_2() + alphabetic_block_3(), alphabetic_block_4());
    lemma_canonical_append(alphabetic_block_0() + alphabetic_block_1() + alphabetic_block_2() + alphabetic_block_3() + alphabetic_block_4(), alphabetic_block_5());
    lemma_canonical_append(alphabetic_block_0() + alphabetic_block_1() + alphabetic_block_2() + alphabetic_block_3() + alphabetic_block_4() + alphabetic_block_5(), alphabetic_block_6());
    lemma_canonical_append(alphabetic_block_0() + alphabetic_block_1() + alphabetic_block_2() + alphabetic_block_3() + alphabetic_block_4() + alphabetic_block_5() + alphabetic_block_6(), alphabetic_block_7());
    lemma_canonical_append(alphabetic_block_0() + alphabetic_block_1() + alphabetic_block_2() + alphabetic_block_3() + alphabetic_block_4() + alphabetic_block_5() + alphabetic_block_6() + alphabetic_block_7(), alphabetic_block_8());
    lemma_canonical_append(alphabetic_block_0() + alphabetic_block_1() + alphabetic_block_2() + alphabetic_block_3() + alphabetic_block_4() + alphabetic_block_5() + alphabetic_block_6() + alphabetic_block_7() + alphabetic_block_8(), alphabetic_block_9());
}

fn push_alphabetic_chunk_0(v: &mut Vec<ClassUnicodeRange>)
    ensures
        rview(final(v)@) == rview(old(v)@) + alphabetic_chunk_0(),
{
    let ghost o = rview(v@);
    push_range(v, '\u{41}', '\u{5A}');
    push_range(v, '\u{61}', '\u{7A}');
    push_range(v, '\u{AA}', '\u{AA}');
    push_range(v, '\u{B5}', '\u{B5}');
    push_range(v, '\u{BA}', '\u{BA}');
    push_range(v, '\u{C0}', '\u{D6}');
    push_range(v, '\u{D8}', '\u{F6}');
    push_range(v, '\u{F8}', '\u{2C1}');
    assert(rview(v@) =~= o + alphabetic_chunk_0());
}

fn push_alphabetic_chunk_1(v: &mut Vec<ClassUnicodeRange>)
    ensures
        rview(final(v)@) == rview(old(v)@) + alphabetic_chunk_1(),
{
    let ghost o = rview(v@);
    push_range(v, '\u{2C6}', '\u{2D1}');
    push_range(v, '\u{2E0}', '\u{2E4}');
    push_range(v, '\u{2EC}', '\u{2EC}');
    push_range(v, '\u{2EE}', '\u{2EE}');
    push_range(v, '\u{345}', '\u{345}');
    push_range(v, '\u{363}', '\u{374}');
    push_range(v, '\u{376}', '\u{377}');
    push_range(v, '\u{37A}', '\u{37D}');
    assert(rview(v@) =~= o + alphabetic_chunk_1());
}

fn push_alphabetic_chunk_2(v: &mut Vec<ClassUnicodeRange>)
    ensures
        rview(final(v)@) == rview(old(v)@) + alphabetic_chunk_2(),
{
    let ghost o = rview(v@);
    push_range(v, '\u{37F}', '\u{37F}');
    push_range(v, '\u{386}', '\u{386}');
    push_range(v, '\u{388}', '\u{38A}');
    push_range(v, '\u{38C}', '\u{38C}');
    push_range(v, '\u{38E}', '\u{3A1}');
    push_range(v, '\u{3A3}', '\u{3F5}');
    push_range(v, '\u{3F7}', '\u{481}');
    push_range(v, '\u{48A}', '\u{52F}');
    assert(rview(v@) =~= o + alphabetic_chunk_2());
}

fn push_alphabetic_chunk_3(v: &mut Vec<ClassUnicodeRange>)
    ensures
        rview(final(v)@) == rview(old(v)@) + alphabetic_chunk_3(),
{
    let ghost o = rview(v@);
    push_range(v, '\u{531}', '\u{556}');
    push_range(v, '\u{559}', '\u{559}');
    push_range(v, '\u{560}', '\u{588}');
    push_range(v, '\u{5B0}', '\u{5BD}');
    push_range(v, '\u{5BF}', '\u{5BF}');
    push_range(v, '\u{5C1}', '\u{5C2}');
    push_range(v, '\u{5C4}', '\u{5C5}');
    push_range(v, '\u{5C7}', '\u{5C7}');
    assert(rview(v@) =~= o + alphabetic_chunk_3());
}

fn push_alphabetic_chunk_4(v: &mut Vec<ClassUnicodeRange>)
    ensures
        rview(final(v)@) == rview(old(v)@) + alphabetic_chunk_4(),
{
    let ghost o = rview(v@);
    push_range(v, '\u{5D0}', '\u{5EA}');
    push_range(v, '\u{5EF}', '\u{5F2}');
    push_range(v, '\u{610}', '\u{61A}');
    push_range(v, '\u{620}', '\u{657}');
    push_range(v, '\u{659}', '\u{65F}');
    push_range(v, '\u{66E}', '\u{6D3}');
    push_range(v, '\u{6D5}', '\u{6DC}');
    push_range(v, '\u{6E1}', '\u{6E8}');
    assert(rview(v@) =~= o + alphabetic_chunk_4());
}

fn push_alphabetic_chunk_5(v: &mut Vec<ClassUnicodeRange>)
    ensures
        rview(final(v)@) == rview(old(v)@) + alphabetic_chunk_5(),
{
    let ghost o = rview(v@);
    push_range(v, '\u{6ED}', '\u{6EF}');
    push_range(v, '\u{6FA}', '\u{6FC}');
    push_range(v, '\u{6FF}', '\u{6FF}');
    push_range(v, '\u{710}', '\u{73F}');
    push_range(v, '\u{74D}', '\u{7B1}');
    push_range(v, '\u{7CA}', '\u{7EA}');
    push_range(v, '\u{7F4}', '\u{7F5}');
    push_range(v, '\u{7FA}', '\u{7FA}');
    assert(rview(v@) =~= o + alphabetic_chunk_5());
}

fn push_alphabetic_chunk_6(v: &mut Vec<ClassUnicodeRange>)
    ensures
        rview(final(v)@) == rview(old(v)@) + alphabetic_chunk_6(),
{
    let ghost o = rview(v@);
    push_range(v, '\u{800}', '\u{817}');
    push_range(v, '\u{81A}', '\u{82C}');
    push_range(v, '\u{840}', '\u{858}');
    push_range(v, '\u{860}', '\u{86A}');
    push_range(v, '\u{870}', '\u{887}');
    push_range(v, '\u{889}', '\u{88E}');
    push_range(v, '\u{897}', '\u{897}');
    push_range(v, '\u{8A0}', '\u{8C9}');
    assert(rview(v@) =~= o + alphabetic_chunk_6());
}

fn push_alphabetic_chunk_7(v: &mut Vec<ClassUnicodeRange>)
    ensures
        rview(final(v)@) == rview(old(v)@) + alphabetic_chunk_7(),
{
    let ghost o = rview(v@);
    push_range(v, '\u{8D4}', '\u{8DF}');
    push_range(v, '\u{8E3}', '\u{8E9}');
    push_range(v, '\u{8F0}', '\u{93B}');
    push_range(v, '\u{93D}', '\u{94C}');
    push_range(v, '\u{94E}', '\u{950}');
    push_range(v, '\u{955}', '\u{963}');
    push_range(v, '\u{971}', '\u{983}');
    push_range(v, '\u{985}', '\u{98C}');
    assert(rview(v@) =~= o + alphabetic_chunk_7());
}

fn push_alphabetic_chunk_8(v: &mut Vec<ClassUnicodeRange>)
    ensures
        rview(final(v)@) == rview(old(v)@) + alphabetic_chunk_8(),
{
    let ghost o = rview(v@);
    push_range(v, '\u{98F}', '\u{990}');
    push_range(v, '\u{993}', '\u{9A8}');
    push_range(v, '\u{9AA}', '\u{9B0}');
    push_range(v, '\u{9B2}', '\u{9B2}');
    push_range(v, '\u{9B6}', '\u{9B9}');
    push_range(v, '\u{9BD}', '\u{9C4}');
    push_range(v, '\u{9C7}', '\u{9C8}');
    push_range(v, '\u{9CB}', '\u{9CC}');
    assert(rview(v@) =~= o + alphabetic_chunk_8());
}

fn push_alphabetic_chunk_9(v: &mut Vec<ClassUnicodeRange>)
    ensures
        rview(final(v)@) == rview(old(v)@) + alphabetic_chunk_9(),
{
    let ghost o = rview(v@);
    push_range(v, '\u{9CE}', '\u{9CE}');
    push_range(v, '\u{9D7}', '\u{9D7}');
    push_range(v, '\u{9DC}', '\u{9DD}');
    push_range(v, '\u{9DF}', '\u{9E3}');
    push_range(v, '\u{9F0}', '\u{9F1}');
    push_range(v, '\u{9FC}', '\u{9FC}');
    push_range(v, '\u{A01}', '\u{A03}');
    push_range(v, '\u{A05}', '\u{A0A}');
    assert(rview(v@) =~= o + alphabetic_chunk_9());
}

fn push_alphabetic_chunk_10(v: &mut Vec<ClassUnicodeRange>)
    ensures
        rview(final(v)@) == rview(old(v)@) + alphabetic_chunk_10(),
{
    let ghost o = rview(v@);
    push_range(v, '\u{A0F}', '\u{A10}');
    push_range(v, '\u{A13}', '\u{A28}');
    push_range(v, '\u{A2A}', '\u{A30}');
    push_range(v, '\u{A32}', '\u{A33}');
    push_range(v, '\u{A35}', '\u{A36}');
    push_range(v, '\u{A38}', '\u{A39}');
    push_range(v, '\u{A3E}', '\u{A42}');
    push_range(v, '\u{A47}', '\u{A48}');
    assert(rview(v@) =~= o + alphabetic_chunk_10());
}

fn push_alphabetic_chunk_11(v: &mut Vec<ClassUnicodeRange>)
    ensures
        rview(final(v)@) == rview(old(v)@) + alphabetic_chunk_11(),
{
    let ghost o = rview(v@);
    push_range(v, '\u{A4B}', '\u{A4C}');
    push_range(v, '\u{A51}', '\u{A51}');
    push_range(v, '\u{A59}', '\u{A5C}');
    push_range(v, '\u{A5E}', '\u{A5E}');
    push_range(v, '\u{A70}', '\u{A75}');
    push_range(v, '\u{A81}', '\u{A83}');
    push_range(v, '\u{A85}', '\u{A8D}');
    push_range(v, '\u{A8F}', '\u{A91}');
    assert(rview(v@) =~= o + alphabetic_chunk_11());
}

fn push_alphabetic_chunk_12(v: &mut Vec<ClassUnicodeRange>)
    ensures
        rview(final(v)@) == rview(old(v)@) + alphabetic_chunk_12(),
{
    let ghost o = rview(v@);
    push_range(v, '\u{A93}', '\u{AA8}');
    push_range(v, '\u{AAA}', '\u{AB0}');
    push_range(v, '\u{AB2}', '\u{AB3}');
    push_range(v, '\u{AB5}', '\u{AB9}');
    push_range(v, '\u{ABD}', '\u{AC5}');
    push_range(v, '\u{AC7}', '\u{AC9}');
    push_range(v, '\u{ACB}', '\u{ACC}');
    push_range(v, '\u{AD0}', '\u{AD0}');
    assert(rview(v@) =~= o + alphabetic_chunk_12());
}

fn push_alphabetic_chunk_13(v: &mut Vec<ClassUnicodeRange>)
    ensures
        rview(final(v)@) == rview(old(v)@) + alphabetic_chunk_13(),
{
    let ghost o = rview(v@);
    push_range(v, '\u{AE0}', '\u{AE3}');
    push_range(v, '\u{AF9}', '\u{AFC}');
    push_range(v, '\u{B01}', '\u{B03}');
    push_range(v, '\u{B05}', '\u{B0C}');
    push_range(v, '\u{B0F}', '\u{B10}');
    push_range(v, '\u{B13}', '\u{B28}');
    push_range(v, '\u{B2A}', '\u{B30}');
    push_range(v, '\u{B32}', '\u{B33}');
    assert(rview(v@) =~= o + alphabetic_chunk_13());
}

fn push_alphabetic_chunk_14(v: &mut Vec<ClassUnicodeRange>)
    ensures
        rview(final(v)@) == rview(old(v)@) + alphabetic_chunk_14(),
{
    let ghost o = rview(v@);
    push_range(v, '\u{B35}', '\u{B39}');
    push_range(v, '\u{B3D}', '\u{B44}');
    push_range(v, '\u{B47}', '\u{B48}');
    push_range(v, '\u{B4B}', '\u{B4C}');
    push_range(v, '\u{B56}', '\u{B57}');
    push_range(v, '\u{B5C}', '\u{B5D}');
    push_range(v, '\u{B5F}', '\u{B63}');
    push_range(v, '\u{B71}', '\u{B71}');
    assert(rview(v@) =~= o + alphabetic_chunk_14());
}

fn push_alphabetic_chunk_15(v: &mut Vec<ClassUnicodeRange>)
    ensures
        rview(final(v)@) == rview(old(v)@) + alphabetic_chunk_15(),
{
    let ghost o = rview(v@);
    push_range(v, '\u{B82}', '\u{B83}');
    push_range(v, '\u{B85}', '\u{B8A}');
    push_range(v, '\u{B8E}', '\u{B90}');
    push_range(v, '\u{B92}', '\u{B95}');
    push_range(v, '\u{B99}', '\u{B9A}');
    push_range(v, '\u{B9C}', '\u{B9C}');
    push_range(v, '\u{B9E}', '\u{B9F}');
    push_range(v, '\u{BA3}', '\u{BA4}');
    assert(rview(v@) =~= o + alphabetic_chunk_15());
}

fn push_alphabetic_chunk_16(v: &mut Vec<ClassUnicodeRange>)
    ensures
        rview(final(v)@) == rview(old(v)@) + alphabetic_chunk_16(),
{
    let ghost o = rview(v@);
    push_range(v, '\u{BA8}', '\u{BAA}');
    push_range(v, '\u{BAE}', '\u{BB9}');
    push_range(v, '\u{BBE}', '\u{BC2}');
    push_range(v, '\u{BC6}', '\u{BC8}');
    push_range(v, '\u{BCA}', '\u{BCC}');
    push_range(v, '\u{BD0}', '\u{BD0}');
    push_range(v, '\u{BD7}', '\u{BD7}');
    push_range(v, '\u{C00}', '\u{C0C}');
    assert(rview(v@) =~= o + alphabetic_chunk_16());
}

fn push_alphabetic_chunk_17(v: &mut Vec<ClassUnicodeRange>)
    ensures
        rview(final(v)@) == rview(old(v)@) + alphabetic_chunk_17(),
{
    let ghost o = rview(v@);
    push_range(v, '\u{C0E}', '\u{C10}');
    push_range(v, '\u{C12}', '\u{C28}');
    push_range(v, '\u{C2A}', '\u{C39}');
    push_range(v, '\u{C3D}', '\u{C44}');
    push_range(v, '\u{C46}', '\u{C48}');
    push_range(v, '\u{C4A}', '\u{C4C}');
    push_range(v, '\u{C55}', '\u{C56}');
    push_range(v, '\u{C58}', '\u{C5A}');
    assert(rview(v@) =~= o + alphabetic_chunk_17());
}

fn push_alphabetic_chunk_18(v: &mut Vec<ClassUnicodeRange>)
    ensures
        rview(final(v)@) == rview(old(v)@) + alphabetic_chunk_18(),
{
    let ghost o = rview(v@);
    push_range(v, '\u{C5D}', '\u{C5D}');
    push_range(v, '\u{C60}', '\u{C63}');
    push_range(v, '\u{C80}', '\u{C83}');
    push_range(v, '\u{C85}', '\u{C8C}');
    push_range(v, '\u{C8E}', '\u{C90}');
    push_range(v, '\u{C92}', '\u{CA8}');
    push_range(v, '\u{CAA}', '\u{CB3}');
    push_range(v, '\u{CB5}', '\u{CB9}');
    assert(rview(v@) =~= o + alphabetic_chunk_18());
}

fn push_alphabetic_chunk_19(v: &mut Vec<ClassUnicodeRange>)
    ensures
        rview(final(v)@) == rview(old(v)@) + alphabetic_chunk_19(),
{
    let ghost o = rview(v@);
    push_range(v, '\u{CBD}', '\u{CC4}');
    push_range(v, '\u{CC6}', '\u{CC8}');
    push_range(v, '\u{CCA}', '\u{CCC}');
    push_range(v, '\u{CD5}', '\u{CD6}');
    push_range(v, '\u{CDD}', '\u{CDE}');
    push_range(v, '\u{CE0}', '\u{CE3}');
    push_range(v, '\u{CF1}', '\u{CF3}');
    push_range(v, '\u{D00}', '\u{D0C}');
    assert(rview(v@) =~= o + alphabetic_chunk_19());
}

fn push_alphabetic_chunk_20(v: &mut Vec<ClassUnicodeRange>)
    ensures
        rview(final(v)@) == rview(old(v)@) + alphabetic_chunk_20(),
{
    let ghost o = rview(v@);
    push_range(v, '\u{D0E}', '\u{D10}');
    push_range(v, '\u{D12}', '\u{D3A}');
    push_range(v, '\u{D3D}', '\u{D44}');
    push_range(v, '\u{D46}', '\u{D48}');
    push_range(v, '\u{D4A}', '\u{D4C}');
    push_range(v, '\u{D4E}', '\u{D4E}');
    push_range(v, '\u{D54}', '\u{D57}');
    push_range(v, '\u{D5F}', '\u{D63}');
    assert(rview(v@) =~= o + alphabetic_chunk_20());
}

fn push_alphabetic_chunk_21(v: &mut Vec<ClassUnicodeRange>)
    ensures
        rview(final(v)@) == rview(old(v)@) + alphabetic_chunk_21(),
{
    let ghost o = rview(v@);
    push_range(v, '\u{D7A}', '\u{D7F}');
    push_range(v, '\u{D81}', '\u{D83}');
    push_range(v, '\u{D85}', '\u{D96}');
    push_range(v, '\u{D9A}', '\u{DB1}');
    push_range(v, '\u{DB3}', '\u{DBB}');
    push_range(v, '\u{DBD}', '\u{DBD}');
    push_range(v, '\u{DC0}', '\u{DC6}');
    push_range(v, '\u{DCF}', '\u{DD4}');
    assert(rview(v@) =~= o + alphabetic_chunk_21());
}

fn push_alphabetic_chunk_22(v: &mut Vec<ClassUnicodeRange>)
    ensures
        rview(final(v)@) == rview(old(v)@) + alphabetic_chunk_22(),
{
    let ghost o = rview(v@);
    push_range(v, '\u{DD6}', '\u{DD6}');
    push_range(v, '\u{DD8}', '\u{DDF}');
    push_range(v, '\u{DF2}', '\u{DF3}');
    push_range(v, '\u{E01}', '\u{E3A}');
    push_range(v, '\u{E40}', '\u{E46}');
    push_range(v, '\u{E4D}', '\u{E4D}');
    push_range(v, '\u{E81}', '\u{E82}');
    push_range(v, '\u{E84}', '\u{E84}');
    assert(rview(v@) =~= o + alphabetic_chunk_22());
}

fn push_alphabetic_chunk_23(v: &mut Vec<ClassUnicodeRange>)
    ensures
        rview(final(v)@) == rview(old(v)@) + alphabetic_chunk_23(),
{
    let ghost o = rview(v@);
    push_range(v, '\u{E86}', '\u{E8A}');
    push_range(v, '\u{E8C}', '\u{EA3}');
    push_range(v, '\u{EA5}', '\u{EA5}');
    push_range(v, '\u{EA7}', '\u{EB9}');
    push_range(v, '\u{EBB}', '\u{EBD}');
    push_range(v, '\u{EC0}', '\u{EC4}');
    push_range(v, '\u{EC6}', '\u{EC6}');
    push_range(v, '\u{ECD}', '\u{ECD}');
    assert(rview(v@) =~= o + alphabetic_chunk_23());
}

fn push_alphabetic_chunk_24(v: &mut Vec<ClassUnicodeRange>)
    ensures
        rview(final(v)@) == rview(old(v)@) + alphabetic_chunk_24(),
{
    let ghost o = rview(v@);
    push_range(v, '\u{EDC}', '\u{EDF}');
    push_range(v, '\u{F00}', '\u{F00}');
    push_range(v, '\u{F40}', '\u{F47}');
    push_range(v, '\u{F49}', '\u{F6C}');
    push_range(v, '\u{F71}', '\u{F83}');
    push_range(v, '\u{F88}', '\u{F97}');
    push_range(v, '\u{F99}', '\u{FBC}');
    push_range(v, '\u{1000}', '\u{1036}');
    assert(rview(v@) =~= o + alphabetic_chunk_24());
}

fn push_alphabetic_chunk_25(v: &mut Vec<ClassUnicodeRange>)
    ensures
        rview(final(v)@) == rview(old(v)@) + alphabetic_chunk_25(),
{
    let ghost o = rview(v@);
    push_range(v, '\u{1038}', '\u{1038}');
    push_range(v, '\u{103B}', '\u{103F}');
    push_range(v, '\u{1050}', '\u{108F}');
    push_range(v, '\u{109A}', '\u{109D}');
    push_range(v, '\u{10A0}', '\u{10C5}');
    push_range(v, '\u{10C7}', '\u{10C7}');
    push_range(v, '\u{10CD}', '\u{10CD}');
    push_range(v, '\u{10D0}', '\u{10FA}');
    assert(rview(v@) =~= o + alphabetic_chunk_25());
}

fn push_alphabetic_chunk_26(v: &mut Vec<ClassUnicodeRange>)
    ensures
        rview(final(v)@) == rview(old(v)@) + alphabetic_chunk_26(),
{
    let ghost o = rview(v@);
    push_range(v, '\u{10FC}', '\u{1248}');
    push_range(v, '\u{124A}', '\u{124D}');
    push_range(v, '\u{1250}', '\u{1256}');
    push_range(v, '\u{1258}', '\u{1258}');
    push_range(v, '\u{125A}', '\u{125D}');
    push_range(v, '\u{1260}', '\u{1288}');
    push_range(v, '\u{128A}', '\u{128D}');
    push_range(v, '\u{1290}', '\u{12B0}');
    assert(rview(v@) =~= o + alphabetic_chunk_26());
}

fn push_alphabetic_chunk_27(v: &mut Vec<ClassUnicodeRange>)
    ensures
        rview(final(v)@) == rview(old(v)@) + alphabetic_chunk_27(),
{
    let ghost o = rview(v@);
    push_range(v, '\u{12B2}', '\u{12B5}');
    push_range(v, '\u{12B8}', '\u{12BE}');
    push_range(v, '\u{12C0}', '\u{12C0}');
    push_range(v, '\u{12C2}', '\u{12C5}');
    push_range(v, '\u{12C8}', '\u{12D6}');
    push_range(v, '\u{12D8}', '\u{1310}');
    push_range(v, '\u{1312}', '\u{1315}');
    push_range(v, '\u{1318}', '\u{135A}');
    assert(rview(v@) =~= o + alphabetic_chunk_27());
}

fn push_alphabetic_chunk_28(v: &mut Vec<ClassUnicodeRange>)
    ensures
        rview(final(v)@) == rview(old(v)@) + alphabetic_chunk_28(),
{
    let ghost o = rview(v@);
    push_range(v, '\u{1380}', '\u{138F}');
    push_range(v, '\u{13A0}', '\u{13F5}');
    push_range(v, '\u{13F8}', '\u{13FD}');
    push_range(v, '\u{1401}', '\u{166C}');
    push_range(v, '\u{166F}', '\u{167F}');
    push_range(v, '\u{1681}', '\u{169A}');
    push_range(v, '\u{16A0}', '\u{16EA}');
    push_range(v, '\u{16EE}', '\u{16F8}');
    assert(rview(v@) =~= o + alphabetic_chunk_28());
}

fn push_alphabetic_chunk_29(v: &mut Vec<ClassUnicodeRange>)
    ensures
        rview(final(v)@) == rview(old(v)@) + alphabetic_chunk_29(),
{
    let ghost o = rview(v@);
    push_range(v, '\u{1700}', '\u{1713}');
    push_range(v, '\u{171F}', '\u{1733}');
    push_range(v, '\u{1740}', '\u{1753}');
    push_range(v, '\u{1760}', '\u{176C}');
    push_range(v, '\u{176E}', '\u{1770}');
    push_range(v, '\u{1772}', '\u{1773}');
    push_range(v, '\u{1780}', '\u{17B3}');
    push_range(v, '\u{17B6}', '\u{17C8}');
    assert(rview(v@) =~= o + alphabetic_chunk_29());
}

fn push_alphabetic_chunk_30(v: &mut Vec<ClassUnicodeRange>)
    ensures
        rview(final(v)@) == rview(old(v)@) + alphabetic_chunk_30(),
{
    let ghost o = rview(v@);
    push_range(v, '\u{17D7}', '\u{17D7}');
    push_range(v, '\u{17DC}', '\u{17DC}');
    push_range(v, '\u{1820}', '\u{1878}');
    push_range(v, '\u{1880}', '\u{18AA}');
    push_range(v, '\u{18B0}', '\u{18F5}');
    push_range(v, '\u{1900}', '\u{191E}');
    push_range(v, '\u{1920}', '\u{192B}');
    push_range(v, '\u{1930}', '\u{1938}');
    assert(rview(v@) =~= o + alphabetic_chunk_30());
}

fn push_alphabetic_chunk_31(v: &mut Vec<ClassUnicodeRange>)
    ensures
        rview(final(v)@) == rview(old(v)@) + alphabetic_chunk_31(),
{
    let ghost o = rview(v@);
    push_range(v, '\u{1950}', '\u{196D}');
    push_range(v, '\u{1970}', '\u{1974}');
    push_range(v, '\u{1980}', '\u{19AB}');
    push_range(v, '\u{19B0}', '\u{19C9}');
    push_range(v, '\u{1A00}', '\u{1A1B}');
    push_range(v, '\u{1A20}', '\u{1A5E}');
    push_range(v, '\u{1A61}', '\u{1A74}');
    push_range(v, '\u{1AA7}', '\u{1AA7}');
    assert(rview(v@) =~= o + alphabetic_chunk_31());
}

fn push_alphabetic_chunk_32(v: &mut Vec<ClassUnicodeRange>)
    ensures
        rview(final(v)@) == rview(old(v)@) + alphabetic_chunk_32(),
{
    let ghost o = rview(v@);
    push_range(v, '\u{1ABF}', '\u{1AC0}');
    push_range(v, '\u{1ACC}', '\u{1ACE}');
    push_range(v, '\u{1B00}', '\u{1B33}');
    push_range(v, '\u{1B35}', '\u{1B43}');
    push_range(v, '\u{1B45}', '\u{1B4C}');
    push_range(v, '\u{1B80}', '\u{1BA9}');
    push_range(v, '\u{1BAC}', '\u{1BAF}');
    push_range(v, '\u{1BBA}', '\u{1BE5}');
    assert(rview(v@) =~= o + alphabetic_chunk_32());
}

fn push_alphabetic_chunk_33(v: &mut Vec<ClassUnicodeRange>)
    ensures
        rview(final(v)@) == rview(old(v)@) + alphabetic_chunk_33(),
{
    let ghost o = rview(v@);
    push_range(v, '\u{1BE7}', '\u{1BF1}');
    push_range(v, '\u{1C00}', '\u{1C36}');
    push_range(v, '\u{1C4D}', '\u{1C4F}');
    push_range(v, '\u{1C5A}', '\u{1C7D}');
    push_range(v, '\u{1C80}', '\u{1C8A}');
    push_range(v, '\u{1C90}', '\u{1CBA}');
    push_range(v, '\u{1CBD}', '\u{1CBF}');
    push_range(v, '\u{1CE9}', '\u{1CEC}');
    assert(rview(v@) =~= o + alphabetic_chunk_33());
}

fn push_alphabetic_chunk_34(v: &mut Vec<ClassUnicodeRange>)
    ensures
        rview(final(v)@) == rview(old(v)@) + alphabetic_chunk_34(),
{
    let ghost o = rview(v@);
    push_range(v, '\u{1CEE}', '\u{1CF3}');
    push_range(v, '\u{1CF5}', '\u{1CF6}');
    push_range(v, '\u{1CFA}', '\u{1CFA}');
    push_range(v, '\u{1D00}', '\u{1DBF}');
    push_range(v, '\u{1DD3}', '\u{1DF4}');
    push_range(v, '\u{1E00}', '\u{1F15}');
    push_range(v, '\u{1F18}', '\u{1F1D}');
    push_range(v, '\u{1F20}', '\u{1F45}');
    assert(rview(v@) =~= o + alphabetic_chunk_34());
}

fn push_alphabetic_chunk_35(v: &mut Vec<ClassUnicodeRange>)
    ensures
        rview(final(v)@) == rview(old(v)@) + alphabetic_chunk_35(),
{
    let ghost o = rview(v@);
    push_range(v, '\u{1F48}', '\u{1F4D}');
    push_range(v, '\u{1F50}', '\u{1F57}');
    push_range(v, '\u{1F59}', '\u{1F59}');
    push_range(v, '\u{1F5B}', '\u{1F5B}');
    push_range(v, '\u{1F5D}', '\u{1F5D}');
    push_range(v, '\u{1F5F}', '\u{1F7D}');
    push_range(v, '\u{1F80}', '\u{1FB4}');
    push_range(v, '\u{1FB6}', '\u{1FBC}');
    assert(rview(v@) =~= o + alphabetic_chunk_35());
}

fn push_alphabetic_chunk_36(v: &mut Vec<ClassUnicodeRange>)
    ensures
        rview(final(v)@) == rview(old(v)@) + alphabetic_chunk_36(),
{
    let ghost o = rview(v@);
    push_range(v, '\u{1FBE}', '\u{1FBE}');
    push_range(v, '\u{1FC2}', '\u{1FC4}');
    push_range(v, '\u{1FC6}', '\u{1FCC}');
    push_range(v, '\u{1FD0}', '\u{1FD3}');
    push_range(v, '\u{1FD6}', '\u{1FDB}');
    push_range(v, '\u{1FE0}', '\u{1FEC}');
    push_range(v, '\u{1FF2}', '\u{1FF4}');
    push_range(v, '\u{1FF6}', '\u{1FFC}');
    assert(rview(v@) =~= o + alphabetic_chunk_36());
}

fn push_alphabetic_chunk_37(v: &mut Vec<ClassUnicodeRange>)
    ensures
        rview(final(v)@) == rview(old(v)@) + alphabetic_chunk_37(),
{
    let ghost o = rview(v@);
    push_range(v, '\u{2071}', '\u{2071}');
    push_range(v, '\u{207F}', '\u{207F}');
    push_range(v, '\u{2090}', '\u{209C}');
    push_range(v, '\u{2102}', '\u{2102}');
    push_range(v, '\u{2107}', '\u{2107}');
    push_range(v, '\u{210A}', '\u{2113}');
    push_range(v, '\u{2115}', '\u{2115}');
    push_range(v, '\u{2119}', '\u{211D}');
    assert(rview(v@) =~= o + alphabetic_chunk_37());
}

fn push_alphabetic_chunk_38(v: &mut Vec<ClassUnicodeRange>)
    ensures
        rview(final(v)@) == rview(old(v)@) + alphabetic_chunk_38(),
{
    let ghost o = rview(v@);
    push_range(v, '\u{2124}', '\u{2124}');
    push_range(v, '\u{2126}', '\u{2126}');
    push_range(v, '\u{2128}', '\u{2128}');
    push_range(v, '\u{212A}', '\u{212D}');
    push_range(v, '\u{212F}', '\u{2139}');
    push_range(v, '\u{213C}', '\u{213F}');
    push_range(v, '\u{2145}', '\u{2149}');
    push_range(v, '\u{214E}', '\u{214E}');
    assert(rview(v@) =~= o + alphabetic_chunk_38());
}

fn push_alphabetic_chunk_39(v: &mut Vec<ClassUnicodeRange>)
    ensures
        rview(final(v)@) == rview(old(v)@) + alphabetic_chunk_39(),
{
    let ghost o = rview(v@);
    push_range(v, '\u{2160}', '\u{2188}');
    push_range(v, '\u{24B6}', '\u{24E9}');
    push_range(v, '\u{2C00}', '\u{2CE4}');
    push_range(v, '\u{2CEB}', '\u{2CEE}');
    push_range(v, '\u{2CF2}', '\u{2CF3}');
    push_range(v, '\u{2D00}', '\u{2D25}');
    push_range(v, '\u{2D27}', '\u{2D27}');
    push_range(v, '\u{2D2D}', '\u{2D2D}');
    assert(rview(v@) =~= o + alphabetic_chunk_39());
}

fn push_alphabetic_chunk_40(v: &mut Vec<ClassUnicodeRange>)
    ensures
        rview(final(v)@) == rview(old(v)@) + alphabetic_chunk_40(),
{
    let ghost o = rview(v@);
    push_range(v, '\u{2D30}', '\u{2D67}');
    push_range(v, '\u{2D6F}', '\u{2D6F}');
    push_range(v, '\u{2D80}', '\u{2D96}');
    push_range(v, '\u{2DA0}', '\u{2DA6}');
    push_range(v, '\u{2DA8}', '\u{2DAE}');
    push_range(v, '\u{2DB0}', '\u{2DB6}');
    push_range(v, '\u{2DB8}', '\u{2DBE}');
    push_range(v, '\u{2DC0}', '\u{2DC6}');
    assert(rview(v@) =~= o + alphabetic_chunk_40());
}

fn push_alphabetic_chunk_41(v: &mut Vec<ClassUnicodeRange>)
    ensures
        rview(final(v)@) == rview(old(v)@) + alphabetic_chunk_41(),
{
    let ghost o = rview(v@);
    push_range(v, '\u{2DC8}', '\u{2DCE}');
    push_range(v, '\u{2DD0}', '\u{2DD6}');
    push_range(v, '\u{2DD8}', '\u{2DDE}');
    push_range(v, '\u{2DE0}', '\u{2DFF}');
    push_range(v, '\u{2E2F}', '\u{2E2F}');
    push_range(v, '\u{3005}', '\u{3007}');
    push_range(v, '\u{3021}', '\u{3029}');
    push_range(v, '\u{3031}', '\u{3035}');
    assert(rview(v@) =~= o + alphabetic_chunk_41());
}

fn push_alphabetic_chunk_42(v: &mut Vec<ClassUnicodeRange>)
    ensures
        rview(final(v)@) == rview(old(v)@) + alphabetic_chunk_42(),
{
    let ghost o = rview(v@);
    push_range(v, '\u{3038}', '\u{303C}');
    push_range(v, '\u{3041}', '\u{3096}');
    push_range(v, '\u{309D}', '\u{309F}');
    push_range(v, '\u{30A1}', '\u{30FA}');
    push_range(v, '\u{30FC}', '\u{30FF}');
    push_range(v, '\u{3105}', '\u{312F}');
    push_range(v, '\u{3131}', '\u{318E}');
    push_range(v, '\u{31A0}', '\u{31BF}');
    assert(rview(v@) =~= o + alphabetic_chunk_42());
}

fn push_alphabetic_chunk_43(v: &mut Vec<ClassUnicodeRange>)
    ensures
        rview(final(v)@) == rview(old(v)@) + alphabetic_chunk_43(),
{
    let ghost o = rview(v@);
    push_range(v, '\u{31F0}', '\u{31FF}');
    push_range(v, '\u{3400}', '\u{4DBF}');
    push_range(v, '\u{4E00}', '\u{A48C}');
    push_range(v, '\u{A4D0}', '\u{A4FD}');
    push_range(v, '\u{A500}', '\u{A60C}');
    push_range(v, '\u{A610}', '\u{A61F}');
    push_range(v, '\u{A62A}', '\u{A62B}');
    push_range(v, '\u{A640}', '\u{A66E}');
    assert(rview(v@) =~= o + alphabetic_chunk_43());
}

fn push_alphabetic_chunk_44(v: &mut Vec<ClassUnicodeRange>)
    ensures
        rview(final(v)@) == rview(old(v)@) + alphabetic_chunk_44(),
{
    let ghost o = rview(v@);
    push_range(v, '\u{A674}', '\u{A67B}');
    push_range(v, '\u{A67F}', '\u{A6EF}');
    push_range(v, '\u{A717}', '\u{A71F}');
    push_range(v, '\u{A722}', '\u{A788}');
    push_range(v, '\u{A78B}', '\u{A7CD}');
    push_range(v, '\u{A7D0}', '\u{A7D1}');
    push_range(v, '\u{A7D3}', '\u{A7D3}');
    push_range(v, '\u{A7D5}', '\u{A7DC}');
    assert(rview(v@) =~= o + alphabetic_chunk_44());
}

fn push_alphabetic_chunk_45(v: &mut Vec<ClassUnicodeRange>)
    ensures
        rview(final(v)@) == rview(old(v)@) + alphabetic_chunk_45(),
{
    let ghost o = rview(v@);
    push_range(v, '\u{A7F2}', '\u{A805}');
    push_range(v, '\u{A807}', '\u{A827}');
    push_range(v, '\u{A840}', '\u{A873}');
    push_range(v, '\u{A880}', '\u{A8C3}');
    push_range(v, '\u{A8C5}', '\u{A8C5}');
    push_range(v, '\u{A8F2}', '\u{A8F7}');
    push_range(v, '\u{A8FB}', '\u{A8FB}');
    push_range(v, '\u{A8FD}', '\u{A8FF}');
    assert(rview(v@) =~= o + alphabetic_chunk_45());
}

fn push_alphabetic_chunk_46(v: &mut Vec<ClassUnicodeRange>)
    ensures
        rview(final(v)@) == rview(old(v)@) + alphabetic_chunk_46(),
{
    let ghost o = rview(v@);
    push_range(v, '\u{A90A}', '\u{A92A}');
    push_range(v, '\u{A930}', '\u{A952}');
    push_range(v, '\u{A960}', '\u{A97C}');
    push_range(v, '\u{A980}', '\u{A9B2}');
    push_range(v, '\u{A9B4}', '\u{A9BF}');
    push_range(v, '\u{A9CF}', '\u{A9CF}');
    push_range(v, '\u{A9E0}', '\u{A9EF}');
    push_range(v, '\u{A9FA}', '\u{A9FE}');
    assert(rview(v@) =~= o + alphabetic_chunk_46());
}

fn push_alphabetic_chunk_47(v: &mut Vec<ClassUnicodeRange>)
    ensures
        rview(final(v)@) == rview(old(v)@) + alphabetic_chunk_47(),
{
    let ghost o = rview(v@);
    push_range(v, '\u{AA00}', '\u{AA36}');
    push_range(v, '\u{AA40}', '\u{AA4D}');
    push_range(v, '\u{AA60}', '\u{AA76}');
    push_range(v, '\u{AA7A}', '\u{AABE}');
    push_range(v, '\u{AAC0}', '\u{AAC0}');
    push_range(v, '\u{AAC2}', '\u{AAC2}');
    push_range(v, '\u{AADB}', '\u{AADD}');
    push_range(v, '\u{AAE0}', '\u{AAEF}');
    assert(rview(v@) =~= o + alphabetic_chunk_47());
}

fn push_alphabetic_chunk_48(v: &mut Vec<ClassUnicodeRange>)
    ensures
        rview(final(v)@) == rview(old(v)@) + alphabetic_chunk_48(),
{
    let ghost o = rview(v@);
    push_range(v, '\u{AAF2}', '\u{AAF5}');
    push_range(v, '\u{AB01}', '\u{AB06}');
    push_range(v, '\u{AB09}', '\u{AB0E}');
    push_range(v, '\u{AB11}', '\u{AB16}');
    push_range(v, '\u{AB20}', '\u{AB26}');
    push_range(v, '\u{AB28}', '\u{AB2E}');
    push_range(v, '\u{AB30}', '\u{AB5A}');
    push_range(v, '\u{AB5C}', '\u{AB69}');
    assert(rview(v@) =~= o + alphabetic_chunk_48());
}

fn push_alphabetic_chunk_49(v: &mut Vec<ClassUnicodeRange>)
    ensures
        rview(final(v)@) == rview(old(v)@) + alphabetic_chunk_49(),
{
    let ghost o = rview(v@);
    push_range(v, '\u{AB70}', '\u{ABEA}');
    push_range(v, '\u{AC00}', '\u{D7A3}');
    push_range(v, '\u{D7B0}', '\u{D7C6}');
    push_range(v, '\u{D7CB}', '\u{D7FB}');
    push_range(v, '\u{F900}', '\u{FA6D}');
    push_range(v, '\u{FA70}', '\u{FAD9}');
    push_range(v, '\u{FB00}', '\u{FB06}');
    push_range(v, '\u{FB13}', '\u{FB17}');
    assert(rview(v@) =~= o + alphabetic_chunk_49());
}

fn push_alphabetic_chunk_50(v: &mut Vec<ClassUnicodeRange>)
    ensures
        rview(final(v)@) == rview(old(v)@) + alphabetic_chunk_50(),
{
    let ghost o = rview(v@);
    push_range(v, '\u{FB1D}', '\u{FB28}');
    push_range(v, '\u{FB2A}', '\u{FB36}');
    push_range(v, '\u{FB38}', '\u{FB3C}');
    push_range(v, '\u{FB3E}', '\u{FB3E}');
    push_range(v, '\u{FB40}', '\u{FB41}');
    push_range(v, '\u{FB43}', '\u{FB44}');
    push_range(v, '\u{FB46}', '\u{FBB1}');
    push_range(v, '\u{FBD3}', '\u{FD3D}');
    assert(rview(v@) =~= o + alphabetic_chunk_50());
}

fn push_alphabetic_chunk_51(v: &mut Vec<ClassUnicodeRange>)
    ensures
        rview(final(v)@) == rview(old(v)@) + alphabetic_chunk_51(),
{
    let ghost o = rview(v@);
    push_range(v, '\u{FD50}', '\u{FD8F}');
    push_range(v, '\u{FD92}', '\u{FDC7}');
    push_range(v, '\u{FDF0}', '\u{FDFB}');
    push_range(v, '\u{FE70}', '\u{FE74}');
    push_range(v, '\u{FE76}', '\u{FEFC}');
    push_range(v, '\u{FF21}', '\u{FF3A}');
    push_range(v, '\u{FF41}', '\u{FF5A}');
    push_range(v, '\u{FF66}', '\u{FFBE}');
    assert(rview(v@) =~= o + alphabetic_chunk_51());
}

fn push_alphabetic_chunk_52(v: &mut Vec<ClassUnicodeRange>)
    ensures
        rview(final(v)@) == rview(old(v)@) + alphabetic_chunk_52(),
{
    let ghost o = rview(v@);
    push_range(v, '\u{FFC2}', '\u{FFC7}');
    push_range(v, '\u{FFCA}', '\u{FFCF}');
    push_range(v, '\u{FFD2}', '\u{FFD7}');
    push_range(v, '\u{FFDA}', '\u{FFDC}');
    push_range(v, '\u{10000}', '\u{1000B}');
    push_range(v, '\u{1000D}', '\u{10026}');
    push_range(v, '\u{10028}', '\u{1003A}');
    push_range(v, '\u{1003C}', '\u{1003D}');
    assert(rview(v@) =~= o + alphabetic_chunk_52());
}

fn push_alphabetic_chunk_53(v: &mut Vec<ClassUnicodeRange>)
    ensures
        rview(final(v)@) == rview(old(v)@) + alphabetic_chunk_53(),
{
    let ghost o = rview(v@);
    push_range(v, '\u{1003F}', '\u{1004D}');
    push_range(v, '\u{10050}', '\u{1005D}');
    push_range(v, '\u{10080}', '\u{100FA}');
    push_range(v, '\u{10140}', '\u{10174}');
    push_range(v, '\u{10280}', '\u{1029C}');
    push_range(v, '\u{102A0}', '\u{102D0}');
    push_range(v, '\u{10300}', '\u{1031F}');
    push_range(v, '\u{1032D}', '\u{1034A}');
    assert(rview(v@) =~= o + alphabetic_chunk_53());
}

fn push_alphabetic_chunk_54(v: &mut Vec<ClassUnicodeRange>)
    ensures
        rview(final(v)@) == rview(old(v)@) + alphabetic_chunk_54(),
{
    let ghost o = rview(v@);
    push_range(v, '\u{10350}', '\u{1037A}');
    push_range(v, '\u{10380}', '\u{1039D}');
    push_range(v, '\u{103A0}', '\u{103C3}');
    push_range(v, '\u{103C8}', '\u{103CF}');
    push_range(v, '\u{103D1}', '\u{103D5}');
    push_range(v, '\u{10400}', '\u{1049D}');
    push_range(v, '\u{104B0}', '\u{104D3}');
    push_range(v, '\u{104D8}', '\u{104FB}');
    assert(rview(v@) =~= o + alphabetic_chunk_54());
}

fn push_alphabetic_chunk_55(v: &mut Vec<ClassUnicodeRange>)
    ensures
        rview(final(v)@) == rview(old(v)@) + alphabetic_chunk_55(),
{
    let ghost o = rview(v@);
    push_range(v, '\u{10500}', '\u{10527}');
    push_range(v, '\u{10530}', '\u{10563}');
    push_range(v, '\u{10570}', '\u{1057A}');
    push_range(v, '\u{1057C}', '\u{1058A}');
    push_range(v, '\u{1058C}', '\u{10592}');
    push_range(v, '\u{10594}', '\u{10595}');
    push_range(v, '\u{10597}', '\u{105A1}');
    push_range(v, '\u{105A3}', '\u{105B1}');
    assert(rview(v@) =~= o + alphabetic_chunk_55());
}

fn push_alphabetic_chunk_56(v: &mut Vec<ClassUnicodeRange>)
    ensures
        rview(final(v)@) == rview(old(v)@) + alphabetic_chunk_56(),
{
    let ghost o = rview(v@);
    push_range(v, '\u{105B3}', '\u{105B9}');
    push_range(v, '\u{105BB}', '\u{105BC}');
    push_range(v, '\u{105C0}', '\u{105F3}');
    push_range(v, '\u{10600}', '\u{10736}');
    push_range(v, '\u{10740}', '\u{10755}');
    push_range(v, '\u{10760}', '\u{10767}');
    push_range(v, '\u{10780}', '\u{10785}');
    push_range(v, '\u{10787}', '\u{107B0}');
    assert(rview(v@) =~= o + alphabetic_chunk_56());
}

fn push_alphabetic_chunk_57(v: &mut Vec<ClassUnicodeRange>)
    ensures
        rview(final(v)@) == rview(old(v)@) + alphabetic_chunk_57(),
{
    let ghost o = rview(v@);
    push_range(v, '\u{107B2}', '\u{107BA}');
    push_range(v, '\u{10800}', '\u{10805}');
    push_range(v, '\u{10808}', '\u{10808}');
    push_range(v, '\u{1080A}', '\u{10835}');
    push_range(v, '\u{10837}', '\u{10838}');
    push_range(v, '\u{1083C}', '\u{1083C}');
    push_range(v, '\u{1083F}', '\u{10855}');
    push_range(v, '\u{10860}', '\u{10876}');
    assert(rview(v@) =~= o + alphabetic_chunk_57());
}

fn push_alphabetic_chunk_58(v: &mut Vec<ClassUnicodeRange>)
    ensures
        rview(final(v)@) == rview(old(v)@) + alphabetic_chunk_58(),
{
    let ghost o = rview(v@);
    push_range(v, '\u{10880}', '\u{1089E}');
    push_range(v, '\u{108E0}', '\u{108F2}');
    push_range(v, '\u{108F4}', '\u{108F5}');
    push_range(v, '\u{10900}', '\u{10915}');
    push_range(v, '\u{10920}', '\u{10939}');
    push_range(v, '\u{10980}', '\u{109B7}');
    push_range(v, '\u{109BE}', '\u{109BF}');
    push_range(v, '\u{10A00}', '\u{10A03}');
    assert(rview(v@) =~= o + alphabetic_chunk_58());
}

fn push_alphabetic_chunk_59(v: &mut Vec<ClassUnicodeRange>)
    ensures
        rview(final(v)@) == rview(old(v)@) + alphabetic_chunk_59(),
{
    let ghost o = rview(v@);
    push_range(v, '\u{10A05}', '\u{10A06}');
    push_range(v, '\u{10A0C}', '\u{10A13}');
    push_range(v, '\u{10A15}', '\u{10A17}');
    push_range(v, '\u{10A19}', '\u{10A35}');
    push_range(v, '\u{10A60}', '\u{10A7C}');
    push_range(v, '\u{10A80}', '\u{10A9C}');
    push_range(v, '\u{10AC0}', '\u{10AC7}');
    push_range(v, '\u{10AC9}', '\u{10AE4}');
    assert(rview(v@) =~= o + alphabetic_chunk_59());
}

fn push_alphabetic_chunk_60(v: &mut Vec<ClassUnicodeRange>)
    ensures
        rview(final(v)@) == rview(old(v)@) + alphabetic_chunk_60(),
{
    let ghost o = rview(v@);
    push_range(v, '\u{10B00}', '\u{10B35}');
    push_range(v, '\u{10B40}', '\u{10B55}');
    push_range(v, '\u{10B60}', '\u{10B72}');
    push_range(v, '\u{10B80}', '\u{10B91}');
    push_range(v, '\u{10C00}', '\u{10C48}');
    push_range(v, '\u{10C80}', '\u{10CB2}');
    push_range(v, '\u{10CC0}', '\u{10CF2}');
    push_range(v, '\u{10D00}', '\u{10D27}');
    assert(rview(v@) =~= o + alphabetic_chunk_60());
}

fn push_alphabetic_chunk_61(v: &mut Vec<ClassUnicodeRange>)
    ensures
        rview(final(v)@) == rview(old(v)@) + alphabetic_chunk_61(),
{
    let ghost o = rview(v@);
    push_range(v, '\u{10D4A}', '\u{10D65}');
    push_range(v, '\u{10D69}', '\u{10D69}');
    push_range(v, '\u{10D6F}', '\u{10D85}');
    push_range(v, '\u{10E80}', '\u{10EA9}');
    push_range(v, '\u{10EAB}', '\u{10EAC}');
    push_range(v, '\u{10EB0}', '\u{10EB1}');
    push_range(v, '\u{10EC2}', '\u{10EC4}');
    push_range(v, '\u{10EFC}', '\u{10EFC}');
    assert(rview(v@) =~= o + alphabetic_chunk_61());
}

fn push_alphabetic_chunk_62(v: &mut Vec<ClassUnicodeRange>)
    ensures
        rview(final(v)@) == rview(old(v)@) + alphabetic_chunk_62(),
{
    let ghost o = rview(v@);
    push_range(v, '\u{10F00}', '\u{10F1C}');
    push_range(v, '\u{10F27}', '\u{10F27}');
    push_range(v, '\u{10F30}', '\u{10F45}');
    push_range(v, '\u{10F70}', '\u{10F81}');
    push_range(v, '\u{10FB0}', '\u{10FC4}');
    push_range(v, '\u{10FE0}', '\u{10FF6}');
    push_range(v, '\u{11000}', '\u{11045}');
    push_range(v, '\u{11071}', '\u{11075}');
    assert(rview(v@) =~= o + alphabetic_chunk_62());
}

fn push_alphabetic_chunk_63(v: &mut Vec<ClassUnicodeRange>)
    ensures
        rview(final(v)@) == rview(old(v)@) + alphabetic_chunk_63(),
{
    let ghost o = rview(v@);
    push_range(v, '\u{11080}', '\u{110B8}');
    push_range(v, '\u{110C2}', '\u{110C2}');
    push_range(v, '\u{110D0}', '\u{110E8}');
    push_range(v, '\u{11100}', '\u{11132}');
    push_range(v, '\u{11144}', '\u{11147}');
    push_range(v, '\u{11150}', '\u{11172}');
    push_range(v, '\u{11176}', '\u{11176}');
    push_range(v, '\u{11180}', '\u{111BF}');
    assert(rview(v@) =~= o + alphabetic_chunk_63());
}

fn push_alphabetic_chunk_64(v: &mut Vec<ClassUnicodeRange>)
    ensures
        rview(final(v)@) == rview(old(v)@) + alphabetic_chunk_64(),
{
    let ghost o = rview(v@);
    push_range(v, '\u{111C1}', '\u{111C4}');
    push_range(v, '\u{111CE}', '\u{111CF}');
    push_range(v, '\u{111DA}', '\u{111DA}');
    push_range(v, '\u{111DC}', '\u{111DC}');
    push_range(v, '\u{11200}', '\u{11211}');
    push_range(v, '\u{11213}', '\u{11234}');
    push_range(v, '\u{11237}', '\u{11237}');
    push_range(v, '\u{1123E}', '\u{11241}');
    assert(rview(v@) =~= o + alphabetic_chunk_64());
}

fn push_alphabetic_chunk_65(v: &mut Vec<ClassUnicodeRange>)
    ensures
        rview(final(v)@) == rview(old(v)@) + alphabetic_chunk_65(),
{
    let ghost o = rview(v@);
    push_range(v, '\u{11280}', '\u{11286}');
    push_range(v, '\u{11288}', '\u{11288}');
    push_range(v, '\u{1128A}', '\u{1128D}');
    push_range(v, '\u{1128F}', '\u{1129D}');
    push_range(v, '\u{1129F}', '\u{112A8}');
    push_range(v, '\u{112B0}', '\u{112E8}');
    push_range(v, '\u{11300}', '\u{11303}');
    push_range(v, '\u{11305}', '\u{1130C}');
    assert(rview(v@) =~= o + alphabetic_chunk_65());
}

fn push_alphabetic_chunk_66(v: &mut Vec<ClassUnicodeRange>)
    ensures
        rview(final(v)@) == rview(old(v)@) + alphabetic_chunk_66(),
{
    let ghost o = rview(v@);
    push_range(v, '\u{1130F}', '\u{11310}');
    push_range(v, '\u{11313}', '\u{11328}');
    push_range(v, '\u{1132A}', '\u{11330}');
    push_range(v, '\u{11332}', '\u{11333}');
    push_range(v, '\u{11335}', '\u{11339}');
    push_range(v, '\u{1133D}', '\u{11344}');
    push_range(v, '\u{11347}', '\u{11348}');
    push_range(v, '\u{1134B}', '\u{1134C}');
    assert(rview(v@) =~= o + alphabetic_chunk_66());
}

fn push_alphabetic_chunk_67(v: &mut Vec<ClassUnicodeRange>)
    ensures
        rview(final(v)@) == rview(old(v)@) + alphabetic_chunk_67(),
{
    let ghost o = rview(v@);
    push_range(v, '\u{11350}', '\u{11350}');
    push_range(v, '\u{11357}', '\u{11357}');
    push_range(v, '\u{1135D}', '\u{11363}');
    push_range(v, '\u{11380}', '\u{11389}');
    push_range(v, '\u{1138B}', '\u{1138B}');
    push_range(v, '\u{1138E}', '\u{1138E}');
    push_range(v, '\u{11390}', '\u{113B5}');
    push_range(v, '\u{113B7}', '\u{113C0}');
    assert(rview(v@) =~= o + alphabetic_chunk_67());
}

fn push_alphabetic_chunk_68(v: &mut Vec<ClassUnicodeRange>)
    ensures
        rview(final(v)@) == rview(old(v)@) + alphabetic_chunk_68(),
{
    let ghost o = rview(v@);
    push_range(v, '\u{113C2}', '\u{113C2}');
    push_range(v, '\u{113C5}', '\u{113C5}');
    push_range(v, '\u{113C7}', '\u{113CA}');
    push_range(v, '\u{113CC}', '\u{113CD}');
    push_range(v, '\u{113D1}', '\u{113D1}');
    push_range(v, '\u{113D3}', '\u{113D3}');
    push_range(v, '\u{11400}', '\u{11441}');
    push_range(v, '\u{11443}', '\u{11445}');
    assert(rview(v@) =~= o + alphabetic_chunk_68());
}

fn push_alphabetic_chunk_69(v: &mut Vec<ClassUnicodeRange>)
    ensures
        rview(final(v)@) == rview(old(v)@) + alphabetic_chunk_69(),
{
    let ghost o = rview(v@);
    push_range(v, '\u{11447}', '\u{1144A}');
    push_range(v, '\u{1145F}', '\u{11461}');
    push_range(v, '\u{11480}', '\u{114C1}');
    push_range(v, '\u{114C4}', '\u{114C5}');
    push_range(v, '\u{114C7}', '\u{114C7}');
    push_range(v, '\u{11580}', '\u{115B5}');
    push_range(v, '\u{115B8}', '\u{115BE}');
    push_range(v, '\u{115D8}', '\u{115DD}');
    assert(rview(v@) =~= o + alphabetic_chunk_69());
}

fn push_alphabetic_chunk_70(v: &mut Vec<ClassUnicodeRange>)
    ensures
        rview(final(v)@) == rview(old(v)@) + alphabetic_chunk_70(),
{
    let ghost o = rview(v@);
    push_range(v, '\u{11600}', '\u{1163E}');
    push_range(v, '\u{11640}', '\u{11640}');
    push_range(v, '\u{11644}', '\u{11644}');
    push_range(v, '\u{11680}', '\u{116B5}');
    push_range(v, '\u{116B8}', '\u{116B8}');
    push_range(v, '\u{11700}', '\u{1171A}');
    push_range(v, '\u{1171D}', '\u{1172A}');
    push_range(v, '\u{11740}', '\u{11746}');
    assert(rview(v@) =~= o + alphabetic_chunk_70());
}

fn push_alphabetic_chunk_71(v: &mut Vec<ClassUnicodeRange>)
    ensures
        rview(final(v)@) == rview(old(v)@) + alphabetic_chunk_71(),
{
    let ghost o = rview(v@);
    push_range(v, '\u{11800}', '\u{11838}');
    push_range(v, '\u{118A0}', '\u{118DF}');
    push_range(v, '\u{118FF}', '\u{11906}');
    push_range(v, '\u{11909}', '\u{11909}');
    push_range(v, '\u{1190C}', '\u{11913}');
    push_range(v, '\u{11915}', '\u{11916}');
    push_range(v, '\u{11918}', '\u{11935}');
    push_range(v, '\u{11937}', '\u{11938}');
    assert(rview(v@) =~= o + alphabetic_chunk_71());
}

fn push_alphabetic_chunk_72(v: &mut Vec<ClassUnicodeRange>)
    ensures
        rview(final(v)@) == rview(old(v)@) + alphabetic_chunk_72(),
{
    let ghost o = rview(v@);
    push_range(v, '\u{1193B}', '\u{1193C}');
    push_range(v, '\u{1193F}', '\u{11942}');
    push_range(v, '\u{119A0}', '\u{119A7}');
    push_range(v, '\u{119AA}', '\u{119D7}');
    push_range(v, '\u{119DA}', '\u{119DF}');
    push_range(v, '\u{119E1}', '\u{119E1}');
    push_range(v, '\u{119E3}', '\u{119E4}');
    push_range(v, '\u{11A00}', '\u{11A32}');
    assert(rview(v@) =~= o + alphabetic_chunk_72());
}

fn push_alphabetic_chunk_73(v: &mut Vec<ClassUnicodeRange>)
    ensures
        rview(final(v)@) == rview(old(v)@) + alphabetic_chunk_73(),
{
    let ghost o = rview(v@);
    push_range(v, '\u{11A35}', '\u{11A3E}');
    push_range(v, '\u{11A50}', '\u{11A97}');
    push_range(v, '\u{11A9D}', '\u{11A9D}');
    push_range(v, '\u{11AB0}', '\u{11AF8}');
    push_range(v, '\u{11BC0}', '\u{11BE0}');
    push_range(v, '\u{11C00}', '\u{11C08}');
    push_range(v, '\u{11C0A}', '\u{11C36}');
    push_range(v, '\u{11C38}', '\u{11C3E}');
    assert(rview(v@) =~= o + alphabetic_chunk_73());
}

fn push_alphabetic_chunk_74(v: &mut Vec<ClassUnicodeRange>)
    ensures
        rview(final(v)@) == rview(old(v)@) + alphabetic_chunk_74(),
{
    let ghost o = rview(v@);
    push_range(v, '\u{11C40}', '\u{11C40}');
    push_range(v, '\u{11C72}', '\u{11C8F}');
    push_range(v, '\u{11C92}', '\u{11CA7}');
    push_range(v, '\u{11CA9}', '\u{11CB6}');
    push_range(v, '\u{11D00}', '\u{11D06}');
    push_range(v, '\u{11D08}', '\u{11D09}');
    push_range(v, '\u{11D0B}', '\u{11D36}');
    push_range(v, '\u{11D3A}', '\u{11D3A}');
    assert(rview(v@) =~= o + alphabetic_chunk_74());
}

fn push_alphabetic_chunk_75(v: &mut Vec<ClassUnicodeRange>)
    ensures
        rview(final(v)@) == rview(old(v)@) + alphabetic_chunk_75(),
{
    let ghost o = rview(v@);
    push_range(v, '\u{11D3C}', '\u{11D3D}');
    push_range(v, '\u{11D3F}', '\u{11D41}');
    push_range(v, '\u{11D43}', '\u{11D43}');
    push_range(v, '\u{11D46}', '\u{11D47}');
    push_range(v, '\u{11D60}', '\u{11D65}');
    push_range(v, '\u{11D67}', '\u{11D68}');
    push_range(v, '\u{11D6A}', '\u{11D8E}');
    push_range(v, '\u{11D90}', '\u{11D91}');
    assert(rview(v@) =~= o + alphabetic_chunk_75());
}

fn push_alphabetic_chunk_76(v: &mut Vec<ClassUnicodeRange>)
    ensures
        rview(final(v)@) == rview(old(v)@) + alphabetic_chunk_76(),
{
    let ghost o = rview(v@);
    push_range(v, '\u{11D93}', '\u{11D96}');
    push_range(v, '\u{11D98}', '\u{11D98}');
    push_range(v, '\u{11EE0}', '\u{11EF6}');
    push_range(v, '\u{11F00}', '\u{11F10}');
    push_range(v, '\u{11F12}', '\u{11F3A}');
    push_range(v, '\u{11F3E}', '\u{11F40}');
    push_range(v, '\u{11FB0}', '\u{11FB0}');
    push_range(v, '\u{12000}', '\u{12399}');
    assert(rview(v@) =~= o + alphabetic_chunk_76());
}

fn push_alphabetic_chunk_77(v: &mut Vec<ClassUnicodeRange>)
    ensures
        rview(final(v)@) == rview(old(v)@) + alphabetic_chunk_77(),
{
    let ghost o = rview(v@);
    push_range(v, '\u{12400}', '\u{1246E}');
    push_range(v, '\u{12480}', '\u{12543}');
    push_range(v, '\u{12F90}', '\u{12FF0}');
    push_range(v, '\u{13000}', '\u{1342F}');
    push_range(v, '\u{13441}', '\u{13446}');
    push_range(v, '\u{13460}', '\u{143FA}');
    push_range(v, '\u{14400}', '\u{14646}');
    push_range(v, '\u{16100}', '\u{1612E}');
    assert(rview(v@) =~= o + alphabetic_chunk_77());
}

fn push_alphabetic_chunk_78(v: &mut Vec<ClassUnicodeRange>)
    ensures
        rview(final(v)@) == rview(old(v)@) + alphabetic_chunk_78(),
{
    let ghost o = rview(v@);
    push_range(v, '\u{16800}', '\u{16A38}');
    push_range(v, '\u{16A40}', '\u{16A5E}');
    push_range(v, '\u{16A70}', '\u{16ABE}');
    push_range(v, '\u{16AD0}', '\u{16AED}');
    push_range(v, '\u{16B00}', '\u{16B2F}');
    push_range(v, '\u{16B40}', '\u{16B43}');
    push_range(v, '\u{16B63}', '\u{16B77}');
    push_range(v, '\u{16B7D}', '\u{16B8F}');
    assert(rview(v@) =~= o + alphabetic_chunk_78());
}

fn push_alphabetic_chunk_79(v: &mut Vec<ClassUnicodeRange>)
    ensures
        rview(final(v)@) == rview(old(v)@) + alphabetic_chunk_79(),
{
    let ghost o = rview(v@);
    push_range(v, '\u{16D40}', '\u{16D6C}');
    push_range(v, '\u{16E40}', '\u{16E7F}');
    push_range(v, '\u{16F00}', '\u{16F4A}');
    push_range(v, '\u{16F4F}', '\u{16F87}');
    push_range(v, '\u{16F8F}', '\u{16F9F}');
    push_range(v, '\u{16FE0}', '\u{16FE1}');
    push_range(v, '\u{16FE3}', '\u{16FE3}');
    push_range(v, '\u{16FF0}', '\u{16FF1}');
    assert(rview(v@) =~= o + alphabetic_chunk_79());
}

fn push_alphabetic_chunk_80(v: &mut Vec<ClassUnicodeRange>)
    ensures
        rview(final(v)@) == rview(old(v)@) + alphabetic_chunk_80(),
{
    let ghost o = rview(v@);
    push_range(v, '\u{17000}', '\u{187F7}');
    push_range(v, '\u{18800}', '\u{18CD5}');
    push_range(v, '\u{18CFF}', '\u{18D08}');
    push_range(v, '\u{1AFF0}', '\u{1AFF3}');
    push_range(v, '\u{1AFF5}', '\u{1AFFB}');
    push_range(v, '\u{1AFFD}', '\u{1AFFE}');
    push_range(v, '\u{1B000}', '\u{1B122}');
    push_range(v, '\u{1B132}', '\u{1B132}');
    assert(rview(v@) =~= o + alphabetic_chunk_80());
}

fn push_alphabetic_chunk_81(v: &mut Vec<ClassUnicodeRange>)
    ensures
        rview(final(v)@) == rview(old(v)@) + alphabetic_chunk_81(),
{
    let ghost o = rview(v@);
    push_range(v, '\u{1B150}', '\u{1B152}');
    push_range(v, '\u{1B155}', '\u{1B155}');
    push_range(v, '\u{1B164}', '\u{1B167}');
    push_range(v, '\u{1B170}', '\u{1B2FB}');
    push_range(v, '\u{1BC00}', '\u{1BC6A}');
    push_range(v, '\u{1BC70}', '\u{1BC7C}');
    push_range(v, '\u{1BC80}', '\u{1BC88}');
    push_range(v, '\u{1BC90}', '\u{1BC99}');
    assert(rview(v@) =~= o + alphabetic_chunk_81());
}

fn push_alphabetic_chunk_82(v: &mut Vec<ClassUnicodeRange>)
    ensures
        rview(final(v)@) == rview(old(v)@) + alphabetic_chunk_82(),
{
    let ghost o = rview(v@);
    push_range(v, '\u{1BC9E}', '\u{1BC9E}');
    push_range(v, '\u{1D400}', '\u{1D454}');
    push_range(v, '\u{1D456}', '\u{1D49C}');
    push_range(v, '\u{1D49E}', '\u{1D49F}');
    push_range(v, '\u{1D4A2}', '\u{1D4A2}');
    push_range(v, '\u{1D4A5}', '\u{1D4A6}');
    push_range(v, '\u{1D4A9}', '\u{1D4AC}');
    push_range(v, '\u{1D4AE}', '\u{1D4B9}');
    assert(rview(v@) =~= o + alphabetic_chunk_82());
}

fn push_alphabetic_chunk_83(v: &mut Vec<ClassUnicodeRange>)
    ensures
        rview(final(v)@) == rview(old(v)@) + alphabetic_chunk_83(),
{
    let ghost o = rview(v@);
    push_range(v, '\u{1D4BB}', '\u{1D4BB}');
    push_range(v, '\u{1D4BD}', '\u{1D4C3}');
    push_range(v, '\u{1D4C5}', '\u{1D505}');
    push_range(v, '\u{1D507}', '\u{1D50A}');
    push_range(v, '\u{1D50D}', '\u{1D514}');
    push_range(v, '\u{1D516}', '\u{1D51C}');
    push_range(v, '\u{1D51E}', '\u{1D539}');
    push_range(v, '\u{1D53B}', '\u{1D53E}');
    assert(rview(v@) =~= o + alphabetic_chunk_83());
}

fn push_alphabetic_chunk_84(v: &mut Vec<ClassUnicodeRange>)
    ensures
        rview(final(v)@) == rview(old(v)@) + alphabetic_chunk_84(),
{
    let ghost o = rview(v@);
    push_range(v, '\u{1D540}', '\u{1D544}');
    push_range(v, '\u{1D546}', '\u{1D546}');
    push_range(v, '\u{1D54A}', '\u{1D550}');
    push_range(v, '\u{1D552}', '\u{1D6A5}');
    push_range(v, '\u{1D6A8}', '\u{1D6C0}');
    push_range(v, '\u{1D6C2}', '\u{1D6DA}');
    push_range(v, '\u{1D6DC}', '\u{1D6FA}');
    push_range(v, '\u{1D6FC}', '\u{1D714}');
    assert(rview(v@) =~= o + alphabetic_chunk_84());
}

fn push_alphabetic_chunk_85(v: &mut Vec<ClassUnicodeRange>)
    ensures
        rview(final(v)@) == rview(old(v)@) + alphabetic_chunk_85(),
{
    let ghost o = rview(v@);
    push_range(v, '\u{1D716}', '\u{1D734}');
    push_range(v, '\u{1D736}', '\u{1D74E}');
    push_range(v, '\u{1D750}', '\u{1D76E}');
    push_range(v, '\u{1D770}', '\u{1D788}');
    push_range(v, '\u{1D78A}', '\u{1D7A8}');
    push_range(v, '\u{1D7AA}', '\u{1D7C2}');
    push_range(v, '\u{1D7C4}', '\u{1D7CB}');
    push_range(v, '\u{1DF00}', '\u{1DF1E}');
    assert(rview(v@) =~= o + alphabetic_chunk_85());
}

fn push_alphabetic_chunk_86(v: &mut Vec<ClassUnicodeRange>)
    ensures
        rview(final(v)@) == rview(old(v)@) + alphabetic_chunk_86(),
{
    let ghost o = rview(v@);
    push_range(v, '\u{1DF25}', '\u{1DF2A}');
    push_range(v, '\u{1E000}', '\u{1E006}');
    push_range(v, '\u{1E008}', '\u{1E018}');
    push_range(v, '\u{1E01B}', '\u{1E021}');
    push_range(v, '\u{1E023}', '\u{1E024}');
    push_range(v, '\u{1E026}', '\u{1E02A}');
    push_range(v, '\u{1E030}', '\u{1E06D}');
    push_range(v, '\u{1E08F}', '\u{1E08F}');
    assert(rview(v@) =~= o + alphabetic_chunk_86());
}

fn push_alphabetic_chunk_87(v: &mut Vec<ClassUnicodeRange>)
    ensures
        rview(final(v)@) == rview(old(v)@) + alphabetic_chunk_87(),
{
    let ghost o = rview(v@);
    push_range(v, '\u{1E100}', '\u{1E12C}');
    push_range(v, '\u{1E137}', '\u{1E13D}');
    push_range(v, '\u{1E14E}', '\u{1E14E}');
    push_range(v, '\u{1E290}', '\u{1E2AD}');
    push_range(v, '\u{1E2C0}', '\u{1E2EB}');
    push_range(v, '\u{1E4D0}', '\u{1E4EB}');
    push_range(v, '\u{1E5D0}', '\u{1E5ED}');
    push_range(v, '\u{1E5F0}', '\u{1E5F0}');
    assert(rview(v@) =~= o + alphabetic_chunk_87());
}

fn push_alphabetic_chunk_88(v: &mut Vec<ClassUnicodeRange>)
    ensures
        rview(final(v)@) == rview(old(v)@) + alphabetic_chunk_88(),
{
    let ghost o = rview(v@);
    push_range(v, '\u{1E7E0}', '\u{1E7E6}');
    push_range(v, '\u{1E7E8}', '\u{1E7EB}');
    push_range(v, '\u{1E7ED}', '\u{1E7EE}');
    push_range(v, '\u{1E7F0}', '\u{1E7FE}');
    push_range(v, '\u{1E800}', '\u{1E8C4}');
    push_range(v, '\u{1E900}', '\u{1E943}');
    push_range(v, '\u{1E947}', '\u{1E947}');
    push_range(v, '\u{1E94B}', '\u{1E94B}');
    assert(rview(v@) =~= o + alphabetic_chunk_88());
}

fn push_alphabetic_chunk_89(v: &mut Vec<ClassUnicodeRange>)
    ensures
        rview(final(v)@) == rview(old(v)@) + alphabetic_chunk_89(),
{
    let ghost o = rview(v@);
    push_range(v, '\u{1EE00}', '\u{1EE03}');
    push_range(v, '\u{1EE05}', '\u{1EE1F}');
    push_range(v, '\u{1EE21}', '\u{1EE22}');
    push_range(v, '\u{1EE24}', '\u{1EE24}');
    push_range(v, '\u{1EE27}', '\u{1EE27}');
    push_range(v, '\u{1EE29}', '\u{1EE32}');
    push_range(v, '\u{1EE34}', '\u{1EE37}');
    push_range(v, '\u{1EE39}', '\u{1EE39}');
    assert(rview(v@) =~= o + alphabetic_chunk_89());
}

fn push_alphabetic_chunk_90(v: &mut Vec<ClassUnicodeRange>)
    ensures
        rview(final(v)@) == rview(old(v)@) + alphabetic_chunk_90(),
{
    let ghost o = rview(v@);
    push_range(v, '\u{1EE3B}', '\u{1EE3B}');
    push_range(v, '\u{1EE42}', '\u{1EE42}');
    push_range(v, '\u{1EE47}', '\u{1EE47}');
    push_range(v, '\u{1EE49}', '\u{1EE49}');
    push_range(v, '\u{1EE4B}', '\u{1EE4B}');
    push_range(v, '\u{1EE4D}', '\u{1EE4F}');
    push_range(v, '\u{1EE51}', '\u{1EE52}');
    push_range(v, '\u{1EE54}', '\u{1EE54}');
    assert(rview(v@) =~= o + alphabetic_chunk_90());
}

fn push_alphabetic_chunk_91(v: &mut Vec<ClassUnicodeRange>)
    ensures
        rview(final(v)@) == rview(old(v)@) + alphabetic_chunk_91(),
{
    let ghost o = rview(v@);
    push_range(v, '\u{1EE57}', '\u{1EE57}');
    push_range(v, '\u{1EE59}', '\u{1EE59}');
    push_range(v, '\u{1EE5B}', '\u{1EE5B}');
    push_range(v, '\u{1EE5D}', '\u{1EE5D}');
    push_range(v, '\u{1EE5F}', '\u{1EE5F}');
    push_range(v, '\u{1EE61}', '\u{1EE62}');
    push_range(v, '\u{1EE64}', '\u{1EE64}');
    push_range(v, '\u{1EE67}', '\u{1EE6A}');
    assert(rview(v@) =~= o + alphabetic_chunk_91());
}

fn push_alphabetic_chunk_92(v: &mut Vec<ClassUnicodeRange>)
    ensures
        rview(final(v)@) == rview(old(v)@) + alphabetic_chunk_92(),
{
    let ghost o = rview(v@);
    push_range(v, '\u{1EE6C}', '\u{1EE72}');
    push_range(v, '\u{1EE74}', '\u{1EE77}');
    push_range(v, '\u{1EE79}', '\u{1EE7C}');
    push_range(v, '\u{1EE7E}', '\u{1EE7E}');
    push_range(v, '\u{1EE80}', '\u{1EE89}');
    push_range(v, '\u{1EE8B}', '\u{1EE9B}');
    push_range(v, '\u{1EEA1}', '\u{1EEA3}');
    push_range(v, '\u{1EEA5}', '\u{1EEA9}');
    assert(rview(v@) =~= o + alphabetic_chunk_92());
}

fn push_alphabetic_chunk_93(v: &mut Vec<ClassUnicodeRange>)
    ensures
        rview(final(v)@) == rview(old(v)@) + alphabetic_chunk_93(),
{
    let ghost o = rview(v@);
    push_range(v, '\u{1EEAB}', '\u{1EEBB}');
    push_range(v, '\u{1F130}', '\u{1F149}');
    push_range(v, '\u{1F150}', '\u{1F169}');
    push_range(v, '\u{1F170}', '\u{1F189}');
    push_range(v, '\u{20000}', '\u{2A6DF}');
    push_range(v, '\u{2A700}', '\u{2B739}');
    push_range(v, '\u{2B740}', '\u{2B81D}');
    push_range(v, '\u{2B820}', '\u{2CEA1}');
    assert(rview(v@) =~= o + alphabetic_chunk_93());
}

fn push_alphabetic_chunk_94(v: &mut Vec<ClassUnicodeRange>)
    ensures
        rview(final(v)@) == rview(old(v)@) + alphabetic_chunk_94(),
{
    let ghost o = rview(v@);
    push_range(v, '\u{2CEB0}', '\u{2EBE0}');
    push_range(v, '\u{2EBF0}', '\u{2EE5D}');
    push_range(v, '\u{2F800}', '\u{2FA1D}');
    push_range(v, '\u{30000}', '\u{3134A}');
    push_range(v, '\u{31350}', '\u{323AF}');
    assert(rview(v@) =~= o + alphabetic_chunk_94());
}

fn push_alphabetic_block_0(v: &mut Vec<ClassUnicodeRange>)
    ensures
        rview(final(v)@) == rview(old(v)@) + alphabetic_block_0(),
{
    let ghost o = rview(v@);
    push_alphabetic_chunk_0(v);
    assert(rview(v@) =~= o + (alphabetic_chunk_0()));
    push_alphabetic_chunk_1(v);
    assert(rview(v@) =~= o + (alphabetic_chunk_0() + alphabetic_chunk_1()));
    push_alphabetic_chunk_2(v);
    assert(rview(v@) =~= o + (alphabetic_chunk_0() + alphabetic_chunk_1() + alphabetic_chunk_2()));
    push_alphabetic_chunk_3(v);
    assert(rview(v@) =~= o + (alphabetic_chunk_0() + alphabetic_chunk_1() + alphabetic_chunk_2() + alphabetic_chunk_3()));
    push_alphabetic_chunk_4(v);
    assert(rview(v@) =~= o + (alphabetic_chunk_0() + alphabetic_chunk_1() + alphabetic_chunk_2() + alphabetic_chunk_3() + alphabetic_chunk_4()));
    push_alphabetic_chunk_5(v);
    assert(rview(v@) =~= o + (alphabetic_chunk_0() + alphabetic_chunk_1() + alphabetic_chunk_2() + alphabetic_chunk_3() + alphabetic_chunk_4() + alphabetic_chunk_5()));
    push_alphabetic_chunk_6(v);
    assert(rview(v@) =~= o + (alphabetic_chunk_0() + alphabetic_chunk_1() + alphabetic_chunk_2() + alphabetic_chunk_3() + alphabetic_chunk_4() + alphabetic_chunk_5() + alphabetic_chunk_6()));
    push_alphabetic_chunk_7(v);
    assert(rview(v@) =~= o + (alphabetic_chunk_0() + alphabetic_chunk_1() + alphabetic_chunk_2() + alphabetic_chunk_3() + alphabetic_chunk_4() + alphabetic_chunk_5() + alphabetic_chunk_6() + alphabetic_chunk_7()));
    push_alphabetic_chunk_8(v);
    assert(rview(v@) =~= o + (alphabetic_chunk_0() + alphabetic_chunk_1() + alphabetic_chunk_2() + alphabetic_chunk_3() + alphabetic_chunk_4() + alphabetic_chunk_5() + alphabetic_chunk_6() + alphabetic_chunk_7() + alphabetic_chunk_8()));
    push_alphabetic_chunk_9(v);
    assert(rview(v@) =~= o + (alphabetic_chunk_0() + alphabetic_chunk_1() + alphabetic_chunk_2() + alphabetic_chunk_3() + alphabetic_chunk_4() + alphabetic_chunk_5() + alphabetic_chunk_6() + alphabetic_chunk_7() + alphabetic_chunk_8() + alphabetic_chunk_9()));
}

fn push_alphabetic_block_1(v: &mut Vec<ClassUnicodeRange>)
    ensures
        rview(final(v)@) == rview(old(v)@) + alphabetic_block_1(),
{
    let ghost o = rview(v@);
    push_alphabetic_chunk_10(v);
    assert(rview(v@) =~= o + (alphabetic_chunk_10()));
    push_alphabetic_chunk_11(v);
    assert(rview(v@) =~= o + (alphabetic_chunk_10() + alphabetic_chunk_11()));
    push_alphabetic_chunk_12(v);
    assert(rview(v@) =~= o + (alphabetic_chunk_10() + alphabetic_chunk_11() + alphabetic_chunk_12()));
    push_alphabetic_chunk_13(v);
    assert(rview(v@) =~= o + (alphabetic_chunk_10() + alphabetic_chunk_11() + alphabetic_chunk_12() + alphabetic_chunk_13()));
    push_alphabetic_chunk_14(v);
    assert(rview(v@) =~= o + (alphabetic_chunk_10() + alphabetic_chunk_11() + alphabetic_chunk_12() + alphabetic_chunk_13() + alphabetic_chunk_14()));
    push_alphabetic_chunk_15(v);
    assert(rview(v@) =~= o + (alphabetic_chunk_10() + alphabetic_chunk_11() + alphabetic_chunk_12() + alphabetic_chunk_13() + alphabetic_chunk_14() + alphabetic_chunk_15()));
    push_alphabetic_chunk_16(v);
    assert(rview(v@) =~= o + (alphabetic_chunk_10() + alphabetic_chunk_11() + alphabetic_chunk_12() + alphabetic_chunk_13() + alphabetic_chunk_14() + alphabetic_chunk_15() + alphabetic_chunk_16()));
    push_alphabetic_chunk_17(v);
    assert(rview(v@) =~= o + (alphabetic_chunk_10() + alphabetic_chunk_11() + alphabetic_chunk_12() + alphabetic_chunk_13() + alphabetic_chunk_14() + alphabetic_chunk_15() + alphabetic_chunk_16() + alphabetic_chunk_17()));
    push_alphabetic_chunk_18(v);
    assert(rview(v@) =~= o + (alphabetic_chunk_10() + alphabetic_chunk_11() + alphabetic_chunk_12() + alphabetic_chunk_13() + alphabetic_chunk_14() + alphabetic_chunk_15() + alphabetic_chunk_16() + alphabetic_chunk_17() + alphabetic_chunk_18()));
    push_alphabetic_chunk_19(v);
    assert(rview(v@) =~= o + (alphabetic_chunk_10() + alphabetic_chunk_11() + alphabetic_chunk_12() + alphabetic_chunk_13() + alphabetic_chunk_14() + alphabetic_chunk_15() + alphabetic_chunk_16() + alphabetic_chunk_17() + alphabetic_chunk_18() + alphabetic_chunk_19()));
}

fn push_alphabetic_block_2(v: &mut Vec<ClassUnicodeRange>)
    ensures
        rview(final(v)@) == rview(old(v)@) + alphabetic_block_2(),
{
    let ghost o = rview(v@);
    push_alphabetic_chunk_20(v);
    assert(rview(v@) =~= o + (alphabetic_chunk_20()));
    push_alphabetic_chunk_21(v);
    assert(rview(v@) =~= o + (alphabetic_chunk_20() + alphabetic_chunk_21()));
    push_alphabetic_chunk_22(v);
    assert(rview(v@) =~= o + (alphabetic_chunk_20() + alphabetic_chunk_21() + alphabetic_chunk_22()));
    push_alphabetic_chunk_23(v);
    assert(rview(v@) =~= o + (alphabetic_chunk_20() + alphabetic_chunk_21() + alphabetic_chunk_22() + alphabetic_chunk_23()));
    push_alphabetic_chunk_24(v);
    assert(rview(v@) =~= o + (alphabetic_chunk_20() + alphabetic_chunk_21() + alphabetic_chunk_22() + alphabetic_chunk_23() + alphabetic_chunk_24()));
    push_alphabetic_chunk_25(v);
    assert(rview(v@) =~= o + (alphabetic_chunk_20() + alphabetic_chunk_21() + alphabetic_chunk_22() + alphabetic_chunk_23() + alphabetic_chunk_24() + alphabetic_chunk_25()));
    push_alphabetic_chunk_26(v);
    assert(rview(v@) =~= o + (alphabetic_chunk_20() + alphabetic_chunk_21() + alphabetic_chunk_22() + alphabetic_chunk_23() + alphabetic_chunk_24() + alphabetic_chunk_25() + alphabetic_chunk_26()));
    push_alphabetic_chunk_27(v);
    assert(rview(v@) =~= o + (alphabetic_chunk_20() + alphabetic_chunk_21() + alphabetic_chunk_22() + alphabetic_chunk_23() + alphabetic_chunk_24() + alphabetic_chunk_25() + alphabetic_chunk_26() + alphabetic_chunk_27()));
    push_alphabetic_chunk_28(v);
    assert(rview(v@) =~= o + (alphabetic_chunk_20() + alphabetic_chunk_21() + alphabetic_chunk_22() + alphabetic_chunk_23() + alphabetic_chunk_24() + alphabetic_chunk_25() + alphabetic_chunk_26() + alphabetic_chunk_27() + alphabetic_chunk_28()));
    push_alphabetic_chunk_29(v);
    assert(rview(v@) =~= o + (alphabetic_chunk_20() + alphabetic_chunk_21() + alphabetic_chunk_22() + alphabetic_chunk_23() + alphabetic_chunk_24() + alphabetic_chunk_25() + alphabetic_chunk_26() + alphabetic_chunk_27() + alphabetic_chunk_28() + alphabetic_chunk_29()));
}

fn push_alphabetic_block_3(v: &mut Vec<ClassUnicodeRange>)
    ensures
        rview(final(v)@) == rview(old(v)@) + alphabetic_block_3(),
{
    let ghost o = rview(v@);
    push_alphabetic_chunk_30(v);
    assert(rview(v@) =~= o + (alphabetic_chunk_30()));
    push_alphabetic_chunk_31(v);
    assert(rview(v@) =~= o + (alphabetic_chunk_30() + alphabetic_chunk_31()));
    push_alphabetic_chunk_32(v);
    assert(rview(v@) =~= o + (alphabetic_chunk_30() + alphabetic_chunk_31() + alphabetic_chunk_32()));
    push_alphabetic_chunk_33(v);
    assert(rview(v@) =~= o + (alphabetic_chunk_30() + alphabetic_chunk_31() + alphabetic_chunk_32() + alphabetic_chunk_33()));
    push_alphabetic_chunk_34(v);
    assert(rview(v@) =~= o + (alphabetic_chunk_30() + alphabetic_chunk_31() + alphabetic_chunk_32() + alphabetic_chunk_33() + alphabetic_chunk_34()));
    push_alphabetic_chunk_35(v);
    assert(rview(v@) =~= o + (alphabetic_chunk_30() + alphabetic_chunk_31() + alphabetic_chunk_32() + alphabetic_chunk_33() + alphabetic_chunk_34() + alphabetic_chunk_35()));
    push_alphabetic_chunk_36(v);
    assert(rview(v@) =~= o + (alphabetic_chunk_30() + alphabetic_chunk_31() + alphabetic_chunk_32() + alphabetic_chunk_33() + alphabetic_chunk_34() + alphabetic_chunk_35() + alphabetic_chunk_36()));
    push_alphabetic_chunk_37(v);
    assert(rview(v@) =~= o + (alphabetic_chunk_30() + alphabetic_chunk_31() + alphabetic_chunk_32() + alphabetic_chunk_33() + alphabetic_chunk_34() + alphabetic_chunk_35() + alphabetic_chunk_36() + alphabetic_chunk_37()));
    push_alphabetic_chunk_38(v);
    assert(rview(v@) =~= o + (alphabetic_chunk_30() + alphabetic_chunk_31() + alphabetic_chunk_32() + alphabetic_chunk_33() + alphabetic_chunk_34() + alphabetic_chunk_35() + alphabetic_chunk_36() + alphabetic_chunk_37() + alphabetic_chunk_38()));
    push_alphabetic_chunk_39(v);
    assert(rview(v@) =~= o + (alphabetic_chunk_30() + alphabetic_chunk_31() + alphabetic_chunk_32() + alphabetic_chunk_33() + alphabetic_chunk_34() + alphabetic_chunk_35() + alphabetic_chunk_36() + alphabetic_chunk_37() + alphabetic_chunk_38() + alphabetic_chunk_39()));
}

fn push_alphabetic_block_4(v: &mut Vec<ClassUnicodeRange>)
    ensures
        rview(final(v)@) == rview(old(v)@) + alphabetic_block_4(),
{
    let ghost o = rview(v@);
    push_alphabetic_chunk_40(v);
    assert(rview(v@) =~= o + (alphabetic_chunk_40()));
    push_alphabetic_chunk_41(v);
    assert(rview(v@) =~= o + (alphabetic_chunk_40() + alphabetic_chunk_41()));
    push_alphabetic_chunk_42(v);
    assert(rview(v@) =~= o + (alphabetic_chunk_40() + alphabetic_chunk_41() + alphabetic_chunk_42()));
    push_alphabetic_chunk_43(v);
    assert(rview(v@) =~= o + (alphabetic_chunk_40() + alphabetic_chunk_41() + alphabetic_chunk_42() + alphabetic_chunk_43()));
    push_alphabetic_chunk_44(v);
    assert(rview(v@) =~= o + (alphabetic_chunk_40() + alphabetic_chunk_41() + alphabetic_chunk_42() + alphabetic_chunk_43() + alphabetic_chunk_44()));
    push_alphabetic_chunk_45(v);
    assert(rview(v@) =~= o + (alphabetic_chunk_40() + alphabetic_chunk_41() + alphabetic_chunk_42() + alphabetic_chunk_43() + alphabetic_chunk_44() + alphabetic_chunk_45()));
    push_alphabetic_chunk_46(v);
    assert(rview(v@) =~= o + (alphabetic_chunk_40() + alphabetic_chunk_41() + alphabetic_chunk_42() + alphabetic_chunk_43() + alphabetic_chunk_44() + alphabetic_chunk_45() + alphabetic_chunk_46()));
    push_alphabetic_chunk_47(v);
    assert(rview(v@) =~= o + (alphabetic_chunk_40() + alphabetic_chunk_41() + alphabetic_chunk_42() + alphabetic_chunk_43() + alphabetic_chunk_44() + alphabetic_chunk_45() + alphabetic_chunk_46() + alphabetic_chunk_47()));
    push_alphabetic_chunk_48(v);
    assert(rview(v@) =~= o + (alphabetic_chunk_40() + alphabetic_chunk_41() + alphabetic_chunk_42() + alphabetic_chunk_43() + alphabetic_chunk_44() + alphabetic_chunk_45() + alphabetic_chunk_46() + alphabetic_chunk_47() + alphabetic_chunk_48()));
    push_alphabetic_chunk_49(v);
    assert(rview(v@) =~= o + (alphabetic_chunk_40() + alphabetic_chunk_41() + alphabetic_chunk_42() + alphabetic_chunk_43() + alphabetic_chunk_44() + alphabetic_chunk_45() + alphabetic_chunk_46() + alphabetic_chunk_47() + alphabetic_chunk_48() + alphabetic_chunk_49()));
}

fn push_alphabetic_block_5(v: &mut Vec<ClassUnicodeRange>)
    ensures
        rview(final(v)@) == rview(old(v)@) + alphabetic_block_5(),
{
    let ghost o = rview(v@);
    push_alphabetic_chunk_50(v);
    assert(rview(v@) =~= o + (alphabetic_chunk_50()));
    push_alphabetic_chunk_51(v);
    assert(rview(v@) =~= o + (alphabetic_chunk_50() + alphabetic_chunk_51()));
    push_alphabetic_chunk_52(v);
    assert(rview(v@) =~= o + (alphabetic_chunk_50() + alphabetic_chunk_51() + alphabetic_chunk_52()));
    push_alphabetic_chunk_53(v);
    assert(rview(v@) =~= o + (alphabetic_chunk_50() + alphabetic_chunk_51() + alphabetic_chunk_52() + alphabetic_chunk_53()));
    push_alphabetic_chunk_54(v);
    assert(rview(v@) =~= o + (alphabetic_chunk_50() + alphabetic_chunk_51() + alphabetic_chunk_52() + alphabetic_chunk_53() + alphabetic_chunk_54()));
    push_alphabetic_chunk_55(v);
    assert(rview(v@) =~= o + (alphabetic_chunk_50() + alphabetic_chunk_51() + alphabetic_chunk_52() + alphabetic_chunk_53() + alphabetic_chunk_54() + alphabetic_chunk_55()));
    push_alphabetic_chunk_56(v);
    assert(rview(v@) =~= o + (alphabetic_chunk_50() + alphabetic_chunk_51() + alphabetic_chunk_52() + alphabetic_chunk_53() + alphabetic_chunk_54() + alphabetic_chunk_55() + alphabetic_chunk_56()));
    push_alphabetic_chunk_57(v);
    assert(rview(v@) =~= o + (alphabetic_chunk_50() + alphabetic_chunk_51() + alphabetic_chunk_52() + alphabetic_chunk_53() + alphabetic_chunk_54() + alphabetic_chunk_55() + alphabetic_chunk_56() + alphabetic_chunk_57()));
    push_alphabetic_chunk_58(v);
    assert(rview(v@) =~= o + (alphabetic_chunk_50() + alphabetic_chunk_51() + alphabetic_chunk_52() + alphabetic_chunk_53() + alphabetic_chunk_54() + alphabetic_chunk_55() + alphabetic_chunk_56() + alphabetic_chunk_57() + alphabetic_chunk_58()));
    push_alphabetic_chunk_59(v);
    assert(rview(v@) =~= o + (alphabetic_chunk_50() + alphabetic_chunk_51() + alphabetic_chunk_52() + alphabetic_chunk_53() + alphabetic_chunk_54() + alphabetic_chunk_55() + alphabetic_chunk_56() + alphabetic_chunk_57() + alphabetic_chunk_58() + alphabetic_chunk_59()));
}

fn push_alphabetic_block_6(v: &mut Vec<ClassUnicodeRange>)
    ensures
        rview(final(v)@) == rview(old(v)@) + alphabetic_block_6(),
{
    let ghost o = rview(v@);
    push_alphabetic_chunk_60(v);
    assert(rview(v@) =~= o + (alphabetic_chunk_60()));
    push_alphabetic_chunk_61(v);
    assert(rview(v@) =~= o + (alphabetic_chunk_60() + alphabetic_chunk_61()));
    push_alphabetic_chunk_62(v);
    assert(rview(v@) =~= o + (alphabetic_chunk_60() + alphabetic_chunk_61() + alphabetic_chunk_62()));
    push_alphabetic_chunk_63(v);
    assert(rview(v@) =~= o + (alphabetic_chunk_60() + alphabetic_chunk_61() + alphabetic_chunk_62() + alphabetic_chunk_63()));
    push_alphabetic_chunk_64(v);
    assert(rview(v@) =~= o + (alphabetic_chunk_60() + alphabetic_chunk_61() + alphabetic_chunk_62() + alphabetic_chunk_63() + alphabetic_chunk_64()));
    push_alphabetic_chunk_65(v);
    assert(rview(v@) =~= o + (alphabetic_chunk_60() + alphabetic_chunk_61() + alphabetic_chunk_62() + alphabetic_chunk_63() + alphabetic_chunk_64() + alphabetic_chunk_65()));
    push_alphabetic_chunk_66(v);
    assert(rview(v@) =~= o + (alphabetic_chunk_60() + alphabetic_chunk_61() + alphabetic_chunk_62() + alphabetic_chunk_63() + alphabetic_chunk_64() + alphabetic_chunk_65() + alphabetic_chunk_66()));
    push_alphabetic_chunk_67(v);
    assert(rview(v@) =~= o + (alphabetic_chunk_60() + alphabetic_chunk_61() + alphabetic_chunk_62() + alphabetic_chunk_63() + alphabetic_chunk_64() + alphabetic_chunk_65() + alphabetic_chunk_66() + alphabetic_chunk_67()));
    push_alphabetic_chunk_68(v);
    assert(rview(v@) =~= o + (alphabetic_chunk_60() + alphabetic_chunk_61() + alphabetic_chunk_62() + alphabetic_chunk_63() + alphabetic_chunk_64() + alphabetic_chunk_65() + alphabetic_chunk_66() + alphabetic_chunk_67() + alphabetic_chunk_68()));
    push_alphabetic_chunk_69(v);
    assert(rview(v@) =~= o + (alphabetic_chunk_60() + alphabetic_chunk_61() + alphabetic_chunk_62() + alphabetic_chunk_63() + alphabetic_chunk_64() + alphabetic_chunk_65() + alphabetic_chunk_66() + alphabetic_chunk_67() + alphabetic_chunk_68() + alphabetic_chunk_69()));
}

fn push_alphabetic_block_7(v: &mut Vec<ClassUnicodeRange>)
    ensures
        rview(final(v)@) == rview(old(v)@) + alphabetic_block_7(),
{
    let ghost o = rview(v@);
    push_alphabetic_chunk_70(v);
    assert(rview(v@) =~= o + (alphabetic_chunk_70()));
    push_alphabetic_chunk_71(v);
    assert(rview(v@) =~= o + (alphabetic_chunk_70() + alphabetic_chunk_71()));
    push_alphabetic_chunk_72(v);
    assert(rview(v@) =~= o + (alphabetic_chunk_70() + alphabetic_chunk_71() + alphabetic_chunk_72()));
    push_alphabetic_chunk_73(v);
    assert(rview(v@) =~= o + (alphabetic_chunk_70() + alphabetic_chunk_71() + alphabetic_chunk_72() + alphabetic_chunk_73()));
    push_alphabetic_chunk_74(v);
    assert(rview(v@) =~= o + (alphabetic_chunk_70() + alphabetic_chunk_71() + alphabetic_chunk_72() + alphabetic_chunk_73() + alphabetic_chunk_74()));
    push_alphabetic_chunk_75(v);
    assert(rview(v@) =~= o + (alphabetic_chunk_70() + alphabetic_chunk_71() + alphabetic_chunk_72() + alphabetic_chunk_73() + alphabetic_chunk_74() + alphabetic_chunk_75()));
    push_alphabetic_chunk_76(v);
    assert(rview(v@) =~= o + (alphabetic_chunk_70() + alphabetic_chunk_71() + alphabetic_chunk_72() + alphabetic_chunk_73() + alphabetic_chunk_74() + alphabetic_chunk_75() + alphabetic_chunk_76()));
    push_alphabetic_chunk_77(v);
    assert(rview(v@) =~= o + (alphabetic_chunk_70() + alphabetic_chunk_71() + alphabetic_chunk_72() + alphabetic_chunk_73() + alphabetic_chunk_74() + alphabetic_chunk_75() + alphabetic_chunk_76() + alphabetic_chunk_77()));
    push_alphabetic_chunk_78(v);
    assert(rview(v@) =~= o + (alphabetic_chunk_70() + alphabetic_chunk_71() + alphabetic_chunk_72() + alphabetic_chunk_73() + alphabetic_chunk_74() + alphabetic_chunk_75() + alphabetic_chunk_76() + alphabetic_chunk_77() + alphabetic_chunk_78()));
    push_alphabetic_chunk_79(v);
    assert(rview(v@) =~= o + (alphabetic_chunk_70() + alphabetic_chunk_71() + alphabetic_chunk_72() + alphabetic_chunk_73() + alphabetic_chunk_74() + alphabetic_chunk_75() + alphabetic_chunk_76() + alphabetic_chunk_77() + alphabetic_chunk_78() + alphabetic_chunk_79()));
}

fn push_alphabetic_block_8(v: &mut Vec<ClassUnicodeRange>)
    ensures
        rview(final(v)@) == rview(old(v)@) + alphabetic_block_8(),
{
    let ghost o = rview(v@);
    push_alphabetic_chunk_80(v);
    assert(rview(v@) =~= o + (alphabetic_chunk_80()));
    push_alphabetic_chunk_81(v);
    assert(rview(v@) =~= o + (alphabetic_chunk_80() + alphabetic_chunk_81()));
    push_alphabetic_chunk_82(v);
    assert(rview(v@) =~= o + (alphabetic_chunk_80() + alphabetic_chunk_81() + alphabetic_chunk_82()));
    push_alphabetic_chunk_83(v);
    assert(rview(v@) =~= o + (alphabetic_chunk_80() + alphabetic_chunk_81() + alphabetic_chunk_82() + alphabetic_chunk_83()));
    push_alphabetic_chunk_84(v);
    assert(rview(v@) =~= o + (alphabetic_chunk_80() + alphabetic_chunk_81() + alphabetic_chunk_82() + alphabetic_chunk_83() + alphabetic_chunk_84()));
    push_alphabetic_chunk_85(v);
    assert(rview(v@) =~= o + (alphabetic_chunk_80() + alphabetic_chunk_81() + alphabetic_chunk_82() + alphabetic_chunk_83() + alphabetic_chunk_84() + alphabetic_chunk_85()));
    push_alphabetic_chunk_86(v);
    assert(rview(v@) =~= o + (alphabetic_chunk_80() + alphabetic_chunk_81() + alphabetic_chunk_82() + alphabetic_chunk_83() + alphabetic_chunk_84() + alphabetic_chunk_85() + alphabetic_chunk_86()));
    push_alphabetic_chunk_87(v);
    assert(rview(v@) =~= o + (alphabetic_chunk_80() + alphabetic_chunk_81() + alphabetic_chunk_82() + alphabetic_chunk_83() + alphabetic_chunk_84() + alphabetic_chunk_85() + alphabetic_chunk_86() + alphabetic_chunk_87()));
    push_alphabetic_chunk_88(v);
    assert(rview(v@) =~= o + (alphabetic_chunk_80() + alphabetic_chunk_81() + alphabetic_chunk_82() + alphabetic_chunk_83() + alphabetic_chunk_84() + alphabetic_chunk_85() + alphabetic_chunk_86() + alphabetic_chunk_87() + alphabetic_chunk_88()));
    push_alphabetic_chunk_89(v);
    assert(rview(v@) =~= o + (alphabetic_chunk_80() + alphabetic_chunk_81() + alphabetic_chunk_82() + alphabetic_chunk_83() + alphabetic_chunk_84() + alphabetic_chunk_85() + alphabetic_chunk_86() + alphabetic_chunk_87() + alphabetic_chunk_88() + alphabetic_chunk_89()));
}

fn push_alphabetic_block_9(v: &mut Vec<ClassUnicodeRange>)
    ensures
        rview(final(v)@) == rview(old(v)@) + alphabetic_block_9(),
{
    let ghost o = rview(v@);
    push_alphabetic_chunk_90(v);
    assert(rview(v@) =~= o + (alphabetic_chunk_90()));
    push_alphabetic_chunk_91(v);
    assert(rview(v@) =~= o + (alphabetic_chunk_90() + alphabetic_chunk_91()));
    push_alphabetic_chunk_92(v);
    assert(rview(v@) =~= o + (alphabetic_chunk_90() + alphabetic_chunk_91() + alphabetic_chunk_92()));
    push_alphabetic_chunk_93(v);
    assert(rview(v@) =~= o + (alphabetic_chunk_90() + alphabetic_chunk_91() + alphabetic_chunk_92() + alphabetic_chunk_93()));
    push_alphabetic_chunk_94(v);
    assert(rview(v@) =~= o + (alphabetic_chunk_90() + alphabetic_chunk_91() + alphabetic_chunk_92() + alphabetic_chunk_93() + alphabetic_chunk_94()));
}

pub fn alphabetic_class() -> (v: Vec<ClassUnicodeRange>)
    ensures
        rview(v@) == alphabetic_ranges(),
{
    let mut v: Vec<ClassUnicodeRange> = Vec::new();
    assert(rview(v@) =~= Seq::<SRange>::empty());
    push_alphabetic_block_0(&mut v);
    assert(rview(v@) =~= alphabetic_block_0());
    push_alphabetic_block_1(&mut v);
    assert(rview(v@) =~= alphabetic_block_0() + alphabetic_block_1());
    push_alphabetic_block_2(&mut v);
    assert(rview(v@) =~= alphabetic_block_0() + alphabetic_block_1() + alphabetic_block_2());
    push_alphabetic_block_3(&mut v);
    assert(rview(v@) =~= alphabetic_block_0() + alphabetic_block_1() + alphabetic_block_2() + alphabetic_block_3());
    push_alphabetic_block_4(&mut v);
    assert(rview(v@) =~= alphabetic_block_0() + alphabetic_block_1() + alphabetic_block_2() + alphabetic_block_3() + alphabetic_block_4());
    push_alphabetic_block_5(&mut v);
    assert(rview(v@) =~= alphabetic_block_0() + alphabetic_block_1() + alphabetic_block_2() + alphabetic_block_3() + alphabetic_block_4() + alphabetic_block_5());
    push_alphabetic_block_6(&mut v);
    assert(rview(v@) =~= alphabetic_block_0() + alphabetic_block_1() + alphabetic_block_2() + alphabetic_block_3() + alphabetic_block_4() + alphabetic_block_5() + alphabetic_block_6());
    push_alphabetic_block_7(&mut v);
    assert(rview(v@) =~= alphabetic_block_0() + alphabetic_block_1() + alphabetic_block_2() + alphabetic_block_3() + alphabetic_block_4() + alphabetic_block_5() + alphabetic_block_6() + alphabetic_block_7());
    push_alphabetic_block_8(&mut v);
    assert(rview(v@) =~= alphabetic_block_0() + alphabetic_block_1() + alphabetic_block_2() + alphabetic_block_3() + alphabetic_block_4() + alphabetic_block_5() + alphabetic_block_6() + alphabetic_block_7() + alphabetic_block_8());
    push_alphabetic_block_9(&mut v);
    assert(rview(v@) =~= alphabetic_block_0() + alphabetic_block_1() + alphabetic_block_2() + alphabetic_block_3() + alphabetic_block_4() + alphabetic_block_5() + alphabetic_block_6() + alphabetic_block_7() + alphabetic_block_8() + alphabetic_block_9());
    v
}

pub open spec fn bidi_control_chunk_0() -> Seq<SRange> {
    seq![(0x61Cint, 0x61Cint), (0x200Eint, 0x200Fint), (0x202Aint, 0x202Eint), (0x2066int, 0x2069int)]
}

/// The ranges of the property Bidi_Control.
pub open spec fn bidi_control_ranges() -> Seq<SRange> {
    bidi_control_chunk_0()
}

pub proof fn lemma_bidi_control_canonical()
    ensures
        canonical(bidi_control_ranges()),
{
    reveal_with_fuel(canonical, 9);
    assert(canonical(bidi_control_chunk_0()));
}

fn push_bidi_control_chunk_0(v: &mut Vec<ClassUnicodeRange>)
    ensures
        rview(final(v)@) == rview(old(v)@) + bidi_control_chunk_0(),
{
    let ghost o = rview(v@);
    push_range(v, '\u{61C}', '\u{61C}');
    push_range(v, '\u{200E}', '\u{200F}');
    push_range(v, '\u{202A}', '\u{202E}');
    push_range(v, '\u{2066}', '\u{2069}');
    assert(rview(v@) =~= o + bidi_control_chunk_0());
}

pub fn bidi_control_class() -> (v: Vec<ClassUnicodeRange>)
    ensures
        rview(v@) == bidi_control_ranges(),
{
    let mut v: Vec<ClassUnicodeRange> = Vec::new();
    assert(rview(v@) =~= Seq::<SRange>::empty());
    push_bidi_control_chunk_0(&mut v);
    assert(rview(v@) =~= bidi_control_chunk_0());
    v
}

pub open spec fn bidi_mirrored_chunk_0() -> Seq<SRange> {
    seq![(0x28int, 0x29int), (0x3Cint, 0x3Cint), (0x3Eint, 0x3Eint), (0x5Bint, 0x5Bint), (0x5Dint, 0x5Dint), (0x7Bint, 0x7Bint), (0x7Dint, 0x7Dint), (0xABint, 0xABint)]
}

pub open spec fn bidi_mirrored_chunk_1() -> Seq<SRange> {
    seq![(0xBBint, 0xBBint), (0xF3Aint, 0xF3Dint), (0x169Bint, 0x169Cint), (0x2039int, 0x203Aint), (0x2045int, 0x2046int), (0x207Dint, 0x207Eint), (0x208Dint, 0x208Eint), (0x2140int, 0x2140int)]
}

pub open spec fn bidi_mirrored_chunk_2() -> Seq<SRange> {
    seq![(0x2201int, 0x2204int), (0x2208int, 0x220Dint), (0x2211int, 0x2211int), (0x2215int, 0x2216int), (0x221Aint, 0x221Dint), (0x221Fint, 0x2222int), (0x2224int, 0x2224int), (0x2226int, 0x2226int)]
}

pub open spec fn bidi_mirrored_chunk_3() -> Seq<SRange> {
    seq![(0x222Bint, 0x2233int), (0x2239int, 0x2239int), (0x223Bint, 0x224Cint), (0x2252int, 0x2255int), (0x225Fint, 0x2260int), (0x2262int, 0x2262int), (0x2264int, 0x226Bint), (0x226Dint, 0x228Cint)]
}

pub open spec fn bidi_mirrored_chunk_4() -> Seq<SRange> {
    seq![(0x228Fint, 0x2292int), (0x2298int, 0x2298int), (0x22A2int, 0x22A3int), (0x22A6int, 0x22B8int), (0x22BEint, 0x22BFint), (0x22C9int, 0x22CDint), (0x22D0int, 0x22D1int), (0x22D6int, 0x22EDint)]
}

pub open spec fn bidi_mirrored_chunk_5() -> Seq<SRange> {
    seq![(0x22F0int, 0x22FFint), (0x2308int, 0x230Bint), (0x2320int, 0x2321int), (0x2329int, 0x232Aint), (0x2768int, 0x2775int), (0x27C0int, 0x27C0int), (0x27C3int, 0x27C6int), (0x27C8int, 0x27C9int)]
}

pub open spec fn bidi_mirrored_chunk_6() -> Seq<SRange> {
    seq![(0x27CBint, 0x27CDint), (0x27D3int, 0x27D6int), (0x27DCint, 0x27DEint), (0x27E2int, 0x27EFint), (0x2983int, 0x2998int), (0x299Bint, 0x29A0int), (0x29A2int, 0x29AFint), (0x29B8int, 0x29B8int)]
}

pub open spec fn bidi_mirrored_chunk_7() -> Seq<SRange> {
    seq![(0x29C0int, 0x29C5int), (0x29C9int, 0x29C9int), (0x29CEint, 0x29D2int), (0x29D4int, 0x29D5int), (0x29D8int, 0x29DCint), (0x29E1int, 0x29E1int), (0x29E3int, 0x29E5int), (0x29E8int, 0x29E9int)]
}

pub open spec fn bidi_mirrored_chunk_8() -> Seq<SRange> {
    seq![(0x29F4int, 0x29F9int), (0x29FCint, 0x29FDint), (0x2A0Aint, 0x2A1Cint), (0x2A1Eint, 0x2A21int), (0x2A24int, 0x2A24int), (0x2A26int, 0x2A26int), (0x2A29int, 0x2A29int), (0x2A2Bint, 0x2A2Eint)]
}

pub open spec fn bidi_mirrored_chunk_9() -> Seq<SRange> {
    seq![(0x2A34int, 0x2A35int), (0x2A3Cint, 0x2A3Eint), (0x2A57int, 0x2A58int), (0x2A64int, 0x2A65int), (0x2A6Aint, 0x2A6Dint), (0x2A6Fint, 0x2A70int), (0x2A73int, 0x2A74int), (0x2A79int, 0x2AA3int)]
}

pub open spec fn bidi_mirrored_chunk_10() -> Seq<SRange> {
    seq![(0x2AA6int, 0x2AADint), (0x2AAFint, 0x2AD6int), (0x2ADCint, 0x2ADCint), (0x2ADEint, 0x2ADEint), (0x2AE2int, 0x2AE6int), (0x2AECint, 0x2AEEint), (0x2AF3int, 0x2AF3int), (0x2AF7int, 0x2AFBint)]
}

pub open spec fn bidi_mirrored_chunk_11() -> Seq<SRange> {
    seq![(0x2AFDint, 0x2AFDint), (0x2BFEint, 0x2BFEint), (0x2E02int, 0x2E05int), (0x2E09int, 0x2E0Aint), (0x2E0Cint, 0x2E0Dint), (0x2E1Cint, 0x2E1Dint), (0x2E20int, 0x2E29int), (0x2E55int, 0x2E5Cint)]
}

pub open spec fn bidi_mirrored_chunk_12() -> Seq<SRange> {
    seq![(0x3008int, 0x3011int), (0x3014int, 0x301Bint), (0xFE59int, 0xFE5Eint), (0xFE64int, 0xFE65int), (0xFF08int, 0xFF09int), (0xFF1Cint, 0xFF1Cint), (0xFF1Eint, 0xFF1Eint), (0xFF3Bint, 0xFF3Bint)]
}

pub open spec fn bidi_mirrored_chunk_13() -> Seq<SRange> {
    seq![(0xFF3Dint, 0xFF3Dint), (0xFF5Bint, 0xFF5Bint), (0xFF5Dint, 0xFF5Dint), (0xFF5Fint, 0xFF60int), (0xFF62int, 0xFF63int), (0x1D6DBint, 0x1D6DBint), (0x1D715int, 0x1D715int), (0x1D74Fint, 0x1D74Fint)]
}

pub open spec fn bidi_mirrored_chunk_14() -> Seq<SRange> {
    seq![(0x1D789int, 0x1D789int), (0x1D7C3int, 0x1D7C3int)]
}

pub open spec fn bidi_mirrored_block_0() -> Seq<SRange> {
    bidi_mirrored_chunk_0() + bidi_mirrored_chunk_1() + bidi_mirrored_chunk_2() + bidi_mirrored_chunk_3() + bidi_mirrored_chunk_4() + bidi_mirrored_chunk_5() + bidi_mirrored_chunk_6() + bidi_mirrored_chunk_7() + bidi_mirrored_chunk_8() + bidi_mirrored_chunk_9()
}

pub open spec fn bidi_mirrored_block_1() -> Seq<SRange> {
    bidi_mirrored_chunk_10() + bidi_mirrored_chunk_11() + bidi_mirrored_chunk_12() + bidi_mirrored_chunk_13() + bidi_mirrored_chunk_14()
}

/// The ranges of the property Bidi_Mirrored.
pub open spec fn bidi_mirrored_ranges() -> Seq<SRange> {
    bidi_mirrored_block_0() + bidi_mirrored_block_1()
}

proof fn lemma_bidi_mirrored_block_0()
    ensures
        canonical(bidi_mirrored_block_0()),
        bidi_mirrored_block_0().len() > 0,
        bidi_mirrored_block_0()[0] == bidi_mirrored_chunk_0()[0],
        bidi_mirrored_block_0().last() == bidi_mirrored_chunk_9().last(),
{
    reveal_with_fuel(canonical, 9);
    assert(canonical(bidi_mirrored_chunk_0()));
    assert(canonical(bidi_mirrored_chunk_1()));
    assert(canonical(bidi_mirrored_chunk_2()));
    assert(canonical(bidi_mirrored_chunk_3()));
    assert(canonical(bidi_mirrored_chunk_4()));
    assert(canonical(bidi_mirrored_chunk_5()));
    assert(canonical(bidi_mirrored_chunk_6()));
    assert(canonical(bidi_mirrored_chunk_7()));
    assert(canonical(bidi_mirrored_chunk_8()));
    assert(canonical(bidi_mirrored_chunk_9()));
    lemma_canonical_append(bidi_mirrored_chunk_0(), bidi_mirrored_chunk_1());
    lemma_canonical_append(bidi_mirrored_chunk_0() + bidi_mirrored_chunk_1(), bidi_mirrored_chunk_2());
    lemma_canonical_append(bidi_mirrored_chunk_0() + bidi_mirrored_chunk_1() + bidi_mirrored_chunk_2(), bidi_mirrored_chunk_3());
    lemma_canonical_append(bidi_mirrored_chunk_0() + bidi_mirrored_chunk_1() + bidi_mirrored_chunk_2() + bidi_mirrored_chunk_3(), bidi_mirrored_chunk_4());
    lemma_canonical_append(bidi_mirrored_chunk_0() + bidi_mirrored_chunk_1() + bidi_mirrored_chunk_2() + bidi_mirrored_chunk_3() + bidi_mirrored_chunk_4(), bidi_mirrored_chunk_5());
    lemma_canonical_append(bidi_mirrored_chunk_0() + bidi_mirrored_chunk_1() + bidi_mirrored_chunk_2() + bidi_mirrored_chunk_3() + bidi_mirrored_chunk_4() + bidi_mirrored_chunk_5(), bidi_mirrored_chunk_6());
    lemma_canonical_append(bidi_mirrored_chunk_0() + bidi_mirrored_chunk_1() + bidi_mirrored_chunk_2() + bidi_mirrored_chunk_3() + bidi_mirrored_chunk_4() + bidi_mirrored_chunk_5() + bidi_mirrored_chunk_6(), bidi_mirrored_chunk_7());
    lemma_canonical_append(bidi_mirrored_chunk_0() + bidi_mirrored_chunk_1() + bidi_mirrored_chunk_2() + bidi_mirrored_chunk_3() + bidi_mirrored_chunk_4() + bidi_mirrored_chunk_5() + bidi_mirrored_chunk_6() + bidi_mirrored_chunk_7(), bidi_mirrored_chunk_8());
    lemma_canonical_append(bidi_mirrored_chunk_0() + bidi_mirrored_chunk_1() + bidi_mirrored_chunk_2() + bidi_mirrored_chunk_3() + bidi_mirrored_chunk_4() + bidi_mirrored_chunk_5() + bidi_mirrored_chunk_6() + bidi_mirrored_chunk_7() + bidi_mirrored_chunk_8(), bidi_mirrored_chunk_9());
}

proof fn lemma_bidi_mirrored_block_1()
    ensures
        canonical(bidi_mirrored_block_1()),
        bidi_mirrored_block_1().len() > 0,
        bidi_mirrored_block_1()[0] == bidi_mirrored_chunk_10()[0],
        bidi_mirrored_block_1().last() == bidi_mirrored_chunk_14().last(),
{
    reveal_with_fuel(canonical, 9);
    assert(canonical(bidi_mirrored_chunk_10()));
    assert(canonical(bidi_mirrored_chunk_11()));
    assert(canonical(bidi_mirrored_chunk_12()));
    assert(canonical(bidi_mirrored_chunk_13()));
    assert(canonical(bidi_mirrored_chunk_14()));
    lemma_canonical_append(bidi_mirrored_chunk_10(), bidi_mirrored_chunk_11());
    lemma_canonical_append(bidi_mirrored_chunk_10() + bidi_mirrored_chunk_11(), bidi_mirrored_chunk_12());
    lemma_canonical_append(bidi_mirrored_chunk_10() + bidi_mirrored_chunk_11() + bidi_mirrored_chunk_12(), bidi_mirrored_chunk_13());
    lemma_canonical_append(bidi_mirrored_chunk_10() + bidi_mirrored_chunk_11() + bidi_mirrored_chunk_12() + bidi_mirrored_chunk_13(), bidi_mirrored_chunk_14());
}

pub proof fn lemma_bidi_mirrored_canonical()
    ensures
        canonical(bidi_mirrored_ranges()),
{
    lemma_bidi_mirrored_block_0();
    lemma_bidi_mirrored_block_1();
    lemma_canonical_append(bidi_mirrored_block_0(), bidi_mirrored_block_1());
}

fn push_bidi_mirrored_chunk_0(v: &mut Vec<ClassUnicodeRange>)
    ensures
        rview(final(v)@) == rview(old(v)@) + bidi_mirrored_chunk_0(),
{
    let ghost o = rview(v@);
    push_range(v, '\u{28}', '\u{29}');
    push_range(v, '\u{3C}', '\u{3C}');
    push_range(v, '\u{3E}', '\u{3E}');
    push_range(v, '\u{5B}', '\u{5B}');
    push_range(v, '\u{5D}', '\u{5D}');
    push_range(v, '\u{7B}', '\u{7B}');
    push_range(v, '\u{7D}', '\u{7D}');
    push_range(v, '\u{AB}', '\u{AB}');
    assert(rview(v@) =~= o + bidi_mirrored_chunk_0());
}

fn push_bidi_mirrored_chunk_1(v: &mut Vec<ClassUnicodeRange>)
    ensures
        rview(final(v)@) == rview(old(v)@) + bidi_mirrored_chunk_1(),
{
    let ghost o = rview(v@);
    push_range(v, '\u{BB}', '\u{BB}');
    push_range(v, '\u{F3A}', '\u{F3D}');
    push_range(v, '\u{169B}', '\u{169C}');
    push_range(v, '\u{2039}', '\u{203A}');
    push_range(v, '\u{2045}', '\u{2046}');
    push_range(v, '\u{207D}', '\u{207E}');
    push_range(v, '\u{208D}', '\u{208E}');
    push_range(v, '\u{2140}', '\u{2140}');
    assert(rview(v@) =~= o + bidi_mirrored_chunk_1());
}

fn push_bidi_mirrored_chunk_2(v: &mut Vec<ClassUnicodeRange>)
    ensures
        rview(final(v)@) == rview(old(v)@) + bidi_mirrored_chunk_2(),
{
    let ghost o = rview(v@);
    push_range(v, '\u{2201}', '\u{2204}');
    push_range(v, '\u{2208}', '\u{220D}');
    push_range(v, '\u{2211}', '\u{2211}');
    push_range(v, '\u{2215}', '\u{2216}');
    push_range(v, '\u{221A}', '\u{221D}');
    push_range(v, '\u{221F}', '\u{2222}');
    push_range(v, '\u{2224}', '\u{2224}');
    push_range(v, '\u{2226}', '\u{2226}');
    assert(rview(v@) =~= o + bidi_mirrored_chunk_2());
}

fn push_bidi_mirrored_chunk_3(v: &mut Vec<ClassUnicodeRange>)
    ensures
        rview(final(v)@) == rview(old(v)@) + bidi_mirrored_chunk_3(),
{
    let ghost o = rview(v@);
    push_range(v, '\u{222B}', '\u{2233}');
    push_range(v, '\u{2239}', '\u{2239}');
    push_range(v, '\u{223B}', '\u{224C}');
    push_range(v, '\u{2252}', '\u{2255}');
    push_range(v, '\u{225F}', '\u{2260}');
    push_range(v, '\u{2262}', '\u{2262}');
    push_range(v, '\u{2264}', '\u{226B}');
    push_range(v, '\u{226D}', '\u{228C}');
    assert(rview(v@) =~= o + bidi_mirrored_chunk_3());
}

fn push_bidi_mirrored_chunk_4(v: &mut Vec<ClassUnicodeRange>)
    ensures
        rview(final(v)@) == rview(old(v)@) + bidi_mirrored_chunk_4(),
{
    let ghost o = rview(v@);
    push_range(v, '\u{228F}', '\u{2292}');
    push_range(v, '\u{2298}', '\u{2298}');
    push_range(v, '\u{22A2}', '\u{22A3}');
    push_range(v, '\u{22A6}', '\u{22B8}');
    push_range(v, '\u{22BE}', '\u{22BF}');
    push_range(v, '\u{22C9}', '\u{22CD}');
    push_range(v, '\u{22D0}', '\u{22D1}');
    push_range(v, '\u{22D6}', '\u{22ED}');
    assert(rview(v@) =~= o + bidi_mirrored_chunk_4());
}

fn push_bidi_mirrored_chunk_5(v: &mut Vec<ClassUnicodeRange>)
    ensures
        rview(final(v)@) == rview(old(v)@) + bidi_mirrored_chunk_5(),
{
    let ghost o = rview(v@);
    push_range(v, '\u{22F0}', '\u{22FF}');
    push_range(v, '\u{2308}', '\u{230B}');
    push_range(v, '\u{2320}', '\u{2321}');
    push_range(v, '\u{2329}', '\u{232A}');
    push_range(v, '\u{2768}', '\u{2775}');
    push_range(v, '\u{27C0}', '\u{27C0}');
    push_range(v, '\u{27C3}', '\u{27C6}');
    push_range(v, '\u{27C8}', '\u{27C9}');
    assert(rview(v@) =~= o + bidi_mirrored_chunk_5());
}

fn push_bidi_mirrored_chunk_6(v: &mut Vec<ClassUnicodeRange>)
    ensures
        rview(final(v)@) == rview(old(v)@) + bidi_mirrored_chunk_6(),
{
    let ghost o = rview(v@);
    push_range(v, '\u{27CB}', '\u{27CD}');
    push_range(v, '\u{27D3}', '\u{27D6}');
    push_range(v, '\u{27DC}', '\u{27DE}');
    push_range(v, '\u{27E2}', '\u{27EF}');
    push_range(v, '\u{2983}', '\u{2998}');
    push_range(v, '\u{299B}', '\u{29A0}');
    push_range(v, '\u{29A2}', '\u{29AF}');
    push_range(v, '\u{29B8}', '\u{29B8}');
    assert(rview(v@) =~= o + bidi_mirrored_chunk_6());
}

fn push_bidi_mirrored_chunk_7(v: &mut Vec<ClassUnicodeRange>)
    ensures
        rview(final(v)@) == rview(old(v)@) + bidi_mirrored_chunk_7(),
{
    let ghost o = rview(v@);
    push_range(v, '\u{29C0}', '\u{29C5}');
    push_range(v, '\u{29C9}', '\u{29C9}');
    push_range(v, '\u{29CE}', '\u{29D2}');
    push_range(v, '\u{29D4}', '\u{29D5}');
    push_range(v, '\u{29D8}', '\u{29DC}');
    push_range(v, '\u{29E1}', '\u{29E1}');
    push_range(v, '\u{29E3}', '\u{29E5}');
    push_range(v, '\u{29E8}', '\u{29E9}');
    assert(rview(v@) =~= o + bidi_mirrored_chunk_7());
}

fn push_bidi_mirrored_chunk_8(v: &mut Vec<ClassUnicodeRange>)
    ensures
        rview(final(v)@) == rview(old(v)@) + bidi_mirrored_chunk_8(),
{
    let ghost o = rview(v@);
    push_range(v, '\u{29F4}', '\u{29F9}');
    push_range(v, '\u{29FC}', '\u{29FD}');
    push_range(v, '\u{2A0A}', '\u{2A1C}');
    push_range(v, '\u{2A1E}', '\u{2A21}');
    push_range(v, '\u{2A24}', '\u{2A24}');
    push_range(v, '\u{2A26}', '\u{2A26}');
    push_range(v, '\u{2A29}', '\u{2A29}');
    push_range(v, '\u{2A2B}', '\u{2A2E}');
    assert(rview(v@) =~= o + bidi_mirrored_chunk_8());
}

fn push_bidi_mirrored_chunk_9(v: &mut Vec<ClassUnicodeRange>)
    ensures
        rview(final(v)@) == rview(old(v)@) + bidi_mirrored_chunk_9(),
{
    let ghost o = rview(v@);
    push_range(v, '\u{2A34}', '\u{2A35}');
    push_range(v, '\u{2A3C}', '\u{2A3E}');
    push_range(v, '\u{2A57}', '\u{2A58}');
    push_range(v, '\u{2A64}', '\u{2A65}');
    push_range(v, '\u{2A6A}', '\u{2A6D}');
    push_range(v, '\u{2A6F}', '\u{2A70}');
    push_range(v, '\u{2A73}', '\u{2A74}');
    push_range(v, '\u{2A79}', '\u{2AA3}');
    assert(rview(v@) =~= o + bidi_mirrored_chunk_9());
}

fn push_bidi_mirrored_chunk_10(v: &mut Vec<ClassUnicodeRange>)
    ensures
        rview(final(v)@) == rview(old(v)@) + bidi_mirrored_chunk_10(),
{
    let ghost o = rview(v@);
    push_range(v, '\u{2AA6}', '\u{2AAD}');
    push_range(v, '\u{2AAF}', '\u{2AD6}');
    push_range(v, '\u{2ADC}', '\u{2ADC}');
    push_range(v, '\u{2ADE}', '\u{2ADE}');
    push_range(v, '\u{2AE2}', '\u{2AE6}');
    push_range(v, '\u{2AEC}', '\u{2AEE}');
    push_range(v, '\u{2AF3}', '\u{2AF3}');
    push_range(v, '\u{2AF7}', '\u{2AFB}');
    assert(rview(v@) =~= o + bidi_mirrored_chunk_10());
}

fn push_bidi_mirrored_chunk_11(v: &mut Vec<ClassUnicodeRange>)
    ensures
        rview(final(v)@) == rview(old(v)@) + bidi_mirrored_chunk_11(),
{
    let ghost o = rview(v@);
    push_range(v, '\u{2AFD}', '\u{2AFD}');
    push_range(v, '\u{2BFE}', '\u{2BFE}');
    push_range(v, '\u{2E02}', '\u{2E05}');
    push_range(v, '\u{2E09}', '\u{2E0A}');
    push_range(v, '\u{2E0C}', '\u{2E0D}');
    push_range(v, '\u{2E1C}', '\u{2E1D}');
    push_range(v, '\u{2E20}', '\u{2E29}');
    push_range(v, '\u{2E55}', '\u{2E5C}');
    assert(rview(v@) =~= o + bidi_mirrored_chunk_11());
}

fn push_bidi_mirrored_chunk_12(v: &mut Vec<ClassUnicodeRange>)
    ensures
        rview(final(v)@) == rview(old(v)@) + bidi_mirrored_chunk_12(),
{
    let ghost o = rview(v@);
    push_range(v, '\u{3008}', '\u{3011}');
    push_range(v, '\u{3014}', '\u{301B}');
    push_range(v, '\u{FE59}', '\u{FE5E}');
    push_range(v, '\u{FE64}', '\u{FE65}');
    push_range(v, '\u{FF08}', '\u{FF09}');
    push_range(v, '\u{FF1C}', '\u{FF1C}');
    push_range(v, '\u{FF1E}', '\u{FF1E}');
    push_range(v, '\u{FF3B}', '\u{FF3B}');
    assert(rview(v@) =~= o + bidi_mirrored_chunk_12());
}

fn push_bidi_mirrored_chunk_13(v: &mut Vec<ClassUnicodeRange>)
    ensures
        rview(final(v)@) == rview(old(v)@) + bidi_mirrored_chunk_13(),
{
    let ghost o = rview(v@);
    push_range(v, '\u{FF3D}', '\u{FF3D}');
    push_range(v, '\u{FF5B}', '\u{FF5B}');
    push_range(v, '\u{FF5D}', '\u{FF5D}');
    push_range(v, '\u{FF5F}', '\u{FF60}');
    push_range(v, '\u{FF62}', '\u{FF63}');
    push_range(v, '\u{1D6DB}', '\u{1D6DB}');
    push_range(v, '\u{1D715}', '\u{1D715}');
    push_range(v, '\u{1D74F}', '\u{1D74F}');
    assert(rview(v@) =~= o + bidi_mirrored_chunk_13());
}

fn push_bidi_mirrored_chunk_14(v: &mut Vec<ClassUnicodeRange>)
    ensures
        rview(final(v)@) == rview(old(v)@) + bidi_mirrored_chunk_14(),
{
    let ghost o = rview(v@);
    push_range(v, '\u{1D789}', '\u{1D789}');
    push_range(v, '\u{1D7C3}', '\u{1D7C3}');
    assert(rview(v@) =~= o + bidi_mirrored_chunk_14());
}

fn push_bidi_mirrored_block_0(v: &mut Vec<ClassUnicodeRange>)
    ensures
        rview(final(v)@) == rview(old(v)@) + bidi_mirrored_block_0(),
{
    let ghost o = rview(v@);
    push_bidi_mirrored_chunk_0(v);
    assert(rview(v@) =~= o + (bidi_mirrored_chunk_0()));
    push_bidi_mirrored_chunk_1(v);
    assert(rview(v@) =~= o + (bidi_mirrored_chunk_0() + bidi_mirrored_chunk_1()));
    push_bidi_mirrored_chunk_2(v);
    assert(rview(v@) =~= o + (bidi_mirrored_chunk_0() + bidi_mirrored_chunk_1() + bidi_mirrored_chunk_2()));
    push_bidi_mirrored_chunk_3(v);
    assert(rview(v@) =~= o + (bidi_mirrored_chunk_0() + bidi_mirrored_chunk_1() + bidi_mirrored_chunk_2() + bidi_mirrored_chunk_3()));
    push_bidi_mirrored_chunk_4(v);
    assert(rview(v@) =~= o + (bidi_mirrored_chunk_0() + bidi_mirrored_chunk_1() + bidi_mirrored_chunk_2() + bidi_mirrored_chunk_3() + bidi_mirrored_chunk_4()));
    push_bidi_mirrored_chunk_5(v);
    assert(rview(v@) =~= o + (bidi_mirrored_chunk_0() + bidi_mirrored_chunk_1() + bidi_mirrored_chunk_2() + bidi_mirrored_chunk_3() + bidi_mirrored_chunk_4() + bidi_mirrored_chunk_5()));
    push_bidi_mirrored_chunk_6(v);
    assert(rview(v@) =~= o + (bidi_mirrored_chunk_0() + bidi_mirrored_chunk_1() + bidi_mirrored_chunk_2() + bidi_mirrored_chunk_3() + bidi_mirrored_chunk_4() + bidi_mirrored_chunk_5() + bidi_mirrored_chunk_6()));
    push_bidi_mirrored_chunk_7(v);
    assert(rview(v@) =~= o + (bidi_mirrored_chunk_0() + bidi_mirrored_chunk_1() + bidi_mirrored_chunk_2() + bidi_mirrored_chunk_3() + bidi_mirrored_chunk_4() + bidi_mirrored_chunk_5() + bidi_mirrored_chunk_6() + bidi_mirrored_chunk_7()));
    push_bidi_mirrored_chunk_8(v);
    assert(rview(v@) =~= o + (bidi_mirrored_chunk_0() + bidi_mirrored_chunk_1() + bidi_mirrored_chunk_2() + bidi_mirrored_chunk_3() + bidi_mirrored_chunk_4() + bidi_mirrored_chunk_5() + bidi_mirrored_chunk_6() + bidi_mirrored_chunk_7() + bidi_mirrored_chunk_8()));
    push_bidi_mirrored_chunk_9(v);
    assert(rview(v@) =~= o + (bidi_mirrored_chunk_0() + bidi_mirrored_chunk_1() + bidi_mirrored_chunk_2() + bidi_mirrored_chunk_3() + bidi_mirrored_chunk_4() + bidi_mirrored_chunk_5() + bidi_mirrored_chunk_6() + bidi_mirrored_chunk_7() + bidi_mirrored_chunk_8() + bidi_mirrored_chunk_9()));
}

fn push_bidi_mirrored_block_1(v: &mut Vec<ClassUnicodeRange>)
    ensures
        rview(final(v)@) == rview(old(v)@) + bidi_mirrored_block_1(),
{
    let ghost o = rview(v@);
    push_bidi_mirrored_chunk_10(v);
    assert(rview(v@) =~= o + (bidi_mirrored_chunk_10()));
    push_bidi_mirrored_chunk_11(v);
    assert(rview(v@) =~= o + (bidi_mirrored_chunk_10() + bidi_mirrored_chunk_11()));
    push_bidi_mirrored_chunk_12(v);
    assert(rview(v@) =~= o + (bidi_mirrored_chunk_10() + bidi_mirrored_chunk_11() + bidi_mirrored_chunk_12()));
    push_bidi_mirrored_chunk_13(v);
    assert(rview(v@) =~= o + (bidi_mirrored_chunk_10() + bidi_mirrored_chunk_11() + bidi_mirrored_chunk_12() + bidi_mirrored_chunk_13()));
    push_bidi_mirrored_chunk_14(v);
    assert(rview(v@) =~= o + (bidi_mirrored_chunk_10() + bidi_mirrored_chunk_11() + bidi_mirrored_chunk_12() + bidi_mirrored_chunk_13() + bidi_mirrored_chunk_14()));
}

pub fn bidi_mirrored_class() -> (v: Vec<ClassUnicodeRange>)
    ensures
        rview(v@) == bidi_mirrored_ranges(),
{
    let mut v: Vec<ClassUnicodeRange> = Vec::new();
    assert(rview(v@) =~= Seq::<SRange>::empty());
    push_bidi_mirrored_block_0(&mut v);
    assert(rview(v@) =~= bidi_mirrored_block_0());
    push_bidi_mirrored_block_1(&mut v);
    assert(rview(v@) =~= bidi_mirrored_block_0() + bidi_mirrored_block_1());
    v
}

pub open spec fn case_ignorable_chunk_0() -> Seq<SRange> {
    seq![(0x27int, 0x27int), (0x2Eint, 0x2Eint), (0x3Aint, 0x3Aint), (0x5Eint, 0x5Eint), (0x60int, 0x60int), (0xA8int, 0xA8int), (0xADint, 0xADint), (0xAFint, 0xAFint)]
}

pub open spec fn case_ignorable_chunk_1() -> Seq<SRange> {
    seq![(0xB4int, 0xB4int), (0xB7int, 0xB8int), (0x2B0int, 0x36Fint), (0x374int, 0x375int), (0x37Aint, 0x37Aint), (0x384int, 0x385int), (0x387int, 0x387int), (0x483int, 0x489int)]
}

pub open spec fn case_ignorable_chunk_2() -> Seq<SRange> {
    seq![(0x559int, 0x559int), (0x55Fint, 0x55Fint), (0x591int, 0x5BDint), (0x5BFint, 0x5BFint), (0x5C1int, 0x5C2int), (0x5C4int, 0x5C5int), (0x5C7int, 0x5C7int), (0x5F4int, 0x5F4int)]
}

pub open spec fn case_ignorable_chunk_3() -> Seq<SRange> {
    seq![(0x600int, 0x605int), (0x610int, 0x61Aint), (0x61Cint, 0x61Cint), (0x640int, 0x640int), (0x64Bint, 0x65Fint), (0x670int, 0x670int), (0x6D6int, 0x6DDint), (0x6DFint, 0x6E8int)]
}

pub open spec fn case_ignorable_chunk_4() -> Seq<SRange> {
    seq![(0x6EAint, 0x6EDint), (0x70Fint, 0x70Fint), (0x711int, 0x711int), (0x730int, 0x74Aint), (0x7A6int, 0x7B0int), (0x7EBint, 0x7F5int), (0x7FAint, 0x7FAint), (0x7FDint, 0x7FDint)]
}

pub open spec fn case_ignorable_chunk_5() -> Seq<SRange> {
    seq![(0x816int, 0x82Dint), (0x859int, 0x85Bint), (0x888int, 0x888int), (0x890int, 0x891int), (0x897int, 0x89Fint), (0x8C9int, 0x902int), (0x93Aint, 0x93Aint), (0x93Cint, 0x93Cint)]
}

pub open spec fn case_ignorable_chunk_6() -> Seq<SRange> {
    seq![(0x941int, 0x948int), (0x94Dint, 0x94Dint), (0x951int, 0x957int), (0x962int, 0x963int), (0x971int, 0x971int), (0x981int, 0x981int), (0x9BCint, 0x9BCint), (0x9C1int, 0x9C4int)]
}

pub open spec fn case_ignorable_chunk_7() -> Seq<SRange> {
    seq![(0x9CDint, 0x9CDint), (0x9E2int, 0x9E3int), (0x9FEint, 0x9FEint), (0xA01int, 0xA02int), (0xA3Cint, 0xA3Cint), (0xA41int, 0xA42int), (0xA47int, 0xA48int), (0xA4Bint, 0xA4Dint)]
}

pub open spec fn case_ignorable_chunk_8() -> Seq<SRange> {
    seq![(0xA51int, 0xA51int), (0xA70int, 0xA71int), (0xA75int, 0xA75int), (0xA81int, 0xA82int), (0xABCint, 0xABCint), (0xAC1int, 0xAC5int), (0xAC7int, 0xAC8int), (0xACDint, 0xACDint)]
}

pub open spec fn case_ignorable_chunk_9() -> Seq<SRange> {
    seq![(0xAE2int, 0xAE3int), (0xAFAint, 0xAFFint), (0xB01int, 0xB01int), (0xB3Cint, 0xB3Cint), (0xB3Fint, 0xB3Fint), (0xB41int, 0xB44int), (0xB4Dint, 0xB4Dint), (0xB55int, 0xB56int)]
}

pub open spec fn case_ignorable_chunk_10() -> Seq<SRange> {
    seq![(0xB62int, 0xB63int), (0xB82int, 0xB82int), (0xBC0int, 0xBC0int), (0xBCDint, 0xBCDint), (0xC00int, 0xC00int), (0xC04int, 0xC04int), (0xC3Cint, 0xC3Cint), (0xC3Eint, 0xC40int)]
}

pub open spec fn case_ignorable_chunk_11() -> Seq<SRange> {
    seq![(0xC46int, 0xC48int), (0xC4Aint, 0xC4Dint), (0xC55int, 0xC56int), (0xC62int, 0xC63int), (0xC81int, 0xC81int), (0xCBCint, 0xCBCint), (0xCBFint, 0xCBFint), (0xCC6int, 0xCC6int)]
}

pub open spec fn case_ignorable_chunk_12() -> Seq<SRange> {
    seq![(0xCCCint, 0xCCDint), (0xCE2int, 0xCE3int), (0xD00int, 0xD01int), (0xD3Bint, 0xD3Cint), (0xD41int, 0xD44int), (0xD4Dint, 0xD4Dint), (0xD62int, 0xD63int), (0xD81int, 0xD81int)]
}

pub open spec fn case_ignorable_chunk_13() -> Seq<SRange> {
    seq![(0xDCAint, 0xDCAint), (0xDD2int, 0xDD4int), (0xDD6int, 0xDD6int), (0xE31int, 0xE31int), (0xE34int, 0xE3Aint), (0xE46int, 0xE4Eint), (0xEB1int, 0xEB1int), (0xEB4int, 0xEBCint)]
}

pub open spec fn case_ignorable_chunk_14() -> Seq<SRange> {
    seq![(0xEC6int, 0xEC6int), (0xEC8int, 0xECEint), (0xF18int, 0xF19int), (0xF35int, 0xF35int), (0xF37int, 0xF37int), (0xF39int, 0xF39int), (0xF71int, 0xF7Eint), (0xF80int, 0xF84int)]
}

pub open spec fn case_ignorable_chunk_15() -> Seq<SRange> {
    seq![(0xF86int, 0xF87int), (0xF8Dint, 0xF97int), (0xF99int, 0xFBCint), (0xFC6int, 0xFC6int), (0x102Dint, 0x1030int), (0x1032int, 0x1037int), (0x1039int, 0x103Aint), (0x103Dint, 0x103Eint)]
}

pub open spec fn case_ignorable_chunk_16() -> Seq<SRange> {
    seq![(0x1058int, 0x1059int), (0x105Eint, 0x1060int), (0x1071int, 0x1074int), (0x1082int, 0x1082int), (0x1085int, 0x1086int), (0x108Dint, 0x108Dint), (0x109Dint, 0x109Dint), (0x10FCint, 0x10FCint)]
}

pub open spec fn case_ignorable_chunk_17() -> Seq<SRange> {
    seq![(0x135Dint, 0x135Fint), (0x1712int, 0x1714int), (0x1732int, 0x1733int), (0x1752int, 0x1753int), (0x1772int, 0x1773int), (0x17B4int, 0x17B5int), (0x17B7int, 0x17BDint), (0x17C6int, 0x17C6int)]
}

pub open spec fn case_ignorable_chunk_18() -> Seq<SRange> {
    seq![(0x17C9int, 0x17D3int), (0x17D7int, 0x17D7int), (0x17DDint, 0x17DDint), (0x180Bint, 0x180Fint), (0x1843int, 0x1843int), (0x1885int, 0x1886int), (0x18A9int, 0x18A9int), (0x1920int, 0x1922int)]
}

pub open spec fn case_ignorable_chunk_19() -> Seq<SRange> {
    seq![(0x1927int, 0x1928int), (0x1932int, 0x1932int), (0x1939int, 0x193Bint), (0x1A17int, 0x1A18int), (0x1A1Bint, 0x1A1Bint), (0x1A56int, 0x1A56int), (0x1A58int, 0x1A5Eint), (0x1A60int, 0x1A60int)]
}

pub open spec fn case_ignorable_chunk_20() -> Seq<SRange> {
    seq![(0x1A62int, 0x1A62int), (0x1A65int, 0x1A6Cint), (0x1A73int, 0x1A7Cint), (0x1A7Fint, 0x1A7Fint), (0x1AA7int, 0x1AA7int), (0x1AB0int, 0x1ACEint), (0x1B00int, 0x1B03int), (0x1B34int, 0x1B34int)]
}

pub open spec fn case_ignorable_chunk_21() -> Seq<SRange> {
    seq![(0x1B36int, 0x1B3Aint), (0x1B3Cint, 0x1B3Cint), (0x1B42int, 0x1B42int), (0x1B6Bint, 0x1B73int), (0x1B80int, 0x1B81int), (0x1BA2int, 0x1BA5int), (0x1BA8int, 0x1BA9int), (0x1BABint, 0x1BADint)]
}

pub open spec fn case_ignorable_chunk_22() -> Seq<SRange> {
    seq![(0x1BE6int, 0x1BE6int), (0x1BE8int, 0x1BE9int), (0x1BEDint, 0x1BEDint), (0x1BEFint, 0x1BF1int), (0x1C2Cint, 0x1C33int), (0x1C36int, 0x1C37int), (0x1C78int, 0x1C7Dint), (0x1CD0int, 0x1CD2int)]
}

pub open spec fn case_ignorable_chunk_23() -> Seq<SRange> {
    seq![(0x1CD4int, 0x1CE0int), (0x1CE2int, 0x1CE8int), (0x1CEDint, 0x1CEDint), (0x1CF4int, 0x1CF4int), (0x1CF8int, 0x1CF9int), (0x1D2Cint, 0x1D6Aint), (0x1D78int, 0x1D78int), (0x1D9Bint, 0x1DFFint)]
}

pub open spec fn case_ignorable_chunk_24() -> Seq<SRange> {
    seq![(0x1FBDint, 0x1FBDint), (0x1FBFint, 0x1FC1int), (0x1FCDint, 0x1FCFint), (0x1FDDint, 0x1FDFint), (0x1FEDint, 0x1FEFint), (0x1FFDint, 0x1FFEint), (0x200Bint, 0x200Fint), (0x2018int, 0x2019int)]
}

pub open spec fn case_ignorable_chunk_25() -> Seq<SRange> {
    seq![(0x2024int, 0x2024int), (0x2027int, 0x2027int), (0x202Aint, 0x202Eint), (0x2060int, 0x2064int), (0x2066int, 0x206Fint), (0x2071int, 0x2071int), (0x207Fint, 0x207Fint), (0x2090int, 0x209Cint)]
}

pub open spec fn case_ignorable_chunk_26() -> Seq<SRange> {
    seq![(0x20D0int, 0x20F0int), (0x2C7Cint, 0x2C7Dint), (0x2CEFint, 0x2CF1int), (0x2D6Fint, 0x2D6Fint), (0x2D7Fint, 0x2D7Fint), (0x2DE0int, 0x2DFFint), (0x2E2Fint, 0x2E2Fint), (0x3005int, 0x3005int)]
}

pub open spec fn case_ignorable_chunk_27() -> Seq<SRange> {
    seq![(0x302Aint, 0x302Dint), (0x3031int, 0x3035int), (0x303Bint, 0x303Bint), (0x3099int, 0x309Eint), (0x30FCint, 0x30FEint), (0xA015int, 0xA015int), (0xA4F8int, 0xA4FDint), (0xA60Cint, 0xA60Cint)]
}

pub open spec fn case_ignorable_chunk_28() -> Seq<SRange> {
    seq![(0xA66Fint, 0xA672int), (0xA674int, 0xA67Dint), (0xA67Fint, 0xA67Fint), (0xA69Cint, 0xA69Fint), (0xA6F0int, 0xA6F1int), (0xA700int, 0xA721int), (0xA770int, 0xA770int), (0xA788int, 0xA78Aint)]
}

pub open spec fn case_ignorable_chunk_29() -> Seq<SRange> {
    seq![(0xA7F2int, 0xA7F4int), (0xA7F8int, 0xA7F9int), (0xA802int, 0xA802int), (0xA806int, 0xA806int), (0xA80Bint, 0xA80Bint), (0xA825int, 0xA826int), (0xA82Cint, 0xA82Cint), (0xA8C4int, 0xA8C5int)]
}

pub open spec fn case_ignorable_chunk_30() -> Seq<SRange> {
    seq![(0xA8E0int, 0xA8F1int), (0xA8FFint, 0xA8FFint), (0xA926int, 0xA92Dint), (0xA947int, 0xA951int), (0xA980int, 0xA982int), (0xA9B3int, 0xA9B3int), (0xA9B6int, 0xA9B9int), (0xA9BCint, 0xA9BDint)]
}

pub open spec fn case_ignorable_chunk_31() -> Seq<SRange> {
    seq![(0xA9CFint, 0xA9CFint), (0xA9E5int, 0xA9E6int), (0xAA29int, 0xAA2Eint), (0xAA31int, 0xAA32int), (0xAA35int, 0xAA36int), (0xAA43int, 0xAA43int), (0xAA4Cint, 0xAA4Cint), (0xAA70int, 0xAA70int)]
}

pub open spec fn case_ignorable_chunk_32() -> Seq<SRange> {
    seq![(0xAA7Cint, 0xAA7Cint), (0xAAB0int, 0xAAB0int), (0xAAB2int, 0xAAB4int), (0xAAB7int, 0xAAB8int), (0xAABEint, 0xAABFint), (0xAAC1int, 0xAAC1int), (0xAADDint, 0xAADDint), (0xAAECint, 0xAAEDint)]
}

pub open spec fn case_ignorable_chunk_33() -> Seq<SRange> {
    seq![(0xAAF3int, 0xAAF4int), (0xAAF6int, 0xAAF6int), (0xAB5Bint, 0xAB5Fint), (0xAB69int, 0xAB6Bint), (0xABE5int, 0xABE5int), (0xABE8int, 0xABE8int), (0xABEDint, 0xABEDint), (0xFB1Eint, 0xFB1Eint)]
}

pub open spec fn case_ignorable_chunk_34() -> Seq<SRange> {
    seq![(0xFBB2int, 0xFBC2int), (0xFE00int, 0xFE0Fint), (0xFE13int, 0xFE13int), (0xFE20int, 0xFE2Fint), (0xFE52int, 0xFE52int), (0xFE55int, 0xFE55int), (0xFEFFint, 0xFEFFint), (0xFF07int, 0xFF07int)]
}

pub open spec fn case_ignorable_chunk_35() -> Seq<SRange> {
    seq![(0xFF0Eint, 0xFF0Eint), (0xFF1Aint, 0xFF1Aint), (0xFF3Eint, 0xFF3Eint), (0xFF40int, 0xFF40int), (0xFF70int, 0xFF70int), (0xFF9Eint, 0xFF9Fint), (0xFFE3int, 0xFFE3int), (0xFFF9int, 0xFFFBint)]
}

pub open spec fn case_ignorable_chunk_36() -> Seq<SRange> {
    seq![(0x101FDint, 0x101FDint), (0x102E0int, 0x102E0int), (0x10376int, 0x1037Aint), (0x10780int, 0x10785int), (0x10787int, 0x107B0int), (0x107B2int, 0x107BAint), (0x10A01int, 0x10A03int), (0x10A05int, 0x10A06int)]
}

pub open spec fn case_ignorable_chunk_37() -> Seq<SRange> {
    seq![(0x10A0Cint, 0x10A0Fint), (0x10A38int, 0x10A3Aint), (0x10A3Fint, 0x10A3Fint), (0x10AE5int, 0x10AE6int), (0x10D24int, 0x10D27int), (0x10D4Eint, 0x10D4Eint), (0x10D69int, 0x10D6Dint), (0x10D6Fint, 0x10D6Fint)]
}

pub open spec fn case_ignorable_chunk_38() -> Seq<SRange> {
    seq![(0x10EABint, 0x10EACint), (0x10EFCint, 0x10EFFint), (0x10F46int, 0x10F50int), (0x10F82int, 0x10F85int), (0x11001int, 0x11001int), (0x11038int, 0x11046int), (0x11070int, 0x11070int), (0x11073int, 0x11074int)]
}

pub open spec fn case_ignorable_chunk_39() -> Seq<SRange> {
    seq![(0x1107Fint, 0x11081int), (0x110B3int, 0x110B6int), (0x110B9int, 0x110BAint), (0x110BDint, 0x110BDint), (0x110C2int, 0x110C2int), (0x110CDint, 0x110CDint), (0x11100int, 0x11102int), (0x11127int, 0x1112Bint)]
}

pub open spec fn case_ignorable_chunk_40() -> Seq<SRange> {
    seq![(0x1112Dint, 0x11134int), (0x11173int, 0x11173int), (0x11180int, 0x11181int), (0x111B6int, 0x111BEint), (0x111C9int, 0x111CCint), (0x111CFint, 0x111CFint), (0x1122Fint, 0x11231int), (0x11234int, 0x11234int)]
}

pub open spec fn case_ignorable_chunk_41() -> Seq<SRange> {
    seq![(0x11236int, 0x11237int), (0x1123Eint, 0x1123Eint), (0x11241int, 0x11241int), (0x112DFint, 0x112DFint), (0x112E3int, 0x112EAint), (0x11300int, 0x11301int), (0x1133Bint, 0x1133Cint), (0x11340int, 0x11340int)]
}

pub open spec fn case_ignorable_chunk_42() -> Seq<SRange> {
    seq![(0x11366int, 0x1136Cint), (0x11370int, 0x11374int), (0x113BBint, 0x113C0int), (0x113CEint, 0x113CEint), (0x113D0int, 0x113D0int), (0x113D2int, 0x113D2int), (0x113E1int, 0x113E2int), (0x11438int, 0x1143Fint)]
}

pub open spec fn case_ignorable_chunk_43() -> Seq<SRange> {
    seq![(0x11442int, 0x11444int), (0x11446int, 0x11446int), (0x1145Eint, 0x1145Eint), (0x114B3int, 0x114B8int), (0x114BAint, 0x114BAint), (0x114BFint, 0x114C0int), (0x114C2int, 0x114C3int), (0x115B2int, 0x115B5int)]
}

pub open spec fn case_ignorable_chunk_44() -> Seq<SRange> {
    seq![(0x115BCint, 0x115BDint), (0x115BFint, 0x115C0int), (0x115DCint, 0x115DDint), (0x11633int, 0x1163Aint), (0x1163Dint, 0x1163Dint), (0x1163Fint, 0x11640int), (0x116ABint, 0x116ABint), (0x116ADint, 0x116ADint)]
}

pub open spec fn case_ignorable_chunk_45() -> Seq<SRange> {
    seq![(0x116B0int, 0x116B5int), (0x116B7int, 0x116B7int), (0x1171Dint, 0x1171Dint), (0x1171Fint, 0x1171Fint), (0x11722int, 0x11725int), (0x11727int, 0x1172Bint), (0x1182Fint, 0x11837int), (0x11839int, 0x1183Aint)]
}

pub open spec fn case_ignorable_chunk_46() -> Seq<SRange> {
    seq![(0x1193Bint, 0x1193Cint), (0x1193Eint, 0x1193Eint), (0x11943int, 0x11943int), (0x119D4int, 0x119D7int), (0x119DAint, 0x119DBint), (0x119E0int, 0x119E0int), (0x11A01int, 0x11A0Aint), (0x11A33int, 0x11A38int)]
}

pub open spec fn case_ignorable_chunk_47() -> Seq<SRange> {
    seq![(0x11A3Bint, 0x11A3Eint), (0x11A47int, 0x11A47int), (0x11A51int, 0x11A56int), (0x11A59int, 0x11A5Bint), (0x11A8Aint, 0x11A96int), (0x11A98int, 0x11A99int), (0x11C30int, 0x11C36int), (0x11C38int, 0x11C3Dint)]
}

pub open spec fn case_ignorable_chunk_48() -> Seq<SRange> {
    seq![(0x11C3Fint, 0x11C3Fint), (0x11C92int, 0x11CA7int), (0x11CAAint, 0x11CB0int), (0x11CB2int, 0x11CB3int), (0x11CB5int, 0x11CB6int), (0x11D31int, 0x11D36int), (0x11D3Aint, 0x11D3Aint), (0x11D3Cint, 0x11D3Dint)]
}

pub open spec fn case_ignorable_chunk_49() -> Seq<SRange> {
    seq![(0x11D3Fint, 0x11D45int), (0x11D47int, 0x11D47int), (0x11D90int, 0x11D91int), (0x11D95int, 0x11D95int), (0x11D97int, 0x11D97int), (0x11EF3int, 0x11EF4int), (0x11F00int, 0x11F01int), (0x11F36int, 0x11F3Aint)]
}

pub open spec fn case_ignorable_chunk_50() -> Seq<SRange> {
    seq![(0x11F40int, 0x11F40int), (0x11F42int, 0x11F42int), (0x11F5Aint, 0x11F5Aint), (0x13430int, 0x13440int), (0x13447int, 0x13455int), (0x1611Eint, 0x16129int), (0x1612Dint, 0x1612Fint), (0x16AF0int, 0x16AF4int)]
}

pub open spec fn case_ignorable_chunk_51() -> Seq<SRange> {
    seq![(0x16B30int, 0x16B36int), (0x16B40int, 0x16B43int), (0x16D40int, 0x16D42int), (0x16D6Bint, 0x16D6Cint), (0x16F4Fint, 0x16F4Fint), (0x16F8Fint, 0x16F9Fint), (0x16FE0int, 0x16FE1int), (0x16FE3int, 0x16FE4int)]
}

pub open spec fn case_ignorable_chunk_52() -> Seq<SRange> {
    seq![(0x1AFF0int, 0x1AFF3int), (0x1AFF5int, 0x1AFFBint), (0x1AFFDint, 0x1AFFEint), (0x1BC9Dint, 0x1BC9Eint), (0x1BCA0int, 0x1BCA3int), (0x1CF00int, 0x1CF2Dint), (0x1CF30int, 0x1CF46int), (0x1D167int, 0x1D169int)]
}

pub open spec fn case_ignorable_chunk_53() -> Seq<SRange> {
    seq![(0x1D173int, 0x1D182int), (0x1D185int, 0x1D18Bint), (0x1D1AAint, 0x1D1ADint), (0x1D242int, 0x1D244int), (0x1DA00int, 0x1DA36int), (0x1DA3Bint, 0x1DA6Cint), (0x1DA75int, 0x1DA75int), (0x1DA84int, 0x1DA84int)]
}

pub open spec fn case_ignorable_chunk_54() -> Seq<SRange> {
    seq![(0x1DA9Bint, 0x1DA9Fint), (0x1DAA1int, 0x1DAAFint), (0x1E000int, 0x1E006int), (0x1E008int, 0x1E018int), (0x1E01Bint, 0x1E021int), (0x1E023int, 0x1E024int), (0x1E026int, 0x1E02Aint), (0x1E030int, 0x1E06Dint)]
}

pub open spec fn case_ignorable_chunk_55() -> Seq<SRange> {
    seq![(0x1E08Fint, 0x1E08Fint), (0x1E130int, 0x1E13Dint), (0x1E2AEint, 0x1E2AEint), (0x1E2ECint, 0x1E2EFint), (0x1E4EBint, 0x1E4EFint), (0x1E5EEint, 0x1E5EFint), (0x1E8D0int, 0x1E8D6int), (0x1E944int, 0x1E94Bint)]
}

pub open spec fn case_ignorable_chunk_56() -> Seq<SRange> {
    seq![(0x1F3FBint, 0x1F3FFint), (0xE0001int, 0xE0001int), (0xE0020int, 0xE007Fint), (0xE0100int, 0xE01EFint)]
}

pub open spec fn case_ignorable_block_0() -> Seq<SRange> {
    case_ignorable_chunk_0() + case_ignorable_chunk_1() + case_ignorable_chunk_2() + case_ignorable_chunk_3() + case_ignorable_chunk_4() + case_ignorable_chunk_5() + case_ignorable_chunk_6() + case_ignorable_chunk_7() + case_ignorable_chunk_8() + case_ignorable_chunk_9()
}

pub open spec fn case_ignorable_block_1() -> Seq<SRange> {
    case_ignorable_chunk_10() + case_ignorable_chunk_11() + case_ignorable_chunk_12() + case_ignorable_chunk_13() + case_ignorable_chunk_14() + case_ignorable_chunk_15() + case_ignorable_chunk_16() + case_ignorable_chunk_17() + case_ignorable_chunk_18() + case_ignorable_chunk_19()
}

pub open spec fn case_ignorable_block_2() -> Seq<SRange> {
    case_ignorable_chunk_20() + case_ignorable_chunk_21() + case_ignorable_chunk_22() + case_ignorable_chunk_23() + case_ignorable_chunk_24() + case_ignorable_chunk_25() + case_ignorable_chunk_26() + case_ignorable_chunk_27() + case_ignorable_chunk_28() + case_ignorable_chunk_29()
}

pub open spec fn case_ignorable_block_3() -> Seq<SRange> {
    case_ignorable_chunk_30() + case_ignorable_chunk_31() + case_ignorable_chunk_32() + case_ignorable_chunk_33() + case_ignorable_chunk_34() + case_ignorable_chunk_35() + case_ignorable_chunk_36() + case_ignorable_chunk_37() + case_ignorable_chunk_38() + case_ignorable_chunk_39()
}

pub open spec fn case_ignorable_block_4() -> Seq<SRange> {
    case_ignorable_chunk_40() + case_ignorable_chunk_41() + case_ignorable_chunk_42() + case_ignorable_chunk_43() + case_ignorable_chunk_44() + case_ignorable_chunk_45() + case_ignorable_chunk_46() + case_ignorable_chunk_47() + case_ignorable_chunk_48() + case_ignorable_chunk_49()
}

pub open spec fn case_ignorable_block_5() -> Seq<SRange> {
    case_ignorable_chunk_50() + case_ignorable_chunk_51() + case_ignorable_chunk_52() + case_ignorable_chunk_53() + case_ignorable_chunk_54() + case_ignorable_chunk_55() + case_ignorable_chunk_56()
}

/// The ranges of the property Case_Ignorable.
pub open spec fn case_ignorable_ranges() -> Seq<SRange> {
    case_ignorable_block_0() + case_ignorable_block_1() + case_ignorable_block_2() + case_ignorable_block_3() + case_ignorable_block_4() + case_ignorable_block_5()
}

proof fn lemma_case_ignorable_block_0()
    ensures
        canonical(case_ignorable_block_0()),
        case_ignorable_block_0().len() > 0,
        case_ignorable_block_0()[0] == case_ignorable_chunk_0()[0],
        case_ignorable_block_0().last() == case_ignorable_chunk_9().last(),
{
    reveal_with_fuel(canonical, 9);
    assert(canonical(case_ignorable_chunk_0()));
    assert(canonical(case_ignorable_chunk_1()));
    assert(canonical(case_ignorable_chunk_2()));
    assert(canonical(case_ignorable_chunk_3()));
    assert(canonical(case_ignorable_chunk_4()));
    assert(canonical(case_ignorable_chunk_5()));
    assert(canonical(case_ignorable_chunk_6()));
    assert(canonical(case_ignorable_chunk_7()));
    assert(canonical(case_ignorable_chunk_8()));
    assert(canonical(case_ignorable_chunk_9()));
    lemma_canonical_append(case_ignorable_chunk_0(), case_ignorable_chunk_1());
    lemma_canonical_append(case_ignorable_chunk_0() + case_ignorable_chunk_1(), case_ignorable_chunk_2());
    lemma_canonical_append(case_ignorable_chunk_0() + case_ignorable_chunk_1() + case_ignorable_chunk_2(), case_ignorable_chunk_3());
    lemma_canonical_append(case_ignorable_chunk_0() + case_ignorable_chunk_1() + case_ignorable_chunk_2() + case_ignorable_chunk_3(), case_ignorable_chunk_4());
    lemma_canonical_append(case_ignorable_chunk_0() + case_ignorable_chunk_1() + case_ignorable_chunk_2() + case_ignorable_chunk_3() + case_ignorable_chunk_4(), case_ignorable_chunk_5());
    lemma_canonical_append(case_ignorable_chunk_0() + case_ignorable_chunk_1() + case_ignorable_chunk_2() + case_ignorable_chunk_3() + case_ignorable_chunk_4() + case_ignorable_chunk_5(), case_ignorable_chunk_6());
    lemma_canonical_append(case_ignorable_chunk_0() + case_ignorable_chunk_1() + case_ignorable_chunk_2() + case_ignorable_chunk_3() + case_ignorable_chunk_4() + case_ignorable_chunk_5() + case_ignorable_chunk_6(), case_ignorable_chunk_7());
    lemma_canonical_append(case_ignorable_chunk_0() + case_ignorable_chunk_1() + case_ignorable_chunk_2() + case_ignorable_chunk_3() + case_ignorable_chunk_4() + case_ignorable_chunk_5() + case_ignorable_chunk_6() + case_ignorable_chunk_7(), case_ignorable_chunk_8());
    lemma_canonical_append(case_ignorable_chunk_0() + case_ignorable_chunk_1() + case_ignorable_chunk_2() + case_ignorable_chunk_3() + case_ignorable_chunk_4() + case_ignorable_chunk_5() + case_ignorable_chunk_6() + case_ignorable_chunk_7() + case_ignorable_chunk_8(), case_ignorable_chunk_9());
}

proof fn lemma_case_ignorable_block_1()
    ensures
        canonical(case_ignorable_block_1()),
        case_ignorable_block_1().len() > 0,
        case_ignorable_block_1()[0] == case_ignorable_chunk_10()[0],
        case_ignorable_block_1().last() == case_ignorable_chunk_19().last(),
{
    reveal_with_fuel(canonical, 9);
    assert(canonical(case_ignorable_chunk_10()));
    assert(canonical(case_ignorable_chunk_11()));
    assert(canonical(case_ignorable_chunk_12()));
    assert(canonical(case_ignorable_chunk_13()));
    assert(canonical(case_ignorable_chunk_14()));
    assert(canonical(case_ignorable_chunk_15()));
    assert(canonical(case_ignorable_chunk_16()));
    assert(canonical(case_ignorable_chunk_17()));
    assert(canonical(case_ignorable_chunk_18()));
    assert(canonical(case_ignorable_chunk_19()));
    lemma_canonical_append(case_ignorable_chunk_10(), case_ignorable_chunk_11());
    lemma_canonical_append(case_ignorable_chunk_10() + case_ignorable_chunk_11(), case_ignorable_chunk_12());
    lemma_canonical_append(case_ignorable_chunk_10() + case_ignorable_chunk_11() + case_ignorable_chunk_12(), case_ignorable_chunk_13());
    lemma_canonical_append(case_ignorable_chunk_10() + case_ignorable_chunk_11() + case_ignorable_chunk_12() + case_ignorable_chunk_13(), case_ignorable_chunk_14());
    lemma_canonical_append(case_ignorable_chunk_10() + case_ignorable_chunk_11() + case_ignorable_chunk_12() + case_ignorable_chunk_13() + case_ignorable_chunk_14(), case_ignorable_chunk_15());
    lemma_canonical_append(case_ignorable_chunk_10() + case_ignorable_chunk_11() + case_ignorable_chunk_12() + case_ignorable_chunk_13() + case_ignorable_chunk_14() + case_ignorable_chunk_15(), case_ignorable_chunk_16());
    lemma_canonical_append(case_ignorable_chunk_10() + case_ignorable_chunk_11() + case_ignorable_chunk_12() + case_ignorable_chunk_13() + case_ignorable_chunk_14() + case_ignorable_chunk_15() + case_ignorable_chunk_16(), case_ignorable_chunk_17());
    lemma_canonical_append(case_ignorable_chunk_10() + case_ignorable_chunk_11() + case_ignorable_chunk_12() + case_ignorable_chunk_13() + case_ignorable_chunk_14() + case_ignorable_chunk_15() + case_ignorable_chunk_16() + case_ignorable_chunk_17(), case_ignorable_chunk_18());
    lemma_canonical_append(case_ignorable_chunk_10() + case_ignorable_chunk_11() + case_ignorable_chunk_12() + case_ignorable_chunk_13() + case_ignorable_chunk_14() + case_ignorable_chunk_15() + case_ignorable_chunk_16() + case_ignorable_chunk_17() + case_ignorable_chunk_18(), case_ignorable_chunk_19());
}

proof fn lemma_case_ignorable_block_2()
    ensures
        canonical(case_ignorable_block_2()),
        case_ignorable_block_2().len() > 0,
        case_ignorable_block_2()[0] == case_ignorable_chunk_20()[0],
        case_ignorable_block_2().last() == case_ignorable_chunk_29().last(),
{
    reveal_with_fuel(canonical, 9);
    assert(canonical(case_ignorable_chunk_20()));
    assert(canonical(case_ignorable_chunk_21()));
    assert(canonical(case_ignorable_chunk_22()));
    assert(canonical(case_ignorable_chunk_23()));
    assert(canonical(case_ignorable_chunk_24()));
    assert(canonical(case_ignorable_chunk_25()));
    assert(canonical(case_ignorable_chunk_26()));
    assert(canonical(case_ignorable_chunk_27()));
    assert(canonical(case_ignorable_chunk_28()));
    assert(canonical(case_ignorable_chunk_29()));
    lemma_canonical_append(case_ignorable_chunk_20(), case_ignorable_chunk_21());
    lemma_canonical_append(case_ignorable_chunk_20() + case_ignorable_chunk_21(), case_ignorable_chunk_22());
    lemma_canonical_append(case_ignorable_chunk_20() + case_ignorable_chunk_21() + case_ignorable_chunk_22(), case_ignorable_chunk_23());
    lemma_canonical_append(case_ignorable_chunk_20() + case_ignorable_chunk_21() + case_ignorable_chunk_22() + case_ignorable_chunk_23(), case_ignorable_chunk_24());
    lemma_canonical_append(case_ignorable_chunk_20() + case_ignorable_chunk_21() + case_ignorable_chunk_22() + case_ignorable_chunk_23() + case_ignorable_chunk_24(), case_ignorable_chunk_25());
    lemma_canonical_append(case_ignorable_chunk_20() + case_ignorable_chunk_21() + case_ignorable_chunk_22() + case_ignorable_chunk_23() + case_ignorable_chunk_24() + case_ignorable_chunk_25(), case_ignorable_chunk_26());
    lemma_canonical_append(case_ignorable_chunk_20() + case_ignorable_chunk_21() + case_ignorable_chunk_22() + case_ignorable_chunk_23() + case_ignorable_chunk_24() + case_ignorable_chunk_25() + case_ignorable_chunk_26(), case_ignorable_chunk_27());
    lemma_canonical_append(case_ignorable_chunk_20() + case_ignorable_chunk_21() + case_ignorable_chunk_22() + case_ignorable_chunk_23() + case_ignorable_chunk_24() + case_ignorable_chunk_25() + case_ignorable_chunk_26() + case_ignorable_chunk_27(), case_ignorable_chunk_28());
    lemma_canonical_append(case_ignorable_chunk_20() + case_ignorable_chunk_21() + case_ignorable_chunk_22() + case_ignorable_chunk_23() + case_ignorable_chunk_24() + case_ignorable_chunk_25() + case_ignorable_chunk_26() + case_ignorable_chunk_27() + case_ignorable_chunk_28(), case_ignorable_chunk_29());
}

proof fn lemma_case_ignorable_block_3()
    ensures
        canonical(case_ignorable_block_3()),
        case_ignorable_block_3().len() > 0,
        case_ignorable_block_3()[0] == case_ignorable_chunk_30()[0],
        case_ignorable_block_3().last() == case_ignorable_chunk_39().last(),
{
    reveal_with_fuel(canonical, 9);
    assert(canonical(case_ignorable_chunk_30()));
    assert(canonical(case_ignorable_chunk_31()));
    assert(canonical(case_ignorable_chunk_32()));
    assert(canonical(case_ignorable_chunk_33()));
    assert(canonical(case_ignorable_chunk_34()));
    assert(canonical(case_ignorable_chunk_35()));
    assert(canonical(case_ignorable_chunk_36()));
    assert(canonical(case_ignorable_chunk_37()));
    assert(canonical(case_ignorable_chunk_38()));
    assert(canonical(case_ignorable_chunk_39()));
    lemma_canonical_append(case_ignorable_chunk_30(), case_ignorable_chunk_31());
    lemma_canonical_append(case_ignorable_chunk_30() + case_ignorable_chunk_31(), case_ignorable_chunk_32());
    lemma_canonical_append(case_ignorable_chunk_30() + case_ignorable_chunk_31() + case_ignorable_chunk_32(), case_ignorable_chunk_33());
    lemma_canonical_append(case_ignorable_chunk_30() + case_ignorable_chunk_31() + case_ignorable_chunk_32() + case_ignorable_chunk_33(), case_ignorable_chunk_34());
    lemma_canonical_append(case_ignorable_chunk_30() + case_ignorable_chunk_31() + case_ignorable_chunk_32() + case_ignorable_chunk_33() + case_ignorable_chunk_34(), case_ignorable_chunk_35());
    lemma_canonical_append(case_ignorable_chunk_30() + case_ignorable_chunk_31() + case_ignorable_chunk_32() + case_ignorable_chunk_33() + case_ignorable_chunk_34() + case_ignorable_chunk_35(), case_ignorable_chunk_36());
    lemma_canonical_append(case_ignorable_chunk_30() + case_ignorable_chunk_31() + case_ignorable_chunk_32() + case_ignorable_chunk_33() + case_ignorable_chunk_34() + case_ignorable_chunk_35() + case_ignorable_chunk_36(), case_ignorable_chunk_37());
    lemma_canonical_append(case_ignorable_chunk_30() + case_ignorable_chunk_31() + case_ignorable_chunk_32() + case_ignorable_chunk_33() + case_ignorable_chunk_34() + case_ignorable_chunk_35() + case_ignorable_chunk_36() + case_ignorable_chunk_37(), case_ignorable_chunk_38());
    lemma_canonical_append(case_ignorable_chunk_30() + case_ignorable_chunk_31() + case_ignorable_chunk_32() + case_ignorable_chunk_33() + case_ignorable_chunk_34() + case_ignorable_chunk_35() + case_ignorable_chunk_36() + case_ignorable_chunk_37() + case_ignorable_chunk_38(), case_ignorable_chunk_39());
}

proof fn lemma_case_ignorable_block_4()
    ensures
        canonical(case_ignorable_block_4()),
        case_ignorable_block_4().len() > 0,
        case_ignorable_block_4()[0] == case_ignorable_chunk_40()[0],
        case_ignorable_block_4().last() == case_ignorable_chunk_49().last(),
{
    reveal_with_fuel(canonical, 9);
    assert(canonical(case_ignorable_chunk_40()));
    assert(canonical(case_ignorable_chunk_41()));
    assert(canonical(case_ignorable_chunk_42()));
    assert(canonical(case_ignorable_chunk_43()));
    assert(canonical(case_ignorable_chunk_44()));
    assert(canonical(case_ignorable_chunk_45()));
    assert(canonical(case_ignorable_chunk_46()));
    assert(canonical(case_ignorable_chunk_47()));
    assert(canonical(case_ignorable_chunk_48()));
    assert(canonical(case_ignorable_chunk_49()));
    lemma_canonical_append(case_ignorable_chunk_40(), case_ignorable_chunk_41());
    lemma_canonical_append(case_ignorable_chunk_40() + case_ignorable_chunk_41(), case_ignorable_chunk_42());
    lemma_canonical_append(case_ignorable_chunk_40() + case_ignorable_chunk_41() + case_ignorable_chunk_42(), case_ignorable_chunk_43());
    lemma_canonical_append(case_ignorable_chunk_40() + case_ignorable_chunk_41() + case_ignorable_chunk_42() + case_ignorable_chunk_43(), case_ignorable_chunk_44());
    lemma_canonical_append(case_ignorable_chunk_40() + case_ignorable_chunk_41() + case_ignorable_chunk_42() + case_ignorable_chunk_43() + case_ignorable_chunk_44(), case_ignorable_chunk_45());
    lemma_canonical_append(case_ignorable_chunk_40() + case_ignorable_chunk_41() + case_ignorable_chunk_42() + case_ignorable_chunk_43() + case_ignorable_chunk_44() + case_ignorable_chunk_45(), case_ignorable_chunk_46());
    lemma_canonical_append(case_ignorable_chunk_40() + case_ignorable_chunk_41() + case_ignorable_chunk_42() + case_ignorable_chunk_43() + case_ignorable_chunk_44() + case_ignorable_chunk_45() + case_ignorable_chunk_46(), case_ignorable_chunk_47());
    lemma_canonical_append(case_ignorable_chunk_40() + case_ignorable_chunk_41() + case_ignorable_chunk_42() + case_ignorable_chunk_43() + case_ignorable_chunk_44() + case_ignorable_chunk_45() + case_ignorable_chunk_46() + case_ignorable_chunk_47(), case_ignorable_chunk_48());
    lemma_canonical_append(case_ignorable_chunk_40() + case_ignorable_chunk_41() + case_ignorable_chunk_42() + case_ignorable_chunk_43() + case_ignorable_chunk_44() + case_ignorable_chunk_45() + case_ignorable_chunk_46() + case_ignorable_chunk_47() + case_ignorable_chunk_48(), case_ignorable_chunk_49());
}

proof fn lemma_case_ignorable_block_5()
    ensures
        canonical(case_ignorable_block_5()),
        case_ignorable_block_5().len() > 0,
        case_ignorable_block_5()[0] == case_ignorable_chunk_50()[0],
        case_ignorable_block_5().last() == case_ignorable_chunk_56().last(),
{
    reveal_with_fuel(canonical, 9);
    assert(canonical(case_ignorable_chunk_50()));
    assert(canonical(case_ignorable_chunk_51()));
    assert(canonical(case_ignorable_chunk_52()));
    assert(canonical(case_ignorable_chunk_53()));
    assert(canonical(case_ignorable_chunk_54()));
    assert(canonical(case_ignorable_chunk_55()));
    assert(canonical(case_ignorable_chunk_56()));
    lemma_canonical_append(case_ignorable_chunk_50(), case_ignorable_chunk_51());
    lemma_canonical_append(case_ignorable_chunk_50() + case_ignorable_chunk_51(), case_ignorable_chunk_52());
    lemma_canonical_append(case_ignorable_chunk_50() + case_ignorable_chunk_51() + case_ignorable_chunk_52(), case_ignorable_chunk_53());
    lemma_canonical_append(case_ignorable_chunk_50() + case_ignorable_chunk_51() + case_ignorable_chunk_52() + case_ignorable_chunk_53(), case_ignorable_chunk_54());
    lemma_canonical_append(case_ignorable_chunk_50() + case_ignorable_chunk_51() + case_ignorable_chunk_52() + case_ignorable_chunk_53() + case_ignorable_chunk_54(), case_ignorable_chunk_55());
    lemma_canonical_append(case_ignorable_chunk_50() + case_ignorable_chunk_51() + case_ignorable_chunk_52() + case_ignorable_chunk_53() + case_ignorable_chunk_54() + case_ignorable_chunk_55(), case_ignorable_chunk_56());
}

pub proof fn lemma_case_ignorable_canonical()
    ensures
        canonical(case_ignorable_ranges()),
{
    lemma_case_ignorable_block_0();
    lemma_case_ignorable_block_1();
    lemma_case_ignorable_block_2();
    lemma_case_ignorable_block_3();
    lemma_case_ignorable_block_4();
    lemma_case_ignorable_block_5();
    lemma_canonical_append(case_ignorable_block_0(), case_ignorable_block_1());
    lemma_canonical_append(case_ignorable_block_0() + case_ignorable_block_1(), case_ignorable_block_2());
    lemma_canonical_append(case_ignorable_block_0() + case_ignorable_block_1() + case_ignorable_block_2(), case_ignorable_block_3());
    lemma_canonical_append(case_ignorable_block_0() + case_ignorable_block_1() + case_ignorable_block_2() + case_ignorable_block_3(), case_ignorable_block_4());
    lemma_canonical_append(case_ignorable_block_0() + case_ignorable_block_1() + case_ignorable_block_2() + case_ignorable_block_3() + case_ignorable_block_4(), case_ignorable_block_5());
}

fn push_case_ignorable_chunk_0(v: &mut Vec<ClassUnicodeRange>)
    ensures
        rview(final(v)@) == rview(old(v)@) + case_ignorable_chunk_0(),
{
    let ghost o = rview(v@);
    push_range(v, '\u{27}', '\u{27}');
    push_range(v, '\u{2E}', '\u{2E}');
    push_range(v, '\u{3A}', '\u{3A}');
    push_range(v, '\u{5E}', '\u{5E}');
    push_range(v, '\u{60}', '\u{60}');
    push_range(v, '\u{A8}', '\u{A8}');
    push_range(v, '\u{AD}', '\u{AD}');
    push_range(v, '\u{AF}', '\u{AF}');
    assert(rview(v@) =~= o + case_ignorable_chunk_0());
}

fn push_case_ignorable_chunk_1(v: &mut Vec<ClassUnicodeRange>)
    ensures
        rview(final(v)@) == rview(old(v)@) + case_ignorable_chunk_1(),
{
    let ghost o = rview(v@);
    push_range(v, '\u{B4}', '\u{B4}');
    push_range(v, '\u{B7}', '\u{B8}');
    push_range(v, '\u{2B0}', '\u{36F}');
    push_range(v, '\u{374}', '\u{375}');
    push_range(v, '\u{37A}', '\u{37A}');
    push_range(v, '\u{384}', '\u{385}');
    push_range(v, '\u{387}', '\u{387}');
    push_range(v, '\u{483}', '\u{489}');
    assert(rview(v@) =~= o + case_ignorable_chunk_1());
}

fn push_case_ignorable_chunk_2(v: &mut Vec<ClassUnicodeRange>)
    ensures
        rview(final(v)@) == rview(old(v)@) + case_ignorable_chunk_2(),
{
    let ghost o = rview(v@);
    push_range(v, '\u{559}', '\u{559}');
    push_range(v, '\u{55F}', '\u{55F}');
    push_range(v, '\u{591}', '\u{5BD}');
    push_range(v, '\u{5BF}', '\u{5BF}');
    push_range(v, '\u{5C1}', '\u{5C2}');
    push_range(v, '\u{5C4}', '\u{5C5}');
    push_range(v, '\u{5C7}', '\u{5C7}');
    push_range(v, '\u{5F4}', '\u{5F4}');
    assert(rview(v@) =~= o + case_ignorable_chunk_2());
}

fn push_case_ignorable_chunk_3(v: &mut Vec<ClassUnicodeRange>)
    ensures
        rview(final(v)@) == rview(old(v)@) + case_ignorable_chunk_3(),
{
    let ghost o = rview(v@);
    push_range(v, '\u{600}', '\u{605}');
    push_range(v, '\u{610}', '\u{61A}');
    push_range(v, '\u{61C}', '\u{61C}');
    push_range(v, '\u{640}', '\u{640}');
    push_range(v, '\u{64B}', '\u{65F}');
    push_range(v, '\u{670}', '\u{670}');
    push_range(v, '\u{6D6}', '\u{6DD}');
    push_range(v, '\u{6DF}', '\u{6E8}');
    assert(rview(v@) =~= o + case_ignorable_chunk_3());
}

fn push_case_ignorable_chunk_4(v: &mut Vec<ClassUnicodeRange>)
    ensures
        rview(final(v)@) == rview(old(v)@) + case_ignorable_chunk_4(),
{
    let ghost o = rview(v@);
    push_range(v, '\u{6EA}', '\u{6ED}');
    push_range(v, '\u{70F}', '\u{70F}');
    push_range(v, '\u{711}', '\u{711}');
    push_range(v, '\u{730}', '\u{74A}');
    push_range(v, '\u{7A6}', '\u{7B0}');
    push_range(v, '\u{7EB}', '\u{7F5}');
    push_range(v, '\u{7FA}', '\u{7FA}');
    push_range(v, '\u{7FD}', '\u{7FD}');
    assert(rview(v@) =~= o + case_ignorable_chunk_4());
}

fn push_case_ignorable_chunk_5(v: &mut Vec<ClassUnicodeRange>)
    ensures
        rview(final(v)@) == rview(old(v)@) + case_ignorable_chunk_5(),
{
    let ghost o = rview(v@);
    push_range(v, '\u{816}', '\u{82D}');
    push_range(v, '\u{859}', '\u{85B}');
    push_range(v, '\u{888}', '\u{888}');
    push_range(v, '\u{890}', '\u{891}');
    push_range(v, '\u{897}', '\u{89F}');
    push_range(v, '\u{8C9}', '\u{902}');
    push_range(v, '\u{93A}', '\u{93A}');
    push_range(v, '\u{93C}', '\u{93C}');
    assert(rview(v@) =~= o + case_ignorable_chunk_5());
}

fn push_case_ignorable_chunk_6(v: &mut Vec<ClassUnicodeRange>)
    ensures
        rview(final(v)@) == rview(old(v)@) + case_ignorable_chunk_6(),
{
    let ghost o = rview(v@);
    push_range(v, '\u{941}', '\u{948}');
    push_range(v, '\u{94D}', '\u{94D}');
    push_range(v, '\u{951}', '\u{957}');
    push_range(v, '\u{962}', '\u{963}');
    push_range(v, '\u{971}', '\u{971}');
    push_range(v, '\u{981}', '\u{981}');
    push_range(v, '\u{9BC}', '\u{9BC}');
    push_range(v, '\u{9C1}', '\u{9C4}');
    assert(rview(v@) =~= o + case_ignorable_chunk_6());
}

fn push_case_ignorable_chunk_7(v: &mut Vec<ClassUnicodeRange>)
    ensures
        rview(final(v)@) == rview(old(v)@) + case_ignorable_chunk_7(),
{
    let ghost o = rview(v@);
    push_range(v, '\u{9CD}', '\u{9CD}');
    push_range(v, '\u{9E2}', '\u{9E3}');
    push_range(v, '\u{9FE}', '\u{9FE}');
    push_range(v, '\u{A01}', '\u{A02}');
    push_range(v, '\u{A3C}', '\u{A3C}');
    push_range(v, '\u{A41}', '\u{A42}');
    push_range(v, '\u{A47}', '\u{A48}');
    push_range(v, '\u{A4B}', '\u{A4D}');
    assert(rview(v@) =~= o + case_ignorable_chunk_7());
}

fn push_case_ignorable_chunk_8(v: &mut Vec<ClassUnicodeRange>)
    ensures
        rview(final(v)@) == rview(old(v)@) + case_ignorable_chunk_8(),
{
    let ghost o = rview(v@);
    push_range(v, '\u{A51}', '\u{A51}');
    push_range(v, '\u{A70}', '\u{A71}');
    push_range(v, '\u{A75}', '\u{A75}');
    push_range(v, '\u{A81}', '\u{A82}');
    push_range(v, '\u{ABC}', '\u{ABC}');
    push_range(v, '\u{AC1}', '\u{AC5}');
    push_range(v, '\u{AC7}', '\u{AC8}');
    push_range(v, '\u{ACD}', '\u{ACD}');
    assert(rview(v@) =~= o + case_ignorable_chunk_8());
}

fn push_case_ignorable_chunk_9(v: &mut Vec<ClassUnicodeRange>)
    ensures
        rview(final(v)@) == rview(old(v)@) + case_ignorable_chunk_9(),
{
    let ghost o = rview(v@);
    push_range(v, '\u{AE2}', '\u{AE3}');
    push_range(v, '\u{AFA}', '\u{AFF}');
    push_range(v, '\u{B01}', '\u{B01}');
    push_range(v, '\u{B3C}', '\u{B3C}');
    push_range(v, '\u{B3F}', '\u{B3F}');
    push_range(v, '\u{B41}', '\u{B44}');
    push_range(v, '\u{B4D}', '\u{B4D}');
    push_range(v, '\u{B55}', '\u{B56}');
    assert(rview(v@) =~= o + case_ignorable_chunk_9());
}

fn push_case_ignorable_chunk_10(v: &mut Vec<ClassUnicodeRange>)
    ensures
        rview(final(v)@) == rview(old(v)@) + case_ignorable_chunk_10(),
{
    let ghost o = rview(v@);
    push_range(v, '\u{B62}', '\u{B63}');
    push_range(v, '\u{B82}', '\u{B82}');
    push_range(v, '\u{BC0}', '\u{BC0}');
    push_range(v, '\u{BCD}', '\u{BCD}');
    push_range(v, '\u{C00}', '\u{C00}');
    push_range(v, '\u{C04}', '\u{C04}');
    push_range(v, '\u{C3C}', '\u{C3C}');
    push_range(v, '\u{C3E}', '\u{C40}');
    assert(rview(v@) =~= o + case_ignorable_chunk_10());
}

fn push_case_ignorable_chunk_11(v: &mut Vec<ClassUnicodeRange>)
    ensures
        rview(final(v)@) == rview(old(v)@) + case_ignorable_chunk_11(),
{
    let ghost o = rview(v@);
    push_range(v, '\u{C46}', '\u{C48}');
    push_range(v, '\u{C4A}', '\u{C4D}');
    push_range(v, '\u{C55}', '\u{C56}');
    push_range(v, '\u{C62}', '\u{C63}');
    push_range(v, '\u{C81}', '\u{C81}');
    push_range(v, '\u{CBC}', '\u{CBC}');
    push_range(v, '\u{CBF}', '\u{CBF}');
    push_range(v, '\u{CC6}', '\u{CC6}');
    assert(rview(v@) =~= o + case_ignorable_chunk_11());
}

fn push_case_ignorable_chunk_12(v: &mut Vec<ClassUnicodeRange>)
    ensures
        rview(final(v)@) == rview(old(v)@) + case_ignorable_chunk_12(),
{
    let ghost o = rview(v@);
    push_range(v, '\u{CCC}', '\u{CCD}');
    push_range(v, '\u{CE2}', '\u{CE3}');
    push_range(v, '\u{D00}', '\u{D01}');
    push_range(v, '\u{D3B}', '\u{D3C}');
    push_range(v, '\u{D41}', '\u{D44}');
    push_range(v, '\u{D4D}', '\u{D4D}');
    push_range(v, '\u{D62}', '\u{D63}');
    push_range(v, '\u{D81}', '\u{D81}');
    assert(rview(v@) =~= o + case_ignorable_chunk_12());
}

fn push_case_ignorable_chunk_13(v: &mut Vec<ClassUnicodeRange>)
    ensures
        rview(final(v)@) == rview(old(v)@) + case_ignorable_chunk_13(),
{
    let ghost o = rview(v@);
    push_range(v, '\u{DCA}', '\u{DCA}');
    push_range(v, '\u{DD2}', '\u{DD4}');
    push_range(v, '\u{DD6}', '\u{DD6}');
    push_range(v, '\u{E31}', '\u{E31}');
    push_range(v, '\u{E34}', '\u{E3A}');
    push_range(v, '\u{E46}', '\u{E4E}');
    push_range(v, '\u{EB1}', '\u{EB1}');
    push_range(v, '\u{EB4}', '\u{EBC}');
    assert(rview(v@) =~= o + case_ignorable_chunk_13());
}

fn push_case_ignorable_chunk_14(v: &mut Vec<ClassUnicodeRange>)
    ensures
        rview(final(v)@) == rview(old(v)@) + case_ignorable_chunk_14(),
{
    let ghost o = rview(v@);
    push_range(v, '\u{EC6}', '\u{EC6}');
    push_range(v, '\u{EC8}', '\u{ECE}');
    push_range(v, '\u{F18}', '\u{F19}');
    push_range(v, '\u{F35}', '\u{F35}');
    push_range(v, '\u{F37}', '\u{F37}');
    push_range(v, '\u{F39}', '\u{F39}');
    push_range(v, '\u{F71}', '\u{F7E}');
    push_range(v, '\u{F80}', '\u{F84}');
    assert(rview(v@) =~= o + case_ignorable_chunk_14());
}

fn push_case_ignorable_chunk_15(v: &mut Vec<ClassUnicodeRange>)
    ensures
        rview(final(v)@) == rview(old(v)@) + case_ignorable_chunk_15(),
{
    let ghost o = rview(v@);
    push_range(v, '\u{F86}', '\u{F87}');
    push_range(v, '\u{F8D}', '\u{F97}');
    push_range(v, '\u{F99}', '\u{FBC}');
    push_range(v, '\u{FC6}', '\u{FC6}');
    push_range(v, '\u{102D}', '\u{1030}');
    push_range(v, '\u{1032}', '\u{1037}');
    push_range(v, '\u{1039}', '\u{103A}');
    push_range(v, '\u{103D}', '\u{103E}');
    assert(rview(v@) =~= o + case_ignorable_chunk_15());
}

fn push_case_ignorable_chunk_16(v: &mut Vec<ClassUnicodeRange>)
    ensures
        rview(final(v)@) == rview(old(v)@) + case_ignorable_chunk_16(),
{
    let ghost o = rview(v@);
    push_range(v, '\u{1058}', '\u{1059}');
    push_range(v, '\u{105E}', '\u{1060}');
    push_range(v, '\u{1071}', '\u{1074}');
    push_range(v, '\u{1082}', '\u{1082}');
    push_range(v, '\u{1085}', '\u{1086}');
    push_range(v, '\u{108D}', '\u{108D}');
    push_range(v, '\u{109D}', '\u{109D}');
    push_range(v, '\u{10FC}', '\u{10FC}');
    assert(rview(v@) =~= o + case_ignorable_chunk_16());
}

fn push_case_ignorable_chunk_17(v: &mut Vec<ClassUnicodeRange>)
    ensures
        rview(final(v)@) == rview(old(v)@) + case_ignorable_chunk_17(),
{
    let ghost o = rview(v@);
    push_range(v, '\u{135D}', '\u{135F}');
    push_range(v, '\u{1712}', '\u{1714}');
    push_range(v, '\u{1732}', '\u{1733}');
    push_range(v, '\u{1752}', '\u{1753}');
    push_range(v, '\u{1772}', '\u{1773}');
    push_range(v, '\u{17B4}', '\u{17B5}');
    push_range(v, '\u{17B7}', '\u{17BD}');
    push_range(v, '\u{17C6}', '\u{17C6}');
    assert(rview(v@) =~= o + case_ignorable_chunk_17());
}

fn push_case_ignorable_chunk_18(v: &mut Vec<ClassUnicodeRange>)
    ensures
        rview(final(v)@) == rview(old(v)@) + case_ignorable_chunk_18(),
{
    let ghost o = rview(v@);
    push_range(v, '\u{17C9}', '\u{17D3}');
    push_range(v, '\u{17D7}', '\u{17D7}');
    push_range(v, '\u{17DD}', '\u{17DD}');
    push_range(v, '\u{180B}', '\u{180F}');
    push_range(v, '\u{1843}', '\u{1843}');
    push_range(v, '\u{1885}', '\u{1886}');
    push_range(v, '\u{18A9}', '\u{18A9}');
    push_range(v, '\u{1920}', '\u{1922}');
    assert(rview(v@) =~= o + case_ignorable_chunk_18());
}

fn push_case_ignorable_chunk_19(v: &mut Vec<ClassUnicodeRange>)
    ensures
        rview(final(v)@) == rview(old(v)@) + case_ignorable_chunk_19(),
{
    let ghost o = rview(v@);
    push_range(v, '\u{1927}', '\u{1928}');
    push_range(v, '\u{1932}', '\u{1932}');
    push_range(v, '\u{1939}', '\u{193B}');
    push_range(v, '\u{1A17}', '\u{1A18}');
    push_range(v, '\u{1A1B}', '\u{1A1B}');
    push_range(v, '\u{1A56}', '\u{1A56}');
    push_range(v, '\u{1A58}', '\u{1A5E}');
    push_range(v, '\u{1A60}', '\u{1A60}');
    assert(rview(v@) =~= o + case_ignorable_chunk_19());
}

fn push_case_ignorable_chunk_20(v: &mut Vec<ClassUnicodeRange>)
    ensures
        rview(final(v)@) == rview(old(v)@) + case_ignorable_chunk_20(),
{
    let ghost o = rview(v@);
    push_range(v, '\u{1A62}', '\u{1A62}');
    push_range(v, '\u{1A65}', '\u{1A6C}');
    push_range(v, '\u{1A73}', '\u{1A7C}');
    push_range(v, '\u{1A7F}', '\u{1A7F}');
    push_range(v, '\u{1AA7}', '\u{1AA7}');
    push_range(v, '\u{1AB0}', '\u{1ACE}');
    push_range(v, '\u{1B00}', '\u{1B03}');
    push_range(v, '\u{1B34}', '\u{1B34}');
    assert(rview(v@) =~= o + case_ignorable_chunk_20());
}

fn push_case_ignorable_chunk_21(v: &mut Vec<ClassUnicodeRange>)
    ensures
        rview(final(v)@) == rview(old(v)@) + case_ignorable_chunk_21(),
{
    let ghost o = rview(v@);
    push_range(v, '\u{1B36}', '\u{1B3A}');
    push_range(v, '\u{1B3C}', '\u{1B3C}');
    push_range(v, '\u{1B42}', '\u{1B42}');
    push_range(v, '\u{1B6B}', '\u{1B73}');
    push_range(v, '\u{1B80}', '\u{1B81}');
    push_range(v, '\u{1BA2}', '\u{1BA5}');
    push_range(v, '\u{1BA8}', '\u{1BA9}');
    push_range(v, '\u{1BAB}', '\u{1BAD}');
    assert(rview(v@) =~= o + case_ignorable_chunk_21());
}

fn push_case_ignorable_chunk_22(v: &mut Vec<ClassUnicodeRange>)
    ensures
        rview(final(v)@) == rview(old(v)@) + case_ignorable_chunk_22(),
{
    let ghost o = rview(v@);
    push_range(v, '\u{1BE6}', '\u{1BE6}');
    push_range(v, '\u{1BE8}', '\u{1BE9}');
    push_range(v, '\u{1BED}', '\u{1BED}');
    push_range(v, '\u{1BEF}', '\u{1BF1}');
    push_range(v, '\u{1C2C}', '\u{1C33}');
    push_range(v, '\u{1C36}', '\u{1C37}');
    push_range(v, '\u{1C78}', '\u{1C7D}');
    push_range(v, '\u{1CD0}', '\u{1CD2}');
    assert(rview(v@) =~= o + case_ignorable_chunk_22());
}

fn push_case_ignorable_chunk_23(v: &mut Vec<ClassUnicodeRange>)
    ensures
        rview(final(v)@) == rview(old(v)@) + case_ignorable_chunk_23(),
{
    let ghost o = rview(v@);
    push_range(v, '\u{1CD4}', '\u{1CE0}');
    push_range(v, '\u{1CE2}', '\u{1CE8}');
    push_range(v, '\u{1CED}', '\u{1CED}');
    push_range(v, '\u{1CF4}', '\u{1CF4}');
    push_range(v, '\u{1CF8}', '\u{1CF9}');
    push_range(v, '\u{1D2C}', '\u{1D6A}');
    push_range(v, '\u{1D78}', '\u{1D78}');
    push_range(v, '\u{1D9B}', '\u{1DFF}');
    assert(rview(v@) =~= o + case_ignorable_chunk_23());
}

fn push_case_ignorable_chunk_24(v: &mut Vec<ClassUnicodeRange>)
    ensures
        rview(final(v)@) == rview(old(v)@) + case_ignorable_chunk_24(),
{
    let ghost o = rview(v@);
    push_range(v, '\u{1FBD}', '\u{1FBD}');
    push_range(v, '\u{1FBF}', '\u{1FC1}');
    push_range(v, '\u{1FCD}', '\u{1FCF}');
    push_range(v, '\u{1FDD}', '\u{1FDF}');
    push_range(v, '\u{1FED}', '\u{1FEF}');
    push_range(v, '\u{1FFD}', '\u{1FFE}');
    push_range(v, '\u{200B}', '\u{200F}');
    push_range(v, '\u{2018}', '\u{2019}');
    assert(rview(v@) =~= o + case_ignorable_chunk_24());
}

fn push_case_ignorable_chunk_25(v: &mut Vec<ClassUnicodeRange>)
    ensures
        rview(final(v)@) == rview(old(v)@) + case_ignorable_chunk_25(),
{
    let ghost o = rview(v@);
    push_range(v, '\u{2024}', '\u{2024}');
    push_range(v, '\u{2027}', '\u{2027}');
    push_range(v, '\u{202A}', '\u{202E}');
    push_range(v, '\u{2060}', '\u{2064}');
    push_range(v, '\u{2066}', '\u{206F}');
    push_range(v, '\u{2071}', '\u{2071}');
    push_range(v, '\u{207F}', '\u{207F}');
    push_range(v, '\u{2090}', '\u{209C}');
    assert(rview(v@) =~= o + case_ignorable_chunk_25());
}

fn push_case_ignorable_chunk_26(v: &mut Vec<ClassUnicodeRange>)
    ensures
        rview(final(v)@) == rview(old(v)@) + case_ignorable_chunk_26(),
{
    let ghost o = rview(v@);
    push_range(v, '\u{20D0}', '\u{20F0}');
    push_range(v, '\u{2C7C}', '\u{2C7D}');
    push_range(v, '\u{2CEF}', '\u{2CF1}');
    push_range(v, '\u{2D6F}', '\u{2D6F}');
    push_range(v, '\u{2D7F}', '\u{2D7F}');
    push_range(v, '\u{2DE0}', '\u{2DFF}');
    push_range(v, '\u{2E2F}', '\u{2E2F}');
    push_range(v, '\u{3005}', '\u{3005}');
    assert(rview(v@) =~= o + case_ignorable_chunk_26());
}

fn push_case_ignorable_chunk_27(v: &mut Vec<ClassUnicodeRange>)
    ensures
        rview(final(v)@) == rview(old(v)@) + case_ignorable_chunk_27(),
{
    let ghost o = rview(v@);
    push_range(v, '\u{302A}', '\u{302D}');
    push_range(v, '\u{3031}', '\u{3035}');
    push_range(v, '\u{303B}', '\u{303B}');
    push_range(v, '\u{3099}', '\u{309E}');
    push_range(v, '\u{30FC}', '\u{30FE}');
    push_range(v, '\u{A015}', '\u{A015}');
    push_range(v, '\u{A4F8}', '\u{A4FD}');
    push_range(v, '\u{A60C}', '\u{A60C}');
    assert(rview(v@) =~= o + case_ignorable_chunk_27());
}

fn push_case_ignorable_chunk_28(v: &mut Vec<ClassUnicodeRange>)
    ensures
        rview(final(v)@) == rview(old(v)@) + case_ignorable_chunk_28(),
{
    let ghost o = rview(v@);
    push_range(v, '\u{A66F}', '\u{A672}');
    push_range(v, '\u{A674}', '\u{A67D}');
    push_range(v, '\u{A67F}', '\u{A67F}');
    push_range(v, '\u{A69C}', '\u{A69F}');
    push_range(v, '\u{A6F0}', '\u{A6F1}');
    push_range(v, '\u{A700}', '\u{A721}');
    push_range(v, '\u{A770}', '\u{A770}');
    push_range(v, '\u{A788}', '\u{A78A}');
    assert(rview(v@) =~= o + case_ignorable_chunk_28());
}

fn push_case_ignorable_chunk_29(v: &mut Vec<ClassUnicodeRange>)
    ensures
        rview(final(v)@) == rview(old(v)@) + case_ignorable_chunk_29(),
{
    let ghost o = rview(v@);
    push_range(v, '\u{A7F2}', '\u{A7F4}');
    push_range(v, '\u{A7F8}', '\u{A7F9}');
    push_range(v, '\u{A802}', '\u{A802}');
    push_range(v, '\u{A806}', '\u{A806}');
    push_range(v, '\u{A80B}', '\u{A80B}');
    push_range(v, '\u{A825}', '\u{A826}');
    push_range(v, '\u{A82C}', '\u{A82C}');
    push_range(v, '\u{A8C4}', '\u{A8C5}');
    assert(rview(v@) =~= o + case_ignorable_chunk_29());
}

fn push_case_ignorable_chunk_30(v: &mut Vec<ClassUnicodeRange>)
    ensures
        rview(final(v)@) == rview(old(v)@) + case_ignorable_chunk_30(),
{
    let ghost o = rview(v@);
    push_range(v, '\u{A8E0}', '\u{A8F1}');
    push_range(v, '\u{A8FF}', '\u{A8FF}');
    push_range(v, '\u{A926}', '\u{A92D}');
    push_range(v, '\u{A947}', '\u{A951}');
    push_range(v, '\u{A980}', '\u{A982}');
    push_range(v, '\u{A9B3}', '\u{A9B3}');
    push_range(v, '\u{A9B6}', '\u{A9B9}');
    push_range(v, '\u{A9BC}', '\u{A9BD}');
    assert(rview(v@) =~= o + case_ignorable_chunk_30());
}

fn push_case_ignorable_chunk_31(v: &mut Vec<ClassUnicodeRange>)
    ensures
        rview(final(v)@) == rview(old(v)@) + case_ignorable_chunk_31(),
{
    let ghost o = rview(v@);
    push_range(v, '\u{A9CF}', '\u{A9CF}');
    push_range(v, '\u{A9E5}', '\u{A9E6}');
    push_range(v, '\u{AA29}', '\u{AA2E}');
    push_range(v, '\u{AA31}', '\u{AA32}');
    push_range(v, '\u{AA35}', '\u{AA36}');
    push_range(v, '\u{AA43}', '\u{AA43}');
    push_range(v, '\u{AA4C}', '\u{AA4C}');
    push_range(v, '\u{AA70}', '\u{AA70}');
    assert(rview(v@) =~= o + case_ignorable_chunk_31());
}

fn push_case_ignorable_chunk_32(v: &mut Vec<ClassUnicodeRange>)
    ensures
        rview(final(v)@) == rview(old(v)@) + case_ignorable_chunk_32(),
{
    let ghost o = rview(v@);
    push_range(v, '\u{AA7C}', '\u{AA7C}');
    push_range(v, '\u{AAB0}', '\u{AAB0}');
    push_range(v, '\u{AAB2}', '\u{AAB4}');
    push_range(v, '\u{AAB7}', '\u{AAB8}');
    push_range(v, '\u{AABE}', '\u{AABF}');
    push_range(v, '\u{AAC1}', '\u{AAC1}');
    push_range(v, '\u{AADD}', '\u{AADD}');
    push_range(v, '\u{AAEC}', '\u{AAED}');
    assert(rview(v@) =~= o + case_ignorable_chunk_32());
}

fn push_case_ignorable_chunk_33(v: &mut Vec<ClassUnicodeRange>)
    ensures
        rview(final(v)@) == rview(old(v)@) + case_ignorable_chunk_33(),
{
    let ghost o = rview(v@);
    push_range(v, '\u{AAF3}', '\u{AAF4}');
    push_range(v, '\u{AAF6}', '\u{AAF6}');
    push_range(v, '\u{AB5B}', '\u{AB5F}');
    push_range(v, '\u{AB69}', '\u{AB6B}');
    push_range(v, '\u{ABE5}', '\u{ABE5}');
    push_range(v, '\u{ABE8}', '\u{ABE8}');
    push_range(v, '\u{ABED}', '\u{ABED}');
    push_range(v, '\u{FB1E}', '\u{FB1E}');
    assert(rview(v@) =~= o + case_ignorable_chunk_33());
}

fn push_case_ignorable_chunk_34(v: &mut Vec<ClassUnicodeRange>)
    ensures
        rview(final(v)@) == rview(old(v)@) + case_ignorable_chunk_34(),
{
    let ghost o = rview(v@);
    push_range(v, '\u{FBB2}', '\u{FBC2}');
    push_range(v, '\u{FE00}', '\u{FE0F}');
    push_range(v, '\u{FE13}', '\u{FE13}');
    push_range(v, '\u{FE20}', '\u{FE2F}');
    push_range(v, '\u{FE52}', '\u{FE52}');
    push_range(v, '\u{FE55}', '\u{FE55}');
    push_range(v, '\u{FEFF}', '\u{FEFF}');
    push_range(v, '\u{FF07}', '\u{FF07}');
    assert(rview(v@) =~= o + case_ignorable_chunk_34());
}

fn push_case_ignorable_chunk_35(v: &mut Vec<ClassUnicodeRange>)
    ensures
        rview(final(v)@) == rview(old(v)@) + case_ignorable_chunk_35(),
{
    let ghost o = rview(v@);
    push_range(v, '\u{FF0E}', '\u{FF0E}');
    push_range(v, '\u{FF1A}', '\u{FF1A}');
    push_range(v, '\u{FF3E}', '\u{FF3E}');
    push_range(v, '\u{FF40}', '\u{FF40}');
    push_range(v, '\u{FF70}', '\u{FF70}');
    push_range(v, '\u{FF9E}', '\u{FF9F}');
    push_range(v, '\u{FFE3}', '\u{FFE3}');
    push_range(v, '\u{FFF9}', '\u{FFFB}');
    assert(rview(v@) =~= o + case_ignorable_chunk_35());
}

fn push_case_ignorable_chunk_36(v: &mut Vec<ClassUnicodeRange>)
    ensures
        rview(final(v)@) == rview(old(v)@) + case_ignorable_chunk_36(),
{
    let ghost o = rview(v@);
    push_range(v, '\u{101FD}', '\u{101FD}');
    push_range(v, '\u{102E0}', '\u{102E0}');
    push_range(v, '\u{10376}', '\u{1037A}');
    push_range(v, '\u{10780}', '\u{10785}');
    push_range(v, '\u{10787}', '\u{107B0}');
    push_range(v, '\u{107B2}', '\u{107BA}');
    push_range(v, '\u{10A01}', '\u{10A03}');
    push_range(v, '\u{10A05}', '\u{10A06}');
    assert(rview(v@) =~= o + case_ignorable_chunk_36());
}

fn push_case_ignorable_chunk_37(v: &mut Vec<ClassUnicodeRange>)
    ensures
        rview(final(v)@) == rview(old(v)@) + case_ignorable_chunk_37(),
{
    let ghost o = rview(v@);
    push_range(v, '\u{10A0C}', '\u{10A0F}');
    push_range(v, '\u{10A38}', '\u{10A3A}');
    push_range(v, '\u{10A3F}', '\u{10A3F}');
    push_range(v, '\u{10AE5}', '\u{10AE6}');
    push_range(v, '\u{10D24}', '\u{10D27}');
    push_range(v, '\u{10D4E}', '\u{10D4E}');
    push_range(v, '\u{10D69}', '\u{10D6D}');
    push_range(v, '\u{10D6F}', '\u{10D6F}');
    assert(rview(v@) =~= o + case_ignorable_chunk_37());
}

fn push_case_ignorable_chunk_38(v: &mut Vec<ClassUnicodeRange>)
    ensures
        rview(final(v)@) == rview(old(v)@) + case_ignorable_chunk_38(),
{
    let ghost o = rview(v@);
    push_range(v, '\u{10EAB}', '\u{10EAC}');
    push_range(v, '\u{10EFC}', '\u{10EFF}');
    push_range(v, '\u{10F46}', '\u{10F50}');
    push_range(v, '\u{10F82}', '\u{10F85}');
    push_range(v, '\u{11001}', '\u{11001}');
    push_range(v, '\u{11038}', '\u{11046}');
    push_range(v, '\u{11070}', '\u{11070}');
    push_range(v, '\u{11073}', '\u{11074}');
    assert(rview(v@) =~= o + case_ignorable_chunk_38());
}

fn push_case_ignorable_chunk_39(v: &mut Vec<ClassUnicodeRange>)
    ensures
        rview(final(v)@) == rview(old(v)@) + case_ignorable_chunk_39(),
{
    let ghost o = rview(v@);
    push_range(v, '\u{1107F}', '\u{11081}');
    push_range(v, '\u{110B3}', '\u{110B6}');
    push_range(v, '\u{110B9}', '\u{110BA}');
    push_range(v, '\u{110BD}', '\u{110BD}');
    push_range(v, '\u{110C2}', '\u{110C2}');
    push_range(v, '\u{110CD}', '\u{110CD}');
    push_range(v, '\u{11100}', '\u{11102}');
    push_range(v, '\u{11127}', '\u{1112B}');
    assert(rview(v@) =~= o + case_ignorable_chunk_39());
}

fn push_case_ignorable_chunk_40(v: &mut Vec<ClassUnicodeRange>)
    ensures
        rview(final(v)@) == rview(old(v)@) + case_ignorable_chunk_40(),
{
    let ghost o = rview(v@);
    push_range(v, '\u{1112D}', '\u{11134}');
    push_range(v, '\u{11173}', '\u{11173}');
    push_range(v, '\u{11180}', '\u{11181}');
    push_range(v, '\u{111B6}', '\u{111BE}');
    push_range(v, '\u{111C9}', '\u{111CC}');
    push_range(v, '\u{111CF}', '\u{111CF}');
    push_range(v, '\u{1122F}', '\u{11231}');
    push_range(v, '\u{11234}', '\u{11234}');
    assert(rview(v@) =~= o + case_ignorable_chunk_40());
}

fn push_case_ignorable_chunk_41(v: &mut Vec<ClassUnicodeRange>)
    ensures
        rview(final(v)@) == rview(old(v)@) + case_ignorable_chunk_41(),
{
    let ghost o = rview(v@);
    push_range(v, '\u{11236}', '\u{11237}');
    push_range(v, '\u{1123E}', '\u{1123E}');
    push_range(v, '\u{11241}', '\u{11241}');
    push_range(v, '\u{112DF}', '\u{112DF}');
    push_range(v, '\u{112E3}', '\u{112EA}');
    push_range(v, '\u{11300}', '\u{11301}');
    push_range(v, '\u{1133B}', '\u{1133C}');
    push_range(v, '\u{11340}', '\u{11340}');
    assert(rview(v@) =~= o + case_ignorable_chunk_41());
}

fn push_case_ignorable_chunk_42(v: &mut Vec<ClassUnicodeRange>)
    ensures
        rview(final(v)@) == rview(old(v)@) + case_ignorable_chunk_42(),
{
    let ghost o = rview(v@);
    push_range(v, '\u{11366}', '\u{1136C}');
    push_range(v, '\u{11370}', '\u{11374}');
    push_range(v, '\u{113BB}', '\u{113C0}');
    push_range(v, '\u{113CE}', '\u{113CE}');
    push_range(v, '\u{113D0}', '\u{113D0}');
    push_range(v, '\u{113D2}', '\u{113D2}');
    push_range(v, '\u{113E1}', '\u{113E2}');
    push_range(v, '\u{11438}', '\u{1143F}');
    assert(rview(v@) =~= o + case_ignorable_chunk_42());
}

fn push_case_ignorable_chunk_43(v: &mut Vec<ClassUnicodeRange>)
    ensures
        rview(final(v)@) == rview(old(v)@) + case_ignorable_chunk_43(),
{
    let ghost o = rview(v@);
    push_range(v, '\u{11442}', '\u{11444}');
    push_range(v, '\u{11446}', '\u{11446}');
    push_range(v, '\u{1145E}', '\u{1145E}');
    push_range(v, '\u{114B3}', '\u{114B8}');
    push_range(v, '\u{114BA}', '\u{114BA}');
    push_range(v, '\u{114BF}', '\u{114C0}');
    push_range(v, '\u{114C2}', '\u{114C3}');
    push_range(v, '\u{115B2}', '\u{115B5}');
    assert(rview(v@) =~= o + case_ignorable_chunk_43());
}

fn push_case_ignorable_chunk_44(v: &mut Vec<ClassUnicodeRange>)
    ensures
        rview(final(v)@) == rview(old(v)@) + case_ignorable_chunk_44(),
{
    let ghost o = rview(v@);
    push_range(v, '\u{115BC}', '\u{115BD}');
    push_range(v, '\u{115BF}', '\u{115C0}');
    push_range(v, '\u{115DC}', '\u{115DD}');
    push_range(v, '\u{11633}', '\u{1163A}');
    push_range(v, '\u{1163D}', '\u{1163D}');
    push_range(v, '\u{1163F}', '\u{11640}');
    push_range(v, '\u{116AB}', '\u{116AB}');
    push_range(v, '\u{116AD}', '\u{116AD}');
    assert(rview(v@) =~= o + case_ignorable_chunk_44());
}

fn push_case_ignorable_chunk_45(v: &mut Vec<ClassUnicodeRange>)
    ensures
        rview(final(v)@) == rview(old(v)@) + case_ignorable_chunk_45(),
{
    let ghost o = rview(v@);
    push_range(v, '\u{116B0}', '\u{116B5}');
    push_range(v, '\u{116B7}', '\u{116B7}');
    push_range(v, '\u{1171D}', '\u{1171D}');
    push_range(v, '\u{1171F}', '\u{1171F}');
    push_range(v, '\u{11722}', '\u{11725}');
    push_range(v, '\u{11727}', '\u{1172B}');
    push_range(v, '\u{1182F}', '\u{11837}');
    push_range(v, '\u{11839}', '\u{1183A}');
    assert(rview(v@) =~= o + case_ignorable_chunk_45());
}

fn push_case_ignorable_chunk_46(v: &mut Vec<ClassUnicodeRange>)
    ensures
        rview(final(v)@) == rview(old(v)@) + case_ignorable_chunk_46(),
{
    let ghost o = rview(v@);
    push_range(v, '\u{1193B}', '\u{1193C}');
    push_range(v, '\u{1193E}', '\u{1193E}');
    push_range(v, '\u{11943}', '\u{11943}');
    push_range(v, '\u{119D4}', '\u{119D7}');
    push_range(v, '\u{119DA}', '\u{119DB}');
    push_range(v, '\u{119E0}', '\u{119E0}');
    push_range(v, '\u{11A01}', '\u{11A0A}');
    push_range(v, '\u{11A33}', '\u{11A38}');
    assert(rview(v@) =~= o + case_ignorable_chunk_46());
}

fn push_case_ignorable_chunk_47(v: &mut Vec<ClassUnicodeRange>)
    ensures
        rview(final(v)@) == rview(old(v)@) + case_ignorable_chunk_47(),
{
    let ghost o = rview(v@);
    push_range(v, '\u{11A3B}', '\u{11A3E}');
    push_range(v, '\u{11A47}', '\u{11A47}');
    push_range(v, '\u{11A51}', '\u{11A56}');
    push_range(v, '\u{11A59}', '\u{11A5B}');
    push_range(v, '\u{11A8A}', '\u{11A96}');
    push_range(v, '\u{11A98}', '\u{11A99}');
    push_range(v, '\u{11C30}', '\u{11C36}');
    push_range(v, '\u{11C38}', '\u{11C3D}');
    assert(rview(v@) =~= o + case_ignorable_chunk_47());
}

fn push_case_ignorable_chunk_48(v: &mut Vec<ClassUnicodeRange>)
    ensures
        rview(final(v)@) == rview(old(v)@) + case_ignorable_chunk_48(),
{
    let ghost o = rview(v@);
    push_range(v, '\u{11C3F}', '\u{11C3F}');
    push_range(v, '\u{11C92}', '\u{11CA7}');
    push_range(v, '\u{11CAA}', '\u{11CB0}');
    push_range(v, '\u{11CB2}', '\u{11CB3}');
    push_range(v, '\u{11CB5}', '\u{11CB6}');
    push_range(v, '\u{11D31}', '\u{11D36}');
    push_range(v, '\u{11D3A}', '\u{11D3A}');
    push_range(v, '\u{11D3C}', '\u{11D3D}');
    assert(rview(v@) =~= o + case_ignorable_chunk_48());
}

fn push_case_ignorable_chunk_49(v: &mut Vec<ClassUnicodeRange>)
    ensures
        rview(final(v)@) == rview(old(v)@) + case_ignorable_chunk_49(),
{
    let ghost o = rview(v@);
    push_range(v, '\u{11D3F}', '\u{11D45}');
    push_range(v, '\u{11D47}', '\u{11D47}');
    push_range(v, '\u{11D90}', '\u{11D91}');
    push_range(v, '\u{11D95}', '\u{11D95}');
    push_range(v, '\u{11D97}', '\u{11D97}');
    push_range(v, '\u{11EF3}', '\u{11EF4}');
    push_range(v, '\u{11F00}', '\u{11F01}');
    push_range(v, '\u{11F36}', '\u{11F3A}');
    assert(rview(v@) =~= o + case_ignorable_chunk_49());
}

fn push_case_ignorable_chunk_50(v: &mut Vec<ClassUnicodeRange>)
    ensures
        rview(final(v)@) == rview(old(v)@) + case_ignorable_chunk_50(),
{
    let ghost o = rview(v@);
    push_range(v, '\u{11F40}', '\u{11F40}');
    push_range(v, '\u{11F42}', '\u{11F42}');
    push_range(v, '\u{11F5A}', '\u{11F5A}');
    push_range(v, '\u{13430}', '\u{13440}');
    push_range(v, '\u{13447}', '\u{13455}');
    push_range(v, '\u{1611E}', '\u{16129}');
    push_range(v, '\u{1612D}', '\u{1612F}');
    push_range(v, '\u{16AF0}', '\u{16AF4}');
    assert(rview(v@) =~= o + case_ignorable_chunk_50());
}

fn push_case_ignorable_chunk_51(v: &mut Vec<ClassUnicodeRange>)
    ensures
        rview(final(v)@) == rview(old(v)@) + case_ignorable_chunk_51(),
{
    let ghost o = rview(v@);
    push_range(v, '\u{16B30}', '\u{16B36}');
    push_range(v, '\u{16B40}', '\u{16B43}');
    push_range(v, '\u{16D40}', '\u{16D42}');
    push_range(v, '\u{16D6B}', '\u{16D6C}');
    push_range(v, '\u{16F4F}', '\u{16F4F}');
    push_range(v, '\u{16F8F}', '\u{16F9F}');
    push_range(v, '\u{16FE0}', '\u{16FE1}');
    push_range(v, '\u{16FE3}', '\u{16FE4}');
    assert(rview(v@) =~= o + case_ignorable_chunk_51());
}

fn push_case_ignorable_chunk_52(v: &mut Vec<ClassUnicodeRange>)
    ensures
        rview(final(v)@) == rview(old(v)@) + case_ignorable_chunk_52(),
{
    let ghost o = rview(v@);
    push_range(v, '\u{1AFF0}', '\u{1AFF3}');
    push_range(v, '\u{1AFF5}', '\u{1AFFB}');
    push_range(v, '\u{1AFFD}', '\u{1AFFE}');
    push_range(v, '\u{1BC9D}', '\u{1BC9E}');
    push_range(v, '\u{1BCA0}', '\u{1BCA3}');
    push_range(v, '\u{1CF00}', '\u{1CF2D}');
    push_range(v, '\u{1CF30}', '\u{1CF46}');
    push_range(v, '\u{1D167}', '\u{1D169}');
    assert(rview(v@) =~= o + case_ignorable_chunk_52());
}

fn push_case_ignorable_chunk_53(v: &mut Vec<ClassUnicodeRange>)
    ensures
        rview(final(v)@) == rview(old(v)@) + case_ignorable_chunk_53(),
{
    let ghost o = rview(v@);
    push_range(v, '\u{1D173}', '\u{1D182}');
    push_range(v, '\u{1D185}', '\u{1D18B}');
    push_range(v, '\u{1D1AA}', '\u{1D1AD}');
    push_range(v, '\u{1D242}', '\u{1D244}');
    push_range(v, '\u{1DA00}', '\u{1DA36}');
    push_range(v, '\u{1DA3B}', '\u{1DA6C}');
    push_range(v, '\u{1DA75}', '\u{1DA75}');
    push_range(v, '\u{1DA84}', '\u{1DA84}');
    assert(rview(v@) =~= o + case_ignorable_chunk_53());
}

fn push_case_ignorable_chunk_54(v: &mut Vec<ClassUnicodeRange>)
    ensures
        rview(final(v)@) == rview(old(v)@) + case_ignorable_chunk_54(),
{
    let ghost o = rview(v@);
    push_range(v, '\u{1DA9B}', '\u{1DA9F}');
    push_range(v, '\u{1DAA1}', '\u{1DAAF}');
    push_range(v, '\u{1E000}', '\u{1E006}');
    push_range(v, '\u{1E008}', '\u{1E018}');
    push_range(v, '\u{1E01B}', '\u{1E021}');
    push_range(v, '\u{1E023}', '\u{1E024}');
    push_range(v, '\u{1E026}', '\u{1E02A}');
    push_range(v, '\u{1E030}', '\u{1E06D}');
    assert(rview(v@) =~= o + case_ignorable_chunk_54());
}

fn push_case_ignorable_chunk_55(v: &mut Vec<ClassUnicodeRange>)
    ensures
        rview(final(v)@) == rview(old(v)@) + case_ignorable_chunk_55(),
{
    let ghost o = rview(v@);
    push_range(v, '\u{1E08F}', '\u{1E08F}');
    push_range(v, '\u{1E130}', '\u{1E13D}');
    push_range(v, '\u{1E2AE}', '\u{1E2AE}');
    push_range(v, '\u{1E2EC}', '\u{1E2EF}');
    push_range(v, '\u{1E4EB}', '\u{1E4EF}');
    push_range(v, '\u{1E5EE}', '\u{1E5EF}');
    push_range(v, '\u{1E8D0}', '\u{1E8D6}');
    push_range(v, '\u{1E944}', '\u{1E94B}');
    assert(rview(v@) =~= o + case_ignorable_chunk_55());
}

fn push_case_ignorable_chunk_56(v: &mut Vec<ClassUnicodeRange>)
    ensures
        rview(final(v)@) == rview(old(v)@) + case_ignorable_chunk_56(),
{
    let ghost o = rview(v@);
    push_range(v, '\u{1F3FB}', '\u{1F3FF}');
    push_range(v, '\u{E0001}', '\u{E0001}');
    push_range(v, '\u{E0020}', '\u{E007F}');
    push_range(v, '\u{E0100}', '\u{E01EF}');
    assert(rview(v@) =~= o + case_ignorable_chunk_56());
}

fn push_case_ignorable_block_0(v: &mut Vec<ClassUnicodeRange>)
    ensures
        rview(final(v)@) == rview(old(v)@) + case_ignorable_block_0(),
{
    let ghost o = rview(v@);
    push_case_ignorable_chunk_0(v);
    assert(rview(v@) =~= o + (case_ignorable_chunk_0()));
    push_case_ignorable_chunk_1(v);
    assert(rview(v@) =~= o + (case_ignorable_chunk_0() + case_ignorable_chunk_1()));
    push_case_ignorable_chunk_2(v);
    assert(rview(v@) =~= o + (case_ignorable_chunk_0() + case_ignorable_chunk_1() + case_ignorable_chunk_2()));
    push_case_ignorable_chunk_3(v);
    assert(rview(v@) =~= o + (case_ignorable_chunk_0() + case_ignorable_chunk_1() + case_ignorable_chunk_2() + case_ignorable_chunk_3()));
    push_case_ignorable_chunk_4(v);
    assert(rview(v@) =~= o + (case_ignorable_chunk_0() + case_ignorable_chunk_1() + case_ignorable_chunk_2() + case_ignorable_chunk_3() + case_ignorable_chunk_4()));
    push_case_ignorable_chunk_5(v);
    assert(rview(v@) =~= o + (case_ignorable_chunk_0() + case_ignorable_chunk_1() + case_ignorable_chunk_2() + case_ignorable_chunk_3() + case_ignorable_chunk_4() + case_ignorable_chunk_5()));
    push_case_ignorable_chunk_6(v);
    assert(rview(v@) =~= o + (case_ignorable_chunk_0() + case_ignorable_chunk_1() + case_ignorable_chunk_2() + case_ignorable_chunk_3() + case_ignorable_chunk_4() + case_ignorable_chunk_5() + case_ignorable_chunk_6()));
    push_case_ignorable_chunk_7(v);
    assert(rview(v@) =~= o + (case_ignorable_chunk_0() + case_ignorable_chunk_1() + case_ignorable_chunk_2() + case_ignorable_chunk_3() + case_ignorable_chunk_4() + case_ignorable_chunk_5() + case_ignorable_chunk_6() + case_ignorable_chunk_7()));
    push_case_ignorable_chunk_8(v);
    assert(rview(v@) =~= o + (case_ignorable_chunk_0() + case_ignorable_chunk_1() + case_ignorable_chunk_2() + case_ignorable_chunk_3() + case_ignorable_chunk_4() + case_ignorable_chunk_5() + case_ignorable_chunk_6() + case_ignorable_chunk_7() + case_ignorable_chunk_8()));
    push_case_ignorable_chunk_9(v);
    assert(rview(v@) =~= o + (case_ignorable_chunk_0() + case_ignorable_chunk_1() + case_ignorable_chunk_2() + case_ignorable_chunk_3() + case_ignorable_chunk_4() + case_ignorable_chunk_5() + case_ignorable_chunk_6() + case_ignorable_chunk_7() + case_ignorable_chunk_8() + case_ignorable_chunk_9()));
}

fn push_case_ignorable_block_1(v: &mut Vec<ClassUnicodeRange>)
    ensures
        rview(final(v)@) == rview(old(v)@) + case_ignorable_block_1(),
{
    let ghost o = rview(v@);
    push_case_ignorable_chunk_10(v);
    assert(rview(v@) =~= o + (case_ignorable_chunk_10()));
    push_case_ignorable_chunk_11(v);
    assert(rview(v@) =~= o + (case_ignorable_chunk_10() + case_ignorable_chunk_11()));
    push_case_ignorable_chunk_12(v);
    assert(rview(v@) =~= o + (case_ignorable_chunk_10() + case_ignorable_chunk_11() + case_ignorable_chunk_12()));
    push_case_ignorable_chunk_13(v);
    assert(rview(v@) =~= o + (case_ignorable_chunk_10() + case_ignorable_chunk_11() + case_ignorable_chunk_12() + case_ignorable_chunk_13()));
    push_case_ignorable_chunk_14(v);
    assert(rview(v@) =~= o + (case_ignorable_chunk_10() + case_ignorable_chunk_11() + case_ignorable_chunk_12() + case_ignorable_chunk_13() + case_ignorable_chunk_14()));
    push_case_ignorable_chunk_15(v);
    assert(rview(v@) =~= o + (case_ignorable_chunk_10() + case_ignorable_chunk_11() + case_ignorable_chunk_12() + case_ignorable_chunk_13() + case_ignorable_chunk_14() + case_ignorable_chunk_15()));
    push_case_ignorable_chunk_16(v);
    assert(rview(v@) =~= o + (case_ignorable_chunk_10() + case_ignorable_chunk_11() + case_ignorable_chunk_12() + case_ignorable_chunk_13() + case_ignorable_chunk_14() + case_ignorable_chunk_15() + case_ignorable_chunk_16()));
    push_case_ignorable_chunk_17(v);
    assert(rview(v@) =~= o + (case_ignorable_chunk_10() + case_ignorable_chunk_11() + case_ignorable_chunk_12() + case_ignorable_chunk_13() + case_ignorable_chunk_14() + case_ignorable_chunk_15() + case_ignorable_chunk_16() + case_ignorable_chunk_17()));
    push_case_ignorable_chunk_18(v);
    assert(rview(v@) =~= o + (case_ignorable_chunk_10() + case_ignorable_chunk_11() + case_ignorable_chunk_12() + case_ignorable_chunk_13() + case_ignorable_chunk_14() + case_ignorable_chunk_15() + case_ignorable_chunk_16() + case_ignorable_chunk_17() + case_ignorable_chunk_18()));
    push_case_ignorable_chunk_19(v);
    assert(rview(v@) =~= o + (case_ignorable_chunk_10() + case_ignorable_chunk_11() + case_ignorable_chunk_12() + case_ignorable_chunk_13() + case_ignorable_chunk_14() + case_ignorable_chunk_15() + case_ignorable_chunk_16() + case_ignorable_chunk_17() + case_ignorable_chunk_18() + case_ignorable_chunk_19()));
}

fn push_case_ignorable_block_2(v: &mut Vec<ClassUnicodeRange>)
    ensures
        rview(final(v)@) == rview(old(v)@) + case_ignorable_block_2(),
{
    let ghost o = rview(v@);
    push_case_ignorable_chunk_20(v);
    assert(rview(v@) =~= o + (case_ignorable_chunk_20()));
    push_case_ignorable_chunk_21(v);
    assert(rview(v@) =~= o + (case_ignorable_chunk_20() + case_ignorable_chunk_21()));
    push_case_ignorable_chunk_22(v);
    assert(rview(v@) =~= o + (case_ignorable_chunk_20() + case_ignorable_chunk_21() + case_ignorable_chunk_22()));
    push_case_ignorable_chunk_23(v);
    assert(rview(v@) =~= o + (case_ignorable_chunk_20() + case_ignorable_chunk_21() + case_ignorable_chunk_22() + case_ignorable_chunk_23()));
    push_case_ignorable_chunk_24(v);
    assert(rview(v@) =~= o + (case_ignorable_chunk_20() + case_ignorable_chunk_21() + case_ignorable_chunk_22() + case_ignorable_chunk_23() + case_ignorable_chunk_24()));
    push_case_ignorable_chunk_25(v);
    assert(rview(v@) =~= o + (case_ignorable_chunk_20() + case_ignorable_chunk_21() + case_ignorable_chunk_22() + case_ignorable_chunk_23() + case_ignorable_chunk_24() + case_ignorable_chunk_25()));
    push_case_ignorable_chunk_26(v);
    assert(rview(v@) =~= o + (case_ignorable_chunk_20() + case_ignorable_chunk_21() + case_ignorable_chunk_22() + case_ignorable_chunk_23() + case_ignorable_chunk_24() + case_ignorable_chunk_25() + case_ignorable_chunk_26()));
    push_case_ignorable_chunk_27(v);
    assert(rview(v@) =~= o + (case_ignorable_chunk_20() + case_ignorable_chunk_21() + case_ignorable_chunk_22() + case_ignorable_chunk_23() + case_ignorable_chunk_24() + case_ignorable_chunk_25() + case_ignorable_chunk_26() + case_ignorable_chunk_27()));
    push_case_ignorable_chunk_28(v);
    assert(rview(v@) =~= o + (case_ignorable_chunk_20() + case_ignorable_chunk_21() + case_ignorable_chunk_22() + case_ignorable_chunk_23() + case_ignorable_chunk_24() + case_ignorable_chunk_25() + case_ignorable_chunk_26() + case_ignorable_chunk_27() + case_ignorable_chunk_28()));
    push_case_ignorable_chunk_29(v);
    assert(rview(v@) =~= o + (case_ignorable_chunk_20() + case_ignorable_chunk_21() + case_ignorable_chunk_22() + case_ignorable_chunk_23() + case_ignorable_chunk_24() + case_ignorable_chunk_25() + case_ignorable_chunk_26() + case_ignorable_chunk_27() + case_ignorable_chunk_28() + case_ignorable_chunk_29()));
}

fn push_case_ignorable_block_3(v: &mut Vec<ClassUnicodeRange>)
    ensures
        rview(final(v)@) == rview(old(v)@) + case_ignorable_block_3(),
{
    let ghost o = rview(v@);
    push_case_ignorable_chunk_30(v);
    assert(rview(v@) =~= o + (case_ignorable_chunk_30()));
    push_case_ignorable_chunk_31(v);
    assert(rview(v@) =~= o + (case_ignorable_chunk_30() + case_ignorable_chunk_31()));
    push_case_ignorable_chunk_32(v);
    assert(rview(v@) =~= o + (case_ignorable_chunk_30() + case_ignorable_chunk_31() + case_ignorable_chunk_32()));
    push_case_ignorable_chunk_33(v);
    assert(rview(v@) =~= o + (case_ignorable_chunk_30() + case_ignorable_chunk_31() + case_ignorable_chunk_32() + case_ignorable_chunk_33()));
    push_case_ignorable_chunk_34(v);
    assert(rview(v@) =~= o + (case_ignorable_chunk_30() + case_ignorable_chunk_31() + case_ignorable_chunk_32() + case_ignorable_chunk_33() + case_ignorable_chunk_34()));
    push_case_ignorable_chunk_35(v);
    assert(rview(v@) =~= o + (case_ignorable_chunk_30() + case_ignorable_chunk_31() + case_ignorable_chunk_32() + case_ignorable_chunk_33() + case_ignorable_chunk_34() + case_ignorable_chunk_35()));
    push_case_ignorable_chunk_36(v);
    assert(rview(v@) =~= o + (case_ignorable_chunk_30() + case_ignorable_chunk_31() + case_ignorable_chunk_32() + case_ignorable_chunk_33() + case_ignorable_chunk_34() + case_ignorable_chunk_35() + case_ignorable_chunk_36()));
    push_case_ignorable_chunk_37(v);
    assert(rview(v@) =~= o + (case_ignorable_chunk_30() + case_ignorable_chunk_31() + case_ignorable_chunk_32() + case_ignorable_chunk_33() + case_ignorable_chunk_34() + case_ignorable_chunk_35() + case_ignorable_chunk_36() + case_ignorable_chunk_37()));
    push_case_ignorable_chunk_38(v);
    assert(rview(v@) =~= o + (case_ignorable_chunk_30() + case_ignorable_chunk_31() + case_ignorable_chunk_32() + case_ignorable_chunk_33() + case_ignorable_chunk_34() + case_ignorable_chunk_35() + case_ignorable_chunk_36() + case_ignorable_chunk_37() + case_ignorable_chunk_38()));
    push_case_ignorable_chunk_39(v);
    assert(rview(v@) =~= o + (case_ignorable_chunk_30() + case_ignorable_chunk_31() + case_ignorable_chunk_32() + case_ignorable_chunk_33() + case_ignorable_chunk_34() + case_ignorable_chunk_35() + case_ignorable_chunk_36() + case_ignorable_chunk_37() + case_ignorable_chunk_38() + case_ignorable_chunk_39()));
}

fn push_case_ignorable_block_4(v: &mut Vec<ClassUnicodeRange>)
    ensures
        rview(final(v)@) == rview(old(v)@) + case_ignorable_block_4(),
{
    let ghost o = rview(v@);
    push_case_ignorable_chunk_40(v);
    assert(rview(v@) =~= o + (case_ignorable_chunk_40()));
    push_case_ignorable_chunk_41(v);
    assert(rview(v@) =~= o + (case_ignorable_chunk_40() + case_ignorable_chunk_41()));
    push_case_ignorable_chunk_42(v);
    assert(rview(v@) =~= o + (case_ignorable_chunk_40() + case_ignorable_chunk_41() + case_ignorable_chunk_42()));
    push_case_ignorable_chunk_43(v);
    assert(rview(v@) =~= o + (case_ignorable_chunk_40() + case_ignorable_chunk_41() + case_ignorable_chunk_42() + case_ignorable_chunk_43()));
    push_case_ignorable_chunk_44(v);
    assert(rview(v@) =~= o + (case_ignorable_chunk_40() + case_ignorable_chunk_41() + case_ignorable_chunk_42() + case_ignorable_chunk_43() + case_ignorable_chunk_44()));
    push_case_ignorable_chunk_45(v);
    assert(rview(v@) =~= o + (case_ignorable_chunk_40() + case_ignorable_chunk_41() + case_ignorable_chunk_42() + case_ignorable_chunk_43() + case_ignorable_chunk_44() + case_ignorable_chunk_45()));
    push_case_ignorable_chunk_46(v);
    assert(rview(v@) =~= o + (case_ignorable_chunk_40() + case_ignorable_chunk_41() + case_ignorable_chunk_42() + case_ignorable_chunk_43() + case_ignorable_chunk_44() + case_ignorable_chunk_45() + case_ignorable_chunk_46()));
    push_case_ignorable_chunk_47(v);
    assert(rview(v@) =~= o + (case_ignorable_chunk_40() + case_ignorable_chunk_41() + case_ignorable_chunk_42() + case_ignorable_chunk_43() + case_ignorable_chunk_44() + case_ignorable_chunk_45() + case_ignorable_chunk_46() + case_ignorable_chunk_47()));
    push_case_ignorable_chunk_48(v);
    assert(rview(v@) =~= o + (case_ignorable_chunk_40() + case_ignorable_chunk_41() + case_ignorable_chunk_42() + case_ignorable_chunk_43() + case_ignorable_chunk_44() + case_ignorable_chunk_45() + case_ignorable_chunk_46() + case_ignorable_chunk_47() + case_ignorable_chunk_48()));
    push_case_ignorable_chunk_49(v);
    assert(rview(v@) =~= o + (case_ignorable_chunk_40() + case_ignorable_chunk_41() + case_ignorable_chunk_42() + case_ignorable_chunk_43() + case_ignorable_chunk_44() + case_ignorable_chunk_45() + case_ignorable_chunk_46() + case_ignorable_chunk_47() + case_ignorable_chunk_48() + case_ignorable_chunk_49()));
}

fn push_case_ignorable_block_5(v: &mut Vec<ClassUnicodeRange>)
    ensures
        rview(final(v)@) == rview(old(v)@) + case_ignorable_block_5(),
{
    let ghost o = rview(v@);
    push_case_ignorable_chunk_50(v);
    assert(rview(v@) =~= o + (case_ignorable_chunk_50()));
    push_case_ignorable_chunk_51(v);
    assert(rview(v@) =~= o + (case_ignorable_chunk_50() + case_ignorable_chunk_51()));
    push_case_ignorable_chunk_52(v);
    assert(rview(v@) =~= o + (case_ignorable_chunk_50() + case_ignorable_chunk_51() + case_ignorable_chunk_52()));
    push_case_ignorable_chunk_53(v);
    assert(rview(v@) =~= o + (case_ignorable_chunk_50() + case_ignorable_chunk_51() + case_ignorable_chunk_52() + case_ignorable_chunk_53()));
    push_case_ignorable_chunk_54(v);
    assert(rview(v@) =~= o + (case_ignorable_chunk_50() + case_ignorable_chunk_51() + case_ignorable_chunk_52() + case_ignorable_chunk_53() + case_ignorable_chunk_54()));
    push_case_ignorable_chunk_55(v);
    assert(rview(v@) =~= o + (case_ignorable_chunk_50() + case_ignorable_chunk_51() + case_ignorable_chunk_52() + case_ignorable_chunk_53() + case_ignorable_chunk_54() + case_ignorable_chunk_55()));
    push_case_ignorable_chunk_56(v);
    assert(rview(v@) =~= o + (case_ignorable_chunk_50() + case_ignorable_chunk_51() + case_ignorable_chunk_52() + case_ignorable_chunk_53() + case_ignorable_chunk_54() + case_ignorable_chunk_55() + case_ignorable_chunk_56()));
}

pub fn case_ignorable_class() -> (v: Vec<ClassUnicodeRange>)
    ensures
        rview(v@) == case_ignorable_ranges(),
{
    let mut v: Vec<ClassUnicodeRange> = Vec::new();
    assert(rview(v@) =~= Seq::<SRange>::empty());
    push_case_ignorable_block_0(&mut v);
    assert(rview(v@) =~= case_ignorable_block_0());
    push_case_ignorable_block_1(&mut v);
    assert(rview(v@) =~= case_ignorable_block_0() + case_ignorable_block_1());
    push_case_ignorable_block_2(&mut v);
    assert(rview(v@) =~= case_ignorable_block_0() + case_ignorable_block_1() + case_ignorable_block_2());
    push_case_ignorable_block_3(&mut v);
    assert(rview(v@) =~= case_ignorable_block_0() + case_ignorable_block_1() + case_ignorable_block_2() + case_ignorable_block_3());
    push_case_ignorable_block_4(&mut v);
    assert(rview(v@) =~= case_ignorable_block_0() + case_ignorable_block_1() + case_ignorable_block_2() + case_ignorable_block_3() + case_ignorable_block_4());
    push_case_ignorable_block_5(&mut v);
    assert(rview(v@) =~= case_ignorable_block_0() + case_ignorable_block_1() + case_ignorable_block_2() + case_ignorable_block_3() + case_ignorable_block_4() + case_ignorable_block_5());
    v
}

pub open spec fn cased_chunk_0() -> Seq<SRange> {
    seq![(0x41int, 0x5Aint), (0x61int, 0x7Aint), (0xAAint, 0xAAint), (0xB5int, 0xB5int), (0xBAint, 0xBAint), (0xC0int, 0xD6int), (0xD8int, 0xF6int), (0xF8int, 0x1BAint)]
}

pub open spec fn cased_chunk_1() -> Seq<SRange> {
    seq![(0x1BCint, 0x1BFint), (0x1C4int, 0x293int), (0x295int, 0x2B8int), (0x2C0int, 0x2C1int), (0x2E0int, 0x2E4int), (0x345int, 0x345int), (0x370int, 0x373int), (0x376int, 0x377int)]
}

pub open spec fn cased_chunk_2() -> Seq<SRange> {
    seq![(0x37Aint, 0x37Dint), (0x37Fint, 0x37Fint), (0x386int, 0x386int), (0x388int, 0x38Aint), (0x38Cint, 0x38Cint), (0x38Eint, 0x3A1int), (0x3A3int, 0x3F5int), (0x3F7int, 0x481int)]
}

pub open spec fn cased_chunk_3() -> Seq<SRange> {
    seq![(0x48Aint, 0x52Fint), (0x531int, 0x556int), (0x560int, 0x588int), (0x10A0int, 0x10C5int), (0x10C7int, 0x10C7int), (0x10CDint, 0x10CDint), (0x10D0int, 0x10FAint), (0x10FCint, 0x10FFint)]
}

pub open spec fn cased_chunk_4() -> Seq<SRange> {
    seq![(0x13A0int, 0x13F5int), (0x13F8int, 0x13FDint), (0x1C80int, 0x1C8Aint), (0x1C90int, 0x1CBAint), (0x1CBDint, 0x1CBFint), (0x1D00int, 0x1DBFint), (0x1E00int, 0x1F15int), (0x1F18int, 0x1F1Dint)]
}

pub open spec fn cased_chunk_5() -> Seq<SRange> {
    seq![(0x1F20int, 0x1F45int), (0x1F48int, 0x1F4Dint), (0x1F50int, 0x1F57int), (0x1F59int, 0x1F59int), (0x1F5Bint, 0x1F5Bint), (0x1F5Dint, 0x1F5Dint), (0x1F5Fint, 0x1F7Dint), (0x1F80int, 0x1FB4int)]
}

pub open spec fn cased_chunk_6() -> Seq<SRange> {
    seq![(0x1FB6int, 0x1FBCint), (0x1FBEint, 0x1FBEint), (0x1FC2int, 0x1FC4int), (0x1FC6int, 0x1FCCint), (0x1FD0int, 0x1FD3int), (0x1FD6int, 0x1FDBint), (0x1FE0int, 0x1FECint), (0x1FF2int, 0x1FF4int)]
}

pub open spec fn cased_chunk_7() -> Seq<SRange> {
    seq![(0x1FF6int, 0x1FFCint), (0x2071int, 0x2071int), (0x207Fint, 0x207Fint), (0x2090int, 0x209Cint), (0x2102int, 0x2102int), (0x2107int, 0x2107int), (0x210Aint, 0x2113int), (0x2115int, 0x2115int)]
}

pub open spec fn cased_chunk_8() -> Seq<SRange> {
    seq![(0x2119int, 0x211Dint), (0x2124int, 0x2124int), (0x2126int, 0x2126int), (0x2128int, 0x2128int), (0x212Aint, 0x212Dint), (0x212Fint, 0x2134int), (0x2139int, 0x2139int), (0x213Cint, 0x213Fint)]
}

pub open spec fn cased_chunk_9() -> Seq<SRange> {
    seq![(0x2145int, 0x2149int), (0x214Eint, 0x214Eint), (0x2160int, 0x217Fint), (0x2183int, 0x2184int), (0x24B6int, 0x24E9int), (0x2C00int, 0x2CE4int), (0x2CEBint, 0x2CEEint), (0x2CF2int, 0x2CF3int)]
}

pub open spec fn cased_chunk_10() -> Seq<SRange> {
    seq![(0x2D00int, 0x2D25int), (0x2D27int, 0x2D27int), (0x2D2Dint, 0x2D2Dint), (0xA640int, 0xA66Dint), (0xA680int, 0xA69Dint), (0xA722int, 0xA787int), (0xA78Bint, 0xA78Eint), (0xA790int, 0xA7CDint)]
}

pub open spec fn cased_chunk_11() -> Seq<SRange> {
    seq![(0xA7D0int, 0xA7D1int), (0xA7D3int, 0xA7D3int), (0xA7D5int, 0xA7DCint), (0xA7F2int, 0xA7F6int), (0xA7F8int, 0xA7FAint), (0xAB30int, 0xAB5Aint), (0xAB5Cint, 0xAB69int), (0xAB70int, 0xABBFint)]
}

pub open spec fn cased_chunk_12() -> Seq<SRange> {
    seq![(0xFB00int, 0xFB06int), (0xFB13int, 0xFB17int), (0xFF21int, 0xFF3Aint), (0xFF41int, 0xFF5Aint), (0x10400int, 0x1044Fint), (0x104B0int, 0x104D3int), (0x104D8int, 0x104FBint), (0x10570int, 0x1057Aint)]
}

pub open spec fn cased_chunk_13() -> Seq<SRange> {
    seq![(0x1057Cint, 0x1058Aint), (0x1058Cint, 0x10592int), (0x10594int, 0x10595int), (0x10597int, 0x105A1int), (0x105A3int, 0x105B1int), (0x105B3int, 0x105B9int), (0x105BBint, 0x105BCint), (0x10780int, 0x10780int)]
}

pub open spec fn cased_chunk_14() -> Seq<SRange> {
    seq![(0x10783int, 0x10785int), (0x10787int, 0x107B0int), (0x107B2int, 0x107BAint), (0x10C80int, 0x10CB2int), (0x10CC0int, 0x10CF2int), (0x10D50int, 0x10D65int), (0x10D70int, 0x10D85int), (0x118A0int, 0x118DFint)]
}

pub open spec fn cased_chunk_15() -> Seq<SRange> {
    seq![(0x16E40int, 0x16E7Fint), (0x1D400int, 0x1D454int), (0x1D456int, 0x1D49Cint), (0x1D49Eint, 0x1D49Fint), (0x1D4A2int, 0x1D4A2int), (0x1D4A5int, 0x1D4A6int), (0x1D4A9int, 0x1D4ACint), (0x1D4AEint, 0x1D4B9int)]
}

pub open spec fn cased_chunk_16() -> Seq<SRange> {
    seq![(0x1D4BBint, 0x1D4BBint), (0x1D4BDint, 0x1D4C3int), (0x1D4C5int, 0x1D505int), (0x1D507int, 0x1D50Aint), (0x1D50Dint, 0x1D514int), (0x1D516int, 0x1D51Cint), (0x1D51Eint, 0x1D539int), (0x1D53Bint, 0x1D53Eint)]
}

pub open spec fn cased_chunk_17() -> Seq<SRange> {
    seq![(0x1D540int, 0x1D544int), (0x1D546int, 0x1D546int), (0x1D54Aint, 0x1D550int), (0x1D552int, 0x1D6A5int), (0x1D6A8int, 0x1D6C0int), (0x1D6C2int, 0x1D6DAint), (0x1D6DCint, 0x1D6FAint), (0x1D6FCint, 0x1D714int)]
}

pub open spec fn cased_chunk_18() -> Seq<SRange> {
    seq![(0x1D716int, 0x1D734int), (0x1D736int, 0x1D74Eint), (0x1D750int, 0x1D76Eint), (0x1D770int, 0x1D788int), (0x1D78Aint, 0x1D7A8int), (0x1D7AAint, 0x1D7C2int), (0x1D7C4int, 0x1D7CBint), (0x1DF00int, 0x1DF09int)]
}

pub open spec fn cased_chunk_19() -> Seq<SRange> {
    seq![(0x1DF0Bint, 0x1DF1Eint), (0x1DF25int, 0x1DF2Aint), (0x1E030int, 0x1E06Dint), (0x1E900int, 0x1E943int), (0x1F130int, 0x1F149int), (0x1F150int, 0x1F169int), (0x1F170int, 0x1F189int)]
}

pub open spec fn cased_block_0() -> Seq<SRange> {
    cased_chunk_0() + cased_chunk_1() + cased_chunk_2() + cased_chunk_3() + cased_chunk_4() + cased_chunk_5() + cased_chunk_6() + cased_chunk_7() + cased_chunk_8() + cased_chunk_9()
}

pub open spec fn cased_block_1() -> Seq<SRange> {
    cased_chunk_10() + cased_chunk_11() + cased_chunk_12() + cased_chunk_13() + cased_chunk_14() + cased_chunk_15() + cased_chunk_16() + cased_chunk_17() + cased_chunk_18() + cased_chunk_19()
}

/// The ranges of the property Cased.
pub open spec fn cased_ranges() -> Seq<SRange> {
    cased_block_0() + cased_block_1()
}

proof fn lemma_cased_block_0()
    ensures
        canonical(cased_block_0()),
        cased_block_0().len() > 0,
        cased_block_0()[0] == cased_chunk_0()[0],
        cased_block_0().last() == cased_chunk_9().last(),
{
    reveal_with_fuel(canonical, 9);
    assert(canonical(cased_chunk_0()));
    assert(canonical(cased_chunk_1()));
    assert(canonical(cased_chunk_2()));
    assert(canonical(cased_chunk_3()));
    assert(canonical(cased_chunk_4()));
    assert(canonical(cased_chunk_5()));
    assert(canonical(cased_chunk_6()));
    assert(canonical(cased_chunk_7()));
    assert(canonical(cased_chunk_8()));
    assert(canonical(cased_chunk_9()));
    lemma_canonical_append(cased_chunk_0(), cased_chunk_1());
    lemma_canonical_append(cased_chunk_0() + cased_chunk_1(), cased_chunk_2());
    lemma_canonical_append(cased_chunk_0() + cased_chunk_1() + cased_chunk_2(), cased_chunk_3());
    lemma_canonical_append(cased_chunk_0() + cased_chunk_1() + cased_chunk_2() + cased_chunk_3(), cased_chunk_4());
    lemma_canonical_append(cased_chunk_0() + cased_chunk_1() + cased_chunk_2() + cased_chunk_3() + cased_chunk_4(), cased_chunk_5());
    lemma_canonical_append(cased_chunk_0() + cased_chunk_1() + cased_chunk_2() + cased_chunk_3() + cased_chunk_4() + cased_chunk_5(), cased_chunk_6());
    lemma_canonical_append(cased_chunk_0() + cased_chunk_1() + cased_chunk_2() + cased_chunk_3() + cased_chunk_4() + cased_chunk_5() + cased_chunk_6(), cased_chunk_7());
    lemma_canonical_append(cased_chunk_0() + cased_chunk_1() + cased_chunk_2() + cased_chunk_3() + cased_chunk_4() + cased_chunk_5() + cased_chunk_6() + cased_chunk_7(), cased_chunk_8());
    lemma_canonical_append(cased_chunk_0() + cased_chunk_1() + cased_chunk_2() + cased_chunk_3() + cased_chunk_4() + cased_chunk_5() + cased_chunk_6() + cased_chunk_7() + cased_chunk_8(), cased_chunk_9());
}

proof fn lemma_cased_block_1()
    ensures
        canonical(cased_block_1()),
        cased_block_1().len() > 0,
        cased_block_1()[0] == cased_chunk_10()[0],
        cased_block_1().last() == cased_chunk_19().last(),
{
    reveal_with_fuel(canonical, 9);
    assert(canonical(cased_chunk_10()));
    assert(canonical(cased_chunk_11()));
    assert(canonical(cased_chunk_12()));
    assert(canonical(cased_chunk_13()));
    assert(canonical(cased_chunk_14()));
    assert(canonical(cased_chunk_15()));
    assert(canonical(cased_chunk_16()));
    assert(canonical(cased_chunk_17()));
    assert(canonical(cased_chunk_18()));
    assert(canonical(cased_chunk_19()));
    lemma_canonical_append(cased_chunk_10(), cased_chunk_11());
    lemma_canonical_append(cased_chunk_10() + cased_chunk_11(), cased_chunk_12());
    lemma_canonical_append(cased_chunk_10() + cased_chunk_11() + cased_chunk_12(), cased_chunk_13());
    lemma_canonical_append(cased_chunk_10() + cased_chunk_11() + cased_chunk_12() + cased_chunk_13(), cased_chunk_14());
    lemma_canonical_append(cased_chunk_10() + cased_chunk_11() + cased_chunk_12() + cased_chunk_13() + cased_chunk_14(), cased_chunk_15());
    lemma_canonical_append(cased_chunk_10() + cased_chunk_11() + cased_chunk_12() + cased_chunk_13() + cased_chunk_14() + cased_chunk_15(), cased_chunk_16());
    lemma_canonical_append(cased_chunk_10() + cased_chunk_11() + cased_chunk_12() + cased_chunk_13() + cased_chunk_14() + cased_chunk_15() + cased_chunk_16(), cased_chunk_17());
    lemma_canonical_append(cased_chunk_10() + cased_chunk_11() + cased_chunk_12() + cased_chunk_13() + cased_chunk_14() + cased_chunk_15() + cased_chunk_16() + cased_chunk_17(), cased_chunk_18());
    lemma_canonical_append(cased_chunk_10() + cased_chunk_11() + cased_chunk_12() + cased_chunk_13() + cased_chunk_14() + cased_chunk_15() + cased_chunk_16() + cased_chunk_17() + cased_chunk_18(), cased_chunk_19());
}

pub proof fn lemma_cased_canonical()
    ensures
        canonical(cased_ranges()),
{
    lemma_cased_block_0();
    lemma_cased_block_1();
    lemma_canonical_append(cased_block_0(), cased_block_1());
}

fn push_cased_chunk_0(v: &mut Vec<ClassUnicodeRange>)
    ensures
        rview(final(v)@) == rview(old(v)@) + cased_chunk_0(),
{
    let ghost o = rview(v@);
    push_range(v, '\u{41}', '\u{5A}');
    push_range(v, '\u{61}', '\u{7A}');
    push_range(v, '\u{AA}', '\u{AA}');
    push_range(v, '\u{B5}', '\u{B5}');
    push_range(v, '\u{BA}', '\u{BA}');
    push_range(v, '\u{C0}', '\u{D6}');
    push_range(v, '\u{D8}', '\u{F6}');
    push_range(v, '\u{F8}', '\u{1BA}');
    assert(rview(v@) =~= o + cased_chunk_0());
}

fn push_cased_chunk_1(v: &mut Vec<ClassUnicodeRange>)
    ensures
        rview(final(v)@) == rview(old(v)@) + cased_chunk_1(),
{
    let ghost o = rview(v@);
    push_range(v, '\u{1BC}', '\u{1BF}');
    push_range(v, '\u{1C4}', '\u{293}');
    push_range(v, '\u{295}', '\u{2B8}');
    push_range(v, '\u{2C0}', '\u{2C1}');
    push_range(v, '\u{2E0}', '\u{2E4}');
    push_range(v, '\u{345}', '\u{345}');
    push_range(v, '\u{370}', '\u{373}');
    push_range(v, '\u{376}', '\u{377}');
    assert(rview(v@) =~= o + cased_chunk_1());
}

fn push_cased_chunk_2(v: &mut Vec<ClassUnicodeRange>)
    ensures
        rview(final(v)@) == rview(old(v)@) + cased_chunk_2(),
{
    let ghost o = rview(v@);
    push_range(v, '\u{37A}', '\u{37D}');
    push_range(v, '\u{37F}', '\u{37F}');
    push_range(v, '\u{386}', '\u{386}');
    push_range(v, '\u{388}', '\u{38A}');
    push_range(v, '\u{38C}', '\u{38C}');
    push_range(v, '\u{38E}', '\u{3A1}');
    push_range(v, '\u{3A3}', '\u{3F5}');
    push_range(v, '\u{3F7}', '\u{481}');
    assert(rview(v@) =~= o + cased_chunk_2());
}

fn push_cased_chunk_3(v: &mut Vec<ClassUnicodeRange>)
    ensures
        rview(final(v)@) == rview(old(v)@) + cased_chunk_3(),
{
    let ghost o = rview(v@);
    push_range(v, '\u{48A}', '\u{52F}');
    push_range(v, '\u{531}', '\u{556}');
    push_range(v, '\u{560}', '\u{588}');
    push_range(v, '\u{10A0}', '\u{10C5}');
    push_range(v, '\u{10C7}', '\u{10C7}');
    push_range(v, '\u{10CD}', '\u{10CD}');
    push_range(v, '\u{10D0}', '\u{10FA}');
    push_range(v, '\u{10FC}', '\u{10FF}');
    assert(rview(v@) =~= o + cased_chunk_3());
}

fn push_cased_chunk_4(v: &mut Vec<ClassUnicodeRange>)
    ensures
        rview(final(v)@) == rview(old(v)@) + cased_chunk_4(),
{
    let ghost o = rview(v@);
    push_range(v, '\u{13A0}', '\u{13F5}');
    push_range(v, '\u{13F8}', '\u{13FD}');
    push_range(v, '\u{1C80}', '\u{1C8A}');
    push_range(v, '\u{1C90}', '\u{1CBA}');
    push_range(v, '\u{1CBD}', '\u{1CBF}');
    push_range(v, '\u{1D00}', '\u{1DBF}');
    push_range(v, '\u{1E00}', '\u{1F15}');
    push_range(v, '\u{1F18}', '\u{1F1D}');
    assert(rview(v@) =~= o + cased_chunk_4());
}

fn push_cased_chunk_5(v: &mut Vec<ClassUnicodeRange>)
    ensures
        rview(final(v)@) == rview(old(v)@) + cased_chunk_5(),
{
    let ghost o = rview(v@);
    push_range(v, '\u{1F20}', '\u{1F45}');
    push_range(v, '\u{1F48}', '\u{1F4D}');
    push_range(v, '\u{1F50}', '\u{1F57}');
    push_range(v, '\u{1F59}', '\u{1F59}');
    push_range(v, '\u{1F5B}', '\u{1F5B}');
    push_range(v, '\u{1F5D}', '\u{1F5D}');
    push_range(v, '\u{1F5F}', '\u{1F7D}');
    push_range(v, '\u{1F80}', '\u{1FB4}');
    assert(rview(v@) =~= o + cased_chunk_5());
}

fn push_cased_chunk_6(v: &mut Vec<ClassUnicodeRange>)
    ensures
        rview(final(v)@) == rview(old(v)@) + cased_chunk_6(),
{
    let ghost o = rview(v@);
    push_range(v, '\u{1FB6}', '\u{1FBC}');
    push_range(v, '\u{1FBE}', '\u{1FBE}');
    push_range(v, '\u{1FC2}', '\u{1FC4}');
    push_range(v, '\u{1FC6}', '\u{1FCC}');
    push_range(v, '\u{1FD0}', '\u{1FD3}');
    push_range(v, '\u{1FD6}', '\u{1FDB}');
    push_range(v, '\u{1FE0}', '\u{1FEC}');
    push_range(v, '\u{1FF2}', '\u{1FF4}');
    assert(rview(v@) =~= o + cased_chunk_6());
}

fn push_cased_chunk_7(v: &mut Vec<ClassUnicodeRange>)
    ensures
        rview(final(v)@) == rview(old(v)@) + cased_chunk_7(),
{
    let ghost o = rview(v@);
    push_range(v, '\u{1FF6}', '\u{1FFC}');
    push_range(v, '\u{2071}', '\u{2071}');
    push_range(v, '\u{207F}', '\u{207F}');
    push_range(v, '\u{2090}', '\u{209C}');
    push_range(v, '\u{2102}', '\u{2102}');
    push_range(v, '\u{2107}', '\u{2107}');
    push_range(v, '\u{210A}', '\u{2113}');
    push_range(v, '\u{2115}', '\u{2115}');
    assert(rview(v@) =~= o + cased_chunk_7());
}

fn push_cased_chunk_8(v: &mut Vec<ClassUnicodeRange>)
    ensures
        rview(final(v)@) == rview(old(v)@) + cased_chunk_8(),
{
    let ghost o = rview(v@);
    push_range(v, '\u{2119}', '\u{211D}');
    push_range(v, '\u{2124}', '\u{2124}');
    push_range(v, '\u{2126}', '\u{2126}');
    push_range(v, '\u{2128}', '\u{2128}');
    push_range(v, '\u{212A}', '\u{212D}');
    push_range(v, '\u{212F}', '\u{2134}');
    push_range(v, '\u{2139}', '\u{2139}');
    push_range(v, '\u{213C}', '\u{213F}');
    assert(rview(v@) =~= o + cased_chunk_8());
}

fn push_cased_chunk_9(v: &mut Vec<ClassUnicodeRange>)
    ensures
        rview(final(v)@) == rview(old(v)@) + cased_chunk_9(),
{
    let ghost o = rview(v@);
    push_range(v, '\u{2145}', '\u{2149}');
    push_range(v, '\u{214E}', '\u{214E}');
    push_range(v, '\u{2160}', '\u{217F}');
    push_range(v, '\u{2183}', '\u{2184}');
    push_range(v, '\u{24B6}', '\u{24E9}');
    push_range(v, '\u{2C00}', '\u{2CE4}');
    push_range(v, '\u{2CEB}', '\u{2CEE}');
    push_range(v, '\u{2CF2}', '\u{2CF3}');
    assert(rview(v@) =~= o + cased_chunk_9());
}

fn push_cased_chunk_10(v: &mut Vec<ClassUnicodeRange>)
    ensures
        rview(final(v)@) == rview(old(v)@) + cased_chunk_10(),
{
    let ghost o = rview(v@);
    push_range(v, '\u{2D00}', '\u{2D25}');
    push_range(v, '\u{2D27}', '\u{2D27}');
    push_range(v, '\u{2D2D}', '\u{2D2D}');
    push_range(v, '\u{A640}', '\u{A66D}');
    push_range(v, '\u{A680}', '\u{A69D}');
    push_range(v, '\u{A722}', '\u{A787}');
    push_range(v, '\u{A78B}', '\u{A78E}');
    push_range(v, '\u{A790}', '\u{A7CD}');
    assert(rview(v@) =~= o + cased_chunk_10());
}

fn push_cased_chunk_11(v: &mut Vec<ClassUnicodeRange>)
    ensures
        rview(final(v)@) == rview(old(v)@) + cased_chunk_11(),
{
    let ghost o = rview(v@);
    push_range(v, '\u{A7D0}', '\u{A7D1}');
    push_range(v, '\u{A7D3}', '\u{A7D3}');
    push_range(v, '\u{A7D5}', '\u{A7DC}');
    push_range(v, '\u{A7F2}', '\u{A7F6}');
    push_range(v, '\u{A7F8}', '\u{A7FA}');
    push_range(v, '\u{AB30}', '\u{AB5A}');
    push_range(v, '\u{AB5C}', '\u{AB69}');
    push_range(v, '\u{AB70}', '\u{ABBF}');
    assert(rview(v@) =~= o + cased_chunk_11());
}

fn push_cased_chunk_12(v: &mut Vec<ClassUnicodeRange>)
    ensures
        rview(final(v)@) == rview(old(v)@) + cased_chunk_12(),
{
    let ghost o = rview(v@);
    push_range(v, '\u{FB00}', '\u{FB06}');
    push_range(v, '\u{FB13}', '\u{FB17}');
    push_range(v, '\u{FF21}', '\u{FF3A}');
    push_range(v, '\u{FF41}', '\u{FF5A}');
    push_range(v, '\u{10400}', '\u{1044F}');
    push_range(v, '\u{104B0}', '\u{104D3}');
    push_range(v, '\u{104D8}', '\u{104FB}');
    push_range(v, '\u{10570}', '\u{1057A}');
    assert(rview(v@) =~= o + cased_chunk_12());
}

fn push_cased_chunk_13(v: &mut Vec<ClassUnicodeRange>)
    ensures
        rview(final(v)@) == rview(old(v)@) + cased_chunk_13(),
{
    let ghost o = rview(v@);
    push_range(v, '\u{1057C}', '\u{1058A}');
    push_range(v, '\u{1058C}', '\u{10592}');
    push_range(v, '\u{10594}', '\u{10595}');
    push_range(v, '\u{10597}', '\u{105A1}');
    push_range(v, '\u{105A3}', '\u{105B1}');
    push_range(v, '\u{105B3}', '\u{105B9}');
    push_range(v, '\u{105BB}', '\u{105BC}');
    push_range(v, '\u{10780}', '\u{10780}');
    assert(rview(v@) =~= o + cased_chunk_13());
}

fn push_cased_chunk_14(v: &mut Vec<ClassUnicodeRange>)
    ensures
        rview(final(v)@) == rview(old(v)@) + cased_chunk_14(),
{
    let ghost o = rview(v@);
    push_range(v, '\u{10783}', '\u{10785}');
    push_range(v, '\u{10787}', '\u{107B0}');
    push_range(v, '\u{107B2}', '\u{107BA}');
    push_range(v, '\u{10C80}', '\u{10CB2}');
    push_range(v, '\u{10CC0}', '\u{10CF2}');
    push_range(v, '\u{10D50}', '\u{10D65}');
    push_range(v, '\u{10D70}', '\u{10D85}');
    push_range(v, '\u{118A0}', '\u{118DF}');
    assert(rview(v@) =~= o + cased_chunk_14());
}

fn push_cased_chunk_15(v: &mut Vec<ClassUnicodeRange>)
    ensures
        rview(final(v)@) == rview(old(v)@) + cased_chunk_15(),
{
    let ghost o = rview(v@);
    push_range(v, '\u{16E40}', '\u{16E7F}');
    push_range(v, '\u{1D400}', '\u{1D454}');
    push_range(v, '\u{1D456}', '\u{1D49C}');
    push_range(v, '\u{1D49E}', '\u{1D49F}');
    push_range(v, '\u{1D4A2}', '\u{1D4A2}');
    push_range(v, '\u{1D4A5}', '\u{1D4A6}');
    push_range(v, '\u{1D4A9}', '\u{1D4AC}');
    push_range(v, '\u{1D4AE}', '\u{1D4B9}');
    assert(rview(v@) =~= o + cased_chunk_15());
}

fn push_cased_chunk_16(v: &mut Vec<ClassUnicodeRange>)
    ensures
        rview(final(v)@) == rview(old(v)@) + cased_chunk_16(),
{
    let ghost o = rview(v@);
    push_range(v, '\u{1D4BB}', '\u{1D4BB}');
    push_range(v, '\u{1D4BD}', '\u{1D4C3}');
    push_range(v, '\u{1D4C5}', '\u{1D505}');
    push_range(v, '\u{1D507}', '\u{1D50A}');
    push_range(v, '\u{1D50D}', '\u{1D514}');
    push_range(v, '\u{1D516}', '\u{1D51C}');
    push_range(v, '\u{1D51E}', '\u{1D539}');
    push_range(v, '\u{1D53B}', '\u{1D53E}');
    assert(rview(v@) =~= o + cased_chunk_16());
}

fn push_cased_chunk_17(v: &mut Vec<ClassUnicodeRange>)
    ensures
        rview(final(v)@) == rview(old(v)@) + cased_chunk_17(),
{
    let ghost o = rview(v@);
    push_range(v, '\u{1D540}', '\u{1D544}');
    push_range(v, '\u{1D546}', '\u{1D546}');
    push_range(v, '\u{1D54A}', '\u{1D550}');
    push_range(v, '\u{1D552}', '\u{1D6A5}');
    push_range(v, '\u{1D6A8}', '\u{1D6C0}');
    push_range(v, '\u{1D6C2}', '\u{1D6DA}');
    push_range(v, '\u{1D6DC}', '\u{1D6FA}');
    push_range(v, '\u{1D6FC}', '\u{1D714}');
    assert(rview(v@) =~= o + cased_chunk_17());
}

fn push_cased_chunk_18(v: &mut Vec<ClassUnicodeRange>)
    ensures
        rview(final(v)@) == rview(old(v)@) + cased_chunk_18(),
{
    let ghost o = rview(v@);
    push_range(v, '\u{1D716}', '\u{1D734}');
    push_range(v, '\u{1D736}', '\u{1D74E}');
    push_range(v, '\u{1D750}', '\u{1D76E}');
    push_range(v, '\u{1D770}', '\u{1D788}');
    push_range(v, '\u{1D78A}', '\u{1D7A8}');
    push_range(v, '\u{1D7AA}', '\u{1D7C2}');
    push_range(v, '\u{1D7C4}', '\u{1D7CB}');
    push_range(v, '\u{1DF00}', '\u{1DF09}');
    assert(rview(v@) =~= o + cased_chunk_18());
}

fn push_cased_chunk_19(v: &mut Vec<ClassUnicodeRange>)
    ensures
        rview(final(v)@) == rview(old(v)@) + cased_chunk_19(),
{
    let ghost o = rview(v@);
    push_range(v, '\u{1DF0B}', '\u{1DF1E}');
    push_range(v, '\u{1DF25}', '\u{1DF2A}');
    push_range(v, '\u{1E030}', '\u{1E06D}');
    push_range(v, '\u{1E900}', '\u{1E943}');
    push_range(v, '\u{1F130}', '\u{1F149}');
    push_range(v, '\u{1F150}', '\u{1F169}');
    push_range(v, '\u{1F170}', '\u{1F189}');
    assert(rview(v@) =~= o + cased_chunk_19());
}

fn push_cased_block_0(v: &mut Vec<ClassUnicodeRange>)
    ensures
        rview(final(v)@) == rview(old(v)@) + cased_block_0(),
{
    let ghost o = rview(v@);
    push_cased_chunk_0(v);
    assert(rview(v@) =~= o + (cased_chunk_0()));
    push_cased_chunk_1(v);
    assert(rview(v@) =~= o + (cased_chunk_0() + cased_chunk_1()));
    push_cased_chunk_2(v);
    assert(rview(v@) =~= o + (cased_chunk_0() + cased_chunk_1() + cased_chunk_2()));
    push_cased_chunk_3(v);
    assert(rview(v@) =~= o + (cased_chunk_0() + cased_chunk_1() + cased_chunk_2() + cased_chunk_3()));
    push_cased_chunk_4(v);
    assert(rview(v@) =~= o + (cased_chunk_0() + cased_chunk_1() + cased_chunk_2() + cased_chunk_3() + cased_chunk_4()));
    push_cased_chunk_5(v);
    assert(rview(v@) =~= o + (cased_chunk_0() + cased_chunk_1() + cased_chunk_2() + cased_chunk_3() + cased_chunk_4() + cased_chunk_5()));
    push_cased_chunk_6(v);
    assert(rview(v@) =~= o + (cased_chunk_0() + cased_chunk_1() + cased_chunk_2() + cased_chunk_3() + cased_chunk_4() + cased_chunk_5() + cased_chunk_6()));
    push_cased_chunk_7(v);
    assert(rview(v@) =~= o + (cased_chunk_0() + cased_chunk_1() + cased_chunk_2() + cased_chunk_3() + cased_chunk_4() + cased_chunk_5() + cased_chunk_6() + cased_chunk_7()));
    push_cased_chunk_8(v);
    assert(rview(v@) =~= o + (cased_chunk_0() + cased_chunk_1() + cased_chunk_2() + cased_chunk_3() + cased_chunk_4() + cased_chunk_5() + cased_chunk_6() + cased_chunk_7() + cased_chunk_8()));
    push_cased_chunk_9(v);
    assert(rview(v@) =~= o + (cased_chunk_0() + cased_chunk_1() + cased_chunk_2() + cased_chunk_3() + cased_chunk_4() + cased_chunk_5() + cased_chunk_6() + cased_chunk_7() + cased_chunk_8() + cased_chunk_9()));
}

fn push_cased_block_1(v: &mut Vec<ClassUnicodeRange>)
    ensures
        rview(final(v)@) == rview(old(v)@) + cased_block_1(),
{
    let ghost o = rview(v@);
    push_cased_chunk_10(v);
    assert(rview(v@) =~= o + (cased_chunk_10()));
    push_cased_chunk_11(v);
    assert(rview(v@) =~= o + (cased_chunk_10() + cased_chunk_11()));
    push_cased_chunk_12(v);
    assert(rview(v@) =~= o + (cased_chunk_10() + cased_chunk_11() + cased_chunk_12()));
    push_cased_chunk_13(v);
    assert(rview(v@) =~= o + (cased_chunk_10() + cased_chunk_11() + cased_chunk_12() + cased_chunk_13()));
    push_cased_chunk_14(v);
    assert(rview(v@) =~= o + (cased_chunk_10() + cased_chunk_11() + cased_chunk_12() + cased_chunk_13() + cased_chunk_14()));
    push_cased_chunk_15(v);
    assert(rview(v@) =~= o + (cased_chunk_10() + cased_chunk_11() + cased_chunk_12() + cased_chunk_13() + cased_chunk_14() + cased_chunk_15()));
    push_cased_chunk_16(v);
    assert(rview(v@) =~= o + (cased_chunk_10() + cased_chunk_11() + cased_chunk_12() + cased_chunk_13() + cased_chunk_14() + cased_chunk_15() + cased_chunk_16()));
    push_cased_chunk_17(v);
    assert(rview(v@) =~= o + (cased_chunk_10() + cased_chunk_11() + cased_chunk_12() + cased_chunk_13() + cased_chunk_14() + cased_chunk_15() + cased_chunk_16() + cased_chunk_17()));
    push_cased_chunk_18(v);
    assert(rview(v@) =~= o + (cased_chunk_10() + cased_chunk_11() + cased_chunk_12() + cased_chunk_13() + cased_chunk_14() + cased_chunk_15() + cased_chunk_16() + cased_chunk_17() + cased_chunk_18()));
    push_cased_chunk_19(v);
    assert(rview(v@) =~= o + (cased_chunk_10() + cased_chunk_11() + cased_chunk_12() + cased_chunk_13() + cased_chunk_14() + cased_chunk_15() + cased_chunk_16() + cased_chunk_17() + cased_chunk_18() + cased_chunk_19()));
}

pub fn cased_class() -> (v: Vec<ClassUnicodeRange>)
    ensures
        rview(v@) == cased_ranges(),
{
    let mut v: Vec<ClassUnicodeRange> = Vec::new();
    assert(rview(v@) =~= Seq::<SRange>::empty());
    push_cased_block_0(&mut v);
    assert(rview(v@) =~= cased_block_0());
    push_cased_block_1(&mut v);
    assert(rview(v@) =~= cased_block_0() + cased_block_1());
    v
}

pub open spec fn changes_when_casefolded_chunk_0() -> Seq<SRange> {
    seq![(0x41int, 0x5Aint), (0xB5int, 0xB5int), (0xC0int, 0xD6int), (0xD8int, 0xDFint), (0x100int, 0x100int), (0x102int, 0x102int), (0x104int, 0x104int), (0x106int, 0x106int)]
}

pub open spec fn changes_when_casefolded_chunk_1() -> Seq<SRange> {
    seq![(0x108int, 0x108int), (0x10Aint, 0x10Aint), (0x10Cint, 0x10Cint), (0x10Eint, 0x10Eint), (0x110int, 0x110int), (0x112int, 0x112int), (0x114int, 0x114int), (0x116int, 0x116int)]
}

pub open spec fn changes_when_casefolded_chunk_2() -> Seq<SRange> {
    seq![(0x118int, 0x118int), (0x11Aint, 0x11Aint), (0x11Cint, 0x11Cint), (0x11Eint, 0x11Eint), (0x120int, 0x120int), (0x122int, 0x122int), (0x124int, 0x124int), (0x126int, 0x126int)]
}

pub open spec fn changes_when_casefolded_chunk_3() -> Seq<SRange> {
    seq![(0x128int, 0x128int), (0x12Aint, 0x12Aint), (0x12Cint, 0x12Cint), (0x12Eint, 0x12Eint), (0x130int, 0x130int), (0x132int, 0x132int), (0x134int, 0x134int), (0x136int, 0x136int)]
}

pub open spec fn changes_when_casefolded_chunk_4() -> Seq<SRange> {
    seq![(0x139int, 0x139int), (0x13Bint, 0x13Bint), (0x13Dint, 0x13Dint), (0x13Fint, 0x13Fint), (0x141int, 0x141int), (0x143int, 0x143int), (0x145int, 0x145int), (0x147int, 0x147int)]
}

pub open spec fn changes_when_casefolded_chunk_5() -> Seq<SRange> {
    seq![(0x149int, 0x14Aint), (0x14Cint, 0x14Cint), (0x14Eint, 0x14Eint), (0x150int, 0x150int), (0x152int, 0x152int), (0x154int, 0x154int), (0x156int, 0x156int), (0x158int, 0x158int)]
}

pub open spec fn changes_when_casefolded_chunk_6() -> Seq<SRange> {
    seq![(0x15Aint, 0x15Aint), (0x15Cint, 0x15Cint), (0x15Eint, 0x15Eint), (0x160int, 0x160int), (0x162int, 0x162int), (0x164int, 0x164int), (0x166int, 0x166int), (0x168int, 0x168int)]
}

pub open spec fn changes_when_casefolded_chunk_7() -> Seq<SRange> {
    seq![(0x16Aint, 0x16Aint), (0x16Cint, 0x16Cint), (0x16Eint, 0x16Eint), (0x170int, 0x170int), (0x172int, 0x172int), (0x174int, 0x174int), (0x176int, 0x176int), (0x178int, 0x179int)]
}

pub open spec fn changes_when_casefolded_chunk_8() -> Seq<SRange> {
    seq![(0x17Bint, 0x17Bint), (0x17Dint, 0x17Dint), (0x17Fint, 0x17Fint), (0x181int, 0x182int), (0x184int, 0x184int), (0x186int, 0x187int), (0x189int, 0x18Bint), (0x18Eint, 0x191int)]
}

pub open spec fn changes_when_casefolded_chunk_9() -> Seq<SRange> {
    seq![(0x193int, 0x194int), (0x196int, 0x198int), (0x19Cint, 0x19Dint), (0x19Fint, 0x1A0int), (0x1A2int, 0x1A2int), (0x1A4int, 0x1A4int), (0x1A6int, 0x1A7int), (0x1A9int, 0x1A9int)]
}

pub open spec fn changes_when_casefolded_chunk_10() -> Seq<SRange> {
    seq![(0x1ACint, 0x1ACint), (0x1AEint, 0x1AFint), (0x1B1int, 0x1B3int), (0x1B5int, 0x1B5int), (0x1B7int, 0x1B8int), (0x1BCint, 0x1BCint), (0x1C4int, 0x1C5int), (0x1C7int, 0x1C8int)]
}

pub open spec fn changes_when_casefolded_chunk_11() -> Seq<SRange> {
    seq![(0x1CAint, 0x1CBint), (0x1CDint, 0x1CDint), (0x1CFint, 0x1CFint), (0x1D1int, 0x1D1int), (0x1D3int, 0x1D3int), (0x1D5int, 0x1D5int), (0x1D7int, 0x1D7int), (0x1D9int, 0x1D9int)]
}

pub open spec fn changes_when_casefolded_chunk_12() -> Seq<SRange> {
    seq![(0x1DBint, 0x1DBint), (0x1DEint, 0x1DEint), (0x1E0int, 0x1E0int), (0x1E2int, 0x1E2int), (0x1E4int, 0x1E4int), (0x1E6int, 0x1E6int), (0x1E8int, 0x1E8int), (0x1EAint, 0x1EAint)]
}

pub open spec fn changes_when_casefolded_chunk_13() -> Seq<SRange> {
    seq![(0x1ECint, 0x1ECint), (0x1EEint, 0x1EEint), (0x1F1int, 0x1F2int), (0x1F4int, 0x1F4int), (0x1F6int, 0x1F8int), (0x1FAint, 0x1FAint), (0x1FCint, 0x1FCint), (0x1FEint, 0x1FEint)]
}

pub open spec fn changes_when_casefolded_chunk_14() -> Seq<SRange> {
    seq![(0x200int, 0x200int), (0x202int, 0x202int), (0x204int, 0x204int), (0x206int, 0x206int), (0x208int, 0x208int), (0x20Aint, 0x20Aint), (0x20Cint, 0x20Cint), (0x20Eint, 0x20Eint)]
}

pub open spec fn changes_when_casefolded_chunk_15() -> Seq<SRange> {
    seq![(0x210int, 0x210int), (0x212int, 0x212int), (0x214int, 0x214int), (0x216int, 0x216int), (0x218int, 0x218int), (0x21Aint, 0x21Aint), (0x21Cint, 0x21Cint), (0x21Eint, 0x21Eint)]
}

pub open spec fn changes_when_casefolded_chunk_16() -> Seq<SRange> {
    seq![(0x220int, 0x220int), (0x222int, 0x222int), (0x224int, 0x224int), (0x226int, 0x226int), (0x228int, 0x228int), (0x22Aint, 0x22Aint), (0x22Cint, 0x22Cint), (0x22Eint, 0x22Eint)]
}

pub open spec fn changes_when_casefolded_chunk_17() -> Seq<SRange> {
    seq![(0x230int, 0x230int), (0x232int, 0x232int), (0x23Aint, 0x23Bint), (0x23Dint, 0x23Eint), (0x241int, 0x241int), (0x243int, 0x246int), (0x248int, 0x248int), (0x24Aint, 0x24Aint)]
}

pub open spec fn changes_when_casefolded_chunk_18() -> Seq<SRange> {
    seq![(0x24Cint, 0x24Cint), (0x24Eint, 0x24Eint), (0x345int, 0x345int), (0x370int, 0x370int), (0x372int, 0x372int), (0x376int, 0x376int), (0x37Fint, 0x37Fint), (0x386int, 0x386int)]
}

pub open spec fn changes_when_casefolded_chunk_19() -> Seq<SRange> {
    seq![(0x388int, 0x38Aint), (0x38Cint, 0x38Cint), (0x38Eint, 0x38Fint), (0x391int, 0x3A1int), (0x3A3int, 0x3ABint), (0x3C2int, 0x3C2int), (0x3CFint, 0x3D1int), (0x3D5int, 0x3D6int)]
}

pub open spec fn changes_when_casefolded_chunk_20() -> Seq<SRange> {
    seq![(0x3D8int, 0x3D8int), (0x3DAint, 0x3DAint), (0x3DCint, 0x3DCint), (0x3DEint, 0x3DEint), (0x3E0int, 0x3E0int), (0x3E2int, 0x3E2int), (0x3E4int, 0x3E4int), (0x3E6int, 0x3E6int)]
}

pub open spec fn changes_when_casefolded_chunk_21() -> Seq<SRange> {
    seq![(0x3E8int, 0x3E8int), (0x3EAint, 0x3EAint), (0x3ECint, 0x3ECint), (0x3EEint, 0x3EEint), (0x3F0int, 0x3F1int), (0x3F4int, 0x3F5int), (0x3F7int, 0x3F7int), (0x3F9int, 0x3FAint)]
}

pub open spec fn changes_when_casefolded_chunk_22() -> Seq<SRange> {
    seq![(0x3FDint, 0x42Fint), (0x460int, 0x460int), (0x462int, 0x462int), (0x464int, 0x464int), (0x466int, 0x466int), (0x468int, 0x468int), (0x46Aint, 0x46Aint), (0x46Cint, 0x46Cint)]
}

pub open spec fn changes_when_casefolded_chunk_23() -> Seq<SRange> {
    seq![(0x46Eint, 0x46Eint), (0x470int, 0x470int), (0x472int, 0x472int), (0x474int, 0x474int), (0x476int, 0x476int), (0x478int, 0x478int), (0x47Aint, 0x47Aint), (0x47Cint, 0x47Cint)]
}

pub open spec fn changes_when_casefolded_chunk_24() -> Seq<SRange> {
    seq![(0x47Eint, 0x47Eint), (0x480int, 0x480int), (0x48Aint, 0x48Aint), (0x48Cint, 0x48Cint), (0x48Eint, 0x48Eint), (0x490int, 0x490int), (0x492int, 0x492int), (0x494int, 0x494int)]
}

pub open spec fn changes_when_casefolded_chunk_25() -> Seq<SRange> {
    seq![(0x496int, 0x496int), (0x498int, 0x498int), (0x49Aint, 0x49Aint), (0x49Cint, 0x49Cint), (0x49Eint, 0x49Eint), (0x4A0int, 0x4A0int), (0x4A2int, 0x4A2int), (0x4A4int, 0x4A4int)]
}

pub open spec fn changes_when_casefolded_chunk_26() -> Seq<SRange> {
    seq![(0x4A6int, 0x4A6int), (0x4A8int, 0x4A8int), (0x4AAint, 0x4AAint), (0x4ACint, 0x4ACint), (0x4AEint, 0x4AEint), (0x4B0int, 0x4B0int), (0x4B2int, 0x4B2int), (0x4B4int, 0x4B4int)]
}

pub open spec fn changes_when_casefolded_chunk_27() -> Seq<SRange> {
    seq![(0x4B6int, 0x4B6int), (0x4B8int, 0x4B8int), (0x4BAint, 0x4BAint), (0x4BCint, 0x4BCint), (0x4BEint, 0x4BEint), (0x4C0int, 0x4C1int), (0x4C3int, 0x4C3int), (0x4C5int, 0x4C5int)]
}

pub open spec fn changes_when_casefolded_chunk_28() -> Seq<SRange> {
    seq![(0x4C7int, 0x4C7int), (0x4C9int, 0x4C9int), (0x4CBint, 0x4CBint), (0x4CDint, 0x4CDint), (0x4D0int, 0x4D0int), (0x4D2int, 0x4D2int), (0x4D4int, 0x4D4int), (0x4D6int, 0x4D6int)]
}

pub open spec fn changes_when_casefolded_chunk_29() -> Seq<SRange> {
    seq![(0x4D8int, 0x4D8int), (0x4DAint, 0x4DAint), (0x4DCint, 0x4DCint), (0x4DEint, 0x4DEint), (0x4E0int, 0x4E0int), (0x4E2int, 0x4E2int), (0x4E4int, 0x4E4int), (0x4E6int, 0x4E6int)]
}

pub open spec fn changes_when_casefolded_chunk_30() -> Seq<SRange> {
    seq![(0x4E8int, 0x4E8int), (0x4EAint, 0x4EAint), (0x4ECint, 0x4ECint), (0x4EEint, 0x4EEint), (0x4F0int, 0x4F0int), (0x4F2int, 0x4F2int), (0x4F4int, 0x4F4int), (0x4F6int, 0x4F6int)]
}

pub open spec fn changes_when_casefolded_chunk_31() -> Seq<SRange> {
    seq![(0x4F8int, 0x4F8int), (0x4FAint, 0x4FAint), (0x4FCint, 0x4FCint), (0x4FEint, 0x4FEint), (0x500int, 0x500int), (0x502int, 0x502int), (0x504int, 0x504int), (0x506int, 0x506int)]
}

pub open spec fn changes_when_casefolded_chunk_32() -> Seq<SRange> {
    seq![(0x508int, 0x508int), (0x50Aint, 0x50Aint), (0x50Cint, 0x50Cint), (0x50Eint, 0x50Eint), (0x510int, 0x510int), (0x512int, 0x512int), (0x514int, 0x514int), (0x516int, 0x516int)]
}

pub open spec fn changes_when_casefolded_chunk_33() -> Seq<SRange> {
    seq![(0x518int, 0x518int), (0x51Aint, 0x51Aint), (0x51Cint, 0x51Cint), (0x51Eint, 0x51Eint), (0x520int, 0x520int), (0x522int, 0x522int), (0x524int, 0x524int), (0x526int, 0x526int)]
}

pub open spec fn changes_when_casefolded_chunk_34() -> Seq<SRange> {
    seq![(0x528int, 0x528int), (0x52Aint, 0x52Aint), (0x52Cint, 0x52Cint), (0x52Eint, 0x52Eint), (0x531int, 0x556int), (0x587int, 0x587int), (0x10A0int, 0x10C5int), (0x10C7int, 0x10C7int)]
}

pub open spec fn changes_when_casefolded_chunk_35() -> Seq<SRange> {
    seq![(0x10CDint, 0x10CDint), (0x13F8int, 0x13FDint), (0x1C80int, 0x1C89int), (0x1C90int, 0x1CBAint), (0x1CBDint, 0x1CBFint), (0x1E00int, 0x1E00int), (0x1E02int, 0x1E02int), (0x1E04int, 0x1E04int)]
}

pub open spec fn changes_when_casefolded_chunk_36() -> Seq<SRange> {
    seq![(0x1E06int, 0x1E06int), (0x1E08int, 0x1E08int), (0x1E0Aint, 0x1E0Aint), (0x1E0Cint, 0x1E0Cint), (0x1E0Eint, 0x1E0Eint), (0x1E10int, 0x1E10int), (0x1E12int, 0x1E12int), (0x1E14int, 0x1E14int)]
}

pub open spec fn changes_when_casefolded_chunk_37() -> Seq<SRange> {
    seq![(0x1E16int, 0x1E16int), (0x1E18int, 0x1E18int), (0x1E1Aint, 0x1E1Aint), (0x1E1Cint, 0x1E1Cint), (0x1E1Eint, 0x1E1Eint), (0x1E20int, 0x1E20int), (0x1E22int, 0x1E22int), (0x1E24int, 0x1E24int)]
}

pub open spec fn changes_when_casefolded_chunk_38() -> Seq<SRange> {
    seq![(0x1E26int, 0x1E26int), (0x1E28int, 0x1E28int), (0x1E2Aint, 0x1E2Aint), (0x1E2Cint, 0x1E2Cint), (0x1E2Eint, 0x1E2Eint), (0x1E30int, 0x1E30int), (0x1E32int, 0x1E32int), (0x1E34int, 0x1E34int)]
}

pub open spec fn changes_when_casefolded_chunk_39() -> Seq<SRange> {
    seq![(0x1E36int, 0x1E36int), (0x1E38int, 0x1E38int), (0x1E3Aint, 0x1E3Aint), (0x1E3Cint, 0x1E3Cint), (0x1E3Eint, 0x1E3Eint), (0x1E40int, 0x1E40int), (0x1E42int, 0x1E42int), (0x1E44int, 0x1E44int)]
}

pub open spec fn changes_when_casefolded_chunk_40() -> Seq<SRange> {
    seq![(0x1E46int, 0x1E46int), (0x1E48int, 0x1E48int), (0x1E4Aint, 0x1E4Aint), (0x1E4Cint, 0x1E4Cint), (0x1E4Eint, 0x1E4Eint), (0x1E50int, 0x1E50int), (0x1E52int, 0x1E52int), (0x1E54int, 0x1E54int)]
}

pub open spec fn changes_when_casefolded_chunk_41() -> Seq<SRange> {
    seq![(0x1E56int, 0x1E56int), (0x1E58int, 0x1E58int), (0x1E5Aint, 0x1E5Aint), (0x1E5Cint, 0x1E5Cint), (0x1E5Eint, 0x1E5Eint), (0x1E60int, 0x1E60int), (0x1E62int, 0x1E62int), (0x1E64int, 0x1E64int)]
}

pub open spec fn changes_when_casefolded_chunk_42() -> Seq<SRange> {
    seq![(0x1E66int, 0x1E66int), (0x1E68int, 0x1E68int), (0x1E6Aint, 0x1E6Aint), (0x1E6Cint, 0x1E6Cint), (0x1E6Eint, 0x1E6Eint), (0x1E70int, 0x1E70int), (0x1E72int, 0x1E72int), (0x1E74int, 0x1E74int)]
}

pub open spec fn changes_when_casefolded_chunk_43() -> Seq<SRange> {
    seq![(0x1E76int, 0x1E76int), (0x1E78int, 0x1E78int), (0x1E7Aint, 0x1E7Aint), (0x1E7Cint, 0x1E7Cint), (0x1E7Eint, 0x1E7Eint), (0x1E80int, 0x1E80int), (0x1E82int, 0x1E82int), (0x1E84int, 0x1E84int)]
}

pub open spec fn changes_when_casefolded_chunk_44() -> Seq<SRange> {
    seq![(0x1E86int, 0x1E86int), (0x1E88int, 0x1E88int), (0x1E8Aint, 0x1E8Aint), (0x1E8Cint, 0x1E8Cint), (0x1E8Eint, 0x1E8Eint), (0x1E90int, 0x1E90int), (0x1E92int, 0x1E92int), (0x1E94int, 0x1E94int)]
}

pub open spec fn changes_when_casefolded_chunk_45() -> Seq<SRange> {
    seq![(0x1E9Aint, 0x1E9Bint), (0x1E9Eint, 0x1E9Eint), (0x1EA0int, 0x1EA0int), (0x1EA2int, 0x1EA2int), (0x1EA4int, 0x1EA4int), (0x1EA6int, 0x1EA6int), (0x1EA8int, 0x1EA8int), (0x1EAAint, 0x1EAAint)]
}

pub open spec fn changes_when_casefolded_chunk_46() -> Seq<SRange> {
    seq![(0x1EACint, 0x1EACint), (0x1EAEint, 0x1EAEint), (0x1EB0int, 0x1EB0int), (0x1EB2int, 0x1EB2int), (0x1EB4int, 0x1EB4int), (0x1EB6int, 0x1EB6int), (0x1EB8int, 0x1EB8int), (0x1EBAint, 0x1EBAint)]
}

pub open spec fn changes_when_casefolded_chunk_47() -> Seq<SRange> {
    seq![(0x1EBCint, 0x1EBCint), (0x1EBEint, 0x1EBEint), (0x1EC0int, 0x1EC0int), (0x1EC2int, 0x1EC2int), (0x1EC4int, 0x1EC4int), (0x1EC6int, 0x1EC6int), (0x1EC8int, 0x1EC8int), (0x1ECAint, 0x1ECAint)]
}

pub open spec fn changes_when_casefolded_chunk_48() -> Seq<SRange> {
    seq![(0x1ECCint, 0x1ECCint), (0x1ECEint, 0x1ECEint), (0x1ED0int, 0x1ED0int), (0x1ED2int, 0x1ED2int), (0x1ED4int, 0x1ED4int), (0x1ED6int, 0x1ED6int), (0x1ED8int, 0x1ED8int), (0x1EDAint, 0x1EDAint)]
}

pub open spec fn changes_when_casefolded_chunk_49() -> Seq<SRange> {
    seq![(0x1EDCint, 0x1EDCint), (0x1EDEint, 0x1EDEint), (0x1EE0int, 0x1EE0int), (0x1EE2int, 0x1EE2int), (0x1EE4int, 0x1EE4int), (0x1EE6int, 0x1EE6int), (0x1EE8int, 0x1EE8int), (0x1EEAint, 0x1EEAint)]
}

pub open spec fn changes_when_casefolded_chunk_50() -> Seq<SRange> {
    seq![(0x1EECint, 0x1EECint), (0x1EEEint, 0x1EEEint), (0x1EF0int, 0x1EF0int), (0x1EF2int, 0x1EF2int), (0x1EF4int, 0x1EF4int), (0x1EF6int, 0x1EF6int), (0x1EF8int, 0x1EF8int), (0x1EFAint, 0x1EFAint)]
}

pub open spec fn changes_when_casefolded_chunk_51() -> Seq<SRange> {
    seq![(0x1EFCint, 0x1EFCint), (0x1EFEint, 0x1EFEint), (0x1F08int, 0x1F0Fint), (0x1F18int, 0x1F1Dint), (0x1F28int, 0x1F2Fint), (0x1F38int, 0x1F3Fint), (0x1F48int, 0x1F4Dint), (0x1F59int, 0x1F59int)]
}

pub open spec fn changes_when_casefolded_chunk_52() -> Seq<SRange> {
    seq![(0x1F5Bint, 0x1F5Bint), (0x1F5Dint, 0x1F5Dint), (0x1F5Fint, 0x1F5Fint), (0x1F68int, 0x1F6Fint), (0x1F80int, 0x1FAFint), (0x1FB2int, 0x1FB4int), (0x1FB7int, 0x1FBCint), (0x1FC2int, 0x1FC4int)]
}

pub open spec fn changes_when_casefolded_chunk_53() -> Seq<SRange> {
    seq![(0x1FC7int, 0x1FCCint), (0x1FD8int, 0x1FDBint), (0x1FE8int, 0x1FECint), (0x1FF2int, 0x1FF4int), (0x1FF7int, 0x1FFCint), (0x2126int, 0x2126int), (0x212Aint, 0x212Bint), (0x2132int, 0x2132int)]
}

pub open spec fn changes_when_casefolded_chunk_54() -> Seq<SRange> {
    seq![(0x2160int, 0x216Fint), (0x2183int, 0x2183int), (0x24B6int, 0x24CFint), (0x2C00int, 0x2C2Fint), (0x2C60int, 0x2C60int), (0x2C62int, 0x2C64int), (0x2C67int, 0x2C67int), (0x2C69int, 0x2C69int)]
}

pub open spec fn changes_when_casefolded_chunk_55() -> Seq<SRange> {
    seq![(0x2C6Bint, 0x2C6Bint), (0x2C6Dint, 0x2C70int), (0x2C72int, 0x2C72int), (0x2C75int, 0x2C75int), (0x2C7Eint, 0x2C80int), (0x2C82int, 0x2C82int), (0x2C84int, 0x2C84int), (0x2C86int, 0x2C86int)]
}

pub open spec fn changes_when_casefolded_chunk_56() -> Seq<SRange> {
    seq![(0x2C88int, 0x2C88int), (0x2C8Aint, 0x2C8Aint), (0x2C8Cint, 0x2C8Cint), (0x2C8Eint, 0x2C8Eint), (0x2C90int, 0x2C90int), (0x2C92int, 0x2C92int), (0x2C94int, 0x2C94int), (0x2C96int, 0x2C96int)]
}

pub open spec fn changes_when_casefolded_chunk_57() -> Seq<SRange> {
    seq![(0x2C98int, 0x2C98int), (0x2C9Aint, 0x2C9Aint), (0x2C9Cint, 0x2C9Cint), (0x2C9Eint, 0x2C9Eint), (0x2CA0int, 0x2CA0int), (0x2CA2int, 0x2CA2int), (0x2CA4int, 0x2CA4int), (0x2CA6int, 0x2CA6int)]
}

pub open spec fn changes_when_casefolded_chunk_58() -> Seq<SRange> {
    seq![(0x2CA8int, 0x2CA8int), (0x2CAAint, 0x2CAAint), (0x2CACint, 0x2CACint), (0x2CAEint, 0x2CAEint), (0x2CB0int, 0x2CB0int), (0x2CB2int, 0x2CB2int), (0x2CB4int, 0x2CB4int), (0x2CB6int, 0x2CB6int)]
}

pub open spec fn changes_when_casefolded_chunk_59() -> Seq<SRange> {
    seq![(0x2CB8int, 0x2CB8int), (0x2CBAint, 0x2CBAint), (0x2CBCint, 0x2CBCint), (0x2CBEint, 0x2CBEint), (0x2CC0int, 0x2CC0int), (0x2CC2int, 0x2CC2int), (0x2CC4int, 0x2CC4int), (0x2CC6int, 0x2CC6int)]
}

pub open spec fn changes_when_casefolded_chunk_60() -> Seq<SRange> {
    seq![(0x2CC8int, 0x2CC8int), (0x2CCAint, 0x2CCAint), (0x2CCCint, 0x2CCCint), (0x2CCEint, 0x2CCEint), (0x2CD0int, 0x2CD0int), (0x2CD2int, 0x2CD2int), (0x2CD4int, 0x2CD4int), (0x2CD6int, 0x2CD6int)]
}

pub open spec fn changes_when_casefolded_chunk_61() -> Seq<SRange> {
    seq![(0x2CD8int, 0x2CD8int), (0x2CDAint, 0x2CDAint), (0x2CDCint, 0x2CDCint), (0x2CDEint, 0x2CDEint), (0x2CE0int, 0x2CE0int), (0x2CE2int, 0x2CE2int), (0x2CEBint, 0x2CEBint), (0x2CEDint, 0x2CEDint)]
}

pub open spec fn changes_when_casefolded_chunk_62() -> Seq<SRange> {
    seq![(0x2CF2int, 0x2CF2int), (0xA640int, 0xA640int), (0xA642int, 0xA642int), (0xA644int, 0xA644int), (0xA646int, 0xA646int), (0xA648int, 0xA648int), (0xA64Aint, 0xA64Aint), (0xA64Cint, 0xA64Cint)]
}

pub open spec fn changes_when_casefolded_chunk_63() -> Seq<SRange> {
    seq![(0xA64Eint, 0xA64Eint), (0xA650int, 0xA650int), (0xA652int, 0xA652int), (0xA654int, 0xA654int), (0xA656int, 0xA656int), (0xA658int, 0xA658int), (0xA65Aint, 0xA65Aint), (0xA65Cint, 0xA65Cint)]
}

pub open spec fn changes_when_casefolded_chunk_64() -> Seq<SRange> {
    seq![(0xA65Eint, 0xA65Eint), (0xA660int, 0xA660int), (0xA662int, 0xA662int), (0xA664int, 0xA664int), (0xA666int, 0xA666int), (0xA668int, 0xA668int), (0xA66Aint, 0xA66Aint), (0xA66Cint, 0xA66Cint)]
}

pub open spec fn changes_when_casefolded_chunk_65() -> Seq<SRange> {
    seq![(0xA680int, 0xA680int), (0xA682int, 0xA682int), (0xA684int, 0xA684int), (0xA686int, 0xA686int), (0xA688int, 0xA688int), (0xA68Aint, 0xA68Aint), (0xA68Cint, 0xA68Cint), (0xA68Eint, 0xA68Eint)]
}

pub open spec fn changes_when_casefolded_chunk_66() -> Seq<SRange> {
    seq![(0xA690int, 0xA690int), (0xA692int, 0xA692int), (0xA694int, 0xA694int), (0xA696int, 0xA696int), (0xA698int, 0xA698int), (0xA69Aint, 0xA69Aint), (0xA722int, 0xA722int), (0xA724int, 0xA724int)]
}

pub open spec fn changes_when_casefolded_chunk_67() -> Seq<SRange> {
    seq![(0xA726int, 0xA726int), (0xA728int, 0xA728int), (0xA72Aint, 0xA72Aint), (0xA72Cint, 0xA72Cint), (0xA72Eint, 0xA72Eint), (0xA732int, 0xA732int), (0xA734int, 0xA734int), (0xA736int, 0xA736int)]
}

pub open spec fn changes_when_casefolded_chunk_68() -> Seq<SRange> {
    seq![(0xA738int, 0xA738int), (0xA73Aint, 0xA73Aint), (0xA73Cint, 0xA73Cint), (0xA73Eint, 0xA73Eint), (0xA740int, 0xA740int), (0xA742int, 0xA742int), (0xA744int, 0xA744int), (0xA746int, 0xA746int)]
}

pub open spec fn changes_when_casefolded_chunk_69() -> Seq<SRange> {
    seq![(0xA748int, 0xA748int), (0xA74Aint, 0xA74Aint), (0xA74Cint, 0xA74Cint), (0xA74Eint, 0xA74Eint), (0xA750int, 0xA750int), (0xA752int, 0xA752int), (0xA754int, 0xA754int), (0xA756int, 0xA756int)]
}

pub open spec fn changes_when_casefolded_chunk_70() -> Seq<SRange> {
    seq![(0xA758int, 0xA758int), (0xA75Aint, 0xA75Aint), (0xA75Cint, 0xA75Cint), (0xA75Eint, 0xA75Eint), (0xA760int, 0xA760int), (0xA762int, 0xA762int), (0xA764int, 0xA764int), (0xA766int, 0xA766int)]
}

pub open spec fn changes_when_casefolded_chunk_71() -> Seq<SRange> {
    seq![(0xA768int, 0xA768int), (0xA76Aint, 0xA76Aint), (0xA76Cint, 0xA76Cint), (0xA76Eint, 0xA76Eint), (0xA779int, 0xA779int), (0xA77Bint, 0xA77Bint), (0xA77Dint, 0xA77Eint), (0xA780int, 0xA780int)]
}

pub open spec fn changes_when_casefolded_chunk_72() -> Seq<SRange> {
    seq![(0xA782int, 0xA782int), (0xA784int, 0xA784int), (0xA786int, 0xA786int), (0xA78Bint, 0xA78Bint), (0xA78Dint, 0xA78Dint), (0xA790int, 0xA790int), (0xA792int, 0xA792int), (0xA796int, 0xA796int)]
}

pub open spec fn changes_when_casefolded_chunk_73() -> Seq<SRange> {
    seq![(0xA798int, 0xA798int), (0xA79Aint, 0xA79Aint), (0xA79Cint, 0xA79Cint), (0xA79Eint, 0xA79Eint), (0xA7A0int, 0xA7A0int), (0xA7A2int, 0xA7A2int), (0xA7A4int, 0xA7A4int), (0xA7A6int, 0xA7A6int)]
}

pub open spec fn changes_when_casefolded_chunk_74() -> Seq<SRange> {
    seq![(0xA7A8int, 0xA7A8int), (0xA7AAint, 0xA7AEint), (0xA7B0int, 0xA7B4int), (0xA7B6int, 0xA7B6int), (0xA7B8int, 0xA7B8int), (0xA7BAint, 0xA7BAint), (0xA7BCint, 0xA7BCint), (0xA7BEint, 0xA7BEint)]
}

pub open spec fn changes_when_casefolded_chunk_75() -> Seq<SRange> {
    seq![(0xA7C0int, 0xA7C0int), (0xA7C2int, 0xA7C2int), (0xA7C4int, 0xA7C7int), (0xA7C9int, 0xA7C9int), (0xA7CBint, 0xA7CCint), (0xA7D0int, 0xA7D0int), (0xA7D6int, 0xA7D6int), (0xA7D8int, 0xA7D8int)]
}

pub open spec fn changes_when_casefolded_chunk_76() -> Seq<SRange> {
    seq![(0xA7DAint, 0xA7DAint), (0xA7DCint, 0xA7DCint), (0xA7F5int, 0xA7F5int), (0xAB70int, 0xABBFint), (0xFB00int, 0xFB06int), (0xFB13int, 0xFB17int), (0xFF21int, 0xFF3Aint), (0x10400int, 0x10427int)]
}

pub open spec fn changes_when_casefolded_chunk_77() -> Seq<SRange> {
    seq![(0x104B0int, 0x104D3int), (0x10570int, 0x1057Aint), (0x1057Cint, 0x1058Aint), (0x1058Cint, 0x10592int), (0x10594int, 0x10595int), (0x10C80int, 0x10CB2int), (0x10D50int, 0x10D65int), (0x118A0int, 0x118BFint)]
}

pub open spec fn changes_when_casefolded_chunk_78() -> Seq<SRange> {
    seq![(0x16E40int, 0x16E5Fint), (0x1E900int, 0x1E921int)]
}

pub open spec fn changes_when_casefolded_block_0() -> Seq<SRange> {
    changes_when_casefolded_chunk_0() + changes_when_casefolded_chunk_1() + changes_when_casefolded_chunk_2() + changes_when_casefolded_chunk_3() + changes_when_casefolded_chunk_4() + changes_when_casefolded_chunk_5() + changes_when_casefolded_chunk_6() + changes_when_casefolded_chunk_7() + changes_when_casefolded_chunk_8() + changes_when_casefolded_chunk_9()
}

pub open spec fn changes_when_casefolded_block_1() -> Seq<SRange> {
    changes_when_casefolded_chunk_10() + changes_when_casefolded_chunk_11() + changes_when_casefolded_chunk_12() + changes_when_casefolded_chunk_13() + changes_when_casefolded_chunk_14() + changes_when_casefolded_chunk_15() + changes_when_casefolded_chunk_16() + changes_when_casefolded_chunk_17() + changes_when_casefolded_chunk_18() + changes_when_casefolded_chunk_19()
}

pub open spec fn changes_when_casefolded_block_2() -> Seq<SRange> {
    changes_when_casefolded_chunk_20() + changes_when_casefolded_chunk_21() + changes_when_casefolded_chunk_22() + changes_when_casefolded_chunk_23() + changes_when_casefolded_chunk_24() + changes_when_casefolded_chunk_25() + changes_when_casefolded_chunk_26() + changes_when_casefolded_chunk_27() + changes_when_casefolded_chunk_28() + changes_when_casefolded_chunk_29()
}

pub open spec fn changes_when_casefolded_block_3() -> Seq<SRange> {
    changes_when_casefolded_chunk_30() + changes_when_casefolded_chunk_31() + changes_when_casefolded_chunk_32() + changes_when_casefolded_chunk_33() + changes_when_casefolded_chunk_34() + changes_when_casefolded_chunk_35() + changes_when_casefolded_chunk_36() + changes_when_casefolded_chunk_37() + changes_when_casefolded_chunk_38() + changes_when_casefolded_chunk_39()
}

pub open spec fn changes_when_casefolded_block_4() -> Seq<SRange> {
    changes_when_casefolded_chunk_40() + changes_when_casefolded_chunk_41() + changes_when_casefolded_chunk_42() + changes_when_casefolded_chunk_43() + changes_when_casefolded_chunk_44() + changes_when_casefolded_chunk_45() + changes_when_casefolded_chunk_46() + changes_when_casefolded_chunk_47() + changes_when_casefolded_chunk_48() + changes_when_casefolded_chunk_49()
}

pub open spec fn changes_when_casefolded_block_5() -> Seq<SRange> {
    changes_when_casefolded_chunk_50() + changes_when_casefolded_chunk_51() + changes_when_casefolded_chunk_52() + changes_when_casefolded_chunk_53() + changes_when_casefolded_chunk_54() + changes_when_casefolded_chunk_55() + changes_when_casefolded_chunk_56() + changes_when_casefolded_chunk_57() + changes_when_casefolded_chunk_58() + changes_when_casefolded_chunk_59()
}

pub open spec fn changes_when_casefolded_block_6() -> Seq<SRange> {
    changes_when_casefolded_chunk_60() + changes_when_casefolded_chunk_61() + changes_when_casefolded_chunk_62() + changes_when_casefolded_chunk_63() + changes_when_casefolded_chunk_64() + changes_when_casefolded_chunk_65() + changes_when_casefolded_chunk_66() + changes_when_casefolded_chunk_67() + changes_when_casefolded_chunk_68() + changes_when_casefolded_chunk_69()
}

pub open spec fn changes_when_casefolded_block_7() -> Seq<SRange> {
    changes_when_casefolded_chunk_70() + changes_when_casefolded_chunk_71() + changes_when_casefolded_chunk_72() + changes_when_casefolded_chunk_73() + changes_when_casefolded_chunk_74() + changes_when_casefolded_chunk_75() + changes_when_casefolded_chunk_76() + changes_when_casefolded_chunk_77() + changes_when_casefolded_chunk_78()
}

/// The ranges of the property Changes_When_Casefolded.
pub open spec fn changes_when_casefolded_ranges() -> Seq<SRange> {
    changes_when_casefolded_block_0() + changes_when_casefolded_block_1() + changes_when_casefolded_block_2() + changes_when_casefolded_block_3() + changes_when_casefolded_block_4() + changes_when_casefolded_block_5() + changes_when_casefolded_block_6() + changes_when_casefolded_block_7()
}

proof fn lemma_changes_when_casefolded_block_0()
    ensures
        canonical(changes_when_casefolded_block_0()),
        changes_when_casefolded_block_0().len() > 0,
        changes_when_casefolded_block_0()[0] == changes_when_casefolded_chunk_0()[0],
        changes_when_casefolded_block_0().last() == changes_when_casefolded_chunk_9().last(),
{
    reveal_with_fuel(canonical, 9);
    assert(canonical(changes_when_casefolded_chunk_0()));
    assert(canonical(changes_when_casefolded_chunk_1()));
    assert(canonical(changes_when_casefolded_chunk_2()));
    assert(canonical(changes_when_casefolded_chunk_3()));
    assert(canonical(changes_when_casefolded_chunk_4()));
    assert(canonical(changes_when_casefolded_chunk_5()));
    assert(canonical(changes_when_casefolded_chunk_6()));
    assert(canonical(changes_when_casefolded_chunk_7()));
    assert(canonical(changes_when_casefolded_chunk_8()));
    assert(canonical(changes_when_casefolded_chunk_9()));
    lemma_canonical_append(changes_when_casefolded_chunk_0(), changes_when_casefolded_chunk_1());
    lemma_canonical_append(changes_when_casefolded_chunk_0() + changes_when_casefolded_chunk_1(), changes_when_casefolded_chunk_2());
    lemma_canonical_append(changes_when_casefolded_chunk_0() + changes_when_casefolded_chunk_1() + changes_when_casefolded_chunk_2(), changes_when_casefolded_chunk_3());
    lemma_canonical_append(changes_when_casefolded_chunk_0() + changes_when_casefolded_chunk_1() + changes_when_casefolded_chunk_2() + changes_when_casefolded_chunk_3(), changes_when_casefolded_chunk_4());
    lemma_canonical_append(changes_when_casefolded_chunk_0() + changes_when_casefolded_chunk_1() + changes_when_casefolded_chunk_2() + changes_when_casefolded_chunk_3() + changes_when_casefolded_chunk_4(), changes_when_casefolded_chunk_5());
    lemma_canonical_append(changes_when_casefolded_chunk_0() + changes_when_casefolded_chunk_1() + changes_when_casefolded_chunk_2() + changes_when_casefolded_chunk_3() + changes_when_casefolded_chunk_4() + changes_when_casefolded_chunk_5(), changes_when_casefolded_chunk_6());
    lemma_canonical_append(changes_when_casefolded_chunk_0() + changes_when_casefolded_chunk_1() + changes_when_casefolded_chunk_2() + changes_when_casefolded_chunk_3() + changes_when_casefolded_chunk_4() + changes_when_casefolded_chunk_5() + changes_when_casefolded_chunk_6(), changes_when_casefolded_chunk_7());
    lemma_canonical_append(changes_when_casefolded_chunk_0() + changes_when_casefolded_chunk_1() + changes_when_casefolded_chunk_2() + changes_when_casefolded_chunk_3() + changes_when_casefolded_chunk_4() + changes_when_casefolded_chunk_5() + changes_when_casefolded_chunk_6() + changes_when_casefolded_chunk_7(), changes_when_casefolded_chunk_8());
    lemma_canonical_append(changes_when_casefolded_chunk_0() + changes_when_casefolded_chunk_1() + changes_when_casefolded_chunk_2() + changes_when_casefolded_chunk_3() + changes_when_casefolded_chunk_4() + changes_when_casefolded_chunk_5() + changes_when_casefolded_chunk_6() + changes_when_casefolded_chunk_7() + changes_when_casefolded_chunk_8(), changes_when_casefolded_chunk_9());
}

proof fn lemma_changes_when_casefolded_block_1()
    ensures
        canonical(changes_when_casefolded_block_1()),
        changes_when_casefolded_block_1().len() > 0,
        changes_when_casefolded_block_1()[0] == changes_when_casefolded_chunk_10()[0],
        changes_when_casefolded_block_1().last() == changes_when_casefolded_chunk_19().last(),
{
    reveal_with_fuel(canonical, 9);
    assert(canonical(changes_when_casefolded_chunk_10()));
    assert(canonical(changes_when_casefolded_chunk_11()));
    assert(canonical(changes_when_casefolded_chunk_12()));
    assert(canonical(changes_when_casefolded_chunk_13()));
    assert(canonical(changes_when_casefolded_chunk_14()));
    assert(canonical(changes_when_casefolded_chunk_15()));
    assert(canonical(changes_when_casefolded_chunk_16()));
    assert(canonical(changes_when_casefolded_chunk_17()));
    assert(canonical(changes_when_casefolded_chunk_18()));
    assert(canonical(changes_when_casefolded_chunk_19()));
    lemma_canonical_append(changes_when_casefolded_chunk_10(), changes_when_casefolded_chunk_11());
    lemma_canonical_append(changes_when_casefolded_chunk_10() + changes_when_casefolded_chunk_11(), changes_when_casefolded_chunk_12());
    lemma_canonical_append(changes_when_casefolded_chunk_10() + changes_when_casefolded_chunk_11() + changes_when_casefolded_chunk_12(), changes_when_casefolded_chunk_13());
    lemma_canonical_append(changes_when_casefolded_chunk_10() + changes_when_casefolded_chunk_11() + changes_when_casefolded_chunk_12() + changes_when_casefolded_chunk_13(), changes_when_casefolded_chunk_14());
    lemma_canonical_append(changes_when_casefolded_chunk_10() + changes_when_casefolded_chunk_11() + changes_when_casefolded_chunk_12() + changes_when_casefolded_chunk_13() + changes_when_casefolded_chunk_14(), changes_when_casefolded_chunk_15());
    lemma_canonical_append(changes_when_casefolded_chunk_10() + changes_when_casefolded_chunk_11() + changes_when_casefolded_chunk_12() + changes_when_casefolded_chunk_13() + changes_when_casefolded_chunk_14() + changes_when_casefolded_chunk_15(), changes_when_casefolded_chunk_16());
    lemma_canonical_append(changes_when_casefolded_chunk_10() + changes_when_casefolded_chunk_11() + changes_when_casefolded_chunk_12() + changes_when_casefolded_chunk_13() + changes_when_casefolded_chunk_14() + changes_when_casefolded_chunk_15() + changes_when_casefolded_chunk_16(), changes_when_casefolded_chunk_17());
    lemma_canonical_append(changes_when_casefolded_chunk_10() + changes_when_casefolded_chunk_11() + changes_when_casefolded_chunk_12() + changes_when_casefolded_chunk_13() + changes_when_casefolded_chunk_14() + changes_when_casefolded_chunk_15() + changes_when_casefolded_chunk_16() + changes_when_casefolded_chunk_17(), changes_when_casefolded_chunk_18());
    lemma_canonical_append(changes_when_casefolded_chunk_10() + changes_when_casefolded_chunk_11() + changes_when_casefolded_chunk_12() + changes_when_casefolded_chunk_13() + changes_when_casefolded_chunk_14() + changes_when_casefolded_chunk_15() + changes_when_casefolded_chunk_16() + changes_when_casefolded_chunk_17() + changes_when_casefolded_chunk_18(), changes_when_casefolded_chunk_19());
}

proof fn lemma_changes_when_casefolded_block_2()
    ensures
        canonical(changes_when_casefolded_block_2()),
        changes_when_casefolded_block_2().len() > 0,
        changes_when_casefolded_block_2()[0] == changes_when_casefolded_chunk_20()[0],
        changes_when_casefolded_block_2().last() == changes_when_casefolded_chunk_29().last(),
{
    reveal_with_fuel(canonical, 9);
    assert(canonical(changes_when_casefolded_chunk_20()));
    assert(canonical(changes_when_casefolded_chunk_21()));
    assert(canonical(changes_when_casefolded_chunk_22()));
    assert(canonical(changes_when_casefolded_chunk_23()));
    assert(canonical(changes_when_casefolded_chunk_24()));
    assert(canonical(changes_when_casefolded_chunk_25()));
    assert(canonical(changes_when_casefolded_chunk_26()));
    assert(canonical(changes_when_casefolded_chunk_27()));
    assert(canonical(changes_when_casefolded_chunk_28()));
    assert(canonical(changes_when_casefolded_chunk_29()));
    lemma_canonical_append(changes_when_casefolded_chunk_20(), changes_when_casefolded_chunk_21());
    lemma_canonical_append(changes_when_casefolded_chunk_20() + changes_when_casefolded_chunk_21(), changes_when_casefolded_chunk_22());
    lemma_canonical_append(changes_when_casefolded_chunk_20() + changes_when_casefolded_chunk_21() + changes_when_casefolded_chunk_22(), changes_when_casefolded_chunk_23());
    lemma_canonical_append(changes_when_casefolded_chunk_20() + changes_when_casefolded_chunk_21() + changes_when_casefolded_chunk_22() + changes_when_casefolded_chunk_23(), changes_when_casefolded_chunk_24());
    lemma_canonical_append(changes_when_casefolded_chunk_20() + changes_when_casefolded_chunk_21() + changes_when_casefolded_chunk_22() + changes_when_casefolded_chunk_23() + changes_when_casefolded_chunk_24(), changes_when_casefolded_chunk_25());
    lemma_canonical_append(changes_when_casefolded_chunk_20() + changes_when_casefolded_chunk_21() + changes_when_casefolded_chunk_22() + changes_when_casefolded_chunk_23() + changes_when_casefolded_chunk_24() + changes_when_casefolded_chunk_25(), changes_when_casefolded_chunk_26());
    lemma_canonical_append(changes_when_casefolded_chunk_20() + changes_when_casefolded_chunk_21() + changes_when_casefolded_chunk_22() + changes_when_casefolded_chunk_23() + changes_when_casefolded_chunk_24() + changes_when_casefolded_chunk_25() + changes_when_casefolded_chunk_26(), changes_when_casefolded_chunk_27());
    lemma_canonical_append(changes_when_casefolded_chunk_20() + changes_when_casefolded_chunk_21() + changes_when_casefolded_chunk_22() + changes_when_casefolded_chunk_23() + changes_when_casefolded_chunk_24() + changes_when_casefolded_chunk_25() + changes_when_casefolded_chunk_26() + changes_when_casefolded_chunk_27(), changes_when_casefolded_chunk_28());
    lemma_canonical_append(changes_when_casefolded_chunk_20() + changes_when_casefolded_chunk_21() + changes_when_casefolded_chunk_22() + changes_when_casefolded_chunk_23() + changes_when_casefolded_chunk_24() + changes_when_casefolded_chunk_25() + changes_when_casefolded_chunk_26() + changes_when_casefolded_chunk_27() + changes_when_casefolded_chunk_28(), changes_when_casefolded_chunk_29());
}

proof fn lemma_changes_when_casefolded_block_3()
    ensures
        canonical(changes_when_casefolded_block_3()),
        changes_when_casefolded_block_3().len() > 0,
        changes_when_casefolded_block_3()[0] == changes_when_casefolded_chunk_30()[0],
        changes_when_casefolded_block_3().last() == changes_when_casefolded_chunk_39().last(),
{
    reveal_with_fuel(canonical, 9);
    assert(canonical(changes_when_casefolded_chunk_30()));
    assert(canonical(changes_when_casefolded_chunk_31()));
    assert(canonical(changes_when_casefolded_chunk_32()));
    assert(canonical(changes_when_casefolded_chunk_33()));
    assert(canonical(changes_when_casefolded_chunk_34()));
    assert(canonical(changes_when_casefolded_chunk_35()));
    assert(canonical(changes_when_casefolded_chunk_36()));
    assert(canonical(changes_when_casefolded_chunk_37()));
    assert(canonical(changes_when_casefolded_chunk_38()));
    assert(canonical(changes_when_casefolded_chunk_39()));
    lemma_canonical_append(changes_when_casefolded_chunk_30(), changes_when_casefolded_chunk_31());
    lemma_canonical_append(changes_when_casefolded_chunk_30() + changes_when_casefolded_chunk_31(), changes_when_casefolded_chunk_32());
    lemma_canonical_append(changes_when_casefolded_chunk_30() + changes_when_casefolded_chunk_31() + changes_when_casefolded_chunk_32(), changes_when_casefolded_chunk_33());
    lemma_canonical_append(changes_when_casefolded_chunk_30() + changes_when_casefolded_chunk_31() + changes_when_casefolded_chunk_32() + changes_when_casefolded_chunk_33(), changes_when_casefolded_chunk_34());
    lemma_canonical_append(changes_when_casefolded_chunk_30() + changes_when_casefolded_chunk_31() + changes_when_casefolded_chunk_32() + changes_when_casefolded_chunk_33() + changes_when_casefolded_chunk_34(), changes_when_casefolded_chunk_35());
    lemma_canonical_append(changes_when_casefolded_chunk_30() + changes_when_casefolded_chunk_31() + changes_when_casefolded_chunk_32() + changes_when_casefolded_chunk_33() + changes_when_casefolded_chunk_34() + changes_when_casefolded_chunk_35(), changes_when_casefolded_chunk_36());
    lemma_canonical_append(changes_when_casefolded_chunk_30() + changes_when_casefolded_chunk_31() + changes_when_casefolded_chunk_32() + changes_when_casefolded_chunk_33() + changes_when_casefolded_chunk_34() + changes_when_casefolded_chunk_35() + changes_when_casefolded_chunk_36(), changes_when_casefolded_chunk_37());
    lemma_canonical_append(changes_when_casefolded_chunk_30() + changes_when_casefolded_chunk_31() + changes_when_casefolded_chunk_32() + changes_when_casefolded_chunk_33() + changes_when_casefolded_chunk_34() + changes_when_casefolded_chunk_35() + changes_when_casefolded_chunk_36() + changes_when_casefolded_chunk_37(), changes_when_casefolded_chunk_38());
    lemma_canonical_append(changes_when_casefolded_chunk_30() + changes_when_casefolded_chunk_31() + changes_when_casefolded_chunk_32() + changes_when_casefolded_chunk_33() + changes_when_casefolded_chunk_34() + changes_when_casefolded_chunk_35() + changes_when_casefolded_chunk_36() + changes_when_casefolded_chunk_37() + changes_when_casefolded_chunk_38(), changes_when_casefolded_chunk_39());
}

proof fn lemma_changes_when_casefolded_block_4()
    ensures
        canonical(changes_when_casefolded_block_4()),
        changes_when_casefolded_block_4().len() > 0,
        changes_when_casefolded_block_4()[0] == changes_when_casefolded_chunk_40()[0],
        changes_when_casefolded_block_4().last() == changes_when_casefolded_chunk_49().last(),
{
    reveal_with_fuel(canonical, 9);
    assert(canonical(changes_when_casefolded_chunk_40()));
    assert(canonical(changes_when_casefolded_chunk_41()));
    assert(canonical(changes_when_casefolded_chunk_42()));
    assert(canonical(changes_when_casefolded_chunk_43()));
    assert(canonical(changes_when_casefolded_chunk_44()));
    assert(canonical(changes_when_casefolded_chunk_45()));
    assert(canonical(changes_when_casefolded_chunk_46()));
    assert(canonical(changes_when_casefolded_chunk_47()));
    assert(canonical(changes_when_casefolded_chunk_48()));
    assert(canonical(changes_when_casefolded_chunk_49()));
    lemma_canonical_append(changes_when_casefolded_chunk_40(), changes_when_casefolded_chunk_41());
    lemma_canonical_append(changes_when_casefolded_chunk_40() + changes_when_casefolded_chunk_41(), changes_when_casefolded_chunk_42());
    lemma_canonical_append(changes_when_casefolded_chunk_40() + changes_when_casefolded_chunk_41() + changes_when_casefolded_chunk_42(), changes_when_casefolded_chunk_43());
    lemma_canonical_append(changes_when_casefolded_chunk_40() + changes_when_casefolded_chunk_41() + changes_when_casefolded_chunk_42() + changes_when_casefolded_chunk_43(), changes_when_casefolded_chunk_44());
    lemma_canonical_append(changes_when_casefolded_chunk_40() + changes_when_casefolded_chunk_41() + changes_when_casefolded_chunk_42() + changes_when_casefolded_chunk_43() + changes_when_casefolded_chunk_44(), changes_when_casefolded_chunk_45());
    lemma_canonical_append(changes_when_casefolded_chunk_40() + changes_when_casefolded_chunk_41() + changes_when_casefolded_chunk_42() + changes_when_casefolded_chunk_43() + changes_when_casefolded_chunk_44() + changes_when_casefolded_chunk_45(), changes_when_casefolded_chunk_46());
    lemma_canonical_append(changes_when_casefolded_chunk_40() + changes_when_casefolded_chunk_41() + changes_when_casefolded_chunk_42() + changes_when_casefolded_chunk_43() + changes_when_casefolded_chunk_44() + changes_when_casefolded_chunk_45() + changes_when_casefolded_chunk_46(), changes_when_casefolded_chunk_47());
    lemma_canonical_append(changes_when_casefolded_chunk_40() + changes_when_casefolded_chunk_41() + changes_when_casefolded_chunk_42() + changes_when_casefolded_chunk_43() + changes_when_casefolded_chunk_44() + changes_when_casefolded_chunk_45() + changes_when_casefolded_chunk_46() + changes_when_casefolded_chunk_47(), changes_when_casefolded_chunk_48());
    lemma_canonical_append(changes_when_casefolded_chunk_40() + changes_when_casefolded_chunk_41() + changes_when_casefolded_chunk_42() + changes_when_casefolded_chunk_43() + changes_when_casefolded_chunk_44() + changes_when_casefolded_chunk_45() + changes_when_casefolded_chunk_46() + changes_when_casefolded_chunk_47() + changes_when_casefolded_chunk_48(), changes_when_casefolded_chunk_49());
}

proof fn lemma_changes_when_casefolded_block_5()
    ensures
        canonical(changes_when_casefolded_block_5()),
        changes_when_casefolded_block_5().len() > 0,
        changes_when_casefolded_block_5()[0] == changes_when_casefolded_chunk_50()[0],
        changes_when_casefolded_block_5().last() == changes_when_casefolded_chunk_59().last(),
{
    reveal_with_fuel(canonical, 9);
    assert(canonical(changes_when_casefolded_chunk_50()));
    assert(canonical(changes_when_casefolded_chunk_51()));
    assert(canonical(changes_when_casefolded_chunk_52()));
    assert(canonical(changes_when_casefolded_chunk_53()));
    assert(canonical(changes_when_casefolded_chunk_54()));
    assert(canonical(changes_when_casefolded_chunk_55()));
    assert(canonical(changes_when_casefolded_chunk_56()));
    assert(canonical(changes_when_casefolded_chunk_57()));
    assert(canonical(changes_when_casefolded_chunk_58()));
    assert(canonical(changes_when_casefolded_chunk_59()));
    lemma_canonical_append(changes_when_casefolded_chunk_50(), changes_when_casefolded_chunk_51());
    lemma_canonical_append(changes_when_casefolded_chunk_50() + changes_when_casefolded_chunk_51(), changes_when_casefolded_chunk_52());
    lemma_canonical_append(changes_when_casefolded_chunk_50() + changes_when_casefolded_chunk_51() + changes_when_casefolded_chunk_52(), changes_when_casefolded_chunk_53());
    lemma_canonical_append(changes_when_casefolded_chunk_50() + changes_when_casefolded_chunk_51() + changes_when_casefolded_chunk_52() + changes_when_casefolded_chunk_53(), changes_when_casefolded_chunk_54());
    lemma_canonical_append(changes_when_casefolded_chunk_50() + changes_when_casefolded_chunk_51() + changes_when_casefolded_chunk_52() + changes_when_casefolded_chunk_53() + changes_when_casefolded_chunk_54(), changes_when_casefolded_chunk_55());
    lemma_canonical_append(changes_when_casefolded_chunk_50() + changes_when_casefolded_chunk_51() + changes_when_casefolded_chunk_52() + changes_when_casefolded_chunk_53() + changes_when_casefolded_chunk_54() + changes_when_casefolded_chunk_55(), changes_when_casefolded_chunk_56());
    lemma_canonical_append(changes_when_casefolded_chunk_50() + changes_when_casefolded_chunk_51() + changes_when_casefolded_chunk_52() + changes_when_casefolded_chunk_53() + changes_when_casefolded_chunk_54() + changes_when_casefolded_chunk_55() + changes_when_casefolded_chunk_56(), changes_when_casefolded_chunk_57());
    lemma_canonical_append(changes_when_casefolded_chunk_50() + changes_when_casefolded_chunk_51() + changes_when_casefolded_chunk_52() + changes_when_casefolded_chunk_53() + changes_when_casefolded_chunk_54() + changes_when_casefolded_chunk_55() + changes_when_casefolded_chunk_56() + changes_when_casefolded_chunk_57(), changes_when_casefolded_chunk_58());
    lemma_canonical_append(changes_when_casefolded_chunk_50() + changes_when_casefolded_chunk_51() + changes_when_casefolded_chunk_52() + changes_when_casefolded_chunk_53() + changes_when_casefolded_chunk_54() + changes_when_casefolded_chunk_55() + changes_when_casefolded_chunk_56() + changes_when_casefolded_chunk_57() + changes_when_casefolded_chunk_58(), changes_when_casefolded_chunk_59());
}

proof fn lemma_changes_when_casefolded_block_6()
    ensures
        canonical(changes_when_casefolded_block_6()),
        changes_when_casefolded_block_6().len() > 0,
        changes_when_casefolded_block_6()[0] == changes_when_casefolded_chunk_60()[0],
        changes_when_casefolded_block_6().last() == changes_when_casefolded_chunk_69().last(),
{
    reveal_with_fuel(canonical, 9);
    assert(canonical(changes_when_casefolded_chunk_60()));
    assert(canonical(changes_when_casefolded_chunk_61()));
    assert(canonical(changes_when_casefolded_chunk_62()));
    assert(canonical(changes_when_casefolded_chunk_63()));
    assert(canonical(changes_when_casefolded_chunk_64()));
    assert(canonical(changes_when_casefolded_chunk_65()));
    assert(canonical(changes_when_casefolded_chunk_66()));
    assert(canonical(changes_when_casefolded_chunk_67()));
    assert(canonical(changes_when_casefolded_chunk_68()));
    assert(canonical(changes_when_casefolded_chunk_69()));
    lemma_canonical_append(changes_when_casefolded_chunk_60(), changes_when_casefolded_chunk_61());
    lemma_canonical_append(changes_when_casefolded_chunk_60() + changes_when_casefolded_chunk_61(), changes_when_casefolded_chunk_62());
    lemma_canonical_append(changes_when_casefolded_chunk_60() + changes_when_casefolded_chunk_61() + changes_when_casefolded_chunk_62(), changes_when_casefolded_chunk_63());
    lemma_canonical_append(changes_when_casefolded_chunk_60() + changes_when_casefolded_chunk_61() + changes_when_casefolded_chunk_62() + changes_when_casefolded_chunk_63(), changes_when_casefolded_chunk_64());
    lemma_canonical_append(changes_when_casefolded_chunk_60() + changes_when_casefolded_chunk_61() + changes_when_casefolded_chunk_62() + changes_when_casefolded_chunk_63() + changes_when_casefolded_chunk_64(), changes_when_casefolded_chunk_65());
    lemma_canonical_append(changes_when_casefolded_chunk_60() + changes_when_casefolded_chunk_61() + changes_when_casefolded_chunk_62() + changes_when_casefolded_chunk_63() + changes_when_casefolded_chunk_64() + changes_when_casefolded_chunk_65(), changes_when_casefolded_chunk_66());
    lemma_canonical_append(changes_when_casefolded_chunk_60() + changes_when_casefolded_chunk_61() + changes_when_casefolded_chunk_62() + changes_when_casefolded_chunk_63() + changes_when_casefolded_chunk_64() + changes_when_casefolded_chunk_65() + changes_when_casefolded_chunk_66(), changes_when_casefolded_chunk_67());
    lemma_canonical_append(changes_when_casefolded_chunk_60() + changes_when_casefolded_chunk_61() + changes_when_casefolded_chunk_62() + changes_when_casefolded_chunk_63() + changes_when_casefolded_chunk_64() + changes_when_casefolded_chunk_65() + changes_when_casefolded_chunk_66() + changes_when_casefolded_chunk_67(), changes_when_casefolded_chunk_68());
    lemma_canonical_append(changes_when_casefolded_chunk_60() + changes_when_casefolded_chunk_61() + changes_when_casefolded_chunk_62() + changes_when_casefolded_chunk_63() + changes_when_casefolded_chunk_64() + changes_when_casefolded_chunk_65() + changes_when_casefolded_chunk_66() + changes_when_casefolded_chunk_67() + changes_when_casefolded_chunk_68(), changes_when_casefolded_chunk_69());
}

proof fn lemma_changes_when_casefolded_block_7()
    ensures
        canonical(changes_when_casefolded_block_7()),
        changes_when_casefolded_block_7().len() > 0,
        changes_when_casefolded_block_7()[0] == changes_when_casefolded_chunk_70()[0],
        changes_when_casefolded_block_7().last() == changes_when_casefolded_chunk_78().last(),
{
    reveal_with_fuel(canonical, 9);
    assert(canonical(changes_when_casefolded_chunk_70()));
    assert(canonical(changes_when_casefolded_chunk_71()));
    assert(canonical(changes_when_casefolded_chunk_72()));
    assert(canonical(changes_when_casefolded_chunk_73()));
    assert(canonical(changes_when_casefolded_chunk_74()));
    assert(canonical(changes_when_casefolded_chunk_75()));
    assert(canonical(changes_when_casefolded_chunk_76()));
    assert(canonical(changes_when_casefolded_chunk_77()));
    assert(canonical(changes_when_casefolded_chunk_78()));
    lemma_canonical_append(changes_when_casefolded_chunk_70(), changes_when_casefolded_chunk_71());
    lemma_canonical_append(changes_when_casefolded_chunk_70() + changes_when_casefolded_chunk_71(), changes_when_casefolded_chunk_72());
    lemma_canonical_append(changes_when_casefolded_chunk_70() + changes_when_casefolded_chunk_71() + changes_when_casefolded_chunk_72(), changes_when_casefolded_chunk_73());
    lemma_canonical_append(changes_when_casefolded_chunk_70() + changes_when_casefolded_chunk_71() + changes_when_casefolded_chunk_72() + changes_when_casefolded_chunk_73(), changes_when_casefolded_chunk_74());
    lemma_canonical_append(changes_when_casefolded_chunk_70() + changes_when_casefolded_chunk_71() + changes_when_casefolded_chunk_72() + changes_when_casefolded_chunk_73() + changes_when_casefolded_chunk_74(), changes_when_casefolded_chunk_75());
    lemma_canonical_append(changes_when_casefolded_chunk_70() + changes_when_casefolded_chunk_71() + changes_when_casefolded_chunk_72() + changes_when_casefolded_chunk_73() + changes_when_casefolded_chunk_74() + changes_when_casefolded_chunk_75(), changes_when_casefolded_chunk_76());
    lemma_canonical_append(changes_when_casefolded_chunk_70() + changes_when_casefolded_chunk_71() + changes_when_casefolded_chunk_72() + changes_when_casefolded_chunk_73() + changes_when_casefolded_chunk_74() + changes_when_casefolded_chunk_75() + changes_when_casefolded_chunk_76(), changes_when_casefolded_chunk_77());
    lemma_canonical_append(changes_when_casefolded_chunk_70() + changes_when_casefolded_chunk_71() + changes_when_casefolded_chunk_72() + changes_when_casefolded_chunk_73() + changes_when_casefolded_chunk_74() + changes_when_casefolded_chunk_75() + changes_when_casefolded_chunk_76() + changes_when_casefolded_chunk_77(), changes_when_casefolded_chunk_78());
}

pub proof fn lemma_changes_when_casefolded_canonical()
    ensures
        canonical(changes_when_casefolded_ranges()),
{
    lemma_changes_when_casefolded_block_0();
    lemma_changes_when_casefolded_block_1();
    lemma_changes_when_casefolded_block_2();
    lemma_changes_when_casefolded_block_3();
    lemma_changes_when_casefolded_block_4();
    lemma_changes_when_casefolded_block_5();
    lemma_changes_when_casefolded_block_6();
    lemma_changes_when_casefolded_block_7();
    lemma_canonical_append(changes_when_casefolded_block_0(), changes_when_casefolded_block_1());
    lemma_canonical_append(changes_when_casefolded_block_0() + changes_when_casefolded_block_1(), changes_when_casefolded_block_2());
    lemma_canonical_append(changes_when_casefolded_block_0() + changes_when_casefolded_block_1() + changes_when_casefolded_block_2(), changes_when_casefolded_block_3());
    lemma_canonical_append(changes_when_casefolded_block_0() + changes_when_casefolded_block_1() + changes_when_casefolded_block_2() + changes_when_casefolded_block_3(), changes_when_casefolded_block_4());
    lemma_canonical_append(changes_when_casefolded_block_0() + changes_when_casefolded_block_1() + changes_when_casefolded_block_2() + changes_when_casefolded_block_3() + changes_when_casefolded_block_4(), changes_when_casefolded_block_5());
    lemma_canonical_append(changes_when_casefolded_block_0() + changes_when_casefolded_block_1() + changes_when_casefolded_block_2() + changes_when_casefolded_block_3() + changes_when_casefolded_block_4() + changes_when_casefolded_block_5(), changes_when_casefolded_block_6());
    lemma_canonical_append(changes_when_casefolded_block_0() + changes_when_casefolded_block_1() + changes_when_casefolded_block_2() + changes_when_casefolded_block_3() + changes_when_casefolded_block_4() + changes_when_casefolded_block_5() + changes_when_casefolded_block_6(), changes_when_casefolded_block_7());
}

fn push_changes_when_casefolded_chunk_0(v: &mut Vec<ClassUnicodeRange>)
    ensures
        rview(final(v)@) == rview(old(v)@) + changes_when_casefolded_chunk_0(),
{
    let ghost o = rview(v@);
    push_range(v, '\u{41}', '\u{5A}');
    push_range(v, '\u{B5}', '\u{B5}');
    push_range(v, '\u{C0}', '\u{D6}');
    push_range(v, '\u{D8}', '\u{DF}');
    push_range(v, '\u{100}', '\u{100}');
    push_range(v, '\u{102}', '\u{102}');
    push_range(v, '\u{104}', '\u{104}');
    push_range(v, '\u{106}', '\u{106}');
    assert(rview(v@) =~= o + changes_when_casefolded_chunk_0());
}

fn push_changes_when_casefolded_chunk_1(v: &mut Vec<ClassUnicodeRange>)
    ensures
        rview(final(v)@) == rview(old(v)@) + changes_when_casefolded_chunk_1(),
{
    let ghost o = rview(v@);
    push_range(v, '\u{108}', '\u{108}');
    push_range(v, '\u{10A}', '\u{10A}');
    push_range(v, '\u{10C}', '\u{10C}');
    push_range(v, '\u{10E}', '\u{10E}');
    push_range(v, '\u{110}', '\u{110}');
    push_range(v, '\u{112}', '\u{112}');
    push_range(v, '\u{114}', '\u{114}');
    push_range(v, '\u{116}', '\u{116}');
    assert(rview(v@) =~= o + changes_when_casefolded_chunk_1());
}

fn push_changes_when_casefolded_chunk_2(v: &mut Vec<ClassUnicodeRange>)
    ensures
        rview(final(v)@) == rview(old(v)@) + changes_when_casefolded_chunk_2(),
{
    let ghost o = rview(v@);
    push_range(v, '\u{118}', '\u{118}');
    push_range(v, '\u{11A}', '\u{11A}');
    push_range(v, '\u{11C}', '\u{11C}');
    push_range(v, '\u{11E}', '\u{11E}');
    push_range(v, '\u{120}', '\u{120}');
    push_range(v, '\u{122}', '\u{122}');
    push_range(v, '\u{124}', '\u{124}');
    push_range(v, '\u{126}', '\u{126}');
    assert(rview(v@) =~= o + changes_when_casefolded_chunk_2());
}

fn push_changes_when_casefolded_chunk_3(v: &mut Vec<ClassUnicodeRange>)
    ensures
        rview(final(v)@) == rview(old(v)@) + changes_when_casefolded_chunk_3(),
{
    let ghost o = rview(v@);
    push_range(v, '\u{128}', '\u{128}');
    push_range(v, '\u{12A}', '\u{12A}');
    push_range(v, '\u{12C}', '\u{12C}');
    push_range(v, '\u{12E}', '\u{12E}');
    push_range(v, '\u{130}', '\u{130}');
    push_range(v, '\u{132}', '\u{132}');
    push_range(v, '\u{134}', '\u{134}');
    push_range(v, '\u{136}', '\u{136}');
    assert(rview(v@) =~= o + changes_when_casefolded_chunk_3());
}

fn push_changes_when_casefolded_chunk_4(v: &mut Vec<ClassUnicodeRange>)
    ensures
        rview(final(v)@) == rview(old(v)@) + changes_when_casefolded_chunk_4(),
{
    let ghost o = rview(v@);
    push_range(v, '\u{139}', '\u{139}');
    push_range(v, '\u{13B}', '\u{13B}');
    push_range(v, '\u{13D}', '\u{13D}');
    push_range(v, '\u{13F}', '\u{13F}');
    push_range(v, '\u{141}', '\u{141}');
    push_range(v, '\u{143}', '\u{143}');
    push_range(v, '\u{145}', '\u{145}');
    push_range(v, '\u{147}', '\u{147}');
    assert(rview(v@) =~= o + changes_when_casefolded_chunk_4());
}

fn push_changes_when_casefolded_chunk_5(v: &mut Vec<ClassUnicodeRange>)
    ensures
        rview(final(v)@) == rview(old(v)@) + changes_when_casefolded_chunk_5(),
{
    let ghost o = rview(v@);
    push_range(v, '\u{149}', '\u{14A}');
    push_range(v, '\u{14C}', '\u{14C}');
    push_range(v, '\u{14E}', '\u{14E}');
    push_range(v, '\u{150}', '\u{150}');
    push_range(v, '\u{152}', '\u{152}');
    push_range(v, '\u{154}', '\u{154}');
    push_range(v, '\u{156}', '\u{156}');
    push_range(v, '\u{158}', '\u{158}');
    assert(rview(v@) =~= o + changes_when_casefolded_chunk_5());
}

fn push_changes_when_casefolded_chunk_6(v: &mut Vec<ClassUnicodeRange>)
    ensures
        rview(final(v)@) == rview(old(v)@) + changes_when_casefolded_chunk_6(),
{
    let ghost o = rview(v@);
    push_range(v, '\u{15A}', '\u{15A}');
    push_range(v, '\u{15C}', '\u{15C}');
    push_range(v, '\u{15E}', '\u{15E}');
    push_range(v, '\u{160}', '\u{160}');
    push_range(v, '\u{162}', '\u{162}');
    push_range(v, '\u{164}', '\u{164}');
    push_range(v, '\u{166}', '\u{166}');
    push_range(v, '\u{168}', '\u{168}');
    assert(rview(v@) =~= o + changes_when_casefolded_chunk_6());
}

fn push_changes_when_casefolded_chunk_7(v: &mut Vec<ClassUnicodeRange>)
    ensures
        rview(final(v)@) == rview(old(v)@) + changes_when_casefolded_chunk_7(),
{
    let ghost o = rview(v@);
    push_range(v, '\u{16A}', '\u{16A}');
    push_range(v, '\u{16C}', '\u{16C}');
    push_range(v, '\u{16E}', '\u{16E}');
    push_range(v, '\u{170}', '\u{170}');
    push_range(v, '\u{172}', '\u{172}');
    push_range(v, '\u{174}', '\u{174}');
    push_range(v, '\u{176}', '\u{176}');
    push_range(v, '\u{178}', '\u{179}');
    assert(rview(v@) =~= o + changes_when_casefolded_chunk_7());
}

fn push_changes_when_casefolded_chunk_8(v: &mut Vec<ClassUnicodeRange>)
    ensures
        rview(final(v)@) == rview(old(v)@) + changes_when_casefolded_chunk_8(),
{
    let ghost o = rview(v@);
    push_range(v, '\u{17B}', '\u{17B}');
    push_range(v, '\u{17D}', '\u{17D}');
    push_range(v, '\u{17F}', '\u{17F}');
    push_range(v, '\u{181}', '\u{182}');
    push_range(v, '\u{184}', '\u{184}');
    push_range(v, '\u{186}', '\u{187}');
    push_range(v, '\u{189}', '\u{18B}');
    push_range(v, '\u{18E}', '\u{191}');
    assert(rview(v@) =~= o + changes_when_casefolded_chunk_8());
}

fn push_changes_when_casefolded_chunk_9(v: &mut Vec<ClassUnicodeRange>)
    ensures
        rview(final(v)@) == rview(old(v)@) + changes_when_casefolded_chunk_9(),
{
    let ghost o = rview(v@);
    push_range(v, '\u{193}', '\u{194}');
    push_range(v, '\u{196}', '\u{198}');
    push_range(v, '\u{19C}', '\u{19D}');
    push_range(v, '\u{19F}', '\u{1A0}');
    push_range(v, '\u{1A2}', '\u{1A2}');
    push_range(v, '\u{1A4}', '\u{1A4}');
    push_range(v, '\u{1A6}', '\u{1A7}');
    push_range(v, '\u{1A9}', '\u{1A9}');
    assert(rview(v@) =~= o + changes_when_casefolded_chunk_9());
}

fn push_changes_when_casefolded_chunk_10(v: &mut Vec<ClassUnicodeRange>)
    ensures
        rview(final(v)@) == rview(old(v)@) + changes_when_casefolded_chunk_10(),
{
    let ghost o = rview(v@);
    push_range(v, '\u{1AC}', '\u{1AC}');
    push_range(v, '\u{1AE}', '\u{1AF}');
    push_range(v, '\u{1B1}', '\u{1B3}');
    push_range(v, '\u{1B5}', '\u{1B5}');
    push_range(v, '\u{1B7}', '\u{1B8}');
    push_range(v, '\u{1BC}', '\u{1BC}');
    push_range(v, '\u{1C4}', '\u{1C5}');
    push_range(v, '\u{1C7}', '\u{1C8}');
    assert(rview(v@) =~= o + changes_when_casefolded_chunk_10());
}

fn push_changes_when_casefolded_chunk_11(v: &mut Vec<ClassUnicodeRange>)
    ensures
        rview(final(v)@) == rview(old(v)@) + changes_when_casefolded_chunk_11(),
{
    let ghost o = rview(v@);
    push_range(v, '\u{1CA}', '\u{1CB}');
    push_range(v, '\u{1CD}', '\u{1CD}');
    push_range(v, '\u{1CF}', '\u{1CF}');
    push_range(v, '\u{1D1}', '\u{1D1}');
    push_range(v, '\u{1D3}', '\u{1D3}');
    push_range(v, '\u{1D5}', '\u{1D5}');
    push_range(v, '\u{1D7}', '\u{1D7}');
    push_range(v, '\u{1D9}', '\u{1D9}');
    assert(rview(v@) =~= o + changes_when_casefolded_chunk_11());
}

fn push_changes_when_casefolded_chunk_12(v: &mut Vec<ClassUnicodeRange>)
    ensures
        rview(final(v)@) == rview(old(v)@) + changes_when_casefolded_chunk_12(),
{
    let ghost o = rview(v@);
    push_range(v, '\u{1DB}', '\u{1DB}');
    push_range(v, '\u{1DE}', '\u{1DE}');
    push_range(v, '\u{1E0}', '\u{1E0}');
    push_range(v, '\u{1E2}', '\u{1E2}');
    push_range(v, '\u{1E4}', '\u{1E4}');
    push_range(v, '\u{1E6}', '\u{1E6}');
    push_range(v, '\u{1E8}', '\u{1E8}');
    push_range(v, '\u{1EA}', '\u{1EA}');
    assert(rview(v@) =~= o + changes_when_casefolded_chunk_12());
}

fn push_changes_when_casefolded_chunk_13(v: &mut Vec<ClassUnicodeRange>)
    ensures
        rview(final(v)@) == rview(old(v)@) + changes_when_casefolded_chunk_13(),
{
    let ghost o = rview(v@);
    push_range(v, '\u{1EC}', '\u{1EC}');
    push_range(v, '\u{1EE}', '\u{1EE}');
    push_range(v, '\u{1F1}', '\u{1F2}');
    push_range(v, '\u{1F4}', '\u{1F4}');
    push_range(v, '\u{1F6}', '\u{1F8}');
    push_range(v, '\u{1FA}', '\u{1FA}');
    push_range(v, '\u{1FC}', '\u{1FC}');
    push_range(v, '\u{1FE}', '\u{1FE}');
    assert(rview(v@) =~= o + changes_when_casefolded_chunk_13());
}

fn push_changes_when_casefolded_chunk_14(v: &mut Vec<ClassUnicodeRange>)
    ensures
        rview(final(v)@) == rview(old(v)@) + changes_when_casefolded_chunk_14(),
{
    let ghost o = rview(v@);
    push_range(v, '\u{200}', '\u{200}');
    push_range(v, '\u{202}', '\u{202}');
    push_range(v, '\u{204}', '\u{204}');
    push_range(v, '\u{206}', '\u{206}');
    push_range(v, '\u{208}', '\u{208}');
    push_range(v, '\u{20A}', '\u{20A}');
    push_range(v, '\u{20C}', '\u{20C}');
    push_range(v, '\u{20E}', '\u{20E}');
    assert(rview(v@) =~= o + changes_when_casefolded_chunk_14());
}

fn push_changes_when_casefolded_chunk_15(v: &mut Vec<ClassUnicodeRange>)
    ensures
        rview(final(v)@) == rview(old(v)@) + changes_when_casefolded_chunk_15(),
{
    let ghost o = rview(v@);
    push_range(v, '\u{210}', '\u{210}');
    push_range(v, '\u{212}', '\u{212}');
    push_range(v, '\u{214}', '\u{214}');
    push_range(v, '\u{216}', '\u{216}');
    push_range(v, '\u{218}', '\u{218}');
    push_range(v, '\u{21A}', '\u{21A}');
    push_range(v, '\u{21C}', '\u{21C}');
    push_range(v, '\u{21E}', '\u{21E}');
    assert(rview(v@) =~= o + changes_when_casefolded_chunk_15());
}

fn push_changes_when_casefolded_chunk_16(v: &mut Vec<ClassUnicodeRange>)
    ensures
        rview(final(v)@) == rview(old(v)@) + changes_when_casefolded_chunk_16(),
{
    let ghost o = rview(v@);
    push_range(v, '\u{220}', '\u{220}');
    push_range(v, '\u{222}', '\u{222}');
    push_range(v, '\u{224}', '\u{224}');
    push_range(v, '\u{226}', '\u{226}');
    push_range(v, '\u{228}', '\u{228}');
    push_range(v, '\u{22A}', '\u{22A}');
    push_range(v, '\u{22C}', '\u{22C}');
    push_range(v, '\u{22E}', '\u{22E}');
    assert(rview(v@) =~= o + changes_when_casefolded_chunk_16());
}

fn push_changes_when_casefolded_chunk_17(v: &mut Vec<ClassUnicodeRange>)
    ensures
        rview(final(v)@) == rview(old(v)@) + changes_when_casefolded_chunk_17(),
{
    let ghost o = rview(v@);
    push_range(v, '\u{230}', '\u{230}');
    push_range(v, '\u{232}', '\u{232}');
    push_range(v, '\u{23A}', '\u{23B}');
    push_range(v, '\u{23D}', '\u{23E}');
    push_range(v, '\u{241}', '\u{241}');
    push_range(v, '\u{243}', '\u{246}');
    push_range(v, '\u{248}', '\u{248}');
    push_range(v, '\u{24A}', '\u{24A}');
    assert(rview(v@) =~= o + changes_when_casefolded_chunk_17());
}

fn push_changes_when_casefolded_chunk_18(v: &mut Vec<ClassUnicodeRange>)
    ensures
        rview(final(v)@) == rview(old(v)@) + changes_when_casefolded_chunk_18(),
{
    let ghost o = rview(v@);
    push_range(v, '\u{24C}', '\u{24C}');
    push_range(v, '\u{24E}', '\u{24E}');
    push_range(v, '\u{345}', '\u{345}');
    push_range(v, '\u{370}', '\u{370}');
    push_range(v, '\u{372}', '\u{372}');
    push_range(v, '\u{376}', '\u{376}');
    push_range(v, '\u{37F}', '\u{37F}');
    push_range(v, '\u{386}', '\u{386}');
    assert(rview(v@) =~= o + changes_when_casefolded_chunk_18());
}

fn push_changes_when_casefolded_chunk_19(v: &mut Vec<ClassUnicodeRange>)
    ensures
        rview(final(v)@) == rview(old(v)@) + changes_when_casefolded_chunk_19(),
{
    let ghost o = rview(v@);
    push_range(v, '\u{388}', '\u{38A}');
    push_range(v, '\u{38C}', '\u{38C}');
    push_range(v, '\u{38E}', '\u{38F}');
    push_range(v, '\u{391}', '\u{3A1}');
    push_range(v, '\u{3A3}', '\u{3AB}');
    push_range(v, '\u{3C2}', '\u{3C2}');
    push_range(v, '\u{3CF}', '\u{3D1}');
    push_range(v, '\u{3D5}', '\u{3D6}');
    assert(rview(v@) =~= o + changes_when_casefolded_chunk_19());
}

fn push_changes_when_casefolded_chunk_20(v: &mut Vec<ClassUnicodeRange>)
    ensures
        rview(final(v)@) == rview(old(v)@) + changes_when_casefolded_chunk_20(),
{
    let ghost o = rview(v@);
    push_range(v, '\u{3D8}', '\u{3D8}');
    push_range(v, '\u{3DA}', '\u{3DA}');
    push_range(v, '\u{3DC}', '\u{3DC}');
    push_range(v, '\u{3DE}', '\u{3DE}');
    push_range(v, '\u{3E0}', '\u{3E0}');
    push_range(v, '\u{3E2}', '\u{3E2}');
    push_range(v, '\u{3E4}', '\u{3E4}');
    push_range(v, '\u{3E6}', '\u{3E6}');
    assert(rview(v@) =~= o + changes_when_casefolded_chunk_20());
}

fn push_changes_when_casefolded_chunk_21(v: &mut Vec<ClassUnicodeRange>)
    ensures
        rview(final(v)@) == rview(old(v)@) + changes_when_casefolded_chunk_21(),
{
    let ghost o = rview(v@);
    push_range(v, '\u{3E8}', '\u{3E8}');
    push_range(v, '\u{3EA}', '\u{3EA}');
    push_range(v, '\u{3EC}', '\u{3EC}');
    push_range(v, '\u{3EE}', '\u{3EE}');
    push_range(v, '\u{3F0}', '\u{3F1}');
    push_range(v, '\u{3F4}', '\u{3F5}');
    push_range(v, '\u{3F7}', '\u{3F7}');
    push_range(v, '\u{3F9}', '\u{3FA}');
    assert(rview(v@) =~= o + changes_when_casefolded_chunk_21());
}

fn push_changes_when_casefolded_chunk_22(v: &mut Vec<ClassUnicodeRange>)
    ensures
        rview(final(v)@) == rview(old(v)@) + changes_when_casefolded_chunk_22(),
{
    let ghost o = rview(v@);
    push_range(v, '\u{3FD}', '\u{42F}');
    push_range(v, '\u{460}', '\u{460}');
    push_range(v, '\u{462}', '\u{462}');
    push_range(v, '\u{464}', '\u{464}');
    push_range(v, '\u{466}', '\u{466}');
    push_range(v, '\u{468}', '\u{468}');
    push_range(v, '\u{46A}', '\u{46A}');
    push_range(v, '\u{46C}', '\u{46C}');
    assert(rview(v@) =~= o + changes_when_casefolded_chunk_22());
}

fn push_changes_when_casefolded_chunk_23(v: &mut Vec<ClassUnicodeRange>)
    ensures
        rview(final(v)@) == rview(old(v)@) + changes_when_casefolded_chunk_23(),
{
    let ghost o = rview(v@);
    push_range(v, '\u{46E}', '\u{46E}');
    push_range(v, '\u{470}', '\u{470}');
    push_range(v, '\u{472}', '\u{472}');
    push_range(v, '\u{474}', '\u{474}');
    push_range(v, '\u{476}', '\u{476}');
    push_range(v, '\u{478}', '\u{478}');
    push_range(v, '\u{47A}', '\u{47A}');
    push_range(v, '\u{47C}', '\u{47C}');
    assert(rview(v@) =~= o + changes_when_casefolded_chunk_23());
}

fn push_changes_when_casefolded_chunk_24(v: &mut Vec<ClassUnicodeRange>)
    ensures
        rview(final(v)@) == rview(old(v)@) + changes_when_casefolded_chunk_24(),
{
    let ghost o = rview(v@);
    push_range(v, '\u{47E}', '\u{47E}');
    push_range(v, '\u{480}', '\u{480}');
    push_range(v, '\u{48A}', '\u{48A}');
    push_range(v, '\u{48C}', '\u{48C}');
    push_range(v, '\u{48E}', '\u{48E}');
    push_range(v, '\u{490}', '\u{490}');
    push_range(v, '\u{492}', '\u{492}');
    push_range(v, '\u{494}', '\u{494}');
    assert(rview(v@) =~= o + changes_when_casefolded_chunk_24());
}

fn push_changes_when_casefolded_chunk_25(v: &mut Vec<ClassUnicodeRange>)
    ensures
        rview(final(v)@) == rview(old(v)@) + changes_when_casefolded_chunk_25(),
{
    let ghost o = rview(v@);
    push_range(v, '\u{496}', '\u{496}');
    push_range(v, '\u{498}', '\u{498}');
    push_range(v, '\u{49A}', '\u{49A}');
    push_range(v, '\u{49C}', '\u{49C}');
    push_range(v, '\u{49E}', '\u{49E}');
    push_range(v, '\u{4A0}', '\u{4A0}');
    push_range(v, '\u{4A2}', '\u{4A2}');
    push_range(v, '\u{4A4}', '\u{4A4}');
    assert(rview(v@) =~= o + changes_when_casefolded_chunk_25());
}

fn push_changes_when_casefolded_chunk_26(v: &mut Vec<ClassUnicodeRange>)
    ensures
        rview(final(v)@) == rview(old(v)@) + changes_when_casefolded_chunk_26(),
{
    let ghost o = rview(v@);
    push_range(v, '\u{4A6}', '\u{4A6}');
    push_range(v, '\u{4A8}', '\u{4A8}');
    push_range(v, '\u{4AA}', '\u{4AA}');
    push_range(v, '\u{4AC}', '\u{4AC}');
    push_range(v, '\u{4AE}', '\u{4AE}');
    push_range(v, '\u{4B0}', '\u{4B0}');
    push_range(v, '\u{4B2}', '\u{4B2}');
    push_range(v, '\u{4B4}', '\u{4B4}');
    assert(rview(v@) =~= o + changes_when_casefolded_chunk_26());
}

fn push_changes_when_casefolded_chunk_27(v: &mut Vec<ClassUnicodeRange>)
    ensures
        rview(final(v)@) == rview(old(v)@) + changes_when_casefolded_chunk_27(),
{
    let ghost o = rview(v@);
    push_range(v, '\u{4B6}', '\u{4B6}');
    push_range(v, '\u{4B8}', '\u{4B8}');
    push_range(v, '\u{4BA}', '\u{4BA}');
    push_range(v, '\u{4BC}', '\u{4BC}');
    push_range(v, '\u{4BE}', '\u{4BE}');
    push_range(v, '\u{4C0}', '\u{4C1}');
    push_range(v, '\u{4C3}', '\u{4C3}');
    push_range(v, '\u{4C5}', '\u{4C5}');
    assert(rview(v@) =~= o + changes_when_casefolded_chunk_27());
}

fn push_changes_when_casefolded_chunk_28(v: &mut Vec<ClassUnicodeRange>)
    ensures
        rview(final(v)@) == rview(old(v)@) + changes_when_casefolded_chunk_28(),
{
    let ghost o = rview(v@);
    push_range(v, '\u{4C7}', '\u{4C7}');
    push_range(v, '\u{4C9}', '\u{4C9}');
    push_range(v, '\u{4CB}', '\u{4CB}');
    push_range(v, '\u{4CD}', '\u{4CD}');
    push_range(v, '\u{4D0}', '\u{4D0}');
    push_range(v, '\u{4D2}', '\u{4D2}');
    push_range(v, '\u{4D4}', '\u{4D4}');
    push_range(v, '\u{4D6}', '\u{4D6}');
    assert(rview(v@) =~= o + changes_when_casefolded_chunk_28());
}

fn push_changes_when_casefolded_chunk_29(v: &mut Vec<ClassUnicodeRange>)
    ensures
        rview(final(v)@) == rview(old(v)@) + changes_when_casefolded_chunk_29(),
{
    let ghost o = rview(v@);
    push_range(v, '\u{4D8}', '\u{4D8}');
    push_range(v, '\u{4DA}', '\u{4DA}');
    push_range(v, '\u{4DC}', '\u{4DC}');
    push_range(v, '\u{4DE}', '\u{4DE}');
    push_range(v, '\u{4E0}', '\u{4E0}');
    push_range(v, '\u{4E2}', '\u{4E2}');
    push_range(v, '\u{4E4}', '\u{4E4}');
    push_range(v, '\u{4E6}', '\u{4E6}');
    assert(rview(v@) =~= o + changes_when_casefolded_chunk_29());
}

fn push_changes_when_casefolded_chunk_30(v: &mut Vec<ClassUnicodeRange>)
    ensures
        rview(final(v)@) == rview(old(v)@) + changes_when_casefolded_chunk_30(),
{
    let ghost o = rview(v@);
    push_range(v, '\u{4E8}', '\u{4E8}');
    push_range(v, '\u{4EA}', '\u{4EA}');
    push_range(v, '\u{4EC}', '\u{4EC}');
    push_range(v, '\u{4EE}', '\u{4EE}');
    push_range(v, '\u{4F0}', '\u{4F0}');
    push_range(v, '\u{4F2}', '\u{4F2}');
    push_range(v, '\u{4F4}', '\u{4F4}');
    push_range(v, '\u{4F6}', '\u{4F6}');
    assert(rview(v@) =~= o + changes_when_casefolded_chunk_30());
}

fn push_changes_when_casefolded_chunk_31(v: &mut Vec<ClassUnicodeRange>)
    ensures
        rview(final(v)@) == rview(old(v)@) + changes_when_casefolded_chunk_31(),
{
    let ghost o = rview(v@);
    push_range(v, '\u{4F8}', '\u{4F8}');
    push_range(v, '\u{4FA}', '\u{4FA}');
    push_range(v, '\u{4FC}', '\u{4FC}');
    push_range(v, '\u{4FE}', '\u{4FE}');
    push_range(v, '\u{500}', '\u{500}');
    push_range(v, '\u{502}', '\u{502}');
    push_range(v, '\u{504}', '\u{504}');
    push_range(v, '\u{506}', '\u{506}');
    assert(rview(v@) =~= o + changes_when_casefolded_chunk_31());
}

fn push_changes_when_casefolded_chunk_32(v: &mut Vec<ClassUnicodeRange>)
    ensures
        rview(final(v)@) == rview(old(v)@) + changes_when_casefolded_chunk_32(),
{
    let ghost o = rview(v@);
    push_range(v, '\u{508}', '\u{508}');
    push_range(v, '\u{50A}', '\u{50A}');
    push_range(v, '\u{50C}', '\u{50C}');
    push_range(v, '\u{50E}', '\u{50E}');
    push_range(v, '\u{510}', '\u{510}');
    push_range(v, '\u{512}', '\u{512}');
    push_range(v, '\u{514}', '\u{514}');
    push_range(v, '\u{516}', '\u{516}');
    assert(rview(v@) =~= o + changes_when_casefolded_chunk_32());
}

fn push_changes_when_casefolded_chunk_33(v: &mut Vec<ClassUnicodeRange>)
    ensures
        rview(final(v)@) == rview(old(v)@) + changes_when_casefolded_chunk_33(),
{
    let ghost o = rview(v@);
    push_range(v, '\u{518}', '\u{518}');
    push_range(v, '\u{51A}', '\u{51A}');
    push_range(v, '\u{51C}', '\u{51C}');
    push_range(v, '\u{51E}', '\u{51E}');
    push_range(v, '\u{520}', '\u{520}');
    push_range(v, '\u{522}', '\u{522}');
    push_range(v, '\u{524}', '\u{524}');
    push_range(v, '\u{526}', '\u{526}');
    assert(rview(v@) =~= o + changes_when_casefolded_chunk_33());
}

fn push_changes_when_casefolded_chunk_34(v: &mut Vec<ClassUnicodeRange>)
    ensures
        rview(final(v)@) == rview(old(v)@) + changes_when_casefolded_chunk_34(),
{
    let ghost o = rview(v@);
    push_range(v, '\u{528}', '\u{528}');
    push_range(v, '\u{52A}', '\u{52A}');
    push_range(v, '\u{52C}', '\u{52C}');
    push_range(v, '\u{52E}', '\u{52E}');
    push_range(v, '\u{531}', '\u{556}');
    push_range(v, '\u{587}', '\u{587}');
    push_range(v, '\u{10A0}', '\u{10C5}');
    push_range(v, '\u{10C7}', '\u{10C7}');
    assert(rview(v@) =~= o + changes_when_casefolded_chunk_34());
}

fn push_changes_when_casefolded_chunk_35(v: &mut Vec<ClassUnicodeRange>)
    ensures
        rview(final(v)@) == rview(old(v)@) + changes_when_casefolded_chunk_35(),
{
    let ghost o = rview(v@);
    push_range(v, '\u{10CD}', '\u{10CD}');
    push_range(v, '\u{13F8}', '\u{13FD}');
    push_range(v, '\u{1C80}', '\u{1C89}');
    push_range(v, '\u{1C90}', '\u{1CBA}');
    push_range(v, '\u{1CBD}', '\u{1CBF}');
    push_range(v, '\u{1E00}', '\u{1E00}');
    push_range(v, '\u{1E02}', '\u{1E02}');
    push_range(v, '\u{1E04}', '\u{1E04}');
    assert(rview(v@) =~= o + changes_when_casefolded_chunk_35());
}

fn push_changes_when_casefolded_chunk_36(v: &mut Vec<ClassUnicodeRange>)
    ensures
        rview(final(v)@) == rview(old(v)@) + changes_when_casefolded_chunk_36(),
{
    let ghost o = rview(v@);
    push_range(v, '\u{1E06}', '\u{1E06}');
    push_range(v, '\u{1E08}', '\u{1E08}');
    push_range(v, '\u{1E0A}', '\u{1E0A}');
    push_range(v, '\u{1E0C}', '\u{1E0C}');
    push_range(v, '\u{1E0E}', '\u{1E0E}');
    push_range(v, '\u{1E10}', '\u{1E10}');
    push_range(v, '\u{1E12}', '\u{1E12}');
    push_range(v, '\u{1E14}', '\u{1E14}');
    assert(rview(v@) =~= o + changes_when_casefolded_chunk_36());
}

fn push_changes_when_casefolded_chunk_37(v: &mut Vec<ClassUnicodeRange>)
    ensures
        rview(final(v)@) == rview(old(v)@) + changes_when_casefolded_chunk_37(),
{
    let ghost o = rview(v@);
    push_range(v, '\u{1E16}', '\u{1E16}');
    push_range(v, '\u{1E18}', '\u{1E18}');
    push_range(v, '\u{1E1A}', '\u{1E1A}');
    push_range(v, '\u{1E1C}', '\u{1E1C}');
    push_range(v, '\u{1E1E}', '\u{1E1E}');
    push_range(v, '\u{1E20}', '\u{1E20}');
    push_range(v, '\u{1E22}', '\u{1E22}');
    push_range(v, '\u{1E24}', '\u{1E24}');
    assert(rview(v@) =~= o + changes_when_casefolded_chunk_37());
}

fn push_changes_when_casefolded_chunk_38(v: &mut Vec<ClassUnicodeRange>)
    ensures
        rview(final(v)@) == rview(old(v)@) + changes_when_casefolded_chunk_38(),
{
    let ghost o = rview(v@);
    push_range(v, '\u{1E26}', '\u{1E26}');
    push_range(v, '\u{1E28}', '\u{1E28}');
    push_range(v, '\u{1E2A}', '\u{1E2A}');
    push_range(v, '\u{1E2C}', '\u{1E2C}');
    push_range(v, '\u{1E2E}', '\u{1E2E}');
    push_range(v, '\u{1E30}', '\u{1E30}');
    push_range(v, '\u{1E32}', '\u{1E32}');
    push_range(v, '\u{1E34}', '\u{1E34}');
    assert(rview(v@) =~= o + changes_when_casefolded_chunk_38());
}

fn push_changes_when_casefolded_chunk_39(v: &mut Vec<ClassUnicodeRange>)
    ensures
        rview(final(v)@) == rview(old(v)@) + changes_when_casefolded_chunk_39(),
{
    let ghost o = rview(v@);
    push_range(v, '\u{1E36}', '\u{1E36}');
    push_range(v, '\u{1E38}', '\u{1E38}');
    push_range(v, '\u{1E3A}', '\u{1E3A}');
    push_range(v, '\u{1E3C}', '\u{1E3C}');
    push_range(v, '\u{1E3E}', '\u{1E3E}');
    push_range(v, '\u{1E40}', '\u{1E40}');
    push_range(v, '\u{1E42}', '\u{1E42}');
    push_range(v, '\u{1E44}', '\u{1E44}');
    assert(rview(v@) =~= o + changes_when_casefolded_chunk_39());
}

fn push_changes_when_casefolded_chunk_40(v: &mut Vec<ClassUnicodeRange>)
    ensures
        rview(final(v)@) == rview(old(v)@) + changes_when_casefolded_chunk_40(),
{
    let ghost o = rview(v@);
    push_range(v, '\u{1E46}', '\u{1E46}');
    push_range(v, '\u{1E48}', '\u{1E48}');
    push_range(v, '\u{1E4A}', '\u{1E4A}');
    push_range(v, '\u{1E4C}', '\u{1E4C}');
    push_range(v, '\u{1E4E}', '\u{1E4E}');
    push_range(v, '\u{1E50}', '\u{1E50}');
    push_range(v, '\u{1E52}', '\u{1E52}');
    push_range(v, '\u{1E54}', '\u{1E54}');
    assert(rview(v@) =~= o + changes_when_casefolded_chunk_40());
}

fn push_changes_when_casefolded_chunk_41(v: &mut Vec<ClassUnicodeRange>)
    ensures
        rview(final(v)@) == rview(old(v)@) + changes_when_casefolded_chunk_41(),
{
    let ghost o = rview(v@);
    push_range(v, '\u{1E56}', '\u{1E56}');
    push_range(v, '\u{1E58}', '\u{1E58}');
    push_range(v, '\u{1E5A}', '\u{1E5A}');
    push_range(v, '\u{1E5C}', '\u{1E5C}');
    push_range(v, '\u{1E5E}', '\u{1E5E}');
    push_range(v, '\u{1E60}', '\u{1E60}');
    push_range(v, '\u{1E62}', '\u{1E62}');
    push_range(v, '\u{1E64}', '\u{1E64}');
    assert(rview(v@) =~= o + changes_when_casefolded_chunk_41());
}

fn push_changes_when_casefolded_chunk_42(v: &mut Vec<ClassUnicodeRange>)
    ensures
        rview(final(v)@) == rview(old(v)@) + changes_when_casefolded_chunk_42(),
{
    let ghost o = rview(v@);
    push_range(v, '\u{1E66}', '\u{1E66}');
    push_range(v, '\u{1E68}', '\u{1E68}');
    push_range(v, '\u{1E6A}', '\u{1E6A}');
    push_range(v, '\u{1E6C}', '\u{1E6C}');
    push_range(v, '\u{1E6E}', '\u{1E6E}');
    push_range(v, '\u{1E70}', '\u{1E70}');
    push_range(v, '\u{1E72}', '\u{1E72}');
    push_range(v, '\u{1E74}', '\u{1E74}');
    assert(rview(v@) =~= o + changes_when_casefolded_chunk_42());
}

fn push_changes_when_casefolded_chunk_43(v: &mut Vec<ClassUnicodeRange>)
    ensures
        rview(final(v)@) == rview(old(v)@) + changes_when_casefolded_chunk_43(),
{
    let ghost o = rview(v@);
    push_range(v, '\u{1E76}', '\u{1E76}');
    push_range(v, '\u{1E78}', '\u{1E78}');
    push_range(v, '\u{1E7A}', '\u{1E7A}');
    push_range(v, '\u{1E7C}', '\u{1E7C}');
    push_range(v, '\u{1E7E}', '\u{1E7E}');
    push_range(v, '\u{1E80}', '\u{1E80}');
    push_range(v, '\u{1E82}', '\u{1E82}');
    push_range(v, '\u{1E84}', '\u{1E84}');
    assert(rview(v@) =~= o + changes_when_casefolded_chunk_43());
}

fn push_changes_when_casefolded_chunk_44(v: &mut Vec<ClassUnicodeRange>)
    ensures
        rview(final(v)@) == rview(old(v)@) + changes_when_casefolded_chunk_44(),
{
    let ghost o = rview(v@);
    push_range(v, '\u{1E86}', '\u{1E86}');
    push_range(v, '\u{1E88}', '\u{1E88}');
    push_range(v, '\u{1E8A}', '\u{1E8A}');
    push_range(v, '\u{1E8C}', '\u{1E8C}');
    push_range(v, '\u{1E8E}', '\u{1E8E}');
    push_range(v, '\u{1E90}', '\u{1E90}');
    push_range(v, '\u{1E92}', '\u{1E92}');
    push_range(v, '\u{1E94}', '\u{1E94}');
    assert(rview(v@) =~= o + changes_when_casefolded_chunk_44());
}

fn push_changes_when_casefolded_chunk_45(v: &mut Vec<ClassUnicodeRange>)
    ensures
        rview(final(v)@) == rview(old(v)@) + changes_when_casefolded_chunk_45(),
{
    let ghost o = rview(v@);
    push_range(v, '\u{1E9A}', '\u{1E9B}');
    push_range(v, '\u{1E9E}', '\u{1E9E}');
    push_range(v, '\u{1EA0}', '\u{1EA0}');
    push_range(v, '\u{1EA2}', '\u{1EA2}');
    push_range(v, '\u{1EA4}', '\u{1EA4}');
    push_range(v, '\u{1EA6}', '\u{1EA6}');
    push_range(v, '\u{1EA8}', '\u{1EA8}');
    push_range(v, '\u{1EAA}', '\u{1EAA}');
    assert(rview(v@) =~= o + changes_when_casefolded_chunk_45());
}

fn push_changes_when_casefolded_chunk_46(v: &mut Vec<ClassUnicodeRange>)
    ensures
        rview(final(v)@) == rview(old(v)@) + changes_when_casefolded_chunk_46(),
{
    let ghost o = rview(v@);
    push_range(v, '\u{1EAC}', '\u{1EAC}');
    push_range(v, '\u{1EAE}', '\u{1EAE}');
    push_range(v, '\u{1EB0}', '\u{1EB0}');
    push_range(v, '\u{1EB2}', '\u{1EB2}');
    push_range(v, '\u{1EB4}', '\u{1EB4}');
    push_range(v, '\u{1EB6}', '\u{1EB6}');
    push_range(v, '\u{1EB8}', '\u{1EB8}');
    push_range(v, '\u{1EBA}', '\u{1EBA}');
    assert(rview(v@) =~= o + changes_when_casefolded_chunk_46());
}

fn push_changes_when_casefolded_chunk_47(v: &mut Vec<ClassUnicodeRange>)
    ensures
        rview(final(v)@) == rview(old(v)@) + changes_when_casefolded_chunk_47(),
{
    let ghost o = rview(v@);
    push_range(v, '\u{1EBC}', '\u{1EBC}');
    push_range(v, '\u{1EBE}', '\u{1EBE}');
    push_range(v, '\u{1EC0}', '\u{1EC0}');
    push_range(v, '\u{1EC2}', '\u{1EC2}');
    push_range(v, '\u{1EC4}', '\u{1EC4}');
    push_range(v, '\u{1EC6}', '\u{1EC6}');
    push_range(v, '\u{1EC8}', '\u{1EC8}');
    push_range(v, '\u{1ECA}', '\u{1ECA}');
    assert(rview(v@) =~= o + changes_when_casefolded_chunk_47());
}

fn push_changes_when_casefolded_chunk_48(v: &mut Vec<ClassUnicodeRange>)
    ensures
        rview(final(v)@) == rview(old(v)@) + changes_when_casefolded_chunk_48(),
{
    let ghost o = rview(v@);
    push_range(v, '\u{1ECC}', '\u{1ECC}');
    push_range(v, '\u{1ECE}', '\u{1ECE}');
    push_range(v, '\u{1ED0}', '\u{1ED0}');
    push_range(v, '\u{1ED2}', '\u{1ED2}');
    push_range(v, '\u{1ED4}', '\u{1ED4}');
    push_range(v, '\u{1ED6}', '\u{1ED6}');
    push_range(v, '\u{1ED8}', '\u{1ED8}');
    push_range(v, '\u{1EDA}', '\u{1EDA}');
    assert(rview(v@) =~= o + changes_when_casefolded_chunk_48());
}

fn push_changes_when_casefolded_chunk_49(v: &mut Vec<ClassUnicodeRange>)
    ensures
        rview(final(v)@) == rview(old(v)@) + changes_when_casefolded_chunk_49(),
{
    let ghost o = rview(v@);
    push_range(v, '\u{1EDC}', '\u{1EDC}');
    push_range(v, '\u{1EDE}', '\u{1EDE}');
    push_range(v, '\u{1EE0}', '\u{1EE0}');
    push_range(v, '\u{1EE2}', '\u{1EE2}');
    push_range(v, '\u{1EE4}', '\u{1EE4}');
    push_range(v, '\u{1EE6}', '\u{1EE6}');
    push_range(v, '\u{1EE8}', '\u{1EE8}');
    push_range(v, '\u{1EEA}', '\u{1EEA}');
    assert(rview(v@) =~= o + changes_when_casefolded_chunk_49());
}

fn push_changes_when_casefolded_chunk_50(v: &mut Vec<ClassUnicodeRange>)
    ensures
        rview(final(v)@) == rview(old(v)@) + changes_when_casefolded_chunk_50(),
{
    let ghost o = rview(v@);
    push_range(v, '\u{1EEC}', '\u{1EEC}');
    push_range(v, '\u{1EEE}', '\u{1EEE}');
    push_range(v, '\u{1EF0}', '\u{1EF0}');
    push_range(v, '\u{1EF2}', '\u{1EF2}');
    push_range(v, '\u{1EF4}', '\u{1EF4}');
    push_range(v, '\u{1EF6}', '\u{1EF6}');
    push_range(v, '\u{1EF8}', '\u{1EF8}');
    push_range(v, '\u{1EFA}', '\u{1EFA}');
    assert(rview(v@) =~= o + changes_when_casefolded_chunk_50());
}

fn push_changes_when_casefolded_chunk_51(v: &mut Vec<ClassUnicodeRange>)
    ensures
        rview(final(v)@) == rview(old(v)@) + changes_when_casefolded_chunk_51(),
{
    let ghost o = rview(v@);
    push_range(v, '\u{1EFC}', '\u{1EFC}');
    push_range(v, '\u{1EFE}', '\u{1EFE}');
    push_range(v, '\u{1F08}', '\u{1F0F}');
    push_range(v, '\u{1F18}', '\u{1F1D}');
    push_range(v, '\u{1F28}', '\u{1F2F}');
    push_range(v, '\u{1F38}', '\u{1F3F}');
    push_range(v, '\u{1F48}', '\u{1F4D}');
    push_range(v, '\u{1F59}', '\u{1F59}');
    assert(rview(v@) =~= o + changes_when_casefolded_chunk_51());
}

fn push_changes_when_casefolded_chunk_52(v: &mut Vec<ClassUnicodeRange>)
    ensures
        rview(final(v)@) == rview(old(v)@) + changes_when_casefolded_chunk_52(),
{
    let ghost o = rview(v@);
    push_range(v, '\u{1F5B}', '\u{1F5B}');
    push_range(v, '\u{1F5D}', '\u{1F5D}');
    push_range(v, '\u{1F5F}', '\u{1F5F}');
    push_range(v, '\u{1F68}', '\u{1F6F}');
    push_range(v, '\u{1F80}', '\u{1FAF}');
    push_range(v, '\u{1FB2}', '\u{1FB4}');
    push_range(v, '\u{1FB7}', '\u{1FBC}');
    push_range(v, '\u{1FC2}', '\u{1FC4}');
    assert(rview(v@) =~= o + changes_when_casefolded_chunk_52());
}

fn push_changes_when_casefolded_chunk_53(v: &mut Vec<ClassUnicodeRange>)
    ensures
        rview(final(v)@) == rview(old(v)@) + changes_when_casefolded_chunk_53(),
{
    let ghost o = rview(v@);
    push_range(v, '\u{1FC7}', '\u{1FCC}');
    push_range(v, '\u{1FD8}', '\u{1FDB}');
    push_range(v, '\u{1FE8}', '\u{1FEC}');
    push_range(v, '\u{1FF2}', '\u{1FF4}');
    push_range(v, '\u{1FF7}', '\u{1FFC}');
    push_range(v, '\u{2126}', '\u{2126}');
    push_range(v, '\u{212A}', '\u{212B}');
    push_range(v, '\u{2132}', '\u{2132}');
    assert(rview(v@) =~= o + changes_when_casefolded_chunk_53());
}

fn push_changes_when_casefolded_chunk_54(v: &mut Vec<ClassUnicodeRange>)
    ensures
        rview(final(v)@) == rview(old(v)@) + changes_when_casefolded_chunk_54(),
{
    let ghost o = rview(v@);
    push_range(v, '\u{2160}', '\u{216F}');
    push_range(v, '\u{2183}', '\u{2183}');
    push_range(v, '\u{24B6}', '\u{24CF}');
    push_range(v, '\u{2C00}', '\u{2C2F}');
    push_range(v, '\u{2C60}', '\u{2C60}');
    push_range(v, '\u{2C62}', '\u{2C64}');
    push_range(v, '\u{2C67}', '\u{2C67}');
    push_range(v, '\u{2C69}', '\u{2C69}');
    assert(rview(v@) =~= o + changes_when_casefolded_chunk_54());
}

fn push_changes_when_casefolded_chunk_55(v: &mut Vec<ClassUnicodeRange>)
    ensures
        rview(final(v)@) == rview(old(v)@) + changes_when_casefolded_chunk_55(),
{
    let ghost o = rview(v@);
    push_range(v, '\u{2C6B}', '\u{2C6B}');
    push_range(v, '\u{2C6D}', '\u{2C70}');
    push_range(v, '\u{2C72}', '\u{2C72}');
    push_range(v, '\u{2C75}', '\u{2C75}');
    push_range(v, '\u{2C7E}', '\u{2C80}');
    push_range(v, '\u{2C82}', '\u{2C82}');
    push_range(v, '\u{2C84}', '\u{2C84}');
    push_range(v, '\u{2C86}', '\u{2C86}');
    assert(rview(v@) =~= o + changes_when_casefolded_chunk_55());
}

fn push_changes_when_casefolded_chunk_56(v: &mut Vec<ClassUnicodeRange>)
    ensures
        rview(final(v)@) == rview(old(v)@) + changes_when_casefolded_chunk_56(),
{
    let ghost o = rview(v@);
    push_range(v, '\u{2C88}', '\u{2C88}');
    push_range(v, '\u{2C8A}', '\u{2C8A}');
    push_range(v, '\u{2C8C}', '\u{2C8C}');
    push_range(v, '\u{2C8E}', '\u{2C8E}');
    push_range(v, '\u{2C90}', '\u{2C90}');
    push_range(v, '\u{2C92}', '\u{2C92}');
    push_range(v, '\u{2C94}', '\u{2C94}');
    push_range(v, '\u{2C96}', '\u{2C96}');
    assert(rview(v@) =~= o + changes_when_casefolded_chunk_56());
}

fn push_changes_when_casefolded_chunk_57(v: &mut Vec<ClassUnicodeRange>)
    ensures
        rview(final(v)@) == rview(old(v)@) + changes_when_casefolded_chunk_57(),
{
    let ghost o = rview(v@);
    push_range(v, '\u{2C98}', '\u{2C98}');
    push_range(v, '\u{2C9A}', '\u{2C9A}');
    push_range(v, '\u{2C9C}', '\u{2C9C}');
    push_range(v, '\u{2C9E}', '\u{2C9E}');
    push_range(v, '\u{2CA0}', '\u{2CA0}');
    push_range(v, '\u{2CA2}', '\u{2CA2}');
    push_range(v, '\u{2CA4}', '\u{2CA4}');
    push_range(v, '\u{2CA6}', '\u{2CA6}');
    assert(rview(v@) =~= o + changes_when_casefolded_chunk_57());
}

fn push_changes_when_casefolded_chunk_58(v: &mut Vec<ClassUnicodeRange>)
    ensures
        rview(final(v)@) == rview(old(v)@) + changes_when_casefolded_chunk_58(),
{
    let ghost o = rview(v@);
    push_range(v, '\u{2CA8}', '\u{2CA8}');
    push_range(v, '\u{2CAA}', '\u{2CAA}');
    push_range(v, '\u{2CAC}', '\u{2CAC}');
    push_range(v, '\u{2CAE}', '\u{2CAE}');
    push_range(v, '\u{2CB0}', '\u{2CB0}');
    push_range(v, '\u{2CB2}', '\u{2CB2}');
    push_range(v, '\u{2CB4}', '\u{2CB4}');
    push_range(v, '\u{2CB6}', '\u{2CB6}');
    assert(rview(v@) =~= o + changes_when_casefolded_chunk_58());
}

fn push_changes_when_casefolded_chunk_59(v: &mut Vec<ClassUnicodeRange>)
    ensures
        rview(final(v)@) == rview(old(v)@) + changes_when_casefolded_chunk_59(),
{
    let ghost o = rview(v@);
    push_range(v, '\u{2CB8}', '\u{2CB8}');
    push_range(v, '\u{2CBA}', '\u{2CBA}');
    push_range(v, '\u{2CBC}', '\u{2CBC}');
    push_range(v, '\u{2CBE}', '\u{2CBE}');
    push_range(v, '\u{2CC0}', '\u{2CC0}');
    push_range(v, '\u{2CC2}', '\u{2CC2}');
    push_range(v, '\u{2CC4}', '\u{2CC4}');
    push_range(v, '\u{2CC6}', '\u{2CC6}');
    assert(rview(v@) =~= o + changes_when_casefolded_chunk_59());
}

fn push_changes_when_casefolded_chunk_60(v: &mut Vec<ClassUnicodeRange>)
    ensures
        rview(final(v)@) == rview(old(v)@) + changes_when_casefolded_chunk_60(),
{
    let ghost o = rview(v@);
    push_range(v, '\u{2CC8}', '\u{2CC8}');
    push_range(v, '\u{2CCA}', '\u{2CCA}');
    push_range(v, '\u{2CCC}', '\u{2CCC}');
    push_range(v, '\u{2CCE}', '\u{2CCE}');
    push_range(v, '\u{2CD0}', '\u{2CD0}');
    push_range(v, '\u{2CD2}', '\u{2CD2}');
    push_range(v, '\u{2CD4}', '\u{2CD4}');
    push_range(v, '\u{2CD6}', '\u{2CD6}');
    assert(rview(v@) =~= o + changes_when_casefolded_chunk_60());
}

fn push_changes_when_casefolded_chunk_61(v: &mut Vec<ClassUnicodeRange>)
    ensures
        rview(final(v)@) == rview(old(v)@) + changes_when_casefolded_chunk_61(),
{
    let ghost o = rview(v@);
    push_range(v, '\u{2CD8}', '\u{2CD8}');
    push_range(v, '\u{2CDA}', '\u{2CDA}');
    push_range(v, '\u{2CDC}', '\u{2CDC}');
    push_range(v, '\u{2CDE}', '\u{2CDE}');
    push_range(v, '\u{2CE0}', '\u{2CE0}');
    push_range(v, '\u{2CE2}', '\u{2CE2}');
    push_range(v, '\u{2CEB}', '\u{2CEB}');
    push_range(v, '\u{2CED}', '\u{2CED}');
    assert(rview(v@) =~= o + changes_when_casefolded_chunk_61());
}

fn push_changes_when_casefolded_chunk_62(v: &mut Vec<ClassUnicodeRange>)
    ensures
        rview(final(v)@) == rview(old(v)@) + changes_when_casefolded_chunk_62(),
{
    let ghost o = rview(v@);
    push_range(v, '\u{2CF2}', '\u{2CF2}');
    push_range(v, '\u{A640}', '\u{A640}');
    push_range(v, '\u{A642}', '\u{A642}');
    push_range(v, '\u{A644}', '\u{A644}');
    push_range(v, '\u{A646}', '\u{A646}');
    push_range(v, '\u{A648}', '\u{A648}');
    push_range(v, '\u{A64A}', '\u{A64A}');
    push_range(v, '\u{A64C}', '\u{A64C}');
    assert(rview(v@) =~= o + changes_when_casefolded_chunk_62());
}

fn push_changes_when_casefolded_chunk_63(v: &mut Vec<ClassUnicodeRange>)
    ensures
        rview(final(v)@) == rview(old(v)@) + changes_when_casefolded_chunk_63(),
{
    let ghost o = rview(v@);
    push_range(v, '\u{A64E}', '\u{A64E}');
    push_range(v, '\u{A650}', '\u{A650}');
    push_range(v, '\u{A652}', '\u{A652}');
    push_range(v, '\u{A654}', '\u{A654}');
    push_range(v, '\u{A656}', '\u{A656}');
    push_range(v, '\u{A658}', '\u{A658}');
    push_range(v, '\u{A65A}', '\u{A65A}');
    push_range(v, '\u{A65C}', '\u{A65C}');
    assert(rview(v@) =~= o + changes_when_casefolded_chunk_63());
}

fn push_changes_when_casefolded_chunk_64(v: &mut Vec<ClassUnicodeRange>)
    ensures
        rview(final(v)@) == rview(old(v)@) + changes_when_casefolded_chunk_64(),
{
    let ghost o = rview(v@);
    push_range(v, '\u{A65E}', '\u{A65E}');
    push_range(v, '\u{A660}', '\u{A660}');
    push_range(v, '\u{A662}', '\u{A662}');
    push_range(v, '\u{A664}', '\u{A664}');
    push_range(v, '\u{A666}', '\u{A666}');
    push_range(v, '\u{A668}', '\u{A668}');
    push_range(v, '\u{A66A}', '\u{A66A}');
    push_range(v, '\u{A66C}', '\u{A66C}');
    assert(rview(v@) =~= o + changes_when_casefolded_chunk_64());
}

fn push_changes_when_casefolded_chunk_65(v: &mut Vec<ClassUnicodeRange>)
    ensures
        rview(final(v)@) == rview(old(v)@) + changes_when_casefolded_chunk_65(),
{
    let ghost o = rview(v@);
    push_range(v, '\u{A680}', '\u{A680}');
    push_range(v, '\u{A682}', '\u{A682}');
    push_range(v, '\u{A684}', '\u{A684}');
    push_range(v, '\u{A686}', '\u{A686}');
    push_range(v, '\u{A688}', '\u{A688}');
    push_range(v, '\u{A68A}', '\u{A68A}');
    push_range(v, '\u{A68C}', '\u{A68C}');
    push_range(v, '\u{A68E}', '\u{A68E}');
    assert(rview(v@) =~= o + changes_when_casefolded_chunk_65());
}

fn push_changes_when_casefolded_chunk_66(v: &mut Vec<ClassUnicodeRange>)
    ensures
        rview(final(v)@) == rview(old(v)@) + changes_when_casefolded_chunk_66(),
{
    let ghost o = rview(v@);
    push_range(v, '\u{A690}', '\u{A690}');
    push_range(v, '\u{A692}', '\u{A692}');
    push_range(v, '\u{A694}', '\u{A694}');
    push_range(v, '\u{A696}', '\u{A696}');
    push_range(v, '\u{A698}', '\u{A698}');
    push_range(v, '\u{A69A}', '\u{A69A}');
    push_range(v, '\u{A722}', '\u{A722}');
    push_range(v, '\u{A724}', '\u{A724}');
    assert(rview(v@) =~= o + changes_when_casefolded_chunk_66());
}

fn push_changes_when_casefolded_chunk_67(v: &mut Vec<ClassUnicodeRange>)
    ensures
        rview(final(v)@) == rview(old(v)@) + changes_when_casefolded_chunk_67(),
{
    let ghost o = rview(v@);
    push_range(v, '\u{A726}', '\u{A726}');
    push_range(v, '\u{A728}', '\u{A728}');
    push_range(v, '\u{A72A}', '\u{A72A}');
    push_range(v, '\u{A72C}', '\u{A72C}');
    push_range(v, '\u{A72E}', '\u{A72E}');
    push_range(v, '\u{A732}', '\u{A732}');
    push_range(v, '\u{A734}', '\u{A734}');
    push_range(v, '\u{A736}', '\u{A736}');
    assert(rview(v@) =~= o + changes_when_casefolded_chunk_67());
}

fn push_changes_when_casefolded_chunk_68(v: &mut Vec<ClassUnicodeRange>)
    ensures
        rview(final(v)@) == rview(old(v)@) + changes_when_casefolded_chunk_68(),
{
    let ghost o = rview(v@);
    push_range(v, '\u{A738}', '\u{A738}');
    push_range(v, '\u{A73A}', '\u{A73A}');
    push_range(v, '\u{A73C}', '\u{A73C}');
    push_range(v, '\u{A73E}', '\u{A73E}');
    push_range(v, '\u{A740}', '\u{A740}');
    push_range(v, '\u{A742}', '\u{A742}');
    push_range(v, '\u{A744}', '\u{A744}');
    push_range(v, '\u{A746}', '\u{A746}');
    assert(rview(v@) =~= o + changes_when_casefolded_chunk_68());
}

fn push_changes_when_casefolded_chunk_69(v: &mut Vec<ClassUnicodeRange>)
    ensures
        rview(final(v)@) == rview(old(v)@) + changes_when_casefolded_chunk_69(),
{
    let ghost o = rview(v@);
    push_range(v, '\u{A748}', '\u{A748}');
    push_range(v, '\u{A74A}', '\u{A74A}');
    push_range(v, '\u{A74C}', '\u{A74C}');
    push_range(v, '\u{A74E}', '\u{A74E}');
    push_range(v, '\u{A750}', '\u{A750}');
    push_range(v, '\u{A752}', '\u{A752}');
    push_range(v, '\u{A754}', '\u{A754}');
    push_range(v, '\u{A756}', '\u{A756}');
    assert(rview(v@) =~= o + changes_when_casefolded_chunk_69());
}

fn push_changes_when_casefolded_chunk_70(v: &mut Vec<ClassUnicodeRange>)
    ensures
        rview(final(v)@) == rview(old(v)@) + changes_when_casefolded_chunk_70(),
{
    let ghost o = rview(v@);
    push_range(v, '\u{A758}', '\u{A758}');
    push_range(v, '\u{A75A}', '\u{A75A}');
    push_range(v, '\u{A75C}', '\u{A75C}');
    push_range(v, '\u{A75E}', '\u{A75E}');
    push_range(v, '\u{A760}', '\u{A760}');
    push_range(v, '\u{A762}', '\u{A762}');
    push_range(v, '\u{A764}', '\u{A764}');
    push_range(v, '\u{A766}', '\u{A766}');
    assert(rview(v@) =~= o + changes_when_casefolded_chunk_70());
}

fn push_changes_when_casefolded_chunk_71(v: &mut Vec<ClassUnicodeRange>)
    ensures
        rview(final(v)@) == rview(old(v)@) + changes_when_casefolded_chunk_71(),
{
    let ghost o = rview(v@);
    push_range(v, '\u{A768}', '\u{A768}');
    push_range(v, '\u{A76A}', '\u{A76A}');
    push_range(v, '\u{A76C}', '\u{A76C}');
    push_range(v, '\u{A76E}', '\u{A76E}');
    push_range(v, '\u{A779}', '\u{A779}');
    push_range(v, '\u{A77B}', '\u{A77B}');
    push_range(v, '\u{A77D}', '\u{A77E}');
    push_range(v, '\u{A780}', '\u{A780}');
    assert(rview(v@) =~= o + changes_when_casefolded_chunk_71());
}

fn push_changes_when_casefolded_chunk_72(v: &mut Vec<ClassUnicodeRange>)
    ensures
        rview(final(v)@) == rview(old(v)@) + changes_when_casefolded_chunk_72(),
{
    let ghost o = rview(v@);
    push_range(v, '\u{A782}', '\u{A782}');
    push_range(v, '\u{A784}', '\u{A784}');
    push_range(v, '\u{A786}', '\u{A786}');
    push_range(v, '\u{A78B}', '\u{A78B}');
    push_range(v, '\u{A78D}', '\u{A78D}');
    push_range(v, '\u{A790}', '\u{A790}');
    push_range(v, '\u{A792}', '\u{A792}');
    push_range(v, '\u{A796}', '\u{A796}');
    assert(rview(v@) =~= o + changes_when_casefolded_chunk_72());
}

fn push_changes_when_casefolded_chunk_73(v: &mut Vec<ClassUnicodeRange>)
    ensures
        rview(final(v)@) == rview(old(v)@) + changes_when_casefolded_chunk_73(),
{
    let ghost o = rview(v@);
    push_range(v, '\u{A798}', '\u{A798}');
    push_range(v, '\u{A79A}', '\u{A79A}');
    push_range(v, '\u{A79C}', '\u{A79C}');
    push_range(v, '\u{A79E}', '\u{A79E}');
    push_range(v, '\u{A7A0}', '\u{A7A0}');
    push_range(v, '\u{A7A2}', '\u{A7A2}');
    push_range(v, '\u{A7A4}', '\u{A7A4}');
    push_range(v, '\u{A7A6}', '\u{A7A6}');
    assert(rview(v@) =~= o + changes_when_casefolded_chunk_73());
}

fn push_changes_when_casefolded_chunk_74(v: &mut Vec<ClassUnicodeRange>)
    ensures
        rview(final(v)@) == rview(old(v)@) + changes_when_casefolded_chunk_74(),
{
    let ghost o = rview(v@);
    push_range(v, '\u{A7A8}', '\u{A7A8}');
    push_range(v, '\u{A7AA}', '\u{A7AE}');
    push_range(v, '\u{A7B0}', '\u{A7B4}');
    push_range(v, '\u{A7B6}', '\u{A7B6}');
    push_range(v, '\u{A7B8}', '\u{A7B8}');
    push_range(v, '\u{A7BA}', '\u{A7BA}');
    push_range(v, '\u{A7BC}', '\u{A7BC}');
    push_range(v, '\u{A7BE}', '\u{A7BE}');
    assert(rview(v@) =~= o + changes_when_casefolded_chunk_74());
}

fn push_changes_when_casefolded_chunk_75(v: &mut Vec<ClassUnicodeRange>)
    ensures
        rview(final(v)@) == rview(old(v)@) + changes_when_casefolded_chunk_75(),
{
    let ghost o = rview(v@);
    push_range(v, '\u{A7C0}', '\u{A7C0}');
    push_range(v, '\u{A7C2}', '\u{A7C2}');
    push_range(v, '\u{A7C4}', '\u{A7C7}');
    push_range(v, '\u{A7C9}', '\u{A7C9}');
    push_range(v, '\u{A7CB}', '\u{A7CC}');
    push_range(v, '\u{A7D0}', '\u{A7D0}');
    push_range(v, '\u{A7D6}', '\u{A7D6}');
    push_range(v, '\u{A7D8}', '\u{A7D8}');
    assert(rview(v@) =~= o + changes_when_casefolded_chunk_75());
}

fn push_changes_when_casefolded_chunk_76(v: &mut Vec<ClassUnicodeRange>)
    ensures
        rview(final(v)@) == rview(old(v)@) + changes_when_casefolded_chunk_76(),
{
    let ghost o = rview(v@);
    push_range(v, '\u{A7DA}', '\u{A7DA}');
    push_range(v, '\u{A7DC}', '\u{A7DC}');
    push_range(v, '\u{A7F5}', '\u{A7F5}');
    push_range(v, '\u{AB70}', '\u{ABBF}');
    push_range(v, '\u{FB00}', '\u{FB06}');
    push_range(v, '\u{FB13}', '\u{FB17}');
    push_range(v, '\u{FF21}', '\u{FF3A}');
    push_range(v, '\u{10400}', '\u{10427}');
    assert(rview(v@) =~= o + changes_when_casefolded_chunk_76());
}

fn push_changes_when_casefolded_chunk_77(v: &mut Vec<ClassUnicodeRange>)
    ensures
        rview(final(v)@) == rview(old(v)@) + changes_when_casefolded_chunk_77(),
{
    let ghost o = rview(v@);
    push_range(v, '\u{104B0}', '\u{104D3}');
    push_range(v, '\u{10570}', '\u{1057A}');
    push_range(v, '\u{1057C}', '\u{1058A}');
    push_range(v, '\u{1058C}', '\u{10592}');
    push_range(v, '\u{10594}', '\u{10595}');
    push_range(v, '\u{10C80}', '\u{10CB2}');
    push_range(v, '\u{10D50}', '\u{10D65}');
    push_range(v, '\u{118A0}', '\u{118BF}');
    assert(rview(v@) =~= o + changes_when_casefolded_chunk_77());
}

fn push_changes_when_casefolded_chunk_78(v: &mut Vec<ClassUnicodeRange>)
    ensures
        rview(final(v)@) == rview(old(v)@) + changes_when_casefolded_chunk_78(),
{
    let ghost o = rview(v@);
    push_range(v, '\u{16E40}', '\u{16E5F}');
    push_range(v, '\u{1E900}', '\u{1E921}');
    assert(rview(v@) =~= o + changes_when_casefolded_chunk_78());
}

fn push_changes_when_casefolded_block_0(v: &mut Vec<ClassUnicodeRange>)
    ensures
        rview(final(v)@) == rview(old(v)@) + changes_when_casefolded_block_0(),
{
    let ghost o = rview(v@);
    push_changes_when_casefolded_chunk_0(v);
    assert(rview(v@) =~= o + (changes_when_casefolded_chunk_0()));
    push_changes_when_casefolded_chunk_1(v);
    assert(rview(v@) =~= o + (changes_when_casefolded_chunk_0() + changes_when_casefolded_chunk_1()));
    push_changes_when_casefolded_chunk_2(v);
    assert(rview(v@) =~= o + (changes_when_casefolded_chunk_0() + changes_when_casefolded_chunk_1() + changes_when_casefolded_chunk_2()));
    push_changes_when_casefolded_chunk_3(v);
    assert(rview(v@) =~= o + (changes_when_casefolded_chunk_0() + changes_when_casefolded_chunk_1() + changes_when_casefolded_chunk_2() + changes_when_casefolded_chunk_3()));
    push_changes_when_casefolded_chunk_4(v);
    assert(rview(v@) =~= o + (changes_when_casefolded_chunk_0() + changes_when_casefolded_chunk_1() + changes_when_casefolded_chunk_2() + changes_when_casefolded_chunk_3() + changes_when_casefolded_chunk_4()));
    push_changes_when_casefolded_chunk_5(v);
    assert(rview(v@) =~= o + (changes_when_casefolded_chunk_0() + changes_when_casefolded_chunk_1() + changes_when_casefolded_chunk_2() + changes_when_casefolded_chunk_3() + changes_when_casefolded_chunk_4() + changes_when_casefolded_chunk_5()));
    push_changes_when_casefolded_chunk_6(v);
    assert(rview(v@) =~= o + (changes_when_casefolded_chunk_0() + changes_when_casefolded_chunk_1() + changes_when_casefolded_chunk_2() + changes_when_casefolded_chunk_3() + changes_when_casefolded_chunk_4() + changes_when_casefolded_chunk_5() + changes_when_casefolded_chunk_6()));
    push_changes_when_casefolded_chunk_7(v);
    assert(rview(v@) =~= o + (changes_when_casefolded_chunk_0() + changes_when_casefolded_chunk_1() + changes_when_casefolded_chunk_2() + changes_when_casefolded_chunk_3() + changes_when_casefolded_chunk_4() + changes_when_casefolded_chunk_5() + changes_when_casefolded_chunk_6() + changes_when_casefolded_chunk_7()));
    push_changes_when_casefolded_chunk_8(v);
    assert(rview(v@) =~= o + (changes_when_casefolded_chunk_0() + changes_when_casefolded_chunk_1() + changes_when_casefolded_chunk_2() + changes_when_casefolded_chunk_3() + changes_when_casefolded_chunk_4() + changes_when_casefolded_chunk_5() + changes_when_casefolded_chunk_6() + changes_when_casefolded_chunk_7() + changes_when_casefolded_chunk_8()));
    push_changes_when_casefolded_chunk_9(v);
    assert(rview(v@) =~= o + (changes_when_casefolded_chunk_0() + changes_when_casefolded_chunk_1() + changes_when_casefolded_chunk_2() + changes_when_casefolded_chunk_3() + changes_when_casefolded_chunk_4() + changes_when_casefolded_chunk_5() + changes_when_casefolded_chunk_6() + changes_when_casefolded_chunk_7() + changes_when_casefolded_chunk_8() + changes_when_casefolded_chunk_9()));
}

fn push_changes_when_casefolded_block_1(v: &mut Vec<ClassUnicodeRange>)
    ensures
        rview(final(v)@) == rview(old(v)@) + changes_when_casefolded_block_1(),
{
    let ghost o = rview(v@);
    push_changes_when_casefolded_chunk_10(v);
    assert(rview(v@) =~= o + (changes_when_casefolded_chunk_10()));
    push_changes_when_casefolded_chunk_11(v);
    assert(rview(v@) =~= o + (changes_when_casefolded_chunk_10() + changes_when_casefolded_chunk_11()));
    push_changes_when_casefolded_chunk_12(v);
    assert(rview(v@) =~= o + (changes_when_casefolded_chunk_10() + changes_when_casefolded_chunk_11() + changes_when_casefolded_chunk_12()));
    push_changes_when_casefolded_chunk_13(v);
    assert(rview(v@) =~= o + (changes_when_casefolded_chunk_10() + changes_when_casefolded_chunk_11() + changes_when_casefolded_chunk_12() + changes_when_casefolded_chunk_13()));
    push_changes_when_casefolded_chunk_14(v);
    assert(rview(v@) =~= o + (changes_when_casefolded_chunk_10() + changes_when_casefolded_chunk_11() + changes_when_casefolded_chunk_12() + changes_when_casefolded_chunk_13() + changes_when_casefolded_chunk_14()));
    push_changes_when_casefolded_chunk_15(v);
    assert(rview(v@) =~= o + (changes_when_casefolded_chunk_10() + changes_when_casefolded_chunk_11() + changes_when_casefolded_chunk_12() + changes_when_casefolded_chunk_13() + changes_when_casefolded_chunk_14() + changes_when_casefolded_chunk_15()));
    push_changes_when_casefolded_chunk_16(v);
    assert(rview(v@) =~= o + (changes_when_casefolded_chunk_10() + changes_when_casefolded_chunk_11() + changes_when_casefolded_chunk_12() + changes_when_casefolded_chunk_13() + changes_when_casefolded_chunk_14() + changes_when_casefolded_chunk_15() + changes_when_casefolded_chunk_16()));
    push_changes_when_casefolded_chunk_17(v);
    assert(rview(v@) =~= o + (changes_when_casefolded_chunk_10() + changes_when_casefolded_chunk_11() + changes_when_casefolded_chunk_12() + changes_when_casefolded_chunk_13() + changes_when_casefolded_chunk_14() + changes_when_casefolded_chunk_15() + changes_when_casefolded_chunk_16() + changes_when_casefolded_chunk_17()));
    push_changes_when_casefolded_chunk_18(v);
    assert(rview(v@) =~= o + (changes_when_casefolded_chunk_10() + changes_when_casefolded_chunk_11() + changes_when_casefolded_chunk_12() + changes_when_casefolded_chunk_13() + changes_when_casefolded_chunk_14() + changes_when_casefolded_chunk_15() + changes_when_casefolded_chunk_16() + changes_when_casefolded_chunk_17() + changes_when_casefolded_chunk_18()));
    push_changes_when_casefolded_chunk_19(v);
    assert(rview(v@) =~= o + (changes_when_casefolded_chunk_10() + changes_when_casefolded_chunk_11() + changes_when_casefolded_chunk_12() + changes_when_casefolded_chunk_13() + changes_when_casefolded_chunk_14() + changes_when_casefolded_chunk_15() + changes_when_casefolded_chunk_16() + changes_when_casefolded_chunk_17() + changes_when_casefolded_chunk_18() + changes_when_casefolded_chunk_19()));
}

fn push_changes_when_casefolded_block_2(v: &mut Vec<ClassUnicodeRange>)
    ensures
        rview(final(v)@) == rview(old(v)@) + changes_when_casefolded_block_2(),
{
    let ghost o = rview(v@);
    push_changes_when_casefolded_chunk_20(v);
    assert(rview(v@) =~= o + (changes_when_casefolded_chunk_20()));
    push_changes_when_casefolded_chunk_21(v);
    assert(rview(v@) =~= o + (changes_when_casefolded_chunk_20() + changes_when_casefolded_chunk_21()));
    push_changes_when_casefolded_chunk_22(v);
    assert(rview(v@) =~= o + (changes_when_casefolded_chunk_20() + changes_when_casefolded_chunk_21() + changes_when_casefolded_chunk_22()));
    push_changes_when_casefolded_chunk_23(v);
    assert(rview(v@) =~= o + (changes_when_casefolded_chunk_20() + changes_when_casefolded_chunk_21() + changes_when_casefolded_chunk_22() + changes_when_casefolded_chunk_23()));
    push_changes_when_casefolded_chunk_24(v);
    assert(rview(v@) =~= o + (changes_when_casefolded_chunk_20() + changes_when_casefolded_chunk_21() + changes_when_casefolded_chunk_22() + changes_when_casefolded_chunk_23() + changes_when_casefolded_chunk_24()));
    push_changes_when_casefolded_chunk_25(v);
    assert(rview(v@) =~= o + (changes_when_casefolded_chunk_20() + changes_when_casefolded_chunk_21() + changes_when_casefolded_chunk_22() + changes_when_casefolded_chunk_23() + changes_when_casefolded_chunk_24() + changes_when_casefolded_chunk_25()));
    push_changes_when_casefolded_chunk_26(v);
    assert(rview(v@) =~= o + (changes_when_casefolded_chunk_20() + changes_when_casefolded_chunk_21() + changes_when_casefolded_chunk_22() + changes_when_casefolded_chunk_23() + changes_when_casefolded_chunk_24() + changes_when_casefolded_chunk_25() + changes_when_casefolded_chunk_26()));
    push_changes_when_casefolded_chunk_27(v);
    assert(rview(v@) =~= o + (changes_when_casefolded_chunk_20() + changes_when_casefolded_chunk_21() + changes_when_casefolded_chunk_22() + changes_when_casefolded_chunk_23() + changes_when_casefolded_chunk_24() + changes_when_casefolded_chunk_25() + changes_when_casefolded_chunk_26() + changes_when_casefolded_chunk_27()));
    push_changes_when_casefolded_chunk_28(v);
    assert(rview(v@) =~= o + (changes_when_casefolded_chunk_20() + changes_when_casefolded_chunk_21() + changes_when_casefolded_chunk_22() + changes_when_casefolded_chunk_23() + changes_when_casefolded_chunk_24() + changes_when_casefolded_chunk_25() + changes_when_casefolded_chunk_26() + changes_when_casefolded_chunk_27() + changes_when_casefolded_chunk_28()));
    push_changes_when_casefolded_chunk_29(v);
    assert(rview(v@) =~= o + (changes_when_casefolded_chunk_20() + changes_when_casefolded_chunk_21() + changes_when_casefolded_chunk_22() + changes_when_casefolded_chunk_23() + changes_when_casefolded_chunk_24() + changes_when_casefolded_chunk_25() + changes_when_casefolded_chunk_26() + changes_when_casefolded_chunk_27() + changes_when_casefolded_chunk_28() + changes_when_casefolded_chunk_29()));
}

fn push_changes_when_casefolded_block_3(v: &mut Vec<ClassUnicodeRange>)
    ensures
        rview(final(v)@) == rview(old(v)@) + changes_when_casefolded_block_3(),
{
    let ghost o = rview(v@);
    push_changes_when_casefolded_chunk_30(v);
    assert(rview(v@) =~= o + (changes_when_casefolded_chunk_30()));
    push_changes_when_casefolded_chunk_31(v);
    assert(rview(v@) =~= o + (changes_when_casefolded_chunk_30() + changes_when_casefolded_chunk_31()));
    push_changes_when_casefolded_chunk_32(v);
    assert(rview(v@) =~= o + (changes_when_casefolded_chunk_30() + changes_when_casefolded_chunk_31() + changes_when_casefolded_chunk_32()));
    push_changes_when_casefolded_chunk_33(v);
    assert(rview(v@) =~= o + (changes_when_casefolded_chunk_30() + changes_when_casefolded_chunk_31() + changes_when_casefolded_chunk_32() + changes_when_casefolded_chunk_33()));
    push_changes_when_casefolded_chunk_34(v);
    assert(rview(v@) =~= o + (changes_when_casefolded_chunk_30() + changes_when_casefolded_chunk_31() + changes_when_casefolded_chunk_32() + changes_when_casefolded_chunk_33() + changes_when_casefolded_chunk_34()));
    push_changes_when_casefolded_chunk_35(v);
    assert(rview(v@) =~= o + (changes_when_casefolded_chunk_30() + changes_when_casefolded_chunk_31() + changes_when_casefolded_chunk_32() + changes_when_casefolded_chunk_33() + changes_when_casefolded_chunk_34() + changes_when_casefolded_chunk_35()));
    push_changes_when_casefolded_chunk_36(v);
    assert(rview(v@) =~= o + (changes_when_casefolded_chunk_30() + changes_when_casefolded_chunk_31() + changes_when_casefolded_chunk_32() + changes_when_casefolded_chunk_33() + changes_when_casefolded_chunk_34() + changes_when_casefolded_chunk_35() + changes_when_casefolded_chunk_36()));
    push_changes_when_casefolded_chunk_37(v);
    assert(rview(v@) =~= o + (changes_when_casefolded_chunk_30() + changes_when_casefolded_chunk_31() + changes_when_casefolded_chunk_32() + changes_when_casefolded_chunk_33() + changes_when_casefolded_chunk_34() + changes_when_casefolded_chunk_35() + changes_when_casefolded_chunk_36() + changes_when_casefolded_chunk_37()));
    push_changes_when_casefolded_chunk_38(v);
    assert(rview(v@) =~= o + (changes_when_casefolded_chunk_30() + changes_when_casefolded_chunk_31() + changes_when_casefolded_chunk_32() + changes_when_casefolded_chunk_33() + changes_when_casefolded_chunk_34() + changes_when_casefolded_chunk_35() + changes_when_casefolded_chunk_36() + changes_when_casefolded_chunk_37() + changes_when_casefolded_chunk_38()));
    push_changes_when_casefolded_chunk_39(v);
    assert(rview(v@) =~= o + (changes_when_casefolded_chunk_30() + changes_when_casefolded_chunk_31() + changes_when_casefolded_chunk_32() + changes_when_casefolded_chunk_33() + changes_when_casefolded_chunk_34() + changes_when_casefolded_chunk_35() + changes_when_casefolded_chunk_36() + changes_when_casefolded_chunk_37() + changes_when_casefolded_chunk_38() + changes_when_casefolded_chunk_39()));
}

fn push_changes_when_casefolded_block_4(v: &mut Vec<ClassUnicodeRange>)
    ensures
        rview(final(v)@) == rview(old(v)@) + changes_when_casefolded_block_4(),
{
    let ghost o = rview(v@);
    push_changes_when_casefolded_chunk_40(v);
    assert(rview(v@) =~= o + (changes_when_casefolded_chunk_40()));
    push_changes_when_casefolded_chunk_41(v);
    assert(rview(v@) =~= o + (changes_when_casefolded_chunk_40() + changes_when_casefolded_chunk_41()));
    push_changes_when_casefolded_chunk_42(v);
    assert(rview(v@) =~= o + (changes_when_casefolded_chunk_40() + changes_when_casefolded_chunk_41() + changes_when_casefolded_chunk_42()));
    push_changes_when_casefolded_chunk_43(v);
    assert(rview(v@) =~= o + (changes_when_casefolded_chunk_40() + changes_when_casefolded_chunk_41() + changes_when_casefolded_chunk_42() + changes_when_casefolded_chunk_43()));
    push_changes_when_casefolded_chunk_44(v);
    assert(rview(v@) =~= o + (changes_when_casefolded_chunk_40() + changes_when_casefolded_chunk_41() + changes_when_casefolded_chunk_42() + changes_when_casefolded_chunk_43() + changes_when_casefolded_chunk_44()));
    push_changes_when_casefolded_chunk_45(v);
    assert(rview(v@) =~= o + (changes_when_casefolded_chunk_40() + changes_when_casefolded_chunk_41() + changes_when_casefolded_chunk_42() + changes_when_casefolded_chunk_43() + changes_when_casefolded_chunk_44() + changes_when_casefolded_chunk_45()));
    push_changes_when_casefolded_chunk_46(v);
    assert(rview(v@) =~= o + (changes_when_casefolded_chunk_40() + changes_when_casefolded_chunk_41() + changes_when_casefolded_chunk_42() + changes_when_casefolded_chunk_43() + changes_when_casefolded_chunk_44() + changes_when_casefolded_chunk_45() + changes_when_casefolded_chunk_46()));
    push_changes_when_casefolded_chunk_47(v);
    assert(rview(v@) =~= o + (changes_when_casefolded_chunk_40() + changes_when_casefolded_chunk_41() + changes_when_casefolded_chunk_42() + changes_when_casefolded_chunk_43() + changes_when_casefolded_chunk_44() + changes_when_casefolded_chunk_45() + changes_when_casefolded_chunk_46() + changes_when_casefolded_chunk_47()));
    push_changes_when_casefolded_chunk_48(v);
    assert(rview(v@) =~= o + (changes_when_casefolded_chunk_40() + changes_when_casefolded_chunk_41() + changes_when_casefolded_chunk_42() + changes_when_casefolded_chunk_43() + changes_when_casefolded_chunk_44() + changes_when_casefolded_chunk_45() + changes_when_casefolded_chunk_46() + changes_when_casefolded_chunk_47() + changes_when_casefolded_chunk_48()));
    push_changes_when_casefolded_chunk_49(v);
    assert(rview(v@) =~= o + (changes_when_casefolded_chunk_40() + changes_when_casefolded_chunk_41() + changes_when_casefolded_chunk_42() + changes_when_casefolded_chunk_43() + changes_when_casefolded_chunk_44() + changes_when_casefolded_chunk_45() + changes_when_casefolded_chunk_46() + changes_when_casefolded_chunk_47() + changes_when_casefolded_chunk_48() + changes_when_casefolded_chunk_49()));
}

fn push_changes_when_casefolded_block_5(v: &mut Vec<ClassUnicodeRange>)
    ensures
        rview(final(v)@) == rview(old(v)@) + changes_when_casefolded_block_5(),
{
    let ghost o = rview(v@);
    push_changes_when_casefolded_chunk_50(v);
    assert(rview(v@) =~= o + (changes_when_casefolded_chunk_50()));
    push_changes_when_casefolded_chunk_51(v);
    assert(rview(v@) =~= o + (changes_when_casefolded_chunk_50() + changes_when_casefolded_chunk_51()));
    push_changes_when_casefolded_chunk_52(v);
    assert(rview(v@) =~= o + (changes_when_casefolded_chunk_50() + changes_when_casefolded_chunk_51() + changes_when_casefolded_chunk_52()));
    push_changes_when_casefolded_chunk_53(v);
    assert(rview(v@) =~= o + (changes_when_casefolded_chunk_50() + changes_when_casefolded_chunk_51() + changes_when_casefolded_chunk_52() + changes_when_casefolded_chunk_53()));
    push_changes_when_casefolded_chunk_54(v);
    assert(rview(v@) =~= o + (changes_when_casefolded_chunk_50() + changes_when_casefolded_chunk_51() + changes_when_casefolded_chunk_52() + changes_when_casefolded_chunk_53() + changes_when_casefolded_chunk_54()));
    push_changes_when_casefolded_chunk_55(v);
    assert(rview(v@) =~= o + (changes_when_casefolded_chunk_50() + changes_when_casefolded_chunk_51() + changes_when_casefolded_chunk_52() + changes_when_casefolded_chunk_53() + changes_when_casefolded_chunk_54() + changes_when_casefolded_chunk_55()));
    push_changes_when_casefolded_chunk_56(v);
    assert(rview(v@) =~= o + (changes_when_casefolded_chunk_50() + changes_when_casefolded_chunk_51() + changes_when_casefolded_chunk_52() + changes_when_casefolded_chunk_53() + changes_when_casefolded_chunk_54() + changes_when_casefolded_chunk_55() + changes_when_casefolded_chunk_56()));
    push_changes_when_casefolded_chunk_57(v);
    assert(rview(v@) =~= o + (changes_when_casefolded_chunk_50() + changes_when_casefolded_chunk_51() + changes_when_casefolded_chunk_52() + changes_when_casefolded_chunk_53() + changes_when_casefolded_chunk_54() + changes_when_casefolded_chunk_55() + changes_when_casefolded_chunk_56() + changes_when_casefolded_chunk_57()));
    push_changes_when_casefolded_chunk_58(v);
    assert(rview(v@) =~= o + (changes_when_casefolded_chunk_50() + changes_when_casefolded_chunk_51() + changes_when_casefolded_chunk_52() + changes_when_casefolded_chunk_53() + changes_when_casefolded_chunk_54() + changes_when_casefolded_chunk_55() + changes_when_casefolded_chunk_56() + changes_when_casefolded_chunk_57() + changes_when_casefolded_chunk_58()));
    push_changes_when_casefolded_chunk_59(v);
    assert(rview(v@) =~= o + (changes_when_casefolded_chunk_50() + changes_when_casefolded_chunk_51() + changes_when_casefolded_chunk_52() + changes_when_casefolded_chunk_53() + changes_when_casefolded_chunk_54() + changes_when_casefolded_chunk_55() + changes_when_casefolded_chunk_56() + changes_when_casefolded_chunk_57() + changes_when_casefolded_chunk_58() + changes_when_casefolded_chunk_59()));
}

fn push_changes_when_casefolded_block_6(v: &mut Vec<ClassUnicodeRange>)
    ensures
        rview(final(v)@) == rview(old(v)@) + changes_when_casefolded_block_6(),
{
    let ghost o = rview(v@);
    push_changes_when_casefolded_chunk_60(v);
    assert(rview(v@) =~= o + (changes_when_casefolded_chunk_60()));
    push_changes_when_casefolded_chunk_61(v);
    assert(rview(v@) =~= o + (changes_when_casefolded_chunk_60() + changes_when_casefolded_chunk_61()));
    push_changes_when_casefolded_chunk_62(v);
    assert(rview(v@) =~= o + (changes_when_casefolded_chunk_60() + changes_when_casefolded_chunk_61() + changes_when_casefolded_chunk_62()));
    push_changes_when_casefolded_chunk_63(v);
    assert(rview(v@) =~= o + (changes_when_casefolded_chunk_60() + changes_when_casefolded_chunk_61() + changes_when_casefolded_chunk_62() + changes_when_casefolded_chunk_63()));
    push_changes_when_casefolded_chunk_64(v);
    assert(rview(v@) =~= o + (changes_when_casefolded_chunk_60() + changes_when_casefolded_chunk_61() + changes_when_casefolded_chunk_62() + changes_when_casefolded_chunk_63() + changes_when_casefolded_chunk_64()));
    push_changes_when_casefolded_chunk_65(v);
    assert(rview(v@) =~= o + (changes_when_casefolded_chunk_60() + changes_when_casefolded_chunk_61() + changes_when_casefolded_chunk_62() + changes_when_casefolded_chunk_63() + changes_when_casefolded_chunk_64() + changes_when_casefolded_chunk_65()));
    push_changes_when_casefolded_chunk_66(v);
    assert(rview(v@) =~= o + (changes_when_casefolded_chunk_60() + changes_when_casefolded_chunk_61() + changes_when_casefolded_chunk_62() + changes_when_casefolded_chunk_63() + changes_when_casefolded_chunk_64() + changes_when_casefolded_chunk_65() + changes_when_casefolded_chunk_66()));
    push_changes_when_casefolded_chunk_67(v);
    assert(rview(v@) =~= o + (changes_when_casefolded_chunk_60() + changes_when_casefolded_chunk_61() + changes_when_casefolded_chunk_62() + changes_when_casefolded_chunk_63() + changes_when_casefolded_chunk_64() + changes_when_casefolded_chunk_65() + changes_when_casefolded_chunk_66() + changes_when_casefolded_chunk_67()));
    push_changes_when_casefolded_chunk_68(v);
    assert(rview(v@) =~= o + (changes_when_casefolded_chunk_60() + changes_when_casefolded_chunk_61() + changes_when_casefolded_chunk_62() + changes_when_casefolded_chunk_63() + changes_when_casefolded_chunk_64() + changes_when_casefolded_chunk_65() + changes_when_casefolded_chunk_66() + changes_when_casefolded_chunk_67() + changes_when_casefolded_chunk_68()));
    push_changes_when_casefolded_chunk_69(v);
    assert(rview(v@) =~= o + (changes_when_casefolded_chunk_60() + changes_when_casefolded_chunk_61() + changes_when_casefolded_chunk_62() + changes_when_casefolded_chunk_63() + changes_when_casefolded_chunk_64() + changes_when_casefolded_chunk_65() + changes_when_casefolded_chunk_66() + changes_when_casefolded_chunk_67() + changes_when_casefolded_chunk_68() + changes_when_casefolded_chunk_69()));
}

fn push_changes_when_casefolded_block_7(v: &mut Vec<ClassUnicodeRange>)
    ensures
        rview(final(v)@) == rview(old(v)@) + changes_when_casefolded_block_7(),
{
    let ghost o = rview(v@);
    push_changes_when_casefolded_chunk_70(v);
    assert(rview(v@) =~= o + (changes_when_casefolded_chunk_70()));
    push_changes_when_casefolded_chunk_71(v);
    assert(rview(v@) =~= o + (changes_when_casefolded_chunk_70() + changes_when_casefolded_chunk_71()));
    push_changes_when_casefolded_chunk_72(v);
    assert(rview(v@) =~= o + (changes_when_casefolded_chunk_70() + changes_when_casefolded_chunk_71() + changes_when_casefolded_chunk_72()));
    push_changes_when_casefolded_chunk_73(v);
    assert(rview(v@) =~= o + (changes_when_casefolded_chunk_70() + changes_when_casefolded_chunk_71() + changes_when_casefolded_chunk_72() + changes_when_casefolded_chunk_73()));
    push_changes_when_casefolded_chunk_74(v);
    assert(rview(v@) =~= o + (changes_when_casefolded_chunk_70() + changes_when_casefolded_chunk_71() + changes_when_casefolded_chunk_72() + changes_when_casefolded_chunk_73() + changes_when_casefolded_chunk_74()));
    push_changes_when_casefolded_chunk_75(v);
    assert(rview(v@) =~= o + (changes_when_casefolded_chunk_70() + changes_when_casefolded_chunk_71() + changes_when_casefolded_chunk_72() + changes_when_casefolded_chunk_73() + changes_when_casefolded_chunk_74() + changes_when_casefolded_chunk_75()));
    push_changes_when_casefolded_chunk_76(v);
    assert(rview(v@) =~= o + (changes_when_casefolded_chunk_70() + changes_when_casefolded_chunk_71() + changes_when_casefolded_chunk_72() + changes_when_casefolded_chunk_73() + changes_when_casefolded_chunk_74() + changes_when_casefolded_chunk_75() + changes_when_casefolded_chunk_76()));
    push_changes_when_casefolded_chunk_77(v);
    assert(rview(v@) =~= o + (changes_when_casefolded_chunk_70() + changes_when_casefolded_chunk_71() + changes_when_casefolded_chunk_72() + changes_when_casefolded_chunk_73() + changes_when_casefolded_chunk_74() + changes_when_casefolded_chunk_75() + changes_when_casefolded_chunk_76() + changes_when_casefolded_chunk_77()));
    push_changes_when_casefolded_chunk_78(v);
    assert(rview(v@) =~= o + (changes_when_casefolded_chunk_70() + changes_when_casefolded_chunk_71() + changes_when_casefolded_chunk_72() + changes_when_casefolded_chunk_73() + changes_when_casefolded_chunk_74() + changes_when_casefolded_chunk_75() + changes_when_casefolded_chunk_76() + changes_when_casefolded_chunk_77() + changes_when_casefolded_chunk_78()));
}

pub fn changes_when_casefolded_class() -> (v: Vec<ClassUnicodeRange>)
    ensures
        rview(v@) == changes_when_casefolded_ranges(),
{
    let mut v: Vec<ClassUnicodeRange> = Vec::new();
    assert(rview(v@) =~= Seq::<SRange>::empty());
    push_changes_when_casefolded_block_0(&mut v);
    assert(rview(v@) =~= changes_when_casefolded_block_0());
    push_changes_when_casefolded_block_1(&mut v);
    assert(rview(v@) =~= changes_when_casefolded_block_0() + changes_when_casefolded_block_1());
    push_changes_when_casefolded_block_2(&mut v);
    assert(rview(v@) =~= changes_when_casefolded_block_0() + changes_when_casefolded_block_1() + changes_when_casefolded_block_2());
    push_changes_when_casefolded_block_3(&mut v);
    assert(rview(v@) =~= changes_when_casefolded_block_0() + changes_when_casefolded_block_1() + changes_when_casefolded_block_2() + changes_when_casefolded_block_3());
    push_changes_when_casefolded_block_4(&mut v);
    assert(rview(v@) =~= changes_when_casefolded_block_0() + changes_when_casefolded_block_1() + changes_when_casefolded_block_2() + changes_when_casefolded_block_3() + changes_when_casefolded_block_4());
    push_changes_when_casefolded_block_5(&mut v);
    assert(rview(v@) =~= changes_when_casefolded_block_0() + changes_when_casefolded_block_1() + changes_when_casefolded_block_2() + changes_when_casefolded_block_3() + changes_when_casefolded_block_4() + changes_when_casefolded_block_5());
    push_changes_when_casefolded_block_6(&mut v);
    assert(rview(v@) =~= changes_when_casefolded_block_0() + changes_when_casefolded_block_1() + changes_when_casefolded_block_2() + changes_when_casefolded_block_3() + changes_when_casefolded_block_4() + changes_when_casefolded_block_5() + changes_when_casefolded_block_6());
    push_changes_when_casefolded_block_7(&mut v);
    assert(rview(v@) =~= changes_when_casefolded_block_0() + changes_when_casefolded_block_1() + changes_when_casefolded_block_2() + changes_when_casefolded_block_3() + changes_when_casefolded_block_4() + changes_when_casefolded_block_5() + changes_when_casefolded_block_6() + changes_when_casefolded_block_7());
    v
}

pub open spec fn changes_when_casemapped_chunk_0() -> Seq<SRange> {
    seq![(0x41int, 0x5Aint), (0x61int, 0x7Aint), (0xB5int, 0xB5int), (0xC0int, 0xD6int), (0xD8int, 0xF6int), (0xF8int, 0x137int), (0x139int, 0x18Cint), (0x18Eint, 0x1A9int)]
}

pub open spec fn changes_when_casemapped_chunk_1() -> Seq<SRange> {
    seq![(0x1ACint, 0x1B9int), (0x1BCint, 0x1BDint), (0x1BFint, 0x1BFint), (0x1C4int, 0x220int), (0x222int, 0x233int), (0x23Aint, 0x254int), (0x256int, 0x257int), (0x259int, 0x259int)]
}

pub open spec fn changes_when_casemapped_chunk_2() -> Seq<SRange> {
    seq![(0x25Bint, 0x25Cint), (0x260int, 0x261int), (0x263int, 0x266int), (0x268int, 0x26Cint), (0x26Fint, 0x26Fint), (0x271int, 0x272int), (0x275int, 0x275int), (0x27Dint, 0x27Dint)]
}

pub open spec fn changes_when_casemapped_chunk_3() -> Seq<SRange> {
    seq![(0x280int, 0x280int), (0x282int, 0x283int), (0x287int, 0x28Cint), (0x292int, 0x292int), (0x29Dint, 0x29Eint), (0x345int, 0x345int), (0x370int, 0x373int), (0x376int, 0x377int)]
}

pub open spec fn changes_when_casemapped_chunk_4() -> Seq<SRange> {
    seq![(0x37Bint, 0x37Dint), (0x37Fint, 0x37Fint), (0x386int, 0x386int), (0x388int, 0x38Aint), (0x38Cint, 0x38Cint), (0x38Eint, 0x3A1int), (0x3A3int, 0x3D1int), (0x3D5int, 0x3F5int)]
}

pub open spec fn changes_when_casemapped_chunk_5() -> Seq<SRange> {
    seq![(0x3F7int, 0x3FBint), (0x3FDint, 0x481int), (0x48Aint, 0x52Fint), (0x531int, 0x556int), (0x561int, 0x587int), (0x10A0int, 0x10C5int), (0x10C7int, 0x10C7int), (0x10CDint, 0x10CDint)]
}

pub open spec fn changes_when_casemapped_chunk_6() -> Seq<SRange> {
    seq![(0x10D0int, 0x10FAint), (0x10FDint, 0x10FFint), (0x13A0int, 0x13F5int), (0x13F8int, 0x13FDint), (0x1C80int, 0x1C8Aint), (0x1C90int, 0x1CBAint), (0x1CBDint, 0x1CBFint), (0x1D79int, 0x1D79int)]
}

pub open spec fn changes_when_casemapped_chunk_7() -> Seq<SRange> {
    seq![(0x1D7Dint, 0x1D7Dint), (0x1D8Eint, 0x1D8Eint), (0x1E00int, 0x1E9Bint), (0x1E9Eint, 0x1E9Eint), (0x1EA0int, 0x1F15int), (0x1F18int, 0x1F1Dint), (0x1F20int, 0x1F45int), (0x1F48int, 0x1F4Dint)]
}

pub open spec fn changes_when_casemapped_chunk_8() -> Seq<SRange> {
    seq![(0x1F50int, 0x1F57int), (0x1F59int, 0x1F59int), (0x1F5Bint, 0x1F5Bint), (0x1F5Dint, 0x1F5Dint), (0x1F5Fint, 0x1F7Dint), (0x1F80int, 0x1FB4int), (0x1FB6int, 0x1FBCint), (0x1FBEint, 0x1FBEint)]
}

pub open spec fn changes_when_casemapped_chunk_9() -> Seq<SRange> {
    seq![(0x1FC2int, 0x1FC4int), (0x1FC6int, 0x1FCCint), (0x1FD0int, 0x1FD3int), (0x1FD6int, 0x1FDBint), (0x1FE0int, 0x1FECint), (0x1FF2int, 0x1FF4int), (0x1FF6int, 0x1FFCint), (0x2126int, 0x2126int)]
}

pub open spec fn changes_when_casemapped_chunk_10() -> Seq<SRange> {
    seq![(0x212Aint, 0x212Bint), (0x2132int, 0x2132int), (0x214Eint, 0x214Eint), (0x2160int, 0x217Fint), (0x2183int, 0x2184int), (0x24B6int, 0x24E9int), (0x2C00int, 0x2C70int), (0x2C72int, 0x2C73int)]
}

pub open spec fn changes_when_casemapped_chunk_11() -> Seq<SRange> {
    seq![(0x2C75int, 0x2C76int), (0x2C7Eint, 0x2CE3int), (0x2CEBint, 0x2CEEint), (0x2CF2int, 0x2CF3int), (0x2D00int, 0x2D25int), (0x2D27int, 0x2D27int), (0x2D2Dint, 0x2D2Dint), (0xA640int, 0xA66Dint)]
}

pub open spec fn changes_when_casemapped_chunk_12() -> Seq<SRange> {
    seq![(0xA680int, 0xA69Bint), (0xA722int, 0xA72Fint), (0xA732int, 0xA76Fint), (0xA779int, 0xA787int), (0xA78Bint, 0xA78Dint), (0xA790int, 0xA794int), (0xA796int, 0xA7AEint), (0xA7B0int, 0xA7CDint)]
}

pub open spec fn changes_when_casemapped_chunk_13() -> Seq<SRange> {
    seq![(0xA7D0int, 0xA7D1int), (0xA7D6int, 0xA7DCint), (0xA7F5int, 0xA7F6int), (0xAB53int, 0xAB53int), (0xAB70int, 0xABBFint), (0xFB00int, 0xFB06int), (0xFB13int, 0xFB17int), (0xFF21int, 0xFF3Aint)]
}

pub open spec fn changes_when_casemapped_chunk_14() -> Seq<SRange> {
    seq![(0xFF41int, 0xFF5Aint), (0x10400int, 0x1044Fint), (0x104B0int, 0x104D3int), (0x104D8int, 0x104FBint), (0x10570int, 0x1057Aint), (0x1057Cint, 0x1058Aint), (0x1058Cint, 0x10592int), (0x10594int, 0x10595int)]
}

pub open spec fn changes_when_casemapped_chunk_15() -> Seq<SRange> {
    seq![(0x10597int, 0x105A1int), (0x105A3int, 0x105B1int), (0x105B3int, 0x105B9int), (0x105BBint, 0x105BCint), (0x10C80int, 0x10CB2int), (0x10CC0int, 0x10CF2int), (0x10D50int, 0x10D65int), (0x10D70int, 0x10D85int)]
}

pub open spec fn changes_when_casemapped_chunk_16() -> Seq<SRange> {
    seq![(0x118A0int, 0x118DFint), (0x16E40int, 0x16E7Fint), (0x1E900int, 0x1E943int)]
}

pub open spec fn changes_when_casemapped_block_0() -> Seq<SRange> {
    changes_when_casemapped_chunk_0() + changes_when_casemapped_chunk_1() + changes_when_casemapped_chunk_2() + changes_when_casemapped_chunk_3() + changes_when_casemapped_chunk_4() + changes_when_casemapped_chunk_5() + changes_when_casemapped_chunk_6() + changes_when_casemapped_chunk_7() + changes_when_casemapped_chunk_8() + changes_when_casemapped_chunk_9()
}

pub open spec fn changes_when_casemapped_block_1() -> Seq<SRange> {
    changes_when_casemapped_chunk_10() + changes_when_casemapped_chunk_11() + changes_when_casemapped_chunk_12() + changes_when_casemapped_chunk_13() + changes_when_casemapped_chunk_14() + changes_when_casemapped_chunk_15() + changes_when_casemapped_chunk_16()
}

/// The ranges of the property Changes_When_Casemapped.
pub open spec fn changes_when_casemapped_ranges() -> Seq<SRange> {
    changes_when_casemapped_block_0() + changes_when_casemapped_block_1()
}

proof fn lemma_changes_when_casemapped_block_0()
    ensures
        canonical(changes_when_casemapped_block_0()),
        changes_when_casemapped_block_0().len() > 0,
        changes_when_casemapped_block_0()[0] == changes_when_casemapped_chunk_0()[0],
        changes_when_casemapped_block_0().last() == changes_when_casemapped_chunk_9().last(),
{
    reveal_with_fuel(canonical, 9);
    assert(canonical(changes_when_casemapped_chunk_0()));
    assert(canonical(changes_when_casemapped_chunk_1()));
    assert(canonical(changes_when_casemapped_chunk_2()));
    assert(canonical(changes_when_casemapped_chunk_3()));
    assert(canonical(changes_when_casemapped_chunk_4()));
    assert(canonical(changes_when_casemapped_chunk_5()));
    assert(canonical(changes_when_casemapped_chunk_6()));
    assert(canonical(changes_when_casemapped_chunk_7()));
    assert(canonical(changes_when_casemapped_chunk_8()));
    assert(canonical(changes_when_casemapped_chunk_9()));
    lemma_canonical_append(changes_when_casemapped_chunk_0(), changes_when_casemapped_chunk_1());
    lemma_canonical_append(changes_when_casemapped_chunk_0() + changes_when_casemapped_chunk_1(), changes_when_casemapped_chunk_2());
    lemma_canonical_append(changes_when_casemapped_chunk_0() + changes_when_casemapped_chunk_1() + changes_when_casemapped_chunk_2(), changes_when_casemapped_chunk_3());
    lemma_canonical_append(changes_when_casemapped_chunk_0() + changes_when_casemapped_chunk_1() + changes_when_casemapped_chunk_2() + changes_when_casemapped_chunk_3(), changes_when_casemapped_chunk_4());
    lemma_canonical_append(changes_when_casemapped_chunk_0() + changes_when_casemapped_chunk_1() + changes_when_casemapped_chunk_2() + changes_when_casemapped_chunk_3() + changes_when_casemapped_chunk_4(), changes_when_casemapped_chunk_5());
    lemma_canonical_append(changes_when_casemapped_chunk_0() + changes_when_casemapped_chunk_1() + changes_when_casemapped_chunk_2() + changes_when_casemapped_chunk_3() + changes_when_casemapped_chunk_4() + changes_when_casemapped_chunk_5(), changes_when_casemapped_chunk_6());
    lemma_canonical_append(changes_when_casemapped_chunk_0() + changes_when_casemapped_chunk_1() + changes_when_casemapped_chunk_2() + changes_when_casemapped_chunk_3() + changes_when_casemapped_chunk_4() + changes_when_casemapped_chunk_5() + changes_when_casemapped_chunk_6(), changes_when_casemapped_chunk_7());
    lemma_canonical_append(changes_when_casemapped_chunk_0() + changes_when_casemapped_chunk_1() + changes_when_casemapped_chunk_2() + changes_when_casemapped_chunk_3() + changes_when_casemapped_chunk_4() + changes_when_casemapped_chunk_5() + changes_when_casemapped_chunk_6() + changes_when_casemapped_chunk_7(), changes_when_casemapped_chunk_8());
    lemma_canonical_append(changes_when_casemapped_chunk_0() + changes_when_casemapped_chunk_1() + changes_when_casemapped_chunk_2() + changes_when_casemapped_chunk_3() + changes_when_casemapped_chunk_4() + changes_when_casemapped_chunk_5() + changes_when_casemapped_chunk_6() + changes_when_casemapped_chunk_7() + changes_when_casemapped_chunk_8(), changes_when_casemapped_chunk_9());
}

proof fn lemma_changes_when_casemapped_block_1()
    ensures
        canonical(changes_when_casemapped_block_1()),
        changes_when_casemapped_block_1().len() > 0,
        changes_when_casemapped_block_1()[0] == changes_when_casemapped_chunk_10()[0],
        changes_when_casemapped_block_1().last() == changes_when_casemapped_chunk_16().last(),
{
    reveal_with_fuel(canonical, 9);
    assert(canonical(changes_when_casemapped_chunk_10()));
    assert(canonical(changes_when_casemapped_chunk_11()));
    assert(canonical(changes_when_casemapped_chunk_12()));
    assert(canonical(changes_when_casemapped_chunk_13()));
    assert(canonical(changes_when_casemapped_chunk_14()));
    assert(canonical(changes_when_casemapped_chunk_15()));
    assert(canonical(changes_when_casemapped_chunk_16()));
    lemma_canonical_append(changes_when_casemapped_chunk_10(), changes_when_casemapped_chunk_11());
    lemma_canonical_append(changes_when_casemapped_chunk_10() + changes_when_casemapped_chunk_11(), changes_when_casemapped_chunk_12());
    lemma_canonical_append(changes_when_casemapped_chunk_10() + changes_when_casemapped_chunk_11() + changes_when_casemapped_chunk_12(), changes_when_casemapped_chunk_13());
    lemma_canonical_append(changes_when_casemapped_chunk_10() + changes_when_casemapped_chunk_11() + changes_when_casemapped_chunk_12() + changes_when_casemapped_chunk_13(), changes_when_casemapped_chunk_14());
    lemma_canonical_append(changes_when_casemapped_chunk_10() + changes_when_casemapped_chunk_11() + changes_when_casemapped_chunk_12() + changes_when_casemapped_chunk_13() + changes_when_casemapped_chunk_14(), changes_when_casemapped_chunk_15());
    lemma_canonical_append(changes_when_casemapped_chunk_10() + changes_when_casemapped_chunk_11() + changes_when_casemapped_chunk_12() + changes_when_casemapped_chunk_13() + changes_when_casemapped_chunk_14() + changes_when_casemapped_chunk_15(), changes_when_casemapped_chunk_16());
}

pub proof fn lemma_changes_when_casemapped_canonical()
    ensures
        canonical(changes_when_casemapped_ranges()),
{
    lemma_changes_when_casemapped_block_0();
    lemma_changes_when_casemapped_block_1();
    lemma_canonical_append(changes_when_casemapped_block_0(), changes_when_casemapped_block_1());
}

fn push_changes_when_casemapped_chunk_0(v: &mut Vec<ClassUnicodeRange>)
    ensures
        rview(final(v)@) == rview(old(v)@) + changes_when_casemapped_chunk_0(),
{
    let ghost o = rview(v@);
    push_range(v, '\u{41}', '\u{5A}');
    push_range(v, '\u{61}', '\u{7A}');
    push_range(v, '\u{B5}', '\u{B5}');
    push_range(v, '\u{C0}', '\u{D6}');
    push_range(v, '\u{D8}', '\u{F6}');
    push_range(v, '\u{F8}', '\u{137}');
    push_range(v, '\u{139}', '\u{18C}');
    push_range(v, '\u{18E}', '\u{1A9}');
    assert(rview(v@) =~= o + changes_when_casemapped_chunk_0());
}

fn push_changes_when_casemapped_chunk_1(v: &mut Vec<ClassUnicodeRange>)
    ensures
        rview(final(v)@) == rview(old(v)@) + changes_when_casemapped_chunk_1(),
{
    let ghost o = rview(v@);
    push_range(v, '\u{1AC}', '\u{1B9}');
    push_range(v, '\u{1BC}', '\u{1BD}');
    push_range(v, '\u{1BF}', '\u{1BF}');
    push_range(v, '\u{1C4}', '\u{220}');
    push_range(v, '\u{222}', '\u{233}');
    push_range(v, '\u{23A}', '\u{254}');
    push_range(v, '\u{256}', '\u{257}');
    push_range(v, '\u{259}', '\u{259}');
    assert(rview(v@) =~= o + changes_when_casemapped_chunk_1());
}

fn push_changes_when_casemapped_chunk_2(v: &mut Vec<ClassUnicodeRange>)
    ensures
        rview(final(v)@) == rview(old(v)@) + changes_when_casemapped_chunk_2(),
{
    let ghost o = rview(v@);
    push_range(v, '\u{25B}', '\u{25C}');
    push_range(v, '\u{260}', '\u{261}');
    push_range(v, '\u{263}', '\u{266}');
    push_range(v, '\u{268}', '\u{26C}');
    push_range(v, '\u{26F}', '\u{26F}');
    push_range(v, '\u{271}', '\u{272}');
    push_range(v, '\u{275}', '\u{275}');
    push_range(v, '\u{27D}', '\u{27D}');
    assert(rview(v@) =~= o + changes_when_casemapped_chunk_2());
}

fn push_changes_when_casemapped_chunk_3(v: &mut Vec<ClassUnicodeRange>)
    ensures
        rview(final(v)@) == rview(old(v)@) + changes_when_casemapped_chunk_3(),
{
    let ghost o = rview(v@);
    push_range(v, '\u{280}', '\u{280}');
    push_range(v, '\u{282}', '\u{283}');
    push_range(v, '\u{287}', '\u{28C}');
    push_range(v, '\u{292}', '\u{292}');
    push_range(v, '\u{29D}', '\u{29E}');
    push_range(v, '\u{345}', '\u{345}');
    push_range(v, '\u{370}', '\u{373}');
    push_range(v, '\u{376}', '\u{377}');
    assert(rview(v@) =~= o + changes_when_casemapped_chunk_3());
}

fn push_changes_when_casemapped_chunk_4(v: &mut Vec<ClassUnicodeRange>)
    ensures
        rview(final(v)@) == rview(old(v)@) + changes_when_casemapped_chunk_4(),
{
    let ghost o = rview(v@);
    push_range(v, '\u{37B}', '\u{37D}');
    push_range(v, '\u{37F}', '\u{37F}');
    push_range(v, '\u{386}', '\u{386}');
    push_range(v, '\u{388}', '\u{38A}');
    push_range(v, '\u{38C}', '\u{38C}');
    push_range(v, '\u{38E}', '\u{3A1}');
    push_range(v, '\u{3A3}', '\u{3D1}');
    push_range(v, '\u{3D5}', '\u{3F5}');
    assert(rview(v@) =~= o + changes_when_casemapped_chunk_4());
}

fn push_changes_when_casemapped_chunk_5(v: &mut Vec<ClassUnicodeRange>)
    ensures
        rview(final(v)@) == rview(old(v)@) + changes_when_casemapped_chunk_5(),
{
    let ghost o = rview(v@);
    push_range(v, '\u{3F7}', '\u{3FB}');
    push_range(v, '\u{3FD}', '\u{481}');
    push_range(v, '\u{48A}', '\u{52F}');
    push_range(v, '\u{531}', '\u{556}');
    push_range(v, '\u{561}', '\u{587}');
    push_range(v, '\u{10A0}', '\u{10C5}');
    push_range(v, '\u{10C7}', '\u{10C7}');
    push_range(v, '\u{10CD}', '\u{10CD}');
    assert(rview(v@) =~= o + changes_when_casemapped_chunk_5());
}

fn push_changes_when_casemapped_chunk_6(v: &mut Vec<ClassUnicodeRange>)
    ensures
        rview(final(v)@) == rview(old(v)@) + changes_when_casemapped_chunk_6(),
{
    let ghost o = rview(v@);
    push_range(v, '\u{10D0}', '\u{10FA}');
    push_range(v, '\u{10FD}', '\u{10FF}');
    push_range(v, '\u{13A0}', '\u{13F5}');
    push_range(v, '\u{13F8}', '\u{13FD}');
    push_range(v, '\u{1C80}', '\u{1C8A}');
    push_range(v, '\u{1C90}', '\u{1CBA}');
    push_range(v, '\u{1CBD}', '\u{1CBF}');
    push_range(v, '\u{1D79}', '\u{1D79}');
    assert(rview(v@) =~= o + changes_when_casemapped_chunk_6());
}

fn push_changes_when_casemapped_chunk_7(v: &mut Vec<ClassUnicodeRange>)
    ensures
        rview(final(v)@) == rview(old(v)@) + changes_when_casemapped_chunk_7(),
{
    let ghost o = rview(v@);
    push_range(v, '\u{1D7D}', '\u{1D7D}');
    push_range(v, '\u{1D8E}', '\u{1D8E}');
    push_range(v, '\u{1E00}', '\u{1E9B}');
    push_range(v, '\u{1E9E}', '\u{1E9E}');
    push_range(v, '\u{1EA0}', '\u{1F15}');
    push_range(v, '\u{1F18}', '\u{1F1D}');
    push_range(v, '\u{1F20}', '\u{1F45}');
    push_range(v, '\u{1F48}', '\u{1F4D}');
    assert(rview(v@) =~= o + changes_when_casemapped_chunk_7());
}

fn push_changes_when_casemapped_chunk_8(v: &mut Vec<ClassUnicodeRange>)
    ensures
        rview(final(v)@) == rview(old(v)@) + changes_when_casemapped_chunk_8(),
{
    let ghost o = rview(v@);
    push_range(v, '\u{1F50}', '\u{1F57}');
    push_range(v, '\u{1F59}', '\u{1F59}');
    push_range(v, '\u{1F5B}', '\u{1F5B}');
    push_range(v, '\u{1F5D}', '\u{1F5D}');
    push_range(v, '\u{1F5F}', '\u{1F7D}');
    push_range(v, '\u{1F80}', '\u{1FB4}');
    push_range(v, '\u{1FB6}', '\u{1FBC}');
    push_range(v, '\u{1FBE}', '\u{1FBE}');
    assert(rview(v@) =~= o + changes_when_casemapped_chunk_8());
}

fn push_changes_when_casemapped_chunk_9(v: &mut Vec<ClassUnicodeRange>)
    ensures
        rview(final(v)@) == rview(old(v)@) + changes_when_casemapped_chunk_9(),
{
    let ghost o = rview(v@);
    push_range(v, '\u{1FC2}', '\u{1FC4}');
    push_range(v, '\u{1FC6}', '\u{1FCC}');
    push_range(v, '\u{1FD0}', '\u{1FD3}');
    push_range(v, '\u{1FD6}', '\u{1FDB}');
    push_range(v, '\u{1FE0}', '\u{1FEC}');
    push_range(v, '\u{1FF2}', '\u{1FF4}');
    push_range(v, '\u{1FF6}', '\u{1FFC}');
    push_range(v, '\u{2126}', '\u{2126}');
    assert(rview(v@) =~= o + changes_when_casemapped_chunk_9());
}

fn push_changes_when_casemapped_chunk_10(v: &mut Vec<ClassUnicodeRange>)
    ensures
        rview(final(v)@) == rview(old(v)@) + changes_when_casemapped_chunk_10(),
{
    let ghost o = rview(v@);
    push_range(v, '\u{212A}', '\u{212B}');
    push_range(v, '\u{2132}', '\u{2132}');
    push_range(v, '\u{214E}', '\u{214E}');
    push_range(v, '\u{2160}', '\u{217F}');
    push_range(v, '\u{2183}', '\u{2184}');
    push_range(v, '\u{24B6}', '\u{24E9}');
    push_range(v, '\u{2C00}', '\u{2C70}');
    push_range(v, '\u{2C72}', '\u{2C73}');
    assert(rview(v@) =~= o + changes_when_casemapped_chunk_10());
}

fn push_changes_when_casemapped_chunk_11(v: &mut Vec<ClassUnicodeRange>)
    ensures
        rview(final(v)@) == rview(old(v)@) + changes_when_casemapped_chunk_11(),
{
    let ghost o = rview(v@);
    push_range(v, '\u{2C75}', '\u{2C76}');
    push_range(v, '\u{2C7E}', '\u{2CE3}');
    push_range(v, '\u{2CEB}', '\u{2CEE}');
    push_range(v, '\u{2CF2}', '\u{2CF3}');
    push_range(v, '\u{2D00}', '\u{2D25}');
    push_range(v, '\u{2D27}', '\u{2D27}');
    push_range(v, '\u{2D2D}', '\u{2D2D}');
    push_range(v, '\u{A640}', '\u{A66D}');
    assert(rview(v@) =~= o + changes_when_casemapped_chunk_11());
}

fn push_changes_when_casemapped_chunk_12(v: &mut Vec<ClassUnicodeRange>)
    ensures
        rview(final(v)@) == rview(old(v)@) + changes_when_casemapped_chunk_12(),
{
    let ghost o = rview(v@);
    push_range(v, '\u{A680}', '\u{A69B}');
    push_range(v, '\u{A722}', '\u{A72F}');
    push_range(v, '\u{A732}', '\u{A76F}');
    push_range(v, '\u{A779}', '\u{A787}');
    push_range(v, '\u{A78B}', '\u{A78D}');
    push_range(v, '\u{A790}', '\u{A794}');
    push_range(v, '\u{A796}', '\u{A7AE}');
    push_range(v, '\u{A7B0}', '\u{A7CD}');
    assert(rview(v@) =~= o + changes_when_casemapped_chunk_12());
}

fn push_changes_when_casemapped_chunk_13(v: &mut Vec<ClassUnicodeRange>)
    ensures
        rview(final(v)@) == rview(old(v)@) + changes_when_casemapped_chunk_13(),
{
    let ghost o = rview(v@);
    push_range(v, '\u{A7D0}', '\u{A7D1}');
    push_range(v, '\u{A7D6}', '\u{A7DC}');
    push_range(v, '\u{A7F5}', '\u{A7F6}');
    push_range(v, '\u{AB53}', '\u{AB53}');
    push_range(v, '\u{AB70}', '\u{ABBF}');
    push_range(v, '\u{FB00}', '\u{FB06}');
    push_range(v, '\u{FB13}', '\u{FB17}');
    push_range(v, '\u{FF21}', '\u{FF3A}');
    assert(rview(v@) =~= o + changes_when_casemapped_chunk_13());
}

fn push_changes_when_casemapped_chunk_14(v: &mut Vec<ClassUnicodeRange>)
    ensures
        rview(final(v)@) == rview(old(v)@) + changes_when_casemapped_chunk_14(),
{
    let ghost o = rview(v@);
    push_range(v, '\u{FF41}', '\u{FF5A}');
    push_range(v, '\u{10400}', '\u{1044F}');
    push_range(v, '\u{104B0}', '\u{104D3}');
    push_range(v, '\u{104D8}', '\u{104FB}');
    push_range(v, '\u{10570}', '\u{1057A}');
    push_range(v, '\u{1057C}', '\u{1058A}');
    push_range(v, '\u{1058C}', '\u{10592}');
    push_range(v, '\u{10594}', '\u{10595}');
    assert(rview(v@) =~= o + changes_when_casemapped_chunk_14());
}

fn push_changes_when_casemapped_chunk_15(v: &mut Vec<ClassUnicodeRange>)
    ensures
        rview(final(v)@) == rview(old(v)@) + changes_when_casemapped_chunk_15(),
{
    let ghost o = rview(v@);
    push_range(v, '\u{10597}', '\u{105A1}');
    push_range(v, '\u{105A3}', '\u{105B1}');
    push_range(v, '\u{105B3}', '\u{105B9}');
    push_range(v, '\u{105BB}', '\u{105BC}');
    push_range(v, '\u{10C80}', '\u{10CB2}');
    push_range(v, '\u{10CC0}', '\u{10CF2}');
    push_range(v, '\u{10D50}', '\u{10D65}');
    push_range(v, '\u{10D70}', '\u{10D85}');
    assert(rview(v@) =~= o + changes_when_casemapped_chunk_15());
}

fn push_changes_when_casemapped_chunk_16(v: &mut Vec<ClassUnicodeRange>)
    ensures
        rview(final(v)@) == rview(old(v)@) + changes_when_casemapped_chunk_16(),
{
    let ghost o = rview(v@);
    push_range(v, '\u{118A0}', '\u{118DF}');
    push_range(v, '\u{16E40}', '\u{16E7F}');
    push_range(v, '\u{1E900}', '\u{1E943}');
    assert(rview(v@) =~= o + changes_when_casemapped_chunk_16());
}

fn push_changes_when_casemapped_block_0(v: &mut Vec<ClassUnicodeRange>)
    ensures
        rview(final(v)@) == rview(old(v)@) + changes_when_casemapped_block_0(),
{
    let ghost o = rview(v@);
    push_changes_when_casemapped_chunk_0(v);
    assert(rview(v@) =~= o + (changes_when_casemapped_chunk_0()));
    push_changes_when_casemapped_chunk_1(v);
    assert(rview(v@) =~= o + (changes_when_casemapped_chunk_0() + changes_when_casemapped_chunk_1()));
    push_changes_when_casemapped_chunk_2(v);
    assert(rview(v@) =~= o + (changes_when_casemapped_chunk_0() + changes_when_casemapped_chunk_1() + changes_when_casemapped_chunk_2()));
    push_changes_when_casemapped_chunk_3(v);
    assert(rview(v@) =~= o + (changes_when_casemapped_chunk_0() + changes_when_casemapped_chunk_1() + changes_when_casemapped_chunk_2() + changes_when_casemapped_chunk_3()));
    push_changes_when_casemapped_chunk_4(v);
    assert(rview(v@) =~= o + (changes_when_casemapped_chunk_0() + changes_when_casemapped_chunk_1() + changes_when_casemapped_chunk_2() + changes_when_casemapped_chunk_3() + changes_when_casemapped_chunk_4()));
    push_changes_when_casemapped_chunk_5(v);
    assert(rview(v@) =~= o + (changes_when_casemapped_chunk_0() + changes_when_casemapped_chunk_1() + changes_when_casemapped_chunk_2() + changes_when_casemapped_chunk_3() + changes_when_casemapped_chunk_4() + changes_when_casemapped_chunk_5()));
    push_changes_when_casemapped_chunk_6(v);
    assert(rview(v@) =~= o + (changes_when_casemapped_chunk_0() + changes_when_casemapped_chunk_1() + changes_when_casemapped_chunk_2() + changes_when_casemapped_chunk_3() + changes_when_casemapped_chunk_4() + changes_when_casemapped_chunk_5() + changes_when_casemapped_chunk_6()));
    push_changes_when_casemapped_chunk_7(v);
    assert(rview(v@) =~= o + (changes_when_casemapped_chunk_0() + changes_when_casemapped_chunk_1() + changes_when_casemapped_chunk_2() + changes_when_casemapped_chunk_3() + changes_when_casemapped_chunk_4() + changes_when_casemapped_chunk_5() + changes_when_casemapped_chunk_6() + changes_when_casemapped_chunk_7()));
    push_changes_when_casemapped_chunk_8(v);
    assert(rview(v@) =~= o + (changes_when_casemapped_chunk_0() + changes_when_casemapped_chunk_1() + changes_when_casemapped_chunk_2() + changes_when_casemapped_chunk_3() + changes_when_casemapped_chunk_4() + changes_when_casemapped_chunk_5() + changes_when_casemapped_chunk_6() + changes_when_casemapped_chunk_7() + changes_when_casemapped_chunk_8()));
    push_changes_when_casemapped_chunk_9(v);
    assert(rview(v@) =~= o + (changes_when_casemapped_chunk_0() + changes_when_casemapped_chunk_1() + changes_when_casemapped_chunk_2() + changes_when_casemapped_chunk_3() + changes_when_casemapped_chunk_4() + changes_when_casemapped_chunk_5() + changes_when_casemapped_chunk_6() + changes_when_casemapped_chunk_7() + changes_when_casemapped_chunk_8() + changes_when_casemapped_chunk_9()));
}

fn push_changes_when_casemapped_block_1(v: &mut Vec<ClassUnicodeRange>)
    ensures
        rview(final(v)@) == rview(old(v)@) + changes_when_casemapped_block_1(),
{
    let ghost o = rview(v@);
    push_changes_when_casemapped_chunk_10(v);
    assert(rview(v@) =~= o + (changes_when_casemapped_chunk_10()));
    push_changes_when_casemapped_chunk_11(v);
    assert(rview(v@) =~= o + (changes_when_casemapped_chunk_10() + changes_when_casemapped_chunk_11()));
    push_changes_when_casemapped_chunk_12(v);
    assert(rview(v@) =~= o + (changes_when_casemapped_chunk_10() + changes_when_casemapped_chunk_11() + changes_when_casemapped_chunk_12()));
    push_changes_when_casemapped_chunk_13(v);
    assert(rview(v@) =~= o + (changes_when_casemapped_chunk_10() + changes_when_casemapped_chunk_11() + changes_when_casemapped_chunk_12() + changes_when_casemapped_chunk_13()));
    push_changes_when_casemapped_chunk_14(v);
    assert(rview(v@) =~= o + (changes_when_casemapped_chunk_10() + changes_when_casemapped_chunk_11() + changes_when_casemapped_chunk_12() + changes_when_casemapped_chunk_13() + changes_when_casemapped_chunk_14()));
    push_changes_when_casemapped_chunk_15(v);
    assert(rview(v@) =~= o + (changes_when_casemapped_chunk_10() + changes_when_casemapped_chunk_11() + changes_when_casemapped_chunk_12() + changes_when_casemapped_chunk_13() + changes_when_casemapped_chunk_14() + changes_when_casemapped_chunk_15()));
    push_changes_when_casemapped_chunk_16(v);
    assert(rview(v@) =~= o + (changes_when_casemapped_chunk_10() + changes_when_casemapped_chunk_11() + changes_when_casemapped_chunk_12() + changes_when_casemapped_chunk_13() + changes_when_casemapped_chunk_14() + changes_when_casemapped_chunk_15() + changes_when_casemapped_chunk_16()));
}

pub fn changes_when_casemapped_class() -> (v: Vec<ClassUnicodeRange>)
    ensures
        rview(v@) == changes_when_casemapped_ranges(),
{
    let mut v: Vec<ClassUnicodeRange> = Vec::new();
    assert(rview(v@) =~= Seq::<SRange>::empty());
    push_changes_when_casemapped_block_0(&mut v);
    assert(rview(v@) =~= changes_when_casemapped_block_0());
    push_changes_when_casemapped_block_1(&mut v);
    assert(rview(v@) =~= changes_when_casemapped_block_0() + changes_when_casemapped_block_1());
    v
}

pub open spec fn changes_when_lowercased_chunk_0() -> Seq<SRange> {
    seq![(0x41int, 0x5Aint), (0xC0int, 0xD6int), (0xD8int, 0xDEint), (0x100int, 0x100int), (0x102int, 0x102int), (0x104int, 0x104int), (0x106int, 0x106int), (0x108int, 0x108int)]
}

pub open spec fn changes_when_lowercased_chunk_1() -> Seq<SRange> {
    seq![(0x10Aint, 0x10Aint), (0x10Cint, 0x10Cint), (0x10Eint, 0x10Eint), (0x110int, 0x110int), (0x112int, 0x112int), (0x114int, 0x114int), (0x116int, 0x116int), (0x118int, 0x118int)]
}

pub open spec fn changes_when_lowercased_chunk_2() -> Seq<SRange> {
    seq![(0x11Aint, 0x11Aint), (0x11Cint, 0x11Cint), (0x11Eint, 0x11Eint), (0x120int, 0x120int), (0x122int, 0x122int), (0x124int, 0x124int), (0x126int, 0x126int), (0x128int, 0x128int)]
}

pub open spec fn changes_when_lowercased_chunk_3() -> Seq<SRange> {
    seq![(0x12Aint, 0x12Aint), (0x12Cint, 0x12Cint), (0x12Eint, 0x12Eint), (0x130int, 0x130int), (0x132int, 0x132int), (0x134int, 0x134int), (0x136int, 0x136int), (0x139int, 0x139int)]
}

pub open spec fn changes_when_lowercased_chunk_4() -> Seq<SRange> {
    seq![(0x13Bint, 0x13Bint), (0x13Dint, 0x13Dint), (0x13Fint, 0x13Fint), (0x141int, 0x141int), (0x143int, 0x143int), (0x145int, 0x145int), (0x147int, 0x147int), (0x14Aint, 0x14Aint)]
}

pub open spec fn changes_when_lowercased_chunk_5() -> Seq<SRange> {
    seq![(0x14Cint, 0x14Cint), (0x14Eint, 0x14Eint), (0x150int, 0x150int), (0x152int, 0x152int), (0x154int, 0x154int), (0x156int, 0x156int), (0x158int, 0x158int), (0x15Aint, 0x15Aint)]
}

pub open spec fn changes_when_lowercased_chunk_6() -> Seq<SRange> {
    seq![(0x15Cint, 0x15Cint), (0x15Eint, 0x15Eint), (0x160int, 0x160int), (0x162int, 0x162int), (0x164int, 0x164int), (0x166int, 0x166int), (0x168int, 0x168int), (0x16Aint, 0x16Aint)]
}

pub open spec fn changes_when_lowercased_chunk_7() -> Seq<SRange> {
    seq![(0x16Cint, 0x16Cint), (0x16Eint, 0x16Eint), (0x170int, 0x170int), (0x172int, 0x172int), (0x174int, 0x174int), (0x176int, 0x176int), (0x178int, 0x179int), (0x17Bint, 0x17Bint)]
}

pub open spec fn changes_when_lowercased_chunk_8() -> Seq<SRange> {
    seq![(0x17Dint, 0x17Dint), (0x181int, 0x182int), (0x184int, 0x184int), (0x186int, 0x187int), (0x189int, 0x18Bint), (0x18Eint, 0x191int), (0x193int, 0x194int), (0x196int, 0x198int)]
}

pub open spec fn changes_when_lowercased_chunk_9() -> Seq<SRange> {
    seq![(0x19Cint, 0x19Dint), (0x19Fint, 0x1A0int), (0x1A2int, 0x1A2int), (0x1A4int, 0x1A4int), (0x1A6int, 0x1A7int), (0x1A9int, 0x1A9int), (0x1ACint, 0x1ACint), (0x1AEint, 0x1AFint)]
}

pub open spec fn changes_when_lowercased_chunk_10() -> Seq<SRange> {
    seq![(0x1B1int, 0x1B3int), (0x1B5int, 0x1B5int), (0x1B7int, 0x1B8int), (0x1BCint, 0x1BCint), (0x1C4int, 0x1C5int), (0x1C7int, 0x1C8int), (0x1CAint, 0x1CBint), (0x1CDint, 0x1CDint)]
}

pub open spec fn changes_when_lowercased_chunk_11() -> Seq<SRange> {
    seq![(0x1CFint, 0x1CFint), (0x1D1int, 0x1D1int), (0x1D3int, 0x1D3int), (0x1D5int, 0x1D5int), (0x1D7int, 0x1D7int), (0x1D9int, 0x1D9int), (0x1DBint, 0x1DBint), (0x1DEint, 0x1DEint)]
}

pub open spec fn changes_when_lowercased_chunk_12() -> Seq<SRange> {
    seq![(0x1E0int, 0x1E0int), (0x1E2int, 0x1E2int), (0x1E4int, 0x1E4int), (0x1E6int, 0x1E6int), (0x1E8int, 0x1E8int), (0x1EAint, 0x1EAint), (0x1ECint, 0x1ECint), (0x1EEint, 0x1EEint)]
}

pub open spec fn changes_when_lowercased_chunk_13() -> Seq<SRange> {
    seq![(0x1F1int, 0x1F2int), (0x1F4int, 0x1F4int), (0x1F6int, 0x1F8int), (0x1FAint, 0x1FAint), (0x1FCint, 0x1FCint), (0x1FEint, 0x1FEint), (0x200int, 0x200int), (0x202int, 0x202int)]
}

pub open spec fn changes_when_lowercased_chunk_14() -> Seq<SRange> {
    seq![(0x204int, 0x204int), (0x206int, 0x206int), (0x208int, 0x208int), (0x20Aint, 0x20Aint), (0x20Cint, 0x20Cint), (0x20Eint, 0x20Eint), (0x210int, 0x210int), (0x212int, 0x212int)]
}

pub open spec fn changes_when_lowercased_chunk_15() -> Seq<SRange> {
    seq![(0x214int, 0x214int), (0x216int, 0x216int), (0x218int, 0x218int), (0x21Aint, 0x21Aint), (0x21Cint, 0x21Cint), (0x21Eint, 0x21Eint), (0x220int, 0x220int), (0x222int, 0x222int)]
}

pub open spec fn changes_when_lowercased_chunk_16() -> Seq<SRange> {
    seq![(0x224int, 0x224int), (0x226int, 0x226int), (0x228int, 0x228int), (0x22Aint, 0x22Aint), (0x22Cint, 0x22Cint), (0x22Eint, 0x22Eint), (0x230int, 0x230int), (0x232int, 0x232int)]
}

pub open spec fn changes_when_lowercased_chunk_17() -> Seq<SRange> {
    seq![(0x23Aint, 0x23Bint), (0x23Dint, 0x23Eint), (0x241int, 0x241int), (0x243int, 0x246int), (0x248int, 0x248int), (0x24Aint, 0x24Aint), (0x24Cint, 0x24Cint), (0x24Eint, 0x24Eint)]
}

pub open spec fn changes_when_lowercased_chunk_18() -> Seq<SRange> {
    seq![(0x370int, 0x370int), (0x372int, 0x372int), (0x376int, 0x376int), (0x37Fint, 0x37Fint), (0x386int, 0x386int), (0x388int, 0x38Aint), (0x38Cint, 0x38Cint), (0x38Eint, 0x38Fint)]
}

pub open spec fn changes_when_lowercased_chunk_19() -> Seq<SRange> {
    seq![(0x391int, 0x3A1int), (0x3A3int, 0x3ABint), (0x3CFint, 0x3CFint), (0x3D8int, 0x3D8int), (0x3DAint, 0x3DAint), (0x3DCint, 0x3DCint), (0x3DEint, 0x3DEint), (0x3E0int, 0x3E0int)]
}

pub open spec fn changes_when_lowercased_chunk_20() -> Seq<SRange> {
    seq![(0x3E2int, 0x3E2int), (0x3E4int, 0x3E4int), (0x3E6int, 0x3E6int), (0x3E8int, 0x3E8int), (0x3EAint, 0x3EAint), (0x3ECint, 0x3ECint), (0x3EEint, 0x3EEint), (0x3F4int, 0x3F4int)]
}

pub open spec fn changes_when_lowercased_chunk_21() -> Seq<SRange> {
    seq![(0x3F7int, 0x3F7int), (0x3F9int, 0x3FAint), (0x3FDint, 0x42Fint), (0x460int, 0x460int), (0x462int, 0x462int), (0x464int, 0x464int), (0x466int, 0x466int), (0x468int, 0x468int)]
}

pub open spec fn changes_when_lowercased_chunk_22() -> Seq<SRange> {
    seq![(0x46Aint, 0x46Aint), (0x46Cint, 0x46Cint), (0x46Eint, 0x46Eint), (0x470int, 0x470int), (0x472int, 0x472int), (0x474int, 0x474int), (0x476int, 0x476int), (0x478int, 0x478int)]
}

pub open spec fn changes_when_lowercased_chunk_23() -> Seq<SRange> {
    seq![(0x47Aint, 0x47Aint), (0x47Cint, 0x47Cint), (0x47Eint, 0x47Eint), (0x480int, 0x480int), (0x48Aint, 0x48Aint), (0x48Cint, 0x48Cint), (0x48Eint, 0x48Eint), (0x490int, 0x490int)]
}

pub open spec fn changes_when_lowercased_chunk_24() -> Seq<SRange> {
    seq![(0x492int, 0x492int), (0x494int, 0x494int), (0x496int, 0x496int), (0x498int, 0x498int), (0x49Aint, 0x49Aint), (0x49Cint, 0x49Cint), (0x49Eint, 0x49Eint), (0x4A0int, 0x4A0int)]
}

pub open spec fn changes_when_lowercased_chunk_25() -> Seq<SRange> {
    seq![(0x4A2int, 0x4A2int), (0x4A4int, 0x4A4int), (0x4A6int, 0x4A6int), (0x4A8int, 0x4A8int), (0x4AAint, 0x4AAint), (0x4ACint, 0x4ACint), (0x4AEint, 0x4AEint), (0x4B0int, 0x4B0int)]
}

pub open spec fn changes_when_lowercased_chunk_26() -> Seq<SRange> {
    seq![(0x4B2int, 0x4B2int), (0x4B4int, 0x4B4int), (0x4B6int, 0x4B6int), (0x4B8int, 0x4B8int), (0x4BAint, 0x4BAint), (0x4BCint, 0x4BCint), (0x4BEint, 0x4BEint), (0x4C0int, 0x4C1int)]
}

pub open spec fn changes_when_lowercased_chunk_27() -> Seq<SRange> {
    seq![(0x4C3int, 0x4C3int), (0x4C5int, 0x4C5int), (0x4C7int, 0x4C7int), (0x4C9int, 0x4C9int), (0x4CBint, 0x4CBint), (0x4CDint, 0x4CDint), (0x4D0int, 0x4D0int), (0x4D2int, 0x4D2int)]
}

pub open spec fn changes_when_lowercased_chunk_28() -> Seq<SRange> {
    seq![(0x4D4int, 0x4D4int), (0x4D6int, 0x4D6int), (0x4D8int, 0x4D8int), (0x4DAint, 0x4DAint), (0x4DCint, 0x4DCint), (0x4DEint, 0x4DEint), (0x4E0int, 0x4E0int), (0x4E2int, 0x4E2int)]
}

pub open spec fn changes_when_lowercased_chunk_29() -> Seq<SRange> {
    seq![(0x4E4int, 0x4E4int), (0x4E6int, 0x4E6int), (0x4E8int, 0x4E8int), (0x4EAint, 0x4EAint), (0x4ECint, 0x4ECint), (0x4EEint, 0x4EEint), (0x4F0int, 0x4F0int), (0x4F2int, 0x4F2int)]
}

pub open spec fn changes_when_lowercased_chunk_30() -> Seq<SRange> {
    seq![(0x4F4int, 0x4F4int), (0x4F6int, 0x4F6int), (0x4F8int, 0x4F8int), (0x4FAint, 0x4FAint), (0x4FCint, 0x4FCint), (0x4FEint, 0x4FEint), (0x500int, 0x500int), (0x502int, 0x502int)]
}

pub open spec fn changes_when_lowercased_chunk_31() -> Seq<SRange> {
    seq![(0x504int, 0x504int), (0x506int, 0x506int), (0x508int, 0x508int), (0x50Aint, 0x50Aint), (0x50Cint, 0x50Cint), (0x50Eint, 0x50Eint), (0x510int, 0x510int), (0x512int, 0x512int)]
}

pub open spec fn changes_when_lowercased_chunk_32() -> Seq<SRange> {
    seq![(0x514int, 0x514int), (0x516int, 0x516int), (0x518int, 0x518int), (0x51Aint, 0x51Aint), (0x51Cint, 0x51Cint), (0x51Eint, 0x51Eint), (0x520int, 0x520int), (0x522int, 0x522int)]
}

pub open spec fn changes_when_lowercased_chunk_33() -> Seq<SRange> {
    seq![(0x524int, 0x524int), (0x526int, 0x526int), (0x528int, 0x528int), (0x52Aint, 0x52Aint), (0x52Cint, 0x52Cint), (0x52Eint, 0x52Eint), (0x531int, 0x556int), (0x10A0int, 0x10C5int)]
}

pub open spec fn changes_when_lowercased_chunk_34() -> Seq<SRange> {
    seq![(0x10C7int, 0x10C7int), (0x10CDint, 0x10CDint), (0x13A0int, 0x13F5int), (0x1C89int, 0x1C89int), (0x1C90int, 0x1CBAint), (0x1CBDint, 0x1CBFint), (0x1E00int, 0x1E00int), (0x1E02int, 0x1E02int)]
}

pub open spec fn changes_when_lowercased_chunk_35() -> Seq<SRange> {
    seq![(0x1E04int, 0x1E04int), (0x1E06int, 0x1E06int), (0x1E08int, 0x1E08int), (0x1E0Aint, 0x1E0Aint), (0x1E0Cint, 0x1E0Cint), (0x1E0Eint, 0x1E0Eint), (0x1E10int, 0x1E10int), (0x1E12int, 0x1E12int)]
}

pub open spec fn changes_when_lowercased_chunk_36() -> Seq<SRange> {
    seq![(0x1E14int, 0x1E14int), (0x1E16int, 0x1E16int), (0x1E18int, 0x1E18int), (0x1E1Aint, 0x1E1Aint), (0x1E1Cint, 0x1E1Cint), (0x1E1Eint, 0x1E1Eint), (0x1E20int, 0x1E20int), (0x1E22int, 0x1E22int)]
}

pub open spec fn changes_when_lowercased_chunk_37() -> Seq<SRange> {
    seq![(0x1E24int, 0x1E24int), (0x1E26int, 0x1E26int), (0x1E28int, 0x1E28int), (0x1E2Aint, 0x1E2Aint), (0x1E2Cint, 0x1E2Cint), (0x1E2Eint, 0x1E2Eint), (0x1E30int, 0x1E30int), (0x1E32int, 0x1E32int)]
}

pub open spec fn changes_when_lowercased_chunk_38() -> Seq<SRange> {
    seq![(0x1E34int, 0x1E34int), (0x1E36int, 0x1E36int), (0x1E38int, 0x1E38int), (0x1E3Aint, 0x1E3Aint), (0x1E3Cint, 0x1E3Cint), (0x1E3Eint, 0x1E3Eint), (0x1E40int, 0x1E40int), (0x1E42int, 0x1E42int)]
}

pub open spec fn changes_when_lowercased_chunk_39() -> Seq<SRange> {
    seq![(0x1E44int, 0x1E44int), (0x1E46int, 0x1E46int), (0x1E48int, 0x1E48int), (0x1E4Aint, 0x1E4Aint), (0x1E4Cint, 0x1E4Cint), (0x1E4Eint, 0x1E4Eint), (0x1E50int, 0x1E50int), (0x1E52int, 0x1E52int)]
}

pub open spec fn changes_when_lowercased_chunk_40() -> Seq<SRange> {
    seq![(0x1E54int, 0x1E54int), (0x1E56int, 0x1E56int), (0x1E58int, 0x1E58int), (0x1E5Aint, 0x1E5Aint), (0x1E5Cint, 0x1E5Cint), (0x1E5Eint, 0x1E5Eint), (0x1E60int, 0x1E60int), (0x1E62int, 0x1E62int)]
}

pub open spec fn changes_when_lowercased_chunk_41() -> Seq<SRange> {
    seq![(0x1E64int, 0x1E64int), (0x1E66int, 0x1E66int), (0x1E68int, 0x1E68int), (0x1E6Aint, 0x1E6Aint), (0x1E6Cint, 0x1E6Cint), (0x1E6Eint, 0x1E6Eint), (0x1E70int, 0x1E70int), (0x1E72int, 0x1E72int)]
}

pub open spec fn changes_when_lowercased_chunk_42() -> Seq<SRange> {
    seq![(0x1E74int, 0x1E74int), (0x1E76int, 0x1E76int), (0x1E78int, 0x1E78int), (0x1E7Aint, 0x1E7Aint), (0x1E7Cint, 0x1E7Cint), (0x1E7Eint, 0x1E7Eint), (0x1E80int, 0x1E80int), (0x1E82int, 0x1E82int)]
}

pub open spec fn changes_when_lowercased_chunk_43() -> Seq<SRange> {
    seq![(0x1E84int, 0x1E84int), (0x1E86int, 0x1E86int), (0x1E88int, 0x1E88int), (0x1E8Aint, 0x1E8Aint), (0x1E8Cint, 0x1E8Cint), (0x1E8Eint, 0x1E8Eint), (0x1E90int, 0x1E90int), (0x1E92int, 0x1E92int)]
}

pub open spec fn changes_when_lowercased_chunk_44() -> Seq<SRange> {
    seq![(0x1E94int, 0x1E94int), (0x1E9Eint, 0x1E9Eint), (0x1EA0int, 0x1EA0int), (0x1EA2int, 0x1EA2int), (0x1EA4int, 0x1EA4int), (0x1EA6int, 0x1EA6int), (0x1EA8int, 0x1EA8int), (0x1EAAint, 0x1EAAint)]
}

pub open spec fn changes_when_lowercased_chunk_45() -> Seq<SRange> {
    seq![(0x1EACint, 0x1EACint), (0x1EAEint, 0x1EAEint), (0x1EB0int, 0x1EB0int), (0x1EB2int, 0x1EB2int), (0x1EB4int, 0x1EB4int), (0x1EB6int, 0x1EB6int), (0x1EB8int, 0x1EB8int), (0x1EBAint, 0x1EBAint)]
}

pub open spec fn changes_when_lowercased_chunk_46() -> Seq<SRange> {
    seq![(0x1EBCint, 0x1EBCint), (0x1EBEint, 0x1EBEint), (0x1EC0int, 0x1EC0int), (0x1EC2int, 0x1EC2int), (0x1EC4int, 0x1EC4int), (0x1EC6int, 0x1EC6int), (0x1EC8int, 0x1EC8int), (0x1ECAint, 0x1ECAint)]
}

pub open spec fn changes_when_lowercased_chunk_47() -> Seq<SRange> {
    seq![(0x1ECCint, 0x1ECCint), (0x1ECEint, 0x1ECEint), (0x1ED0int, 0x1ED0int), (0x1ED2int, 0x1ED2int), (0x1ED4int, 0x1ED4int), (0x1ED6int, 0x1ED6int), (0x1ED8int, 0x1ED8int), (0x1EDAint, 0x1EDAint)]
}

pub open spec fn changes_when_lowercased_chunk_48() -> Seq<SRange> {
    seq![(0x1EDCint, 0x1EDCint), (0x1EDEint, 0x1EDEint), (0x1EE0int, 0x1EE0int), (0x1EE2int, 0x1EE2int), (0x1EE4int, 0x1EE4int), (0x1EE6int, 0x1EE6int), (0x1EE8int, 0x1EE8int), (0x1EEAint, 0x1EEAint)]
}

pub open spec fn changes_when_lowercased_chunk_49() -> Seq<SRange> {
    seq![(0x1EECint, 0x1EECint), (0x1EEEint, 0x1EEEint), (0x1EF0int, 0x1EF0int), (0x1EF2int, 0x1EF2int), (0x1EF4int, 0x1EF4int), (0x1EF6int, 0x1EF6int), (0x1EF8int, 0x1EF8int), (0x1EFAint, 0x1EFAint)]
}

pub open spec fn changes_when_lowercased_chunk_50() -> Seq<SRange> {
    seq![(0x1EFCint, 0x1EFCint), (0x1EFEint, 0x1EFEint), (0x1F08int, 0x1F0Fint), (0x1F18int, 0x1F1Dint), (0x1F28int, 0x1F2Fint), (0x1F38int, 0x1F3Fint), (0x1F48int, 0x1F4Dint), (0x1F59int, 0x1F59int)]
}

pub open spec fn changes_when_lowercased_chunk_51() -> Seq<SRange> {
    seq![(0x1F5Bint, 0x1F5Bint), (0x1F5Dint, 0x1F5Dint), (0x1F5Fint, 0x1F5Fint), (0x1F68int, 0x1F6Fint), (0x1F88int, 0x1F8Fint), (0x1F98int, 0x1F9Fint), (0x1FA8int, 0x1FAFint), (0x1FB8int, 0x1FBCint)]
}

pub open spec fn changes_when_lowercased_chunk_52() -> Seq<SRange> {
    seq![(0x1FC8int, 0x1FCCint), (0x1FD8int, 0x1FDBint), (0x1FE8int, 0x1FECint), (0x1FF8int, 0x1FFCint), (0x2126int, 0x2126int), (0x212Aint, 0x212Bint), (0x2132int, 0x2132int), (0x2160int, 0x216Fint)]
}

pub open spec fn changes_when_lowercased_chunk_53() -> Seq<SRange> {
    seq![(0x2183int, 0x2183int), (0x24B6int, 0x24CFint), (0x2C00int, 0x2C2Fint), (0x2C60int, 0x2C60int), (0x2C62int, 0x2C64int), (0x2C67int, 0x2C67int), (0x2C69int, 0x2C69int), (0x2C6Bint, 0x2C6Bint)]
}

pub open spec fn changes_when_lowercased_chunk_54() -> Seq<SRange> {
    seq![(0x2C6Dint, 0x2C70int), (0x2C72int, 0x2C72int), (0x2C75int, 0x2C75int), (0x2C7Eint, 0x2C80int), (0x2C82int, 0x2C82int), (0x2C84int, 0x2C84int), (0x2C86int, 0x2C86int), (0x2C88int, 0x2C88int)]
}

pub open spec fn changes_when_lowercased_chunk_55() -> Seq<SRange> {
    seq![(0x2C8Aint, 0x2C8Aint), (0x2C8Cint, 0x2C8Cint), (0x2C8Eint, 0x2C8Eint), (0x2C90int, 0x2C90int), (0x2C92int, 0x2C92int), (0x2C94int, 0x2C94int), (0x2C96int, 0x2C96int), (0x2C98int, 0x2C98int)]
}

pub open spec fn changes_when_lowercased_chunk_56() -> Seq<SRange> {
    seq![(0x2C9Aint, 0x2C9Aint), (0x2C9Cint, 0x2C9Cint), (0x2C9Eint, 0x2C9Eint), (0x2CA0int, 0x2CA0int), (0x2CA2int, 0x2CA2int), (0x2CA4int, 0x2CA4int), (0x2CA6int, 0x2CA6int), (0x2CA8int, 0x2CA8int)]
}

pub open spec fn changes_when_lowercased_chunk_57() -> Seq<SRange> {
    seq![(0x2CAAint, 0x2CAAint), (0x2CACint, 0x2CACint), (0x2CAEint, 0x2CAEint), (0x2CB0int, 0x2CB0int), (0x2CB2int, 0x2CB2int), (0x2CB4int, 0x2CB4int), (0x2CB6int, 0x2CB6int), (0x2CB8int, 0x2CB8int)]
}

pub open spec fn changes_when_lowercased_chunk_58() -> Seq<SRange> {
    seq![(0x2CBAint, 0x2CBAint), (0x2CBCint, 0x2CBCint), (0x2CBEint, 0x2CBEint), (0x2CC0int, 0x2CC0int), (0x2CC2int, 0x2CC2int), (0x2CC4int, 0x2CC4int), (0x2CC6int, 0x2CC6int), (0x2CC8int, 0x2CC8int)]
}

pub open spec fn changes_when_lowercased_chunk_59() -> Seq<SRange> {
    seq![(0x2CCAint, 0x2CCAint), (0x2CCCint, 0x2CCCint), (0x2CCEint, 0x2CCEint), (0x2CD0int, 0x2CD0int), (0x2CD2int, 0x2CD2int), (0x2CD4int, 0x2CD4int), (0x2CD6int, 0x2CD6int), (0x2CD8int, 0x2CD8int)]
}

pub open spec fn changes_when_lowercased_chunk_60() -> Seq<SRange> {
    seq![(0x2CDAint, 0x2CDAint), (0x2CDCint, 0x2CDCint), (0x2CDEint, 0x2CDEint), (0x2CE0int, 0x2CE0int), (0x2CE2int, 0x2CE2int), (0x2CEBint, 0x2CEBint), (0x2CEDint, 0x2CEDint), (0x2CF2int, 0x2CF2int)]
}

pub open spec fn changes_when_lowercased_chunk_61() -> Seq<SRange> {
    seq![(0xA640int, 0xA640int), (0xA642int, 0xA642int), (0xA644int, 0xA644int), (0xA646int, 0xA646int), (0xA648int, 0xA648int), (0xA64Aint, 0xA64Aint), (0xA64Cint, 0xA64Cint), (0xA64Eint, 0xA64Eint)]
}

pub open spec fn changes_when_lowercased_chunk_62() -> Seq<SRange> {
    seq![(0xA650int, 0xA650int), (0xA652int, 0xA652int), (0xA654int, 0xA654int), (0xA656int, 0xA656int), (0xA658int, 0xA658int), (0xA65Aint, 0xA65Aint), (0xA65Cint, 0xA65Cint), (0xA65Eint, 0xA65Eint)]
}

pub open spec fn changes_when_lowercased_chunk_63() -> Seq<SRange> {
    seq![(0xA660int, 0xA660int), (0xA662int, 0xA662int), (0xA664int, 0xA664int), (0xA666int, 0xA666int), (0xA668int, 0xA668int), (0xA66Aint, 0xA66Aint), (0xA66Cint, 0xA66Cint), (0xA680int, 0xA680int)]
}

pub open spec fn changes_when_lowercased_chunk_64() -> Seq<SRange> {
    seq![(0xA682int, 0xA682int), (0xA684int, 0xA684int), (0xA686int, 0xA686int), (0xA688int, 0xA688int), (0xA68Aint, 0xA68Aint), (0xA68Cint, 0xA68Cint), (0xA68Eint, 0xA68Eint), (0xA690int, 0xA690int)]
}

pub open spec fn changes_when_lowercased_chunk_65() -> Seq<SRange> {
    seq![(0xA692int, 0xA692int), (0xA694int, 0xA694int), (0xA696int, 0xA696int), (0xA698int, 0xA698int), (0xA69Aint, 0xA69Aint), (0xA722int, 0xA722int), (0xA724int, 0xA724int), (0xA726int, 0xA726int)]
}

pub open spec fn changes_when_lowercased_chunk_66() -> Seq<SRange> {
    seq![(0xA728int, 0xA728int), (0xA72Aint, 0xA72Aint), (0xA72Cint, 0xA72Cint), (0xA72Eint, 0xA72Eint), (0xA732int, 0xA732int), (0xA734int, 0xA734int), (0xA736int, 0xA736int), (0xA738int, 0xA738int)]
}

pub open spec fn changes_when_lowercased_chunk_67() -> Seq<SRange> {
    seq![(0xA73Aint, 0xA73Aint), (0xA73Cint, 0xA73Cint), (0xA73Eint, 0xA73Eint), (0xA740int, 0xA740int), (0xA742int, 0xA742int), (0xA744int, 0xA744int), (0xA746int, 0xA746int), (0xA748int, 0xA748int)]
}

pub open spec fn changes_when_lowercased_chunk_68() -> Seq<SRange> {
    seq![(0xA74Aint, 0xA74Aint), (0xA74Cint, 0xA74Cint), (0xA74Eint, 0xA74Eint), (0xA750int, 0xA750int), (0xA752int, 0xA752int), (0xA754int, 0xA754int), (0xA756int, 0xA756int), (0xA758int, 0xA758int)]
}

pub open spec fn changes_when_lowercased_chunk_69() -> Seq<SRange> {
    seq![(0xA75Aint, 0xA75Aint), (0xA75Cint, 0xA75Cint), (0xA75Eint, 0xA75Eint), (0xA760int, 0xA760int), (0xA762int, 0xA762int), (0xA764int, 0xA764int), (0xA766int, 0xA766int), (0xA768int, 0xA768int)]
}

pub open spec fn changes_when_lowercased_chunk_70() -> Seq<SRange> {
    seq![(0xA76Aint, 0xA76Aint), (0xA76Cint, 0xA76Cint), (0xA76Eint, 0xA76Eint), (0xA779int, 0xA779int), (0xA77Bint, 0xA77Bint), (0xA77Dint, 0xA77Eint), (0xA780int, 0xA780int), (0xA782int, 0xA782int)]
}

pub open spec fn changes_when_lowercased_chunk_71() -> Seq<SRange> {
    seq![(0xA784int, 0xA784int), (0xA786int, 0xA786int), (0xA78Bint, 0xA78Bint), (0xA78Dint, 0xA78Dint), (0xA790int, 0xA790int), (0xA792int, 0xA792int), (0xA796int, 0xA796int), (0xA798int, 0xA798int)]
}

pub open spec fn changes_when_lowercased_chunk_72() -> Seq<SRange> {
    seq![(0xA79Aint, 0xA79Aint), (0xA79Cint, 0xA79Cint), (0xA79Eint, 0xA79Eint), (0xA7A0int, 0xA7A0int), (0xA7A2int, 0xA7A2int), (0xA7A4int, 0xA7A4int), (0xA7A6int, 0xA7A6int), (0xA7A8int, 0xA7A8int)]
}

pub open spec fn changes_when_lowercased_chunk_73() -> Seq<SRange> {
    seq![(0xA7AAint, 0xA7AEint), (0xA7B0int, 0xA7B4int), (0xA7B6int, 0xA7B6int), (0xA7B8int, 0xA7B8int), (0xA7BAint, 0xA7BAint), (0xA7BCint, 0xA7BCint), (0xA7BEint, 0xA7BEint), (0xA7C0int, 0xA7C0int)]
}

pub open spec fn changes_when_lowercased_chunk_74() -> Seq<SRange> {
    seq![(0xA7C2int, 0xA7C2int), (0xA7C4int, 0xA7C7int), (0xA7C9int, 0xA7C9int), (0xA7CBint, 0xA7CCint), (0xA7D0int, 0xA7D0int), (0xA7D6int, 0xA7D6int), (0xA7D8int, 0xA7D8int), (0xA7DAint, 0xA7DAint)]
}

pub open spec fn changes_when_lowercased_chunk_75() -> Seq<SRange> {
    seq![(0xA7DCint, 0xA7DCint), (0xA7F5int, 0xA7F5int), (0xFF21int, 0xFF3Aint), (0x10400int, 0x10427int), (0x104B0int, 0x104D3int), (0x10570int, 0x1057Aint), (0x1057Cint, 0x1058Aint), (0x1058Cint, 0x10592int)]
}

pub open spec fn changes_when_lowercased_chunk_76() -> Seq<SRange> {
    seq![(0x10594int, 0x10595int), (0x10C80int, 0x10CB2int), (0x10D50int, 0x10D65int), (0x118A0int, 0x118BFint), (0x16E40int, 0x16E5Fint), (0x1E900int, 0x1E921int)]
}

pub open spec fn changes_when_lowercased_block_0() -> Seq<SRange> {
    changes_when_lowercased_chunk_0() + changes_when_lowercased_chunk_1() + changes_when_lowercased_chunk_2() + changes_when_lowercased_chunk_3() + changes_when_lowercased_chunk_4() + changes_when_lowercased_chunk_5() + changes_when_lowercased_chunk_6() + changes_when_lowercased_chunk_7() + changes_when_lowercased_chunk_8() + changes_when_lowercased_chunk_9()
}

pub open spec fn changes_when_lowercased_block_1() -> Seq<SRange> {
    changes_when_lowercased_chunk_10() + changes_when_lowercased_chunk_11() + changes_when_lowercased_chunk_12() + changes_when_lowercased_chunk_13() + changes_when_lowercased_chunk_14() + changes_when_lowercased_chunk_15() + changes_when_lowercased_chunk_16() + changes_when_lowercased_chunk_17() + changes_when_lowercased_chunk_18() + changes_when_lowercased_chunk_19()
}

pub open spec fn changes_when_lowercased_block_2() -> Seq<SRange> {
    changes_when_lowercased_chunk_20() + changes_when_lowercased_chunk_21() + changes_when_lowercased_chunk_22() + changes_when_lowercased_chunk_23() + changes_when_lowercased_chunk_24() + changes_when_lowercased_chunk_25() + changes_when_lowercased_chunk_26() + changes_when_lowercased_chunk_27() + changes_when_lowercased_chunk_28() + changes_when_lowercased_chunk_29()
}

pub open spec fn changes_when_lowercased_block_3() -> Seq<SRange> {
    changes_when_lowercased_chunk_30() + changes_when_lowercased_chunk_31() + changes_when_lowercased_chunk_32() + changes_when_lowercased_chunk_33() + changes_when_lowercased_chunk_34() + changes_when_lowercased_chunk_35() + changes_when_lowercased_chunk_36() + changes_when_lowercased_chunk_37() + changes_when_lowercased_chunk_38() + changes_when_lowercased_chunk_39()
}

pub open spec fn changes_when_lowercased_block_4() -> Seq<SRange> {
    changes_when_lowercased_chunk_40() + changes_when_lowercased_chunk_41() + changes_when_lowercased_chunk_42() + changes_when_lowercased_chunk_43() + changes_when_lowercased_chunk_44() + changes_when_lowercased_chunk_45() + changes_when_lowercased_chunk_46() + changes_when_lowercased_chunk_47() + changes_when_lowercased_chunk_48() + changes_when_lowercased_chunk_49()
}

pub open spec fn changes_when_lowercased_block_5() -> Seq<SRange> {
    changes_when_lowercased_chunk_50() + changes_when_lowercased_chunk_51() + changes_when_lowercased_chunk_52() + changes_when_lowercased_chunk_53() + changes_when_lowercased_chunk_54() + changes_when_lowercased_chunk_55() + changes_when_lowercased_chunk_56() + changes_when_lowercased_chunk_57() + changes_when_lowercased_chunk_58() + changes_when_lowercased_chunk_59()
}

pub open spec fn changes_when_lowercased_block_6() -> Seq<SRange> {
    changes_when_lowercased_chunk_60() + changes_when_lowercased_chunk_61() + changes_when_lowercased_chunk_62() + changes_when_lowercased_chunk_63() + changes_when_lowercased_chunk_64() + changes_when_lowercased_chunk_65() + changes_when_lowercased_chunk_66() + changes_when_lowercased_chunk_67() + changes_when_lowercased_chunk_68() + changes_when_lowercased_chunk_69()
}

pub open spec fn changes_when_lowercased_block_7() -> Seq<SRange> {
    changes_when_lowercased_chunk_70() + changes_when_lowercased_chunk_71() + changes_when_lowercased_chunk_72() + changes_when_lowercased_chunk_73() + changes_when_lowercased_chunk_74() + changes_when_lowercased_chunk_75() + changes_when_lowercased_chunk_76()
}

/// The ranges of the property Changes_When_Lowercased.
pub open spec fn changes_when_lowercased_ranges() -> Seq<SRange> {
    changes_when_lowercased_block_0() + changes_when_lowercased_block_1() + changes_when_lowercased_block_2() + changes_when_lowercased_block_3() + changes_when_lowercased_block_4() + changes_when_lowercased_block_5() + changes_when_lowercased_block_6() + changes_when_lowercased_block_7()
}

proof fn lemma_changes_when_lowercased_block_0()
    ensures
        canonical(changes_when_lowercased_block_0()),
        changes_when_lowercased_block_0().len() > 0,
        changes_when_lowercased_block_0()[0] == changes_when_lowercased_chunk_0()[0],
        changes_when_lowercased_block_0().last() == changes_when_lowercased_chunk_9().last(),
{
    reveal_with_fuel(canonical, 9);
    assert(canonical(changes_when_lowercased_chunk_0()));
    assert(canonical(changes_when_lowercased_chunk_1()));
    assert(canonical(changes_when_lowercased_chunk_2()));
    assert(canonical(changes_when_lowercased_chunk_3()));
    assert(canonical(changes_when_lowercased_chunk_4()));
    assert(canonical(changes_when_lowercased_chunk_5()));
    assert(canonical(changes_when_lowercased_chunk_6()));
    assert(canonical(changes_when_lowercased_chunk_7()));
    assert(canonical(changes_when_lowercased_chunk_8()));
    assert(canonical(changes_when_lowercased_chunk_9()));
    lemma_canonical_append(changes_when_lowercased_chunk_0(), changes_when_lowercased_chunk_1());
    lemma_canonical_append(changes_when_lowercased_chunk_0() + changes_when_lowercased_chunk_1(), changes_when_lowercased_chunk_2());
    lemma_canonical_append(changes_when_lowercased_chunk_0() + changes_when_lowercased_chunk_1() + changes_when_lowercased_chunk_2(), changes_when_lowercased_chunk_3());
    lemma_canonical_append(changes_when_lowercased_chunk_0() + changes_when_lowercased_chunk_1() + changes_when_lowercased_chunk_2() + changes_when_lowercased_chunk_3(), changes_when_lowercased_chunk_4());
    lemma_canonical_append(changes_when_lowercased_chunk_0() + changes_when_lowercased_chunk_1() + changes_when_lowercased_chunk_2() + changes_when_lowercased_chunk_3() + changes_when_lowercased_chunk_4(), changes_when_lowercased_chunk_5());
    lemma_canonical_append(changes_when_lowercased_chunk_0() + changes_when_lowercased_chunk_1() + changes_when_lowercased_chunk_2() + changes_when_lowercased_chunk_3() + changes_when_lowercased_chunk_4() + changes_when_lowercased_chunk_5(), changes_when_lowercased_chunk_6());
    lemma_canonical_append(changes_when_lowercased_chunk_0() + changes_when_lowercased_chunk_1() + changes_when_lowercased_chunk_2() + changes_when_lowercased_chunk_3() + changes_when_lowercased_chunk_4() + changes_when_lowercased_chunk_5() + changes_when_lowercased_chunk_6(), changes_when_lowercased_chunk_7());
    lemma_canonical_append(changes_when_lowercased_chunk_0() + changes_when_lowercased_chunk_1() + changes_when_lowercased_chunk_2() + changes_when_lowercased_chunk_3() + changes_when_lowercased_chunk_4() + changes_when_lowercased_chunk_5() + changes_when_lowercased_chunk_6() + changes_when_lowercased_chunk_7(), changes_when_lowercased_chunk_8());
    lemma_canonical_append(changes_when_lowercased_chunk_0() + changes_when_lowercased_chunk_1() + changes_when_lowercased_chunk_2() + changes_when_lowercased_chunk_3() + changes_when_lowercased_chunk_4() + changes_when_lowercased_chunk_5() + changes_when_lowercased_chunk_6() + changes_when_lowercased_chunk_7() + changes_when_lowercased_chunk_8(), changes_when_lowercased_chunk_9());
}

proof fn lemma_changes_when_lowercased_block_1()
    ensures
        canonical(changes_when_lowercased_block_1()),
        changes_when_lowercased_block_1().len() > 0,
        changes_when_lowercased_block_1()[0] == changes_when_lowercased_chunk_10()[0],
        changes_when_lowercased_block_1().last() == changes_when_lowercased_chunk_19().last(),
{
    reveal_with_fuel(canonical, 9);
    assert(canonical(changes_when_lowercased_chunk_10()));
    assert(canonical(changes_when_lowercased_chunk_11()));
    assert(canonical(changes_when_lowercased_chunk_12()));
    assert(canonical(changes_when_lowercased_chunk_13()));
    assert(canonical(changes_when_lowercased_chunk_14()));
    assert(canonical(changes_when_lowercased_chunk_15()));
    assert(canonical(changes_when_lowercased_chunk_16()));
    assert(canonical(changes_when_lowercased_chunk_17()));
    assert(canonical(changes_when_lowercased_chunk_18()));
    assert(canonical(changes_when_lowercased_chunk_19()));
    lemma_canonical_append(changes_when_lowercased_chunk_10(), changes_when_lowercased_chunk_11());
    lemma_canonical_append(changes_when_lowercased_chunk_10() + changes_when_lowercased_chunk_11(), changes_when_lowercased_chunk_12());
    lemma_canonical_append(changes_when_lowercased_chunk_10() + changes_when_lowercased_chunk_11() + changes_when_lowercased_chunk_12(), changes_when_lowercased_chunk_13());
    lemma_canonical_append(changes_when_lowercased_chunk_10() + changes_when_lowercased_chunk_11() + changes_when_lowercased_chunk_12() + changes_when_lowercased_chunk_13(), changes_when_lowercased_chunk_14());
    lemma_canonical_append(changes_when_lowercased_chunk_10() + changes_when_lowercased_chunk_11() + changes_when_lowercased_chunk_12() + changes_when_lowercased_chunk_13() + changes_when_lowercased_chunk_14(), changes_when_lowercased_chunk_15());
    lemma_canonical_append(changes_when_lowercased_chunk_10() + changes_when_lowercased_chunk_11() + changes_when_lowercased_chunk_12() + changes_when_lowercased_chunk_13() + changes_when_lowercased_chunk_14() + changes_when_lowercased_chunk_15(), changes_when_lowercased_chunk_16());
    lemma_canonical_append(changes_when_lowercased_chunk_10() + changes_when_lowercased_chunk_11() + changes_when_lowercased_chunk_12() + changes_when_lowercased_chunk_13() + changes_when_lowercased_chunk_14() + changes_when_lowercased_chunk_15() + changes_when_lowercased_chunk_16(), changes_when_lowercased_chunk_17());
    lemma_canonical_append(changes_when_lowercased_chunk_10() + changes_when_lowercased_chunk_11() + changes_when_lowercased_chunk_12() + changes_when_lowercased_chunk_13() + changes_when_lowercased_chunk_14() + changes_when_lowercased_chunk_15() + changes_when_lowercased_chunk_16() + changes_when_lowercased_chunk_17(), changes_when_lowercased_chunk_18());
    lemma_canonical_append(changes_when_lowercased_chunk_10() + changes_when_lowercased_chunk_11() + changes_when_lowercased_chunk_12() + changes_when_lowercased_chunk_13() + changes_when_lowercased_chunk_14() + changes_when_lowercased_chunk_15() + changes_when_lowercased_chunk_16() + changes_when_lowercased_chunk_17() + changes_when_lowercased_chunk_18(), changes_when_lowercased_chunk_19());
}

proof fn lemma_changes_when_lowercased_block_2()
    ensures
        canonical(changes_when_lowercased_block_2()),
        changes_when_lowercased_block_2().len() > 0,
        changes_when_lowercased_block_2()[0] == changes_when_lowercased_chunk_20()[0],
        changes_when_lowercased_block_2().last() == changes_when_lowercased_chunk_29().last(),
{
    reveal_with_fuel(canonical, 9);
    assert(canonical(changes_when_lowercased_chunk_20()));
    assert(canonical(changes_when_lowercased_chunk_21()));
    assert(canonical(changes_when_lowercased_chunk_22()));
    assert(canonical(changes_when_lowercased_chunk_23()));
    assert(canonical(changes_when_lowercased_chunk_24()));
    assert(canonical(changes_when_lowercased_chunk_25()));
    assert(canonical(changes_when_lowercased_chunk_26()));
    assert(canonical(changes_when_lowercased_chunk_27()));
    assert(canonical(changes_when_lowercased_chunk_28()));
    assert(canonical(changes_when_lowercased_chunk_29()));
    lemma_canonical_append(changes_when_lowercased_chunk_20(), changes_when_lowercased_chunk_21());
    lemma_canonical_append(changes_when_lowercased_chunk_20() + changes_when_lowercased_chunk_21(), changes_when_lowercased_chunk_22());
    lemma_canonical_append(changes_when_lowercased_chunk_20() + changes_when_lowercased_chunk_21() + changes_when_lowercased_chunk_22(), changes_when_lowercased_chunk_23());
    lemma_canonical_append(changes_when_lowercased_chunk_20() + changes_when_lowercased_chunk_21() + changes_when_lowercased_chunk_22() + changes_when_lowercased_chunk_23(), changes_when_lowercased_chunk_24());
    lemma_canonical_append(changes_when_lowercased_chunk_20() + changes_when_lowercased_chunk_21() + changes_when_lowercased_chunk_22() + changes_when_lowercased_chunk_23() + changes_when_lowercased_chunk_24(), changes_when_lowercased_chunk_25());
    lemma_canonical_append(changes_when_lowercased_chunk_20() + changes_when_lowercased_chunk_21() + changes_when_lowercased_chunk_22() + changes_when_lowercased_chunk_23() + changes_when_lowercased_chunk_24() + changes_when_lowercased_chunk_25(), changes_when_lowercased_chunk_26());
    lemma_canonical_append(changes_when_lowercased_chunk_20() + changes_when_lowercased_chunk_21() + changes_when_lowercased_chunk_22() + changes_when_lowercased_chunk_23() + changes_when_lowercased_chunk_24() + changes_when_lowercased_chunk_25() + changes_when_lowercased_chunk_26(), changes_when_lowercased_chunk_27());
    lemma_canonical_append(changes_when_lowercased_chunk_20() + changes_when_lowercased_chunk_21() + changes_when_lowercased_chunk_22() + changes_when_lowercased_chunk_23() + changes_when_lowercased_chunk_24() + changes_when_lowercased_chunk_25() + changes_when_lowercased_chunk_26() + changes_when_lowercased_chunk_27(), changes_when_lowercased_chunk_28());
    lemma_canonical_append(changes_when_lowercased_chunk_20() + changes_when_lowercased_chunk_21() + changes_when_lowercased_chunk_22() + changes_when_lowercased_chunk_23() + changes_when_lowercased_chunk_24() + changes_when_lowercased_chunk_25() + changes_when_lowercased_chunk_26() + changes_when_lowercased_chunk_27() + changes_when_lowercased_chunk_28(), changes_when_lowercased_chunk_29());
}

proof fn lemma_changes_when_lowercased_block_3()
    ensures
        canonical(changes_when_lowercased_block_3()),
        changes_when_lowercased_block_3().len() > 0,
        changes_when_lowercased_block_3()[0] == changes_when_lowercased_chunk_30()[0],
        changes_when_lowercased_block_3().last() == changes_when_lowercased_chunk_39().last(),
{
    reveal_with_fuel(canonical, 9);
    assert(canonical(changes_when_lowercased_chunk_30()));
    assert(canonical(changes_when_lowercased_chunk_31()));
    assert(canonical(changes_when_lowercased_chunk_32()));
    assert(canonical(changes_when_lowercased_chunk_33()));
    assert(canonical(changes_when_lowercased_chunk_34()));
    assert(canonical(changes_when_lowercased_chunk_35()));
    assert(canonical(changes_when_lowercased_chunk_36()));
    assert(canonical(changes_when_lowercased_chunk_37()));
    assert(canonical(changes_when_lowercased_chunk_38()));
    assert(canonical(changes_when_lowercased_chunk_39()));
    lemma_canonical_append(changes_when_lowercased_chunk_30(), changes_when_lowercased_chunk_31());
    lemma_canonical_append(changes_when_lowercased_chunk_30() + changes_when_lowercased_chunk_31(), changes_when_lowercased_chunk_32());
    lemma_canonical_append(changes_when_lowercased_chunk_30() + changes_when_lowercased_chunk_31() + changes_when_lowercased_chunk_32(), changes_when_lowercased_chunk_33());
    lemma_canonical_append(changes_when_lowercased_chunk_30() + changes_when_lowercased_chunk_31() + changes_when_lowercased_chunk_32() + changes_when_lowercased_chunk_33(), changes_when_lowercased_chunk_34());
    lemma_canonical_append(changes_when_lowercased_chunk_30() + changes_when_lowercased_chunk_31() + changes_when_lowercased_chunk_32() + changes_when_lowercased_chunk_33() + changes_when_lowercased_chunk_34(), changes_when_lowercased_chunk_35());
    lemma_canonical_append(changes_when_lowercased_chunk_30() + changes_when_lowercased_chunk_31() + changes_when_lowercased_chunk_32() + changes_when_lowercased_chunk_33() + changes_when_lowercased_chunk_34() + changes_when_lowercased_chunk_35(), changes_when_lowercased_chunk_36());
    lemma_canonical_append(changes_when_lowercased_chunk_30() + changes_when_lowercased_chunk_31() + changes_when_lowercased_chunk_32() + changes_when_lowercased_chunk_33() + changes_when_lowercased_chunk_34() + changes_when_lowercased_chunk_35() + changes_when_lowercased_chunk_36(), changes_when_lowercased_chunk_37());
    lemma_canonical_append(changes_when_lowercased_chunk_30() + changes_when_lowercased_chunk_31() + changes_when_lowercased_chunk_32() + changes_when_lowercased_chunk_33() + changes_when_lowercased_chunk_34() + changes_when_lowercased_chunk_35() + changes_when_lowercased_chunk_36() + changes_when_lowercased_chunk_37(), changes_when_lowercased_chunk_38());
    lemma_canonical_append(changes_when_lowercased_chunk_30() + changes_when_lowercased_chunk_31() + changes_when_lowercased_chunk_32() + changes_when_lowercased_chunk_33() + changes_when_lowercased_chunk_34() + changes_when_lowercased_chunk_35() + changes_when_lowercased_chunk_36() + changes_when_lowercased_chunk_37() + changes_when_lowercased_chunk_38(), changes_when_lowercased_chunk_39());
}

proof fn lemma_changes_when_lowercased_block_4()
    ensures
        canonical(changes_when_lowercased_block_4()),
        changes_when_lowercased_block_4().len() > 0,
        changes_when_lowercased_block_4()[0] == changes_when_lowercased_chunk_40()[0],
        changes_when_lowercased_block_4().last() == changes_when_lowercased_chunk_49().last(),
{
    reveal_with_fuel(canonical, 9);
    assert(canonical(changes_when_lowercased_chunk_40()));
    assert(canonical(changes_when_lowercased_chunk_41()));
    assert(canonical(changes_when_lowercased_chunk_42()));
    assert(canonical(changes_when_lowercased_chunk_43()));
    assert(canonical(changes_when_lowercased_chunk_44()));
    assert(canonical(changes_when_lowercased_chunk_45()));
    assert(canonical(changes_when_lowercased_chunk_46()));
    assert(canonical(changes_when_lowercased_chunk_47()));
    assert(canonical(changes_when_lowercased_chunk_48()));
    assert(canonical(changes_when_lowercased_chunk_49()));
    lemma_canonical_append(changes_when_lowercased_chunk_40(), changes_when_lowercased_chunk_41());
    lemma_canonical_append(changes_when_lowercased_chunk_40() + changes_when_lowercased_chunk_41(), changes_when_lowercased_chunk_42());
    lemma_canonical_append(changes_when_lowercased_chunk_40() + changes_when_lowercased_chunk_41() + changes_when_lowercased_chunk_42(), changes_when_lowercased_chunk_43());
    lemma_canonical_append(changes_when_lowercased_chunk_40() + changes_when_lowercased_chunk_41() + changes_when_lowercased_chunk_42() + changes_when_lowercased_chunk_43(), changes_when_lowercased_chunk_44());
    lemma_canonical_append(changes_when_lowercased_chunk_40() + changes_when_lowercased_chunk_41() + changes_when_lowercased_chunk_42() + changes_when_lowercased_chunk_43() + changes_when_lowercased_chunk_44(), changes_when_lowercased_chunk_45());
    lemma_canonical_append(changes_when_lowercased_chunk_40() + changes_when_lowercased_chunk_41() + changes_when_lowercased_chunk_42() + changes_when_lowercased_chunk_43() + changes_when_lowercased_chunk_44() + changes_when_lowercased_chunk_45(), changes_when_lowercased_chunk_46());
    lemma_canonical_append(changes_when_lowercased_chunk_40() + changes_when_lowercased_chunk_41() + changes_when_lowercased_chunk_42() + changes_when_lowercased_chunk_43() + changes_when_lowercased_chunk_44() + changes_when_lowercased_chunk_45() + changes_when_lowercased_chunk_46(), changes_when_lowercased_chunk_47());
    lemma_canonical_append(changes_when_lowercased_chunk_40() + changes_when_lowercased_chunk_41() + changes_when_lowercased_chunk_42() + changes_when_lowercased_chunk_43() + changes_when_lowercased_chunk_44() + changes_when_lowercased_chunk_45() + changes_when_lowercased_chunk_46() + changes_when_lowercased_chunk_47(), changes_when_lowercased_chunk_48());
    lemma_canonical_append(changes_when_lowercased_chunk_40() + changes_when_lowercased_chunk_41() + changes_when_lowercased_chunk_42() + changes_when_lowercased_chunk_43() + changes_when_lowercased_chunk_44() + changes_when_lowercased_chunk_45() + changes_when_lowercased_chunk_46() + changes_when_lowercased_chunk_47() + changes_when_lowercased_chunk_48(), changes_when_lowercased_chunk_49());
}

proof fn lemma_changes_when_lowercased_block_5()
    ensures
        canonical(changes_when_lowercased_block_5()),
        changes_when_lowercased_block_5().len() > 0,
        changes_when_lowercased_block_5()[0] == changes_when_lowercased_chunk_50()[0],
        changes_when_lowercased_block_5().last() == changes_when_lowercased_chunk_59().last(),
{
    reveal_with_fuel(canonical, 9);
    assert(canonical(changes_when_lowercased_chunk_50()));
    assert(canonical(changes_when_lowercased_chunk_51()));
    assert(canonical(changes_when_lowercased_chunk_52()));
    assert(canonical(changes_when_lowercased_chunk_53()));
    assert(canonical(changes_when_lowercased_chunk_54()));
    assert(canonical(changes_when_lowercased_chunk_55()));
    assert(canonical(changes_when_lowercased_chunk_56()));
    assert(canonical(changes_when_lowercased_chunk_57()));
    assert(canonical(changes_when_lowercased_chunk_58()));
    assert(canonical(changes_when_lowercased_chunk_59()));
    lemma_canonical_append(changes_when_lowercased_chunk_50(), changes_when_lowercased_chunk_51());
    lemma_canonical_append(changes_when_lowercased_chunk_50() + changes_when_lowercased_chunk_51(), changes_when_lowercased_chunk_52());
    lemma_canonical_append(changes_when_lowercased_chunk_50() + changes_when_lowercased_chunk_51() + changes_when_lowercased_chunk_52(), changes_when_lowercased_chunk_53());
    lemma_canonical_append(changes_when_lowercased_chunk_50() + changes_when_lowercased_chunk_51() + changes_when_lowercased_chunk_52() + changes_when_lowercased_chunk_53(), changes_when_lowercased_chunk_54());
    lemma_canonical_append(changes_when_lowercased_chunk_50() + changes_when_lowercased_chunk_51() + changes_when_lowercased_chunk_52() + changes_when_lowercased_chunk_53() + changes_when_lowercased_chunk_54(), changes_when_lowercased_chunk_55());
    lemma_canonical_append(changes_when_lowercased_chunk_50() + changes_when_lowercased_chunk_51() + changes_when_lowercased_chunk_52() + changes_when_lowercased_chunk_53() + changes_when_lowercased_chunk_54() + changes_when_lowercased_chunk_55(), changes_when_lowercased_chunk_56());
    lemma_canonical_append(changes_when_lowercased_chunk_50() + changes_when_lowercased_chunk_51() + changes_when_lowercased_chunk_52() + changes_when_lowercased_chunk_53() + changes_when_lowercased_chunk_54() + changes_when_lowercased_chunk_55() + changes_when_lowercased_chunk_56(), changes_when_lowercased_chunk_57());
    lemma_canonical_append(changes_when_lowercased_chunk_50() + changes_when_lowercased_chunk_51() + changes_when_lowercased_chunk_52() + changes_when_lowercased_chunk_53() + changes_when_lowercased_chunk_54() + changes_when_lowercased_chunk_55() + changes_when_lowercased_chunk_56() + changes_when_lowercased_chunk_57(), changes_when_lowercased_chunk_58());
    lemma_canonical_append(changes_when_lowercased_chunk_50() + changes_when_lowercased_chunk_51() + changes_when_lowercased_chunk_52() + changes_when_lowercased_chunk_53() + changes_when_lowercased_chunk_54() + changes_when_lowercased_chunk_55() + changes_when_lowercased_chunk_56() + changes_when_lowercased_chunk_57() + changes_when_lowercased_chunk_58(), changes_when_lowercased_chunk_59());
}

proof fn lemma_changes_when_lowercased_block_6()
    ensures
        canonical(changes_when_lowercased_block_6()),
        changes_when_lowercased_block_6().len() > 0,
        changes_when_lowercased_block_6()[0] == changes_when_lowercased_chunk_60()[0],
        changes_when_lowercased_block_6().last() == changes_when_lowercased_chunk_69().last(),
{
    reveal_with_fuel(canonical, 9);
    assert(canonical(changes_when_lowercased_chunk_60()));
    assert(canonical(changes_when_lowercased_chunk_61()));
    assert(canonical(changes_when_lowercased_chunk_62()));
    assert(canonical(changes_when_lowercased_chunk_63()));
    assert(canonical(changes_when_lowercased_chunk_64()));
    assert(canonical(changes_when_lowercased_chunk_65()));
    assert(canonical(changes_when_lowercased_chunk_66()));
    assert(canonical(changes_when_lowercased_chunk_67()));
    assert(canonical(changes_when_lowercased_chunk_68()));
    assert(canonical(changes_when_lowercased_chunk_69()));
    lemma_canonical_append(changes_when_lowercased_chunk_60(), changes_when_lowercased_chunk_61());
    lemma_canonical_append(changes_when_lowercased_chunk_60() + changes_when_lowercased_chunk_61(), changes_when_lowercased_chunk_62());
    lemma_canonical_append(changes_when_lowercased_chunk_60() + changes_when_lowercased_chunk_61() + changes_when_lowercased_chunk_62(), changes_when_lowercased_chunk_63());
    lemma_canonical_append(changes_when_lowercased_chunk_60() + changes_when_lowercased_chunk_61() + changes_when_lowercased_chunk_62() + changes_when_lowercased_chunk_63(), changes_when_lowercased_chunk_64());
    lemma_canonical_append(changes_when_lowercased_chunk_60() + changes_when_lowercased_chunk_61() + changes_when_lowercased_chunk_62() + changes_when_lowercased_chunk_63() + changes_when_lowercased_chunk_64(), changes_when_lowercased_chunk_65());
    lemma_canonical_append(changes_when_lowercased_chunk_60() + changes_when_lowercased_chunk_61() + changes_when_lowercased_chunk_62() + changes_when_lowercased_chunk_63() + changes_when_lowercased_chunk_64() + changes_when_lowercased_chunk_65(), changes_when_lowercased_chunk_66());
    lemma_canonical_append(changes_when_lowercased_chunk_60() + changes_when_lowercased_chunk_61() + changes_when_lowercased_chunk_62() + changes_when_lowercased_chunk_63() + changes_when_lowercased_chunk_64() + changes_when_lowercased_chunk_65() + changes_when_lowercased_chunk_66(), changes_when_lowercased_chunk_67());
    lemma_canonical_append(changes_when_lowercased_chunk_60() + changes_when_lowercased_chunk_61() + changes_when_lowercased_chunk_62() + changes_when_lowercased_chunk_63() + changes_when_lowercased_chunk_64() + changes_when_lowercased_chunk_65() + changes_when_lowercased_chunk_66() + changes_when_lowercased_chunk_67(), changes_when_lowercased_chunk_68());
    lemma_canonical_append(changes_when_lowercased_chunk_60() + changes_when_lowercased_chunk_61() + changes_when_lowercased_chunk_62() + changes_when_lowercased_chunk_63() + changes_when_lowercased_chunk_64() + changes_when_lowercased_chunk_65() + changes_when_lowercased_chunk_66() + changes_when_lowercased_chunk_67() + changes_when_lowercased_chunk_68(), changes_when_lowercased_chunk_69());
}

proof fn lemma_changes_when_lowercased_block_7()
    ensures
        canonical(changes_when_lowercased_block_7()),
        changes_when_lowercased_block_7().len() > 0,
        changes_when_lowercased_block_7()[0] == changes_when_lowercased_chunk_70()[0],
        changes_when_lowercased_block_7().last() == changes_when_lowercased_chunk_76().last(),
{
    reveal_with_fuel(canonical, 9);
    assert(canonical(changes_when_lowercased_chunk_70()));
    assert(canonical(changes_when_lowercased_chunk_71()));
    assert(canonical(changes_when_lowercased_chunk_72()));
    assert(canonical(changes_when_lowercased_chunk_73()));
    assert(canonical(changes_when_lowercased_chunk_74()));
    assert(canonical(changes_when_lowercased_chunk_75()));
    assert(canonical(changes_when_lowercased_chunk_76()));
    lemma_canonical_append(changes_when_lowercased_chunk_70(), changes_when_lowercased_chunk_71());
    lemma_canonical_append(changes_when_lowercased_chunk_70() + changes_when_lowercased_chunk_71(), changes_when_lowercased_chunk_72());
    lemma_canonical_append(changes_when_lowercased_chunk_70() + changes_when_lowercased_chunk_71() + changes_when_lowercased_chunk_72(), changes_when_lowercased_chunk_73());
    lemma_canonical_append(changes_when_lowercased_chunk_70() + changes_when_lowercased_chunk_71() + changes_when_lowercased_chunk_72() + changes_when_lowercased_chunk_73(), changes_when_lowercased_chunk_74());
    lemma_canonical_append(changes_when_lowercased_chunk_70() + changes_when_lowercased_chunk_71() + changes_when_lowercased_chunk_72() + changes_when_lowercased_chunk_73() + changes_when_lowercased_chunk_74(), changes_when_lowercased_chunk_75());
    lemma_canonical_append(changes_when_lowercased_chunk_70() + changes_when_lowercased_chunk_71() + changes_when_lowercased_chunk_72() + changes_when_lowercased_chunk_73() + changes_when_lowercased_chunk_74() + changes_when_lowercased_chunk_75(), changes_when_lowercased_chunk_76());
}

pub proof fn lemma_changes_when_lowercased_canonical()
    ensures
        canonical(changes_when_lowercased_ranges()),
{
    lemma_changes_when_lowercased_block_0();
    lemma_changes_when_lowercased_block_1();
    lemma_changes_when_lowercased_block_2();
    lemma_changes_when_lowercased_block_3();
    lemma_changes_when_lowercased_block_4();
    lemma_changes_when_lowercased_block_5();
    lemma_changes_when_lowercased_block_6();
    lemma_changes_when_lowercased_block_7();
    lemma_canonical_append(changes_when_lowercased_block_0(), changes_when_lowercased_block_1());
    lemma_canonical_append(changes_when_lowercased_block_0() + changes_when_lowercased_block_1(), changes_when_lowercased_block_2());
    lemma_canonical_append(changes_when_lowercased_block_0() + changes_when_lowercased_block_1() + changes_when_lowercased_block_2(), changes_when_lowercased_block_3());
    lemma_canonical_append(changes_when_lowercased_block_0() + changes_when_lowercased_block_1() + changes_when_lowercased_block_2() + changes_when_lowercased_block_3(), changes_when_lowercased_block_4());
    lemma_canonical_append(changes_when_lowercased_block_0() + changes_when_lowercased_block_1() + changes_when_lowercased_block_2() + changes_when_lowercased_block_3() + changes_when_lowercased_block_4(), changes_when_lowercased_block_5());
    lemma_canonical_append(changes_when_lowercased_block_0() + changes_when_lowercased_block_1() + changes_when_lowercased_block_2() + changes_when_lowercased_block_3() + changes_when_lowercased_block_4() + changes_when_lowercased_block_5(), changes_when_lowercased_block_6());
    lemma_canonical_append(changes_when_lowercased_block_0() + changes_when_lowercased_block_1() + changes_when_lowercased_block_2() + changes_when_lowercased_block_3() + changes_when_lowercased_block_4() + changes_when_lowercased_block_5() + changes_when_lowercased_block_6(), changes_when_lowercased_block_7());
}

fn push_changes_when_lowercased_chunk_0(v: &mut Vec<ClassUnicodeRange>)
    ensures
        rview(final(v)@) == rview(old(v)@) + changes_when_lowercased_chunk_0(),
{
    let ghost o = rview(v@);
    push_range(v, '\u{41}', '\u{5A}');
    push_range(v, '\u{C0}', '\u{D6}');
    push_range(v, '\u{D8}', '\u{DE}');
    push_range(v, '\u{100}', '\u{100}');
    push_range(v, '\u{102}', '\u{102}');
    push_range(v, '\u{104}', '\u{104}');
    push_range(v, '\u{106}', '\u{106}');
    push_range(v, '\u{108}', '\u{108}');
    assert(rview(v@) =~= o + changes_when_lowercased_chunk_0());
}

fn push_changes_when_lowercased_chunk_1(v: &mut Vec<ClassUnicodeRange>)
    ensures
        rview(final(v)@) == rview(old(v)@) + changes_when_lowercased_chunk_1(),
{
    let ghost o = rview(v@);
    push_range(v, '\u{10A}', '\u{10A}');
    push_range(v, '\u{10C}', '\u{10C}');
    push_range(v, '\u{10E}', '\u{10E}');
    push_range(v, '\u{110}', '\u{110}');
    push_range(v, '\u{112}', '\u{112}');
    push_range(v, '\u{114}', '\u{114}');
    push_range(v, '\u{116}', '\u{116}');
    push_range(v, '\u{118}', '\u{118}');
    assert(rview(v@) =~= o + changes_when_lowercased_chunk_1());
}

fn push_changes_when_lowercased_chunk_2(v: &mut Vec<ClassUnicodeRange>)
    ensures
        rview(final(v)@) == rview(old(v)@) + changes_when_lowercased_chunk_2(),
{
    let ghost o = rview(v@);
    push_range(v, '\u{11A}', '\u{11A}');
    push_range(v, '\u{11C}', '\u{11C}');
    push_range(v, '\u{11E}', '\u{11E}');
    push_range(v, '\u{120}', '\u{120}');
    push_range(v, '\u{122}', '\u{122}');
    push_range(v, '\u{124}', '\u{124}');
    push_range(v, '\u{126}', '\u{126}');
    push_range(v, '\u{128}', '\u{128}');
    assert(rview(v@) =~= o + changes_when_lowercased_chunk_2());
}

fn push_changes_when_lowercased_chunk_3(v: &mut Vec<ClassUnicodeRange>)
    ensures
        rview(final(v)@) == rview(old(v)@) + changes_when_lowercased_chunk_3(),
{
    let ghost o = rview(v@);
    push_range(v, '\u{12A}', '\u{12A}');
    push_range(v, '\u{12C}', '\u{12C}');
    push_range(v, '\u{12E}', '\u{12E}');
    push_range(v, '\u{130}', '\u{130}');
    push_range(v, '\u{132}', '\u{132}');
    push_range(v, '\u{134}', '\u{134}');
    push_range(v, '\u{136}', '\u{136}');
    push_range(v, '\u{139}', '\u{139}');
    assert(rview(v@) =~= o + changes_when_lowercased_chunk_3());
}

fn push_changes_when_lowercased_chunk_4(v: &mut Vec<ClassUnicodeRange>)
    ensures
        rview(final(v)@) == rview(old(v)@) + changes_when_lowercased_chunk_4(),
{
    let ghost o = rview(v@);
    push_range(v, '\u{13B}', '\u{13B}');
    push_range(v, '\u{13D}', '\u{13D}');
    push_range(v, '\u{13F}', '\u{13F}');
    push_range(v, '\u{141}', '\u{141}');
    push_range(v, '\u{143}', '\u{143}');
    push_range(v, '\u{145}', '\u{145}');
    push_range(v, '\u{147}', '\u{147}');
    push_range(v, '\u{14A}', '\u{14A}');
    assert(rview(v@) =~= o + changes_when_lowercased_chunk_4());
}

fn push_changes_when_lowercased_chunk_5(v: &mut Vec<ClassUnicodeRange>)
    ensures
        rview(final(v)@) == rview(old(v)@) + changes_when_lowercased_chunk_5(),
{
    let ghost o = rview(v@);
    push_range(v, '\u{14C}', '\u{14C}');
    push_range(v, '\u{14E}', '\u{14E}');
    push_range(v, '\u{150}', '\u{150}');
    push_range(v, '\u{152}', '\u{152}');
    push_range(v, '\u{154}', '\u{154}');
    push_range(v, '\u{156}', '\u{156}');
    push_range(v, '\u{158}', '\u{158}');
    push_range(v, '\u{15A}', '\u{15A}');
    assert(rview(v@) =~= o + changes_when_lowercased_chunk_5());
}

fn push_changes_when_lowercased_chunk_6(v: &mut Vec<ClassUnicodeRange>)
    ensures
        rview(final(v)@) == rview(old(v)@) + changes_when_lowercased_chunk_6(),
{
    let ghost o = rview(v@);
    push_range(v, '\u{15C}', '\u{15C}');
    push_range(v, '\u{15E}', '\u{15E}');
    push_range(v, '\u{160}', '\u{160}');
    push_range(v, '\u{162}', '\u{162}');
    push_range(v, '\u{164}', '\u{164}');
    push_range(v, '\u{166}', '\u{166}');
    push_range(v, '\u{168}', '\u{168}');
    push_range(v, '\u{16A}', '\u{16A}');
    assert(rview(v@) =~= o + changes_when_lowercased_chunk_6());
}

fn push_changes_when_lowercased_chunk_7(v: &mut Vec<ClassUnicodeRange>)
    ensures
        rview(final(v)@) == rview(old(v)@) + changes_when_lowercased_chunk_7(),
{
    let ghost o = rview(v@);
    push_range(v, '\u{16C}', '\u{16C}');
    push_range(v, '\u{16E}', '\u{16E}');
    push_range(v, '\u{170}', '\u{170}');
    push_range(v, '\u{172}', '\u{172}');
    push_range(v, '\u{174}', '\u{174}');
    push_range(v, '\u{176}', '\u{176}');
    push_range(v, '\u{178}', '\u{179}');
    push_range(v, '\u{17B}', '\u{17B}');
    assert(rview(v@) =~= o + changes_when_lowercased_chunk_7());
}

fn push_changes_when_lowercased_chunk_8(v: &mut Vec<ClassUnicodeRange>)
    ensures
        rview(final(v)@) == rview(old(v)@) + changes_when_lowercased_chunk_8(),
{
    let ghost o = rview(v@);
    push_range(v, '\u{17D}', '\u{17D}');
    push_range(v, '\u{181}', '\u{182}');
    push_range(v, '\u{184}', '\u{184}');
    push_range(v, '\u{186}', '\u{187}');
    push_range(v, '\u{189}', '\u{18B}');
    push_range(v, '\u{18E}', '\u{191}');
    push_range(v, '\u{193}', '\u{194}');
    push_range(v, '\u{196}', '\u{198}');
    assert(rview(v@) =~= o + changes_when_lowercased_chunk_8());
}

fn push_changes_when_lowercased_chunk_9(v: &mut Vec<ClassUnicodeRange>)
    ensures
        rview(final(v)@) == rview(old(v)@) + changes_when_lowercased_chunk_9(),
{
    let ghost o = rview(v@);
    push_range(v, '\u{19C}', '\u{19D}');
    push_range(v, '\u{19F}', '\u{1A0}');
    push_range(v, '\u{1A2}', '\u{1A2}');
    push_range(v, '\u{1A4}', '\u{1A4}');
    push_range(v, '\u{1A6}', '\u{1A7}');
    push_range(v, '\u{1A9}', '\u{1A9}');
    push_range(v, '\u{1AC}', '\u{1AC}');
    push_range(v, '\u{1AE}', '\u{1AF}');
    assert(rview(v@) =~= o + changes_when_lowercased_chunk_9());
}

fn push_changes_when_lowercased_chunk_10(v: &mut Vec<ClassUnicodeRange>)
    ensures
        rview(final(v)@) == rview(old(v)@) + changes_when_lowercased_chunk_10(),
{
    let ghost o = rview(v@);
    push_range(v, '\u{1B1}', '\u{1B3}');
    push_range(v, '\u{1B5}', '\u{1B5}');
    push_range(v, '\u{1B7}', '\u{1B8}');
    push_range(v, '\u{1BC}', '\u{1BC}');
    push_range(v, '\u{1C4}', '\u{1C5}');
    push_range(v, '\u{1C7}', '\u{1C8}');
    push_range(v, '\u{1CA}', '\u{1CB}');
    push_range(v, '\u{1CD}', '\u{1CD}');
    assert(rview(v@) =~= o + changes_when_lowercased_chunk_10());
}

fn push_changes_when_lowercased_chunk_11(v: &mut Vec<ClassUnicodeRange>)
    ensures
        rview(final(v)@) == rview(old(v)@) + changes_when_lowercased_chunk_11(),
{
    let ghost o = rview(v@);
    push_range(v, '\u{1CF}', '\u{1CF}');
    push_range(v, '\u{1D1}', '\u{1D1}');
    push_range(v, '\u{1D3}', '\u{1D3}');
    push_range(v, '\u{1D5}', '\u{1D5}');
    push_range(v, '\u{1D7}', '\u{1D7}');
    push_range(v, '\u{1D9}', '\u{1D9}');
    push_range(v, '\u{1DB}', '\u{1DB}');
    push_range(v, '\u{1DE}', '\u{1DE}');
    assert(rview(v@) =~= o + changes_when_lowercased_chunk_11());
}

fn push_changes_when_lowercased_chunk_12(v: &mut Vec<ClassUnicodeRange>)
    ensures
        rview(final(v)@) == rview(old(v)@) + changes_when_lowercased_chunk_12(),
{
    let ghost o = rview(v@);
    push_range(v, '\u{1E0}', '\u{1E0}');
    push_range(v, '\u{1E2}', '\u{1E2}');
    push_range(v, '\u{1E4}', '\u{1E4}');
    push_range(v, '\u{1E6}', '\u{1E6}');
    push_range(v, '\u{1E8}', '\u{1E8}');
    push_range(v, '\u{1EA}', '\u{1EA}');
    push_range(v, '\u{1EC}', '\u{1EC}');
    push_range(v, '\u{1EE}', '\u{1EE}');
    assert(rview(v@) =~= o + changes_when_lowercased_chunk_12());
}

fn push_changes_when_lowercased_chunk_13(v: &mut Vec<ClassUnicodeRange>)
    ensures
        rview(final(v)@) == rview(old(v)@) + changes_when_lowercased_chunk_13(),
{
    let ghost o = rview(v@);
    push_range(v, '\u{1F1}', '\u{1F2}');
    push_range(v, '\u{1F4}', '\u{1F4}');
    push_range(v, '\u{1F6}', '\u{1F8}');
    push_range(v, '\u{1FA}', '\u{1FA}');
    push_range(v, '\u{1FC}', '\u{1FC}');
    push_range(v, '\u{1FE}', '\u{1FE}');
    push_range(v, '\u{200}', '\u{200}');
    push_range(v, '\u{202}', '\u{202}');
    assert(rview(v@) =~= o + changes_when_lowercased_chunk_13());
}

fn push_changes_when_lowercased_chunk_14(v: &mut Vec<ClassUnicodeRange>)
    ensures
        rview(final(v)@) == rview(old(v)@) + changes_when_lowercased_chunk_14(),
{
    let ghost o = rview(v@);
    push_range(v, '\u{204}', '\u{204}');
    push_range(v, '\u{206}', '\u{206}');
    push_range(v, '\u{208}', '\u{208}');
    push_range(v, '\u{20A}', '\u{20A}');
    push_range(v, '\u{20C}', '\u{20C}');
    push_range(v, '\u{20E}', '\u{20E}');
    push_range(v, '\u{210}', '\u{210}');
    push_range(v, '\u{212}', '\u{212}');
    assert(rview(v@) =~= o + changes_when_lowercased_chunk_14());
}

fn push_changes_when_lowercased_chunk_15(v: &mut Vec<ClassUnicodeRange>)
    ensures
        rview(final(v)@) == rview(old(v)@) + changes_when_lowercased_chunk_15(),
{
    let ghost o = rview(v@);
    push_range(v, '\u{214}', '\u{214}');
    push_range(v, '\u{216}', '\u{216}');
    push_range(v, '\u{218}', '\u{218}');
    push_range(v, '\u{21A}', '\u{21A}');
    push_range(v, '\u{21C}', '\u{21C}');
    push_range(v, '\u{21E}', '\u{21E}');
    push_range(v, '\u{220}', '\u{220}');
    push_range(v, '\u{222}', '\u{222}');
    assert(rview(v@) =~= o + changes_when_lowercased_chunk_15());
}

fn push_changes_when_lowercased_chunk_16(v: &mut Vec<ClassUnicodeRange>)
    ensures
        rview(final(v)@) == rview(old(v)@) + changes_when_lowercased_chunk_16(),
{
    let ghost o = rview(v@);
    push_range(v, '\u{224}', '\u{224}');
    push_range(v, '\u{226}', '\u{226}');
    push_range(v, '\u{228}', '\u{228}');
    push_range(v, '\u{22A}', '\u{22A}');
    push_range(v, '\u{22C}', '\u{22C}');
    push_range(v, '\u{22E}', '\u{22E}');
    push_range(v, '\u{230}', '\u{230}');
    push_range(v, '\u{232}', '\u{232}');
    assert(rview(v@) =~= o + changes_when_lowercased_chunk_16());
}

fn push_changes_when_lowercased_chunk_17(v: &mut Vec<ClassUnicodeRange>)
    ensures
        rview(final(v)@) == rview(old(v)@) + changes_when_lowercased_chunk_17(),
{
    let ghost o = rview(v@);
    push_range(v, '\u{23A}', '\u{23B}');
    push_range(v, '\u{23D}', '\u{23E}');
    push_range(v, '\u{241}', '\u{241}');
    push_range(v, '\u{243}', '\u{246}');
    push_range(v, '\u{248}', '\u{248}');
    push_range(v, '\u{24A}', '\u{24A}');
    push_range(v, '\u{24C}', '\u{24C}');
    push_range(v, '\u{24E}', '\u{24E}');
    assert(rview(v@) =~= o + changes_when_lowercased_chunk_17());
}

fn push_changes_when_lowercased_chunk_18(v: &mut Vec<ClassUnicodeRange>)
    ensures
        rview(final(v)@) == rview(old(v)@) + changes_when_lowercased_chunk_18(),
{
    let ghost o = rview(v@);
    push_range(v, '\u{370}', '\u{370}');
    push_range(v, '\u{372}', '\u{372}');
    push_range(v, '\u{376}', '\u{376}');
    push_range(v, '\u{37F}', '\u{37F}');
    push_range(v, '\u{386}', '\u{386}');
    push_range(v, '\u{388}', '\u{38A}');
    push_range(v, '\u{38C}', '\u{38C}');
    push_range(v, '\u{38E}', '\u{38F}');
    assert(rview(v@) =~= o + changes_when_lowercased_chunk_18());
}

fn push_changes_when_lowercased_chunk_19(v: &mut Vec<ClassUnicodeRange>)
    ensures
        rview(final(v)@) == rview(old(v)@) + changes_when_lowercased_chunk_19(),
{
    let ghost o = rview(v@);
    push_range(v, '\u{391}', '\u{3A1}');
    push_range(v, '\u{3A3}', '\u{3AB}');
    push_range(v, '\u{3CF}', '\u{3CF}');
    push_range(v, '\u{3D8}', '\u{3D8}');
    push_range(v, '\u{3DA}', '\u{3DA}');
    push_range(v, '\u{3DC}', '\u{3DC}');
    push_range(v, '\u{3DE}', '\u{3DE}');
    push_range(v, '\u{3E0}', '\u{3E0}');
    assert(rview(v@) =~= o + changes_when_lowercased_chunk_19());
}

fn push_changes_when_lowercased_chunk_20(v: &mut Vec<ClassUnicodeRange>)
    ensures
        rview(final(v)@) == rview(old(v)@) + changes_when_lowercased_chunk_20(),
{
    let ghost o = rview(v@);
    push_range(v, '\u{3E2}', '\u{3E2}');
    push_range(v, '\u{3E4}', '\u{3E4}');
    push_range(v, '\u{3E6}', '\u{3E6}');
    push_range(v, '\u{3E8}', '\u{3E8}');
    push_range(v, '\u{3EA}', '\u{3EA}');
    push_range(v, '\u{3EC}', '\u{3EC}');
    push_range(v, '\u{3EE}', '\u{3EE}');
    push_range(v, '\u{3F4}', '\u{3F4}');
    assert(rview(v@) =~= o + changes_when_lowercased_chunk_20());
}

fn push_changes_when_lowercased_chunk_21(v: &mut Vec<ClassUnicodeRange>)
    ensures
        rview(final(v)@) == rview(old(v)@) + changes_when_lowercased_chunk_21(),
{
    let ghost o = rview(v@);
    push_range(v, '\u{3F7}', '\u{3F7}');
    push_range(v, '\u{3F9}', '\u{3FA}');
    push_range(v, '\u{3FD}', '\u{42F}');
    push_range(v, '\u{460}', '\u{460}');
    push_range(v, '\u{462}', '\u{462}');
    push_range(v, '\u{464}', '\u{464}');
    push_range(v, '\u{466}', '\u{466}');
    push_range(v, '\u{468}', '\u{468}');
    assert(rview(v@) =~= o + changes_when_lowercased_chunk_21());
}

fn push_changes_when_lowercased_chunk_22(v: &mut Vec<ClassUnicodeRange>)
    ensures
        rview(final(v)@) == rview(old(v)@) + changes_when_lowercased_chunk_22(),
{
    let ghost o = rview(v@);
    push_range(v, '\u{46A}', '\u{46A}');
    push_range(v, '\u{46C}', '\u{46C}');
    push_range(v, '\u{46E}', '\u{46E}');
    push_range(v, '\u{470}', '\u{470}');
    push_range(v, '\u{472}', '\u{472}');
    push_range(v, '\u{474}', '\u{474}');
    push_range(v, '\u{476}', '\u{476}');
    push_range(v, '\u{478}', '\u{478}');
    assert(rview(v@) =~= o + changes_when_lowercased_chunk_22());
}

fn push_changes_when_lowercased_chunk_23(v: &mut Vec<ClassUnicodeRange>)
    ensures
        rview(final(v)@) == rview(old(v)@) + changes_when_lowercased_chunk_23(),
{
    let ghost o = rview(v@);
    push_range(v, '\u{47A}', '\u{47A}');
    push_range(v, '\u{47C}', '\u{47C}');
    push_range(v, '\u{47E}', '\u{47E}');
    push_range(v, '\u{480}', '\u{480}');
    push_range(v, '\u{48A}', '\u{48A}');
    push_range(v, '\u{48C}', '\u{48C}');
    push_range(v, '\u{48E}', '\u{48E}');
    push_range(v, '\u{490}', '\u{490}');
    assert(rview(v@) =~= o + changes_when_lowercased_chunk_23());
}

fn push_changes_when_lowercased_chunk_24(v: &mut Vec<ClassUnicodeRange>)
    ensures
        rview(final(v)@) == rview(old(v)@) + changes_when_lowercased_chunk_24(),
{
    let ghost o = rview(v@);
    push_range(v, '\u{492}', '\u{492}');
    push_range(v, '\u{494}', '\u{494}');
    push_range(v, '\u{496}', '\u{496}');
    push_range(v, '\u{498}', '\u{498}');
    push_range(v, '\u{49A}', '\u{49A}');
    push_range(v, '\u{49C}', '\u{49C}');
    push_range(v, '\u{49E}', '\u{49E}');
    push_range(v, '\u{4A0}', '\u{4A0}');
    assert(rview(v@) =~= o + changes_when_lowercased_chunk_24());
}

fn push_changes_when_lowercased_chunk_25(v: &mut Vec<ClassUnicodeRange>)
    ensures
        rview(final(v)@) == rview(old(v)@) + changes_when_lowercased_chunk_25(),
{
    let ghost o = rview(v@);
    push_range(v, '\u{4A2}', '\u{4A2}');
    push_range(v, '\u{4A4}', '\u{4A4}');
    push_range(v, '\u{4A6}', '\u{4A6}');
    push_range(v, '\u{4A8}', '\u{4A8}');
    push_range(v, '\u{4AA}', '\u{4AA}');
    push_range(v, '\u{4AC}', '\u{4AC}');
    push_range(v, '\u{4AE}', '\u{4AE}');
    push_range(v, '\u{4B0}', '\u{4B0}');
    assert(rview(v@) =~= o + changes_when_lowercased_chunk_25());
}

fn push_changes_when_lowercased_chunk_26(v: &mut Vec<ClassUnicodeRange>)
    ensures
        rview(final(v)@) == rview(old(v)@) + changes_when_lowercased_chunk_26(),
{
    let ghost o = rview(v@);
    push_range(v, '\u{4B2}', '\u{4B2}');
    push_range(v, '\u{4B4}', '\u{4B4}');
    push_range(v, '\u{4B6}', '\u{4B6}');
    push_range(v, '\u{4B8}', '\u{4B8}');
    push_range(v, '\u{4BA}', '\u{4BA}');
    push_range(v, '\u{4BC}', '\u{4BC}');
    push_range(v, '\u{4BE}', '\u{4BE}');
    push_range(v, '\u{4C0}', '\u{4C1}');
    assert(rview(v@) =~= o + changes_when_lowercased_chunk_26());
}

fn push_changes_when_lowercased_chunk_27(v: &mut Vec<ClassUnicodeRange>)
    ensures
        rview(final(v)@) == rview(old(v)@) + changes_when_lowercased_chunk_27(),
{
    let ghost o = rview(v@);
    push_range(v, '\u{4C3}', '\u{4C3}');
    push_range(v, '\u{4C5}', '\u{4C5}');
    push_range(v, '\u{4C7}', '\u{4C7}');
    push_range(v, '\u{4C9}', '\u{4C9}');
    push_range(v, '\u{4CB}', '\u{4CB}');
    push_range(v, '\u{4CD}', '\u{4CD}');
    push_range(v, '\u{4D0}', '\u{4D0}');
    push_range(v, '\u{4D2}', '\u{4D2}');
    assert(rview(v@) =~= o + changes_when_lowercased_chunk_27());
}

fn push_changes_when_lowercased_chunk_28(v: &mut Vec<ClassUnicodeRange>)
    ensures
        rview(final(v)@) == rview(old(v)@) + changes_when_lowercased_chunk_28(),
{
    let ghost o = rview(v@);
    push_range(v, '\u{4D4}', '\u{4D4}');
    push_range(v, '\u{4D6}', '\u{4D6}');
    push_range(v, '\u{4D8}', '\u{4D8}');
    push_range(v, '\u{4DA}', '\u{4DA}');
    push_range(v, '\u{4DC}', '\u{4DC}');
    push_range(v, '\u{4DE}', '\u{4DE}');
    push_range(v, '\u{4E0}', '\u{4E0}');
    push_range(v, '\u{4E2}', '\u{4E2}');
    assert(rview(v@) =~= o + changes_when_lowercased_chunk_28());
}

fn push_changes_when_lowercased_chunk_29(v: &mut Vec<ClassUnicodeRange>)
    ensures
        rview(final(v)@) == rview(old(v)@) + changes_when_lowercased_chunk_29(),
{
    let ghost o = rview(v@);
    push_range(v, '\u{4E4}', '\u{4E4}');
    push_range(v, '\u{4E6}', '\u{4E6}');
    push_range(v, '\u{4E8}', '\u{4E8}');
    push_range(v, '\u{4EA}', '\u{4EA}');
    push_range(v, '\u{4EC}', '\u{4EC}');
    push_range(v, '\u{4EE}', '\u{4EE}');
    push_range(v, '\u{4F0}', '\u{4F0}');
    push_range(v, '\u{4F2}', '\u{4F2}');
    assert(rview(v@) =~= o + changes_when_lowercased_chunk_29());
}

fn push_changes_when_lowercased_chunk_30(v: &mut Vec<ClassUnicodeRange>)
    ensures
        rview(final(v)@) == rview(old(v)@) + changes_when_lowercased_chunk_30(),
{
    let ghost o = rview(v@);
    push_range(v, '\u{4F4}', '\u{4F4}');
    push_range(v, '\u{4F6}', '\u{4F6}');
    push_range(v, '\u{4F8}', '\u{4F8}');
    push_range(v, '\u{4FA}', '\u{4FA}');
    push_range(v, '\u{4FC}', '\u{4FC}');
    push_range(v, '\u{4FE}', '\u{4FE}');
    push_range(v, '\u{500}', '\u{500}');
    push_range(v, '\u{502}', '\u{502}');
    assert(rview(v@) =~= o + changes_when_lowercased_chunk_30());
}

fn push_changes_when_lowercased_chunk_31(v: &mut Vec<ClassUnicodeRange>)
    ensures
        rview(final(v)@) == rview(old(v)@) + changes_when_lowercased_chunk_31(),
{
    let ghost o = rview(v@);
    push_range(v, '\u{504}', '\u{504}');
    push_range(v, '\u{506}', '\u{506}');
    push_range(v, '\u{508}', '\u{508}');
    push_range(v, '\u{50A}', '\u{50A}');
    push_range(v, '\u{50C}', '\u{50C}');
    push_range(v, '\u{50E}', '\u{50E}');
    push_range(v, '\u{510}', '\u{510}');
    push_range(v, '\u{512}', '\u{512}');
    assert(rview(v@) =~= o + changes_when_lowercased_chunk_31());
}

fn push_changes_when_lowercased_chunk_32(v: &mut Vec<ClassUnicodeRange>)
    ensures
        rview(final(v)@) == rview(old(v)@) + changes_when_lowercased_chunk_32(),
{
    let ghost o = rview(v@);
    push_range(v, '\u{514}', '\u{514}');
    push_range(v, '\u{516}', '\u{516}');
    push_range(v, '\u{518}', '\u{518}');
    push_range(v, '\u{51A}', '\u{51A}');
    push_range(v, '\u{51C}', '\u{51C}');
    push_range(v, '\u{51E}', '\u{51E}');
    push_range(v, '\u{520}', '\u{520}');
    push_range(v, '\u{522}', '\u{522}');
    assert(rview(v@) =~= o + changes_when_lowercased_chunk_32());
}

fn push_changes_when_lowercased_chunk_33(v: &mut Vec<ClassUnicodeRange>)
    ensures
        rview(final(v)@) == rview(old(v)@) + changes_when_lowercased_chunk_33(),
{
    let ghost o = rview(v@);
    push_range(v, '\u{524}', '\u{524}');
    push_range(v, '\u{526}', '\u{526}');
    push_range(v, '\u{528}', '\u{528}');
    push_range(v, '\u{52A}', '\u{52A}');
    push_range(v, '\u{52C}', '\u{52C}');
    push_range(v, '\u{52E}', '\u{52E}');
    push_range(v, '\u{531}', '\u{556}');
    push_range(v, '\u{10A0}', '\u{10C5}');
    assert(rview(v@) =~= o + changes_when_lowercased_chunk_33());
}

fn push_changes_when_lowercased_chunk_34(v: &mut Vec<ClassUnicodeRange>)
    ensures
        rview(final(v)@) == rview(old(v)@) + changes_when_lowercased_chunk_34(),
{
    let ghost o = rview(v@);
    push_range(v, '\u{10C7}', '\u{10C7}');
    push_range(v, '\u{10CD}', '\u{10CD}');
    push_range(v, '\u{13A0}', '\u{13F5}');
    push_range(v, '\u{1C89}', '\u{1C89}');
    push_range(v, '\u{1C90}', '\u{1CBA}');
    push_range(v, '\u{1CBD}', '\u{1CBF}');
    push_range(v, '\u{1E00}', '\u{1E00}');
    push_range(v, '\u{1E02}', '\u{1E02}');
    assert(rview(v@) =~= o + changes_when_lowercased_chunk_34());
}

fn push_changes_when_lowercased_chunk_35(v: &mut Vec<ClassUnicodeRange>)
    ensures
        rview(final(v)@) == rview(old(v)@) + changes_when_lowercased_chunk_35(),
{
    let ghost o = rview(v@);
    push_range(v, '\u{1E04}', '\u{1E04}');
    push_range(v, '\u{1E06}', '\u{1E06}');
    push_range(v, '\u{1E08}', '\u{1E08}');
    push_range(v, '\u{1E0A}', '\u{1E0A}');
    push_range(v, '\u{1E0C}', '\u{1E0C}');
    push_range(v, '\u{1E0E}', '\u{1E0E}');
    push_range(v, '\u{1E10}', '\u{1E10}');
    push_range(v, '\u{1E12}', '\u{1E12}');
    assert(rview(v@) =~= o + changes_when_lowercased_chunk_35());
}

fn push_changes_when_lowercased_chunk_36(v: &mut Vec<ClassUnicodeRange>)
    ensures
        rview(final(v)@) == rview(old(v)@) + changes_when_lowercased_chunk_36(),
{
    let ghost o = rview(v@);
    push_range(v, '\u{1E14}', '\u{1E14}');
    push_range(v, '\u{1E16}', '\u{1E16}');
    push_range(v, '\u{1E18}', '\u{1E18}');
    push_range(v, '\u{1E1A}', '\u{1E1A}');
    push_range(v, '\u{1E1C}', '\u{1E1C}');
    push_range(v, '\u{1E1E}', '\u{1E1E}');
    push_range(v, '\u{1E20}', '\u{1E20}');
    push_range(v, '\u{1E22}', '\u{1E22}');
    assert(rview(v@) =~= o + changes_when_lowercased_chunk_36());
}

fn push_changes_when_lowercased_chunk_37(v: &mut Vec<ClassUnicodeRange>)
    ensures
        rview(final(v)@) == rview(old(v)@) + changes_when_lowercased_chunk_37(),
{
    let ghost o = rview(v@);
    push_range(v, '\u{1E24}', '\u{1E24}');
    push_range(v, '\u{1E26}', '\u{1E26}');
    push_range(v, '\u{1E28}', '\u{1E28}');
    push_range(v, '\u{1E2A}', '\u{1E2A}');
    push_range(v, '\u{1E2C}', '\u{1E2C}');
    push_range(v, '\u{1E2E}', '\u{1E2E}');
    push_range(v, '\u{1E30}', '\u{1E30}');
    push_range(v, '\u{1E32}', '\u{1E32}');
    assert(rview(v@) =~= o + changes_when_lowercased_chunk_37());
}

fn push_changes_when_lowercased_chunk_38(v: &mut Vec<ClassUnicodeRange>)
    ensures
        rview(final(v)@) == rview(old(v)@) + changes_when_lowercased_chunk_38(),
{
    let ghost o = rview(v@);
    push_range(v, '\u{1E34}', '\u{1E34}');
    push_range(v, '\u{1E36}', '\u{1E36}');
    push_range(v, '\u{1E38}', '\u{1E38}');
    push_range(v, '\u{1E3A}', '\u{1E3A}');
    push_range(v, '\u{1E3C}', '\u{1E3C}');
    push_range(v, '\u{1E3E}', '\u{1E3E}');
    push_range(v, '\u{1E40}', '\u{1E40}');
    push_range(v, '\u{1E42}', '\u{1E42}');
    assert(rview(v@) =~= o + changes_when_lowercased_chunk_38());
}

fn push_changes_when_lowercased_chunk_39(v: &mut Vec<ClassUnicodeRange>)
    ensures
        rview(final(v)@) == rview(old(v)@) + changes_when_lowercased_chunk_39(),
{
    let ghost o = rview(v@);
    push_range(v, '\u{1E44}', '\u{1E44}');
    push_range(v, '\u{1E46}', '\u{1E46}');
    push_range(v, '\u{1E48}', '\u{1E48}');
    push_range(v, '\u{1E4A}', '\u{1E4A}');
    push_range(v, '\u{1E4C}', '\u{1E4C}');
    push_range(v, '\u{1E4E}', '\u{1E4E}');
    push_range(v, '\u{1E50}', '\u{1E50}');
    push_range(v, '\u{1E52}', '\u{1E52}');
    assert(rview(v@) =~= o + changes_when_lowercased_chunk_39());
}

fn push_changes_when_lowercased_chunk_40(v: &mut Vec<ClassUnicodeRange>)
    ensures
        rview(final(v)@) == rview(old(v)@) + changes_when_lowercased_chunk_40(),
{
    let ghost o = rview(v@);
    push_range(v, '\u{1E54}', '\u{1E54}');
    push_range(v, '\u{1E56}', '\u{1E56}');
    push_range(v, '\u{1E58}', '\u{1E58}');
    push_range(v, '\u{1E5A}', '\u{1E5A}');
    push_range(v, '\u{1E5C}', '\u{1E5C}');
    push_range(v, '\u{1E5E}', '\u{1E5E}');
    push_range(v, '\u{1E60}', '\u{1E60}');
    push_range(v, '\u{1E62}', '\u{1E62}');
    assert(rview(v@) =~= o + changes_when_lowercased_chunk_40());
}

fn push_changes_when_lowercased_chunk_41(v: &mut Vec<ClassUnicodeRange>)
    ensures
        rview(final(v)@) == rview(old(v)@) + changes_when_lowercased_chunk_41(),
{
    let ghost o = rview(v@);
    push_range(v, '\u{1E64}', '\u{1E64}');
    push_range(v, '\u{1E66}', '\u{1E66}');
    push_range(v, '\u{1E68}', '\u{1E68}');
    push_range(v, '\u{1E6A}', '\u{1E6A}');
    push_range(v, '\u{1E6C}', '\u{1E6C}');
    push_range(v, '\u{1E6E}', '\u{1E6E}');
    push_range(v, '\u{1E70}', '\u{1E70}');
    push_range(v, '\u{1E72}', '\u{1E72}');
    assert(rview(v@) =~= o + changes_when_lowercased_chunk_41());
}

fn push_changes_when_lowercased_chunk_42(v: &mut Vec<ClassUnicodeRange>)
    ensures
        rview(final(v)@) == rview(old(v)@) + changes_when_lowercased_chunk_42(),
{
    let ghost o = rview(v@);
    push_range(v, '\u{1E74}', '\u{1E74}');
    push_range(v, '\u{1E76}', '\u{1E76}');
    push_range(v, '\u{1E78}', '\u{1E78}');
    push_range(v, '\u{1E7A}', '\u{1E7A}');
    push_range(v, '\u{1E7C}', '\u{1E7C}');
    push_range(v, '\u{1E7E}', '\u{1E7E}');
    push_range(v, '\u{1E80}', '\u{1E80}');
    push_range(v, '\u{1E82}', '\u{1E82}');
    assert(rview(v@) =~= o + changes_when_lowercased_chunk_42());
}

fn push_changes_when_lowercased_chunk_43(v: &mut Vec<ClassUnicodeRange>)
    ensures
        rview(final(v)@) == rview(old(v)@) + changes_when_lowercased_chunk_43(),
{
    let ghost o = rview(v@);
    push_range(v, '\u{1E84}', '\u{1E84}');
    push_range(v, '\u{1E86}', '\u{1E86}');
    push_range(v, '\u{1E88}', '\u{1E88}');
    push_range(v, '\u{1E8A}', '\u{1E8A}');
    push_range(v, '\u{1E8C}', '\u{1E8C}');
    push_range(v, '\u{1E8E}', '\u{1E8E}');
    push_range(v, '\u{1E90}', '\u{1E90}');
    push_range(v, '\u{1E92}', '\u{1E92}');
    assert(rview(v@) =~= o + changes_when_lowercased_chunk_43());
}

fn push_changes_when_lowercased_chunk_44(v: &mut Vec<ClassUnicodeRange>)
    ensures
        rview(final(v)@) == rview(old(v)@) + changes_when_lowercased_chunk_44(),
{
    let ghost o = rview(v@);
    push_range(v, '\u{1E94}', '\u{1E94}');
    push_range(v, '\u{1E9E}', '\u{1E9E}');
    push_range(v, '\u{1EA0}', '\u{1EA0}');
    push_range(v, '\u{1EA2}', '\u{1EA2}');
    push_range(v, '\u{1EA4}', '\u{1EA4}');
    push_range(v, '\u{1EA6}', '\u{1EA6}');
    push_range(v, '\u{1EA8}', '\u{1EA8}');
    push_range(v, '\u{1EAA}', '\u{1EAA}');
    assert(rview(v@) =~= o + changes_when_lowercased_chunk_44());
}

fn push_changes_when_lowercased_chunk_45(v: &mut Vec<ClassUnicodeRange>)
    ensures
        rview(final(v)@) == rview(old(v)@) + changes_when_lowercased_chunk_45(),
{
    let ghost o = rview(v@);
    push_range(v, '\u{1EAC}', '\u{1EAC}');
    push_range(v, '\u{1EAE}', '\u{1EAE}');
    push_range(v, '\u{1EB0}', '\u{1EB0}');
    push_range(v, '\u{1EB2}', '\u{1EB2}');
    push_range(v, '\u{1EB4}', '\u{1EB4}');
    push_range(v, '\u{1EB6}', '\u{1EB6}');
    push_range(v, '\u{1EB8}', '\u{1EB8}');
    push_range(v, '\u{1EBA}', '\u{1EBA}');
    assert(rview(v@) =~= o + changes_when_lowercased_chunk_45());
}

fn push_changes_when_lowercased_chunk_46(v: &mut Vec<ClassUnicodeRange>)
    ensures
        rview(final(v)@) == rview(old(v)@) + changes_when_lowercased_chunk_46(),
{
    let ghost o = rview(v@);
    push_range(v, '\u{1EBC}', '\u{1EBC}');
    push_range(v, '\u{1EBE}', '\u{1EBE}');
    push_range(v, '\u{1EC0}', '\u{1EC0}');
    push_range(v, '\u{1EC2}', '\u{1EC2}');
    push_range(v, '\u{1EC4}', '\u{1EC4}');
    push_range(v, '\u{1EC6}', '\u{1EC6}');
    push_range(v, '\u{1EC8}', '\u{1EC8}');
    push_range(v, '\u{1ECA}', '\u{1ECA}');
    assert(rview(v@) =~= o + changes_when_lowercased_chunk_46());
}

fn push_changes_when_lowercased_chunk_47(v: &mut Vec<ClassUnicodeRange>)
    ensures
        rview(final(v)@) == rview(old(v)@) + changes_when_lowercased_chunk_47(),
{
    let ghost o = rview(v@);
    push_range(v, '\u{1ECC}', '\u{1ECC}');
    push_range(v, '\u{1ECE}', '\u{1ECE}');
    push_range(v, '\u{1ED0}', '\u{1ED0}');
    push_range(v, '\u{1ED2}', '\u{1ED2}');
    push_range(v, '\u{1ED4}', '\u{1ED4}');
    push_range(v, '\u{1ED6}', '\u{1ED6}');
    push_range(v, '\u{1ED8}', '\u{1ED8}');
    push_range(v, '\u{1EDA}', '\u{1EDA}');
    assert(rview(v@) =~= o + changes_when_lowercased_chunk_47());
}

fn push_changes_when_lowercased_chunk_48(v: &mut Vec<ClassUnicodeRange>)
    ensures
        rview(final(v)@) == rview(old(v)@) + changes_when_lowercased_chunk_48(),
{
    let ghost o = rview(v@);
    push_range(v, '\u{1EDC}', '\u{1EDC}');
    push_range(v, '\u{1EDE}', '\u{1EDE}');
    push_range(v, '\u{1EE0}', '\u{1EE0}');
    push_range(v, '\u{1EE2}', '\u{1EE2}');
    push_range(v, '\u{1EE4}', '\u{1EE4}');
    push_range(v, '\u{1EE6}', '\u{1EE6}');
    push_range(v, '\u{1EE8}', '\u{1EE8}');
    push_range(v, '\u{1EEA}', '\u{1EEA}');
    assert(rview(v@) =~= o + changes_when_lowercased_chunk_48());
}

fn push_changes_when_lowercased_chunk_49(v: &mut Vec<ClassUnicodeRange>)
    ensures
        rview(final(v)@) == rview(old(v)@) + changes_when_lowercased_chunk_49(),
{
    let ghost o = rview(v@);
    push_range(v, '\u{1EEC}', '\u{1EEC}');
    push_range(v, '\u{1EEE}', '\u{1EEE}');
    push_range(v, '\u{1EF0}', '\u{1EF0}');
    push_range(v, '\u{1EF2}', '\u{1EF2}');
    push_range(v, '\u{1EF4}', '\u{1EF4}');
    push_range(v, '\u{1EF6}', '\u{1EF6}');
    push_range(v, '\u{1EF8}', '\u{1EF8}');
    push_range(v, '\u{1EFA}', '\u{1EFA}');
    assert(rview(v@) =~= o + changes_when_lowercased_chunk_49());
}

fn push_changes_when_lowercased_chunk_50(v: &mut Vec<ClassUnicodeRange>)
    ensures
        rview(final(v)@) == rview(old(v)@) + changes_when_lowercased_chunk_50(),
{
    let ghost o = rview(v@);
    push_range(v, '\u{1EFC}', '\u{1EFC}');
    push_range(v, '\u{1EFE}', '\u{1EFE}');
    push_range(v, '\u{1F08}', '\u{1F0F}');
    push_range(v, '\u{1F18}', '\u{1F1D}');
    push_range(v, '\u{1F28}', '\u{1F2F}');
    push_range(v, '\u{1F38}', '\u{1F3F}');
    push_range(v, '\u{1F48}', '\u{1F4D}');
    push_range(v, '\u{1F59}', '\u{1F59}');
    assert(rview(v@) =~= o + changes_when_lowercased_chunk_50());
}

fn push_changes_when_lowercased_chunk_51(v: &mut Vec<ClassUnicodeRange>)
    ensures
        rview(final(v)@) == rview(old(v)@) + changes_when_lowercased_chunk_51(),
{
    let ghost o = rview(v@);
    push_range(v, '\u{1F5B}', '\u{1F5B}');
    push_range(v, '\u{1F5D}', '\u{1F5D}');
    push_range(v, '\u{1F5F}', '\u{1F5F}');
    push_range(v, '\u{1F68}', '\u{1F6F}');
    push_range(v, '\u{1F88}', '\u{1F8F}');
    push_range(v, '\u{1F98}', '\u{1F9F}');
    push_range(v, '\u{1FA8}', '\u{1FAF}');
    push_range(v, '\u{1FB8}', '\u{1FBC}');
    assert(rview(v@) =~= o + changes_when_lowercased_chunk_51());
}

fn push_changes_when_lowercased_chunk_52(v: &mut Vec<ClassUnicodeRange>)
    ensures
        rview(final(v)@) == rview(old(v)@) + changes_when_lowercased_chunk_52(),
{
    let ghost o = rview(v@);
    push_range(v, '\u{1FC8}', '\u{1FCC}');
    push_range(v, '\u{1FD8}', '\u{1FDB}');
    push_range(v, '\u{1FE8}', '\u{1FEC}');
    push_range(v, '\u{1FF8}', '\u{1FFC}');
    push_range(v, '\u{2126}', '\u{2126}');
    push_range(v, '\u{212A}', '\u{212B}');
    push_range(v, '\u{2132}', '\u{2132}');
    push_range(v, '\u{2160}', '\u{216F}');
    assert(rview(v@) =~= o + changes_when_lowercased_chunk_52());
}

fn push_changes_when_lowercased_chunk_53(v: &mut Vec<ClassUnicodeRange>)
    ensures
        rview(final(v)@) == rview(old(v)@) + changes_when_lowercased_chunk_53(),
{
    let ghost o = rview(v@);
    push_range(v, '\u{2183}', '\u{2183}');
    push_range(v, '\u{24B6}', '\u{24CF}');
    push_range(v, '\u{2C00}', '\u{2C2F}');
    push_range(v, '\u{2C60}', '\u{2C60}');
    push_range(v, '\u{2C62}', '\u{2C64}');
    push_range(v, '\u{2C67}', '\u{2C67}');
    push_range(v, '\u{2C69}', '\u{2C69}');
    push_range(v, '\u{2C6B}', '\u{2C6B}');
    assert(rview(v@) =~= o + changes_when_lowercased_chunk_53());
}

fn push_changes_when_lowercased_chunk_54(v: &mut Vec<ClassUnicodeRange>)
    ensures
        rview(final(v)@) == rview(old(v)@) + changes_when_lowercased_chunk_54(),
{
    let ghost o = rview(v@);
    push_range(v, '\u{2C6D}', '\u{2C70}');
    push_range(v, '\u{2C72}', '\u{2C72}');
    push_range(v, '\u{2C75}', '\u{2C75}');
    push_range(v, '\u{2C7E}', '\u{2C80}');
    push_range(v, '\u{2C82}', '\u{2C82}');
    push_range(v, '\u{2C84}', '\u{2C84}');
    push_range(v, '\u{2C86}', '\u{2C86}');
    push_range(v, '\u{2C88}', '\u{2C88}');
    assert(rview(v@) =~= o + changes_when_lowercased_chunk_54());
}

fn push_changes_when_lowercased_chunk_55(v: &mut Vec<ClassUnicodeRange>)
    ensures
        rview(final(v)@) == rview(old(v)@) + changes_when_lowercased_chunk_55(),
{
    let ghost o = rview(v@);
    push_range(v, '\u{2C8A}', '\u{2C8A}');
    push_range(v, '\u{2C8C}', '\u{2C8C}');
    push_range(v, '\u{2C8E}', '\u{2C8E}');
    push_range(v, '\u{2C90}', '\u{2C90}');
    push_range(v, '\u{2C92}', '\u{2C92}');
    push_range(v, '\u{2C94}', '\u{2C94}');
    push_range(v, '\u{2C96}', '\u{2C96}');
    push_range(v, '\u{2C98}', '\u{2C98}');
    assert(rview(v@) =~= o + changes_when_lowercased_chunk_55());
}

fn push_changes_when_lowercased_chunk_56(v: &mut Vec<ClassUnicodeRange>)
    ensures
        rview(final(v)@) == rview(old(v)@) + changes_when_lowercased_chunk_56(),
{
    let ghost o = rview(v@);
    push_range(v, '\u{2C9A}', '\u{2C9A}');
    push_range(v, '\u{2C9C}', '\u{2C9C}');
    push_range(v, '\u{2C9E}', '\u{2C9E}');
    push_range(v, '\u{2CA0}', '\u{2CA0}');
    push_range(v, '\u{2CA2}', '\u{2CA2}');
    push_range(v, '\u{2CA4}', '\u{2CA4}');
    push_range(v, '\u{2CA6}', '\u{2CA6}');
    push_range(v, '\u{2CA8}', '\u{2CA8}');
    assert(rview(v@) =~= o + changes_when_lowercased_chunk_56());
}

fn push_changes_when_lowercased_chunk_57(v: &mut Vec<ClassUnicodeRange>)
    ensures
        rview(final(v)@) == rview(old(v)@) + changes_when_lowercased_chunk_57(),
{
    let ghost o = rview(v@);
    push_range(v, '\u{2CAA}', '\u{2CAA}');
    push_range(v, '\u{2CAC}', '\u{2CAC}');
    push_range(v, '\u{2CAE}', '\u{2CAE}');
    push_range(v, '\u{2CB0}', '\u{2CB0}');
    push_range(v, '\u{2CB2}', '\u{2CB2}');
    push_range(v, '\u{2CB4}', '\u{2CB4}');
    push_range(v, '\u{2CB6}', '\u{2CB6}');
    push_range(v, '\u{2CB8}', '\u{2CB8}');
    assert(rview(v@) =~= o + changes_when_lowercased_chunk_57());
}

fn push_changes_when_lowercased_chunk_58(v: &mut Vec<ClassUnicodeRange>)
    ensures
        rview(final(v)@) == rview(old(v)@) + changes_when_lowercased_chunk_58(),
{
    let ghost o = rview(v@);
    push_range(v, '\u{2CBA}', '\u{2CBA}');
    push_range(v, '\u{2CBC}', '\u{2CBC}');
    push_range(v, '\u{2CBE}', '\u{2CBE}');
    push_range(v, '\u{2CC0}', '\u{2CC0}');
    push_range(v, '\u{2CC2}', '\u{2CC2}');
    push_range(v, '\u{2CC4}', '\u{2CC4}');
    push_range(v, '\u{2CC6}', '\u{2CC6}');
    push_range(v, '\u{2CC8}', '\u{2CC8}');
    assert(rview(v@) =~= o + changes_when_lowercased_chunk_58());
}

fn push_changes_when_lowercased_chunk_59(v: &mut Vec<ClassUnicodeRange>)
    ensures
        rview(final(v)@) == rview(old(v)@) + changes_when_lowercased_chunk_59(),
{
    let ghost o = rview(v@);
    push_range(v, '\u{2CCA}', '\u{2CCA}');
    push_range(v, '\u{2CCC}', '\u{2CCC}');
    push_range(v, '\u{2CCE}', '\u{2CCE}');
    push_range(v, '\u{2CD0}', '\u{2CD0}');
    push_range(v, '\u{2CD2}', '\u{2CD2}');
    push_range(v, '\u{2CD4}', '\u{2CD4}');
    push_range(v, '\u{2CD6}', '\u{2CD6}');
    push_range(v, '\u{2CD8}', '\u{2CD8}');
    assert(rview(v@) =~= o + changes_when_lowercased_chunk_59());
}

fn push_changes_when_lowercased_chunk_60(v: &mut Vec<ClassUnicodeRange>)
    ensures
        rview(final(v)@) == rview(old(v)@) + changes_when_lowercased_chunk_60(),
{
    let ghost o = rview(v@);
    push_range(v, '\u{2CDA}', '\u{2CDA}');
    push_range(v, '\u{2CDC}', '\u{2CDC}');
    push_range(v, '\u{2CDE}', '\u{2CDE}');
    push_range(v, '\u{2CE0}', '\u{2CE0}');
    push_range(v, '\u{2CE2}', '\u{2CE2}');
    push_range(v, '\u{2CEB}', '\u{2CEB}');
    push_range(v, '\u{2CED}', '\u{2CED}');
    push_range(v, '\u{2CF2}', '\u{2CF2}');
    assert(rview(v@) =~= o + changes_when_lowercased_chunk_60());
}

fn push_changes_when_lowercased_chunk_61(v: &mut Vec<ClassUnicodeRange>)
    ensures
        rview(final(v)@) == rview(old(v)@) + changes_when_lowercased_chunk_61(),
{
    let ghost o = rview(v@);
    push_range(v, '\u{A640}', '\u{A640}');
    push_range(v, '\u{A642}', '\u{A642}');
    push_range(v, '\u{A644}', '\u{A644}');
    push_range(v, '\u{A646}', '\u{A646}');
    push_range(v, '\u{A648}', '\u{A648}');
    push_range(v, '\u{A64A}', '\u{A64A}');
    push_range(v, '\u{A64C}', '\u{A64C}');
    push_range(v, '\u{A64E}', '\u{A64E}');
    assert(rview(v@) =~= o + changes_when_lowercased_chunk_61());
}

fn push_changes_when_lowercased_chunk_62(v: &mut Vec<ClassUnicodeRange>)
    ensures
        rview(final(v)@) == rview(old(v)@) + changes_when_lowercased_chunk_62(),
{
    let ghost o = rview(v@);
    push_range(v, '\u{A650}', '\u{A650}');
    push_range(v, '\u{A652}', '\u{A652}');
    push_range(v, '\u{A654}', '\u{A654}');
    push_range(v, '\u{A656}', '\u{A656}');
    push_range(v, '\u{A658}', '\u{A658}');
    push_range(v, '\u{A65A}', '\u{A65A}');
    push_range(v, '\u{A65C}', '\u{A65C}');
    push_range(v, '\u{A65E}', '\u{A65E}');
    assert(rview(v@) =~= o + changes_when_lowercased_chunk_62());
}

fn push_changes_when_lowercased_chunk_63(v: &mut Vec<ClassUnicodeRange>)
    ensures
        rview(final(v)@) == rview(old(v)@) + changes_when_lowercased_chunk_63(),
{
    let ghost o = rview(v@);
    push_range(v, '\u{A660}', '\u{A660}');
    push_range(v, '\u{A662}', '\u{A662}');
    push_range(v, '\u{A664}', '\u{A664}');
    push_range(v, '\u{A666}', '\u{A666}');
    push_range(v, '\u{A668}', '\u{A668}');
    push_range(v, '\u{A66A}', '\u{A66A}');
    push_range(v, '\u{A66C}', '\u{A66C}');
    push_range(v, '\u{A680}', '\u{A680}');
    assert(rview(v@) =~= o + changes_when_lowercased_chunk_63());
}

fn push_changes_when_lowercased_chunk_64(v: &mut Vec<ClassUnicodeRange>)
    ensures
        rview(final(v)@) == rview(old(v)@) + changes_when_lowercased_chunk_64(),
{
    let ghost o = rview(v@);
    push_range(v, '\u{A682}', '\u{A682}');
    push_range(v, '\u{A684}', '\u{A684}');
    push_range(v, '\u{A686}', '\u{A686}');
    push_range(v, '\u{A688}', '\u{A688}');
    push_range(v, '\u{A68A}', '\u{A68A}');
    push_range(v, '\u{A68C}', '\u{A68C}');
    push_range(v, '\u{A68E}', '\u{A68E}');
    push_range(v, '\u{A690}', '\u{A690}');
    assert(rview(v@) =~= o + changes_when_lowercased_chunk_64());
}

fn push_changes_when_lowercased_chunk_65(v: &mut Vec<ClassUnicodeRange>)
    ensures
        rview(final(v)@) == rview(old(v)@) + changes_when_lowercased_chunk_65(),
{
    let ghost o = rview(v@);
    push_range(v, '\u{A692}', '\u{A692}');
    push_range(v, '\u{A694}', '\u{A694}');
    push_range(v, '\u{A696}', '\u{A696}');
    push_range(v, '\u{A698}', '\u{A698}');
    push_range(v, '\u{A69A}', '\u{A69A}');
    push_range(v, '\u{A722}', '\u{A722}');
    push_range(v, '\u{A724}', '\u{A724}');
    push_range(v, '\u{A726}', '\u{A726}');
    assert(rview(v@) =~= o + changes_when_lowercased_chunk_65());
}

fn push_changes_when_lowercased_chunk_66(v: &mut Vec<ClassUnicodeRange>)
    ensures
        rview(final(v)@) == rview(old(v)@) + changes_when_lowercased_chunk_66(),
{
    let ghost o = rview(v@);
    push_range(v, '\u{A728}', '\u{A728}');
    push_range(v, '\u{A72A}', '\u{A72A}');
    push_range(v, '\u{A72C}', '\u{A72C}');
    push_range(v, '\u{A72E}', '\u{A72E}');
    push_range(v, '\u{A732}', '\u{A732}');
    push_range(v, '\u{A734}', '\u{A734}');
    push_range(v, '\u{A736}', '\u{A736}');
    push_range(v, '\u{A738}', '\u{A738}');
    assert(rview(v@) =~= o + changes_when_lowercased_chunk_66());
}

fn push_changes_when_lowercased_chunk_67(v: &mut Vec<ClassUnicodeRange>)
    ensures
        rview(final(v)@) == rview(old(v)@) + changes_when_lowercased_chunk_67(),
{
    let ghost o = rview(v@);
    push_range(v, '\u{A73A}', '\u{A73A}');
    push_range(v, '\u{A73C}', '\u{A73C}');
    push_range(v, '\u{A73E}', '\u{A73E}');
    push_range(v, '\u{A740}', '\u{A740}');
    push_range(v, '\u{A742}', '\u{A742}');
    push_range(v, '\u{A744}', '\u{A744}');
    push_range(v, '\u{A746}', '\u{A746}');
    push_range(v, '\u{A748}', '\u{A748}');
    assert(rview(v@) =~= o + changes_when_lowercased_chunk_67());
}

fn push_changes_when_lowercased_chunk_68(v: &mut Vec<ClassUnicodeRange>)
    ensures
        rview(final(v)@) == rview(old(v)@) + changes_when_lowercased_chunk_68(),
{
    let ghost o = rview(v@);
    push_range(v, '\u{A74A}', '\u{A74A}');
    push_range(v, '\u{A74C}', '\u{A74C}');
    push_range(v, '\u{A74E}', '\u{A74E}');
    push_range(v, '\u{A750}', '\u{A750}');
    push_range(v, '\u{A752}', '\u{A752}');
    push_range(v, '\u{A754}', '\u{A754}');
    push_range(v, '\u{A756}', '\u{A756}');
    push_range(v, '\u{A758}', '\u{A758}');
    assert(rview(v@) =~= o + changes_when_lowercased_chunk_68());
}

fn push_changes_when_lowercased_chunk_69(v: &mut Vec<ClassUnicodeRange>)
    ensures
        rview(final(v)@) == rview(old(v)@) + changes_when_lowercased_chunk_69(),
{
    let ghost o = rview(v@);
    push_range(v, '\u{A75A}', '\u{A75A}');
    push_range(v, '\u{A75C}', '\u{A75C}');
    push_range(v, '\u{A75E}', '\u{A75E}');
    push_range(v, '\u{A760}', '\u{A760}');
    push_range(v, '\u{A762}', '\u{A762}');
    push_range(v, '\u{A764}', '\u{A764}');
    push_range(v, '\u{A766}', '\u{A766}');
    push_range(v, '\u{A768}', '\u{A768}');
    assert(rview(v@) =~= o + changes_when_lowercased_chunk_69());
}

fn push_changes_when_lowercased_chunk_70(v: &mut Vec<ClassUnicodeRange>)
    ensures
        rview(final(v)@) == rview(old(v)@) + changes_when_lowercased_chunk_70(),
{
    let ghost o = rview(v@);
    push_range(v, '\u{A76A}', '\u{A76A}');
    push_range(v, '\u{A76C}', '\u{A76C}');
    push_range(v, '\u{A76E}', '\u{A76E}');
    push_range(v, '\u{A779}', '\u{A779}');
    push_range(v, '\u{A77B}', '\u{A77B}');
    push_range(v, '\u{A77D}', '\u{A77E}');
    push_range(v, '\u{A780}', '\u{A780}');
    push_range(v, '\u{A782}', '\u{A782}');
    assert(rview(v@) =~= o + changes_when_lowercased_chunk_70());
}

fn push_changes_when_lowercased_chunk_71(v: &mut Vec<ClassUnicodeRange>)
    ensures
        rview(final(v)@) == rview(old(v)@) + changes_when_lowercased_chunk_71(),
{
    let ghost o = rview(v@);
    push_range(v, '\u{A784}', '\u{A784}');
    push_range(v, '\u{A786}', '\u{A786}');
    push_range(v, '\u{A78B}', '\u{A78B}');
    push_range(v, '\u{A78D}', '\u{A78D}');
    push_range(v, '\u{A790}', '\u{A790}');
    push_range(v, '\u{A792}', '\u{A792}');
    push_range(v, '\u{A796}', '\u{A796}');
    push_range(v, '\u{A798}', '\u{A798}');
    assert(rview(v@) =~= o + changes_when_lowercased_chunk_71());
}

fn push_changes_when_lowercased_chunk_72(v: &mut Vec<ClassUnicodeRange>)
    ensures
        rview(final(v)@) == rview(old(v)@) + changes_when_lowercased_chunk_72(),
{
    let ghost o = rview(v@);
    push_range(v, '\u{A79A}', '\u{A79A}');
    push_range(v, '\u{A79C}', '\u{A79C}');
    push_range(v, '\u{A79E}', '\u{A79E}');
    push_range(v, '\u{A7A0}', '\u{A7A0}');
    push_range(v, '\u{A7A2}', '\u{A7A2}');
    push_range(v, '\u{A7A4}', '\u{A7A4}');
    push_range(v, '\u{A7A6}', '\u{A7A6}');
    push_range(v, '\u{A7A8}', '\u{A7A8}');
    assert(rview(v@) =~= o + changes_when_lowercased_chunk_72());
}

fn push_changes_when_lowercased_chunk_73(v: &mut Vec<ClassUnicodeRange>)
    ensures
        rview(final(v)@) == rview(old(v)@) + changes_when_lowercased_chunk_73(),
{
    let ghost o = rview(v@);
    push_range(v, '\u{A7AA}', '\u{A7AE}');
    push_range(v, '\u{A7B0}', '\u{A7B4}');
    push_range(v, '\u{A7B6}', '\u{A7B6}');
    push_range(v, '\u{A7B8}', '\u{A7B8}');
    push_range(v, '\u{A7BA}', '\u{A7BA}');
    push_range(v, '\u{A7BC}', '\u{A7BC}');
    push_range(v, '\u{A7BE}', '\u{A7BE}');
    push_range(v, '\u{A7C0}', '\u{A7C0}');
    assert(rview(v@) =~= o + changes_when_lowercased_chunk_73());
}

fn push_changes_when_lowercased_chunk_74(v: &mut Vec<ClassUnicodeRange>)
    ensures
        rview(final(v)@) == rview(old(v)@) + changes_when_lowercased_chunk_74(),
{
    let ghost o = rview(v@);
    push_range(v, '\u{A7C2}', '\u{A7C2}');
    push_range(v, '\u{A7C4}', '\u{A7C7}');
    push_range(v, '\u{A7C9}', '\u{A7C9}');
    push_range(v, '\u{A7CB}', '\u{A7CC}');
    push_range(v, '\u{A7D0}', '\u{A7D0}');
    push_range(v, '\u{A7D6}', '\u{A7D6}');
    push_range(v, '\u{A7D8}', '\u{A7D8}');
    push_range(v, '\u{A7DA}', '\u{A7DA}');
    assert(rview(v@) =~= o + changes_when_lowercased_chunk_74());
}

fn push_changes_when_lowercased_chunk_75(v: &mut Vec<ClassUnicodeRange>)
    ensures
        rview(final(v)@) == rview(old(v)@) + changes_when_lowercased_chunk_75(),
{
    let ghost o = rview(v@);
    push_range(v, '\u{A7DC}', '\u{A7DC}');
    push_range(v, '\u{A7F5}', '\u{A7F5}');
    push_range(v, '\u{FF21}', '\u{FF3A}');
    push_range(v, '\u{10400}', '\u{10427}');
    push_range(v, '\u{104B0}', '\u{104D3}');
    push_range(v, '\u{10570}', '\u{1057A}');
    push_range(v, '\u{1057C}', '\u{1058A}');
    push_range(v, '\u{1058C}', '\u{10592}');
    assert(rview(v@) =~= o + changes_when_lowercased_chunk_75());
}

fn push_changes_when_lowercased_chunk_76(v: &mut Vec<ClassUnicodeRange>)
    ensures
        rview(final(v)@) == rview(old(v)@) + changes_when_lowercased_chunk_76(),
{
    let ghost o = rview(v@);
    push_range(v, '\u{10594}', '\u{10595}');
    push_range(v, '\u{10C80}', '\u{10CB2}');
    push_range(v, '\u{10D50}', '\u{10D65}');
    push_range(v, '\u{118A0}', '\u{118BF}');
    push_range(v, '\u{16E40}', '\u{16E5F}');
    push_range(v, '\u{1E900}', '\u{1E921}');
    assert(rview(v@) =~= o + changes_when_lowercased_chunk_76());
}

fn push_changes_when_lowercased_block_0(v: &mut Vec<ClassUnicodeRange>)
    ensures
        rview(final(v)@) == rview(old(v)@) + changes_when_lowercased_block_0(),
{
    let ghost o = rview(v@);
    push_changes_when_lowercased_chunk_0(v);
    assert(rview(v@) =~= o + (changes_when_lowercased_chunk_0()));
    push_changes_when_lowercased_chunk_1(v);
    assert(rview(v@) =~= o + (changes_when_lowercased_chunk_0() + changes_when_lowercased_chunk_1()));
    push_changes_when_lowercased_chunk_2(v);
    assert(rview(v@) =~= o + (changes_when_lowercased_chunk_0() + changes_when_lowercased_chunk_1() + changes_when_lowercased_chunk_2()));
    push_changes_when_lowercased_chunk_3(v);
    assert(rview(v@) =~= o + (changes_when_lowercased_chunk_0() + changes_when_lowercased_chunk_1() + changes_when_lowercased_chunk_2() + changes_when_lowercased_chunk_3()));
    push_changes_when_lowercased_chunk_4(v);
    assert(rview(v@) =~= o + (changes_when_lowercased_chunk_0() + changes_when_lowercased_chunk_1() + changes_when_lowercased_chunk_2() + changes_when_lowercased_chunk_3() + changes_when_lowercased_chunk_4()));
    push_changes_when_lowercased_chunk_5(v);
    assert(rview(v@) =~= o + (changes_when_lowercased_chunk_0() + changes_when_lowercased_chunk_1() + changes_when_lowercased_chunk_2() + changes_when_lowercased_chunk_3() + changes_when_lowercased_chunk_4() + changes_when_lowercased_chunk_5()));
    push_changes_when_lowercased_chunk_6(v);
    assert(rview(v@) =~= o + (changes_when_lowercased_chunk_0() + changes_when_lowercased_chunk_1() + changes_when_lowercased_chunk_2() + changes_when_lowercased_chunk_3() + changes_when_lowercased_chunk_4() + changes_when_lowercased_chunk_5() + changes_when_lowercased_chunk_6()));
    push_changes_when_lowercased_chunk_7(v);
    assert(rview(v@) =~= o + (changes_when_lowercased_chunk_0() + changes_when_lowercased_chunk_1() + changes_when_lowercased_chunk_2() + changes_when_lowercased_chunk_3() + changes_when_lowercased_chunk_4() + changes_when_lowercased_chunk_5() + changes_when_lowercased_chunk_6() + changes_when_lowercased_chunk_7()));
    push_changes_when_lowercased_chunk_8(v);
    assert(rview(v@) =~= o + (changes_when_lowercased_chunk_0() + changes_when_lowercased_chunk_1() + changes_when_lowercased_chunk_2() + changes_when_lowercased_chunk_3() + changes_when_lowercased_chunk_4() + changes_when_lowercased_chunk_5() + changes_when_lowercased_chunk_6() + changes_when_lowercased_chunk_7() + changes_when_lowercased_chunk_8()));
    push_changes_when_lowercased_chunk_9(v);
    assert(rview(v@) =~= o + (changes_when_lowercased_chunk_0() + changes_when_lowercased_chunk_1() + changes_when_lowercased_chunk_2() + changes_when_lowercased_chunk_3() + changes_when_lowercased_chunk_4() + changes_when_lowercased_chunk_5() + changes_when_lowercased_chunk_6() + changes_when_lowercased_chunk_7() + changes_when_lowercased_chunk_8() + changes_when_lowercased_chunk_9()));
}

fn push_changes_when_lowercased_block_1(v: &mut Vec<ClassUnicodeRange>)
    ensures
        rview(final(v)@) == rview(old(v)@) + changes_when_lowercased_block_1(),
{
    let ghost o = rview(v@);
    push_changes_when_lowercased_chunk_10(v);
    assert(rview(v@) =~= o + (changes_when_lowercased_chunk_10()));
    push_changes_when_lowercased_chunk_11(v);
    assert(rview(v@) =~= o + (changes_when_lowercased_chunk_10() + changes_when_lowercased_chunk_11()));
    push_changes_when_lowercased_chunk_12(v);
    assert(rview(v@) =~= o + (changes_when_lowercased_chunk_10() + changes_when_lowercased_chunk_11() + changes_when_lowercased_chunk_12()));
    push_changes_when_lowercased_chunk_13(v);
    assert(rview(v@) =~= o + (changes_when_lowercased_chunk_10() + changes_when_lowercased_chunk_11() + changes_when_lowercased_chunk_12() + changes_when_lowercased_chunk_13()));
    push_changes_when_lowercased_chunk_14(v);
    assert(rview(v@) =~= o + (changes_when_lowercased_chunk_10() + changes_when_lowercased_chunk_11() + changes_when_lowercased_chunk_12() + changes_when_lowercased_chunk_13() + changes_when_lowercased_chunk_14()));
    push_changes_when_lowercased_chunk_15(v);
    assert(rview(v@) =~= o + (changes_when_lowercased_chunk_10() + changes_when_lowercased_chunk_11() + changes_when_lowercased_chunk_12() + changes_when_lowercased_chunk_13() + changes_when_lowercased_chunk_14() + changes_when_lowercased_chunk_15()));
    push_changes_when_lowercased_chunk_16(v);
    assert(rview(v@) =~= o + (changes_when_lowercased_chunk_10() + changes_when_lowercased_chunk_11() + changes_when_lowercased_chunk_12() + changes_when_lowercased_chunk_13() + changes_when_lowercased_chunk_14() + changes_when_lowercased_chunk_15() + changes_when_lowercased_chunk_16()));
    push_changes_when_lowercased_chunk_17(v);
    assert(rview(v@) =~= o + (changes_when_lowercased_chunk_10() + changes_when_lowercased_chunk_11() + changes_when_lowercased_chunk_12() + changes_when_lowercased_chunk_13() + changes_when_lowercased_chunk_14() + changes_when_lowercased_chunk_15() + changes_when_lowercased_chunk_16() + changes_when_lowercased_chunk_17()));
    push_changes_when_lowercased_chunk_18(v);
    assert(rview(v@) =~= o + (changes_when_lowercased_chunk_10() + changes_when_lowercased_chunk_11() + changes_when_lowercased_chunk_12() + changes_when_lowercased_chunk_13() + changes_when_lowercased_chunk_14() + changes_when_lowercased_chunk_15() + changes_when_lowercased_chunk_16() + changes_when_lowercased_chunk_17() + changes_when_lowercased_chunk_18()));
    push_changes_when_lowercased_chunk_19(v);
    assert(rview(v@) =~= o + (changes_when_lowercased_chunk_10() + changes_when_lowercased_chunk_11() + changes_when_lowercased_chunk_12() + changes_when_lowercased_chunk_13() + changes_when_lowercased_chunk_14() + changes_when_lowercased_chunk_15() + changes_when_lowercased_chunk_16() + changes_when_lowercased_chunk_17() + changes_when_lowercased_chunk_18() + changes_when_lowercased_chunk_19()));
}

fn push_changes_when_lowercased_block_2(v: &mut Vec<ClassUnicodeRange>)
    ensures
        rview(final(v)@) == rview(old(v)@) + changes_when_lowercased_block_2(),
{
    let ghost o = rview(v@);
    push_changes_when_lowercased_chunk_20(v);
    assert(rview(v@) =~= o + (changes_when_lowercased_chunk_20()));
    push_changes_when_lowercased_chunk_21(v);
    assert(rview(v@) =~= o + (changes_when_lowercased_chunk_20() + changes_when_lowercased_chunk_21()));
    push_changes_when_lowercased_chunk_22(v);
    assert(rview(v@) =~= o + (changes_when_lowercased_chunk_20() + changes_when_lowercased_chunk_21() + changes_when_lowercased_chunk_22()));
    push_changes_when_lowercased_chunk_23(v);
    assert(rview(v@) =~= o + (changes_when_lowercased_chunk_20() + changes_when_lowercased_chunk_21() + changes_when_lowercased_chunk_22() + changes_when_lowercased_chunk_23()));
    push_changes_when_lowercased_chunk_24(v);
    assert(rview(v@) =~= o + (changes_when_lowercased_chunk_20() + changes_when_lowercased_chunk_21() + changes_when_lowercased_chunk_22() + changes_when_lowercased_chunk_23() + changes_when_lowercased_chunk_24()));
    push_changes_when_lowercased_chunk_25(v);
    assert(rview(v@) =~= o + (changes_when_lowercased_chunk_20() + changes_when_lowercased_chunk_21() + changes_when_lowercased_chunk_22() + changes_when_lowercased_chunk_23() + changes_when_lowercased_chunk_24() + changes_when_lowercased_chunk_25()));
    push_changes_when_lowercased_chunk_26(v);
    assert(rview(v@) =~= o + (changes_when_lowercased_chunk_20() + changes_when_lowercased_chunk_21() + changes_when_lowercased_chunk_22() + changes_when_lowercased_chunk_23() + changes_when_lowercased_chunk_24() + changes_when_lowercased_chunk_25() + changes_when_lowercased_chunk_26()));
    push_changes_when_lowercased_chunk_27(v);
    assert(rview(v@) =~= o + (changes_when_lowercased_chunk_20() + changes_when_lowercased_chunk_21() + changes_when_lowercased_chunk_22() + changes_when_lowercased_chunk_23() + changes_when_lowercased_chunk_24() + changes_when_lowercased_chunk_25() + changes_when_lowercased_chunk_26() + changes_when_lowercased_chunk_27()));
    push_changes_when_lowercased_chunk_28(v);
    assert(rview(v@) =~= o + (changes_when_lowercased_chunk_20() + changes_when_lowercased_chunk_21() + changes_when_lowercased_chunk_22() + changes_when_lowercased_chunk_23() + changes_when_lowercased_chunk_24() + changes_when_lowercased_chunk_25() + changes_when_lowercased_chunk_26() + changes_when_lowercased_chunk_27() + changes_when_lowercased_chunk_28()));
    push_changes_when_lowercased_chunk_29(v);
    assert(rview(v@) =~= o + (changes_when_lowercased_chunk_20() + changes_when_lowercased_chunk_21() + changes_when_lowercased_chunk_22() + changes_when_lowercased_chunk_23() + changes_when_lowercased_chunk_24() + changes_when_lowercased_chunk_25() + changes_when_lowercased_chunk_26() + changes_when_lowercased_chunk_27() + changes_when_lowercased_chunk_28() + changes_when_lowercased_chunk_29()));
}

fn push_changes_when_lowercased_block_3(v: &mut Vec<ClassUnicodeRange>)
    ensures
        rview(final(v)@) == rview(old(v)@) + changes_when_lowercased_block_3(),
{
    let ghost o = rview(v@);
    push_changes_when_lowercased_chunk_30(v);
    assert(rview(v@) =~= o + (changes_when_lowercased_chunk_30()));
    push_changes_when_lowercased_chunk_31(v);
    assert(rview(v@) =~= o + (changes_when_lowercased_chunk_30() + changes_when_lowercased_chunk_31()));
    push_changes_when_lowercased_chunk_32(v);
    assert(rview(v@) =~= o + (changes_when_lowercased_chunk_30() + changes_when_lowercased_chunk_31() + changes_when_lowercased_chunk_32()));
    push_changes_when_lowercased_chunk_33(v);
    assert(rview(v@) =~= o + (changes_when_lowercased_chunk_30() + changes_when_lowercased_chunk_31() + changes_when_lowercased_chunk_32() + changes_when_lowercased_chunk_33()));
    push_changes_when_lowercased_chunk_34(v);
    assert(rview(v@) =~= o + (changes_when_lowercased_chunk_30() + changes_when_lowercased_chunk_31() + changes_when_lowercased_chunk_32() + changes_when_lowercased_chunk_33() + changes_when_lowercased_chunk_34()));
    push_changes_when_lowercased_chunk_35(v);
    assert(rview(v@) =~= o + (changes_when_lowercased_chunk_30() + changes_when_lowercased_chunk_31() + changes_when_lowercased_chunk_32() + changes_when_lowercased_chunk_33() + changes_when_lowercased_chunk_34() + changes_when_lowercased_chunk_35()));
    push_changes_when_lowercased_chunk_36(v);
    assert(rview(v@) =~= o + (changes_when_lowercased_chunk_30() + changes_when_lowercased_chunk_31() + changes_when_lowercased_chunk_32() + changes_when_lowercased_chunk_33() + changes_when_lowercased_chunk_34() + changes_when_lowercased_chunk_35() + changes_when_lowercased_chunk_36()));
    push_changes_when_lowercased_chunk_37(v);
    assert(rview(v@) =~= o + (changes_when_lowercased_chunk_30() + changes_when_lowercased_chunk_31() + changes_when_lowercased_chunk_32() + changes_when_lowercased_chunk_33() + changes_when_lowercased_chunk_34() + changes_when_lowercased_chunk_35() + changes_when_lowercased_chunk_36() + changes_when_lowercased_chunk_37()));
    push_changes_when_lowercased_chunk_38(v);
    assert(rview(v@) =~= o + (changes_when_lowercased_chunk_30() + changes_when_lowercased_chunk_31() + changes_when_lowercased_chunk_32() + changes_when_lowercased_chunk_33() + changes_when_lowercased_chunk_34() + changes_when_lowercased_chunk_35() + changes_when_lowercased_chunk_36() + changes_when_lowercased_chunk_37() + changes_when_lowercased_chunk_38()));
    push_changes_when_lowercased_chunk_39(v);
    assert(rview(v@) =~= o + (changes_when_lowercased_chunk_30() + changes_when_lowercased_chunk_31() + changes_when_lowercased_chunk_32() + changes_when_lowercased_chunk_33() + changes_when_lowercased_chunk_34() + changes_when_lowercased_chunk_35() + changes_when_lowercased_chunk_36() + changes_when_lowercased_chunk_37() + changes_when_lowercased_chunk_38() + changes_when_lowercased_chunk_39()));
}

fn push_changes_when_lowercased_block_4(v: &mut Vec<ClassUnicodeRange>)
    ensures
        rview(final(v)@) == rview(old(v)@) + changes_when_lowercased_block_4(),
{
    let ghost o = rview(v@);
    push_changes_when_lowercased_chunk_40(v);
    assert(rview(v@) =~= o + (changes_when_lowercased_chunk_40()));
    push_changes_when_lowercased_chunk_41(v);
    assert(rview(v@) =~= o + (changes_when_lowercased_chunk_40() + changes_when_lowercased_chunk_41()));
    push_changes_when_lowercased_chunk_42(v);
    assert(rview(v@) =~= o + (changes_when_lowercased_chunk_40() + changes_when_lowercased_chunk_41() + changes_when_lowercased_chunk_42()));
    push_changes_when_lowercased_chunk_43(v);
    assert(rview(v@) =~= o + (changes_when_lowercased_chunk_40() + changes_when_lowercased_chunk_41() + changes_when_lowercased_chunk_42() + changes_when_lowercased_chunk_43()));
    push_changes_when_lowercased_chunk_44(v);
    assert(rview(v@) =~= o + (changes_when_lowercased_chunk_40() + changes_when_lowercased_chunk_41() + changes_when_lowercased_chunk_42() + changes_when_lowercased_chunk_43() + changes_when_lowercased_chunk_44()));
    push_changes_when_lowercased_chunk_45(v);
    assert(rview(v@) =~= o + (changes_when_lowercased_chunk_40() + changes_when_lowercased_chunk_41() + changes_when_lowercased_chunk_42() + changes_when_lowercased_chunk_43() + changes_when_lowercased_chunk_44() + changes_when_lowercased_chunk_45()));
    push_changes_when_lowercased_chunk_46(v);
    assert(rview(v@) =~= o + (changes_when_lowercased_chunk_40() + changes_when_lowercased_chunk_41() + changes_when_lowercased_chunk_42() + changes_when_lowercased_chunk_43() + changes_when_lowercased_chunk_44() + changes_when_lowercased_chunk_45() + changes_when_lowercased_chunk_46()));
    push_changes_when_lowercased_chunk_47(v);
    assert(rview(v@) =~= o + (changes_when_lowercased_chunk_40() + changes_when_lowercased_chunk_41() + changes_when_lowercased_chunk_42() + changes_when_lowercased_chunk_43() + changes_when_lowercased_chunk_44() + changes_when_lowercased_chunk_45() + changes_when_lowercased_chunk_46() + changes_when_lowercased_chunk_47()));
    push_changes_when_lowercased_chunk_48(v);
    assert(rview(v@) =~= o + (changes_when_lowercased_chunk_40() + changes_when_lowercased_chunk_41() + changes_when_lowercased_chunk_42() + changes_when_lowercased_chunk_43() + changes_when_lowercased_chunk_44() + changes_when_lowercased_chunk_45() + changes_when_lowercased_chunk_46() + changes_when_lowercased_chunk_47() + changes_when_lowercased_chunk_48()));
    push_changes_when_lowercased_chunk_49(v);
    assert(rview(v@) =~= o + (changes_when_lowercased_chunk_40() + changes_when_lowercased_chunk_41() + changes_when_lowercased_chunk_42() + changes_when_lowercased_chunk_43() + changes_when_lowercased_chunk_44() + changes_when_lowercased_chunk_45() + changes_when_lowercased_chunk_46() + changes_when_lowercased_chunk_47() + changes_when_lowercased_chunk_48() + changes_when_lowercased_chunk_49()));
}

fn push_changes_when_lowercased_block_5(v: &mut Vec<ClassUnicodeRange>)
    ensures
        rview(final(v)@) == rview(old(v)@) + changes_when_lowercased_block_5(),
{
    let ghost o = rview(v@);
    push_changes_when_lowercased_chunk_50(v);
    assert(rview(v@) =~= o + (changes_when_lowercased_chunk_50()));
    push_changes_when_lowercased_chunk_51(v);
    assert(rview(v@) =~= o + (changes_when_lowercased_chunk_50() + changes_when_lowercased_chunk_51()));
    push_changes_when_lowercased_chunk_52(v);
    assert(rview(v@) =~= o + (changes_when_lowercased_chunk_50() + changes_when_lowercased_chunk_51() + changes_when_lowercased_chunk_52()));
    push_changes_when_lowercased_chunk_53(v);
    assert(rview(v@) =~= o + (changes_when_lowercased_chunk_50() + changes_when_lowercased_chunk_51() + changes_when_lowercased_chunk_52() + changes_when_lowercased_chunk_53()));
    push_changes_when_lowercased_chunk_54(v);
    assert(rview(v@) =~= o + (changes_when_lowercased_chunk_50() + changes_when_lowercased_chunk_51() + changes_when_lowercased_chunk_52() + changes_when_lowercased_chunk_53() + changes_when_lowercased_chunk_54()));
    push_changes_when_lowercased_chunk_55(v);
    assert(rview(v@) =~= o + (changes_when_lowercased_chunk_50() + changes_when_lowercased_chunk_51() + changes_when_lowercased_chunk_52() + changes_when_lowercased_chunk_53() + changes_when_lowercased_chunk_54() + changes_when_lowercased_chunk_55()));
    push_changes_when_lowercased_chunk_56(v);
    assert(rview(v@) =~= o + (changes_when_lowercased_chunk_50() + changes_when_lowercased_chunk_51() + changes_when_lowercased_chunk_52() + changes_when_lowercased_chunk_53() + changes_when_lowercased_chunk_54() + changes_when_lowercased_chunk_55() + changes_when_lowercased_chunk_56()));
    push_changes_when_lowercased_chunk_57(v);
    assert(rview(v@) =~= o + (changes_when_lowercased_chunk_50() + changes_when_lowercased_chunk_51() + changes_when_lowercased_chunk_52() + changes_when_lowercased_chunk_53() + changes_when_lowercased_chunk_54() + changes_when_lowercased_chunk_55() + changes_when_lowercased_chunk_56() + changes_when_lowercased_chunk_57()));
    push_changes_when_lowercased_chunk_58(v);
    assert(rview(v@) =~= o + (changes_when_lowercased_chunk_50() + changes_when_lowercased_chunk_51() + changes_when_lowercased_chunk_52() + changes_when_lowercased_chunk_53() + changes_when_lowercased_chunk_54() + changes_when_lowercased_chunk_55() + changes_when_lowercased_chunk_56() + changes_when_lowercased_chunk_57() + changes_when_lowercased_chunk_58()));
    push_changes_when_lowercased_chunk_59(v);
    assert(rview(v@) =~= o + (changes_when_lowercased_chunk_50() + changes_when_lowercased_chunk_51() + changes_when_lowercased_chunk_52() + changes_when_lowercased_chunk_53() + changes_when_lowercased_chunk_54() + changes_when_lowercased_chunk_55() + changes_when_lowercased_chunk_56() + changes_when_lowercased_chunk_57() + changes_when_lowercased_chunk_58() + changes_when_lowercased_chunk_59()));
}

fn push_changes_when_lowercased_block_6(v: &mut Vec<ClassUnicodeRange>)
    ensures
        rview(final(v)@) == rview(old(v)@) + changes_when_lowercased_block_6(),
{
    let ghost o = rview(v@);
    push_changes_when_lowercased_chunk_60(v);
    assert(rview(v@) =~= o + (changes_when_lowercased_chunk_60()));
    push_changes_when_lowercased_chunk_61(v);
    assert(rview(v@) =~= o + (changes_when_lowercased_chunk_60() + changes_when_lowercased_chunk_61()));
    push_changes_when_lowercased_chunk_62(v);
    assert(rview(v@) =~= o + (changes_when_lowercased_chunk_60() + changes_when_lowercased_chunk_61() + changes_when_lowercased_chunk_62()));
    push_changes_when_lowercased_chunk_63(v);
    assert(rview(v@) =~= o + (changes_when_lowercased_chunk_60() + changes_when_lowercased_chunk_61() + changes_when_lowercased_chunk_62() + changes_when_lowercased_chunk_63()));
    push_changes_when_lowercased_chunk_64(v);
    assert(rview(v@) =~= o + (changes_when_lowercased_chunk_60() + changes_when_lowercased_chunk_61() + changes_when_lowercased_chunk_62() + changes_when_lowercased_chunk_63() + changes_when_lowercased_chunk_64()));
    push_changes_when_lowercased_chunk_65(v);
    assert(rview(v@) =~= o + (changes_when_lowercased_chunk_60() + changes_when_lowercased_chunk_61() + changes_when_lowercased_chunk_62() + changes_when_lowercased_chunk_63() + changes_when_lowercased_chunk_64() + changes_when_lowercased_chunk_65()));
    push_changes_when_lowercased_chunk_66(v);
    assert(rview(v@) =~= o + (changes_when_lowercased_chunk_60() + changes_when_lowercased_chunk_61() + changes_when_lowercased_chunk_62() + changes_when_lowercased_chunk_63() + changes_when_lowercased_chunk_64() + changes_when_lowercased_chunk_65() + changes_when_lowercased_chunk_66()));
    push_changes_when_lowercased_chunk_67(v);
    assert(rview(v@) =~= o + (changes_when_lowercased_chunk_60() + changes_when_lowercased_chunk_61() + changes_when_lowercased_chunk_62() + changes_when_lowercased_chunk_63() + changes_when_lowercased_chunk_64() + changes_when_lowercased_chunk_65() + changes_when_lowercased_chunk_66() + changes_when_lowercased_chunk_67()));
    push_changes_when_lowercased_chunk_68(v);
    assert(rview(v@) =~= o + (changes_when_lowercased_chunk_60() + changes_when_lowercased_chunk_61() + changes_when_lowercased_chunk_62() + changes_when_lowercased_chunk_63() + changes_when_lowercased_chunk_64() + changes_when_lowercased_chunk_65() + changes_when_lowercased_chunk_66() + changes_when_lowercased_chunk_67() + changes_when_lowercased_chunk_68()));
    push_changes_when_lowercased_chunk_69(v);
    assert(rview(v@) =~= o + (changes_when_lowercased_chunk_60() + changes_when_lowercased_chunk_61() + changes_when_lowercased_chunk_62() + changes_when_lowercased_chunk_63() + changes_when_lowercased_chunk_64() + changes_when_lowercased_chunk_65() + changes_when_lowercased_chunk_66() + changes_when_lowercased_chunk_67() + changes_when_lowercased_chunk_68() + changes_when_lowercased_chunk_69()));
}

fn push_changes_when_lowercased_block_7(v: &mut Vec<ClassUnicodeRange>)
    ensures
        rview(final(v)@) == rview(old(v)@) + changes_when_lowercased_block_7(),
{
    let ghost o = rview(v@);
    push_changes_when_lowercased_chunk_70(v);
    assert(rview(v@) =~= o + (changes_when_lowercased_chunk_70()));
    push_changes_when_lowercased_chunk_71(v);
    assert(rview(v@) =~= o + (changes_when_lowercased_chunk_70() + changes_when_lowercased_chunk_71()));
    push_changes_when_lowercased_chunk_72(v);
    assert(rview(v@) =~= o + (changes_when_lowercased_chunk_70() + changes_when_lowercased_chunk_71() + changes_when_lowercased_chunk_72()));
    push_changes_when_lowercased_chunk_73(v);
    assert(rview(v@) =~= o + (changes_when_lowercased_chunk_70() + changes_when_lowercased_chunk_71() + changes_when_lowercased_chunk_72() + changes_when_lowercased_chunk_73()));
    push_changes_when_lowercased_chunk_74(v);
    assert(rview(v@) =~= o + (changes_when_lowercased_chunk_70() + changes_when_lowercased_chunk_71() + changes_when_lowercased_chunk_72() + changes_when_lowercased_chunk_73() + changes_when_lowercased_chunk_74()));
    push_changes_when_lowercased_chunk_75(v);
    assert(rview(v@) =~= o + (changes_when_lowercased_chunk_70() + changes_when_lowercased_chunk_71() + changes_when_lowercased_chunk_72() + changes_when_lowercased_chunk_73() + changes_when_lowercased_chunk_74() + changes_when_lowercased_chunk_75()));
    push_changes_when_lowercased_chunk_76(v);
    assert(rview(v@) =~= o + (changes_when_lowercased_chunk_70() + changes_when_lowercased_chunk_71() + changes_when_lowercased_chunk_72() + changes_when_lowercased_chunk_73() + changes_when_lowercased_chunk_74() + changes_when_lowercased_chunk_75() + changes_when_lowercased_chunk_76()));
}

pub fn changes_when_lowercased_class() -> (v: Vec<ClassUnicodeRange>)
    ensures
        rview(v@) == changes_when_lowercased_ranges(),
{
    let mut v: Vec<ClassUnicodeRange> = Vec::new();
    assert(rview(v@) =~= Seq::<SRange>::empty());
    push_changes_when_lowercased_block_0(&mut v);
    assert(rview(v@) =~= changes_when_lowercased_block_0());
    push_changes_when_lowercased_block_1(&mut v);
    assert(rview(v@) =~= changes_when_lowercased_block_0() + changes_when_lowercased_block_1());
    push_changes_when_lowercased_block_2(&mut v);
    assert(rview(v@) =~= changes_when_lowercased_block_0() + changes_when_lowercased_block_1() + changes_when_lowercased_block_2());
    push_changes_when_lowercased_block_3(&mut v);
    assert(rview(v@) =~= changes_when_lowercased_block_0() + changes_when_lowercased_block_1() + changes_when_lowercased_block_2() + changes_when_lowercased_block_3());
    push_changes_when_lowercased_block_4(&mut v);
    assert(rview(v@) =~= changes_when_lowercased_block_0() + changes_when_lowercased_block_1() + changes_when_lowercased_block_2() + changes_when_lowercased_block_3() + changes_when_lowercased_block_4());
    push_changes_when_lowercased_block_5(&mut v);
    assert(rview(v@) =~= changes_when_lowercased_block_0() + changes_when_lowercased_block_1() + changes_when_lowercased_block_2() + changes_when_lowercased_block_3() + changes_when_lowercased_block_4() + changes_when_lowercased_block_5());
    push_changes_when_lowercased_block_6(&mut v);
    assert(rview(v@) =~= changes_when_lowercased_block_0() + changes_when_lowercased_block_1() + changes_when_lowercased_block_2() + changes_when_lowercased_block_3() + changes_when_lowercased_block_4() + changes_when_lowercased_block_5() + changes_when_lowercased_block_6());
    push_changes_when_lowercased_block_7(&mut v);
    assert(rview(v@) =~= changes_when_lowercased_block_0() + changes_when_lowercased_block_1() + changes_when_lowercased_block_2() + changes_when_lowercased_block_3() + changes_when_lowercased_block_4() + changes_when_lowercased_block_5() + changes_when_lowercased_block_6() + changes_when_lowercased_block_7());
    v
}

pub open spec fn changes_when_titlecased_chunk_0() -> Seq<SRange> {
    seq![(0x61int, 0x7Aint), (0xB5int, 0xB5int), (0xDFint, 0xF6int), (0xF8int, 0xFFint), (0x101int, 0x101int), (0x103int, 0x103int), (0x105int, 0x105int), (0x107int, 0x107int)]
}

pub open spec fn changes_when_titlecased_chunk_1() -> Seq<SRange> {
    seq![(0x109int, 0x109int), (0x10Bint, 0x10Bint), (0x10Dint, 0x10Dint), (0x10Fint, 0x10Fint), (0x111int, 0x111int), (0x113int, 0x113int), (0x115int, 0x115int), (0x117int, 0x117int)]
}

pub open spec fn changes_when_titlecased_chunk_2() -> Seq<SRange> {
    seq![(0x119int, 0x119int), (0x11Bint, 0x11Bint), (0x11Dint, 0x11Dint), (0x11Fint, 0x11Fint), (0x121int, 0x121int), (0x123int, 0x123int), (0x125int, 0x125int), (0x127int, 0x127int)]
}

pub open spec fn changes_when_titlecased_chunk_3() -> Seq<SRange> {
    seq![(0x129int, 0x129int), (0x12Bint, 0x12Bint), (0x12Dint, 0x12Dint), (0x12Fint, 0x12Fint), (0x131int, 0x131int), (0x133int, 0x133int), (0x135int, 0x135int), (0x137int, 0x137int)]
}

pub open spec fn changes_when_titlecased_chunk_4() -> Seq<SRange> {
    seq![(0x13Aint, 0x13Aint), (0x13Cint, 0x13Cint), (0x13Eint, 0x13Eint), (0x140int, 0x140int), (0x142int, 0x142int), (0x144int, 0x144int), (0x146int, 0x146int), (0x148int, 0x149int)]
}

pub open spec fn changes_when_titlecased_chunk_5() -> Seq<SRange> {
    seq![(0x14Bint, 0x14Bint), (0x14Dint, 0x14Dint), (0x14Fint, 0x14Fint), (0x151int, 0x151int), (0x153int, 0x153int), (0x155int, 0x155int), (0x157int, 0x157int), (0x159int, 0x159int)]
}

pub open spec fn changes_when_titlecased_chunk_6() -> Seq<SRange> {
    seq![(0x15Bint, 0x15Bint), (0x15Dint, 0x15Dint), (0x15Fint, 0x15Fint), (0x161int, 0x161int), (0x163int, 0x163int), (0x165int, 0x165int), (0x167int, 0x167int), (0x169int, 0x169int)]
}

pub open spec fn changes_when_titlecased_chunk_7() -> Seq<SRange> {
    seq![(0x16Bint, 0x16Bint), (0x16Dint, 0x16Dint), (0x16Fint, 0x16Fint), (0x171int, 0x171int), (0x173int, 0x173int), (0x175int, 0x175int), (0x177int, 0x177int), (0x17Aint, 0x17Aint)]
}

pub open spec fn changes_when_titlecased_chunk_8() -> Seq<SRange> {
    seq![(0x17Cint, 0x17Cint), (0x17Eint, 0x180int), (0x183int, 0x183int), (0x185int, 0x185int), (0x188int, 0x188int), (0x18Cint, 0x18Cint), (0x192int, 0x192int), (0x195int, 0x195int)]
}

pub open spec fn changes_when_titlecased_chunk_9() -> Seq<SRange> {
    seq![(0x199int, 0x19Bint), (0x19Eint, 0x19Eint), (0x1A1int, 0x1A1int), (0x1A3int, 0x1A3int), (0x1A5int, 0x1A5int), (0x1A8int, 0x1A8int), (0x1ADint, 0x1ADint), (0x1B0int, 0x1B0int)]
}

pub open spec fn changes_when_titlecased_chunk_10() -> Seq<SRange> {
    seq![(0x1B4int, 0x1B4int), (0x1B6int, 0x1B6int), (0x1B9int, 0x1B9int), (0x1BDint, 0x1BDint), (0x1BFint, 0x1BFint), (0x1C4int, 0x1C4int), (0x1C6int, 0x1C7int), (0x1C9int, 0x1CAint)]
}

pub open spec fn changes_when_titlecased_chunk_11() -> Seq<SRange> {
    seq![(0x1CCint, 0x1CCint), (0x1CEint, 0x1CEint), (0x1D0int, 0x1D0int), (0x1D2int, 0x1D2int), (0x1D4int, 0x1D4int), (0x1D6int, 0x1D6int), (0x1D8int, 0x1D8int), (0x1DAint, 0x1DAint)]
}

pub open spec fn changes_when_titlecased_chunk_12() -> Seq<SRange> {
    seq![(0x1DCint, 0x1DDint), (0x1DFint, 0x1DFint), (0x1E1int, 0x1E1int), (0x1E3int, 0x1E3int), (0x1E5int, 0x1E5int), (0x1E7int, 0x1E7int), (0x1E9int, 0x1E9int), (0x1EBint, 0x1EBint)]
}

pub open spec fn changes_when_titlecased_chunk_13() -> Seq<SRange> {
    seq![(0x1EDint, 0x1EDint), (0x1EFint, 0x1F1int), (0x1F3int, 0x1F3int), (0x1F5int, 0x1F5int), (0x1F9int, 0x1F9int), (0x1FBint, 0x1FBint), (0x1FDint, 0x1FDint), (0x1FFint, 0x1FFint)]
}

pub open spec fn changes_when_titlecased_chunk_14() -> Seq<SRange> {
    seq![(0x201int, 0x201int), (0x203int, 0x203int), (0x205int, 0x205int), (0x207int, 0x207int), (0x209int, 0x209int), (0x20Bint, 0x20Bint), (0x20Dint, 0x20Dint), (0x20Fint, 0x20Fint)]
}

pub open spec fn changes_when_titlecased_chunk_15() -> Seq<SRange> {
    seq![(0x211int, 0x211int), (0x213int, 0x213int), (0x215int, 0x215int), (0x217int, 0x217int), (0x219int, 0x219int), (0x21Bint, 0x21Bint), (0x21Dint, 0x21Dint), (0x21Fint, 0x21Fint)]
}

pub open spec fn changes_when_titlecased_chunk_16() -> Seq<SRange> {
    seq![(0x223int, 0x223int), (0x225int, 0x225int), (0x227int, 0x227int), (0x229int, 0x229int), (0x22Bint, 0x22Bint), (0x22Dint, 0x22Dint), (0x22Fint, 0x22Fint), (0x231int, 0x231int)]
}

pub open spec fn changes_when_titlecased_chunk_17() -> Seq<SRange> {
    seq![(0x233int, 0x233int), (0x23Cint, 0x23Cint), (0x23Fint, 0x240int), (0x242int, 0x242int), (0x247int, 0x247int), (0x249int, 0x249int), (0x24Bint, 0x24Bint), (0x24Dint, 0x24Dint)]
}

pub open spec fn changes_when_titlecased_chunk_18() -> Seq<SRange> {
    seq![(0x24Fint, 0x254int), (0x256int, 0x257int), (0x259int, 0x259int), (0x25Bint, 0x25Cint), (0x260int, 0x261int), (0x263int, 0x266int), (0x268int, 0x26Cint), (0x26Fint, 0x26Fint)]
}

pub open spec fn changes_when_titlecased_chunk_19() -> Seq<SRange> {
    seq![(0x271int, 0x272int), (0x275int, 0x275int), (0x27Dint, 0x27Dint), (0x280int, 0x280int), (0x282int, 0x283int), (0x287int, 0x28Cint), (0x292int, 0x292int), (0x29Dint, 0x29Eint)]
}

pub open spec fn changes_when_titlecased_chunk_20() -> Seq<SRange> {
    seq![(0x345int, 0x345int), (0x371int, 0x371int), (0x373int, 0x373int), (0x377int, 0x377int), (0x37Bint, 0x37Dint), (0x390int, 0x390int), (0x3ACint, 0x3CEint), (0x3D0int, 0x3D1int)]
}

pub open spec fn changes_when_titlecased_chunk_21() -> Seq<SRange> {
    seq![(0x3D5int, 0x3D7int), (0x3D9int, 0x3D9int), (0x3DBint, 0x3DBint), (0x3DDint, 0x3DDint), (0x3DFint, 0x3DFint), (0x3E1int, 0x3E1int), (0x3E3int, 0x3E3int), (0x3E5int, 0x3E5int)]
}

pub open spec fn changes_when_titlecased_chunk_22() -> Seq<SRange> {
    seq![(0x3E7int, 0x3E7int), (0x3E9int, 0x3E9int), (0x3EBint, 0x3EBint), (0x3EDint, 0x3EDint), (0x3EFint, 0x3F3int), (0x3F5int, 0x3F5int), (0x3F8int, 0x3F8int), (0x3FBint, 0x3FBint)]
}

pub open spec fn changes_when_titlecased_chunk_23() -> Seq<SRange> {
    seq![(0x430int, 0x45Fint), (0x461int, 0x461int), (0x463int, 0x463int), (0x465int, 0x465int), (0x467int, 0x467int), (0x469int, 0x469int), (0x46Bint, 0x46Bint), (0x46Dint, 0x46Dint)]
}

pub open spec fn changes_when_titlecased_chunk_24() -> Seq<SRange> {
    seq![(0x46Fint, 0x46Fint), (0x471int, 0x471int), (0x473int, 0x473int), (0x475int, 0x475int), (0x477int, 0x477int), (0x479int, 0x479int), (0x47Bint, 0x47Bint), (0x47Dint, 0x47Dint)]
}

pub open spec fn changes_when_titlecased_chunk_25() -> Seq<SRange> {
    seq![(0x47Fint, 0x47Fint), (0x481int, 0x481int), (0x48Bint, 0x48Bint), (0x48Dint, 0x48Dint), (0x48Fint, 0x48Fint), (0x491int, 0x491int), (0x493int, 0x493int), (0x495int, 0x495int)]
}

pub open spec fn changes_when_titlecased_chunk_26() -> Seq<SRange> {
    seq![(0x497int, 0x497int), (0x499int, 0x499int), (0x49Bint, 0x49Bint), (0x49Dint, 0x49Dint), (0x49Fint, 0x49Fint), (0x4A1int, 0x4A1int), (0x4A3int, 0x4A3int), (0x4A5int, 0x4A5int)]
}

pub open spec fn changes_when_titlecased_chunk_27() -> Seq<SRange> {
    seq![(0x4A7int, 0x4A7int), (0x4A9int, 0x4A9int), (0x4ABint, 0x4ABint), (0x4ADint, 0x4ADint), (0x4AFint, 0x4AFint), (0x4B1int, 0x4B1int), (0x4B3int, 0x4B3int), (0x4B5int, 0x4B5int)]
}

pub open spec fn changes_when_titlecased_chunk_28() -> Seq<SRange> {
    seq![(0x4B7int, 0x4B7int), (0x4B9int, 0x4B9int), (0x4BBint, 0x4BBint), (0x4BDint, 0x4BDint), (0x4BFint, 0x4BFint), (0x4C2int, 0x4C2int), (0x4C4int, 0x4C4int), (0x4C6int, 0x4C6int)]
}

pub open spec fn changes_when_titlecased_chunk_29() -> Seq<SRange> {
    seq![(0x4C8int, 0x4C8int), (0x4CAint, 0x4CAint), (0x4CCint, 0x4CCint), (0x4CEint, 0x4CFint), (0x4D1int, 0x4D1int), (0x4D3int, 0x4D3int), (0x4D5int, 0x4D5int), (0x4D7int, 0x4D7int)]
}

pub open spec fn changes_when_titlecased_chunk_30() -> Seq<SRange> {
    seq![(0x4D9int, 0x4D9int), (0x4DBint, 0x4DBint), (0x4DDint, 0x4DDint), (0x4DFint, 0x4DFint), (0x4E1int, 0x4E1int), (0x4E3int, 0x4E3int), (0x4E5int, 0x4E5int), (0x4E7int, 0x4E7int)]
}

pub open spec fn changes_when_titlecased_chunk_31() -> Seq<SRange> {
    seq![(0x4E9int, 0x4E9int), (0x4EBint, 0x4EBint), (0x4EDint, 0x4EDint), (0x4EFint, 0x4EFint), (0x4F1int, 0x4F1int), (0x4F3int, 0x4F3int), (0x4F5int, 0x4F5int), (0x4F7int, 0x4F7int)]
}

pub open spec fn changes_when_titlecased_chunk_32() -> Seq<SRange> {
    seq![(0x4F9int, 0x4F9int), (0x4FBint, 0x4FBint), (0x4FDint, 0x4FDint), (0x4FFint, 0x4FFint), (0x501int, 0x501int), (0x503int, 0x503int), (0x505int, 0x505int), (0x507int, 0x507int)]
}

pub open spec fn changes_when_titlecased_chunk_33() -> Seq<SRange> {
    seq![(0x509int, 0x509int), (0x50Bint, 0x50Bint), (0x50Dint, 0x50Dint), (0x50Fint, 0x50Fint), (0x511int, 0x511int), (0x513int, 0x513int), (0x515int, 0x515int), (0x517int, 0x517int)]
}

pub open spec fn changes_when_titlecased_chunk_34() -> Seq<SRange> {
    seq![(0x519int, 0x519int), (0x51Bint, 0x51Bint), (0x51Dint, 0x51Dint), (0x51Fint, 0x51Fint), (0x521int, 0x521int), (0x523int, 0x523int), (0x525int, 0x525int), (0x527int, 0x527int)]
}

pub open spec fn changes_when_titlecased_chunk_35() -> Seq<SRange> {
    seq![(0x529int, 0x529int), (0x52Bint, 0x52Bint), (0x52Dint, 0x52Dint), (0x52Fint, 0x52Fint), (0x561int, 0x587int), (0x13F8int, 0x13FDint), (0x1C80int, 0x1C88int), (0x1C8Aint, 0x1C8Aint)]
}

pub open spec fn changes_when_titlecased_chunk_36() -> Seq<SRange> {
    seq![(0x1D79int, 0x1D79int), (0x1D7Dint, 0x1D7Dint), (0x1D8Eint, 0x1D8Eint), (0x1E01int, 0x1E01int), (0x1E03int, 0x1E03int), (0x1E05int, 0x1E05int), (0x1E07int, 0x1E07int), (0x1E09int, 0x1E09int)]
}

pub open spec fn changes_when_titlecased_chunk_37() -> Seq<SRange> {
    seq![(0x1E0Bint, 0x1E0Bint), (0x1E0Dint, 0x1E0Dint), (0x1E0Fint, 0x1E0Fint), (0x1E11int, 0x1E11int), (0x1E13int, 0x1E13int), (0x1E15int, 0x1E15int), (0x1E17int, 0x1E17int), (0x1E19int, 0x1E19int)]
}

pub open spec fn changes_when_titlecased_chunk_38() -> Seq<SRange> {
    seq![(0x1E1Bint, 0x1E1Bint), (0x1E1Dint, 0x1E1Dint), (0x1E1Fint, 0x1E1Fint), (0x1E21int, 0x1E21int), (0x1E23int, 0x1E23int), (0x1E25int, 0x1E25int), (0x1E27int, 0x1E27int), (0x1E29int, 0x1E29int)]
}

pub open spec fn changes_when_titlecased_chunk_39() -> Seq<SRange> {
    seq![(0x1E2Bint, 0x1E2Bint), (0x1E2Dint, 0x1E2Dint), (0x1E2Fint, 0x1E2Fint), (0x1E31int, 0x1E31int), (0x1E33int, 0x1E33int), (0x1E35int, 0x1E35int), (0x1E37int, 0x1E37int), (0x1E39int, 0x1E39int)]
}

pub open spec fn changes_when_titlecased_chunk_40() -> Seq<SRange> {
    seq![(0x1E3Bint, 0x1E3Bint), (0x1E3Dint, 0x1E3Dint), (0x1E3Fint, 0x1E3Fint), (0x1E41int, 0x1E41int), (0x1E43int, 0x1E43int), (0x1E45int, 0x1E45int), (0x1E47int, 0x1E47int), (0x1E49int, 0x1E49int)]
}

pub open spec fn changes_when_titlecased_chunk_41() -> Seq<SRange> {
    seq![(0x1E4Bint, 0x1E4Bint), (0x1E4Dint, 0x1E4Dint), (0x1E4Fint, 0x1E4Fint), (0x1E51int, 0x1E51int), (0x1E53int, 0x1E53int), (0x1E55int, 0x1E55int), (0x1E57int, 0x1E57int), (0x1E59int, 0x1E59int)]
}

pub open spec fn changes_when_titlecased_chunk_42() -> Seq<SRange> {
    seq![(0x1E5Bint, 0x1E5Bint), (0x1E5Dint, 0x1E5Dint), (0x1E5Fint, 0x1E5Fint), (0x1E61int, 0x1E61int), (0x1E63int, 0x1E63int), (0x1E65int, 0x1E65int), (0x1E67int, 0x1E67int), (0x1E69int, 0x1E69int)]
}

pub open spec fn changes_when_titlecased_chunk_43() -> Seq<SRange> {
    seq![(0x1E6Bint, 0x1E6Bint), (0x1E6Dint, 0x1E6Dint), (0x1E6Fint, 0x1E6Fint), (0x1E71int, 0x1E71int), (0x1E73int, 0x1E73int), (0x1E75int, 0x1E75int), (0x1E77int, 0x1E77int), (0x1E79int, 0x1E79int)]
}

pub open spec fn changes_when_titlecased_chunk_44() -> Seq<SRange> {
    seq![(0x1E7Bint, 0x1E7Bint), (0x1E7Dint, 0x1E7Dint), (0x1E7Fint, 0x1E7Fint), (0x1E81int, 0x1E81int), (0x1E83int, 0x1E83int), (0x1E85int, 0x1E85int), (0x1E87int, 0x1E87int), (0x1E89int, 0x1E89int)]
}

pub open spec fn changes_when_titlecased_chunk_45() -> Seq<SRange> {
    seq![(0x1E8Bint, 0x1E8Bint), (0x1E8Dint, 0x1E8Dint), (0x1E8Fint, 0x1E8Fint), (0x1E91int, 0x1E91int), (0x1E93int, 0x1E93int), (0x1E95int, 0x1E9Bint), (0x1EA1int, 0x1EA1int), (0x1EA3int, 0x1EA3int)]
}

pub open spec fn changes_when_titlecased_chunk_46() -> Seq<SRange> {
    seq![(0x1EA5int, 0x1EA5int), (0x1EA7int, 0x1EA7int), (0x1EA9int, 0x1EA9int), (0x1EABint, 0x1EABint), (0x1EADint, 0x1EADint), (0x1EAFint, 0x1EAFint), (0x1EB1int, 0x1EB1int), (0x1EB3int, 0x1EB3int)]
}

pub open spec fn changes_when_titlecased_chunk_47() -> Seq<SRange> {
    seq![(0x1EB5int, 0x1EB5int), (0x1EB7int, 0x1EB7int), (0x1EB9int, 0x1EB9int), (0x1EBBint, 0x1EBBint), (0x1EBDint, 0x1EBDint), (0x1EBFint, 0x1EBFint), (0x1EC1int, 0x1EC1int), (0x1EC3int, 0x1EC3int)]
}

pub open spec fn changes_when_titlecased_chunk_48() -> Seq<SRange> {
    seq![(0x1EC5int, 0x1EC5int), (0x1EC7int, 0x1EC7int), (0x1EC9int, 0x1EC9int), (0x1ECBint, 0x1ECBint), (0x1ECDint, 0x1ECDint), (0x1ECFint, 0x1ECFint), (0x1ED1int, 0x1ED1int), (0x1ED3int, 0x1ED3int)]
}

pub open spec fn changes_when_titlecased_chunk_49() -> Seq<SRange> {
    seq![(0x1ED5int, 0x1ED5int), (0x1ED7int, 0x1ED7int), (0x1ED9int, 0x1ED9int), (0x1EDBint, 0x1EDBint), (0x1EDDint, 0x1EDDint), (0x1EDFint, 0x1EDFint), (0x1EE1int, 0x1EE1int), (0x1EE3int, 0x1EE3int)]
}

pub open spec fn changes_when_titlecased_chunk_50() -> Seq<SRange> {
    seq![(0x1EE5int, 0x1EE5int), (0x1EE7int, 0x1EE7int), (0x1EE9int, 0x1EE9int), (0x1EEBint, 0x1EEBint), (0x1EEDint, 0x1EEDint), (0x1EEFint, 0x1EEFint), (0x1EF1int, 0x1EF1int), (0x1EF3int, 0x1EF3int)]
}

pub open spec fn changes_when_titlecased_chunk_51() -> Seq<SRange> {
    seq![(0x1EF5int, 0x1EF5int), (0x1EF7int, 0x1EF7int), (0x1EF9int, 0x1EF9int), (0x1EFBint, 0x1EFBint), (0x1EFDint, 0x1EFDint), (0x1EFFint, 0x1F07int), (0x1F10int, 0x1F15int), (0x1F20int, 0x1F27int)]
}

pub open spec fn changes_when_titlecased_chunk_52() -> Seq<SRange> {
    seq![(0x1F30int, 0x1F37int), (0x1F40int, 0x1F45int), (0x1F50int, 0x1F57int), (0x1F60int, 0x1F67int), (0x1F70int, 0x1F7Dint), (0x1F80int, 0x1F87int), (0x1F90int, 0x1F97int), (0x1FA0int, 0x1FA7int)]
}

pub open spec fn changes_when_titlecased_chunk_53() -> Seq<SRange> {
    seq![(0x1FB0int, 0x1FB4int), (0x1FB6int, 0x1FB7int), (0x1FBEint, 0x1FBEint), (0x1FC2int, 0x1FC4int), (0x1FC6int, 0x1FC7int), (0x1FD0int, 0x1FD3int), (0x1FD6int, 0x1FD7int), (0x1FE0int, 0x1FE7int)]
}

pub open spec fn changes_when_titlecased_chunk_54() -> Seq<SRange> {
    seq![(0x1FF2int, 0x1FF4int), (0x1FF6int, 0x1FF7int), (0x214Eint, 0x214Eint), (0x2170int, 0x217Fint), (0x2184int, 0x2184int), (0x24D0int, 0x24E9int), (0x2C30int, 0x2C5Fint), (0x2C61int, 0x2C61int)]
}

pub open spec fn changes_when_titlecased_chunk_55() -> Seq<SRange> {
    seq![(0x2C65int, 0x2C66int), (0x2C68int, 0x2C68int), (0x2C6Aint, 0x2C6Aint), (0x2C6Cint, 0x2C6Cint), (0x2C73int, 0x2C73int), (0x2C76int, 0x2C76int), (0x2C81int, 0x2C81int), (0x2C83int, 0x2C83int)]
}

pub open spec fn changes_when_titlecased_chunk_56() -> Seq<SRange> {
    seq![(0x2C85int, 0x2C85int), (0x2C87int, 0x2C87int), (0x2C89int, 0x2C89int), (0x2C8Bint, 0x2C8Bint), (0x2C8Dint, 0x2C8Dint), (0x2C8Fint, 0x2C8Fint), (0x2C91int, 0x2C91int), (0x2C93int, 0x2C93int)]
}

pub open spec fn changes_when_titlecased_chunk_57() -> Seq<SRange> {
    seq![(0x2C95int, 0x2C95int), (0x2C97int, 0x2C97int), (0x2C99int, 0x2C99int), (0x2C9Bint, 0x2C9Bint), (0x2C9Dint, 0x2C9Dint), (0x2C9Fint, 0x2C9Fint), (0x2CA1int, 0x2CA1int), (0x2CA3int, 0x2CA3int)]
}

pub open spec fn changes_when_titlecased_chunk_58() -> Seq<SRange> {
    seq![(0x2CA5int, 0x2CA5int), (0x2CA7int, 0x2CA7int), (0x2CA9int, 0x2CA9int), (0x2CABint, 0x2CABint), (0x2CADint, 0x2CADint), (0x2CAFint, 0x2CAFint), (0x2CB1int, 0x2CB1int), (0x2CB3int, 0x2CB3int)]
}

pub open spec fn changes_when_titlecased_chunk_59() -> Seq<SRange> {
    seq![(0x2CB5int, 0x2CB5int), (0x2CB7int, 0x2CB7int), (0x2CB9int, 0x2CB9int), (0x2CBBint, 0x2CBBint), (0x2CBDint, 0x2CBDint), (0x2CBFint, 0x2CBFint), (0x2CC1int, 0x2CC1int), (0x2CC3int, 0x2CC3int)]
}

pub open spec fn changes_when_titlecased_chunk_60() -> Seq<SRange> {
    seq![(0x2CC5int, 0x2CC5int), (0x2CC7int, 0x2CC7int), (0x2CC9int, 0x2CC9int), (0x2CCBint, 0x2CCBint), (0x2CCDint, 0x2CCDint), (0x2CCFint, 0x2CCFint), (0x2CD1int, 0x2CD1int), (0x2CD3int, 0x2CD3int)]
}

pub open spec fn changes_when_titlecased_chunk_61() -> Seq<SRange> {
    seq![(0x2CD5int, 0x2CD5int), (0x2CD7int, 0x2CD7int), (0x2CD9int, 0x2CD9int), (0x2CDBint, 0x2CDBint), (0x2CDDint, 0x2CDDint), (0x2CDFint, 0x2CDFint), (0x2CE1int, 0x2CE1int), (0x2CE3int, 0x2CE3int)]
}

pub open spec fn changes_when_titlecased_chunk_62() -> Seq<SRange> {
    seq![(0x2CECint, 0x2CECint), (0x2CEEint, 0x2CEEint), (0x2CF3int, 0x2CF3int), (0x2D00int, 0x2D25int), (0x2D27int, 0x2D27int), (0x2D2Dint, 0x2D2Dint), (0xA641int, 0xA641int), (0xA643int, 0xA643int)]
}

pub open spec fn changes_when_titlecased_chunk_63() -> Seq<SRange> {
    seq![(0xA645int, 0xA645int), (0xA647int, 0xA647int), (0xA649int, 0xA649int), (0xA64Bint, 0xA64Bint), (0xA64Dint, 0xA64Dint), (0xA64Fint, 0xA64Fint), (0xA651int, 0xA651int), (0xA653int, 0xA653int)]
}

pub open spec fn changes_when_titlecased_chunk_64() -> Seq<SRange> {
    seq![(0xA655int, 0xA655int), (0xA657int, 0xA657int), (0xA659int, 0xA659int), (0xA65Bint, 0xA65Bint), (0xA65Dint, 0xA65Dint), (0xA65Fint, 0xA65Fint), (0xA661int, 0xA661int), (0xA663int, 0xA663int)]
}

pub open spec fn changes_when_titlecased_chunk_65() -> Seq<SRange> {
    seq![(0xA665int, 0xA665int), (0xA667int, 0xA667int), (0xA669int, 0xA669int), (0xA66Bint, 0xA66Bint), (0xA66Dint, 0xA66Dint), (0xA681int, 0xA681int), (0xA683int, 0xA683int), (0xA685int, 0xA685int)]
}

pub open spec fn changes_when_titlecased_chunk_66() -> Seq<SRange> {
    seq![(0xA687int, 0xA687int), (0xA689int, 0xA689int), (0xA68Bint, 0xA68Bint), (0xA68Dint, 0xA68Dint), (0xA68Fint, 0xA68Fint), (0xA691int, 0xA691int), (0xA693int, 0xA693int), (0xA695int, 0xA695int)]
}

pub open spec fn changes_when_titlecased_chunk_67() -> Seq<SRange> {
    seq![(0xA697int, 0xA697int), (0xA699int, 0xA699int), (0xA69Bint, 0xA69Bint), (0xA723int, 0xA723int), (0xA725int, 0xA725int), (0xA727int, 0xA727int), (0xA729int, 0xA729int), (0xA72Bint, 0xA72Bint)]
}

pub open spec fn changes_when_titlecased_chunk_68() -> Seq<SRange> {
    seq![(0xA72Dint, 0xA72Dint), (0xA72Fint, 0xA72Fint), (0xA733int, 0xA733int), (0xA735int, 0xA735int), (0xA737int, 0xA737int), (0xA739int, 0xA739int), (0xA73Bint, 0xA73Bint), (0xA73Dint, 0xA73Dint)]
}

pub open spec fn changes_when_titlecased_chunk_69() -> Seq<SRange> {
    seq![(0xA73Fint, 0xA73Fint), (0xA741int, 0xA741int), (0xA743int, 0xA743int), (0xA745int, 0xA745int), (0xA747int, 0xA747int), (0xA749int, 0xA749int), (0xA74Bint, 0xA74Bint), (0xA74Dint, 0xA74Dint)]
}

pub open spec fn changes_when_titlecased_chunk_70() -> Seq<SRange> {
    seq![(0xA74Fint, 0xA74Fint), (0xA751int, 0xA751int), (0xA753int, 0xA753int), (0xA755int, 0xA755int), (0xA757int, 0xA757int), (0xA759int, 0xA759int), (0xA75Bint, 0xA75Bint), (0xA75Dint, 0xA75Dint)]
}

pub open spec fn changes_when_titlecased_chunk_71() -> Seq<SRange> {
    seq![(0xA75Fint, 0xA75Fint), (0xA761int, 0xA761int), (0xA763int, 0xA763int), (0xA765int, 0xA765int), (0xA767int, 0xA767int), (0xA769int, 0xA769int), (0xA76Bint, 0xA76Bint), (0xA76Dint, 0xA76Dint)]
}

pub open spec fn changes_when_titlecased_chunk_72() -> Seq<SRange> {
    seq![(0xA76Fint, 0xA76Fint), (0xA77Aint, 0xA77Aint), (0xA77Cint, 0xA77Cint), (0xA77Fint, 0xA77Fint), (0xA781int, 0xA781int), (0xA783int, 0xA783int), (0xA785int, 0xA785int), (0xA787int, 0xA787int)]
}

pub open spec fn changes_when_titlecased_chunk_73() -> Seq<SRange> {
    seq![(0xA78Cint, 0xA78Cint), (0xA791int, 0xA791int), (0xA793int, 0xA794int), (0xA797int, 0xA797int), (0xA799int, 0xA799int), (0xA79Bint, 0xA79Bint), (0xA79Dint, 0xA79Dint), (0xA79Fint, 0xA79Fint)]
}

pub open spec fn changes_when_titlecased_chunk_74() -> Seq<SRange> {
    seq![(0xA7A1int, 0xA7A1int), (0xA7A3int, 0xA7A3int), (0xA7A5int, 0xA7A5int), (0xA7A7int, 0xA7A7int), (0xA7A9int, 0xA7A9int), (0xA7B5int, 0xA7B5int), (0xA7B7int, 0xA7B7int), (0xA7B9int, 0xA7B9int)]
}

pub open spec fn changes_when_titlecased_chunk_75() -> Seq<SRange> {
    seq![(0xA7BBint, 0xA7BBint), (0xA7BDint, 0xA7BDint), (0xA7BFint, 0xA7BFint), (0xA7C1int, 0xA7C1int), (0xA7C3int, 0xA7C3int), (0xA7C8int, 0xA7C8int), (0xA7CAint, 0xA7CAint), (0xA7CDint, 0xA7CDint)]
}

pub open spec fn changes_when_titlecased_chunk_76() -> Seq<SRange> {
    seq![(0xA7D1int, 0xA7D1int), (0xA7D7int, 0xA7D7int), (0xA7D9int, 0xA7D9int), (0xA7DBint, 0xA7DBint), (0xA7F6int, 0xA7F6int), (0xAB53int, 0xAB53int), (0xAB70int, 0xABBFint), (0xFB00int, 0xFB06int)]
}

pub open spec fn changes_when_titlecased_chunk_77() -> Seq<SRange> {
    seq![(0xFB13int, 0xFB17int), (0xFF41int, 0xFF5Aint), (0x10428int, 0x1044Fint), (0x104D8int, 0x104FBint), (0x10597int, 0x105A1int), (0x105A3int, 0x105B1int), (0x105B3int, 0x105B9int), (0x105BBint, 0x105BCint)]
}

pub open spec fn changes_when_titlecased_chunk_78() -> Seq<SRange> {
    seq![(0x10CC0int, 0x10CF2int), (0x10D70int, 0x10D85int), (0x118C0int, 0x118DFint), (0x16E60int, 0x16E7Fint), (0x1E922int, 0x1E943int)]
}

pub open spec fn changes_when_titlecased_block_0() -> Seq<SRange> {
    changes_when_titlecased_chunk_0() + changes_when_titlecased_chunk_1() + changes_when_titlecased_chunk_2() + changes_when_titlecased_chunk_3() + changes_when_titlecased_chunk_4() + changes_when_titlecased_chunk_5() + changes_when_titlecased_chunk_6() + changes_when_titlecased_chunk_7() + changes_when_titlecased_chunk_8() + changes_when_titlecased_chunk_9()
}

pub open spec fn changes_when_titlecased_block_1() -> Seq<SRange> {
    changes_when_titlecased_chunk_10() + changes_when_titlecased_chunk_11() + changes_when_titlecased_chunk_12() + changes_when_titlecased_chunk_13() + changes_when_titlecased_chunk_14() + changes_when_titlecased_chunk_15() + changes_when_titlecased_chunk_16() + changes_when_titlecased_chunk_17() + changes_when_titlecased_chunk_18() + changes_when_titlecased_chunk_19()
}

pub open spec fn changes_when_titlecased_block_2() -> Seq<SRange> {
    changes_when_titlecased_chunk_20() + changes_when_titlecased_chunk_21() + changes_when_titlecased_chunk_22() + changes_when_titlecased_chunk_23() + changes_when_titlecased_chunk_24() + changes_when_titlecased_chunk_25() + changes_when_titlecased_chunk_26() + changes_when_titlecased_chunk_27() + changes_when_titlecased_chunk_28() + changes_when_titlecased_chunk_29()
}

pub open spec fn changes_when_titlecased_block_3() -> Seq<SRange> {
    changes_when_titlecased_chunk_30() + changes_when_titlecased_chunk_31() + changes_when_titlecased_chunk_32() + changes_when_titlecased_chunk_33() + changes_when_titlecased_chunk_34() + changes_when_titlecased_chunk_35() + changes_when_titlecased_chunk_36() + changes_when_titlecased_chunk_37() + changes_when_titlecased_chunk_38() + changes_when_titlecased_chunk_39()
}

pub open spec fn changes_when_titlecased_block_4() -> Seq<SRange> {
    changes_when_titlecased_chunk_40() + changes_when_titlecased_chunk_41() + changes_when_titlecased_chunk_42() + changes_when_titlecased_chunk_43() + changes_when_titlecased_chunk_44() + changes_when_titlecased_chunk_45() + changes_when_titlecased_chunk_46() + changes_when_titlecased_chunk_47() + changes_when_titlecased_chunk_48() + changes_when_titlecased_chunk_49()
}

pub open spec fn changes_when_titlecased_block_5() -> Seq<SRange> {
    changes_when_titlecased_chunk_50() + changes_when_titlecased_chunk_51() + changes_when_titlecased_chunk_52() + changes_when_titlecased_chunk_53() + changes_when_titlecased_chunk_54() + changes_when_titlecased_chunk_55() + changes_when_titlecased_chunk_56() + changes_when_titlecased_chunk_57() + changes_when_titlecased_chunk_58() + changes_when_titlecased_chunk_59()
}

pub open spec fn changes_when_titlecased_block_6() -> Seq<SRange> {
    changes_when_titlecased_chunk_60() + changes_when_titlecased_chunk_61() + changes_when_titlecased_chunk_62() + changes_when_titlecased_chunk_63() + changes_when_titlecased_chunk_64() + changes_when_titlecased_chunk_65() + changes_when_titlecased_chunk_66() + changes_when_titlecased_chunk_67() + changes_when_titlecased_chunk_68() + changes_when_titlecased_chunk_69()
}

pub open spec fn changes_when_titlecased_block_7() -> Seq<SRange> {
    changes_when_titlecased_chunk_70() + changes_when_titlecased_chunk_71() + changes_when_titlecased_chunk_72() + changes_when_titlecased_chunk_73() + changes_when_titlecased_chunk_74() + changes_when_titlecased_chunk_75() + changes_when_titlecased_chunk_76() + changes_when_titlecased_chunk_77() + changes_when_titlecased_chunk_78()
}

/// The ranges of the property Changes_When_Titlecased.
pub open spec fn changes_when_titlecased_ranges() -> Seq<SRange> {
    changes_when_titlecased_block_0() + changes_when_titlecased_block_1() + changes_when_titlecased_block_2() + changes_when_titlecased_block_3() + changes_when_titlecased_block_4() + changes_when_titlecased_block_5() + changes_when_titlecased_block_6() + changes_when_titlecased_block_7()
}

proof fn lemma_changes_when_titlecased_block_0()
    ensures
        canonical(changes_when_titlecased_block_0()),
        changes_when_titlecased_block_0().len() > 0,
        changes_when_titlecased_block_0()[0] == changes_when_titlecased_chunk_0()[0],
        changes_when_titlecased_block_0().last() == changes_when_titlecased_chunk_9().last(),
{
    reveal_with_fuel(canonical, 9);
    assert(canonical(changes_when_titlecased_chunk_0()));
    assert(canonical(changes_when_titlecased_chunk_1()));
    assert(canonical(changes_when_titlecased_chunk_2()));
    assert(canonical(changes_when_titlecased_chunk_3()));
    assert(canonical(changes_when_titlecased_chunk_4()));
    assert(canonical(changes_when_titlecased_chunk_5()));
    assert(canonical(changes_when_titlecased_chunk_6()));
    assert(canonical(changes_when_titlecased_chunk_7()));
    assert(canonical(changes_when_titlecased_chunk_8()));
    assert(canonical(changes_when_titlecased_chunk_9()));
    lemma_canonical_append(changes_when_titlecased_chunk_0(), changes_when_titlecased_chunk_1());
    lemma_canonical_append(changes_when_titlecased_chunk_0() + changes_when_titlecased_chunk_1(), changes_when_titlecased_chunk_2());
    lemma_canonical_append(changes_when_titlecased_chunk_0() + changes_when_titlecased_chunk_1() + changes_when_titlecased_chunk_2(), changes_when_titlecased_chunk_3());
    lemma_canonical_append(changes_when_titlecased_chunk_0() + changes_when_titlecased_chunk_1() + changes_when_titlecased_chunk_2() + changes_when_titlecased_chunk_3(), changes_when_titlecased_chunk_4());
    lemma_canonical_append(changes_when_titlecased_chunk_0() + changes_when_titlecased_chunk_1() + changes_when_titlecased_chunk_2() + changes_when_titlecased_chunk_3() + changes_when_titlecased_chunk_4(), changes_when_titlecased_chunk_5());
    lemma_canonical_append(changes_when_titlecased_chunk_0() + changes_when_titlecased_chunk_1() + changes_when_titlecased_chunk_2() + changes_when_titlecased_chunk_3() + changes_when_titlecased_chunk_4() + changes_when_titlecased_chunk_5(), changes_when_titlecased_chunk_6());
    lemma_canonical_append(changes_when_titlecased_chunk_0() + changes_when_titlecased_chunk_1() + changes_when_titlecased_chunk_2() + changes_when_titlecased_chunk_3() + changes_when_titlecased_chunk_4() + changes_when_titlecased_chunk_5() + changes_when_titlecased_chunk_6(), changes_when_titlecased_chunk_7());
    lemma_canonical_append(changes_when_titlecased_chunk_0() + changes_when_titlecased_chunk_1() + changes_when_titlecased_chunk_2() + changes_when_titlecased_chunk_3() + changes_when_titlecased_chunk_4() + changes_when_titlecased_chunk_5() + changes_when_titlecased_chunk_6() + changes_when_titlecased_chunk_7(), changes_when_titlecased_chunk_8());
    lemma_canonical_append(changes_when_titlecased_chunk_0() + changes_when_titlecased_chunk_1() + changes_when_titlecased_chunk_2() + changes_when_titlecased_chunk_3() + changes_when_titlecased_chunk_4() + changes_when_titlecased_chunk_5() + changes_when_titlecased_chunk_6() + changes_when_titlecased_chunk_7() + changes_when_titlecased_chunk_8(), changes_when_titlecased_chunk_9());
}

proof fn lemma_changes_when_titlecased_block_1()
    ensures
        canonical(changes_when_titlecased_block_1()),
        changes_when_titlecased_block_1().len() > 0,
        changes_when_titlecased_block_1()[0] == changes_when_titlecased_chunk_10()[0],
        changes_when_titlecased_block_1().last() == changes_when_titlecased_chunk_19().last(),
{
    reveal_with_fuel(canonical, 9);
    assert(canonical(changes_when_titlecased_chunk_10()));
    assert(canonical(changes_when_titlecased_chunk_11()));
    assert(canonical(changes_when_titlecased_chunk_12()));
    assert(canonical(changes_when_titlecased_chunk_13()));
    assert(canonical(changes_when_titlecased_chunk_14()));
    assert(canonical(changes_when_titlecased_chunk_15()));
    assert(canonical(changes_when_titlecased_chunk_16()));
    assert(canonical(changes_when_titlecased_chunk_17()));
    assert(canonical(changes_when_titlecased_chunk_18()));
    assert(canonical(changes_when_titlecased_chunk_19()));
    lemma_canonical_append(changes_when_titlecased_chunk_10(), changes_when_titlecased_chunk_11());
    lemma_canonical_append(changes_when_titlecased_chunk_10() + changes_when_titlecased_chunk_11(), changes_when_titlecased_chunk_12());
    lemma_canonical_append(changes_when_titlecased_chunk_10() + changes_when_titlecased_chunk_11() + changes_when_titlecased_chunk_12(), changes_when_titlecased_chunk_13());
    lemma_canonical_append(changes_when_titlecased_chunk_10() + changes_when_titlecased_chunk_11() + changes_when_titlecased_chunk_12() + changes_when_titlecased_chunk_13(), changes_when_titlecased_chunk_14());
    lemma_canonical_append(changes_when_titlecased_chunk_10() + changes_when_titlecased_chunk_11() + changes_when_titlecased_chunk_12() + changes_when_titlecased_chunk_13() + changes_when_titlecased_chunk_14(), changes_when_titlecased_chunk_15());
    lemma_canonical_append(changes_when_titlecased_chunk_10() + changes_when_titlecased_chunk_11() + changes_when_titlecased_chunk_12() + changes_when_titlecased_chunk_13() + changes_when_titlecased_chunk_14() + changes_when_titlecased_chunk_15(), changes_when_titlecased_chunk_16());
    lemma_canonical_append(changes_when_titlecased_chunk_10() + changes_when_titlecased_chunk_11() + changes_when_titlecased_chunk_12() + changes_when_titlecased_chunk_13() + changes_when_titlecased_chunk_14() + changes_when_titlecased_chunk_15() + changes_when_titlecased_chunk_16(), changes_when_titlecased_chunk_17());
    lemma_canonical_append(changes_when_titlecased_chunk_10() + changes_when_titlecased_chunk_11() + changes_when_titlecased_chunk_12() + changes_when_titlecased_chunk_13() + changes_when_titlecased_chunk_14() + changes_when_titlecased_chunk_15() + changes_when_titlecased_chunk_16() + changes_when_titlecased_chunk_17(), changes_when_titlecased_chunk_18());
    lemma_canonical_append(changes_when_titlecased_chunk_10() + changes_when_titlecased_chunk_11() + changes_when_titlecased_chunk_12() + changes_when_titlecased_chunk_13() + changes_when_titlecased_chunk_14() + changes_when_titlecased_chunk_15() + changes_when_titlecased_chunk_16() + changes_when_titlecased_chunk_17() + changes_when_titlecased_chunk_18(), changes_when_titlecased_chunk_19());
}

proof fn lemma_changes_when_titlecased_block_2()
    ensures
        canonical(changes_when_titlecased_block_2()),
        changes_when_titlecased_block_2().len() > 0,
        changes_when_titlecased_block_2()[0] == changes_when_titlecased_chunk_20()[0],
        changes_when_titlecased_block_2().last() == changes_when_titlecased_chunk_29().last(),
{
    reveal_with_fuel(canonical, 9);
    assert(canonical(changes_when_titlecased_chunk_20()));
    assert(canonical(changes_when_titlecased_chunk_21()));
    assert(canonical(changes_when_titlecased_chunk_22()));
    assert(canonical(changes_when_titlecased_chunk_23()));
    assert(canonical(changes_when_titlecased_chunk_24()));
    assert(canonical(changes_when_titlecased_chunk_25()));
    assert(canonical(changes_when_titlecased_chunk_26()));
    assert(canonical(changes_when_titlecased_chunk_27()));
    assert(canonical(changes_when_titlecased_chunk_28()));
    assert(canonical(changes_when_titlecased_chunk_29()));
    lemma_canonical_append(changes_when_titlecased_chunk_20(), changes_when_titlecased_chunk_21());
    lemma_canonical_append(changes_when_titlecased_chunk_20() + changes_when_titlecased_chunk_21(), changes_when_titlecased_chunk_22());
    lemma_canonical_append(changes_when_titlecased_chunk_20() + changes_when_titlecased_chunk_21() + changes_when_titlecased_chunk_22(), changes_when_titlecased_chunk_23());
    lemma_canonical_append(changes_when_titlecased_chunk_20() + changes_when_titlecased_chunk_21() + changes_when_titlecased_chunk_22() + changes_when_titlecased_chunk_23(), changes_when_titlecased_chunk_24());
    lemma_canonical_append(changes_when_titlecased_chunk_20() + changes_when_titlecased_chunk_21() + changes_when_titlecased_chunk_22() + changes_when_titlecased_chunk_23() + changes_when_titlecased_chunk_24(), changes_when_titlecased_chunk_25());
    lemma_canonical_append(changes_when_titlecased_chunk_20() + changes_when_titlecased_chunk_21() + changes_when_titlecased_chunk_22() + changes_when_titlecased_chunk_23() + changes_when_titlecased_chunk_24() + changes_when_titlecased_chunk_25(), changes_when_titlecased_chunk_26());
    lemma_canonical_append(changes_when_titlecased_chunk_20() + changes_when_titlecased_chunk_21() + changes_when_titlecased_chunk_22() + changes_when_titlecased_chunk_23() + changes_when_titlecased_chunk_24() + changes_when_titlecased_chunk_25() + changes_when_titlecased_chunk_26(), changes_when_titlecased_chunk_27());
    lemma_canonical_append(changes_when_titlecased_chunk_20() + changes_when_titlecased_chunk_21() + changes_when_titlecased_chunk_22() + changes_when_titlecased_chunk_23() + changes_when_titlecased_chunk_24() + changes_when_titlecased_chunk_25() + changes_when_titlecased_chunk_26() + changes_when_titlecased_chunk_27(), changes_when_titlecased_chunk_28());
    lemma_canonical_append(changes_when_titlecased_chunk_20() + changes_when_titlecased_chunk_21() + changes_when_titlecased_chunk_22() + changes_when_titlecased_chunk_23() + changes_when_titlecased_chunk_24() + changes_when_titlecased_chunk_25() + changes_when_titlecased_chunk_26() + changes_when_titlecased_chunk_27() + changes_when_titlecased_chunk_28(), changes_when_titlecased_chunk_29());
}

proof fn lemma_changes_when_titlecased_block_3()
    ensures
        canonical(changes_when_titlecased_block_3()),
        changes_when_titlecased_block_3().len() > 0,
        changes_when_titlecased_block_3()[0] == changes_when_titlecased_chunk_30()[0],
        changes_when_titlecased_block_3().last() == changes_when_titlecased_chunk_39().last(),
{
    reveal_with_fuel(canonical, 9);
    assert(canonical(changes_when_titlecased_chunk_30()));
    assert(canonical(changes_when_titlecased_chunk_31()));
    assert(canonical(changes_when_titlecased_chunk_32()));
    assert(canonical(changes_when_titlecased_chunk_33()));
    assert(canonical(changes_when_titlecased_chunk_34()));
    assert(canonical(changes_when_titlecased_chunk_35()));
    assert(canonical(changes_when_titlecased_chunk_36()));
    assert(canonical(changes_when_titlecased_chunk_37()));
    assert(canonical(changes_when_titlecased_chunk_38()));
    assert(canonical(changes_when_titlecased_chunk_39()));
    lemma_canonical_append(changes_when_titlecased_chunk_30(), changes_when_titlecased_chunk_31());
    lemma_canonical_append(changes_when_titlecased_chunk_30() + changes_when_titlecased_chunk_31(), changes_when_titlecased_chunk_32());
    lemma_canonical_append(changes_when_titlecased_chunk_30() + changes_when_titlecased_chunk_31() + changes_when_titlecased_chunk_32(), changes_when_titlecased_chunk_33());
    lemma_canonical_append(changes_when_titlecased_chunk_30() + changes_when_titlecased_chunk_31() + changes_when_titlecased_chunk_32() + changes_when_titlecased_chunk_33(), changes_when_titlecased_chunk_34());
    lemma_canonical_append(changes_when_titlecased_chunk_30() + changes_when_titlecased_chunk_31() + changes_when_titlecased_chunk_32() + changes_when_titlecased_chunk_33() + changes_when_titlecased_chunk_34(), changes_when_titlecased_chunk_35());
    lemma_canonical_append(changes_when_titlecased_chunk_30() + changes_when_titlecased_chunk_31() + changes_when_titlecased_chunk_32() + changes_when_titlecased_chunk_33() + changes_when_titlecased_chunk_34() + changes_when_titlecased_chunk_35(), changes_when_titlecased_chunk_36());
    lemma_canonical_append(changes_when_titlecased_chunk_30() + changes_when_titlecased_chunk_31() + changes_when_titlecased_chunk_32() + changes_when_titlecased_chunk_33() + changes_when_titlecased_chunk_34() + changes_when_titlecased_chunk_35() + changes_when_titlecased_chunk_36(), changes_when_titlecased_chunk_37());
    lemma_canonical_append(changes_when_titlecased_chunk_30() + changes_when_titlecased_chunk_31() + changes_when_titlecased_chunk_32() + changes_when_titlecased_chunk_33() + changes_when_titlecased_chunk_34() + changes_when_titlecased_chunk_35() + changes_when_titlecased_chunk_36() + changes_when_titlecased_chunk_37(), changes_when_titlecased_chunk_38());
    lemma_canonical_append(changes_when_titlecased_chunk_30() + changes_when_titlecased_chunk_31() + changes_when_titlecased_chunk_32() + changes_when_titlecased_chunk_33() + changes_when_titlecased_chunk_34() + changes_when_titlecased_chunk_35() + changes_when_titlecased_chunk_36() + changes_when_titlecased_chunk_37() + changes_when_titlecased_chunk_38(), changes_when_titlecased_chunk_39());
}

proof fn lemma_changes_when_titlecased_block_4()
    ensures
        canonical(changes_when_titlecased_block_4()),
        changes_when_titlecased_block_4().len() > 0,
        changes_when_titlecased_block_4()[0] == changes_when_titlecased_chunk_40()[0],
        changes_when_titlecased_block_4().last() == changes_when_titlecased_chunk_49().last(),
{
    reveal_with_fuel(canonical, 9);
    assert(canonical(changes_when_titlecased_chunk_40()));
    assert(canonical(changes_when_titlecased_chunk_41()));
    assert(canonical(changes_when_titlecased_chunk_42()));
    assert(canonical(changes_when_titlecased_chunk_43()));
    assert(canonical(changes_when_titlecased_chunk_44()));
    assert(canonical(changes_when_titlecased_chunk_45()));
    assert(canonical(changes_when_titlecased_chunk_46()));
    assert(canonical(changes_when_titlecased_chunk_47()));
    assert(canonical(changes_when_titlecased_chunk_48()));
    assert(canonical(changes_when_titlecased_chunk_49()));
    lemma_canonical_append(changes_when_titlecased_chunk_40(), changes_when_titlecased_chunk_41());
    lemma_canonical_append(changes_when_titlecased_chunk_40() + changes_when_titlecased_chunk_41(), changes_when_titlecased_chunk_42());
    lemma_canonical_append(changes_when_titlecased_chunk_40() + changes_when_titlecased_chunk_41() + changes_when_titlecased_chunk_42(), changes_when_titlecased_chunk_43());
    lemma_canonical_append(changes_when_titlecased_chunk_40() + changes_when_titlecased_chunk_41() + changes_when_titlecased_chunk_42() + changes_when_titlecased_chunk_43(), changes_when_titlecased_chunk_44());
    lemma_canonical_append(changes_when_titlecased_chunk_40() + changes_when_titlecased_chunk_41() + changes_when_titlecased_chunk_42() + changes_when_titlecased_chunk_43() + changes_when_titlecased_chunk_44(), changes_when_titlecased_chunk_45());
    lemma_canonical_append(changes_when_titlecased_chunk_40() + changes_when_titlecased_chunk_41() + changes_when_titlecased_chunk_42() + changes_when_titlecased_chunk_43() + changes_when_titlecased_chunk_44() + changes_when_titlecased_chunk_45(), changes_when_titlecased_chunk_46());
    lemma_canonical_append(changes_when_titlecased_chunk_40() + changes_when_titlecased_chunk_41() + changes_when_titlecased_chunk_42() + changes_when_titlecased_chunk_43() + changes_when_titlecased_chunk_44() + changes_when_titlecased_chunk_45() + changes_when_titlecased_chunk_46(), changes_when_titlecased_chunk_47());
    lemma_canonical_append(changes_when_titlecased_chunk_40() + changes_when_titlecased_chunk_41() + changes_when_titlecased_chunk_42() + changes_when_titlecased_chunk_43() + changes_when_titlecased_chunk_44() + changes_when_titlecased_chunk_45() + changes_when_titlecased_chunk_46() + changes_when_titlecased_chunk_47(), changes_when_titlecased_chunk_48());
    lemma_canonical_append(changes_when_titlecased_chunk_40() + changes_when_titlecased_chunk_41() + changes_when_titlecased_chunk_42() + changes_when_titlecased_chunk_43() + changes_when_titlecased_chunk_44() + changes_when_titlecased_chunk_45() + changes_when_titlecased_chunk_46() + changes_when_titlecased_chunk_47() + changes_when_titlecased_chunk_48(), changes_when_titlecased_chunk_49());
}

proof fn lemma_changes_when_titlecased_block_5()
    ensures
        canonical(changes_when_titlecased_block_5()),
        changes_when_titlecased_block_5().len() > 0,
        changes_when_titlecased_block_5()[0] == changes_when_titlecased_chunk_50()[0],
        changes_when_titlecased_block_5().last() == changes_when_titlecased_chunk_59().last(),
{
    reveal_with_fuel(canonical, 9);
    assert(canonical(changes_when_titlecased_chunk_50()));
    assert(canonical(changes_when_titlecased_chunk_51()));
    assert(canonical(changes_when_titlecased_chunk_52()));
    assert(canonical(changes_when_titlecased_chunk_53()));
    assert(canonical(changes_when_titlecased_chunk_54()));
    assert(canonical(changes_when_titlecased_chunk_55()));
    assert(canonical(changes_when_titlecased_chunk_56()));
    assert(canonical(changes_when_titlecased_chunk_57()));
    assert(canonical(changes_when_titlecased_chunk_58()));
    assert(canonical(changes_when_titlecased_chunk_59()));
    lemma_canonical_append(changes_when_titlecased_chunk_50(), changes_when_titlecased_chunk_51());
    lemma_canonical_append(changes_when_titlecased_chunk_50() + changes_when_titlecased_chunk_51(), changes_when_titlecased_chunk_52());
    lemma_canonical_append(changes_when_titlecased_chunk_50() + changes_when_titlecased_chunk_51() + changes_when_titlecased_chunk_52(), changes_when_titlecased_chunk_53());
    lemma_canonical_append(changes_when_titlecased_chunk_50() + changes_when_titlecased_chunk_51() + changes_when_titlecased_chunk_52() + changes_when_titlecased_chunk_53(), changes_when_titlecased_chunk_54());
    lemma_canonical_append(changes_when_titlecased_chunk_50() + changes_when_titlecased_chunk_51() + changes_when_titlecased_chunk_52() + changes_when_titlecased_chunk_53() + changes_when_titlecased_chunk_54(), changes_when_titlecased_chunk_55());
    lemma_canonical_append(changes_when_titlecased_chunk_50() + changes_when_titlecased_chunk_51() + changes_when_titlecased_chunk_52() + changes_when_titlecased_chunk_53() + changes_when_titlecased_chunk_54() + changes_when_titlecased_chunk_55(), changes_when_titlecased_chunk_56());
    lemma_canonical_append(changes_when_titlecased_chunk_50() + changes_when_titlecased_chunk_51() + changes_when_titlecased_chunk_52() + changes_when_titlecased_chunk_53() + changes_when_titlecased_chunk_54() + changes_when_titlecased_chunk_55() + changes_when_titlecased_chunk_56(), changes_when_titlecased_chunk_57());
    lemma_canonical_append(changes_when_titlecased_chunk_50() + changes_when_titlecased_chunk_51() + changes_when_titlecased_chunk_52() + changes_when_titlecased_chunk_53() + changes_when_titlecased_chunk_54() + changes_when_titlecased_chunk_55() + changes_when_titlecased_chunk_56() + changes_when_titlecased_chunk_57(), changes_when_titlecased_chunk_58());
    lemma_canonical_append(changes_when_titlecased_chunk_50() + changes_when_titlecased_chunk_51() + changes_when_titlecased_chunk_52() + changes_when_titlecased_chunk_53() + changes_when_titlecased_chunk_54() + changes_when_titlecased_chunk_55() + changes_when_titlecased_chunk_56() + changes_when_titlecased_chunk_57() + changes_when_titlecased_chunk_58(), changes_when_titlecased_chunk_59());
}

proof fn lemma_changes_when_titlecased_block_6()
    ensures
        canonical(changes_when_titlecased_block_6()),
        changes_when_titlecased_block_6().len() > 0,
        changes_when_titlecased_block_6()[0] == changes_when_titlecased_chunk_60()[0],
        changes_when_titlecased_block_6().last() == changes_when_titlecased_chunk_69().last(),
{
    reveal_with_fuel(canonical, 9);
    assert(canonical(changes_when_titlecased_chunk_60()));
    assert(canonical(changes_when_titlecased_chunk_61()));
    assert(canonical(changes_when_titlecased_chunk_62()));
    assert(canonical(changes_when_titlecased_chunk_63()));
    assert(canonical(changes_when_titlecased_chunk_64()));
    assert(canonical(changes_when_titlecased_chunk_65()));
    assert(canonical(changes_when_titlecased_chunk_66()));
    assert(canonical(changes_when_titlecased_chunk_67()));
    assert(canonical(changes_when_titlecased_chunk_68()));
    assert(canonical(changes_when_titlecased_chunk_69()));
    lemma_canonical_append(changes_when_titlecased_chunk_60(), changes_when_titlecased_chunk_61());
    lemma_canonical_append(changes_when_titlecased_chunk_60() + changes_when_titlecased_chunk_61(), changes_when_titlecased_chunk_62());
    lemma_canonical_append(changes_when_titlecased_chunk_60() + changes_when_titlecased_chunk_61() + changes_when_titlecased_chunk_62(), changes_when_titlecased_chunk_63());
    lemma_canonical_append(changes_when_titlecased_chunk_60() + changes_when_titlecased_chunk_61() + changes_when_titlecased_chunk_62() + changes_when_titlecased_chunk_63(), changes_when_titlecased_chunk_64());
    lemma_canonical_append(changes_when_titlecased_chunk_60() + changes_when_titlecased_chunk_61() + changes_when_titlecased_chunk_62() + changes_when_titlecased_chunk_63() + changes_when_titlecased_chunk_64(), changes_when_titlecased_chunk_65());
    lemma_canonical_append(changes_when_titlecased_chunk_60() + changes_when_titlecased_chunk_61() + changes_when_titlecased_chunk_62() + changes_when_titlecased_chunk_63() + changes_when_titlecased_chunk_64() + changes_when_titlecased_chunk_65(), changes_when_titlecased_chunk_66());
    lemma_canonical_append(changes_when_titlecased_chunk_60() + changes_when_titlecased_chunk_61() + changes_when_titlecased_chunk_62() + changes_when_titlecased_chunk_63() + changes_when_titlecased_chunk_64() + changes_when_titlecased_chunk_65() + changes_when_titlecased_chunk_66(), changes_when_titlecased_chunk_67());
    lemma_canonical_append(changes_when_titlecased_chunk_60() + changes_when_titlecased_chunk_61() + changes_when_titlecased_chunk_62() + changes_when_titlecased_chunk_63() + changes_when_titlecased_chunk_64() + changes_when_titlecased_chunk_65() + changes_when_titlecased_chunk_66() + changes_when_titlecased_chunk_67(), changes_when_titlecased_chunk_68());
    lemma_canonical_append(changes_when_titlecased_chunk_60() + changes_when_titlecased_chunk_61() + changes_when_titlecased_chunk_62() + changes_when_titlecased_chunk_63() + changes_when_titlecased_chunk_64() + changes_when_titlecased_chunk_65() + changes_when_titlecased_chunk_66() + changes_when_titlecased_chunk_67() + changes_when_titlecased_chunk_68(), changes_when_titlecased_chunk_69());
}

proof fn lemma_changes_when_titlecased_block_7()
    ensures
        canonical(changes_when_titlecased_block_7()),
        changes_when_titlecased_block_7().len() > 0,
        changes_when_titlecased_block_7()[0] == changes_when_titlecased_chunk_70()[0],
        changes_when_titlecased_block_7().last() == changes_when_titlecased_chunk_78().last(),
{
    reveal_with_fuel(canonical, 9);
    assert(canonical(changes_when_titlecased_chunk_70()));
    assert(canonical(changes_when_titlecased_chunk_71()));
    assert(canonical(changes_when_titlecased_chunk_72()));
    assert(canonical(changes_when_titlecased_chunk_73()));
    assert(canonical(changes_when_titlecased_chunk_74()));
    assert(canonical(changes_when_titlecased_chunk_75()));
    assert(canonical(changes_when_titlecased_chunk_76()));
    assert(canonical(changes_when_titlecased_chunk_77()));
    assert(canonical(changes_when_titlecased_chunk_78()));
    lemma_canonical_append(changes_when_titlecased_chunk_70(), changes_when_titlecased_chunk_71());
    lemma_canonical_append(changes_when_titlecased_chunk_70() + changes_when_titlecased_chunk_71(), changes_when_titlecased_chunk_72());
    lemma_canonical_append(changes_when_titlecased_chunk_70() + changes_when_titlecased_chunk_71() + changes_when_titlecased_chunk_72(), changes_when_titlecased_chunk_73());
    lemma_canonical_append(changes_when_titlecased_chunk_70() + changes_when_titlecased_chunk_71() + changes_when_titlecased_chunk_72() + changes_when_titlecased_chunk_73(), changes_when_titlecased_chunk_74());
    lemma_canonical_append(changes_when_titlecased_chunk_70() + changes_when_titlecased_chunk_71() + changes_when_titlecased_chunk_72() + changes_when_titlecased_chunk_73() + changes_when_titlecased_chunk_74(), changes_when_titlecased_chunk_75());
    lemma_canonical_append(changes_when_titlecased_chunk_70() + changes_when_titlecased_chunk_71() + changes_when_titlecased_chunk_72() + changes_when_titlecased_chunk_73() + changes_when_titlecased_chunk_74() + changes_when_titlecased_chunk_75(), changes_when_titlecased_chunk_76());
    lemma_canonical_append(changes_when_titlecased_chunk_70() + changes_when_titlecased_chunk_71() + changes_when_titlecased_chunk_72() + changes_when_titlecased_chunk_73() + changes_when_titlecased_chunk_74() + changes_when_titlecased_chunk_75() + changes_when_titlecased_chunk_76(), changes_when_titlecased_chunk_77());
    lemma_canonical_append(changes_when_titlecased_chunk_70() + changes_when_titlecased_chunk_71() + changes_when_titlecased_chunk_72() + changes_when_titlecased_chunk_73() + changes_when_titlecased_chunk_74() + changes_when_titlecased_chunk_75() + changes_when_titlecased_chunk_76() + changes_when_titlecased_chunk_77(), changes_when_titlecased_chunk_78());
}

pub proof fn lemma_changes_when_titlecased_canonical()
    ensures
        canonical(changes_when_titlecased_ranges()),
{
    lemma_changes_when_titlecased_block_0();
    lemma_changes_when_titlecased_block_1();
    lemma_changes_when_titlecased_block_2();
    lemma_changes_when_titlecased_block_3();
    lemma_changes_when_titlecased_block_4();
    lemma_changes_when_titlecased_block_5();
    lemma_changes_when_titlecased_block_6();
    lemma_changes_when_titlecased_block_7();
    lemma_canonical_append(changes_when_titlecased_block_0(), changes_when_titlecased_block_1());
    lemma_canonical_append(changes_when_titlecased_block_0() + changes_when_titlecased_block_1(), changes_when_titlecased_block_2());
    lemma_canonical_append(changes_when_titlecased_block_0() + changes_when_titlecased_block_1() + changes_when_titlecased_block_2(), changes_when_titlecased_block_3());
    lemma_canonical_append(changes_when_titlecased_block_0() + changes_when_titlecased_block_1() + changes_when_titlecased_block_2() + changes_when_titlecased_block_3(), changes_when_titlecased_block_4());
    lemma_canonical_append(changes_when_titlecased_block_0() + changes_when_titlecased_block_1() + changes_when_titlecased_block_2() + changes_when_titlecased_block_3() + changes_when_titlecased_block_4(), changes_when_titlecased_block_5());
    lemma_canonical_append(changes_when_titlecased_block_0() + changes_when_titlecased_block_1() + changes_when_titlecased_block_2() + changes_when_titlecased_block_3() + changes_when_titlecased_block_4() + changes_when_titlecased_block_5(), changes_when_titlecased_block_6());
    lemma_canonical_append(changes_when_titlecased_block_0() + changes_when_titlecased_block_1() + changes_when_titlecased_block_2() + changes_when_titlecased_block_3() + changes_when_titlecased_block_4() + changes_when_titlecased_block_5() + changes_when_titlecased_block_6(), changes_when_titlecased_block_7());
}

fn push_changes_when_titlecased_chunk_0(v: &mut Vec<ClassUnicodeRange>)
    ensures
        rview(final(v)@) == rview(old(v)@) + changes_when_titlecased_chunk_0(),
{
    let ghost o = rview(v@);
    push_range(v, '\u{61}', '\u{7A}');
    push_range(v, '\u{B5}', '\u{B5}');
    push_range(v, '\u{DF}', '\u{F6}');
    push_range(v, '\u{F8}', '\u{FF}');
    push_range(v, '\u{101}', '\u{101}');
    push_range(v, '\u{103}', '\u{103}');
    push_range(v, '\u{105}', '\u{105}');
    push_range(v, '\u{107}', '\u{107}');
    assert(rview(v@) =~= o + changes_when_titlecased_chunk_0());
}

fn push_changes_when_titlecased_chunk_1(v: &mut Vec<ClassUnicodeRange>)
    ensures
        rview(final(v)@) == rview(old(v)@) + changes_when_titlecased_chunk_1(),
{
    let ghost o = rview(v@);
    push_range(v, '\u{109}', '\u{109}');
    push_range(v, '\u{10B}', '\u{10B}');
    push_range(v, '\u{10D}', '\u{10D}');
    push_range(v, '\u{10F}', '\u{10F}');
    push_range(v, '\u{111}', '\u{111}');
    push_range(v, '\u{113}', '\u{113}');
    push_range(v, '\u{115}', '\u{115}');
    push_range(v, '\u{117}', '\u{117}');
    assert(rview(v@) =~= o + changes_when_titlecased_chunk_1());
}

fn push_changes_when_titlecased_chunk_2(v: &mut Vec<ClassUnicodeRange>)
    ensures
        rview(final(v)@) == rview(old(v)@) + changes_when_titlecased_chunk_2(),
{
    let ghost o = rview(v@);
    push_range(v, '\u{119}', '\u{119}');
    push_range(v, '\u{11B}', '\u{11B}');
    push_range(v, '\u{11D}', '\u{11D}');
    push_range(v, '\u{11F}', '\u{11F}');
    push_range(v, '\u{121}', '\u{121}');
    push_range(v, '\u{123}', '\u{123}');
    push_range(v, '\u{125}', '\u{125}');
    push_range(v, '\u{127}', '\u{127}');
    assert(rview(v@) =~= o + changes_when_titlecased_chunk_2());
}

fn push_changes_when_titlecased_chunk_3(v: &mut Vec<ClassUnicodeRange>)
    ensures
        rview(final(v)@) == rview(old(v)@) + changes_when_titlecased_chunk_3(),
{
    let ghost o = rview(v@);
    push_range(v, '\u{129}', '\u{129}');
    push_range(v, '\u{12B}', '\u{12B}');
    push_range(v, '\u{12D}', '\u{12D}');
    push_range(v, '\u{12F}', '\u{12F}');
    push_range(v, '\u{131}', '\u{131}');
    push_range(v, '\u{133}', '\u{133}');
    push_range(v, '\u{135}', '\u{135}');
    push_range(v, '\u{137}', '\u{137}');
    assert(rview(v@) =~= o + changes_when_titlecased_chunk_3());
}

fn push_changes_when_titlecased_chunk_4(v: &mut Vec<ClassUnicodeRange>)
    ensures
        rview(final(v)@) == rview(old(v)@) + changes_when_titlecased_chunk_4(),
{
    let ghost o = rview(v@);
    push_range(v, '\u{13A}', '\u{13A}');
    push_range(v, '\u{13C}', '\u{13C}');
    push_range(v, '\u{13E}', '\u{13E}');
    push_range(v, '\u{140}', '\u{140}');
    push_range(v, '\u{142}', '\u{142}');
    push_range(v, '\u{144}', '\u{144}');
    push_range(v, '\u{146}', '\u{146}');
    push_range(v, '\u{148}', '\u{149}');
    assert(rview(v@) =~= o + changes_when_titlecased_chunk_4());
}

fn push_changes_when_titlecased_chunk_5(v: &mut Vec<ClassUnicodeRange>)
    ensures
        rview(final(v)@) == rview(old(v)@) + changes_when_titlecased_chunk_5(),
{
    let ghost o = rview(v@);
    push_range(v, '\u{14B}', '\u{14B}');
    push_range(v, '\u{14D}', '\u{14D}');
    push_range(v, '\u{14F}', '\u{14F}');
    push_range(v, '\u{151}', '\u{151}');
    push_range(v, '\u{153}', '\u{153}');
    push_range(v, '\u{155}', '\u{155}');
    push_range(v, '\u{157}', '\u{157}');
    push_range(v, '\u{159}', '\u{159}');
    assert(rview(v@) =~= o + changes_when_titlecased_chunk_5());
}

fn push_changes_when_titlecased_chunk_6(v: &mut Vec<ClassUnicodeRange>)
    ensures
        rview(final(v)@) == rview(old(v)@) + changes_when_titlecased_chunk_6(),
{
    let ghost o = rview(v@);
    push_range(v, '\u{15B}', '\u{15B}');
    push_range(v, '\u{15D}', '\u{15D}');
    push_range(v, '\u{15F}', '\u{15F}');
    push_range(v, '\u{161}', '\u{161}');
    push_range(v, '\u{163}', '\u{163}');
    push_range(v, '\u{165}', '\u{165}');
    push_range(v, '\u{167}', '\u{167}');
    push_range(v, '\u{169}', '\u{169}');
    assert(rview(v@) =~= o + changes_when_titlecased_chunk_6());
}

fn push_changes_when_titlecased_chunk_7(v: &mut Vec<ClassUnicodeRange>)
    ensures
        rview(final(v)@) == rview(old(v)@) + changes_when_titlecased_chunk_7(),
{
    let ghost o = rview(v@);
    push_range(v, '\u{16B}', '\u{16B}');
    push_range(v, '\u{16D}', '\u{16D}');
    push_range(v, '\u{16F}', '\u{16F}');
    push_range(v, '\u{171}', '\u{171}');
    push_range(v, '\u{173}', '\u{173}');
    push_range(v, '\u{175}', '\u{175}');
    push_range(v, '\u{177}', '\u{177}');
    push_range(v, '\u{17A}', '\u{17A}');
    assert(rview(v@) =~= o + changes_when_titlecased_chunk_7());
}

fn push_changes_when_titlecased_chunk_8(v: &mut Vec<ClassUnicodeRange>)
    ensures
        rview(final(v)@) == rview(old(v)@) + changes_when_titlecased_chunk_8(),
{
    let ghost o = rview(v@);
    push_range(v, '\u{17C}', '\u{17C}');
    push_range(v, '\u{17E}', '\u{180}');
    push_range(v, '\u{183}', '\u{183}');
    push_range(v, '\u{185}', '\u{185}');
    push_range(v, '\u{188}', '\u{188}');
    push_range(v, '\u{18C}', '\u{18C}');
    push_range(v, '\u{192}', '\u{192}');
    push_range(v, '\u{195}', '\u{195}');
    assert(rview(v@) =~= o + changes_when_titlecased_chunk_8());
}

fn push_changes_when_titlecased_chunk_9(v: &mut Vec<ClassUnicodeRange>)
    ensures
        rview(final(v)@) == rview(old(v)@) + changes_when_titlecased_chunk_9(),
{
    let ghost o = rview(v@);
    push_range(v, '\u{199}', '\u{19B}');
    push_range(v, '\u{19E}', '\u{19E}');
    push_range(v, '\u{1A1}', '\u{1A1}');
    push_range(v, '\u{1A3}', '\u{1A3}');
    push_range(v, '\u{1A5}', '\u{1A5}');
    push_range(v, '\u{1A8}', '\u{1A8}');
    push_range(v, '\u{1AD}', '\u{1AD}');
    push_range(v, '\u{1B0}', '\u{1B0}');
    assert(rview(v@) =~= o + changes_when_titlecased_chunk_9());
}

fn push_changes_when_titlecased_chunk_10(v: &mut Vec<ClassUnicodeRange>)
    ensures
        rview(final(v)@) == rview(old(v)@) + changes_when_titlecased_chunk_10(),
{
    let ghost o = rview(v@);
    push_range(v, '\u{1B4}', '\u{1B4}');
    push_range(v, '\u{1B6}', '\u{1B6}');
    push_range(v, '\u{1B9}', '\u{1B9}');
    push_range(v, '\u{1BD}', '\u{1BD}');
    push_range(v, '\u{1BF}', '\u{1BF}');
    push_range(v, '\u{1C4}', '\u{1C4}');
    push_range(v, '\u{1C6}', '\u{1C7}');
    push_range(v, '\u{1C9}', '\u{1CA}');
    assert(rview(v@) =~= o + changes_when_titlecased_chunk_10());
}

fn push_changes_when_titlecased_chunk_11(v: &mut Vec<ClassUnicodeRange>)
    ensures
        rview(final(v)@) == rview(old(v)@) + changes_when_titlecased_chunk_11(),
{
    let ghost o = rview(v@);
    push_range(v, '\u{1CC}', '\u{1CC}');
    push_range(v, '\u{1CE}', '\u{1CE}');
    push_range(v, '\u{1D0}', '\u{1D0}');
    push_range(v, '\u{1D2}', '\u{1D2}');
    push_range(v, '\u{1D4}', '\u{1D4}');
    push_range(v, '\u{1D6}', '\u{1D6}');
    push_range(v, '\u{1D8}', '\u{1D8}');
    push_range(v, '\u{1DA}', '\u{1DA}');
    assert(rview(v@) =~= o + changes_when_titlecased_chunk_11());
}

fn push_changes_when_titlecased_chunk_12(v: &mut Vec<ClassUnicodeRange>)
    ensures
        rview(final(v)@) == rview(old(v)@) + changes_when_titlecased_chunk_12(),
{
    let ghost o = rview(v@);
    push_range(v, '\u{1DC}', '\u{1DD}');
    push_range(v, '\u{1DF}', '\u{1DF}');
    push_range(v, '\u{1E1}', '\u{1E1}');
    push_range(v, '\u{1E3}', '\u{1E3}');
    push_range(v, '\u{1E5}', '\u{1E5}');
    push_range(v, '\u{1E7}', '\u{1E7}');
    push_range(v, '\u{1E9}', '\u{1E9}');
    push_range(v, '\u{1EB}', '\u{1EB}');
    assert(rview(v@) =~= o + changes_when_titlecased_chunk_12());
}

fn push_changes_when_titlecased_chunk_13(v: &mut Vec<ClassUnicodeRange>)
    ensures
        rview(final(v)@) == rview(old(v)@) + changes_when_titlecased_chunk_13(),
{
    let ghost o = rview(v@);
    push_range(v, '\u{1ED}', '\u{1ED}');
    push_range(v, '\u{1EF}', '\u{1F1}');
    push_range(v, '\u{1F3}', '\u{1F3}');
    push_range(v, '\u{1F5}', '\u{1F5}');
    push_range(v, '\u{1F9}', '\u{1F9}');
    push_range(v, '\u{1FB}', '\u{1FB}');
    push_range(v, '\u{1FD}', '\u{1FD}');
    push_range(v, '\u{1FF}', '\u{1FF}');
    assert(rview(v@) =~= o + changes_when_titlecased_chunk_13());
}

fn push_changes_when_titlecased_chunk_14(v: &mut Vec<ClassUnicodeRange>)
    ensures
        rview(final(v)@) == rview(old(v)@) + changes_when_titlecased_chunk_14(),
{
    let ghost o = rview(v@);
    push_range(v, '\u{201}', '\u{201}');
    push_range(v, '\u{203}', '\u{203}');
    push_range(v, '\u{205}', '\u{205}');
    push_range(v, '\u{207}', '\u{207}');
    push_range(v, '\u{209}', '\u{209}');
    push_range(v, '\u{20B}', '\u{20B}');
    push_range(v, '\u{20D}', '\u{20D}');
    push_range(v, '\u{20F}', '\u{20F}');
    assert(rview(v@) =~= o + changes_when_titlecased_chunk_14());
}

fn push_changes_when_titlecased_chunk_15(v: &mut Vec<ClassUnicodeRange>)
    ensures
        rview(final(v)@) == rview(old(v)@) + changes_when_titlecased_chunk_15(),
{
    let ghost o = rview(v@);
    push_range(v, '\u{211}', '\u{211}');
    push_range(v, '\u{213}', '\u{213}');
    push_range(v, '\u{215}', '\u{215}');
    push_range(v, '\u{217}', '\u{217}');
    push_range(v, '\u{219}', '\u{219}');
    push_range(v, '\u{21B}', '\u{21B}');
    push_range(v, '\u{21D}', '\u{21D}');
    push_range(v, '\u{21F}', '\u{21F}');
    assert(rview(v@) =~= o + changes_when_titlecased_chunk_15());
}

fn push_changes_when_titlecased_chunk_16(v: &mut Vec<ClassUnicodeRange>)
    ensures
        rview(final(v)@) == rview(old(v)@) + changes_when_titlecased_chunk_16(),
{
    let ghost o = rview(v@);
    push_range(v, '\u{223}', '\u{223}');
    push_range(v, '\u{225}', '\u{225}');
    push_range(v, '\u{227}', '\u{227}');
    push_range(v, '\u{229}', '\u{229}');
    push_range(v, '\u{22B}', '\u{22B}');
    push_range(v, '\u{22D}', '\u{22D}');
    push_range(v, '\u{22F}', '\u{22F}');
    push_range(v, '\u{231}', '\u{231}');
    assert(rview(v@) =~= o + changes_when_titlecased_chunk_16());
}

fn push_changes_when_titlecased_chunk_17(v: &mut Vec<ClassUnicodeRange>)
    ensures
        rview(final(v)@) == rview(old(v)@) + changes_when_titlecased_chunk_17(),
{
    let ghost o = rview(v@);
    push_range(v, '\u{233}', '\u{233}');
    push_range(v, '\u{23C}', '\u{23C}');
    push_range(v, '\u{23F}', '\u{240}');
    push_range(v, '\u{242}', '\u{242}');
    push_range(v, '\u{247}', '\u{247}');
    push_range(v, '\u{249}', '\u{249}');
    push_range(v, '\u{24B}', '\u{24B}');
    push_range(v, '\u{24D}', '\u{24D}');
    assert(rview(v@) =~= o + changes_when_titlecased_chunk_17());
}

fn push_changes_when_titlecased_chunk_18(v: &mut Vec<ClassUnicodeRange>)
    ensures
        rview(final(v)@) == rview(old(v)@) + changes_when_titlecased_chunk_18(),
{
    let ghost o = rview(v@);
    push_range(v, '\u{24F}', '\u{254}');
    push_range(v, '\u{256}', '\u{257}');
    push_range(v, '\u{259}', '\u{259}');
    push_range(v, '\u{25B}', '\u{25C}');
    push_range(v, '\u{260}', '\u{261}');
    push_range(v, '\u{263}', '\u{266}');
    push_range(v, '\u{268}', '\u{26C}');
    push_range(v, '\u{26F}', '\u{26F}');
    assert(rview(v@) =~= o + changes_when_titlecased_chunk_18());
}

fn push_changes_when_titlecased_chunk_19(v: &mut Vec<ClassUnicodeRange>)
    ensures
        rview(final(v)@) == rview(old(v)@) + changes_when_titlecased_chunk_19(),
{
    let ghost o = rview(v@);
    push_range(v, '\u{271}', '\u{272}');
    push_range(v, '\u{275}', '\u{275}');
    push_range(v, '\u{27D}', '\u{27D}');
    push_range(v, '\u{280}', '\u{280}');
    push_range(v, '\u{282}', '\u{283}');
    push_range(v, '\u{287}', '\u{28C}');
    push_range(v, '\u{292}', '\u{292}');
    push_range(v, '\u{29D}', '\u{29E}');
    assert(rview(v@) =~= o + changes_when_titlecased_chunk_19());
}

fn push_changes_when_titlecased_chunk_20(v: &mut Vec<ClassUnicodeRange>)
    ensures
        rview(final(v)@) == rview(old(v)@) + changes_when_titlecased_chunk_20(),
{
    let ghost o = rview(v@);
    push_range(v, '\u{345}', '\u{345}');
    push_range(v, '\u{371}', '\u{371}');
    push_range(v, '\u{373}', '\u{373}');
    push_range(v, '\u{377}', '\u{377}');
    push_range(v, '\u{37B}', '\u{37D}');
    push_range(v, '\u{390}', '\u{390}');
    push_range(v, '\u{3AC}', '\u{3CE}');
    push_range(v, '\u{3D0}', '\u{3D1}');
    assert(rview(v@) =~= o + changes_when_titlecased_chunk_20());
}

fn push_changes_when_titlecased_chunk_21(v: &mut Vec<ClassUnicodeRange>)
    ensures
        rview(final(v)@) == rview(old(v)@) + changes_when_titlecased_chunk_21(),
{
    let ghost o = rview(v@);
    push_range(v, '\u{3D5}', '\u{3D7}');
    push_range(v, '\u{3D9}', '\u{3D9}');
    push_range(v, '\u{3DB}', '\u{3DB}');
    push_range(v, '\u{3DD}', '\u{3DD}');
    push_range(v, '\u{3DF}', '\u{3DF}');
    push_range(v, '\u{3E1}', '\u{3E1}');
    push_range(v, '\u{3E3}', '\u{3E3}');
    push_range(v, '\u{3E5}', '\u{3E5}');
    assert(rview(v@) =~= o + changes_when_titlecased_chunk_21());
}

fn push_changes_when_titlecased_chunk_22(v: &mut Vec<ClassUnicodeRange>)
    ensures
        rview(final(v)@) == rview(old(v)@) + changes_when_titlecased_chunk_22(),
{
    let ghost o = rview(v@);
    push_range(v, '\u{3E7}', '\u{3E7}');
    push_range(v, '\u{3E9}', '\u{3E9}');
    push_range(v, '\u{3EB}', '\u{3EB}');
    push_range(v, '\u{3ED}', '\u{3ED}');
    push_range(v, '\u{3EF}', '\u{3F3}');
    push_range(v, '\u{3F5}', '\u{3F5}');
    push_range(v, '\u{3F8}', '\u{3F8}');
    push_range(v, '\u{3FB}', '\u{3FB}');
    assert(rview(v@) =~= o + changes_when_titlecased_chunk_22());
}

fn push_changes_when_titlecased_chunk_23(v: &mut Vec<ClassUnicodeRange>)
    ensures
        rview(final(v)@) == rview(old(v)@) + changes_when_titlecased_chunk_23(),
{
    let ghost o = rview(v@);
    push_range(v, '\u{430}', '\u{45F}');
    push_range(v, '\u{461}', '\u{461}');
    push_range(v, '\u{463}', '\u{463}');
    push_range(v, '\u{465}', '\u{465}');
    push_range(v, '\u{467}', '\u{467}');
    push_range(v, '\u{469}', '\u{469}');
    push_range(v, '\u{46B}', '\u{46B}');
    push_range(v, '\u{46D}', '\u{46D}');
    assert(rview(v@) =~= o + changes_when_titlecased_chunk_23());
}

fn push_changes_when_titlecased_chunk_24(v: &mut Vec<ClassUnicodeRange>)
    ensures
        rview(final(v)@) == rview(old(v)@) + changes_when_titlecased_chunk_24(),
{
    let ghost o = rview(v@);
    push_range(v, '\u{46F}', '\u{46F}');
    push_range(v, '\u{471}', '\u{471}');
    push_range(v, '\u{473}', '\u{473}');
    push_range(v, '\u{475}', '\u{475}');
    push_range(v, '\u{477}', '\u{477}');
    push_range(v, '\u{479}', '\u{479}');
    push_range(v, '\u{47B}', '\u{47B}');
    push_range(v, '\u{47D}', '\u{47D}');
    assert(rview(v@) =~= o + changes_when_titlecased_chunk_24());
}

fn push_changes_when_titlecased_chunk_25(v: &mut Vec<ClassUnicodeRange>)
    ensures
        rview(final(v)@) == rview(old(v)@) + changes_when_titlecased_chunk_25(),
{
    let ghost o = rview(v@);
    push_range(v, '\u{47F}', '\u{47F}');
    push_range(v, '\u{481}', '\u{481}');
    push_range(v, '\u{48B}', '\u{48B}');
    push_range(v, '\u{48D}', '\u{48D}');
    push_range(v, '\u{48F}', '\u{48F}');
    push_range(v, '\u{491}', '\u{491}');
    push_range(v, '\u{493}', '\u{493}');
    push_range(v, '\u{495}', '\u{495}');
    assert(rview(v@) =~= o + changes_when_titlecased_chunk_25());
}

fn push_changes_when_titlecased_chunk_26(v: &mut Vec<ClassUnicodeRange>)
    ensures
        rview(final(v)@) == rview(old(v)@) + changes_when_titlecased_chunk_26(),
{
    let ghost o = rview(v@);
    push_range(v, '\u{497}', '\u{497}');
    push_range(v, '\u{499}', '\u{499}');
    push_range(v, '\u{49B}', '\u{49B}');
    push_range(v, '\u{49D}', '\u{49D}');
    push_range(v, '\u{49F}', '\u{49F}');
    push_range(v, '\u{4A1}', '\u{4A1}');
    push_range(v, '\u{4A3}', '\u{4A3}');
    push_range(v, '\u{4A5}', '\u{4A5}');
    assert(rview(v@) =~= o + changes_when_titlecased_chunk_26());
}

fn push_changes_when_titlecased_chunk_27(v: &mut Vec<ClassUnicodeRange>)
    ensures
        rview(final(v)@) == rview(old(v)@) + changes_when_titlecased_chunk_27(),
{
    let ghost o = rview(v@);
    push_range(v, '\u{4A7}', '\u{4A7}');
    push_range(v, '\u{4A9}', '\u{4A9}');
    push_range(v, '\u{4AB}', '\u{4AB}');
    push_range(v, '\u{4AD}', '\u{4AD}');
    push_range(v, '\u{4AF}', '\u{4AF}');
    push_range(v, '\u{4B1}', '\u{4B1}');
    push_range(v, '\u{4B3}', '\u{4B3}');
    push_range(v, '\u{4B5}', '\u{4B5}');
    assert(rview(v@) =~= o + changes_when_titlecased_chunk_27());
}

fn push_changes_when_titlecased_chunk_28(v: &mut Vec<ClassUnicodeRange>)
    ensures
        rview(final(v)@) == rview(old(v)@) + changes_when_titlecased_chunk_28(),
{
    let ghost o = rview(v@);
    push_range(v, '\u{4B7}', '\u{4B7}');
    push_range(v, '\u{4B9}', '\u{4B9}');
    push_range(v, '\u{4BB}', '\u{4BB}');
    push_range(v, '\u{4BD}', '\u{4BD}');
    push_range(v, '\u{4BF}', '\u{4BF}');
    push_range(v, '\u{4C2}', '\u{4C2}');
    push_range(v, '\u{4C4}', '\u{4C4}');
    push_range(v, '\u{4C6}', '\u{4C6}');
    assert(rview(v@) =~= o + changes_when_titlecased_chunk_28());
}

fn push_changes_when_titlecased_chunk_29(v: &mut Vec<ClassUnicodeRange>)
    ensures
        rview(final(v)@) == rview(old(v)@) + changes_when_titlecased_chunk_29(),
{
    let ghost o = rview(v@);
    push_range(v, '\u{4C8}', '\u{4C8}');
    push_range(v, '\u{4CA}', '\u{4CA}');
    push_range(v, '\u{4CC}', '\u{4CC}');
    push_range(v, '\u{4CE}', '\u{4CF}');
    push_range(v, '\u{4D1}', '\u{4D1}');
    push_range(v, '\u{4D3}', '\u{4D3}');
    push_range(v, '\u{4D5}', '\u{4D5}');
    push_range(v, '\u{4D7}', '\u{4D7}');
    assert(rview(v@) =~= o + changes_when_titlecased_chunk_29());
}

fn push_changes_when_titlecased_chunk_30(v: &mut Vec<ClassUnicodeRange>)
    ensures
        rview(final(v)@) == rview(old(v)@) + changes_when_titlecased_chunk_30(),
{
    let ghost o = rview(v@);
    push_range(v, '\u{4D9}', '\u{4D9}');
    push_range(v, '\u{4DB}', '\u{4DB}');
    push_range(v, '\u{4DD}', '\u{4DD}');
    push_range(v, '\u{4DF}', '\u{4DF}');
    push_range(v, '\u{4E1}', '\u{4E1}');
    push_range(v, '\u{4E3}', '\u{4E3}');
    push_range(v, '\u{4E5}', '\u{4E5}');
    push_range(v, '\u{4E7}', '\u{4E7}');
    assert(rview(v@) =~= o + changes_when_titlecased_chunk_30());
}

fn push_changes_when_titlecased_chunk_31(v: &mut Vec<ClassUnicodeRange>)
    ensures
        rview(final(v)@) == rview(old(v)@) + changes_when_titlecased_chunk_31(),
{
    let ghost o = rview(v@);
    push_range(v, '\u{4E9}', '\u{4E9}');
    push_range(v, '\u{4EB}', '\u{4EB}');
    push_range(v, '\u{4ED}', '\u{4ED}');
    push_range(v, '\u{4EF}', '\u{4EF}');
    push_range(v, '\u{4F1}', '\u{4F1}');
    push_range(v, '\u{4F3}', '\u{4F3}');
    push_range(v, '\u{4F5}', '\u{4F5}');
    push_range(v, '\u{4F7}', '\u{4F7}');
    assert(rview(v@) =~= o + changes_when_titlecased_chunk_31());
}

fn push_changes_when_titlecased_chunk_32(v: &mut Vec<ClassUnicodeRange>)
    ensures
        rview(final(v)@) == rview(old(v)@) + changes_when_titlecased_chunk_32(),
{
    let ghost o = rview(v@);
    push_range(v, '\u{4F9}', '\u{4F9}');
    push_range(v, '\u{4FB}', '\u{4FB}');
    push_range(v, '\u{4FD}', '\u{4FD}');
    push_range(v, '\u{4FF}', '\u{4FF}');
    push_range(v, '\u{501}', '\u{501}');
    push_range(v, '\u{503}', '\u{503}');
    push_range(v, '\u{505}', '\u{505}');
    push_range(v, '\u{507}', '\u{507}');
    assert(rview(v@) =~= o + changes_when_titlecased_chunk_32());
}

fn push_changes_when_titlecased_chunk_33(v: &mut Vec<ClassUnicodeRange>)
    ensures
        rview(final(v)@) == rview(old(v)@) + changes_when_titlecased_chunk_33(),
{
    let ghost o = rview(v@);
    push_range(v, '\u{509}', '\u{509}');
    push_range(v, '\u{50B}', '\u{50B}');
    push_range(v, '\u{50D}', '\u{50D}');
    push_range(v, '\u{50F}', '\u{50F}');
    push_range(v, '\u{511}', '\u{511}');
    push_range(v, '\u{513}', '\u{513}');
    push_range(v, '\u{515}', '\u{515}');
    push_range(v, '\u{517}', '\u{517}');
    assert(rview(v@) =~= o + changes_when_titlecased_chunk_33());
}

fn push_changes_when_titlecased_chunk_34(v: &mut Vec<ClassUnicodeRange>)
    ensures
        rview(final(v)@) == rview(old(v)@) + changes_when_titlecased_chunk_34(),
{
    let ghost o = rview(v@);
    push_range(v, '\u{519}', '\u{519}');
    push_range(v, '\u{51B}', '\u{51B}');
    push_range(v, '\u{51D}', '\u{51D}');
    push_range(v, '\u{51F}', '\u{51F}');
    push_range(v, '\u{521}', '\u{521}');
    push_range(v, '\u{523}', '\u{523}');
    push_range(v, '\u{525}', '\u{525}');
    push_range(v, '\u{527}', '\u{527}');
    assert(rview(v@) =~= o + changes_when_titlecased_chunk_34());
}

fn push_changes_when_titlecased_chunk_35(v: &mut Vec<ClassUnicodeRange>)
    ensures
        rview(final(v)@) == rview(old(v)@) + changes_when_titlecased_chunk_35(),
{
    let ghost o = rview(v@);
    push_range(v, '\u{529}', '\u{529}');
    push_range(v, '\u{52B}', '\u{52B}');
    push_range(v, '\u{52D}', '\u{52D}');
    push_range(v, '\u{52F}', '\u{52F}');
    push_range(v, '\u{561}', '\u{587}');
    push_range(v, '\u{13F8}', '\u{13FD}');
    push_range(v, '\u{1C80}', '\u{1C88}');
    push_range(v, '\u{1C8A}', '\u{1C8A}');
    assert(rview(v@) =~= o + changes_when_titlecased_chunk_35());
}

fn push_changes_when_titlecased_chunk_36(v: &mut Vec<ClassUnicodeRange>)
    ensures
        rview(final(v)@) == rview(old(v)@) + changes_when_titlecased_chunk_36(),
{
    let ghost o = rview(v@);
    push_range(v, '\u{1D79}', '\u{1D79}');
    push_range(v, '\u{1D7D}', '\u{1D7D}');
    push_range(v, '\u{1D8E}', '\u{1D8E}');
    push_range(v, '\u{1E01}', '\u{1E01}');
    push_range(v, '\u{1E03}', '\u{1E03}');
    push_range(v, '\u{1E05}', '\u{1E05}');
    push_range(v, '\u{1E07}', '\u{1E07}');
    push_range(v, '\u{1E09}', '\u{1E09}');
    assert(rview(v@) =~= o + changes_when_titlecased_chunk_36());
}

fn push_changes_when_titlecased_chunk_37(v: &mut Vec<ClassUnicodeRange>)
    ensures
        rview(final(v)@) == rview(old(v)@) + changes_when_titlecased_chunk_37(),
{
    let ghost o = rview(v@);
    push_range(v, '\u{1E0B}', '\u{1E0B}');
    push_range(v, '\u{1E0D}', '\u{1E0D}');
    push_range(v, '\u{1E0F}', '\u{1E0F}');
    push_range(v, '\u{1E11}', '\u{1E11}');
    push_range(v, '\u{1E13}', '\u{1E13}');
    push_range(v, '\u{1E15}', '\u{1E15}');
    push_range(v, '\u{1E17}', '\u{1E17}');
    push_range(v, '\u{1E19}', '\u{1E19}');
    assert(rview(v@) =~= o + changes_when_titlecased_chunk_37());
}

fn push_changes_when_titlecased_chunk_38(v: &mut Vec<ClassUnicodeRange>)
    ensures
        rview(final(v)@) == rview(old(v)@) + changes_when_titlecased_chunk_38(),
{
    let ghost o = rview(v@);
    push_range(v, '\u{1E1B}', '\u{1E1B}');
    push_range(v, '\u{1E1D}', '\u{1E1D}');
    push_range(v, '\u{1E1F}', '\u{1E1F}');
    push_range(v, '\u{1E21}', '\u{1E21}');
    push_range(v, '\u{1E23}', '\u{1E23}');
    push_range(v, '\u{1E25}', '\u{1E25}');
    push_range(v, '\u{1E27}', '\u{1E27}');
    push_range(v, '\u{1E29}', '\u{1E29}');
    assert(rview(v@) =~= o + changes_when_titlecased_chunk_38());
}

fn push_changes_when_titlecased_chunk_39(v: &mut Vec<ClassUnicodeRange>)
    ensures
        rview(final(v)@) == rview(old(v)@) + changes_when_titlecased_chunk_39(),
{
    let ghost o = rview(v@);
    push_range(v, '\u{1E2B}', '\u{1E2B}');
    push_range(v, '\u{1E2D}', '\u{1E2D}');
    push_range(v, '\u{1E2F}', '\u{1E2F}');
    push_range(v, '\u{1E31}', '\u{1E31}');
    push_range(v, '\u{1E33}', '\u{1E33}');
    push_range(v, '\u{1E35}', '\u{1E35}');
    push_range(v, '\u{1E37}', '\u{1E37}');
    push_range(v, '\u{1E39}', '\u{1E39}');
    assert(rview(v@) =~= o + changes_when_titlecased_chunk_39());
}

fn push_changes_when_titlecased_chunk_40(v: &mut Vec<ClassUnicodeRange>)
    ensures
        rview(final(v)@) == rview(old(v)@) + changes_when_titlecased_chunk_40(),
{
    let ghost o = rview(v@);
    push_range(v, '\u{1E3B}', '\u{1E3B}');
    push_range(v, '\u{1E3D}', '\u{1E3D}');
    push_range(v, '\u{1E3F}', '\u{1E3F}');
    push_range(v, '\u{1E41}', '\u{1E41}');
    push_range(v, '\u{1E43}', '\u{1E43}');
    push_range(v, '\u{1E45}', '\u{1E45}');
    push_range(v, '\u{1E47}', '\u{1E47}');
    push_range(v, '\u{1E49}', '\u{1E49}');
    assert(rview(v@) =~= o + changes_when_titlecased_chunk_40());
}

fn push_changes_when_titlecased_chunk_41(v: &mut Vec<ClassUnicodeRange>)
    ensures
        rview(final(v)@) == rview(old(v)@) + changes_when_titlecased_chunk_41(),
{
    let ghost o = rview(v@);
    push_range(v, '\u{1E4B}', '\u{1E4B}');
    push_range(v, '\u{1E4D}', '\u{1E4D}');
    push_range(v, '\u{1E4F}', '\u{1E4F}');
    push_range(v, '\u{1E51}', '\u{1E51}');
    push_range(v, '\u{1E53}', '\u{1E53}');
    push_range(v, '\u{1E55}', '\u{1E55}');
    push_range(v, '\u{1E57}', '\u{1E57}');
    push_range(v, '\u{1E59}', '\u{1E59}');
    assert(rview(v@) =~= o + changes_when_titlecased_chunk_41());
}

fn push_changes_when_titlecased_chunk_42(v: &mut Vec<ClassUnicodeRange>)
    ensures
        rview(final(v)@) == rview(old(v)@) + changes_when_titlecased_chunk_42(),
{
    let ghost o = rview(v@);
    push_range(v, '\u{1E5B}', '\u{1E5B}');
    push_range(v, '\u{1E5D}', '\u{1E5D}');
    push_range(v, '\u{1E5F}', '\u{1E5F}');
    push_range(v, '\u{1E61}', '\u{1E61}');
    push_range(v, '\u{1E63}', '\u{1E63}');
    push_range(v, '\u{1E65}', '\u{1E65}');
    push_range(v, '\u{1E67}', '\u{1E67}');
    push_range(v, '\u{1E69}', '\u{1E69}');
    assert(rview(v@) =~= o + changes_when_titlecased_chunk_42());
}

fn push_changes_when_titlecased_chunk_43(v: &mut Vec<ClassUnicodeRange>)
    ensures
        rview(final(v)@) == rview(old(v)@) + changes_when_titlecased_chunk_43(),
{
    let ghost o = rview(v@);
    push_range(v, '\u{1E6B}', '\u{1E6B}');
    push_range(v, '\u{1E6D}', '\u{1E6D}');
    push_range(v, '\u{1E6F}', '\u{1E6F}');
    push_range(v, '\u{1E71}', '\u{1E71}');
    push_range(v, '\u{1E73}', '\u{1E73}');
    push_range(v, '\u{1E75}', '\u{1E75}');
    push_range(v, '\u{1E77}', '\u{1E77}');
    push_range(v, '\u{1E79}', '\u{1E79}');
    assert(rview(v@) =~= o + changes_when_titlecased_chunk_43());
}

fn push_changes_when_titlecased_chunk_44(v: &mut Vec<ClassUnicodeRange>)
    ensures
        rview(final(v)@) == rview(old(v)@) + changes_when_titlecased_chunk_44(),
{
    let ghost o = rview(v@);
    push_range(v, '\u{1E7B}', '\u{1E7B}');
    push_range(v, '\u{1E7D}', '\u{1E7D}');
    push_range(v, '\u{1E7F}', '\u{1E7F}');
    push_range(v, '\u{1E81}', '\u{1E81}');
    push_range(v, '\u{1E83}', '\u{1E83}');
    push_range(v, '\u{1E85}', '\u{1E85}');
    push_range(v, '\u{1E87}', '\u{1E87}');
    push_range(v, '\u{1E89}', '\u{1E89}');
    assert(rview(v@) =~= o + changes_when_titlecased_chunk_44());
}

fn push_changes_when_titlecased_chunk_45(v: &mut Vec<ClassUnicodeRange>)
    ensures
        rview(final(v)@) == rview(old(v)@) + changes_when_titlecased_chunk_45(),
{
    let ghost o = rview(v@);
    push_range(v, '\u{1E8B}', '\u{1E8B}');
    push_range(v, '\u{1E8D}', '\u{1E8D}');
    push_range(v, '\u{1E8F}', '\u{1E8F}');
    push_range(v, '\u{1E91}', '\u{1E91}');
    push_range(v, '\u{1E93}', '\u{1E93}');
    push_range(v, '\u{1E95}', '\u{1E9B}');
    push_range(v, '\u{1EA1}', '\u{1EA1}');
    push_range(v, '\u{1EA3}', '\u{1EA3}');
    assert(rview(v@) =~= o + changes_when_titlecased_chunk_45());
}

fn push_changes_when_titlecased_chunk_46(v: &mut Vec<ClassUnicodeRange>)
    ensures
        rview(final(v)@) == rview(old(v)@) + changes_when_titlecased_chunk_46(),
{
    let ghost o = rview(v@);
    push_range(v, '\u{1EA5}', '\u{1EA5}');
    push_range(v, '\u{1EA7}', '\u{1EA7}');
    push_range(v, '\u{1EA9}', '\u{1EA9}');
    push_range(v, '\u{1EAB}', '\u{1EAB}');
    push_range(v, '\u{1EAD}', '\u{1EAD}');
    push_range(v, '\u{1EAF}', '\u{1EAF}');
    push_range(v, '\u{1EB1}', '\u{1EB1}');
    push_range(v, '\u{1EB3}', '\u{1EB3}');
    assert(rview(v@) =~= o + changes_when_titlecased_chunk_46());
}

fn push_changes_when_titlecased_chunk_47(v: &mut Vec<ClassUnicodeRange>)
    ensures
        rview(final(v)@) == rview(old(v)@) + changes_when_titlecased_chunk_47(),
{
    let ghost o = rview(v@);
    push_range(v, '\u{1EB5}', '\u{1EB5}');
    push_range(v, '\u{1EB7}', '\u{1EB7}');
    push_range(v, '\u{1EB9}', '\u{1EB9}');
    push_range(v, '\u{1EBB}', '\u{1EBB}');
    push_range(v, '\u{1EBD}', '\u{1EBD}');
    push_range(v, '\u{1EBF}', '\u{1EBF}');
    push_range(v, '\u{1EC1}', '\u{1EC1}');
    push_range(v, '\u{1EC3}', '\u{1EC3}');
    assert(rview(v@) =~= o + changes_when_titlecased_chunk_47());
}

fn push_changes_when_titlecased_chunk_48(v: &mut Vec<ClassUnicodeRange>)
    ensures
        rview(final(v)@) == rview(old(v)@) + changes_when_titlecased_chunk_48(),
{
    let ghost o = rview(v@);
    push_range(v, '\u{1EC5}', '\u{1EC5}');
    push_range(v, '\u{1EC7}', '\u{1EC7}');
    push_range(v, '\u{1EC9}', '\u{1EC9}');
    push_range(v, '\u{1ECB}', '\u{1ECB}');
    push_range(v, '\u{1ECD}', '\u{1ECD}');
    push_range(v, '\u{1ECF}', '\u{1ECF}');
    push_range(v, '\u{1ED1}', '\u{1ED1}');
    push_range(v, '\u{1ED3}', '\u{1ED3}');
    assert(rview(v@) =~= o + changes_when_titlecased_chunk_48());
}

fn push_changes_when_titlecased_chunk_49(v: &mut Vec<ClassUnicodeRange>)
    ensures
        rview(final(v)@) == rview(old(v)@) + changes_when_titlecased_chunk_49(),
{
    let ghost o = rview(v@);
    push_range(v, '\u{1ED5}', '\u{1ED5}');
    push_range(v, '\u{1ED7}', '\u{1ED7}');
    push_range(v, '\u{1ED9}', '\u{1ED9}');
    push_range(v, '\u{1EDB}', '\u{1EDB}');
    push_range(v, '\u{1EDD}', '\u{1EDD}');
    push_range(v, '\u{1EDF}', '\u{1EDF}');
    push_range(v, '\u{1EE1}', '\u{1EE1}');
    push_range(v, '\u{1EE3}', '\u{1EE3}');
    assert(rview(v@) =~= o + changes_when_titlecased_chunk_49());
}

fn push_changes_when_titlecased_chunk_50(v: &mut Vec<ClassUnicodeRange>)
    ensures
        rview(final(v)@) == rview(old(v)@) + changes_when_titlecased_chunk_50(),
{
    let ghost o = rview(v@);
    push_range(v, '\u{1EE5}', '\u{1EE5}');
    push_range(v, '\u{1EE7}', '\u{1EE7}');
    push_range(v, '\u{1EE9}', '\u{1EE9}');
    push_range(v, '\u{1EEB}', '\u{1EEB}');
    push_range(v, '\u{1EED}', '\u{1EED}');
    push_range(v, '\u{1EEF}', '\u{1EEF}');
    push_range(v, '\u{1EF1}', '\u{1EF1}');
    push_range(v, '\u{1EF3}', '\u{1EF3}');
    assert(rview(v@) =~= o + changes_when_titlecased_chunk_50());
}

fn push_changes_when_titlecased_chunk_51(v: &mut Vec<ClassUnicodeRange>)
    ensures
        rview(final(v)@) == rview(old(v)@) + changes_when_titlecased_chunk_51(),
{
    let ghost o = rview(v@);
    push_range(v, '\u{1EF5}', '\u{1EF5}');
    push_range(v, '\u{1EF7}', '\u{1EF7}');
    push_range(v, '\u{1EF9}', '\u{1EF9}');
    push_range(v, '\u{1EFB}', '\u{1EFB}');
    push_range(v, '\u{1EFD}', '\u{1EFD}');
    push_range(v, '\u{1EFF}', '\u{1F07}');
    push_range(v, '\u{1F10}', '\u{1F15}');
    push_range(v, '\u{1F20}', '\u{1F27}');
    assert(rview(v@) =~= o + changes_when_titlecased_chunk_51());
}

fn push_changes_when_titlecased_chunk_52(v: &mut Vec<ClassUnicodeRange>)
    ensures
        rview(final(v)@) == rview(old(v)@) + changes_when_titlecased_chunk_52(),
{
    let ghost o = rview(v@);
    push_range(v, '\u{1F30}', '\u{1F37}');
    push_range(v, '\u{1F40}', '\u{1F45}');
    push_range(v, '\u{1F50}', '\u{1F57}');
    push_range(v, '\u{1F60}', '\u{1F67}');
    push_range(v, '\u{1F70}', '\u{1F7D}');
    push_range(v, '\u{1F80}', '\u{1F87}');
    push_range(v, '\u{1F90}', '\u{1F97}');
    push_range(v, '\u{1FA0}', '\u{1FA7}');
    assert(rview(v@) =~= o + changes_when_titlecased_chunk_52());
}

fn push_changes_when_titlecased_chunk_53(v: &mut Vec<ClassUnicodeRange>)
    ensures
        rview(final(v)@) == rview(old(v)@) + changes_when_titlecased_chunk_53(),
{
    let ghost o = rview(v@);
    push_range(v, '\u{1FB0}', '\u{1FB4}');
    push_range(v, '\u{1FB6}', '\u{1FB7}');
    push_range(v, '\u{1FBE}', '\u{1FBE}');
    push_range(v, '\u{1FC2}', '\u{1FC4}');
    push_range(v, '\u{1FC6}', '\u{1FC7}');
    push_range(v, '\u{1FD0}', '\u{1FD3}');
    push_range(v, '\u{1FD6}', '\u{1FD7}');
    push_range(v, '\u{1FE0}', '\u{1FE7}');
    assert(rview(v@) =~= o + changes_when_titlecased_chunk_53());
}

fn push_changes_when_titlecased_chunk_54(v: &mut Vec<ClassUnicodeRange>)
    ensures
        rview(final(v)@) == rview(old(v)@) + changes_when_titlecased_chunk_54(),
{
    let ghost o = rview(v@);
    push_range(v, '\u{1FF2}', '\u{1FF4}');
    push_range(v, '\u{1FF6}', '\u{1FF7}');
    push_range(v, '\u{214E}', '\u{214E}');
    push_range(v, '\u{2170}', '\u{217F}');
    push_range(v, '\u{2184}', '\u{2184}');
    push_range(v, '\u{24D0}', '\u{24E9}');
    push_range(v, '\u{2C30}', '\u{2C5F}');
    push_range(v, '\u{2C61}', '\u{2C61}');
    assert(rview(v@) =~= o + changes_when_titlecased_chunk_54());
}

fn push_changes_when_titlecased_chunk_55(v: &mut Vec<ClassUnicodeRange>)
    ensures
        rview(final(v)@) == rview(old(v)@) + changes_when_titlecased_chunk_55(),
{
    let ghost o = rview(v@);
    push_range(v, '\u{2C65}', '\u{2C66}');
    push_range(v, '\u{2C68}', '\u{2C68}');
    push_range(v, '\u{2C6A}', '\u{2C6A}');
    push_range(v, '\u{2C6C}', '\u{2C6C}');
    push_range(v, '\u{2C73}', '\u{2C73}');
    push_range(v, '\u{2C76}', '\u{2C76}');
    push_range(v, '\u{2C81}', '\u{2C81}');
    push_range(v, '\u{2C83}', '\u{2C83}');
    assert(rview(v@) =~= o + changes_when_titlecased_chunk_55());
}

fn push_changes_when_titlecased_chunk_56(v: &mut Vec<ClassUnicodeRange>)
    ensures
        rview(final(v)@) == rview(old(v)@) + changes_when_titlecased_chunk_56(),
{
    let ghost o = rview(v@);
    push_range(v, '\u{2C85}', '\u{2C85}');
    push_range(v, '\u{2C87}', '\u{2C87}');
    push_range(v, '\u{2C89}', '\u{2C89}');
    push_range(v, '\u{2C8B}', '\u{2C8B}');
    push_range(v, '\u{2C8D}', '\u{2C8D}');
    push_range(v, '\u{2C8F}', '\u{2C8F}');
    push_range(v, '\u{2C91}', '\u{2C91}');
    push_range(v, '\u{2C93}', '\u{2C93}');
    assert(rview(v@) =~= o + changes_when_titlecased_chunk_56());
}

fn push_changes_when_titlecased_chunk_57(v: &mut Vec<ClassUnicodeRange>)
    ensures
        rview(final(v)@) == rview(old(v)@) + changes_when_titlecased_chunk_57(),
{
    let ghost o = rview(v@);
    push_range(v, '\u{2C95}', '\u{2C95}');
    push_range(v, '\u{2C97}', '\u{2C97}');
    push_range(v, '\u{2C99}', '\u{2C99}');
    push_range(v, '\u{2C9B}', '\u{2C9B}');
    push_range(v, '\u{2C9D}', '\u{2C9D}');
    push_range(v, '\u{2C9F}', '\u{2C9F}');
    push_range(v, '\u{2CA1}', '\u{2CA1}');
    push_range(v, '\u{2CA3}', '\u{2CA3}');
    assert(rview(v@) =~= o + changes_when_titlecased_chunk_57());
}

fn push_changes_when_titlecased_chunk_58(v: &mut Vec<ClassUnicodeRange>)
    ensures
        rview(final(v)@) == rview(old(v)@) + changes_when_titlecased_chunk_58(),
{
    let ghost o = rview(v@);
    push_range(v, '\u{2CA5}', '\u{2CA5}');
    push_range(v, '\u{2CA7}', '\u{2CA7}');
    push_range(v, '\u{2CA9}', '\u{2CA9}');
    push_range(v, '\u{2CAB}', '\u{2CAB}');
    push_range(v, '\u{2CAD}', '\u{2CAD}');
    push_range(v, '\u{2CAF}', '\u{2CAF}');
    push_range(v, '\u{2CB1}', '\u{2CB1}');
    push_range(v, '\u{2CB3}', '\u{2CB3}');
    assert(rview(v@) =~= o + changes_when_titlecased_chunk_58());
}

fn push_changes_when_titlecased_chunk_59(v: &mut Vec<ClassUnicodeRange>)
    ensures
        rview(final(v)@) == rview(old(v)@) + changes_when_titlecased_chunk_59(),
{
    let ghost o = rview(v@);
    push_range(v, '\u{2CB5}', '\u{2CB5}');
    push_range(v, '\u{2CB7}', '\u{2CB7}');
    push_range(v, '\u{2CB9}', '\u{2CB9}');
    push_range(v, '\u{2CBB}', '\u{2CBB}');
    push_range(v, '\u{2CBD}', '\u{2CBD}');
    push_range(v, '\u{2CBF}', '\u{2CBF}');
    push_range(v, '\u{2CC1}', '\u{2CC1}');
    push_range(v, '\u{2CC3}', '\u{2CC3}');
    assert(rview(v@) =~= o + changes_when_titlecased_chunk_59());
}

fn push_changes_when_titlecased_chunk_60(v: &mut Vec<ClassUnicodeRange>)
    ensures
        rview(final(v)@) == rview(old(v)@) + changes_when_titlecased_chunk_60(),
{
    let ghost o = rview(v@);
    push_range(v, '\u{2CC5}', '\u{2CC5}');
    push_range(v, '\u{2CC7}', '\u{2CC7}');
    push_range(v, '\u{2CC9}', '\u{2CC9}');
    push_range(v, '\u{2CCB}', '\u{2CCB}');
    push_range(v, '\u{2CCD}', '\u{2CCD}');
    push_range(v, '\u{2CCF}', '\u{2CCF}');
    push_range(v, '\u{2CD1}', '\u{2CD1}');
    push_range(v, '\u{2CD3}', '\u{2CD3}');
    assert(rview(v@) =~= o + changes_when_titlecased_chunk_60());
}

fn push_changes_when_titlecased_chunk_61(v: &mut Vec<ClassUnicodeRange>)
    ensures
        rview(final(v)@) == rview(old(v)@) + changes_when_titlecased_chunk_61(),
{
    let ghost o = rview(v@);
    push_range(v, '\u{2CD5}', '\u{2CD5}');
    push_range(v, '\u{2CD7}', '\u{2CD7}');
    push_range(v, '\u{2CD9}', '\u{2CD9}');
    push_range(v, '\u{2CDB}', '\u{2CDB}');
    push_range(v, '\u{2CDD}', '\u{2CDD}');
    push_range(v, '\u{2CDF}', '\u{2CDF}');
    push_range(v, '\u{2CE1}', '\u{2CE1}');
    push_range(v, '\u{2CE3}', '\u{2CE3}');
    assert(rview(v@) =~= o + changes_when_titlecased_chunk_61());
}

fn push_changes_when_titlecased_chunk_62(v: &mut Vec<ClassUnicodeRange>)
    ensures
        rview(final(v)@) == rview(old(v)@) + changes_when_titlecased_chunk_62(),
{
    let ghost o = rview(v@);
    push_range(v, '\u{2CEC}', '\u{2CEC}');
    push_range(v, '\u{2CEE}', '\u{2CEE}');
    push_range(v, '\u{2CF3}', '\u{2CF3}');
    push_range(v, '\u{2D00}', '\u{2D25}');
    push_range(v, '\u{2D27}', '\u{2D27}');
    push_range(v, '\u{2D2D}', '\u{2D2D}');
    push_range(v, '\u{A641}', '\u{A641}');
    push_range(v, '\u{A643}', '\u{A643}');
    assert(rview(v@) =~= o + changes_when_titlecased_chunk_62());
}

fn push_changes_when_titlecased_chunk_63(v: &mut Vec<ClassUnicodeRange>)
    ensures
        rview(final(v)@) == rview(old(v)@) + changes_when_titlecased_chunk_63(),
{
    let ghost o = rview(v@);
    push_range(v, '\u{A645}', '\u{A645}');
    push_range(v, '\u{A647}', '\u{A647}');
    push_range(v, '\u{A649}', '\u{A649}');
    push_range(v, '\u{A64B}', '\u{A64B}');
    push_range(v, '\u{A64D}', '\u{A64D}');
    push_range(v, '\u{A64F}', '\u{A64F}');
    push_range(v, '\u{A651}', '\u{A651}');
    push_range(v, '\u{A653}', '\u{A653}');
    assert(rview(v@) =~= o + changes_when_titlecased_chunk_63());
}

fn push_changes_when_titlecased_chunk_64(v: &mut Vec<ClassUnicodeRange>)
    ensures
        rview(final(v)@) == rview(old(v)@) + changes_when_titlecased_chunk_64(),
{
    let ghost o = rview(v@);
    push_range(v, '\u{A655}', '\u{A655}');
    push_range(v, '\u{A657}', '\u{A657}');
    push_range(v, '\u{A659}', '\u{A659}');
    push_range(v, '\u{A65B}', '\u{A65B}');
    push_range(v, '\u{A65D}', '\u{A65D}');
    push_range(v, '\u{A65F}', '\u{A65F}');
    push_range(v, '\u{A661}', '\u{A661}');
    push_range(v, '\u{A663}', '\u{A663}');
    assert(rview(v@) =~= o + changes_when_titlecased_chunk_64());
}

fn push_changes_when_titlecased_chunk_65(v: &mut Vec<ClassUnicodeRange>)
    ensures
        rview(final(v)@) == rview(old(v)@) + changes_when_titlecased_chunk_65(),
{
    let ghost o = rview(v@);
    push_range(v, '\u{A665}', '\u{A665}');
    push_range(v, '\u{A667}', '\u{A667}');
    push_range(v, '\u{A669}', '\u{A669}');
    push_range(v, '\u{A66B}', '\u{A66B}');
    push_range(v, '\u{A66D}', '\u{A66D}');
    push_range(v, '\u{A681}', '\u{A681}');
    push_range(v, '\u{A683}', '\u{A683}');
    push_range(v, '\u{A685}', '\u{A685}');
    assert(rview(v@) =~= o + changes_when_titlecased_chunk_65());
}

fn push_changes_when_titlecased_chunk_66(v: &mut Vec<ClassUnicodeRange>)
    ensures
        rview(final(v)@) == rview(old(v)@) + changes_when_titlecased_chunk_66(),
{
    let ghost o = rview(v@);
    push_range(v, '\u{A687}', '\u{A687}');
    push_range(v, '\u{A689}', '\u{A689}');
    push_range(v, '\u{A68B}', '\u{A68B}');
    push_range(v, '\u{A68D}', '\u{A68D}');
    push_range(v, '\u{A68F}', '\u{A68F}');
    push_range(v, '\u{A691}', '\u{A691}');
    push_range(v, '\u{A693}', '\u{A693}');
    push_range(v, '\u{A695}', '\u{A695}');
    assert(rview(v@) =~= o + changes_when_titlecased_chunk_66());
}

fn push_changes_when_titlecased_chunk_67(v: &mut Vec<ClassUnicodeRange>)
    ensures
        rview(final(v)@) == rview(old(v)@) + changes_when_titlecased_chunk_67(),
{
    let ghost o = rview(v@);
    push_range(v, '\u{A697}', '\u{A697}');
    push_range(v, '\u{A699}', '\u{A699}');
    push_range(v, '\u{A69B}', '\u{A69B}');
    push_range(v, '\u{A723}', '\u{A723}');
    push_range(v, '\u{A725}', '\u{A725}');
    push_range(v, '\u{A727}', '\u{A727}');
    push_range(v, '\u{A729}', '\u{A729}');
    push_range(v, '\u{A72B}', '\u{A72B}');
    assert(rview(v@) =~= o + changes_when_titlecased_chunk_67());
}

fn push_changes_when_titlecased_chunk_68(v: &mut Vec<ClassUnicodeRange>)
    ensures
        rview(final(v)@) == rview(old(v)@) + changes_when_titlecased_chunk_68(),
{
    let ghost o = rview(v@);
    push_range(v, '\u{A72D}', '\u{A72D}');
    push_range(v, '\u{A72F}', '\u{A72F}');
    push_range(v, '\u{A733}', '\u{A733}');
    push_range(v, '\u{A735}', '\u{A735}');
    push_range(v, '\u{A737}', '\u{A737}');
    push_range(v, '\u{A739}', '\u{A739}');
    push_range(v, '\u{A73B}', '\u{A73B}');
    push_range(v, '\u{A73D}', '\u{A73D}');
    assert(rview(v@) =~= o + changes_when_titlecased_chunk_68());
}

fn push_changes_when_titlecased_chunk_69(v: &mut Vec<ClassUnicodeRange>)
    ensures
        rview(final(v)@) == rview(old(v)@) + changes_when_titlecased_chunk_69(),
{
    let ghost o = rview(v@);
    push_range(v, '\u{A73F}', '\u{A73F}');
    push_range(v, '\u{A741}', '\u{A741}');
    push_range(v, '\u{A743}', '\u{A743}');
    push_range(v, '\u{A745}', '\u{A745}');
    push_range(v, '\u{A747}', '\u{A747}');
    push_range(v, '\u{A749}', '\u{A749}');
    push_range(v, '\u{A74B}', '\u{A74B}');
    push_range(v, '\u{A74D}', '\u{A74D}');
    assert(rview(v@) =~= o + changes_when_titlecased_chunk_69());
}

fn push_changes_when_titlecased_chunk_70(v: &mut Vec<ClassUnicodeRange>)
    ensures
        rview(final(v)@) == rview(old(v)@) + changes_when_titlecased_chunk_70(),
{
    let ghost o = rview(v@);
    push_range(v, '\u{A74F}', '\u{A74F}');
    push_range(v, '\u{A751}', '\u{A751}');
    push_range(v, '\u{A753}', '\u{A753}');
    push_range(v, '\u{A755}', '\u{A755}');
    push_range(v, '\u{A757}', '\u{A757}');
    push_range(v, '\u{A759}', '\u{A759}');
    push_range(v, '\u{A75B}', '\u{A75B}');
    push_range(v, '\u{A75D}', '\u{A75D}');
    assert(rview(v@) =~= o + changes_when_titlecased_chunk_70());
}

fn push_changes_when_titlecased_chunk_71(v: &mut Vec<ClassUnicodeRange>)
    ensures
        rview(final(v)@) == rview(old(v)@) + changes_when_titlecased_chunk_71(),
{
    let ghost o = rview(v@);
    push_range(v, '\u{A75F}', '\u{A75F}');
    push_range(v, '\u{A761}', '\u{A761}');
    push_range(v, '\u{A763}', '\u{A763}');
    push_range(v, '\u{A765}', '\u{A765}');
    push_range(v, '\u{A767}', '\u{A767}');
    push_range(v, '\u{A769}', '\u{A769}');
    push_range(v, '\u{A76B}', '\u{A76B}');
    push_range(v, '\u{A76D}', '\u{A76D}');
    assert(rview(v@) =~= o + changes_when_titlecased_chunk_71());
}

fn push_changes_when_titlecased_chunk_72(v: &mut Vec<ClassUnicodeRange>)
    ensures
        rview(final(v)@) == rview(old(v)@) + changes_when_titlecased_chunk_72(),
{
    let ghost o = rview(v@);
    push_range(v, '\u{A76F}', '\u{A76F}');
    push_range(v, '\u{A77A}', '\u{A77A}');
    push_range(v, '\u{A77C}', '\u{A77C}');
    push_range(v, '\u{A77F}', '\u{A77F}');
    push_range(v, '\u{A781}', '\u{A781}');
    push_range(v, '\u{A783}', '\u{A783}');
    push_range(v, '\u{A785}', '\u{A785}');
    push_range(v, '\u{A787}', '\u{A787}');
    assert(rview(v@) =~= o + changes_when_titlecased_chunk_72());
}

fn push_changes_when_titlecased_chunk_73(v: &mut Vec<ClassUnicodeRange>)
    ensures
        rview(final(v)@) == rview(old(v)@) + changes_when_titlecased_chunk_73(),
{
    let ghost o = rview(v@);
    push_range(v, '\u{A78C}', '\u{A78C}');
    push_range(v, '\u{A791}', '\u{A791}');
    push_range(v, '\u{A793}', '\u{A794}');
    push_range(v, '\u{A797}', '\u{A797}');
    push_range(v, '\u{A799}', '\u{A799}');
    push_range(v, '\u{A79B}', '\u{A79B}');
    push_range(v, '\u{A79D}', '\u{A79D}');
    push_range(v, '\u{A79F}', '\u{A79F}');
    assert(rview(v@) =~= o + changes_when_titlecased_chunk_73());
}

fn push_changes_when_titlecased_chunk_74(v: &mut Vec<ClassUnicodeRange>)
    ensures
        rview(final(v)@) == rview(old(v)@) + changes_when_titlecased_chunk_74(),
{
    let ghost o = rview(v@);
    push_range(v, '\u{A7A1}', '\u{A7A1}');
    push_range(v, '\u{A7A3}', '\u{A7A3}');
    push_range(v, '\u{A7A5}', '\u{A7A5}');
    push_range(v, '\u{A7A7}', '\u{A7A7}');
    push_range(v, '\u{A7A9}', '\u{A7A9}');
    push_range(v, '\u{A7B5}', '\u{A7B5}');
    push_range(v, '\u{A7B7}', '\u{A7B7}');
    push_range(v, '\u{A7B9}', '\u{A7B9}');
    assert(rview(v@) =~= o + changes_when_titlecased_chunk_74());
}

fn push_changes_when_titlecased_chunk_75(v: &mut Vec<ClassUnicodeRange>)
    ensures
        rview(final(v)@) == rview(old(v)@) + changes_when_titlecased_chunk_75(),
{
    let ghost o = rview(v@);
    push_range(v, '\u{A7BB}', '\u{A7BB}');
    push_range(v, '\u{A7BD}', '\u{A7BD}');
    push_range(v, '\u{A7BF}', '\u{A7BF}');
    push_range(v, '\u{A7C1}', '\u{A7C1}');
    push_range(v, '\u{A7C3}', '\u{A7C3}');
    push_range(v, '\u{A7C8}', '\u{A7C8}');
    push_range(v, '\u{A7CA}', '\u{A7CA}');
    push_range(v, '\u{A7CD}', '\u{A7CD}');
    assert(rview(v@) =~= o + changes_when_titlecased_chunk_75());
}

fn push_changes_when_titlecased_chunk_76(v: &mut Vec<ClassUnicodeRange>)
    ensures
        rview(final(v)@) == rview(old(v)@) + changes_when_titlecased_chunk_76(),
{
    let ghost o = rview(v@);
    push_range(v, '\u{A7D1}', '\u{A7D1}');
    push_range(v, '\u{A7D7}', '\u{A7D7}');
    push_range(v, '\u{A7D9}', '\u{A7D9}');
    push_range(v, '\u{A7DB}', '\u{A7DB}');
    push_range(v, '\u{A7F6}', '\u{A7F6}');
    push_range(v, '\u{AB53}', '\u{AB53}');
    push_range(v, '\u{AB70}', '\u{ABBF}');
    push_range(v, '\u{FB00}', '\u{FB06}');
    assert(rview(v@) =~= o + changes_when_titlecased_chunk_76());
}

fn push_changes_when_titlecased_chunk_77(v: &mut Vec<ClassUnicodeRange>)
    ensures
        rview(final(v)@) == rview(old(v)@) + changes_when_titlecased_chunk_77(),
{
    let ghost o = rview(v@);
    push_range(v, '\u{FB13}', '\u{FB17}');
    push_range(v, '\u{FF41}', '\u{FF5A}');
    push_range(v, '\u{10428}', '\u{1044F}');
    push_range(v, '\u{104D8}', '\u{104FB}');
    push_range(v, '\u{10597}', '\u{105A1}');
    push_range(v, '\u{105A3}', '\u{105B1}');
    push_range(v, '\u{105B3}', '\u{105B9}');
    push_range(v, '\u{105BB}', '\u{105BC}');
    assert(rview(v@) =~= o + changes_when_titlecased_chunk_77());
}

fn push_changes_when_titlecased_chunk_78(v: &mut Vec<ClassUnicodeRange>)
    ensures
        rview(final(v)@) == rview(old(v)@) + changes_when_titlecased_chunk_78(),
{
    let ghost o = rview(v@);
    push_range(v, '\u{10CC0}', '\u{10CF2}');
    push_range(v, '\u{10D70}', '\u{10D85}');
    push_range(v, '\u{118C0}', '\u{118DF}');
    push_range(v, '\u{16E60}', '\u{16E7F}');
    push_range(v, '\u{1E922}', '\u{1E943}');
    assert(rview(v@) =~= o + changes_when_titlecased_chunk_78());
}

fn push_changes_when_titlecased_block_0(v: &mut Vec<ClassUnicodeRange>)
    ensures
        rview(final(v)@) == rview(old(v)@) + changes_when_titlecased_block_0(),
{
    let ghost o = rview(v@);
    push_changes_when_titlecased_chunk_0(v);
    assert(rview(v@) =~= o + (changes_when_titlecased_chunk_0()));
    push_changes_when_titlecased_chunk_1(v);
    assert(rview(v@) =~= o + (changes_when_titlecased_chunk_0() + changes_when_titlecased_chunk_1()));
    push_changes_when_titlecased_chunk_2(v);
    assert(rview(v@) =~= o + (changes_when_titlecased_chunk_0() + changes_when_titlecased_chunk_1() + changes_when_titlecased_chunk_2()));
    push_changes_when_titlecased_chunk_3(v);
    assert(rview(v@) =~= o + (changes_when_titlecased_chunk_0() + changes_when_titlecased_chunk_1() + changes_when_titlecased_chunk_2() + changes_when_titlecased_chunk_3()));
    push_changes_when_titlecased_chunk_4(v);
    assert(rview(v@) =~= o + (changes_when_titlecased_chunk_0() + changes_when_titlecased_chunk_1() + changes_when_titlecased_chunk_2() + changes_when_titlecased_chunk_3() + changes_when_titlecased_chunk_4()));
    push_changes_when_titlecased_chunk_5(v);
    assert(rview(v@) =~= o + (changes_when_titlecased_chunk_0() + changes_when_titlecased_chunk_1() + changes_when_titlecased_chunk_2() + changes_when_titlecased_chunk_3() + changes_when_titlecased_chunk_4() + changes_when_titlecased_chunk_5()));
    push_changes_when_titlecased_chunk_6(v);
    assert(rview(v@) =~= o + (changes_when_titlecased_chunk_0() + changes_when_titlecased_chunk_1() + changes_when_titlecased_chunk_2() + changes_when_titlecased_chunk_3() + changes_when_titlecased_chunk_4() + changes_when_titlecased_chunk_5() + changes_when_titlecased_chunk_6()));
    push_changes_when_titlecased_chunk_7(v);
    assert(rview(v@) =~= o + (changes_when_titlecased_chunk_0() + changes_when_titlecased_chunk_1() + changes_when_titlecased_chunk_2() + changes_when_titlecased_chunk_3() + changes_when_titlecased_chunk_4() + changes_when_titlecased_chunk_5() + changes_when_titlecased_chunk_6() + changes_when_titlecased_chunk_7()));
    push_changes_when_titlecased_chunk_8(v);
    assert(rview(v@) =~= o + (changes_when_titlecased_chunk_0() + changes_when_titlecased_chunk_1() + changes_when_titlecased_chunk_2() + changes_when_titlecased_chunk_3() + changes_when_titlecased_chunk_4() + changes_when_titlecased_chunk_5() + changes_when_titlecased_chunk_6() + changes_when_titlecased_chunk_7() + changes_when_titlecased_chunk_8()));
    push_changes_when_titlecased_chunk_9(v);
    assert(rview(v@) =~= o + (changes_when_titlecased_chunk_0() + changes_when_titlecased_chunk_1() + changes_when_titlecased_chunk_2() + changes_when_titlecased_chunk_3() + changes_when_titlecased_chunk_4() + changes_when_titlecased_chunk_5() + changes_when_titlecased_chunk_6() + changes_when_titlecased_chunk_7() + changes_when_titlecased_chunk_8() + changes_when_titlecased_chunk_9()));
}

fn push_changes_when_titlecased_block_1(v: &mut Vec<ClassUnicodeRange>)
    ensures
        rview(final(v)@) == rview(old(v)@) + changes_when_titlecased_block_1(),
{
    let ghost o = rview(v@);
    push_changes_when_titlecased_chunk_10(v);
    assert(rview(v@) =~= o + (changes_when_titlecased_chunk_10()));
    push_changes_when_titlecased_chunk_11(v);
    assert(rview(v@) =~= o + (changes_when_titlecased_chunk_10() + changes_when_titlecased_chunk_11()));
    push_changes_when_titlecased_chunk_12(v);
    assert(rview(v@) =~= o + (changes_when_titlecased_chunk_10() + changes_when_titlecased_chunk_11() + changes_when_titlecased_chunk_12()));
    push_changes_when_titlecased_chunk_13(v);
    assert(rview(v@) =~= o + (changes_when_titlecased_chunk_10() + changes_when_titlecased_chunk_11() + changes_when_titlecased_chunk_12() + changes_when_titlecased_chunk_13()));
    push_changes_when_titlecased_chunk_14(v);
    assert(rview(v@) =~= o + (changes_when_titlecased_chunk_10() + changes_when_titlecased_chunk_11() + changes_when_titlecased_chunk_12() + changes_when_titlecased_chunk_13() + changes_when_titlecased_chunk_14()));
    push_changes_when_titlecased_chunk_15(v);
    assert(rview(v@) =~= o + (changes_when_titlecased_chunk_10() + changes_when_titlecased_chunk_11() + changes_when_titlecased_chunk_12() + changes_when_titlecased_chunk_13() + changes_when_titlecased_chunk_14() + changes_when_titlecased_chunk_15()));
    push_changes_when_titlecased_chunk_16(v);
    assert(rview(v@) =~= o + (changes_when_titlecased_chunk_10() + changes_when_titlecased_chunk_11() + changes_when_titlecased_chunk_12() + changes_when_titlecased_chunk_13() + changes_when_titlecased_chunk_14() + changes_when_titlecased_chunk_15() + changes_when_titlecased_chunk_16()));
    push_changes_when_titlecased_chunk_17(v);
    assert(rview(v@) =~= o + (changes_when_titlecased_chunk_10() + changes_when_titlecased_chunk_11() + changes_when_titlecased_chunk_12() + changes_when_titlecased_chunk_13() + changes_when_titlecased_chunk_14() + changes_when_titlecased_chunk_15() + changes_when_titlecased_chunk_16() + changes_when_titlecased_chunk_17()));
    push_changes_when_titlecased_chunk_18(v);
    assert(rview(v@) =~= o + (changes_when_titlecased_chunk_10() + changes_when_titlecased_chunk_11() + changes_when_titlecased_chunk_12() + changes_when_titlecased_chunk_13() + changes_when_titlecased_chunk_14() + changes_when_titlecased_chunk_15() + changes_when_titlecased_chunk_16() + changes_when_titlecased_chunk_17() + changes_when_titlecased_chunk_18()));
    push_changes_when_titlecased_chunk_19(v);
    assert(rview(v@) =~= o + (changes_when_titlecased_chunk_10() + changes_when_titlecased_chunk_11() + changes_when_titlecased_chunk_12() + changes_when_titlecased_chunk_13() + changes_when_titlecased_chunk_14() + changes_when_titlecased_chunk_15() + changes_when_titlecased_chunk_16() + changes_when_titlecased_chunk_17() + changes_when_titlecased_chunk_18() + changes_when_titlecased_chunk_19()));
}

fn push_changes_when_titlecased_block_2(v: &mut Vec<ClassUnicodeRange>)
    ensures
        rview(final(v)@) == rview(old(v)@) + changes_when_titlecased_block_2(),
{
    let ghost o = rview(v@);
    push_changes_when_titlecased_chunk_20(v);
    assert(rview(v@) =~= o + (changes_when_titlecased_chunk_20()));
    push_changes_when_titlecased_chunk_21(v);
    assert(rview(v@) =~= o + (changes_when_titlecased_chunk_20() + changes_when_titlecased_chunk_21()));
    push_changes_when_titlecased_chunk_22(v);
    assert(rview(v@) =~= o + (changes_when_titlecased_chunk_20() + changes_when_titlecased_chunk_21() + changes_when_titlecased_chunk_22()));
    push_changes_when_titlecased_chunk_23(v);
    assert(rview(v@) =~= o + (changes_when_titlecased_chunk_20() + changes_when_titlecased_chunk_21() + changes_when_titlecased_chunk_22() + changes_when_titlecased_chunk_23()));
    push_changes_when_titlecased_chunk_24(v);
    assert(rview(v@) =~= o + (changes_when_titlecased_chunk_20() + changes_when_titlecased_chunk_21() + changes_when_titlecased_chunk_22() + changes_when_titlecased_chunk_23() + changes_when_titlecased_chunk_24()));
    push_changes_when_titlecased_chunk_25(v);
    assert(rview(v@) =~= o + (changes_when_titlecased_chunk_20() + changes_when_titlecased_chunk_21() + changes_when_titlecased_chunk_22() + changes_when_titlecased_chunk_23() + changes_when_titlecased_chunk_24() + changes_when_titlecased_chunk_25()));
    push_changes_when_titlecased_chunk_26(v);
    assert(rview(v@) =~= o + (changes_when_titlecased_chunk_20() + changes_when_titlecased_chunk_21() + changes_when_titlecased_chunk_22() + changes_when_titlecased_chunk_23() + changes_when_titlecased_chunk_24() + changes_when_titlecased_chunk_25() + changes_when_titlecased_chunk_26()));
    push_changes_when_titlecased_chunk_27(v);
    assert(rview(v@) =~= o + (changes_when_titlecased_chunk_20() + changes_when_titlecased_chunk_21() + changes_when_titlecased_chunk_22() + changes_when_titlecased_chunk_23() + changes_when_titlecased_chunk_24() + changes_when_titlecased_chunk_25() + changes_when_titlecased_chunk_26() + changes_when_titlecased_chunk_27()));
    push_changes_when_titlecased_chunk_28(v);
    assert(rview(v@) =~= o + (changes_when_titlecased_chunk_20() + changes_when_titlecased_chunk_21() + changes_when_titlecased_chunk_22() + changes_when_titlecased_chunk_23() + changes_when_titlecased_chunk_24() + changes_when_titlecased_chunk_25() + changes_when_titlecased_chunk_26() + changes_when_titlecased_chunk_27() + changes_when_titlecased_chunk_28()));
    push_changes_when_titlecased_chunk_29(v);
    assert(rview(v@) =~= o + (changes_when_titlecased_chunk_20() + changes_when_titlecased_chunk_21() + changes_when_titlecased_chunk_22() + changes_when_titlecased_chunk_23() + changes_when_titlecased_chunk_24() + changes_when_titlecased_chunk_25() + changes_when_titlecased_chunk_26() + changes_when_titlecased_chunk_27() + changes_when_titlecased_chunk_28() + changes_when_titlecased_chunk_29()));
}

fn push_changes_when_titlecased_block_3(v: &mut Vec<ClassUnicodeRange>)
    ensures
        rview(final(v)@) == rview(old(v)@) + changes_when_titlecased_block_3(),
{
    let ghost o = rview(v@);
    push_changes_when_titlecased_chunk_30(v);
    assert(rview(v@) =~= o + (changes_when_titlecased_chunk_30()));
    push_changes_when_titlecased_chunk_31(v);
    assert(rview(v@) =~= o + (changes_when_titlecased_chunk_30() + changes_when_titlecased_chunk_31()));
    push_changes_when_titlecased_chunk_32(v);
    assert(rview(v@) =~= o + (changes_when_titlecased_chunk_30() + changes_when_titlecased_chunk_31() + changes_when_titlecased_chunk_32()));
    push_changes_when_titlecased_chunk_33(v);
    assert(rview(v@) =~= o + (changes_when_titlecased_chunk_30() + changes_when_titlecased_chunk_31() + changes_when_titlecased_chunk_32() + changes_when_titlecased_chunk_33()));
    push_changes_when_titlecased_chunk_34(v);
    assert(rview(v@) =~= o + (changes_when_titlecased_chunk_30() + changes_when_titlecased_chunk_31() + changes_when_titlecased_chunk_32() + changes_when_titlecased_chunk_33() + changes_when_titlecased_chunk_34()));
    push_changes_when_titlecased_chunk_35(v);
    assert(rview(v@) =~= o + (changes_when_titlecased_chunk_30() + changes_when_titlecased_chunk_31() + changes_when_titlecased_chunk_32() + changes_when_titlecased_chunk_33() + changes_when_titlecased_chunk_34() + changes_when_titlecased_chunk_35()));
    push_changes_when_titlecased_chunk_36(v);
    assert(rview(v@) =~= o + (changes_when_titlecased_chunk_30() + changes_when_titlecased_chunk_31() + changes_when_titlecased_chunk_32() + changes_when_titlecased_chunk_33() + changes_when_titlecased_chunk_34() + changes_when_titlecased_chunk_35() + changes_when_titlecased_chunk_36()));
    push_changes_when_titlecased_chunk_37(v);
    assert(rview(v@) =~= o + (changes_when_titlecased_chunk_30() + changes_when_titlecased_chunk_31() + changes_when_titlecased_chunk_32() + changes_when_titlecased_chunk_33() + changes_when_titlecased_chunk_34() + changes_when_titlecased_chunk_35() + changes_when_titlecased_chunk_36() + changes_when_titlecased_chunk_37()));
    push_changes_when_titlecased_chunk_38(v);
    assert(rview(v@) =~= o + (changes_when_titlecased_chunk_30() + changes_when_titlecased_chunk_31() + changes_when_titlecased_chunk_32() + changes_when_titlecased_chunk_33() + changes_when_titlecased_chunk_34() + changes_when_titlecased_chunk_35() + changes_when_titlecased_chunk_36() + changes_when_titlecased_chunk_37() + changes_when_titlecased_chunk_38()));
    push_changes_when_titlecased_chunk_39(v);
    assert(rview(v@) =~= o + (changes_when_titlecased_chunk_30() + changes_when_titlecased_chunk_31() + changes_when_titlecased_chunk_32() + changes_when_titlecased_chunk_33() + changes_when_titlecased_chunk_34() + changes_when_titlecased_chunk_35() + changes_when_titlecased_chunk_36() + changes_when_titlecased_chunk_37() + changes_when_titlecased_chunk_38() + changes_when_titlecased_chunk_39()));
}

fn push_changes_when_titlecased_block_4(v: &mut Vec<ClassUnicodeRange>)
    ensures
        rview(final(v)@) == rview(old(v)@) + changes_when_titlecased_block_4(),
{
    let ghost o = rview(v@);
    push_changes_when_titlecased_chunk_40(v);
    assert(rview(v@) =~= o + (changes_when_titlecased_chunk_40()));
    push_changes_when_titlecased_chunk_41(v);
    assert(rview(v@) =~= o + (changes_when_titlecased_chunk_40() + changes_when_titlecased_chunk_41()));
    push_changes_when_titlecased_chunk_42(v);
    assert(rview(v@) =~= o + (changes_when_titlecased_chunk_40() + changes_when_titlecased_chunk_41() + changes_when_titlecased_chunk_42()));
    push_changes_when_titlecased_chunk_43(v);
    assert(rview(v@) =~= o + (changes_when_titlecased_chunk_40() + changes_when_titlecased_chunk_41() + changes_when_titlecased_chunk_42() + changes_when_titlecased_chunk_43()));
    push_changes_when_titlecased_chunk_44(v);
    assert(rview(v@) =~= o + (changes_when_titlecased_chunk_40() + changes_when_titlecased_chunk_41() + changes_when_titlecased_chunk_42() + changes_when_titlecased_chunk_43() + changes_when_titlecased_chunk_44()));
    push_changes_when_titlecased_chunk_45(v);
    assert(rview(v@) =~= o + (changes_when_titlecased_chunk_40() + changes_when_titlecased_chunk_41() + changes_when_titlecased_chunk_42() + changes_when_titlecased_chunk_43() + changes_when_titlecased_chunk_44() + changes_when_titlecased_chunk_45()));
    push_changes_when_titlecased_chunk_46(v);
    assert(rview(v@) =~= o + (changes_when_titlecased_chunk_40() + changes_when_titlecased_chunk_41() + changes_when_titlecased_chunk_42() + changes_when_titlecased_chunk_43() + changes_when_titlecased_chunk_44() + changes_when_titlecased_chunk_45() + changes_when_titlecased_chunk_46()));
    push_changes_when_titlecased_chunk_47(v);
    assert(rview(v@) =~= o + (changes_when_titlecased_chunk_40() + changes_when_titlecased_chunk_41() + changes_when_titlecased_chunk_42() + changes_when_titlecased_chunk_43() + changes_when_titlecased_chunk_44() + changes_when_titlecased_chunk_45() + changes_when_titlecased_chunk_46() + changes_when_titlecased_chunk_47()));
    push_changes_when_titlecased_chunk_48(v);
    assert(rview(v@) =~= o + (changes_when_titlecased_chunk_40() + changes_when_titlecased_chunk_41() + changes_when_titlecased_chunk_42() + changes_when_titlecased_chunk_43() + changes_when_titlecased_chunk_44() + changes_when_titlecased_chunk_45() + changes_when_titlecased_chunk_46() + changes_when_titlecased_chunk_47() + changes_when_titlecased_chunk_48()));
    push_changes_when_titlecased_chunk_49(v);
    assert(rview(v@) =~= o + (changes_when_titlecased_chunk_40() + changes_when_titlecased_chunk_41() + changes_when_titlecased_chunk_42() + changes_when_titlecased_chunk_43() + changes_when_titlecased_chunk_44() + changes_when_titlecased_chunk_45() + changes_when_titlecased_chunk_46() + changes_when_titlecased_chunk_47() + changes_when_titlecased_chunk_48() + changes_when_titlecased_chunk_49()));
}

fn push_changes_when_titlecased_block_5(v: &mut Vec<ClassUnicodeRange>)
    ensures
        rview(final(v)@) == rview(old(v)@) + changes_when_titlecased_block_5(),
{
    let ghost o = rview(v@);
    push_changes_when_titlecased_chunk_50(v);
    assert(rview(v@) =~= o + (changes_when_titlecased_chunk_50()));
    push_changes_when_titlecased_chunk_51(v);
    assert(rview(v@) =~= o + (changes_when_titlecased_chunk_50() + changes_when_titlecased_chunk_51()));
    push_changes_when_titlecased_chunk_52(v);
    assert(rview(v@) =~= o + (changes_when_titlecased_chunk_50() + changes_when_titlecased_chunk_51() + changes_when_titlecased_chunk_52()));
    push_changes_when_titlecased_chunk_53(v);
    assert(rview(v@) =~= o + (changes_when_titlecased_chunk_50() + changes_when_titlecased_chunk_51() + changes_when_titlecased_chunk_52() + changes_when_titlecased_chunk_53()));
    push_changes_when_titlecased_chunk_54(v);
    assert(rview(v@) =~= o + (changes_when_titlecased_chunk_50() + changes_when_titlecased_chunk_51() + changes_when_titlecased_chunk_52() + changes_when_titlecased_chunk_53() + changes_when_titlecased_chunk_54()));
    push_changes_when_titlecased_chunk_55(v);
    assert(rview(v@) =~= o + (changes_when_titlecased_chunk_50() + changes_when_titlecased_chunk_51() + changes_when_titlecased_chunk_52() + changes_when_titlecased_chunk_53() + changes_when_titlecased_chunk_54() + changes_when_titlecased_chunk_55()));
    push_changes_when_titlecased_chunk_56(v);
    assert(rview(v@) =~= o + (changes_when_titlecased_chunk_50() + changes_when_titlecased_chunk_51() + changes_when_titlecased_chunk_52() + changes_when_titlecased_chunk_53() + changes_when_titlecased_chunk_54() + changes_when_titlecased_chunk_55() + changes_when_titlecased_chunk_56()));
    push_changes_when_titlecased_chunk_57(v);
    assert(rview(v@) =~= o + (changes_when_titlecased_chunk_50() + changes_when_titlecased_chunk_51() + changes_when_titlecased_chunk_52() + changes_when_titlecased_chunk_53() + changes_when_titlecased_chunk_54() + changes_when_titlecased_chunk_55() + changes_when_titlecased_chunk_56() + changes_when_titlecased_chunk_57()));
    push_changes_when_titlecased_chunk_58(v);
    assert(rview(v@) =~= o + (changes_when_titlecased_chunk_50() + changes_when_titlecased_chunk_51() + changes_when_titlecased_chunk_52() + changes_when_titlecased_chunk_53() + changes_when_titlecased_chunk_54() + changes_when_titlecased_chunk_55() + changes_when_titlecased_chunk_56() + changes_when_titlecased_chunk_57() + changes_when_titlecased_chunk_58()));
    push_changes_when_titlecased_chunk_59(v);
    assert(rview(v@) =~= o + (changes_when_titlecased_chunk_50() + changes_when_titlecased_chunk_51() + changes_when_titlecased_chunk_52() + changes_when_titlecased_chunk_53() + changes_when_titlecased_chunk_54() + changes_when_titlecased_chunk_55() + changes_when_titlecased_chunk_56() + changes_when_titlecased_chunk_57() + changes_when_titlecased_chunk_58() + changes_when_titlecased_chunk_59()));
}

fn push_changes_when_titlecased_block_6(v: &mut Vec<ClassUnicodeRange>)
    ensures
        rview(final(v)@) == rview(old(v)@) + changes_when_titlecased_block_6(),
{
    let ghost o = rview(v@);
    push_changes_when_titlecased_chunk_60(v);
    assert(rview(v@) =~= o + (changes_when_titlecased_chunk_60()));
    push_changes_when_titlecased_chunk_61(v);
    assert(rview(v@) =~= o + (changes_when_titlecased_chunk_60() + changes_when_titlecased_chunk_61()));
    push_changes_when_titlecased_chunk_62(v);
    assert(rview(v@) =~= o + (changes_when_titlecased_chunk_60() + changes_when_titlecased_chunk_61() + changes_when_titlecased_chunk_62()));
    push_changes_when_titlecased_chunk_63(v);
    assert(rview(v@) =~= o + (changes_when_titlecased_chunk_60() + changes_when_titlecased_chunk_61() + changes_when_titlecased_chunk_62() + changes_when_titlecased_chunk_63()));
    push_changes_when_titlecased_chunk_64(v);
    assert(rview(v@) =~= o + (changes_when_titlecased_chunk_60() + changes_when_titlecased_chunk_61() + changes_when_titlecased_chunk_62() + changes_when_titlecased_chunk_63() + changes_when_titlecased_chunk_64()));
    push_changes_when_titlecased_chunk_65(v);
    assert(rview(v@) =~= o + (changes_when_titlecased_chunk_60() + changes_when_titlecased_chunk_61() + changes_when_titlecased_chunk_62() + changes_when_titlecased_chunk_63() + changes_when_titlecased_chunk_64() + changes_when_titlecased_chunk_65()));
    push_changes_when_titlecased_chunk_66(v);
    assert(rview(v@) =~= o + (changes_when_titlecased_chunk_60() + changes_when_titlecased_chunk_61() + changes_when_titlecased_chunk_62() + changes_when_titlecased_chunk_63() + changes_when_titlecased_chunk_64() + changes_when_titlecased_chunk_65() + changes_when_titlecased_chunk_66()));
    push_changes_when_titlecased_chunk_67(v);
    assert(rview(v@) =~= o + (changes_when_titlecased_chunk_60() + changes_when_titlecased_chunk_61() + changes_when_titlecased_chunk_62() + changes_when_titlecased_chunk_63() + changes_when_titlecased_chunk_64() + changes_when_titlecased_chunk_65() + changes_when_titlecased_chunk_66() + changes_when_titlecased_chunk_67()));
    push_changes_when_titlecased_chunk_68(v);
    assert(rview(v@) =~= o + (changes_when_titlecased_chunk_60() + changes_when_titlecased_chunk_61() + changes_when_titlecased_chunk_62() + changes_when_titlecased_chunk_63() + changes_when_titlecased_chunk_64() + changes_when_titlecased_chunk_65() + changes_when_titlecased_chunk_66() + changes_when_titlecased_chunk_67() + changes_when_titlecased_chunk_68()));
    push_changes_when_titlecased_chunk_69(v);
    assert(rview(v@) =~= o + (changes_when_titlecased_chunk_60() + changes_when_titlecased_chunk_61() + changes_when_titlecased_chunk_62() + changes_when_titlecased_chunk_63() + changes_when_titlecased_chunk_64() + changes_when_titlecased_chunk_65() + changes_when_titlecased_chunk_66() + changes_when_titlecased_chunk_67() + changes_when_titlecased_chunk_68() + changes_when_titlecased_chunk_69()));
}

fn push_changes_when_titlecased_block_7(v: &mut Vec<ClassUnicodeRange>)
    ensures
        rview(final(v)@) == rview(old(v)@) + changes_when_titlecased_block_7(),
{
    let ghost o = rview(v@);
    push_changes_when_titlecased_chunk_70(v);
    assert(rview(v@) =~= o + (changes_when_titlecased_chunk_70()));
    push_changes_when_titlecased_chunk_71(v);
    assert(rview(v@) =~= o + (changes_when_titlecased_chunk_70() + changes_when_titlecased_chunk_71()));
    push_changes_when_titlecased_chunk_72(v);
    assert(rview(v@) =~= o + (changes_when_titlecased_chunk_70() + changes_when_titlecased_chunk_71() + changes_when_titlecased_chunk_72()));
    push_changes_when_titlecased_chunk_73(v);
    assert(rview(v@) =~= o + (changes_when_titlecased_chunk_70() + changes_when_titlecased_chunk_71() + changes_when_titlecased_chunk_72() + changes_when_titlecased_chunk_73()));
    push_changes_when_titlecased_chunk_74(v);
    assert(rview(v@) =~= o + (changes_when_titlecased_chunk_70() + changes_when_titlecased_chunk_71() + changes_when_titlecased_chunk_72() + changes_when_titlecased_chunk_73() + changes_when_titlecased_chunk_74()));
    push_changes_when_titlecased_chunk_75(v);
    assert(rview(v@) =~= o + (changes_when_titlecased_chunk_70() + changes_when_titlecased_chunk_71() + changes_when_titlecased_chunk_72() + changes_when_titlecased_chunk_73() + changes_when_titlecased_chunk_74() + changes_when_titlecased_chunk_75()));
    push_changes_when_titlecased_chunk_76(v);
    assert(rview(v@) =~= o + (changes_when_titlecased_chunk_70() + changes_when_titlecased_chunk_71() + changes_when_titlecased_chunk_72() + changes_when_titlecased_chunk_73() + changes_when_titlecased_chunk_74() + changes_when_titlecased_chunk_75() + changes_when_titlecased_chunk_76()));
    push_changes_when_titlecased_chunk_77(v);
    assert(rview(v@) =~= o + (changes_when_titlecased_chunk_70() + changes_when_titlecased_chunk_71() + changes_when_titlecased_chunk_72() + changes_when_titlecased_chunk_73() + changes_when_titlecased_chunk_74() + changes_when_titlecased_chunk_75() + changes_when_titlecased_chunk_76() + changes_when_titlecased_chunk_77()));
    push_changes_when_titlecased_chunk_78(v);
    assert(rview(v@) =~= o + (changes_when_titlecased_chunk_70() + changes_when_titlecased_chunk_71() + changes_when_titlecased_chunk_72() + changes_when_titlecased_chunk_73() + changes_when_titlecased_chunk_74() + changes_when_titlecased_chunk_75() + changes_when_titlecased_chunk_76() + changes_when_titlecased_chunk_77() + changes_when_titlecased_chunk_78()));
}

pub fn changes_when_titlecased_class() -> (v: Vec<ClassUnicodeRange>)
    ensures
        rview(v@) == changes_when_titlecased_ranges(),
{
    let mut v: Vec<ClassUnicodeRange> = Vec::new();
    assert(rview(v@) =~= Seq::<SRange>::empty());
    push_changes_when_titlecased_block_0(&mut v);
    assert(rview(v@) =~= changes_when_titlecased_block_0());
    push_changes_when_titlecased_block_1(&mut v);
    assert(rview(v@) =~= changes_when_titlecased_block_0() + changes_when_titlecased_block_1());
    push_changes_when_titlecased_block_2(&mut v);
    assert(rview(v@) =~= changes_when_titlecased_block_0() + changes_when_titlecased_block_1() + changes_when_titlecased_block_2());
    push_changes_when_titlecased_block_3(&mut v);
    assert(rview(v@) =~= changes_when_titlecased_block_0() + changes_when_titlecased_block_1() + changes_when_titlecased_block_2() + changes_when_titlecased_block_3());
    push_changes_when_titlecased_block_4(&mut v);
    assert(rview(v@) =~= changes_when_titlecased_block_0() + changes_when_titlecased_block_1() + changes_when_titlecased_block_2() + changes_when_titlecased_block_3() + changes_when_titlecased_block_4());
    push_changes_when_titlecased_block_5(&mut v);
    assert(rview(v@) =~= changes_when_titlecased_block_0() + changes_when_titlecased_block_1() + changes_when_titlecased_block_2() + changes_when_titlecased_block_3() + changes_when_titlecased_block_4() + changes_when_titlecased_block_5());
    push_changes_when_titlecased_block_6(&mut v);
    assert(rview(v@) =~= changes_when_titlecased_block_0() + changes_when_titlecased_block_1() + changes_when_titlecased_block_2() + changes_when_titlecased_block_3() + changes_when_titlecased_block_4() + changes_when_titlecased_block_5() + changes_when_titlecased_block_6());
    push_changes_when_titlecased_block_7(&mut v);
    assert(rview(v@) =~= changes_when_titlecased_block_0() + changes_when_titlecased_block_1() + changes_when_titlecased_block_2() + changes_when_titlecased_block_3() + changes_when_titlecased_block_4() + changes_when_titlecased_block_5() + changes_when_titlecased_block_6() + changes_when_titlecased_block_7());
    v
}

pub open spec fn changes_when_uppercased_chunk_0() -> Seq<SRange> {
    seq![(0x61int, 0x7Aint), (0xB5int, 0xB5int), (0xDFint, 0xF6int), (0xF8int, 0xFFint), (0x101int, 0x101int), (0x103int, 0x103int), (0x105int, 0x105int), (0x107int, 0x107int)]
}

pub open spec fn changes_when_uppercased_chunk_1() -> Seq<SRange> {
    seq![(0x109int, 0x109int), (0x10Bint, 0x10Bint), (0x10Dint, 0x10Dint), (0x10Fint, 0x10Fint), (0x111int, 0x111int), (0x113int, 0x113int), (0x115int, 0x115int), (0x117int, 0x117int)]
}

pub open spec fn changes_when_uppercased_chunk_2() -> Seq<SRange> {
    seq![(0x119int, 0x119int), (0x11Bint, 0x11Bint), (0x11Dint, 0x11Dint), (0x11Fint, 0x11Fint), (0x121int, 0x121int), (0x123int, 0x123int), (0x125int, 0x125int), (0x127int, 0x127int)]
}

pub open spec fn changes_when_uppercased_chunk_3() -> Seq<SRange> {
    seq![(0x129int, 0x129int), (0x12Bint, 0x12Bint), (0x12Dint, 0x12Dint), (0x12Fint, 0x12Fint), (0x131int, 0x131int), (0x133int, 0x133int), (0x135int, 0x135int), (0x137int, 0x137int)]
}

pub open spec fn changes_when_uppercased_chunk_4() -> Seq<SRange> {
    seq![(0x13Aint, 0x13Aint), (0x13Cint, 0x13Cint), (0x13Eint, 0x13Eint), (0x140int, 0x140int), (0x142int, 0x142int), (0x144int, 0x144int), (0x146int, 0x146int), (0x148int, 0x149int)]
}

pub open spec fn changes_when_uppercased_chunk_5() -> Seq<SRange> {
    seq![(0x14Bint, 0x14Bint), (0x14Dint, 0x14Dint), (0x14Fint, 0x14Fint), (0x151int, 0x151int), (0x153int, 0x153int), (0x155int, 0x155int), (0x157int, 0x157int), (0x159int, 0x159int)]
}

pub open spec fn changes_when_uppercased_chunk_6() -> Seq<SRange> {
    seq![(0x15Bint, 0x15Bint), (0x15Dint, 0x15Dint), (0x15Fint, 0x15Fint), (0x161int, 0x161int), (0x163int, 0x163int), (0x165int, 0x165int), (0x167int, 0x167int), (0x169int, 0x169int)]
}

pub open spec fn changes_when_uppercased_chunk_7() -> Seq<SRange> {
    seq![(0x16Bint, 0x16Bint), (0x16Dint, 0x16Dint), (0x16Fint, 0x16Fint), (0x171int, 0x171int), (0x173int, 0x173int), (0x175int, 0x175int), (0x177int, 0x177int), (0x17Aint, 0x17Aint)]
}

pub open spec fn changes_when_uppercased_chunk_8() -> Seq<SRange> {
    seq![(0x17Cint, 0x17Cint), (0x17Eint, 0x180int), (0x183int, 0x183int), (0x185int, 0x185int), (0x188int, 0x188int), (0x18Cint, 0x18Cint), (0x192int, 0x192int), (0x195int, 0x195int)]
}

pub open spec fn changes_when_uppercased_chunk_9() -> Seq<SRange> {
    seq![(0x199int, 0x19Bint), (0x19Eint, 0x19Eint), (0x1A1int, 0x1A1int), (0x1A3int, 0x1A3int), (0x1A5int, 0x1A5int), (0x1A8int, 0x1A8int), (0x1ADint, 0x1ADint), (0x1B0int, 0x1B0int)]
}

pub open spec fn changes_when_uppercased_chunk_10() -> Seq<SRange> {
    seq![(0x1B4int, 0x1B4int), (0x1B6int, 0x1B6int), (0x1B9int, 0x1B9int), (0x1BDint, 0x1BDint), (0x1BFint, 0x1BFint), (0x1C5int, 0x1C6int), (0x1C8int, 0x1C9int), (0x1CBint, 0x1CCint)]
}

pub open spec fn changes_when_uppercased_chunk_11() -> Seq<SRange> {
    seq![(0x1CEint, 0x1CEint), (0x1D0int, 0x1D0int), (0x1D2int, 0x1D2int), (0x1D4int, 0x1D4int), (0x1D6int, 0x1D6int), (0x1D8int, 0x1D8int), (0x1DAint, 0x1DAint), (0x1DCint, 0x1DDint)]
}

pub open spec fn changes_when_uppercased_chunk_12() -> Seq<SRange> {
    seq![(0x1DFint, 0x1DFint), (0x1E1int, 0x1E1int), (0x1E3int, 0x1E3int), (0x1E5int, 0x1E5int), (0x1E7int, 0x1E7int), (0x1E9int, 0x1E9int), (0x1EBint, 0x1EBint), (0x1EDint, 0x1EDint)]
}

pub open spec fn changes_when_uppercased_chunk_13() -> Seq<SRange> {
    seq![(0x1EFint, 0x1F0int), (0x1F2int, 0x1F3int), (0x1F5int, 0x1F5int), (0x1F9int, 0x1F9int), (0x1FBint, 0x1FBint), (0x1FDint, 0x1FDint), (0x1FFint, 0x1FFint), (0x201int, 0x201int)]
}

pub open spec fn changes_when_uppercased_chunk_14() -> Seq<SRange> {
    seq![(0x203int, 0x203int), (0x205int, 0x205int), (0x207int, 0x207int), (0x209int, 0x209int), (0x20Bint, 0x20Bint), (0x20Dint, 0x20Dint), (0x20Fint, 0x20Fint), (0x211int, 0x211int)]
}

pub open spec fn changes_when_uppercased_chunk_15() -> Seq<SRange> {
    seq![(0x213int, 0x213int), (0x215int, 0x215int), (0x217int, 0x217int), (0x219int, 0x219int), (0x21Bint, 0x21Bint), (0x21Dint, 0x21Dint), (0x21Fint, 0x21Fint), (0x223int, 0x223int)]
}

pub open spec fn changes_when_uppercased_chunk_16() -> Seq<SRange> {
    seq![(0x225int, 0x225int), (0x227int, 0x227int), (0x229int, 0x229int), (0x22Bint, 0x22Bint), (0x22Dint, 0x22Dint), (0x22Fint, 0x22Fint), (0x231int, 0x231int), (0x233int, 0x233int)]
}

pub open spec fn changes_when_uppercased_chunk_17() -> Seq<SRange> {
    seq![(0x23Cint, 0x23Cint), (0x23Fint, 0x240int), (0x242int, 0x242int), (0x247int, 0x247int), (0x249int, 0x249int), (0x24Bint, 0x24Bint), (0x24Dint, 0x24Dint), (0x24Fint, 0x254int)]
}

pub open spec fn changes_when_uppercased_chunk_18() -> Seq<SRange> {
    seq![(0x256int, 0x257int), (0x259int, 0x259int), (0x25Bint, 0x25Cint), (0x260int, 0x261int), (0x263int, 0x266int), (0x268int, 0x26Cint), (0x26Fint, 0x26Fint), (0x271int, 0x272int)]
}

pub open spec fn changes_when_uppercased_chunk_19() -> Seq<SRange> {
    seq![(0x275int, 0x275int), (0x27Dint, 0x27Dint), (0x280int, 0x280int), (0x282int, 0x283int), (0x287int, 0x28Cint), (0x292int, 0x292int), (0x29Dint, 0x29Eint), (0x345int, 0x345int)]
}

pub open spec fn changes_when_uppercased_chunk_20() -> Seq<SRange> {
    seq![(0x371int, 0x371int), (0x373int, 0x373int), (0x377int, 0x377int), (0x37Bint, 0x37Dint), (0x390int, 0x390int), (0x3ACint, 0x3CEint), (0x3D0int, 0x3D1int), (0x3D5int, 0x3D7int)]
}

pub open spec fn changes_when_uppercased_chunk_21() -> Seq<SRange> {
    seq![(0x3D9int, 0x3D9int), (0x3DBint, 0x3DBint), (0x3DDint, 0x3DDint), (0x3DFint, 0x3DFint), (0x3E1int, 0x3E1int), (0x3E3int, 0x3E3int), (0x3E5int, 0x3E5int), (0x3E7int, 0x3E7int)]
}

pub open spec fn changes_when_uppercased_chunk_22() -> Seq<SRange> {
    seq![(0x3E9int, 0x3E9int), (0x3EBint, 0x3EBint), (0x3EDint, 0x3EDint), (0x3EFint, 0x3F3int), (0x3F5int, 0x3F5int), (0x3F8int, 0x3F8int), (0x3FBint, 0x3FBint), (0x430int, 0x45Fint)]
}

pub open spec fn changes_when_uppercased_chunk_23() -> Seq<SRange> {
    seq![(0x461int, 0x461int), (0x463int, 0x463int), (0x465int, 0x465int), (0x467int, 0x467int), (0x469int, 0x469int), (0x46Bint, 0x46Bint), (0x46Dint, 0x46Dint), (0x46Fint, 0x46Fint)]
}

pub open spec fn changes_when_uppercased_chunk_24() -> Seq<SRange> {
    seq![(0x471int, 0x471int), (0x473int, 0x473int), (0x475int, 0x475int), (0x477int, 0x477int), (0x479int, 0x479int), (0x47Bint, 0x47Bint), (0x47Dint, 0x47Dint), (0x47Fint, 0x47Fint)]
}

pub open spec fn changes_when_uppercased_chunk_25() -> Seq<SRange> {
    seq![(0x481int, 0x481int), (0x48Bint, 0x48Bint), (0x48Dint, 0x48Dint), (0x48Fint, 0x48Fint), (0x491int, 0x491int), (0x493int, 0x493int), (0x495int, 0x495int), (0x497int, 0x497int)]
}

pub open spec fn changes_when_uppercased_chunk_26() -> Seq<SRange> {
    seq![(0x499int, 0x499int), (0x49Bint, 0x49Bint), (0x49Dint, 0x49Dint), (0x49Fint, 0x49Fint), (0x4A1int, 0x4A1int), (0x4A3int, 0x4A3int), (0x4A5int, 0x4A5int), (0x4A7int, 0x4A7int)]
}

pub open spec fn changes_when_uppercased_chunk_27() -> Seq<SRange> {
    seq![(0x4A9int, 0x4A9int), (0x4ABint, 0x4ABint), (0x4ADint, 0x4ADint), (0x4AFint, 0x4AFint), (0x4B1int, 0x4B1int), (0x4B3int, 0x4B3int), (0x4B5int, 0x4B5int), (0x4B7int, 0x4B7int)]
}

pub open spec fn changes_when_uppercased_chunk_28() -> Seq<SRange> {
    seq![(0x4B9int, 0x4B9int), (0x4BBint, 0x4BBint), (0x4BDint, 0x4BDint), (0x4BFint, 0x4BFint), (0x4C2int, 0x4C2int), (0x4C4int, 0x4C4int), (0x4C6int, 0x4C6int), (0x4C8int, 0x4C8int)]
}

pub open spec fn changes_when_uppercased_chunk_29() -> Seq<SRange> {
    seq![(0x4CAint, 0x4CAint), (0x4CCint, 0x4CCint), (0x4CEint, 0x4CFint), (0x4D1int, 0x4D1int), (0x4D3int, 0x4D3int), (0x4D5int, 0x4D5int), (0x4D7int, 0x4D7int), (0x4D9int, 0x4D9int)]
}

pub open spec fn changes_when_uppercased_chunk_30() -> Seq<SRange> {
    seq![(0x4DBint, 0x4DBint), (0x4DDint, 0x4DDint), (0x4DFint, 0x4DFint), (0x4E1int, 0x4E1int), (0x4E3int, 0x4E3int), (0x4E5int, 0x4E5int), (0x4E7int, 0x4E7int), (0x4E9int, 0x4E9int)]
}

pub open spec fn changes_when_uppercased_chunk_31() -> Seq<SRange> {
    seq![(0x4EBint, 0x4EBint), (0x4EDint, 0x4EDint), (0x4EFint, 0x4EFint), (0x4F1int, 0x4F1int), (0x4F3int, 0x4F3int), (0x4F5int, 0x4F5int), (0x4F7int, 0x4F7int), (0x4F9int, 0x4F9int)]
}

pub open spec fn changes_when_uppercased_chunk_32() -> Seq<SRange> {
    seq![(0x4FBint, 0x4FBint), (0x4FDint, 0x4FDint), (0x4FFint, 0x4FFint), (0x501int, 0x501int), (0x503int, 0x503int), (0x505int, 0x505int), (0x507int, 0x507int), (0x509int, 0x509int)]
}

pub open spec fn changes_when_uppercased_chunk_33() -> Seq<SRange> {
    seq![(0x50Bint, 0x50Bint), (0x50Dint, 0x50Dint), (0x50Fint, 0x50Fint), (0x511int, 0x511int), (0x513int, 0x513int), (0x515int, 0x515int), (0x517int, 0x517int), (0x519int, 0x519int)]
}

pub open spec fn changes_when_uppercased_chunk_34() -> Seq<SRange> {
    seq![(0x51Bint, 0x51Bint), (0x51Dint, 0x51Dint), (0x51Fint, 0x51Fint), (0x521int, 0x521int), (0x523int, 0x523int), (0x525int, 0x525int), (0x527int, 0x527int), (0x529int, 0x529int)]
}

pub open spec fn changes_when_uppercased_chunk_35() -> Seq<SRange> {
    seq![(0x52Bint, 0x52Bint), (0x52Dint, 0x52Dint), (0x52Fint, 0x52Fint), (0x561int, 0x587int), (0x10D0int, 0x10FAint), (0x10FDint, 0x10FFint), (0x13F8int, 0x13FDint), (0x1C80int, 0x1C88int)]
}

pub open spec fn changes_when_uppercased_chunk_36() -> Seq<SRange> {
    seq![(0x1C8Aint, 0x1C8Aint), (0x1D79int, 0x1D79int), (0x1D7Dint, 0x1D7Dint), (0x1D8Eint, 0x1D8Eint), (0x1E01int, 0x1E01int), (0x1E03int, 0x1E03int), (0x1E05int, 0x1E05int), (0x1E07int, 0x1E07int)]
}

pub open spec fn changes_when_uppercased_chunk_37() -> Seq<SRange> {
    seq![(0x1E09int, 0x1E09int), (0x1E0Bint, 0x1E0Bint), (0x1E0Dint, 0x1E0Dint), (0x1E0Fint, 0x1E0Fint), (0x1E11int, 0x1E11int), (0x1E13int, 0x1E13int), (0x1E15int, 0x1E15int), (0x1E17int, 0x1E17int)]
}

pub open spec fn changes_when_uppercased_chunk_38() -> Seq<SRange> {
    seq![(0x1E19int, 0x1E19int), (0x1E1Bint, 0x1E1Bint), (0x1E1Dint, 0x1E1Dint), (0x1E1Fint, 0x1E1Fint), (0x1E21int, 0x1E21int), (0x1E23int, 0x1E23int), (0x1E25int, 0x1E25int), (0x1E27int, 0x1E27int)]
}

pub open spec fn changes_when_uppercased_chunk_39() -> Seq<SRange> {
    seq![(0x1E29int, 0x1E29int), (0x1E2Bint, 0x1E2Bint), (0x1E2Dint, 0x1E2Dint), (0x1E2Fint, 0x1E2Fint), (0x1E31int, 0x1E31int), (0x1E33int, 0x1E33int), (0x1E35int, 0x1E35int), (0x1E37int, 0x1E37int)]
}

pub open spec fn changes_when_uppercased_chunk_40() -> Seq<SRange> {
    seq![(0x1E39int, 0x1E39int), (0x1E3Bint, 0x1E3Bint), (0x1E3Dint, 0x1E3Dint), (0x1E3Fint, 0x1E3Fint), (0x1E41int, 0x1E41int), (0x1E43int, 0x1E43int), (0x1E45int, 0x1E45int), (0x1E47int, 0x1E47int)]
}

pub open spec fn changes_when_uppercased_chunk_41() -> Seq<SRange> {
    seq![(0x1E49int, 0x1E49int), (0x1E4Bint, 0x1E4Bint), (0x1E4Dint, 0x1E4Dint), (0x1E4Fint, 0x1E4Fint), (0x1E51int, 0x1E51int), (0x1E53int, 0x1E53int), (0x1E55int, 0x1E55int), (0x1E57int, 0x1E57int)]
}

pub open spec fn changes_when_uppercased_chunk_42() -> Seq<SRange> {
    seq![(0x1E59int, 0x1E59int), (0x1E5Bint, 0x1E5Bint), (0x1E5Dint, 0x1E5Dint), (0x1E5Fint, 0x1E5Fint), (0x1E61int, 0x1E61int), (0x1E63int, 0x1E63int), (0x1E65int, 0x1E65int), (0x1E67int, 0x1E67int)]
}

pub open spec fn changes_when_uppercased_chunk_43() -> Seq<SRange> {
    seq![(0x1E69int, 0x1E69int), (0x1E6Bint, 0x1E6Bint), (0x1E6Dint, 0x1E6Dint), (0x1E6Fint, 0x1E6Fint), (0x1E71int, 0x1E71int), (0x1E73int, 0x1E73int), (0x1E75int, 0x1E75int), (0x1E77int, 0x1E77int)]
}

pub open spec fn changes_when_uppercased_chunk_44() -> Seq<SRange> {
    seq![(0x1E79int, 0x1E79int), (0x1E7Bint, 0x1E7Bint), (0x1E7Dint, 0x1E7Dint), (0x1E7Fint, 0x1E7Fint), (0x1E81int, 0x1E81int), (0x1E83int, 0x1E83int), (0x1E85int, 0x1E85int), (0x1E87int, 0x1E87int)]
}

pub open spec fn changes_when_uppercased_chunk_45() -> Seq<SRange> {
    seq![(0x1E89int, 0x1E89int), (0x1E8Bint, 0x1E8Bint), (0x1E8Dint, 0x1E8Dint), (0x1E8Fint, 0x1E8Fint), (0x1E91int, 0x1E91int), (0x1E93int, 0x1E93int), (0x1E95int, 0x1E9Bint), (0x1EA1int, 0x1EA1int)]
}

pub open spec fn changes_when_uppercased_chunk_46() -> Seq<SRange> {
    seq![(0x1EA3int, 0x1EA3int), (0x1EA5int, 0x1EA5int), (0x1EA7int, 0x1EA7int), (0x1EA9int, 0x1EA9int), (0x1EABint, 0x1EABint), (0x1EADint, 0x1EADint), (0x1EAFint, 0x1EAFint), (0x1EB1int, 0x1EB1int)]
}

pub open spec fn changes_when_uppercased_chunk_47() -> Seq<SRange> {
    seq![(0x1EB3int, 0x1EB3int), (0x1EB5int, 0x1EB5int), (0x1EB7int, 0x1EB7int), (0x1EB9int, 0x1EB9int), (0x1EBBint, 0x1EBBint), (0x1EBDint, 0x1EBDint), (0x1EBFint, 0x1EBFint), (0x1EC1int, 0x1EC1int)]
}

pub open spec fn changes_when_uppercased_chunk_48() -> Seq<SRange> {
    seq![(0x1EC3int, 0x1EC3int), (0x1EC5int, 0x1EC5int), (0x1EC7int, 0x1EC7int), (0x1EC9int, 0x1EC9int), (0x1ECBint, 0x1ECBint), (0x1ECDint, 0x1ECDint), (0x1ECFint, 0x1ECFint), (0x1ED1int, 0x1ED1int)]
}

pub open spec fn changes_when_uppercased_chunk_49() -> Seq<SRange> {
    seq![(0x1ED3int, 0x1ED3int), (0x1ED5int, 0x1ED5int), (0x1ED7int, 0x1ED7int), (0x1ED9int, 0x1ED9int), (0x1EDBint, 0x1EDBint), (0x1EDDint, 0x1EDDint), (0x1EDFint, 0x1EDFint), (0x1EE1int, 0x1EE1int)]
}

pub open spec fn changes_when_uppercased_chunk_50() -> Seq<SRange> {
    seq![(0x1EE3int, 0x1EE3int), (0x1EE5int, 0x1EE5int), (0x1EE7int, 0x1EE7int), (0x1EE9int, 0x1EE9int), (0x1EEBint, 0x1EEBint), (0x1EEDint, 0x1EEDint), (0x1EEFint, 0x1EEFint), (0x1EF1int, 0x1EF1int)]
}

pub open spec fn changes_when_uppercased_chunk_51() -> Seq<SRange> {
    seq![(0x1EF3int, 0x1EF3int), (0x1EF5int, 0x1EF5int), (0x1EF7int, 0x1EF7int), (0x1EF9int, 0x1EF9int), (0x1EFBint, 0x1EFBint), (0x1EFDint, 0x1EFDint), (0x1EFFint, 0x1F07int), (0x1F10int, 0x1F15int)]
}

pub open spec fn changes_when_uppercased_chunk_52() -> Seq<SRange> {
    seq![(0x1F20int, 0x1F27int), (0x1F30int, 0x1F37int), (0x1F40int, 0x1F45int), (0x1F50int, 0x1F57int), (0x1F60int, 0x1F67int), (0x1F70int, 0x1F7Dint), (0x1F80int, 0x1FB4int), (0x1FB6int, 0x1FB7int)]
}

pub open spec fn changes_when_uppercased_chunk_53() -> Seq<SRange> {
    seq![(0x1FBCint, 0x1FBCint), (0x1FBEint, 0x1FBEint), (0x1FC2int, 0x1FC4int), (0x1FC6int, 0x1FC7int), (0x1FCCint, 0x1FCCint), (0x1FD0int, 0x1FD3int), (0x1FD6int, 0x1FD7int), (0x1FE0int, 0x1FE7int)]
}

pub open spec fn changes_when_uppercased_chunk_54() -> Seq<SRange> {
    seq![(0x1FF2int, 0x1FF4int), (0x1FF6int, 0x1FF7int), (0x1FFCint, 0x1FFCint), (0x214Eint, 0x214Eint), (0x2170int, 0x217Fint), (0x2184int, 0x2184int), (0x24D0int, 0x24E9int), (0x2C30int, 0x2C5Fint)]
}

pub open spec fn changes_when_uppercased_chunk_55() -> Seq<SRange> {
    seq![(0x2C61int, 0x2C61int), (0x2C65int, 0x2C66int), (0x2C68int, 0x2C68int), (0x2C6Aint, 0x2C6Aint), (0x2C6Cint, 0x2C6Cint), (0x2C73int, 0x2C73int), (0x2C76int, 0x2C76int), (0x2C81int, 0x2C81int)]
}

pub open spec fn changes_when_uppercased_chunk_56() -> Seq<SRange> {
    seq![(0x2C83int, 0x2C83int), (0x2C85int, 0x2C85int), (0x2C87int, 0x2C87int), (0x2C89int, 0x2C89int), (0x2C8Bint, 0x2C8Bint), (0x2C8Dint, 0x2C8Dint), (0x2C8Fint, 0x2C8Fint), (0x2C91int, 0x2C91int)]
}

pub open spec fn changes_when_uppercased_chunk_57() -> Seq<SRange> {
    seq![(0x2C93int, 0x2C93int), (0x2C95int, 0x2C95int), (0x2C97int, 0x2C97int), (0x2C99int, 0x2C99int), (0x2C9Bint, 0x2C9Bint), (0x2C9Dint, 0x2C9Dint), (0x2C9Fint, 0x2C9Fint), (0x2CA1int, 0x2CA1int)]
}

pub open spec fn changes_when_uppercased_chunk_58() -> Seq<SRange> {
    seq![(0x2CA3int, 0x2CA3int), (0x2CA5int, 0x2CA5int), (0x2CA7int, 0x2CA7int), (0x2CA9int, 0x2CA9int), (0x2CABint, 0x2CABint), (0x2CADint, 0x2CADint), (0x2CAFint, 0x2CAFint), (0x2CB1int, 0x2CB1int)]
}

pub open spec fn changes_when_uppercased_chunk_59() -> Seq<SRange> {
    seq![(0x2CB3int, 0x2CB3int), (0x2CB5int, 0x2CB5int), (0x2CB7int, 0x2CB7int), (0x2CB9int, 0x2CB9int), (0x2CBBint, 0x2CBBint), (0x2CBDint, 0x2CBDint), (0x2CBFint, 0x2CBFint), (0x2CC1int, 0x2CC1int)]
}

pub open spec fn changes_when_uppercased_chunk_60() -> Seq<SRange> {
    seq![(0x2CC3int, 0x2CC3int), (0x2CC5int, 0x2CC5int), (0x2CC7int, 0x2CC7int), (0x2CC9int, 0x2CC9int), (0x2CCBint, 0x2CCBint), (0x2CCDint, 0x2CCDint), (0x2CCFint, 0x2CCFint), (0x2CD1int, 0x2CD1int)]
}

pub open spec fn changes_when_uppercased_chunk_61() -> Seq<SRange> {
    seq![(0x2CD3int, 0x2CD3int), (0x2CD5int, 0x2CD5int), (0x2CD7int, 0x2CD7int), (0x2CD9int, 0x2CD9int), (0x2CDBint, 0x2CDBint), (0x2CDDint, 0x2CDDint), (0x2CDFint, 0x2CDFint), (0x2CE1int, 0x2CE1int)]
}

pub open spec fn changes_when_uppercased_chunk_62() -> Seq<SRange> {
    seq![(0x2CE3int, 0x2CE3int), (0x2CECint, 0x2CECint), (0x2CEEint, 0x2CEEint), (0x2CF3int, 0x2CF3int), (0x2D00int, 0x2D25int), (0x2D27int, 0x2D27int), (0x2D2Dint, 0x2D2Dint), (0xA641int, 0xA641int)]
}

pub open spec fn changes_when_uppercased_chunk_63() -> Seq<SRange> {
    seq![(0xA643int, 0xA643int), (0xA645int, 0xA645int), (0xA647int, 0xA647int), (0xA649int, 0xA649int), (0xA64Bint, 0xA64Bint), (0xA64Dint, 0xA64Dint), (0xA64Fint, 0xA64Fint), (0xA651int, 0xA651int)]
}

pub open spec fn changes_when_uppercased_chunk_64() -> Seq<SRange> {
    seq![(0xA653int, 0xA653int), (0xA655int, 0xA655int), (0xA657int, 0xA657int), (0xA659int, 0xA659int), (0xA65Bint, 0xA65Bint), (0xA65Dint, 0xA65Dint), (0xA65Fint, 0xA65Fint), (0xA661int, 0xA661int)]
}

pub open spec fn changes_when_uppercased_chunk_65() -> Seq<SRange> {
    seq![(0xA663int, 0xA663int), (0xA665int, 0xA665int), (0xA667int, 0xA667int), (0xA669int, 0xA669int), (0xA66Bint, 0xA66Bint), (0xA66Dint, 0xA66Dint), (0xA681int, 0xA681int), (0xA683int, 0xA683int)]
}

pub open spec fn changes_when_uppercased_chunk_66() -> Seq<SRange> {
    seq![(0xA685int, 0xA685int), (0xA687int, 0xA687int), (0xA689int, 0xA689int), (0xA68Bint, 0xA68Bint), (0xA68Dint, 0xA68Dint), (0xA68Fint, 0xA68Fint), (0xA691int, 0xA691int), (0xA693int, 0xA693int)]
}

pub open spec fn changes_when_uppercased_chunk_67() -> Seq<SRange> {
    seq![(0xA695int, 0xA695int), (0xA697int, 0xA697int), (0xA699int, 0xA699int), (0xA69Bint, 0xA69Bint), (0xA723int, 0xA723int), (0xA725int, 0xA725int), (0xA727int, 0xA727int), (0xA729int, 0xA729int)]
}

pub open spec fn changes_when_uppercased_chunk_68() -> Seq<SRange> {
    seq![(0xA72Bint, 0xA72Bint), (0xA72Dint, 0xA72Dint), (0xA72Fint, 0xA72Fint), (0xA733int, 0xA733int), (0xA735int, 0xA735int), (0xA737int, 0xA737int), (0xA739int, 0xA739int), (0xA73Bint, 0xA73Bint)]
}

pub open spec fn changes_when_uppercased_chunk_69() -> Seq<SRange> {
    seq![(0xA73Dint, 0xA73Dint), (0xA73Fint, 0xA73Fint), (0xA741int, 0xA741int), (0xA743int, 0xA743int), (0xA745int, 0xA745int), (0xA747int, 0xA747int), (0xA749int, 0xA749int), (0xA74Bint, 0xA74Bint)]
}

pub open spec fn changes_when_uppercased_chunk_70() -> Seq<SRange> {
    seq![(0xA74Dint, 0xA74Dint), (0xA74Fint, 0xA74Fint), (0xA751int, 0xA751int), (0xA753int, 0xA753int), (0xA755int, 0xA755int), (0xA757int, 0xA757int), (0xA759int, 0xA759int), (0xA75Bint, 0xA75Bint)]
}

pub open spec fn changes_when_uppercased_chunk_71() -> Seq<SRange> {
    seq![(0xA75Dint, 0xA75Dint), (0xA75Fint, 0xA75Fint), (0xA761int, 0xA761int), (0xA763int, 0xA763int), (0xA765int, 0xA765int), (0xA767int, 0xA767int), (0xA769int, 0xA769int), (0xA76Bint, 0xA76Bint)]
}

pub open spec fn changes_when_uppercased_chunk_72() -> Seq<SRange> {
    seq![(0xA76Dint, 0xA76Dint), (0xA76Fint, 0xA76Fint), (0xA77Aint, 0xA77Aint), (0xA77Cint, 0xA77Cint), (0xA77Fint, 0xA77Fint), (0xA781int, 0xA781int), (0xA783int, 0xA783int), (0xA785int, 0xA785int)]
}

pub open spec fn changes_when_uppercased_chunk_73() -> Seq<SRange> {
    seq![(0xA787int, 0xA787int), (0xA78Cint, 0xA78Cint), (0xA791int, 0xA791int), (0xA793int, 0xA794int), (0xA797int, 0xA797int), (0xA799int, 0xA799int), (0xA79Bint, 0xA79Bint), (0xA79Dint, 0xA79Dint)]
}

pub open spec fn changes_when_uppercased_chunk_74() -> Seq<SRange> {
    seq![(0xA79Fint, 0xA79Fint), (0xA7A1int, 0xA7A1int), (0xA7A3int, 0xA7A3int), (0xA7A5int, 0xA7A5int), (0xA7A7int, 0xA7A7int), (0xA7A9int, 0xA7A9int), (0xA7B5int, 0xA7B5int), (0xA7B7int, 0xA7B7int)]
}

pub open spec fn changes_when_uppercased_chunk_75() -> Seq<SRange> {
    seq![(0xA7B9int, 0xA7B9int), (0xA7BBint, 0xA7BBint), (0xA7BDint, 0xA7BDint), (0xA7BFint, 0xA7BFint), (0xA7C1int, 0xA7C1int), (0xA7C3int, 0xA7C3int), (0xA7C8int, 0xA7C8int), (0xA7CAint, 0xA7CAint)]
}

pub open spec fn changes_when_uppercased_chunk_76() -> Seq<SRange> {
    seq![(0xA7CDint, 0xA7CDint), (0xA7D1int, 0xA7D1int), (0xA7D7int, 0xA7D7int), (0xA7D9int, 0xA7D9int), (0xA7DBint, 0xA7DBint), (0xA7F6int, 0xA7F6int), (0xAB53int, 0xAB53int), (0xAB70int, 0xABBFint)]
}

pub open spec fn changes_when_uppercased_chunk_77() -> Seq<SRange> {
    seq![(0xFB00int, 0xFB06int), (0xFB13int, 0xFB17int), (0xFF41int, 0xFF5Aint), (0x10428int, 0x1044Fint), (0x104D8int, 0x104FBint), (0x10597int, 0x105A1int), (0x105A3int, 0x105B1int), (0x105B3int, 0x105B9int)]
}

pub open spec fn changes_when_uppercased_chunk_78() -> Seq<SRange> {
    seq![(0x105BBint, 0x105BCint), (0x10CC0int, 0x10CF2int), (0x10D70int, 0x10D85int), (0x118C0int, 0x118DFint), (0x16E60int, 0x16E7Fint), (0x1E922int, 0x1E943int)]
}

pub open spec fn changes_when_uppercased_block_0() -> Seq<SRange> {
    changes_when_uppercased_chunk_0() + changes_when_uppercased_chunk_1() + changes_when_uppercased_chunk_2() + changes_when_uppercased_chunk_3() + changes_when_uppercased_chunk_4() + changes_when_uppercased_chunk_5() + changes_when_uppercased_chunk_6() + changes_when_uppercased_chunk_7() + changes_when_uppercased_chunk_8() + changes_when_uppercased_chunk_9()
}

pub open spec fn changes_when_uppercased_block_1() -> Seq<SRange> {
    changes_when_uppercased_chunk_10() + changes_when_uppercased_chunk_11() + changes_when_uppercased_chunk_12() + changes_when_uppercased_chunk_13() + changes_when_uppercased_chunk_14() + changes_when_uppercased_chunk_15() + changes_when_uppercased_chunk_16() + changes_when_uppercased_chunk_17() + changes_when_uppercased_chunk_18() + changes_when_uppercased_chunk_19()
}

pub open spec fn changes_when_uppercased_block_2() -> Seq<SRange> {
    changes_when_uppercased_chunk_20() + changes_when_uppercased_chunk_21() + changes_when_uppercased_chunk_22() + changes_when_uppercased_chunk_23() + changes_when_uppercased_chunk_24() + changes_when_uppercased_chunk_25() + changes_when_uppercased_chunk_26() + changes_when_uppercased_chunk_27() + changes_when_uppercased_chunk_28() + changes_when_uppercased_chunk_29()
}

pub open spec fn changes_when_uppercased_block_3() -> Seq<SRange> {
    changes_when_uppercased_chunk_30() + changes_when_uppercased_chunk_31() + changes_when_uppercased_chunk_32() + changes_when_uppercased_chunk_33() + changes_when_uppercased_chunk_34() + changes_when_uppercased_chunk_35() + changes_when_uppercased_chunk_36() + changes_when_uppercased_chunk_37() + changes_when_uppercased_chunk_38() + changes_when_uppercased_chunk_39()
}

pub open spec fn changes_when_uppercased_block_4() -> Seq<SRange> {
    changes_when_uppercased_chunk_40() + changes_when_uppercased_chunk_41() + changes_when_uppercased_chunk_42() + changes_when_uppercased_chunk_43() + changes_when_uppercased_chunk_44() + changes_when_uppercased_chunk_45() + changes_when_uppercased_chunk_46() + changes_when_uppercased_chunk_47() + changes_when_uppercased_chunk_48() + changes_when_uppercased_chunk_49()
}

pub open spec fn changes_when_uppercased_block_5() -> Seq<SRange> {
    changes_when_uppercased_chunk_50() + changes_when_uppercased_chunk_51() + changes_when_uppercased_chunk_52() + changes_when_uppercased_chunk_53() + changes_when_uppercased_chunk_54() + changes_when_uppercased_chunk_55() + changes_when_uppercased_chunk_56() + changes_when_uppercased_chunk_57() + changes_when_uppercased_chunk_58() + changes_when_uppercased_chunk_59()
}

pub open spec fn changes_when_uppercased_block_6() -> Seq<SRange> {
    changes_when_uppercased_chunk_60() + changes_when_uppercased_chunk_61() + changes_when_uppercased_chunk_62() + changes_when_uppercased_chunk_63() + changes_when_uppercased_chunk_64() + changes_when_uppercased_chunk_65() + changes_when_uppercased_chunk_66() + changes_when_uppercased_chunk_67() + changes_when_uppercased_chunk_68() + changes_when_uppercased_chunk_69()
}

pub open spec fn changes_when_uppercased_block_7() -> Seq<SRange> {
    changes_when_uppercased_chunk_70() + changes_when_uppercased_chunk_71() + changes_when_uppercased_chunk_72() + changes_when_uppercased_chunk_73() + changes_when_uppercased_chunk_74() + changes_when_uppercased_chunk_75() + changes_when_uppercased_chunk_76() + changes_when_uppercased_chunk_77() + changes_when_uppercased_chunk_78()
}

/// The ranges of the property Changes_When_Uppercased.
pub open spec fn changes_when_uppercased_ranges() -> Seq<SRange> {
    changes_when_uppercased_block_0() + changes_when_uppercased_block_1() + changes_when_uppercased_block_2() + changes_when_uppercased_block_3() + changes_when_uppercased_block_4() + changes_when_uppercased_block_5() + changes_when_uppercased_block_6() + changes_when_uppercased_block_7()
}

proof fn lemma_changes_when_uppercased_block_0()
    ensures
        canonical(changes_when_uppercased_block_0()),
        changes_when_uppercased_block_0().len() > 0,
        changes_when_uppercased_block_0()[0] == changes_when_uppercased_chunk_0()[0],
        changes_when_uppercased_block_0().last() == changes_when_uppercased_chunk_9().last(),
{
    reveal_with_fuel(canonical, 9);
    assert(canonical(changes_when_uppercased_chunk_0()));
    assert(canonical(changes_when_uppercased_chunk_1()));
    assert(canonical(changes_when_uppercased_chunk_2()));
    assert(canonical(changes_when_uppercased_chunk_3()));
    assert(canonical(changes_when_uppercased_chunk_4()));
    assert(canonical(changes_when_uppercased_chunk_5()));
    assert(canonical(changes_when_uppercased_chunk_6()));
    assert(canonical(changes_when_uppercased_chunk_7()));
    assert(canonical(changes_when_uppercased_chunk_8()));
    assert(canonical(changes_when_uppercased_chunk_9()));
    lemma_canonical_append(changes_when_uppercased_chunk_0(), changes_when_uppercased_chunk_1());
    lemma_canonical_append(changes_when_uppercased_chunk_0() + changes_when_uppercased_chunk_1(), changes_when_uppercased_chunk_2());
    lemma_canonical_append(changes_when_uppercased_chunk_0() + changes_when_uppercased_chunk_1() + changes_when_uppercased_chunk_2(), changes_when_uppercased_chunk_3());
    lemma_canonical_append(changes_when_uppercased_chunk_0() + changes_when_uppercased_chunk_1() + changes_when_uppercased_chunk_2() + changes_when_uppercased_chunk_3(), changes_when_uppercased_chunk_4());
    lemma_canonical_append(changes_when_uppercased_chunk_0() + changes_when_uppercased_chunk_1() + changes_when_uppercased_chunk_2() + changes_when_uppercased_chunk_3() + changes_when_uppercased_chunk_4(), changes_when_uppercased_chunk_5());
    lemma_canonical_append(changes_when_uppercased_chunk_0() + changes_when_uppercased_chunk_1() + changes_when_uppercased_chunk_2() + changes_when_uppercased_chunk_3() + changes_when_uppercased_chunk_4() + changes_when_uppercased_chunk_5(), changes_when_uppercased_chunk_6());
    lemma_canonical_append(changes_when_uppercased_chunk_0() + changes_when_uppercased_chunk_1() + changes_when_uppercased_chunk_2() + changes_when_uppercased_chunk_3() + changes_when_uppercased_chunk_4() + changes_when_uppercased_chunk_5() + changes_when_uppercased_chunk_6(), changes_when_uppercased_chunk_7());
    lemma_canonical_append(changes_when_uppercased_chunk_0() + changes_when_uppercased_chunk_1() + changes_when_uppercased_chunk_2() + changes_when_uppercased_chunk_3() + changes_when_uppercased_chunk_4() + changes_when_uppercased_chunk_5() + changes_when_uppercased_chunk_6() + changes_when_uppercased_chunk_7(), changes_when_uppercased_chunk_8());
    lemma_canonical_append(changes_when_uppercased_chunk_0() + changes_when_uppercased_chunk_1() + changes_when_uppercased_chunk_2() + changes_when_uppercased_chunk_3() + changes_when_uppercased_chunk_4() + changes_when_uppercased_chunk_5() + changes_when_uppercased_chunk_6() + changes_when_uppercased_chunk_7() + changes_when_uppercased_chunk_8(), changes_when_uppercased_chunk_9());
}

proof fn lemma_changes_when_uppercased_block_1()
    ensures
        canonical(changes_when_uppercased_block_1()),
        changes_when_uppercased_block_1().len() > 0,
        changes_when_uppercased_block_1()[0] == changes_when_uppercased_chunk_10()[0],
        changes_when_uppercased_block_1().last() == changes_when_uppercased_chunk_19().last(),
{
    reveal_with_fuel(canonical, 9);
    assert(canonical(changes_when_uppercased_chunk_10()));
    assert(canonical(changes_when_uppercased_chunk_11()));
    assert(canonical(changes_when_uppercased_chunk_12()));
    assert(canonical(changes_when_uppercased_chunk_13()));
    assert(canonical(changes_when_uppercased_chunk_14()));
    assert(canonical(changes_when_uppercased_chunk_15()));
    assert(canonical(changes_when_uppercased_chunk_16()));
    assert(canonical(changes_when_uppercased_chunk_17()));
    assert(canonical(changes_when_uppercased_chunk_18()));
    assert(canonical(changes_when_uppercased_chunk_19()));
    lemma_canonical_append(changes_when_uppercased_chunk_10(), changes_when_uppercased_chunk_11());
    lemma_canonical_append(changes_when_uppercased_chunk_10() + changes_when_uppercased_chunk_11(), changes_when_uppercased_chunk_12());
    lemma_canonical_append(changes_when_uppercased_chunk_10() + changes_when_uppercased_chunk_11() + changes_when_uppercased_chunk_12(), changes_when_uppercased_chunk_13());
    lemma_canonical_append(changes_when_uppercased_chunk_10() + changes_when_uppercased_chunk_11() + changes_when_uppercased_chunk_12() + changes_when_uppercased_chunk_13(), changes_when_uppercased_chunk_14());
    lemma_canonical_append(changes_when_uppercased_chunk_10() + changes_when_uppercased_chunk_11() + changes_when_uppercased_chunk_12() + changes_when_uppercased_chunk_13() + changes_when_uppercased_chunk_14(), changes_when_uppercased_chunk_15());
    lemma_canonical_append(changes_when_uppercased_chunk_10() + changes_when_uppercased_chunk_11() + changes_when_uppercased_chunk_12() + changes_when_uppercased_chunk_13() + changes_when_uppercased_chunk_14() + changes_when_uppercased_chunk_15(), changes_when_uppercased_chunk_16());
    lemma_canonical_append(changes_when_uppercased_chunk_10() + changes_when_uppercased_chunk_11() + changes_when_uppercased_chunk_12() + changes_when_uppercased_chunk_13() + changes_when_uppercased_chunk_14() + changes_when_uppercased_chunk_15() + changes_when_uppercased_chunk_16(), changes_when_uppercased_chunk_17());
    lemma_canonical_append(changes_when_uppercased_chunk_10() + changes_when_uppercased_chunk_11() + changes_when_uppercased_chunk_12() + changes_when_uppercased_chunk_13() + changes_when_uppercased_chunk_14() + changes_when_uppercased_chunk_15() + changes_when_uppercased_chunk_16() + changes_when_uppercased_chunk_17(), changes_when_uppercased_chunk_18());
    lemma_canonical_append(changes_when_uppercased_chunk_10() + changes_when_uppercased_chunk_11() + changes_when_uppercased_chunk_12() + changes_when_uppercased_chunk_13() + changes_when_uppercased_chunk_14() + changes_when_uppercased_chunk_15() + changes_when_uppercased_chunk_16() + changes_when_uppercased_chunk_17() + changes_when_uppercased_chunk_18(), changes_when_uppercased_chunk_19());
}

proof fn lemma_changes_when_uppercased_block_2()
    ensures
        canonical(changes_when_uppercased_block_2()),
        changes_when_uppercased_block_2().len() > 0,
        changes_when_uppercased_block_2()[0] == changes_when_uppercased_chunk_20()[0],
        changes_when_uppercased_block_2().last() == changes_when_uppercased_chunk_29().last(),
{
    reveal_with_fuel(canonical, 9);
    assert(canonical(changes_when_uppercased_chunk_20()));
    assert(canonical(changes_when_uppercased_chunk_21()));
    assert(canonical(changes_when_uppercased_chunk_22()));
    assert(canonical(changes_when_uppercased_chunk_23()));
    assert(canonical(changes_when_uppercased_chunk_24()));
    assert(canonical(changes_when_uppercased_chunk_25()));
    assert(canonical(changes_when_uppercased_chunk_26()));
    assert(canonical(changes_when_uppercased_chunk_27()));
    assert(canonical(changes_when_uppercased_chunk_28()));
    assert(canonical(changes_when_uppercased_chunk_29()));
    lemma_canonical_append(changes_when_uppercased_chunk_20(), changes_when_uppercased_chunk_21());
    lemma_canonical_append(changes_when_uppercased_chunk_20() + changes_when_uppercased_chunk_21(), changes_when_uppercased_chunk_22());
    lemma_canonical_append(changes_when_uppercased_chunk_20() + changes_when_uppercased_chunk_21() + changes_when_uppercased_chunk_22(), changes_when_uppercased_chunk_23());
    lemma_canonical_append(changes_when_uppercased_chunk_20() + changes_when_uppercased_chunk_21() + changes_when_uppercased_chunk_22() + changes_when_uppercased_chunk_23(), changes_when_uppercased_chunk_24());
    lemma_canonical_append(changes_when_uppercased_chunk_20() + changes_when_uppercased_chunk_21() + changes_when_uppercased_chunk_22() + changes_when_uppercased_chunk_23() + changes_when_uppercased_chunk_24(), changes_when_uppercased_chunk_25());
    lemma_canonical_append(changes_when_uppercased_chunk_20() + changes_when_uppercased_chunk_21() + changes_when_uppercased_chunk_22() + changes_when_uppercased_chunk_23() + changes_when_uppercased_chunk_24() + changes_when_uppercased_chunk_25(), changes_when_uppercased_chunk_26());
    lemma_canonical_append(changes_when_uppercased_chunk_20() + changes_when_uppercased_chunk_21() + changes_when_uppercased_chunk_22() + changes_when_uppercased_chunk_23() + changes_when_uppercased_chunk_24() + changes_when_uppercased_chunk_25() + changes_when_uppercased_chunk_26(), changes_when_uppercased_chunk_27());
    lemma_canonical_append(changes_when_uppercased_chunk_20() + changes_when_uppercased_chunk_21() + changes_when_uppercased_chunk_22() + changes_when_uppercased_chunk_23() + changes_when_uppercased_chunk_24() + changes_when_uppercased_chunk_25() + changes_when_uppercased_chunk_26() + changes_when_uppercased_chunk_27(), changes_when_uppercased_chunk_28());
    lemma_canonical_append(changes_when_uppercased_chunk_20() + changes_when_uppercased_chunk_21() + changes_when_uppercased_chunk_22() + changes_when_uppercased_chunk_23() + changes_when_uppercased_chunk_24() + changes_when_uppercased_chunk_25() + changes_when_uppercased_chunk_26() + changes_when_uppercased_chunk_27() + changes_when_uppercased_chunk_28(), changes_when_uppercased_chunk_29());
}

proof fn lemma_changes_when_uppercased_block_3()
    ensures
        canonical(changes_when_uppercased_block_3()),
        changes_when_uppercased_block_3().len() > 0,
        changes_when_uppercased_block_3()[0] == changes_when_uppercased_chunk_30()[0],
        changes_when_uppercased_block_3().last() == changes_when_uppercased_chunk_39().last(),
{
    reveal_with_fuel(canonical, 9);
    assert(canonical(changes_when_uppercased_chunk_30()));
    assert(canonical(changes_when_uppercased_chunk_31()));
    assert(canonical(changes_when_uppercased_chunk_32()));
    assert(canonical(changes_when_uppercased_chunk_33()));
    assert(canonical(changes_when_uppercased_chunk_34()));
    assert(canonical(changes_when_uppercased_chunk_35()));
    assert(canonical(changes_when_uppercased_chunk_36()));
    assert(canonical(changes_when_uppercased_chunk_37()));
    assert(canonical(changes_when_uppercased_chunk_38()));
    assert(canonical(changes_when_uppercased_chunk_39()));
    lemma_canonical_append(changes_when_uppercased_chunk_30(), changes_when_uppercased_chunk_31());
    lemma_canonical_append(changes_when_uppercased_chunk_30() + changes_when_uppercased_chunk_31(), changes_when_uppercased_chunk_32());
    lemma_canonical_append(changes_when_uppercased_chunk_30() + changes_when_uppercased_chunk_31() + changes_when_uppercased_chunk_32(), changes_when_uppercased_chunk_33());
    lemma_canonical_append(changes_when_uppercased_chunk_30() + changes_when_uppercased_chunk_31() + changes_when_uppercased_chunk_32() + changes_when_uppercased_chunk_33(), changes_when_uppercased_chunk_34());
    lemma_canonical_append(changes_when_uppercased_chunk_30() + changes_when_uppercased_chunk_31() + changes_when_uppercased_chunk_32() + changes_when_uppercased_chunk_33() + changes_when_uppercased_chunk_34(), changes_when_uppercased_chunk_35());
    lemma_canonical_append(changes_when_uppercased_chunk_30() + changes_when_uppercased_chunk_31() + changes_when_uppercased_chunk_32() + changes_when_uppercased_chunk_33() + changes_when_uppercased_chunk_34() + changes_when_uppercased_chunk_35(), changes_when_uppercased_chunk_36());
    lemma_canonical_append(changes_when_uppercased_chunk_30() + changes_when_uppercased_chunk_31() + changes_when_uppercased_chunk_32() + changes_when_uppercased_chunk_33() + changes_when_uppercased_chunk_34() + changes_when_uppercased_chunk_35() + changes_when_uppercased_chunk_36(), changes_when_uppercased_chunk_37());
    lemma_canonical_append(changes_when_uppercased_chunk_30() + changes_when_uppercased_chunk_31() + changes_when_uppercased_chunk_32() + changes_when_uppercased_chunk_33() + changes_when_uppercased_chunk_34() + changes_when_uppercased_chunk_35() + changes_when_uppercased_chunk_36() + changes_when_uppercased_chunk_37(), changes_when_uppercased_chunk_38());
    lemma_canonical_append(changes_when_uppercased_chunk_30() + changes_when_uppercased_chunk_31() + changes_when_uppercased_chunk_32() + changes_when_uppercased_chunk_33() + changes_when_uppercased_chunk_34() + changes_when_uppercased_chunk_35() + changes_when_uppercased_chunk_36() + changes_when_uppercased_chunk_37() + changes_when_uppercased_chunk_38(), changes_when_uppercased_chunk_39());
}

proof fn lemma_changes_when_uppercased_block_4()
    ensures
        canonical(changes_when_uppercased_block_4()),
        changes_when_uppercased_block_4().len() > 0,
        changes_when_uppercased_block_4()[0] == changes_when_uppercased_chunk_40()[0],
        changes_when_uppercased_block_4().last() == changes_when_uppercased_chunk_49().last(),
{
    reveal_with_fuel(canonical, 9);
    assert(canonical(changes_when_uppercased_chunk_40()));
    assert(canonical(changes_when_uppercased_chunk_41()));
    assert(canonical(changes_when_uppercased_chunk_42()));
    assert(canonical(changes_when_uppercased_chunk_43()));
    assert(canonical(changes_when_uppercased_chunk_44()));
    assert(canonical(changes_when_uppercased_chunk_45()));
    assert(canonical(changes_when_uppercased_chunk_46()));
    assert(canonical(changes_when_uppercased_chunk_47()));
    assert(canonical(changes_when_uppercased_chunk_48()));
    assert(canonical(changes_when_uppercased_chunk_49()));
    lemma_canonical_append(changes_when_uppercased_chunk_40(), changes_when_uppercased_chunk_41());
    lemma_canonical_append(changes_when_uppercased_chunk_40() + changes_when_uppercased_chunk_41(), changes_when_uppercased_chunk_42());
    lemma_canonical_append(changes_when_uppercased_chunk_40() + changes_when_uppercased_chunk_41() + changes_when_uppercased_chunk_42(), changes_when_uppercased_chunk_43());
    lemma_canonical_append(changes_when_uppercased_chunk_40() + changes_when_uppercased_chunk_41() + changes_when_uppercased_chunk_42() + changes_when_uppercased_chunk_43(), changes_when_uppercased_chunk_44());
    lemma_canonical_append(changes_when_uppercased_chunk_40() + changes_when_uppercased_chunk_41() + changes_when_uppercased_chunk_42() + changes_when_uppercased_chunk_43() + changes_when_uppercased_chunk_44(), changes_when_uppercased_chunk_45());
    lemma_canonical_append(changes_when_uppercased_chunk_40() + changes_when_uppercased_chunk_41() + changes_when_uppercased_chunk_42() + changes_when_uppercased_chunk_43() + changes_when_uppercased_chunk_44() + changes_when_uppercased_chunk_45(), changes_when_uppercased_chunk_46());
    lemma_canonical_append(changes_when_uppercased_chunk_40() + changes_when_uppercased_chunk_41() + changes_when_uppercased_chunk_42() + changes_when_uppercased_chunk_43() + changes_when_uppercased_chunk_44() + changes_when_uppercased_chunk_45() + changes_when_uppercased_chunk_46(), changes_when_uppercased_chunk_47());
    lemma_canonical_append(changes_when_uppercased_chunk_40() + changes_when_uppercased_chunk_41() + changes_when_uppercased_chunk_42() + changes_when_uppercased_chunk_43() + changes_when_uppercased_chunk_44() + changes_when_uppercased_chunk_45() + changes_when_uppercased_chunk_46() + changes_when_uppercased_chunk_47(), changes_when_uppercased_chunk_48());
    lemma_canonical_append(changes_when_uppercased_chunk_40() + changes_when_uppercased_chunk_41() + changes_when_uppercased_chunk_42() + changes_when_uppercased_chunk_43() + changes_when_uppercased_chunk_44() + changes_when_uppercased_chunk_45() + changes_when_uppercased_chunk_46() + changes_when_uppercased_chunk_47() + changes_when_uppercased_chunk_48(), changes_when_uppercased_chunk_49());
}

proof fn lemma_changes_when_uppercased_block_5()
    ensures
        canonical(changes_when_uppercased_block_5()),
        changes_when_uppercased_block_5().len() > 0,
        changes_when_uppercased_block_5()[0] == changes_when_uppercased_chunk_50()[0],
        changes_when_uppercased_block_5().last() == changes_when_uppercased_chunk_59().last(),
{
    reveal_with_fuel(canonical, 9);
    assert(canonical(changes_when_uppercased_chunk_50()));
    assert(canonical(changes_when_uppercased_chunk_51()));
    assert(canonical(changes_when_uppercased_chunk_52()));
    assert(canonical(changes_when_uppercased_chunk_53()));
    assert(canonical(changes_when_uppercased_chunk_54()));
    assert(canonical(changes_when_uppercased_chunk_55()));
    assert(canonical(changes_when_uppercased_chunk_56()));
    assert(canonical(changes_when_uppercased_chunk_57()));
    assert(canonical(changes_when_uppercased_chunk_58()));
    assert(canonical(changes_when_uppercased_chunk_59()));
    lemma_canonical_append(changes_when_uppercased_chunk_50(), changes_when_uppercased_chunk_51());
    lemma_canonical_append(changes_when_uppercased_chunk_50() + changes_when_uppercased_chunk_51(), changes_when_uppercased_chunk_52());
    lemma_canonical_append(changes_when_uppercased_chunk_50() + changes_when_uppercased_chunk_51() + changes_when_uppercased_chunk_52(), changes_when_uppercased_chunk_53());
    lemma_canonical_append(changes_when_uppercased_chunk_50() + changes_when_uppercased_chunk_51() + changes_when_uppercased_chunk_52() + changes_when_uppercased_chunk_53(), changes_when_uppercased_chunk_54());
    lemma_canonical_append(changes_when_uppercased_chunk_50() + changes_when_uppercased_chunk_51() + changes_when_uppercased_chunk_52() + changes_when_uppercased_chunk_53() + changes_when_uppercased_chunk_54(), changes_when_uppercased_chunk_55());
    lemma_canonical_append(changes_when_uppercased_chunk_50() + changes_when_uppercased_chunk_51() + changes_when_uppercased_chunk_52() + changes_when_uppercased_chunk_53() + changes_when_uppercased_chunk_54() + changes_when_uppercased_chunk_55(), changes_when_uppercased_chunk_56());
    lemma_canonical_append(changes_when_uppercased_chunk_50() + changes_when_uppercased_chunk_51() + changes_when_uppercased_chunk_52() + changes_when_uppercased_chunk_53() + changes_when_uppercased_chunk_54() + changes_when_uppercased_chunk_55() + changes_when_uppercased_chunk_56(), changes_when_uppercased_chunk_57());
    lemma_canonical_append(changes_when_uppercased_chunk_50() + changes_when_uppercased_chunk_51() + changes_when_uppercased_chunk_52() + changes_when_uppercased_chunk_53() + changes_when_uppercased_chunk_54() + changes_when_uppercased_chunk_55() + changes_when_uppercased_chunk_56() + changes_when_uppercased_chunk_57(), changes_when_uppercased_chunk_58());
    lemma_canonical_append(changes_when_uppercased_chunk_50() + changes_when_uppercased_chunk_51() + changes_when_uppercased_chunk_52() + changes_when_uppercased_chunk_53() + changes_when_uppercased_chunk_54() + changes_when_uppercased_chunk_55() + changes_when_uppercased_chunk_56() + changes_when_uppercased_chunk_57() + changes_when_uppercased_chunk_58(), changes_when_uppercased_chunk_59());
}

proof fn lemma_changes_when_uppercased_block_6()
    ensures
        canonical(changes_when_uppercased_block_6()),
        changes_when_uppercased_block_6().len() > 0,
        changes_when_uppercased_block_6()[0] == changes_when_uppercased_chunk_60()[0],
        changes_when_uppercased_block_6().last() == changes_when_uppercased_chunk_69().last(),
{
    reveal_with_fuel(canonical, 9);
    assert(canonical(changes_when_uppercased_chunk_60()));
    assert(canonical(changes_when_uppercased_chunk_61()));
    assert(canonical(changes_when_uppercased_chunk_62()));
    assert(canonical(changes_when_uppercased_chunk_63()));
    assert(canonical(changes_when_uppercased_chunk_64()));
    assert(canonical(changes_when_uppercased_chunk_65()));
    assert(canonical(changes_when_uppercased_chunk_66()));
    assert(canonical(changes_when_uppercased_chunk_67()));
    assert(canonical(changes_when_uppercased_chunk_68()));
    assert(canonical(changes_when_uppercased_chunk_69()));
    lemma_canonical_append(changes_when_uppercased_chunk_60(), changes_when_uppercased_chunk_61());
    lemma_canonical_append(changes_when_uppercased_chunk_60() + changes_when_uppercased_chunk_61(), changes_when_uppercased_chunk_62());
    lemma_canonical_append(changes_when_uppercased_chunk_60() + changes_when_uppercased_chunk_61() + changes_when_uppercased_chunk_62(), changes_when_uppercased_chunk_63());
    lemma_canonical_append(changes_when_uppercased_chunk_60() + changes_when_uppercased_chunk_61() + changes_when_uppercased_chunk_62() + changes_when_uppercased_chunk_63(), changes_when_uppercased_chunk_64());
    lemma_canonical_append(changes_when_uppercased_chunk_60() + changes_when_uppercased_chunk_61() + changes_when_uppercased_chunk_62() + changes_when_uppercased_chunk_63() + changes_when_uppercased_chunk_64(), changes_when_uppercased_chunk_65());
    lemma_canonical_append(changes_when_uppercased_chunk_60() + changes_when_uppercased_chunk_61() + changes_when_uppercased_chunk_62() + changes_when_uppercased_chunk_63() + changes_when_uppercased_chunk_64() + changes_when_uppercased_chunk_65(), changes_when_uppercased_chunk_66());
    lemma_canonical_append(changes_when_uppercased_chunk_60() + changes_when_uppercased_chunk_61() + changes_when_uppercased_chunk_62() + changes_when_uppercased_chunk_63() + changes_when_uppercased_chunk_64() + changes_when_uppercased_chunk_65() + changes_when_uppercased_chunk_66(), changes_when_uppercased_chunk_67());
    lemma_canonical_append(changes_when_uppercased_chunk_60() + changes_when_uppercased_chunk_61() + changes_when_uppercased_chunk_62() + changes_when_uppercased_chunk_63() + changes_when_uppercased_chunk_64() + changes_when_uppercased_chunk_65() + changes_when_uppercased_chunk_66() + changes_when_uppercased_chunk_67(), changes_when_uppercased_chunk_68());
    lemma_canonical_append(changes_when_uppercased_chunk_60() + changes_when_uppercased_chunk_61() + changes_when_uppercased_chunk_62() + changes_when_uppercased_chunk_63() + changes_when_uppercased_chunk_64() + changes_when_uppercased_chunk_65() + changes_when_uppercased_chunk_66() + changes_when_uppercased_chunk_67() + changes_when_uppercased_chunk_68(), changes_when_uppercased_chunk_69());
}

proof fn lemma_changes_when_uppercased_block_7()
    ensures
        canonical(changes_when_uppercased_block_7()),
        changes_when_uppercased_block_7().len() > 0,
        changes_when_uppercased_block_7()[0] == changes_when_uppercased_chunk_70()[0],
        changes_when_uppercased_block_7().last() == changes_when_uppercased_chunk_78().last(),
{
    reveal_with_fuel(canonical, 9);
    assert(canonical(changes_when_uppercased_chunk_70()));
    assert(canonical(changes_when_uppercased_chunk_71()));
    assert(canonical(changes_when_uppercased_chunk_72()));
    assert(canonical(changes_when_uppercased_chunk_73()));
    assert(canonical(changes_when_uppercased_chunk_74()));
    assert(canonical(changes_when_uppercased_chunk_75()));
    assert(canonical(changes_when_uppercased_chunk_76()));
    assert(canonical(changes_when_uppercased_chunk_77()));
    assert(canonical(changes_when_uppercased_chunk_78()));
    lemma_canonical_append(changes_when_uppercased_chunk_70(), changes_when_uppercased_chunk_71());
    lemma_canonical_append(changes_when_uppercased_chunk_70() + changes_when_uppercased_chunk_71(), changes_when_uppercased_chunk_72());
    lemma_canonical_append(changes_when_uppercased_chunk_70() + changes_when_uppercased_chunk_71() + changes_when_uppercased_chunk_72(), changes_when_uppercased_chunk_73());
    lemma_canonical_append(changes_when_uppercased_chunk_70() + changes_when_uppercased_chunk_71() + changes_when_uppercased_chunk_72() + changes_when_uppercased_chunk_73(), changes_when_uppercased_chunk_74());
    lemma_canonical_append(changes_when_uppercased_chunk_70() + changes_when_uppercased_chunk_71() + changes_when_uppercased_chunk_72() + changes_when_uppercased_chunk_73() + changes_when_uppercased_chunk_74(), changes_when_uppercased_chunk_75());
    lemma_canonical_append(changes_when_uppercased_chunk_70() + changes_when_uppercased_chunk_71() + changes_when_uppercased_chunk_72() + changes_when_uppercased_chunk_73() + changes_when_uppercased_chunk_74() + changes_when_uppercased_chunk_75(), changes_when_uppercased_chunk_76());
    lemma_canonical_append(changes_when_uppercased_chunk_70() + changes_when_uppercased_chunk_71() + changes_when_uppercased_chunk_72() + changes_when_uppercased_chunk_73() + changes_when_uppercased_chunk_74() + changes_when_uppercased_chunk_75() + changes_when_uppercased_chunk_76(), changes_when_uppercased_chunk_77());
    lemma_canonical_append(changes_when_uppercased_chunk_70() + changes_when_uppercased_chunk_71() + changes_when_uppercased_chunk_72() + changes_when_uppercased_chunk_73() + changes_when_uppercased_chunk_74() + changes_when_uppercased_chunk_75() + changes_when_uppercased_chunk_76() + changes_when_uppercased_chunk_77(), changes_when_uppercased_chunk_78());
}

pub proof fn lemma_changes_when_uppercased_canonical()
    ensures
        canonical(changes_when_uppercased_ranges()),
{
    lemma_changes_when_uppercased_block_0();
    lemma_changes_when_uppercased_block_1();
    lemma_changes_when_uppercased_block_2();
    lemma_changes_when_uppercased_block_3();
    lemma_changes_when_uppercased_block_4();
    lemma_changes_when_uppercased_block_5();
    lemma_changes_when_uppercased_block_6();
    lemma_changes_when_uppercased_block_7();
    lemma_canonical_append(changes_when_uppercased_block_0(), changes_when_uppercased_block_1());
    lemma_canonical_append(changes_when_uppercased_block_0() + changes_when_uppercased_block_1(), changes_when_uppercased_block_2());
    lemma_canonical_append(changes_when_uppercased_block_0() + changes_when_uppercased_block_1() + changes_when_uppercased_block_2(), changes_when_uppercased_block_3());
    lemma_canonical_append(changes_when_uppercased_block_0() + changes_when_uppercased_block_1() + changes_when_uppercased_block_2() + changes_when_uppercased_block_3(), changes_when_uppercased_block_4());
    lemma_canonical_append(changes_when_uppercased_block_0() + changes_when_uppercased_block_1() + changes_when_uppercased_block_2() + changes_when_uppercased_block_3() + changes_when_uppercased_block_4(), changes_when_uppercased_block_5());
    lemma_canonical_append(changes_when_uppercased_block_0() + changes_when_uppercased_block_1() + changes_when_uppercased_block_2() + changes_when_uppercased_block_3() + changes_when_uppercased_block_4() + changes_when_uppercased_block_5(), changes_when_uppercased_block_6());
    lemma_canonical_append(changes_when_uppercased_block_0() + changes_when_uppercased_block_1() + changes_when_uppercased_block_2() + changes_when_uppercased_block_3() + changes_when_uppercased_block_4() + changes_when_uppercased_block_5() + changes_when_uppercased_block_6(), changes_when_uppercased_block_7());
}

fn push_changes_when_uppercased_chunk_0(v: &mut Vec<ClassUnicodeRange>)
    ensures
        rview(final(v)@) == rview(old(v)@) + changes_when_uppercased_chunk_0(),
{
    let ghost o = rview(v@);
    push_range(v, '\u{61}', '\u{7A}');
    push_range(v, '\u{B5}', '\u{B5}');
    push_range(v, '\u{DF}', '\u{F6}');
    push_range(v, '\u{F8}', '\u{FF}');
    push_range(v, '\u{101}', '\u{101}');
    push_range(v, '\u{103}', '\u{103}');
    push_range(v, '\u{105}', '\u{105}');
    push_range(v, '\u{107}', '\u{107}');
    assert(rview(v@) =~= o + changes_when_uppercased_chunk_0());
}

fn push_changes_when_uppercased_chunk_1(v: &mut Vec<ClassUnicodeRange>)
    ensures
        rview(final(v)@) == rview(old(v)@) + changes_when_uppercased_chunk_1(),
{
    let ghost o = rview(v@);
    push_range(v, '\u{109}', '\u{109}');
    push_range(v, '\u{10B}', '\u{10B}');
    push_range(v, '\u{10D}', '\u{10D}');
    push_range(v, '\u{10F}', '\u{10F}');
    push_range(v, '\u{111}', '\u{111}');
    push_range(v, '\u{113}', '\u{113}');
    push_range(v, '\u{115}', '\u{115}');
    push_range(v, '\u{117}', '\u{117}');
    assert(rview(v@) =~= o + changes_when_uppercased_chunk_1());
}

fn push_changes_when_uppercased_chunk_2(v: &mut Vec<ClassUnicodeRange>)
    ensures
        rview(final(v)@) == rview(old(v)@) + changes_when_uppercased_chunk_2(),
{
    let ghost o = rview(v@);
    push_range(v, '\u{119}', '\u{119}');
    push_range(v, '\u{11B}', '\u{11B}');
    push_range(v, '\u{11D}', '\u{11D}');
    push_range(v, '\u{11F}', '\u{11F}');
    push_range(v, '\u{121}', '\u{121}');
    push_range(v, '\u{123}', '\u{123}');
    push_range(v, '\u{125}', '\u{125}');
    push_range(v, '\u{127}', '\u{127}');
    assert(rview(v@) =~= o + changes_when_uppercased_chunk_2());
}

fn push_changes_when_uppercased_chunk_3(v: &mut Vec<ClassUnicodeRange>)
    ensures
        rview(final(v)@) == rview(old(v)@) + changes_when_uppercased_chunk_3(),
{
    let ghost o = rview(v@);
    push_range(v, '\u{129}', '\u{129}');
    push_range(v, '\u{12B}', '\u{12B}');
    push_range(v, '\u{12D}', '\u{12D}');
    push_range(v, '\u{12F}', '\u{12F}');
    push_range(v, '\u{131}', '\u{131}');
    push_range(v, '\u{133}', '\u{133}');
    push_range(v, '\u{135}', '\u{135}');
    push_range(v, '\u{137}', '\u{137}');
    assert(rview(v@) =~= o + changes_when_uppercased_chunk_3());
}

fn push_changes_when_uppercased_chunk_4(v: &mut Vec<ClassUnicodeRange>)
    ensures
        rview(final(v)@) == rview(old(v)@) + changes_when_uppercased_chunk_4(),
{
    let ghost o = rview(v@);
    push_range(v, '\u{13A}', '\u{13A}');
    push_range(v, '\u{13C}', '\u{13C}');
    push_range(v, '\u{13E}', '\u{13E}');
    push_range(v, '\u{140}', '\u{140}');
    push_range(v, '\u{142}', '\u{142}');
    push_range(v, '\u{144}', '\u{144}');
    push_range(v, '\u{146}', '\u{146}');
    push_range(v, '\u{148}', '\u{149}');
    assert(rview(v@) =~= o + changes_when_uppercased_chunk_4());
}

fn push_changes_when_uppercased_chunk_5(v: &mut Vec<ClassUnicodeRange>)
    ensures
        rview(final(v)@) == rview(old(v)@) + changes_when_uppercased_chunk_5(),
{
    let ghost o = rview(v@);
    push_range(v, '\u{14B}', '\u{14B}');
    push_range(v, '\u{14D}', '\u{14D}');
    push_range(v, '\u{14F}', '\u{14F}');
    push_range(v, '\u{151}', '\u{151}');
    push_range(v, '\u{153}', '\u{153}');
    push_range(v, '\u{155}', '\u{155}');
    push_range(v, '\u{157}', '\u{157}');
    push_range(v, '\u{159}', '\u{159}');
    assert(rview(v@) =~= o + changes_when_uppercased_chunk_5());
}

fn push_changes_when_uppercased_chunk_6(v: &mut Vec<ClassUnicodeRange>)
    ensures
        rview(final(v)@) == rview(old(v)@) + changes_when_uppercased_chunk_6(),
{
    let ghost o = rview(v@);
    push_range(v, '\u{15B}', '\u{15B}');
    push_range(v, '\u{15D}', '\u{15D}');
    push_range(v, '\u{15F}', '\u{15F}');
    push_range(v, '\u{161}', '\u{161}');
    push_range(v, '\u{163}', '\u{163}');
    push_range(v, '\u{165}', '\u{165}');
    push_range(v, '\u{167}', '\u{167}');
    push_range(v, '\u{169}', '\u{169}');
    assert(rview(v@) =~= o + changes_when_uppercased_chunk_6());
}

fn push_changes_when_uppercased_chunk_7(v: &mut Vec<ClassUnicodeRange>)
    ensures
        rview(final(v)@) == rview(old(v)@) + changes_when_uppercased_chunk_7(),
{
    let ghost o = rview(v@);
    push_range(v, '\u{16B}', '\u{16B}');
    push_range(v, '\u{16D}', '\u{16D}');
    push_range(v, '\u{16F}', '\u{16F}');
    push_range(v, '\u{171}', '\u{171}');
    push_range(v, '\u{173}', '\u{173}');
    push_range(v, '\u{175}', '\u{175}');
    push_range(v, '\u{177}', '\u{177}');
    push_range(v, '\u{17A}', '\u{17A}');
    assert(rview(v@) =~= o + changes_when_uppercased_chunk_7());
}

fn push_changes_when_uppercased_chunk_8(v: &mut Vec<ClassUnicodeRange>)
    ensures
        rview(final(v)@) == rview(old(v)@) + changes_when_uppercased_chunk_8(),
{
    let ghost o = rview(v@);
    push_range(v, '\u{17C}', '\u{17C}');
    push_range(v, '\u{17E}', '\u{180}');
    push_range(v, '\u{183}', '\u{183}');
    push_range(v, '\u{185}', '\u{185}');
    push_range(v, '\u{188}', '\u{188}');
    push_range(v, '\u{18C}', '\u{18C}');
    push_range(v, '\u{192}', '\u{192}');
    push_range(v, '\u{195}', '\u{195}');
    assert(rview(v@) =~= o + changes_when_uppercased_chunk_8());
}

fn push_changes_when_uppercased_chunk_9(v: &mut Vec<ClassUnicodeRange>)
    ensures
        rview(final(v)@) == rview(old(v)@) + changes_when_uppercased_chunk_9(),
{
    let ghost o = rview(v@);
    push_range(v, '\u{199}', '\u{19B}');
    push_range(v, '\u{19E}', '\u{19E}');
    push_range(v, '\u{1A1}', '\u{1A1}');
    push_range(v, '\u{1A3}', '\u{1A3}');
    push_range(v, '\u{1A5}', '\u{1A5}');
    push_range(v, '\u{1A8}', '\u{1A8}');
    push_range(v, '\u{1AD}', '\u{1AD}');
    push_range(v, '\u{1B0}', '\u{1B0}');
    assert(rview(v@) =~= o + changes_when_uppercased_chunk_9());
}

fn push_changes_when_uppercased_chunk_10(v: &mut Vec<ClassUnicodeRange>)
    ensures
        rview(final(v)@) == rview(old(v)@) + changes_when_uppercased_chunk_10(),
{
    let ghost o = rview(v@);
    push_range(v, '\u{1B4}', '\u{1B4}');
    push_range(v, '\u{1B6}', '\u{1B6}');
    push_range(v, '\u{1B9}', '\u{1B9}');
    push_range(v, '\u{1BD}', '\u{1BD}');
    push_range(v, '\u{1BF}', '\u{1BF}');
    push_range(v, '\u{1C5}', '\u{1C6}');
    push_range(v, '\u{1C8}', '\u{1C9}');
    push_range(v, '\u{1CB}', '\u{1CC}');
    assert(rview(v@) =~= o + changes_when_uppercased_chunk_10());
}

fn push_changes_when_uppercased_chunk_11(v: &mut Vec<ClassUnicodeRange>)
    ensures
        rview(final(v)@) == rview(old(v)@) + changes_when_uppercased_chunk_11(),
{
    let ghost o = rview(v@);
    push_range(v, '\u{1CE}', '\u{1CE}');
    push_range(v, '\u{1D0}', '\u{1D0}');
    push_range(v, '\u{1D2}', '\u{1D2}');
    push_range(v, '\u{1D4}', '\u{1D4}');
    push_range(v, '\u{1D6}', '\u{1D6}');
    push_range(v, '\u{1D8}', '\u{1D8}');
    push_range(v, '\u{1DA}', '\u{1DA}');
    push_range(v, '\u{1DC}', '\u{1DD}');
    assert(rview(v@) =~= o + changes_when_uppercased_chunk_11());
}

fn push_changes_when_uppercased_chunk_12(v: &mut Vec<ClassUnicodeRange>)
    ensures
        rview(final(v)@) == rview(old(v)@) + changes_when_uppercased_chunk_12(),
{
    let ghost o = rview(v@);
    push_range(v, '\u{1DF}', '\u{1DF}');
    push_range(v, '\u{1E1}', '\u{1E1}');
    push_range(v, '\u{1E3}', '\u{1E3}');
    push_range(v, '\u{1E5}', '\u{1E5}');
    push_range(v, '\u{1E7}', '\u{1E7}');
    push_range(v, '\u{1E9}', '\u{1E9}');
    push_range(v, '\u{1EB}', '\u{1EB}');
    push_range(v, '\u{1ED}', '\u{1ED}');
    assert(rview(v@) =~= o + changes_when_uppercased_chunk_12());
}

fn push_changes_when_uppercased_chunk_13(v: &mut Vec<ClassUnicodeRange>)
    ensures
        rview(final(v)@) == rview(old(v)@) + changes_when_uppercased_chunk_13(),
{
    let ghost o = rview(v@);
    push_range(v, '\u{1EF}', '\u{1F0}');
    push_range(v, '\u{1F2}', '\u{1F3}');
    push_range(v, '\u{1F5}', '\u{1F5}');
    push_range(v, '\u{1F9}', '\u{1F9}');
    push_range(v, '\u{1FB}', '\u{1FB}');
    push_range(v, '\u{1FD}', '\u{1FD}');
    push_range(v, '\u{1FF}', '\u{1FF}');
    push_range(v, '\u{201}', '\u{201}');
    assert(rview(v@) =~= o + changes_when_uppercased_chunk_13());
}

fn push_changes_when_uppercased_chunk_14(v: &mut Vec<ClassUnicodeRange>)
    ensures
        rview(final(v)@) == rview(old(v)@) + changes_when_uppercased_chunk_14(),
{
    let ghost o = rview(v@);
    push_range(v, '\u{203}', '\u{203}');
    push_range(v, '\u{205}', '\u{205}');
    push_range(v, '\u{207}', '\u{207}');
    push_range(v, '\u{209}', '\u{209}');
    push_range(v, '\u{20B}', '\u{20B}');
    push_range(v, '\u{20D}', '\u{20D}');
    push_range(v, '\u{20F}', '\u{20F}');
    push_range(v, '\u{211}', '\u{211}');
    assert(rview(v@) =~= o + changes_when_uppercased_chunk_14());
}

fn push_changes_when_uppercased_chunk_15(v: &mut Vec<ClassUnicodeRange>)
    ensures
        rview(final(v)@) == rview(old(v)@) + changes_when_uppercased_chunk_15(),
{
    let ghost o = rview(v@);
    push_range(v, '\u{213}', '\u{213}');
    push_range(v, '\u{215}', '\u{215}');
    push_range(v, '\u{217}', '\u{217}');
    push_range(v, '\u{219}', '\u{219}');
    push_range(v, '\u{21B}', '\u{21B}');
    push_range(v, '\u{21D}', '\u{21D}');
    push_range(v, '\u{21F}', '\u{21F}');
    push_range(v, '\u{223}', '\u{223}');
    assert(rview(v@) =~= o + changes_when_uppercased_chunk_15());
}

fn push_changes_when_uppercased_chunk_16(v: &mut Vec<ClassUnicodeRange>)
    ensures
        rview(final(v)@) == rview(old(v)@) + changes_when_uppercased_chunk_16(),
{
    let ghost o = rview(v@);
    push_range(v, '\u{225}', '\u{225}');
    push_range(v, '\u{227}', '\u{227}');
    push_range(v, '\u{229}', '\u{229}');
    push_range(v, '\u{22B}', '\u{22B}');
    push_range(v, '\u{22D}', '\u{22D}');
    push_range(v, '\u{22F}', '\u{22F}');
    push_range(v, '\u{231}', '\u{231}');
    push_range(v, '\u{233}', '\u{233}');
    assert(rview(v@) =~= o + changes_when_uppercased_chunk_16());
}

fn push_changes_when_uppercased_chunk_17(v: &mut Vec<ClassUnicodeRange>)
    ensures
        rview(final(v)@) == rview(old(v)@) + changes_when_uppercased_chunk_17(),
{
    let ghost o = rview(v@);
    push_range(v, '\u{23C}', '\u{23C}');
    push_range(v, '\u{23F}', '\u{240}');
    push_range(v, '\u{242}', '\u{242}');
    push_range(v, '\u{247}', '\u{247}');
    push_range(v, '\u{249}', '\u{249}');
    push_range(v, '\u{24B}', '\u{24B}');
    push_range(v, '\u{24D}', '\u{24D}');
    push_range(v, '\u{24F}', '\u{254}');
    assert(rview(v@) =~= o + changes_when_uppercased_chunk_17());
}

fn push_changes_when_uppercased_chunk_18(v: &mut Vec<ClassUnicodeRange>)
    ensures
        rview(final(v)@) == rview(old(v)@) + changes_when_uppercased_chunk_18(),
{
    let ghost o = rview(v@);
    push_range(v, '\u{256}', '\u{257}');
    push_range(v, '\u{259}', '\u{259}');
    push_range(v, '\u{25B}', '\u{25C}');
    push_range(v, '\u{260}', '\u{261}');
    push_range(v, '\u{263}', '\u{266}');
    push_range(v, '\u{268}', '\u{26C}');
    push_range(v, '\u{26F}', '\u{26F}');
    push_range(v, '\u{271}', '\u{272}');
    assert(rview(v@) =~= o + changes_when_uppercased_chunk_18());
}

fn push_changes_when_uppercased_chunk_19(v: &mut Vec<ClassUnicodeRange>)
    ensures
        rview(final(v)@) == rview(old(v)@) + changes_when_uppercased_chunk_19(),
{
    let ghost o = rview(v@);
    push_range(v, '\u{275}', '\u{275}');
    push_range(v, '\u{27D}', '\u{27D}');
    push_range(v, '\u{280}', '\u{280}');
    push_range(v, '\u{282}', '\u{283}');
    push_range(v, '\u{287}', '\u{28C}');
    push_range(v, '\u{292}', '\u{292}');
    push_range(v, '\u{29D}', '\u{29E}');
    push_range(v, '\u{345}', '\u{345}');
    assert(rview(v@) =~= o + changes_when_uppercased_chunk_19());
}

fn push_changes_when_uppercased_chunk_20(v: &mut Vec<ClassUnicodeRange>)
    ensures
        rview(final(v)@) == rview(old(v)@) + changes_when_uppercased_chunk_20(),
{
    let ghost o = rview(v@);
    push_range(v, '\u{371}', '\u{371}');
    push_range(v, '\u{373}', '\u{373}');
    push_range(v, '\u{377}', '\u{377}');
    push_range(v, '\u{37B}', '\u{37D}');
    push_range(v, '\u{390}', '\u{390}');
    push_range(v, '\u{3AC}', '\u{3CE}');
    push_range(v, '\u{3D0}', '\u{3D1}');
    push_range(v, '\u{3D5}', '\u{3D7}');
    assert(rview(v@) =~= o + changes_when_uppercased_chunk_20());
}

fn push_changes_when_uppercased_chunk_21(v: &mut Vec<ClassUnicodeRange>)
    ensures
        rview(final(v)@) == rview(old(v)@) + changes_when_uppercased_chunk_21(),
{
    let ghost o = rview(v@);
    push_range(v, '\u{3D9}', '\u{3D9}');
    push_range(v, '\u{3DB}', '\u{3DB}');
    push_range(v, '\u{3DD}', '\u{3DD}');
    push_range(v, '\u{3DF}', '\u{3DF}');
    push_range(v, '\u{3E1}', '\u{3E1}');
    push_range(v, '\u{3E3}', '\u{3E3}');
    push_range(v, '\u{3E5}', '\u{3E5}');
    push_range(v, '\u{3E7}', '\u{3E7}');
    assert(rview(v@) =~= o + changes_when_uppercased_chunk_21());
}

fn push_changes_when_uppercased_chunk_22(v: &mut Vec<ClassUnicodeRange>)
    ensures
        rview(final(v)@) == rview(old(v)@) + changes_when_uppercased_chunk_22(),
{
    let ghost o = rview(v@);
    push_range(v, '\u{3E9}', '\u{3E9}');
    push_range(v, '\u{3EB}', '\u{3EB}');
    push_range(v, '\u{3ED}', '\u{3ED}');
    push_range(v, '\u{3EF}', '\u{3F3}');
    push_range(v, '\u{3F5}', '\u{3F5}');
    push_range(v, '\u{3F8}', '\u{3F8}');
    push_range(v, '\u{3FB}', '\u{3FB}');
    push_range(v, '\u{430}', '\u{45F}');
    assert(rview(v@) =~= o + changes_when_uppercased_chunk_22());
}

fn push_changes_when_uppercased_chunk_23(v: &mut Vec<ClassUnicodeRange>)
    ensures
        rview(final(v)@) == rview(old(v)@) + changes_when_uppercased_chunk_23(),
{
    let ghost o = rview(v@);
    push_range(v, '\u{461}', '\u{461}');
    push_range(v, '\u{463}', '\u{463}');
    push_range(v, '\u{465}', '\u{465}');
    push_range(v, '\u{467}', '\u{467}');
    push_range(v, '\u{469}', '\u{469}');
    push_range(v, '\u{46B}', '\u{46B}');
    push_range(v, '\u{46D}', '\u{46D}');
    push_range(v, '\u{46F}', '\u{46F}');
    assert(rview(v@) =~= o + changes_when_uppercased_chunk_23());
}

fn push_changes_when_uppercased_chunk_24(v: &mut Vec<ClassUnicodeRange>)
    ensures
        rview(final(v)@) == rview(old(v)@) + changes_when_uppercased_chunk_24(),
{
    let ghost o = rview(v@);
    push_range(v, '\u{471}', '\u{471}');
    push_range(v, '\u{473}', '\u{473}');
    push_range(v, '\u{475}', '\u{475}');
    push_range(v, '\u{477}', '\u{477}');
    push_range(v, '\u{479}', '\u{479}');
    push_range(v, '\u{47B}', '\u{47B}');
    push_range(v, '\u{47D}', '\u{47D}');
    push_range(v, '\u{47F}', '\u{47F}');
    assert(rview(v@) =~= o + changes_when_uppercased_chunk_24());
}

fn push_changes_when_uppercased_chunk_25(v: &mut Vec<ClassUnicodeRange>)
    ensures
        rview(final(v)@) == rview(old(v)@) + changes_when_uppercased_chunk_25(),
{
    let ghost o = rview(v@);
    push_range(v, '\u{481}', '\u{481}');
    push_range(v, '\u{48B}', '\u{48B}');
    push_range(v, '\u{48D}', '\u{48D}');
    push_range(v, '\u{48F}', '\u{48F}');
    push_range(v, '\u{491}', '\u{491}');
    push_range(v, '\u{493}', '\u{493}');
    push_range(v, '\u{495}', '\u{495}');
    push_range(v, '\u{497}', '\u{497}');
    assert(rview(v@) =~= o + changes_when_uppercased_chunk_25());
}

fn push_changes_when_uppercased_chunk_26(v: &mut Vec<ClassUnicodeRange>)
    ensures
        rview(final(v)@) == rview(old(v)@) + changes_when_uppercased_chunk_26(),
{
    let ghost o = rview(v@);
    push_range(v, '\u{499}', '\u{499}');
    push_range(v, '\u{49B}', '\u{49B}');
    push_range(v, '\u{49D}', '\u{49D}');
    push_range(v, '\u{49F}', '\u{49F}');
    push_range(v, '\u{4A1}', '\u{4A1}');
    push_range(v, '\u{4A3}', '\u{4A3}');
    push_range(v, '\u{4A5}', '\u{4A5}');
    push_range(v, '\u{4A7}', '\u{4A7}');
    assert(rview(v@) =~= o + changes_when_uppercased_chunk_26());
}

fn push_changes_when_uppercased_chunk_27(v: &mut Vec<ClassUnicodeRange>)
    ensures
        rview(final(v)@) == rview(old(v)@) + changes_when_uppercased_chunk_27(),
{
    let ghost o = rview(v@);
    push_range(v, '\u{4A9}', '\u{4A9}');
    push_range(v, '\u{4AB}', '\u{4AB}');
    push_range(v, '\u{4AD}', '\u{4AD}');
    push_range(v, '\u{4AF}', '\u{4AF}');
    push_range(v, '\u{4B1}', '\u{4B1}');
    push_range(v, '\u{4B3}', '\u{4B3}');
    push_range(v, '\u{4B5}', '\u{4B5}');
    push_range(v, '\u{4B7}', '\u{4B7}');
    assert(rview(v@) =~= o + changes_when_uppercased_chunk_27());
}

fn push_changes_when_uppercased_chunk_28(v: &mut Vec<ClassUnicodeRange>)
    ensures
        rview(final(v)@) == rview(old(v)@) + changes_when_uppercased_chunk_28(),
{
    let ghost o = rview(v@);
    push_range(v, '\u{4B9}', '\u{4B9}');
    push_range(v, '\u{4BB}', '\u{4BB}');
    push_range(v, '\u{4BD}', '\u{4BD}');
    push_range(v, '\u{4BF}', '\u{4BF}');
    push_range(v, '\u{4C2}', '\u{4C2}');
    push_range(v, '\u{4C4}', '\u{4C4}');
    push_range(v, '\u{4C6}', '\u{4C6}');
    push_range(v, '\u{4C8}', '\u{4C8}');
    assert(rview(v@) =~= o + changes_when_uppercased_chunk_28());
}

fn push_changes_when_uppercased_chunk_29(v: &mut Vec<ClassUnicodeRange>)
    ensures
        rview(final(v)@) == rview(old(v)@) + changes_when_uppercased_chunk_29(),
{
    let ghost o = rview(v@);
    push_range(v, '\u{4CA}', '\u{4CA}');
    push_range(v, '\u{4CC}', '\u{4CC}');
    push_range(v, '\u{4CE}', '\u{4CF}');
    push_range(v, '\u{4D1}', '\u{4D1}');
    push_range(v, '\u{4D3}', '\u{4D3}');
    push_range(v, '\u{4D5}', '\u{4D5}');
    push_range(v, '\u{4D7}', '\u{4D7}');
    push_range(v, '\u{4D9}', '\u{4D9}');
    assert(rview(v@) =~= o + changes_when_uppercased_chunk_29());
}

fn push_changes_when_uppercased_chunk_30(v: &mut Vec<ClassUnicodeRange>)
    ensures
        rview(final(v)@) == rview(old(v)@) + changes_when_uppercased_chunk_30(),
{
    let ghost o = rview(v@);
    push_range(v, '\u{4DB}', '\u{4DB}');
    push_range(v, '\u{4DD}', '\u{4DD}');
    push_range(v, '\u{4DF}', '\u{4DF}');
    push_range(v, '\u{4E1}', '\u{4E1}');
    push_range(v, '\u{4E3}', '\u{4E3}');
    push_range(v, '\u{4E5}', '\u{4E5}');
    push_range(v, '\u{4E7}', '\u{4E7}');
    push_range(v, '\u{4E9}', '\u{4E9}');
    assert(rview(v@) =~= o + changes_when_uppercased_chunk_30());
}

fn push_changes_when_uppercased_chunk_31(v: &mut Vec<ClassUnicodeRange>)
    ensures
        rview(final(v)@) == rview(old(v)@) + changes_when_uppercased_chunk_31(),
{
    let ghost o = rview(v@);
    push_range(v, '\u{4EB}', '\u{4EB}');
    push_range(v, '\u{4ED}', '\u{4ED}');
    push_range(v, '\u{4EF}', '\u{4EF}');
    push_range(v, '\u{4F1}', '\u{4F1}');
    push_range(v, '\u{4F3}', '\u{4F3}');
    push_range(v, '\u{4F5}', '\u{4F5}');
    push_range(v, '\u{4F7}', '\u{4F7}');
    push_range(v, '\u{4F9}', '\u{4F9}');
    assert(rview(v@) =~= o + changes_when_uppercased_chunk_31());
}

fn push_changes_when_uppercased_chunk_32(v: &mut Vec<ClassUnicodeRange>)
    ensures
        rview(final(v)@) == rview(old(v)@) + changes_when_uppercased_chunk_32(),
{
    let ghost o = rview(v@);
    push_range(v, '\u{4FB}', '\u{4FB}');
    push_range(v, '\u{4FD}', '\u{4FD}');
    push_range(v, '\u{4FF}', '\u{4FF}');
    push_range(v, '\u{501}', '\u{501}');
    push_range(v, '\u{503}', '\u{503}');
    push_range(v, '\u{505}', '\u{505}');
    push_range(v, '\u{507}', '\u{507}');
    push_range(v, '\u{509}', '\u{509}');
    assert(rview(v@) =~= o + changes_when_uppercased_chunk_32());
}

fn push_changes_when_uppercased_chunk_33(v: &mut Vec<ClassUnicodeRange>)
    ensures
        rview(final(v)@) == rview(old(v)@) + changes_when_uppercased_chunk_33(),
{
    let ghost o = rview(v@);
    push_range(v, '\u{50B}', '\u{50B}');
    push_range(v, '\u{50D}', '\u{50D}');
    push_range(v, '\u{50F}', '\u{50F}');
    push_range(v, '\u{511}', '\u{511}');
    push_range(v, '\u{513}', '\u{513}');
    push_range(v, '\u{515}', '\u{515}');
    push_range(v, '\u{517}', '\u{517}');
    push_range(v, '\u{519}', '\u{519}');
    assert(rview(v@) =~= o + changes_when_uppercased_chunk_33());
}

fn push_changes_when_uppercased_chunk_34(v: &mut Vec<ClassUnicodeRange>)
    ensures
        rview(final(v)@) == rview(old(v)@) + changes_when_uppercased_chunk_34(),
{
    let ghost o = rview(v@);
    push_range(v, '\u{51B}', '\u{51B}');
    push_range(v, '\u{51D}', '\u{51D}');
    push_range(v, '\u{51F}', '\u{51F}');
    push_range(v, '\u{521}', '\u{521}');
    push_range(v, '\u{523}', '\u{523}');
    push_range(v, '\u{525}', '\u{525}');
    push_range(v, '\u{527}', '\u{527}');
    push_range(v, '\u{529}', '\u{529}');
    assert(rview(v@) =~= o + changes_when_uppercased_chunk_34());
}

fn push_changes_when_uppercased_chunk_35(v: &mut Vec<ClassUnicodeRange>)
    ensures
        rview(final(v)@) == rview(old(v)@) + changes_when_uppercased_chunk_35(),
{
    let ghost o = rview(v@);
    push_range(v, '\u{52B}', '\u{52B}');
    push_range(v, '\u{52D}', '\u{52D}');
    push_range(v, '\u{52F}', '\u{52F}');
    push_range(v, '\u{561}', '\u{587}');
    push_range(v, '\u{10D0}', '\u{10FA}');
    push_range(v, '\u{10FD}', '\u{10FF}');
    push_range(v, '\u{13F8}', '\u{13FD}');
    push_range(v, '\u{1C80}', '\u{1C88}');
    assert(rview(v@) =~= o + changes_when_uppercased_chunk_35());
}

fn push_changes_when_uppercased_chunk_36(v: &mut Vec<ClassUnicodeRange>)
    ensures
        rview(final(v)@) == rview(old(v)@) + changes_when_uppercased_chunk_36(),
{
    let ghost o = rview(v@);
    push_range(v, '\u{1C8A}', '\u{1C8A}');
    push_range(v, '\u{1D79}', '\u{1D79}');
    push_range(v, '\u{1D7D}', '\u{1D7D}');
    push_range(v, '\u{1D8E}', '\u{1D8E}');
    push_range(v, '\u{1E01}', '\u{1E01}');
    push_range(v, '\u{1E03}', '\u{1E03}');
    push_range(v, '\u{1E05}', '\u{1E05}');
    push_range(v, '\u{1E07}', '\u{1E07}');
    assert(rview(v@) =~= o + changes_when_uppercased_chunk_36());
}

fn push_changes_when_uppercased_chunk_37(v: &mut Vec<ClassUnicodeRange>)
    ensures
        rview(final(v)@) == rview(old(v)@) + changes_when_uppercased_chunk_37(),
{
    let ghost o = rview(v@);
    push_range(v, '\u{1E09}', '\u{1E09}');
    push_range(v, '\u{1E0B}', '\u{1E0B}');
    push_range(v, '\u{1E0D}', '\u{1E0D}');
    push_range(v, '\u{1E0F}', '\u{1E0F}');
    push_range(v, '\u{1E11}', '\u{1E11}');
    push_range(v, '\u{1E13}', '\u{1E13}');
    push_range(v, '\u{1E15}', '\u{1E15}');
    push_range(v, '\u{1E17}', '\u{1E17}');
    assert(rview(v@) =~= o + changes_when_uppercased_chunk_37());
}

fn push_changes_when_uppercased_chunk_38(v: &mut Vec<ClassUnicodeRange>)
    ensures
        rview(final(v)@) == rview(old(v)@) + changes_when_uppercased_chunk_38(),
{
    let ghost o = rview(v@);
    push_range(v, '\u{1E19}', '\u{1E19}');
    push_range(v, '\u{1E1B}', '\u{1E1B}');
    push_range(v, '\u{1E1D}', '\u{1E1D}');
    push_range(v, '\u{1E1F}', '\u{1E1F}');
    push_range(v, '\u{1E21}', '\u{1E21}');
    push_range(v, '\u{1E23}', '\u{1E23}');
    push_range(v, '\u{1E25}', '\u{1E25}');
    push_range(v, '\u{1E27}', '\u{1E27}');
    assert(rview(v@) =~= o + changes_when_uppercased_chunk_38());
}

fn push_changes_when_uppercased_chunk_39(v: &mut Vec<ClassUnicodeRange>)
    ensures
        rview(final(v)@) == rview(old(v)@) + changes_when_uppercased_chunk_39(),
{
    let ghost o = rview(v@);
    push_range(v, '\u{1E29}', '\u{1E29}');
    push_range(v, '\u{1E2B}', '\u{1E2B}');
    push_range(v, '\u{1E2D}', '\u{1E2D}');
    push_range(v, '\u{1E2F}', '\u{1E2F}');
    push_range(v, '\u{1E31}', '\u{1E31}');
    push_range(v, '\u{1E33}', '\u{1E33}');
    push_range(v, '\u{1E35}', '\u{1E35}');
    push_range(v, '\u{1E37}', '\u{1E37}');
    assert(rview(v@) =~= o + changes_when_uppercased_chunk_39());
}

fn push_changes_when_uppercased_chunk_40(v: &mut Vec<ClassUnicodeRange>)
    ensures
        rview(final(v)@) == rview(old(v)@) + changes_when_uppercased_chunk_40(),
{
    let ghost o = rview(v@);
    push_range(v, '\u{1E39}', '\u{1E39}');
    push_range(v, '\u{1E3B}', '\u{1E3B}');
    push_range(v, '\u{1E3D}', '\u{1E3D}');
    push_range(v, '\u{1E3F}', '\u{1E3F}');
    push_range(v, '\u{1E41}', '\u{1E41}');
    push_range(v, '\u{1E43}', '\u{1E43}');
    push_range(v, '\u{1E45}', '\u{1E45}');
    push_range(v, '\u{1E47}', '\u{1E47}');
    assert(rview(v@) =~= o + changes_when_uppercased_chunk_40());
}

fn push_changes_when_uppercased_chunk_41(v: &mut Vec<ClassUnicodeRange>)
    ensures
        rview(final(v)@) == rview(old(v)@) + changes_when_uppercased_chunk_41(),
{
    let ghost o = rview(v@);
    push_range(v, '\u{1E49}', '\u{1E49}');
    push_range(v, '\u{1E4B}', '\u{1E4B}');
    push_range(v, '\u{1E4D}', '\u{1E4D}');
    push_range(v, '\u{1E4F}', '\u{1E4F}');
    push_range(v, '\u{1E51}', '\u{1E51}');
    push_range(v, '\u{1E53}', '\u{1E53}');
    push_range(v, '\u{1E55}', '\u{1E55}');
    push_range(v, '\u{1E57}', '\u{1E57}');
    assert(rview(v@) =~= o + changes_when_uppercased_chunk_41());
}

fn push_changes_when_uppercased_chunk_42(v: &mut Vec<ClassUnicodeRange>)
    ensures
        rview(final(v)@) == rview(old(v)@) + changes_when_uppercased_chunk_42(),
{
    let ghost o = rview(v@);
    push_range(v, '\u{1E59}', '\u{1E59}');
    push_range(v, '\u{1E5B}', '\u{1E5B}');
    push_range(v, '\u{1E5D}', '\u{1E5D}');
    push_range(v, '\u{1E5F}', '\u{1E5F}');
    push_range(v, '\u{1E61}', '\u{1E61}');
    push_range(v, '\u{1E63}', '\u{1E63}');
    push_range(v, '\u{1E65}', '\u{1E65}');
    push_range(v, '\u{1E67}', '\u{1E67}');
    assert(rview(v@) =~= o + changes_when_uppercased_chunk_42());
}

fn push_changes_when_uppercased_chunk_43(v: &mut Vec<ClassUnicodeRange>)
    ensures
        rview(final(v)@) == rview(old(v)@) + changes_when_uppercased_chunk_43(),
{
    let ghost o = rview(v@);
    push_range(v, '\u{1E69}', '\u{1E69}');
    push_range(v, '\u{1E6B}', '\u{1E6B}');
    push_range(v, '\u{1E6D}', '\u{1E6D}');
    push_range(v, '\u{1E6F}', '\u{1E6F}');
    push_range(v, '\u{1E71}', '\u{1E71}');
    push_range(v, '\u{1E73}', '\u{1E73}');
    push_range(v, '\u{1E75}', '\u{1E75}');
    push_range(v, '\u{1E77}', '\u{1E77}');
    assert(rview(v@) =~= o + changes_when_uppercased_chunk_43());
}

fn push_changes_when_uppercased_chunk_44(v: &mut Vec<ClassUnicodeRange>)
    ensures
        rview(final(v)@) == rview(old(v)@) + changes_when_uppercased_chunk_44(),
{
    let ghost o = rview(v@);
    push_range(v, '\u{1E79}', '\u{1E79}');
    push_range(v, '\u{1E7B}', '\u{1E7B}');
    push_range(v, '\u{1E7D}', '\u{1E7D}');
    push_range(v, '\u{1E7F}', '\u{1E7F}');
    push_range(v, '\u{1E81}', '\u{1E81}');
    push_range(v, '\u{1E83}', '\u{1E83}');
    push_range(v, '\u{1E85}', '\u{1E85}');
    push_range(v, '\u{1E87}', '\u{1E87}');
    assert(rview(v@) =~= o + changes_when_uppercased_chunk_44());
}

fn push_changes_when_uppercased_chunk_45(v: &mut Vec<ClassUnicodeRange>)
    ensures
        rview(final(v)@) == rview(old(v)@) + changes_when_uppercased_chunk_45(),
{
    let ghost o = rview(v@);
    push_range(v, '\u{1E89}', '\u{1E89}');
    push_range(v, '\u{1E8B}', '\u{1E8B}');
    push_range(v, '\u{1E8D}', '\u{1E8D}');
    push_range(v, '\u{1E8F}', '\u{1E8F}');
    push_range(v, '\u{1E91}', '\u{1E91}');
    push_range(v, '\u{1E93}', '\u{1E93}');
    push_range(v, '\u{1E95}', '\u{1E9B}');
    push_range(v, '\u{1EA1}', '\u{1EA1}');
    assert(rview(v@) =~= o + changes_when_uppercased_chunk_45());
}

fn push_changes_when_uppercased_chunk_46(v: &mut Vec<ClassUnicodeRange>)
    ensures
        rview(final(v)@) == rview(old(v)@) + changes_when_uppercased_chunk_46(),
{
    let ghost o = rview(v@);
    push_range(v, '\u{1EA3}', '\u{1EA3}');
    push_range(v, '\u{1EA5}', '\u{1EA5}');
    push_range(v, '\u{1EA7}', '\u{1EA7}');
    push_range(v, '\u{1EA9}', '\u{1EA9}');
    push_range(v, '\u{1EAB}', '\u{1EAB}');
    push_range(v, '\u{1EAD}', '\u{1EAD}');
    push_range(v, '\u{1EAF}', '\u{1EAF}');
    push_range(v, '\u{1EB1}', '\u{1EB1}');
    assert(rview(v@) =~= o + changes_when_uppercased_chunk_46());
}

fn push_changes_when_uppercased_chunk_47(v: &mut Vec<ClassUnicodeRange>)
    ensures
        rview(final(v)@) == rview(old(v)@) + changes_when_uppercased_chunk_47(),
{
    let ghost o = rview(v@);
    push_range(v, '\u{1EB3}', '\u{1EB3}');
    push_range(v, '\u{1EB5}', '\u{1EB5}');
    push_range(v, '\u{1EB7}', '\u{1EB7}');
    push_range(v, '\u{1EB9}', '\u{1EB9}');
    push_range(v, '\u{1EBB}', '\u{1EBB}');
    push_range(v, '\u{1EBD}', '\u{1EBD}');
    push_range(v, '\u{1EBF}', '\u{1EBF}');
    push_range(v, '\u{1EC1}', '\u{1EC1}');
    assert(rview(v@) =~= o + changes_when_uppercased_chunk_47());
}

fn push_changes_when_uppercased_chunk_48(v: &mut Vec<ClassUnicodeRange>)
    ensures
        rview(final(v)@) == rview(old(v)@) + changes_when_uppercased_chunk_48(),
{
    let ghost o = rview(v@);
    push_range(v, '\u{1EC3}', '\u{1EC3}');
    push_range(v, '\u{1EC5}', '\u{1EC5}');
    push_range(v, '\u{1EC7}', '\u{1EC7}');
    push_range(v, '\u{1EC9}', '\u{1EC9}');
    push_range(v, '\u{1ECB}', '\u{1ECB}');
    push_range(v, '\u{1ECD}', '\u{1ECD}');
    push_range(v, '\u{1ECF}', '\u{1ECF}');
    push_range(v, '\u{1ED1}', '\u{1ED1}');
    assert(rview(v@) =~= o + changes_when_uppercased_chunk_48());
}

fn push_changes_when_uppercased_chunk_49(v: &mut Vec<ClassUnicodeRange>)
    ensures
        rview(final(v)@) == rview(old(v)@) + changes_when_uppercased_chunk_49(),
{
    let ghost o = rview(v@);
    push_range(v, '\u{1ED3}', '\u{1ED3}');
    push_range(v, '\u{1ED5}', '\u{1ED5}');
    push_range(v, '\u{1ED7}', '\u{1ED7}');
    push_range(v, '\u{1ED9}', '\u{1ED9}');
    push_range(v, '\u{1EDB}', '\u{1EDB}');
    push_range(v, '\u{1EDD}', '\u{1EDD}');
    push_range(v, '\u{1EDF}', '\u{1EDF}');
    push_range(v, '\u{1EE1}', '\u{1EE1}');
    assert(rview(v@) =~= o + changes_when_uppercased_chunk_49());
}

fn push_changes_when_uppercased_chunk_50(v: &mut Vec<ClassUnicodeRange>)
    ensures
        rview(final(v)@) == rview(old(v)@) + changes_when_uppercased_chunk_50(),
{
    let ghost o = rview(v@);
    push_range(v, '\u{1EE3}', '\u{1EE3}');
    push_range(v, '\u{1EE5}', '\u{1EE5}');
    push_range(v, '\u{1EE7}', '\u{1EE7}');
    push_range(v, '\u{1EE9}', '\u{1EE9}');
    push_range(v, '\u{1EEB}', '\u{1EEB}');
    push_range(v, '\u{1EED}', '\u{1EED}');
    push_range(v, '\u{1EEF}', '\u{1EEF}');
    push_range(v, '\u{1EF1}', '\u{1EF1}');
    assert(rview(v@) =~= o + changes_when_uppercased_chunk_50());
}

fn push_changes_when_uppercased_chunk_51(v: &mut Vec<ClassUnicodeRange>)
    ensures
        rview(final(v)@) == rview(old(v)@) + changes_when_uppercased_chunk_51(),
{
    let ghost o = rview(v@);
    push_range(v, '\u{1EF3}', '\u{1EF3}');
    push_range(v, '\u{1EF5}', '\u{1EF5}');
    push_range(v, '\u{1EF7}', '\u{1EF7}');
    push_range(v, '\u{1EF9}', '\u{1EF9}');
    push_range(v, '\u{1EFB}', '\u{1EFB}');
    push_range(v, '\u{1EFD}', '\u{1EFD}');
    push_range(v, '\u{1EFF}', '\u{1F07}');
    push_range(v, '\u{1F10}', '\u{1F15}');
    assert(rview(v@) =~= o + changes_when_uppercased_chunk_51());
}

fn push_changes_when_uppercased_chunk_52(v: &mut Vec<ClassUnicodeRange>)
    ensures
        rview(final(v)@) == rview(old(v)@) + changes_when_uppercased_chunk_52(),
{
    let ghost o = rview(v@);
    push_range(v, '\u{1F20}', '\u{1F27}');
    push_range(v, '\u{1F30}', '\u{1F37}');
    push_range(v, '\u{1F40}', '\u{1F45}');
    push_range(v, '\u{1F50}', '\u{1F57}');
    push_range(v, '\u{1F60}', '\u{1F67}');
    push_range(v, '\u{1F70}', '\u{1F7D}');
    push_range(v, '\u{1F80}', '\u{1FB4}');
    push_range(v, '\u{1FB6}', '\u{1FB7}');
    assert(rview(v@) =~= o + changes_when_uppercased_chunk_52());
}

fn push_changes_when_uppercased_chunk_53(v: &mut Vec<ClassUnicodeRange>)
    ensures
        rview(final(v)@) == rview(old(v)@) + changes_when_uppercased_chunk_53(),
{
    let ghost o = rview(v@);
    push_range(v, '\u{1FBC}', '\u{1FBC}');
    push_range(v, '\u{1FBE}', '\u{1FBE}');
    push_range(v, '\u{1FC2}', '\u{1FC4}');
    push_range(v, '\u{1FC6}', '\u{1FC7}');
    push_range(v, '\u{1FCC}', '\u{1FCC}');
    push_range(v, '\u{1FD0}', '\u{1FD3}');
    push_range(v, '\u{1FD6}', '\u{1FD7}');
    push_range(v, '\u{1FE0}', '\u{1FE7}');
    assert(rview(v@) =~= o + changes_when_uppercased_chunk_53());
}

fn push_changes_when_uppercased_chunk_54(v: &mut Vec<ClassUnicodeRange>)
    ensures
        rview(final(v)@) == rview(old(v)@) + changes_when_uppercased_chunk_54(),
{
    let ghost o = rview(v@);
    push_range(v, '\u{1FF2}', '\u{1FF4}');
    push_range(v, '\u{1FF6}', '\u{1FF7}');
    push_range(v, '\u{1FFC}', '\u{1FFC}');
    push_range(v, '\u{214E}', '\u{214E}');
    push_range(v, '\u{2170}', '\u{217F}');
    push_range(v, '\u{2184}', '\u{2184}');
    push_range(v, '\u{24D0}', '\u{24E9}');
    push_range(v, '\u{2C30}', '\u{2C5F}');
    assert(rview(v@) =~= o + changes_when_uppercased_chunk_54());
}

fn push_changes_when_uppercased_chunk_55(v: &mut Vec<ClassUnicodeRange>)
    ensures
        rview(final(v)@) == rview(old(v)@) + changes_when_uppercased_chunk_55(),
{
    let ghost o = rview(v@);
    push_range(v, '\u{2C61}', '\u{2C61}');
    push_range(v, '\u{2C65}', '\u{2C66}');
    push_range(v, '\u{2C68}', '\u{2C68}');
    push_range(v, '\u{2C6A}', '\u{2C6A}');
    push_range(v, '\u{2C6C}', '\u{2C6C}');
    push_range(v, '\u{2C73}', '\u{2C73}');
    push_range(v, '\u{2C76}', '\u{2C76}');
    push_range(v, '\u{2C81}', '\u{2C81}');
    assert(rview(v@) =~= o + changes_when_uppercased_chunk_55());
}

fn push_changes_when_uppercased_chunk_56(v: &mut Vec<ClassUnicodeRange>)
    ensures
        rview(final(v)@) == rview(old(v)@) + changes_when_uppercased_chunk_56(),
{
    let ghost o = rview(v@);
    push_range(v, '\u{2C83}', '\u{2C83}');
    push_range(v, '\u{2C85}', '\u{2C85}');
    push_range(v, '\u{2C87}', '\u{2C87}');
    push_range(v, '\u{2C89}', '\u{2C89}');
    push_range(v, '\u{2C8B}', '\u{2C8B}');
    push_range(v, '\u{2C8D}', '\u{2C8D}');
    push_range(v, '\u{2C8F}', '\u{2C8F}');
    push_range(v, '\u{2C91}', '\u{2C91}');
    assert(rview(v@) =~= o + changes_when_uppercased_chunk_56());
}

fn push_changes_when_uppercased_chunk_57(v: &mut Vec<ClassUnicodeRange>)
    ensures
        rview(final(v)@) == rview(old(v)@) + changes_when_uppercased_chunk_57(),
{
    let ghost o = rview(v@);
    push_range(v, '\u{2C93}', '\u{2C93}');
    push_range(v, '\u{2C95}', '\u{2C95}');
    push_range(v, '\u{2C97}', '\u{2C97}');
    push_range(v, '\u{2C99}', '\u{2C99}');
    push_range(v, '\u{2C9B}', '\u{2C9B}');
    push_range(v, '\u{2C9D}', '\u{2C9D}');
    push_range(v, '\u{2C9F}', '\u{2C9F}');
    push_range(v, '\u{2CA1}', '\u{2CA1}');
    assert(rview(v@) =~= o + changes_when_uppercased_chunk_57());
}

fn push_changes_when_uppercased_chunk_58(v: &mut Vec<ClassUnicodeRange>)
    ensures
        rview(final(v)@) == rview(old(v)@) + changes_when_uppercased_chunk_58(),
{
    let ghost o = rview(v@);
    push_range(v, '\u{2CA3}', '\u{2CA3}');
    push_range(v, '\u{2CA5}', '\u{2CA5}');
    push_range(v, '\u{2CA7}', '\u{2CA7}');
    push_range(v, '\u{2CA9}', '\u{2CA9}');
    push_range(v, '\u{2CAB}', '\u{2CAB}');
    push_range(v, '\u{2CAD}', '\u{2CAD}');
    push_range(v, '\u{2CAF}', '\u{2CAF}');
    push_range(v, '\u{2CB1}', '\u{2CB1}');
    assert(rview(v@) =~= o + changes_when_uppercased_chunk_58());
}

fn push_changes_when_uppercased_chunk_59(v: &mut Vec<ClassUnicodeRange>)
    ensures
        rview(final(v)@) == rview(old(v)@) + changes_when_uppercased_chunk_59(),
{
    let ghost o = rview(v@);
    push_range(v, '\u{2CB3}', '\u{2CB3}');
    push_range(v, '\u{2CB5}', '\u{2CB5}');
    push_range(v, '\u{2CB7}', '\u{2CB7}');
    push_range(v, '\u{2CB9}', '\u{2CB9}');
    push_range(v, '\u{2CBB}', '\u{2CBB}');
    push_range(v, '\u{2CBD}', '\u{2CBD}');
    push_range(v, '\u{2CBF}', '\u{2CBF}');
    push_range(v, '\u{2CC1}', '\u{2CC1}');
    assert(rview(v@) =~= o + changes_when_uppercased_chunk_59());
}

fn push_changes_when_uppercased_chunk_60(v: &mut Vec<ClassUnicodeRange>)
    ensures
        rview(final(v)@) == rview(old(v)@) + changes_when_uppercased_chunk_60(),
{
    let ghost o = rview(v@);
    push_range(v, '\u{2CC3}', '\u{2CC3}');
    push_range(v, '\u{2CC5}', '\u{2CC5}');
    push_range(v, '\u{2CC7}', '\u{2CC7}');
    push_range(v, '\u{2CC9}', '\u{2CC9}');
    push_range(v, '\u{2CCB}', '\u{2CCB}');
    push_range(v, '\u{2CCD}', '\u{2CCD}');
    push_range(v, '\u{2CCF}', '\u{2CCF}');
    push_range(v, '\u{2CD1}', '\u{2CD1}');
    assert(rview(v@) =~= o + changes_when_uppercased_chunk_60());
}

fn push_changes_when_uppercased_chunk_61(v: &mut Vec<ClassUnicodeRange>)
    ensures
        rview(final(v)@) == rview(old(v)@) + changes_when_uppercased_chunk_61(),
{
    let ghost o = rview(v@);
    push_range(v, '\u{2CD3}', '\u{2CD3}');
    push_range(v, '\u{2CD5}', '\u{2CD5}');
    push_range(v, '\u{2CD7}', '\u{2CD7}');
    push_range(v, '\u{2CD9}', '\u{2CD9}');
    push_range(v, '\u{2CDB}', '\u{2CDB}');
    push_range(v, '\u{2CDD}', '\u{2CDD}');
    push_range(v, '\u{2CDF}', '\u{2CDF}');
    push_range(v, '\u{2CE1}', '\u{2CE1}');
    assert(rview(v@) =~= o + changes_when_uppercased_chunk_61());
}

fn push_changes_when_uppercased_chunk_62(v: &mut Vec<ClassUnicodeRange>)
    ensures
        rview(final(v)@) == rview(old(v)@) + changes_when_uppercased_chunk_62(),
{
    let ghost o = rview(v@);
    push_range(v, '\u{2CE3}', '\u{2CE3}');
    push_range(v, '\u{2CEC}', '\u{2CEC}');
    push_range(v, '\u{2CEE}', '\u{2CEE}');
    push_range(v, '\u{2CF3}', '\u{2CF3}');
    push_range(v, '\u{2D00}', '\u{2D25}');
    push_range(v, '\u{2D27}', '\u{2D27}');
    push_range(v, '\u{2D2D}', '\u{2D2D}');
    push_range(v, '\u{A641}', '\u{A641}');
    assert(rview(v@) =~= o + changes_when_uppercased_chunk_62());
}

fn push_changes_when_uppercased_chunk_63(v: &mut Vec<ClassUnicodeRange>)
    ensures
        rview(final(v)@) == rview(old(v)@) + changes_when_uppercased_chunk_63(),
{
    let ghost o = rview(v@);
    push_range(v, '\u{A643}', '\u{A643}');
    push_range(v, '\u{A645}', '\u{A645}');
    push_range(v, '\u{A647}', '\u{A647}');
    push_range(v, '\u{A649}', '\u{A649}');
    push_range(v, '\u{A64B}', '\u{A64B}');
    push_range(v, '\u{A64D}', '\u{A64D}');
    push_range(v, '\u{A64F}', '\u{A64F}');
    push_range(v, '\u{A651}', '\u{A651}');
    assert(rview(v@) =~= o + changes_when_uppercased_chunk_63());
}

fn push_changes_when_uppercased_chunk_64(v: &mut Vec<ClassUnicodeRange>)
    ensures
        rview(final(v)@) == rview(old(v)@) + changes_when_uppercased_chunk_64(),
{
    let ghost o = rview(v@);
    push_range(v, '\u{A653}', '\u{A653}');
    push_range(v, '\u{A655}', '\u{A655}');
    push_range(v, '\u{A657}', '\u{A657}');
    push_range(v, '\u{A659}', '\u{A659}');
    push_range(v, '\u{A65B}', '\u{A65B}');
    push_range(v, '\u{A65D}', '\u{A65D}');
    push_range(v, '\u{A65F}', '\u{A65F}');
    push_range(v, '\u{A661}', '\u{A661}');
    assert(rview(v@) =~= o + changes_when_uppercased_chunk_64());
}

fn push_changes_when_uppercased_chunk_65(v: &mut Vec<ClassUnicodeRange>)
    ensures
        rview(final(v)@) == rview(old(v)@) + changes_when_uppercased_chunk_65(),
{
    let ghost o = rview(v@);
    push_range(v, '\u{A663}', '\u{A663}');
    push_range(v, '\u{A665}', '\u{A665}');
    push_range(v, '\u{A667}', '\u{A667}');
    push_range(v, '\u{A669}', '\u{A669}');
    push_range(v, '\u{A66B}', '\u{A66B}');
    push_range(v, '\u{A66D}', '\u{A66D}');
    push_range(v, '\u{A681}', '\u{A681}');
    push_range(v, '\u{A683}', '\u{A683}');
    assert(rview(v@) =~= o + changes_when_uppercased_chunk_65());
}

fn push_changes_when_uppercased_chunk_66(v: &mut Vec<ClassUnicodeRange>)
    ensures
        rview(final(v)@) == rview(old(v)@) + changes_when_uppercased_chunk_66(),
{
    let ghost o = rview(v@);
    push_range(v, '\u{A685}', '\u{A685}');
    push_range(v, '\u{A687}', '\u{A687}');
    push_range(v, '\u{A689}', '\u{A689}');
    push_range(v, '\u{A68B}', '\u{A68B}');
    push_range(v, '\u{A68D}', '\u{A68D}');
    push_range(v, '\u{A68F}', '\u{A68F}');
    push_range(v, '\u{A691}', '\u{A691}');
    push_range(v, '\u{A693}', '\u{A693}');
    assert(rview(v@) =~= o + changes_when_uppercased_chunk_66());
}

fn push_changes_when_uppercased_chunk_67(v: &mut Vec<ClassUnicodeRange>)
    ensures
        rview(final(v)@) == rview(old(v)@) + changes_when_uppercased_chunk_67(),
{
    let ghost o = rview(v@);
    push_range(v, '\u{A695}', '\u{A695}');
    push_range(v, '\u{A697}', '\u{A697}');
    push_range(v, '\u{A699}', '\u{A699}');
    push_range(v, '\u{A69B}', '\u{A69B}');
    push_range(v, '\u{A723}', '\u{A723}');
    push_range(v, '\u{A725}', '\u{A725}');
    push_range(v, '\u{A727}', '\u{A727}');
    push_range(v, '\u{A729}', '\u{A729}');
    assert(rview(v@) =~= o + changes_when_uppercased_chunk_67());
}

fn push_changes_when_uppercased_chunk_68(v: &mut Vec<ClassUnicodeRange>)
    ensures
        rview(final(v)@) == rview(old(v)@) + changes_when_uppercased_chunk_68(),
{
    let ghost o = rview(v@);
    push_range(v, '\u{A72B}', '\u{A72B}');
    push_range(v, '\u{A72D}', '\u{A72D}');
    push_range(v, '\u{A72F}', '\u{A72F}');
    push_range(v, '\u{A733}', '\u{A733}');
    push_range(v, '\u{A735}', '\u{A735}');
    push_range(v, '\u{A737}', '\u{A737}');
    push_range(v, '\u{A739}', '\u{A739}');
    push_range(v, '\u{A73B}', '\u{A73B}');
    assert(rview(v@) =~= o + changes_when_uppercased_chunk_68());
}

fn push_changes_when_uppercased_chunk_69(v: &mut Vec<ClassUnicodeRange>)
    ensures
        rview(final(v)@) == rview(old(v)@) + changes_when_uppercased_chunk_69(),
{
    let ghost o = rview(v@);
    push_range(v, '\u{A73D}', '\u{A73D}');
    push_range(v, '\u{A73F}', '\u{A73F}');
    push_range(v, '\u{A741}', '\u{A741}');
    push_range(v, '\u{A743}', '\u{A743}');
    push_range(v, '\u{A745}', '\u{A745}');
    push_range(v, '\u{A747}', '\u{A747}');
    push_range(v, '\u{A749}', '\u{A749}');
    push_range(v, '\u{A74B}', '\u{A74B}');
    assert(rview(v@) =~= o + changes_when_uppercased_chunk_69());
}

fn push_changes_when_uppercased_chunk_70(v: &mut Vec<ClassUnicodeRange>)
    ensures
        rview(final(v)@) == rview(old(v)@) + changes_when_uppercased_chunk_70(),
{
    let ghost o = rview(v@);
    push_range(v, '\u{A74D}', '\u{A74D}');
    push_range(v, '\u{A74F}', '\u{A74F}');
    push_range(v, '\u{A751}', '\u{A751}');
    push_range(v, '\u{A753}', '\u{A753}');
    push_range(v, '\u{A755}', '\u{A755}');
    push_range(v, '\u{A757}', '\u{A757}');
    push_range(v, '\u{A759}', '\u{A759}');
    push_range(v, '\u{A75B}', '\u{A75B}');
    assert(rview(v@) =~= o + changes_when_uppercased_chunk_70());
}

fn push_changes_when_uppercased_chunk_71(v: &mut Vec<ClassUnicodeRange>)
    ensures
        rview(final(v)@) == rview(old(v)@) + changes_when_uppercased_chunk_71(),
{
    let ghost o = rview(v@);
    push_range(v, '\u{A75D}', '\u{A75D}');
    push_range(v, '\u{A75F}', '\u{A75F}');
    push_range(v, '\u{A761}', '\u{A761}');
    push_range(v, '\u{A763}', '\u{A763}');
    push_range(v, '\u{A765}', '\u{A765}');
    push_range(v, '\u{A767}', '\u{A767}');
    push_range(v, '\u{A769}', '\u{A769}');
    push_range(v, '\u{A76B}', '\u{A76B}');
    assert(rview(v@) =~= o + changes_when_uppercased_chunk_71());
}

fn push_changes_when_uppercased_chunk_72(v: &mut Vec<ClassUnicodeRange>)
    ensures
        rview(final(v)@) == rview(old(v)@) + changes_when_uppercased_chunk_72(),
{
    let ghost o = rview(v@);
    push_range(v, '\u{A76D}', '\u{A76D}');
    push_range(v, '\u{A76F}', '\u{A76F}');
    push_range(v, '\u{A77A}', '\u{A77A}');
    push_range(v, '\u{A77C}', '\u{A77C}');
    push_range(v, '\u{A77F}', '\u{A77F}');
    push_range(v, '\u{A781}', '\u{A781}');
    push_range(v, '\u{A783}', '\u{A783}');
    push_range(v, '\u{A785}', '\u{A785}');
    assert(rview(v@) =~= o + changes_when_uppercased_chunk_72());
}

fn push_changes_when_uppercased_chunk_73(v: &mut Vec<ClassUnicodeRange>)
    ensures
        rview(final(v)@) == rview(old(v)@) + changes_when_uppercased_chunk_73(),
{
    let ghost o = rview(v@);
    push_range(v, '\u{A787}', '\u{A787}');
    push_range(v, '\u{A78C}', '\u{A78C}');
    push_range(v, '\u{A791}', '\u{A791}');
    push_range(v, '\u{A793}', '\u{A794}');
    push_range(v, '\u{A797}', '\u{A797}');
    push_range(v, '\u{A799}', '\u{A799}');
    push_range(v, '\u{A79B}', '\u{A79B}');
    push_range(v, '\u{A79D}', '\u{A79D}');
    assert(rview(v@) =~= o + changes_when_uppercased_chunk_73());
}

fn push_changes_when_uppercased_chunk_74(v: &mut Vec<ClassUnicodeRange>)
    ensures
        rview(final(v)@) == rview(old(v)@) + changes_when_uppercased_chunk_74(),
{
    let ghost o = rview(v@);
    push_range(v, '\u{A79F}', '\u{A79F}');
    push_range(v, '\u{A7A1}', '\u{A7A1}');
    push_range(v, '\u{A7A3}', '\u{A7A3}');
    push_range(v, '\u{A7A5}', '\u{A7A5}');
    push_range(v, '\u{A7A7}', '\u{A7A7}');
    push_range(v, '\u{A7A9}', '\u{A7A9}');
    push_range(v, '\u{A7B5}', '\u{A7B5}');
    push_range(v, '\u{A7B7}', '\u{A7B7}');
    assert(rview(v@) =~= o + changes_when_uppercased_chunk_74());
}

fn push_changes_when_uppercased_chunk_75(v: &mut Vec<ClassUnicodeRange>)
    ensures
        rview(final(v)@) == rview(old(v)@) + changes_when_uppercased_chunk_75(),
{
    let ghost o = rview(v@);
    push_range(v, '\u{A7B9}', '\u{A7B9}');
    push_range(v, '\u{A7BB}', '\u{A7BB}');
    push_range(v, '\u{A7BD}', '\u{A7BD}');
    push_range(v, '\u{A7BF}', '\u{A7BF}');
    push_range(v, '\u{A7C1}', '\u{A7C1}');
    push_range(v, '\u{A7C3}', '\u{A7C3}');
    push_range(v, '\u{A7C8}', '\u{A7C8}');
    push_range(v, '\u{A7CA}', '\u{A7CA}');
    assert(rview(v@) =~= o + changes_when_uppercased_chunk_75());
}

fn push_changes_when_uppercased_chunk_76(v: &mut Vec<ClassUnicodeRange>)
    ensures
        rview(final(v)@) == rview(old(v)@) + changes_when_uppercased_chunk_76(),
{
    let ghost o = rview(v@);
    push_range(v, '\u{A7CD}', '\u{A7CD}');
    push_range(v, '\u{A7D1}', '\u{A7D1}');
    push_range(v, '\u{A7D7}', '\u{A7D7}');
    push_range(v, '\u{A7D9}', '\u{A7D9}');
    push_range(v, '\u{A7DB}', '\u{A7DB}');
    push_range(v, '\u{A7F6}', '\u{A7F6}');
    push_range(v, '\u{AB53}', '\u{AB53}');
    push_range(v, '\u{AB70}', '\u{ABBF}');
    assert(rview(v@) =~= o + changes_when_uppercased_chunk_76());
}

fn push_changes_when_uppercased_chunk_77(v: &mut Vec<ClassUnicodeRange>)
    ensures
        rview(final(v)@) == rview(old(v)@) + changes_when_uppercased_chunk_77(),
{
    let ghost o = rview(v@);
    push_range(v, '\u{FB00}', '\u{FB06}');
    push_range(v, '\u{FB13}', '\u{FB17}');
    push_range(v, '\u{FF41}', '\u{FF5A}');
    push_range(v, '\u{10428}', '\u{1044F}');
    push_range(v, '\u{104D8}', '\u{104FB}');
    push_range(v, '\u{10597}', '\u{105A1}');
    push_range(v, '\u{105A3}', '\u{105B1}');
    push_range(v, '\u{105B3}', '\u{105B9}');
    assert(rview(v@) =~= o + changes_when_uppercased_chunk_77());
}

fn push_changes_when_uppercased_chunk_78(v: &mut Vec<ClassUnicodeRange>)
    ensures
        rview(final(v)@) == rview(old(v)@) + changes_when_uppercased_chunk_78(),
{
    let ghost o = rview(v@);
    push_range(v, '\u{105BB}', '\u{105BC}');
    push_range(v, '\u{10CC0}', '\u{10CF2}');
    push_range(v, '\u{10D70}', '\u{10D85}');
    push_range(v, '\u{118C0}', '\u{118DF}');
    push_range(v, '\u{16E60}', '\u{16E7F}');
    push_range(v, '\u{1E922}', '\u{1E943}');
    assert(rview(v@) =~= o + changes_when_uppercased_chunk_78());
}

fn push_changes_when_uppercased_block_0(v: &mut Vec<ClassUnicodeRange>)
    ensures
        rview(final(v)@) == rview(old(v)@) + changes_when_uppercased_block_0(),
{
    let ghost o = rview(v@);
    push_changes_when_uppercased_chunk_0(v);
    assert(rview(v@) =~= o + (changes_when_uppercased_chunk_0()));
    push_changes_when_uppercased_chunk_1(v);
    assert(rview(v@) =~= o + (changes_when_uppercased_chunk_0() + changes_when_uppercased_chunk_1()));
    push_changes_when_uppercased_chunk_2(v);
    assert(rview(v@) =~= o + (changes_when_uppercased_chunk_0() + changes_when_uppercased_chunk_1() + changes_when_uppercased_chunk_2()));
    push_changes_when_uppercased_chunk_3(v);
    assert(rview(v@) =~= o + (changes_when_uppercased_chunk_0() + changes_when_uppercased_chunk_1() + changes_when_uppercased_chunk_2() + changes_when_uppercased_chunk_3()));
    push_changes_when_uppercased_chunk_4(v);
    assert(rview(v@) =~= o + (changes_when_uppercased_chunk_0() + changes_when_uppercased_chunk_1() + changes_when_uppercased_chunk_2() + changes_when_uppercased_chunk_3() + changes_when_uppercased_chunk_4()));
    push_changes_when_uppercased_chunk_5(v);
    assert(rview(v@) =~= o + (changes_when_uppercased_chunk_0() + changes_when_uppercased_chunk_1() + changes_when_uppercased_chunk_2() + changes_when_uppercased_chunk_3() + changes_when_uppercased_chunk_4() + changes_when_uppercased_chunk_5()));
    push_changes_when_uppercased_chunk_6(v);
    assert(rview(v@) =~= o + (changes_when_uppercased_chunk_0() + changes_when_uppercased_chunk_1() + changes_when_uppercased_chunk_2() + changes_when_uppercased_chunk_3() + changes_when_uppercased_chunk_4() + changes_when_uppercased_chunk_5() + changes_when_uppercased_chunk_6()));
    push_changes_when_uppercased_chunk_7(v);
    assert(rview(v@) =~= o + (changes_when_uppercased_chunk_0() + changes_when_uppercased_chunk_1() + changes_when_uppercased_chunk_2() + changes_when_uppercased_chunk_3() + changes_when_uppercased_chunk_4() + changes_when_uppercased_chunk_5() + changes_when_uppercased_chunk_6() + changes_when_uppercased_chunk_7()));
    push_changes_when_uppercased_chunk_8(v);
    assert(rview(v@) =~= o + (changes_when_uppercased_chunk_0() + changes_when_uppercased_chunk_1() + changes_when_uppercased_chunk_2() + changes_when_uppercased_chunk_3() + changes_when_uppercased_chunk_4() + changes_when_uppercased_chunk_5() + changes_when_uppercased_chunk_6() + changes_when_uppercased_chunk_7() + changes_when_uppercased_chunk_8()));
    push_changes_when_uppercased_chunk_9(v);
    assert(rview(v@) =~= o + (changes_when_uppercased_chunk_0() + changes_when_uppercased_chunk_1() + changes_when_uppercased_chunk_2() + changes_when_uppercased_chunk_3() + changes_when_uppercased_chunk_4() + changes_when_uppercased_chunk_5() + changes_when_uppercased_chunk_6() + changes_when_uppercased_chunk_7() + changes_when_uppercased_chunk_8() + changes_when_uppercased_chunk_9()));
}

fn push_changes_when_uppercased_block_1(v: &mut Vec<ClassUnicodeRange>)
    ensures
        rview(final(v)@) == rview(old(v)@) + changes_when_uppercased_block_1(),
{
    let ghost o = rview(v@);
    push_changes_when_uppercased_chunk_10(v);
    assert(rview(v@) =~= o + (changes_when_uppercased_chunk_10()));
    push_changes_when_uppercased_chunk_11(v);
    assert(rview(v@) =~= o + (changes_when_uppercased_chunk_10() + changes_when_uppercased_chunk_11()));
    push_changes_when_uppercased_chunk_12(v);
    assert(rview(v@) =~= o + (changes_when_uppercased_chunk_10() + changes_when_uppercased_chunk_11() + changes_when_uppercased_chunk_12()));
    push_changes_when_uppercased_chunk_13(v);
    assert(rview(v@) =~= o + (changes_when_uppercased_chunk_10() + changes_when_uppercased_chunk_11() + changes_when_uppercased_chunk_12() + changes_when_uppercased_chunk_13()));
    push_changes_when_uppercased_chunk_14(v);
    assert(rview(v@) =~= o + (changes_when_uppercased_chunk_10() + changes_when_uppercased_chunk_11() + changes_when_uppercased_chunk_12() + changes_when_uppercased_chunk_13() + changes_when_uppercased_chunk_14()));
    push_changes_when_uppercased_chunk_15(v);
    assert(rview(v@) =~= o + (changes_when_uppercased_chunk_10() + changes_when_uppercased_chunk_11() + changes_when_uppercased_chunk_12() + changes_when_uppercased_chunk_13() + changes_when_uppercased_chunk_14() + changes_when_uppercased_chunk_15()));
    push_changes_when_uppercased_chunk_16(v);
    assert(rview(v@) =~= o + (changes_when_uppercased_chunk_10() + changes_when_uppercased_chunk_11() + changes_when_uppercased_chunk_12() + changes_when_uppercased_chunk_13() + changes_when_uppercased_chunk_14() + changes_when_uppercased_chunk_15() + changes_when_uppercased_chunk_16()));
    push_changes_when_uppercased_chunk_17(v);
    assert(rview(v@) =~= o + (changes_when_uppercased_chunk_10() + changes_when_uppercased_chunk_11() + changes_when_uppercased_chunk_12() + changes_when_uppercased_chunk_13() + changes_when_uppercased_chunk_14() + changes_when_uppercased_chunk_15() + changes_when_uppercased_chunk_16() + changes_when_uppercased_chunk_17()));
    push_changes_when_uppercased_chunk_18(v);
    assert(rview(v@) =~= o + (changes_when_uppercased_chunk_10() + changes_when_uppercased_chunk_11() + changes_when_uppercased_chunk_12() + changes_when_uppercased_chunk_13() + changes_when_uppercased_chunk_14() + changes_when_uppercased_chunk_15() + changes_when_uppercased_chunk_16() + changes_when_uppercased_chunk_17() + changes_when_uppercased_chunk_18()));
    push_changes_when_uppercased_chunk_19(v);
    assert(rview(v@) =~= o + (changes_when_uppercased_chunk_10() + changes_when_uppercased_chunk_11() + changes_when_uppercased_chunk_12() + changes_when_uppercased_chunk_13() + changes_when_uppercased_chunk_14() + changes_when_uppercased_chunk_15() + changes_when_uppercased_chunk_16() + changes_when_uppercased_chunk_17() + changes_when_uppercased_chunk_18() + changes_when_uppercased_chunk_19()));
}

fn push_changes_when_uppercased_block_2(v: &mut Vec<ClassUnicodeRange>)
    ensures
        rview(final(v)@) == rview(old(v)@) + changes_when_uppercased_block_2(),
{
    let ghost o = rview(v@);
    push_changes_when_uppercased_chunk_20(v);
    assert(rview(v@) =~= o + (changes_when_uppercased_chunk_20()));
    push_changes_when_uppercased_chunk_21(v);
    assert(rview(v@) =~= o + (changes_when_uppercased_chunk_20() + changes_when_uppercased_chunk_21()));
    push_changes_when_uppercased_chunk_22(v);
    assert(rview(v@) =~= o + (changes_when_uppercased_chunk_20() + changes_when_uppercased_chunk_21() + changes_when_uppercased_chunk_22()));
    push_changes_when_uppercased_chunk_23(v);
    assert(rview(v@) =~= o + (changes_when_uppercased_chunk_20() + changes_when_uppercased_chunk_21() + changes_when_uppercased_chunk_22() + changes_when_uppercased_chunk_23()));
    push_changes_when_uppercased_chunk_24(v);
    assert(rview(v@) =~= o + (changes_when_uppercased_chunk_20() + changes_when_uppercased_chunk_21() + changes_when_uppercased_chunk_22() + changes_when_uppercased_chunk_23() + changes_when_uppercased_chunk_24()));
    push_changes_when_uppercased_chunk_25(v);
    assert(rview(v@) =~= o + (changes_when_uppercased_chunk_20() + changes_when_uppercased_chunk_21() + changes_when_uppercased_chunk_22() + changes_when_uppercased_chunk_23() + changes_when_uppercased_chunk_24() + changes_when_uppercased_chunk_25()));
    push_changes_when_uppercased_chunk_26(v);
    assert(rview(v@) =~= o + (changes_when_uppercased_chunk_20() + changes_when_uppercased_chunk_21() + changes_when_uppercased_chunk_22() + changes_when_uppercased_chunk_23() + changes_when_uppercased_chunk_24() + changes_when_uppercased_chunk_25() + changes_when_uppercased_chunk_26()));
    push_changes_when_uppercased_chunk_27(v);
    assert(rview(v@) =~= o + (changes_when_uppercased_chunk_20() + changes_when_uppercased_chunk_21() + changes_when_uppercased_chunk_22() + changes_when_uppercased_chunk_23() + changes_when_uppercased_chunk_24() + changes_when_uppercased_chunk_25() + changes_when_uppercased_chunk_26() + changes_when_uppercased_chunk_27()));
    push_changes_when_uppercased_chunk_28(v);
    assert(rview(v@) =~= o + (changes_when_uppercased_chunk_20() + changes_when_uppercased_chunk_21() + changes_when_uppercased_chunk_22() + changes_when_uppercased_chunk_23() + changes_when_uppercased_chunk_24() + changes_when_uppercased_chunk_25() + changes_when_uppercased_chunk_26() + changes_when_uppercased_chunk_27() + changes_when_uppercased_chunk_28()));
    push_changes_when_uppercased_chunk_29(v);
    assert(rview(v@) =~= o + (changes_when_uppercased_chunk_20() + changes_when_uppercased_chunk_21() + changes_when_uppercased_chunk_22() + changes_when_uppercased_chunk_23() + changes_when_uppercased_chunk_24() + changes_when_uppercased_chunk_25() + changes_when_uppercased_chunk_26() + changes_when_uppercased_chunk_27() + changes_when_uppercased_chunk_28() + changes_when_uppercased_chunk_29()));
}

fn push_changes_when_uppercased_block_3(v: &mut Vec<ClassUnicodeRange>)
    ensures
        rview(final(v)@) == rview(old(v)@) + changes_when_uppercased_block_3(),
{
    let ghost o = rview(v@);
    push_changes_when_uppercased_chunk_30(v);
    assert(rview(v@) =~= o + (changes_when_uppercased_chunk_30()));
    push_changes_when_uppercased_chunk_31(v);
    assert(rview(v@) =~= o + (changes_when_uppercased_chunk_30() + changes_when_uppercased_chunk_31()));
    push_changes_when_uppercased_chunk_32(v);
    assert(rview(v@) =~= o + (changes_when_uppercased_chunk_30() + changes_when_uppercased_chunk_31() + changes_when_uppercased_chunk_32()));
    push_changes_when_uppercased_chunk_33(v);
    assert(rview(v@) =~= o + (changes_when_uppercased_chunk_30() + changes_when_uppercased_chunk_31() + changes_when_uppercased_chunk_32() + changes_when_uppercased_chunk_33()));
    push_changes_when_uppercased_chunk_34(v);
    assert(rview(v@) =~= o + (changes_when_uppercased_chunk_30() + changes_when_uppercased_chunk_31() + changes_when_uppercased_chunk_32() + changes_when_uppercased_chunk_33() + changes_when_uppercased_chunk_34()));
    push_changes_when_uppercased_chunk_35(v);
    assert(rview(v@) =~= o + (changes_when_uppercased_chunk_30() + changes_when_uppercased_chunk_31() + changes_when_uppercased_chunk_32() + changes_when_uppercased_chunk_33() + changes_when_uppercased_chunk_34() + changes_when_uppercased_chunk_35()));
    push_changes_when_uppercased_chunk_36(v);
    assert(rview(v@) =~= o + (changes_when_uppercased_chunk_30() + changes_when_uppercased_chunk_31() + changes_when_uppercased_chunk_32() + changes_when_uppercased_chunk_33() + changes_when_uppercased_chunk_34() + changes_when_uppercased_chunk_35() + changes_when_uppercased_chunk_36()));
    push_changes_when_uppercased_chunk_37(v);
    assert(rview(v@) =~= o + (changes_when_uppercased_chunk_30() + changes_when_uppercased_chunk_31() + changes_when_uppercased_chunk_32() + changes_when_uppercased_chunk_33() + changes_when_uppercased_chunk_34() + changes_when_uppercased_chunk_35() + changes_when_uppercased_chunk_36() + changes_when_uppercased_chunk_37()));
    push_changes_when_uppercased_chunk_38(v);
    assert(rview(v@) =~= o + (changes_when_uppercased_chunk_30() + changes_when_uppercased_chunk_31() + changes_when_uppercased_chunk_32() + changes_when_uppercased_chunk_33() + changes_when_uppercased_chunk_34() + changes_when_uppercased_chunk_35() + changes_when_uppercased_chunk_36() + changes_when_uppercased_chunk_37() + changes_when_uppercased_chunk_38()));
    push_changes_when_uppercased_chunk_39(v);
    assert(rview(v@) =~= o + (changes_when_uppercased_chunk_30() + changes_when_uppercased_chunk_31() + changes_when_uppercased_chunk_32() + changes_when_uppercased_chunk_33() + changes_when_uppercased_chunk_34() + changes_when_uppercased_chunk_35() + changes_when_uppercased_chunk_36() + changes_when_uppercased_chunk_37() + changes_when_uppercased_chunk_38() + changes_when_uppercased_chunk_39()));
}

fn push_changes_when_uppercased_block_4(v: &mut Vec<ClassUnicodeRange>)
    ensures
        rview(final(v)@) == rview(old(v)@) + changes_when_uppercased_block_4(),
{
    let ghost o = rview(v@);
    push_changes_when_uppercased_chunk_40(v);
    assert(rview(v@) =~= o + (changes_when_uppercased_chunk_40()));
    push_changes_when_uppercased_chunk_41(v);
    assert(rview(v@) =~= o + (changes_when_uppercased_chunk_40() + changes_when_uppercased_chunk_41()));
    push_changes_when_uppercased_chunk_42(v);
    assert(rview(v@) =~= o + (changes_when_uppercased_chunk_40() + changes_when_uppercased_chunk_41() + changes_when_uppercased_chunk_42()));
    push_changes_when_uppercased_chunk_43(v);
    assert(rview(v@) =~= o + (changes_when_uppercased_chunk_40() + changes_when_uppercased_chunk_41() + changes_when_uppercased_chunk_42() + changes_when_uppercased_chunk_43()));
    push_changes_when_uppercased_chunk_44(v);
    assert(rview(v@) =~= o + (changes_when_uppercased_chunk_40() + changes_when_uppercased_chunk_41() + changes_when_uppercased_chunk_42() + changes_when_uppercased_chunk_43() + changes_when_uppercased_chunk_44()));
    push_changes_when_uppercased_chunk_45(v);
    assert(rview(v@) =~= o + (changes_when_uppercased_chunk_40() + changes_when_uppercased_chunk_41() + changes_when_uppercased_chunk_42() + changes_when_uppercased_chunk_43() + changes_when_uppercased_chunk_44() + changes_when_uppercased_chunk_45()));
    push_changes_when_uppercased_chunk_46(v);
    assert(rview(v@) =~= o + (changes_when_uppercased_chunk_40() + changes_when_uppercased_chunk_41() + changes_when_uppercased_chunk_42() + changes_when_uppercased_chunk_43() + changes_when_uppercased_chunk_44() + changes_when_uppercased_chunk_45() + changes_when_uppercased_chunk_46()));
    push_changes_when_uppercased_chunk_47(v);
    assert(rview(v@) =~= o + (changes_when_uppercased_chunk_40() + changes_when_uppercased_chunk_41() + changes_when_uppercased_chunk_42() + changes_when_uppercased_chunk_43() + changes_when_uppercased_chunk_44() + changes_when_uppercased_chunk_45() + changes_when_uppercased_chunk_46() + changes_when_uppercased_chunk_47()));
    push_changes_when_uppercased_chunk_48(v);
    assert(rview(v@) =~= o + (changes_when_uppercased_chunk_40() + changes_when_uppercased_chunk_41() + changes_when_uppercased_chunk_42() + changes_when_uppercased_chunk_43() + changes_when_uppercased_chunk_44() + changes_when_uppercased_chunk_45() + changes_when_uppercased_chunk_46() + changes_when_uppercased_chunk_47() + changes_when_uppercased_chunk_48()));
    push_changes_when_uppercased_chunk_49(v);
    assert(rview(v@) =~= o + (changes_when_uppercased_chunk_40() + changes_when_uppercased_chunk_41() + changes_when_uppercased_chunk_42() + changes_when_uppercased_chunk_43() + changes_when_uppercased_chunk_44() + changes_when_uppercased_chunk_45() + changes_when_uppercased_chunk_46() + changes_when_uppercased_chunk_47() + changes_when_uppercased_chunk_48() + changes_when_uppercased_chunk_49()));
}

fn push_changes_when_uppercased_block_5(v: &mut Vec<ClassUnicodeRange>)
    ensures
        rview(final(v)@) == rview(old(v)@) + changes_when_uppercased_block_5(),
{
    let ghost o = rview(v@);
    push_changes_when_uppercased_chunk_50(v);
    assert(rview(v@) =~= o + (changes_when_uppercased_chunk_50()));
    push_changes_when_uppercased_chunk_51(v);
    assert(rview(v@) =~= o + (changes_when_uppercased_chunk_50() + changes_when_uppercased_chunk_51()));
    push_changes_when_uppercased_chunk_52(v);
    assert(rview(v@) =~= o + (changes_when_uppercased_chunk_50() + changes_when_uppercased_chunk_51() + changes_when_uppercased_chunk_52()));
    push_changes_when_uppercased_chunk_53(v);
    assert(rview(v@) =~= o + (changes_when_uppercased_chunk_50() + changes_when_uppercased_chunk_51() + changes_when_uppercased_chunk_52() + changes_when_uppercased_chunk_53()));
    push_changes_when_uppercased_chunk_54(v);
    assert(rview(v@) =~= o + (changes_when_uppercased_chunk_50() + changes_when_uppercased_chunk_51() + changes_when_uppercased_chunk_52() + changes_when_uppercased_chunk_53() + changes_when_uppercased_chunk_54()));
    push_changes_when_uppercased_chunk_55(v);
    assert(rview(v@) =~= o + (changes_when_uppercased_chunk_50() + changes_when_uppercased_chunk_51() + changes_when_uppercased_chunk_52() + changes_when_uppercased_chunk_53() + changes_when_uppercased_chunk_54() + changes_when_uppercased_chunk_55()));
    push_changes_when_uppercased_chunk_56(v);
    assert(rview(v@) =~= o + (changes_when_uppercased_chunk_50() + changes_when_uppercased_chunk_51() + changes_when_uppercased_chunk_52() + changes_when_uppercased_chunk_53() + changes_when_uppercased_chunk_54() + changes_when_uppercased_chunk_55() + changes_when_uppercased_chunk_56()));
    push_changes_when_uppercased_chunk_57(v);
    assert(rview(v@) =~= o + (changes_when_uppercased_chunk_50() + changes_when_uppercased_chunk_51() + changes_when_uppercased_chunk_52() + changes_when_uppercased_chunk_53() + changes_when_uppercased_chunk_54() + changes_when_uppercased_chunk_55() + changes_when_uppercased_chunk_56() + changes_when_uppercased_chunk_57()));
    push_changes_when_uppercased_chunk_58(v);
    assert(rview(v@) =~= o + (changes_when_uppercased_chunk_50() + changes_when_uppercased_chunk_51() + changes_when_uppercased_chunk_52() + changes_when_uppercased_chunk_53() + changes_when_uppercased_chunk_54() + changes_when_uppercased_chunk_55() + changes_when_uppercased_chunk_56() + changes_when_uppercased_chunk_57() + changes_when_uppercased_chunk_58()));
    push_changes_when_uppercased_chunk_59(v);
    assert(rview(v@) =~= o + (changes_when_uppercased_chunk_50() + changes_when_uppercased_chunk_51() + changes_when_uppercased_chunk_52() + changes_when_uppercased_chunk_53() + changes_when_uppercased_chunk_54() + changes_when_uppercased_chunk_55() + changes_when_uppercased_chunk_56() + changes_when_uppercased_chunk_57() + changes_when_uppercased_chunk_58() + changes_when_uppercased_chunk_59()));
}

fn push_changes_when_uppercased_block_6(v: &mut Vec<ClassUnicodeRange>)
    ensures
        rview(final(v)@) == rview(old(v)@) + changes_when_uppercased_block_6(),
{
    let ghost o = rview(v@);
    push_changes_when_uppercased_chunk_60(v);
    assert(rview(v@) =~= o + (changes_when_uppercased_chunk_60()));
    push_changes_when_uppercased_chunk_61(v);
    assert(rview(v@) =~= o + (changes_when_uppercased_chunk_60() + changes_when_uppercased_chunk_61()));
    push_changes_when_uppercased_chunk_62(v);
    assert(rview(v@) =~= o + (changes_when_uppercased_chunk_60() + changes_when_uppercased_chunk_61() + changes_when_uppercased_chunk_62()));
    push_changes_when_uppercased_chunk_63(v);
    assert(rview(v@) =~= o + (changes_when_uppercased_chunk_60() + changes_when_uppercased_chunk_61() + changes_when_uppercased_chunk_62() + changes_when_uppercased_chunk_63()));
    push_changes_when_uppercased_chunk_64(v);
    assert(rview(v@) =~= o + (changes_when_uppercased_chunk_60() + changes_when_uppercased_chunk_61() + changes_when_uppercased_chunk_62() + changes_when_uppercased_chunk_63() + changes_when_uppercased_chunk_64()));
    push_changes_when_uppercased_chunk_65(v);
    assert(rview(v@) =~= o + (changes_when_uppercased_chunk_60() + changes_when_uppercased_chunk_61() + changes_when_uppercased_chunk_62() + changes_when_uppercased_chunk_63() + changes_when_uppercased_chunk_64() + changes_when_uppercased_chunk_65()));
    push_changes_when_uppercased_chunk_66(v);
    assert(rview(v@) =~= o + (changes_when_uppercased_chunk_60() + changes_when_uppercased_chunk_61() + changes_when_uppercased_chunk_62() + changes_when_uppercased_chunk_63() + changes_when_uppercased_chunk_64() + changes_when_uppercased_chunk_65() + changes_when_uppercased_chunk_66()));
    push_changes_when_uppercased_chunk_67(v);
    assert(rview(v@) =~= o + (changes_when_uppercased_chunk_60() + changes_when_uppercased_chunk_61() + changes_when_uppercased_chunk_62() + changes_when_uppercased_chunk_63() + changes_when_uppercased_chunk_64() + changes_when_uppercased_chunk_65() + changes_when_uppercased_chunk_66() + changes_when_uppercased_chunk_67()));
    push_changes_when_uppercased_chunk_68(v);
    assert(rview(v@) =~= o + (changes_when_uppercased_chunk_60() + changes_when_uppercased_chunk_61() + changes_when_uppercased_chunk_62() + changes_when_uppercased_chunk_63() + changes_when_uppercased_chunk_64() + changes_when_uppercased_chunk_65() + changes_when_uppercased_chunk_66() + changes_when_uppercased_chunk_67() + changes_when_uppercased_chunk_68()));
    push_changes_when_uppercased_chunk_69(v);
    assert(rview(v@) =~= o + (changes_when_uppercased_chunk_60() + changes_when_uppercased_chunk_61() + changes_when_uppercased_chunk_62() + changes_when_uppercased_chunk_63() + changes_when_uppercased_chunk_64() + changes_when_uppercased_chunk_65() + changes_when_uppercased_chunk_66() + changes_when_uppercased_chunk_67() + changes_when_uppercased_chunk_68() + changes_when_uppercased_chunk_69()));
}

fn push_changes_when_uppercased_block_7(v: &mut Vec<ClassUnicodeRange>)
    ensures
        rview(final(v)@) == rview(old(v)@) + changes_when_uppercased_block_7(),
{
    let ghost o = rview(v@);
    push_changes_when_uppercased_chunk_70(v);
    assert(rview(v@) =~= o + (changes_when_uppercased_chunk_70()));
    push_changes_when_uppercased_chunk_71(v);
    assert(rview(v@) =~= o + (changes_when_uppercased_chunk_70() + changes_when_uppercased_chunk_71()));
    push_changes_when_uppercased_chunk_72(v);
    assert(rview(v@) =~= o + (changes_when_uppercased_chunk_70() + changes_when_uppercased_chunk_71() + changes_when_uppercased_chunk_72()));
    push_changes_when_uppercased_chunk_73(v);
    assert(rview(v@) =~= o + (changes_when_uppercased_chunk_70() + changes_when_uppercased_chunk_71() + changes_when_uppercased_chunk_72() + changes_when_uppercased_chunk_73()));
    push_changes_when_uppercased_chunk_74(v);
    assert(rview(v@) =~= o + (changes_when_uppercased_chunk_70() + changes_when_uppercased_chunk_71() + changes_when_uppercased_chunk_72() + changes_when_uppercased_chunk_73() + changes_when_uppercased_chunk_74()));
    push_changes_when_uppercased_chunk_75(v);
    assert(rview(v@) =~= o + (changes_when_uppercased_chunk_70() + changes_when_uppercased_chunk_71() + changes_when_uppercased_chunk_72() + changes_when_uppercased_chunk_73() + changes_when_uppercased_chunk_74() + changes_when_uppercased_chunk_75()));
    push_changes_when_uppercased_chunk_76(v);
    assert(rview(v@) =~= o + (changes_when_uppercased_chunk_70() + changes_when_uppercased_chunk_71() + changes_when_uppercased_chunk_72() + changes_when_uppercased_chunk_73() + changes_when_uppercased_chunk_74() + changes_when_uppercased_chunk_75() + changes_when_uppercased_chunk_76()));
    push_changes_when_uppercased_chunk_77(v);
    assert(rview(v@) =~= o + (changes_when_uppercased_chunk_70() + changes_when_uppercased_chunk_71() + changes_when_uppercased_chunk_72() + changes_when_uppercased_chunk_73() + changes_when_uppercased_chunk_74() + changes_when_uppercased_chunk_75() + changes_when_uppercased_chunk_76() + changes_when_uppercased_chunk_77()));
    push_changes_when_uppercased_chunk_78(v);
    assert(rview(v@) =~= o + (changes_when_uppercased_chunk_70() + changes_when_uppercased_chunk_71() + changes_when_uppercased_chunk_72() + changes_when_uppercased_chunk_73() + changes_when_uppercased_chunk_74() + changes_when_uppercased_chunk_75() + changes_when_uppercased_chunk_76() + changes_when_uppercased_chunk_77() + changes_when_uppercased_chunk_78()));
}

pub fn changes_when_uppercased_class() -> (v: Vec<ClassUnicodeRange>)
    ensures
        rview(v@) == changes_when_uppercased_ranges(),
{
    let mut v: Vec<ClassUnicodeRange> = Vec::new();
    assert(rview(v@) =~= Seq::<SRange>::empty());
    push_changes_when_uppercased_block_0(&mut v);
    assert(rview(v@) =~= changes_when_uppercased_block_0());
    push_changes_when_uppercased_block_1(&mut v);
    assert(rview(v@) =~= changes_when_uppercased_block_0() + changes_when_uppercased_block_1());
    push_changes_when_uppercased_block_2(&mut v);
    assert(rview(v@) =~= changes_when_uppercased_block_0() + changes_when_uppercased_block_1() + changes_when_uppercased_block_2());
    push_changes_when_uppercased_block_3(&mut v);
    assert(rview(v@) =~= changes_when_uppercased_block_0() + changes_when_uppercased_block_1() + changes_when_uppercased_block_2() + changes_when_uppercased_block_3());
    push_changes_when_uppercased_block_4(&mut v);
    assert(rview(v@) =~= changes_when_uppercased_block_0() + changes_when_uppercased_block_1() + changes_when_uppercased_block_2() + changes_when_uppercased_block_3() + changes_when_uppercased_block_4());
    push_changes_when_uppercased_block_5(&mut v);
    assert(rview(v@) =~= changes_when_uppercased_block_0() + changes_when_uppercased_block_1() + changes_when_uppercased_block_2() + changes_when_uppercased_block_3() + changes_when_uppercased_block_4() + changes_when_uppercased_block_5());
    push_changes_when_uppercased_block_6(&mut v);
    assert(rview(v@) =~= changes_when_uppercased_block_0() + changes_when_uppercased_block_1() + changes_when_uppercased_block_2() + changes_when_uppercased_block_3() + changes_when_uppercased_block_4() + changes_when_uppercased_block_5() + changes_when_uppercased_block_6());
    push_changes_when_uppercased_block_7(&mut v);
    assert(rview(v@) =~= changes_when_uppercased_block_0() + changes_when_uppercased_block_1() + changes_when_uppercased_block_2() + changes_when_uppercased_block_3() + changes_when_uppercased_block_4() + changes_when_uppercased_block_5() + changes_when_uppercased_block_6() + changes_when_uppercased_block_7());
    v
}

pub open spec fn dash_chunk_0() -> Seq<SRange> {
    seq![(0x2Dint, 0x2Dint), (0x58Aint, 0x58Aint), (0x5BEint, 0x5BEint), (0x1400int, 0x1400int), (0x1806int, 0x1806int), (0x2010int, 0x2015int), (0x2053int, 0x2053int), (0x207Bint, 0x207Bint)]
}

pub open spec fn dash_chunk_1() -> Seq<SRange> {
    seq![(0x208Bint, 0x208Bint), (0x2212int, 0x2212int), (0x2E17int, 0x2E17int), (0x2E1Aint, 0x2E1Aint), (0x2E3Aint, 0x2E3Bint), (0x2E40int, 0x2E40int), (0x2E5Dint, 0x2E5Dint), (0x301Cint, 0x301Cint)]
}

pub open spec fn dash_chunk_2() -> Seq<SRange> {
    seq![(0x3030int, 0x3030int), (0x30A0int, 0x30A0int), (0xFE31int, 0xFE32int), (0xFE58int, 0xFE58int), (0xFE63int, 0xFE63int), (0xFF0Dint, 0xFF0Dint), (0x10D6Eint, 0x10D6Eint), (0x10EADint, 0x10EADint)]
}

/// The ranges of the property Dash.
pub open spec fn dash_ranges() -> Seq<SRange> {
    dash_chunk_0() + dash_chunk_1() + dash_chunk_2()
}

pub proof fn lemma_dash_canonical()
    ensures
        canonical(dash_ranges()),
{
    reveal_with_fuel(canonical, 9);
    assert(canonical(dash_chunk_0()));
    assert(canonical(dash_chunk_1()));
    assert(canonical(dash_chunk_2()));
    lemma_canonical_append(dash_chunk_0(), dash_chunk_1());
    lemma_canonical_append(dash_chunk_0() + dash_chunk_1(), dash_chunk_2());
}

fn push_dash_chunk_0(v: &mut Vec<ClassUnicodeRange>)
    ensures
        rview(final(v)@) == rview(old(v)@) + dash_chunk_0(),
{
    let ghost o = rview(v@);
    push_range(v, '\u{2D}', '\u{2D}');
    push_range(v, '\u{58A}', '\u{58A}');
    push_range(v, '\u{5BE}', '\u{5BE}');
    push_range(v, '\u{1400}', '\u{1400}');
    push_range(v, '\u{1806}', '\u{1806}');
    push_range(v, '\u{2010}', '\u{2015}');
    push_range(v, '\u{2053}', '\u{2053}');
    push_range(v, '\u{207B}', '\u{207B}');
    assert(rview(v@) =~= o + dash_chunk_0());
}

fn push_dash_chunk_1(v: &mut Vec<ClassUnicodeRange>)
    ensures
        rview(final(v)@) == rview(old(v)@) + dash_chunk_1(),
{
    let ghost o = rview(v@);
    push_range(v, '\u{208B}', '\u{208B}');
    push_range(v, '\u{2212}', '\u{2212}');
    push_range(v, '\u{2E17}', '\u{2E17}');
    push_range(v, '\u{2E1A}', '\u{2E1A}');
    push_range(v, '\u{2E3A}', '\u{2E3B}');
    push_range(v, '\u{2E40}', '\u{2E40}');
    push_range(v, '\u{2E5D}', '\u{2E5D}');
    push_range(v, '\u{301C}', '\u{301C}');
    assert(rview(v@) =~= o + dash_chunk_1());
}

fn push_dash_chunk_2(v: &mut Vec<ClassUnicodeRange>)
    ensures
        rview(final(v)@) == rview(old(v)@) + dash_chunk_2(),
{
    let ghost o = rview(v@);
    push_range(v, '\u{3030}', '\u{3030}');
    push_range(v, '\u{30A0}', '\u{30A0}');
    push_range(v, '\u{FE31}', '\u{FE32}');
    push_range(v, '\u{FE58}', '\u{FE58}');
    push_range(v, '\u{FE63}', '\u{FE63}');
    push_range(v, '\u{FF0D}', '\u{FF0D}');
    push_range(v, '\u{10D6E}', '\u{10D6E}');
    push_range(v, '\u{10EAD}', '\u{10EAD}');
    assert(rview(v@) =~= o + dash_chunk_2());
}

pub fn dash_class() -> (v: Vec<ClassUnicodeRange>)
    ensures
        rview(v@) == dash_ranges(),
{
    let mut v: Vec<ClassUnicodeRange> = Vec::new();
    assert(rview(v@) =~= Seq::<SRange>::empty());
    push_dash_chunk_0(&mut v);
    assert(rview(v@) =~= dash_chunk_0());
    push_dash_chunk_1(&mut v);
    assert(rview(v@) =~= dash_chunk_0() + dash_chunk_1());
    push_dash_chunk_2(&mut v);
    assert(rview(v@) =~= dash_chunk_0() + dash_chunk_1() + dash_chunk_2());
    v
}

pub open spec fn default_ignorable_code_point_chunk_0() -> Seq<SRange> {
    seq![(0xADint, 0xADint), (0x34Fint, 0x34Fint), (0x61Cint, 0x61Cint), (0x115Fint, 0x1160int), (0x17B4int, 0x17B5int), (0x180Bint, 0x180Fint), (0x200Bint, 0x200Fint), (0x202Aint, 0x202Eint)]
}

pub open spec fn default_ignorable_code_point_chunk_1() -> Seq<SRange> {
    seq![(0x2060int, 0x206Fint), (0x3164int, 0x3164int), (0xFE00int, 0xFE0Fint), (0xFEFFint, 0xFEFFint), (0xFFA0int, 0xFFA0int), (0xFFF0int, 0xFFF8int), (0x1BCA0int, 0x1BCA3int), (0x1D173int, 0x1D17Aint)]
}

pub open spec fn default_ignorable_code_point_chunk_2() -> Seq<SRange> {
    seq![(0xE0000int, 0xE0FFFint)]
}

/// The ranges of the property Default_Ignorable_Code_Point.
pub open spec fn default_ignorable_code_point_ranges() -> Seq<SRange> {
    default_ignorable_code_point_chunk_0() + default_ignorable_code_point_chunk_1() + default_ignorable_code_point_chunk_2()
}

pub proof fn lemma_default_ignorable_code_point_canonical()
    ensures
        canonical(default_ignorable_code_point_ranges()),
{
    reveal_with_fuel(canonical, 9);
    assert(canonical(default_ignorable_code_point_chunk_0()));
    assert(canonical(default_ignorable_code_point_chunk_1()));
    assert(canonical(default_ignorable_code_point_chunk_2()));
    lemma_canonical_append(default_ignorable_code_point_chunk_0(), default_ignorable_code_point_chunk_1());
    lemma_canonical_append(default_ignorable_code_point_chunk_0() + default_ignorable_code_point_chunk_1(), default_ignorable_code_point_chunk_2());
}

fn push_default_ignorable_code_point_chunk_0(v: &mut Vec<ClassUnicodeRange>)
    ensures
        rview(final(v)@) == rview(old(v)@) + default_ignorable_code_point_chunk_0(),
{
    let ghost o = rview(v@);
    push_range(v, '\u{AD}', '\u{AD}');
    push_range(v, '\u{34F}', '\u{34F}');
    push_range(v, '\u{61C}', '\u{61C}');
    push_range(v, '\u{115F}', '\u{1160}');
    push_range(v, '\u{17B4}', '\u{17B5}');
    push_range(v, '\u{180B}', '\u{180F}');
    push_range(v, '\u{200B}', '\u{200F}');
    push_range(v, '\u{202A}', '\u{202E}');
    assert(rview(v@) =~= o + default_ignorable_code_point_chunk_0());
}

fn push_default_ignorable_code_point_chunk_1(v: &mut Vec<ClassUnicodeRange>)
    ensures
        rview(final(v)@) == rview(old(v)@) + default_ignorable_code_point_chunk_1(),
{
    let ghost o = rview(v@);
    push_range(v, '\u{2060}', '\u{206F}');
    push_range(v, '\u{3164}', '\u{3164}');
    push_range(v, '\u{FE00}', '\u{FE0F}');
    push_range(v, '\u{FEFF}', '\u{FEFF}');
    push_range(v, '\u{FFA0}', '\u{FFA0}');
    push_range(v, '\u{FFF0}', '\u{FFF8}');
    push_range(v, '\u{1BCA0}', '\u{1BCA3}');
    push_range(v, '\u{1D173}', '\u{1D17A}');
    assert(rview(v@) =~= o + default_ignorable_code_point_chunk_1());
}

fn push_default_ignorable_code_point_chunk_2(v: &mut Vec<ClassUnicodeRange>)
    ensures
        rview(final(v)@) == rview(old(v)@) + default_ignorable_code_point_chunk_2(),
{
    let ghost o = rview(v@);
    push_range(v, '\u{E0000}', '\u{E0FFF}');
    assert(rview(v@) =~= o + default_ignorable_code_point_chunk_2());
}

pub fn default_ignorable_code_point_class() -> (v: Vec<ClassUnicodeRange>)
    ensures
        rview(v@) == default_ignorable_code_point_ranges(),
{
    let mut v: Vec<ClassUnicodeRange> = Vec::new();
    assert(rview(v@) =~= Seq::<SRange>::empty());
    push_default_ignorable_code_point_chunk_0(&mut v);
    assert(rview(v@) =~= default_ignorable_code_point_chunk_0());
    push_default_ignorable_code_point_chunk_1(&mut v);
    assert(rview(v@) =~= default_ignorable_code_point_chunk_0() + default_ignorable_code_point_chunk_1());
    push_default_ignorable_code_point_chunk_2(&mut v);
    assert(rview(v@) =~= default_ignorable_code_point_chunk_0() + default_ignorable_code_point_chunk_1() + default_ignorable_code_point_chunk_2());
    v
}

pub open spec fn deprecated_chunk_0() -> Seq<SRange> {
    seq![(0x149int, 0x149int), (0x673int, 0x673int), (0xF77int, 0xF77int), (0xF79int, 0xF79int), (0x17A3int, 0x17A4int), (0x206Aint, 0x206Fint), (0x2329int, 0x232Aint), (0xE0001int, 0xE0001int)]
}

/// The ranges of the property Deprecated.
pub open spec fn deprecated_ranges() -> Seq<SRange> {
    deprecated_chunk_0()
}

pub proof fn lemma_deprecated_canonical()
    ensures
        canonical(deprecated_ranges()),
{
    reveal_with_fuel(canonical, 9);
    assert(canonical(deprecated_chunk_0()));
}

fn push_deprecated_chunk_0(v: &mut Vec<ClassUnicodeRange>)
    ensures
        rview(final(v)@) == rview(old(v)@) + deprecated_chunk_0(),
{
    let ghost o = rview(v@);
    push_range(v, '\u{149}', '\u{149}');
    push_range(v, '\u{673}', '\u{673}');
    push_range(v, '\u{F77}', '\u{F77}');
    push_range(v, '\u{F79}', '\u{F79}');
    push_range(v, '\u{17A3}', '\u{17A4}');
    push_range(v, '\u{206A}', '\u{206F}');
    push_range(v, '\u{2329}', '\u{232A}');
    push_range(v, '\u{E0001}', '\u{E0001}');
    assert(rview(v@) =~= o + deprecated_chunk_0());
}

pub fn deprecated_class() -> (v: Vec<ClassUnicodeRange>)
    ensures
        rview(v@) == deprecated_ranges(),
{
    let mut v: Vec<ClassUnicodeRange> = Vec::new();
    assert(rview(v@) =~= Seq::<SRange>::empty());
    push_deprecated_chunk_0(&mut v);
    assert(rview(v@) =~= deprecated_chunk_0());
    v
}

pub open spec fn diacritic_chunk_0() -> Seq<SRange> {
    seq![(0x5Eint, 0x5Eint), (0x60int, 0x60int), (0xA8int, 0xA8int), (0xAFint, 0xAFint), (0xB4int, 0xB4int), (0xB7int, 0xB8int), (0x2B0int, 0x34Eint), (0x350int, 0x357int)]
}

pub open spec fn diacritic_chunk_1() -> Seq<SRange> {
    seq![(0x35Dint, 0x362int), (0x374int, 0x375int), (0x37Aint, 0x37Aint), (0x384int, 0x385int), (0x483int, 0x487int), (0x559int, 0x559int), (0x591int, 0x5A1int), (0x5A3int, 0x5BDint)]
}

pub open spec fn diacritic_chunk_2() -> Seq<SRange> {
    seq![(0x5BFint, 0x5BFint), (0x5C1int, 0x5C2int), (0x5C4int, 0x5C4int), (0x64Bint, 0x652int), (0x657int, 0x658int), (0x6DFint, 0x6E0int), (0x6E5int, 0x6E6int), (0x6EAint, 0x6ECint)]
}

pub open spec fn diacritic_chunk_3() -> Seq<SRange> {
    seq![(0x730int, 0x74Aint), (0x7A6int, 0x7B0int), (0x7EBint, 0x7F5int), (0x818int, 0x819int), (0x898int, 0x89Fint), (0x8C9int, 0x8D2int), (0x8E3int, 0x8FEint), (0x93Cint, 0x93Cint)]
}

pub open spec fn diacritic_chunk_4() -> Seq<SRange> {
    seq![(0x94Dint, 0x94Dint), (0x951int, 0x954int), (0x971int, 0x971int), (0x9BCint, 0x9BCint), (0x9CDint, 0x9CDint), (0xA3Cint, 0xA3Cint), (0xA4Dint, 0xA4Dint), (0xABCint, 0xABCint)]
}

pub open spec fn diacritic_chunk_5() -> Seq<SRange> {
    seq![(0xACDint, 0xACDint), (0xAFDint, 0xAFFint), (0xB3Cint, 0xB3Cint), (0xB4Dint, 0xB4Dint), (0xB55int, 0xB55int), (0xBCDint, 0xBCDint), (0xC3Cint, 0xC3Cint), (0xC4Dint, 0xC4Dint)]
}

pub open spec fn diacritic_chunk_6() -> Seq<SRange> {
    seq![(0xCBCint, 0xCBCint), (0xCCDint, 0xCCDint), (0xD3Bint, 0xD3Cint), (0xD4Dint, 0xD4Dint), (0xDCAint, 0xDCAint), (0xE3Aint, 0xE3Aint), (0xE47int, 0xE4Cint), (0xE4Eint, 0xE4Eint)]
}

pub open spec fn diacritic_chunk_7() -> Seq<SRange> {
    seq![(0xEBAint, 0xEBAint), (0xEC8int, 0xECCint), (0xF18int, 0xF19int), (0xF35int, 0xF35int), (0xF37int, 0xF37int), (0xF39int, 0xF39int), (0xF3Eint, 0xF3Fint), (0xF82int, 0xF84int)]
}

pub open spec fn diacritic_chunk_8() -> Seq<SRange> {
    seq![(0xF86int, 0xF87int), (0xFC6int, 0xFC6int), (0x1037int, 0x1037int), (0x1039int, 0x103Aint), (0x1063int, 0x1064int), (0x1069int, 0x106Dint), (0x1087int, 0x108Dint), (0x108Fint, 0x108Fint)]
}

pub open spec fn diacritic_chunk_9() -> Seq<SRange> {
    seq![(0x109Aint, 0x109Bint), (0x135Dint, 0x135Fint), (0x1714int, 0x1715int), (0x1734int, 0x1734int), (0x17C9int, 0x17D3int), (0x17DDint, 0x17DDint), (0x1939int, 0x193Bint), (0x1A60int, 0x1A60int)]
}

pub open spec fn diacritic_chunk_10() -> Seq<SRange> {
    seq![(0x1A75int, 0x1A7Cint), (0x1A7Fint, 0x1A7Fint), (0x1AB0int, 0x1ABEint), (0x1AC1int, 0x1ACBint), (0x1B34int, 0x1B34int), (0x1B44int, 0x1B44int), (0x1B6Bint, 0x1B73int), (0x1BAAint, 0x1BABint)]
}

pub open spec fn diacritic_chunk_11() -> Seq<SRange> {
    seq![(0x1BE6int, 0x1BE6int), (0x1BF2int, 0x1BF3int), (0x1C36int, 0x1C37int), (0x1C78int, 0x1C7Dint), (0x1CD0int, 0x1CE8int), (0x1CEDint, 0x1CEDint), (0x1CF4int, 0x1CF4int), (0x1CF7int, 0x1CF9int)]
}

pub open spec fn diacritic_chunk_12() -> Seq<SRange> {
    seq![(0x1D2Cint, 0x1D6Aint), (0x1DC4int, 0x1DCFint), (0x1DF5int, 0x1DFFint), (0x1FBDint, 0x1FBDint), (0x1FBFint, 0x1FC1int), (0x1FCDint, 0x1FCFint), (0x1FDDint, 0x1FDFint), (0x1FEDint, 0x1FEFint)]
}

pub open spec fn diacritic_chunk_13() -> Seq<SRange> {
    seq![(0x1FFDint, 0x1FFEint), (0x2CEFint, 0x2CF1int), (0x2E2Fint, 0x2E2Fint), (0x302Aint, 0x302Fint), (0x3099int, 0x309Cint), (0x30FCint, 0x30FCint), (0xA66Fint, 0xA66Fint), (0xA67Cint, 0xA67Dint)]
}

pub open spec fn diacritic_chunk_14() -> Seq<SRange> {
    seq![(0xA67Fint, 0xA67Fint), (0xA69Cint, 0xA69Dint), (0xA6F0int, 0xA6F1int), (0xA700int, 0xA721int), (0xA788int, 0xA78Aint), (0xA7F8int, 0xA7F9int), (0xA806int, 0xA806int), (0xA82Cint, 0xA82Cint)]
}

pub open spec fn diacritic_chunk_15() -> Seq<SRange> {
    seq![(0xA8C4int, 0xA8C4int), (0xA8E0int, 0xA8F1int), (0xA92Bint, 0xA92Eint), (0xA953int, 0xA953int), (0xA9B3int, 0xA9B3int), (0xA9C0int, 0xA9C0int), (0xA9E5int, 0xA9E5int), (0xAA7Bint, 0xAA7Dint)]
}

pub open spec fn diacritic_chunk_16() -> Seq<SRange> {
    seq![(0xAABFint, 0xAAC2int), (0xAAF6int, 0xAAF6int), (0xAB5Bint, 0xAB5Fint), (0xAB69int, 0xAB6Bint), (0xABECint, 0xABEDint), (0xFB1Eint, 0xFB1Eint), (0xFE20int, 0xFE2Fint), (0xFF3Eint, 0xFF3Eint)]
}

pub open spec fn diacritic_chunk_17() -> Seq<SRange> {
    seq![(0xFF40int, 0xFF40int), (0xFF70int, 0xFF70int), (0xFF9Eint, 0xFF9Fint), (0xFFE3int, 0xFFE3int), (0x102E0int, 0x102E0int), (0x10780int, 0x10785int), (0x10787int, 0x107B0int), (0x107B2int, 0x107BAint)]
}

pub open spec fn diacritic_chunk_18() -> Seq<SRange> {
    seq![(0x10A38int, 0x10A3Aint), (0x10A3Fint, 0x10A3Fint), (0x10AE5int, 0x10AE6int), (0x10D22int, 0x10D27int), (0x10D4Eint, 0x10D4Eint), (0x10D69int, 0x10D6Dint), (0x10EFDint, 0x10EFFint), (0x10F46int, 0x10F50int)]
}

pub open spec fn diacritic_chunk_19() -> Seq<SRange> {
    seq![(0x10F82int, 0x10F85int), (0x11046int, 0x11046int), (0x11070int, 0x11070int), (0x110B9int, 0x110BAint), (0x11133int, 0x11134int), (0x11173int, 0x11173int), (0x111C0int, 0x111C0int), (0x111CAint, 0x111CCint)]
}

pub open spec fn diacritic_chunk_20() -> Seq<SRange> {
    seq![(0x11235int, 0x11236int), (0x112E9int, 0x112EAint), (0x1133Bint, 0x1133Cint), (0x1134Dint, 0x1134Dint), (0x11366int, 0x1136Cint), (0x11370int, 0x11374int), (0x113CEint, 0x113D0int), (0x113D2int, 0x113D3int)]
}

pub open spec fn diacritic_chunk_21() -> Seq<SRange> {
    seq![(0x113E1int, 0x113E2int), (0x11442int, 0x11442int), (0x11446int, 0x11446int), (0x114C2int, 0x114C3int), (0x115BFint, 0x115C0int), (0x1163Fint, 0x1163Fint), (0x116B6int, 0x116B7int), (0x1172Bint, 0x1172Bint)]
}

pub open spec fn diacritic_chunk_22() -> Seq<SRange> {
    seq![(0x11839int, 0x1183Aint), (0x1193Dint, 0x1193Eint), (0x11943int, 0x11943int), (0x119E0int, 0x119E0int), (0x11A34int, 0x11A34int), (0x11A47int, 0x11A47int), (0x11A99int, 0x11A99int), (0x11C3Fint, 0x11C3Fint)]
}

pub open spec fn diacritic_chunk_23() -> Seq<SRange> {
    seq![(0x11D42int, 0x11D42int), (0x11D44int, 0x11D45int), (0x11D97int, 0x11D97int), (0x11F41int, 0x11F42int), (0x11F5Aint, 0x11F5Aint), (0x13447int, 0x13455int), (0x1612Fint, 0x1612Fint), (0x16AF0int, 0x16AF4int)]
}

pub open spec fn diacritic_chunk_24() -> Seq<SRange> {
    seq![(0x16B30int, 0x16B36int), (0x16D6Bint, 0x16D6Cint), (0x16F8Fint, 0x16F9Fint), (0x16FF0int, 0x16FF1int), (0x1AFF0int, 0x1AFF3int), (0x1AFF5int, 0x1AFFBint), (0x1AFFDint, 0x1AFFEint), (0x1CF00int, 0x1CF2Dint)]
}

pub open spec fn diacritic_chunk_25() -> Seq<SRange> {
    seq![(0x1CF30int, 0x1CF46int), (0x1D167int, 0x1D169int), (0x1D16Dint, 0x1D172int), (0x1D17Bint, 0x1D182int), (0x1D185int, 0x1D18Bint), (0x1D1AAint, 0x1D1ADint), (0x1E030int, 0x1E06Dint), (0x1E130int, 0x1E136int)]
}

pub open spec fn diacritic_chunk_26() -> Seq<SRange> {
    seq![(0x1E2AEint, 0x1E2AEint), (0x1E2ECint, 0x1E2EFint), (0x1E5EEint, 0x1E5EFint), (0x1E8D0int, 0x1E8D6int), (0x1E944int, 0x1E946int), (0x1E948int, 0x1E94Aint)]
}

pub open spec fn diacritic_block_0() -> Seq<SRange> {
    diacritic_chunk_0() + diacritic_chunk_1() + diacritic_chunk_2() + diacritic_chunk_3() + diacritic_chunk_4() + diacritic_chunk_5() + diacritic_chunk_6() + diacritic_chunk_7() + diacritic_chunk_8() + diacritic_chunk_9()
}

pub open spec fn diacritic_block_1() -> Seq<SRange> {
    diacritic_chunk_10() + diacritic_chunk_11() + diacritic_chunk_12() + diacritic_chunk_13() + diacritic_chunk_14() + diacritic_chunk_15() + diacritic_chunk_16() + diacritic_chunk_17() + diacritic_chunk_18() + diacritic_chunk_19()
}

pub open spec fn diacritic_block_2() -> Seq<SRange> {
    diacritic_chunk_20() + diacritic_chunk_21() + diacritic_chunk_22() + diacritic_chunk_23() + diacritic_chunk_24() + diacritic_chunk_25() + diacritic_chunk_26()
}

/// The ranges of the property Diacritic.
pub open spec fn diacritic_ranges() -> Seq<SRange> {
    diacritic_block_0() + diacritic_block_1() + diacritic_block_2()
}

proof fn lemma_diacritic_block_0()
    ensures
        canonical(diacritic_block_0()),
        diacritic_block_0().len() > 0,
        diacritic_block_0()[0] == diacritic_chunk_0()[0],
        diacritic_block_0().last() == diacritic_chunk_9().last(),
{
    reveal_with_fuel(canonical, 9);
    assert(canonical(diacritic_chunk_0()));
    assert(canonical(diacritic_chunk_1()));
    assert(canonical(diacritic_chunk_2()));
    assert(canonical(diacritic_chunk_3()));
    assert(canonical(diacritic_chunk_4()));
    assert(canonical(diacritic_chunk_5()));
    assert(canonical(diacritic_chunk_6()));
    assert(canonical(diacritic_chunk_7()));
    assert(canonical(diacritic_chunk_8()));
    assert(canonical(diacritic_chunk_9()));
    lemma_canonical_append(diacritic_chunk_0(), diacritic_chunk_1());
    lemma_canonical_append(diacritic_chunk_0() + diacritic_chunk_1(), diacritic_chunk_2());
    lemma_canonical_append(diacritic_chunk_0() + diacritic_chunk_1() + diacritic_chunk_2(), diacritic_chunk_3());
    lemma_canonical_append(diacritic_chunk_0() + diacritic_chunk_1() + diacritic_chunk_2() + diacritic_chunk_3(), diacritic_chunk_4());
    lemma_canonical_append(diacritic_chunk_0() + diacritic_chunk_1() + diacritic_chunk_2() + diacritic_chunk_3() + diacritic_chunk_4(), diacritic_chunk_5());
    lemma_canonical_append(diacritic_chunk_0() + diacritic_chunk_1() + diacritic_chunk_2() + diacritic_chunk_3() + diacritic_chunk_4() + diacritic_chunk_5(), diacritic_chunk_6());
    lemma_canonical_append(diacritic_chunk_0() + diacritic_chunk_1() + diacritic_chunk_2() + diacritic_chunk_3() + diacritic_chunk_4() + diacritic_chunk_5() + diacritic_chunk_6(), diacritic_chunk_7());
    lemma_canonical_append(diacritic_chunk_0() + diacritic_chunk_1() + diacritic_chunk_2() + diacritic_chunk_3() + diacritic_chunk_4() + diacritic_chunk_5() + diacritic_chunk_6() + diacritic_chunk_7(), diacritic_chunk_8());
    lemma_canonical_append(diacritic_chunk_0() + diacritic_chunk_1() + diacritic_chunk_2() + diacritic_chunk_3() + diacritic_chunk_4() + diacritic_chunk_5() + diacritic_chunk_6() + diacritic_chunk_7() + diacritic_chunk_8(), diacritic_chunk_9());
}

proof fn lemma_diacritic_block_1()
    ensures
        canonical(diacritic_block_1()),
        diacritic_block_1().len() > 0,
        diacritic_block_1()[0] == diacritic_chunk_10()[0],
        diacritic_block_1().last() == diacritic_chunk_19().last(),
{
    reveal_with_fuel(canonical, 9);
    assert(canonical(diacritic_chunk_10()));
    assert(canonical(diacritic_chunk_11()));
    assert(canonical(diacritic_chunk_12()));
    assert(canonical(diacritic_chunk_13()));
    assert(canonical(diacritic_chunk_14()));
    assert(canonical(diacritic_chunk_15()));
    assert(canonical(diacritic_chunk_16()));
    assert(canonical(diacritic_chunk_17()));
    assert(canonical(diacritic_chunk_18()));
    assert(canonical(diacritic_chunk_19()));
    lemma_canonical_append(diacritic_chunk_10(), diacritic_chunk_11());
    lemma_canonical_append(diacritic_chunk_10() + diacritic_chunk_11(), diacritic_chunk_12());
    lemma_canonical_append(diacritic_chunk_10() + diacritic_chunk_11() + diacritic_chunk_12(), diacritic_chunk_13());
    lemma_canonical_append(diacritic_chunk_10() + diacritic_chunk_11() + diacritic_chunk_12() + diacritic_chunk_13(), diacritic_chunk_14());
    lemma_canonical_append(diacritic_chunk_10() + diacritic_chunk_11() + diacritic_chunk_12() + diacritic_chunk_13() + diacritic_chunk_14(), diacritic_chunk_15());
    lemma_canonical_append(diacritic_chunk_10() + diacritic_chunk_11() + diacritic_chunk_12() + diacritic_chunk_13() + diacritic_chunk_14() + diacritic_chunk_15(), diacritic_chunk_16());
    lemma_canonical_append(diacritic_chunk_10() + diacritic_chunk_11() + diacritic_chunk_12() + diacritic_chunk_13() + diacritic_chunk_14() + diacritic_chunk_15() + diacritic_chunk_16(), diacritic_chunk_17());
    lemma_canonical_append(diacritic_chunk_10() + diacritic_chunk_11() + diacritic_chunk_12() + diacritic_chunk_13() + diacritic_chunk_14() + diacritic_chunk_15() + diacritic_chunk_16() + diacritic_chunk_17(), diacritic_chunk_18());
    lemma_canonical_append(diacritic_chunk_10() + diacritic_chunk_11() + diacritic_chunk_12() + diacritic_chunk_13() + diacritic_chunk_14() + diacritic_chunk_15() + diacritic_chunk_16() + diacritic_chunk_17() + diacritic_chunk_18(), diacritic_chunk_19());
}

proof fn lemma_diacritic_block_2()
    ensures
        canonical(diacritic_block_2()),
        diacritic_block_2().len() > 0,
        diacritic_block_2()[0] == diacritic_chunk_20()[0],
        diacritic_block_2().last() == diacritic_chunk_26().last(),
{
    reveal_with_fuel(canonical, 9);
    assert(canonical(diacritic_chunk_20()));
    assert(canonical(diacritic_chunk_21()));
    assert(canonical(diacritic_chunk_22()));
    assert(canonical(diacritic_chunk_23()));
    assert(canonical(diacritic_chunk_24()));
    assert(canonical(diacritic_chunk_25()));
    assert(canonical(diacritic_chunk_26()));
    lemma_canonical_append(diacritic_chunk_20(), diacritic_chunk_21());
    lemma_canonical_append(diacritic_chunk_20() + diacritic_chunk_21(), diacritic_chunk_22());
    lemma_canonical_append(diacritic_chunk_20() + diacritic_chunk_21() + diacritic_chunk_22(), diacritic_chunk_23());
    lemma_canonical_append(diacritic_chunk_20() + diacritic_chunk_21() + diacritic_chunk_22() + diacritic_chunk_23(), diacritic_chunk_24());
    lemma_canonical_append(diacritic_chunk_20() + diacritic_chunk_21() + diacritic_chunk_22() + diacritic_chunk_23() + diacritic_chunk_24(), diacritic_chunk_25());
    lemma_canonical_append(diacritic_chunk_20() + diacritic_chunk_21() + diacritic_chunk_22() + diacritic_chunk_23() + diacritic_chunk_24() + diacritic_chunk_25(), diacritic_chunk_26());
}

pub proof fn lemma_diacritic_canonical()
    ensures
        canonical(diacritic_ranges()),
{
    lemma_diacritic_block_0();
    lemma_diacritic_block_1();
    lemma_diacritic_block_2();
    lemma_canonical_append(diacritic_block_0(), diacritic_block_1());
    lemma_canonical_append(diacritic_block_0() + diacritic_block_1(), diacritic_block_2());
}

fn push_diacritic_chunk_0(v: &mut Vec<ClassUnicodeRange>)
    ensures
        rview(final(v)@) == rview(old(v)@) + diacritic_chunk_0(),
{
    let ghost o = rview(v@);
    push_range(v, '\u{5E}', '\u{5E}');
    push_range(v, '\u{60}', '\u{60}');
    push_range(v, '\u{A8}', '\u{A8}');
    push_range(v, '\u{AF}', '\u{AF}');
    push_range(v, '\u{B4}', '\u{B4}');
    push_range(v, '\u{B7}', '\u{B8}');
    push_range(v, '\u{2B0}', '\u{34E}');
    push_range(v, '\u{350}', '\u{357}');
    assert(rview(v@) =~= o + diacritic_chunk_0());
}

fn push_diacritic_chunk_1(v: &mut Vec<ClassUnicodeRange>)
    ensures
        rview(final(v)@) == rview(old(v)@) + diacritic_chunk_1(),
{
    let ghost o = rview(v@);
    push_range(v, '\u{35D}', '\u{362}');
    push_range(v, '\u{374}', '\u{375}');
    push_range(v, '\u{37A}', '\u{37A}');
    push_range(v, '\u{384}', '\u{385}');
    push_range(v, '\u{483}', '\u{487}');
    push_range(v, '\u{559}', '\u{559}');
    push_range(v, '\u{591}', '\u{5A1}');
    push_range(v, '\u{5A3}', '\u{5BD}');
    assert(rview(v@) =~= o + diacritic_chunk_1());
}

fn push_diacritic_chunk_2(v: &mut Vec<ClassUnicodeRange>)
    ensures
        rview(final(v)@) == rview(old(v)@) + diacritic_chunk_2(),
{
    let ghost o = rview(v@);
    push_range(v, '\u{5BF}', '\u{5BF}');
    push_range(v, '\u{5C1}', '\u{5C2}');
    push_range(v, '\u{5C4}', '\u{5C4}');
    push_range(v, '\u{64B}', '\u{652}');
    push_range(v, '\u{657}', '\u{658}');
    push_range(v, '\u{6DF}', '\u{6E0}');
    push_range(v, '\u{6E5}', '\u{6E6}');
    push_range(v, '\u{6EA}', '\u{6EC}');
    assert(rview(v@) =~= o + diacritic_chunk_2());
}

fn push_diacritic_chunk_3(v: &mut Vec<ClassUnicodeRange>)
    ensures
        rview(final(v)@) == rview(old(v)@) + diacritic_chunk_3(),
{
    let ghost o = rview(v@);
    push_range(v, '\u{730}', '\u{74A}');
    push_range(v, '\u{7A6}', '\u{7B0}');
    push_range(v, '\u{7EB}', '\u{7F5}');
    push_range(v, '\u{818}', '\u{819}');
    push_range(v, '\u{898}', '\u{89F}');
    push_range(v, '\u{8C9}', '\u{8D2}');
    push_range(v, '\u{8E3}', '\u{8FE}');
    push_range(v, '\u{93C}', '\u{93C}');
    assert(rview(v@) =~= o + diacritic_chunk_3());
}

fn push_diacritic_chunk_4(v: &mut Vec<ClassUnicodeRange>)
    ensures
        rview(final(v)@) == rview(old(v)@) + diacritic_chunk_4(),
{
    let ghost o = rview(v@);
    push_range(v, '\u{94D}', '\u{94D}');
    push_range(v, '\u{951}', '\u{954}');
    push_range(v, '\u{971}', '\u{971}');
    push_range(v, '\u{9BC}', '\u{9BC}');
    push_range(v, '\u{9CD}', '\u{9CD}');
    push_range(v, '\u{A3C}', '\u{A3C}');
    push_range(v, '\u{A4D}', '\u{A4D}');
    push_range(v, '\u{ABC}', '\u{ABC}');
    assert(rview(v@) =~= o + diacritic_chunk_4());
}

fn push_diacritic_chunk_5(v: &mut Vec<ClassUnicodeRange>)
    ensures
        rview(final(v)@) == rview(old(v)@) + diacritic_chunk_5(),
{
    let ghost o = rview(v@);
    push_range(v, '\u{ACD}', '\u{ACD}');
    push_range(v, '\u{AFD}', '\u{AFF}');
    push_range(v, '\u{B3C}', '\u{B3C}');
    push_range(v, '\u{B4D}', '\u{B4D}');
    push_range(v, '\u{B55}', '\u{B55}');
    push_range(v, '\u{BCD}', '\u{BCD}');
    push_range(v, '\u{C3C}', '\u{C3C}');
    push_range(v, '\u{C4D}', '\u{C4D}');
    assert(rview(v@) =~= o + diacritic_chunk_5());
}

fn push_diacritic_chunk_6(v: &mut Vec<ClassUnicodeRange>)
    ensures
        rview(final(v)@) == rview(old(v)@) + diacritic_chunk_6(),
{
    let ghost o = rview(v@);
    push_range(v, '\u{CBC}', '\u{CBC}');
    push_range(v, '\u{CCD}', '\u{CCD}');
    push_range(v, '\u{D3B}', '\u{D3C}');
    push_range(v, '\u{D4D}', '\u{D4D}');
    push_range(v, '\u{DCA}', '\u{DCA}');
    push_range(v, '\u{E3A}', '\u{E3A}');
    push_range(v, '\u{E47}', '\u{E4C}');
    push_range(v, '\u{E4E}', '\u{E4E}');
    assert(rview(v@) =~= o + diacritic_chunk_6());
}

fn push_diacritic_chunk_7(v: &mut Vec<ClassUnicodeRange>)
    ensures
        rview(final(v)@) == rview(old(v)@) + diacritic_chunk_7(),
{
    let ghost o = rview(v@);
    push_range(v, '\u{EBA}', '\u{EBA}');
    push_range(v, '\u{EC8}', '\u{ECC}');
    push_range(v, '\u{F18}', '\u{F19}');
    push_range(v, '\u{F35}', '\u{F35}');
    push_range(v, '\u{F37}', '\u{F37}');
    push_range(v, '\u{F39}', '\u{F39}');
    push_range(v, '\u{F3E}', '\u{F3F}');
    push_range(v, '\u{F82}', '\u{F84}');
    assert(rview(v@) =~= o + diacritic_chunk_7());
}

fn push_diacritic_chunk_8(v: &mut Vec<ClassUnicodeRange>)
    ensures
        rview(final(v)@) == rview(old(v)@) + diacritic_chunk_8(),
{
    let ghost o = rview(v@);
    push_range(v, '\u{F86}', '\u{F87}');
    push_range(v, '\u{FC6}', '\u{FC6}');
    push_range(v, '\u{1037}', '\u{1037}');
    push_range(v, '\u{1039}', '\u{103A}');
    push_range(v, '\u{1063}', '\u{1064}');
    push_range(v, '\u{1069}', '\u{106D}');
    push_range(v, '\u{1087}', '\u{108D}');
    push_range(v, '\u{108F}', '\u{108F}');
    assert(rview(v@) =~= o + diacritic_chunk_8());
}

fn push_diacritic_chunk_9(v: &mut Vec<ClassUnicodeRange>)
    ensures
        rview(final(v)@) == rview(old(v)@) + diacritic_chunk_9(),
{
    let ghost o = rview(v@);
    push_range(v, '\u{109A}', '\u{109B}');
    push_range(v, '\u{135D}', '\u{135F}');
    push_range(v, '\u{1714}', '\u{1715}');
    push_range(v, '\u{1734}', '\u{1734}');
    push_range(v, '\u{17C9}', '\u{17D3}');
    push_range(v, '\u{17DD}', '\u{17DD}');
    push_range(v, '\u{1939}', '\u{193B}');
    push_range(v, '\u{1A60}', '\u{1A60}');
    assert(rview(v@) =~= o + diacritic_chunk_9());
}

fn push_diacritic_chunk_10(v: &mut Vec<ClassUnicodeRange>)
    ensures
        rview(final(v)@) == rview(old(v)@) + diacritic_chunk_10(),
{
    let ghost o = rview(v@);
    push_range(v, '\u{1A75}', '\u{1A7C}');
    push_range(v, '\u{1A7F}', '\u{1A7F}');
    push_range(v, '\u{1AB0}', '\u{1ABE}');
    push_range(v, '\u{1AC1}', '\u{1ACB}');
    push_range(v, '\u{1B34}', '\u{1B34}');
    push_range(v, '\u{1B44}', '\u{1B44}');
    push_range(v, '\u{1B6B}', '\u{1B73}');
    push_range(v, '\u{1BAA}', '\u{1BAB}');
    assert(rview(v@) =~= o + diacritic_chunk_10());
}

fn push_diacritic_chunk_11(v: &mut Vec<ClassUnicodeRange>)
    ensures
        rview(final(v)@) == rview(old(v)@) + diacritic_chunk_11(),
{
    let ghost o = rview(v@);
    push_range(v, '\u{1BE6}', '\u{1BE6}');
    push_range(v, '\u{1BF2}', '\u{1BF3}');
    push_range(v, '\u{1C36}', '\u{1C37}');
    push_range(v, '\u{1C78}', '\u{1C7D}');
    push_range(v, '\u{1CD0}', '\u{1CE8}');
    push_range(v, '\u{1CED}', '\u{1CED}');
    push_range(v, '\u{1CF4}', '\u{1CF4}');
    push_range(v, '\u{1CF7}', '\u{1CF9}');
    assert(rview(v@) =~= o + diacritic_chunk_11());
}

fn push_diacritic_chunk_12(v: &mut Vec<ClassUnicodeRange>)
    ensures
        rview(final(v)@) == rview(old(v)@) + diacritic_chunk_12(),
{
    let ghost o = rview(v@);
    push_range(v, '\u{1D2C}', '\u{1D6A}');
    push_range(v, '\u{1DC4}', '\u{1DCF}');
    push_range(v, '\u{1DF5}', '\u{1DFF}');
    push_range(v, '\u{1FBD}', '\u{1FBD}');
    push_range(v, '\u{1FBF}', '\u{1FC1}');
    push_range(v, '\u{1FCD}', '\u{1FCF}');
    push_range(v, '\u{1FDD}', '\u{1FDF}');
    push_range(v, '\u{1FED}', '\u{1FEF}');
    assert(rview(v@) =~= o + diacritic_chunk_12());
}

fn push_diacritic_chunk_13(v: &mut Vec<ClassUnicodeRange>)
    ensures
        rview(final(v)@) == rview(old(v)@) + diacritic_chunk_13(),
{
    let ghost o = rview(v@);
    push_range(v, '\u{1FFD}', '\u{1FFE}');
    push_range(v, '\u{2CEF}', '\u{2CF1}');
    push_range(v, '\u{2E2F}', '\u{2E2F}');
    push_range(v, '\u{302A}', '\u{302F}');
    push_range(v, '\u{3099}', '\u{309C}');
    push_range(v, '\u{30FC}', '\u{30FC}');
    push_range(v, '\u{A66F}', '\u{A66F}');
    push_range(v, '\u{A67C}', '\u{A67D}');
    assert(rview(v@) =~= o + diacritic_chunk_13());
}

fn push_diacritic_chunk_14(v: &mut Vec<ClassUnicodeRange>)
    ensures
        rview(final(v)@) == rview(old(v)@) + diacritic_chunk_14(),
{
    let ghost o = rview(v@);
    push_range(v, '\u{A67F}', '\u{A67F}');
    push_range(v, '\u{A69C}', '\u{A69D}');
    push_range(v, '\u{A6F0}', '\u{A6F1}');
    push_range(v, '\u{A700}', '\u{A721}');
    push_range(v, '\u{A788}', '\u{A78A}');
    push_range(v, '\u{A7F8}', '\u{A7F9}');
    push_range(v, '\u{A806}', '\u{A806}');
    push_range(v, '\u{A82C}', '\u{A82C}');
    assert(rview(v@) =~= o + diacritic_chunk_14());
}

fn push_diacritic_chunk_15(v: &mut Vec<ClassUnicodeRange>)
    ensures
        rview(final(v)@) == rview(old(v)@) + diacritic_chunk_15(),
{
    let ghost o = rview(v@);
    push_range(v, '\u{A8C4}', '\u{A8C4}');
    push_range(v, '\u{A8E0}', '\u{A8F1}');
    push_range(v, '\u{A92B}', '\u{A92E}');
    push_range(v, '\u{A953}', '\u{A953}');
    push_range(v, '\u{A9B3}', '\u{A9B3}');
    push_range(v, '\u{A9C0}', '\u{A9C0}');
    push_range(v, '\u{A9E5}', '\u{A9E5}');
    push_range(v, '\u{AA7B}', '\u{AA7D}');
    assert(rview(v@) =~= o + diacritic_chunk_15());
}

fn push_diacritic_chunk_16(v: &mut Vec<ClassUnicodeRange>)
    ensures
        rview(final(v)@) == rview(old(v)@) + diacritic_chunk_16(),
{
    let ghost o = rview(v@);
    push_range(v, '\u{AABF}', '\u{AAC2}');
    push_range(v, '\u{AAF6}', '\u{AAF6}');
    push_range(v, '\u{AB5B}', '\u{AB5F}');
    push_range(v, '\u{AB69}', '\u{AB6B}');
    push_range(v, '\u{ABEC}', '\u{ABED}');
    push_range(v, '\u{FB1E}', '\u{FB1E}');
    push_range(v, '\u{FE20}', '\u{FE2F}');
    push_range(v, '\u{FF3E}', '\u{FF3E}');
    assert(rview(v@) =~= o + diacritic_chunk_16());
}

fn push_diacritic_chunk_17(v: &mut Vec<ClassUnicodeRange>)
    ensures
        rview(final(v)@) == rview(old(v)@) + diacritic_chunk_17(),
{
    let ghost o = rview(v@);
    push_range(v, '\u{FF40}', '\u{FF40}');
    push_range(v, '\u{FF70}', '\u{FF70}');
    push_range(v, '\u{FF9E}', '\u{FF9F}');
    push_range(v, '\u{FFE3}', '\u{FFE3}');
    push_range(v, '\u{102E0}', '\u{102E0}');
    push_range(v, '\u{10780}', '\u{10785}');
    push_range(v, '\u{10787}', '\u{107B0}');
    push_range(v, '\u{107B2}', '\u{107BA}');
    assert(rview(v@) =~= o + diacritic_chunk_17());
}

fn push_diacritic_chunk_18(v: &mut Vec<ClassUnicodeRange>)
    ensures
        rview(final(v)@) == rview(old(v)@) + diacritic_chunk_18(),
{
    let ghost o = rview(v@);
    push_range(v, '\u{10A38}', '\u{10A3A}');
    push_range(v, '\u{10A3F}', '\u{10A3F}');
    push_range(v, '\u{10AE5}', '\u{10AE6}');
    push_range(v, '\u{10D22}', '\u{10D27}');
    push_range(v, '\u{10D4E}', '\u{10D4E}');
    push_range(v, '\u{10D69}', '\u{10D6D}');
    push_range(v, '\u{10EFD}', '\u{10EFF}');
    push_range(v, '\u{10F46}', '\u{10F50}');
    assert(rview(v@) =~= o + diacritic_chunk_18());
}

fn push_diacritic_chunk_19(v: &mut Vec<ClassUnicodeRange>)
    ensures
        rview(final(v)@) == rview(old(v)@) + diacritic_chunk_19(),
{
    let ghost o = rview(v@);
    push_range(v, '\u{10F82}', '\u{10F85}');
    push_range(v, '\u{11046}', '\u{11046}');
    push_range(v, '\u{11070}', '\u{11070}');
    push_range(v, '\u{110B9}', '\u{110BA}');
    push_range(v, '\u{11133}', '\u{11134}');
    push_range(v, '\u{11173}', '\u{11173}');
    push_range(v, '\u{111C0}', '\u{111C0}');
    push_range(v, '\u{111CA}', '\u{111CC}');
    assert(rview(v@) =~= o + diacritic_chunk_19());
}

fn push_diacritic_chunk_20(v: &mut Vec<ClassUnicodeRange>)
    ensures
        rview(final(v)@) == rview(old(v)@) + diacritic_chunk_20(),
{
    let ghost o = rview(v@);
    push_range(v, '\u{11235}', '\u{11236}');
    push_range(v, '\u{112E9}', '\u{112EA}');
    push_range(v, '\u{1133B}', '\u{1133C}');
    push_range(v, '\u{1134D}', '\u{1134D}');
    push_range(v, '\u{11366}', '\u{1136C}');
    push_range(v, '\u{11370}', '\u{11374}');
    push_range(v, '\u{113CE}', '\u{113D0}');
    push_range(v, '\u{113D2}', '\u{113D3}');
    assert(rview(v@) =~= o + diacritic_chunk_20());
}

fn push_diacritic_chunk_21(v: &mut Vec<ClassUnicodeRange>)
    ensures
        rview(final(v)@) == rview(old(v)@) + diacritic_chunk_21(),
{
    let ghost o = rview(v@);
    push_range(v, '\u{113E1}', '\u{113E2}');
    push_range(v, '\u{11442}', '\u{11442}');
    push_range(v, '\u{11446}', '\u{11446}');
    push_range(v, '\u{114C2}', '\u{114C3}');
    push_range(v, '\u{115BF}', '\u{115C0}');
    push_range(v, '\u{1163F}', '\u{1163F}');
    push_range(v, '\u{116B6}', '\u{116B7}');
    push_range(v, '\u{1172B}', '\u{1172B}');
    assert(rview(v@) =~= o + diacritic_chunk_21());
}

fn push_diacritic_chunk_22(v: &mut Vec<ClassUnicodeRange>)
    ensures
        rview(final(v)@) == rview(old(v)@) + diacritic_chunk_22(),
{
    let ghost o = rview(v@);
    push_range(v, '\u{11839}', '\u{1183A}');
    push_range(v, '\u{1193D}', '\u{1193E}');
    push_range(v, '\u{11943}', '\u{11943}');
    push_range(v, '\u{119E0}', '\u{119E0}');
    push_range(v, '\u{11A34}', '\u{11A34}');
    push_range(v, '\u{11A47}', '\u{11A47}');
    push_range(v, '\u{11A99}', '\u{11A99}');
    push_range(v, '\u{11C3F}', '\u{11C3F}');
    assert(rview(v@) =~= o + diacritic_chunk_22());
}

fn push_diacritic_chunk_23(v: &mut Vec<ClassUnicodeRange>)
    ensures
        rview(final(v)@) == rview(old(v)@) + diacritic_chunk_23(),
{
    let ghost o = rview(v@);
    push_range(v, '\u{11D42}', '\u{11D42}');
    push_range(v, '\u{11D44}', '\u{11D45}');
    push_range(v, '\u{11D97}', '\u{11D97}');
    push_range(v, '\u{11F41}', '\u{11F42}');
    push_range(v, '\u{11F5A}', '\u{11F5A}');
    push_range(v, '\u{13447}', '\u{13455}');
    push_range(v, '\u{1612F}', '\u{1612F}');
    push_range(v, '\u{16AF0}', '\u{16AF4}');
    assert(rview(v@) =~= o + diacritic_chunk_23());
}

fn push_diacritic_chunk_24(v: &mut Vec<ClassUnicodeRange>)
    ensures
        rview(final(v)@) == rview(old(v)@) + diacritic_chunk_24(),
{
    let ghost o = rview(v@);
    push_range(v, '\u{16B30}', '\u{16B36}');
    push_range(v, '\u{16D6B}', '\u{16D6C}');
    push_range(v, '\u{16F8F}', '\u{16F9F}');
    push_range(v, '\u{16FF0}', '\u{16FF1}');
    push_range(v, '\u{1AFF0}', '\u{1AFF3}');
    push_range(v, '\u{1AFF5}', '\u{1AFFB}');
    push_range(v, '\u{1AFFD}', '\u{1AFFE}');
    push_range(v, '\u{1CF00}', '\u{1CF2D}');
    assert(rview(v@) =~= o + diacritic_chunk_24());
}

fn push_diacritic_chunk_25(v: &mut Vec<ClassUnicodeRange>)
    ensures
        rview(final(v)@) == rview(old(v)@) + diacritic_chunk_25(),
{
    let ghost o = rview(v@);
    push_range(v, '\u{1CF30}', '\u{1CF46}');
    push_range(v, '\u{1D167}', '\u{1D169}');
    push_range(v, '\u{1D16D}', '\u{1D172}');
    push_range(v, '\u{1D17B}', '\u{1D182}');
    push_range(v, '\u{1D185}', '\u{1D18B}');
    push_range(v, '\u{1D1AA}', '\u{1D1AD}');
    push_range(v, '\u{1E030}', '\u{1E06D}');
    push_range(v, '\u{1E130}', '\u{1E136}');
    assert(rview(v@) =~= o + diacritic_chunk_25());
}

fn push_diacritic_chunk_26(v: &mut Vec<ClassUnicodeRange>)
    ensures
        rview(final(v)@) == rview(old(v)@) + diacritic_chunk_26(),
{
    let ghost o = rview(v@);
    push_range(v, '\u{1E2AE}', '\u{1E2AE}');
    push_range(v, '\u{1E2EC}', '\u{1E2EF}');
    push_range(v, '\u{1E5EE}', '\u{1E5EF}');
    push_range(v, '\u{1E8D0}', '\u{1E8D6}');
    push_range(v, '\u{1E944}', '\u{1E946}');
    push_range(v, '\u{1E948}', '\u{1E94A}');
    assert(rview(v@) =~= o + diacritic_chunk_26());
}

fn push_diacritic_block_0(v: &mut Vec<ClassUnicodeRange>)
    ensures
        rview(final(v)@) == rview(old(v)@) + diacritic_block_0(),
{
    let ghost o = rview(v@);
    push_diacritic_chunk_0(v);
    assert(rview(v@) =~= o + (diacritic_chunk_0()));
    push_diacritic_chunk_1(v);
    assert(rview(v@) =~= o + (diacritic_chunk_0() + diacritic_chunk_1()));
    push_diacritic_chunk_2(v);
    assert(rview(v@) =~= o + (diacritic_chunk_0() + diacritic_chunk_1() + diacritic_chunk_2()));
    push_diacritic_chunk_3(v);
    assert(rview(v@) =~= o + (diacritic_chunk_0() + diacritic_chunk_1() + diacritic_chunk_2() + diacritic_chunk_3()));
    push_diacritic_chunk_4(v);
    assert(rview(v@) =~= o + (diacritic_chunk_0() + diacritic_chunk_1() + diacritic_chunk_2() + diacritic_chunk_3() + diacritic_chunk_4()));
    push_diacritic_chunk_5(v);
    assert(rview(v@) =~= o + (diacritic_chunk_0() + diacritic_chunk_1() + diacritic_chunk_2() + diacritic_chunk_3() + diacritic_chunk_4() + diacritic_chunk_5()));
    push_diacritic_chunk_6(v);
    assert(rview(v@) =~= o + (diacritic_chunk_0() + diacritic_chunk_1() + diacritic_chunk_2() + diacritic_chunk_3() + diacritic_chunk_4() + diacritic_chunk_5() + diacritic_chunk_6()));
    push_diacritic_chunk_7(v);
    assert(rview(v@) =~= o + (diacritic_chunk_0() + diacritic_chunk_1() + diacritic_chunk_2() + diacritic_chunk_3() + diacritic_chunk_4() + diacritic_chunk_5() + diacritic_chunk_6() + diacritic_chunk_7()));
    push_diacritic_chunk_8(v);
    assert(rview(v@) =~= o + (diacritic_chunk_0() + diacritic_chunk_1() + diacritic_chunk_2() + diacritic_chunk_3() + diacritic_chunk_4() + diacritic_chunk_5() + diacritic_chunk_6() + diacritic_chunk_7() + diacritic_chunk_8()));
    push_diacritic_chunk_9(v);
    assert(rview(v@) =~= o + (diacritic_chunk_0() + diacritic_chunk_1() + diacritic_chunk_2() + diacritic_chunk_3() + diacritic_chunk_4() + diacritic_chunk_5() + diacritic_chunk_6() + diacritic_chunk_7() + diacritic_chunk_8() + diacritic_chunk_9()));
}

fn push_diacritic_block_1(v: &mut Vec<ClassUnicodeRange>)
    ensures
        rview(final(v)@) == rview(old(v)@) + diacritic_block_1(),
{
    let ghost o = rview(v@);
    push_diacritic_chunk_10(v);
    assert(rview(v@) =~= o + (diacritic_chunk_10()));
    push_diacritic_chunk_11(v);
    assert(rview(v@) =~= o + (diacritic_chunk_10() + diacritic_chunk_11()));
    push_diacritic_chunk_12(v);
    assert(rview(v@) =~= o + (diacritic_chunk_10() + diacritic_chunk_11() + diacritic_chunk_12()));
    push_diacritic_chunk_13(v);
    assert(rview(v@) =~= o + (diacritic_chunk_10() + diacritic_chunk_11() + diacritic_chunk_12() + diacritic_chunk_13()));
    push_diacritic_chunk_14(v);
    assert(rview(v@) =~= o + (diacritic_chunk_10() + diacritic_chunk_11() + diacritic_chunk_12() + diacritic_chunk_13() + diacritic_chunk_14()));
    push_diacritic_chunk_15(v);
    assert(rview(v@) =~= o + (diacritic_chunk_10() + diacritic_chunk_11() + diacritic_chunk_12() + diacritic_chunk_13() + diacritic_chunk_14() + diacritic_chunk_15()));
    push_diacritic_chunk_16(v);
    assert(rview(v@) =~= o + (diacritic_chunk_10() + diacritic_chunk_11() + diacritic_chunk_12() + diacritic_chunk_13() + diacritic_chunk_14() + diacritic_chunk_15() + diacritic_chunk_16()));
    push_diacritic_chunk_17(v);
    assert(rview(v@) =~= o + (diacritic_chunk_10() + diacritic_chunk_11() + diacritic_chunk_12() + diacritic_chunk_13() + diacritic_chunk_14() + diacritic_chunk_15() + diacritic_chunk_16() + diacritic_chunk_17()));
    push_diacritic_chunk_18(v);
    assert(rview(v@) =~= o + (diacritic_chunk_10() + diacritic_chunk_11() + diacritic_chunk_12() + diacritic_chunk_13() + diacritic_chunk_14() + diacritic_chunk_15() + diacritic_chunk_16() + diacritic_chunk_17() + diacritic_chunk_18()));
    push_diacritic_chunk_19(v);
    assert(rview(v@) =~= o + (diacritic_chunk_10() + diacritic_chunk_11() + diacritic_chunk_12() + diacritic_chunk_13() + diacritic_chunk_14() + diacritic_chunk_15() + diacritic_chunk_16() + diacritic_chunk_17() + diacritic_chunk_18() + diacritic_chunk_19()));
}

fn push_diacritic_block_2(v: &mut Vec<ClassUnicodeRange>)
    ensures
        rview(final(v)@) == rview(old(v)@) + diacritic_block_2(),
{
    let ghost o = rview(v@);
    push_diacritic_chunk_20(v);
    assert(rview(v@) =~= o + (diacritic_chunk_20()));
    push_diacritic_chunk_21(v);
    assert(rview(v@) =~= o + (diacritic_chunk_20() + diacritic_chunk_21()));
    push_diacritic_chunk_22(v);
    assert(rview(v@) =~= o + (diacritic_chunk_20() + diacritic_chunk_21() + diacritic_chunk_22()));
    push_diacritic_chunk_23(v);
    assert(rview(v@) =~= o + (diacritic_chunk_20() + diacritic_chunk_21() + diacritic_chunk_22() + diacritic_chunk_23()));
    push_diacritic_chunk_24(v);
    assert(rview(v@) =~= o + (diacritic_chunk_20() + diacritic_chunk_21() + diacritic_chunk_22() + diacritic_chunk_23() + diacritic_chunk_24()));
    push_diacritic_chunk_25(v);
    assert(rview(v@) =~= o + (diacritic_chunk_20() + diacritic_chunk_21() + diacritic_chunk_22() + diacritic_chunk_23() + diacritic_chunk_24() + diacritic_chunk_25()));
    push_diacritic_chunk_26(v);
    assert(rview(v@) =~= o + (diacritic_chunk_20() + diacritic_chunk_21() + diacritic_chunk_22() + diacritic_chunk_23() + diacritic_chunk_24() + diacritic_chunk_25() + diacritic_chunk_26()));
}

pub fn diacritic_class() -> (v: Vec<ClassUnicodeRange>)
    ensures
        rview(v@) == diacritic_ranges(),
{
    let mut v: Vec<ClassUnicodeRange> = Vec::new();
    assert(rview(v@) =~= Seq::<SRange>::empty());
    push_diacritic_block_0(&mut v);
    assert(rview(v@) =~= diacritic_block_0());
    push_diacritic_block_1(&mut v);
    assert(rview(v@) =~= diacritic_block_0() + diacritic_block_1());
    push_diacritic_block_2(&mut v);
    assert(rview(v@) =~= diacritic_block_0() + diacritic_block_1() + diacritic_block_2());
    v
}

pub open spec fn emoji_chunk_0() -> Seq<SRange> {
    seq![(0x23int, 0x23int), (0x2Aint, 0x2Aint), (0x30int, 0x39int), (0xA9int, 0xA9int), (0xAEint, 0xAEint), (0x203Cint, 0x203Cint), (0x2049int, 0x2049int), (0x2122int, 0x2122int)]
}

pub open spec fn emoji_chunk_1() -> Seq<SRange> {
    seq![(0x2139int, 0x2139int), (0x2194int, 0x2199int), (0x21A9int, 0x21AAint), (0x231Aint, 0x231Bint), (0x2328int, 0x2328int), (0x23CFint, 0x23CFint), (0x23E9int, 0x23F3int), (0x23F8int, 0x23FAint)]
}

pub open spec fn emoji_chunk_2() -> Seq<SRange> {
    seq![(0x24C2int, 0x24C2int), (0x25AAint, 0x25ABint), (0x25B6int, 0x25B6int), (0x25C0int, 0x25C0int), (0x25FBint, 0x25FEint), (0x2600int, 0x2604int), (0x260Eint, 0x260Eint), (0x2611int, 0x2611int)]
}

pub open spec fn emoji_chunk_3() -> Seq<SRange> {
    seq![(0x2614int, 0x2615int), (0x2618int, 0x2618int), (0x261Dint, 0x261Dint), (0x2620int, 0x2620int), (0x2622int, 0x2623int), (0x2626int, 0x2626int), (0x262Aint, 0x262Aint), (0x262Eint, 0x262Fint)]
}

pub open spec fn emoji_chunk_4() -> Seq<SRange> {
    seq![(0x2638int, 0x263Aint), (0x2640int, 0x2640int), (0x2642int, 0x2642int), (0x2648int, 0x2653int), (0x265Fint, 0x2660int), (0x2663int, 0x2663int), (0x2665int, 0x2666int), (0x2668int, 0x2668int)]
}

pub open spec fn emoji_chunk_5() -> Seq<SRange> {
    seq![(0x267Bint, 0x267Bint), (0x267Eint, 0x267Fint), (0x2692int, 0x2697int), (0x2699int, 0x2699int), (0x269Bint, 0x269Cint), (0x26A0int, 0x26A1int), (0x26A7int, 0x26A7int), (0x26AAint, 0x26ABint)]
}

pub open spec fn emoji_chunk_6() -> Seq<SRange> {
    seq![(0x26B0int, 0x26B1int), (0x26BDint, 0x26BEint), (0x26C4int, 0x26C5int), (0x26C8int, 0x26C8int), (0x26CEint, 0x26CFint), (0x26D1int, 0x26D1int), (0x26D3int, 0x26D4int), (0x26E9int, 0x26EAint)]
}

pub open spec fn emoji_chunk_7() -> Seq<SRange> {
    seq![(0x26F0int, 0x26F5int), (0x26F7int, 0x26FAint), (0x26FDint, 0x26FDint), (0x2702int, 0x2702int), (0x2705int, 0x2705int), (0x2708int, 0x270Dint), (0x270Fint, 0x270Fint), (0x2712int, 0x2712int)]
}

pub open spec fn emoji_chunk_8() -> Seq<SRange> {
    seq![(0x2714int, 0x2714int), (0x2716int, 0x2716int), (0x271Dint, 0x271Dint), (0x2721int, 0x2721int), (0x2728int, 0x2728int), (0x2733int, 0x2734int), (0x2744int, 0x2744int), (0x2747int, 0x2747int)]
}

pub open spec fn emoji_chunk_9() -> Seq<SRange> {
    seq![(0x274Cint, 0x274Cint), (0x274Eint, 0x274Eint), (0x2753int, 0x2755int), (0x2757int, 0x2757int), (0x2763int, 0x2764int), (0x2795int, 0x2797int), (0x27A1int, 0x27A1int), (0x27B0int, 0x27B0int)]
}

pub open spec fn emoji_chunk_10() -> Seq<SRange> {
    seq![(0x27BFint, 0x27BFint), (0x2934int, 0x2935int), (0x2B05int, 0x2B07int), (0x2B1Bint, 0x2B1Cint), (0x2B50int, 0x2B50int), (0x2B55int, 0x2B55int), (0x3030int, 0x3030int), (0x303Dint, 0x303Dint)]
}

pub open spec fn emoji_chunk_11() -> Seq<SRange> {
    seq![(0x3297int, 0x3297int), (0x3299int, 0x3299int), (0x1F004int, 0x1F004int), (0x1F0CFint, 0x1F0CFint), (0x1F170int, 0x1F171int), (0x1F17Eint, 0x1F17Fint), (0x1F18Eint, 0x1F18Eint), (0x1F191int, 0x1F19Aint)]
}

pub open spec fn emoji_chunk_12() -> Seq<SRange> {
    seq![(0x1F1E6int, 0x1F1FFint), (0x1F201int, 0x1F202int), (0x1F21Aint, 0x1F21Aint), (0x1F22Fint, 0x1F22Fint), (0x1F232int, 0x1F23Aint), (0x1F250int, 0x1F251int), (0x1F300int, 0x1F321int), (0x1F324int, 0x1F393int)]
}

pub open spec fn emoji_chunk_13() -> Seq<SRange> {
    seq![(0x1F396int, 0x1F397int), (0x1F399int, 0x1F39Bint), (0x1F39Eint, 0x1F3F0int), (0x1F3F3int, 0x1F3F5int), (0x1F3F7int, 0x1F4FDint), (0x1F4FFint, 0x1F53Dint), (0x1F549int, 0x1F54Eint), (0x1F550int, 0x1F567int)]
}

pub open spec fn emoji_chunk_14() -> Seq<SRange> {
    seq![(0x1F56Fint, 0x1F570int), (0x1F573int, 0x1F57Aint), (0x1F587int, 0x1F587int), (0x1F58Aint, 0x1F58Dint), (0x1F590int, 0x1F590int), (0x1F595int, 0x1F596int), (0x1F5A4int, 0x1F5A5int), (0x1F5A8int, 0x1F5A8int)]
}

pub open spec fn emoji_chunk_15() -> Seq<SRange> {
    seq![(0x1F5B1int, 0x1F5B2int), (0x1F5BCint, 0x1F5BCint), (0x1F5C2int, 0x1F5C4int), (0x1F5D1int, 0x1F5D3int), (0x1F5DCint, 0x1F5DEint), (0x1F5E1int, 0x1F5E1int), (0x1F5E3int, 0x1F5E3int), (0x1F5E8int, 0x1F5E8int)]
}

pub open spec fn emoji_chunk_16() -> Seq<SRange> {
    seq![(0x1F5EFint, 0x1F5EFint), (0x1F5F3int, 0x1F5F3int), (0x1F5FAint, 0x1F64Fint), (0x1F680int, 0x1F6C5int), (0x1F6CBint, 0x1F6D2int), (0x1F6D5int, 0x1F6D7int), (0x1F6DCint, 0x1F6E5int), (0x1F6E9int, 0x1F6E9int)]
}

pub open spec fn emoji_chunk_17() -> Seq<SRange> {
    seq![(0x1F6EBint, 0x1F6ECint), (0x1F6F0int, 0x1F6F0int), (0x1F6F3int, 0x1F6FCint), (0x1F7E0int, 0x1F7EBint), (0x1F7F0int, 0x1F7F0int), (0x1F90Cint, 0x1F93Aint), (0x1F93Cint, 0x1F945int), (0x1F947int, 0x1F9FFint)]
}

pub open spec fn emoji_chunk_18() -> Seq<SRange> {
    seq![(0x1FA70int, 0x1FA7Cint), (0x1FA80int, 0x1FA89int), (0x1FA8Fint, 0x1FAC6int), (0x1FACEint, 0x1FADCint), (0x1FADFint, 0x1FAE9int), (0x1FAF0int, 0x1FAF8int)]
}

pub open spec fn emoji_block_0() -> Seq<SRange> {
    emoji_chunk_0() + emoji_chunk_1() + emoji_chunk_2() + emoji_chunk_3() + emoji_chunk_4() + emoji_chunk_5() + emoji_chunk_6() + emoji_chunk_7() + emoji_chunk_8() + emoji_chunk_9()
}

pub open spec fn emoji_block_1() -> Seq<SRange> {
    emoji_chunk_10() + emoji_chunk_11() + emoji_chunk_12() + emoji_chunk_13() + emoji_chunk_14() + emoji_chunk_15() + emoji_chunk_16() + emoji_chunk_17() + emoji_chunk_18()
}

/// The ranges of the property Emoji.
pub open spec fn emoji_ranges() -> Seq<SRange> {
    emoji_block_0() + emoji_block_1()
}

proof fn lemma_emoji_block_0()
    ensures
        canonical(emoji_block_0()),
        emoji_block_0().len() > 0,
        emoji_block_0()[0] == emoji_chunk_0()[0],
        emoji_block_0().last() == emoji_chunk_9().last(),
{
    reveal_with_fuel(canonical, 9);
    assert(canonical(emoji_chunk_0()));
    assert(canonical(emoji_chunk_1()));
    assert(canonical(emoji_chunk_2()));
    assert(canonical(emoji_chunk_3()));
    assert(canonical(emoji_chunk_4()));
    assert(canonical(emoji_chunk_5()));
    assert(canonical(emoji_chunk_6()));
    assert(canonical(emoji_chunk_7()));
    assert(canonical(emoji_chunk_8()));
    assert(canonical(emoji_chunk_9()));
    lemma_canonical_append(emoji_chunk_0(), emoji_chunk_1());
    lemma_canonical_append(emoji_chunk_0() + emoji_chunk_1(), emoji_chunk_2());
    lemma_canonical_append(emoji_chunk_0() + emoji_chunk_1() + emoji_chunk_2(), emoji_chunk_3());
    lemma_canonical_append(emoji_chunk_0() + emoji_chunk_1() + emoji_chunk_2() + emoji_chunk_3(), emoji_chunk_4());
    lemma_canonical_append(emoji_chunk_0() + emoji_chunk_1() + emoji_chunk_2() + emoji_chunk_3() + emoji_chunk_4(), emoji_chunk_5());
    lemma_canonical_append(emoji_chunk_0() + emoji_chunk_1() + emoji_chunk_2() + emoji_chunk_3() + emoji_chunk_4() + emoji_chunk_5(), emoji_chunk_6());
    lemma_canonical_append(emoji_chunk_0() + emoji_chunk_1() + emoji_chunk_2() + emoji_chunk_3() + emoji_chunk_4() + emoji_chunk_5() + emoji_chunk_6(), emoji_chunk_7());
    lemma_canonical_append(emoji_chunk_0() + emoji_chunk_1() + emoji_chunk_2() + emoji_chunk_3() + emoji_chunk_4() + emoji_chunk_5() + emoji_chunk_6() + emoji_chunk_7(), emoji_chunk_8());
    lemma_canonical_append(emoji_chunk_0() + emoji_chunk_1() + emoji_chunk_2() + emoji_chunk_3() + emoji_chunk_4() + emoji_chunk_5() + emoji_chunk_6() + emoji_chunk_7() + emoji_chunk_8(), emoji_chunk_9());
}

proof fn lemma_emoji_block_1()
    ensures
        canonical(emoji_block_1()),
        emoji_block_1().len() > 0,
        emoji_block_1()[0] == emoji_chunk_10()[0],
        emoji_block_1().last() == emoji_chunk_18().last(),
{
    reveal_with_fuel(canonical, 9);
    assert(canonical(emoji_chunk_10()));
    assert(canonical(emoji_chunk_11()));
    assert(canonical(emoji_chunk_12()));
    assert(canonical(emoji_chunk_13()));
    assert(canonical(emoji_chunk_14()));
    assert(canonical(emoji_chunk_15()));
    assert(canonical(emoji_chunk_16()));
    assert(canonical(emoji_chunk_17()));
    assert(canonical(emoji_chunk_18()));
    lemma_canonical_append(emoji_chunk_10(), emoji_chunk_11());
    lemma_canonical_append(emoji_chunk_10() + emoji_chunk_11(), emoji_chunk_12());
    lemma_canonical_append(emoji_chunk_10() + emoji_chunk_11() + emoji_chunk_12(), emoji_chunk_13());
    lemma_canonical_append(emoji_chunk_10() + emoji_chunk_11() + emoji_chunk_12() + emoji_chunk_13(), emoji_chunk_14());
    lemma_canonical_append(emoji_chunk_10() + emoji_chunk_11() + emoji_chunk_12() + emoji_chunk_13() + emoji_chunk_14(), emoji_chunk_15());
    lemma_canonical_append(emoji_chunk_10() + emoji_chunk_11() + emoji_chunk_12() + emoji_chunk_13() + emoji_chunk_14() + emoji_chunk_15(), emoji_chunk_16());
    lemma_canonical_append(emoji_chunk_10() + emoji_chunk_11() + emoji_chunk_12() + emoji_chunk_13() + emoji_chunk_14() + emoji_chunk_15() + emoji_chunk_16(), emoji_chunk_17());
    lemma_canonical_append(emoji_chunk_10() + emoji_chunk_11() + emoji_chunk_12() + emoji_chunk_13() + emoji_chunk_14() + emoji_chunk_15() + emoji_chunk_16() + emoji_chunk_17(), emoji_chunk_18());
}

pub proof fn lemma_emoji_canonical()
    ensures
        canonical(emoji_ranges()),
{
    lemma_emoji_block_0();
    lemma_emoji_block_1();
    lemma_canonical_append(emoji_block_0(), emoji_block_1());
}

fn push_emoji_chunk_0(v: &mut Vec<ClassUnicodeRange>)
    ensures
        rview(final(v)@) == rview(old(v)@) + emoji_chunk_0(),
{
    let ghost o = rview(v@);
    push_range(v, '\u{23}', '\u{23}');
    push_range(v, '\u{2A}', '\u{2A}');
    push_range(v, '\u{30}', '\u{39}');
    push_range(v, '\u{A9}', '\u{A9}');
    push_range(v, '\u{AE}', '\u{AE}');
    push_range(v, '\u{203C}', '\u{203C}');
    push_range(v, '\u{2049}', '\u{2049}');
    push_range(v, '\u{2122}', '\u{2122}');
    assert(rview(v@) =~= o + emoji_chunk_0());
}

fn push_emoji_chunk_1(v: &mut Vec<ClassUnicodeRange>)
    ensures
        rview(final(v)@) == rview(old(v)@) + emoji_chunk_1(),
{
    let ghost o = rview(v@);
    push_range(v, '\u{2139}', '\u{2139}');
    push_range(v, '\u{2194}', '\u{2199}');
    push_range(v, '\u{21A9}', '\u{21AA}');
    push_range(v, '\u{231A}', '\u{231B}');
    push_range(v, '\u{2328}', '\u{2328}');
    push_range(v, '\u{23CF}', '\u{23CF}');
    push_range(v, '\u{23E9}', '\u{23F3}');
    push_range(v, '\u{23F8}', '\u{23FA}');
    assert(rview(v@) =~= o + emoji_chunk_1());
}

fn push_emoji_chunk_2(v: &mut Vec<ClassUnicodeRange>)
    ensures
        rview(final(v)@) == rview(old(v)@) + emoji_chunk_2(),
{
    let ghost o = rview(v@);
    push_range(v, '\u{24C2}', '\u{24C2}');
    push_range(v, '\u{25AA}', '\u{25AB}');
    push_range(v, '\u{25B6}', '\u{25B6}');
    push_range(v, '\u{25C0}', '\u{25C0}');
    push_range(v, '\u{25FB}', '\u{25FE}');
    push_range(v, '\u{2600}', '\u{2604}');
    push_range(v, '\u{260E}', '\u{260E}');
    push_range(v, '\u{2611}', '\u{2611}');
    assert(rview(v@) =~= o + emoji_chunk_2());
}

fn push_emoji_chunk_3(v: &mut Vec<ClassUnicodeRange>)
    ensures
        rview(final(v)@) == rview(old(v)@) + emoji_chunk_3(),
{
    let ghost o = rview(v@);
    push_range(v, '\u{2614}', '\u{2615}');
    push_range(v, '\u{2618}', '\u{2618}');
    push_range(v, '\u{261D}', '\u{261D}');
    push_range(v, '\u{2620}', '\u{2620}');
    push_range(v, '\u{2622}', '\u{2623}');
    push_range(v, '\u{2626}', '\u{2626}');
    push_range(v, '\u{262A}', '\u{262A}');
    push_range(v, '\u{262E}', '\u{262F}');
    assert(rview(v@) =~= o + emoji_chunk_3());
}

fn push_emoji_chunk_4(v: &mut Vec<ClassUnicodeRange>)
    ensures
        rview(final(v)@) == rview(old(v)@) + emoji_chunk_4(),
{
    let ghost o = rview(v@);
    push_range(v, '\u{2638}', '\u{263A}');
    push_range(v, '\u{2640}', '\u{2640}');
    push_range(v, '\u{2642}', '\u{2642}');
    push_range(v, '\u{2648}', '\u{2653}');
    push_range(v, '\u{265F}', '\u{2660}');
    push_range(v, '\u{2663}', '\u{2663}');
    push_range(v, '\u{2665}', '\u{2666}');
    push_range(v, '\u{2668}', '\u{2668}');
    assert(rview(v@) =~= o + emoji_chunk_4());
}

fn push_emoji_chunk_5(v: &mut Vec<ClassUnicodeRange>)
    ensures
        rview(final(v)@) == rview(old(v)@) + emoji_chunk_5(),
{
    let ghost o = rview(v@);
    push_range(v, '\u{267B}', '\u{267B}');
    push_range(v, '\u{267E}', '\u{267F}');
    push_range(v, '\u{2692}', '\u{2697}');
    push_range(v, '\u{2699}', '\u{2699}');
    push_range(v, '\u{269B}', '\u{269C}');
    push_range(v, '\u{26A0}', '\u{26A1}');
    push_range(v, '\u{26A7}', '\u{26A7}');
    push_range(v, '\u{26AA}', '\u{26AB}');
    assert(rview(v@) =~= o + emoji_chunk_5());
}

fn push_emoji_chunk_6(v: &mut Vec<ClassUnicodeRange>)
    ensures
        rview(final(v)@) == rview(old(v)@) + emoji_chunk_6(),
{
    let ghost o = rview(v@);
    push_range(v, '\u{26B0}', '\u{26B1}');
    push_range(v, '\u{26BD}', '\u{26BE}');
    push_range(v, '\u{26C4}', '\u{26C5}');
    push_range(v, '\u{26C8}', '\u{26C8}');
    push_range(v, '\u{26CE}', '\u{26CF}');
    push_range(v, '\u{26D1}', '\u{26D1}');
    push_range(v, '\u{26D3}', '\u{26D4}');
    push_range(v, '\u{26E9}', '\u{26EA}');
    assert(rview(v@) =~= o + emoji_chunk_6());
}

fn push_emoji_chunk_7(v: &mut Vec<ClassUnicodeRange>)
    ensures
        rview(final(v)@) == rview(old(v)@) + emoji_chunk_7(),
{
    let ghost o = rview(v@);
    push_range(v, '\u{26F0}', '\u{26F5}');
    push_range(v, '\u{26F7}', '\u{26FA}');
    push_range(v, '\u{26FD}', '\u{26FD}');
    push_range(v, '\u{2702}', '\u{2702}');
    push_range(v, '\u{2705}', '\u{2705}');
    push_range(v, '\u{2708}', '\u{270D}');
    push_range(v, '\u{270F}', '\u{270F}');
    push_range(v, '\u{2712}', '\u{2712}');
    assert(rview(v@) =~= o + emoji_chunk_7());
}

fn push_emoji_chunk_8(v: &mut Vec<ClassUnicodeRange>)
    ensures
        rview(final(v)@) == rview(old(v)@) + emoji_chunk_8(),
{
    let ghost o = rview(v@);
    push_range(v, '\u{2714}', '\u{2714}');
    push_range(v, '\u{2716}', '\u{2716}');
    push_range(v, '\u{271D}', '\u{271D}');
    push_range(v, '\u{2721}', '\u{2721}');
    push_range(v, '\u{2728}', '\u{2728}');
    push_range(v, '\u{2733}', '\u{2734}');
    push_range(v, '\u{2744}', '\u{2744}');
    push_range(v, '\u{2747}', '\u{2747}');
    assert(rview(v@) =~= o + emoji_chunk_8());
}

fn push_emoji_chunk_9(v: &mut Vec<ClassUnicodeRange>)
    ensures
        rview(final(v)@) == rview(old(v)@) + emoji_chunk_9(),
{
    let ghost o = rview(v@);
    push_range(v, '\u{274C}', '\u{274C}');
    push_range(v, '\u{274E}', '\u{274E}');
    push_range(v, '\u{2753}', '\u{2755}');
    push_range(v, '\u{2757}', '\u{2757}');
    push_range(v, '\u{2763}', '\u{2764}');
    push_range(v, '\u{2795}', '\u{2797}');
    push_range(v, '\u{27A1}', '\u{27A1}');
    push_range(v, '\u{27B0}', '\u{27B0}');
    assert(rview(v@) =~= o + emoji_chunk_9());
}

fn push_emoji_chunk_10(v: &mut Vec<ClassUnicodeRange>)
    ensures
        rview(final(v)@) == rview(old(v)@) + emoji_chunk_10(),
{
    let ghost o = rview(v@);
    push_range(v, '\u{27BF}', '\u{27BF}');
    push_range(v, '\u{2934}', '\u{2935}');
    push_range(v, '\u{2B05}', '\u{2B07}');
    push_range(v, '\u{2B1B}', '\u{2B1C}');
    push_range(v, '\u{2B50}', '\u{2B50}');
    push_range(v, '\u{2B55}', '\u{2B55}');
    push_range(v, '\u{3030}', '\u{3030}');
    push_range(v, '\u{303D}', '\u{303D}');
    assert(rview(v@) =~= o + emoji_chunk_10());
}

fn push_emoji_chunk_11(v: &mut Vec<ClassUnicodeRange>)
    ensures
        rview(final(v)@) == rview(old(v)@) + emoji_chunk_11(),
{
    let ghost o = rview(v@);
    push_range(v, '\u{3297}', '\u{3297}');
    push_range(v, '\u{3299}', '\u{3299}');
    push_range(v, '\u{1F004}', '\u{1F004}');
    push_range(v, '\u{1F0CF}', '\u{1F0CF}');
    push_range(v, '\u{1F170}', '\u{1F171}');
    push_range(v, '\u{1F17E}', '\u{1F17F}');
    push_range(v, '\u{1F18E}', '\u{1F18E}');
    push_range(v, '\u{1F191}', '\u{1F19A}');
    assert(rview(v@) =~= o + emoji_chunk_11());
}

fn push_emoji_chunk_12(v: &mut Vec<ClassUnicodeRange>)
    ensures
        rview(final(v)@) == rview(old(v)@) + emoji_chunk_12(),
{
    let ghost o = rview(v@);
    push_range(v, '\u{1F1E6}', '\u{1F1FF}');
    push_range(v, '\u{1F201}', '\u{1F202}');
    push_range(v, '\u{1F21A}', '\u{1F21A}');
    push_range(v, '\u{1F22F}', '\u{1F22F}');
    push_range(v, '\u{1F232}', '\u{1F23A}');
    push_range(v, '\u{1F250}', '\u{1F251}');
    push_range(v, '\u{1F300}', '\u{1F321}');
    push_range(v, '\u{1F324}', '\u{1F393}');
    assert(rview(v@) =~= o + emoji_chunk_12());
}

fn push_emoji_chunk_13(v: &mut Vec<ClassUnicodeRange>)
    ensures
        rview(final(v)@) == rview(old(v)@) + emoji_chunk_13(),
{
    let ghost o = rview(v@);
    push_range(v, '\u{1F396}', '\u{1F397}');
    push_range(v, '\u{1F399}', '\u{1F39B}');
    push_range(v, '\u{1F39E}', '\u{1F3F0}');
    push_range(v, '\u{1F3F3}', '\u{1F3F5}');
    push_range(v, '\u{1F3F7}', '\u{1F4FD}');
    push_range(v, '\u{1F4FF}', '\u{1F53D}');
    push_range(v, '\u{1F549}', '\u{1F54E}');
    push_range(v, '\u{1F550}', '\u{1F567}');
    assert(rview(v@) =~= o + emoji_chunk_13());
}

fn push_emoji_chunk_14(v: &mut Vec<ClassUnicodeRange>)
    ensures
        rview(final(v)@) == rview(old(v)@) + emoji_chunk_14(),
{
    let ghost o = rview(v@);
    push_range(v, '\u{1F56F}', '\u{1F570}');
    push_range(v, '\u{1F573}', '\u{1F57A}');
    push_range(v, '\u{1F587}', '\u{1F587}');
    push_range(v, '\u{1F58A}', '\u{1F58D}');
    push_range(v, '\u{1F590}', '\u{1F590}');
    push_range(v, '\u{1F595}', '\u{1F596}');
    push_range(v, '\u{1F5A4}', '\u{1F5A5}');
    push_range(v, '\u{1F5A8}', '\u{1F5A8}');
    assert(rview(v@) =~= o + emoji_chunk_14());
}

fn push_emoji_chunk_15(v: &mut Vec<ClassUnicodeRange>)
    ensures
        rview(final(v)@) == rview(old(v)@) + emoji_chunk_15(),
{
    let ghost o = rview(v@);
    push_range(v, '\u{1F5B1}', '\u{1F5B2}');
    push_range(v, '\u{1F5BC}', '\u{1F5BC}');
    push_range(v, '\u{1F5C2}', '\u{1F5C4}');
    push_range(v, '\u{1F5D1}', '\u{1F5D3}');
    push_range(v, '\u{1F5DC}', '\u{1F5DE}');
    push_range(v, '\u{1F5E1}', '\u{1F5E1}');
    push_range(v, '\u{1F5E3}', '\u{1F5E3}');
    push_range(v, '\u{1F5E8}', '\u{1F5E8}');
    assert(rview(v@) =~= o + emoji_chunk_15());
}

fn push_emoji_chunk_16(v: &mut Vec<ClassUnicodeRange>)
    ensures
        rview(final(v)@) == rview(old(v)@) + emoji_chunk_16(),
{
    let ghost o = rview(v@);
    push_range(v, '\u{1F5EF}', '\u{1F5EF}');
    push_range(v, '\u{1F5F3}', '\u{1F5F3}');
    push_range(v, '\u{1F5FA}', '\u{1F64F}');
    push_range(v, '\u{1F680}', '\u{1F6C5}');
    push_range(v, '\u{1F6CB}', '\u{1F6D2}');
    push_range(v, '\u{1F6D5}', '\u{1F6D7}');
    push_range(v, '\u{1F6DC}', '\u{1F6E5}');
    push_range(v, '\u{1F6E9}', '\u{1F6E9}');
    assert(rview(v@) =~= o + emoji_chunk_16());
}

fn push_emoji_chunk_17(v: &mut Vec<ClassUnicodeRange>)
    ensures
        rview(final(v)@) == rview(old(v)@) + emoji_chunk_17(),
{
    let ghost o = rview(v@);
    push_range(v, '\u{1F6EB}', '\u{1F6EC}');
    push_range(v, '\u{1F6F0}', '\u{1F6F0}');
    push_range(v, '\u{1F6F3}', '\u{1F6FC}');
    push_range(v, '\u{1F7E0}', '\u{1F7EB}');
    push_range(v, '\u{1F7F0}', '\u{1F7F0}');
    push_range(v, '\u{1F90C}', '\u{1F93A}');
    push_range(v, '\u{1F93C}', '\u{1F945}');
    push_range(v, '\u{1F947}', '\u{1F9FF}');
    assert(rview(v@) =~= o + emoji_chunk_17());
}

fn push_emoji_chunk_18(v: &mut Vec<ClassUnicodeRange>)
    ensures
        rview(final(v)@) == rview(old(v)@) + emoji_chunk_18(),
{
    let ghost o = rview(v@);
    push_range(v, '\u{1FA70}', '\u{1FA7C}');
    push_range(v, '\u{1FA80}', '\u{1FA89}');
    push_range(v, '\u{1FA8F}', '\u{1FAC6}');
    push_range(v, '\u{1FACE}', '\u{1FADC}');
    push_range(v, '\u{1FADF}', '\u{1FAE9}');
    push_range(v, '\u{1FAF0}', '\u{1FAF8}');
    assert(rview(v@) =~= o + emoji_chunk_18());
}

fn push_emoji_block_0(v: &mut Vec<ClassUnicodeRange>)
    ensures
        rview(final(v)@) == rview(old(v)@) + emoji_block_0(),
{
    let ghost o = rview(v@);
    push_emoji_chunk_0(v);
    assert(rview(v@) =~= o + (emoji_chunk_0()));
    push_emoji_chunk_1(v);
    assert(rview(v@) =~= o + (emoji_chunk_0() + emoji_chunk_1()));
    push_emoji_chunk_2(v);
    assert(rview(v@) =~= o + (emoji_chunk_0() + emoji_chunk_1() + emoji_chunk_2()));
    push_emoji_chunk_3(v);
    assert(rview(v@) =~= o + (emoji_chunk_0() + emoji_chunk_1() + emoji_chunk_2() + emoji_chunk_3()));
    push_emoji_chunk_4(v);
    assert(rview(v@) =~= o + (emoji_chunk_0() + emoji_chunk_1() + emoji_chunk_2() + emoji_chunk_3() + emoji_chunk_4()));
    push_emoji_chunk_5(v);
    assert(rview(v@) =~= o + (emoji_chunk_0() + emoji_chunk_1() + emoji_chunk_2() + emoji_chunk_3() + emoji_chunk_4() + emoji_chunk_5()));
    push_emoji_chunk_6(v);
    assert(rview(v@) =~= o + (emoji_chunk_0() + emoji_chunk_1() + emoji_chunk_2() + emoji_chunk_3() + emoji_chunk_4() + emoji_chunk_5() + emoji_chunk_6()));
    push_emoji_chunk_7(v);
    assert(rview(v@) =~= o + (emoji_chunk_0() + emoji_chunk_1() + emoji_chunk_2() + emoji_chunk_3() + emoji_chunk_4() + emoji_chunk_5() + emoji_chunk_6() + emoji_chunk_7()));
    push_emoji_chunk_8(v);
    assert(rview(v@) =~= o + (emoji_chunk_0() + emoji_chunk_1() + emoji_chunk_2() + emoji_chunk_3() + emoji_chunk_4() + emoji_chunk_5() + emoji_chunk_6() + emoji_chunk_7() + emoji_chunk_8()));
    push_emoji_chunk_9(v);
    assert(rview(v@) =~= o + (emoji_chunk_0() + emoji_chunk_1() + emoji_chunk_2() + emoji_chunk_3() + emoji_chunk_4() + emoji_chunk_5() + emoji_chunk_6() + emoji_chunk_7() + emoji_chunk_8() + emoji_chunk_9()));
}

fn push_emoji_block_1(v: &mut Vec<ClassUnicodeRange>)
    ensures
        rview(final(v)@) == rview(old(v)@) + emoji_block_1(),
{
    let ghost o = rview(v@);
    push_emoji_chunk_10(v);
    assert(rview(v@) =~= o + (emoji_chunk_10()));
    push_emoji_chunk_11(v);
    assert(rview(v@) =~= o + (emoji_chunk_10() + emoji_chunk_11()));
    push_emoji_chunk_12(v);
    assert(rview(v@) =~= o + (emoji_chunk_10() + emoji_chunk_11() + emoji_chunk_12()));
    push_emoji_chunk_13(v);
    assert(rview(v@) =~= o + (emoji_chunk_10() + emoji_chunk_11() + emoji_chunk_12() + emoji_chunk_13()));
    push_emoji_chunk_14(v);
    assert(rview(v@) =~= o + (emoji_chunk_10() + emoji_chunk_11() + emoji_chunk_12() + emoji_chunk_13() + emoji_chunk_14()));
    push_emoji_chunk_15(v);
    assert(rview(v@) =~= o + (emoji_chunk_10() + emoji_chunk_11() + emoji_chunk_12() + emoji_chunk_13() + emoji_chunk_14() + emoji_chunk_15()));
    push_emoji_chunk_16(v);
    assert(rview(v@) =~= o + (emoji_chunk_10() + emoji_chunk_11() + emoji_chunk_12() + emoji_chunk_13() + emoji_chunk_14() + emoji_chunk_15() + emoji_chunk_16()));
    push_emoji_chunk_17(v);
    assert(rview(v@) =~= o + (emoji_chunk_10() + emoji_chunk_11() + emoji_chunk_12() + emoji_chunk_13() + emoji_chunk_14() + emoji_chunk_15() + emoji_chunk_16() + emoji_chunk_17()));
    push_emoji_chunk_18(v);
    assert(rview(v@) =~= o + (emoji_chunk_10() + emoji_chunk_11() + emoji_chunk_12() + emoji_chunk_13() + emoji_chunk_14() + emoji_chunk_15() + emoji_chunk_16() + emoji_chunk_17() + emoji_chunk_18()));
}

pub fn emoji_class() -> (v: Vec<ClassUnicodeRange>)
    ensures
        rview(v@) == emoji_ranges(),
{
    let mut v: Vec<ClassUnicodeRange> = Vec::new();
    assert(rview(v@) =~= Seq::<SRange>::empty());
    push_emoji_block_0(&mut v);
    assert(rview(v@) =~= emoji_block_0());
    push_emoji_block_1(&mut v);
    assert(rview(v@) =~= emoji_block_0() + emoji_block_1());
    v
}

} // verus!
