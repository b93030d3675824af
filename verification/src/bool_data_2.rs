//! The ranges of a part of the boolean Unicode properties (see `boolprop`).
use vstd::prelude::*;
use crate::ranges::{SRange, canonical};
use crate::class::{ClassUnicodeRange, rview, lemma_rview_push};
use crate::word::lemma_canonical_append;

verus! {

fn push_range(v: &mut Vec<ClassUnicodeRange>, a: char, b: char)
    ensures
        rview(final(v)@) == rview(old(v)@).push((a as int, b as int)),
{
    let r = ClassUnicodeRange { start: a, end: b };
    proof {
        lemma_rview_push(v@, r);
    }
    v.push(r);
}

pub open spec fn id_continue_chunk_0() -> Seq<SRange> {
    seq![(0x30int, 0x39int), (0x41int, 0x5Aint), (0x5Fint, 0x5Fint), (0x61int, 0x7Aint), (0xAAint, 0xAAint), (0xB5int, 0xB5int), (0xB7int, 0xB7int), (0xBAint, 0xBAint)]
}

pub open spec fn id_continue_chunk_1() -> Seq<SRange> {
    seq![(0xC0int, 0xD6int), (0xD8int, 0xF6int), (0xF8int, 0x2C1int), (0x2C6int, 0x2D1int), (0x2E0int, 0x2E4int), (0x2ECint, 0x2ECint), (0x2EEint, 0x2EEint), (0x300int, 0x374int)]
}

pub open spec fn id_continue_chunk_2() -> Seq<SRange> {
    seq![(0x376int, 0x377int), (0x37Aint, 0x37Dint), (0x37Fint, 0x37Fint), (0x386int, 0x38Aint), (0x38Cint, 0x38Cint), (0x38Eint, 0x3A1int), (0x3A3int, 0x3F5int), (0x3F7int, 0x481int)]
}

pub open spec fn id_continue_chunk_3() -> Seq<SRange> {
    seq![(0x483int, 0x487int), (0x48Aint, 0x52Fint), (0x531int, 0x556int), (0x559int, 0x559int), (0x560int, 0x588int), (0x591int, 0x5BDint), (0x5BFint, 0x5BFint), (0x5C1int, 0x5C2int)]
}

pub open spec fn id_continue_chunk_4() -> Seq<SRange> {
    seq![(0x5C4int, 0x5C5int), (0x5C7int, 0x5C7int), (0x5D0int, 0x5EAint), (0x5EFint, 0x5F2int), (0x610int, 0x61Aint), (0x620int, 0x669int), (0x66Eint, 0x6D3int), (0x6D5int, 0x6DCint)]
}

pub open spec fn id_continue_chunk_5() -> Seq<SRange> {
    seq![(0x6DFint, 0x6E8int), (0x6EAint, 0x6FCint), (0x6FFint, 0x6FFint), (0x710int, 0x74Aint), (0x74Dint, 0x7B1int), (0x7C0int, 0x7F5int), (0x7FAint, 0x7FAint), (0x7FDint, 0x7FDint)]
}

pub open spec fn id_continue_chunk_6() -> Seq<SRange> {
    seq![(0x800int, 0x82Dint), (0x840int, 0x85Bint), (0x860int, 0x86Aint), (0x870int, 0x887int), (0x889int, 0x88Eint), (0x897int, 0x8E1int), (0x8E3int, 0x963int), (0x966int, 0x96Fint)]
}

pub open spec fn id_continue_chunk_7() -> Seq<SRange> {
    seq![(0x971int, 0x983int), (0x985int, 0x98Cint), (0x98Fint, 0x990int), (0x993int, 0x9A8int), (0x9AAint, 0x9B0int), (0x9B2int, 0x9B2int), (0x9B6int, 0x9B9int), (0x9BCint, 0x9C4int)]
}

pub open spec fn id_continue_chunk_8() -> Seq<SRange> {
    seq![(0x9C7int, 0x9C8int), (0x9CBint, 0x9CEint), (0x9D7int, 0x9D7int), (0x9DCint, 0x9DDint), (0x9DFint, 0x9E3int), (0x9E6int, 0x9F1int), (0x9FCint, 0x9FCint), (0x9FEint, 0x9FEint)]
}

pub open spec fn id_continue_chunk_9() -> Seq<SRange> {
    seq![(0xA01int, 0xA03int), (0xA05int, 0xA0Aint), (0xA0Fint, 0xA10int), (0xA13int, 0xA28int), (0xA2Aint, 0xA30int), (0xA32int, 0xA33int), (0xA35int, 0xA36int), (0xA38int, 0xA39int)]
}

pub open spec fn id_continue_chunk_10() -> Seq<SRange> {
    seq![(0xA3Cint, 0xA3Cint), (0xA3Eint, 0xA42int), (0xA47int, 0xA48int), (0xA4Bint, 0xA4Dint), (0xA51int, 0xA51int), (0xA59int, 0xA5Cint), (0xA5Eint, 0xA5Eint), (0xA66int, 0xA75int)]
}

pub open spec fn id_continue_chunk_11() -> Seq<SRange> {
    seq![(0xA81int, 0xA83int), (0xA85int, 0xA8Dint), (0xA8Fint, 0xA91int), (0xA93int, 0xAA8int), (0xAAAint, 0xAB0int), (0xAB2int, 0xAB3int), (0xAB5int, 0xAB9int), (0xABCint, 0xAC5int)]
}

pub open spec fn id_continue_chunk_12() -> Seq<SRange> {
    seq![(0xAC7int, 0xAC9int), (0xACBint, 0xACDint), (0xAD0int, 0xAD0int), (0xAE0int, 0xAE3int), (0xAE6int, 0xAEFint), (0xAF9int, 0xAFFint), (0xB01int, 0xB03int), (0xB05int, 0xB0Cint)]
}

pub open spec fn id_continue_chunk_13() -> Seq<SRange> {
    seq![(0xB0Fint, 0xB10int), (0xB13int, 0xB28int), (0xB2Aint, 0xB30int), (0xB32int, 0xB33int), (0xB35int, 0xB39int), (0xB3Cint, 0xB44int), (0xB47int, 0xB48int), (0xB4Bint, 0xB4Dint)]
}

pub open spec fn id_continue_chunk_14() -> Seq<SRange> {
    seq![(0xB55int, 0xB57int), (0xB5Cint, 0xB5Dint), (0xB5Fint, 0xB63int), (0xB66int, 0xB6Fint), (0xB71int, 0xB71int), (0xB82int, 0xB83int), (0xB85int, 0xB8Aint), (0xB8Eint, 0xB90int)]
}

pub open spec fn id_continue_chunk_15() -> Seq<SRange> {
    seq![(0xB92int, 0xB95int), (0xB99int, 0xB9Aint), (0xB9Cint, 0xB9Cint), (0xB9Eint, 0xB9Fint), (0xBA3int, 0xBA4int), (0xBA8int, 0xBAAint), (0xBAEint, 0xBB9int), (0xBBEint, 0xBC2int)]
}

pub open spec fn id_continue_chunk_16() -> Seq<SRange> {
    seq![(0xBC6int, 0xBC8int), (0xBCAint, 0xBCDint), (0xBD0int, 0xBD0int), (0xBD7int, 0xBD7int), (0xBE6int, 0xBEFint), (0xC00int, 0xC0Cint), (0xC0Eint, 0xC10int), (0xC12int, 0xC28int)]
}

pub open spec fn id_continue_chunk_17() -> Seq<SRange> {
    seq![(0xC2Aint, 0xC39int), (0xC3Cint, 0xC44int), (0xC46int, 0xC48int), (0xC4Aint, 0xC4Dint), (0xC55int, 0xC56int), (0xC58int, 0xC5Aint), (0xC5Dint, 0xC5Dint), (0xC60int, 0xC63int)]
}

pub open spec fn id_continue_chunk_18() -> Seq<SRange> {
    seq![(0xC66int, 0xC6Fint), (0xC80int, 0xC83int), (0xC85int, 0xC8Cint), (0xC8Eint, 0xC90int), (0xC92int, 0xCA8int), (0xCAAint, 0xCB3int), (0xCB5int, 0xCB9int), (0xCBCint, 0xCC4int)]
}

pub open spec fn id_continue_chunk_19() -> Seq<SRange> {
    seq![(0xCC6int, 0xCC8int), (0xCCAint, 0xCCDint), (0xCD5int, 0xCD6int), (0xCDDint, 0xCDEint), (0xCE0int, 0xCE3int), (0xCE6int, 0xCEFint), (0xCF1int, 0xCF3int), (0xD00int, 0xD0Cint)]
}

pub open spec fn id_continue_chunk_20() -> Seq<SRange> {
    seq![(0xD0Eint, 0xD10int), (0xD12int, 0xD44int), (0xD46int, 0xD48int), (0xD4Aint, 0xD4Eint), (0xD54int, 0xD57int), (0xD5Fint, 0xD63int), (0xD66int, 0xD6Fint), (0xD7Aint, 0xD7Fint)]
}

pub open spec fn id_continue_chunk_21() -> Seq<SRange> {
    seq![(0xD81int, 0xD83int), (0xD85int, 0xD96int), (0xD9Aint, 0xDB1int), (0xDB3int, 0xDBBint), (0xDBDint, 0xDBDint), (0xDC0int, 0xDC6int), (0xDCAint, 0xDCAint), (0xDCFint, 0xDD4int)]
}

pub open spec fn id_continue_chunk_22() -> Seq<SRange> {
    seq![(0xDD6int, 0xDD6int), (0xDD8int, 0xDDFint), (0xDE6int, 0xDEFint), (0xDF2int, 0xDF3int), (0xE01int, 0xE3Aint), (0xE40int, 0xE4Eint), (0xE50int, 0xE59int), (0xE81int, 0xE82int)]
}

pub open spec fn id_continue_chunk_23() -> Seq<SRange> {
    seq![(0xE84int, 0xE84int), (0xE86int, 0xE8Aint), (0xE8Cint, 0xEA3int), (0xEA5int, 0xEA5int), (0xEA7int, 0xEBDint), (0xEC0int, 0xEC4int), (0xEC6int, 0xEC6int), (0xEC8int, 0xECEint)]
}

pub open spec fn id_continue_chunk_24() -> Seq<SRange> {
    seq![(0xED0int, 0xED9int), (0xEDCint, 0xEDFint), (0xF00int, 0xF00int), (0xF18int, 0xF19int), (0xF20int, 0xF29int), (0xF35int, 0xF35int), (0xF37int, 0xF37int), (0xF39int, 0xF39int)]
}

pub open spec fn id_continue_chunk_25() -> Seq<SRange> {
    seq![(0xF3Eint, 0xF47int), (0xF49int, 0xF6Cint), (0xF71int, 0xF84int), (0xF86int, 0xF97int), (0xF99int, 0xFBCint), (0xFC6int, 0xFC6int), (0x1000int, 0x1049int), (0x1050int, 0x109Dint)]
}

pub open spec fn id_continue_chunk_26() -> Seq<SRange> {
    seq![(0x10A0int, 0x10C5int), (0x10C7int, 0x10C7int), (0x10CDint, 0x10CDint), (0x10D0int, 0x10FAint), (0x10FCint, 0x1248int), (0x124Aint, 0x124Dint), (0x1250int, 0x1256int), (0x1258int, 0x1258int)]
}

pub open spec fn id_continue_chunk_27() -> Seq<SRange> {
    seq![(0x125Aint, 0x125Dint), (0x1260int, 0x1288int), (0x128Aint, 0x128Dint), (0x1290int, 0x12B0int), (0x12B2int, 0x12B5int), (0x12B8int, 0x12BEint), (0x12C0int, 0x12C0int), (0x12C2int, 0x12C5int)]
}

pub open spec fn id_continue_chunk_28() -> Seq<SRange> {
    seq![(0x12C8int, 0x12D6int), (0x12D8int, 0x1310int), (0x1312int, 0x1315int), (0x1318int, 0x135Aint), (0x135Dint, 0x135Fint), (0x1369int, 0x1371int), (0x1380int, 0x138Fint), (0x13A0int, 0x13F5int)]
}

pub open spec fn id_continue_chunk_29() -> Seq<SRange> {
    seq![(0x13F8int, 0x13FDint), (0x1401int, 0x166Cint), (0x166Fint, 0x167Fint), (0x1681int, 0x169Aint), (0x16A0int, 0x16EAint), (0x16EEint, 0x16F8int), (0x1700int, 0x1715int), (0x171Fint, 0x1734int)]
}

pub open spec fn id_continue_chunk_30() -> Seq<SRange> {
    seq![(0x1740int, 0x1753int), (0x1760int, 0x176Cint), (0x176Eint, 0x1770int), (0x1772int, 0x1773int), (0x1780int, 0x17D3int), (0x17D7int, 0x17D7int), (0x17DCint, 0x17DDint), (0x17E0int, 0x17E9int)]
}

pub open spec fn id_continue_chunk_31() -> Seq<SRange> {
    seq![(0x180Bint, 0x180Dint), (0x180Fint, 0x1819int), (0x1820int, 0x1878int), (0x1880int, 0x18AAint), (0x18B0int, 0x18F5int), (0x1900int, 0x191Eint), (0x1920int, 0x192Bint), (0x1930int, 0x193Bint)]
}

pub open spec fn id_continue_chunk_32() -> Seq<SRange> {
    seq![(0x1946int, 0x196Dint), (0x1970int, 0x1974int), (0x1980int, 0x19ABint), (0x19B0int, 0x19C9int), (0x19D0int, 0x19DAint), (0x1A00int, 0x1A1Bint), (0x1A20int, 0x1A5Eint), (0x1A60int, 0x1A7Cint)]
}

pub open spec fn id_continue_chunk_33() -> Seq<SRange> {
    seq![(0x1A7Fint, 0x1A89int), (0x1A90int, 0x1A99int), (0x1AA7int, 0x1AA7int), (0x1AB0int, 0x1ABDint), (0x1ABFint, 0x1ACEint), (0x1B00int, 0x1B4Cint), (0x1B50int, 0x1B59int), (0x1B6Bint, 0x1B73int)]
}

pub open spec fn id_continue_chunk_34() -> Seq<SRange> {
    seq![(0x1B80int, 0x1BF3int), (0x1C00int, 0x1C37int), (0x1C40int, 0x1C49int), (0x1C4Dint, 0x1C7Dint), (0x1C80int, 0x1C8Aint), (0x1C90int, 0x1CBAint), (0x1CBDint, 0x1CBFint), (0x1CD0int, 0x1CD2int)]
}

pub open spec fn id_continue_chunk_35() -> Seq<SRange> {
    seq![(0x1CD4int, 0x1CFAint), (0x1D00int, 0x1F15int), (0x1F18int, 0x1F1Dint), (0x1F20int, 0x1F45int), (0x1F48int, 0x1F4Dint), (0x1F50int, 0x1F57int), (0x1F59int, 0x1F59int), (0x1F5Bint, 0x1F5Bint)]
}

pub open spec fn id_continue_chunk_36() -> Seq<SRange> {
    seq![(0x1F5Dint, 0x1F5Dint), (0x1F5Fint, 0x1F7Dint), (0x1F80int, 0x1FB4int), (0x1FB6int, 0x1FBCint), (0x1FBEint, 0x1FBEint), (0x1FC2int, 0x1FC4int), (0x1FC6int, 0x1FCCint), (0x1FD0int, 0x1FD3int)]
}

pub open spec fn id_continue_chunk_37() -> Seq<SRange> {
    seq![(0x1FD6int, 0x1FDBint), (0x1FE0int, 0x1FECint), (0x1FF2int, 0x1FF4int), (0x1FF6int, 0x1FFCint), (0x200Cint, 0x200Dint), (0x203Fint, 0x2040int), (0x2054int, 0x2054int), (0x2071int, 0x2071int)]
}

pub open spec fn id_continue_chunk_38() -> Seq<SRange> {
    seq![(0x207Fint, 0x207Fint), (0x2090int, 0x209Cint), (0x20D0int, 0x20DCint), (0x20E1int, 0x20E1int), (0x20E5int, 0x20F0int), (0x2102int, 0x2102int), (0x2107int, 0x2107int), (0x210Aint, 0x2113int)]
}

pub open spec fn id_continue_chunk_39() -> Seq<SRange> {
    seq![(0x2115int, 0x2115int), (0x2118int, 0x211Dint), (0x2124int, 0x2124int), (0x2126int, 0x2126int), (0x2128int, 0x2128int), (0x212Aint, 0x2139int), (0x213Cint, 0x213Fint), (0x2145int, 0x2149int)]
}

pub open spec fn id_continue_chunk_40() -> Seq<SRange> {
    seq![(0x214Eint, 0x214Eint), (0x2160int, 0x2188int), (0x2C00int, 0x2CE4int), (0x2CEBint, 0x2CF3int), (0x2D00int, 0x2D25int), (0x2D27int, 0x2D27int), (0x2D2Dint, 0x2D2Dint), (0x2D30int, 0x2D67int)]
}

pub open spec fn id_continue_chunk_41() -> Seq<SRange> {
    seq![(0x2D6Fint, 0x2D6Fint), (0x2D7Fint, 0x2D96int), (0x2DA0int, 0x2DA6int), (0x2DA8int, 0x2DAEint), (0x2DB0int, 0x2DB6int), (0x2DB8int, 0x2DBEint), (0x2DC0int, 0x2DC6int), (0x2DC8int, 0x2DCEint)]
}

pub open spec fn id_continue_chunk_42() -> Seq<SRange> {
    seq![(0x2DD0int, 0x2DD6int), (0x2DD8int, 0x2DDEint), (0x2DE0int, 0x2DFFint), (0x3005int, 0x3007int), (0x3021int, 0x302Fint), (0x3031int, 0x3035int), (0x3038int, 0x303Cint), (0x3041int, 0x3096int)]
}

pub open spec fn id_continue_chunk_43() -> Seq<SRange> {
    seq![(0x3099int, 0x309Fint), (0x30A1int, 0x30FFint), (0x3105int, 0x312Fint), (0x3131int, 0x318Eint), (0x31A0int, 0x31BFint), (0x31F0int, 0x31FFint), (0x3400int, 0x4DBFint), (0x4E00int, 0xA48Cint)]
}

pub open spec fn id_continue_chunk_44() -> Seq<SRange> {
    seq![(0xA4D0int, 0xA4FDint), (0xA500int, 0xA60Cint), (0xA610int, 0xA62Bint), (0xA640int, 0xA66Fint), (0xA674int, 0xA67Dint), (0xA67Fint, 0xA6F1int), (0xA717int, 0xA71Fint), (0xA722int, 0xA788int)]
}

pub open spec fn id_continue_chunk_45() -> Seq<SRange> {
    seq![(0xA78Bint, 0xA7CDint), (0xA7D0int, 0xA7D1int), (0xA7D3int, 0xA7D3int), (0xA7D5int, 0xA7DCint), (0xA7F2int, 0xA827int), (0xA82Cint, 0xA82Cint), (0xA840int, 0xA873int), (0xA880int, 0xA8C5int)]
}

pub open spec fn id_continue_chunk_46() -> Seq<SRange> {
    seq![(0xA8D0int, 0xA8D9int), (0xA8E0int, 0xA8F7int), (0xA8FBint, 0xA8FBint), (0xA8FDint, 0xA92Dint), (0xA930int, 0xA953int), (0xA960int, 0xA97Cint), (0xA980int, 0xA9C0int), (0xA9CFint, 0xA9D9int)]
}

pub open spec fn id_continue_chunk_47() -> Seq<SRange> {
    seq![(0xA9E0int, 0xA9FEint), (0xAA00int, 0xAA36int), (0xAA40int, 0xAA4Dint), (0xAA50int, 0xAA59int), (0xAA60int, 0xAA76int), (0xAA7Aint, 0xAAC2int), (0xAADBint, 0xAADDint), (0xAAE0int, 0xAAEFint)]
}

pub open spec fn id_continue_chunk_48() -> Seq<SRange> {
    seq![(0xAAF2int, 0xAAF6int), (0xAB01int, 0xAB06int), (0xAB09int, 0xAB0Eint), (0xAB11int, 0xAB16int), (0xAB20int, 0xAB26int), (0xAB28int, 0xAB2Eint), (0xAB30int, 0xAB5Aint), (0xAB5Cint, 0xAB69int)]
}

pub open spec fn id_continue_chunk_49() -> Seq<SRange> {
    seq![(0xAB70int, 0xABEAint), (0xABECint, 0xABEDint), (0xABF0int, 0xABF9int), (0xAC00int, 0xD7A3int), (0xD7B0int, 0xD7C6int), (0xD7CBint, 0xD7FBint), (0xF900int, 0xFA6Dint), (0xFA70int, 0xFAD9int)]
}

pub open spec fn id_continue_chunk_50() -> Seq<SRange> {
    seq![(0xFB00int, 0xFB06int), (0xFB13int, 0xFB17int), (0xFB1Dint, 0xFB28int), (0xFB2Aint, 0xFB36int), (0xFB38int, 0xFB3Cint), (0xFB3Eint, 0xFB3Eint), (0xFB40int, 0xFB41int), (0xFB43int, 0xFB44int)]
}

pub open spec fn id_continue_chunk_51() -> Seq<SRange> {
    seq![(0xFB46int, 0xFBB1int), (0xFBD3int, 0xFD3Dint), (0xFD50int, 0xFD8Fint), (0xFD92int, 0xFDC7int), (0xFDF0int, 0xFDFBint), (0xFE00int, 0xFE0Fint), (0xFE20int, 0xFE2Fint), (0xFE33int, 0xFE34int)]
}

pub open spec fn id_continue_chunk_52() -> Seq<SRange> {
    seq![(0xFE4Dint, 0xFE4Fint), (0xFE70int, 0xFE74int), (0xFE76int, 0xFEFCint), (0xFF10int, 0xFF19int), (0xFF21int, 0xFF3Aint), (0xFF3Fint, 0xFF3Fint), (0xFF41int, 0xFF5Aint), (0xFF65int, 0xFFBEint)]
}

pub open spec fn id_continue_chunk_53() -> Seq<SRange> {
    seq![(0xFFC2int, 0xFFC7int), (0xFFCAint, 0xFFCFint), (0xFFD2int, 0xFFD7int), (0xFFDAint, 0xFFDCint), (0x10000int, 0x1000Bint), (0x1000Dint, 0x10026int), (0x10028int, 0x1003Aint), (0x1003Cint, 0x1003Dint)]
}

pub open spec fn id_continue_chunk_54() -> Seq<SRange> {
    seq![(0x1003Fint, 0x1004Dint), (0x10050int, 0x1005Dint), (0x10080int, 0x100FAint), (0x10140int, 0x10174int), (0x101FDint, 0x101FDint), (0x10280int, 0x1029Cint), (0x102A0int, 0x102D0int), (0x102E0int, 0x102E0int)]
}

pub open spec fn id_continue_chunk_55() -> Seq<SRange> {
    seq![(0x10300int, 0x1031Fint), (0x1032Dint, 0x1034Aint), (0x10350int, 0x1037Aint), (0x10380int, 0x1039Dint), (0x103A0int, 0x103C3int), (0x103C8int, 0x103CFint), (0x103D1int, 0x103D5int), (0x10400int, 0x1049Dint)]
}

pub open spec fn id_continue_chunk_56() -> Seq<SRange> {
    seq![(0x104A0int, 0x104A9int), (0x104B0int, 0x104D3int), (0x104D8int, 0x104FBint), (0x10500int, 0x10527int), (0x10530int, 0x10563int), (0x10570int, 0x1057Aint), (0x1057Cint, 0x1058Aint), (0x1058Cint, 0x10592int)]
}

pub open spec fn id_continue_chunk_57() -> Seq<SRange> {
    seq![(0x10594int, 0x10595int), (0x10597int, 0x105A1int), (0x105A3int, 0x105B1int), (0x105B3int, 0x105B9int), (0x105BBint, 0x105BCint), (0x105C0int, 0x105F3int), (0x10600int, 0x10736int), (0x10740int, 0x10755int)]
}

pub open spec fn id_continue_chunk_58() -> Seq<SRange> {
    seq![(0x10760int, 0x10767int), (0x10780int, 0x10785int), (0x10787int, 0x107B0int), (0x107B2int, 0x107BAint), (0x10800int, 0x10805int), (0x10808int, 0x10808int), (0x1080Aint, 0x10835int), (0x10837int, 0x10838int)]
}

pub open spec fn id_continue_chunk_59() -> Seq<SRange> {
    seq![(0x1083Cint, 0x1083Cint), (0x1083Fint, 0x10855int), (0x10860int, 0x10876int), (0x10880int, 0x1089Eint), (0x108E0int, 0x108F2int), (0x108F4int, 0x108F5int), (0x10900int, 0x10915int), (0x10920int, 0x10939int)]
}

pub open spec fn id_continue_chunk_60() -> Seq<SRange> {
    seq![(0x10980int, 0x109B7int), (0x109BEint, 0x109BFint), (0x10A00int, 0x10A03int), (0x10A05int, 0x10A06int), (0x10A0Cint, 0x10A13int), (0x10A15int, 0x10A17int), (0x10A19int, 0x10A35int), (0x10A38int, 0x10A3Aint)]
}

pub open spec fn id_continue_chunk_61() -> Seq<SRange> {
    seq![(0x10A3Fint, 0x10A3Fint), (0x10A60int, 0x10A7Cint), (0x10A80int, 0x10A9Cint), (0x10AC0int, 0x10AC7int), (0x10AC9int, 0x10AE6int), (0x10B00int, 0x10B35int), (0x10B40int, 0x10B55int), (0x10B60int, 0x10B72int)]
}

pub open spec fn id_continue_chunk_62() -> Seq<SRange> {
    seq![(0x10B80int, 0x10B91int), (0x10C00int, 0x10C48int), (0x10C80int, 0x10CB2int), (0x10CC0int, 0x10CF2int), (0x10D00int, 0x10D27int), (0x10D30int, 0x10D39int), (0x10D40int, 0x10D65int), (0x10D69int, 0x10D6Dint)]
}

pub open spec fn id_continue_chunk_63() -> Seq<SRange> {
    seq![(0x10D6Fint, 0x10D85int), (0x10E80int, 0x10EA9int), (0x10EABint, 0x10EACint), (0x10EB0int, 0x10EB1int), (0x10EC2int, 0x10EC4int), (0x10EFCint, 0x10F1Cint), (0x10F27int, 0x10F27int), (0x10F30int, 0x10F50int)]
}

pub open spec fn id_continue_chunk_64() -> Seq<SRange> {
    seq![(0x10F70int, 0x10F85int), (0x10FB0int, 0x10FC4int), (0x10FE0int, 0x10FF6int), (0x11000int, 0x11046int), (0x11066int, 0x11075int), (0x1107Fint, 0x110BAint), (0x110C2int, 0x110C2int), (0x110D0int, 0x110E8int)]
}

pub open spec fn id_continue_chunk_65() -> Seq<SRange> {
    seq![(0x110F0int, 0x110F9int), (0x11100int, 0x11134int), (0x11136int, 0x1113Fint), (0x11144int, 0x11147int), (0x11150int, 0x11173int), (0x11176int, 0x11176int), (0x11180int, 0x111C4int), (0x111C9int, 0x111CCint)]
}

pub open spec fn id_continue_chunk_66() -> Seq<SRange> {
    seq![(0x111CEint, 0x111DAint), (0x111DCint, 0x111DCint), (0x11200int, 0x11211int), (0x11213int, 0x11237int), (0x1123Eint, 0x11241int), (0x11280int, 0x11286int), (0x11288int, 0x11288int), (0x1128Aint, 0x1128Dint)]
}

pub open spec fn id_continue_chunk_67() -> Seq<SRange> {
    seq![(0x1128Fint, 0x1129Dint), (0x1129Fint, 0x112A8int), (0x112B0int, 0x112EAint), (0x112F0int, 0x112F9int), (0x11300int, 0x11303int), (0x11305int, 0x1130Cint), (0x1130Fint, 0x11310int), (0x11313int, 0x11328int)]
}

pub open spec fn id_continue_chunk_68() -> Seq<SRange> {
    seq![(0x1132Aint, 0x11330int), (0x11332int, 0x11333int), (0x11335int, 0x11339int), (0x1133Bint, 0x11344int), (0x11347int, 0x11348int), (0x1134Bint, 0x1134Dint), (0x11350int, 0x11350int), (0x11357int, 0x11357int)]
}

pub open spec fn id_continue_chunk_69() -> Seq<SRange> {
    seq![(0x1135Dint, 0x11363int), (0x11366int, 0x1136Cint), (0x11370int, 0x11374int), (0x11380int, 0x11389int), (0x1138Bint, 0x1138Bint), (0x1138Eint, 0x1138Eint), (0x11390int, 0x113B5int), (0x113B7int, 0x113C0int)]
}

pub open spec fn id_continue_chunk_70() -> Seq<SRange> {
    seq![(0x113C2int, 0x113C2int), (0x113C5int, 0x113C5int), (0x113C7int, 0x113CAint), (0x113CCint, 0x113D3int), (0x113E1int, 0x113E2int), (0x11400int, 0x1144Aint), (0x11450int, 0x11459int), (0x1145Eint, 0x11461int)]
}

pub open spec fn id_continue_chunk_71() -> Seq<SRange> {
    seq![(0x11480int, 0x114C5int), (0x114C7int, 0x114C7int), (0x114D0int, 0x114D9int), (0x11580int, 0x115B5int), (0x115B8int, 0x115C0int), (0x115D8int, 0x115DDint), (0x11600int, 0x11640int), (0x11644int, 0x11644int)]
}

pub open spec fn id_continue_chunk_72() -> Seq<SRange> {
    seq![(0x11650int, 0x11659int), (0x11680int, 0x116B8int), (0x116C0int, 0x116C9int), (0x116D0int, 0x116E3int), (0x11700int, 0x1171Aint), (0x1171Dint, 0x1172Bint), (0x11730int, 0x11739int), (0x11740int, 0x11746int)]
}

pub open spec fn id_continue_chunk_73() -> Seq<SRange> {
    seq![(0x11800int, 0x1183Aint), (0x118A0int, 0x118E9int), (0x118FFint, 0x11906int), (0x11909int, 0x11909int), (0x1190Cint, 0x11913int), (0x11915int, 0x11916int), (0x11918int, 0x11935int), (0x11937int, 0x11938int)]
}

pub open spec fn id_continue_chunk_74() -> Seq<SRange> {
    seq![(0x1193Bint, 0x11943int), (0x11950int, 0x11959int), (0x119A0int, 0x119A7int), (0x119AAint, 0x119D7int), (0x119DAint, 0x119E1int), (0x119E3int, 0x119E4int), (0x11A00int, 0x11A3Eint), (0x11A47int, 0x11A47int)]
}

pub open spec fn id_continue_chunk_75() -> Seq<SRange> {
    seq![(0x11A50int, 0x11A99int), (0x11A9Dint, 0x11A9Dint), (0x11AB0int, 0x11AF8int), (0x11BC0int, 0x11BE0int), (0x11BF0int, 0x11BF9int), (0x11C00int, 0x11C08int), (0x11C0Aint, 0x11C36int), (0x11C38int, 0x11C40int)]
}

pub open spec fn id_continue_chunk_76() -> Seq<SRange> {
    seq![(0x11C50int, 0x11C59int), (0x11C72int, 0x11C8Fint), (0x11C92int, 0x11CA7int), (0x11CA9int, 0x11CB6int), (0x11D00int, 0x11D06int), (0x11D08int, 0x11D09int), (0x11D0Bint, 0x11D36int), (0x11D3Aint, 0x11D3Aint)]
}

pub open spec fn id_continue_chunk_77() -> Seq<SRange> {
    seq![(0x11D3Cint, 0x11D3Dint), (0x11D3Fint, 0x11D47int), (0x11D50int, 0x11D59int), (0x11D60int, 0x11D65int), (0x11D67int, 0x11D68int), (0x11D6Aint, 0x11D8Eint), (0x11D90int, 0x11D91int), (0x11D93int, 0x11D98int)]
}

pub open spec fn id_continue_chunk_78() -> Seq<SRange> {
    seq![(0x11DA0int, 0x11DA9int), (0x11EE0int, 0x11EF6int), (0x11F00int, 0x11F10int), (0x11F12int, 0x11F3Aint), (0x11F3Eint, 0x11F42int), (0x11F50int, 0x11F5Aint), (0x11FB0int, 0x11FB0int), (0x12000int, 0x12399int)]
}

pub open spec fn id_continue_chunk_79() -> Seq<SRange> {
    seq![(0x12400int, 0x1246Eint), (0x12480int, 0x12543int), (0x12F90int, 0x12FF0int), (0x13000int, 0x1342Fint), (0x13440int, 0x13455int), (0x13460int, 0x143FAint), (0x14400int, 0x14646int), (0x16100int, 0x16139int)]
}

pub open spec fn id_continue_chunk_80() -> Seq<SRange> {
    seq![(0x16800int, 0x16A38int), (0x16A40int, 0x16A5Eint), (0x16A60int, 0x16A69int), (0x16A70int, 0x16ABEint), (0x16AC0int, 0x16AC9int), (0x16AD0int, 0x16AEDint), (0x16AF0int, 0x16AF4int), (0x16B00int, 0x16B36int)]
}

pub open spec fn id_continue_chunk_81() -> Seq<SRange> {
    seq![(0x16B40int, 0x16B43int), (0x16B50int, 0x16B59int), (0x16B63int, 0x16B77int), (0x16B7Dint, 0x16B8Fint), (0x16D40int, 0x16D6Cint), (0x16D70int, 0x16D79int), (0x16E40int, 0x16E7Fint), (0x16F00int, 0x16F4Aint)]
}

pub open spec fn id_continue_chunk_82() -> Seq<SRange> {
    seq![(0x16F4Fint, 0x16F87int), (0x16F8Fint, 0x16F9Fint), (0x16FE0int, 0x16FE1int), (0x16FE3int, 0x16FE4int), (0x16FF0int, 0x16FF1int), (0x17000int, 0x187F7int), (0x18800int, 0x18CD5int), (0x18CFFint, 0x18D08int)]
}

pub open spec fn id_continue_chunk_83() -> Seq<SRange> {
    seq![(0x1AFF0int, 0x1AFF3int), (0x1AFF5int, 0x1AFFBint), (0x1AFFDint, 0x1AFFEint), (0x1B000int, 0x1B122int), (0x1B132int, 0x1B132int), (0x1B150int, 0x1B152int), (0x1B155int, 0x1B155int), (0x1B164int, 0x1B167int)]
}

pub open spec fn id_continue_chunk_84() -> Seq<SRange> {
    seq![(0x1B170int, 0x1B2FBint), (0x1BC00int, 0x1BC6Aint), (0x1BC70int, 0x1BC7Cint), (0x1BC80int, 0x1BC88int), (0x1BC90int, 0x1BC99int), (0x1BC9Dint, 0x1BC9Eint), (0x1CCF0int, 0x1CCF9int), (0x1CF00int, 0x1CF2Dint)]
}

pub open spec fn id_continue_chunk_85() -> Seq<SRange> {
    seq![(0x1CF30int, 0x1CF46int), (0x1D165int, 0x1D169int), (0x1D16Dint, 0x1D172int), (0x1D17Bint, 0x1D182int), (0x1D185int, 0x1D18Bint), (0x1D1AAint, 0x1D1ADint), (0x1D242int, 0x1D244int), (0x1D400int, 0x1D454int)]
}

pub open spec fn id_continue_chunk_86() -> Seq<SRange> {
    seq![(0x1D456int, 0x1D49Cint), (0x1D49Eint, 0x1D49Fint), (0x1D4A2int, 0x1D4A2int), (0x1D4A5int, 0x1D4A6int), (0x1D4A9int, 0x1D4ACint), (0x1D4AEint, 0x1D4B9int), (0x1D4BBint, 0x1D4BBint), (0x1D4BDint, 0x1D4C3int)]
}

pub open spec fn id_continue_chunk_87() -> Seq<SRange> {
    seq![(0x1D4C5int, 0x1D505int), (0x1D507int, 0x1D50Aint), (0x1D50Dint, 0x1D514int), (0x1D516int, 0x1D51Cint), (0x1D51Eint, 0x1D539int), (0x1D53Bint, 0x1D53Eint), (0x1D540int, 0x1D544int), (0x1D546int, 0x1D546int)]
}

pub open spec fn id_continue_chunk_88() -> Seq<SRange> {
    seq![(0x1D54Aint, 0x1D550int), (0x1D552int, 0x1D6A5int), (0x1D6A8int, 0x1D6C0int), (0x1D6C2int, 0x1D6DAint), (0x1D6DCint, 0x1D6FAint), (0x1D6FCint, 0x1D714int), (0x1D716int, 0x1D734int), (0x1D736int, 0x1D74Eint)]
}

pub open spec fn id_continue_chunk_89() -> Seq<SRange> {
    seq![(0x1D750int, 0x1D76Eint), (0x1D770int, 0x1D788int), (0x1D78Aint, 0x1D7A8int), (0x1D7AAint, 0x1D7C2int), (0x1D7C4int, 0x1D7CBint), (0x1D7CEint, 0x1D7FFint), (0x1DA00int, 0x1DA36int), (0x1DA3Bint, 0x1DA6Cint)]
}

pub open spec fn id_continue_chunk_90() -> Seq<SRange> {
    seq![(0x1DA75int, 0x1DA75int), (0x1DA84int, 0x1DA84int), (0x1DA9Bint, 0x1DA9Fint), (0x1DAA1int, 0x1DAAFint), (0x1DF00int, 0x1DF1Eint), (0x1DF25int, 0x1DF2Aint), (0x1E000int, 0x1E006int), (0x1E008int, 0x1E018int)]
}

pub open spec fn id_continue_chunk_91() -> Seq<SRange> {
    seq![(0x1E01Bint, 0x1E021int), (0x1E023int, 0x1E024int), (0x1E026int, 0x1E02Aint), (0x1E030int, 0x1E06Dint), (0x1E08Fint, 0x1E08Fint), (0x1E100int, 0x1E12Cint), (0x1E130int, 0x1E13Dint), (0x1E140int, 0x1E149int)]
}

pub open spec fn id_continue_chunk_92() -> Seq<SRange> {
    seq![(0x1E14Eint, 0x1E14Eint), (0x1E290int, 0x1E2AEint), (0x1E2C0int, 0x1E2F9int), (0x1E4D0int, 0x1E4F9int), (0x1E5D0int, 0x1E5FAint), (0x1E7E0int, 0x1E7E6int), (0x1E7E8int, 0x1E7EBint), (0x1E7EDint, 0x1E7EEint)]
}

pub open spec fn id_continue_chunk_93() -> Seq<SRange> {
    seq![(0x1E7F0int, 0x1E7FEint), (0x1E800int, 0x1E8C4int), (0x1E8D0int, 0x1E8D6int), (0x1E900int, 0x1E94Bint), (0x1E950int, 0x1E959int), (0x1EE00int, 0x1EE03int), (0x1EE05int, 0x1EE1Fint), (0x1EE21int, 0x1EE22int)]
}

pub open spec fn id_continue_chunk_94() -> Seq<SRange> {
    seq![(0x1EE24int, 0x1EE24int), (0x1EE27int, 0x1EE27int), (0x1EE29int, 0x1EE32int), (0x1EE34int, 0x1EE37int), (0x1EE39int, 0x1EE39int), (0x1EE3Bint, 0x1EE3Bint), (0x1EE42int, 0x1EE42int), (0x1EE47int, 0x1EE47int)]
}

pub open spec fn id_continue_chunk_95() -> Seq<SRange> {
    seq![(0x1EE49int, 0x1EE49int), (0x1EE4Bint, 0x1EE4Bint), (0x1EE4Dint, 0x1EE4Fint), (0x1EE51int, 0x1EE52int), (0x1EE54int, 0x1EE54int), (0x1EE57int, 0x1EE57int), (0x1EE59int, 0x1EE59int), (0x1EE5Bint, 0x1EE5Bint)]
}

pub open spec fn id_continue_chunk_96() -> Seq<SRange> {
    seq![(0x1EE5Dint, 0x1EE5Dint), (0x1EE5Fint, 0x1EE5Fint), (0x1EE61int, 0x1EE62int), (0x1EE64int, 0x1EE64int), (0x1EE67int, 0x1EE6Aint), (0x1EE6Cint, 0x1EE72int), (0x1EE74int, 0x1EE77int), (0x1EE79int, 0x1EE7Cint)]
}

pub open spec fn id_continue_chunk_97() -> Seq<SRange> {
    seq![(0x1EE7Eint, 0x1EE7Eint), (0x1EE80int, 0x1EE89int), (0x1EE8Bint, 0x1EE9Bint), (0x1EEA1int, 0x1EEA3int), (0x1EEA5int, 0x1EEA9int), (0x1EEABint, 0x1EEBBint), (0x1FBF0int, 0x1FBF9int), (0x20000int, 0x2A6DFint)]
}

pub open spec fn id_continue_chunk_98() -> Seq<SRange> {
    seq![(0x2A700int, 0x2B739int), (0x2B740int, 0x2B81Dint), (0x2B820int, 0x2CEA1int), (0x2CEB0int, 0x2EBE0int), (0x2EBF0int, 0x2EE5Dint), (0x2F800int, 0x2FA1Dint), (0x30000int, 0x3134Aint), (0x31350int, 0x323AFint)]
}

pub open spec fn id_continue_chunk_99() -> Seq<SRange> {
    seq![(0xE0100int, 0xE01EFint)]
}

pub open spec fn id_continue_block_0() -> Seq<SRange> {
    id_continue_chunk_0() + id_continue_chunk_1() + id_continue_chunk_2() + id_continue_chunk_3() + id_continue_chunk_4() + id_continue_chunk_5() + id_continue_chunk_6() + id_continue_chunk_7() + id_continue_chunk_8() + id_continue_chunk_9()
}

pub open spec fn id_continue_block_1() -> Seq<SRange> {
    id_continue_chunk_10() + id_continue_chunk_11() + id_continue_chunk_12() + id_continue_chunk_13() + id_continue_chunk_14() + id_continue_chunk_15() + id_continue_chunk_16() + id_continue_chunk_17() + id_continue_chunk_18() + id_continue_chunk_19()
}

pub open spec fn id_continue_block_2() -> Seq<SRange> {
    id_continue_chunk_20() + id_continue_chunk_21() + id_continue_chunk_22() + id_continue_chunk_23() + id_continue_chunk_24() + id_continue_chunk_25() + id_continue_chunk_26() + id_continue_chunk_27() + id_continue_chunk_28() + id_continue_chunk_29()
}

pub open spec fn id_continue_block_3() -> Seq<SRange> {
    id_continue_chunk_30() + id_continue_chunk_31() + id_continue_chunk_32() + id_continue_chunk_33() + id_continue_chunk_34() + id_continue_chunk_35() + id_continue_chunk_36() + id_continue_chunk_37() + id_continue_chunk_38() + id_continue_chunk_39()
}

pub open spec fn id_continue_block_4() -> Seq<SRange> {
    id_continue_chunk_40() + id_continue_chunk_41() + id_continue_chunk_42() + id_continue_chunk_43() + id_continue_chunk_44() + id_continue_chunk_45() + id_continue_chunk_46() + id_continue_chunk_47() + id_continue_chunk_48() + id_continue_chunk_49()
}

pub open spec fn id_continue_block_5() -> Seq<SRange> {
    id_continue_chunk_50() + id_continue_chunk_51() + id_continue_chunk_52() + id_continue_chunk_53() + id_continue_chunk_54() + id_continue_chunk_55() + id_continue_chunk_56() + id_continue_chunk_57() + id_continue_chunk_58() + id_continue_chunk_59()
}

pub open spec fn id_continue_block_6() -> Seq<SRange> {
    id_continue_chunk_60() + id_continue_chunk_61() + id_continue_chunk_62() + id_continue_chunk_63() + id_continue_chunk_64() + id_continue_chunk_65() + id_continue_chunk_66() + id_continue_chunk_67() + id_continue_chunk_68() + id_continue_chunk_69()
}

pub open spec fn id_continue_block_7() -> Seq<SRange> {
    id_continue_chunk_70() + id_continue_chunk_71() + id_continue_chunk_72() + id_continue_chunk_73() + id_continue_chunk_74() + id_continue_chunk_75() + id_continue_chunk_76() + id_continue_chunk_77() + id_continue_chunk_78() + id_continue_chunk_79()
}

pub open spec fn id_continue_block_8() -> Seq<SRange> {
    id_continue_chunk_80() + id_continue_chunk_81() + id_continue_chunk_82() + id_continue_chunk_83() + id_continue_chunk_84() + id_continue_chunk_85() + id_continue_chunk_86() + id_continue_chunk_87() + id_continue_chunk_88() + id_continue_chunk_89()
}

pub open spec fn id_continue_block_9() -> Seq<SRange> {
    id_continue_chunk_90() + id_continue_chunk_91() + id_continue_chunk_92() + id_continue_chunk_93() + id_continue_chunk_94() + id_continue_chunk_95() + id_continue_chunk_96() + id_continue_chunk_97() + id_continue_chunk_98() + id_continue_chunk_99()
}

/// The ranges of the property ID_Continue.
pub open spec fn id_continue_ranges() -> Seq<SRange> {
    id_continue_block_0() + id_continue_block_1() + id_continue_block_2() + id_continue_block_3() + id_continue_block_4() + id_continue_block_5() + id_continue_block_6() + id_continue_block_7() + id_continue_block_8() + id_continue_block_9()
}

proof fn lemma_id_continue_block_0()
    ensures
        canonical(id_continue_block_0()),
        id_continue_block_0().len() > 0,
        id_continue_block_0()[0] == id_continue_chunk_0()[0],
        id_continue_block_0().last() == id_continue_chunk_9().last(),
{
    reveal_with_fuel(canonical, 9);
    assert(canonical(id_continue_chunk_0()));
    assert(canonical(id_continue_chunk_1()));
    assert(canonical(id_continue_chunk_2()));
    assert(canonical(id_continue_chunk_3()));
    assert(canonical(id_continue_chunk_4()));
    assert(canonical(id_continue_chunk_5()));
    assert(canonical(id_continue_chunk_6()));
    assert(canonical(id_continue_chunk_7()));
    assert(canonical(id_continue_chunk_8()));
    assert(canonical(id_continue_chunk_9()));
    lemma_canonical_append(id_continue_chunk_0(), id_continue_chunk_1());
    lemma_canonical_append(id_continue_chunk_0() + id_continue_chunk_1(), id_continue_chunk_2());
    lemma_canonical_append(id_continue_chunk_0() + id_continue_chunk_1() + id_continue_chunk_2(), id_continue_chunk_3());
    lemma_canonical_append(id_continue_chunk_0() + id_continue_chunk_1() + id_continue_chunk_2() + id_continue_chunk_3(), id_continue_chunk_4());
    lemma_canonical_append(id_continue_chunk_0() + id_continue_chunk_1() + id_continue_chunk_2() + id_continue_chunk_3() + id_continue_chunk_4(), id_continue_chunk_5());
    lemma_canonical_append(id_continue_chunk_0() + id_continue_chunk_1() + id_continue_chunk_2() + id_continue_chunk_3() + id_continue_chunk_4() + id_continue_chunk_5(), id_continue_chunk_6());
    lemma_canonical_append(id_continue_chunk_0() + id_continue_chunk_1() + id_continue_chunk_2() + id_continue_chunk_3() + id_continue_chunk_4() + id_continue_chunk_5() + id_continue_chunk_6(), id_continue_chunk_7());
    lemma_canonical_append(id_continue_chunk_0() + id_continue_chunk_1() + id_continue_chunk_2() + id_continue_chunk_3() + id_continue_chunk_4() + id_continue_chunk_5() + id_continue_chunk_6() + id_continue_chunk_7(), id_continue_chunk_8());
    lemma_canonical_append(id_continue_chunk_0() + id_continue_chunk_1() + id_continue_chunk_2() + id_continue_chunk_3() + id_continue_chunk_4() + id_continue_chunk_5() + id_continue_chunk_6() + id_continue_chunk_7() + id_continue_chunk_8(), id_continue_chunk_9());
}

proof fn lemma_id_continue_block_1()
    ensures
        canonical(id_continue_block_1()),
        id_continue_block_1().len() > 0,
        id_continue_block_1()[0] == id_continue_chunk_10()[0],
        id_continue_block_1().last() == id_continue_chunk_19().last(),
{
    reveal_with_fuel(canonical, 9);
    assert(canonical(id_continue_chunk_10()));
    assert(canonical(id_continue_chunk_11()));
    assert(canonical(id_continue_chunk_12()));
    assert(canonical(id_continue_chunk_13()));
    assert(canonical(id_continue_chunk_14()));
    assert(canonical(id_continue_chunk_15()));
    assert(canonical(id_continue_chunk_16()));
    assert(canonical(id_continue_chunk_17()));
    assert(canonical(id_continue_chunk_18()));
    assert(canonical(id_continue_chunk_19()));
    lemma_canonical_append(id_continue_chunk_10(), id_continue_chunk_11());
    lemma_canonical_append(id_continue_chunk_10() + id_continue_chunk_11(), id_continue_chunk_12());
    lemma_canonical_append(id_continue_chunk_10() + id_continue_chunk_11() + id_continue_chunk_12(), id_continue_chunk_13());
    lemma_canonical_append(id_continue_chunk_10() + id_continue_chunk_11() + id_continue_chunk_12() + id_continue_chunk_13(), id_continue_chunk_14());
    lemma_canonical_append(id_continue_chunk_10() + id_continue_chunk_11() + id_continue_chunk_12() + id_continue_chunk_13() + id_continue_chunk_14(), id_continue_chunk_15());
    lemma_canonical_append(id_continue_chunk_10() + id_continue_chunk_11() + id_continue_chunk_12() + id_continue_chunk_13() + id_continue_chunk_14() + id_continue_chunk_15(), id_continue_chunk_16());
    lemma_canonical_append(id_continue_chunk_10() + id_continue_chunk_11() + id_continue_chunk_12() + id_continue_chunk_13() + id_continue_chunk_14() + id_continue_chunk_15() + id_continue_chunk_16(), id_continue_chunk_17());
    lemma_canonical_append(id_continue_chunk_10() + id_continue_chunk_11() + id_continue_chunk_12() + id_continue_chunk_13() + id_continue_chunk_14() + id_continue_chunk_15() + id_continue_chunk_16() + id_continue_chunk_17(), id_continue_chunk_18());
    lemma_canonical_append(id_continue_chunk_10() + id_continue_chunk_11() + id_continue_chunk_12() + id_continue_chunk_13() + id_continue_chunk_14() + id_continue_chunk_15() + id_continue_chunk_16() + id_continue_chunk_17() + id_continue_chunk_18(), id_continue_chunk_19());
}

proof fn lemma_id_continue_block_2()
    ensures
        canonical(id_continue_block_2()),
        id_continue_block_2().len() > 0,
        id_continue_block_2()[0] == id_continue_chunk_20()[0],
        id_continue_block_2().last() == id_continue_chunk_29().last(),
{
    reveal_with_fuel(canonical, 9);
    assert(canonical(id_continue_chunk_20()));
    assert(canonical(id_continue_chunk_21()));
    assert(canonical(id_continue_chunk_22()));
    assert(canonical(id_continue_chunk_23()));
    assert(canonical(id_continue_chunk_24()));
    assert(canonical(id_continue_chunk_25()));
    assert(canonical(id_continue_chunk_26()));
    assert(canonical(id_continue_chunk_27()));
    assert(canonical(id_continue_chunk_28()));
    assert(canonical(id_continue_chunk_29()));
    lemma_canonical_append(id_continue_chunk_20(), id_continue_chunk_21());
    lemma_canonical_append(id_continue_chunk_20() + id_continue_chunk_21(), id_continue_chunk_22());
    lemma_canonical_append(id_continue_chunk_20() + id_continue_chunk_21() + id_continue_chunk_22(), id_continue_chunk_23());
    lemma_canonical_append(id_continue_chunk_20() + id_continue_chunk_21() + id_continue_chunk_22() + id_continue_chunk_23(), id_continue_chunk_24());
    lemma_canonical_append(id_continue_chunk_20() + id_continue_chunk_21() + id_continue_chunk_22() + id_continue_chunk_23() + id_continue_chunk_24(), id_continue_chunk_25());
    lemma_canonical_append(id_continue_chunk_20() + id_continue_chunk_21() + id_continue_chunk_22() + id_continue_chunk_23() + id_continue_chunk_24() + id_continue_chunk_25(), id_continue_chunk_26());
    lemma_canonical_append(id_continue_chunk_20() + id_continue_chunk_21() + id_continue_chunk_22() + id_continue_chunk_23() + id_continue_chunk_24() + id_continue_chunk_25() + id_continue_chunk_26(), id_continue_chunk_27());
    lemma_canonical_append(id_continue_chunk_20() + id_continue_chunk_21() + id_continue_chunk_22() + id_continue_chunk_23() + id_continue_chunk_24() + id_continue_chunk_25() + id_continue_chunk_26() + id_continue_chunk_27(), id_continue_chunk_28());
    lemma_canonical_append(id_continue_chunk_20() + id_continue_chunk_21() + id_continue_chunk_22() + id_continue_chunk_23() + id_continue_chunk_24() + id_continue_chunk_25() + id_continue_chunk_26() + id_continue_chunk_27() + id_continue_chunk_28(), id_continue_chunk_29());
}

proof fn lemma_id_continue_block_3()
    ensures
        canonical(id_continue_block_3()),
        id_continue_block_3().len() > 0,
        id_continue_block_3()[0] == id_continue_chunk_30()[0],
        id_continue_block_3().last() == id_continue_chunk_39().last(),
{
    reveal_with_fuel(canonical, 9);
    assert(canonical(id_continue_chunk_30()));
    assert(canonical(id_continue_chunk_31()));
    assert(canonical(id_continue_chunk_32()));
    assert(canonical(id_continue_chunk_33()));
    assert(canonical(id_continue_chunk_34()));
    assert(canonical(id_continue_chunk_35()));
    assert(canonical(id_continue_chunk_36()));
    assert(canonical(id_continue_chunk_37()));
    assert(canonical(id_continue_chunk_38()));
    assert(canonical(id_continue_chunk_39()));
    lemma_canonical_append(id_continue_chunk_30(), id_continue_chunk_31());
    lemma_canonical_append(id_continue_chunk_30() + id_continue_chunk_31(), id_continue_chunk_32());
    lemma_canonical_append(id_continue_chunk_30() + id_continue_chunk_31() + id_continue_chunk_32(), id_continue_chunk_33());
    lemma_canonical_append(id_continue_chunk_30() + id_continue_chunk_31() + id_continue_chunk_32() + id_continue_chunk_33(), id_continue_chunk_34());
    lemma_canonical_append(id_continue_chunk_30() + id_continue_chunk_31() + id_continue_chunk_32() + id_continue_chunk_33() + id_continue_chunk_34(), id_continue_chunk_35());
    lemma_canonical_append(id_continue_chunk_30() + id_continue_chunk_31() + id_continue_chunk_32() + id_continue_chunk_33() + id_continue_chunk_34() + id_continue_chunk_35(), id_continue_chunk_36());
    lemma_canonical_append(id_continue_chunk_30() + id_continue_chunk_31() + id_continue_chunk_32() + id_continue_chunk_33() + id_continue_chunk_34() + id_continue_chunk_35() + id_continue_chunk_36(), id_continue_chunk_37());
    lemma_canonical_append(id_continue_chunk_30() + id_continue_chunk_31() + id_continue_chunk_32() + id_continue_chunk_33() + id_continue_chunk_34() + id_continue_chunk_35() + id_continue_chunk_36() + id_continue_chunk_37(), id_continue_chunk_38());
    lemma_canonical_append(id_continue_chunk_30() + id_continue_chunk_31() + id_continue_chunk_32() + id_continue_chunk_33() + id_continue_chunk_34() + id_continue_chunk_35() + id_continue_chunk_36() + id_continue_chunk_37() + id_continue_chunk_38(), id_continue_chunk_39());
}

proof fn lemma_id_continue_block_4()
    ensures
        canonical(id_continue_block_4()),
        id_continue_block_4().len() > 0,
        id_continue_block_4()[0] == id_continue_chunk_40()[0],
        id_continue_block_4().last() == id_continue_chunk_49().last(),
{
    reveal_with_fuel(canonical, 9);
    assert(canonical(id_continue_chunk_40()));
    assert(canonical(id_continue_chunk_41()));
    assert(canonical(id_continue_chunk_42()));
    assert(canonical(id_continue_chunk_43()));
    assert(canonical(id_continue_chunk_44()));
    assert(canonical(id_continue_chunk_45()));
    assert(canonical(id_continue_chunk_46()));
    assert(canonical(id_continue_chunk_47()));
    assert(canonical(id_continue_chunk_48()));
    assert(canonical(id_continue_chunk_49()));
    lemma_canonical_append(id_continue_chunk_40(), id_continue_chunk_41());
    lemma_canonical_append(id_continue_chunk_40() + id_continue_chunk_41(), id_continue_chunk_42());
    lemma_canonical_append(id_continue_chunk_40() + id_continue_chunk_41() + id_continue_chunk_42(), id_continue_chunk_43());
    lemma_canonical_append(id_continue_chunk_40() + id_continue_chunk_41() + id_continue_chunk_42() + id_continue_chunk_43(), id_continue_chunk_44());
    lemma_canonical_append(id_continue_chunk_40() + id_continue_chunk_41() + id_continue_chunk_42() + id_continue_chunk_43() + id_continue_chunk_44(), id_continue_chunk_45());
    lemma_canonical_append(id_continue_chunk_40() + id_continue_chunk_41() + id_continue_chunk_42() + id_continue_chunk_43() + id_continue_chunk_44() + id_continue_chunk_45(), id_continue_chunk_46());
    lemma_canonical_append(id_continue_chunk_40() + id_continue_chunk_41() + id_continue_chunk_42() + id_continue_chunk_43() + id_continue_chunk_44() + id_continue_chunk_45() + id_continue_chunk_46(), id_continue_chunk_47());
    lemma_canonical_append(id_continue_chunk_40() + id_continue_chunk_41() + id_continue_chunk_42() + id_continue_chunk_43() + id_continue_chunk_44() + id_continue_chunk_45() + id_continue_chunk_46() + id_continue_chunk_47(), id_continue_chunk_48());
    lemma_canonical_append(id_continue_chunk_40() + id_continue_chunk_41() + id_continue_chunk_42() + id_continue_chunk_43() + id_continue_chunk_44() + id_continue_chunk_45() + id_continue_chunk_46() + id_continue_chunk_47() + id_continue_chunk_48(), id_continue_chunk_49());
}

proof fn lemma_id_continue_block_5()
    ensures
        canonical(id_continue_block_5()),
        id_continue_block_5().len() > 0,
        id_continue_block_5()[0] == id_continue_chunk_50()[0],
        id_continue_block_5().last() == id_continue_chunk_59().last(),
{
    reveal_with_fuel(canonical, 9);
    assert(canonical(id_continue_chunk_50()));
    assert(canonical(id_continue_chunk_51()));
    assert(canonical(id_continue_chunk_52()));
    assert(canonical(id_continue_chunk_53()));
    assert(canonical(id_continue_chunk_54()));
    assert(canonical(id_continue_chunk_55()));
    assert(canonical(id_continue_chunk_56()));
    assert(canonical(id_continue_chunk_57()));
    assert(canonical(id_continue_chunk_58()));
    assert(canonical(id_continue_chunk_59()));
    lemma_canonical_append(id_continue_chunk_50(), id_continue_chunk_51());
    lemma_canonical_append(id_continue_chunk_50() + id_continue_chunk_51(), id_continue_chunk_52());
    lemma_canonical_append(id_continue_chunk_50() + id_continue_chunk_51() + id_continue_chunk_52(), id_continue_chunk_53());
    lemma_canonical_append(id_continue_chunk_50() + id_continue_chunk_51() + id_continue_chunk_52() + id_continue_chunk_53(), id_continue_chunk_54());
    lemma_canonical_append(id_continue_chunk_50() + id_continue_chunk_51() + id_continue_chunk_52() + id_continue_chunk_53() + id_continue_chunk_54(), id_continue_chunk_55());
    lemma_canonical_append(id_continue_chunk_50() + id_continue_chunk_51() + id_continue_chunk_52() + id_continue_chunk_53() + id_continue_chunk_54() + id_continue_chunk_55(), id_continue_chunk_56());
    lemma_canonical_append(id_continue_chunk_50() + id_continue_chunk_51() + id_continue_chunk_52() + id_continue_chunk_53() + id_continue_chunk_54() + id_continue_chunk_55() + id_continue_chunk_56(), id_continue_chunk_57());
    lemma_canonical_append(id_continue_chunk_50() + id_continue_chunk_51() + id_continue_chunk_52() + id_continue_chunk_53() + id_continue_chunk_54() + id_continue_chunk_55() + id_continue_chunk_56() + id_continue_chunk_57(), id_continue_chunk_58());
    lemma_canonical_append(id_continue_chunk_50() + id_continue_chunk_51() + id_continue_chunk_52() + id_continue_chunk_53() + id_continue_chunk_54() + id_continue_chunk_55() + id_continue_chunk_56() + id_continue_chunk_57() + id_continue_chunk_58(), id_continue_chunk_59());
}

proof fn lemma_id_continue_block_6()
    ensures
        canonical(id_continue_block_6()),
        id_continue_block_6().len() > 0,
        id_continue_block_6()[0] == id_continue_chunk_60()[0],
        id_continue_block_6().last() == id_continue_chunk_69().last(),
{
    reveal_with_fuel(canonical, 9);
    assert(canonical(id_continue_chunk_60()));
    assert(canonical(id_continue_chunk_61()));
    assert(canonical(id_continue_chunk_62()));
    assert(canonical(id_continue_chunk_63()));
    assert(canonical(id_continue_chunk_64()));
    assert(canonical(id_continue_chunk_65()));
    assert(canonical(id_continue_chunk_66()));
    assert(canonical(id_continue_chunk_67()));
    assert(canonical(id_continue_chunk_68()));
    assert(canonical(id_continue_chunk_69()));
    lemma_canonical_append(id_continue_chunk_60(), id_continue_chunk_61());
    lemma_canonical_append(id_continue_chunk_60() + id_continue_chunk_61(), id_continue_chunk_62());
    lemma_canonical_append(id_continue_chunk_60() + id_continue_chunk_61() + id_continue_chunk_62(), id_continue_chunk_63());
    lemma_canonical_append(id_continue_chunk_60() + id_continue_chunk_61() + id_continue_chunk_62() + id_continue_chunk_63(), id_continue_chunk_64());
    lemma_canonical_append(id_continue_chunk_60() + id_continue_chunk_61() + id_continue_chunk_62() + id_continue_chunk_63() + id_continue_chunk_64(), id_continue_chunk_65());
    lemma_canonical_append(id_continue_chunk_60() + id_continue_chunk_61() + id_continue_chunk_62() + id_continue_chunk_63() + id_continue_chunk_64() + id_continue_chunk_65(), id_continue_chunk_66());
    lemma_canonical_append(id_continue_chunk_60() + id_continue_chunk_61() + id_continue_chunk_62() + id_continue_chunk_63() + id_continue_chunk_64() + id_continue_chunk_65() + id_continue_chunk_66(), id_continue_chunk_67());
    lemma_canonical_append(id_continue_chunk_60() + id_continue_chunk_61() + id_continue_chunk_62() + id_continue_chunk_63() + id_continue_chunk_64() + id_continue_chunk_65() + id_continue_chunk_66() + id_continue_chunk_67(), id_continue_chunk_68());
    lemma_canonical_append(id_continue_chunk_60() + id_continue_chunk_61() + id_continue_chunk_62() + id_continue_chunk_63() + id_continue_chunk_64() + id_continue_chunk_65() + id_continue_chunk_66() + id_continue_chunk_67() + id_continue_chunk_68(), id_continue_chunk_69());
}

proof fn lemma_id_continue_block_7()
    ensures
        canonical(id_continue_block_7()),
        id_continue_block_7().len() > 0,
        id_continue_block_7()[0] == id_continue_chunk_70()[0],
        id_continue_block_7().last() == id_continue_chunk_79().last(),
{
    reveal_with_fuel(canonical, 9);
    assert(canonical(id_continue_chunk_70()));
    assert(canonical(id_continue_chunk_71()));
    assert(canonical(id_continue_chunk_72()));
    assert(canonical(id_continue_chunk_73()));
    assert(canonical(id_continue_chunk_74()));
    assert(canonical(id_continue_chunk_75()));
    assert(canonical(id_continue_chunk_76()));
    assert(canonical(id_continue_chunk_77()));
    assert(canonical(id_continue_chunk_78()));
    assert(canonical(id_continue_chunk_79()));
    lemma_canonical_append(id_continue_chunk_70(), id_continue_chunk_71());
    lemma_canonical_append(id_continue_chunk_70() + id_continue_chunk_71(), id_continue_chunk_72());
    lemma_canonical_append(id_continue_chunk_70() + id_continue_chunk_71() + id_continue_chunk_72(), id_continue_chunk_73());
    lemma_canonical_append(id_continue_chunk_70() + id_continue_chunk_71() + id_continue_chunk_72() + id_continue_chunk_73(), id_continue_chunk_74());
    lemma_canonical_append(id_continue_chunk_70() + id_continue_chunk_71() + id_continue_chunk_72() + id_continue_chunk_73() + id_continue_chunk_74(), id_continue_chunk_75());
    lemma_canonical_append(id_continue_chunk_70() + id_continue_chunk_71() + id_continue_chunk_72() + id_continue_chunk_73() + id_continue_chunk_74() + id_continue_chunk_75(), id_continue_chunk_76());
    lemma_canonical_append(id_continue_chunk_70() + id_continue_chunk_71() + id_continue_chunk_72() + id_continue_chunk_73() + id_continue_chunk_74() + id_continue_chunk_75() + id_continue_chunk_76(), id_continue_chunk_77());
    lemma_canonical_append(id_continue_chunk_70() + id_continue_chunk_71() + id_continue_chunk_72() + id_continue_chunk_73() + id_continue_chunk_74() + id_continue_chunk_75() + id_continue_chunk_76() + id_continue_chunk_77(), id_continue_chunk_78());
    lemma_canonical_append(id_continue_chunk_70() + id_continue_chunk_71() + id_continue_chunk_72() + id_continue_chunk_73() + id_continue_chunk_74() + id_continue_chunk_75() + id_continue_chunk_76() + id_continue_chunk_77() + id_continue_chunk_78(), id_continue_chunk_79());
}

proof fn lemma_id_continue_block_8()
    ensures
        canonical(id_continue_block_8()),
        id_continue_block_8().len() > 0,
        id_continue_block_8()[0] == id_continue_chunk_80()[0],
        id_continue_block_8().last() == id_continue_chunk_89().last(),
{
    reveal_with_fuel(canonical, 9);
    assert(canonical(id_continue_chunk_80()));
    assert(canonical(id_continue_chunk_81()));
    assert(canonical(id_continue_chunk_82()));
    assert(canonical(id_continue_chunk_83()));
    assert(canonical(id_continue_chunk_84()));
    assert(canonical(id_continue_chunk_85()));
    assert(canonical(id_continue_chunk_86()));
    assert(canonical(id_continue_chunk_87()));
    assert(canonical(id_continue_chunk_88()));
    assert(canonical(id_continue_chunk_89()));
    lemma_canonical_append(id_continue_chunk_80(), id_continue_chunk_81());
    lemma_canonical_append(id_continue_chunk_80() + id_continue_chunk_81(), id_continue_chunk_82());
    lemma_canonical_append(id_continue_chunk_80() + id_continue_chunk_81() + id_continue_chunk_82(), id_continue_chunk_83());
    lemma_canonical_append(id_continue_chunk_80() + id_continue_chunk_81() + id_continue_chunk_82() + id_continue_chunk_83(), id_continue_chunk_84());
    lemma_canonical_append(id_continue_chunk_80() + id_continue_chunk_81() + id_continue_chunk_82() + id_continue_chunk_83() + id_continue_chunk_84(), id_continue_chunk_85());
    lemma_canonical_append(id_continue_chunk_80() + id_continue_chunk_81() + id_continue_chunk_82() + id_continue_chunk_83() + id_continue_chunk_84() + id_continue_chunk_85(), id_continue_chunk_86());
    lemma_canonical_append(id_continue_chunk_80() + id_continue_chunk_81() + id_continue_chunk_82() + id_continue_chunk_83() + id_continue_chunk_84() + id_continue_chunk_85() + id_continue_chunk_86(), id_continue_chunk_87());
    lemma_canonical_append(id_continue_chunk_80() + id_continue_chunk_81() + id_continue_chunk_82() + id_continue_chunk_83() + id_continue_chunk_84() + id_continue_chunk_85() + id_continue_chunk_86() + id_continue_chunk_87(), id_continue_chunk_88());
    lemma_canonical_append(id_continue_chunk_80() + id_continue_chunk_81() + id_continue_chunk_82() + id_continue_chunk_83() + id_continue_chunk_84() + id_continue_chunk_85() + id_continue_chunk_86() + id_continue_chunk_87() + id_continue_chunk_88(), id_continue_chunk_89());
}

proof fn lemma_id_continue_block_9()
    ensures
        canonical(id_continue_block_9()),
        id_continue_block_9().len() > 0,
        id_continue_block_9()[0] == id_continue_chunk_90()[0],
        id_continue_block_9().last() == id_continue_chunk_99().last(),
{
    reveal_with_fuel(canonical, 9);
    assert(canonical(id_continue_chunk_90()));
    assert(canonical(id_continue_chunk_91()));
    assert(canonical(id_continue_chunk_92()));
    assert(canonical(id_continue_chunk_93()));
    assert(canonical(id_continue_chunk_94()));
    assert(canonical(id_continue_chunk_95()));
    assert(canonical(id_continue_chunk_96()));
    assert(canonical(id_continue_chunk_97()));
    assert(canonical(id_continue_chunk_98()));
    assert(canonical(id_continue_chunk_99()));
    lemma_canonical_append(id_continue_chunk_90(), id_continue_chunk_91());
    lemma_canonical_append(id_continue_chunk_90() + id_continue_chunk_91(), id_continue_chunk_92());
    lemma_canonical_append(id_continue_chunk_90() + id_continue_chunk_91() + id_continue_chunk_92(), id_continue_chunk_93());
    lemma_canonical_append(id_continue_chunk_90() + id_continue_chunk_91() + id_continue_chunk_92() + id_continue_chunk_93(), id_continue_chunk_94());
    lemma_canonical_append(id_continue_chunk_90() + id_continue_chunk_91() + id_continue_chunk_92() + id_continue_chunk_93() + id_continue_chunk_94(), id_continue_chunk_95());
    lemma_canonical_append(id_continue_chunk_90() + id_continue_chunk_91() + id_continue_chunk_92() + id_continue_chunk_93() + id_continue_chunk_94() + id_continue_chunk_95(), id_continue_chunk_96());
    lemma_canonical_append(id_continue_chunk_90() + id_continue_chunk_91() + id_continue_chunk_92() + id_continue_chunk_93() + id_continue_chunk_94() + id_continue_chunk_95() + id_continue_chunk_96(), id_continue_chunk_97());
    lemma_canonical_append(id_continue_chunk_90() + id_continue_chunk_91() + id_continue_chunk_92() + id_continue_chunk_93() + id_continue_chunk_94() + id_continue_chunk_95() + id_continue_chunk_96() + id_continue_chunk_97(), id_continue_chunk_98());
    lemma_canonical_append(id_continue_chunk_90() + id_continue_chunk_91() + id_continue_chunk_92() + id_continue_chunk_93() + id_continue_chunk_94() + id_continue_chunk_95() + id_continue_chunk_96() + id_continue_chunk_97() + id_continue_chunk_98(), id_continue_chunk_99());
}

#[verifier::rlimit(100)]
pub proof fn lemma_id_continue_canonical()
    ensures
        canonical(id_continue_ranges()),
{
    lemma_id_continue_block_0();
    lemma_id_continue_block_1();
    lemma_id_continue_block_2();
    lemma_id_continue_block_3();
    lemma_id_continue_block_4();
    lemma_id_continue_block_5();
    lemma_id_continue_block_6();
    lemma_id_continue_block_7();
    lemma_id_continue_block_8();
    lemma_id_continue_block_9();
    lemma_canonical_append(id_continue_block_0(), id_continue_block_1());
    lemma_canonical_append(id_continue_block_0() + id_continue_block_1(), id_continue_block_2());
    lemma_canonical_append(id_continue_block_0() + id_continue_block_1() + id_continue_block_2(), id_continue_block_3());
    lemma_canonical_append(id_continue_block_0() + id_continue_block_1() + id_continue_block_2() + id_continue_block_3(), id_continue_block_4());
    lemma_canonical_append(id_continue_block_0() + id_continue_block_1() + id_continue_block_2() + id_continue_block_3() + id_continue_block_4(), id_continue_block_5());
    lemma_canonical_append(id_continue_block_0() + id_continue_block_1() + id_continue_block_2() + id_continue_block_3() + id_continue_block_4() + id_continue_block_5(), id_continue_block_6());
    lemma_canonical_append(id_continue_block_0() + id_continue_block_1() + id_continue_block_2() + id_continue_block_3() + id_continue_block_4() + id_continue_block_5() + id_continue_block_6(), id_continue_block_7());
    lemma_canonical_append(id_continue_block_0() + id_continue_block_1() + id_continue_block_2() + id_continue_block_3() + id_continue_block_4() + id_continue_block_5() + id_continue_block_6() + id_continue_block_7(), id_continue_block_8());
    lemma_canonical_append(id_continue_block_0() + id_continue_block_1() + id_continue_block_2() + id_continue_block_3() + id_continue_block_4() + id_continue_block_5() + id_continue_block_6() + id_continue_block_7() + id_continue_block_8(), id_continue_block_9());
}

fn push_id_continue_chunk_0(v: &mut Vec<ClassUnicodeRange>)
    ensures
        rview(final(v)@) == rview(old(v)@) + id_continue_chunk_0(),
{
    let ghost o = rview(v@);
    push_range(v, '\u{30}', '\u{39}');
    push_range(v, '\u{41}', '\u{5A}');
    push_range(v, '\u{5F}', '\u{5F}');
    push_range(v, '\u{61}', '\u{7A}');
    push_range(v, '\u{AA}', '\u{AA}');
    push_range(v, '\u{B5}', '\u{B5}');
    push_range(v, '\u{B7}', '\u{B7}');
    push_range(v, '\u{BA}', '\u{BA}');
    assert(rview(v@) =~= o + id_continue_chunk_0());
}

fn push_id_continue_chunk_1(v: &mut Vec<ClassUnicodeRange>)
    ensures
        rview(final(v)@) == rview(old(v)@) + id_continue_chunk_1(),
{
    let ghost o = rview(v@);
    push_range(v, '\u{C0}', '\u{D6}');
    push_range(v, '\u{D8}', '\u{F6}');
    push_range(v, '\u{F8}', '\u{2C1}');
    push_range(v, '\u{2C6}', '\u{2D1}');
    push_range(v, '\u{2E0}', '\u{2E4}');
    push_range(v, '\u{2EC}', '\u{2EC}');
    push_range(v, '\u{2EE}', '\u{2EE}');
    push_range(v, '\u{300}', '\u{374}');
    assert(rview(v@) =~= o + id_continue_chunk_1());
}

fn push_id_continue_chunk_2(v: &mut Vec<ClassUnicodeRange>)
    ensures
        rview(final(v)@) == rview(old(v)@) + id_continue_chunk_2(),
{
    let ghost o = rview(v@);
    push_range(v, '\u{376}', '\u{377}');
    push_range(v, '\u{37A}', '\u{37D}');
    push_range(v, '\u{37F}', '\u{37F}');
    push_range(v, '\u{386}', '\u{38A}');
    push_range(v, '\u{38C}', '\u{38C}');
    push_range(v, '\u{38E}', '\u{3A1}');
    push_range(v, '\u{3A3}', '\u{3F5}');
    push_range(v, '\u{3F7}', '\u{481}');
    assert(rview(v@) =~= o + id_continue_chunk_2());
}

fn push_id_continue_chunk_3(v: &mut Vec<ClassUnicodeRange>)
    ensures
        rview(final(v)@) == rview(old(v)@) + id_continue_chunk_3(),
{
    let ghost o = rview(v@);
    push_range(v, '\u{483}', '\u{487}');
    push_range(v, '\u{48A}', '\u{52F}');
    push_range(v, '\u{531}', '\u{556}');
    push_range(v, '\u{559}', '\u{559}');
    push_range(v, '\u{560}', '\u{588}');
    push_range(v, '\u{591}', '\u{5BD}');
    push_range(v, '\u{5BF}', '\u{5BF}');
    push_range(v, '\u{5C1}', '\u{5C2}');
    assert(rview(v@) =~= o + id_continue_chunk_3());
}

fn push_id_continue_chunk_4(v: &mut Vec<ClassUnicodeRange>)
    ensures
        rview(final(v)@) == rview(old(v)@) + id_continue_chunk_4(),
{
    let ghost o = rview(v@);
    push_range(v, '\u{5C4}', '\u{5C5}');
    push_range(v, '\u{5C7}', '\u{5C7}');
    push_range(v, '\u{5D0}', '\u{5EA}');
    push_range(v, '\u{5EF}', '\u{5F2}');
    push_range(v, '\u{610}', '\u{61A}');
    push_range(v, '\u{620}', '\u{669}');
    push_range(v, '\u{66E}', '\u{6D3}');
    push_range(v, '\u{6D5}', '\u{6DC}');
    assert(rview(v@) =~= o + id_continue_chunk_4());
}

fn push_id_continue_chunk_5(v: &mut Vec<ClassUnicodeRange>)
    ensures
        rview(final(v)@) == rview(old(v)@) + id_continue_chunk_5(),
{
    let ghost o = rview(v@);
    push_range(v, '\u{6DF}', '\u{6E8}');
    push_range(v, '\u{6EA}', '\u{6FC}');
    push_range(v, '\u{6FF}', '\u{6FF}');
    push_range(v, '\u{710}', '\u{74A}');
    push_range(v, '\u{74D}', '\u{7B1}');
    push_range(v, '\u{7C0}', '\u{7F5}');
    push_range(v, '\u{7FA}', '\u{7FA}');
    push_range(v, '\u{7FD}', '\u{7FD}');
    assert(rview(v@) =~= o + id_continue_chunk_5());
}

fn push_id_continue_chunk_6(v: &mut Vec<ClassUnicodeRange>)
    ensures
        rview(final(v)@) == rview(old(v)@) + id_continue_chunk_6(),
{
    let ghost o = rview(v@);
    push_range(v, '\u{800}', '\u{82D}');
    push_range(v, '\u{840}', '\u{85B}');
    push_range(v, '\u{860}', '\u{86A}');
    push_range(v, '\u{870}', '\u{887}');
    push_range(v, '\u{889}', '\u{88E}');
    push_range(v, '\u{897}', '\u{8E1}');
    push_range(v, '\u{8E3}', '\u{963}');
    push_range(v, '\u{966}', '\u{96F}');
    assert(rview(v@) =~= o + id_continue_chunk_6());
}

fn push_id_continue_chunk_7(v: &mut Vec<ClassUnicodeRange>)
    ensures
        rview(final(v)@) == rview(old(v)@) + id_continue_chunk_7(),
{
    let ghost o = rview(v@);
    push_range(v, '\u{971}', '\u{983}');
    push_range(v, '\u{985}', '\u{98C}');
    push_range(v, '\u{98F}', '\u{990}');
    push_range(v, '\u{993}', '\u{9A8}');
    push_range(v, '\u{9AA}', '\u{9B0}');
    push_range(v, '\u{9B2}', '\u{9B2}');
    push_range(v, '\u{9B6}', '\u{9B9}');
    push_range(v, '\u{9BC}', '\u{9C4}');
    assert(rview(v@) =~= o + id_continue_chunk_7());
}

fn push_id_continue_chunk_8(v: &mut Vec<ClassUnicodeRange>)
    ensures
        rview(final(v)@) == rview(old(v)@) + id_continue_chunk_8(),
{
    let ghost o = rview(v@);
    push_range(v, '\u{9C7}', '\u{9C8}');
    push_range(v, '\u{9CB}', '\u{9CE}');
    push_range(v, '\u{9D7}', '\u{9D7}');
    push_range(v, '\u{9DC}', '\u{9DD}');
    push_range(v, '\u{9DF}', '\u{9E3}');
    push_range(v, '\u{9E6}', '\u{9F1}');
    push_range(v, '\u{9FC}', '\u{9FC}');
    push_range(v, '\u{9FE}', '\u{9FE}');
    assert(rview(v@) =~= o + id_continue_chunk_8());
}

fn push_id_continue_chunk_9(v: &mut Vec<ClassUnicodeRange>)
    ensures
        rview(final(v)@) == rview(old(v)@) + id_continue_chunk_9(),
{
    let ghost o = rview(v@);
    push_range(v, '\u{A01}', '\u{A03}');
    push_range(v, '\u{A05}', '\u{A0A}');
    push_range(v, '\u{A0F}', '\u{A10}');
    push_range(v, '\u{A13}', '\u{A28}');
    push_range(v, '\u{A2A}', '\u{A30}');
    push_range(v, '\u{A32}', '\u{A33}');
    push_range(v, '\u{A35}', '\u{A36}');
    push_range(v, '\u{A38}', '\u{A39}');
    assert(rview(v@) =~= o + id_continue_chunk_9());
}

fn push_id_continue_chunk_10(v: &mut Vec<ClassUnicodeRange>)
    ensures
        rview(final(v)@) == rview(old(v)@) + id_continue_chunk_10(),
{
    let ghost o = rview(v@);
    push_range(v, '\u{A3C}', '\u{A3C}');
    push_range(v, '\u{A3E}', '\u{A42}');
    push_range(v, '\u{A47}', '\u{A48}');
    push_range(v, '\u{A4B}', '\u{A4D}');
    push_range(v, '\u{A51}', '\u{A51}');
    push_range(v, '\u{A59}', '\u{A5C}');
    push_range(v, '\u{A5E}', '\u{A5E}');
    push_range(v, '\u{A66}', '\u{A75}');
    assert(rview(v@) =~= o + id_continue_chunk_10());
}

fn push_id_continue_chunk_11(v: &mut Vec<ClassUnicodeRange>)
    ensures
        rview(final(v)@) == rview(old(v)@) + id_continue_chunk_11(),
{
    let ghost o = rview(v@);
    push_range(v, '\u{A81}', '\u{A83}');
    push_range(v, '\u{A85}', '\u{A8D}');
    push_range(v, '\u{A8F}', '\u{A91}');
    push_range(v, '\u{A93}', '\u{AA8}');
    push_range(v, '\u{AAA}', '\u{AB0}');
    push_range(v, '\u{AB2}', '\u{AB3}');
    push_range(v, '\u{AB5}', '\u{AB9}');
    push_range(v, '\u{ABC}', '\u{AC5}');
    assert(rview(v@) =~= o + id_continue_chunk_11());
}

fn push_id_continue_chunk_12(v: &mut Vec<ClassUnicodeRange>)
    ensures
        rview(final(v)@) == rview(old(v)@) + id_continue_chunk_12(),
{
    let ghost o = rview(v@);
    push_range(v, '\u{AC7}', '\u{AC9}');
    push_range(v, '\u{ACB}', '\u{ACD}');
    push_range(v, '\u{AD0}', '\u{AD0}');
    push_range(v, '\u{AE0}', '\u{AE3}');
    push_range(v, '\u{AE6}', '\u{AEF}');
    push_range(v, '\u{AF9}', '\u{AFF}');
    push_range(v, '\u{B01}', '\u{B03}');
    push_range(v, '\u{B05}', '\u{B0C}');
    assert(rview(v@) =~= o + id_continue_chunk_12());
}

fn push_id_continue_chunk_13(v: &mut Vec<ClassUnicodeRange>)
    ensures
        rview(final(v)@) == rview(old(v)@) + id_continue_chunk_13(),
{
    let ghost o = rview(v@);
    push_range(v, '\u{B0F}', '\u{B10}');
    push_range(v, '\u{B13}', '\u{B28}');
    push_range(v, '\u{B2A}', '\u{B30}');
    push_range(v, '\u{B32}', '\u{B33}');
    push_range(v, '\u{B35}', '\u{B39}');
    push_range(v, '\u{B3C}', '\u{B44}');
    push_range(v, '\u{B47}', '\u{B48}');
    push_range(v, '\u{B4B}', '\u{B4D}');
    assert(rview(v@) =~= o + id_continue_chunk_13());
}

fn push_id_continue_chunk_14(v: &mut Vec<ClassUnicodeRange>)
    ensures
        rview(final(v)@) == rview(old(v)@) + id_continue_chunk_14(),
{
    let ghost o = rview(v@);
    push_range(v, '\u{B55}', '\u{B57}');
    push_range(v, '\u{B5C}', '\u{B5D}');
    push_range(v, '\u{B5F}', '\u{B63}');
    push_range(v, '\u{B66}', '\u{B6F}');
    push_range(v, '\u{B71}', '\u{B71}');
    push_range(v, '\u{B82}', '\u{B83}');
    push_range(v, '\u{B85}', '\u{B8A}');
    push_range(v, '\u{B8E}', '\u{B90}');
    assert(rview(v@) =~= o + id_continue_chunk_14());
}

fn push_id_continue_chunk_15(v: &mut Vec<ClassUnicodeRange>)
    ensures
        rview(final(v)@) == rview(old(v)@) + id_continue_chunk_15(),
{
    let ghost o = rview(v@);
    push_range(v, '\u{B92}', '\u{B95}');
    push_range(v, '\u{B99}', '\u{B9A}');
    push_range(v, '\u{B9C}', '\u{B9C}');
    push_range(v, '\u{B9E}', '\u{B9F}');
    push_range(v, '\u{BA3}', '\u{BA4}');
    push_range(v, '\u{BA8}', '\u{BAA}');
    push_range(v, '\u{BAE}', '\u{BB9}');
    push_range(v, '\u{BBE}', '\u{BC2}');
    assert(rview(v@) =~= o + id_continue_chunk_15());
}

fn push_id_continue_chunk_16(v: &mut Vec<ClassUnicodeRange>)
    ensures
        rview(final(v)@) == rview(old(v)@) + id_continue_chunk_16(),
{
    let ghost o = rview(v@);
    push_range(v, '\u{BC6}', '\u{BC8}');
    push_range(v, '\u{BCA}', '\u{BCD}');
    push_range(v, '\u{BD0}', '\u{BD0}');
    push_range(v, '\u{BD7}', '\u{BD7}');
    push_range(v, '\u{BE6}', '\u{BEF}');
    push_range(v, '\u{C00}', '\u{C0C}');
    push_range(v, '\u{C0E}', '\u{C10}');
    push_range(v, '\u{C12}', '\u{C28}');
    assert(rview(v@) =~= o + id_continue_chunk_16());
}

fn push_id_continue_chunk_17(v: &mut Vec<ClassUnicodeRange>)
    ensures
        rview(final(v)@) == rview(old(v)@) + id_continue_chunk_17(),
{
    let ghost o = rview(v@);
    push_range(v, '\u{C2A}', '\u{C39}');
    push_range(v, '\u{C3C}', '\u{C44}');
    push_range(v, '\u{C46}', '\u{C48}');
    push_range(v, '\u{C4A}', '\u{C4D}');
    push_range(v, '\u{C55}', '\u{C56}');
    push_range(v, '\u{C58}', '\u{C5A}');
    push_range(v, '\u{C5D}', '\u{C5D}');
    push_range(v, '\u{C60}', '\u{C63}');
    assert(rview(v@) =~= o + id_continue_chunk_17());
}

fn push_id_continue_chunk_18(v: &mut Vec<ClassUnicodeRange>)
    ensures
        rview(final(v)@) == rview(old(v)@) + id_continue_chunk_18(),
{
    let ghost o = rview(v@);
    push_range(v, '\u{C66}', '\u{C6F}');
    push_range(v, '\u{C80}', '\u{C83}');
    push_range(v, '\u{C85}', '\u{C8C}');
    push_range(v, '\u{C8E}', '\u{C90}');
    push_range(v, '\u{C92}', '\u{CA8}');
    push_range(v, '\u{CAA}', '\u{CB3}');
    push_range(v, '\u{CB5}', '\u{CB9}');
    push_range(v, '\u{CBC}', '\u{CC4}');
    assert(rview(v@) =~= o + id_continue_chunk_18());
}

fn push_id_continue_chunk_19(v: &mut Vec<ClassUnicodeRange>)
    ensures
        rview(final(v)@) == rview(old(v)@) + id_continue_chunk_19(),
{
    let ghost o = rview(v@);
    push_range(v, '\u{CC6}', '\u{CC8}');
    push_range(v, '\u{CCA}', '\u{CCD}');
    push_range(v, '\u{CD5}', '\u{CD6}');
    push_range(v, '\u{CDD}', '\u{CDE}');
    push_range(v, '\u{CE0}', '\u{CE3}');
    push_range(v, '\u{CE6}', '\u{CEF}');
    push_range(v, '\u{CF1}', '\u{CF3}');
    push_range(v, '\u{D00}', '\u{D0C}');
    assert(rview(v@) =~= o + id_continue_chunk_19());
}

fn push_id_continue_chunk_20(v: &mut Vec<ClassUnicodeRange>)
    ensures
        rview(final(v)@) == rview(old(v)@) + id_continue_chunk_20(),
{
    let ghost o = rview(v@);
    push_range(v, '\u{D0E}', '\u{D10}');
    push_range(v, '\u{D12}', '\u{D44}');
    push_range(v, '\u{D46}', '\u{D48}');
    push_range(v, '\u{D4A}', '\u{D4E}');
    push_range(v, '\u{D54}', '\u{D57}');
    push_range(v, '\u{D5F}', '\u{D63}');
    push_range(v, '\u{D66}', '\u{D6F}');
    push_range(v, '\u{D7A}', '\u{D7F}');
    assert(rview(v@) =~= o + id_continue_chunk_20());
}

fn push_id_continue_chunk_21(v: &mut Vec<ClassUnicodeRange>)
    ensures
        rview(final(v)@) == rview(old(v)@) + id_continue_chunk_21(),
{
    let ghost o = rview(v@);
    push_range(v, '\u{D81}', '\u{D83}');
    push_range(v, '\u{D85}', '\u{D96}');
    push_range(v, '\u{D9A}', '\u{DB1}');
    push_range(v, '\u{DB3}', '\u{DBB}');
    push_range(v, '\u{DBD}', '\u{DBD}');
    push_range(v, '\u{DC0}', '\u{DC6}');
    push_range(v, '\u{DCA}', '\u{DCA}');
    push_range(v, '\u{DCF}', '\u{DD4}');
    assert(rview(v@) =~= o + id_continue_chunk_21());
}

fn push_id_continue_chunk_22(v: &mut Vec<ClassUnicodeRange>)
    ensures
        rview(final(v)@) == rview(old(v)@) + id_continue_chunk_22(),
{
    let ghost o = rview(v@);
    push_range(v, '\u{DD6}', '\u{DD6}');
    push_range(v, '\u{DD8}', '\u{DDF}');
    push_range(v, '\u{DE6}', '\u{DEF}');
    push_range(v, '\u{DF2}', '\u{DF3}');
    push_range(v, '\u{E01}', '\u{E3A}');
    push_range(v, '\u{E40}', '\u{E4E}');
    push_range(v, '\u{E50}', '\u{E59}');
    push_range(v, '\u{E81}', '\u{E82}');
    assert(rview(v@) =~= o + id_continue_chunk_22());
}

fn push_id_continue_chunk_23(v: &mut Vec<ClassUnicodeRange>)
    ensures
        rview(final(v)@) == rview(old(v)@) + id_continue_chunk_23(),
{
    let ghost o = rview(v@);
    push_range(v, '\u{E84}', '\u{E84}');
    push_range(v, '\u{E86}', '\u{E8A}');
    push_range(v, '\u{E8C}', '\u{EA3}');
    push_range(v, '\u{EA5}', '\u{EA5}');
    push_range(v, '\u{EA7}', '\u{EBD}');
    push_range(v, '\u{EC0}', '\u{EC4}');
    push_range(v, '\u{EC6}', '\u{EC6}');
    push_range(v, '\u{EC8}', '\u{ECE}');
    assert(rview(v@) =~= o + id_continue_chunk_23());
}

fn push_id_continue_chunk_24(v: &mut Vec<ClassUnicodeRange>)
    ensures
        rview(final(v)@) == rview(old(v)@) + id_continue_chunk_24(),
{
    let ghost o = rview(v@);
    push_range(v, '\u{ED0}', '\u{ED9}');
    push_range(v, '\u{EDC}', '\u{EDF}');
    push_range(v, '\u{F00}', '\u{F00}');
    push_range(v, '\u{F18}', '\u{F19}');
    push_range(v, '\u{F20}', '\u{F29}');
    push_range(v, '\u{F35}', '\u{F35}');
    push_range(v, '\u{F37}', '\u{F37}');
    push_range(v, '\u{F39}', '\u{F39}');
    assert(rview(v@) =~= o + id_continue_chunk_24());
}

fn push_id_continue_chunk_25(v: &mut Vec<ClassUnicodeRange>)
    ensures
        rview(final(v)@) == rview(old(v)@) + id_continue_chunk_25(),
{
    let ghost o = rview(v@);
    push_range(v, '\u{F3E}', '\u{F47}');
    push_range(v, '\u{F49}', '\u{F6C}');
    push_range(v, '\u{F71}', '\u{F84}');
    push_range(v, '\u{F86}', '\u{F97}');
    push_range(v, '\u{F99}', '\u{FBC}');
    push_range(v, '\u{FC6}', '\u{FC6}');
    push_range(v, '\u{1000}', '\u{1049}');
    push_range(v, '\u{1050}', '\u{109D}');
    assert(rview(v@) =~= o + id_continue_chunk_25());
}

fn push_id_continue_chunk_26(v: &mut Vec<ClassUnicodeRange>)
    ensures
        rview(final(v)@) == rview(old(v)@) + id_continue_chunk_26(),
{
    let ghost o = rview(v@);
    push_range(v, '\u{10A0}', '\u{10C5}');
    push_range(v, '\u{10C7}', '\u{10C7}');
    push_range(v, '\u{10CD}', '\u{10CD}');
    push_range(v, '\u{10D0}', '\u{10FA}');
    push_range(v, '\u{10FC}', '\u{1248}');
    push_range(v, '\u{124A}', '\u{124D}');
    push_range(v, '\u{1250}', '\u{1256}');
    push_range(v, '\u{1258}', '\u{1258}');
    assert(rview(v@) =~= o + id_continue_chunk_26());
}

fn push_id_continue_chunk_27(v: &mut Vec<ClassUnicodeRange>)
    ensures
        rview(final(v)@) == rview(old(v)@) + id_continue_chunk_27(),
{
    let ghost o = rview(v@);
    push_range(v, '\u{125A}', '\u{125D}');
    push_range(v, '\u{1260}', '\u{1288}');
    push_range(v, '\u{128A}', '\u{128D}');
    push_range(v, '\u{1290}', '\u{12B0}');
    push_range(v, '\u{12B2}', '\u{12B5}');
    push_range(v, '\u{12B8}', '\u{12BE}');
    push_range(v, '\u{12C0}', '\u{12C0}');
    push_range(v, '\u{12C2}', '\u{12C5}');
    assert(rview(v@) =~= o + id_continue_chunk_27());
}

fn push_id_continue_chunk_28(v: &mut Vec<ClassUnicodeRange>)
    ensures
        rview(final(v)@) == rview(old(v)@) + id_continue_chunk_28(),
{
    let ghost o = rview(v@);
    push_range(v, '\u{12C8}', '\u{12D6}');
    push_range(v, '\u{12D8}', '\u{1310}');
    push_range(v, '\u{1312}', '\u{1315}');
    push_range(v, '\u{1318}', '\u{135A}');
    push_range(v, '\u{135D}', '\u{135F}');
    push_range(v, '\u{1369}', '\u{1371}');
    push_range(v, '\u{1380}', '\u{138F}');
    push_range(v, '\u{13A0}', '\u{13F5}');
    assert(rview(v@) =~= o + id_continue_chunk_28());
}

fn push_id_continue_chunk_29(v: &mut Vec<ClassUnicodeRange>)
    ensures
        rview(final(v)@) == rview(old(v)@) + id_continue_chunk_29(),
{
    let ghost o = rview(v@);
    push_range(v, '\u{13F8}', '\u{13FD}');
    push_range(v, '\u{1401}', '\u{166C}');
    push_range(v, '\u{166F}', '\u{167F}');
    push_range(v, '\u{1681}', '\u{169A}');
    push_range(v, '\u{16A0}', '\u{16EA}');
    push_range(v, '\u{16EE}', '\u{16F8}');
    push_range(v, '\u{1700}', '\u{1715}');
    push_range(v, '\u{171F}', '\u{1734}');
    assert(rview(v@) =~= o + id_continue_chunk_29());
}

fn push_id_continue_chunk_30(v: &mut Vec<ClassUnicodeRange>)
    ensures
        rview(final(v)@) == rview(old(v)@) + id_continue_chunk_30(),
{
    let ghost o = rview(v@);
    push_range(v, '\u{1740}', '\u{1753}');
    push_range(v, '\u{1760}', '\u{176C}');
    push_range(v, '\u{176E}', '\u{1770}');
    push_range(v, '\u{1772}', '\u{1773}');
    push_range(v, '\u{1780}', '\u{17D3}');
    push_range(v, '\u{17D7}', '\u{17D7}');
    push_range(v, '\u{17DC}', '\u{17DD}');
    push_range(v, '\u{17E0}', '\u{17E9}');
    assert(rview(v@) =~= o + id_continue_chunk_30());
}

fn push_id_continue_chunk_31(v: &mut Vec<ClassUnicodeRange>)
    ensures
        rview(final(v)@) == rview(old(v)@) + id_continue_chunk_31(),
{
    let ghost o = rview(v@);
    push_range(v, '\u{180B}', '\u{180D}');
    push_range(v, '\u{180F}', '\u{1819}');
    push_range(v, '\u{1820}', '\u{1878}');
    push_range(v, '\u{1880}', '\u{18AA}');
    push_range(v, '\u{18B0}', '\u{18F5}');
    push_range(v, '\u{1900}', '\u{191E}');
    push_range(v, '\u{1920}', '\u{192B}');
    push_range(v, '\u{1930}', '\u{193B}');
    assert(rview(v@) =~= o + id_continue_chunk_31());
}

fn push_id_continue_chunk_32(v: &mut Vec<ClassUnicodeRange>)
    ensures
        rview(final(v)@) == rview(old(v)@) + id_continue_chunk_32(),
{
    let ghost o = rview(v@);
    push_range(v, '\u{1946}', '\u{196D}');
    push_range(v, '\u{1970}', '\u{1974}');
    push_range(v, '\u{1980}', '\u{19AB}');
    push_range(v, '\u{19B0}', '\u{19C9}');
    push_range(v, '\u{19D0}', '\u{19DA}');
    push_range(v, '\u{1A00}', '\u{1A1B}');
    push_range(v, '\u{1A20}', '\u{1A5E}');
    push_range(v, '\u{1A60}', '\u{1A7C}');
    assert(rview(v@) =~= o + id_continue_chunk_32());
}

fn push_id_continue_chunk_33(v: &mut Vec<ClassUnicodeRange>)
    ensures
        rview(final(v)@) == rview(old(v)@) + id_continue_chunk_33(),
{
    let ghost o = rview(v@);
    push_range(v, '\u{1A7F}', '\u{1A89}');
    push_range(v, '\u{1A90}', '\u{1A99}');
    push_range(v, '\u{1AA7}', '\u{1AA7}');
    push_range(v, '\u{1AB0}', '\u{1ABD}');
    push_range(v, '\u{1ABF}', '\u{1ACE}');
    push_range(v, '\u{1B00}', '\u{1B4C}');
    push_range(v, '\u{1B50}', '\u{1B59}');
    push_range(v, '\u{1B6B}', '\u{1B73}');
    assert(rview(v@) =~= o + id_continue_chunk_33());
}

fn push_id_continue_chunk_34(v: &mut Vec<ClassUnicodeRange>)
    ensures
        rview(final(v)@) == rview(old(v)@) + id_continue_chunk_34(),
{
    let ghost o = rview(v@);
    push_range(v, '\u{1B80}', '\u{1BF3}');
    push_range(v, '\u{1C00}', '\u{1C37}');
    push_range(v, '\u{1C40}', '\u{1C49}');
    push_range(v, '\u{1C4D}', '\u{1C7D}');
    push_range(v, '\u{1C80}', '\u{1C8A}');
    push_range(v, '\u{1C90}', '\u{1CBA}');
    push_range(v, '\u{1CBD}', '\u{1CBF}');
    push_range(v, '\u{1CD0}', '\u{1CD2}');
    assert(rview(v@) =~= o + id_continue_chunk_34());
}

fn push_id_continue_chunk_35(v: &mut Vec<ClassUnicodeRange>)
    ensures
        rview(final(v)@) == rview(old(v)@) + id_continue_chunk_35(),
{
    let ghost o = rview(v@);
    push_range(v, '\u{1CD4}', '\u{1CFA}');
    push_range(v, '\u{1D00}', '\u{1F15}');
    push_range(v, '\u{1F18}', '\u{1F1D}');
    push_range(v, '\u{1F20}', '\u{1F45}');
    push_range(v, '\u{1F48}', '\u{1F4D}');
    push_range(v, '\u{1F50}', '\u{1F57}');
    push_range(v, '\u{1F59}', '\u{1F59}');
    push_range(v, '\u{1F5B}', '\u{1F5B}');
    assert(rview(v@) =~= o + id_continue_chunk_35());
}

fn push_id_continue_chunk_36(v: &mut Vec<ClassUnicodeRange>)
    ensures
        rview(final(v)@) == rview(old(v)@) + id_continue_chunk_36(),
{
    let ghost o = rview(v@);
    push_range(v, '\u{1F5D}', '\u{1F5D}');
    push_range(v, '\u{1F5F}', '\u{1F7D}');
    push_range(v, '\u{1F80}', '\u{1FB4}');
    push_range(v, '\u{1FB6}', '\u{1FBC}');
    push_range(v, '\u{1FBE}', '\u{1FBE}');
    push_range(v, '\u{1FC2}', '\u{1FC4}');
    push_range(v, '\u{1FC6}', '\u{1FCC}');
    push_range(v, '\u{1FD0}', '\u{1FD3}');
    assert(rview(v@) =~= o + id_continue_chunk_36());
}

fn push_id_continue_chunk_37(v: &mut Vec<ClassUnicodeRange>)
    ensures
        rview(final(v)@) == rview(old(v)@) + id_continue_chunk_37(),
{
    let ghost o = rview(v@);
    push_range(v, '\u{1FD6}', '\u{1FDB}');
    push_range(v, '\u{1FE0}', '\u{1FEC}');
    push_range(v, '\u{1FF2}', '\u{1FF4}');
    push_range(v, '\u{1FF6}', '\u{1FFC}');
    push_range(v, '\u{200C}', '\u{200D}');
    push_range(v, '\u{203F}', '\u{2040}');
    push_range(v, '\u{2054}', '\u{2054}');
    push_range(v, '\u{2071}', '\u{2071}');
    assert(rview(v@) =~= o + id_continue_chunk_37());
}

fn push_id_continue_chunk_38(v: &mut Vec<ClassUnicodeRange>)
    ensures
        rview(final(v)@) == rview(old(v)@) + id_continue_chunk_38(),
{
    let ghost o = rview(v@);
    push_range(v, '\u{207F}', '\u{207F}');
    push_range(v, '\u{2090}', '\u{209C}');
    push_range(v, '\u{20D0}', '\u{20DC}');
    push_range(v, '\u{20E1}', '\u{20E1}');
    push_range(v, '\u{20E5}', '\u{20F0}');
    push_range(v, '\u{2102}', '\u{2102}');
    push_range(v, '\u{2107}', '\u{2107}');
    push_range(v, '\u{210A}', '\u{2113}');
    assert(rview(v@) =~= o + id_continue_chunk_38());
}

fn push_id_continue_chunk_39(v: &mut Vec<ClassUnicodeRange>)
    ensures
        rview(final(v)@) == rview(old(v)@) + id_continue_chunk_39(),
{
    let ghost o = rview(v@);
    push_range(v, '\u{2115}', '\u{2115}');
    push_range(v, '\u{2118}', '\u{211D}');
    push_range(v, '\u{2124}', '\u{2124}');
    push_range(v, '\u{2126}', '\u{2126}');
    push_range(v, '\u{2128}', '\u{2128}');
    push_range(v, '\u{212A}', '\u{2139}');
    push_range(v, '\u{213C}', '\u{213F}');
    push_range(v, '\u{2145}', '\u{2149}');
    assert(rview(v@) =~= o + id_continue_chunk_39());
}

fn push_id_continue_chunk_40(v: &mut Vec<ClassUnicodeRange>)
    ensures
        rview(final(v)@) == rview(old(v)@) + id_continue_chunk_40(),
{
    let ghost o = rview(v@);
    push_range(v, '\u{214E}', '\u{214E}');
    push_range(v, '\u{2160}', '\u{2188}');
    push_range(v, '\u{2C00}', '\u{2CE4}');
    push_range(v, '\u{2CEB}', '\u{2CF3}');
    push_range(v, '\u{2D00}', '\u{2D25}');
    push_range(v, '\u{2D27}', '\u{2D27}');
    push_range(v, '\u{2D2D}', '\u{2D2D}');
    push_range(v, '\u{2D30}', '\u{2D67}');
    assert(rview(v@) =~= o + id_continue_chunk_40());
}

fn push_id_continue_chunk_41(v: &mut Vec<ClassUnicodeRange>)
    ensures
        rview(final(v)@) == rview(old(v)@) + id_continue_chunk_41(),
{
    let ghost o = rview(v@);
    push_range(v, '\u{2D6F}', '\u{2D6F}');
    push_range(v, '\u{2D7F}', '\u{2D96}');
    push_range(v, '\u{2DA0}', '\u{2DA6}');
    push_range(v, '\u{2DA8}', '\u{2DAE}');
    push_range(v, '\u{2DB0}', '\u{2DB6}');
    push_range(v, '\u{2DB8}', '\u{2DBE}');
    push_range(v, '\u{2DC0}', '\u{2DC6}');
    push_range(v, '\u{2DC8}', '\u{2DCE}');
    assert(rview(v@) =~= o + id_continue_chunk_41());
}

fn push_id_continue_chunk_42(v: &mut Vec<ClassUnicodeRange>)
    ensures
        rview(final(v)@) == rview(old(v)@) + id_continue_chunk_42(),
{
    let ghost o = rview(v@);
    push_range(v, '\u{2DD0}', '\u{2DD6}');
    push_range(v, '\u{2DD8}', '\u{2DDE}');
    push_range(v, '\u{2DE0}', '\u{2DFF}');
    push_range(v, '\u{3005}', '\u{3007}');
    push_range(v, '\u{3021}', '\u{302F}');
    push_range(v, '\u{3031}', '\u{3035}');
    push_range(v, '\u{3038}', '\u{303C}');
    push_range(v, '\u{3041}', '\u{3096}');
    assert(rview(v@) =~= o + id_continue_chunk_42());
}

fn push_id_continue_chunk_43(v: &mut Vec<ClassUnicodeRange>)
    ensures
        rview(final(v)@) == rview(old(v)@) + id_continue_chunk_43(),
{
    let ghost o = rview(v@);
    push_range(v, '\u{3099}', '\u{309F}');
    push_range(v, '\u{30A1}', '\u{30FF}');
    push_range(v, '\u{3105}', '\u{312F}');
    push_range(v, '\u{3131}', '\u{318E}');
    push_range(v, '\u{31A0}', '\u{31BF}');
    push_range(v, '\u{31F0}', '\u{31FF}');
    push_range(v, '\u{3400}', '\u{4DBF}');
    push_range(v, '\u{4E00}', '\u{A48C}');
    assert(rview(v@) =~= o + id_continue_chunk_43());
}

fn push_id_continue_chunk_44(v: &mut Vec<ClassUnicodeRange>)
    ensures
        rview(final(v)@) == rview(old(v)@) + id_continue_chunk_44(),
{
    let ghost o = rview(v@);
    push_range(v, '\u{A4D0}', '\u{A4FD}');
    push_range(v, '\u{A500}', '\u{A60C}');
    push_range(v, '\u{A610}', '\u{A62B}');
    push_range(v, '\u{A640}', '\u{A66F}');
    push_range(v, '\u{A674}', '\u{A67D}');
    push_range(v, '\u{A67F}', '\u{A6F1}');
    push_range(v, '\u{A717}', '\u{A71F}');
    push_range(v, '\u{A722}', '\u{A788}');
    assert(rview(v@) =~= o + id_continue_chunk_44());
}

fn push_id_continue_chunk_45(v: &mut Vec<ClassUnicodeRange>)
    ensures
        rview(final(v)@) == rview(old(v)@) + id_continue_chunk_45(),
{
    let ghost o = rview(v@);
    push_range(v, '\u{A78B}', '\u{A7CD}');
    push_range(v, '\u{A7D0}', '\u{A7D1}');
    push_range(v, '\u{A7D3}', '\u{A7D3}');
    push_range(v, '\u{A7D5}', '\u{A7DC}');
    push_range(v, '\u{A7F2}', '\u{A827}');
    push_range(v, '\u{A82C}', '\u{A82C}');
    push_range(v, '\u{A840}', '\u{A873}');
    push_range(v, '\u{A880}', '\u{A8C5}');
    assert(rview(v@) =~= o + id_continue_chunk_45());
}

fn push_id_continue_chunk_46(v: &mut Vec<ClassUnicodeRange>)
    ensures
        rview(final(v)@) == rview(old(v)@) + id_continue_chunk_46(),
{
    let ghost o = rview(v@);
    push_range(v, '\u{A8D0}', '\u{A8D9}');
    push_range(v, '\u{A8E0}', '\u{A8F7}');
    push_range(v, '\u{A8FB}', '\u{A8FB}');
    push_range(v, '\u{A8FD}', '\u{A92D}');
    push_range(v, '\u{A930}', '\u{A953}');
    push_range(v, '\u{A960}', '\u{A97C}');
    push_range(v, '\u{A980}', '\u{A9C0}');
    push_range(v, '\u{A9CF}', '\u{A9D9}');
    assert(rview(v@) =~= o + id_continue_chunk_46());
}

fn push_id_continue_chunk_47(v: &mut Vec<ClassUnicodeRange>)
    ensures
        rview(final(v)@) == rview(old(v)@) + id_continue_chunk_47(),
{
    let ghost o = rview(v@);
    push_range(v, '\u{A9E0}', '\u{A9FE}');
    push_range(v, '\u{AA00}', '\u{AA36}');
    push_range(v, '\u{AA40}', '\u{AA4D}');
    push_range(v, '\u{AA50}', '\u{AA59}');
    push_range(v, '\u{AA60}', '\u{AA76}');
    push_range(v, '\u{AA7A}', '\u{AAC2}');
    push_range(v, '\u{AADB}', '\u{AADD}');
    push_range(v, '\u{AAE0}', '\u{AAEF}');
    assert(rview(v@) =~= o + id_continue_chunk_47());
}

fn push_id_continue_chunk_48(v: &mut Vec<ClassUnicodeRange>)
    ensures
        rview(final(v)@) == rview(old(v)@) + id_continue_chunk_48(),
{
    let ghost o = rview(v@);
    push_range(v, '\u{AAF2}', '\u{AAF6}');
    push_range(v, '\u{AB01}', '\u{AB06}');
    push_range(v, '\u{AB09}', '\u{AB0E}');
    push_range(v, '\u{AB11}', '\u{AB16}');
    push_range(v, '\u{AB20}', '\u{AB26}');
    push_range(v, '\u{AB28}', '\u{AB2E}');
    push_range(v, '\u{AB30}', '\u{AB5A}');
    push_range(v, '\u{AB5C}', '\u{AB69}');
    assert(rview(v@) =~= o + id_continue_chunk_48());
}

fn push_id_continue_chunk_49(v: &mut Vec<ClassUnicodeRange>)
    ensures
        rview(final(v)@) == rview(old(v)@) + id_continue_chunk_49(),
{
    let ghost o = rview(v@);
    push_range(v, '\u{AB70}', '\u{ABEA}');
    push_range(v, '\u{ABEC}', '\u{ABED}');
    push_range(v, '\u{ABF0}', '\u{ABF9}');
    push_range(v, '\u{AC00}', '\u{D7A3}');
    push_range(v, '\u{D7B0}', '\u{D7C6}');
    push_range(v, '\u{D7CB}', '\u{D7FB}');
    push_range(v, '\u{F900}', '\u{FA6D}');
    push_range(v, '\u{FA70}', '\u{FAD9}');
    assert(rview(v@) =~= o + id_continue_chunk_49());
}

fn push_id_continue_chunk_50(v: &mut Vec<ClassUnicodeRange>)
    ensures
        rview(final(v)@) == rview(old(v)@) + id_continue_chunk_50(),
{
    let ghost o = rview(v@);
    push_range(v, '\u{FB00}', '\u{FB06}');
    push_range(v, '\u{FB13}', '\u{FB17}');
    push_range(v, '\u{FB1D}', '\u{FB28}');
    push_range(v, '\u{FB2A}', '\u{FB36}');
    push_range(v, '\u{FB38}', '\u{FB3C}');
    push_range(v, '\u{FB3E}', '\u{FB3E}');
    push_range(v, '\u{FB40}', '\u{FB41}');
    push_range(v, '\u{FB43}', '\u{FB44}');
    assert(rview(v@) =~= o + id_continue_chunk_50());
}

fn push_id_continue_chunk_51(v: &mut Vec<ClassUnicodeRange>)
    ensures
        rview(final(v)@) == rview(old(v)@) + id_continue_chunk_51(),
{
    let ghost o = rview(v@);
    push_range(v, '\u{FB46}', '\u{FBB1}');
    push_range(v, '\u{FBD3}', '\u{FD3D}');
    push_range(v, '\u{FD50}', '\u{FD8F}');
    push_range(v, '\u{FD92}', '\u{FDC7}');
    push_range(v, '\u{FDF0}', '\u{FDFB}');
    push_range(v, '\u{FE00}', '\u{FE0F}');
    push_range(v, '\u{FE20}', '\u{FE2F}');
    push_range(v, '\u{FE33}', '\u{FE34}');
    assert(rview(v@) =~= o + id_continue_chunk_51());
}

fn push_id_continue_chunk_52(v: &mut Vec<ClassUnicodeRange>)
    ensures
        rview(final(v)@) == rview(old(v)@) + id_continue_chunk_52(),
{
    let ghost o = rview(v@);
    push_range(v, '\u{FE4D}', '\u{FE4F}');
    push_range(v, '\u{FE70}', '\u{FE74}');
    push_range(v, '\u{FE76}', '\u{FEFC}');
    push_range(v, '\u{FF10}', '\u{FF19}');
    push_range(v, '\u{FF21}', '\u{FF3A}');
    push_range(v, '\u{FF3F}', '\u{FF3F}');
    push_range(v, '\u{FF41}', '\u{FF5A}');
    push_range(v, '\u{FF65}', '\u{FFBE}');
    assert(rview(v@) =~= o + id_continue_chunk_52());
}

fn push_id_continue_chunk_53(v: &mut Vec<ClassUnicodeRange>)
    ensures
        rview(final(v)@) == rview(old(v)@) + id_continue_chunk_53(),
{
    let ghost o = rview(v@);
    push_range(v, '\u{FFC2}', '\u{FFC7}');
    push_range(v, '\u{FFCA}', '\u{FFCF}');
    push_range(v, '\u{FFD2}', '\u{FFD7}');
    push_range(v, '\u{FFDA}', '\u{FFDC}');
    push_range(v, '\u{10000}', '\u{1000B}');
    push_range(v, '\u{1000D}', '\u{10026}');
    push_range(v, '\u{10028}', '\u{1003A}');
    push_range(v, '\u{1003C}', '\u{1003D}');
    assert(rview(v@) =~= o + id_continue_chunk_53());
}

fn push_id_continue_chunk_54(v: &mut Vec<ClassUnicodeRange>)
    ensures
        rview(final(v)@) == rview(old(v)@) + id_continue_chunk_54(),
{
    let ghost o = rview(v@);
    push_range(v, '\u{1003F}', '\u{1004D}');
    push_range(v, '\u{10050}', '\u{1005D}');
    push_range(v, '\u{10080}', '\u{100FA}');
    push_range(v, '\u{10140}', '\u{10174}');
    push_range(v, '\u{101FD}', '\u{101FD}');
    push_range(v, '\u{10280}', '\u{1029C}');
    push_range(v, '\u{102A0}', '\u{102D0}');
    push_range(v, '\u{102E0}', '\u{102E0}');
    assert(rview(v@) =~= o + id_continue_chunk_54());
}

fn push_id_continue_chunk_55(v: &mut Vec<ClassUnicodeRange>)
    ensures
        rview(final(v)@) == rview(old(v)@) + id_continue_chunk_55(),
{
    let ghost o = rview(v@);
    push_range(v, '\u{10300}', '\u{1031F}');
    push_range(v, '\u{1032D}', '\u{1034A}');
    push_range(v, '\u{10350}', '\u{1037A}');
    push_range(v, '\u{10380}', '\u{1039D}');
    push_range(v, '\u{103A0}', '\u{103C3}');
    push_range(v, '\u{103C8}', '\u{103CF}');
    push_range(v, '\u{103D1}', '\u{103D5}');
    push_range(v, '\u{10400}', '\u{1049D}');
    assert(rview(v@) =~= o + id_continue_chunk_55());
}

fn push_id_continue_chunk_56(v: &mut Vec<ClassUnicodeRange>)
    ensures
        rview(final(v)@) == rview(old(v)@) + id_continue_chunk_56(),
{
    let ghost o = rview(v@);
    push_range(v, '\u{104A0}', '\u{104A9}');
    push_range(v, '\u{104B0}', '\u{104D3}');
    push_range(v, '\u{104D8}', '\u{104FB}');
    push_range(v, '\u{10500}', '\u{10527}');
    push_range(v, '\u{10530}', '\u{10563}');
    push_range(v, '\u{10570}', '\u{1057A}');
    push_range(v, '\u{1057C}', '\u{1058A}');
    push_range(v, '\u{1058C}', '\u{10592}');
    assert(rview(v@) =~= o + id_continue_chunk_56());
}

fn push_id_continue_chunk_57(v: &mut Vec<ClassUnicodeRange>)
    ensures
        rview(final(v)@) == rview(old(v)@) + id_continue_chunk_57(),
{
    let ghost o = rview(v@);
    push_range(v, '\u{10594}', '\u{10595}');
    push_range(v, '\u{10597}', '\u{105A1}');
    push_range(v, '\u{105A3}', '\u{105B1}');
    push_range(v, '\u{105B3}', '\u{105B9}');
    push_range(v, '\u{105BB}', '\u{105BC}');
    push_range(v, '\u{105C0}', '\u{105F3}');
    push_range(v, '\u{10600}', '\u{10736}');
    push_range(v, '\u{10740}', '\u{10755}');
    assert(rview(v@) =~= o + id_continue_chunk_57());
}

fn push_id_continue_chunk_58(v: &mut Vec<ClassUnicodeRange>)
    ensures
        rview(final(v)@) == rview(old(v)@) + id_continue_chunk_58(),
{
    let ghost o = rview(v@);
    push_range(v, '\u{10760}', '\u{10767}');
    push_range(v, '\u{10780}', '\u{10785}');
    push_range(v, '\u{10787}', '\u{107B0}');
    push_range(v, '\u{107B2}', '\u{107BA}');
    push_range(v, '\u{10800}', '\u{10805}');
    push_range(v, '\u{10808}', '\u{10808}');
    push_range(v, '\u{1080A}', '\u{10835}');
    push_range(v, '\u{10837}', '\u{10838}');
    assert(rview(v@) =~= o + id_continue_chunk_58());
}

fn push_id_continue_chunk_59(v: &mut Vec<ClassUnicodeRange>)
    ensures
        rview(final(v)@) == rview(old(v)@) + id_continue_chunk_59(),
{
    let ghost o = rview(v@);
    push_range(v, '\u{1083C}', '\u{1083C}');
    push_range(v, '\u{1083F}', '\u{10855}');
    push_range(v, '\u{10860}', '\u{10876}');
    push_range(v, '\u{10880}', '\u{1089E}');
    push_range(v, '\u{108E0}', '\u{108F2}');
    push_range(v, '\u{108F4}', '\u{108F5}');
    push_range(v, '\u{10900}', '\u{10915}');
    push_range(v, '\u{10920}', '\u{10939}');
    assert(rview(v@) =~= o + id_continue_chunk_59());
}

fn push_id_continue_chunk_60(v: &mut Vec<ClassUnicodeRange>)
    ensures
        rview(final(v)@) == rview(old(v)@) + id_continue_chunk_60(),
{
    let ghost o = rview(v@);
    push_range(v, '\u{10980}', '\u{109B7}');
    push_range(v, '\u{109BE}', '\u{109BF}');
    push_range(v, '\u{10A00}', '\u{10A03}');
    push_range(v, '\u{10A05}', '\u{10A06}');
    push_range(v, '\u{10A0C}', '\u{10A13}');
    push_range(v, '\u{10A15}', '\u{10A17}');
    push_range(v, '\u{10A19}', '\u{10A35}');
    push_range(v, '\u{10A38}', '\u{10A3A}');
    assert(rview(v@) =~= o + id_continue_chunk_60());
}

fn push_id_continue_chunk_61(v: &mut Vec<ClassUnicodeRange>)
    ensures
        rview(final(v)@) == rview(old(v)@) + id_continue_chunk_61(),
{
    let ghost o = rview(v@);
    push_range(v, '\u{10A3F}', '\u{10A3F}');
    push_range(v, '\u{10A60}', '\u{10A7C}');
    push_range(v, '\u{10A80}', '\u{10A9C}');
    push_range(v, '\u{10AC0}', '\u{10AC7}');
    push_range(v, '\u{10AC9}', '\u{10AE6}');
    push_range(v, '\u{10B00}', '\u{10B35}');
    push_range(v, '\u{10B40}', '\u{10B55}');
    push_range(v, '\u{10B60}', '\u{10B72}');
    assert(rview(v@) =~= o + id_continue_chunk_61());
}

fn push_id_continue_chunk_62(v: &mut Vec<ClassUnicodeRange>)
    ensures
        rview(final(v)@) == rview(old(v)@) + id_continue_chunk_62(),
{
    let ghost o = rview(v@);
    push_range(v, '\u{10B80}', '\u{10B91}');
    push_range(v, '\u{10C00}', '\u{10C48}');
    push_range(v, '\u{10C80}', '\u{10CB2}');
    push_range(v, '\u{10CC0}', '\u{10CF2}');
    push_range(v, '\u{10D00}', '\u{10D27}');
    push_range(v, '\u{10D30}', '\u{10D39}');
    push_range(v, '\u{10D40}', '\u{10D65}');
    push_range(v, '\u{10D69}', '\u{10D6D}');
    assert(rview(v@) =~= o + id_continue_chunk_62());
}

fn push_id_continue_chunk_63(v: &mut Vec<ClassUnicodeRange>)
    ensures
        rview(final(v)@) == rview(old(v)@) + id_continue_chunk_63(),
{
    let ghost o = rview(v@);
    push_range(v, '\u{10D6F}', '\u{10D85}');
    push_range(v, '\u{10E80}', '\u{10EA9}');
    push_range(v, '\u{10EAB}', '\u{10EAC}');
    push_range(v, '\u{10EB0}', '\u{10EB1}');
    push_range(v, '\u{10EC2}', '\u{10EC4}');
    push_range(v, '\u{10EFC}', '\u{10F1C}');
    push_range(v, '\u{10F27}', '\u{10F27}');
    push_range(v, '\u{10F30}', '\u{10F50}');
    assert(rview(v@) =~= o + id_continue_chunk_63());
}

fn push_id_continue_chunk_64(v: &mut Vec<ClassUnicodeRange>)
    ensures
        rview(final(v)@) == rview(old(v)@) + id_continue_chunk_64(),
{
    let ghost o = rview(v@);
    push_range(v, '\u{10F70}', '\u{10F85}');
    push_range(v, '\u{10FB0}', '\u{10FC4}');
    push_range(v, '\u{10FE0}', '\u{10FF6}');
    push_range(v, '\u{11000}', '\u{11046}');
    push_range(v, '\u{11066}', '\u{11075}');
    push_range(v, '\u{1107F}', '\u{110BA}');
    push_range(v, '\u{110C2}', '\u{110C2}');
    push_range(v, '\u{110D0}', '\u{110E8}');
    assert(rview(v@) =~= o + id_continue_chunk_64());
}

fn push_id_continue_chunk_65(v: &mut Vec<ClassUnicodeRange>)
    ensures
        rview(final(v)@) == rview(old(v)@) + id_continue_chunk_65(),
{
    let ghost o = rview(v@);
    push_range(v, '\u{110F0}', '\u{110F9}');
    push_range(v, '\u{11100}', '\u{11134}');
    push_range(v, '\u{11136}', '\u{1113F}');
    push_range(v, '\u{11144}', '\u{11147}');
    push_range(v, '\u{11150}', '\u{11173}');
    push_range(v, '\u{11176}', '\u{11176}');
    push_range(v, '\u{11180}', '\u{111C4}');
    push_range(v, '\u{111C9}', '\u{111CC}');
    assert(rview(v@) =~= o + id_continue_chunk_65());
}

fn push_id_continue_chunk_66(v: &mut Vec<ClassUnicodeRange>)
    ensures
        rview(final(v)@) == rview(old(v)@) + id_continue_chunk_66(),
{
    let ghost o = rview(v@);
    push_range(v, '\u{111CE}', '\u{111DA}');
    push_range(v, '\u{111DC}', '\u{111DC}');
    push_range(v, '\u{11200}', '\u{11211}');
    push_range(v, '\u{11213}', '\u{11237}');
    push_range(v, '\u{1123E}', '\u{11241}');
    push_range(v, '\u{11280}', '\u{11286}');
    push_range(v, '\u{11288}', '\u{11288}');
    push_range(v, '\u{1128A}', '\u{1128D}');
    assert(rview(v@) =~= o + id_continue_chunk_66());
}

fn push_id_continue_chunk_67(v: &mut Vec<ClassUnicodeRange>)
    ensures
        rview(final(v)@) == rview(old(v)@) + id_continue_chunk_67(),
{
    let ghost o = rview(v@);
    push_range(v, '\u{1128F}', '\u{1129D}');
    push_range(v, '\u{1129F}', '\u{112A8}');
    push_range(v, '\u{112B0}', '\u{112EA}');
    push_range(v, '\u{112F0}', '\u{112F9}');
    push_range(v, '\u{11300}', '\u{11303}');
    push_range(v, '\u{11305}', '\u{1130C}');
    push_range(v, '\u{1130F}', '\u{11310}');
    push_range(v, '\u{11313}', '\u{11328}');
    assert(rview(v@) =~= o + id_continue_chunk_67());
}

fn push_id_continue_chunk_68(v: &mut Vec<ClassUnicodeRange>)
    ensures
        rview(final(v)@) == rview(old(v)@) + id_continue_chunk_68(),
{
    let ghost o = rview(v@);
    push_range(v, '\u{1132A}', '\u{11330}');
    push_range(v, '\u{11332}', '\u{11333}');
    push_range(v, '\u{11335}', '\u{11339}');
    push_range(v, '\u{1133B}', '\u{11344}');
    push_range(v, '\u{11347}', '\u{11348}');
    push_range(v, '\u{1134B}', '\u{1134D}');
    push_range(v, '\u{11350}', '\u{11350}');
    push_range(v, '\u{11357}', '\u{11357}');
    assert(rview(v@) =~= o + id_continue_chunk_68());
}

fn push_id_continue_chunk_69(v: &mut Vec<ClassUnicodeRange>)
    ensures
        rview(final(v)@) == rview(old(v)@) + id_continue_chunk_69(),
{
    let ghost o = rview(v@);
    push_range(v, '\u{1135D}', '\u{11363}');
    push_range(v, '\u{11366}', '\u{1136C}');
    push_range(v, '\u{11370}', '\u{11374}');
    push_range(v, '\u{11380}', '\u{11389}');
    push_range(v, '\u{1138B}', '\u{1138B}');
    push_range(v, '\u{1138E}', '\u{1138E}');
    push_range(v, '\u{11390}', '\u{113B5}');
    push_range(v, '\u{113B7}', '\u{113C0}');
    assert(rview(v@) =~= o + id_continue_chunk_69());
}

fn push_id_continue_chunk_70(v: &mut Vec<ClassUnicodeRange>)
    ensures
        rview(final(v)@) == rview(old(v)@) + id_continue_chunk_70(),
{
    let ghost o = rview(v@);
    push_range(v, '\u{113C2}', '\u{113C2}');
    push_range(v, '\u{113C5}', '\u{113C5}');
    push_range(v, '\u{113C7}', '\u{113CA}');
    push_range(v, '\u{113CC}', '\u{113D3}');
    push_range(v, '\u{113E1}', '\u{113E2}');
    push_range(v, '\u{11400}', '\u{1144A}');
    push_range(v, '\u{11450}', '\u{11459}');
    push_range(v, '\u{1145E}', '\u{11461}');
    assert(rview(v@) =~= o + id_continue_chunk_70());
}

fn push_id_continue_chunk_71(v: &mut Vec<ClassUnicodeRange>)
    ensures
        rview(final(v)@) == rview(old(v)@) + id_continue_chunk_71(),
{
    let ghost o = rview(v@);
    push_range(v, '\u{11480}', '\u{114C5}');
    push_range(v, '\u{114C7}', '\u{114C7}');
    push_range(v, '\u{114D0}', '\u{114D9}');
    push_range(v, '\u{11580}', '\u{115B5}');
    push_range(v, '\u{115B8}', '\u{115C0}');
    push_range(v, '\u{115D8}', '\u{115DD}');
    push_range(v, '\u{11600}', '\u{11640}');
    push_range(v, '\u{11644}', '\u{11644}');
    assert(rview(v@) =~= o + id_continue_chunk_71());
}

fn push_id_continue_chunk_72(v: &mut Vec<ClassUnicodeRange>)
    ensures
        rview(final(v)@) == rview(old(v)@) + id_continue_chunk_72(),
{
    let ghost o = rview(v@);
    push_range(v, '\u{11650}', '\u{11659}');
    push_range(v, '\u{11680}', '\u{116B8}');
    push_range(v, '\u{116C0}', '\u{116C9}');
    push_range(v, '\u{116D0}', '\u{116E3}');
    push_range(v, '\u{11700}', '\u{1171A}');
    push_range(v, '\u{1171D}', '\u{1172B}');
    push_range(v, '\u{11730}', '\u{11739}');
    push_range(v, '\u{11740}', '\u{11746}');
    assert(rview(v@) =~= o + id_continue_chunk_72());
}

fn push_id_continue_chunk_73(v: &mut Vec<ClassUnicodeRange>)
    ensures
        rview(final(v)@) == rview(old(v)@) + id_continue_chunk_73(),
{
    let ghost o = rview(v@);
    push_range(v, '\u{11800}', '\u{1183A}');
    push_range(v, '\u{118A0}', '\u{118E9}');
    push_range(v, '\u{118FF}', '\u{11906}');
    push_range(v, '\u{11909}', '\u{11909}');
    push_range(v, '\u{1190C}', '\u{11913}');
    push_range(v, '\u{11915}', '\u{11916}');
    push_range(v, '\u{11918}', '\u{11935}');
    push_range(v, '\u{11937}', '\u{11938}');
    assert(rview(v@) =~= o + id_continue_chunk_73());
}

fn push_id_continue_chunk_74(v: &mut Vec<ClassUnicodeRange>)
    ensures
        rview(final(v)@) == rview(old(v)@) + id_continue_chunk_74(),
{
    let ghost o = rview(v@);
    push_range(v, '\u{1193B}', '\u{11943}');
    push_range(v, '\u{11950}', '\u{11959}');
    push_range(v, '\u{119A0}', '\u{119A7}');
    push_range(v, '\u{119AA}', '\u{119D7}');
    push_range(v, '\u{119DA}', '\u{119E1}');
    push_range(v, '\u{119E3}', '\u{119E4}');
    push_range(v, '\u{11A00}', '\u{11A3E}');
    push_range(v, '\u{11A47}', '\u{11A47}');
    assert(rview(v@) =~= o + id_continue_chunk_74());
}

fn push_id_continue_chunk_75(v: &mut Vec<ClassUnicodeRange>)
    ensures
        rview(final(v)@) == rview(old(v)@) + id_continue_chunk_75(),
{
    let ghost o = rview(v@);
    push_range(v, '\u{11A50}', '\u{11A99}');
    push_range(v, '\u{11A9D}', '\u{11A9D}');
    push_range(v, '\u{11AB0}', '\u{11AF8}');
    push_range(v, '\u{11BC0}', '\u{11BE0}');
    push_range(v, '\u{11BF0}', '\u{11BF9}');
    push_range(v, '\u{11C00}', '\u{11C08}');
    push_range(v, '\u{11C0A}', '\u{11C36}');
    push_range(v, '\u{11C38}', '\u{11C40}');
    assert(rview(v@) =~= o + id_continue_chunk_75());
}

fn push_id_continue_chunk_76(v: &mut Vec<ClassUnicodeRange>)
    ensures
        rview(final(v)@) == rview(old(v)@) + id_continue_chunk_76(),
{
    let ghost o = rview(v@);
    push_range(v, '\u{11C50}', '\u{11C59}');
    push_range(v, '\u{11C72}', '\u{11C8F}');
    push_range(v, '\u{11C92}', '\u{11CA7}');
    push_range(v, '\u{11CA9}', '\u{11CB6}');
    push_range(v, '\u{11D00}', '\u{11D06}');
    push_range(v, '\u{11D08}', '\u{11D09}');
    push_range(v, '\u{11D0B}', '\u{11D36}');
    push_range(v, '\u{11D3A}', '\u{11D3A}');
    assert(rview(v@) =~= o + id_continue_chunk_76());
}

fn push_id_continue_chunk_77(v: &mut Vec<ClassUnicodeRange>)
    ensures
        rview(final(v)@) == rview(old(v)@) + id_continue_chunk_77(),
{
    let ghost o = rview(v@);
    push_range(v, '\u{11D3C}', '\u{11D3D}');
    push_range(v, '\u{11D3F}', '\u{11D47}');
    push_range(v, '\u{11D50}', '\u{11D59}');
    push_range(v, '\u{11D60}', '\u{11D65}');
    push_range(v, '\u{11D67}', '\u{11D68}');
    push_range(v, '\u{11D6A}', '\u{11D8E}');
    push_range(v, '\u{11D90}', '\u{11D91}');
    push_range(v, '\u{11D93}', '\u{11D98}');
    assert(rview(v@) =~= o + id_continue_chunk_77());
}

fn push_id_continue_chunk_78(v: &mut Vec<ClassUnicodeRange>)
    ensures
        rview(final(v)@) == rview(old(v)@) + id_continue_chunk_78(),
{
    let ghost o = rview(v@);
    push_range(v, '\u{11DA0}', '\u{11DA9}');
    push_range(v, '\u{11EE0}', '\u{11EF6}');
    push_range(v, '\u{11F00}', '\u{11F10}');
    push_range(v, '\u{11F12}', '\u{11F3A}');
    push_range(v, '\u{11F3E}', '\u{11F42}');
    push_range(v, '\u{11F50}', '\u{11F5A}');
    push_range(v, '\u{11FB0}', '\u{11FB0}');
    push_range(v, '\u{12000}', '\u{12399}');
    assert(rview(v@) =~= o + id_continue_chunk_78());
}

fn push_id_continue_chunk_79(v: &mut Vec<ClassUnicodeRange>)
    ensures
        rview(final(v)@) == rview(old(v)@) + id_continue_chunk_79(),
{
    let ghost o = rview(v@);
    push_range(v, '\u{12400}', '\u{1246E}');
    push_range(v, '\u{12480}', '\u{12543}');
    push_range(v, '\u{12F90}', '\u{12FF0}');
    push_range(v, '\u{13000}', '\u{1342F}');
    push_range(v, '\u{13440}', '\u{13455}');
    push_range(v, '\u{13460}', '\u{143FA}');
    push_range(v, '\u{14400}', '\u{14646}');
    push_range(v, '\u{16100}', '\u{16139}');
    assert(rview(v@) =~= o + id_continue_chunk_79());
}

fn push_id_continue_chunk_80(v: &mut Vec<ClassUnicodeRange>)
    ensures
        rview(final(v)@) == rview(old(v)@) + id_continue_chunk_80(),
{
    let ghost o = rview(v@);
    push_range(v, '\u{16800}', '\u{16A38}');
    push_range(v, '\u{16A40}', '\u{16A5E}');
    push_range(v, '\u{16A60}', '\u{16A69}');
    push_range(v, '\u{16A70}', '\u{16ABE}');
    push_range(v, '\u{16AC0}', '\u{16AC9}');
    push_range(v, '\u{16AD0}', '\u{16AED}');
    push_range(v, '\u{16AF0}', '\u{16AF4}');
    push_range(v, '\u{16B00}', '\u{16B36}');
    assert(rview(v@) =~= o + id_continue_chunk_80());
}

fn push_id_continue_chunk_81(v: &mut Vec<ClassUnicodeRange>)
    ensures
        rview(final(v)@) == rview(old(v)@) + id_continue_chunk_81(),
{
    let ghost o = rview(v@);
    push_range(v, '\u{16B40}', '\u{16B43}');
    push_range(v, '\u{16B50}', '\u{16B59}');
    push_range(v, '\u{16B63}', '\u{16B77}');
    push_range(v, '\u{16B7D}', '\u{16B8F}');
    push_range(v, '\u{16D40}', '\u{16D6C}');
    push_range(v, '\u{16D70}', '\u{16D79}');
    push_range(v, '\u{16E40}', '\u{16E7F}');
    push_range(v, '\u{16F00}', '\u{16F4A}');
    assert(rview(v@) =~= o + id_continue_chunk_81());
}

fn push_id_continue_chunk_82(v: &mut Vec<ClassUnicodeRange>)
    ensures
        rview(final(v)@) == rview(old(v)@) + id_continue_chunk_82(),
{
    let ghost o = rview(v@);
    push_range(v, '\u{16F4F}', '\u{16F87}');
    push_range(v, '\u{16F8F}', '\u{16F9F}');
    push_range(v, '\u{16FE0}', '\u{16FE1}');
    push_range(v, '\u{16FE3}', '\u{16FE4}');
    push_range(v, '\u{16FF0}', '\u{16FF1}');
    push_range(v, '\u{17000}', '\u{187F7}');
    push_range(v, '\u{18800}', '\u{18CD5}');
    push_range(v, '\u{18CFF}', '\u{18D08}');
    assert(rview(v@) =~= o + id_continue_chunk_82());
}

fn push_id_continue_chunk_83(v: &mut Vec<ClassUnicodeRange>)
    ensures
        rview(final(v)@) == rview(old(v)@) + id_continue_chunk_83(),
{
    let ghost o = rview(v@);
    push_range(v, '\u{1AFF0}', '\u{1AFF3}');
    push_range(v, '\u{1AFF5}', '\u{1AFFB}');
    push_range(v, '\u{1AFFD}', '\u{1AFFE}');
    push_range(v, '\u{1B000}', '\u{1B122}');
    push_range(v, '\u{1B132}', '\u{1B132}');
    push_range(v, '\u{1B150}', '\u{1B152}');
    push_range(v, '\u{1B155}', '\u{1B155}');
    push_range(v, '\u{1B164}', '\u{1B167}');
    assert(rview(v@) =~= o + id_continue_chunk_83());
}

fn push_id_continue_chunk_84(v: &mut Vec<ClassUnicodeRange>)
    ensures
        rview(final(v)@) == rview(old(v)@) + id_continue_chunk_84(),
{
    let ghost o = rview(v@);
    push_range(v, '\u{1B170}', '\u{1B2FB}');
    push_range(v, '\u{1BC00}', '\u{1BC6A}');
    push_range(v, '\u{1BC70}', '\u{1BC7C}');
    push_range(v, '\u{1BC80}', '\u{1BC88}');
    push_range(v, '\u{1BC90}', '\u{1BC99}');
    push_range(v, '\u{1BC9D}', '\u{1BC9E}');
    push_range(v, '\u{1CCF0}', '\u{1CCF9}');
    push_range(v, '\u{1CF00}', '\u{1CF2D}');
    assert(rview(v@) =~= o + id_continue_chunk_84());
}

fn push_id_continue_chunk_85(v: &mut Vec<ClassUnicodeRange>)
    ensures
        rview(final(v)@) == rview(old(v)@) + id_continue_chunk_85(),
{
    let ghost o = rview(v@);
    push_range(v, '\u{1CF30}', '\u{1CF46}');
    push_range(v, '\u{1D165}', '\u{1D169}');
    push_range(v, '\u{1D16D}', '\u{1D172}');
    push_range(v, '\u{1D17B}', '\u{1D182}');
    push_range(v, '\u{1D185}', '\u{1D18B}');
    push_range(v, '\u{1D1AA}', '\u{1D1AD}');
    push_range(v, '\u{1D242}', '\u{1D244}');
    push_range(v, '\u{1D400}', '\u{1D454}');
    assert(rview(v@) =~= o + id_continue_chunk_85());
}

fn push_id_continue_chunk_86(v: &mut Vec<ClassUnicodeRange>)
    ensures
        rview(final(v)@) == rview(old(v)@) + id_continue_chunk_86(),
{
    let ghost o = rview(v@);
    push_range(v, '\u{1D456}', '\u{1D49C}');
    push_range(v, '\u{1D49E}', '\u{1D49F}');
    push_range(v, '\u{1D4A2}', '\u{1D4A2}');
    push_range(v, '\u{1D4A5}', '\u{1D4A6}');
    push_range(v, '\u{1D4A9}', '\u{1D4AC}');
    push_range(v, '\u{1D4AE}', '\u{1D4B9}');
    push_range(v, '\u{1D4BB}', '\u{1D4BB}');
    push_range(v, '\u{1D4BD}', '\u{1D4C3}');
    assert(rview(v@) =~= o + id_continue_chunk_86());
}

fn push_id_continue_chunk_87(v: &mut Vec<ClassUnicodeRange>)
    ensures
        rview(final(v)@) == rview(old(v)@) + id_continue_chunk_87(),
{
    let ghost o = rview(v@);
    push_range(v, '\u{1D4C5}', '\u{1D505}');
    push_range(v, '\u{1D507}', '\u{1D50A}');
    push_range(v, '\u{1D50D}', '\u{1D514}');
    push_range(v, '\u{1D516}', '\u{1D51C}');
    push_range(v, '\u{1D51E}', '\u{1D539}');
    push_range(v, '\u{1D53B}', '\u{1D53E}');
    push_range(v, '\u{1D540}', '\u{1D544}');
    push_range(v, '\u{1D546}', '\u{1D546}');
    assert(rview(v@) =~= o + id_continue_chunk_87());
}

fn push_id_continue_chunk_88(v: &mut Vec<ClassUnicodeRange>)
    ensures
        rview(final(v)@) == rview(old(v)@) + id_continue_chunk_88(),
{
    let ghost o = rview(v@);
    push_range(v, '\u{1D54A}', '\u{1D550}');
    push_range(v, '\u{1D552}', '\u{1D6A5}');
    push_range(v, '\u{1D6A8}', '\u{1D6C0}');
    push_range(v, '\u{1D6C2}', '\u{1D6DA}');
    push_range(v, '\u{1D6DC}', '\u{1D6FA}');
    push_range(v, '\u{1D6FC}', '\u{1D714}');
    push_range(v, '\u{1D716}', '\u{1D734}');
    push_range(v, '\u{1D736}', '\u{1D74E}');
    assert(rview(v@) =~= o + id_continue_chunk_88());
}

fn push_id_continue_chunk_89(v: &mut Vec<ClassUnicodeRange>)
    ensures
        rview(final(v)@) == rview(old(v)@) + id_continue_chunk_89(),
{
    let ghost o = rview(v@);
    push_range(v, '\u{1D750}', '\u{1D76E}');
    push_range(v, '\u{1D770}', '\u{1D788}');
    push_range(v, '\u{1D78A}', '\u{1D7A8}');
    push_range(v, '\u{1D7AA}', '\u{1D7C2}');
    push_range(v, '\u{1D7C4}', '\u{1D7CB}');
    push_range(v, '\u{1D7CE}', '\u{1D7FF}');
    push_range(v, '\u{1DA00}', '\u{1DA36}');
    push_range(v, '\u{1DA3B}', '\u{1DA6C}');
    assert(rview(v@) =~= o + id_continue_chunk_89());
}

fn push_id_continue_chunk_90(v: &mut Vec<ClassUnicodeRange>)
    ensures
        rview(final(v)@) == rview(old(v)@) + id_continue_chunk_90(),
{
    let ghost o = rview(v@);
    push_range(v, '\u{1DA75}', '\u{1DA75}');
    push_range(v, '\u{1DA84}', '\u{1DA84}');
    push_range(v, '\u{1DA9B}', '\u{1DA9F}');
    push_range(v, '\u{1DAA1}', '\u{1DAAF}');
    push_range(v, '\u{1DF00}', '\u{1DF1E}');
    push_range(v, '\u{1DF25}', '\u{1DF2A}');
    push_range(v, '\u{1E000}', '\u{1E006}');
    push_range(v, '\u{1E008}', '\u{1E018}');
    assert(rview(v@) =~= o + id_continue_chunk_90());
}

fn push_id_continue_chunk_91(v: &mut Vec<ClassUnicodeRange>)
    ensures
        rview(final(v)@) == rview(old(v)@) + id_continue_chunk_91(),
{
    let ghost o = rview(v@);
    push_range(v, '\u{1E01B}', '\u{1E021}');
    push_range(v, '\u{1E023}', '\u{1E024}');
    push_range(v, '\u{1E026}', '\u{1E02A}');
    push_range(v, '\u{1E030}', '\u{1E06D}');
    push_range(v, '\u{1E08F}', '\u{1E08F}');
    push_range(v, '\u{1E100}', '\u{1E12C}');
    push_range(v, '\u{1E130}', '\u{1E13D}');
    push_range(v, '\u{1E140}', '\u{1E149}');
    assert(rview(v@) =~= o + id_continue_chunk_91());
}

fn push_id_continue_chunk_92(v: &mut Vec<ClassUnicodeRange>)
    ensures
        rview(final(v)@) == rview(old(v)@) + id_continue_chunk_92(),
{
    let ghost o = rview(v@);
    push_range(v, '\u{1E14E}', '\u{1E14E}');
    push_range(v, '\u{1E290}', '\u{1E2AE}');
    push_range(v, '\u{1E2C0}', '\u{1E2F9}');
    push_range(v, '\u{1E4D0}', '\u{1E4F9}');
    push_range(v, '\u{1E5D0}', '\u{1E5FA}');
    push_range(v, '\u{1E7E0}', '\u{1E7E6}');
    push_range(v, '\u{1E7E8}', '\u{1E7EB}');
    push_range(v, '\u{1E7ED}', '\u{1E7EE}');
    assert(rview(v@) =~= o + id_continue_chunk_92());
}

fn push_id_continue_chunk_93(v: &mut Vec<ClassUnicodeRange>)
    ensures
        rview(final(v)@) == rview(old(v)@) + id_continue_chunk_93(),
{
    let ghost o = rview(v@);
    push_range(v, '\u{1E7F0}', '\u{1E7FE}');
    push_range(v, '\u{1E800}', '\u{1E8C4}');
    push_range(v, '\u{1E8D0}', '\u{1E8D6}');
    push_range(v, '\u{1E900}', '\u{1E94B}');
    push_range(v, '\u{1E950}', '\u{1E959}');
    push_range(v, '\u{1EE00}', '\u{1EE03}');
    push_range(v, '\u{1EE05}', '\u{1EE1F}');
    push_range(v, '\u{1EE21}', '\u{1EE22}');
    assert(rview(v@) =~= o + id_continue_chunk_93());
}

fn push_id_continue_chunk_94(v: &mut Vec<ClassUnicodeRange>)
    ensures
        rview(final(v)@) == rview(old(v)@) + id_continue_chunk_94(),
{
    let ghost o = rview(v@);
    push_range(v, '\u{1EE24}', '\u{1EE24}');
    push_range(v, '\u{1EE27}', '\u{1EE27}');
    push_range(v, '\u{1EE29}', '\u{1EE32}');
    push_range(v, '\u{1EE34}', '\u{1EE37}');
    push_range(v, '\u{1EE39}', '\u{1EE39}');
    push_range(v, '\u{1EE3B}', '\u{1EE3B}');
    push_range(v, '\u{1EE42}', '\u{1EE42}');
    push_range(v, '\u{1EE47}', '\u{1EE47}');
    assert(rview(v@) =~= o + id_continue_chunk_94());
}

fn push_id_continue_chunk_95(v: &mut Vec<ClassUnicodeRange>)
    ensures
        rview(final(v)@) == rview(old(v)@) + id_continue_chunk_95(),
{
    let ghost o = rview(v@);
    push_range(v, '\u{1EE49}', '\u{1EE49}');
    push_range(v, '\u{1EE4B}', '\u{1EE4B}');
    push_range(v, '\u{1EE4D}', '\u{1EE4F}');
    push_range(v, '\u{1EE51}', '\u{1EE52}');
    push_range(v, '\u{1EE54}', '\u{1EE54}');
    push_range(v, '\u{1EE57}', '\u{1EE57}');
    push_range(v, '\u{1EE59}', '\u{1EE59}');
    push_range(v, '\u{1EE5B}', '\u{1EE5B}');
    assert(rview(v@) =~= o + id_continue_chunk_95());
}

fn push_id_continue_chunk_96(v: &mut Vec<ClassUnicodeRange>)
    ensures
        rview(final(v)@) == rview(old(v)@) + id_continue_chunk_96(),
{
    let ghost o = rview(v@);
    push_range(v, '\u{1EE5D}', '\u{1EE5D}');
    push_range(v, '\u{1EE5F}', '\u{1EE5F}');
    push_range(v, '\u{1EE61}', '\u{1EE62}');
    push_range(v, '\u{1EE64}', '\u{1EE64}');
    push_range(v, '\u{1EE67}', '\u{1EE6A}');
    push_range(v, '\u{1EE6C}', '\u{1EE72}');
    push_range(v, '\u{1EE74}', '\u{1EE77}');
    push_range(v, '\u{1EE79}', '\u{1EE7C}');
    assert(rview(v@) =~= o + id_continue_chunk_96());
}

fn push_id_continue_chunk_97(v: &mut Vec<ClassUnicodeRange>)
    ensures
        rview(final(v)@) == rview(old(v)@) + id_continue_chunk_97(),
{
    let ghost o = rview(v@);
    push_range(v, '\u{1EE7E}', '\u{1EE7E}');
    push_range(v, '\u{1EE80}', '\u{1EE89}');
    push_range(v, '\u{1EE8B}', '\u{1EE9B}');
    push_range(v, '\u{1EEA1}', '\u{1EEA3}');
    push_range(v, '\u{1EEA5}', '\u{1EEA9}');
    push_range(v, '\u{1EEAB}', '\u{1EEBB}');
    push_range(v, '\u{1FBF0}', '\u{1FBF9}');
    push_range(v, '\u{20000}', '\u{2A6DF}');
    assert(rview(v@) =~= o + id_continue_chunk_97());
}

fn push_id_continue_chunk_98(v: &mut Vec<ClassUnicodeRange>)
    ensures
        rview(final(v)@) == rview(old(v)@) + id_continue_chunk_98(),
{
    let ghost o = rview(v@);
    push_range(v, '\u{2A700}', '\u{2B739}');
    push_range(v, '\u{2B740}', '\u{2B81D}');
    push_range(v, '\u{2B820}', '\u{2CEA1}');
    push_range(v, '\u{2CEB0}', '\u{2EBE0}');
    push_range(v, '\u{2EBF0}', '\u{2EE5D}');
    push_range(v, '\u{2F800}', '\u{2FA1D}');
    push_range(v, '\u{30000}', '\u{3134A}');
    push_range(v, '\u{31350}', '\u{323AF}');
    assert(rview(v@) =~= o + id_continue_chunk_98());
}

fn push_id_continue_chunk_99(v: &mut Vec<ClassUnicodeRange>)
    ensures
        rview(final(v)@) == rview(old(v)@) + id_continue_chunk_99(),
{
    let ghost o = rview(v@);
    push_range(v, '\u{E0100}', '\u{E01EF}');
    assert(rview(v@) =~= o + id_continue_chunk_99());
}

fn push_id_continue_block_0(v: &mut Vec<ClassUnicodeRange>)
    ensures
        rview(final(v)@) == rview(old(v)@) + id_continue_block_0(),
{
    let ghost o = rview(v@);
    push_id_continue_chunk_0(v);
    assert(rview(v@) =~= o + (id_continue_chunk_0()));
    push_id_continue_chunk_1(v);
    assert(rview(v@) =~= o + (id_continue_chunk_0() + id_continue_chunk_1()));
    push_id_continue_chunk_2(v);
    assert(rview(v@) =~= o + (id_continue_chunk_0() + id_continue_chunk_1() + id_continue_chunk_2()));
    push_id_continue_chunk_3(v);
    assert(rview(v@) =~= o + (id_continue_chunk_0() + id_continue_chunk_1() + id_continue_chunk_2() + id_continue_chunk_3()));
    push_id_continue_chunk_4(v);
    assert(rview(v@) =~= o + (id_continue_chunk_0() + id_continue_chunk_1() + id_continue_chunk_2() + id_continue_chunk_3() + id_continue_chunk_4()));
    push_id_continue_chunk_5(v);
    assert(rview(v@) =~= o + (id_continue_chunk_0() + id_continue_chunk_1() + id_continue_chunk_2() + id_continue_chunk_3() + id_continue_chunk_4() + id_continue_chunk_5()));
    push_id_continue_chunk_6(v);
    assert(rview(v@) =~= o + (id_continue_chunk_0() + id_continue_chunk_1() + id_continue_chunk_2() + id_continue_chunk_3() + id_continue_chunk_4() + id_continue_chunk_5() + id_continue_chunk_6()));
    push_id_continue_chunk_7(v);
    assert(rview(v@) =~= o + (id_continue_chunk_0() + id_continue_chunk_1() + id_continue_chunk_2() + id_continue_chunk_3() + id_continue_chunk_4() + id_continue_chunk_5() + id_continue_chunk_6() + id_continue_chunk_7()));
    push_id_continue_chunk_8(v);
    assert(rview(v@) =~= o + (id_continue_chunk_0() + id_continue_chunk_1() + id_continue_chunk_2() + id_continue_chunk_3() + id_continue_chunk_4() + id_continue_chunk_5() + id_continue_chunk_6() + id_continue_chunk_7() + id_continue_chunk_8()));
    push_id_continue_chunk_9(v);
    assert(rview(v@) =~= o + (id_continue_chunk_0() + id_continue_chunk_1() + id_continue_chunk_2() + id_continue_chunk_3() + id_continue_chunk_4() + id_continue_chunk_5() + id_continue_chunk_6() + id_continue_chunk_7() + id_continue_chunk_8() + id_continue_chunk_9()));
}

fn push_id_continue_block_1(v: &mut Vec<ClassUnicodeRange>)
    ensures
        rview(final(v)@) == rview(old(v)@) + id_continue_block_1(),
{
    let ghost o = rview(v@);
    push_id_continue_chunk_10(v);
    assert(rview(v@) =~= o + (id_continue_chunk_10()));
    push_id_continue_chunk_11(v);
    assert(rview(v@) =~= o + (id_continue_chunk_10() + id_continue_chunk_11()));
    push_id_continue_chunk_12(v);
    assert(rview(v@) =~= o + (id_continue_chunk_10() + id_continue_chunk_11() + id_continue_chunk_12()));
    push_id_continue_chunk_13(v);
    assert(rview(v@) =~= o + (id_continue_chunk_10() + id_continue_chunk_11() + id_continue_chunk_12() + id_continue_chunk_13()));
    push_id_continue_chunk_14(v);
    assert(rview(v@) =~= o + (id_continue_chunk_10() + id_continue_chunk_11() + id_continue_chunk_12() + id_continue_chunk_13() + id_continue_chunk_14()));
    push_id_continue_chunk_15(v);
    assert(rview(v@) =~= o + (id_continue_chunk_10() + id_continue_chunk_11() + id_continue_chunk_12() + id_continue_chunk_13() + id_continue_chunk_14() + id_continue_chunk_15()));
    push_id_continue_chunk_16(v);
    assert(rview(v@) =~= o + (id_continue_chunk_10() + id_continue_chunk_11() + id_continue_chunk_12() + id_continue_chunk_13() + id_continue_chunk_14() + id_continue_chunk_15() + id_continue_chunk_16()));
    push_id_continue_chunk_17(v);
    assert(rview(v@) =~= o + (id_continue_chunk_10() + id_continue_chunk_11() + id_continue_chunk_12() + id_continue_chunk_13() + id_continue_chunk_14() + id_continue_chunk_15() + id_continue_chunk_16() + id_continue_chunk_17()));
    push_id_continue_chunk_18(v);
    assert(rview(v@) =~= o + (id_continue_chunk_10() + id_continue_chunk_11() + id_continue_chunk_12() + id_continue_chunk_13() + id_continue_chunk_14() + id_continue_chunk_15() + id_continue_chunk_16() + id_continue_chunk_17() + id_continue_chunk_18()));
    push_id_continue_chunk_19(v);
    assert(rview(v@) =~= o + (id_continue_chunk_10() + id_continue_chunk_11() + id_continue_chunk_12() + id_continue_chunk_13() + id_continue_chunk_14() + id_continue_chunk_15() + id_continue_chunk_16() + id_continue_chunk_17() + id_continue_chunk_18() + id_continue_chunk_19()));
}

fn push_id_continue_block_2(v: &mut Vec<ClassUnicodeRange>)
    ensures
        rview(final(v)@) == rview(old(v)@) + id_continue_block_2(),
{
    let ghost o = rview(v@);
    push_id_continue_chunk_20(v);
    assert(rview(v@) =~= o + (id_continue_chunk_20()));
    push_id_continue_chunk_21(v);
    assert(rview(v@) =~= o + (id_continue_chunk_20() + id_continue_chunk_21()));
    push_id_continue_chunk_22(v);
    assert(rview(v@) =~= o + (id_continue_chunk_20() + id_continue_chunk_21() + id_continue_chunk_22()));
    push_id_continue_chunk_23(v);
    assert(rview(v@) =~= o + (id_continue_chunk_20() + id_continue_chunk_21() + id_continue_chunk_22() + id_continue_chunk_23()));
    push_id_continue_chunk_24(v);
    assert(rview(v@) =~= o + (id_continue_chunk_20() + id_continue_chunk_21() + id_continue_chunk_22() + id_continue_chunk_23() + id_continue_chunk_24()));
    push_id_continue_chunk_25(v);
    assert(rview(v@) =~= o + (id_continue_chunk_20() + id_continue_chunk_21() + id_continue_chunk_22() + id_continue_chunk_23() + id_continue_chunk_24() + id_continue_chunk_25()));
    push_id_continue_chunk_26(v);
    assert(rview(v@) =~= o + (id_continue_chunk_20() + id_continue_chunk_21() + id_continue_chunk_22() + id_continue_chunk_23() + id_continue_chunk_24() + id_continue_chunk_25() + id_continue_chunk_26()));
    push_id_continue_chunk_27(v);
    assert(rview(v@) =~= o + (id_continue_chunk_20() + id_continue_chunk_21() + id_continue_chunk_22() + id_continue_chunk_23() + id_continue_chunk_24() + id_continue_chunk_25() + id_continue_chunk_26() + id_continue_chunk_27()));
    push_id_continue_chunk_28(v);
    assert(rview(v@) =~= o + (id_continue_chunk_20() + id_continue_chunk_21() + id_continue_chunk_22() + id_continue_chunk_23() + id_continue_chunk_24() + id_continue_chunk_25() + id_continue_chunk_26() + id_continue_chunk_27() + id_continue_chunk_28()));
    push_id_continue_chunk_29(v);
    assert(rview(v@) =~= o + (id_continue_chunk_20() + id_continue_chunk_21() + id_continue_chunk_22() + id_continue_chunk_23() + id_continue_chunk_24() + id_continue_chunk_25() + id_continue_chunk_26() + id_continue_chunk_27() + id_continue_chunk_28() + id_continue_chunk_29()));
}

fn push_id_continue_block_3(v: &mut Vec<ClassUnicodeRange>)
    ensures
        rview(final(v)@) == rview(old(v)@) + id_continue_block_3(),
{
    let ghost o = rview(v@);
    push_id_continue_chunk_30(v);
    assert(rview(v@) =~= o + (id_continue_chunk_30()));
    push_id_continue_chunk_31(v);
    assert(rview(v@) =~= o + (id_continue_chunk_30() + id_continue_chunk_31()));
    push_id_continue_chunk_32(v);
    assert(rview(v@) =~= o + (id_continue_chunk_30() + id_continue_chunk_31() + id_continue_chunk_32()));
    push_id_continue_chunk_33(v);
    assert(rview(v@) =~= o + (id_continue_chunk_30() + id_continue_chunk_31() + id_continue_chunk_32() + id_continue_chunk_33()));
    push_id_continue_chunk_34(v);
    assert(rview(v@) =~= o + (id_continue_chunk_30() + id_continue_chunk_31() + id_continue_chunk_32() + id_continue_chunk_33() + id_continue_chunk_34()));
    push_id_continue_chunk_35(v);
    assert(rview(v@) =~= o + (id_continue_chunk_30() + id_continue_chunk_31() + id_continue_chunk_32() + id_continue_chunk_33() + id_continue_chunk_34() + id_continue_chunk_35()));
    push_id_continue_chunk_36(v);
    assert(rview(v@) =~= o + (id_continue_chunk_30() + id_continue_chunk_31() + id_continue_chunk_32() + id_continue_chunk_33() + id_continue_chunk_34() + id_continue_chunk_35() + id_continue_chunk_36()));
    push_id_continue_chunk_37(v);
    assert(rview(v@) =~= o + (id_continue_chunk_30() + id_continue_chunk_31() + id_continue_chunk_32() + id_continue_chunk_33() + id_continue_chunk_34() + id_continue_chunk_35() + id_continue_chunk_36() + id_continue_chunk_37()));
    push_id_continue_chunk_38(v);
    assert(rview(v@) =~= o + (id_continue_chunk_30() + id_continue_chunk_31() + id_continue_chunk_32() + id_continue_chunk_33() + id_continue_chunk_34() + id_continue_chunk_35() + id_continue_chunk_36() + id_continue_chunk_37() + id_continue_chunk_38()));
    push_id_continue_chunk_39(v);
    assert(rview(v@) =~= o + (id_continue_chunk_30() + id_continue_chunk_31() + id_continue_chunk_32() + id_continue_chunk_33() + id_continue_chunk_34() + id_continue_chunk_35() + id_continue_chunk_36() + id_continue_chunk_37() + id_continue_chunk_38() + id_continue_chunk_39()));
}

fn push_id_continue_block_4(v: &mut Vec<ClassUnicodeRange>)
    ensures
        rview(final(v)@) == rview(old(v)@) + id_continue_block_4(),
{
    let ghost o = rview(v@);
    push_id_continue_chunk_40(v);
    assert(rview(v@) =~= o + (id_continue_chunk_40()));
    push_id_continue_chunk_41(v);
    assert(rview(v@) =~= o + (id_continue_chunk_40() + id_continue_chunk_41()));
    push_id_continue_chunk_42(v);
    assert(rview(v@) =~= o + (id_continue_chunk_40() + id_continue_chunk_41() + id_continue_chunk_42()));
    push_id_continue_chunk_43(v);
    assert(rview(v@) =~= o + (id_continue_chunk_40() + id_continue_chunk_41() + id_continue_chunk_42() + id_continue_chunk_43()));
    push_id_continue_chunk_44(v);
    assert(rview(v@) =~= o + (id_continue_chunk_40() + id_continue_chunk_41() + id_continue_chunk_42() + id_continue_chunk_43() + id_continue_chunk_44()));
    push_id_continue_chunk_45(v);
    assert(rview(v@) =~= o + (id_continue_chunk_40() + id_continue_chunk_41() + id_continue_chunk_42() + id_continue_chunk_43() + id_continue_chunk_44() + id_continue_chunk_45()));
    push_id_continue_chunk_46(v);
    assert(rview(v@) =~= o + (id_continue_chunk_40() + id_continue_chunk_41() + id_continue_chunk_42() + id_continue_chunk_43() + id_continue_chunk_44() + id_continue_chunk_45() + id_continue_chunk_46()));
    push_id_continue_chunk_47(v);
    assert(rview(v@) =~= o + (id_continue_chunk_40() + id_continue_chunk_41() + id_continue_chunk_42() + id_continue_chunk_43() + id_continue_chunk_44() + id_continue_chunk_45() + id_continue_chunk_46() + id_continue_chunk_47()));
    push_id_continue_chunk_48(v);
    assert(rview(v@) =~= o + (id_continue_chunk_40() + id_continue_chunk_41() + id_continue_chunk_42() + id_continue_chunk_43() + id_continue_chunk_44() + id_continue_chunk_45() + id_continue_chunk_46() + id_continue_chunk_47() + id_continue_chunk_48()));
    push_id_continue_chunk_49(v);
    assert(rview(v@) =~= o + (id_continue_chunk_40() + id_continue_chunk_41() + id_continue_chunk_42() + id_continue_chunk_43() + id_continue_chunk_44() + id_continue_chunk_45() + id_continue_chunk_46() + id_continue_chunk_47() + id_continue_chunk_48() + id_continue_chunk_49()));
}

fn push_id_continue_block_5(v: &mut Vec<ClassUnicodeRange>)
    ensures
        rview(final(v)@) == rview(old(v)@) + id_continue_block_5(),
{
    let ghost o = rview(v@);
    push_id_continue_chunk_50(v);
    assert(rview(v@) =~= o + (id_continue_chunk_50()));
    push_id_continue_chunk_51(v);
    assert(rview(v@) =~= o + (id_continue_chunk_50() + id_continue_chunk_51()));
    push_id_continue_chunk_52(v);
    assert(rview(v@) =~= o + (id_continue_chunk_50() + id_continue_chunk_51() + id_continue_chunk_52()));
    push_id_continue_chunk_53(v);
    assert(rview(v@) =~= o + (id_continue_chunk_50() + id_continue_chunk_51() + id_continue_chunk_52() + id_continue_chunk_53()));
    push_id_continue_chunk_54(v);
    assert(rview(v@) =~= o + (id_continue_chunk_50() + id_continue_chunk_51() + id_continue_chunk_52() + id_continue_chunk_53() + id_continue_chunk_54()));
    push_id_continue_chunk_55(v);
    assert(rview(v@) =~= o + (id_continue_chunk_50() + id_continue_chunk_51() + id_continue_chunk_52() + id_continue_chunk_53() + id_continue_chunk_54() + id_continue_chunk_55()));
    push_id_continue_chunk_56(v);
    assert(rview(v@) =~= o + (id_continue_chunk_50() + id_continue_chunk_51() + id_continue_chunk_52() + id_continue_chunk_53() + id_continue_chunk_54() + id_continue_chunk_55() + id_continue_chunk_56()));
    push_id_continue_chunk_57(v);
    assert(rview(v@) =~= o + (id_continue_chunk_50() + id_continue_chunk_51() + id_continue_chunk_52() + id_continue_chunk_53() + id_continue_chunk_54() + id_continue_chunk_55() + id_continue_chunk_56() + id_continue_chunk_57()));
    push_id_continue_chunk_58(v);
    assert(rview(v@) =~= o + (id_continue_chunk_50() + id_continue_chunk_51() + id_continue_chunk_52() + id_continue_chunk_53() + id_continue_chunk_54() + id_continue_chunk_55() + id_continue_chunk_56() + id_continue_chunk_57() + id_continue_chunk_58()));
    push_id_continue_chunk_59(v);
    assert(rview(v@) =~= o + (id_continue_chunk_50() + id_continue_chunk_51() + id_continue_chunk_52() + id_continue_chunk_53() + id_continue_chunk_54() + id_continue_chunk_55() + id_continue_chunk_56() + id_continue_chunk_57() + id_continue_chunk_58() + id_continue_chunk_59()));
}

fn push_id_continue_block_6(v: &mut Vec<ClassUnicodeRange>)
    ensures
        rview(final(v)@) == rview(old(v)@) + id_continue_block_6(),
{
    let ghost o = rview(v@);
    push_id_continue_chunk_60(v);
    assert(rview(v@) =~= o + (id_continue_chunk_60()));
    push_id_continue_chunk_61(v);
    assert(rview(v@) =~= o + (id_continue_chunk_60() + id_continue_chunk_61()));
    push_id_continue_chunk_62(v);
    assert(rview(v@) =~= o + (id_continue_chunk_60() + id_continue_chunk_61() + id_continue_chunk_62()));
    push_id_continue_chunk_63(v);
    assert(rview(v@) =~= o + (id_continue_chunk_60() + id_continue_chunk_61() + id_continue_chunk_62() + id_continue_chunk_63()));
    push_id_continue_chunk_64(v);
    assert(rview(v@) =~= o + (id_continue_chunk_60() + id_continue_chunk_61() + id_continue_chunk_62() + id_continue_chunk_63() + id_continue_chunk_64()));
    push_id_continue_chunk_65(v);
    assert(rview(v@) =~= o + (id_continue_chunk_60() + id_continue_chunk_61() + id_continue_chunk_62() + id_continue_chunk_63() + id_continue_chunk_64() + id_continue_chunk_65()));
    push_id_continue_chunk_66(v);
    assert(rview(v@) =~= o + (id_continue_chunk_60() + id_continue_chunk_61() + id_continue_chunk_62() + id_continue_chunk_63() + id_continue_chunk_64() + id_continue_chunk_65() + id_continue_chunk_66()));
    push_id_continue_chunk_67(v);
    assert(rview(v@) =~= o + (id_continue_chunk_60() + id_continue_chunk_61() + id_continue_chunk_62() + id_continue_chunk_63() + id_continue_chunk_64() + id_continue_chunk_65() + id_continue_chunk_66() + id_continue_chunk_67()));
    push_id_continue_chunk_68(v);
    assert(rview(v@) =~= o + (id_continue_chunk_60() + id_continue_chunk_61() + id_continue_chunk_62() + id_continue_chunk_63() + id_continue_chunk_64() + id_continue_chunk_65() + id_continue_chunk_66() + id_continue_chunk_67() + id_continue_chunk_68()));
    push_id_continue_chunk_69(v);
    assert(rview(v@) =~= o + (id_continue_chunk_60() + id_continue_chunk_61() + id_continue_chunk_62() + id_continue_chunk_63() + id_continue_chunk_64() + id_continue_chunk_65() + id_continue_chunk_66() + id_continue_chunk_67() + id_continue_chunk_68() + id_continue_chunk_69()));
}

fn push_id_continue_block_7(v: &mut Vec<ClassUnicodeRange>)
    ensures
        rview(final(v)@) == rview(old(v)@) + id_continue_block_7(),
{
    let ghost o = rview(v@);
    push_id_continue_chunk_70(v);
    assert(rview(v@) =~= o + (id_continue_chunk_70()));
    push_id_continue_chunk_71(v);
    assert(rview(v@) =~= o + (id_continue_chunk_70() + id_continue_chunk_71()));
    push_id_continue_chunk_72(v);
    assert(rview(v@) =~= o + (id_continue_chunk_70() + id_continue_chunk_71() + id_continue_chunk_72()));
    push_id_continue_chunk_73(v);
    assert(rview(v@) =~= o + (id_continue_chunk_70() + id_continue_chunk_71() + id_continue_chunk_72() + id_continue_chunk_73()));
    push_id_continue_chunk_74(v);
    assert(rview(v@) =~= o + (id_continue_chunk_70() + id_continue_chunk_71() + id_continue_chunk_72() + id_continue_chunk_73() + id_continue_chunk_74()));
    push_id_continue_chunk_75(v);
    assert(rview(v@) =~= o + (id_continue_chunk_70() + id_continue_chunk_71() + id_continue_chunk_72() + id_continue_chunk_73() + id_continue_chunk_74() + id_continue_chunk_75()));
    push_id_continue_chunk_76(v);
    assert(rview(v@) =~= o + (id_continue_chunk_70() + id_continue_chunk_71() + id_continue_chunk_72() + id_continue_chunk_73() + id_continue_chunk_74() + id_continue_chunk_75() + id_continue_chunk_76()));
    push_id_continue_chunk_77(v);
    assert(rview(v@) =~= o + (id_continue_chunk_70() + id_continue_chunk_71() + id_continue_chunk_72() + id_continue_chunk_73() + id_continue_chunk_74() + id_continue_chunk_75() + id_continue_chunk_76() + id_continue_chunk_77()));
    push_id_continue_chunk_78(v);
    assert(rview(v@) =~= o + (id_continue_chunk_70() + id_continue_chunk_71() + id_continue_chunk_72() + id_continue_chunk_73() + id_continue_chunk_74() + id_continue_chunk_75() + id_continue_chunk_76() + id_continue_chunk_77() + id_continue_chunk_78()));
    push_id_continue_chunk_79(v);
    assert(rview(v@) =~= o + (id_continue_chunk_70() + id_continue_chunk_71() + id_continue_chunk_72() + id_continue_chunk_73() + id_continue_chunk_74() + id_continue_chunk_75() + id_continue_chunk_76() + id_continue_chunk_77() + id_continue_chunk_78() + id_continue_chunk_79()));
}

fn push_id_continue_block_8(v: &mut Vec<ClassUnicodeRange>)
    ensures
        rview(final(v)@) == rview(old(v)@) + id_continue_block_8(),
{
    let ghost o = rview(v@);
    push_id_continue_chunk_80(v);
    assert(rview(v@) =~= o + (id_continue_chunk_80()));
    push_id_continue_chunk_81(v);
    assert(rview(v@) =~= o + (id_continue_chunk_80() + id_continue_chunk_81()));
    push_id_continue_chunk_82(v);
    assert(rview(v@) =~= o + (id_continue_chunk_80() + id_continue_chunk_81() + id_continue_chunk_82()));
    push_id_continue_chunk_83(v);
    assert(rview(v@) =~= o + (id_continue_chunk_80() + id_continue_chunk_81() + id_continue_chunk_82() + id_continue_chunk_83()));
    push_id_continue_chunk_84(v);
    assert(rview(v@) =~= o + (id_continue_chunk_80() + id_continue_chunk_81() + id_continue_chunk_82() + id_continue_chunk_83() + id_continue_chunk_84()));
    push_id_continue_chunk_85(v);
    assert(rview(v@) =~= o + (id_continue_chunk_80() + id_continue_chunk_81() + id_continue_chunk_82() + id_continue_chunk_83() + id_continue_chunk_84() + id_continue_chunk_85()));
    push_id_continue_chunk_86(v);
    assert(rview(v@) =~= o + (id_continue_chunk_80() + id_continue_chunk_81() + id_continue_chunk_82() + id_continue_chunk_83() + id_continue_chunk_84() + id_continue_chunk_85() + id_continue_chunk_86()));
    push_id_continue_chunk_87(v);
    assert(rview(v@) =~= o + (id_continue_chunk_80() + id_continue_chunk_81() + id_continue_chunk_82() + id_continue_chunk_83() + id_continue_chunk_84() + id_continue_chunk_85() + id_continue_chunk_86() + id_continue_chunk_87()));
    push_id_continue_chunk_88(v);
    assert(rview(v@) =~= o + (id_continue_chunk_80() + id_continue_chunk_81() + id_continue_chunk_82() + id_continue_chunk_83() + id_continue_chunk_84() + id_continue_chunk_85() + id_continue_chunk_86() + id_continue_chunk_87() + id_continue_chunk_88()));
    push_id_continue_chunk_89(v);
    assert(rview(v@) =~= o + (id_continue_chunk_80() + id_continue_chunk_81() + id_continue_chunk_82() + id_continue_chunk_83() + id_continue_chunk_84() + id_continue_chunk_85() + id_continue_chunk_86() + id_continue_chunk_87() + id_continue_chunk_88() + id_continue_chunk_89()));
}

fn push_id_continue_block_9(v: &mut Vec<ClassUnicodeRange>)
    ensures
        rview(final(v)@) == rview(old(v)@) + id_continue_block_9(),
{
    let ghost o = rview(v@);
    push_id_continue_chunk_90(v);
    assert(rview(v@) =~= o + (id_continue_chunk_90()));
    push_id_continue_chunk_91(v);
    assert(rview(v@) =~= o + (id_continue_chunk_90() + id_continue_chunk_91()));
    push_id_continue_chunk_92(v);
    assert(rview(v@) =~= o + (id_continue_chunk_90() + id_continue_chunk_91() + id_continue_chunk_92()));
    push_id_continue_chunk_93(v);
    assert(rview(v@) =~= o + (id_continue_chunk_90() + id_continue_chunk_91() + id_continue_chunk_92() + id_continue_chunk_93()));
    push_id_continue_chunk_94(v);
    assert(rview(v@) =~= o + (id_continue_chunk_90() + id_continue_chunk_91() + id_continue_chunk_92() + id_continue_chunk_93() + id_continue_chunk_94()));
    push_id_continue_chunk_95(v);
    assert(rview(v@) =~= o + (id_continue_chunk_90() + id_continue_chunk_91() + id_continue_chunk_92() + id_continue_chunk_93() + id_continue_chunk_94() + id_continue_chunk_95()));
    push_id_continue_chunk_96(v);
    assert(rview(v@) =~= o + (id_continue_chunk_90() + id_continue_chunk_91() + id_continue_chunk_92() + id_continue_chunk_93() + id_continue_chunk_94() + id_continue_chunk_95() + id_continue_chunk_96()));
    push_id_continue_chunk_97(v);
    assert(rview(v@) =~= o + (id_continue_chunk_90() + id_continue_chunk_91() + id_continue_chunk_92() + id_continue_chunk_93() + id_continue_chunk_94() + id_continue_chunk_95() + id_continue_chunk_96() + id_continue_chunk_97()));
    push_id_continue_chunk_98(v);
    assert(rview(v@) =~= o + (id_continue_chunk_90() + id_continue_chunk_91() + id_continue_chunk_92() + id_continue_chunk_93() + id_continue_chunk_94() + id_continue_chunk_95() + id_continue_chunk_96() + id_continue_chunk_97() + id_continue_chunk_98()));
    push_id_continue_chunk_99(v);
    assert(rview(v@) =~= o + (id_continue_chunk_90() + id_continue_chunk_91() + id_continue_chunk_92() + id_continue_chunk_93() + id_continue_chunk_94() + id_continue_chunk_95() + id_continue_chunk_96() + id_continue_chunk_97() + id_continue_chunk_98() + id_continue_chunk_99()));
}

pub fn id_continue_class() -> (v: Vec<ClassUnicodeRange>)
    ensures
        rview(v@) == id_continue_ranges(),
{
    let mut v: Vec<ClassUnicodeRange> = Vec::new();
    assert(rview(v@) =~= Seq::<SRange>::empty());
    push_id_continue_block_0(&mut v);
    assert(rview(v@) =~= id_continue_block_0());
    push_id_continue_block_1(&mut v);
    assert(rview(v@) =~= id_continue_block_0() + id_continue_block_1());
    push_id_continue_block_2(&mut v);
    assert(rview(v@) =~= id_continue_block_0() + id_continue_block_1() + id_continue_block_2());
    push_id_continue_block_3(&mut v);
    assert(rview(v@) =~= id_continue_block_0() + id_continue_block_1() + id_continue_block_2() + id_continue_block_3());
    push_id_continue_block_4(&mut v);
    assert(rview(v@) =~= id_continue_block_0() + id_continue_block_1() + id_continue_block_2() + id_continue_block_3() + id_continue_block_4());
    push_id_continue_block_5(&mut v);
    assert(rview(v@) =~= id_continue_block_0() + id_continue_block_1() + id_continue_block_2() + id_continue_block_3() + id_continue_block_4() + id_continue_block_5());
    push_id_continue_block_6(&mut v);
    assert(rview(v@) =~= id_continue_block_0() + id_continue_block_1() + id_continue_block_2() + id_continue_block_3() + id_continue_block_4() + id_continue_block_5() + id_continue_block_6());
    push_id_continue_block_7(&mut v);
    assert(rview(v@) =~= id_continue_block_0() + id_continue_block_1() + id_continue_block_2() + id_continue_block_3() + id_continue_block_4() + id_continue_block_5() + id_continue_block_6() + id_continue_block_7());
    push_id_continue_block_8(&mut v);
    assert(rview(v@) =~= id_continue_block_0() + id_continue_block_1() + id_continue_block_2() + id_continue_block_3() + id_continue_block_4() + id_continue_block_5() + id_continue_block_6() + id_continue_block_7() + id_continue_block_8());
    push_id_continue_block_9(&mut v);
    assert(rview(v@) =~= id_continue_block_0() + id_continue_block_1() + id_continue_block_2() + id_continue_block_3() + id_continue_block_4() + id_continue_block_5() + id_continue_block_6() + id_continue_block_7() + id_continue_block_8() + id_continue_block_9());
    v
}

pub open spec fn id_start_chunk_0() -> Seq<SRange> {
    seq![(0x41int, 0x5Aint), (0x61int, 0x7Aint), (0xAAint, 0xAAint), (0xB5int, 0xB5int), (0xBAint, 0xBAint), (0xC0int, 0xD6int), (0xD8int, 0xF6int), (0xF8int, 0x2C1int)]
}

pub open spec fn id_start_chunk_1() -> Seq<SRange> {
    seq![(0x2C6int, 0x2D1int), (0x2E0int, 0x2E4int), (0x2ECint, 0x2ECint), (0x2EEint, 0x2EEint), (0x370int, 0x374int), (0x376int, 0x377int), (0x37Aint, 0x37Dint), (0x37Fint, 0x37Fint)]
}

pub open spec fn id_start_chunk_2() -> Seq<SRange> {
    seq![(0x386int, 0x386int), (0x388int, 0x38Aint), (0x38Cint, 0x38Cint), (0x38Eint, 0x3A1int), (0x3A3int, 0x3F5int), (0x3F7int, 0x481int), (0x48Aint, 0x52Fint), (0x531int, 0x556int)]
}

pub open spec fn id_start_chunk_3() -> Seq<SRange> {
    seq![(0x559int, 0x559int), (0x560int, 0x588int), (0x5D0int, 0x5EAint), (0x5EFint, 0x5F2int), (0x620int, 0x64Aint), (0x66Eint, 0x66Fint), (0x671int, 0x6D3int), (0x6D5int, 0x6D5int)]
}

pub open spec fn id_start_chunk_4() -> Seq<SRange> {
    seq![(0x6E5int, 0x6E6int), (0x6EEint, 0x6EFint), (0x6FAint, 0x6FCint), (0x6FFint, 0x6FFint), (0x710int, 0x710int), (0x712int, 0x72Fint), (0x74Dint, 0x7A5int), (0x7B1int, 0x7B1int)]
}

pub open spec fn id_start_chunk_5() -> Seq<SRange> {
    seq![(0x7CAint, 0x7EAint), (0x7F4int, 0x7F5int), (0x7FAint, 0x7FAint), (0x800int, 0x815int), (0x81Aint, 0x81Aint), (0x824int, 0x824int), (0x828int, 0x828int), (0x840int, 0x858int)]
}

pub open spec fn id_start_chunk_6() -> Seq<SRange> {
    seq![(0x860int, 0x86Aint), (0x870int, 0x887int), (0x889int, 0x88Eint), (0x8A0int, 0x8C9int), (0x904int, 0x939int), (0x93Dint, 0x93Dint), (0x950int, 0x950int), (0x958int, 0x961int)]
}

pub open spec fn id_start_chunk_7() -> Seq<SRange> {
    seq![(0x971int, 0x980int), (0x985int, 0x98Cint), (0x98Fint, 0x990int), (0x993int, 0x9A8int), (0x9AAint, 0x9B0int), (0x9B2int, 0x9B2int), (0x9B6int, 0x9B9int), (0x9BDint, 0x9BDint)]
}

pub open spec fn id_start_chunk_8() -> Seq<SRange> {
    seq![(0x9CEint, 0x9CEint), (0x9DCint, 0x9DDint), (0x9DFint, 0x9E1int), (0x9F0int, 0x9F1int), (0x9FCint, 0x9FCint), (0xA05int, 0xA0Aint), (0xA0Fint, 0xA10int), (0xA13int, 0xA28int)]
}

pub open spec fn id_start_chunk_9() -> Seq<SRange> {
    seq![(0xA2Aint, 0xA30int), (0xA32int, 0xA33int), (0xA35int, 0xA36int), (0xA38int, 0xA39int), (0xA59int, 0xA5Cint), (0xA5Eint, 0xA5Eint), (0xA72int, 0xA74int), (0xA85int, 0xA8Dint)]
}

pub open spec fn id_start_chunk_10() -> Seq<SRange> {
    seq![(0xA8Fint, 0xA91int), (0xA93int, 0xAA8int), (0xAAAint, 0xAB0int), (0xAB2int, 0xAB3int), (0xAB5int, 0xAB9int), (0xABDint, 0xABDint), (0xAD0int, 0xAD0int), (0xAE0int, 0xAE1int)]
}

pub open spec fn id_start_chunk_11() -> Seq<SRange> {
    seq![(0xAF9int, 0xAF9int), (0xB05int, 0xB0Cint), (0xB0Fint, 0xB10int), (0xB13int, 0xB28int), (0xB2Aint, 0xB30int), (0xB32int, 0xB33int), (0xB35int, 0xB39int), (0xB3Dint, 0xB3Dint)]
}

pub open spec fn id_start_chunk_12() -> Seq<SRange> {
    seq![(0xB5Cint, 0xB5Dint), (0xB5Fint, 0xB61int), (0xB71int, 0xB71int), (0xB83int, 0xB83int), (0xB85int, 0xB8Aint), (0xB8Eint, 0xB90int), (0xB92int, 0xB95int), (0xB99int, 0xB9Aint)]
}

pub open spec fn id_start_chunk_13() -> Seq<SRange> {
    seq![(0xB9Cint, 0xB9Cint), (0xB9Eint, 0xB9Fint), (0xBA3int, 0xBA4int), (0xBA8int, 0xBAAint), (0xBAEint, 0xBB9int), (0xBD0int, 0xBD0int), (0xC05int, 0xC0Cint), (0xC0Eint, 0xC10int)]
}

pub open spec fn id_start_chunk_14() -> Seq<SRange> {
    seq![(0xC12int, 0xC28int), (0xC2Aint, 0xC39int), (0xC3Dint, 0xC3Dint), (0xC58int, 0xC5Aint), (0xC5Dint, 0xC5Dint), (0xC60int, 0xC61int), (0xC80int, 0xC80int), (0xC85int, 0xC8Cint)]
}

pub open spec fn id_start_chunk_15() -> Seq<SRange> {
    seq![(0xC8Eint, 0xC90int), (0xC92int, 0xCA8int), (0xCAAint, 0xCB3int), (0xCB5int, 0xCB9int), (0xCBDint, 0xCBDint), (0xCDDint, 0xCDEint), (0xCE0int, 0xCE1int), (0xCF1int, 0xCF2int)]
}

pub open spec fn id_start_chunk_16() -> Seq<SRange> {
    seq![(0xD04int, 0xD0Cint), (0xD0Eint, 0xD10int), (0xD12int, 0xD3Aint), (0xD3Dint, 0xD3Dint), (0xD4Eint, 0xD4Eint), (0xD54int, 0xD56int), (0xD5Fint, 0xD61int), (0xD7Aint, 0xD7Fint)]
}

pub open spec fn id_start_chunk_17() -> Seq<SRange> {
    seq![(0xD85int, 0xD96int), (0xD9Aint, 0xDB1int), (0xDB3int, 0xDBBint), (0xDBDint, 0xDBDint), (0xDC0int, 0xDC6int), (0xE01int, 0xE30int), (0xE32int, 0xE33int), (0xE40int, 0xE46int)]
}

pub open spec fn id_start_chunk_18() -> Seq<SRange> {
    seq![(0xE81int, 0xE82int), (0xE84int, 0xE84int), (0xE86int, 0xE8Aint), (0xE8Cint, 0xEA3int), (0xEA5int, 0xEA5int), (0xEA7int, 0xEB0int), (0xEB2int, 0xEB3int), (0xEBDint, 0xEBDint)]
}

pub open spec fn id_start_chunk_19() -> Seq<SRange> {
    seq![(0xEC0int, 0xEC4int), (0xEC6int, 0xEC6int), (0xEDCint, 0xEDFint), (0xF00int, 0xF00int), (0xF40int, 0xF47int), (0xF49int, 0xF6Cint), (0xF88int, 0xF8Cint), (0x1000int, 0x102Aint)]
}

pub open spec fn id_start_chunk_20() -> Seq<SRange> {
    seq![(0x103Fint, 0x103Fint), (0x1050int, 0x1055int), (0x105Aint, 0x105Dint), (0x1061int, 0x1061int), (0x1065int, 0x1066int), (0x106Eint, 0x1070int), (0x1075int, 0x1081int), (0x108Eint, 0x108Eint)]
}

pub open spec fn id_start_chunk_21() -> Seq<SRange> {
    seq![(0x10A0int, 0x10C5int), (0x10C7int, 0x10C7int), (0x10CDint, 0x10CDint), (0x10D0int, 0x10FAint), (0x10FCint, 0x1248int), (0x124Aint, 0x124Dint), (0x1250int, 0x1256int), (0x1258int, 0x1258int)]
}

pub open spec fn id_start_chunk_22() -> Seq<SRange> {
    seq![(0x125Aint, 0x125Dint), (0x1260int, 0x1288int), (0x128Aint, 0x128Dint), (0x1290int, 0x12B0int), (0x12B2int, 0x12B5int), (0x12B8int, 0x12BEint), (0x12C0int, 0x12C0int), (0x12C2int, 0x12C5int)]
}

pub open spec fn id_start_chunk_23() -> Seq<SRange> {
    seq![(0x12C8int, 0x12D6int), (0x12D8int, 0x1310int), (0x1312int, 0x1315int), (0x1318int, 0x135Aint), (0x1380int, 0x138Fint), (0x13A0int, 0x13F5int), (0x13F8int, 0x13FDint), (0x1401int, 0x166Cint)]
}

pub open spec fn id_start_chunk_24() -> Seq<SRange> {
    seq![(0x166Fint, 0x167Fint), (0x1681int, 0x169Aint), (0x16A0int, 0x16EAint), (0x16EEint, 0x16F8int), (0x1700int, 0x1711int), (0x171Fint, 0x1731int), (0x1740int, 0x1751int), (0x1760int, 0x176Cint)]
}

pub open spec fn id_start_chunk_25() -> Seq<SRange> {
    seq![(0x176Eint, 0x1770int), (0x1780int, 0x17B3int), (0x17D7int, 0x17D7int), (0x17DCint, 0x17DCint), (0x1820int, 0x1878int), (0x1880int, 0x18A8int), (0x18AAint, 0x18AAint), (0x18B0int, 0x18F5int)]
}

pub open spec fn id_start_chunk_26() -> Seq<SRange> {
    seq![(0x1900int, 0x191Eint), (0x1950int, 0x196Dint), (0x1970int, 0x1974int), (0x1980int, 0x19ABint), (0x19B0int, 0x19C9int), (0x1A00int, 0x1A16int), (0x1A20int, 0x1A54int), (0x1AA7int, 0x1AA7int)]
}

pub open spec fn id_start_chunk_27() -> Seq<SRange> {
    seq![(0x1B05int, 0x1B33int), (0x1B45int, 0x1B4Cint), (0x1B83int, 0x1BA0int), (0x1BAEint, 0x1BAFint), (0x1BBAint, 0x1BE5int), (0x1C00int, 0x1C23int), (0x1C4Dint, 0x1C4Fint), (0x1C5Aint, 0x1C7Dint)]
}

pub open spec fn id_start_chunk_28() -> Seq<SRange> {
    seq![(0x1C80int, 0x1C8Aint), (0x1C90int, 0x1CBAint), (0x1CBDint, 0x1CBFint), (0x1CE9int, 0x1CECint), (0x1CEEint, 0x1CF3int), (0x1CF5int, 0x1CF6int), (0x1CFAint, 0x1CFAint), (0x1D00int, 0x1DBFint)]
}

pub open spec fn id_start_chunk_29() -> Seq<SRange> {
    seq![(0x1E00int, 0x1F15int), (0x1F18int, 0x1F1Dint), (0x1F20int, 0x1F45int), (0x1F48int, 0x1F4Dint), (0x1F50int, 0x1F57int), (0x1F59int, 0x1F59int), (0x1F5Bint, 0x1F5Bint), (0x1F5Dint, 0x1F5Dint)]
}

pub open spec fn id_start_chunk_30() -> Seq<SRange> {
    seq![(0x1F5Fint, 0x1F7Dint), (0x1F80int, 0x1FB4int), (0x1FB6int, 0x1FBCint), (0x1FBEint, 0x1FBEint), (0x1FC2int, 0x1FC4int), (0x1FC6int, 0x1FCCint), (0x1FD0int, 0x1FD3int), (0x1FD6int, 0x1FDBint)]
}

pub open spec fn id_start_chunk_31() -> Seq<SRange> {
    seq![(0x1FE0int, 0x1FECint), (0x1FF2int, 0x1FF4int), (0x1FF6int, 0x1FFCint), (0x2071int, 0x2071int), (0x207Fint, 0x207Fint), (0x2090int, 0x209Cint), (0x2102int, 0x2102int), (0x2107int, 0x2107int)]
}

pub open spec fn id_start_chunk_32() -> Seq<SRange> {
    seq![(0x210Aint, 0x2113int), (0x2115int, 0x2115int), (0x2118int, 0x211Dint), (0x2124int, 0x2124int), (0x2126int, 0x2126int), (0x2128int, 0x2128int), (0x212Aint, 0x2139int), (0x213Cint, 0x213Fint)]
}

pub open spec fn id_start_chunk_33() -> Seq<SRange> {
    seq![(0x2145int, 0x2149int), (0x214Eint, 0x214Eint), (0x2160int, 0x2188int), (0x2C00int, 0x2CE4int), (0x2CEBint, 0x2CEEint), (0x2CF2int, 0x2CF3int), (0x2D00int, 0x2D25int), (0x2D27int, 0x2D27int)]
}

pub open spec fn id_start_chunk_34() -> Seq<SRange> {
    seq![(0x2D2Dint, 0x2D2Dint), (0x2D30int, 0x2D67int), (0x2D6Fint, 0x2D6Fint), (0x2D80int, 0x2D96int), (0x2DA0int, 0x2DA6int), (0x2DA8int, 0x2DAEint), (0x2DB0int, 0x2DB6int), (0x2DB8int, 0x2DBEint)]
}

pub open spec fn id_start_chunk_35() -> Seq<SRange> {
    seq![(0x2DC0int, 0x2DC6int), (0x2DC8int, 0x2DCEint), (0x2DD0int, 0x2DD6int), (0x2DD8int, 0x2DDEint), (0x3005int, 0x3007int), (0x3021int, 0x3029int), (0x3031int, 0x3035int), (0x3038int, 0x303Cint)]
}

pub open spec fn id_start_chunk_36() -> Seq<SRange> {
    seq![(0x3041int, 0x3096int), (0x309Bint, 0x309Fint), (0x30A1int, 0x30FAint), (0x30FCint, 0x30FFint), (0x3105int, 0x312Fint), (0x3131int, 0x318Eint), (0x31A0int, 0x31BFint), (0x31F0int, 0x31FFint)]
}

pub open spec fn id_start_chunk_37() -> Seq<SRange> {
    seq![(0x3400int, 0x4DBFint), (0x4E00int, 0xA48Cint), (0xA4D0int, 0xA4FDint), (0xA500int, 0xA60Cint), (0xA610int, 0xA61Fint), (0xA62Aint, 0xA62Bint), (0xA640int, 0xA66Eint), (0xA67Fint, 0xA69Dint)]
}

pub open spec fn id_start_chunk_38() -> Seq<SRange> {
    seq![(0xA6A0int, 0xA6EFint), (0xA717int, 0xA71Fint), (0xA722int, 0xA788int), (0xA78Bint, 0xA7CDint), (0xA7D0int, 0xA7D1int), (0xA7D3int, 0xA7D3int), (0xA7D5int, 0xA7DCint), (0xA7F2int, 0xA801int)]
}

pub open spec fn id_start_chunk_39() -> Seq<SRange> {
    seq![(0xA803int, 0xA805int), (0xA807int, 0xA80Aint), (0xA80Cint, 0xA822int), (0xA840int, 0xA873int), (0xA882int, 0xA8B3int), (0xA8F2int, 0xA8F7int), (0xA8FBint, 0xA8FBint), (0xA8FDint, 0xA8FEint)]
}

pub open spec fn id_start_chunk_40() -> Seq<SRange> {
    seq![(0xA90Aint, 0xA925int), (0xA930int, 0xA946int), (0xA960int, 0xA97Cint), (0xA984int, 0xA9B2int), (0xA9CFint, 0xA9CFint), (0xA9E0int, 0xA9E4int), (0xA9E6int, 0xA9EFint), (0xA9FAint, 0xA9FEint)]
}

pub open spec fn id_start_chunk_41() -> Seq<SRange> {
    seq![(0xAA00int, 0xAA28int), (0xAA40int, 0xAA42int), (0xAA44int, 0xAA4Bint), (0xAA60int, 0xAA76int), (0xAA7Aint, 0xAA7Aint), (0xAA7Eint, 0xAAAFint), (0xAAB1int, 0xAAB1int), (0xAAB5int, 0xAAB6int)]
}

pub open spec fn id_start_chunk_42() -> Seq<SRange> {
    seq![(0xAAB9int, 0xAABDint), (0xAAC0int, 0xAAC0int), (0xAAC2int, 0xAAC2int), (0xAADBint, 0xAADDint), (0xAAE0int, 0xAAEAint), (0xAAF2int, 0xAAF4int), (0xAB01int, 0xAB06int), (0xAB09int, 0xAB0Eint)]
}

pub open spec fn id_start_chunk_43() -> Seq<SRange> {
    seq![(0xAB11int, 0xAB16int), (0xAB20int, 0xAB26int), (0xAB28int, 0xAB2Eint), (0xAB30int, 0xAB5Aint), (0xAB5Cint, 0xAB69int), (0xAB70int, 0xABE2int), (0xAC00int, 0xD7A3int), (0xD7B0int, 0xD7C6int)]
}

pub open spec fn id_start_chunk_44() -> Seq<SRange> {
    seq![(0xD7CBint, 0xD7FBint), (0xF900int, 0xFA6Dint), (0xFA70int, 0xFAD9int), (0xFB00int, 0xFB06int), (0xFB13int, 0xFB17int), (0xFB1Dint, 0xFB1Dint), (0xFB1Fint, 0xFB28int), (0xFB2Aint, 0xFB36int)]
}

pub open spec fn id_start_chunk_45() -> Seq<SRange> {
    seq![(0xFB38int, 0xFB3Cint), (0xFB3Eint, 0xFB3Eint), (0xFB40int, 0xFB41int), (0xFB43int, 0xFB44int), (0xFB46int, 0xFBB1int), (0xFBD3int, 0xFD3Dint), (0xFD50int, 0xFD8Fint), (0xFD92int, 0xFDC7int)]
}

pub open spec fn id_start_chunk_46() -> Seq<SRange> {
    seq![(0xFDF0int, 0xFDFBint), (0xFE70int, 0xFE74int), (0xFE76int, 0xFEFCint), (0xFF21int, 0xFF3Aint), (0xFF41int, 0xFF5Aint), (0xFF66int, 0xFFBEint), (0xFFC2int, 0xFFC7int), (0xFFCAint, 0xFFCFint)]
}

pub open spec fn id_start_chunk_47() -> Seq<SRange> {
    seq![(0xFFD2int, 0xFFD7int), (0xFFDAint, 0xFFDCint), (0x10000int, 0x1000Bint), (0x1000Dint, 0x10026int), (0x10028int, 0x1003Aint), (0x1003Cint, 0x1003Dint), (0x1003Fint, 0x1004Dint), (0x10050int, 0x1005Dint)]
}

pub open spec fn id_start_chunk_48() -> Seq<SRange> {
    seq![(0x10080int, 0x100FAint), (0x10140int, 0x10174int), (0x10280int, 0x1029Cint), (0x102A0int, 0x102D0int), (0x10300int, 0x1031Fint), (0x1032Dint, 0x1034Aint), (0x10350int, 0x10375int), (0x10380int, 0x1039Dint)]
}

pub open spec fn id_start_chunk_49() -> Seq<SRange> {
    seq![(0x103A0int, 0x103C3int), (0x103C8int, 0x103CFint), (0x103D1int, 0x103D5int), (0x10400int, 0x1049Dint), (0x104B0int, 0x104D3int), (0x104D8int, 0x104FBint), (0x10500int, 0x10527int), (0x10530int, 0x10563int)]
}

pub open spec fn id_start_chunk_50() -> Seq<SRange> {
    seq![(0x10570int, 0x1057Aint), (0x1057Cint, 0x1058Aint), (0x1058Cint, 0x10592int), (0x10594int, 0x10595int), (0x10597int, 0x105A1int), (0x105A3int, 0x105B1int), (0x105B3int, 0x105B9int), (0x105BBint, 0x105BCint)]
}

pub open spec fn id_start_chunk_51() -> Seq<SRange> {
    seq![(0x105C0int, 0x105F3int), (0x10600int, 0x10736int), (0x10740int, 0x10755int), (0x10760int, 0x10767int), (0x10780int, 0x10785int), (0x10787int, 0x107B0int), (0x107B2int, 0x107BAint), (0x10800int, 0x10805int)]
}

pub open spec fn id_start_chunk_52() -> Seq<SRange> {
    seq![(0x10808int, 0x10808int), (0x1080Aint, 0x10835int), (0x10837int, 0x10838int), (0x1083Cint, 0x1083Cint), (0x1083Fint, 0x10855int), (0x10860int, 0x10876int), (0x10880int, 0x1089Eint), (0x108E0int, 0x108F2int)]
}

pub open spec fn id_start_chunk_53() -> Seq<SRange> {
    seq![(0x108F4int, 0x108F5int), (0x10900int, 0x10915int), (0x10920int, 0x10939int), (0x10980int, 0x109B7int), (0x109BEint, 0x109BFint), (0x10A00int, 0x10A00int), (0x10A10int, 0x10A13int), (0x10A15int, 0x10A17int)]
}

pub open spec fn id_start_chunk_54() -> Seq<SRange> {
    seq![(0x10A19int, 0x10A35int), (0x10A60int, 0x10A7Cint), (0x10A80int, 0x10A9Cint), (0x10AC0int, 0x10AC7int), (0x10AC9int, 0x10AE4int), (0x10B00int, 0x10B35int), (0x10B40int, 0x10B55int), (0x10B60int, 0x10B72int)]
}

pub open spec fn id_start_chunk_55() -> Seq<SRange> {
    seq![(0x10B80int, 0x10B91int), (0x10C00int, 0x10C48int), (0x10C80int, 0x10CB2int), (0x10CC0int, 0x10CF2int), (0x10D00int, 0x10D23int), (0x10D4Aint, 0x10D65int), (0x10D6Fint, 0x10D85int), (0x10E80int, 0x10EA9int)]
}

pub open spec fn id_start_chunk_56() -> Seq<SRange> {
    seq![(0x10EB0int, 0x10EB1int), (0x10EC2int, 0x10EC4int), (0x10F00int, 0x10F1Cint), (0x10F27int, 0x10F27int), (0x10F30int, 0x10F45int), (0x10F70int, 0x10F81int), (0x10FB0int, 0x10FC4int), (0x10FE0int, 0x10FF6int)]
}

pub open spec fn id_start_chunk_57() -> Seq<SRange> {
    seq![(0x11003int, 0x11037int), (0x11071int, 0x11072int), (0x11075int, 0x11075int), (0x11083int, 0x110AFint), (0x110D0int, 0x110E8int), (0x11103int, 0x11126int), (0x11144int, 0x11144int), (0x11147int, 0x11147int)]
}

pub open spec fn id_start_chunk_58() -> Seq<SRange> {
    seq![(0x11150int, 0x11172int), (0x11176int, 0x11176int), (0x11183int, 0x111B2int), (0x111C1int, 0x111C4int), (0x111DAint, 0x111DAint), (0x111DCint, 0x111DCint), (0x11200int, 0x11211int), (0x11213int, 0x1122Bint)]
}

pub open spec fn id_start_chunk_59() -> Seq<SRange> {
    seq![(0x1123Fint, 0x11240int), (0x11280int, 0x11286int), (0x11288int, 0x11288int), (0x1128Aint, 0x1128Dint), (0x1128Fint, 0x1129Dint), (0x1129Fint, 0x112A8int), (0x112B0int, 0x112DEint), (0x11305int, 0x1130Cint)]
}

pub open spec fn id_start_chunk_60() -> Seq<SRange> {
    seq![(0x1130Fint, 0x11310int), (0x11313int, 0x11328int), (0x1132Aint, 0x11330int), (0x11332int, 0x11333int), (0x11335int, 0x11339int), (0x1133Dint, 0x1133Dint), (0x11350int, 0x11350int), (0x1135Dint, 0x11361int)]
}

pub open spec fn id_start_chunk_61() -> Seq<SRange> {
    seq![(0x11380int, 0x11389int), (0x1138Bint, 0x1138Bint), (0x1138Eint, 0x1138Eint), (0x11390int, 0x113B5int), (0x113B7int, 0x113B7int), (0x113D1int, 0x113D1int), (0x113D3int, 0x113D3int), (0x11400int, 0x11434int)]
}

pub open spec fn id_start_chunk_62() -> Seq<SRange> {
    seq![(0x11447int, 0x1144Aint), (0x1145Fint, 0x11461int), (0x11480int, 0x114AFint), (0x114C4int, 0x114C5int), (0x114C7int, 0x114C7int), (0x11580int, 0x115AEint), (0x115D8int, 0x115DBint), (0x11600int, 0x1162Fint)]
}

pub open spec fn id_start_chunk_63() -> Seq<SRange> {
    seq![(0x11644int, 0x11644int), (0x11680int, 0x116AAint), (0x116B8int, 0x116B8int), (0x11700int, 0x1171Aint), (0x11740int, 0x11746int), (0x11800int, 0x1182Bint), (0x118A0int, 0x118DFint), (0x118FFint, 0x11906int)]
}

pub open spec fn id_start_chunk_64() -> Seq<SRange> {
    seq![(0x11909int, 0x11909int), (0x1190Cint, 0x11913int), (0x11915int, 0x11916int), (0x11918int, 0x1192Fint), (0x1193Fint, 0x1193Fint), (0x11941int, 0x11941int), (0x119A0int, 0x119A7int), (0x119AAint, 0x119D0int)]
}

pub open spec fn id_start_chunk_65() -> Seq<SRange> {
    seq![(0x119E1int, 0x119E1int), (0x119E3int, 0x119E3int), (0x11A00int, 0x11A00int), (0x11A0Bint, 0x11A32int), (0x11A3Aint, 0x11A3Aint), (0x11A50int, 0x11A50int), (0x11A5Cint, 0x11A89int), (0x11A9Dint, 0x11A9Dint)]
}

pub open spec fn id_start_chunk_66() -> Seq<SRange> {
    seq![(0x11AB0int, 0x11AF8int), (0x11BC0int, 0x11BE0int), (0x11C00int, 0x11C08int), (0x11C0Aint, 0x11C2Eint), (0x11C40int, 0x11C40int), (0x11C72int, 0x11C8Fint), (0x11D00int, 0x11D06int), (0x11D08int, 0x11D09int)]
}

pub open spec fn id_start_chunk_67() -> Seq<SRange> {
    seq![(0x11D0Bint, 0x11D30int), (0x11D46int, 0x11D46int), (0x11D60int, 0x11D65int), (0x11D67int, 0x11D68int), (0x11D6Aint, 0x11D89int), (0x11D98int, 0x11D98int), (0x11EE0int, 0x11EF2int), (0x11F02int, 0x11F02int)]
}

pub open spec fn id_start_chunk_68() -> Seq<SRange> {
    seq![(0x11F04int, 0x11F10int), (0x11F12int, 0x11F33int), (0x11FB0int, 0x11FB0int), (0x12000int, 0x12399int), (0x12400int, 0x1246Eint), (0x12480int, 0x12543int), (0x12F90int, 0x12FF0int), (0x13000int, 0x1342Fint)]
}

pub open spec fn id_start_chunk_69() -> Seq<SRange> {
    seq![(0x13441int, 0x13446int), (0x13460int, 0x143FAint), (0x14400int, 0x14646int), (0x16100int, 0x1611Dint), (0x16800int, 0x16A38int), (0x16A40int, 0x16A5Eint), (0x16A70int, 0x16ABEint), (0x16AD0int, 0x16AEDint)]
}

pub open spec fn id_start_chunk_70() -> Seq<SRange> {
    seq![(0x16B00int, 0x16B2Fint), (0x16B40int, 0x16B43int), (0x16B63int, 0x16B77int), (0x16B7Dint, 0x16B8Fint), (0x16D40int, 0x16D6Cint), (0x16E40int, 0x16E7Fint), (0x16F00int, 0x16F4Aint), (0x16F50int, 0x16F50int)]
}

pub open spec fn id_start_chunk_71() -> Seq<SRange> {
    seq![(0x16F93int, 0x16F9Fint), (0x16FE0int, 0x16FE1int), (0x16FE3int, 0x16FE3int), (0x17000int, 0x187F7int), (0x18800int, 0x18CD5int), (0x18CFFint, 0x18D08int), (0x1AFF0int, 0x1AFF3int), (0x1AFF5int, 0x1AFFBint)]
}

pub open spec fn id_start_chunk_72() -> Seq<SRange> {
    seq![(0x1AFFDint, 0x1AFFEint), (0x1B000int, 0x1B122int), (0x1B132int, 0x1B132int), (0x1B150int, 0x1B152int), (0x1B155int, 0x1B155int), (0x1B164int, 0x1B167int), (0x1B170int, 0x1B2FBint), (0x1BC00int, 0x1BC6Aint)]
}

pub open spec fn id_start_chunk_73() -> Seq<SRange> {
    seq![(0x1BC70int, 0x1BC7Cint), (0x1BC80int, 0x1BC88int), (0x1BC90int, 0x1BC99int), (0x1D400int, 0x1D454int), (0x1D456int, 0x1D49Cint), (0x1D49Eint, 0x1D49Fint), (0x1D4A2int, 0x1D4A2int), (0x1D4A5int, 0x1D4A6int)]
}

pub open spec fn id_start_chunk_74() -> Seq<SRange> {
    seq![(0x1D4A9int, 0x1D4ACint), (0x1D4AEint, 0x1D4B9int), (0x1D4BBint, 0x1D4BBint), (0x1D4BDint, 0x1D4C3int), (0x1D4C5int, 0x1D505int), (0x1D507int, 0x1D50Aint), (0x1D50Dint, 0x1D514int), (0x1D516int, 0x1D51Cint)]
}

pub open spec fn id_start_chunk_75() -> Seq<SRange> {
    seq![(0x1D51Eint, 0x1D539int), (0x1D53Bint, 0x1D53Eint), (0x1D540int, 0x1D544int), (0x1D546int, 0x1D546int), (0x1D54Aint, 0x1D550int), (0x1D552int, 0x1D6A5int), (0x1D6A8int, 0x1D6C0int), (0x1D6C2int, 0x1D6DAint)]
}

pub open spec fn id_start_chunk_76() -> Seq<SRange> {
    seq![(0x1D6DCint, 0x1D6FAint), (0x1D6FCint, 0x1D714int), (0x1D716int, 0x1D734int), (0x1D736int, 0x1D74Eint), (0x1D750int, 0x1D76Eint), (0x1D770int, 0x1D788int), (0x1D78Aint, 0x1D7A8int), (0x1D7AAint, 0x1D7C2int)]
}

pub open spec fn id_start_chunk_77() -> Seq<SRange> {
    seq![(0x1D7C4int, 0x1D7CBint), (0x1DF00int, 0x1DF1Eint), (0x1DF25int, 0x1DF2Aint), (0x1E030int, 0x1E06Dint), (0x1E100int, 0x1E12Cint), (0x1E137int, 0x1E13Dint), (0x1E14Eint, 0x1E14Eint), (0x1E290int, 0x1E2ADint)]
}

pub open spec fn id_start_chunk_78() -> Seq<SRange> {
    seq![(0x1E2C0int, 0x1E2EBint), (0x1E4D0int, 0x1E4EBint), (0x1E5D0int, 0x1E5EDint), (0x1E5F0int, 0x1E5F0int), (0x1E7E0int, 0x1E7E6int), (0x1E7E8int, 0x1E7EBint), (0x1E7EDint, 0x1E7EEint), (0x1E7F0int, 0x1E7FEint)]
}

pub open spec fn id_start_chunk_79() -> Seq<SRange> {
    seq![(0x1E800int, 0x1E8C4int), (0x1E900int, 0x1E943int), (0x1E94Bint, 0x1E94Bint), (0x1EE00int, 0x1EE03int), (0x1EE05int, 0x1EE1Fint), (0x1EE21int, 0x1EE22int), (0x1EE24int, 0x1EE24int), (0x1EE27int, 0x1EE27int)]
}

pub open spec fn id_start_chunk_80() -> Seq<SRange> {
    seq![(0x1EE29int, 0x1EE32int), (0x1EE34int, 0x1EE37int), (0x1EE39int, 0x1EE39int), (0x1EE3Bint, 0x1EE3Bint), (0x1EE42int, 0x1EE42int), (0x1EE47int, 0x1EE47int), (0x1EE49int, 0x1EE49int), (0x1EE4Bint, 0x1EE4Bint)]
}

pub open spec fn id_start_chunk_81() -> Seq<SRange> {
    seq![(0x1EE4Dint, 0x1EE4Fint), (0x1EE51int, 0x1EE52int), (0x1EE54int, 0x1EE54int), (0x1EE57int, 0x1EE57int), (0x1EE59int, 0x1EE59int), (0x1EE5Bint, 0x1EE5Bint), (0x1EE5Dint, 0x1EE5Dint), (0x1EE5Fint, 0x1EE5Fint)]
}

pub open spec fn id_start_chunk_82() -> Seq<SRange> {
    seq![(0x1EE61int, 0x1EE62int), (0x1EE64int, 0x1EE64int), (0x1EE67int, 0x1EE6Aint), (0x1EE6Cint, 0x1EE72int), (0x1EE74int, 0x1EE77int), (0x1EE79int, 0x1EE7Cint), (0x1EE7Eint, 0x1EE7Eint), (0x1EE80int, 0x1EE89int)]
}

pub open spec fn id_start_chunk_83() -> Seq<SRange> {
    seq![(0x1EE8Bint, 0x1EE9Bint), (0x1EEA1int, 0x1EEA3int), (0x1EEA5int, 0x1EEA9int), (0x1EEABint, 0x1EEBBint), (0x20000int, 0x2A6DFint), (0x2A700int, 0x2B739int), (0x2B740int, 0x2B81Dint), (0x2B820int, 0x2CEA1int)]
}

pub open spec fn id_start_chunk_84() -> Seq<SRange> {
    seq![(0x2CEB0int, 0x2EBE0int), (0x2EBF0int, 0x2EE5Dint), (0x2F800int, 0x2FA1Dint), (0x30000int, 0x3134Aint), (0x31350int, 0x323AFint)]
}

pub open spec fn id_start_block_0() -> Seq<SRange> {
    id_start_chunk_0() + id_start_chunk_1() + id_start_chunk_2() + id_start_chunk_3() + id_start_chunk_4() + id_start_chunk_5() + id_start_chunk_6() + id_start_chunk_7() + id_start_chunk_8() + id_start_chunk_9()
}

pub open spec fn id_start_block_1() -> Seq<SRange> {
    id_start_chunk_10() + id_start_chunk_11() + id_start_chunk_12() + id_start_chunk_13() + id_start_chunk_14() + id_start_chunk_15() + id_start_chunk_16() + id_start_chunk_17() + id_start_chunk_18() + id_start_chunk_19()
}

pub open spec fn id_start_block_2() -> Seq<SRange> {
    id_start_chunk_20() + id_start_chunk_21() + id_start_chunk_22() + id_start_chunk_23() + id_start_chunk_24() + id_start_chunk_25() + id_start_chunk_26() + id_start_chunk_27() + id_start_chunk_28() + id_start_chunk_29()
}

pub open spec fn id_start_block_3() -> Seq<SRange> {
    id_start_chunk_30() + id_start_chunk_31() + id_start_chunk_32() + id_start_chunk_33() + id_start_chunk_34() + id_start_chunk_35() + id_start_chunk_36() + id_start_chunk_37() + id_start_chunk_38() + id_start_chunk_39()
}

pub open spec fn id_start_block_4() -> Seq<SRange> {
    id_start_chunk_40() + id_start_chunk_41() + id_start_chunk_42() + id_start_chunk_43() + id_start_chunk_44() + id_start_chunk_45() + id_start_chunk_46() + id_start_chunk_47() + id_start_chunk_48() + id_start_chunk_49()
}

pub open spec fn id_start_block_5() -> Seq<SRange> {
    id_start_chunk_50() + id_start_chunk_51() + id_start_chunk_52() + id_start_chunk_53() + id_start_chunk_54() + id_start_chunk_55() + id_start_chunk_56() + id_start_chunk_57() + id_start_chunk_58() + id_start_chunk_59()
}

pub open spec fn id_start_block_6() -> Seq<SRange> {
    id_start_chunk_60() + id_start_chunk_61() + id_start_chunk_62() + id_start_chunk_63() + id_start_chunk_64() + id_start_chunk_65() + id_start_chunk_66() + id_start_chunk_67() + id_start_chunk_68() + id_start_chunk_69()
}

pub open spec fn id_start_block_7() -> Seq<SRange> {
    id_start_chunk_70() + id_start_chunk_71() + id_start_chunk_72() + id_start_chunk_73() + id_start_chunk_74() + id_start_chunk_75() + id_start_chunk_76() + id_start_chunk_77() + id_start_chunk_78() + id_start_chunk_79()
}

pub open spec fn id_start_block_8() -> Seq<SRange> {
    id_start_chunk_80() + id_start_chunk_81() + id_start_chunk_82() + id_start_chunk_83() + id_start_chunk_84()
}

/// The ranges of the property ID_Start.
pub open spec fn id_start_ranges() -> Seq<SRange> {
    id_start_block_0() + id_start_block_1() + id_start_block_2() + id_start_block_3() + id_start_block_4() + id_start_block_5() + id_start_block_6() + id_start_block_7() + id_start_block_8()
}

proof fn lemma_id_start_block_0()
    ensures
        canonical(id_start_block_0()),
        id_start_block_0().len() > 0,
        id_start_block_0()[0] == id_start_chunk_0()[0],
        id_start_block_0().last() == id_start_chunk_9().last(),
{
    reveal_with_fuel(canonical, 9);
    assert(canonical(id_start_chunk_0()));
    assert(canonical(id_start_chunk_1()));
    assert(canonical(id_start_chunk_2()));
    assert(canonical(id_start_chunk_3()));
    assert(canonical(id_start_chunk_4()));
    assert(canonical(id_start_chunk_5()));
    assert(canonical(id_start_chunk_6()));
    assert(canonical(id_start_chunk_7()));
    assert(canonical(id_start_chunk_8()));
    assert(canonical(id_start_chunk_9()));
    lemma_canonical_append(id_start_chunk_0(), id_start_chunk_1());
    lemma_canonical_append(id_start_chunk_0() + id_start_chunk_1(), id_start_chunk_2());
    lemma_canonical_append(id_start_chunk_0() + id_start_chunk_1() + id_start_chunk_2(), id_start_chunk_3());
    lemma_canonical_append(id_start_chunk_0() + id_start_chunk_1() + id_start_chunk_2() + id_start_chunk_3(), id_start_chunk_4());
    lemma_canonical_append(id_start_chunk_0() + id_start_chunk_1() + id_start_chunk_2() + id_start_chunk_3() + id_start_chunk_4(), id_start_chunk_5());
    lemma_canonical_append(id_start_chunk_0() + id_start_chunk_1() + id_start_chunk_2() + id_start_chunk_3() + id_start_chunk_4() + id_start_chunk_5(), id_start_chunk_6());
    lemma_canonical_append(id_start_chunk_0() + id_start_chunk_1() + id_start_chunk_2() + id_start_chunk_3() + id_start_chunk_4() + id_start_chunk_5() + id_start_chunk_6(), id_start_chunk_7());
    lemma_canonical_append(id_start_chunk_0() + id_start_chunk_1() + id_start_chunk_2() + id_start_chunk_3() + id_start_chunk_4() + id_start_chunk_5() + id_start_chunk_6() + id_start_chunk_7(), id_start_chunk_8());
    lemma_canonical_append(id_start_chunk_0() + id_start_chunk_1() + id_start_chunk_2() + id_start_chunk_3() + id_start_chunk_4() + id_start_chunk_5() + id_start_chunk_6() + id_start_chunk_7() + id_start_chunk_8(), id_start_chunk_9());
}

proof fn lemma_id_start_block_1()
    ensures
        canonical(id_start_block_1()),
        id_start_block_1().len() > 0,
        id_start_block_1()[0] == id_start_chunk_10()[0],
        id_start_block_1().last() == id_start_chunk_19().last(),
{
    reveal_with_fuel(canonical, 9);
    assert(canonical(id_start_chunk_10()));
    assert(canonical(id_start_chunk_11()));
    assert(canonical(id_start_chunk_12()));
    assert(canonical(id_start_chunk_13()));
    assert(canonical(id_start_chunk_14()));
    assert(canonical(id_start_chunk_15()));
    assert(canonical(id_start_chunk_16()));
    assert(canonical(id_start_chunk_17()));
    assert(canonical(id_start_chunk_18()));
    assert(canonical(id_start_chunk_19()));
    lemma_canonical_append(id_start_chunk_10(), id_start_chunk_11());
    lemma_canonical_append(id_start_chunk_10() + id_start_chunk_11(), id_start_chunk_12());
    lemma_canonical_append(id_start_chunk_10() + id_start_chunk_11() + id_start_chunk_12(), id_start_chunk_13());
    lemma_canonical_append(id_start_chunk_10() + id_start_chunk_11() + id_start_chunk_12() + id_start_chunk_13(), id_start_chunk_14());
    lemma_canonical_append(id_start_chunk_10() + id_start_chunk_11() + id_start_chunk_12() + id_start_chunk_13() + id_start_chunk_14(), id_start_chunk_15());
    lemma_canonical_append(id_start_chunk_10() + id_start_chunk_11() + id_start_chunk_12() + id_start_chunk_13() + id_start_chunk_14() + id_start_chunk_15(), id_start_chunk_16());
    lemma_canonical_append(id_start_chunk_10() + id_start_chunk_11() + id_start_chunk_12() + id_start_chunk_13() + id_start_chunk_14() + id_start_chunk_15() + id_start_chunk_16(), id_start_chunk_17());
    lemma_canonical_append(id_start_chunk_10() + id_start_chunk_11() + id_start_chunk_12() + id_start_chunk_13() + id_start_chunk_14() + id_start_chunk_15() + id_start_chunk_16() + id_start_chunk_17(), id_start_chunk_18());
    lemma_canonical_append(id_start_chunk_10() + id_start_chunk_11() + id_start_chunk_12() + id_start_chunk_13() + id_start_chunk_14() + id_start_chunk_15() + id_start_chunk_16() + id_start_chunk_17() + id_start_chunk_18(), id_start_chunk_19());
}

proof fn lemma_id_start_block_2()
    ensures
        canonical(id_start_block_2()),
        id_start_block_2().len() > 0,
        id_start_block_2()[0] == id_start_chunk_20()[0],
        id_start_block_2().last() == id_start_chunk_29().last(),
{
    reveal_with_fuel(canonical, 9);
    assert(canonical(id_start_chunk_20()));
    assert(canonical(id_start_chunk_21()));
    assert(canonical(id_start_chunk_22()));
    assert(canonical(id_start_chunk_23()));
    assert(canonical(id_start_chunk_24()));
    assert(canonical(id_start_chunk_25()));
    assert(canonical(id_start_chunk_26()));
    assert(canonical(id_start_chunk_27()));
    assert(canonical(id_start_chunk_28()));
    assert(canonical(id_start_chunk_29()));
    lemma_canonical_append(id_start_chunk_20(), id_start_chunk_21());
    lemma_canonical_append(id_start_chunk_20() + id_start_chunk_21(), id_start_chunk_22());
    lemma_canonical_append(id_start_chunk_20() + id_start_chunk_21() + id_start_chunk_22(), id_start_chunk_23());
    lemma_canonical_append(id_start_chunk_20() + id_start_chunk_21() + id_start_chunk_22() + id_start_chunk_23(), id_start_chunk_24());
    lemma_canonical_append(id_start_chunk_20() + id_start_chunk_21() + id_start_chunk_22() + id_start_chunk_23() + id_start_chunk_24(), id_start_chunk_25());
    lemma_canonical_append(id_start_chunk_20() + id_start_chunk_21() + id_start_chunk_22() + id_start_chunk_23() + id_start_chunk_24() + id_start_chunk_25(), id_start_chunk_26());
    lemma_canonical_append(id_start_chunk_20() + id_start_chunk_21() + id_start_chunk_22() + id_start_chunk_23() + id_start_chunk_24() + id_start_chunk_25() + id_start_chunk_26(), id_start_chunk_27());
    lemma_canonical_append(id_start_chunk_20() + id_start_chunk_21() + id_start_chunk_22() + id_start_chunk_23() + id_start_chunk_24() + id_start_chunk_25() + id_start_chunk_26() + id_start_chunk_27(), id_start_chunk_28());
    lemma_canonical_append(id_start_chunk_20() + id_start_chunk_21() + id_start_chunk_22() + id_start_chunk_23() + id_start_chunk_24() + id_start_chunk_25() + id_start_chunk_26() + id_start_chunk_27() + id_start_chunk_28(), id_start_chunk_29());
}

proof fn lemma_id_start_block_3()
    ensures
        canonical(id_start_block_3()),
        id_start_block_3().len() > 0,
        id_start_block_3()[0] == id_start_chunk_30()[0],
        id_start_block_3().last() == id_start_chunk_39().last(),
{
    reveal_with_fuel(canonical, 9);
    assert(canonical(id_start_chunk_30()));
    assert(canonical(id_start_chunk_31()));
    assert(canonical(id_start_chunk_32()));
    assert(canonical(id_start_chunk_33()));
    assert(canonical(id_start_chunk_34()));
    assert(canonical(id_start_chunk_35()));
    assert(canonical(id_start_chunk_36()));
    assert(canonical(id_start_chunk_37()));
    assert(canonical(id_start_chunk_38()));
    assert(canonical(id_start_chunk_39()));
    lemma_canonical_append(id_start_chunk_30(), id_start_chunk_31());
    lemma_canonical_append(id_start_chunk_30() + id_start_chunk_31(), id_start_chunk_32());
    lemma_canonical_append(id_start_chunk_30() + id_start_chunk_31() + id_start_chunk_32(), id_start_chunk_33());
    lemma_canonical_append(id_start_chunk_30() + id_start_chunk_31() + id_start_chunk_32() + id_start_chunk_33(), id_start_chunk_34());
    lemma_canonical_append(id_start_chunk_30() + id_start_chunk_31() + id_start_chunk_32() + id_start_chunk_33() + id_start_chunk_34(), id_start_chunk_35());
    lemma_canonical_append(id_start_chunk_30() + id_start_chunk_31() + id_start_chunk_32() + id_start_chunk_33() + id_start_chunk_34() + id_start_chunk_35(), id_start_chunk_36());
    lemma_canonical_append(id_start_chunk_30() + id_start_chunk_31() + id_start_chunk_32() + id_start_chunk_33() + id_start_chunk_34() + id_start_chunk_35() + id_start_chunk_36(), id_start_chunk_37());
    lemma_canonical_append(id_start_chunk_30() + id_start_chunk_31() + id_start_chunk_32() + id_start_chunk_33() + id_start_chunk_34() + id_start_chunk_35() + id_start_chunk_36() + id_start_chunk_37(), id_start_chunk_38());
    lemma_canonical_append(id_start_chunk_30() + id_start_chunk_31() + id_start_chunk_32() + id_start_chunk_33() + id_start_chunk_34() + id_start_chunk_35() + id_start_chunk_36() + id_start_chunk_37() + id_start_chunk_38(), id_start_chunk_39());
}

proof fn lemma_id_start_block_4()
    ensures
        canonical(id_start_block_4()),
        id_start_block_4().len() > 0,
        id_start_block_4()[0] == id_start_chunk_40()[0],
        id_start_block_4().last() == id_start_chunk_49().last(),
{
    reveal_with_fuel(canonical, 9);
    assert(canonical(id_start_chunk_40()));
    assert(canonical(id_start_chunk_41()));
    assert(canonical(id_start_chunk_42()));
    assert(canonical(id_start_chunk_43()));
    assert(canonical(id_start_chunk_44()));
    assert(canonical(id_start_chunk_45()));
    assert(canonical(id_start_chunk_46()));
    assert(canonical(id_start_chunk_47()));
    assert(canonical(id_start_chunk_48()));
    assert(canonical(id_start_chunk_49()));
    lemma_canonical_append(id_start_chunk_40(), id_start_chunk_41());
    lemma_canonical_append(id_start_chunk_40() + id_start_chunk_41(), id_start_chunk_42());
    lemma_canonical_append(id_start_chunk_40() + id_start_chunk_41() + id_start_chunk_42(), id_start_chunk_43());
    lemma_canonical_append(id_start_chunk_40() + id_start_chunk_41() + id_start_chunk_42() + id_start_chunk_43(), id_start_chunk_44());
    lemma_canonical_append(id_start_chunk_40() + id_start_chunk_41() + id_start_chunk_42() + id_start_chunk_43() + id_start_chunk_44(), id_start_chunk_45());
    lemma_canonical_append(id_start_chunk_40() + id_start_chunk_41() + id_start_chunk_42() + id_start_chunk_43() + id_start_chunk_44() + id_start_chunk_45(), id_start_chunk_46());
    lemma_canonical_append(id_start_chunk_40() + id_start_chunk_41() + id_start_chunk_42() + id_start_chunk_43() + id_start_chunk_44() + id_start_chunk_45() + id_start_chunk_46(), id_start_chunk_47());
    lemma_canonical_append(id_start_chunk_40() + id_start_chunk_41() + id_start_chunk_42() + id_start_chunk_43() + id_start_chunk_44() + id_start_chunk_45() + id_start_chunk_46() + id_start_chunk_47(), id_start_chunk_48());
    lemma_canonical_append(id_start_chunk_40() + id_start_chunk_41() + id_start_chunk_42() + id_start_chunk_43() + id_start_chunk_44() + id_start_chunk_45() + id_start_chunk_46() + id_start_chunk_47() + id_start_chunk_48(), id_start_chunk_49());
}

proof fn lemma_id_start_block_5()
    ensures
        canonical(id_start_block_5()),
        id_start_block_5().len() > 0,
        id_start_block_5()[0] == id_start_chunk_50()[0],
        id_start_block_5().last() == id_start_chunk_59().last(),
{
    reveal_with_fuel(canonical, 9);
    assert(canonical(id_start_chunk_50()));
    assert(canonical(id_start_chunk_51()));
    assert(canonical(id_start_chunk_52()));
    assert(canonical(id_start_chunk_53()));
    assert(canonical(id_start_chunk_54()));
    assert(canonical(id_start_chunk_55()));
    assert(canonical(id_start_chunk_56()));
    assert(canonical(id_start_chunk_57()));
    assert(canonical(id_start_chunk_58()));
    assert(canonical(id_start_chunk_59()));
    lemma_canonical_append(id_start_chunk_50(), id_start_chunk_51());
    lemma_canonical_append(id_start_chunk_50() + id_start_chunk_51(), id_start_chunk_52());
    lemma_canonical_append(id_start_chunk_50() + id_start_chunk_51() + id_start_chunk_52(), id_start_chunk_53());
    lemma_canonical_append(id_start_chunk_50() + id_start_chunk_51() + id_start_chunk_52() + id_start_chunk_53(), id_start_chunk_54());
    lemma_canonical_append(id_start_chunk_50() + id_start_chunk_51() + id_start_chunk_52() + id_start_chunk_53() + id_start_chunk_54(), id_start_chunk_55());
    lemma_canonical_append(id_start_chunk_50() + id_start_chunk_51() + id_start_chunk_52() + id_start_chunk_53() + id_start_chunk_54() + id_start_chunk_55(), id_start_chunk_56());
    lemma_canonical_append(id_start_chunk_50() + id_start_chunk_51() + id_start_chunk_52() + id_start_chunk_53() + id_start_chunk_54() + id_start_chunk_55() + id_start_chunk_56(), id_start_chunk_57());
    lemma_canonical_append(id_start_chunk_50() + id_start_chunk_51() + id_start_chunk_52() + id_start_chunk_53() + id_start_chunk_54() + id_start_chunk_55() + id_start_chunk_56() + id_start_chunk_57(), id_start_chunk_58());
    lemma_canonical_append(id_start_chunk_50() + id_start_chunk_51() + id_start_chunk_52() + id_start_chunk_53() + id_start_chunk_54() + id_start_chunk_55() + id_start_chunk_56() + id_start_chunk_57() + id_start_chunk_58(), id_start_chunk_59());
}

proof fn lemma_id_start_block_6()
    ensures
        canonical(id_start_block_6()),
        id_start_block_6().len() > 0,
        id_start_block_6()[0] == id_start_chunk_60()[0],
        id_start_block_6().last() == id_start_chunk_69().last(),
{
    reveal_with_fuel(canonical, 9);
    assert(canonical(id_start_chunk_60()));
    assert(canonical(id_start_chunk_61()));
    assert(canonical(id_start_chunk_62()));
    assert(canonical(id_start_chunk_63()));
    assert(canonical(id_start_chunk_64()));
    assert(canonical(id_start_chunk_65()));
    assert(canonical(id_start_chunk_66()));
    assert(canonical(id_start_chunk_67()));
    assert(canonical(id_start_chunk_68()));
    assert(canonical(id_start_chunk_69()));
    lemma_canonical_append(id_start_chunk_60(), id_start_chunk_61());
    lemma_canonical_append(id_start_chunk_60() + id_start_chunk_61(), id_start_chunk_62());
    lemma_canonical_append(id_start_chunk_60() + id_start_chunk_61() + id_start_chunk_62(), id_start_chunk_63());
    lemma_canonical_append(id_start_chunk_60() + id_start_chunk_61() + id_start_chunk_62() + id_start_chunk_63(), id_start_chunk_64());
    lemma_canonical_append(id_start_chunk_60() + id_start_chunk_61() + id_start_chunk_62() + id_start_chunk_63() + id_start_chunk_64(), id_start_chunk_65());
    lemma_canonical_append(id_start_chunk_60() + id_start_chunk_61() + id_start_chunk_62() + id_start_chunk_63() + id_start_chunk_64() + id_start_chunk_65(), id_start_chunk_66());
    lemma_canonical_append(id_start_chunk_60() + id_start_chunk_61() + id_start_chunk_62() + id_start_chunk_63() + id_start_chunk_64() + id_start_chunk_65() + id_start_chunk_66(), id_start_chunk_67());
    lemma_canonical_append(id_start_chunk_60() + id_start_chunk_61() + id_start_chunk_62() + id_start_chunk_63() + id_start_chunk_64() + id_start_chunk_65() + id_start_chunk_66() + id_start_chunk_67(), id_start_chunk_68());
    lemma_canonical_append(id_start_chunk_60() + id_start_chunk_61() + id_start_chunk_62() + id_start_chunk_63() + id_start_chunk_64() + id_start_chunk_65() + id_start_chunk_66() + id_start_chunk_67() + id_start_chunk_68(), id_start_chunk_69());
}

proof fn lemma_id_start_block_7()
    ensures
        canonical(id_start_block_7()),
        id_start_block_7().len() > 0,
        id_start_block_7()[0] == id_start_chunk_70()[0],
        id_start_block_7().last() == id_start_chunk_79().last(),
{
    reveal_with_fuel(canonical, 9);
    assert(canonical(id_start_chunk_70()));
    assert(canonical(id_start_chunk_71()));
    assert(canonical(id_start_chunk_72()));
    assert(canonical(id_start_chunk_73()));
    assert(canonical(id_start_chunk_74()));
    assert(canonical(id_start_chunk_75()));
    assert(canonical(id_start_chunk_76()));
    assert(canonical(id_start_chunk_77()));
    assert(canonical(id_start_chunk_78()));
    assert(canonical(id_start_chunk_79()));
    lemma_canonical_append(id_start_chunk_70(), id_start_chunk_71());
    lemma_canonical_append(id_start_chunk_70() + id_start_chunk_71(), id_start_chunk_72());
    lemma_canonical_append(id_start_chunk_70() + id_start_chunk_71() + id_start_chunk_72(), id_start_chunk_73());
    lemma_canonical_append(id_start_chunk_70() + id_start_chunk_71() + id_start_chunk_72() + id_start_chunk_73(), id_start_chunk_74());
    lemma_canonical_append(id_start_chunk_70() + id_start_chunk_71() + id_start_chunk_72() + id_start_chunk_73() + id_start_chunk_74(), id_start_chunk_75());
    lemma_canonical_append(id_start_chunk_70() + id_start_chunk_71() + id_start_chunk_72() + id_start_chunk_73() + id_start_chunk_74() + id_start_chunk_75(), id_start_chunk_76());
    lemma_canonical_append(id_start_chunk_70() + id_start_chunk_71() + id_start_chunk_72() + id_start_chunk_73() + id_start_chunk_74() + id_start_chunk_75() + id_start_chunk_76(), id_start_chunk_77());
    lemma_canonical_append(id_start_chunk_70() + id_start_chunk_71() + id_start_chunk_72() + id_start_chunk_73() + id_start_chunk_74() + id_start_chunk_75() + id_start_chunk_76() + id_start_chunk_77(), id_start_chunk_78());
    lemma_canonical_append(id_start_chunk_70() + id_start_chunk_71() + id_start_chunk_72() + id_start_chunk_73() + id_start_chunk_74() + id_start_chunk_75() + id_start_chunk_76() + id_start_chunk_77() + id_start_chunk_78(), id_start_chunk_79());
}

proof fn lemma_id_start_block_8()
    ensures
        canonical(id_start_block_8()),
        id_start_block_8().len() > 0,
        id_start_block_8()[0] == id_start_chunk_80()[0],
        id_start_block_8().last() == id_start_chunk_84().last(),
{
    reveal_with_fuel(canonical, 9);
    assert(canonical(id_start_chunk_80()));
    assert(canonical(id_start_chunk_81()));
    assert(canonical(id_start_chunk_82()));
    assert(canonical(id_start_chunk_83()));
    assert(canonical(id_start_chunk_84()));
    lemma_canonical_append(id_start_chunk_80(), id_start_chunk_81());
    lemma_canonical_append(id_start_chunk_80() + id_start_chunk_81(), id_start_chunk_82());
    lemma_canonical_append(id_start_chunk_80() + id_start_chunk_81() + id_start_chunk_82(), id_start_chunk_83());
    lemma_canonical_append(id_start_chunk_80() + id_start_chunk_81() + id_start_chunk_82() + id_start_chunk_83(), id_start_chunk_84());
}

#[verifier::rlimit(100)]
pub proof fn lemma_id_start_canonical()
    ensures
        canonical(id_start_ranges()),
{
    lemma_id_start_block_0();
    lemma_id_start_block_1();
    lemma_id_start_block_2();
    lemma_id_start_block_3();
    lemma_id_start_block_4();
    lemma_id_start_block_5();
    lemma_id_start_block_6();
    lemma_id_start_block_7();
    lemma_id_start_block_8();
    lemma_canonical_append(id_start_block_0(), id_start_block_1());
    lemma_canonical_append(id_start_block_0() + id_start_block_1(), id_start_block_2());
    lemma_canonical_append(id_start_block_0() + id_start_block_1() + id_start_block_2(), id_start_block_3());
    lemma_canonical_append(id_start_block_0() + id_start_block_1() + id_start_block_2() + id_start_block_3(), id_start_block_4());
    lemma_canonical_append(id_start_block_0() + id_start_block_1() + id_start_block_2() + id_start_block_3() + id_start_block_4(), id_start_block_5());
    lemma_canonical_append(id_start_block_0() + id_start_block_1() + id_start_block_2() + id_start_block_3() + id_start_block_4() + id_start_block_5(), id_start_block_6());
    lemma_canonical_append(id_start_block_0() + id_start_block_1() + id_start_block_2() + id_start_block_3() + id_start_block_4() + id_start_block_5() + id_start_block_6(), id_start_block_7());
    lemma_canonical_append(id_start_block_0() + id_start_block_1() + id_start_block_2() + id_start_block_3() + id_start_block_4() + id_start_block_5() + id_start_block_6() + id_start_block_7(), id_start_block_8());
}

fn push_id_start_chunk_0(v: &mut Vec<ClassUnicodeRange>)
    ensures
        rview(final(v)@) == rview(old(v)@) + id_start_chunk_0(),
{
    let ghost o = rview(v@);
    push_range(v, '\u{41}', '\u{5A}');
    push_range(v, '\u{61}', '\u{7A}');
    push_range(v, '\u{AA}', '\u{AA}');
    push_range(v, '\u{B5}', '\u{B5}');
    push_range(v, '\u{BA}', '\u{BA}');
    push_range(v, '\u{C0}', '\u{D6}');
    push_range(v, '\u{D8}', '\u{F6}');
    push_range(v, '\u{F8}', '\u{2C1}');
    assert(rview(v@) =~= o + id_start_chunk_0());
}

fn push_id_start_chunk_1(v: &mut Vec<ClassUnicodeRange>)
    ensures
        rview(final(v)@) == rview(old(v)@) + id_start_chunk_1(),
{
    let ghost o = rview(v@);
    push_range(v, '\u{2C6}', '\u{2D1}');
    push_range(v, '\u{2E0}', '\u{2E4}');
    push_range(v, '\u{2EC}', '\u{2EC}');
    push_range(v, '\u{2EE}', '\u{2EE}');
    push_range(v, '\u{370}', '\u{374}');
    push_range(v, '\u{376}', '\u{377}');
    push_range(v, '\u{37A}', '\u{37D}');
    push_range(v, '\u{37F}', '\u{37F}');
    assert(rview(v@) =~= o + id_start_chunk_1());
}

fn push_id_start_chunk_2(v: &mut Vec<ClassUnicodeRange>)
    ensures
        rview(final(v)@) == rview(old(v)@) + id_start_chunk_2(),
{
    let ghost o = rview(v@);
    push_range(v, '\u{386}', '\u{386}');
    push_range(v, '\u{388}', '\u{38A}');
    push_range(v, '\u{38C}', '\u{38C}');
    push_range(v, '\u{38E}', '\u{3A1}');
    push_range(v, '\u{3A3}', '\u{3F5}');
    push_range(v, '\u{3F7}', '\u{481}');
    push_range(v, '\u{48A}', '\u{52F}');
    push_range(v, '\u{531}', '\u{556}');
    assert(rview(v@) =~= o + id_start_chunk_2());
}

fn push_id_start_chunk_3(v: &mut Vec<ClassUnicodeRange>)
    ensures
        rview(final(v)@) == rview(old(v)@) + id_start_chunk_3(),
{
    let ghost o = rview(v@);
    push_range(v, '\u{559}', '\u{559}');
    push_range(v, '\u{560}', '\u{588}');
    push_range(v, '\u{5D0}', '\u{5EA}');
    push_range(v, '\u{5EF}', '\u{5F2}');
    push_range(v, '\u{620}', '\u{64A}');
    push_range(v, '\u{66E}', '\u{66F}');
    push_range(v, '\u{671}', '\u{6D3}');
    push_range(v, '\u{6D5}', '\u{6D5}');
    assert(rview(v@) =~= o + id_start_chunk_3());
}

fn push_id_start_chunk_4(v: &mut Vec<ClassUnicodeRange>)
    ensures
        rview(final(v)@) == rview(old(v)@) + id_start_chunk_4(),
{
    let ghost o = rview(v@);
    push_range(v, '\u{6E5}', '\u{6E6}');
    push_range(v, '\u{6EE}', '\u{6EF}');
    push_range(v, '\u{6FA}', '\u{6FC}');
    push_range(v, '\u{6FF}', '\u{6FF}');
    push_range(v, '\u{710}', '\u{710}');
    push_range(v, '\u{712}', '\u{72F}');
    push_range(v, '\u{74D}', '\u{7A5}');
    push_range(v, '\u{7B1}', '\u{7B1}');
    assert(rview(v@) =~= o + id_start_chunk_4());
}

fn push_id_start_chunk_5(v: &mut Vec<ClassUnicodeRange>)
    ensures
        rview(final(v)@) == rview(old(v)@) + id_start_chunk_5(),
{
    let ghost o = rview(v@);
    push_range(v, '\u{7CA}', '\u{7EA}');
    push_range(v, '\u{7F4}', '\u{7F5}');
    push_range(v, '\u{7FA}', '\u{7FA}');
    push_range(v, '\u{800}', '\u{815}');
    push_range(v, '\u{81A}', '\u{81A}');
    push_range(v, '\u{824}', '\u{824}');
    push_range(v, '\u{828}', '\u{828}');
    push_range(v, '\u{840}', '\u{858}');
    assert(rview(v@) =~= o + id_start_chunk_5());
}

fn push_id_start_chunk_6(v: &mut Vec<ClassUnicodeRange>)
    ensures
        rview(final(v)@) == rview(old(v)@) + id_start_chunk_6(),
{
    let ghost o = rview(v@);
    push_range(v, '\u{860}', '\u{86A}');
    push_range(v, '\u{870}', '\u{887}');
    push_range(v, '\u{889}', '\u{88E}');
    push_range(v, '\u{8A0}', '\u{8C9}');
    push_range(v, '\u{904}', '\u{939}');
    push_range(v, '\u{93D}', '\u{93D}');
    push_range(v, '\u{950}', '\u{950}');
    push_range(v, '\u{958}', '\u{961}');
    assert(rview(v@) =~= o + id_start_chunk_6());
}

fn push_id_start_chunk_7(v: &mut Vec<ClassUnicodeRange>)
    ensures
        rview(final(v)@) == rview(old(v)@) + id_start_chunk_7(),
{
    let ghost o = rview(v@);
    push_range(v, '\u{971}', '\u{980}');
    push_range(v, '\u{985}', '\u{98C}');
    push_range(v, '\u{98F}', '\u{990}');
    push_range(v, '\u{993}', '\u{9A8}');
    push_range(v, '\u{9AA}', '\u{9B0}');
    push_range(v, '\u{9B2}', '\u{9B2}');
    push_range(v, '\u{9B6}', '\u{9B9}');
    push_range(v, '\u{9BD}', '\u{9BD}');
    assert(rview(v@) =~= o + id_start_chunk_7());
}

fn push_id_start_chunk_8(v: &mut Vec<ClassUnicodeRange>)
    ensures
        rview(final(v)@) == rview(old(v)@) + id_start_chunk_8(),
{
    let ghost o = rview(v@);
    push_range(v, '\u{9CE}', '\u{9CE}');
    push_range(v, '\u{9DC}', '\u{9DD}');
    push_range(v, '\u{9DF}', '\u{9E1}');
    push_range(v, '\u{9F0}', '\u{9F1}');
    push_range(v, '\u{9FC}', '\u{9FC}');
    push_range(v, '\u{A05}', '\u{A0A}');
    push_range(v, '\u{A0F}', '\u{A10}');
    push_range(v, '\u{A13}', '\u{A28}');
    assert(rview(v@) =~= o + id_start_chunk_8());
}

fn push_id_start_chunk_9(v: &mut Vec<ClassUnicodeRange>)
    ensures
        rview(final(v)@) == rview(old(v)@) + id_start_chunk_9(),
{
    let ghost o = rview(v@);
    push_range(v, '\u{A2A}', '\u{A30}');
    push_range(v, '\u{A32}', '\u{A33}');
    push_range(v, '\u{A35}', '\u{A36}');
    push_range(v, '\u{A38}', '\u{A39}');
    push_range(v, '\u{A59}', '\u{A5C}');
    push_range(v, '\u{A5E}', '\u{A5E}');
    push_range(v, '\u{A72}', '\u{A74}');
    push_range(v, '\u{A85}', '\u{A8D}');
    assert(rview(v@) =~= o + id_start_chunk_9());
}

fn push_id_start_chunk_10(v: &mut Vec<ClassUnicodeRange>)
    ensures
        rview(final(v)@) == rview(old(v)@) + id_start_chunk_10(),
{
    let ghost o = rview(v@);
    push_range(v, '\u{A8F}', '\u{A91}');
    push_range(v, '\u{A93}', '\u{AA8}');
    push_range(v, '\u{AAA}', '\u{AB0}');
    push_range(v, '\u{AB2}', '\u{AB3}');
    push_range(v, '\u{AB5}', '\u{AB9}');
    push_range(v, '\u{ABD}', '\u{ABD}');
    push_range(v, '\u{AD0}', '\u{AD0}');
    push_range(v, '\u{AE0}', '\u{AE1}');
    assert(rview(v@) =~= o + id_start_chunk_10());
}

fn push_id_start_chunk_11(v: &mut Vec<ClassUnicodeRange>)
    ensures
        rview(final(v)@) == rview(old(v)@) + id_start_chunk_11(),
{
    let ghost o = rview(v@);
    push_range(v, '\u{AF9}', '\u{AF9}');
    push_range(v, '\u{B05}', '\u{B0C}');
    push_range(v, '\u{B0F}', '\u{B10}');
    push_range(v, '\u{B13}', '\u{B28}');
    push_range(v, '\u{B2A}', '\u{B30}');
    push_range(v, '\u{B32}', '\u{B33}');
    push_range(v, '\u{B35}', '\u{B39}');
    push_range(v, '\u{B3D}', '\u{B3D}');
    assert(rview(v@) =~= o + id_start_chunk_11());
}

fn push_id_start_chunk_12(v: &mut Vec<ClassUnicodeRange>)
    ensures
        rview(final(v)@) == rview(old(v)@) + id_start_chunk_12(),
{
    let ghost o = rview(v@);
    push_range(v, '\u{B5C}', '\u{B5D}');
    push_range(v, '\u{B5F}', '\u{B61}');
    push_range(v, '\u{B71}', '\u{B71}');
    push_range(v, '\u{B83}', '\u{B83}');
    push_range(v, '\u{B85}', '\u{B8A}');
    push_range(v, '\u{B8E}', '\u{B90}');
    push_range(v, '\u{B92}', '\u{B95}');
    push_range(v, '\u{B99}', '\u{B9A}');
    assert(rview(v@) =~= o + id_start_chunk_12());
}

fn push_id_start_chunk_13(v: &mut Vec<ClassUnicodeRange>)
    ensures
        rview(final(v)@) == rview(old(v)@) + id_start_chunk_13(),
{
    let ghost o = rview(v@);
    push_range(v, '\u{B9C}', '\u{B9C}');
    push_range(v, '\u{B9E}', '\u{B9F}');
    push_range(v, '\u{BA3}', '\u{BA4}');
    push_range(v, '\u{BA8}', '\u{BAA}');
    push_range(v, '\u{BAE}', '\u{BB9}');
    push_range(v, '\u{BD0}', '\u{BD0}');
    push_range(v, '\u{C05}', '\u{C0C}');
    push_range(v, '\u{C0E}', '\u{C10}');
    assert(rview(v@) =~= o + id_start_chunk_13());
}

fn push_id_start_chunk_14(v: &mut Vec<ClassUnicodeRange>)
    ensures
        rview(final(v)@) == rview(old(v)@) + id_start_chunk_14(),
{
    let ghost o = rview(v@);
    push_range(v, '\u{C12}', '\u{C28}');
    push_range(v, '\u{C2A}', '\u{C39}');
    push_range(v, '\u{C3D}', '\u{C3D}');
    push_range(v, '\u{C58}', '\u{C5A}');
    push_range(v, '\u{C5D}', '\u{C5D}');
    push_range(v, '\u{C60}', '\u{C61}');
    push_range(v, '\u{C80}', '\u{C80}');
    push_range(v, '\u{C85}', '\u{C8C}');
    assert(rview(v@) =~= o + id_start_chunk_14());
}

fn push_id_start_chunk_15(v: &mut Vec<ClassUnicodeRange>)
    ensures
        rview(final(v)@) == rview(old(v)@) + id_start_chunk_15(),
{
    let ghost o = rview(v@);
    push_range(v, '\u{C8E}', '\u{C90}');
    push_range(v, '\u{C92}', '\u{CA8}');
    push_range(v, '\u{CAA}', '\u{CB3}');
    push_range(v, '\u{CB5}', '\u{CB9}');
    push_range(v, '\u{CBD}', '\u{CBD}');
    push_range(v, '\u{CDD}', '\u{CDE}');
    push_range(v, '\u{CE0}', '\u{CE1}');
    push_range(v, '\u{CF1}', '\u{CF2}');
    assert(rview(v@) =~= o + id_start_chunk_15());
}

fn push_id_start_chunk_16(v: &mut Vec<ClassUnicodeRange>)
    ensures
        rview(final(v)@) == rview(old(v)@) + id_start_chunk_16(),
{
    let ghost o = rview(v@);
    push_range(v, '\u{D04}', '\u{D0C}');
    push_range(v, '\u{D0E}', '\u{D10}');
    push_range(v, '\u{D12}', '\u{D3A}');
    push_range(v, '\u{D3D}', '\u{D3D}');
    push_range(v, '\u{D4E}', '\u{D4E}');
    push_range(v, '\u{D54}', '\u{D56}');
    push_range(v, '\u{D5F}', '\u{D61}');
    push_range(v, '\u{D7A}', '\u{D7F}');
    assert(rview(v@) =~= o + id_start_chunk_16());
}

fn push_id_start_chunk_17(v: &mut Vec<ClassUnicodeRange>)
    ensures
        rview(final(v)@) == rview(old(v)@) + id_start_chunk_17(),
{
    let ghost o = rview(v@);
    push_range(v, '\u{D85}', '\u{D96}');
    push_range(v, '\u{D9A}', '\u{DB1}');
    push_range(v, '\u{DB3}', '\u{DBB}');
    push_range(v, '\u{DBD}', '\u{DBD}');
    push_range(v, '\u{DC0}', '\u{DC6}');
    push_range(v, '\u{E01}', '\u{E30}');
    push_range(v, '\u{E32}', '\u{E33}');
    push_range(v, '\u{E40}', '\u{E46}');
    assert(rview(v@) =~= o + id_start_chunk_17());
}

fn push_id_start_chunk_18(v: &mut Vec<ClassUnicodeRange>)
    ensures
        rview(final(v)@) == rview(old(v)@) + id_start_chunk_18(),
{
    let ghost o = rview(v@);
    push_range(v, '\u{E81}', '\u{E82}');
    push_range(v, '\u{E84}', '\u{E84}');
    push_range(v, '\u{E86}', '\u{E8A}');
    push_range(v, '\u{E8C}', '\u{EA3}');
    push_range(v, '\u{EA5}', '\u{EA5}');
    push_range(v, '\u{EA7}', '\u{EB0}');
    push_range(v, '\u{EB2}', '\u{EB3}');
    push_range(v, '\u{EBD}', '\u{EBD}');
    assert(rview(v@) =~= o + id_start_chunk_18());
}

fn push_id_start_chunk_19(v: &mut Vec<ClassUnicodeRange>)
    ensures
        rview(final(v)@) == rview(old(v)@) + id_start_chunk_19(),
{
    let ghost o = rview(v@);
    push_range(v, '\u{EC0}', '\u{EC4}');
    push_range(v, '\u{EC6}', '\u{EC6}');
    push_range(v, '\u{EDC}', '\u{EDF}');
    push_range(v, '\u{F00}', '\u{F00}');
    push_range(v, '\u{F40}', '\u{F47}');
    push_range(v, '\u{F49}', '\u{F6C}');
    push_range(v, '\u{F88}', '\u{F8C}');
    push_range(v, '\u{1000}', '\u{102A}');
    assert(rview(v@) =~= o + id_start_chunk_19());
}

fn push_id_start_chunk_20(v: &mut Vec<ClassUnicodeRange>)
    ensures
        rview(final(v)@) == rview(old(v)@) + id_start_chunk_20(),
{
    let ghost o = rview(v@);
    push_range(v, '\u{103F}', '\u{103F}');
    push_range(v, '\u{1050}', '\u{1055}');
    push_range(v, '\u{105A}', '\u{105D}');
    push_range(v, '\u{1061}', '\u{1061}');
    push_range(v, '\u{1065}', '\u{1066}');
    push_range(v, '\u{106E}', '\u{1070}');
    push_range(v, '\u{1075}', '\u{1081}');
    push_range(v, '\u{108E}', '\u{108E}');
    assert(rview(v@) =~= o + id_start_chunk_20());
}

fn push_id_start_chunk_21(v: &mut Vec<ClassUnicodeRange>)
    ensures
        rview(final(v)@) == rview(old(v)@) + id_start_chunk_21(),
{
    let ghost o = rview(v@);
    push_range(v, '\u{10A0}', '\u{10C5}');
    push_range(v, '\u{10C7}', '\u{10C7}');
    push_range(v, '\u{10CD}', '\u{10CD}');
    push_range(v, '\u{10D0}', '\u{10FA}');
    push_range(v, '\u{10FC}', '\u{1248}');
    push_range(v, '\u{124A}', '\u{124D}');
    push_range(v, '\u{1250}', '\u{1256}');
    push_range(v, '\u{1258}', '\u{1258}');
    assert(rview(v@) =~= o + id_start_chunk_21());
}

fn push_id_start_chunk_22(v: &mut Vec<ClassUnicodeRange>)
    ensures
        rview(final(v)@) == rview(old(v)@) + id_start_chunk_22(),
{
    let ghost o = rview(v@);
    push_range(v, '\u{125A}', '\u{125D}');
    push_range(v, '\u{1260}', '\u{1288}');
    push_range(v, '\u{128A}', '\u{128D}');
    push_range(v, '\u{1290}', '\u{12B0}');
    push_range(v, '\u{12B2}', '\u{12B5}');
    push_range(v, '\u{12B8}', '\u{12BE}');
    push_range(v, '\u{12C0}', '\u{12C0}');
    push_range(v, '\u{12C2}', '\u{12C5}');
    assert(rview(v@) =~= o + id_start_chunk_22());
}

fn push_id_start_chunk_23(v: &mut Vec<ClassUnicodeRange>)
    ensures
        rview(final(v)@) == rview(old(v)@) + id_start_chunk_23(),
{
    let ghost o = rview(v@);
    push_range(v, '\u{12C8}', '\u{12D6}');
    push_range(v, '\u{12D8}', '\u{1310}');
    push_range(v, '\u{1312}', '\u{1315}');
    push_range(v, '\u{1318}', '\u{135A}');
    push_range(v, '\u{1380}', '\u{138F}');
    push_range(v, '\u{13A0}', '\u{13F5}');
    push_range(v, '\u{13F8}', '\u{13FD}');
    push_range(v, '\u{1401}', '\u{166C}');
    assert(rview(v@) =~= o + id_start_chunk_23());
}

fn push_id_start_chunk_24(v: &mut Vec<ClassUnicodeRange>)
    ensures
        rview(final(v)@) == rview(old(v)@) + id_start_chunk_24(),
{
    let ghost o = rview(v@);
    push_range(v, '\u{166F}', '\u{167F}');
    push_range(v, '\u{1681}', '\u{169A}');
    push_range(v, '\u{16A0}', '\u{16EA}');
    push_range(v, '\u{16EE}', '\u{16F8}');
    push_range(v, '\u{1700}', '\u{1711}');
    push_range(v, '\u{171F}', '\u{1731}');
    push_range(v, '\u{1740}', '\u{1751}');
    push_range(v, '\u{1760}', '\u{176C}');
    assert(rview(v@) =~= o + id_start_chunk_24());
}

fn push_id_start_chunk_25(v: &mut Vec<ClassUnicodeRange>)
    ensures
        rview(final(v)@) == rview(old(v)@) + id_start_chunk_25(),
{
    let ghost o = rview(v@);
    push_range(v, '\u{176E}', '\u{1770}');
    push_range(v, '\u{1780}', '\u{17B3}');
    push_range(v, '\u{17D7}', '\u{17D7}');
    push_range(v, '\u{17DC}', '\u{17DC}');
    push_range(v, '\u{1820}', '\u{1878}');
    push_range(v, '\u{1880}', '\u{18A8}');
    push_range(v, '\u{18AA}', '\u{18AA}');
    push_range(v, '\u{18B0}', '\u{18F5}');
    assert(rview(v@) =~= o + id_start_chunk_25());
}

fn push_id_start_chunk_26(v: &mut Vec<ClassUnicodeRange>)
    ensures
        rview(final(v)@) == rview(old(v)@) + id_start_chunk_26(),
{
    let ghost o = rview(v@);
    push_range(v, '\u{1900}', '\u{191E}');
    push_range(v, '\u{1950}', '\u{196D}');
    push_range(v, '\u{1970}', '\u{1974}');
    push_range(v, '\u{1980}', '\u{19AB}');
    push_range(v, '\u{19B0}', '\u{19C9}');
    push_range(v, '\u{1A00}', '\u{1A16}');
    push_range(v, '\u{1A20}', '\u{1A54}');
    push_range(v, '\u{1AA7}', '\u{1AA7}');
    assert(rview(v@) =~= o + id_start_chunk_26());
}

fn push_id_start_chunk_27(v: &mut Vec<ClassUnicodeRange>)
    ensures
        rview(final(v)@) == rview(old(v)@) + id_start_chunk_27(),
{
    let ghost o = rview(v@);
    push_range(v, '\u{1B05}', '\u{1B33}');
    push_range(v, '\u{1B45}', '\u{1B4C}');
    push_range(v, '\u{1B83}', '\u{1BA0}');
    push_range(v, '\u{1BAE}', '\u{1BAF}');
    push_range(v, '\u{1BBA}', '\u{1BE5}');
    push_range(v, '\u{1C00}', '\u{1C23}');
    push_range(v, '\u{1C4D}', '\u{1C4F}');
    push_range(v, '\u{1C5A}', '\u{1C7D}');
    assert(rview(v@) =~= o + id_start_chunk_27());
}

fn push_id_start_chunk_28(v: &mut Vec<ClassUnicodeRange>)
    ensures
        rview(final(v)@) == rview(old(v)@) + id_start_chunk_28(),
{
    let ghost o = rview(v@);
    push_range(v, '\u{1C80}', '\u{1C8A}');
    push_range(v, '\u{1C90}', '\u{1CBA}');
    push_range(v, '\u{1CBD}', '\u{1CBF}');
    push_range(v, '\u{1CE9}', '\u{1CEC}');
    push_range(v, '\u{1CEE}', '\u{1CF3}');
    push_range(v, '\u{1CF5}', '\u{1CF6}');
    push_range(v, '\u{1CFA}', '\u{1CFA}');
    push_range(v, '\u{1D00}', '\u{1DBF}');
    assert(rview(v@) =~= o + id_start_chunk_28());
}

fn push_id_start_chunk_29(v: &mut Vec<ClassUnicodeRange>)
    ensures
        rview(final(v)@) == rview(old(v)@) + id_start_chunk_29(),
{
    let ghost o = rview(v@);
    push_range(v, '\u{1E00}', '\u{1F15}');
    push_range(v, '\u{1F18}', '\u{1F1D}');
    push_range(v, '\u{1F20}', '\u{1F45}');
    push_range(v, '\u{1F48}', '\u{1F4D}');
    push_range(v, '\u{1F50}', '\u{1F57}');
    push_range(v, '\u{1F59}', '\u{1F59}');
    push_range(v, '\u{1F5B}', '\u{1F5B}');
    push_range(v, '\u{1F5D}', '\u{1F5D}');
    assert(rview(v@) =~= o + id_start_chunk_29());
}

fn push_id_start_chunk_30(v: &mut Vec<ClassUnicodeRange>)
    ensures
        rview(final(v)@) == rview(old(v)@) + id_start_chunk_30(),
{
    let ghost o = rview(v@);
    push_range(v, '\u{1F5F}', '\u{1F7D}');
    push_range(v, '\u{1F80}', '\u{1FB4}');
    push_range(v, '\u{1FB6}', '\u{1FBC}');
    push_range(v, '\u{1FBE}', '\u{1FBE}');
    push_range(v, '\u{1FC2}', '\u{1FC4}');
    push_range(v, '\u{1FC6}', '\u{1FCC}');
    push_range(v, '\u{1FD0}', '\u{1FD3}');
    push_range(v, '\u{1FD6}', '\u{1FDB}');
    assert(rview(v@) =~= o + id_start_chunk_30());
}

fn push_id_start_chunk_31(v: &mut Vec<ClassUnicodeRange>)
    ensures
        rview(final(v)@) == rview(old(v)@) + id_start_chunk_31(),
{
    let ghost o = rview(v@);
    push_range(v, '\u{1FE0}', '\u{1FEC}');
    push_range(v, '\u{1FF2}', '\u{1FF4}');
    push_range(v, '\u{1FF6}', '\u{1FFC}');
    push_range(v, '\u{2071}', '\u{2071}');
    push_range(v, '\u{207F}', '\u{207F}');
    push_range(v, '\u{2090}', '\u{209C}');
    push_range(v, '\u{2102}', '\u{2102}');
    push_range(v, '\u{2107}', '\u{2107}');
    assert(rview(v@) =~= o + id_start_chunk_31());
}

fn push_id_start_chunk_32(v: &mut Vec<ClassUnicodeRange>)
    ensures
        rview(final(v)@) == rview(old(v)@) + id_start_chunk_32(),
{
    let ghost o = rview(v@);
    push_range(v, '\u{210A}', '\u{2113}');
    push_range(v, '\u{2115}', '\u{2115}');
    push_range(v, '\u{2118}', '\u{211D}');
    push_range(v, '\u{2124}', '\u{2124}');
    push_range(v, '\u{2126}', '\u{2126}');
    push_range(v, '\u{2128}', '\u{2128}');
    push_range(v, '\u{212A}', '\u{2139}');
    push_range(v, '\u{213C}', '\u{213F}');
    assert(rview(v@) =~= o + id_start_chunk_32());
}

fn push_id_start_chunk_33(v: &mut Vec<ClassUnicodeRange>)
    ensures
        rview(final(v)@) == rview(old(v)@) + id_start_chunk_33(),
{
    let ghost o = rview(v@);
    push_range(v, '\u{2145}', '\u{2149}');
    push_range(v, '\u{214E}', '\u{214E}');
    push_range(v, '\u{2160}', '\u{2188}');
    push_range(v, '\u{2C00}', '\u{2CE4}');
    push_range(v, '\u{2CEB}', '\u{2CEE}');
    push_range(v, '\u{2CF2}', '\u{2CF3}');
    push_range(v, '\u{2D00}', '\u{2D25}');
    push_range(v, '\u{2D27}', '\u{2D27}');
    assert(rview(v@) =~= o + id_start_chunk_33());
}

fn push_id_start_chunk_34(v: &mut Vec<ClassUnicodeRange>)
    ensures
        rview(final(v)@) == rview(old(v)@) + id_start_chunk_34(),
{
    let ghost o = rview(v@);
    push_range(v, '\u{2D2D}', '\u{2D2D}');
    push_range(v, '\u{2D30}', '\u{2D67}');
    push_range(v, '\u{2D6F}', '\u{2D6F}');
    push_range(v, '\u{2D80}', '\u{2D96}');
    push_range(v, '\u{2DA0}', '\u{2DA6}');
    push_range(v, '\u{2DA8}', '\u{2DAE}');
    push_range(v, '\u{2DB0}', '\u{2DB6}');
    push_range(v, '\u{2DB8}', '\u{2DBE}');
    assert(rview(v@) =~= o + id_start_chunk_34());
}

fn push_id_start_chunk_35(v: &mut Vec<ClassUnicodeRange>)
    ensures
        rview(final(v)@) == rview(old(v)@) + id_start_chunk_35(),
{
    let ghost o = rview(v@);
    push_range(v, '\u{2DC0}', '\u{2DC6}');
    push_range(v, '\u{2DC8}', '\u{2DCE}');
    push_range(v, '\u{2DD0}', '\u{2DD6}');
    push_range(v, '\u{2DD8}', '\u{2DDE}');
    push_range(v, '\u{3005}', '\u{3007}');
    push_range(v, '\u{3021}', '\u{3029}');
    push_range(v, '\u{3031}', '\u{3035}');
    push_range(v, '\u{3038}', '\u{303C}');
    assert(rview(v@) =~= o + id_start_chunk_35());
}

fn push_id_start_chunk_36(v: &mut Vec<ClassUnicodeRange>)
    ensures
        rview(final(v)@) == rview(old(v)@) + id_start_chunk_36(),
{
    let ghost o = rview(v@);
    push_range(v, '\u{3041}', '\u{3096}');
    push_range(v, '\u{309B}', '\u{309F}');
    push_range(v, '\u{30A1}', '\u{30FA}');
    push_range(v, '\u{30FC}', '\u{30FF}');
    push_range(v, '\u{3105}', '\u{312F}');
    push_range(v, '\u{3131}', '\u{318E}');
    push_range(v, '\u{31A0}', '\u{31BF}');
    push_range(v, '\u{31F0}', '\u{31FF}');
    assert(rview(v@) =~= o + id_start_chunk_36());
}

fn push_id_start_chunk_37(v: &mut Vec<ClassUnicodeRange>)
    ensures
        rview(final(v)@) == rview(old(v)@) + id_start_chunk_37(),
{
    let ghost o = rview(v@);
    push_range(v, '\u{3400}', '\u{4DBF}');
    push_range(v, '\u{4E00}', '\u{A48C}');
    push_range(v, '\u{A4D0}', '\u{A4FD}');
    push_range(v, '\u{A500}', '\u{A60C}');
    push_range(v, '\u{A610}', '\u{A61F}');
    push_range(v, '\u{A62A}', '\u{A62B}');
    push_range(v, '\u{A640}', '\u{A66E}');
    push_range(v, '\u{A67F}', '\u{A69D}');
    assert(rview(v@) =~= o + id_start_chunk_37());
}

fn push_id_start_chunk_38(v: &mut Vec<ClassUnicodeRange>)
    ensures
        rview(final(v)@) == rview(old(v)@) + id_start_chunk_38(),
{
    let ghost o = rview(v@);
    push_range(v, '\u{A6A0}', '\u{A6EF}');
    push_range(v, '\u{A717}', '\u{A71F}');
    push_range(v, '\u{A722}', '\u{A788}');
    push_range(v, '\u{A78B}', '\u{A7CD}');
    push_range(v, '\u{A7D0}', '\u{A7D1}');
    push_range(v, '\u{A7D3}', '\u{A7D3}');
    push_range(v, '\u{A7D5}', '\u{A7DC}');
    push_range(v, '\u{A7F2}', '\u{A801}');
    assert(rview(v@) =~= o + id_start_chunk_38());
}

fn push_id_start_chunk_39(v: &mut Vec<ClassUnicodeRange>)
    ensures
        rview(final(v)@) == rview(old(v)@) + id_start_chunk_39(),
{
    let ghost o = rview(v@);
    push_range(v, '\u{A803}', '\u{A805}');
    push_range(v, '\u{A807}', '\u{A80A}');
    push_range(v, '\u{A80C}', '\u{A822}');
    push_range(v, '\u{A840}', '\u{A873}');
    push_range(v, '\u{A882}', '\u{A8B3}');
    push_range(v, '\u{A8F2}', '\u{A8F7}');
    push_range(v, '\u{A8FB}', '\u{A8FB}');
    push_range(v, '\u{A8FD}', '\u{A8FE}');
    assert(rview(v@) =~= o + id_start_chunk_39());
}

fn push_id_start_chunk_40(v: &mut Vec<ClassUnicodeRange>)
    ensures
        rview(final(v)@) == rview(old(v)@) + id_start_chunk_40(),
{
    let ghost o = rview(v@);
    push_range(v, '\u{A90A}', '\u{A925}');
    push_range(v, '\u{A930}', '\u{A946}');
    push_range(v, '\u{A960}', '\u{A97C}');
    push_range(v, '\u{A984}', '\u{A9B2}');
    push_range(v, '\u{A9CF}', '\u{A9CF}');
    push_range(v, '\u{A9E0}', '\u{A9E4}');
    push_range(v, '\u{A9E6}', '\u{A9EF}');
    push_range(v, '\u{A9FA}', '\u{A9FE}');
    assert(rview(v@) =~= o + id_start_chunk_40());
}

fn push_id_start_chunk_41(v: &mut Vec<ClassUnicodeRange>)
    ensures
        rview(final(v)@) == rview(old(v)@) + id_start_chunk_41(),
{
    let ghost o = rview(v@);
    push_range(v, '\u{AA00}', '\u{AA28}');
    push_range(v, '\u{AA40}', '\u{AA42}');
    push_range(v, '\u{AA44}', '\u{AA4B}');
    push_range(v, '\u{AA60}', '\u{AA76}');
    push_range(v, '\u{AA7A}', '\u{AA7A}');
    push_range(v, '\u{AA7E}', '\u{AAAF}');
    push_range(v, '\u{AAB1}', '\u{AAB1}');
    push_range(v, '\u{AAB5}', '\u{AAB6}');
    assert(rview(v@) =~= o + id_start_chunk_41());
}

fn push_id_start_chunk_42(v: &mut Vec<ClassUnicodeRange>)
    ensures
        rview(final(v)@) == rview(old(v)@) + id_start_chunk_42(),
{
    let ghost o = rview(v@);
    push_range(v, '\u{AAB9}', '\u{AABD}');
    push_range(v, '\u{AAC0}', '\u{AAC0}');
    push_range(v, '\u{AAC2}', '\u{AAC2}');
    push_range(v, '\u{AADB}', '\u{AADD}');
    push_range(v, '\u{AAE0}', '\u{AAEA}');
    push_range(v, '\u{AAF2}', '\u{AAF4}');
    push_range(v, '\u{AB01}', '\u{AB06}');
    push_range(v, '\u{AB09}', '\u{AB0E}');
    assert(rview(v@) =~= o + id_start_chunk_42());
}

fn push_id_start_chunk_43(v: &mut Vec<ClassUnicodeRange>)
    ensures
        rview(final(v)@) == rview(old(v)@) + id_start_chunk_43(),
{
    let ghost o = rview(v@);
    push_range(v, '\u{AB11}', '\u{AB16}');
    push_range(v, '\u{AB20}', '\u{AB26}');
    push_range(v, '\u{AB28}', '\u{AB2E}');
    push_range(v, '\u{AB30}', '\u{AB5A}');
    push_range(v, '\u{AB5C}', '\u{AB69}');
    push_range(v, '\u{AB70}', '\u{ABE2}');
    push_range(v, '\u{AC00}', '\u{D7A3}');
    push_range(v, '\u{D7B0}', '\u{D7C6}');
    assert(rview(v@) =~= o + id_start_chunk_43());
}

fn push_id_start_chunk_44(v: &mut Vec<ClassUnicodeRange>)
    ensures
        rview(final(v)@) == rview(old(v)@) + id_start_chunk_44(),
{
    let ghost o = rview(v@);
    push_range(v, '\u{D7CB}', '\u{D7FB}');
    push_range(v, '\u{F900}', '\u{FA6D}');
    push_range(v, '\u{FA70}', '\u{FAD9}');
    push_range(v, '\u{FB00}', '\u{FB06}');
    push_range(v, '\u{FB13}', '\u{FB17}');
    push_range(v, '\u{FB1D}', '\u{FB1D}');
    push_range(v, '\u{FB1F}', '\u{FB28}');
    push_range(v, '\u{FB2A}', '\u{FB36}');
    assert(rview(v@) =~= o + id_start_chunk_44());
}

fn push_id_start_chunk_45(v: &mut Vec<ClassUnicodeRange>)
    ensures
        rview(final(v)@) == rview(old(v)@) + id_start_chunk_45(),
{
    let ghost o = rview(v@);
    push_range(v, '\u{FB38}', '\u{FB3C}');
    push_range(v, '\u{FB3E}', '\u{FB3E}');
    push_range(v, '\u{FB40}', '\u{FB41}');
    push_range(v, '\u{FB43}', '\u{FB44}');
    push_range(v, '\u{FB46}', '\u{FBB1}');
    push_range(v, '\u{FBD3}', '\u{FD3D}');
    push_range(v, '\u{FD50}', '\u{FD8F}');
    push_range(v, '\u{FD92}', '\u{FDC7}');
    assert(rview(v@) =~= o + id_start_chunk_45());
}

fn push_id_start_chunk_46(v: &mut Vec<ClassUnicodeRange>)
    ensures
        rview(final(v)@) == rview(old(v)@) + id_start_chunk_46(),
{
    let ghost o = rview(v@);
    push_range(v, '\u{FDF0}', '\u{FDFB}');
    push_range(v, '\u{FE70}', '\u{FE74}');
    push_range(v, '\u{FE76}', '\u{FEFC}');
    push_range(v, '\u{FF21}', '\u{FF3A}');
    push_range(v, '\u{FF41}', '\u{FF5A}');
    push_range(v, '\u{FF66}', '\u{FFBE}');
    push_range(v, '\u{FFC2}', '\u{FFC7}');
    push_range(v, '\u{FFCA}', '\u{FFCF}');
    assert(rview(v@) =~= o + id_start_chunk_46());
}

fn push_id_start_chunk_47(v: &mut Vec<ClassUnicodeRange>)
    ensures
        rview(final(v)@) == rview(old(v)@) + id_start_chunk_47(),
{
    let ghost o = rview(v@);
    push_range(v, '\u{FFD2}', '\u{FFD7}');
    push_range(v, '\u{FFDA}', '\u{FFDC}');
    push_range(v, '\u{10000}', '\u{1000B}');
    push_range(v, '\u{1000D}', '\u{10026}');
    push_range(v, '\u{10028}', '\u{1003A}');
    push_range(v, '\u{1003C}', '\u{1003D}');
    push_range(v, '\u{1003F}', '\u{1004D}');
    push_range(v, '\u{10050}', '\u{1005D}');
    assert(rview(v@) =~= o + id_start_chunk_47());
}

fn push_id_start_chunk_48(v: &mut Vec<ClassUnicodeRange>)
    ensures
        rview(final(v)@) == rview(old(v)@) + id_start_chunk_48(),
{
    let ghost o = rview(v@);
    push_range(v, '\u{10080}', '\u{100FA}');
    push_range(v, '\u{10140}', '\u{10174}');
    push_range(v, '\u{10280}', '\u{1029C}');
    push_range(v, '\u{102A0}', '\u{102D0}');
    push_range(v, '\u{10300}', '\u{1031F}');
    push_range(v, '\u{1032D}', '\u{1034A}');
    push_range(v, '\u{10350}', '\u{10375}');
    push_range(v, '\u{10380}', '\u{1039D}');
    assert(rview(v@) =~= o + id_start_chunk_48());
}

fn push_id_start_chunk_49(v: &mut Vec<ClassUnicodeRange>)
    ensures
        rview(final(v)@) == rview(old(v)@) + id_start_chunk_49(),
{
    let ghost o = rview(v@);
    push_range(v, '\u{103A0}', '\u{103C3}');
    push_range(v, '\u{103C8}', '\u{103CF}');
    push_range(v, '\u{103D1}', '\u{103D5}');
    push_range(v, '\u{10400}', '\u{1049D}');
    push_range(v, '\u{104B0}', '\u{104D3}');
    push_range(v, '\u{104D8}', '\u{104FB}');
    push_range(v, '\u{10500}', '\u{10527}');
    push_range(v, '\u{10530}', '\u{10563}');
    assert(rview(v@) =~= o + id_start_chunk_49());
}

fn push_id_start_chunk_50(v: &mut Vec<ClassUnicodeRange>)
    ensures
        rview(final(v)@) == rview(old(v)@) + id_start_chunk_50(),
{
    let ghost o = rview(v@);
    push_range(v, '\u{10570}', '\u{1057A}');
    push_range(v, '\u{1057C}', '\u{1058A}');
    push_range(v, '\u{1058C}', '\u{10592}');
    push_range(v, '\u{10594}', '\u{10595}');
    push_range(v, '\u{10597}', '\u{105A1}');
    push_range(v, '\u{105A3}', '\u{105B1}');
    push_range(v, '\u{105B3}', '\u{105B9}');
    push_range(v, '\u{105BB}', '\u{105BC}');
    assert(rview(v@) =~= o + id_start_chunk_50());
}

fn push_id_start_chunk_51(v: &mut Vec<ClassUnicodeRange>)
    ensures
        rview(final(v)@) == rview(old(v)@) + id_start_chunk_51(),
{
    let ghost o = rview(v@);
    push_range(v, '\u{105C0}', '\u{105F3}');
    push_range(v, '\u{10600}', '\u{10736}');
    push_range(v, '\u{10740}', '\u{10755}');
    push_range(v, '\u{10760}', '\u{10767}');
    push_range(v, '\u{10780}', '\u{10785}');
    push_range(v, '\u{10787}', '\u{107B0}');
    push_range(v, '\u{107B2}', '\u{107BA}');
    push_range(v, '\u{10800}', '\u{10805}');
    assert(rview(v@) =~= o + id_start_chunk_51());
}

fn push_id_start_chunk_52(v: &mut Vec<ClassUnicodeRange>)
    ensures
        rview(final(v)@) == rview(old(v)@) + id_start_chunk_52(),
{
    let ghost o = rview(v@);
    push_range(v, '\u{10808}', '\u{10808}');
    push_range(v, '\u{1080A}', '\u{10835}');
    push_range(v, '\u{10837}', '\u{10838}');
    push_range(v, '\u{1083C}', '\u{1083C}');
    push_range(v, '\u{1083F}', '\u{10855}');
    push_range(v, '\u{10860}', '\u{10876}');
    push_range(v, '\u{10880}', '\u{1089E}');
    push_range(v, '\u{108E0}', '\u{108F2}');
    assert(rview(v@) =~= o + id_start_chunk_52());
}

fn push_id_start_chunk_53(v: &mut Vec<ClassUnicodeRange>)
    ensures
        rview(final(v)@) == rview(old(v)@) + id_start_chunk_53(),
{
    let ghost o = rview(v@);
    push_range(v, '\u{108F4}', '\u{108F5}');
    push_range(v, '\u{10900}', '\u{10915}');
    push_range(v, '\u{10920}', '\u{10939}');
    push_range(v, '\u{10980}', '\u{109B7}');
    push_range(v, '\u{109BE}', '\u{109BF}');
    push_range(v, '\u{10A00}', '\u{10A00}');
    push_range(v, '\u{10A10}', '\u{10A13}');
    push_range(v, '\u{10A15}', '\u{10A17}');
    assert(rview(v@) =~= o + id_start_chunk_53());
}

fn push_id_start_chunk_54(v: &mut Vec<ClassUnicodeRange>)
    ensures
        rview(final(v)@) == rview(old(v)@) + id_start_chunk_54(),
{
    let ghost o = rview(v@);
    push_range(v, '\u{10A19}', '\u{10A35}');
    push_range(v, '\u{10A60}', '\u{10A7C}');
    push_range(v, '\u{10A80}', '\u{10A9C}');
    push_range(v, '\u{10AC0}', '\u{10AC7}');
    push_range(v, '\u{10AC9}', '\u{10AE4}');
    push_range(v, '\u{10B00}', '\u{10B35}');
    push_range(v, '\u{10B40}', '\u{10B55}');
    push_range(v, '\u{10B60}', '\u{10B72}');
    assert(rview(v@) =~= o + id_start_chunk_54());
}

fn push_id_start_chunk_55(v: &mut Vec<ClassUnicodeRange>)
    ensures
        rview(final(v)@) == rview(old(v)@) + id_start_chunk_55(),
{
    let ghost o = rview(v@);
    push_range(v, '\u{10B80}', '\u{10B91}');
    push_range(v, '\u{10C00}', '\u{10C48}');
    push_range(v, '\u{10C80}', '\u{10CB2}');
    push_range(v, '\u{10CC0}', '\u{10CF2}');
    push_range(v, '\u{10D00}', '\u{10D23}');
    push_range(v, '\u{10D4A}', '\u{10D65}');
    push_range(v, '\u{10D6F}', '\u{10D85}');
    push_range(v, '\u{10E80}', '\u{10EA9}');
    assert(rview(v@) =~= o + id_start_chunk_55());
}

fn push_id_start_chunk_56(v: &mut Vec<ClassUnicodeRange>)
    ensures
        rview(final(v)@) == rview(old(v)@) + id_start_chunk_56(),
{
    let ghost o = rview(v@);
    push_range(v, '\u{10EB0}', '\u{10EB1}');
    push_range(v, '\u{10EC2}', '\u{10EC4}');
    push_range(v, '\u{10F00}', '\u{10F1C}');
    push_range(v, '\u{10F27}', '\u{10F27}');
    push_range(v, '\u{10F30}', '\u{10F45}');
    push_range(v, '\u{10F70}', '\u{10F81}');
    push_range(v, '\u{10FB0}', '\u{10FC4}');
    push_range(v, '\u{10FE0}', '\u{10FF6}');
    assert(rview(v@) =~= o + id_start_chunk_56());
}

fn push_id_start_chunk_57(v: &mut Vec<ClassUnicodeRange>)
    ensures
        rview(final(v)@) == rview(old(v)@) + id_start_chunk_57(),
{
    let ghost o = rview(v@);
    push_range(v, '\u{11003}', '\u{11037}');
    push_range(v, '\u{11071}', '\u{11072}');
    push_range(v, '\u{11075}', '\u{11075}');
    push_range(v, '\u{11083}', '\u{110AF}');
    push_range(v, '\u{110D0}', '\u{110E8}');
    push_range(v, '\u{11103}', '\u{11126}');
    push_range(v, '\u{11144}', '\u{11144}');
    push_range(v, '\u{11147}', '\u{11147}');
    assert(rview(v@) =~= o + id_start_chunk_57());
}

fn push_id_start_chunk_58(v: &mut Vec<ClassUnicodeRange>)
    ensures
        rview(final(v)@) == rview(old(v)@) + id_start_chunk_58(),
{
    let ghost o = rview(v@);
    push_range(v, '\u{11150}', '\u{11172}');
    push_range(v, '\u{11176}', '\u{11176}');
    push_range(v, '\u{11183}', '\u{111B2}');
    push_range(v, '\u{111C1}', '\u{111C4}');
    push_range(v, '\u{111DA}', '\u{111DA}');
    push_range(v, '\u{111DC}', '\u{111DC}');
    push_range(v, '\u{11200}', '\u{11211}');
    push_range(v, '\u{11213}', '\u{1122B}');
    assert(rview(v@) =~= o + id_start_chunk_58());
}

fn push_id_start_chunk_59(v: &mut Vec<ClassUnicodeRange>)
    ensures
        rview(final(v)@) == rview(old(v)@) + id_start_chunk_59(),
{
    let ghost o = rview(v@);
    push_range(v, '\u{1123F}', '\u{11240}');
    push_range(v, '\u{11280}', '\u{11286}');
    push_range(v, '\u{11288}', '\u{11288}');
    push_range(v, '\u{1128A}', '\u{1128D}');
    push_range(v, '\u{1128F}', '\u{1129D}');
    push_range(v, '\u{1129F}', '\u{112A8}');
    push_range(v, '\u{112B0}', '\u{112DE}');
    push_range(v, '\u{11305}', '\u{1130C}');
    assert(rview(v@) =~= o + id_start_chunk_59());
}

fn push_id_start_chunk_60(v: &mut Vec<ClassUnicodeRange>)
    ensures
        rview(final(v)@) == rview(old(v)@) + id_start_chunk_60(),
{
    let ghost o = rview(v@);
    push_range(v, '\u{1130F}', '\u{11310}');
    push_range(v, '\u{11313}', '\u{11328}');
    push_range(v, '\u{1132A}', '\u{11330}');
    push_range(v, '\u{11332}', '\u{11333}');
    push_range(v, '\u{11335}', '\u{11339}');
    push_range(v, '\u{1133D}', '\u{1133D}');
    push_range(v, '\u{11350}', '\u{11350}');
    push_range(v, '\u{1135D}', '\u{11361}');
    assert(rview(v@) =~= o + id_start_chunk_60());
}

fn push_id_start_chunk_61(v: &mut Vec<ClassUnicodeRange>)
    ensures
        rview(final(v)@) == rview(old(v)@) + id_start_chunk_61(),
{
    let ghost o = rview(v@);
    push_range(v, '\u{11380}', '\u{11389}');
    push_range(v, '\u{1138B}', '\u{1138B}');
    push_range(v, '\u{1138E}', '\u{1138E}');
    push_range(v, '\u{11390}', '\u{113B5}');
    push_range(v, '\u{113B7}', '\u{113B7}');
    push_range(v, '\u{113D1}', '\u{113D1}');
    push_range(v, '\u{113D3}', '\u{113D3}');
    push_range(v, '\u{11400}', '\u{11434}');
    assert(rview(v@) =~= o + id_start_chunk_61());
}

fn push_id_start_chunk_62(v: &mut Vec<ClassUnicodeRange>)
    ensures
        rview(final(v)@) == rview(old(v)@) + id_start_chunk_62(),
{
    let ghost o = rview(v@);
    push_range(v, '\u{11447}', '\u{1144A}');
    push_range(v, '\u{1145F}', '\u{11461}');
    push_range(v, '\u{11480}', '\u{114AF}');
    push_range(v, '\u{114C4}', '\u{114C5}');
    push_range(v, '\u{114C7}', '\u{114C7}');
    push_range(v, '\u{11580}', '\u{115AE}');
    push_range(v, '\u{115D8}', '\u{115DB}');
    push_range(v, '\u{11600}', '\u{1162F}');
    assert(rview(v@) =~= o + id_start_chunk_62());
}

fn push_id_start_chunk_63(v: &mut Vec<ClassUnicodeRange>)
    ensures
        rview(final(v)@) == rview(old(v)@) + id_start_chunk_63(),
{
    let ghost o = rview(v@);
    push_range(v, '\u{11644}', '\u{11644}');
    push_range(v, '\u{11680}', '\u{116AA}');
    push_range(v, '\u{116B8}', '\u{116B8}');
    push_range(v, '\u{11700}', '\u{1171A}');
    push_range(v, '\u{11740}', '\u{11746}');
    push_range(v, '\u{11800}', '\u{1182B}');
    push_range(v, '\u{118A0}', '\u{118DF}');
    push_range(v, '\u{118FF}', '\u{11906}');
    assert(rview(v@) =~= o + id_start_chunk_63());
}

fn push_id_start_chunk_64(v: &mut Vec<ClassUnicodeRange>)
    ensures
        rview(final(v)@) == rview(old(v)@) + id_start_chunk_64(),
{
    let ghost o = rview(v@);
    push_range(v, '\u{11909}', '\u{11909}');
    push_range(v, '\u{1190C}', '\u{11913}');
    push_range(v, '\u{11915}', '\u{11916}');
    push_range(v, '\u{11918}', '\u{1192F}');
    push_range(v, '\u{1193F}', '\u{1193F}');
    push_range(v, '\u{11941}', '\u{11941}');
    push_range(v, '\u{119A0}', '\u{119A7}');
    push_range(v, '\u{119AA}', '\u{119D0}');
    assert(rview(v@) =~= o + id_start_chunk_64());
}

fn push_id_start_chunk_65(v: &mut Vec<ClassUnicodeRange>)
    ensures
        rview(final(v)@) == rview(old(v)@) + id_start_chunk_65(),
{
    let ghost o = rview(v@);
    push_range(v, '\u{119E1}', '\u{119E1}');
    push_range(v, '\u{119E3}', '\u{119E3}');
    push_range(v, '\u{11A00}', '\u{11A00}');
    push_range(v, '\u{11A0B}', '\u{11A32}');
    push_range(v, '\u{11A3A}', '\u{11A3A}');
    push_range(v, '\u{11A50}', '\u{11A50}');
    push_range(v, '\u{11A5C}', '\u{11A89}');
    push_range(v, '\u{11A9D}', '\u{11A9D}');
    assert(rview(v@) =~= o + id_start_chunk_65());
}

fn push_id_start_chunk_66(v: &mut Vec<ClassUnicodeRange>)
    ensures
        rview(final(v)@) == rview(old(v)@) + id_start_chunk_66(),
{
    let ghost o = rview(v@);
    push_range(v, '\u{11AB0}', '\u{11AF8}');
    push_range(v, '\u{11BC0}', '\u{11BE0}');
    push_range(v, '\u{11C00}', '\u{11C08}');
    push_range(v, '\u{11C0A}', '\u{11C2E}');
    push_range(v, '\u{11C40}', '\u{11C40}');
    push_range(v, '\u{11C72}', '\u{11C8F}');
    push_range(v, '\u{11D00}', '\u{11D06}');
    push_range(v, '\u{11D08}', '\u{11D09}');
    assert(rview(v@) =~= o + id_start_chunk_66());
}

fn push_id_start_chunk_67(v: &mut Vec<ClassUnicodeRange>)
    ensures
        rview(final(v)@) == rview(old(v)@) + id_start_chunk_67(),
{
    let ghost o = rview(v@);
    push_range(v, '\u{11D0B}', '\u{11D30}');
    push_range(v, '\u{11D46}', '\u{11D46}');
    push_range(v, '\u{11D60}', '\u{11D65}');
    push_range(v, '\u{11D67}', '\u{11D68}');
    push_range(v, '\u{11D6A}', '\u{11D89}');
    push_range(v, '\u{11D98}', '\u{11D98}');
    push_range(v, '\u{11EE0}', '\u{11EF2}');
    push_range(v, '\u{11F02}', '\u{11F02}');
    assert(rview(v@) =~= o + id_start_chunk_67());
}

fn push_id_start_chunk_68(v: &mut Vec<ClassUnicodeRange>)
    ensures
        rview(final(v)@) == rview(old(v)@) + id_start_chunk_68(),
{
    let ghost o = rview(v@);
    push_range(v, '\u{11F04}', '\u{11F10}');
    push_range(v, '\u{11F12}', '\u{11F33}');
    push_range(v, '\u{11FB0}', '\u{11FB0}');
    push_range(v, '\u{12000}', '\u{12399}');
    push_range(v, '\u{12400}', '\u{1246E}');
    push_range(v, '\u{12480}', '\u{12543}');
    push_range(v, '\u{12F90}', '\u{12FF0}');
    push_range(v, '\u{13000}', '\u{1342F}');
    assert(rview(v@) =~= o + id_start_chunk_68());
}

fn push_id_start_chunk_69(v: &mut Vec<ClassUnicodeRange>)
    ensures
        rview(final(v)@) == rview(old(v)@) + id_start_chunk_69(),
{
    let ghost o = rview(v@);
    push_range(v, '\u{13441}', '\u{13446}');
    push_range(v, '\u{13460}', '\u{143FA}');
    push_range(v, '\u{14400}', '\u{14646}');
    push_range(v, '\u{16100}', '\u{1611D}');
    push_range(v, '\u{16800}', '\u{16A38}');
    push_range(v, '\u{16A40}', '\u{16A5E}');
    push_range(v, '\u{16A70}', '\u{16ABE}');
    push_range(v, '\u{16AD0}', '\u{16AED}');
    assert(rview(v@) =~= o + id_start_chunk_69());
}

fn push_id_start_chunk_70(v: &mut Vec<ClassUnicodeRange>)
    ensures
        rview(final(v)@) == rview(old(v)@) + id_start_chunk_70(),
{
    let ghost o = rview(v@);
    push_range(v, '\u{16B00}', '\u{16B2F}');
    push_range(v, '\u{16B40}', '\u{16B43}');
    push_range(v, '\u{16B63}', '\u{16B77}');
    push_range(v, '\u{16B7D}', '\u{16B8F}');
    push_range(v, '\u{16D40}', '\u{16D6C}');
    push_range(v, '\u{16E40}', '\u{16E7F}');
    push_range(v, '\u{16F00}', '\u{16F4A}');
    push_range(v, '\u{16F50}', '\u{16F50}');
    assert(rview(v@) =~= o + id_start_chunk_70());
}

fn push_id_start_chunk_71(v: &mut Vec<ClassUnicodeRange>)
    ensures
        rview(final(v)@) == rview(old(v)@) + id_start_chunk_71(),
{
    let ghost o = rview(v@);
    push_range(v, '\u{16F93}', '\u{16F9F}');
    push_range(v, '\u{16FE0}', '\u{16FE1}');
    push_range(v, '\u{16FE3}', '\u{16FE3}');
    push_range(v, '\u{17000}', '\u{187F7}');
    push_range(v, '\u{18800}', '\u{18CD5}');
    push_range(v, '\u{18CFF}', '\u{18D08}');
    push_range(v, '\u{1AFF0}', '\u{1AFF3}');
    push_range(v, '\u{1AFF5}', '\u{1AFFB}');
    assert(rview(v@) =~= o + id_start_chunk_71());
}

fn push_id_start_chunk_72(v: &mut Vec<ClassUnicodeRange>)
    ensures
        rview(final(v)@) == rview(old(v)@) + id_start_chunk_72(),
{
    let ghost o = rview(v@);
    push_range(v, '\u{1AFFD}', '\u{1AFFE}');
    push_range(v, '\u{1B000}', '\u{1B122}');
    push_range(v, '\u{1B132}', '\u{1B132}');
    push_range(v, '\u{1B150}', '\u{1B152}');
    push_range(v, '\u{1B155}', '\u{1B155}');
    push_range(v, '\u{1B164}', '\u{1B167}');
    push_range(v, '\u{1B170}', '\u{1B2FB}');
    push_range(v, '\u{1BC00}', '\u{1BC6A}');
    assert(rview(v@) =~= o + id_start_chunk_72());
}

fn push_id_start_chunk_73(v: &mut Vec<ClassUnicodeRange>)
    ensures
        rview(final(v)@) == rview(old(v)@) + id_start_chunk_73(),
{
    let ghost o = rview(v@);
    push_range(v, '\u{1BC70}', '\u{1BC7C}');
    push_range(v, '\u{1BC80}', '\u{1BC88}');
    push_range(v, '\u{1BC90}', '\u{1BC99}');
    push_range(v, '\u{1D400}', '\u{1D454}');
    push_range(v, '\u{1D456}', '\u{1D49C}');
    push_range(v, '\u{1D49E}', '\u{1D49F}');
    push_range(v, '\u{1D4A2}', '\u{1D4A2}');
    push_range(v, '\u{1D4A5}', '\u{1D4A6}');
    assert(rview(v@) =~= o + id_start_chunk_73());
}

fn push_id_start_chunk_74(v: &mut Vec<ClassUnicodeRange>)
    ensures
        rview(final(v)@) == rview(old(v)@) + id_start_chunk_74(),
{
    let ghost o = rview(v@);
    push_range(v, '\u{1D4A9}', '\u{1D4AC}');
    push_range(v, '\u{1D4AE}', '\u{1D4B9}');
    push_range(v, '\u{1D4BB}', '\u{1D4BB}');
    push_range(v, '\u{1D4BD}', '\u{1D4C3}');
    push_range(v, '\u{1D4C5}', '\u{1D505}');
    push_range(v, '\u{1D507}', '\u{1D50A}');
    push_range(v, '\u{1D50D}', '\u{1D514}');
    push_range(v, '\u{1D516}', '\u{1D51C}');
    assert(rview(v@) =~= o + id_start_chunk_74());
}

fn push_id_start_chunk_75(v: &mut Vec<ClassUnicodeRange>)
    ensures
        rview(final(v)@) == rview(old(v)@) + id_start_chunk_75(),
{
    let ghost o = rview(v@);
    push_range(v, '\u{1D51E}', '\u{1D539}');
    push_range(v, '\u{1D53B}', '\u{1D53E}');
    push_range(v, '\u{1D540}', '\u{1D544}');
    push_range(v, '\u{1D546}', '\u{1D546}');
    push_range(v, '\u{1D54A}', '\u{1D550}');
    push_range(v, '\u{1D552}', '\u{1D6A5}');
    push_range(v, '\u{1D6A8}', '\u{1D6C0}');
    push_range(v, '\u{1D6C2}', '\u{1D6DA}');
    assert(rview(v@) =~= o + id_start_chunk_75());
}

fn push_id_start_chunk_76(v: &mut Vec<ClassUnicodeRange>)
    ensures
        rview(final(v)@) == rview(old(v)@) + id_start_chunk_76(),
{
    let ghost o = rview(v@);
    push_range(v, '\u{1D6DC}', '\u{1D6FA}');
    push_range(v, '\u{1D6FC}', '\u{1D714}');
    push_range(v, '\u{1D716}', '\u{1D734}');
    push_range(v, '\u{1D736}', '\u{1D74E}');
    push_range(v, '\u{1D750}', '\u{1D76E}');
    push_range(v, '\u{1D770}', '\u{1D788}');
    push_range(v, '\u{1D78A}', '\u{1D7A8}');
    push_range(v, '\u{1D7AA}', '\u{1D7C2}');
    assert(rview(v@) =~= o + id_start_chunk_76());
}

fn push_id_start_chunk_77(v: &mut Vec<ClassUnicodeRange>)
    ensures
        rview(final(v)@) == rview(old(v)@) + id_start_chunk_77(),
{
    let ghost o = rview(v@);
    push_range(v, '\u{1D7C4}', '\u{1D7CB}');
    push_range(v, '\u{1DF00}', '\u{1DF1E}');
    push_range(v, '\u{1DF25}', '\u{1DF2A}');
    push_range(v, '\u{1E030}', '\u{1E06D}');
    push_range(v, '\u{1E100}', '\u{1E12C}');
    push_range(v, '\u{1E137}', '\u{1E13D}');
    push_range(v, '\u{1E14E}', '\u{1E14E}');
    push_range(v, '\u{1E290}', '\u{1E2AD}');
    assert(rview(v@) =~= o + id_start_chunk_77());
}

fn push_id_start_chunk_78(v: &mut Vec<ClassUnicodeRange>)
    ensures
        rview(final(v)@) == rview(old(v)@) + id_start_chunk_78(),
{
    let ghost o = rview(v@);
    push_range(v, '\u{1E2C0}', '\u{1E2EB}');
    push_range(v, '\u{1E4D0}', '\u{1E4EB}');
    push_range(v, '\u{1E5D0}', '\u{1E5ED}');
    push_range(v, '\u{1E5F0}', '\u{1E5F0}');
    push_range(v, '\u{1E7E0}', '\u{1E7E6}');
    push_range(v, '\u{1E7E8}', '\u{1E7EB}');
    push_range(v, '\u{1E7ED}', '\u{1E7EE}');
    push_range(v, '\u{1E7F0}', '\u{1E7FE}');
    assert(rview(v@) =~= o + id_start_chunk_78());
}

fn push_id_start_chunk_79(v: &mut Vec<ClassUnicodeRange>)
    ensures
        rview(final(v)@) == rview(old(v)@) + id_start_chunk_79(),
{
    let ghost o = rview(v@);
    push_range(v, '\u{1E800}', '\u{1E8C4}');
    push_range(v, '\u{1E900}', '\u{1E943}');
    push_range(v, '\u{1E94B}', '\u{1E94B}');
    push_range(v, '\u{1EE00}', '\u{1EE03}');
    push_range(v, '\u{1EE05}', '\u{1EE1F}');
    push_range(v, '\u{1EE21}', '\u{1EE22}');
    push_range(v, '\u{1EE24}', '\u{1EE24}');
    push_range(v, '\u{1EE27}', '\u{1EE27}');
    assert(rview(v@) =~= o + id_start_chunk_79());
}

fn push_id_start_chunk_80(v: &mut Vec<ClassUnicodeRange>)
    ensures
        rview(final(v)@) == rview(old(v)@) + id_start_chunk_80(),
{
    let ghost o = rview(v@);
    push_range(v, '\u{1EE29}', '\u{1EE32}');
    push_range(v, '\u{1EE34}', '\u{1EE37}');
    push_range(v, '\u{1EE39}', '\u{1EE39}');
    push_range(v, '\u{1EE3B}', '\u{1EE3B}');
    push_range(v, '\u{1EE42}', '\u{1EE42}');
    push_range(v, '\u{1EE47}', '\u{1EE47}');
    push_range(v, '\u{1EE49}', '\u{1EE49}');
    push_range(v, '\u{1EE4B}', '\u{1EE4B}');
    assert(rview(v@) =~= o + id_start_chunk_80());
}

fn push_id_start_chunk_81(v: &mut Vec<ClassUnicodeRange>)
    ensures
        rview(final(v)@) == rview(old(v)@) + id_start_chunk_81(),
{
    let ghost o = rview(v@);
    push_range(v, '\u{1EE4D}', '\u{1EE4F}');
    push_range(v, '\u{1EE51}', '\u{1EE52}');
    push_range(v, '\u{1EE54}', '\u{1EE54}');
    push_range(v, '\u{1EE57}', '\u{1EE57}');
    push_range(v, '\u{1EE59}', '\u{1EE59}');
    push_range(v, '\u{1EE5B}', '\u{1EE5B}');
    push_range(v, '\u{1EE5D}', '\u{1EE5D}');
    push_range(v, '\u{1EE5F}', '\u{1EE5F}');
    assert(rview(v@) =~= o + id_start_chunk_81());
}

fn push_id_start_chunk_82(v: &mut Vec<ClassUnicodeRange>)
    ensures
        rview(final(v)@) == rview(old(v)@) + id_start_chunk_82(),
{
    let ghost o = rview(v@);
    push_range(v, '\u{1EE61}', '\u{1EE62}');
    push_range(v, '\u{1EE64}', '\u{1EE64}');
    push_range(v, '\u{1EE67}', '\u{1EE6A}');
    push_range(v, '\u{1EE6C}', '\u{1EE72}');
    push_range(v, '\u{1EE74}', '\u{1EE77}');
    push_range(v, '\u{1EE79}', '\u{1EE7C}');
    push_range(v, '\u{1EE7E}', '\u{1EE7E}');
    push_range(v, '\u{1EE80}', '\u{1EE89}');
    assert(rview(v@) =~= o + id_start_chunk_82());
}

fn push_id_start_chunk_83(v: &mut Vec<ClassUnicodeRange>)
    ensures
        rview(final(v)@) == rview(old(v)@) + id_start_chunk_83(),
{
    let ghost o = rview(v@);
    push_range(v, '\u{1EE8B}', '\u{1EE9B}');
    push_range(v, '\u{1EEA1}', '\u{1EEA3}');
    push_range(v, '\u{1EEA5}', '\u{1EEA9}');
    push_range(v, '\u{1EEAB}', '\u{1EEBB}');
    push_range(v, '\u{20000}', '\u{2A6DF}');
    push_range(v, '\u{2A700}', '\u{2B739}');
    push_range(v, '\u{2B740}', '\u{2B81D}');
    push_range(v, '\u{2B820}', '\u{2CEA1}');
    assert(rview(v@) =~= o + id_start_chunk_83());
}

fn push_id_start_chunk_84(v: &mut Vec<ClassUnicodeRange>)
    ensures
        rview(final(v)@) == rview(old(v)@) + id_start_chunk_84(),
{
    let ghost o = rview(v@);
    push_range(v, '\u{2CEB0}', '\u{2EBE0}');
    push_range(v, '\u{2EBF0}', '\u{2EE5D}');
    push_range(v, '\u{2F800}', '\u{2FA1D}');
    push_range(v, '\u{30000}', '\u{3134A}');
    push_range(v, '\u{31350}', '\u{323AF}');
    assert(rview(v@) =~= o + id_start_chunk_84());
}

fn push_id_start_block_0(v: &mut Vec<ClassUnicodeRange>)
    ensures
        rview(final(v)@) == rview(old(v)@) + id_start_block_0(),
{
    let ghost o = rview(v@);
    push_id_start_chunk_0(v);
    assert(rview(v@) =~= o + (id_start_chunk_0()));
    push_id_start_chunk_1(v);
    assert(rview(v@) =~= o + (id_start_chunk_0() + id_start_chunk_1()));
    push_id_start_chunk_2(v);
    assert(rview(v@) =~= o + (id_start_chunk_0() + id_start_chunk_1() + id_start_chunk_2()));
    push_id_start_chunk_3(v);
    assert(rview(v@) =~= o + (id_start_chunk_0() + id_start_chunk_1() + id_start_chunk_2() + id_start_chunk_3()));
    push_id_start_chunk_4(v);
    assert(rview(v@) =~= o + (id_start_chunk_0() + id_start_chunk_1() + id_start_chunk_2() + id_start_chunk_3() + id_start_chunk_4()));
    push_id_start_chunk_5(v);
    assert(rview(v@) =~= o + (id_start_chunk_0() + id_start_chunk_1() + id_start_chunk_2() + id_start_chunk_3() + id_start_chunk_4() + id_start_chunk_5()));
    push_id_start_chunk_6(v);
    assert(rview(v@) =~= o + (id_start_chunk_0() + id_start_chunk_1() + id_start_chunk_2() + id_start_chunk_3() + id_start_chunk_4() + id_start_chunk_5() + id_start_chunk_6()));
    push_id_start_chunk_7(v);
    assert(rview(v@) =~= o + (id_start_chunk_0() + id_start_chunk_1() + id_start_chunk_2() + id_start_chunk_3() + id_start_chunk_4() + id_start_chunk_5() + id_start_chunk_6() + id_start_chunk_7()));
    push_id_start_chunk_8(v);
    assert(rview(v@) =~= o + (id_start_chunk_0() + id_start_chunk_1() + id_start_chunk_2() + id_start_chunk_3() + id_start_chunk_4() + id_start_chunk_5() + id_start_chunk_6() + id_start_chunk_7() + id_start_chunk_8()));
    push_id_start_chunk_9(v);
    assert(rview(v@) =~= o + (id_start_chunk_0() + id_start_chunk_1() + id_start_chunk_2() + id_start_chunk_3() + id_start_chunk_4() + id_start_chunk_5() + id_start_chunk_6() + id_start_chunk_7() + id_start_chunk_8() + id_start_chunk_9()));
}

fn push_id_start_block_1(v: &mut Vec<ClassUnicodeRange>)
    ensures
        rview(final(v)@) == rview(old(v)@) + id_start_block_1(),
{
    let ghost o = rview(v@);
    push_id_start_chunk_10(v);
    assert(rview(v@) =~= o + (id_start_chunk_10()));
    push_id_start_chunk_11(v);
    assert(rview(v@) =~= o + (id_start_chunk_10() + id_start_chunk_11()));
    push_id_start_chunk_12(v);
    assert(rview(v@) =~= o + (id_start_chunk_10() + id_start_chunk_11() + id_start_chunk_12()));
    push_id_start_chunk_13(v);
    assert(rview(v@) =~= o + (id_start_chunk_10() + id_start_chunk_11() + id_start_chunk_12() + id_start_chunk_13()));
    push_id_start_chunk_14(v);
    assert(rview(v@) =~= o + (id_start_chunk_10() + id_start_chunk_11() + id_start_chunk_12() + id_start_chunk_13() + id_start_chunk_14()));
    push_id_start_chunk_15(v);
    assert(rview(v@) =~= o + (id_start_chunk_10() + id_start_chunk_11() + id_start_chunk_12() + id_start_chunk_13() + id_start_chunk_14() + id_start_chunk_15()));
    push_id_start_chunk_16(v);
    assert(rview(v@) =~= o + (id_start_chunk_10() + id_start_chunk_11() + id_start_chunk_12() + id_start_chunk_13() + id_start_chunk_14() + id_start_chunk_15() + id_start_chunk_16()));
    push_id_start_chunk_17(v);
    assert(rview(v@) =~= o + (id_start_chunk_10() + id_start_chunk_11() + id_start_chunk_12() + id_start_chunk_13() + id_start_chunk_14() + id_start_chunk_15() + id_start_chunk_16() + id_start_chunk_17()));
    push_id_start_chunk_18(v);
    assert(rview(v@) =~= o + (id_start_chunk_10() + id_start_chunk_11() + id_start_chunk_12() + id_start_chunk_13() + id_start_chunk_14() + id_start_chunk_15() + id_start_chunk_16() + id_start_chunk_17() + id_start_chunk_18()));
    push_id_start_chunk_19(v);
    assert(rview(v@) =~= o + (id_start_chunk_10() + id_start_chunk_11() + id_start_chunk_12() + id_start_chunk_13() + id_start_chunk_14() + id_start_chunk_15() + id_start_chunk_16() + id_start_chunk_17() + id_start_chunk_18() + id_start_chunk_19()));
}

fn push_id_start_block_2(v: &mut Vec<ClassUnicodeRange>)
    ensures
        rview(final(v)@) == rview(old(v)@) + id_start_block_2(),
{
    let ghost o = rview(v@);
    push_id_start_chunk_20(v);
    assert(rview(v@) =~= o + (id_start_chunk_20()));
    push_id_start_chunk_21(v);
    assert(rview(v@) =~= o + (id_start_chunk_20() + id_start_chunk_21()));
    push_id_start_chunk_22(v);
    assert(rview(v@) =~= o + (id_start_chunk_20() + id_start_chunk_21() + id_start_chunk_22()));
    push_id_start_chunk_23(v);
    assert(rview(v@) =~= o + (id_start_chunk_20() + id_start_chunk_21() + id_start_chunk_22() + id_start_chunk_23()));
    push_id_start_chunk_24(v);
    assert(rview(v@) =~= o + (id_start_chunk_20() + id_start_chunk_21() + id_start_chunk_22() + id_start_chunk_23() + id_start_chunk_24()));
    push_id_start_chunk_25(v);
    assert(rview(v@) =~= o + (id_start_chunk_20() + id_start_chunk_21() + id_start_chunk_22() + id_start_chunk_23() + id_start_chunk_24() + id_start_chunk_25()));
    push_id_start_chunk_26(v);
    assert(rview(v@) =~= o + (id_start_chunk_20() + id_start_chunk_21() + id_start_chunk_22() + id_start_chunk_23() + id_start_chunk_24() + id_start_chunk_25() + id_start_chunk_26()));
    push_id_start_chunk_27(v);
    assert(rview(v@) =~= o + (id_start_chunk_20() + id_start_chunk_21() + id_start_chunk_22() + id_start_chunk_23() + id_start_chunk_24() + id_start_chunk_25() + id_start_chunk_26() + id_start_chunk_27()));
    push_id_start_chunk_28(v);
    assert(rview(v@) =~= o + (id_start_chunk_20() + id_start_chunk_21() + id_start_chunk_22() + id_start_chunk_23() + id_start_chunk_24() + id_start_chunk_25() + id_start_chunk_26() + id_start_chunk_27() + id_start_chunk_28()));
    push_id_start_chunk_29(v);
    assert(rview(v@) =~= o + (id_start_chunk_20() + id_start_chunk_21() + id_start_chunk_22() + id_start_chunk_23() + id_start_chunk_24() + id_start_chunk_25() + id_start_chunk_26() + id_start_chunk_27() + id_start_chunk_28() + id_start_chunk_29()));
}

fn push_id_start_block_3(v: &mut Vec<ClassUnicodeRange>)
    ensures
        rview(final(v)@) == rview(old(v)@) + id_start_block_3(),
{
    let ghost o = rview(v@);
    push_id_start_chunk_30(v);
    assert(rview(v@) =~= o + (id_start_chunk_30()));
    push_id_start_chunk_31(v);
    assert(rview(v@) =~= o + (id_start_chunk_30() + id_start_chunk_31()));
    push_id_start_chunk_32(v);
    assert(rview(v@) =~= o + (id_start_chunk_30() + id_start_chunk_31() + id_start_chunk_32()));
    push_id_start_chunk_33(v);
    assert(rview(v@) =~= o + (id_start_chunk_30() + id_start_chunk_31() + id_start_chunk_32() + id_start_chunk_33()));
    push_id_start_chunk_34(v);
    assert(rview(v@) =~= o + (id_start_chunk_30() + id_start_chunk_31() + id_start_chunk_32() + id_start_chunk_33() + id_start_chunk_34()));
    push_id_start_chunk_35(v);
    assert(rview(v@) =~= o + (id_start_chunk_30() + id_start_chunk_31() + id_start_chunk_32() + id_start_chunk_33() + id_start_chunk_34() + id_start_chunk_35()));
    push_id_start_chunk_36(v);
    assert(rview(v@) =~= o + (id_start_chunk_30() + id_start_chunk_31() + id_start_chunk_32() + id_start_chunk_33() + id_start_chunk_34() + id_start_chunk_35() + id_start_chunk_36()));
    push_id_start_chunk_37(v);
    assert(rview(v@) =~= o + (id_start_chunk_30() + id_start_chunk_31() + id_start_chunk_32() + id_start_chunk_33() + id_start_chunk_34() + id_start_chunk_35() + id_start_chunk_36() + id_start_chunk_37()));
    push_id_start_chunk_38(v);
    assert(rview(v@) =~= o + (id_start_chunk_30() + id_start_chunk_31() + id_start_chunk_32() + id_start_chunk_33() + id_start_chunk_34() + id_start_chunk_35() + id_start_chunk_36() + id_start_chunk_37() + id_start_chunk_38()));
    push_id_start_chunk_39(v);
    assert(rview(v@) =~= o + (id_start_chunk_30() + id_start_chunk_31() + id_start_chunk_32() + id_start_chunk_33() + id_start_chunk_34() + id_start_chunk_35() + id_start_chunk_36() + id_start_chunk_37() + id_start_chunk_38() + id_start_chunk_39()));
}

fn push_id_start_block_4(v: &mut Vec<ClassUnicodeRange>)
    ensures
        rview(final(v)@) == rview(old(v)@) + id_start_block_4(),
{
    let ghost o = rview(v@);
    push_id_start_chunk_40(v);
    assert(rview(v@) =~= o + (id_start_chunk_40()));
    push_id_start_chunk_41(v);
    assert(rview(v@) =~= o + (id_start_chunk_40() + id_start_chunk_41()));
    push_id_start_chunk_42(v);
    assert(rview(v@) =~= o + (id_start_chunk_40() + id_start_chunk_41() + id_start_chunk_42()));
    push_id_start_chunk_43(v);
    assert(rview(v@) =~= o + (id_start_chunk_40() + id_start_chunk_41() + id_start_chunk_42() + id_start_chunk_43()));
    push_id_start_chunk_44(v);
    assert(rview(v@) =~= o + (id_start_chunk_40() + id_start_chunk_41() + id_start_chunk_42() + id_start_chunk_43() + id_start_chunk_44()));
    push_id_start_chunk_45(v);
    assert(rview(v@) =~= o + (id_start_chunk_40() + id_start_chunk_41() + id_start_chunk_42() + id_start_chunk_43() + id_start_chunk_44() + id_start_chunk_45()));
    push_id_start_chunk_46(v);
    assert(rview(v@) =~= o + (id_start_chunk_40() + id_start_chunk_41() + id_start_chunk_42() + id_start_chunk_43() + id_start_chunk_44() + id_start_chunk_45() + id_start_chunk_46()));
    push_id_start_chunk_47(v);
    assert(rview(v@) =~= o + (id_start_chunk_40() + id_start_chunk_41() + id_start_chunk_42() + id_start_chunk_43() + id_start_chunk_44() + id_start_chunk_45() + id_start_chunk_46() + id_start_chunk_47()));
    push_id_start_chunk_48(v);
    assert(rview(v@) =~= o + (id_start_chunk_40() + id_start_chunk_41() + id_start_chunk_42() + id_start_chunk_43() + id_start_chunk_44() + id_start_chunk_45() + id_start_chunk_46() + id_start_chunk_47() + id_start_chunk_48()));
    push_id_start_chunk_49(v);
    assert(rview(v@) =~= o + (id_start_chunk_40() + id_start_chunk_41() + id_start_chunk_42() + id_start_chunk_43() + id_start_chunk_44() + id_start_chunk_45() + id_start_chunk_46() + id_start_chunk_47() + id_start_chunk_48() + id_start_chunk_49()));
}

fn push_id_start_block_5(v: &mut Vec<ClassUnicodeRange>)
    ensures
        rview(final(v)@) == rview(old(v)@) + id_start_block_5(),
{
    let ghost o = rview(v@);
    push_id_start_chunk_50(v);
    assert(rview(v@) =~= o + (id_start_chunk_50()));
    push_id_start_chunk_51(v);
    assert(rview(v@) =~= o + (id_start_chunk_50() + id_start_chunk_51()));
    push_id_start_chunk_52(v);
    assert(rview(v@) =~= o + (id_start_chunk_50() + id_start_chunk_51() + id_start_chunk_52()));
    push_id_start_chunk_53(v);
    assert(rview(v@) =~= o + (id_start_chunk_50() + id_start_chunk_51() + id_start_chunk_52() + id_start_chunk_53()));
    push_id_start_chunk_54(v);
    assert(rview(v@) =~= o + (id_start_chunk_50() + id_start_chunk_51() + id_start_chunk_52() + id_start_chunk_53() + id_start_chunk_54()));
    push_id_start_chunk_55(v);
    assert(rview(v@) =~= o + (id_start_chunk_50() + id_start_chunk_51() + id_start_chunk_52() + id_start_chunk_53() + id_start_chunk_54() + id_start_chunk_55()));
    push_id_start_chunk_56(v);
    assert(rview(v@) =~= o + (id_start_chunk_50() + id_start_chunk_51() + id_start_chunk_52() + id_start_chunk_53() + id_start_chunk_54() + id_start_chunk_55() + id_start_chunk_56()));
    push_id_start_chunk_57(v);
    assert(rview(v@) =~= o + (id_start_chunk_50() + id_start_chunk_51() + id_start_chunk_52() + id_start_chunk_53() + id_start_chunk_54() + id_start_chunk_55() + id_start_chunk_56() + id_start_chunk_57()));
    push_id_start_chunk_58(v);
    assert(rview(v@) =~= o + (id_start_chunk_50() + id_start_chunk_51() + id_start_chunk_52() + id_start_chunk_53() + id_start_chunk_54() + id_start_chunk_55() + id_start_chunk_56() + id_start_chunk_57() + id_start_chunk_58()));
    push_id_start_chunk_59(v);
    assert(rview(v@) =~= o + (id_start_chunk_50() + id_start_chunk_51() + id_start_chunk_52() + id_start_chunk_53() + id_start_chunk_54() + id_start_chunk_55() + id_start_chunk_56() + id_start_chunk_57() + id_start_chunk_58() + id_start_chunk_59()));
}

fn push_id_start_block_6(v: &mut Vec<ClassUnicodeRange>)
    ensures
        rview(final(v)@) == rview(old(v)@) + id_start_block_6(),
{
    let ghost o = rview(v@);
    push_id_start_chunk_60(v);
    assert(rview(v@) =~= o + (id_start_chunk_60()));
    push_id_start_chunk_61(v);
    assert(rview(v@) =~= o + (id_start_chunk_60() + id_start_chunk_61()));
    push_id_start_chunk_62(v);
    assert(rview(v@) =~= o + (id_start_chunk_60() + id_start_chunk_61() + id_start_chunk_62()));
    push_id_start_chunk_63(v);
    assert(rview(v@) =~= o + (id_start_chunk_60() + id_start_chunk_61() + id_start_chunk_62() + id_start_chunk_63()));
    push_id_start_chunk_64(v);
    assert(rview(v@) =~= o + (id_start_chunk_60() + id_start_chunk_61() + id_start_chunk_62() + id_start_chunk_63() + id_start_chunk_64()));
    push_id_start_chunk_65(v);
    assert(rview(v@) =~= o + (id_start_chunk_60() + id_start_chunk_61() + id_start_chunk_62() + id_start_chunk_63() + id_start_chunk_64() + id_start_chunk_65()));
    push_id_start_chunk_66(v);
    assert(rview(v@) =~= o + (id_start_chunk_60() + id_start_chunk_61() + id_start_chunk_62() + id_start_chunk_63() + id_start_chunk_64() + id_start_chunk_65() + id_start_chunk_66()));
    push_id_start_chunk_67(v);
    assert(rview(v@) =~= o + (id_start_chunk_60() + id_start_chunk_61() + id_start_chunk_62() + id_start_chunk_63() + id_start_chunk_64() + id_start_chunk_65() + id_start_chunk_66() + id_start_chunk_67()));
    push_id_start_chunk_68(v);
    assert(rview(v@) =~= o + (id_start_chunk_60() + id_start_chunk_61() + id_start_chunk_62() + id_start_chunk_63() + id_start_chunk_64() + id_start_chunk_65() + id_start_chunk_66() + id_start_chunk_67() + id_start_chunk_68()));
    push_id_start_chunk_69(v);
    assert(rview(v@) =~= o + (id_start_chunk_60() + id_start_chunk_61() + id_start_chunk_62() + id_start_chunk_63() + id_start_chunk_64() + id_start_chunk_65() + id_start_chunk_66() + id_start_chunk_67() + id_start_chunk_68() + id_start_chunk_69()));
}

fn push_id_start_block_7(v: &mut Vec<ClassUnicodeRange>)
    ensures
        rview(final(v)@) == rview(old(v)@) + id_start_block_7(),
{
    let ghost o = rview(v@);
    push_id_start_chunk_70(v);
    assert(rview(v@) =~= o + (id_start_chunk_70()));
    push_id_start_chunk_71(v);
    assert(rview(v@) =~= o + (id_start_chunk_70() + id_start_chunk_71()));
    push_id_start_chunk_72(v);
    assert(rview(v@) =~= o + (id_start_chunk_70() + id_start_chunk_71() + id_start_chunk_72()));
    push_id_start_chunk_73(v);
    assert(rview(v@) =~= o + (id_start_chunk_70() + id_start_chunk_71() + id_start_chunk_72() + id_start_chunk_73()));
    push_id_start_chunk_74(v);
    assert(rview(v@) =~= o + (id_start_chunk_70() + id_start_chunk_71() + id_start_chunk_72() + id_start_chunk_73() + id_start_chunk_74()));
    push_id_start_chunk_75(v);
    assert(rview(v@) =~= o + (id_start_chunk_70() + id_start_chunk_71() + id_start_chunk_72() + id_start_chunk_73() + id_start_chunk_74() + id_start_chunk_75()));
    push_id_start_chunk_76(v);
    assert(rview(v@) =~= o + (id_start_chunk_70() + id_start_chunk_71() + id_start_chunk_72() + id_start_chunk_73() + id_start_chunk_74() + id_start_chunk_75() + id_start_chunk_76()));
    push_id_start_chunk_77(v);
    assert(rview(v@) =~= o + (id_start_chunk_70() + id_start_chunk_71() + id_start_chunk_72() + id_start_chunk_73() + id_start_chunk_74() + id_start_chunk_75() + id_start_chunk_76() + id_start_chunk_77()));
    push_id_start_chunk_78(v);
    assert(rview(v@) =~= o + (id_start_chunk_70() + id_start_chunk_71() + id_start_chunk_72() + id_start_chunk_73() + id_start_chunk_74() + id_start_chunk_75() + id_start_chunk_76() + id_start_chunk_77() + id_start_chunk_78()));
    push_id_start_chunk_79(v);
    assert(rview(v@) =~= o + (id_start_chunk_70() + id_start_chunk_71() + id_start_chunk_72() + id_start_chunk_73() + id_start_chunk_74() + id_start_chunk_75() + id_start_chunk_76() + id_start_chunk_77() + id_start_chunk_78() + id_start_chunk_79()));
}

fn push_id_start_block_8(v: &mut Vec<ClassUnicodeRange>)
    ensures
        rview(final(v)@) == rview(old(v)@) + id_start_block_8(),
{
    let ghost o = rview(v@);
    push_id_start_chunk_80(v);
    assert(rview(v@) =~= o + (id_start_chunk_80()));
    push_id_start_chunk_81(v);
    assert(rview(v@) =~= o + (id_start_chunk_80() + id_start_chunk_81()));
    push_id_start_chunk_82(v);
    assert(rview(v@) =~= o + (id_start_chunk_80() + id_start_chunk_81() + id_start_chunk_82()));
    push_id_start_chunk_83(v);
    assert(rview(v@) =~= o + (id_start_chunk_80() + id_start_chunk_81() + id_start_chunk_82() + id_start_chunk_83()));
    push_id_start_chunk_84(v);
    assert(rview(v@) =~= o + (id_start_chunk_80() + id_start_chunk_81() + id_start_chunk_82() + id_start_chunk_83() + id_start_chunk_84()));
}

pub fn id_start_class() -> (v: Vec<ClassUnicodeRange>)
    ensures
        rview(v@) == id_start_ranges(),
{
    let mut v: Vec<ClassUnicodeRange> = Vec::new();
    assert(rview(v@) =~= Seq::<SRange>::empty());
    push_id_start_block_0(&mut v);
    assert(rview(v@) =~= id_start_block_0());
    push_id_start_block_1(&mut v);
    assert(rview(v@) =~= id_start_block_0() + id_start_block_1());
    push_id_start_block_2(&mut v);
    assert(rview(v@) =~= id_start_block_0() + id_start_block_1() + id_start_block_2());
    push_id_start_block_3(&mut v);
    assert(rview(v@) =~= id_start_block_0() + id_start_block_1() + id_start_block_2() + id_start_block_3());
    push_id_start_block_4(&mut v);
    assert(rview(v@) =~= id_start_block_0() + id_start_block_1() + id_start_block_2() + id_start_block_3() + id_start_block_4());
    push_id_start_block_5(&mut v);
    assert(rview(v@) =~= id_start_block_0() + id_start_block_1() + id_start_block_2() + id_start_block_3() + id_start_block_4() + id_start_block_5());
    push_id_start_block_6(&mut v);
    assert(rview(v@) =~= id_start_block_0() + id_start_block_1() + id_start_block_2() + id_start_block_3() + id_start_block_4() + id_start_block_5() + id_start_block_6());
    push_id_start_block_7(&mut v);
    assert(rview(v@) =~= id_start_block_0() + id_start_block_1() + id_start_block_2() + id_start_block_3() + id_start_block_4() + id_start_block_5() + id_start_block_6() + id_start_block_7());
    push_id_start_block_8(&mut v);
    assert(rview(v@) =~= id_start_block_0() + id_start_block_1() + id_start_block_2() + id_start_block_3() + id_start_block_4() + id_start_block_5() + id_start_block_6() + id_start_block_7() + id_start_block_8());
    v
}

pub open spec fn ideographic_chunk_0() -> Seq<SRange> {
    seq![(0x3006int, 0x3007int), (0x3021int, 0x3029int), (0x3038int, 0x303Aint), (0x3400int, 0x4DBFint), (0x4E00int, 0x9FFFint), (0xF900int, 0xFA6Dint), (0xFA70int, 0xFAD9int), (0x16FE4int, 0x16FE4int)]
}

pub open spec fn ideographic_chunk_1() -> Seq<SRange> {
    seq![(0x17000int, 0x187F7int), (0x18800int, 0x18CD5int), (0x18CFFint, 0x18D08int), (0x1B170int, 0x1B2FBint), (0x20000int, 0x2A6DFint), (0x2A700int, 0x2B739int), (0x2B740int, 0x2B81Dint), (0x2B820int, 0x2CEA1int)]
}

pub open spec fn ideographic_chunk_2() -> Seq<SRange> {
    seq![(0x2CEB0int, 0x2EBE0int), (0x2EBF0int, 0x2EE5Dint), (0x2F800int, 0x2FA1Dint), (0x30000int, 0x3134Aint), (0x31350int, 0x323AFint)]
}

/// The ranges of the property Ideographic.
pub open spec fn ideographic_ranges() -> Seq<SRange> {
    ideographic_chunk_0() + ideographic_chunk_1() + ideographic_chunk_2()
}

pub proof fn lemma_ideographic_canonical()
    ensures
        canonical(ideographic_ranges()),
{
    reveal_with_fuel(canonical, 9);
    assert(canonical(ideographic_chunk_0()));
    assert(canonical(ideographic_chunk_1()));
    assert(canonical(ideographic_chunk_2()));
    lemma_canonical_append(ideographic_chunk_0(), ideographic_chunk_1());
    lemma_canonical_append(ideographic_chunk_0() + ideographic_chunk_1(), ideographic_chunk_2());
}

fn push_ideographic_chunk_0(v: &mut Vec<ClassUnicodeRange>)
    ensures
        rview(final(v)@) == rview(old(v)@) + ideographic_chunk_0(),
{
    let ghost o = rview(v@);
    push_range(v, '\u{3006}', '\u{3007}');
    push_range(v, '\u{3021}', '\u{3029}');
    push_range(v, '\u{3038}', '\u{303A}');
    push_range(v, '\u{3400}', '\u{4DBF}');
    push_range(v, '\u{4E00}', '\u{9FFF}');
    push_range(v, '\u{F900}', '\u{FA6D}');
    push_range(v, '\u{FA70}', '\u{FAD9}');
    push_range(v, '\u{16FE4}', '\u{16FE4}');
    assert(rview(v@) =~= o + ideographic_chunk_0());
}

fn push_ideographic_chunk_1(v: &mut Vec<ClassUnicodeRange>)
    ensures
        rview(final(v)@) == rview(old(v)@) + ideographic_chunk_1(),
{
    let ghost o = rview(v@);
    push_range(v, '\u{17000}', '\u{187F7}');
    push_range(v, '\u{18800}', '\u{18CD5}');
    push_range(v, '\u{18CFF}', '\u{18D08}');
    push_range(v, '\u{1B170}', '\u{1B2FB}');
    push_range(v, '\u{20000}', '\u{2A6DF}');
    push_range(v, '\u{2A700}', '\u{2B739}');
    push_range(v, '\u{2B740}', '\u{2B81D}');
    push_range(v, '\u{2B820}', '\u{2CEA1}');
    assert(rview(v@) =~= o + ideographic_chunk_1());
}

fn push_ideographic_chunk_2(v: &mut Vec<ClassUnicodeRange>)
    ensures
        rview(final(v)@) == rview(old(v)@) + ideographic_chunk_2(),
{
    let ghost o = rview(v@);
    push_range(v, '\u{2CEB0}', '\u{2EBE0}');
    push_range(v, '\u{2EBF0}', '\u{2EE5D}');
    push_range(v, '\u{2F800}', '\u{2FA1D}');
    push_range(v, '\u{30000}', '\u{3134A}');
    push_range(v, '\u{31350}', '\u{323AF}');
    assert(rview(v@) =~= o + ideographic_chunk_2());
}

pub fn ideographic_class() -> (v: Vec<ClassUnicodeRange>)
    ensures
        rview(v@) == ideographic_ranges(),
{
    let mut v: Vec<ClassUnicodeRange> = Vec::new();
    assert(rview(v@) =~= Seq::<SRange>::empty());
    push_ideographic_chunk_0(&mut v);
    assert(rview(v@) =~= ideographic_chunk_0());
    push_ideographic_chunk_1(&mut v);
    assert(rview(v@) =~= ideographic_chunk_0() + ideographic_chunk_1());
    push_ideographic_chunk_2(&mut v);
    assert(rview(v@) =~= ideographic_chunk_0() + ideographic_chunk_1() + ideographic_chunk_2());
    v
}

pub open spec fn incb_chunk_0() -> Seq<SRange> {
    seq![(0x300int, 0x36Fint), (0x483int, 0x489int), (0x591int, 0x5BDint), (0x5BFint, 0x5BFint), (0x5C1int, 0x5C2int), (0x5C4int, 0x5C5int), (0x5C7int, 0x5C7int), (0x610int, 0x61Aint)]
}

pub open spec fn incb_chunk_1() -> Seq<SRange> {
    seq![(0x64Bint, 0x65Fint), (0x670int, 0x670int), (0x6D6int, 0x6DCint), (0x6DFint, 0x6E4int), (0x6E7int, 0x6E8int), (0x6EAint, 0x6EDint), (0x711int, 0x711int), (0x730int, 0x74Aint)]
}

pub open spec fn incb_chunk_2() -> Seq<SRange> {
    seq![(0x7A6int, 0x7B0int), (0x7EBint, 0x7F3int), (0x7FDint, 0x7FDint), (0x816int, 0x819int), (0x81Bint, 0x823int), (0x825int, 0x827int), (0x829int, 0x82Dint), (0x859int, 0x85Bint)]
}

pub open spec fn incb_chunk_3() -> Seq<SRange> {
    seq![(0x897int, 0x89Fint), (0x8CAint, 0x8E1int), (0x8E3int, 0x902int), (0x915int, 0x93Aint), (0x93Cint, 0x93Cint), (0x941int, 0x948int), (0x94Dint, 0x94Dint), (0x951int, 0x95Fint)]
}

pub open spec fn incb_chunk_4() -> Seq<SRange> {
    seq![(0x962int, 0x963int), (0x978int, 0x97Fint), (0x981int, 0x981int), (0x995int, 0x9A8int), (0x9AAint, 0x9B0int), (0x9B2int, 0x9B2int), (0x9B6int, 0x9B9int), (0x9BCint, 0x9BCint)]
}

pub open spec fn incb_chunk_5() -> Seq<SRange> {
    seq![(0x9BEint, 0x9BEint), (0x9C1int, 0x9C4int), (0x9CDint, 0x9CDint), (0x9D7int, 0x9D7int), (0x9DCint, 0x9DDint), (0x9DFint, 0x9DFint), (0x9E2int, 0x9E3int), (0x9F0int, 0x9F1int)]
}

pub open spec fn incb_chunk_6() -> Seq<SRange> {
    seq![(0x9FEint, 0x9FEint), (0xA01int, 0xA02int), (0xA3Cint, 0xA3Cint), (0xA41int, 0xA42int), (0xA47int, 0xA48int), (0xA4Bint, 0xA4Dint), (0xA51int, 0xA51int), (0xA70int, 0xA71int)]
}

pub open spec fn incb_chunk_7() -> Seq<SRange> {
    seq![(0xA75int, 0xA75int), (0xA81int, 0xA82int), (0xA95int, 0xAA8int), (0xAAAint, 0xAB0int), (0xAB2int, 0xAB3int), (0xAB5int, 0xAB9int), (0xABCint, 0xABCint), (0xAC1int, 0xAC5int)]
}

pub open spec fn incb_chunk_8() -> Seq<SRange> {
    seq![(0xAC7int, 0xAC8int), (0xACDint, 0xACDint), (0xAE2int, 0xAE3int), (0xAF9int, 0xAFFint), (0xB01int, 0xB01int), (0xB15int, 0xB28int), (0xB2Aint, 0xB30int), (0xB32int, 0xB33int)]
}

pub open spec fn incb_chunk_9() -> Seq<SRange> {
    seq![(0xB35int, 0xB39int), (0xB3Cint, 0xB3Cint), (0xB3Eint, 0xB3Fint), (0xB41int, 0xB44int), (0xB4Dint, 0xB4Dint), (0xB55int, 0xB57int), (0xB5Cint, 0xB5Dint), (0xB5Fint, 0xB5Fint)]
}

pub open spec fn incb_chunk_10() -> Seq<SRange> {
    seq![(0xB62int, 0xB63int), (0xB71int, 0xB71int), (0xB82int, 0xB82int), (0xBBEint, 0xBBEint), (0xBC0int, 0xBC0int), (0xBCDint, 0xBCDint), (0xBD7int, 0xBD7int), (0xC00int, 0xC00int)]
}

pub open spec fn incb_chunk_11() -> Seq<SRange> {
    seq![(0xC04int, 0xC04int), (0xC15int, 0xC28int), (0xC2Aint, 0xC39int), (0xC3Cint, 0xC3Cint), (0xC3Eint, 0xC40int), (0xC46int, 0xC48int), (0xC4Aint, 0xC4Dint), (0xC55int, 0xC56int)]
}

pub open spec fn incb_chunk_12() -> Seq<SRange> {
    seq![(0xC58int, 0xC5Aint), (0xC62int, 0xC63int), (0xC81int, 0xC81int), (0xCBCint, 0xCBCint), (0xCBFint, 0xCC0int), (0xCC2int, 0xCC2int), (0xCC6int, 0xCC8int), (0xCCAint, 0xCCDint)]
}

pub open spec fn incb_chunk_13() -> Seq<SRange> {
    seq![(0xCD5int, 0xCD6int), (0xCE2int, 0xCE3int), (0xD00int, 0xD01int), (0xD15int, 0xD3Cint), (0xD3Eint, 0xD3Eint), (0xD41int, 0xD44int), (0xD4Dint, 0xD4Dint), (0xD57int, 0xD57int)]
}

pub open spec fn incb_chunk_14() -> Seq<SRange> {
    seq![(0xD62int, 0xD63int), (0xD81int, 0xD81int), (0xDCAint, 0xDCAint), (0xDCFint, 0xDCFint), (0xDD2int, 0xDD4int), (0xDD6int, 0xDD6int), (0xDDFint, 0xDDFint), (0xE31int, 0xE31int)]
}

pub open spec fn incb_chunk_15() -> Seq<SRange> {
    seq![(0xE34int, 0xE3Aint), (0xE47int, 0xE4Eint), (0xEB1int, 0xEB1int), (0xEB4int, 0xEBCint), (0xEC8int, 0xECEint), (0xF18int, 0xF19int), (0xF35int, 0xF35int), (0xF37int, 0xF37int)]
}

pub open spec fn incb_chunk_16() -> Seq<SRange> {
    seq![(0xF39int, 0xF39int), (0xF71int, 0xF7Eint), (0xF80int, 0xF84int), (0xF86int, 0xF87int), (0xF8Dint, 0xF97int), (0xF99int, 0xFBCint), (0xFC6int, 0xFC6int), (0x102Dint, 0x1030int)]
}

pub open spec fn incb_chunk_17() -> Seq<SRange> {
    seq![(0x1032int, 0x1037int), (0x1039int, 0x103Aint), (0x103Dint, 0x103Eint), (0x1058int, 0x1059int), (0x105Eint, 0x1060int), (0x1071int, 0x1074int), (0x1082int, 0x1082int), (0x1085int, 0x1086int)]
}

pub open spec fn incb_chunk_18() -> Seq<SRange> {
    seq![(0x108Dint, 0x108Dint), (0x109Dint, 0x109Dint), (0x135Dint, 0x135Fint), (0x1712int, 0x1715int), (0x1732int, 0x1734int), (0x1752int, 0x1753int), (0x1772int, 0x1773int), (0x17B4int, 0x17B5int)]
}

pub open spec fn incb_chunk_19() -> Seq<SRange> {
    seq![(0x17B7int, 0x17BDint), (0x17C6int, 0x17C6int), (0x17C9int, 0x17D3int), (0x17DDint, 0x17DDint), (0x180Bint, 0x180Dint), (0x180Fint, 0x180Fint), (0x1885int, 0x1886int), (0x18A9int, 0x18A9int)]
}

pub open spec fn incb_chunk_20() -> Seq<SRange> {
    seq![(0x1920int, 0x1922int), (0x1927int, 0x1928int), (0x1932int, 0x1932int), (0x1939int, 0x193Bint), (0x1A17int, 0x1A18int), (0x1A1Bint, 0x1A1Bint), (0x1A56int, 0x1A56int), (0x1A58int, 0x1A5Eint)]
}

pub open spec fn incb_chunk_21() -> Seq<SRange> {
    seq![(0x1A60int, 0x1A60int), (0x1A62int, 0x1A62int), (0x1A65int, 0x1A6Cint), (0x1A73int, 0x1A7Cint), (0x1A7Fint, 0x1A7Fint), (0x1AB0int, 0x1ACEint), (0x1B00int, 0x1B03int), (0x1B34int, 0x1B3Dint)]
}

pub open spec fn incb_chunk_22() -> Seq<SRange> {
    seq![(0x1B42int, 0x1B44int), (0x1B6Bint, 0x1B73int), (0x1B80int, 0x1B81int), (0x1BA2int, 0x1BA5int), (0x1BA8int, 0x1BADint), (0x1BE6int, 0x1BE6int), (0x1BE8int, 0x1BE9int), (0x1BEDint, 0x1BEDint)]
}

pub open spec fn incb_chunk_23() -> Seq<SRange> {
    seq![(0x1BEFint, 0x1BF3int), (0x1C2Cint, 0x1C33int), (0x1C36int, 0x1C37int), (0x1CD0int, 0x1CD2int), (0x1CD4int, 0x1CE0int), (0x1CE2int, 0x1CE8int), (0x1CEDint, 0x1CEDint), (0x1CF4int, 0x1CF4int)]
}

pub open spec fn incb_chunk_24() -> Seq<SRange> {
    seq![(0x1CF8int, 0x1CF9int), (0x1DC0int, 0x1DFFint), (0x200Dint, 0x200Dint), (0x20D0int, 0x20F0int), (0x2CEFint, 0x2CF1int), (0x2D7Fint, 0x2D7Fint), (0x2DE0int, 0x2DFFint), (0x302Aint, 0x302Fint)]
}

pub open spec fn incb_chunk_25() -> Seq<SRange> {
    seq![(0x3099int, 0x309Aint), (0xA66Fint, 0xA672int), (0xA674int, 0xA67Dint), (0xA69Eint, 0xA69Fint), (0xA6F0int, 0xA6F1int), (0xA802int, 0xA802int), (0xA806int, 0xA806int), (0xA80Bint, 0xA80Bint)]
}

pub open spec fn incb_chunk_26() -> Seq<SRange> {
    seq![(0xA825int, 0xA826int), (0xA82Cint, 0xA82Cint), (0xA8C4int, 0xA8C5int), (0xA8E0int, 0xA8F1int), (0xA8FFint, 0xA8FFint), (0xA926int, 0xA92Dint), (0xA947int, 0xA951int), (0xA953int, 0xA953int)]
}

pub open spec fn incb_chunk_27() -> Seq<SRange> {
    seq![(0xA980int, 0xA982int), (0xA9B3int, 0xA9B3int), (0xA9B6int, 0xA9B9int), (0xA9BCint, 0xA9BDint), (0xA9C0int, 0xA9C0int), (0xA9E5int, 0xA9E5int), (0xAA29int, 0xAA2Eint), (0xAA31int, 0xAA32int)]
}

pub open spec fn incb_chunk_28() -> Seq<SRange> {
    seq![(0xAA35int, 0xAA36int), (0xAA43int, 0xAA43int), (0xAA4Cint, 0xAA4Cint), (0xAA7Cint, 0xAA7Cint), (0xAAB0int, 0xAAB0int), (0xAAB2int, 0xAAB4int), (0xAAB7int, 0xAAB8int), (0xAABEint, 0xAABFint)]
}

pub open spec fn incb_chunk_29() -> Seq<SRange> {
    seq![(0xAAC1int, 0xAAC1int), (0xAAECint, 0xAAEDint), (0xAAF6int, 0xAAF6int), (0xABE5int, 0xABE5int), (0xABE8int, 0xABE8int), (0xABEDint, 0xABEDint), (0xFB1Eint, 0xFB1Eint), (0xFE00int, 0xFE0Fint)]
}

pub open spec fn incb_chunk_30() -> Seq<SRange> {
    seq![(0xFE20int, 0xFE2Fint), (0xFF9Eint, 0xFF9Fint), (0x101FDint, 0x101FDint), (0x102E0int, 0x102E0int), (0x10376int, 0x1037Aint), (0x10A01int, 0x10A03int), (0x10A05int, 0x10A06int), (0x10A0Cint, 0x10A0Fint)]
}

pub open spec fn incb_chunk_31() -> Seq<SRange> {
    seq![(0x10A38int, 0x10A3Aint), (0x10A3Fint, 0x10A3Fint), (0x10AE5int, 0x10AE6int), (0x10D24int, 0x10D27int), (0x10D69int, 0x10D6Dint), (0x10EABint, 0x10EACint), (0x10EFCint, 0x10EFFint), (0x10F46int, 0x10F50int)]
}

pub open spec fn incb_chunk_32() -> Seq<SRange> {
    seq![(0x10F82int, 0x10F85int), (0x11001int, 0x11001int), (0x11038int, 0x11046int), (0x11070int, 0x11070int), (0x11073int, 0x11074int), (0x1107Fint, 0x11081int), (0x110B3int, 0x110B6int), (0x110B9int, 0x110BAint)]
}

pub open spec fn incb_chunk_33() -> Seq<SRange> {
    seq![(0x110C2int, 0x110C2int), (0x11100int, 0x11102int), (0x11127int, 0x1112Bint), (0x1112Dint, 0x11134int), (0x11173int, 0x11173int), (0x11180int, 0x11181int), (0x111B6int, 0x111BEint), (0x111C0int, 0x111C0int)]
}

pub open spec fn incb_chunk_34() -> Seq<SRange> {
    seq![(0x111C9int, 0x111CCint), (0x111CFint, 0x111CFint), (0x1122Fint, 0x11231int), (0x11234int, 0x11237int), (0x1123Eint, 0x1123Eint), (0x11241int, 0x11241int), (0x112DFint, 0x112DFint), (0x112E3int, 0x112EAint)]
}

pub open spec fn incb_chunk_35() -> Seq<SRange> {
    seq![(0x11300int, 0x11301int), (0x1133Bint, 0x1133Cint), (0x1133Eint, 0x1133Eint), (0x11340int, 0x11340int), (0x1134Dint, 0x1134Dint), (0x11357int, 0x11357int), (0x11366int, 0x1136Cint), (0x11370int, 0x11374int)]
}

pub open spec fn incb_chunk_36() -> Seq<SRange> {
    seq![(0x113B8int, 0x113B8int), (0x113BBint, 0x113C0int), (0x113C2int, 0x113C2int), (0x113C5int, 0x113C5int), (0x113C7int, 0x113C9int), (0x113CEint, 0x113D0int), (0x113D2int, 0x113D2int), (0x113E1int, 0x113E2int)]
}

pub open spec fn incb_chunk_37() -> Seq<SRange> {
    seq![(0x11438int, 0x1143Fint), (0x11442int, 0x11444int), (0x11446int, 0x11446int), (0x1145Eint, 0x1145Eint), (0x114B0int, 0x114B0int), (0x114B3int, 0x114B8int), (0x114BAint, 0x114BAint), (0x114BDint, 0x114BDint)]
}

pub open spec fn incb_chunk_38() -> Seq<SRange> {
    seq![(0x114BFint, 0x114C0int), (0x114C2int, 0x114C3int), (0x115AFint, 0x115AFint), (0x115B2int, 0x115B5int), (0x115BCint, 0x115BDint), (0x115BFint, 0x115C0int), (0x115DCint, 0x115DDint), (0x11633int, 0x1163Aint)]
}

pub open spec fn incb_chunk_39() -> Seq<SRange> {
    seq![(0x1163Dint, 0x1163Dint), (0x1163Fint, 0x11640int), (0x116ABint, 0x116ABint), (0x116ADint, 0x116ADint), (0x116B0int, 0x116B7int), (0x1171Dint, 0x1171Dint), (0x1171Fint, 0x1171Fint), (0x11722int, 0x11725int)]
}

pub open spec fn incb_chunk_40() -> Seq<SRange> {
    seq![(0x11727int, 0x1172Bint), (0x1182Fint, 0x11837int), (0x11839int, 0x1183Aint), (0x11930int, 0x11930int), (0x1193Bint, 0x1193Eint), (0x11943int, 0x11943int), (0x119D4int, 0x119D7int), (0x119DAint, 0x119DBint)]
}

pub open spec fn incb_chunk_41() -> Seq<SRange> {
    seq![(0x119E0int, 0x119E0int), (0x11A01int, 0x11A0Aint), (0x11A33int, 0x11A38int), (0x11A3Bint, 0x11A3Eint), (0x11A47int, 0x11A47int), (0x11A51int, 0x11A56int), (0x11A59int, 0x11A5Bint), (0x11A8Aint, 0x11A96int)]
}

pub open spec fn incb_chunk_42() -> Seq<SRange> {
    seq![(0x11A98int, 0x11A99int), (0x11C30int, 0x11C36int), (0x11C38int, 0x11C3Dint), (0x11C3Fint, 0x11C3Fint), (0x11C92int, 0x11CA7int), (0x11CAAint, 0x11CB0int), (0x11CB2int, 0x11CB3int), (0x11CB5int, 0x11CB6int)]
}

pub open spec fn incb_chunk_43() -> Seq<SRange> {
    seq![(0x11D31int, 0x11D36int), (0x11D3Aint, 0x11D3Aint), (0x11D3Cint, 0x11D3Dint), (0x11D3Fint, 0x11D45int), (0x11D47int, 0x11D47int), (0x11D90int, 0x11D91int), (0x11D95int, 0x11D95int), (0x11D97int, 0x11D97int)]
}

pub open spec fn incb_chunk_44() -> Seq<SRange> {
    seq![(0x11EF3int, 0x11EF4int), (0x11F00int, 0x11F01int), (0x11F36int, 0x11F3Aint), (0x11F40int, 0x11F42int), (0x11F5Aint, 0x11F5Aint), (0x13440int, 0x13440int), (0x13447int, 0x13455int), (0x1611Eint, 0x16129int)]
}

pub open spec fn incb_chunk_45() -> Seq<SRange> {
    seq![(0x1612Dint, 0x1612Fint), (0x16AF0int, 0x16AF4int), (0x16B30int, 0x16B36int), (0x16F4Fint, 0x16F4Fint), (0x16F8Fint, 0x16F92int), (0x16FE4int, 0x16FE4int), (0x16FF0int, 0x16FF1int), (0x1BC9Dint, 0x1BC9Eint)]
}

pub open spec fn incb_chunk_46() -> Seq<SRange> {
    seq![(0x1CF00int, 0x1CF2Dint), (0x1CF30int, 0x1CF46int), (0x1D165int, 0x1D169int), (0x1D16Dint, 0x1D172int), (0x1D17Bint, 0x1D182int), (0x1D185int, 0x1D18Bint), (0x1D1AAint, 0x1D1ADint), (0x1D242int, 0x1D244int)]
}

pub open spec fn incb_chunk_47() -> Seq<SRange> {
    seq![(0x1DA00int, 0x1DA36int), (0x1DA3Bint, 0x1DA6Cint), (0x1DA75int, 0x1DA75int), (0x1DA84int, 0x1DA84int), (0x1DA9Bint, 0x1DA9Fint), (0x1DAA1int, 0x1DAAFint), (0x1E000int, 0x1E006int), (0x1E008int, 0x1E018int)]
}

pub open spec fn incb_chunk_48() -> Seq<SRange> {
    seq![(0x1E01Bint, 0x1E021int), (0x1E023int, 0x1E024int), (0x1E026int, 0x1E02Aint), (0x1E08Fint, 0x1E08Fint), (0x1E130int, 0x1E136int), (0x1E2AEint, 0x1E2AEint), (0x1E2ECint, 0x1E2EFint), (0x1E4ECint, 0x1E4EFint)]
}

pub open spec fn incb_chunk_49() -> Seq<SRange> {
    seq![(0x1E5EEint, 0x1E5EFint), (0x1E8D0int, 0x1E8D6int), (0x1E944int, 0x1E94Aint), (0x1F3FBint, 0x1F3FFint), (0xE0020int, 0xE007Fint), (0xE0100int, 0xE01EFint)]
}

pub open spec fn incb_block_0() -> Seq<SRange> {
    incb_chunk_0() + incb_chunk_1() + incb_chunk_2() + incb_chunk_3() + incb_chunk_4() + incb_chunk_5() + incb_chunk_6() + incb_chunk_7() + incb_chunk_8() + incb_chunk_9()
}

pub open spec fn incb_block_1() -> Seq<SRange> {
    incb_chunk_10() + incb_chunk_11() + incb_chunk_12() + incb_chunk_13() + incb_chunk_14() + incb_chunk_15() + incb_chunk_16() + incb_chunk_17() + incb_chunk_18() + incb_chunk_19()
}

pub open spec fn incb_block_2() -> Seq<SRange> {
    incb_chunk_20() + incb_chunk_21() + incb_chunk_22() + incb_chunk_23() + incb_chunk_24() + incb_chunk_25() + incb_chunk_26() + incb_chunk_27() + incb_chunk_28() + incb_chunk_29()
}

pub open spec fn incb_block_3() -> Seq<SRange> {
    incb_chunk_30() + incb_chunk_31() + incb_chunk_32() + incb_chunk_33() + incb_chunk_34() + incb_chunk_35() + incb_chunk_36() + incb_chunk_37() + incb_chunk_38() + incb_chunk_39()
}

pub open spec fn incb_block_4() -> Seq<SRange> {
    incb_chunk_40() + incb_chunk_41() + incb_chunk_42() + incb_chunk_43() + incb_chunk_44() + incb_chunk_45() + incb_chunk_46() + incb_chunk_47() + incb_chunk_48() + incb_chunk_49()
}

/// The ranges of the property InCB.
pub open spec fn incb_ranges() -> Seq<SRange> {
    incb_block_0() + incb_block_1() + incb_block_2() + incb_block_3() + incb_block_4()
}

proof fn lemma_incb_block_0()
    ensures
        canonical(incb_block_0()),
        incb_block_0().len() > 0,
        incb_block_0()[0] == incb_chunk_0()[0],
        incb_block_0().last() == incb_chunk_9().last(),
{
    reveal_with_fuel(canonical, 9);
    assert(canonical(incb_chunk_0()));
    assert(canonical(incb_chunk_1()));
    assert(canonical(incb_chunk_2()));
    assert(canonical(incb_chunk_3()));
    assert(canonical(incb_chunk_4()));
    assert(canonical(incb_chunk_5()));
    assert(canonical(incb_chunk_6()));
    assert(canonical(incb_chunk_7()));
    assert(canonical(incb_chunk_8()));
    assert(canonical(incb_chunk_9()));
    lemma_canonical_append(incb_chunk_0(), incb_chunk_1());
    lemma_canonical_append(incb_chunk_0() + incb_chunk_1(), incb_chunk_2());
    lemma_canonical_append(incb_chunk_0() + incb_chunk_1() + incb_chunk_2(), incb_chunk_3());
    lemma_canonical_append(incb_chunk_0() + incb_chunk_1() + incb_chunk_2() + incb_chunk_3(), incb_chunk_4());
    lemma_canonical_append(incb_chunk_0() + incb_chunk_1() + incb_chunk_2() + incb_chunk_3() + incb_chunk_4(), incb_chunk_5());
    lemma_canonical_append(incb_chunk_0() + incb_chunk_1() + incb_chunk_2() + incb_chunk_3() + incb_chunk_4() + incb_chunk_5(), incb_chunk_6());
    lemma_canonical_append(incb_chunk_0() + incb_chunk_1() + incb_chunk_2() + incb_chunk_3() + incb_chunk_4() + incb_chunk_5() + incb_chunk_6(), incb_chunk_7());
    lemma_canonical_append(incb_chunk_0() + incb_chunk_1() + incb_chunk_2() + incb_chunk_3() + incb_chunk_4() + incb_chunk_5() + incb_chunk_6() + incb_chunk_7(), incb_chunk_8());
    lemma_canonical_append(incb_chunk_0() + incb_chunk_1() + incb_chunk_2() + incb_chunk_3() + incb_chunk_4() + incb_chunk_5() + incb_chunk_6() + incb_chunk_7() + incb_chunk_8(), incb_chunk_9());
}

proof fn lemma_incb_block_1()
    ensures
        canonical(incb_block_1()),
        incb_block_1().len() > 0,
        incb_block_1()[0] == incb_chunk_10()[0],
        incb_block_1().last() == incb_chunk_19().last(),
{
    reveal_with_fuel(canonical, 9);
    assert(canonical(incb_chunk_10()));
    assert(canonical(incb_chunk_11()));
    assert(canonical(incb_chunk_12()));
    assert(canonical(incb_chunk_13()));
    assert(canonical(incb_chunk_14()));
    assert(canonical(incb_chunk_15()));
    assert(canonical(incb_chunk_16()));
    assert(canonical(incb_chunk_17()));
    assert(canonical(incb_chunk_18()));
    assert(canonical(incb_chunk_19()));
    lemma_canonical_append(incb_chunk_10(), incb_chunk_11());
    lemma_canonical_append(incb_chunk_10() + incb_chunk_11(), incb_chunk_12());
    lemma_canonical_append(incb_chunk_10() + incb_chunk_11() + incb_chunk_12(), incb_chunk_13());
    lemma_canonical_append(incb_chunk_10() + incb_chunk_11() + incb_chunk_12() + incb_chunk_13(), incb_chunk_14());
    lemma_canonical_append(incb_chunk_10() + incb_chunk_11() + incb_chunk_12() + incb_chunk_13() + incb_chunk_14(), incb_chunk_15());
    lemma_canonical_append(incb_chunk_10() + incb_chunk_11() + incb_chunk_12() + incb_chunk_13() + incb_chunk_14() + incb_chunk_15(), incb_chunk_16());
    lemma_canonical_append(incb_chunk_10() + incb_chunk_11() + incb_chunk_12() + incb_chunk_13() + incb_chunk_14() + incb_chunk_15() + incb_chunk_16(), incb_chunk_17());
    lemma_canonical_append(incb_chunk_10() + incb_chunk_11() + incb_chunk_12() + incb_chunk_13() + incb_chunk_14() + incb_chunk_15() + incb_chunk_16() + incb_chunk_17(), incb_chunk_18());
    lemma_canonical_append(incb_chunk_10() + incb_chunk_11() + incb_chunk_12() + incb_chunk_13() + incb_chunk_14() + incb_chunk_15() + incb_chunk_16() + incb_chunk_17() + incb_chunk_18(), incb_chunk_19());
}

proof fn lemma_incb_block_2()
    ensures
        canonical(incb_block_2()),
        incb_block_2().len() > 0,
        incb_block_2()[0] == incb_chunk_20()[0],
        incb_block_2().last() == incb_chunk_29().last(),
{
    reveal_with_fuel(canonical, 9);
    assert(canonical(incb_chunk_20()));
    assert(canonical(incb_chunk_21()));
    assert(canonical(incb_chunk_22()));
    assert(canonical(incb_chunk_23()));
    assert(canonical(incb_chunk_24()));
    assert(canonical(incb_chunk_25()));
    assert(canonical(incb_chunk_26()));
    assert(canonical(incb_chunk_27()));
    assert(canonical(incb_chunk_28()));
    assert(canonical(incb_chunk_29()));
    lemma_canonical_append(incb_chunk_20(), incb_chunk_21());
    lemma_canonical_append(incb_chunk_20() + incb_chunk_21(), incb_chunk_22());
    lemma_canonical_append(incb_chunk_20() + incb_chunk_21() + incb_chunk_22(), incb_chunk_23());
    lemma_canonical_append(incb_chunk_20() + incb_chunk_21() + incb_chunk_22() + incb_chunk_23(), incb_chunk_24());
    lemma_canonical_append(incb_chunk_20() + incb_chunk_21() + incb_chunk_22() + incb_chunk_23() + incb_chunk_24(), incb_chunk_25());
    lemma_canonical_append(incb_chunk_20() + incb_chunk_21() + incb_chunk_22() + incb_chunk_23() + incb_chunk_24() + incb_chunk_25(), incb_chunk_26());
    lemma_canonical_append(incb_chunk_20() + incb_chunk_21() + incb_chunk_22() + incb_chunk_23() + incb_chunk_24() + incb_chunk_25() + incb_chunk_26(), incb_chunk_27());
    lemma_canonical_append(incb_chunk_20() + incb_chunk_21() + incb_chunk_22() + incb_chunk_23() + incb_chunk_24() + incb_chunk_25() + incb_chunk_26() + incb_chunk_27(), incb_chunk_28());
    lemma_canonical_append(incb_chunk_20() + incb_chunk_21() + incb_chunk_22() + incb_chunk_23() + incb_chunk_24() + incb_chunk_25() + incb_chunk_26() + incb_chunk_27() + incb_chunk_28(), incb_chunk_29());
}

proof fn lemma_incb_block_3()
    ensures
        canonical(incb_block_3()),
        incb_block_3().len() > 0,
        incb_block_3()[0] == incb_chunk_30()[0],
        incb_block_3().last() == incb_chunk_39().last(),
{
    reveal_with_fuel(canonical, 9);
    assert(canonical(incb_chunk_30()));
    assert(canonical(incb_chunk_31()));
    assert(canonical(incb_chunk_32()));
    assert(canonical(incb_chunk_33()));
    assert(canonical(incb_chunk_34()));
    assert(canonical(incb_chunk_35()));
    assert(canonical(incb_chunk_36()));
    assert(canonical(incb_chunk_37()));
    assert(canonical(incb_chunk_38()));
    assert(canonical(incb_chunk_39()));
    lemma_canonical_append(incb_chunk_30(), incb_chunk_31());
    lemma_canonical_append(incb_chunk_30() + incb_chunk_31(), incb_chunk_32());
    lemma_canonical_append(incb_chunk_30() + incb_chunk_31() + incb_chunk_32(), incb_chunk_33());
    lemma_canonical_append(incb_chunk_30() + incb_chunk_31() + incb_chunk_32() + incb_chunk_33(), incb_chunk_34());
    lemma_canonical_append(incb_chunk_30() + incb_chunk_31() + incb_chunk_32() + incb_chunk_33() + incb_chunk_34(), incb_chunk_35());
    lemma_canonical_append(incb_chunk_30() + incb_chunk_31() + incb_chunk_32() + incb_chunk_33() + incb_chunk_34() + incb_chunk_35(), incb_chunk_36());
    lemma_canonical_append(incb_chunk_30() + incb_chunk_31() + incb_chunk_32() + incb_chunk_33() + incb_chunk_34() + incb_chunk_35() + incb_chunk_36(), incb_chunk_37());
    lemma_canonical_append(incb_chunk_30() + incb_chunk_31() + incb_chunk_32() + incb_chunk_33() + incb_chunk_34() + incb_chunk_35() + incb_chunk_36() + incb_chunk_37(), incb_chunk_38());
    lemma_canonical_append(incb_chunk_30() + incb_chunk_31() + incb_chunk_32() + incb_chunk_33() + incb_chunk_34() + incb_chunk_35() + incb_chunk_36() + incb_chunk_37() + incb_chunk_38(), incb_chunk_39());
}

proof fn lemma_incb_block_4()
    ensures
        canonical(incb_block_4()),
        incb_block_4().len() > 0,
        incb_block_4()[0] == incb_chunk_40()[0],
        incb_block_4().last() == incb_chunk_49().last(),
{
    reveal_with_fuel(canonical, 9);
    assert(canonical(incb_chunk_40()));
    assert(canonical(incb_chunk_41()));
    assert(canonical(incb_chunk_42()));
    assert(canonical(incb_chunk_43()));
    assert(canonical(incb_chunk_44()));
    assert(canonical(incb_chunk_45()));
    assert(canonical(incb_chunk_46()));
    assert(canonical(incb_chunk_47()));
    assert(canonical(incb_chunk_48()));
    assert(canonical(incb_chunk_49()));
    lemma_canonical_append(incb_chunk_40(), incb_chunk_41());
    lemma_canonical_append(incb_chunk_40() + incb_chunk_41(), incb_chunk_42());
    lemma_canonical_append(incb_chunk_40() + incb_chunk_41() + incb_chunk_42(), incb_chunk_43());
    lemma_canonical_append(incb_chunk_40() + incb_chunk_41() + incb_chunk_42() + incb_chunk_43(), incb_chunk_44());
    lemma_canonical_append(incb_chunk_40() + incb_chunk_41() + incb_chunk_42() + incb_chunk_43() + incb_chunk_44(), incb_chunk_45());
    lemma_canonical_append(incb_chunk_40() + incb_chunk_41() + incb_chunk_42() + incb_chunk_43() + incb_chunk_44() + incb_chunk_45(), incb_chunk_46());
    lemma_canonical_append(incb_chunk_40() + incb_chunk_41() + incb_chunk_42() + incb_chunk_43() + incb_chunk_44() + incb_chunk_45() + incb_chunk_46(), incb_chunk_47());
    lemma_canonical_append(incb_chunk_40() + incb_chunk_41() + incb_chunk_42() + incb_chunk_43() + incb_chunk_44() + incb_chunk_45() + incb_chunk_46() + incb_chunk_47(), incb_chunk_48());
    lemma_canonical_append(incb_chunk_40() + incb_chunk_41() + incb_chunk_42() + incb_chunk_43() + incb_chunk_44() + incb_chunk_45() + incb_chunk_46() + incb_chunk_47() + incb_chunk_48(), incb_chunk_49());
}

pub proof fn lemma_incb_canonical()
    ensures
        canonical(incb_ranges()),
{
    lemma_incb_block_0();
    lemma_incb_block_1();
    lemma_incb_block_2();
    lemma_incb_block_3();
    lemma_incb_block_4();
    lemma_canonical_append(incb_block_0(), incb_block_1());
    lemma_canonical_append(incb_block_0() + incb_block_1(), incb_block_2());
    lemma_canonical_append(incb_block_0() + incb_block_1() + incb_block_2(), incb_block_3());
    lemma_canonical_append(incb_block_0() + incb_block_1() + incb_block_2() + incb_block_3(), incb_block_4());
}

fn push_incb_chunk_0(v: &mut Vec<ClassUnicodeRange>)
    ensures
        rview(final(v)@) == rview(old(v)@) + incb_chunk_0(),
{
    let ghost o = rview(v@);
    push_range(v, '\u{300}', '\u{36F}');
    push_range(v, '\u{483}', '\u{489}');
    push_range(v, '\u{591}', '\u{5BD}');
    push_range(v, '\u{5BF}', '\u{5BF}');
    push_range(v, '\u{5C1}', '\u{5C2}');
    push_range(v, '\u{5C4}', '\u{5C5}');
    push_range(v, '\u{5C7}', '\u{5C7}');
    push_range(v, '\u{610}', '\u{61A}');
    assert(rview(v@) =~= o + incb_chunk_0());
}

fn push_incb_chunk_1(v: &mut Vec<ClassUnicodeRange>)
    ensures
        rview(final(v)@) == rview(old(v)@) + incb_chunk_1(),
{
    let ghost o = rview(v@);
    push_range(v, '\u{64B}', '\u{65F}');
    push_range(v, '\u{670}', '\u{670}');
    push_range(v, '\u{6D6}', '\u{6DC}');
    push_range(v, '\u{6DF}', '\u{6E4}');
    push_range(v, '\u{6E7}', '\u{6E8}');
    push_range(v, '\u{6EA}', '\u{6ED}');
    push_range(v, '\u{711}', '\u{711}');
    push_range(v, '\u{730}', '\u{74A}');
    assert(rview(v@) =~= o + incb_chunk_1());
}

fn push_incb_chunk_2(v: &mut Vec<ClassUnicodeRange>)
    ensures
        rview(final(v)@) == rview(old(v)@) + incb_chunk_2(),
{
    let ghost o = rview(v@);
    push_range(v, '\u{7A6}', '\u{7B0}');
    push_range(v, '\u{7EB}', '\u{7F3}');
    push_range(v, '\u{7FD}', '\u{7FD}');
    push_range(v, '\u{816}', '\u{819}');
    push_range(v, '\u{81B}', '\u{823}');
    push_range(v, '\u{825}', '\u{827}');
    push_range(v, '\u{829}', '\u{82D}');
    push_range(v, '\u{859}', '\u{85B}');
    assert(rview(v@) =~= o + incb_chunk_2());
}

fn push_incb_chunk_3(v: &mut Vec<ClassUnicodeRange>)
    ensures
        rview(final(v)@) == rview(old(v)@) + incb_chunk_3(),
{
    let ghost o = rview(v@);
    push_range(v, '\u{897}', '\u{89F}');
    push_range(v, '\u{8CA}', '\u{8E1}');
    push_range(v, '\u{8E3}', '\u{902}');
    push_range(v, '\u{915}', '\u{93A}');
    push_range(v, '\u{93C}', '\u{93C}');
    push_range(v, '\u{941}', '\u{948}');
    push_range(v, '\u{94D}', '\u{94D}');
    push_range(v, '\u{951}', '\u{95F}');
    assert(rview(v@) =~= o + incb_chunk_3());
}

fn push_incb_chunk_4(v: &mut Vec<ClassUnicodeRange>)
    ensures
        rview(final(v)@) == rview(old(v)@) + incb_chunk_4(),
{
    let ghost o = rview(v@);
    push_range(v, '\u{962}', '\u{963}');
    push_range(v, '\u{978}', '\u{97F}');
    push_range(v, '\u{981}', '\u{981}');
    push_range(v, '\u{995}', '\u{9A8}');
    push_range(v, '\u{9AA}', '\u{9B0}');
    push_range(v, '\u{9B2}', '\u{9B2}');
    push_range(v, '\u{9B6}', '\u{9B9}');
    push_range(v, '\u{9BC}', '\u{9BC}');
    assert(rview(v@) =~= o + incb_chunk_4());
}

fn push_incb_chunk_5(v: &mut Vec<ClassUnicodeRange>)
    ensures
        rview(final(v)@) == rview(old(v)@) + incb_chunk_5(),
{
    let ghost o = rview(v@);
    push_range(v, '\u{9BE}', '\u{9BE}');
    push_range(v, '\u{9C1}', '\u{9C4}');
    push_range(v, '\u{9CD}', '\u{9CD}');
    push_range(v, '\u{9D7}', '\u{9D7}');
    push_range(v, '\u{9DC}', '\u{9DD}');
    push_range(v, '\u{9DF}', '\u{9DF}');
    push_range(v, '\u{9E2}', '\u{9E3}');
    push_range(v, '\u{9F0}', '\u{9F1}');
    assert(rview(v@) =~= o + incb_chunk_5());
}

fn push_incb_chunk_6(v: &mut Vec<ClassUnicodeRange>)
    ensures
        rview(final(v)@) == rview(old(v)@) + incb_chunk_6(),
{
    let ghost o = rview(v@);
    push_range(v, '\u{9FE}', '\u{9FE}');
    push_range(v, '\u{A01}', '\u{A02}');
    push_range(v, '\u{A3C}', '\u{A3C}');
    push_range(v, '\u{A41}', '\u{A42}');
    push_range(v, '\u{A47}', '\u{A48}');
    push_range(v, '\u{A4B}', '\u{A4D}');
    push_range(v, '\u{A51}', '\u{A51}');
    push_range(v, '\u{A70}', '\u{A71}');
    assert(rview(v@) =~= o + incb_chunk_6());
}

fn push_incb_chunk_7(v: &mut Vec<ClassUnicodeRange>)
    ensures
        rview(final(v)@) == rview(old(v)@) + incb_chunk_7(),
{
    let ghost o = rview(v@);
    push_range(v, '\u{A75}', '\u{A75}');
    push_range(v, '\u{A81}', '\u{A82}');
    push_range(v, '\u{A95}', '\u{AA8}');
    push_range(v, '\u{AAA}', '\u{AB0}');
    push_range(v, '\u{AB2}', '\u{AB3}');
    push_range(v, '\u{AB5}', '\u{AB9}');
    push_range(v, '\u{ABC}', '\u{ABC}');
    push_range(v, '\u{AC1}', '\u{AC5}');
    assert(rview(v@) =~= o + incb_chunk_7());
}

fn push_incb_chunk_8(v: &mut Vec<ClassUnicodeRange>)
    ensures
        rview(final(v)@) == rview(old(v)@) + incb_chunk_8(),
{
    let ghost o = rview(v@);
    push_range(v, '\u{AC7}', '\u{AC8}');
    push_range(v, '\u{ACD}', '\u{ACD}');
    push_range(v, '\u{AE2}', '\u{AE3}');
    push_range(v, '\u{AF9}', '\u{AFF}');
    push_range(v, '\u{B01}', '\u{B01}');
    push_range(v, '\u{B15}', '\u{B28}');
    push_range(v, '\u{B2A}', '\u{B30}');
    push_range(v, '\u{B32}', '\u{B33}');
    assert(rview(v@) =~= o + incb_chunk_8());
}

fn push_incb_chunk_9(v: &mut Vec<ClassUnicodeRange>)
    ensures
        rview(final(v)@) == rview(old(v)@) + incb_chunk_9(),
{
    let ghost o = rview(v@);
    push_range(v, '\u{B35}', '\u{B39}');
    push_range(v, '\u{B3C}', '\u{B3C}');
    push_range(v, '\u{B3E}', '\u{B3F}');
    push_range(v, '\u{B41}', '\u{B44}');
    push_range(v, '\u{B4D}', '\u{B4D}');
    push_range(v, '\u{B55}', '\u{B57}');
    push_range(v, '\u{B5C}', '\u{B5D}');
    push_range(v, '\u{B5F}', '\u{B5F}');
    assert(rview(v@) =~= o + incb_chunk_9());
}

fn push_incb_chunk_10(v: &mut Vec<ClassUnicodeRange>)
    ensures
        rview(final(v)@) == rview(old(v)@) + incb_chunk_10(),
{
    let ghost o = rview(v@);
    push_range(v, '\u{B62}', '\u{B63}');
    push_range(v, '\u{B71}', '\u{B71}');
    push_range(v, '\u{B82}', '\u{B82}');
    push_range(v, '\u{BBE}', '\u{BBE}');
    push_range(v, '\u{BC0}', '\u{BC0}');
    push_range(v, '\u{BCD}', '\u{BCD}');
    push_range(v, '\u{BD7}', '\u{BD7}');
    push_range(v, '\u{C00}', '\u{C00}');
    assert(rview(v@) =~= o + incb_chunk_10());
}

fn push_incb_chunk_11(v: &mut Vec<ClassUnicodeRange>)
    ensures
        rview(final(v)@) == rview(old(v)@) + incb_chunk_11(),
{
    let ghost o = rview(v@);
    push_range(v, '\u{C04}', '\u{C04}');
    push_range(v, '\u{C15}', '\u{C28}');
    push_range(v, '\u{C2A}', '\u{C39}');
    push_range(v, '\u{C3C}', '\u{C3C}');
    push_range(v, '\u{C3E}', '\u{C40}');
    push_range(v, '\u{C46}', '\u{C48}');
    push_range(v, '\u{C4A}', '\u{C4D}');
    push_range(v, '\u{C55}', '\u{C56}');
    assert(rview(v@) =~= o + incb_chunk_11());
}

fn push_incb_chunk_12(v: &mut Vec<ClassUnicodeRange>)
    ensures
        rview(final(v)@) == rview(old(v)@) + incb_chunk_12(),
{
    let ghost o = rview(v@);
    push_range(v, '\u{C58}', '\u{C5A}');
    push_range(v, '\u{C62}', '\u{C63}');
    push_range(v, '\u{C81}', '\u{C81}');
    push_range(v, '\u{CBC}', '\u{CBC}');
    push_range(v, '\u{CBF}', '\u{CC0}');
    push_range(v, '\u{CC2}', '\u{CC2}');
    push_range(v, '\u{CC6}', '\u{CC8}');
    push_range(v, '\u{CCA}', '\u{CCD}');
    assert(rview(v@) =~= o + incb_chunk_12());
}

fn push_incb_chunk_13(v: &mut Vec<ClassUnicodeRange>)
    ensures
        rview(final(v)@) == rview(old(v)@) + incb_chunk_13(),
{
    let ghost o = rview(v@);
    push_range(v, '\u{CD5}', '\u{CD6}');
    push_range(v, '\u{CE2}', '\u{CE3}');
    push_range(v, '\u{D00}', '\u{D01}');
    push_range(v, '\u{D15}', '\u{D3C}');
    push_range(v, '\u{D3E}', '\u{D3E}');
    push_range(v, '\u{D41}', '\u{D44}');
    push_range(v, '\u{D4D}', '\u{D4D}');
    push_range(v, '\u{D57}', '\u{D57}');
    assert(rview(v@) =~= o + incb_chunk_13());
}

fn push_incb_chunk_14(v: &mut Vec<ClassUnicodeRange>)
    ensures
        rview(final(v)@) == rview(old(v)@) + incb_chunk_14(),
{
    let ghost o = rview(v@);
    push_range(v, '\u{D62}', '\u{D63}');
    push_range(v, '\u{D81}', '\u{D81}');
    push_range(v, '\u{DCA}', '\u{DCA}');
    push_range(v, '\u{DCF}', '\u{DCF}');
    push_range(v, '\u{DD2}', '\u{DD4}');
    push_range(v, '\u{DD6}', '\u{DD6}');
    push_range(v, '\u{DDF}', '\u{DDF}');
    push_range(v, '\u{E31}', '\u{E31}');
    assert(rview(v@) =~= o + incb_chunk_14());
}

fn push_incb_chunk_15(v: &mut Vec<ClassUnicodeRange>)
    ensures
        rview(final(v)@) == rview(old(v)@) + incb_chunk_15(),
{
    let ghost o = rview(v@);
    push_range(v, '\u{E34}', '\u{E3A}');
    push_range(v, '\u{E47}', '\u{E4E}');
    push_range(v, '\u{EB1}', '\u{EB1}');
    push_range(v, '\u{EB4}', '\u{EBC}');
    push_range(v, '\u{EC8}', '\u{ECE}');
    push_range(v, '\u{F18}', '\u{F19}');
    push_range(v, '\u{F35}', '\u{F35}');
    push_range(v, '\u{F37}', '\u{F37}');
    assert(rview(v@) =~= o + incb_chunk_15());
}

fn push_incb_chunk_16(v: &mut Vec<ClassUnicodeRange>)
    ensures
        rview(final(v)@) == rview(old(v)@) + incb_chunk_16(),
{
    let ghost o = rview(v@);
    push_range(v, '\u{F39}', '\u{F39}');
    push_range(v, '\u{F71}', '\u{F7E}');
    push_range(v, '\u{F80}', '\u{F84}');
    push_range(v, '\u{F86}', '\u{F87}');
    push_range(v, '\u{F8D}', '\u{F97}');
    push_range(v, '\u{F99}', '\u{FBC}');
    push_range(v, '\u{FC6}', '\u{FC6}');
    push_range(v, '\u{102D}', '\u{1030}');
    assert(rview(v@) =~= o + incb_chunk_16());
}

fn push_incb_chunk_17(v: &mut Vec<ClassUnicodeRange>)
    ensures
        rview(final(v)@) == rview(old(v)@) + incb_chunk_17(),
{
    let ghost o = rview(v@);
    push_range(v, '\u{1032}', '\u{1037}');
    push_range(v, '\u{1039}', '\u{103A}');
    push_range(v, '\u{103D}', '\u{103E}');
    push_range(v, '\u{1058}', '\u{1059}');
    push_range(v, '\u{105E}', '\u{1060}');
    push_range(v, '\u{1071}', '\u{1074}');
    push_range(v, '\u{1082}', '\u{1082}');
    push_range(v, '\u{1085}', '\u{1086}');
    assert(rview(v@) =~= o + incb_chunk_17());
}

fn push_incb_chunk_18(v: &mut Vec<ClassUnicodeRange>)
    ensures
        rview(final(v)@) == rview(old(v)@) + incb_chunk_18(),
{
    let ghost o = rview(v@);
    push_range(v, '\u{108D}', '\u{108D}');
    push_range(v, '\u{109D}', '\u{109D}');
    push_range(v, '\u{135D}', '\u{135F}');
    push_range(v, '\u{1712}', '\u{1715}');
    push_range(v, '\u{1732}', '\u{1734}');
    push_range(v, '\u{1752}', '\u{1753}');
    push_range(v, '\u{1772}', '\u{1773}');
    push_range(v, '\u{17B4}', '\u{17B5}');
    assert(rview(v@) =~= o + incb_chunk_18());
}

fn push_incb_chunk_19(v: &mut Vec<ClassUnicodeRange>)
    ensures
        rview(final(v)@) == rview(old(v)@) + incb_chunk_19(),
{
    let ghost o = rview(v@);
    push_range(v, '\u{17B7}', '\u{17BD}');
    push_range(v, '\u{17C6}', '\u{17C6}');
    push_range(v, '\u{17C9}', '\u{17D3}');
    push_range(v, '\u{17DD}', '\u{17DD}');
    push_range(v, '\u{180B}', '\u{180D}');
    push_range(v, '\u{180F}', '\u{180F}');
    push_range(v, '\u{1885}', '\u{1886}');
    push_range(v, '\u{18A9}', '\u{18A9}');
    assert(rview(v@) =~= o + incb_chunk_19());
}

fn push_incb_chunk_20(v: &mut Vec<ClassUnicodeRange>)
    ensures
        rview(final(v)@) == rview(old(v)@) + incb_chunk_20(),
{
    let ghost o = rview(v@);
    push_range(v, '\u{1920}', '\u{1922}');
    push_range(v, '\u{1927}', '\u{1928}');
    push_range(v, '\u{1932}', '\u{1932}');
    push_range(v, '\u{1939}', '\u{193B}');
    push_range(v, '\u{1A17}', '\u{1A18}');
    push_range(v, '\u{1A1B}', '\u{1A1B}');
    push_range(v, '\u{1A56}', '\u{1A56}');
    push_range(v, '\u{1A58}', '\u{1A5E}');
    assert(rview(v@) =~= o + incb_chunk_20());
}

fn push_incb_chunk_21(v: &mut Vec<ClassUnicodeRange>)
    ensures
        rview(final(v)@) == rview(old(v)@) + incb_chunk_21(),
{
    let ghost o = rview(v@);
    push_range(v, '\u{1A60}', '\u{1A60}');
    push_range(v, '\u{1A62}', '\u{1A62}');
    push_range(v, '\u{1A65}', '\u{1A6C}');
    push_range(v, '\u{1A73}', '\u{1A7C}');
    push_range(v, '\u{1A7F}', '\u{1A7F}');
    push_range(v, '\u{1AB0}', '\u{1ACE}');
    push_range(v, '\u{1B00}', '\u{1B03}');
    push_range(v, '\u{1B34}', '\u{1B3D}');
    assert(rview(v@) =~= o + incb_chunk_21());
}

fn push_incb_chunk_22(v: &mut Vec<ClassUnicodeRange>)
    ensures
        rview(final(v)@) == rview(old(v)@) + incb_chunk_22(),
{
    let ghost o = rview(v@);
    push_range(v, '\u{1B42}', '\u{1B44}');
    push_range(v, '\u{1B6B}', '\u{1B73}');
    push_range(v, '\u{1B80}', '\u{1B81}');
    push_range(v, '\u{1BA2}', '\u{1BA5}');
    push_range(v, '\u{1BA8}', '\u{1BAD}');
    push_range(v, '\u{1BE6}', '\u{1BE6}');
    push_range(v, '\u{1BE8}', '\u{1BE9}');
    push_range(v, '\u{1BED}', '\u{1BED}');
    assert(rview(v@) =~= o + incb_chunk_22());
}

fn push_incb_chunk_23(v: &mut Vec<ClassUnicodeRange>)
    ensures
        rview(final(v)@) == rview(old(v)@) + incb_chunk_23(),
{
    let ghost o = rview(v@);
    push_range(v, '\u{1BEF}', '\u{1BF3}');
    push_range(v, '\u{1C2C}', '\u{1C33}');
    push_range(v, '\u{1C36}', '\u{1C37}');
    push_range(v, '\u{1CD0}', '\u{1CD2}');
    push_range(v, '\u{1CD4}', '\u{1CE0}');
    push_range(v, '\u{1CE2}', '\u{1CE8}');
    push_range(v, '\u{1CED}', '\u{1CED}');
    push_range(v, '\u{1CF4}', '\u{1CF4}');
    assert(rview(v@) =~= o + incb_chunk_23());
}

fn push_incb_chunk_24(v: &mut Vec<ClassUnicodeRange>)
    ensures
        rview(final(v)@) == rview(old(v)@) + incb_chunk_24(),
{
    let ghost o = rview(v@);
    push_range(v, '\u{1CF8}', '\u{1CF9}');
    push_range(v, '\u{1DC0}', '\u{1DFF}');
    push_range(v, '\u{200D}', '\u{200D}');
    push_range(v, '\u{20D0}', '\u{20F0}');
    push_range(v, '\u{2CEF}', '\u{2CF1}');
    push_range(v, '\u{2D7F}', '\u{2D7F}');
    push_range(v, '\u{2DE0}', '\u{2DFF}');
    push_range(v, '\u{302A}', '\u{302F}');
    assert(rview(v@) =~= o + incb_chunk_24());
}

fn push_incb_chunk_25(v: &mut Vec<ClassUnicodeRange>)
    ensures
        rview(final(v)@) == rview(old(v)@) + incb_chunk_25(),
{
    let ghost o = rview(v@);
    push_range(v, '\u{3099}', '\u{309A}');
    push_range(v, '\u{A66F}', '\u{A672}');
    push_range(v, '\u{A674}', '\u{A67D}');
    push_range(v, '\u{A69E}', '\u{A69F}');
    push_range(v, '\u{A6F0}', '\u{A6F1}');
    push_range(v, '\u{A802}', '\u{A802}');
    push_range(v, '\u{A806}', '\u{A806}');
    push_range(v, '\u{A80B}', '\u{A80B}');
    assert(rview(v@) =~= o + incb_chunk_25());
}

fn push_incb_chunk_26(v: &mut Vec<ClassUnicodeRange>)
    ensures
        rview(final(v)@) == rview(old(v)@) + incb_chunk_26(),
{
    let ghost o = rview(v@);
    push_range(v, '\u{A825}', '\u{A826}');
    push_range(v, '\u{A82C}', '\u{A82C}');
    push_range(v, '\u{A8C4}', '\u{A8C5}');
    push_range(v, '\u{A8E0}', '\u{A8F1}');
    push_range(v, '\u{A8FF}', '\u{A8FF}');
    push_range(v, '\u{A926}', '\u{A92D}');
    push_range(v, '\u{A947}', '\u{A951}');
    push_range(v, '\u{A953}', '\u{A953}');
    assert(rview(v@) =~= o + incb_chunk_26());
}

fn push_incb_chunk_27(v: &mut Vec<ClassUnicodeRange>)
    ensures
        rview(final(v)@) == rview(old(v)@) + incb_chunk_27(),
{
    let ghost o = rview(v@);
    push_range(v, '\u{A980}', '\u{A982}');
    push_range(v, '\u{A9B3}', '\u{A9B3}');
    push_range(v, '\u{A9B6}', '\u{A9B9}');
    push_range(v, '\u{A9BC}', '\u{A9BD}');
    push_range(v, '\u{A9C0}', '\u{A9C0}');
    push_range(v, '\u{A9E5}', '\u{A9E5}');
    push_range(v, '\u{AA29}', '\u{AA2E}');
    push_range(v, '\u{AA31}', '\u{AA32}');
    assert(rview(v@) =~= o + incb_chunk_27());
}

fn push_incb_chunk_28(v: &mut Vec<ClassUnicodeRange>)
    ensures
        rview(final(v)@) == rview(old(v)@) + incb_chunk_28(),
{
    let ghost o = rview(v@);
    push_range(v, '\u{AA35}', '\u{AA36}');
    push_range(v, '\u{AA43}', '\u{AA43}');
    push_range(v, '\u{AA4C}', '\u{AA4C}');
    push_range(v, '\u{AA7C}', '\u{AA7C}');
    push_range(v, '\u{AAB0}', '\u{AAB0}');
    push_range(v, '\u{AAB2}', '\u{AAB4}');
    push_range(v, '\u{AAB7}', '\u{AAB8}');
    push_range(v, '\u{AABE}', '\u{AABF}');
    assert(rview(v@) =~= o + incb_chunk_28());
}

fn push_incb_chunk_29(v: &mut Vec<ClassUnicodeRange>)
    ensures
        rview(final(v)@) == rview(old(v)@) + incb_chunk_29(),
{
    let ghost o = rview(v@);
    push_range(v, '\u{AAC1}', '\u{AAC1}');
    push_range(v, '\u{AAEC}', '\u{AAED}');
    push_range(v, '\u{AAF6}', '\u{AAF6}');
    push_range(v, '\u{ABE5}', '\u{ABE5}');
    push_range(v, '\u{ABE8}', '\u{ABE8}');
    push_range(v, '\u{ABED}', '\u{ABED}');
    push_range(v, '\u{FB1E}', '\u{FB1E}');
    push_range(v, '\u{FE00}', '\u{FE0F}');
    assert(rview(v@) =~= o + incb_chunk_29());
}

fn push_incb_chunk_30(v: &mut Vec<ClassUnicodeRange>)
    ensures
        rview(final(v)@) == rview(old(v)@) + incb_chunk_30(),
{
    let ghost o = rview(v@);
    push_range(v, '\u{FE20}', '\u{FE2F}');
    push_range(v, '\u{FF9E}', '\u{FF9F}');
    push_range(v, '\u{101FD}', '\u{101FD}');
    push_range(v, '\u{102E0}', '\u{102E0}');
    push_range(v, '\u{10376}', '\u{1037A}');
    push_range(v, '\u{10A01}', '\u{10A03}');
    push_range(v, '\u{10A05}', '\u{10A06}');
    push_range(v, '\u{10A0C}', '\u{10A0F}');
    assert(rview(v@) =~= o + incb_chunk_30());
}

fn push_incb_chunk_31(v: &mut Vec<ClassUnicodeRange>)
    ensures
        rview(final(v)@) == rview(old(v)@) + incb_chunk_31(),
{
    let ghost o = rview(v@);
    push_range(v, '\u{10A38}', '\u{10A3A}');
    push_range(v, '\u{10A3F}', '\u{10A3F}');
    push_range(v, '\u{10AE5}', '\u{10AE6}');
    push_range(v, '\u{10D24}', '\u{10D27}');
    push_range(v, '\u{10D69}', '\u{10D6D}');
    push_range(v, '\u{10EAB}', '\u{10EAC}');
    push_range(v, '\u{10EFC}', '\u{10EFF}');
    push_range(v, '\u{10F46}', '\u{10F50}');
    assert(rview(v@) =~= o + incb_chunk_31());
}

fn push_incb_chunk_32(v: &mut Vec<ClassUnicodeRange>)
    ensures
        rview(final(v)@) == rview(old(v)@) + incb_chunk_32(),
{
    let ghost o = rview(v@);
    push_range(v, '\u{10F82}', '\u{10F85}');
    push_range(v, '\u{11001}', '\u{11001}');
    push_range(v, '\u{11038}', '\u{11046}');
    push_range(v, '\u{11070}', '\u{11070}');
    push_range(v, '\u{11073}', '\u{11074}');
    push_range(v, '\u{1107F}', '\u{11081}');
    push_range(v, '\u{110B3}', '\u{110B6}');
    push_range(v, '\u{110B9}', '\u{110BA}');
    assert(rview(v@) =~= o + incb_chunk_32());
}

fn push_incb_chunk_33(v: &mut Vec<ClassUnicodeRange>)
    ensures
        rview(final(v)@) == rview(old(v)@) + incb_chunk_33(),
{
    let ghost o = rview(v@);
    push_range(v, '\u{110C2}', '\u{110C2}');
    push_range(v, '\u{11100}', '\u{11102}');
    push_range(v, '\u{11127}', '\u{1112B}');
    push_range(v, '\u{1112D}', '\u{11134}');
    push_range(v, '\u{11173}', '\u{11173}');
    push_range(v, '\u{11180}', '\u{11181}');
    push_range(v, '\u{111B6}', '\u{111BE}');
    push_range(v, '\u{111C0}', '\u{111C0}');
    assert(rview(v@) =~= o + incb_chunk_33());
}

fn push_incb_chunk_34(v: &mut Vec<ClassUnicodeRange>)
    ensures
        rview(final(v)@) == rview(old(v)@) + incb_chunk_34(),
{
    let ghost o = rview(v@);
    push_range(v, '\u{111C9}', '\u{111CC}');
    push_range(v, '\u{111CF}', '\u{111CF}');
    push_range(v, '\u{1122F}', '\u{11231}');
    push_range(v, '\u{11234}', '\u{11237}');
    push_range(v, '\u{1123E}', '\u{1123E}');
    push_range(v, '\u{11241}', '\u{11241}');
    push_range(v, '\u{112DF}', '\u{112DF}');
    push_range(v, '\u{112E3}', '\u{112EA}');
    assert(rview(v@) =~= o + incb_chunk_34());
}

fn push_incb_chunk_35(v: &mut Vec<ClassUnicodeRange>)
    ensures
        rview(final(v)@) == rview(old(v)@) + incb_chunk_35(),
{
    let ghost o = rview(v@);
    push_range(v, '\u{11300}', '\u{11301}');
    push_range(v, '\u{1133B}', '\u{1133C}');
    push_range(v, '\u{1133E}', '\u{1133E}');
    push_range(v, '\u{11340}', '\u{11340}');
    push_range(v, '\u{1134D}', '\u{1134D}');
    push_range(v, '\u{11357}', '\u{11357}');
    push_range(v, '\u{11366}', '\u{1136C}');
    push_range(v, '\u{11370}', '\u{11374}');
    assert(rview(v@) =~= o + incb_chunk_35());
}

fn push_incb_chunk_36(v: &mut Vec<ClassUnicodeRange>)
    ensures
        rview(final(v)@) == rview(old(v)@) + incb_chunk_36(),
{
    let ghost o = rview(v@);
    push_range(v, '\u{113B8}', '\u{113B8}');
    push_range(v, '\u{113BB}', '\u{113C0}');
    push_range(v, '\u{113C2}', '\u{113C2}');
    push_range(v, '\u{113C5}', '\u{113C5}');
    push_range(v, '\u{113C7}', '\u{113C9}');
    push_range(v, '\u{113CE}', '\u{113D0}');
    push_range(v, '\u{113D2}', '\u{113D2}');
    push_range(v, '\u{113E1}', '\u{113E2}');
    assert(rview(v@) =~= o + incb_chunk_36());
}

fn push_incb_chunk_37(v: &mut Vec<ClassUnicodeRange>)
    ensures
        rview(final(v)@) == rview(old(v)@) + incb_chunk_37(),
{
    let ghost o = rview(v@);
    push_range(v, '\u{11438}', '\u{1143F}');
    push_range(v, '\u{11442}', '\u{11444}');
    push_range(v, '\u{11446}', '\u{11446}');
    push_range(v, '\u{1145E}', '\u{1145E}');
    push_range(v, '\u{114B0}', '\u{114B0}');
    push_range(v, '\u{114B3}', '\u{114B8}');
    push_range(v, '\u{114BA}', '\u{114BA}');
    push_range(v, '\u{114BD}', '\u{114BD}');
    assert(rview(v@) =~= o + incb_chunk_37());
}

fn push_incb_chunk_38(v: &mut Vec<ClassUnicodeRange>)
    ensures
        rview(final(v)@) == rview(old(v)@) + incb_chunk_38(),
{
    let ghost o = rview(v@);
    push_range(v, '\u{114BF}', '\u{114C0}');
    push_range(v, '\u{114C2}', '\u{114C3}');
    push_range(v, '\u{115AF}', '\u{115AF}');
    push_range(v, '\u{115B2}', '\u{115B5}');
    push_range(v, '\u{115BC}', '\u{115BD}');
    push_range(v, '\u{115BF}', '\u{115C0}');
    push_range(v, '\u{115DC}', '\u{115DD}');
    push_range(v, '\u{11633}', '\u{1163A}');
    assert(rview(v@) =~= o + incb_chunk_38());
}

fn push_incb_chunk_39(v: &mut Vec<ClassUnicodeRange>)
    ensures
        rview(final(v)@) == rview(old(v)@) + incb_chunk_39(),
{
    let ghost o = rview(v@);
    push_range(v, '\u{1163D}', '\u{1163D}');
    push_range(v, '\u{1163F}', '\u{11640}');
    push_range(v, '\u{116AB}', '\u{116AB}');
    push_range(v, '\u{116AD}', '\u{116AD}');
    push_range(v, '\u{116B0}', '\u{116B7}');
    push_range(v, '\u{1171D}', '\u{1171D}');
    push_range(v, '\u{1171F}', '\u{1171F}');
    push_range(v, '\u{11722}', '\u{11725}');
    assert(rview(v@) =~= o + incb_chunk_39());
}

fn push_incb_chunk_40(v: &mut Vec<ClassUnicodeRange>)
    ensures
        rview(final(v)@) == rview(old(v)@) + incb_chunk_40(),
{
    let ghost o = rview(v@);
    push_range(v, '\u{11727}', '\u{1172B}');
    push_range(v, '\u{1182F}', '\u{11837}');
    push_range(v, '\u{11839}', '\u{1183A}');
    push_range(v, '\u{11930}', '\u{11930}');
    push_range(v, '\u{1193B}', '\u{1193E}');
    push_range(v, '\u{11943}', '\u{11943}');
    push_range(v, '\u{119D4}', '\u{119D7}');
    push_range(v, '\u{119DA}', '\u{119DB}');
    assert(rview(v@) =~= o + incb_chunk_40());
}

fn push_incb_chunk_41(v: &mut Vec<ClassUnicodeRange>)
    ensures
        rview(final(v)@) == rview(old(v)@) + incb_chunk_41(),
{
    let ghost o = rview(v@);
    push_range(v, '\u{119E0}', '\u{119E0}');
    push_range(v, '\u{11A01}', '\u{11A0A}');
    push_range(v, '\u{11A33}', '\u{11A38}');
    push_range(v, '\u{11A3B}', '\u{11A3E}');
    push_range(v, '\u{11A47}', '\u{11A47}');
    push_range(v, '\u{11A51}', '\u{11A56}');
    push_range(v, '\u{11A59}', '\u{11A5B}');
    push_range(v, '\u{11A8A}', '\u{11A96}');
    assert(rview(v@) =~= o + incb_chunk_41());
}

fn push_incb_chunk_42(v: &mut Vec<ClassUnicodeRange>)
    ensures
        rview(final(v)@) == rview(old(v)@) + incb_chunk_42(),
{
    let ghost o = rview(v@);
    push_range(v, '\u{11A98}', '\u{11A99}');
    push_range(v, '\u{11C30}', '\u{11C36}');
    push_range(v, '\u{11C38}', '\u{11C3D}');
    push_range(v, '\u{11C3F}', '\u{11C3F}');
    push_range(v, '\u{11C92}', '\u{11CA7}');
    push_range(v, '\u{11CAA}', '\u{11CB0}');
    push_range(v, '\u{11CB2}', '\u{11CB3}');
    push_range(v, '\u{11CB5}', '\u{11CB6}');
    assert(rview(v@) =~= o + incb_chunk_42());
}

fn push_incb_chunk_43(v: &mut Vec<ClassUnicodeRange>)
    ensures
        rview(final(v)@) == rview(old(v)@) + incb_chunk_43(),
{
    let ghost o = rview(v@);
    push_range(v, '\u{11D31}', '\u{11D36}');
    push_range(v, '\u{11D3A}', '\u{11D3A}');
    push_range(v, '\u{11D3C}', '\u{11D3D}');
    push_range(v, '\u{11D3F}', '\u{11D45}');
    push_range(v, '\u{11D47}', '\u{11D47}');
    push_range(v, '\u{11D90}', '\u{11D91}');
    push_range(v, '\u{11D95}', '\u{11D95}');
    push_range(v, '\u{11D97}', '\u{11D97}');
    assert(rview(v@) =~= o + incb_chunk_43());
}

fn push_incb_chunk_44(v: &mut Vec<ClassUnicodeRange>)
    ensures
        rview(final(v)@) == rview(old(v)@) + incb_chunk_44(),
{
    let ghost o = rview(v@);
    push_range(v, '\u{11EF3}', '\u{11EF4}');
    push_range(v, '\u{11F00}', '\u{11F01}');
    push_range(v, '\u{11F36}', '\u{11F3A}');
    push_range(v, '\u{11F40}', '\u{11F42}');
    push_range(v, '\u{11F5A}', '\u{11F5A}');
    push_range(v, '\u{13440}', '\u{13440}');
    push_range(v, '\u{13447}', '\u{13455}');
    push_range(v, '\u{1611E}', '\u{16129}');
    assert(rview(v@) =~= o + incb_chunk_44());
}

fn push_incb_chunk_45(v: &mut Vec<ClassUnicodeRange>)
    ensures
        rview(final(v)@) == rview(old(v)@) + incb_chunk_45(),
{
    let ghost o = rview(v@);
    push_range(v, '\u{1612D}', '\u{1612F}');
    push_range(v, '\u{16AF0}', '\u{16AF4}');
    push_range(v, '\u{16B30}', '\u{16B36}');
    push_range(v, '\u{16F4F}', '\u{16F4F}');
    push_range(v, '\u{16F8F}', '\u{16F92}');
    push_range(v, '\u{16FE4}', '\u{16FE4}');
    push_range(v, '\u{16FF0}', '\u{16FF1}');
    push_range(v, '\u{1BC9D}', '\u{1BC9E}');
    assert(rview(v@) =~= o + incb_chunk_45());
}

fn push_incb_chunk_46(v: &mut Vec<ClassUnicodeRange>)
    ensures
        rview(final(v)@) == rview(old(v)@) + incb_chunk_46(),
{
    let ghost o = rview(v@);
    push_range(v, '\u{1CF00}', '\u{1CF2D}');
    push_range(v, '\u{1CF30}', '\u{1CF46}');
    push_range(v, '\u{1D165}', '\u{1D169}');
    push_range(v, '\u{1D16D}', '\u{1D172}');
    push_range(v, '\u{1D17B}', '\u{1D182}');
    push_range(v, '\u{1D185}', '\u{1D18B}');
    push_range(v, '\u{1D1AA}', '\u{1D1AD}');
    push_range(v, '\u{1D242}', '\u{1D244}');
    assert(rview(v@) =~= o + incb_chunk_46());
}

fn push_incb_chunk_47(v: &mut Vec<ClassUnicodeRange>)
    ensures
        rview(final(v)@) == rview(old(v)@) + incb_chunk_47(),
{
    let ghost o = rview(v@);
    push_range(v, '\u{1DA00}', '\u{1DA36}');
    push_range(v, '\u{1DA3B}', '\u{1DA6C}');
    push_range(v, '\u{1DA75}', '\u{1DA75}');
    push_range(v, '\u{1DA84}', '\u{1DA84}');
    push_range(v, '\u{1DA9B}', '\u{1DA9F}');
    push_range(v, '\u{1DAA1}', '\u{1DAAF}');
    push_range(v, '\u{1E000}', '\u{1E006}');
    push_range(v, '\u{1E008}', '\u{1E018}');
    assert(rview(v@) =~= o + incb_chunk_47());
}

fn push_incb_chunk_48(v: &mut Vec<ClassUnicodeRange>)
    ensures
        rview(final(v)@) == rview(old(v)@) + incb_chunk_48(),
{
    let ghost o = rview(v@);
    push_range(v, '\u{1E01B}', '\u{1E021}');
    push_range(v, '\u{1E023}', '\u{1E024}');
    push_range(v, '\u{1E026}', '\u{1E02A}');
    push_range(v, '\u{1E08F}', '\u{1E08F}');
    push_range(v, '\u{1E130}', '\u{1E136}');
    push_range(v, '\u{1E2AE}', '\u{1E2AE}');
    push_range(v, '\u{1E2EC}', '\u{1E2EF}');
    push_range(v, '\u{1E4EC}', '\u{1E4EF}');
    assert(rview(v@) =~= o + incb_chunk_48());
}

fn push_incb_chunk_49(v: &mut Vec<ClassUnicodeRange>)
    ensures
        rview(final(v)@) == rview(old(v)@) + incb_chunk_49(),
{
    let ghost o = rview(v@);
    push_range(v, '\u{1E5EE}', '\u{1E5EF}');
    push_range(v, '\u{1E8D0}', '\u{1E8D6}');
    push_range(v, '\u{1E944}', '\u{1E94A}');
    push_range(v, '\u{1F3FB}', '\u{1F3FF}');
    push_range(v, '\u{E0020}', '\u{E007F}');
    push_range(v, '\u{E0100}', '\u{E01EF}');
    assert(rview(v@) =~= o + incb_chunk_49());
}

fn push_incb_block_0(v: &mut Vec<ClassUnicodeRange>)
    ensures
        rview(final(v)@) == rview(old(v)@) + incb_block_0(),
{
    let ghost o = rview(v@);
    push_incb_chunk_0(v);
    assert(rview(v@) =~= o + (incb_chunk_0()));
    push_incb_chunk_1(v);
    assert(rview(v@) =~= o + (incb_chunk_0() + incb_chunk_1()));
    push_incb_chunk_2(v);
    assert(rview(v@) =~= o + (incb_chunk_0() + incb_chunk_1() + incb_chunk_2()));
    push_incb_chunk_3(v);
    assert(rview(v@) =~= o + (incb_chunk_0() + incb_chunk_1() + incb_chunk_2() + incb_chunk_3()));
    push_incb_chunk_4(v);
    assert(rview(v@) =~= o + (incb_chunk_0() + incb_chunk_1() + incb_chunk_2() + incb_chunk_3() + incb_chunk_4()));
    push_incb_chunk_5(v);
    assert(rview(v@) =~= o + (incb_chunk_0() + incb_chunk_1() + incb_chunk_2() + incb_chunk_3() + incb_chunk_4() + incb_chunk_5()));
    push_incb_chunk_6(v);
    assert(rview(v@) =~= o + (incb_chunk_0() + incb_chunk_1() + incb_chunk_2() + incb_chunk_3() + incb_chunk_4() + incb_chunk_5() + incb_chunk_6()));
    push_incb_chunk_7(v);
    assert(rview(v@) =~= o + (incb_chunk_0() + incb_chunk_1() + incb_chunk_2() + incb_chunk_3() + incb_chunk_4() + incb_chunk_5() + incb_chunk_6() + incb_chunk_7()));
    push_incb_chunk_8(v);
    assert(rview(v@) =~= o + (incb_chunk_0() + incb_chunk_1() + incb_chunk_2() + incb_chunk_3() + incb_chunk_4() + incb_chunk_5() + incb_chunk_6() + incb_chunk_7() + incb_chunk_8()));
    push_incb_chunk_9(v);
    assert(rview(v@) =~= o + (incb_chunk_0() + incb_chunk_1() + incb_chunk_2() + incb_chunk_3() + incb_chunk_4() + incb_chunk_5() + incb_chunk_6() + incb_chunk_7() + incb_chunk_8() + incb_chunk_9()));
}

fn push_incb_block_1(v: &mut Vec<ClassUnicodeRange>)
    ensures
        rview(final(v)@) == rview(old(v)@) + incb_block_1(),
{
    let ghost o = rview(v@);
    push_incb_chunk_10(v);
    assert(rview(v@) =~= o + (incb_chunk_10()));
    push_incb_chunk_11(v);
    assert(rview(v@) =~= o + (incb_chunk_10() + incb_chunk_11()));
    push_incb_chunk_12(v);
    assert(rview(v@) =~= o + (incb_chunk_10() + incb_chunk_11() + incb_chunk_12()));
    push_incb_chunk_13(v);
    assert(rview(v@) =~= o + (incb_chunk_10() + incb_chunk_11() + incb_chunk_12() + incb_chunk_13()));
    push_incb_chunk_14(v);
    assert(rview(v@) =~= o + (incb_chunk_10() + incb_chunk_11() + incb_chunk_12() + incb_chunk_13() + incb_chunk_14()));
    push_incb_chunk_15(v);
    assert(rview(v@) =~= o + (incb_chunk_10() + incb_chunk_11() + incb_chunk_12() + incb_chunk_13() + incb_chunk_14() + incb_chunk_15()));
    push_incb_chunk_16(v);
    assert(rview(v@) =~= o + (incb_chunk_10() + incb_chunk_11() + incb_chunk_12() + incb_chunk_13() + incb_chunk_14() + incb_chunk_15() + incb_chunk_16()));
    push_incb_chunk_17(v);
    assert(rview(v@) =~= o + (incb_chunk_10() + incb_chunk_11() + incb_chunk_12() + incb_chunk_13() + incb_chunk_14() + incb_chunk_15() + incb_chunk_16() + incb_chunk_17()));
    push_incb_chunk_18(v);
    assert(rview(v@) =~= o + (incb_chunk_10() + incb_chunk_11() + incb_chunk_12() + incb_chunk_13() + incb_chunk_14() + incb_chunk_15() + incb_chunk_16() + incb_chunk_17() + incb_chunk_18()));
    push_incb_chunk_19(v);
    assert(rview(v@) =~= o + (incb_chunk_10() + incb_chunk_11() + incb_chunk_12() + incb_chunk_13() + incb_chunk_14() + incb_chunk_15() + incb_chunk_16() + incb_chunk_17() + incb_chunk_18() + incb_chunk_19()));
}

fn push_incb_block_2(v: &mut Vec<ClassUnicodeRange>)
    ensures
        rview(final(v)@) == rview(old(v)@) + incb_block_2(),
{
    let ghost o = rview(v@);
    push_incb_chunk_20(v);
    assert(rview(v@) =~= o + (incb_chunk_20()));
    push_incb_chunk_21(v);
    assert(rview(v@) =~= o + (incb_chunk_20() + incb_chunk_21()));
    push_incb_chunk_22(v);
    assert(rview(v@) =~= o + (incb_chunk_20() + incb_chunk_21() + incb_chunk_22()));
    push_incb_chunk_23(v);
    assert(rview(v@) =~= o + (incb_chunk_20() + incb_chunk_21() + incb_chunk_22() + incb_chunk_23()));
    push_incb_chunk_24(v);
    assert(rview(v@) =~= o + (incb_chunk_20() + incb_chunk_21() + incb_chunk_22() + incb_chunk_23() + incb_chunk_24()));
    push_incb_chunk_25(v);
    assert(rview(v@) =~= o + (incb_chunk_20() + incb_chunk_21() + incb_chunk_22() + incb_chunk_23() + incb_chunk_24() + incb_chunk_25()));
    push_incb_chunk_26(v);
    assert(rview(v@) =~= o + (incb_chunk_20() + incb_chunk_21() + incb_chunk_22() + incb_chunk_23() + incb_chunk_24() + incb_chunk_25() + incb_chunk_26()));
    push_incb_chunk_27(v);
    assert(rview(v@) =~= o + (incb_chunk_20() + incb_chunk_21() + incb_chunk_22() + incb_chunk_23() + incb_chunk_24() + incb_chunk_25() + incb_chunk_26() + incb_chunk_27()));
    push_incb_chunk_28(v);
    assert(rview(v@) =~= o + (incb_chunk_20() + incb_chunk_21() + incb_chunk_22() + incb_chunk_23() + incb_chunk_24() + incb_chunk_25() + incb_chunk_26() + incb_chunk_27() + incb_chunk_28()));
    push_incb_chunk_29(v);
    assert(rview(v@) =~= o + (incb_chunk_20() + incb_chunk_21() + incb_chunk_22() + incb_chunk_23() + incb_chunk_24() + incb_chunk_25() + incb_chunk_26() + incb_chunk_27() + incb_chunk_28() + incb_chunk_29()));
}

fn push_incb_block_3(v: &mut Vec<ClassUnicodeRange>)
    ensures
        rview(final(v)@) == rview(old(v)@) + incb_block_3(),
{
    let ghost o = rview(v@);
    push_incb_chunk_30(v);
    assert(rview(v@) =~= o + (incb_chunk_30()));
    push_incb_chunk_31(v);
    assert(rview(v@) =~= o + (incb_chunk_30() + incb_chunk_31()));
    push_incb_chunk_32(v);
    assert(rview(v@) =~= o + (incb_chunk_30() + incb_chunk_31() + incb_chunk_32()));
    push_incb_chunk_33(v);
    assert(rview(v@) =~= o + (incb_chunk_30() + incb_chunk_31() + incb_chunk_32() + incb_chunk_33()));
    push_incb_chunk_34(v);
    assert(rview(v@) =~= o + (incb_chunk_30() + incb_chunk_31() + incb_chunk_32() + incb_chunk_33() + incb_chunk_34()));
    push_incb_chunk_35(v);
    assert(rview(v@) =~= o + (incb_chunk_30() + incb_chunk_31() + incb_chunk_32() + incb_chunk_33() + incb_chunk_34() + incb_chunk_35()));
    push_incb_chunk_36(v);
    assert(rview(v@) =~= o + (incb_chunk_30() + incb_chunk_31() + incb_chunk_32() + incb_chunk_33() + incb_chunk_34() + incb_chunk_35() + incb_chunk_36()));
    push_incb_chunk_37(v);
    assert(rview(v@) =~= o + (incb_chunk_30() + incb_chunk_31() + incb_chunk_32() + incb_chunk_33() + incb_chunk_34() + incb_chunk_35() + incb_chunk_36() + incb_chunk_37()));
    push_incb_chunk_38(v);
    assert(rview(v@) =~= o + (incb_chunk_30() + incb_chunk_31() + incb_chunk_32() + incb_chunk_33() + incb_chunk_34() + incb_chunk_35() + incb_chunk_36() + incb_chunk_37() + incb_chunk_38()));
    push_incb_chunk_39(v);
    assert(rview(v@) =~= o + (incb_chunk_30() + incb_chunk_31() + incb_chunk_32() + incb_chunk_33() + incb_chunk_34() + incb_chunk_35() + incb_chunk_36() + incb_chunk_37() + incb_chunk_38() + incb_chunk_39()));
}

fn push_incb_block_4(v: &mut Vec<ClassUnicodeRange>)
    ensures
        rview(final(v)@) == rview(old(v)@) + incb_block_4(),
{
    let ghost o = rview(v@);
    push_incb_chunk_40(v);
    assert(rview(v@) =~= o + (incb_chunk_40()));
    push_incb_chunk_41(v);
    assert(rview(v@) =~= o + (incb_chunk_40() + incb_chunk_41()));
    push_incb_chunk_42(v);
    assert(rview(v@) =~= o + (incb_chunk_40() + incb_chunk_41() + incb_chunk_42()));
    push_incb_chunk_43(v);
    assert(rview(v@) =~= o + (incb_chunk_40() + incb_chunk_41() + incb_chunk_42() + incb_chunk_43()));
    push_incb_chunk_44(v);
    assert(rview(v@) =~= o + (incb_chunk_40() + incb_chunk_41() + incb_chunk_42() + incb_chunk_43() + incb_chunk_44()));
    push_incb_chunk_45(v);
    assert(rview(v@) =~= o + (incb_chunk_40() + incb_chunk_41() + incb_chunk_42() + incb_chunk_43() + incb_chunk_44() + incb_chunk_45()));
    push_incb_chunk_46(v);
    assert(rview(v@) =~= o + (incb_chunk_40() + incb_chunk_41() + incb_chunk_42() + incb_chunk_43() + incb_chunk_44() + incb_chunk_45() + incb_chunk_46()));
    push_incb_chunk_47(v);
    assert(rview(v@) =~= o + (incb_chunk_40() + incb_chunk_41() + incb_chunk_42() + incb_chunk_43() + incb_chunk_44() + incb_chunk_45() + incb_chunk_46() + incb_chunk_47()));
    push_incb_chunk_48(v);
    assert(rview(v@) =~= o + (incb_chunk_40() + incb_chunk_41() + incb_chunk_42() + incb_chunk_43() + incb_chunk_44() + incb_chunk_45() + incb_chunk_46() + incb_chunk_47() + incb_chunk_48()));
    push_incb_chunk_49(v);
    assert(rview(v@) =~= o + (incb_chunk_40() + incb_chunk_41() + incb_chunk_42() + incb_chunk_43() + incb_chunk_44() + incb_chunk_45() + incb_chunk_46() + incb_chunk_47() + incb_chunk_48() + incb_chunk_49()));
}

pub fn incb_class() -> (v: Vec<ClassUnicodeRange>)
    ensures
        rview(v@) == incb_ranges(),
{
    let mut v: Vec<ClassUnicodeRange> = Vec::new();
    assert(rview(v@) =~= Seq::<SRange>::empty());
    push_incb_block_0(&mut v);
    assert(rview(v@) =~= incb_block_0());
    push_incb_block_1(&mut v);
    assert(rview(v@) =~= incb_block_0() + incb_block_1());
    push_incb_block_2(&mut v);
    assert(rview(v@) =~= incb_block_0() + incb_block_1() + incb_block_2());
    push_incb_block_3(&mut v);
    assert(rview(v@) =~= incb_block_0() + incb_block_1() + incb_block_2() + incb_block_3());
    push_incb_block_4(&mut v);
    assert(rview(v@) =~= incb_block_0() + incb_block_1() + incb_block_2() + incb_block_3() + incb_block_4());
    v
}

pub open spec fn join_control_chunk_0() -> Seq<SRange> {
    seq![(0x200Cint, 0x200Dint)]
}

/// The ranges of the property Join_Control.
pub open spec fn join_control_ranges() -> Seq<SRange> {
    join_control_chunk_0()
}

pub proof fn lemma_join_control_canonical()
    ensures
        canonical(join_control_ranges()),
{
    reveal_with_fuel(canonical, 9);
    assert(canonical(join_control_chunk_0()));
}

fn push_join_control_chunk_0(v: &mut Vec<ClassUnicodeRange>)
    ensures
        rview(final(v)@) == rview(old(v)@) + join_control_chunk_0(),
{
    let ghost o = rview(v@);
    push_range(v, '\u{200C}', '\u{200D}');
    assert(rview(v@) =~= o + join_control_chunk_0());
}

pub fn join_control_class() -> (v: Vec<ClassUnicodeRange>)
    ensures
        rview(v@) == join_control_ranges(),
{
    let mut v: Vec<ClassUnicodeRange> = Vec::new();
    assert(rview(v@) =~= Seq::<SRange>::empty());
    push_join_control_chunk_0(&mut v);
    assert(rview(v@) =~= join_control_chunk_0());
    v
}

pub open spec fn logical_order_exception_chunk_0() -> Seq<SRange> {
    seq![(0xE40int, 0xE44int), (0xEC0int, 0xEC4int), (0x19B5int, 0x19B7int), (0x19BAint, 0x19BAint), (0xAAB5int, 0xAAB6int), (0xAAB9int, 0xAAB9int), (0xAABBint, 0xAABCint)]
}

/// The ranges of the property Logical_Order_Exception.
pub open spec fn logical_order_exception_ranges() -> Seq<SRange> {
    logical_order_exception_chunk_0()
}

pub proof fn lemma_logical_order_exception_canonical()
    ensures
        canonical(logical_order_exception_ranges()),
{
    reveal_with_fuel(canonical, 9);
    assert(canonical(logical_order_exception_chunk_0()));
}

fn push_logical_order_exception_chunk_0(v: &mut Vec<ClassUnicodeRange>)
    ensures
        rview(final(v)@) == rview(old(v)@) + logical_order_exception_chunk_0(),
{
    let ghost o = rview(v@);
    push_range(v, '\u{E40}', '\u{E44}');
    push_range(v, '\u{EC0}', '\u{EC4}');
    push_range(v, '\u{19B5}', '\u{19B7}');
    push_range(v, '\u{19BA}', '\u{19BA}');
    push_range(v, '\u{AAB5}', '\u{AAB6}');
    push_range(v, '\u{AAB9}', '\u{AAB9}');
    push_range(v, '\u{AABB}', '\u{AABC}');
    assert(rview(v@) =~= o + logical_order_exception_chunk_0());
}

pub fn logical_order_exception_class() -> (v: Vec<ClassUnicodeRange>)
    ensures
        rview(v@) == logical_order_exception_ranges(),
{
    let mut v: Vec<ClassUnicodeRange> = Vec::new();
    assert(rview(v@) =~= Seq::<SRange>::empty());
    push_logical_order_exception_chunk_0(&mut v);
    assert(rview(v@) =~= logical_order_exception_chunk_0());
    v
}

pub open spec fn lowercase_chunk_0() -> Seq<SRange> {
    seq![(0x61int, 0x7Aint), (0xAAint, 0xAAint), (0xB5int, 0xB5int), (0xBAint, 0xBAint), (0xDFint, 0xF6int), (0xF8int, 0xFFint), (0x101int, 0x101int), (0x103int, 0x103int)]
}

pub open spec fn lowercase_chunk_1() -> Seq<SRange> {
    seq![(0x105int, 0x105int), (0x107int, 0x107int), (0x109int, 0x109int), (0x10Bint, 0x10Bint), (0x10Dint, 0x10Dint), (0x10Fint, 0x10Fint), (0x111int, 0x111int), (0x113int, 0x113int)]
}

pub open spec fn lowercase_chunk_2() -> Seq<SRange> {
    seq![(0x115int, 0x115int), (0x117int, 0x117int), (0x119int, 0x119int), (0x11Bint, 0x11Bint), (0x11Dint, 0x11Dint), (0x11Fint, 0x11Fint), (0x121int, 0x121int), (0x123int, 0x123int)]
}

pub open spec fn lowercase_chunk_3() -> Seq<SRange> {
    seq![(0x125int, 0x125int), (0x127int, 0x127int), (0x129int, 0x129int), (0x12Bint, 0x12Bint), (0x12Dint, 0x12Dint), (0x12Fint, 0x12Fint), (0x131int, 0x131int), (0x133int, 0x133int)]
}

pub open spec fn lowercase_chunk_4() -> Seq<SRange> {
    seq![(0x135int, 0x135int), (0x137int, 0x138int), (0x13Aint, 0x13Aint), (0x13Cint, 0x13Cint), (0x13Eint, 0x13Eint), (0x140int, 0x140int), (0x142int, 0x142int), (0x144int, 0x144int)]
}

pub open spec fn lowercase_chunk_5() -> Seq<SRange> {
    seq![(0x146int, 0x146int), (0x148int, 0x149int), (0x14Bint, 0x14Bint), (0x14Dint, 0x14Dint), (0x14Fint, 0x14Fint), (0x151int, 0x151int), (0x153int, 0x153int), (0x155int, 0x155int)]
}

pub open spec fn lowercase_chunk_6() -> Seq<SRange> {
    seq![(0x157int, 0x157int), (0x159int, 0x159int), (0x15Bint, 0x15Bint), (0x15Dint, 0x15Dint), (0x15Fint, 0x15Fint), (0x161int, 0x161int), (0x163int, 0x163int), (0x165int, 0x165int)]
}

pub open spec fn lowercase_chunk_7() -> Seq<SRange> {
    seq![(0x167int, 0x167int), (0x169int, 0x169int), (0x16Bint, 0x16Bint), (0x16Dint, 0x16Dint), (0x16Fint, 0x16Fint), (0x171int, 0x171int), (0x173int, 0x173int), (0x175int, 0x175int)]
}

pub open spec fn lowercase_chunk_8() -> Seq<SRange> {
    seq![(0x177int, 0x177int), (0x17Aint, 0x17Aint), (0x17Cint, 0x17Cint), (0x17Eint, 0x180int), (0x183int, 0x183int), (0x185int, 0x185int), (0x188int, 0x188int), (0x18Cint, 0x18Dint)]
}

pub open spec fn lowercase_chunk_9() -> Seq<SRange> {
    seq![(0x192int, 0x192int), (0x195int, 0x195int), (0x199int, 0x19Bint), (0x19Eint, 0x19Eint), (0x1A1int, 0x1A1int), (0x1A3int, 0x1A3int), (0x1A5int, 0x1A5int), (0x1A8int, 0x1A8int)]
}

pub open spec fn lowercase_chunk_10() -> Seq<SRange> {
    seq![(0x1AAint, 0x1ABint), (0x1ADint, 0x1ADint), (0x1B0int, 0x1B0int), (0x1B4int, 0x1B4int), (0x1B6int, 0x1B6int), (0x1B9int, 0x1BAint), (0x1BDint, 0x1BFint), (0x1C6int, 0x1C6int)]
}

pub open spec fn lowercase_chunk_11() -> Seq<SRange> {
    seq![(0x1C9int, 0x1C9int), (0x1CCint, 0x1CCint), (0x1CEint, 0x1CEint), (0x1D0int, 0x1D0int), (0x1D2int, 0x1D2int), (0x1D4int, 0x1D4int), (0x1D6int, 0x1D6int), (0x1D8int, 0x1D8int)]
}

pub open spec fn lowercase_chunk_12() -> Seq<SRange> {
    seq![(0x1DAint, 0x1DAint), (0x1DCint, 0x1DDint), (0x1DFint, 0x1DFint), (0x1E1int, 0x1E1int), (0x1E3int, 0x1E3int), (0x1E5int, 0x1E5int), (0x1E7int, 0x1E7int), (0x1E9int, 0x1E9int)]
}

pub open spec fn lowercase_chunk_13() -> Seq<SRange> {
    seq![(0x1EBint, 0x1EBint), (0x1EDint, 0x1EDint), (0x1EFint, 0x1F0int), (0x1F3int, 0x1F3int), (0x1F5int, 0x1F5int), (0x1F9int, 0x1F9int), (0x1FBint, 0x1FBint), (0x1FDint, 0x1FDint)]
}

pub open spec fn lowercase_chunk_14() -> Seq<SRange> {
    seq![(0x1FFint, 0x1FFint), (0x201int, 0x201int), (0x203int, 0x203int), (0x205int, 0x205int), (0x207int, 0x207int), (0x209int, 0x209int), (0x20Bint, 0x20Bint), (0x20Dint, 0x20Dint)]
}

pub open spec fn lowercase_chunk_15() -> Seq<SRange> {
    seq![(0x20Fint, 0x20Fint), (0x211int, 0x211int), (0x213int, 0x213int), (0x215int, 0x215int), (0x217int, 0x217int), (0x219int, 0x219int), (0x21Bint, 0x21Bint), (0x21Dint, 0x21Dint)]
}

pub open spec fn lowercase_chunk_16() -> Seq<SRange> {
    seq![(0x21Fint, 0x21Fint), (0x221int, 0x221int), (0x223int, 0x223int), (0x225int, 0x225int), (0x227int, 0x227int), (0x229int, 0x229int), (0x22Bint, 0x22Bint), (0x22Dint, 0x22Dint)]
}

pub open spec fn lowercase_chunk_17() -> Seq<SRange> {
    seq![(0x22Fint, 0x22Fint), (0x231int, 0x231int), (0x233int, 0x239int), (0x23Cint, 0x23Cint), (0x23Fint, 0x240int), (0x242int, 0x242int), (0x247int, 0x247int), (0x249int, 0x249int)]
}

pub open spec fn lowercase_chunk_18() -> Seq<SRange> {
    seq![(0x24Bint, 0x24Bint), (0x24Dint, 0x24Dint), (0x24Fint, 0x293int), (0x295int, 0x2B8int), (0x2C0int, 0x2C1int), (0x2E0int, 0x2E4int), (0x345int, 0x345int), (0x371int, 0x371int)]
}

pub open spec fn lowercase_chunk_19() -> Seq<SRange> {
    seq![(0x373int, 0x373int), (0x377int, 0x377int), (0x37Aint, 0x37Dint), (0x390int, 0x390int), (0x3ACint, 0x3CEint), (0x3D0int, 0x3D1int), (0x3D5int, 0x3D7int), (0x3D9int, 0x3D9int)]
}

pub open spec fn lowercase_chunk_20() -> Seq<SRange> {
    seq![(0x3DBint, 0x3DBint), (0x3DDint, 0x3DDint), (0x3DFint, 0x3DFint), (0x3E1int, 0x3E1int), (0x3E3int, 0x3E3int), (0x3E5int, 0x3E5int), (0x3E7int, 0x3E7int), (0x3E9int, 0x3E9int)]
}

pub open spec fn lowercase_chunk_21() -> Seq<SRange> {
    seq![(0x3EBint, 0x3EBint), (0x3EDint, 0x3EDint), (0x3EFint, 0x3F3int), (0x3F5int, 0x3F5int), (0x3F8int, 0x3F8int), (0x3FBint, 0x3FCint), (0x430int, 0x45Fint), (0x461int, 0x461int)]
}

pub open spec fn lowercase_chunk_22() -> Seq<SRange> {
    seq![(0x463int, 0x463int), (0x465int, 0x465int), (0x467int, 0x467int), (0x469int, 0x469int), (0x46Bint, 0x46Bint), (0x46Dint, 0x46Dint), (0x46Fint, 0x46Fint), (0x471int, 0x471int)]
}

pub open spec fn lowercase_chunk_23() -> Seq<SRange> {
    seq![(0x473int, 0x473int), (0x475int, 0x475int), (0x477int, 0x477int), (0x479int, 0x479int), (0x47Bint, 0x47Bint), (0x47Dint, 0x47Dint), (0x47Fint, 0x47Fint), (0x481int, 0x481int)]
}

pub open spec fn lowercase_chunk_24() -> Seq<SRange> {
    seq![(0x48Bint, 0x48Bint), (0x48Dint, 0x48Dint), (0x48Fint, 0x48Fint), (0x491int, 0x491int), (0x493int, 0x493int), (0x495int, 0x495int), (0x497int, 0x497int), (0x499int, 0x499int)]
}

pub open spec fn lowercase_chunk_25() -> Seq<SRange> {
    seq![(0x49Bint, 0x49Bint), (0x49Dint, 0x49Dint), (0x49Fint, 0x49Fint), (0x4A1int, 0x4A1int), (0x4A3int, 0x4A3int), (0x4A5int, 0x4A5int), (0x4A7int, 0x4A7int), (0x4A9int, 0x4A9int)]
}

pub open spec fn lowercase_chunk_26() -> Seq<SRange> {
    seq![(0x4ABint, 0x4ABint), (0x4ADint, 0x4ADint), (0x4AFint, 0x4AFint), (0x4B1int, 0x4B1int), (0x4B3int, 0x4B3int), (0x4B5int, 0x4B5int), (0x4B7int, 0x4B7int), (0x4B9int, 0x4B9int)]
}

pub open spec fn lowercase_chunk_27() -> Seq<SRange> {
    seq![(0x4BBint, 0x4BBint), (0x4BDint, 0x4BDint), (0x4BFint, 0x4BFint), (0x4C2int, 0x4C2int), (0x4C4int, 0x4C4int), (0x4C6int, 0x4C6int), (0x4C8int, 0x4C8int), (0x4CAint, 0x4CAint)]
}

pub open spec fn lowercase_chunk_28() -> Seq<SRange> {
    seq![(0x4CCint, 0x4CCint), (0x4CEint, 0x4CFint), (0x4D1int, 0x4D1int), (0x4D3int, 0x4D3int), (0x4D5int, 0x4D5int), (0x4D7int, 0x4D7int), (0x4D9int, 0x4D9int), (0x4DBint, 0x4DBint)]
}

pub open spec fn lowercase_chunk_29() -> Seq<SRange> {
    seq![(0x4DDint, 0x4DDint), (0x4DFint, 0x4DFint), (0x4E1int, 0x4E1int), (0x4E3int, 0x4E3int), (0x4E5int, 0x4E5int), (0x4E7int, 0x4E7int), (0x4E9int, 0x4E9int), (0x4EBint, 0x4EBint)]
}

pub open spec fn lowercase_chunk_30() -> Seq<SRange> {
    seq![(0x4EDint, 0x4EDint), (0x4EFint, 0x4EFint), (0x4F1int, 0x4F1int), (0x4F3int, 0x4F3int), (0x4F5int, 0x4F5int), (0x4F7int, 0x4F7int), (0x4F9int, 0x4F9int), (0x4FBint, 0x4FBint)]
}

pub open spec fn lowercase_chunk_31() -> Seq<SRange> {
    seq![(0x4FDint, 0x4FDint), (0x4FFint, 0x4FFint), (0x501int, 0x501int), (0x503int, 0x503int), (0x505int, 0x505int), (0x507int, 0x507int), (0x509int, 0x509int), (0x50Bint, 0x50Bint)]
}

pub open spec fn lowercase_chunk_32() -> Seq<SRange> {
    seq![(0x50Dint, 0x50Dint), (0x50Fint, 0x50Fint), (0x511int, 0x511int), (0x513int, 0x513int), (0x515int, 0x515int), (0x517int, 0x517int), (0x519int, 0x519int), (0x51Bint, 0x51Bint)]
}

pub open spec fn lowercase_chunk_33() -> Seq<SRange> {
    seq![(0x51Dint, 0x51Dint), (0x51Fint, 0x51Fint), (0x521int, 0x521int), (0x523int, 0x523int), (0x525int, 0x525int), (0x527int, 0x527int), (0x529int, 0x529int), (0x52Bint, 0x52Bint)]
}

pub open spec fn lowercase_chunk_34() -> Seq<SRange> {
    seq![(0x52Dint, 0x52Dint), (0x52Fint, 0x52Fint), (0x560int, 0x588int), (0x10D0int, 0x10FAint), (0x10FCint, 0x10FFint), (0x13F8int, 0x13FDint), (0x1C80int, 0x1C88int), (0x1C8Aint, 0x1C8Aint)]
}

pub open spec fn lowercase_chunk_35() -> Seq<SRange> {
    seq![(0x1D00int, 0x1DBFint), (0x1E01int, 0x1E01int), (0x1E03int, 0x1E03int), (0x1E05int, 0x1E05int), (0x1E07int, 0x1E07int), (0x1E09int, 0x1E09int), (0x1E0Bint, 0x1E0Bint), (0x1E0Dint, 0x1E0Dint)]
}

pub open spec fn lowercase_chunk_36() -> Seq<SRange> {
    seq![(0x1E0Fint, 0x1E0Fint), (0x1E11int, 0x1E11int), (0x1E13int, 0x1E13int), (0x1E15int, 0x1E15int), (0x1E17int, 0x1E17int), (0x1E19int, 0x1E19int), (0x1E1Bint, 0x1E1Bint), (0x1E1Dint, 0x1E1Dint)]
}

pub open spec fn lowercase_chunk_37() -> Seq<SRange> {
    seq![(0x1E1Fint, 0x1E1Fint), (0x1E21int, 0x1E21int), (0x1E23int, 0x1E23int), (0x1E25int, 0x1E25int), (0x1E27int, 0x1E27int), (0x1E29int, 0x1E29int), (0x1E2Bint, 0x1E2Bint), (0x1E2Dint, 0x1E2Dint)]
}

pub open spec fn lowercase_chunk_38() -> Seq<SRange> {
    seq![(0x1E2Fint, 0x1E2Fint), (0x1E31int, 0x1E31int), (0x1E33int, 0x1E33int), (0x1E35int, 0x1E35int), (0x1E37int, 0x1E37int), (0x1E39int, 0x1E39int), (0x1E3Bint, 0x1E3Bint), (0x1E3Dint, 0x1E3Dint)]
}

pub open spec fn lowercase_chunk_39() -> Seq<SRange> {
    seq![(0x1E3Fint, 0x1E3Fint), (0x1E41int, 0x1E41int), (0x1E43int, 0x1E43int), (0x1E45int, 0x1E45int), (0x1E47int, 0x1E47int), (0x1E49int, 0x1E49int), (0x1E4Bint, 0x1E4Bint), (0x1E4Dint, 0x1E4Dint)]
}

pub open spec fn lowercase_chunk_40() -> Seq<SRange> {
    seq![(0x1E4Fint, 0x1E4Fint), (0x1E51int, 0x1E51int), (0x1E53int, 0x1E53int), (0x1E55int, 0x1E55int), (0x1E57int, 0x1E57int), (0x1E59int, 0x1E59int), (0x1E5Bint, 0x1E5Bint), (0x1E5Dint, 0x1E5Dint)]
}

pub open spec fn lowercase_chunk_41() -> Seq<SRange> {
    seq![(0x1E5Fint, 0x1E5Fint), (0x1E61int, 0x1E61int), (0x1E63int, 0x1E63int), (0x1E65int, 0x1E65int), (0x1E67int, 0x1E67int), (0x1E69int, 0x1E69int), (0x1E6Bint, 0x1E6Bint), (0x1E6Dint, 0x1E6Dint)]
}

pub open spec fn lowercase_chunk_42() -> Seq<SRange> {
    seq![(0x1E6Fint, 0x1E6Fint), (0x1E71int, 0x1E71int), (0x1E73int, 0x1E73int), (0x1E75int, 0x1E75int), (0x1E77int, 0x1E77int), (0x1E79int, 0x1E79int), (0x1E7Bint, 0x1E7Bint), (0x1E7Dint, 0x1E7Dint)]
}

pub open spec fn lowercase_chunk_43() -> Seq<SRange> {
    seq![(0x1E7Fint, 0x1E7Fint), (0x1E81int, 0x1E81int), (0x1E83int, 0x1E83int), (0x1E85int, 0x1E85int), (0x1E87int, 0x1E87int), (0x1E89int, 0x1E89int), (0x1E8Bint, 0x1E8Bint), (0x1E8Dint, 0x1E8Dint)]
}

pub open spec fn lowercase_chunk_44() -> Seq<SRange> {
    seq![(0x1E8Fint, 0x1E8Fint), (0x1E91int, 0x1E91int), (0x1E93int, 0x1E93int), (0x1E95int, 0x1E9Dint), (0x1E9Fint, 0x1E9Fint), (0x1EA1int, 0x1EA1int), (0x1EA3int, 0x1EA3int), (0x1EA5int, 0x1EA5int)]
}

pub open spec fn lowercase_chunk_45() -> Seq<SRange> {
    seq![(0x1EA7int, 0x1EA7int), (0x1EA9int, 0x1EA9int), (0x1EABint, 0x1EABint), (0x1EADint, 0x1EADint), (0x1EAFint, 0x1EAFint), (0x1EB1int, 0x1EB1int), (0x1EB3int, 0x1EB3int), (0x1EB5int, 0x1EB5int)]
}

pub open spec fn lowercase_chunk_46() -> Seq<SRange> {
    seq![(0x1EB7int, 0x1EB7int), (0x1EB9int, 0x1EB9int), (0x1EBBint, 0x1EBBint), (0x1EBDint, 0x1EBDint), (0x1EBFint, 0x1EBFint), (0x1EC1int, 0x1EC1int), (0x1EC3int, 0x1EC3int), (0x1EC5int, 0x1EC5int)]
}

pub open spec fn lowercase_chunk_47() -> Seq<SRange> {
    seq![(0x1EC7int, 0x1EC7int), (0x1EC9int, 0x1EC9int), (0x1ECBint, 0x1ECBint), (0x1ECDint, 0x1ECDint), (0x1ECFint, 0x1ECFint), (0x1ED1int, 0x1ED1int), (0x1ED3int, 0x1ED3int), (0x1ED5int, 0x1ED5int)]
}

pub open spec fn lowercase_chunk_48() -> Seq<SRange> {
    seq![(0x1ED7int, 0x1ED7int), (0x1ED9int, 0x1ED9int), (0x1EDBint, 0x1EDBint), (0x1EDDint, 0x1EDDint), (0x1EDFint, 0x1EDFint), (0x1EE1int, 0x1EE1int), (0x1EE3int, 0x1EE3int), (0x1EE5int, 0x1EE5int)]
}

pub open spec fn lowercase_chunk_49() -> Seq<SRange> {
    seq![(0x1EE7int, 0x1EE7int), (0x1EE9int, 0x1EE9int), (0x1EEBint, 0x1EEBint), (0x1EEDint, 0x1EEDint), (0x1EEFint, 0x1EEFint), (0x1EF1int, 0x1EF1int), (0x1EF3int, 0x1EF3int), (0x1EF5int, 0x1EF5int)]
}

pub open spec fn lowercase_chunk_50() -> Seq<SRange> {
    seq![(0x1EF7int, 0x1EF7int), (0x1EF9int, 0x1EF9int), (0x1EFBint, 0x1EFBint), (0x1EFDint, 0x1EFDint), (0x1EFFint, 0x1F07int), (0x1F10int, 0x1F15int), (0x1F20int, 0x1F27int), (0x1F30int, 0x1F37int)]
}

pub open spec fn lowercase_chunk_51() -> Seq<SRange> {
    seq![(0x1F40int, 0x1F45int), (0x1F50int, 0x1F57int), (0x1F60int, 0x1F67int), (0x1F70int, 0x1F7Dint), (0x1F80int, 0x1F87int), (0x1F90int, 0x1F97int), (0x1FA0int, 0x1FA7int), (0x1FB0int, 0x1FB4int)]
}

pub open spec fn lowercase_chunk_52() -> Seq<SRange> {
    seq![(0x1FB6int, 0x1FB7int), (0x1FBEint, 0x1FBEint), (0x1FC2int, 0x1FC4int), (0x1FC6int, 0x1FC7int), (0x1FD0int, 0x1FD3int), (0x1FD6int, 0x1FD7int), (0x1FE0int, 0x1FE7int), (0x1FF2int, 0x1FF4int)]
}

pub open spec fn lowercase_chunk_53() -> Seq<SRange> {
    seq![(0x1FF6int, 0x1FF7int), (0x2071int, 0x2071int), (0x207Fint, 0x207Fint), (0x2090int, 0x209Cint), (0x210Aint, 0x210Aint), (0x210Eint, 0x210Fint), (0x2113int, 0x2113int), (0x212Fint, 0x212Fint)]
}

pub open spec fn lowercase_chunk_54() -> Seq<SRange> {
    seq![(0x2134int, 0x2134int), (0x2139int, 0x2139int), (0x213Cint, 0x213Dint), (0x2146int, 0x2149int), (0x214Eint, 0x214Eint), (0x2170int, 0x217Fint), (0x2184int, 0x2184int), (0x24D0int, 0x24E9int)]
}

pub open spec fn lowercase_chunk_55() -> Seq<SRange> {
    seq![(0x2C30int, 0x2C5Fint), (0x2C61int, 0x2C61int), (0x2C65int, 0x2C66int), (0x2C68int, 0x2C68int), (0x2C6Aint, 0x2C6Aint), (0x2C6Cint, 0x2C6Cint), (0x2C71int, 0x2C71int), (0x2C73int, 0x2C74int)]
}

pub open spec fn lowercase_chunk_56() -> Seq<SRange> {
    seq![(0x2C76int, 0x2C7Dint), (0x2C81int, 0x2C81int), (0x2C83int, 0x2C83int), (0x2C85int, 0x2C85int), (0x2C87int, 0x2C87int), (0x2C89int, 0x2C89int), (0x2C8Bint, 0x2C8Bint), (0x2C8Dint, 0x2C8Dint)]
}

pub open spec fn lowercase_chunk_57() -> Seq<SRange> {
    seq![(0x2C8Fint, 0x2C8Fint), (0x2C91int, 0x2C91int), (0x2C93int, 0x2C93int), (0x2C95int, 0x2C95int), (0x2C97int, 0x2C97int), (0x2C99int, 0x2C99int), (0x2C9Bint, 0x2C9Bint), (0x2C9Dint, 0x2C9Dint)]
}

pub open spec fn lowercase_chunk_58() -> Seq<SRange> {
    seq![(0x2C9Fint, 0x2C9Fint), (0x2CA1int, 0x2CA1int), (0x2CA3int, 0x2CA3int), (0x2CA5int, 0x2CA5int), (0x2CA7int, 0x2CA7int), (0x2CA9int, 0x2CA9int), (0x2CABint, 0x2CABint), (0x2CADint, 0x2CADint)]
}

pub open spec fn lowercase_chunk_59() -> Seq<SRange> {
    seq![(0x2CAFint, 0x2CAFint), (0x2CB1int, 0x2CB1int), (0x2CB3int, 0x2CB3int), (0x2CB5int, 0x2CB5int), (0x2CB7int, 0x2CB7int), (0x2CB9int, 0x2CB9int), (0x2CBBint, 0x2CBBint), (0x2CBDint, 0x2CBDint)]
}

pub open spec fn lowercase_chunk_60() -> Seq<SRange> {
    seq![(0x2CBFint, 0x2CBFint), (0x2CC1int, 0x2CC1int), (0x2CC3int, 0x2CC3int), (0x2CC5int, 0x2CC5int), (0x2CC7int, 0x2CC7int), (0x2CC9int, 0x2CC9int), (0x2CCBint, 0x2CCBint), (0x2CCDint, 0x2CCDint)]
}

pub open spec fn lowercase_chunk_61() -> Seq<SRange> {
    seq![(0x2CCFint, 0x2CCFint), (0x2CD1int, 0x2CD1int), (0x2CD3int, 0x2CD3int), (0x2CD5int, 0x2CD5int), (0x2CD7int, 0x2CD7int), (0x2CD9int, 0x2CD9int), (0x2CDBint, 0x2CDBint), (0x2CDDint, 0x2CDDint)]
}

pub open spec fn lowercase_chunk_62() -> Seq<SRange> {
    seq![(0x2CDFint, 0x2CDFint), (0x2CE1int, 0x2CE1int), (0x2CE3int, 0x2CE4int), (0x2CECint, 0x2CECint), (0x2CEEint, 0x2CEEint), (0x2CF3int, 0x2CF3int), (0x2D00int, 0x2D25int), (0x2D27int, 0x2D27int)]
}

pub open spec fn lowercase_chunk_63() -> Seq<SRange> {
    seq![(0x2D2Dint, 0x2D2Dint), (0xA641int, 0xA641int), (0xA643int, 0xA643int), (0xA645int, 0xA645int), (0xA647int, 0xA647int), (0xA649int, 0xA649int), (0xA64Bint, 0xA64Bint), (0xA64Dint, 0xA64Dint)]
}

pub open spec fn lowercase_chunk_64() -> Seq<SRange> {
    seq![(0xA64Fint, 0xA64Fint), (0xA651int, 0xA651int), (0xA653int, 0xA653int), (0xA655int, 0xA655int), (0xA657int, 0xA657int), (0xA659int, 0xA659int), (0xA65Bint, 0xA65Bint), (0xA65Dint, 0xA65Dint)]
}

pub open spec fn lowercase_chunk_65() -> Seq<SRange> {
    seq![(0xA65Fint, 0xA65Fint), (0xA661int, 0xA661int), (0xA663int, 0xA663int), (0xA665int, 0xA665int), (0xA667int, 0xA667int), (0xA669int, 0xA669int), (0xA66Bint, 0xA66Bint), (0xA66Dint, 0xA66Dint)]
}

pub open spec fn lowercase_chunk_66() -> Seq<SRange> {
    seq![(0xA681int, 0xA681int), (0xA683int, 0xA683int), (0xA685int, 0xA685int), (0xA687int, 0xA687int), (0xA689int, 0xA689int), (0xA68Bint, 0xA68Bint), (0xA68Dint, 0xA68Dint), (0xA68Fint, 0xA68Fint)]
}

pub open spec fn lowercase_chunk_67() -> Seq<SRange> {
    seq![(0xA691int, 0xA691int), (0xA693int, 0xA693int), (0xA695int, 0xA695int), (0xA697int, 0xA697int), (0xA699int, 0xA699int), (0xA69Bint, 0xA69Dint), (0xA723int, 0xA723int), (0xA725int, 0xA725int)]
}

pub open spec fn lowercase_chunk_68() -> Seq<SRange> {
    seq![(0xA727int, 0xA727int), (0xA729int, 0xA729int), (0xA72Bint, 0xA72Bint), (0xA72Dint, 0xA72Dint), (0xA72Fint, 0xA731int), (0xA733int, 0xA733int), (0xA735int, 0xA735int), (0xA737int, 0xA737int)]
}

pub open spec fn lowercase_chunk_69() -> Seq<SRange> {
    seq![(0xA739int, 0xA739int), (0xA73Bint, 0xA73Bint), (0xA73Dint, 0xA73Dint), (0xA73Fint, 0xA73Fint), (0xA741int, 0xA741int), (0xA743int, 0xA743int), (0xA745int, 0xA745int), (0xA747int, 0xA747int)]
}

pub open spec fn lowercase_chunk_70() -> Seq<SRange> {
    seq![(0xA749int, 0xA749int), (0xA74Bint, 0xA74Bint), (0xA74Dint, 0xA74Dint), (0xA74Fint, 0xA74Fint), (0xA751int, 0xA751int), (0xA753int, 0xA753int), (0xA755int, 0xA755int), (0xA757int, 0xA757int)]
}

pub open spec fn lowercase_chunk_71() -> Seq<SRange> {
    seq![(0xA759int, 0xA759int), (0xA75Bint, 0xA75Bint), (0xA75Dint, 0xA75Dint), (0xA75Fint, 0xA75Fint), (0xA761int, 0xA761int), (0xA763int, 0xA763int), (0xA765int, 0xA765int), (0xA767int, 0xA767int)]
}

pub open spec fn lowercase_chunk_72() -> Seq<SRange> {
    seq![(0xA769int, 0xA769int), (0xA76Bint, 0xA76Bint), (0xA76Dint, 0xA76Dint), (0xA76Fint, 0xA778int), (0xA77Aint, 0xA77Aint), (0xA77Cint, 0xA77Cint), (0xA77Fint, 0xA77Fint), (0xA781int, 0xA781int)]
}

pub open spec fn lowercase_chunk_73() -> Seq<SRange> {
    seq![(0xA783int, 0xA783int), (0xA785int, 0xA785int), (0xA787int, 0xA787int), (0xA78Cint, 0xA78Cint), (0xA78Eint, 0xA78Eint), (0xA791int, 0xA791int), (0xA793int, 0xA795int), (0xA797int, 0xA797int)]
}

pub open spec fn lowercase_chunk_74() -> Seq<SRange> {
    seq![(0xA799int, 0xA799int), (0xA79Bint, 0xA79Bint), (0xA79Dint, 0xA79Dint), (0xA79Fint, 0xA79Fint), (0xA7A1int, 0xA7A1int), (0xA7A3int, 0xA7A3int), (0xA7A5int, 0xA7A5int), (0xA7A7int, 0xA7A7int)]
}

pub open spec fn lowercase_chunk_75() -> Seq<SRange> {
    seq![(0xA7A9int, 0xA7A9int), (0xA7AFint, 0xA7AFint), (0xA7B5int, 0xA7B5int), (0xA7B7int, 0xA7B7int), (0xA7B9int, 0xA7B9int), (0xA7BBint, 0xA7BBint), (0xA7BDint, 0xA7BDint), (0xA7BFint, 0xA7BFint)]
}

pub open spec fn lowercase_chunk_76() -> Seq<SRange> {
    seq![(0xA7C1int, 0xA7C1int), (0xA7C3int, 0xA7C3int), (0xA7C8int, 0xA7C8int), (0xA7CAint, 0xA7CAint), (0xA7CDint, 0xA7CDint), (0xA7D1int, 0xA7D1int), (0xA7D3int, 0xA7D3int), (0xA7D5int, 0xA7D5int)]
}

pub open spec fn lowercase_chunk_77() -> Seq<SRange> {
    seq![(0xA7D7int, 0xA7D7int), (0xA7D9int, 0xA7D9int), (0xA7DBint, 0xA7DBint), (0xA7F2int, 0xA7F4int), (0xA7F6int, 0xA7F6int), (0xA7F8int, 0xA7FAint), (0xAB30int, 0xAB5Aint), (0xAB5Cint, 0xAB69int)]
}

pub open spec fn lowercase_chunk_78() -> Seq<SRange> {
    seq![(0xAB70int, 0xABBFint), (0xFB00int, 0xFB06int), (0xFB13int, 0xFB17int), (0xFF41int, 0xFF5Aint), (0x10428int, 0x1044Fint), (0x104D8int, 0x104FBint), (0x10597int, 0x105A1int), (0x105A3int, 0x105B1int)]
}

pub open spec fn lowercase_chunk_79() -> Seq<SRange> {
    seq![(0x105B3int, 0x105B9int), (0x105BBint, 0x105BCint), (0x10780int, 0x10780int), (0x10783int, 0x10785int), (0x10787int, 0x107B0int), (0x107B2int, 0x107BAint), (0x10CC0int, 0x10CF2int), (0x10D70int, 0x10D85int)]
}

pub open spec fn lowercase_chunk_80() -> Seq<SRange> {
    seq![(0x118C0int, 0x118DFint), (0x16E60int, 0x16E7Fint), (0x1D41Aint, 0x1D433int), (0x1D44Eint, 0x1D454int), (0x1D456int, 0x1D467int), (0x1D482int, 0x1D49Bint), (0x1D4B6int, 0x1D4B9int), (0x1D4BBint, 0x1D4BBint)]
}

pub open spec fn lowercase_chunk_81() -> Seq<SRange> {
    seq![(0x1D4BDint, 0x1D4C3int), (0x1D4C5int, 0x1D4CFint), (0x1D4EAint, 0x1D503int), (0x1D51Eint, 0x1D537int), (0x1D552int, 0x1D56Bint), (0x1D586int, 0x1D59Fint), (0x1D5BAint, 0x1D5D3int), (0x1D5EEint, 0x1D607int)]
}

pub open spec fn lowercase_chunk_82() -> Seq<SRange> {
    seq![(0x1D622int, 0x1D63Bint), (0x1D656int, 0x1D66Fint), (0x1D68Aint, 0x1D6A5int), (0x1D6C2int, 0x1D6DAint), (0x1D6DCint, 0x1D6E1int), (0x1D6FCint, 0x1D714int), (0x1D716int, 0x1D71Bint), (0x1D736int, 0x1D74Eint)]
}

pub open spec fn lowercase_chunk_83() -> Seq<SRange> {
    seq![(0x1D750int, 0x1D755int), (0x1D770int, 0x1D788int), (0x1D78Aint, 0x1D78Fint), (0x1D7AAint, 0x1D7C2int), (0x1D7C4int, 0x1D7C9int), (0x1D7CBint, 0x1D7CBint), (0x1DF00int, 0x1DF09int), (0x1DF0Bint, 0x1DF1Eint)]
}

pub open spec fn lowercase_chunk_84() -> Seq<SRange> {
    seq![(0x1DF25int, 0x1DF2Aint), (0x1E030int, 0x1E06Dint), (0x1E922int, 0x1E943int)]
}

pub open spec fn lowercase_block_0() -> Seq<SRange> {
    lowercase_chunk_0() + lowercase_chunk_1() + lowercase_chunk_2() + lowercase_chunk_3() + lowercase_chunk_4() + lowercase_chunk_5() + lowercase_chunk_6() + lowercase_chunk_7() + lowercase_chunk_8() + lowercase_chunk_9()
}

pub open spec fn lowercase_block_1() -> Seq<SRange> {
    lowercase_chunk_10() + lowercase_chunk_11() + lowercase_chunk_12() + lowercase_chunk_13() + lowercase_chunk_14() + lowercase_chunk_15() + lowercase_chunk_16() + lowercase_chunk_17() + lowercase_chunk_18() + lowercase_chunk_19()
}

pub open spec fn lowercase_block_2() -> Seq<SRange> {
    lowercase_chunk_20() + lowercase_chunk_21() + lowercase_chunk_22() + lowercase_chunk_23() + lowercase_chunk_24() + lowercase_chunk_25() + lowercase_chunk_26() + lowercase_chunk_27() + lowercase_chunk_28() + lowercase_chunk_29()
}

pub open spec fn lowercase_block_3() -> Seq<SRange> {
    lowercase_chunk_30() + lowercase_chunk_31() + lowercase_chunk_32() + lowercase_chunk_33() + lowercase_chunk_34() + lowercase_chunk_35() + lowercase_chunk_36() + lowercase_chunk_37() + lowercase_chunk_38() + lowercase_chunk_39()
}

pub open spec fn lowercase_block_4() -> Seq<SRange> {
    lowercase_chunk_40() + lowercase_chunk_41() + lowercase_chunk_42() + lowercase_chunk_43() + lowercase_chunk_44() + lowercase_chunk_45() + lowercase_chunk_46() + lowercase_chunk_47() + lowercase_chunk_48() + lowercase_chunk_49()
}

pub open spec fn lowercase_block_5() -> Seq<SRange> {
    lowercase_chunk_50() + lowercase_chunk_51() + lowercase_chunk_52() + lowercase_chunk_53() + lowercase_chunk_54() + lowercase_chunk_55() + lowercase_chunk_56() + lowercase_chunk_57() + lowercase_chunk_58() + lowercase_chunk_59()
}

pub open spec fn lowercase_block_6() -> Seq<SRange> {
    lowercase_chunk_60() + lowercase_chunk_61() + lowercase_chunk_62() + lowercase_chunk_63() + lowercase_chunk_64() + lowercase_chunk_65() + lowercase_chunk_66() + lowercase_chunk_67() + lowercase_chunk_68() + lowercase_chunk_69()
}

pub open spec fn lowercase_block_7() -> Seq<SRange> {
    lowercase_chunk_70() + lowercase_chunk_71() + lowercase_chunk_72() + lowercase_chunk_73() + lowercase_chunk_74() + lowercase_chunk_75() + lowercase_chunk_76() + lowercase_chunk_77() + lowercase_chunk_78() + lowercase_chunk_79()
}

pub open spec fn lowercase_block_8() -> Seq<SRange> {
    lowercase_chunk_80() + lowercase_chunk_81() + lowercase_chunk_82() + lowercase_chunk_83() + lowercase_chunk_84()
}

/// The ranges of the property Lowercase.
pub open spec fn lowercase_ranges() -> Seq<SRange> {
    lowercase_block_0() + lowercase_block_1() + lowercase_block_2() + lowercase_block_3() + lowercase_block_4() + lowercase_block_5() + lowercase_block_6() + lowercase_block_7() + lowercase_block_8()
}

proof fn lemma_lowercase_block_0()
    ensures
        canonical(lowercase_block_0()),
        lowercase_block_0().len() > 0,
        lowercase_block_0()[0] == lowercase_chunk_0()[0],
        lowercase_block_0().last() == lowercase_chunk_9().last(),
{
    reveal_with_fuel(canonical, 9);
    assert(canonical(lowercase_chunk_0()));
    assert(canonical(lowercase_chunk_1()));
    assert(canonical(lowercase_chunk_2()));
    assert(canonical(lowercase_chunk_3()));
    assert(canonical(lowercase_chunk_4()));
    assert(canonical(lowercase_chunk_5()));
    assert(canonical(lowercase_chunk_6()));
    assert(canonical(lowercase_chunk_7()));
    assert(canonical(lowercase_chunk_8()));
    assert(canonical(lowercase_chunk_9()));
    lemma_canonical_append(lowercase_chunk_0(), lowercase_chunk_1());
    lemma_canonical_append(lowercase_chunk_0() + lowercase_chunk_1(), lowercase_chunk_2());
    lemma_canonical_append(lowercase_chunk_0() + lowercase_chunk_1() + lowercase_chunk_2(), lowercase_chunk_3());
    lemma_canonical_append(lowercase_chunk_0() + lowercase_chunk_1() + lowercase_chunk_2() + lowercase_chunk_3(), lowercase_chunk_4());
    lemma_canonical_append(lowercase_chunk_0() + lowercase_chunk_1() + lowercase_chunk_2() + lowercase_chunk_3() + lowercase_chunk_4(), lowercase_chunk_5());
    lemma_canonical_append(lowercase_chunk_0() + lowercase_chunk_1() + lowercase_chunk_2() + lowercase_chunk_3() + lowercase_chunk_4() + lowercase_chunk_5(), lowercase_chunk_6());
    lemma_canonical_append(lowercase_chunk_0() + lowercase_chunk_1() + lowercase_chunk_2() + lowercase_chunk_3() + lowercase_chunk_4() + lowercase_chunk_5() + lowercase_chunk_6(), lowercase_chunk_7());
    lemma_canonical_append(lowercase_chunk_0() + lowercase_chunk_1() + lowercase_chunk_2() + lowercase_chunk_3() + lowercase_chunk_4() + lowercase_chunk_5() + lowercase_chunk_6() + lowercase_chunk_7(), lowercase_chunk_8());
    lemma_canonical_append(lowercase_chunk_0() + lowercase_chunk_1() + lowercase_chunk_2() + lowercase_chunk_3() + lowercase_chunk_4() + lowercase_chunk_5() + lowercase_chunk_6() + lowercase_chunk_7() + lowercase_chunk_8(), lowercase_chunk_9());
}

proof fn lemma_lowercase_block_1()
    ensures
        canonical(lowercase_block_1()),
        lowercase_block_1().len() > 0,
        lowercase_block_1()[0] == lowercase_chunk_10()[0],
        lowercase_block_1().last() == lowercase_chunk_19().last(),
{
    reveal_with_fuel(canonical, 9);
    assert(canonical(lowercase_chunk_10()));
    assert(canonical(lowercase_chunk_11()));
    assert(canonical(lowercase_chunk_12()));
    assert(canonical(lowercase_chunk_13()));
    assert(canonical(lowercase_chunk_14()));
    assert(canonical(lowercase_chunk_15()));
    assert(canonical(lowercase_chunk_16()));
    assert(canonical(lowercase_chunk_17()));
    assert(canonical(lowercase_chunk_18()));
    assert(canonical(lowercase_chunk_19()));
    lemma_canonical_append(lowercase_chunk_10(), lowercase_chunk_11());
    lemma_canonical_append(lowercase_chunk_10() + lowercase_chunk_11(), lowercase_chunk_12());
    lemma_canonical_append(lowercase_chunk_10() + lowercase_chunk_11() + lowercase_chunk_12(), lowercase_chunk_13());
    lemma_canonical_append(lowercase_chunk_10() + lowercase_chunk_11() + lowercase_chunk_12() + lowercase_chunk_13(), lowercase_chunk_14());
    lemma_canonical_append(lowercase_chunk_10() + lowercase_chunk_11() + lowercase_chunk_12() + lowercase_chunk_13() + lowercase_chunk_14(), lowercase_chunk_15());
    lemma_canonical_append(lowercase_chunk_10() + lowercase_chunk_11() + lowercase_chunk_12() + lowercase_chunk_13() + lowercase_chunk_14() + lowercase_chunk_15(), lowercase_chunk_16());
    lemma_canonical_append(lowercase_chunk_10() + lowercase_chunk_11() + lowercase_chunk_12() + lowercase_chunk_13() + lowercase_chunk_14() + lowercase_chunk_15() + lowercase_chunk_16(), lowercase_chunk_17());
    lemma_canonical_append(lowercase_chunk_10() + lowercase_chunk_11() + lowercase_chunk_12() + lowercase_chunk_13() + lowercase_chunk_14() + lowercase_chunk_15() + lowercase_chunk_16() + lowercase_chunk_17(), lowercase_chunk_18());
    lemma_canonical_append(lowercase_chunk_10() + lowercase_chunk_11() + lowercase_chunk_12() + lowercase_chunk_13() + lowercase_chunk_14() + lowercase_chunk_15() + lowercase_chunk_16() + lowercase_chunk_17() + lowercase_chunk_18(), lowercase_chunk_19());
}

proof fn lemma_lowercase_block_2()
    ensures
        canonical(lowercase_block_2()),
        lowercase_block_2().len() > 0,
        lowercase_block_2()[0] == lowercase_chunk_20()[0],
        lowercase_block_2().last() == lowercase_chunk_29().last(),
{
    reveal_with_fuel(canonical, 9);
    assert(canonical(lowercase_chunk_20()));
    assert(canonical(lowercase_chunk_21()));
    assert(canonical(lowercase_chunk_22()));
    assert(canonical(lowercase_chunk_23()));
    assert(canonical(lowercase_chunk_24()));
    assert(canonical(lowercase_chunk_25()));
    assert(canonical(lowercase_chunk_26()));
    assert(canonical(lowercase_chunk_27()));
    assert(canonical(lowercase_chunk_28()));
    assert(canonical(lowercase_chunk_29()));
    lemma_canonical_append(lowercase_chunk_20(), lowercase_chunk_21());
    lemma_canonical_append(lowercase_chunk_20() + lowercase_chunk_21(), lowercase_chunk_22());
    lemma_canonical_append(lowercase_chunk_20() + lowercase_chunk_21() + lowercase_chunk_22(), lowercase_chunk_23());
    lemma_canonical_append(lowercase_chunk_20() + lowercase_chunk_21() + lowercase_chunk_22() + lowercase_chunk_23(), lowercase_chunk_24());
    lemma_canonical_append(lowercase_chunk_20() + lowercase_chunk_21() + lowercase_chunk_22() + lowercase_chunk_23() + lowercase_chunk_24(), lowercase_chunk_25());
    lemma_canonical_append(lowercase_chunk_20() + lowercase_chunk_21() + lowercase_chunk_22() + lowercase_chunk_23() + lowercase_chunk_24() + lowercase_chunk_25(), lowercase_chunk_26());
    lemma_canonical_append(lowercase_chunk_20() + lowercase_chunk_21() + lowercase_chunk_22() + lowercase_chunk_23() + lowercase_chunk_24() + lowercase_chunk_25() + lowercase_chunk_26(), lowercase_chunk_27());
    lemma_canonical_append(lowercase_chunk_20() + lowercase_chunk_21() + lowercase_chunk_22() + lowercase_chunk_23() + lowercase_chunk_24() + lowercase_chunk_25() + lowercase_chunk_26() + lowercase_chunk_27(), lowercase_chunk_28());
    lemma_canonical_append(lowercase_chunk_20() + lowercase_chunk_21() + lowercase_chunk_22() + lowercase_chunk_23() + lowercase_chunk_24() + lowercase_chunk_25() + lowercase_chunk_26() + lowercase_chunk_27() + lowercase_chunk_28(), lowercase_chunk_29());
}

proof fn lemma_lowercase_block_3()
    ensures
        canonical(lowercase_block_3()),
        lowercase_block_3().len() > 0,
        lowercase_block_3()[0] == lowercase_chunk_30()[0],
        lowercase_block_3().last() == lowercase_chunk_39().last(),
{
    reveal_with_fuel(canonical, 9);
    assert(canonical(lowercase_chunk_30()));
    assert(canonical(lowercase_chunk_31()));
    assert(canonical(lowercase_chunk_32()));
    assert(canonical(lowercase_chunk_33()));
    assert(canonical(lowercase_chunk_34()));
    assert(canonical(lowercase_chunk_35()));
    assert(canonical(lowercase_chunk_36()));
    assert(canonical(lowercase_chunk_37()));
    assert(canonical(lowercase_chunk_38()));
    assert(canonical(lowercase_chunk_39()));
    lemma_canonical_append(lowercase_chunk_30(), lowercase_chunk_31());
    lemma_canonical_append(lowercase_chunk_30() + lowercase_chunk_31(), lowercase_chunk_32());
    lemma_canonical_append(lowercase_chunk_30() + lowercase_chunk_31() + lowercase_chunk_32(), lowercase_chunk_33());
    lemma_canonical_append(lowercase_chunk_30() + lowercase_chunk_31() + lowercase_chunk_32() + lowercase_chunk_33(), lowercase_chunk_34());
    lemma_canonical_append(lowercase_chunk_30() + lowercase_chunk_31() + lowercase_chunk_32() + lowercase_chunk_33() + lowercase_chunk_34(), lowercase_chunk_35());
    lemma_canonical_append(lowercase_chunk_30() + lowercase_chunk_31() + lowercase_chunk_32() + lowercase_chunk_33() + lowercase_chunk_34() + lowercase_chunk_35(), lowercase_chunk_36());
    lemma_canonical_append(lowercase_chunk_30() + lowercase_chunk_31() + lowercase_chunk_32() + lowercase_chunk_33() + lowercase_chunk_34() + lowercase_chunk_35() + lowercase_chunk_36(), lowercase_chunk_37());
    lemma_canonical_append(lowercase_chunk_30() + lowercase_chunk_31() + lowercase_chunk_32() + lowercase_chunk_33() + lowercase_chunk_34() + lowercase_chunk_35() + lowercase_chunk_36() + lowercase_chunk_37(), lowercase_chunk_38());
    lemma_canonical_append(lowercase_chunk_30() + lowercase_chunk_31() + lowercase_chunk_32() + lowercase_chunk_33() + lowercase_chunk_34() + lowercase_chunk_35() + lowercase_chunk_36() + lowercase_chunk_37() + lowercase_chunk_38(), lowercase_chunk_39());
}

proof fn lemma_lowercase_block_4()
    ensures
        canonical(lowercase_block_4()),
        lowercase_block_4().len() > 0,
        lowercase_block_4()[0] == lowercase_chunk_40()[0],
        lowercase_block_4().last() == lowercase_chunk_49().last(),
{
    reveal_with_fuel(canonical, 9);
    assert(canonical(lowercase_chunk_40()));
    assert(canonical(lowercase_chunk_41()));
    assert(canonical(lowercase_chunk_42()));
    assert(canonical(lowercase_chunk_43()));
    assert(canonical(lowercase_chunk_44()));
    assert(canonical(lowercase_chunk_45()));
    assert(canonical(lowercase_chunk_46()));
    assert(canonical(lowercase_chunk_47()));
    assert(canonical(lowercase_chunk_48()));
    assert(canonical(lowercase_chunk_49()));
    lemma_canonical_append(lowercase_chunk_40(), lowercase_chunk_41());
    lemma_canonical_append(lowercase_chunk_40() + lowercase_chunk_41(), lowercase_chunk_42());
    lemma_canonical_append(lowercase_chunk_40() + lowercase_chunk_41() + lowercase_chunk_42(), lowercase_chunk_43());
    lemma_canonical_append(lowercase_chunk_40() + lowercase_chunk_41() + lowercase_chunk_42() + lowercase_chunk_43(), lowercase_chunk_44());
    lemma_canonical_append(lowercase_chunk_40() + lowercase_chunk_41() + lowercase_chunk_42() + lowercase_chunk_43() + lowercase_chunk_44(), lowercase_chunk_45());
    lemma_canonical_append(lowercase_chunk_40() + lowercase_chunk_41() + lowercase_chunk_42() + lowercase_chunk_43() + lowercase_chunk_44() + lowercase_chunk_45(), lowercase_chunk_46());
    lemma_canonical_append(lowercase_chunk_40() + lowercase_chunk_41() + lowercase_chunk_42() + lowercase_chunk_43() + lowercase_chunk_44() + lowercase_chunk_45() + lowercase_chunk_46(), lowercase_chunk_47());
    lemma_canonical_append(lowercase_chunk_40() + lowercase_chunk_41() + lowercase_chunk_42() + lowercase_chunk_43() + lowercase_chunk_44() + lowercase_chunk_45() + lowercase_chunk_46() + lowercase_chunk_47(), lowercase_chunk_48());
    lemma_canonical_append(lowercase_chunk_40() + lowercase_chunk_41() + lowercase_chunk_42() + lowercase_chunk_43() + lowercase_chunk_44() + lowercase_chunk_45() + lowercase_chunk_46() + lowercase_chunk_47() + lowercase_chunk_48(), lowercase_chunk_49());
}

proof fn lemma_lowercase_block_5()
    ensures
        canonical(lowercase_block_5()),
        lowercase_block_5().len() > 0,
        lowercase_block_5()[0] == lowercase_chunk_50()[0],
        lowercase_block_5().last() == lowercase_chunk_59().last(),
{
    reveal_with_fuel(canonical, 9);
    assert(canonical(lowercase_chunk_50()));
    assert(canonical(lowercase_chunk_51()));
    assert(canonical(lowercase_chunk_52()));
    assert(canonical(lowercase_chunk_53()));
    assert(canonical(lowercase_chunk_54()));
    assert(canonical(lowercase_chunk_55()));
    assert(canonical(lowercase_chunk_56()));
    assert(canonical(lowercase_chunk_57()));
    assert(canonical(lowercase_chunk_58()));
    assert(canonical(lowercase_chunk_59()));
    lemma_canonical_append(lowercase_chunk_50(), lowercase_chunk_51());
    lemma_canonical_append(lowercase_chunk_50() + lowercase_chunk_51(), lowercase_chunk_52());
    lemma_canonical_append(lowercase_chunk_50() + lowercase_chunk_51() + lowercase_chunk_52(), lowercase_chunk_53());
    lemma_canonical_append(lowercase_chunk_50() + lowercase_chunk_51() + lowercase_chunk_52() + lowercase_chunk_53(), lowercase_chunk_54());
    lemma_canonical_append(lowercase_chunk_50() + lowercase_chunk_51() + lowercase_chunk_52() + lowercase_chunk_53() + lowercase_chunk_54(), lowercase_chunk_55());
    lemma_canonical_append(lowercase_chunk_50() + lowercase_chunk_51() + lowercase_chunk_52() + lowercase_chunk_53() + lowercase_chunk_54() + lowercase_chunk_55(), lowercase_chunk_56());
    lemma_canonical_append(lowercase_chunk_50() + lowercase_chunk_51() + lowercase_chunk_52() + lowercase_chunk_53() + lowercase_chunk_54() + lowercase_chunk_55() + lowercase_chunk_56(), lowercase_chunk_57());
    lemma_canonical_append(lowercase_chunk_50() + lowercase_chunk_51() + lowercase_chunk_52() + lowercase_chunk_53() + lowercase_chunk_54() + lowercase_chunk_55() + lowercase_chunk_56() + lowercase_chunk_57(), lowercase_chunk_58());
    lemma_canonical_append(lowercase_chunk_50() + lowercase_chunk_51() + lowercase_chunk_52() + lowercase_chunk_53() + lowercase_chunk_54() + lowercase_chunk_55() + lowercase_chunk_56() + lowercase_chunk_57() + lowercase_chunk_58(), lowercase_chunk_59());
}

proof fn lemma_lowercase_block_6()
    ensures
        canonical(lowercase_block_6()),
        lowercase_block_6().len() > 0,
        lowercase_block_6()[0] == lowercase_chunk_60()[0],
        lowercase_block_6().last() == lowercase_chunk_69().last(),
{
    reveal_with_fuel(canonical, 9);
    assert(canonical(lowercase_chunk_60()));
    assert(canonical(lowercase_chunk_61()));
    assert(canonical(lowercase_chunk_62()));
    assert(canonical(lowercase_chunk_63()));
    assert(canonical(lowercase_chunk_64()));
    assert(canonical(lowercase_chunk_65()));
    assert(canonical(lowercase_chunk_66()));
    assert(canonical(lowercase_chunk_67()));
    assert(canonical(lowercase_chunk_68()));
    assert(canonical(lowercase_chunk_69()));
    lemma_canonical_append(lowercase_chunk_60(), lowercase_chunk_61());
    lemma_canonical_append(lowercase_chunk_60() + lowercase_chunk_61(), lowercase_chunk_62());
    lemma_canonical_append(lowercase_chunk_60() + lowercase_chunk_61() + lowercase_chunk_62(), lowercase_chunk_63());
    lemma_canonical_append(lowercase_chunk_60() + lowercase_chunk_61() + lowercase_chunk_62() + lowercase_chunk_63(), lowercase_chunk_64());
    lemma_canonical_append(lowercase_chunk_60() + lowercase_chunk_61() + lowercase_chunk_62() + lowercase_chunk_63() + lowercase_chunk_64(), lowercase_chunk_65());
    lemma_canonical_append(lowercase_chunk_60() + lowercase_chunk_61() + lowercase_chunk_62() + lowercase_chunk_63() + lowercase_chunk_64() + lowercase_chunk_65(), lowercase_chunk_66());
    lemma_canonical_append(lowercase_chunk_60() + lowercase_chunk_61() + lowercase_chunk_62() + lowercase_chunk_63() + lowercase_chunk_64() + lowercase_chunk_65() + lowercase_chunk_66(), lowercase_chunk_67());
    lemma_canonical_append(lowercase_chunk_60() + lowercase_chunk_61() + lowercase_chunk_62() + lowercase_chunk_63() + lowercase_chunk_64() + lowercase_chunk_65() + lowercase_chunk_66() + lowercase_chunk_67(), lowercase_chunk_68());
    lemma_canonical_append(lowercase_chunk_60() + lowercase_chunk_61() + lowercase_chunk_62() + lowercase_chunk_63() + lowercase_chunk_64() + lowercase_chunk_65() + lowercase_chunk_66() + lowercase_chunk_67() + lowercase_chunk_68(), lowercase_chunk_69());
}

proof fn lemma_lowercase_block_7()
    ensures
        canonical(lowercase_block_7()),
        lowercase_block_7().len() > 0,
        lowercase_block_7()[0] == lowercase_chunk_70()[0],
        lowercase_block_7().last() == lowercase_chunk_79().last(),
{
    reveal_with_fuel(canonical, 9);
    assert(canonical(lowercase_chunk_70()));
    assert(canonical(lowercase_chunk_71()));
    assert(canonical(lowercase_chunk_72()));
    assert(canonical(lowercase_chunk_73()));
    assert(canonical(lowercase_chunk_74()));
    assert(canonical(lowercase_chunk_75()));
    assert(canonical(lowercase_chunk_76()));
    assert(canonical(lowercase_chunk_77()));
    assert(canonical(lowercase_chunk_78()));
    assert(canonical(lowercase_chunk_79()));
    lemma_canonical_append(lowercase_chunk_70(), lowercase_chunk_71());
    lemma_canonical_append(lowercase_chunk_70() + lowercase_chunk_71(), lowercase_chunk_72());
    lemma_canonical_append(lowercase_chunk_70() + lowercase_chunk_71() + lowercase_chunk_72(), lowercase_chunk_73());
    lemma_canonical_append(lowercase_chunk_70() + lowercase_chunk_71() + lowercase_chunk_72() + lowercase_chunk_73(), lowercase_chunk_74());
    lemma_canonical_append(lowercase_chunk_70() + lowercase_chunk_71() + lowercase_chunk_72() + lowercase_chunk_73() + lowercase_chunk_74(), lowercase_chunk_75());
    lemma_canonical_append(lowercase_chunk_70() + lowercase_chunk_71() + lowercase_chunk_72() + lowercase_chunk_73() + lowercase_chunk_74() + lowercase_chunk_75(), lowercase_chunk_76());
    lemma_canonical_append(lowercase_chunk_70() + lowercase_chunk_71() + lowercase_chunk_72() + lowercase_chunk_73() + lowercase_chunk_74() + lowercase_chunk_75() + lowercase_chunk_76(), lowercase_chunk_77());
    lemma_canonical_append(lowercase_chunk_70() + lowercase_chunk_71() + lowercase_chunk_72() + lowercase_chunk_73() + lowercase_chunk_74() + lowercase_chunk_75() + lowercase_chunk_76() + lowercase_chunk_77(), lowercase_chunk_78());
    lemma_canonical_append(lowercase_chunk_70() + lowercase_chunk_71() + lowercase_chunk_72() + lowercase_chunk_73() + lowercase_chunk_74() + lowercase_chunk_75() + lowercase_chunk_76() + lowercase_chunk_77() + lowercase_chunk_78(), lowercase_chunk_79());
}

proof fn lemma_lowercase_block_8()
    ensures
        canonical(lowercase_block_8()),
        lowercase_block_8().len() > 0,
        lowercase_block_8()[0] == lowercase_chunk_80()[0],
        lowercase_block_8().last() == lowercase_chunk_84().last(),
{
    reveal_with_fuel(canonical, 9);
    assert(canonical(lowercase_chunk_80()));
    assert(canonical(lowercase_chunk_81()));
    assert(canonical(lowercase_chunk_82()));
    assert(canonical(lowercase_chunk_83()));
    assert(canonical(lowercase_chunk_84()));
    lemma_canonical_append(lowercase_chunk_80(), lowercase_chunk_81());
    lemma_canonical_append(lowercase_chunk_80() + lowercase_chunk_81(), lowercase_chunk_82());
    lemma_canonical_append(lowercase_chunk_80() + lowercase_chunk_81() + lowercase_chunk_82(), lowercase_chunk_83());
    lemma_canonical_append(lowercase_chunk_80() + lowercase_chunk_81() + lowercase_chunk_82() + lowercase_chunk_83(), lowercase_chunk_84());
}

#[verifier::rlimit(100)]
pub proof fn lemma_lowercase_canonical()
    ensures
        canonical(lowercase_ranges()),
{
    lemma_lowercase_block_0();
    lemma_lowercase_block_1();
    lemma_lowercase_block_2();
    lemma_lowercase_block_3();
    lemma_lowercase_block_4();
    lemma_lowercase_block_5();
    lemma_lowercase_block_6();
    lemma_lowercase_block_7();
    lemma_lowercase_block_8();
    lemma_canonical_append(lowercase_block_0(), lowercase_block_1());
    lemma_canonical_append(lowercase_block_0() + lowercase_block_1(), lowercase_block_2());
    lemma_canonical_append(lowercase_block_0() + lowercase_block_1() + lowercase_block_2(), lowercase_block_3());
    lemma_canonical_append(lowercase_block_0() + lowercase_block_1() + lowercase_block_2() + lowercase_block_3(), lowercase_block_4());
    lemma_canonical_append(lowercase_block_0() + lowercase_block_1() + lowercase_block_2() + lowercase_block_3() + lowercase_block_4(), lowercase_block_5());
    lemma_canonical_append(lowercase_block_0() + lowercase_block_1() + lowercase_block_2() + lowercase_block_3() + lowercase_block_4() + lowercase_block_5(), lowercase_block_6());
    lemma_canonical_append(lowercase_block_0() + lowercase_block_1() + lowercase_block_2() + lowercase_block_3() + lowercase_block_4() + lowercase_block_5() + lowercase_block_6(), lowercase_block_7());
    lemma_canonical_append(lowercase_block_0() + lowercase_block_1() + lowercase_block_2() + lowercase_block_3() + lowercase_block_4() + lowercase_block_5() + lowercase_block_6() + lowercase_block_7(), lowercase_block_8());
}

fn push_lowercase_chunk_0(v: &mut Vec<ClassUnicodeRange>)
    ensures
        rview(final(v)@) == rview(old(v)@) + lowercase_chunk_0(),
{
    let ghost o = rview(v@);
    push_range(v, '\u{61}', '\u{7A}');
    push_range(v, '\u{AA}', '\u{AA}');
    push_range(v, '\u{B5}', '\u{B5}');
    push_range(v, '\u{BA}', '\u{BA}');
    push_range(v, '\u{DF}', '\u{F6}');
    push_range(v, '\u{F8}', '\u{FF}');
    push_range(v, '\u{101}', '\u{101}');
    push_range(v, '\u{103}', '\u{103}');
    assert(rview(v@) =~= o + lowercase_chunk_0());
}

fn push_lowercase_chunk_1(v: &mut Vec<ClassUnicodeRange>)
    ensures
        rview(final(v)@) == rview(old(v)@) + lowercase_chunk_1(),
{
    let ghost o = rview(v@);
    push_range(v, '\u{105}', '\u{105}');
    push_range(v, '\u{107}', '\u{107}');
    push_range(v, '\u{109}', '\u{109}');
    push_range(v, '\u{10B}', '\u{10B}');
    push_range(v, '\u{10D}', '\u{10D}');
    push_range(v, '\u{10F}', '\u{10F}');
    push_range(v, '\u{111}', '\u{111}');
    push_range(v, '\u{113}', '\u{113}');
    assert(rview(v@) =~= o + lowercase_chunk_1());
}

fn push_lowercase_chunk_2(v: &mut Vec<ClassUnicodeRange>)
    ensures
        rview(final(v)@) == rview(old(v)@) + lowercase_chunk_2(),
{
    let ghost o = rview(v@);
    push_range(v, '\u{115}', '\u{115}');
    push_range(v, '\u{117}', '\u{117}');
    push_range(v, '\u{119}', '\u{119}');
    push_range(v, '\u{11B}', '\u{11B}');
    push_range(v, '\u{11D}', '\u{11D}');
    push_range(v, '\u{11F}', '\u{11F}');
    push_range(v, '\u{121}', '\u{121}');
    push_range(v, '\u{123}', '\u{123}');
    assert(rview(v@) =~= o + lowercase_chunk_2());
}

fn push_lowercase_chunk_3(v: &mut Vec<ClassUnicodeRange>)
    ensures
        rview(final(v)@) == rview(old(v)@) + lowercase_chunk_3(),
{
    let ghost o = rview(v@);
    push_range(v, '\u{125}', '\u{125}');
    push_range(v, '\u{127}', '\u{127}');
    push_range(v, '\u{129}', '\u{129}');
    push_range(v, '\u{12B}', '\u{12B}');
    push_range(v, '\u{12D}', '\u{12D}');
    push_range(v, '\u{12F}', '\u{12F}');
    push_range(v, '\u{131}', '\u{131}');
    push_range(v, '\u{133}', '\u{133}');
    assert(rview(v@) =~= o + lowercase_chunk_3());
}

fn push_lowercase_chunk_4(v: &mut Vec<ClassUnicodeRange>)
    ensures
        rview(final(v)@) == rview(old(v)@) + lowercase_chunk_4(),
{
    let ghost o = rview(v@);
    push_range(v, '\u{135}', '\u{135}');
    push_range(v, '\u{137}', '\u{138}');
    push_range(v, '\u{13A}', '\u{13A}');
    push_range(v, '\u{13C}', '\u{13C}');
    push_range(v, '\u{13E}', '\u{13E}');
    push_range(v, '\u{140}', '\u{140}');
    push_range(v, '\u{142}', '\u{142}');
    push_range(v, '\u{144}', '\u{144}');
    assert(rview(v@) =~= o + lowercase_chunk_4());
}

fn push_lowercase_chunk_5(v: &mut Vec<ClassUnicodeRange>)
    ensures
        rview(final(v)@) == rview(old(v)@) + lowercase_chunk_5(),
{
    let ghost o = rview(v@);
    push_range(v, '\u{146}', '\u{146}');
    push_range(v, '\u{148}', '\u{149}');
    push_range(v, '\u{14B}', '\u{14B}');
    push_range(v, '\u{14D}', '\u{14D}');
    push_range(v, '\u{14F}', '\u{14F}');
    push_range(v, '\u{151}', '\u{151}');
    push_range(v, '\u{153}', '\u{153}');
    push_range(v, '\u{155}', '\u{155}');
    assert(rview(v@) =~= o + lowercase_chunk_5());
}

fn push_lowercase_chunk_6(v: &mut Vec<ClassUnicodeRange>)
    ensures
        rview(final(v)@) == rview(old(v)@) + lowercase_chunk_6(),
{
    let ghost o = rview(v@);
    push_range(v, '\u{157}', '\u{157}');
    push_range(v, '\u{159}', '\u{159}');
    push_range(v, '\u{15B}', '\u{15B}');
    push_range(v, '\u{15D}', '\u{15D}');
    push_range(v, '\u{15F}', '\u{15F}');
    push_range(v, '\u{161}', '\u{161}');
    push_range(v, '\u{163}', '\u{163}');
    push_range(v, '\u{165}', '\u{165}');
    assert(rview(v@) =~= o + lowercase_chunk_6());
}

fn push_lowercase_chunk_7(v: &mut Vec<ClassUnicodeRange>)
    ensures
        rview(final(v)@) == rview(old(v)@) + lowercase_chunk_7(),
{
    let ghost o = rview(v@);
    push_range(v, '\u{167}', '\u{167}');
    push_range(v, '\u{169}', '\u{169}');
    push_range(v, '\u{16B}', '\u{16B}');
    push_range(v, '\u{16D}', '\u{16D}');
    push_range(v, '\u{16F}', '\u{16F}');
    push_range(v, '\u{171}', '\u{171}');
    push_range(v, '\u{173}', '\u{173}');
    push_range(v, '\u{175}', '\u{175}');
    assert(rview(v@) =~= o + lowercase_chunk_7());
}

fn push_lowercase_chunk_8(v: &mut Vec<ClassUnicodeRange>)
    ensures
        rview(final(v)@) == rview(old(v)@) + lowercase_chunk_8(),
{
    let ghost o = rview(v@);
    push_range(v, '\u{177}', '\u{177}');
    push_range(v, '\u{17A}', '\u{17A}');
    push_range(v, '\u{17C}', '\u{17C}');
    push_range(v, '\u{17E}', '\u{180}');
    push_range(v, '\u{183}', '\u{183}');
    push_range(v, '\u{185}', '\u{185}');
    push_range(v, '\u{188}', '\u{188}');
    push_range(v, '\u{18C}', '\u{18D}');
    assert(rview(v@) =~= o + lowercase_chunk_8());
}

fn push_lowercase_chunk_9(v: &mut Vec<ClassUnicodeRange>)
    ensures
        rview(final(v)@) == rview(old(v)@) + lowercase_chunk_9(),
{
    let ghost o = rview(v@);
    push_range(v, '\u{192}', '\u{192}');
    push_range(v, '\u{195}', '\u{195}');
    push_range(v, '\u{199}', '\u{19B}');
    push_range(v, '\u{19E}', '\u{19E}');
    push_range(v, '\u{1A1}', '\u{1A1}');
    push_range(v, '\u{1A3}', '\u{1A3}');
    push_range(v, '\u{1A5}', '\u{1A5}');
    push_range(v, '\u{1A8}', '\u{1A8}');
    assert(rview(v@) =~= o + lowercase_chunk_9());
}

fn push_lowercase_chunk_10(v: &mut Vec<ClassUnicodeRange>)
    ensures
        rview(final(v)@) == rview(old(v)@) + lowercase_chunk_10(),
{
    let ghost o = rview(v@);
    push_range(v, '\u{1AA}', '\u{1AB}');
    push_range(v, '\u{1AD}', '\u{1AD}');
    push_range(v, '\u{1B0}', '\u{1B0}');
    push_range(v, '\u{1B4}', '\u{1B4}');
    push_range(v, '\u{1B6}', '\u{1B6}');
    push_range(v, '\u{1B9}', '\u{1BA}');
    push_range(v, '\u{1BD}', '\u{1BF}');
    push_range(v, '\u{1C6}', '\u{1C6}');
    assert(rview(v@) =~= o + lowercase_chunk_10());
}

fn push_lowercase_chunk_11(v: &mut Vec<ClassUnicodeRange>)
    ensures
        rview(final(v)@) == rview(old(v)@) + lowercase_chunk_11(),
{
    let ghost o = rview(v@);
    push_range(v, '\u{1C9}', '\u{1C9}');
    push_range(v, '\u{1CC}', '\u{1CC}');
    push_range(v, '\u{1CE}', '\u{1CE}');
    push_range(v, '\u{1D0}', '\u{1D0}');
    push_range(v, '\u{1D2}', '\u{1D2}');
    push_range(v, '\u{1D4}', '\u{1D4}');
    push_range(v, '\u{1D6}', '\u{1D6}');
    push_range(v, '\u{1D8}', '\u{1D8}');
    assert(rview(v@) =~= o + lowercase_chunk_11());
}

fn push_lowercase_chunk_12(v: &mut Vec<ClassUnicodeRange>)
    ensures
        rview(final(v)@) == rview(old(v)@) + lowercase_chunk_12(),
{
    let ghost o = rview(v@);
    push_range(v, '\u{1DA}', '\u{1DA}');
    push_range(v, '\u{1DC}', '\u{1DD}');
    push_range(v, '\u{1DF}', '\u{1DF}');
    push_range(v, '\u{1E1}', '\u{1E1}');
    push_range(v, '\u{1E3}', '\u{1E3}');
    push_range(v, '\u{1E5}', '\u{1E5}');
    push_range(v, '\u{1E7}', '\u{1E7}');
    push_range(v, '\u{1E9}', '\u{1E9}');
    assert(rview(v@) =~= o + lowercase_chunk_12());
}

fn push_lowercase_chunk_13(v: &mut Vec<ClassUnicodeRange>)
    ensures
        rview(final(v)@) == rview(old(v)@) + lowercase_chunk_13(),
{
    let ghost o = rview(v@);
    push_range(v, '\u{1EB}', '\u{1EB}');
    push_range(v, '\u{1ED}', '\u{1ED}');
    push_range(v, '\u{1EF}', '\u{1F0}');
    push_range(v, '\u{1F3}', '\u{1F3}');
    push_range(v, '\u{1F5}', '\u{1F5}');
    push_range(v, '\u{1F9}', '\u{1F9}');
    push_range(v, '\u{1FB}', '\u{1FB}');
    push_range(v, '\u{1FD}', '\u{1FD}');
    assert(rview(v@) =~= o + lowercase_chunk_13());
}

fn push_lowercase_chunk_14(v: &mut Vec<ClassUnicodeRange>)
    ensures
        rview(final(v)@) == rview(old(v)@) + lowercase_chunk_14(),
{
    let ghost o = rview(v@);
    push_range(v, '\u{1FF}', '\u{1FF}');
    push_range(v, '\u{201}', '\u{201}');
    push_range(v, '\u{203}', '\u{203}');
    push_range(v, '\u{205}', '\u{205}');
    push_range(v, '\u{207}', '\u{207}');
    push_range(v, '\u{209}', '\u{209}');
    push_range(v, '\u{20B}', '\u{20B}');
    push_range(v, '\u{20D}', '\u{20D}');
    assert(rview(v@) =~= o + lowercase_chunk_14());
}

fn push_lowercase_chunk_15(v: &mut Vec<ClassUnicodeRange>)
    ensures
        rview(final(v)@) == rview(old(v)@) + lowercase_chunk_15(),
{
    let ghost o = rview(v@);
    push_range(v, '\u{20F}', '\u{20F}');
    push_range(v, '\u{211}', '\u{211}');
    push_range(v, '\u{213}', '\u{213}');
    push_range(v, '\u{215}', '\u{215}');
    push_range(v, '\u{217}', '\u{217}');
    push_range(v, '\u{219}', '\u{219}');
    push_range(v, '\u{21B}', '\u{21B}');
    push_range(v, '\u{21D}', '\u{21D}');
    assert(rview(v@) =~= o + lowercase_chunk_15());
}

fn push_lowercase_chunk_16(v: &mut Vec<ClassUnicodeRange>)
    ensures
        rview(final(v)@) == rview(old(v)@) + lowercase_chunk_16(),
{
    let ghost o = rview(v@);
    push_range(v, '\u{21F}', '\u{21F}');
    push_range(v, '\u{221}', '\u{221}');
    push_range(v, '\u{223}', '\u{223}');
    push_range(v, '\u{225}', '\u{225}');
    push_range(v, '\u{227}', '\u{227}');
    push_range(v, '\u{229}', '\u{229}');
    push_range(v, '\u{22B}', '\u{22B}');
    push_range(v, '\u{22D}', '\u{22D}');
    assert(rview(v@) =~= o + lowercase_chunk_16());
}

fn push_lowercase_chunk_17(v: &mut Vec<ClassUnicodeRange>)
    ensures
        rview(final(v)@) == rview(old(v)@) + lowercase_chunk_17(),
{
    let ghost o = rview(v@);
    push_range(v, '\u{22F}', '\u{22F}');
    push_range(v, '\u{231}', '\u{231}');
    push_range(v, '\u{233}', '\u{239}');
    push_range(v, '\u{23C}', '\u{23C}');
    push_range(v, '\u{23F}', '\u{240}');
    push_range(v, '\u{242}', '\u{242}');
    push_range(v, '\u{247}', '\u{247}');
    push_range(v, '\u{249}', '\u{249}');
    assert(rview(v@) =~= o + lowercase_chunk_17());
}

fn push_lowercase_chunk_18(v: &mut Vec<ClassUnicodeRange>)
    ensures
        rview(final(v)@) == rview(old(v)@) + lowercase_chunk_18(),
{
    let ghost o = rview(v@);
    push_range(v, '\u{24B}', '\u{24B}');
    push_range(v, '\u{24D}', '\u{24D}');
    push_range(v, '\u{24F}', '\u{293}');
    push_range(v, '\u{295}', '\u{2B8}');
    push_range(v, '\u{2C0}', '\u{2C1}');
    push_range(v, '\u{2E0}', '\u{2E4}');
    push_range(v, '\u{345}', '\u{345}');
    push_range(v, '\u{371}', '\u{371}');
    assert(rview(v@) =~= o + lowercase_chunk_18());
}

fn push_lowercase_chunk_19(v: &mut Vec<ClassUnicodeRange>)
    ensures
        rview(final(v)@) == rview(old(v)@) + lowercase_chunk_19(),
{
    let ghost o = rview(v@);
    push_range(v, '\u{373}', '\u{373}');
    push_range(v, '\u{377}', '\u{377}');
    push_range(v, '\u{37A}', '\u{37D}');
    push_range(v, '\u{390}', '\u{390}');
    push_range(v, '\u{3AC}', '\u{3CE}');
    push_range(v, '\u{3D0}', '\u{3D1}');
    push_range(v, '\u{3D5}', '\u{3D7}');
    push_range(v, '\u{3D9}', '\u{3D9}');
    assert(rview(v@) =~= o + lowercase_chunk_19());
}

fn push_lowercase_chunk_20(v: &mut Vec<ClassUnicodeRange>)
    ensures
        rview(final(v)@) == rview(old(v)@) + lowercase_chunk_20(),
{
    let ghost o = rview(v@);
    push_range(v, '\u{3DB}', '\u{3DB}');
    push_range(v, '\u{3DD}', '\u{3DD}');
    push_range(v, '\u{3DF}', '\u{3DF}');
    push_range(v, '\u{3E1}', '\u{3E1}');
    push_range(v, '\u{3E3}', '\u{3E3}');
    push_range(v, '\u{3E5}', '\u{3E5}');
    push_range(v, '\u{3E7}', '\u{3E7}');
    push_range(v, '\u{3E9}', '\u{3E9}');
    assert(rview(v@) =~= o + lowercase_chunk_20());
}

fn push_lowercase_chunk_21(v: &mut Vec<ClassUnicodeRange>)
    ensures
        rview(final(v)@) == rview(old(v)@) + lowercase_chunk_21(),
{
    let ghost o = rview(v@);
    push_range(v, '\u{3EB}', '\u{3EB}');
    push_range(v, '\u{3ED}', '\u{3ED}');
    push_range(v, '\u{3EF}', '\u{3F3}');
    push_range(v, '\u{3F5}', '\u{3F5}');
    push_range(v, '\u{3F8}', '\u{3F8}');
    push_range(v, '\u{3FB}', '\u{3FC}');
    push_range(v, '\u{430}', '\u{45F}');
    push_range(v, '\u{461}', '\u{461}');
    assert(rview(v@) =~= o + lowercase_chunk_21());
}

fn push_lowercase_chunk_22(v: &mut Vec<ClassUnicodeRange>)
    ensures
        rview(final(v)@) == rview(old(v)@) + lowercase_chunk_22(),
{
    let ghost o = rview(v@);
    push_range(v, '\u{463}', '\u{463}');
    push_range(v, '\u{465}', '\u{465}');
    push_range(v, '\u{467}', '\u{467}');
    push_range(v, '\u{469}', '\u{469}');
    push_range(v, '\u{46B}', '\u{46B}');
    push_range(v, '\u{46D}', '\u{46D}');
    push_range(v, '\u{46F}', '\u{46F}');
    push_range(v, '\u{471}', '\u{471}');
    assert(rview(v@) =~= o + lowercase_chunk_22());
}

fn push_lowercase_chunk_23(v: &mut Vec<ClassUnicodeRange>)
    ensures
        rview(final(v)@) == rview(old(v)@) + lowercase_chunk_23(),
{
    let ghost o = rview(v@);
    push_range(v, '\u{473}', '\u{473}');
    push_range(v, '\u{475}', '\u{475}');
    push_range(v, '\u{477}', '\u{477}');
    push_range(v, '\u{479}', '\u{479}');
    push_range(v, '\u{47B}', '\u{47B}');
    push_range(v, '\u{47D}', '\u{47D}');
    push_range(v, '\u{47F}', '\u{47F}');
    push_range(v, '\u{481}', '\u{481}');
    assert(rview(v@) =~= o + lowercase_chunk_23());
}

fn push_lowercase_chunk_24(v: &mut Vec<ClassUnicodeRange>)
    ensures
        rview(final(v)@) == rview(old(v)@) + lowercase_chunk_24(),
{
    let ghost o = rview(v@);
    push_range(v, '\u{48B}', '\u{48B}');
    push_range(v, '\u{48D}', '\u{48D}');
    push_range(v, '\u{48F}', '\u{48F}');
    push_range(v, '\u{491}', '\u{491}');
    push_range(v, '\u{493}', '\u{493}');
    push_range(v, '\u{495}', '\u{495}');
    push_range(v, '\u{497}', '\u{497}');
    push_range(v, '\u{499}', '\u{499}');
    assert(rview(v@) =~= o + lowercase_chunk_24());
}

fn push_lowercase_chunk_25(v: &mut Vec<ClassUnicodeRange>)
    ensures
        rview(final(v)@) == rview(old(v)@) + lowercase_chunk_25(),
{
    let ghost o = rview(v@);
    push_range(v, '\u{49B}', '\u{49B}');
    push_range(v, '\u{49D}', '\u{49D}');
    push_range(v, '\u{49F}', '\u{49F}');
    push_range(v, '\u{4A1}', '\u{4A1}');
    push_range(v, '\u{4A3}', '\u{4A3}');
    push_range(v, '\u{4A5}', '\u{4A5}');
    push_range(v, '\u{4A7}', '\u{4A7}');
    push_range(v, '\u{4A9}', '\u{4A9}');
    assert(rview(v@) =~= o + lowercase_chunk_25());
}

fn push_lowercase_chunk_26(v: &mut Vec<ClassUnicodeRange>)
    ensures
        rview(final(v)@) == rview(old(v)@) + lowercase_chunk_26(),
{
    let ghost o = rview(v@);
    push_range(v, '\u{4AB}', '\u{4AB}');
    push_range(v, '\u{4AD}', '\u{4AD}');
    push_range(v, '\u{4AF}', '\u{4AF}');
    push_range(v, '\u{4B1}', '\u{4B1}');
    push_range(v, '\u{4B3}', '\u{4B3}');
    push_range(v, '\u{4B5}', '\u{4B5}');
    push_range(v, '\u{4B7}', '\u{4B7}');
    push_range(v, '\u{4B9}', '\u{4B9}');
    assert(rview(v@) =~= o + lowercase_chunk_26());
}

fn push_lowercase_chunk_27(v: &mut Vec<ClassUnicodeRange>)
    ensures
        rview(final(v)@) == rview(old(v)@) + lowercase_chunk_27(),
{
    let ghost o = rview(v@);
    push_range(v, '\u{4BB}', '\u{4BB}');
    push_range(v, '\u{4BD}', '\u{4BD}');
    push_range(v, '\u{4BF}', '\u{4BF}');
    push_range(v, '\u{4C2}', '\u{4C2}');
    push_range(v, '\u{4C4}', '\u{4C4}');
    push_range(v, '\u{4C6}', '\u{4C6}');
    push_range(v, '\u{4C8}', '\u{4C8}');
    push_range(v, '\u{4CA}', '\u{4CA}');
    assert(rview(v@) =~= o + lowercase_chunk_27());
}

fn push_lowercase_chunk_28(v: &mut Vec<ClassUnicodeRange>)
    ensures
        rview(final(v)@) == rview(old(v)@) + lowercase_chunk_28(),
{
    let ghost o = rview(v@);
    push_range(v, '\u{4CC}', '\u{4CC}');
    push_range(v, '\u{4CE}', '\u{4CF}');
    push_range(v, '\u{4D1}', '\u{4D1}');
    push_range(v, '\u{4D3}', '\u{4D3}');
    push_range(v, '\u{4D5}', '\u{4D5}');
    push_range(v, '\u{4D7}', '\u{4D7}');
    push_range(v, '\u{4D9}', '\u{4D9}');
    push_range(v, '\u{4DB}', '\u{4DB}');
    assert(rview(v@) =~= o + lowercase_chunk_28());
}

fn push_lowercase_chunk_29(v: &mut Vec<ClassUnicodeRange>)
    ensures
        rview(final(v)@) == rview(old(v)@) + lowercase_chunk_29(),
{
    let ghost o = rview(v@);
    push_range(v, '\u{4DD}', '\u{4DD}');
    push_range(v, '\u{4DF}', '\u{4DF}');
    push_range(v, '\u{4E1}', '\u{4E1}');
    push_range(v, '\u{4E3}', '\u{4E3}');
    push_range(v, '\u{4E5}', '\u{4E5}');
    push_range(v, '\u{4E7}', '\u{4E7}');
    push_range(v, '\u{4E9}', '\u{4E9}');
    push_range(v, '\u{4EB}', '\u{4EB}');
    assert(rview(v@) =~= o + lowercase_chunk_29());
}

fn push_lowercase_chunk_30(v: &mut Vec<ClassUnicodeRange>)
    ensures
        rview(final(v)@) == rview(old(v)@) + lowercase_chunk_30(),
{
    let ghost o = rview(v@);
    push_range(v, '\u{4ED}', '\u{4ED}');
    push_range(v, '\u{4EF}', '\u{4EF}');
    push_range(v, '\u{4F1}', '\u{4F1}');
    push_range(v, '\u{4F3}', '\u{4F3}');
    push_range(v, '\u{4F5}', '\u{4F5}');
    push_range(v, '\u{4F7}', '\u{4F7}');
    push_range(v, '\u{4F9}', '\u{4F9}');
    push_range(v, '\u{4FB}', '\u{4FB}');
    assert(rview(v@) =~= o + lowercase_chunk_30());
}

fn push_lowercase_chunk_31(v: &mut Vec<ClassUnicodeRange>)
    ensures
        rview(final(v)@) == rview(old(v)@) + lowercase_chunk_31(),
{
    let ghost o = rview(v@);
    push_range(v, '\u{4FD}', '\u{4FD}');
    push_range(v, '\u{4FF}', '\u{4FF}');
    push_range(v, '\u{501}', '\u{501}');
    push_range(v, '\u{503}', '\u{503}');
    push_range(v, '\u{505}', '\u{505}');
    push_range(v, '\u{507}', '\u{507}');
    push_range(v, '\u{509}', '\u{509}');
    push_range(v, '\u{50B}', '\u{50B}');
    assert(rview(v@) =~= o + lowercase_chunk_31());
}

fn push_lowercase_chunk_32(v: &mut Vec<ClassUnicodeRange>)
    ensures
        rview(final(v)@) == rview(old(v)@) + lowercase_chunk_32(),
{
    let ghost o = rview(v@);
    push_range(v, '\u{50D}', '\u{50D}');
    push_range(v, '\u{50F}', '\u{50F}');
    push_range(v, '\u{511}', '\u{511}');
    push_range(v, '\u{513}', '\u{513}');
    push_range(v, '\u{515}', '\u{515}');
    push_range(v, '\u{517}', '\u{517}');
    push_range(v, '\u{519}', '\u{519}');
    push_range(v, '\u{51B}', '\u{51B}');
    assert(rview(v@) =~= o + lowercase_chunk_32());
}

fn push_lowercase_chunk_33(v: &mut Vec<ClassUnicodeRange>)
    ensures
        rview(final(v)@) == rview(old(v)@) + lowercase_chunk_33(),
{
    let ghost o = rview(v@);
    push_range(v, '\u{51D}', '\u{51D}');
    push_range(v, '\u{51F}', '\u{51F}');
    push_range(v, '\u{521}', '\u{521}');
    push_range(v, '\u{523}', '\u{523}');
    push_range(v, '\u{525}', '\u{525}');
    push_range(v, '\u{527}', '\u{527}');
    push_range(v, '\u{529}', '\u{529}');
    push_range(v, '\u{52B}', '\u{52B}');
    assert(rview(v@) =~= o + lowercase_chunk_33());
}

fn push_lowercase_chunk_34(v: &mut Vec<ClassUnicodeRange>)
    ensures
        rview(final(v)@) == rview(old(v)@) + lowercase_chunk_34(),
{
    let ghost o = rview(v@);
    push_range(v, '\u{52D}', '\u{52D}');
    push_range(v, '\u{52F}', '\u{52F}');
    push_range(v, '\u{560}', '\u{588}');
    push_range(v, '\u{10D0}', '\u{10FA}');
    push_range(v, '\u{10FC}', '\u{10FF}');
    push_range(v, '\u{13F8}', '\u{13FD}');
    push_range(v, '\u{1C80}', '\u{1C88}');
    push_range(v, '\u{1C8A}', '\u{1C8A}');
    assert(rview(v@) =~= o + lowercase_chunk_34());
}

fn push_lowercase_chunk_35(v: &mut Vec<ClassUnicodeRange>)
    ensures
        rview(final(v)@) == rview(old(v)@) + lowercase_chunk_35(),
{
    let ghost o = rview(v@);
    push_range(v, '\u{1D00}', '\u{1DBF}');
    push_range(v, '\u{1E01}', '\u{1E01}');
    push_range(v, '\u{1E03}', '\u{1E03}');
    push_range(v, '\u{1E05}', '\u{1E05}');
    push_range(v, '\u{1E07}', '\u{1E07}');
    push_range(v, '\u{1E09}', '\u{1E09}');
    push_range(v, '\u{1E0B}', '\u{1E0B}');
    push_range(v, '\u{1E0D}', '\u{1E0D}');
    assert(rview(v@) =~= o + lowercase_chunk_35());
}

fn push_lowercase_chunk_36(v: &mut Vec<ClassUnicodeRange>)
    ensures
        rview(final(v)@) == rview(old(v)@) + lowercase_chunk_36(),
{
    let ghost o = rview(v@);
    push_range(v, '\u{1E0F}', '\u{1E0F}');
    push_range(v, '\u{1E11}', '\u{1E11}');
    push_range(v, '\u{1E13}', '\u{1E13}');
    push_range(v, '\u{1E15}', '\u{1E15}');
    push_range(v, '\u{1E17}', '\u{1E17}');
    push_range(v, '\u{1E19}', '\u{1E19}');
    push_range(v, '\u{1E1B}', '\u{1E1B}');
    push_range(v, '\u{1E1D}', '\u{1E1D}');
    assert(rview(v@) =~= o + lowercase_chunk_36());
}

fn push_lowercase_chunk_37(v: &mut Vec<ClassUnicodeRange>)
    ensures
        rview(final(v)@) == rview(old(v)@) + lowercase_chunk_37(),
{
    let ghost o = rview(v@);
    push_range(v, '\u{1E1F}', '\u{1E1F}');
    push_range(v, '\u{1E21}', '\u{1E21}');
    push_range(v, '\u{1E23}', '\u{1E23}');
    push_range(v, '\u{1E25}', '\u{1E25}');
    push_range(v, '\u{1E27}', '\u{1E27}');
    push_range(v, '\u{1E29}', '\u{1E29}');
    push_range(v, '\u{1E2B}', '\u{1E2B}');
    push_range(v, '\u{1E2D}', '\u{1E2D}');
    assert(rview(v@) =~= o + lowercase_chunk_37());
}

fn push_lowercase_chunk_38(v: &mut Vec<ClassUnicodeRange>)
    ensures
        rview(final(v)@) == rview(old(v)@) + lowercase_chunk_38(),
{
    let ghost o = rview(v@);
    push_range(v, '\u{1E2F}', '\u{1E2F}');
    push_range(v, '\u{1E31}', '\u{1E31}');
    push_range(v, '\u{1E33}', '\u{1E33}');
    push_range(v, '\u{1E35}', '\u{1E35}');
    push_range(v, '\u{1E37}', '\u{1E37}');
    push_range(v, '\u{1E39}', '\u{1E39}');
    push_range(v, '\u{1E3B}', '\u{1E3B}');
    push_range(v, '\u{1E3D}', '\u{1E3D}');
    assert(rview(v@) =~= o + lowercase_chunk_38());
}

fn push_lowercase_chunk_39(v: &mut Vec<ClassUnicodeRange>)
    ensures
        rview(final(v)@) == rview(old(v)@) + lowercase_chunk_39(),
{
    let ghost o = rview(v@);
    push_range(v, '\u{1E3F}', '\u{1E3F}');
    push_range(v, '\u{1E41}', '\u{1E41}');
    push_range(v, '\u{1E43}', '\u{1E43}');
    push_range(v, '\u{1E45}', '\u{1E45}');
    push_range(v, '\u{1E47}', '\u{1E47}');
    push_range(v, '\u{1E49}', '\u{1E49}');
    push_range(v, '\u{1E4B}', '\u{1E4B}');
    push_range(v, '\u{1E4D}', '\u{1E4D}');
    assert(rview(v@) =~= o + lowercase_chunk_39());
}

fn push_lowercase_chunk_40(v: &mut Vec<ClassUnicodeRange>)
    ensures
        rview(final(v)@) == rview(old(v)@) + lowercase_chunk_40(),
{
    let ghost o = rview(v@);
    push_range(v, '\u{1E4F}', '\u{1E4F}');
    push_range(v, '\u{1E51}', '\u{1E51}');
    push_range(v, '\u{1E53}', '\u{1E53}');
    push_range(v, '\u{1E55}', '\u{1E55}');
    push_range(v, '\u{1E57}', '\u{1E57}');
    push_range(v, '\u{1E59}', '\u{1E59}');
    push_range(v, '\u{1E5B}', '\u{1E5B}');
    push_range(v, '\u{1E5D}', '\u{1E5D}');
    assert(rview(v@) =~= o + lowercase_chunk_40());
}

fn push_lowercase_chunk_41(v: &mut Vec<ClassUnicodeRange>)
    ensures
        rview(final(v)@) == rview(old(v)@) + lowercase_chunk_41(),
{
    let ghost o = rview(v@);
    push_range(v, '\u{1E5F}', '\u{1E5F}');
    push_range(v, '\u{1E61}', '\u{1E61}');
    push_range(v, '\u{1E63}', '\u{1E63}');
    push_range(v, '\u{1E65}', '\u{1E65}');
    push_range(v, '\u{1E67}', '\u{1E67}');
    push_range(v, '\u{1E69}', '\u{1E69}');
    push_range(v, '\u{1E6B}', '\u{1E6B}');
    push_range(v, '\u{1E6D}', '\u{1E6D}');
    assert(rview(v@) =~= o + lowercase_chunk_41());
}

fn push_lowercase_chunk_42(v: &mut Vec<ClassUnicodeRange>)
    ensures
        rview(final(v)@) == rview(old(v)@) + lowercase_chunk_42(),
{
    let ghost o = rview(v@);
    push_range(v, '\u{1E6F}', '\u{1E6F}');
    push_range(v, '\u{1E71}', '\u{1E71}');
    push_range(v, '\u{1E73}', '\u{1E73}');
    push_range(v, '\u{1E75}', '\u{1E75}');
    push_range(v, '\u{1E77}', '\u{1E77}');
    push_range(v, '\u{1E79}', '\u{1E79}');
    push_range(v, '\u{1E7B}', '\u{1E7B}');
    push_range(v, '\u{1E7D}', '\u{1E7D}');
    assert(rview(v@) =~= o + lowercase_chunk_42());
}

fn push_lowercase_chunk_43(v: &mut Vec<ClassUnicodeRange>)
    ensures
        rview(final(v)@) == rview(old(v)@) + lowercase_chunk_43(),
{
    let ghost o = rview(v@);
    push_range(v, '\u{1E7F}', '\u{1E7F}');
    push_range(v, '\u{1E81}', '\u{1E81}');
    push_range(v, '\u{1E83}', '\u{1E83}');
    push_range(v, '\u{1E85}', '\u{1E85}');
    push_range(v, '\u{1E87}', '\u{1E87}');
    push_range(v, '\u{1E89}', '\u{1E89}');
    push_range(v, '\u{1E8B}', '\u{1E8B}');
    push_range(v, '\u{1E8D}', '\u{1E8D}');
    assert(rview(v@) =~= o + lowercase_chunk_43());
}

fn push_lowercase_chunk_44(v: &mut Vec<ClassUnicodeRange>)
    ensures
        rview(final(v)@) == rview(old(v)@) + lowercase_chunk_44(),
{
    let ghost o = rview(v@);
    push_range(v, '\u{1E8F}', '\u{1E8F}');
    push_range(v, '\u{1E91}', '\u{1E91}');
    push_range(v, '\u{1E93}', '\u{1E93}');
    push_range(v, '\u{1E95}', '\u{1E9D}');
    push_range(v, '\u{1E9F}', '\u{1E9F}');
    push_range(v, '\u{1EA1}', '\u{1EA1}');
    push_range(v, '\u{1EA3}', '\u{1EA3}');
    push_range(v, '\u{1EA5}', '\u{1EA5}');
    assert(rview(v@) =~= o + lowercase_chunk_44());
}

fn push_lowercase_chunk_45(v: &mut Vec<ClassUnicodeRange>)
    ensures
        rview(final(v)@) == rview(old(v)@) + lowercase_chunk_45(),
{
    let ghost o = rview(v@);
    push_range(v, '\u{1EA7}', '\u{1EA7}');
    push_range(v, '\u{1EA9}', '\u{1EA9}');
    push_range(v, '\u{1EAB}', '\u{1EAB}');
    push_range(v, '\u{1EAD}', '\u{1EAD}');
    push_range(v, '\u{1EAF}', '\u{1EAF}');
    push_range(v, '\u{1EB1}', '\u{1EB1}');
    push_range(v, '\u{1EB3}', '\u{1EB3}');
    push_range(v, '\u{1EB5}', '\u{1EB5}');
    assert(rview(v@) =~= o + lowercase_chunk_45());
}

fn push_lowercase_chunk_46(v: &mut Vec<ClassUnicodeRange>)
    ensures
        rview(final(v)@) == rview(old(v)@) + lowercase_chunk_46(),
{
    let ghost o = rview(v@);
    push_range(v, '\u{1EB7}', '\u{1EB7}');
    push_range(v, '\u{1EB9}', '\u{1EB9}');
    push_range(v, '\u{1EBB}', '\u{1EBB}');
    push_range(v, '\u{1EBD}', '\u{1EBD}');
    push_range(v, '\u{1EBF}', '\u{1EBF}');
    push_range(v, '\u{1EC1}', '\u{1EC1}');
    push_range(v, '\u{1EC3}', '\u{1EC3}');
    push_range(v, '\u{1EC5}', '\u{1EC5}');
    assert(rview(v@) =~= o + lowercase_chunk_46());
}

fn push_lowercase_chunk_47(v: &mut Vec<ClassUnicodeRange>)
    ensures
        rview(final(v)@) == rview(old(v)@) + lowercase_chunk_47(),
{
    let ghost o = rview(v@);
    push_range(v, '\u{1EC7}', '\u{1EC7}');
    push_range(v, '\u{1EC9}', '\u{1EC9}');
    push_range(v, '\u{1ECB}', '\u{1ECB}');
    push_range(v, '\u{1ECD}', '\u{1ECD}');
    push_range(v, '\u{1ECF}', '\u{1ECF}');
    push_range(v, '\u{1ED1}', '\u{1ED1}');
    push_range(v, '\u{1ED3}', '\u{1ED3}');
    push_range(v, '\u{1ED5}', '\u{1ED5}');
    assert(rview(v@) =~= o + lowercase_chunk_47());
}

fn push_lowercase_chunk_48(v: &mut Vec<ClassUnicodeRange>)
    ensures
        rview(final(v)@) == rview(old(v)@) + lowercase_chunk_48(),
{
    let ghost o = rview(v@);
    push_range(v, '\u{1ED7}', '\u{1ED7}');
    push_range(v, '\u{1ED9}', '\u{1ED9}');
    push_range(v, '\u{1EDB}', '\u{1EDB}');
    push_range(v, '\u{1EDD}', '\u{1EDD}');
    push_range(v, '\u{1EDF}', '\u{1EDF}');
    push_range(v, '\u{1EE1}', '\u{1EE1}');
    push_range(v, '\u{1EE3}', '\u{1EE3}');
    push_range(v, '\u{1EE5}', '\u{1EE5}');
    assert(rview(v@) =~= o + lowercase_chunk_48());
}

fn push_lowercase_chunk_49(v: &mut Vec<ClassUnicodeRange>)
    ensures
        rview(final(v)@) == rview(old(v)@) + lowercase_chunk_49(),
{
    let ghost o = rview(v@);
    push_range(v, '\u{1EE7}', '\u{1EE7}');
    push_range(v, '\u{1EE9}', '\u{1EE9}');
    push_range(v, '\u{1EEB}', '\u{1EEB}');
    push_range(v, '\u{1EED}', '\u{1EED}');
    push_range(v, '\u{1EEF}', '\u{1EEF}');
    push_range(v, '\u{1EF1}', '\u{1EF1}');
    push_range(v, '\u{1EF3}', '\u{1EF3}');
    push_range(v, '\u{1EF5}', '\u{1EF5}');
    assert(rview(v@) =~= o + lowercase_chunk_49());
}

fn push_lowercase_chunk_50(v: &mut Vec<ClassUnicodeRange>)
    ensures
        rview(final(v)@) == rview(old(v)@) + lowercase_chunk_50(),
{
    let ghost o = rview(v@);
    push_range(v, '\u{1EF7}', '\u{1EF7}');
    push_range(v, '\u{1EF9}', '\u{1EF9}');
    push_range(v, '\u{1EFB}', '\u{1EFB}');
    push_range(v, '\u{1EFD}', '\u{1EFD}');
    push_range(v, '\u{1EFF}', '\u{1F07}');
    push_range(v, '\u{1F10}', '\u{1F15}');
    push_range(v, '\u{1F20}', '\u{1F27}');
    push_range(v, '\u{1F30}', '\u{1F37}');
    assert(rview(v@) =~= o + lowercase_chunk_50());
}

fn push_lowercase_chunk_51(v: &mut Vec<ClassUnicodeRange>)
    ensures
        rview(final(v)@) == rview(old(v)@) + lowercase_chunk_51(),
{
    let ghost o = rview(v@);
    push_range(v, '\u{1F40}', '\u{1F45}');
    push_range(v, '\u{1F50}', '\u{1F57}');
    push_range(v, '\u{1F60}', '\u{1F67}');
    push_range(v, '\u{1F70}', '\u{1F7D}');
    push_range(v, '\u{1F80}', '\u{1F87}');
    push_range(v, '\u{1F90}', '\u{1F97}');
    push_range(v, '\u{1FA0}', '\u{1FA7}');
    push_range(v, '\u{1FB0}', '\u{1FB4}');
    assert(rview(v@) =~= o + lowercase_chunk_51());
}

fn push_lowercase_chunk_52(v: &mut Vec<ClassUnicodeRange>)
    ensures
        rview(final(v)@) == rview(old(v)@) + lowercase_chunk_52(),
{
    let ghost o = rview(v@);
    push_range(v, '\u{1FB6}', '\u{1FB7}');
    push_range(v, '\u{1FBE}', '\u{1FBE}');
    push_range(v, '\u{1FC2}', '\u{1FC4}');
    push_range(v, '\u{1FC6}', '\u{1FC7}');
    push_range(v, '\u{1FD0}', '\u{1FD3}');
    push_range(v, '\u{1FD6}', '\u{1FD7}');
    push_range(v, '\u{1FE0}', '\u{1FE7}');
    push_range(v, '\u{1FF2}', '\u{1FF4}');
    assert(rview(v@) =~= o + lowercase_chunk_52());
}

fn push_lowercase_chunk_53(v: &mut Vec<ClassUnicodeRange>)
    ensures
        rview(final(v)@) == rview(old(v)@) + lowercase_chunk_53(),
{
    let ghost o = rview(v@);
    push_range(v, '\u{1FF6}', '\u{1FF7}');
    push_range(v, '\u{2071}', '\u{2071}');
    push_range(v, '\u{207F}', '\u{207F}');
    push_range(v, '\u{2090}', '\u{209C}');
    push_range(v, '\u{210A}', '\u{210A}');
    push_range(v, '\u{210E}', '\u{210F}');
    push_range(v, '\u{2113}', '\u{2113}');
    push_range(v, '\u{212F}', '\u{212F}');
    assert(rview(v@) =~= o + lowercase_chunk_53());
}

fn push_lowercase_chunk_54(v: &mut Vec<ClassUnicodeRange>)
    ensures
        rview(final(v)@) == rview(old(v)@) + lowercase_chunk_54(),
{
    let ghost o = rview(v@);
    push_range(v, '\u{2134}', '\u{2134}');
    push_range(v, '\u{2139}', '\u{2139}');
    push_range(v, '\u{213C}', '\u{213D}');
    push_range(v, '\u{2146}', '\u{2149}');
    push_range(v, '\u{214E}', '\u{214E}');
    push_range(v, '\u{2170}', '\u{217F}');
    push_range(v, '\u{2184}', '\u{2184}');
    push_range(v, '\u{24D0}', '\u{24E9}');
    assert(rview(v@) =~= o + lowercase_chunk_54());
}

fn push_lowercase_chunk_55(v: &mut Vec<ClassUnicodeRange>)
    ensures
        rview(final(v)@) == rview(old(v)@) + lowercase_chunk_55(),
{
    let ghost o = rview(v@);
    push_range(v, '\u{2C30}', '\u{2C5F}');
    push_range(v, '\u{2C61}', '\u{2C61}');
    push_range(v, '\u{2C65}', '\u{2C66}');
    push_range(v, '\u{2C68}', '\u{2C68}');
    push_range(v, '\u{2C6A}', '\u{2C6A}');
    push_range(v, '\u{2C6C}', '\u{2C6C}');
    push_range(v, '\u{2C71}', '\u{2C71}');
    push_range(v, '\u{2C73}', '\u{2C74}');
    assert(rview(v@) =~= o + lowercase_chunk_55());
}

fn push_lowercase_chunk_56(v: &mut Vec<ClassUnicodeRange>)
    ensures
        rview(final(v)@) == rview(old(v)@) + lowercase_chunk_56(),
{
    let ghost o = rview(v@);
    push_range(v, '\u{2C76}', '\u{2C7D}');
    push_range(v, '\u{2C81}', '\u{2C81}');
    push_range(v, '\u{2C83}', '\u{2C83}');
    push_range(v, '\u{2C85}', '\u{2C85}');
    push_range(v, '\u{2C87}', '\u{2C87}');
    push_range(v, '\u{2C89}', '\u{2C89}');
    push_range(v, '\u{2C8B}', '\u{2C8B}');
    push_range(v, '\u{2C8D}', '\u{2C8D}');
    assert(rview(v@) =~= o + lowercase_chunk_56());
}

fn push_lowercase_chunk_57(v: &mut Vec<ClassUnicodeRange>)
    ensures
        rview(final(v)@) == rview(old(v)@) + lowercase_chunk_57(),
{
    let ghost o = rview(v@);
    push_range(v, '\u{2C8F}', '\u{2C8F}');
    push_range(v, '\u{2C91}', '\u{2C91}');
    push_range(v, '\u{2C93}', '\u{2C93}');
    push_range(v, '\u{2C95}', '\u{2C95}');
    push_range(v, '\u{2C97}', '\u{2C97}');
    push_range(v, '\u{2C99}', '\u{2C99}');
    push_range(v, '\u{2C9B}', '\u{2C9B}');
    push_range(v, '\u{2C9D}', '\u{2C9D}');
    assert(rview(v@) =~= o + lowercase_chunk_57());
}

fn push_lowercase_chunk_58(v: &mut Vec<ClassUnicodeRange>)
    ensures
        rview(final(v)@) == rview(old(v)@) + lowercase_chunk_58(),
{
    let ghost o = rview(v@);
    push_range(v, '\u{2C9F}', '\u{2C9F}');
    push_range(v, '\u{2CA1}', '\u{2CA1}');
    push_range(v, '\u{2CA3}', '\u{2CA3}');
    push_range(v, '\u{2CA5}', '\u{2CA5}');
    push_range(v, '\u{2CA7}', '\u{2CA7}');
    push_range(v, '\u{2CA9}', '\u{2CA9}');
    push_range(v, '\u{2CAB}', '\u{2CAB}');
    push_range(v, '\u{2CAD}', '\u{2CAD}');
    assert(rview(v@) =~= o + lowercase_chunk_58());
}

fn push_lowercase_chunk_59(v: &mut Vec<ClassUnicodeRange>)
    ensures
        rview(final(v)@) == rview(old(v)@) + lowercase_chunk_59(),
{
    let ghost o = rview(v@);
    push_range(v, '\u{2CAF}', '\u{2CAF}');
    push_range(v, '\u{2CB1}', '\u{2CB1}');
    push_range(v, '\u{2CB3}', '\u{2CB3}');
    push_range(v, '\u{2CB5}', '\u{2CB5}');
    push_range(v, '\u{2CB7}', '\u{2CB7}');
    push_range(v, '\u{2CB9}', '\u{2CB9}');
    push_range(v, '\u{2CBB}', '\u{2CBB}');
    push_range(v, '\u{2CBD}', '\u{2CBD}');
    assert(rview(v@) =~= o + lowercase_chunk_59());
}

fn push_lowercase_chunk_60(v: &mut Vec<ClassUnicodeRange>)
    ensures
        rview(final(v)@) == rview(old(v)@) + lowercase_chunk_60(),
{
    let ghost o = rview(v@);
    push_range(v, '\u{2CBF}', '\u{2CBF}');
    push_range(v, '\u{2CC1}', '\u{2CC1}');
    push_range(v, '\u{2CC3}', '\u{2CC3}');
    push_range(v, '\u{2CC5}', '\u{2CC5}');
    push_range(v, '\u{2CC7}', '\u{2CC7}');
    push_range(v, '\u{2CC9}', '\u{2CC9}');
    push_range(v, '\u{2CCB}', '\u{2CCB}');
    push_range(v, '\u{2CCD}', '\u{2CCD}');
    assert(rview(v@) =~= o + lowercase_chunk_60());
}

fn push_lowercase_chunk_61(v: &mut Vec<ClassUnicodeRange>)
    ensures
        rview(final(v)@) == rview(old(v)@) + lowercase_chunk_61(),
{
    let ghost o = rview(v@);
    push_range(v, '\u{2CCF}', '\u{2CCF}');
    push_range(v, '\u{2CD1}', '\u{2CD1}');
    push_range(v, '\u{2CD3}', '\u{2CD3}');
    push_range(v, '\u{2CD5}', '\u{2CD5}');
    push_range(v, '\u{2CD7}', '\u{2CD7}');
    push_range(v, '\u{2CD9}', '\u{2CD9}');
    push_range(v, '\u{2CDB}', '\u{2CDB}');
    push_range(v, '\u{2CDD}', '\u{2CDD}');
    assert(rview(v@) =~= o + lowercase_chunk_61());
}

fn push_lowercase_chunk_62(v: &mut Vec<ClassUnicodeRange>)
    ensures
        rview(final(v)@) == rview(old(v)@) + lowercase_chunk_62(),
{
    let ghost o = rview(v@);
    push_range(v, '\u{2CDF}', '\u{2CDF}');
    push_range(v, '\u{2CE1}', '\u{2CE1}');
    push_range(v, '\u{2CE3}', '\u{2CE4}');
    push_range(v, '\u{2CEC}', '\u{2CEC}');
    push_range(v, '\u{2CEE}', '\u{2CEE}');
    push_range(v, '\u{2CF3}', '\u{2CF3}');
    push_range(v, '\u{2D00}', '\u{2D25}');
    push_range(v, '\u{2D27}', '\u{2D27}');
    assert(rview(v@) =~= o + lowercase_chunk_62());
}

fn push_lowercase_chunk_63(v: &mut Vec<ClassUnicodeRange>)
    ensures
        rview(final(v)@) == rview(old(v)@) + lowercase_chunk_63(),
{
    let ghost o = rview(v@);
    push_range(v, '\u{2D2D}', '\u{2D2D}');
    push_range(v, '\u{A641}', '\u{A641}');
    push_range(v, '\u{A643}', '\u{A643}');
    push_range(v, '\u{A645}', '\u{A645}');
    push_range(v, '\u{A647}', '\u{A647}');
    push_range(v, '\u{A649}', '\u{A649}');
    push_range(v, '\u{A64B}', '\u{A64B}');
    push_range(v, '\u{A64D}', '\u{A64D}');
    assert(rview(v@) =~= o + lowercase_chunk_63());
}

fn push_lowercase_chunk_64(v: &mut Vec<ClassUnicodeRange>)
    ensures
        rview(final(v)@) == rview(old(v)@) + lowercase_chunk_64(),
{
    let ghost o = rview(v@);
    push_range(v, '\u{A64F}', '\u{A64F}');
    push_range(v, '\u{A651}', '\u{A651}');
    push_range(v, '\u{A653}', '\u{A653}');
    push_range(v, '\u{A655}', '\u{A655}');
    push_range(v, '\u{A657}', '\u{A657}');
    push_range(v, '\u{A659}', '\u{A659}');
    push_range(v, '\u{A65B}', '\u{A65B}');
    push_range(v, '\u{A65D}', '\u{A65D}');
    assert(rview(v@) =~= o + lowercase_chunk_64());
}

fn push_lowercase_chunk_65(v: &mut Vec<ClassUnicodeRange>)
    ensures
        rview(final(v)@) == rview(old(v)@) + lowercase_chunk_65(),
{
    let ghost o = rview(v@);
    push_range(v, '\u{A65F}', '\u{A65F}');
    push_range(v, '\u{A661}', '\u{A661}');
    push_range(v, '\u{A663}', '\u{A663}');
    push_range(v, '\u{A665}', '\u{A665}');
    push_range(v, '\u{A667}', '\u{A667}');
    push_range(v, '\u{A669}', '\u{A669}');
    push_range(v, '\u{A66B}', '\u{A66B}');
    push_range(v, '\u{A66D}', '\u{A66D}');
    assert(rview(v@) =~= o + lowercase_chunk_65());
}

fn push_lowercase_chunk_66(v: &mut Vec<ClassUnicodeRange>)
    ensures
        rview(final(v)@) == rview(old(v)@) + lowercase_chunk_66(),
{
    let ghost o = rview(v@);
    push_range(v, '\u{A681}', '\u{A681}');
    push_range(v, '\u{A683}', '\u{A683}');
    push_range(v, '\u{A685}', '\u{A685}');
    push_range(v, '\u{A687}', '\u{A687}');
    push_range(v, '\u{A689}', '\u{A689}');
    push_range(v, '\u{A68B}', '\u{A68B}');
    push_range(v, '\u{A68D}', '\u{A68D}');
    push_range(v, '\u{A68F}', '\u{A68F}');
    assert(rview(v@) =~= o + lowercase_chunk_66());
}

fn push_lowercase_chunk_67(v: &mut Vec<ClassUnicodeRange>)
    ensures
        rview(final(v)@) == rview(old(v)@) + lowercase_chunk_67(),
{
    let ghost o = rview(v@);
    push_range(v, '\u{A691}', '\u{A691}');
    push_range(v, '\u{A693}', '\u{A693}');
    push_range(v, '\u{A695}', '\u{A695}');
    push_range(v, '\u{A697}', '\u{A697}');
    push_range(v, '\u{A699}', '\u{A699}');
    push_range(v, '\u{A69B}', '\u{A69D}');
    push_range(v, '\u{A723}', '\u{A723}');
    push_range(v, '\u{A725}', '\u{A725}');
    assert(rview(v@) =~= o + lowercase_chunk_67());
}

fn push_lowercase_chunk_68(v: &mut Vec<ClassUnicodeRange>)
    ensures
        rview(final(v)@) == rview(old(v)@) + lowercase_chunk_68(),
{
    let ghost o = rview(v@);
    push_range(v, '\u{A727}', '\u{A727}');
    push_range(v, '\u{A729}', '\u{A729}');
    push_range(v, '\u{A72B}', '\u{A72B}');
    push_range(v, '\u{A72D}', '\u{A72D}');
    push_range(v, '\u{A72F}', '\u{A731}');
    push_range(v, '\u{A733}', '\u{A733}');
    push_range(v, '\u{A735}', '\u{A735}');
    push_range(v, '\u{A737}', '\u{A737}');
    assert(rview(v@) =~= o + lowercase_chunk_68());
}

fn push_lowercase_chunk_69(v: &mut Vec<ClassUnicodeRange>)
    ensures
        rview(final(v)@) == rview(old(v)@) + lowercase_chunk_69(),
{
    let ghost o = rview(v@);
    push_range(v, '\u{A739}', '\u{A739}');
    push_range(v, '\u{A73B}', '\u{A73B}');
    push_range(v, '\u{A73D}', '\u{A73D}');
    push_range(v, '\u{A73F}', '\u{A73F}');
    push_range(v, '\u{A741}', '\u{A741}');
    push_range(v, '\u{A743}', '\u{A743}');
    push_range(v, '\u{A745}', '\u{A745}');
    push_range(v, '\u{A747}', '\u{A747}');
    assert(rview(v@) =~= o + lowercase_chunk_69());
}

fn push_lowercase_chunk_70(v: &mut Vec<ClassUnicodeRange>)
    ensures
        rview(final(v)@) == rview(old(v)@) + lowercase_chunk_70(),
{
    let ghost o = rview(v@);
    push_range(v, '\u{A749}', '\u{A749}');
    push_range(v, '\u{A74B}', '\u{A74B}');
    push_range(v, '\u{A74D}', '\u{A74D}');
    push_range(v, '\u{A74F}', '\u{A74F}');
    push_range(v, '\u{A751}', '\u{A751}');
    push_range(v, '\u{A753}', '\u{A753}');
    push_range(v, '\u{A755}', '\u{A755}');
    push_range(v, '\u{A757}', '\u{A757}');
    assert(rview(v@) =~= o + lowercase_chunk_70());
}

fn push_lowercase_chunk_71(v: &mut Vec<ClassUnicodeRange>)
    ensures
        rview(final(v)@) == rview(old(v)@) + lowercase_chunk_71(),
{
    let ghost o = rview(v@);
    push_range(v, '\u{A759}', '\u{A759}');
    push_range(v, '\u{A75B}', '\u{A75B}');
    push_range(v, '\u{A75D}', '\u{A75D}');
    push_range(v, '\u{A75F}', '\u{A75F}');
    push_range(v, '\u{A761}', '\u{A761}');
    push_range(v, '\u{A763}', '\u{A763}');
    push_range(v, '\u{A765}', '\u{A765}');
    push_range(v, '\u{A767}', '\u{A767}');
    assert(rview(v@) =~= o + lowercase_chunk_71());
}

fn push_lowercase_chunk_72(v: &mut Vec<ClassUnicodeRange>)
    ensures
        rview(final(v)@) == rview(old(v)@) + lowercase_chunk_72(),
{
    let ghost o = rview(v@);
    push_range(v, '\u{A769}', '\u{A769}');
    push_range(v, '\u{A76B}', '\u{A76B}');
    push_range(v, '\u{A76D}', '\u{A76D}');
    push_range(v, '\u{A76F}', '\u{A778}');
    push_range(v, '\u{A77A}', '\u{A77A}');
    push_range(v, '\u{A77C}', '\u{A77C}');
    push_range(v, '\u{A77F}', '\u{A77F}');
    push_range(v, '\u{A781}', '\u{A781}');
    assert(rview(v@) =~= o + lowercase_chunk_72());
}

fn push_lowercase_chunk_73(v: &mut Vec<ClassUnicodeRange>)
    ensures
        rview(final(v)@) == rview(old(v)@) + lowercase_chunk_73(),
{
    let ghost o = rview(v@);
    push_range(v, '\u{A783}', '\u{A783}');
    push_range(v, '\u{A785}', '\u{A785}');
    push_range(v, '\u{A787}', '\u{A787}');
    push_range(v, '\u{A78C}', '\u{A78C}');
    push_range(v, '\u{A78E}', '\u{A78E}');
    push_range(v, '\u{A791}', '\u{A791}');
    push_range(v, '\u{A793}', '\u{A795}');
    push_range(v, '\u{A797}', '\u{A797}');
    assert(rview(v@) =~= o + lowercase_chunk_73());
}

fn push_lowercase_chunk_74(v: &mut Vec<ClassUnicodeRange>)
    ensures
        rview(final(v)@) == rview(old(v)@) + lowercase_chunk_74(),
{
    let ghost o = rview(v@);
    push_range(v, '\u{A799}', '\u{A799}');
    push_range(v, '\u{A79B}', '\u{A79B}');
    push_range(v, '\u{A79D}', '\u{A79D}');
    push_range(v, '\u{A79F}', '\u{A79F}');
    push_range(v, '\u{A7A1}', '\u{A7A1}');
    push_range(v, '\u{A7A3}', '\u{A7A3}');
    push_range(v, '\u{A7A5}', '\u{A7A5}');
    push_range(v, '\u{A7A7}', '\u{A7A7}');
    assert(rview(v@) =~= o + lowercase_chunk_74());
}

fn push_lowercase_chunk_75(v: &mut Vec<ClassUnicodeRange>)
    ensures
        rview(final(v)@) == rview(old(v)@) + lowercase_chunk_75(),
{
    let ghost o = rview(v@);
    push_range(v, '\u{A7A9}', '\u{A7A9}');
    push_range(v, '\u{A7AF}', '\u{A7AF}');
    push_range(v, '\u{A7B5}', '\u{A7B5}');
    push_range(v, '\u{A7B7}', '\u{A7B7}');
    push_range(v, '\u{A7B9}', '\u{A7B9}');
    push_range(v, '\u{A7BB}', '\u{A7BB}');
    push_range(v, '\u{A7BD}', '\u{A7BD}');
    push_range(v, '\u{A7BF}', '\u{A7BF}');
    assert(rview(v@) =~= o + lowercase_chunk_75());
}

fn push_lowercase_chunk_76(v: &mut Vec<ClassUnicodeRange>)
    ensures
        rview(final(v)@) == rview(old(v)@) + lowercase_chunk_76(),
{
    let ghost o = rview(v@);
    push_range(v, '\u{A7C1}', '\u{A7C1}');
    push_range(v, '\u{A7C3}', '\u{A7C3}');
    push_range(v, '\u{A7C8}', '\u{A7C8}');
    push_range(v, '\u{A7CA}', '\u{A7CA}');
    push_range(v, '\u{A7CD}', '\u{A7CD}');
    push_range(v, '\u{A7D1}', '\u{A7D1}');
    push_range(v, '\u{A7D3}', '\u{A7D3}');
    push_range(v, '\u{A7D5}', '\u{A7D5}');
    assert(rview(v@) =~= o + lowercase_chunk_76());
}

fn push_lowercase_chunk_77(v: &mut Vec<ClassUnicodeRange>)
    ensures
        rview(final(v)@) == rview(old(v)@) + lowercase_chunk_77(),
{
    let ghost o = rview(v@);
    push_range(v, '\u{A7D7}', '\u{A7D7}');
    push_range(v, '\u{A7D9}', '\u{A7D9}');
    push_range(v, '\u{A7DB}', '\u{A7DB}');
    push_range(v, '\u{A7F2}', '\u{A7F4}');
    push_range(v, '\u{A7F6}', '\u{A7F6}');
    push_range(v, '\u{A7F8}', '\u{A7FA}');
    push_range(v, '\u{AB30}', '\u{AB5A}');
    push_range(v, '\u{AB5C}', '\u{AB69}');
    assert(rview(v@) =~= o + lowercase_chunk_77());
}

fn push_lowercase_chunk_78(v: &mut Vec<ClassUnicodeRange>)
    ensures
        rview(final(v)@) == rview(old(v)@) + lowercase_chunk_78(),
{
    let ghost o = rview(v@);
    push_range(v, '\u{AB70}', '\u{ABBF}');
    push_range(v, '\u{FB00}', '\u{FB06}');
    push_range(v, '\u{FB13}', '\u{FB17}');
    push_range(v, '\u{FF41}', '\u{FF5A}');
    push_range(v, '\u{10428}', '\u{1044F}');
    push_range(v, '\u{104D8}', '\u{104FB}');
    push_range(v, '\u{10597}', '\u{105A1}');
    push_range(v, '\u{105A3}', '\u{105B1}');
    assert(rview(v@) =~= o + lowercase_chunk_78());
}

fn push_lowercase_chunk_79(v: &mut Vec<ClassUnicodeRange>)
    ensures
        rview(final(v)@) == rview(old(v)@) + lowercase_chunk_79(),
{
    let ghost o = rview(v@);
    push_range(v, '\u{105B3}', '\u{105B9}');
    push_range(v, '\u{105BB}', '\u{105BC}');
    push_range(v, '\u{10780}', '\u{10780}');
    push_range(v, '\u{10783}', '\u{10785}');
    push_range(v, '\u{10787}', '\u{107B0}');
    push_range(v, '\u{107B2}', '\u{107BA}');
    push_range(v, '\u{10CC0}', '\u{10CF2}');
    push_range(v, '\u{10D70}', '\u{10D85}');
    assert(rview(v@) =~= o + lowercase_chunk_79());
}

fn push_lowercase_chunk_80(v: &mut Vec<ClassUnicodeRange>)
    ensures
        rview(final(v)@) == rview(old(v)@) + lowercase_chunk_80(),
{
    let ghost o = rview(v@);
    push_range(v, '\u{118C0}', '\u{118DF}');
    push_range(v, '\u{16E60}', '\u{16E7F}');
    push_range(v, '\u{1D41A}', '\u{1D433}');
    push_range(v, '\u{1D44E}', '\u{1D454}');
    push_range(v, '\u{1D456}', '\u{1D467}');
    push_range(v, '\u{1D482}', '\u{1D49B}');
    push_range(v, '\u{1D4B6}', '\u{1D4B9}');
    push_range(v, '\u{1D4BB}', '\u{1D4BB}');
    assert(rview(v@) =~= o + lowercase_chunk_80());
}

fn push_lowercase_chunk_81(v: &mut Vec<ClassUnicodeRange>)
    ensures
        rview(final(v)@) == rview(old(v)@) + lowercase_chunk_81(),
{
    let ghost o = rview(v@);
    push_range(v, '\u{1D4BD}', '\u{1D4C3}');
    push_range(v, '\u{1D4C5}', '\u{1D4CF}');
    push_range(v, '\u{1D4EA}', '\u{1D503}');
    push_range(v, '\u{1D51E}', '\u{1D537}');
    push_range(v, '\u{1D552}', '\u{1D56B}');
    push_range(v, '\u{1D586}', '\u{1D59F}');
    push_range(v, '\u{1D5BA}', '\u{1D5D3}');
    push_range(v, '\u{1D5EE}', '\u{1D607}');
    assert(rview(v@) =~= o + lowercase_chunk_81());
}

fn push_lowercase_chunk_82(v: &mut Vec<ClassUnicodeRange>)
    ensures
        rview(final(v)@) == rview(old(v)@) + lowercase_chunk_82(),
{
    let ghost o = rview(v@);
    push_range(v, '\u{1D622}', '\u{1D63B}');
    push_range(v, '\u{1D656}', '\u{1D66F}');
    push_range(v, '\u{1D68A}', '\u{1D6A5}');
    push_range(v, '\u{1D6C2}', '\u{1D6DA}');
    push_range(v, '\u{1D6DC}', '\u{1D6E1}');
    push_range(v, '\u{1D6FC}', '\u{1D714}');
    push_range(v, '\u{1D716}', '\u{1D71B}');
    push_range(v, '\u{1D736}', '\u{1D74E}');
    assert(rview(v@) =~= o + lowercase_chunk_82());
}

fn push_lowercase_chunk_83(v: &mut Vec<ClassUnicodeRange>)
    ensures
        rview(final(v)@) == rview(old(v)@) + lowercase_chunk_83(),
{
    let ghost o = rview(v@);
    push_range(v, '\u{1D750}', '\u{1D755}');
    push_range(v, '\u{1D770}', '\u{1D788}');
    push_range(v, '\u{1D78A}', '\u{1D78F}');
    push_range(v, '\u{1D7AA}', '\u{1D7C2}');
    push_range(v, '\u{1D7C4}', '\u{1D7C9}');
    push_range(v, '\u{1D7CB}', '\u{1D7CB}');
    push_range(v, '\u{1DF00}', '\u{1DF09}');
    push_range(v, '\u{1DF0B}', '\u{1DF1E}');
    assert(rview(v@) =~= o + lowercase_chunk_83());
}

fn push_lowercase_chunk_84(v: &mut Vec<ClassUnicodeRange>)
    ensures
        rview(final(v)@) == rview(old(v)@) + lowercase_chunk_84(),
{
    let ghost o = rview(v@);
    push_range(v, '\u{1DF25}', '\u{1DF2A}');
    push_range(v, '\u{1E030}', '\u{1E06D}');
    push_range(v, '\u{1E922}', '\u{1E943}');
    assert(rview(v@) =~= o + lowercase_chunk_84());
}

fn push_lowercase_block_0(v: &mut Vec<ClassUnicodeRange>)
    ensures
        rview(final(v)@) == rview(old(v)@) + lowercase_block_0(),
{
    let ghost o = rview(v@);
    push_lowercase_chunk_0(v);
    assert(rview(v@) =~= o + (lowercase_chunk_0()));
    push_lowercase_chunk_1(v);
    assert(rview(v@) =~= o + (lowercase_chunk_0() + lowercase_chunk_1()));
    push_lowercase_chunk_2(v);
    assert(rview(v@) =~= o + (lowercase_chunk_0() + lowercase_chunk_1() + lowercase_chunk_2()));
    push_lowercase_chunk_3(v);
    assert(rview(v@) =~= o + (lowercase_chunk_0() + lowercase_chunk_1() + lowercase_chunk_2() + lowercase_chunk_3()));
    push_lowercase_chunk_4(v);
    assert(rview(v@) =~= o + (lowercase_chunk_0() + lowercase_chunk_1() + lowercase_chunk_2() + lowercase_chunk_3() + lowercase_chunk_4()));
    push_lowercase_chunk_5(v);
    assert(rview(v@) =~= o + (lowercase_chunk_0() + lowercase_chunk_1() + lowercase_chunk_2() + lowercase_chunk_3() + lowercase_chunk_4() + lowercase_chunk_5()));
    push_lowercase_chunk_6(v);
    assert(rview(v@) =~= o + (lowercase_chunk_0() + lowercase_chunk_1() + lowercase_chunk_2() + lowercase_chunk_3() + lowercase_chunk_4() + lowercase_chunk_5() + lowercase_chunk_6()));
    push_lowercase_chunk_7(v);
    assert(rview(v@) =~= o + (lowercase_chunk_0() + lowercase_chunk_1() + lowercase_chunk_2() + lowercase_chunk_3() + lowercase_chunk_4() + lowercase_chunk_5() + lowercase_chunk_6() + lowercase_chunk_7()));
    push_lowercase_chunk_8(v);
    assert(rview(v@) =~= o + (lowercase_chunk_0() + lowercase_chunk_1() + lowercase_chunk_2() + lowercase_chunk_3() + lowercase_chunk_4() + lowercase_chunk_5() + lowercase_chunk_6() + lowercase_chunk_7() + lowercase_chunk_8()));
    push_lowercase_chunk_9(v);
    assert(rview(v@) =~= o + (lowercase_chunk_0() + lowercase_chunk_1() + lowercase_chunk_2() + lowercase_chunk_3() + lowercase_chunk_4() + lowercase_chunk_5() + lowercase_chunk_6() + lowercase_chunk_7() + lowercase_chunk_8() + lowercase_chunk_9()));
}

fn push_lowercase_block_1(v: &mut Vec<ClassUnicodeRange>)
    ensures
        rview(final(v)@) == rview(old(v)@) + lowercase_block_1(),
{
    let ghost o = rview(v@);
    push_lowercase_chunk_10(v);
    assert(rview(v@) =~= o + (lowercase_chunk_10()));
    push_lowercase_chunk_11(v);
    assert(rview(v@) =~= o + (lowercase_chunk_10() + lowercase_chunk_11()));
    push_lowercase_chunk_12(v);
    assert(rview(v@) =~= o + (lowercase_chunk_10() + lowercase_chunk_11() + lowercase_chunk_12()));
    push_lowercase_chunk_13(v);
    assert(rview(v@) =~= o + (lowercase_chunk_10() + lowercase_chunk_11() + lowercase_chunk_12() + lowercase_chunk_13()));
    push_lowercase_chunk_14(v);
    assert(rview(v@) =~= o + (lowercase_chunk_10() + lowercase_chunk_11() + lowercase_chunk_12() + lowercase_chunk_13() + lowercase_chunk_14()));
    push_lowercase_chunk_15(v);
    assert(rview(v@) =~= o + (lowercase_chunk_10() + lowercase_chunk_11() + lowercase_chunk_12() + lowercase_chunk_13() + lowercase_chunk_14() + lowercase_chunk_15()));
    push_lowercase_chunk_16(v);
    assert(rview(v@) =~= o + (lowercase_chunk_10() + lowercase_chunk_11() + lowercase_chunk_12() + lowercase_chunk_13() + lowercase_chunk_14() + lowercase_chunk_15() + lowercase_chunk_16()));
    push_lowercase_chunk_17(v);
    assert(rview(v@) =~= o + (lowercase_chunk_10() + lowercase_chunk_11() + lowercase_chunk_12() + lowercase_chunk_13() + lowercase_chunk_14() + lowercase_chunk_15() + lowercase_chunk_16() + lowercase_chunk_17()));
    push_lowercase_chunk_18(v);
    assert(rview(v@) =~= o + (lowercase_chunk_10() + lowercase_chunk_11() + lowercase_chunk_12() + lowercase_chunk_13() + lowercase_chunk_14() + lowercase_chunk_15() + lowercase_chunk_16() + lowercase_chunk_17() + lowercase_chunk_18()));
    push_lowercase_chunk_19(v);
    assert(rview(v@) =~= o + (lowercase_chunk_10() + lowercase_chunk_11() + lowercase_chunk_12() + lowercase_chunk_13() + lowercase_chunk_14() + lowercase_chunk_15() + lowercase_chunk_16() + lowercase_chunk_17() + lowercase_chunk_18() + lowercase_chunk_19()));
}

fn push_lowercase_block_2(v: &mut Vec<ClassUnicodeRange>)
    ensures
        rview(final(v)@) == rview(old(v)@) + lowercase_block_2(),
{
    let ghost o = rview(v@);
    push_lowercase_chunk_20(v);
    assert(rview(v@) =~= o + (lowercase_chunk_20()));
    push_lowercase_chunk_21(v);
    assert(rview(v@) =~= o + (lowercase_chunk_20() + lowercase_chunk_21()));
    push_lowercase_chunk_22(v);
    assert(rview(v@) =~= o + (lowercase_chunk_20() + lowercase_chunk_21() + lowercase_chunk_22()));
    push_lowercase_chunk_23(v);
    assert(rview(v@) =~= o + (lowercase_chunk_20() + lowercase_chunk_21() + lowercase_chunk_22() + lowercase_chunk_23()));
    push_lowercase_chunk_24(v);
    assert(rview(v@) =~= o + (lowercase_chunk_20() + lowercase_chunk_21() + lowercase_chunk_22() + lowercase_chunk_23() + lowercase_chunk_24()));
    push_lowercase_chunk_25(v);
    assert(rview(v@) =~= o + (lowercase_chunk_20() + lowercase_chunk_21() + lowercase_chunk_22() + lowercase_chunk_23() + lowercase_chunk_24() + lowercase_chunk_25()));
    push_lowercase_chunk_26(v);
    assert(rview(v@) =~= o + (lowercase_chunk_20() + lowercase_chunk_21() + lowercase_chunk_22() + lowercase_chunk_23() + lowercase_chunk_24() + lowercase_chunk_25() + lowercase_chunk_26()));
    push_lowercase_chunk_27(v);
    assert(rview(v@) =~= o + (lowercase_chunk_20() + lowercase_chunk_21() + lowercase_chunk_22() + lowercase_chunk_23() + lowercase_chunk_24() + lowercase_chunk_25() + lowercase_chunk_26() + lowercase_chunk_27()));
    push_lowercase_chunk_28(v);
    assert(rview(v@) =~= o + (lowercase_chunk_20() + lowercase_chunk_21() + lowercase_chunk_22() + lowercase_chunk_23() + lowercase_chunk_24() + lowercase_chunk_25() + lowercase_chunk_26() + lowercase_chunk_27() + lowercase_chunk_28()));
    push_lowercase_chunk_29(v);
    assert(rview(v@) =~= o + (lowercase_chunk_20() + lowercase_chunk_21() + lowercase_chunk_22() + lowercase_chunk_23() + lowercase_chunk_24() + lowercase_chunk_25() + lowercase_chunk_26() + lowercase_chunk_27() + lowercase_chunk_28() + lowercase_chunk_29()));
}

fn push_lowercase_block_3(v: &mut Vec<ClassUnicodeRange>)
    ensures
        rview(final(v)@) == rview(old(v)@) + lowercase_block_3(),
{
    let ghost o = rview(v@);
    push_lowercase_chunk_30(v);
    assert(rview(v@) =~= o + (lowercase_chunk_30()));
    push_lowercase_chunk_31(v);
    assert(rview(v@) =~= o + (lowercase_chunk_30() + lowercase_chunk_31()));
    push_lowercase_chunk_32(v);
    assert(rview(v@) =~= o + (lowercase_chunk_30() + lowercase_chunk_31() + lowercase_chunk_32()));
    push_lowercase_chunk_33(v);
    assert(rview(v@) =~= o + (lowercase_chunk_30() + lowercase_chunk_31() + lowercase_chunk_32() + lowercase_chunk_33()));
    push_lowercase_chunk_34(v);
    assert(rview(v@) =~= o + (lowercase_chunk_30() + lowercase_chunk_31() + lowercase_chunk_32() + lowercase_chunk_33() + lowercase_chunk_34()));
    push_lowercase_chunk_35(v);
    assert(rview(v@) =~= o + (lowercase_chunk_30() + lowercase_chunk_31() + lowercase_chunk_32() + lowercase_chunk_33() + lowercase_chunk_34() + lowercase_chunk_35()));
    push_lowercase_chunk_36(v);
    assert(rview(v@) =~= o + (lowercase_chunk_30() + lowercase_chunk_31() + lowercase_chunk_32() + lowercase_chunk_33() + lowercase_chunk_34() + lowercase_chunk_35() + lowercase_chunk_36()));
    push_lowercase_chunk_37(v);
    assert(rview(v@) =~= o + (lowercase_chunk_30() + lowercase_chunk_31() + lowercase_chunk_32() + lowercase_chunk_33() + lowercase_chunk_34() + lowercase_chunk_35() + lowercase_chunk_36() + lowercase_chunk_37()));
    push_lowercase_chunk_38(v);
    assert(rview(v@) =~= o + (lowercase_chunk_30() + lowercase_chunk_31() + lowercase_chunk_32() + lowercase_chunk_33() + lowercase_chunk_34() + lowercase_chunk_35() + lowercase_chunk_36() + lowercase_chunk_37() + lowercase_chunk_38()));
    push_lowercase_chunk_39(v);
    assert(rview(v@) =~= o + (lowercase_chunk_30() + lowercase_chunk_31() + lowercase_chunk_32() + lowercase_chunk_33() + lowercase_chunk_34() + lowercase_chunk_35() + lowercase_chunk_36() + lowercase_chunk_37() + lowercase_chunk_38() + lowercase_chunk_39()));
}

fn push_lowercase_block_4(v: &mut Vec<ClassUnicodeRange>)
    ensures
        rview(final(v)@) == rview(old(v)@) + lowercase_block_4(),
{
    let ghost o = rview(v@);
    push_lowercase_chunk_40(v);
    assert(rview(v@) =~= o + (lowercase_chunk_40()));
    push_lowercase_chunk_41(v);
    assert(rview(v@) =~= o + (lowercase_chunk_40() + lowercase_chunk_41()));
    push_lowercase_chunk_42(v);
    assert(rview(v@) =~= o + (lowercase_chunk_40() + lowercase_chunk_41() + lowercase_chunk_42()));
    push_lowercase_chunk_43(v);
    assert(rview(v@) =~= o + (lowercase_chunk_40() + lowercase_chunk_41() + lowercase_chunk_42() + lowercase_chunk_43()));
    push_lowercase_chunk_44(v);
    assert(rview(v@) =~= o + (lowercase_chunk_40() + lowercase_chunk_41() + lowercase_chunk_42() + lowercase_chunk_43() + lowercase_chunk_44()));
    push_lowercase_chunk_45(v);
    assert(rview(v@) =~= o + (lowercase_chunk_40() + lowercase_chunk_41() + lowercase_chunk_42() + lowercase_chunk_43() + lowercase_chunk_44() + lowercase_chunk_45()));
    push_lowercase_chunk_46(v);
    assert(rview(v@) =~= o + (lowercase_chunk_40() + lowercase_chunk_41() + lowercase_chunk_42() + lowercase_chunk_43() + lowercase_chunk_44() + lowercase_chunk_45() + lowercase_chunk_46()));
    push_lowercase_chunk_47(v);
    assert(rview(v@) =~= o + (lowercase_chunk_40() + lowercase_chunk_41() + lowercase_chunk_42() + lowercase_chunk_43() + lowercase_chunk_44() + lowercase_chunk_45() + lowercase_chunk_46() + lowercase_chunk_47()));
    push_lowercase_chunk_48(v);
    assert(rview(v@) =~= o + (lowercase_chunk_40() + lowercase_chunk_41() + lowercase_chunk_42() + lowercase_chunk_43() + lowercase_chunk_44() + lowercase_chunk_45() + lowercase_chunk_46() + lowercase_chunk_47() + lowercase_chunk_48()));
    push_lowercase_chunk_49(v);
    assert(rview(v@) =~= o + (lowercase_chunk_40() + lowercase_chunk_41() + lowercase_chunk_42() + lowercase_chunk_43() + lowercase_chunk_44() + lowercase_chunk_45() + lowercase_chunk_46() + lowercase_chunk_47() + lowercase_chunk_48() + lowercase_chunk_49()));
}

fn push_lowercase_block_5(v: &mut Vec<ClassUnicodeRange>)
    ensures
        rview(final(v)@) == rview(old(v)@) + lowercase_block_5(),
{
    let ghost o = rview(v@);
    push_lowercase_chunk_50(v);
    assert(rview(v@) =~= o + (lowercase_chunk_50()));
    push_lowercase_chunk_51(v);
    assert(rview(v@) =~= o + (lowercase_chunk_50() + lowercase_chunk_51()));
    push_lowercase_chunk_52(v);
    assert(rview(v@) =~= o + (lowercase_chunk_50() + lowercase_chunk_51() + lowercase_chunk_52()));
    push_lowercase_chunk_53(v);
    assert(rview(v@) =~= o + (lowercase_chunk_50() + lowercase_chunk_51() + lowercase_chunk_52() + lowercase_chunk_53()));
    push_lowercase_chunk_54(v);
    assert(rview(v@) =~= o + (lowercase_chunk_50() + lowercase_chunk_51() + lowercase_chunk_52() + lowercase_chunk_53() + lowercase_chunk_54()));
    push_lowercase_chunk_55(v);
    assert(rview(v@) =~= o + (lowercase_chunk_50() + lowercase_chunk_51() + lowercase_chunk_52() + lowercase_chunk_53() + lowercase_chunk_54() + lowercase_chunk_55()));
    push_lowercase_chunk_56(v);
    assert(rview(v@) =~= o + (lowercase_chunk_50() + lowercase_chunk_51() + lowercase_chunk_52() + lowercase_chunk_53() + lowercase_chunk_54() + lowercase_chunk_55() + lowercase_chunk_56()));
    push_lowercase_chunk_57(v);
    assert(rview(v@) =~= o + (lowercase_chunk_50() + lowercase_chunk_51() + lowercase_chunk_52() + lowercase_chunk_53() + lowercase_chunk_54() + lowercase_chunk_55() + lowercase_chunk_56() + lowercase_chunk_57()));
    push_lowercase_chunk_58(v);
    assert(rview(v@) =~= o + (lowercase_chunk_50() + lowercase_chunk_51() + lowercase_chunk_52() + lowercase_chunk_53() + lowercase_chunk_54() + lowercase_chunk_55() + lowercase_chunk_56() + lowercase_chunk_57() + lowercase_chunk_58()));
    push_lowercase_chunk_59(v);
    assert(rview(v@) =~= o + (lowercase_chunk_50() + lowercase_chunk_51() + lowercase_chunk_52() + lowercase_chunk_53() + lowercase_chunk_54() + lowercase_chunk_55() + lowercase_chunk_56() + lowercase_chunk_57() + lowercase_chunk_58() + lowercase_chunk_59()));
}

fn push_lowercase_block_6(v: &mut Vec<ClassUnicodeRange>)
    ensures
        rview(final(v)@) == rview(old(v)@) + lowercase_block_6(),
{
    let ghost o = rview(v@);
    push_lowercase_chunk_60(v);
    assert(rview(v@) =~= o + (lowercase_chunk_60()));
    push_lowercase_chunk_61(v);
    assert(rview(v@) =~= o + (lowercase_chunk_60() + lowercase_chunk_61()));
    push_lowercase_chunk_62(v);
    assert(rview(v@) =~= o + (lowercase_chunk_60() + lowercase_chunk_61() + lowercase_chunk_62()));
    push_lowercase_chunk_63(v);
    assert(rview(v@) =~= o + (lowercase_chunk_60() + lowercase_chunk_61() + lowercase_chunk_62() + lowercase_chunk_63()));
    push_lowercase_chunk_64(v);
    assert(rview(v@) =~= o + (lowercase_chunk_60() + lowercase_chunk_61() + lowercase_chunk_62() + lowercase_chunk_63() + lowercase_chunk_64()));
    push_lowercase_chunk_65(v);
    assert(rview(v@) =~= o + (lowercase_chunk_60() + lowercase_chunk_61() + lowercase_chunk_62() + lowercase_chunk_63() + lowercase_chunk_64() + lowercase_chunk_65()));
    push_lowercase_chunk_66(v);
    assert(rview(v@) =~= o + (lowercase_chunk_60() + lowercase_chunk_61() + lowercase_chunk_62() + lowercase_chunk_63() + lowercase_chunk_64() + lowercase_chunk_65() + lowercase_chunk_66()));
    push_lowercase_chunk_67(v);
    assert(rview(v@) =~= o + (lowercase_chunk_60() + lowercase_chunk_61() + lowercase_chunk_62() + lowercase_chunk_63() + lowercase_chunk_64() + lowercase_chunk_65() + lowercase_chunk_66() + lowercase_chunk_67()));
    push_lowercase_chunk_68(v);
    assert(rview(v@) =~= o + (lowercase_chunk_60() + lowercase_chunk_61() + lowercase_chunk_62() + lowercase_chunk_63() + lowercase_chunk_64() + lowercase_chunk_65() + lowercase_chunk_66() + lowercase_chunk_67() + lowercase_chunk_68()));
    push_lowercase_chunk_69(v);
    assert(rview(v@) =~= o + (lowercase_chunk_60() + lowercase_chunk_61() + lowercase_chunk_62() + lowercase_chunk_63() + lowercase_chunk_64() + lowercase_chunk_65() + lowercase_chunk_66() + lowercase_chunk_67() + lowercase_chunk_68() + lowercase_chunk_69()));
}

fn push_lowercase_block_7(v: &mut Vec<ClassUnicodeRange>)
    ensures
        rview(final(v)@) == rview(old(v)@) + lowercase_block_7(),
{
    let ghost o = rview(v@);
    push_lowercase_chunk_70(v);
    assert(rview(v@) =~= o + (lowercase_chunk_70()));
    push_lowercase_chunk_71(v);
    assert(rview(v@) =~= o + (lowercase_chunk_70() + lowercase_chunk_71()));
    push_lowercase_chunk_72(v);
    assert(rview(v@) =~= o + (lowercase_chunk_70() + lowercase_chunk_71() + lowercase_chunk_72()));
    push_lowercase_chunk_73(v);
    assert(rview(v@) =~= o + (lowercase_chunk_70() + lowercase_chunk_71() + lowercase_chunk_72() + lowercase_chunk_73()));
    push_lowercase_chunk_74(v);
    assert(rview(v@) =~= o + (lowercase_chunk_70() + lowercase_chunk_71() + lowercase_chunk_72() + lowercase_chunk_73() + lowercase_chunk_74()));
    push_lowercase_chunk_75(v);
    assert(rview(v@) =~= o + (lowercase_chunk_70() + lowercase_chunk_71() + lowercase_chunk_72() + lowercase_chunk_73() + lowercase_chunk_74() + lowercase_chunk_75()));
    push_lowercase_chunk_76(v);
    assert(rview(v@) =~= o + (lowercase_chunk_70() + lowercase_chunk_71() + lowercase_chunk_72() + lowercase_chunk_73() + lowercase_chunk_74() + lowercase_chunk_75() + lowercase_chunk_76()));
    push_lowercase_chunk_77(v);
    assert(rview(v@) =~= o + (lowercase_chunk_70() + lowercase_chunk_71() + lowercase_chunk_72() + lowercase_chunk_73() + lowercase_chunk_74() + lowercase_chunk_75() + lowercase_chunk_76() + lowercase_chunk_77()));
    push_lowercase_chunk_78(v);
    assert(rview(v@) =~= o + (lowercase_chunk_70() + lowercase_chunk_71() + lowercase_chunk_72() + lowercase_chunk_73() + lowercase_chunk_74() + lowercase_chunk_75() + lowercase_chunk_76() + lowercase_chunk_77() + lowercase_chunk_78()));
    push_lowercase_chunk_79(v);
    assert(rview(v@) =~= o + (lowercase_chunk_70() + lowercase_chunk_71() + lowercase_chunk_72() + lowercase_chunk_73() + lowercase_chunk_74() + lowercase_chunk_75() + lowercase_chunk_76() + lowercase_chunk_77() + lowercase_chunk_78() + lowercase_chunk_79()));
}

fn push_lowercase_block_8(v: &mut Vec<ClassUnicodeRange>)
    ensures
        rview(final(v)@) == rview(old(v)@) + lowercase_block_8(),
{
    let ghost o = rview(v@);
    push_lowercase_chunk_80(v);
    assert(rview(v@) =~= o + (lowercase_chunk_80()));
    push_lowercase_chunk_81(v);
    assert(rview(v@) =~= o + (lowercase_chunk_80() + lowercase_chunk_81()));
    push_lowercase_chunk_82(v);
    assert(rview(v@) =~= o + (lowercase_chunk_80() + lowercase_chunk_81() + lowercase_chunk_82()));
    push_lowercase_chunk_83(v);
    assert(rview(v@) =~= o + (lowercase_chunk_80() + lowercase_chunk_81() + lowercase_chunk_82() + lowercase_chunk_83()));
    push_lowercase_chunk_84(v);
    assert(rview(v@) =~= o + (lowercase_chunk_80() + lowercase_chunk_81() + lowercase_chunk_82() + lowercase_chunk_83() + lowercase_chunk_84()));
}

pub fn lowercase_class() -> (v: Vec<ClassUnicodeRange>)
    ensures
        rview(v@) == lowercase_ranges(),
{
    let mut v: Vec<ClassUnicodeRange> = Vec::new();
    assert(rview(v@) =~= Seq::<SRange>::empty());
    push_lowercase_block_0(&mut v);
    assert(rview(v@) =~= lowercase_block_0());
    push_lowercase_block_1(&mut v);
    assert(rview(v@) =~= lowercase_block_0() + lowercase_block_1());
    push_lowercase_block_2(&mut v);
    assert(rview(v@) =~= lowercase_block_0() + lowercase_block_1() + lowercase_block_2());
    push_lowercase_block_3(&mut v);
    assert(rview(v@) =~= lowercase_block_0() + lowercase_block_1() + lowercase_block_2() + lowercase_block_3());
    push_lowercase_block_4(&mut v);
    assert(rview(v@) =~= lowercase_block_0() + lowercase_block_1() + lowercase_block_2() + lowercase_block_3() + lowercase_block_4());
    push_lowercase_block_5(&mut v);
    assert(rview(v@) =~= lowercase_block_0() + lowercase_block_1() + lowercase_block_2() + lowercase_block_3() + lowercase_block_4() + lowercase_block_5());
    push_lowercase_block_6(&mut v);
    assert(rview(v@) =~= lowercase_block_0() + lowercase_block_1() + lowercase_block_2() + lowercase_block_3() + lowercase_block_4() + lowercase_block_5() + lowercase_block_6());
    push_lowercase_block_7(&mut v);
    assert(rview(v@) =~= lowercase_block_0() + lowercase_block_1() + lowercase_block_2() + lowercase_block_3() + lowercase_block_4() + lowercase_block_5() + lowercase_block_6() + lowercase_block_7());
    push_lowercase_block_8(&mut v);
    assert(rview(v@) =~= lowercase_block_0() + lowercase_block_1() + lowercase_block_2() + lowercase_block_3() + lowercase_block_4() + lowercase_block_5() + lowercase_block_6() + lowercase_block_7() + lowercase_block_8());
    v
}

pub open spec fn math_chunk_0() -> Seq<SRange> {
    seq![(0x2Bint, 0x2Bint), (0x3Cint, 0x3Eint), (0x5Eint, 0x5Eint), (0x7Cint, 0x7Cint), (0x7Eint, 0x7Eint), (0xACint, 0xACint), (0xB1int, 0xB1int), (0xD7int, 0xD7int)]
}

pub open spec fn math_chunk_1() -> Seq<SRange> {
    seq![(0xF7int, 0xF7int), (0x3D0int, 0x3D2int), (0x3D5int, 0x3D5int), (0x3F0int, 0x3F1int), (0x3F4int, 0x3F6int), (0x606int, 0x608int), (0x2016int, 0x2016int), (0x2032int, 0x2034int)]
}

pub open spec fn math_chunk_2() -> Seq<SRange> {
    seq![(0x2040int, 0x2040int), (0x2044int, 0x2044int), (0x2052int, 0x2052int), (0x2061int, 0x2064int), (0x207Aint, 0x207Eint), (0x208Aint, 0x208Eint), (0x20D0int, 0x20DCint), (0x20E1int, 0x20E1int)]
}

pub open spec fn math_chunk_3() -> Seq<SRange> {
    seq![(0x20E5int, 0x20E6int), (0x20EBint, 0x20EFint), (0x2102int, 0x2102int), (0x2107int, 0x2107int), (0x210Aint, 0x2113int), (0x2115int, 0x2115int), (0x2118int, 0x211Dint), (0x2124int, 0x2124int)]
}

pub open spec fn math_chunk_4() -> Seq<SRange> {
    seq![(0x2128int, 0x2129int), (0x212Cint, 0x212Dint), (0x212Fint, 0x2131int), (0x2133int, 0x2138int), (0x213Cint, 0x2149int), (0x214Bint, 0x214Bint), (0x2190int, 0x21A7int), (0x21A9int, 0x21AEint)]
}

pub open spec fn math_chunk_5() -> Seq<SRange> {
    seq![(0x21B0int, 0x21B1int), (0x21B6int, 0x21B7int), (0x21BCint, 0x21DBint), (0x21DDint, 0x21DDint), (0x21E4int, 0x21E5int), (0x21F4int, 0x22FFint), (0x2308int, 0x230Bint), (0x2320int, 0x2321int)]
}

pub open spec fn math_chunk_6() -> Seq<SRange> {
    seq![(0x237Cint, 0x237Cint), (0x239Bint, 0x23B5int), (0x23B7int, 0x23B7int), (0x23D0int, 0x23D0int), (0x23DCint, 0x23E2int), (0x25A0int, 0x25A1int), (0x25AEint, 0x25B7int), (0x25BCint, 0x25C1int)]
}

pub open spec fn math_chunk_7() -> Seq<SRange> {
    seq![(0x25C6int, 0x25C7int), (0x25CAint, 0x25CBint), (0x25CFint, 0x25D3int), (0x25E2int, 0x25E2int), (0x25E4int, 0x25E4int), (0x25E7int, 0x25ECint), (0x25F8int, 0x25FFint), (0x2605int, 0x2606int)]
}

pub open spec fn math_chunk_8() -> Seq<SRange> {
    seq![(0x2640int, 0x2640int), (0x2642int, 0x2642int), (0x2660int, 0x2663int), (0x266Dint, 0x266Fint), (0x27C0int, 0x27FFint), (0x2900int, 0x2AFFint), (0x2B30int, 0x2B44int), (0x2B47int, 0x2B4Cint)]
}

pub open spec fn math_chunk_9() -> Seq<SRange> {
    seq![(0xFB29int, 0xFB29int), (0xFE61int, 0xFE66int), (0xFE68int, 0xFE68int), (0xFF0Bint, 0xFF0Bint), (0xFF1Cint, 0xFF1Eint), (0xFF3Cint, 0xFF3Cint), (0xFF3Eint, 0xFF3Eint), (0xFF5Cint, 0xFF5Cint)]
}

pub open spec fn math_chunk_10() -> Seq<SRange> {
    seq![(0xFF5Eint, 0xFF5Eint), (0xFFE2int, 0xFFE2int), (0xFFE9int, 0xFFECint), (0x10D8Eint, 0x10D8Fint), (0x1D400int, 0x1D454int), (0x1D456int, 0x1D49Cint), (0x1D49Eint, 0x1D49Fint), (0x1D4A2int, 0x1D4A2int)]
}

pub open spec fn math_chunk_11() -> Seq<SRange> {
    seq![(0x1D4A5int, 0x1D4A6int), (0x1D4A9int, 0x1D4ACint), (0x1D4AEint, 0x1D4B9int), (0x1D4BBint, 0x1D4BBint), (0x1D4BDint, 0x1D4C3int), (0x1D4C5int, 0x1D505int), (0x1D507int, 0x1D50Aint), (0x1D50Dint, 0x1D514int)]
}

pub open spec fn math_chunk_12() -> Seq<SRange> {
    seq![(0x1D516int, 0x1D51Cint), (0x1D51Eint, 0x1D539int), (0x1D53Bint, 0x1D53Eint), (0x1D540int, 0x1D544int), (0x1D546int, 0x1D546int), (0x1D54Aint, 0x1D550int), (0x1D552int, 0x1D6A5int), (0x1D6A8int, 0x1D7CBint)]
}

pub open spec fn math_chunk_13() -> Seq<SRange> {
    seq![(0x1D7CEint, 0x1D7FFint), (0x1EE00int, 0x1EE03int), (0x1EE05int, 0x1EE1Fint), (0x1EE21int, 0x1EE22int), (0x1EE24int, 0x1EE24int), (0x1EE27int, 0x1EE27int), (0x1EE29int, 0x1EE32int), (0x1EE34int, 0x1EE37int)]
}

pub open spec fn math_chunk_14() -> Seq<SRange> {
    seq![(0x1EE39int, 0x1EE39int), (0x1EE3Bint, 0x1EE3Bint), (0x1EE42int, 0x1EE42int), (0x1EE47int, 0x1EE47int), (0x1EE49int, 0x1EE49int), (0x1EE4Bint, 0x1EE4Bint), (0x1EE4Dint, 0x1EE4Fint), (0x1EE51int, 0x1EE52int)]
}

pub open spec fn math_chunk_15() -> Seq<SRange> {
    seq![(0x1EE54int, 0x1EE54int), (0x1EE57int, 0x1EE57int), (0x1EE59int, 0x1EE59int), (0x1EE5Bint, 0x1EE5Bint), (0x1EE5Dint, 0x1EE5Dint), (0x1EE5Fint, 0x1EE5Fint), (0x1EE61int, 0x1EE62int), (0x1EE64int, 0x1EE64int)]
}

pub open spec fn math_chunk_16() -> Seq<SRange> {
    seq![(0x1EE67int, 0x1EE6Aint), (0x1EE6Cint, 0x1EE72int), (0x1EE74int, 0x1EE77int), (0x1EE79int, 0x1EE7Cint), (0x1EE7Eint, 0x1EE7Eint), (0x1EE80int, 0x1EE89int), (0x1EE8Bint, 0x1EE9Bint), (0x1EEA1int, 0x1EEA3int)]
}

pub open spec fn math_chunk_17() -> Seq<SRange> {
    seq![(0x1EEA5int, 0x1EEA9int), (0x1EEABint, 0x1EEBBint), (0x1EEF0int, 0x1EEF1int)]
}

pub open spec fn math_block_0() -> Seq<SRange> {
    math_chunk_0() + math_chunk_1() + math_chunk_2() + math_chunk_3() + math_chunk_4() + math_chunk_5() + math_chunk_6() + math_chunk_7() + math_chunk_8() + math_chunk_9()
}

pub open spec fn math_block_1() -> Seq<SRange> {
    math_chunk_10() + math_chunk_11() + math_chunk_12() + math_chunk_13() + math_chunk_14() + math_chunk_15() + math_chunk_16() + math_chunk_17()
}

/// The ranges of the property Math.
pub open spec fn math_ranges() -> Seq<SRange> {
    math_block_0() + math_block_1()
}

proof fn lemma_math_block_0()
    ensures
        canonical(math_block_0()),
        math_block_0().len() > 0,
        math_block_0()[0] == math_chunk_0()[0],
        math_block_0().last() == math_chunk_9().last(),
{
    reveal_with_fuel(canonical, 9);
    assert(canonical(math_chunk_0()));
    assert(canonical(math_chunk_1()));
    assert(canonical(math_chunk_2()));
    assert(canonical(math_chunk_3()));
    assert(canonical(math_chunk_4()));
    assert(canonical(math_chunk_5()));
    assert(canonical(math_chunk_6()));
    assert(canonical(math_chunk_7()));
    assert(canonical(math_chunk_8()));
    assert(canonical(math_chunk_9()));
    lemma_canonical_append(math_chunk_0(), math_chunk_1());
    lemma_canonical_append(math_chunk_0() + math_chunk_1(), math_chunk_2());
    lemma_canonical_append(math_chunk_0() + math_chunk_1() + math_chunk_2(), math_chunk_3());
    lemma_canonical_append(math_chunk_0() + math_chunk_1() + math_chunk_2() + math_chunk_3(), math_chunk_4());
    lemma_canonical_append(math_chunk_0() + math_chunk_1() + math_chunk_2() + math_chunk_3() + math_chunk_4(), math_chunk_5());
    lemma_canonical_append(math_chunk_0() + math_chunk_1() + math_chunk_2() + math_chunk_3() + math_chunk_4() + math_chunk_5(), math_chunk_6());
    lemma_canonical_append(math_chunk_0() + math_chunk_1() + math_chunk_2() + math_chunk_3() + math_chunk_4() + math_chunk_5() + math_chunk_6(), math_chunk_7());
    lemma_canonical_append(math_chunk_0() + math_chunk_1() + math_chunk_2() + math_chunk_3() + math_chunk_4() + math_chunk_5() + math_chunk_6() + math_chunk_7(), math_chunk_8());
    lemma_canonical_append(math_chunk_0() + math_chunk_1() + math_chunk_2() + math_chunk_3() + math_chunk_4() + math_chunk_5() + math_chunk_6() + math_chunk_7() + math_chunk_8(), math_chunk_9());
}

proof fn lemma_math_block_1()
    ensures
        canonical(math_block_1()),
        math_block_1().len() > 0,
        math_block_1()[0] == math_chunk_10()[0],
        math_block_1().last() == math_chunk_17().last(),
{
    reveal_with_fuel(canonical, 9);
    assert(canonical(math_chunk_10()));
    assert(canonical(math_chunk_11()));
    assert(canonical(math_chunk_12()));
    assert(canonical(math_chunk_13()));
    assert(canonical(math_chunk_14()));
    assert(canonical(math_chunk_15()));
    assert(canonical(math_chunk_16()));
    assert(canonical(math_chunk_17()));
    lemma_canonical_append(math_chunk_10(), math_chunk_11());
    lemma_canonical_append(math_chunk_10() + math_chunk_11(), math_chunk_12());
    lemma_canonical_append(math_chunk_10() + math_chunk_11() + math_chunk_12(), math_chunk_13());
    lemma_canonical_append(math_chunk_10() + math_chunk_11() + math_chunk_12() + math_chunk_13(), math_chunk_14());
    lemma_canonical_append(math_chunk_10() + math_chunk_11() + math_chunk_12() + math_chunk_13() + math_chunk_14(), math_chunk_15());
    lemma_canonical_append(math_chunk_10() + math_chunk_11() + math_chunk_12() + math_chunk_13() + math_chunk_14() + math_chunk_15(), math_chunk_16());
    lemma_canonical_append(math_chunk_10() + math_chunk_11() + math_chunk_12() + math_chunk_13() + math_chunk_14() + math_chunk_15() + math_chunk_16(), math_chunk_17());
}

pub proof fn lemma_math_canonical()
    ensures
        canonical(math_ranges()),
{
    lemma_math_block_0();
    lemma_math_block_1();
    lemma_canonical_append(math_block_0(), math_block_1());
}

fn push_math_chunk_0(v: &mut Vec<ClassUnicodeRange>)
    ensures
        rview(final(v)@) == rview(old(v)@) + math_chunk_0(),
{
    let ghost o = rview(v@);
    push_range(v, '\u{2B}', '\u{2B}');
    push_range(v, '\u{3C}', '\u{3E}');
    push_range(v, '\u{5E}', '\u{5E}');
    push_range(v, '\u{7C}', '\u{7C}');
    push_range(v, '\u{7E}', '\u{7E}');
    push_range(v, '\u{AC}', '\u{AC}');
    push_range(v, '\u{B1}', '\u{B1}');
    push_range(v, '\u{D7}', '\u{D7}');
    assert(rview(v@) =~= o + math_chunk_0());
}

fn push_math_chunk_1(v: &mut Vec<ClassUnicodeRange>)
    ensures
        rview(final(v)@) == rview(old(v)@) + math_chunk_1(),
{
    let ghost o = rview(v@);
    push_range(v, '\u{F7}', '\u{F7}');
    push_range(v, '\u{3D0}', '\u{3D2}');
    push_range(v, '\u{3D5}', '\u{3D5}');
    push_range(v, '\u{3F0}', '\u{3F1}');
    push_range(v, '\u{3F4}', '\u{3F6}');
    push_range(v, '\u{606}', '\u{608}');
    push_range(v, '\u{2016}', '\u{2016}');
    push_range(v, '\u{2032}', '\u{2034}');
    assert(rview(v@) =~= o + math_chunk_1());
}

fn push_math_chunk_2(v: &mut Vec<ClassUnicodeRange>)
    ensures
        rview(final(v)@) == rview(old(v)@) + math_chunk_2(),
{
    let ghost o = rview(v@);
    push_range(v, '\u{2040}', '\u{2040}');
    push_range(v, '\u{2044}', '\u{2044}');
    push_range(v, '\u{2052}', '\u{2052}');
    push_range(v, '\u{2061}', '\u{2064}');
    push_range(v, '\u{207A}', '\u{207E}');
    push_range(v, '\u{208A}', '\u{208E}');
    push_range(v, '\u{20D0}', '\u{20DC}');
    push_range(v, '\u{20E1}', '\u{20E1}');
    assert(rview(v@) =~= o + math_chunk_2());
}

fn push_math_chunk_3(v: &mut Vec<ClassUnicodeRange>)
    ensures
        rview(final(v)@) == rview(old(v)@) + math_chunk_3(),
{
    let ghost o = rview(v@);
    push_range(v, '\u{20E5}', '\u{20E6}');
    push_range(v, '\u{20EB}', '\u{20EF}');
    push_range(v, '\u{2102}', '\u{2102}');
    push_range(v, '\u{2107}', '\u{2107}');
    push_range(v, '\u{210A}', '\u{2113}');
    push_range(v, '\u{2115}', '\u{2115}');
    push_range(v, '\u{2118}', '\u{211D}');
    push_range(v, '\u{2124}', '\u{2124}');
    assert(rview(v@) =~= o + math_chunk_3());
}

fn push_math_chunk_4(v: &mut Vec<ClassUnicodeRange>)
    ensures
        rview(final(v)@) == rview(old(v)@) + math_chunk_4(),
{
    let ghost o = rview(v@);
    push_range(v, '\u{2128}', '\u{2129}');
    push_range(v, '\u{212C}', '\u{212D}');
    push_range(v, '\u{212F}', '\u{2131}');
    push_range(v, '\u{2133}', '\u{2138}');
    push_range(v, '\u{213C}', '\u{2149}');
    push_range(v, '\u{214B}', '\u{214B}');
    push_range(v, '\u{2190}', '\u{21A7}');
    push_range(v, '\u{21A9}', '\u{21AE}');
    assert(rview(v@) =~= o + math_chunk_4());
}

fn push_math_chunk_5(v: &mut Vec<ClassUnicodeRange>)
    ensures
        rview(final(v)@) == rview(old(v)@) + math_chunk_5(),
{
    let ghost o = rview(v@);
    push_range(v, '\u{21B0}', '\u{21B1}');
    push_range(v, '\u{21B6}', '\u{21B7}');
    push_range(v, '\u{21BC}', '\u{21DB}');
    push_range(v, '\u{21DD}', '\u{21DD}');
    push_range(v, '\u{21E4}', '\u{21E5}');
    push_range(v, '\u{21F4}', '\u{22FF}');
    push_range(v, '\u{2308}', '\u{230B}');
    push_range(v, '\u{2320}', '\u{2321}');
    assert(rview(v@) =~= o + math_chunk_5());
}

fn push_math_chunk_6(v: &mut Vec<ClassUnicodeRange>)
    ensures
        rview(final(v)@) == rview(old(v)@) + math_chunk_6(),
{
    let ghost o = rview(v@);
    push_range(v, '\u{237C}', '\u{237C}');
    push_range(v, '\u{239B}', '\u{23B5}');
    push_range(v, '\u{23B7}', '\u{23B7}');
    push_range(v, '\u{23D0}', '\u{23D0}');
    push_range(v, '\u{23DC}', '\u{23E2}');
    push_range(v, '\u{25A0}', '\u{25A1}');
    push_range(v, '\u{25AE}', '\u{25B7}');
    push_range(v, '\u{25BC}', '\u{25C1}');
    assert(rview(v@) =~= o + math_chunk_6());
}

fn push_math_chunk_7(v: &mut Vec<ClassUnicodeRange>)
    ensures
        rview(final(v)@) == rview(old(v)@) + math_chunk_7(),
{
    let ghost o = rview(v@);
    push_range(v, '\u{25C6}', '\u{25C7}');
    push_range(v, '\u{25CA}', '\u{25CB}');
    push_range(v, '\u{25CF}', '\u{25D3}');
    push_range(v, '\u{25E2}', '\u{25E2}');
    push_range(v, '\u{25E4}', '\u{25E4}');
    push_range(v, '\u{25E7}', '\u{25EC}');
    push_range(v, '\u{25F8}', '\u{25FF}');
    push_range(v, '\u{2605}', '\u{2606}');
    assert(rview(v@) =~= o + math_chunk_7());
}

fn push_math_chunk_8(v: &mut Vec<ClassUnicodeRange>)
    ensures
        rview(final(v)@) == rview(old(v)@) + math_chunk_8(),
{
    let ghost o = rview(v@);
    push_range(v, '\u{2640}', '\u{2640}');
    push_range(v, '\u{2642}', '\u{2642}');
    push_range(v, '\u{2660}', '\u{2663}');
    push_range(v, '\u{266D}', '\u{266F}');
    push_range(v, '\u{27C0}', '\u{27FF}');
    push_range(v, '\u{2900}', '\u{2AFF}');
    push_range(v, '\u{2B30}', '\u{2B44}');
    push_range(v, '\u{2B47}', '\u{2B4C}');
    assert(rview(v@) =~= o + math_chunk_8());
}

fn push_math_chunk_9(v: &mut Vec<ClassUnicodeRange>)
    ensures
        rview(final(v)@) == rview(old(v)@) + math_chunk_9(),
{
    let ghost o = rview(v@);
    push_range(v, '\u{FB29}', '\u{FB29}');
    push_range(v, '\u{FE61}', '\u{FE66}');
    push_range(v, '\u{FE68}', '\u{FE68}');
    push_range(v, '\u{FF0B}', '\u{FF0B}');
    push_range(v, '\u{FF1C}', '\u{FF1E}');
    push_range(v, '\u{FF3C}', '\u{FF3C}');
    push_range(v, '\u{FF3E}', '\u{FF3E}');
    push_range(v, '\u{FF5C}', '\u{FF5C}');
    assert(rview(v@) =~= o + math_chunk_9());
}

fn push_math_chunk_10(v: &mut Vec<ClassUnicodeRange>)
    ensures
        rview(final(v)@) == rview(old(v)@) + math_chunk_10(),
{
    let ghost o = rview(v@);
    push_range(v, '\u{FF5E}', '\u{FF5E}');
    push_range(v, '\u{FFE2}', '\u{FFE2}');
    push_range(v, '\u{FFE9}', '\u{FFEC}');
    push_range(v, '\u{10D8E}', '\u{10D8F}');
    push_range(v, '\u{1D400}', '\u{1D454}');
    push_range(v, '\u{1D456}', '\u{1D49C}');
    push_range(v, '\u{1D49E}', '\u{1D49F}');
    push_range(v, '\u{1D4A2}', '\u{1D4A2}');
    assert(rview(v@) =~= o + math_chunk_10());
}

fn push_math_chunk_11(v: &mut Vec<ClassUnicodeRange>)
    ensures
        rview(final(v)@) == rview(old(v)@) + math_chunk_11(),
{
    let ghost o = rview(v@);
    push_range(v, '\u{1D4A5}', '\u{1D4A6}');
    push_range(v, '\u{1D4A9}', '\u{1D4AC}');
    push_range(v, '\u{1D4AE}', '\u{1D4B9}');
    push_range(v, '\u{1D4BB}', '\u{1D4BB}');
    push_range(v, '\u{1D4BD}', '\u{1D4C3}');
    push_range(v, '\u{1D4C5}', '\u{1D505}');
    push_range(v, '\u{1D507}', '\u{1D50A}');
    push_range(v, '\u{1D50D}', '\u{1D514}');
    assert(rview(v@) =~= o + math_chunk_11());
}

fn push_math_chunk_12(v: &mut Vec<ClassUnicodeRange>)
    ensures
        rview(final(v)@) == rview(old(v)@) + math_chunk_12(),
{
    let ghost o = rview(v@);
    push_range(v, '\u{1D516}', '\u{1D51C}');
    push_range(v, '\u{1D51E}', '\u{1D539}');
    push_range(v, '\u{1D53B}', '\u{1D53E}');
    push_range(v, '\u{1D540}', '\u{1D544}');
    push_range(v, '\u{1D546}', '\u{1D546}');
    push_range(v, '\u{1D54A}', '\u{1D550}');
    push_range(v, '\u{1D552}', '\u{1D6A5}');
    push_range(v, '\u{1D6A8}', '\u{1D7CB}');
    assert(rview(v@) =~= o + math_chunk_12());
}

fn push_math_chunk_13(v: &mut Vec<ClassUnicodeRange>)
    ensures
        rview(final(v)@) == rview(old(v)@) + math_chunk_13(),
{
    let ghost o = rview(v@);
    push_range(v, '\u{1D7CE}', '\u{1D7FF}');
    push_range(v, '\u{1EE00}', '\u{1EE03}');
    push_range(v, '\u{1EE05}', '\u{1EE1F}');
    push_range(v, '\u{1EE21}', '\u{1EE22}');
    push_range(v, '\u{1EE24}', '\u{1EE24}');
    push_range(v, '\u{1EE27}', '\u{1EE27}');
    push_range(v, '\u{1EE29}', '\u{1EE32}');
    push_range(v, '\u{1EE34}', '\u{1EE37}');
    assert(rview(v@) =~= o + math_chunk_13());
}

fn push_math_chunk_14(v: &mut Vec<ClassUnicodeRange>)
    ensures
        rview(final(v)@) == rview(old(v)@) + math_chunk_14(),
{
    let ghost o = rview(v@);
    push_range(v, '\u{1EE39}', '\u{1EE39}');
    push_range(v, '\u{1EE3B}', '\u{1EE3B}');
    push_range(v, '\u{1EE42}', '\u{1EE42}');
    push_range(v, '\u{1EE47}', '\u{1EE47}');
    push_range(v, '\u{1EE49}', '\u{1EE49}');
    push_range(v, '\u{1EE4B}', '\u{1EE4B}');
    push_range(v, '\u{1EE4D}', '\u{1EE4F}');
    push_range(v, '\u{1EE51}', '\u{1EE52}');
    assert(rview(v@) =~= o + math_chunk_14());
}

fn push_math_chunk_15(v: &mut Vec<ClassUnicodeRange>)
    ensures
        rview(final(v)@) == rview(old(v)@) + math_chunk_15(),
{
    let ghost o = rview(v@);
    push_range(v, '\u{1EE54}', '\u{1EE54}');
    push_range(v, '\u{1EE57}', '\u{1EE57}');
    push_range(v, '\u{1EE59}', '\u{1EE59}');
    push_range(v, '\u{1EE5B}', '\u{1EE5B}');
    push_range(v, '\u{1EE5D}', '\u{1EE5D}');
    push_range(v, '\u{1EE5F}', '\u{1EE5F}');
    push_range(v, '\u{1EE61}', '\u{1EE62}');
    push_range(v, '\u{1EE64}', '\u{1EE64}');
    assert(rview(v@) =~= o + math_chunk_15());
}

fn push_math_chunk_16(v: &mut Vec<ClassUnicodeRange>)
    ensures
        rview(final(v)@) == rview(old(v)@) + math_chunk_16(),
{
    let ghost o = rview(v@);
    push_range(v, '\u{1EE67}', '\u{1EE6A}');
    push_range(v, '\u{1EE6C}', '\u{1EE72}');
    push_range(v, '\u{1EE74}', '\u{1EE77}');
    push_range(v, '\u{1EE79}', '\u{1EE7C}');
    push_range(v, '\u{1EE7E}', '\u{1EE7E}');
    push_range(v, '\u{1EE80}', '\u{1EE89}');
    push_range(v, '\u{1EE8B}', '\u{1EE9B}');
    push_range(v, '\u{1EEA1}', '\u{1EEA3}');
    assert(rview(v@) =~= o + math_chunk_16());
}

fn push_math_chunk_17(v: &mut Vec<ClassUnicodeRange>)
    ensures
        rview(final(v)@) == rview(old(v)@) + math_chunk_17(),
{
    let ghost o = rview(v@);
    push_range(v, '\u{1EEA5}', '\u{1EEA9}');
    push_range(v, '\u{1EEAB}', '\u{1EEBB}');
    push_range(v, '\u{1EEF0}', '\u{1EEF1}');
    assert(rview(v@) =~= o + math_chunk_17());
}

fn push_math_block_0(v: &mut Vec<ClassUnicodeRange>)
    ensures
        rview(final(v)@) == rview(old(v)@) + math_block_0(),
{
    let ghost o = rview(v@);
    push_math_chunk_0(v);
    assert(rview(v@) =~= o + (math_chunk_0()));
    push_math_chunk_1(v);
    assert(rview(v@) =~= o + (math_chunk_0() + math_chunk_1()));
    push_math_chunk_2(v);
    assert(rview(v@) =~= o + (math_chunk_0() + math_chunk_1() + math_chunk_2()));
    push_math_chunk_3(v);
    assert(rview(v@) =~= o + (math_chunk_0() + math_chunk_1() + math_chunk_2() + math_chunk_3()));
    push_math_chunk_4(v);
    assert(rview(v@) =~= o + (math_chunk_0() + math_chunk_1() + math_chunk_2() + math_chunk_3() + math_chunk_4()));
    push_math_chunk_5(v);
    assert(rview(v@) =~= o + (math_chunk_0() + math_chunk_1() + math_chunk_2() + math_chunk_3() + math_chunk_4() + math_chunk_5()));
    push_math_chunk_6(v);
    assert(rview(v@) =~= o + (math_chunk_0() + math_chunk_1() + math_chunk_2() + math_chunk_3() + math_chunk_4() + math_chunk_5() + math_chunk_6()));
    push_math_chunk_7(v);
    assert(rview(v@) =~= o + (math_chunk_0() + math_chunk_1() + math_chunk_2() + math_chunk_3() + math_chunk_4() + math_chunk_5() + math_chunk_6() + math_chunk_7()));
    push_math_chunk_8(v);
    assert(rview(v@) =~= o + (math_chunk_0() + math_chunk_1() + math_chunk_2() + math_chunk_3() + math_chunk_4() + math_chunk_5() + math_chunk_6() + math_chunk_7() + math_chunk_8()));
    push_math_chunk_9(v);
    assert(rview(v@) =~= o + (math_chunk_0() + math_chunk_1() + math_chunk_2() + math_chunk_3() + math_chunk_4() + math_chunk_5() + math_chunk_6() + math_chunk_7() + math_chunk_8() + math_chunk_9()));
}

fn push_math_block_1(v: &mut Vec<ClassUnicodeRange>)
    ensures
        rview(final(v)@) == rview(old(v)@) + math_block_1(),
{
    let ghost o = rview(v@);
    push_math_chunk_10(v);
    assert(rview(v@) =~= o + (math_chunk_10()));
    push_math_chunk_11(v);
    assert(rview(v@) =~= o + (math_chunk_10() + math_chunk_11()));
    push_math_chunk_12(v);
    assert(rview(v@) =~= o + (math_chunk_10() + math_chunk_11() + math_chunk_12()));
    push_math_chunk_13(v);
    assert(rview(v@) =~= o + (math_chunk_10() + math_chunk_11() + math_chunk_12() + math_chunk_13()));
    push_math_chunk_14(v);
    assert(rview(v@) =~= o + (math_chunk_10() + math_chunk_11() + math_chunk_12() + math_chunk_13() + math_chunk_14()));
    push_math_chunk_15(v);
    assert(rview(v@) =~= o + (math_chunk_10() + math_chunk_11() + math_chunk_12() + math_chunk_13() + math_chunk_14() + math_chunk_15()));
    push_math_chunk_16(v);
    assert(rview(v@) =~= o + (math_chunk_10() + math_chunk_11() + math_chunk_12() + math_chunk_13() + math_chunk_14() + math_chunk_15() + math_chunk_16()));
    push_math_chunk_17(v);
    assert(rview(v@) =~= o + (math_chunk_10() + math_chunk_11() + math_chunk_12() + math_chunk_13() + math_chunk_14() + math_chunk_15() + math_chunk_16() + math_chunk_17()));
}

pub fn math_class() -> (v: Vec<ClassUnicodeRange>)
    ensures
        rview(v@) == math_ranges(),
{
    let mut v: Vec<ClassUnicodeRange> = Vec::new();
    assert(rview(v@) =~= Seq::<SRange>::empty());
    push_math_block_0(&mut v);
    assert(rview(v@) =~= math_block_0());
    push_math_block_1(&mut v);
    assert(rview(v@) =~= math_block_0() + math_block_1());
    v
}

pub open spec fn modifier_combining_mark_chunk_0() -> Seq<SRange> {
    seq![(0x654int, 0x655int), (0x658int, 0x658int), (0x6DCint, 0x6DCint), (0x6E3int, 0x6E3int), (0x6E7int, 0x6E8int), (0x8CAint, 0x8CBint), (0x8CDint, 0x8CFint), (0x8D3int, 0x8D3int)]
}

pub open spec fn modifier_combining_mark_chunk_1() -> Seq<SRange> {
    seq![(0x8F3int, 0x8F3int)]
}

/// The ranges of the property Modifier_Combining_Mark.
pub open spec fn modifier_combining_mark_ranges() -> Seq<SRange> {
    modifier_combining_mark_chunk_0() + modifier_combining_mark_chunk_1()
}

pub proof fn lemma_modifier_combining_mark_canonical()
    ensures
        canonical(modifier_combining_mark_ranges()),
{
    reveal_with_fuel(canonical, 9);
    assert(canonical(modifier_combining_mark_chunk_0()));
    assert(canonical(modifier_combining_mark_chunk_1()));
    lemma_canonical_append(modifier_combining_mark_chunk_0(), modifier_combining_mark_chunk_1());
}

fn push_modifier_combining_mark_chunk_0(v: &mut Vec<ClassUnicodeRange>)
    ensures
        rview(final(v)@) == rview(old(v)@) + modifier_combining_mark_chunk_0(),
{
    let ghost o = rview(v@);
    push_range(v, '\u{654}', '\u{655}');
    push_range(v, '\u{658}', '\u{658}');
    push_range(v, '\u{6DC}', '\u{6DC}');
    push_range(v, '\u{6E3}', '\u{6E3}');
    push_range(v, '\u{6E7}', '\u{6E8}');
    push_range(v, '\u{8CA}', '\u{8CB}');
    push_range(v, '\u{8CD}', '\u{8CF}');
    push_range(v, '\u{8D3}', '\u{8D3}');
    assert(rview(v@) =~= o + modifier_combining_mark_chunk_0());
}

fn push_modifier_combining_mark_chunk_1(v: &mut Vec<ClassUnicodeRange>)
    ensures
        rview(final(v)@) == rview(old(v)@) + modifier_combining_mark_chunk_1(),
{
    let ghost o = rview(v@);
    push_range(v, '\u{8F3}', '\u{8F3}');
    assert(rview(v@) =~= o + modifier_combining_mark_chunk_1());
}

pub fn modifier_combining_mark_class() -> (v: Vec<ClassUnicodeRange>)
    ensures
        rview(v@) == modifier_combining_mark_ranges(),
{
    let mut v: Vec<ClassUnicodeRange> = Vec::new();
    assert(rview(v@) =~= Seq::<SRange>::empty());
    push_modifier_combining_mark_chunk_0(&mut v);
    assert(rview(v@) =~= modifier_combining_mark_chunk_0());
    push_modifier_combining_mark_chunk_1(&mut v);
    assert(rview(v@) =~= modifier_combining_mark_chunk_0() + modifier_combining_mark_chunk_1());
    v
}

pub open spec fn noncharacter_code_point_chunk_0() -> Seq<SRange> {
    seq![(0xFDD0int, 0xFDEFint), (0xFFFEint, 0xFFFFint), (0x1FFFEint, 0x1FFFFint), (0x2FFFEint, 0x2FFFFint), (0x3FFFEint, 0x3FFFFint), (0x4FFFEint, 0x4FFFFint), (0x5FFFEint, 0x5FFFFint), (0x6FFFEint, 0x6FFFFint)]
}

pub open spec fn noncharacter_code_point_chunk_1() -> Seq<SRange> {
    seq![(0x7FFFEint, 0x7FFFFint), (0x8FFFEint, 0x8FFFFint), (0x9FFFEint, 0x9FFFFint), (0xAFFFEint, 0xAFFFFint), (0xBFFFEint, 0xBFFFFint), (0xCFFFEint, 0xCFFFFint), (0xDFFFEint, 0xDFFFFint), (0xEFFFEint, 0xEFFFFint)]
}

pub open spec fn noncharacter_code_point_chunk_2() -> Seq<SRange> {
    seq![(0xFFFFEint, 0xFFFFFint), (0x10FFFEint, 0x10FFFFint)]
}

/// The ranges of the property Noncharacter_Code_Point.
pub open spec fn noncharacter_code_point_ranges() -> Seq<SRange> {
    noncharacter_code_point_chunk_0() + noncharacter_code_point_chunk_1() + noncharacter_code_point_chunk_2()
}

pub proof fn lemma_noncharacter_code_point_canonical()
    ensures
        canonical(noncharacter_code_point_ranges()),
{
    reveal_with_fuel(canonical, 9);
    assert(canonical(noncharacter_code_point_chunk_0()));
    assert(canonical(noncharacter_code_point_chunk_1()));
    assert(canonical(noncharacter_code_point_chunk_2()));
    lemma_canonical_append(noncharacter_code_point_chunk_0(), noncharacter_code_point_chunk_1());
    lemma_canonical_append(noncharacter_code_point_chunk_0() + noncharacter_code_point_chunk_1(), noncharacter_code_point_chunk_2());
}

fn push_noncharacter_code_point_chunk_0(v: &mut Vec<ClassUnicodeRange>)
    ensures
        rview(final(v)@) == rview(old(v)@) + noncharacter_code_point_chunk_0(),
{
    let ghost o = rview(v@);
    push_range(v, '\u{FDD0}', '\u{FDEF}');
    push_range(v, '\u{FFFE}', '\u{FFFF}');
    push_range(v, '\u{1FFFE}', '\u{1FFFF}');
    push_range(v, '\u{2FFFE}', '\u{2FFFF}');
    push_range(v, '\u{3FFFE}', '\u{3FFFF}');
    push_range(v, '\u{4FFFE}', '\u{4FFFF}');
    push_range(v, '\u{5FFFE}', '\u{5FFFF}');
    push_range(v, '\u{6FFFE}', '\u{6FFFF}');
    assert(rview(v@) =~= o + noncharacter_code_point_chunk_0());
}

fn push_noncharacter_code_point_chunk_1(v: &mut Vec<ClassUnicodeRange>)
    ensures
        rview(final(v)@) == rview(old(v)@) + noncharacter_code_point_chunk_1(),
{
    let ghost o = rview(v@);
    push_range(v, '\u{7FFFE}', '\u{7FFFF}');
    push_range(v, '\u{8FFFE}', '\u{8FFFF}');
    push_range(v, '\u{9FFFE}', '\u{9FFFF}');
    push_range(v, '\u{AFFFE}', '\u{AFFFF}');
    push_range(v, '\u{BFFFE}', '\u{BFFFF}');
    push_range(v, '\u{CFFFE}', '\u{CFFFF}');
    push_range(v, '\u{DFFFE}', '\u{DFFFF}');
    push_range(v, '\u{EFFFE}', '\u{EFFFF}');
    assert(rview(v@) =~= o + noncharacter_code_point_chunk_1());
}

fn push_noncharacter_code_point_chunk_2(v: &mut Vec<ClassUnicodeRange>)
    ensures
        rview(final(v)@) == rview(old(v)@) + noncharacter_code_point_chunk_2(),
{
    let ghost o = rview(v@);
    push_range(v, '\u{FFFFE}', '\u{FFFFF}');
    push_range(v, '\u{10FFFE}', '\u{10FFFF}');
    assert(rview(v@) =~= o + noncharacter_code_point_chunk_2());
}

pub fn noncharacter_code_point_class() -> (v: Vec<ClassUnicodeRange>)
    ensures
        rview(v@) == noncharacter_code_point_ranges(),
{
    let mut v: Vec<ClassUnicodeRange> = Vec::new();
    assert(rview(v@) =~= Seq::<SRange>::empty());
    push_noncharacter_code_point_chunk_0(&mut v);
    assert(rview(v@) =~= noncharacter_code_point_chunk_0());
    push_noncharacter_code_point_chunk_1(&mut v);
    assert(rview(v@) =~= noncharacter_code_point_chunk_0() + noncharacter_code_point_chunk_1());
    push_noncharacter_code_point_chunk_2(&mut v);
    assert(rview(v@) =~= noncharacter_code_point_chunk_0() + noncharacter_code_point_chunk_1() + noncharacter_code_point_chunk_2());
    v
}

pub open spec fn other_alphabetic_chunk_0() -> Seq<SRange> {
    seq![(0x345int, 0x345int), (0x363int, 0x36Fint), (0x5B0int, 0x5BDint), (0x5BFint, 0x5BFint), (0x5C1int, 0x5C2int), (0x5C4int, 0x5C5int), (0x5C7int, 0x5C7int), (0x610int, 0x61Aint)]
}

pub open spec fn other_alphabetic_chunk_1() -> Seq<SRange> {
    seq![(0x64Bint, 0x657int), (0x659int, 0x65Fint), (0x670int, 0x670int), (0x6D6int, 0x6DCint), (0x6E1int, 0x6E4int), (0x6E7int, 0x6E8int), (0x6EDint, 0x6EDint), (0x711int, 0x711int)]
}

pub open spec fn other_alphabetic_chunk_2() -> Seq<SRange> {
    seq![(0x730int, 0x73Fint), (0x7A6int, 0x7B0int), (0x816int, 0x817int), (0x81Bint, 0x823int), (0x825int, 0x827int), (0x829int, 0x82Cint), (0x897int, 0x897int), (0x8D4int, 0x8DFint)]
}

pub open spec fn other_alphabetic_chunk_3() -> Seq<SRange> {
    seq![(0x8E3int, 0x8E9int), (0x8F0int, 0x903int), (0x93Aint, 0x93Bint), (0x93Eint, 0x94Cint), (0x94Eint, 0x94Fint), (0x955int, 0x957int), (0x962int, 0x963int), (0x981int, 0x983int)]
}

pub open spec fn other_alphabetic_chunk_4() -> Seq<SRange> {
    seq![(0x9BEint, 0x9C4int), (0x9C7int, 0x9C8int), (0x9CBint, 0x9CCint), (0x9D7int, 0x9D7int), (0x9E2int, 0x9E3int), (0xA01int, 0xA03int), (0xA3Eint, 0xA42int), (0xA47int, 0xA48int)]
}

pub open spec fn other_alphabetic_chunk_5() -> Seq<SRange> {
    seq![(0xA4Bint, 0xA4Cint), (0xA51int, 0xA51int), (0xA70int, 0xA71int), (0xA75int, 0xA75int), (0xA81int, 0xA83int), (0xABEint, 0xAC5int), (0xAC7int, 0xAC9int), (0xACBint, 0xACCint)]
}

pub open spec fn other_alphabetic_chunk_6() -> Seq<SRange> {
    seq![(0xAE2int, 0xAE3int), (0xAFAint, 0xAFCint), (0xB01int, 0xB03int), (0xB3Eint, 0xB44int), (0xB47int, 0xB48int), (0xB4Bint, 0xB4Cint), (0xB56int, 0xB57int), (0xB62int, 0xB63int)]
}

pub open spec fn other_alphabetic_chunk_7() -> Seq<SRange> {
    seq![(0xB82int, 0xB82int), (0xBBEint, 0xBC2int), (0xBC6int, 0xBC8int), (0xBCAint, 0xBCCint), (0xBD7int, 0xBD7int), (0xC00int, 0xC04int), (0xC3Eint, 0xC44int), (0xC46int, 0xC48int)]
}

pub open spec fn other_alphabetic_chunk_8() -> Seq<SRange> {
    seq![(0xC4Aint, 0xC4Cint), (0xC55int, 0xC56int), (0xC62int, 0xC63int), (0xC81int, 0xC83int), (0xCBEint, 0xCC4int), (0xCC6int, 0xCC8int), (0xCCAint, 0xCCCint), (0xCD5int, 0xCD6int)]
}

pub open spec fn other_alphabetic_chunk_9() -> Seq<SRange> {
    seq![(0xCE2int, 0xCE3int), (0xCF3int, 0xCF3int), (0xD00int, 0xD03int), (0xD3Eint, 0xD44int), (0xD46int, 0xD48int), (0xD4Aint, 0xD4Cint), (0xD57int, 0xD57int), (0xD62int, 0xD63int)]
}

pub open spec fn other_alphabetic_chunk_10() -> Seq<SRange> {
    seq![(0xD81int, 0xD83int), (0xDCFint, 0xDD4int), (0xDD6int, 0xDD6int), (0xDD8int, 0xDDFint), (0xDF2int, 0xDF3int), (0xE31int, 0xE31int), (0xE34int, 0xE3Aint), (0xE4Dint, 0xE4Dint)]
}

pub open spec fn other_alphabetic_chunk_11() -> Seq<SRange> {
    seq![(0xEB1int, 0xEB1int), (0xEB4int, 0xEB9int), (0xEBBint, 0xEBCint), (0xECDint, 0xECDint), (0xF71int, 0xF83int), (0xF8Dint, 0xF97int), (0xF99int, 0xFBCint), (0x102Bint, 0x1036int)]
}

pub open spec fn other_alphabetic_chunk_12() -> Seq<SRange> {
    seq![(0x1038int, 0x1038int), (0x103Bint, 0x103Eint), (0x1056int, 0x1059int), (0x105Eint, 0x1060int), (0x1062int, 0x1064int), (0x1067int, 0x106Dint), (0x1071int, 0x1074int), (0x1082int, 0x108Dint)]
}

pub open spec fn other_alphabetic_chunk_13() -> Seq<SRange> {
    seq![(0x108Fint, 0x108Fint), (0x109Aint, 0x109Dint), (0x1712int, 0x1713int), (0x1732int, 0x1733int), (0x1752int, 0x1753int), (0x1772int, 0x1773int), (0x17B6int, 0x17C8int), (0x1885int, 0x1886int)]
}

pub open spec fn other_alphabetic_chunk_14() -> Seq<SRange> {
    seq![(0x18A9int, 0x18A9int), (0x1920int, 0x192Bint), (0x1930int, 0x1938int), (0x1A17int, 0x1A1Bint), (0x1A55int, 0x1A5Eint), (0x1A61int, 0x1A74int), (0x1ABFint, 0x1AC0int), (0x1ACCint, 0x1ACEint)]
}

pub open spec fn other_alphabetic_chunk_15() -> Seq<SRange> {
    seq![(0x1B00int, 0x1B04int), (0x1B35int, 0x1B43int), (0x1B80int, 0x1B82int), (0x1BA1int, 0x1BA9int), (0x1BACint, 0x1BADint), (0x1BE7int, 0x1BF1int), (0x1C24int, 0x1C36int), (0x1DD3int, 0x1DF4int)]
}

pub open spec fn other_alphabetic_chunk_16() -> Seq<SRange> {
    seq![(0x24B6int, 0x24E9int), (0x2DE0int, 0x2DFFint), (0xA674int, 0xA67Bint), (0xA69Eint, 0xA69Fint), (0xA802int, 0xA802int), (0xA80Bint, 0xA80Bint), (0xA823int, 0xA827int), (0xA880int, 0xA881int)]
}

pub open spec fn other_alphabetic_chunk_17() -> Seq<SRange> {
    seq![(0xA8B4int, 0xA8C3int), (0xA8C5int, 0xA8C5int), (0xA8FFint, 0xA8FFint), (0xA926int, 0xA92Aint), (0xA947int, 0xA952int), (0xA980int, 0xA983int), (0xA9B4int, 0xA9BFint), (0xA9E5int, 0xA9E5int)]
}

pub open spec fn other_alphabetic_chunk_18() -> Seq<SRange> {
    seq![(0xAA29int, 0xAA36int), (0xAA43int, 0xAA43int), (0xAA4Cint, 0xAA4Dint), (0xAA7Bint, 0xAA7Dint), (0xAAB0int, 0xAAB0int), (0xAAB2int, 0xAAB4int), (0xAAB7int, 0xAAB8int), (0xAABEint, 0xAABEint)]
}

pub open spec fn other_alphabetic_chunk_19() -> Seq<SRange> {
    seq![(0xAAEBint, 0xAAEFint), (0xAAF5int, 0xAAF5int), (0xABE3int, 0xABEAint), (0xFB1Eint, 0xFB1Eint), (0x10376int, 0x1037Aint), (0x10A01int, 0x10A03int), (0x10A05int, 0x10A06int), (0x10A0Cint, 0x10A0Fint)]
}

pub open spec fn other_alphabetic_chunk_20() -> Seq<SRange> {
    seq![(0x10D24int, 0x10D27int), (0x10D69int, 0x10D69int), (0x10EABint, 0x10EACint), (0x10EFCint, 0x10EFCint), (0x11000int, 0x11002int), (0x11038int, 0x11045int), (0x11073int, 0x11074int), (0x11080int, 0x11082int)]
}

pub open spec fn other_alphabetic_chunk_21() -> Seq<SRange> {
    seq![(0x110B0int, 0x110B8int), (0x110C2int, 0x110C2int), (0x11100int, 0x11102int), (0x11127int, 0x11132int), (0x11145int, 0x11146int), (0x11180int, 0x11182int), (0x111B3int, 0x111BFint), (0x111CEint, 0x111CFint)]
}

pub open spec fn other_alphabetic_chunk_22() -> Seq<SRange> {
    seq![(0x1122Cint, 0x11234int), (0x11237int, 0x11237int), (0x1123Eint, 0x1123Eint), (0x11241int, 0x11241int), (0x112DFint, 0x112E8int), (0x11300int, 0x11303int), (0x1133Eint, 0x11344int), (0x11347int, 0x11348int)]
}

pub open spec fn other_alphabetic_chunk_23() -> Seq<SRange> {
    seq![(0x1134Bint, 0x1134Cint), (0x11357int, 0x11357int), (0x11362int, 0x11363int), (0x113B8int, 0x113C0int), (0x113C2int, 0x113C2int), (0x113C5int, 0x113C5int), (0x113C7int, 0x113CAint), (0x113CCint, 0x113CDint)]
}

pub open spec fn other_alphabetic_chunk_24() -> Seq<SRange> {
    seq![(0x11435int, 0x11441int), (0x11443int, 0x11445int), (0x114B0int, 0x114C1int), (0x115AFint, 0x115B5int), (0x115B8int, 0x115BEint), (0x115DCint, 0x115DDint), (0x11630int, 0x1163Eint), (0x11640int, 0x11640int)]
}

pub open spec fn other_alphabetic_chunk_25() -> Seq<SRange> {
    seq![(0x116ABint, 0x116B5int), (0x1171Dint, 0x1172Aint), (0x1182Cint, 0x11838int), (0x11930int, 0x11935int), (0x11937int, 0x11938int), (0x1193Bint, 0x1193Cint), (0x11940int, 0x11940int), (0x11942int, 0x11942int)]
}

pub open spec fn other_alphabetic_chunk_26() -> Seq<SRange> {
    seq![(0x119D1int, 0x119D7int), (0x119DAint, 0x119DFint), (0x119E4int, 0x119E4int), (0x11A01int, 0x11A0Aint), (0x11A35int, 0x11A39int), (0x11A3Bint, 0x11A3Eint), (0x11A51int, 0x11A5Bint), (0x11A8Aint, 0x11A97int)]
}

pub open spec fn other_alphabetic_chunk_27() -> Seq<SRange> {
    seq![(0x11C2Fint, 0x11C36int), (0x11C38int, 0x11C3Eint), (0x11C92int, 0x11CA7int), (0x11CA9int, 0x11CB6int), (0x11D31int, 0x11D36int), (0x11D3Aint, 0x11D3Aint), (0x11D3Cint, 0x11D3Dint), (0x11D3Fint, 0x11D41int)]
}

pub open spec fn other_alphabetic_chunk_28() -> Seq<SRange> {
    seq![(0x11D43int, 0x11D43int), (0x11D47int, 0x11D47int), (0x11D8Aint, 0x11D8Eint), (0x11D90int, 0x11D91int), (0x11D93int, 0x11D96int), (0x11EF3int, 0x11EF6int), (0x11F00int, 0x11F01int), (0x11F03int, 0x11F03int)]
}

pub open spec fn other_alphabetic_chunk_29() -> Seq<SRange> {
    seq![(0x11F34int, 0x11F3Aint), (0x11F3Eint, 0x11F40int), (0x1611Eint, 0x1612Eint), (0x16F4Fint, 0x16F4Fint), (0x16F51int, 0x16F87int), (0x16F8Fint, 0x16F92int), (0x16FF0int, 0x16FF1int), (0x1BC9Eint, 0x1BC9Eint)]
}

pub open spec fn other_alphabetic_chunk_30() -> Seq<SRange> {
    seq![(0x1E000int, 0x1E006int), (0x1E008int, 0x1E018int), (0x1E01Bint, 0x1E021int), (0x1E023int, 0x1E024int), (0x1E026int, 0x1E02Aint), (0x1E08Fint, 0x1E08Fint), (0x1E947int, 0x1E947int), (0x1F130int, 0x1F149int)]
}

pub open spec fn other_alphabetic_chunk_31() -> Seq<SRange> {
    seq![(0x1F150int, 0x1F169int), (0x1F170int, 0x1F189int)]
}

pub open spec fn other_alphabetic_block_0() -> Seq<SRange> {
    other_alphabetic_chunk_0() + other_alphabetic_chunk_1() + other_alphabetic_chunk_2() + other_alphabetic_chunk_3() + other_alphabetic_chunk_4() + other_alphabetic_chunk_5() + other_alphabetic_chunk_6() + other_alphabetic_chunk_7() + other_alphabetic_chunk_8() + other_alphabetic_chunk_9()
}

pub open spec fn other_alphabetic_block_1() -> Seq<SRange> {
    other_alphabetic_chunk_10() + other_alphabetic_chunk_11() + other_alphabetic_chunk_12() + other_alphabetic_chunk_13() + other_alphabetic_chunk_14() + other_alphabetic_chunk_15() + other_alphabetic_chunk_16() + other_alphabetic_chunk_17() + other_alphabetic_chunk_18() + other_alphabetic_chunk_19()
}

pub open spec fn other_alphabetic_block_2() -> Seq<SRange> {
    other_alphabetic_chunk_20() + other_alphabetic_chunk_21() + other_alphabetic_chunk_22() + other_alphabetic_chunk_23() + other_alphabetic_chunk_24() + other_alphabetic_chunk_25() + other_alphabetic_chunk_26() + other_alphabetic_chunk_27() + other_alphabetic_chunk_28() + other_alphabetic_chunk_29()
}

pub open spec fn other_alphabetic_block_3() -> Seq<SRange> {
    other_alphabetic_chunk_30() + other_alphabetic_chunk_31()
}

/// The ranges of the property Other_Alphabetic.
pub open spec fn other_alphabetic_ranges() -> Seq<SRange> {
    other_alphabetic_block_0() + other_alphabetic_block_1() + other_alphabetic_block_2() + other_alphabetic_block_3()
}

proof fn lemma_other_alphabetic_block_0()
    ensures
        canonical(other_alphabetic_block_0()),
        other_alphabetic_block_0().len() > 0,
        other_alphabetic_block_0()[0] == other_alphabetic_chunk_0()[0],
        other_alphabetic_block_0().last() == other_alphabetic_chunk_9().last(),
{
    reveal_with_fuel(canonical, 9);
    assert(canonical(other_alphabetic_chunk_0()));
    assert(canonical(other_alphabetic_chunk_1()));
    assert(canonical(other_alphabetic_chunk_2()));
    assert(canonical(other_alphabetic_chunk_3()));
    assert(canonical(other_alphabetic_chunk_4()));
    assert(canonical(other_alphabetic_chunk_5()));
    assert(canonical(other_alphabetic_chunk_6()));
    assert(canonical(other_alphabetic_chunk_7()));
    assert(canonical(other_alphabetic_chunk_8()));
    assert(canonical(other_alphabetic_chunk_9()));
    lemma_canonical_append(other_alphabetic_chunk_0(), other_alphabetic_chunk_1());
    lemma_canonical_append(other_alphabetic_chunk_0() + other_alphabetic_chunk_1(), other_alphabetic_chunk_2());
    lemma_canonical_append(other_alphabetic_chunk_0() + other_alphabetic_chunk_1() + other_alphabetic_chunk_2(), other_alphabetic_chunk_3());
    lemma_canonical_append(other_alphabetic_chunk_0() + other_alphabetic_chunk_1() + other_alphabetic_chunk_2() + other_alphabetic_chunk_3(), other_alphabetic_chunk_4());
    lemma_canonical_append(other_alphabetic_chunk_0() + other_alphabetic_chunk_1() + other_alphabetic_chunk_2() + other_alphabetic_chunk_3() + other_alphabetic_chunk_4(), other_alphabetic_chunk_5());
    lemma_canonical_append(other_alphabetic_chunk_0() + other_alphabetic_chunk_1() + other_alphabetic_chunk_2() + other_alphabetic_chunk_3() + other_alphabetic_chunk_4() + other_alphabetic_chunk_5(), other_alphabetic_chunk_6());
    lemma_canonical_append(other_alphabetic_chunk_0() + other_alphabetic_chunk_1() + other_alphabetic_chunk_2() + other_alphabetic_chunk_3() + other_alphabetic_chunk_4() + other_alphabetic_chunk_5() + other_alphabetic_chunk_6(), other_alphabetic_chunk_7());
    lemma_canonical_append(other_alphabetic_chunk_0() + other_alphabetic_chunk_1() + other_alphabetic_chunk_2() + other_alphabetic_chunk_3() + other_alphabetic_chunk_4() + other_alphabetic_chunk_5() + other_alphabetic_chunk_6() + other_alphabetic_chunk_7(), other_alphabetic_chunk_8());
    lemma_canonical_append(other_alphabetic_chunk_0() + other_alphabetic_chunk_1() + other_alphabetic_chunk_2() + other_alphabetic_chunk_3() + other_alphabetic_chunk_4() + other_alphabetic_chunk_5() + other_alphabetic_chunk_6() + other_alphabetic_chunk_7() + other_alphabetic_chunk_8(), other_alphabetic_chunk_9());
}

proof fn lemma_other_alphabetic_block_1()
    ensures
        canonical(other_alphabetic_block_1()),
        other_alphabetic_block_1().len() > 0,
        other_alphabetic_block_1()[0] == other_alphabetic_chunk_10()[0],
        other_alphabetic_block_1().last() == other_alphabetic_chunk_19().last(),
{
    reveal_with_fuel(canonical, 9);
    assert(canonical(other_alphabetic_chunk_10()));
    assert(canonical(other_alphabetic_chunk_11()));
    assert(canonical(other_alphabetic_chunk_12()));
    assert(canonical(other_alphabetic_chunk_13()));
    assert(canonical(other_alphabetic_chunk_14()));
    assert(canonical(other_alphabetic_chunk_15()));
    assert(canonical(other_alphabetic_chunk_16()));
    assert(canonical(other_alphabetic_chunk_17()));
    assert(canonical(other_alphabetic_chunk_18()));
    assert(canonical(other_alphabetic_chunk_19()));
    lemma_canonical_append(other_alphabetic_chunk_10(), other_alphabetic_chunk_11());
    lemma_canonical_append(other_alphabetic_chunk_10() + other_alphabetic_chunk_11(), other_alphabetic_chunk_12());
    lemma_canonical_append(other_alphabetic_chunk_10() + other_alphabetic_chunk_11() + other_alphabetic_chunk_12(), other_alphabetic_chunk_13());
    lemma_canonical_append(other_alphabetic_chunk_10() + other_alphabetic_chunk_11() + other_alphabetic_chunk_12() + other_alphabetic_chunk_13(), other_alphabetic_chunk_14());
    lemma_canonical_append(other_alphabetic_chunk_10() + other_alphabetic_chunk_11() + other_alphabetic_chunk_12() + other_alphabetic_chunk_13() + other_alphabetic_chunk_14(), other_alphabetic_chunk_15());
    lemma_canonical_append(other_alphabetic_chunk_10() + other_alphabetic_chunk_11() + other_alphabetic_chunk_12() + other_alphabetic_chunk_13() + other_alphabetic_chunk_14() + other_alphabetic_chunk_15(), other_alphabetic_chunk_16());
    lemma_canonical_append(other_alphabetic_chunk_10() + other_alphabetic_chunk_11() + other_alphabetic_chunk_12() + other_alphabetic_chunk_13() + other_alphabetic_chunk_14() + other_alphabetic_chunk_15() + other_alphabetic_chunk_16(), other_alphabetic_chunk_17());
    lemma_canonical_append(other_alphabetic_chunk_10() + other_alphabetic_chunk_11() + other_alphabetic_chunk_12() + other_alphabetic_chunk_13() + other_alphabetic_chunk_14() + other_alphabetic_chunk_15() + other_alphabetic_chunk_16() + other_alphabetic_chunk_17(), other_alphabetic_chunk_18());
    lemma_canonical_append(other_alphabetic_chunk_10() + other_alphabetic_chunk_11() + other_alphabetic_chunk_12() + other_alphabetic_chunk_13() + other_alphabetic_chunk_14() + other_alphabetic_chunk_15() + other_alphabetic_chunk_16() + other_alphabetic_chunk_17() + other_alphabetic_chunk_18(), other_alphabetic_chunk_19());
}

proof fn lemma_other_alphabetic_block_2()
    ensures
        canonical(other_alphabetic_block_2()),
        other_alphabetic_block_2().len() > 0,
        other_alphabetic_block_2()[0] == other_alphabetic_chunk_20()[0],
        other_alphabetic_block_2().last() == other_alphabetic_chunk_29().last(),
{
    reveal_with_fuel(canonical, 9);
    assert(canonical(other_alphabetic_chunk_20()));
    assert(canonical(other_alphabetic_chunk_21()));
    assert(canonical(other_alphabetic_chunk_22()));
    assert(canonical(other_alphabetic_chunk_23()));
    assert(canonical(other_alphabetic_chunk_24()));
    assert(canonical(other_alphabetic_chunk_25()));
    assert(canonical(other_alphabetic_chunk_26()));
    assert(canonical(other_alphabetic_chunk_27()));
    assert(canonical(other_alphabetic_chunk_28()));
    assert(canonical(other_alphabetic_chunk_29()));
    lemma_canonical_append(other_alphabetic_chunk_20(), other_alphabetic_chunk_21());
    lemma_canonical_append(other_alphabetic_chunk_20() + other_alphabetic_chunk_21(), other_alphabetic_chunk_22());
    lemma_canonical_append(other_alphabetic_chunk_20() + other_alphabetic_chunk_21() + other_alphabetic_chunk_22(), other_alphabetic_chunk_23());
    lemma_canonical_append(other_alphabetic_chunk_20() + other_alphabetic_chunk_21() + other_alphabetic_chunk_22() + other_alphabetic_chunk_23(), other_alphabetic_chunk_24());
    lemma_canonical_append(other_alphabetic_chunk_20() + other_alphabetic_chunk_21() + other_alphabetic_chunk_22() + other_alphabetic_chunk_23() + other_alphabetic_chunk_24(), other_alphabetic_chunk_25());
    lemma_canonical_append(other_alphabetic_chunk_20() + other_alphabetic_chunk_21() + other_alphabetic_chunk_22() + other_alphabetic_chunk_23() + other_alphabetic_chunk_24() + other_alphabetic_chunk_25(), other_alphabetic_chunk_26());
    lemma_canonical_append(other_alphabetic_chunk_20() + other_alphabetic_chunk_21() + other_alphabetic_chunk_22() + other_alphabetic_chunk_23() + other_alphabetic_chunk_24() + other_alphabetic_chunk_25() + other_alphabetic_chunk_26(), other_alphabetic_chunk_27());
    lemma_canonical_append(other_alphabetic_chunk_20() + other_alphabetic_chunk_21() + other_alphabetic_chunk_22() + other_alphabetic_chunk_23() + other_alphabetic_chunk_24() + other_alphabetic_chunk_25() + other_alphabetic_chunk_26() + other_alphabetic_chunk_27(), other_alphabetic_chunk_28());
    lemma_canonical_append(other_alphabetic_chunk_20() + other_alphabetic_chunk_21() + other_alphabetic_chunk_22() + other_alphabetic_chunk_23() + other_alphabetic_chunk_24() + other_alphabetic_chunk_25() + other_alphabetic_chunk_26() + other_alphabetic_chunk_27() + other_alphabetic_chunk_28(), other_alphabetic_chunk_29());
}

proof fn lemma_other_alphabetic_block_3()
    ensures
        canonical(other_alphabetic_block_3()),
        other_alphabetic_block_3().len() > 0,
        other_alphabetic_block_3()[0] == other_alphabetic_chunk_30()[0],
        other_alphabetic_block_3().last() == other_alphabetic_chunk_31().last(),
{
    reveal_with_fuel(canonical, 9);
    assert(canonical(other_alphabetic_chunk_30()));
    assert(canonical(other_alphabetic_chunk_31()));
    lemma_canonical_append(other_alphabetic_chunk_30(), other_alphabetic_chunk_31());
}

pub proof fn lemma_other_alphabetic_canonical()
    ensures
        canonical(other_alphabetic_ranges()),
{
    lemma_other_alphabetic_block_0();
    lemma_other_alphabetic_block_1();
    lemma_other_alphabetic_block_2();
    lemma_other_alphabetic_block_3();
    lemma_canonical_append(other_alphabetic_block_0(), other_alphabetic_block_1());
    lemma_canonical_append(other_alphabetic_block_0() + other_alphabetic_block_1(), other_alphabetic_block_2());
    lemma_canonical_append(other_alphabetic_block_0() + other_alphabetic_block_1() + other_alphabetic_block_2(), other_alphabetic_block_3());
}

fn push_other_alphabetic_chunk_0(v: &mut Vec<ClassUnicodeRange>)
    ensures
        rview(final(v)@) == rview(old(v)@) + other_alphabetic_chunk_0(),
{
    let ghost o = rview(v@);
    push_range(v, '\u{345}', '\u{345}');
    push_range(v, '\u{363}', '\u{36F}');
    push_range(v, '\u{5B0}', '\u{5BD}');
    push_range(v, '\u{5BF}', '\u{5BF}');
    push_range(v, '\u{5C1}', '\u{5C2}');
    push_range(v, '\u{5C4}', '\u{5C5}');
    push_range(v, '\u{5C7}', '\u{5C7}');
    push_range(v, '\u{610}', '\u{61A}');
    assert(rview(v@) =~= o + other_alphabetic_chunk_0());
}

fn push_other_alphabetic_chunk_1(v: &mut Vec<ClassUnicodeRange>)
    ensures
        rview(final(v)@) == rview(old(v)@) + other_alphabetic_chunk_1(),
{
    let ghost o = rview(v@);
    push_range(v, '\u{64B}', '\u{657}');
    push_range(v, '\u{659}', '\u{65F}');
    push_range(v, '\u{670}', '\u{670}');
    push_range(v, '\u{6D6}', '\u{6DC}');
    push_range(v, '\u{6E1}', '\u{6E4}');
    push_range(v, '\u{6E7}', '\u{6E8}');
    push_range(v, '\u{6ED}', '\u{6ED}');
    push_range(v, '\u{711}', '\u{711}');
    assert(rview(v@) =~= o + other_alphabetic_chunk_1());
}

fn push_other_alphabetic_chunk_2(v: &mut Vec<ClassUnicodeRange>)
    ensures
        rview(final(v)@) == rview(old(v)@) + other_alphabetic_chunk_2(),
{
    let ghost o = rview(v@);
    push_range(v, '\u{730}', '\u{73F}');
    push_range(v, '\u{7A6}', '\u{7B0}');
    push_range(v, '\u{816}', '\u{817}');
    push_range(v, '\u{81B}', '\u{823}');
    push_range(v, '\u{825}', '\u{827}');
    push_range(v, '\u{829}', '\u{82C}');
    push_range(v, '\u{897}', '\u{897}');
    push_range(v, '\u{8D4}', '\u{8DF}');
    assert(rview(v@) =~= o + other_alphabetic_chunk_2());
}

fn push_other_alphabetic_chunk_3(v: &mut Vec<ClassUnicodeRange>)
    ensures
        rview(final(v)@) == rview(old(v)@) + other_alphabetic_chunk_3(),
{
    let ghost o = rview(v@);
    push_range(v, '\u{8E3}', '\u{8E9}');
    push_range(v, '\u{8F0}', '\u{903}');
    push_range(v, '\u{93A}', '\u{93B}');
    push_range(v, '\u{93E}', '\u{94C}');
    push_range(v, '\u{94E}', '\u{94F}');
    push_range(v, '\u{955}', '\u{957}');
    push_range(v, '\u{962}', '\u{963}');
    push_range(v, '\u{981}', '\u{983}');
    assert(rview(v@) =~= o + other_alphabetic_chunk_3());
}

fn push_other_alphabetic_chunk_4(v: &mut Vec<ClassUnicodeRange>)
    ensures
        rview(final(v)@) == rview(old(v)@) + other_alphabetic_chunk_4(),
{
    let ghost o = rview(v@);
    push_range(v, '\u{9BE}', '\u{9C4}');
    push_range(v, '\u{9C7}', '\u{9C8}');
    push_range(v, '\u{9CB}', '\u{9CC}');
    push_range(v, '\u{9D7}', '\u{9D7}');
    push_range(v, '\u{9E2}', '\u{9E3}');
    push_range(v, '\u{A01}', '\u{A03}');
    push_range(v, '\u{A3E}', '\u{A42}');
    push_range(v, '\u{A47}', '\u{A48}');
    assert(rview(v@) =~= o + other_alphabetic_chunk_4());
}

fn push_other_alphabetic_chunk_5(v: &mut Vec<ClassUnicodeRange>)
    ensures
        rview(final(v)@) == rview(old(v)@) + other_alphabetic_chunk_5(),
{
    let ghost o = rview(v@);
    push_range(v, '\u{A4B}', '\u{A4C}');
    push_range(v, '\u{A51}', '\u{A51}');
    push_range(v, '\u{A70}', '\u{A71}');
    push_range(v, '\u{A75}', '\u{A75}');
    push_range(v, '\u{A81}', '\u{A83}');
    push_range(v, '\u{ABE}', '\u{AC5}');
    push_range(v, '\u{AC7}', '\u{AC9}');
    push_range(v, '\u{ACB}', '\u{ACC}');
    assert(rview(v@) =~= o + other_alphabetic_chunk_5());
}

fn push_other_alphabetic_chunk_6(v: &mut Vec<ClassUnicodeRange>)
    ensures
        rview(final(v)@) == rview(old(v)@) + other_alphabetic_chunk_6(),
{
    let ghost o = rview(v@);
    push_range(v, '\u{AE2}', '\u{AE3}');
    push_range(v, '\u{AFA}', '\u{AFC}');
    push_range(v, '\u{B01}', '\u{B03}');
    push_range(v, '\u{B3E}', '\u{B44}');
    push_range(v, '\u{B47}', '\u{B48}');
    push_range(v, '\u{B4B}', '\u{B4C}');
    push_range(v, '\u{B56}', '\u{B57}');
    push_range(v, '\u{B62}', '\u{B63}');
    assert(rview(v@) =~= o + other_alphabetic_chunk_6());
}

fn push_other_alphabetic_chunk_7(v: &mut Vec<ClassUnicodeRange>)
    ensures
        rview(final(v)@) == rview(old(v)@) + other_alphabetic_chunk_7(),
{
    let ghost o = rview(v@);
    push_range(v, '\u{B82}', '\u{B82}');
    push_range(v, '\u{BBE}', '\u{BC2}');
    push_range(v, '\u{BC6}', '\u{BC8}');
    push_range(v, '\u{BCA}', '\u{BCC}');
    push_range(v, '\u{BD7}', '\u{BD7}');
    push_range(v, '\u{C00}', '\u{C04}');
    push_range(v, '\u{C3E}', '\u{C44}');
    push_range(v, '\u{C46}', '\u{C48}');
    assert(rview(v@) =~= o + other_alphabetic_chunk_7());
}

fn push_other_alphabetic_chunk_8(v: &mut Vec<ClassUnicodeRange>)
    ensures
        rview(final(v)@) == rview(old(v)@) + other_alphabetic_chunk_8(),
{
    let ghost o = rview(v@);
    push_range(v, '\u{C4A}', '\u{C4C}');
    push_range(v, '\u{C55}', '\u{C56}');
    push_range(v, '\u{C62}', '\u{C63}');
    push_range(v, '\u{C81}', '\u{C83}');
    push_range(v, '\u{CBE}', '\u{CC4}');
    push_range(v, '\u{CC6}', '\u{CC8}');
    push_range(v, '\u{CCA}', '\u{CCC}');
    push_range(v, '\u{CD5}', '\u{CD6}');
    assert(rview(v@) =~= o + other_alphabetic_chunk_8());
}

fn push_other_alphabetic_chunk_9(v: &mut Vec<ClassUnicodeRange>)
    ensures
        rview(final(v)@) == rview(old(v)@) + other_alphabetic_chunk_9(),
{
    let ghost o = rview(v@);
    push_range(v, '\u{CE2}', '\u{CE3}');
    push_range(v, '\u{CF3}', '\u{CF3}');
    push_range(v, '\u{D00}', '\u{D03}');
    push_range(v, '\u{D3E}', '\u{D44}');
    push_range(v, '\u{D46}', '\u{D48}');
    push_range(v, '\u{D4A}', '\u{D4C}');
    push_range(v, '\u{D57}', '\u{D57}');
    push_range(v, '\u{D62}', '\u{D63}');
    assert(rview(v@) =~= o + other_alphabetic_chunk_9());
}

fn push_other_alphabetic_chunk_10(v: &mut Vec<ClassUnicodeRange>)
    ensures
        rview(final(v)@) == rview(old(v)@) + other_alphabetic_chunk_10(),
{
    let ghost o = rview(v@);
    push_range(v, '\u{D81}', '\u{D83}');
    push_range(v, '\u{DCF}', '\u{DD4}');
    push_range(v, '\u{DD6}', '\u{DD6}');
    push_range(v, '\u{DD8}', '\u{DDF}');
    push_range(v, '\u{DF2}', '\u{DF3}');
    push_range(v, '\u{E31}', '\u{E31}');
    push_range(v, '\u{E34}', '\u{E3A}');
    push_range(v, '\u{E4D}', '\u{E4D}');
    assert(rview(v@) =~= o + other_alphabetic_chunk_10());
}

fn push_other_alphabetic_chunk_11(v: &mut Vec<ClassUnicodeRange>)
    ensures
        rview(final(v)@) == rview(old(v)@) + other_alphabetic_chunk_11(),
{
    let ghost o = rview(v@);
    push_range(v, '\u{EB1}', '\u{EB1}');
    push_range(v, '\u{EB4}', '\u{EB9}');
    push_range(v, '\u{EBB}', '\u{EBC}');
    push_range(v, '\u{ECD}', '\u{ECD}');
    push_range(v, '\u{F71}', '\u{F83}');
    push_range(v, '\u{F8D}', '\u{F97}');
    push_range(v, '\u{F99}', '\u{FBC}');
    push_range(v, '\u{102B}', '\u{1036}');
    assert(rview(v@) =~= o + other_alphabetic_chunk_11());
}

fn push_other_alphabetic_chunk_12(v: &mut Vec<ClassUnicodeRange>)
    ensures
        rview(final(v)@) == rview(old(v)@) + other_alphabetic_chunk_12(),
{
    let ghost o = rview(v@);
    push_range(v, '\u{1038}', '\u{1038}');
    push_range(v, '\u{103B}', '\u{103E}');
    push_range(v, '\u{1056}', '\u{1059}');
    push_range(v, '\u{105E}', '\u{1060}');
    push_range(v, '\u{1062}', '\u{1064}');
    push_range(v, '\u{1067}', '\u{106D}');
    push_range(v, '\u{1071}', '\u{1074}');
    push_range(v, '\u{1082}', '\u{108D}');
    assert(rview(v@) =~= o + other_alphabetic_chunk_12());
}

fn push_other_alphabetic_chunk_13(v: &mut Vec<ClassUnicodeRange>)
    ensures
        rview(final(v)@) == rview(old(v)@) + other_alphabetic_chunk_13(),
{
    let ghost o = rview(v@);
    push_range(v, '\u{108F}', '\u{108F}');
    push_range(v, '\u{109A}', '\u{109D}');
    push_range(v, '\u{1712}', '\u{1713}');
    push_range(v, '\u{1732}', '\u{1733}');
    push_range(v, '\u{1752}', '\u{1753}');
    push_range(v, '\u{1772}', '\u{1773}');
    push_range(v, '\u{17B6}', '\u{17C8}');
    push_range(v, '\u{1885}', '\u{1886}');
    assert(rview(v@) =~= o + other_alphabetic_chunk_13());
}

fn push_other_alphabetic_chunk_14(v: &mut Vec<ClassUnicodeRange>)
    ensures
        rview(final(v)@) == rview(old(v)@) + other_alphabetic_chunk_14(),
{
    let ghost o = rview(v@);
    push_range(v, '\u{18A9}', '\u{18A9}');
    push_range(v, '\u{1920}', '\u{192B}');
    push_range(v, '\u{1930}', '\u{1938}');
    push_range(v, '\u{1A17}', '\u{1A1B}');
    push_range(v, '\u{1A55}', '\u{1A5E}');
    push_range(v, '\u{1A61}', '\u{1A74}');
    push_range(v, '\u{1ABF}', '\u{1AC0}');
    push_range(v, '\u{1ACC}', '\u{1ACE}');
    assert(rview(v@) =~= o + other_alphabetic_chunk_14());
}

fn push_other_alphabetic_chunk_15(v: &mut Vec<ClassUnicodeRange>)
    ensures
        rview(final(v)@) == rview(old(v)@) + other_alphabetic_chunk_15(),
{
    let ghost o = rview(v@);
    push_range(v, '\u{1B00}', '\u{1B04}');
    push_range(v, '\u{1B35}', '\u{1B43}');
    push_range(v, '\u{1B80}', '\u{1B82}');
    push_range(v, '\u{1BA1}', '\u{1BA9}');
    push_range(v, '\u{1BAC}', '\u{1BAD}');
    push_range(v, '\u{1BE7}', '\u{1BF1}');
    push_range(v, '\u{1C24}', '\u{1C36}');
    push_range(v, '\u{1DD3}', '\u{1DF4}');
    assert(rview(v@) =~= o + other_alphabetic_chunk_15());
}

fn push_other_alphabetic_chunk_16(v: &mut Vec<ClassUnicodeRange>)
    ensures
        rview(final(v)@) == rview(old(v)@) + other_alphabetic_chunk_16(),
{
    let ghost o = rview(v@);
    push_range(v, '\u{24B6}', '\u{24E9}');
    push_range(v, '\u{2DE0}', '\u{2DFF}');
    push_range(v, '\u{A674}', '\u{A67B}');
    push_range(v, '\u{A69E}', '\u{A69F}');
    push_range(v, '\u{A802}', '\u{A802}');
    push_range(v, '\u{A80B}', '\u{A80B}');
    push_range(v, '\u{A823}', '\u{A827}');
    push_range(v, '\u{A880}', '\u{A881}');
    assert(rview(v@) =~= o + other_alphabetic_chunk_16());
}

fn push_other_alphabetic_chunk_17(v: &mut Vec<ClassUnicodeRange>)
    ensures
        rview(final(v)@) == rview(old(v)@) + other_alphabetic_chunk_17(),
{
    let ghost o = rview(v@);
    push_range(v, '\u{A8B4}', '\u{A8C3}');
    push_range(v, '\u{A8C5}', '\u{A8C5}');
    push_range(v, '\u{A8FF}', '\u{A8FF}');
    push_range(v, '\u{A926}', '\u{A92A}');
    push_range(v, '\u{A947}', '\u{A952}');
    push_range(v, '\u{A980}', '\u{A983}');
    push_range(v, '\u{A9B4}', '\u{A9BF}');
    push_range(v, '\u{A9E5}', '\u{A9E5}');
    assert(rview(v@) =~= o + other_alphabetic_chunk_17());
}

fn push_other_alphabetic_chunk_18(v: &mut Vec<ClassUnicodeRange>)
    ensures
        rview(final(v)@) == rview(old(v)@) + other_alphabetic_chunk_18(),
{
    let ghost o = rview(v@);
    push_range(v, '\u{AA29}', '\u{AA36}');
    push_range(v, '\u{AA43}', '\u{AA43}');
    push_range(v, '\u{AA4C}', '\u{AA4D}');
    push_range(v, '\u{AA7B}', '\u{AA7D}');
    push_range(v, '\u{AAB0}', '\u{AAB0}');
    push_range(v, '\u{AAB2}', '\u{AAB4}');
    push_range(v, '\u{AAB7}', '\u{AAB8}');
    push_range(v, '\u{AABE}', '\u{AABE}');
    assert(rview(v@) =~= o + other_alphabetic_chunk_18());
}

fn push_other_alphabetic_chunk_19(v: &mut Vec<ClassUnicodeRange>)
    ensures
        rview(final(v)@) == rview(old(v)@) + other_alphabetic_chunk_19(),
{
    let ghost o = rview(v@);
    push_range(v, '\u{AAEB}', '\u{AAEF}');
    push_range(v, '\u{AAF5}', '\u{AAF5}');
    push_range(v, '\u{ABE3}', '\u{ABEA}');
    push_range(v, '\u{FB1E}', '\u{FB1E}');
    push_range(v, '\u{10376}', '\u{1037A}');
    push_range(v, '\u{10A01}', '\u{10A03}');
    push_range(v, '\u{10A05}', '\u{10A06}');
    push_range(v, '\u{10A0C}', '\u{10A0F}');
    assert(rview(v@) =~= o + other_alphabetic_chunk_19());
}

fn push_other_alphabetic_chunk_20(v: &mut Vec<ClassUnicodeRange>)
    ensures
        rview(final(v)@) == rview(old(v)@) + other_alphabetic_chunk_20(),
{
    let ghost o = rview(v@);
    push_range(v, '\u{10D24}', '\u{10D27}');
    push_range(v, '\u{10D69}', '\u{10D69}');
    push_range(v, '\u{10EAB}', '\u{10EAC}');
    push_range(v, '\u{10EFC}', '\u{10EFC}');
    push_range(v, '\u{11000}', '\u{11002}');
    push_range(v, '\u{11038}', '\u{11045}');
    push_range(v, '\u{11073}', '\u{11074}');
    push_range(v, '\u{11080}', '\u{11082}');
    assert(rview(v@) =~= o + other_alphabetic_chunk_20());
}

fn push_other_alphabetic_chunk_21(v: &mut Vec<ClassUnicodeRange>)
    ensures
        rview(final(v)@) == rview(old(v)@) + other_alphabetic_chunk_21(),
{
    let ghost o = rview(v@);
    push_range(v, '\u{110B0}', '\u{110B8}');
    push_range(v, '\u{110C2}', '\u{110C2}');
    push_range(v, '\u{11100}', '\u{11102}');
    push_range(v, '\u{11127}', '\u{11132}');
    push_range(v, '\u{11145}', '\u{11146}');
    push_range(v, '\u{11180}', '\u{11182}');
    push_range(v, '\u{111B3}', '\u{111BF}');
    push_range(v, '\u{111CE}', '\u{111CF}');
    assert(rview(v@) =~= o + other_alphabetic_chunk_21());
}

fn push_other_alphabetic_chunk_22(v: &mut Vec<ClassUnicodeRange>)
    ensures
        rview(final(v)@) == rview(old(v)@) + other_alphabetic_chunk_22(),
{
    let ghost o = rview(v@);
    push_range(v, '\u{1122C}', '\u{11234}');
    push_range(v, '\u{11237}', '\u{11237}');
    push_range(v, '\u{1123E}', '\u{1123E}');
    push_range(v, '\u{11241}', '\u{11241}');
    push_range(v, '\u{112DF}', '\u{112E8}');
    push_range(v, '\u{11300}', '\u{11303}');
    push_range(v, '\u{1133E}', '\u{11344}');
    push_range(v, '\u{11347}', '\u{11348}');
    assert(rview(v@) =~= o + other_alphabetic_chunk_22());
}

fn push_other_alphabetic_chunk_23(v: &mut Vec<ClassUnicodeRange>)
    ensures
        rview(final(v)@) == rview(old(v)@) + other_alphabetic_chunk_23(),
{
    let ghost o = rview(v@);
    push_range(v, '\u{1134B}', '\u{1134C}');
    push_range(v, '\u{11357}', '\u{11357}');
    push_range(v, '\u{11362}', '\u{11363}');
    push_range(v, '\u{113B8}', '\u{113C0}');
    push_range(v, '\u{113C2}', '\u{113C2}');
    push_range(v, '\u{113C5}', '\u{113C5}');
    push_range(v, '\u{113C7}', '\u{113CA}');
    push_range(v, '\u{113CC}', '\u{113CD}');
    assert(rview(v@) =~= o + other_alphabetic_chunk_23());
}

fn push_other_alphabetic_chunk_24(v: &mut Vec<ClassUnicodeRange>)
    ensures
        rview(final(v)@) == rview(old(v)@) + other_alphabetic_chunk_24(),
{
    let ghost o = rview(v@);
    push_range(v, '\u{11435}', '\u{11441}');
    push_range(v, '\u{11443}', '\u{11445}');
    push_range(v, '\u{114B0}', '\u{114C1}');
    push_range(v, '\u{115AF}', '\u{115B5}');
    push_range(v, '\u{115B8}', '\u{115BE}');
    push_range(v, '\u{115DC}', '\u{115DD}');
    push_range(v, '\u{11630}', '\u{1163E}');
    push_range(v, '\u{11640}', '\u{11640}');
    assert(rview(v@) =~= o + other_alphabetic_chunk_24());
}

fn push_other_alphabetic_chunk_25(v: &mut Vec<ClassUnicodeRange>)
    ensures
        rview(final(v)@) == rview(old(v)@) + other_alphabetic_chunk_25(),
{
    let ghost o = rview(v@);
    push_range(v, '\u{116AB}', '\u{116B5}');
    push_range(v, '\u{1171D}', '\u{1172A}');
    push_range(v, '\u{1182C}', '\u{11838}');
    push_range(v, '\u{11930}', '\u{11935}');
    push_range(v, '\u{11937}', '\u{11938}');
    push_range(v, '\u{1193B}', '\u{1193C}');
    push_range(v, '\u{11940}', '\u{11940}');
    push_range(v, '\u{11942}', '\u{11942}');
    assert(rview(v@) =~= o + other_alphabetic_chunk_25());
}

fn push_other_alphabetic_chunk_26(v: &mut Vec<ClassUnicodeRange>)
    ensures
        rview(final(v)@) == rview(old(v)@) + other_alphabetic_chunk_26(),
{
    let ghost o = rview(v@);
    push_range(v, '\u{119D1}', '\u{119D7}');
    push_range(v, '\u{119DA}', '\u{119DF}');
    push_range(v, '\u{119E4}', '\u{119E4}');
    push_range(v, '\u{11A01}', '\u{11A0A}');
    push_range(v, '\u{11A35}', '\u{11A39}');
    push_range(v, '\u{11A3B}', '\u{11A3E}');
    push_range(v, '\u{11A51}', '\u{11A5B}');
    push_range(v, '\u{11A8A}', '\u{11A97}');
    assert(rview(v@) =~= o + other_alphabetic_chunk_26());
}

fn push_other_alphabetic_chunk_27(v: &mut Vec<ClassUnicodeRange>)
    ensures
        rview(final(v)@) == rview(old(v)@) + other_alphabetic_chunk_27(),
{
    let ghost o = rview(v@);
    push_range(v, '\u{11C2F}', '\u{11C36}');
    push_range(v, '\u{11C38}', '\u{11C3E}');
    push_range(v, '\u{11C92}', '\u{11CA7}');
    push_range(v, '\u{11CA9}', '\u{11CB6}');
    push_range(v, '\u{11D31}', '\u{11D36}');
    push_range(v, '\u{11D3A}', '\u{11D3A}');
    push_range(v, '\u{11D3C}', '\u{11D3D}');
    push_range(v, '\u{11D3F}', '\u{11D41}');
    assert(rview(v@) =~= o + other_alphabetic_chunk_27());
}

fn push_other_alphabetic_chunk_28(v: &mut Vec<ClassUnicodeRange>)
    ensures
        rview(final(v)@) == rview(old(v)@) + other_alphabetic_chunk_28(),
{
    let ghost o = rview(v@);
    push_range(v, '\u{11D43}', '\u{11D43}');
    push_range(v, '\u{11D47}', '\u{11D47}');
    push_range(v, '\u{11D8A}', '\u{11D8E}');
    push_range(v, '\u{11D90}', '\u{11D91}');
    push_range(v, '\u{11D93}', '\u{11D96}');
    push_range(v, '\u{11EF3}', '\u{11EF6}');
    push_range(v, '\u{11F00}', '\u{11F01}');
    push_range(v, '\u{11F03}', '\u{11F03}');
    assert(rview(v@) =~= o + other_alphabetic_chunk_28());
}

fn push_other_alphabetic_chunk_29(v: &mut Vec<ClassUnicodeRange>)
    ensures
        rview(final(v)@) == rview(old(v)@) + other_alphabetic_chunk_29(),
{
    let ghost o = rview(v@);
    push_range(v, '\u{11F34}', '\u{11F3A}');
    push_range(v, '\u{11F3E}', '\u{11F40}');
    push_range(v, '\u{1611E}', '\u{1612E}');
    push_range(v, '\u{16F4F}', '\u{16F4F}');
    push_range(v, '\u{16F51}', '\u{16F87}');
    push_range(v, '\u{16F8F}', '\u{16F92}');
    push_range(v, '\u{16FF0}', '\u{16FF1}');
    push_range(v, '\u{1BC9E}', '\u{1BC9E}');
    assert(rview(v@) =~= o + other_alphabetic_chunk_29());
}

fn push_other_alphabetic_chunk_30(v: &mut Vec<ClassUnicodeRange>)
    ensures
        rview(final(v)@) == rview(old(v)@) + other_alphabetic_chunk_30(),
{
    let ghost o = rview(v@);
    push_range(v, '\u{1E000}', '\u{1E006}');
    push_range(v, '\u{1E008}', '\u{1E018}');
    push_range(v, '\u{1E01B}', '\u{1E021}');
    push_range(v, '\u{1E023}', '\u{1E024}');
    push_range(v, '\u{1E026}', '\u{1E02A}');
    push_range(v, '\u{1E08F}', '\u{1E08F}');
    push_range(v, '\u{1E947}', '\u{1E947}');
    push_range(v, '\u{1F130}', '\u{1F149}');
    assert(rview(v@) =~= o + other_alphabetic_chunk_30());
}

fn push_other_alphabetic_chunk_31(v: &mut Vec<ClassUnicodeRange>)
    ensures
        rview(final(v)@) == rview(old(v)@) + other_alphabetic_chunk_31(),
{
    let ghost o = rview(v@);
    push_range(v, '\u{1F150}', '\u{1F169}');
    push_range(v, '\u{1F170}', '\u{1F189}');
    assert(rview(v@) =~= o + other_alphabetic_chunk_31());
}

fn push_other_alphabetic_block_0(v: &mut Vec<ClassUnicodeRange>)
    ensures
        rview(final(v)@) == rview(old(v)@) + other_alphabetic_block_0(),
{
    let ghost o = rview(v@);
    push_other_alphabetic_chunk_0(v);
    assert(rview(v@) =~= o + (other_alphabetic_chunk_0()));
    push_other_alphabetic_chunk_1(v);
    assert(rview(v@) =~= o + (other_alphabetic_chunk_0() + other_alphabetic_chunk_1()));
    push_other_alphabetic_chunk_2(v);
    assert(rview(v@) =~= o + (other_alphabetic_chunk_0() + other_alphabetic_chunk_1() + other_alphabetic_chunk_2()));
    push_other_alphabetic_chunk_3(v);
    assert(rview(v@) =~= o + (other_alphabetic_chunk_0() + other_alphabetic_chunk_1() + other_alphabetic_chunk_2() + other_alphabetic_chunk_3()));
    push_other_alphabetic_chunk_4(v);
    assert(rview(v@) =~= o + (other_alphabetic_chunk_0() + other_alphabetic_chunk_1() + other_alphabetic_chunk_2() + other_alphabetic_chunk_3() + other_alphabetic_chunk_4()));
    push_other_alphabetic_chunk_5(v);
    assert(rview(v@) =~= o + (other_alphabetic_chunk_0() + other_alphabetic_chunk_1() + other_alphabetic_chunk_2() + other_alphabetic_chunk_3() + other_alphabetic_chunk_4() + other_alphabetic_chunk_5()));
    push_other_alphabetic_chunk_6(v);
    assert(rview(v@) =~= o + (other_alphabetic_chunk_0() + other_alphabetic_chunk_1() + other_alphabetic_chunk_2() + other_alphabetic_chunk_3() + other_alphabetic_chunk_4() + other_alphabetic_chunk_5() + other_alphabetic_chunk_6()));
    push_other_alphabetic_chunk_7(v);
    assert(rview(v@) =~= o + (other_alphabetic_chunk_0() + other_alphabetic_chunk_1() + other_alphabetic_chunk_2() + other_alphabetic_chunk_3() + other_alphabetic_chunk_4() + other_alphabetic_chunk_5() + other_alphabetic_chunk_6() + other_alphabetic_chunk_7()));
    push_other_alphabetic_chunk_8(v);
    assert(rview(v@) =~= o + (other_alphabetic_chunk_0() + other_alphabetic_chunk_1() + other_alphabetic_chunk_2() + other_alphabetic_chunk_3() + other_alphabetic_chunk_4() + other_alphabetic_chunk_5() + other_alphabetic_chunk_6() + other_alphabetic_chunk_7() + other_alphabetic_chunk_8()));
    push_other_alphabetic_chunk_9(v);
    assert(rview(v@) =~= o + (other_alphabetic_chunk_0() + other_alphabetic_chunk_1() + other_alphabetic_chunk_2() + other_alphabetic_chunk_3() + other_alphabetic_chunk_4() + other_alphabetic_chunk_5() + other_alphabetic_chunk_6() + other_alphabetic_chunk_7() + other_alphabetic_chunk_8() + other_alphabetic_chunk_9()));
}

fn push_other_alphabetic_block_1(v: &mut Vec<ClassUnicodeRange>)
    ensures
        rview(final(v)@) == rview(old(v)@) + other_alphabetic_block_1(),
{
    let ghost o = rview(v@);
    push_other_alphabetic_chunk_10(v);
    assert(rview(v@) =~= o + (other_alphabetic_chunk_10()));
    push_other_alphabetic_chunk_11(v);
    assert(rview(v@) =~= o + (other_alphabetic_chunk_10() + other_alphabetic_chunk_11()));
    push_other_alphabetic_chunk_12(v);
    assert(rview(v@) =~= o + (other_alphabetic_chunk_10() + other_alphabetic_chunk_11() + other_alphabetic_chunk_12()));
    push_other_alphabetic_chunk_13(v);
    assert(rview(v@) =~= o + (other_alphabetic_chunk_10() + other_alphabetic_chunk_11() + other_alphabetic_chunk_12() + other_alphabetic_chunk_13()));
    push_other_alphabetic_chunk_14(v);
    assert(rview(v@) =~= o + (other_alphabetic_chunk_10() + other_alphabetic_chunk_11() + other_alphabetic_chunk_12() + other_alphabetic_chunk_13() + other_alphabetic_chunk_14()));
    push_other_alphabetic_chunk_15(v);
    assert(rview(v@) =~= o + (other_alphabetic_chunk_10() + other_alphabetic_chunk_11() + other_alphabetic_chunk_12() + other_alphabetic_chunk_13() + other_alphabetic_chunk_14() + other_alphabetic_chunk_15()));
    push_other_alphabetic_chunk_16(v);
    assert(rview(v@) =~= o + (other_alphabetic_chunk_10() + other_alphabetic_chunk_11() + other_alphabetic_chunk_12() + other_alphabetic_chunk_13() + other_alphabetic_chunk_14() + other_alphabetic_chunk_15() + other_alphabetic_chunk_16()));
    push_other_alphabetic_chunk_17(v);
    assert(rview(v@) =~= o + (other_alphabetic_chunk_10() + other_alphabetic_chunk_11() + other_alphabetic_chunk_12() + other_alphabetic_chunk_13() + other_alphabetic_chunk_14() + other_alphabetic_chunk_15() + other_alphabetic_chunk_16() + other_alphabetic_chunk_17()));
    push_other_alphabetic_chunk_18(v);
    assert(rview(v@) =~= o + (other_alphabetic_chunk_10() + other_alphabetic_chunk_11() + other_alphabetic_chunk_12() + other_alphabetic_chunk_13() + other_alphabetic_chunk_14() + other_alphabetic_chunk_15() + other_alphabetic_chunk_16() + other_alphabetic_chunk_17() + other_alphabetic_chunk_18()));
    push_other_alphabetic_chunk_19(v);
    assert(rview(v@) =~= o + (other_alphabetic_chunk_10() + other_alphabetic_chunk_11() + other_alphabetic_chunk_12() + other_alphabetic_chunk_13() + other_alphabetic_chunk_14() + other_alphabetic_chunk_15() + other_alphabetic_chunk_16() + other_alphabetic_chunk_17() + other_alphabetic_chunk_18() + other_alphabetic_chunk_19()));
}

fn push_other_alphabetic_block_2(v: &mut Vec<ClassUnicodeRange>)
    ensures
        rview(final(v)@) == rview(old(v)@) + other_alphabetic_block_2(),
{
    let ghost o = rview(v@);
    push_other_alphabetic_chunk_20(v);
    assert(rview(v@) =~= o + (other_alphabetic_chunk_20()));
    push_other_alphabetic_chunk_21(v);
    assert(rview(v@) =~= o + (other_alphabetic_chunk_20() + other_alphabetic_chunk_21()));
    push_other_alphabetic_chunk_22(v);
    assert(rview(v@) =~= o + (other_alphabetic_chunk_20() + other_alphabetic_chunk_21() + other_alphabetic_chunk_22()));
    push_other_alphabetic_chunk_23(v);
    assert(rview(v@) =~= o + (other_alphabetic_chunk_20() + other_alphabetic_chunk_21() + other_alphabetic_chunk_22() + other_alphabetic_chunk_23()));
    push_other_alphabetic_chunk_24(v);
    assert(rview(v@) =~= o + (other_alphabetic_chunk_20() + other_alphabetic_chunk_21() + other_alphabetic_chunk_22() + other_alphabetic_chunk_23() + other_alphabetic_chunk_24()));
    push_other_alphabetic_chunk_25(v);
    assert(rview(v@) =~= o + (other_alphabetic_chunk_20() + other_alphabetic_chunk_21() + other_alphabetic_chunk_22() + other_alphabetic_chunk_23() + other_alphabetic_chunk_24() + other_alphabetic_chunk_25()));
    push_other_alphabetic_chunk_26(v);
    assert(rview(v@) =~= o + (other_alphabetic_chunk_20() + other_alphabetic_chunk_21() + other_alphabetic_chunk_22() + other_alphabetic_chunk_23() + other_alphabetic_chunk_24() + other_alphabetic_chunk_25() + other_alphabetic_chunk_26()));
    push_other_alphabetic_chunk_27(v);
    assert(rview(v@) =~= o + (other_alphabetic_chunk_20() + other_alphabetic_chunk_21() + other_alphabetic_chunk_22() + other_alphabetic_chunk_23() + other_alphabetic_chunk_24() + other_alphabetic_chunk_25() + other_alphabetic_chunk_26() + other_alphabetic_chunk_27()));
    push_other_alphabetic_chunk_28(v);
    assert(rview(v@) =~= o + (other_alphabetic_chunk_20() + other_alphabetic_chunk_21() + other_alphabetic_chunk_22() + other_alphabetic_chunk_23() + other_alphabetic_chunk_24() + other_alphabetic_chunk_25() + other_alphabetic_chunk_26() + other_alphabetic_chunk_27() + other_alphabetic_chunk_28()));
    push_other_alphabetic_chunk_29(v);
    assert(rview(v@) =~= o + (other_alphabetic_chunk_20() + other_alphabetic_chunk_21() + other_alphabetic_chunk_22() + other_alphabetic_chunk_23() + other_alphabetic_chunk_24() + other_alphabetic_chunk_25() + other_alphabetic_chunk_26() + other_alphabetic_chunk_27() + other_alphabetic_chunk_28() + other_alphabetic_chunk_29()));
}

fn push_other_alphabetic_block_3(v: &mut Vec<ClassUnicodeRange>)
    ensures
        rview(final(v)@) == rview(old(v)@) + other_alphabetic_block_3(),
{
    let ghost o = rview(v@);
    push_other_alphabetic_chunk_30(v);
    assert(rview(v@) =~= o + (other_alphabetic_chunk_30()));
    push_other_alphabetic_chunk_31(v);
    assert(rview(v@) =~= o + (other_alphabetic_chunk_30() + other_alphabetic_chunk_31()));
}

pub fn other_alphabetic_class() -> (v: Vec<ClassUnicodeRange>)
    ensures
        rview(v@) == other_alphabetic_ranges(),
{
    let mut v: Vec<ClassUnicodeRange> = Vec::new();
    assert(rview(v@) =~= Seq::<SRange>::empty());
    push_other_alphabetic_block_0(&mut v);
    assert(rview(v@) =~= other_alphabetic_block_0());
    push_other_alphabetic_block_1(&mut v);
    assert(rview(v@) =~= other_alphabetic_block_0() + other_alphabetic_block_1());
    push_other_alphabetic_block_2(&mut v);
    assert(rview(v@) =~= other_alphabetic_block_0() + other_alphabetic_block_1() + other_alphabetic_block_2());
    push_other_alphabetic_block_3(&mut v);
    assert(rview(v@) =~= other_alphabetic_block_0() + other_alphabetic_block_1() + other_alphabetic_block_2() + other_alphabetic_block_3());
    v
}

pub open spec fn other_default_ignorable_code_point_chunk_0() -> Seq<SRange> {
    seq![(0x34Fint, 0x34Fint), (0x115Fint, 0x1160int), (0x17B4int, 0x17B5int), (0x2065int, 0x2065int), (0x3164int, 0x3164int), (0xFFA0int, 0xFFA0int), (0xFFF0int, 0xFFF8int), (0xE0000int, 0xE0000int)]
}

pub open spec fn other_default_ignorable_code_point_chunk_1() -> Seq<SRange> {
    seq![(0xE0002int, 0xE001Fint), (0xE0080int, 0xE00FFint), (0xE01F0int, 0xE0FFFint)]
}

/// The ranges of the property Other_Default_Ignorable_Code_Point.
pub open spec fn other_default_ignorable_code_point_ranges() -> Seq<SRange> {
    other_default_ignorable_code_point_chunk_0() + other_default_ignorable_code_point_chunk_1()
}

pub proof fn lemma_other_default_ignorable_code_point_canonical()
    ensures
        canonical(other_default_ignorable_code_point_ranges()),
{
    reveal_with_fuel(canonical, 9);
    assert(canonical(other_default_ignorable_code_point_chunk_0()));
    assert(canonical(other_default_ignorable_code_point_chunk_1()));
    lemma_canonical_append(other_default_ignorable_code_point_chunk_0(), other_default_ignorable_code_point_chunk_1());
}

fn push_other_default_ignorable_code_point_chunk_0(v: &mut Vec<ClassUnicodeRange>)
    ensures
        rview(final(v)@) == rview(old(v)@) + other_default_ignorable_code_point_chunk_0(),
{
    let ghost o = rview(v@);
    push_range(v, '\u{34F}', '\u{34F}');
    push_range(v, '\u{115F}', '\u{1160}');
    push_range(v, '\u{17B4}', '\u{17B5}');
    push_range(v, '\u{2065}', '\u{2065}');
    push_range(v, '\u{3164}', '\u{3164}');
    push_range(v, '\u{FFA0}', '\u{FFA0}');
    push_range(v, '\u{FFF0}', '\u{FFF8}');
    push_range(v, '\u{E0000}', '\u{E0000}');
    assert(rview(v@) =~= o + other_default_ignorable_code_point_chunk_0());
}

fn push_other_default_ignorable_code_point_chunk_1(v: &mut Vec<ClassUnicodeRange>)
    ensures
        rview(final(v)@) == rview(old(v)@) + other_default_ignorable_code_point_chunk_1(),
{
    let ghost o = rview(v@);
    push_range(v, '\u{E0002}', '\u{E001F}');
    push_range(v, '\u{E0080}', '\u{E00FF}');
    push_range(v, '\u{E01F0}', '\u{E0FFF}');
    assert(rview(v@) =~= o + other_default_ignorable_code_point_chunk_1());
}

pub fn other_default_ignorable_code_point_class() -> (v: Vec<ClassUnicodeRange>)
    ensures
        rview(v@) == other_default_ignorable_code_point_ranges(),
{
    let mut v: Vec<ClassUnicodeRange> = Vec::new();
    assert(rview(v@) =~= Seq::<SRange>::empty());
    push_other_default_ignorable_code_point_chunk_0(&mut v);
    assert(rview(v@) =~= other_default_ignorable_code_point_chunk_0());
    push_other_default_ignorable_code_point_chunk_1(&mut v);
    assert(rview(v@) =~= other_default_ignorable_code_point_chunk_0() + other_default_ignorable_code_point_chunk_1());
    v
}

pub open spec fn other_grapheme_extend_chunk_0() -> Seq<SRange> {
    seq![(0x9BEint, 0x9BEint), (0x9D7int, 0x9D7int), (0xB3Eint, 0xB3Eint), (0xB57int, 0xB57int), (0xBBEint, 0xBBEint), (0xBD7int, 0xBD7int), (0xCC0int, 0xCC0int), (0xCC2int, 0xCC2int)]
}

pub open spec fn other_grapheme_extend_chunk_1() -> Seq<SRange> {
    seq![(0xCC7int, 0xCC8int), (0xCCAint, 0xCCBint), (0xCD5int, 0xCD6int), (0xD3Eint, 0xD3Eint), (0xD57int, 0xD57int), (0xDCFint, 0xDCFint), (0xDDFint, 0xDDFint), (0x1715int, 0x1715int)]
}

pub open spec fn other_grapheme_extend_chunk_2() -> Seq<SRange> {
    seq![(0x1734int, 0x1734int), (0x1B35int, 0x1B35int), (0x1B3Bint, 0x1B3Bint), (0x1B3Dint, 0x1B3Dint), (0x1B43int, 0x1B44int), (0x1BAAint, 0x1BAAint), (0x1BF2int, 0x1BF3int), (0x200Cint, 0x200Cint)]
}

pub open spec fn other_grapheme_extend_chunk_3() -> Seq<SRange> {
    seq![(0x302Eint, 0x302Fint), (0xA953int, 0xA953int), (0xA9C0int, 0xA9C0int), (0xFF9Eint, 0xFF9Fint), (0x111C0int, 0x111C0int), (0x11235int, 0x11235int), (0x1133Eint, 0x1133Eint), (0x1134Dint, 0x1134Dint)]
}

pub open spec fn other_grapheme_extend_chunk_4() -> Seq<SRange> {
    seq![(0x11357int, 0x11357int), (0x113B8int, 0x113B8int), (0x113C2int, 0x113C2int), (0x113C5int, 0x113C5int), (0x113C7int, 0x113C9int), (0x113CFint, 0x113CFint), (0x114B0int, 0x114B0int), (0x114BDint, 0x114BDint)]
}

pub open spec fn other_grapheme_extend_chunk_5() -> Seq<SRange> {
    seq![(0x115AFint, 0x115AFint), (0x116B6int, 0x116B6int), (0x11930int, 0x11930int), (0x1193Dint, 0x1193Dint), (0x11F41int, 0x11F41int), (0x16FF0int, 0x16FF1int), (0x1D165int, 0x1D166int), (0x1D16Dint, 0x1D172int)]
}

pub open spec fn other_grapheme_extend_chunk_6() -> Seq<SRange> {
    seq![(0xE0020int, 0xE007Fint)]
}

/// The ranges of the property Other_Grapheme_Extend.
pub open spec fn other_grapheme_extend_ranges() -> Seq<SRange> {
    other_grapheme_extend_chunk_0() + other_grapheme_extend_chunk_1() + other_grapheme_extend_chunk_2() + other_grapheme_extend_chunk_3() + other_grapheme_extend_chunk_4() + other_grapheme_extend_chunk_5() + other_grapheme_extend_chunk_6()
}

pub proof fn lemma_other_grapheme_extend_canonical()
    ensures
        canonical(other_grapheme_extend_ranges()),
{
    reveal_with_fuel(canonical, 9);
    assert(canonical(other_grapheme_extend_chunk_0()));
    assert(canonical(other_grapheme_extend_chunk_1()));
    assert(canonical(other_grapheme_extend_chunk_2()));
    assert(canonical(other_grapheme_extend_chunk_3()));
    assert(canonical(other_grapheme_extend_chunk_4()));
    assert(canonical(other_grapheme_extend_chunk_5()));
    assert(canonical(other_grapheme_extend_chunk_6()));
    lemma_canonical_append(other_grapheme_extend_chunk_0(), other_grapheme_extend_chunk_1());
    lemma_canonical_append(other_grapheme_extend_chunk_0() + other_grapheme_extend_chunk_1(), other_grapheme_extend_chunk_2());
    lemma_canonical_append(other_grapheme_extend_chunk_0() + other_grapheme_extend_chunk_1() + other_grapheme_extend_chunk_2(), other_grapheme_extend_chunk_3());
    lemma_canonical_append(other_grapheme_extend_chunk_0() + other_grapheme_extend_chunk_1() + other_grapheme_extend_chunk_2() + other_grapheme_extend_chunk_3(), other_grapheme_extend_chunk_4());
    lemma_canonical_append(other_grapheme_extend_chunk_0() + other_grapheme_extend_chunk_1() + other_grapheme_extend_chunk_2() + other_grapheme_extend_chunk_3() + other_grapheme_extend_chunk_4(), other_grapheme_extend_chunk_5());
    lemma_canonical_append(other_grapheme_extend_chunk_0() + other_grapheme_extend_chunk_1() + other_grapheme_extend_chunk_2() + other_grapheme_extend_chunk_3() + other_grapheme_extend_chunk_4() + other_grapheme_extend_chunk_5(), other_grapheme_extend_chunk_6());
}

fn push_other_grapheme_extend_chunk_0(v: &mut Vec<ClassUnicodeRange>)
    ensures
        rview(final(v)@) == rview(old(v)@) + other_grapheme_extend_chunk_0(),
{
    let ghost o = rview(v@);
    push_range(v, '\u{9BE}', '\u{9BE}');
    push_range(v, '\u{9D7}', '\u{9D7}');
    push_range(v, '\u{B3E}', '\u{B3E}');
    push_range(v, '\u{B57}', '\u{B57}');
    push_range(v, '\u{BBE}', '\u{BBE}');
    push_range(v, '\u{BD7}', '\u{BD7}');
    push_range(v, '\u{CC0}', '\u{CC0}');
    push_range(v, '\u{CC2}', '\u{CC2}');
    assert(rview(v@) =~= o + other_grapheme_extend_chunk_0());
}

fn push_other_grapheme_extend_chunk_1(v: &mut Vec<ClassUnicodeRange>)
    ensures
        rview(final(v)@) == rview(old(v)@) + other_grapheme_extend_chunk_1(),
{
    let ghost o = rview(v@);
    push_range(v, '\u{CC7}', '\u{CC8}');
    push_range(v, '\u{CCA}', '\u{CCB}');
    push_range(v, '\u{CD5}', '\u{CD6}');
    push_range(v, '\u{D3E}', '\u{D3E}');
    push_range(v, '\u{D57}', '\u{D57}');
    push_range(v, '\u{DCF}', '\u{DCF}');
    push_range(v, '\u{DDF}', '\u{DDF}');
    push_range(v, '\u{1715}', '\u{1715}');
    assert(rview(v@) =~= o + other_grapheme_extend_chunk_1());
}

fn push_other_grapheme_extend_chunk_2(v: &mut Vec<ClassUnicodeRange>)
    ensures
        rview(final(v)@) == rview(old(v)@) + other_grapheme_extend_chunk_2(),
{
    let ghost o = rview(v@);
    push_range(v, '\u{1734}', '\u{1734}');
    push_range(v, '\u{1B35}', '\u{1B35}');
    push_range(v, '\u{1B3B}', '\u{1B3B}');
    push_range(v, '\u{1B3D}', '\u{1B3D}');
    push_range(v, '\u{1B43}', '\u{1B44}');
    push_range(v, '\u{1BAA}', '\u{1BAA}');
    push_range(v, '\u{1BF2}', '\u{1BF3}');
    push_range(v, '\u{200C}', '\u{200C}');
    assert(rview(v@) =~= o + other_grapheme_extend_chunk_2());
}

fn push_other_grapheme_extend_chunk_3(v: &mut Vec<ClassUnicodeRange>)
    ensures
        rview(final(v)@) == rview(old(v)@) + other_grapheme_extend_chunk_3(),
{
    let ghost o = rview(v@);
    push_range(v, '\u{302E}', '\u{302F}');
    push_range(v, '\u{A953}', '\u{A953}');
    push_range(v, '\u{A9C0}', '\u{A9C0}');
    push_range(v, '\u{FF9E}', '\u{FF9F}');
    push_range(v, '\u{111C0}', '\u{111C0}');
    push_range(v, '\u{11235}', '\u{11235}');
    push_range(v, '\u{1133E}', '\u{1133E}');
    push_range(v, '\u{1134D}', '\u{1134D}');
    assert(rview(v@) =~= o + other_grapheme_extend_chunk_3());
}

fn push_other_grapheme_extend_chunk_4(v: &mut Vec<ClassUnicodeRange>)
    ensures
        rview(final(v)@) == rview(old(v)@) + other_grapheme_extend_chunk_4(),
{
    let ghost o = rview(v@);
    push_range(v, '\u{11357}', '\u{11357}');
    push_range(v, '\u{113B8}', '\u{113B8}');
    push_range(v, '\u{113C2}', '\u{113C2}');
    push_range(v, '\u{113C5}', '\u{113C5}');
    push_range(v, '\u{113C7}', '\u{113C9}');
    push_range(v, '\u{113CF}', '\u{113CF}');
    push_range(v, '\u{114B0}', '\u{114B0}');
    push_range(v, '\u{114BD}', '\u{114BD}');
    assert(rview(v@) =~= o + other_grapheme_extend_chunk_4());
}

fn push_other_grapheme_extend_chunk_5(v: &mut Vec<ClassUnicodeRange>)
    ensures
        rview(final(v)@) == rview(old(v)@) + other_grapheme_extend_chunk_5(),
{
    let ghost o = rview(v@);
    push_range(v, '\u{115AF}', '\u{115AF}');
    push_range(v, '\u{116B6}', '\u{116B6}');
    push_range(v, '\u{11930}', '\u{11930}');
    push_range(v, '\u{1193D}', '\u{1193D}');
    push_range(v, '\u{11F41}', '\u{11F41}');
    push_range(v, '\u{16FF0}', '\u{16FF1}');
    push_range(v, '\u{1D165}', '\u{1D166}');
    push_range(v, '\u{1D16D}', '\u{1D172}');
    assert(rview(v@) =~= o + other_grapheme_extend_chunk_5());
}

fn push_other_grapheme_extend_chunk_6(v: &mut Vec<ClassUnicodeRange>)
    ensures
        rview(final(v)@) == rview(old(v)@) + other_grapheme_extend_chunk_6(),
{
    let ghost o = rview(v@);
    push_range(v, '\u{E0020}', '\u{E007F}');
    assert(rview(v@) =~= o + other_grapheme_extend_chunk_6());
}

pub fn other_grapheme_extend_class() -> (v: Vec<ClassUnicodeRange>)
    ensures
        rview(v@) == other_grapheme_extend_ranges(),
{
    let mut v: Vec<ClassUnicodeRange> = Vec::new();
    assert(rview(v@) =~= Seq::<SRange>::empty());
    push_other_grapheme_extend_chunk_0(&mut v);
    assert(rview(v@) =~= other_grapheme_extend_chunk_0());
    push_other_grapheme_extend_chunk_1(&mut v);
    assert(rview(v@) =~= other_grapheme_extend_chunk_0() + other_grapheme_extend_chunk_1());
    push_other_grapheme_extend_chunk_2(&mut v);
    assert(rview(v@) =~= other_grapheme_extend_chunk_0() + other_grapheme_extend_chunk_1() + other_grapheme_extend_chunk_2());
    push_other_grapheme_extend_chunk_3(&mut v);
    assert(rview(v@) =~= other_grapheme_extend_chunk_0() + other_grapheme_extend_chunk_1() + other_grapheme_extend_chunk_2() + other_grapheme_extend_chunk_3());
    push_other_grapheme_extend_chunk_4(&mut v);
    assert(rview(v@) =~= other_grapheme_extend_chunk_0() + other_grapheme_extend_chunk_1() + other_grapheme_extend_chunk_2() + other_grapheme_extend_chunk_3() + other_grapheme_extend_chunk_4());
    push_other_grapheme_extend_chunk_5(&mut v);
    assert(rview(v@) =~= other_grapheme_extend_chunk_0() + other_grapheme_extend_chunk_1() + other_grapheme_extend_chunk_2() + other_grapheme_extend_chunk_3() + other_grapheme_extend_chunk_4() + other_grapheme_extend_chunk_5());
    push_other_grapheme_extend_chunk_6(&mut v);
    assert(rview(v@) =~= other_grapheme_extend_chunk_0() + other_grapheme_extend_chunk_1() + other_grapheme_extend_chunk_2() + other_grapheme_extend_chunk_3() + other_grapheme_extend_chunk_4() + other_grapheme_extend_chunk_5() + other_grapheme_extend_chunk_6());
    v
}

pub open spec fn other_id_continue_chunk_0() -> Seq<SRange> {
    seq![(0xB7int, 0xB7int), (0x387int, 0x387int), (0x1369int, 0x1371int), (0x19DAint, 0x19DAint), (0x200Cint, 0x200Dint), (0x30FBint, 0x30FBint), (0xFF65int, 0xFF65int)]
}

/// The ranges of the property Other_ID_Continue.
pub open spec fn other_id_continue_ranges() -> Seq<SRange> {
    other_id_continue_chunk_0()
}

pub proof fn lemma_other_id_continue_canonical()
    ensures
        canonical(other_id_continue_ranges()),
{
    reveal_with_fuel(canonical, 9);
    assert(canonical(other_id_continue_chunk_0()));
}

fn push_other_id_continue_chunk_0(v: &mut Vec<ClassUnicodeRange>)
    ensures
        rview(final(v)@) == rview(old(v)@) + other_id_continue_chunk_0(),
{
    let ghost o = rview(v@);
    push_range(v, '\u{B7}', '\u{B7}');
    push_range(v, '\u{387}', '\u{387}');
    push_range(v, '\u{1369}', '\u{1371}');
    push_range(v, '\u{19DA}', '\u{19DA}');
    push_range(v, '\u{200C}', '\u{200D}');
    push_range(v, '\u{30FB}', '\u{30FB}');
    push_range(v, '\u{FF65}', '\u{FF65}');
    assert(rview(v@) =~= o + other_id_continue_chunk_0());
}

pub fn other_id_continue_class() -> (v: Vec<ClassUnicodeRange>)
    ensures
        rview(v@) == other_id_continue_ranges(),
{
    let mut v: Vec<ClassUnicodeRange> = Vec::new();
    assert(rview(v@) =~= Seq::<SRange>::empty());
    push_other_id_continue_chunk_0(&mut v);
    assert(rview(v@) =~= other_id_continue_chunk_0());
    v
}

pub open spec fn other_id_start_chunk_0() -> Seq<SRange> {
    seq![(0x1885int, 0x1886int), (0x2118int, 0x2118int), (0x212Eint, 0x212Eint), (0x309Bint, 0x309Cint)]
}

/// The ranges of the property Other_ID_Start.
pub open spec fn other_id_start_ranges() -> Seq<SRange> {
    other_id_start_chunk_0()
}

pub proof fn lemma_other_id_start_canonical()
    ensures
        canonical(other_id_start_ranges()),
{
    reveal_with_fuel(canonical, 9);
    assert(canonical(other_id_start_chunk_0()));
}

fn push_other_id_start_chunk_0(v: &mut Vec<ClassUnicodeRange>)
    ensures
        rview(final(v)@) == rview(old(v)@) + other_id_start_chunk_0(),
{
    let ghost o = rview(v@);
    push_range(v, '\u{1885}', '\u{1886}');
    push_range(v, '\u{2118}', '\u{2118}');
    push_range(v, '\u{212E}', '\u{212E}');
    push_range(v, '\u{309B}', '\u{309C}');
    assert(rview(v@) =~= o + other_id_start_chunk_0());
}

pub fn other_id_start_class() -> (v: Vec<ClassUnicodeRange>)
    ensures
        rview(v@) == other_id_start_ranges(),
{
    let mut v: Vec<ClassUnicodeRange> = Vec::new();
    assert(rview(v@) =~= Seq::<SRange>::empty());
    push_other_id_start_chunk_0(&mut v);
    assert(rview(v@) =~= other_id_start_chunk_0());
    v
}

pub open spec fn other_lowercase_chunk_0() -> Seq<SRange> {
    seq![(0xAAint, 0xAAint), (0xBAint, 0xBAint), (0x2B0int, 0x2B8int), (0x2C0int, 0x2C1int), (0x2E0int, 0x2E4int), (0x345int, 0x345int), (0x37Aint, 0x37Aint), (0x10FCint, 0x10FCint)]
}

pub open spec fn other_lowercase_chunk_1() -> Seq<SRange> {
    seq![(0x1D2Cint, 0x1D6Aint), (0x1D78int, 0x1D78int), (0x1D9Bint, 0x1DBFint), (0x2071int, 0x2071int), (0x207Fint, 0x207Fint), (0x2090int, 0x209Cint), (0x2170int, 0x217Fint), (0x24D0int, 0x24E9int)]
}

pub open spec fn other_lowercase_chunk_2() -> Seq<SRange> {
    seq![(0x2C7Cint, 0x2C7Dint), (0xA69Cint, 0xA69Dint), (0xA770int, 0xA770int), (0xA7F2int, 0xA7F4int), (0xA7F8int, 0xA7F9int), (0xAB5Cint, 0xAB5Fint), (0xAB69int, 0xAB69int), (0x10780int, 0x10780int)]
}

pub open spec fn other_lowercase_chunk_3() -> Seq<SRange> {
    seq![(0x10783int, 0x10785int), (0x10787int, 0x107B0int), (0x107B2int, 0x107BAint), (0x1E030int, 0x1E06Dint)]
}

/// The ranges of the property Other_Lowercase.
pub open spec fn other_lowercase_ranges() -> Seq<SRange> {
    other_lowercase_chunk_0() + other_lowercase_chunk_1() + other_lowercase_chunk_2() + other_lowercase_chunk_3()
}

pub proof fn lemma_other_lowercase_canonical()
    ensures
        canonical(other_lowercase_ranges()),
{
    reveal_with_fuel(canonical, 9);
    assert(canonical(other_lowercase_chunk_0()));
    assert(canonical(other_lowercase_chunk_1()));
    assert(canonical(other_lowercase_chunk_2()));
    assert(canonical(other_lowercase_chunk_3()));
    lemma_canonical_append(other_lowercase_chunk_0(), other_lowercase_chunk_1());
    lemma_canonical_append(other_lowercase_chunk_0() + other_lowercase_chunk_1(), other_lowercase_chunk_2());
    lemma_canonical_append(other_lowercase_chunk_0() + other_lowercase_chunk_1() + other_lowercase_chunk_2(), other_lowercase_chunk_3());
}

fn push_other_lowercase_chunk_0(v: &mut Vec<ClassUnicodeRange>)
    ensures
        rview(final(v)@) == rview(old(v)@) + other_lowercase_chunk_0(),
{
    let ghost o = rview(v@);
    push_range(v, '\u{AA}', '\u{AA}');
    push_range(v, '\u{BA}', '\u{BA}');
    push_range(v, '\u{2B0}', '\u{2B8}');
    push_range(v, '\u{2C0}', '\u{2C1}');
    push_range(v, '\u{2E0}', '\u{2E4}');
    push_range(v, '\u{345}', '\u{345}');
    push_range(v, '\u{37A}', '\u{37A}');
    push_range(v, '\u{10FC}', '\u{10FC}');
    assert(rview(v@) =~= o + other_lowercase_chunk_0());
}

fn push_other_lowercase_chunk_1(v: &mut Vec<ClassUnicodeRange>)
    ensures
        rview(final(v)@) == rview(old(v)@) + other_lowercase_chunk_1(),
{
    let ghost o = rview(v@);
    push_range(v, '\u{1D2C}', '\u{1D6A}');
    push_range(v, '\u{1D78}', '\u{1D78}');
    push_range(v, '\u{1D9B}', '\u{1DBF}');
    push_range(v, '\u{2071}', '\u{2071}');
    push_range(v, '\u{207F}', '\u{207F}');
    push_range(v, '\u{2090}', '\u{209C}');
    push_range(v, '\u{2170}', '\u{217F}');
    push_range(v, '\u{24D0}', '\u{24E9}');
    assert(rview(v@) =~= o + other_lowercase_chunk_1());
}

fn push_other_lowercase_chunk_2(v: &mut Vec<ClassUnicodeRange>)
    ensures
        rview(final(v)@) == rview(old(v)@) + other_lowercase_chunk_2(),
{
    let ghost o = rview(v@);
    push_range(v, '\u{2C7C}', '\u{2C7D}');
    push_range(v, '\u{A69C}', '\u{A69D}');
    push_range(v, '\u{A770}', '\u{A770}');
    push_range(v, '\u{A7F2}', '\u{A7F4}');
    push_range(v, '\u{A7F8}', '\u{A7F9}');
    push_range(v, '\u{AB5C}', '\u{AB5F}');
    push_range(v, '\u{AB69}', '\u{AB69}');
    push_range(v, '\u{10780}', '\u{10780}');
    assert(rview(v@) =~= o + other_lowercase_chunk_2());
}

fn push_other_lowercase_chunk_3(v: &mut Vec<ClassUnicodeRange>)
    ensures
        rview(final(v)@) == rview(old(v)@) + other_lowercase_chunk_3(),
{
    let ghost o = rview(v@);
    push_range(v, '\u{10783}', '\u{10785}');
    push_range(v, '\u{10787}', '\u{107B0}');
    push_range(v, '\u{107B2}', '\u{107BA}');
    push_range(v, '\u{1E030}', '\u{1E06D}');
    assert(rview(v@) =~= o + other_lowercase_chunk_3());
}

pub fn other_lowercase_class() -> (v: Vec<ClassUnicodeRange>)
    ensures
        rview(v@) == other_lowercase_ranges(),
{
    let mut v: Vec<ClassUnicodeRange> = Vec::new();
    assert(rview(v@) =~= Seq::<SRange>::empty());
    push_other_lowercase_chunk_0(&mut v);
    assert(rview(v@) =~= other_lowercase_chunk_0());
    push_other_lowercase_chunk_1(&mut v);
    assert(rview(v@) =~= other_lowercase_chunk_0() + other_lowercase_chunk_1());
    push_other_lowercase_chunk_2(&mut v);
    assert(rview(v@) =~= other_lowercase_chunk_0() + other_lowercase_chunk_1() + other_lowercase_chunk_2());
    push_other_lowercase_chunk_3(&mut v);
    assert(rview(v@) =~= other_lowercase_chunk_0() + other_lowercase_chunk_1() + other_lowercase_chunk_2() + other_lowercase_chunk_3());
    v
}

} // verus!
