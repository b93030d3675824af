//! The word characters of Unicode 16.0 (the class of `\\w`: alphabetic
//! characters, marks, decimal digits, connector punctuation and join
//! controls), as a canonical class.
use vstd::prelude::*;
use crate::ranges::{SRange, canonical, succ};
use crate::class::{ClassUnicodeRange, rview, lemma_rview_push};

verus! {

pub open spec fn word_chunk_0() -> Seq<SRange> {
    seq![(0x30int, 0x39int), (0x41int, 0x5Aint), (0x5Fint, 0x5Fint), (0x61int, 0x7Aint), (0xAAint, 0xAAint), (0xB5int, 0xB5int), (0xBAint, 0xBAint), (0xC0int, 0xD6int)]
}

pub open spec fn word_chunk_1() -> Seq<SRange> {
    seq![(0xD8int, 0xF6int), (0xF8int, 0x2C1int), (0x2C6int, 0x2D1int), (0x2E0int, 0x2E4int), (0x2ECint, 0x2ECint), (0x2EEint, 0x2EEint), (0x300int, 0x374int), (0x376int, 0x377int)]
}

pub open spec fn word_chunk_2() -> Seq<SRange> {
    seq![(0x37Aint, 0x37Dint), (0x37Fint, 0x37Fint), (0x386int, 0x386int), (0x388int, 0x38Aint), (0x38Cint, 0x38Cint), (0x38Eint, 0x3A1int), (0x3A3int, 0x3F5int), (0x3F7int, 0x481int)]
}

pub open spec fn word_chunk_3() -> Seq<SRange> {
    seq![(0x483int, 0x52Fint), (0x531int, 0x556int), (0x559int, 0x559int), (0x560int, 0x588int), (0x591int, 0x5BDint), (0x5BFint, 0x5BFint), (0x5C1int, 0x5C2int), (0x5C4int, 0x5C5int)]
}

pub open spec fn word_chunk_4() -> Seq<SRange> {
    seq![(0x5C7int, 0x5C7int), (0x5D0int, 0x5EAint), (0x5EFint, 0x5F2int), (0x610int, 0x61Aint), (0x620int, 0x669int), (0x66Eint, 0x6D3int), (0x6D5int, 0x6DCint), (0x6DFint, 0x6E8int)]
}

pub open spec fn word_chunk_5() -> Seq<SRange> {
    seq![(0x6EAint, 0x6FCint), (0x6FFint, 0x6FFint), (0x710int, 0x74Aint), (0x74Dint, 0x7B1int), (0x7C0int, 0x7F5int), (0x7FAint, 0x7FAint), (0x7FDint, 0x7FDint), (0x800int, 0x82Dint)]
}

pub open spec fn word_chunk_6() -> Seq<SRange> {
    seq![(0x840int, 0x85Bint), (0x860int, 0x86Aint), (0x870int, 0x887int), (0x889int, 0x88Eint), (0x897int, 0x8E1int), (0x8E3int, 0x963int), (0x966int, 0x96Fint), (0x971int, 0x983int)]
}

pub open spec fn word_chunk_7() -> Seq<SRange> {
    seq![(0x985int, 0x98Cint), (0x98Fint, 0x990int), (0x993int, 0x9A8int), (0x9AAint, 0x9B0int), (0x9B2int, 0x9B2int), (0x9B6int, 0x9B9int), (0x9BCint, 0x9C4int), (0x9C7int, 0x9C8int)]
}

pub open spec fn word_chunk_8() -> Seq<SRange> {
    seq![(0x9CBint, 0x9CEint), (0x9D7int, 0x9D7int), (0x9DCint, 0x9DDint), (0x9DFint, 0x9E3int), (0x9E6int, 0x9F1int), (0x9FCint, 0x9FCint), (0x9FEint, 0x9FEint), (0xA01int, 0xA03int)]
}

pub open spec fn word_chunk_9() -> Seq<SRange> {
    seq![(0xA05int, 0xA0Aint), (0xA0Fint, 0xA10int), (0xA13int, 0xA28int), (0xA2Aint, 0xA30int), (0xA32int, 0xA33int), (0xA35int, 0xA36int), (0xA38int, 0xA39int), (0xA3Cint, 0xA3Cint)]
}

pub open spec fn word_chunk_10() -> Seq<SRange> {
    seq![(0xA3Eint, 0xA42int), (0xA47int, 0xA48int), (0xA4Bint, 0xA4Dint), (0xA51int, 0xA51int), (0xA59int, 0xA5Cint), (0xA5Eint, 0xA5Eint), (0xA66int, 0xA75int), (0xA81int, 0xA83int)]
}

pub open spec fn word_chunk_11() -> Seq<SRange> {
    seq![(0xA85int, 0xA8Dint), (0xA8Fint, 0xA91int), (0xA93int, 0xAA8int), (0xAAAint, 0xAB0int), (0xAB2int, 0xAB3int), (0xAB5int, 0xAB9int), (0xABCint, 0xAC5int), (0xAC7int, 0xAC9int)]
}

pub open spec fn word_chunk_12() -> Seq<SRange> {
    seq![(0xACBint, 0xACDint), (0xAD0int, 0xAD0int), (0xAE0int, 0xAE3int), (0xAE6int, 0xAEFint), (0xAF9int, 0xAFFint), (0xB01int, 0xB03int), (0xB05int, 0xB0Cint), (0xB0Fint, 0xB10int)]
}

pub open spec fn word_chunk_13() -> Seq<SRange> {
    seq![(0xB13int, 0xB28int), (0xB2Aint, 0xB30int), (0xB32int, 0xB33int), (0xB35int, 0xB39int), (0xB3Cint, 0xB44int), (0xB47int, 0xB48int), (0xB4Bint, 0xB4Dint), (0xB55int, 0xB57int)]
}

pub open spec fn word_chunk_14() -> Seq<SRange> {
    seq![(0xB5Cint, 0xB5Dint), (0xB5Fint, 0xB63int), (0xB66int, 0xB6Fint), (0xB71int, 0xB71int), (0xB82int, 0xB83int), (0xB85int, 0xB8Aint), (0xB8Eint, 0xB90int), (0xB92int, 0xB95int)]
}

pub open spec fn word_chunk_15() -> Seq<SRange> {
    seq![(0xB99int, 0xB9Aint), (0xB9Cint, 0xB9Cint), (0xB9Eint, 0xB9Fint), (0xBA3int, 0xBA4int), (0xBA8int, 0xBAAint), (0xBAEint, 0xBB9int), (0xBBEint, 0xBC2int), (0xBC6int, 0xBC8int)]
}

pub open spec fn word_chunk_16() -> Seq<SRange> {
    seq![(0xBCAint, 0xBCDint), (0xBD0int, 0xBD0int), (0xBD7int, 0xBD7int), (0xBE6int, 0xBEFint), (0xC00int, 0xC0Cint), (0xC0Eint, 0xC10int), (0xC12int, 0xC28int), (0xC2Aint, 0xC39int)]
}

pub open spec fn word_chunk_17() -> Seq<SRange> {
    seq![(0xC3Cint, 0xC44int), (0xC46int, 0xC48int), (0xC4Aint, 0xC4Dint), (0xC55int, 0xC56int), (0xC58int, 0xC5Aint), (0xC5Dint, 0xC5Dint), (0xC60int, 0xC63int), (0xC66int, 0xC6Fint)]
}

pub open spec fn word_chunk_18() -> Seq<SRange> {
    seq![(0xC80int, 0xC83int), (0xC85int, 0xC8Cint), (0xC8Eint, 0xC90int), (0xC92int, 0xCA8int), (0xCAAint, 0xCB3int), (0xCB5int, 0xCB9int), (0xCBCint, 0xCC4int), (0xCC6int, 0xCC8int)]
}

pub open spec fn word_chunk_19() -> Seq<SRange> {
    seq![(0xCCAint, 0xCCDint), (0xCD5int, 0xCD6int), (0xCDDint, 0xCDEint), (0xCE0int, 0xCE3int), (0xCE6int, 0xCEFint), (0xCF1int, 0xCF3int), (0xD00int, 0xD0Cint), (0xD0Eint, 0xD10int)]
}

pub open spec fn word_chunk_20() -> Seq<SRange> {
    seq![(0xD12int, 0xD44int), (0xD46int, 0xD48int), (0xD4Aint, 0xD4Eint), (0xD54int, 0xD57int), (0xD5Fint, 0xD63int), (0xD66int, 0xD6Fint), (0xD7Aint, 0xD7Fint), (0xD81int, 0xD83int)]
}

pub open spec fn word_chunk_21() -> Seq<SRange> {
    seq![(0xD85int, 0xD96int), (0xD9Aint, 0xDB1int), (0xDB3int, 0xDBBint), (0xDBDint, 0xDBDint), (0xDC0int, 0xDC6int), (0xDCAint, 0xDCAint), (0xDCFint, 0xDD4int), (0xDD6int, 0xDD6int)]
}

pub open spec fn word_chunk_22() -> Seq<SRange> {
    seq![(0xDD8int, 0xDDFint), (0xDE6int, 0xDEFint), (0xDF2int, 0xDF3int), (0xE01int, 0xE3Aint), (0xE40int, 0xE4Eint), (0xE50int, 0xE59int), (0xE81int, 0xE82int), (0xE84int, 0xE84int)]
}

pub open spec fn word_chunk_23() -> Seq<SRange> {
    seq![(0xE86int, 0xE8Aint), (0xE8Cint, 0xEA3int), (0xEA5int, 0xEA5int), (0xEA7int, 0xEBDint), (0xEC0int, 0xEC4int), (0xEC6int, 0xEC6int), (0xEC8int, 0xECEint), (0xED0int, 0xED9int)]
}

pub open spec fn word_chunk_24() -> Seq<SRange> {
    seq![(0xEDCint, 0xEDFint), (0xF00int, 0xF00int), (0xF18int, 0xF19int), (0xF20int, 0xF29int), (0xF35int, 0xF35int), (0xF37int, 0xF37int), (0xF39int, 0xF39int), (0xF3Eint, 0xF47int)]
}

pub open spec fn word_chunk_25() -> Seq<SRange> {
    seq![(0xF49int, 0xF6Cint), (0xF71int, 0xF84int), (0xF86int, 0xF97int), (0xF99int, 0xFBCint), (0xFC6int, 0xFC6int), (0x1000int, 0x1049int), (0x1050int, 0x109Dint), (0x10A0int, 0x10C5int)]
}

pub open spec fn word_chunk_26() -> Seq<SRange> {
    seq![(0x10C7int, 0x10C7int), (0x10CDint, 0x10CDint), (0x10D0int, 0x10FAint), (0x10FCint, 0x1248int), (0x124Aint, 0x124Dint), (0x1250int, 0x1256int), (0x1258int, 0x1258int), (0x125Aint, 0x125Dint)]
}

pub open spec fn word_chunk_27() -> Seq<SRange> {
    seq![(0x1260int, 0x1288int), (0x128Aint, 0x128Dint), (0x1290int, 0x12B0int), (0x12B2int, 0x12B5int), (0x12B8int, 0x12BEint), (0x12C0int, 0x12C0int), (0x12C2int, 0x12C5int), (0x12C8int, 0x12D6int)]
}

pub open spec fn word_chunk_28() -> Seq<SRange> {
    seq![(0x12D8int, 0x1310int), (0x1312int, 0x1315int), (0x1318int, 0x135Aint), (0x135Dint, 0x135Fint), (0x1380int, 0x138Fint), (0x13A0int, 0x13F5int), (0x13F8int, 0x13FDint), (0x1401int, 0x166Cint)]
}

pub open spec fn word_chunk_29() -> Seq<SRange> {
    seq![(0x166Fint, 0x167Fint), (0x1681int, 0x169Aint), (0x16A0int, 0x16EAint), (0x16EEint, 0x16F8int), (0x1700int, 0x1715int), (0x171Fint, 0x1734int), (0x1740int, 0x1753int), (0x1760int, 0x176Cint)]
}

pub open spec fn word_chunk_30() -> Seq<SRange> {
    seq![(0x176Eint, 0x1770int), (0x1772int, 0x1773int), (0x1780int, 0x17D3int), (0x17D7int, 0x17D7int), (0x17DCint, 0x17DDint), (0x17E0int, 0x17E9int), (0x180Bint, 0x180Dint), (0x180Fint, 0x1819int)]
}

pub open spec fn word_chunk_31() -> Seq<SRange> {
    seq![(0x1820int, 0x1878int), (0x1880int, 0x18AAint), (0x18B0int, 0x18F5int), (0x1900int, 0x191Eint), (0x1920int, 0x192Bint), (0x1930int, 0x193Bint), (0x1946int, 0x196Dint), (0x1970int, 0x1974int)]
}

pub open spec fn word_chunk_32() -> Seq<SRange> {
    seq![(0x1980int, 0x19ABint), (0x19B0int, 0x19C9int), (0x19D0int, 0x19D9int), (0x1A00int, 0x1A1Bint), (0x1A20int, 0x1A5Eint), (0x1A60int, 0x1A7Cint), (0x1A7Fint, 0x1A89int), (0x1A90int, 0x1A99int)]
}

pub open spec fn word_chunk_33() -> Seq<SRange> {
    seq![(0x1AA7int, 0x1AA7int), (0x1AB0int, 0x1ACEint), (0x1B00int, 0x1B4Cint), (0x1B50int, 0x1B59int), (0x1B6Bint, 0x1B73int), (0x1B80int, 0x1BF3int), (0x1C00int, 0x1C37int), (0x1C40int, 0x1C49int)]
}

pub open spec fn word_chunk_34() -> Seq<SRange> {
    seq![(0x1C4Dint, 0x1C7Dint), (0x1C80int, 0x1C8Aint), (0x1C90int, 0x1CBAint), (0x1CBDint, 0x1CBFint), (0x1CD0int, 0x1CD2int), (0x1CD4int, 0x1CFAint), (0x1D00int, 0x1F15int), (0x1F18int, 0x1F1Dint)]
}

pub open spec fn word_chunk_35() -> Seq<SRange> {
    seq![(0x1F20int, 0x1F45int), (0x1F48int, 0x1F4Dint), (0x1F50int, 0x1F57int), (0x1F59int, 0x1F59int), (0x1F5Bint, 0x1F5Bint), (0x1F5Dint, 0x1F5Dint), (0x1F5Fint, 0x1F7Dint), (0x1F80int, 0x1FB4int)]
}

pub open spec fn word_chunk_36() -> Seq<SRange> {
    seq![(0x1FB6int, 0x1FBCint), (0x1FBEint, 0x1FBEint), (0x1FC2int, 0x1FC4int), (0x1FC6int, 0x1FCCint), (0x1FD0int, 0x1FD3int), (0x1FD6int, 0x1FDBint), (0x1FE0int, 0x1FECint), (0x1FF2int, 0x1FF4int)]
}

pub open spec fn word_chunk_37() -> Seq<SRange> {
    seq![(0x1FF6int, 0x1FFCint), (0x200Cint, 0x200Dint), (0x203Fint, 0x2040int), (0x2054int, 0x2054int), (0x2071int, 0x2071int), (0x207Fint, 0x207Fint), (0x2090int, 0x209Cint), (0x20D0int, 0x20F0int)]
}

pub open spec fn word_chunk_38() -> Seq<SRange> {
    seq![(0x2102int, 0x2102int), (0x2107int, 0x2107int), (0x210Aint, 0x2113int), (0x2115int, 0x2115int), (0x2119int, 0x211Dint), (0x2124int, 0x2124int), (0x2126int, 0x2126int), (0x2128int, 0x2128int)]
}

pub open spec fn word_chunk_39() -> Seq<SRange> {
    seq![(0x212Aint, 0x212Dint), (0x212Fint, 0x2139int), (0x213Cint, 0x213Fint), (0x2145int, 0x2149int), (0x214Eint, 0x214Eint), (0x2160int, 0x2188int), (0x24B6int, 0x24E9int), (0x2C00int, 0x2CE4int)]
}

pub open spec fn word_chunk_40() -> Seq<SRange> {
    seq![(0x2CEBint, 0x2CF3int), (0x2D00int, 0x2D25int), (0x2D27int, 0x2D27int), (0x2D2Dint, 0x2D2Dint), (0x2D30int, 0x2D67int), (0x2D6Fint, 0x2D6Fint), (0x2D7Fint, 0x2D96int), (0x2DA0int, 0x2DA6int)]
}

pub open spec fn word_chunk_41() -> Seq<SRange> {
    seq![(0x2DA8int, 0x2DAEint), (0x2DB0int, 0x2DB6int), (0x2DB8int, 0x2DBEint), (0x2DC0int, 0x2DC6int), (0x2DC8int, 0x2DCEint), (0x2DD0int, 0x2DD6int), (0x2DD8int, 0x2DDEint), (0x2DE0int, 0x2DFFint)]
}

pub open spec fn word_chunk_42() -> Seq<SRange> {
    seq![(0x2E2Fint, 0x2E2Fint), (0x3005int, 0x3007int), (0x3021int, 0x302Fint), (0x3031int, 0x3035int), (0x3038int, 0x303Cint), (0x3041int, 0x3096int), (0x3099int, 0x309Aint), (0x309Dint, 0x309Fint)]
}

pub open spec fn word_chunk_43() -> Seq<SRange> {
    seq![(0x30A1int, 0x30FAint), (0x30FCint, 0x30FFint), (0x3105int, 0x312Fint), (0x3131int, 0x318Eint), (0x31A0int, 0x31BFint), (0x31F0int, 0x31FFint), (0x3400int, 0x4DBFint), (0x4E00int, 0xA48Cint)]
}

pub open spec fn word_chunk_44() -> Seq<SRange> {
    seq![(0xA4D0int, 0xA4FDint), (0xA500int, 0xA60Cint), (0xA610int, 0xA62Bint), (0xA640int, 0xA672int), (0xA674int, 0xA67Dint), (0xA67Fint, 0xA6F1int), (0xA717int, 0xA71Fint), (0xA722int, 0xA788int)]
}

pub open spec fn word_chunk_45() -> Seq<SRange> {
    seq![(0xA78Bint, 0xA7CDint), (0xA7D0int, 0xA7D1int), (0xA7D3int, 0xA7D3int), (0xA7D5int, 0xA7DCint), (0xA7F2int, 0xA827int), (0xA82Cint, 0xA82Cint), (0xA840int, 0xA873int), (0xA880int, 0xA8C5int)]
}

pub open spec fn word_chunk_46() -> Seq<SRange> {
    seq![(0xA8D0int, 0xA8D9int), (0xA8E0int, 0xA8F7int), (0xA8FBint, 0xA8FBint), (0xA8FDint, 0xA92Dint), (0xA930int, 0xA953int), (0xA960int, 0xA97Cint), (0xA980int, 0xA9C0int), (0xA9CFint, 0xA9D9int)]
}

pub open spec fn word_chunk_47() -> Seq<SRange> {
    seq![(0xA9E0int, 0xA9FEint), (0xAA00int, 0xAA36int), (0xAA40int, 0xAA4Dint), (0xAA50int, 0xAA59int), (0xAA60int, 0xAA76int), (0xAA7Aint, 0xAAC2int), (0xAADBint, 0xAADDint), (0xAAE0int, 0xAAEFint)]
}

pub open spec fn word_chunk_48() -> Seq<SRange> {
    seq![(0xAAF2int, 0xAAF6int), (0xAB01int, 0xAB06int), (0xAB09int, 0xAB0Eint), (0xAB11int, 0xAB16int), (0xAB20int, 0xAB26int), (0xAB28int, 0xAB2Eint), (0xAB30int, 0xAB5Aint), (0xAB5Cint, 0xAB69int)]
}

pub open spec fn word_chunk_49() -> Seq<SRange> {
    seq![(0xAB70int, 0xABEAint), (0xABECint, 0xABEDint), (0xABF0int, 0xABF9int), (0xAC00int, 0xD7A3int), (0xD7B0int, 0xD7C6int), (0xD7CBint, 0xD7FBint), (0xF900int, 0xFA6Dint), (0xFA70int, 0xFAD9int)]
}

pub open spec fn word_chunk_50() -> Seq<SRange> {
    seq![(0xFB00int, 0xFB06int), (0xFB13int, 0xFB17int), (0xFB1Dint, 0xFB28int), (0xFB2Aint, 0xFB36int), (0xFB38int, 0xFB3Cint), (0xFB3Eint, 0xFB3Eint), (0xFB40int, 0xFB41int), (0xFB43int, 0xFB44int)]
}

pub open spec fn word_chunk_51() -> Seq<SRange> {
    seq![(0xFB46int, 0xFBB1int), (0xFBD3int, 0xFD3Dint), (0xFD50int, 0xFD8Fint), (0xFD92int, 0xFDC7int), (0xFDF0int, 0xFDFBint), (0xFE00int, 0xFE0Fint), (0xFE20int, 0xFE2Fint), (0xFE33int, 0xFE34int)]
}

pub open spec fn word_chunk_52() -> Seq<SRange> {
    seq![(0xFE4Dint, 0xFE4Fint), (0xFE70int, 0xFE74int), (0xFE76int, 0xFEFCint), (0xFF10int, 0xFF19int), (0xFF21int, 0xFF3Aint), (0xFF3Fint, 0xFF3Fint), (0xFF41int, 0xFF5Aint), (0xFF66int, 0xFFBEint)]
}

pub open spec fn word_chunk_53() -> Seq<SRange> {
    seq![(0xFFC2int, 0xFFC7int), (0xFFCAint, 0xFFCFint), (0xFFD2int, 0xFFD7int), (0xFFDAint, 0xFFDCint), (0x10000int, 0x1000Bint), (0x1000Dint, 0x10026int), (0x10028int, 0x1003Aint), (0x1003Cint, 0x1003Dint)]
}

pub open spec fn word_chunk_54() -> Seq<SRange> {
    seq![(0x1003Fint, 0x1004Dint), (0x10050int, 0x1005Dint), (0x10080int, 0x100FAint), (0x10140int, 0x10174int), (0x101FDint, 0x101FDint), (0x10280int, 0x1029Cint), (0x102A0int, 0x102D0int), (0x102E0int, 0x102E0int)]
}

pub open spec fn word_chunk_55() -> Seq<SRange> {
    seq![(0x10300int, 0x1031Fint), (0x1032Dint, 0x1034Aint), (0x10350int, 0x1037Aint), (0x10380int, 0x1039Dint), (0x103A0int, 0x103C3int), (0x103C8int, 0x103CFint), (0x103D1int, 0x103D5int), (0x10400int, 0x1049Dint)]
}

pub open spec fn word_chunk_56() -> Seq<SRange> {
    seq![(0x104A0int, 0x104A9int), (0x104B0int, 0x104D3int), (0x104D8int, 0x104FBint), (0x10500int, 0x10527int), (0x10530int, 0x10563int), (0x10570int, 0x1057Aint), (0x1057Cint, 0x1058Aint), (0x1058Cint, 0x10592int)]
}

pub open spec fn word_chunk_57() -> Seq<SRange> {
    seq![(0x10594int, 0x10595int), (0x10597int, 0x105A1int), (0x105A3int, 0x105B1int), (0x105B3int, 0x105B9int), (0x105BBint, 0x105BCint), (0x105C0int, 0x105F3int), (0x10600int, 0x10736int), (0x10740int, 0x10755int)]
}

pub open spec fn word_chunk_58() -> Seq<SRange> {
    seq![(0x10760int, 0x10767int), (0x10780int, 0x10785int), (0x10787int, 0x107B0int), (0x107B2int, 0x107BAint), (0x10800int, 0x10805int), (0x10808int, 0x10808int), (0x1080Aint, 0x10835int), (0x10837int, 0x10838int)]
}

pub open spec fn word_chunk_59() -> Seq<SRange> {
    seq![(0x1083Cint, 0x1083Cint), (0x1083Fint, 0x10855int), (0x10860int, 0x10876int), (0x10880int, 0x1089Eint), (0x108E0int, 0x108F2int), (0x108F4int, 0x108F5int), (0x10900int, 0x10915int), (0x10920int, 0x10939int)]
}

pub open spec fn word_chunk_60() -> Seq<SRange> {
    seq![(0x10980int, 0x109B7int), (0x109BEint, 0x109BFint), (0x10A00int, 0x10A03int), (0x10A05int, 0x10A06int), (0x10A0Cint, 0x10A13int), (0x10A15int, 0x10A17int), (0x10A19int, 0x10A35int), (0x10A38int, 0x10A3Aint)]
}

pub open spec fn word_chunk_61() -> Seq<SRange> {
    seq![(0x10A3Fint, 0x10A3Fint), (0x10A60int, 0x10A7Cint), (0x10A80int, 0x10A9Cint), (0x10AC0int, 0x10AC7int), (0x10AC9int, 0x10AE6int), (0x10B00int, 0x10B35int), (0x10B40int, 0x10B55int), (0x10B60int, 0x10B72int)]
}

pub open spec fn word_chunk_62() -> Seq<SRange> {
    seq![(0x10B80int, 0x10B91int), (0x10C00int, 0x10C48int), (0x10C80int, 0x10CB2int), (0x10CC0int, 0x10CF2int), (0x10D00int, 0x10D27int), (0x10D30int, 0x10D39int), (0x10D40int, 0x10D65int), (0x10D69int, 0x10D6Dint)]
}

pub open spec fn word_chunk_63() -> Seq<SRange> {
    seq![(0x10D6Fint, 0x10D85int), (0x10E80int, 0x10EA9int), (0x10EABint, 0x10EACint), (0x10EB0int, 0x10EB1int), (0x10EC2int, 0x10EC4int), (0x10EFCint, 0x10F1Cint), (0x10F27int, 0x10F27int), (0x10F30int, 0x10F50int)]
}

pub open spec fn word_chunk_64() -> Seq<SRange> {
    seq![(0x10F70int, 0x10F85int), (0x10FB0int, 0x10FC4int), (0x10FE0int, 0x10FF6int), (0x11000int, 0x11046int), (0x11066int, 0x11075int), (0x1107Fint, 0x110BAint), (0x110C2int, 0x110C2int), (0x110D0int, 0x110E8int)]
}

pub open spec fn word_chunk_65() -> Seq<SRange> {
    seq![(0x110F0int, 0x110F9int), (0x11100int, 0x11134int), (0x11136int, 0x1113Fint), (0x11144int, 0x11147int), (0x11150int, 0x11173int), (0x11176int, 0x11176int), (0x11180int, 0x111C4int), (0x111C9int, 0x111CCint)]
}

pub open spec fn word_chunk_66() -> Seq<SRange> {
    seq![(0x111CEint, 0x111DAint), (0x111DCint, 0x111DCint), (0x11200int, 0x11211int), (0x11213int, 0x11237int), (0x1123Eint, 0x11241int), (0x11280int, 0x11286int), (0x11288int, 0x11288int), (0x1128Aint, 0x1128Dint)]
}

pub open spec fn word_chunk_67() -> Seq<SRange> {
    seq![(0x1128Fint, 0x1129Dint), (0x1129Fint, 0x112A8int), (0x112B0int, 0x112EAint), (0x112F0int, 0x112F9int), (0x11300int, 0x11303int), (0x11305int, 0x1130Cint), (0x1130Fint, 0x11310int), (0x11313int, 0x11328int)]
}

pub open spec fn word_chunk_68() -> Seq<SRange> {
    seq![(0x1132Aint, 0x11330int), (0x11332int, 0x11333int), (0x11335int, 0x11339int), (0x1133Bint, 0x11344int), (0x11347int, 0x11348int), (0x1134Bint, 0x1134Dint), (0x11350int, 0x11350int), (0x11357int, 0x11357int)]
}

pub open spec fn word_chunk_69() -> Seq<SRange> {
    seq![(0x1135Dint, 0x11363int), (0x11366int, 0x1136Cint), (0x11370int, 0x11374int), (0x11380int, 0x11389int), (0x1138Bint, 0x1138Bint), (0x1138Eint, 0x1138Eint), (0x11390int, 0x113B5int), (0x113B7int, 0x113C0int)]
}

pub open spec fn word_chunk_70() -> Seq<SRange> {
    seq![(0x113C2int, 0x113C2int), (0x113C5int, 0x113C5int), (0x113C7int, 0x113CAint), (0x113CCint, 0x113D3int), (0x113E1int, 0x113E2int), (0x11400int, 0x1144Aint), (0x11450int, 0x11459int), (0x1145Eint, 0x11461int)]
}

pub open spec fn word_chunk_71() -> Seq<SRange> {
    seq![(0x11480int, 0x114C5int), (0x114C7int, 0x114C7int), (0x114D0int, 0x114D9int), (0x11580int, 0x115B5int), (0x115B8int, 0x115C0int), (0x115D8int, 0x115DDint), (0x11600int, 0x11640int), (0x11644int, 0x11644int)]
}

pub open spec fn word_chunk_72() -> Seq<SRange> {
    seq![(0x11650int, 0x11659int), (0x11680int, 0x116B8int), (0x116C0int, 0x116C9int), (0x116D0int, 0x116E3int), (0x11700int, 0x1171Aint), (0x1171Dint, 0x1172Bint), (0x11730int, 0x11739int), (0x11740int, 0x11746int)]
}

pub open spec fn word_chunk_73() -> Seq<SRange> {
    seq![(0x11800int, 0x1183Aint), (0x118A0int, 0x118E9int), (0x118FFint, 0x11906int), (0x11909int, 0x11909int), (0x1190Cint, 0x11913int), (0x11915int, 0x11916int), (0x11918int, 0x11935int), (0x11937int, 0x11938int)]
}

pub open spec fn word_chunk_74() -> Seq<SRange> {
    seq![(0x1193Bint, 0x11943int), (0x11950int, 0x11959int), (0x119A0int, 0x119A7int), (0x119AAint, 0x119D7int), (0x119DAint, 0x119E1int), (0x119E3int, 0x119E4int), (0x11A00int, 0x11A3Eint), (0x11A47int, 0x11A47int)]
}

pub open spec fn word_chunk_75() -> Seq<SRange> {
    seq![(0x11A50int, 0x11A99int), (0x11A9Dint, 0x11A9Dint), (0x11AB0int, 0x11AF8int), (0x11BC0int, 0x11BE0int), (0x11BF0int, 0x11BF9int), (0x11C00int, 0x11C08int), (0x11C0Aint, 0x11C36int), (0x11C38int, 0x11C40int)]
}

pub open spec fn word_chunk_76() -> Seq<SRange> {
    seq![(0x11C50int, 0x11C59int), (0x11C72int, 0x11C8Fint), (0x11C92int, 0x11CA7int), (0x11CA9int, 0x11CB6int), (0x11D00int, 0x11D06int), (0x11D08int, 0x11D09int), (0x11D0Bint, 0x11D36int), (0x11D3Aint, 0x11D3Aint)]
}

pub open spec fn word_chunk_77() -> Seq<SRange> {
    seq![(0x11D3Cint, 0x11D3Dint), (0x11D3Fint, 0x11D47int), (0x11D50int, 0x11D59int), (0x11D60int, 0x11D65int), (0x11D67int, 0x11D68int), (0x11D6Aint, 0x11D8Eint), (0x11D90int, 0x11D91int), (0x11D93int, 0x11D98int)]
}

pub open spec fn word_chunk_78() -> Seq<SRange> {
    seq![(0x11DA0int, 0x11DA9int), (0x11EE0int, 0x11EF6int), (0x11F00int, 0x11F10int), (0x11F12int, 0x11F3Aint), (0x11F3Eint, 0x11F42int), (0x11F50int, 0x11F5Aint), (0x11FB0int, 0x11FB0int), (0x12000int, 0x12399int)]
}

pub open spec fn word_chunk_79() -> Seq<SRange> {
    seq![(0x12400int, 0x1246Eint), (0x12480int, 0x12543int), (0x12F90int, 0x12FF0int), (0x13000int, 0x1342Fint), (0x13440int, 0x13455int), (0x13460int, 0x143FAint), (0x14400int, 0x14646int), (0x16100int, 0x16139int)]
}

pub open spec fn word_chunk_80() -> Seq<SRange> {
    seq![(0x16800int, 0x16A38int), (0x16A40int, 0x16A5Eint), (0x16A60int, 0x16A69int), (0x16A70int, 0x16ABEint), (0x16AC0int, 0x16AC9int), (0x16AD0int, 0x16AEDint), (0x16AF0int, 0x16AF4int), (0x16B00int, 0x16B36int)]
}

pub open spec fn word_chunk_81() -> Seq<SRange> {
    seq![(0x16B40int, 0x16B43int), (0x16B50int, 0x16B59int), (0x16B63int, 0x16B77int), (0x16B7Dint, 0x16B8Fint), (0x16D40int, 0x16D6Cint), (0x16D70int, 0x16D79int), (0x16E40int, 0x16E7Fint), (0x16F00int, 0x16F4Aint)]
}

pub open spec fn word_chunk_82() -> Seq<SRange> {
    seq![(0x16F4Fint, 0x16F87int), (0x16F8Fint, 0x16F9Fint), (0x16FE0int, 0x16FE1int), (0x16FE3int, 0x16FE4int), (0x16FF0int, 0x16FF1int), (0x17000int, 0x187F7int), (0x18800int, 0x18CD5int), (0x18CFFint, 0x18D08int)]
}

pub open spec fn word_chunk_83() -> Seq<SRange> {
    seq![(0x1AFF0int, 0x1AFF3int), (0x1AFF5int, 0x1AFFBint), (0x1AFFDint, 0x1AFFEint), (0x1B000int, 0x1B122int), (0x1B132int, 0x1B132int), (0x1B150int, 0x1B152int), (0x1B155int, 0x1B155int), (0x1B164int, 0x1B167int)]
}

pub open spec fn word_chunk_84() -> Seq<SRange> {
    seq![(0x1B170int, 0x1B2FBint), (0x1BC00int, 0x1BC6Aint), (0x1BC70int, 0x1BC7Cint), (0x1BC80int, 0x1BC88int), (0x1BC90int, 0x1BC99int), (0x1BC9Dint, 0x1BC9Eint), (0x1CCF0int, 0x1CCF9int), (0x1CF00int, 0x1CF2Dint)]
}

pub open spec fn word_chunk_85() -> Seq<SRange> {
    seq![(0x1CF30int, 0x1CF46int), (0x1D165int, 0x1D169int), (0x1D16Dint, 0x1D172int), (0x1D17Bint, 0x1D182int), (0x1D185int, 0x1D18Bint), (0x1D1AAint, 0x1D1ADint), (0x1D242int, 0x1D244int), (0x1D400int, 0x1D454int)]
}

pub open spec fn word_chunk_86() -> Seq<SRange> {
    seq![(0x1D456int, 0x1D49Cint), (0x1D49Eint, 0x1D49Fint), (0x1D4A2int, 0x1D4A2int), (0x1D4A5int, 0x1D4A6int), (0x1D4A9int, 0x1D4ACint), (0x1D4AEint, 0x1D4B9int), (0x1D4BBint, 0x1D4BBint), (0x1D4BDint, 0x1D4C3int)]
}

pub open spec fn word_chunk_87() -> Seq<SRange> {
    seq![(0x1D4C5int, 0x1D505int), (0x1D507int, 0x1D50Aint), (0x1D50Dint, 0x1D514int), (0x1D516int, 0x1D51Cint), (0x1D51Eint, 0x1D539int), (0x1D53Bint, 0x1D53Eint), (0x1D540int, 0x1D544int), (0x1D546int, 0x1D546int)]
}

pub open spec fn word_chunk_88() -> Seq<SRange> {
    seq![(0x1D54Aint, 0x1D550int), (0x1D552int, 0x1D6A5int), (0x1D6A8int, 0x1D6C0int), (0x1D6C2int, 0x1D6DAint), (0x1D6DCint, 0x1D6FAint), (0x1D6FCint, 0x1D714int), (0x1D716int, 0x1D734int), (0x1D736int, 0x1D74Eint)]
}

pub open spec fn word_chunk_89() -> Seq<SRange> {
    seq![(0x1D750int, 0x1D76Eint), (0x1D770int, 0x1D788int), (0x1D78Aint, 0x1D7A8int), (0x1D7AAint, 0x1D7C2int), (0x1D7C4int, 0x1D7CBint), (0x1D7CEint, 0x1D7FFint), (0x1DA00int, 0x1DA36int), (0x1DA3Bint, 0x1DA6Cint)]
}

pub open spec fn word_chunk_90() -> Seq<SRange> {
    seq![(0x1DA75int, 0x1DA75int), (0x1DA84int, 0x1DA84int), (0x1DA9Bint, 0x1DA9Fint), (0x1DAA1int, 0x1DAAFint), (0x1DF00int, 0x1DF1Eint), (0x1DF25int, 0x1DF2Aint), (0x1E000int, 0x1E006int), (0x1E008int, 0x1E018int)]
}

pub open spec fn word_chunk_91() -> Seq<SRange> {
    seq![(0x1E01Bint, 0x1E021int), (0x1E023int, 0x1E024int), (0x1E026int, 0x1E02Aint), (0x1E030int, 0x1E06Dint), (0x1E08Fint, 0x1E08Fint), (0x1E100int, 0x1E12Cint), (0x1E130int, 0x1E13Dint), (0x1E140int, 0x1E149int)]
}

pub open spec fn word_chunk_92() -> Seq<SRange> {
    seq![(0x1E14Eint, 0x1E14Eint), (0x1E290int, 0x1E2AEint), (0x1E2C0int, 0x1E2F9int), (0x1E4D0int, 0x1E4F9int), (0x1E5D0int, 0x1E5FAint), (0x1E7E0int, 0x1E7E6int), (0x1E7E8int, 0x1E7EBint), (0x1E7EDint, 0x1E7EEint)]
}

pub open spec fn word_chunk_93() -> Seq<SRange> {
    seq![(0x1E7F0int, 0x1E7FEint), (0x1E800int, 0x1E8C4int), (0x1E8D0int, 0x1E8D6int), (0x1E900int, 0x1E94Bint), (0x1E950int, 0x1E959int), (0x1EE00int, 0x1EE03int), (0x1EE05int, 0x1EE1Fint), (0x1EE21int, 0x1EE22int)]
}

pub open spec fn word_chunk_94() -> Seq<SRange> {
    seq![(0x1EE24int, 0x1EE24int), (0x1EE27int, 0x1EE27int), (0x1EE29int, 0x1EE32int), (0x1EE34int, 0x1EE37int), (0x1EE39int, 0x1EE39int), (0x1EE3Bint, 0x1EE3Bint), (0x1EE42int, 0x1EE42int), (0x1EE47int, 0x1EE47int)]
}

pub open spec fn word_chunk_95() -> Seq<SRange> {
    seq![(0x1EE49int, 0x1EE49int), (0x1EE4Bint, 0x1EE4Bint), (0x1EE4Dint, 0x1EE4Fint), (0x1EE51int, 0x1EE52int), (0x1EE54int, 0x1EE54int), (0x1EE57int, 0x1EE57int), (0x1EE59int, 0x1EE59int), (0x1EE5Bint, 0x1EE5Bint)]
}

pub open spec fn word_chunk_96() -> Seq<SRange> {
    seq![(0x1EE5Dint, 0x1EE5Dint), (0x1EE5Fint, 0x1EE5Fint), (0x1EE61int, 0x1EE62int), (0x1EE64int, 0x1EE64int), (0x1EE67int, 0x1EE6Aint), (0x1EE6Cint, 0x1EE72int), (0x1EE74int, 0x1EE77int), (0x1EE79int, 0x1EE7Cint)]
}

pub open spec fn word_chunk_97() -> Seq<SRange> {
    seq![(0x1EE7Eint, 0x1EE7Eint), (0x1EE80int, 0x1EE89int), (0x1EE8Bint, 0x1EE9Bint), (0x1EEA1int, 0x1EEA3int), (0x1EEA5int, 0x1EEA9int), (0x1EEABint, 0x1EEBBint), (0x1F130int, 0x1F149int), (0x1F150int, 0x1F169int)]
}

pub open spec fn word_chunk_98() -> Seq<SRange> {
    seq![(0x1F170int, 0x1F189int), (0x1FBF0int, 0x1FBF9int), (0x20000int, 0x2A6DFint), (0x2A700int, 0x2B739int), (0x2B740int, 0x2B81Dint), (0x2B820int, 0x2CEA1int), (0x2CEB0int, 0x2EBE0int), (0x2EBF0int, 0x2EE5Dint)]
}

pub open spec fn word_chunk_99() -> Seq<SRange> {
    seq![(0x2F800int, 0x2FA1Dint), (0x30000int, 0x3134Aint), (0x31350int, 0x323AFint), (0xE0100int, 0xE01EFint)]
}

pub open spec fn word_block_0() -> Seq<SRange> {
    word_chunk_0() + word_chunk_1() + word_chunk_2() + word_chunk_3() + word_chunk_4() + word_chunk_5() + word_chunk_6() + word_chunk_7() + word_chunk_8() + word_chunk_9()
}

pub open spec fn word_block_1() -> Seq<SRange> {
    word_chunk_10() + word_chunk_11() + word_chunk_12() + word_chunk_13() + word_chunk_14() + word_chunk_15() + word_chunk_16() + word_chunk_17() + word_chunk_18() + word_chunk_19()
}

pub open spec fn word_block_2() -> Seq<SRange> {
    word_chunk_20() + word_chunk_21() + word_chunk_22() + word_chunk_23() + word_chunk_24() + word_chunk_25() + word_chunk_26() + word_chunk_27() + word_chunk_28() + word_chunk_29()
}

pub open spec fn word_block_3() -> Seq<SRange> {
    word_chunk_30() + word_chunk_31() + word_chunk_32() + word_chunk_33() + word_chunk_34() + word_chunk_35() + word_chunk_36() + word_chunk_37() + word_chunk_38() + word_chunk_39()
}

pub open spec fn word_block_4() -> Seq<SRange> {
    word_chunk_40() + word_chunk_41() + word_chunk_42() + word_chunk_43() + word_chunk_44() + word_chunk_45() + word_chunk_46() + word_chunk_47() + word_chunk_48() + word_chunk_49()
}

pub open spec fn word_block_5() -> Seq<SRange> {
    word_chunk_50() + word_chunk_51() + word_chunk_52() + word_chunk_53() + word_chunk_54() + word_chunk_55() + word_chunk_56() + word_chunk_57() + word_chunk_58() + word_chunk_59()
}

pub open spec fn word_block_6() -> Seq<SRange> {
    word_chunk_60() + word_chunk_61() + word_chunk_62() + word_chunk_63() + word_chunk_64() + word_chunk_65() + word_chunk_66() + word_chunk_67() + word_chunk_68() + word_chunk_69()
}

pub open spec fn word_block_7() -> Seq<SRange> {
    word_chunk_70() + word_chunk_71() + word_chunk_72() + word_chunk_73() + word_chunk_74() + word_chunk_75() + word_chunk_76() + word_chunk_77() + word_chunk_78() + word_chunk_79()
}

pub open spec fn word_block_8() -> Seq<SRange> {
    word_chunk_80() + word_chunk_81() + word_chunk_82() + word_chunk_83() + word_chunk_84() + word_chunk_85() + word_chunk_86() + word_chunk_87() + word_chunk_88() + word_chunk_89()
}

pub open spec fn word_block_9() -> Seq<SRange> {
    word_chunk_90() + word_chunk_91() + word_chunk_92() + word_chunk_93() + word_chunk_94() + word_chunk_95() + word_chunk_96() + word_chunk_97() + word_chunk_98() + word_chunk_99()
}

/// The word characters, in blocks of ranges.
pub open spec fn word_ranges() -> Seq<SRange> {
    word_block_0() + word_block_1() + word_block_2() + word_block_3() + word_block_4() + word_block_5() + word_block_6() + word_block_7() + word_block_8() + word_block_9()
}

/// Two canonical classes, the first ending more than one scalar value before
/// the second starts, make a canonical class together.
pub proof fn lemma_canonical_append(a: Seq<SRange>, b: Seq<SRange>)
    requires
        canonical(a),
        canonical(b),
        a.len() > 0,
        b.len() > 0,
        succ(a.last().1) < b[0].0,
    ensures
        canonical(a + b),
    decreases a.len(),
{
    if a.len() == 1 {
        assert((a + b).drop_first() =~= b);
        assert((a + b)[1] == b[0]);
    } else {
        lemma_canonical_append(a.drop_first(), b);
        assert((a + b).drop_first() =~= a.drop_first() + b);
        assert((a + b)[1] == a[1]);
    }
}

proof fn lemma_word_block_0()
    ensures
        canonical(word_block_0()),
        word_block_0().len() > 0,
        word_block_0()[0] == word_chunk_0()[0],
        word_block_0().last() == word_chunk_9().last(),
{
    reveal_with_fuel(canonical, 9);
    assert(canonical(word_chunk_0()));
    assert(canonical(word_chunk_1()));
    assert(canonical(word_chunk_2()));
    assert(canonical(word_chunk_3()));
    assert(canonical(word_chunk_4()));
    assert(canonical(word_chunk_5()));
    assert(canonical(word_chunk_6()));
    assert(canonical(word_chunk_7()));
    assert(canonical(word_chunk_8()));
    assert(canonical(word_chunk_9()));
    lemma_canonical_append(word_chunk_0(), word_chunk_1());
    lemma_canonical_append(word_chunk_0() + word_chunk_1(), word_chunk_2());
    lemma_canonical_append(word_chunk_0() + word_chunk_1() + word_chunk_2(), word_chunk_3());
    lemma_canonical_append(word_chunk_0() + word_chunk_1() + word_chunk_2() + word_chunk_3(), word_chunk_4());
    lemma_canonical_append(word_chunk_0() + word_chunk_1() + word_chunk_2() + word_chunk_3() + word_chunk_4(), word_chunk_5());
    lemma_canonical_append(word_chunk_0() + word_chunk_1() + word_chunk_2() + word_chunk_3() + word_chunk_4() + word_chunk_5(), word_chunk_6());
    lemma_canonical_append(word_chunk_0() + word_chunk_1() + word_chunk_2() + word_chunk_3() + word_chunk_4() + word_chunk_5() + word_chunk_6(), word_chunk_7());
    lemma_canonical_append(word_chunk_0() + word_chunk_1() + word_chunk_2() + word_chunk_3() + word_chunk_4() + word_chunk_5() + word_chunk_6() + word_chunk_7(), word_chunk_8());
    lemma_canonical_append(word_chunk_0() + word_chunk_1() + word_chunk_2() + word_chunk_3() + word_chunk_4() + word_chunk_5() + word_chunk_6() + word_chunk_7() + word_chunk_8(), word_chunk_9());
}

proof fn lemma_word_block_1()
    ensures
        canonical(word_block_1()),
        word_block_1().len() > 0,
        word_block_1()[0] == word_chunk_10()[0],
        word_block_1().last() == word_chunk_19().last(),
{
    reveal_with_fuel(canonical, 9);
    assert(canonical(word_chunk_10()));
    assert(canonical(word_chunk_11()));
    assert(canonical(word_chunk_12()));
    assert(canonical(word_chunk_13()));
    assert(canonical(word_chunk_14()));
    assert(canonical(word_chunk_15()));
    assert(canonical(word_chunk_16()));
    assert(canonical(word_chunk_17()));
    assert(canonical(word_chunk_18()));
    assert(canonical(word_chunk_19()));
    lemma_canonical_append(word_chunk_10(), word_chunk_11());
    lemma_canonical_append(word_chunk_10() + word_chunk_11(), word_chunk_12());
    lemma_canonical_append(word_chunk_10() + word_chunk_11() + word_chunk_12(), word_chunk_13());
    lemma_canonical_append(word_chunk_10() + word_chunk_11() + word_chunk_12() + word_chunk_13(), word_chunk_14());
    lemma_canonical_append(word_chunk_10() + word_chunk_11() + word_chunk_12() + word_chunk_13() + word_chunk_14(), word_chunk_15());
    lemma_canonical_append(word_chunk_10() + word_chunk_11() + word_chunk_12() + word_chunk_13() + word_chunk_14() + word_chunk_15(), word_chunk_16());
    lemma_canonical_append(word_chunk_10() + word_chunk_11() + word_chunk_12() + word_chunk_13() + word_chunk_14() + word_chunk_15() + word_chunk_16(), word_chunk_17());
    lemma_canonical_append(word_chunk_10() + word_chunk_11() + word_chunk_12() + word_chunk_13() + word_chunk_14() + word_chunk_15() + word_chunk_16() + word_chunk_17(), word_chunk_18());
    lemma_canonical_append(word_chunk_10() + word_chunk_11() + word_chunk_12() + word_chunk_13() + word_chunk_14() + word_chunk_15() + word_chunk_16() + word_chunk_17() + word_chunk_18(), word_chunk_19());
}

proof fn lemma_word_block_2()
    ensures
        canonical(word_block_2()),
        word_block_2().len() > 0,
        word_block_2()[0] == word_chunk_20()[0],
        word_block_2().last() == word_chunk_29().last(),
{
    reveal_with_fuel(canonical, 9);
    assert(canonical(word_chunk_20()));
    assert(canonical(word_chunk_21()));
    assert(canonical(word_chunk_22()));
    assert(canonical(word_chunk_23()));
    assert(canonical(word_chunk_24()));
    assert(canonical(word_chunk_25()));
    assert(canonical(word_chunk_26()));
    assert(canonical(word_chunk_27()));
    assert(canonical(word_chunk_28()));
    assert(canonical(word_chunk_29()));
    lemma_canonical_append(word_chunk_20(), word_chunk_21());
    lemma_canonical_append(word_chunk_20() + word_chunk_21(), word_chunk_22());
    lemma_canonical_append(word_chunk_20() + word_chunk_21() + word_chunk_22(), word_chunk_23());
    lemma_canonical_append(word_chunk_20() + word_chunk_21() + word_chunk_22() + word_chunk_23(), word_chunk_24());
    lemma_canonical_append(word_chunk_20() + word_chunk_21() + word_chunk_22() + word_chunk_23() + word_chunk_24(), word_chunk_25());
    lemma_canonical_append(word_chunk_20() + word_chunk_21() + word_chunk_22() + word_chunk_23() + word_chunk_24() + word_chunk_25(), word_chunk_26());
    lemma_canonical_append(word_chunk_20() + word_chunk_21() + word_chunk_22() + word_chunk_23() + word_chunk_24() + word_chunk_25() + word_chunk_26(), word_chunk_27());
    lemma_canonical_append(word_chunk_20() + word_chunk_21() + word_chunk_22() + word_chunk_23() + word_chunk_24() + word_chunk_25() + word_chunk_26() + word_chunk_27(), word_chunk_28());
    lemma_canonical_append(word_chunk_20() + word_chunk_21() + word_chunk_22() + word_chunk_23() + word_chunk_24() + word_chunk_25() + word_chunk_26() + word_chunk_27() + word_chunk_28(), word_chunk_29());
}

proof fn lemma_word_block_3()
    ensures
        canonical(word_block_3()),
        word_block_3().len() > 0,
        word_block_3()[0] == word_chunk_30()[0],
        word_block_3().last() == word_chunk_39().last(),
{
    reveal_with_fuel(canonical, 9);
    assert(canonical(word_chunk_30()));
    assert(canonical(word_chunk_31()));
    assert(canonical(word_chunk_32()));
    assert(canonical(word_chunk_33()));
    assert(canonical(word_chunk_34()));
    assert(canonical(word_chunk_35()));
    assert(canonical(word_chunk_36()));
    assert(canonical(word_chunk_37()));
    assert(canonical(word_chunk_38()));
    assert(canonical(word_chunk_39()));
    lemma_canonical_append(word_chunk_30(), word_chunk_31());
    lemma_canonical_append(word_chunk_30() + word_chunk_31(), word_chunk_32());
    lemma_canonical_append(word_chunk_30() + word_chunk_31() + word_chunk_32(), word_chunk_33());
    lemma_canonical_append(word_chunk_30() + word_chunk_31() + word_chunk_32() + word_chunk_33(), word_chunk_34());
    lemma_canonical_append(word_chunk_30() + word_chunk_31() + word_chunk_32() + word_chunk_33() + word_chunk_34(), word_chunk_35());
    lemma_canonical_append(word_chunk_30() + word_chunk_31() + word_chunk_32() + word_chunk_33() + word_chunk_34() + word_chunk_35(), word_chunk_36());
    lemma_canonical_append(word_chunk_30() + word_chunk_31() + word_chunk_32() + word_chunk_33() + word_chunk_34() + word_chunk_35() + word_chunk_36(), word_chunk_37());
    lemma_canonical_append(word_chunk_30() + word_chunk_31() + word_chunk_32() + word_chunk_33() + word_chunk_34() + word_chunk_35() + word_chunk_36() + word_chunk_37(), word_chunk_38());
    lemma_canonical_append(word_chunk_30() + word_chunk_31() + word_chunk_32() + word_chunk_33() + word_chunk_34() + word_chunk_35() + word_chunk_36() + word_chunk_37() + word_chunk_38(), word_chunk_39());
}

proof fn lemma_word_block_4()
    ensures
        canonical(word_block_4()),
        word_block_4().len() > 0,
        word_block_4()[0] == word_chunk_40()[0],
        word_block_4().last() == word_chunk_49().last(),
{
    reveal_with_fuel(canonical, 9);
    assert(canonical(word_chunk_40()));
    assert(canonical(word_chunk_41()));
    assert(canonical(word_chunk_42()));
    assert(canonical(word_chunk_43()));
    assert(canonical(word_chunk_44()));
    assert(canonical(word_chunk_45()));
    assert(canonical(word_chunk_46()));
    assert(canonical(word_chunk_47()));
    assert(canonical(word_chunk_48()));
    assert(canonical(word_chunk_49()));
    lemma_canonical_append(word_chunk_40(), word_chunk_41());
    lemma_canonical_append(word_chunk_40() + word_chunk_41(), word_chunk_42());
    lemma_canonical_append(word_chunk_40() + word_chunk_41() + word_chunk_42(), word_chunk_43());
    lemma_canonical_append(word_chunk_40() + word_chunk_41() + word_chunk_42() + word_chunk_43(), word_chunk_44());
    lemma_canonical_append(word_chunk_40() + word_chunk_41() + word_chunk_42() + word_chunk_43() + word_chunk_44(), word_chunk_45());
    lemma_canonical_append(word_chunk_40() + word_chunk_41() + word_chunk_42() + word_chunk_43() + word_chunk_44() + word_chunk_45(), word_chunk_46());
    lemma_canonical_append(word_chunk_40() + word_chunk_41() + word_chunk_42() + word_chunk_43() + word_chunk_44() + word_chunk_45() + word_chunk_46(), word_chunk_47());
    lemma_canonical_append(word_chunk_40() + word_chunk_41() + word_chunk_42() + word_chunk_43() + word_chunk_44() + word_chunk_45() + word_chunk_46() + word_chunk_47(), word_chunk_48());
    lemma_canonical_append(word_chunk_40() + word_chunk_41() + word_chunk_42() + word_chunk_43() + word_chunk_44() + word_chunk_45() + word_chunk_46() + word_chunk_47() + word_chunk_48(), word_chunk_49());
}

proof fn lemma_word_block_5()
    ensures
        canonical(word_block_5()),
        word_block_5().len() > 0,
        word_block_5()[0] == word_chunk_50()[0],
        word_block_5().last() == word_chunk_59().last(),
{
    reveal_with_fuel(canonical, 9);
    assert(canonical(word_chunk_50()));
    assert(canonical(word_chunk_51()));
    assert(canonical(word_chunk_52()));
    assert(canonical(word_chunk_53()));
    assert(canonical(word_chunk_54()));
    assert(canonical(word_chunk_55()));
    assert(canonical(word_chunk_56()));
    assert(canonical(word_chunk_57()));
    assert(canonical(word_chunk_58()));
    assert(canonical(word_chunk_59()));
    lemma_canonical_append(word_chunk_50(), word_chunk_51());
    lemma_canonical_append(word_chunk_50() + word_chunk_51(), word_chunk_52());
    lemma_canonical_append(word_chunk_50() + word_chunk_51() + word_chunk_52(), word_chunk_53());
    lemma_canonical_append(word_chunk_50() + word_chunk_51() + word_chunk_52() + word_chunk_53(), word_chunk_54());
    lemma_canonical_append(word_chunk_50() + word_chunk_51() + word_chunk_52() + word_chunk_53() + word_chunk_54(), word_chunk_55());
    lemma_canonical_append(word_chunk_50() + word_chunk_51() + word_chunk_52() + word_chunk_53() + word_chunk_54() + word_chunk_55(), word_chunk_56());
    lemma_canonical_append(word_chunk_50() + word_chunk_51() + word_chunk_52() + word_chunk_53() + word_chunk_54() + word_chunk_55() + word_chunk_56(), word_chunk_57());
    lemma_canonical_append(word_chunk_50() + word_chunk_51() + word_chunk_52() + word_chunk_53() + word_chunk_54() + word_chunk_55() + word_chunk_56() + word_chunk_57(), word_chunk_58());
    lemma_canonical_append(word_chunk_50() + word_chunk_51() + word_chunk_52() + word_chunk_53() + word_chunk_54() + word_chunk_55() + word_chunk_56() + word_chunk_57() + word_chunk_58(), word_chunk_59());
}

proof fn lemma_word_block_6()
    ensures
        canonical(word_block_6()),
        word_block_6().len() > 0,
        word_block_6()[0] == word_chunk_60()[0],
        word_block_6().last() == word_chunk_69().last(),
{
    reveal_with_fuel(canonical, 9);
    assert(canonical(word_chunk_60()));
    assert(canonical(word_chunk_61()));
    assert(canonical(word_chunk_62()));
    assert(canonical(word_chunk_63()));
    assert(canonical(word_chunk_64()));
    assert(canonical(word_chunk_65()));
    assert(canonical(word_chunk_66()));
    assert(canonical(word_chunk_67()));
    assert(canonical(word_chunk_68()));
    assert(canonical(word_chunk_69()));
    lemma_canonical_append(word_chunk_60(), word_chunk_61());
    lemma_canonical_append(word_chunk_60() + word_chunk_61(), word_chunk_62());
    lemma_canonical_append(word_chunk_60() + word_chunk_61() + word_chunk_62(), word_chunk_63());
    lemma_canonical_append(word_chunk_60() + word_chunk_61() + word_chunk_62() + word_chunk_63(), word_chunk_64());
    lemma_canonical_append(word_chunk_60() + word_chunk_61() + word_chunk_62() + word_chunk_63() + word_chunk_64(), word_chunk_65());
    lemma_canonical_append(word_chunk_60() + word_chunk_61() + word_chunk_62() + word_chunk_63() + word_chunk_64() + word_chunk_65(), word_chunk_66());
    lemma_canonical_append(word_chunk_60() + word_chunk_61() + word_chunk_62() + word_chunk_63() + word_chunk_64() + word_chunk_65() + word_chunk_66(), word_chunk_67());
    lemma_canonical_append(word_chunk_60() + word_chunk_61() + word_chunk_62() + word_chunk_63() + word_chunk_64() + word_chunk_65() + word_chunk_66() + word_chunk_67(), word_chunk_68());
    lemma_canonical_append(word_chunk_60() + word_chunk_61() + word_chunk_62() + word_chunk_63() + word_chunk_64() + word_chunk_65() + word_chunk_66() + word_chunk_67() + word_chunk_68(), word_chunk_69());
}

proof fn lemma_word_block_7()
    ensures
        canonical(word_block_7()),
        word_block_7().len() > 0,
        word_block_7()[0] == word_chunk_70()[0],
        word_block_7().last() == word_chunk_79().last(),
{
    reveal_with_fuel(canonical, 9);
    assert(canonical(word_chunk_70()));
    assert(canonical(word_chunk_71()));
    assert(canonical(word_chunk_72()));
    assert(canonical(word_chunk_73()));
    assert(canonical(word_chunk_74()));
    assert(canonical(word_chunk_75()));
    assert(canonical(word_chunk_76()));
    assert(canonical(word_chunk_77()));
    assert(canonical(word_chunk_78()));
    assert(canonical(word_chunk_79()));
    lemma_canonical_append(word_chunk_70(), word_chunk_71());
    lemma_canonical_append(word_chunk_70() + word_chunk_71(), word_chunk_72());
    lemma_canonical_append(word_chunk_70() + word_chunk_71() + word_chunk_72(), word_chunk_73());
    lemma_canonical_append(word_chunk_70() + word_chunk_71() + word_chunk_72() + word_chunk_73(), word_chunk_74());
    lemma_canonical_append(word_chunk_70() + word_chunk_71() + word_chunk_72() + word_chunk_73() + word_chunk_74(), word_chunk_75());
    lemma_canonical_append(word_chunk_70() + word_chunk_71() + word_chunk_72() + word_chunk_73() + word_chunk_74() + word_chunk_75(), word_chunk_76());
    lemma_canonical_append(word_chunk_70() + word_chunk_71() + word_chunk_72() + word_chunk_73() + word_chunk_74() + word_chunk_75() + word_chunk_76(), word_chunk_77());
    lemma_canonical_append(word_chunk_70() + word_chunk_71() + word_chunk_72() + word_chunk_73() + word_chunk_74() + word_chunk_75() + word_chunk_76() + word_chunk_77(), word_chunk_78());
    lemma_canonical_append(word_chunk_70() + word_chunk_71() + word_chunk_72() + word_chunk_73() + word_chunk_74() + word_chunk_75() + word_chunk_76() + word_chunk_77() + word_chunk_78(), word_chunk_79());
}

proof fn lemma_word_block_8()
    ensures
        canonical(word_block_8()),
        word_block_8().len() > 0,
        word_block_8()[0] == word_chunk_80()[0],
        word_block_8().last() == word_chunk_89().last(),
{
    reveal_with_fuel(canonical, 9);
    assert(canonical(word_chunk_80()));
    assert(canonical(word_chunk_81()));
    assert(canonical(word_chunk_82()));
    assert(canonical(word_chunk_83()));
    assert(canonical(word_chunk_84()));
    assert(canonical(word_chunk_85()));
    assert(canonical(word_chunk_86()));
    assert(canonical(word_chunk_87()));
    assert(canonical(word_chunk_88()));
    assert(canonical(word_chunk_89()));
    lemma_canonical_append(word_chunk_80(), word_chunk_81());
    lemma_canonical_append(word_chunk_80() + word_chunk_81(), word_chunk_82());
    lemma_canonical_append(word_chunk_80() + word_chunk_81() + word_chunk_82(), word_chunk_83());
    lemma_canonical_append(word_chunk_80() + word_chunk_81() + word_chunk_82() + word_chunk_83(), word_chunk_84());
    lemma_canonical_append(word_chunk_80() + word_chunk_81() + word_chunk_82() + word_chunk_83() + word_chunk_84(), word_chunk_85());
    lemma_canonical_append(word_chunk_80() + word_chunk_81() + word_chunk_82() + word_chunk_83() + word_chunk_84() + word_chunk_85(), word_chunk_86());
    lemma_canonical_append(word_chunk_80() + word_chunk_81() + word_chunk_82() + word_chunk_83() + word_chunk_84() + word_chunk_85() + word_chunk_86(), word_chunk_87());
    lemma_canonical_append(word_chunk_80() + word_chunk_81() + word_chunk_82() + word_chunk_83() + word_chunk_84() + word_chunk_85() + word_chunk_86() + word_chunk_87(), word_chunk_88());
    lemma_canonical_append(word_chunk_80() + word_chunk_81() + word_chunk_82() + word_chunk_83() + word_chunk_84() + word_chunk_85() + word_chunk_86() + word_chunk_87() + word_chunk_88(), word_chunk_89());
}

proof fn lemma_word_block_9()
    ensures
        canonical(word_block_9()),
        word_block_9().len() > 0,
        word_block_9()[0] == word_chunk_90()[0],
        word_block_9().last() == word_chunk_99().last(),
{
    reveal_with_fuel(canonical, 9);
    assert(canonical(word_chunk_90()));
    assert(canonical(word_chunk_91()));
    assert(canonical(word_chunk_92()));
    assert(canonical(word_chunk_93()));
    assert(canonical(word_chunk_94()));
    assert(canonical(word_chunk_95()));
    assert(canonical(word_chunk_96()));
    assert(canonical(word_chunk_97()));
    assert(canonical(word_chunk_98()));
    assert(canonical(word_chunk_99()));
    lemma_canonical_append(word_chunk_90(), word_chunk_91());
    lemma_canonical_append(word_chunk_90() + word_chunk_91(), word_chunk_92());
    lemma_canonical_append(word_chunk_90() + word_chunk_91() + word_chunk_92(), word_chunk_93());
    lemma_canonical_append(word_chunk_90() + word_chunk_91() + word_chunk_92() + word_chunk_93(), word_chunk_94());
    lemma_canonical_append(word_chunk_90() + word_chunk_91() + word_chunk_92() + word_chunk_93() + word_chunk_94(), word_chunk_95());
    lemma_canonical_append(word_chunk_90() + word_chunk_91() + word_chunk_92() + word_chunk_93() + word_chunk_94() + word_chunk_95(), word_chunk_96());
    lemma_canonical_append(word_chunk_90() + word_chunk_91() + word_chunk_92() + word_chunk_93() + word_chunk_94() + word_chunk_95() + word_chunk_96(), word_chunk_97());
    lemma_canonical_append(word_chunk_90() + word_chunk_91() + word_chunk_92() + word_chunk_93() + word_chunk_94() + word_chunk_95() + word_chunk_96() + word_chunk_97(), word_chunk_98());
    lemma_canonical_append(word_chunk_90() + word_chunk_91() + word_chunk_92() + word_chunk_93() + word_chunk_94() + word_chunk_95() + word_chunk_96() + word_chunk_97() + word_chunk_98(), word_chunk_99());
}

/// The word characters make a canonical class.
pub proof fn lemma_word_canonical()
    ensures
        canonical(word_ranges()),
{
    lemma_word_block_0();
    lemma_word_block_1();
    lemma_word_block_2();
    lemma_word_block_3();
    lemma_word_block_4();
    lemma_word_block_5();
    lemma_word_block_6();
    lemma_word_block_7();
    lemma_word_block_8();
    lemma_word_block_9();
    lemma_canonical_append(word_block_0(), word_block_1());
    lemma_canonical_append(word_block_0() + word_block_1(), word_block_2());
    lemma_canonical_append(word_block_0() + word_block_1() + word_block_2(), word_block_3());
    lemma_canonical_append(word_block_0() + word_block_1() + word_block_2() + word_block_3(), word_block_4());
    lemma_canonical_append(word_block_0() + word_block_1() + word_block_2() + word_block_3() + word_block_4(), word_block_5());
    lemma_canonical_append(word_block_0() + word_block_1() + word_block_2() + word_block_3() + word_block_4() + word_block_5(), word_block_6());
    lemma_canonical_append(word_block_0() + word_block_1() + word_block_2() + word_block_3() + word_block_4() + word_block_5() + word_block_6(), word_block_7());
    lemma_canonical_append(word_block_0() + word_block_1() + word_block_2() + word_block_3() + word_block_4() + word_block_5() + word_block_6() + word_block_7(), word_block_8());
    lemma_canonical_append(word_block_0() + word_block_1() + word_block_2() + word_block_3() + word_block_4() + word_block_5() + word_block_6() + word_block_7() + word_block_8(), word_block_9());
}

fn push_range(v: &mut Vec<ClassUnicodeRange>, a: char, b: char)
    ensures
        rview(final(v)@) == rview(old(v)@).push((a as int, b as int)),
{
    let r = ClassUnicodeRange { start: a, end: b };
    proof {
        lemma_rview_push(v@, r);
    }
    v.push(r);
}

fn push_word_chunk_0(v: &mut Vec<ClassUnicodeRange>)
    ensures
        rview(final(v)@) == rview(old(v)@) + word_chunk_0(),
{
    let ghost o = rview(v@);
    push_range(v, '\u{30}', '\u{39}');
    push_range(v, '\u{41}', '\u{5A}');
    push_range(v, '\u{5F}', '\u{5F}');
    push_range(v, '\u{61}', '\u{7A}');
    push_range(v, '\u{AA}', '\u{AA}');
    push_range(v, '\u{B5}', '\u{B5}');
    push_range(v, '\u{BA}', '\u{BA}');
    push_range(v, '\u{C0}', '\u{D6}');
    assert(rview(v@) =~= o + word_chunk_0());
}

fn push_word_chunk_1(v: &mut Vec<ClassUnicodeRange>)
    ensures
        rview(final(v)@) == rview(old(v)@) + word_chunk_1(),
{
    let ghost o = rview(v@);
    push_range(v, '\u{D8}', '\u{F6}');
    push_range(v, '\u{F8}', '\u{2C1}');
    push_range(v, '\u{2C6}', '\u{2D1}');
    push_range(v, '\u{2E0}', '\u{2E4}');
    push_range(v, '\u{2EC}', '\u{2EC}');
    push_range(v, '\u{2EE}', '\u{2EE}');
    push_range(v, '\u{300}', '\u{374}');
    push_range(v, '\u{376}', '\u{377}');
    assert(rview(v@) =~= o + word_chunk_1());
}

fn push_word_chunk_2(v: &mut Vec<ClassUnicodeRange>)
    ensures
        rview(final(v)@) == rview(old(v)@) + word_chunk_2(),
{
    let ghost o = rview(v@);
    push_range(v, '\u{37A}', '\u{37D}');
    push_range(v, '\u{37F}', '\u{37F}');
    push_range(v, '\u{386}', '\u{386}');
    push_range(v, '\u{388}', '\u{38A}');
    push_range(v, '\u{38C}', '\u{38C}');
    push_range(v, '\u{38E}', '\u{3A1}');
    push_range(v, '\u{3A3}', '\u{3F5}');
    push_range(v, '\u{3F7}', '\u{481}');
    assert(rview(v@) =~= o + word_chunk_2());
}

fn push_word_chunk_3(v: &mut Vec<ClassUnicodeRange>)
    ensures
        rview(final(v)@) == rview(old(v)@) + word_chunk_3(),
{
    let ghost o = rview(v@);
    push_range(v, '\u{483}', '\u{52F}');
    push_range(v, '\u{531}', '\u{556}');
    push_range(v, '\u{559}', '\u{559}');
    push_range(v, '\u{560}', '\u{588}');
    push_range(v, '\u{591}', '\u{5BD}');
    push_range(v, '\u{5BF}', '\u{5BF}');
    push_range(v, '\u{5C1}', '\u{5C2}');
    push_range(v, '\u{5C4}', '\u{5C5}');
    assert(rview(v@) =~= o + word_chunk_3());
}

fn push_word_chunk_4(v: &mut Vec<ClassUnicodeRange>)
    ensures
        rview(final(v)@) == rview(old(v)@) + word_chunk_4(),
{
    let ghost o = rview(v@);
    push_range(v, '\u{5C7}', '\u{5C7}');
    push_range(v, '\u{5D0}', '\u{5EA}');
    push_range(v, '\u{5EF}', '\u{5F2}');
    push_range(v, '\u{610}', '\u{61A}');
    push_range(v, '\u{620}', '\u{669}');
    push_range(v, '\u{66E}', '\u{6D3}');
    push_range(v, '\u{6D5}', '\u{6DC}');
    push_range(v, '\u{6DF}', '\u{6E8}');
    assert(rview(v@) =~= o + word_chunk_4());
}

fn push_word_chunk_5(v: &mut Vec<ClassUnicodeRange>)
    ensures
        rview(final(v)@) == rview(old(v)@) + word_chunk_5(),
{
    let ghost o = rview(v@);
    push_range(v, '\u{6EA}', '\u{6FC}');
    push_range(v, '\u{6FF}', '\u{6FF}');
    push_range(v, '\u{710}', '\u{74A}');
    push_range(v, '\u{74D}', '\u{7B1}');
    push_range(v, '\u{7C0}', '\u{7F5}');
    push_range(v, '\u{7FA}', '\u{7FA}');
    push_range(v, '\u{7FD}', '\u{7FD}');
    push_range(v, '\u{800}', '\u{82D}');
    assert(rview(v@) =~= o + word_chunk_5());
}

fn push_word_chunk_6(v: &mut Vec<ClassUnicodeRange>)
    ensures
        rview(final(v)@) == rview(old(v)@) + word_chunk_6(),
{
    let ghost o = rview(v@);
    push_range(v, '\u{840}', '\u{85B}');
    push_range(v, '\u{860}', '\u{86A}');
    push_range(v, '\u{870}', '\u{887}');
    push_range(v, '\u{889}', '\u{88E}');
    push_range(v, '\u{897}', '\u{8E1}');
    push_range(v, '\u{8E3}', '\u{963}');
    push_range(v, '\u{966}', '\u{96F}');
    push_range(v, '\u{971}', '\u{983}');
    assert(rview(v@) =~= o + word_chunk_6());
}

fn push_word_chunk_7(v: &mut Vec<ClassUnicodeRange>)
    ensures
        rview(final(v)@) == rview(old(v)@) + word_chunk_7(),
{
    let ghost o = rview(v@);
    push_range(v, '\u{985}', '\u{98C}');
    push_range(v, '\u{98F}', '\u{990}');
    push_range(v, '\u{993}', '\u{9A8}');
    push_range(v, '\u{9AA}', '\u{9B0}');
    push_range(v, '\u{9B2}', '\u{9B2}');
    push_range(v, '\u{9B6}', '\u{9B9}');
    push_range(v, '\u{9BC}', '\u{9C4}');
    push_range(v, '\u{9C7}', '\u{9C8}');
    assert(rview(v@) =~= o + word_chunk_7());
}

fn push_word_chunk_8(v: &mut Vec<ClassUnicodeRange>)
    ensures
        rview(final(v)@) == rview(old(v)@) + word_chunk_8(),
{
    let ghost o = rview(v@);
    push_range(v, '\u{9CB}', '\u{9CE}');
    push_range(v, '\u{9D7}', '\u{9D7}');
    push_range(v, '\u{9DC}', '\u{9DD}');
    push_range(v, '\u{9DF}', '\u{9E3}');
    push_range(v, '\u{9E6}', '\u{9F1}');
    push_range(v, '\u{9FC}', '\u{9FC}');
    push_range(v, '\u{9FE}', '\u{9FE}');
    push_range(v, '\u{A01}', '\u{A03}');
    assert(rview(v@) =~= o + word_chunk_8());
}

fn push_word_chunk_9(v: &mut Vec<ClassUnicodeRange>)
    ensures
        rview(final(v)@) == rview(old(v)@) + word_chunk_9(),
{
    let ghost o = rview(v@);
    push_range(v, '\u{A05}', '\u{A0A}');
    push_range(v, '\u{A0F}', '\u{A10}');
    push_range(v, '\u{A13}', '\u{A28}');
    push_range(v, '\u{A2A}', '\u{A30}');
    push_range(v, '\u{A32}', '\u{A33}');
    push_range(v, '\u{A35}', '\u{A36}');
    push_range(v, '\u{A38}', '\u{A39}');
    push_range(v, '\u{A3C}', '\u{A3C}');
    assert(rview(v@) =~= o + word_chunk_9());
}

fn push_word_chunk_10(v: &mut Vec<ClassUnicodeRange>)
    ensures
        rview(final(v)@) == rview(old(v)@) + word_chunk_10(),
{
    let ghost o = rview(v@);
    push_range(v, '\u{A3E}', '\u{A42}');
    push_range(v, '\u{A47}', '\u{A48}');
    push_range(v, '\u{A4B}', '\u{A4D}');
    push_range(v, '\u{A51}', '\u{A51}');
    push_range(v, '\u{A59}', '\u{A5C}');
    push_range(v, '\u{A5E}', '\u{A5E}');
    push_range(v, '\u{A66}', '\u{A75}');
    push_range(v, '\u{A81}', '\u{A83}');
    assert(rview(v@) =~= o + word_chunk_10());
}

fn push_word_chunk_11(v: &mut Vec<ClassUnicodeRange>)
    ensures
        rview(final(v)@) == rview(old(v)@) + word_chunk_11(),
{
    let ghost o = rview(v@);
    push_range(v, '\u{A85}', '\u{A8D}');
    push_range(v, '\u{A8F}', '\u{A91}');
    push_range(v, '\u{A93}', '\u{AA8}');
    push_range(v, '\u{AAA}', '\u{AB0}');
    push_range(v, '\u{AB2}', '\u{AB3}');
    push_range(v, '\u{AB5}', '\u{AB9}');
    push_range(v, '\u{ABC}', '\u{AC5}');
    push_range(v, '\u{AC7}', '\u{AC9}');
    assert(rview(v@) =~= o + word_chunk_11());
}

fn push_word_chunk_12(v: &mut Vec<ClassUnicodeRange>)
    ensures
        rview(final(v)@) == rview(old(v)@) + word_chunk_12(),
{
    let ghost o = rview(v@);
    push_range(v, '\u{ACB}', '\u{ACD}');
    push_range(v, '\u{AD0}', '\u{AD0}');
    push_range(v, '\u{AE0}', '\u{AE3}');
    push_range(v, '\u{AE6}', '\u{AEF}');
    push_range(v, '\u{AF9}', '\u{AFF}');
    push_range(v, '\u{B01}', '\u{B03}');
    push_range(v, '\u{B05}', '\u{B0C}');
    push_range(v, '\u{B0F}', '\u{B10}');
    assert(rview(v@) =~= o + word_chunk_12());
}

fn push_word_chunk_13(v: &mut Vec<ClassUnicodeRange>)
    ensures
        rview(final(v)@) == rview(old(v)@) + word_chunk_13(),
{
    let ghost o = rview(v@);
    push_range(v, '\u{B13}', '\u{B28}');
    push_range(v, '\u{B2A}', '\u{B30}');
    push_range(v, '\u{B32}', '\u{B33}');
    push_range(v, '\u{B35}', '\u{B39}');
    push_range(v, '\u{B3C}', '\u{B44}');
    push_range(v, '\u{B47}', '\u{B48}');
    push_range(v, '\u{B4B}', '\u{B4D}');
    push_range(v, '\u{B55}', '\u{B57}');
    assert(rview(v@) =~= o + word_chunk_13());
}

fn push_word_chunk_14(v: &mut Vec<ClassUnicodeRange>)
    ensures
        rview(final(v)@) == rview(old(v)@) + word_chunk_14(),
{
    let ghost o = rview(v@);
    push_range(v, '\u{B5C}', '\u{B5D}');
    push_range(v, '\u{B5F}', '\u{B63}');
    push_range(v, '\u{B66}', '\u{B6F}');
    push_range(v, '\u{B71}', '\u{B71}');
    push_range(v, '\u{B82}', '\u{B83}');
    push_range(v, '\u{B85}', '\u{B8A}');
    push_range(v, '\u{B8E}', '\u{B90}');
    push_range(v, '\u{B92}', '\u{B95}');
    assert(rview(v@) =~= o + word_chunk_14());
}

fn push_word_chunk_15(v: &mut Vec<ClassUnicodeRange>)
    ensures
        rview(final(v)@) == rview(old(v)@) + word_chunk_15(),
{
    let ghost o = rview(v@);
    push_range(v, '\u{B99}', '\u{B9A}');
    push_range(v, '\u{B9C}', '\u{B9C}');
    push_range(v, '\u{B9E}', '\u{B9F}');
    push_range(v, '\u{BA3}', '\u{BA4}');
    push_range(v, '\u{BA8}', '\u{BAA}');
    push_range(v, '\u{BAE}', '\u{BB9}');
    push_range(v, '\u{BBE}', '\u{BC2}');
    push_range(v, '\u{BC6}', '\u{BC8}');
    assert(rview(v@) =~= o + word_chunk_15());
}

fn push_word_chunk_16(v: &mut Vec<ClassUnicodeRange>)
    ensures
        rview(final(v)@) == rview(old(v)@) + word_chunk_16(),
{
    let ghost o = rview(v@);
    push_range(v, '\u{BCA}', '\u{BCD}');
    push_range(v, '\u{BD0}', '\u{BD0}');
    push_range(v, '\u{BD7}', '\u{BD7}');
    push_range(v, '\u{BE6}', '\u{BEF}');
    push_range(v, '\u{C00}', '\u{C0C}');
    push_range(v, '\u{C0E}', '\u{C10}');
    push_range(v, '\u{C12}', '\u{C28}');
    push_range(v, '\u{C2A}', '\u{C39}');
    assert(rview(v@) =~= o + word_chunk_16());
}

fn push_word_chunk_17(v: &mut Vec<ClassUnicodeRange>)
    ensures
        rview(final(v)@) == rview(old(v)@) + word_chunk_17(),
{
    let ghost o = rview(v@);
    push_range(v, '\u{C3C}', '\u{C44}');
    push_range(v, '\u{C46}', '\u{C48}');
    push_range(v, '\u{C4A}', '\u{C4D}');
    push_range(v, '\u{C55}', '\u{C56}');
    push_range(v, '\u{C58}', '\u{C5A}');
    push_range(v, '\u{C5D}', '\u{C5D}');
    push_range(v, '\u{C60}', '\u{C63}');
    push_range(v, '\u{C66}', '\u{C6F}');
    assert(rview(v@) =~= o + word_chunk_17());
}

fn push_word_chunk_18(v: &mut Vec<ClassUnicodeRange>)
    ensures
        rview(final(v)@) == rview(old(v)@) + word_chunk_18(),
{
    let ghost o = rview(v@);
    push_range(v, '\u{C80}', '\u{C83}');
    push_range(v, '\u{C85}', '\u{C8C}');
    push_range(v, '\u{C8E}', '\u{C90}');
    push_range(v, '\u{C92}', '\u{CA8}');
    push_range(v, '\u{CAA}', '\u{CB3}');
    push_range(v, '\u{CB5}', '\u{CB9}');
    push_range(v, '\u{CBC}', '\u{CC4}');
    push_range(v, '\u{CC6}', '\u{CC8}');
    assert(rview(v@) =~= o + word_chunk_18());
}

fn push_word_chunk_19(v: &mut Vec<ClassUnicodeRange>)
    ensures
        rview(final(v)@) == rview(old(v)@) + word_chunk_19(),
{
    let ghost o = rview(v@);
    push_range(v, '\u{CCA}', '\u{CCD}');
    push_range(v, '\u{CD5}', '\u{CD6}');
    push_range(v, '\u{CDD}', '\u{CDE}');
    push_range(v, '\u{CE0}', '\u{CE3}');
    push_range(v, '\u{CE6}', '\u{CEF}');
    push_range(v, '\u{CF1}', '\u{CF3}');
    push_range(v, '\u{D00}', '\u{D0C}');
    push_range(v, '\u{D0E}', '\u{D10}');
    assert(rview(v@) =~= o + word_chunk_19());
}

fn push_word_chunk_20(v: &mut Vec<ClassUnicodeRange>)
    ensures
        rview(final(v)@) == rview(old(v)@) + word_chunk_20(),
{
    let ghost o = rview(v@);
    push_range(v, '\u{D12}', '\u{D44}');
    push_range(v, '\u{D46}', '\u{D48}');
    push_range(v, '\u{D4A}', '\u{D4E}');
    push_range(v, '\u{D54}', '\u{D57}');
    push_range(v, '\u{D5F}', '\u{D63}');
    push_range(v, '\u{D66}', '\u{D6F}');
    push_range(v, '\u{D7A}', '\u{D7F}');
    push_range(v, '\u{D81}', '\u{D83}');
    assert(rview(v@) =~= o + word_chunk_20());
}

fn push_word_chunk_21(v: &mut Vec<ClassUnicodeRange>)
    ensures
        rview(final(v)@) == rview(old(v)@) + word_chunk_21(),
{
    let ghost o = rview(v@);
    push_range(v, '\u{D85}', '\u{D96}');
    push_range(v, '\u{D9A}', '\u{DB1}');
    push_range(v, '\u{DB3}', '\u{DBB}');
    push_range(v, '\u{DBD}', '\u{DBD}');
    push_range(v, '\u{DC0}', '\u{DC6}');
    push_range(v, '\u{DCA}', '\u{DCA}');
    push_range(v, '\u{DCF}', '\u{DD4}');
    push_range(v, '\u{DD6}', '\u{DD6}');
    assert(rview(v@) =~= o + word_chunk_21());
}

fn push_word_chunk_22(v: &mut Vec<ClassUnicodeRange>)
    ensures
        rview(final(v)@) == rview(old(v)@) + word_chunk_22(),
{
    let ghost o = rview(v@);
    push_range(v, '\u{DD8}', '\u{DDF}');
    push_range(v, '\u{DE6}', '\u{DEF}');
    push_range(v, '\u{DF2}', '\u{DF3}');
    push_range(v, '\u{E01}', '\u{E3A}');
    push_range(v, '\u{E40}', '\u{E4E}');
    push_range(v, '\u{E50}', '\u{E59}');
    push_range(v, '\u{E81}', '\u{E82}');
    push_range(v, '\u{E84}', '\u{E84}');
    assert(rview(v@) =~= o + word_chunk_22());
}

fn push_word_chunk_23(v: &mut Vec<ClassUnicodeRange>)
    ensures
        rview(final(v)@) == rview(old(v)@) + word_chunk_23(),
{
    let ghost o = rview(v@);
    push_range(v, '\u{E86}', '\u{E8A}');
    push_range(v, '\u{E8C}', '\u{EA3}');
    push_range(v, '\u{EA5}', '\u{EA5}');
    push_range(v, '\u{EA7}', '\u{EBD}');
    push_range(v, '\u{EC0}', '\u{EC4}');
    push_range(v, '\u{EC6}', '\u{EC6}');
    push_range(v, '\u{EC8}', '\u{ECE}');
    push_range(v, '\u{ED0}', '\u{ED9}');
    assert(rview(v@) =~= o + word_chunk_23());
}

fn push_word_chunk_24(v: &mut Vec<ClassUnicodeRange>)
    ensures
        rview(final(v)@) == rview(old(v)@) + word_chunk_24(),
{
    let ghost o = rview(v@);
    push_range(v, '\u{EDC}', '\u{EDF}');
    push_range(v, '\u{F00}', '\u{F00}');
    push_range(v, '\u{F18}', '\u{F19}');
    push_range(v, '\u{F20}', '\u{F29}');
    push_range(v, '\u{F35}', '\u{F35}');
    push_range(v, '\u{F37}', '\u{F37}');
    push_range(v, '\u{F39}', '\u{F39}');
    push_range(v, '\u{F3E}', '\u{F47}');
    assert(rview(v@) =~= o + word_chunk_24());
}

fn push_word_chunk_25(v: &mut Vec<ClassUnicodeRange>)
    ensures
        rview(final(v)@) == rview(old(v)@) + word_chunk_25(),
{
    let ghost o = rview(v@);
    push_range(v, '\u{F49}', '\u{F6C}');
    push_range(v, '\u{F71}', '\u{F84}');
    push_range(v, '\u{F86}', '\u{F97}');
    push_range(v, '\u{F99}', '\u{FBC}');
    push_range(v, '\u{FC6}', '\u{FC6}');
    push_range(v, '\u{1000}', '\u{1049}');
    push_range(v, '\u{1050}', '\u{109D}');
    push_range(v, '\u{10A0}', '\u{10C5}');
    assert(rview(v@) =~= o + word_chunk_25());
}

fn push_word_chunk_26(v: &mut Vec<ClassUnicodeRange>)
    ensures
        rview(final(v)@) == rview(old(v)@) + word_chunk_26(),
{
    let ghost o = rview(v@);
    push_range(v, '\u{10C7}', '\u{10C7}');
    push_range(v, '\u{10CD}', '\u{10CD}');
    push_range(v, '\u{10D0}', '\u{10FA}');
    push_range(v, '\u{10FC}', '\u{1248}');
    push_range(v, '\u{124A}', '\u{124D}');
    push_range(v, '\u{1250}', '\u{1256}');
    push_range(v, '\u{1258}', '\u{1258}');
    push_range(v, '\u{125A}', '\u{125D}');
    assert(rview(v@) =~= o + word_chunk_26());
}

fn push_word_chunk_27(v: &mut Vec<ClassUnicodeRange>)
    ensures
        rview(final(v)@) == rview(old(v)@) + word_chunk_27(),
{
    let ghost o = rview(v@);
    push_range(v, '\u{1260}', '\u{1288}');
    push_range(v, '\u{128A}', '\u{128D}');
    push_range(v, '\u{1290}', '\u{12B0}');
    push_range(v, '\u{12B2}', '\u{12B5}');
    push_range(v, '\u{12B8}', '\u{12BE}');
    push_range(v, '\u{12C0}', '\u{12C0}');
    push_range(v, '\u{12C2}', '\u{12C5}');
    push_range(v, '\u{12C8}', '\u{12D6}');
    assert(rview(v@) =~= o + word_chunk_27());
}

fn push_word_chunk_28(v: &mut Vec<ClassUnicodeRange>)
    ensures
        rview(final(v)@) == rview(old(v)@) + word_chunk_28(),
{
    let ghost o = rview(v@);
    push_range(v, '\u{12D8}', '\u{1310}');
    push_range(v, '\u{1312}', '\u{1315}');
    push_range(v, '\u{1318}', '\u{135A}');
    push_range(v, '\u{135D}', '\u{135F}');
    push_range(v, '\u{1380}', '\u{138F}');
    push_range(v, '\u{13A0}', '\u{13F5}');
    push_range(v, '\u{13F8}', '\u{13FD}');
    push_range(v, '\u{1401}', '\u{166C}');
    assert(rview(v@) =~= o + word_chunk_28());
}

fn push_word_chunk_29(v: &mut Vec<ClassUnicodeRange>)
    ensures
        rview(final(v)@) == rview(old(v)@) + word_chunk_29(),
{
    let ghost o = rview(v@);
    push_range(v, '\u{166F}', '\u{167F}');
    push_range(v, '\u{1681}', '\u{169A}');
    push_range(v, '\u{16A0}', '\u{16EA}');
    push_range(v, '\u{16EE}', '\u{16F8}');
    push_range(v, '\u{1700}', '\u{1715}');
    push_range(v, '\u{171F}', '\u{1734}');
    push_range(v, '\u{1740}', '\u{1753}');
    push_range(v, '\u{1760}', '\u{176C}');
    assert(rview(v@) =~= o + word_chunk_29());
}

fn push_word_chunk_30(v: &mut Vec<ClassUnicodeRange>)
    ensures
        rview(final(v)@) == rview(old(v)@) + word_chunk_30(),
{
    let ghost o = rview(v@);
    push_range(v, '\u{176E}', '\u{1770}');
    push_range(v, '\u{1772}', '\u{1773}');
    push_range(v, '\u{1780}', '\u{17D3}');
    push_range(v, '\u{17D7}', '\u{17D7}');
    push_range(v, '\u{17DC}', '\u{17DD}');
    push_range(v, '\u{17E0}', '\u{17E9}');
    push_range(v, '\u{180B}', '\u{180D}');
    push_range(v, '\u{180F}', '\u{1819}');
    assert(rview(v@) =~= o + word_chunk_30());
}

fn push_word_chunk_31(v: &mut Vec<ClassUnicodeRange>)
    ensures
        rview(final(v)@) == rview(old(v)@) + word_chunk_31(),
{
    let ghost o = rview(v@);
    push_range(v, '\u{1820}', '\u{1878}');
    push_range(v, '\u{1880}', '\u{18AA}');
    push_range(v, '\u{18B0}', '\u{18F5}');
    push_range(v, '\u{1900}', '\u{191E}');
    push_range(v, '\u{1920}', '\u{192B}');
    push_range(v, '\u{1930}', '\u{193B}');
    push_range(v, '\u{1946}', '\u{196D}');
    push_range(v, '\u{1970}', '\u{1974}');
    assert(rview(v@) =~= o + word_chunk_31());
}

fn push_word_chunk_32(v: &mut Vec<ClassUnicodeRange>)
    ensures
        rview(final(v)@) == rview(old(v)@) + word_chunk_32(),
{
    let ghost o = rview(v@);
    push_range(v, '\u{1980}', '\u{19AB}');
    push_range(v, '\u{19B0}', '\u{19C9}');
    push_range(v, '\u{19D0}', '\u{19D9}');
    push_range(v, '\u{1A00}', '\u{1A1B}');
    push_range(v, '\u{1A20}', '\u{1A5E}');
    push_range(v, '\u{1A60}', '\u{1A7C}');
    push_range(v, '\u{1A7F}', '\u{1A89}');
    push_range(v, '\u{1A90}', '\u{1A99}');
    assert(rview(v@) =~= o + word_chunk_32());
}

fn push_word_chunk_33(v: &mut Vec<ClassUnicodeRange>)
    ensures
        rview(final(v)@) == rview(old(v)@) + word_chunk_33(),
{
    let ghost o = rview(v@);
    push_range(v, '\u{1AA7}', '\u{1AA7}');
    push_range(v, '\u{1AB0}', '\u{1ACE}');
    push_range(v, '\u{1B00}', '\u{1B4C}');
    push_range(v, '\u{1B50}', '\u{1B59}');
    push_range(v, '\u{1B6B}', '\u{1B73}');
    push_range(v, '\u{1B80}', '\u{1BF3}');
    push_range(v, '\u{1C00}', '\u{1C37}');
    push_range(v, '\u{1C40}', '\u{1C49}');
    assert(rview(v@) =~= o + word_chunk_33());
}

fn push_word_chunk_34(v: &mut Vec<ClassUnicodeRange>)
    ensures
        rview(final(v)@) == rview(old(v)@) + word_chunk_34(),
{
    let ghost o = rview(v@);
    push_range(v, '\u{1C4D}', '\u{1C7D}');
    push_range(v, '\u{1C80}', '\u{1C8A}');
    push_range(v, '\u{1C90}', '\u{1CBA}');
    push_range(v, '\u{1CBD}', '\u{1CBF}');
    push_range(v, '\u{1CD0}', '\u{1CD2}');
    push_range(v, '\u{1CD4}', '\u{1CFA}');
    push_range(v, '\u{1D00}', '\u{1F15}');
    push_range(v, '\u{1F18}', '\u{1F1D}');
    assert(rview(v@) =~= o + word_chunk_34());
}

fn push_word_chunk_35(v: &mut Vec<ClassUnicodeRange>)
    ensures
        rview(final(v)@) == rview(old(v)@) + word_chunk_35(),
{
    let ghost o = rview(v@);
    push_range(v, '\u{1F20}', '\u{1F45}');
    push_range(v, '\u{1F48}', '\u{1F4D}');
    push_range(v, '\u{1F50}', '\u{1F57}');
    push_range(v, '\u{1F59}', '\u{1F59}');
    push_range(v, '\u{1F5B}', '\u{1F5B}');
    push_range(v, '\u{1F5D}', '\u{1F5D}');
    push_range(v, '\u{1F5F}', '\u{1F7D}');
    push_range(v, '\u{1F80}', '\u{1FB4}');
    assert(rview(v@) =~= o + word_chunk_35());
}

fn push_word_chunk_36(v: &mut Vec<ClassUnicodeRange>)
    ensures
        rview(final(v)@) == rview(old(v)@) + word_chunk_36(),
{
    let ghost o = rview(v@);
    push_range(v, '\u{1FB6}', '\u{1FBC}');
    push_range(v, '\u{1FBE}', '\u{1FBE}');
    push_range(v, '\u{1FC2}', '\u{1FC4}');
    push_range(v, '\u{1FC6}', '\u{1FCC}');
    push_range(v, '\u{1FD0}', '\u{1FD3}');
    push_range(v, '\u{1FD6}', '\u{1FDB}');
    push_range(v, '\u{1FE0}', '\u{1FEC}');
    push_range(v, '\u{1FF2}', '\u{1FF4}');
    assert(rview(v@) =~= o + word_chunk_36());
}

fn push_word_chunk_37(v: &mut Vec<ClassUnicodeRange>)
    ensures
        rview(final(v)@) == rview(old(v)@) + word_chunk_37(),
{
    let ghost o = rview(v@);
    push_range(v, '\u{1FF6}', '\u{1FFC}');
    push_range(v, '\u{200C}', '\u{200D}');
    push_range(v, '\u{203F}', '\u{2040}');
    push_range(v, '\u{2054}', '\u{2054}');
    push_range(v, '\u{2071}', '\u{2071}');
    push_range(v, '\u{207F}', '\u{207F}');
    push_range(v, '\u{2090}', '\u{209C}');
    push_range(v, '\u{20D0}', '\u{20F0}');
    assert(rview(v@) =~= o + word_chunk_37());
}

fn push_word_chunk_38(v: &mut Vec<ClassUnicodeRange>)
    ensures
        rview(final(v)@) == rview(old(v)@) + word_chunk_38(),
{
    let ghost o = rview(v@);
    push_range(v, '\u{2102}', '\u{2102}');
    push_range(v, '\u{2107}', '\u{2107}');
    push_range(v, '\u{210A}', '\u{2113}');
    push_range(v, '\u{2115}', '\u{2115}');
    push_range(v, '\u{2119}', '\u{211D}');
    push_range(v, '\u{2124}', '\u{2124}');
    push_range(v, '\u{2126}', '\u{2126}');
    push_range(v, '\u{2128}', '\u{2128}');
    assert(rview(v@) =~= o + word_chunk_38());
}

fn push_word_chunk_39(v: &mut Vec<ClassUnicodeRange>)
    ensures
        rview(final(v)@) == rview(old(v)@) + word_chunk_39(),
{
    let ghost o = rview(v@);
    push_range(v, '\u{212A}', '\u{212D}');
    push_range(v, '\u{212F}', '\u{2139}');
    push_range(v, '\u{213C}', '\u{213F}');
    push_range(v, '\u{2145}', '\u{2149}');
    push_range(v, '\u{214E}', '\u{214E}');
    push_range(v, '\u{2160}', '\u{2188}');
    push_range(v, '\u{24B6}', '\u{24E9}');
    push_range(v, '\u{2C00}', '\u{2CE4}');
    assert(rview(v@) =~= o + word_chunk_39());
}

fn push_word_chunk_40(v: &mut Vec<ClassUnicodeRange>)
    ensures
        rview(final(v)@) == rview(old(v)@) + word_chunk_40(),
{
    let ghost o = rview(v@);
    push_range(v, '\u{2CEB}', '\u{2CF3}');
    push_range(v, '\u{2D00}', '\u{2D25}');
    push_range(v, '\u{2D27}', '\u{2D27}');
    push_range(v, '\u{2D2D}', '\u{2D2D}');
    push_range(v, '\u{2D30}', '\u{2D67}');
    push_range(v, '\u{2D6F}', '\u{2D6F}');
    push_range(v, '\u{2D7F}', '\u{2D96}');
    push_range(v, '\u{2DA0}', '\u{2DA6}');
    assert(rview(v@) =~= o + word_chunk_40());
}

fn push_word_chunk_41(v: &mut Vec<ClassUnicodeRange>)
    ensures
        rview(final(v)@) == rview(old(v)@) + word_chunk_41(),
{
    let ghost o = rview(v@);
    push_range(v, '\u{2DA8}', '\u{2DAE}');
    push_range(v, '\u{2DB0}', '\u{2DB6}');
    push_range(v, '\u{2DB8}', '\u{2DBE}');
    push_range(v, '\u{2DC0}', '\u{2DC6}');
    push_range(v, '\u{2DC8}', '\u{2DCE}');
    push_range(v, '\u{2DD0}', '\u{2DD6}');
    push_range(v, '\u{2DD8}', '\u{2DDE}');
    push_range(v, '\u{2DE0}', '\u{2DFF}');
    assert(rview(v@) =~= o + word_chunk_41());
}

fn push_word_chunk_42(v: &mut Vec<ClassUnicodeRange>)
    ensures
        rview(final(v)@) == rview(old(v)@) + word_chunk_42(),
{
    let ghost o = rview(v@);
    push_range(v, '\u{2E2F}', '\u{2E2F}');
    push_range(v, '\u{3005}', '\u{3007}');
    push_range(v, '\u{3021}', '\u{302F}');
    push_range(v, '\u{3031}', '\u{3035}');
    push_range(v, '\u{3038}', '\u{303C}');
    push_range(v, '\u{3041}', '\u{3096}');
    push_range(v, '\u{3099}', '\u{309A}');
    push_range(v, '\u{309D}', '\u{309F}');
    assert(rview(v@) =~= o + word_chunk_42());
}

fn push_word_chunk_43(v: &mut Vec<ClassUnicodeRange>)
    ensures
        rview(final(v)@) == rview(old(v)@) + word_chunk_43(),
{
    let ghost o = rview(v@);
    push_range(v, '\u{30A1}', '\u{30FA}');
    push_range(v, '\u{30FC}', '\u{30FF}');
    push_range(v, '\u{3105}', '\u{312F}');
    push_range(v, '\u{3131}', '\u{318E}');
    push_range(v, '\u{31A0}', '\u{31BF}');
    push_range(v, '\u{31F0}', '\u{31FF}');
    push_range(v, '\u{3400}', '\u{4DBF}');
    push_range(v, '\u{4E00}', '\u{A48C}');
    assert(rview(v@) =~= o + word_chunk_43());
}

fn push_word_chunk_44(v: &mut Vec<ClassUnicodeRange>)
    ensures
        rview(final(v)@) == rview(old(v)@) + word_chunk_44(),
{
    let ghost o = rview(v@);
    push_range(v, '\u{A4D0}', '\u{A4FD}');
    push_range(v, '\u{A500}', '\u{A60C}');
    push_range(v, '\u{A610}', '\u{A62B}');
    push_range(v, '\u{A640}', '\u{A672}');
    push_range(v, '\u{A674}', '\u{A67D}');
    push_range(v, '\u{A67F}', '\u{A6F1}');
    push_range(v, '\u{A717}', '\u{A71F}');
    push_range(v, '\u{A722}', '\u{A788}');
    assert(rview(v@) =~= o + word_chunk_44());
}

fn push_word_chunk_45(v: &mut Vec<ClassUnicodeRange>)
    ensures
        rview(final(v)@) == rview(old(v)@) + word_chunk_45(),
{
    let ghost o = rview(v@);
    push_range(v, '\u{A78B}', '\u{A7CD}');
    push_range(v, '\u{A7D0}', '\u{A7D1}');
    push_range(v, '\u{A7D3}', '\u{A7D3}');
    push_range(v, '\u{A7D5}', '\u{A7DC}');
    push_range(v, '\u{A7F2}', '\u{A827}');
    push_range(v, '\u{A82C}', '\u{A82C}');
    push_range(v, '\u{A840}', '\u{A873}');
    push_range(v, '\u{A880}', '\u{A8C5}');
    assert(rview(v@) =~= o + word_chunk_45());
}

fn push_word_chunk_46(v: &mut Vec<ClassUnicodeRange>)
    ensures
        rview(final(v)@) == rview(old(v)@) + word_chunk_46(),
{
    let ghost o = rview(v@);
    push_range(v, '\u{A8D0}', '\u{A8D9}');
    push_range(v, '\u{A8E0}', '\u{A8F7}');
    push_range(v, '\u{A8FB}', '\u{A8FB}');
    push_range(v, '\u{A8FD}', '\u{A92D}');
    push_range(v, '\u{A930}', '\u{A953}');
    push_range(v, '\u{A960}', '\u{A97C}');
    push_range(v, '\u{A980}', '\u{A9C0}');
    push_range(v, '\u{A9CF}', '\u{A9D9}');
    assert(rview(v@) =~= o + word_chunk_46());
}

fn push_word_chunk_47(v: &mut Vec<ClassUnicodeRange>)
    ensures
        rview(final(v)@) == rview(old(v)@) + word_chunk_47(),
{
    let ghost o = rview(v@);
    push_range(v, '\u{A9E0}', '\u{A9FE}');
    push_range(v, '\u{AA00}', '\u{AA36}');
    push_range(v, '\u{AA40}', '\u{AA4D}');
    push_range(v, '\u{AA50}', '\u{AA59}');
    push_range(v, '\u{AA60}', '\u{AA76}');
    push_range(v, '\u{AA7A}', '\u{AAC2}');
    push_range(v, '\u{AADB}', '\u{AADD}');
    push_range(v, '\u{AAE0}', '\u{AAEF}');
    assert(rview(v@) =~= o + word_chunk_47());
}

fn push_word_chunk_48(v: &mut Vec<ClassUnicodeRange>)
    ensures
        rview(final(v)@) == rview(old(v)@) + word_chunk_48(),
{
    let ghost o = rview(v@);
    push_range(v, '\u{AAF2}', '\u{AAF6}');
    push_range(v, '\u{AB01}', '\u{AB06}');
    push_range(v, '\u{AB09}', '\u{AB0E}');
    push_range(v, '\u{AB11}', '\u{AB16}');
    push_range(v, '\u{AB20}', '\u{AB26}');
    push_range(v, '\u{AB28}', '\u{AB2E}');
    push_range(v, '\u{AB30}', '\u{AB5A}');
    push_range(v, '\u{AB5C}', '\u{AB69}');
    assert(rview(v@) =~= o + word_chunk_48());
}

fn push_word_chunk_49(v: &mut Vec<ClassUnicodeRange>)
    ensures
        rview(final(v)@) == rview(old(v)@) + word_chunk_49(),
{
    let ghost o = rview(v@);
    push_range(v, '\u{AB70}', '\u{ABEA}');
    push_range(v, '\u{ABEC}', '\u{ABED}');
    push_range(v, '\u{ABF0}', '\u{ABF9}');
    push_range(v, '\u{AC00}', '\u{D7A3}');
    push_range(v, '\u{D7B0}', '\u{D7C6}');
    push_range(v, '\u{D7CB}', '\u{D7FB}');
    push_range(v, '\u{F900}', '\u{FA6D}');
    push_range(v, '\u{FA70}', '\u{FAD9}');
    assert(rview(v@) =~= o + word_chunk_49());
}

fn push_word_chunk_50(v: &mut Vec<ClassUnicodeRange>)
    ensures
        rview(final(v)@) == rview(old(v)@) + word_chunk_50(),
{
    let ghost o = rview(v@);
    push_range(v, '\u{FB00}', '\u{FB06}');
    push_range(v, '\u{FB13}', '\u{FB17}');
    push_range(v, '\u{FB1D}', '\u{FB28}');
    push_range(v, '\u{FB2A}', '\u{FB36}');
    push_range(v, '\u{FB38}', '\u{FB3C}');
    push_range(v, '\u{FB3E}', '\u{FB3E}');
    push_range(v, '\u{FB40}', '\u{FB41}');
    push_range(v, '\u{FB43}', '\u{FB44}');
    assert(rview(v@) =~= o + word_chunk_50());
}

fn push_word_chunk_51(v: &mut Vec<ClassUnicodeRange>)
    ensures
        rview(final(v)@) == rview(old(v)@) + word_chunk_51(),
{
    let ghost o = rview(v@);
    push_range(v, '\u{FB46}', '\u{FBB1}');
    push_range(v, '\u{FBD3}', '\u{FD3D}');
    push_range(v, '\u{FD50}', '\u{FD8F}');
    push_range(v, '\u{FD92}', '\u{FDC7}');
    push_range(v, '\u{FDF0}', '\u{FDFB}');
    push_range(v, '\u{FE00}', '\u{FE0F}');
    push_range(v, '\u{FE20}', '\u{FE2F}');
    push_range(v, '\u{FE33}', '\u{FE34}');
    assert(rview(v@) =~= o + word_chunk_51());
}

fn push_word_chunk_52(v: &mut Vec<ClassUnicodeRange>)
    ensures
        rview(final(v)@) == rview(old(v)@) + word_chunk_52(),
{
    let ghost o = rview(v@);
    push_range(v, '\u{FE4D}', '\u{FE4F}');
    push_range(v, '\u{FE70}', '\u{FE74}');
    push_range(v, '\u{FE76}', '\u{FEFC}');
    push_range(v, '\u{FF10}', '\u{FF19}');
    push_range(v, '\u{FF21}', '\u{FF3A}');
    push_range(v, '\u{FF3F}', '\u{FF3F}');
    push_range(v, '\u{FF41}', '\u{FF5A}');
    push_range(v, '\u{FF66}', '\u{FFBE}');
    assert(rview(v@) =~= o + word_chunk_52());
}

fn push_word_chunk_53(v: &mut Vec<ClassUnicodeRange>)
    ensures
        rview(final(v)@) == rview(old(v)@) + word_chunk_53(),
{
    let ghost o = rview(v@);
    push_range(v, '\u{FFC2}', '\u{FFC7}');
    push_range(v, '\u{FFCA}', '\u{FFCF}');
    push_range(v, '\u{FFD2}', '\u{FFD7}');
    push_range(v, '\u{FFDA}', '\u{FFDC}');
    push_range(v, '\u{10000}', '\u{1000B}');
    push_range(v, '\u{1000D}', '\u{10026}');
    push_range(v, '\u{10028}', '\u{1003A}');
    push_range(v, '\u{1003C}', '\u{1003D}');
    assert(rview(v@) =~= o + word_chunk_53());
}

fn push_word_chunk_54(v: &mut Vec<ClassUnicodeRange>)
    ensures
        rview(final(v)@) == rview(old(v)@) + word_chunk_54(),
{
    let ghost o = rview(v@);
    push_range(v, '\u{1003F}', '\u{1004D}');
    push_range(v, '\u{10050}', '\u{1005D}');
    push_range(v, '\u{10080}', '\u{100FA}');
    push_range(v, '\u{10140}', '\u{10174}');
    push_range(v, '\u{101FD}', '\u{101FD}');
    push_range(v, '\u{10280}', '\u{1029C}');
    push_range(v, '\u{102A0}', '\u{102D0}');
    push_range(v, '\u{102E0}', '\u{102E0}');
    assert(rview(v@) =~= o + word_chunk_54());
}

fn push_word_chunk_55(v: &mut Vec<ClassUnicodeRange>)
    ensures
        rview(final(v)@) == rview(old(v)@) + word_chunk_55(),
{
    let ghost o = rview(v@);
    push_range(v, '\u{10300}', '\u{1031F}');
    push_range(v, '\u{1032D}', '\u{1034A}');
    push_range(v, '\u{10350}', '\u{1037A}');
    push_range(v, '\u{10380}', '\u{1039D}');
    push_range(v, '\u{103A0}', '\u{103C3}');
    push_range(v, '\u{103C8}', '\u{103CF}');
    push_range(v, '\u{103D1}', '\u{103D5}');
    push_range(v, '\u{10400}', '\u{1049D}');
    assert(rview(v@) =~= o + word_chunk_55());
}

fn push_word_chunk_56(v: &mut Vec<ClassUnicodeRange>)
    ensures
        rview(final(v)@) == rview(old(v)@) + word_chunk_56(),
{
    let ghost o = rview(v@);
    push_range(v, '\u{104A0}', '\u{104A9}');
    push_range(v, '\u{104B0}', '\u{104D3}');
    push_range(v, '\u{104D8}', '\u{104FB}');
    push_range(v, '\u{10500}', '\u{10527}');
    push_range(v, '\u{10530}', '\u{10563}');
    push_range(v, '\u{10570}', '\u{1057A}');
    push_range(v, '\u{1057C}', '\u{1058A}');
    push_range(v, '\u{1058C}', '\u{10592}');
    assert(rview(v@) =~= o + word_chunk_56());
}

fn push_word_chunk_57(v: &mut Vec<ClassUnicodeRange>)
    ensures
        rview(final(v)@) == rview(old(v)@) + word_chunk_57(),
{
    let ghost o = rview(v@);
    push_range(v, '\u{10594}', '\u{10595}');
    push_range(v, '\u{10597}', '\u{105A1}');
    push_range(v, '\u{105A3}', '\u{105B1}');
    push_range(v, '\u{105B3}', '\u{105B9}');
    push_range(v, '\u{105BB}', '\u{105BC}');
    push_range(v, '\u{105C0}', '\u{105F3}');
    push_range(v, '\u{10600}', '\u{10736}');
    push_range(v, '\u{10740}', '\u{10755}');
    assert(rview(v@) =~= o + word_chunk_57());
}

fn push_word_chunk_58(v: &mut Vec<ClassUnicodeRange>)
    ensures
        rview(final(v)@) == rview(old(v)@) + word_chunk_58(),
{
    let ghost o = rview(v@);
    push_range(v, '\u{10760}', '\u{10767}');
    push_range(v, '\u{10780}', '\u{10785}');
    push_range(v, '\u{10787}', '\u{107B0}');
    push_range(v, '\u{107B2}', '\u{107BA}');
    push_range(v, '\u{10800}', '\u{10805}');
    push_range(v, '\u{10808}', '\u{10808}');
    push_range(v, '\u{1080A}', '\u{10835}');
    push_range(v, '\u{10837}', '\u{10838}');
    assert(rview(v@) =~= o + word_chunk_58());
}

fn push_word_chunk_59(v: &mut Vec<ClassUnicodeRange>)
    ensures
        rview(final(v)@) == rview(old(v)@) + word_chunk_59(),
{
    let ghost o = rview(v@);
    push_range(v, '\u{1083C}', '\u{1083C}');
    push_range(v, '\u{1083F}', '\u{10855}');
    push_range(v, '\u{10860}', '\u{10876}');
    push_range(v, '\u{10880}', '\u{1089E}');
    push_range(v, '\u{108E0}', '\u{108F2}');
    push_range(v, '\u{108F4}', '\u{108F5}');
    push_range(v, '\u{10900}', '\u{10915}');
    push_range(v, '\u{10920}', '\u{10939}');
    assert(rview(v@) =~= o + word_chunk_59());
}

fn push_word_chunk_60(v: &mut Vec<ClassUnicodeRange>)
    ensures
        rview(final(v)@) == rview(old(v)@) + word_chunk_60(),
{
    let ghost o = rview(v@);
    push_range(v, '\u{10980}', '\u{109B7}');
    push_range(v, '\u{109BE}', '\u{109BF}');
    push_range(v, '\u{10A00}', '\u{10A03}');
    push_range(v, '\u{10A05}', '\u{10A06}');
    push_range(v, '\u{10A0C}', '\u{10A13}');
    push_range(v, '\u{10A15}', '\u{10A17}');
    push_range(v, '\u{10A19}', '\u{10A35}');
    push_range(v, '\u{10A38}', '\u{10A3A}');
    assert(rview(v@) =~= o + word_chunk_60());
}

fn push_word_chunk_61(v: &mut Vec<ClassUnicodeRange>)
    ensures
        rview(final(v)@) == rview(old(v)@) + word_chunk_61(),
{
    let ghost o = rview(v@);
    push_range(v, '\u{10A3F}', '\u{10A3F}');
    push_range(v, '\u{10A60}', '\u{10A7C}');
    push_range(v, '\u{10A80}', '\u{10A9C}');
    push_range(v, '\u{10AC0}', '\u{10AC7}');
    push_range(v, '\u{10AC9}', '\u{10AE6}');
    push_range(v, '\u{10B00}', '\u{10B35}');
    push_range(v, '\u{10B40}', '\u{10B55}');
    push_range(v, '\u{10B60}', '\u{10B72}');
    assert(rview(v@) =~= o + word_chunk_61());
}

fn push_word_chunk_62(v: &mut Vec<ClassUnicodeRange>)
    ensures
        rview(final(v)@) == rview(old(v)@) + word_chunk_62(),
{
    let ghost o = rview(v@);
    push_range(v, '\u{10B80}', '\u{10B91}');
    push_range(v, '\u{10C00}', '\u{10C48}');
    push_range(v, '\u{10C80}', '\u{10CB2}');
    push_range(v, '\u{10CC0}', '\u{10CF2}');
    push_range(v, '\u{10D00}', '\u{10D27}');
    push_range(v, '\u{10D30}', '\u{10D39}');
    push_range(v, '\u{10D40}', '\u{10D65}');
    push_range(v, '\u{10D69}', '\u{10D6D}');
    assert(rview(v@) =~= o + word_chunk_62());
}

fn push_word_chunk_63(v: &mut Vec<ClassUnicodeRange>)
    ensures
        rview(final(v)@) == rview(old(v)@) + word_chunk_63(),
{
    let ghost o = rview(v@);
    push_range(v, '\u{10D6F}', '\u{10D85}');
    push_range(v, '\u{10E80}', '\u{10EA9}');
    push_range(v, '\u{10EAB}', '\u{10EAC}');
    push_range(v, '\u{10EB0}', '\u{10EB1}');
    push_range(v, '\u{10EC2}', '\u{10EC4}');
    push_range(v, '\u{10EFC}', '\u{10F1C}');
    push_range(v, '\u{10F27}', '\u{10F27}');
    push_range(v, '\u{10F30}', '\u{10F50}');
    assert(rview(v@) =~= o + word_chunk_63());
}

fn push_word_chunk_64(v: &mut Vec<ClassUnicodeRange>)
    ensures
        rview(final(v)@) == rview(old(v)@) + word_chunk_64(),
{
    let ghost o = rview(v@);
    push_range(v, '\u{10F70}', '\u{10F85}');
    push_range(v, '\u{10FB0}', '\u{10FC4}');
    push_range(v, '\u{10FE0}', '\u{10FF6}');
    push_range(v, '\u{11000}', '\u{11046}');
    push_range(v, '\u{11066}', '\u{11075}');
    push_range(v, '\u{1107F}', '\u{110BA}');
    push_range(v, '\u{110C2}', '\u{110C2}');
    push_range(v, '\u{110D0}', '\u{110E8}');
    assert(rview(v@) =~= o + word_chunk_64());
}

fn push_word_chunk_65(v: &mut Vec<ClassUnicodeRange>)
    ensures
        rview(final(v)@) == rview(old(v)@) + word_chunk_65(),
{
    let ghost o = rview(v@);
    push_range(v, '\u{110F0}', '\u{110F9}');
    push_range(v, '\u{11100}', '\u{11134}');
    push_range(v, '\u{11136}', '\u{1113F}');
    push_range(v, '\u{11144}', '\u{11147}');
    push_range(v, '\u{11150}', '\u{11173}');
    push_range(v, '\u{11176}', '\u{11176}');
    push_range(v, '\u{11180}', '\u{111C4}');
    push_range(v, '\u{111C9}', '\u{111CC}');
    assert(rview(v@) =~= o + word_chunk_65());
}

fn push_word_chunk_66(v: &mut Vec<ClassUnicodeRange>)
    ensures
        rview(final(v)@) == rview(old(v)@) + word_chunk_66(),
{
    let ghost o = rview(v@);
    push_range(v, '\u{111CE}', '\u{111DA}');
    push_range(v, '\u{111DC}', '\u{111DC}');
    push_range(v, '\u{11200}', '\u{11211}');
    push_range(v, '\u{11213}', '\u{11237}');
    push_range(v, '\u{1123E}', '\u{11241}');
    push_range(v, '\u{11280}', '\u{11286}');
    push_range(v, '\u{11288}', '\u{11288}');
    push_range(v, '\u{1128A}', '\u{1128D}');
    assert(rview(v@) =~= o + word_chunk_66());
}

fn push_word_chunk_67(v: &mut Vec<ClassUnicodeRange>)
    ensures
        rview(final(v)@) == rview(old(v)@) + word_chunk_67(),
{
    let ghost o = rview(v@);
    push_range(v, '\u{1128F}', '\u{1129D}');
    push_range(v, '\u{1129F}', '\u{112A8}');
    push_range(v, '\u{112B0}', '\u{112EA}');
    push_range(v, '\u{112F0}', '\u{112F9}');
    push_range(v, '\u{11300}', '\u{11303}');
    push_range(v, '\u{11305}', '\u{1130C}');
    push_range(v, '\u{1130F}', '\u{11310}');
    push_range(v, '\u{11313}', '\u{11328}');
    assert(rview(v@) =~= o + word_chunk_67());
}

fn push_word_chunk_68(v: &mut Vec<ClassUnicodeRange>)
    ensures
        rview(final(v)@) == rview(old(v)@) + word_chunk_68(),
{
    let ghost o = rview(v@);
    push_range(v, '\u{1132A}', '\u{11330}');
    push_range(v, '\u{11332}', '\u{11333}');
    push_range(v, '\u{11335}', '\u{11339}');
    push_range(v, '\u{1133B}', '\u{11344}');
    push_range(v, '\u{11347}', '\u{11348}');
    push_range(v, '\u{1134B}', '\u{1134D}');
    push_range(v, '\u{11350}', '\u{11350}');
    push_range(v, '\u{11357}', '\u{11357}');
    assert(rview(v@) =~= o + word_chunk_68());
}

fn push_word_chunk_69(v: &mut Vec<ClassUnicodeRange>)
    ensures
        rview(final(v)@) == rview(old(v)@) + word_chunk_69(),
{
    let ghost o = rview(v@);
    push_range(v, '\u{1135D}', '\u{11363}');
    push_range(v, '\u{11366}', '\u{1136C}');
    push_range(v, '\u{11370}', '\u{11374}');
    push_range(v, '\u{11380}', '\u{11389}');
    push_range(v, '\u{1138B}', '\u{1138B}');
    push_range(v, '\u{1138E}', '\u{1138E}');
    push_range(v, '\u{11390}', '\u{113B5}');
    push_range(v, '\u{113B7}', '\u{113C0}');
    assert(rview(v@) =~= o + word_chunk_69());
}

fn push_word_chunk_70(v: &mut Vec<ClassUnicodeRange>)
    ensures
        rview(final(v)@) == rview(old(v)@) + word_chunk_70(),
{
    let ghost o = rview(v@);
    push_range(v, '\u{113C2}', '\u{113C2}');
    push_range(v, '\u{113C5}', '\u{113C5}');
    push_range(v, '\u{113C7}', '\u{113CA}');
    push_range(v, '\u{113CC}', '\u{113D3}');
    push_range(v, '\u{113E1}', '\u{113E2}');
    push_range(v, '\u{11400}', '\u{1144A}');
    push_range(v, '\u{11450}', '\u{11459}');
    push_range(v, '\u{1145E}', '\u{11461}');
    assert(rview(v@) =~= o + word_chunk_70());
}

fn push_word_chunk_71(v: &mut Vec<ClassUnicodeRange>)
    ensures
        rview(final(v)@) == rview(old(v)@) + word_chunk_71(),
{
    let ghost o = rview(v@);
    push_range(v, '\u{11480}', '\u{114C5}');
    push_range(v, '\u{114C7}', '\u{114C7}');
    push_range(v, '\u{114D0}', '\u{114D9}');
    push_range(v, '\u{11580}', '\u{115B5}');
    push_range(v, '\u{115B8}', '\u{115C0}');
    push_range(v, '\u{115D8}', '\u{115DD}');
    push_range(v, '\u{11600}', '\u{11640}');
    push_range(v, '\u{11644}', '\u{11644}');
    assert(rview(v@) =~= o + word_chunk_71());
}

fn push_word_chunk_72(v: &mut Vec<ClassUnicodeRange>)
    ensures
        rview(final(v)@) == rview(old(v)@) + word_chunk_72(),
{
    let ghost o = rview(v@);
    push_range(v, '\u{11650}', '\u{11659}');
    push_range(v, '\u{11680}', '\u{116B8}');
    push_range(v, '\u{116C0}', '\u{116C9}');
    push_range(v, '\u{116D0}', '\u{116E3}');
    push_range(v, '\u{11700}', '\u{1171A}');
    push_range(v, '\u{1171D}', '\u{1172B}');
    push_range(v, '\u{11730}', '\u{11739}');
    push_range(v, '\u{11740}', '\u{11746}');
    assert(rview(v@) =~= o + word_chunk_72());
}

fn push_word_chunk_73(v: &mut Vec<ClassUnicodeRange>)
    ensures
        rview(final(v)@) == rview(old(v)@) + word_chunk_73(),
{
    let ghost o = rview(v@);
    push_range(v, '\u{11800}', '\u{1183A}');
    push_range(v, '\u{118A0}', '\u{118E9}');
    push_range(v, '\u{118FF}', '\u{11906}');
    push_range(v, '\u{11909}', '\u{11909}');
    push_range(v, '\u{1190C}', '\u{11913}');
    push_range(v, '\u{11915}', '\u{11916}');
    push_range(v, '\u{11918}', '\u{11935}');
    push_range(v, '\u{11937}', '\u{11938}');
    assert(rview(v@) =~= o + word_chunk_73());
}

fn push_word_chunk_74(v: &mut Vec<ClassUnicodeRange>)
    ensures
        rview(final(v)@) == rview(old(v)@) + word_chunk_74(),
{
    let ghost o = rview(v@);
    push_range(v, '\u{1193B}', '\u{11943}');
    push_range(v, '\u{11950}', '\u{11959}');
    push_range(v, '\u{119A0}', '\u{119A7}');
    push_range(v, '\u{119AA}', '\u{119D7}');
    push_range(v, '\u{119DA}', '\u{119E1}');
    push_range(v, '\u{119E3}', '\u{119E4}');
    push_range(v, '\u{11A00}', '\u{11A3E}');
    push_range(v, '\u{11A47}', '\u{11A47}');
    assert(rview(v@) =~= o + word_chunk_74());
}

fn push_word_chunk_75(v: &mut Vec<ClassUnicodeRange>)
    ensures
        rview(final(v)@) == rview(old(v)@) + word_chunk_75(),
{
    let ghost o = rview(v@);
    push_range(v, '\u{11A50}', '\u{11A99}');
    push_range(v, '\u{11A9D}', '\u{11A9D}');
    push_range(v, '\u{11AB0}', '\u{11AF8}');
    push_range(v, '\u{11BC0}', '\u{11BE0}');
    push_range(v, '\u{11BF0}', '\u{11BF9}');
    push_range(v, '\u{11C00}', '\u{11C08}');
    push_range(v, '\u{11C0A}', '\u{11C36}');
    push_range(v, '\u{11C38}', '\u{11C40}');
    assert(rview(v@) =~= o + word_chunk_75());
}

fn push_word_chunk_76(v: &mut Vec<ClassUnicodeRange>)
    ensures
        rview(final(v)@) == rview(old(v)@) + word_chunk_76(),
{
    let ghost o = rview(v@);
    push_range(v, '\u{11C50}', '\u{11C59}');
    push_range(v, '\u{11C72}', '\u{11C8F}');
    push_range(v, '\u{11C92}', '\u{11CA7}');
    push_range(v, '\u{11CA9}', '\u{11CB6}');
    push_range(v, '\u{11D00}', '\u{11D06}');
    push_range(v, '\u{11D08}', '\u{11D09}');
    push_range(v, '\u{11D0B}', '\u{11D36}');
    push_range(v, '\u{11D3A}', '\u{11D3A}');
    assert(rview(v@) =~= o + word_chunk_76());
}

fn push_word_chunk_77(v: &mut Vec<ClassUnicodeRange>)
    ensures
        rview(final(v)@) == rview(old(v)@) + word_chunk_77(),
{
    let ghost o = rview(v@);
    push_range(v, '\u{11D3C}', '\u{11D3D}');
    push_range(v, '\u{11D3F}', '\u{11D47}');
    push_range(v, '\u{11D50}', '\u{11D59}');
    push_range(v, '\u{11D60}', '\u{11D65}');
    push_range(v, '\u{11D67}', '\u{11D68}');
    push_range(v, '\u{11D6A}', '\u{11D8E}');
    push_range(v, '\u{11D90}', '\u{11D91}');
    push_range(v, '\u{11D93}', '\u{11D98}');
    assert(rview(v@) =~= o + word_chunk_77());
}

fn push_word_chunk_78(v: &mut Vec<ClassUnicodeRange>)
    ensures
        rview(final(v)@) == rview(old(v)@) + word_chunk_78(),
{
    let ghost o = rview(v@);
    push_range(v, '\u{11DA0}', '\u{11DA9}');
    push_range(v, '\u{11EE0}', '\u{11EF6}');
    push_range(v, '\u{11F00}', '\u{11F10}');
    push_range(v, '\u{11F12}', '\u{11F3A}');
    push_range(v, '\u{11F3E}', '\u{11F42}');
    push_range(v, '\u{11F50}', '\u{11F5A}');
    push_range(v, '\u{11FB0}', '\u{11FB0}');
    push_range(v, '\u{12000}', '\u{12399}');
    assert(rview(v@) =~= o + word_chunk_78());
}

fn push_word_chunk_79(v: &mut Vec<ClassUnicodeRange>)
    ensures
        rview(final(v)@) == rview(old(v)@) + word_chunk_79(),
{
    let ghost o = rview(v@);
    push_range(v, '\u{12400}', '\u{1246E}');
    push_range(v, '\u{12480}', '\u{12543}');
    push_range(v, '\u{12F90}', '\u{12FF0}');
    push_range(v, '\u{13000}', '\u{1342F}');
    push_range(v, '\u{13440}', '\u{13455}');
    push_range(v, '\u{13460}', '\u{143FA}');
    push_range(v, '\u{14400}', '\u{14646}');
    push_range(v, '\u{16100}', '\u{16139}');
    assert(rview(v@) =~= o + word_chunk_79());
}

fn push_word_chunk_80(v: &mut Vec<ClassUnicodeRange>)
    ensures
        rview(final(v)@) == rview(old(v)@) + word_chunk_80(),
{
    let ghost o = rview(v@);
    push_range(v, '\u{16800}', '\u{16A38}');
    push_range(v, '\u{16A40}', '\u{16A5E}');
    push_range(v, '\u{16A60}', '\u{16A69}');
    push_range(v, '\u{16A70}', '\u{16ABE}');
    push_range(v, '\u{16AC0}', '\u{16AC9}');
    push_range(v, '\u{16AD0}', '\u{16AED}');
    push_range(v, '\u{16AF0}', '\u{16AF4}');
    push_range(v, '\u{16B00}', '\u{16B36}');
    assert(rview(v@) =~= o + word_chunk_80());
}

fn push_word_chunk_81(v: &mut Vec<ClassUnicodeRange>)
    ensures
        rview(final(v)@) == rview(old(v)@) + word_chunk_81(),
{
    let ghost o = rview(v@);
    push_range(v, '\u{16B40}', '\u{16B43}');
    push_range(v, '\u{16B50}', '\u{16B59}');
    push_range(v, '\u{16B63}', '\u{16B77}');
    push_range(v, '\u{16B7D}', '\u{16B8F}');
    push_range(v, '\u{16D40}', '\u{16D6C}');
    push_range(v, '\u{16D70}', '\u{16D79}');
    push_range(v, '\u{16E40}', '\u{16E7F}');
    push_range(v, '\u{16F00}', '\u{16F4A}');
    assert(rview(v@) =~= o + word_chunk_81());
}

fn push_word_chunk_82(v: &mut Vec<ClassUnicodeRange>)
    ensures
        rview(final(v)@) == rview(old(v)@) + word_chunk_82(),
{
    let ghost o = rview(v@);
    push_range(v, '\u{16F4F}', '\u{16F87}');
    push_range(v, '\u{16F8F}', '\u{16F9F}');
    push_range(v, '\u{16FE0}', '\u{16FE1}');
    push_range(v, '\u{16FE3}', '\u{16FE4}');
    push_range(v, '\u{16FF0}', '\u{16FF1}');
    push_range(v, '\u{17000}', '\u{187F7}');
    push_range(v, '\u{18800}', '\u{18CD5}');
    push_range(v, '\u{18CFF}', '\u{18D08}');
    assert(rview(v@) =~= o + word_chunk_82());
}

fn push_word_chunk_83(v: &mut Vec<ClassUnicodeRange>)
    ensures
        rview(final(v)@) == rview(old(v)@) + word_chunk_83(),
{
    let ghost o = rview(v@);
    push_range(v, '\u{1AFF0}', '\u{1AFF3}');
    push_range(v, '\u{1AFF5}', '\u{1AFFB}');
    push_range(v, '\u{1AFFD}', '\u{1AFFE}');
    push_range(v, '\u{1B000}', '\u{1B122}');
    push_range(v, '\u{1B132}', '\u{1B132}');
    push_range(v, '\u{1B150}', '\u{1B152}');
    push_range(v, '\u{1B155}', '\u{1B155}');
    push_range(v, '\u{1B164}', '\u{1B167}');
    assert(rview(v@) =~= o + word_chunk_83());
}

fn push_word_chunk_84(v: &mut Vec<ClassUnicodeRange>)
    ensures
        rview(final(v)@) == rview(old(v)@) + word_chunk_84(),
{
    let ghost o = rview(v@);
    push_range(v, '\u{1B170}', '\u{1B2FB}');
    push_range(v, '\u{1BC00}', '\u{1BC6A}');
    push_range(v, '\u{1BC70}', '\u{1BC7C}');
    push_range(v, '\u{1BC80}', '\u{1BC88}');
    push_range(v, '\u{1BC90}', '\u{1BC99}');
    push_range(v, '\u{1BC9D}', '\u{1BC9E}');
    push_range(v, '\u{1CCF0}', '\u{1CCF9}');
    push_range(v, '\u{1CF00}', '\u{1CF2D}');
    assert(rview(v@) =~= o + word_chunk_84());
}

fn push_word_chunk_85(v: &mut Vec<ClassUnicodeRange>)
    ensures
        rview(final(v)@) == rview(old(v)@) + word_chunk_85(),
{
    let ghost o = rview(v@);
    push_range(v, '\u{1CF30}', '\u{1CF46}');
    push_range(v, '\u{1D165}', '\u{1D169}');
    push_range(v, '\u{1D16D}', '\u{1D172}');
    push_range(v, '\u{1D17B}', '\u{1D182}');
    push_range(v, '\u{1D185}', '\u{1D18B}');
    push_range(v, '\u{1D1AA}', '\u{1D1AD}');
    push_range(v, '\u{1D242}', '\u{1D244}');
    push_range(v, '\u{1D400}', '\u{1D454}');
    assert(rview(v@) =~= o + word_chunk_85());
}

fn push_word_chunk_86(v: &mut Vec<ClassUnicodeRange>)
    ensures
        rview(final(v)@) == rview(old(v)@) + word_chunk_86(),
{
    let ghost o = rview(v@);
    push_range(v, '\u{1D456}', '\u{1D49C}');
    push_range(v, '\u{1D49E}', '\u{1D49F}');
    push_range(v, '\u{1D4A2}', '\u{1D4A2}');
    push_range(v, '\u{1D4A5}', '\u{1D4A6}');
    push_range(v, '\u{1D4A9}', '\u{1D4AC}');
    push_range(v, '\u{1D4AE}', '\u{1D4B9}');
    push_range(v, '\u{1D4BB}', '\u{1D4BB}');
    push_range(v, '\u{1D4BD}', '\u{1D4C3}');
    assert(rview(v@) =~= o + word_chunk_86());
}

fn push_word_chunk_87(v: &mut Vec<ClassUnicodeRange>)
    ensures
        rview(final(v)@) == rview(old(v)@) + word_chunk_87(),
{
    let ghost o = rview(v@);
    push_range(v, '\u{1D4C5}', '\u{1D505}');
    push_range(v, '\u{1D507}', '\u{1D50A}');
    push_range(v, '\u{1D50D}', '\u{1D514}');
    push_range(v, '\u{1D516}', '\u{1D51C}');
    push_range(v, '\u{1D51E}', '\u{1D539}');
    push_range(v, '\u{1D53B}', '\u{1D53E}');
    push_range(v, '\u{1D540}', '\u{1D544}');
    push_range(v, '\u{1D546}', '\u{1D546}');
    assert(rview(v@) =~= o + word_chunk_87());
}

fn push_word_chunk_88(v: &mut Vec<ClassUnicodeRange>)
    ensures
        rview(final(v)@) == rview(old(v)@) + word_chunk_88(),
{
    let ghost o = rview(v@);
    push_range(v, '\u{1D54A}', '\u{1D550}');
    push_range(v, '\u{1D552}', '\u{1D6A5}');
    push_range(v, '\u{1D6A8}', '\u{1D6C0}');
    push_range(v, '\u{1D6C2}', '\u{1D6DA}');
    push_range(v, '\u{1D6DC}', '\u{1D6FA}');
    push_range(v, '\u{1D6FC}', '\u{1D714}');
    push_range(v, '\u{1D716}', '\u{1D734}');
    push_range(v, '\u{1D736}', '\u{1D74E}');
    assert(rview(v@) =~= o + word_chunk_88());
}

fn push_word_chunk_89(v: &mut Vec<ClassUnicodeRange>)
    ensures
        rview(final(v)@) == rview(old(v)@) + word_chunk_89(),
{
    let ghost o = rview(v@);
    push_range(v, '\u{1D750}', '\u{1D76E}');
    push_range(v, '\u{1D770}', '\u{1D788}');
    push_range(v, '\u{1D78A}', '\u{1D7A8}');
    push_range(v, '\u{1D7AA}', '\u{1D7C2}');
    push_range(v, '\u{1D7C4}', '\u{1D7CB}');
    push_range(v, '\u{1D7CE}', '\u{1D7FF}');
    push_range(v, '\u{1DA00}', '\u{1DA36}');
    push_range(v, '\u{1DA3B}', '\u{1DA6C}');
    assert(rview(v@) =~= o + word_chunk_89());
}

fn push_word_chunk_90(v: &mut Vec<ClassUnicodeRange>)
    ensures
        rview(final(v)@) == rview(old(v)@) + word_chunk_90(),
{
    let ghost o = rview(v@);
    push_range(v, '\u{1DA75}', '\u{1DA75}');
    push_range(v, '\u{1DA84}', '\u{1DA84}');
    push_range(v, '\u{1DA9B}', '\u{1DA9F}');
    push_range(v, '\u{1DAA1}', '\u{1DAAF}');
    push_range(v, '\u{1DF00}', '\u{1DF1E}');
    push_range(v, '\u{1DF25}', '\u{1DF2A}');
    push_range(v, '\u{1E000}', '\u{1E006}');
    push_range(v, '\u{1E008}', '\u{1E018}');
    assert(rview(v@) =~= o + word_chunk_90());
}

fn push_word_chunk_91(v: &mut Vec<ClassUnicodeRange>)
    ensures
        rview(final(v)@) == rview(old(v)@) + word_chunk_91(),
{
    let ghost o = rview(v@);
    push_range(v, '\u{1E01B}', '\u{1E021}');
    push_range(v, '\u{1E023}', '\u{1E024}');
    push_range(v, '\u{1E026}', '\u{1E02A}');
    push_range(v, '\u{1E030}', '\u{1E06D}');
    push_range(v, '\u{1E08F}', '\u{1E08F}');
    push_range(v, '\u{1E100}', '\u{1E12C}');
    push_range(v, '\u{1E130}', '\u{1E13D}');
    push_range(v, '\u{1E140}', '\u{1E149}');
    assert(rview(v@) =~= o + word_chunk_91());
}

fn push_word_chunk_92(v: &mut Vec<ClassUnicodeRange>)
    ensures
        rview(final(v)@) == rview(old(v)@) + word_chunk_92(),
{
    let ghost o = rview(v@);
    push_range(v, '\u{1E14E}', '\u{1E14E}');
    push_range(v, '\u{1E290}', '\u{1E2AE}');
    push_range(v, '\u{1E2C0}', '\u{1E2F9}');
    push_range(v, '\u{1E4D0}', '\u{1E4F9}');
    push_range(v, '\u{1E5D0}', '\u{1E5FA}');
    push_range(v, '\u{1E7E0}', '\u{1E7E6}');
    push_range(v, '\u{1E7E8}', '\u{1E7EB}');
    push_range(v, '\u{1E7ED}', '\u{1E7EE}');
    assert(rview(v@) =~= o + word_chunk_92());
}

fn push_word_chunk_93(v: &mut Vec<ClassUnicodeRange>)
    ensures
        rview(final(v)@) == rview(old(v)@) + word_chunk_93(),
{
    let ghost o = rview(v@);
    push_range(v, '\u{1E7F0}', '\u{1E7FE}');
    push_range(v, '\u{1E800}', '\u{1E8C4}');
    push_range(v, '\u{1E8D0}', '\u{1E8D6}');
    push_range(v, '\u{1E900}', '\u{1E94B}');
    push_range(v, '\u{1E950}', '\u{1E959}');
    push_range(v, '\u{1EE00}', '\u{1EE03}');
    push_range(v, '\u{1EE05}', '\u{1EE1F}');
    push_range(v, '\u{1EE21}', '\u{1EE22}');
    assert(rview(v@) =~= o + word_chunk_93());
}

fn push_word_chunk_94(v: &mut Vec<ClassUnicodeRange>)
    ensures
        rview(final(v)@) == rview(old(v)@) + word_chunk_94(),
{
    let ghost o = rview(v@);
    push_range(v, '\u{1EE24}', '\u{1EE24}');
    push_range(v, '\u{1EE27}', '\u{1EE27}');
    push_range(v, '\u{1EE29}', '\u{1EE32}');
    push_range(v, '\u{1EE34}', '\u{1EE37}');
    push_range(v, '\u{1EE39}', '\u{1EE39}');
    push_range(v, '\u{1EE3B}', '\u{1EE3B}');
    push_range(v, '\u{1EE42}', '\u{1EE42}');
    push_range(v, '\u{1EE47}', '\u{1EE47}');
    assert(rview(v@) =~= o + word_chunk_94());
}

fn push_word_chunk_95(v: &mut Vec<ClassUnicodeRange>)
    ensures
        rview(final(v)@) == rview(old(v)@) + word_chunk_95(),
{
    let ghost o = rview(v@);
    push_range(v, '\u{1EE49}', '\u{1EE49}');
    push_range(v, '\u{1EE4B}', '\u{1EE4B}');
    push_range(v, '\u{1EE4D}', '\u{1EE4F}');
    push_range(v, '\u{1EE51}', '\u{1EE52}');
    push_range(v, '\u{1EE54}', '\u{1EE54}');
    push_range(v, '\u{1EE57}', '\u{1EE57}');
    push_range(v, '\u{1EE59}', '\u{1EE59}');
    push_range(v, '\u{1EE5B}', '\u{1EE5B}');
    assert(rview(v@) =~= o + word_chunk_95());
}

fn push_word_chunk_96(v: &mut Vec<ClassUnicodeRange>)
    ensures
        rview(final(v)@) == rview(old(v)@) + word_chunk_96(),
{
    let ghost o = rview(v@);
    push_range(v, '\u{1EE5D}', '\u{1EE5D}');
    push_range(v, '\u{1EE5F}', '\u{1EE5F}');
    push_range(v, '\u{1EE61}', '\u{1EE62}');
    push_range(v, '\u{1EE64}', '\u{1EE64}');
    push_range(v, '\u{1EE67}', '\u{1EE6A}');
    push_range(v, '\u{1EE6C}', '\u{1EE72}');
    push_range(v, '\u{1EE74}', '\u{1EE77}');
    push_range(v, '\u{1EE79}', '\u{1EE7C}');
    assert(rview(v@) =~= o + word_chunk_96());
}

fn push_word_chunk_97(v: &mut Vec<ClassUnicodeRange>)
    ensures
        rview(final(v)@) == rview(old(v)@) + word_chunk_97(),
{
    let ghost o = rview(v@);
    push_range(v, '\u{1EE7E}', '\u{1EE7E}');
    push_range(v, '\u{1EE80}', '\u{1EE89}');
    push_range(v, '\u{1EE8B}', '\u{1EE9B}');
    push_range(v, '\u{1EEA1}', '\u{1EEA3}');
    push_range(v, '\u{1EEA5}', '\u{1EEA9}');
    push_range(v, '\u{1EEAB}', '\u{1EEBB}');
    push_range(v, '\u{1F130}', '\u{1F149}');
    push_range(v, '\u{1F150}', '\u{1F169}');
    assert(rview(v@) =~= o + word_chunk_97());
}

fn push_word_chunk_98(v: &mut Vec<ClassUnicodeRange>)
    ensures
        rview(final(v)@) == rview(old(v)@) + word_chunk_98(),
{
    let ghost o = rview(v@);
    push_range(v, '\u{1F170}', '\u{1F189}');
    push_range(v, '\u{1FBF0}', '\u{1FBF9}');
    push_range(v, '\u{20000}', '\u{2A6DF}');
    push_range(v, '\u{2A700}', '\u{2B739}');
    push_range(v, '\u{2B740}', '\u{2B81D}');
    push_range(v, '\u{2B820}', '\u{2CEA1}');
    push_range(v, '\u{2CEB0}', '\u{2EBE0}');
    push_range(v, '\u{2EBF0}', '\u{2EE5D}');
    assert(rview(v@) =~= o + word_chunk_98());
}

fn push_word_chunk_99(v: &mut Vec<ClassUnicodeRange>)
    ensures
        rview(final(v)@) == rview(old(v)@) + word_chunk_99(),
{
    let ghost o = rview(v@);
    push_range(v, '\u{2F800}', '\u{2FA1D}');
    push_range(v, '\u{30000}', '\u{3134A}');
    push_range(v, '\u{31350}', '\u{323AF}');
    push_range(v, '\u{E0100}', '\u{E01EF}');
    assert(rview(v@) =~= o + word_chunk_99());
}

fn push_word_block_0(v: &mut Vec<ClassUnicodeRange>)
    ensures
        rview(final(v)@) == rview(old(v)@) + word_block_0(),
{
    let ghost o = rview(v@);
    push_word_chunk_0(v);
    assert(rview(v@) =~= o + (word_chunk_0()));
    push_word_chunk_1(v);
    assert(rview(v@) =~= o + (word_chunk_0() + word_chunk_1()));
    push_word_chunk_2(v);
    assert(rview(v@) =~= o + (word_chunk_0() + word_chunk_1() + word_chunk_2()));
    push_word_chunk_3(v);
    assert(rview(v@) =~= o + (word_chunk_0() + word_chunk_1() + word_chunk_2() + word_chunk_3()));
    push_word_chunk_4(v);
    assert(rview(v@) =~= o + (word_chunk_0() + word_chunk_1() + word_chunk_2() + word_chunk_3() + word_chunk_4()));
    push_word_chunk_5(v);
    assert(rview(v@) =~= o + (word_chunk_0() + word_chunk_1() + word_chunk_2() + word_chunk_3() + word_chunk_4() + word_chunk_5()));
    push_word_chunk_6(v);
    assert(rview(v@) =~= o + (word_chunk_0() + word_chunk_1() + word_chunk_2() + word_chunk_3() + word_chunk_4() + word_chunk_5() + word_chunk_6()));
    push_word_chunk_7(v);
    assert(rview(v@) =~= o + (word_chunk_0() + word_chunk_1() + word_chunk_2() + word_chunk_3() + word_chunk_4() + word_chunk_5() + word_chunk_6() + word_chunk_7()));
    push_word_chunk_8(v);
    assert(rview(v@) =~= o + (word_chunk_0() + word_chunk_1() + word_chunk_2() + word_chunk_3() + word_chunk_4() + word_chunk_5() + word_chunk_6() + word_chunk_7() + word_chunk_8()));
    push_word_chunk_9(v);
    assert(rview(v@) =~= o + (word_chunk_0() + word_chunk_1() + word_chunk_2() + word_chunk_3() + word_chunk_4() + word_chunk_5() + word_chunk_6() + word_chunk_7() + word_chunk_8() + word_chunk_9()));
}

fn push_word_block_1(v: &mut Vec<ClassUnicodeRange>)
    ensures
        rview(final(v)@) == rview(old(v)@) + word_block_1(),
{
    let ghost o = rview(v@);
    push_word_chunk_10(v);
    assert(rview(v@) =~= o + (word_chunk_10()));
    push_word_chunk_11(v);
    assert(rview(v@) =~= o + (word_chunk_10() + word_chunk_11()));
    push_word_chunk_12(v);
    assert(rview(v@) =~= o + (word_chunk_10() + word_chunk_11() + word_chunk_12()));
    push_word_chunk_13(v);
    assert(rview(v@) =~= o + (word_chunk_10() + word_chunk_11() + word_chunk_12() + word_chunk_13()));
    push_word_chunk_14(v);
    assert(rview(v@) =~= o + (word_chunk_10() + word_chunk_11() + word_chunk_12() + word_chunk_13() + word_chunk_14()));
    push_word_chunk_15(v);
    assert(rview(v@) =~= o + (word_chunk_10() + word_chunk_11() + word_chunk_12() + word_chunk_13() + word_chunk_14() + word_chunk_15()));
    push_word_chunk_16(v);
    assert(rview(v@) =~= o + (word_chunk_10() + word_chunk_11() + word_chunk_12() + word_chunk_13() + word_chunk_14() + word_chunk_15() + word_chunk_16()));
    push_word_chunk_17(v);
    assert(rview(v@) =~= o + (word_chunk_10() + word_chunk_11() + word_chunk_12() + word_chunk_13() + word_chunk_14() + word_chunk_15() + word_chunk_16() + word_chunk_17()));
    push_word_chunk_18(v);
    assert(rview(v@) =~= o + (word_chunk_10() + word_chunk_11() + word_chunk_12() + word_chunk_13() + word_chunk_14() + word_chunk_15() + word_chunk_16() + word_chunk_17() + word_chunk_18()));
    push_word_chunk_19(v);
    assert(rview(v@) =~= o + (word_chunk_10() + word_chunk_11() + word_chunk_12() + word_chunk_13() + word_chunk_14() + word_chunk_15() + word_chunk_16() + word_chunk_17() + word_chunk_18() + word_chunk_19()));
}

fn push_word_block_2(v: &mut Vec<ClassUnicodeRange>)
    ensures
        rview(final(v)@) == rview(old(v)@) + word_block_2(),
{
    let ghost o = rview(v@);
    push_word_chunk_20(v);
    assert(rview(v@) =~= o + (word_chunk_20()));
    push_word_chunk_21(v);
    assert(rview(v@) =~= o + (word_chunk_20() + word_chunk_21()));
    push_word_chunk_22(v);
    assert(rview(v@) =~= o + (word_chunk_20() + word_chunk_21() + word_chunk_22()));
    push_word_chunk_23(v);
    assert(rview(v@) =~= o + (word_chunk_20() + word_chunk_21() + word_chunk_22() + word_chunk_23()));
    push_word_chunk_24(v);
    assert(rview(v@) =~= o + (word_chunk_20() + word_chunk_21() + word_chunk_22() + word_chunk_23() + word_chunk_24()));
    push_word_chunk_25(v);
    assert(rview(v@) =~= o + (word_chunk_20() + word_chunk_21() + word_chunk_22() + word_chunk_23() + word_chunk_24() + word_chunk_25()));
    push_word_chunk_26(v);
    assert(rview(v@) =~= o + (word_chunk_20() + word_chunk_21() + word_chunk_22() + word_chunk_23() + word_chunk_24() + word_chunk_25() + word_chunk_26()));
    push_word_chunk_27(v);
    assert(rview(v@) =~= o + (word_chunk_20() + word_chunk_21() + word_chunk_22() + word_chunk_23() + word_chunk_24() + word_chunk_25() + word_chunk_26() + word_chunk_27()));
    push_word_chunk_28(v);
    assert(rview(v@) =~= o + (word_chunk_20() + word_chunk_21() + word_chunk_22() + word_chunk_23() + word_chunk_24() + word_chunk_25() + word_chunk_26() + word_chunk_27() + word_chunk_28()));
    push_word_chunk_29(v);
    assert(rview(v@) =~= o + (word_chunk_20() + word_chunk_21() + word_chunk_22() + word_chunk_23() + word_chunk_24() + word_chunk_25() + word_chunk_26() + word_chunk_27() + word_chunk_28() + word_chunk_29()));
}

fn push_word_block_3(v: &mut Vec<ClassUnicodeRange>)
    ensures
        rview(final(v)@) == rview(old(v)@) + word_block_3(),
{
    let ghost o = rview(v@);
    push_word_chunk_30(v);
    assert(rview(v@) =~= o + (word_chunk_30()));
    push_word_chunk_31(v);
    assert(rview(v@) =~= o + (word_chunk_30() + word_chunk_31()));
    push_word_chunk_32(v);
    assert(rview(v@) =~= o + (word_chunk_30() + word_chunk_31() + word_chunk_32()));
    push_word_chunk_33(v);
    assert(rview(v@) =~= o + (word_chunk_30() + word_chunk_31() + word_chunk_32() + word_chunk_33()));
    push_word_chunk_34(v);
    assert(rview(v@) =~= o + (word_chunk_30() + word_chunk_31() + word_chunk_32() + word_chunk_33() + word_chunk_34()));
    push_word_chunk_35(v);
    assert(rview(v@) =~= o + (word_chunk_30() + word_chunk_31() + word_chunk_32() + word_chunk_33() + word_chunk_34() + word_chunk_35()));
    push_word_chunk_36(v);
    assert(rview(v@) =~= o + (word_chunk_30() + word_chunk_31() + word_chunk_32() + word_chunk_33() + word_chunk_34() + word_chunk_35() + word_chunk_36()));
    push_word_chunk_37(v);
    assert(rview(v@) =~= o + (word_chunk_30() + word_chunk_31() + word_chunk_32() + word_chunk_33() + word_chunk_34() + word_chunk_35() + word_chunk_36() + word_chunk_37()));
    push_word_chunk_38(v);
    assert(rview(v@) =~= o + (word_chunk_30() + word_chunk_31() + word_chunk_32() + word_chunk_33() + word_chunk_34() + word_chunk_35() + word_chunk_36() + word_chunk_37() + word_chunk_38()));
    push_word_chunk_39(v);
    assert(rview(v@) =~= o + (word_chunk_30() + word_chunk_31() + word_chunk_32() + word_chunk_33() + word_chunk_34() + word_chunk_35() + word_chunk_36() + word_chunk_37() + word_chunk_38() + word_chunk_39()));
}

fn push_word_block_4(v: &mut Vec<ClassUnicodeRange>)
    ensures
        rview(final(v)@) == rview(old(v)@) + word_block_4(),
{
    let ghost o = rview(v@);
    push_word_chunk_40(v);
    assert(rview(v@) =~= o + (word_chunk_40()));
    push_word_chunk_41(v);
    assert(rview(v@) =~= o + (word_chunk_40() + word_chunk_41()));
    push_word_chunk_42(v);
    assert(rview(v@) =~= o + (word_chunk_40() + word_chunk_41() + word_chunk_42()));
    push_word_chunk_43(v);
    assert(rview(v@) =~= o + (word_chunk_40() + word_chunk_41() + word_chunk_42() + word_chunk_43()));
    push_word_chunk_44(v);
    assert(rview(v@) =~= o + (word_chunk_40() + word_chunk_41() + word_chunk_42() + word_chunk_43() + word_chunk_44()));
    push_word_chunk_45(v);
    assert(rview(v@) =~= o + (word_chunk_40() + word_chunk_41() + word_chunk_42() + word_chunk_43() + word_chunk_44() + word_chunk_45()));
    push_word_chunk_46(v);
    assert(rview(v@) =~= o + (word_chunk_40() + word_chunk_41() + word_chunk_42() + word_chunk_43() + word_chunk_44() + word_chunk_45() + word_chunk_46()));
    push_word_chunk_47(v);
    assert(rview(v@) =~= o + (word_chunk_40() + word_chunk_41() + word_chunk_42() + word_chunk_43() + word_chunk_44() + word_chunk_45() + word_chunk_46() + word_chunk_47()));
    push_word_chunk_48(v);
    assert(rview(v@) =~= o + (word_chunk_40() + word_chunk_41() + word_chunk_42() + word_chunk_43() + word_chunk_44() + word_chunk_45() + word_chunk_46() + word_chunk_47() + word_chunk_48()));
    push_word_chunk_49(v);
    assert(rview(v@) =~= o + (word_chunk_40() + word_chunk_41() + word_chunk_42() + word_chunk_43() + word_chunk_44() + word_chunk_45() + word_chunk_46() + word_chunk_47() + word_chunk_48() + word_chunk_49()));
}

fn push_word_block_5(v: &mut Vec<ClassUnicodeRange>)
    ensures
        rview(final(v)@) == rview(old(v)@) + word_block_5(),
{
    let ghost o = rview(v@);
    push_word_chunk_50(v);
    assert(rview(v@) =~= o + (word_chunk_50()));
    push_word_chunk_51(v);
    assert(rview(v@) =~= o + (word_chunk_50() + word_chunk_51()));
    push_word_chunk_52(v);
    assert(rview(v@) =~= o + (word_chunk_50() + word_chunk_51() + word_chunk_52()));
    push_word_chunk_53(v);
    assert(rview(v@) =~= o + (word_chunk_50() + word_chunk_51() + word_chunk_52() + word_chunk_53()));
    push_word_chunk_54(v);
    assert(rview(v@) =~= o + (word_chunk_50() + word_chunk_51() + word_chunk_52() + word_chunk_53() + word_chunk_54()));
    push_word_chunk_55(v);
    assert(rview(v@) =~= o + (word_chunk_50() + word_chunk_51() + word_chunk_52() + word_chunk_53() + word_chunk_54() + word_chunk_55()));
    push_word_chunk_56(v);
    assert(rview(v@) =~= o + (word_chunk_50() + word_chunk_51() + word_chunk_52() + word_chunk_53() + word_chunk_54() + word_chunk_55() + word_chunk_56()));
    push_word_chunk_57(v);
    assert(rview(v@) =~= o + (word_chunk_50() + word_chunk_51() + word_chunk_52() + word_chunk_53() + word_chunk_54() + word_chunk_55() + word_chunk_56() + word_chunk_57()));
    push_word_chunk_58(v);
    assert(rview(v@) =~= o + (word_chunk_50() + word_chunk_51() + word_chunk_52() + word_chunk_53() + word_chunk_54() + word_chunk_55() + word_chunk_56() + word_chunk_57() + word_chunk_58()));
    push_word_chunk_59(v);
    assert(rview(v@) =~= o + (word_chunk_50() + word_chunk_51() + word_chunk_52() + word_chunk_53() + word_chunk_54() + word_chunk_55() + word_chunk_56() + word_chunk_57() + word_chunk_58() + word_chunk_59()));
}

fn push_word_block_6(v: &mut Vec<ClassUnicodeRange>)
    ensures
        rview(final(v)@) == rview(old(v)@) + word_block_6(),
{
    let ghost o = rview(v@);
    push_word_chunk_60(v);
    assert(rview(v@) =~= o + (word_chunk_60()));
    push_word_chunk_61(v);
    assert(rview(v@) =~= o + (word_chunk_60() + word_chunk_61()));
    push_word_chunk_62(v);
    assert(rview(v@) =~= o + (word_chunk_60() + word_chunk_61() + word_chunk_62()));
    push_word_chunk_63(v);
    assert(rview(v@) =~= o + (word_chunk_60() + word_chunk_61() + word_chunk_62() + word_chunk_63()));
    push_word_chunk_64(v);
    assert(rview(v@) =~= o + (word_chunk_60() + word_chunk_61() + word_chunk_62() + word_chunk_63() + word_chunk_64()));
    push_word_chunk_65(v);
    assert(rview(v@) =~= o + (word_chunk_60() + word_chunk_61() + word_chunk_62() + word_chunk_63() + word_chunk_64() + word_chunk_65()));
    push_word_chunk_66(v);
    assert(rview(v@) =~= o + (word_chunk_60() + word_chunk_61() + word_chunk_62() + word_chunk_63() + word_chunk_64() + word_chunk_65() + word_chunk_66()));
    push_word_chunk_67(v);
    assert(rview(v@) =~= o + (word_chunk_60() + word_chunk_61() + word_chunk_62() + word_chunk_63() + word_chunk_64() + word_chunk_65() + word_chunk_66() + word_chunk_67()));
    push_word_chunk_68(v);
    assert(rview(v@) =~= o + (word_chunk_60() + word_chunk_61() + word_chunk_62() + word_chunk_63() + word_chunk_64() + word_chunk_65() + word_chunk_66() + word_chunk_67() + word_chunk_68()));
    push_word_chunk_69(v);
    assert(rview(v@) =~= o + (word_chunk_60() + word_chunk_61() + word_chunk_62() + word_chunk_63() + word_chunk_64() + word_chunk_65() + word_chunk_66() + word_chunk_67() + word_chunk_68() + word_chunk_69()));
}

fn push_word_block_7(v: &mut Vec<ClassUnicodeRange>)
    ensures
        rview(final(v)@) == rview(old(v)@) + word_block_7(),
{
    let ghost o = rview(v@);
    push_word_chunk_70(v);
    assert(rview(v@) =~= o + (word_chunk_70()));
    push_word_chunk_71(v);
    assert(rview(v@) =~= o + (word_chunk_70() + word_chunk_71()));
    push_word_chunk_72(v);
    assert(rview(v@) =~= o + (word_chunk_70() + word_chunk_71() + word_chunk_72()));
    push_word_chunk_73(v);
    assert(rview(v@) =~= o + (word_chunk_70() + word_chunk_71() + word_chunk_72() + word_chunk_73()));
    push_word_chunk_74(v);
    assert(rview(v@) =~= o + (word_chunk_70() + word_chunk_71() + word_chunk_72() + word_chunk_73() + word_chunk_74()));
    push_word_chunk_75(v);
    assert(rview(v@) =~= o + (word_chunk_70() + word_chunk_71() + word_chunk_72() + word_chunk_73() + word_chunk_74() + word_chunk_75()));
    push_word_chunk_76(v);
    assert(rview(v@) =~= o + (word_chunk_70() + word_chunk_71() + word_chunk_72() + word_chunk_73() + word_chunk_74() + word_chunk_75() + word_chunk_76()));
    push_word_chunk_77(v);
    assert(rview(v@) =~= o + (word_chunk_70() + word_chunk_71() + word_chunk_72() + word_chunk_73() + word_chunk_74() + word_chunk_75() + word_chunk_76() + word_chunk_77()));
    push_word_chunk_78(v);
    assert(rview(v@) =~= o + (word_chunk_70() + word_chunk_71() + word_chunk_72() + word_chunk_73() + word_chunk_74() + word_chunk_75() + word_chunk_76() + word_chunk_77() + word_chunk_78()));
    push_word_chunk_79(v);
    assert(rview(v@) =~= o + (word_chunk_70() + word_chunk_71() + word_chunk_72() + word_chunk_73() + word_chunk_74() + word_chunk_75() + word_chunk_76() + word_chunk_77() + word_chunk_78() + word_chunk_79()));
}

fn push_word_block_8(v: &mut Vec<ClassUnicodeRange>)
    ensures
        rview(final(v)@) == rview(old(v)@) + word_block_8(),
{
    let ghost o = rview(v@);
    push_word_chunk_80(v);
    assert(rview(v@) =~= o + (word_chunk_80()));
    push_word_chunk_81(v);
    assert(rview(v@) =~= o + (word_chunk_80() + word_chunk_81()));
    push_word_chunk_82(v);
    assert(rview(v@) =~= o + (word_chunk_80() + word_chunk_81() + word_chunk_82()));
    push_word_chunk_83(v);
    assert(rview(v@) =~= o + (word_chunk_80() + word_chunk_81() + word_chunk_82() + word_chunk_83()));
    push_word_chunk_84(v);
    assert(rview(v@) =~= o + (word_chunk_80() + word_chunk_81() + word_chunk_82() + word_chunk_83() + word_chunk_84()));
    push_word_chunk_85(v);
    assert(rview(v@) =~= o + (word_chunk_80() + word_chunk_81() + word_chunk_82() + word_chunk_83() + word_chunk_84() + word_chunk_85()));
    push_word_chunk_86(v);
    assert(rview(v@) =~= o + (word_chunk_80() + word_chunk_81() + word_chunk_82() + word_chunk_83() + word_chunk_84() + word_chunk_85() + word_chunk_86()));
    push_word_chunk_87(v);
    assert(rview(v@) =~= o + (word_chunk_80() + word_chunk_81() + word_chunk_82() + word_chunk_83() + word_chunk_84() + word_chunk_85() + word_chunk_86() + word_chunk_87()));
    push_word_chunk_88(v);
    assert(rview(v@) =~= o + (word_chunk_80() + word_chunk_81() + word_chunk_82() + word_chunk_83() + word_chunk_84() + word_chunk_85() + word_chunk_86() + word_chunk_87() + word_chunk_88()));
    push_word_chunk_89(v);
    assert(rview(v@) =~= o + (word_chunk_80() + word_chunk_81() + word_chunk_82() + word_chunk_83() + word_chunk_84() + word_chunk_85() + word_chunk_86() + word_chunk_87() + word_chunk_88() + word_chunk_89()));
}

fn push_word_block_9(v: &mut Vec<ClassUnicodeRange>)
    ensures
        rview(final(v)@) == rview(old(v)@) + word_block_9(),
{
    let ghost o = rview(v@);
    push_word_chunk_90(v);
    assert(rview(v@) =~= o + (word_chunk_90()));
    push_word_chunk_91(v);
    assert(rview(v@) =~= o + (word_chunk_90() + word_chunk_91()));
    push_word_chunk_92(v);
    assert(rview(v@) =~= o + (word_chunk_90() + word_chunk_91() + word_chunk_92()));
    push_word_chunk_93(v);
    assert(rview(v@) =~= o + (word_chunk_90() + word_chunk_91() + word_chunk_92() + word_chunk_93()));
    push_word_chunk_94(v);
    assert(rview(v@) =~= o + (word_chunk_90() + word_chunk_91() + word_chunk_92() + word_chunk_93() + word_chunk_94()));
    push_word_chunk_95(v);
    assert(rview(v@) =~= o + (word_chunk_90() + word_chunk_91() + word_chunk_92() + word_chunk_93() + word_chunk_94() + word_chunk_95()));
    push_word_chunk_96(v);
    assert(rview(v@) =~= o + (word_chunk_90() + word_chunk_91() + word_chunk_92() + word_chunk_93() + word_chunk_94() + word_chunk_95() + word_chunk_96()));
    push_word_chunk_97(v);
    assert(rview(v@) =~= o + (word_chunk_90() + word_chunk_91() + word_chunk_92() + word_chunk_93() + word_chunk_94() + word_chunk_95() + word_chunk_96() + word_chunk_97()));
    push_word_chunk_98(v);
    assert(rview(v@) =~= o + (word_chunk_90() + word_chunk_91() + word_chunk_92() + word_chunk_93() + word_chunk_94() + word_chunk_95() + word_chunk_96() + word_chunk_97() + word_chunk_98()));
    push_word_chunk_99(v);
    assert(rview(v@) =~= o + (word_chunk_90() + word_chunk_91() + word_chunk_92() + word_chunk_93() + word_chunk_94() + word_chunk_95() + word_chunk_96() + word_chunk_97() + word_chunk_98() + word_chunk_99()));
}

/// The ranges of the word characters.
pub fn word_class() -> (v: Vec<ClassUnicodeRange>)
    ensures
        rview(v@) == word_ranges(),
{
    let mut v: Vec<ClassUnicodeRange> = Vec::new();
    assert(rview(v@) =~= Seq::<SRange>::empty());
    push_word_block_0(&mut v);
    assert(rview(v@) =~= word_block_0());
    push_word_block_1(&mut v);
    assert(rview(v@) =~= word_block_0() + word_block_1());
    push_word_block_2(&mut v);
    assert(rview(v@) =~= word_block_0() + word_block_1() + word_block_2());
    push_word_block_3(&mut v);
    assert(rview(v@) =~= word_block_0() + word_block_1() + word_block_2() + word_block_3());
    push_word_block_4(&mut v);
    assert(rview(v@) =~= word_block_0() + word_block_1() + word_block_2() + word_block_3() + word_block_4());
    push_word_block_5(&mut v);
    assert(rview(v@) =~= word_block_0() + word_block_1() + word_block_2() + word_block_3() + word_block_4() + word_block_5());
    push_word_block_6(&mut v);
    assert(rview(v@) =~= word_block_0() + word_block_1() + word_block_2() + word_block_3() + word_block_4() + word_block_5() + word_block_6());
    push_word_block_7(&mut v);
    assert(rview(v@) =~= word_block_0() + word_block_1() + word_block_2() + word_block_3() + word_block_4() + word_block_5() + word_block_6() + word_block_7());
    push_word_block_8(&mut v);
    assert(rview(v@) =~= word_block_0() + word_block_1() + word_block_2() + word_block_3() + word_block_4() + word_block_5() + word_block_6() + word_block_7() + word_block_8());
    push_word_block_9(&mut v);
    assert(rview(v@) =~= word_block_0() + word_block_1() + word_block_2() + word_block_3() + word_block_4() + word_block_5() + word_block_6() + word_block_7() + word_block_8() + word_block_9());
    v
}

} // verus!
