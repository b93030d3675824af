//! Unicode simple case folding (Unicode 16.0), which the `i` flag applies:
//! a class is closed under the pairs of characters that simple case folding
//! makes equivalent.
use vstd::prelude::*;
use crate::ranges::{SRange, valid_cp, all_ok, canonical, contains, insert, insert_all};
use crate::class::{ClassUnicodeRange, rview, insert_range};

verus! {

/// A pair of the folding table: `key` is case-equivalent to `to`.
#[derive(Clone, Copy, Debug, PartialEq, Eq, Structural)]
pub struct FoldPair {
    pub key: char,
    pub to: char,
}

impl View for FoldPair {
    type V = (int, int);

    open spec fn view(&self) -> (int, int) {
        (self.key as int, self.to as int)
    }
}

pub open spec fn pview(v: Seq<FoldPair>) -> Seq<(int, int)> {
    v.map_values(|p: FoldPair| p@)
}

pub open spec fn fold_chunk_0() -> Seq<(int, int)> {
    seq![(0x41int, 0x61int), (0x42int, 0x62int), (0x43int, 0x63int), (0x44int, 0x64int), (0x45int, 0x65int), (0x46int, 0x66int), (0x47int, 0x67int), (0x48int, 0x68int)]
}

pub open spec fn fold_chunk_1() -> Seq<(int, int)> {
    seq![(0x49int, 0x69int), (0x4Aint, 0x6Aint), (0x4Bint, 0x6Bint), (0x4Bint, 0x212Aint), (0x4Cint, 0x6Cint), (0x4Dint, 0x6Dint), (0x4Eint, 0x6Eint), (0x4Fint, 0x6Fint)]
}

pub open spec fn fold_chunk_2() -> Seq<(int, int)> {
    seq![(0x50int, 0x70int), (0x51int, 0x71int), (0x52int, 0x72int), (0x53int, 0x73int), (0x53int, 0x17Fint), (0x54int, 0x74int), (0x55int, 0x75int), (0x56int, 0x76int)]
}

pub open spec fn fold_chunk_3() -> Seq<(int, int)> {
    seq![(0x57int, 0x77int), (0x58int, 0x78int), (0x59int, 0x79int), (0x5Aint, 0x7Aint), (0x61int, 0x41int), (0x62int, 0x42int), (0x63int, 0x43int), (0x64int, 0x44int)]
}

pub open spec fn fold_chunk_4() -> Seq<(int, int)> {
    seq![(0x65int, 0x45int), (0x66int, 0x46int), (0x67int, 0x47int), (0x68int, 0x48int), (0x69int, 0x49int), (0x6Aint, 0x4Aint), (0x6Bint, 0x4Bint), (0x6Bint, 0x212Aint)]
}

pub open spec fn fold_chunk_5() -> Seq<(int, int)> {
    seq![(0x6Cint, 0x4Cint), (0x6Dint, 0x4Dint), (0x6Eint, 0x4Eint), (0x6Fint, 0x4Fint), (0x70int, 0x50int), (0x71int, 0x51int), (0x72int, 0x52int), (0x73int, 0x53int)]
}

pub open spec fn fold_chunk_6() -> Seq<(int, int)> {
    seq![(0x73int, 0x17Fint), (0x74int, 0x54int), (0x75int, 0x55int), (0x76int, 0x56int), (0x77int, 0x57int), (0x78int, 0x58int), (0x79int, 0x59int), (0x7Aint, 0x5Aint)]
}

pub open spec fn fold_chunk_7() -> Seq<(int, int)> {
    seq![(0xB5int, 0x39Cint), (0xB5int, 0x3BCint), (0xC0int, 0xE0int), (0xC1int, 0xE1int), (0xC2int, 0xE2int), (0xC3int, 0xE3int), (0xC4int, 0xE4int), (0xC5int, 0xE5int)]
}

pub open spec fn fold_chunk_8() -> Seq<(int, int)> {
    seq![(0xC5int, 0x212Bint), (0xC6int, 0xE6int), (0xC7int, 0xE7int), (0xC8int, 0xE8int), (0xC9int, 0xE9int), (0xCAint, 0xEAint), (0xCBint, 0xEBint), (0xCCint, 0xECint)]
}

pub open spec fn fold_chunk_9() -> Seq<(int, int)> {
    seq![(0xCDint, 0xEDint), (0xCEint, 0xEEint), (0xCFint, 0xEFint), (0xD0int, 0xF0int), (0xD1int, 0xF1int), (0xD2int, 0xF2int), (0xD3int, 0xF3int), (0xD4int, 0xF4int)]
}

pub open spec fn fold_chunk_10() -> Seq<(int, int)> {
    seq![(0xD5int, 0xF5int), (0xD6int, 0xF6int), (0xD8int, 0xF8int), (0xD9int, 0xF9int), (0xDAint, 0xFAint), (0xDBint, 0xFBint), (0xDCint, 0xFCint), (0xDDint, 0xFDint)]
}

pub open spec fn fold_chunk_11() -> Seq<(int, int)> {
    seq![(0xDEint, 0xFEint), (0xDFint, 0x1E9Eint), (0xE0int, 0xC0int), (0xE1int, 0xC1int), (0xE2int, 0xC2int), (0xE3int, 0xC3int), (0xE4int, 0xC4int), (0xE5int, 0xC5int)]
}

pub open spec fn fold_chunk_12() -> Seq<(int, int)> {
    seq![(0xE5int, 0x212Bint), (0xE6int, 0xC6int), (0xE7int, 0xC7int), (0xE8int, 0xC8int), (0xE9int, 0xC9int), (0xEAint, 0xCAint), (0xEBint, 0xCBint), (0xECint, 0xCCint)]
}

pub open spec fn fold_chunk_13() -> Seq<(int, int)> {
    seq![(0xEDint, 0xCDint), (0xEEint, 0xCEint), (0xEFint, 0xCFint), (0xF0int, 0xD0int), (0xF1int, 0xD1int), (0xF2int, 0xD2int), (0xF3int, 0xD3int), (0xF4int, 0xD4int)]
}

pub open spec fn fold_chunk_14() -> Seq<(int, int)> {
    seq![(0xF5int, 0xD5int), (0xF6int, 0xD6int), (0xF8int, 0xD8int), (0xF9int, 0xD9int), (0xFAint, 0xDAint), (0xFBint, 0xDBint), (0xFCint, 0xDCint), (0xFDint, 0xDDint)]
}

pub open spec fn fold_chunk_15() -> Seq<(int, int)> {
    seq![(0xFEint, 0xDEint), (0xFFint, 0x178int), (0x100int, 0x101int), (0x101int, 0x100int), (0x102int, 0x103int), (0x103int, 0x102int), (0x104int, 0x105int), (0x105int, 0x104int)]
}

pub open spec fn fold_chunk_16() -> Seq<(int, int)> {
    seq![(0x106int, 0x107int), (0x107int, 0x106int), (0x108int, 0x109int), (0x109int, 0x108int), (0x10Aint, 0x10Bint), (0x10Bint, 0x10Aint), (0x10Cint, 0x10Dint), (0x10Dint, 0x10Cint)]
}

pub open spec fn fold_chunk_17() -> Seq<(int, int)> {
    seq![(0x10Eint, 0x10Fint), (0x10Fint, 0x10Eint), (0x110int, 0x111int), (0x111int, 0x110int), (0x112int, 0x113int), (0x113int, 0x112int), (0x114int, 0x115int), (0x115int, 0x114int)]
}

pub open spec fn fold_chunk_18() -> Seq<(int, int)> {
    seq![(0x116int, 0x117int), (0x117int, 0x116int), (0x118int, 0x119int), (0x119int, 0x118int), (0x11Aint, 0x11Bint), (0x11Bint, 0x11Aint), (0x11Cint, 0x11Dint), (0x11Dint, 0x11Cint)]
}

pub open spec fn fold_chunk_19() -> Seq<(int, int)> {
    seq![(0x11Eint, 0x11Fint), (0x11Fint, 0x11Eint), (0x120int, 0x121int), (0x121int, 0x120int), (0x122int, 0x123int), (0x123int, 0x122int), (0x124int, 0x125int), (0x125int, 0x124int)]
}

pub open spec fn fold_chunk_20() -> Seq<(int, int)> {
    seq![(0x126int, 0x127int), (0x127int, 0x126int), (0x128int, 0x129int), (0x129int, 0x128int), (0x12Aint, 0x12Bint), (0x12Bint, 0x12Aint), (0x12Cint, 0x12Dint), (0x12Dint, 0x12Cint)]
}

pub open spec fn fold_chunk_21() -> Seq<(int, int)> {
    seq![(0x12Eint, 0x12Fint), (0x12Fint, 0x12Eint), (0x132int, 0x133int), (0x133int, 0x132int), (0x134int, 0x135int), (0x135int, 0x134int), (0x136int, 0x137int), (0x137int, 0x136int)]
}

pub open spec fn fold_chunk_22() -> Seq<(int, int)> {
    seq![(0x139int, 0x13Aint), (0x13Aint, 0x139int), (0x13Bint, 0x13Cint), (0x13Cint, 0x13Bint), (0x13Dint, 0x13Eint), (0x13Eint, 0x13Dint), (0x13Fint, 0x140int), (0x140int, 0x13Fint)]
}

pub open spec fn fold_chunk_23() -> Seq<(int, int)> {
    seq![(0x141int, 0x142int), (0x142int, 0x141int), (0x143int, 0x144int), (0x144int, 0x143int), (0x145int, 0x146int), (0x146int, 0x145int), (0x147int, 0x148int), (0x148int, 0x147int)]
}

pub open spec fn fold_chunk_24() -> Seq<(int, int)> {
    seq![(0x14Aint, 0x14Bint), (0x14Bint, 0x14Aint), (0x14Cint, 0x14Dint), (0x14Dint, 0x14Cint), (0x14Eint, 0x14Fint), (0x14Fint, 0x14Eint), (0x150int, 0x151int), (0x151int, 0x150int)]
}

pub open spec fn fold_chunk_25() -> Seq<(int, int)> {
    seq![(0x152int, 0x153int), (0x153int, 0x152int), (0x154int, 0x155int), (0x155int, 0x154int), (0x156int, 0x157int), (0x157int, 0x156int), (0x158int, 0x159int), (0x159int, 0x158int)]
}

pub open spec fn fold_chunk_26() -> Seq<(int, int)> {
    seq![(0x15Aint, 0x15Bint), (0x15Bint, 0x15Aint), (0x15Cint, 0x15Dint), (0x15Dint, 0x15Cint), (0x15Eint, 0x15Fint), (0x15Fint, 0x15Eint), (0x160int, 0x161int), (0x161int, 0x160int)]
}

pub open spec fn fold_chunk_27() -> Seq<(int, int)> {
    seq![(0x162int, 0x163int), (0x163int, 0x162int), (0x164int, 0x165int), (0x165int, 0x164int), (0x166int, 0x167int), (0x167int, 0x166int), (0x168int, 0x169int), (0x169int, 0x168int)]
}

pub open spec fn fold_chunk_28() -> Seq<(int, int)> {
    seq![(0x16Aint, 0x16Bint), (0x16Bint, 0x16Aint), (0x16Cint, 0x16Dint), (0x16Dint, 0x16Cint), (0x16Eint, 0x16Fint), (0x16Fint, 0x16Eint), (0x170int, 0x171int), (0x171int, 0x170int)]
}

pub open spec fn fold_chunk_29() -> Seq<(int, int)> {
    seq![(0x172int, 0x173int), (0x173int, 0x172int), (0x174int, 0x175int), (0x175int, 0x174int), (0x176int, 0x177int), (0x177int, 0x176int), (0x178int, 0xFFint), (0x179int, 0x17Aint)]
}

pub open spec fn fold_chunk_30() -> Seq<(int, int)> {
    seq![(0x17Aint, 0x179int), (0x17Bint, 0x17Cint), (0x17Cint, 0x17Bint), (0x17Dint, 0x17Eint), (0x17Eint, 0x17Dint), (0x17Fint, 0x53int), (0x17Fint, 0x73int), (0x180int, 0x243int)]
}

pub open spec fn fold_chunk_31() -> Seq<(int, int)> {
    seq![(0x181int, 0x253int), (0x182int, 0x183int), (0x183int, 0x182int), (0x184int, 0x185int), (0x185int, 0x184int), (0x186int, 0x254int), (0x187int, 0x188int), (0x188int, 0x187int)]
}

pub open spec fn fold_chunk_32() -> Seq<(int, int)> {
    seq![(0x189int, 0x256int), (0x18Aint, 0x257int), (0x18Bint, 0x18Cint), (0x18Cint, 0x18Bint), (0x18Eint, 0x1DDint), (0x18Fint, 0x259int), (0x190int, 0x25Bint), (0x191int, 0x192int)]
}

pub open spec fn fold_chunk_33() -> Seq<(int, int)> {
    seq![(0x192int, 0x191int), (0x193int, 0x260int), (0x194int, 0x263int), (0x195int, 0x1F6int), (0x196int, 0x269int), (0x197int, 0x268int), (0x198int, 0x199int), (0x199int, 0x198int)]
}

pub open spec fn fold_chunk_34() -> Seq<(int, int)> {
    seq![(0x19Aint, 0x23Dint), (0x19Bint, 0xA7DCint), (0x19Cint, 0x26Fint), (0x19Dint, 0x272int), (0x19Eint, 0x220int), (0x19Fint, 0x275int), (0x1A0int, 0x1A1int), (0x1A1int, 0x1A0int)]
}

pub open spec fn fold_chunk_35() -> Seq<(int, int)> {
    seq![(0x1A2int, 0x1A3int), (0x1A3int, 0x1A2int), (0x1A4int, 0x1A5int), (0x1A5int, 0x1A4int), (0x1A6int, 0x280int), (0x1A7int, 0x1A8int), (0x1A8int, 0x1A7int), (0x1A9int, 0x283int)]
}

pub open spec fn fold_chunk_36() -> Seq<(int, int)> {
    seq![(0x1ACint, 0x1ADint), (0x1ADint, 0x1ACint), (0x1AEint, 0x288int), (0x1AFint, 0x1B0int), (0x1B0int, 0x1AFint), (0x1B1int, 0x28Aint), (0x1B2int, 0x28Bint), (0x1B3int, 0x1B4int)]
}

pub open spec fn fold_chunk_37() -> Seq<(int, int)> {
    seq![(0x1B4int, 0x1B3int), (0x1B5int, 0x1B6int), (0x1B6int, 0x1B5int), (0x1B7int, 0x292int), (0x1B8int, 0x1B9int), (0x1B9int, 0x1B8int), (0x1BCint, 0x1BDint), (0x1BDint, 0x1BCint)]
}

pub open spec fn fold_chunk_38() -> Seq<(int, int)> {
    seq![(0x1BFint, 0x1F7int), (0x1C4int, 0x1C5int), (0x1C4int, 0x1C6int), (0x1C5int, 0x1C4int), (0x1C5int, 0x1C6int), (0x1C6int, 0x1C4int), (0x1C6int, 0x1C5int), (0x1C7int, 0x1C8int)]
}

pub open spec fn fold_chunk_39() -> Seq<(int, int)> {
    seq![(0x1C7int, 0x1C9int), (0x1C8int, 0x1C7int), (0x1C8int, 0x1C9int), (0x1C9int, 0x1C7int), (0x1C9int, 0x1C8int), (0x1CAint, 0x1CBint), (0x1CAint, 0x1CCint), (0x1CBint, 0x1CAint)]
}

pub open spec fn fold_chunk_40() -> Seq<(int, int)> {
    seq![(0x1CBint, 0x1CCint), (0x1CCint, 0x1CAint), (0x1CCint, 0x1CBint), (0x1CDint, 0x1CEint), (0x1CEint, 0x1CDint), (0x1CFint, 0x1D0int), (0x1D0int, 0x1CFint), (0x1D1int, 0x1D2int)]
}

pub open spec fn fold_chunk_41() -> Seq<(int, int)> {
    seq![(0x1D2int, 0x1D1int), (0x1D3int, 0x1D4int), (0x1D4int, 0x1D3int), (0x1D5int, 0x1D6int), (0x1D6int, 0x1D5int), (0x1D7int, 0x1D8int), (0x1D8int, 0x1D7int), (0x1D9int, 0x1DAint)]
}

pub open spec fn fold_chunk_42() -> Seq<(int, int)> {
    seq![(0x1DAint, 0x1D9int), (0x1DBint, 0x1DCint), (0x1DCint, 0x1DBint), (0x1DDint, 0x18Eint), (0x1DEint, 0x1DFint), (0x1DFint, 0x1DEint), (0x1E0int, 0x1E1int), (0x1E1int, 0x1E0int)]
}

pub open spec fn fold_chunk_43() -> Seq<(int, int)> {
    seq![(0x1E2int, 0x1E3int), (0x1E3int, 0x1E2int), (0x1E4int, 0x1E5int), (0x1E5int, 0x1E4int), (0x1E6int, 0x1E7int), (0x1E7int, 0x1E6int), (0x1E8int, 0x1E9int), (0x1E9int, 0x1E8int)]
}

pub open spec fn fold_chunk_44() -> Seq<(int, int)> {
    seq![(0x1EAint, 0x1EBint), (0x1EBint, 0x1EAint), (0x1ECint, 0x1EDint), (0x1EDint, 0x1ECint), (0x1EEint, 0x1EFint), (0x1EFint, 0x1EEint), (0x1F1int, 0x1F2int), (0x1F1int, 0x1F3int)]
}

pub open spec fn fold_chunk_45() -> Seq<(int, int)> {
    seq![(0x1F2int, 0x1F1int), (0x1F2int, 0x1F3int), (0x1F3int, 0x1F1int), (0x1F3int, 0x1F2int), (0x1F4int, 0x1F5int), (0x1F5int, 0x1F4int), (0x1F6int, 0x195int), (0x1F7int, 0x1BFint)]
}

pub open spec fn fold_chunk_46() -> Seq<(int, int)> {
    seq![(0x1F8int, 0x1F9int), (0x1F9int, 0x1F8int), (0x1FAint, 0x1FBint), (0x1FBint, 0x1FAint), (0x1FCint, 0x1FDint), (0x1FDint, 0x1FCint), (0x1FEint, 0x1FFint), (0x1FFint, 0x1FEint)]
}

pub open spec fn fold_chunk_47() -> Seq<(int, int)> {
    seq![(0x200int, 0x201int), (0x201int, 0x200int), (0x202int, 0x203int), (0x203int, 0x202int), (0x204int, 0x205int), (0x205int, 0x204int), (0x206int, 0x207int), (0x207int, 0x206int)]
}

pub open spec fn fold_chunk_48() -> Seq<(int, int)> {
    seq![(0x208int, 0x209int), (0x209int, 0x208int), (0x20Aint, 0x20Bint), (0x20Bint, 0x20Aint), (0x20Cint, 0x20Dint), (0x20Dint, 0x20Cint), (0x20Eint, 0x20Fint), (0x20Fint, 0x20Eint)]
}

pub open spec fn fold_chunk_49() -> Seq<(int, int)> {
    seq![(0x210int, 0x211int), (0x211int, 0x210int), (0x212int, 0x213int), (0x213int, 0x212int), (0x214int, 0x215int), (0x215int, 0x214int), (0x216int, 0x217int), (0x217int, 0x216int)]
}

pub open spec fn fold_chunk_50() -> Seq<(int, int)> {
    seq![(0x218int, 0x219int), (0x219int, 0x218int), (0x21Aint, 0x21Bint), (0x21Bint, 0x21Aint), (0x21Cint, 0x21Dint), (0x21Dint, 0x21Cint), (0x21Eint, 0x21Fint), (0x21Fint, 0x21Eint)]
}

pub open spec fn fold_chunk_51() -> Seq<(int, int)> {
    seq![(0x220int, 0x19Eint), (0x222int, 0x223int), (0x223int, 0x222int), (0x224int, 0x225int), (0x225int, 0x224int), (0x226int, 0x227int), (0x227int, 0x226int), (0x228int, 0x229int)]
}

pub open spec fn fold_chunk_52() -> Seq<(int, int)> {
    seq![(0x229int, 0x228int), (0x22Aint, 0x22Bint), (0x22Bint, 0x22Aint), (0x22Cint, 0x22Dint), (0x22Dint, 0x22Cint), (0x22Eint, 0x22Fint), (0x22Fint, 0x22Eint), (0x230int, 0x231int)]
}

pub open spec fn fold_chunk_53() -> Seq<(int, int)> {
    seq![(0x231int, 0x230int), (0x232int, 0x233int), (0x233int, 0x232int), (0x23Aint, 0x2C65int), (0x23Bint, 0x23Cint), (0x23Cint, 0x23Bint), (0x23Dint, 0x19Aint), (0x23Eint, 0x2C66int)]
}

pub open spec fn fold_chunk_54() -> Seq<(int, int)> {
    seq![(0x23Fint, 0x2C7Eint), (0x240int, 0x2C7Fint), (0x241int, 0x242int), (0x242int, 0x241int), (0x243int, 0x180int), (0x244int, 0x289int), (0x245int, 0x28Cint), (0x246int, 0x247int)]
}

pub open spec fn fold_chunk_55() -> Seq<(int, int)> {
    seq![(0x247int, 0x246int), (0x248int, 0x249int), (0x249int, 0x248int), (0x24Aint, 0x24Bint), (0x24Bint, 0x24Aint), (0x24Cint, 0x24Dint), (0x24Dint, 0x24Cint), (0x24Eint, 0x24Fint)]
}

pub open spec fn fold_chunk_56() -> Seq<(int, int)> {
    seq![(0x24Fint, 0x24Eint), (0x250int, 0x2C6Fint), (0x251int, 0x2C6Dint), (0x252int, 0x2C70int), (0x253int, 0x181int), (0x254int, 0x186int), (0x256int, 0x189int), (0x257int, 0x18Aint)]
}

pub open spec fn fold_chunk_57() -> Seq<(int, int)> {
    seq![(0x259int, 0x18Fint), (0x25Bint, 0x190int), (0x25Cint, 0xA7ABint), (0x260int, 0x193int), (0x261int, 0xA7ACint), (0x263int, 0x194int), (0x264int, 0xA7CBint), (0x265int, 0xA78Dint)]
}

pub open spec fn fold_chunk_58() -> Seq<(int, int)> {
    seq![(0x266int, 0xA7AAint), (0x268int, 0x197int), (0x269int, 0x196int), (0x26Aint, 0xA7AEint), (0x26Bint, 0x2C62int), (0x26Cint, 0xA7ADint), (0x26Fint, 0x19Cint), (0x271int, 0x2C6Eint)]
}

pub open spec fn fold_chunk_59() -> Seq<(int, int)> {
    seq![(0x272int, 0x19Dint), (0x275int, 0x19Fint), (0x27Dint, 0x2C64int), (0x280int, 0x1A6int), (0x282int, 0xA7C5int), (0x283int, 0x1A9int), (0x287int, 0xA7B1int), (0x288int, 0x1AEint)]
}

pub open spec fn fold_chunk_60() -> Seq<(int, int)> {
    seq![(0x289int, 0x244int), (0x28Aint, 0x1B1int), (0x28Bint, 0x1B2int), (0x28Cint, 0x245int), (0x292int, 0x1B7int), (0x29Dint, 0xA7B2int), (0x29Eint, 0xA7B0int), (0x345int, 0x399int)]
}

pub open spec fn fold_chunk_61() -> Seq<(int, int)> {
    seq![(0x345int, 0x3B9int), (0x345int, 0x1FBEint), (0x370int, 0x371int), (0x371int, 0x370int), (0x372int, 0x373int), (0x373int, 0x372int), (0x376int, 0x377int), (0x377int, 0x376int)]
}

pub open spec fn fold_chunk_62() -> Seq<(int, int)> {
    seq![(0x37Bint, 0x3FDint), (0x37Cint, 0x3FEint), (0x37Dint, 0x3FFint), (0x37Fint, 0x3F3int), (0x386int, 0x3ACint), (0x388int, 0x3ADint), (0x389int, 0x3AEint), (0x38Aint, 0x3AFint)]
}

pub open spec fn fold_chunk_63() -> Seq<(int, int)> {
    seq![(0x38Cint, 0x3CCint), (0x38Eint, 0x3CDint), (0x38Fint, 0x3CEint), (0x390int, 0x1FD3int), (0x391int, 0x3B1int), (0x392int, 0x3B2int), (0x392int, 0x3D0int), (0x393int, 0x3B3int)]
}

pub open spec fn fold_chunk_64() -> Seq<(int, int)> {
    seq![(0x394int, 0x3B4int), (0x395int, 0x3B5int), (0x395int, 0x3F5int), (0x396int, 0x3B6int), (0x397int, 0x3B7int), (0x398int, 0x3B8int), (0x398int, 0x3D1int), (0x398int, 0x3F4int)]
}

pub open spec fn fold_chunk_65() -> Seq<(int, int)> {
    seq![(0x399int, 0x345int), (0x399int, 0x3B9int), (0x399int, 0x1FBEint), (0x39Aint, 0x3BAint), (0x39Aint, 0x3F0int), (0x39Bint, 0x3BBint), (0x39Cint, 0xB5int), (0x39Cint, 0x3BCint)]
}

pub open spec fn fold_chunk_66() -> Seq<(int, int)> {
    seq![(0x39Dint, 0x3BDint), (0x39Eint, 0x3BEint), (0x39Fint, 0x3BFint), (0x3A0int, 0x3C0int), (0x3A0int, 0x3D6int), (0x3A1int, 0x3C1int), (0x3A1int, 0x3F1int), (0x3A3int, 0x3C2int)]
}

pub open spec fn fold_chunk_67() -> Seq<(int, int)> {
    seq![(0x3A3int, 0x3C3int), (0x3A4int, 0x3C4int), (0x3A5int, 0x3C5int), (0x3A6int, 0x3C6int), (0x3A6int, 0x3D5int), (0x3A7int, 0x3C7int), (0x3A8int, 0x3C8int), (0x3A9int, 0x3C9int)]
}

pub open spec fn fold_chunk_68() -> Seq<(int, int)> {
    seq![(0x3A9int, 0x2126int), (0x3AAint, 0x3CAint), (0x3ABint, 0x3CBint), (0x3ACint, 0x386int), (0x3ADint, 0x388int), (0x3AEint, 0x389int), (0x3AFint, 0x38Aint), (0x3B0int, 0x1FE3int)]
}

pub open spec fn fold_chunk_69() -> Seq<(int, int)> {
    seq![(0x3B1int, 0x391int), (0x3B2int, 0x392int), (0x3B2int, 0x3D0int), (0x3B3int, 0x393int), (0x3B4int, 0x394int), (0x3B5int, 0x395int), (0x3B5int, 0x3F5int), (0x3B6int, 0x396int)]
}

pub open spec fn fold_chunk_70() -> Seq<(int, int)> {
    seq![(0x3B7int, 0x397int), (0x3B8int, 0x398int), (0x3B8int, 0x3D1int), (0x3B8int, 0x3F4int), (0x3B9int, 0x345int), (0x3B9int, 0x399int), (0x3B9int, 0x1FBEint), (0x3BAint, 0x39Aint)]
}

pub open spec fn fold_chunk_71() -> Seq<(int, int)> {
    seq![(0x3BAint, 0x3F0int), (0x3BBint, 0x39Bint), (0x3BCint, 0xB5int), (0x3BCint, 0x39Cint), (0x3BDint, 0x39Dint), (0x3BEint, 0x39Eint), (0x3BFint, 0x39Fint), (0x3C0int, 0x3A0int)]
}

pub open spec fn fold_chunk_72() -> Seq<(int, int)> {
    seq![(0x3C0int, 0x3D6int), (0x3C1int, 0x3A1int), (0x3C1int, 0x3F1int), (0x3C2int, 0x3A3int), (0x3C2int, 0x3C3int), (0x3C3int, 0x3A3int), (0x3C3int, 0x3C2int), (0x3C4int, 0x3A4int)]
}

pub open spec fn fold_chunk_73() -> Seq<(int, int)> {
    seq![(0x3C5int, 0x3A5int), (0x3C6int, 0x3A6int), (0x3C6int, 0x3D5int), (0x3C7int, 0x3A7int), (0x3C8int, 0x3A8int), (0x3C9int, 0x3A9int), (0x3C9int, 0x2126int), (0x3CAint, 0x3AAint)]
}

pub open spec fn fold_chunk_74() -> Seq<(int, int)> {
    seq![(0x3CBint, 0x3ABint), (0x3CCint, 0x38Cint), (0x3CDint, 0x38Eint), (0x3CEint, 0x38Fint), (0x3CFint, 0x3D7int), (0x3D0int, 0x392int), (0x3D0int, 0x3B2int), (0x3D1int, 0x398int)]
}

pub open spec fn fold_chunk_75() -> Seq<(int, int)> {
    seq![(0x3D1int, 0x3B8int), (0x3D1int, 0x3F4int), (0x3D5int, 0x3A6int), (0x3D5int, 0x3C6int), (0x3D6int, 0x3A0int), (0x3D6int, 0x3C0int), (0x3D7int, 0x3CFint), (0x3D8int, 0x3D9int)]
}

pub open spec fn fold_chunk_76() -> Seq<(int, int)> {
    seq![(0x3D9int, 0x3D8int), (0x3DAint, 0x3DBint), (0x3DBint, 0x3DAint), (0x3DCint, 0x3DDint), (0x3DDint, 0x3DCint), (0x3DEint, 0x3DFint), (0x3DFint, 0x3DEint), (0x3E0int, 0x3E1int)]
}

pub open spec fn fold_chunk_77() -> Seq<(int, int)> {
    seq![(0x3E1int, 0x3E0int), (0x3E2int, 0x3E3int), (0x3E3int, 0x3E2int), (0x3E4int, 0x3E5int), (0x3E5int, 0x3E4int), (0x3E6int, 0x3E7int), (0x3E7int, 0x3E6int), (0x3E8int, 0x3E9int)]
}

pub open spec fn fold_chunk_78() -> Seq<(int, int)> {
    seq![(0x3E9int, 0x3E8int), (0x3EAint, 0x3EBint), (0x3EBint, 0x3EAint), (0x3ECint, 0x3EDint), (0x3EDint, 0x3ECint), (0x3EEint, 0x3EFint), (0x3EFint, 0x3EEint), (0x3F0int, 0x39Aint)]
}

pub open spec fn fold_chunk_79() -> Seq<(int, int)> {
    seq![(0x3F0int, 0x3BAint), (0x3F1int, 0x3A1int), (0x3F1int, 0x3C1int), (0x3F2int, 0x3F9int), (0x3F3int, 0x37Fint), (0x3F4int, 0x398int), (0x3F4int, 0x3B8int), (0x3F4int, 0x3D1int)]
}

pub open spec fn fold_chunk_80() -> Seq<(int, int)> {
    seq![(0x3F5int, 0x395int), (0x3F5int, 0x3B5int), (0x3F7int, 0x3F8int), (0x3F8int, 0x3F7int), (0x3F9int, 0x3F2int), (0x3FAint, 0x3FBint), (0x3FBint, 0x3FAint), (0x3FDint, 0x37Bint)]
}

pub open spec fn fold_chunk_81() -> Seq<(int, int)> {
    seq![(0x3FEint, 0x37Cint), (0x3FFint, 0x37Dint), (0x400int, 0x450int), (0x401int, 0x451int), (0x402int, 0x452int), (0x403int, 0x453int), (0x404int, 0x454int), (0x405int, 0x455int)]
}

pub open spec fn fold_chunk_82() -> Seq<(int, int)> {
    seq![(0x406int, 0x456int), (0x407int, 0x457int), (0x408int, 0x458int), (0x409int, 0x459int), (0x40Aint, 0x45Aint), (0x40Bint, 0x45Bint), (0x40Cint, 0x45Cint), (0x40Dint, 0x45Dint)]
}

pub open spec fn fold_chunk_83() -> Seq<(int, int)> {
    seq![(0x40Eint, 0x45Eint), (0x40Fint, 0x45Fint), (0x410int, 0x430int), (0x411int, 0x431int), (0x412int, 0x432int), (0x412int, 0x1C80int), (0x413int, 0x433int), (0x414int, 0x434int)]
}

pub open spec fn fold_chunk_84() -> Seq<(int, int)> {
    seq![(0x414int, 0x1C81int), (0x415int, 0x435int), (0x416int, 0x436int), (0x417int, 0x437int), (0x418int, 0x438int), (0x419int, 0x439int), (0x41Aint, 0x43Aint), (0x41Bint, 0x43Bint)]
}

pub open spec fn fold_chunk_85() -> Seq<(int, int)> {
    seq![(0x41Cint, 0x43Cint), (0x41Dint, 0x43Dint), (0x41Eint, 0x43Eint), (0x41Eint, 0x1C82int), (0x41Fint, 0x43Fint), (0x420int, 0x440int), (0x421int, 0x441int), (0x421int, 0x1C83int)]
}

pub open spec fn fold_chunk_86() -> Seq<(int, int)> {
    seq![(0x422int, 0x442int), (0x422int, 0x1C84int), (0x422int, 0x1C85int), (0x423int, 0x443int), (0x424int, 0x444int), (0x425int, 0x445int), (0x426int, 0x446int), (0x427int, 0x447int)]
}

pub open spec fn fold_chunk_87() -> Seq<(int, int)> {
    seq![(0x428int, 0x448int), (0x429int, 0x449int), (0x42Aint, 0x44Aint), (0x42Aint, 0x1C86int), (0x42Bint, 0x44Bint), (0x42Cint, 0x44Cint), (0x42Dint, 0x44Dint), (0x42Eint, 0x44Eint)]
}

pub open spec fn fold_chunk_88() -> Seq<(int, int)> {
    seq![(0x42Fint, 0x44Fint), (0x430int, 0x410int), (0x431int, 0x411int), (0x432int, 0x412int), (0x432int, 0x1C80int), (0x433int, 0x413int), (0x434int, 0x414int), (0x434int, 0x1C81int)]
}

pub open spec fn fold_chunk_89() -> Seq<(int, int)> {
    seq![(0x435int, 0x415int), (0x436int, 0x416int), (0x437int, 0x417int), (0x438int, 0x418int), (0x439int, 0x419int), (0x43Aint, 0x41Aint), (0x43Bint, 0x41Bint), (0x43Cint, 0x41Cint)]
}

pub open spec fn fold_chunk_90() -> Seq<(int, int)> {
    seq![(0x43Dint, 0x41Dint), (0x43Eint, 0x41Eint), (0x43Eint, 0x1C82int), (0x43Fint, 0x41Fint), (0x440int, 0x420int), (0x441int, 0x421int), (0x441int, 0x1C83int), (0x442int, 0x422int)]
}

pub open spec fn fold_chunk_91() -> Seq<(int, int)> {
    seq![(0x442int, 0x1C84int), (0x442int, 0x1C85int), (0x443int, 0x423int), (0x444int, 0x424int), (0x445int, 0x425int), (0x446int, 0x426int), (0x447int, 0x427int), (0x448int, 0x428int)]
}

pub open spec fn fold_chunk_92() -> Seq<(int, int)> {
    seq![(0x449int, 0x429int), (0x44Aint, 0x42Aint), (0x44Aint, 0x1C86int), (0x44Bint, 0x42Bint), (0x44Cint, 0x42Cint), (0x44Dint, 0x42Dint), (0x44Eint, 0x42Eint), (0x44Fint, 0x42Fint)]
}

pub open spec fn fold_chunk_93() -> Seq<(int, int)> {
    seq![(0x450int, 0x400int), (0x451int, 0x401int), (0x452int, 0x402int), (0x453int, 0x403int), (0x454int, 0x404int), (0x455int, 0x405int), (0x456int, 0x406int), (0x457int, 0x407int)]
}

pub open spec fn fold_chunk_94() -> Seq<(int, int)> {
    seq![(0x458int, 0x408int), (0x459int, 0x409int), (0x45Aint, 0x40Aint), (0x45Bint, 0x40Bint), (0x45Cint, 0x40Cint), (0x45Dint, 0x40Dint), (0x45Eint, 0x40Eint), (0x45Fint, 0x40Fint)]
}

pub open spec fn fold_chunk_95() -> Seq<(int, int)> {
    seq![(0x460int, 0x461int), (0x461int, 0x460int), (0x462int, 0x463int), (0x462int, 0x1C87int), (0x463int, 0x462int), (0x463int, 0x1C87int), (0x464int, 0x465int), (0x465int, 0x464int)]
}

pub open spec fn fold_chunk_96() -> Seq<(int, int)> {
    seq![(0x466int, 0x467int), (0x467int, 0x466int), (0x468int, 0x469int), (0x469int, 0x468int), (0x46Aint, 0x46Bint), (0x46Bint, 0x46Aint), (0x46Cint, 0x46Dint), (0x46Dint, 0x46Cint)]
}

pub open spec fn fold_chunk_97() -> Seq<(int, int)> {
    seq![(0x46Eint, 0x46Fint), (0x46Fint, 0x46Eint), (0x470int, 0x471int), (0x471int, 0x470int), (0x472int, 0x473int), (0x473int, 0x472int), (0x474int, 0x475int), (0x475int, 0x474int)]
}

pub open spec fn fold_chunk_98() -> Seq<(int, int)> {
    seq![(0x476int, 0x477int), (0x477int, 0x476int), (0x478int, 0x479int), (0x479int, 0x478int), (0x47Aint, 0x47Bint), (0x47Bint, 0x47Aint), (0x47Cint, 0x47Dint), (0x47Dint, 0x47Cint)]
}

pub open spec fn fold_chunk_99() -> Seq<(int, int)> {
    seq![(0x47Eint, 0x47Fint), (0x47Fint, 0x47Eint), (0x480int, 0x481int), (0x481int, 0x480int), (0x48Aint, 0x48Bint), (0x48Bint, 0x48Aint), (0x48Cint, 0x48Dint), (0x48Dint, 0x48Cint)]
}

pub open spec fn fold_chunk_100() -> Seq<(int, int)> {
    seq![(0x48Eint, 0x48Fint), (0x48Fint, 0x48Eint), (0x490int, 0x491int), (0x491int, 0x490int), (0x492int, 0x493int), (0x493int, 0x492int), (0x494int, 0x495int), (0x495int, 0x494int)]
}

pub open spec fn fold_chunk_101() -> Seq<(int, int)> {
    seq![(0x496int, 0x497int), (0x497int, 0x496int), (0x498int, 0x499int), (0x499int, 0x498int), (0x49Aint, 0x49Bint), (0x49Bint, 0x49Aint), (0x49Cint, 0x49Dint), (0x49Dint, 0x49Cint)]
}

pub open spec fn fold_chunk_102() -> Seq<(int, int)> {
    seq![(0x49Eint, 0x49Fint), (0x49Fint, 0x49Eint), (0x4A0int, 0x4A1int), (0x4A1int, 0x4A0int), (0x4A2int, 0x4A3int), (0x4A3int, 0x4A2int), (0x4A4int, 0x4A5int), (0x4A5int, 0x4A4int)]
}

pub open spec fn fold_chunk_103() -> Seq<(int, int)> {
    seq![(0x4A6int, 0x4A7int), (0x4A7int, 0x4A6int), (0x4A8int, 0x4A9int), (0x4A9int, 0x4A8int), (0x4AAint, 0x4ABint), (0x4ABint, 0x4AAint), (0x4ACint, 0x4ADint), (0x4ADint, 0x4ACint)]
}

pub open spec fn fold_chunk_104() -> Seq<(int, int)> {
    seq![(0x4AEint, 0x4AFint), (0x4AFint, 0x4AEint), (0x4B0int, 0x4B1int), (0x4B1int, 0x4B0int), (0x4B2int, 0x4B3int), (0x4B3int, 0x4B2int), (0x4B4int, 0x4B5int), (0x4B5int, 0x4B4int)]
}

pub open spec fn fold_chunk_105() -> Seq<(int, int)> {
    seq![(0x4B6int, 0x4B7int), (0x4B7int, 0x4B6int), (0x4B8int, 0x4B9int), (0x4B9int, 0x4B8int), (0x4BAint, 0x4BBint), (0x4BBint, 0x4BAint), (0x4BCint, 0x4BDint), (0x4BDint, 0x4BCint)]
}

pub open spec fn fold_chunk_106() -> Seq<(int, int)> {
    seq![(0x4BEint, 0x4BFint), (0x4BFint, 0x4BEint), (0x4C0int, 0x4CFint), (0x4C1int, 0x4C2int), (0x4C2int, 0x4C1int), (0x4C3int, 0x4C4int), (0x4C4int, 0x4C3int), (0x4C5int, 0x4C6int)]
}

pub open spec fn fold_chunk_107() -> Seq<(int, int)> {
    seq![(0x4C6int, 0x4C5int), (0x4C7int, 0x4C8int), (0x4C8int, 0x4C7int), (0x4C9int, 0x4CAint), (0x4CAint, 0x4C9int), (0x4CBint, 0x4CCint), (0x4CCint, 0x4CBint), (0x4CDint, 0x4CEint)]
}

pub open spec fn fold_chunk_108() -> Seq<(int, int)> {
    seq![(0x4CEint, 0x4CDint), (0x4CFint, 0x4C0int), (0x4D0int, 0x4D1int), (0x4D1int, 0x4D0int), (0x4D2int, 0x4D3int), (0x4D3int, 0x4D2int), (0x4D4int, 0x4D5int), (0x4D5int, 0x4D4int)]
}

pub open spec fn fold_chunk_109() -> Seq<(int, int)> {
    seq![(0x4D6int, 0x4D7int), (0x4D7int, 0x4D6int), (0x4D8int, 0x4D9int), (0x4D9int, 0x4D8int), (0x4DAint, 0x4DBint), (0x4DBint, 0x4DAint), (0x4DCint, 0x4DDint), (0x4DDint, 0x4DCint)]
}

pub open spec fn fold_chunk_110() -> Seq<(int, int)> {
    seq![(0x4DEint, 0x4DFint), (0x4DFint, 0x4DEint), (0x4E0int, 0x4E1int), (0x4E1int, 0x4E0int), (0x4E2int, 0x4E3int), (0x4E3int, 0x4E2int), (0x4E4int, 0x4E5int), (0x4E5int, 0x4E4int)]
}

pub open spec fn fold_chunk_111() -> Seq<(int, int)> {
    seq![(0x4E6int, 0x4E7int), (0x4E7int, 0x4E6int), (0x4E8int, 0x4E9int), (0x4E9int, 0x4E8int), (0x4EAint, 0x4EBint), (0x4EBint, 0x4EAint), (0x4ECint, 0x4EDint), (0x4EDint, 0x4ECint)]
}

pub open spec fn fold_chunk_112() -> Seq<(int, int)> {
    seq![(0x4EEint, 0x4EFint), (0x4EFint, 0x4EEint), (0x4F0int, 0x4F1int), (0x4F1int, 0x4F0int), (0x4F2int, 0x4F3int), (0x4F3int, 0x4F2int), (0x4F4int, 0x4F5int), (0x4F5int, 0x4F4int)]
}

pub open spec fn fold_chunk_113() -> Seq<(int, int)> {
    seq![(0x4F6int, 0x4F7int), (0x4F7int, 0x4F6int), (0x4F8int, 0x4F9int), (0x4F9int, 0x4F8int), (0x4FAint, 0x4FBint), (0x4FBint, 0x4FAint), (0x4FCint, 0x4FDint), (0x4FDint, 0x4FCint)]
}

pub open spec fn fold_chunk_114() -> Seq<(int, int)> {
    seq![(0x4FEint, 0x4FFint), (0x4FFint, 0x4FEint), (0x500int, 0x501int), (0x501int, 0x500int), (0x502int, 0x503int), (0x503int, 0x502int), (0x504int, 0x505int), (0x505int, 0x504int)]
}

pub open spec fn fold_chunk_115() -> Seq<(int, int)> {
    seq![(0x506int, 0x507int), (0x507int, 0x506int), (0x508int, 0x509int), (0x509int, 0x508int), (0x50Aint, 0x50Bint), (0x50Bint, 0x50Aint), (0x50Cint, 0x50Dint), (0x50Dint, 0x50Cint)]
}

pub open spec fn fold_chunk_116() -> Seq<(int, int)> {
    seq![(0x50Eint, 0x50Fint), (0x50Fint, 0x50Eint), (0x510int, 0x511int), (0x511int, 0x510int), (0x512int, 0x513int), (0x513int, 0x512int), (0x514int, 0x515int), (0x515int, 0x514int)]
}

pub open spec fn fold_chunk_117() -> Seq<(int, int)> {
    seq![(0x516int, 0x517int), (0x517int, 0x516int), (0x518int, 0x519int), (0x519int, 0x518int), (0x51Aint, 0x51Bint), (0x51Bint, 0x51Aint), (0x51Cint, 0x51Dint), (0x51Dint, 0x51Cint)]
}

pub open spec fn fold_chunk_118() -> Seq<(int, int)> {
    seq![(0x51Eint, 0x51Fint), (0x51Fint, 0x51Eint), (0x520int, 0x521int), (0x521int, 0x520int), (0x522int, 0x523int), (0x523int, 0x522int), (0x524int, 0x525int), (0x525int, 0x524int)]
}

pub open spec fn fold_chunk_119() -> Seq<(int, int)> {
    seq![(0x526int, 0x527int), (0x527int, 0x526int), (0x528int, 0x529int), (0x529int, 0x528int), (0x52Aint, 0x52Bint), (0x52Bint, 0x52Aint), (0x52Cint, 0x52Dint), (0x52Dint, 0x52Cint)]
}

pub open spec fn fold_chunk_120() -> Seq<(int, int)> {
    seq![(0x52Eint, 0x52Fint), (0x52Fint, 0x52Eint), (0x531int, 0x561int), (0x532int, 0x562int), (0x533int, 0x563int), (0x534int, 0x564int), (0x535int, 0x565int), (0x536int, 0x566int)]
}

pub open spec fn fold_chunk_121() -> Seq<(int, int)> {
    seq![(0x537int, 0x567int), (0x538int, 0x568int), (0x539int, 0x569int), (0x53Aint, 0x56Aint), (0x53Bint, 0x56Bint), (0x53Cint, 0x56Cint), (0x53Dint, 0x56Dint), (0x53Eint, 0x56Eint)]
}

pub open spec fn fold_chunk_122() -> Seq<(int, int)> {
    seq![(0x53Fint, 0x56Fint), (0x540int, 0x570int), (0x541int, 0x571int), (0x542int, 0x572int), (0x543int, 0x573int), (0x544int, 0x574int), (0x545int, 0x575int), (0x546int, 0x576int)]
}

pub open spec fn fold_chunk_123() -> Seq<(int, int)> {
    seq![(0x547int, 0x577int), (0x548int, 0x578int), (0x549int, 0x579int), (0x54Aint, 0x57Aint), (0x54Bint, 0x57Bint), (0x54Cint, 0x57Cint), (0x54Dint, 0x57Dint), (0x54Eint, 0x57Eint)]
}

pub open spec fn fold_chunk_124() -> Seq<(int, int)> {
    seq![(0x54Fint, 0x57Fint), (0x550int, 0x580int), (0x551int, 0x581int), (0x552int, 0x582int), (0x553int, 0x583int), (0x554int, 0x584int), (0x555int, 0x585int), (0x556int, 0x586int)]
}

pub open spec fn fold_chunk_125() -> Seq<(int, int)> {
    seq![(0x561int, 0x531int), (0x562int, 0x532int), (0x563int, 0x533int), (0x564int, 0x534int), (0x565int, 0x535int), (0x566int, 0x536int), (0x567int, 0x537int), (0x568int, 0x538int)]
}

pub open spec fn fold_chunk_126() -> Seq<(int, int)> {
    seq![(0x569int, 0x539int), (0x56Aint, 0x53Aint), (0x56Bint, 0x53Bint), (0x56Cint, 0x53Cint), (0x56Dint, 0x53Dint), (0x56Eint, 0x53Eint), (0x56Fint, 0x53Fint), (0x570int, 0x540int)]
}

pub open spec fn fold_chunk_127() -> Seq<(int, int)> {
    seq![(0x571int, 0x541int), (0x572int, 0x542int), (0x573int, 0x543int), (0x574int, 0x544int), (0x575int, 0x545int), (0x576int, 0x546int), (0x577int, 0x547int), (0x578int, 0x548int)]
}

pub open spec fn fold_chunk_128() -> Seq<(int, int)> {
    seq![(0x579int, 0x549int), (0x57Aint, 0x54Aint), (0x57Bint, 0x54Bint), (0x57Cint, 0x54Cint), (0x57Dint, 0x54Dint), (0x57Eint, 0x54Eint), (0x57Fint, 0x54Fint), (0x580int, 0x550int)]
}

pub open spec fn fold_chunk_129() -> Seq<(int, int)> {
    seq![(0x581int, 0x551int), (0x582int, 0x552int), (0x583int, 0x553int), (0x584int, 0x554int), (0x585int, 0x555int), (0x586int, 0x556int), (0x10A0int, 0x2D00int), (0x10A1int, 0x2D01int)]
}

pub open spec fn fold_chunk_130() -> Seq<(int, int)> {
    seq![(0x10A2int, 0x2D02int), (0x10A3int, 0x2D03int), (0x10A4int, 0x2D04int), (0x10A5int, 0x2D05int), (0x10A6int, 0x2D06int), (0x10A7int, 0x2D07int), (0x10A8int, 0x2D08int), (0x10A9int, 0x2D09int)]
}

pub open spec fn fold_chunk_131() -> Seq<(int, int)> {
    seq![(0x10AAint, 0x2D0Aint), (0x10ABint, 0x2D0Bint), (0x10ACint, 0x2D0Cint), (0x10ADint, 0x2D0Dint), (0x10AEint, 0x2D0Eint), (0x10AFint, 0x2D0Fint), (0x10B0int, 0x2D10int), (0x10B1int, 0x2D11int)]
}

pub open spec fn fold_chunk_132() -> Seq<(int, int)> {
    seq![(0x10B2int, 0x2D12int), (0x10B3int, 0x2D13int), (0x10B4int, 0x2D14int), (0x10B5int, 0x2D15int), (0x10B6int, 0x2D16int), (0x10B7int, 0x2D17int), (0x10B8int, 0x2D18int), (0x10B9int, 0x2D19int)]
}

pub open spec fn fold_chunk_133() -> Seq<(int, int)> {
    seq![(0x10BAint, 0x2D1Aint), (0x10BBint, 0x2D1Bint), (0x10BCint, 0x2D1Cint), (0x10BDint, 0x2D1Dint), (0x10BEint, 0x2D1Eint), (0x10BFint, 0x2D1Fint), (0x10C0int, 0x2D20int), (0x10C1int, 0x2D21int)]
}

pub open spec fn fold_chunk_134() -> Seq<(int, int)> {
    seq![(0x10C2int, 0x2D22int), (0x10C3int, 0x2D23int), (0x10C4int, 0x2D24int), (0x10C5int, 0x2D25int), (0x10C7int, 0x2D27int), (0x10CDint, 0x2D2Dint), (0x10D0int, 0x1C90int), (0x10D1int, 0x1C91int)]
}

pub open spec fn fold_chunk_135() -> Seq<(int, int)> {
    seq![(0x10D2int, 0x1C92int), (0x10D3int, 0x1C93int), (0x10D4int, 0x1C94int), (0x10D5int, 0x1C95int), (0x10D6int, 0x1C96int), (0x10D7int, 0x1C97int), (0x10D8int, 0x1C98int), (0x10D9int, 0x1C99int)]
}

pub open spec fn fold_chunk_136() -> Seq<(int, int)> {
    seq![(0x10DAint, 0x1C9Aint), (0x10DBint, 0x1C9Bint), (0x10DCint, 0x1C9Cint), (0x10DDint, 0x1C9Dint), (0x10DEint, 0x1C9Eint), (0x10DFint, 0x1C9Fint), (0x10E0int, 0x1CA0int), (0x10E1int, 0x1CA1int)]
}

pub open spec fn fold_chunk_137() -> Seq<(int, int)> {
    seq![(0x10E2int, 0x1CA2int), (0x10E3int, 0x1CA3int), (0x10E4int, 0x1CA4int), (0x10E5int, 0x1CA5int), (0x10E6int, 0x1CA6int), (0x10E7int, 0x1CA7int), (0x10E8int, 0x1CA8int), (0x10E9int, 0x1CA9int)]
}

pub open spec fn fold_chunk_138() -> Seq<(int, int)> {
    seq![(0x10EAint, 0x1CAAint), (0x10EBint, 0x1CABint), (0x10ECint, 0x1CACint), (0x10EDint, 0x1CADint), (0x10EEint, 0x1CAEint), (0x10EFint, 0x1CAFint), (0x10F0int, 0x1CB0int), (0x10F1int, 0x1CB1int)]
}

pub open spec fn fold_chunk_139() -> Seq<(int, int)> {
    seq![(0x10F2int, 0x1CB2int), (0x10F3int, 0x1CB3int), (0x10F4int, 0x1CB4int), (0x10F5int, 0x1CB5int), (0x10F6int, 0x1CB6int), (0x10F7int, 0x1CB7int), (0x10F8int, 0x1CB8int), (0x10F9int, 0x1CB9int)]
}

pub open spec fn fold_chunk_140() -> Seq<(int, int)> {
    seq![(0x10FAint, 0x1CBAint), (0x10FDint, 0x1CBDint), (0x10FEint, 0x1CBEint), (0x10FFint, 0x1CBFint), (0x13A0int, 0xAB70int), (0x13A1int, 0xAB71int), (0x13A2int, 0xAB72int), (0x13A3int, 0xAB73int)]
}

pub open spec fn fold_chunk_141() -> Seq<(int, int)> {
    seq![(0x13A4int, 0xAB74int), (0x13A5int, 0xAB75int), (0x13A6int, 0xAB76int), (0x13A7int, 0xAB77int), (0x13A8int, 0xAB78int), (0x13A9int, 0xAB79int), (0x13AAint, 0xAB7Aint), (0x13ABint, 0xAB7Bint)]
}

pub open spec fn fold_chunk_142() -> Seq<(int, int)> {
    seq![(0x13ACint, 0xAB7Cint), (0x13ADint, 0xAB7Dint), (0x13AEint, 0xAB7Eint), (0x13AFint, 0xAB7Fint), (0x13B0int, 0xAB80int), (0x13B1int, 0xAB81int), (0x13B2int, 0xAB82int), (0x13B3int, 0xAB83int)]
}

pub open spec fn fold_chunk_143() -> Seq<(int, int)> {
    seq![(0x13B4int, 0xAB84int), (0x13B5int, 0xAB85int), (0x13B6int, 0xAB86int), (0x13B7int, 0xAB87int), (0x13B8int, 0xAB88int), (0x13B9int, 0xAB89int), (0x13BAint, 0xAB8Aint), (0x13BBint, 0xAB8Bint)]
}

pub open spec fn fold_chunk_144() -> Seq<(int, int)> {
    seq![(0x13BCint, 0xAB8Cint), (0x13BDint, 0xAB8Dint), (0x13BEint, 0xAB8Eint), (0x13BFint, 0xAB8Fint), (0x13C0int, 0xAB90int), (0x13C1int, 0xAB91int), (0x13C2int, 0xAB92int), (0x13C3int, 0xAB93int)]
}

pub open spec fn fold_chunk_145() -> Seq<(int, int)> {
    seq![(0x13C4int, 0xAB94int), (0x13C5int, 0xAB95int), (0x13C6int, 0xAB96int), (0x13C7int, 0xAB97int), (0x13C8int, 0xAB98int), (0x13C9int, 0xAB99int), (0x13CAint, 0xAB9Aint), (0x13CBint, 0xAB9Bint)]
}

pub open spec fn fold_chunk_146() -> Seq<(int, int)> {
    seq![(0x13CCint, 0xAB9Cint), (0x13CDint, 0xAB9Dint), (0x13CEint, 0xAB9Eint), (0x13CFint, 0xAB9Fint), (0x13D0int, 0xABA0int), (0x13D1int, 0xABA1int), (0x13D2int, 0xABA2int), (0x13D3int, 0xABA3int)]
}

pub open spec fn fold_chunk_147() -> Seq<(int, int)> {
    seq![(0x13D4int, 0xABA4int), (0x13D5int, 0xABA5int), (0x13D6int, 0xABA6int), (0x13D7int, 0xABA7int), (0x13D8int, 0xABA8int), (0x13D9int, 0xABA9int), (0x13DAint, 0xABAAint), (0x13DBint, 0xABABint)]
}

pub open spec fn fold_chunk_148() -> Seq<(int, int)> {
    seq![(0x13DCint, 0xABACint), (0x13DDint, 0xABADint), (0x13DEint, 0xABAEint), (0x13DFint, 0xABAFint), (0x13E0int, 0xABB0int), (0x13E1int, 0xABB1int), (0x13E2int, 0xABB2int), (0x13E3int, 0xABB3int)]
}

pub open spec fn fold_chunk_149() -> Seq<(int, int)> {
    seq![(0x13E4int, 0xABB4int), (0x13E5int, 0xABB5int), (0x13E6int, 0xABB6int), (0x13E7int, 0xABB7int), (0x13E8int, 0xABB8int), (0x13E9int, 0xABB9int), (0x13EAint, 0xABBAint), (0x13EBint, 0xABBBint)]
}

pub open spec fn fold_chunk_150() -> Seq<(int, int)> {
    seq![(0x13ECint, 0xABBCint), (0x13EDint, 0xABBDint), (0x13EEint, 0xABBEint), (0x13EFint, 0xABBFint), (0x13F0int, 0x13F8int), (0x13F1int, 0x13F9int), (0x13F2int, 0x13FAint), (0x13F3int, 0x13FBint)]
}

pub open spec fn fold_chunk_151() -> Seq<(int, int)> {
    seq![(0x13F4int, 0x13FCint), (0x13F5int, 0x13FDint), (0x13F8int, 0x13F0int), (0x13F9int, 0x13F1int), (0x13FAint, 0x13F2int), (0x13FBint, 0x13F3int), (0x13FCint, 0x13F4int), (0x13FDint, 0x13F5int)]
}

pub open spec fn fold_chunk_152() -> Seq<(int, int)> {
    seq![(0x1C80int, 0x412int), (0x1C80int, 0x432int), (0x1C81int, 0x414int), (0x1C81int, 0x434int), (0x1C82int, 0x41Eint), (0x1C82int, 0x43Eint), (0x1C83int, 0x421int), (0x1C83int, 0x441int)]
}

pub open spec fn fold_chunk_153() -> Seq<(int, int)> {
    seq![(0x1C84int, 0x422int), (0x1C84int, 0x442int), (0x1C84int, 0x1C85int), (0x1C85int, 0x422int), (0x1C85int, 0x442int), (0x1C85int, 0x1C84int), (0x1C86int, 0x42Aint), (0x1C86int, 0x44Aint)]
}

pub open spec fn fold_chunk_154() -> Seq<(int, int)> {
    seq![(0x1C87int, 0x462int), (0x1C87int, 0x463int), (0x1C88int, 0xA64Aint), (0x1C88int, 0xA64Bint), (0x1C89int, 0x1C8Aint), (0x1C8Aint, 0x1C89int), (0x1C90int, 0x10D0int), (0x1C91int, 0x10D1int)]
}

pub open spec fn fold_chunk_155() -> Seq<(int, int)> {
    seq![(0x1C92int, 0x10D2int), (0x1C93int, 0x10D3int), (0x1C94int, 0x10D4int), (0x1C95int, 0x10D5int), (0x1C96int, 0x10D6int), (0x1C97int, 0x10D7int), (0x1C98int, 0x10D8int), (0x1C99int, 0x10D9int)]
}

pub open spec fn fold_chunk_156() -> Seq<(int, int)> {
    seq![(0x1C9Aint, 0x10DAint), (0x1C9Bint, 0x10DBint), (0x1C9Cint, 0x10DCint), (0x1C9Dint, 0x10DDint), (0x1C9Eint, 0x10DEint), (0x1C9Fint, 0x10DFint), (0x1CA0int, 0x10E0int), (0x1CA1int, 0x10E1int)]
}

pub open spec fn fold_chunk_157() -> Seq<(int, int)> {
    seq![(0x1CA2int, 0x10E2int), (0x1CA3int, 0x10E3int), (0x1CA4int, 0x10E4int), (0x1CA5int, 0x10E5int), (0x1CA6int, 0x10E6int), (0x1CA7int, 0x10E7int), (0x1CA8int, 0x10E8int), (0x1CA9int, 0x10E9int)]
}

pub open spec fn fold_chunk_158() -> Seq<(int, int)> {
    seq![(0x1CAAint, 0x10EAint), (0x1CABint, 0x10EBint), (0x1CACint, 0x10ECint), (0x1CADint, 0x10EDint), (0x1CAEint, 0x10EEint), (0x1CAFint, 0x10EFint), (0x1CB0int, 0x10F0int), (0x1CB1int, 0x10F1int)]
}

pub open spec fn fold_chunk_159() -> Seq<(int, int)> {
    seq![(0x1CB2int, 0x10F2int), (0x1CB3int, 0x10F3int), (0x1CB4int, 0x10F4int), (0x1CB5int, 0x10F5int), (0x1CB6int, 0x10F6int), (0x1CB7int, 0x10F7int), (0x1CB8int, 0x10F8int), (0x1CB9int, 0x10F9int)]
}

pub open spec fn fold_chunk_160() -> Seq<(int, int)> {
    seq![(0x1CBAint, 0x10FAint), (0x1CBDint, 0x10FDint), (0x1CBEint, 0x10FEint), (0x1CBFint, 0x10FFint), (0x1D79int, 0xA77Dint), (0x1D7Dint, 0x2C63int), (0x1D8Eint, 0xA7C6int), (0x1E00int, 0x1E01int)]
}

pub open spec fn fold_chunk_161() -> Seq<(int, int)> {
    seq![(0x1E01int, 0x1E00int), (0x1E02int, 0x1E03int), (0x1E03int, 0x1E02int), (0x1E04int, 0x1E05int), (0x1E05int, 0x1E04int), (0x1E06int, 0x1E07int), (0x1E07int, 0x1E06int), (0x1E08int, 0x1E09int)]
}

pub open spec fn fold_chunk_162() -> Seq<(int, int)> {
    seq![(0x1E09int, 0x1E08int), (0x1E0Aint, 0x1E0Bint), (0x1E0Bint, 0x1E0Aint), (0x1E0Cint, 0x1E0Dint), (0x1E0Dint, 0x1E0Cint), (0x1E0Eint, 0x1E0Fint), (0x1E0Fint, 0x1E0Eint), (0x1E10int, 0x1E11int)]
}

pub open spec fn fold_chunk_163() -> Seq<(int, int)> {
    seq![(0x1E11int, 0x1E10int), (0x1E12int, 0x1E13int), (0x1E13int, 0x1E12int), (0x1E14int, 0x1E15int), (0x1E15int, 0x1E14int), (0x1E16int, 0x1E17int), (0x1E17int, 0x1E16int), (0x1E18int, 0x1E19int)]
}

pub open spec fn fold_chunk_164() -> Seq<(int, int)> {
    seq![(0x1E19int, 0x1E18int), (0x1E1Aint, 0x1E1Bint), (0x1E1Bint, 0x1E1Aint), (0x1E1Cint, 0x1E1Dint), (0x1E1Dint, 0x1E1Cint), (0x1E1Eint, 0x1E1Fint), (0x1E1Fint, 0x1E1Eint), (0x1E20int, 0x1E21int)]
}

pub open spec fn fold_chunk_165() -> Seq<(int, int)> {
    seq![(0x1E21int, 0x1E20int), (0x1E22int, 0x1E23int), (0x1E23int, 0x1E22int), (0x1E24int, 0x1E25int), (0x1E25int, 0x1E24int), (0x1E26int, 0x1E27int), (0x1E27int, 0x1E26int), (0x1E28int, 0x1E29int)]
}

pub open spec fn fold_chunk_166() -> Seq<(int, int)> {
    seq![(0x1E29int, 0x1E28int), (0x1E2Aint, 0x1E2Bint), (0x1E2Bint, 0x1E2Aint), (0x1E2Cint, 0x1E2Dint), (0x1E2Dint, 0x1E2Cint), (0x1E2Eint, 0x1E2Fint), (0x1E2Fint, 0x1E2Eint), (0x1E30int, 0x1E31int)]
}

pub open spec fn fold_chunk_167() -> Seq<(int, int)> {
    seq![(0x1E31int, 0x1E30int), (0x1E32int, 0x1E33int), (0x1E33int, 0x1E32int), (0x1E34int, 0x1E35int), (0x1E35int, 0x1E34int), (0x1E36int, 0x1E37int), (0x1E37int, 0x1E36int), (0x1E38int, 0x1E39int)]
}

pub open spec fn fold_chunk_168() -> Seq<(int, int)> {
    seq![(0x1E39int, 0x1E38int), (0x1E3Aint, 0x1E3Bint), (0x1E3Bint, 0x1E3Aint), (0x1E3Cint, 0x1E3Dint), (0x1E3Dint, 0x1E3Cint), (0x1E3Eint, 0x1E3Fint), (0x1E3Fint, 0x1E3Eint), (0x1E40int, 0x1E41int)]
}

pub open spec fn fold_chunk_169() -> Seq<(int, int)> {
    seq![(0x1E41int, 0x1E40int), (0x1E42int, 0x1E43int), (0x1E43int, 0x1E42int), (0x1E44int, 0x1E45int), (0x1E45int, 0x1E44int), (0x1E46int, 0x1E47int), (0x1E47int, 0x1E46int), (0x1E48int, 0x1E49int)]
}

pub open spec fn fold_chunk_170() -> Seq<(int, int)> {
    seq![(0x1E49int, 0x1E48int), (0x1E4Aint, 0x1E4Bint), (0x1E4Bint, 0x1E4Aint), (0x1E4Cint, 0x1E4Dint), (0x1E4Dint, 0x1E4Cint), (0x1E4Eint, 0x1E4Fint), (0x1E4Fint, 0x1E4Eint), (0x1E50int, 0x1E51int)]
}

pub open spec fn fold_chunk_171() -> Seq<(int, int)> {
    seq![(0x1E51int, 0x1E50int), (0x1E52int, 0x1E53int), (0x1E53int, 0x1E52int), (0x1E54int, 0x1E55int), (0x1E55int, 0x1E54int), (0x1E56int, 0x1E57int), (0x1E57int, 0x1E56int), (0x1E58int, 0x1E59int)]
}

pub open spec fn fold_chunk_172() -> Seq<(int, int)> {
    seq![(0x1E59int, 0x1E58int), (0x1E5Aint, 0x1E5Bint), (0x1E5Bint, 0x1E5Aint), (0x1E5Cint, 0x1E5Dint), (0x1E5Dint, 0x1E5Cint), (0x1E5Eint, 0x1E5Fint), (0x1E5Fint, 0x1E5Eint), (0x1E60int, 0x1E61int)]
}

pub open spec fn fold_chunk_173() -> Seq<(int, int)> {
    seq![(0x1E60int, 0x1E9Bint), (0x1E61int, 0x1E60int), (0x1E61int, 0x1E9Bint), (0x1E62int, 0x1E63int), (0x1E63int, 0x1E62int), (0x1E64int, 0x1E65int), (0x1E65int, 0x1E64int), (0x1E66int, 0x1E67int)]
}

pub open spec fn fold_chunk_174() -> Seq<(int, int)> {
    seq![(0x1E67int, 0x1E66int), (0x1E68int, 0x1E69int), (0x1E69int, 0x1E68int), (0x1E6Aint, 0x1E6Bint), (0x1E6Bint, 0x1E6Aint), (0x1E6Cint, 0x1E6Dint), (0x1E6Dint, 0x1E6Cint), (0x1E6Eint, 0x1E6Fint)]
}

pub open spec fn fold_chunk_175() -> Seq<(int, int)> {
    seq![(0x1E6Fint, 0x1E6Eint), (0x1E70int, 0x1E71int), (0x1E71int, 0x1E70int), (0x1E72int, 0x1E73int), (0x1E73int, 0x1E72int), (0x1E74int, 0x1E75int), (0x1E75int, 0x1E74int), (0x1E76int, 0x1E77int)]
}

pub open spec fn fold_chunk_176() -> Seq<(int, int)> {
    seq![(0x1E77int, 0x1E76int), (0x1E78int, 0x1E79int), (0x1E79int, 0x1E78int), (0x1E7Aint, 0x1E7Bint), (0x1E7Bint, 0x1E7Aint), (0x1E7Cint, 0x1E7Dint), (0x1E7Dint, 0x1E7Cint), (0x1E7Eint, 0x1E7Fint)]
}

pub open spec fn fold_chunk_177() -> Seq<(int, int)> {
    seq![(0x1E7Fint, 0x1E7Eint), (0x1E80int, 0x1E81int), (0x1E81int, 0x1E80int), (0x1E82int, 0x1E83int), (0x1E83int, 0x1E82int), (0x1E84int, 0x1E85int), (0x1E85int, 0x1E84int), (0x1E86int, 0x1E87int)]
}

pub open spec fn fold_chunk_178() -> Seq<(int, int)> {
    seq![(0x1E87int, 0x1E86int), (0x1E88int, 0x1E89int), (0x1E89int, 0x1E88int), (0x1E8Aint, 0x1E8Bint), (0x1E8Bint, 0x1E8Aint), (0x1E8Cint, 0x1E8Dint), (0x1E8Dint, 0x1E8Cint), (0x1E8Eint, 0x1E8Fint)]
}

pub open spec fn fold_chunk_179() -> Seq<(int, int)> {
    seq![(0x1E8Fint, 0x1E8Eint), (0x1E90int, 0x1E91int), (0x1E91int, 0x1E90int), (0x1E92int, 0x1E93int), (0x1E93int, 0x1E92int), (0x1E94int, 0x1E95int), (0x1E95int, 0x1E94int), (0x1E9Bint, 0x1E60int)]
}

pub open spec fn fold_chunk_180() -> Seq<(int, int)> {
    seq![(0x1E9Bint, 0x1E61int), (0x1E9Eint, 0xDFint), (0x1EA0int, 0x1EA1int), (0x1EA1int, 0x1EA0int), (0x1EA2int, 0x1EA3int), (0x1EA3int, 0x1EA2int), (0x1EA4int, 0x1EA5int), (0x1EA5int, 0x1EA4int)]
}

pub open spec fn fold_chunk_181() -> Seq<(int, int)> {
    seq![(0x1EA6int, 0x1EA7int), (0x1EA7int, 0x1EA6int), (0x1EA8int, 0x1EA9int), (0x1EA9int, 0x1EA8int), (0x1EAAint, 0x1EABint), (0x1EABint, 0x1EAAint), (0x1EACint, 0x1EADint), (0x1EADint, 0x1EACint)]
}

pub open spec fn fold_chunk_182() -> Seq<(int, int)> {
    seq![(0x1EAEint, 0x1EAFint), (0x1EAFint, 0x1EAEint), (0x1EB0int, 0x1EB1int), (0x1EB1int, 0x1EB0int), (0x1EB2int, 0x1EB3int), (0x1EB3int, 0x1EB2int), (0x1EB4int, 0x1EB5int), (0x1EB5int, 0x1EB4int)]
}

pub open spec fn fold_chunk_183() -> Seq<(int, int)> {
    seq![(0x1EB6int, 0x1EB7int), (0x1EB7int, 0x1EB6int), (0x1EB8int, 0x1EB9int), (0x1EB9int, 0x1EB8int), (0x1EBAint, 0x1EBBint), (0x1EBBint, 0x1EBAint), (0x1EBCint, 0x1EBDint), (0x1EBDint, 0x1EBCint)]
}

pub open spec fn fold_chunk_184() -> Seq<(int, int)> {
    seq![(0x1EBEint, 0x1EBFint), (0x1EBFint, 0x1EBEint), (0x1EC0int, 0x1EC1int), (0x1EC1int, 0x1EC0int), (0x1EC2int, 0x1EC3int), (0x1EC3int, 0x1EC2int), (0x1EC4int, 0x1EC5int), (0x1EC5int, 0x1EC4int)]
}

pub open spec fn fold_chunk_185() -> Seq<(int, int)> {
    seq![(0x1EC6int, 0x1EC7int), (0x1EC7int, 0x1EC6int), (0x1EC8int, 0x1EC9int), (0x1EC9int, 0x1EC8int), (0x1ECAint, 0x1ECBint), (0x1ECBint, 0x1ECAint), (0x1ECCint, 0x1ECDint), (0x1ECDint, 0x1ECCint)]
}

pub open spec fn fold_chunk_186() -> Seq<(int, int)> {
    seq![(0x1ECEint, 0x1ECFint), (0x1ECFint, 0x1ECEint), (0x1ED0int, 0x1ED1int), (0x1ED1int, 0x1ED0int), (0x1ED2int, 0x1ED3int), (0x1ED3int, 0x1ED2int), (0x1ED4int, 0x1ED5int), (0x1ED5int, 0x1ED4int)]
}

pub open spec fn fold_chunk_187() -> Seq<(int, int)> {
    seq![(0x1ED6int, 0x1ED7int), (0x1ED7int, 0x1ED6int), (0x1ED8int, 0x1ED9int), (0x1ED9int, 0x1ED8int), (0x1EDAint, 0x1EDBint), (0x1EDBint, 0x1EDAint), (0x1EDCint, 0x1EDDint), (0x1EDDint, 0x1EDCint)]
}

pub open spec fn fold_chunk_188() -> Seq<(int, int)> {
    seq![(0x1EDEint, 0x1EDFint), (0x1EDFint, 0x1EDEint), (0x1EE0int, 0x1EE1int), (0x1EE1int, 0x1EE0int), (0x1EE2int, 0x1EE3int), (0x1EE3int, 0x1EE2int), (0x1EE4int, 0x1EE5int), (0x1EE5int, 0x1EE4int)]
}

pub open spec fn fold_chunk_189() -> Seq<(int, int)> {
    seq![(0x1EE6int, 0x1EE7int), (0x1EE7int, 0x1EE6int), (0x1EE8int, 0x1EE9int), (0x1EE9int, 0x1EE8int), (0x1EEAint, 0x1EEBint), (0x1EEBint, 0x1EEAint), (0x1EECint, 0x1EEDint), (0x1EEDint, 0x1EECint)]
}

pub open spec fn fold_chunk_190() -> Seq<(int, int)> {
    seq![(0x1EEEint, 0x1EEFint), (0x1EEFint, 0x1EEEint), (0x1EF0int, 0x1EF1int), (0x1EF1int, 0x1EF0int), (0x1EF2int, 0x1EF3int), (0x1EF3int, 0x1EF2int), (0x1EF4int, 0x1EF5int), (0x1EF5int, 0x1EF4int)]
}

pub open spec fn fold_chunk_191() -> Seq<(int, int)> {
    seq![(0x1EF6int, 0x1EF7int), (0x1EF7int, 0x1EF6int), (0x1EF8int, 0x1EF9int), (0x1EF9int, 0x1EF8int), (0x1EFAint, 0x1EFBint), (0x1EFBint, 0x1EFAint), (0x1EFCint, 0x1EFDint), (0x1EFDint, 0x1EFCint)]
}

pub open spec fn fold_chunk_192() -> Seq<(int, int)> {
    seq![(0x1EFEint, 0x1EFFint), (0x1EFFint, 0x1EFEint), (0x1F00int, 0x1F08int), (0x1F01int, 0x1F09int), (0x1F02int, 0x1F0Aint), (0x1F03int, 0x1F0Bint), (0x1F04int, 0x1F0Cint), (0x1F05int, 0x1F0Dint)]
}

pub open spec fn fold_chunk_193() -> Seq<(int, int)> {
    seq![(0x1F06int, 0x1F0Eint), (0x1F07int, 0x1F0Fint), (0x1F08int, 0x1F00int), (0x1F09int, 0x1F01int), (0x1F0Aint, 0x1F02int), (0x1F0Bint, 0x1F03int), (0x1F0Cint, 0x1F04int), (0x1F0Dint, 0x1F05int)]
}

pub open spec fn fold_chunk_194() -> Seq<(int, int)> {
    seq![(0x1F0Eint, 0x1F06int), (0x1F0Fint, 0x1F07int), (0x1F10int, 0x1F18int), (0x1F11int, 0x1F19int), (0x1F12int, 0x1F1Aint), (0x1F13int, 0x1F1Bint), (0x1F14int, 0x1F1Cint), (0x1F15int, 0x1F1Dint)]
}

pub open spec fn fold_chunk_195() -> Seq<(int, int)> {
    seq![(0x1F18int, 0x1F10int), (0x1F19int, 0x1F11int), (0x1F1Aint, 0x1F12int), (0x1F1Bint, 0x1F13int), (0x1F1Cint, 0x1F14int), (0x1F1Dint, 0x1F15int), (0x1F20int, 0x1F28int), (0x1F21int, 0x1F29int)]
}

pub open spec fn fold_chunk_196() -> Seq<(int, int)> {
    seq![(0x1F22int, 0x1F2Aint), (0x1F23int, 0x1F2Bint), (0x1F24int, 0x1F2Cint), (0x1F25int, 0x1F2Dint), (0x1F26int, 0x1F2Eint), (0x1F27int, 0x1F2Fint), (0x1F28int, 0x1F20int), (0x1F29int, 0x1F21int)]
}

pub open spec fn fold_chunk_197() -> Seq<(int, int)> {
    seq![(0x1F2Aint, 0x1F22int), (0x1F2Bint, 0x1F23int), (0x1F2Cint, 0x1F24int), (0x1F2Dint, 0x1F25int), (0x1F2Eint, 0x1F26int), (0x1F2Fint, 0x1F27int), (0x1F30int, 0x1F38int), (0x1F31int, 0x1F39int)]
}

pub open spec fn fold_chunk_198() -> Seq<(int, int)> {
    seq![(0x1F32int, 0x1F3Aint), (0x1F33int, 0x1F3Bint), (0x1F34int, 0x1F3Cint), (0x1F35int, 0x1F3Dint), (0x1F36int, 0x1F3Eint), (0x1F37int, 0x1F3Fint), (0x1F38int, 0x1F30int), (0x1F39int, 0x1F31int)]
}

pub open spec fn fold_chunk_199() -> Seq<(int, int)> {
    seq![(0x1F3Aint, 0x1F32int), (0x1F3Bint, 0x1F33int), (0x1F3Cint, 0x1F34int), (0x1F3Dint, 0x1F35int), (0x1F3Eint, 0x1F36int), (0x1F3Fint, 0x1F37int), (0x1F40int, 0x1F48int), (0x1F41int, 0x1F49int)]
}

pub open spec fn fold_chunk_200() -> Seq<(int, int)> {
    seq![(0x1F42int, 0x1F4Aint), (0x1F43int, 0x1F4Bint), (0x1F44int, 0x1F4Cint), (0x1F45int, 0x1F4Dint), (0x1F48int, 0x1F40int), (0x1F49int, 0x1F41int), (0x1F4Aint, 0x1F42int), (0x1F4Bint, 0x1F43int)]
}

pub open spec fn fold_chunk_201() -> Seq<(int, int)> {
    seq![(0x1F4Cint, 0x1F44int), (0x1F4Dint, 0x1F45int), (0x1F51int, 0x1F59int), (0x1F53int, 0x1F5Bint), (0x1F55int, 0x1F5Dint), (0x1F57int, 0x1F5Fint), (0x1F59int, 0x1F51int), (0x1F5Bint, 0x1F53int)]
}

pub open spec fn fold_chunk_202() -> Seq<(int, int)> {
    seq![(0x1F5Dint, 0x1F55int), (0x1F5Fint, 0x1F57int), (0x1F60int, 0x1F68int), (0x1F61int, 0x1F69int), (0x1F62int, 0x1F6Aint), (0x1F63int, 0x1F6Bint), (0x1F64int, 0x1F6Cint), (0x1F65int, 0x1F6Dint)]
}

pub open spec fn fold_chunk_203() -> Seq<(int, int)> {
    seq![(0x1F66int, 0x1F6Eint), (0x1F67int, 0x1F6Fint), (0x1F68int, 0x1F60int), (0x1F69int, 0x1F61int), (0x1F6Aint, 0x1F62int), (0x1F6Bint, 0x1F63int), (0x1F6Cint, 0x1F64int), (0x1F6Dint, 0x1F65int)]
}

pub open spec fn fold_chunk_204() -> Seq<(int, int)> {
    seq![(0x1F6Eint, 0x1F66int), (0x1F6Fint, 0x1F67int), (0x1F70int, 0x1FBAint), (0x1F71int, 0x1FBBint), (0x1F72int, 0x1FC8int), (0x1F73int, 0x1FC9int), (0x1F74int, 0x1FCAint), (0x1F75int, 0x1FCBint)]
}

pub open spec fn fold_chunk_205() -> Seq<(int, int)> {
    seq![(0x1F76int, 0x1FDAint), (0x1F77int, 0x1FDBint), (0x1F78int, 0x1FF8int), (0x1F79int, 0x1FF9int), (0x1F7Aint, 0x1FEAint), (0x1F7Bint, 0x1FEBint), (0x1F7Cint, 0x1FFAint), (0x1F7Dint, 0x1FFBint)]
}

pub open spec fn fold_chunk_206() -> Seq<(int, int)> {
    seq![(0x1F80int, 0x1F88int), (0x1F81int, 0x1F89int), (0x1F82int, 0x1F8Aint), (0x1F83int, 0x1F8Bint), (0x1F84int, 0x1F8Cint), (0x1F85int, 0x1F8Dint), (0x1F86int, 0x1F8Eint), (0x1F87int, 0x1F8Fint)]
}

pub open spec fn fold_chunk_207() -> Seq<(int, int)> {
    seq![(0x1F88int, 0x1F80int), (0x1F89int, 0x1F81int), (0x1F8Aint, 0x1F82int), (0x1F8Bint, 0x1F83int), (0x1F8Cint, 0x1F84int), (0x1F8Dint, 0x1F85int), (0x1F8Eint, 0x1F86int), (0x1F8Fint, 0x1F87int)]
}

pub open spec fn fold_chunk_208() -> Seq<(int, int)> {
    seq![(0x1F90int, 0x1F98int), (0x1F91int, 0x1F99int), (0x1F92int, 0x1F9Aint), (0x1F93int, 0x1F9Bint), (0x1F94int, 0x1F9Cint), (0x1F95int, 0x1F9Dint), (0x1F96int, 0x1F9Eint), (0x1F97int, 0x1F9Fint)]
}

pub open spec fn fold_chunk_209() -> Seq<(int, int)> {
    seq![(0x1F98int, 0x1F90int), (0x1F99int, 0x1F91int), (0x1F9Aint, 0x1F92int), (0x1F9Bint, 0x1F93int), (0x1F9Cint, 0x1F94int), (0x1F9Dint, 0x1F95int), (0x1F9Eint, 0x1F96int), (0x1F9Fint, 0x1F97int)]
}

pub open spec fn fold_chunk_210() -> Seq<(int, int)> {
    seq![(0x1FA0int, 0x1FA8int), (0x1FA1int, 0x1FA9int), (0x1FA2int, 0x1FAAint), (0x1FA3int, 0x1FABint), (0x1FA4int, 0x1FACint), (0x1FA5int, 0x1FADint), (0x1FA6int, 0x1FAEint), (0x1FA7int, 0x1FAFint)]
}

pub open spec fn fold_chunk_211() -> Seq<(int, int)> {
    seq![(0x1FA8int, 0x1FA0int), (0x1FA9int, 0x1FA1int), (0x1FAAint, 0x1FA2int), (0x1FABint, 0x1FA3int), (0x1FACint, 0x1FA4int), (0x1FADint, 0x1FA5int), (0x1FAEint, 0x1FA6int), (0x1FAFint, 0x1FA7int)]
}

pub open spec fn fold_chunk_212() -> Seq<(int, int)> {
    seq![(0x1FB0int, 0x1FB8int), (0x1FB1int, 0x1FB9int), (0x1FB3int, 0x1FBCint), (0x1FB8int, 0x1FB0int), (0x1FB9int, 0x1FB1int), (0x1FBAint, 0x1F70int), (0x1FBBint, 0x1F71int), (0x1FBCint, 0x1FB3int)]
}

pub open spec fn fold_chunk_213() -> Seq<(int, int)> {
    seq![(0x1FBEint, 0x345int), (0x1FBEint, 0x399int), (0x1FBEint, 0x3B9int), (0x1FC3int, 0x1FCCint), (0x1FC8int, 0x1F72int), (0x1FC9int, 0x1F73int), (0x1FCAint, 0x1F74int), (0x1FCBint, 0x1F75int)]
}

pub open spec fn fold_chunk_214() -> Seq<(int, int)> {
    seq![(0x1FCCint, 0x1FC3int), (0x1FD0int, 0x1FD8int), (0x1FD1int, 0x1FD9int), (0x1FD3int, 0x390int), (0x1FD8int, 0x1FD0int), (0x1FD9int, 0x1FD1int), (0x1FDAint, 0x1F76int), (0x1FDBint, 0x1F77int)]
}

pub open spec fn fold_chunk_215() -> Seq<(int, int)> {
    seq![(0x1FE0int, 0x1FE8int), (0x1FE1int, 0x1FE9int), (0x1FE3int, 0x3B0int), (0x1FE5int, 0x1FECint), (0x1FE8int, 0x1FE0int), (0x1FE9int, 0x1FE1int), (0x1FEAint, 0x1F7Aint), (0x1FEBint, 0x1F7Bint)]
}

pub open spec fn fold_chunk_216() -> Seq<(int, int)> {
    seq![(0x1FECint, 0x1FE5int), (0x1FF3int, 0x1FFCint), (0x1FF8int, 0x1F78int), (0x1FF9int, 0x1F79int), (0x1FFAint, 0x1F7Cint), (0x1FFBint, 0x1F7Dint), (0x1FFCint, 0x1FF3int), (0x2126int, 0x3A9int)]
}

pub open spec fn fold_chunk_217() -> Seq<(int, int)> {
    seq![(0x2126int, 0x3C9int), (0x212Aint, 0x4Bint), (0x212Aint, 0x6Bint), (0x212Bint, 0xC5int), (0x212Bint, 0xE5int), (0x2132int, 0x214Eint), (0x214Eint, 0x2132int), (0x2160int, 0x2170int)]
}

pub open spec fn fold_chunk_218() -> Seq<(int, int)> {
    seq![(0x2161int, 0x2171int), (0x2162int, 0x2172int), (0x2163int, 0x2173int), (0x2164int, 0x2174int), (0x2165int, 0x2175int), (0x2166int, 0x2176int), (0x2167int, 0x2177int), (0x2168int, 0x2178int)]
}

pub open spec fn fold_chunk_219() -> Seq<(int, int)> {
    seq![(0x2169int, 0x2179int), (0x216Aint, 0x217Aint), (0x216Bint, 0x217Bint), (0x216Cint, 0x217Cint), (0x216Dint, 0x217Dint), (0x216Eint, 0x217Eint), (0x216Fint, 0x217Fint), (0x2170int, 0x2160int)]
}

pub open spec fn fold_chunk_220() -> Seq<(int, int)> {
    seq![(0x2171int, 0x2161int), (0x2172int, 0x2162int), (0x2173int, 0x2163int), (0x2174int, 0x2164int), (0x2175int, 0x2165int), (0x2176int, 0x2166int), (0x2177int, 0x2167int), (0x2178int, 0x2168int)]
}

pub open spec fn fold_chunk_221() -> Seq<(int, int)> {
    seq![(0x2179int, 0x2169int), (0x217Aint, 0x216Aint), (0x217Bint, 0x216Bint), (0x217Cint, 0x216Cint), (0x217Dint, 0x216Dint), (0x217Eint, 0x216Eint), (0x217Fint, 0x216Fint), (0x2183int, 0x2184int)]
}

pub open spec fn fold_chunk_222() -> Seq<(int, int)> {
    seq![(0x2184int, 0x2183int), (0x24B6int, 0x24D0int), (0x24B7int, 0x24D1int), (0x24B8int, 0x24D2int), (0x24B9int, 0x24D3int), (0x24BAint, 0x24D4int), (0x24BBint, 0x24D5int), (0x24BCint, 0x24D6int)]
}

pub open spec fn fold_chunk_223() -> Seq<(int, int)> {
    seq![(0x24BDint, 0x24D7int), (0x24BEint, 0x24D8int), (0x24BFint, 0x24D9int), (0x24C0int, 0x24DAint), (0x24C1int, 0x24DBint), (0x24C2int, 0x24DCint), (0x24C3int, 0x24DDint), (0x24C4int, 0x24DEint)]
}

pub open spec fn fold_chunk_224() -> Seq<(int, int)> {
    seq![(0x24C5int, 0x24DFint), (0x24C6int, 0x24E0int), (0x24C7int, 0x24E1int), (0x24C8int, 0x24E2int), (0x24C9int, 0x24E3int), (0x24CAint, 0x24E4int), (0x24CBint, 0x24E5int), (0x24CCint, 0x24E6int)]
}

pub open spec fn fold_chunk_225() -> Seq<(int, int)> {
    seq![(0x24CDint, 0x24E7int), (0x24CEint, 0x24E8int), (0x24CFint, 0x24E9int), (0x24D0int, 0x24B6int), (0x24D1int, 0x24B7int), (0x24D2int, 0x24B8int), (0x24D3int, 0x24B9int), (0x24D4int, 0x24BAint)]
}

pub open spec fn fold_chunk_226() -> Seq<(int, int)> {
    seq![(0x24D5int, 0x24BBint), (0x24D6int, 0x24BCint), (0x24D7int, 0x24BDint), (0x24D8int, 0x24BEint), (0x24D9int, 0x24BFint), (0x24DAint, 0x24C0int), (0x24DBint, 0x24C1int), (0x24DCint, 0x24C2int)]
}

pub open spec fn fold_chunk_227() -> Seq<(int, int)> {
    seq![(0x24DDint, 0x24C3int), (0x24DEint, 0x24C4int), (0x24DFint, 0x24C5int), (0x24E0int, 0x24C6int), (0x24E1int, 0x24C7int), (0x24E2int, 0x24C8int), (0x24E3int, 0x24C9int), (0x24E4int, 0x24CAint)]
}

pub open spec fn fold_chunk_228() -> Seq<(int, int)> {
    seq![(0x24E5int, 0x24CBint), (0x24E6int, 0x24CCint), (0x24E7int, 0x24CDint), (0x24E8int, 0x24CEint), (0x24E9int, 0x24CFint), (0x2C00int, 0x2C30int), (0x2C01int, 0x2C31int), (0x2C02int, 0x2C32int)]
}

pub open spec fn fold_chunk_229() -> Seq<(int, int)> {
    seq![(0x2C03int, 0x2C33int), (0x2C04int, 0x2C34int), (0x2C05int, 0x2C35int), (0x2C06int, 0x2C36int), (0x2C07int, 0x2C37int), (0x2C08int, 0x2C38int), (0x2C09int, 0x2C39int), (0x2C0Aint, 0x2C3Aint)]
}

pub open spec fn fold_chunk_230() -> Seq<(int, int)> {
    seq![(0x2C0Bint, 0x2C3Bint), (0x2C0Cint, 0x2C3Cint), (0x2C0Dint, 0x2C3Dint), (0x2C0Eint, 0x2C3Eint), (0x2C0Fint, 0x2C3Fint), (0x2C10int, 0x2C40int), (0x2C11int, 0x2C41int), (0x2C12int, 0x2C42int)]
}

pub open spec fn fold_chunk_231() -> Seq<(int, int)> {
    seq![(0x2C13int, 0x2C43int), (0x2C14int, 0x2C44int), (0x2C15int, 0x2C45int), (0x2C16int, 0x2C46int), (0x2C17int, 0x2C47int), (0x2C18int, 0x2C48int), (0x2C19int, 0x2C49int), (0x2C1Aint, 0x2C4Aint)]
}

pub open spec fn fold_chunk_232() -> Seq<(int, int)> {
    seq![(0x2C1Bint, 0x2C4Bint), (0x2C1Cint, 0x2C4Cint), (0x2C1Dint, 0x2C4Dint), (0x2C1Eint, 0x2C4Eint), (0x2C1Fint, 0x2C4Fint), (0x2C20int, 0x2C50int), (0x2C21int, 0x2C51int), (0x2C22int, 0x2C52int)]
}

pub open spec fn fold_chunk_233() -> Seq<(int, int)> {
    seq![(0x2C23int, 0x2C53int), (0x2C24int, 0x2C54int), (0x2C25int, 0x2C55int), (0x2C26int, 0x2C56int), (0x2C27int, 0x2C57int), (0x2C28int, 0x2C58int), (0x2C29int, 0x2C59int), (0x2C2Aint, 0x2C5Aint)]
}

pub open spec fn fold_chunk_234() -> Seq<(int, int)> {
    seq![(0x2C2Bint, 0x2C5Bint), (0x2C2Cint, 0x2C5Cint), (0x2C2Dint, 0x2C5Dint), (0x2C2Eint, 0x2C5Eint), (0x2C2Fint, 0x2C5Fint), (0x2C30int, 0x2C00int), (0x2C31int, 0x2C01int), (0x2C32int, 0x2C02int)]
}

pub open spec fn fold_chunk_235() -> Seq<(int, int)> {
    seq![(0x2C33int, 0x2C03int), (0x2C34int, 0x2C04int), (0x2C35int, 0x2C05int), (0x2C36int, 0x2C06int), (0x2C37int, 0x2C07int), (0x2C38int, 0x2C08int), (0x2C39int, 0x2C09int), (0x2C3Aint, 0x2C0Aint)]
}

pub open spec fn fold_chunk_236() -> Seq<(int, int)> {
    seq![(0x2C3Bint, 0x2C0Bint), (0x2C3Cint, 0x2C0Cint), (0x2C3Dint, 0x2C0Dint), (0x2C3Eint, 0x2C0Eint), (0x2C3Fint, 0x2C0Fint), (0x2C40int, 0x2C10int), (0x2C41int, 0x2C11int), (0x2C42int, 0x2C12int)]
}

pub open spec fn fold_chunk_237() -> Seq<(int, int)> {
    seq![(0x2C43int, 0x2C13int), (0x2C44int, 0x2C14int), (0x2C45int, 0x2C15int), (0x2C46int, 0x2C16int), (0x2C47int, 0x2C17int), (0x2C48int, 0x2C18int), (0x2C49int, 0x2C19int), (0x2C4Aint, 0x2C1Aint)]
}

pub open spec fn fold_chunk_238() -> Seq<(int, int)> {
    seq![(0x2C4Bint, 0x2C1Bint), (0x2C4Cint, 0x2C1Cint), (0x2C4Dint, 0x2C1Dint), (0x2C4Eint, 0x2C1Eint), (0x2C4Fint, 0x2C1Fint), (0x2C50int, 0x2C20int), (0x2C51int, 0x2C21int), (0x2C52int, 0x2C22int)]
}

pub open spec fn fold_chunk_239() -> Seq<(int, int)> {
    seq![(0x2C53int, 0x2C23int), (0x2C54int, 0x2C24int), (0x2C55int, 0x2C25int), (0x2C56int, 0x2C26int), (0x2C57int, 0x2C27int), (0x2C58int, 0x2C28int), (0x2C59int, 0x2C29int), (0x2C5Aint, 0x2C2Aint)]
}

pub open spec fn fold_chunk_240() -> Seq<(int, int)> {
    seq![(0x2C5Bint, 0x2C2Bint), (0x2C5Cint, 0x2C2Cint), (0x2C5Dint, 0x2C2Dint), (0x2C5Eint, 0x2C2Eint), (0x2C5Fint, 0x2C2Fint), (0x2C60int, 0x2C61int), (0x2C61int, 0x2C60int), (0x2C62int, 0x26Bint)]
}

pub open spec fn fold_chunk_241() -> Seq<(int, int)> {
    seq![(0x2C63int, 0x1D7Dint), (0x2C64int, 0x27Dint), (0x2C65int, 0x23Aint), (0x2C66int, 0x23Eint), (0x2C67int, 0x2C68int), (0x2C68int, 0x2C67int), (0x2C69int, 0x2C6Aint), (0x2C6Aint, 0x2C69int)]
}

pub open spec fn fold_chunk_242() -> Seq<(int, int)> {
    seq![(0x2C6Bint, 0x2C6Cint), (0x2C6Cint, 0x2C6Bint), (0x2C6Dint, 0x251int), (0x2C6Eint, 0x271int), (0x2C6Fint, 0x250int), (0x2C70int, 0x252int), (0x2C72int, 0x2C73int), (0x2C73int, 0x2C72int)]
}

pub open spec fn fold_chunk_243() -> Seq<(int, int)> {
    seq![(0x2C75int, 0x2C76int), (0x2C76int, 0x2C75int), (0x2C7Eint, 0x23Fint), (0x2C7Fint, 0x240int), (0x2C80int, 0x2C81int), (0x2C81int, 0x2C80int), (0x2C82int, 0x2C83int), (0x2C83int, 0x2C82int)]
}

pub open spec fn fold_chunk_244() -> Seq<(int, int)> {
    seq![(0x2C84int, 0x2C85int), (0x2C85int, 0x2C84int), (0x2C86int, 0x2C87int), (0x2C87int, 0x2C86int), (0x2C88int, 0x2C89int), (0x2C89int, 0x2C88int), (0x2C8Aint, 0x2C8Bint), (0x2C8Bint, 0x2C8Aint)]
}

pub open spec fn fold_chunk_245() -> Seq<(int, int)> {
    seq![(0x2C8Cint, 0x2C8Dint), (0x2C8Dint, 0x2C8Cint), (0x2C8Eint, 0x2C8Fint), (0x2C8Fint, 0x2C8Eint), (0x2C90int, 0x2C91int), (0x2C91int, 0x2C90int), (0x2C92int, 0x2C93int), (0x2C93int, 0x2C92int)]
}

pub open spec fn fold_chunk_246() -> Seq<(int, int)> {
    seq![(0x2C94int, 0x2C95int), (0x2C95int, 0x2C94int), (0x2C96int, 0x2C97int), (0x2C97int, 0x2C96int), (0x2C98int, 0x2C99int), (0x2C99int, 0x2C98int), (0x2C9Aint, 0x2C9Bint), (0x2C9Bint, 0x2C9Aint)]
}

pub open spec fn fold_chunk_247() -> Seq<(int, int)> {
    seq![(0x2C9Cint, 0x2C9Dint), (0x2C9Dint, 0x2C9Cint), (0x2C9Eint, 0x2C9Fint), (0x2C9Fint, 0x2C9Eint), (0x2CA0int, 0x2CA1int), (0x2CA1int, 0x2CA0int), (0x2CA2int, 0x2CA3int), (0x2CA3int, 0x2CA2int)]
}

pub open spec fn fold_chunk_248() -> Seq<(int, int)> {
    seq![(0x2CA4int, 0x2CA5int), (0x2CA5int, 0x2CA4int), (0x2CA6int, 0x2CA7int), (0x2CA7int, 0x2CA6int), (0x2CA8int, 0x2CA9int), (0x2CA9int, 0x2CA8int), (0x2CAAint, 0x2CABint), (0x2CABint, 0x2CAAint)]
}

pub open spec fn fold_chunk_249() -> Seq<(int, int)> {
    seq![(0x2CACint, 0x2CADint), (0x2CADint, 0x2CACint), (0x2CAEint, 0x2CAFint), (0x2CAFint, 0x2CAEint), (0x2CB0int, 0x2CB1int), (0x2CB1int, 0x2CB0int), (0x2CB2int, 0x2CB3int), (0x2CB3int, 0x2CB2int)]
}

pub open spec fn fold_chunk_250() -> Seq<(int, int)> {
    seq![(0x2CB4int, 0x2CB5int), (0x2CB5int, 0x2CB4int), (0x2CB6int, 0x2CB7int), (0x2CB7int, 0x2CB6int), (0x2CB8int, 0x2CB9int), (0x2CB9int, 0x2CB8int), (0x2CBAint, 0x2CBBint), (0x2CBBint, 0x2CBAint)]
}

pub open spec fn fold_chunk_251() -> Seq<(int, int)> {
    seq![(0x2CBCint, 0x2CBDint), (0x2CBDint, 0x2CBCint), (0x2CBEint, 0x2CBFint), (0x2CBFint, 0x2CBEint), (0x2CC0int, 0x2CC1int), (0x2CC1int, 0x2CC0int), (0x2CC2int, 0x2CC3int), (0x2CC3int, 0x2CC2int)]
}

pub open spec fn fold_chunk_252() -> Seq<(int, int)> {
    seq![(0x2CC4int, 0x2CC5int), (0x2CC5int, 0x2CC4int), (0x2CC6int, 0x2CC7int), (0x2CC7int, 0x2CC6int), (0x2CC8int, 0x2CC9int), (0x2CC9int, 0x2CC8int), (0x2CCAint, 0x2CCBint), (0x2CCBint, 0x2CCAint)]
}

pub open spec fn fold_chunk_253() -> Seq<(int, int)> {
    seq![(0x2CCCint, 0x2CCDint), (0x2CCDint, 0x2CCCint), (0x2CCEint, 0x2CCFint), (0x2CCFint, 0x2CCEint), (0x2CD0int, 0x2CD1int), (0x2CD1int, 0x2CD0int), (0x2CD2int, 0x2CD3int), (0x2CD3int, 0x2CD2int)]
}

pub open spec fn fold_chunk_254() -> Seq<(int, int)> {
    seq![(0x2CD4int, 0x2CD5int), (0x2CD5int, 0x2CD4int), (0x2CD6int, 0x2CD7int), (0x2CD7int, 0x2CD6int), (0x2CD8int, 0x2CD9int), (0x2CD9int, 0x2CD8int), (0x2CDAint, 0x2CDBint), (0x2CDBint, 0x2CDAint)]
}

pub open spec fn fold_chunk_255() -> Seq<(int, int)> {
    seq![(0x2CDCint, 0x2CDDint), (0x2CDDint, 0x2CDCint), (0x2CDEint, 0x2CDFint), (0x2CDFint, 0x2CDEint), (0x2CE0int, 0x2CE1int), (0x2CE1int, 0x2CE0int), (0x2CE2int, 0x2CE3int), (0x2CE3int, 0x2CE2int)]
}

pub open spec fn fold_chunk_256() -> Seq<(int, int)> {
    seq![(0x2CEBint, 0x2CECint), (0x2CECint, 0x2CEBint), (0x2CEDint, 0x2CEEint), (0x2CEEint, 0x2CEDint), (0x2CF2int, 0x2CF3int), (0x2CF3int, 0x2CF2int), (0x2D00int, 0x10A0int), (0x2D01int, 0x10A1int)]
}

pub open spec fn fold_chunk_257() -> Seq<(int, int)> {
    seq![(0x2D02int, 0x10A2int), (0x2D03int, 0x10A3int), (0x2D04int, 0x10A4int), (0x2D05int, 0x10A5int), (0x2D06int, 0x10A6int), (0x2D07int, 0x10A7int), (0x2D08int, 0x10A8int), (0x2D09int, 0x10A9int)]
}

pub open spec fn fold_chunk_258() -> Seq<(int, int)> {
    seq![(0x2D0Aint, 0x10AAint), (0x2D0Bint, 0x10ABint), (0x2D0Cint, 0x10ACint), (0x2D0Dint, 0x10ADint), (0x2D0Eint, 0x10AEint), (0x2D0Fint, 0x10AFint), (0x2D10int, 0x10B0int), (0x2D11int, 0x10B1int)]
}

pub open spec fn fold_chunk_259() -> Seq<(int, int)> {
    seq![(0x2D12int, 0x10B2int), (0x2D13int, 0x10B3int), (0x2D14int, 0x10B4int), (0x2D15int, 0x10B5int), (0x2D16int, 0x10B6int), (0x2D17int, 0x10B7int), (0x2D18int, 0x10B8int), (0x2D19int, 0x10B9int)]
}

pub open spec fn fold_chunk_260() -> Seq<(int, int)> {
    seq![(0x2D1Aint, 0x10BAint), (0x2D1Bint, 0x10BBint), (0x2D1Cint, 0x10BCint), (0x2D1Dint, 0x10BDint), (0x2D1Eint, 0x10BEint), (0x2D1Fint, 0x10BFint), (0x2D20int, 0x10C0int), (0x2D21int, 0x10C1int)]
}

pub open spec fn fold_chunk_261() -> Seq<(int, int)> {
    seq![(0x2D22int, 0x10C2int), (0x2D23int, 0x10C3int), (0x2D24int, 0x10C4int), (0x2D25int, 0x10C5int), (0x2D27int, 0x10C7int), (0x2D2Dint, 0x10CDint), (0xA640int, 0xA641int), (0xA641int, 0xA640int)]
}

pub open spec fn fold_chunk_262() -> Seq<(int, int)> {
    seq![(0xA642int, 0xA643int), (0xA643int, 0xA642int), (0xA644int, 0xA645int), (0xA645int, 0xA644int), (0xA646int, 0xA647int), (0xA647int, 0xA646int), (0xA648int, 0xA649int), (0xA649int, 0xA648int)]
}

pub open spec fn fold_chunk_263() -> Seq<(int, int)> {
    seq![(0xA64Aint, 0x1C88int), (0xA64Aint, 0xA64Bint), (0xA64Bint, 0x1C88int), (0xA64Bint, 0xA64Aint), (0xA64Cint, 0xA64Dint), (0xA64Dint, 0xA64Cint), (0xA64Eint, 0xA64Fint), (0xA64Fint, 0xA64Eint)]
}

pub open spec fn fold_chunk_264() -> Seq<(int, int)> {
    seq![(0xA650int, 0xA651int), (0xA651int, 0xA650int), (0xA652int, 0xA653int), (0xA653int, 0xA652int), (0xA654int, 0xA655int), (0xA655int, 0xA654int), (0xA656int, 0xA657int), (0xA657int, 0xA656int)]
}

pub open spec fn fold_chunk_265() -> Seq<(int, int)> {
    seq![(0xA658int, 0xA659int), (0xA659int, 0xA658int), (0xA65Aint, 0xA65Bint), (0xA65Bint, 0xA65Aint), (0xA65Cint, 0xA65Dint), (0xA65Dint, 0xA65Cint), (0xA65Eint, 0xA65Fint), (0xA65Fint, 0xA65Eint)]
}

pub open spec fn fold_chunk_266() -> Seq<(int, int)> {
    seq![(0xA660int, 0xA661int), (0xA661int, 0xA660int), (0xA662int, 0xA663int), (0xA663int, 0xA662int), (0xA664int, 0xA665int), (0xA665int, 0xA664int), (0xA666int, 0xA667int), (0xA667int, 0xA666int)]
}

pub open spec fn fold_chunk_267() -> Seq<(int, int)> {
    seq![(0xA668int, 0xA669int), (0xA669int, 0xA668int), (0xA66Aint, 0xA66Bint), (0xA66Bint, 0xA66Aint), (0xA66Cint, 0xA66Dint), (0xA66Dint, 0xA66Cint), (0xA680int, 0xA681int), (0xA681int, 0xA680int)]
}

pub open spec fn fold_chunk_268() -> Seq<(int, int)> {
    seq![(0xA682int, 0xA683int), (0xA683int, 0xA682int), (0xA684int, 0xA685int), (0xA685int, 0xA684int), (0xA686int, 0xA687int), (0xA687int, 0xA686int), (0xA688int, 0xA689int), (0xA689int, 0xA688int)]
}

pub open spec fn fold_chunk_269() -> Seq<(int, int)> {
    seq![(0xA68Aint, 0xA68Bint), (0xA68Bint, 0xA68Aint), (0xA68Cint, 0xA68Dint), (0xA68Dint, 0xA68Cint), (0xA68Eint, 0xA68Fint), (0xA68Fint, 0xA68Eint), (0xA690int, 0xA691int), (0xA691int, 0xA690int)]
}

pub open spec fn fold_chunk_270() -> Seq<(int, int)> {
    seq![(0xA692int, 0xA693int), (0xA693int, 0xA692int), (0xA694int, 0xA695int), (0xA695int, 0xA694int), (0xA696int, 0xA697int), (0xA697int, 0xA696int), (0xA698int, 0xA699int), (0xA699int, 0xA698int)]
}

pub open spec fn fold_chunk_271() -> Seq<(int, int)> {
    seq![(0xA69Aint, 0xA69Bint), (0xA69Bint, 0xA69Aint), (0xA722int, 0xA723int), (0xA723int, 0xA722int), (0xA724int, 0xA725int), (0xA725int, 0xA724int), (0xA726int, 0xA727int), (0xA727int, 0xA726int)]
}

pub open spec fn fold_chunk_272() -> Seq<(int, int)> {
    seq![(0xA728int, 0xA729int), (0xA729int, 0xA728int), (0xA72Aint, 0xA72Bint), (0xA72Bint, 0xA72Aint), (0xA72Cint, 0xA72Dint), (0xA72Dint, 0xA72Cint), (0xA72Eint, 0xA72Fint), (0xA72Fint, 0xA72Eint)]
}

pub open spec fn fold_chunk_273() -> Seq<(int, int)> {
    seq![(0xA732int, 0xA733int), (0xA733int, 0xA732int), (0xA734int, 0xA735int), (0xA735int, 0xA734int), (0xA736int, 0xA737int), (0xA737int, 0xA736int), (0xA738int, 0xA739int), (0xA739int, 0xA738int)]
}

pub open spec fn fold_chunk_274() -> Seq<(int, int)> {
    seq![(0xA73Aint, 0xA73Bint), (0xA73Bint, 0xA73Aint), (0xA73Cint, 0xA73Dint), (0xA73Dint, 0xA73Cint), (0xA73Eint, 0xA73Fint), (0xA73Fint, 0xA73Eint), (0xA740int, 0xA741int), (0xA741int, 0xA740int)]
}

pub open spec fn fold_chunk_275() -> Seq<(int, int)> {
    seq![(0xA742int, 0xA743int), (0xA743int, 0xA742int), (0xA744int, 0xA745int), (0xA745int, 0xA744int), (0xA746int, 0xA747int), (0xA747int, 0xA746int), (0xA748int, 0xA749int), (0xA749int, 0xA748int)]
}

pub open spec fn fold_chunk_276() -> Seq<(int, int)> {
    seq![(0xA74Aint, 0xA74Bint), (0xA74Bint, 0xA74Aint), (0xA74Cint, 0xA74Dint), (0xA74Dint, 0xA74Cint), (0xA74Eint, 0xA74Fint), (0xA74Fint, 0xA74Eint), (0xA750int, 0xA751int), (0xA751int, 0xA750int)]
}

pub open spec fn fold_chunk_277() -> Seq<(int, int)> {
    seq![(0xA752int, 0xA753int), (0xA753int, 0xA752int), (0xA754int, 0xA755int), (0xA755int, 0xA754int), (0xA756int, 0xA757int), (0xA757int, 0xA756int), (0xA758int, 0xA759int), (0xA759int, 0xA758int)]
}

pub open spec fn fold_chunk_278() -> Seq<(int, int)> {
    seq![(0xA75Aint, 0xA75Bint), (0xA75Bint, 0xA75Aint), (0xA75Cint, 0xA75Dint), (0xA75Dint, 0xA75Cint), (0xA75Eint, 0xA75Fint), (0xA75Fint, 0xA75Eint), (0xA760int, 0xA761int), (0xA761int, 0xA760int)]
}

pub open spec fn fold_chunk_279() -> Seq<(int, int)> {
    seq![(0xA762int, 0xA763int), (0xA763int, 0xA762int), (0xA764int, 0xA765int), (0xA765int, 0xA764int), (0xA766int, 0xA767int), (0xA767int, 0xA766int), (0xA768int, 0xA769int), (0xA769int, 0xA768int)]
}

pub open spec fn fold_chunk_280() -> Seq<(int, int)> {
    seq![(0xA76Aint, 0xA76Bint), (0xA76Bint, 0xA76Aint), (0xA76Cint, 0xA76Dint), (0xA76Dint, 0xA76Cint), (0xA76Eint, 0xA76Fint), (0xA76Fint, 0xA76Eint), (0xA779int, 0xA77Aint), (0xA77Aint, 0xA779int)]
}

pub open spec fn fold_chunk_281() -> Seq<(int, int)> {
    seq![(0xA77Bint, 0xA77Cint), (0xA77Cint, 0xA77Bint), (0xA77Dint, 0x1D79int), (0xA77Eint, 0xA77Fint), (0xA77Fint, 0xA77Eint), (0xA780int, 0xA781int), (0xA781int, 0xA780int), (0xA782int, 0xA783int)]
}

pub open spec fn fold_chunk_282() -> Seq<(int, int)> {
    seq![(0xA783int, 0xA782int), (0xA784int, 0xA785int), (0xA785int, 0xA784int), (0xA786int, 0xA787int), (0xA787int, 0xA786int), (0xA78Bint, 0xA78Cint), (0xA78Cint, 0xA78Bint), (0xA78Dint, 0x265int)]
}

pub open spec fn fold_chunk_283() -> Seq<(int, int)> {
    seq![(0xA790int, 0xA791int), (0xA791int, 0xA790int), (0xA792int, 0xA793int), (0xA793int, 0xA792int), (0xA794int, 0xA7C4int), (0xA796int, 0xA797int), (0xA797int, 0xA796int), (0xA798int, 0xA799int)]
}

pub open spec fn fold_chunk_284() -> Seq<(int, int)> {
    seq![(0xA799int, 0xA798int), (0xA79Aint, 0xA79Bint), (0xA79Bint, 0xA79Aint), (0xA79Cint, 0xA79Dint), (0xA79Dint, 0xA79Cint), (0xA79Eint, 0xA79Fint), (0xA79Fint, 0xA79Eint), (0xA7A0int, 0xA7A1int)]
}

pub open spec fn fold_chunk_285() -> Seq<(int, int)> {
    seq![(0xA7A1int, 0xA7A0int), (0xA7A2int, 0xA7A3int), (0xA7A3int, 0xA7A2int), (0xA7A4int, 0xA7A5int), (0xA7A5int, 0xA7A4int), (0xA7A6int, 0xA7A7int), (0xA7A7int, 0xA7A6int), (0xA7A8int, 0xA7A9int)]
}

pub open spec fn fold_chunk_286() -> Seq<(int, int)> {
    seq![(0xA7A9int, 0xA7A8int), (0xA7AAint, 0x266int), (0xA7ABint, 0x25Cint), (0xA7ACint, 0x261int), (0xA7ADint, 0x26Cint), (0xA7AEint, 0x26Aint), (0xA7B0int, 0x29Eint), (0xA7B1int, 0x287int)]
}

pub open spec fn fold_chunk_287() -> Seq<(int, int)> {
    seq![(0xA7B2int, 0x29Dint), (0xA7B3int, 0xAB53int), (0xA7B4int, 0xA7B5int), (0xA7B5int, 0xA7B4int), (0xA7B6int, 0xA7B7int), (0xA7B7int, 0xA7B6int), (0xA7B8int, 0xA7B9int), (0xA7B9int, 0xA7B8int)]
}

pub open spec fn fold_chunk_288() -> Seq<(int, int)> {
    seq![(0xA7BAint, 0xA7BBint), (0xA7BBint, 0xA7BAint), (0xA7BCint, 0xA7BDint), (0xA7BDint, 0xA7BCint), (0xA7BEint, 0xA7BFint), (0xA7BFint, 0xA7BEint), (0xA7C0int, 0xA7C1int), (0xA7C1int, 0xA7C0int)]
}

pub open spec fn fold_chunk_289() -> Seq<(int, int)> {
    seq![(0xA7C2int, 0xA7C3int), (0xA7C3int, 0xA7C2int), (0xA7C4int, 0xA794int), (0xA7C5int, 0x282int), (0xA7C6int, 0x1D8Eint), (0xA7C7int, 0xA7C8int), (0xA7C8int, 0xA7C7int), (0xA7C9int, 0xA7CAint)]
}

pub open spec fn fold_chunk_290() -> Seq<(int, int)> {
    seq![(0xA7CAint, 0xA7C9int), (0xA7CBint, 0x264int), (0xA7CCint, 0xA7CDint), (0xA7CDint, 0xA7CCint), (0xA7D0int, 0xA7D1int), (0xA7D1int, 0xA7D0int), (0xA7D6int, 0xA7D7int), (0xA7D7int, 0xA7D6int)]
}

pub open spec fn fold_chunk_291() -> Seq<(int, int)> {
    seq![(0xA7D8int, 0xA7D9int), (0xA7D9int, 0xA7D8int), (0xA7DAint, 0xA7DBint), (0xA7DBint, 0xA7DAint), (0xA7DCint, 0x19Bint), (0xA7F5int, 0xA7F6int), (0xA7F6int, 0xA7F5int), (0xAB53int, 0xA7B3int)]
}

pub open spec fn fold_chunk_292() -> Seq<(int, int)> {
    seq![(0xAB70int, 0x13A0int), (0xAB71int, 0x13A1int), (0xAB72int, 0x13A2int), (0xAB73int, 0x13A3int), (0xAB74int, 0x13A4int), (0xAB75int, 0x13A5int), (0xAB76int, 0x13A6int), (0xAB77int, 0x13A7int)]
}

pub open spec fn fold_chunk_293() -> Seq<(int, int)> {
    seq![(0xAB78int, 0x13A8int), (0xAB79int, 0x13A9int), (0xAB7Aint, 0x13AAint), (0xAB7Bint, 0x13ABint), (0xAB7Cint, 0x13ACint), (0xAB7Dint, 0x13ADint), (0xAB7Eint, 0x13AEint), (0xAB7Fint, 0x13AFint)]
}

pub open spec fn fold_chunk_294() -> Seq<(int, int)> {
    seq![(0xAB80int, 0x13B0int), (0xAB81int, 0x13B1int), (0xAB82int, 0x13B2int), (0xAB83int, 0x13B3int), (0xAB84int, 0x13B4int), (0xAB85int, 0x13B5int), (0xAB86int, 0x13B6int), (0xAB87int, 0x13B7int)]
}

pub open spec fn fold_chunk_295() -> Seq<(int, int)> {
    seq![(0xAB88int, 0x13B8int), (0xAB89int, 0x13B9int), (0xAB8Aint, 0x13BAint), (0xAB8Bint, 0x13BBint), (0xAB8Cint, 0x13BCint), (0xAB8Dint, 0x13BDint), (0xAB8Eint, 0x13BEint), (0xAB8Fint, 0x13BFint)]
}

pub open spec fn fold_chunk_296() -> Seq<(int, int)> {
    seq![(0xAB90int, 0x13C0int), (0xAB91int, 0x13C1int), (0xAB92int, 0x13C2int), (0xAB93int, 0x13C3int), (0xAB94int, 0x13C4int), (0xAB95int, 0x13C5int), (0xAB96int, 0x13C6int), (0xAB97int, 0x13C7int)]
}

pub open spec fn fold_chunk_297() -> Seq<(int, int)> {
    seq![(0xAB98int, 0x13C8int), (0xAB99int, 0x13C9int), (0xAB9Aint, 0x13CAint), (0xAB9Bint, 0x13CBint), (0xAB9Cint, 0x13CCint), (0xAB9Dint, 0x13CDint), (0xAB9Eint, 0x13CEint), (0xAB9Fint, 0x13CFint)]
}

pub open spec fn fold_chunk_298() -> Seq<(int, int)> {
    seq![(0xABA0int, 0x13D0int), (0xABA1int, 0x13D1int), (0xABA2int, 0x13D2int), (0xABA3int, 0x13D3int), (0xABA4int, 0x13D4int), (0xABA5int, 0x13D5int), (0xABA6int, 0x13D6int), (0xABA7int, 0x13D7int)]
}

pub open spec fn fold_chunk_299() -> Seq<(int, int)> {
    seq![(0xABA8int, 0x13D8int), (0xABA9int, 0x13D9int), (0xABAAint, 0x13DAint), (0xABABint, 0x13DBint), (0xABACint, 0x13DCint), (0xABADint, 0x13DDint), (0xABAEint, 0x13DEint), (0xABAFint, 0x13DFint)]
}

pub open spec fn fold_chunk_300() -> Seq<(int, int)> {
    seq![(0xABB0int, 0x13E0int), (0xABB1int, 0x13E1int), (0xABB2int, 0x13E2int), (0xABB3int, 0x13E3int), (0xABB4int, 0x13E4int), (0xABB5int, 0x13E5int), (0xABB6int, 0x13E6int), (0xABB7int, 0x13E7int)]
}

pub open spec fn fold_chunk_301() -> Seq<(int, int)> {
    seq![(0xABB8int, 0x13E8int), (0xABB9int, 0x13E9int), (0xABBAint, 0x13EAint), (0xABBBint, 0x13EBint), (0xABBCint, 0x13ECint), (0xABBDint, 0x13EDint), (0xABBEint, 0x13EEint), (0xABBFint, 0x13EFint)]
}

pub open spec fn fold_chunk_302() -> Seq<(int, int)> {
    seq![(0xFB05int, 0xFB06int), (0xFB06int, 0xFB05int), (0xFF21int, 0xFF41int), (0xFF22int, 0xFF42int), (0xFF23int, 0xFF43int), (0xFF24int, 0xFF44int), (0xFF25int, 0xFF45int), (0xFF26int, 0xFF46int)]
}

pub open spec fn fold_chunk_303() -> Seq<(int, int)> {
    seq![(0xFF27int, 0xFF47int), (0xFF28int, 0xFF48int), (0xFF29int, 0xFF49int), (0xFF2Aint, 0xFF4Aint), (0xFF2Bint, 0xFF4Bint), (0xFF2Cint, 0xFF4Cint), (0xFF2Dint, 0xFF4Dint), (0xFF2Eint, 0xFF4Eint)]
}

pub open spec fn fold_chunk_304() -> Seq<(int, int)> {
    seq![(0xFF2Fint, 0xFF4Fint), (0xFF30int, 0xFF50int), (0xFF31int, 0xFF51int), (0xFF32int, 0xFF52int), (0xFF33int, 0xFF53int), (0xFF34int, 0xFF54int), (0xFF35int, 0xFF55int), (0xFF36int, 0xFF56int)]
}

pub open spec fn fold_chunk_305() -> Seq<(int, int)> {
    seq![(0xFF37int, 0xFF57int), (0xFF38int, 0xFF58int), (0xFF39int, 0xFF59int), (0xFF3Aint, 0xFF5Aint), (0xFF41int, 0xFF21int), (0xFF42int, 0xFF22int), (0xFF43int, 0xFF23int), (0xFF44int, 0xFF24int)]
}

pub open spec fn fold_chunk_306() -> Seq<(int, int)> {
    seq![(0xFF45int, 0xFF25int), (0xFF46int, 0xFF26int), (0xFF47int, 0xFF27int), (0xFF48int, 0xFF28int), (0xFF49int, 0xFF29int), (0xFF4Aint, 0xFF2Aint), (0xFF4Bint, 0xFF2Bint), (0xFF4Cint, 0xFF2Cint)]
}

pub open spec fn fold_chunk_307() -> Seq<(int, int)> {
    seq![(0xFF4Dint, 0xFF2Dint), (0xFF4Eint, 0xFF2Eint), (0xFF4Fint, 0xFF2Fint), (0xFF50int, 0xFF30int), (0xFF51int, 0xFF31int), (0xFF52int, 0xFF32int), (0xFF53int, 0xFF33int), (0xFF54int, 0xFF34int)]
}

pub open spec fn fold_chunk_308() -> Seq<(int, int)> {
    seq![(0xFF55int, 0xFF35int), (0xFF56int, 0xFF36int), (0xFF57int, 0xFF37int), (0xFF58int, 0xFF38int), (0xFF59int, 0xFF39int), (0xFF5Aint, 0xFF3Aint), (0x10400int, 0x10428int), (0x10401int, 0x10429int)]
}

pub open spec fn fold_chunk_309() -> Seq<(int, int)> {
    seq![(0x10402int, 0x1042Aint), (0x10403int, 0x1042Bint), (0x10404int, 0x1042Cint), (0x10405int, 0x1042Dint), (0x10406int, 0x1042Eint), (0x10407int, 0x1042Fint), (0x10408int, 0x10430int), (0x10409int, 0x10431int)]
}

pub open spec fn fold_chunk_310() -> Seq<(int, int)> {
    seq![(0x1040Aint, 0x10432int), (0x1040Bint, 0x10433int), (0x1040Cint, 0x10434int), (0x1040Dint, 0x10435int), (0x1040Eint, 0x10436int), (0x1040Fint, 0x10437int), (0x10410int, 0x10438int), (0x10411int, 0x10439int)]
}

pub open spec fn fold_chunk_311() -> Seq<(int, int)> {
    seq![(0x10412int, 0x1043Aint), (0x10413int, 0x1043Bint), (0x10414int, 0x1043Cint), (0x10415int, 0x1043Dint), (0x10416int, 0x1043Eint), (0x10417int, 0x1043Fint), (0x10418int, 0x10440int), (0x10419int, 0x10441int)]
}

pub open spec fn fold_chunk_312() -> Seq<(int, int)> {
    seq![(0x1041Aint, 0x10442int), (0x1041Bint, 0x10443int), (0x1041Cint, 0x10444int), (0x1041Dint, 0x10445int), (0x1041Eint, 0x10446int), (0x1041Fint, 0x10447int), (0x10420int, 0x10448int), (0x10421int, 0x10449int)]
}

pub open spec fn fold_chunk_313() -> Seq<(int, int)> {
    seq![(0x10422int, 0x1044Aint), (0x10423int, 0x1044Bint), (0x10424int, 0x1044Cint), (0x10425int, 0x1044Dint), (0x10426int, 0x1044Eint), (0x10427int, 0x1044Fint), (0x10428int, 0x10400int), (0x10429int, 0x10401int)]
}

pub open spec fn fold_chunk_314() -> Seq<(int, int)> {
    seq![(0x1042Aint, 0x10402int), (0x1042Bint, 0x10403int), (0x1042Cint, 0x10404int), (0x1042Dint, 0x10405int), (0x1042Eint, 0x10406int), (0x1042Fint, 0x10407int), (0x10430int, 0x10408int), (0x10431int, 0x10409int)]
}

pub open spec fn fold_chunk_315() -> Seq<(int, int)> {
    seq![(0x10432int, 0x1040Aint), (0x10433int, 0x1040Bint), (0x10434int, 0x1040Cint), (0x10435int, 0x1040Dint), (0x10436int, 0x1040Eint), (0x10437int, 0x1040Fint), (0x10438int, 0x10410int), (0x10439int, 0x10411int)]
}

pub open spec fn fold_chunk_316() -> Seq<(int, int)> {
    seq![(0x1043Aint, 0x10412int), (0x1043Bint, 0x10413int), (0x1043Cint, 0x10414int), (0x1043Dint, 0x10415int), (0x1043Eint, 0x10416int), (0x1043Fint, 0x10417int), (0x10440int, 0x10418int), (0x10441int, 0x10419int)]
}

pub open spec fn fold_chunk_317() -> Seq<(int, int)> {
    seq![(0x10442int, 0x1041Aint), (0x10443int, 0x1041Bint), (0x10444int, 0x1041Cint), (0x10445int, 0x1041Dint), (0x10446int, 0x1041Eint), (0x10447int, 0x1041Fint), (0x10448int, 0x10420int), (0x10449int, 0x10421int)]
}

pub open spec fn fold_chunk_318() -> Seq<(int, int)> {
    seq![(0x1044Aint, 0x10422int), (0x1044Bint, 0x10423int), (0x1044Cint, 0x10424int), (0x1044Dint, 0x10425int), (0x1044Eint, 0x10426int), (0x1044Fint, 0x10427int), (0x104B0int, 0x104D8int), (0x104B1int, 0x104D9int)]
}

pub open spec fn fold_chunk_319() -> Seq<(int, int)> {
    seq![(0x104B2int, 0x104DAint), (0x104B3int, 0x104DBint), (0x104B4int, 0x104DCint), (0x104B5int, 0x104DDint), (0x104B6int, 0x104DEint), (0x104B7int, 0x104DFint), (0x104B8int, 0x104E0int), (0x104B9int, 0x104E1int)]
}

pub open spec fn fold_chunk_320() -> Seq<(int, int)> {
    seq![(0x104BAint, 0x104E2int), (0x104BBint, 0x104E3int), (0x104BCint, 0x104E4int), (0x104BDint, 0x104E5int), (0x104BEint, 0x104E6int), (0x104BFint, 0x104E7int), (0x104C0int, 0x104E8int), (0x104C1int, 0x104E9int)]
}

pub open spec fn fold_chunk_321() -> Seq<(int, int)> {
    seq![(0x104C2int, 0x104EAint), (0x104C3int, 0x104EBint), (0x104C4int, 0x104ECint), (0x104C5int, 0x104EDint), (0x104C6int, 0x104EEint), (0x104C7int, 0x104EFint), (0x104C8int, 0x104F0int), (0x104C9int, 0x104F1int)]
}

pub open spec fn fold_chunk_322() -> Seq<(int, int)> {
    seq![(0x104CAint, 0x104F2int), (0x104CBint, 0x104F3int), (0x104CCint, 0x104F4int), (0x104CDint, 0x104F5int), (0x104CEint, 0x104F6int), (0x104CFint, 0x104F7int), (0x104D0int, 0x104F8int), (0x104D1int, 0x104F9int)]
}

pub open spec fn fold_chunk_323() -> Seq<(int, int)> {
    seq![(0x104D2int, 0x104FAint), (0x104D3int, 0x104FBint), (0x104D8int, 0x104B0int), (0x104D9int, 0x104B1int), (0x104DAint, 0x104B2int), (0x104DBint, 0x104B3int), (0x104DCint, 0x104B4int), (0x104DDint, 0x104B5int)]
}

pub open spec fn fold_chunk_324() -> Seq<(int, int)> {
    seq![(0x104DEint, 0x104B6int), (0x104DFint, 0x104B7int), (0x104E0int, 0x104B8int), (0x104E1int, 0x104B9int), (0x104E2int, 0x104BAint), (0x104E3int, 0x104BBint), (0x104E4int, 0x104BCint), (0x104E5int, 0x104BDint)]
}

pub open spec fn fold_chunk_325() -> Seq<(int, int)> {
    seq![(0x104E6int, 0x104BEint), (0x104E7int, 0x104BFint), (0x104E8int, 0x104C0int), (0x104E9int, 0x104C1int), (0x104EAint, 0x104C2int), (0x104EBint, 0x104C3int), (0x104ECint, 0x104C4int), (0x104EDint, 0x104C5int)]
}

pub open spec fn fold_chunk_326() -> Seq<(int, int)> {
    seq![(0x104EEint, 0x104C6int), (0x104EFint, 0x104C7int), (0x104F0int, 0x104C8int), (0x104F1int, 0x104C9int), (0x104F2int, 0x104CAint), (0x104F3int, 0x104CBint), (0x104F4int, 0x104CCint), (0x104F5int, 0x104CDint)]
}

pub open spec fn fold_chunk_327() -> Seq<(int, int)> {
    seq![(0x104F6int, 0x104CEint), (0x104F7int, 0x104CFint), (0x104F8int, 0x104D0int), (0x104F9int, 0x104D1int), (0x104FAint, 0x104D2int), (0x104FBint, 0x104D3int), (0x10570int, 0x10597int), (0x10571int, 0x10598int)]
}

pub open spec fn fold_chunk_328() -> Seq<(int, int)> {
    seq![(0x10572int, 0x10599int), (0x10573int, 0x1059Aint), (0x10574int, 0x1059Bint), (0x10575int, 0x1059Cint), (0x10576int, 0x1059Dint), (0x10577int, 0x1059Eint), (0x10578int, 0x1059Fint), (0x10579int, 0x105A0int)]
}

pub open spec fn fold_chunk_329() -> Seq<(int, int)> {
    seq![(0x1057Aint, 0x105A1int), (0x1057Cint, 0x105A3int), (0x1057Dint, 0x105A4int), (0x1057Eint, 0x105A5int), (0x1057Fint, 0x105A6int), (0x10580int, 0x105A7int), (0x10581int, 0x105A8int), (0x10582int, 0x105A9int)]
}

pub open spec fn fold_chunk_330() -> Seq<(int, int)> {
    seq![(0x10583int, 0x105AAint), (0x10584int, 0x105ABint), (0x10585int, 0x105ACint), (0x10586int, 0x105ADint), (0x10587int, 0x105AEint), (0x10588int, 0x105AFint), (0x10589int, 0x105B0int), (0x1058Aint, 0x105B1int)]
}

pub open spec fn fold_chunk_331() -> Seq<(int, int)> {
    seq![(0x1058Cint, 0x105B3int), (0x1058Dint, 0x105B4int), (0x1058Eint, 0x105B5int), (0x1058Fint, 0x105B6int), (0x10590int, 0x105B7int), (0x10591int, 0x105B8int), (0x10592int, 0x105B9int), (0x10594int, 0x105BBint)]
}

pub open spec fn fold_chunk_332() -> Seq<(int, int)> {
    seq![(0x10595int, 0x105BCint), (0x10597int, 0x10570int), (0x10598int, 0x10571int), (0x10599int, 0x10572int), (0x1059Aint, 0x10573int), (0x1059Bint, 0x10574int), (0x1059Cint, 0x10575int), (0x1059Dint, 0x10576int)]
}

pub open spec fn fold_chunk_333() -> Seq<(int, int)> {
    seq![(0x1059Eint, 0x10577int), (0x1059Fint, 0x10578int), (0x105A0int, 0x10579int), (0x105A1int, 0x1057Aint), (0x105A3int, 0x1057Cint), (0x105A4int, 0x1057Dint), (0x105A5int, 0x1057Eint), (0x105A6int, 0x1057Fint)]
}

pub open spec fn fold_chunk_334() -> Seq<(int, int)> {
    seq![(0x105A7int, 0x10580int), (0x105A8int, 0x10581int), (0x105A9int, 0x10582int), (0x105AAint, 0x10583int), (0x105ABint, 0x10584int), (0x105ACint, 0x10585int), (0x105ADint, 0x10586int), (0x105AEint, 0x10587int)]
}

pub open spec fn fold_chunk_335() -> Seq<(int, int)> {
    seq![(0x105AFint, 0x10588int), (0x105B0int, 0x10589int), (0x105B1int, 0x1058Aint), (0x105B3int, 0x1058Cint), (0x105B4int, 0x1058Dint), (0x105B5int, 0x1058Eint), (0x105B6int, 0x1058Fint), (0x105B7int, 0x10590int)]
}

pub open spec fn fold_chunk_336() -> Seq<(int, int)> {
    seq![(0x105B8int, 0x10591int), (0x105B9int, 0x10592int), (0x105BBint, 0x10594int), (0x105BCint, 0x10595int), (0x10C80int, 0x10CC0int), (0x10C81int, 0x10CC1int), (0x10C82int, 0x10CC2int), (0x10C83int, 0x10CC3int)]
}

pub open spec fn fold_chunk_337() -> Seq<(int, int)> {
    seq![(0x10C84int, 0x10CC4int), (0x10C85int, 0x10CC5int), (0x10C86int, 0x10CC6int), (0x10C87int, 0x10CC7int), (0x10C88int, 0x10CC8int), (0x10C89int, 0x10CC9int), (0x10C8Aint, 0x10CCAint), (0x10C8Bint, 0x10CCBint)]
}

pub open spec fn fold_chunk_338() -> Seq<(int, int)> {
    seq![(0x10C8Cint, 0x10CCCint), (0x10C8Dint, 0x10CCDint), (0x10C8Eint, 0x10CCEint), (0x10C8Fint, 0x10CCFint), (0x10C90int, 0x10CD0int), (0x10C91int, 0x10CD1int), (0x10C92int, 0x10CD2int), (0x10C93int, 0x10CD3int)]
}

pub open spec fn fold_chunk_339() -> Seq<(int, int)> {
    seq![(0x10C94int, 0x10CD4int), (0x10C95int, 0x10CD5int), (0x10C96int, 0x10CD6int), (0x10C97int, 0x10CD7int), (0x10C98int, 0x10CD8int), (0x10C99int, 0x10CD9int), (0x10C9Aint, 0x10CDAint), (0x10C9Bint, 0x10CDBint)]
}

pub open spec fn fold_chunk_340() -> Seq<(int, int)> {
    seq![(0x10C9Cint, 0x10CDCint), (0x10C9Dint, 0x10CDDint), (0x10C9Eint, 0x10CDEint), (0x10C9Fint, 0x10CDFint), (0x10CA0int, 0x10CE0int), (0x10CA1int, 0x10CE1int), (0x10CA2int, 0x10CE2int), (0x10CA3int, 0x10CE3int)]
}

pub open spec fn fold_chunk_341() -> Seq<(int, int)> {
    seq![(0x10CA4int, 0x10CE4int), (0x10CA5int, 0x10CE5int), (0x10CA6int, 0x10CE6int), (0x10CA7int, 0x10CE7int), (0x10CA8int, 0x10CE8int), (0x10CA9int, 0x10CE9int), (0x10CAAint, 0x10CEAint), (0x10CABint, 0x10CEBint)]
}

pub open spec fn fold_chunk_342() -> Seq<(int, int)> {
    seq![(0x10CACint, 0x10CECint), (0x10CADint, 0x10CEDint), (0x10CAEint, 0x10CEEint), (0x10CAFint, 0x10CEFint), (0x10CB0int, 0x10CF0int), (0x10CB1int, 0x10CF1int), (0x10CB2int, 0x10CF2int), (0x10CC0int, 0x10C80int)]
}

pub open spec fn fold_chunk_343() -> Seq<(int, int)> {
    seq![(0x10CC1int, 0x10C81int), (0x10CC2int, 0x10C82int), (0x10CC3int, 0x10C83int), (0x10CC4int, 0x10C84int), (0x10CC5int, 0x10C85int), (0x10CC6int, 0x10C86int), (0x10CC7int, 0x10C87int), (0x10CC8int, 0x10C88int)]
}

pub open spec fn fold_chunk_344() -> Seq<(int, int)> {
    seq![(0x10CC9int, 0x10C89int), (0x10CCAint, 0x10C8Aint), (0x10CCBint, 0x10C8Bint), (0x10CCCint, 0x10C8Cint), (0x10CCDint, 0x10C8Dint), (0x10CCEint, 0x10C8Eint), (0x10CCFint, 0x10C8Fint), (0x10CD0int, 0x10C90int)]
}

pub open spec fn fold_chunk_345() -> Seq<(int, int)> {
    seq![(0x10CD1int, 0x10C91int), (0x10CD2int, 0x10C92int), (0x10CD3int, 0x10C93int), (0x10CD4int, 0x10C94int), (0x10CD5int, 0x10C95int), (0x10CD6int, 0x10C96int), (0x10CD7int, 0x10C97int), (0x10CD8int, 0x10C98int)]
}

pub open spec fn fold_chunk_346() -> Seq<(int, int)> {
    seq![(0x10CD9int, 0x10C99int), (0x10CDAint, 0x10C9Aint), (0x10CDBint, 0x10C9Bint), (0x10CDCint, 0x10C9Cint), (0x10CDDint, 0x10C9Dint), (0x10CDEint, 0x10C9Eint), (0x10CDFint, 0x10C9Fint), (0x10CE0int, 0x10CA0int)]
}

pub open spec fn fold_chunk_347() -> Seq<(int, int)> {
    seq![(0x10CE1int, 0x10CA1int), (0x10CE2int, 0x10CA2int), (0x10CE3int, 0x10CA3int), (0x10CE4int, 0x10CA4int), (0x10CE5int, 0x10CA5int), (0x10CE6int, 0x10CA6int), (0x10CE7int, 0x10CA7int), (0x10CE8int, 0x10CA8int)]
}

pub open spec fn fold_chunk_348() -> Seq<(int, int)> {
    seq![(0x10CE9int, 0x10CA9int), (0x10CEAint, 0x10CAAint), (0x10CEBint, 0x10CABint), (0x10CECint, 0x10CACint), (0x10CEDint, 0x10CADint), (0x10CEEint, 0x10CAEint), (0x10CEFint, 0x10CAFint), (0x10CF0int, 0x10CB0int)]
}

pub open spec fn fold_chunk_349() -> Seq<(int, int)> {
    seq![(0x10CF1int, 0x10CB1int), (0x10CF2int, 0x10CB2int), (0x10D50int, 0x10D70int), (0x10D51int, 0x10D71int), (0x10D52int, 0x10D72int), (0x10D53int, 0x10D73int), (0x10D54int, 0x10D74int), (0x10D55int, 0x10D75int)]
}

pub open spec fn fold_chunk_350() -> Seq<(int, int)> {
    seq![(0x10D56int, 0x10D76int), (0x10D57int, 0x10D77int), (0x10D58int, 0x10D78int), (0x10D59int, 0x10D79int), (0x10D5Aint, 0x10D7Aint), (0x10D5Bint, 0x10D7Bint), (0x10D5Cint, 0x10D7Cint), (0x10D5Dint, 0x10D7Dint)]
}

pub open spec fn fold_chunk_351() -> Seq<(int, int)> {
    seq![(0x10D5Eint, 0x10D7Eint), (0x10D5Fint, 0x10D7Fint), (0x10D60int, 0x10D80int), (0x10D61int, 0x10D81int), (0x10D62int, 0x10D82int), (0x10D63int, 0x10D83int), (0x10D64int, 0x10D84int), (0x10D65int, 0x10D85int)]
}

pub open spec fn fold_chunk_352() -> Seq<(int, int)> {
    seq![(0x10D70int, 0x10D50int), (0x10D71int, 0x10D51int), (0x10D72int, 0x10D52int), (0x10D73int, 0x10D53int), (0x10D74int, 0x10D54int), (0x10D75int, 0x10D55int), (0x10D76int, 0x10D56int), (0x10D77int, 0x10D57int)]
}

pub open spec fn fold_chunk_353() -> Seq<(int, int)> {
    seq![(0x10D78int, 0x10D58int), (0x10D79int, 0x10D59int), (0x10D7Aint, 0x10D5Aint), (0x10D7Bint, 0x10D5Bint), (0x10D7Cint, 0x10D5Cint), (0x10D7Dint, 0x10D5Dint), (0x10D7Eint, 0x10D5Eint), (0x10D7Fint, 0x10D5Fint)]
}

pub open spec fn fold_chunk_354() -> Seq<(int, int)> {
    seq![(0x10D80int, 0x10D60int), (0x10D81int, 0x10D61int), (0x10D82int, 0x10D62int), (0x10D83int, 0x10D63int), (0x10D84int, 0x10D64int), (0x10D85int, 0x10D65int), (0x118A0int, 0x118C0int), (0x118A1int, 0x118C1int)]
}

pub open spec fn fold_chunk_355() -> Seq<(int, int)> {
    seq![(0x118A2int, 0x118C2int), (0x118A3int, 0x118C3int), (0x118A4int, 0x118C4int), (0x118A5int, 0x118C5int), (0x118A6int, 0x118C6int), (0x118A7int, 0x118C7int), (0x118A8int, 0x118C8int), (0x118A9int, 0x118C9int)]
}

pub open spec fn fold_chunk_356() -> Seq<(int, int)> {
    seq![(0x118AAint, 0x118CAint), (0x118ABint, 0x118CBint), (0x118ACint, 0x118CCint), (0x118ADint, 0x118CDint), (0x118AEint, 0x118CEint), (0x118AFint, 0x118CFint), (0x118B0int, 0x118D0int), (0x118B1int, 0x118D1int)]
}

pub open spec fn fold_chunk_357() -> Seq<(int, int)> {
    seq![(0x118B2int, 0x118D2int), (0x118B3int, 0x118D3int), (0x118B4int, 0x118D4int), (0x118B5int, 0x118D5int), (0x118B6int, 0x118D6int), (0x118B7int, 0x118D7int), (0x118B8int, 0x118D8int), (0x118B9int, 0x118D9int)]
}

pub open spec fn fold_chunk_358() -> Seq<(int, int)> {
    seq![(0x118BAint, 0x118DAint), (0x118BBint, 0x118DBint), (0x118BCint, 0x118DCint), (0x118BDint, 0x118DDint), (0x118BEint, 0x118DEint), (0x118BFint, 0x118DFint), (0x118C0int, 0x118A0int), (0x118C1int, 0x118A1int)]
}

pub open spec fn fold_chunk_359() -> Seq<(int, int)> {
    seq![(0x118C2int, 0x118A2int), (0x118C3int, 0x118A3int), (0x118C4int, 0x118A4int), (0x118C5int, 0x118A5int), (0x118C6int, 0x118A6int), (0x118C7int, 0x118A7int), (0x118C8int, 0x118A8int), (0x118C9int, 0x118A9int)]
}

pub open spec fn fold_chunk_360() -> Seq<(int, int)> {
    seq![(0x118CAint, 0x118AAint), (0x118CBint, 0x118ABint), (0x118CCint, 0x118ACint), (0x118CDint, 0x118ADint), (0x118CEint, 0x118AEint), (0x118CFint, 0x118AFint), (0x118D0int, 0x118B0int), (0x118D1int, 0x118B1int)]
}

pub open spec fn fold_chunk_361() -> Seq<(int, int)> {
    seq![(0x118D2int, 0x118B2int), (0x118D3int, 0x118B3int), (0x118D4int, 0x118B4int), (0x118D5int, 0x118B5int), (0x118D6int, 0x118B6int), (0x118D7int, 0x118B7int), (0x118D8int, 0x118B8int), (0x118D9int, 0x118B9int)]
}

pub open spec fn fold_chunk_362() -> Seq<(int, int)> {
    seq![(0x118DAint, 0x118BAint), (0x118DBint, 0x118BBint), (0x118DCint, 0x118BCint), (0x118DDint, 0x118BDint), (0x118DEint, 0x118BEint), (0x118DFint, 0x118BFint), (0x16E40int, 0x16E60int), (0x16E41int, 0x16E61int)]
}

pub open spec fn fold_chunk_363() -> Seq<(int, int)> {
    seq![(0x16E42int, 0x16E62int), (0x16E43int, 0x16E63int), (0x16E44int, 0x16E64int), (0x16E45int, 0x16E65int), (0x16E46int, 0x16E66int), (0x16E47int, 0x16E67int), (0x16E48int, 0x16E68int), (0x16E49int, 0x16E69int)]
}

pub open spec fn fold_chunk_364() -> Seq<(int, int)> {
    seq![(0x16E4Aint, 0x16E6Aint), (0x16E4Bint, 0x16E6Bint), (0x16E4Cint, 0x16E6Cint), (0x16E4Dint, 0x16E6Dint), (0x16E4Eint, 0x16E6Eint), (0x16E4Fint, 0x16E6Fint), (0x16E50int, 0x16E70int), (0x16E51int, 0x16E71int)]
}

pub open spec fn fold_chunk_365() -> Seq<(int, int)> {
    seq![(0x16E52int, 0x16E72int), (0x16E53int, 0x16E73int), (0x16E54int, 0x16E74int), (0x16E55int, 0x16E75int), (0x16E56int, 0x16E76int), (0x16E57int, 0x16E77int), (0x16E58int, 0x16E78int), (0x16E59int, 0x16E79int)]
}

pub open spec fn fold_chunk_366() -> Seq<(int, int)> {
    seq![(0x16E5Aint, 0x16E7Aint), (0x16E5Bint, 0x16E7Bint), (0x16E5Cint, 0x16E7Cint), (0x16E5Dint, 0x16E7Dint), (0x16E5Eint, 0x16E7Eint), (0x16E5Fint, 0x16E7Fint), (0x16E60int, 0x16E40int), (0x16E61int, 0x16E41int)]
}

pub open spec fn fold_chunk_367() -> Seq<(int, int)> {
    seq![(0x16E62int, 0x16E42int), (0x16E63int, 0x16E43int), (0x16E64int, 0x16E44int), (0x16E65int, 0x16E45int), (0x16E66int, 0x16E46int), (0x16E67int, 0x16E47int), (0x16E68int, 0x16E48int), (0x16E69int, 0x16E49int)]
}

pub open spec fn fold_chunk_368() -> Seq<(int, int)> {
    seq![(0x16E6Aint, 0x16E4Aint), (0x16E6Bint, 0x16E4Bint), (0x16E6Cint, 0x16E4Cint), (0x16E6Dint, 0x16E4Dint), (0x16E6Eint, 0x16E4Eint), (0x16E6Fint, 0x16E4Fint), (0x16E70int, 0x16E50int), (0x16E71int, 0x16E51int)]
}

pub open spec fn fold_chunk_369() -> Seq<(int, int)> {
    seq![(0x16E72int, 0x16E52int), (0x16E73int, 0x16E53int), (0x16E74int, 0x16E54int), (0x16E75int, 0x16E55int), (0x16E76int, 0x16E56int), (0x16E77int, 0x16E57int), (0x16E78int, 0x16E58int), (0x16E79int, 0x16E59int)]
}

pub open spec fn fold_chunk_370() -> Seq<(int, int)> {
    seq![(0x16E7Aint, 0x16E5Aint), (0x16E7Bint, 0x16E5Bint), (0x16E7Cint, 0x16E5Cint), (0x16E7Dint, 0x16E5Dint), (0x16E7Eint, 0x16E5Eint), (0x16E7Fint, 0x16E5Fint), (0x1E900int, 0x1E922int), (0x1E901int, 0x1E923int)]
}

pub open spec fn fold_chunk_371() -> Seq<(int, int)> {
    seq![(0x1E902int, 0x1E924int), (0x1E903int, 0x1E925int), (0x1E904int, 0x1E926int), (0x1E905int, 0x1E927int), (0x1E906int, 0x1E928int), (0x1E907int, 0x1E929int), (0x1E908int, 0x1E92Aint), (0x1E909int, 0x1E92Bint)]
}

pub open spec fn fold_chunk_372() -> Seq<(int, int)> {
    seq![(0x1E90Aint, 0x1E92Cint), (0x1E90Bint, 0x1E92Dint), (0x1E90Cint, 0x1E92Eint), (0x1E90Dint, 0x1E92Fint), (0x1E90Eint, 0x1E930int), (0x1E90Fint, 0x1E931int), (0x1E910int, 0x1E932int), (0x1E911int, 0x1E933int)]
}

pub open spec fn fold_chunk_373() -> Seq<(int, int)> {
    seq![(0x1E912int, 0x1E934int), (0x1E913int, 0x1E935int), (0x1E914int, 0x1E936int), (0x1E915int, 0x1E937int), (0x1E916int, 0x1E938int), (0x1E917int, 0x1E939int), (0x1E918int, 0x1E93Aint), (0x1E919int, 0x1E93Bint)]
}

pub open spec fn fold_chunk_374() -> Seq<(int, int)> {
    seq![(0x1E91Aint, 0x1E93Cint), (0x1E91Bint, 0x1E93Dint), (0x1E91Cint, 0x1E93Eint), (0x1E91Dint, 0x1E93Fint), (0x1E91Eint, 0x1E940int), (0x1E91Fint, 0x1E941int), (0x1E920int, 0x1E942int), (0x1E921int, 0x1E943int)]
}

pub open spec fn fold_chunk_375() -> Seq<(int, int)> {
    seq![(0x1E922int, 0x1E900int), (0x1E923int, 0x1E901int), (0x1E924int, 0x1E902int), (0x1E925int, 0x1E903int), (0x1E926int, 0x1E904int), (0x1E927int, 0x1E905int), (0x1E928int, 0x1E906int), (0x1E929int, 0x1E907int)]
}

pub open spec fn fold_chunk_376() -> Seq<(int, int)> {
    seq![(0x1E92Aint, 0x1E908int), (0x1E92Bint, 0x1E909int), (0x1E92Cint, 0x1E90Aint), (0x1E92Dint, 0x1E90Bint), (0x1E92Eint, 0x1E90Cint), (0x1E92Fint, 0x1E90Dint), (0x1E930int, 0x1E90Eint), (0x1E931int, 0x1E90Fint)]
}

pub open spec fn fold_chunk_377() -> Seq<(int, int)> {
    seq![(0x1E932int, 0x1E910int), (0x1E933int, 0x1E911int), (0x1E934int, 0x1E912int), (0x1E935int, 0x1E913int), (0x1E936int, 0x1E914int), (0x1E937int, 0x1E915int), (0x1E938int, 0x1E916int), (0x1E939int, 0x1E917int)]
}

pub open spec fn fold_chunk_378() -> Seq<(int, int)> {
    seq![(0x1E93Aint, 0x1E918int), (0x1E93Bint, 0x1E919int), (0x1E93Cint, 0x1E91Aint), (0x1E93Dint, 0x1E91Bint), (0x1E93Eint, 0x1E91Cint), (0x1E93Fint, 0x1E91Dint), (0x1E940int, 0x1E91Eint), (0x1E941int, 0x1E91Fint)]
}

pub open spec fn fold_chunk_379() -> Seq<(int, int)> {
    seq![(0x1E942int, 0x1E920int), (0x1E943int, 0x1E921int)]
}

pub open spec fn fold_block_0() -> Seq<(int, int)> {
    fold_chunk_0() + fold_chunk_1() + fold_chunk_2() + fold_chunk_3() + fold_chunk_4() + fold_chunk_5() + fold_chunk_6() + fold_chunk_7() + fold_chunk_8() + fold_chunk_9()
}

pub open spec fn fold_block_1() -> Seq<(int, int)> {
    fold_chunk_10() + fold_chunk_11() + fold_chunk_12() + fold_chunk_13() + fold_chunk_14() + fold_chunk_15() + fold_chunk_16() + fold_chunk_17() + fold_chunk_18() + fold_chunk_19()
}

pub open spec fn fold_block_2() -> Seq<(int, int)> {
    fold_chunk_20() + fold_chunk_21() + fold_chunk_22() + fold_chunk_23() + fold_chunk_24() + fold_chunk_25() + fold_chunk_26() + fold_chunk_27() + fold_chunk_28() + fold_chunk_29()
}

pub open spec fn fold_block_3() -> Seq<(int, int)> {
    fold_chunk_30() + fold_chunk_31() + fold_chunk_32() + fold_chunk_33() + fold_chunk_34() + fold_chunk_35() + fold_chunk_36() + fold_chunk_37() + fold_chunk_38() + fold_chunk_39()
}

pub open spec fn fold_block_4() -> Seq<(int, int)> {
    fold_chunk_40() + fold_chunk_41() + fold_chunk_42() + fold_chunk_43() + fold_chunk_44() + fold_chunk_45() + fold_chunk_46() + fold_chunk_47() + fold_chunk_48() + fold_chunk_49()
}

pub open spec fn fold_block_5() -> Seq<(int, int)> {
    fold_chunk_50() + fold_chunk_51() + fold_chunk_52() + fold_chunk_53() + fold_chunk_54() + fold_chunk_55() + fold_chunk_56() + fold_chunk_57() + fold_chunk_58() + fold_chunk_59()
}

pub open spec fn fold_block_6() -> Seq<(int, int)> {
    fold_chunk_60() + fold_chunk_61() + fold_chunk_62() + fold_chunk_63() + fold_chunk_64() + fold_chunk_65() + fold_chunk_66() + fold_chunk_67() + fold_chunk_68() + fold_chunk_69()
}

pub open spec fn fold_block_7() -> Seq<(int, int)> {
    fold_chunk_70() + fold_chunk_71() + fold_chunk_72() + fold_chunk_73() + fold_chunk_74() + fold_chunk_75() + fold_chunk_76() + fold_chunk_77() + fold_chunk_78() + fold_chunk_79()
}

pub open spec fn fold_block_8() -> Seq<(int, int)> {
    fold_chunk_80() + fold_chunk_81() + fold_chunk_82() + fold_chunk_83() + fold_chunk_84() + fold_chunk_85() + fold_chunk_86() + fold_chunk_87() + fold_chunk_88() + fold_chunk_89()
}

pub open spec fn fold_block_9() -> Seq<(int, int)> {
    fold_chunk_90() + fold_chunk_91() + fold_chunk_92() + fold_chunk_93() + fold_chunk_94() + fold_chunk_95() + fold_chunk_96() + fold_chunk_97() + fold_chunk_98() + fold_chunk_99()
}

pub open spec fn fold_block_10() -> Seq<(int, int)> {
    fold_chunk_100() + fold_chunk_101() + fold_chunk_102() + fold_chunk_103() + fold_chunk_104() + fold_chunk_105() + fold_chunk_106() + fold_chunk_107() + fold_chunk_108() + fold_chunk_109()
}

pub open spec fn fold_block_11() -> Seq<(int, int)> {
    fold_chunk_110() + fold_chunk_111() + fold_chunk_112() + fold_chunk_113() + fold_chunk_114() + fold_chunk_115() + fold_chunk_116() + fold_chunk_117() + fold_chunk_118() + fold_chunk_119()
}

pub open spec fn fold_block_12() -> Seq<(int, int)> {
    fold_chunk_120() + fold_chunk_121() + fold_chunk_122() + fold_chunk_123() + fold_chunk_124() + fold_chunk_125() + fold_chunk_126() + fold_chunk_127() + fold_chunk_128() + fold_chunk_129()
}

pub open spec fn fold_block_13() -> Seq<(int, int)> {
    fold_chunk_130() + fold_chunk_131() + fold_chunk_132() + fold_chunk_133() + fold_chunk_134() + fold_chunk_135() + fold_chunk_136() + fold_chunk_137() + fold_chunk_138() + fold_chunk_139()
}

pub open spec fn fold_block_14() -> Seq<(int, int)> {
    fold_chunk_140() + fold_chunk_141() + fold_chunk_142() + fold_chunk_143() + fold_chunk_144() + fold_chunk_145() + fold_chunk_146() + fold_chunk_147() + fold_chunk_148() + fold_chunk_149()
}

pub open spec fn fold_block_15() -> Seq<(int, int)> {
    fold_chunk_150() + fold_chunk_151() + fold_chunk_152() + fold_chunk_153() + fold_chunk_154() + fold_chunk_155() + fold_chunk_156() + fold_chunk_157() + fold_chunk_158() + fold_chunk_159()
}

pub open spec fn fold_block_16() -> Seq<(int, int)> {
    fold_chunk_160() + fold_chunk_161() + fold_chunk_162() + fold_chunk_163() + fold_chunk_164() + fold_chunk_165() + fold_chunk_166() + fold_chunk_167() + fold_chunk_168() + fold_chunk_169()
}

pub open spec fn fold_block_17() -> Seq<(int, int)> {
    fold_chunk_170() + fold_chunk_171() + fold_chunk_172() + fold_chunk_173() + fold_chunk_174() + fold_chunk_175() + fold_chunk_176() + fold_chunk_177() + fold_chunk_178() + fold_chunk_179()
}

pub open spec fn fold_block_18() -> Seq<(int, int)> {
    fold_chunk_180() + fold_chunk_181() + fold_chunk_182() + fold_chunk_183() + fold_chunk_184() + fold_chunk_185() + fold_chunk_186() + fold_chunk_187() + fold_chunk_188() + fold_chunk_189()
}

pub open spec fn fold_block_19() -> Seq<(int, int)> {
    fold_chunk_190() + fold_chunk_191() + fold_chunk_192() + fold_chunk_193() + fold_chunk_194() + fold_chunk_195() + fold_chunk_196() + fold_chunk_197() + fold_chunk_198() + fold_chunk_199()
}

pub open spec fn fold_block_20() -> Seq<(int, int)> {
    fold_chunk_200() + fold_chunk_201() + fold_chunk_202() + fold_chunk_203() + fold_chunk_204() + fold_chunk_205() + fold_chunk_206() + fold_chunk_207() + fold_chunk_208() + fold_chunk_209()
}

pub open spec fn fold_block_21() -> Seq<(int, int)> {
    fold_chunk_210() + fold_chunk_211() + fold_chunk_212() + fold_chunk_213() + fold_chunk_214() + fold_chunk_215() + fold_chunk_216() + fold_chunk_217() + fold_chunk_218() + fold_chunk_219()
}

pub open spec fn fold_block_22() -> Seq<(int, int)> {
    fold_chunk_220() + fold_chunk_221() + fold_chunk_222() + fold_chunk_223() + fold_chunk_224() + fold_chunk_225() + fold_chunk_226() + fold_chunk_227() + fold_chunk_228() + fold_chunk_229()
}

pub open spec fn fold_block_23() -> Seq<(int, int)> {
    fold_chunk_230() + fold_chunk_231() + fold_chunk_232() + fold_chunk_233() + fold_chunk_234() + fold_chunk_235() + fold_chunk_236() + fold_chunk_237() + fold_chunk_238() + fold_chunk_239()
}

pub open spec fn fold_block_24() -> Seq<(int, int)> {
    fold_chunk_240() + fold_chunk_241() + fold_chunk_242() + fold_chunk_243() + fold_chunk_244() + fold_chunk_245() + fold_chunk_246() + fold_chunk_247() + fold_chunk_248() + fold_chunk_249()
}

pub open spec fn fold_block_25() -> Seq<(int, int)> {
    fold_chunk_250() + fold_chunk_251() + fold_chunk_252() + fold_chunk_253() + fold_chunk_254() + fold_chunk_255() + fold_chunk_256() + fold_chunk_257() + fold_chunk_258() + fold_chunk_259()
}

pub open spec fn fold_block_26() -> Seq<(int, int)> {
    fold_chunk_260() + fold_chunk_261() + fold_chunk_262() + fold_chunk_263() + fold_chunk_264() + fold_chunk_265() + fold_chunk_266() + fold_chunk_267() + fold_chunk_268() + fold_chunk_269()
}

pub open spec fn fold_block_27() -> Seq<(int, int)> {
    fold_chunk_270() + fold_chunk_271() + fold_chunk_272() + fold_chunk_273() + fold_chunk_274() + fold_chunk_275() + fold_chunk_276() + fold_chunk_277() + fold_chunk_278() + fold_chunk_279()
}

pub open spec fn fold_block_28() -> Seq<(int, int)> {
    fold_chunk_280() + fold_chunk_281() + fold_chunk_282() + fold_chunk_283() + fold_chunk_284() + fold_chunk_285() + fold_chunk_286() + fold_chunk_287() + fold_chunk_288() + fold_chunk_289()
}

pub open spec fn fold_block_29() -> Seq<(int, int)> {
    fold_chunk_290() + fold_chunk_291() + fold_chunk_292() + fold_chunk_293() + fold_chunk_294() + fold_chunk_295() + fold_chunk_296() + fold_chunk_297() + fold_chunk_298() + fold_chunk_299()
}

pub open spec fn fold_block_30() -> Seq<(int, int)> {
    fold_chunk_300() + fold_chunk_301() + fold_chunk_302() + fold_chunk_303() + fold_chunk_304() + fold_chunk_305() + fold_chunk_306() + fold_chunk_307() + fold_chunk_308() + fold_chunk_309()
}

pub open spec fn fold_block_31() -> Seq<(int, int)> {
    fold_chunk_310() + fold_chunk_311() + fold_chunk_312() + fold_chunk_313() + fold_chunk_314() + fold_chunk_315() + fold_chunk_316() + fold_chunk_317() + fold_chunk_318() + fold_chunk_319()
}

pub open spec fn fold_block_32() -> Seq<(int, int)> {
    fold_chunk_320() + fold_chunk_321() + fold_chunk_322() + fold_chunk_323() + fold_chunk_324() + fold_chunk_325() + fold_chunk_326() + fold_chunk_327() + fold_chunk_328() + fold_chunk_329()
}

pub open spec fn fold_block_33() -> Seq<(int, int)> {
    fold_chunk_330() + fold_chunk_331() + fold_chunk_332() + fold_chunk_333() + fold_chunk_334() + fold_chunk_335() + fold_chunk_336() + fold_chunk_337() + fold_chunk_338() + fold_chunk_339()
}

pub open spec fn fold_block_34() -> Seq<(int, int)> {
    fold_chunk_340() + fold_chunk_341() + fold_chunk_342() + fold_chunk_343() + fold_chunk_344() + fold_chunk_345() + fold_chunk_346() + fold_chunk_347() + fold_chunk_348() + fold_chunk_349()
}

pub open spec fn fold_block_35() -> Seq<(int, int)> {
    fold_chunk_350() + fold_chunk_351() + fold_chunk_352() + fold_chunk_353() + fold_chunk_354() + fold_chunk_355() + fold_chunk_356() + fold_chunk_357() + fold_chunk_358() + fold_chunk_359()
}

pub open spec fn fold_block_36() -> Seq<(int, int)> {
    fold_chunk_360() + fold_chunk_361() + fold_chunk_362() + fold_chunk_363() + fold_chunk_364() + fold_chunk_365() + fold_chunk_366() + fold_chunk_367() + fold_chunk_368() + fold_chunk_369()
}

pub open spec fn fold_block_37() -> Seq<(int, int)> {
    fold_chunk_370() + fold_chunk_371() + fold_chunk_372() + fold_chunk_373() + fold_chunk_374() + fold_chunk_375() + fold_chunk_376() + fold_chunk_377() + fold_chunk_378() + fold_chunk_379()
}

/// The pairs of simple case folding, ordered by their first character.
#[verifier::opaque]
pub open spec fn fold_table() -> Seq<(int, int)> {
    fold_block_0() + fold_block_1() + fold_block_2() + fold_block_3() + fold_block_4() + fold_block_5() + fold_block_6() + fold_block_7() + fold_block_8() + fold_block_9() + fold_block_10() + fold_block_11() + fold_block_12() + fold_block_13() + fold_block_14() + fold_block_15() + fold_block_16() + fold_block_17() + fold_block_18() + fold_block_19() + fold_block_20() + fold_block_21() + fold_block_22() + fold_block_23() + fold_block_24() + fold_block_25() + fold_block_26() + fold_block_27() + fold_block_28() + fold_block_29() + fold_block_30() + fold_block_31() + fold_block_32() + fold_block_33() + fold_block_34() + fold_block_35() + fold_block_36() + fold_block_37()
}

/// The characters that a class gains from the pairs of `t` whose first
/// character it holds, one range each, in the order of `t`.
pub open spec fn fold_extra(rs: Seq<SRange>, t: Seq<(int, int)>) -> Seq<SRange>
    decreases t.len(),
{
    if t.len() == 0 {
        Seq::empty()
    } else {
        fold_extra(rs, t.drop_last()) + if contains(rs, t.last().0) {
            seq![(t.last().1, t.last().1)]
        } else {
            Seq::empty()
        }
    }
}

/// A class closed under simple case folding.
pub open spec fn case_fold(rs: Seq<SRange>) -> Seq<SRange> {
    insert_all(rs, fold_extra(rs, fold_table()))
}

/// Every character that a pair of `t` maps to is a scalar value.
pub open spec fn table_ok(t: Seq<(int, int)>) -> bool
    decreases t.len(),
{
    t.len() == 0 || (valid_cp(t[0].1) && table_ok(t.drop_first()))
}

proof fn lemma_table_ok_append(a: Seq<(int, int)>, b: Seq<(int, int)>)
    requires
        table_ok(a),
        table_ok(b),
    ensures
        table_ok(a + b),
    decreases a.len(),
{
    if a.len() > 0 {
        lemma_table_ok_append(a.drop_first(), b);
        assert((a + b).drop_first() =~= a.drop_first() + b);
    }
}

proof fn lemma_table_ok_index(t: Seq<(int, int)>, i: int)
    requires
        table_ok(t),
        0 <= i < t.len(),
    ensures
        valid_cp(t[i].1),
    decreases t.len(),
{
    if i > 0 {
        lemma_table_ok_index(t.drop_first(), i - 1);
    }
}

proof fn lemma_fold_block_0()
    ensures
        table_ok(fold_block_0()),
{
    reveal_with_fuel(table_ok, 9);
    assert(table_ok(fold_chunk_0()));
    assert(table_ok(fold_chunk_1()));
    assert(table_ok(fold_chunk_2()));
    assert(table_ok(fold_chunk_3()));
    assert(table_ok(fold_chunk_4()));
    assert(table_ok(fold_chunk_5()));
    assert(table_ok(fold_chunk_6()));
    assert(table_ok(fold_chunk_7()));
    assert(table_ok(fold_chunk_8()));
    assert(table_ok(fold_chunk_9()));
    lemma_table_ok_append(fold_chunk_0(), fold_chunk_1());
    lemma_table_ok_append(fold_chunk_0() + fold_chunk_1(), fold_chunk_2());
    lemma_table_ok_append(fold_chunk_0() + fold_chunk_1() + fold_chunk_2(), fold_chunk_3());
    lemma_table_ok_append(fold_chunk_0() + fold_chunk_1() + fold_chunk_2() + fold_chunk_3(), fold_chunk_4());
    lemma_table_ok_append(fold_chunk_0() + fold_chunk_1() + fold_chunk_2() + fold_chunk_3() + fold_chunk_4(), fold_chunk_5());
    lemma_table_ok_append(fold_chunk_0() + fold_chunk_1() + fold_chunk_2() + fold_chunk_3() + fold_chunk_4() + fold_chunk_5(), fold_chunk_6());
    lemma_table_ok_append(fold_chunk_0() + fold_chunk_1() + fold_chunk_2() + fold_chunk_3() + fold_chunk_4() + fold_chunk_5() + fold_chunk_6(), fold_chunk_7());
    lemma_table_ok_append(fold_chunk_0() + fold_chunk_1() + fold_chunk_2() + fold_chunk_3() + fold_chunk_4() + fold_chunk_5() + fold_chunk_6() + fold_chunk_7(), fold_chunk_8());
    lemma_table_ok_append(fold_chunk_0() + fold_chunk_1() + fold_chunk_2() + fold_chunk_3() + fold_chunk_4() + fold_chunk_5() + fold_chunk_6() + fold_chunk_7() + fold_chunk_8(), fold_chunk_9());
}

proof fn lemma_fold_block_1()
    ensures
        table_ok(fold_block_1()),
{
    reveal_with_fuel(table_ok, 9);
    assert(table_ok(fold_chunk_10()));
    assert(table_ok(fold_chunk_11()));
    assert(table_ok(fold_chunk_12()));
    assert(table_ok(fold_chunk_13()));
    assert(table_ok(fold_chunk_14()));
    assert(table_ok(fold_chunk_15()));
    assert(table_ok(fold_chunk_16()));
    assert(table_ok(fold_chunk_17()));
    assert(table_ok(fold_chunk_18()));
    assert(table_ok(fold_chunk_19()));
    lemma_table_ok_append(fold_chunk_10(), fold_chunk_11());
    lemma_table_ok_append(fold_chunk_10() + fold_chunk_11(), fold_chunk_12());
    lemma_table_ok_append(fold_chunk_10() + fold_chunk_11() + fold_chunk_12(), fold_chunk_13());
    lemma_table_ok_append(fold_chunk_10() + fold_chunk_11() + fold_chunk_12() + fold_chunk_13(), fold_chunk_14());
    lemma_table_ok_append(fold_chunk_10() + fold_chunk_11() + fold_chunk_12() + fold_chunk_13() + fold_chunk_14(), fold_chunk_15());
    lemma_table_ok_append(fold_chunk_10() + fold_chunk_11() + fold_chunk_12() + fold_chunk_13() + fold_chunk_14() + fold_chunk_15(), fold_chunk_16());
    lemma_table_ok_append(fold_chunk_10() + fold_chunk_11() + fold_chunk_12() + fold_chunk_13() + fold_chunk_14() + fold_chunk_15() + fold_chunk_16(), fold_chunk_17());
    lemma_table_ok_append(fold_chunk_10() + fold_chunk_11() + fold_chunk_12() + fold_chunk_13() + fold_chunk_14() + fold_chunk_15() + fold_chunk_16() + fold_chunk_17(), fold_chunk_18());
    lemma_table_ok_append(fold_chunk_10() + fold_chunk_11() + fold_chunk_12() + fold_chunk_13() + fold_chunk_14() + fold_chunk_15() + fold_chunk_16() + fold_chunk_17() + fold_chunk_18(), fold_chunk_19());
}

proof fn lemma_fold_block_2()
    ensures
        table_ok(fold_block_2()),
{
    reveal_with_fuel(table_ok, 9);
    assert(table_ok(fold_chunk_20()));
    assert(table_ok(fold_chunk_21()));
    assert(table_ok(fold_chunk_22()));
    assert(table_ok(fold_chunk_23()));
    assert(table_ok(fold_chunk_24()));
    assert(table_ok(fold_chunk_25()));
    assert(table_ok(fold_chunk_26()));
    assert(table_ok(fold_chunk_27()));
    assert(table_ok(fold_chunk_28()));
    assert(table_ok(fold_chunk_29()));
    lemma_table_ok_append(fold_chunk_20(), fold_chunk_21());
    lemma_table_ok_append(fold_chunk_20() + fold_chunk_21(), fold_chunk_22());
    lemma_table_ok_append(fold_chunk_20() + fold_chunk_21() + fold_chunk_22(), fold_chunk_23());
    lemma_table_ok_append(fold_chunk_20() + fold_chunk_21() + fold_chunk_22() + fold_chunk_23(), fold_chunk_24());
    lemma_table_ok_append(fold_chunk_20() + fold_chunk_21() + fold_chunk_22() + fold_chunk_23() + fold_chunk_24(), fold_chunk_25());
    lemma_table_ok_append(fold_chunk_20() + fold_chunk_21() + fold_chunk_22() + fold_chunk_23() + fold_chunk_24() + fold_chunk_25(), fold_chunk_26());
    lemma_table_ok_append(fold_chunk_20() + fold_chunk_21() + fold_chunk_22() + fold_chunk_23() + fold_chunk_24() + fold_chunk_25() + fold_chunk_26(), fold_chunk_27());
    lemma_table_ok_append(fold_chunk_20() + fold_chunk_21() + fold_chunk_22() + fold_chunk_23() + fold_chunk_24() + fold_chunk_25() + fold_chunk_26() + fold_chunk_27(), fold_chunk_28());
    lemma_table_ok_append(fold_chunk_20() + fold_chunk_21() + fold_chunk_22() + fold_chunk_23() + fold_chunk_24() + fold_chunk_25() + fold_chunk_26() + fold_chunk_27() + fold_chunk_28(), fold_chunk_29());
}

proof fn lemma_fold_block_3()
    ensures
        table_ok(fold_block_3()),
{
    reveal_with_fuel(table_ok, 9);
    assert(table_ok(fold_chunk_30()));
    assert(table_ok(fold_chunk_31()));
    assert(table_ok(fold_chunk_32()));
    assert(table_ok(fold_chunk_33()));
    assert(table_ok(fold_chunk_34()));
    assert(table_ok(fold_chunk_35()));
    assert(table_ok(fold_chunk_36()));
    assert(table_ok(fold_chunk_37()));
    assert(table_ok(fold_chunk_38()));
    assert(table_ok(fold_chunk_39()));
    lemma_table_ok_append(fold_chunk_30(), fold_chunk_31());
    lemma_table_ok_append(fold_chunk_30() + fold_chunk_31(), fold_chunk_32());
    lemma_table_ok_append(fold_chunk_30() + fold_chunk_31() + fold_chunk_32(), fold_chunk_33());
    lemma_table_ok_append(fold_chunk_30() + fold_chunk_31() + fold_chunk_32() + fold_chunk_33(), fold_chunk_34());
    lemma_table_ok_append(fold_chunk_30() + fold_chunk_31() + fold_chunk_32() + fold_chunk_33() + fold_chunk_34(), fold_chunk_35());
    lemma_table_ok_append(fold_chunk_30() + fold_chunk_31() + fold_chunk_32() + fold_chunk_33() + fold_chunk_34() + fold_chunk_35(), fold_chunk_36());
    lemma_table_ok_append(fold_chunk_30() + fold_chunk_31() + fold_chunk_32() + fold_chunk_33() + fold_chunk_34() + fold_chunk_35() + fold_chunk_36(), fold_chunk_37());
    lemma_table_ok_append(fold_chunk_30() + fold_chunk_31() + fold_chunk_32() + fold_chunk_33() + fold_chunk_34() + fold_chunk_35() + fold_chunk_36() + fold_chunk_37(), fold_chunk_38());
    lemma_table_ok_append(fold_chunk_30() + fold_chunk_31() + fold_chunk_32() + fold_chunk_33() + fold_chunk_34() + fold_chunk_35() + fold_chunk_36() + fold_chunk_37() + fold_chunk_38(), fold_chunk_39());
}

proof fn lemma_fold_block_4()
    ensures
        table_ok(fold_block_4()),
{
    reveal_with_fuel(table_ok, 9);
    assert(table_ok(fold_chunk_40()));
    assert(table_ok(fold_chunk_41()));
    assert(table_ok(fold_chunk_42()));
    assert(table_ok(fold_chunk_43()));
    assert(table_ok(fold_chunk_44()));
    assert(table_ok(fold_chunk_45()));
    assert(table_ok(fold_chunk_46()));
    assert(table_ok(fold_chunk_47()));
    assert(table_ok(fold_chunk_48()));
    assert(table_ok(fold_chunk_49()));
    lemma_table_ok_append(fold_chunk_40(), fold_chunk_41());
    lemma_table_ok_append(fold_chunk_40() + fold_chunk_41(), fold_chunk_42());
    lemma_table_ok_append(fold_chunk_40() + fold_chunk_41() + fold_chunk_42(), fold_chunk_43());
    lemma_table_ok_append(fold_chunk_40() + fold_chunk_41() + fold_chunk_42() + fold_chunk_43(), fold_chunk_44());
    lemma_table_ok_append(fold_chunk_40() + fold_chunk_41() + fold_chunk_42() + fold_chunk_43() + fold_chunk_44(), fold_chunk_45());
    lemma_table_ok_append(fold_chunk_40() + fold_chunk_41() + fold_chunk_42() + fold_chunk_43() + fold_chunk_44() + fold_chunk_45(), fold_chunk_46());
    lemma_table_ok_append(fold_chunk_40() + fold_chunk_41() + fold_chunk_42() + fold_chunk_43() + fold_chunk_44() + fold_chunk_45() + fold_chunk_46(), fold_chunk_47());
    lemma_table_ok_append(fold_chunk_40() + fold_chunk_41() + fold_chunk_42() + fold_chunk_43() + fold_chunk_44() + fold_chunk_45() + fold_chunk_46() + fold_chunk_47(), fold_chunk_48());
    lemma_table_ok_append(fold_chunk_40() + fold_chunk_41() + fold_chunk_42() + fold_chunk_43() + fold_chunk_44() + fold_chunk_45() + fold_chunk_46() + fold_chunk_47() + fold_chunk_48(), fold_chunk_49());
}

proof fn lemma_fold_block_5()
    ensures
        table_ok(fold_block_5()),
{
    reveal_with_fuel(table_ok, 9);
    assert(table_ok(fold_chunk_50()));
    assert(table_ok(fold_chunk_51()));
    assert(table_ok(fold_chunk_52()));
    assert(table_ok(fold_chunk_53()));
    assert(table_ok(fold_chunk_54()));
    assert(table_ok(fold_chunk_55()));
    assert(table_ok(fold_chunk_56()));
    assert(table_ok(fold_chunk_57()));
    assert(table_ok(fold_chunk_58()));
    assert(table_ok(fold_chunk_59()));
    lemma_table_ok_append(fold_chunk_50(), fold_chunk_51());
    lemma_table_ok_append(fold_chunk_50() + fold_chunk_51(), fold_chunk_52());
    lemma_table_ok_append(fold_chunk_50() + fold_chunk_51() + fold_chunk_52(), fold_chunk_53());
    lemma_table_ok_append(fold_chunk_50() + fold_chunk_51() + fold_chunk_52() + fold_chunk_53(), fold_chunk_54());
    lemma_table_ok_append(fold_chunk_50() + fold_chunk_51() + fold_chunk_52() + fold_chunk_53() + fold_chunk_54(), fold_chunk_55());
    lemma_table_ok_append(fold_chunk_50() + fold_chunk_51() + fold_chunk_52() + fold_chunk_53() + fold_chunk_54() + fold_chunk_55(), fold_chunk_56());
    lemma_table_ok_append(fold_chunk_50() + fold_chunk_51() + fold_chunk_52() + fold_chunk_53() + fold_chunk_54() + fold_chunk_55() + fold_chunk_56(), fold_chunk_57());
    lemma_table_ok_append(fold_chunk_50() + fold_chunk_51() + fold_chunk_52() + fold_chunk_53() + fold_chunk_54() + fold_chunk_55() + fold_chunk_56() + fold_chunk_57(), fold_chunk_58());
    lemma_table_ok_append(fold_chunk_50() + fold_chunk_51() + fold_chunk_52() + fold_chunk_53() + fold_chunk_54() + fold_chunk_55() + fold_chunk_56() + fold_chunk_57() + fold_chunk_58(), fold_chunk_59());
}

proof fn lemma_fold_block_6()
    ensures
        table_ok(fold_block_6()),
{
    reveal_with_fuel(table_ok, 9);
    assert(table_ok(fold_chunk_60()));
    assert(table_ok(fold_chunk_61()));
    assert(table_ok(fold_chunk_62()));
    assert(table_ok(fold_chunk_63()));
    assert(table_ok(fold_chunk_64()));
    assert(table_ok(fold_chunk_65()));
    assert(table_ok(fold_chunk_66()));
    assert(table_ok(fold_chunk_67()));
    assert(table_ok(fold_chunk_68()));
    assert(table_ok(fold_chunk_69()));
    lemma_table_ok_append(fold_chunk_60(), fold_chunk_61());
    lemma_table_ok_append(fold_chunk_60() + fold_chunk_61(), fold_chunk_62());
    lemma_table_ok_append(fold_chunk_60() + fold_chunk_61() + fold_chunk_62(), fold_chunk_63());
    lemma_table_ok_append(fold_chunk_60() + fold_chunk_61() + fold_chunk_62() + fold_chunk_63(), fold_chunk_64());
    lemma_table_ok_append(fold_chunk_60() + fold_chunk_61() + fold_chunk_62() + fold_chunk_63() + fold_chunk_64(), fold_chunk_65());
    lemma_table_ok_append(fold_chunk_60() + fold_chunk_61() + fold_chunk_62() + fold_chunk_63() + fold_chunk_64() + fold_chunk_65(), fold_chunk_66());
    lemma_table_ok_append(fold_chunk_60() + fold_chunk_61() + fold_chunk_62() + fold_chunk_63() + fold_chunk_64() + fold_chunk_65() + fold_chunk_66(), fold_chunk_67());
    lemma_table_ok_append(fold_chunk_60() + fold_chunk_61() + fold_chunk_62() + fold_chunk_63() + fold_chunk_64() + fold_chunk_65() + fold_chunk_66() + fold_chunk_67(), fold_chunk_68());
    lemma_table_ok_append(fold_chunk_60() + fold_chunk_61() + fold_chunk_62() + fold_chunk_63() + fold_chunk_64() + fold_chunk_65() + fold_chunk_66() + fold_chunk_67() + fold_chunk_68(), fold_chunk_69());
}

proof fn lemma_fold_block_7()
    ensures
        table_ok(fold_block_7()),
{
    reveal_with_fuel(table_ok, 9);
    assert(table_ok(fold_chunk_70()));
    assert(table_ok(fold_chunk_71()));
    assert(table_ok(fold_chunk_72()));
    assert(table_ok(fold_chunk_73()));
    assert(table_ok(fold_chunk_74()));
    assert(table_ok(fold_chunk_75()));
    assert(table_ok(fold_chunk_76()));
    assert(table_ok(fold_chunk_77()));
    assert(table_ok(fold_chunk_78()));
    assert(table_ok(fold_chunk_79()));
    lemma_table_ok_append(fold_chunk_70(), fold_chunk_71());
    lemma_table_ok_append(fold_chunk_70() + fold_chunk_71(), fold_chunk_72());
    lemma_table_ok_append(fold_chunk_70() + fold_chunk_71() + fold_chunk_72(), fold_chunk_73());
    lemma_table_ok_append(fold_chunk_70() + fold_chunk_71() + fold_chunk_72() + fold_chunk_73(), fold_chunk_74());
    lemma_table_ok_append(fold_chunk_70() + fold_chunk_71() + fold_chunk_72() + fold_chunk_73() + fold_chunk_74(), fold_chunk_75());
    lemma_table_ok_append(fold_chunk_70() + fold_chunk_71() + fold_chunk_72() + fold_chunk_73() + fold_chunk_74() + fold_chunk_75(), fold_chunk_76());
    lemma_table_ok_append(fold_chunk_70() + fold_chunk_71() + fold_chunk_72() + fold_chunk_73() + fold_chunk_74() + fold_chunk_75() + fold_chunk_76(), fold_chunk_77());
    lemma_table_ok_append(fold_chunk_70() + fold_chunk_71() + fold_chunk_72() + fold_chunk_73() + fold_chunk_74() + fold_chunk_75() + fold_chunk_76() + fold_chunk_77(), fold_chunk_78());
    lemma_table_ok_append(fold_chunk_70() + fold_chunk_71() + fold_chunk_72() + fold_chunk_73() + fold_chunk_74() + fold_chunk_75() + fold_chunk_76() + fold_chunk_77() + fold_chunk_78(), fold_chunk_79());
}

proof fn lemma_fold_block_8()
    ensures
        table_ok(fold_block_8()),
{
    reveal_with_fuel(table_ok, 9);
    assert(table_ok(fold_chunk_80()));
    assert(table_ok(fold_chunk_81()));
    assert(table_ok(fold_chunk_82()));
    assert(table_ok(fold_chunk_83()));
    assert(table_ok(fold_chunk_84()));
    assert(table_ok(fold_chunk_85()));
    assert(table_ok(fold_chunk_86()));
    assert(table_ok(fold_chunk_87()));
    assert(table_ok(fold_chunk_88()));
    assert(table_ok(fold_chunk_89()));
    lemma_table_ok_append(fold_chunk_80(), fold_chunk_81());
    lemma_table_ok_append(fold_chunk_80() + fold_chunk_81(), fold_chunk_82());
    lemma_table_ok_append(fold_chunk_80() + fold_chunk_81() + fold_chunk_82(), fold_chunk_83());
    lemma_table_ok_append(fold_chunk_80() + fold_chunk_81() + fold_chunk_82() + fold_chunk_83(), fold_chunk_84());
    lemma_table_ok_append(fold_chunk_80() + fold_chunk_81() + fold_chunk_82() + fold_chunk_83() + fold_chunk_84(), fold_chunk_85());
    lemma_table_ok_append(fold_chunk_80() + fold_chunk_81() + fold_chunk_82() + fold_chunk_83() + fold_chunk_84() + fold_chunk_85(), fold_chunk_86());
    lemma_table_ok_append(fold_chunk_80() + fold_chunk_81() + fold_chunk_82() + fold_chunk_83() + fold_chunk_84() + fold_chunk_85() + fold_chunk_86(), fold_chunk_87());
    lemma_table_ok_append(fold_chunk_80() + fold_chunk_81() + fold_chunk_82() + fold_chunk_83() + fold_chunk_84() + fold_chunk_85() + fold_chunk_86() + fold_chunk_87(), fold_chunk_88());
    lemma_table_ok_append(fold_chunk_80() + fold_chunk_81() + fold_chunk_82() + fold_chunk_83() + fold_chunk_84() + fold_chunk_85() + fold_chunk_86() + fold_chunk_87() + fold_chunk_88(), fold_chunk_89());
}

proof fn lemma_fold_block_9()
    ensures
        table_ok(fold_block_9()),
{
    reveal_with_fuel(table_ok, 9);
    assert(table_ok(fold_chunk_90()));
    assert(table_ok(fold_chunk_91()));
    assert(table_ok(fold_chunk_92()));
    assert(table_ok(fold_chunk_93()));
    assert(table_ok(fold_chunk_94()));
    assert(table_ok(fold_chunk_95()));
    assert(table_ok(fold_chunk_96()));
    assert(table_ok(fold_chunk_97()));
    assert(table_ok(fold_chunk_98()));
    assert(table_ok(fold_chunk_99()));
    lemma_table_ok_append(fold_chunk_90(), fold_chunk_91());
    lemma_table_ok_append(fold_chunk_90() + fold_chunk_91(), fold_chunk_92());
    lemma_table_ok_append(fold_chunk_90() + fold_chunk_91() + fold_chunk_92(), fold_chunk_93());
    lemma_table_ok_append(fold_chunk_90() + fold_chunk_91() + fold_chunk_92() + fold_chunk_93(), fold_chunk_94());
    lemma_table_ok_append(fold_chunk_90() + fold_chunk_91() + fold_chunk_92() + fold_chunk_93() + fold_chunk_94(), fold_chunk_95());
    lemma_table_ok_append(fold_chunk_90() + fold_chunk_91() + fold_chunk_92() + fold_chunk_93() + fold_chunk_94() + fold_chunk_95(), fold_chunk_96());
    lemma_table_ok_append(fold_chunk_90() + fold_chunk_91() + fold_chunk_92() + fold_chunk_93() + fold_chunk_94() + fold_chunk_95() + fold_chunk_96(), fold_chunk_97());
    lemma_table_ok_append(fold_chunk_90() + fold_chunk_91() + fold_chunk_92() + fold_chunk_93() + fold_chunk_94() + fold_chunk_95() + fold_chunk_96() + fold_chunk_97(), fold_chunk_98());
    lemma_table_ok_append(fold_chunk_90() + fold_chunk_91() + fold_chunk_92() + fold_chunk_93() + fold_chunk_94() + fold_chunk_95() + fold_chunk_96() + fold_chunk_97() + fold_chunk_98(), fold_chunk_99());
}

proof fn lemma_fold_block_10()
    ensures
        table_ok(fold_block_10()),
{
    reveal_with_fuel(table_ok, 9);
    assert(table_ok(fold_chunk_100()));
    assert(table_ok(fold_chunk_101()));
    assert(table_ok(fold_chunk_102()));
    assert(table_ok(fold_chunk_103()));
    assert(table_ok(fold_chunk_104()));
    assert(table_ok(fold_chunk_105()));
    assert(table_ok(fold_chunk_106()));
    assert(table_ok(fold_chunk_107()));
    assert(table_ok(fold_chunk_108()));
    assert(table_ok(fold_chunk_109()));
    lemma_table_ok_append(fold_chunk_100(), fold_chunk_101());
    lemma_table_ok_append(fold_chunk_100() + fold_chunk_101(), fold_chunk_102());
    lemma_table_ok_append(fold_chunk_100() + fold_chunk_101() + fold_chunk_102(), fold_chunk_103());
    lemma_table_ok_append(fold_chunk_100() + fold_chunk_101() + fold_chunk_102() + fold_chunk_103(), fold_chunk_104());
    lemma_table_ok_append(fold_chunk_100() + fold_chunk_101() + fold_chunk_102() + fold_chunk_103() + fold_chunk_104(), fold_chunk_105());
    lemma_table_ok_append(fold_chunk_100() + fold_chunk_101() + fold_chunk_102() + fold_chunk_103() + fold_chunk_104() + fold_chunk_105(), fold_chunk_106());
    lemma_table_ok_append(fold_chunk_100() + fold_chunk_101() + fold_chunk_102() + fold_chunk_103() + fold_chunk_104() + fold_chunk_105() + fold_chunk_106(), fold_chunk_107());
    lemma_table_ok_append(fold_chunk_100() + fold_chunk_101() + fold_chunk_102() + fold_chunk_103() + fold_chunk_104() + fold_chunk_105() + fold_chunk_106() + fold_chunk_107(), fold_chunk_108());
    lemma_table_ok_append(fold_chunk_100() + fold_chunk_101() + fold_chunk_102() + fold_chunk_103() + fold_chunk_104() + fold_chunk_105() + fold_chunk_106() + fold_chunk_107() + fold_chunk_108(), fold_chunk_109());
}

proof fn lemma_fold_block_11()
    ensures
        table_ok(fold_block_11()),
{
    reveal_with_fuel(table_ok, 9);
    assert(table_ok(fold_chunk_110()));
    assert(table_ok(fold_chunk_111()));
    assert(table_ok(fold_chunk_112()));
    assert(table_ok(fold_chunk_113()));
    assert(table_ok(fold_chunk_114()));
    assert(table_ok(fold_chunk_115()));
    assert(table_ok(fold_chunk_116()));
    assert(table_ok(fold_chunk_117()));
    assert(table_ok(fold_chunk_118()));
    assert(table_ok(fold_chunk_119()));
    lemma_table_ok_append(fold_chunk_110(), fold_chunk_111());
    lemma_table_ok_append(fold_chunk_110() + fold_chunk_111(), fold_chunk_112());
    lemma_table_ok_append(fold_chunk_110() + fold_chunk_111() + fold_chunk_112(), fold_chunk_113());
    lemma_table_ok_append(fold_chunk_110() + fold_chunk_111() + fold_chunk_112() + fold_chunk_113(), fold_chunk_114());
    lemma_table_ok_append(fold_chunk_110() + fold_chunk_111() + fold_chunk_112() + fold_chunk_113() + fold_chunk_114(), fold_chunk_115());
    lemma_table_ok_append(fold_chunk_110() + fold_chunk_111() + fold_chunk_112() + fold_chunk_113() + fold_chunk_114() + fold_chunk_115(), fold_chunk_116());
    lemma_table_ok_append(fold_chunk_110() + fold_chunk_111() + fold_chunk_112() + fold_chunk_113() + fold_chunk_114() + fold_chunk_115() + fold_chunk_116(), fold_chunk_117());
    lemma_table_ok_append(fold_chunk_110() + fold_chunk_111() + fold_chunk_112() + fold_chunk_113() + fold_chunk_114() + fold_chunk_115() + fold_chunk_116() + fold_chunk_117(), fold_chunk_118());
    lemma_table_ok_append(fold_chunk_110() + fold_chunk_111() + fold_chunk_112() + fold_chunk_113() + fold_chunk_114() + fold_chunk_115() + fold_chunk_116() + fold_chunk_117() + fold_chunk_118(), fold_chunk_119());
}

proof fn lemma_fold_block_12()
    ensures
        table_ok(fold_block_12()),
{
    reveal_with_fuel(table_ok, 9);
    assert(table_ok(fold_chunk_120()));
    assert(table_ok(fold_chunk_121()));
    assert(table_ok(fold_chunk_122()));
    assert(table_ok(fold_chunk_123()));
    assert(table_ok(fold_chunk_124()));
    assert(table_ok(fold_chunk_125()));
    assert(table_ok(fold_chunk_126()));
    assert(table_ok(fold_chunk_127()));
    assert(table_ok(fold_chunk_128()));
    assert(table_ok(fold_chunk_129()));
    lemma_table_ok_append(fold_chunk_120(), fold_chunk_121());
    lemma_table_ok_append(fold_chunk_120() + fold_chunk_121(), fold_chunk_122());
    lemma_table_ok_append(fold_chunk_120() + fold_chunk_121() + fold_chunk_122(), fold_chunk_123());
    lemma_table_ok_append(fold_chunk_120() + fold_chunk_121() + fold_chunk_122() + fold_chunk_123(), fold_chunk_124());
    lemma_table_ok_append(fold_chunk_120() + fold_chunk_121() + fold_chunk_122() + fold_chunk_123() + fold_chunk_124(), fold_chunk_125());
    lemma_table_ok_append(fold_chunk_120() + fold_chunk_121() + fold_chunk_122() + fold_chunk_123() + fold_chunk_124() + fold_chunk_125(), fold_chunk_126());
    lemma_table_ok_append(fold_chunk_120() + fold_chunk_121() + fold_chunk_122() + fold_chunk_123() + fold_chunk_124() + fold_chunk_125() + fold_chunk_126(), fold_chunk_127());
    lemma_table_ok_append(fold_chunk_120() + fold_chunk_121() + fold_chunk_122() + fold_chunk_123() + fold_chunk_124() + fold_chunk_125() + fold_chunk_126() + fold_chunk_127(), fold_chunk_128());
    lemma_table_ok_append(fold_chunk_120() + fold_chunk_121() + fold_chunk_122() + fold_chunk_123() + fold_chunk_124() + fold_chunk_125() + fold_chunk_126() + fold_chunk_127() + fold_chunk_128(), fold_chunk_129());
}

proof fn lemma_fold_block_13()
    ensures
        table_ok(fold_block_13()),
{
    reveal_with_fuel(table_ok, 9);
    assert(table_ok(fold_chunk_130()));
    assert(table_ok(fold_chunk_131()));
    assert(table_ok(fold_chunk_132()));
    assert(table_ok(fold_chunk_133()));
    assert(table_ok(fold_chunk_134()));
    assert(table_ok(fold_chunk_135()));
    assert(table_ok(fold_chunk_136()));
    assert(table_ok(fold_chunk_137()));
    assert(table_ok(fold_chunk_138()));
    assert(table_ok(fold_chunk_139()));
    lemma_table_ok_append(fold_chunk_130(), fold_chunk_131());
    lemma_table_ok_append(fold_chunk_130() + fold_chunk_131(), fold_chunk_132());
    lemma_table_ok_append(fold_chunk_130() + fold_chunk_131() + fold_chunk_132(), fold_chunk_133());
    lemma_table_ok_append(fold_chunk_130() + fold_chunk_131() + fold_chunk_132() + fold_chunk_133(), fold_chunk_134());
    lemma_table_ok_append(fold_chunk_130() + fold_chunk_131() + fold_chunk_132() + fold_chunk_133() + fold_chunk_134(), fold_chunk_135());
    lemma_table_ok_append(fold_chunk_130() + fold_chunk_131() + fold_chunk_132() + fold_chunk_133() + fold_chunk_134() + fold_chunk_135(), fold_chunk_136());
    lemma_table_ok_append(fold_chunk_130() + fold_chunk_131() + fold_chunk_132() + fold_chunk_133() + fold_chunk_134() + fold_chunk_135() + fold_chunk_136(), fold_chunk_137());
    lemma_table_ok_append(fold_chunk_130() + fold_chunk_131() + fold_chunk_132() + fold_chunk_133() + fold_chunk_134() + fold_chunk_135() + fold_chunk_136() + fold_chunk_137(), fold_chunk_138());
    lemma_table_ok_append(fold_chunk_130() + fold_chunk_131() + fold_chunk_132() + fold_chunk_133() + fold_chunk_134() + fold_chunk_135() + fold_chunk_136() + fold_chunk_137() + fold_chunk_138(), fold_chunk_139());
}

proof fn lemma_fold_block_14()
    ensures
        table_ok(fold_block_14()),
{
    reveal_with_fuel(table_ok, 9);
    assert(table_ok(fold_chunk_140()));
    assert(table_ok(fold_chunk_141()));
    assert(table_ok(fold_chunk_142()));
    assert(table_ok(fold_chunk_143()));
    assert(table_ok(fold_chunk_144()));
    assert(table_ok(fold_chunk_145()));
    assert(table_ok(fold_chunk_146()));
    assert(table_ok(fold_chunk_147()));
    assert(table_ok(fold_chunk_148()));
    assert(table_ok(fold_chunk_149()));
    lemma_table_ok_append(fold_chunk_140(), fold_chunk_141());
    lemma_table_ok_append(fold_chunk_140() + fold_chunk_141(), fold_chunk_142());
    lemma_table_ok_append(fold_chunk_140() + fold_chunk_141() + fold_chunk_142(), fold_chunk_143());
    lemma_table_ok_append(fold_chunk_140() + fold_chunk_141() + fold_chunk_142() + fold_chunk_143(), fold_chunk_144());
    lemma_table_ok_append(fold_chunk_140() + fold_chunk_141() + fold_chunk_142() + fold_chunk_143() + fold_chunk_144(), fold_chunk_145());
    lemma_table_ok_append(fold_chunk_140() + fold_chunk_141() + fold_chunk_142() + fold_chunk_143() + fold_chunk_144() + fold_chunk_145(), fold_chunk_146());
    lemma_table_ok_append(fold_chunk_140() + fold_chunk_141() + fold_chunk_142() + fold_chunk_143() + fold_chunk_144() + fold_chunk_145() + fold_chunk_146(), fold_chunk_147());
    lemma_table_ok_append(fold_chunk_140() + fold_chunk_141() + fold_chunk_142() + fold_chunk_143() + fold_chunk_144() + fold_chunk_145() + fold_chunk_146() + fold_chunk_147(), fold_chunk_148());
    lemma_table_ok_append(fold_chunk_140() + fold_chunk_141() + fold_chunk_142() + fold_chunk_143() + fold_chunk_144() + fold_chunk_145() + fold_chunk_146() + fold_chunk_147() + fold_chunk_148(), fold_chunk_149());
}

proof fn lemma_fold_block_15()
    ensures
        table_ok(fold_block_15()),
{
    reveal_with_fuel(table_ok, 9);
    assert(table_ok(fold_chunk_150()));
    assert(table_ok(fold_chunk_151()));
    assert(table_ok(fold_chunk_152()));
    assert(table_ok(fold_chunk_153()));
    assert(table_ok(fold_chunk_154()));
    assert(table_ok(fold_chunk_155()));
    assert(table_ok(fold_chunk_156()));
    assert(table_ok(fold_chunk_157()));
    assert(table_ok(fold_chunk_158()));
    assert(table_ok(fold_chunk_159()));
    lemma_table_ok_append(fold_chunk_150(), fold_chunk_151());
    lemma_table_ok_append(fold_chunk_150() + fold_chunk_151(), fold_chunk_152());
    lemma_table_ok_append(fold_chunk_150() + fold_chunk_151() + fold_chunk_152(), fold_chunk_153());
    lemma_table_ok_append(fold_chunk_150() + fold_chunk_151() + fold_chunk_152() + fold_chunk_153(), fold_chunk_154());
    lemma_table_ok_append(fold_chunk_150() + fold_chunk_151() + fold_chunk_152() + fold_chunk_153() + fold_chunk_154(), fold_chunk_155());
    lemma_table_ok_append(fold_chunk_150() + fold_chunk_151() + fold_chunk_152() + fold_chunk_153() + fold_chunk_154() + fold_chunk_155(), fold_chunk_156());
    lemma_table_ok_append(fold_chunk_150() + fold_chunk_151() + fold_chunk_152() + fold_chunk_153() + fold_chunk_154() + fold_chunk_155() + fold_chunk_156(), fold_chunk_157());
    lemma_table_ok_append(fold_chunk_150() + fold_chunk_151() + fold_chunk_152() + fold_chunk_153() + fold_chunk_154() + fold_chunk_155() + fold_chunk_156() + fold_chunk_157(), fold_chunk_158());
    lemma_table_ok_append(fold_chunk_150() + fold_chunk_151() + fold_chunk_152() + fold_chunk_153() + fold_chunk_154() + fold_chunk_155() + fold_chunk_156() + fold_chunk_157() + fold_chunk_158(), fold_chunk_159());
}

proof fn lemma_fold_block_16()
    ensures
        table_ok(fold_block_16()),
{
    reveal_with_fuel(table_ok, 9);
    assert(table_ok(fold_chunk_160()));
    assert(table_ok(fold_chunk_161()));
    assert(table_ok(fold_chunk_162()));
    assert(table_ok(fold_chunk_163()));
    assert(table_ok(fold_chunk_164()));
    assert(table_ok(fold_chunk_165()));
    assert(table_ok(fold_chunk_166()));
    assert(table_ok(fold_chunk_167()));
    assert(table_ok(fold_chunk_168()));
    assert(table_ok(fold_chunk_169()));
    lemma_table_ok_append(fold_chunk_160(), fold_chunk_161());
    lemma_table_ok_append(fold_chunk_160() + fold_chunk_161(), fold_chunk_162());
    lemma_table_ok_append(fold_chunk_160() + fold_chunk_161() + fold_chunk_162(), fold_chunk_163());
    lemma_table_ok_append(fold_chunk_160() + fold_chunk_161() + fold_chunk_162() + fold_chunk_163(), fold_chunk_164());
    lemma_table_ok_append(fold_chunk_160() + fold_chunk_161() + fold_chunk_162() + fold_chunk_163() + fold_chunk_164(), fold_chunk_165());
    lemma_table_ok_append(fold_chunk_160() + fold_chunk_161() + fold_chunk_162() + fold_chunk_163() + fold_chunk_164() + fold_chunk_165(), fold_chunk_166());
    lemma_table_ok_append(fold_chunk_160() + fold_chunk_161() + fold_chunk_162() + fold_chunk_163() + fold_chunk_164() + fold_chunk_165() + fold_chunk_166(), fold_chunk_167());
    lemma_table_ok_append(fold_chunk_160() + fold_chunk_161() + fold_chunk_162() + fold_chunk_163() + fold_chunk_164() + fold_chunk_165() + fold_chunk_166() + fold_chunk_167(), fold_chunk_168());
    lemma_table_ok_append(fold_chunk_160() + fold_chunk_161() + fold_chunk_162() + fold_chunk_163() + fold_chunk_164() + fold_chunk_165() + fold_chunk_166() + fold_chunk_167() + fold_chunk_168(), fold_chunk_169());
}

proof fn lemma_fold_block_17()
    ensures
        table_ok(fold_block_17()),
{
    reveal_with_fuel(table_ok, 9);
    assert(table_ok(fold_chunk_170()));
    assert(table_ok(fold_chunk_171()));
    assert(table_ok(fold_chunk_172()));
    assert(table_ok(fold_chunk_173()));
    assert(table_ok(fold_chunk_174()));
    assert(table_ok(fold_chunk_175()));
    assert(table_ok(fold_chunk_176()));
    assert(table_ok(fold_chunk_177()));
    assert(table_ok(fold_chunk_178()));
    assert(table_ok(fold_chunk_179()));
    lemma_table_ok_append(fold_chunk_170(), fold_chunk_171());
    lemma_table_ok_append(fold_chunk_170() + fold_chunk_171(), fold_chunk_172());
    lemma_table_ok_append(fold_chunk_170() + fold_chunk_171() + fold_chunk_172(), fold_chunk_173());
    lemma_table_ok_append(fold_chunk_170() + fold_chunk_171() + fold_chunk_172() + fold_chunk_173(), fold_chunk_174());
    lemma_table_ok_append(fold_chunk_170() + fold_chunk_171() + fold_chunk_172() + fold_chunk_173() + fold_chunk_174(), fold_chunk_175());
    lemma_table_ok_append(fold_chunk_170() + fold_chunk_171() + fold_chunk_172() + fold_chunk_173() + fold_chunk_174() + fold_chunk_175(), fold_chunk_176());
    lemma_table_ok_append(fold_chunk_170() + fold_chunk_171() + fold_chunk_172() + fold_chunk_173() + fold_chunk_174() + fold_chunk_175() + fold_chunk_176(), fold_chunk_177());
    lemma_table_ok_append(fold_chunk_170() + fold_chunk_171() + fold_chunk_172() + fold_chunk_173() + fold_chunk_174() + fold_chunk_175() + fold_chunk_176() + fold_chunk_177(), fold_chunk_178());
    lemma_table_ok_append(fold_chunk_170() + fold_chunk_171() + fold_chunk_172() + fold_chunk_173() + fold_chunk_174() + fold_chunk_175() + fold_chunk_176() + fold_chunk_177() + fold_chunk_178(), fold_chunk_179());
}

proof fn lemma_fold_block_18()
    ensures
        table_ok(fold_block_18()),
{
    reveal_with_fuel(table_ok, 9);
    assert(table_ok(fold_chunk_180()));
    assert(table_ok(fold_chunk_181()));
    assert(table_ok(fold_chunk_182()));
    assert(table_ok(fold_chunk_183()));
    assert(table_ok(fold_chunk_184()));
    assert(table_ok(fold_chunk_185()));
    assert(table_ok(fold_chunk_186()));
    assert(table_ok(fold_chunk_187()));
    assert(table_ok(fold_chunk_188()));
    assert(table_ok(fold_chunk_189()));
    lemma_table_ok_append(fold_chunk_180(), fold_chunk_181());
    lemma_table_ok_append(fold_chunk_180() + fold_chunk_181(), fold_chunk_182());
    lemma_table_ok_append(fold_chunk_180() + fold_chunk_181() + fold_chunk_182(), fold_chunk_183());
    lemma_table_ok_append(fold_chunk_180() + fold_chunk_181() + fold_chunk_182() + fold_chunk_183(), fold_chunk_184());
    lemma_table_ok_append(fold_chunk_180() + fold_chunk_181() + fold_chunk_182() + fold_chunk_183() + fold_chunk_184(), fold_chunk_185());
    lemma_table_ok_append(fold_chunk_180() + fold_chunk_181() + fold_chunk_182() + fold_chunk_183() + fold_chunk_184() + fold_chunk_185(), fold_chunk_186());
    lemma_table_ok_append(fold_chunk_180() + fold_chunk_181() + fold_chunk_182() + fold_chunk_183() + fold_chunk_184() + fold_chunk_185() + fold_chunk_186(), fold_chunk_187());
    lemma_table_ok_append(fold_chunk_180() + fold_chunk_181() + fold_chunk_182() + fold_chunk_183() + fold_chunk_184() + fold_chunk_185() + fold_chunk_186() + fold_chunk_187(), fold_chunk_188());
    lemma_table_ok_append(fold_chunk_180() + fold_chunk_181() + fold_chunk_182() + fold_chunk_183() + fold_chunk_184() + fold_chunk_185() + fold_chunk_186() + fold_chunk_187() + fold_chunk_188(), fold_chunk_189());
}

proof fn lemma_fold_block_19()
    ensures
        table_ok(fold_block_19()),
{
    reveal_with_fuel(table_ok, 9);
    assert(table_ok(fold_chunk_190()));
    assert(table_ok(fold_chunk_191()));
    assert(table_ok(fold_chunk_192()));
    assert(table_ok(fold_chunk_193()));
    assert(table_ok(fold_chunk_194()));
    assert(table_ok(fold_chunk_195()));
    assert(table_ok(fold_chunk_196()));
    assert(table_ok(fold_chunk_197()));
    assert(table_ok(fold_chunk_198()));
    assert(table_ok(fold_chunk_199()));
    lemma_table_ok_append(fold_chunk_190(), fold_chunk_191());
    lemma_table_ok_append(fold_chunk_190() + fold_chunk_191(), fold_chunk_192());
    lemma_table_ok_append(fold_chunk_190() + fold_chunk_191() + fold_chunk_192(), fold_chunk_193());
    lemma_table_ok_append(fold_chunk_190() + fold_chunk_191() + fold_chunk_192() + fold_chunk_193(), fold_chunk_194());
    lemma_table_ok_append(fold_chunk_190() + fold_chunk_191() + fold_chunk_192() + fold_chunk_193() + fold_chunk_194(), fold_chunk_195());
    lemma_table_ok_append(fold_chunk_190() + fold_chunk_191() + fold_chunk_192() + fold_chunk_193() + fold_chunk_194() + fold_chunk_195(), fold_chunk_196());
    lemma_table_ok_append(fold_chunk_190() + fold_chunk_191() + fold_chunk_192() + fold_chunk_193() + fold_chunk_194() + fold_chunk_195() + fold_chunk_196(), fold_chunk_197());
    lemma_table_ok_append(fold_chunk_190() + fold_chunk_191() + fold_chunk_192() + fold_chunk_193() + fold_chunk_194() + fold_chunk_195() + fold_chunk_196() + fold_chunk_197(), fold_chunk_198());
    lemma_table_ok_append(fold_chunk_190() + fold_chunk_191() + fold_chunk_192() + fold_chunk_193() + fold_chunk_194() + fold_chunk_195() + fold_chunk_196() + fold_chunk_197() + fold_chunk_198(), fold_chunk_199());
}

proof fn lemma_fold_block_20()
    ensures
        table_ok(fold_block_20()),
{
    reveal_with_fuel(table_ok, 9);
    assert(table_ok(fold_chunk_200()));
    assert(table_ok(fold_chunk_201()));
    assert(table_ok(fold_chunk_202()));
    assert(table_ok(fold_chunk_203()));
    assert(table_ok(fold_chunk_204()));
    assert(table_ok(fold_chunk_205()));
    assert(table_ok(fold_chunk_206()));
    assert(table_ok(fold_chunk_207()));
    assert(table_ok(fold_chunk_208()));
    assert(table_ok(fold_chunk_209()));
    lemma_table_ok_append(fold_chunk_200(), fold_chunk_201());
    lemma_table_ok_append(fold_chunk_200() + fold_chunk_201(), fold_chunk_202());
    lemma_table_ok_append(fold_chunk_200() + fold_chunk_201() + fold_chunk_202(), fold_chunk_203());
    lemma_table_ok_append(fold_chunk_200() + fold_chunk_201() + fold_chunk_202() + fold_chunk_203(), fold_chunk_204());
    lemma_table_ok_append(fold_chunk_200() + fold_chunk_201() + fold_chunk_202() + fold_chunk_203() + fold_chunk_204(), fold_chunk_205());
    lemma_table_ok_append(fold_chunk_200() + fold_chunk_201() + fold_chunk_202() + fold_chunk_203() + fold_chunk_204() + fold_chunk_205(), fold_chunk_206());
    lemma_table_ok_append(fold_chunk_200() + fold_chunk_201() + fold_chunk_202() + fold_chunk_203() + fold_chunk_204() + fold_chunk_205() + fold_chunk_206(), fold_chunk_207());
    lemma_table_ok_append(fold_chunk_200() + fold_chunk_201() + fold_chunk_202() + fold_chunk_203() + fold_chunk_204() + fold_chunk_205() + fold_chunk_206() + fold_chunk_207(), fold_chunk_208());
    lemma_table_ok_append(fold_chunk_200() + fold_chunk_201() + fold_chunk_202() + fold_chunk_203() + fold_chunk_204() + fold_chunk_205() + fold_chunk_206() + fold_chunk_207() + fold_chunk_208(), fold_chunk_209());
}

proof fn lemma_fold_block_21()
    ensures
        table_ok(fold_block_21()),
{
    reveal_with_fuel(table_ok, 9);
    assert(table_ok(fold_chunk_210()));
    assert(table_ok(fold_chunk_211()));
    assert(table_ok(fold_chunk_212()));
    assert(table_ok(fold_chunk_213()));
    assert(table_ok(fold_chunk_214()));
    assert(table_ok(fold_chunk_215()));
    assert(table_ok(fold_chunk_216()));
    assert(table_ok(fold_chunk_217()));
    assert(table_ok(fold_chunk_218()));
    assert(table_ok(fold_chunk_219()));
    lemma_table_ok_append(fold_chunk_210(), fold_chunk_211());
    lemma_table_ok_append(fold_chunk_210() + fold_chunk_211(), fold_chunk_212());
    lemma_table_ok_append(fold_chunk_210() + fold_chunk_211() + fold_chunk_212(), fold_chunk_213());
    lemma_table_ok_append(fold_chunk_210() + fold_chunk_211() + fold_chunk_212() + fold_chunk_213(), fold_chunk_214());
    lemma_table_ok_append(fold_chunk_210() + fold_chunk_211() + fold_chunk_212() + fold_chunk_213() + fold_chunk_214(), fold_chunk_215());
    lemma_table_ok_append(fold_chunk_210() + fold_chunk_211() + fold_chunk_212() + fold_chunk_213() + fold_chunk_214() + fold_chunk_215(), fold_chunk_216());
    lemma_table_ok_append(fold_chunk_210() + fold_chunk_211() + fold_chunk_212() + fold_chunk_213() + fold_chunk_214() + fold_chunk_215() + fold_chunk_216(), fold_chunk_217());
    lemma_table_ok_append(fold_chunk_210() + fold_chunk_211() + fold_chunk_212() + fold_chunk_213() + fold_chunk_214() + fold_chunk_215() + fold_chunk_216() + fold_chunk_217(), fold_chunk_218());
    lemma_table_ok_append(fold_chunk_210() + fold_chunk_211() + fold_chunk_212() + fold_chunk_213() + fold_chunk_214() + fold_chunk_215() + fold_chunk_216() + fold_chunk_217() + fold_chunk_218(), fold_chunk_219());
}

proof fn lemma_fold_block_22()
    ensures
        table_ok(fold_block_22()),
{
    reveal_with_fuel(table_ok, 9);
    assert(table_ok(fold_chunk_220()));
    assert(table_ok(fold_chunk_221()));
    assert(table_ok(fold_chunk_222()));
    assert(table_ok(fold_chunk_223()));
    assert(table_ok(fold_chunk_224()));
    assert(table_ok(fold_chunk_225()));
    assert(table_ok(fold_chunk_226()));
    assert(table_ok(fold_chunk_227()));
    assert(table_ok(fold_chunk_228()));
    assert(table_ok(fold_chunk_229()));
    lemma_table_ok_append(fold_chunk_220(), fold_chunk_221());
    lemma_table_ok_append(fold_chunk_220() + fold_chunk_221(), fold_chunk_222());
    lemma_table_ok_append(fold_chunk_220() + fold_chunk_221() + fold_chunk_222(), fold_chunk_223());
    lemma_table_ok_append(fold_chunk_220() + fold_chunk_221() + fold_chunk_222() + fold_chunk_223(), fold_chunk_224());
    lemma_table_ok_append(fold_chunk_220() + fold_chunk_221() + fold_chunk_222() + fold_chunk_223() + fold_chunk_224(), fold_chunk_225());
    lemma_table_ok_append(fold_chunk_220() + fold_chunk_221() + fold_chunk_222() + fold_chunk_223() + fold_chunk_224() + fold_chunk_225(), fold_chunk_226());
    lemma_table_ok_append(fold_chunk_220() + fold_chunk_221() + fold_chunk_222() + fold_chunk_223() + fold_chunk_224() + fold_chunk_225() + fold_chunk_226(), fold_chunk_227());
    lemma_table_ok_append(fold_chunk_220() + fold_chunk_221() + fold_chunk_222() + fold_chunk_223() + fold_chunk_224() + fold_chunk_225() + fold_chunk_226() + fold_chunk_227(), fold_chunk_228());
    lemma_table_ok_append(fold_chunk_220() + fold_chunk_221() + fold_chunk_222() + fold_chunk_223() + fold_chunk_224() + fold_chunk_225() + fold_chunk_226() + fold_chunk_227() + fold_chunk_228(), fold_chunk_229());
}

proof fn lemma_fold_block_23()
    ensures
        table_ok(fold_block_23()),
{
    reveal_with_fuel(table_ok, 9);
    assert(table_ok(fold_chunk_230()));
    assert(table_ok(fold_chunk_231()));
    assert(table_ok(fold_chunk_232()));
    assert(table_ok(fold_chunk_233()));
    assert(table_ok(fold_chunk_234()));
    assert(table_ok(fold_chunk_235()));
    assert(table_ok(fold_chunk_236()));
    assert(table_ok(fold_chunk_237()));
    assert(table_ok(fold_chunk_238()));
    assert(table_ok(fold_chunk_239()));
    lemma_table_ok_append(fold_chunk_230(), fold_chunk_231());
    lemma_table_ok_append(fold_chunk_230() + fold_chunk_231(), fold_chunk_232());
    lemma_table_ok_append(fold_chunk_230() + fold_chunk_231() + fold_chunk_232(), fold_chunk_233());
    lemma_table_ok_append(fold_chunk_230() + fold_chunk_231() + fold_chunk_232() + fold_chunk_233(), fold_chunk_234());
    lemma_table_ok_append(fold_chunk_230() + fold_chunk_231() + fold_chunk_232() + fold_chunk_233() + fold_chunk_234(), fold_chunk_235());
    lemma_table_ok_append(fold_chunk_230() + fold_chunk_231() + fold_chunk_232() + fold_chunk_233() + fold_chunk_234() + fold_chunk_235(), fold_chunk_236());
    lemma_table_ok_append(fold_chunk_230() + fold_chunk_231() + fold_chunk_232() + fold_chunk_233() + fold_chunk_234() + fold_chunk_235() + fold_chunk_236(), fold_chunk_237());
    lemma_table_ok_append(fold_chunk_230() + fold_chunk_231() + fold_chunk_232() + fold_chunk_233() + fold_chunk_234() + fold_chunk_235() + fold_chunk_236() + fold_chunk_237(), fold_chunk_238());
    lemma_table_ok_append(fold_chunk_230() + fold_chunk_231() + fold_chunk_232() + fold_chunk_233() + fold_chunk_234() + fold_chunk_235() + fold_chunk_236() + fold_chunk_237() + fold_chunk_238(), fold_chunk_239());
}

proof fn lemma_fold_block_24()
    ensures
        table_ok(fold_block_24()),
{
    reveal_with_fuel(table_ok, 9);
    assert(table_ok(fold_chunk_240()));
    assert(table_ok(fold_chunk_241()));
    assert(table_ok(fold_chunk_242()));
    assert(table_ok(fold_chunk_243()));
    assert(table_ok(fold_chunk_244()));
    assert(table_ok(fold_chunk_245()));
    assert(table_ok(fold_chunk_246()));
    assert(table_ok(fold_chunk_247()));
    assert(table_ok(fold_chunk_248()));
    assert(table_ok(fold_chunk_249()));
    lemma_table_ok_append(fold_chunk_240(), fold_chunk_241());
    lemma_table_ok_append(fold_chunk_240() + fold_chunk_241(), fold_chunk_242());
    lemma_table_ok_append(fold_chunk_240() + fold_chunk_241() + fold_chunk_242(), fold_chunk_243());
    lemma_table_ok_append(fold_chunk_240() + fold_chunk_241() + fold_chunk_242() + fold_chunk_243(), fold_chunk_244());
    lemma_table_ok_append(fold_chunk_240() + fold_chunk_241() + fold_chunk_242() + fold_chunk_243() + fold_chunk_244(), fold_chunk_245());
    lemma_table_ok_append(fold_chunk_240() + fold_chunk_241() + fold_chunk_242() + fold_chunk_243() + fold_chunk_244() + fold_chunk_245(), fold_chunk_246());
    lemma_table_ok_append(fold_chunk_240() + fold_chunk_241() + fold_chunk_242() + fold_chunk_243() + fold_chunk_244() + fold_chunk_245() + fold_chunk_246(), fold_chunk_247());
    lemma_table_ok_append(fold_chunk_240() + fold_chunk_241() + fold_chunk_242() + fold_chunk_243() + fold_chunk_244() + fold_chunk_245() + fold_chunk_246() + fold_chunk_247(), fold_chunk_248());
    lemma_table_ok_append(fold_chunk_240() + fold_chunk_241() + fold_chunk_242() + fold_chunk_243() + fold_chunk_244() + fold_chunk_245() + fold_chunk_246() + fold_chunk_247() + fold_chunk_248(), fold_chunk_249());
}

proof fn lemma_fold_block_25()
    ensures
        table_ok(fold_block_25()),
{
    reveal_with_fuel(table_ok, 9);
    assert(table_ok(fold_chunk_250()));
    assert(table_ok(fold_chunk_251()));
    assert(table_ok(fold_chunk_252()));
    assert(table_ok(fold_chunk_253()));
    assert(table_ok(fold_chunk_254()));
    assert(table_ok(fold_chunk_255()));
    assert(table_ok(fold_chunk_256()));
    assert(table_ok(fold_chunk_257()));
    assert(table_ok(fold_chunk_258()));
    assert(table_ok(fold_chunk_259()));
    lemma_table_ok_append(fold_chunk_250(), fold_chunk_251());
    lemma_table_ok_append(fold_chunk_250() + fold_chunk_251(), fold_chunk_252());
    lemma_table_ok_append(fold_chunk_250() + fold_chunk_251() + fold_chunk_252(), fold_chunk_253());
    lemma_table_ok_append(fold_chunk_250() + fold_chunk_251() + fold_chunk_252() + fold_chunk_253(), fold_chunk_254());
    lemma_table_ok_append(fold_chunk_250() + fold_chunk_251() + fold_chunk_252() + fold_chunk_253() + fold_chunk_254(), fold_chunk_255());
    lemma_table_ok_append(fold_chunk_250() + fold_chunk_251() + fold_chunk_252() + fold_chunk_253() + fold_chunk_254() + fold_chunk_255(), fold_chunk_256());
    lemma_table_ok_append(fold_chunk_250() + fold_chunk_251() + fold_chunk_252() + fold_chunk_253() + fold_chunk_254() + fold_chunk_255() + fold_chunk_256(), fold_chunk_257());
    lemma_table_ok_append(fold_chunk_250() + fold_chunk_251() + fold_chunk_252() + fold_chunk_253() + fold_chunk_254() + fold_chunk_255() + fold_chunk_256() + fold_chunk_257(), fold_chunk_258());
    lemma_table_ok_append(fold_chunk_250() + fold_chunk_251() + fold_chunk_252() + fold_chunk_253() + fold_chunk_254() + fold_chunk_255() + fold_chunk_256() + fold_chunk_257() + fold_chunk_258(), fold_chunk_259());
}

proof fn lemma_fold_block_26()
    ensures
        table_ok(fold_block_26()),
{
    reveal_with_fuel(table_ok, 9);
    assert(table_ok(fold_chunk_260()));
    assert(table_ok(fold_chunk_261()));
    assert(table_ok(fold_chunk_262()));
    assert(table_ok(fold_chunk_263()));
    assert(table_ok(fold_chunk_264()));
    assert(table_ok(fold_chunk_265()));
    assert(table_ok(fold_chunk_266()));
    assert(table_ok(fold_chunk_267()));
    assert(table_ok(fold_chunk_268()));
    assert(table_ok(fold_chunk_269()));
    lemma_table_ok_append(fold_chunk_260(), fold_chunk_261());
    lemma_table_ok_append(fold_chunk_260() + fold_chunk_261(), fold_chunk_262());
    lemma_table_ok_append(fold_chunk_260() + fold_chunk_261() + fold_chunk_262(), fold_chunk_263());
    lemma_table_ok_append(fold_chunk_260() + fold_chunk_261() + fold_chunk_262() + fold_chunk_263(), fold_chunk_264());
    lemma_table_ok_append(fold_chunk_260() + fold_chunk_261() + fold_chunk_262() + fold_chunk_263() + fold_chunk_264(), fold_chunk_265());
    lemma_table_ok_append(fold_chunk_260() + fold_chunk_261() + fold_chunk_262() + fold_chunk_263() + fold_chunk_264() + fold_chunk_265(), fold_chunk_266());
    lemma_table_ok_append(fold_chunk_260() + fold_chunk_261() + fold_chunk_262() + fold_chunk_263() + fold_chunk_264() + fold_chunk_265() + fold_chunk_266(), fold_chunk_267());
    lemma_table_ok_append(fold_chunk_260() + fold_chunk_261() + fold_chunk_262() + fold_chunk_263() + fold_chunk_264() + fold_chunk_265() + fold_chunk_266() + fold_chunk_267(), fold_chunk_268());
    lemma_table_ok_append(fold_chunk_260() + fold_chunk_261() + fold_chunk_262() + fold_chunk_263() + fold_chunk_264() + fold_chunk_265() + fold_chunk_266() + fold_chunk_267() + fold_chunk_268(), fold_chunk_269());
}

proof fn lemma_fold_block_27()
    ensures
        table_ok(fold_block_27()),
{
    reveal_with_fuel(table_ok, 9);
    assert(table_ok(fold_chunk_270()));
    assert(table_ok(fold_chunk_271()));
    assert(table_ok(fold_chunk_272()));
    assert(table_ok(fold_chunk_273()));
    assert(table_ok(fold_chunk_274()));
    assert(table_ok(fold_chunk_275()));
    assert(table_ok(fold_chunk_276()));
    assert(table_ok(fold_chunk_277()));
    assert(table_ok(fold_chunk_278()));
    assert(table_ok(fold_chunk_279()));
    lemma_table_ok_append(fold_chunk_270(), fold_chunk_271());
    lemma_table_ok_append(fold_chunk_270() + fold_chunk_271(), fold_chunk_272());
    lemma_table_ok_append(fold_chunk_270() + fold_chunk_271() + fold_chunk_272(), fold_chunk_273());
    lemma_table_ok_append(fold_chunk_270() + fold_chunk_271() + fold_chunk_272() + fold_chunk_273(), fold_chunk_274());
    lemma_table_ok_append(fold_chunk_270() + fold_chunk_271() + fold_chunk_272() + fold_chunk_273() + fold_chunk_274(), fold_chunk_275());
    lemma_table_ok_append(fold_chunk_270() + fold_chunk_271() + fold_chunk_272() + fold_chunk_273() + fold_chunk_274() + fold_chunk_275(), fold_chunk_276());
    lemma_table_ok_append(fold_chunk_270() + fold_chunk_271() + fold_chunk_272() + fold_chunk_273() + fold_chunk_274() + fold_chunk_275() + fold_chunk_276(), fold_chunk_277());
    lemma_table_ok_append(fold_chunk_270() + fold_chunk_271() + fold_chunk_272() + fold_chunk_273() + fold_chunk_274() + fold_chunk_275() + fold_chunk_276() + fold_chunk_277(), fold_chunk_278());
    lemma_table_ok_append(fold_chunk_270() + fold_chunk_271() + fold_chunk_272() + fold_chunk_273() + fold_chunk_274() + fold_chunk_275() + fold_chunk_276() + fold_chunk_277() + fold_chunk_278(), fold_chunk_279());
}

proof fn lemma_fold_block_28()
    ensures
        table_ok(fold_block_28()),
{
    reveal_with_fuel(table_ok, 9);
    assert(table_ok(fold_chunk_280()));
    assert(table_ok(fold_chunk_281()));
    assert(table_ok(fold_chunk_282()));
    assert(table_ok(fold_chunk_283()));
    assert(table_ok(fold_chunk_284()));
    assert(table_ok(fold_chunk_285()));
    assert(table_ok(fold_chunk_286()));
    assert(table_ok(fold_chunk_287()));
    assert(table_ok(fold_chunk_288()));
    assert(table_ok(fold_chunk_289()));
    lemma_table_ok_append(fold_chunk_280(), fold_chunk_281());
    lemma_table_ok_append(fold_chunk_280() + fold_chunk_281(), fold_chunk_282());
    lemma_table_ok_append(fold_chunk_280() + fold_chunk_281() + fold_chunk_282(), fold_chunk_283());
    lemma_table_ok_append(fold_chunk_280() + fold_chunk_281() + fold_chunk_282() + fold_chunk_283(), fold_chunk_284());
    lemma_table_ok_append(fold_chunk_280() + fold_chunk_281() + fold_chunk_282() + fold_chunk_283() + fold_chunk_284(), fold_chunk_285());
    lemma_table_ok_append(fold_chunk_280() + fold_chunk_281() + fold_chunk_282() + fold_chunk_283() + fold_chunk_284() + fold_chunk_285(), fold_chunk_286());
    lemma_table_ok_append(fold_chunk_280() + fold_chunk_281() + fold_chunk_282() + fold_chunk_283() + fold_chunk_284() + fold_chunk_285() + fold_chunk_286(), fold_chunk_287());
    lemma_table_ok_append(fold_chunk_280() + fold_chunk_281() + fold_chunk_282() + fold_chunk_283() + fold_chunk_284() + fold_chunk_285() + fold_chunk_286() + fold_chunk_287(), fold_chunk_288());
    lemma_table_ok_append(fold_chunk_280() + fold_chunk_281() + fold_chunk_282() + fold_chunk_283() + fold_chunk_284() + fold_chunk_285() + fold_chunk_286() + fold_chunk_287() + fold_chunk_288(), fold_chunk_289());
}

proof fn lemma_fold_block_29()
    ensures
        table_ok(fold_block_29()),
{
    reveal_with_fuel(table_ok, 9);
    assert(table_ok(fold_chunk_290()));
    assert(table_ok(fold_chunk_291()));
    assert(table_ok(fold_chunk_292()));
    assert(table_ok(fold_chunk_293()));
    assert(table_ok(fold_chunk_294()));
    assert(table_ok(fold_chunk_295()));
    assert(table_ok(fold_chunk_296()));
    assert(table_ok(fold_chunk_297()));
    assert(table_ok(fold_chunk_298()));
    assert(table_ok(fold_chunk_299()));
    lemma_table_ok_append(fold_chunk_290(), fold_chunk_291());
    lemma_table_ok_append(fold_chunk_290() + fold_chunk_291(), fold_chunk_292());
    lemma_table_ok_append(fold_chunk_290() + fold_chunk_291() + fold_chunk_292(), fold_chunk_293());
    lemma_table_ok_append(fold_chunk_290() + fold_chunk_291() + fold_chunk_292() + fold_chunk_293(), fold_chunk_294());
    lemma_table_ok_append(fold_chunk_290() + fold_chunk_291() + fold_chunk_292() + fold_chunk_293() + fold_chunk_294(), fold_chunk_295());
    lemma_table_ok_append(fold_chunk_290() + fold_chunk_291() + fold_chunk_292() + fold_chunk_293() + fold_chunk_294() + fold_chunk_295(), fold_chunk_296());
    lemma_table_ok_append(fold_chunk_290() + fold_chunk_291() + fold_chunk_292() + fold_chunk_293() + fold_chunk_294() + fold_chunk_295() + fold_chunk_296(), fold_chunk_297());
    lemma_table_ok_append(fold_chunk_290() + fold_chunk_291() + fold_chunk_292() + fold_chunk_293() + fold_chunk_294() + fold_chunk_295() + fold_chunk_296() + fold_chunk_297(), fold_chunk_298());
    lemma_table_ok_append(fold_chunk_290() + fold_chunk_291() + fold_chunk_292() + fold_chunk_293() + fold_chunk_294() + fold_chunk_295() + fold_chunk_296() + fold_chunk_297() + fold_chunk_298(), fold_chunk_299());
}

proof fn lemma_fold_block_30()
    ensures
        table_ok(fold_block_30()),
{
    reveal_with_fuel(table_ok, 9);
    assert(table_ok(fold_chunk_300()));
    assert(table_ok(fold_chunk_301()));
    assert(table_ok(fold_chunk_302()));
    assert(table_ok(fold_chunk_303()));
    assert(table_ok(fold_chunk_304()));
    assert(table_ok(fold_chunk_305()));
    assert(table_ok(fold_chunk_306()));
    assert(table_ok(fold_chunk_307()));
    assert(table_ok(fold_chunk_308()));
    assert(table_ok(fold_chunk_309()));
    lemma_table_ok_append(fold_chunk_300(), fold_chunk_301());
    lemma_table_ok_append(fold_chunk_300() + fold_chunk_301(), fold_chunk_302());
    lemma_table_ok_append(fold_chunk_300() + fold_chunk_301() + fold_chunk_302(), fold_chunk_303());
    lemma_table_ok_append(fold_chunk_300() + fold_chunk_301() + fold_chunk_302() + fold_chunk_303(), fold_chunk_304());
    lemma_table_ok_append(fold_chunk_300() + fold_chunk_301() + fold_chunk_302() + fold_chunk_303() + fold_chunk_304(), fold_chunk_305());
    lemma_table_ok_append(fold_chunk_300() + fold_chunk_301() + fold_chunk_302() + fold_chunk_303() + fold_chunk_304() + fold_chunk_305(), fold_chunk_306());
    lemma_table_ok_append(fold_chunk_300() + fold_chunk_301() + fold_chunk_302() + fold_chunk_303() + fold_chunk_304() + fold_chunk_305() + fold_chunk_306(), fold_chunk_307());
    lemma_table_ok_append(fold_chunk_300() + fold_chunk_301() + fold_chunk_302() + fold_chunk_303() + fold_chunk_304() + fold_chunk_305() + fold_chunk_306() + fold_chunk_307(), fold_chunk_308());
    lemma_table_ok_append(fold_chunk_300() + fold_chunk_301() + fold_chunk_302() + fold_chunk_303() + fold_chunk_304() + fold_chunk_305() + fold_chunk_306() + fold_chunk_307() + fold_chunk_308(), fold_chunk_309());
}

proof fn lemma_fold_block_31()
    ensures
        table_ok(fold_block_31()),
{
    reveal_with_fuel(table_ok, 9);
    assert(table_ok(fold_chunk_310()));
    assert(table_ok(fold_chunk_311()));
    assert(table_ok(fold_chunk_312()));
    assert(table_ok(fold_chunk_313()));
    assert(table_ok(fold_chunk_314()));
    assert(table_ok(fold_chunk_315()));
    assert(table_ok(fold_chunk_316()));
    assert(table_ok(fold_chunk_317()));
    assert(table_ok(fold_chunk_318()));
    assert(table_ok(fold_chunk_319()));
    lemma_table_ok_append(fold_chunk_310(), fold_chunk_311());
    lemma_table_ok_append(fold_chunk_310() + fold_chunk_311(), fold_chunk_312());
    lemma_table_ok_append(fold_chunk_310() + fold_chunk_311() + fold_chunk_312(), fold_chunk_313());
    lemma_table_ok_append(fold_chunk_310() + fold_chunk_311() + fold_chunk_312() + fold_chunk_313(), fold_chunk_314());
    lemma_table_ok_append(fold_chunk_310() + fold_chunk_311() + fold_chunk_312() + fold_chunk_313() + fold_chunk_314(), fold_chunk_315());
    lemma_table_ok_append(fold_chunk_310() + fold_chunk_311() + fold_chunk_312() + fold_chunk_313() + fold_chunk_314() + fold_chunk_315(), fold_chunk_316());
    lemma_table_ok_append(fold_chunk_310() + fold_chunk_311() + fold_chunk_312() + fold_chunk_313() + fold_chunk_314() + fold_chunk_315() + fold_chunk_316(), fold_chunk_317());
    lemma_table_ok_append(fold_chunk_310() + fold_chunk_311() + fold_chunk_312() + fold_chunk_313() + fold_chunk_314() + fold_chunk_315() + fold_chunk_316() + fold_chunk_317(), fold_chunk_318());
    lemma_table_ok_append(fold_chunk_310() + fold_chunk_311() + fold_chunk_312() + fold_chunk_313() + fold_chunk_314() + fold_chunk_315() + fold_chunk_316() + fold_chunk_317() + fold_chunk_318(), fold_chunk_319());
}

proof fn lemma_fold_block_32()
    ensures
        table_ok(fold_block_32()),
{
    reveal_with_fuel(table_ok, 9);
    assert(table_ok(fold_chunk_320()));
    assert(table_ok(fold_chunk_321()));
    assert(table_ok(fold_chunk_322()));
    assert(table_ok(fold_chunk_323()));
    assert(table_ok(fold_chunk_324()));
    assert(table_ok(fold_chunk_325()));
    assert(table_ok(fold_chunk_326()));
    assert(table_ok(fold_chunk_327()));
    assert(table_ok(fold_chunk_328()));
    assert(table_ok(fold_chunk_329()));
    lemma_table_ok_append(fold_chunk_320(), fold_chunk_321());
    lemma_table_ok_append(fold_chunk_320() + fold_chunk_321(), fold_chunk_322());
    lemma_table_ok_append(fold_chunk_320() + fold_chunk_321() + fold_chunk_322(), fold_chunk_323());
    lemma_table_ok_append(fold_chunk_320() + fold_chunk_321() + fold_chunk_322() + fold_chunk_323(), fold_chunk_324());
    lemma_table_ok_append(fold_chunk_320() + fold_chunk_321() + fold_chunk_322() + fold_chunk_323() + fold_chunk_324(), fold_chunk_325());
    lemma_table_ok_append(fold_chunk_320() + fold_chunk_321() + fold_chunk_322() + fold_chunk_323() + fold_chunk_324() + fold_chunk_325(), fold_chunk_326());
    lemma_table_ok_append(fold_chunk_320() + fold_chunk_321() + fold_chunk_322() + fold_chunk_323() + fold_chunk_324() + fold_chunk_325() + fold_chunk_326(), fold_chunk_327());
    lemma_table_ok_append(fold_chunk_320() + fold_chunk_321() + fold_chunk_322() + fold_chunk_323() + fold_chunk_324() + fold_chunk_325() + fold_chunk_326() + fold_chunk_327(), fold_chunk_328());
    lemma_table_ok_append(fold_chunk_320() + fold_chunk_321() + fold_chunk_322() + fold_chunk_323() + fold_chunk_324() + fold_chunk_325() + fold_chunk_326() + fold_chunk_327() + fold_chunk_328(), fold_chunk_329());
}

proof fn lemma_fold_block_33()
    ensures
        table_ok(fold_block_33()),
{
    reveal_with_fuel(table_ok, 9);
    assert(table_ok(fold_chunk_330()));
    assert(table_ok(fold_chunk_331()));
    assert(table_ok(fold_chunk_332()));
    assert(table_ok(fold_chunk_333()));
    assert(table_ok(fold_chunk_334()));
    assert(table_ok(fold_chunk_335()));
    assert(table_ok(fold_chunk_336()));
    assert(table_ok(fold_chunk_337()));
    assert(table_ok(fold_chunk_338()));
    assert(table_ok(fold_chunk_339()));
    lemma_table_ok_append(fold_chunk_330(), fold_chunk_331());
    lemma_table_ok_append(fold_chunk_330() + fold_chunk_331(), fold_chunk_332());
    lemma_table_ok_append(fold_chunk_330() + fold_chunk_331() + fold_chunk_332(), fold_chunk_333());
    lemma_table_ok_append(fold_chunk_330() + fold_chunk_331() + fold_chunk_332() + fold_chunk_333(), fold_chunk_334());
    lemma_table_ok_append(fold_chunk_330() + fold_chunk_331() + fold_chunk_332() + fold_chunk_333() + fold_chunk_334(), fold_chunk_335());
    lemma_table_ok_append(fold_chunk_330() + fold_chunk_331() + fold_chunk_332() + fold_chunk_333() + fold_chunk_334() + fold_chunk_335(), fold_chunk_336());
    lemma_table_ok_append(fold_chunk_330() + fold_chunk_331() + fold_chunk_332() + fold_chunk_333() + fold_chunk_334() + fold_chunk_335() + fold_chunk_336(), fold_chunk_337());
    lemma_table_ok_append(fold_chunk_330() + fold_chunk_331() + fold_chunk_332() + fold_chunk_333() + fold_chunk_334() + fold_chunk_335() + fold_chunk_336() + fold_chunk_337(), fold_chunk_338());
    lemma_table_ok_append(fold_chunk_330() + fold_chunk_331() + fold_chunk_332() + fold_chunk_333() + fold_chunk_334() + fold_chunk_335() + fold_chunk_336() + fold_chunk_337() + fold_chunk_338(), fold_chunk_339());
}

proof fn lemma_fold_block_34()
    ensures
        table_ok(fold_block_34()),
{
    reveal_with_fuel(table_ok, 9);
    assert(table_ok(fold_chunk_340()));
    assert(table_ok(fold_chunk_341()));
    assert(table_ok(fold_chunk_342()));
    assert(table_ok(fold_chunk_343()));
    assert(table_ok(fold_chunk_344()));
    assert(table_ok(fold_chunk_345()));
    assert(table_ok(fold_chunk_346()));
    assert(table_ok(fold_chunk_347()));
    assert(table_ok(fold_chunk_348()));
    assert(table_ok(fold_chunk_349()));
    lemma_table_ok_append(fold_chunk_340(), fold_chunk_341());
    lemma_table_ok_append(fold_chunk_340() + fold_chunk_341(), fold_chunk_342());
    lemma_table_ok_append(fold_chunk_340() + fold_chunk_341() + fold_chunk_342(), fold_chunk_343());
    lemma_table_ok_append(fold_chunk_340() + fold_chunk_341() + fold_chunk_342() + fold_chunk_343(), fold_chunk_344());
    lemma_table_ok_append(fold_chunk_340() + fold_chunk_341() + fold_chunk_342() + fold_chunk_343() + fold_chunk_344(), fold_chunk_345());
    lemma_table_ok_append(fold_chunk_340() + fold_chunk_341() + fold_chunk_342() + fold_chunk_343() + fold_chunk_344() + fold_chunk_345(), fold_chunk_346());
    lemma_table_ok_append(fold_chunk_340() + fold_chunk_341() + fold_chunk_342() + fold_chunk_343() + fold_chunk_344() + fold_chunk_345() + fold_chunk_346(), fold_chunk_347());
    lemma_table_ok_append(fold_chunk_340() + fold_chunk_341() + fold_chunk_342() + fold_chunk_343() + fold_chunk_344() + fold_chunk_345() + fold_chunk_346() + fold_chunk_347(), fold_chunk_348());
    lemma_table_ok_append(fold_chunk_340() + fold_chunk_341() + fold_chunk_342() + fold_chunk_343() + fold_chunk_344() + fold_chunk_345() + fold_chunk_346() + fold_chunk_347() + fold_chunk_348(), fold_chunk_349());
}

proof fn lemma_fold_block_35()
    ensures
        table_ok(fold_block_35()),
{
    reveal_with_fuel(table_ok, 9);
    assert(table_ok(fold_chunk_350()));
    assert(table_ok(fold_chunk_351()));
    assert(table_ok(fold_chunk_352()));
    assert(table_ok(fold_chunk_353()));
    assert(table_ok(fold_chunk_354()));
    assert(table_ok(fold_chunk_355()));
    assert(table_ok(fold_chunk_356()));
    assert(table_ok(fold_chunk_357()));
    assert(table_ok(fold_chunk_358()));
    assert(table_ok(fold_chunk_359()));
    lemma_table_ok_append(fold_chunk_350(), fold_chunk_351());
    lemma_table_ok_append(fold_chunk_350() + fold_chunk_351(), fold_chunk_352());
    lemma_table_ok_append(fold_chunk_350() + fold_chunk_351() + fold_chunk_352(), fold_chunk_353());
    lemma_table_ok_append(fold_chunk_350() + fold_chunk_351() + fold_chunk_352() + fold_chunk_353(), fold_chunk_354());
    lemma_table_ok_append(fold_chunk_350() + fold_chunk_351() + fold_chunk_352() + fold_chunk_353() + fold_chunk_354(), fold_chunk_355());
    lemma_table_ok_append(fold_chunk_350() + fold_chunk_351() + fold_chunk_352() + fold_chunk_353() + fold_chunk_354() + fold_chunk_355(), fold_chunk_356());
    lemma_table_ok_append(fold_chunk_350() + fold_chunk_351() + fold_chunk_352() + fold_chunk_353() + fold_chunk_354() + fold_chunk_355() + fold_chunk_356(), fold_chunk_357());
    lemma_table_ok_append(fold_chunk_350() + fold_chunk_351() + fold_chunk_352() + fold_chunk_353() + fold_chunk_354() + fold_chunk_355() + fold_chunk_356() + fold_chunk_357(), fold_chunk_358());
    lemma_table_ok_append(fold_chunk_350() + fold_chunk_351() + fold_chunk_352() + fold_chunk_353() + fold_chunk_354() + fold_chunk_355() + fold_chunk_356() + fold_chunk_357() + fold_chunk_358(), fold_chunk_359());
}

proof fn lemma_fold_block_36()
    ensures
        table_ok(fold_block_36()),
{
    reveal_with_fuel(table_ok, 9);
    assert(table_ok(fold_chunk_360()));
    assert(table_ok(fold_chunk_361()));
    assert(table_ok(fold_chunk_362()));
    assert(table_ok(fold_chunk_363()));
    assert(table_ok(fold_chunk_364()));
    assert(table_ok(fold_chunk_365()));
    assert(table_ok(fold_chunk_366()));
    assert(table_ok(fold_chunk_367()));
    assert(table_ok(fold_chunk_368()));
    assert(table_ok(fold_chunk_369()));
    lemma_table_ok_append(fold_chunk_360(), fold_chunk_361());
    lemma_table_ok_append(fold_chunk_360() + fold_chunk_361(), fold_chunk_362());
    lemma_table_ok_append(fold_chunk_360() + fold_chunk_361() + fold_chunk_362(), fold_chunk_363());
    lemma_table_ok_append(fold_chunk_360() + fold_chunk_361() + fold_chunk_362() + fold_chunk_363(), fold_chunk_364());
    lemma_table_ok_append(fold_chunk_360() + fold_chunk_361() + fold_chunk_362() + fold_chunk_363() + fold_chunk_364(), fold_chunk_365());
    lemma_table_ok_append(fold_chunk_360() + fold_chunk_361() + fold_chunk_362() + fold_chunk_363() + fold_chunk_364() + fold_chunk_365(), fold_chunk_366());
    lemma_table_ok_append(fold_chunk_360() + fold_chunk_361() + fold_chunk_362() + fold_chunk_363() + fold_chunk_364() + fold_chunk_365() + fold_chunk_366(), fold_chunk_367());
    lemma_table_ok_append(fold_chunk_360() + fold_chunk_361() + fold_chunk_362() + fold_chunk_363() + fold_chunk_364() + fold_chunk_365() + fold_chunk_366() + fold_chunk_367(), fold_chunk_368());
    lemma_table_ok_append(fold_chunk_360() + fold_chunk_361() + fold_chunk_362() + fold_chunk_363() + fold_chunk_364() + fold_chunk_365() + fold_chunk_366() + fold_chunk_367() + fold_chunk_368(), fold_chunk_369());
}

proof fn lemma_fold_block_37()
    ensures
        table_ok(fold_block_37()),
{
    reveal_with_fuel(table_ok, 9);
    assert(table_ok(fold_chunk_370()));
    assert(table_ok(fold_chunk_371()));
    assert(table_ok(fold_chunk_372()));
    assert(table_ok(fold_chunk_373()));
    assert(table_ok(fold_chunk_374()));
    assert(table_ok(fold_chunk_375()));
    assert(table_ok(fold_chunk_376()));
    assert(table_ok(fold_chunk_377()));
    assert(table_ok(fold_chunk_378()));
    assert(table_ok(fold_chunk_379()));
    lemma_table_ok_append(fold_chunk_370(), fold_chunk_371());
    lemma_table_ok_append(fold_chunk_370() + fold_chunk_371(), fold_chunk_372());
    lemma_table_ok_append(fold_chunk_370() + fold_chunk_371() + fold_chunk_372(), fold_chunk_373());
    lemma_table_ok_append(fold_chunk_370() + fold_chunk_371() + fold_chunk_372() + fold_chunk_373(), fold_chunk_374());
    lemma_table_ok_append(fold_chunk_370() + fold_chunk_371() + fold_chunk_372() + fold_chunk_373() + fold_chunk_374(), fold_chunk_375());
    lemma_table_ok_append(fold_chunk_370() + fold_chunk_371() + fold_chunk_372() + fold_chunk_373() + fold_chunk_374() + fold_chunk_375(), fold_chunk_376());
    lemma_table_ok_append(fold_chunk_370() + fold_chunk_371() + fold_chunk_372() + fold_chunk_373() + fold_chunk_374() + fold_chunk_375() + fold_chunk_376(), fold_chunk_377());
    lemma_table_ok_append(fold_chunk_370() + fold_chunk_371() + fold_chunk_372() + fold_chunk_373() + fold_chunk_374() + fold_chunk_375() + fold_chunk_376() + fold_chunk_377(), fold_chunk_378());
    lemma_table_ok_append(fold_chunk_370() + fold_chunk_371() + fold_chunk_372() + fold_chunk_373() + fold_chunk_374() + fold_chunk_375() + fold_chunk_376() + fold_chunk_377() + fold_chunk_378(), fold_chunk_379());
}

/// Every character of the folding table is a scalar value.
pub proof fn lemma_fold_table_ok()
    ensures
        table_ok(fold_table()),
{
    reveal(fold_table);
    lemma_fold_block_0();
    lemma_fold_block_1();
    lemma_fold_block_2();
    lemma_fold_block_3();
    lemma_fold_block_4();
    lemma_fold_block_5();
    lemma_fold_block_6();
    lemma_fold_block_7();
    lemma_fold_block_8();
    lemma_fold_block_9();
    lemma_fold_block_10();
    lemma_fold_block_11();
    lemma_fold_block_12();
    lemma_fold_block_13();
    lemma_fold_block_14();
    lemma_fold_block_15();
    lemma_fold_block_16();
    lemma_fold_block_17();
    lemma_fold_block_18();
    lemma_fold_block_19();
    lemma_fold_block_20();
    lemma_fold_block_21();
    lemma_fold_block_22();
    lemma_fold_block_23();
    lemma_fold_block_24();
    lemma_fold_block_25();
    lemma_fold_block_26();
    lemma_fold_block_27();
    lemma_fold_block_28();
    lemma_fold_block_29();
    lemma_fold_block_30();
    lemma_fold_block_31();
    lemma_fold_block_32();
    lemma_fold_block_33();
    lemma_fold_block_34();
    lemma_fold_block_35();
    lemma_fold_block_36();
    lemma_fold_block_37();
    lemma_table_ok_append(fold_block_0(), fold_block_1());
    lemma_table_ok_append(fold_block_0() + fold_block_1(), fold_block_2());
    lemma_table_ok_append(fold_block_0() + fold_block_1() + fold_block_2(), fold_block_3());
    lemma_table_ok_append(fold_block_0() + fold_block_1() + fold_block_2() + fold_block_3(), fold_block_4());
    lemma_table_ok_append(fold_block_0() + fold_block_1() + fold_block_2() + fold_block_3() + fold_block_4(), fold_block_5());
    lemma_table_ok_append(fold_block_0() + fold_block_1() + fold_block_2() + fold_block_3() + fold_block_4() + fold_block_5(), fold_block_6());
    lemma_table_ok_append(fold_block_0() + fold_block_1() + fold_block_2() + fold_block_3() + fold_block_4() + fold_block_5() + fold_block_6(), fold_block_7());
    lemma_table_ok_append(fold_block_0() + fold_block_1() + fold_block_2() + fold_block_3() + fold_block_4() + fold_block_5() + fold_block_6() + fold_block_7(), fold_block_8());
    lemma_table_ok_append(fold_block_0() + fold_block_1() + fold_block_2() + fold_block_3() + fold_block_4() + fold_block_5() + fold_block_6() + fold_block_7() + fold_block_8(), fold_block_9());
    lemma_table_ok_append(fold_block_0() + fold_block_1() + fold_block_2() + fold_block_3() + fold_block_4() + fold_block_5() + fold_block_6() + fold_block_7() + fold_block_8() + fold_block_9(), fold_block_10());
    lemma_table_ok_append(fold_block_0() + fold_block_1() + fold_block_2() + fold_block_3() + fold_block_4() + fold_block_5() + fold_block_6() + fold_block_7() + fold_block_8() + fold_block_9() + fold_block_10(), fold_block_11());
    lemma_table_ok_append(fold_block_0() + fold_block_1() + fold_block_2() + fold_block_3() + fold_block_4() + fold_block_5() + fold_block_6() + fold_block_7() + fold_block_8() + fold_block_9() + fold_block_10() + fold_block_11(), fold_block_12());
    lemma_table_ok_append(fold_block_0() + fold_block_1() + fold_block_2() + fold_block_3() + fold_block_4() + fold_block_5() + fold_block_6() + fold_block_7() + fold_block_8() + fold_block_9() + fold_block_10() + fold_block_11() + fold_block_12(), fold_block_13());
    lemma_table_ok_append(fold_block_0() + fold_block_1() + fold_block_2() + fold_block_3() + fold_block_4() + fold_block_5() + fold_block_6() + fold_block_7() + fold_block_8() + fold_block_9() + fold_block_10() + fold_block_11() + fold_block_12() + fold_block_13(), fold_block_14());
    lemma_table_ok_append(fold_block_0() + fold_block_1() + fold_block_2() + fold_block_3() + fold_block_4() + fold_block_5() + fold_block_6() + fold_block_7() + fold_block_8() + fold_block_9() + fold_block_10() + fold_block_11() + fold_block_12() + fold_block_13() + fold_block_14(), fold_block_15());
    lemma_table_ok_append(fold_block_0() + fold_block_1() + fold_block_2() + fold_block_3() + fold_block_4() + fold_block_5() + fold_block_6() + fold_block_7() + fold_block_8() + fold_block_9() + fold_block_10() + fold_block_11() + fold_block_12() + fold_block_13() + fold_block_14() + fold_block_15(), fold_block_16());
    lemma_table_ok_append(fold_block_0() + fold_block_1() + fold_block_2() + fold_block_3() + fold_block_4() + fold_block_5() + fold_block_6() + fold_block_7() + fold_block_8() + fold_block_9() + fold_block_10() + fold_block_11() + fold_block_12() + fold_block_13() + fold_block_14() + fold_block_15() + fold_block_16(), fold_block_17());
    lemma_table_ok_append(fold_block_0() + fold_block_1() + fold_block_2() + fold_block_3() + fold_block_4() + fold_block_5() + fold_block_6() + fold_block_7() + fold_block_8() + fold_block_9() + fold_block_10() + fold_block_11() + fold_block_12() + fold_block_13() + fold_block_14() + fold_block_15() + fold_block_16() + fold_block_17(), fold_block_18());
    lemma_table_ok_append(fold_block_0() + fold_block_1() + fold_block_2() + fold_block_3() + fold_block_4() + fold_block_5() + fold_block_6() + fold_block_7() + fold_block_8() + fold_block_9() + fold_block_10() + fold_block_11() + fold_block_12() + fold_block_13() + fold_block_14() + fold_block_15() + fold_block_16() + fold_block_17() + fold_block_18(), fold_block_19());
    lemma_table_ok_append(fold_block_0() + fold_block_1() + fold_block_2() + fold_block_3() + fold_block_4() + fold_block_5() + fold_block_6() + fold_block_7() + fold_block_8() + fold_block_9() + fold_block_10() + fold_block_11() + fold_block_12() + fold_block_13() + fold_block_14() + fold_block_15() + fold_block_16() + fold_block_17() + fold_block_18() + fold_block_19(), fold_block_20());
    lemma_table_ok_append(fold_block_0() + fold_block_1() + fold_block_2() + fold_block_3() + fold_block_4() + fold_block_5() + fold_block_6() + fold_block_7() + fold_block_8() + fold_block_9() + fold_block_10() + fold_block_11() + fold_block_12() + fold_block_13() + fold_block_14() + fold_block_15() + fold_block_16() + fold_block_17() + fold_block_18() + fold_block_19() + fold_block_20(), fold_block_21());
    lemma_table_ok_append(fold_block_0() + fold_block_1() + fold_block_2() + fold_block_3() + fold_block_4() + fold_block_5() + fold_block_6() + fold_block_7() + fold_block_8() + fold_block_9() + fold_block_10() + fold_block_11() + fold_block_12() + fold_block_13() + fold_block_14() + fold_block_15() + fold_block_16() + fold_block_17() + fold_block_18() + fold_block_19() + fold_block_20() + fold_block_21(), fold_block_22());
    lemma_table_ok_append(fold_block_0() + fold_block_1() + fold_block_2() + fold_block_3() + fold_block_4() + fold_block_5() + fold_block_6() + fold_block_7() + fold_block_8() + fold_block_9() + fold_block_10() + fold_block_11() + fold_block_12() + fold_block_13() + fold_block_14() + fold_block_15() + fold_block_16() + fold_block_17() + fold_block_18() + fold_block_19() + fold_block_20() + fold_block_21() + fold_block_22(), fold_block_23());
    lemma_table_ok_append(fold_block_0() + fold_block_1() + fold_block_2() + fold_block_3() + fold_block_4() + fold_block_5() + fold_block_6() + fold_block_7() + fold_block_8() + fold_block_9() + fold_block_10() + fold_block_11() + fold_block_12() + fold_block_13() + fold_block_14() + fold_block_15() + fold_block_16() + fold_block_17() + fold_block_18() + fold_block_19() + fold_block_20() + fold_block_21() + fold_block_22() + fold_block_23(), fold_block_24());
    lemma_table_ok_append(fold_block_0() + fold_block_1() + fold_block_2() + fold_block_3() + fold_block_4() + fold_block_5() + fold_block_6() + fold_block_7() + fold_block_8() + fold_block_9() + fold_block_10() + fold_block_11() + fold_block_12() + fold_block_13() + fold_block_14() + fold_block_15() + fold_block_16() + fold_block_17() + fold_block_18() + fold_block_19() + fold_block_20() + fold_block_21() + fold_block_22() + fold_block_23() + fold_block_24(), fold_block_25());
    lemma_table_ok_append(fold_block_0() + fold_block_1() + fold_block_2() + fold_block_3() + fold_block_4() + fold_block_5() + fold_block_6() + fold_block_7() + fold_block_8() + fold_block_9() + fold_block_10() + fold_block_11() + fold_block_12() + fold_block_13() + fold_block_14() + fold_block_15() + fold_block_16() + fold_block_17() + fold_block_18() + fold_block_19() + fold_block_20() + fold_block_21() + fold_block_22() + fold_block_23() + fold_block_24() + fold_block_25(), fold_block_26());
    lemma_table_ok_append(fold_block_0() + fold_block_1() + fold_block_2() + fold_block_3() + fold_block_4() + fold_block_5() + fold_block_6() + fold_block_7() + fold_block_8() + fold_block_9() + fold_block_10() + fold_block_11() + fold_block_12() + fold_block_13() + fold_block_14() + fold_block_15() + fold_block_16() + fold_block_17() + fold_block_18() + fold_block_19() + fold_block_20() + fold_block_21() + fold_block_22() + fold_block_23() + fold_block_24() + fold_block_25() + fold_block_26(), fold_block_27());
    lemma_table_ok_append(fold_block_0() + fold_block_1() + fold_block_2() + fold_block_3() + fold_block_4() + fold_block_5() + fold_block_6() + fold_block_7() + fold_block_8() + fold_block_9() + fold_block_10() + fold_block_11() + fold_block_12() + fold_block_13() + fold_block_14() + fold_block_15() + fold_block_16() + fold_block_17() + fold_block_18() + fold_block_19() + fold_block_20() + fold_block_21() + fold_block_22() + fold_block_23() + fold_block_24() + fold_block_25() + fold_block_26() + fold_block_27(), fold_block_28());
    lemma_table_ok_append(fold_block_0() + fold_block_1() + fold_block_2() + fold_block_3() + fold_block_4() + fold_block_5() + fold_block_6() + fold_block_7() + fold_block_8() + fold_block_9() + fold_block_10() + fold_block_11() + fold_block_12() + fold_block_13() + fold_block_14() + fold_block_15() + fold_block_16() + fold_block_17() + fold_block_18() + fold_block_19() + fold_block_20() + fold_block_21() + fold_block_22() + fold_block_23() + fold_block_24() + fold_block_25() + fold_block_26() + fold_block_27() + fold_block_28(), fold_block_29());
    lemma_table_ok_append(fold_block_0() + fold_block_1() + fold_block_2() + fold_block_3() + fold_block_4() + fold_block_5() + fold_block_6() + fold_block_7() + fold_block_8() + fold_block_9() + fold_block_10() + fold_block_11() + fold_block_12() + fold_block_13() + fold_block_14() + fold_block_15() + fold_block_16() + fold_block_17() + fold_block_18() + fold_block_19() + fold_block_20() + fold_block_21() + fold_block_22() + fold_block_23() + fold_block_24() + fold_block_25() + fold_block_26() + fold_block_27() + fold_block_28() + fold_block_29(), fold_block_30());
    lemma_table_ok_append(fold_block_0() + fold_block_1() + fold_block_2() + fold_block_3() + fold_block_4() + fold_block_5() + fold_block_6() + fold_block_7() + fold_block_8() + fold_block_9() + fold_block_10() + fold_block_11() + fold_block_12() + fold_block_13() + fold_block_14() + fold_block_15() + fold_block_16() + fold_block_17() + fold_block_18() + fold_block_19() + fold_block_20() + fold_block_21() + fold_block_22() + fold_block_23() + fold_block_24() + fold_block_25() + fold_block_26() + fold_block_27() + fold_block_28() + fold_block_29() + fold_block_30(), fold_block_31());
    lemma_table_ok_append(fold_block_0() + fold_block_1() + fold_block_2() + fold_block_3() + fold_block_4() + fold_block_5() + fold_block_6() + fold_block_7() + fold_block_8() + fold_block_9() + fold_block_10() + fold_block_11() + fold_block_12() + fold_block_13() + fold_block_14() + fold_block_15() + fold_block_16() + fold_block_17() + fold_block_18() + fold_block_19() + fold_block_20() + fold_block_21() + fold_block_22() + fold_block_23() + fold_block_24() + fold_block_25() + fold_block_26() + fold_block_27() + fold_block_28() + fold_block_29() + fold_block_30() + fold_block_31(), fold_block_32());
    lemma_table_ok_append(fold_block_0() + fold_block_1() + fold_block_2() + fold_block_3() + fold_block_4() + fold_block_5() + fold_block_6() + fold_block_7() + fold_block_8() + fold_block_9() + fold_block_10() + fold_block_11() + fold_block_12() + fold_block_13() + fold_block_14() + fold_block_15() + fold_block_16() + fold_block_17() + fold_block_18() + fold_block_19() + fold_block_20() + fold_block_21() + fold_block_22() + fold_block_23() + fold_block_24() + fold_block_25() + fold_block_26() + fold_block_27() + fold_block_28() + fold_block_29() + fold_block_30() + fold_block_31() + fold_block_32(), fold_block_33());
    lemma_table_ok_append(fold_block_0() + fold_block_1() + fold_block_2() + fold_block_3() + fold_block_4() + fold_block_5() + fold_block_6() + fold_block_7() + fold_block_8() + fold_block_9() + fold_block_10() + fold_block_11() + fold_block_12() + fold_block_13() + fold_block_14() + fold_block_15() + fold_block_16() + fold_block_17() + fold_block_18() + fold_block_19() + fold_block_20() + fold_block_21() + fold_block_22() + fold_block_23() + fold_block_24() + fold_block_25() + fold_block_26() + fold_block_27() + fold_block_28() + fold_block_29() + fold_block_30() + fold_block_31() + fold_block_32() + fold_block_33(), fold_block_34());
    lemma_table_ok_append(fold_block_0() + fold_block_1() + fold_block_2() + fold_block_3() + fold_block_4() + fold_block_5() + fold_block_6() + fold_block_7() + fold_block_8() + fold_block_9() + fold_block_10() + fold_block_11() + fold_block_12() + fold_block_13() + fold_block_14() + fold_block_15() + fold_block_16() + fold_block_17() + fold_block_18() + fold_block_19() + fold_block_20() + fold_block_21() + fold_block_22() + fold_block_23() + fold_block_24() + fold_block_25() + fold_block_26() + fold_block_27() + fold_block_28() + fold_block_29() + fold_block_30() + fold_block_31() + fold_block_32() + fold_block_33() + fold_block_34(), fold_block_35());
    lemma_table_ok_append(fold_block_0() + fold_block_1() + fold_block_2() + fold_block_3() + fold_block_4() + fold_block_5() + fold_block_6() + fold_block_7() + fold_block_8() + fold_block_9() + fold_block_10() + fold_block_11() + fold_block_12() + fold_block_13() + fold_block_14() + fold_block_15() + fold_block_16() + fold_block_17() + fold_block_18() + fold_block_19() + fold_block_20() + fold_block_21() + fold_block_22() + fold_block_23() + fold_block_24() + fold_block_25() + fold_block_26() + fold_block_27() + fold_block_28() + fold_block_29() + fold_block_30() + fold_block_31() + fold_block_32() + fold_block_33() + fold_block_34() + fold_block_35(), fold_block_36());
    lemma_table_ok_append(fold_block_0() + fold_block_1() + fold_block_2() + fold_block_3() + fold_block_4() + fold_block_5() + fold_block_6() + fold_block_7() + fold_block_8() + fold_block_9() + fold_block_10() + fold_block_11() + fold_block_12() + fold_block_13() + fold_block_14() + fold_block_15() + fold_block_16() + fold_block_17() + fold_block_18() + fold_block_19() + fold_block_20() + fold_block_21() + fold_block_22() + fold_block_23() + fold_block_24() + fold_block_25() + fold_block_26() + fold_block_27() + fold_block_28() + fold_block_29() + fold_block_30() + fold_block_31() + fold_block_32() + fold_block_33() + fold_block_34() + fold_block_35() + fold_block_36(), fold_block_37());
}

proof fn lemma_fold_extra_ok(rs: Seq<SRange>, t: Seq<(int, int)>)
    requires
        table_ok(t),
    ensures
        all_ok(fold_extra(rs, t)),
    decreases t.len(),
{
    if t.len() > 0 {
        lemma_table_ok_index(t, t.len() - 1);
        assert forall|i: int| 0 <= i < t.len() - 1 implies valid_cp(#[trigger] t.drop_last()[i].1) by {
            lemma_table_ok_index(t, i);
        }
        lemma_table_ok_prefix(t.drop_last());
        lemma_fold_extra_ok(rs, t.drop_last());
        crate::ranges::lemma_single((t.last().1, t.last().1));
        crate::ranges::lemma_all_ok_concat(
            fold_extra(rs, t.drop_last()),
            if contains(rs, t.last().0) {
                seq![(t.last().1, t.last().1)]
            } else {
                Seq::empty()
            },
        );
    }
}

proof fn lemma_table_ok_prefix(t: Seq<(int, int)>)
    requires
        forall|i: int| 0 <= i < t.len() ==> valid_cp(#[trigger] t[i].1),
    ensures
        table_ok(t),
    decreases t.len(),
{
    if t.len() > 0 {
        assert(valid_cp(t[0].1));
        assert forall|i: int| 0 <= i < t.drop_first().len() implies valid_cp(
            #[trigger] t.drop_first()[i].1,
        ) by {
            assert(t.drop_first()[i] == t[i + 1]);
        }
        lemma_table_ok_prefix(t.drop_first());
    }
}

/// What folding adds holds valid ranges.
pub proof fn lemma_case_fold_extra_ok(rs: Seq<SRange>)
    ensures
        all_ok(fold_extra(rs, fold_table())),
{
    lemma_fold_table_ok();
    lemma_fold_extra_ok(rs, fold_table());
}

/// Folding keeps the ranges of a class valid.
pub proof fn lemma_case_fold_ok(rs: Seq<SRange>)
    requires
        all_ok(rs),
    ensures
        all_ok(case_fold(rs)),
{
    lemma_case_fold_extra_ok(rs);
    crate::ranges::lemma_insert_all_ok(rs, fold_extra(rs, fold_table()));
}

/// Folding keeps a class canonical.
pub proof fn lemma_case_fold_canonical(rs: Seq<SRange>)
    requires
        canonical(rs),
    ensures
        canonical(case_fold(rs)),
{
    lemma_case_fold_extra_ok(rs);
    crate::ranges::lemma_insert_all_canonical(rs, fold_extra(rs, fold_table()));
}

proof fn lemma_fold_extra_contains(rs: Seq<SRange>, t: Seq<(int, int)>, c: int)
    ensures
        contains(fold_extra(rs, t), c) <==> exists|i: int|
            0 <= i < t.len() && #[trigger] t[i].1 == c && contains(rs, t[i].0),
    decreases t.len(),
{
    if t.len() > 0 {
        let last = t.last();
        let tail: Seq<SRange> = if contains(rs, last.0) {
            seq![(last.1, last.1)]
        } else {
            Seq::empty()
        };
        lemma_fold_extra_contains(rs, t.drop_last(), c);
        crate::ranges::lemma_contains_concat(fold_extra(rs, t.drop_last()), tail, c);
        crate::ranges::lemma_single((last.1, last.1));
        if contains(fold_extra(rs, t), c) {
            if contains(fold_extra(rs, t.drop_last()), c) {
                let i = choose|i: int|
                    0 <= i < t.drop_last().len() && #[trigger] t.drop_last()[i].1 == c && contains(
                        rs,
                        t.drop_last()[i].0,
                    );
                assert(t[i] == t.drop_last()[i]);
            } else {
                assert(t[t.len() - 1].1 == c);
            }
        }
        if exists|i: int| 0 <= i < t.len() && #[trigger] t[i].1 == c && contains(rs, t[i].0) {
            let i = choose|i: int| 0 <= i < t.len() && #[trigger] t[i].1 == c && contains(rs, t[i].0);
            if i < t.len() - 1 {
                assert(t.drop_last()[i] == t[i]);
            }
        }
    }
}

/// Folding keeps a class canonical, and the folded class holds a scalar value
/// exactly when the class holds it or holds a character that simple case
/// folding pairs with it.
pub proof fn law_case_fold(rs: Seq<SRange>)
    requires
        canonical(rs),
    ensures
        canonical(case_fold(rs)),
        forall|c: int|
            valid_cp(c) ==> (#[trigger] contains(case_fold(rs), c) <==> (contains(rs, c) || exists|i: int|
                0 <= i < fold_table().len() && #[trigger] fold_table()[i].1 == c && contains(
                    rs,
                    fold_table()[i].0,
                ))),
{
    lemma_case_fold_canonical(rs);
    lemma_case_fold_extra_ok(rs);
    crate::ranges::lemma_canonical_all_ok(rs);
    assert forall|c: int| valid_cp(c) implies (#[trigger] contains(case_fold(rs), c) <==> (contains(
        rs,
        c,
    ) || exists|i: int|
        0 <= i < fold_table().len() && #[trigger] fold_table()[i].1 == c && contains(
            rs,
            fold_table()[i].0,
        ))) by {
        crate::ranges::lemma_insert_all_contains(rs, fold_extra(rs, fold_table()), c);
        lemma_fold_extra_contains(rs, fold_table(), c);
    }
}

fn push_pair(v: &mut Vec<FoldPair>, a: char, b: char)
    ensures
        pview(final(v)@) == pview(old(v)@).push((a as int, b as int)),
{
    let p = FoldPair { key: a, to: b };
    proof {
        assert(pview(v@.push(p)) =~= pview(v@).push(p@));
    }
    v.push(p);
}

fn push_fold_chunk_0(v: &mut Vec<FoldPair>)
    ensures
        pview(final(v)@) == pview(old(v)@) + fold_chunk_0(),
{
    let ghost o = pview(v@);
    push_pair(v, '\u{41}', '\u{61}');
    push_pair(v, '\u{42}', '\u{62}');
    push_pair(v, '\u{43}', '\u{63}');
    push_pair(v, '\u{44}', '\u{64}');
    push_pair(v, '\u{45}', '\u{65}');
    push_pair(v, '\u{46}', '\u{66}');
    push_pair(v, '\u{47}', '\u{67}');
    push_pair(v, '\u{48}', '\u{68}');
    assert(pview(v@) =~= o + fold_chunk_0());
}

fn push_fold_chunk_1(v: &mut Vec<FoldPair>)
    ensures
        pview(final(v)@) == pview(old(v)@) + fold_chunk_1(),
{
    let ghost o = pview(v@);
    push_pair(v, '\u{49}', '\u{69}');
    push_pair(v, '\u{4A}', '\u{6A}');
    push_pair(v, '\u{4B}', '\u{6B}');
    push_pair(v, '\u{4B}', '\u{212A}');
    push_pair(v, '\u{4C}', '\u{6C}');
    push_pair(v, '\u{4D}', '\u{6D}');
    push_pair(v, '\u{4E}', '\u{6E}');
    push_pair(v, '\u{4F}', '\u{6F}');
    assert(pview(v@) =~= o + fold_chunk_1());
}

fn push_fold_chunk_2(v: &mut Vec<FoldPair>)
    ensures
        pview(final(v)@) == pview(old(v)@) + fold_chunk_2(),
{
    let ghost o = pview(v@);
    push_pair(v, '\u{50}', '\u{70}');
    push_pair(v, '\u{51}', '\u{71}');
    push_pair(v, '\u{52}', '\u{72}');
    push_pair(v, '\u{53}', '\u{73}');
    push_pair(v, '\u{53}', '\u{17F}');
    push_pair(v, '\u{54}', '\u{74}');
    push_pair(v, '\u{55}', '\u{75}');
    push_pair(v, '\u{56}', '\u{76}');
    assert(pview(v@) =~= o + fold_chunk_2());
}

fn push_fold_chunk_3(v: &mut Vec<FoldPair>)
    ensures
        pview(final(v)@) == pview(old(v)@) + fold_chunk_3(),
{
    let ghost o = pview(v@);
    push_pair(v, '\u{57}', '\u{77}');
    push_pair(v, '\u{58}', '\u{78}');
    push_pair(v, '\u{59}', '\u{79}');
    push_pair(v, '\u{5A}', '\u{7A}');
    push_pair(v, '\u{61}', '\u{41}');
    push_pair(v, '\u{62}', '\u{42}');
    push_pair(v, '\u{63}', '\u{43}');
    push_pair(v, '\u{64}', '\u{44}');
    assert(pview(v@) =~= o + fold_chunk_3());
}

fn push_fold_chunk_4(v: &mut Vec<FoldPair>)
    ensures
        pview(final(v)@) == pview(old(v)@) + fold_chunk_4(),
{
    let ghost o = pview(v@);
    push_pair(v, '\u{65}', '\u{45}');
    push_pair(v, '\u{66}', '\u{46}');
    push_pair(v, '\u{67}', '\u{47}');
    push_pair(v, '\u{68}', '\u{48}');
    push_pair(v, '\u{69}', '\u{49}');
    push_pair(v, '\u{6A}', '\u{4A}');
    push_pair(v, '\u{6B}', '\u{4B}');
    push_pair(v, '\u{6B}', '\u{212A}');
    assert(pview(v@) =~= o + fold_chunk_4());
}

fn push_fold_chunk_5(v: &mut Vec<FoldPair>)
    ensures
        pview(final(v)@) == pview(old(v)@) + fold_chunk_5(),
{
    let ghost o = pview(v@);
    push_pair(v, '\u{6C}', '\u{4C}');
    push_pair(v, '\u{6D}', '\u{4D}');
    push_pair(v, '\u{6E}', '\u{4E}');
    push_pair(v, '\u{6F}', '\u{4F}');
    push_pair(v, '\u{70}', '\u{50}');
    push_pair(v, '\u{71}', '\u{51}');
    push_pair(v, '\u{72}', '\u{52}');
    push_pair(v, '\u{73}', '\u{53}');
    assert(pview(v@) =~= o + fold_chunk_5());
}

fn push_fold_chunk_6(v: &mut Vec<FoldPair>)
    ensures
        pview(final(v)@) == pview(old(v)@) + fold_chunk_6(),
{
    let ghost o = pview(v@);
    push_pair(v, '\u{73}', '\u{17F}');
    push_pair(v, '\u{74}', '\u{54}');
    push_pair(v, '\u{75}', '\u{55}');
    push_pair(v, '\u{76}', '\u{56}');
    push_pair(v, '\u{77}', '\u{57}');
    push_pair(v, '\u{78}', '\u{58}');
    push_pair(v, '\u{79}', '\u{59}');
    push_pair(v, '\u{7A}', '\u{5A}');
    assert(pview(v@) =~= o + fold_chunk_6());
}

fn push_fold_chunk_7(v: &mut Vec<FoldPair>)
    ensures
        pview(final(v)@) == pview(old(v)@) + fold_chunk_7(),
{
    let ghost o = pview(v@);
    push_pair(v, '\u{B5}', '\u{39C}');
    push_pair(v, '\u{B5}', '\u{3BC}');
    push_pair(v, '\u{C0}', '\u{E0}');
    push_pair(v, '\u{C1}', '\u{E1}');
    push_pair(v, '\u{C2}', '\u{E2}');
    push_pair(v, '\u{C3}', '\u{E3}');
    push_pair(v, '\u{C4}', '\u{E4}');
    push_pair(v, '\u{C5}', '\u{E5}');
    assert(pview(v@) =~= o + fold_chunk_7());
}

fn push_fold_chunk_8(v: &mut Vec<FoldPair>)
    ensures
        pview(final(v)@) == pview(old(v)@) + fold_chunk_8(),
{
    let ghost o = pview(v@);
    push_pair(v, '\u{C5}', '\u{212B}');
    push_pair(v, '\u{C6}', '\u{E6}');
    push_pair(v, '\u{C7}', '\u{E7}');
    push_pair(v, '\u{C8}', '\u{E8}');
    push_pair(v, '\u{C9}', '\u{E9}');
    push_pair(v, '\u{CA}', '\u{EA}');
    push_pair(v, '\u{CB}', '\u{EB}');
    push_pair(v, '\u{CC}', '\u{EC}');
    assert(pview(v@) =~= o + fold_chunk_8());
}

fn push_fold_chunk_9(v: &mut Vec<FoldPair>)
    ensures
        pview(final(v)@) == pview(old(v)@) + fold_chunk_9(),
{
    let ghost o = pview(v@);
    push_pair(v, '\u{CD}', '\u{ED}');
    push_pair(v, '\u{CE}', '\u{EE}');
    push_pair(v, '\u{CF}', '\u{EF}');
    push_pair(v, '\u{D0}', '\u{F0}');
    push_pair(v, '\u{D1}', '\u{F1}');
    push_pair(v, '\u{D2}', '\u{F2}');
    push_pair(v, '\u{D3}', '\u{F3}');
    push_pair(v, '\u{D4}', '\u{F4}');
    assert(pview(v@) =~= o + fold_chunk_9());
}

fn push_fold_chunk_10(v: &mut Vec<FoldPair>)
    ensures
        pview(final(v)@) == pview(old(v)@) + fold_chunk_10(),
{
    let ghost o = pview(v@);
    push_pair(v, '\u{D5}', '\u{F5}');
    push_pair(v, '\u{D6}', '\u{F6}');
    push_pair(v, '\u{D8}', '\u{F8}');
    push_pair(v, '\u{D9}', '\u{F9}');
    push_pair(v, '\u{DA}', '\u{FA}');
    push_pair(v, '\u{DB}', '\u{FB}');
    push_pair(v, '\u{DC}', '\u{FC}');
    push_pair(v, '\u{DD}', '\u{FD}');
    assert(pview(v@) =~= o + fold_chunk_10());
}

fn push_fold_chunk_11(v: &mut Vec<FoldPair>)
    ensures
        pview(final(v)@) == pview(old(v)@) + fold_chunk_11(),
{
    let ghost o = pview(v@);
    push_pair(v, '\u{DE}', '\u{FE}');
    push_pair(v, '\u{DF}', '\u{1E9E}');
    push_pair(v, '\u{E0}', '\u{C0}');
    push_pair(v, '\u{E1}', '\u{C1}');
    push_pair(v, '\u{E2}', '\u{C2}');
    push_pair(v, '\u{E3}', '\u{C3}');
    push_pair(v, '\u{E4}', '\u{C4}');
    push_pair(v, '\u{E5}', '\u{C5}');
    assert(pview(v@) =~= o + fold_chunk_11());
}

fn push_fold_chunk_12(v: &mut Vec<FoldPair>)
    ensures
        pview(final(v)@) == pview(old(v)@) + fold_chunk_12(),
{
    let ghost o = pview(v@);
    push_pair(v, '\u{E5}', '\u{212B}');
    push_pair(v, '\u{E6}', '\u{C6}');
    push_pair(v, '\u{E7}', '\u{C7}');
    push_pair(v, '\u{E8}', '\u{C8}');
    push_pair(v, '\u{E9}', '\u{C9}');
    push_pair(v, '\u{EA}', '\u{CA}');
    push_pair(v, '\u{EB}', '\u{CB}');
    push_pair(v, '\u{EC}', '\u{CC}');
    assert(pview(v@) =~= o + fold_chunk_12());
}

fn push_fold_chunk_13(v: &mut Vec<FoldPair>)
    ensures
        pview(final(v)@) == pview(old(v)@) + fold_chunk_13(),
{
    let ghost o = pview(v@);
    push_pair(v, '\u{ED}', '\u{CD}');
    push_pair(v, '\u{EE}', '\u{CE}');
    push_pair(v, '\u{EF}', '\u{CF}');
    push_pair(v, '\u{F0}', '\u{D0}');
    push_pair(v, '\u{F1}', '\u{D1}');
    push_pair(v, '\u{F2}', '\u{D2}');
    push_pair(v, '\u{F3}', '\u{D3}');
    push_pair(v, '\u{F4}', '\u{D4}');
    assert(pview(v@) =~= o + fold_chunk_13());
}

fn push_fold_chunk_14(v: &mut Vec<FoldPair>)
    ensures
        pview(final(v)@) == pview(old(v)@) + fold_chunk_14(),
{
    let ghost o = pview(v@);
    push_pair(v, '\u{F5}', '\u{D5}');
    push_pair(v, '\u{F6}', '\u{D6}');
    push_pair(v, '\u{F8}', '\u{D8}');
    push_pair(v, '\u{F9}', '\u{D9}');
    push_pair(v, '\u{FA}', '\u{DA}');
    push_pair(v, '\u{FB}', '\u{DB}');
    push_pair(v, '\u{FC}', '\u{DC}');
    push_pair(v, '\u{FD}', '\u{DD}');
    assert(pview(v@) =~= o + fold_chunk_14());
}

fn push_fold_chunk_15(v: &mut Vec<FoldPair>)
    ensures
        pview(final(v)@) == pview(old(v)@) + fold_chunk_15(),
{
    let ghost o = pview(v@);
    push_pair(v, '\u{FE}', '\u{DE}');
    push_pair(v, '\u{FF}', '\u{178}');
    push_pair(v, '\u{100}', '\u{101}');
    push_pair(v, '\u{101}', '\u{100}');
    push_pair(v, '\u{102}', '\u{103}');
    push_pair(v, '\u{103}', '\u{102}');
    push_pair(v, '\u{104}', '\u{105}');
    push_pair(v, '\u{105}', '\u{104}');
    assert(pview(v@) =~= o + fold_chunk_15());
}

fn push_fold_chunk_16(v: &mut Vec<FoldPair>)
    ensures
        pview(final(v)@) == pview(old(v)@) + fold_chunk_16(),
{
    let ghost o = pview(v@);
    push_pair(v, '\u{106}', '\u{107}');
    push_pair(v, '\u{107}', '\u{106}');
    push_pair(v, '\u{108}', '\u{109}');
    push_pair(v, '\u{109}', '\u{108}');
    push_pair(v, '\u{10A}', '\u{10B}');
    push_pair(v, '\u{10B}', '\u{10A}');
    push_pair(v, '\u{10C}', '\u{10D}');
    push_pair(v, '\u{10D}', '\u{10C}');
    assert(pview(v@) =~= o + fold_chunk_16());
}

fn push_fold_chunk_17(v: &mut Vec<FoldPair>)
    ensures
        pview(final(v)@) == pview(old(v)@) + fold_chunk_17(),
{
    let ghost o = pview(v@);
    push_pair(v, '\u{10E}', '\u{10F}');
    push_pair(v, '\u{10F}', '\u{10E}');
    push_pair(v, '\u{110}', '\u{111}');
    push_pair(v, '\u{111}', '\u{110}');
    push_pair(v, '\u{112}', '\u{113}');
    push_pair(v, '\u{113}', '\u{112}');
    push_pair(v, '\u{114}', '\u{115}');
    push_pair(v, '\u{115}', '\u{114}');
    assert(pview(v@) =~= o + fold_chunk_17());
}

fn push_fold_chunk_18(v: &mut Vec<FoldPair>)
    ensures
        pview(final(v)@) == pview(old(v)@) + fold_chunk_18(),
{
    let ghost o = pview(v@);
    push_pair(v, '\u{116}', '\u{117}');
    push_pair(v, '\u{117}', '\u{116}');
    push_pair(v, '\u{118}', '\u{119}');
    push_pair(v, '\u{119}', '\u{118}');
    push_pair(v, '\u{11A}', '\u{11B}');
    push_pair(v, '\u{11B}', '\u{11A}');
    push_pair(v, '\u{11C}', '\u{11D}');
    push_pair(v, '\u{11D}', '\u{11C}');
    assert(pview(v@) =~= o + fold_chunk_18());
}

fn push_fold_chunk_19(v: &mut Vec<FoldPair>)
    ensures
        pview(final(v)@) == pview(old(v)@) + fold_chunk_19(),
{
    let ghost o = pview(v@);
    push_pair(v, '\u{11E}', '\u{11F}');
    push_pair(v, '\u{11F}', '\u{11E}');
    push_pair(v, '\u{120}', '\u{121}');
    push_pair(v, '\u{121}', '\u{120}');
    push_pair(v, '\u{122}', '\u{123}');
    push_pair(v, '\u{123}', '\u{122}');
    push_pair(v, '\u{124}', '\u{125}');
    push_pair(v, '\u{125}', '\u{124}');
    assert(pview(v@) =~= o + fold_chunk_19());
}

fn push_fold_chunk_20(v: &mut Vec<FoldPair>)
    ensures
        pview(final(v)@) == pview(old(v)@) + fold_chunk_20(),
{
    let ghost o = pview(v@);
    push_pair(v, '\u{126}', '\u{127}');
    push_pair(v, '\u{127}', '\u{126}');
    push_pair(v, '\u{128}', '\u{129}');
    push_pair(v, '\u{129}', '\u{128}');
    push_pair(v, '\u{12A}', '\u{12B}');
    push_pair(v, '\u{12B}', '\u{12A}');
    push_pair(v, '\u{12C}', '\u{12D}');
    push_pair(v, '\u{12D}', '\u{12C}');
    assert(pview(v@) =~= o + fold_chunk_20());
}

fn push_fold_chunk_21(v: &mut Vec<FoldPair>)
    ensures
        pview(final(v)@) == pview(old(v)@) + fold_chunk_21(),
{
    let ghost o = pview(v@);
    push_pair(v, '\u{12E}', '\u{12F}');
    push_pair(v, '\u{12F}', '\u{12E}');
    push_pair(v, '\u{132}', '\u{133}');
    push_pair(v, '\u{133}', '\u{132}');
    push_pair(v, '\u{134}', '\u{135}');
    push_pair(v, '\u{135}', '\u{134}');
    push_pair(v, '\u{136}', '\u{137}');
    push_pair(v, '\u{137}', '\u{136}');
    assert(pview(v@) =~= o + fold_chunk_21());
}

fn push_fold_chunk_22(v: &mut Vec<FoldPair>)
    ensures
        pview(final(v)@) == pview(old(v)@) + fold_chunk_22(),
{
    let ghost o = pview(v@);
    push_pair(v, '\u{139}', '\u{13A}');
    push_pair(v, '\u{13A}', '\u{139}');
    push_pair(v, '\u{13B}', '\u{13C}');
    push_pair(v, '\u{13C}', '\u{13B}');
    push_pair(v, '\u{13D}', '\u{13E}');
    push_pair(v, '\u{13E}', '\u{13D}');
    push_pair(v, '\u{13F}', '\u{140}');
    push_pair(v, '\u{140}', '\u{13F}');
    assert(pview(v@) =~= o + fold_chunk_22());
}

fn push_fold_chunk_23(v: &mut Vec<FoldPair>)
    ensures
        pview(final(v)@) == pview(old(v)@) + fold_chunk_23(),
{
    let ghost o = pview(v@);
    push_pair(v, '\u{141}', '\u{142}');
    push_pair(v, '\u{142}', '\u{141}');
    push_pair(v, '\u{143}', '\u{144}');
    push_pair(v, '\u{144}', '\u{143}');
    push_pair(v, '\u{145}', '\u{146}');
    push_pair(v, '\u{146}', '\u{145}');
    push_pair(v, '\u{147}', '\u{148}');
    push_pair(v, '\u{148}', '\u{147}');
    assert(pview(v@) =~= o + fold_chunk_23());
}

fn push_fold_chunk_24(v: &mut Vec<FoldPair>)
    ensures
        pview(final(v)@) == pview(old(v)@) + fold_chunk_24(),
{
    let ghost o = pview(v@);
    push_pair(v, '\u{14A}', '\u{14B}');
    push_pair(v, '\u{14B}', '\u{14A}');
    push_pair(v, '\u{14C}', '\u{14D}');
    push_pair(v, '\u{14D}', '\u{14C}');
    push_pair(v, '\u{14E}', '\u{14F}');
    push_pair(v, '\u{14F}', '\u{14E}');
    push_pair(v, '\u{150}', '\u{151}');
    push_pair(v, '\u{151}', '\u{150}');
    assert(pview(v@) =~= o + fold_chunk_24());
}

fn push_fold_chunk_25(v: &mut Vec<FoldPair>)
    ensures
        pview(final(v)@) == pview(old(v)@) + fold_chunk_25(),
{
    let ghost o = pview(v@);
    push_pair(v, '\u{152}', '\u{153}');
    push_pair(v, '\u{153}', '\u{152}');
    push_pair(v, '\u{154}', '\u{155}');
    push_pair(v, '\u{155}', '\u{154}');
    push_pair(v, '\u{156}', '\u{157}');
    push_pair(v, '\u{157}', '\u{156}');
    push_pair(v, '\u{158}', '\u{159}');
    push_pair(v, '\u{159}', '\u{158}');
    assert(pview(v@) =~= o + fold_chunk_25());
}

fn push_fold_chunk_26(v: &mut Vec<FoldPair>)
    ensures
        pview(final(v)@) == pview(old(v)@) + fold_chunk_26(),
{
    let ghost o = pview(v@);
    push_pair(v, '\u{15A}', '\u{15B}');
    push_pair(v, '\u{15B}', '\u{15A}');
    push_pair(v, '\u{15C}', '\u{15D}');
    push_pair(v, '\u{15D}', '\u{15C}');
    push_pair(v, '\u{15E}', '\u{15F}');
    push_pair(v, '\u{15F}', '\u{15E}');
    push_pair(v, '\u{160}', '\u{161}');
    push_pair(v, '\u{161}', '\u{160}');
    assert(pview(v@) =~= o + fold_chunk_26());
}

fn push_fold_chunk_27(v: &mut Vec<FoldPair>)
    ensures
        pview(final(v)@) == pview(old(v)@) + fold_chunk_27(),
{
    let ghost o = pview(v@);
    push_pair(v, '\u{162}', '\u{163}');
    push_pair(v, '\u{163}', '\u{162}');
    push_pair(v, '\u{164}', '\u{165}');
    push_pair(v, '\u{165}', '\u{164}');
    push_pair(v, '\u{166}', '\u{167}');
    push_pair(v, '\u{167}', '\u{166}');
    push_pair(v, '\u{168}', '\u{169}');
    push_pair(v, '\u{169}', '\u{168}');
    assert(pview(v@) =~= o + fold_chunk_27());
}

fn push_fold_chunk_28(v: &mut Vec<FoldPair>)
    ensures
        pview(final(v)@) == pview(old(v)@) + fold_chunk_28(),
{
    let ghost o = pview(v@);
    push_pair(v, '\u{16A}', '\u{16B}');
    push_pair(v, '\u{16B}', '\u{16A}');
    push_pair(v, '\u{16C}', '\u{16D}');
    push_pair(v, '\u{16D}', '\u{16C}');
    push_pair(v, '\u{16E}', '\u{16F}');
    push_pair(v, '\u{16F}', '\u{16E}');
    push_pair(v, '\u{170}', '\u{171}');
    push_pair(v, '\u{171}', '\u{170}');
    assert(pview(v@) =~= o + fold_chunk_28());
}

fn push_fold_chunk_29(v: &mut Vec<FoldPair>)
    ensures
        pview(final(v)@) == pview(old(v)@) + fold_chunk_29(),
{
    let ghost o = pview(v@);
    push_pair(v, '\u{172}', '\u{173}');
    push_pair(v, '\u{173}', '\u{172}');
    push_pair(v, '\u{174}', '\u{175}');
    push_pair(v, '\u{175}', '\u{174}');
    push_pair(v, '\u{176}', '\u{177}');
    push_pair(v, '\u{177}', '\u{176}');
    push_pair(v, '\u{178}', '\u{FF}');
    push_pair(v, '\u{179}', '\u{17A}');
    assert(pview(v@) =~= o + fold_chunk_29());
}

fn push_fold_chunk_30(v: &mut Vec<FoldPair>)
    ensures
        pview(final(v)@) == pview(old(v)@) + fold_chunk_30(),
{
    let ghost o = pview(v@);
    push_pair(v, '\u{17A}', '\u{179}');
    push_pair(v, '\u{17B}', '\u{17C}');
    push_pair(v, '\u{17C}', '\u{17B}');
    push_pair(v, '\u{17D}', '\u{17E}');
    push_pair(v, '\u{17E}', '\u{17D}');
    push_pair(v, '\u{17F}', '\u{53}');
    push_pair(v, '\u{17F}', '\u{73}');
    push_pair(v, '\u{180}', '\u{243}');
    assert(pview(v@) =~= o + fold_chunk_30());
}

fn push_fold_chunk_31(v: &mut Vec<FoldPair>)
    ensures
        pview(final(v)@) == pview(old(v)@) + fold_chunk_31(),
{
    let ghost o = pview(v@);
    push_pair(v, '\u{181}', '\u{253}');
    push_pair(v, '\u{182}', '\u{183}');
    push_pair(v, '\u{183}', '\u{182}');
    push_pair(v, '\u{184}', '\u{185}');
    push_pair(v, '\u{185}', '\u{184}');
    push_pair(v, '\u{186}', '\u{254}');
    push_pair(v, '\u{187}', '\u{188}');
    push_pair(v, '\u{188}', '\u{187}');
    assert(pview(v@) =~= o + fold_chunk_31());
}

fn push_fold_chunk_32(v: &mut Vec<FoldPair>)
    ensures
        pview(final(v)@) == pview(old(v)@) + fold_chunk_32(),
{
    let ghost o = pview(v@);
    push_pair(v, '\u{189}', '\u{256}');
    push_pair(v, '\u{18A}', '\u{257}');
    push_pair(v, '\u{18B}', '\u{18C}');
    push_pair(v, '\u{18C}', '\u{18B}');
    push_pair(v, '\u{18E}', '\u{1DD}');
    push_pair(v, '\u{18F}', '\u{259}');
    push_pair(v, '\u{190}', '\u{25B}');
    push_pair(v, '\u{191}', '\u{192}');
    assert(pview(v@) =~= o + fold_chunk_32());
}

fn push_fold_chunk_33(v: &mut Vec<FoldPair>)
    ensures
        pview(final(v)@) == pview(old(v)@) + fold_chunk_33(),
{
    let ghost o = pview(v@);
    push_pair(v, '\u{192}', '\u{191}');
    push_pair(v, '\u{193}', '\u{260}');
    push_pair(v, '\u{194}', '\u{263}');
    push_pair(v, '\u{195}', '\u{1F6}');
    push_pair(v, '\u{196}', '\u{269}');
    push_pair(v, '\u{197}', '\u{268}');
    push_pair(v, '\u{198}', '\u{199}');
    push_pair(v, '\u{199}', '\u{198}');
    assert(pview(v@) =~= o + fold_chunk_33());
}

fn push_fold_chunk_34(v: &mut Vec<FoldPair>)
    ensures
        pview(final(v)@) == pview(old(v)@) + fold_chunk_34(),
{
    let ghost o = pview(v@);
    push_pair(v, '\u{19A}', '\u{23D}');
    push_pair(v, '\u{19B}', '\u{A7DC}');
    push_pair(v, '\u{19C}', '\u{26F}');
    push_pair(v, '\u{19D}', '\u{272}');
    push_pair(v, '\u{19E}', '\u{220}');
    push_pair(v, '\u{19F}', '\u{275}');
    push_pair(v, '\u{1A0}', '\u{1A1}');
    push_pair(v, '\u{1A1}', '\u{1A0}');
    assert(pview(v@) =~= o + fold_chunk_34());
}

fn push_fold_chunk_35(v: &mut Vec<FoldPair>)
    ensures
        pview(final(v)@) == pview(old(v)@) + fold_chunk_35(),
{
    let ghost o = pview(v@);
    push_pair(v, '\u{1A2}', '\u{1A3}');
    push_pair(v, '\u{1A3}', '\u{1A2}');
    push_pair(v, '\u{1A4}', '\u{1A5}');
    push_pair(v, '\u{1A5}', '\u{1A4}');
    push_pair(v, '\u{1A6}', '\u{280}');
    push_pair(v, '\u{1A7}', '\u{1A8}');
    push_pair(v, '\u{1A8}', '\u{1A7}');
    push_pair(v, '\u{1A9}', '\u{283}');
    assert(pview(v@) =~= o + fold_chunk_35());
}

fn push_fold_chunk_36(v: &mut Vec<FoldPair>)
    ensures
        pview(final(v)@) == pview(old(v)@) + fold_chunk_36(),
{
    let ghost o = pview(v@);
    push_pair(v, '\u{1AC}', '\u{1AD}');
    push_pair(v, '\u{1AD}', '\u{1AC}');
    push_pair(v, '\u{1AE}', '\u{288}');
    push_pair(v, '\u{1AF}', '\u{1B0}');
    push_pair(v, '\u{1B0}', '\u{1AF}');
    push_pair(v, '\u{1B1}', '\u{28A}');
    push_pair(v, '\u{1B2}', '\u{28B}');
    push_pair(v, '\u{1B3}', '\u{1B4}');
    assert(pview(v@) =~= o + fold_chunk_36());
}

fn push_fold_chunk_37(v: &mut Vec<FoldPair>)
    ensures
        pview(final(v)@) == pview(old(v)@) + fold_chunk_37(),
{
    let ghost o = pview(v@);
    push_pair(v, '\u{1B4}', '\u{1B3}');
    push_pair(v, '\u{1B5}', '\u{1B6}');
    push_pair(v, '\u{1B6}', '\u{1B5}');
    push_pair(v, '\u{1B7}', '\u{292}');
    push_pair(v, '\u{1B8}', '\u{1B9}');
    push_pair(v, '\u{1B9}', '\u{1B8}');
    push_pair(v, '\u{1BC}', '\u{1BD}');
    push_pair(v, '\u{1BD}', '\u{1BC}');
    assert(pview(v@) =~= o + fold_chunk_37());
}

fn push_fold_chunk_38(v: &mut Vec<FoldPair>)
    ensures
        pview(final(v)@) == pview(old(v)@) + fold_chunk_38(),
{
    let ghost o = pview(v@);
    push_pair(v, '\u{1BF}', '\u{1F7}');
    push_pair(v, '\u{1C4}', '\u{1C5}');
    push_pair(v, '\u{1C4}', '\u{1C6}');
    push_pair(v, '\u{1C5}', '\u{1C4}');
    push_pair(v, '\u{1C5}', '\u{1C6}');
    push_pair(v, '\u{1C6}', '\u{1C4}');
    push_pair(v, '\u{1C6}', '\u{1C5}');
    push_pair(v, '\u{1C7}', '\u{1C8}');
    assert(pview(v@) =~= o + fold_chunk_38());
}

fn push_fold_chunk_39(v: &mut Vec<FoldPair>)
    ensures
        pview(final(v)@) == pview(old(v)@) + fold_chunk_39(),
{
    let ghost o = pview(v@);
    push_pair(v, '\u{1C7}', '\u{1C9}');
    push_pair(v, '\u{1C8}', '\u{1C7}');
    push_pair(v, '\u{1C8}', '\u{1C9}');
    push_pair(v, '\u{1C9}', '\u{1C7}');
    push_pair(v, '\u{1C9}', '\u{1C8}');
    push_pair(v, '\u{1CA}', '\u{1CB}');
    push_pair(v, '\u{1CA}', '\u{1CC}');
    push_pair(v, '\u{1CB}', '\u{1CA}');
    assert(pview(v@) =~= o + fold_chunk_39());
}

fn push_fold_chunk_40(v: &mut Vec<FoldPair>)
    ensures
        pview(final(v)@) == pview(old(v)@) + fold_chunk_40(),
{
    let ghost o = pview(v@);
    push_pair(v, '\u{1CB}', '\u{1CC}');
    push_pair(v, '\u{1CC}', '\u{1CA}');
    push_pair(v, '\u{1CC}', '\u{1CB}');
    push_pair(v, '\u{1CD}', '\u{1CE}');
    push_pair(v, '\u{1CE}', '\u{1CD}');
    push_pair(v, '\u{1CF}', '\u{1D0}');
    push_pair(v, '\u{1D0}', '\u{1CF}');
    push_pair(v, '\u{1D1}', '\u{1D2}');
    assert(pview(v@) =~= o + fold_chunk_40());
}

fn push_fold_chunk_41(v: &mut Vec<FoldPair>)
    ensures
        pview(final(v)@) == pview(old(v)@) + fold_chunk_41(),
{
    let ghost o = pview(v@);
    push_pair(v, '\u{1D2}', '\u{1D1}');
    push_pair(v, '\u{1D3}', '\u{1D4}');
    push_pair(v, '\u{1D4}', '\u{1D3}');
    push_pair(v, '\u{1D5}', '\u{1D6}');
    push_pair(v, '\u{1D6}', '\u{1D5}');
    push_pair(v, '\u{1D7}', '\u{1D8}');
    push_pair(v, '\u{1D8}', '\u{1D7}');
    push_pair(v, '\u{1D9}', '\u{1DA}');
    assert(pview(v@) =~= o + fold_chunk_41());
}

fn push_fold_chunk_42(v: &mut Vec<FoldPair>)
    ensures
        pview(final(v)@) == pview(old(v)@) + fold_chunk_42(),
{
    let ghost o = pview(v@);
    push_pair(v, '\u{1DA}', '\u{1D9}');
    push_pair(v, '\u{1DB}', '\u{1DC}');
    push_pair(v, '\u{1DC}', '\u{1DB}');
    push_pair(v, '\u{1DD}', '\u{18E}');
    push_pair(v, '\u{1DE}', '\u{1DF}');
    push_pair(v, '\u{1DF}', '\u{1DE}');
    push_pair(v, '\u{1E0}', '\u{1E1}');
    push_pair(v, '\u{1E1}', '\u{1E0}');
    assert(pview(v@) =~= o + fold_chunk_42());
}

fn push_fold_chunk_43(v: &mut Vec<FoldPair>)
    ensures
        pview(final(v)@) == pview(old(v)@) + fold_chunk_43(),
{
    let ghost o = pview(v@);
    push_pair(v, '\u{1E2}', '\u{1E3}');
    push_pair(v, '\u{1E3}', '\u{1E2}');
    push_pair(v, '\u{1E4}', '\u{1E5}');
    push_pair(v, '\u{1E5}', '\u{1E4}');
    push_pair(v, '\u{1E6}', '\u{1E7}');
    push_pair(v, '\u{1E7}', '\u{1E6}');
    push_pair(v, '\u{1E8}', '\u{1E9}');
    push_pair(v, '\u{1E9}', '\u{1E8}');
    assert(pview(v@) =~= o + fold_chunk_43());
}

fn push_fold_chunk_44(v: &mut Vec<FoldPair>)
    ensures
        pview(final(v)@) == pview(old(v)@) + fold_chunk_44(),
{
    let ghost o = pview(v@);
    push_pair(v, '\u{1EA}', '\u{1EB}');
    push_pair(v, '\u{1EB}', '\u{1EA}');
    push_pair(v, '\u{1EC}', '\u{1ED}');
    push_pair(v, '\u{1ED}', '\u{1EC}');
    push_pair(v, '\u{1EE}', '\u{1EF}');
    push_pair(v, '\u{1EF}', '\u{1EE}');
    push_pair(v, '\u{1F1}', '\u{1F2}');
    push_pair(v, '\u{1F1}', '\u{1F3}');
    assert(pview(v@) =~= o + fold_chunk_44());
}

fn push_fold_chunk_45(v: &mut Vec<FoldPair>)
    ensures
        pview(final(v)@) == pview(old(v)@) + fold_chunk_45(),
{
    let ghost o = pview(v@);
    push_pair(v, '\u{1F2}', '\u{1F1}');
    push_pair(v, '\u{1F2}', '\u{1F3}');
    push_pair(v, '\u{1F3}', '\u{1F1}');
    push_pair(v, '\u{1F3}', '\u{1F2}');
    push_pair(v, '\u{1F4}', '\u{1F5}');
    push_pair(v, '\u{1F5}', '\u{1F4}');
    push_pair(v, '\u{1F6}', '\u{195}');
    push_pair(v, '\u{1F7}', '\u{1BF}');
    assert(pview(v@) =~= o + fold_chunk_45());
}

fn push_fold_chunk_46(v: &mut Vec<FoldPair>)
    ensures
        pview(final(v)@) == pview(old(v)@) + fold_chunk_46(),
{
    let ghost o = pview(v@);
    push_pair(v, '\u{1F8}', '\u{1F9}');
    push_pair(v, '\u{1F9}', '\u{1F8}');
    push_pair(v, '\u{1FA}', '\u{1FB}');
    push_pair(v, '\u{1FB}', '\u{1FA}');
    push_pair(v, '\u{1FC}', '\u{1FD}');
    push_pair(v, '\u{1FD}', '\u{1FC}');
    push_pair(v, '\u{1FE}', '\u{1FF}');
    push_pair(v, '\u{1FF}', '\u{1FE}');
    assert(pview(v@) =~= o + fold_chunk_46());
}

fn push_fold_chunk_47(v: &mut Vec<FoldPair>)
    ensures
        pview(final(v)@) == pview(old(v)@) + fold_chunk_47(),
{
    let ghost o = pview(v@);
    push_pair(v, '\u{200}', '\u{201}');
    push_pair(v, '\u{201}', '\u{200}');
    push_pair(v, '\u{202}', '\u{203}');
    push_pair(v, '\u{203}', '\u{202}');
    push_pair(v, '\u{204}', '\u{205}');
    push_pair(v, '\u{205}', '\u{204}');
    push_pair(v, '\u{206}', '\u{207}');
    push_pair(v, '\u{207}', '\u{206}');
    assert(pview(v@) =~= o + fold_chunk_47());
}

fn push_fold_chunk_48(v: &mut Vec<FoldPair>)
    ensures
        pview(final(v)@) == pview(old(v)@) + fold_chunk_48(),
{
    let ghost o = pview(v@);
    push_pair(v, '\u{208}', '\u{209}');
    push_pair(v, '\u{209}', '\u{208}');
    push_pair(v, '\u{20A}', '\u{20B}');
    push_pair(v, '\u{20B}', '\u{20A}');
    push_pair(v, '\u{20C}', '\u{20D}');
    push_pair(v, '\u{20D}', '\u{20C}');
    push_pair(v, '\u{20E}', '\u{20F}');
    push_pair(v, '\u{20F}', '\u{20E}');
    assert(pview(v@) =~= o + fold_chunk_48());
}

fn push_fold_chunk_49(v: &mut Vec<FoldPair>)
    ensures
        pview(final(v)@) == pview(old(v)@) + fold_chunk_49(),
{
    let ghost o = pview(v@);
    push_pair(v, '\u{210}', '\u{211}');
    push_pair(v, '\u{211}', '\u{210}');
    push_pair(v, '\u{212}', '\u{213}');
    push_pair(v, '\u{213}', '\u{212}');
    push_pair(v, '\u{214}', '\u{215}');
    push_pair(v, '\u{215}', '\u{214}');
    push_pair(v, '\u{216}', '\u{217}');
    push_pair(v, '\u{217}', '\u{216}');
    assert(pview(v@) =~= o + fold_chunk_49());
}

fn push_fold_chunk_50(v: &mut Vec<FoldPair>)
    ensures
        pview(final(v)@) == pview(old(v)@) + fold_chunk_50(),
{
    let ghost o = pview(v@);
    push_pair(v, '\u{218}', '\u{219}');
    push_pair(v, '\u{219}', '\u{218}');
    push_pair(v, '\u{21A}', '\u{21B}');
    push_pair(v, '\u{21B}', '\u{21A}');
    push_pair(v, '\u{21C}', '\u{21D}');
    push_pair(v, '\u{21D}', '\u{21C}');
    push_pair(v, '\u{21E}', '\u{21F}');
    push_pair(v, '\u{21F}', '\u{21E}');
    assert(pview(v@) =~= o + fold_chunk_50());
}

fn push_fold_chunk_51(v: &mut Vec<FoldPair>)
    ensures
        pview(final(v)@) == pview(old(v)@) + fold_chunk_51(),
{
    let ghost o = pview(v@);
    push_pair(v, '\u{220}', '\u{19E}');
    push_pair(v, '\u{222}', '\u{223}');
    push_pair(v, '\u{223}', '\u{222}');
    push_pair(v, '\u{224}', '\u{225}');
    push_pair(v, '\u{225}', '\u{224}');
    push_pair(v, '\u{226}', '\u{227}');
    push_pair(v, '\u{227}', '\u{226}');
    push_pair(v, '\u{228}', '\u{229}');
    assert(pview(v@) =~= o + fold_chunk_51());
}

fn push_fold_chunk_52(v: &mut Vec<FoldPair>)
    ensures
        pview(final(v)@) == pview(old(v)@) + fold_chunk_52(),
{
    let ghost o = pview(v@);
    push_pair(v, '\u{229}', '\u{228}');
    push_pair(v, '\u{22A}', '\u{22B}');
    push_pair(v, '\u{22B}', '\u{22A}');
    push_pair(v, '\u{22C}', '\u{22D}');
    push_pair(v, '\u{22D}', '\u{22C}');
    push_pair(v, '\u{22E}', '\u{22F}');
    push_pair(v, '\u{22F}', '\u{22E}');
    push_pair(v, '\u{230}', '\u{231}');
    assert(pview(v@) =~= o + fold_chunk_52());
}

fn push_fold_chunk_53(v: &mut Vec<FoldPair>)
    ensures
        pview(final(v)@) == pview(old(v)@) + fold_chunk_53(),
{
    let ghost o = pview(v@);
    push_pair(v, '\u{231}', '\u{230}');
    push_pair(v, '\u{232}', '\u{233}');
    push_pair(v, '\u{233}', '\u{232}');
    push_pair(v, '\u{23A}', '\u{2C65}');
    push_pair(v, '\u{23B}', '\u{23C}');
    push_pair(v, '\u{23C}', '\u{23B}');
    push_pair(v, '\u{23D}', '\u{19A}');
    push_pair(v, '\u{23E}', '\u{2C66}');
    assert(pview(v@) =~= o + fold_chunk_53());
}

fn push_fold_chunk_54(v: &mut Vec<FoldPair>)
    ensures
        pview(final(v)@) == pview(old(v)@) + fold_chunk_54(),
{
    let ghost o = pview(v@);
    push_pair(v, '\u{23F}', '\u{2C7E}');
    push_pair(v, '\u{240}', '\u{2C7F}');
    push_pair(v, '\u{241}', '\u{242}');
    push_pair(v, '\u{242}', '\u{241}');
    push_pair(v, '\u{243}', '\u{180}');
    push_pair(v, '\u{244}', '\u{289}');
    push_pair(v, '\u{245}', '\u{28C}');
    push_pair(v, '\u{246}', '\u{247}');
    assert(pview(v@) =~= o + fold_chunk_54());
}

fn push_fold_chunk_55(v: &mut Vec<FoldPair>)
    ensures
        pview(final(v)@) == pview(old(v)@) + fold_chunk_55(),
{
    let ghost o = pview(v@);
    push_pair(v, '\u{247}', '\u{246}');
    push_pair(v, '\u{248}', '\u{249}');
    push_pair(v, '\u{249}', '\u{248}');
    push_pair(v, '\u{24A}', '\u{24B}');
    push_pair(v, '\u{24B}', '\u{24A}');
    push_pair(v, '\u{24C}', '\u{24D}');
    push_pair(v, '\u{24D}', '\u{24C}');
    push_pair(v, '\u{24E}', '\u{24F}');
    assert(pview(v@) =~= o + fold_chunk_55());
}

fn push_fold_chunk_56(v: &mut Vec<FoldPair>)
    ensures
        pview(final(v)@) == pview(old(v)@) + fold_chunk_56(),
{
    let ghost o = pview(v@);
    push_pair(v, '\u{24F}', '\u{24E}');
    push_pair(v, '\u{250}', '\u{2C6F}');
    push_pair(v, '\u{251}', '\u{2C6D}');
    push_pair(v, '\u{252}', '\u{2C70}');
    push_pair(v, '\u{253}', '\u{181}');
    push_pair(v, '\u{254}', '\u{186}');
    push_pair(v, '\u{256}', '\u{189}');
    push_pair(v, '\u{257}', '\u{18A}');
    assert(pview(v@) =~= o + fold_chunk_56());
}

fn push_fold_chunk_57(v: &mut Vec<FoldPair>)
    ensures
        pview(final(v)@) == pview(old(v)@) + fold_chunk_57(),
{
    let ghost o = pview(v@);
    push_pair(v, '\u{259}', '\u{18F}');
    push_pair(v, '\u{25B}', '\u{190}');
    push_pair(v, '\u{25C}', '\u{A7AB}');
    push_pair(v, '\u{260}', '\u{193}');
    push_pair(v, '\u{261}', '\u{A7AC}');
    push_pair(v, '\u{263}', '\u{194}');
    push_pair(v, '\u{264}', '\u{A7CB}');
    push_pair(v, '\u{265}', '\u{A78D}');
    assert(pview(v@) =~= o + fold_chunk_57());
}

fn push_fold_chunk_58(v: &mut Vec<FoldPair>)
    ensures
        pview(final(v)@) == pview(old(v)@) + fold_chunk_58(),
{
    let ghost o = pview(v@);
    push_pair(v, '\u{266}', '\u{A7AA}');
    push_pair(v, '\u{268}', '\u{197}');
    push_pair(v, '\u{269}', '\u{196}');
    push_pair(v, '\u{26A}', '\u{A7AE}');
    push_pair(v, '\u{26B}', '\u{2C62}');
    push_pair(v, '\u{26C}', '\u{A7AD}');
    push_pair(v, '\u{26F}', '\u{19C}');
    push_pair(v, '\u{271}', '\u{2C6E}');
    assert(pview(v@) =~= o + fold_chunk_58());
}

fn push_fold_chunk_59(v: &mut Vec<FoldPair>)
    ensures
        pview(final(v)@) == pview(old(v)@) + fold_chunk_59(),
{
    let ghost o = pview(v@);
    push_pair(v, '\u{272}', '\u{19D}');
    push_pair(v, '\u{275}', '\u{19F}');
    push_pair(v, '\u{27D}', '\u{2C64}');
    push_pair(v, '\u{280}', '\u{1A6}');
    push_pair(v, '\u{282}', '\u{A7C5}');
    push_pair(v, '\u{283}', '\u{1A9}');
    push_pair(v, '\u{287}', '\u{A7B1}');
    push_pair(v, '\u{288}', '\u{1AE}');
    assert(pview(v@) =~= o + fold_chunk_59());
}

fn push_fold_chunk_60(v: &mut Vec<FoldPair>)
    ensures
        pview(final(v)@) == pview(old(v)@) + fold_chunk_60(),
{
    let ghost o = pview(v@);
    push_pair(v, '\u{289}', '\u{244}');
    push_pair(v, '\u{28A}', '\u{1B1}');
    push_pair(v, '\u{28B}', '\u{1B2}');
    push_pair(v, '\u{28C}', '\u{245}');
    push_pair(v, '\u{292}', '\u{1B7}');
    push_pair(v, '\u{29D}', '\u{A7B2}');
    push_pair(v, '\u{29E}', '\u{A7B0}');
    push_pair(v, '\u{345}', '\u{399}');
    assert(pview(v@) =~= o + fold_chunk_60());
}

fn push_fold_chunk_61(v: &mut Vec<FoldPair>)
    ensures
        pview(final(v)@) == pview(old(v)@) + fold_chunk_61(),
{
    let ghost o = pview(v@);
    push_pair(v, '\u{345}', '\u{3B9}');
    push_pair(v, '\u{345}', '\u{1FBE}');
    push_pair(v, '\u{370}', '\u{371}');
    push_pair(v, '\u{371}', '\u{370}');
    push_pair(v, '\u{372}', '\u{373}');
    push_pair(v, '\u{373}', '\u{372}');
    push_pair(v, '\u{376}', '\u{377}');
    push_pair(v, '\u{377}', '\u{376}');
    assert(pview(v@) =~= o + fold_chunk_61());
}

fn push_fold_chunk_62(v: &mut Vec<FoldPair>)
    ensures
        pview(final(v)@) == pview(old(v)@) + fold_chunk_62(),
{
    let ghost o = pview(v@);
    push_pair(v, '\u{37B}', '\u{3FD}');
    push_pair(v, '\u{37C}', '\u{3FE}');
    push_pair(v, '\u{37D}', '\u{3FF}');
    push_pair(v, '\u{37F}', '\u{3F3}');
    push_pair(v, '\u{386}', '\u{3AC}');
    push_pair(v, '\u{388}', '\u{3AD}');
    push_pair(v, '\u{389}', '\u{3AE}');
    push_pair(v, '\u{38A}', '\u{3AF}');
    assert(pview(v@) =~= o + fold_chunk_62());
}

fn push_fold_chunk_63(v: &mut Vec<FoldPair>)
    ensures
        pview(final(v)@) == pview(old(v)@) + fold_chunk_63(),
{
    let ghost o = pview(v@);
    push_pair(v, '\u{38C}', '\u{3CC}');
    push_pair(v, '\u{38E}', '\u{3CD}');
    push_pair(v, '\u{38F}', '\u{3CE}');
    push_pair(v, '\u{390}', '\u{1FD3}');
    push_pair(v, '\u{391}', '\u{3B1}');
    push_pair(v, '\u{392}', '\u{3B2}');
    push_pair(v, '\u{392}', '\u{3D0}');
    push_pair(v, '\u{393}', '\u{3B3}');
    assert(pview(v@) =~= o + fold_chunk_63());
}

fn push_fold_chunk_64(v: &mut Vec<FoldPair>)
    ensures
        pview(final(v)@) == pview(old(v)@) + fold_chunk_64(),
{
    let ghost o = pview(v@);
    push_pair(v, '\u{394}', '\u{3B4}');
    push_pair(v, '\u{395}', '\u{3B5}');
    push_pair(v, '\u{395}', '\u{3F5}');
    push_pair(v, '\u{396}', '\u{3B6}');
    push_pair(v, '\u{397}', '\u{3B7}');
    push_pair(v, '\u{398}', '\u{3B8}');
    push_pair(v, '\u{398}', '\u{3D1}');
    push_pair(v, '\u{398}', '\u{3F4}');
    assert(pview(v@) =~= o + fold_chunk_64());
}

fn push_fold_chunk_65(v: &mut Vec<FoldPair>)
    ensures
        pview(final(v)@) == pview(old(v)@) + fold_chunk_65(),
{
    let ghost o = pview(v@);
    push_pair(v, '\u{399}', '\u{345}');
    push_pair(v, '\u{399}', '\u{3B9}');
    push_pair(v, '\u{399}', '\u{1FBE}');
    push_pair(v, '\u{39A}', '\u{3BA}');
    push_pair(v, '\u{39A}', '\u{3F0}');
    push_pair(v, '\u{39B}', '\u{3BB}');
    push_pair(v, '\u{39C}', '\u{B5}');
    push_pair(v, '\u{39C}', '\u{3BC}');
    assert(pview(v@) =~= o + fold_chunk_65());
}

fn push_fold_chunk_66(v: &mut Vec<FoldPair>)
    ensures
        pview(final(v)@) == pview(old(v)@) + fold_chunk_66(),
{
    let ghost o = pview(v@);
    push_pair(v, '\u{39D}', '\u{3BD}');
    push_pair(v, '\u{39E}', '\u{3BE}');
    push_pair(v, '\u{39F}', '\u{3BF}');
    push_pair(v, '\u{3A0}', '\u{3C0}');
    push_pair(v, '\u{3A0}', '\u{3D6}');
    push_pair(v, '\u{3A1}', '\u{3C1}');
    push_pair(v, '\u{3A1}', '\u{3F1}');
    push_pair(v, '\u{3A3}', '\u{3C2}');
    assert(pview(v@) =~= o + fold_chunk_66());
}

fn push_fold_chunk_67(v: &mut Vec<FoldPair>)
    ensures
        pview(final(v)@) == pview(old(v)@) + fold_chunk_67(),
{
    let ghost o = pview(v@);
    push_pair(v, '\u{3A3}', '\u{3C3}');
    push_pair(v, '\u{3A4}', '\u{3C4}');
    push_pair(v, '\u{3A5}', '\u{3C5}');
    push_pair(v, '\u{3A6}', '\u{3C6}');
    push_pair(v, '\u{3A6}', '\u{3D5}');
    push_pair(v, '\u{3A7}', '\u{3C7}');
    push_pair(v, '\u{3A8}', '\u{3C8}');
    push_pair(v, '\u{3A9}', '\u{3C9}');
    assert(pview(v@) =~= o + fold_chunk_67());
}

fn push_fold_chunk_68(v: &mut Vec<FoldPair>)
    ensures
        pview(final(v)@) == pview(old(v)@) + fold_chunk_68(),
{
    let ghost o = pview(v@);
    push_pair(v, '\u{3A9}', '\u{2126}');
    push_pair(v, '\u{3AA}', '\u{3CA}');
    push_pair(v, '\u{3AB}', '\u{3CB}');
    push_pair(v, '\u{3AC}', '\u{386}');
    push_pair(v, '\u{3AD}', '\u{388}');
    push_pair(v, '\u{3AE}', '\u{389}');
    push_pair(v, '\u{3AF}', '\u{38A}');
    push_pair(v, '\u{3B0}', '\u{1FE3}');
    assert(pview(v@) =~= o + fold_chunk_68());
}

fn push_fold_chunk_69(v: &mut Vec<FoldPair>)
    ensures
        pview(final(v)@) == pview(old(v)@) + fold_chunk_69(),
{
    let ghost o = pview(v@);
    push_pair(v, '\u{3B1}', '\u{391}');
    push_pair(v, '\u{3B2}', '\u{392}');
    push_pair(v, '\u{3B2}', '\u{3D0}');
    push_pair(v, '\u{3B3}', '\u{393}');
    push_pair(v, '\u{3B4}', '\u{394}');
    push_pair(v, '\u{3B5}', '\u{395}');
    push_pair(v, '\u{3B5}', '\u{3F5}');
    push_pair(v, '\u{3B6}', '\u{396}');
    assert(pview(v@) =~= o + fold_chunk_69());
}

fn push_fold_chunk_70(v: &mut Vec<FoldPair>)
    ensures
        pview(final(v)@) == pview(old(v)@) + fold_chunk_70(),
{
    let ghost o = pview(v@);
    push_pair(v, '\u{3B7}', '\u{397}');
    push_pair(v, '\u{3B8}', '\u{398}');
    push_pair(v, '\u{3B8}', '\u{3D1}');
    push_pair(v, '\u{3B8}', '\u{3F4}');
    push_pair(v, '\u{3B9}', '\u{345}');
    push_pair(v, '\u{3B9}', '\u{399}');
    push_pair(v, '\u{3B9}', '\u{1FBE}');
    push_pair(v, '\u{3BA}', '\u{39A}');
    assert(pview(v@) =~= o + fold_chunk_70());
}

fn push_fold_chunk_71(v: &mut Vec<FoldPair>)
    ensures
        pview(final(v)@) == pview(old(v)@) + fold_chunk_71(),
{
    let ghost o = pview(v@);
    push_pair(v, '\u{3BA}', '\u{3F0}');
    push_pair(v, '\u{3BB}', '\u{39B}');
    push_pair(v, '\u{3BC}', '\u{B5}');
    push_pair(v, '\u{3BC}', '\u{39C}');
    push_pair(v, '\u{3BD}', '\u{39D}');
    push_pair(v, '\u{3BE}', '\u{39E}');
    push_pair(v, '\u{3BF}', '\u{39F}');
    push_pair(v, '\u{3C0}', '\u{3A0}');
    assert(pview(v@) =~= o + fold_chunk_71());
}

fn push_fold_chunk_72(v: &mut Vec<FoldPair>)
    ensures
        pview(final(v)@) == pview(old(v)@) + fold_chunk_72(),
{
    let ghost o = pview(v@);
    push_pair(v, '\u{3C0}', '\u{3D6}');
    push_pair(v, '\u{3C1}', '\u{3A1}');
    push_pair(v, '\u{3C1}', '\u{3F1}');
    push_pair(v, '\u{3C2}', '\u{3A3}');
    push_pair(v, '\u{3C2}', '\u{3C3}');
    push_pair(v, '\u{3C3}', '\u{3A3}');
    push_pair(v, '\u{3C3}', '\u{3C2}');
    push_pair(v, '\u{3C4}', '\u{3A4}');
    assert(pview(v@) =~= o + fold_chunk_72());
}

fn push_fold_chunk_73(v: &mut Vec<FoldPair>)
    ensures
        pview(final(v)@) == pview(old(v)@) + fold_chunk_73(),
{
    let ghost o = pview(v@);
    push_pair(v, '\u{3C5}', '\u{3A5}');
    push_pair(v, '\u{3C6}', '\u{3A6}');
    push_pair(v, '\u{3C6}', '\u{3D5}');
    push_pair(v, '\u{3C7}', '\u{3A7}');
    push_pair(v, '\u{3C8}', '\u{3A8}');
    push_pair(v, '\u{3C9}', '\u{3A9}');
    push_pair(v, '\u{3C9}', '\u{2126}');
    push_pair(v, '\u{3CA}', '\u{3AA}');
    assert(pview(v@) =~= o + fold_chunk_73());
}

fn push_fold_chunk_74(v: &mut Vec<FoldPair>)
    ensures
        pview(final(v)@) == pview(old(v)@) + fold_chunk_74(),
{
    let ghost o = pview(v@);
    push_pair(v, '\u{3CB}', '\u{3AB}');
    push_pair(v, '\u{3CC}', '\u{38C}');
    push_pair(v, '\u{3CD}', '\u{38E}');
    push_pair(v, '\u{3CE}', '\u{38F}');
    push_pair(v, '\u{3CF}', '\u{3D7}');
    push_pair(v, '\u{3D0}', '\u{392}');
    push_pair(v, '\u{3D0}', '\u{3B2}');
    push_pair(v, '\u{3D1}', '\u{398}');
    assert(pview(v@) =~= o + fold_chunk_74());
}

fn push_fold_chunk_75(v: &mut Vec<FoldPair>)
    ensures
        pview(final(v)@) == pview(old(v)@) + fold_chunk_75(),
{
    let ghost o = pview(v@);
    push_pair(v, '\u{3D1}', '\u{3B8}');
    push_pair(v, '\u{3D1}', '\u{3F4}');
    push_pair(v, '\u{3D5}', '\u{3A6}');
    push_pair(v, '\u{3D5}', '\u{3C6}');
    push_pair(v, '\u{3D6}', '\u{3A0}');
    push_pair(v, '\u{3D6}', '\u{3C0}');
    push_pair(v, '\u{3D7}', '\u{3CF}');
    push_pair(v, '\u{3D8}', '\u{3D9}');
    assert(pview(v@) =~= o + fold_chunk_75());
}

fn push_fold_chunk_76(v: &mut Vec<FoldPair>)
    ensures
        pview(final(v)@) == pview(old(v)@) + fold_chunk_76(),
{
    let ghost o = pview(v@);
    push_pair(v, '\u{3D9}', '\u{3D8}');
    push_pair(v, '\u{3DA}', '\u{3DB}');
    push_pair(v, '\u{3DB}', '\u{3DA}');
    push_pair(v, '\u{3DC}', '\u{3DD}');
    push_pair(v, '\u{3DD}', '\u{3DC}');
    push_pair(v, '\u{3DE}', '\u{3DF}');
    push_pair(v, '\u{3DF}', '\u{3DE}');
    push_pair(v, '\u{3E0}', '\u{3E1}');
    assert(pview(v@) =~= o + fold_chunk_76());
}

fn push_fold_chunk_77(v: &mut Vec<FoldPair>)
    ensures
        pview(final(v)@) == pview(old(v)@) + fold_chunk_77(),
{
    let ghost o = pview(v@);
    push_pair(v, '\u{3E1}', '\u{3E0}');
    push_pair(v, '\u{3E2}', '\u{3E3}');
    push_pair(v, '\u{3E3}', '\u{3E2}');
    push_pair(v, '\u{3E4}', '\u{3E5}');
    push_pair(v, '\u{3E5}', '\u{3E4}');
    push_pair(v, '\u{3E6}', '\u{3E7}');
    push_pair(v, '\u{3E7}', '\u{3E6}');
    push_pair(v, '\u{3E8}', '\u{3E9}');
    assert(pview(v@) =~= o + fold_chunk_77());
}

fn push_fold_chunk_78(v: &mut Vec<FoldPair>)
    ensures
        pview(final(v)@) == pview(old(v)@) + fold_chunk_78(),
{
    let ghost o = pview(v@);
    push_pair(v, '\u{3E9}', '\u{3E8}');
    push_pair(v, '\u{3EA}', '\u{3EB}');
    push_pair(v, '\u{3EB}', '\u{3EA}');
    push_pair(v, '\u{3EC}', '\u{3ED}');
    push_pair(v, '\u{3ED}', '\u{3EC}');
    push_pair(v, '\u{3EE}', '\u{3EF}');
    push_pair(v, '\u{3EF}', '\u{3EE}');
    push_pair(v, '\u{3F0}', '\u{39A}');
    assert(pview(v@) =~= o + fold_chunk_78());
}

fn push_fold_chunk_79(v: &mut Vec<FoldPair>)
    ensures
        pview(final(v)@) == pview(old(v)@) + fold_chunk_79(),
{
    let ghost o = pview(v@);
    push_pair(v, '\u{3F0}', '\u{3BA}');
    push_pair(v, '\u{3F1}', '\u{3A1}');
    push_pair(v, '\u{3F1}', '\u{3C1}');
    push_pair(v, '\u{3F2}', '\u{3F9}');
    push_pair(v, '\u{3F3}', '\u{37F}');
    push_pair(v, '\u{3F4}', '\u{398}');
    push_pair(v, '\u{3F4}', '\u{3B8}');
    push_pair(v, '\u{3F4}', '\u{3D1}');
    assert(pview(v@) =~= o + fold_chunk_79());
}

fn push_fold_chunk_80(v: &mut Vec<FoldPair>)
    ensures
        pview(final(v)@) == pview(old(v)@) + fold_chunk_80(),
{
    let ghost o = pview(v@);
    push_pair(v, '\u{3F5}', '\u{395}');
    push_pair(v, '\u{3F5}', '\u{3B5}');
    push_pair(v, '\u{3F7}', '\u{3F8}');
    push_pair(v, '\u{3F8}', '\u{3F7}');
    push_pair(v, '\u{3F9}', '\u{3F2}');
    push_pair(v, '\u{3FA}', '\u{3FB}');
    push_pair(v, '\u{3FB}', '\u{3FA}');
    push_pair(v, '\u{3FD}', '\u{37B}');
    assert(pview(v@) =~= o + fold_chunk_80());
}

fn push_fold_chunk_81(v: &mut Vec<FoldPair>)
    ensures
        pview(final(v)@) == pview(old(v)@) + fold_chunk_81(),
{
    let ghost o = pview(v@);
    push_pair(v, '\u{3FE}', '\u{37C}');
    push_pair(v, '\u{3FF}', '\u{37D}');
    push_pair(v, '\u{400}', '\u{450}');
    push_pair(v, '\u{401}', '\u{451}');
    push_pair(v, '\u{402}', '\u{452}');
    push_pair(v, '\u{403}', '\u{453}');
    push_pair(v, '\u{404}', '\u{454}');
    push_pair(v, '\u{405}', '\u{455}');
    assert(pview(v@) =~= o + fold_chunk_81());
}

fn push_fold_chunk_82(v: &mut Vec<FoldPair>)
    ensures
        pview(final(v)@) == pview(old(v)@) + fold_chunk_82(),
{
    let ghost o = pview(v@);
    push_pair(v, '\u{406}', '\u{456}');
    push_pair(v, '\u{407}', '\u{457}');
    push_pair(v, '\u{408}', '\u{458}');
    push_pair(v, '\u{409}', '\u{459}');
    push_pair(v, '\u{40A}', '\u{45A}');
    push_pair(v, '\u{40B}', '\u{45B}');
    push_pair(v, '\u{40C}', '\u{45C}');
    push_pair(v, '\u{40D}', '\u{45D}');
    assert(pview(v@) =~= o + fold_chunk_82());
}

fn push_fold_chunk_83(v: &mut Vec<FoldPair>)
    ensures
        pview(final(v)@) == pview(old(v)@) + fold_chunk_83(),
{
    let ghost o = pview(v@);
    push_pair(v, '\u{40E}', '\u{45E}');
    push_pair(v, '\u{40F}', '\u{45F}');
    push_pair(v, '\u{410}', '\u{430}');
    push_pair(v, '\u{411}', '\u{431}');
    push_pair(v, '\u{412}', '\u{432}');
    push_pair(v, '\u{412}', '\u{1C80}');
    push_pair(v, '\u{413}', '\u{433}');
    push_pair(v, '\u{414}', '\u{434}');
    assert(pview(v@) =~= o + fold_chunk_83());
}

fn push_fold_chunk_84(v: &mut Vec<FoldPair>)
    ensures
        pview(final(v)@) == pview(old(v)@) + fold_chunk_84(),
{
    let ghost o = pview(v@);
    push_pair(v, '\u{414}', '\u{1C81}');
    push_pair(v, '\u{415}', '\u{435}');
    push_pair(v, '\u{416}', '\u{436}');
    push_pair(v, '\u{417}', '\u{437}');
    push_pair(v, '\u{418}', '\u{438}');
    push_pair(v, '\u{419}', '\u{439}');
    push_pair(v, '\u{41A}', '\u{43A}');
    push_pair(v, '\u{41B}', '\u{43B}');
    assert(pview(v@) =~= o + fold_chunk_84());
}

fn push_fold_chunk_85(v: &mut Vec<FoldPair>)
    ensures
        pview(final(v)@) == pview(old(v)@) + fold_chunk_85(),
{
    let ghost o = pview(v@);
    push_pair(v, '\u{41C}', '\u{43C}');
    push_pair(v, '\u{41D}', '\u{43D}');
    push_pair(v, '\u{41E}', '\u{43E}');
    push_pair(v, '\u{41E}', '\u{1C82}');
    push_pair(v, '\u{41F}', '\u{43F}');
    push_pair(v, '\u{420}', '\u{440}');
    push_pair(v, '\u{421}', '\u{441}');
    push_pair(v, '\u{421}', '\u{1C83}');
    assert(pview(v@) =~= o + fold_chunk_85());
}

fn push_fold_chunk_86(v: &mut Vec<FoldPair>)
    ensures
        pview(final(v)@) == pview(old(v)@) + fold_chunk_86(),
{
    let ghost o = pview(v@);
    push_pair(v, '\u{422}', '\u{442}');
    push_pair(v, '\u{422}', '\u{1C84}');
    push_pair(v, '\u{422}', '\u{1C85}');
    push_pair(v, '\u{423}', '\u{443}');
    push_pair(v, '\u{424}', '\u{444}');
    push_pair(v, '\u{425}', '\u{445}');
    push_pair(v, '\u{426}', '\u{446}');
    push_pair(v, '\u{427}', '\u{447}');
    assert(pview(v@) =~= o + fold_chunk_86());
}

fn push_fold_chunk_87(v: &mut Vec<FoldPair>)
    ensures
        pview(final(v)@) == pview(old(v)@) + fold_chunk_87(),
{
    let ghost o = pview(v@);
    push_pair(v, '\u{428}', '\u{448}');
    push_pair(v, '\u{429}', '\u{449}');
    push_pair(v, '\u{42A}', '\u{44A}');
    push_pair(v, '\u{42A}', '\u{1C86}');
    push_pair(v, '\u{42B}', '\u{44B}');
    push_pair(v, '\u{42C}', '\u{44C}');
    push_pair(v, '\u{42D}', '\u{44D}');
    push_pair(v, '\u{42E}', '\u{44E}');
    assert(pview(v@) =~= o + fold_chunk_87());
}

fn push_fold_chunk_88(v: &mut Vec<FoldPair>)
    ensures
        pview(final(v)@) == pview(old(v)@) + fold_chunk_88(),
{
    let ghost o = pview(v@);
    push_pair(v, '\u{42F}', '\u{44F}');
    push_pair(v, '\u{430}', '\u{410}');
    push_pair(v, '\u{431}', '\u{411}');
    push_pair(v, '\u{432}', '\u{412}');
    push_pair(v, '\u{432}', '\u{1C80}');
    push_pair(v, '\u{433}', '\u{413}');
    push_pair(v, '\u{434}', '\u{414}');
    push_pair(v, '\u{434}', '\u{1C81}');
    assert(pview(v@) =~= o + fold_chunk_88());
}

fn push_fold_chunk_89(v: &mut Vec<FoldPair>)
    ensures
        pview(final(v)@) == pview(old(v)@) + fold_chunk_89(),
{
    let ghost o = pview(v@);
    push_pair(v, '\u{435}', '\u{415}');
    push_pair(v, '\u{436}', '\u{416}');
    push_pair(v, '\u{437}', '\u{417}');
    push_pair(v, '\u{438}', '\u{418}');
    push_pair(v, '\u{439}', '\u{419}');
    push_pair(v, '\u{43A}', '\u{41A}');
    push_pair(v, '\u{43B}', '\u{41B}');
    push_pair(v, '\u{43C}', '\u{41C}');
    assert(pview(v@) =~= o + fold_chunk_89());
}

fn push_fold_chunk_90(v: &mut Vec<FoldPair>)
    ensures
        pview(final(v)@) == pview(old(v)@) + fold_chunk_90(),
{
    let ghost o = pview(v@);
    push_pair(v, '\u{43D}', '\u{41D}');
    push_pair(v, '\u{43E}', '\u{41E}');
    push_pair(v, '\u{43E}', '\u{1C82}');
    push_pair(v, '\u{43F}', '\u{41F}');
    push_pair(v, '\u{440}', '\u{420}');
    push_pair(v, '\u{441}', '\u{421}');
    push_pair(v, '\u{441}', '\u{1C83}');
    push_pair(v, '\u{442}', '\u{422}');
    assert(pview(v@) =~= o + fold_chunk_90());
}

fn push_fold_chunk_91(v: &mut Vec<FoldPair>)
    ensures
        pview(final(v)@) == pview(old(v)@) + fold_chunk_91(),
{
    let ghost o = pview(v@);
    push_pair(v, '\u{442}', '\u{1C84}');
    push_pair(v, '\u{442}', '\u{1C85}');
    push_pair(v, '\u{443}', '\u{423}');
    push_pair(v, '\u{444}', '\u{424}');
    push_pair(v, '\u{445}', '\u{425}');
    push_pair(v, '\u{446}', '\u{426}');
    push_pair(v, '\u{447}', '\u{427}');
    push_pair(v, '\u{448}', '\u{428}');
    assert(pview(v@) =~= o + fold_chunk_91());
}

fn push_fold_chunk_92(v: &mut Vec<FoldPair>)
    ensures
        pview(final(v)@) == pview(old(v)@) + fold_chunk_92(),
{
    let ghost o = pview(v@);
    push_pair(v, '\u{449}', '\u{429}');
    push_pair(v, '\u{44A}', '\u{42A}');
    push_pair(v, '\u{44A}', '\u{1C86}');
    push_pair(v, '\u{44B}', '\u{42B}');
    push_pair(v, '\u{44C}', '\u{42C}');
    push_pair(v, '\u{44D}', '\u{42D}');
    push_pair(v, '\u{44E}', '\u{42E}');
    push_pair(v, '\u{44F}', '\u{42F}');
    assert(pview(v@) =~= o + fold_chunk_92());
}

fn push_fold_chunk_93(v: &mut Vec<FoldPair>)
    ensures
        pview(final(v)@) == pview(old(v)@) + fold_chunk_93(),
{
    let ghost o = pview(v@);
    push_pair(v, '\u{450}', '\u{400}');
    push_pair(v, '\u{451}', '\u{401}');
    push_pair(v, '\u{452}', '\u{402}');
    push_pair(v, '\u{453}', '\u{403}');
    push_pair(v, '\u{454}', '\u{404}');
    push_pair(v, '\u{455}', '\u{405}');
    push_pair(v, '\u{456}', '\u{406}');
    push_pair(v, '\u{457}', '\u{407}');
    assert(pview(v@) =~= o + fold_chunk_93());
}

fn push_fold_chunk_94(v: &mut Vec<FoldPair>)
    ensures
        pview(final(v)@) == pview(old(v)@) + fold_chunk_94(),
{
    let ghost o = pview(v@);
    push_pair(v, '\u{458}', '\u{408}');
    push_pair(v, '\u{459}', '\u{409}');
    push_pair(v, '\u{45A}', '\u{40A}');
    push_pair(v, '\u{45B}', '\u{40B}');
    push_pair(v, '\u{45C}', '\u{40C}');
    push_pair(v, '\u{45D}', '\u{40D}');
    push_pair(v, '\u{45E}', '\u{40E}');
    push_pair(v, '\u{45F}', '\u{40F}');
    assert(pview(v@) =~= o + fold_chunk_94());
}

fn push_fold_chunk_95(v: &mut Vec<FoldPair>)
    ensures
        pview(final(v)@) == pview(old(v)@) + fold_chunk_95(),
{
    let ghost o = pview(v@);
    push_pair(v, '\u{460}', '\u{461}');
    push_pair(v, '\u{461}', '\u{460}');
    push_pair(v, '\u{462}', '\u{463}');
    push_pair(v, '\u{462}', '\u{1C87}');
    push_pair(v, '\u{463}', '\u{462}');
    push_pair(v, '\u{463}', '\u{1C87}');
    push_pair(v, '\u{464}', '\u{465}');
    push_pair(v, '\u{465}', '\u{464}');
    assert(pview(v@) =~= o + fold_chunk_95());
}

fn push_fold_chunk_96(v: &mut Vec<FoldPair>)
    ensures
        pview(final(v)@) == pview(old(v)@) + fold_chunk_96(),
{
    let ghost o = pview(v@);
    push_pair(v, '\u{466}', '\u{467}');
    push_pair(v, '\u{467}', '\u{466}');
    push_pair(v, '\u{468}', '\u{469}');
    push_pair(v, '\u{469}', '\u{468}');
    push_pair(v, '\u{46A}', '\u{46B}');
    push_pair(v, '\u{46B}', '\u{46A}');
    push_pair(v, '\u{46C}', '\u{46D}');
    push_pair(v, '\u{46D}', '\u{46C}');
    assert(pview(v@) =~= o + fold_chunk_96());
}

fn push_fold_chunk_97(v: &mut Vec<FoldPair>)
    ensures
        pview(final(v)@) == pview(old(v)@) + fold_chunk_97(),
{
    let ghost o = pview(v@);
    push_pair(v, '\u{46E}', '\u{46F}');
    push_pair(v, '\u{46F}', '\u{46E}');
    push_pair(v, '\u{470}', '\u{471}');
    push_pair(v, '\u{471}', '\u{470}');
    push_pair(v, '\u{472}', '\u{473}');
    push_pair(v, '\u{473}', '\u{472}');
    push_pair(v, '\u{474}', '\u{475}');
    push_pair(v, '\u{475}', '\u{474}');
    assert(pview(v@) =~= o + fold_chunk_97());
}

fn push_fold_chunk_98(v: &mut Vec<FoldPair>)
    ensures
        pview(final(v)@) == pview(old(v)@) + fold_chunk_98(),
{
    let ghost o = pview(v@);
    push_pair(v, '\u{476}', '\u{477}');
    push_pair(v, '\u{477}', '\u{476}');
    push_pair(v, '\u{478}', '\u{479}');
    push_pair(v, '\u{479}', '\u{478}');
    push_pair(v, '\u{47A}', '\u{47B}');
    push_pair(v, '\u{47B}', '\u{47A}');
    push_pair(v, '\u{47C}', '\u{47D}');
    push_pair(v, '\u{47D}', '\u{47C}');
    assert(pview(v@) =~= o + fold_chunk_98());
}

fn push_fold_chunk_99(v: &mut Vec<FoldPair>)
    ensures
        pview(final(v)@) == pview(old(v)@) + fold_chunk_99(),
{
    let ghost o = pview(v@);
    push_pair(v, '\u{47E}', '\u{47F}');
    push_pair(v, '\u{47F}', '\u{47E}');
    push_pair(v, '\u{480}', '\u{481}');
    push_pair(v, '\u{481}', '\u{480}');
    push_pair(v, '\u{48A}', '\u{48B}');
    push_pair(v, '\u{48B}', '\u{48A}');
    push_pair(v, '\u{48C}', '\u{48D}');
    push_pair(v, '\u{48D}', '\u{48C}');
    assert(pview(v@) =~= o + fold_chunk_99());
}

fn push_fold_chunk_100(v: &mut Vec<FoldPair>)
    ensures
        pview(final(v)@) == pview(old(v)@) + fold_chunk_100(),
{
    let ghost o = pview(v@);
    push_pair(v, '\u{48E}', '\u{48F}');
    push_pair(v, '\u{48F}', '\u{48E}');
    push_pair(v, '\u{490}', '\u{491}');
    push_pair(v, '\u{491}', '\u{490}');
    push_pair(v, '\u{492}', '\u{493}');
    push_pair(v, '\u{493}', '\u{492}');
    push_pair(v, '\u{494}', '\u{495}');
    push_pair(v, '\u{495}', '\u{494}');
    assert(pview(v@) =~= o + fold_chunk_100());
}

fn push_fold_chunk_101(v: &mut Vec<FoldPair>)
    ensures
        pview(final(v)@) == pview(old(v)@) + fold_chunk_101(),
{
    let ghost o = pview(v@);
    push_pair(v, '\u{496}', '\u{497}');
    push_pair(v, '\u{497}', '\u{496}');
    push_pair(v, '\u{498}', '\u{499}');
    push_pair(v, '\u{499}', '\u{498}');
    push_pair(v, '\u{49A}', '\u{49B}');
    push_pair(v, '\u{49B}', '\u{49A}');
    push_pair(v, '\u{49C}', '\u{49D}');
    push_pair(v, '\u{49D}', '\u{49C}');
    assert(pview(v@) =~= o + fold_chunk_101());
}

fn push_fold_chunk_102(v: &mut Vec<FoldPair>)
    ensures
        pview(final(v)@) == pview(old(v)@) + fold_chunk_102(),
{
    let ghost o = pview(v@);
    push_pair(v, '\u{49E}', '\u{49F}');
    push_pair(v, '\u{49F}', '\u{49E}');
    push_pair(v, '\u{4A0}', '\u{4A1}');
    push_pair(v, '\u{4A1}', '\u{4A0}');
    push_pair(v, '\u{4A2}', '\u{4A3}');
    push_pair(v, '\u{4A3}', '\u{4A2}');
    push_pair(v, '\u{4A4}', '\u{4A5}');
    push_pair(v, '\u{4A5}', '\u{4A4}');
    assert(pview(v@) =~= o + fold_chunk_102());
}

fn push_fold_chunk_103(v: &mut Vec<FoldPair>)
    ensures
        pview(final(v)@) == pview(old(v)@) + fold_chunk_103(),
{
    let ghost o = pview(v@);
    push_pair(v, '\u{4A6}', '\u{4A7}');
    push_pair(v, '\u{4A7}', '\u{4A6}');
    push_pair(v, '\u{4A8}', '\u{4A9}');
    push_pair(v, '\u{4A9}', '\u{4A8}');
    push_pair(v, '\u{4AA}', '\u{4AB}');
    push_pair(v, '\u{4AB}', '\u{4AA}');
    push_pair(v, '\u{4AC}', '\u{4AD}');
    push_pair(v, '\u{4AD}', '\u{4AC}');
    assert(pview(v@) =~= o + fold_chunk_103());
}

fn push_fold_chunk_104(v: &mut Vec<FoldPair>)
    ensures
        pview(final(v)@) == pview(old(v)@) + fold_chunk_104(),
{
    let ghost o = pview(v@);
    push_pair(v, '\u{4AE}', '\u{4AF}');
    push_pair(v, '\u{4AF}', '\u{4AE}');
    push_pair(v, '\u{4B0}', '\u{4B1}');
    push_pair(v, '\u{4B1}', '\u{4B0}');
    push_pair(v, '\u{4B2}', '\u{4B3}');
    push_pair(v, '\u{4B3}', '\u{4B2}');
    push_pair(v, '\u{4B4}', '\u{4B5}');
    push_pair(v, '\u{4B5}', '\u{4B4}');
    assert(pview(v@) =~= o + fold_chunk_104());
}

fn push_fold_chunk_105(v: &mut Vec<FoldPair>)
    ensures
        pview(final(v)@) == pview(old(v)@) + fold_chunk_105(),
{
    let ghost o = pview(v@);
    push_pair(v, '\u{4B6}', '\u{4B7}');
    push_pair(v, '\u{4B7}', '\u{4B6}');
    push_pair(v, '\u{4B8}', '\u{4B9}');
    push_pair(v, '\u{4B9}', '\u{4B8}');
    push_pair(v, '\u{4BA}', '\u{4BB}');
    push_pair(v, '\u{4BB}', '\u{4BA}');
    push_pair(v, '\u{4BC}', '\u{4BD}');
    push_pair(v, '\u{4BD}', '\u{4BC}');
    assert(pview(v@) =~= o + fold_chunk_105());
}

fn push_fold_chunk_106(v: &mut Vec<FoldPair>)
    ensures
        pview(final(v)@) == pview(old(v)@) + fold_chunk_106(),
{
    let ghost o = pview(v@);
    push_pair(v, '\u{4BE}', '\u{4BF}');
    push_pair(v, '\u{4BF}', '\u{4BE}');
    push_pair(v, '\u{4C0}', '\u{4CF}');
    push_pair(v, '\u{4C1}', '\u{4C2}');
    push_pair(v, '\u{4C2}', '\u{4C1}');
    push_pair(v, '\u{4C3}', '\u{4C4}');
    push_pair(v, '\u{4C4}', '\u{4C3}');
    push_pair(v, '\u{4C5}', '\u{4C6}');
    assert(pview(v@) =~= o + fold_chunk_106());
}

fn push_fold_chunk_107(v: &mut Vec<FoldPair>)
    ensures
        pview(final(v)@) == pview(old(v)@) + fold_chunk_107(),
{
    let ghost o = pview(v@);
    push_pair(v, '\u{4C6}', '\u{4C5}');
    push_pair(v, '\u{4C7}', '\u{4C8}');
    push_pair(v, '\u{4C8}', '\u{4C7}');
    push_pair(v, '\u{4C9}', '\u{4CA}');
    push_pair(v, '\u{4CA}', '\u{4C9}');
    push_pair(v, '\u{4CB}', '\u{4CC}');
    push_pair(v, '\u{4CC}', '\u{4CB}');
    push_pair(v, '\u{4CD}', '\u{4CE}');
    assert(pview(v@) =~= o + fold_chunk_107());
}

fn push_fold_chunk_108(v: &mut Vec<FoldPair>)
    ensures
        pview(final(v)@) == pview(old(v)@) + fold_chunk_108(),
{
    let ghost o = pview(v@);
    push_pair(v, '\u{4CE}', '\u{4CD}');
    push_pair(v, '\u{4CF}', '\u{4C0}');
    push_pair(v, '\u{4D0}', '\u{4D1}');
    push_pair(v, '\u{4D1}', '\u{4D0}');
    push_pair(v, '\u{4D2}', '\u{4D3}');
    push_pair(v, '\u{4D3}', '\u{4D2}');
    push_pair(v, '\u{4D4}', '\u{4D5}');
    push_pair(v, '\u{4D5}', '\u{4D4}');
    assert(pview(v@) =~= o + fold_chunk_108());
}

fn push_fold_chunk_109(v: &mut Vec<FoldPair>)
    ensures
        pview(final(v)@) == pview(old(v)@) + fold_chunk_109(),
{
    let ghost o = pview(v@);
    push_pair(v, '\u{4D6}', '\u{4D7}');
    push_pair(v, '\u{4D7}', '\u{4D6}');
    push_pair(v, '\u{4D8}', '\u{4D9}');
    push_pair(v, '\u{4D9}', '\u{4D8}');
    push_pair(v, '\u{4DA}', '\u{4DB}');
    push_pair(v, '\u{4DB}', '\u{4DA}');
    push_pair(v, '\u{4DC}', '\u{4DD}');
    push_pair(v, '\u{4DD}', '\u{4DC}');
    assert(pview(v@) =~= o + fold_chunk_109());
}

fn push_fold_chunk_110(v: &mut Vec<FoldPair>)
    ensures
        pview(final(v)@) == pview(old(v)@) + fold_chunk_110(),
{
    let ghost o = pview(v@);
    push_pair(v, '\u{4DE}', '\u{4DF}');
    push_pair(v, '\u{4DF}', '\u{4DE}');
    push_pair(v, '\u{4E0}', '\u{4E1}');
    push_pair(v, '\u{4E1}', '\u{4E0}');
    push_pair(v, '\u{4E2}', '\u{4E3}');
    push_pair(v, '\u{4E3}', '\u{4E2}');
    push_pair(v, '\u{4E4}', '\u{4E5}');
    push_pair(v, '\u{4E5}', '\u{4E4}');
    assert(pview(v@) =~= o + fold_chunk_110());
}

fn push_fold_chunk_111(v: &mut Vec<FoldPair>)
    ensures
        pview(final(v)@) == pview(old(v)@) + fold_chunk_111(),
{
    let ghost o = pview(v@);
    push_pair(v, '\u{4E6}', '\u{4E7}');
    push_pair(v, '\u{4E7}', '\u{4E6}');
    push_pair(v, '\u{4E8}', '\u{4E9}');
    push_pair(v, '\u{4E9}', '\u{4E8}');
    push_pair(v, '\u{4EA}', '\u{4EB}');
    push_pair(v, '\u{4EB}', '\u{4EA}');
    push_pair(v, '\u{4EC}', '\u{4ED}');
    push_pair(v, '\u{4ED}', '\u{4EC}');
    assert(pview(v@) =~= o + fold_chunk_111());
}

fn push_fold_chunk_112(v: &mut Vec<FoldPair>)
    ensures
        pview(final(v)@) == pview(old(v)@) + fold_chunk_112(),
{
    let ghost o = pview(v@);
    push_pair(v, '\u{4EE}', '\u{4EF}');
    push_pair(v, '\u{4EF}', '\u{4EE}');
    push_pair(v, '\u{4F0}', '\u{4F1}');
    push_pair(v, '\u{4F1}', '\u{4F0}');
    push_pair(v, '\u{4F2}', '\u{4F3}');
    push_pair(v, '\u{4F3}', '\u{4F2}');
    push_pair(v, '\u{4F4}', '\u{4F5}');
    push_pair(v, '\u{4F5}', '\u{4F4}');
    assert(pview(v@) =~= o + fold_chunk_112());
}

fn push_fold_chunk_113(v: &mut Vec<FoldPair>)
    ensures
        pview(final(v)@) == pview(old(v)@) + fold_chunk_113(),
{
    let ghost o = pview(v@);
    push_pair(v, '\u{4F6}', '\u{4F7}');
    push_pair(v, '\u{4F7}', '\u{4F6}');
    push_pair(v, '\u{4F8}', '\u{4F9}');
    push_pair(v, '\u{4F9}', '\u{4F8}');
    push_pair(v, '\u{4FA}', '\u{4FB}');
    push_pair(v, '\u{4FB}', '\u{4FA}');
    push_pair(v, '\u{4FC}', '\u{4FD}');
    push_pair(v, '\u{4FD}', '\u{4FC}');
    assert(pview(v@) =~= o + fold_chunk_113());
}

fn push_fold_chunk_114(v: &mut Vec<FoldPair>)
    ensures
        pview(final(v)@) == pview(old(v)@) + fold_chunk_114(),
{
    let ghost o = pview(v@);
    push_pair(v, '\u{4FE}', '\u{4FF}');
    push_pair(v, '\u{4FF}', '\u{4FE}');
    push_pair(v, '\u{500}', '\u{501}');
    push_pair(v, '\u{501}', '\u{500}');
    push_pair(v, '\u{502}', '\u{503}');
    push_pair(v, '\u{503}', '\u{502}');
    push_pair(v, '\u{504}', '\u{505}');
    push_pair(v, '\u{505}', '\u{504}');
    assert(pview(v@) =~= o + fold_chunk_114());
}

fn push_fold_chunk_115(v: &mut Vec<FoldPair>)
    ensures
        pview(final(v)@) == pview(old(v)@) + fold_chunk_115(),
{
    let ghost o = pview(v@);
    push_pair(v, '\u{506}', '\u{507}');
    push_pair(v, '\u{507}', '\u{506}');
    push_pair(v, '\u{508}', '\u{509}');
    push_pair(v, '\u{509}', '\u{508}');
    push_pair(v, '\u{50A}', '\u{50B}');
    push_pair(v, '\u{50B}', '\u{50A}');
    push_pair(v, '\u{50C}', '\u{50D}');
    push_pair(v, '\u{50D}', '\u{50C}');
    assert(pview(v@) =~= o + fold_chunk_115());
}

fn push_fold_chunk_116(v: &mut Vec<FoldPair>)
    ensures
        pview(final(v)@) == pview(old(v)@) + fold_chunk_116(),
{
    let ghost o = pview(v@);
    push_pair(v, '\u{50E}', '\u{50F}');
    push_pair(v, '\u{50F}', '\u{50E}');
    push_pair(v, '\u{510}', '\u{511}');
    push_pair(v, '\u{511}', '\u{510}');
    push_pair(v, '\u{512}', '\u{513}');
    push_pair(v, '\u{513}', '\u{512}');
    push_pair(v, '\u{514}', '\u{515}');
    push_pair(v, '\u{515}', '\u{514}');
    assert(pview(v@) =~= o + fold_chunk_116());
}

fn push_fold_chunk_117(v: &mut Vec<FoldPair>)
    ensures
        pview(final(v)@) == pview(old(v)@) + fold_chunk_117(),
{
    let ghost o = pview(v@);
    push_pair(v, '\u{516}', '\u{517}');
    push_pair(v, '\u{517}', '\u{516}');
    push_pair(v, '\u{518}', '\u{519}');
    push_pair(v, '\u{519}', '\u{518}');
    push_pair(v, '\u{51A}', '\u{51B}');
    push_pair(v, '\u{51B}', '\u{51A}');
    push_pair(v, '\u{51C}', '\u{51D}');
    push_pair(v, '\u{51D}', '\u{51C}');
    assert(pview(v@) =~= o + fold_chunk_117());
}

fn push_fold_chunk_118(v: &mut Vec<FoldPair>)
    ensures
        pview(final(v)@) == pview(old(v)@) + fold_chunk_118(),
{
    let ghost o = pview(v@);
    push_pair(v, '\u{51E}', '\u{51F}');
    push_pair(v, '\u{51F}', '\u{51E}');
    push_pair(v, '\u{520}', '\u{521}');
    push_pair(v, '\u{521}', '\u{520}');
    push_pair(v, '\u{522}', '\u{523}');
    push_pair(v, '\u{523}', '\u{522}');
    push_pair(v, '\u{524}', '\u{525}');
    push_pair(v, '\u{525}', '\u{524}');
    assert(pview(v@) =~= o + fold_chunk_118());
}

fn push_fold_chunk_119(v: &mut Vec<FoldPair>)
    ensures
        pview(final(v)@) == pview(old(v)@) + fold_chunk_119(),
{
    let ghost o = pview(v@);
    push_pair(v, '\u{526}', '\u{527}');
    push_pair(v, '\u{527}', '\u{526}');
    push_pair(v, '\u{528}', '\u{529}');
    push_pair(v, '\u{529}', '\u{528}');
    push_pair(v, '\u{52A}', '\u{52B}');
    push_pair(v, '\u{52B}', '\u{52A}');
    push_pair(v, '\u{52C}', '\u{52D}');
    push_pair(v, '\u{52D}', '\u{52C}');
    assert(pview(v@) =~= o + fold_chunk_119());
}

fn push_fold_chunk_120(v: &mut Vec<FoldPair>)
    ensures
        pview(final(v)@) == pview(old(v)@) + fold_chunk_120(),
{
    let ghost o = pview(v@);
    push_pair(v, '\u{52E}', '\u{52F}');
    push_pair(v, '\u{52F}', '\u{52E}');
    push_pair(v, '\u{531}', '\u{561}');
    push_pair(v, '\u{532}', '\u{562}');
    push_pair(v, '\u{533}', '\u{563}');
    push_pair(v, '\u{534}', '\u{564}');
    push_pair(v, '\u{535}', '\u{565}');
    push_pair(v, '\u{536}', '\u{566}');
    assert(pview(v@) =~= o + fold_chunk_120());
}

fn push_fold_chunk_121(v: &mut Vec<FoldPair>)
    ensures
        pview(final(v)@) == pview(old(v)@) + fold_chunk_121(),
{
    let ghost o = pview(v@);
    push_pair(v, '\u{537}', '\u{567}');
    push_pair(v, '\u{538}', '\u{568}');
    push_pair(v, '\u{539}', '\u{569}');
    push_pair(v, '\u{53A}', '\u{56A}');
    push_pair(v, '\u{53B}', '\u{56B}');
    push_pair(v, '\u{53C}', '\u{56C}');
    push_pair(v, '\u{53D}', '\u{56D}');
    push_pair(v, '\u{53E}', '\u{56E}');
    assert(pview(v@) =~= o + fold_chunk_121());
}

fn push_fold_chunk_122(v: &mut Vec<FoldPair>)
    ensures
        pview(final(v)@) == pview(old(v)@) + fold_chunk_122(),
{
    let ghost o = pview(v@);
    push_pair(v, '\u{53F}', '\u{56F}');
    push_pair(v, '\u{540}', '\u{570}');
    push_pair(v, '\u{541}', '\u{571}');
    push_pair(v, '\u{542}', '\u{572}');
    push_pair(v, '\u{543}', '\u{573}');
    push_pair(v, '\u{544}', '\u{574}');
    push_pair(v, '\u{545}', '\u{575}');
    push_pair(v, '\u{546}', '\u{576}');
    assert(pview(v@) =~= o + fold_chunk_122());
}

fn push_fold_chunk_123(v: &mut Vec<FoldPair>)
    ensures
        pview(final(v)@) == pview(old(v)@) + fold_chunk_123(),
{
    let ghost o = pview(v@);
    push_pair(v, '\u{547}', '\u{577}');
    push_pair(v, '\u{548}', '\u{578}');
    push_pair(v, '\u{549}', '\u{579}');
    push_pair(v, '\u{54A}', '\u{57A}');
    push_pair(v, '\u{54B}', '\u{57B}');
    push_pair(v, '\u{54C}', '\u{57C}');
    push_pair(v, '\u{54D}', '\u{57D}');
    push_pair(v, '\u{54E}', '\u{57E}');
    assert(pview(v@) =~= o + fold_chunk_123());
}

fn push_fold_chunk_124(v: &mut Vec<FoldPair>)
    ensures
        pview(final(v)@) == pview(old(v)@) + fold_chunk_124(),
{
    let ghost o = pview(v@);
    push_pair(v, '\u{54F}', '\u{57F}');
    push_pair(v, '\u{550}', '\u{580}');
    push_pair(v, '\u{551}', '\u{581}');
    push_pair(v, '\u{552}', '\u{582}');
    push_pair(v, '\u{553}', '\u{583}');
    push_pair(v, '\u{554}', '\u{584}');
    push_pair(v, '\u{555}', '\u{585}');
    push_pair(v, '\u{556}', '\u{586}');
    assert(pview(v@) =~= o + fold_chunk_124());
}

fn push_fold_chunk_125(v: &mut Vec<FoldPair>)
    ensures
        pview(final(v)@) == pview(old(v)@) + fold_chunk_125(),
{
    let ghost o = pview(v@);
    push_pair(v, '\u{561}', '\u{531}');
    push_pair(v, '\u{562}', '\u{532}');
    push_pair(v, '\u{563}', '\u{533}');
    push_pair(v, '\u{564}', '\u{534}');
    push_pair(v, '\u{565}', '\u{535}');
    push_pair(v, '\u{566}', '\u{536}');
    push_pair(v, '\u{567}', '\u{537}');
    push_pair(v, '\u{568}', '\u{538}');
    assert(pview(v@) =~= o + fold_chunk_125());
}

fn push_fold_chunk_126(v: &mut Vec<FoldPair>)
    ensures
        pview(final(v)@) == pview(old(v)@) + fold_chunk_126(),
{
    let ghost o = pview(v@);
    push_pair(v, '\u{569}', '\u{539}');
    push_pair(v, '\u{56A}', '\u{53A}');
    push_pair(v, '\u{56B}', '\u{53B}');
    push_pair(v, '\u{56C}', '\u{53C}');
    push_pair(v, '\u{56D}', '\u{53D}');
    push_pair(v, '\u{56E}', '\u{53E}');
    push_pair(v, '\u{56F}', '\u{53F}');
    push_pair(v, '\u{570}', '\u{540}');
    assert(pview(v@) =~= o + fold_chunk_126());
}

fn push_fold_chunk_127(v: &mut Vec<FoldPair>)
    ensures
        pview(final(v)@) == pview(old(v)@) + fold_chunk_127(),
{
    let ghost o = pview(v@);
    push_pair(v, '\u{571}', '\u{541}');
    push_pair(v, '\u{572}', '\u{542}');
    push_pair(v, '\u{573}', '\u{543}');
    push_pair(v, '\u{574}', '\u{544}');
    push_pair(v, '\u{575}', '\u{545}');
    push_pair(v, '\u{576}', '\u{546}');
    push_pair(v, '\u{577}', '\u{547}');
    push_pair(v, '\u{578}', '\u{548}');
    assert(pview(v@) =~= o + fold_chunk_127());
}

fn push_fold_chunk_128(v: &mut Vec<FoldPair>)
    ensures
        pview(final(v)@) == pview(old(v)@) + fold_chunk_128(),
{
    let ghost o = pview(v@);
    push_pair(v, '\u{579}', '\u{549}');
    push_pair(v, '\u{57A}', '\u{54A}');
    push_pair(v, '\u{57B}', '\u{54B}');
    push_pair(v, '\u{57C}', '\u{54C}');
    push_pair(v, '\u{57D}', '\u{54D}');
    push_pair(v, '\u{57E}', '\u{54E}');
    push_pair(v, '\u{57F}', '\u{54F}');
    push_pair(v, '\u{580}', '\u{550}');
    assert(pview(v@) =~= o + fold_chunk_128());
}

fn push_fold_chunk_129(v: &mut Vec<FoldPair>)
    ensures
        pview(final(v)@) == pview(old(v)@) + fold_chunk_129(),
{
    let ghost o = pview(v@);
    push_pair(v, '\u{581}', '\u{551}');
    push_pair(v, '\u{582}', '\u{552}');
    push_pair(v, '\u{583}', '\u{553}');
    push_pair(v, '\u{584}', '\u{554}');
    push_pair(v, '\u{585}', '\u{555}');
    push_pair(v, '\u{586}', '\u{556}');
    push_pair(v, '\u{10A0}', '\u{2D00}');
    push_pair(v, '\u{10A1}', '\u{2D01}');
    assert(pview(v@) =~= o + fold_chunk_129());
}

fn push_fold_chunk_130(v: &mut Vec<FoldPair>)
    ensures
        pview(final(v)@) == pview(old(v)@) + fold_chunk_130(),
{
    let ghost o = pview(v@);
    push_pair(v, '\u{10A2}', '\u{2D02}');
    push_pair(v, '\u{10A3}', '\u{2D03}');
    push_pair(v, '\u{10A4}', '\u{2D04}');
    push_pair(v, '\u{10A5}', '\u{2D05}');
    push_pair(v, '\u{10A6}', '\u{2D06}');
    push_pair(v, '\u{10A7}', '\u{2D07}');
    push_pair(v, '\u{10A8}', '\u{2D08}');
    push_pair(v, '\u{10A9}', '\u{2D09}');
    assert(pview(v@) =~= o + fold_chunk_130());
}

fn push_fold_chunk_131(v: &mut Vec<FoldPair>)
    ensures
        pview(final(v)@) == pview(old(v)@) + fold_chunk_131(),
{
    let ghost o = pview(v@);
    push_pair(v, '\u{10AA}', '\u{2D0A}');
    push_pair(v, '\u{10AB}', '\u{2D0B}');
    push_pair(v, '\u{10AC}', '\u{2D0C}');
    push_pair(v, '\u{10AD}', '\u{2D0D}');
    push_pair(v, '\u{10AE}', '\u{2D0E}');
    push_pair(v, '\u{10AF}', '\u{2D0F}');
    push_pair(v, '\u{10B0}', '\u{2D10}');
    push_pair(v, '\u{10B1}', '\u{2D11}');
    assert(pview(v@) =~= o + fold_chunk_131());
}

fn push_fold_chunk_132(v: &mut Vec<FoldPair>)
    ensures
        pview(final(v)@) == pview(old(v)@) + fold_chunk_132(),
{
    let ghost o = pview(v@);
    push_pair(v, '\u{10B2}', '\u{2D12}');
    push_pair(v, '\u{10B3}', '\u{2D13}');
    push_pair(v, '\u{10B4}', '\u{2D14}');
    push_pair(v, '\u{10B5}', '\u{2D15}');
    push_pair(v, '\u{10B6}', '\u{2D16}');
    push_pair(v, '\u{10B7}', '\u{2D17}');
    push_pair(v, '\u{10B8}', '\u{2D18}');
    push_pair(v, '\u{10B9}', '\u{2D19}');
    assert(pview(v@) =~= o + fold_chunk_132());
}

fn push_fold_chunk_133(v: &mut Vec<FoldPair>)
    ensures
        pview(final(v)@) == pview(old(v)@) + fold_chunk_133(),
{
    let ghost o = pview(v@);
    push_pair(v, '\u{10BA}', '\u{2D1A}');
    push_pair(v, '\u{10BB}', '\u{2D1B}');
    push_pair(v, '\u{10BC}', '\u{2D1C}');
    push_pair(v, '\u{10BD}', '\u{2D1D}');
    push_pair(v, '\u{10BE}', '\u{2D1E}');
    push_pair(v, '\u{10BF}', '\u{2D1F}');
    push_pair(v, '\u{10C0}', '\u{2D20}');
    push_pair(v, '\u{10C1}', '\u{2D21}');
    assert(pview(v@) =~= o + fold_chunk_133());
}

fn push_fold_chunk_134(v: &mut Vec<FoldPair>)
    ensures
        pview(final(v)@) == pview(old(v)@) + fold_chunk_134(),
{
    let ghost o = pview(v@);
    push_pair(v, '\u{10C2}', '\u{2D22}');
    push_pair(v, '\u{10C3}', '\u{2D23}');
    push_pair(v, '\u{10C4}', '\u{2D24}');
    push_pair(v, '\u{10C5}', '\u{2D25}');
    push_pair(v, '\u{10C7}', '\u{2D27}');
    push_pair(v, '\u{10CD}', '\u{2D2D}');
    push_pair(v, '\u{10D0}', '\u{1C90}');
    push_pair(v, '\u{10D1}', '\u{1C91}');
    assert(pview(v@) =~= o + fold_chunk_134());
}

fn push_fold_chunk_135(v: &mut Vec<FoldPair>)
    ensures
        pview(final(v)@) == pview(old(v)@) + fold_chunk_135(),
{
    let ghost o = pview(v@);
    push_pair(v, '\u{10D2}', '\u{1C92}');
    push_pair(v, '\u{10D3}', '\u{1C93}');
    push_pair(v, '\u{10D4}', '\u{1C94}');
    push_pair(v, '\u{10D5}', '\u{1C95}');
    push_pair(v, '\u{10D6}', '\u{1C96}');
    push_pair(v, '\u{10D7}', '\u{1C97}');
    push_pair(v, '\u{10D8}', '\u{1C98}');
    push_pair(v, '\u{10D9}', '\u{1C99}');
    assert(pview(v@) =~= o + fold_chunk_135());
}

fn push_fold_chunk_136(v: &mut Vec<FoldPair>)
    ensures
        pview(final(v)@) == pview(old(v)@) + fold_chunk_136(),
{
    let ghost o = pview(v@);
    push_pair(v, '\u{10DA}', '\u{1C9A}');
    push_pair(v, '\u{10DB}', '\u{1C9B}');
    push_pair(v, '\u{10DC}', '\u{1C9C}');
    push_pair(v, '\u{10DD}', '\u{1C9D}');
    push_pair(v, '\u{10DE}', '\u{1C9E}');
    push_pair(v, '\u{10DF}', '\u{1C9F}');
    push_pair(v, '\u{10E0}', '\u{1CA0}');
    push_pair(v, '\u{10E1}', '\u{1CA1}');
    assert(pview(v@) =~= o + fold_chunk_136());
}

fn push_fold_chunk_137(v: &mut Vec<FoldPair>)
    ensures
        pview(final(v)@) == pview(old(v)@) + fold_chunk_137(),
{
    let ghost o = pview(v@);
    push_pair(v, '\u{10E2}', '\u{1CA2}');
    push_pair(v, '\u{10E3}', '\u{1CA3}');
    push_pair(v, '\u{10E4}', '\u{1CA4}');
    push_pair(v, '\u{10E5}', '\u{1CA5}');
    push_pair(v, '\u{10E6}', '\u{1CA6}');
    push_pair(v, '\u{10E7}', '\u{1CA7}');
    push_pair(v, '\u{10E8}', '\u{1CA8}');
    push_pair(v, '\u{10E9}', '\u{1CA9}');
    assert(pview(v@) =~= o + fold_chunk_137());
}

fn push_fold_chunk_138(v: &mut Vec<FoldPair>)
    ensures
        pview(final(v)@) == pview(old(v)@) + fold_chunk_138(),
{
    let ghost o = pview(v@);
    push_pair(v, '\u{10EA}', '\u{1CAA}');
    push_pair(v, '\u{10EB}', '\u{1CAB}');
    push_pair(v, '\u{10EC}', '\u{1CAC}');
    push_pair(v, '\u{10ED}', '\u{1CAD}');
    push_pair(v, '\u{10EE}', '\u{1CAE}');
    push_pair(v, '\u{10EF}', '\u{1CAF}');
    push_pair(v, '\u{10F0}', '\u{1CB0}');
    push_pair(v, '\u{10F1}', '\u{1CB1}');
    assert(pview(v@) =~= o + fold_chunk_138());
}

fn push_fold_chunk_139(v: &mut Vec<FoldPair>)
    ensures
        pview(final(v)@) == pview(old(v)@) + fold_chunk_139(),
{
    let ghost o = pview(v@);
    push_pair(v, '\u{10F2}', '\u{1CB2}');
    push_pair(v, '\u{10F3}', '\u{1CB3}');
    push_pair(v, '\u{10F4}', '\u{1CB4}');
    push_pair(v, '\u{10F5}', '\u{1CB5}');
    push_pair(v, '\u{10F6}', '\u{1CB6}');
    push_pair(v, '\u{10F7}', '\u{1CB7}');
    push_pair(v, '\u{10F8}', '\u{1CB8}');
    push_pair(v, '\u{10F9}', '\u{1CB9}');
    assert(pview(v@) =~= o + fold_chunk_139());
}

fn push_fold_chunk_140(v: &mut Vec<FoldPair>)
    ensures
        pview(final(v)@) == pview(old(v)@) + fold_chunk_140(),
{
    let ghost o = pview(v@);
    push_pair(v, '\u{10FA}', '\u{1CBA}');
    push_pair(v, '\u{10FD}', '\u{1CBD}');
    push_pair(v, '\u{10FE}', '\u{1CBE}');
    push_pair(v, '\u{10FF}', '\u{1CBF}');
    push_pair(v, '\u{13A0}', '\u{AB70}');
    push_pair(v, '\u{13A1}', '\u{AB71}');
    push_pair(v, '\u{13A2}', '\u{AB72}');
    push_pair(v, '\u{13A3}', '\u{AB73}');
    assert(pview(v@) =~= o + fold_chunk_140());
}

fn push_fold_chunk_141(v: &mut Vec<FoldPair>)
    ensures
        pview(final(v)@) == pview(old(v)@) + fold_chunk_141(),
{
    let ghost o = pview(v@);
    push_pair(v, '\u{13A4}', '\u{AB74}');
    push_pair(v, '\u{13A5}', '\u{AB75}');
    push_pair(v, '\u{13A6}', '\u{AB76}');
    push_pair(v, '\u{13A7}', '\u{AB77}');
    push_pair(v, '\u{13A8}', '\u{AB78}');
    push_pair(v, '\u{13A9}', '\u{AB79}');
    push_pair(v, '\u{13AA}', '\u{AB7A}');
    push_pair(v, '\u{13AB}', '\u{AB7B}');
    assert(pview(v@) =~= o + fold_chunk_141());
}

fn push_fold_chunk_142(v: &mut Vec<FoldPair>)
    ensures
        pview(final(v)@) == pview(old(v)@) + fold_chunk_142(),
{
    let ghost o = pview(v@);
    push_pair(v, '\u{13AC}', '\u{AB7C}');
    push_pair(v, '\u{13AD}', '\u{AB7D}');
    push_pair(v, '\u{13AE}', '\u{AB7E}');
    push_pair(v, '\u{13AF}', '\u{AB7F}');
    push_pair(v, '\u{13B0}', '\u{AB80}');
    push_pair(v, '\u{13B1}', '\u{AB81}');
    push_pair(v, '\u{13B2}', '\u{AB82}');
    push_pair(v, '\u{13B3}', '\u{AB83}');
    assert(pview(v@) =~= o + fold_chunk_142());
}

fn push_fold_chunk_143(v: &mut Vec<FoldPair>)
    ensures
        pview(final(v)@) == pview(old(v)@) + fold_chunk_143(),
{
    let ghost o = pview(v@);
    push_pair(v, '\u{13B4}', '\u{AB84}');
    push_pair(v, '\u{13B5}', '\u{AB85}');
    push_pair(v, '\u{13B6}', '\u{AB86}');
    push_pair(v, '\u{13B7}', '\u{AB87}');
    push_pair(v, '\u{13B8}', '\u{AB88}');
    push_pair(v, '\u{13B9}', '\u{AB89}');
    push_pair(v, '\u{13BA}', '\u{AB8A}');
    push_pair(v, '\u{13BB}', '\u{AB8B}');
    assert(pview(v@) =~= o + fold_chunk_143());
}

fn push_fold_chunk_144(v: &mut Vec<FoldPair>)
    ensures
        pview(final(v)@) == pview(old(v)@) + fold_chunk_144(),
{
    let ghost o = pview(v@);
    push_pair(v, '\u{13BC}', '\u{AB8C}');
    push_pair(v, '\u{13BD}', '\u{AB8D}');
    push_pair(v, '\u{13BE}', '\u{AB8E}');
    push_pair(v, '\u{13BF}', '\u{AB8F}');
    push_pair(v, '\u{13C0}', '\u{AB90}');
    push_pair(v, '\u{13C1}', '\u{AB91}');
    push_pair(v, '\u{13C2}', '\u{AB92}');
    push_pair(v, '\u{13C3}', '\u{AB93}');
    assert(pview(v@) =~= o + fold_chunk_144());
}

fn push_fold_chunk_145(v: &mut Vec<FoldPair>)
    ensures
        pview(final(v)@) == pview(old(v)@) + fold_chunk_145(),
{
    let ghost o = pview(v@);
    push_pair(v, '\u{13C4}', '\u{AB94}');
    push_pair(v, '\u{13C5}', '\u{AB95}');
    push_pair(v, '\u{13C6}', '\u{AB96}');
    push_pair(v, '\u{13C7}', '\u{AB97}');
    push_pair(v, '\u{13C8}', '\u{AB98}');
    push_pair(v, '\u{13C9}', '\u{AB99}');
    push_pair(v, '\u{13CA}', '\u{AB9A}');
    push_pair(v, '\u{13CB}', '\u{AB9B}');
    assert(pview(v@) =~= o + fold_chunk_145());
}

fn push_fold_chunk_146(v: &mut Vec<FoldPair>)
    ensures
        pview(final(v)@) == pview(old(v)@) + fold_chunk_146(),
{
    let ghost o = pview(v@);
    push_pair(v, '\u{13CC}', '\u{AB9C}');
    push_pair(v, '\u{13CD}', '\u{AB9D}');
    push_pair(v, '\u{13CE}', '\u{AB9E}');
    push_pair(v, '\u{13CF}', '\u{AB9F}');
    push_pair(v, '\u{13D0}', '\u{ABA0}');
    push_pair(v, '\u{13D1}', '\u{ABA1}');
    push_pair(v, '\u{13D2}', '\u{ABA2}');
    push_pair(v, '\u{13D3}', '\u{ABA3}');
    assert(pview(v@) =~= o + fold_chunk_146());
}

fn push_fold_chunk_147(v: &mut Vec<FoldPair>)
    ensures
        pview(final(v)@) == pview(old(v)@) + fold_chunk_147(),
{
    let ghost o = pview(v@);
    push_pair(v, '\u{13D4}', '\u{ABA4}');
    push_pair(v, '\u{13D5}', '\u{ABA5}');
    push_pair(v, '\u{13D6}', '\u{ABA6}');
    push_pair(v, '\u{13D7}', '\u{ABA7}');
    push_pair(v, '\u{13D8}', '\u{ABA8}');
    push_pair(v, '\u{13D9}', '\u{ABA9}');
    push_pair(v, '\u{13DA}', '\u{ABAA}');
    push_pair(v, '\u{13DB}', '\u{ABAB}');
    assert(pview(v@) =~= o + fold_chunk_147());
}

fn push_fold_chunk_148(v: &mut Vec<FoldPair>)
    ensures
        pview(final(v)@) == pview(old(v)@) + fold_chunk_148(),
{
    let ghost o = pview(v@);
    push_pair(v, '\u{13DC}', '\u{ABAC}');
    push_pair(v, '\u{13DD}', '\u{ABAD}');
    push_pair(v, '\u{13DE}', '\u{ABAE}');
    push_pair(v, '\u{13DF}', '\u{ABAF}');
    push_pair(v, '\u{13E0}', '\u{ABB0}');
    push_pair(v, '\u{13E1}', '\u{ABB1}');
    push_pair(v, '\u{13E2}', '\u{ABB2}');
    push_pair(v, '\u{13E3}', '\u{ABB3}');
    assert(pview(v@) =~= o + fold_chunk_148());
}

fn push_fold_chunk_149(v: &mut Vec<FoldPair>)
    ensures
        pview(final(v)@) == pview(old(v)@) + fold_chunk_149(),
{
    let ghost o = pview(v@);
    push_pair(v, '\u{13E4}', '\u{ABB4}');
    push_pair(v, '\u{13E5}', '\u{ABB5}');
    push_pair(v, '\u{13E6}', '\u{ABB6}');
    push_pair(v, '\u{13E7}', '\u{ABB7}');
    push_pair(v, '\u{13E8}', '\u{ABB8}');
    push_pair(v, '\u{13E9}', '\u{ABB9}');
    push_pair(v, '\u{13EA}', '\u{ABBA}');
    push_pair(v, '\u{13EB}', '\u{ABBB}');
    assert(pview(v@) =~= o + fold_chunk_149());
}

fn push_fold_chunk_150(v: &mut Vec<FoldPair>)
    ensures
        pview(final(v)@) == pview(old(v)@) + fold_chunk_150(),
{
    let ghost o = pview(v@);
    push_pair(v, '\u{13EC}', '\u{ABBC}');
    push_pair(v, '\u{13ED}', '\u{ABBD}');
    push_pair(v, '\u{13EE}', '\u{ABBE}');
    push_pair(v, '\u{13EF}', '\u{ABBF}');
    push_pair(v, '\u{13F0}', '\u{13F8}');
    push_pair(v, '\u{13F1}', '\u{13F9}');
    push_pair(v, '\u{13F2}', '\u{13FA}');
    push_pair(v, '\u{13F3}', '\u{13FB}');
    assert(pview(v@) =~= o + fold_chunk_150());
}

fn push_fold_chunk_151(v: &mut Vec<FoldPair>)
    ensures
        pview(final(v)@) == pview(old(v)@) + fold_chunk_151(),
{
    let ghost o = pview(v@);
    push_pair(v, '\u{13F4}', '\u{13FC}');
    push_pair(v, '\u{13F5}', '\u{13FD}');
    push_pair(v, '\u{13F8}', '\u{13F0}');
    push_pair(v, '\u{13F9}', '\u{13F1}');
    push_pair(v, '\u{13FA}', '\u{13F2}');
    push_pair(v, '\u{13FB}', '\u{13F3}');
    push_pair(v, '\u{13FC}', '\u{13F4}');
    push_pair(v, '\u{13FD}', '\u{13F5}');
    assert(pview(v@) =~= o + fold_chunk_151());
}

fn push_fold_chunk_152(v: &mut Vec<FoldPair>)
    ensures
        pview(final(v)@) == pview(old(v)@) + fold_chunk_152(),
{
    let ghost o = pview(v@);
    push_pair(v, '\u{1C80}', '\u{412}');
    push_pair(v, '\u{1C80}', '\u{432}');
    push_pair(v, '\u{1C81}', '\u{414}');
    push_pair(v, '\u{1C81}', '\u{434}');
    push_pair(v, '\u{1C82}', '\u{41E}');
    push_pair(v, '\u{1C82}', '\u{43E}');
    push_pair(v, '\u{1C83}', '\u{421}');
    push_pair(v, '\u{1C83}', '\u{441}');
    assert(pview(v@) =~= o + fold_chunk_152());
}

fn push_fold_chunk_153(v: &mut Vec<FoldPair>)
    ensures
        pview(final(v)@) == pview(old(v)@) + fold_chunk_153(),
{
    let ghost o = pview(v@);
    push_pair(v, '\u{1C84}', '\u{422}');
    push_pair(v, '\u{1C84}', '\u{442}');
    push_pair(v, '\u{1C84}', '\u{1C85}');
    push_pair(v, '\u{1C85}', '\u{422}');
    push_pair(v, '\u{1C85}', '\u{442}');
    push_pair(v, '\u{1C85}', '\u{1C84}');
    push_pair(v, '\u{1C86}', '\u{42A}');
    push_pair(v, '\u{1C86}', '\u{44A}');
    assert(pview(v@) =~= o + fold_chunk_153());
}

fn push_fold_chunk_154(v: &mut Vec<FoldPair>)
    ensures
        pview(final(v)@) == pview(old(v)@) + fold_chunk_154(),
{
    let ghost o = pview(v@);
    push_pair(v, '\u{1C87}', '\u{462}');
    push_pair(v, '\u{1C87}', '\u{463}');
    push_pair(v, '\u{1C88}', '\u{A64A}');
    push_pair(v, '\u{1C88}', '\u{A64B}');
    push_pair(v, '\u{1C89}', '\u{1C8A}');
    push_pair(v, '\u{1C8A}', '\u{1C89}');
    push_pair(v, '\u{1C90}', '\u{10D0}');
    push_pair(v, '\u{1C91}', '\u{10D1}');
    assert(pview(v@) =~= o + fold_chunk_154());
}

fn push_fold_chunk_155(v: &mut Vec<FoldPair>)
    ensures
        pview(final(v)@) == pview(old(v)@) + fold_chunk_155(),
{
    let ghost o = pview(v@);
    push_pair(v, '\u{1C92}', '\u{10D2}');
    push_pair(v, '\u{1C93}', '\u{10D3}');
    push_pair(v, '\u{1C94}', '\u{10D4}');
    push_pair(v, '\u{1C95}', '\u{10D5}');
    push_pair(v, '\u{1C96}', '\u{10D6}');
    push_pair(v, '\u{1C97}', '\u{10D7}');
    push_pair(v, '\u{1C98}', '\u{10D8}');
    push_pair(v, '\u{1C99}', '\u{10D9}');
    assert(pview(v@) =~= o + fold_chunk_155());
}

fn push_fold_chunk_156(v: &mut Vec<FoldPair>)
    ensures
        pview(final(v)@) == pview(old(v)@) + fold_chunk_156(),
{
    let ghost o = pview(v@);
    push_pair(v, '\u{1C9A}', '\u{10DA}');
    push_pair(v, '\u{1C9B}', '\u{10DB}');
    push_pair(v, '\u{1C9C}', '\u{10DC}');
    push_pair(v, '\u{1C9D}', '\u{10DD}');
    push_pair(v, '\u{1C9E}', '\u{10DE}');
    push_pair(v, '\u{1C9F}', '\u{10DF}');
    push_pair(v, '\u{1CA0}', '\u{10E0}');
    push_pair(v, '\u{1CA1}', '\u{10E1}');
    assert(pview(v@) =~= o + fold_chunk_156());
}

fn push_fold_chunk_157(v: &mut Vec<FoldPair>)
    ensures
        pview(final(v)@) == pview(old(v)@) + fold_chunk_157(),
{
    let ghost o = pview(v@);
    push_pair(v, '\u{1CA2}', '\u{10E2}');
    push_pair(v, '\u{1CA3}', '\u{10E3}');
    push_pair(v, '\u{1CA4}', '\u{10E4}');
    push_pair(v, '\u{1CA5}', '\u{10E5}');
    push_pair(v, '\u{1CA6}', '\u{10E6}');
    push_pair(v, '\u{1CA7}', '\u{10E7}');
    push_pair(v, '\u{1CA8}', '\u{10E8}');
    push_pair(v, '\u{1CA9}', '\u{10E9}');
    assert(pview(v@) =~= o + fold_chunk_157());
}

fn push_fold_chunk_158(v: &mut Vec<FoldPair>)
    ensures
        pview(final(v)@) == pview(old(v)@) + fold_chunk_158(),
{
    let ghost o = pview(v@);
    push_pair(v, '\u{1CAA}', '\u{10EA}');
    push_pair(v, '\u{1CAB}', '\u{10EB}');
    push_pair(v, '\u{1CAC}', '\u{10EC}');
    push_pair(v, '\u{1CAD}', '\u{10ED}');
    push_pair(v, '\u{1CAE}', '\u{10EE}');
    push_pair(v, '\u{1CAF}', '\u{10EF}');
    push_pair(v, '\u{1CB0}', '\u{10F0}');
    push_pair(v, '\u{1CB1}', '\u{10F1}');
    assert(pview(v@) =~= o + fold_chunk_158());
}

fn push_fold_chunk_159(v: &mut Vec<FoldPair>)
    ensures
        pview(final(v)@) == pview(old(v)@) + fold_chunk_159(),
{
    let ghost o = pview(v@);
    push_pair(v, '\u{1CB2}', '\u{10F2}');
    push_pair(v, '\u{1CB3}', '\u{10F3}');
    push_pair(v, '\u{1CB4}', '\u{10F4}');
    push_pair(v, '\u{1CB5}', '\u{10F5}');
    push_pair(v, '\u{1CB6}', '\u{10F6}');
    push_pair(v, '\u{1CB7}', '\u{10F7}');
    push_pair(v, '\u{1CB8}', '\u{10F8}');
    push_pair(v, '\u{1CB9}', '\u{10F9}');
    assert(pview(v@) =~= o + fold_chunk_159());
}

fn push_fold_chunk_160(v: &mut Vec<FoldPair>)
    ensures
        pview(final(v)@) == pview(old(v)@) + fold_chunk_160(),
{
    let ghost o = pview(v@);
    push_pair(v, '\u{1CBA}', '\u{10FA}');
    push_pair(v, '\u{1CBD}', '\u{10FD}');
    push_pair(v, '\u{1CBE}', '\u{10FE}');
    push_pair(v, '\u{1CBF}', '\u{10FF}');
    push_pair(v, '\u{1D79}', '\u{A77D}');
    push_pair(v, '\u{1D7D}', '\u{2C63}');
    push_pair(v, '\u{1D8E}', '\u{A7C6}');
    push_pair(v, '\u{1E00}', '\u{1E01}');
    assert(pview(v@) =~= o + fold_chunk_160());
}

fn push_fold_chunk_161(v: &mut Vec<FoldPair>)
    ensures
        pview(final(v)@) == pview(old(v)@) + fold_chunk_161(),
{
    let ghost o = pview(v@);
    push_pair(v, '\u{1E01}', '\u{1E00}');
    push_pair(v, '\u{1E02}', '\u{1E03}');
    push_pair(v, '\u{1E03}', '\u{1E02}');
    push_pair(v, '\u{1E04}', '\u{1E05}');
    push_pair(v, '\u{1E05}', '\u{1E04}');
    push_pair(v, '\u{1E06}', '\u{1E07}');
    push_pair(v, '\u{1E07}', '\u{1E06}');
    push_pair(v, '\u{1E08}', '\u{1E09}');
    assert(pview(v@) =~= o + fold_chunk_161());
}

fn push_fold_chunk_162(v: &mut Vec<FoldPair>)
    ensures
        pview(final(v)@) == pview(old(v)@) + fold_chunk_162(),
{
    let ghost o = pview(v@);
    push_pair(v, '\u{1E09}', '\u{1E08}');
    push_pair(v, '\u{1E0A}', '\u{1E0B}');
    push_pair(v, '\u{1E0B}', '\u{1E0A}');
    push_pair(v, '\u{1E0C}', '\u{1E0D}');
    push_pair(v, '\u{1E0D}', '\u{1E0C}');
    push_pair(v, '\u{1E0E}', '\u{1E0F}');
    push_pair(v, '\u{1E0F}', '\u{1E0E}');
    push_pair(v, '\u{1E10}', '\u{1E11}');
    assert(pview(v@) =~= o + fold_chunk_162());
}

fn push_fold_chunk_163(v: &mut Vec<FoldPair>)
    ensures
        pview(final(v)@) == pview(old(v)@) + fold_chunk_163(),
{
    let ghost o = pview(v@);
    push_pair(v, '\u{1E11}', '\u{1E10}');
    push_pair(v, '\u{1E12}', '\u{1E13}');
    push_pair(v, '\u{1E13}', '\u{1E12}');
    push_pair(v, '\u{1E14}', '\u{1E15}');
    push_pair(v, '\u{1E15}', '\u{1E14}');
    push_pair(v, '\u{1E16}', '\u{1E17}');
    push_pair(v, '\u{1E17}', '\u{1E16}');
    push_pair(v, '\u{1E18}', '\u{1E19}');
    assert(pview(v@) =~= o + fold_chunk_163());
}

fn push_fold_chunk_164(v: &mut Vec<FoldPair>)
    ensures
        pview(final(v)@) == pview(old(v)@) + fold_chunk_164(),
{
    let ghost o = pview(v@);
    push_pair(v, '\u{1E19}', '\u{1E18}');
    push_pair(v, '\u{1E1A}', '\u{1E1B}');
    push_pair(v, '\u{1E1B}', '\u{1E1A}');
    push_pair(v, '\u{1E1C}', '\u{1E1D}');
    push_pair(v, '\u{1E1D}', '\u{1E1C}');
    push_pair(v, '\u{1E1E}', '\u{1E1F}');
    push_pair(v, '\u{1E1F}', '\u{1E1E}');
    push_pair(v, '\u{1E20}', '\u{1E21}');
    assert(pview(v@) =~= o + fold_chunk_164());
}

fn push_fold_chunk_165(v: &mut Vec<FoldPair>)
    ensures
        pview(final(v)@) == pview(old(v)@) + fold_chunk_165(),
{
    let ghost o = pview(v@);
    push_pair(v, '\u{1E21}', '\u{1E20}');
    push_pair(v, '\u{1E22}', '\u{1E23}');
    push_pair(v, '\u{1E23}', '\u{1E22}');
    push_pair(v, '\u{1E24}', '\u{1E25}');
    push_pair(v, '\u{1E25}', '\u{1E24}');
    push_pair(v, '\u{1E26}', '\u{1E27}');
    push_pair(v, '\u{1E27}', '\u{1E26}');
    push_pair(v, '\u{1E28}', '\u{1E29}');
    assert(pview(v@) =~= o + fold_chunk_165());
}

fn push_fold_chunk_166(v: &mut Vec<FoldPair>)
    ensures
        pview(final(v)@) == pview(old(v)@) + fold_chunk_166(),
{
    let ghost o = pview(v@);
    push_pair(v, '\u{1E29}', '\u{1E28}');
    push_pair(v, '\u{1E2A}', '\u{1E2B}');
    push_pair(v, '\u{1E2B}', '\u{1E2A}');
    push_pair(v, '\u{1E2C}', '\u{1E2D}');
    push_pair(v, '\u{1E2D}', '\u{1E2C}');
    push_pair(v, '\u{1E2E}', '\u{1E2F}');
    push_pair(v, '\u{1E2F}', '\u{1E2E}');
    push_pair(v, '\u{1E30}', '\u{1E31}');
    assert(pview(v@) =~= o + fold_chunk_166());
}

fn push_fold_chunk_167(v: &mut Vec<FoldPair>)
    ensures
        pview(final(v)@) == pview(old(v)@) + fold_chunk_167(),
{
    let ghost o = pview(v@);
    push_pair(v, '\u{1E31}', '\u{1E30}');
    push_pair(v, '\u{1E32}', '\u{1E33}');
    push_pair(v, '\u{1E33}', '\u{1E32}');
    push_pair(v, '\u{1E34}', '\u{1E35}');
    push_pair(v, '\u{1E35}', '\u{1E34}');
    push_pair(v, '\u{1E36}', '\u{1E37}');
    push_pair(v, '\u{1E37}', '\u{1E36}');
    push_pair(v, '\u{1E38}', '\u{1E39}');
    assert(pview(v@) =~= o + fold_chunk_167());
}

fn push_fold_chunk_168(v: &mut Vec<FoldPair>)
    ensures
        pview(final(v)@) == pview(old(v)@) + fold_chunk_168(),
{
    let ghost o = pview(v@);
    push_pair(v, '\u{1E39}', '\u{1E38}');
    push_pair(v, '\u{1E3A}', '\u{1E3B}');
    push_pair(v, '\u{1E3B}', '\u{1E3A}');
    push_pair(v, '\u{1E3C}', '\u{1E3D}');
    push_pair(v, '\u{1E3D}', '\u{1E3C}');
    push_pair(v, '\u{1E3E}', '\u{1E3F}');
    push_pair(v, '\u{1E3F}', '\u{1E3E}');
    push_pair(v, '\u{1E40}', '\u{1E41}');
    assert(pview(v@) =~= o + fold_chunk_168());
}

fn push_fold_chunk_169(v: &mut Vec<FoldPair>)
    ensures
        pview(final(v)@) == pview(old(v)@) + fold_chunk_169(),
{
    let ghost o = pview(v@);
    push_pair(v, '\u{1E41}', '\u{1E40}');
    push_pair(v, '\u{1E42}', '\u{1E43}');
    push_pair(v, '\u{1E43}', '\u{1E42}');
    push_pair(v, '\u{1E44}', '\u{1E45}');
    push_pair(v, '\u{1E45}', '\u{1E44}');
    push_pair(v, '\u{1E46}', '\u{1E47}');
    push_pair(v, '\u{1E47}', '\u{1E46}');
    push_pair(v, '\u{1E48}', '\u{1E49}');
    assert(pview(v@) =~= o + fold_chunk_169());
}

fn push_fold_chunk_170(v: &mut Vec<FoldPair>)
    ensures
        pview(final(v)@) == pview(old(v)@) + fold_chunk_170(),
{
    let ghost o = pview(v@);
    push_pair(v, '\u{1E49}', '\u{1E48}');
    push_pair(v, '\u{1E4A}', '\u{1E4B}');
    push_pair(v, '\u{1E4B}', '\u{1E4A}');
    push_pair(v, '\u{1E4C}', '\u{1E4D}');
    push_pair(v, '\u{1E4D}', '\u{1E4C}');
    push_pair(v, '\u{1E4E}', '\u{1E4F}');
    push_pair(v, '\u{1E4F}', '\u{1E4E}');
    push_pair(v, '\u{1E50}', '\u{1E51}');
    assert(pview(v@) =~= o + fold_chunk_170());
}

fn push_fold_chunk_171(v: &mut Vec<FoldPair>)
    ensures
        pview(final(v)@) == pview(old(v)@) + fold_chunk_171(),
{
    let ghost o = pview(v@);
    push_pair(v, '\u{1E51}', '\u{1E50}');
    push_pair(v, '\u{1E52}', '\u{1E53}');
    push_pair(v, '\u{1E53}', '\u{1E52}');
    push_pair(v, '\u{1E54}', '\u{1E55}');
    push_pair(v, '\u{1E55}', '\u{1E54}');
    push_pair(v, '\u{1E56}', '\u{1E57}');
    push_pair(v, '\u{1E57}', '\u{1E56}');
    push_pair(v, '\u{1E58}', '\u{1E59}');
    assert(pview(v@) =~= o + fold_chunk_171());
}

fn push_fold_chunk_172(v: &mut Vec<FoldPair>)
    ensures
        pview(final(v)@) == pview(old(v)@) + fold_chunk_172(),
{
    let ghost o = pview(v@);
    push_pair(v, '\u{1E59}', '\u{1E58}');
    push_pair(v, '\u{1E5A}', '\u{1E5B}');
    push_pair(v, '\u{1E5B}', '\u{1E5A}');
    push_pair(v, '\u{1E5C}', '\u{1E5D}');
    push_pair(v, '\u{1E5D}', '\u{1E5C}');
    push_pair(v, '\u{1E5E}', '\u{1E5F}');
    push_pair(v, '\u{1E5F}', '\u{1E5E}');
    push_pair(v, '\u{1E60}', '\u{1E61}');
    assert(pview(v@) =~= o + fold_chunk_172());
}

fn push_fold_chunk_173(v: &mut Vec<FoldPair>)
    ensures
        pview(final(v)@) == pview(old(v)@) + fold_chunk_173(),
{
    let ghost o = pview(v@);
    push_pair(v, '\u{1E60}', '\u{1E9B}');
    push_pair(v, '\u{1E61}', '\u{1E60}');
    push_pair(v, '\u{1E61}', '\u{1E9B}');
    push_pair(v, '\u{1E62}', '\u{1E63}');
    push_pair(v, '\u{1E63}', '\u{1E62}');
    push_pair(v, '\u{1E64}', '\u{1E65}');
    push_pair(v, '\u{1E65}', '\u{1E64}');
    push_pair(v, '\u{1E66}', '\u{1E67}');
    assert(pview(v@) =~= o + fold_chunk_173());
}

fn push_fold_chunk_174(v: &mut Vec<FoldPair>)
    ensures
        pview(final(v)@) == pview(old(v)@) + fold_chunk_174(),
{
    let ghost o = pview(v@);
    push_pair(v, '\u{1E67}', '\u{1E66}');
    push_pair(v, '\u{1E68}', '\u{1E69}');
    push_pair(v, '\u{1E69}', '\u{1E68}');
    push_pair(v, '\u{1E6A}', '\u{1E6B}');
    push_pair(v, '\u{1E6B}', '\u{1E6A}');
    push_pair(v, '\u{1E6C}', '\u{1E6D}');
    push_pair(v, '\u{1E6D}', '\u{1E6C}');
    push_pair(v, '\u{1E6E}', '\u{1E6F}');
    assert(pview(v@) =~= o + fold_chunk_174());
}

fn push_fold_chunk_175(v: &mut Vec<FoldPair>)
    ensures
        pview(final(v)@) == pview(old(v)@) + fold_chunk_175(),
{
    let ghost o = pview(v@);
    push_pair(v, '\u{1E6F}', '\u{1E6E}');
    push_pair(v, '\u{1E70}', '\u{1E71}');
    push_pair(v, '\u{1E71}', '\u{1E70}');
    push_pair(v, '\u{1E72}', '\u{1E73}');
    push_pair(v, '\u{1E73}', '\u{1E72}');
    push_pair(v, '\u{1E74}', '\u{1E75}');
    push_pair(v, '\u{1E75}', '\u{1E74}');
    push_pair(v, '\u{1E76}', '\u{1E77}');
    assert(pview(v@) =~= o + fold_chunk_175());
}

fn push_fold_chunk_176(v: &mut Vec<FoldPair>)
    ensures
        pview(final(v)@) == pview(old(v)@) + fold_chunk_176(),
{
    let ghost o = pview(v@);
    push_pair(v, '\u{1E77}', '\u{1E76}');
    push_pair(v, '\u{1E78}', '\u{1E79}');
    push_pair(v, '\u{1E79}', '\u{1E78}');
    push_pair(v, '\u{1E7A}', '\u{1E7B}');
    push_pair(v, '\u{1E7B}', '\u{1E7A}');
    push_pair(v, '\u{1E7C}', '\u{1E7D}');
    push_pair(v, '\u{1E7D}', '\u{1E7C}');
    push_pair(v, '\u{1E7E}', '\u{1E7F}');
    assert(pview(v@) =~= o + fold_chunk_176());
}

fn push_fold_chunk_177(v: &mut Vec<FoldPair>)
    ensures
        pview(final(v)@) == pview(old(v)@) + fold_chunk_177(),
{
    let ghost o = pview(v@);
    push_pair(v, '\u{1E7F}', '\u{1E7E}');
    push_pair(v, '\u{1E80}', '\u{1E81}');
    push_pair(v, '\u{1E81}', '\u{1E80}');
    push_pair(v, '\u{1E82}', '\u{1E83}');
    push_pair(v, '\u{1E83}', '\u{1E82}');
    push_pair(v, '\u{1E84}', '\u{1E85}');
    push_pair(v, '\u{1E85}', '\u{1E84}');
    push_pair(v, '\u{1E86}', '\u{1E87}');
    assert(pview(v@) =~= o + fold_chunk_177());
}

fn push_fold_chunk_178(v: &mut Vec<FoldPair>)
    ensures
        pview(final(v)@) == pview(old(v)@) + fold_chunk_178(),
{
    let ghost o = pview(v@);
    push_pair(v, '\u{1E87}', '\u{1E86}');
    push_pair(v, '\u{1E88}', '\u{1E89}');
    push_pair(v, '\u{1E89}', '\u{1E88}');
    push_pair(v, '\u{1E8A}', '\u{1E8B}');
    push_pair(v, '\u{1E8B}', '\u{1E8A}');
    push_pair(v, '\u{1E8C}', '\u{1E8D}');
    push_pair(v, '\u{1E8D}', '\u{1E8C}');
    push_pair(v, '\u{1E8E}', '\u{1E8F}');
    assert(pview(v@) =~= o + fold_chunk_178());
}

fn push_fold_chunk_179(v: &mut Vec<FoldPair>)
    ensures
        pview(final(v)@) == pview(old(v)@) + fold_chunk_179(),
{
    let ghost o = pview(v@);
    push_pair(v, '\u{1E8F}', '\u{1E8E}');
    push_pair(v, '\u{1E90}', '\u{1E91}');
    push_pair(v, '\u{1E91}', '\u{1E90}');
    push_pair(v, '\u{1E92}', '\u{1E93}');
    push_pair(v, '\u{1E93}', '\u{1E92}');
    push_pair(v, '\u{1E94}', '\u{1E95}');
    push_pair(v, '\u{1E95}', '\u{1E94}');
    push_pair(v, '\u{1E9B}', '\u{1E60}');
    assert(pview(v@) =~= o + fold_chunk_179());
}

fn push_fold_chunk_180(v: &mut Vec<FoldPair>)
    ensures
        pview(final(v)@) == pview(old(v)@) + fold_chunk_180(),
{
    let ghost o = pview(v@);
    push_pair(v, '\u{1E9B}', '\u{1E61}');
    push_pair(v, '\u{1E9E}', '\u{DF}');
    push_pair(v, '\u{1EA0}', '\u{1EA1}');
    push_pair(v, '\u{1EA1}', '\u{1EA0}');
    push_pair(v, '\u{1EA2}', '\u{1EA3}');
    push_pair(v, '\u{1EA3}', '\u{1EA2}');
    push_pair(v, '\u{1EA4}', '\u{1EA5}');
    push_pair(v, '\u{1EA5}', '\u{1EA4}');
    assert(pview(v@) =~= o + fold_chunk_180());
}

fn push_fold_chunk_181(v: &mut Vec<FoldPair>)
    ensures
        pview(final(v)@) == pview(old(v)@) + fold_chunk_181(),
{
    let ghost o = pview(v@);
    push_pair(v, '\u{1EA6}', '\u{1EA7}');
    push_pair(v, '\u{1EA7}', '\u{1EA6}');
    push_pair(v, '\u{1EA8}', '\u{1EA9}');
    push_pair(v, '\u{1EA9}', '\u{1EA8}');
    push_pair(v, '\u{1EAA}', '\u{1EAB}');
    push_pair(v, '\u{1EAB}', '\u{1EAA}');
    push_pair(v, '\u{1EAC}', '\u{1EAD}');
    push_pair(v, '\u{1EAD}', '\u{1EAC}');
    assert(pview(v@) =~= o + fold_chunk_181());
}

fn push_fold_chunk_182(v: &mut Vec<FoldPair>)
    ensures
        pview(final(v)@) == pview(old(v)@) + fold_chunk_182(),
{
    let ghost o = pview(v@);
    push_pair(v, '\u{1EAE}', '\u{1EAF}');
    push_pair(v, '\u{1EAF}', '\u{1EAE}');
    push_pair(v, '\u{1EB0}', '\u{1EB1}');
    push_pair(v, '\u{1EB1}', '\u{1EB0}');
    push_pair(v, '\u{1EB2}', '\u{1EB3}');
    push_pair(v, '\u{1EB3}', '\u{1EB2}');
    push_pair(v, '\u{1EB4}', '\u{1EB5}');
    push_pair(v, '\u{1EB5}', '\u{1EB4}');
    assert(pview(v@) =~= o + fold_chunk_182());
}

fn push_fold_chunk_183(v: &mut Vec<FoldPair>)
    ensures
        pview(final(v)@) == pview(old(v)@) + fold_chunk_183(),
{
    let ghost o = pview(v@);
    push_pair(v, '\u{1EB6}', '\u{1EB7}');
    push_pair(v, '\u{1EB7}', '\u{1EB6}');
    push_pair(v, '\u{1EB8}', '\u{1EB9}');
    push_pair(v, '\u{1EB9}', '\u{1EB8}');
    push_pair(v, '\u{1EBA}', '\u{1EBB}');
    push_pair(v, '\u{1EBB}', '\u{1EBA}');
    push_pair(v, '\u{1EBC}', '\u{1EBD}');
    push_pair(v, '\u{1EBD}', '\u{1EBC}');
    assert(pview(v@) =~= o + fold_chunk_183());
}

fn push_fold_chunk_184(v: &mut Vec<FoldPair>)
    ensures
        pview(final(v)@) == pview(old(v)@) + fold_chunk_184(),
{
    let ghost o = pview(v@);
    push_pair(v, '\u{1EBE}', '\u{1EBF}');
    push_pair(v, '\u{1EBF}', '\u{1EBE}');
    push_pair(v, '\u{1EC0}', '\u{1EC1}');
    push_pair(v, '\u{1EC1}', '\u{1EC0}');
    push_pair(v, '\u{1EC2}', '\u{1EC3}');
    push_pair(v, '\u{1EC3}', '\u{1EC2}');
    push_pair(v, '\u{1EC4}', '\u{1EC5}');
    push_pair(v, '\u{1EC5}', '\u{1EC4}');
    assert(pview(v@) =~= o + fold_chunk_184());
}

fn push_fold_chunk_185(v: &mut Vec<FoldPair>)
    ensures
        pview(final(v)@) == pview(old(v)@) + fold_chunk_185(),
{
    let ghost o = pview(v@);
    push_pair(v, '\u{1EC6}', '\u{1EC7}');
    push_pair(v, '\u{1EC7}', '\u{1EC6}');
    push_pair(v, '\u{1EC8}', '\u{1EC9}');
    push_pair(v, '\u{1EC9}', '\u{1EC8}');
    push_pair(v, '\u{1ECA}', '\u{1ECB}');
    push_pair(v, '\u{1ECB}', '\u{1ECA}');
    push_pair(v, '\u{1ECC}', '\u{1ECD}');
    push_pair(v, '\u{1ECD}', '\u{1ECC}');
    assert(pview(v@) =~= o + fold_chunk_185());
}

fn push_fold_chunk_186(v: &mut Vec<FoldPair>)
    ensures
        pview(final(v)@) == pview(old(v)@) + fold_chunk_186(),
{
    let ghost o = pview(v@);
    push_pair(v, '\u{1ECE}', '\u{1ECF}');
    push_pair(v, '\u{1ECF}', '\u{1ECE}');
    push_pair(v, '\u{1ED0}', '\u{1ED1}');
    push_pair(v, '\u{1ED1}', '\u{1ED0}');
    push_pair(v, '\u{1ED2}', '\u{1ED3}');
    push_pair(v, '\u{1ED3}', '\u{1ED2}');
    push_pair(v, '\u{1ED4}', '\u{1ED5}');
    push_pair(v, '\u{1ED5}', '\u{1ED4}');
    assert(pview(v@) =~= o + fold_chunk_186());
}

fn push_fold_chunk_187(v: &mut Vec<FoldPair>)
    ensures
        pview(final(v)@) == pview(old(v)@) + fold_chunk_187(),
{
    let ghost o = pview(v@);
    push_pair(v, '\u{1ED6}', '\u{1ED7}');
    push_pair(v, '\u{1ED7}', '\u{1ED6}');
    push_pair(v, '\u{1ED8}', '\u{1ED9}');
    push_pair(v, '\u{1ED9}', '\u{1ED8}');
    push_pair(v, '\u{1EDA}', '\u{1EDB}');
    push_pair(v, '\u{1EDB}', '\u{1EDA}');
    push_pair(v, '\u{1EDC}', '\u{1EDD}');
    push_pair(v, '\u{1EDD}', '\u{1EDC}');
    assert(pview(v@) =~= o + fold_chunk_187());
}

fn push_fold_chunk_188(v: &mut Vec<FoldPair>)
    ensures
        pview(final(v)@) == pview(old(v)@) + fold_chunk_188(),
{
    let ghost o = pview(v@);
    push_pair(v, '\u{1EDE}', '\u{1EDF}');
    push_pair(v, '\u{1EDF}', '\u{1EDE}');
    push_pair(v, '\u{1EE0}', '\u{1EE1}');
    push_pair(v, '\u{1EE1}', '\u{1EE0}');
    push_pair(v, '\u{1EE2}', '\u{1EE3}');
    push_pair(v, '\u{1EE3}', '\u{1EE2}');
    push_pair(v, '\u{1EE4}', '\u{1EE5}');
    push_pair(v, '\u{1EE5}', '\u{1EE4}');
    assert(pview(v@) =~= o + fold_chunk_188());
}

fn push_fold_chunk_189(v: &mut Vec<FoldPair>)
    ensures
        pview(final(v)@) == pview(old(v)@) + fold_chunk_189(),
{
    let ghost o = pview(v@);
    push_pair(v, '\u{1EE6}', '\u{1EE7}');
    push_pair(v, '\u{1EE7}', '\u{1EE6}');
    push_pair(v, '\u{1EE8}', '\u{1EE9}');
    push_pair(v, '\u{1EE9}', '\u{1EE8}');
    push_pair(v, '\u{1EEA}', '\u{1EEB}');
    push_pair(v, '\u{1EEB}', '\u{1EEA}');
    push_pair(v, '\u{1EEC}', '\u{1EED}');
    push_pair(v, '\u{1EED}', '\u{1EEC}');
    assert(pview(v@) =~= o + fold_chunk_189());
}

fn push_fold_chunk_190(v: &mut Vec<FoldPair>)
    ensures
        pview(final(v)@) == pview(old(v)@) + fold_chunk_190(),
{
    let ghost o = pview(v@);
    push_pair(v, '\u{1EEE}', '\u{1EEF}');
    push_pair(v, '\u{1EEF}', '\u{1EEE}');
    push_pair(v, '\u{1EF0}', '\u{1EF1}');
    push_pair(v, '\u{1EF1}', '\u{1EF0}');
    push_pair(v, '\u{1EF2}', '\u{1EF3}');
    push_pair(v, '\u{1EF3}', '\u{1EF2}');
    push_pair(v, '\u{1EF4}', '\u{1EF5}');
    push_pair(v, '\u{1EF5}', '\u{1EF4}');
    assert(pview(v@) =~= o + fold_chunk_190());
}

fn push_fold_chunk_191(v: &mut Vec<FoldPair>)
    ensures
        pview(final(v)@) == pview(old(v)@) + fold_chunk_191(),
{
    let ghost o = pview(v@);
    push_pair(v, '\u{1EF6}', '\u{1EF7}');
    push_pair(v, '\u{1EF7}', '\u{1EF6}');
    push_pair(v, '\u{1EF8}', '\u{1EF9}');
    push_pair(v, '\u{1EF9}', '\u{1EF8}');
    push_pair(v, '\u{1EFA}', '\u{1EFB}');
    push_pair(v, '\u{1EFB}', '\u{1EFA}');
    push_pair(v, '\u{1EFC}', '\u{1EFD}');
    push_pair(v, '\u{1EFD}', '\u{1EFC}');
    assert(pview(v@) =~= o + fold_chunk_191());
}

fn push_fold_chunk_192(v: &mut Vec<FoldPair>)
    ensures
        pview(final(v)@) == pview(old(v)@) + fold_chunk_192(),
{
    let ghost o = pview(v@);
    push_pair(v, '\u{1EFE}', '\u{1EFF}');
    push_pair(v, '\u{1EFF}', '\u{1EFE}');
    push_pair(v, '\u{1F00}', '\u{1F08}');
    push_pair(v, '\u{1F01}', '\u{1F09}');
    push_pair(v, '\u{1F02}', '\u{1F0A}');
    push_pair(v, '\u{1F03}', '\u{1F0B}');
    push_pair(v, '\u{1F04}', '\u{1F0C}');
    push_pair(v, '\u{1F05}', '\u{1F0D}');
    assert(pview(v@) =~= o + fold_chunk_192());
}

fn push_fold_chunk_193(v: &mut Vec<FoldPair>)
    ensures
        pview(final(v)@) == pview(old(v)@) + fold_chunk_193(),
{
    let ghost o = pview(v@);
    push_pair(v, '\u{1F06}', '\u{1F0E}');
    push_pair(v, '\u{1F07}', '\u{1F0F}');
    push_pair(v, '\u{1F08}', '\u{1F00}');
    push_pair(v, '\u{1F09}', '\u{1F01}');
    push_pair(v, '\u{1F0A}', '\u{1F02}');
    push_pair(v, '\u{1F0B}', '\u{1F03}');
    push_pair(v, '\u{1F0C}', '\u{1F04}');
    push_pair(v, '\u{1F0D}', '\u{1F05}');
    assert(pview(v@) =~= o + fold_chunk_193());
}

fn push_fold_chunk_194(v: &mut Vec<FoldPair>)
    ensures
        pview(final(v)@) == pview(old(v)@) + fold_chunk_194(),
{
    let ghost o = pview(v@);
    push_pair(v, '\u{1F0E}', '\u{1F06}');
    push_pair(v, '\u{1F0F}', '\u{1F07}');
    push_pair(v, '\u{1F10}', '\u{1F18}');
    push_pair(v, '\u{1F11}', '\u{1F19}');
    push_pair(v, '\u{1F12}', '\u{1F1A}');
    push_pair(v, '\u{1F13}', '\u{1F1B}');
    push_pair(v, '\u{1F14}', '\u{1F1C}');
    push_pair(v, '\u{1F15}', '\u{1F1D}');
    assert(pview(v@) =~= o + fold_chunk_194());
}

fn push_fold_chunk_195(v: &mut Vec<FoldPair>)
    ensures
        pview(final(v)@) == pview(old(v)@) + fold_chunk_195(),
{
    let ghost o = pview(v@);
    push_pair(v, '\u{1F18}', '\u{1F10}');
    push_pair(v, '\u{1F19}', '\u{1F11}');
    push_pair(v, '\u{1F1A}', '\u{1F12}');
    push_pair(v, '\u{1F1B}', '\u{1F13}');
    push_pair(v, '\u{1F1C}', '\u{1F14}');
    push_pair(v, '\u{1F1D}', '\u{1F15}');
    push_pair(v, '\u{1F20}', '\u{1F28}');
    push_pair(v, '\u{1F21}', '\u{1F29}');
    assert(pview(v@) =~= o + fold_chunk_195());
}

fn push_fold_chunk_196(v: &mut Vec<FoldPair>)
    ensures
        pview(final(v)@) == pview(old(v)@) + fold_chunk_196(),
{
    let ghost o = pview(v@);
    push_pair(v, '\u{1F22}', '\u{1F2A}');
    push_pair(v, '\u{1F23}', '\u{1F2B}');
    push_pair(v, '\u{1F24}', '\u{1F2C}');
    push_pair(v, '\u{1F25}', '\u{1F2D}');
    push_pair(v, '\u{1F26}', '\u{1F2E}');
    push_pair(v, '\u{1F27}', '\u{1F2F}');
    push_pair(v, '\u{1F28}', '\u{1F20}');
    push_pair(v, '\u{1F29}', '\u{1F21}');
    assert(pview(v@) =~= o + fold_chunk_196());
}

fn push_fold_chunk_197(v: &mut Vec<FoldPair>)
    ensures
        pview(final(v)@) == pview(old(v)@) + fold_chunk_197(),
{
    let ghost o = pview(v@);
    push_pair(v, '\u{1F2A}', '\u{1F22}');
    push_pair(v, '\u{1F2B}', '\u{1F23}');
    push_pair(v, '\u{1F2C}', '\u{1F24}');
    push_pair(v, '\u{1F2D}', '\u{1F25}');
    push_pair(v, '\u{1F2E}', '\u{1F26}');
    push_pair(v, '\u{1F2F}', '\u{1F27}');
    push_pair(v, '\u{1F30}', '\u{1F38}');
    push_pair(v, '\u{1F31}', '\u{1F39}');
    assert(pview(v@) =~= o + fold_chunk_197());
}

fn push_fold_chunk_198(v: &mut Vec<FoldPair>)
    ensures
        pview(final(v)@) == pview(old(v)@) + fold_chunk_198(),
{
    let ghost o = pview(v@);
    push_pair(v, '\u{1F32}', '\u{1F3A}');
    push_pair(v, '\u{1F33}', '\u{1F3B}');
    push_pair(v, '\u{1F34}', '\u{1F3C}');
    push_pair(v, '\u{1F35}', '\u{1F3D}');
    push_pair(v, '\u{1F36}', '\u{1F3E}');
    push_pair(v, '\u{1F37}', '\u{1F3F}');
    push_pair(v, '\u{1F38}', '\u{1F30}');
    push_pair(v, '\u{1F39}', '\u{1F31}');
    assert(pview(v@) =~= o + fold_chunk_198());
}

fn push_fold_chunk_199(v: &mut Vec<FoldPair>)
    ensures
        pview(final(v)@) == pview(old(v)@) + fold_chunk_199(),
{
    let ghost o = pview(v@);
    push_pair(v, '\u{1F3A}', '\u{1F32}');
    push_pair(v, '\u{1F3B}', '\u{1F33}');
    push_pair(v, '\u{1F3C}', '\u{1F34}');
    push_pair(v, '\u{1F3D}', '\u{1F35}');
    push_pair(v, '\u{1F3E}', '\u{1F36}');
    push_pair(v, '\u{1F3F}', '\u{1F37}');
    push_pair(v, '\u{1F40}', '\u{1F48}');
    push_pair(v, '\u{1F41}', '\u{1F49}');
    assert(pview(v@) =~= o + fold_chunk_199());
}

fn push_fold_chunk_200(v: &mut Vec<FoldPair>)
    ensures
        pview(final(v)@) == pview(old(v)@) + fold_chunk_200(),
{
    let ghost o = pview(v@);
    push_pair(v, '\u{1F42}', '\u{1F4A}');
    push_pair(v, '\u{1F43}', '\u{1F4B}');
    push_pair(v, '\u{1F44}', '\u{1F4C}');
    push_pair(v, '\u{1F45}', '\u{1F4D}');
    push_pair(v, '\u{1F48}', '\u{1F40}');
    push_pair(v, '\u{1F49}', '\u{1F41}');
    push_pair(v, '\u{1F4A}', '\u{1F42}');
    push_pair(v, '\u{1F4B}', '\u{1F43}');
    assert(pview(v@) =~= o + fold_chunk_200());
}

fn push_fold_chunk_201(v: &mut Vec<FoldPair>)
    ensures
        pview(final(v)@) == pview(old(v)@) + fold_chunk_201(),
{
    let ghost o = pview(v@);
    push_pair(v, '\u{1F4C}', '\u{1F44}');
    push_pair(v, '\u{1F4D}', '\u{1F45}');
    push_pair(v, '\u{1F51}', '\u{1F59}');
    push_pair(v, '\u{1F53}', '\u{1F5B}');
    push_pair(v, '\u{1F55}', '\u{1F5D}');
    push_pair(v, '\u{1F57}', '\u{1F5F}');
    push_pair(v, '\u{1F59}', '\u{1F51}');
    push_pair(v, '\u{1F5B}', '\u{1F53}');
    assert(pview(v@) =~= o + fold_chunk_201());
}

fn push_fold_chunk_202(v: &mut Vec<FoldPair>)
    ensures
        pview(final(v)@) == pview(old(v)@) + fold_chunk_202(),
{
    let ghost o = pview(v@);
    push_pair(v, '\u{1F5D}', '\u{1F55}');
    push_pair(v, '\u{1F5F}', '\u{1F57}');
    push_pair(v, '\u{1F60}', '\u{1F68}');
    push_pair(v, '\u{1F61}', '\u{1F69}');
    push_pair(v, '\u{1F62}', '\u{1F6A}');
    push_pair(v, '\u{1F63}', '\u{1F6B}');
    push_pair(v, '\u{1F64}', '\u{1F6C}');
    push_pair(v, '\u{1F65}', '\u{1F6D}');
    assert(pview(v@) =~= o + fold_chunk_202());
}

fn push_fold_chunk_203(v: &mut Vec<FoldPair>)
    ensures
        pview(final(v)@) == pview(old(v)@) + fold_chunk_203(),
{
    let ghost o = pview(v@);
    push_pair(v, '\u{1F66}', '\u{1F6E}');
    push_pair(v, '\u{1F67}', '\u{1F6F}');
    push_pair(v, '\u{1F68}', '\u{1F60}');
    push_pair(v, '\u{1F69}', '\u{1F61}');
    push_pair(v, '\u{1F6A}', '\u{1F62}');
    push_pair(v, '\u{1F6B}', '\u{1F63}');
    push_pair(v, '\u{1F6C}', '\u{1F64}');
    push_pair(v, '\u{1F6D}', '\u{1F65}');
    assert(pview(v@) =~= o + fold_chunk_203());
}

fn push_fold_chunk_204(v: &mut Vec<FoldPair>)
    ensures
        pview(final(v)@) == pview(old(v)@) + fold_chunk_204(),
{
    let ghost o = pview(v@);
    push_pair(v, '\u{1F6E}', '\u{1F66}');
    push_pair(v, '\u{1F6F}', '\u{1F67}');
    push_pair(v, '\u{1F70}', '\u{1FBA}');
    push_pair(v, '\u{1F71}', '\u{1FBB}');
    push_pair(v, '\u{1F72}', '\u{1FC8}');
    push_pair(v, '\u{1F73}', '\u{1FC9}');
    push_pair(v, '\u{1F74}', '\u{1FCA}');
    push_pair(v, '\u{1F75}', '\u{1FCB}');
    assert(pview(v@) =~= o + fold_chunk_204());
}

fn push_fold_chunk_205(v: &mut Vec<FoldPair>)
    ensures
        pview(final(v)@) == pview(old(v)@) + fold_chunk_205(),
{
    let ghost o = pview(v@);
    push_pair(v, '\u{1F76}', '\u{1FDA}');
    push_pair(v, '\u{1F77}', '\u{1FDB}');
    push_pair(v, '\u{1F78}', '\u{1FF8}');
    push_pair(v, '\u{1F79}', '\u{1FF9}');
    push_pair(v, '\u{1F7A}', '\u{1FEA}');
    push_pair(v, '\u{1F7B}', '\u{1FEB}');
    push_pair(v, '\u{1F7C}', '\u{1FFA}');
    push_pair(v, '\u{1F7D}', '\u{1FFB}');
    assert(pview(v@) =~= o + fold_chunk_205());
}

fn push_fold_chunk_206(v: &mut Vec<FoldPair>)
    ensures
        pview(final(v)@) == pview(old(v)@) + fold_chunk_206(),
{
    let ghost o = pview(v@);
    push_pair(v, '\u{1F80}', '\u{1F88}');
    push_pair(v, '\u{1F81}', '\u{1F89}');
    push_pair(v, '\u{1F82}', '\u{1F8A}');
    push_pair(v, '\u{1F83}', '\u{1F8B}');
    push_pair(v, '\u{1F84}', '\u{1F8C}');
    push_pair(v, '\u{1F85}', '\u{1F8D}');
    push_pair(v, '\u{1F86}', '\u{1F8E}');
    push_pair(v, '\u{1F87}', '\u{1F8F}');
    assert(pview(v@) =~= o + fold_chunk_206());
}

fn push_fold_chunk_207(v: &mut Vec<FoldPair>)
    ensures
        pview(final(v)@) == pview(old(v)@) + fold_chunk_207(),
{
    let ghost o = pview(v@);
    push_pair(v, '\u{1F88}', '\u{1F80}');
    push_pair(v, '\u{1F89}', '\u{1F81}');
    push_pair(v, '\u{1F8A}', '\u{1F82}');
    push_pair(v, '\u{1F8B}', '\u{1F83}');
    push_pair(v, '\u{1F8C}', '\u{1F84}');
    push_pair(v, '\u{1F8D}', '\u{1F85}');
    push_pair(v, '\u{1F8E}', '\u{1F86}');
    push_pair(v, '\u{1F8F}', '\u{1F87}');
    assert(pview(v@) =~= o + fold_chunk_207());
}

fn push_fold_chunk_208(v: &mut Vec<FoldPair>)
    ensures
        pview(final(v)@) == pview(old(v)@) + fold_chunk_208(),
{
    let ghost o = pview(v@);
    push_pair(v, '\u{1F90}', '\u{1F98}');
    push_pair(v, '\u{1F91}', '\u{1F99}');
    push_pair(v, '\u{1F92}', '\u{1F9A}');
    push_pair(v, '\u{1F93}', '\u{1F9B}');
    push_pair(v, '\u{1F94}', '\u{1F9C}');
    push_pair(v, '\u{1F95}', '\u{1F9D}');
    push_pair(v, '\u{1F96}', '\u{1F9E}');
    push_pair(v, '\u{1F97}', '\u{1F9F}');
    assert(pview(v@) =~= o + fold_chunk_208());
}

fn push_fold_chunk_209(v: &mut Vec<FoldPair>)
    ensures
        pview(final(v)@) == pview(old(v)@) + fold_chunk_209(),
{
    let ghost o = pview(v@);
    push_pair(v, '\u{1F98}', '\u{1F90}');
    push_pair(v, '\u{1F99}', '\u{1F91}');
    push_pair(v, '\u{1F9A}', '\u{1F92}');
    push_pair(v, '\u{1F9B}', '\u{1F93}');
    push_pair(v, '\u{1F9C}', '\u{1F94}');
    push_pair(v, '\u{1F9D}', '\u{1F95}');
    push_pair(v, '\u{1F9E}', '\u{1F96}');
    push_pair(v, '\u{1F9F}', '\u{1F97}');
    assert(pview(v@) =~= o + fold_chunk_209());
}

fn push_fold_chunk_210(v: &mut Vec<FoldPair>)
    ensures
        pview(final(v)@) == pview(old(v)@) + fold_chunk_210(),
{
    let ghost o = pview(v@);
    push_pair(v, '\u{1FA0}', '\u{1FA8}');
    push_pair(v, '\u{1FA1}', '\u{1FA9}');
    push_pair(v, '\u{1FA2}', '\u{1FAA}');
    push_pair(v, '\u{1FA3}', '\u{1FAB}');
    push_pair(v, '\u{1FA4}', '\u{1FAC}');
    push_pair(v, '\u{1FA5}', '\u{1FAD}');
    push_pair(v, '\u{1FA6}', '\u{1FAE}');
    push_pair(v, '\u{1FA7}', '\u{1FAF}');
    assert(pview(v@) =~= o + fold_chunk_210());
}

fn push_fold_chunk_211(v: &mut Vec<FoldPair>)
    ensures
        pview(final(v)@) == pview(old(v)@) + fold_chunk_211(),
{
    let ghost o = pview(v@);
    push_pair(v, '\u{1FA8}', '\u{1FA0}');
    push_pair(v, '\u{1FA9}', '\u{1FA1}');
    push_pair(v, '\u{1FAA}', '\u{1FA2}');
    push_pair(v, '\u{1FAB}', '\u{1FA3}');
    push_pair(v, '\u{1FAC}', '\u{1FA4}');
    push_pair(v, '\u{1FAD}', '\u{1FA5}');
    push_pair(v, '\u{1FAE}', '\u{1FA6}');
    push_pair(v, '\u{1FAF}', '\u{1FA7}');
    assert(pview(v@) =~= o + fold_chunk_211());
}

fn push_fold_chunk_212(v: &mut Vec<FoldPair>)
    ensures
        pview(final(v)@) == pview(old(v)@) + fold_chunk_212(),
{
    let ghost o = pview(v@);
    push_pair(v, '\u{1FB0}', '\u{1FB8}');
    push_pair(v, '\u{1FB1}', '\u{1FB9}');
    push_pair(v, '\u{1FB3}', '\u{1FBC}');
    push_pair(v, '\u{1FB8}', '\u{1FB0}');
    push_pair(v, '\u{1FB9}', '\u{1FB1}');
    push_pair(v, '\u{1FBA}', '\u{1F70}');
    push_pair(v, '\u{1FBB}', '\u{1F71}');
    push_pair(v, '\u{1FBC}', '\u{1FB3}');
    assert(pview(v@) =~= o + fold_chunk_212());
}

fn push_fold_chunk_213(v: &mut Vec<FoldPair>)
    ensures
        pview(final(v)@) == pview(old(v)@) + fold_chunk_213(),
{
    let ghost o = pview(v@);
    push_pair(v, '\u{1FBE}', '\u{345}');
    push_pair(v, '\u{1FBE}', '\u{399}');
    push_pair(v, '\u{1FBE}', '\u{3B9}');
    push_pair(v, '\u{1FC3}', '\u{1FCC}');
    push_pair(v, '\u{1FC8}', '\u{1F72}');
    push_pair(v, '\u{1FC9}', '\u{1F73}');
    push_pair(v, '\u{1FCA}', '\u{1F74}');
    push_pair(v, '\u{1FCB}', '\u{1F75}');
    assert(pview(v@) =~= o + fold_chunk_213());
}

fn push_fold_chunk_214(v: &mut Vec<FoldPair>)
    ensures
        pview(final(v)@) == pview(old(v)@) + fold_chunk_214(),
{
    let ghost o = pview(v@);
    push_pair(v, '\u{1FCC}', '\u{1FC3}');
    push_pair(v, '\u{1FD0}', '\u{1FD8}');
    push_pair(v, '\u{1FD1}', '\u{1FD9}');
    push_pair(v, '\u{1FD3}', '\u{390}');
    push_pair(v, '\u{1FD8}', '\u{1FD0}');
    push_pair(v, '\u{1FD9}', '\u{1FD1}');
    push_pair(v, '\u{1FDA}', '\u{1F76}');
    push_pair(v, '\u{1FDB}', '\u{1F77}');
    assert(pview(v@) =~= o + fold_chunk_214());
}

fn push_fold_chunk_215(v: &mut Vec<FoldPair>)
    ensures
        pview(final(v)@) == pview(old(v)@) + fold_chunk_215(),
{
    let ghost o = pview(v@);
    push_pair(v, '\u{1FE0}', '\u{1FE8}');
    push_pair(v, '\u{1FE1}', '\u{1FE9}');
    push_pair(v, '\u{1FE3}', '\u{3B0}');
    push_pair(v, '\u{1FE5}', '\u{1FEC}');
    push_pair(v, '\u{1FE8}', '\u{1FE0}');
    push_pair(v, '\u{1FE9}', '\u{1FE1}');
    push_pair(v, '\u{1FEA}', '\u{1F7A}');
    push_pair(v, '\u{1FEB}', '\u{1F7B}');
    assert(pview(v@) =~= o + fold_chunk_215());
}

fn push_fold_chunk_216(v: &mut Vec<FoldPair>)
    ensures
        pview(final(v)@) == pview(old(v)@) + fold_chunk_216(),
{
    let ghost o = pview(v@);
    push_pair(v, '\u{1FEC}', '\u{1FE5}');
    push_pair(v, '\u{1FF3}', '\u{1FFC}');
    push_pair(v, '\u{1FF8}', '\u{1F78}');
    push_pair(v, '\u{1FF9}', '\u{1F79}');
    push_pair(v, '\u{1FFA}', '\u{1F7C}');
    push_pair(v, '\u{1FFB}', '\u{1F7D}');
    push_pair(v, '\u{1FFC}', '\u{1FF3}');
    push_pair(v, '\u{2126}', '\u{3A9}');
    assert(pview(v@) =~= o + fold_chunk_216());
}

fn push_fold_chunk_217(v: &mut Vec<FoldPair>)
    ensures
        pview(final(v)@) == pview(old(v)@) + fold_chunk_217(),
{
    let ghost o = pview(v@);
    push_pair(v, '\u{2126}', '\u{3C9}');
    push_pair(v, '\u{212A}', '\u{4B}');
    push_pair(v, '\u{212A}', '\u{6B}');
    push_pair(v, '\u{212B}', '\u{C5}');
    push_pair(v, '\u{212B}', '\u{E5}');
    push_pair(v, '\u{2132}', '\u{214E}');
    push_pair(v, '\u{214E}', '\u{2132}');
    push_pair(v, '\u{2160}', '\u{2170}');
    assert(pview(v@) =~= o + fold_chunk_217());
}

fn push_fold_chunk_218(v: &mut Vec<FoldPair>)
    ensures
        pview(final(v)@) == pview(old(v)@) + fold_chunk_218(),
{
    let ghost o = pview(v@);
    push_pair(v, '\u{2161}', '\u{2171}');
    push_pair(v, '\u{2162}', '\u{2172}');
    push_pair(v, '\u{2163}', '\u{2173}');
    push_pair(v, '\u{2164}', '\u{2174}');
    push_pair(v, '\u{2165}', '\u{2175}');
    push_pair(v, '\u{2166}', '\u{2176}');
    push_pair(v, '\u{2167}', '\u{2177}');
    push_pair(v, '\u{2168}', '\u{2178}');
    assert(pview(v@) =~= o + fold_chunk_218());
}

fn push_fold_chunk_219(v: &mut Vec<FoldPair>)
    ensures
        pview(final(v)@) == pview(old(v)@) + fold_chunk_219(),
{
    let ghost o = pview(v@);
    push_pair(v, '\u{2169}', '\u{2179}');
    push_pair(v, '\u{216A}', '\u{217A}');
    push_pair(v, '\u{216B}', '\u{217B}');
    push_pair(v, '\u{216C}', '\u{217C}');
    push_pair(v, '\u{216D}', '\u{217D}');
    push_pair(v, '\u{216E}', '\u{217E}');
    push_pair(v, '\u{216F}', '\u{217F}');
    push_pair(v, '\u{2170}', '\u{2160}');
    assert(pview(v@) =~= o + fold_chunk_219());
}

fn push_fold_chunk_220(v: &mut Vec<FoldPair>)
    ensures
        pview(final(v)@) == pview(old(v)@) + fold_chunk_220(),
{
    let ghost o = pview(v@);
    push_pair(v, '\u{2171}', '\u{2161}');
    push_pair(v, '\u{2172}', '\u{2162}');
    push_pair(v, '\u{2173}', '\u{2163}');
    push_pair(v, '\u{2174}', '\u{2164}');
    push_pair(v, '\u{2175}', '\u{2165}');
    push_pair(v, '\u{2176}', '\u{2166}');
    push_pair(v, '\u{2177}', '\u{2167}');
    push_pair(v, '\u{2178}', '\u{2168}');
    assert(pview(v@) =~= o + fold_chunk_220());
}

fn push_fold_chunk_221(v: &mut Vec<FoldPair>)
    ensures
        pview(final(v)@) == pview(old(v)@) + fold_chunk_221(),
{
    let ghost o = pview(v@);
    push_pair(v, '\u{2179}', '\u{2169}');
    push_pair(v, '\u{217A}', '\u{216A}');
    push_pair(v, '\u{217B}', '\u{216B}');
    push_pair(v, '\u{217C}', '\u{216C}');
    push_pair(v, '\u{217D}', '\u{216D}');
    push_pair(v, '\u{217E}', '\u{216E}');
    push_pair(v, '\u{217F}', '\u{216F}');
    push_pair(v, '\u{2183}', '\u{2184}');
    assert(pview(v@) =~= o + fold_chunk_221());
}

fn push_fold_chunk_222(v: &mut Vec<FoldPair>)
    ensures
        pview(final(v)@) == pview(old(v)@) + fold_chunk_222(),
{
    let ghost o = pview(v@);
    push_pair(v, '\u{2184}', '\u{2183}');
    push_pair(v, '\u{24B6}', '\u{24D0}');
    push_pair(v, '\u{24B7}', '\u{24D1}');
    push_pair(v, '\u{24B8}', '\u{24D2}');
    push_pair(v, '\u{24B9}', '\u{24D3}');
    push_pair(v, '\u{24BA}', '\u{24D4}');
    push_pair(v, '\u{24BB}', '\u{24D5}');
    push_pair(v, '\u{24BC}', '\u{24D6}');
    assert(pview(v@) =~= o + fold_chunk_222());
}

fn push_fold_chunk_223(v: &mut Vec<FoldPair>)
    ensures
        pview(final(v)@) == pview(old(v)@) + fold_chunk_223(),
{
    let ghost o = pview(v@);
    push_pair(v, '\u{24BD}', '\u{24D7}');
    push_pair(v, '\u{24BE}', '\u{24D8}');
    push_pair(v, '\u{24BF}', '\u{24D9}');
    push_pair(v, '\u{24C0}', '\u{24DA}');
    push_pair(v, '\u{24C1}', '\u{24DB}');
    push_pair(v, '\u{24C2}', '\u{24DC}');
    push_pair(v, '\u{24C3}', '\u{24DD}');
    push_pair(v, '\u{24C4}', '\u{24DE}');
    assert(pview(v@) =~= o + fold_chunk_223());
}

fn push_fold_chunk_224(v: &mut Vec<FoldPair>)
    ensures
        pview(final(v)@) == pview(old(v)@) + fold_chunk_224(),
{
    let ghost o = pview(v@);
    push_pair(v, '\u{24C5}', '\u{24DF}');
    push_pair(v, '\u{24C6}', '\u{24E0}');
    push_pair(v, '\u{24C7}', '\u{24E1}');
    push_pair(v, '\u{24C8}', '\u{24E2}');
    push_pair(v, '\u{24C9}', '\u{24E3}');
    push_pair(v, '\u{24CA}', '\u{24E4}');
    push_pair(v, '\u{24CB}', '\u{24E5}');
    push_pair(v, '\u{24CC}', '\u{24E6}');
    assert(pview(v@) =~= o + fold_chunk_224());
}

fn push_fold_chunk_225(v: &mut Vec<FoldPair>)
    ensures
        pview(final(v)@) == pview(old(v)@) + fold_chunk_225(),
{
    let ghost o = pview(v@);
    push_pair(v, '\u{24CD}', '\u{24E7}');
    push_pair(v, '\u{24CE}', '\u{24E8}');
    push_pair(v, '\u{24CF}', '\u{24E9}');
    push_pair(v, '\u{24D0}', '\u{24B6}');
    push_pair(v, '\u{24D1}', '\u{24B7}');
    push_pair(v, '\u{24D2}', '\u{24B8}');
    push_pair(v, '\u{24D3}', '\u{24B9}');
    push_pair(v, '\u{24D4}', '\u{24BA}');
    assert(pview(v@) =~= o + fold_chunk_225());
}

fn push_fold_chunk_226(v: &mut Vec<FoldPair>)
    ensures
        pview(final(v)@) == pview(old(v)@) + fold_chunk_226(),
{
    let ghost o = pview(v@);
    push_pair(v, '\u{24D5}', '\u{24BB}');
    push_pair(v, '\u{24D6}', '\u{24BC}');
    push_pair(v, '\u{24D7}', '\u{24BD}');
    push_pair(v, '\u{24D8}', '\u{24BE}');
    push_pair(v, '\u{24D9}', '\u{24BF}');
    push_pair(v, '\u{24DA}', '\u{24C0}');
    push_pair(v, '\u{24DB}', '\u{24C1}');
    push_pair(v, '\u{24DC}', '\u{24C2}');
    assert(pview(v@) =~= o + fold_chunk_226());
}

fn push_fold_chunk_227(v: &mut Vec<FoldPair>)
    ensures
        pview(final(v)@) == pview(old(v)@) + fold_chunk_227(),
{
    let ghost o = pview(v@);
    push_pair(v, '\u{24DD}', '\u{24C3}');
    push_pair(v, '\u{24DE}', '\u{24C4}');
    push_pair(v, '\u{24DF}', '\u{24C5}');
    push_pair(v, '\u{24E0}', '\u{24C6}');
    push_pair(v, '\u{24E1}', '\u{24C7}');
    push_pair(v, '\u{24E2}', '\u{24C8}');
    push_pair(v, '\u{24E3}', '\u{24C9}');
    push_pair(v, '\u{24E4}', '\u{24CA}');
    assert(pview(v@) =~= o + fold_chunk_227());
}

fn push_fold_chunk_228(v: &mut Vec<FoldPair>)
    ensures
        pview(final(v)@) == pview(old(v)@) + fold_chunk_228(),
{
    let ghost o = pview(v@);
    push_pair(v, '\u{24E5}', '\u{24CB}');
    push_pair(v, '\u{24E6}', '\u{24CC}');
    push_pair(v, '\u{24E7}', '\u{24CD}');
    push_pair(v, '\u{24E8}', '\u{24CE}');
    push_pair(v, '\u{24E9}', '\u{24CF}');
    push_pair(v, '\u{2C00}', '\u{2C30}');
    push_pair(v, '\u{2C01}', '\u{2C31}');
    push_pair(v, '\u{2C02}', '\u{2C32}');
    assert(pview(v@) =~= o + fold_chunk_228());
}

fn push_fold_chunk_229(v: &mut Vec<FoldPair>)
    ensures
        pview(final(v)@) == pview(old(v)@) + fold_chunk_229(),
{
    let ghost o = pview(v@);
    push_pair(v, '\u{2C03}', '\u{2C33}');
    push_pair(v, '\u{2C04}', '\u{2C34}');
    push_pair(v, '\u{2C05}', '\u{2C35}');
    push_pair(v, '\u{2C06}', '\u{2C36}');
    push_pair(v, '\u{2C07}', '\u{2C37}');
    push_pair(v, '\u{2C08}', '\u{2C38}');
    push_pair(v, '\u{2C09}', '\u{2C39}');
    push_pair(v, '\u{2C0A}', '\u{2C3A}');
    assert(pview(v@) =~= o + fold_chunk_229());
}

fn push_fold_chunk_230(v: &mut Vec<FoldPair>)
    ensures
        pview(final(v)@) == pview(old(v)@) + fold_chunk_230(),
{
    let ghost o = pview(v@);
    push_pair(v, '\u{2C0B}', '\u{2C3B}');
    push_pair(v, '\u{2C0C}', '\u{2C3C}');
    push_pair(v, '\u{2C0D}', '\u{2C3D}');
    push_pair(v, '\u{2C0E}', '\u{2C3E}');
    push_pair(v, '\u{2C0F}', '\u{2C3F}');
    push_pair(v, '\u{2C10}', '\u{2C40}');
    push_pair(v, '\u{2C11}', '\u{2C41}');
    push_pair(v, '\u{2C12}', '\u{2C42}');
    assert(pview(v@) =~= o + fold_chunk_230());
}

fn push_fold_chunk_231(v: &mut Vec<FoldPair>)
    ensures
        pview(final(v)@) == pview(old(v)@) + fold_chunk_231(),
{
    let ghost o = pview(v@);
    push_pair(v, '\u{2C13}', '\u{2C43}');
    push_pair(v, '\u{2C14}', '\u{2C44}');
    push_pair(v, '\u{2C15}', '\u{2C45}');
    push_pair(v, '\u{2C16}', '\u{2C46}');
    push_pair(v, '\u{2C17}', '\u{2C47}');
    push_pair(v, '\u{2C18}', '\u{2C48}');
    push_pair(v, '\u{2C19}', '\u{2C49}');
    push_pair(v, '\u{2C1A}', '\u{2C4A}');
    assert(pview(v@) =~= o + fold_chunk_231());
}

fn push_fold_chunk_232(v: &mut Vec<FoldPair>)
    ensures
        pview(final(v)@) == pview(old(v)@) + fold_chunk_232(),
{
    let ghost o = pview(v@);
    push_pair(v, '\u{2C1B}', '\u{2C4B}');
    push_pair(v, '\u{2C1C}', '\u{2C4C}');
    push_pair(v, '\u{2C1D}', '\u{2C4D}');
    push_pair(v, '\u{2C1E}', '\u{2C4E}');
    push_pair(v, '\u{2C1F}', '\u{2C4F}');
    push_pair(v, '\u{2C20}', '\u{2C50}');
    push_pair(v, '\u{2C21}', '\u{2C51}');
    push_pair(v, '\u{2C22}', '\u{2C52}');
    assert(pview(v@) =~= o + fold_chunk_232());
}

fn push_fold_chunk_233(v: &mut Vec<FoldPair>)
    ensures
        pview(final(v)@) == pview(old(v)@) + fold_chunk_233(),
{
    let ghost o = pview(v@);
    push_pair(v, '\u{2C23}', '\u{2C53}');
    push_pair(v, '\u{2C24}', '\u{2C54}');
    push_pair(v, '\u{2C25}', '\u{2C55}');
    push_pair(v, '\u{2C26}', '\u{2C56}');
    push_pair(v, '\u{2C27}', '\u{2C57}');
    push_pair(v, '\u{2C28}', '\u{2C58}');
    push_pair(v, '\u{2C29}', '\u{2C59}');
    push_pair(v, '\u{2C2A}', '\u{2C5A}');
    assert(pview(v@) =~= o + fold_chunk_233());
}

fn push_fold_chunk_234(v: &mut Vec<FoldPair>)
    ensures
        pview(final(v)@) == pview(old(v)@) + fold_chunk_234(),
{
    let ghost o = pview(v@);
    push_pair(v, '\u{2C2B}', '\u{2C5B}');
    push_pair(v, '\u{2C2C}', '\u{2C5C}');
    push_pair(v, '\u{2C2D}', '\u{2C5D}');
    push_pair(v, '\u{2C2E}', '\u{2C5E}');
    push_pair(v, '\u{2C2F}', '\u{2C5F}');
    push_pair(v, '\u{2C30}', '\u{2C00}');
    push_pair(v, '\u{2C31}', '\u{2C01}');
    push_pair(v, '\u{2C32}', '\u{2C02}');
    assert(pview(v@) =~= o + fold_chunk_234());
}

fn push_fold_chunk_235(v: &mut Vec<FoldPair>)
    ensures
        pview(final(v)@) == pview(old(v)@) + fold_chunk_235(),
{
    let ghost o = pview(v@);
    push_pair(v, '\u{2C33}', '\u{2C03}');
    push_pair(v, '\u{2C34}', '\u{2C04}');
    push_pair(v, '\u{2C35}', '\u{2C05}');
    push_pair(v, '\u{2C36}', '\u{2C06}');
    push_pair(v, '\u{2C37}', '\u{2C07}');
    push_pair(v, '\u{2C38}', '\u{2C08}');
    push_pair(v, '\u{2C39}', '\u{2C09}');
    push_pair(v, '\u{2C3A}', '\u{2C0A}');
    assert(pview(v@) =~= o + fold_chunk_235());
}

fn push_fold_chunk_236(v: &mut Vec<FoldPair>)
    ensures
        pview(final(v)@) == pview(old(v)@) + fold_chunk_236(),
{
    let ghost o = pview(v@);
    push_pair(v, '\u{2C3B}', '\u{2C0B}');
    push_pair(v, '\u{2C3C}', '\u{2C0C}');
    push_pair(v, '\u{2C3D}', '\u{2C0D}');
    push_pair(v, '\u{2C3E}', '\u{2C0E}');
    push_pair(v, '\u{2C3F}', '\u{2C0F}');
    push_pair(v, '\u{2C40}', '\u{2C10}');
    push_pair(v, '\u{2C41}', '\u{2C11}');
    push_pair(v, '\u{2C42}', '\u{2C12}');
    assert(pview(v@) =~= o + fold_chunk_236());
}

fn push_fold_chunk_237(v: &mut Vec<FoldPair>)
    ensures
        pview(final(v)@) == pview(old(v)@) + fold_chunk_237(),
{
    let ghost o = pview(v@);
    push_pair(v, '\u{2C43}', '\u{2C13}');
    push_pair(v, '\u{2C44}', '\u{2C14}');
    push_pair(v, '\u{2C45}', '\u{2C15}');
    push_pair(v, '\u{2C46}', '\u{2C16}');
    push_pair(v, '\u{2C47}', '\u{2C17}');
    push_pair(v, '\u{2C48}', '\u{2C18}');
    push_pair(v, '\u{2C49}', '\u{2C19}');
    push_pair(v, '\u{2C4A}', '\u{2C1A}');
    assert(pview(v@) =~= o + fold_chunk_237());
}

fn push_fold_chunk_238(v: &mut Vec<FoldPair>)
    ensures
        pview(final(v)@) == pview(old(v)@) + fold_chunk_238(),
{
    let ghost o = pview(v@);
    push_pair(v, '\u{2C4B}', '\u{2C1B}');
    push_pair(v, '\u{2C4C}', '\u{2C1C}');
    push_pair(v, '\u{2C4D}', '\u{2C1D}');
    push_pair(v, '\u{2C4E}', '\u{2C1E}');
    push_pair(v, '\u{2C4F}', '\u{2C1F}');
    push_pair(v, '\u{2C50}', '\u{2C20}');
    push_pair(v, '\u{2C51}', '\u{2C21}');
    push_pair(v, '\u{2C52}', '\u{2C22}');
    assert(pview(v@) =~= o + fold_chunk_238());
}

fn push_fold_chunk_239(v: &mut Vec<FoldPair>)
    ensures
        pview(final(v)@) == pview(old(v)@) + fold_chunk_239(),
{
    let ghost o = pview(v@);
    push_pair(v, '\u{2C53}', '\u{2C23}');
    push_pair(v, '\u{2C54}', '\u{2C24}');
    push_pair(v, '\u{2C55}', '\u{2C25}');
    push_pair(v, '\u{2C56}', '\u{2C26}');
    push_pair(v, '\u{2C57}', '\u{2C27}');
    push_pair(v, '\u{2C58}', '\u{2C28}');
    push_pair(v, '\u{2C59}', '\u{2C29}');
    push_pair(v, '\u{2C5A}', '\u{2C2A}');
    assert(pview(v@) =~= o + fold_chunk_239());
}

fn push_fold_chunk_240(v: &mut Vec<FoldPair>)
    ensures
        pview(final(v)@) == pview(old(v)@) + fold_chunk_240(),
{
    let ghost o = pview(v@);
    push_pair(v, '\u{2C5B}', '\u{2C2B}');
    push_pair(v, '\u{2C5C}', '\u{2C2C}');
    push_pair(v, '\u{2C5D}', '\u{2C2D}');
    push_pair(v, '\u{2C5E}', '\u{2C2E}');
    push_pair(v, '\u{2C5F}', '\u{2C2F}');
    push_pair(v, '\u{2C60}', '\u{2C61}');
    push_pair(v, '\u{2C61}', '\u{2C60}');
    push_pair(v, '\u{2C62}', '\u{26B}');
    assert(pview(v@) =~= o + fold_chunk_240());
}

fn push_fold_chunk_241(v: &mut Vec<FoldPair>)
    ensures
        pview(final(v)@) == pview(old(v)@) + fold_chunk_241(),
{
    let ghost o = pview(v@);
    push_pair(v, '\u{2C63}', '\u{1D7D}');
    push_pair(v, '\u{2C64}', '\u{27D}');
    push_pair(v, '\u{2C65}', '\u{23A}');
    push_pair(v, '\u{2C66}', '\u{23E}');
    push_pair(v, '\u{2C67}', '\u{2C68}');
    push_pair(v, '\u{2C68}', '\u{2C67}');
    push_pair(v, '\u{2C69}', '\u{2C6A}');
    push_pair(v, '\u{2C6A}', '\u{2C69}');
    assert(pview(v@) =~= o + fold_chunk_241());
}

fn push_fold_chunk_242(v: &mut Vec<FoldPair>)
    ensures
        pview(final(v)@) == pview(old(v)@) + fold_chunk_242(),
{
    let ghost o = pview(v@);
    push_pair(v, '\u{2C6B}', '\u{2C6C}');
    push_pair(v, '\u{2C6C}', '\u{2C6B}');
    push_pair(v, '\u{2C6D}', '\u{251}');
    push_pair(v, '\u{2C6E}', '\u{271}');
    push_pair(v, '\u{2C6F}', '\u{250}');
    push_pair(v, '\u{2C70}', '\u{252}');
    push_pair(v, '\u{2C72}', '\u{2C73}');
    push_pair(v, '\u{2C73}', '\u{2C72}');
    assert(pview(v@) =~= o + fold_chunk_242());
}

fn push_fold_chunk_243(v: &mut Vec<FoldPair>)
    ensures
        pview(final(v)@) == pview(old(v)@) + fold_chunk_243(),
{
    let ghost o = pview(v@);
    push_pair(v, '\u{2C75}', '\u{2C76}');
    push_pair(v, '\u{2C76}', '\u{2C75}');
    push_pair(v, '\u{2C7E}', '\u{23F}');
    push_pair(v, '\u{2C7F}', '\u{240}');
    push_pair(v, '\u{2C80}', '\u{2C81}');
    push_pair(v, '\u{2C81}', '\u{2C80}');
    push_pair(v, '\u{2C82}', '\u{2C83}');
    push_pair(v, '\u{2C83}', '\u{2C82}');
    assert(pview(v@) =~= o + fold_chunk_243());
}

fn push_fold_chunk_244(v: &mut Vec<FoldPair>)
    ensures
        pview(final(v)@) == pview(old(v)@) + fold_chunk_244(),
{
    let ghost o = pview(v@);
    push_pair(v, '\u{2C84}', '\u{2C85}');
    push_pair(v, '\u{2C85}', '\u{2C84}');
    push_pair(v, '\u{2C86}', '\u{2C87}');
    push_pair(v, '\u{2C87}', '\u{2C86}');
    push_pair(v, '\u{2C88}', '\u{2C89}');
    push_pair(v, '\u{2C89}', '\u{2C88}');
    push_pair(v, '\u{2C8A}', '\u{2C8B}');
    push_pair(v, '\u{2C8B}', '\u{2C8A}');
    assert(pview(v@) =~= o + fold_chunk_244());
}

fn push_fold_chunk_245(v: &mut Vec<FoldPair>)
    ensures
        pview(final(v)@) == pview(old(v)@) + fold_chunk_245(),
{
    let ghost o = pview(v@);
    push_pair(v, '\u{2C8C}', '\u{2C8D}');
    push_pair(v, '\u{2C8D}', '\u{2C8C}');
    push_pair(v, '\u{2C8E}', '\u{2C8F}');
    push_pair(v, '\u{2C8F}', '\u{2C8E}');
    push_pair(v, '\u{2C90}', '\u{2C91}');
    push_pair(v, '\u{2C91}', '\u{2C90}');
    push_pair(v, '\u{2C92}', '\u{2C93}');
    push_pair(v, '\u{2C93}', '\u{2C92}');
    assert(pview(v@) =~= o + fold_chunk_245());
}

fn push_fold_chunk_246(v: &mut Vec<FoldPair>)
    ensures
        pview(final(v)@) == pview(old(v)@) + fold_chunk_246(),
{
    let ghost o = pview(v@);
    push_pair(v, '\u{2C94}', '\u{2C95}');
    push_pair(v, '\u{2C95}', '\u{2C94}');
    push_pair(v, '\u{2C96}', '\u{2C97}');
    push_pair(v, '\u{2C97}', '\u{2C96}');
    push_pair(v, '\u{2C98}', '\u{2C99}');
    push_pair(v, '\u{2C99}', '\u{2C98}');
    push_pair(v, '\u{2C9A}', '\u{2C9B}');
    push_pair(v, '\u{2C9B}', '\u{2C9A}');
    assert(pview(v@) =~= o + fold_chunk_246());
}

fn push_fold_chunk_247(v: &mut Vec<FoldPair>)
    ensures
        pview(final(v)@) == pview(old(v)@) + fold_chunk_247(),
{
    let ghost o = pview(v@);
    push_pair(v, '\u{2C9C}', '\u{2C9D}');
    push_pair(v, '\u{2C9D}', '\u{2C9C}');
    push_pair(v, '\u{2C9E}', '\u{2C9F}');
    push_pair(v, '\u{2C9F}', '\u{2C9E}');
    push_pair(v, '\u{2CA0}', '\u{2CA1}');
    push_pair(v, '\u{2CA1}', '\u{2CA0}');
    push_pair(v, '\u{2CA2}', '\u{2CA3}');
    push_pair(v, '\u{2CA3}', '\u{2CA2}');
    assert(pview(v@) =~= o + fold_chunk_247());
}

fn push_fold_chunk_248(v: &mut Vec<FoldPair>)
    ensures
        pview(final(v)@) == pview(old(v)@) + fold_chunk_248(),
{
    let ghost o = pview(v@);
    push_pair(v, '\u{2CA4}', '\u{2CA5}');
    push_pair(v, '\u{2CA5}', '\u{2CA4}');
    push_pair(v, '\u{2CA6}', '\u{2CA7}');
    push_pair(v, '\u{2CA7}', '\u{2CA6}');
    push_pair(v, '\u{2CA8}', '\u{2CA9}');
    push_pair(v, '\u{2CA9}', '\u{2CA8}');
    push_pair(v, '\u{2CAA}', '\u{2CAB}');
    push_pair(v, '\u{2CAB}', '\u{2CAA}');
    assert(pview(v@) =~= o + fold_chunk_248());
}

fn push_fold_chunk_249(v: &mut Vec<FoldPair>)
    ensures
        pview(final(v)@) == pview(old(v)@) + fold_chunk_249(),
{
    let ghost o = pview(v@);
    push_pair(v, '\u{2CAC}', '\u{2CAD}');
    push_pair(v, '\u{2CAD}', '\u{2CAC}');
    push_pair(v, '\u{2CAE}', '\u{2CAF}');
    push_pair(v, '\u{2CAF}', '\u{2CAE}');
    push_pair(v, '\u{2CB0}', '\u{2CB1}');
    push_pair(v, '\u{2CB1}', '\u{2CB0}');
    push_pair(v, '\u{2CB2}', '\u{2CB3}');
    push_pair(v, '\u{2CB3}', '\u{2CB2}');
    assert(pview(v@) =~= o + fold_chunk_249());
}

fn push_fold_chunk_250(v: &mut Vec<FoldPair>)
    ensures
        pview(final(v)@) == pview(old(v)@) + fold_chunk_250(),
{
    let ghost o = pview(v@);
    push_pair(v, '\u{2CB4}', '\u{2CB5}');
    push_pair(v, '\u{2CB5}', '\u{2CB4}');
    push_pair(v, '\u{2CB6}', '\u{2CB7}');
    push_pair(v, '\u{2CB7}', '\u{2CB6}');
    push_pair(v, '\u{2CB8}', '\u{2CB9}');
    push_pair(v, '\u{2CB9}', '\u{2CB8}');
    push_pair(v, '\u{2CBA}', '\u{2CBB}');
    push_pair(v, '\u{2CBB}', '\u{2CBA}');
    assert(pview(v@) =~= o + fold_chunk_250());
}

fn push_fold_chunk_251(v: &mut Vec<FoldPair>)
    ensures
        pview(final(v)@) == pview(old(v)@) + fold_chunk_251(),
{
    let ghost o = pview(v@);
    push_pair(v, '\u{2CBC}', '\u{2CBD}');
    push_pair(v, '\u{2CBD}', '\u{2CBC}');
    push_pair(v, '\u{2CBE}', '\u{2CBF}');
    push_pair(v, '\u{2CBF}', '\u{2CBE}');
    push_pair(v, '\u{2CC0}', '\u{2CC1}');
    push_pair(v, '\u{2CC1}', '\u{2CC0}');
    push_pair(v, '\u{2CC2}', '\u{2CC3}');
    push_pair(v, '\u{2CC3}', '\u{2CC2}');
    assert(pview(v@) =~= o + fold_chunk_251());
}

fn push_fold_chunk_252(v: &mut Vec<FoldPair>)
    ensures
        pview(final(v)@) == pview(old(v)@) + fold_chunk_252(),
{
    let ghost o = pview(v@);
    push_pair(v, '\u{2CC4}', '\u{2CC5}');
    push_pair(v, '\u{2CC5}', '\u{2CC4}');
    push_pair(v, '\u{2CC6}', '\u{2CC7}');
    push_pair(v, '\u{2CC7}', '\u{2CC6}');
    push_pair(v, '\u{2CC8}', '\u{2CC9}');
    push_pair(v, '\u{2CC9}', '\u{2CC8}');
    push_pair(v, '\u{2CCA}', '\u{2CCB}');
    push_pair(v, '\u{2CCB}', '\u{2CCA}');
    assert(pview(v@) =~= o + fold_chunk_252());
}

fn push_fold_chunk_253(v: &mut Vec<FoldPair>)
    ensures
        pview(final(v)@) == pview(old(v)@) + fold_chunk_253(),
{
    let ghost o = pview(v@);
    push_pair(v, '\u{2CCC}', '\u{2CCD}');
    push_pair(v, '\u{2CCD}', '\u{2CCC}');
    push_pair(v, '\u{2CCE}', '\u{2CCF}');
    push_pair(v, '\u{2CCF}', '\u{2CCE}');
    push_pair(v, '\u{2CD0}', '\u{2CD1}');
    push_pair(v, '\u{2CD1}', '\u{2CD0}');
    push_pair(v, '\u{2CD2}', '\u{2CD3}');
    push_pair(v, '\u{2CD3}', '\u{2CD2}');
    assert(pview(v@) =~= o + fold_chunk_253());
}

fn push_fold_chunk_254(v: &mut Vec<FoldPair>)
    ensures
        pview(final(v)@) == pview(old(v)@) + fold_chunk_254(),
{
    let ghost o = pview(v@);
    push_pair(v, '\u{2CD4}', '\u{2CD5}');
    push_pair(v, '\u{2CD5}', '\u{2CD4}');
    push_pair(v, '\u{2CD6}', '\u{2CD7}');
    push_pair(v, '\u{2CD7}', '\u{2CD6}');
    push_pair(v, '\u{2CD8}', '\u{2CD9}');
    push_pair(v, '\u{2CD9}', '\u{2CD8}');
    push_pair(v, '\u{2CDA}', '\u{2CDB}');
    push_pair(v, '\u{2CDB}', '\u{2CDA}');
    assert(pview(v@) =~= o + fold_chunk_254());
}

fn push_fold_chunk_255(v: &mut Vec<FoldPair>)
    ensures
        pview(final(v)@) == pview(old(v)@) + fold_chunk_255(),
{
    let ghost o = pview(v@);
    push_pair(v, '\u{2CDC}', '\u{2CDD}');
    push_pair(v, '\u{2CDD}', '\u{2CDC}');
    push_pair(v, '\u{2CDE}', '\u{2CDF}');
    push_pair(v, '\u{2CDF}', '\u{2CDE}');
    push_pair(v, '\u{2CE0}', '\u{2CE1}');
    push_pair(v, '\u{2CE1}', '\u{2CE0}');
    push_pair(v, '\u{2CE2}', '\u{2CE3}');
    push_pair(v, '\u{2CE3}', '\u{2CE2}');
    assert(pview(v@) =~= o + fold_chunk_255());
}

fn push_fold_chunk_256(v: &mut Vec<FoldPair>)
    ensures
        pview(final(v)@) == pview(old(v)@) + fold_chunk_256(),
{
    let ghost o = pview(v@);
    push_pair(v, '\u{2CEB}', '\u{2CEC}');
    push_pair(v, '\u{2CEC}', '\u{2CEB}');
    push_pair(v, '\u{2CED}', '\u{2CEE}');
    push_pair(v, '\u{2CEE}', '\u{2CED}');
    push_pair(v, '\u{2CF2}', '\u{2CF3}');
    push_pair(v, '\u{2CF3}', '\u{2CF2}');
    push_pair(v, '\u{2D00}', '\u{10A0}');
    push_pair(v, '\u{2D01}', '\u{10A1}');
    assert(pview(v@) =~= o + fold_chunk_256());
}

fn push_fold_chunk_257(v: &mut Vec<FoldPair>)
    ensures
        pview(final(v)@) == pview(old(v)@) + fold_chunk_257(),
{
    let ghost o = pview(v@);
    push_pair(v, '\u{2D02}', '\u{10A2}');
    push_pair(v, '\u{2D03}', '\u{10A3}');
    push_pair(v, '\u{2D04}', '\u{10A4}');
    push_pair(v, '\u{2D05}', '\u{10A5}');
    push_pair(v, '\u{2D06}', '\u{10A6}');
    push_pair(v, '\u{2D07}', '\u{10A7}');
    push_pair(v, '\u{2D08}', '\u{10A8}');
    push_pair(v, '\u{2D09}', '\u{10A9}');
    assert(pview(v@) =~= o + fold_chunk_257());
}

fn push_fold_chunk_258(v: &mut Vec<FoldPair>)
    ensures
        pview(final(v)@) == pview(old(v)@) + fold_chunk_258(),
{
    let ghost o = pview(v@);
    push_pair(v, '\u{2D0A}', '\u{10AA}');
    push_pair(v, '\u{2D0B}', '\u{10AB}');
    push_pair(v, '\u{2D0C}', '\u{10AC}');
    push_pair(v, '\u{2D0D}', '\u{10AD}');
    push_pair(v, '\u{2D0E}', '\u{10AE}');
    push_pair(v, '\u{2D0F}', '\u{10AF}');
    push_pair(v, '\u{2D10}', '\u{10B0}');
    push_pair(v, '\u{2D11}', '\u{10B1}');
    assert(pview(v@) =~= o + fold_chunk_258());
}

fn push_fold_chunk_259(v: &mut Vec<FoldPair>)
    ensures
        pview(final(v)@) == pview(old(v)@) + fold_chunk_259(),
{
    let ghost o = pview(v@);
    push_pair(v, '\u{2D12}', '\u{10B2}');
    push_pair(v, '\u{2D13}', '\u{10B3}');
    push_pair(v, '\u{2D14}', '\u{10B4}');
    push_pair(v, '\u{2D15}', '\u{10B5}');
    push_pair(v, '\u{2D16}', '\u{10B6}');
    push_pair(v, '\u{2D17}', '\u{10B7}');
    push_pair(v, '\u{2D18}', '\u{10B8}');
    push_pair(v, '\u{2D19}', '\u{10B9}');
    assert(pview(v@) =~= o + fold_chunk_259());
}

fn push_fold_chunk_260(v: &mut Vec<FoldPair>)
    ensures
        pview(final(v)@) == pview(old(v)@) + fold_chunk_260(),
{
    let ghost o = pview(v@);
    push_pair(v, '\u{2D1A}', '\u{10BA}');
    push_pair(v, '\u{2D1B}', '\u{10BB}');
    push_pair(v, '\u{2D1C}', '\u{10BC}');
    push_pair(v, '\u{2D1D}', '\u{10BD}');
    push_pair(v, '\u{2D1E}', '\u{10BE}');
    push_pair(v, '\u{2D1F}', '\u{10BF}');
    push_pair(v, '\u{2D20}', '\u{10C0}');
    push_pair(v, '\u{2D21}', '\u{10C1}');
    assert(pview(v@) =~= o + fold_chunk_260());
}

fn push_fold_chunk_261(v: &mut Vec<FoldPair>)
    ensures
        pview(final(v)@) == pview(old(v)@) + fold_chunk_261(),
{
    let ghost o = pview(v@);
    push_pair(v, '\u{2D22}', '\u{10C2}');
    push_pair(v, '\u{2D23}', '\u{10C3}');
    push_pair(v, '\u{2D24}', '\u{10C4}');
    push_pair(v, '\u{2D25}', '\u{10C5}');
    push_pair(v, '\u{2D27}', '\u{10C7}');
    push_pair(v, '\u{2D2D}', '\u{10CD}');
    push_pair(v, '\u{A640}', '\u{A641}');
    push_pair(v, '\u{A641}', '\u{A640}');
    assert(pview(v@) =~= o + fold_chunk_261());
}

fn push_fold_chunk_262(v: &mut Vec<FoldPair>)
    ensures
        pview(final(v)@) == pview(old(v)@) + fold_chunk_262(),
{
    let ghost o = pview(v@);
    push_pair(v, '\u{A642}', '\u{A643}');
    push_pair(v, '\u{A643}', '\u{A642}');
    push_pair(v, '\u{A644}', '\u{A645}');
    push_pair(v, '\u{A645}', '\u{A644}');
    push_pair(v, '\u{A646}', '\u{A647}');
    push_pair(v, '\u{A647}', '\u{A646}');
    push_pair(v, '\u{A648}', '\u{A649}');
    push_pair(v, '\u{A649}', '\u{A648}');
    assert(pview(v@) =~= o + fold_chunk_262());
}

fn push_fold_chunk_263(v: &mut Vec<FoldPair>)
    ensures
        pview(final(v)@) == pview(old(v)@) + fold_chunk_263(),
{
    let ghost o = pview(v@);
    push_pair(v, '\u{A64A}', '\u{1C88}');
    push_pair(v, '\u{A64A}', '\u{A64B}');
    push_pair(v, '\u{A64B}', '\u{1C88}');
    push_pair(v, '\u{A64B}', '\u{A64A}');
    push_pair(v, '\u{A64C}', '\u{A64D}');
    push_pair(v, '\u{A64D}', '\u{A64C}');
    push_pair(v, '\u{A64E}', '\u{A64F}');
    push_pair(v, '\u{A64F}', '\u{A64E}');
    assert(pview(v@) =~= o + fold_chunk_263());
}

fn push_fold_chunk_264(v: &mut Vec<FoldPair>)
    ensures
        pview(final(v)@) == pview(old(v)@) + fold_chunk_264(),
{
    let ghost o = pview(v@);
    push_pair(v, '\u{A650}', '\u{A651}');
    push_pair(v, '\u{A651}', '\u{A650}');
    push_pair(v, '\u{A652}', '\u{A653}');
    push_pair(v, '\u{A653}', '\u{A652}');
    push_pair(v, '\u{A654}', '\u{A655}');
    push_pair(v, '\u{A655}', '\u{A654}');
    push_pair(v, '\u{A656}', '\u{A657}');
    push_pair(v, '\u{A657}', '\u{A656}');
    assert(pview(v@) =~= o + fold_chunk_264());
}

fn push_fold_chunk_265(v: &mut Vec<FoldPair>)
    ensures
        pview(final(v)@) == pview(old(v)@) + fold_chunk_265(),
{
    let ghost o = pview(v@);
    push_pair(v, '\u{A658}', '\u{A659}');
    push_pair(v, '\u{A659}', '\u{A658}');
    push_pair(v, '\u{A65A}', '\u{A65B}');
    push_pair(v, '\u{A65B}', '\u{A65A}');
    push_pair(v, '\u{A65C}', '\u{A65D}');
    push_pair(v, '\u{A65D}', '\u{A65C}');
    push_pair(v, '\u{A65E}', '\u{A65F}');
    push_pair(v, '\u{A65F}', '\u{A65E}');
    assert(pview(v@) =~= o + fold_chunk_265());
}

fn push_fold_chunk_266(v: &mut Vec<FoldPair>)
    ensures
        pview(final(v)@) == pview(old(v)@) + fold_chunk_266(),
{
    let ghost o = pview(v@);
    push_pair(v, '\u{A660}', '\u{A661}');
    push_pair(v, '\u{A661}', '\u{A660}');
    push_pair(v, '\u{A662}', '\u{A663}');
    push_pair(v, '\u{A663}', '\u{A662}');
    push_pair(v, '\u{A664}', '\u{A665}');
    push_pair(v, '\u{A665}', '\u{A664}');
    push_pair(v, '\u{A666}', '\u{A667}');
    push_pair(v, '\u{A667}', '\u{A666}');
    assert(pview(v@) =~= o + fold_chunk_266());
}

fn push_fold_chunk_267(v: &mut Vec<FoldPair>)
    ensures
        pview(final(v)@) == pview(old(v)@) + fold_chunk_267(),
{
    let ghost o = pview(v@);
    push_pair(v, '\u{A668}', '\u{A669}');
    push_pair(v, '\u{A669}', '\u{A668}');
    push_pair(v, '\u{A66A}', '\u{A66B}');
    push_pair(v, '\u{A66B}', '\u{A66A}');
    push_pair(v, '\u{A66C}', '\u{A66D}');
    push_pair(v, '\u{A66D}', '\u{A66C}');
    push_pair(v, '\u{A680}', '\u{A681}');
    push_pair(v, '\u{A681}', '\u{A680}');
    assert(pview(v@) =~= o + fold_chunk_267());
}

fn push_fold_chunk_268(v: &mut Vec<FoldPair>)
    ensures
        pview(final(v)@) == pview(old(v)@) + fold_chunk_268(),
{
    let ghost o = pview(v@);
    push_pair(v, '\u{A682}', '\u{A683}');
    push_pair(v, '\u{A683}', '\u{A682}');
    push_pair(v, '\u{A684}', '\u{A685}');
    push_pair(v, '\u{A685}', '\u{A684}');
    push_pair(v, '\u{A686}', '\u{A687}');
    push_pair(v, '\u{A687}', '\u{A686}');
    push_pair(v, '\u{A688}', '\u{A689}');
    push_pair(v, '\u{A689}', '\u{A688}');
    assert(pview(v@) =~= o + fold_chunk_268());
}

fn push_fold_chunk_269(v: &mut Vec<FoldPair>)
    ensures
        pview(final(v)@) == pview(old(v)@) + fold_chunk_269(),
{
    let ghost o = pview(v@);
    push_pair(v, '\u{A68A}', '\u{A68B}');
    push_pair(v, '\u{A68B}', '\u{A68A}');
    push_pair(v, '\u{A68C}', '\u{A68D}');
    push_pair(v, '\u{A68D}', '\u{A68C}');
    push_pair(v, '\u{A68E}', '\u{A68F}');
    push_pair(v, '\u{A68F}', '\u{A68E}');
    push_pair(v, '\u{A690}', '\u{A691}');
    push_pair(v, '\u{A691}', '\u{A690}');
    assert(pview(v@) =~= o + fold_chunk_269());
}

fn push_fold_chunk_270(v: &mut Vec<FoldPair>)
    ensures
        pview(final(v)@) == pview(old(v)@) + fold_chunk_270(),
{
    let ghost o = pview(v@);
    push_pair(v, '\u{A692}', '\u{A693}');
    push_pair(v, '\u{A693}', '\u{A692}');
    push_pair(v, '\u{A694}', '\u{A695}');
    push_pair(v, '\u{A695}', '\u{A694}');
    push_pair(v, '\u{A696}', '\u{A697}');
    push_pair(v, '\u{A697}', '\u{A696}');
    push_pair(v, '\u{A698}', '\u{A699}');
    push_pair(v, '\u{A699}', '\u{A698}');
    assert(pview(v@) =~= o + fold_chunk_270());
}

fn push_fold_chunk_271(v: &mut Vec<FoldPair>)
    ensures
        pview(final(v)@) == pview(old(v)@) + fold_chunk_271(),
{
    let ghost o = pview(v@);
    push_pair(v, '\u{A69A}', '\u{A69B}');
    push_pair(v, '\u{A69B}', '\u{A69A}');
    push_pair(v, '\u{A722}', '\u{A723}');
    push_pair(v, '\u{A723}', '\u{A722}');
    push_pair(v, '\u{A724}', '\u{A725}');
    push_pair(v, '\u{A725}', '\u{A724}');
    push_pair(v, '\u{A726}', '\u{A727}');
    push_pair(v, '\u{A727}', '\u{A726}');
    assert(pview(v@) =~= o + fold_chunk_271());
}

fn push_fold_chunk_272(v: &mut Vec<FoldPair>)
    ensures
        pview(final(v)@) == pview(old(v)@) + fold_chunk_272(),
{
    let ghost o = pview(v@);
    push_pair(v, '\u{A728}', '\u{A729}');
    push_pair(v, '\u{A729}', '\u{A728}');
    push_pair(v, '\u{A72A}', '\u{A72B}');
    push_pair(v, '\u{A72B}', '\u{A72A}');
    push_pair(v, '\u{A72C}', '\u{A72D}');
    push_pair(v, '\u{A72D}', '\u{A72C}');
    push_pair(v, '\u{A72E}', '\u{A72F}');
    push_pair(v, '\u{A72F}', '\u{A72E}');
    assert(pview(v@) =~= o + fold_chunk_272());
}

fn push_fold_chunk_273(v: &mut Vec<FoldPair>)
    ensures
        pview(final(v)@) == pview(old(v)@) + fold_chunk_273(),
{
    let ghost o = pview(v@);
    push_pair(v, '\u{A732}', '\u{A733}');
    push_pair(v, '\u{A733}', '\u{A732}');
    push_pair(v, '\u{A734}', '\u{A735}');
    push_pair(v, '\u{A735}', '\u{A734}');
    push_pair(v, '\u{A736}', '\u{A737}');
    push_pair(v, '\u{A737}', '\u{A736}');
    push_pair(v, '\u{A738}', '\u{A739}');
    push_pair(v, '\u{A739}', '\u{A738}');
    assert(pview(v@) =~= o + fold_chunk_273());
}

fn push_fold_chunk_274(v: &mut Vec<FoldPair>)
    ensures
        pview(final(v)@) == pview(old(v)@) + fold_chunk_274(),
{
    let ghost o = pview(v@);
    push_pair(v, '\u{A73A}', '\u{A73B}');
    push_pair(v, '\u{A73B}', '\u{A73A}');
    push_pair(v, '\u{A73C}', '\u{A73D}');
    push_pair(v, '\u{A73D}', '\u{A73C}');
    push_pair(v, '\u{A73E}', '\u{A73F}');
    push_pair(v, '\u{A73F}', '\u{A73E}');
    push_pair(v, '\u{A740}', '\u{A741}');
    push_pair(v, '\u{A741}', '\u{A740}');
    assert(pview(v@) =~= o + fold_chunk_274());
}

fn push_fold_chunk_275(v: &mut Vec<FoldPair>)
    ensures
        pview(final(v)@) == pview(old(v)@) + fold_chunk_275(),
{
    let ghost o = pview(v@);
    push_pair(v, '\u{A742}', '\u{A743}');
    push_pair(v, '\u{A743}', '\u{A742}');
    push_pair(v, '\u{A744}', '\u{A745}');
    push_pair(v, '\u{A745}', '\u{A744}');
    push_pair(v, '\u{A746}', '\u{A747}');
    push_pair(v, '\u{A747}', '\u{A746}');
    push_pair(v, '\u{A748}', '\u{A749}');
    push_pair(v, '\u{A749}', '\u{A748}');
    assert(pview(v@) =~= o + fold_chunk_275());
}

fn push_fold_chunk_276(v: &mut Vec<FoldPair>)
    ensures
        pview(final(v)@) == pview(old(v)@) + fold_chunk_276(),
{
    let ghost o = pview(v@);
    push_pair(v, '\u{A74A}', '\u{A74B}');
    push_pair(v, '\u{A74B}', '\u{A74A}');
    push_pair(v, '\u{A74C}', '\u{A74D}');
    push_pair(v, '\u{A74D}', '\u{A74C}');
    push_pair(v, '\u{A74E}', '\u{A74F}');
    push_pair(v, '\u{A74F}', '\u{A74E}');
    push_pair(v, '\u{A750}', '\u{A751}');
    push_pair(v, '\u{A751}', '\u{A750}');
    assert(pview(v@) =~= o + fold_chunk_276());
}

fn push_fold_chunk_277(v: &mut Vec<FoldPair>)
    ensures
        pview(final(v)@) == pview(old(v)@) + fold_chunk_277(),
{
    let ghost o = pview(v@);
    push_pair(v, '\u{A752}', '\u{A753}');
    push_pair(v, '\u{A753}', '\u{A752}');
    push_pair(v, '\u{A754}', '\u{A755}');
    push_pair(v, '\u{A755}', '\u{A754}');
    push_pair(v, '\u{A756}', '\u{A757}');
    push_pair(v, '\u{A757}', '\u{A756}');
    push_pair(v, '\u{A758}', '\u{A759}');
    push_pair(v, '\u{A759}', '\u{A758}');
    assert(pview(v@) =~= o + fold_chunk_277());
}

fn push_fold_chunk_278(v: &mut Vec<FoldPair>)
    ensures
        pview(final(v)@) == pview(old(v)@) + fold_chunk_278(),
{
    let ghost o = pview(v@);
    push_pair(v, '\u{A75A}', '\u{A75B}');
    push_pair(v, '\u{A75B}', '\u{A75A}');
    push_pair(v, '\u{A75C}', '\u{A75D}');
    push_pair(v, '\u{A75D}', '\u{A75C}');
    push_pair(v, '\u{A75E}', '\u{A75F}');
    push_pair(v, '\u{A75F}', '\u{A75E}');
    push_pair(v, '\u{A760}', '\u{A761}');
    push_pair(v, '\u{A761}', '\u{A760}');
    assert(pview(v@) =~= o + fold_chunk_278());
}

fn push_fold_chunk_279(v: &mut Vec<FoldPair>)
    ensures
        pview(final(v)@) == pview(old(v)@) + fold_chunk_279(),
{
    let ghost o = pview(v@);
    push_pair(v, '\u{A762}', '\u{A763}');
    push_pair(v, '\u{A763}', '\u{A762}');
    push_pair(v, '\u{A764}', '\u{A765}');
    push_pair(v, '\u{A765}', '\u{A764}');
    push_pair(v, '\u{A766}', '\u{A767}');
    push_pair(v, '\u{A767}', '\u{A766}');
    push_pair(v, '\u{A768}', '\u{A769}');
    push_pair(v, '\u{A769}', '\u{A768}');
    assert(pview(v@) =~= o + fold_chunk_279());
}

fn push_fold_chunk_280(v: &mut Vec<FoldPair>)
    ensures
        pview(final(v)@) == pview(old(v)@) + fold_chunk_280(),
{
    let ghost o = pview(v@);
    push_pair(v, '\u{A76A}', '\u{A76B}');
    push_pair(v, '\u{A76B}', '\u{A76A}');
    push_pair(v, '\u{A76C}', '\u{A76D}');
    push_pair(v, '\u{A76D}', '\u{A76C}');
    push_pair(v, '\u{A76E}', '\u{A76F}');
    push_pair(v, '\u{A76F}', '\u{A76E}');
    push_pair(v, '\u{A779}', '\u{A77A}');
    push_pair(v, '\u{A77A}', '\u{A779}');
    assert(pview(v@) =~= o + fold_chunk_280());
}

fn push_fold_chunk_281(v: &mut Vec<FoldPair>)
    ensures
        pview(final(v)@) == pview(old(v)@) + fold_chunk_281(),
{
    let ghost o = pview(v@);
    push_pair(v, '\u{A77B}', '\u{A77C}');
    push_pair(v, '\u{A77C}', '\u{A77B}');
    push_pair(v, '\u{A77D}', '\u{1D79}');
    push_pair(v, '\u{A77E}', '\u{A77F}');
    push_pair(v, '\u{A77F}', '\u{A77E}');
    push_pair(v, '\u{A780}', '\u{A781}');
    push_pair(v, '\u{A781}', '\u{A780}');
    push_pair(v, '\u{A782}', '\u{A783}');
    assert(pview(v@) =~= o + fold_chunk_281());
}

fn push_fold_chunk_282(v: &mut Vec<FoldPair>)
    ensures
        pview(final(v)@) == pview(old(v)@) + fold_chunk_282(),
{
    let ghost o = pview(v@);
    push_pair(v, '\u{A783}', '\u{A782}');
    push_pair(v, '\u{A784}', '\u{A785}');
    push_pair(v, '\u{A785}', '\u{A784}');
    push_pair(v, '\u{A786}', '\u{A787}');
    push_pair(v, '\u{A787}', '\u{A786}');
    push_pair(v, '\u{A78B}', '\u{A78C}');
    push_pair(v, '\u{A78C}', '\u{A78B}');
    push_pair(v, '\u{A78D}', '\u{265}');
    assert(pview(v@) =~= o + fold_chunk_282());
}

fn push_fold_chunk_283(v: &mut Vec<FoldPair>)
    ensures
        pview(final(v)@) == pview(old(v)@) + fold_chunk_283(),
{
    let ghost o = pview(v@);
    push_pair(v, '\u{A790}', '\u{A791}');
    push_pair(v, '\u{A791}', '\u{A790}');
    push_pair(v, '\u{A792}', '\u{A793}');
    push_pair(v, '\u{A793}', '\u{A792}');
    push_pair(v, '\u{A794}', '\u{A7C4}');
    push_pair(v, '\u{A796}', '\u{A797}');
    push_pair(v, '\u{A797}', '\u{A796}');
    push_pair(v, '\u{A798}', '\u{A799}');
    assert(pview(v@) =~= o + fold_chunk_283());
}

fn push_fold_chunk_284(v: &mut Vec<FoldPair>)
    ensures
        pview(final(v)@) == pview(old(v)@) + fold_chunk_284(),
{
    let ghost o = pview(v@);
    push_pair(v, '\u{A799}', '\u{A798}');
    push_pair(v, '\u{A79A}', '\u{A79B}');
    push_pair(v, '\u{A79B}', '\u{A79A}');
    push_pair(v, '\u{A79C}', '\u{A79D}');
    push_pair(v, '\u{A79D}', '\u{A79C}');
    push_pair(v, '\u{A79E}', '\u{A79F}');
    push_pair(v, '\u{A79F}', '\u{A79E}');
    push_pair(v, '\u{A7A0}', '\u{A7A1}');
    assert(pview(v@) =~= o + fold_chunk_284());
}

fn push_fold_chunk_285(v: &mut Vec<FoldPair>)
    ensures
        pview(final(v)@) == pview(old(v)@) + fold_chunk_285(),
{
    let ghost o = pview(v@);
    push_pair(v, '\u{A7A1}', '\u{A7A0}');
    push_pair(v, '\u{A7A2}', '\u{A7A3}');
    push_pair(v, '\u{A7A3}', '\u{A7A2}');
    push_pair(v, '\u{A7A4}', '\u{A7A5}');
    push_pair(v, '\u{A7A5}', '\u{A7A4}');
    push_pair(v, '\u{A7A6}', '\u{A7A7}');
    push_pair(v, '\u{A7A7}', '\u{A7A6}');
    push_pair(v, '\u{A7A8}', '\u{A7A9}');
    assert(pview(v@) =~= o + fold_chunk_285());
}

fn push_fold_chunk_286(v: &mut Vec<FoldPair>)
    ensures
        pview(final(v)@) == pview(old(v)@) + fold_chunk_286(),
{
    let ghost o = pview(v@);
    push_pair(v, '\u{A7A9}', '\u{A7A8}');
    push_pair(v, '\u{A7AA}', '\u{266}');
    push_pair(v, '\u{A7AB}', '\u{25C}');
    push_pair(v, '\u{A7AC}', '\u{261}');
    push_pair(v, '\u{A7AD}', '\u{26C}');
    push_pair(v, '\u{A7AE}', '\u{26A}');
    push_pair(v, '\u{A7B0}', '\u{29E}');
    push_pair(v, '\u{A7B1}', '\u{287}');
    assert(pview(v@) =~= o + fold_chunk_286());
}

fn push_fold_chunk_287(v: &mut Vec<FoldPair>)
    ensures
        pview(final(v)@) == pview(old(v)@) + fold_chunk_287(),
{
    let ghost o = pview(v@);
    push_pair(v, '\u{A7B2}', '\u{29D}');
    push_pair(v, '\u{A7B3}', '\u{AB53}');
    push_pair(v, '\u{A7B4}', '\u{A7B5}');
    push_pair(v, '\u{A7B5}', '\u{A7B4}');
    push_pair(v, '\u{A7B6}', '\u{A7B7}');
    push_pair(v, '\u{A7B7}', '\u{A7B6}');
    push_pair(v, '\u{A7B8}', '\u{A7B9}');
    push_pair(v, '\u{A7B9}', '\u{A7B8}');
    assert(pview(v@) =~= o + fold_chunk_287());
}

fn push_fold_chunk_288(v: &mut Vec<FoldPair>)
    ensures
        pview(final(v)@) == pview(old(v)@) + fold_chunk_288(),
{
    let ghost o = pview(v@);
    push_pair(v, '\u{A7BA}', '\u{A7BB}');
    push_pair(v, '\u{A7BB}', '\u{A7BA}');
    push_pair(v, '\u{A7BC}', '\u{A7BD}');
    push_pair(v, '\u{A7BD}', '\u{A7BC}');
    push_pair(v, '\u{A7BE}', '\u{A7BF}');
    push_pair(v, '\u{A7BF}', '\u{A7BE}');
    push_pair(v, '\u{A7C0}', '\u{A7C1}');
    push_pair(v, '\u{A7C1}', '\u{A7C0}');
    assert(pview(v@) =~= o + fold_chunk_288());
}

fn push_fold_chunk_289(v: &mut Vec<FoldPair>)
    ensures
        pview(final(v)@) == pview(old(v)@) + fold_chunk_289(),
{
    let ghost o = pview(v@);
    push_pair(v, '\u{A7C2}', '\u{A7C3}');
    push_pair(v, '\u{A7C3}', '\u{A7C2}');
    push_pair(v, '\u{A7C4}', '\u{A794}');
    push_pair(v, '\u{A7C5}', '\u{282}');
    push_pair(v, '\u{A7C6}', '\u{1D8E}');
    push_pair(v, '\u{A7C7}', '\u{A7C8}');
    push_pair(v, '\u{A7C8}', '\u{A7C7}');
    push_pair(v, '\u{A7C9}', '\u{A7CA}');
    assert(pview(v@) =~= o + fold_chunk_289());
}

fn push_fold_chunk_290(v: &mut Vec<FoldPair>)
    ensures
        pview(final(v)@) == pview(old(v)@) + fold_chunk_290(),
{
    let ghost o = pview(v@);
    push_pair(v, '\u{A7CA}', '\u{A7C9}');
    push_pair(v, '\u{A7CB}', '\u{264}');
    push_pair(v, '\u{A7CC}', '\u{A7CD}');
    push_pair(v, '\u{A7CD}', '\u{A7CC}');
    push_pair(v, '\u{A7D0}', '\u{A7D1}');
    push_pair(v, '\u{A7D1}', '\u{A7D0}');
    push_pair(v, '\u{A7D6}', '\u{A7D7}');
    push_pair(v, '\u{A7D7}', '\u{A7D6}');
    assert(pview(v@) =~= o + fold_chunk_290());
}

fn push_fold_chunk_291(v: &mut Vec<FoldPair>)
    ensures
        pview(final(v)@) == pview(old(v)@) + fold_chunk_291(),
{
    let ghost o = pview(v@);
    push_pair(v, '\u{A7D8}', '\u{A7D9}');
    push_pair(v, '\u{A7D9}', '\u{A7D8}');
    push_pair(v, '\u{A7DA}', '\u{A7DB}');
    push_pair(v, '\u{A7DB}', '\u{A7DA}');
    push_pair(v, '\u{A7DC}', '\u{19B}');
    push_pair(v, '\u{A7F5}', '\u{A7F6}');
    push_pair(v, '\u{A7F6}', '\u{A7F5}');
    push_pair(v, '\u{AB53}', '\u{A7B3}');
    assert(pview(v@) =~= o + fold_chunk_291());
}

fn push_fold_chunk_292(v: &mut Vec<FoldPair>)
    ensures
        pview(final(v)@) == pview(old(v)@) + fold_chunk_292(),
{
    let ghost o = pview(v@);
    push_pair(v, '\u{AB70}', '\u{13A0}');
    push_pair(v, '\u{AB71}', '\u{13A1}');
    push_pair(v, '\u{AB72}', '\u{13A2}');
    push_pair(v, '\u{AB73}', '\u{13A3}');
    push_pair(v, '\u{AB74}', '\u{13A4}');
    push_pair(v, '\u{AB75}', '\u{13A5}');
    push_pair(v, '\u{AB76}', '\u{13A6}');
    push_pair(v, '\u{AB77}', '\u{13A7}');
    assert(pview(v@) =~= o + fold_chunk_292());
}

fn push_fold_chunk_293(v: &mut Vec<FoldPair>)
    ensures
        pview(final(v)@) == pview(old(v)@) + fold_chunk_293(),
{
    let ghost o = pview(v@);
    push_pair(v, '\u{AB78}', '\u{13A8}');
    push_pair(v, '\u{AB79}', '\u{13A9}');
    push_pair(v, '\u{AB7A}', '\u{13AA}');
    push_pair(v, '\u{AB7B}', '\u{13AB}');
    push_pair(v, '\u{AB7C}', '\u{13AC}');
    push_pair(v, '\u{AB7D}', '\u{13AD}');
    push_pair(v, '\u{AB7E}', '\u{13AE}');
    push_pair(v, '\u{AB7F}', '\u{13AF}');
    assert(pview(v@) =~= o + fold_chunk_293());
}

fn push_fold_chunk_294(v: &mut Vec<FoldPair>)
    ensures
        pview(final(v)@) == pview(old(v)@) + fold_chunk_294(),
{
    let ghost o = pview(v@);
    push_pair(v, '\u{AB80}', '\u{13B0}');
    push_pair(v, '\u{AB81}', '\u{13B1}');
    push_pair(v, '\u{AB82}', '\u{13B2}');
    push_pair(v, '\u{AB83}', '\u{13B3}');
    push_pair(v, '\u{AB84}', '\u{13B4}');
    push_pair(v, '\u{AB85}', '\u{13B5}');
    push_pair(v, '\u{AB86}', '\u{13B6}');
    push_pair(v, '\u{AB87}', '\u{13B7}');
    assert(pview(v@) =~= o + fold_chunk_294());
}

fn push_fold_chunk_295(v: &mut Vec<FoldPair>)
    ensures
        pview(final(v)@) == pview(old(v)@) + fold_chunk_295(),
{
    let ghost o = pview(v@);
    push_pair(v, '\u{AB88}', '\u{13B8}');
    push_pair(v, '\u{AB89}', '\u{13B9}');
    push_pair(v, '\u{AB8A}', '\u{13BA}');
    push_pair(v, '\u{AB8B}', '\u{13BB}');
    push_pair(v, '\u{AB8C}', '\u{13BC}');
    push_pair(v, '\u{AB8D}', '\u{13BD}');
    push_pair(v, '\u{AB8E}', '\u{13BE}');
    push_pair(v, '\u{AB8F}', '\u{13BF}');
    assert(pview(v@) =~= o + fold_chunk_295());
}

fn push_fold_chunk_296(v: &mut Vec<FoldPair>)
    ensures
        pview(final(v)@) == pview(old(v)@) + fold_chunk_296(),
{
    let ghost o = pview(v@);
    push_pair(v, '\u{AB90}', '\u{13C0}');
    push_pair(v, '\u{AB91}', '\u{13C1}');
    push_pair(v, '\u{AB92}', '\u{13C2}');
    push_pair(v, '\u{AB93}', '\u{13C3}');
    push_pair(v, '\u{AB94}', '\u{13C4}');
    push_pair(v, '\u{AB95}', '\u{13C5}');
    push_pair(v, '\u{AB96}', '\u{13C6}');
    push_pair(v, '\u{AB97}', '\u{13C7}');
    assert(pview(v@) =~= o + fold_chunk_296());
}

fn push_fold_chunk_297(v: &mut Vec<FoldPair>)
    ensures
        pview(final(v)@) == pview(old(v)@) + fold_chunk_297(),
{
    let ghost o = pview(v@);
    push_pair(v, '\u{AB98}', '\u{13C8}');
    push_pair(v, '\u{AB99}', '\u{13C9}');
    push_pair(v, '\u{AB9A}', '\u{13CA}');
    push_pair(v, '\u{AB9B}', '\u{13CB}');
    push_pair(v, '\u{AB9C}', '\u{13CC}');
    push_pair(v, '\u{AB9D}', '\u{13CD}');
    push_pair(v, '\u{AB9E}', '\u{13CE}');
    push_pair(v, '\u{AB9F}', '\u{13CF}');
    assert(pview(v@) =~= o + fold_chunk_297());
}

fn push_fold_chunk_298(v: &mut Vec<FoldPair>)
    ensures
        pview(final(v)@) == pview(old(v)@) + fold_chunk_298(),
{
    let ghost o = pview(v@);
    push_pair(v, '\u{ABA0}', '\u{13D0}');
    push_pair(v, '\u{ABA1}', '\u{13D1}');
    push_pair(v, '\u{ABA2}', '\u{13D2}');
    push_pair(v, '\u{ABA3}', '\u{13D3}');
    push_pair(v, '\u{ABA4}', '\u{13D4}');
    push_pair(v, '\u{ABA5}', '\u{13D5}');
    push_pair(v, '\u{ABA6}', '\u{13D6}');
    push_pair(v, '\u{ABA7}', '\u{13D7}');
    assert(pview(v@) =~= o + fold_chunk_298());
}

fn push_fold_chunk_299(v: &mut Vec<FoldPair>)
    ensures
        pview(final(v)@) == pview(old(v)@) + fold_chunk_299(),
{
    let ghost o = pview(v@);
    push_pair(v, '\u{ABA8}', '\u{13D8}');
    push_pair(v, '\u{ABA9}', '\u{13D9}');
    push_pair(v, '\u{ABAA}', '\u{13DA}');
    push_pair(v, '\u{ABAB}', '\u{13DB}');
    push_pair(v, '\u{ABAC}', '\u{13DC}');
    push_pair(v, '\u{ABAD}', '\u{13DD}');
    push_pair(v, '\u{ABAE}', '\u{13DE}');
    push_pair(v, '\u{ABAF}', '\u{13DF}');
    assert(pview(v@) =~= o + fold_chunk_299());
}

fn push_fold_chunk_300(v: &mut Vec<FoldPair>)
    ensures
        pview(final(v)@) == pview(old(v)@) + fold_chunk_300(),
{
    let ghost o = pview(v@);
    push_pair(v, '\u{ABB0}', '\u{13E0}');
    push_pair(v, '\u{ABB1}', '\u{13E1}');
    push_pair(v, '\u{ABB2}', '\u{13E2}');
    push_pair(v, '\u{ABB3}', '\u{13E3}');
    push_pair(v, '\u{ABB4}', '\u{13E4}');
    push_pair(v, '\u{ABB5}', '\u{13E5}');
    push_pair(v, '\u{ABB6}', '\u{13E6}');
    push_pair(v, '\u{ABB7}', '\u{13E7}');
    assert(pview(v@) =~= o + fold_chunk_300());
}

fn push_fold_chunk_301(v: &mut Vec<FoldPair>)
    ensures
        pview(final(v)@) == pview(old(v)@) + fold_chunk_301(),
{
    let ghost o = pview(v@);
    push_pair(v, '\u{ABB8}', '\u{13E8}');
    push_pair(v, '\u{ABB9}', '\u{13E9}');
    push_pair(v, '\u{ABBA}', '\u{13EA}');
    push_pair(v, '\u{ABBB}', '\u{13EB}');
    push_pair(v, '\u{ABBC}', '\u{13EC}');
    push_pair(v, '\u{ABBD}', '\u{13ED}');
    push_pair(v, '\u{ABBE}', '\u{13EE}');
    push_pair(v, '\u{ABBF}', '\u{13EF}');
    assert(pview(v@) =~= o + fold_chunk_301());
}

fn push_fold_chunk_302(v: &mut Vec<FoldPair>)
    ensures
        pview(final(v)@) == pview(old(v)@) + fold_chunk_302(),
{
    let ghost o = pview(v@);
    push_pair(v, '\u{FB05}', '\u{FB06}');
    push_pair(v, '\u{FB06}', '\u{FB05}');
    push_pair(v, '\u{FF21}', '\u{FF41}');
    push_pair(v, '\u{FF22}', '\u{FF42}');
    push_pair(v, '\u{FF23}', '\u{FF43}');
    push_pair(v, '\u{FF24}', '\u{FF44}');
    push_pair(v, '\u{FF25}', '\u{FF45}');
    push_pair(v, '\u{FF26}', '\u{FF46}');
    assert(pview(v@) =~= o + fold_chunk_302());
}

fn push_fold_chunk_303(v: &mut Vec<FoldPair>)
    ensures
        pview(final(v)@) == pview(old(v)@) + fold_chunk_303(),
{
    let ghost o = pview(v@);
    push_pair(v, '\u{FF27}', '\u{FF47}');
    push_pair(v, '\u{FF28}', '\u{FF48}');
    push_pair(v, '\u{FF29}', '\u{FF49}');
    push_pair(v, '\u{FF2A}', '\u{FF4A}');
    push_pair(v, '\u{FF2B}', '\u{FF4B}');
    push_pair(v, '\u{FF2C}', '\u{FF4C}');
    push_pair(v, '\u{FF2D}', '\u{FF4D}');
    push_pair(v, '\u{FF2E}', '\u{FF4E}');
    assert(pview(v@) =~= o + fold_chunk_303());
}

fn push_fold_chunk_304(v: &mut Vec<FoldPair>)
    ensures
        pview(final(v)@) == pview(old(v)@) + fold_chunk_304(),
{
    let ghost o = pview(v@);
    push_pair(v, '\u{FF2F}', '\u{FF4F}');
    push_pair(v, '\u{FF30}', '\u{FF50}');
    push_pair(v, '\u{FF31}', '\u{FF51}');
    push_pair(v, '\u{FF32}', '\u{FF52}');
    push_pair(v, '\u{FF33}', '\u{FF53}');
    push_pair(v, '\u{FF34}', '\u{FF54}');
    push_pair(v, '\u{FF35}', '\u{FF55}');
    push_pair(v, '\u{FF36}', '\u{FF56}');
    assert(pview(v@) =~= o + fold_chunk_304());
}

fn push_fold_chunk_305(v: &mut Vec<FoldPair>)
    ensures
        pview(final(v)@) == pview(old(v)@) + fold_chunk_305(),
{
    let ghost o = pview(v@);
    push_pair(v, '\u{FF37}', '\u{FF57}');
    push_pair(v, '\u{FF38}', '\u{FF58}');
    push_pair(v, '\u{FF39}', '\u{FF59}');
    push_pair(v, '\u{FF3A}', '\u{FF5A}');
    push_pair(v, '\u{FF41}', '\u{FF21}');
    push_pair(v, '\u{FF42}', '\u{FF22}');
    push_pair(v, '\u{FF43}', '\u{FF23}');
    push_pair(v, '\u{FF44}', '\u{FF24}');
    assert(pview(v@) =~= o + fold_chunk_305());
}

fn push_fold_chunk_306(v: &mut Vec<FoldPair>)
    ensures
        pview(final(v)@) == pview(old(v)@) + fold_chunk_306(),
{
    let ghost o = pview(v@);
    push_pair(v, '\u{FF45}', '\u{FF25}');
    push_pair(v, '\u{FF46}', '\u{FF26}');
    push_pair(v, '\u{FF47}', '\u{FF27}');
    push_pair(v, '\u{FF48}', '\u{FF28}');
    push_pair(v, '\u{FF49}', '\u{FF29}');
    push_pair(v, '\u{FF4A}', '\u{FF2A}');
    push_pair(v, '\u{FF4B}', '\u{FF2B}');
    push_pair(v, '\u{FF4C}', '\u{FF2C}');
    assert(pview(v@) =~= o + fold_chunk_306());
}

fn push_fold_chunk_307(v: &mut Vec<FoldPair>)
    ensures
        pview(final(v)@) == pview(old(v)@) + fold_chunk_307(),
{
    let ghost o = pview(v@);
    push_pair(v, '\u{FF4D}', '\u{FF2D}');
    push_pair(v, '\u{FF4E}', '\u{FF2E}');
    push_pair(v, '\u{FF4F}', '\u{FF2F}');
    push_pair(v, '\u{FF50}', '\u{FF30}');
    push_pair(v, '\u{FF51}', '\u{FF31}');
    push_pair(v, '\u{FF52}', '\u{FF32}');
    push_pair(v, '\u{FF53}', '\u{FF33}');
    push_pair(v, '\u{FF54}', '\u{FF34}');
    assert(pview(v@) =~= o + fold_chunk_307());
}

fn push_fold_chunk_308(v: &mut Vec<FoldPair>)
    ensures
        pview(final(v)@) == pview(old(v)@) + fold_chunk_308(),
{
    let ghost o = pview(v@);
    push_pair(v, '\u{FF55}', '\u{FF35}');
    push_pair(v, '\u{FF56}', '\u{FF36}');
    push_pair(v, '\u{FF57}', '\u{FF37}');
    push_pair(v, '\u{FF58}', '\u{FF38}');
    push_pair(v, '\u{FF59}', '\u{FF39}');
    push_pair(v, '\u{FF5A}', '\u{FF3A}');
    push_pair(v, '\u{10400}', '\u{10428}');
    push_pair(v, '\u{10401}', '\u{10429}');
    assert(pview(v@) =~= o + fold_chunk_308());
}

fn push_fold_chunk_309(v: &mut Vec<FoldPair>)
    ensures
        pview(final(v)@) == pview(old(v)@) + fold_chunk_309(),
{
    let ghost o = pview(v@);
    push_pair(v, '\u{10402}', '\u{1042A}');
    push_pair(v, '\u{10403}', '\u{1042B}');
    push_pair(v, '\u{10404}', '\u{1042C}');
    push_pair(v, '\u{10405}', '\u{1042D}');
    push_pair(v, '\u{10406}', '\u{1042E}');
    push_pair(v, '\u{10407}', '\u{1042F}');
    push_pair(v, '\u{10408}', '\u{10430}');
    push_pair(v, '\u{10409}', '\u{10431}');
    assert(pview(v@) =~= o + fold_chunk_309());
}

fn push_fold_chunk_310(v: &mut Vec<FoldPair>)
    ensures
        pview(final(v)@) == pview(old(v)@) + fold_chunk_310(),
{
    let ghost o = pview(v@);
    push_pair(v, '\u{1040A}', '\u{10432}');
    push_pair(v, '\u{1040B}', '\u{10433}');
    push_pair(v, '\u{1040C}', '\u{10434}');
    push_pair(v, '\u{1040D}', '\u{10435}');
    push_pair(v, '\u{1040E}', '\u{10436}');
    push_pair(v, '\u{1040F}', '\u{10437}');
    push_pair(v, '\u{10410}', '\u{10438}');
    push_pair(v, '\u{10411}', '\u{10439}');
    assert(pview(v@) =~= o + fold_chunk_310());
}

fn push_fold_chunk_311(v: &mut Vec<FoldPair>)
    ensures
        pview(final(v)@) == pview(old(v)@) + fold_chunk_311(),
{
    let ghost o = pview(v@);
    push_pair(v, '\u{10412}', '\u{1043A}');
    push_pair(v, '\u{10413}', '\u{1043B}');
    push_pair(v, '\u{10414}', '\u{1043C}');
    push_pair(v, '\u{10415}', '\u{1043D}');
    push_pair(v, '\u{10416}', '\u{1043E}');
    push_pair(v, '\u{10417}', '\u{1043F}');
    push_pair(v, '\u{10418}', '\u{10440}');
    push_pair(v, '\u{10419}', '\u{10441}');
    assert(pview(v@) =~= o + fold_chunk_311());
}

fn push_fold_chunk_312(v: &mut Vec<FoldPair>)
    ensures
        pview(final(v)@) == pview(old(v)@) + fold_chunk_312(),
{
    let ghost o = pview(v@);
    push_pair(v, '\u{1041A}', '\u{10442}');
    push_pair(v, '\u{1041B}', '\u{10443}');
    push_pair(v, '\u{1041C}', '\u{10444}');
    push_pair(v, '\u{1041D}', '\u{10445}');
    push_pair(v, '\u{1041E}', '\u{10446}');
    push_pair(v, '\u{1041F}', '\u{10447}');
    push_pair(v, '\u{10420}', '\u{10448}');
    push_pair(v, '\u{10421}', '\u{10449}');
    assert(pview(v@) =~= o + fold_chunk_312());
}

fn push_fold_chunk_313(v: &mut Vec<FoldPair>)
    ensures
        pview(final(v)@) == pview(old(v)@) + fold_chunk_313(),
{
    let ghost o = pview(v@);
    push_pair(v, '\u{10422}', '\u{1044A}');
    push_pair(v, '\u{10423}', '\u{1044B}');
    push_pair(v, '\u{10424}', '\u{1044C}');
    push_pair(v, '\u{10425}', '\u{1044D}');
    push_pair(v, '\u{10426}', '\u{1044E}');
    push_pair(v, '\u{10427}', '\u{1044F}');
    push_pair(v, '\u{10428}', '\u{10400}');
    push_pair(v, '\u{10429}', '\u{10401}');
    assert(pview(v@) =~= o + fold_chunk_313());
}

fn push_fold_chunk_314(v: &mut Vec<FoldPair>)
    ensures
        pview(final(v)@) == pview(old(v)@) + fold_chunk_314(),
{
    let ghost o = pview(v@);
    push_pair(v, '\u{1042A}', '\u{10402}');
    push_pair(v, '\u{1042B}', '\u{10403}');
    push_pair(v, '\u{1042C}', '\u{10404}');
    push_pair(v, '\u{1042D}', '\u{10405}');
    push_pair(v, '\u{1042E}', '\u{10406}');
    push_pair(v, '\u{1042F}', '\u{10407}');
    push_pair(v, '\u{10430}', '\u{10408}');
    push_pair(v, '\u{10431}', '\u{10409}');
    assert(pview(v@) =~= o + fold_chunk_314());
}

fn push_fold_chunk_315(v: &mut Vec<FoldPair>)
    ensures
        pview(final(v)@) == pview(old(v)@) + fold_chunk_315(),
{
    let ghost o = pview(v@);
    push_pair(v, '\u{10432}', '\u{1040A}');
    push_pair(v, '\u{10433}', '\u{1040B}');
    push_pair(v, '\u{10434}', '\u{1040C}');
    push_pair(v, '\u{10435}', '\u{1040D}');
    push_pair(v, '\u{10436}', '\u{1040E}');
    push_pair(v, '\u{10437}', '\u{1040F}');
    push_pair(v, '\u{10438}', '\u{10410}');
    push_pair(v, '\u{10439}', '\u{10411}');
    assert(pview(v@) =~= o + fold_chunk_315());
}

fn push_fold_chunk_316(v: &mut Vec<FoldPair>)
    ensures
        pview(final(v)@) == pview(old(v)@) + fold_chunk_316(),
{
    let ghost o = pview(v@);
    push_pair(v, '\u{1043A}', '\u{10412}');
    push_pair(v, '\u{1043B}', '\u{10413}');
    push_pair(v, '\u{1043C}', '\u{10414}');
    push_pair(v, '\u{1043D}', '\u{10415}');
    push_pair(v, '\u{1043E}', '\u{10416}');
    push_pair(v, '\u{1043F}', '\u{10417}');
    push_pair(v, '\u{10440}', '\u{10418}');
    push_pair(v, '\u{10441}', '\u{10419}');
    assert(pview(v@) =~= o + fold_chunk_316());
}

fn push_fold_chunk_317(v: &mut Vec<FoldPair>)
    ensures
        pview(final(v)@) == pview(old(v)@) + fold_chunk_317(),
{
    let ghost o = pview(v@);
    push_pair(v, '\u{10442}', '\u{1041A}');
    push_pair(v, '\u{10443}', '\u{1041B}');
    push_pair(v, '\u{10444}', '\u{1041C}');
    push_pair(v, '\u{10445}', '\u{1041D}');
    push_pair(v, '\u{10446}', '\u{1041E}');
    push_pair(v, '\u{10447}', '\u{1041F}');
    push_pair(v, '\u{10448}', '\u{10420}');
    push_pair(v, '\u{10449}', '\u{10421}');
    assert(pview(v@) =~= o + fold_chunk_317());
}

fn push_fold_chunk_318(v: &mut Vec<FoldPair>)
    ensures
        pview(final(v)@) == pview(old(v)@) + fold_chunk_318(),
{
    let ghost o = pview(v@);
    push_pair(v, '\u{1044A}', '\u{10422}');
    push_pair(v, '\u{1044B}', '\u{10423}');
    push_pair(v, '\u{1044C}', '\u{10424}');
    push_pair(v, '\u{1044D}', '\u{10425}');
    push_pair(v, '\u{1044E}', '\u{10426}');
    push_pair(v, '\u{1044F}', '\u{10427}');
    push_pair(v, '\u{104B0}', '\u{104D8}');
    push_pair(v, '\u{104B1}', '\u{104D9}');
    assert(pview(v@) =~= o + fold_chunk_318());
}

fn push_fold_chunk_319(v: &mut Vec<FoldPair>)
    ensures
        pview(final(v)@) == pview(old(v)@) + fold_chunk_319(),
{
    let ghost o = pview(v@);
    push_pair(v, '\u{104B2}', '\u{104DA}');
    push_pair(v, '\u{104B3}', '\u{104DB}');
    push_pair(v, '\u{104B4}', '\u{104DC}');
    push_pair(v, '\u{104B5}', '\u{104DD}');
    push_pair(v, '\u{104B6}', '\u{104DE}');
    push_pair(v, '\u{104B7}', '\u{104DF}');
    push_pair(v, '\u{104B8}', '\u{104E0}');
    push_pair(v, '\u{104B9}', '\u{104E1}');
    assert(pview(v@) =~= o + fold_chunk_319());
}

fn push_fold_chunk_320(v: &mut Vec<FoldPair>)
    ensures
        pview(final(v)@) == pview(old(v)@) + fold_chunk_320(),
{
    let ghost o = pview(v@);
    push_pair(v, '\u{104BA}', '\u{104E2}');
    push_pair(v, '\u{104BB}', '\u{104E3}');
    push_pair(v, '\u{104BC}', '\u{104E4}');
    push_pair(v, '\u{104BD}', '\u{104E5}');
    push_pair(v, '\u{104BE}', '\u{104E6}');
    push_pair(v, '\u{104BF}', '\u{104E7}');
    push_pair(v, '\u{104C0}', '\u{104E8}');
    push_pair(v, '\u{104C1}', '\u{104E9}');
    assert(pview(v@) =~= o + fold_chunk_320());
}

fn push_fold_chunk_321(v: &mut Vec<FoldPair>)
    ensures
        pview(final(v)@) == pview(old(v)@) + fold_chunk_321(),
{
    let ghost o = pview(v@);
    push_pair(v, '\u{104C2}', '\u{104EA}');
    push_pair(v, '\u{104C3}', '\u{104EB}');
    push_pair(v, '\u{104C4}', '\u{104EC}');
    push_pair(v, '\u{104C5}', '\u{104ED}');
    push_pair(v, '\u{104C6}', '\u{104EE}');
    push_pair(v, '\u{104C7}', '\u{104EF}');
    push_pair(v, '\u{104C8}', '\u{104F0}');
    push_pair(v, '\u{104C9}', '\u{104F1}');
    assert(pview(v@) =~= o + fold_chunk_321());
}

fn push_fold_chunk_322(v: &mut Vec<FoldPair>)
    ensures
        pview(final(v)@) == pview(old(v)@) + fold_chunk_322(),
{
    let ghost o = pview(v@);
    push_pair(v, '\u{104CA}', '\u{104F2}');
    push_pair(v, '\u{104CB}', '\u{104F3}');
    push_pair(v, '\u{104CC}', '\u{104F4}');
    push_pair(v, '\u{104CD}', '\u{104F5}');
    push_pair(v, '\u{104CE}', '\u{104F6}');
    push_pair(v, '\u{104CF}', '\u{104F7}');
    push_pair(v, '\u{104D0}', '\u{104F8}');
    push_pair(v, '\u{104D1}', '\u{104F9}');
    assert(pview(v@) =~= o + fold_chunk_322());
}

fn push_fold_chunk_323(v: &mut Vec<FoldPair>)
    ensures
        pview(final(v)@) == pview(old(v)@) + fold_chunk_323(),
{
    let ghost o = pview(v@);
    push_pair(v, '\u{104D2}', '\u{104FA}');
    push_pair(v, '\u{104D3}', '\u{104FB}');
    push_pair(v, '\u{104D8}', '\u{104B0}');
    push_pair(v, '\u{104D9}', '\u{104B1}');
    push_pair(v, '\u{104DA}', '\u{104B2}');
    push_pair(v, '\u{104DB}', '\u{104B3}');
    push_pair(v, '\u{104DC}', '\u{104B4}');
    push_pair(v, '\u{104DD}', '\u{104B5}');
    assert(pview(v@) =~= o + fold_chunk_323());
}

fn push_fold_chunk_324(v: &mut Vec<FoldPair>)
    ensures
        pview(final(v)@) == pview(old(v)@) + fold_chunk_324(),
{
    let ghost o = pview(v@);
    push_pair(v, '\u{104DE}', '\u{104B6}');
    push_pair(v, '\u{104DF}', '\u{104B7}');
    push_pair(v, '\u{104E0}', '\u{104B8}');
    push_pair(v, '\u{104E1}', '\u{104B9}');
    push_pair(v, '\u{104E2}', '\u{104BA}');
    push_pair(v, '\u{104E3}', '\u{104BB}');
    push_pair(v, '\u{104E4}', '\u{104BC}');
    push_pair(v, '\u{104E5}', '\u{104BD}');
    assert(pview(v@) =~= o + fold_chunk_324());
}

fn push_fold_chunk_325(v: &mut Vec<FoldPair>)
    ensures
        pview(final(v)@) == pview(old(v)@) + fold_chunk_325(),
{
    let ghost o = pview(v@);
    push_pair(v, '\u{104E6}', '\u{104BE}');
    push_pair(v, '\u{104E7}', '\u{104BF}');
    push_pair(v, '\u{104E8}', '\u{104C0}');
    push_pair(v, '\u{104E9}', '\u{104C1}');
    push_pair(v, '\u{104EA}', '\u{104C2}');
    push_pair(v, '\u{104EB}', '\u{104C3}');
    push_pair(v, '\u{104EC}', '\u{104C4}');
    push_pair(v, '\u{104ED}', '\u{104C5}');
    assert(pview(v@) =~= o + fold_chunk_325());
}

fn push_fold_chunk_326(v: &mut Vec<FoldPair>)
    ensures
        pview(final(v)@) == pview(old(v)@) + fold_chunk_326(),
{
    let ghost o = pview(v@);
    push_pair(v, '\u{104EE}', '\u{104C6}');
    push_pair(v, '\u{104EF}', '\u{104C7}');
    push_pair(v, '\u{104F0}', '\u{104C8}');
    push_pair(v, '\u{104F1}', '\u{104C9}');
    push_pair(v, '\u{104F2}', '\u{104CA}');
    push_pair(v, '\u{104F3}', '\u{104CB}');
    push_pair(v, '\u{104F4}', '\u{104CC}');
    push_pair(v, '\u{104F5}', '\u{104CD}');
    assert(pview(v@) =~= o + fold_chunk_326());
}

fn push_fold_chunk_327(v: &mut Vec<FoldPair>)
    ensures
        pview(final(v)@) == pview(old(v)@) + fold_chunk_327(),
{
    let ghost o = pview(v@);
    push_pair(v, '\u{104F6}', '\u{104CE}');
    push_pair(v, '\u{104F7}', '\u{104CF}');
    push_pair(v, '\u{104F8}', '\u{104D0}');
    push_pair(v, '\u{104F9}', '\u{104D1}');
    push_pair(v, '\u{104FA}', '\u{104D2}');
    push_pair(v, '\u{104FB}', '\u{104D3}');
    push_pair(v, '\u{10570}', '\u{10597}');
    push_pair(v, '\u{10571}', '\u{10598}');
    assert(pview(v@) =~= o + fold_chunk_327());
}

fn push_fold_chunk_328(v: &mut Vec<FoldPair>)
    ensures
        pview(final(v)@) == pview(old(v)@) + fold_chunk_328(),
{
    let ghost o = pview(v@);
    push_pair(v, '\u{10572}', '\u{10599}');
    push_pair(v, '\u{10573}', '\u{1059A}');
    push_pair(v, '\u{10574}', '\u{1059B}');
    push_pair(v, '\u{10575}', '\u{1059C}');
    push_pair(v, '\u{10576}', '\u{1059D}');
    push_pair(v, '\u{10577}', '\u{1059E}');
    push_pair(v, '\u{10578}', '\u{1059F}');
    push_pair(v, '\u{10579}', '\u{105A0}');
    assert(pview(v@) =~= o + fold_chunk_328());
}

fn push_fold_chunk_329(v: &mut Vec<FoldPair>)
    ensures
        pview(final(v)@) == pview(old(v)@) + fold_chunk_329(),
{
    let ghost o = pview(v@);
    push_pair(v, '\u{1057A}', '\u{105A1}');
    push_pair(v, '\u{1057C}', '\u{105A3}');
    push_pair(v, '\u{1057D}', '\u{105A4}');
    push_pair(v, '\u{1057E}', '\u{105A5}');
    push_pair(v, '\u{1057F}', '\u{105A6}');
    push_pair(v, '\u{10580}', '\u{105A7}');
    push_pair(v, '\u{10581}', '\u{105A8}');
    push_pair(v, '\u{10582}', '\u{105A9}');
    assert(pview(v@) =~= o + fold_chunk_329());
}

fn push_fold_chunk_330(v: &mut Vec<FoldPair>)
    ensures
        pview(final(v)@) == pview(old(v)@) + fold_chunk_330(),
{
    let ghost o = pview(v@);
    push_pair(v, '\u{10583}', '\u{105AA}');
    push_pair(v, '\u{10584}', '\u{105AB}');
    push_pair(v, '\u{10585}', '\u{105AC}');
    push_pair(v, '\u{10586}', '\u{105AD}');
    push_pair(v, '\u{10587}', '\u{105AE}');
    push_pair(v, '\u{10588}', '\u{105AF}');
    push_pair(v, '\u{10589}', '\u{105B0}');
    push_pair(v, '\u{1058A}', '\u{105B1}');
    assert(pview(v@) =~= o + fold_chunk_330());
}

fn push_fold_chunk_331(v: &mut Vec<FoldPair>)
    ensures
        pview(final(v)@) == pview(old(v)@) + fold_chunk_331(),
{
    let ghost o = pview(v@);
    push_pair(v, '\u{1058C}', '\u{105B3}');
    push_pair(v, '\u{1058D}', '\u{105B4}');
    push_pair(v, '\u{1058E}', '\u{105B5}');
    push_pair(v, '\u{1058F}', '\u{105B6}');
    push_pair(v, '\u{10590}', '\u{105B7}');
    push_pair(v, '\u{10591}', '\u{105B8}');
    push_pair(v, '\u{10592}', '\u{105B9}');
    push_pair(v, '\u{10594}', '\u{105BB}');
    assert(pview(v@) =~= o + fold_chunk_331());
}

fn push_fold_chunk_332(v: &mut Vec<FoldPair>)
    ensures
        pview(final(v)@) == pview(old(v)@) + fold_chunk_332(),
{
    let ghost o = pview(v@);
    push_pair(v, '\u{10595}', '\u{105BC}');
    push_pair(v, '\u{10597}', '\u{10570}');
    push_pair(v, '\u{10598}', '\u{10571}');
    push_pair(v, '\u{10599}', '\u{10572}');
    push_pair(v, '\u{1059A}', '\u{10573}');
    push_pair(v, '\u{1059B}', '\u{10574}');
    push_pair(v, '\u{1059C}', '\u{10575}');
    push_pair(v, '\u{1059D}', '\u{10576}');
    assert(pview(v@) =~= o + fold_chunk_332());
}

fn push_fold_chunk_333(v: &mut Vec<FoldPair>)
    ensures
        pview(final(v)@) == pview(old(v)@) + fold_chunk_333(),
{
    let ghost o = pview(v@);
    push_pair(v, '\u{1059E}', '\u{10577}');
    push_pair(v, '\u{1059F}', '\u{10578}');
    push_pair(v, '\u{105A0}', '\u{10579}');
    push_pair(v, '\u{105A1}', '\u{1057A}');
    push_pair(v, '\u{105A3}', '\u{1057C}');
    push_pair(v, '\u{105A4}', '\u{1057D}');
    push_pair(v, '\u{105A5}', '\u{1057E}');
    push_pair(v, '\u{105A6}', '\u{1057F}');
    assert(pview(v@) =~= o + fold_chunk_333());
}

fn push_fold_chunk_334(v: &mut Vec<FoldPair>)
    ensures
        pview(final(v)@) == pview(old(v)@) + fold_chunk_334(),
{
    let ghost o = pview(v@);
    push_pair(v, '\u{105A7}', '\u{10580}');
    push_pair(v, '\u{105A8}', '\u{10581}');
    push_pair(v, '\u{105A9}', '\u{10582}');
    push_pair(v, '\u{105AA}', '\u{10583}');
    push_pair(v, '\u{105AB}', '\u{10584}');
    push_pair(v, '\u{105AC}', '\u{10585}');
    push_pair(v, '\u{105AD}', '\u{10586}');
    push_pair(v, '\u{105AE}', '\u{10587}');
    assert(pview(v@) =~= o + fold_chunk_334());
}

fn push_fold_chunk_335(v: &mut Vec<FoldPair>)
    ensures
        pview(final(v)@) == pview(old(v)@) + fold_chunk_335(),
{
    let ghost o = pview(v@);
    push_pair(v, '\u{105AF}', '\u{10588}');
    push_pair(v, '\u{105B0}', '\u{10589}');
    push_pair(v, '\u{105B1}', '\u{1058A}');
    push_pair(v, '\u{105B3}', '\u{1058C}');
    push_pair(v, '\u{105B4}', '\u{1058D}');
    push_pair(v, '\u{105B5}', '\u{1058E}');
    push_pair(v, '\u{105B6}', '\u{1058F}');
    push_pair(v, '\u{105B7}', '\u{10590}');
    assert(pview(v@) =~= o + fold_chunk_335());
}

fn push_fold_chunk_336(v: &mut Vec<FoldPair>)
    ensures
        pview(final(v)@) == pview(old(v)@) + fold_chunk_336(),
{
    let ghost o = pview(v@);
    push_pair(v, '\u{105B8}', '\u{10591}');
    push_pair(v, '\u{105B9}', '\u{10592}');
    push_pair(v, '\u{105BB}', '\u{10594}');
    push_pair(v, '\u{105BC}', '\u{10595}');
    push_pair(v, '\u{10C80}', '\u{10CC0}');
    push_pair(v, '\u{10C81}', '\u{10CC1}');
    push_pair(v, '\u{10C82}', '\u{10CC2}');
    push_pair(v, '\u{10C83}', '\u{10CC3}');
    assert(pview(v@) =~= o + fold_chunk_336());
}

fn push_fold_chunk_337(v: &mut Vec<FoldPair>)
    ensures
        pview(final(v)@) == pview(old(v)@) + fold_chunk_337(),
{
    let ghost o = pview(v@);
    push_pair(v, '\u{10C84}', '\u{10CC4}');
    push_pair(v, '\u{10C85}', '\u{10CC5}');
    push_pair(v, '\u{10C86}', '\u{10CC6}');
    push_pair(v, '\u{10C87}', '\u{10CC7}');
    push_pair(v, '\u{10C88}', '\u{10CC8}');
    push_pair(v, '\u{10C89}', '\u{10CC9}');
    push_pair(v, '\u{10C8A}', '\u{10CCA}');
    push_pair(v, '\u{10C8B}', '\u{10CCB}');
    assert(pview(v@) =~= o + fold_chunk_337());
}

fn push_fold_chunk_338(v: &mut Vec<FoldPair>)
    ensures
        pview(final(v)@) == pview(old(v)@) + fold_chunk_338(),
{
    let ghost o = pview(v@);
    push_pair(v, '\u{10C8C}', '\u{10CCC}');
    push_pair(v, '\u{10C8D}', '\u{10CCD}');
    push_pair(v, '\u{10C8E}', '\u{10CCE}');
    push_pair(v, '\u{10C8F}', '\u{10CCF}');
    push_pair(v, '\u{10C90}', '\u{10CD0}');
    push_pair(v, '\u{10C91}', '\u{10CD1}');
    push_pair(v, '\u{10C92}', '\u{10CD2}');
    push_pair(v, '\u{10C93}', '\u{10CD3}');
    assert(pview(v@) =~= o + fold_chunk_338());
}

fn push_fold_chunk_339(v: &mut Vec<FoldPair>)
    ensures
        pview(final(v)@) == pview(old(v)@) + fold_chunk_339(),
{
    let ghost o = pview(v@);
    push_pair(v, '\u{10C94}', '\u{10CD4}');
    push_pair(v, '\u{10C95}', '\u{10CD5}');
    push_pair(v, '\u{10C96}', '\u{10CD6}');
    push_pair(v, '\u{10C97}', '\u{10CD7}');
    push_pair(v, '\u{10C98}', '\u{10CD8}');
    push_pair(v, '\u{10C99}', '\u{10CD9}');
    push_pair(v, '\u{10C9A}', '\u{10CDA}');
    push_pair(v, '\u{10C9B}', '\u{10CDB}');
    assert(pview(v@) =~= o + fold_chunk_339());
}

fn push_fold_chunk_340(v: &mut Vec<FoldPair>)
    ensures
        pview(final(v)@) == pview(old(v)@) + fold_chunk_340(),
{
    let ghost o = pview(v@);
    push_pair(v, '\u{10C9C}', '\u{10CDC}');
    push_pair(v, '\u{10C9D}', '\u{10CDD}');
    push_pair(v, '\u{10C9E}', '\u{10CDE}');
    push_pair(v, '\u{10C9F}', '\u{10CDF}');
    push_pair(v, '\u{10CA0}', '\u{10CE0}');
    push_pair(v, '\u{10CA1}', '\u{10CE1}');
    push_pair(v, '\u{10CA2}', '\u{10CE2}');
    push_pair(v, '\u{10CA3}', '\u{10CE3}');
    assert(pview(v@) =~= o + fold_chunk_340());
}

fn push_fold_chunk_341(v: &mut Vec<FoldPair>)
    ensures
        pview(final(v)@) == pview(old(v)@) + fold_chunk_341(),
{
    let ghost o = pview(v@);
    push_pair(v, '\u{10CA4}', '\u{10CE4}');
    push_pair(v, '\u{10CA5}', '\u{10CE5}');
    push_pair(v, '\u{10CA6}', '\u{10CE6}');
    push_pair(v, '\u{10CA7}', '\u{10CE7}');
    push_pair(v, '\u{10CA8}', '\u{10CE8}');
    push_pair(v, '\u{10CA9}', '\u{10CE9}');
    push_pair(v, '\u{10CAA}', '\u{10CEA}');
    push_pair(v, '\u{10CAB}', '\u{10CEB}');
    assert(pview(v@) =~= o + fold_chunk_341());
}

fn push_fold_chunk_342(v: &mut Vec<FoldPair>)
    ensures
        pview(final(v)@) == pview(old(v)@) + fold_chunk_342(),
{
    let ghost o = pview(v@);
    push_pair(v, '\u{10CAC}', '\u{10CEC}');
    push_pair(v, '\u{10CAD}', '\u{10CED}');
    push_pair(v, '\u{10CAE}', '\u{10CEE}');
    push_pair(v, '\u{10CAF}', '\u{10CEF}');
    push_pair(v, '\u{10CB0}', '\u{10CF0}');
    push_pair(v, '\u{10CB1}', '\u{10CF1}');
    push_pair(v, '\u{10CB2}', '\u{10CF2}');
    push_pair(v, '\u{10CC0}', '\u{10C80}');
    assert(pview(v@) =~= o + fold_chunk_342());
}

fn push_fold_chunk_343(v: &mut Vec<FoldPair>)
    ensures
        pview(final(v)@) == pview(old(v)@) + fold_chunk_343(),
{
    let ghost o = pview(v@);
    push_pair(v, '\u{10CC1}', '\u{10C81}');
    push_pair(v, '\u{10CC2}', '\u{10C82}');
    push_pair(v, '\u{10CC3}', '\u{10C83}');
    push_pair(v, '\u{10CC4}', '\u{10C84}');
    push_pair(v, '\u{10CC5}', '\u{10C85}');
    push_pair(v, '\u{10CC6}', '\u{10C86}');
    push_pair(v, '\u{10CC7}', '\u{10C87}');
    push_pair(v, '\u{10CC8}', '\u{10C88}');
    assert(pview(v@) =~= o + fold_chunk_343());
}

fn push_fold_chunk_344(v: &mut Vec<FoldPair>)
    ensures
        pview(final(v)@) == pview(old(v)@) + fold_chunk_344(),
{
    let ghost o = pview(v@);
    push_pair(v, '\u{10CC9}', '\u{10C89}');
    push_pair(v, '\u{10CCA}', '\u{10C8A}');
    push_pair(v, '\u{10CCB}', '\u{10C8B}');
    push_pair(v, '\u{10CCC}', '\u{10C8C}');
    push_pair(v, '\u{10CCD}', '\u{10C8D}');
    push_pair(v, '\u{10CCE}', '\u{10C8E}');
    push_pair(v, '\u{10CCF}', '\u{10C8F}');
    push_pair(v, '\u{10CD0}', '\u{10C90}');
    assert(pview(v@) =~= o + fold_chunk_344());
}

fn push_fold_chunk_345(v: &mut Vec<FoldPair>)
    ensures
        pview(final(v)@) == pview(old(v)@) + fold_chunk_345(),
{
    let ghost o = pview(v@);
    push_pair(v, '\u{10CD1}', '\u{10C91}');
    push_pair(v, '\u{10CD2}', '\u{10C92}');
    push_pair(v, '\u{10CD3}', '\u{10C93}');
    push_pair(v, '\u{10CD4}', '\u{10C94}');
    push_pair(v, '\u{10CD5}', '\u{10C95}');
    push_pair(v, '\u{10CD6}', '\u{10C96}');
    push_pair(v, '\u{10CD7}', '\u{10C97}');
    push_pair(v, '\u{10CD8}', '\u{10C98}');
    assert(pview(v@) =~= o + fold_chunk_345());
}

fn push_fold_chunk_346(v: &mut Vec<FoldPair>)
    ensures
        pview(final(v)@) == pview(old(v)@) + fold_chunk_346(),
{
    let ghost o = pview(v@);
    push_pair(v, '\u{10CD9}', '\u{10C99}');
    push_pair(v, '\u{10CDA}', '\u{10C9A}');
    push_pair(v, '\u{10CDB}', '\u{10C9B}');
    push_pair(v, '\u{10CDC}', '\u{10C9C}');
    push_pair(v, '\u{10CDD}', '\u{10C9D}');
    push_pair(v, '\u{10CDE}', '\u{10C9E}');
    push_pair(v, '\u{10CDF}', '\u{10C9F}');
    push_pair(v, '\u{10CE0}', '\u{10CA0}');
    assert(pview(v@) =~= o + fold_chunk_346());
}

fn push_fold_chunk_347(v: &mut Vec<FoldPair>)
    ensures
        pview(final(v)@) == pview(old(v)@) + fold_chunk_347(),
{
    let ghost o = pview(v@);
    push_pair(v, '\u{10CE1}', '\u{10CA1}');
    push_pair(v, '\u{10CE2}', '\u{10CA2}');
    push_pair(v, '\u{10CE3}', '\u{10CA3}');
    push_pair(v, '\u{10CE4}', '\u{10CA4}');
    push_pair(v, '\u{10CE5}', '\u{10CA5}');
    push_pair(v, '\u{10CE6}', '\u{10CA6}');
    push_pair(v, '\u{10CE7}', '\u{10CA7}');
    push_pair(v, '\u{10CE8}', '\u{10CA8}');
    assert(pview(v@) =~= o + fold_chunk_347());
}

fn push_fold_chunk_348(v: &mut Vec<FoldPair>)
    ensures
        pview(final(v)@) == pview(old(v)@) + fold_chunk_348(),
{
    let ghost o = pview(v@);
    push_pair(v, '\u{10CE9}', '\u{10CA9}');
    push_pair(v, '\u{10CEA}', '\u{10CAA}');
    push_pair(v, '\u{10CEB}', '\u{10CAB}');
    push_pair(v, '\u{10CEC}', '\u{10CAC}');
    push_pair(v, '\u{10CED}', '\u{10CAD}');
    push_pair(v, '\u{10CEE}', '\u{10CAE}');
    push_pair(v, '\u{10CEF}', '\u{10CAF}');
    push_pair(v, '\u{10CF0}', '\u{10CB0}');
    assert(pview(v@) =~= o + fold_chunk_348());
}

fn push_fold_chunk_349(v: &mut Vec<FoldPair>)
    ensures
        pview(final(v)@) == pview(old(v)@) + fold_chunk_349(),
{
    let ghost o = pview(v@);
    push_pair(v, '\u{10CF1}', '\u{10CB1}');
    push_pair(v, '\u{10CF2}', '\u{10CB2}');
    push_pair(v, '\u{10D50}', '\u{10D70}');
    push_pair(v, '\u{10D51}', '\u{10D71}');
    push_pair(v, '\u{10D52}', '\u{10D72}');
    push_pair(v, '\u{10D53}', '\u{10D73}');
    push_pair(v, '\u{10D54}', '\u{10D74}');
    push_pair(v, '\u{10D55}', '\u{10D75}');
    assert(pview(v@) =~= o + fold_chunk_349());
}

fn push_fold_chunk_350(v: &mut Vec<FoldPair>)
    ensures
        pview(final(v)@) == pview(old(v)@) + fold_chunk_350(),
{
    let ghost o = pview(v@);
    push_pair(v, '\u{10D56}', '\u{10D76}');
    push_pair(v, '\u{10D57}', '\u{10D77}');
    push_pair(v, '\u{10D58}', '\u{10D78}');
    push_pair(v, '\u{10D59}', '\u{10D79}');
    push_pair(v, '\u{10D5A}', '\u{10D7A}');
    push_pair(v, '\u{10D5B}', '\u{10D7B}');
    push_pair(v, '\u{10D5C}', '\u{10D7C}');
    push_pair(v, '\u{10D5D}', '\u{10D7D}');
    assert(pview(v@) =~= o + fold_chunk_350());
}

fn push_fold_chunk_351(v: &mut Vec<FoldPair>)
    ensures
        pview(final(v)@) == pview(old(v)@) + fold_chunk_351(),
{
    let ghost o = pview(v@);
    push_pair(v, '\u{10D5E}', '\u{10D7E}');
    push_pair(v, '\u{10D5F}', '\u{10D7F}');
    push_pair(v, '\u{10D60}', '\u{10D80}');
    push_pair(v, '\u{10D61}', '\u{10D81}');
    push_pair(v, '\u{10D62}', '\u{10D82}');
    push_pair(v, '\u{10D63}', '\u{10D83}');
    push_pair(v, '\u{10D64}', '\u{10D84}');
    push_pair(v, '\u{10D65}', '\u{10D85}');
    assert(pview(v@) =~= o + fold_chunk_351());
}

fn push_fold_chunk_352(v: &mut Vec<FoldPair>)
    ensures
        pview(final(v)@) == pview(old(v)@) + fold_chunk_352(),
{
    let ghost o = pview(v@);
    push_pair(v, '\u{10D70}', '\u{10D50}');
    push_pair(v, '\u{10D71}', '\u{10D51}');
    push_pair(v, '\u{10D72}', '\u{10D52}');
    push_pair(v, '\u{10D73}', '\u{10D53}');
    push_pair(v, '\u{10D74}', '\u{10D54}');
    push_pair(v, '\u{10D75}', '\u{10D55}');
    push_pair(v, '\u{10D76}', '\u{10D56}');
    push_pair(v, '\u{10D77}', '\u{10D57}');
    assert(pview(v@) =~= o + fold_chunk_352());
}

fn push_fold_chunk_353(v: &mut Vec<FoldPair>)
    ensures
        pview(final(v)@) == pview(old(v)@) + fold_chunk_353(),
{
    let ghost o = pview(v@);
    push_pair(v, '\u{10D78}', '\u{10D58}');
    push_pair(v, '\u{10D79}', '\u{10D59}');
    push_pair(v, '\u{10D7A}', '\u{10D5A}');
    push_pair(v, '\u{10D7B}', '\u{10D5B}');
    push_pair(v, '\u{10D7C}', '\u{10D5C}');
    push_pair(v, '\u{10D7D}', '\u{10D5D}');
    push_pair(v, '\u{10D7E}', '\u{10D5E}');
    push_pair(v, '\u{10D7F}', '\u{10D5F}');
    assert(pview(v@) =~= o + fold_chunk_353());
}

fn push_fold_chunk_354(v: &mut Vec<FoldPair>)
    ensures
        pview(final(v)@) == pview(old(v)@) + fold_chunk_354(),
{
    let ghost o = pview(v@);
    push_pair(v, '\u{10D80}', '\u{10D60}');
    push_pair(v, '\u{10D81}', '\u{10D61}');
    push_pair(v, '\u{10D82}', '\u{10D62}');
    push_pair(v, '\u{10D83}', '\u{10D63}');
    push_pair(v, '\u{10D84}', '\u{10D64}');
    push_pair(v, '\u{10D85}', '\u{10D65}');
    push_pair(v, '\u{118A0}', '\u{118C0}');
    push_pair(v, '\u{118A1}', '\u{118C1}');
    assert(pview(v@) =~= o + fold_chunk_354());
}

fn push_fold_chunk_355(v: &mut Vec<FoldPair>)
    ensures
        pview(final(v)@) == pview(old(v)@) + fold_chunk_355(),
{
    let ghost o = pview(v@);
    push_pair(v, '\u{118A2}', '\u{118C2}');
    push_pair(v, '\u{118A3}', '\u{118C3}');
    push_pair(v, '\u{118A4}', '\u{118C4}');
    push_pair(v, '\u{118A5}', '\u{118C5}');
    push_pair(v, '\u{118A6}', '\u{118C6}');
    push_pair(v, '\u{118A7}', '\u{118C7}');
    push_pair(v, '\u{118A8}', '\u{118C8}');
    push_pair(v, '\u{118A9}', '\u{118C9}');
    assert(pview(v@) =~= o + fold_chunk_355());
}

fn push_fold_chunk_356(v: &mut Vec<FoldPair>)
    ensures
        pview(final(v)@) == pview(old(v)@) + fold_chunk_356(),
{
    let ghost o = pview(v@);
    push_pair(v, '\u{118AA}', '\u{118CA}');
    push_pair(v, '\u{118AB}', '\u{118CB}');
    push_pair(v, '\u{118AC}', '\u{118CC}');
    push_pair(v, '\u{118AD}', '\u{118CD}');
    push_pair(v, '\u{118AE}', '\u{118CE}');
    push_pair(v, '\u{118AF}', '\u{118CF}');
    push_pair(v, '\u{118B0}', '\u{118D0}');
    push_pair(v, '\u{118B1}', '\u{118D1}');
    assert(pview(v@) =~= o + fold_chunk_356());
}

fn push_fold_chunk_357(v: &mut Vec<FoldPair>)
    ensures
        pview(final(v)@) == pview(old(v)@) + fold_chunk_357(),
{
    let ghost o = pview(v@);
    push_pair(v, '\u{118B2}', '\u{118D2}');
    push_pair(v, '\u{118B3}', '\u{118D3}');
    push_pair(v, '\u{118B4}', '\u{118D4}');
    push_pair(v, '\u{118B5}', '\u{118D5}');
    push_pair(v, '\u{118B6}', '\u{118D6}');
    push_pair(v, '\u{118B7}', '\u{118D7}');
    push_pair(v, '\u{118B8}', '\u{118D8}');
    push_pair(v, '\u{118B9}', '\u{118D9}');
    assert(pview(v@) =~= o + fold_chunk_357());
}

fn push_fold_chunk_358(v: &mut Vec<FoldPair>)
    ensures
        pview(final(v)@) == pview(old(v)@) + fold_chunk_358(),
{
    let ghost o = pview(v@);
    push_pair(v, '\u{118BA}', '\u{118DA}');
    push_pair(v, '\u{118BB}', '\u{118DB}');
    push_pair(v, '\u{118BC}', '\u{118DC}');
    push_pair(v, '\u{118BD}', '\u{118DD}');
    push_pair(v, '\u{118BE}', '\u{118DE}');
    push_pair(v, '\u{118BF}', '\u{118DF}');
    push_pair(v, '\u{118C0}', '\u{118A0}');
    push_pair(v, '\u{118C1}', '\u{118A1}');
    assert(pview(v@) =~= o + fold_chunk_358());
}

fn push_fold_chunk_359(v: &mut Vec<FoldPair>)
    ensures
        pview(final(v)@) == pview(old(v)@) + fold_chunk_359(),
{
    let ghost o = pview(v@);
    push_pair(v, '\u{118C2}', '\u{118A2}');
    push_pair(v, '\u{118C3}', '\u{118A3}');
    push_pair(v, '\u{118C4}', '\u{118A4}');
    push_pair(v, '\u{118C5}', '\u{118A5}');
    push_pair(v, '\u{118C6}', '\u{118A6}');
    push_pair(v, '\u{118C7}', '\u{118A7}');
    push_pair(v, '\u{118C8}', '\u{118A8}');
    push_pair(v, '\u{118C9}', '\u{118A9}');
    assert(pview(v@) =~= o + fold_chunk_359());
}

fn push_fold_chunk_360(v: &mut Vec<FoldPair>)
    ensures
        pview(final(v)@) == pview(old(v)@) + fold_chunk_360(),
{
    let ghost o = pview(v@);
    push_pair(v, '\u{118CA}', '\u{118AA}');
    push_pair(v, '\u{118CB}', '\u{118AB}');
    push_pair(v, '\u{118CC}', '\u{118AC}');
    push_pair(v, '\u{118CD}', '\u{118AD}');
    push_pair(v, '\u{118CE}', '\u{118AE}');
    push_pair(v, '\u{118CF}', '\u{118AF}');
    push_pair(v, '\u{118D0}', '\u{118B0}');
    push_pair(v, '\u{118D1}', '\u{118B1}');
    assert(pview(v@) =~= o + fold_chunk_360());
}

fn push_fold_chunk_361(v: &mut Vec<FoldPair>)
    ensures
        pview(final(v)@) == pview(old(v)@) + fold_chunk_361(),
{
    let ghost o = pview(v@);
    push_pair(v, '\u{118D2}', '\u{118B2}');
    push_pair(v, '\u{118D3}', '\u{118B3}');
    push_pair(v, '\u{118D4}', '\u{118B4}');
    push_pair(v, '\u{118D5}', '\u{118B5}');
    push_pair(v, '\u{118D6}', '\u{118B6}');
    push_pair(v, '\u{118D7}', '\u{118B7}');
    push_pair(v, '\u{118D8}', '\u{118B8}');
    push_pair(v, '\u{118D9}', '\u{118B9}');
    assert(pview(v@) =~= o + fold_chunk_361());
}

fn push_fold_chunk_362(v: &mut Vec<FoldPair>)
    ensures
        pview(final(v)@) == pview(old(v)@) + fold_chunk_362(),
{
    let ghost o = pview(v@);
    push_pair(v, '\u{118DA}', '\u{118BA}');
    push_pair(v, '\u{118DB}', '\u{118BB}');
    push_pair(v, '\u{118DC}', '\u{118BC}');
    push_pair(v, '\u{118DD}', '\u{118BD}');
    push_pair(v, '\u{118DE}', '\u{118BE}');
    push_pair(v, '\u{118DF}', '\u{118BF}');
    push_pair(v, '\u{16E40}', '\u{16E60}');
    push_pair(v, '\u{16E41}', '\u{16E61}');
    assert(pview(v@) =~= o + fold_chunk_362());
}

fn push_fold_chunk_363(v: &mut Vec<FoldPair>)
    ensures
        pview(final(v)@) == pview(old(v)@) + fold_chunk_363(),
{
    let ghost o = pview(v@);
    push_pair(v, '\u{16E42}', '\u{16E62}');
    push_pair(v, '\u{16E43}', '\u{16E63}');
    push_pair(v, '\u{16E44}', '\u{16E64}');
    push_pair(v, '\u{16E45}', '\u{16E65}');
    push_pair(v, '\u{16E46}', '\u{16E66}');
    push_pair(v, '\u{16E47}', '\u{16E67}');
    push_pair(v, '\u{16E48}', '\u{16E68}');
    push_pair(v, '\u{16E49}', '\u{16E69}');
    assert(pview(v@) =~= o + fold_chunk_363());
}

fn push_fold_chunk_364(v: &mut Vec<FoldPair>)
    ensures
        pview(final(v)@) == pview(old(v)@) + fold_chunk_364(),
{
    let ghost o = pview(v@);
    push_pair(v, '\u{16E4A}', '\u{16E6A}');
    push_pair(v, '\u{16E4B}', '\u{16E6B}');
    push_pair(v, '\u{16E4C}', '\u{16E6C}');
    push_pair(v, '\u{16E4D}', '\u{16E6D}');
    push_pair(v, '\u{16E4E}', '\u{16E6E}');
    push_pair(v, '\u{16E4F}', '\u{16E6F}');
    push_pair(v, '\u{16E50}', '\u{16E70}');
    push_pair(v, '\u{16E51}', '\u{16E71}');
    assert(pview(v@) =~= o + fold_chunk_364());
}

fn push_fold_chunk_365(v: &mut Vec<FoldPair>)
    ensures
        pview(final(v)@) == pview(old(v)@) + fold_chunk_365(),
{
    let ghost o = pview(v@);
    push_pair(v, '\u{16E52}', '\u{16E72}');
    push_pair(v, '\u{16E53}', '\u{16E73}');
    push_pair(v, '\u{16E54}', '\u{16E74}');
    push_pair(v, '\u{16E55}', '\u{16E75}');
    push_pair(v, '\u{16E56}', '\u{16E76}');
    push_pair(v, '\u{16E57}', '\u{16E77}');
    push_pair(v, '\u{16E58}', '\u{16E78}');
    push_pair(v, '\u{16E59}', '\u{16E79}');
    assert(pview(v@) =~= o + fold_chunk_365());
}

fn push_fold_chunk_366(v: &mut Vec<FoldPair>)
    ensures
        pview(final(v)@) == pview(old(v)@) + fold_chunk_366(),
{
    let ghost o = pview(v@);
    push_pair(v, '\u{16E5A}', '\u{16E7A}');
    push_pair(v, '\u{16E5B}', '\u{16E7B}');
    push_pair(v, '\u{16E5C}', '\u{16E7C}');
    push_pair(v, '\u{16E5D}', '\u{16E7D}');
    push_pair(v, '\u{16E5E}', '\u{16E7E}');
    push_pair(v, '\u{16E5F}', '\u{16E7F}');
    push_pair(v, '\u{16E60}', '\u{16E40}');
    push_pair(v, '\u{16E61}', '\u{16E41}');
    assert(pview(v@) =~= o + fold_chunk_366());
}

fn push_fold_chunk_367(v: &mut Vec<FoldPair>)
    ensures
        pview(final(v)@) == pview(old(v)@) + fold_chunk_367(),
{
    let ghost o = pview(v@);
    push_pair(v, '\u{16E62}', '\u{16E42}');
    push_pair(v, '\u{16E63}', '\u{16E43}');
    push_pair(v, '\u{16E64}', '\u{16E44}');
    push_pair(v, '\u{16E65}', '\u{16E45}');
    push_pair(v, '\u{16E66}', '\u{16E46}');
    push_pair(v, '\u{16E67}', '\u{16E47}');
    push_pair(v, '\u{16E68}', '\u{16E48}');
    push_pair(v, '\u{16E69}', '\u{16E49}');
    assert(pview(v@) =~= o + fold_chunk_367());
}

fn push_fold_chunk_368(v: &mut Vec<FoldPair>)
    ensures
        pview(final(v)@) == pview(old(v)@) + fold_chunk_368(),
{
    let ghost o = pview(v@);
    push_pair(v, '\u{16E6A}', '\u{16E4A}');
    push_pair(v, '\u{16E6B}', '\u{16E4B}');
    push_pair(v, '\u{16E6C}', '\u{16E4C}');
    push_pair(v, '\u{16E6D}', '\u{16E4D}');
    push_pair(v, '\u{16E6E}', '\u{16E4E}');
    push_pair(v, '\u{16E6F}', '\u{16E4F}');
    push_pair(v, '\u{16E70}', '\u{16E50}');
    push_pair(v, '\u{16E71}', '\u{16E51}');
    assert(pview(v@) =~= o + fold_chunk_368());
}

fn push_fold_chunk_369(v: &mut Vec<FoldPair>)
    ensures
        pview(final(v)@) == pview(old(v)@) + fold_chunk_369(),
{
    let ghost o = pview(v@);
    push_pair(v, '\u{16E72}', '\u{16E52}');
    push_pair(v, '\u{16E73}', '\u{16E53}');
    push_pair(v, '\u{16E74}', '\u{16E54}');
    push_pair(v, '\u{16E75}', '\u{16E55}');
    push_pair(v, '\u{16E76}', '\u{16E56}');
    push_pair(v, '\u{16E77}', '\u{16E57}');
    push_pair(v, '\u{16E78}', '\u{16E58}');
    push_pair(v, '\u{16E79}', '\u{16E59}');
    assert(pview(v@) =~= o + fold_chunk_369());
}

fn push_fold_chunk_370(v: &mut Vec<FoldPair>)
    ensures
        pview(final(v)@) == pview(old(v)@) + fold_chunk_370(),
{
    let ghost o = pview(v@);
    push_pair(v, '\u{16E7A}', '\u{16E5A}');
    push_pair(v, '\u{16E7B}', '\u{16E5B}');
    push_pair(v, '\u{16E7C}', '\u{16E5C}');
    push_pair(v, '\u{16E7D}', '\u{16E5D}');
    push_pair(v, '\u{16E7E}', '\u{16E5E}');
    push_pair(v, '\u{16E7F}', '\u{16E5F}');
    push_pair(v, '\u{1E900}', '\u{1E922}');
    push_pair(v, '\u{1E901}', '\u{1E923}');
    assert(pview(v@) =~= o + fold_chunk_370());
}

fn push_fold_chunk_371(v: &mut Vec<FoldPair>)
    ensures
        pview(final(v)@) == pview(old(v)@) + fold_chunk_371(),
{
    let ghost o = pview(v@);
    push_pair(v, '\u{1E902}', '\u{1E924}');
    push_pair(v, '\u{1E903}', '\u{1E925}');
    push_pair(v, '\u{1E904}', '\u{1E926}');
    push_pair(v, '\u{1E905}', '\u{1E927}');
    push_pair(v, '\u{1E906}', '\u{1E928}');
    push_pair(v, '\u{1E907}', '\u{1E929}');
    push_pair(v, '\u{1E908}', '\u{1E92A}');
    push_pair(v, '\u{1E909}', '\u{1E92B}');
    assert(pview(v@) =~= o + fold_chunk_371());
}

fn push_fold_chunk_372(v: &mut Vec<FoldPair>)
    ensures
        pview(final(v)@) == pview(old(v)@) + fold_chunk_372(),
{
    let ghost o = pview(v@);
    push_pair(v, '\u{1E90A}', '\u{1E92C}');
    push_pair(v, '\u{1E90B}', '\u{1E92D}');
    push_pair(v, '\u{1E90C}', '\u{1E92E}');
    push_pair(v, '\u{1E90D}', '\u{1E92F}');
    push_pair(v, '\u{1E90E}', '\u{1E930}');
    push_pair(v, '\u{1E90F}', '\u{1E931}');
    push_pair(v, '\u{1E910}', '\u{1E932}');
    push_pair(v, '\u{1E911}', '\u{1E933}');
    assert(pview(v@) =~= o + fold_chunk_372());
}

fn push_fold_chunk_373(v: &mut Vec<FoldPair>)
    ensures
        pview(final(v)@) == pview(old(v)@) + fold_chunk_373(),
{
    let ghost o = pview(v@);
    push_pair(v, '\u{1E912}', '\u{1E934}');
    push_pair(v, '\u{1E913}', '\u{1E935}');
    push_pair(v, '\u{1E914}', '\u{1E936}');
    push_pair(v, '\u{1E915}', '\u{1E937}');
    push_pair(v, '\u{1E916}', '\u{1E938}');
    push_pair(v, '\u{1E917}', '\u{1E939}');
    push_pair(v, '\u{1E918}', '\u{1E93A}');
    push_pair(v, '\u{1E919}', '\u{1E93B}');
    assert(pview(v@) =~= o + fold_chunk_373());
}

fn push_fold_chunk_374(v: &mut Vec<FoldPair>)
    ensures
        pview(final(v)@) == pview(old(v)@) + fold_chunk_374(),
{
    let ghost o = pview(v@);
    push_pair(v, '\u{1E91A}', '\u{1E93C}');
    push_pair(v, '\u{1E91B}', '\u{1E93D}');
    push_pair(v, '\u{1E91C}', '\u{1E93E}');
    push_pair(v, '\u{1E91D}', '\u{1E93F}');
    push_pair(v, '\u{1E91E}', '\u{1E940}');
    push_pair(v, '\u{1E91F}', '\u{1E941}');
    push_pair(v, '\u{1E920}', '\u{1E942}');
    push_pair(v, '\u{1E921}', '\u{1E943}');
    assert(pview(v@) =~= o + fold_chunk_374());
}

fn push_fold_chunk_375(v: &mut Vec<FoldPair>)
    ensures
        pview(final(v)@) == pview(old(v)@) + fold_chunk_375(),
{
    let ghost o = pview(v@);
    push_pair(v, '\u{1E922}', '\u{1E900}');
    push_pair(v, '\u{1E923}', '\u{1E901}');
    push_pair(v, '\u{1E924}', '\u{1E902}');
    push_pair(v, '\u{1E925}', '\u{1E903}');
    push_pair(v, '\u{1E926}', '\u{1E904}');
    push_pair(v, '\u{1E927}', '\u{1E905}');
    push_pair(v, '\u{1E928}', '\u{1E906}');
    push_pair(v, '\u{1E929}', '\u{1E907}');
    assert(pview(v@) =~= o + fold_chunk_375());
}

fn push_fold_chunk_376(v: &mut Vec<FoldPair>)
    ensures
        pview(final(v)@) == pview(old(v)@) + fold_chunk_376(),
{
    let ghost o = pview(v@);
    push_pair(v, '\u{1E92A}', '\u{1E908}');
    push_pair(v, '\u{1E92B}', '\u{1E909}');
    push_pair(v, '\u{1E92C}', '\u{1E90A}');
    push_pair(v, '\u{1E92D}', '\u{1E90B}');
    push_pair(v, '\u{1E92E}', '\u{1E90C}');
    push_pair(v, '\u{1E92F}', '\u{1E90D}');
    push_pair(v, '\u{1E930}', '\u{1E90E}');
    push_pair(v, '\u{1E931}', '\u{1E90F}');
    assert(pview(v@) =~= o + fold_chunk_376());
}

fn push_fold_chunk_377(v: &mut Vec<FoldPair>)
    ensures
        pview(final(v)@) == pview(old(v)@) + fold_chunk_377(),
{
    let ghost o = pview(v@);
    push_pair(v, '\u{1E932}', '\u{1E910}');
    push_pair(v, '\u{1E933}', '\u{1E911}');
    push_pair(v, '\u{1E934}', '\u{1E912}');
    push_pair(v, '\u{1E935}', '\u{1E913}');
    push_pair(v, '\u{1E936}', '\u{1E914}');
    push_pair(v, '\u{1E937}', '\u{1E915}');
    push_pair(v, '\u{1E938}', '\u{1E916}');
    push_pair(v, '\u{1E939}', '\u{1E917}');
    assert(pview(v@) =~= o + fold_chunk_377());
}

fn push_fold_chunk_378(v: &mut Vec<FoldPair>)
    ensures
        pview(final(v)@) == pview(old(v)@) + fold_chunk_378(),
{
    let ghost o = pview(v@);
    push_pair(v, '\u{1E93A}', '\u{1E918}');
    push_pair(v, '\u{1E93B}', '\u{1E919}');
    push_pair(v, '\u{1E93C}', '\u{1E91A}');
    push_pair(v, '\u{1E93D}', '\u{1E91B}');
    push_pair(v, '\u{1E93E}', '\u{1E91C}');
    push_pair(v, '\u{1E93F}', '\u{1E91D}');
    push_pair(v, '\u{1E940}', '\u{1E91E}');
    push_pair(v, '\u{1E941}', '\u{1E91F}');
    assert(pview(v@) =~= o + fold_chunk_378());
}

fn push_fold_chunk_379(v: &mut Vec<FoldPair>)
    ensures
        pview(final(v)@) == pview(old(v)@) + fold_chunk_379(),
{
    let ghost o = pview(v@);
    push_pair(v, '\u{1E942}', '\u{1E920}');
    push_pair(v, '\u{1E943}', '\u{1E921}');
    assert(pview(v@) =~= o + fold_chunk_379());
}

fn push_fold_block_0(v: &mut Vec<FoldPair>)
    ensures
        pview(final(v)@) == pview(old(v)@) + fold_block_0(),
{
    let ghost o = pview(v@);
    push_fold_chunk_0(v);
    assert(pview(v@) =~= o + (fold_chunk_0()));
    push_fold_chunk_1(v);
    assert(pview(v@) =~= o + (fold_chunk_0() + fold_chunk_1()));
    push_fold_chunk_2(v);
    assert(pview(v@) =~= o + (fold_chunk_0() + fold_chunk_1() + fold_chunk_2()));
    push_fold_chunk_3(v);
    assert(pview(v@) =~= o + (fold_chunk_0() + fold_chunk_1() + fold_chunk_2() + fold_chunk_3()));
    push_fold_chunk_4(v);
    assert(pview(v@) =~= o + (fold_chunk_0() + fold_chunk_1() + fold_chunk_2() + fold_chunk_3() + fold_chunk_4()));
    push_fold_chunk_5(v);
    assert(pview(v@) =~= o + (fold_chunk_0() + fold_chunk_1() + fold_chunk_2() + fold_chunk_3() + fold_chunk_4() + fold_chunk_5()));
    push_fold_chunk_6(v);
    assert(pview(v@) =~= o + (fold_chunk_0() + fold_chunk_1() + fold_chunk_2() + fold_chunk_3() + fold_chunk_4() + fold_chunk_5() + fold_chunk_6()));
    push_fold_chunk_7(v);
    assert(pview(v@) =~= o + (fold_chunk_0() + fold_chunk_1() + fold_chunk_2() + fold_chunk_3() + fold_chunk_4() + fold_chunk_5() + fold_chunk_6() + fold_chunk_7()));
    push_fold_chunk_8(v);
    assert(pview(v@) =~= o + (fold_chunk_0() + fold_chunk_1() + fold_chunk_2() + fold_chunk_3() + fold_chunk_4() + fold_chunk_5() + fold_chunk_6() + fold_chunk_7() + fold_chunk_8()));
    push_fold_chunk_9(v);
    assert(pview(v@) =~= o + (fold_chunk_0() + fold_chunk_1() + fold_chunk_2() + fold_chunk_3() + fold_chunk_4() + fold_chunk_5() + fold_chunk_6() + fold_chunk_7() + fold_chunk_8() + fold_chunk_9()));
}

fn push_fold_block_1(v: &mut Vec<FoldPair>)
    ensures
        pview(final(v)@) == pview(old(v)@) + fold_block_1(),
{
    let ghost o = pview(v@);
    push_fold_chunk_10(v);
    assert(pview(v@) =~= o + (fold_chunk_10()));
    push_fold_chunk_11(v);
    assert(pview(v@) =~= o + (fold_chunk_10() + fold_chunk_11()));
    push_fold_chunk_12(v);
    assert(pview(v@) =~= o + (fold_chunk_10() + fold_chunk_11() + fold_chunk_12()));
    push_fold_chunk_13(v);
    assert(pview(v@) =~= o + (fold_chunk_10() + fold_chunk_11() + fold_chunk_12() + fold_chunk_13()));
    push_fold_chunk_14(v);
    assert(pview(v@) =~= o + (fold_chunk_10() + fold_chunk_11() + fold_chunk_12() + fold_chunk_13() + fold_chunk_14()));
    push_fold_chunk_15(v);
    assert(pview(v@) =~= o + (fold_chunk_10() + fold_chunk_11() + fold_chunk_12() + fold_chunk_13() + fold_chunk_14() + fold_chunk_15()));
    push_fold_chunk_16(v);
    assert(pview(v@) =~= o + (fold_chunk_10() + fold_chunk_11() + fold_chunk_12() + fold_chunk_13() + fold_chunk_14() + fold_chunk_15() + fold_chunk_16()));
    push_fold_chunk_17(v);
    assert(pview(v@) =~= o + (fold_chunk_10() + fold_chunk_11() + fold_chunk_12() + fold_chunk_13() + fold_chunk_14() + fold_chunk_15() + fold_chunk_16() + fold_chunk_17()));
    push_fold_chunk_18(v);
    assert(pview(v@) =~= o + (fold_chunk_10() + fold_chunk_11() + fold_chunk_12() + fold_chunk_13() + fold_chunk_14() + fold_chunk_15() + fold_chunk_16() + fold_chunk_17() + fold_chunk_18()));
    push_fold_chunk_19(v);
    assert(pview(v@) =~= o + (fold_chunk_10() + fold_chunk_11() + fold_chunk_12() + fold_chunk_13() + fold_chunk_14() + fold_chunk_15() + fold_chunk_16() + fold_chunk_17() + fold_chunk_18() + fold_chunk_19()));
}

fn push_fold_block_2(v: &mut Vec<FoldPair>)
    ensures
        pview(final(v)@) == pview(old(v)@) + fold_block_2(),
{
    let ghost o = pview(v@);
    push_fold_chunk_20(v);
    assert(pview(v@) =~= o + (fold_chunk_20()));
    push_fold_chunk_21(v);
    assert(pview(v@) =~= o + (fold_chunk_20() + fold_chunk_21()));
    push_fold_chunk_22(v);
    assert(pview(v@) =~= o + (fold_chunk_20() + fold_chunk_21() + fold_chunk_22()));
    push_fold_chunk_23(v);
    assert(pview(v@) =~= o + (fold_chunk_20() + fold_chunk_21() + fold_chunk_22() + fold_chunk_23()));
    push_fold_chunk_24(v);
    assert(pview(v@) =~= o + (fold_chunk_20() + fold_chunk_21() + fold_chunk_22() + fold_chunk_23() + fold_chunk_24()));
    push_fold_chunk_25(v);
    assert(pview(v@) =~= o + (fold_chunk_20() + fold_chunk_21() + fold_chunk_22() + fold_chunk_23() + fold_chunk_24() + fold_chunk_25()));
    push_fold_chunk_26(v);
    assert(pview(v@) =~= o + (fold_chunk_20() + fold_chunk_21() + fold_chunk_22() + fold_chunk_23() + fold_chunk_24() + fold_chunk_25() + fold_chunk_26()));
    push_fold_chunk_27(v);
    assert(pview(v@) =~= o + (fold_chunk_20() + fold_chunk_21() + fold_chunk_22() + fold_chunk_23() + fold_chunk_24() + fold_chunk_25() + fold_chunk_26() + fold_chunk_27()));
    push_fold_chunk_28(v);
    assert(pview(v@) =~= o + (fold_chunk_20() + fold_chunk_21() + fold_chunk_22() + fold_chunk_23() + fold_chunk_24() + fold_chunk_25() + fold_chunk_26() + fold_chunk_27() + fold_chunk_28()));
    push_fold_chunk_29(v);
    assert(pview(v@) =~= o + (fold_chunk_20() + fold_chunk_21() + fold_chunk_22() + fold_chunk_23() + fold_chunk_24() + fold_chunk_25() + fold_chunk_26() + fold_chunk_27() + fold_chunk_28() + fold_chunk_29()));
}

fn push_fold_block_3(v: &mut Vec<FoldPair>)
    ensures
        pview(final(v)@) == pview(old(v)@) + fold_block_3(),
{
    let ghost o = pview(v@);
    push_fold_chunk_30(v);
    assert(pview(v@) =~= o + (fold_chunk_30()));
    push_fold_chunk_31(v);
    assert(pview(v@) =~= o + (fold_chunk_30() + fold_chunk_31()));
    push_fold_chunk_32(v);
    assert(pview(v@) =~= o + (fold_chunk_30() + fold_chunk_31() + fold_chunk_32()));
    push_fold_chunk_33(v);
    assert(pview(v@) =~= o + (fold_chunk_30() + fold_chunk_31() + fold_chunk_32() + fold_chunk_33()));
    push_fold_chunk_34(v);
    assert(pview(v@) =~= o + (fold_chunk_30() + fold_chunk_31() + fold_chunk_32() + fold_chunk_33() + fold_chunk_34()));
    push_fold_chunk_35(v);
    assert(pview(v@) =~= o + (fold_chunk_30() + fold_chunk_31() + fold_chunk_32() + fold_chunk_33() + fold_chunk_34() + fold_chunk_35()));
    push_fold_chunk_36(v);
    assert(pview(v@) =~= o + (fold_chunk_30() + fold_chunk_31() + fold_chunk_32() + fold_chunk_33() + fold_chunk_34() + fold_chunk_35() + fold_chunk_36()));
    push_fold_chunk_37(v);
    assert(pview(v@) =~= o + (fold_chunk_30() + fold_chunk_31() + fold_chunk_32() + fold_chunk_33() + fold_chunk_34() + fold_chunk_35() + fold_chunk_36() + fold_chunk_37()));
    push_fold_chunk_38(v);
    assert(pview(v@) =~= o + (fold_chunk_30() + fold_chunk_31() + fold_chunk_32() + fold_chunk_33() + fold_chunk_34() + fold_chunk_35() + fold_chunk_36() + fold_chunk_37() + fold_chunk_38()));
    push_fold_chunk_39(v);
    assert(pview(v@) =~= o + (fold_chunk_30() + fold_chunk_31() + fold_chunk_32() + fold_chunk_33() + fold_chunk_34() + fold_chunk_35() + fold_chunk_36() + fold_chunk_37() + fold_chunk_38() + fold_chunk_39()));
}

fn push_fold_block_4(v: &mut Vec<FoldPair>)
    ensures
        pview(final(v)@) == pview(old(v)@) + fold_block_4(),
{
    let ghost o = pview(v@);
    push_fold_chunk_40(v);
    assert(pview(v@) =~= o + (fold_chunk_40()));
    push_fold_chunk_41(v);
    assert(pview(v@) =~= o + (fold_chunk_40() + fold_chunk_41()));
    push_fold_chunk_42(v);
    assert(pview(v@) =~= o + (fold_chunk_40() + fold_chunk_41() + fold_chunk_42()));
    push_fold_chunk_43(v);
    assert(pview(v@) =~= o + (fold_chunk_40() + fold_chunk_41() + fold_chunk_42() + fold_chunk_43()));
    push_fold_chunk_44(v);
    assert(pview(v@) =~= o + (fold_chunk_40() + fold_chunk_41() + fold_chunk_42() + fold_chunk_43() + fold_chunk_44()));
    push_fold_chunk_45(v);
    assert(pview(v@) =~= o + (fold_chunk_40() + fold_chunk_41() + fold_chunk_42() + fold_chunk_43() + fold_chunk_44() + fold_chunk_45()));
    push_fold_chunk_46(v);
    assert(pview(v@) =~= o + (fold_chunk_40() + fold_chunk_41() + fold_chunk_42() + fold_chunk_43() + fold_chunk_44() + fold_chunk_45() + fold_chunk_46()));
    push_fold_chunk_47(v);
    assert(pview(v@) =~= o + (fold_chunk_40() + fold_chunk_41() + fold_chunk_42() + fold_chunk_43() + fold_chunk_44() + fold_chunk_45() + fold_chunk_46() + fold_chunk_47()));
    push_fold_chunk_48(v);
    assert(pview(v@) =~= o + (fold_chunk_40() + fold_chunk_41() + fold_chunk_42() + fold_chunk_43() + fold_chunk_44() + fold_chunk_45() + fold_chunk_46() + fold_chunk_47() + fold_chunk_48()));
    push_fold_chunk_49(v);
    assert(pview(v@) =~= o + (fold_chunk_40() + fold_chunk_41() + fold_chunk_42() + fold_chunk_43() + fold_chunk_44() + fold_chunk_45() + fold_chunk_46() + fold_chunk_47() + fold_chunk_48() + fold_chunk_49()));
}

fn push_fold_block_5(v: &mut Vec<FoldPair>)
    ensures
        pview(final(v)@) == pview(old(v)@) + fold_block_5(),
{
    let ghost o = pview(v@);
    push_fold_chunk_50(v);
    assert(pview(v@) =~= o + (fold_chunk_50()));
    push_fold_chunk_51(v);
    assert(pview(v@) =~= o + (fold_chunk_50() + fold_chunk_51()));
    push_fold_chunk_52(v);
    assert(pview(v@) =~= o + (fold_chunk_50() + fold_chunk_51() + fold_chunk_52()));
    push_fold_chunk_53(v);
    assert(pview(v@) =~= o + (fold_chunk_50() + fold_chunk_51() + fold_chunk_52() + fold_chunk_53()));
    push_fold_chunk_54(v);
    assert(pview(v@) =~= o + (fold_chunk_50() + fold_chunk_51() + fold_chunk_52() + fold_chunk_53() + fold_chunk_54()));
    push_fold_chunk_55(v);
    assert(pview(v@) =~= o + (fold_chunk_50() + fold_chunk_51() + fold_chunk_52() + fold_chunk_53() + fold_chunk_54() + fold_chunk_55()));
    push_fold_chunk_56(v);
    assert(pview(v@) =~= o + (fold_chunk_50() + fold_chunk_51() + fold_chunk_52() + fold_chunk_53() + fold_chunk_54() + fold_chunk_55() + fold_chunk_56()));
    push_fold_chunk_57(v);
    assert(pview(v@) =~= o + (fold_chunk_50() + fold_chunk_51() + fold_chunk_52() + fold_chunk_53() + fold_chunk_54() + fold_chunk_55() + fold_chunk_56() + fold_chunk_57()));
    push_fold_chunk_58(v);
    assert(pview(v@) =~= o + (fold_chunk_50() + fold_chunk_51() + fold_chunk_52() + fold_chunk_53() + fold_chunk_54() + fold_chunk_55() + fold_chunk_56() + fold_chunk_57() + fold_chunk_58()));
    push_fold_chunk_59(v);
    assert(pview(v@) =~= o + (fold_chunk_50() + fold_chunk_51() + fold_chunk_52() + fold_chunk_53() + fold_chunk_54() + fold_chunk_55() + fold_chunk_56() + fold_chunk_57() + fold_chunk_58() + fold_chunk_59()));
}

fn push_fold_block_6(v: &mut Vec<FoldPair>)
    ensures
        pview(final(v)@) == pview(old(v)@) + fold_block_6(),
{
    let ghost o = pview(v@);
    push_fold_chunk_60(v);
    assert(pview(v@) =~= o + (fold_chunk_60()));
    push_fold_chunk_61(v);
    assert(pview(v@) =~= o + (fold_chunk_60() + fold_chunk_61()));
    push_fold_chunk_62(v);
    assert(pview(v@) =~= o + (fold_chunk_60() + fold_chunk_61() + fold_chunk_62()));
    push_fold_chunk_63(v);
    assert(pview(v@) =~= o + (fold_chunk_60() + fold_chunk_61() + fold_chunk_62() + fold_chunk_63()));
    push_fold_chunk_64(v);
    assert(pview(v@) =~= o + (fold_chunk_60() + fold_chunk_61() + fold_chunk_62() + fold_chunk_63() + fold_chunk_64()));
    push_fold_chunk_65(v);
    assert(pview(v@) =~= o + (fold_chunk_60() + fold_chunk_61() + fold_chunk_62() + fold_chunk_63() + fold_chunk_64() + fold_chunk_65()));
    push_fold_chunk_66(v);
    assert(pview(v@) =~= o + (fold_chunk_60() + fold_chunk_61() + fold_chunk_62() + fold_chunk_63() + fold_chunk_64() + fold_chunk_65() + fold_chunk_66()));
    push_fold_chunk_67(v);
    assert(pview(v@) =~= o + (fold_chunk_60() + fold_chunk_61() + fold_chunk_62() + fold_chunk_63() + fold_chunk_64() + fold_chunk_65() + fold_chunk_66() + fold_chunk_67()));
    push_fold_chunk_68(v);
    assert(pview(v@) =~= o + (fold_chunk_60() + fold_chunk_61() + fold_chunk_62() + fold_chunk_63() + fold_chunk_64() + fold_chunk_65() + fold_chunk_66() + fold_chunk_67() + fold_chunk_68()));
    push_fold_chunk_69(v);
    assert(pview(v@) =~= o + (fold_chunk_60() + fold_chunk_61() + fold_chunk_62() + fold_chunk_63() + fold_chunk_64() + fold_chunk_65() + fold_chunk_66() + fold_chunk_67() + fold_chunk_68() + fold_chunk_69()));
}

fn push_fold_block_7(v: &mut Vec<FoldPair>)
    ensures
        pview(final(v)@) == pview(old(v)@) + fold_block_7(),
{
    let ghost o = pview(v@);
    push_fold_chunk_70(v);
    assert(pview(v@) =~= o + (fold_chunk_70()));
    push_fold_chunk_71(v);
    assert(pview(v@) =~= o + (fold_chunk_70() + fold_chunk_71()));
    push_fold_chunk_72(v);
    assert(pview(v@) =~= o + (fold_chunk_70() + fold_chunk_71() + fold_chunk_72()));
    push_fold_chunk_73(v);
    assert(pview(v@) =~= o + (fold_chunk_70() + fold_chunk_71() + fold_chunk_72() + fold_chunk_73()));
    push_fold_chunk_74(v);
    assert(pview(v@) =~= o + (fold_chunk_70() + fold_chunk_71() + fold_chunk_72() + fold_chunk_73() + fold_chunk_74()));
    push_fold_chunk_75(v);
    assert(pview(v@) =~= o + (fold_chunk_70() + fold_chunk_71() + fold_chunk_72() + fold_chunk_73() + fold_chunk_74() + fold_chunk_75()));
    push_fold_chunk_76(v);
    assert(pview(v@) =~= o + (fold_chunk_70() + fold_chunk_71() + fold_chunk_72() + fold_chunk_73() + fold_chunk_74() + fold_chunk_75() + fold_chunk_76()));
    push_fold_chunk_77(v);
    assert(pview(v@) =~= o + (fold_chunk_70() + fold_chunk_71() + fold_chunk_72() + fold_chunk_73() + fold_chunk_74() + fold_chunk_75() + fold_chunk_76() + fold_chunk_77()));
    push_fold_chunk_78(v);
    assert(pview(v@) =~= o + (fold_chunk_70() + fold_chunk_71() + fold_chunk_72() + fold_chunk_73() + fold_chunk_74() + fold_chunk_75() + fold_chunk_76() + fold_chunk_77() + fold_chunk_78()));
    push_fold_chunk_79(v);
    assert(pview(v@) =~= o + (fold_chunk_70() + fold_chunk_71() + fold_chunk_72() + fold_chunk_73() + fold_chunk_74() + fold_chunk_75() + fold_chunk_76() + fold_chunk_77() + fold_chunk_78() + fold_chunk_79()));
}

fn push_fold_block_8(v: &mut Vec<FoldPair>)
    ensures
        pview(final(v)@) == pview(old(v)@) + fold_block_8(),
{
    let ghost o = pview(v@);
    push_fold_chunk_80(v);
    assert(pview(v@) =~= o + (fold_chunk_80()));
    push_fold_chunk_81(v);
    assert(pview(v@) =~= o + (fold_chunk_80() + fold_chunk_81()));
    push_fold_chunk_82(v);
    assert(pview(v@) =~= o + (fold_chunk_80() + fold_chunk_81() + fold_chunk_82()));
    push_fold_chunk_83(v);
    assert(pview(v@) =~= o + (fold_chunk_80() + fold_chunk_81() + fold_chunk_82() + fold_chunk_83()));
    push_fold_chunk_84(v);
    assert(pview(v@) =~= o + (fold_chunk_80() + fold_chunk_81() + fold_chunk_82() + fold_chunk_83() + fold_chunk_84()));
    push_fold_chunk_85(v);
    assert(pview(v@) =~= o + (fold_chunk_80() + fold_chunk_81() + fold_chunk_82() + fold_chunk_83() + fold_chunk_84() + fold_chunk_85()));
    push_fold_chunk_86(v);
    assert(pview(v@) =~= o + (fold_chunk_80() + fold_chunk_81() + fold_chunk_82() + fold_chunk_83() + fold_chunk_84() + fold_chunk_85() + fold_chunk_86()));
    push_fold_chunk_87(v);
    assert(pview(v@) =~= o + (fold_chunk_80() + fold_chunk_81() + fold_chunk_82() + fold_chunk_83() + fold_chunk_84() + fold_chunk_85() + fold_chunk_86() + fold_chunk_87()));
    push_fold_chunk_88(v);
    assert(pview(v@) =~= o + (fold_chunk_80() + fold_chunk_81() + fold_chunk_82() + fold_chunk_83() + fold_chunk_84() + fold_chunk_85() + fold_chunk_86() + fold_chunk_87() + fold_chunk_88()));
    push_fold_chunk_89(v);
    assert(pview(v@) =~= o + (fold_chunk_80() + fold_chunk_81() + fold_chunk_82() + fold_chunk_83() + fold_chunk_84() + fold_chunk_85() + fold_chunk_86() + fold_chunk_87() + fold_chunk_88() + fold_chunk_89()));
}

fn push_fold_block_9(v: &mut Vec<FoldPair>)
    ensures
        pview(final(v)@) == pview(old(v)@) + fold_block_9(),
{
    let ghost o = pview(v@);
    push_fold_chunk_90(v);
    assert(pview(v@) =~= o + (fold_chunk_90()));
    push_fold_chunk_91(v);
    assert(pview(v@) =~= o + (fold_chunk_90() + fold_chunk_91()));
    push_fold_chunk_92(v);
    assert(pview(v@) =~= o + (fold_chunk_90() + fold_chunk_91() + fold_chunk_92()));
    push_fold_chunk_93(v);
    assert(pview(v@) =~= o + (fold_chunk_90() + fold_chunk_91() + fold_chunk_92() + fold_chunk_93()));
    push_fold_chunk_94(v);
    assert(pview(v@) =~= o + (fold_chunk_90() + fold_chunk_91() + fold_chunk_92() + fold_chunk_93() + fold_chunk_94()));
    push_fold_chunk_95(v);
    assert(pview(v@) =~= o + (fold_chunk_90() + fold_chunk_91() + fold_chunk_92() + fold_chunk_93() + fold_chunk_94() + fold_chunk_95()));
    push_fold_chunk_96(v);
    assert(pview(v@) =~= o + (fold_chunk_90() + fold_chunk_91() + fold_chunk_92() + fold_chunk_93() + fold_chunk_94() + fold_chunk_95() + fold_chunk_96()));
    push_fold_chunk_97(v);
    assert(pview(v@) =~= o + (fold_chunk_90() + fold_chunk_91() + fold_chunk_92() + fold_chunk_93() + fold_chunk_94() + fold_chunk_95() + fold_chunk_96() + fold_chunk_97()));
    push_fold_chunk_98(v);
    assert(pview(v@) =~= o + (fold_chunk_90() + fold_chunk_91() + fold_chunk_92() + fold_chunk_93() + fold_chunk_94() + fold_chunk_95() + fold_chunk_96() + fold_chunk_97() + fold_chunk_98()));
    push_fold_chunk_99(v);
    assert(pview(v@) =~= o + (fold_chunk_90() + fold_chunk_91() + fold_chunk_92() + fold_chunk_93() + fold_chunk_94() + fold_chunk_95() + fold_chunk_96() + fold_chunk_97() + fold_chunk_98() + fold_chunk_99()));
}

fn push_fold_block_10(v: &mut Vec<FoldPair>)
    ensures
        pview(final(v)@) == pview(old(v)@) + fold_block_10(),
{
    let ghost o = pview(v@);
    push_fold_chunk_100(v);
    assert(pview(v@) =~= o + (fold_chunk_100()));
    push_fold_chunk_101(v);
    assert(pview(v@) =~= o + (fold_chunk_100() + fold_chunk_101()));
    push_fold_chunk_102(v);
    assert(pview(v@) =~= o + (fold_chunk_100() + fold_chunk_101() + fold_chunk_102()));
    push_fold_chunk_103(v);
    assert(pview(v@) =~= o + (fold_chunk_100() + fold_chunk_101() + fold_chunk_102() + fold_chunk_103()));
    push_fold_chunk_104(v);
    assert(pview(v@) =~= o + (fold_chunk_100() + fold_chunk_101() + fold_chunk_102() + fold_chunk_103() + fold_chunk_104()));
    push_fold_chunk_105(v);
    assert(pview(v@) =~= o + (fold_chunk_100() + fold_chunk_101() + fold_chunk_102() + fold_chunk_103() + fold_chunk_104() + fold_chunk_105()));
    push_fold_chunk_106(v);
    assert(pview(v@) =~= o + (fold_chunk_100() + fold_chunk_101() + fold_chunk_102() + fold_chunk_103() + fold_chunk_104() + fold_chunk_105() + fold_chunk_106()));
    push_fold_chunk_107(v);
    assert(pview(v@) =~= o + (fold_chunk_100() + fold_chunk_101() + fold_chunk_102() + fold_chunk_103() + fold_chunk_104() + fold_chunk_105() + fold_chunk_106() + fold_chunk_107()));
    push_fold_chunk_108(v);
    assert(pview(v@) =~= o + (fold_chunk_100() + fold_chunk_101() + fold_chunk_102() + fold_chunk_103() + fold_chunk_104() + fold_chunk_105() + fold_chunk_106() + fold_chunk_107() + fold_chunk_108()));
    push_fold_chunk_109(v);
    assert(pview(v@) =~= o + (fold_chunk_100() + fold_chunk_101() + fold_chunk_102() + fold_chunk_103() + fold_chunk_104() + fold_chunk_105() + fold_chunk_106() + fold_chunk_107() + fold_chunk_108() + fold_chunk_109()));
}

fn push_fold_block_11(v: &mut Vec<FoldPair>)
    ensures
        pview(final(v)@) == pview(old(v)@) + fold_block_11(),
{
    let ghost o = pview(v@);
    push_fold_chunk_110(v);
    assert(pview(v@) =~= o + (fold_chunk_110()));
    push_fold_chunk_111(v);
    assert(pview(v@) =~= o + (fold_chunk_110() + fold_chunk_111()));
    push_fold_chunk_112(v);
    assert(pview(v@) =~= o + (fold_chunk_110() + fold_chunk_111() + fold_chunk_112()));
    push_fold_chunk_113(v);
    assert(pview(v@) =~= o + (fold_chunk_110() + fold_chunk_111() + fold_chunk_112() + fold_chunk_113()));
    push_fold_chunk_114(v);
    assert(pview(v@) =~= o + (fold_chunk_110() + fold_chunk_111() + fold_chunk_112() + fold_chunk_113() + fold_chunk_114()));
    push_fold_chunk_115(v);
    assert(pview(v@) =~= o + (fold_chunk_110() + fold_chunk_111() + fold_chunk_112() + fold_chunk_113() + fold_chunk_114() + fold_chunk_115()));
    push_fold_chunk_116(v);
    assert(pview(v@) =~= o + (fold_chunk_110() + fold_chunk_111() + fold_chunk_112() + fold_chunk_113() + fold_chunk_114() + fold_chunk_115() + fold_chunk_116()));
    push_fold_chunk_117(v);
    assert(pview(v@) =~= o + (fold_chunk_110() + fold_chunk_111() + fold_chunk_112() + fold_chunk_113() + fold_chunk_114() + fold_chunk_115() + fold_chunk_116() + fold_chunk_117()));
    push_fold_chunk_118(v);
    assert(pview(v@) =~= o + (fold_chunk_110() + fold_chunk_111() + fold_chunk_112() + fold_chunk_113() + fold_chunk_114() + fold_chunk_115() + fold_chunk_116() + fold_chunk_117() + fold_chunk_118()));
    push_fold_chunk_119(v);
    assert(pview(v@) =~= o + (fold_chunk_110() + fold_chunk_111() + fold_chunk_112() + fold_chunk_113() + fold_chunk_114() + fold_chunk_115() + fold_chunk_116() + fold_chunk_117() + fold_chunk_118() + fold_chunk_119()));
}

fn push_fold_block_12(v: &mut Vec<FoldPair>)
    ensures
        pview(final(v)@) == pview(old(v)@) + fold_block_12(),
{
    let ghost o = pview(v@);
    push_fold_chunk_120(v);
    assert(pview(v@) =~= o + (fold_chunk_120()));
    push_fold_chunk_121(v);
    assert(pview(v@) =~= o + (fold_chunk_120() + fold_chunk_121()));
    push_fold_chunk_122(v);
    assert(pview(v@) =~= o + (fold_chunk_120() + fold_chunk_121() + fold_chunk_122()));
    push_fold_chunk_123(v);
    assert(pview(v@) =~= o + (fold_chunk_120() + fold_chunk_121() + fold_chunk_122() + fold_chunk_123()));
    push_fold_chunk_124(v);
    assert(pview(v@) =~= o + (fold_chunk_120() + fold_chunk_121() + fold_chunk_122() + fold_chunk_123() + fold_chunk_124()));
    push_fold_chunk_125(v);
    assert(pview(v@) =~= o + (fold_chunk_120() + fold_chunk_121() + fold_chunk_122() + fold_chunk_123() + fold_chunk_124() + fold_chunk_125()));
    push_fold_chunk_126(v);
    assert(pview(v@) =~= o + (fold_chunk_120() + fold_chunk_121() + fold_chunk_122() + fold_chunk_123() + fold_chunk_124() + fold_chunk_125() + fold_chunk_126()));
    push_fold_chunk_127(v);
    assert(pview(v@) =~= o + (fold_chunk_120() + fold_chunk_121() + fold_chunk_122() + fold_chunk_123() + fold_chunk_124() + fold_chunk_125() + fold_chunk_126() + fold_chunk_127()));
    push_fold_chunk_128(v);
    assert(pview(v@) =~= o + (fold_chunk_120() + fold_chunk_121() + fold_chunk_122() + fold_chunk_123() + fold_chunk_124() + fold_chunk_125() + fold_chunk_126() + fold_chunk_127() + fold_chunk_128()));
    push_fold_chunk_129(v);
    assert(pview(v@) =~= o + (fold_chunk_120() + fold_chunk_121() + fold_chunk_122() + fold_chunk_123() + fold_chunk_124() + fold_chunk_125() + fold_chunk_126() + fold_chunk_127() + fold_chunk_128() + fold_chunk_129()));
}

fn push_fold_block_13(v: &mut Vec<FoldPair>)
    ensures
        pview(final(v)@) == pview(old(v)@) + fold_block_13(),
{
    let ghost o = pview(v@);
    push_fold_chunk_130(v);
    assert(pview(v@) =~= o + (fold_chunk_130()));
    push_fold_chunk_131(v);
    assert(pview(v@) =~= o + (fold_chunk_130() + fold_chunk_131()));
    push_fold_chunk_132(v);
    assert(pview(v@) =~= o + (fold_chunk_130() + fold_chunk_131() + fold_chunk_132()));
    push_fold_chunk_133(v);
    assert(pview(v@) =~= o + (fold_chunk_130() + fold_chunk_131() + fold_chunk_132() + fold_chunk_133()));
    push_fold_chunk_134(v);
    assert(pview(v@) =~= o + (fold_chunk_130() + fold_chunk_131() + fold_chunk_132() + fold_chunk_133() + fold_chunk_134()));
    push_fold_chunk_135(v);
    assert(pview(v@) =~= o + (fold_chunk_130() + fold_chunk_131() + fold_chunk_132() + fold_chunk_133() + fold_chunk_134() + fold_chunk_135()));
    push_fold_chunk_136(v);
    assert(pview(v@) =~= o + (fold_chunk_130() + fold_chunk_131() + fold_chunk_132() + fold_chunk_133() + fold_chunk_134() + fold_chunk_135() + fold_chunk_136()));
    push_fold_chunk_137(v);
    assert(pview(v@) =~= o + (fold_chunk_130() + fold_chunk_131() + fold_chunk_132() + fold_chunk_133() + fold_chunk_134() + fold_chunk_135() + fold_chunk_136() + fold_chunk_137()));
    push_fold_chunk_138(v);
    assert(pview(v@) =~= o + (fold_chunk_130() + fold_chunk_131() + fold_chunk_132() + fold_chunk_133() + fold_chunk_134() + fold_chunk_135() + fold_chunk_136() + fold_chunk_137() + fold_chunk_138()));
    push_fold_chunk_139(v);
    assert(pview(v@) =~= o + (fold_chunk_130() + fold_chunk_131() + fold_chunk_132() + fold_chunk_133() + fold_chunk_134() + fold_chunk_135() + fold_chunk_136() + fold_chunk_137() + fold_chunk_138() + fold_chunk_139()));
}

fn push_fold_block_14(v: &mut Vec<FoldPair>)
    ensures
        pview(final(v)@) == pview(old(v)@) + fold_block_14(),
{
    let ghost o = pview(v@);
    push_fold_chunk_140(v);
    assert(pview(v@) =~= o + (fold_chunk_140()));
    push_fold_chunk_141(v);
    assert(pview(v@) =~= o + (fold_chunk_140() + fold_chunk_141()));
    push_fold_chunk_142(v);
    assert(pview(v@) =~= o + (fold_chunk_140() + fold_chunk_141() + fold_chunk_142()));
    push_fold_chunk_143(v);
    assert(pview(v@) =~= o + (fold_chunk_140() + fold_chunk_141() + fold_chunk_142() + fold_chunk_143()));
    push_fold_chunk_144(v);
    assert(pview(v@) =~= o + (fold_chunk_140() + fold_chunk_141() + fold_chunk_142() + fold_chunk_143() + fold_chunk_144()));
    push_fold_chunk_145(v);
    assert(pview(v@) =~= o + (fold_chunk_140() + fold_chunk_141() + fold_chunk_142() + fold_chunk_143() + fold_chunk_144() + fold_chunk_145()));
    push_fold_chunk_146(v);
    assert(pview(v@) =~= o + (fold_chunk_140() + fold_chunk_141() + fold_chunk_142() + fold_chunk_143() + fold_chunk_144() + fold_chunk_145() + fold_chunk_146()));
    push_fold_chunk_147(v);
    assert(pview(v@) =~= o + (fold_chunk_140() + fold_chunk_141() + fold_chunk_142() + fold_chunk_143() + fold_chunk_144() + fold_chunk_145() + fold_chunk_146() + fold_chunk_147()));
    push_fold_chunk_148(v);
    assert(pview(v@) =~= o + (fold_chunk_140() + fold_chunk_141() + fold_chunk_142() + fold_chunk_143() + fold_chunk_144() + fold_chunk_145() + fold_chunk_146() + fold_chunk_147() + fold_chunk_148()));
    push_fold_chunk_149(v);
    assert(pview(v@) =~= o + (fold_chunk_140() + fold_chunk_141() + fold_chunk_142() + fold_chunk_143() + fold_chunk_144() + fold_chunk_145() + fold_chunk_146() + fold_chunk_147() + fold_chunk_148() + fold_chunk_149()));
}

fn push_fold_block_15(v: &mut Vec<FoldPair>)
    ensures
        pview(final(v)@) == pview(old(v)@) + fold_block_15(),
{
    let ghost o = pview(v@);
    push_fold_chunk_150(v);
    assert(pview(v@) =~= o + (fold_chunk_150()));
    push_fold_chunk_151(v);
    assert(pview(v@) =~= o + (fold_chunk_150() + fold_chunk_151()));
    push_fold_chunk_152(v);
    assert(pview(v@) =~= o + (fold_chunk_150() + fold_chunk_151() + fold_chunk_152()));
    push_fold_chunk_153(v);
    assert(pview(v@) =~= o + (fold_chunk_150() + fold_chunk_151() + fold_chunk_152() + fold_chunk_153()));
    push_fold_chunk_154(v);
    assert(pview(v@) =~= o + (fold_chunk_150() + fold_chunk_151() + fold_chunk_152() + fold_chunk_153() + fold_chunk_154()));
    push_fold_chunk_155(v);
    assert(pview(v@) =~= o + (fold_chunk_150() + fold_chunk_151() + fold_chunk_152() + fold_chunk_153() + fold_chunk_154() + fold_chunk_155()));
    push_fold_chunk_156(v);
    assert(pview(v@) =~= o + (fold_chunk_150() + fold_chunk_151() + fold_chunk_152() + fold_chunk_153() + fold_chunk_154() + fold_chunk_155() + fold_chunk_156()));
    push_fold_chunk_157(v);
    assert(pview(v@) =~= o + (fold_chunk_150() + fold_chunk_151() + fold_chunk_152() + fold_chunk_153() + fold_chunk_154() + fold_chunk_155() + fold_chunk_156() + fold_chunk_157()));
    push_fold_chunk_158(v);
    assert(pview(v@) =~= o + (fold_chunk_150() + fold_chunk_151() + fold_chunk_152() + fold_chunk_153() + fold_chunk_154() + fold_chunk_155() + fold_chunk_156() + fold_chunk_157() + fold_chunk_158()));
    push_fold_chunk_159(v);
    assert(pview(v@) =~= o + (fold_chunk_150() + fold_chunk_151() + fold_chunk_152() + fold_chunk_153() + fold_chunk_154() + fold_chunk_155() + fold_chunk_156() + fold_chunk_157() + fold_chunk_158() + fold_chunk_159()));
}

fn push_fold_block_16(v: &mut Vec<FoldPair>)
    ensures
        pview(final(v)@) == pview(old(v)@) + fold_block_16(),
{
    let ghost o = pview(v@);
    push_fold_chunk_160(v);
    assert(pview(v@) =~= o + (fold_chunk_160()));
    push_fold_chunk_161(v);
    assert(pview(v@) =~= o + (fold_chunk_160() + fold_chunk_161()));
    push_fold_chunk_162(v);
    assert(pview(v@) =~= o + (fold_chunk_160() + fold_chunk_161() + fold_chunk_162()));
    push_fold_chunk_163(v);
    assert(pview(v@) =~= o + (fold_chunk_160() + fold_chunk_161() + fold_chunk_162() + fold_chunk_163()));
    push_fold_chunk_164(v);
    assert(pview(v@) =~= o + (fold_chunk_160() + fold_chunk_161() + fold_chunk_162() + fold_chunk_163() + fold_chunk_164()));
    push_fold_chunk_165(v);
    assert(pview(v@) =~= o + (fold_chunk_160() + fold_chunk_161() + fold_chunk_162() + fold_chunk_163() + fold_chunk_164() + fold_chunk_165()));
    push_fold_chunk_166(v);
    assert(pview(v@) =~= o + (fold_chunk_160() + fold_chunk_161() + fold_chunk_162() + fold_chunk_163() + fold_chunk_164() + fold_chunk_165() + fold_chunk_166()));
    push_fold_chunk_167(v);
    assert(pview(v@) =~= o + (fold_chunk_160() + fold_chunk_161() + fold_chunk_162() + fold_chunk_163() + fold_chunk_164() + fold_chunk_165() + fold_chunk_166() + fold_chunk_167()));
    push_fold_chunk_168(v);
    assert(pview(v@) =~= o + (fold_chunk_160() + fold_chunk_161() + fold_chunk_162() + fold_chunk_163() + fold_chunk_164() + fold_chunk_165() + fold_chunk_166() + fold_chunk_167() + fold_chunk_168()));
    push_fold_chunk_169(v);
    assert(pview(v@) =~= o + (fold_chunk_160() + fold_chunk_161() + fold_chunk_162() + fold_chunk_163() + fold_chunk_164() + fold_chunk_165() + fold_chunk_166() + fold_chunk_167() + fold_chunk_168() + fold_chunk_169()));
}

fn push_fold_block_17(v: &mut Vec<FoldPair>)
    ensures
        pview(final(v)@) == pview(old(v)@) + fold_block_17(),
{
    let ghost o = pview(v@);
    push_fold_chunk_170(v);
    assert(pview(v@) =~= o + (fold_chunk_170()));
    push_fold_chunk_171(v);
    assert(pview(v@) =~= o + (fold_chunk_170() + fold_chunk_171()));
    push_fold_chunk_172(v);
    assert(pview(v@) =~= o + (fold_chunk_170() + fold_chunk_171() + fold_chunk_172()));
    push_fold_chunk_173(v);
    assert(pview(v@) =~= o + (fold_chunk_170() + fold_chunk_171() + fold_chunk_172() + fold_chunk_173()));
    push_fold_chunk_174(v);
    assert(pview(v@) =~= o + (fold_chunk_170() + fold_chunk_171() + fold_chunk_172() + fold_chunk_173() + fold_chunk_174()));
    push_fold_chunk_175(v);
    assert(pview(v@) =~= o + (fold_chunk_170() + fold_chunk_171() + fold_chunk_172() + fold_chunk_173() + fold_chunk_174() + fold_chunk_175()));
    push_fold_chunk_176(v);
    assert(pview(v@) =~= o + (fold_chunk_170() + fold_chunk_171() + fold_chunk_172() + fold_chunk_173() + fold_chunk_174() + fold_chunk_175() + fold_chunk_176()));
    push_fold_chunk_177(v);
    assert(pview(v@) =~= o + (fold_chunk_170() + fold_chunk_171() + fold_chunk_172() + fold_chunk_173() + fold_chunk_174() + fold_chunk_175() + fold_chunk_176() + fold_chunk_177()));
    push_fold_chunk_178(v);
    assert(pview(v@) =~= o + (fold_chunk_170() + fold_chunk_171() + fold_chunk_172() + fold_chunk_173() + fold_chunk_174() + fold_chunk_175() + fold_chunk_176() + fold_chunk_177() + fold_chunk_178()));
    push_fold_chunk_179(v);
    assert(pview(v@) =~= o + (fold_chunk_170() + fold_chunk_171() + fold_chunk_172() + fold_chunk_173() + fold_chunk_174() + fold_chunk_175() + fold_chunk_176() + fold_chunk_177() + fold_chunk_178() + fold_chunk_179()));
}

fn push_fold_block_18(v: &mut Vec<FoldPair>)
    ensures
        pview(final(v)@) == pview(old(v)@) + fold_block_18(),
{
    let ghost o = pview(v@);
    push_fold_chunk_180(v);
    assert(pview(v@) =~= o + (fold_chunk_180()));
    push_fold_chunk_181(v);
    assert(pview(v@) =~= o + (fold_chunk_180() + fold_chunk_181()));
    push_fold_chunk_182(v);
    assert(pview(v@) =~= o + (fold_chunk_180() + fold_chunk_181() + fold_chunk_182()));
    push_fold_chunk_183(v);
    assert(pview(v@) =~= o + (fold_chunk_180() + fold_chunk_181() + fold_chunk_182() + fold_chunk_183()));
    push_fold_chunk_184(v);
    assert(pview(v@) =~= o + (fold_chunk_180() + fold_chunk_181() + fold_chunk_182() + fold_chunk_183() + fold_chunk_184()));
    push_fold_chunk_185(v);
    assert(pview(v@) =~= o + (fold_chunk_180() + fold_chunk_181() + fold_chunk_182() + fold_chunk_183() + fold_chunk_184() + fold_chunk_185()));
    push_fold_chunk_186(v);
    assert(pview(v@) =~= o + (fold_chunk_180() + fold_chunk_181() + fold_chunk_182() + fold_chunk_183() + fold_chunk_184() + fold_chunk_185() + fold_chunk_186()));
    push_fold_chunk_187(v);
    assert(pview(v@) =~= o + (fold_chunk_180() + fold_chunk_181() + fold_chunk_182() + fold_chunk_183() + fold_chunk_184() + fold_chunk_185() + fold_chunk_186() + fold_chunk_187()));
    push_fold_chunk_188(v);
    assert(pview(v@) =~= o + (fold_chunk_180() + fold_chunk_181() + fold_chunk_182() + fold_chunk_183() + fold_chunk_184() + fold_chunk_185() + fold_chunk_186() + fold_chunk_187() + fold_chunk_188()));
    push_fold_chunk_189(v);
    assert(pview(v@) =~= o + (fold_chunk_180() + fold_chunk_181() + fold_chunk_182() + fold_chunk_183() + fold_chunk_184() + fold_chunk_185() + fold_chunk_186() + fold_chunk_187() + fold_chunk_188() + fold_chunk_189()));
}

fn push_fold_block_19(v: &mut Vec<FoldPair>)
    ensures
        pview(final(v)@) == pview(old(v)@) + fold_block_19(),
{
    let ghost o = pview(v@);
    push_fold_chunk_190(v);
    assert(pview(v@) =~= o + (fold_chunk_190()));
    push_fold_chunk_191(v);
    assert(pview(v@) =~= o + (fold_chunk_190() + fold_chunk_191()));
    push_fold_chunk_192(v);
    assert(pview(v@) =~= o + (fold_chunk_190() + fold_chunk_191() + fold_chunk_192()));
    push_fold_chunk_193(v);
    assert(pview(v@) =~= o + (fold_chunk_190() + fold_chunk_191() + fold_chunk_192() + fold_chunk_193()));
    push_fold_chunk_194(v);
    assert(pview(v@) =~= o + (fold_chunk_190() + fold_chunk_191() + fold_chunk_192() + fold_chunk_193() + fold_chunk_194()));
    push_fold_chunk_195(v);
    assert(pview(v@) =~= o + (fold_chunk_190() + fold_chunk_191() + fold_chunk_192() + fold_chunk_193() + fold_chunk_194() + fold_chunk_195()));
    push_fold_chunk_196(v);
    assert(pview(v@) =~= o + (fold_chunk_190() + fold_chunk_191() + fold_chunk_192() + fold_chunk_193() + fold_chunk_194() + fold_chunk_195() + fold_chunk_196()));
    push_fold_chunk_197(v);
    assert(pview(v@) =~= o + (fold_chunk_190() + fold_chunk_191() + fold_chunk_192() + fold_chunk_193() + fold_chunk_194() + fold_chunk_195() + fold_chunk_196() + fold_chunk_197()));
    push_fold_chunk_198(v);
    assert(pview(v@) =~= o + (fold_chunk_190() + fold_chunk_191() + fold_chunk_192() + fold_chunk_193() + fold_chunk_194() + fold_chunk_195() + fold_chunk_196() + fold_chunk_197() + fold_chunk_198()));
    push_fold_chunk_199(v);
    assert(pview(v@) =~= o + (fold_chunk_190() + fold_chunk_191() + fold_chunk_192() + fold_chunk_193() + fold_chunk_194() + fold_chunk_195() + fold_chunk_196() + fold_chunk_197() + fold_chunk_198() + fold_chunk_199()));
}

fn push_fold_block_20(v: &mut Vec<FoldPair>)
    ensures
        pview(final(v)@) == pview(old(v)@) + fold_block_20(),
{
    let ghost o = pview(v@);
    push_fold_chunk_200(v);
    assert(pview(v@) =~= o + (fold_chunk_200()));
    push_fold_chunk_201(v);
    assert(pview(v@) =~= o + (fold_chunk_200() + fold_chunk_201()));
    push_fold_chunk_202(v);
    assert(pview(v@) =~= o + (fold_chunk_200() + fold_chunk_201() + fold_chunk_202()));
    push_fold_chunk_203(v);
    assert(pview(v@) =~= o + (fold_chunk_200() + fold_chunk_201() + fold_chunk_202() + fold_chunk_203()));
    push_fold_chunk_204(v);
    assert(pview(v@) =~= o + (fold_chunk_200() + fold_chunk_201() + fold_chunk_202() + fold_chunk_203() + fold_chunk_204()));
    push_fold_chunk_205(v);
    assert(pview(v@) =~= o + (fold_chunk_200() + fold_chunk_201() + fold_chunk_202() + fold_chunk_203() + fold_chunk_204() + fold_chunk_205()));
    push_fold_chunk_206(v);
    assert(pview(v@) =~= o + (fold_chunk_200() + fold_chunk_201() + fold_chunk_202() + fold_chunk_203() + fold_chunk_204() + fold_chunk_205() + fold_chunk_206()));
    push_fold_chunk_207(v);
    assert(pview(v@) =~= o + (fold_chunk_200() + fold_chunk_201() + fold_chunk_202() + fold_chunk_203() + fold_chunk_204() + fold_chunk_205() + fold_chunk_206() + fold_chunk_207()));
    push_fold_chunk_208(v);
    assert(pview(v@) =~= o + (fold_chunk_200() + fold_chunk_201() + fold_chunk_202() + fold_chunk_203() + fold_chunk_204() + fold_chunk_205() + fold_chunk_206() + fold_chunk_207() + fold_chunk_208()));
    push_fold_chunk_209(v);
    assert(pview(v@) =~= o + (fold_chunk_200() + fold_chunk_201() + fold_chunk_202() + fold_chunk_203() + fold_chunk_204() + fold_chunk_205() + fold_chunk_206() + fold_chunk_207() + fold_chunk_208() + fold_chunk_209()));
}

fn push_fold_block_21(v: &mut Vec<FoldPair>)
    ensures
        pview(final(v)@) == pview(old(v)@) + fold_block_21(),
{
    let ghost o = pview(v@);
    push_fold_chunk_210(v);
    assert(pview(v@) =~= o + (fold_chunk_210()));
    push_fold_chunk_211(v);
    assert(pview(v@) =~= o + (fold_chunk_210() + fold_chunk_211()));
    push_fold_chunk_212(v);
    assert(pview(v@) =~= o + (fold_chunk_210() + fold_chunk_211() + fold_chunk_212()));
    push_fold_chunk_213(v);
    assert(pview(v@) =~= o + (fold_chunk_210() + fold_chunk_211() + fold_chunk_212() + fold_chunk_213()));
    push_fold_chunk_214(v);
    assert(pview(v@) =~= o + (fold_chunk_210() + fold_chunk_211() + fold_chunk_212() + fold_chunk_213() + fold_chunk_214()));
    push_fold_chunk_215(v);
    assert(pview(v@) =~= o + (fold_chunk_210() + fold_chunk_211() + fold_chunk_212() + fold_chunk_213() + fold_chunk_214() + fold_chunk_215()));
    push_fold_chunk_216(v);
    assert(pview(v@) =~= o + (fold_chunk_210() + fold_chunk_211() + fold_chunk_212() + fold_chunk_213() + fold_chunk_214() + fold_chunk_215() + fold_chunk_216()));
    push_fold_chunk_217(v);
    assert(pview(v@) =~= o + (fold_chunk_210() + fold_chunk_211() + fold_chunk_212() + fold_chunk_213() + fold_chunk_214() + fold_chunk_215() + fold_chunk_216() + fold_chunk_217()));
    push_fold_chunk_218(v);
    assert(pview(v@) =~= o + (fold_chunk_210() + fold_chunk_211() + fold_chunk_212() + fold_chunk_213() + fold_chunk_214() + fold_chunk_215() + fold_chunk_216() + fold_chunk_217() + fold_chunk_218()));
    push_fold_chunk_219(v);
    assert(pview(v@) =~= o + (fold_chunk_210() + fold_chunk_211() + fold_chunk_212() + fold_chunk_213() + fold_chunk_214() + fold_chunk_215() + fold_chunk_216() + fold_chunk_217() + fold_chunk_218() + fold_chunk_219()));
}

fn push_fold_block_22(v: &mut Vec<FoldPair>)
    ensures
        pview(final(v)@) == pview(old(v)@) + fold_block_22(),
{
    let ghost o = pview(v@);
    push_fold_chunk_220(v);
    assert(pview(v@) =~= o + (fold_chunk_220()));
    push_fold_chunk_221(v);
    assert(pview(v@) =~= o + (fold_chunk_220() + fold_chunk_221()));
    push_fold_chunk_222(v);
    assert(pview(v@) =~= o + (fold_chunk_220() + fold_chunk_221() + fold_chunk_222()));
    push_fold_chunk_223(v);
    assert(pview(v@) =~= o + (fold_chunk_220() + fold_chunk_221() + fold_chunk_222() + fold_chunk_223()));
    push_fold_chunk_224(v);
    assert(pview(v@) =~= o + (fold_chunk_220() + fold_chunk_221() + fold_chunk_222() + fold_chunk_223() + fold_chunk_224()));
    push_fold_chunk_225(v);
    assert(pview(v@) =~= o + (fold_chunk_220() + fold_chunk_221() + fold_chunk_222() + fold_chunk_223() + fold_chunk_224() + fold_chunk_225()));
    push_fold_chunk_226(v);
    assert(pview(v@) =~= o + (fold_chunk_220() + fold_chunk_221() + fold_chunk_222() + fold_chunk_223() + fold_chunk_224() + fold_chunk_225() + fold_chunk_226()));
    push_fold_chunk_227(v);
    assert(pview(v@) =~= o + (fold_chunk_220() + fold_chunk_221() + fold_chunk_222() + fold_chunk_223() + fold_chunk_224() + fold_chunk_225() + fold_chunk_226() + fold_chunk_227()));
    push_fold_chunk_228(v);
    assert(pview(v@) =~= o + (fold_chunk_220() + fold_chunk_221() + fold_chunk_222() + fold_chunk_223() + fold_chunk_224() + fold_chunk_225() + fold_chunk_226() + fold_chunk_227() + fold_chunk_228()));
    push_fold_chunk_229(v);
    assert(pview(v@) =~= o + (fold_chunk_220() + fold_chunk_221() + fold_chunk_222() + fold_chunk_223() + fold_chunk_224() + fold_chunk_225() + fold_chunk_226() + fold_chunk_227() + fold_chunk_228() + fold_chunk_229()));
}

fn push_fold_block_23(v: &mut Vec<FoldPair>)
    ensures
        pview(final(v)@) == pview(old(v)@) + fold_block_23(),
{
    let ghost o = pview(v@);
    push_fold_chunk_230(v);
    assert(pview(v@) =~= o + (fold_chunk_230()));
    push_fold_chunk_231(v);
    assert(pview(v@) =~= o + (fold_chunk_230() + fold_chunk_231()));
    push_fold_chunk_232(v);
    assert(pview(v@) =~= o + (fold_chunk_230() + fold_chunk_231() + fold_chunk_232()));
    push_fold_chunk_233(v);
    assert(pview(v@) =~= o + (fold_chunk_230() + fold_chunk_231() + fold_chunk_232() + fold_chunk_233()));
    push_fold_chunk_234(v);
    assert(pview(v@) =~= o + (fold_chunk_230() + fold_chunk_231() + fold_chunk_232() + fold_chunk_233() + fold_chunk_234()));
    push_fold_chunk_235(v);
    assert(pview(v@) =~= o + (fold_chunk_230() + fold_chunk_231() + fold_chunk_232() + fold_chunk_233() + fold_chunk_234() + fold_chunk_235()));
    push_fold_chunk_236(v);
    assert(pview(v@) =~= o + (fold_chunk_230() + fold_chunk_231() + fold_chunk_232() + fold_chunk_233() + fold_chunk_234() + fold_chunk_235() + fold_chunk_236()));
    push_fold_chunk_237(v);
    assert(pview(v@) =~= o + (fold_chunk_230() + fold_chunk_231() + fold_chunk_232() + fold_chunk_233() + fold_chunk_234() + fold_chunk_235() + fold_chunk_236() + fold_chunk_237()));
    push_fold_chunk_238(v);
    assert(pview(v@) =~= o + (fold_chunk_230() + fold_chunk_231() + fold_chunk_232() + fold_chunk_233() + fold_chunk_234() + fold_chunk_235() + fold_chunk_236() + fold_chunk_237() + fold_chunk_238()));
    push_fold_chunk_239(v);
    assert(pview(v@) =~= o + (fold_chunk_230() + fold_chunk_231() + fold_chunk_232() + fold_chunk_233() + fold_chunk_234() + fold_chunk_235() + fold_chunk_236() + fold_chunk_237() + fold_chunk_238() + fold_chunk_239()));
}

fn push_fold_block_24(v: &mut Vec<FoldPair>)
    ensures
        pview(final(v)@) == pview(old(v)@) + fold_block_24(),
{
    let ghost o = pview(v@);
    push_fold_chunk_240(v);
    assert(pview(v@) =~= o + (fold_chunk_240()));
    push_fold_chunk_241(v);
    assert(pview(v@) =~= o + (fold_chunk_240() + fold_chunk_241()));
    push_fold_chunk_242(v);
    assert(pview(v@) =~= o + (fold_chunk_240() + fold_chunk_241() + fold_chunk_242()));
    push_fold_chunk_243(v);
    assert(pview(v@) =~= o + (fold_chunk_240() + fold_chunk_241() + fold_chunk_242() + fold_chunk_243()));
    push_fold_chunk_244(v);
    assert(pview(v@) =~= o + (fold_chunk_240() + fold_chunk_241() + fold_chunk_242() + fold_chunk_243() + fold_chunk_244()));
    push_fold_chunk_245(v);
    assert(pview(v@) =~= o + (fold_chunk_240() + fold_chunk_241() + fold_chunk_242() + fold_chunk_243() + fold_chunk_244() + fold_chunk_245()));
    push_fold_chunk_246(v);
    assert(pview(v@) =~= o + (fold_chunk_240() + fold_chunk_241() + fold_chunk_242() + fold_chunk_243() + fold_chunk_244() + fold_chunk_245() + fold_chunk_246()));
    push_fold_chunk_247(v);
    assert(pview(v@) =~= o + (fold_chunk_240() + fold_chunk_241() + fold_chunk_242() + fold_chunk_243() + fold_chunk_244() + fold_chunk_245() + fold_chunk_246() + fold_chunk_247()));
    push_fold_chunk_248(v);
    assert(pview(v@) =~= o + (fold_chunk_240() + fold_chunk_241() + fold_chunk_242() + fold_chunk_243() + fold_chunk_244() + fold_chunk_245() + fold_chunk_246() + fold_chunk_247() + fold_chunk_248()));
    push_fold_chunk_249(v);
    assert(pview(v@) =~= o + (fold_chunk_240() + fold_chunk_241() + fold_chunk_242() + fold_chunk_243() + fold_chunk_244() + fold_chunk_245() + fold_chunk_246() + fold_chunk_247() + fold_chunk_248() + fold_chunk_249()));
}

fn push_fold_block_25(v: &mut Vec<FoldPair>)
    ensures
        pview(final(v)@) == pview(old(v)@) + fold_block_25(),
{
    let ghost o = pview(v@);
    push_fold_chunk_250(v);
    assert(pview(v@) =~= o + (fold_chunk_250()));
    push_fold_chunk_251(v);
    assert(pview(v@) =~= o + (fold_chunk_250() + fold_chunk_251()));
    push_fold_chunk_252(v);
    assert(pview(v@) =~= o + (fold_chunk_250() + fold_chunk_251() + fold_chunk_252()));
    push_fold_chunk_253(v);
    assert(pview(v@) =~= o + (fold_chunk_250() + fold_chunk_251() + fold_chunk_252() + fold_chunk_253()));
    push_fold_chunk_254(v);
    assert(pview(v@) =~= o + (fold_chunk_250() + fold_chunk_251() + fold_chunk_252() + fold_chunk_253() + fold_chunk_254()));
    push_fold_chunk_255(v);
    assert(pview(v@) =~= o + (fold_chunk_250() + fold_chunk_251() + fold_chunk_252() + fold_chunk_253() + fold_chunk_254() + fold_chunk_255()));
    push_fold_chunk_256(v);
    assert(pview(v@) =~= o + (fold_chunk_250() + fold_chunk_251() + fold_chunk_252() + fold_chunk_253() + fold_chunk_254() + fold_chunk_255() + fold_chunk_256()));
    push_fold_chunk_257(v);
    assert(pview(v@) =~= o + (fold_chunk_250() + fold_chunk_251() + fold_chunk_252() + fold_chunk_253() + fold_chunk_254() + fold_chunk_255() + fold_chunk_256() + fold_chunk_257()));
    push_fold_chunk_258(v);
    assert(pview(v@) =~= o + (fold_chunk_250() + fold_chunk_251() + fold_chunk_252() + fold_chunk_253() + fold_chunk_254() + fold_chunk_255() + fold_chunk_256() + fold_chunk_257() + fold_chunk_258()));
    push_fold_chunk_259(v);
    assert(pview(v@) =~= o + (fold_chunk_250() + fold_chunk_251() + fold_chunk_252() + fold_chunk_253() + fold_chunk_254() + fold_chunk_255() + fold_chunk_256() + fold_chunk_257() + fold_chunk_258() + fold_chunk_259()));
}

fn push_fold_block_26(v: &mut Vec<FoldPair>)
    ensures
        pview(final(v)@) == pview(old(v)@) + fold_block_26(),
{
    let ghost o = pview(v@);
    push_fold_chunk_260(v);
    assert(pview(v@) =~= o + (fold_chunk_260()));
    push_fold_chunk_261(v);
    assert(pview(v@) =~= o + (fold_chunk_260() + fold_chunk_261()));
    push_fold_chunk_262(v);
    assert(pview(v@) =~= o + (fold_chunk_260() + fold_chunk_261() + fold_chunk_262()));
    push_fold_chunk_263(v);
    assert(pview(v@) =~= o + (fold_chunk_260() + fold_chunk_261() + fold_chunk_262() + fold_chunk_263()));
    push_fold_chunk_264(v);
    assert(pview(v@) =~= o + (fold_chunk_260() + fold_chunk_261() + fold_chunk_262() + fold_chunk_263() + fold_chunk_264()));
    push_fold_chunk_265(v);
    assert(pview(v@) =~= o + (fold_chunk_260() + fold_chunk_261() + fold_chunk_262() + fold_chunk_263() + fold_chunk_264() + fold_chunk_265()));
    push_fold_chunk_266(v);
    assert(pview(v@) =~= o + (fold_chunk_260() + fold_chunk_261() + fold_chunk_262() + fold_chunk_263() + fold_chunk_264() + fold_chunk_265() + fold_chunk_266()));
    push_fold_chunk_267(v);
    assert(pview(v@) =~= o + (fold_chunk_260() + fold_chunk_261() + fold_chunk_262() + fold_chunk_263() + fold_chunk_264() + fold_chunk_265() + fold_chunk_266() + fold_chunk_267()));
    push_fold_chunk_268(v);
    assert(pview(v@) =~= o + (fold_chunk_260() + fold_chunk_261() + fold_chunk_262() + fold_chunk_263() + fold_chunk_264() + fold_chunk_265() + fold_chunk_266() + fold_chunk_267() + fold_chunk_268()));
    push_fold_chunk_269(v);
    assert(pview(v@) =~= o + (fold_chunk_260() + fold_chunk_261() + fold_chunk_262() + fold_chunk_263() + fold_chunk_264() + fold_chunk_265() + fold_chunk_266() + fold_chunk_267() + fold_chunk_268() + fold_chunk_269()));
}

fn push_fold_block_27(v: &mut Vec<FoldPair>)
    ensures
        pview(final(v)@) == pview(old(v)@) + fold_block_27(),
{
    let ghost o = pview(v@);
    push_fold_chunk_270(v);
    assert(pview(v@) =~= o + (fold_chunk_270()));
    push_fold_chunk_271(v);
    assert(pview(v@) =~= o + (fold_chunk_270() + fold_chunk_271()));
    push_fold_chunk_272(v);
    assert(pview(v@) =~= o + (fold_chunk_270() + fold_chunk_271() + fold_chunk_272()));
    push_fold_chunk_273(v);
    assert(pview(v@) =~= o + (fold_chunk_270() + fold_chunk_271() + fold_chunk_272() + fold_chunk_273()));
    push_fold_chunk_274(v);
    assert(pview(v@) =~= o + (fold_chunk_270() + fold_chunk_271() + fold_chunk_272() + fold_chunk_273() + fold_chunk_274()));
    push_fold_chunk_275(v);
    assert(pview(v@) =~= o + (fold_chunk_270() + fold_chunk_271() + fold_chunk_272() + fold_chunk_273() + fold_chunk_274() + fold_chunk_275()));
    push_fold_chunk_276(v);
    assert(pview(v@) =~= o + (fold_chunk_270() + fold_chunk_271() + fold_chunk_272() + fold_chunk_273() + fold_chunk_274() + fold_chunk_275() + fold_chunk_276()));
    push_fold_chunk_277(v);
    assert(pview(v@) =~= o + (fold_chunk_270() + fold_chunk_271() + fold_chunk_272() + fold_chunk_273() + fold_chunk_274() + fold_chunk_275() + fold_chunk_276() + fold_chunk_277()));
    push_fold_chunk_278(v);
    assert(pview(v@) =~= o + (fold_chunk_270() + fold_chunk_271() + fold_chunk_272() + fold_chunk_273() + fold_chunk_274() + fold_chunk_275() + fold_chunk_276() + fold_chunk_277() + fold_chunk_278()));
    push_fold_chunk_279(v);
    assert(pview(v@) =~= o + (fold_chunk_270() + fold_chunk_271() + fold_chunk_272() + fold_chunk_273() + fold_chunk_274() + fold_chunk_275() + fold_chunk_276() + fold_chunk_277() + fold_chunk_278() + fold_chunk_279()));
}

fn push_fold_block_28(v: &mut Vec<FoldPair>)
    ensures
        pview(final(v)@) == pview(old(v)@) + fold_block_28(),
{
    let ghost o = pview(v@);
    push_fold_chunk_280(v);
    assert(pview(v@) =~= o + (fold_chunk_280()));
    push_fold_chunk_281(v);
    assert(pview(v@) =~= o + (fold_chunk_280() + fold_chunk_281()));
    push_fold_chunk_282(v);
    assert(pview(v@) =~= o + (fold_chunk_280() + fold_chunk_281() + fold_chunk_282()));
    push_fold_chunk_283(v);
    assert(pview(v@) =~= o + (fold_chunk_280() + fold_chunk_281() + fold_chunk_282() + fold_chunk_283()));
    push_fold_chunk_284(v);
    assert(pview(v@) =~= o + (fold_chunk_280() + fold_chunk_281() + fold_chunk_282() + fold_chunk_283() + fold_chunk_284()));
    push_fold_chunk_285(v);
    assert(pview(v@) =~= o + (fold_chunk_280() + fold_chunk_281() + fold_chunk_282() + fold_chunk_283() + fold_chunk_284() + fold_chunk_285()));
    push_fold_chunk_286(v);
    assert(pview(v@) =~= o + (fold_chunk_280() + fold_chunk_281() + fold_chunk_282() + fold_chunk_283() + fold_chunk_284() + fold_chunk_285() + fold_chunk_286()));
    push_fold_chunk_287(v);
    assert(pview(v@) =~= o + (fold_chunk_280() + fold_chunk_281() + fold_chunk_282() + fold_chunk_283() + fold_chunk_284() + fold_chunk_285() + fold_chunk_286() + fold_chunk_287()));
    push_fold_chunk_288(v);
    assert(pview(v@) =~= o + (fold_chunk_280() + fold_chunk_281() + fold_chunk_282() + fold_chunk_283() + fold_chunk_284() + fold_chunk_285() + fold_chunk_286() + fold_chunk_287() + fold_chunk_288()));
    push_fold_chunk_289(v);
    assert(pview(v@) =~= o + (fold_chunk_280() + fold_chunk_281() + fold_chunk_282() + fold_chunk_283() + fold_chunk_284() + fold_chunk_285() + fold_chunk_286() + fold_chunk_287() + fold_chunk_288() + fold_chunk_289()));
}

fn push_fold_block_29(v: &mut Vec<FoldPair>)
    ensures
        pview(final(v)@) == pview(old(v)@) + fold_block_29(),
{
    let ghost o = pview(v@);
    push_fold_chunk_290(v);
    assert(pview(v@) =~= o + (fold_chunk_290()));
    push_fold_chunk_291(v);
    assert(pview(v@) =~= o + (fold_chunk_290() + fold_chunk_291()));
    push_fold_chunk_292(v);
    assert(pview(v@) =~= o + (fold_chunk_290() + fold_chunk_291() + fold_chunk_292()));
    push_fold_chunk_293(v);
    assert(pview(v@) =~= o + (fold_chunk_290() + fold_chunk_291() + fold_chunk_292() + fold_chunk_293()));
    push_fold_chunk_294(v);
    assert(pview(v@) =~= o + (fold_chunk_290() + fold_chunk_291() + fold_chunk_292() + fold_chunk_293() + fold_chunk_294()));
    push_fold_chunk_295(v);
    assert(pview(v@) =~= o + (fold_chunk_290() + fold_chunk_291() + fold_chunk_292() + fold_chunk_293() + fold_chunk_294() + fold_chunk_295()));
    push_fold_chunk_296(v);
    assert(pview(v@) =~= o + (fold_chunk_290() + fold_chunk_291() + fold_chunk_292() + fold_chunk_293() + fold_chunk_294() + fold_chunk_295() + fold_chunk_296()));
    push_fold_chunk_297(v);
    assert(pview(v@) =~= o + (fold_chunk_290() + fold_chunk_291() + fold_chunk_292() + fold_chunk_293() + fold_chunk_294() + fold_chunk_295() + fold_chunk_296() + fold_chunk_297()));
    push_fold_chunk_298(v);
    assert(pview(v@) =~= o + (fold_chunk_290() + fold_chunk_291() + fold_chunk_292() + fold_chunk_293() + fold_chunk_294() + fold_chunk_295() + fold_chunk_296() + fold_chunk_297() + fold_chunk_298()));
    push_fold_chunk_299(v);
    assert(pview(v@) =~= o + (fold_chunk_290() + fold_chunk_291() + fold_chunk_292() + fold_chunk_293() + fold_chunk_294() + fold_chunk_295() + fold_chunk_296() + fold_chunk_297() + fold_chunk_298() + fold_chunk_299()));
}

fn push_fold_block_30(v: &mut Vec<FoldPair>)
    ensures
        pview(final(v)@) == pview(old(v)@) + fold_block_30(),
{
    let ghost o = pview(v@);
    push_fold_chunk_300(v);
    assert(pview(v@) =~= o + (fold_chunk_300()));
    push_fold_chunk_301(v);
    assert(pview(v@) =~= o + (fold_chunk_300() + fold_chunk_301()));
    push_fold_chunk_302(v);
    assert(pview(v@) =~= o + (fold_chunk_300() + fold_chunk_301() + fold_chunk_302()));
    push_fold_chunk_303(v);
    assert(pview(v@) =~= o + (fold_chunk_300() + fold_chunk_301() + fold_chunk_302() + fold_chunk_303()));
    push_fold_chunk_304(v);
    assert(pview(v@) =~= o + (fold_chunk_300() + fold_chunk_301() + fold_chunk_302() + fold_chunk_303() + fold_chunk_304()));
    push_fold_chunk_305(v);
    assert(pview(v@) =~= o + (fold_chunk_300() + fold_chunk_301() + fold_chunk_302() + fold_chunk_303() + fold_chunk_304() + fold_chunk_305()));
    push_fold_chunk_306(v);
    assert(pview(v@) =~= o + (fold_chunk_300() + fold_chunk_301() + fold_chunk_302() + fold_chunk_303() + fold_chunk_304() + fold_chunk_305() + fold_chunk_306()));
    push_fold_chunk_307(v);
    assert(pview(v@) =~= o + (fold_chunk_300() + fold_chunk_301() + fold_chunk_302() + fold_chunk_303() + fold_chunk_304() + fold_chunk_305() + fold_chunk_306() + fold_chunk_307()));
    push_fold_chunk_308(v);
    assert(pview(v@) =~= o + (fold_chunk_300() + fold_chunk_301() + fold_chunk_302() + fold_chunk_303() + fold_chunk_304() + fold_chunk_305() + fold_chunk_306() + fold_chunk_307() + fold_chunk_308()));
    push_fold_chunk_309(v);
    assert(pview(v@) =~= o + (fold_chunk_300() + fold_chunk_301() + fold_chunk_302() + fold_chunk_303() + fold_chunk_304() + fold_chunk_305() + fold_chunk_306() + fold_chunk_307() + fold_chunk_308() + fold_chunk_309()));
}

fn push_fold_block_31(v: &mut Vec<FoldPair>)
    ensures
        pview(final(v)@) == pview(old(v)@) + fold_block_31(),
{
    let ghost o = pview(v@);
    push_fold_chunk_310(v);
    assert(pview(v@) =~= o + (fold_chunk_310()));
    push_fold_chunk_311(v);
    assert(pview(v@) =~= o + (fold_chunk_310() + fold_chunk_311()));
    push_fold_chunk_312(v);
    assert(pview(v@) =~= o + (fold_chunk_310() + fold_chunk_311() + fold_chunk_312()));
    push_fold_chunk_313(v);
    assert(pview(v@) =~= o + (fold_chunk_310() + fold_chunk_311() + fold_chunk_312() + fold_chunk_313()));
    push_fold_chunk_314(v);
    assert(pview(v@) =~= o + (fold_chunk_310() + fold_chunk_311() + fold_chunk_312() + fold_chunk_313() + fold_chunk_314()));
    push_fold_chunk_315(v);
    assert(pview(v@) =~= o + (fold_chunk_310() + fold_chunk_311() + fold_chunk_312() + fold_chunk_313() + fold_chunk_314() + fold_chunk_315()));
    push_fold_chunk_316(v);
    assert(pview(v@) =~= o + (fold_chunk_310() + fold_chunk_311() + fold_chunk_312() + fold_chunk_313() + fold_chunk_314() + fold_chunk_315() + fold_chunk_316()));
    push_fold_chunk_317(v);
    assert(pview(v@) =~= o + (fold_chunk_310() + fold_chunk_311() + fold_chunk_312() + fold_chunk_313() + fold_chunk_314() + fold_chunk_315() + fold_chunk_316() + fold_chunk_317()));
    push_fold_chunk_318(v);
    assert(pview(v@) =~= o + (fold_chunk_310() + fold_chunk_311() + fold_chunk_312() + fold_chunk_313() + fold_chunk_314() + fold_chunk_315() + fold_chunk_316() + fold_chunk_317() + fold_chunk_318()));
    push_fold_chunk_319(v);
    assert(pview(v@) =~= o + (fold_chunk_310() + fold_chunk_311() + fold_chunk_312() + fold_chunk_313() + fold_chunk_314() + fold_chunk_315() + fold_chunk_316() + fold_chunk_317() + fold_chunk_318() + fold_chunk_319()));
}

fn push_fold_block_32(v: &mut Vec<FoldPair>)
    ensures
        pview(final(v)@) == pview(old(v)@) + fold_block_32(),
{
    let ghost o = pview(v@);
    push_fold_chunk_320(v);
    assert(pview(v@) =~= o + (fold_chunk_320()));
    push_fold_chunk_321(v);
    assert(pview(v@) =~= o + (fold_chunk_320() + fold_chunk_321()));
    push_fold_chunk_322(v);
    assert(pview(v@) =~= o + (fold_chunk_320() + fold_chunk_321() + fold_chunk_322()));
    push_fold_chunk_323(v);
    assert(pview(v@) =~= o + (fold_chunk_320() + fold_chunk_321() + fold_chunk_322() + fold_chunk_323()));
    push_fold_chunk_324(v);
    assert(pview(v@) =~= o + (fold_chunk_320() + fold_chunk_321() + fold_chunk_322() + fold_chunk_323() + fold_chunk_324()));
    push_fold_chunk_325(v);
    assert(pview(v@) =~= o + (fold_chunk_320() + fold_chunk_321() + fold_chunk_322() + fold_chunk_323() + fold_chunk_324() + fold_chunk_325()));
    push_fold_chunk_326(v);
    assert(pview(v@) =~= o + (fold_chunk_320() + fold_chunk_321() + fold_chunk_322() + fold_chunk_323() + fold_chunk_324() + fold_chunk_325() + fold_chunk_326()));
    push_fold_chunk_327(v);
    assert(pview(v@) =~= o + (fold_chunk_320() + fold_chunk_321() + fold_chunk_322() + fold_chunk_323() + fold_chunk_324() + fold_chunk_325() + fold_chunk_326() + fold_chunk_327()));
    push_fold_chunk_328(v);
    assert(pview(v@) =~= o + (fold_chunk_320() + fold_chunk_321() + fold_chunk_322() + fold_chunk_323() + fold_chunk_324() + fold_chunk_325() + fold_chunk_326() + fold_chunk_327() + fold_chunk_328()));
    push_fold_chunk_329(v);
    assert(pview(v@) =~= o + (fold_chunk_320() + fold_chunk_321() + fold_chunk_322() + fold_chunk_323() + fold_chunk_324() + fold_chunk_325() + fold_chunk_326() + fold_chunk_327() + fold_chunk_328() + fold_chunk_329()));
}

fn push_fold_block_33(v: &mut Vec<FoldPair>)
    ensures
        pview(final(v)@) == pview(old(v)@) + fold_block_33(),
{
    let ghost o = pview(v@);
    push_fold_chunk_330(v);
    assert(pview(v@) =~= o + (fold_chunk_330()));
    push_fold_chunk_331(v);
    assert(pview(v@) =~= o + (fold_chunk_330() + fold_chunk_331()));
    push_fold_chunk_332(v);
    assert(pview(v@) =~= o + (fold_chunk_330() + fold_chunk_331() + fold_chunk_332()));
    push_fold_chunk_333(v);
    assert(pview(v@) =~= o + (fold_chunk_330() + fold_chunk_331() + fold_chunk_332() + fold_chunk_333()));
    push_fold_chunk_334(v);
    assert(pview(v@) =~= o + (fold_chunk_330() + fold_chunk_331() + fold_chunk_332() + fold_chunk_333() + fold_chunk_334()));
    push_fold_chunk_335(v);
    assert(pview(v@) =~= o + (fold_chunk_330() + fold_chunk_331() + fold_chunk_332() + fold_chunk_333() + fold_chunk_334() + fold_chunk_335()));
    push_fold_chunk_336(v);
    assert(pview(v@) =~= o + (fold_chunk_330() + fold_chunk_331() + fold_chunk_332() + fold_chunk_333() + fold_chunk_334() + fold_chunk_335() + fold_chunk_336()));
    push_fold_chunk_337(v);
    assert(pview(v@) =~= o + (fold_chunk_330() + fold_chunk_331() + fold_chunk_332() + fold_chunk_333() + fold_chunk_334() + fold_chunk_335() + fold_chunk_336() + fold_chunk_337()));
    push_fold_chunk_338(v);
    assert(pview(v@) =~= o + (fold_chunk_330() + fold_chunk_331() + fold_chunk_332() + fold_chunk_333() + fold_chunk_334() + fold_chunk_335() + fold_chunk_336() + fold_chunk_337() + fold_chunk_338()));
    push_fold_chunk_339(v);
    assert(pview(v@) =~= o + (fold_chunk_330() + fold_chunk_331() + fold_chunk_332() + fold_chunk_333() + fold_chunk_334() + fold_chunk_335() + fold_chunk_336() + fold_chunk_337() + fold_chunk_338() + fold_chunk_339()));
}

fn push_fold_block_34(v: &mut Vec<FoldPair>)
    ensures
        pview(final(v)@) == pview(old(v)@) + fold_block_34(),
{
    let ghost o = pview(v@);
    push_fold_chunk_340(v);
    assert(pview(v@) =~= o + (fold_chunk_340()));
    push_fold_chunk_341(v);
    assert(pview(v@) =~= o + (fold_chunk_340() + fold_chunk_341()));
    push_fold_chunk_342(v);
    assert(pview(v@) =~= o + (fold_chunk_340() + fold_chunk_341() + fold_chunk_342()));
    push_fold_chunk_343(v);
    assert(pview(v@) =~= o + (fold_chunk_340() + fold_chunk_341() + fold_chunk_342() + fold_chunk_343()));
    push_fold_chunk_344(v);
    assert(pview(v@) =~= o + (fold_chunk_340() + fold_chunk_341() + fold_chunk_342() + fold_chunk_343() + fold_chunk_344()));
    push_fold_chunk_345(v);
    assert(pview(v@) =~= o + (fold_chunk_340() + fold_chunk_341() + fold_chunk_342() + fold_chunk_343() + fold_chunk_344() + fold_chunk_345()));
    push_fold_chunk_346(v);
    assert(pview(v@) =~= o + (fold_chunk_340() + fold_chunk_341() + fold_chunk_342() + fold_chunk_343() + fold_chunk_344() + fold_chunk_345() + fold_chunk_346()));
    push_fold_chunk_347(v);
    assert(pview(v@) =~= o + (fold_chunk_340() + fold_chunk_341() + fold_chunk_342() + fold_chunk_343() + fold_chunk_344() + fold_chunk_345() + fold_chunk_346() + fold_chunk_347()));
    push_fold_chunk_348(v);
    assert(pview(v@) =~= o + (fold_chunk_340() + fold_chunk_341() + fold_chunk_342() + fold_chunk_343() + fold_chunk_344() + fold_chunk_345() + fold_chunk_346() + fold_chunk_347() + fold_chunk_348()));
    push_fold_chunk_349(v);
    assert(pview(v@) =~= o + (fold_chunk_340() + fold_chunk_341() + fold_chunk_342() + fold_chunk_343() + fold_chunk_344() + fold_chunk_345() + fold_chunk_346() + fold_chunk_347() + fold_chunk_348() + fold_chunk_349()));
}

fn push_fold_block_35(v: &mut Vec<FoldPair>)
    ensures
        pview(final(v)@) == pview(old(v)@) + fold_block_35(),
{
    let ghost o = pview(v@);
    push_fold_chunk_350(v);
    assert(pview(v@) =~= o + (fold_chunk_350()));
    push_fold_chunk_351(v);
    assert(pview(v@) =~= o + (fold_chunk_350() + fold_chunk_351()));
    push_fold_chunk_352(v);
    assert(pview(v@) =~= o + (fold_chunk_350() + fold_chunk_351() + fold_chunk_352()));
    push_fold_chunk_353(v);
    assert(pview(v@) =~= o + (fold_chunk_350() + fold_chunk_351() + fold_chunk_352() + fold_chunk_353()));
    push_fold_chunk_354(v);
    assert(pview(v@) =~= o + (fold_chunk_350() + fold_chunk_351() + fold_chunk_352() + fold_chunk_353() + fold_chunk_354()));
    push_fold_chunk_355(v);
    assert(pview(v@) =~= o + (fold_chunk_350() + fold_chunk_351() + fold_chunk_352() + fold_chunk_353() + fold_chunk_354() + fold_chunk_355()));
    push_fold_chunk_356(v);
    assert(pview(v@) =~= o + (fold_chunk_350() + fold_chunk_351() + fold_chunk_352() + fold_chunk_353() + fold_chunk_354() + fold_chunk_355() + fold_chunk_356()));
    push_fold_chunk_357(v);
    assert(pview(v@) =~= o + (fold_chunk_350() + fold_chunk_351() + fold_chunk_352() + fold_chunk_353() + fold_chunk_354() + fold_chunk_355() + fold_chunk_356() + fold_chunk_357()));
    push_fold_chunk_358(v);
    assert(pview(v@) =~= o + (fold_chunk_350() + fold_chunk_351() + fold_chunk_352() + fold_chunk_353() + fold_chunk_354() + fold_chunk_355() + fold_chunk_356() + fold_chunk_357() + fold_chunk_358()));
    push_fold_chunk_359(v);
    assert(pview(v@) =~= o + (fold_chunk_350() + fold_chunk_351() + fold_chunk_352() + fold_chunk_353() + fold_chunk_354() + fold_chunk_355() + fold_chunk_356() + fold_chunk_357() + fold_chunk_358() + fold_chunk_359()));
}

fn push_fold_block_36(v: &mut Vec<FoldPair>)
    ensures
        pview(final(v)@) == pview(old(v)@) + fold_block_36(),
{
    let ghost o = pview(v@);
    push_fold_chunk_360(v);
    assert(pview(v@) =~= o + (fold_chunk_360()));
    push_fold_chunk_361(v);
    assert(pview(v@) =~= o + (fold_chunk_360() + fold_chunk_361()));
    push_fold_chunk_362(v);
    assert(pview(v@) =~= o + (fold_chunk_360() + fold_chunk_361() + fold_chunk_362()));
    push_fold_chunk_363(v);
    assert(pview(v@) =~= o + (fold_chunk_360() + fold_chunk_361() + fold_chunk_362() + fold_chunk_363()));
    push_fold_chunk_364(v);
    assert(pview(v@) =~= o + (fold_chunk_360() + fold_chunk_361() + fold_chunk_362() + fold_chunk_363() + fold_chunk_364()));
    push_fold_chunk_365(v);
    assert(pview(v@) =~= o + (fold_chunk_360() + fold_chunk_361() + fold_chunk_362() + fold_chunk_363() + fold_chunk_364() + fold_chunk_365()));
    push_fold_chunk_366(v);
    assert(pview(v@) =~= o + (fold_chunk_360() + fold_chunk_361() + fold_chunk_362() + fold_chunk_363() + fold_chunk_364() + fold_chunk_365() + fold_chunk_366()));
    push_fold_chunk_367(v);
    assert(pview(v@) =~= o + (fold_chunk_360() + fold_chunk_361() + fold_chunk_362() + fold_chunk_363() + fold_chunk_364() + fold_chunk_365() + fold_chunk_366() + fold_chunk_367()));
    push_fold_chunk_368(v);
    assert(pview(v@) =~= o + (fold_chunk_360() + fold_chunk_361() + fold_chunk_362() + fold_chunk_363() + fold_chunk_364() + fold_chunk_365() + fold_chunk_366() + fold_chunk_367() + fold_chunk_368()));
    push_fold_chunk_369(v);
    assert(pview(v@) =~= o + (fold_chunk_360() + fold_chunk_361() + fold_chunk_362() + fold_chunk_363() + fold_chunk_364() + fold_chunk_365() + fold_chunk_366() + fold_chunk_367() + fold_chunk_368() + fold_chunk_369()));
}

fn push_fold_block_37(v: &mut Vec<FoldPair>)
    ensures
        pview(final(v)@) == pview(old(v)@) + fold_block_37(),
{
    let ghost o = pview(v@);
    push_fold_chunk_370(v);
    assert(pview(v@) =~= o + (fold_chunk_370()));
    push_fold_chunk_371(v);
    assert(pview(v@) =~= o + (fold_chunk_370() + fold_chunk_371()));
    push_fold_chunk_372(v);
    assert(pview(v@) =~= o + (fold_chunk_370() + fold_chunk_371() + fold_chunk_372()));
    push_fold_chunk_373(v);
    assert(pview(v@) =~= o + (fold_chunk_370() + fold_chunk_371() + fold_chunk_372() + fold_chunk_373()));
    push_fold_chunk_374(v);
    assert(pview(v@) =~= o + (fold_chunk_370() + fold_chunk_371() + fold_chunk_372() + fold_chunk_373() + fold_chunk_374()));
    push_fold_chunk_375(v);
    assert(pview(v@) =~= o + (fold_chunk_370() + fold_chunk_371() + fold_chunk_372() + fold_chunk_373() + fold_chunk_374() + fold_chunk_375()));
    push_fold_chunk_376(v);
    assert(pview(v@) =~= o + (fold_chunk_370() + fold_chunk_371() + fold_chunk_372() + fold_chunk_373() + fold_chunk_374() + fold_chunk_375() + fold_chunk_376()));
    push_fold_chunk_377(v);
    assert(pview(v@) =~= o + (fold_chunk_370() + fold_chunk_371() + fold_chunk_372() + fold_chunk_373() + fold_chunk_374() + fold_chunk_375() + fold_chunk_376() + fold_chunk_377()));
    push_fold_chunk_378(v);
    assert(pview(v@) =~= o + (fold_chunk_370() + fold_chunk_371() + fold_chunk_372() + fold_chunk_373() + fold_chunk_374() + fold_chunk_375() + fold_chunk_376() + fold_chunk_377() + fold_chunk_378()));
    push_fold_chunk_379(v);
    assert(pview(v@) =~= o + (fold_chunk_370() + fold_chunk_371() + fold_chunk_372() + fold_chunk_373() + fold_chunk_374() + fold_chunk_375() + fold_chunk_376() + fold_chunk_377() + fold_chunk_378() + fold_chunk_379()));
}

/// The pairs of simple case folding.
pub fn fold_pairs() -> (v: Vec<FoldPair>)
    ensures
        pview(v@) == fold_table(),
{
    let mut v: Vec<FoldPair> = Vec::new();
    assert(pview(v@) =~= Seq::<(int, int)>::empty());
    push_fold_block_0(&mut v);
    assert(pview(v@) =~= fold_block_0());
    push_fold_block_1(&mut v);
    assert(pview(v@) =~= fold_block_0() + fold_block_1());
    push_fold_block_2(&mut v);
    assert(pview(v@) =~= fold_block_0() + fold_block_1() + fold_block_2());
    push_fold_block_3(&mut v);
    assert(pview(v@) =~= fold_block_0() + fold_block_1() + fold_block_2() + fold_block_3());
    push_fold_block_4(&mut v);
    assert(pview(v@) =~= fold_block_0() + fold_block_1() + fold_block_2() + fold_block_3() + fold_block_4());
    push_fold_block_5(&mut v);
    assert(pview(v@) =~= fold_block_0() + fold_block_1() + fold_block_2() + fold_block_3() + fold_block_4() + fold_block_5());
    push_fold_block_6(&mut v);
    assert(pview(v@) =~= fold_block_0() + fold_block_1() + fold_block_2() + fold_block_3() + fold_block_4() + fold_block_5() + fold_block_6());
    push_fold_block_7(&mut v);
    assert(pview(v@) =~= fold_block_0() + fold_block_1() + fold_block_2() + fold_block_3() + fold_block_4() + fold_block_5() + fold_block_6() + fold_block_7());
    push_fold_block_8(&mut v);
    assert(pview(v@) =~= fold_block_0() + fold_block_1() + fold_block_2() + fold_block_3() + fold_block_4() + fold_block_5() + fold_block_6() + fold_block_7() + fold_block_8());
    push_fold_block_9(&mut v);
    assert(pview(v@) =~= fold_block_0() + fold_block_1() + fold_block_2() + fold_block_3() + fold_block_4() + fold_block_5() + fold_block_6() + fold_block_7() + fold_block_8() + fold_block_9());
    push_fold_block_10(&mut v);
    assert(pview(v@) =~= fold_block_0() + fold_block_1() + fold_block_2() + fold_block_3() + fold_block_4() + fold_block_5() + fold_block_6() + fold_block_7() + fold_block_8() + fold_block_9() + fold_block_10());
    push_fold_block_11(&mut v);
    assert(pview(v@) =~= fold_block_0() + fold_block_1() + fold_block_2() + fold_block_3() + fold_block_4() + fold_block_5() + fold_block_6() + fold_block_7() + fold_block_8() + fold_block_9() + fold_block_10() + fold_block_11());
    push_fold_block_12(&mut v);
    assert(pview(v@) =~= fold_block_0() + fold_block_1() + fold_block_2() + fold_block_3() + fold_block_4() + fold_block_5() + fold_block_6() + fold_block_7() + fold_block_8() + fold_block_9() + fold_block_10() + fold_block_11() + fold_block_12());
    push_fold_block_13(&mut v);
    assert(pview(v@) =~= fold_block_0() + fold_block_1() + fold_block_2() + fold_block_3() + fold_block_4() + fold_block_5() + fold_block_6() + fold_block_7() + fold_block_8() + fold_block_9() + fold_block_10() + fold_block_11() + fold_block_12() + fold_block_13());
    push_fold_block_14(&mut v);
    assert(pview(v@) =~= fold_block_0() + fold_block_1() + fold_block_2() + fold_block_3() + fold_block_4() + fold_block_5() + fold_block_6() + fold_block_7() + fold_block_8() + fold_block_9() + fold_block_10() + fold_block_11() + fold_block_12() + fold_block_13() + fold_block_14());
    push_fold_block_15(&mut v);
    assert(pview(v@) =~= fold_block_0() + fold_block_1() + fold_block_2() + fold_block_3() + fold_block_4() + fold_block_5() + fold_block_6() + fold_block_7() + fold_block_8() + fold_block_9() + fold_block_10() + fold_block_11() + fold_block_12() + fold_block_13() + fold_block_14() + fold_block_15());
    push_fold_block_16(&mut v);
    assert(pview(v@) =~= fold_block_0() + fold_block_1() + fold_block_2() + fold_block_3() + fold_block_4() + fold_block_5() + fold_block_6() + fold_block_7() + fold_block_8() + fold_block_9() + fold_block_10() + fold_block_11() + fold_block_12() + fold_block_13() + fold_block_14() + fold_block_15() + fold_block_16());
    push_fold_block_17(&mut v);
    assert(pview(v@) =~= fold_block_0() + fold_block_1() + fold_block_2() + fold_block_3() + fold_block_4() + fold_block_5() + fold_block_6() + fold_block_7() + fold_block_8() + fold_block_9() + fold_block_10() + fold_block_11() + fold_block_12() + fold_block_13() + fold_block_14() + fold_block_15() + fold_block_16() + fold_block_17());
    push_fold_block_18(&mut v);
    assert(pview(v@) =~= fold_block_0() + fold_block_1() + fold_block_2() + fold_block_3() + fold_block_4() + fold_block_5() + fold_block_6() + fold_block_7() + fold_block_8() + fold_block_9() + fold_block_10() + fold_block_11() + fold_block_12() + fold_block_13() + fold_block_14() + fold_block_15() + fold_block_16() + fold_block_17() + fold_block_18());
    push_fold_block_19(&mut v);
    assert(pview(v@) =~= fold_block_0() + fold_block_1() + fold_block_2() + fold_block_3() + fold_block_4() + fold_block_5() + fold_block_6() + fold_block_7() + fold_block_8() + fold_block_9() + fold_block_10() + fold_block_11() + fold_block_12() + fold_block_13() + fold_block_14() + fold_block_15() + fold_block_16() + fold_block_17() + fold_block_18() + fold_block_19());
    push_fold_block_20(&mut v);
    assert(pview(v@) =~= fold_block_0() + fold_block_1() + fold_block_2() + fold_block_3() + fold_block_4() + fold_block_5() + fold_block_6() + fold_block_7() + fold_block_8() + fold_block_9() + fold_block_10() + fold_block_11() + fold_block_12() + fold_block_13() + fold_block_14() + fold_block_15() + fold_block_16() + fold_block_17() + fold_block_18() + fold_block_19() + fold_block_20());
    push_fold_block_21(&mut v);
    assert(pview(v@) =~= fold_block_0() + fold_block_1() + fold_block_2() + fold_block_3() + fold_block_4() + fold_block_5() + fold_block_6() + fold_block_7() + fold_block_8() + fold_block_9() + fold_block_10() + fold_block_11() + fold_block_12() + fold_block_13() + fold_block_14() + fold_block_15() + fold_block_16() + fold_block_17() + fold_block_18() + fold_block_19() + fold_block_20() + fold_block_21());
    push_fold_block_22(&mut v);
    assert(pview(v@) =~= fold_block_0() + fold_block_1() + fold_block_2() + fold_block_3() + fold_block_4() + fold_block_5() + fold_block_6() + fold_block_7() + fold_block_8() + fold_block_9() + fold_block_10() + fold_block_11() + fold_block_12() + fold_block_13() + fold_block_14() + fold_block_15() + fold_block_16() + fold_block_17() + fold_block_18() + fold_block_19() + fold_block_20() + fold_block_21() + fold_block_22());
    push_fold_block_23(&mut v);
    assert(pview(v@) =~= fold_block_0() + fold_block_1() + fold_block_2() + fold_block_3() + fold_block_4() + fold_block_5() + fold_block_6() + fold_block_7() + fold_block_8() + fold_block_9() + fold_block_10() + fold_block_11() + fold_block_12() + fold_block_13() + fold_block_14() + fold_block_15() + fold_block_16() + fold_block_17() + fold_block_18() + fold_block_19() + fold_block_20() + fold_block_21() + fold_block_22() + fold_block_23());
    push_fold_block_24(&mut v);
    assert(pview(v@) =~= fold_block_0() + fold_block_1() + fold_block_2() + fold_block_3() + fold_block_4() + fold_block_5() + fold_block_6() + fold_block_7() + fold_block_8() + fold_block_9() + fold_block_10() + fold_block_11() + fold_block_12() + fold_block_13() + fold_block_14() + fold_block_15() + fold_block_16() + fold_block_17() + fold_block_18() + fold_block_19() + fold_block_20() + fold_block_21() + fold_block_22() + fold_block_23() + fold_block_24());
    push_fold_block_25(&mut v);
    assert(pview(v@) =~= fold_block_0() + fold_block_1() + fold_block_2() + fold_block_3() + fold_block_4() + fold_block_5() + fold_block_6() + fold_block_7() + fold_block_8() + fold_block_9() + fold_block_10() + fold_block_11() + fold_block_12() + fold_block_13() + fold_block_14() + fold_block_15() + fold_block_16() + fold_block_17() + fold_block_18() + fold_block_19() + fold_block_20() + fold_block_21() + fold_block_22() + fold_block_23() + fold_block_24() + fold_block_25());
    push_fold_block_26(&mut v);
    assert(pview(v@) =~= fold_block_0() + fold_block_1() + fold_block_2() + fold_block_3() + fold_block_4() + fold_block_5() + fold_block_6() + fold_block_7() + fold_block_8() + fold_block_9() + fold_block_10() + fold_block_11() + fold_block_12() + fold_block_13() + fold_block_14() + fold_block_15() + fold_block_16() + fold_block_17() + fold_block_18() + fold_block_19() + fold_block_20() + fold_block_21() + fold_block_22() + fold_block_23() + fold_block_24() + fold_block_25() + fold_block_26());
    push_fold_block_27(&mut v);
    assert(pview(v@) =~= fold_block_0() + fold_block_1() + fold_block_2() + fold_block_3() + fold_block_4() + fold_block_5() + fold_block_6() + fold_block_7() + fold_block_8() + fold_block_9() + fold_block_10() + fold_block_11() + fold_block_12() + fold_block_13() + fold_block_14() + fold_block_15() + fold_block_16() + fold_block_17() + fold_block_18() + fold_block_19() + fold_block_20() + fold_block_21() + fold_block_22() + fold_block_23() + fold_block_24() + fold_block_25() + fold_block_26() + fold_block_27());
    push_fold_block_28(&mut v);
    assert(pview(v@) =~= fold_block_0() + fold_block_1() + fold_block_2() + fold_block_3() + fold_block_4() + fold_block_5() + fold_block_6() + fold_block_7() + fold_block_8() + fold_block_9() + fold_block_10() + fold_block_11() + fold_block_12() + fold_block_13() + fold_block_14() + fold_block_15() + fold_block_16() + fold_block_17() + fold_block_18() + fold_block_19() + fold_block_20() + fold_block_21() + fold_block_22() + fold_block_23() + fold_block_24() + fold_block_25() + fold_block_26() + fold_block_27() + fold_block_28());
    push_fold_block_29(&mut v);
    assert(pview(v@) =~= fold_block_0() + fold_block_1() + fold_block_2() + fold_block_3() + fold_block_4() + fold_block_5() + fold_block_6() + fold_block_7() + fold_block_8() + fold_block_9() + fold_block_10() + fold_block_11() + fold_block_12() + fold_block_13() + fold_block_14() + fold_block_15() + fold_block_16() + fold_block_17() + fold_block_18() + fold_block_19() + fold_block_20() + fold_block_21() + fold_block_22() + fold_block_23() + fold_block_24() + fold_block_25() + fold_block_26() + fold_block_27() + fold_block_28() + fold_block_29());
    push_fold_block_30(&mut v);
    assert(pview(v@) =~= fold_block_0() + fold_block_1() + fold_block_2() + fold_block_3() + fold_block_4() + fold_block_5() + fold_block_6() + fold_block_7() + fold_block_8() + fold_block_9() + fold_block_10() + fold_block_11() + fold_block_12() + fold_block_13() + fold_block_14() + fold_block_15() + fold_block_16() + fold_block_17() + fold_block_18() + fold_block_19() + fold_block_20() + fold_block_21() + fold_block_22() + fold_block_23() + fold_block_24() + fold_block_25() + fold_block_26() + fold_block_27() + fold_block_28() + fold_block_29() + fold_block_30());
    push_fold_block_31(&mut v);
    assert(pview(v@) =~= fold_block_0() + fold_block_1() + fold_block_2() + fold_block_3() + fold_block_4() + fold_block_5() + fold_block_6() + fold_block_7() + fold_block_8() + fold_block_9() + fold_block_10() + fold_block_11() + fold_block_12() + fold_block_13() + fold_block_14() + fold_block_15() + fold_block_16() + fold_block_17() + fold_block_18() + fold_block_19() + fold_block_20() + fold_block_21() + fold_block_22() + fold_block_23() + fold_block_24() + fold_block_25() + fold_block_26() + fold_block_27() + fold_block_28() + fold_block_29() + fold_block_30() + fold_block_31());
    push_fold_block_32(&mut v);
    assert(pview(v@) =~= fold_block_0() + fold_block_1() + fold_block_2() + fold_block_3() + fold_block_4() + fold_block_5() + fold_block_6() + fold_block_7() + fold_block_8() + fold_block_9() + fold_block_10() + fold_block_11() + fold_block_12() + fold_block_13() + fold_block_14() + fold_block_15() + fold_block_16() + fold_block_17() + fold_block_18() + fold_block_19() + fold_block_20() + fold_block_21() + fold_block_22() + fold_block_23() + fold_block_24() + fold_block_25() + fold_block_26() + fold_block_27() + fold_block_28() + fold_block_29() + fold_block_30() + fold_block_31() + fold_block_32());
    push_fold_block_33(&mut v);
    assert(pview(v@) =~= fold_block_0() + fold_block_1() + fold_block_2() + fold_block_3() + fold_block_4() + fold_block_5() + fold_block_6() + fold_block_7() + fold_block_8() + fold_block_9() + fold_block_10() + fold_block_11() + fold_block_12() + fold_block_13() + fold_block_14() + fold_block_15() + fold_block_16() + fold_block_17() + fold_block_18() + fold_block_19() + fold_block_20() + fold_block_21() + fold_block_22() + fold_block_23() + fold_block_24() + fold_block_25() + fold_block_26() + fold_block_27() + fold_block_28() + fold_block_29() + fold_block_30() + fold_block_31() + fold_block_32() + fold_block_33());
    push_fold_block_34(&mut v);
    assert(pview(v@) =~= fold_block_0() + fold_block_1() + fold_block_2() + fold_block_3() + fold_block_4() + fold_block_5() + fold_block_6() + fold_block_7() + fold_block_8() + fold_block_9() + fold_block_10() + fold_block_11() + fold_block_12() + fold_block_13() + fold_block_14() + fold_block_15() + fold_block_16() + fold_block_17() + fold_block_18() + fold_block_19() + fold_block_20() + fold_block_21() + fold_block_22() + fold_block_23() + fold_block_24() + fold_block_25() + fold_block_26() + fold_block_27() + fold_block_28() + fold_block_29() + fold_block_30() + fold_block_31() + fold_block_32() + fold_block_33() + fold_block_34());
    push_fold_block_35(&mut v);
    assert(pview(v@) =~= fold_block_0() + fold_block_1() + fold_block_2() + fold_block_3() + fold_block_4() + fold_block_5() + fold_block_6() + fold_block_7() + fold_block_8() + fold_block_9() + fold_block_10() + fold_block_11() + fold_block_12() + fold_block_13() + fold_block_14() + fold_block_15() + fold_block_16() + fold_block_17() + fold_block_18() + fold_block_19() + fold_block_20() + fold_block_21() + fold_block_22() + fold_block_23() + fold_block_24() + fold_block_25() + fold_block_26() + fold_block_27() + fold_block_28() + fold_block_29() + fold_block_30() + fold_block_31() + fold_block_32() + fold_block_33() + fold_block_34() + fold_block_35());
    push_fold_block_36(&mut v);
    assert(pview(v@) =~= fold_block_0() + fold_block_1() + fold_block_2() + fold_block_3() + fold_block_4() + fold_block_5() + fold_block_6() + fold_block_7() + fold_block_8() + fold_block_9() + fold_block_10() + fold_block_11() + fold_block_12() + fold_block_13() + fold_block_14() + fold_block_15() + fold_block_16() + fold_block_17() + fold_block_18() + fold_block_19() + fold_block_20() + fold_block_21() + fold_block_22() + fold_block_23() + fold_block_24() + fold_block_25() + fold_block_26() + fold_block_27() + fold_block_28() + fold_block_29() + fold_block_30() + fold_block_31() + fold_block_32() + fold_block_33() + fold_block_34() + fold_block_35() + fold_block_36());
    push_fold_block_37(&mut v);
    assert(pview(v@) =~= fold_block_0() + fold_block_1() + fold_block_2() + fold_block_3() + fold_block_4() + fold_block_5() + fold_block_6() + fold_block_7() + fold_block_8() + fold_block_9() + fold_block_10() + fold_block_11() + fold_block_12() + fold_block_13() + fold_block_14() + fold_block_15() + fold_block_16() + fold_block_17() + fold_block_18() + fold_block_19() + fold_block_20() + fold_block_21() + fold_block_22() + fold_block_23() + fold_block_24() + fold_block_25() + fold_block_26() + fold_block_27() + fold_block_28() + fold_block_29() + fold_block_30() + fold_block_31() + fold_block_32() + fold_block_33() + fold_block_34() + fold_block_35() + fold_block_36() + fold_block_37());
    proof {
        reveal(fold_table);
    }
    v
}

/// Whether a class holds a character.
pub fn ranges_contain(rs: &Vec<ClassUnicodeRange>, c: char) -> (r: bool)
    ensures
        r == contains(rview(rs@), c as int),
{
    let ghost all = rview(rs@);
    let mut i: usize = 0;
    assert(all.skip(0) =~= all);
    while i < rs.len()
        invariant
            i <= rs.len(),
            all == rview(rs@),
            contains(all, c as int) == contains(all.skip(i as int), c as int),
        decreases rs.len() - i,
    {
        let r = rs[i];
        assert(all.skip(i as int)[0] == r@);
        assert(all.skip(i as int).drop_first() =~= all.skip(i + 1));
        if r.start <= c && c <= r.end {
            return true;
        }
        i += 1;
    }
    assert(all.skip(i as int) =~= Seq::<SRange>::empty());
    false
}

proof fn lemma_insert_all_push(rs: Seq<SRange>, x: Seq<SRange>, r: SRange)
    ensures
        insert_all(rs, x.push(r)) == insert(insert_all(rs, x), r),
    decreases x.len(),
{
    reveal_with_fuel(insert_all, 2);
    if x.len() == 0 {
        assert(x.push(r)[0] == r);
        assert(x.push(r).drop_first() =~= Seq::<SRange>::empty());
    } else {
        assert(x.push(r)[0] == x[0]);
        assert(x.push(r).drop_first() =~= x.drop_first().push(r));
        lemma_insert_all_push(insert(rs, x[0]), x.drop_first(), r);
    }
}

/// A class closed under simple case folding (see `case_fold`).
pub fn case_fold_ranges(rs: &Vec<ClassUnicodeRange>) -> (out: Vec<ClassUnicodeRange>)
    ensures
        rview(out@) == case_fold(rview(rs@)),
{
    let table = fold_pairs();
    let ghost t = fold_table();
    let ghost r0 = rview(rs@);
    let mut acc: Vec<ClassUnicodeRange> = Vec::new();
    let mut j: usize = 0;
    while j < rs.len()
        invariant
            j <= rs.len(),
            rview(acc@) == rview(rs@).take(j as int),
        decreases rs.len() - j,
    {
        proof {
            crate::class::lemma_rview_push(acc@, rs@[j as int]);
            assert(rview(rs@).take(j + 1) =~= rview(rs@).take(j as int).push(rs@[j as int]@));
        }
        acc.push(rs[j]);
        j += 1;
    }
    assert(rview(rs@).take(rs.len() as int) =~= r0);
    assert(t.take(0) =~= Seq::<(int, int)>::empty());
    let mut i: usize = 0;
    while i < table.len()
        invariant
            i <= table.len(),
            pview(table@) == t,
            r0 == rview(rs@),
            rview(acc@) == insert_all(r0, fold_extra(r0, t.take(i as int))),
        decreases table.len() - i,
    {
        let p = table[i];
        let ghost before = fold_extra(r0, t.take(i as int));
        assert(t.take(i + 1).drop_last() =~= t.take(i as int));
        assert(t.take(i + 1).last() == p@);
        if ranges_contain(rs, p.key) {
            let r = ClassUnicodeRange { start: p.to, end: p.to };
            proof {
                lemma_insert_all_push(r0, before, r@);
                assert(before + seq![r@] =~= before.push(r@));
                assert(fold_extra(r0, t.take(i + 1)) == before + seq![r@]);
            }
            acc = insert_range(&acc, r);
        } else {
            assert(before + Seq::<SRange>::empty() =~= before);
            assert(fold_extra(r0, t.take(i + 1)) == before);
        }
        i += 1;
    }
    assert(t.take(table.len() as int) =~= t);
    acc
}

} // verus!
