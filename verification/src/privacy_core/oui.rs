//! Organisationally unique identifiers of common vendors.
use vstd::prelude::*;
use crate::privacy_core::{MacAddr, RandomGenerator, local_unicast};

verus! {

/// The OUIs of common virtualisation and network vendors.
pub open spec fn common_ouis() -> Seq<[u8; 3]> {
    seq![[0x00u8, 0x50, 0x56], [0x08u8, 0x00, 0x27], [0x52u8, 0x54, 0x00], [0x00u8, 0x0C, 0x29],
        [0x00u8, 0x1C, 0x42], [0x00u8, 0x15, 0x5D], [0x00u8, 0x16, 0x3E], [0x00u8, 0x1B, 0x21],
        [0x00u8, 0x19, 0x99], [0x00u8, 0x24, 0xD6]]
}

/// The common OUIs.
pub fn common_oui_table() -> (r: Vec<[u8; 3]>)
    ensures
        r@ == common_ouis(),
{
    let v = vec![[0x00u8, 0x50, 0x56], [0x08u8, 0x00, 0x27], [0x52u8, 0x54, 0x00], [0x00u8, 0x0C, 0x29],
        [0x00u8, 0x1C, 0x42], [0x00u8, 0x15, 0x5D], [0x00u8, 0x16, 0x3E], [0x00u8, 0x1B, 0x21],
        [0x00u8, 0x19, 0x99], [0x00u8, 0x24, 0xD6]];
    assert(v@ =~= common_ouis());
    v
}

/// The common OUI a draw picks: the draw modulo the list's length.
pub fn oui_from_draw(index: u32) -> (r: [u8; 3])
    ensures
        r == common_ouis()[(index % 10) as int],
{
    let table = common_oui_table();
    table[(index as usize) % table.len()]
}

/// An OUI from the common list, picked by the generator.
pub fn random_oui<R: RandomGenerator + ?Sized>(rng: &mut R) -> (r: [u8; 3])
    ensures
        common_ouis().contains(r),
        r == common_ouis()[((old(rng).word_at(0) as u32) % 10) as int],
{
    let index = rng.next_u32();
    let r = oui_from_draw(index);
    assert(common_ouis()[(index % 10) as int] == r);
    r
}

/// The address a draw for the OUI and three byte draws give: the common
/// OUI the first picks with the flags fixed, then the three bytes.
pub fn realistic_mac_from_draws(index: u32, b3: u8, b4: u8, b5: u8) -> (r: MacAddr)
    ensures
        ({
            let o = common_ouis()[(index % 10) as int];
            r.0@ == seq![local_unicast(o[0]), o[1], o[2], b3, b4, b5]
        }),
{
    let oui = oui_from_draw(index);
    let r = MacAddr::locally_administered([oui[0], oui[1], oui[2], b3, b4, b5]);
    assert(r.0@ =~= seq![local_unicast(oui[0]), oui[1], oui[2], b3, b4, b5]);
    r
}

/// A locally administered unicast address with a common OUI and three
/// random bytes.
pub fn generate_realistic_mac<R: RandomGenerator + ?Sized>(rng: &mut R) -> (r: MacAddr)
    ensures
        exists|o: [u8; 3]| #[trigger] common_ouis().contains(o) && r.0@[0] == local_unicast(o@[0]) && r.0@[1] == o@[1] && r.0@[2] == o@[2],
        ({
            let o = common_ouis()[((old(rng).word_at(0) as u32) % 10) as int];
            r.0@ == seq![local_unicast(o[0]), o[1], o[2], old(rng).word_at(1) as u8, old(rng).word_at(2) as u8,
                old(rng).word_at(3) as u8]
        }),
{
    let index = rng.next_u32();
    let b3 = rng.next_u8();
    let b4 = rng.next_u8();
    let b5 = rng.next_u8();
    let r = realistic_mac_from_draws(index, b3, b4, b5);
    let ghost o = common_ouis()[(index % 10) as int];
    assert(common_ouis().contains(o) && r.0@[0] == local_unicast(o@[0]) && r.0@[1] == o@[1] && r.0@[2] == o@[2]);
    r
}

} // verus!
