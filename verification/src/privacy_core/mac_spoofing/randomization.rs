//! MAC address generation from vendor OUIs and an entropy source.
use vstd::prelude::*;
use crate::privacy_core::{MacAddr, local_unicast};
use vstd::arithmetic::power2::{pow2, lemma2_to64, lemma_pow2_unfold};

verus! {

/// OUIs of common hardware and virtualisation vendors.
pub open spec fn common_oui_list() -> Seq<[u8; 3]> {
    seq![[0x00u8, 0x50, 0x56], [0x08u8, 0x00, 0x27], [0x52u8, 0x54, 0x00], [0x00u8, 0x0C, 0x29],
        [0x00u8, 0x1C, 0x42], [0x00u8, 0x15, 0x5D], [0x00u8, 0x16, 0x3E], [0x00u8, 0x1B, 0x21],
        [0x00u8, 0x22, 0x15], [0x00u8, 0x24, 0x81], [0x00u8, 0x26, 0x99], [0x00u8, 0x1E, 0x68],
        [0x00u8, 0x19, 0x99], [0x00u8, 0x1F, 0x3F], [0x00u8, 0x13, 0x02], [0x00u8, 0x18, 0x39]]
}

/// OUIs of one vendor (Apple).
pub open spec fn vendor_oui_list() -> Seq<[u8; 3]> {
    seq![[0x00u8, 0x11, 0x43], [0x00u8, 0x23, 0x12], [0x00u8, 0x25, 0x00], [0x00u8, 0x26, 0x08],
        [0x28u8, 0x18, 0x78], [0x2Cu8, 0x36, 0xF8], [0x00u8, 0x03, 0x93], [0x00u8, 0x05, 0x02],
        [0x00u8, 0x0A, 0x27], [0x00u8, 0x0A, 0x95], [0x00u8, 0x0D, 0x93], [0x00u8, 0x11, 0x24],
        [0x00u8, 0x14, 0x51], [0x00u8, 0x16, 0xCB], [0x00u8, 0x17, 0xF2], [0x00u8, 0x19, 0xE3]]
}

/// Health of an entropy source.
#[derive(Debug, Clone, Copy, PartialEq, Eq, Structural)]
pub enum EntropyHealth {
    Excellent,
    Good,
    Fair,
    Poor,
    Critical,
}

/// A source of random numbers that can report its health.
pub trait RandomGenerator {
    /// The byte `next_u8` gives in this state.
    spec fn u8_draw(&self) -> u8;

    /// The word `next_u32` gives in this state.
    spec fn u32_draw(&self) -> u32;

    /// The word `next_u64` gives in this state.
    spec fn u64_draw(&self) -> u64;

    /// The generator's state, as a number.
    spec fn state_view(&self) -> int;

    /// The state after `next_u8` from this state.
    spec fn after_u8(&self) -> int;

    /// The state after `next_u32` from this state.
    spec fn after_u32(&self) -> int;

    /// The state after `next_u64` from this state.
    spec fn after_u64(&self) -> int;

    /// The byte that the `i`-th of successive `next_u8` calls from this
    /// state gives (the next call is the 0-th).
    spec fn u8_at(&self, i: nat) -> u8;

    fn next_u8(&mut self) -> (r: u8)
        ensures
            r == old(self).u8_draw(),
            final(self).state_view() == old(self).after_u8(),
            r == old(self).u8_at(0),
            forall|i: nat| #[trigger] final(self).u8_at(i) == old(self).u8_at(i + 1),
    ;

    fn next_u32(&mut self) -> (r: u32)
        ensures
            r == old(self).u32_draw(),
            final(self).state_view() == old(self).after_u32(),
    ;

    fn next_u64(&mut self) -> (r: u64)
        ensures
            r == old(self).u64_draw(),
            final(self).state_view() == old(self).after_u64(),
    ;

    fn health_check(&self) -> EntropyHealth;
}

/// The OUI tables.
pub struct OuiDatabase {
    pub common_ouis: Vec<[u8; 3]>,
    pub vendor_ouis: Vec<[u8; 3]>,
}

impl OuiDatabase {
    /// The tables hold the known OUIs.
    pub open spec fn wf(&self) -> bool {
        self.common_ouis@ == common_oui_list() && self.vendor_ouis@ == vendor_oui_list()
    }

    /// The database of known OUIs.
    pub fn new() -> (r: Self)
        ensures
            r.wf(),
    {
        let common_ouis = vec![[0x00u8, 0x50, 0x56], [0x08u8, 0x00, 0x27], [0x52u8, 0x54, 0x00], [0x00u8, 0x0C, 0x29],
            [0x00u8, 0x1C, 0x42], [0x00u8, 0x15, 0x5D], [0x00u8, 0x16, 0x3E], [0x00u8, 0x1B, 0x21],
            [0x00u8, 0x22, 0x15], [0x00u8, 0x24, 0x81], [0x00u8, 0x26, 0x99], [0x00u8, 0x1E, 0x68],
            [0x00u8, 0x19, 0x99], [0x00u8, 0x1F, 0x3F], [0x00u8, 0x13, 0x02], [0x00u8, 0x18, 0x39]];
        let vendor_ouis = vec![[0x00u8, 0x11, 0x43], [0x00u8, 0x23, 0x12], [0x00u8, 0x25, 0x00], [0x00u8, 0x26, 0x08],
            [0x28u8, 0x18, 0x78], [0x2Cu8, 0x36, 0xF8], [0x00u8, 0x03, 0x93], [0x00u8, 0x05, 0x02],
            [0x00u8, 0x0A, 0x27], [0x00u8, 0x0A, 0x95], [0x00u8, 0x0D, 0x93], [0x00u8, 0x11, 0x24],
            [0x00u8, 0x14, 0x51], [0x00u8, 0x16, 0xCB], [0x00u8, 0x17, 0xF2], [0x00u8, 0x19, 0xE3]];
        assert(common_ouis@ =~= common_oui_list());
        assert(vendor_ouis@ =~= vendor_oui_list());
        OuiDatabase { common_ouis, vendor_ouis }
    }

    /// The OUI two draws pick: the vendor table when the first is below 30
    /// modulo 100, else the common table, at the second modulo its length.
    pub fn oui_from_draws(&self, choice: u32, index: u32) -> (r: [u8; 3])
        requires
            self.wf(),
        ensures
            r == (if choice % 100 < 30 { vendor_oui_list()[(index % 16) as int] } else { common_oui_list()[(index % 16) as int] }),
    {
        if choice % 100 < 30 {
            self.vendor_ouis[(index as usize) % self.vendor_ouis.len()]
        } else {
            self.common_ouis[(index as usize) % self.common_ouis.len()]
        }
    }

    /// An OUI from the vendor table (with probability 30 in 100 of the
    /// first draw) or else the common table, the second draw picking it.
    pub fn get_random_oui<R: RandomGenerator + ?Sized>(&self, rng: &mut R) -> (r: [u8; 3])
        requires
            self.wf(),
        ensures
            common_oui_list().contains(r) || vendor_oui_list().contains(r),
            old(rng).u32_draw() % 100 < 30 ==> vendor_oui_list().contains(r),
            old(rng).u32_draw() % 100 >= 30 ==> common_oui_list().contains(r),
    {
        let choice = rng.next_u32();
        let index = rng.next_u32();
        let r = self.oui_from_draws(choice, index);
        assert(vendor_oui_list()[(index % 16) as int] == r || common_oui_list()[(index % 16) as int] == r);
        r
    }

    /// The common OUI a draw picks: the draw modulo the table's length.
    pub fn common_oui_from_draw(&self, index: u32) -> (r: [u8; 3])
        requires
            self.wf(),
        ensures
            r == common_oui_list()[(index % 16) as int],
    {
        self.common_ouis[(index as usize) % self.common_ouis.len()]
    }

    /// An OUI from the common table: the entry at the generator's next word
    /// modulo the table's length.
    pub fn get_realistic_oui<R: RandomGenerator + ?Sized>(&self, rng: &mut R) -> (r: [u8; 3])
        requires
            self.wf(),
        ensures
            common_oui_list().contains(r),
            r == common_oui_list()[(old(rng).u32_draw() % 16) as int],
            final(rng).state_view() == old(rng).after_u32(),
    {
        let index = rng.next_u32();
        let r = self.common_oui_from_draw(index);
        assert(common_oui_list()[(index % 16) as int] == r);
        r
    }
}

/// Vendor styles of generated addresses.
#[derive(Debug, Clone, Copy, PartialEq, Eq, Structural)]
pub enum VendorPattern {
    Apple,
    Intel,
    Cisco,
    Dell,
    Hp,
}

/// Generator statistics.
#[derive(Debug, Clone, Copy, PartialEq, Eq, Structural)]
pub struct MacGenerationStats {
    pub total_generated: u64,
    pub entropy_health: EntropyHealth,
}

/// The address bears `oui` (flags fixed on its first byte).
pub open spec fn has_oui(m: MacAddr, oui: [u8; 3]) -> bool {
    m.0@[0] == local_unicast(oui@[0]) && m.0@[1] == oui@[1] && m.0@[2] == oui@[2]
}

/// Unicast and locally administered.
pub open spec fn local_flags(m: MacAddr) -> bool {
    m.0@[0] & 0x01 == 0 && m.0@[0] & 0x02 != 0
}

/// Generates MAC addresses from an entropy source.
pub struct MacRandomizer {
    pub oui_db: OuiDatabase,
    pub entropy_source: Box<dyn RandomGenerator>,
    pub generation_counter: u64,
}

impl MacRandomizer {
    /// The OUI tables are intact.
    pub open spec fn wf(&self) -> bool {
        self.oui_db.wf()
    }

    /// A generator drawing from `entropy_source`.
    pub fn new(entropy_source: Box<dyn RandomGenerator>) -> (r: Self)
        ensures
            r.wf(),
            r.generation_counter == 0,
    {
        MacRandomizer { oui_db: OuiDatabase::new(), entropy_source, generation_counter: 0 }
    }

    /// An address with a common OUI.
    pub fn generate_realistic_mac(&mut self) -> (r: MacAddr)
        requires
            old(self).wf(),
            old(self).generation_counter < u64::MAX,
        ensures
            final(self).wf(),
            final(self).generation_counter == old(self).generation_counter + 1,
            local_flags(r),
            exists|o: [u8; 3]| #[trigger] common_oui_list().contains(o) && has_oui(r, o),
            has_oui(r, common_oui_list()[(old(self).entropy_source.u32_draw() % 16) as int]),
    {
        let oui = self.oui_db.get_realistic_oui(&mut *self.entropy_source);
        let r = self.generate_mac_with_oui(oui);
        assert(common_oui_list().contains(oui) && has_oui(r, oui));
        r
    }

    /// An address with a common or vendor OUI.
    pub fn generate_random_mac(&mut self) -> (r: MacAddr)
        requires
            old(self).wf(),
            old(self).generation_counter < u64::MAX,
        ensures
            final(self).wf(),
            final(self).generation_counter == old(self).generation_counter + 1,
            local_flags(r),
            exists|o: [u8; 3]| (#[trigger] common_oui_list().contains(o) || vendor_oui_list().contains(o)) && has_oui(r, o),
            old(self).entropy_source.u32_draw() % 100 < 30 ==> exists|o: [u8; 3]| #[trigger] vendor_oui_list().contains(o)
                && has_oui(r, o),
            old(self).entropy_source.u32_draw() % 100 >= 30 ==> exists|o: [u8; 3]| #[trigger] common_oui_list().contains(o)
                && has_oui(r, o),
    {
        let oui = self.oui_db.get_random_oui(&mut *self.entropy_source);
        let r = self.generate_mac_with_oui(oui);
        assert((common_oui_list().contains(oui) || vendor_oui_list().contains(oui)) && has_oui(r, oui));
        r
    }

    /// Six random bytes with the flags fixed.
    pub fn generate_pure_random_mac(&mut self) -> (r: MacAddr)
        requires
            old(self).wf(),
            old(self).generation_counter < u64::MAX,
        ensures
            final(self).wf(),
            final(self).generation_counter == old(self).generation_counter + 1,
            local_flags(r),
            r.0@[0] == local_unicast(old(self).entropy_source.u8_draw()),
            r.0@[0] == local_unicast(old(self).entropy_source.u8_at(0)),
            forall|i: int| 1 <= i < 6 ==> #[trigger] r.0@[i] == old(self).entropy_source.u8_at(i as nat),
    {
        let b0 = self.entropy_source.next_u8();
        let b1 = self.entropy_source.next_u8();
        let b2 = self.entropy_source.next_u8();
        let b3 = self.entropy_source.next_u8();
        let b4 = self.entropy_source.next_u8();
        let b5 = self.entropy_source.next_u8();
        let m = MacAddr::locally_administered([b0, b1, b2, b3, b4, b5]);
        self.generation_counter = self.generation_counter + 1;
        m
    }

    fn generate_mac_with_oui(&mut self, oui: [u8; 3]) -> (r: MacAddr)
        requires
            old(self).wf(),
            old(self).generation_counter < u64::MAX,
        ensures
            final(self).wf(),
            final(self).generation_counter == old(self).generation_counter + 1,
            local_flags(r),
            has_oui(r, oui),
            r.0@[3] == old(self).entropy_source.u8_at(0),
            r.0@[4] == old(self).entropy_source.u8_at(1),
            r.0@[5] == old(self).entropy_source.u8_at(2),
            forall|i: nat| #[trigger] final(self).entropy_source.u8_at(i) == old(self).entropy_source.u8_at(i + 3),
    {
        let b3 = self.entropy_source.next_u8();
        let b4 = self.entropy_source.next_u8();
        let b5 = self.entropy_source.next_u8();
        let m = MacAddr::locally_administered([oui[0], oui[1], oui[2], b3, b4, b5]);
        self.generation_counter = self.generation_counter + 1;
        m
    }

    /// An address in the style of a vendor: Apple picks one of its OUIs, the
    /// others use their fixed OUI.
    pub fn generate_vendor_style_mac(&mut self, vendor_pattern: VendorPattern) -> (r: MacAddr)
        requires
            old(self).wf(),
            old(self).generation_counter < u64::MAX,
        ensures
            final(self).wf(),
            final(self).generation_counter == old(self).generation_counter + 1,
            local_flags(r),
            vendor_pattern == VendorPattern::Intel ==> has_oui(r, [0x00u8, 0x1B, 0x21]),
            vendor_pattern == VendorPattern::Cisco ==> has_oui(r, [0x00u8, 0x22, 0x15]),
            vendor_pattern == VendorPattern::Dell ==> has_oui(r, [0x00u8, 0x26, 0x99]),
            vendor_pattern == VendorPattern::Hp ==> has_oui(r, [0x00u8, 0x24, 0x81]),
            vendor_pattern == VendorPattern::Apple ==> has_oui(r, vendor_oui_list()[(old(self).entropy_source.u32_draw()
                % 16) as int]),
            vendor_pattern == VendorPattern::Intel ==> r.0@.take(3) == seq![0x02u8, 0x1B, 0x21],
            vendor_pattern == VendorPattern::Cisco ==> r.0@.take(3) == seq![0x02u8, 0x22, 0x15],
            vendor_pattern == VendorPattern::Dell ==> r.0@.take(3) == seq![0x02u8, 0x26, 0x99],
            vendor_pattern == VendorPattern::Hp ==> r.0@.take(3) == seq![0x02u8, 0x24, 0x81],
    {
        proof {
            assert(local_unicast(0x00u8) == 0x02u8) by (bit_vector);
        }
        match vendor_pattern {
            VendorPattern::Apple => {
                let draw = self.entropy_source.next_u32();
                let index = (draw as usize) % 16;
                let oui = self.oui_db.vendor_ouis[index];
                assert(vendor_oui_list()[(draw % 16) as int] == oui);
                self.generate_mac_with_oui(oui)
            },
            VendorPattern::Intel => self.generate_mac_with_oui([0x00, 0x1B, 0x21]),
            VendorPattern::Cisco => self.generate_mac_with_oui([0x00, 0x22, 0x15]),
            VendorPattern::Dell => self.generate_mac_with_oui([0x00, 0x26, 0x99]),
            VendorPattern::Hp => self.generate_mac_with_oui([0x00, 0x24, 0x81]),
        }
    }

    /// Addresses generated so far and the source's health.
    pub fn get_stats(&self) -> (r: MacGenerationStats)
        ensures
            r.total_generated == self.generation_counter,
    {
        MacGenerationStats { total_generated: self.generation_counter, entropy_health: self.entropy_source.health_check() }
    }
}

/// Number of set bits.
pub open spec fn ones(x: u64) -> nat
    decreases x,
{
    if x == 0 {
        0
    } else {
        (x % 2) as nat + ones(x / 2)
    }
}

proof fn lemma_ones_le(x: u64, k: nat)
    requires
        x < pow2(k),
    ensures
        ones(x) <= k,
    decreases k,
{
    if x > 0 {
        if k == 0 {
            lemma2_to64();
            assert(false);
        }
        lemma_pow2_unfold(k);
        lemma_ones_le(x / 2, (k - 1) as nat);
    }
}

/// Number of set bits of `x`.
pub fn count_ones(x: u64) -> (r: u32)
    ensures
        r == ones(x),
        r <= 64,
{
    proof {
        lemma2_to64();
        lemma_ones_le(x, 64);
    }
    let mut y = x;
    let mut c: u32 = 0;
    while y != 0
        invariant
            c + ones(y) == ones(x),
            ones(x) <= 64,
        decreases y,
    {
        proof {
            assert(y & 1 == y % 2 && y >> 1u64 == y / 2) by (bit_vector);
        }
        c = c + (y & 1) as u32;
        y = y >> 1u64;
    }
    c
}

/// The four words a reseed mixes in.
#[derive(Debug, Clone, Copy, PartialEq, Eq, Structural)]
pub struct EntropySample {
    pub tsc: u64,
    pub stack_addr: u64,
    pub heap_entropy: u64,
    pub timing_entropy: u64,
    pub hw_random: u64,
}

/// The splitmix-style finaliser applied to each state word.
pub open spec fn mix_word(w: u64) -> u64 {
    let a = (w as int * 0x9E3779B97F4A7C15) % 0x1_0000_0000_0000_0000;
    let a1 = (a as u64) ^ ((a as u64) >> 30u64);
    let b = (a1 as int * 0xBF58476D1CE4E5B9) % 0x1_0000_0000_0000_0000;
    let b1 = (b as u64) ^ ((b as u64) >> 27u64);
    let c = (b1 as int * 0x94D049BB133111EB) % 0x1_0000_0000_0000_0000;
    (c as u64) ^ ((c as u64) >> 31u64)
}

/// Finalises one state word.
pub fn mix_one(w: u64) -> (r: u64)
    ensures
        r == mix_word(w),
{
    let a = w.wrapping_mul(0x9E3779B97F4A7C15);
    let a1 = a ^ (a >> 30u64);
    let b = a1.wrapping_mul(0xBF58476D1CE4E5B9);
    let b1 = b ^ (b >> 27u64);
    let c = b1.wrapping_mul(0x94D049BB133111EB);
    c ^ (c >> 31u64)
}

/// Entropy pool fed from hardware samples, drawn by xorshift.
pub struct SystemEntropy {
    pub state: [u64; 4],
    pub counter: u64,
    pub cycles_since_init: u64,
}

impl SystemEntropy {
    /// A pool seeded from `sample`.
    pub fn new(sample: EntropySample) -> (r: Self)
        ensures
            r.counter == 1,
            r.cycles_since_init == 0,
    {
        let mut e = SystemEntropy { state: [0, 0, 0, 0], counter: 0, cycles_since_init: 0 };
        e.reseed(sample);
        e
    }

    /// Mixes a sample into the state, finalises every word three times and
    /// counts the reseed.
    pub fn reseed(&mut self, sample: EntropySample)
        ensures
            final(self).counter == old(self).counter.wrapping_add(1),
            final(self).cycles_since_init == old(self).cycles_since_init,
    {
        let s0 = self.state[0] ^ sample.tsc.wrapping_add(self.counter);
        let s1 = self.state[1] ^ sample.stack_addr.wrapping_add(sample.timing_entropy);
        let s2 = self.state[2] ^ sample.heap_entropy.wrapping_add(sample.hw_random);
        let s3 = self.state[3] ^ (sample.tsc >> 32u64).wrapping_add(sample.stack_addr >> 16u64);
        self.state = [s0, s1, s2, s3];
        self.mix_state();
        self.mix_state();
        self.mix_state();
        self.counter = self.counter.wrapping_add(1);
    }

    /// Finalises every state word once.
    pub fn mix_state(&mut self)
        ensures
            final(self).state@ == old(self).state@.map_values(|w: u64| mix_word(w)),
            final(self).counter == old(self).counter,
            final(self).cycles_since_init == old(self).cycles_since_init,
    {
        let s = self.state;
        self.state = [mix_one(s[0]), mix_one(s[1]), mix_one(s[2]), mix_one(s[3])];
        assert(self.state@ =~= old(self).state@.map_values(|w: u64| mix_word(w)));
    }

    /// One xorshift draw from the first word; the words rotate, and every
    /// thousandth draw reseeds from `sample`.
    pub fn xorshift(&mut self, sample: EntropySample) -> (r: u64)
        ensures
            r == crate::privacy_core::xorshift_step(old(self).state@[0]),
            final(self).cycles_since_init == old(self).cycles_since_init.wrapping_add(1),
    {
        let mut x = self.state[0];
        x = x ^ (x << 13u64);
        x = x ^ (x >> 7u64);
        x = x ^ (x << 17u64);
        let s = self.state;
        self.state = [s[1], s[2], s[3], x];
        self.cycles_since_init = self.cycles_since_init.wrapping_add(1);
        if self.cycles_since_init % 1000 == 0 {
            self.reseed(sample);
        }
        x
    }

    /// Health from the number of set bits over the state.
    pub fn health_check(&self) -> (r: EntropyHealth)
        ensures
            ({
                let d = ones(self.state@[0]) + ones(self.state@[1]) + ones(self.state@[2]) + ones(self.state@[3]);
                r == (if d >= 200 { EntropyHealth::Excellent } else if d >= 150 { EntropyHealth::Good }
                    else if d >= 100 { EntropyHealth::Fair } else if d >= 50 { EntropyHealth::Poor }
                    else { EntropyHealth::Critical })
            }),
    {
        let d = count_ones(self.state[0]) + count_ones(self.state[1]) + count_ones(self.state[2]) + count_ones(self.state[3]);
        if d >= 200 {
            EntropyHealth::Excellent
        } else if d >= 150 {
            EntropyHealth::Good
        } else if d >= 100 {
            EntropyHealth::Fair
        } else if d >= 50 {
            EntropyHealth::Poor
        } else {
            EntropyHealth::Critical
        }
    }
}

/// One step of the linear congruential generator.
pub open spec fn lcg_step(x: u64) -> u64 {
    ((x as int * 1664525 + 1013904223) % 0x1_0000_0000_0000_0000) as u64
}

/// The state after `k` steps of the generator from `x`.
#[verifier::opaque]
pub open spec fn lcg_iter(x: u64, k: nat) -> u64
    decreases k,
{
    if k == 0 {
        x
    } else {
        lcg_iter(lcg_step(x), (k - 1) as nat)
    }
}

/// A linear congruential generator.
pub struct SimpleRng {
    pub state: u64,
}

impl SimpleRng {
    /// Seeds the generator; a zero seed becomes one.
    pub fn new(seed: u64) -> (r: Self)
        ensures
            r.state == (if seed == 0 { 1 } else { seed }),
    {
        SimpleRng { state: if seed == 0 { 1 } else { seed } }
    }

    /// Advances the generator.
    pub fn step(&mut self) -> (r: u64)
        ensures
            r == lcg_step(old(self).state),
            final(self).state == r,
    {
        self.state = self.state.wrapping_mul(1664525).wrapping_add(1013904223);
        self.state
    }
}

impl RandomGenerator for SimpleRng {
    open spec fn u8_draw(&self) -> u8 {
        lcg_step(self.state) as u8
    }

    open spec fn u32_draw(&self) -> u32 {
        lcg_step(self.state) as u32
    }

    open spec fn u64_draw(&self) -> u64 {
        lcg_step(self.state)
    }

    open spec fn state_view(&self) -> int {
        self.state as int
    }

    open spec fn after_u8(&self) -> int {
        lcg_step(self.state) as int
    }

    open spec fn after_u32(&self) -> int {
        lcg_step(self.state) as int
    }

    open spec fn after_u64(&self) -> int {
        lcg_step(self.state) as int
    }

    open spec fn u8_at(&self, i: nat) -> u8 {
        lcg_iter(self.state, i + 1) as u8
    }

    /// The low byte of the next state.
    fn next_u8(&mut self) -> (r: u8)
        ensures
            r == lcg_step(old(self).state) as u8,
            final(self).state == lcg_step(old(self).state),
    {
        let x = self.next_u32();
        proof {
            let s = lcg_step(old(self).state);
            assert((x & 0xFFu32) as u8 == s as u8) by (bit_vector)
                requires x == s as u32;
            reveal_with_fuel(lcg_iter, 2);
            assert forall|i: nat| #[trigger] self.u8_at(i) == old(self).u8_at(i + 1) by {
                assert(lcg_iter(old(self).state, (i + 2) as nat) == lcg_iter(s, (i + 1) as nat));
            }
        }
        (x & 0xFF) as u8
    }

    /// The low 32 bits of the next state.
    fn next_u32(&mut self) -> (r: u32)
        ensures
            r == lcg_step(old(self).state) as u32,
            final(self).state == lcg_step(old(self).state),
    {
        let x = self.step();
        proof {
            assert((x & 0xFFFFFFFFu64) as u32 == x as u32) by (bit_vector);
        }
        (x & 0xFFFFFFFF) as u32
    }

    /// The next state.
    fn next_u64(&mut self) -> (r: u64)
        ensures
            r == lcg_step(old(self).state),
            final(self).state == lcg_step(old(self).state),
    {
        self.step()
    }

    /// A fixed middling rating.
    fn health_check(&self) -> (r: EntropyHealth)
        ensures
            r == EntropyHealth::Fair,
    {
        EntropyHealth::Fair
    }
}

} // verus!
