//! The privacy core: MAC address spoofing, IP randomisation, Tor routing
//! and packet filtering.



pub mod mac_spoofing;
pub mod network_hooks;
pub mod ip_randomization;
pub mod oui;

use vstd::prelude::*;
use crate::text::{push_char, push_dec, digit_char, hex_digit, dec};

verus! {

/// Errors of the privacy services.
#[derive(Debug, Clone, Copy, PartialEq, Eq, Structural)]
pub enum IronVeilError {
    OutOfMemory,
    InvalidAddress,
    TaskNotFound,
    NetworkError,
    PrivacyViolation,
    HardwareError,
    InterfaceNotFound,
    InvalidMacAddress,
    TorConnectionFailed,
    InvalidPacket,
    PermissionDenied,
    OperationFailed,
    TorNotAvailable,
    InvalidIpAddress,
}

impl IronVeilError {
    /// The error's message.
    pub fn message(&self) -> (r: &'static str)
        ensures
            *self == IronVeilError::InvalidMacAddress ==> r@ == "Invalid MAC address"@,
            *self == IronVeilError::InterfaceNotFound ==> r@ == "Network interface not found"@,
    {
        match self {
            IronVeilError::OutOfMemory => "Out of memory",
            IronVeilError::InvalidAddress => "Invalid address",
            IronVeilError::TaskNotFound => "Task not found",
            IronVeilError::NetworkError => "Network error",
            IronVeilError::PrivacyViolation => "Privacy violation detected",
            IronVeilError::HardwareError => "Hardware error",
            IronVeilError::InterfaceNotFound => "Network interface not found",
            IronVeilError::InvalidMacAddress => "Invalid MAC address",
            IronVeilError::TorConnectionFailed => "Tor connection failed",
            IronVeilError::InvalidPacket => "Invalid packet format",
            IronVeilError::PermissionDenied => "Permission denied",
            IronVeilError::OperationFailed => "Operation failed",
            IronVeilError::TorNotAvailable => "Tor not available",
            IronVeilError::InvalidIpAddress => "Invalid IP address",
        }
    }
}

/// Result of a privacy operation.
pub type Result<T> = core::result::Result<T, IronVeilError>;

/// A MAC address.
#[derive(Copy, Clone, Debug, PartialEq, Eq, Hash)]
pub struct MacAddr(pub [u8; 6]);

/// Two lower-case hexadecimal digits of a byte.
pub open spec fn hex2(b: u8) -> Seq<char> {
    seq![hex_digit((b / 16) as int), hex_digit((b % 16) as int)]
}

/// `aa:bb:cc:dd:ee:ff`.
pub open spec fn mac_text(m: [u8; 6]) -> Seq<char> {
    hex2(m@[0]) + seq![':'] + hex2(m@[1]) + seq![':'] + hex2(m@[2]) + seq![':'] + hex2(m@[3]) + seq![':']
        + hex2(m@[4]) + seq![':'] + hex2(m@[5])
}

/// Appends two lower-case hexadecimal digits.
pub fn push_hex2(s: &mut String, b: u8)
    ensures
        final(s)@ == old(s)@ + hex2(b),
{
    push_char(s, digit_char((b / 16) as u64));
    push_char(s, digit_char((b % 16) as u64));
    assert(s@ =~= old(s)@ + hex2(b));
}

/// The byte with bit 0 cleared and bit 1 set.
pub open spec fn local_unicast(b: u8) -> u8 {
    (b & 0xFE) | 0x02
}

impl MacAddr {
    /// The address with the given bytes.
    pub fn new(bytes: [u8; 6]) -> (r: Self)
        ensures
            r.0 == bytes,
    {
        MacAddr(bytes)
    }

    /// An address from exactly six bytes.
    pub fn from_slice(slice: &[u8]) -> (r: Result<Self>)
        ensures
            slice@.len() != 6 ==> r == Err::<MacAddr, IronVeilError>(IronVeilError::InvalidMacAddress),
            slice@.len() == 6 ==> (r matches Ok(m) && m.0@ == slice@),
    {
        if slice.len() != 6 {
            return Err(IronVeilError::InvalidMacAddress);
        }
        let bytes = [slice[0], slice[1], slice[2], slice[3], slice[4], slice[5]];
        assert(bytes@ =~= slice@);
        Ok(MacAddr(bytes))
    }

    /// The six bytes.
    pub fn as_bytes(&self) -> (r: &[u8; 6])
        ensures
            *r == self.0,
    {
        &self.0
    }

    /// Group address: bit 0 of the first byte.
    pub fn is_multicast(&self) -> (r: bool)
        ensures
            r == (self.0@[0] & 0x01 != 0),
    {
        (self.0[0] & 0x01) != 0
    }

    /// Locally administered: bit 1 of the first byte.
    pub fn is_locally_administered(&self) -> (r: bool)
        ensures
            r == (self.0@[0] & 0x02 != 0),
    {
        (self.0[0] & 0x02) != 0
    }

    /// All ones.
    pub fn is_broadcast(&self) -> (r: bool)
        ensures
            r == (forall|i: int| 0 <= i < 6 ==> self.0@[i] == 0xFF),
    {
        let r = self.0[0] == 0xFF && self.0[1] == 0xFF && self.0[2] == 0xFF && self.0[3] == 0xFF
            && self.0[4] == 0xFF && self.0[5] == 0xFF;
        proof {
            if !r {
                if self.0@[0] != 0xFF { assert(!(forall|i: int| 0 <= i < 6 ==> self.0@[i] == 0xFF)); }
            }
        }
        r
    }

    /// All zeros.
    pub fn is_zero(&self) -> (r: bool)
        ensures
            r == (forall|i: int| 0 <= i < 6 ==> self.0@[i] == 0),
    {
        self.0[0] == 0 && self.0[1] == 0 && self.0[2] == 0 && self.0[3] == 0 && self.0[4] == 0 && self.0[5] == 0
    }

    /// The address made unicast and locally administered.
    pub fn locally_administered(bytes: [u8; 6]) -> (r: Self)
        ensures
            r.0@ == bytes@.update(0, local_unicast(bytes@[0])),
            r.0@[0] & 0x01 == 0,
            r.0@[0] & 0x02 != 0,
    {
        let mut b = bytes;
        b[0] = (b[0] & 0xFE) | 0x02;
        proof {
            let x = bytes@[0];
            assert(((x & 0xFE) | 0x02) & 0x01 == 0 && ((x & 0xFE) | 0x02) & 0x02 != 0) by (bit_vector);
        }
        assert(b@ =~= bytes@.update(0, local_unicast(bytes@[0])));
        MacAddr(b)
    }

    /// `aa:bb:cc:dd:ee:ff` in lower-case hexadecimal.
    pub fn to_string(&self) -> (r: String)
        ensures
            r@ == mac_text(self.0),
    {
        let mut s = String::new();
        push_hex2(&mut s, self.0[0]);
        push_char(&mut s, ':');
        push_hex2(&mut s, self.0[1]);
        push_char(&mut s, ':');
        push_hex2(&mut s, self.0[2]);
        push_char(&mut s, ':');
        push_hex2(&mut s, self.0[3]);
        push_char(&mut s, ':');
        push_hex2(&mut s, self.0[4]);
        push_char(&mut s, ':');
        push_hex2(&mut s, self.0[5]);
        assert(s@ =~= mac_text(self.0));
        s
    }
}

/// An IPv4 address.
#[derive(Copy, Clone, Debug, PartialEq, Eq, Hash)]
pub struct Ipv4Addr(pub [u8; 4]);

/// `a.b.c.d` in decimal.
pub open spec fn ipv4_text(a: [u8; 4]) -> Seq<char> {
    dec(a@[0] as nat) + seq!['.'] + dec(a@[1] as nat) + seq!['.'] + dec(a@[2] as nat) + seq!['.'] + dec(a@[3] as nat)
}

/// RFC 1918 private ranges.
pub open spec fn private_ip(a: [u8; 4]) -> bool {
    a@[0] == 10 || (a@[0] == 172 && 16 <= a@[1] <= 31) || (a@[0] == 192 && a@[1] == 168)
}

impl Ipv4Addr {
    /// The address `a.b.c.d`.
    pub fn new(a: u8, b: u8, c: u8, d: u8) -> (r: Self)
        ensures
            r.0@ == seq![a, b, c, d],
    {
        let r = Ipv4Addr([a, b, c, d]);
        assert(r.0@ =~= seq![a, b, c, d]);
        r
    }

    /// The address with the given bytes.
    pub fn from_bytes(bytes: [u8; 4]) -> (r: Self)
        ensures
            r.0 == bytes,
    {
        Ipv4Addr(bytes)
    }

    /// The four bytes.
    pub fn as_bytes(&self) -> (r: &[u8; 4])
        ensures
            *r == self.0,
    {
        &self.0
    }

    /// In 10/8, 172.16/12 or 192.168/16.
    pub fn is_private(&self) -> (r: bool)
        ensures
            r == private_ip(self.0),
    {
        match self.0[0] {
            10 => true,
            172 => self.0[1] >= 16 && self.0[1] <= 31,
            192 => self.0[1] == 168,
            _ => false,
        }
    }

    /// In 127/8.
    pub fn is_loopback(&self) -> (r: bool)
        ensures
            r == (self.0@[0] == 127),
    {
        self.0[0] == 127
    }

    /// `a.b.c.d`.
    pub fn to_string(&self) -> (r: String)
        ensures
            r@ == ipv4_text(self.0),
    {
        let mut s = String::new();
        push_dec(&mut s, self.0[0] as u64);
        push_char(&mut s, '.');
        push_dec(&mut s, self.0[1] as u64);
        push_char(&mut s, '.');
        push_dec(&mut s, self.0[2] as u64);
        push_char(&mut s, '.');
        push_dec(&mut s, self.0[3] as u64);
        assert(s@ =~= ipv4_text(self.0));
        s
    }
}

/// State of the Tor service.
#[derive(Debug, Clone, Copy, PartialEq, Eq, Structural)]
pub enum TorStatus {
    Stopped,
    Starting,
    Running,
    Error,
}

impl TorStatus {
    /// The status's name.
    pub fn as_str(&self) -> (r: &'static str)
        ensures
            *self == TorStatus::Running ==> r@ == "Running"@,
            *self == TorStatus::Stopped ==> r@ == "Stopped"@,
    {
        match self {
            TorStatus::Stopped => "Stopped",
            TorStatus::Starting => "Starting",
            TorStatus::Running => "Running",
            TorStatus::Error => "Error",
        }
    }
}

/// Privacy settings.
#[derive(Debug, Clone, Copy, PartialEq, Eq, Structural)]
pub struct PrivacyConfig {
    pub mac_randomization_enabled: bool,
    pub tor_enabled: bool,
    pub packet_filtering_enabled: bool,
    pub dns_over_tor: bool,
    pub block_ipv6: bool,
    pub randomize_mac_on_boot: bool,
}

/// The default settings: MAC randomisation, packet filtering, IPv6 blocking
/// and randomisation at boot on; Tor and DNS over Tor off.
pub open spec fn default_privacy_config() -> PrivacyConfig {
    PrivacyConfig {
        mac_randomization_enabled: true,
        tor_enabled: false,
        packet_filtering_enabled: true,
        dns_over_tor: false,
        block_ipv6: true,
        randomize_mac_on_boot: true,
    }
}

impl Default for PrivacyConfig {
    fn default() -> (r: Self)
        ensures
            r == default_privacy_config(),
    {
        PrivacyConfig {
            mac_randomization_enabled: true,
            tor_enabled: false,
            packet_filtering_enabled: true,
            dns_over_tor: false,
            block_ipv6: true,
            randomize_mac_on_boot: true,
        }
    }
}

/// Current privacy state.
#[derive(Debug, Clone, Copy, PartialEq, Eq)]
pub struct PrivacyStatus {
    pub mac_randomized: bool,
    pub current_mac: Option<MacAddr>,
    pub tor_status: TorStatus,
    pub packets_filtered: u64,
    pub privacy_violations_detected: u64,
    pub last_mac_change: Option<u64>,
}

impl Default for PrivacyStatus {
    fn default() -> (r: Self)
        ensures
            !r.mac_randomized && r.current_mac is None && r.tor_status == TorStatus::Stopped
                && r.packets_filtered == 0 && r.privacy_violations_detected == 0 && r.last_mac_change is None,
    {
        PrivacyStatus {
            mac_randomized: false,
            current_mac: None,
            tor_status: TorStatus::Stopped,
            packets_filtered: 0,
            privacy_violations_detected: 0,
            last_mac_change: None,
        }
    }
}

/// A source of random numbers: each draw takes the next word of its
/// output, and a narrower draw gives the word's low bits.
pub trait RandomGenerator {
    /// The word the `i`-th of successive draws from this state takes (the
    /// next draw is the 0-th).
    spec fn word_at(&self, i: nat) -> u64;

    fn next_u8(&mut self) -> (r: u8)
        ensures
            r == old(self).word_at(0) as u8,
            forall|i: nat| #[trigger] final(self).word_at(i) == old(self).word_at(i + 1),
    ;

    fn next_u32(&mut self) -> (r: u32)
        ensures
            r == old(self).word_at(0) as u32,
            forall|i: nat| #[trigger] final(self).word_at(i) == old(self).word_at(i + 1),
    ;

    fn next_u64(&mut self) -> (r: u64)
        ensures
            r == old(self).word_at(0),
            forall|i: nat| #[trigger] final(self).word_at(i) == old(self).word_at(i + 1),
    ;
}

/// The state after `k` xorshift64 steps from `x`.
#[verifier::opaque]
pub open spec fn xorshift_iter(x: u64, k: nat) -> u64
    decreases k,
{
    if k == 0 {
        x
    } else {
        xorshift_iter(xorshift_step(x), (k - 1) as nat)
    }
}

/// One xorshift64 step (shifts 13, 7, 17).
pub open spec fn xorshift_step(x: u64) -> u64 {
    let a = x ^ (x << 13u64);
    let b = a ^ (a >> 7u64);
    b ^ (b << 17u64)
}

/// The xorshift64 generator.
pub struct XorShiftRng {
    pub state: u64,
}

impl XorShiftRng {
    /// Seeds the generator; a zero seed becomes one.
    pub fn new(seed: u64) -> (r: Self)
        ensures
            r.state == (if seed == 0 { 1 } else { seed }),
    {
        XorShiftRng { state: if seed == 0 { 1 } else { seed } }
    }

    /// Advances the generator and returns the new state.
    pub fn step(&mut self) -> (r: u64)
        ensures
            r == xorshift_step(old(self).state),
            final(self).state == r,
    {
        let mut x = self.state;
        x = x ^ (x << 13u64);
        x = x ^ (x >> 7u64);
        x = x ^ (x << 17u64);
        self.state = x;
        x
    }
}

/// Each word of the generator's output is the next state.
proof fn lemma_xorshift_words(g0: XorShiftRng, g1: XorShiftRng)
    requires
        g1.state == xorshift_step(g0.state),
    ensures
        g0.word_at(0) == xorshift_step(g0.state),
        forall|i: nat| #[trigger] g1.word_at(i) == g0.word_at(i + 1),
{
    reveal_with_fuel(xorshift_iter, 2);
    assert forall|i: nat| #[trigger] g1.word_at(i) == g0.word_at(i + 1) by {
        assert(xorshift_iter(g0.state, (i + 2) as nat) == xorshift_iter(g1.state, (i + 1) as nat));
    }
}

impl RandomGenerator for XorShiftRng {
    open spec fn word_at(&self, i: nat) -> u64 {
        xorshift_iter(self.state, i + 1)
    }

    /// The next state.
    fn next_u64(&mut self) -> (r: u64)
        ensures
            r == xorshift_step(old(self).state),
            final(self).state == xorshift_step(old(self).state),
    {
        let r = self.step();
        proof {
            lemma_xorshift_words(*old(self), *self);
        }
        r
    }

    /// The low 32 bits of the next state.
    fn next_u32(&mut self) -> (r: u32)
        ensures
            r == xorshift_step(old(self).state) as u32,
            final(self).state == xorshift_step(old(self).state),
    {
        let r = self.step() as u32;
        proof {
            lemma_xorshift_words(*old(self), *self);
        }
        r
    }

    /// The low byte of the next state.
    fn next_u8(&mut self) -> (r: u8)
        ensures
            r == xorshift_step(old(self).state) as u8,
            final(self).state == xorshift_step(old(self).state),
    {
        let r = self.step() as u8;
        proof {
            lemma_xorshift_words(*old(self), *self);
        }
        r
    }
}

/// Requests to the privacy services.
#[derive(Debug, Clone)]
pub enum PrivacyCommand {
    RandomizeMac { interface: String },
    StartTor,
    StopTor,
    EnablePacketFiltering,
    DisablePacketFiltering,
    SetMacAddress { interface: String, mac: MacAddr },
    BlockDomain { domain: String },
    AllowDomain { domain: String },
}

/// Notifications from the privacy services.
#[derive(Debug, Clone)]
pub enum StatusUpdate {
    MacRandomized { interface: String, new_mac: MacAddr },
    TorStatusChanged { status: TorStatus },
    PacketFiltered { reason: String },
    PrivacyViolationDetected { description: String },
    InterfaceStateChanged { interface: String, state: String },
}

/// Initialises the privacy core.
pub fn init() -> (r: Result<()>)
    ensures
        r is Ok,
{
    Ok(())
}

/// The default privacy settings.
pub fn default_config() -> (r: PrivacyConfig)
    ensures
        r == default_privacy_config(),
{
    PrivacyConfig::default()
}

/// The low bytes of the first six states of a xorshift generator seeded
/// with `seed`.
pub open spec fn xorshift_bytes(seed: u64) -> Seq<u8> {
    let s1 = xorshift_step(if seed == 0 { 1 } else { seed });
    let s2 = xorshift_step(s1);
    let s3 = xorshift_step(s2);
    let s4 = xorshift_step(s3);
    let s5 = xorshift_step(s4);
    let s6 = xorshift_step(s5);
    seq![s1 as u8, s2 as u8, s3 as u8, s4 as u8, s5 as u8, s6 as u8]
}

/// A random locally administered unicast address from a generator seeded
/// with `seed`: six bytes, the first with its flags fixed.
pub fn generate_secure_mac(seed: u64) -> (r: MacAddr)
    ensures
        r.0@ == xorshift_bytes(seed).update(0, local_unicast(xorshift_bytes(seed)[0])),
        r.0@[0] & 0x01 == 0,
        r.0@[0] & 0x02 != 0,
{
    let mut rng = XorShiftRng::new(seed);
    let b0 = rng.next_u8();
    let b1 = rng.next_u8();
    let b2 = rng.next_u8();
    let b3 = rng.next_u8();
    let b4 = rng.next_u8();
    let b5 = rng.next_u8();
    let bytes = [b0, b1, b2, b3, b4, b5];
    assert(bytes@ =~= xorshift_bytes(seed));
    MacAddr::locally_administered(bytes)
}

/// A MAC is usable when it is unicast and not all zeros.
pub fn validate_mac(mac: &MacAddr) -> (r: Result<()>)
    ensures
        r is Ok <==> (mac.0@[0] & 0x01 == 0 && !(forall|i: int| 0 <= i < 6 ==> mac.0@[i] == 0)),
        r is Err ==> r == Err::<(), IronVeilError>(IronVeilError::InvalidMacAddress),
{
    if mac.is_multicast() {
        return Err(IronVeilError::InvalidMacAddress);
    }
    if mac.is_zero() {
        return Err(IronVeilError::InvalidMacAddress);
    }
    Ok(())
}

/// Making an address locally administered gives a unicast, locally
/// administered address, and doing it again changes nothing.
pub proof fn law_locally_administered(b: u8)
    ensures
        local_unicast(b) & 0x01 == 0,
        local_unicast(b) & 0x02 != 0,
        local_unicast(local_unicast(b)) == local_unicast(b),
        b & 0x01 == 0 && b & 0x02 != 0 ==> local_unicast(b) == b,
{
    assert(((b & 0xFE) | 0x02) & 0x01 == 0) by (bit_vector);
    assert(((b & 0xFE) | 0x02) & 0x02 != 0) by (bit_vector);
    assert((((b & 0xFE) | 0x02) & 0xFE) | 0x02 == (b & 0xFE) | 0x02) by (bit_vector);
    assert(b & 0x01 == 0 && b & 0x02 != 0 ==> (b & 0xFE) | 0x02 == b) by (bit_vector);
}

} // verus!
