//! Packet inspection hooks and the packet metadata parser.
pub mod interface_manager;

use vstd::prelude::*;
use crate::privacy_core::{IronVeilError, Result, MacAddr, Ipv4Addr, XorShiftRng, RandomGenerator, xorshift_step};
use crate::privacy_core::oui::generate_realistic_mac;

verus! {

/// What to do with a packet.
#[derive(Debug, Clone, Copy, PartialEq, Eq, Structural)]
pub enum PacketAction {
    Allow,
    Block,
    Modify,
    Drop,
}

/// Direction of a packet.
#[derive(Debug, Clone, Copy, PartialEq, Eq, Structural)]
pub enum PacketDirection {
    Outgoing,
    Incoming,
}

/// Transport protocol.
#[derive(Debug, Clone, Copy, PartialEq, Eq, Structural)]
pub enum Protocol {
    Tcp,
    Udp,
    Icmp,
    Arp,
    Unknown(u8),
}

/// The protocol of an IPv4 protocol number.
pub open spec fn protocol_of(value: u8) -> Protocol {
    if value == 6 {
        Protocol::Tcp
    } else if value == 17 {
        Protocol::Udp
    } else if value == 1 {
        Protocol::Icmp
    } else {
        Protocol::Unknown(value)
    }
}

impl Protocol {
    /// The protocol of an IPv4 protocol number.
    pub fn from_number(value: u8) -> (r: Protocol)
        ensures
            r == protocol_of(value),
    {
        match value {
            6 => Protocol::Tcp,
            17 => Protocol::Udp,
            1 => Protocol::Icmp,
            _ => Protocol::Unknown(value),
        }
    }
}

/// What the parser learned of a packet.
#[derive(Debug, Clone, Copy, PartialEq, Eq)]
pub struct PacketMetadata {
    pub direction: PacketDirection,
    pub protocol: Protocol,
    pub src_mac: Option<MacAddr>,
    pub dst_mac: Option<MacAddr>,
    pub src_ip: Option<Ipv4Addr>,
    pub dst_ip: Option<Ipv4Addr>,
    pub src_port: Option<u16>,
    pub dst_port: Option<u16>,
    pub packet_size: usize,
}

/// A big-endian 16-bit value.
pub open spec fn be16(hi: u8, lo: u8) -> u16 {
    (hi as int * 256 + lo as int) as u16
}

/// Reads a big-endian 16-bit value.
pub fn read_be16(hi: u8, lo: u8) -> (r: u16)
    ensures
        r == be16(hi, lo),
{
    (hi as u16) * 256 + (lo as u16)
}

/// Six bytes of `p` from `at` as an address.
pub open spec fn mac_at(p: Seq<u8>, at: int) -> MacAddr {
    MacAddr([p[at], p[at + 1], p[at + 2], p[at + 3], p[at + 4], p[at + 5]])
}

/// Four bytes of `p` from `at` as an address.
pub open spec fn ip_at(p: Seq<u8>, at: int) -> Ipv4Addr {
    Ipv4Addr([p[at], p[at + 1], p[at + 2], p[at + 3]])
}

/// The metadata of an Ethernet frame: the MAC addresses when the header is
/// there; for IPv4 (ethertype 0x0800, at least 34 bytes) the protocol and
/// IP addresses; for TCP and UDP also the ports, when the header length
/// (IHL) leaves four bytes for them.
pub open spec fn packet_metadata(p: Seq<u8>, direction: PacketDirection) -> PacketMetadata {
    let base = PacketMetadata {
        direction,
        protocol: Protocol::Unknown(0),
        src_mac: None,
        dst_mac: None,
        src_ip: None,
        dst_ip: None,
        src_port: None,
        dst_port: None,
        packet_size: p.len() as usize,
    };
    if p.len() < 14 {
        base
    } else {
        let with_mac = PacketMetadata { dst_mac: Some(mac_at(p, 0)), src_mac: Some(mac_at(p, 6)), ..base };
        if be16(p[12], p[13]) == 0x0800 && p.len() >= 34 {
            let proto = protocol_of(p[23]);
            let ihl = (p[14] % 16) * 4;
            let with_ip = PacketMetadata {
                protocol: proto,
                src_ip: Some(ip_at(p, 26)),
                dst_ip: Some(ip_at(p, 30)),
                ..with_mac
            };
            if p.len() - 14 >= ihl + 4 && (proto == Protocol::Tcp || proto == Protocol::Udp) {
                PacketMetadata {
                    src_port: Some(be16(p[14 + ihl], p[15 + ihl])),
                    dst_port: Some(be16(p[16 + ihl], p[17 + ihl])),
                    ..with_ip
                }
            } else {
                with_ip
            }
        } else {
            with_mac
        }
    }
}

/// Parses the Ethernet, IPv4 and TCP/UDP headers of a frame.
pub fn parse_packet_metadata(packet: &[u8], direction: PacketDirection) -> (r: PacketMetadata)
    ensures
        r == packet_metadata(packet@, direction),
{
    let mut metadata = PacketMetadata {
        direction,
        protocol: Protocol::Unknown(0),
        src_mac: None,
        dst_mac: None,
        src_ip: None,
        dst_ip: None,
        src_port: None,
        dst_port: None,
        packet_size: packet.len(),
    };
    if packet.len() >= 14 {
        let dst_mac = [packet[0], packet[1], packet[2], packet[3], packet[4], packet[5]];
        let src_mac = [packet[6], packet[7], packet[8], packet[9], packet[10], packet[11]];
        metadata.dst_mac = Some(MacAddr::new(dst_mac));
        metadata.src_mac = Some(MacAddr::new(src_mac));
        let ethertype = read_be16(packet[12], packet[13]);
        if ethertype == 0x0800 && packet.len() >= 34 {
            metadata.protocol = Protocol::from_number(packet[14 + 9]);
            let src_ip = [packet[14 + 12], packet[14 + 13], packet[14 + 14], packet[14 + 15]];
            let dst_ip = [packet[14 + 16], packet[14 + 17], packet[14 + 18], packet[14 + 19]];
            metadata.src_ip = Some(Ipv4Addr::from_bytes(src_ip));
            metadata.dst_ip = Some(Ipv4Addr::from_bytes(dst_ip));
            let ihl = ((packet[14] & 0x0F) as usize) * 4;
            proof {
                let b = packet@[14];
                assert(b & 0x0F == b % 16) by (bit_vector);
            }
            if packet.len() - 14 >= ihl + 4 && (metadata.protocol == Protocol::Tcp || metadata.protocol == Protocol::Udp) {
                metadata.src_port = Some(read_be16(packet[14 + ihl], packet[14 + ihl + 1]));
                metadata.dst_port = Some(read_be16(packet[14 + ihl + 2], packet[14 + ihl + 3]));
            }
        }
    }
    metadata
}

/// A packet inspection hook.
pub trait NetworkHook {
    /// Whether, in this state, the hook may answer `r` for an outgoing
    /// `packet` with `metadata`, leaving the packet as `left`.
    spec fn outgoing_answer(&self, packet: Seq<u8>, metadata: PacketMetadata, left: Seq<u8>, r: Result<PacketAction>) -> bool;

    /// Whether, in this state, the hook may answer `r` for an incoming
    /// `packet` with `metadata`, leaving the packet as `left`.
    spec fn incoming_answer(&self, packet: Seq<u8>, metadata: PacketMetadata, left: Seq<u8>, r: Result<PacketAction>) -> bool;

    /// Inspects an outgoing packet.
    fn intercept_outgoing(&mut self, packet: &mut Vec<u8>, metadata: &PacketMetadata) -> (r: Result<PacketAction>)
        ensures
            old(self).outgoing_answer(old(packet)@, *metadata, final(packet)@, r),
    ;

    /// Inspects an incoming packet.
    fn intercept_incoming(&mut self, packet: &mut Vec<u8>, metadata: &PacketMetadata) -> (r: Result<PacketAction>)
        ensures
            old(self).incoming_answer(old(packet)@, *metadata, final(packet)@, r),
    ;

    /// Rewrites a packet the hook asked to modify.
    fn apply_privacy(&mut self, packet: &mut Vec<u8>, metadata: &PacketMetadata) -> Result<()>;

    /// The hook's name.
    spec fn hook_name(&self) -> Seq<char>;

    /// Whether the hook is active.
    spec fn hook_enabled(&self) -> bool;

    /// The hook's name.
    fn name(&self) -> (r: &'static str)
        ensures
            r@ == self.hook_name(),
    ;

    /// Whether the hook is active.
    fn is_enabled(&self) -> (r: bool)
        ensures
            r == self.hook_enabled(),
    ;

    /// Activates or deactivates the hook; its name stays.
    fn set_enabled(&mut self, enabled: bool)
        ensures
            final(self).hook_enabled() == enabled,
            final(self).hook_name() == old(self).hook_name(),
    ;
}

/// The IPv6 ethertype is in the frame header.
pub open spec fn is_ipv6_frame(p: Seq<u8>) -> bool {
    p.len() >= 14 && be16(p[12], p[13]) == 0x86DD
}

/// A filter that blocks IPv6 and can force Tor routing.
pub struct PrivacyFilter {
    pub enabled: bool,
    pub block_ipv6_traffic: bool,
    pub block_dns: bool,
    pub force_tor: bool,
    pub packets_filtered: u64,
    pub blocked_domains: Vec<String>,
    pub allowed_domains: Vec<String>,
    pub rng: XorShiftRng,
}

impl PrivacyFilter {
    /// A filter blocking IPv6, with randomised IP ids drawn from `seed`.
    pub fn new(seed: u64) -> (r: Self)
        ensures
            r.enabled && r.block_ipv6_traffic && !r.block_dns && !r.force_tor && r.packets_filtered == 0,
            r.blocked_domains@.len() == 0 && r.allowed_domains@.len() == 0,
    {
        PrivacyFilter {
            enabled: true,
            block_ipv6_traffic: true,
            block_dns: false,
            force_tor: false,
            packets_filtered: 0,
            blocked_domains: Vec::new(),
            allowed_domains: Vec::new(),
            rng: XorShiftRng::new(seed),
        }
    }

    /// Turns IPv6 blocking on or off.
    pub fn block_ipv6(&mut self, block: bool)
        ensures
            final(self).block_ipv6_traffic == block,
            final(self).enabled == old(self).enabled,
            final(self).force_tor == old(self).force_tor,
            final(self).packets_filtered == old(self).packets_filtered,
    {
        self.block_ipv6_traffic = block;
    }

    /// Turns forced Tor routing on or off.
    pub fn force_tor_routing(&mut self, force: bool)
        ensures
            final(self).force_tor == force,
            final(self).enabled == old(self).enabled,
            final(self).block_ipv6_traffic == old(self).block_ipv6_traffic,
            final(self).packets_filtered == old(self).packets_filtered,
    {
        self.force_tor = force;
    }

    /// Adds a domain to the block list.
    pub fn add_blocked_domain(&mut self, domain: String)
        ensures
            final(self).blocked_domains@ == old(self).blocked_domains@.push(domain),
            final(self).allowed_domains@ == old(self).allowed_domains@,
    {
        self.blocked_domains.push(domain);
    }

    /// Adds a domain to the allow list.
    pub fn add_allowed_domain(&mut self, domain: String)
        ensures
            final(self).allowed_domains@ == old(self).allowed_domains@.push(domain),
            final(self).blocked_domains@ == old(self).blocked_domains@,
    {
        self.allowed_domains.push(domain);
    }

    /// Packets blocked so far.
    pub fn get_packets_filtered(&self) -> (r: u64)
        ensures
            r == self.packets_filtered,
    {
        self.packets_filtered
    }

    fn should_block_ipv6(&self, packet: &Vec<u8>) -> (r: bool)
        ensures
            r == (self.block_ipv6_traffic && is_ipv6_frame(packet@)),
    {
        if !self.block_ipv6_traffic {
            return false;
        }
        if packet.len() >= 14 {
            let ethertype = read_be16(packet[12], packet[13]);
            return ethertype == 0x86DD;
        }
        false
    }

    fn is_dns_packet(&self, metadata: &PacketMetadata) -> (r: bool)
        ensures
            r == (metadata.dst_port == Some(53u16) || metadata.src_port == Some(53u16)),
    {
        let d = match metadata.dst_port {
            Some(p) => p == 53,
            None => false,
        };
        let s = match metadata.src_port {
            Some(p) => p == 53,
            None => false,
        };
        d || s
    }

    /// The queried domain of a DNS packet; the question is not decoded, so
    /// there is none.
    fn extract_dns_domain(&self, packet: &Vec<u8>) -> (r: Option<String>)
        ensures
            r is None,
    {
        None
    }
}

impl NetworkHook for PrivacyFilter {
    /// The packet is kept; the answer is Allow when off, Block for IPv6 when
    /// that is blocked, else Modify when Tor routing is forced, else Allow.
    open spec fn outgoing_answer(&self, packet: Seq<u8>, metadata: PacketMetadata, left: Seq<u8>, r: Result<PacketAction>) -> bool {
        &&& left == packet
        &&& r == Ok::<PacketAction, IronVeilError>(if !self.enabled {
            PacketAction::Allow
        } else if self.block_ipv6_traffic && is_ipv6_frame(packet) {
            PacketAction::Block
        } else if self.force_tor {
            PacketAction::Modify
        } else {
            PacketAction::Allow
        })
    }

    /// The packet is kept; the answer is Block for IPv6 when the filter is
    /// on and blocks it, else Allow.
    open spec fn incoming_answer(&self, packet: Seq<u8>, metadata: PacketMetadata, left: Seq<u8>, r: Result<PacketAction>) -> bool {
        &&& left == packet
        &&& r == Ok::<PacketAction, IronVeilError>(if self.enabled && self.block_ipv6_traffic && is_ipv6_frame(packet) {
            PacketAction::Block
        } else {
            PacketAction::Allow
        })
    }

    open spec fn hook_name(&self) -> Seq<char> {
        "PrivacyFilter"@
    }

    open spec fn hook_enabled(&self) -> bool {
        self.enabled
    }

    /// Blocks IPv6 (counting it); asks to modify when Tor routing is forced.
    fn intercept_outgoing(&mut self, packet: &mut Vec<u8>, metadata: &PacketMetadata) -> (r: Result<PacketAction>)
        ensures
            final(packet)@ == old(packet)@,
            !old(self).enabled ==> r == Ok::<PacketAction, IronVeilError>(PacketAction::Allow),
            old(self).enabled && old(self).block_ipv6_traffic && is_ipv6_frame(old(packet)@) ==> r == Ok::<
                PacketAction, IronVeilError>(PacketAction::Block) && final(self).packets_filtered
                == old(self).packets_filtered.wrapping_add(1),
            old(self).enabled && !(old(self).block_ipv6_traffic && is_ipv6_frame(old(packet)@)) ==> r
                == Ok::<PacketAction, IronVeilError>(if old(self).force_tor { PacketAction::Modify } else { PacketAction::Allow }),
    {
        if !self.enabled {
            return Ok(PacketAction::Allow);
        }
        if self.should_block_ipv6(packet) {
            self.packets_filtered = self.packets_filtered.wrapping_add(1);
            return Ok(PacketAction::Block);
        }
        if self.block_dns && self.is_dns_packet(metadata) {
            if let Some(_domain) = self.extract_dns_domain(packet) {
                self.packets_filtered = self.packets_filtered.wrapping_add(1);
                return Ok(PacketAction::Block);
            }
        }
        if self.force_tor {
            return Ok(PacketAction::Modify);
        }
        Ok(PacketAction::Allow)
    }

    /// Blocks IPv6 (counting it).
    fn intercept_incoming(&mut self, packet: &mut Vec<u8>, metadata: &PacketMetadata) -> (r: Result<PacketAction>)
        ensures
            final(packet)@ == old(packet)@,
            !old(self).enabled ==> r == Ok::<PacketAction, IronVeilError>(PacketAction::Allow),
            old(self).enabled ==> r == Ok::<PacketAction, IronVeilError>(if old(self).block_ipv6_traffic
                && is_ipv6_frame(old(packet)@) { PacketAction::Block } else { PacketAction::Allow }),
    {
        if !self.enabled {
            return Ok(PacketAction::Allow);
        }
        if self.should_block_ipv6(packet) {
            self.packets_filtered = self.packets_filtered.wrapping_add(1);
            return Ok(PacketAction::Block);
        }
        Ok(PacketAction::Allow)
    }

    /// Gives a TCP packet a random IP identification field.
    fn apply_privacy(&mut self, packet: &mut Vec<u8>, metadata: &PacketMetadata) -> (r: Result<()>)
        ensures
            r is Ok,
            final(packet)@.len() == old(packet)@.len(),
            forall|i: int| 0 <= i < old(packet)@.len() && i != 18 && i != 19 ==> final(packet)@[i] == old(packet)@[i],
            !(old(packet)@.len() >= 34 && metadata.protocol == Protocol::Tcp) ==> final(packet)@ == old(packet)@
                && final(self).rng == old(self).rng,
            old(packet)@.len() >= 34 && metadata.protocol == Protocol::Tcp ==> be16(final(packet)@[18], final(packet)@[19])
                == xorshift_step(old(self).rng.state) as u16 && final(self).rng.state == xorshift_step(old(self).rng.state),
    {
        if packet.len() >= 34 && metadata.protocol == Protocol::Tcp {
            let ip_header_start: usize = 14;
            let draw = self.rng.next_u32();
            let random_id = draw as u16;
            let hi = (random_id >> 8u16) as u8;
            let lo = (random_id & 0xFF) as u8;
            proof {
                let s = xorshift_step(old(self).rng.state);
                assert(random_id == s as u16) by (bit_vector)
                    requires draw == s as u32, random_id == draw as u16;
                assert(be16(hi, lo) == random_id) by (bit_vector)
                    requires hi == (random_id >> 8u16) as u8, lo == (random_id & 0xFF) as u8;
            }
            packet.set(ip_header_start + 4, hi);
            packet.set(ip_header_start + 5, lo);
        }
        Ok(())
    }

    fn name(&self) -> &'static str {
        "PrivacyFilter"
    }

    fn is_enabled(&self) -> bool {
        self.enabled
    }

    fn set_enabled(&mut self, enabled: bool) {
        self.enabled = enabled;
    }
}

/// A hook that rewrites source MAC addresses at an interval.
pub struct MacRandomizer {
    pub enabled: bool,
    pub current_mac: Option<MacAddr>,
    pub randomize_interval: u64,
    pub last_randomization: u64,
    pub rng: XorShiftRng,
}

impl MacRandomizer {
    /// A disabled randomizer with a five-minute interval, drawing from `seed`.
    pub fn new(seed: u64) -> (r: Self)
        ensures
            !r.enabled && r.current_mac is None && r.randomize_interval == 300000 && r.last_randomization == 0,
    {
        MacRandomizer { enabled: false, current_mac: None, randomize_interval: 300000, last_randomization: 0, rng: XorShiftRng::new(seed) }
    }

    /// Sets the interval in milliseconds.
    pub fn set_randomize_interval(&mut self, interval_ms: u64)
        ensures
            final(self).randomize_interval == interval_ms,
            final(self).enabled == old(self).enabled,
            final(self).current_mac == old(self).current_mac,
            final(self).last_randomization == old(self).last_randomization,
    {
        self.randomize_interval = interval_ms;
    }

    /// Whether the interval has passed since the last change.
    pub fn should_randomize(&self, current_time: u64) -> (r: bool)
        ensures
            r == (self.enabled && (if current_time >= self.last_randomization { current_time - self.last_randomization } else { 0 }) >= self.randomize_interval),
    {
        if !self.enabled {
            return false;
        }
        current_time.saturating_sub(self.last_randomization) >= self.randomize_interval
    }

    /// Picks a new address with a common OUI and makes it current.
    pub fn randomize_mac(&mut self) -> (r: MacAddr)
        ensures
            final(self).current_mac == Some(r),
            final(self).enabled == old(self).enabled,
            r.0@[0] & 0x01 == 0 && r.0@[0] & 0x02 != 0,
    {
        let new_mac = generate_realistic_mac(&mut self.rng);
        proof {
            let o = choose|o: [u8; 3]| #[trigger] crate::privacy_core::oui::common_ouis().contains(o)
                && new_mac.0@[0] == crate::privacy_core::local_unicast(o@[0]) && new_mac.0@[1] == o@[1] && new_mac.0@[2] == o@[2];
            let x = o@[0];
            assert(((x & 0xFE) | 0x02) & 0x01 == 0 && ((x & 0xFE) | 0x02) & 0x02 != 0) by (bit_vector);
        }
        self.current_mac = Some(new_mac);
        new_mac
    }
}

impl NetworkHook for MacRandomizer {
    /// The packet is kept; the answer is Modify when the hook is on and a
    /// change is due (the clock reads zero), else Allow.
    open spec fn outgoing_answer(&self, packet: Seq<u8>, metadata: PacketMetadata, left: Seq<u8>, r: Result<PacketAction>) -> bool {
        &&& left == packet
        &&& r == Ok::<PacketAction, IronVeilError>(if self.enabled && (if 0 >= self.last_randomization {
            0 - self.last_randomization
        } else {
            0
        }) >= self.randomize_interval {
            PacketAction::Modify
        } else {
            PacketAction::Allow
        })
    }

    /// The packet is kept and allowed.
    open spec fn incoming_answer(&self, packet: Seq<u8>, metadata: PacketMetadata, left: Seq<u8>, r: Result<PacketAction>) -> bool {
        left == packet && r == Ok::<PacketAction, IronVeilError>(PacketAction::Allow)
    }

    open spec fn hook_name(&self) -> Seq<char> {
        "MacRandomizer"@
    }

    open spec fn hook_enabled(&self) -> bool {
        self.enabled
    }

    /// Asks to modify when a change is due (the clock reads zero here).
    fn intercept_outgoing(&mut self, packet: &mut Vec<u8>, metadata: &PacketMetadata) -> (r: Result<PacketAction>)
        ensures
            final(packet)@ == old(packet)@,
            r == Ok::<PacketAction, IronVeilError>(if old(self).enabled && (if 0 >= old(self).last_randomization { 0 - old(self).last_randomization } else { 0 }) >= old(self).randomize_interval { PacketAction::Modify } else { PacketAction::Allow }),
    {
        if !self.enabled {
            return Ok(PacketAction::Allow);
        }
        let current_time: u64 = 0;
        if self.should_randomize(current_time) {
            return Ok(PacketAction::Modify);
        }
        Ok(PacketAction::Allow)
    }

    /// Lets every incoming packet through.
    fn intercept_incoming(&mut self, packet: &mut Vec<u8>, metadata: &PacketMetadata) -> (r: Result<PacketAction>)
        ensures
            final(packet)@ == old(packet)@,
            r == Ok::<PacketAction, IronVeilError>(PacketAction::Allow),
    {
        Ok(PacketAction::Allow)
    }

    /// Writes the current address into the source MAC field.
    fn apply_privacy(&mut self, packet: &mut Vec<u8>, metadata: &PacketMetadata) -> (r: Result<()>)
        ensures
            r is Ok,
            final(packet)@.len() == old(packet)@.len(),
            (old(packet)@.len() >= 14 && old(self).current_mac is Some) ==> final(packet)@ == old(packet)@.take(6)
                + mac_bytes(old(self).current_mac->0) + old(packet)@.skip(12),
            !(old(packet)@.len() >= 14 && old(self).current_mac is Some) ==> final(packet)@ == old(packet)@,
    {
        if packet.len() >= 14 {
            if let Some(mac) = self.current_mac {
                let mut i: usize = 0;
                while i < 6
                    invariant
                        i <= 6,
                        packet@.len() == old(packet)@.len(),
                        old(packet)@.len() >= 14,
                        forall|k: int| 0 <= k < packet@.len() ==> packet@[k] == (if 6 <= k < 6 + i { mac.0@[k - 6] } else { old(packet)@[k] }),
                    decreases 6 - i,
                {
                    packet.set(6 + i, mac.0[i]);
                    i = i + 1;
                }
                assert(packet@ =~= old(packet)@.take(6) + mac.0@ + old(packet)@.skip(12));
            }
        }
        Ok(())
    }

    fn name(&self) -> &'static str {
        "MacRandomizer"
    }

    fn is_enabled(&self) -> bool {
        self.enabled
    }

    fn set_enabled(&mut self, enabled: bool) {
        self.enabled = enabled;
    }
}

/// The bytes of an address.
pub open spec fn mac_bytes(m: MacAddr) -> Seq<u8> {
    m.0@
}

/// What one hook did with a packet: whether it was enabled, its verdict
/// when asked, and its rewrite's result when the verdict was Modify.
#[derive(Debug, Clone, Copy, PartialEq, Eq)]
pub struct HookRun {
    pub enabled: bool,
    pub verdict: Result<PacketAction>,
    pub applied: Result<()>,
}

/// After a hook: go on with the action so far, or finish with a result.
#[derive(Debug, Clone, Copy, PartialEq, Eq)]
pub enum StepOutcome {
    Continue(PacketAction),
    Finish(Result<PacketAction>),
}

/// The next step after a hook, with `acc` the action so far: a disabled
/// hook or an Allow changes nothing; a block or drop finishes with Block; an
/// error (of the verdict or the rewrite) finishes with it; a successful
/// rewrite makes an outgoing packet's action Modify.
pub open spec fn hook_step(acc: PacketAction, run: HookRun, outgoing: bool) -> StepOutcome {
    if !run.enabled {
        StepOutcome::Continue(acc)
    } else {
        match run.verdict {
            Err(e) => StepOutcome::Finish(Err(e)),
            Ok(PacketAction::Block) => StepOutcome::Finish(Ok(PacketAction::Block)),
            Ok(PacketAction::Drop) => StepOutcome::Finish(Ok(PacketAction::Block)),
            Ok(PacketAction::Modify) => match run.applied {
                Err(e) => StepOutcome::Finish(Err(e)),
                Ok(_) => StepOutcome::Continue(if outgoing { PacketAction::Modify } else { acc }),
            },
            Ok(PacketAction::Allow) => StepOutcome::Continue(acc),
        }
    }
}

/// `hook_step` for a run hook.
pub fn hook_step_exec(acc: PacketAction, run: &HookRun, outgoing: bool) -> (r: StepOutcome)
    ensures
        r == hook_step(acc, *run, outgoing),
{
    if !run.enabled {
        return StepOutcome::Continue(acc);
    }
    match run.verdict {
        Err(e) => StepOutcome::Finish(Err(e)),
        Ok(PacketAction::Block) => StepOutcome::Finish(Ok(PacketAction::Block)),
        Ok(PacketAction::Drop) => StepOutcome::Finish(Ok(PacketAction::Block)),
        Ok(PacketAction::Modify) => match run.applied {
            Err(e) => StepOutcome::Finish(Err(e)),
            Ok(_) => StepOutcome::Continue(if outgoing { PacketAction::Modify } else { acc }),
        },
        Ok(PacketAction::Allow) => StepOutcome::Continue(acc),
    }
}

/// The chain's state after the hooks that ran, starting from Allow.
pub open spec fn pipeline(runs: Seq<HookRun>, outgoing: bool) -> StepOutcome
    decreases runs.len(),
{
    if runs.len() == 0 {
        StepOutcome::Continue(PacketAction::Allow)
    } else {
        match pipeline(runs.drop_last(), outgoing) {
            StepOutcome::Finish(res) => StepOutcome::Finish(res),
            StepOutcome::Continue(a) => hook_step(a, runs.last(), outgoing),
        }
    }
}

/// A run as the chain makes them: a disabled hook is asked nothing, and a
/// hook rewrites only after a Modify.
pub open spec fn run_ok(run: HookRun) -> bool {
    &&& !run.enabled ==> run.verdict == Ok::<PacketAction, IronVeilError>(PacketAction::Allow)
    &&& run.verdict != Ok::<PacketAction, IronVeilError>(PacketAction::Modify) ==> run.applied == Ok::<(), IronVeilError>(())
}

/// Runs, one for each of the first hooks of a chain of `n`.
pub open spec fn runs_match(n: nat, runs: Seq<HookRun>) -> bool {
    &&& runs.len() <= n
    &&& forall|k: int| 0 <= k < runs.len() ==> #[trigger] run_ok(runs[k])
}

/// The hooks of the chain ran as `runs` say, in order, each only while no
/// earlier one finished, all of them unless one finished, and the result is
/// the chain's: what the finishing hook gave, else the action reached.
pub open spec fn hooks_ran(n: nat, runs: Seq<HookRun>, outgoing: bool, r: Result<PacketAction>) -> bool {
    &&& runs_match(n, runs)
    &&& forall|k: int| 0 <= k < runs.len() ==> (#[trigger] pipeline(runs.take(k), outgoing)) is Continue
    &&& match pipeline(runs, outgoing) {
        StepOutcome::Finish(res) => r == res,
        StepOutcome::Continue(a) => runs.len() == n && r == Ok::<PacketAction, IronVeilError>(a),
    }
}

/// A hook that let an outgoing packet pass the chain: disabled, or it
/// answered Allow, or Modify and rewrote the packet.
pub open spec fn passed(run: HookRun) -> bool {
    run.enabled ==> (run.verdict == Ok::<PacketAction, IronVeilError>(PacketAction::Allow) || (run.verdict
        == Ok::<PacketAction, IronVeilError>(PacketAction::Modify) && run.applied is Ok))
}

/// Some enabled hook of `runs` answered Modify.
pub open spec fn some_modify(runs: Seq<HookRun>) -> bool {
    exists|i: int|
        0 <= i < runs.len() && #[trigger] runs[i].enabled && runs[i].verdict == Ok::<PacketAction, IronVeilError>(
            PacketAction::Modify)
}

/// While an outgoing chain goes on, every hook so far let the packet pass,
/// and the action is Modify exactly when one of them answered Modify.
pub proof fn lemma_outgoing_continue(runs: Seq<HookRun>)
    requires
        pipeline(runs, true) is Continue,
    ensures
        forall|i: int| 0 <= i < runs.len() ==> #[trigger] passed(runs[i]),
        pipeline(runs, true) == (if some_modify(runs) { StepOutcome::Continue(PacketAction::Modify) } else {
            StepOutcome::Continue(PacketAction::Allow)
        }),
    decreases runs.len(),
{
    if runs.len() > 0 {
        let front = runs.drop_last();
        lemma_outgoing_continue(front);
        assert forall|i: int| 0 <= i < runs.len() implies #[trigger] passed(runs[i]) by {
            if i < runs.len() - 1 {
                assert(runs[i] == front[i]);
            }
        }
        if some_modify(front) {
            let i = choose|i: int|
                0 <= i < front.len() && #[trigger] front[i].enabled && front[i].verdict == Ok::<
                    PacketAction,
                    IronVeilError,
                >(PacketAction::Modify);
            assert(runs[i] == front[i]);
        } else if some_modify(runs) {
            let i = choose|i: int|
                0 <= i < runs.len() && #[trigger] runs[i].enabled && runs[i].verdict == Ok::<
                    PacketAction,
                    IronVeilError,
                >(PacketAction::Modify);
            if i < runs.len() - 1 {
                assert(front[i] == runs[i]);
            }
        }
    } else {
        assert(!some_modify(runs));
    }
}

/// An outgoing packet through the chain: a disabled hook is passed over;
/// the hooks are asked in order until one answers Block or Drop (the result
/// is Block and no later hook is asked) or fails (its error is the result);
/// when every hook let the packet pass, the result is Modify if one of them
/// answered Modify and Allow otherwise.  The result is never Drop.
pub proof fn law_outgoing_chain(n: nat, runs: Seq<HookRun>, r: Result<PacketAction>)
    requires
        hooks_ran(n, runs, true, r),
    ensures
        r != Ok::<PacketAction, IronVeilError>(PacketAction::Drop),
        r == Ok::<PacketAction, IronVeilError>(PacketAction::Allow) || r == Ok::<PacketAction, IronVeilError>(
            PacketAction::Modify) ==> {
            &&& runs.len() == n
            &&& forall|i: int| 0 <= i < runs.len() ==> #[trigger] passed(runs[i])
            &&& (r == Ok::<PacketAction, IronVeilError>(PacketAction::Modify) <==> some_modify(runs))
        },
        r == Ok::<PacketAction, IronVeilError>(PacketAction::Block) || r is Err ==> {
            &&& runs.len() > 0
            &&& forall|i: int| 0 <= i < runs.len() - 1 ==> #[trigger] passed(runs[i])
            &&& runs.last().enabled
            &&& r == Ok::<PacketAction, IronVeilError>(PacketAction::Block) ==> (runs.last().verdict == Ok::<
                PacketAction,
                IronVeilError,
            >(PacketAction::Block) || runs.last().verdict == Ok::<PacketAction, IronVeilError>(
                PacketAction::Drop))
            &&& r is Err ==> (runs.last().verdict == r || (runs.last().verdict == Ok::<PacketAction, IronVeilError>(
                PacketAction::Modify) && runs.last().applied == Err::<(), IronVeilError>(r->Err_0)))
        },
{
    match pipeline(runs, true) {
        StepOutcome::Continue(a) => {
            lemma_outgoing_continue(runs);
        },
        StepOutcome::Finish(res) => {
            assert(runs.len() > 0);
            let front = runs.drop_last();
            assert(runs.take(runs.len() - 1) =~= front);
            assert(pipeline(runs.take(runs.len() - 1), true) is Continue);
            lemma_outgoing_continue(front);
            assert forall|i: int| 0 <= i < runs.len() - 1 implies #[trigger] passed(runs[i]) by {
                assert(runs[i] == front[i]);
            }
        },
    }
}

/// What the chain did with one packet: the runs of the hooks it asked, in
/// order; `packets[k]` is the packet handed to hook `k` (the last one is the
/// packet the chain left), and `checked[k]` the packet as hook `k`'s check
/// left it, which its `apply_privacy` was handed after a Modify.
pub struct ChainTrace {
    pub runs: Seq<HookRun>,
    pub packets: Seq<Seq<u8>>,
    pub checked: Seq<Seq<u8>>,
}

/// The run of hook `k` of `hooks`, handed `given` and leaving `left`: it
/// is enabled as the hook is; a disabled hook is asked nothing and leaves
/// the packet as it was; an enabled one answered as its own check
/// (`outgoing_answer` or `incoming_answer`) may, on the packet and metadata
/// handed to it, leaving `checked`; without a rewrite the packet stays as
/// the check left it.
pub open spec fn run_of(
    hooks: Seq<Box<dyn NetworkHook>>,
    k: int,
    run: HookRun,
    outgoing: bool,
    metadata: PacketMetadata,
    given: Seq<u8>,
    checked: Seq<u8>,
    left: Seq<u8>,
) -> bool {
    &&& run.enabled == hooks[k].hook_enabled()
    &&& !run.enabled ==> checked == given && left == given
    &&& run.enabled ==> if outgoing {
        hooks[k].outgoing_answer(given, metadata, checked, run.verdict)
    } else {
        hooks[k].incoming_answer(given, metadata, checked, run.verdict)
    }
    &&& run.verdict != Ok::<PacketAction, IronVeilError>(PacketAction::Modify) ==> left == checked
}

/// The chain of `hooks`, handed `packet`, ran as `t` says and gave `r`:
/// the runs are those of the first hooks in order (`hooks_ran`), each the
/// run of the hook at its place, handed the packet the one before left.
pub open spec fn chain_ran(
    hooks: Seq<Box<dyn NetworkHook>>,
    packet: Seq<u8>,
    metadata: PacketMetadata,
    outgoing: bool,
    t: ChainTrace,
    r: Result<PacketAction>,
) -> bool {
    &&& hooks_ran(hooks.len(), t.runs, outgoing, r)
    &&& t.packets.len() == t.runs.len() + 1
    &&& t.checked.len() == t.runs.len()
    &&& t.packets[0] == packet
    &&& forall|k: int|
        0 <= k < t.runs.len() ==> #[trigger] run_of(hooks, k, t.runs[k], outgoing, metadata, t.packets[k], t.checked[k], t.packets[k + 1])
}

/// A chain whose runs are all of disabled hooks goes on with Allow.
pub proof fn lemma_disabled_runs(runs: Seq<HookRun>, outgoing: bool)
    requires
        forall|k: int| 0 <= k < runs.len() ==> !(#[trigger] runs[k].enabled),
    ensures
        pipeline(runs, outgoing) == StepOutcome::Continue(PacketAction::Allow),
    decreases runs.len(),
{
    if runs.len() > 0 {
        let front = runs.drop_last();
        assert forall|k: int| 0 <= k < front.len() implies !(#[trigger] front[k].enabled) by {
            assert(front[k] == runs[k]);
        }
        lemma_disabled_runs(front, outgoing);
    }
}

/// Through a chain in which no hook is enabled, a packet, outgoing or
/// incoming, is allowed and left as it was: every hook is passed over.
pub proof fn law_no_enabled_hook_allows(
    hooks: Seq<Box<dyn NetworkHook>>,
    packet: Seq<u8>,
    metadata: PacketMetadata,
    outgoing: bool,
    t: ChainTrace,
    r: Result<PacketAction>,
)
    requires
        chain_ran(hooks, packet, metadata, outgoing, t, r),
        forall|k: int| 0 <= k < hooks.len() ==> !(#[trigger] hooks[k].hook_enabled()),
    ensures
        r == Ok::<PacketAction, IronVeilError>(PacketAction::Allow),
        t.runs.len() == hooks.len(),
        forall|k: int| 0 <= k < t.runs.len() ==> !(#[trigger] t.runs[k].enabled),
        t.packets.last() == packet,
{
    assert forall|k: int| 0 <= k < t.runs.len() implies !(#[trigger] t.runs[k].enabled) by {
        assert(run_of(hooks, k, t.runs[k], outgoing, metadata, t.packets[k], t.checked[k], t.packets[k + 1]));
    }
    lemma_disabled_runs(t.runs, outgoing);
    lemma_packets_kept(t, hooks, metadata, outgoing, t.runs.len() as int);
}

/// Up to hook `m`, in a chain of disabled hooks, the packet handed on is
/// the packet first given.
proof fn lemma_packets_kept(t: ChainTrace, hooks: Seq<Box<dyn NetworkHook>>, metadata: PacketMetadata, outgoing: bool, m: int)
    requires
        0 <= m <= t.runs.len(),
        t.packets.len() == t.runs.len() + 1,
        t.checked.len() == t.runs.len(),
        forall|k: int| 0 <= k < t.runs.len() ==> !(#[trigger] t.runs[k].enabled),
        forall|k: int|
            0 <= k < t.runs.len() ==> #[trigger] run_of(hooks, k, t.runs[k], outgoing, metadata, t.packets[k], t.checked[k], t.packets[k + 1]),
    ensures
        t.packets[m] == t.packets[0],
    decreases m,
{
    if m > 0 {
        lemma_packets_kept(t, hooks, metadata, outgoing, m - 1);
        let j = m - 1;
        assert(run_of(hooks, j, t.runs[j], outgoing, metadata, t.packets[j], t.checked[j], t.packets[j + 1]));
    }
}

/// The chain has as many hooks as before, and the hooks after the last one
/// that ran, which were not asked, are as they were.
pub open spec fn hooks_left(before: Seq<Box<dyn NetworkHook>>, after: Seq<Box<dyn NetworkHook>>, runs: Seq<HookRun>) -> bool {
    &&& after.len() == before.len()
    &&& forall|k: int| runs.len() <= k < before.len() ==> #[trigger] after[k] == before[k]
}

/// Runs packets through a chain of hooks.
pub struct NetworkHookManager {
    pub hooks: Vec<Box<dyn NetworkHook>>,
    pub enabled: bool,
    pub total_packets_processed: u64,
}

impl NetworkHookManager {
    /// An enabled manager with no hooks.
    pub fn new() -> (r: Self)
        ensures
            r.enabled && r.total_packets_processed == 0,
            r.hooks@.len() == 0,
    {
        NetworkHookManager { hooks: Vec::new(), enabled: true, total_packets_processed: 0 }
    }

    /// Appends a hook to the chain.
    pub fn add_hook(&mut self, hook: Box<dyn NetworkHook>)
        ensures
            final(self).hooks@ == old(self).hooks@.push(hook),
            final(self).enabled == old(self).enabled,
            final(self).total_packets_processed == old(self).total_packets_processed,
    {
        self.hooks.push(hook);
    }

    /// Runs an outgoing packet through the enabled hooks in order (see
    /// `run_hooks`): a hook's block or drop blocks the packet at once, a
    /// modify lets the hook rewrite it and makes the result Modify; a hook's
    /// error is returned.
    pub fn process_outgoing_packet(&mut self, packet: &mut Vec<u8>, metadata: &PacketMetadata) -> (r: Result<PacketAction>)
        ensures
            final(self).enabled == old(self).enabled,
            !old(self).enabled ==> r == Ok::<PacketAction, IronVeilError>(PacketAction::Allow) && *final(self)
                == *old(self) && final(packet)@ == old(packet)@,
            old(self).enabled ==> final(self).total_packets_processed == old(self).total_packets_processed.wrapping_add(1)
                && exists|t: ChainTrace| #[trigger] chain_ran(old(self).hooks@, old(packet)@, *metadata, true, t, r)
                && t.packets.last() == final(packet)@ && hooks_left(old(self).hooks@, final(self).hooks@, t.runs),
            r matches Ok(a) ==> a != PacketAction::Drop,
    {
        self.run_hooks(packet, metadata, true)
    }

    /// Runs an incoming packet through the enabled hooks in order (see
    /// `run_hooks`): a block or drop blocks it, a modify lets the hook
    /// rewrite it; otherwise it is allowed.
    pub fn process_incoming_packet(&mut self, packet: &mut Vec<u8>, metadata: &PacketMetadata) -> (r: Result<PacketAction>)
        ensures
            final(self).enabled == old(self).enabled,
            !old(self).enabled ==> r == Ok::<PacketAction, IronVeilError>(PacketAction::Allow) && *final(self)
                == *old(self) && final(packet)@ == old(packet)@,
            old(self).enabled ==> final(self).total_packets_processed == old(self).total_packets_processed.wrapping_add(1)
                && exists|t: ChainTrace| #[trigger] chain_ran(old(self).hooks@, old(packet)@, *metadata, false, t, r)
                && t.packets.last() == final(packet)@ && hooks_left(old(self).hooks@, final(self).hooks@, t.runs),
            r matches Ok(a) ==> a == PacketAction::Allow || a == PacketAction::Block,
    {
        self.run_hooks(packet, metadata, false)
    }

    /// The hook chain for one packet: when the manager is enabled the packet
    /// is counted, then each hook in order is asked (outgoing or incoming)
    /// if it is enabled, a Modify is followed by that hook's rewrite, and
    /// `hook_step` says after each hook whether to go on.
    fn run_hooks(&mut self, packet: &mut Vec<u8>, metadata: &PacketMetadata, outgoing: bool) -> (r: Result<PacketAction>)
        ensures
            final(self).enabled == old(self).enabled,
            !old(self).enabled ==> r == Ok::<PacketAction, IronVeilError>(PacketAction::Allow) && *final(self)
                == *old(self) && final(packet)@ == old(packet)@,
            old(self).enabled ==> final(self).total_packets_processed == old(self).total_packets_processed.wrapping_add(1)
                && exists|t: ChainTrace| #[trigger] chain_ran(old(self).hooks@, old(packet)@, *metadata, outgoing, t, r)
                && t.packets.last() == final(packet)@ && hooks_left(old(self).hooks@, final(self).hooks@, t.runs),
            r matches Ok(a) ==> a != PacketAction::Drop,
            !outgoing ==> (r matches Ok(a) ==> a == PacketAction::Allow || a == PacketAction::Block),
    {
        if !self.enabled {
            return Ok(PacketAction::Allow);
        }
        self.total_packets_processed = self.total_packets_processed.wrapping_add(1);
        let ghost hooks0 = self.hooks@;
        let ghost mut runs: Seq<HookRun> = Seq::empty();
        let ghost mut packets: Seq<Seq<u8>> = seq![packet@];
        let ghost mut checked: Seq<Seq<u8>> = Seq::empty();
        let mut acc = PacketAction::Allow;
        let mut i: usize = 0;
        let n = self.hooks.len();
        proof {
            assert(runs.take(0) =~= runs);
        }
        while i < n
            invariant
                i <= n,
                n == hooks0.len(),
                hooks0 == old(self).hooks@,
                old(self).enabled,
                self.enabled == old(self).enabled,
                self.total_packets_processed == old(self).total_packets_processed.wrapping_add(1),
                self.hooks@.len() == n,
                runs.len() == i,
                packets.len() == i + 1,
                checked.len() == i,
                packets[0] == old(packet)@,
                packets.last() == packet@,
                runs_match(n as nat, runs),
                forall|k: int| 0 <= k < runs.len() ==> (#[trigger] pipeline(runs.take(k), outgoing)) is Continue,
                pipeline(runs, outgoing) == StepOutcome::Continue(acc),
                acc == PacketAction::Allow || (outgoing && acc == PacketAction::Modify),
                forall|j: int| i <= j < n ==> #[trigger] self.hooks@[j] == hooks0[j],
                forall|k: int|
                    0 <= k < i ==> #[trigger] run_of(hooks0, k, runs[k], outgoing, *metadata, packets[k], checked[k], packets[k + 1]),
            decreases n - i,
        {
            let ghost hb = self.hooks@;
            let ghost given = packet@;
            proof {
                hb.remove_ensures(i as int);
            }
            let mut hook = self.hooks.remove(i);
            let ghost hook0 = hook;
            assert(hook0 == hooks0[i as int]);
            let ghost mut seen = packet@;
            let run = if hook.is_enabled() {
                let verdict = if outgoing {
                    hook.intercept_outgoing(packet, metadata)
                } else {
                    hook.intercept_incoming(packet, metadata)
                };
                proof {
                    seen = packet@;
                }
                let applied = match verdict {
                    Ok(PacketAction::Modify) => hook.apply_privacy(packet, metadata),
                    _ => Ok(()),
                };
                HookRun { enabled: true, verdict, applied }
            } else {
                HookRun { enabled: false, verdict: Ok(PacketAction::Allow), applied: Ok(()) }
            };
            assert(run_of(hooks0, i as int, run, outgoing, *metadata, given, seen, packet@));
            let ghost hb2 = self.hooks@;
            proof {
                hb2.insert_ensures(i as int, hook);
            }
            self.hooks.insert(i, hook);
            let step = hook_step_exec(acc, &run, outgoing);
            proof {
                let nr = runs.push(run);
                let np = packets.push(packet@);
                let nc = checked.push(seen);
                assert(nr.drop_last() =~= runs);
                assert forall|k: int| 0 <= k < nr.len() implies #[trigger] run_ok(nr[k]) by {
                    if k < runs.len() {
                        assert(nr[k] == runs[k]);
                    }
                }
                assert forall|k: int| 0 <= k < nr.len() implies (#[trigger] pipeline(nr.take(k), outgoing))
                    is Continue by {
                    if k < runs.len() {
                        assert(nr.take(k) =~= runs.take(k));
                    } else {
                        assert(nr.take(k) =~= runs);
                    }
                }
                assert forall|k: int| 0 <= k < nr.len() implies #[trigger] run_of(hooks0, k, nr[k], outgoing, *metadata, np[k], nc[k], np[k + 1]) by {
                    if k < runs.len() {
                        assert(nr[k] == runs[k] && np[k] == packets[k] && nc[k] == checked[k] && np[k + 1] == packets[k + 1]);
                    }
                }
                runs = nr;
                packets = np;
                checked = nc;
            }
            match step {
                StepOutcome::Continue(a) => {
                    acc = a;
                },
                StepOutcome::Finish(res) => {
                    proof {
                        let t = ChainTrace { runs, packets, checked };
                        assert(hooks_ran(n as nat, runs, outgoing, res));
                        assert(chain_ran(hooks0, old(packet)@, *metadata, outgoing, t, res));
                        assert(hooks_left(hooks0, self.hooks@, runs));
                    }
                    return res;
                },
            }
            i = i + 1;
        }
        proof {
            let t = ChainTrace { runs, packets, checked };
            assert(hooks_ran(n as nat, runs, outgoing, Ok::<PacketAction, IronVeilError>(acc)));
            assert(chain_ran(hooks0, old(packet)@, *metadata, outgoing, t, Ok::<PacketAction, IronVeilError>(acc)));
            assert(hooks_left(hooks0, self.hooks@, runs));
        }
        Ok(acc)
    }

    /// Packets seen while enabled.
    pub fn get_total_packets_processed(&self) -> (r: u64)
        ensures
            r == self.total_packets_processed,
    {
        self.total_packets_processed
    }

    /// Whether the manager runs its hooks.
    pub fn is_enabled(&self) -> (r: bool)
        ensures
            r == self.enabled,
    {
        self.enabled
    }

    /// Turns the manager on or off.
    pub fn set_enabled(&mut self, enabled: bool)
        ensures
            final(self).enabled == enabled,
            final(self).total_packets_processed == old(self).total_packets_processed,
    {
        self.enabled = enabled;
    }
}

/// Initialises the hooks.
pub fn init() -> (r: Result<()>)
    ensures
        r is Ok,
{
    Ok(())
}

/// A manager with a privacy filter and a MAC randomizer, in that order.
pub fn create_default_hook_manager(seed: u64) -> (r: NetworkHookManager)
    ensures
        r.enabled,
        r.total_packets_processed == 0,
{
    let mut manager = NetworkHookManager::new();
    let privacy_filter: Box<dyn NetworkHook> = Box::new(PrivacyFilter::new(seed));
    manager.add_hook(privacy_filter);
    let mac_randomizer: Box<dyn NetworkHook> = Box::new(MacRandomizer::new(seed ^ 0x5DEECE66D));
    manager.add_hook(mac_randomizer);
    manager
}

} // verus!
