//! Network interfaces: their addresses, state and statistics.
use vstd::prelude::*;
use crate::privacy_core::{IronVeilError, Result, MacAddr, Ipv4Addr, validate_mac};
use crate::text::{str_starts_with, str_eq};

verus! {

/// Kinds of interface.
#[derive(Debug, Clone, Copy, PartialEq, Eq, Structural)]
pub enum InterfaceType {
    Ethernet,
    Wireless,
    Loopback,
    Virtual,
    Unknown,
}

/// `s` begins with `p`.
pub open spec fn has_prefix(s: Seq<char>, p: Seq<char>) -> bool {
    p.len() <= s.len() && s.subrange(0, p.len() as int) == p
}

/// The kind of interface a name denotes.
pub open spec fn type_of_name(n: Seq<char>) -> InterfaceType {
    if has_prefix(n, "eth"@) {
        InterfaceType::Ethernet
    } else if has_prefix(n, "wlan"@) || has_prefix(n, "wifi"@) {
        InterfaceType::Wireless
    } else if n == "lo"@ || n == "loopback"@ {
        InterfaceType::Loopback
    } else if has_prefix(n, "veth"@) || has_prefix(n, "tap"@) {
        InterfaceType::Virtual
    } else {
        InterfaceType::Unknown
    }
}

impl InterfaceType {
    /// `eth*` is Ethernet, `wlan*`/`wifi*` wireless, `lo`/`loopback` the
    /// loopback, `veth*`/`tap*` virtual.
    pub fn from_name(name: &str) -> (r: Self)
        ensures
            r == type_of_name(name@),
    {
        if str_starts_with(name, "eth") {
            InterfaceType::Ethernet
        } else if str_starts_with(name, "wlan") || str_starts_with(name, "wifi") {
            InterfaceType::Wireless
        } else if str_eq(name, "lo") || str_eq(name, "loopback") {
            InterfaceType::Loopback
        } else if str_starts_with(name, "veth") || str_starts_with(name, "tap") {
            InterfaceType::Virtual
        } else {
            InterfaceType::Unknown
        }
    }
}

/// Operational state.
#[derive(Debug, Clone, Copy, PartialEq, Eq, Structural)]
pub enum InterfaceState {
    Down,
    Up,
    Dormant,
    Unknown,
}

/// Traffic counters.
#[derive(Debug, Clone, Copy, PartialEq, Eq, Structural)]
pub struct InterfaceStats {
    pub bytes_sent: u64,
    pub bytes_received: u64,
    pub packets_sent: u64,
    pub packets_received: u64,
    pub errors_sent: u64,
    pub errors_received: u64,
    pub dropped_sent: u64,
    pub dropped_received: u64,
}

impl Default for InterfaceStats {
    fn default() -> (r: Self)
        ensures
            r == (InterfaceStats { bytes_sent: 0, bytes_received: 0, packets_sent: 0, packets_received: 0,
                errors_sent: 0, errors_received: 0, dropped_sent: 0, dropped_received: 0 }),
    {
        InterfaceStats { bytes_sent: 0, bytes_received: 0, packets_sent: 0, packets_received: 0,
            errors_sent: 0, errors_received: 0, dropped_sent: 0, dropped_received: 0 }
    }
}

/// A network interface with its addresses and counters.
#[derive(Debug)]
pub struct NetworkInterface {
    pub name: String,
    pub interface_type: InterfaceType,
    pub state: InterfaceState,
    pub mac_address: MacAddr,
    pub original_mac: MacAddr,
    pub ip_addresses: Vec<Ipv4Addr>,
    pub mtu: u32,
    pub stats: InterfaceStats,
    pub privacy_enabled: bool,
    pub mac_randomized: bool,
    pub last_mac_change: Option<u64>,
}

/// `b` has `a`'s name, kind, state, original MAC, MTU and privacy setting.
pub open spec fn keeps_config(a: NetworkInterface, b: NetworkInterface) -> bool {
    &&& b.name@ == a.name@
    &&& b.interface_type == a.interface_type
    &&& b.state == a.state
    &&& b.original_mac == a.original_mac
    &&& b.mtu == a.mtu
    &&& b.privacy_enabled == a.privacy_enabled
}

/// `s` without the entries equal to `x`, in order.
pub open spec fn without_ip(s: Seq<Ipv4Addr>, x: Ipv4Addr) -> Seq<Ipv4Addr>
    decreases s.len(),
{
    if s.len() == 0 {
        s
    } else if s.last() != x {
        without_ip(s.drop_last(), x).push(s.last())
    } else {
        without_ip(s.drop_last(), x)
    }
}

fn ip_eq(a: &Ipv4Addr, b: &Ipv4Addr) -> (r: bool)
    ensures
        r == (*a == *b),
{
    let r = a.0[0] == b.0[0] && a.0[1] == b.0[1] && a.0[2] == b.0[2] && a.0[3] == b.0[3];
    proof {
        if r {
            assert(a.0@ =~= b.0@);
            assert(a.0 =~= b.0);
        }
        if *a == *b {
            assert(a.0@[0] == b.0@[0] && a.0@[1] == b.0@[1] && a.0@[2] == b.0@[2] && a.0@[3] == b.0@[3]);
        }
    }
    r
}

impl NetworkInterface {
    /// A down interface named `name` with its original MAC, MTU 1500 and
    /// privacy protection on.
    pub fn new(name: String, mac_address: MacAddr) -> (r: Self)
        ensures
            r.name@ == name@,
            r.interface_type == type_of_name(name@),
            r.state == InterfaceState::Down,
            r.mac_address == mac_address && r.original_mac == mac_address,
            r.ip_addresses@.len() == 0,
            r.mtu == 1500,
            r.stats == InterfaceStats::default_spec(),
            r.privacy_enabled && !r.mac_randomized && r.last_mac_change is None,
    {
        let interface_type = InterfaceType::from_name(name.as_str());
        NetworkInterface {
            name,
            interface_type,
            state: InterfaceState::Down,
            mac_address,
            original_mac: mac_address,
            ip_addresses: Vec::new(),
            mtu: 1500,
            stats: InterfaceStats::default(),
            privacy_enabled: true,
            mac_randomized: false,
            last_mac_change: None,
        }
    }

    /// Sets a new MAC (refusing multicast and all-zero ones), recording the time.
    pub fn set_mac_address(&mut self, mac: MacAddr, timestamp: Option<u64>) -> (r: Result<()>)
        ensures
            r is Ok <==> (mac.0@[0] & 0x01 == 0 && !(forall|i: int| 0 <= i < 6 ==> mac.0@[i] == 0)),
            r is Err ==> r == Err::<(), IronVeilError>(IronVeilError::InvalidMacAddress) && *final(self) == *old(self),
            r is Ok ==> final(self).mac_address == mac && final(self).mac_randomized && final(self).last_mac_change == timestamp,
            keeps_config(*old(self), *final(self)),
            final(self).ip_addresses@ == old(self).ip_addresses@,
            final(self).stats == old(self).stats,
            final(self).original_mac == old(self).original_mac,
            final(self).state == old(self).state,
    {
        validate_mac(&mac)?;
        self.mac_address = mac;
        self.mac_randomized = true;
        self.last_mac_change = timestamp;
        Ok(())
    }

    /// Goes back to the original MAC.
    pub fn restore_original_mac(&mut self)
        ensures
            final(self).mac_address == old(self).original_mac,
            !final(self).mac_randomized,
            final(self).original_mac == old(self).original_mac,
            final(self).last_mac_change == old(self).last_mac_change,
            keeps_config(*old(self), *final(self)),
            final(self).ip_addresses@ == old(self).ip_addresses@,
            final(self).stats == old(self).stats,
    {
        self.mac_address = self.original_mac;
        self.mac_randomized = false;
    }

    /// Adds an address unless it is there already.
    pub fn add_ip_address(&mut self, ip: Ipv4Addr)
        ensures
            old(self).ip_addresses@.contains(ip) ==> final(self).ip_addresses@ == old(self).ip_addresses@,
            !old(self).ip_addresses@.contains(ip) ==> final(self).ip_addresses@ == old(self).ip_addresses@.push(ip),
            final(self).mac_address == old(self).mac_address,
            keeps_config(*old(self), *final(self)),
            final(self).stats == old(self).stats,
            final(self).mac_randomized == old(self).mac_randomized,
            final(self).last_mac_change == old(self).last_mac_change,
    {
        let mut i: usize = 0;
        while i < self.ip_addresses.len()
            invariant
                i <= self.ip_addresses@.len(),
                self.ip_addresses@ == old(self).ip_addresses@,
                self.mac_address == old(self).mac_address,
                forall|k: int| 0 <= k < i ==> self.ip_addresses@[k] != ip,
            decreases self.ip_addresses@.len() - i,
        {
            if ip_eq(&self.ip_addresses[i], &ip) {
                return;
            }
            i = i + 1;
        }
        self.ip_addresses.push(ip);
    }

    /// Removes every occurrence of an address.
    pub fn remove_ip_address(&mut self, ip: &Ipv4Addr)
        ensures
            final(self).ip_addresses@ == without_ip(old(self).ip_addresses@, *ip),
            final(self).mac_address == old(self).mac_address,
            keeps_config(*old(self), *final(self)),
            final(self).stats == old(self).stats,
            final(self).mac_randomized == old(self).mac_randomized,
            final(self).last_mac_change == old(self).last_mac_change,
    {
        let ghost orig = self.ip_addresses@;
        let mut kept: Vec<Ipv4Addr> = Vec::new();
        let mut i: usize = 0;
        while i < self.ip_addresses.len()
            invariant
                i <= self.ip_addresses@.len(),
                self.ip_addresses@ == orig,
                orig == old(self).ip_addresses@,
                self.mac_address == old(self).mac_address,
                kept@ == without_ip(orig.subrange(0, i as int), *ip),
            decreases self.ip_addresses@.len() - i,
        {
            proof {
                assert(orig.subrange(0, i as int + 1).drop_last() =~= orig.subrange(0, i as int));
            }
            let a = self.ip_addresses[i];
            if !ip_eq(&a, ip) {
                kept.push(a);
            }
            i = i + 1;
        }
        assert(orig.subrange(0, i as int) =~= orig);
        self.ip_addresses = kept;
    }

    /// Whether the interface is up.
    pub fn is_up(&self) -> (r: bool)
        ensures
            r == (self.state == InterfaceState::Up),
    {
        self.state == InterfaceState::Up
    }

    /// Loopback and virtual interfaces keep their MAC; others follow the
    /// privacy setting.
    pub fn can_randomize_mac(&self) -> (r: bool)
        ensures
            r == (match self.interface_type {
                InterfaceType::Loopback => false,
                InterfaceType::Virtual => false,
                _ => self.privacy_enabled,
            }),
    {
        match self.interface_type {
            InterfaceType::Loopback => false,
            InterfaceType::Virtual => false,
            _ => self.privacy_enabled,
        }
    }

    /// Adds traffic to the counters.
    pub fn update_stats(&mut self, bytes_sent: u64, bytes_received: u64, packets_sent: u64, packets_received: u64)
        requires
            old(self).stats.bytes_sent + bytes_sent <= u64::MAX,
            old(self).stats.bytes_received + bytes_received <= u64::MAX,
            old(self).stats.packets_sent + packets_sent <= u64::MAX,
            old(self).stats.packets_received + packets_received <= u64::MAX,
        ensures
            final(self).stats.bytes_sent == old(self).stats.bytes_sent + bytes_sent,
            final(self).stats.bytes_received == old(self).stats.bytes_received + bytes_received,
            final(self).stats.packets_sent == old(self).stats.packets_sent + packets_sent,
            final(self).stats.packets_received == old(self).stats.packets_received + packets_received,
            final(self).stats.errors_sent == old(self).stats.errors_sent,
            final(self).stats.errors_received == old(self).stats.errors_received,
            final(self).stats.dropped_sent == old(self).stats.dropped_sent,
            final(self).stats.dropped_received == old(self).stats.dropped_received,
            final(self).mac_address == old(self).mac_address,
            keeps_config(*old(self), *final(self)),
            final(self).ip_addresses@ == old(self).ip_addresses@,
            final(self).mac_randomized == old(self).mac_randomized,
            final(self).last_mac_change == old(self).last_mac_change,
    {
        self.stats.bytes_sent = self.stats.bytes_sent + bytes_sent;
        self.stats.bytes_received = self.stats.bytes_received + bytes_received;
        self.stats.packets_sent = self.stats.packets_sent + packets_sent;
        self.stats.packets_received = self.stats.packets_received + packets_received;
    }
}

impl InterfaceStats {
    /// All counters zero.
    pub open spec fn default_spec() -> InterfaceStats {
        InterfaceStats { bytes_sent: 0, bytes_received: 0, packets_sent: 0, packets_received: 0,
            errors_sent: 0, errors_received: 0, dropped_sent: 0, dropped_received: 0 }
    }
}

/// Something that happened to an interface.
#[derive(Debug)]
pub enum InterfaceEvent {
    Added { name: String },
    Removed { name: String },
    StateChanged { name: String, old_state: InterfaceState, new_state: InterfaceState },
    MacChanged { name: String, old_mac: MacAddr, new_mac: MacAddr },
    IpChanged { name: String, ip: Ipv4Addr, added: bool },
}

/// Receives interface events.
pub trait InterfaceEventHandler {
    fn handle_event(&mut self, event: InterfaceEvent);
}

/// An event handler that records nothing.
pub struct LoggingEventHandler;

impl InterfaceEventHandler for LoggingEventHandler {
    fn handle_event(&mut self, event: InterfaceEvent) {
    }
}

} // verus!
