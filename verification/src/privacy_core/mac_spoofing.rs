//! MAC address spoofing for registered network interfaces.
pub mod randomization;

use vstd::prelude::*;
use crate::privacy_core::{MacAddr, Result, IronVeilError};
use crate::privacy_core::mac_spoofing::randomization::{MacRandomizer, RandomGenerator, local_flags, has_oui, common_oui_list};
use crate::text::str_eq;

verus! {

/// Number of interface slots.
pub const MAX_INTERFACES: usize = 8;

/// A network interface as the spoofing service knows it.
#[derive(Debug, Clone)]
pub struct NetworkInterface {
    pub name: String,
    pub mac: MacAddr,
    pub is_up: bool,
    pub interface_type: InterfaceType,
}

/// Kinds of interface.
#[derive(Debug, Clone, Copy, PartialEq, Eq, Structural)]
pub enum InterfaceType {
    Ethernet,
    Wireless,
    Loopback,
    Unknown,
}

/// Index of the first registered interface named `name`.
pub open spec fn find_named(s: Seq<Option<NetworkInterface>>, name: Seq<char>) -> Option<int>
    decreases s.len(),
{
    if s.len() == 0 {
        None
    } else {
        match find_named(s.drop_last(), name) {
            Some(i) => Some(i),
            None => if s.last() matches Some(x) && x.name@ == name { Some(s.len() - 1) } else { None },
        }
    }
}

/// Index of the first empty slot.
pub open spec fn first_empty(s: Seq<Option<NetworkInterface>>) -> Option<int>
    decreases s.len(),
{
    if s.len() == 0 {
        None
    } else {
        match first_empty(s.drop_last()) {
            Some(i) => Some(i),
            None => if s.last() is None { Some(s.len() - 1) } else { None },
        }
    }
}

proof fn lemma_first_empty_prefix(s: Seq<Option<NetworkInterface>>, j: int)
    requires
        0 <= j <= s.len(),
        first_empty(s.subrange(0, j)) is Some,
    ensures
        first_empty(s) == first_empty(s.subrange(0, j)),
    decreases s.len(),
{
    if j == s.len() {
        assert(s.subrange(0, j) =~= s);
    } else {
        assert(s.drop_last().subrange(0, j) =~= s.subrange(0, j));
        lemma_first_empty_prefix(s.drop_last(), j);
    }
}

proof fn lemma_find_named_prefix(s: Seq<Option<NetworkInterface>>, name: Seq<char>, j: int)
    requires
        0 <= j <= s.len(),
        find_named(s.subrange(0, j), name) is Some,
    ensures
        find_named(s, name) == find_named(s.subrange(0, j), name),
    decreases s.len(),
{
    if j == s.len() {
        assert(s.subrange(0, j) =~= s);
    } else {
        assert(s.drop_last().subrange(0, j) =~= s.subrange(0, j));
        lemma_find_named_prefix(s.drop_last(), name, j);
    }
}

/// A MAC the hardware accepts: unicast and not all zeros.
pub open spec fn hardware_ok(m: MacAddr) -> bool {
    m.0@[0] & 0x01 == 0 && !(forall|i: int| 0 <= i < 6 ==> m.0@[i] == 0)
}

/// The spoofing service: up to eight interfaces and a MAC generator.
pub struct MacSpoofingService {
    pub interfaces: Vec<Option<NetworkInterface>>,
    pub randomizer: MacRandomizer,
}

impl MacSpoofingService {
    /// Eight slots.
    pub open spec fn wf(&self) -> bool {
        self.interfaces@.len() == MAX_INTERFACES && self.randomizer.wf()
    }

    /// A service with no interfaces, generating from `entropy`.
    pub fn new(entropy: Box<dyn RandomGenerator>) -> (r: Self)
        ensures
            r.wf(),
            r.interfaces@ == Seq::new(MAX_INTERFACES as nat, |i: int| None::<NetworkInterface>),
    {
        let mut interfaces: Vec<Option<NetworkInterface>> = Vec::new();
        let mut i: usize = 0;
        while i < MAX_INTERFACES
            invariant
                i <= MAX_INTERFACES,
                interfaces@ == Seq::new(i as nat, |k: int| None::<NetworkInterface>),
            decreases MAX_INTERFACES - i,
        {
            interfaces.push(None);
            assert(interfaces@ =~= Seq::new(i as nat + 1, |k: int| None::<NetworkInterface>));
            i = i + 1;
        }
        MacSpoofingService { interfaces, randomizer: MacRandomizer::new(entropy) }
    }

    /// Puts an interface in the first free slot.
    pub fn register_interface(&mut self, interface: NetworkInterface) -> (r: Result<()>)
        requires
            old(self).wf(),
        ensures
            final(self).wf(),
            first_empty(old(self).interfaces@) is None ==> r == Err::<(), IronVeilError>(IronVeilError::OperationFailed)
                && final(self).interfaces@ == old(self).interfaces@,
            first_empty(old(self).interfaces@) matches Some(i) ==> r is Ok && final(self).interfaces@
                == old(self).interfaces@.update(i, Some(interface)),
    {
        let mut i: usize = 0;
        while i < self.interfaces.len()
            invariant
                self.wf(),
                *self == *old(self),
                i <= self.interfaces@.len(),
                first_empty(self.interfaces@.subrange(0, i as int)) is None,
            decreases self.interfaces@.len() - i,
        {
            proof {
                assert(self.interfaces@.subrange(0, i as int + 1).drop_last() =~= self.interfaces@.subrange(0, i as int));
            }
            if self.interfaces[i].is_none() {
                proof {
                    lemma_first_empty_prefix(self.interfaces@, i as int + 1);
                }
                self.interfaces.set(i, Some(interface));
                return Ok(());
            }
            i = i + 1;
        }
        proof {
            assert(self.interfaces@.subrange(0, i as int) =~= self.interfaces@);
        }
        Err(IronVeilError::OperationFailed)
    }

    /// Slot of the interface named `name`.
    pub fn find_interface(&self, name: &str) -> (r: Option<usize>)
        requires
            self.wf(),
        ensures
            r == (match find_named(self.interfaces@, name@) {
                Some(i) => Some(i as usize),
                None => None,
            }),
            r matches Some(i) ==> i < MAX_INTERFACES,
    {
        let mut i: usize = 0;
        while i < self.interfaces.len()
            invariant
                self.wf(),
                i <= self.interfaces@.len(),
                find_named(self.interfaces@.subrange(0, i as int), name@) is None,
            decreases self.interfaces@.len() - i,
        {
            proof {
                assert(self.interfaces@.subrange(0, i as int + 1).drop_last() =~= self.interfaces@.subrange(0, i as int));
            }
            let hit = match &self.interfaces[i] {
                Some(iface) => str_eq(iface.name.as_str(), name),
                None => false,
            };
            if hit {
                proof {
                    lemma_find_named_prefix(self.interfaces@, name@, i as int + 1);
                }
                return Some(i);
            }
            i = i + 1;
        }
        proof {
            assert(self.interfaces@.subrange(0, i as int) =~= self.interfaces@);
        }
        None
    }

    /// Slots of the registered interfaces, in slot order.
    pub fn list_interfaces(&self) -> (r: Vec<usize>)
        requires
            self.wf(),
        ensures
            r@ == occupied(self.interfaces@),
            r@.len() <= MAX_INTERFACES,
            forall|k: int| 0 <= k < r@.len() ==> r@[k] < MAX_INTERFACES && (#[trigger] self.interfaces@[r@[k] as int]) is Some,
    {
        let mut v: Vec<usize> = Vec::new();
        let mut i: usize = 0;
        while i < self.interfaces.len()
            invariant
                self.wf(),
                i <= self.interfaces@.len(),
                v@ == occupied(self.interfaces@.subrange(0, i as int)),
            decreases self.interfaces@.len() - i,
        {
            proof {
                assert(self.interfaces@.subrange(0, i as int + 1).drop_last() =~= self.interfaces@.subrange(0, i as int));
            }
            if self.interfaces[i].is_some() {
                v.push(i);
            }
            i = i + 1;
        }
        proof {
            assert(self.interfaces@.subrange(0, i as int) =~= self.interfaces@);
            lemma_occupied_slots(self.interfaces@);
        }
        v
    }

    /// Gives the named interface a freshly generated MAC and applies it.
    pub fn randomize_interface_mac(&mut self, interface_name: &str) -> (r: Result<MacAddr>)
        requires
            old(self).wf(),
            old(self).randomizer.generation_counter < u64::MAX,
        ensures
            final(self).wf(),
            final(self).randomizer.generation_counter == old(self).randomizer.generation_counter + 1,
            find_named(old(self).interfaces@, interface_name@) is None ==> r == Err::<MacAddr, IronVeilError>(
                IronVeilError::InterfaceNotFound) && final(self).interfaces@ == old(self).interfaces@,
            find_named(old(self).interfaces@, interface_name@) matches Some(i) ==> (r matches Ok(m)
                && mac_replaced(old(self).interfaces@, final(self).interfaces@, i, m)),
            r matches Ok(m) ==> fresh_mac(m),
            r matches Ok(m) ==> m.0@[0] & 0x01 == 0 && m.0@[0] & 0x02 != 0,
    {
        let new_mac = self.randomizer.generate_realistic_mac();
        match self.find_interface(interface_name) {
            Some(i) => {
                proof {
                    lemma_find_named_some(self.interfaces@, interface_name@);
                    let b0 = new_mac.0@[0];
                    assert(b0 & 0x02 != 0 ==> b0 != 0) by (bit_vector);
                }
                self.set_mac_at(i, new_mac);
                match self.apply_mac_to_hardware(new_mac) {
                    Ok(()) => Ok(new_mac),
                    Err(e) => Err(e),
                }
            },
            None => Err(IronVeilError::InterfaceNotFound),
        }
    }

    fn set_mac_at(&mut self, i: usize, mac: MacAddr)
        requires
            old(self).wf(),
            i < MAX_INTERFACES,
        ensures
            final(self).wf(),
            final(self).randomizer == old(self).randomizer,
            final(self).interfaces@.len() == old(self).interfaces@.len(),
            forall|k: int| 0 <= k < MAX_INTERFACES && k != i ==> final(self).interfaces@[k] == old(self).interfaces@[k],
            old(self).interfaces@[i as int] matches Some(x) ==> (final(self).interfaces@[i as int] matches Some(y)
                && y.mac == mac && y.name@ == x.name@ && y.is_up == x.is_up && y.interface_type == x.interface_type),
            old(self).interfaces@[i as int] is None ==> final(self).interfaces@[i as int] is None,
    {
        let updated = match &self.interfaces[i] {
            Some(iface) => Some(NetworkInterface { name: iface.name.clone(), mac, is_up: iface.is_up, interface_type: iface.interface_type }),
            None => None,
        };
        match updated {
            Some(u) => self.interfaces.set(i, Some(u)),
            None => {},
        }
    }

    /// The hardware refuses multicast and all-zero addresses.
    fn apply_mac_to_hardware(&self, mac: MacAddr) -> (r: Result<()>)
        ensures
            r is Ok <==> hardware_ok(mac),
            r is Err ==> r == Err::<(), IronVeilError>(IronVeilError::InvalidMacAddress),
    {
        if mac.is_multicast() || mac.is_zero() {
            return Err(IronVeilError::InvalidMacAddress);
        }
        Ok(())
    }
}

/// Changing the MAC addresses of interfaces.
pub trait MacSpoofing {
    /// The implementation's consistency.
    spec fn spoofing_inv(&self) -> bool;

    /// Room left for generating addresses.
    spec fn can_generate(&self, n: int) -> bool;

    /// A fresh address.
    fn generate_random_mac(&mut self) -> (r: MacAddr)
        requires
            old(self).spoofing_inv(),
            old(self).can_generate(1),
        ensures
            final(self).spoofing_inv(),
    ;

    /// Sets an interface's address.
    fn apply_mac_to_interface(&mut self, interface: &str, mac: MacAddr) -> (r: Result<()>)
        requires
            old(self).spoofing_inv(),
        ensures
            final(self).spoofing_inv(),
    ;

    /// An interface's address.
    fn get_current_mac(&self, interface: &str) -> Result<MacAddr>
        requires
            self.spoofing_inv(),
    ;

    /// Gives every interface a fresh address.
    fn randomize_all_interfaces(&mut self) -> (r: Result<()>)
        requires
            old(self).spoofing_inv(),
            old(self).can_generate(MAX_INTERFACES as int),
        ensures
            final(self).spoofing_inv(),
    ;
}

impl MacSpoofing for MacSpoofingService {
    open spec fn spoofing_inv(&self) -> bool {
        self.wf()
    }

    open spec fn can_generate(&self, n: int) -> bool {
        self.randomizer.generation_counter + n <= u64::MAX
    }

    /// An address with a common OUI.
    fn generate_random_mac(&mut self) -> (r: MacAddr)
        ensures
            final(self).randomizer.generation_counter == old(self).randomizer.generation_counter + 1,
            final(self).interfaces@ == old(self).interfaces@,
            fresh_mac(r),
    {
        self.randomizer.generate_realistic_mac()
    }

    /// Sets the named interface's address; the hardware refuses multicast and
    /// all-zero addresses (the address is recorded all the same).
    fn apply_mac_to_interface(&mut self, interface: &str, mac: MacAddr) -> (r: Result<()>)
        ensures
            find_named(old(self).interfaces@, interface@) is None ==> r == Err::<(), IronVeilError>(
                IronVeilError::InterfaceNotFound) && final(self).interfaces@ == old(self).interfaces@,
            find_named(old(self).interfaces@, interface@) is Some ==> (r is Ok <==> hardware_ok(mac)),
            find_named(old(self).interfaces@, interface@) matches Some(i) ==> (final(self).interfaces@[i] matches Some(x) && x.mac == mac),
    {
        match self.find_interface(interface) {
            Some(i) => {
                proof {
                    lemma_find_named_some(self.interfaces@, interface@);
                }
                self.set_mac_at(i, mac);
                self.apply_mac_to_hardware(mac)
            },
            None => Err(IronVeilError::InterfaceNotFound),
        }
    }

    /// The named interface's address.
    fn get_current_mac(&self, interface: &str) -> (r: Result<MacAddr>)
        ensures
            find_named(self.interfaces@, interface@) is None ==> r == Err::<MacAddr, IronVeilError>(IronVeilError::InterfaceNotFound),
            find_named(self.interfaces@, interface@) matches Some(i) ==> (self.interfaces@[i] matches Some(x)
                && r == Ok::<MacAddr, IronVeilError>(x.mac)),
    {
        match self.find_interface(interface) {
            Some(i) => {
                proof {
                    lemma_find_named_some(self.interfaces@, interface@);
                }
                match &self.interfaces[i] {
                    Some(x) => Ok(x.mac),
                    None => Err(IronVeilError::InterfaceNotFound),
                }
            },
            None => Err(IronVeilError::InterfaceNotFound),
        }
    }

    /// Gives each registered interface, in slot order, a fresh address: the
    /// interface is looked up by name, so of several with one name the first
    /// is the one that changes.  The generated addresses are always accepted
    /// by the hardware, so no step fails.
    fn randomize_all_interfaces(&mut self) -> (r: Result<()>)
        ensures
            r is Ok,
            final(self).randomizer.generation_counter == old(self).randomizer.generation_counter
                + occupied(old(self).interfaces@).len(),
            all_randomized(old(self).interfaces@, final(self).interfaces@, MAX_INTERFACES as int),
    {
        let ghost o = self.interfaces@;
        let ghost c0 = self.randomizer.generation_counter;
        proof {
            assert(o.subrange(0, 0) =~= Seq::<Option<NetworkInterface>>::empty());
        }
        let mut i: usize = 0;
        while i < MAX_INTERFACES
            invariant
                self.wf(),
                i <= MAX_INTERFACES,
                o.len() == MAX_INTERFACES,
                c0 + MAX_INTERFACES <= u64::MAX,
                self.randomizer.generation_counter == c0 + occupied(o.subrange(0, i as int)).len(),
                occupied(o.subrange(0, i as int)).len() <= i,
                all_randomized(o, self.interfaces@, i as int),
            decreases MAX_INTERFACES - i,
        {
            proof {
                assert(o.subrange(0, i as int + 1).drop_last() =~= o.subrange(0, i as int));
            }
            let name = match &self.interfaces[i] {
                Some(x) => Some(x.name.clone()),
                None => None,
            };
            match name {
                Some(n) => {
                    proof {
                        lemma_find_named_same_names(o, self.interfaces@, n@);
                        lemma_find_named_upto(o, n@, i as int);
                        lemma_find_named_some(o, n@);
                    }
                    let new_mac = self.randomizer.generate_realistic_mac();
                    match self.find_interface(n.as_str()) {
                        Some(j) => {
                            self.set_mac_at(j, new_mac);
                            proof {
                                let b0 = new_mac.0@[0];
                                assert(b0 & 0x02 != 0 ==> b0 != 0) by (bit_vector);
                                assert(hardware_ok(new_mac));
                            }
                            match self.apply_mac_to_hardware(new_mac) {
                                Ok(()) => {},
                                Err(e) => {
                                    return Err(e);
                                },
                            }
                        },
                        None => {},
                    }
                },
                None => {},
            }
            i = i + 1;
        }
        proof {
            assert(o.subrange(0, i as int) =~= o);
        }
        Ok(())
    }
}

/// `after` is `before` with the interface in slot `i` given address `m`,
/// keeping its name, state and kind, and every other slot as it was.
pub open spec fn mac_replaced(
    before: Seq<Option<NetworkInterface>>,
    after: Seq<Option<NetworkInterface>>,
    i: int,
    m: MacAddr,
) -> bool {
    &&& after.len() == before.len()
    &&& forall|k: int| 0 <= k < before.len() && k != i ==> after[k] == before[k]
    &&& before[i] matches Some(x) && after[i] matches Some(y) && y.mac == m && y.name@ == x.name@
        && y.is_up == x.is_up && y.interface_type == x.interface_type
}

/// Slots holding an interface, in slot order.
pub open spec fn occupied(s: Seq<Option<NetworkInterface>>) -> Seq<usize>
    decreases s.len(),
{
    if s.len() == 0 {
        Seq::empty()
    } else {
        occupied(s.drop_last()) + (if s.last() is Some {
            seq![(s.len() - 1) as usize]
        } else {
            Seq::empty()
        })
    }
}

/// An address as the generator hands them out: unicast, locally
/// administered, with a common OUI.
pub open spec fn fresh_mac(m: MacAddr) -> bool {
    local_flags(m) && exists|o: [u8; 3]| #[trigger] common_oui_list().contains(o) && has_oui(m, o)
}

/// `after` is `before` with the slots below `upto` re-randomized: every
/// interface keeps its name, state and kind; the first interface of each name
/// has a fresh address and the others keep theirs.
pub open spec fn all_randomized(
    before: Seq<Option<NetworkInterface>>,
    after: Seq<Option<NetworkInterface>>,
    upto: int,
) -> bool {
    &&& after.len() == before.len()
    &&& forall|m: int|
        0 <= m < before.len() ==> match #[trigger] before[m] {
            None => after[m] is None,
            Some(x) => after[m] matches Some(y) && y.name@ == x.name@ && y.is_up == x.is_up
                && y.interface_type == x.interface_type && (if find_named(before, x.name@) == Some(m)
                && m < upto {
                fresh_mac(y.mac)
            } else {
                y.mac == x.mac
            }),
        }
}

/// The slots `occupied` lists hold interfaces, and there are at most as many
/// as slots.
proof fn lemma_occupied_slots(s: Seq<Option<NetworkInterface>>)
    requires
        s.len() <= usize::MAX,
    ensures
        occupied(s).len() <= s.len(),
        forall|k: int| 0 <= k < occupied(s).len() ==> #[trigger] occupied(s)[k] < s.len() && s[occupied(s)[k] as int] is Some,
    decreases s.len(),
{
    if s.len() > 0 {
        lemma_occupied_slots(s.drop_last());
        let p = occupied(s.drop_last());
        let tail = if s.last() is Some {
            seq![(s.len() - 1) as usize]
        } else {
            Seq::<usize>::empty()
        };
        assert(occupied(s) == p + tail);
        assert forall|k: int| 0 <= k < occupied(s).len() implies #[trigger] occupied(s)[k] < s.len()
            && s[occupied(s)[k] as int] is Some by {
            if k < p.len() {
                assert(occupied(s)[k] == p[k]);
                assert(s.drop_last()[p[k] as int] == s[p[k] as int]);
            } else {
                assert(tail.len() > 0);
                assert(occupied(s)[k] == tail[k - p.len()]);
            }
        }
    }
}

/// The first slot named `name` is found alike in two tables that hold
/// interfaces of the same names in the same slots.
proof fn lemma_find_named_same_names(
    s1: Seq<Option<NetworkInterface>>,
    s2: Seq<Option<NetworkInterface>>,
    name: Seq<char>,
)
    requires
        s1.len() == s2.len(),
        forall|m: int| 0 <= m < s1.len() ==> match #[trigger] s1[m] {
            None => s2[m] is None,
            Some(x) => s2[m] matches Some(y) && y.name@ == x.name@,
        },
    ensures
        find_named(s2, name) == find_named(s1, name),
    decreases s1.len(),
{
    if s1.len() > 0 {
        let n = (s1.len() - 1) as int;
        assert forall|m: int| 0 <= m < n implies match #[trigger] s1.drop_last()[m] {
            None => s2.drop_last()[m] is None,
            Some(x) => s2.drop_last()[m] matches Some(y) && y.name@ == x.name@,
        } by {
            assert(s1.drop_last()[m] == s1[m]);
            assert(s2.drop_last()[m] == s2[m]);
        }
        lemma_find_named_same_names(s1.drop_last(), s2.drop_last(), name);
        assert(s1[n] == s1.last());
        assert(s2[n] == s2.last());
    }
}

/// An interface named `name` in slot `i` means the first one so named is at
/// or before `i`.
proof fn lemma_find_named_upto(s: Seq<Option<NetworkInterface>>, name: Seq<char>, i: int)
    requires
        0 <= i < s.len(),
        s[i] matches Some(x) && x.name@ == name,
    ensures
        find_named(s, name) matches Some(j) && j <= i,
    decreases s.len(),
{
    lemma_find_named_some(s.drop_last(), name);
    if i < s.len() - 1 {
        assert(s.drop_last()[i] == s[i]);
        lemma_find_named_upto(s.drop_last(), name, i);
    } else {
        assert(s.last() == s[i]);
    }
}

proof fn lemma_find_named_some(s: Seq<Option<NetworkInterface>>, name: Seq<char>)
    ensures
        find_named(s, name) matches Some(i) ==> 0 <= i < s.len() && (s[i] matches Some(x) && x.name@ == name),
    decreases s.len(),
{
    if s.len() > 0 {
        lemma_find_named_some(s.drop_last(), name);
    }
}

/// Sets up the spoofing service.
pub fn init(service: &mut Option<MacSpoofingService>, entropy: Box<dyn RandomGenerator>) -> (r: Result<()>)
    ensures
        r is Ok,
        *final(service) matches Some(s) && s.wf() && s.interfaces@ == Seq::new(MAX_INTERFACES as nat, |i: int| None::<NetworkInterface>),
{
    *service = Some(MacSpoofingService::new(entropy));
    Ok(())
}

/// Registers an interface with the service.
pub fn register_interface(service: &mut Option<MacSpoofingService>, interface: NetworkInterface) -> (r: Result<()>)
    requires
        *old(service) matches Some(s) ==> s.wf(),
    ensures
        *old(service) is None ==> r == Err::<(), IronVeilError>(IronVeilError::OperationFailed),
        *old(service) matches Some(s) ==> (*final(service) matches Some(t) && t.wf() && (first_empty(s.interfaces@) is None
            ==> r is Err && t.interfaces@ == s.interfaces@) && (first_empty(s.interfaces@) matches Some(i)
            ==> r is Ok && t.interfaces@ == s.interfaces@.update(i, Some(interface)))),
{
    match service {
        Some(s) => s.register_interface(interface),
        None => Err(IronVeilError::OperationFailed),
    }
}

/// Gives the named interface a fresh address.
pub fn randomize_mac(service: &mut Option<MacSpoofingService>, interface_name: &str) -> (r: Result<MacAddr>)
    requires
        *old(service) matches Some(s) ==> s.wf() && s.randomizer.generation_counter < u64::MAX,
    ensures
        *old(service) is None ==> r == Err::<MacAddr, IronVeilError>(IronVeilError::OperationFailed),
        *old(service) matches Some(s) ==> (find_named(s.interfaces@, interface_name@) is None ==> r
            == Err::<MacAddr, IronVeilError>(IronVeilError::InterfaceNotFound)),
        *old(service) matches Some(s) ==> (*final(service) matches Some(t) && t.wf() && (find_named(
            s.interfaces@, interface_name@) is None ==> t.interfaces@ == s.interfaces@) && (find_named(
            s.interfaces@, interface_name@) matches Some(i) ==> (r matches Ok(m) && mac_replaced(
            s.interfaces@, t.interfaces@, i, m)))),
        r matches Ok(m) ==> fresh_mac(m),
        r matches Ok(m) ==> m.0@[0] & 0x01 == 0 && m.0@[0] & 0x02 != 0,
{
    match service {
        Some(s) => s.randomize_interface_mac(interface_name),
        None => Err(IronVeilError::OperationFailed),
    }
}

} // verus!
