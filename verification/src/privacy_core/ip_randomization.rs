//! IP address randomisation and the Tor and VPN routes.
pub mod tor_prep;

use vstd::prelude::*;
use crate::privacy_core::{Ipv4Addr, Result, IronVeilError, private_ip};
use crate::privacy_core::mac_spoofing::randomization::RandomGenerator;
use crate::privacy_core::ip_randomization::tor_prep::{TorConfig, TorService, TorStatus, route_room};

verus! {

/// The address made of the bytes that the `next_u8` calls `4k` to `4k + 3`
/// from `rng` give, in order.
pub open spec fn drawn_ip<R: RandomGenerator + ?Sized>(rng: &R, k: nat) -> Ipv4Addr {
    Ipv4Addr([rng.u8_at(4 * k), rng.u8_at((4 * k + 1) as nat), rng.u8_at((4 * k + 2) as nat), rng.u8_at((4 * k + 3) as nat)])
}

/// `k` is the first group of four drawn bytes that makes an address fit to
/// pose as public.
pub open spec fn first_public<R: RandomGenerator + ?Sized>(rng: &R, k: nat) -> bool {
    &&& public_ok(drawn_ip(rng, k))
    &&& forall|j: nat| j < k ==> !public_ok(#[trigger] drawn_ip(rng, j))
}

/// Only one group of draws is the first public one, and when the first four
/// draws make a public address, that group is the first.
pub proof fn law_first_public<R: RandomGenerator + ?Sized>(rng: &R, k1: nat, k2: nat)
    ensures
        first_public(rng, k1) && first_public(rng, k2) ==> k1 == k2,
        public_ok(drawn_ip(rng, 0)) ==> first_public(rng, 0),
{
    if first_public(rng, k1) && first_public(rng, k2) && k1 != k2 {
        if k1 < k2 {
            assert(!public_ok(drawn_ip(rng, k1)));
        } else {
            assert(!public_ok(drawn_ip(rng, k2)));
        }
    }
}

/// A VPN endpoint.
#[derive(Debug, Clone, Copy, PartialEq, Eq)]
pub struct VpnConfig {
    pub server_ip: Ipv4Addr,
    pub local_ip: Ipv4Addr,
    pub dns_servers: [Ipv4Addr; 2],
    pub is_connected: bool,
}

/// An IPv4 configuration.
#[derive(Debug, Clone, Copy, PartialEq, Eq)]
pub struct NetworkConfig {
    pub ip: Ipv4Addr,
    pub subnet_mask: Ipv4Addr,
    pub gateway: Ipv4Addr,
    pub dns_primary: Ipv4Addr,
    pub dns_secondary: Option<Ipv4Addr>,
}

/// The network part of an address under a mask.
pub open spec fn masked_ip(ip: Ipv4Addr, mask: Ipv4Addr) -> Seq<u8> {
    seq![ip.0@[0] & mask.0@[0], ip.0@[1] & mask.0@[1], ip.0@[2] & mask.0@[2], ip.0@[3] & mask.0@[3]]
}

/// A configuration the service accepts: not a loopback address, and the
/// gateway on the address's subnet.
pub open spec fn config_ok(c: NetworkConfig) -> bool {
    c.ip.0@[0] != 127 && masked_ip(c.ip, c.subnet_mask) == masked_ip(c.gateway, c.subnet_mask)
}

/// An address fit to pose as public: not private, loopback, in 0/8,
/// link-local 169.254/16, or at 224 and above.
pub open spec fn public_ok(a: Ipv4Addr) -> bool {
    !private_ip(a.0) && a.0@[0] != 127 && a.0@[0] != 0 && !(a.0@[0] == 169 && a.0@[1] == 254) && a.0@[0] < 224
}

/// The address, gateway and DNS servers in use, with a Tor service and a
/// VPN configuration.
pub struct IpRandomizationService {
    pub current_ip: Option<Ipv4Addr>,
    pub gateway_ip: Option<Ipv4Addr>,
    pub dns_servers: [Option<Ipv4Addr>; 4],
    pub tor_service: Option<TorService>,
    pub vpn_config: Option<VpnConfig>,
}

impl IpRandomizationService {
    /// A service with nothing configured.
    pub fn new() -> (r: Self)
        ensures
            r.current_ip is None && r.gateway_ip is None && r.tor_service is None && r.vpn_config is None,
            forall|i: int| 0 <= i < 4 ==> r.dns_servers@[i] is None,
    {
        IpRandomizationService { current_ip: None, gateway_ip: None, dns_servers: [None, None, None, None], tor_service: None, vpn_config: None }
    }

    /// The private address draws give: the first modulo 3 picks 10/8 (the
    /// next three bytes), 172.16/12 (the next byte modulo 16 added to 16,
    /// then two bytes) or 192.168/16 (the next two bytes).
    pub fn private_ip_from_draws(pick: u32, x: u8, y: u8, z: u8) -> (r: Ipv4Addr)
        ensures
            pick % 3 == 0 ==> r.0@ == seq![10u8, x, y, z],
            pick % 3 == 1 ==> r.0@ == seq![172u8, (16 + x % 16) as u8, y, z],
            pick % 3 == 2 ==> r.0@ == seq![192u8, 168u8, x, y],
            private_ip(r.0),
    {
        let p = pick % 3;
        if p == 0 {
            Ipv4Addr::new(10, x, y, z)
        } else if p == 1 {
            Ipv4Addr::new(172, 16 + (x % 16), y, z)
        } else {
            Ipv4Addr::new(192, 168, x, y)
        }
    }

    /// A private address: 10/8, 172.16/12 or 192.168/16, picked with the
    /// first draw.
    pub fn generate_private_ip<R: RandomGenerator + ?Sized>(&self, rng: &mut R) -> (r: Ipv4Addr)
        ensures
            private_ip(r.0),
            old(rng).u32_draw() % 3 == 0 ==> r.0@[0] == 10,
            old(rng).u32_draw() % 3 == 1 ==> r.0@[0] == 172 && 16 <= r.0@[1] < 32,
            old(rng).u32_draw() % 3 == 2 ==> r.0@[0] == 192 && r.0@[1] == 168,
    {
        let pick = rng.next_u32();
        let x = rng.next_u8();
        let y = rng.next_u8();
        let z = if pick % 3 < 2 { rng.next_u8() } else { 0 };
        Self::private_ip_from_draws(pick, x, y, z)
    }

    /// Whether an address may pose as public.
    pub fn is_public_candidate(ip: &Ipv4Addr) -> (r: bool)
        ensures
            r == public_ok(*ip),
    {
        let b = ip.as_bytes();
        !ip.is_private() && !ip.is_loopback() && b[0] != 0 && !(b[0] == 169 && b[1] == 254) && b[0] < 224
    }

    /// Draws addresses, four bytes at a time, until one may pose as public:
    /// the result is the first such group of draws (after `u64::MAX` groups
    /// that all fail, 8.8.8.8).
    pub fn generate_public_ip<R: RandomGenerator + ?Sized>(&self, rng: &mut R) -> (r: Ipv4Addr)
        ensures
            public_ok(r),
            (exists|k: nat| k < u64::MAX && #[trigger] first_public(old(rng), k) && r.0@ == drawn_ip(old(rng), k).0@)
                || (r.0@ == seq![8u8, 8, 8, 8] && forall|j: nat| j < u64::MAX ==> !public_ok(
                #[trigger] drawn_ip(old(rng), j))),
    {
        let mut tries: u64 = 0;
        while tries < u64::MAX
            invariant
                tries <= u64::MAX,
                forall|i: nat| #[trigger] rng.u8_at(i) == old(rng).u8_at((i + 4 * tries) as nat),
                forall|j: nat| j < tries ==> !public_ok(#[trigger] drawn_ip(old(rng), j)),
            decreases u64::MAX - tries,
        {
            let ghost t = tries as nat;
            let a = rng.next_u8();
            let b = rng.next_u8();
            let c = rng.next_u8();
            let d = rng.next_u8();
            let ip = Ipv4Addr::new(a, b, c, d);
            proof {
                assert(a == old(rng).u8_at((4 * t) as nat));
                assert(b == old(rng).u8_at((4 * t + 1) as nat));
                assert(c == old(rng).u8_at((4 * t + 2) as nat));
                assert(d == old(rng).u8_at((4 * t + 3) as nat));
                assert(ip.0@ == drawn_ip(old(rng), t).0@);
            }
            if Self::is_public_candidate(&ip) {
                assert(first_public(old(rng), t));
                return ip;
            }
            tries = tries + 1;
        }
        let fallback = Ipv4Addr::new(8, 8, 8, 8);
        assert(public_ok(fallback));
        fallback
    }

    /// The network part of `ip` under `mask`.
    pub fn apply_subnet_mask(&self, ip: Ipv4Addr, mask: Ipv4Addr) -> (r: Ipv4Addr)
        ensures
            r.0@ == masked_ip(ip, mask),
    {
        let i = ip.as_bytes();
        let m = mask.as_bytes();
        Ipv4Addr::new(i[0] & m[0], i[1] & m[1], i[2] & m[2], i[3] & m[3])
    }

    fn validate_network_config(&self, config: &NetworkConfig) -> (r: Result<()>)
        ensures
            r is Ok <==> masked_ip(config.ip, config.subnet_mask) == masked_ip(config.gateway, config.subnet_mask),
            r is Err ==> r == Err::<(), IronVeilError>(IronVeilError::InvalidIpAddress),
    {
        let ip_net = self.apply_subnet_mask(config.ip, config.subnet_mask);
        let gw_net = self.apply_subnet_mask(config.gateway, config.subnet_mask);
        let same = ip_net.0[0] == gw_net.0[0] && ip_net.0[1] == gw_net.0[1] && ip_net.0[2] == gw_net.0[2] && ip_net.0[3] == gw_net.0[3];
        if !same {
            proof {
                if masked_ip(config.ip, config.subnet_mask) == masked_ip(config.gateway, config.subnet_mask) {
                    assert(ip_net.0@ == gw_net.0@);
                    assert(ip_net.0@[0] == gw_net.0@[0] && ip_net.0@[1] == gw_net.0@[1] && ip_net.0@[2] == gw_net.0@[2] && ip_net.0@[3] == gw_net.0@[3]);
                }
            }
            return Err(IronVeilError::InvalidIpAddress);
        }
        assert(ip_net.0@ =~= gw_net.0@);
        Ok(())
    }

    fn apply_ip_configuration(&self, config: &NetworkConfig) -> (r: Result<()>)
        ensures
            r is Ok <==> config_ok(*config),
            r is Err ==> r == Err::<(), IronVeilError>(IronVeilError::InvalidIpAddress),
    {
        if config.ip.is_loopback() {
            return Err(IronVeilError::InvalidIpAddress);
        }
        self.validate_network_config(config)
    }

    /// Records a configuration and applies it; a loopback address or a
    /// gateway off the subnet is refused (after recording).
    pub fn set_ip_config(&mut self, config: NetworkConfig) -> (r: Result<()>)
        ensures
            final(self).current_ip == Some(config.ip),
            final(self).gateway_ip == Some(config.gateway),
            final(self).dns_servers@[0] == Some(config.dns_primary),
            final(self).dns_servers@[1] == config.dns_secondary,
            final(self).dns_servers@[2] == old(self).dns_servers@[2],
            final(self).dns_servers@[3] == old(self).dns_servers@[3],
            r is Ok <==> config_ok(config),
            r is Err ==> r == Err::<(), IronVeilError>(IronVeilError::InvalidIpAddress),
            final(self).vpn_config == old(self).vpn_config,
    {
        self.current_ip = Some(config.ip);
        self.gateway_ip = Some(config.gateway);
        self.dns_servers[0] = Some(config.dns_primary);
        self.dns_servers[1] = config.dns_secondary;
        self.apply_ip_configuration(&config)
    }

    /// The configuration in use (with a /24 mask), when address, gateway and
    /// primary DNS are all set.
    pub fn get_current_config(&self) -> (r: Option<NetworkConfig>)
        ensures
            r is Some <==> (self.current_ip is Some && self.gateway_ip is Some && self.dns_servers@[0] is Some),
            r matches Some(c) ==> Some(c.ip) == self.current_ip && Some(c.gateway) == self.gateway_ip
                && Some(c.dns_primary) == self.dns_servers@[0] && c.dns_secondary == self.dns_servers@[1]
                && c.subnet_mask.0@ == seq![255u8, 255, 255, 0],
    {
        match (self.current_ip, self.gateway_ip, self.dns_servers[0]) {
            (Some(ip), Some(gateway), Some(dns)) => Some(NetworkConfig {
                ip,
                subnet_mask: Ipv4Addr::new(255, 255, 255, 0),
                gateway,
                dns_primary: dns,
                dns_secondary: self.dns_servers[1],
            }),
            _ => None,
        }
    }

    /// Sets up a stopped Tor service.
    pub fn init_tor(&mut self, config: TorConfig) -> (r: Result<()>)
        ensures
            r is Ok,
            final(self).tor_service matches Some(t) && t.status == TorStatus::Stopped,
            final(self).current_ip == old(self).current_ip,
            final(self).vpn_config == old(self).vpn_config,
    {
        self.tor_service = Some(TorService::new(config));
        Ok(())
    }

    /// The Tor service, for changes, if one is set up.
    pub fn get_tor_service(&mut self) -> (r: Option<&mut TorService>)
        ensures
            (r is Some) == (old(self).tor_service is Some),
            r matches Some(t) ==> *t == old(self).tor_service->0 && final(self).tor_service == Some(*final(t)),
            r is None ==> final(self).tor_service is None,
            final(self).current_ip == old(self).current_ip,
            final(self).gateway_ip == old(self).gateway_ip,
            final(self).dns_servers == old(self).dns_servers,
            final(self).vpn_config == old(self).vpn_config,
    {
        self.tor_service.as_mut()
    }

    /// Records a VPN configuration.
    pub fn configure_vpn(&mut self, config: VpnConfig) -> (r: Result<()>)
        ensures
            r is Ok,
            final(self).vpn_config == Some(config),
            final(self).current_ip == old(self).current_ip,
    {
        self.vpn_config = Some(config);
        Ok(())
    }

    /// The VPN configuration.
    pub fn get_vpn_config(&self) -> (r: Option<VpnConfig>)
        ensures
            r == self.vpn_config,
    {
        self.vpn_config
    }

    /// The Tor service's state, if there is one.
    pub fn get_tor_status(&self) -> (r: Option<TorStatus>)
        ensures
            r == (match self.tor_service {
                Some(t) => Some(t.status),
                None => None,
            }),
    {
        match &self.tor_service {
            Some(t) => Some(t.status),
            None => None,
        }
    }

    /// A fresh private address on a /24 with gateway `.1`, Google and
    /// Cloudflare DNS, recorded and applied.
    pub fn randomize_network_config<R: RandomGenerator + ?Sized>(&mut self, rng: &mut R) -> (r: Result<NetworkConfig>)
        ensures
            r matches Ok(c) ==> private_ip(c.ip.0) && c.subnet_mask.0@ == seq![255u8, 255, 255, 0]
                && c.gateway.0@ == seq![c.ip.0@[0], c.ip.0@[1], c.ip.0@[2], 1u8] && c.dns_primary.0@ == seq![8u8, 8, 8, 8]
                && final(self).current_ip == Some(c.ip),
            r is Ok,
    {
        let new_ip = self.generate_private_ip(rng);
        let b = new_ip.as_bytes();
        let gateway = Ipv4Addr::new(b[0], b[1], b[2], 1);
        let config = NetworkConfig {
            ip: new_ip,
            subnet_mask: Ipv4Addr::new(255, 255, 255, 0),
            gateway,
            dns_primary: Ipv4Addr::new(8, 8, 8, 8),
            dns_secondary: Some(Ipv4Addr::new(1, 1, 1, 1)),
        };
        proof {
            let x0 = b@[0];
            let x1 = b@[1];
            let x2 = b@[2];
            let x3 = b@[3];
            assert(x0 & 255u8 == x0 && x1 & 255u8 == x1 && x2 & 255u8 == x2 && 1u8 & 0u8 == 0 && x3 & 0u8 == 0) by (bit_vector);
            assert(masked_ip(config.ip, config.subnet_mask) =~= masked_ip(config.gateway, config.subnet_mask));
        }
        self.set_ip_config(config)?;
        Ok(config)
    }
}

/// IP spoofing operations.
pub trait IpSpoofing {
    /// There is room to route a connection through Tor.
    spec fn tor_room(&self) -> bool;

    fn set_ip_configuration(&mut self, config: NetworkConfig) -> Result<()>;

    fn get_current_ip(&self) -> Option<Ipv4Addr>;

    fn route_through_tor(&mut self, destination: Ipv4Addr, port: u16) -> Result<()>
        requires
            old(self).tor_room(),
    ;

    fn route_through_vpn(&mut self, destination: Ipv4Addr, port: u16) -> Result<()>;
}

impl IpSpoofing for IpRandomizationService {
    open spec fn tor_room(&self) -> bool {
        self.tor_service matches Some(t) ==> route_room(t)
    }

    /// Routes through the Tor service when there is one.
    fn route_through_tor(&mut self, destination: Ipv4Addr, port: u16) -> (r: Result<()>)
        ensures
            old(self).tor_service is None ==> r == Err::<(), IronVeilError>(IronVeilError::TorNotAvailable),
            old(self).tor_service matches Some(t) ==> (r is Ok) == t.status.is_ready_spec(),
    {
        match self.get_tor_service() {
            Some(tor) => tor.route_connection(destination, port),
            None => Err(IronVeilError::TorNotAvailable),
        }
    }

    /// Records and applies a configuration (see `set_ip_config`).
    fn set_ip_configuration(&mut self, config: NetworkConfig) -> (r: Result<()>)
        ensures
            final(self).current_ip == Some(config.ip),
            final(self).gateway_ip == Some(config.gateway),
            final(self).dns_servers@[0] == Some(config.dns_primary),
            final(self).dns_servers@[1] == config.dns_secondary,
            final(self).dns_servers@[2] == old(self).dns_servers@[2],
            final(self).dns_servers@[3] == old(self).dns_servers@[3],
            r is Ok <==> config_ok(config),
            r is Err ==> r == Err::<(), IronVeilError>(IronVeilError::InvalidIpAddress),
            final(self).vpn_config == old(self).vpn_config,
    {
        self.set_ip_config(config)
    }

    /// The address in use.
    fn get_current_ip(&self) -> (r: Option<Ipv4Addr>)
        ensures
            r == self.current_ip,
    {
        self.current_ip
    }

    /// Only a connected VPN can carry traffic; the service is left as it is.
    fn route_through_vpn(&mut self, destination: Ipv4Addr, port: u16) -> (r: Result<()>)
        ensures
            *final(self) == *old(self),
            (old(self).vpn_config matches Some(v) && v.is_connected) ==> r is Ok,
            !(old(self).vpn_config matches Some(v) && v.is_connected) ==> r == Err::<(), IronVeilError>(
                IronVeilError::OperationFailed),
    {
        match self.vpn_config {
            Some(vpn) => if vpn.is_connected {
                Ok(())
            } else {
                Err(IronVeilError::OperationFailed)
            },
            None => Err(IronVeilError::OperationFailed),
        }
    }
}

/// Sets up the service.
pub fn init(service: &mut Option<IpRandomizationService>) -> (r: Result<()>)
    ensures
        r is Ok,
        *final(service) is Some,
{
    *service = Some(IpRandomizationService::new());
    Ok(())
}

/// A random address, public-looking or private.
pub fn generate_random_ip<R: RandomGenerator + ?Sized>(service: &Option<IpRandomizationService>, rng: &mut R, public: bool) -> (r: Result<Ipv4Addr>)
    ensures
        service is None ==> r == Err::<Ipv4Addr, IronVeilError>(IronVeilError::OperationFailed),
        service is Some ==> (r matches Ok(a) && (if public { public_ok(a) } else { private_ip(a.0) })),
{
    match service {
        Some(s) => if public {
            Ok(s.generate_public_ip(rng))
        } else {
            Ok(s.generate_private_ip(rng))
        },
        None => Err(IronVeilError::OperationFailed),
    }
}

/// Randomises the service's network configuration.
pub fn randomize_network<R: RandomGenerator + ?Sized>(service: &mut Option<IpRandomizationService>, rng: &mut R) -> (r: Result<NetworkConfig>)
    ensures
        *old(service) is None ==> r == Err::<NetworkConfig, IronVeilError>(IronVeilError::OperationFailed),
        *old(service) is Some ==> r is Ok,
        r matches Ok(c) ==> private_ip(c.ip.0),
{
    match service {
        Some(s) => s.randomize_network_config(rng),
        None => Err(IronVeilError::OperationFailed),
    }
}

} // verus!
