use ironveil::privacy_core::ip_randomization::tor_prep::{
    CircuitPurpose, CircuitState, TorConfig, TorIntegration, TorService, TorStatus,
};
use ironveil::privacy_core::ip_randomization::IpSpoofing;
use ironveil::privacy_core::ip_randomization::IpRandomizationService;
use ironveil::privacy_core::mac_spoofing::randomization::{OuiDatabase, RandomGenerator, SimpleRng};
use ironveil::privacy_core::mac_spoofing::{InterfaceType, MacSpoofing, MacSpoofingService, NetworkInterface};
use ironveil::privacy_core::ip_randomization::VpnConfig;
use ironveil::privacy_core::network_hooks::{create_default_hook_manager, MacRandomizer as HookMacRandomizer, NetworkHook, PrivacyFilter};
use ironveil::privacy_core::{RandomGenerator as CoreRandom, XorShiftRng};
use ironveil::privacy_core::oui::{oui_from_draw, realistic_mac_from_draws};
use ironveil::privacy_core::{generate_secure_mac, validate_mac, IronVeilError, Ipv4Addr, MacAddr};
use ironveil::privacy_core::ip_randomization::tor_prep::TorCircuitManager;
use ironveil::privacy_core::network_hooks::interface_manager::NetworkInterface as Iface;
use ironveil::privacy_core::network_hooks::{hook_step_exec, HookRun, PacketAction, StepOutcome};
use ironveil::privacy_core::network_hooks::{parse_packet_metadata, PacketDirection};
use ironveil::privacy_core::mac_spoofing::randomization::{MacRandomizer, VendorPattern};

#[test]
fn locally_administered_is_unicast_and_stable() {
    for b in [0x00u8, 0x01, 0x02, 0x03, 0xFE, 0xFF, 0x5A] {
        let mac = MacAddr::locally_administered([b, 1, 2, 3, 4, 5]);
        assert!(!mac.is_multicast());
        assert!(mac.is_locally_administered());
        let again = MacAddr::locally_administered(mac.0);
        assert_eq!(again, mac);
    }
    assert_eq!(MacAddr::locally_administered([0xFF; 6]).to_string(), "fe:ff:ff:ff:ff:ff");
}

#[test]
fn secure_mac_validates() {
    for seed in [0u64, 1, 42, 0xdead_beef] {
        let mac = generate_secure_mac(seed);
        assert!(!mac.is_multicast());
        assert!(mac.is_locally_administered());
        assert!(validate_mac(&mac).is_ok());
    }
}

#[test]
fn private_addresses() {
    assert!(Ipv4Addr::new(10, 1, 2, 3).is_private());
    assert!(Ipv4Addr::new(172, 16, 0, 1).is_private());
    assert!(Ipv4Addr::new(192, 168, 1, 1).is_private());
    assert!(!Ipv4Addr::new(8, 8, 8, 8).is_private());
    assert_eq!(Ipv4Addr::new(192, 168, 1, 100).to_string(), "192.168.1.100");
    let svc = IpRandomizationService::new();
    let mut rng = SimpleRng::new(7);
    for _ in 0..20 {
        assert!(svc.generate_private_ip(&mut rng).is_private());
    }
}

#[test]
fn tor_starts_once_and_stops() {
    let mut tor = TorService::new(TorConfig::default());
    assert!(tor.start().is_ok());
    assert_eq!(tor.start(), Err(IronVeilError::OperationFailed));
    assert!(tor.stop().is_ok());
    assert_eq!(tor.get_status(), TorStatus::Stopped);
}

#[test]
fn tor_service_reachable_for_changes() {
    let mut svc = IpRandomizationService::new();
    assert!(svc.get_tor_service().is_none());
    svc.init_tor(TorConfig::default()).unwrap();
    let tor = svc.get_tor_service().unwrap();
    tor.start().unwrap();
    assert_ne!(svc.get_tor_status(), Some(TorStatus::Stopped));
}

#[test]
fn private_ip_from_draws_picks_each_range() {
    assert_eq!(IpRandomizationService::private_ip_from_draws(0, 1, 2, 3).0, [10, 1, 2, 3]);
    assert_eq!(IpRandomizationService::private_ip_from_draws(4, 20, 5, 6).0, [172, 20, 5, 6]);
    assert_eq!(IpRandomizationService::private_ip_from_draws(5, 7, 8, 9).0, [192, 168, 7, 8]);
}

#[test]
fn oui_draws_pick_table_entries() {
    assert_eq!(oui_from_draw(3), [0x00, 0x0C, 0x29]);
    assert_eq!(oui_from_draw(13), [0x00, 0x0C, 0x29]);
    let mac = realistic_mac_from_draws(0, 1, 2, 3);
    assert_eq!(mac.0, [0x02, 0x50, 0x56, 1, 2, 3]);
    let db = OuiDatabase::new();
    assert_eq!(db.oui_from_draws(29, 1), [0x00, 0x23, 0x12]);
    assert_eq!(db.oui_from_draws(30, 17), [0x08, 0x00, 0x27]);
    assert_eq!(db.common_oui_from_draw(16), [0x00, 0x50, 0x56]);
}

#[test]
fn tor_routes_only_when_ready_and_reuses_the_open_circuit() {
    let mut tor = TorService::new(TorConfig::default());
    let dest = Ipv4Addr::new(93, 184, 216, 34);
    assert_eq!(tor.route_through_tor(dest, 443), Err(IronVeilError::TorNotAvailable));
    tor.status = TorStatus::Ready;
    assert!(tor.route_through_tor(dest, 443).is_ok());
    assert_eq!(tor.list_circuits().len(), 1);
    let c = &tor.list_circuits()[0];
    assert_eq!((c.circuit_id, c.state, c.bytes_sent), (1, CircuitState::Open, 1024));
    assert_eq!(c.hops.len(), 3);
    assert_eq!((c.hops[0].nickname, c.hops[1].nickname, c.hops[2].nickname), ("guard1", "middle1", "exit1"));
    assert!(tor.route_connection(dest, 80).is_ok());
    assert_eq!(tor.list_circuits().len(), 1);
    assert_eq!(tor.list_circuits()[0].bytes_sent, 2048);
    assert_eq!((tor.get_stats().connections_made, tor.get_stats().bytes_sent), (2, 2048));
    assert_eq!(tor.create_tor_circuit(CircuitPurpose::Testing), Ok(2));
}

#[test]
fn ip_service_routes_through_its_tor_service() {
    let mut svc = IpRandomizationService::new();
    let dest = Ipv4Addr::new(10, 0, 0, 1);
    assert_eq!(svc.route_through_tor(dest, 9050), Err(IronVeilError::TorNotAvailable));
    svc.init_tor(TorConfig::default()).unwrap();
    assert!(svc.route_through_tor(dest, 9050).is_err());
    svc.get_tor_service().unwrap().status = TorStatus::Running;
    assert!(svc.route_through_tor(dest, 9050).is_ok());
}

fn iface(name: &str, last: u8) -> NetworkInterface {
    NetworkInterface {
        name: name.to_string(),
        mac: MacAddr([0x00, 0x11, 0x22, 0x33, 0x44, last]),
        is_up: true,
        interface_type: InterfaceType::Ethernet,
    }
}

fn spoofing_service() -> MacSpoofingService {
    MacSpoofingService::new(Box::new(SimpleRng::new(99)))
}

#[test]
fn registered_interfaces_are_listed_by_slot() {
    let mut svc = spoofing_service();
    assert!(svc.list_interfaces().is_empty());
    svc.register_interface(iface("eth0", 1)).unwrap();
    svc.register_interface(iface("wlan0", 2)).unwrap();
    assert_eq!(svc.list_interfaces(), vec![0, 1]);
}

#[test]
fn randomizing_all_changes_the_first_of_each_name() {
    let mut svc = spoofing_service();
    svc.register_interface(iface("eth0", 1)).unwrap();
    svc.register_interface(iface("wlan0", 2)).unwrap();
    svc.register_interface(iface("eth0", 3)).unwrap();
    assert_eq!(svc.randomize_all_interfaces(), Ok(()));
    assert_eq!(svc.randomizer.generation_counter, 3);
    for slot in [0usize, 1] {
        let m = svc.interfaces[slot].as_ref().unwrap().mac;
        assert!(m.is_locally_administered());
        assert!(!m.is_multicast());
    }
    let third = svc.interfaces[2].as_ref().unwrap();
    assert_eq!(third.mac, MacAddr([0x00, 0x11, 0x22, 0x33, 0x44, 3]));
    assert_eq!(svc.interfaces[0].as_ref().unwrap().name, "eth0");
    assert!(svc.interfaces[3].is_none());
}

#[test]
fn randomizing_one_interface_by_name() {
    let mut svc = spoofing_service();
    svc.register_interface(iface("eth0", 1)).unwrap();
    let m = svc.randomize_interface_mac("eth0").unwrap();
    assert_eq!(svc.get_current_mac("eth0"), Ok(m));
    assert!(m.is_locally_administered());
    assert_eq!(svc.randomize_interface_mac("eth9"), Err(IronVeilError::InterfaceNotFound));
    let g = svc.generate_random_mac();
    assert!(g.is_locally_administered() && !g.is_multicast());
}

fn vpn(connected: bool) -> VpnConfig {
    VpnConfig {
        server_ip: Ipv4Addr::new(10, 8, 0, 1),
        local_ip: Ipv4Addr::new(10, 8, 0, 2),
        dns_servers: [Ipv4Addr::new(10, 8, 0, 1), Ipv4Addr::new(1, 1, 1, 1)],
        is_connected: connected,
    }
}

#[test]
fn only_a_connected_vpn_routes() {
    let mut svc = IpRandomizationService::new();
    let dest = Ipv4Addr::new(93, 184, 216, 34);
    assert_eq!(svc.route_through_vpn(dest, 443), Err(IronVeilError::OperationFailed));
    svc.configure_vpn(vpn(false)).unwrap();
    assert_eq!(svc.route_through_vpn(dest, 443), Err(IronVeilError::OperationFailed));
    svc.configure_vpn(vpn(true)).unwrap();
    assert_eq!(svc.route_through_vpn(dest, 443), Ok(()));
}

#[test]
fn ip_spoofing_records_the_configuration() {
    let mut svc = IpRandomizationService::new();
    assert_eq!(svc.get_current_ip(), None);
    let mut rng = SimpleRng::new(5);
    let c = svc.randomize_network_config(&mut rng).unwrap();
    assert_eq!(svc.set_ip_configuration(c), Ok(()));
    assert_eq!(svc.get_current_ip(), Some(c.ip));
}

#[test]
fn tor_daemon_starts_and_stops() {
    let mut tor = TorService::new(TorConfig::default());
    assert_eq!(tor.get_tor_status(), TorStatus::Stopped);
    assert_eq!(tor.start_tor_daemon(), Ok(()));
    assert_eq!(tor.get_tor_status(), TorStatus::Bootstrapping);
    assert_eq!(tor.get_bootstrap_progress(), 25);
    assert_eq!(tor.start_tor_daemon(), Err(IronVeilError::OperationFailed));
    assert_eq!(tor.stop_tor_daemon(), Ok(()));
    assert_eq!(tor.get_tor_status(), TorStatus::Stopped);
    assert_eq!(tor.get_bootstrap_progress(), 0);
}

#[test]
fn generators_follow_their_recurrences() {
    let mut x = XorShiftRng::new(1);
    assert_eq!(x.next_u64(), 1082269761);
    let mut x = XorShiftRng::new(1);
    assert_eq!(x.next_u32(), 1082269761);
    let mut x = XorShiftRng::new(1);
    assert_eq!(x.next_u8(), 65);
    let mut s = SimpleRng::new(1);
    assert_eq!(s.next_u64(), 1015568748);
    let mut s = SimpleRng::new(1);
    assert_eq!(s.next_u32(), 1015568748);
    let mut s = SimpleRng::new(1);
    assert_eq!(s.next_u8(), 0x6c);
    assert_eq!(s.state, 1015568748);
}

#[test]
fn default_hooks_are_named_and_switchable() {
    let mgr = create_default_hook_manager(3);
    assert!(mgr.is_enabled());
    assert_eq!(mgr.hooks.len(), 2);
    assert_eq!(mgr.hooks[0].name(), "PrivacyFilter");
    assert!(mgr.hooks[0].is_enabled());
    assert_eq!(mgr.hooks[1].name(), "MacRandomizer");
    assert!(!mgr.hooks[1].is_enabled());
    let mut f = PrivacyFilter::new(1);
    f.set_enabled(false);
    assert!(!NetworkHook::is_enabled(&f));
    let mut m = HookMacRandomizer::new(1);
    m.set_enabled(true);
    assert!(NetworkHook::is_enabled(&m));
}

#[test]
fn secure_mac_comes_from_the_seeded_generator() {
    assert_eq!(generate_secure_mac(1), MacAddr([0x42, 0x41, 0x29, 0x25, 0x65, 0x01]));
    assert_eq!(generate_secure_mac(0), generate_secure_mac(1));
}

#[test]
fn cleanup_keeps_open_circuits_in_order() {
    let mut m = TorCircuitManager::new();
    let a = m.create_circuit(Vec::new(), CircuitPurpose::General);
    let b = m.create_circuit(Vec::new(), CircuitPurpose::General);
    let c = m.create_circuit(Vec::new(), CircuitPurpose::General);
    m.close_circuit(b);
    m.cleanup_closed_circuits();
    let ids: Vec<u32> = m.circuits.iter().map(|x| x.circuit_id).collect();
    assert_eq!(ids, vec![a, c]);
    assert!(m.get_circuit(b).is_none());
    let d = m.create_circuit(Vec::new(), CircuitPurpose::General);
    assert_eq!(d, c + 1);
}

#[test]
fn refused_tor_requests_change_nothing() {
    let mut tor = TorService::new(TorConfig::default());
    assert_eq!(tor.create_circuit(CircuitPurpose::General), Err(IronVeilError::TorNotAvailable));
    assert!(tor.list_circuits().is_empty());
    assert_eq!(tor.get_bootstrap_progress(), 0);
    tor.start().unwrap();
    assert_eq!(tor.start(), Err(IronVeilError::OperationFailed));
    assert_eq!(tor.get_status(), TorStatus::Bootstrapping);
    assert_eq!(tor.get_bootstrap_progress(), 25);
    assert_eq!(tor.get_error_message(), None);
}

#[test]
fn refused_mac_leaves_the_interface_alone() {
    let mut i = Iface::new(String::from("eth0"), MacAddr([0x02, 1, 2, 3, 4, 5]));
    i.add_ip_address(Ipv4Addr::new(10, 0, 0, 2));
    assert_eq!(i.set_mac_address(MacAddr([0x01, 0, 0, 0, 0, 1]), Some(7)), Err(IronVeilError::InvalidMacAddress));
    assert_eq!(i.set_mac_address(MacAddr([0; 6]), Some(7)), Err(IronVeilError::InvalidMacAddress));
    assert_eq!(i.last_mac_change, None);
    assert_eq!(i.mac_address, MacAddr([0x02, 1, 2, 3, 4, 5]));
    assert_eq!(i.set_mac_address(MacAddr([0x06, 1, 2, 3, 4, 5]), Some(9)), Ok(()));
    assert_eq!(i.name, "eth0");
    assert_eq!(i.ip_addresses, vec![Ipv4Addr::new(10, 0, 0, 2)]);
    assert_eq!(i.last_mac_change, Some(9));
    assert!(i.mac_randomized);
}

#[test]
fn hook_steps_decide_the_packet() {
    let run = |enabled, verdict, applied| HookRun { enabled, verdict, applied };
    let ok_allow = Ok(PacketAction::Allow);
    assert_eq!(hook_step_exec(PacketAction::Allow, &run(false, ok_allow, Ok(())), true), StepOutcome::Continue(PacketAction::Allow));
    assert_eq!(hook_step_exec(PacketAction::Allow, &run(true, Ok(PacketAction::Drop), Ok(())), true), StepOutcome::Finish(Ok(PacketAction::Block)));
    assert_eq!(hook_step_exec(PacketAction::Allow, &run(true, Ok(PacketAction::Modify), Ok(())), true), StepOutcome::Continue(PacketAction::Modify));
    assert_eq!(hook_step_exec(PacketAction::Allow, &run(true, Ok(PacketAction::Modify), Ok(())), false), StepOutcome::Continue(PacketAction::Allow));
    assert_eq!(hook_step_exec(PacketAction::Modify, &run(true, Ok(PacketAction::Modify), Err(IronVeilError::OperationFailed)), true), StepOutcome::Finish(Err(IronVeilError::OperationFailed)));
    assert_eq!(hook_step_exec(PacketAction::Modify, &run(true, Err(IronVeilError::InvalidIpAddress), Ok(())), true), StepOutcome::Finish(Err(IronVeilError::InvalidIpAddress)));
}

#[test]
fn hook_chain_blocks_ipv6_and_counts_packets() {
    let mut mgr = create_default_hook_manager(5);
    let mut v6 = vec![0u8; 60];
    v6[12] = 0x86;
    v6[13] = 0xDD;
    let meta = parse_packet_metadata(&v6, PacketDirection::Outgoing);
    assert_eq!(mgr.process_outgoing_packet(&mut v6, &meta), Ok(PacketAction::Block));
    assert_eq!(mgr.get_total_packets_processed(), 1);
    assert_eq!(mgr.hooks.len(), 2);
    let mut v4 = vec![0u8; 60];
    v4[12] = 0x08;
    let meta4 = parse_packet_metadata(&v4, PacketDirection::Incoming);
    assert_eq!(mgr.process_incoming_packet(&mut v4, &meta4), Ok(PacketAction::Allow));
    mgr.set_enabled(false);
    assert_eq!(mgr.process_outgoing_packet(&mut v6, &meta), Ok(PacketAction::Allow));
    assert_eq!(mgr.get_total_packets_processed(), 2);
}

#[test]
fn vendor_style_macs_carry_the_vendor_prefix() {
    let mut r = MacRandomizer::new(Box::new(SimpleRng::new(3)));
    let m = r.generate_vendor_style_mac(VendorPattern::Intel);
    assert_eq!(&m.0[0..3], &[0x02, 0x1B, 0x21]);
    let m = r.generate_vendor_style_mac(VendorPattern::Hp);
    assert_eq!(&m.0[0..3], &[0x02, 0x24, 0x81]);
    assert_eq!(r.get_stats().total_generated, 2);
}

#[test]
fn realistic_oui_is_the_entry_at_the_draw() {
    let db = OuiDatabase::new();
    let mut rng = SimpleRng::new(1);
    assert_eq!(db.get_realistic_oui(&mut rng), [0x00, 0x19, 0x99]);
    assert_eq!(rng.state, 1015568748);
}

#[test]
fn random_oui_table_follows_the_first_draw() {
    let db = OuiDatabase::new();
    let mut rng = SimpleRng::new(1);
    assert_eq!(db.get_random_oui(&mut rng), [0x00, 0x1E, 0x68]);
}

#[test]
fn disabled_hooks_are_passed_over() {
    let mut mgr = create_default_hook_manager(5);
    mgr.hooks[0].set_enabled(false);
    mgr.hooks[1].set_enabled(false);
    let mut v6 = vec![0u8; 60];
    v6[12] = 0x86;
    v6[13] = 0xDD;
    let before = v6.clone();
    let meta = parse_packet_metadata(&v6, PacketDirection::Outgoing);
    assert_eq!(mgr.process_outgoing_packet(&mut v6, &meta), Ok(PacketAction::Allow));
    assert_eq!(mgr.process_incoming_packet(&mut v6, &meta), Ok(PacketAction::Allow));
    assert_eq!(v6, before);
    assert_eq!(mgr.get_total_packets_processed(), 2);
}
