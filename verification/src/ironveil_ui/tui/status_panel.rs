//! The live status panel: uptime, memory, network and privacy state as
//! lines of text, scrolled in a window of `max_lines`.
use vstd::prelude::*;
use vstd::utf8::is_ascii_chars;
use crate::ironveil_ui::{
    Buffer, InputEvent, InterfaceStatus, IronVeilError, Ipv4Addr, KeyCode, MacAddr, MemoryStats,
    NetworkInterface, PrivacyStatus, Rect, SystemInfo, TorStatus, UIComponent,
};
use crate::ironveil_ui::tui::{
    TextDraw, add16, byte_len, centered_start, centered_x, placements, push_draw, sub16, wadd16, wsub16,
};
use crate::ironveil_ui::tui::rust_theme::{rust_theme, rust_theme_spec};
use crate::privacy_core::{hex2, ipv4_text, mac_text, push_hex2};
use crate::text::{dec, hex_digit, str_starts_with, push_char, push_dec, push_dec_wide, push_line, push_str, string_of, views};

verus! {

/// Lines the panel shows at once.
pub const STATUS_MAX_LINES: usize = 18;

/// `n / d` rounded to the nearest integer, a tie to the even one.
pub open spec fn round_half_even(n: nat, d: nat) -> nat {
    let q = n / d;
    let r = n % d;
    if 2 * r > d || (2 * r == d && q % 2 == 1) {
        q + 1
    } else {
        q
    }
}

/// `bytes / unit` with one decimal.
pub open spec fn one_decimal(bytes: nat, unit: nat) -> Seq<char> {
    let t = round_half_even(bytes * 10, unit);
    dec(t / 10) + seq!['.'] + dec(t % 10)
}

/// A byte count in GB, MB or KB with one decimal, or in bytes.
pub open spec fn memory_size_text(bytes: nat) -> Seq<char> {
    if bytes >= 1073741824 {
        one_decimal(bytes, 1073741824) + " GB"@
    } else if bytes >= 1048576 {
        one_decimal(bytes, 1048576) + " MB"@
    } else if bytes >= 1024 {
        one_decimal(bytes, 1024) + " KB"@
    } else {
        dec(bytes) + " B"@
    }
}

/// Milliseconds as hours, minutes and seconds.
pub open spec fn uptime_text(ms: nat) -> Seq<char> {
    let sec = ms / 1000;
    dec(sec / 3600) + "h "@ + dec((sec % 3600) / 60) + "m "@ + dec(sec % 60) + "s"@
}

/// The uptime text splits the whole seconds elapsed into hours, minutes
/// under 60 and seconds under 60, in that order.
pub proof fn law_uptime_text_parts(ms: nat)
    ensures
        exists|h: nat, m: nat, s: nat|
            m < 60 && s < 60 && h * 3600 + m * 60 + s == ms / 1000 && #[trigger] uptime_text(ms) == dec(h) + "h "@
                + dec(m) + "m "@ + dec(s) + "s"@,
{
    let sec = ms / 1000;
    let h = sec / 3600;
    let m = (sec % 3600) / 60;
    let s = sec % 60;
    assert(sec % 3600 == m * 60 + s) by {
        vstd::arithmetic::div_mod::lemma_fundamental_div_mod(sec as int, 60);
        vstd::arithmetic::div_mod::lemma_mod_mod(sec as int, 60, 60);
        vstd::arithmetic::div_mod::lemma_fundamental_div_mod((sec % 3600) as int, 60);
    }
    assert(h * 3600 + m * 60 + s == sec);
    assert(uptime_text(ms) == dec(h) + "h "@ + dec(m) + "m "@ + dec(s) + "s"@);
}

/// The word for a link state.
pub open spec fn link_word(s: InterfaceStatus) -> Seq<char> {
    match s {
        InterfaceStatus::Up => "UP"@,
        InterfaceStatus::Down => "DOWN"@,
        InterfaceStatus::Unknown => "UNKNOWN"@,
    }
}

/// The word for a Tor state.
pub open spec fn tor_word(s: TorStatus) -> Seq<char> {
    match s {
        TorStatus::Stopped => "Stopped"@,
        TorStatus::Starting => "Starting..."@,
        TorStatus::Running => "Running"@,
        TorStatus::Error => "Error"@,
    }
}

/// The lines of one interface.
pub open spec fn interface_lines(i: NetworkInterface) -> Seq<Seq<char>> {
    seq![
        "Interface: "@ + i.name@,
        "  MAC: "@ + mac_text(i.mac_address.0),
        match i.ip_address {
            Some(ip) => "  IP:  "@ + ipv4_text(ip.0),
            None => "  IP:  Not assigned"@,
        },
        "  Status: "@ + link_word(i.status),
        Seq::<char>::empty(),
    ]
}

/// The lines of the interfaces, one after another.
pub open spec fn interfaces_lines(s: Seq<NetworkInterface>) -> Seq<Seq<char>>
    decreases s.len(),
{
    if s.len() == 0 {
        Seq::empty()
    } else {
        interfaces_lines(s.drop_last()) + interface_lines(s.last())
    }
}

/// Used memory in percent of the total (0 with no total).
pub open spec fn usage_percent(m: MemoryStats) -> nat {
    if m.total > 0 {
        ((m.used as int * 100) / (m.total as int)) as nat
    } else {
        0
    }
}

/// The lines before the interfaces.
pub open spec fn head_lines(info: SystemInfo, updates: u64) -> Seq<Seq<char>> {
    seq![
        "=== SYSTEM STATUS ==="@,
        "Uptime: "@ + uptime_text(info.uptime as nat),
        "Updates: "@ + dec(updates as nat),
        Seq::<char>::empty(),
        "=== MEMORY ==="@,
        "Total:  "@ + memory_size_text(info.memory_usage.total as nat),
        "Used:   "@ + memory_size_text(info.memory_usage.used as nat),
        "Free:   "@ + memory_size_text(info.memory_usage.free as nat),
        "Usage:  "@ + dec(usage_percent(info.memory_usage)) + "%"@,
        Seq::<char>::empty(),
        "=== NETWORK ==="@,
    ]
}

/// The lines after the interfaces.
pub open spec fn tail_lines(p: PrivacyStatus) -> Seq<Seq<char>> {
    seq![
        "=== PRIVACY ==="@,
        "Tor: "@ + tor_word(p.tor_status),
        "MAC Randomized: "@ + (if p.mac_randomized { "Yes"@ } else { "No"@ }),
        "VPN: "@ + (if p.vpn_connected { "Connected"@ } else { "Disconnected"@ }),
    ]
}

/// Every line of the panel.
pub open spec fn status_lines(info: SystemInfo, updates: u64) -> Seq<Seq<char>> {
    head_lines(info, updates) + interfaces_lines(info.network_interfaces@) + tail_lines(info.privacy_status)
}

/// The memory figures the panel reports: 128 MB, half of it used.
pub open spec fn panel_memory() -> MemoryStats {
    MemoryStats { total: 134217728, used: 67108864, free: 67108864 }
}

/// The privacy state the panel reports.
pub open spec fn panel_privacy() -> PrivacyStatus {
    PrivacyStatus { tor_status: TorStatus::Running, mac_randomized: true, vpn_connected: false }
}

/// `p1` is `p0` after a refresh: the uptime is 16 ms per earlier refresh
/// or tick, the memory and privacy figures are the panel's, the one
/// interface is `eth0` (52:54:00:12:34:56, 192.168.1.100, up), one more
/// update is counted, and the scroll and window are kept.
pub open spec fn refreshed(p0: StatusPanel, p1: StatusPanel) -> bool {
    &&& p1.info().uptime == wrap64(p0.updates() * 16)
    &&& p1.info().memory_usage == panel_memory()
    &&& p1.info().privacy_status == panel_privacy()
    &&& p1.info().network_interfaces@.len() == 1
    &&& p1.info().network_interfaces@[0].name@ == "eth0"@
    &&& p1.info().network_interfaces@[0].mac_address == MacAddr([0x52u8, 0x54u8, 0x00u8, 0x12u8, 0x34u8, 0x56u8])
    &&& p1.info().network_interfaces@[0].ip_address == Some(Ipv4Addr([192u8, 168u8, 1u8, 100u8]))
    &&& p1.info().network_interfaces@[0].status == InterfaceStatus::Up
    &&& p1.updates() == wrap64(p0.updates() + 1)
    &&& p1.scroll() == p0.scroll()
    &&& p1.window() == p0.window()
}

/// `x` wrapped to 64 bits.
pub open spec fn wrap64(x: int) -> u64 {
    (x % 0x1_0000_0000_0000_0000) as u64
}

/// Every interface name is ASCII.
pub open spec fn ascii_names(s: Seq<NetworkInterface>) -> bool {
    forall|i: int| 0 <= i < s.len() ==> is_ascii_chars(#[trigger] s[i].name@)
}

/// Every line is ASCII.
pub open spec fn ascii_lines(s: Seq<Seq<char>>) -> bool {
    forall|i: int| 0 <= i < s.len() ==> is_ascii_chars(#[trigger] s[i])
}

proof fn lemma_ascii_concat(a: Seq<char>, b: Seq<char>)
    requires
        is_ascii_chars(a),
        is_ascii_chars(b),
    ensures
        is_ascii_chars(a + b),
{
    assert forall|i: int| 0 <= i < (a + b).len() implies '\0' <= #[trigger] (a + b)[i] <= '\u{7f}' by {
        if i < a.len() {
            assert((a + b)[i] == a[i]);
        } else {
            assert((a + b)[i] == b[i - a.len()]);
        }
    }
}

proof fn lemma_ascii_lines_concat(a: Seq<Seq<char>>, b: Seq<Seq<char>>)
    requires
        ascii_lines(a),
        ascii_lines(b),
    ensures
        ascii_lines(a + b),
{
    assert forall|i: int| 0 <= i < (a + b).len() implies is_ascii_chars(#[trigger] (a + b)[i]) by {
        if i < a.len() {
            assert((a + b)[i] == a[i]);
        } else {
            assert((a + b)[i] == b[i - a.len()]);
        }
    }
}

proof fn lemma_hex_digit_ascii(d: int)
    ensures
        is_ascii_chars(seq![hex_digit(d)]),
{
}

proof fn lemma_dec_ascii(n: nat)
    ensures
        is_ascii_chars(dec(n)),
    decreases n,
{
    lemma_hex_digit_ascii((n % 10) as int);
    if n >= 10 {
        lemma_dec_ascii(n / 10);
        lemma_ascii_concat(dec(n / 10), seq![hex_digit((n % 10) as int)]);
        assert(dec(n) =~= dec(n / 10) + seq![hex_digit((n % 10) as int)]);
    } else {
        lemma_hex_digit_ascii(n as int);
    }
}

proof fn lemma_hex2_ascii(b: u8)
    ensures
        is_ascii_chars(hex2(b)),
{
    lemma_hex_digit_ascii((b / 16) as int);
    lemma_hex_digit_ascii((b % 16) as int);
    lemma_ascii_concat(seq![hex_digit((b / 16) as int)], seq![hex_digit((b % 16) as int)]);
    assert(hex2(b) =~= seq![hex_digit((b / 16) as int)] + seq![hex_digit((b % 16) as int)]);
}

proof fn lemma_mac_text_ascii(m: [u8; 6])
    ensures
        is_ascii_chars(mac_text(m)),
{
    let c = seq![':'];
    assert(is_ascii_chars(c));
    lemma_hex2_ascii(m@[0]);
    lemma_hex2_ascii(m@[1]);
    lemma_hex2_ascii(m@[2]);
    lemma_hex2_ascii(m@[3]);
    lemma_hex2_ascii(m@[4]);
    lemma_hex2_ascii(m@[5]);
    let s1 = hex2(m@[0]) + c;
    lemma_ascii_concat(hex2(m@[0]), c);
    let s2 = s1 + hex2(m@[1]);
    lemma_ascii_concat(s1, hex2(m@[1]));
    let s3 = s2 + c;
    lemma_ascii_concat(s2, c);
    let s4 = s3 + hex2(m@[2]);
    lemma_ascii_concat(s3, hex2(m@[2]));
    let s5 = s4 + c;
    lemma_ascii_concat(s4, c);
    let s6 = s5 + hex2(m@[3]);
    lemma_ascii_concat(s5, hex2(m@[3]));
    let s7 = s6 + c;
    lemma_ascii_concat(s6, c);
    let s8 = s7 + hex2(m@[4]);
    lemma_ascii_concat(s7, hex2(m@[4]));
    let s9 = s8 + c;
    lemma_ascii_concat(s8, c);
    lemma_ascii_concat(s9, hex2(m@[5]));
}

proof fn lemma_ipv4_text_ascii(a: [u8; 4])
    ensures
        is_ascii_chars(ipv4_text(a)),
{
    let d = seq!['.'];
    assert(is_ascii_chars(d));
    lemma_dec_ascii(a@[0] as nat);
    lemma_dec_ascii(a@[1] as nat);
    lemma_dec_ascii(a@[2] as nat);
    lemma_dec_ascii(a@[3] as nat);
    let s1 = dec(a@[0] as nat) + d;
    lemma_ascii_concat(dec(a@[0] as nat), d);
    let s2 = s1 + dec(a@[1] as nat);
    lemma_ascii_concat(s1, dec(a@[1] as nat));
    let s3 = s2 + d;
    lemma_ascii_concat(s2, d);
    let s4 = s3 + dec(a@[2] as nat);
    lemma_ascii_concat(s3, dec(a@[2] as nat));
    let s5 = s4 + d;
    lemma_ascii_concat(s4, d);
    lemma_ascii_concat(s5, dec(a@[3] as nat));
}

proof fn lemma_one_decimal_ascii(bytes: nat, unit: nat)
    ensures
        is_ascii_chars(one_decimal(bytes, unit)),
{
    let t = round_half_even(bytes * 10, unit);
    lemma_dec_ascii(t / 10);
    lemma_dec_ascii(t % 10);
    assert(is_ascii_chars(seq!['.']));
    lemma_ascii_concat(dec(t / 10), seq!['.']);
    lemma_ascii_concat(dec(t / 10) + seq!['.'], dec(t % 10));
}

proof fn lemma_memory_size_text_ascii(bytes: nat)
    ensures
        is_ascii_chars(memory_size_text(bytes)),
{
    reveal_strlit(" GB");
    reveal_strlit(" MB");
    reveal_strlit(" KB");
    reveal_strlit(" B");
    if bytes >= 1073741824 {
        lemma_one_decimal_ascii(bytes, 1073741824);
        lemma_ascii_concat(one_decimal(bytes, 1073741824), " GB"@);
    } else if bytes >= 1048576 {
        lemma_one_decimal_ascii(bytes, 1048576);
        lemma_ascii_concat(one_decimal(bytes, 1048576), " MB"@);
    } else if bytes >= 1024 {
        lemma_one_decimal_ascii(bytes, 1024);
        lemma_ascii_concat(one_decimal(bytes, 1024), " KB"@);
    } else {
        lemma_dec_ascii(bytes);
        lemma_ascii_concat(dec(bytes), " B"@);
    }
}

proof fn lemma_uptime_text_ascii(ms: nat)
    ensures
        is_ascii_chars(uptime_text(ms)),
{
    reveal_strlit("h ");
    reveal_strlit("m ");
    reveal_strlit("s");
    let sec = ms / 1000;
    lemma_dec_ascii(sec / 3600);
    lemma_dec_ascii((sec % 3600) / 60);
    lemma_dec_ascii(sec % 60);
    let s1 = dec(sec / 3600) + "h "@;
    lemma_ascii_concat(dec(sec / 3600), "h "@);
    let s2 = s1 + dec((sec % 3600) / 60);
    lemma_ascii_concat(s1, dec((sec % 3600) / 60));
    let s3 = s2 + "m "@;
    lemma_ascii_concat(s2, "m "@);
    let s4 = s3 + dec(sec % 60);
    lemma_ascii_concat(s3, dec(sec % 60));
    lemma_ascii_concat(s4, "s"@);
}

proof fn lemma_interface_lines_ascii(i: NetworkInterface)
    requires
        is_ascii_chars(i.name@),
    ensures
        ascii_lines(interface_lines(i)),
{
    reveal_strlit("Interface: ");
    reveal_strlit("  MAC: ");
    reveal_strlit("  IP:  ");
    reveal_strlit("  IP:  Not assigned");
    reveal_strlit("  Status: ");
    reveal_strlit("UP");
    reveal_strlit("DOWN");
    reveal_strlit("UNKNOWN");
    lemma_ascii_concat("Interface: "@, i.name@);
    lemma_mac_text_ascii(i.mac_address.0);
    lemma_ascii_concat("  MAC: "@, mac_text(i.mac_address.0));
    match i.ip_address {
        Some(ip) => {
            lemma_ipv4_text_ascii(ip.0);
            lemma_ascii_concat("  IP:  "@, ipv4_text(ip.0));
        },
        None => {},
    }
    lemma_ascii_concat("  Status: "@, link_word(i.status));
    assert(is_ascii_chars(Seq::<char>::empty()));
    let l = interface_lines(i);
    assert forall|k: int| 0 <= k < l.len() implies is_ascii_chars(#[trigger] l[k]) by {
        if k == 0 {
        } else if k == 1 {
        } else if k == 2 {
        } else if k == 3 {
        } else {
        }
    }
}

proof fn lemma_interfaces_lines_ascii(s: Seq<NetworkInterface>)
    requires
        ascii_names(s),
    ensures
        ascii_lines(interfaces_lines(s)),
    decreases s.len(),
{
    if s.len() > 0 {
        assert(ascii_names(s.drop_last()));
        lemma_interfaces_lines_ascii(s.drop_last());
        assert(is_ascii_chars(s[s.len() - 1].name@));
        lemma_interface_lines_ascii(s.last());
        lemma_ascii_lines_concat(interfaces_lines(s.drop_last()), interface_lines(s.last()));
    }
}

/// With ASCII interface names, every line of the panel is ASCII.
pub proof fn lemma_status_lines_ascii(info: SystemInfo, updates: u64)
    requires
        ascii_names(info.network_interfaces@),
    ensures
        ascii_lines(status_lines(info, updates)),
{
    reveal_strlit("=== SYSTEM STATUS ===");
    reveal_strlit("Uptime: ");
    reveal_strlit("Updates: ");
    reveal_strlit("=== MEMORY ===");
    reveal_strlit("Total:  ");
    reveal_strlit("Used:   ");
    reveal_strlit("Free:   ");
    reveal_strlit("Usage:  ");
    reveal_strlit("%");
    reveal_strlit("=== NETWORK ===");
    reveal_strlit("=== PRIVACY ===");
    reveal_strlit("Tor: ");
    reveal_strlit("MAC Randomized: ");
    reveal_strlit("Yes");
    reveal_strlit("No");
    reveal_strlit("VPN: ");
    reveal_strlit("Connected");
    reveal_strlit("Disconnected");
    reveal_strlit("Stopped");
    reveal_strlit("Starting...");
    reveal_strlit("Running");
    reveal_strlit("Error");
    assert(is_ascii_chars(Seq::<char>::empty()));
    lemma_uptime_text_ascii(info.uptime as nat);
    lemma_ascii_concat("Uptime: "@, uptime_text(info.uptime as nat));
    lemma_dec_ascii(updates as nat);
    lemma_ascii_concat("Updates: "@, dec(updates as nat));
    lemma_memory_size_text_ascii(info.memory_usage.total as nat);
    lemma_ascii_concat("Total:  "@, memory_size_text(info.memory_usage.total as nat));
    lemma_memory_size_text_ascii(info.memory_usage.used as nat);
    lemma_ascii_concat("Used:   "@, memory_size_text(info.memory_usage.used as nat));
    lemma_memory_size_text_ascii(info.memory_usage.free as nat);
    lemma_ascii_concat("Free:   "@, memory_size_text(info.memory_usage.free as nat));
    lemma_dec_ascii(usage_percent(info.memory_usage));
    lemma_ascii_concat("Usage:  "@, dec(usage_percent(info.memory_usage)));
    lemma_ascii_concat("Usage:  "@ + dec(usage_percent(info.memory_usage)), "%"@);
    let h = head_lines(info, updates);
    assert forall|k: int| 0 <= k < h.len() implies is_ascii_chars(#[trigger] h[k]) by {
        if k == 0 {
        } else if k == 1 {
        } else if k == 2 {
        } else if k == 3 {
        } else if k == 4 {
        } else if k == 5 {
        } else if k == 6 {
        } else if k == 7 {
        } else if k == 8 {
        } else if k == 9 {
        } else {
        }
    }
    let p = info.privacy_status;
    lemma_ascii_concat("Tor: "@, tor_word(p.tor_status));
    lemma_ascii_concat("MAC Randomized: "@, if p.mac_randomized { "Yes"@ } else { "No"@ });
    lemma_ascii_concat("VPN: "@, if p.vpn_connected { "Connected"@ } else { "Disconnected"@ });
    let t = tail_lines(p);
    assert forall|k: int| 0 <= k < t.len() implies is_ascii_chars(#[trigger] t[k]) by {
        if k == 0 {
        } else if k == 1 {
        } else if k == 2 {
        } else {
        }
    }
    lemma_interfaces_lines_ascii(info.network_interfaces@);
    lemma_ascii_lines_concat(h, interfaces_lines(info.network_interfaces@));
    lemma_ascii_lines_concat(h + interfaces_lines(info.network_interfaces@), t);
}


/// `prefix` followed by `rest`.
fn joined(prefix: &str, rest: &str) -> (r: String)
    ensures
        r@ == prefix@ + rest@,
{
    let mut s = string_of(prefix);
    push_str(&mut s, rest);
    s
}

/// Appends `bytes / unit` with one decimal.
fn push_one_decimal(s: &mut String, bytes: usize, unit: u128)
    requires
        1024 <= unit <= 1073741824,
    ensures
        final(s)@ == old(s)@ + one_decimal(bytes as nat, unit as nat),
{
    let n: u128 = bytes as u128 * 10;
    let q = n / unit;
    let r = n % unit;
    proof {
        vstd::arithmetic::div_mod::lemma_div_is_ordered_by_denominator(n as int, 1024, unit as int);
    }
    let t = if 2 * r > unit || (2 * r == unit && q % 2 == 1) { q + 1 } else { q };
    assert(t == round_half_even(n as nat, unit as nat));
    push_dec(s, (t / 10) as u64);
    push_char(s, '.');
    push_dec(s, (t % 10) as u64);
    assert(s@ =~= old(s)@ + one_decimal(bytes as nat, unit as nat));
}

/// The status panel.
pub struct StatusPanel {
    system_info: SystemInfo,
    update_counter: u64,
    scroll_offset: usize,
    max_lines: usize,
}

impl StatusPanel {
    /// The figures shown.
    pub closed spec fn info(&self) -> SystemInfo {
        self.system_info
    }

    /// Refreshes and ticks counted.
    pub closed spec fn updates(&self) -> u64 {
        self.update_counter
    }

    /// Index of the first line shown.
    pub closed spec fn scroll(&self) -> int {
        self.scroll_offset as int
    }

    /// How many lines are shown at once.
    pub closed spec fn window(&self) -> int {
        self.max_lines as int
    }

    /// A panel with no figures yet, at the top.
    pub fn new() -> (r: Self)
        ensures
            r.info().uptime == 0,
            r.info().memory_usage == (MemoryStats { total: 0, used: 0, free: 0 }),
            r.info().network_interfaces@.len() == 0,
            r.info().privacy_status == (PrivacyStatus { tor_status: TorStatus::Stopped, mac_randomized: false,
                vpn_connected: false }),
            r.updates() == 0,
            r.scroll() == 0,
            r.window() == STATUS_MAX_LINES,
    {
        StatusPanel { system_info: SystemInfo::default(), update_counter: 0, scroll_offset: 0, max_lines: STATUS_MAX_LINES }
    }

    /// Index of the first line shown.
    pub fn scroll_offset(&self) -> (r: usize)
        ensures
            r == self.scroll(),
    {
        self.scroll_offset
    }

    /// Refreshes and ticks counted.
    pub fn update_counter(&self) -> (r: u64)
        ensures
            r == self.updates(),
    {
        self.update_counter
    }

    /// Refreshes the figures and counts the refresh; the uptime is 16 ms
    /// per earlier refresh or tick.
    pub fn update_system_info(&mut self) -> (r: Result<(), IronVeilError>)
        ensures
            r is Ok,
            refreshed(*old(self), *final(self)),
            ascii_names(final(self).info().network_interfaces@),
    {
        proof {
            reveal_strlit("eth0");
        }
        self.system_info.uptime = self.get_system_uptime();
        self.system_info.memory_usage = self.get_memory_stats()?;
        self.system_info.network_interfaces = self.get_network_interfaces()?;
        self.system_info.privacy_status = self.get_privacy_status()?;
        self.update_counter = self.update_counter.wrapping_add(1);
        Ok(())
    }

    /// Uptime in milliseconds: 16 per refresh or tick.
    fn get_system_uptime(&self) -> (r: u64)
        ensures
            r == wrap64(self.updates() * 16),
    {
        self.update_counter.wrapping_mul(16)
    }

    /// The memory figures.
    fn get_memory_stats(&self) -> (r: Result<MemoryStats, IronVeilError>)
        ensures
            r == Ok::<MemoryStats, IronVeilError>(panel_memory()),
    {
        Ok(MemoryStats { total: 134217728, used: 67108864, free: 67108864 })
    }

    /// The interfaces: `eth0`, 52:54:00:12:34:56, 192.168.1.100, up.
    fn get_network_interfaces(&self) -> (r: Result<Vec<NetworkInterface>, IronVeilError>)
        ensures
            r matches Ok(v) && v@.len() == 1 && v@[0].name@ == "eth0"@ && v@[0].mac_address == MacAddr(
                [0x52u8, 0x54u8, 0x00u8, 0x12u8, 0x34u8, 0x56u8]) && v@[0].ip_address == Some(Ipv4Addr(
                [192u8, 168u8, 1u8, 100u8])) && v@[0].status == InterfaceStatus::Up,
    {
        let mut v: Vec<NetworkInterface> = Vec::new();
        v.push(NetworkInterface {
            name: string_of("eth0"),
            mac_address: MacAddr([0x52, 0x54, 0x00, 0x12, 0x34, 0x56]),
            ip_address: Some(Ipv4Addr([192, 168, 1, 100])),
            status: InterfaceStatus::Up,
        });
        Ok(v)
    }

    /// The privacy state.
    fn get_privacy_status(&self) -> (r: Result<PrivacyStatus, IronVeilError>)
        ensures
            r == Ok::<PrivacyStatus, IronVeilError>(panel_privacy()),
    {
        Ok(PrivacyStatus { tor_status: TorStatus::Running, mac_randomized: true, vpn_connected: false })
    }

    /// Milliseconds as `{h}h {m}m {s}s`.
    pub fn format_uptime(&self, uptime_ms: u64) -> (r: String)
        ensures
            r@ == uptime_text(uptime_ms as nat),
    {
        let uptime_sec = uptime_ms / 1000;
        let hours = uptime_sec / 3600;
        let minutes = (uptime_sec % 3600) / 60;
        let seconds = uptime_sec % 60;
        let mut s = String::new();
        push_dec(&mut s, hours);
        push_str(&mut s, "h ");
        push_dec(&mut s, minutes);
        push_str(&mut s, "m ");
        push_dec(&mut s, seconds);
        push_str(&mut s, "s");
        s
    }

    /// A byte count in GB, MB or KB with one decimal (rounded to nearest,
    /// a tie to even), or in bytes below 1 KB.
    pub fn format_memory_size(&self, bytes: usize) -> (r: String)
        ensures
            r@ == memory_size_text(bytes as nat),
    {
        let mut s = String::new();
        if bytes >= 1073741824 {
            push_one_decimal(&mut s, bytes, 1073741824);
            push_str(&mut s, " GB");
        } else if bytes >= 1048576 {
            push_one_decimal(&mut s, bytes, 1048576);
            push_str(&mut s, " MB");
        } else if bytes >= 1024 {
            push_one_decimal(&mut s, bytes, 1024);
            push_str(&mut s, " KB");
        } else {
            push_dec(&mut s, bytes as u64);
            push_str(&mut s, " B");
        }
        s
    }

    /// `aa:bb:cc:dd:ee:ff` in lower case.
    pub fn format_mac_address(&self, mac: &MacAddr) -> (r: String)
        ensures
            r@ == mac_text(mac.0),
    {
        let mut s = String::new();
        push_hex2(&mut s, mac.0[0]);
        push_char(&mut s, ':');
        push_hex2(&mut s, mac.0[1]);
        push_char(&mut s, ':');
        push_hex2(&mut s, mac.0[2]);
        push_char(&mut s, ':');
        push_hex2(&mut s, mac.0[3]);
        push_char(&mut s, ':');
        push_hex2(&mut s, mac.0[4]);
        push_char(&mut s, ':');
        push_hex2(&mut s, mac.0[5]);
        assert(s@ =~= mac_text(mac.0));
        s
    }

    /// Dotted decimal.
    pub fn format_ip_address(&self, ip: &Ipv4Addr) -> (r: String)
        ensures
            r@ == ipv4_text(ip.0),
    {
        let mut s = String::new();
        push_dec(&mut s, ip.0[0] as u64);
        push_char(&mut s, '.');
        push_dec(&mut s, ip.0[1] as u64);
        push_char(&mut s, '.');
        push_dec(&mut s, ip.0[2] as u64);
        push_char(&mut s, '.');
        push_dec(&mut s, ip.0[3] as u64);
        assert(s@ =~= ipv4_text(ip.0));
        s
    }

    /// Appends the lines of one interface.
    fn push_interface_lines(&self, lines: &mut Vec<String>, iface: &NetworkInterface)
        ensures
            views(final(lines)@) == views(old(lines)@) + interface_lines(*iface),
    {
        push_line(lines, joined("Interface: ", iface.name.as_str()));
        let m = self.format_mac_address(&iface.mac_address);
        push_line(lines, joined("  MAC: ", m.as_str()));
        match &iface.ip_address {
            Some(ip) => {
                let a = self.format_ip_address(ip);
                push_line(lines, joined("  IP:  ", a.as_str()));
            },
            None => {
                push_line(lines, string_of("  IP:  Not assigned"));
            },
        }
        let word = match iface.status {
            InterfaceStatus::Up => "UP",
            InterfaceStatus::Down => "DOWN",
            InterfaceStatus::Unknown => "UNKNOWN",
        };
        push_line(lines, joined("  Status: ", word));
        push_line(lines, String::new());
        assert(views(lines@) =~= views(old(lines)@) + interface_lines(*iface));
    }

    /// Every line the panel shows.
    pub fn get_status_lines(&self) -> (r: Vec<String>)
        ensures
            views(r@) == status_lines(self.info(), self.updates()),
    {
        let info = &self.system_info;
        let mut lines: Vec<String> = Vec::new();
        push_line(&mut lines, string_of("=== SYSTEM STATUS ==="));
        let up = self.format_uptime(info.uptime);
        push_line(&mut lines, joined("Uptime: ", up.as_str()));
        let mut l = string_of("Updates: ");
        push_dec(&mut l, self.update_counter);
        push_line(&mut lines, l);
        push_line(&mut lines, String::new());
        push_line(&mut lines, string_of("=== MEMORY ==="));
        let mem = info.memory_usage;
        let t = self.format_memory_size(mem.total);
        push_line(&mut lines, joined("Total:  ", t.as_str()));
        let u = self.format_memory_size(mem.used);
        push_line(&mut lines, joined("Used:   ", u.as_str()));
        let f = self.format_memory_size(mem.free);
        push_line(&mut lines, joined("Free:   ", f.as_str()));
        let pct: u128 = if mem.total > 0 { (mem.used as u128 * 100) / mem.total as u128 } else { 0 };
        let mut l = string_of("Usage:  ");
        push_dec_wide(&mut l, pct);
        push_str(&mut l, "%");
        push_line(&mut lines, l);
        push_line(&mut lines, String::new());
        push_line(&mut lines, string_of("=== NETWORK ==="));
        let ghost head = views(lines@);
        assert(head =~= head_lines(*info, self.update_counter));
        let ifaces = &self.system_info.network_interfaces;
        let mut i: usize = 0;
        while i < ifaces.len()
            invariant
                i <= ifaces@.len(),
                views(lines@) == head + interfaces_lines(ifaces@.take(i as int)),
            decreases ifaces@.len() - i,
        {
            let ghost before = views(lines@);
            self.push_interface_lines(&mut lines, &ifaces[i]);
            proof {
                assert(ifaces@.take(i as int + 1).drop_last() =~= ifaces@.take(i as int));
                assert(ifaces@.take(i as int + 1).last() == ifaces@[i as int]);
                assert(views(lines@) =~= before + interface_lines(ifaces@[i as int]));
            }
            i = i + 1;
        }
        proof {
            assert(ifaces@.take(i as int) =~= ifaces@);
        }
        let ghost mid = views(lines@);
        push_line(&mut lines, string_of("=== PRIVACY ==="));
        let p = info.privacy_status;
        let tor = match p.tor_status {
            TorStatus::Stopped => "Stopped",
            TorStatus::Starting => "Starting...",
            TorStatus::Running => "Running",
            TorStatus::Error => "Error",
        };
        push_line(&mut lines, joined("Tor: ", tor));
        let mac_state = if p.mac_randomized { "Yes" } else { "No" };
        push_line(&mut lines, joined("MAC Randomized: ", mac_state));
        let vpn_state = if p.vpn_connected { "Connected" } else { "Disconnected" };
        push_line(&mut lines, joined("VPN: ", vpn_state));
        assert(views(lines@) =~= mid + tail_lines(p));
        lines
    }
}

/// The colours of a panel line: section headings in the primary colour,
/// empty and indented lines in the text colour, the others in the accent
/// colour, all on the background.
pub open spec fn line_colours(line: Seq<char>) -> ((u8, u8, u8), (u8, u8, u8)) {
    let t = rust_theme_spec();
    if 3 <= line.len() && line.subrange(0, 3) == "==="@ {
        (t.primary, t.background)
    } else if line.len() == 0 {
        (t.text, t.background)
    } else if 2 <= line.len() && line.subrange(0, 2) == "  "@ {
        (t.text, t.background)
    } else {
        (t.accent, t.background)
    }
}

/// The line `i` rows below the top of the window, cut to `max_width`
/// bytes, two cells in from `x`.
pub open spec fn line_row(lines: Seq<Seq<char>>, scroll: int, x: u16, start_y: u16, max_width: nat, i: int) -> (
    u16,
    u16,
    Seq<char>,
    (u8, u8, u8),
    (u8, u8, u8),
) {
    let line = lines[scroll + i];
    let text = if byte_len(line) > max_width {
        line.subrange(0, max_width as int)
    } else {
        line
    };
    (add16(x as int, 2), add16(start_y as int, i), text, line_colours(line).0, line_colours(line).1)
}

/// The rows of the first `n` lines of the window.
pub open spec fn line_rows(lines: Seq<Seq<char>>, scroll: int, x: u16, start_y: u16, max_width: nat, n: nat) -> Seq<
    (u16, u16, Seq<char>, (u8, u8, u8), (u8, u8, u8)),
>
    decreases n,
{
    if n == 0 {
        Seq::empty()
    } else {
        line_rows(lines, scroll, x, start_y, max_width, (n - 1) as nat).push(
            line_row(lines, scroll, x, start_y, max_width, n - 1),
        )
    }
}

/// How many lines the panel shows in an area `height` rows high: four
/// rows go to the frame and title; `max_lines` when the area is lower than
/// that (the count wraps as a machine word).
pub open spec fn visible_lines(max_lines: int, height: u16) -> int {
    if height >= 4 && height - 4 < max_lines {
        height - 4
    } else {
        max_lines
    }
}

/// What the panel draws in `a`: its title centred on the second row, the
/// lines of the window from the fourth row, cut to the area's width less
/// four, and arrows at the right edge when lines are hidden above or below.
pub open spec fn status_draws(lines: Seq<Seq<char>>, scroll: int, max_lines: int, a: Rect) -> Seq<
    (u16, u16, Seq<char>, (u8, u8, u8), (u8, u8, u8)),
> {
    let t = rust_theme_spec();
    let start_y = add16(a.y as int, 3);
    let visible = visible_lines(max_lines, a.height);
    let shown = if scroll <= lines.len() {
        if visible < lines.len() - scroll {
            visible
        } else {
            lines.len() - scroll
        }
    } else {
        0
    };
    let right = sub16(add16(a.x as int, a.width as int) as int, 2);
    seq![(centered_x(a.x, a.width, byte_len("System Status"@)), add16(a.y as int, 1), "System Status"@, t.text,
        t.secondary)]
        + line_rows(lines, scroll, a.x, start_y, sub16(a.width as int, 4) as nat, shown as nat)
        + (if scroll > 0 {
            seq![(right, start_y, "\u{2191}"@, t.accent, t.background)]
        } else {
            Seq::empty()
        })
        + (if scroll + visible < lines.len() {
            seq![(right, sub16(add16(start_y as int, visible) as int, 1), "\u{2193}"@, t.accent, t.background)]
        } else {
            Seq::empty()
        })
}

impl StatusPanel {
    /// Everything the panel draws in `area`, in order.
    pub fn draw_list(&self, area: Rect) -> (r: Vec<TextDraw>)
        requires
            ascii_names(self.info().network_interfaces@),
            self.window() == STATUS_MAX_LINES,
        ensures
            placements(r@) == status_draws(status_lines(self.info(), self.updates()), self.scroll(), self.window(),
                area),
    {
        broadcast use vstd::string::is_ascii_spec_bytes;
        let t = rust_theme();
        let mut v: Vec<TextDraw> = Vec::new();
        let title = "System Status";
        let title_x = centered_start(area.x, area.width, title);
        push_draw(&mut v, title_x, wadd16(area.y, 1), title, t.text, t.secondary);
        let ghost head = placements(v@);
        let lines = self.get_status_lines();
        let ghost ls = status_lines(self.info(), self.updates());
        proof {
            lemma_status_lines_ascii(self.info(), self.updates());
            assert(views(lines@).len() == lines@.len());
            assert(lines@.len() == lines.len());
        }
        let start_y = wadd16(area.y, 3);
        let visible = if area.height >= 4 && ((area.height - 4) as usize) < self.max_lines {
            (area.height - 4) as usize
        } else {
            self.max_lines
        };
        let max_width = wsub16(area.width, 4) as usize;
        let rest = if self.scroll_offset <= lines.len() {
            lines.len() - self.scroll_offset
        } else {
            0
        };
        let mut i: usize = 0;
        while i < visible && i < rest
            invariant
                t == rust_theme_spec(),
                views(lines@) == ls,
                ascii_lines(ls),
                lines@.len() <= usize::MAX,
                rest == (if self.scroll_offset <= lines@.len() { lines@.len() - self.scroll_offset } else { 0 }),
                i <= visible,
                visible <= STATUS_MAX_LINES,
                i <= rest,
                start_y == add16(area.y as int, 3),
                max_width == sub16(area.width as int, 4),
                placements(v@) == head + line_rows(ls, self.scroll_offset as int, area.x, start_y, max_width as nat,
                    i as nat),
            decreases visible - i,
        {
            let line = &lines[self.scroll_offset + i];
            let ghost lv = ls[self.scroll_offset + i];
            assert(lv == line@);
            assert(is_ascii_chars(lv));
            let (fg, bg) = if str_starts_with(line.as_str(), "===") {
                (t.primary, t.background)
            } else if line.as_str().is_empty() {
                (t.text, t.background)
            } else if str_starts_with(line.as_str(), "  ") {
                (t.text, t.background)
            } else {
                (t.accent, t.background)
            };
            let y = wadd16(start_y, i as u16);
            let ghost before = placements(v@);
            proof {
                reveal_strlit("===");
                reveal_strlit("  ");
                vstd::utf8::is_ascii_chars_encode_utf8(lv);
            }
            if line.as_str().len() > max_width {
                let cut = line.as_str().substring_ascii(0, max_width);
                push_draw(&mut v, wadd16(area.x, 2), y, cut, fg, bg);
            } else {
                push_draw(&mut v, wadd16(area.x, 2), y, line.as_str(), fg, bg);
            }
            proof {
                let row = line_row(ls, self.scroll_offset as int, area.x, start_y, max_width as nat, i as int);
                assert((fg, bg) == line_colours(lv));
                assert(placements(v@) =~= before.push(row));
            }
            i = i + 1;
        }
        let right = wsub16(wadd16(area.x, area.width), 2);
        if self.scroll_offset > 0 {
            push_draw(&mut v, right, start_y, "\u{2191}", t.accent, t.background);
        }
        let down = if self.scroll_offset <= lines.len() {
            visible < lines.len() - self.scroll_offset
        } else {
            false
        };
        if down {
            push_draw(&mut v, right, wsub16(wadd16(start_y, visible as u16), 1), "\u{2193}", t.accent,
                t.background);
        }
        proof {
            assert(visible == visible_lines(self.max_lines as int, area.height));
            assert(placements(v@) =~= status_draws(ls, self.scroll(), self.window(), area));
        }
        v
    }

    /// The border of the panel; the screen writer takes nothing yet.
    fn draw_border(&self, area: Rect) -> (r: Result<(), IronVeilError>)
        ensures
            r is Ok,
    {
        Ok(())
    }

    /// Writes text at a position in colours; the screen writer takes
    /// nothing yet.
    fn draw_text(&self, x: u16, y: u16, text: &str, fg: (u8, u8, u8), bg: (u8, u8, u8)) -> (r: Result<(), IronVeilError>)
        ensures
            r is Ok,
    {
        Ok(())
    }
}

/// What the panel does with an input event, and what it answers: Up and
/// Down scroll within the lines, `r` or `R` counts an update (which the
/// next refresh shows); other events change nothing and are not handled.
pub open spec fn panel_input(p0: StatusPanel, p1: StatusPanel, event: InputEvent, r: Result<bool, IronVeilError>) -> bool {
    match event {
        InputEvent::Key(k) => match k.code {
            KeyCode::Up => r == Ok::<bool, IronVeilError>(true) && p1.scroll() == (if p0.scroll()
                > 0 { p0.scroll() - 1 } else { p0.scroll() }) && p1.info() == p0.info() && p1.updates() == p0.updates(),
            KeyCode::Down => r == Ok::<bool, IronVeilError>(true) && p1.scroll() == (if p0.scroll() + p0.window() < status_lines(p0.info(), p0.updates()).len() {
                p0.scroll() + 1 } else { p0.scroll() }) && p1.info() == p0.info()
                && p1.updates() == p0.updates(),
            KeyCode::Char(c) => if c == 'r' || c == 'R' {
                r == Ok::<bool, IronVeilError>(true) && refreshed(p0, p1)
            } else {
                r == Ok::<bool, IronVeilError>(false) && p1 == p0
            },
            _ => r == Ok::<bool, IronVeilError>(false) && p1 == p0,
        },
        _ => r == Ok::<bool, IronVeilError>(false) && p1 == p0,
    }
}

impl UIComponent for StatusPanel {
    open spec fn ui_inv(&self) -> bool {
        ascii_names(self.info().network_interfaces@) && self.window() == STATUS_MAX_LINES
    }

    /// Draws the border, then each of `draw_list`'s draws through the text
    /// writer, which writes nothing yet, so the buffer is left as it is.
    fn render(&self, area: Rect, buf: &mut Buffer) -> (r: Result<(), IronVeilError>)
        ensures
            r is Ok,
            *final(buf) == *old(buf),
    {
        self.draw_border(area)?;
        let draws = self.draw_list(area);
        let mut i: usize = 0;
        while i < draws.len()
            invariant
                i <= draws@.len(),
            decreases draws@.len() - i,
        {
            let d = &draws[i];
            self.draw_text(d.x, d.y, d.text.as_str(), d.fg, d.bg)?;
            i = i + 1;
        }
        Ok(())
    }

    /// Up and Down scroll the lines (Down only while lines remain below the
    /// window), R refreshes the figures; the result says whether the key
    /// was used.
    fn handle_input(&mut self, event: InputEvent) -> (r: Result<bool, IronVeilError>)
        ensures
            final(self).window() == old(self).window(),
            panel_input(*old(self), *final(self), event, r),
    {
        match event {
            InputEvent::Key(key) => match key.code {
                KeyCode::Up => {
                    if self.scroll_offset > 0 {
                        self.scroll_offset = self.scroll_offset - 1;
                    }
                    Ok(true)
                },
                KeyCode::Down => {
                    let lines = self.get_status_lines();
                    proof {
                        assert(views(lines@).len() == lines@.len());
                    }
                    if self.scroll_offset < lines.len() && lines.len() - self.scroll_offset > self.max_lines {
                        self.scroll_offset = self.scroll_offset + 1;
                    }
                    Ok(true)
                },
                KeyCode::Char(c) => {
                    if c == 'r' || c == 'R' {
                        self.update_system_info()?;
                        Ok(true)
                    } else {
                        Ok(false)
                    }
                },
                _ => Ok(false),
            },
            _ => Ok(false),
        }
    }

    /// Refreshes the figures every 60th tick; otherwise counts the tick.
    fn update(&mut self) -> (r: Result<(), IronVeilError>)
        ensures
            r is Ok,
            final(self).updates() == wrap64(old(self).updates() + 1),
            final(self).scroll() == old(self).scroll(),
            final(self).window() == old(self).window(),
            old(self).updates() % 60 == 0 ==> refreshed(*old(self), *final(self)),
            old(self).updates() % 60 != 0 ==> final(self).info() == old(self).info(),
    {
        if self.update_counter % 60 == 0 {
            self.update_system_info()?;
        } else {
            self.update_counter = self.update_counter.wrapping_add(1);
        }
        Ok(())
    }
}

} // verus!
