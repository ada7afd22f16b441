//! Menus of the text interface: a list of items, one of them selected, and
//! a window of at most `max_visible` items that always shows the selection.
use vstd::prelude::*;
use crate::ironveil_ui::{Buffer, InputEvent, IronVeilError, KeyCode, Menu, Rect, UIComponent};
use crate::ironveil_ui::tui::{
    Screen, TextDraw, add16, byte_len, centered_start, centered_x, placements, push_draw, sub16, wadd16, wsub16,
};
use crate::ironveil_ui::tui::rust_theme::{rust_theme, rust_theme_spec};
use crate::text::string_of;

verus! {

/// Items a menu shows at once.
pub const MENU_MAX_VISIBLE: usize = 15;

/// The built-in actions a menu item can run.
#[derive(Debug, Clone, Copy, PartialEq, Eq, Structural)]
pub enum MenuFunction {
    TorMenu,
    RandomizeMac,
    VpnMenu,
    DnsSecurityMenu,
    TrafficAnalysisMenu,
    SecureWipeMenu,
    FileSecurityMenu,
    SettingsMenu,
    ExitApplication,
    InterfaceConfig,
    PortScanner,
    NetworkMonitor,
    DnsLookup,
    PingTraceroute,
    PacketCapture,
}

/// What choosing an item does.
#[derive(Debug)]
pub enum MenuAction {
    /// Runs a system command.
    Command(String),
    /// Opens a submenu.
    SubMenu(Vec<MenuItem>),
    /// Runs a built-in action.
    Function(MenuFunction),
    /// Switches the screen (done by the application).
    SwitchScreen(Screen),
}

/// One entry of a menu.
#[derive(Debug)]
pub struct MenuItem {
    pub label: String,
    pub action: MenuAction,
    pub enabled: bool,
    pub description: String,
}

/// The item has this label, description and action and is enabled.
pub open spec fn item_is(it: MenuItem, label: Seq<char>, description: Seq<char>, action: MenuAction) -> bool {
    &&& it.label@ == label
    &&& it.description@ == description
    &&& it.action == action
    &&& it.enabled
}

/// The first visible item after the selection moved to `sel`: the window
/// moves just enough to show it.
pub open spec fn scroll_after(sel: int, scroll: int, window: int) -> int {
    if sel < scroll {
        sel
    } else if sel >= scroll + window {
        sel - window + 1
    } else {
        scroll
    }
}

/// A menu of the interface.
pub struct IronVeilMenu {
    items: Vec<MenuItem>,
    selected: usize,
    title: String,
    scroll_offset: usize,
    max_visible: usize,
}

impl IronVeilMenu {
    /// The items.
    pub closed spec fn entries(&self) -> Seq<MenuItem> {
        self.items@
    }

    /// Index of the selected item (0 in an empty menu).
    pub closed spec fn cursor(&self) -> int {
        self.selected as int
    }

    /// Index of the first visible item.
    pub closed spec fn scroll(&self) -> int {
        self.scroll_offset as int
    }

    /// How many items are visible at once.
    pub closed spec fn window(&self) -> int {
        self.max_visible as int
    }

    /// The title.
    pub closed spec fn heading(&self) -> Seq<char> {
        self.title@
    }

    /// The selection is an item (or 0 in an empty menu) and lies in the
    /// visible window.
    pub closed spec fn wf(&self) -> bool {
        &&& self.max_visible == MENU_MAX_VISIBLE
        &&& (self.items@.len() == 0 ==> self.selected == 0)
        &&& (self.items@.len() > 0 ==> self.selected < self.items@.len())
        &&& self.scroll_offset <= self.selected
        &&& self.selected < self.scroll_offset + self.max_visible
    }

    /// In a consistent menu the selection is an item (or 0 when there is
    /// none), the window shows it, and the window is `MENU_MAX_VISIBLE` items.
    pub proof fn lemma_selection_visible(&self)
        requires
            self.wf(),
        ensures
            self.entries().len() == 0 ==> self.cursor() == 0,
            self.entries().len() > 0 ==> 0 <= self.cursor() < self.entries().len(),
            0 <= self.scroll() <= self.cursor() < self.scroll() + self.window(),
            self.window() == MENU_MAX_VISIBLE,
    {
    }

    /// An empty menu with the given title.
    pub fn new(title: &str) -> (r: Self)
        ensures
            r.wf(),
            r.heading() == title@,
            r.entries().len() == 0,
            r.cursor() == 0,
            r.scroll() == 0,
            r.window() == MENU_MAX_VISIBLE,
    {
        IronVeilMenu {
            items: Vec::new(),
            selected: 0,
            title: string_of(title),
            scroll_offset: 0,
            max_visible: MENU_MAX_VISIBLE,
        }
    }

    /// Appends an enabled item with a description.
    pub fn add_item_with_desc(&mut self, label: &str, description: &str, action: MenuAction)
        requires
            old(self).wf(),
        ensures
            final(self).wf(),
            final(self).entries().len() == old(self).entries().len() + 1,
            final(self).entries().drop_last() == old(self).entries(),
            item_is(final(self).entries().last(), label@, description@, action),
            final(self).cursor() == old(self).cursor(),
            final(self).scroll() == old(self).scroll(),
            final(self).window() == old(self).window(),
            final(self).heading() == old(self).heading(),
    {
        let item = MenuItem {
            label: string_of(label),
            action,
            enabled: true,
            description: string_of(description),
        };
        self.items.push(item);
        assert(self.items@.drop_last() =~= old(self).items@);
    }

    /// Moves the window so that it shows the selection.
    pub fn update_scroll(&mut self)
        requires
            old(self).window() > 0,
        ensures
            final(self).scroll() == scroll_after(old(self).cursor(), old(self).scroll(), old(self).window()),
            final(self).entries() == old(self).entries(),
            final(self).cursor() == old(self).cursor(),
            final(self).window() == old(self).window(),
            final(self).heading() == old(self).heading(),
    {
        let sel = self.selected;
        let top = self.scroll_offset;
        let window = self.max_visible;
        if sel < top {
            self.scroll_offset = sel;
        } else if sel - top >= window {
            self.scroll_offset = sel - window + 1;
        }
    }

    /// The main menu: privacy, network and system screens, then file
    /// security, settings and exit.
    pub fn main_menu() -> (r: Self)
        ensures
            r.wf(),
            r.heading() == "IronVeil - Main Menu"@,
            r.cursor() == 0,
            r.scroll() == 0,
            r.entries().len() == 6,
            item_is(r.entries()[0], "Privacy & Security"@, "Access privacy tools and security settings"@,
                MenuAction::SwitchScreen(Screen::Privacy)),
            item_is(r.entries()[1], "Network Tools"@, "Network utilities and monitoring"@,
                MenuAction::SwitchScreen(Screen::Network)),
            item_is(r.entries()[2], "System Information"@, "View system status and diagnostics"@,
                MenuAction::SwitchScreen(Screen::SystemInfo)),
            item_is(r.entries()[3], "File Security"@, "Secure file operations and encryption"@,
                MenuAction::Function(MenuFunction::FileSecurityMenu)),
            item_is(r.entries()[4], "Settings"@, "Application and system settings"@,
                MenuAction::Function(MenuFunction::SettingsMenu)),
            item_is(r.entries()[5], "Exit"@, "Exit IronVeil application"@,
                MenuAction::Function(MenuFunction::ExitApplication)),
    {
        let mut menu = Self::new("IronVeil - Main Menu");
        menu.add_item_with_desc("Privacy & Security", "Access privacy tools and security settings",
            MenuAction::SwitchScreen(Screen::Privacy));
        let ghost e0 = menu.entries();
        menu.add_item_with_desc("Network Tools", "Network utilities and monitoring",
            MenuAction::SwitchScreen(Screen::Network));
        let ghost e1 = menu.entries();
        menu.add_item_with_desc("System Information", "View system status and diagnostics",
            MenuAction::SwitchScreen(Screen::SystemInfo));
        let ghost e2 = menu.entries();
        menu.add_item_with_desc("File Security", "Secure file operations and encryption",
            MenuAction::Function(MenuFunction::FileSecurityMenu));
        let ghost e3 = menu.entries();
        menu.add_item_with_desc("Settings", "Application and system settings",
            MenuAction::Function(MenuFunction::SettingsMenu));
        let ghost e4 = menu.entries();
        menu.add_item_with_desc("Exit", "Exit IronVeil application",
            MenuAction::Function(MenuFunction::ExitApplication));
        proof {
            let e5 = menu.entries();
            assert(e4 == e5.drop_last());
            assert(e3 == e4.drop_last());
            assert(e2 == e3.drop_last());
            assert(e1 == e2.drop_last());
            assert(e0 == e1.drop_last());
            assert(e5[0] == e0[0]);
            assert(e5[1] == e1[1]);
            assert(e5[2] == e2[2]);
            assert(e5[3] == e3[3]);
            assert(e5[4] == e4[4]);
        }
        menu
    }

    /// The privacy and security menu.
    pub fn privacy_menu() -> (r: Self)
        ensures
            r.wf(),
            r.heading() == "Privacy & Security"@,
            r.cursor() == 0,
            r.scroll() == 0,
            r.entries().len() == 6,
            item_is(r.entries()[0], "Tor Network"@, "Start/stop Tor and view connection status"@,
                MenuAction::Function(MenuFunction::TorMenu)),
            item_is(r.entries()[1], "MAC Address Randomization"@, "Randomize network interface MAC addresses"@,
                MenuAction::Function(MenuFunction::RandomizeMac)),
            item_is(r.entries()[2], "VPN Configuration"@, "Configure and manage VPN connections"@,
                MenuAction::Function(MenuFunction::VpnMenu)),
            item_is(r.entries()[3], "DNS Security"@, "Configure secure DNS settings"@,
                MenuAction::Function(MenuFunction::DnsSecurityMenu)),
            item_is(r.entries()[4], "Traffic Analysis"@, "Monitor and analyze network traffic"@,
                MenuAction::Function(MenuFunction::TrafficAnalysisMenu)),
            item_is(r.entries()[5], "Secure Wipe"@, "Securely wipe files and free space"@,
                MenuAction::Function(MenuFunction::SecureWipeMenu)),
    {
        let mut menu = Self::new("Privacy & Security");
        menu.add_item_with_desc("Tor Network", "Start/stop Tor and view connection status",
            MenuAction::Function(MenuFunction::TorMenu));
        let ghost e0 = menu.entries();
        menu.add_item_with_desc("MAC Address Randomization", "Randomize network interface MAC addresses",
            MenuAction::Function(MenuFunction::RandomizeMac));
        let ghost e1 = menu.entries();
        menu.add_item_with_desc("VPN Configuration", "Configure and manage VPN connections",
            MenuAction::Function(MenuFunction::VpnMenu));
        let ghost e2 = menu.entries();
        menu.add_item_with_desc("DNS Security", "Configure secure DNS settings",
            MenuAction::Function(MenuFunction::DnsSecurityMenu));
        let ghost e3 = menu.entries();
        menu.add_item_with_desc("Traffic Analysis", "Monitor and analyze network traffic",
            MenuAction::Function(MenuFunction::TrafficAnalysisMenu));
        let ghost e4 = menu.entries();
        menu.add_item_with_desc("Secure Wipe", "Securely wipe files and free space",
            MenuAction::Function(MenuFunction::SecureWipeMenu));
        proof {
            let e5 = menu.entries();
            assert(e4 == e5.drop_last());
            assert(e3 == e4.drop_last());
            assert(e2 == e3.drop_last());
            assert(e1 == e2.drop_last());
            assert(e0 == e1.drop_last());
            assert(e5[0] == e0[0]);
            assert(e5[1] == e1[1]);
            assert(e5[2] == e2[2]);
            assert(e5[3] == e3[3]);
            assert(e5[4] == e4[4]);
        }
        menu
    }

    /// The network tools menu.
    pub fn network_menu() -> (r: Self)
        ensures
            r.wf(),
            r.heading() == "Network Tools"@,
            r.cursor() == 0,
            r.scroll() == 0,
            r.entries().len() == 6,
            item_is(r.entries()[0], "Interface Configuration"@, "Configure network interfaces"@,
                MenuAction::Function(MenuFunction::InterfaceConfig)),
            item_is(r.entries()[1], "Port Scanner"@, "Scan for open ports on target systems"@,
                MenuAction::Function(MenuFunction::PortScanner)),
            item_is(r.entries()[2], "Network Monitor"@, "Real-time network traffic monitoring"@,
                MenuAction::Function(MenuFunction::NetworkMonitor)),
            item_is(r.entries()[3], "DNS Lookup"@, "Perform DNS queries and reverse lookups"@,
                MenuAction::Function(MenuFunction::DnsLookup)),
            item_is(r.entries()[4], "Ping/Traceroute"@, "Network connectivity testing tools"@,
                MenuAction::Function(MenuFunction::PingTraceroute)),
            item_is(r.entries()[5], "Packet Capture"@, "Capture and analyze network packets"@,
                MenuAction::Function(MenuFunction::PacketCapture)),
    {
        let mut menu = Self::new("Network Tools");
        menu.add_item_with_desc("Interface Configuration", "Configure network interfaces",
            MenuAction::Function(MenuFunction::InterfaceConfig));
        let ghost e0 = menu.entries();
        menu.add_item_with_desc("Port Scanner", "Scan for open ports on target systems",
            MenuAction::Function(MenuFunction::PortScanner));
        let ghost e1 = menu.entries();
        menu.add_item_with_desc("Network Monitor", "Real-time network traffic monitoring",
            MenuAction::Function(MenuFunction::NetworkMonitor));
        let ghost e2 = menu.entries();
        menu.add_item_with_desc("DNS Lookup", "Perform DNS queries and reverse lookups",
            MenuAction::Function(MenuFunction::DnsLookup));
        let ghost e3 = menu.entries();
        menu.add_item_with_desc("Ping/Traceroute", "Network connectivity testing tools",
            MenuAction::Function(MenuFunction::PingTraceroute));
        let ghost e4 = menu.entries();
        menu.add_item_with_desc("Packet Capture", "Capture and analyze network packets",
            MenuAction::Function(MenuFunction::PacketCapture));
        proof {
            let e5 = menu.entries();
            assert(e4 == e5.drop_last());
            assert(e3 == e4.drop_last());
            assert(e2 == e3.drop_last());
            assert(e1 == e2.drop_last());
            assert(e0 == e1.drop_last());
            assert(e5[0] == e0[0]);
            assert(e5[1] == e1[1]);
            assert(e5[2] == e2[2]);
            assert(e5[3] == e3[3]);
            assert(e5[4] == e4[4]);
        }
        menu
    }

    /// Number of items.
    pub fn len(&self) -> (r: usize)
        ensures
            r == self.entries().len(),
    {
        self.items.len()
    }

    /// Label of item `i`.
    pub fn label(&self, i: usize) -> (r: &str)
        requires
            i < self.entries().len(),
        ensures
            r@ == self.entries()[i as int].label@,
    {
        self.items[i].label.as_str()
    }

    /// Index of the first visible item.
    pub fn scroll_offset(&self) -> (r: usize)
        ensures
            r == self.scroll(),
    {
        self.scroll_offset
    }
}

/// Runs a built-in action; none of them fails.
pub fn run_menu_function(f: MenuFunction) -> (r: Result<(), IronVeilError>)
    ensures
        r is Ok,
{
    match f {
        MenuFunction::TorMenu => tor_menu(),
        MenuFunction::RandomizeMac => randomize_mac(),
        MenuFunction::VpnMenu => vpn_menu(),
        MenuFunction::DnsSecurityMenu => dns_security_menu(),
        MenuFunction::TrafficAnalysisMenu => traffic_analysis_menu(),
        MenuFunction::SecureWipeMenu => secure_wipe_menu(),
        MenuFunction::FileSecurityMenu => file_security_menu(),
        MenuFunction::SettingsMenu => settings_menu(),
        MenuFunction::ExitApplication => exit_application(),
        MenuFunction::InterfaceConfig => interface_config(),
        MenuFunction::PortScanner => port_scanner(),
        MenuFunction::NetworkMonitor => network_monitor(),
        MenuFunction::DnsLookup => dns_lookup(),
        MenuFunction::PingTraceroute => ping_traceroute(),
        MenuFunction::PacketCapture => packet_capture(),
    }
}

/// The selection mark and the label of the item `i` rows below the top of
/// the window: `>` and the label in the primary colour for the selected
/// item, a blank and the label in the text colour (the secondary colour
/// when disabled) for the others.
pub open spec fn item_row(items: Seq<MenuItem>, sel: int, scroll: int, x: u16, start_y: u16, i: int) -> Seq<
    (u16, u16, Seq<char>, (u8, u8, u8), (u8, u8, u8)),
> {
    let idx = scroll + i;
    let y = add16(start_y as int, i);
    let t = rust_theme_spec();
    let it = items[idx];
    let selected = idx == sel;
    seq![
        if selected {
            (add16(x as int, 2), y, ">"@, t.accent, t.background)
        } else {
            (add16(x as int, 2), y, " "@, t.text, t.background)
        },
        (add16(x as int, 4), y, it.label@, if selected {
            t.background
        } else if it.enabled {
            t.text
        } else {
            t.secondary
        }, if selected {
            t.primary
        } else {
            t.background
        }),
    ]
}

/// The rows of the first `n` items of the window.
pub open spec fn item_rows(items: Seq<MenuItem>, sel: int, scroll: int, x: u16, start_y: u16, n: nat) -> Seq<
    (u16, u16, Seq<char>, (u8, u8, u8), (u8, u8, u8)),
>
    decreases n,
{
    if n == 0 {
        Seq::empty()
    } else {
        item_rows(items, sel, scroll, x, start_y, (n - 1) as nat) + item_row(items, sel, scroll, x, start_y, n - 1)
    }
}

/// What a menu draws in `a`: the title centred on the second row, a row
/// per visible item from the fourth row, the selected item's description
/// three rows above the bottom when it has one, and arrows at the right
/// edge when items are hidden above or below the window.
pub open spec fn menu_draws(items: Seq<MenuItem>, sel: int, scroll: int, window: int, title: Seq<char>, a: Rect) -> Seq<
    (u16, u16, Seq<char>, (u8, u8, u8), (u8, u8, u8)),
> {
    let t = rust_theme_spec();
    let start_y = add16(a.y as int, 3);
    let shown = if window < items.len() - scroll {
        window
    } else {
        items.len() - scroll
    };
    let right = sub16(add16(a.x as int, a.width as int) as int, 2);
    let dy = sub16(add16(a.y as int, a.height as int) as int, 3);
    seq![(centered_x(a.x, a.width, byte_len(title)), add16(a.y as int, 1), title, t.text, t.primary)]
        + item_rows(items, sel, scroll, a.x, start_y, shown as nat)
        + (if 0 <= sel < items.len() && items[sel].description@.len() > 0 {
            seq![
                (add16(a.x as int, 2), dy, "Description:"@, t.accent, t.background),
                (add16(a.x as int, 2), add16(dy as int, 1), items[sel].description@, t.text, t.background),
            ]
        } else {
            Seq::empty()
        })
        + (if scroll > 0 {
            seq![(right, start_y, "\u{2191}"@, t.accent, t.background)]
        } else {
            Seq::empty()
        })
        + (if scroll + window < items.len() {
            seq![(right, sub16(add16(start_y as int, window) as int, 1), "\u{2193}"@, t.accent, t.background)]
        } else {
            Seq::empty()
        })
}

impl IronVeilMenu {
    /// Everything the menu draws in `area`, in order.
    pub fn draw_list(&self, area: Rect) -> (r: Vec<TextDraw>)
        requires
            self.wf(),
        ensures
            placements(r@) == menu_draws(self.entries(), self.cursor(), self.scroll(), self.window(), self.heading(),
                area),
    {
        let t = rust_theme();
        let mut v: Vec<TextDraw> = Vec::new();
        let title_x = centered_start(area.x, area.width, self.title.as_str());
        push_draw(&mut v, title_x, wadd16(area.y, 1), self.title.as_str(), t.text, t.primary);
        let ghost head = placements(v@);
        let start_y = wadd16(area.y, 3);
        let visible = if self.max_visible < self.items.len() {
            self.max_visible
        } else {
            self.items.len()
        };
        let mut i: usize = 0;
        let rest = self.items.len() - self.scroll_offset;
        assert(self.items@.len() == self.items.len());
        while i < visible && i < rest
            invariant
                self.wf(),
                t == rust_theme_spec(),
                visible <= self.max_visible,
                visible <= self.items@.len(),
                rest == self.items@.len() - self.scroll_offset,
                self.items@.len() <= usize::MAX,
                i <= visible,
                self.scroll_offset + i <= self.items@.len(),
                start_y == add16(area.y as int, 3),
                placements(v@) == head + item_rows(self.items@, self.selected as int, self.scroll_offset as int,
                    area.x, start_y, i as nat),
            decreases visible - i,
        {
            let item_index = self.scroll_offset + i;
            let item = &self.items[item_index];
            let y = wadd16(start_y, i as u16);
            let is_selected = item_index == self.selected;
            let ghost before = placements(v@);
            if is_selected {
                push_draw(&mut v, wadd16(area.x, 2), y, ">", t.accent, t.background);
            } else {
                push_draw(&mut v, wadd16(area.x, 2), y, " ", t.text, t.background);
            }
            let (fg, bg) = if is_selected {
                (t.background, t.primary)
            } else if item.enabled {
                (t.text, t.background)
            } else {
                (t.secondary, t.background)
            };
            push_draw(&mut v, wadd16(area.x, 4), y, item.label.as_str(), fg, bg);
            proof {
                let row = item_row(self.items@, self.selected as int, self.scroll_offset as int, area.x, start_y,
                    i as int);
                assert(placements(v@) =~= before + row);
                assert(item_rows(self.items@, self.selected as int, self.scroll_offset as int, area.x, start_y,
                    (i + 1) as nat) == item_rows(self.items@, self.selected as int, self.scroll_offset as int, area.x,
                    start_y, i as nat) + row);
            }
            i = i + 1;
        }
        let ghost rows = placements(v@);
        let dy = wsub16(wadd16(area.y, area.height), 3);
        if self.selected < self.items.len() && !self.items[self.selected].description.as_str().is_empty() {
            push_draw(&mut v, wadd16(area.x, 2), dy, "Description:", t.accent, t.background);
            push_draw(&mut v, wadd16(area.x, 2), wadd16(dy, 1), self.items[self.selected].description.as_str(),
                t.text, t.background);
        }
        let ghost desc = placements(v@);
        let right = wsub16(wadd16(area.x, area.width), 2);
        if self.scroll_offset > 0 {
            push_draw(&mut v, right, start_y, "\u{2191}", t.accent, t.background);
        }
        let ghost up = placements(v@);
        if self.max_visible < self.items.len() - self.scroll_offset {
            push_draw(&mut v, right, wsub16(wadd16(start_y, self.max_visible as u16), 1), "\u{2193}", t.accent,
                t.background);
        }
        proof {
            let shown = if self.max_visible < self.items@.len() - self.scroll_offset {
                self.max_visible as int
            } else {
                self.items@.len() - self.scroll_offset
            };
            assert(i == shown);
            assert(placements(v@) =~= menu_draws(self.entries(), self.cursor(), self.scroll(), self.window(),
                self.heading(), area));
        }
        v
    }

    /// The border of the menu; the screen writer takes nothing yet.
    fn draw_border(&self, area: Rect) -> (r: Result<(), IronVeilError>)
        ensures
            r is Ok,
    {
        Ok(())
    }

    /// Writes text at a position in colours; the screen writer takes
    /// nothing yet.
    fn draw_text(&self, x: u16, y: u16, text: &str, fg: (u8, u8, u8), bg: (u8, u8, u8)) -> (r: Result<(), IronVeilError>)
        ensures
            r is Ok,
    {
        Ok(())
    }
}

impl UIComponent for IronVeilMenu {
    open spec fn ui_inv(&self) -> bool {
        self.wf()
    }

    /// Draws the border, then each of `draw_list`'s draws through the text
    /// writer, which writes nothing yet, so the buffer is left as it is.
    fn render(&self, area: Rect, buf: &mut Buffer) -> (r: Result<(), IronVeilError>)
        ensures
            r is Ok,
            *final(buf) == *old(buf),
    {
        self.draw_border(area)?;
        let draws = self.draw_list(area);
        let mut i: usize = 0;
        while i < draws.len()
            invariant
                i <= draws@.len(),
            decreases draws@.len() - i,
        {
            let d = &draws[i];
            self.draw_text(d.x, d.y, d.text.as_str(), d.fg, d.bg)?;
            i = i + 1;
        }
        Ok(())
    }

    /// Up and Down move the selection, Enter runs the selected item; the
    /// result says whether the key was used.
    fn handle_input(&mut self, event: InputEvent) -> (r: Result<bool, IronVeilError>)
        ensures
            final(self).entries() == old(self).entries(),
            final(self).heading() == old(self).heading(),
            final(self).window() == old(self).window(),
            ({
                let n = old(self).entries().len();
                match event {
                    InputEvent::Key(k) => match k.code {
                        KeyCode::Up => r == Ok::<bool, IronVeilError>(true) && moved_previous(*old(self), *final(self)),
                        KeyCode::Down => r == Ok::<bool, IronVeilError>(true) && moved_next(*old(self), *final(self)),
                        KeyCode::Enter => (if n == 0 { r == Err::<bool, IronVeilError>(IronVeilError::InvalidInput) }
                            else { r == Ok::<bool, IronVeilError>(true) }) && final(self).cursor() == old(self).cursor()
                            && final(self).scroll() == old(self).scroll(),
                        _ => r == Ok::<bool, IronVeilError>(false) && final(self).cursor() == old(self).cursor()
                            && final(self).scroll() == old(self).scroll(),
                    },
                    _ => r == Ok::<bool, IronVeilError>(false) && final(self).cursor() == old(self).cursor()
                        && final(self).scroll() == old(self).scroll(),
                }
            }),
    {
        match event {
            InputEvent::Key(key) => match key.code {
                KeyCode::Up => {
                    self.select_previous();
                    Ok(true)
                },
                KeyCode::Down => {
                    self.select_next();
                    Ok(true)
                },
                KeyCode::Enter => {
                    self.execute_selected()?;
                    Ok(true)
                },
                _ => Ok(false),
            },
            _ => Ok(false),
        }
    }

    /// Nothing changes with time.
    fn update(&mut self) -> (r: Result<(), IronVeilError>)
        ensures
            r is Ok,
            *final(self) == *old(self),
            final(self).entries() == old(self).entries(),
            final(self).cursor() == old(self).cursor(),
            final(self).scroll() == old(self).scroll(),
            final(self).window() == old(self).window(),
            final(self).heading() == old(self).heading(),
    {
        Ok(())
    }
}

impl Menu for IronVeilMenu {
    fn add_item(&mut self, label: &str, action: MenuAction)
        ensures
            final(self).entries().len() == old(self).entries().len() + 1,
            final(self).entries().drop_last() == old(self).entries(),
            final(self).entries().last().label@ == label@,
            final(self).entries().last().description@ == Seq::<char>::empty(),
            final(self).entries().last().action == action,
            final(self).entries().last().enabled,
            final(self).cursor() == old(self).cursor(),
            final(self).scroll() == old(self).scroll(),
            final(self).window() == old(self).window(),
            final(self).heading() == old(self).heading(),
    {
        let item = MenuItem { label: string_of(label), action, enabled: true, description: String::new() };
        self.items.push(item);
        assert(self.items@.drop_last() =~= old(self).items@);
    }

    fn get_selected(&self) -> (r: Option<usize>)
        ensures
            self.entries().len() == 0 ==> r is None,
            self.entries().len() > 0 ==> r == Some(self.cursor() as usize),
    {
        if self.items.len() == 0 {
            None
        } else {
            Some(self.selected)
        }
    }

    fn select_next(&mut self)
        ensures
            moved_next(*old(self), *final(self)),
    {
        if self.items.len() > 0 {
            self.selected = (self.selected + 1) % self.items.len();
            self.update_scroll();
        }
    }

    fn select_previous(&mut self)
        ensures
            moved_previous(*old(self), *final(self)),
    {
        if self.items.len() > 0 {
            if self.selected == 0 {
                self.selected = self.items.len() - 1;
            } else {
                self.selected = self.selected - 1;
            }
            self.update_scroll();
        }
    }

    fn execute_selected(&mut self) -> (r: Result<(), IronVeilError>)
        ensures
            old(self).entries().len() == 0 ==> r == Err::<(), IronVeilError>(IronVeilError::InvalidInput),
            old(self).entries().len() > 0 ==> r is Ok,
            final(self).entries() == old(self).entries(),
            final(self).cursor() == old(self).cursor(),
            final(self).scroll() == old(self).scroll(),
            final(self).window() == old(self).window(),
            final(self).heading() == old(self).heading(),
    {
        if self.selected < self.items.len() {
            match &self.items[self.selected].action {
                MenuAction::Function(f) => run_menu_function(*f),
                MenuAction::Command(cmd) => execute_command(cmd.as_str()),
                MenuAction::SubMenu(_) => Ok(()),
                MenuAction::SwitchScreen(_) => Ok(()),
            }
        } else {
            Err(IronVeilError::InvalidInput)
        }
    }
}

/// Tor controls.
fn tor_menu() -> (r: Result<(), IronVeilError>)
    ensures
        r is Ok,
{
    Ok(())
}

/// MAC address randomisation.
fn randomize_mac() -> (r: Result<(), IronVeilError>)
    ensures
        r is Ok,
{
    Ok(())
}

/// VPN configuration.
fn vpn_menu() -> (r: Result<(), IronVeilError>)
    ensures
        r is Ok,
{
    Ok(())
}

/// Secure DNS settings.
fn dns_security_menu() -> (r: Result<(), IronVeilError>)
    ensures
        r is Ok,
{
    Ok(())
}

/// Traffic analysis tools.
fn traffic_analysis_menu() -> (r: Result<(), IronVeilError>)
    ensures
        r is Ok,
{
    Ok(())
}

/// Secure wiping.
fn secure_wipe_menu() -> (r: Result<(), IronVeilError>)
    ensures
        r is Ok,
{
    Ok(())
}

/// File security options.
fn file_security_menu() -> (r: Result<(), IronVeilError>)
    ensures
        r is Ok,
{
    Ok(())
}

/// Application settings.
fn settings_menu() -> (r: Result<(), IronVeilError>)
    ensures
        r is Ok,
{
    Ok(())
}

/// Leaving the application.
fn exit_application() -> (r: Result<(), IronVeilError>)
    ensures
        r is Ok,
{
    Ok(())
}

/// Interface configuration.
fn interface_config() -> (r: Result<(), IronVeilError>)
    ensures
        r is Ok,
{
    Ok(())
}

/// Port scanning.
fn port_scanner() -> (r: Result<(), IronVeilError>)
    ensures
        r is Ok,
{
    Ok(())
}

/// Traffic monitoring.
fn network_monitor() -> (r: Result<(), IronVeilError>)
    ensures
        r is Ok,
{
    Ok(())
}

/// DNS queries.
fn dns_lookup() -> (r: Result<(), IronVeilError>)
    ensures
        r is Ok,
{
    Ok(())
}

/// Connectivity tests.
fn ping_traceroute() -> (r: Result<(), IronVeilError>)
    ensures
        r is Ok,
{
    Ok(())
}

/// Packet capture.
fn packet_capture() -> (r: Result<(), IronVeilError>)
    ensures
        r is Ok,
{
    Ok(())
}

/// A system command; none is run yet.
fn execute_command(cmd: &str) -> (r: Result<(), IronVeilError>)
    ensures
        r is Ok,
{
    Ok(())
}

/// The selection after the next item.
pub open spec fn next_index(cursor: int, n: int) -> int {
    (cursor + 1) % n
}

/// The selection after the previous item.
pub open spec fn previous_index(cursor: int, n: int) -> int {
    if cursor == 0 { n - 1 } else { cursor - 1 }
}

/// `m1` is `m0` with the next item selected, wrapping to the first, and
/// the window moved to show it; an empty menu is left as it is.
pub open spec fn moved_next(m0: IronVeilMenu, m1: IronVeilMenu) -> bool {
    let n = m0.entries().len() as int;
    &&& m1.entries() == m0.entries()
    &&& m1.heading() == m0.heading()
    &&& m1.window() == m0.window()
    &&& n == 0 ==> m1.cursor() == m0.cursor() && m1.scroll() == m0.scroll()
    &&& n > 0 ==> m1.cursor() == next_index(m0.cursor(), n) && m1.scroll() == scroll_after(
        m1.cursor(),
        m0.scroll(),
        m0.window(),
    )
}

/// `m1` is `m0` with the previous item selected, wrapping to the last, and
/// the window moved to show it; an empty menu is left as it is.
pub open spec fn moved_previous(m0: IronVeilMenu, m1: IronVeilMenu) -> bool {
    let n = m0.entries().len() as int;
    &&& m1.entries() == m0.entries()
    &&& m1.heading() == m0.heading()
    &&& m1.window() == m0.window()
    &&& n == 0 ==> m1.cursor() == m0.cursor() && m1.scroll() == m0.scroll()
    &&& n > 0 ==> m1.cursor() == previous_index(m0.cursor(), n) && m1.scroll() == scroll_after(
        m1.cursor(),
        m0.scroll(),
        m0.window(),
    )
}

/// In a consistent menu of `k` items with item `s` selected, moving to the
/// previous item selects `(s + k - 1) % k`, the window shows it and the
/// menu stays consistent; an empty menu keeps its selection and window.
pub proof fn law_menu_previous(m0: IronVeilMenu, m1: IronVeilMenu)
    requires
        m0.wf(),
        moved_previous(m0, m1),
    ensures
        m1.wf(),
        m0.entries().len() > 0 ==> m1.cursor() == (m0.cursor() + m0.entries().len() - 1) % (
        m0.entries().len() as int),
        m1.scroll() <= m1.cursor() < m1.scroll() + MENU_MAX_VISIBLE,
        m0.entries().len() == 0 ==> m1.cursor() == m0.cursor() && m1.scroll() == m0.scroll(),
{
    let k = m0.entries().len() as int;
    if k > 0 {
        law_next_previous_inverse(m0.cursor(), k);
        law_scroll_shows_selection(m1.cursor(), m0.scroll(), m0.window());
        if m0.cursor() == 0 {
            vstd::arithmetic::div_mod::lemma_small_mod((k - 1) as nat, k as nat);
        } else {
            vstd::arithmetic::div_mod::lemma_mod_adds(m0.cursor() - 1, k, k);
            vstd::arithmetic::div_mod::lemma_mod_self_0(k);
            vstd::arithmetic::div_mod::lemma_small_mod((m0.cursor() - 1) as nat, k as nat);
        }
    }
}

/// In a consistent menu, moving to the next item and then to the previous
/// one, or to the previous and then the next, selects the item selected
/// before, and the menu stays consistent throughout.
pub proof fn law_menu_next_previous(m0: IronVeilMenu, m1: IronVeilMenu, m2: IronVeilMenu, m3: IronVeilMenu, m4: IronVeilMenu)
    requires
        m0.wf(),
        moved_next(m0, m1),
        moved_previous(m1, m2),
        moved_previous(m0, m3),
        moved_next(m3, m4),
    ensures
        m1.wf(),
        m2.wf(),
        m3.wf(),
        m4.wf(),
        m2.cursor() == m0.cursor(),
        m4.cursor() == m0.cursor(),
{
    let k = m0.entries().len() as int;
    if k > 0 {
        law_next_previous_inverse(m0.cursor(), k);
        law_scroll_shows_selection(m1.cursor(), m0.scroll(), m0.window());
        law_scroll_shows_selection(m2.cursor(), m1.scroll(), m1.window());
        law_scroll_shows_selection(m3.cursor(), m0.scroll(), m0.window());
        law_scroll_shows_selection(m4.cursor(), m3.scroll(), m3.window());
    }
}

/// In a menu of `n` items, moving to the next item and back (or back and
/// then on) returns to the same item, and the selection stays an item.
pub proof fn law_next_previous_inverse(cursor: int, n: int)
    requires
        0 <= cursor < n,
    ensures
        0 <= next_index(cursor, n) < n,
        0 <= previous_index(cursor, n) < n,
        previous_index(next_index(cursor, n), n) == cursor,
        next_index(previous_index(cursor, n), n) == cursor,
{
    if cursor + 1 < n {
        vstd::arithmetic::div_mod::lemma_small_mod((cursor + 1) as nat, n as nat);
    } else {
        vstd::arithmetic::div_mod::lemma_mod_self_0(n);
    }
    if cursor == 0 {
        vstd::arithmetic::div_mod::lemma_small_mod((n - 1) as nat, n as nat);
        vstd::arithmetic::div_mod::lemma_mod_self_0(n);
    } else {
        vstd::arithmetic::div_mod::lemma_small_mod(cursor as nat, n as nat);
    }
}

/// After the window moves to show a selection, the selection is visible.
pub proof fn law_scroll_shows_selection(sel: int, scroll: int, window: int)
    requires
        window > 0,
        sel >= 0,
        scroll >= 0,
    ensures
        0 <= scroll_after(sel, scroll, window) <= sel < scroll_after(sel, scroll, window) + window,
{
}

} // verus!
