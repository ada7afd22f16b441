//! The IronVeil user interface: shell, banners, system information and the
//! text user interface.
pub mod cli;
pub mod neofetch;
pub mod tui;

use vstd::prelude::*;
use crate::ironveil_ui::tui::menu::MenuAction;

verus! {

/// A physical address.
#[derive(Copy, Clone, Debug, PartialEq, Eq, PartialOrd, Ord, Structural)]
pub struct PhysAddr(pub usize);

/// A virtual address.
#[derive(Copy, Clone, Debug, PartialEq, Eq, PartialOrd, Ord, Structural)]
pub struct VirtAddr(pub usize);

/// A physical frame.
#[derive(Copy, Clone, Debug, PartialEq, Eq, Structural)]
pub struct PhysFrame(pub usize);

/// A task id.
#[derive(Copy, Clone, Debug, PartialEq, Eq, Hash, Structural)]
pub struct TaskId(pub u64);

/// A MAC address.
#[derive(Copy, Clone, Debug, PartialEq, Eq)]
pub struct MacAddr(pub [u8; 6]);

/// An IPv4 address.
#[derive(Copy, Clone, Debug, PartialEq, Eq)]
pub struct Ipv4Addr(pub [u8; 4]);

/// Interface errors.
#[derive(Debug, Clone, Copy, PartialEq, Eq, Structural)]
pub enum IronVeilError {
    OutOfMemory,
    InvalidAddress,
    TaskNotFound,
    NetworkError,
    PrivacyViolation,
    HardwareError,
    UIError,
    InvalidInput,
}

/// Result of an interface operation.
pub type Result<T> = core::result::Result<T, IronVeilError>;

/// Keys.
#[derive(Debug, Clone, Copy, PartialEq, Eq, Structural)]
pub enum KeyCode {
    Up,
    Down,
    Left,
    Right,
    Enter,
    Escape,
    Tab,
    Backspace,
    Delete,
    Char(char),
    F(u8),
}

/// Modifier keys held.
#[derive(Debug, Clone, Copy, PartialEq, Eq, Structural)]
pub struct KeyModifiers {
    pub ctrl: bool,
    pub alt: bool,
    pub shift: bool,
}

/// A key press.
#[derive(Debug, Clone, Copy, PartialEq, Eq, Structural)]
pub struct KeyEvent {
    pub code: KeyCode,
    pub modifiers: KeyModifiers,
}

/// Mouse buttons.
#[derive(Debug, Clone, Copy, PartialEq, Eq, Structural)]
pub enum MouseButton {
    Left,
    Right,
    Middle,
}

/// A mouse click.
#[derive(Debug, Clone, Copy, PartialEq, Eq, Structural)]
pub struct MouseEvent {
    pub x: u16,
    pub y: u16,
    pub button: MouseButton,
}

/// Input to the interface.
#[derive(Debug, Clone, Copy, PartialEq, Eq, Structural)]
pub enum InputEvent {
    Key(KeyEvent),
    Mouse(MouseEvent),
    Resize(u16, u16),
}

/// A screen rectangle.
#[derive(Debug, Clone, Copy, PartialEq, Eq, Structural)]
pub struct Rect {
    pub x: u16,
    pub y: u16,
    pub width: u16,
    pub height: u16,
}

impl Rect {
    /// The rectangle at `(x, y)` of the given size.
    pub fn new(x: u16, y: u16, width: u16, height: u16) -> (r: Self)
        ensures
            r == (Rect { x, y, width, height }),
    {
        Rect { x, y, width, height }
    }
}

/// An RGB colour.
#[derive(Debug, Clone, Copy, PartialEq, Eq, Structural)]
pub struct Color {
    pub r: u8,
    pub g: u8,
    pub b: u8,
}

impl Color {
    /// The colour with the given components.
    pub fn rgb(r: u8, g: u8, b: u8) -> (c: Self)
        ensures
            c == (Color { r, g, b }),
    {
        Color { r, g, b }
    }
}

/// A character cell.
#[derive(Debug, Clone, Copy, PartialEq, Eq, Structural)]
pub struct Cell {
    pub symbol: char,
    pub fg: Color,
    pub bg: Color,
}

/// A screen buffer.
#[derive(Debug)]
pub struct Buffer {
    pub area: Rect,
    pub content: Vec<Cell>,
}

/// Figures the interface shows.
#[derive(Debug)]
pub struct SystemInfo {
    pub uptime: u64,
    pub memory_usage: MemoryStats,
    pub network_interfaces: Vec<NetworkInterface>,
    pub privacy_status: PrivacyStatus,
}

impl Default for SystemInfo {
    fn default() -> (r: Self)
        ensures
            r.uptime == 0,
            r.memory_usage == (MemoryStats { total: 0, used: 0, free: 0 }),
            r.network_interfaces@.len() == 0,
            r.privacy_status == (PrivacyStatus { tor_status: TorStatus::Stopped, mac_randomized: false,
                vpn_connected: false }),
    {
        SystemInfo {
            uptime: 0,
            memory_usage: MemoryStats::default(),
            network_interfaces: Vec::new(),
            privacy_status: PrivacyStatus::default(),
        }
    }
}

/// Memory figures.
#[derive(Debug, Clone, Copy, PartialEq, Eq, Structural)]
pub struct MemoryStats {
    pub total: usize,
    pub used: usize,
    pub free: usize,
}

impl Default for MemoryStats {
    fn default() -> (r: Self)
        ensures
            r == (MemoryStats { total: 0, used: 0, free: 0 }),
    {
        MemoryStats { total: 0, used: 0, free: 0 }
    }
}

/// Interface link state.
#[derive(Debug, Clone, Copy, PartialEq, Eq, Structural)]
pub enum InterfaceStatus {
    Up,
    Down,
    Unknown,
}

/// A network interface as the interface shows it.
#[derive(Debug)]
pub struct NetworkInterface {
    pub name: String,
    pub mac_address: MacAddr,
    pub ip_address: Option<Ipv4Addr>,
    pub status: InterfaceStatus,
}

/// State of Tor.
#[derive(Debug, Clone, Copy, PartialEq, Eq, Structural)]
pub enum TorStatus {
    Stopped,
    Starting,
    Running,
    Error,
}

impl Default for TorStatus {
    fn default() -> (r: Self)
        ensures
            r == TorStatus::Stopped,
    {
        TorStatus::Stopped
    }
}

/// Privacy state.
#[derive(Debug, Clone, Copy, PartialEq, Eq, Structural)]
pub struct PrivacyStatus {
    pub tor_status: TorStatus,
    pub mac_randomized: bool,
    pub vpn_connected: bool,
}

impl Default for PrivacyStatus {
    fn default() -> (r: Self)
        ensures
            r == (PrivacyStatus { tor_status: TorStatus::Stopped, mac_randomized: false, vpn_connected: false }),
    {
        PrivacyStatus { tor_status: TorStatus::Stopped, mac_randomized: false, vpn_connected: false }
    }
}

/// A component of the text interface.
pub trait UIComponent {
    /// The component's own consistency, kept by every operation.
    spec fn ui_inv(&self) -> bool;

    /// Draws the component into `area` of the buffer.
    fn render(&self, area: Rect, buf: &mut Buffer) -> (r: Result<()>)
        requires
            self.ui_inv(),
    ;

    /// Handles input; `true` when the component used it.
    fn handle_input(&mut self, event: InputEvent) -> (r: Result<bool>)
        requires
            old(self).ui_inv(),
        ensures
            final(self).ui_inv(),
    ;

    /// Periodic update.
    fn update(&mut self) -> (r: Result<()>)
        requires
            old(self).ui_inv(),
        ensures
            final(self).ui_inv(),
    ;
}

/// A list of items with a selection.
pub trait Menu: UIComponent {
    /// Appends an item.
    fn add_item(&mut self, label: &str, action: MenuAction)
        requires
            old(self).ui_inv(),
        ensures
            final(self).ui_inv(),
    ;

    /// Index of the selected item; `None` when there is none.
    fn get_selected(&self) -> Option<usize>
        requires
            self.ui_inv(),
    ;

    /// Selects the next item, wrapping to the first.
    fn select_next(&mut self)
        requires
            old(self).ui_inv(),
        ensures
            final(self).ui_inv(),
    ;

    /// Selects the previous item, wrapping to the last.
    fn select_previous(&mut self)
        requires
            old(self).ui_inv(),
        ensures
            final(self).ui_inv(),
    ;

    /// Runs the selected item's action.
    fn execute_selected(&mut self) -> (r: Result<()>)
        requires
            old(self).ui_inv(),
        ensures
            final(self).ui_inv(),
    ;
}

} // verus!
