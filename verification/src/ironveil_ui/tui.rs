//! The text user interface: three menus and the status panel, one screen
//! at a time.
pub mod menu;
pub mod rust_theme;
pub mod status_panel;

use vstd::prelude::*;
use crate::ironveil_ui::{
    Buffer, InputEvent, IronVeilError, KeyCode, KeyEvent, KeyModifiers, Menu, Rect, UIComponent,
};
use crate::ironveil_ui::tui::menu::IronVeilMenu;
use crate::ironveil_ui::tui::status_panel::{StatusPanel, panel_input, wrap64};
use crate::text::string_of;

verus! {

/// The screens of the interface.
#[derive(Debug, Clone, Copy, PartialEq, Eq, Structural)]
pub enum Screen {
    Main,
    Privacy,
    Network,
    SystemInfo,
}

/// The screen after `s` in the Tab order.
pub open spec fn next_screen(s: Screen) -> Screen {
    match s {
        Screen::Main => Screen::Privacy,
        Screen::Privacy => Screen::Network,
        Screen::Network => Screen::SystemInfo,
        Screen::SystemInfo => Screen::Main,
    }
}

/// The screen the main menu's selection leads to; `s` for the other items.
pub open spec fn main_choice(cursor: int, s: Screen) -> Screen {
    if cursor == 0 {
        Screen::Privacy
    } else if cursor == 1 {
        Screen::Network
    } else if cursor == 2 {
        Screen::SystemInfo
    } else {
        s
    }
}

/// A menu's selection after a key, in a menu of `n > 0` items.
pub open spec fn cursor_after_key(cursor: int, n: int, code: KeyCode) -> int {
    match code {
        KeyCode::Up => if cursor == 0 { n - 1 } else { cursor - 1 },
        KeyCode::Down => (cursor + 1) % n,
        _ => cursor,
    }
}

/// Keys a menu acts on.
pub open spec fn menu_key(code: KeyCode) -> bool {
    code == KeyCode::Up || code == KeyCode::Down || code == KeyCode::Enter
}

/// The key quits the application: Ctrl with `q` or `Q`.
pub open spec fn quit_key(k: KeyEvent) -> bool {
    k.modifiers.ctrl && (k.code == KeyCode::Char('q') || k.code == KeyCode::Char('Q'))
}

/// The application.
pub struct TUIApplication {
    current_screen: Screen,
    main_menu: IronVeilMenu,
    privacy_menu: IronVeilMenu,
    network_menu: IronVeilMenu,
    status_panel: StatusPanel,
    should_quit: bool,
}

impl TUIApplication {
    /// The screen shown.
    pub closed spec fn screen(&self) -> Screen {
        self.current_screen
    }

    /// Whether the application is to stop.
    pub closed spec fn quitting(&self) -> bool {
        self.should_quit
    }

    /// The main menu.
    pub closed spec fn main_view(&self) -> IronVeilMenu {
        self.main_menu
    }

    /// The privacy menu.
    pub closed spec fn privacy(&self) -> IronVeilMenu {
        self.privacy_menu
    }

    /// The network menu.
    pub closed spec fn network(&self) -> IronVeilMenu {
        self.network_menu
    }

    /// The status panel.
    pub closed spec fn panel(&self) -> StatusPanel {
        self.status_panel
    }

    /// Each menu is consistent and has its six items, and the status panel
    /// is consistent.
    pub closed spec fn wf(&self) -> bool {
        &&& self.status_panel.ui_inv()
        &&& self.main_menu.wf()
        &&& self.privacy_menu.wf()
        &&& self.network_menu.wf()
        &&& self.main_menu.entries().len() == 6
        &&& self.privacy_menu.entries().len() == 6
        &&& self.network_menu.entries().len() == 6
    }

    /// The application on the main screen with its three menus.
    pub fn new() -> (r: Self)
        ensures
            r.wf(),
            r.screen() == Screen::Main,
            !r.quitting(),
            r.main_view().cursor() == 0,
            r.privacy().cursor() == 0,
            r.network().cursor() == 0,
            r.panel().updates() == 0,
    {
        TUIApplication {
            current_screen: Screen::Main,
            main_menu: IronVeilMenu::main_menu(),
            privacy_menu: IronVeilMenu::privacy_menu(),
            network_menu: IronVeilMenu::network_menu(),
            status_panel: StatusPanel::new(),
            should_quit: false,
        }
    }

    /// The screen shown.
    pub fn current_screen(&self) -> (r: Screen)
        ensures
            r == self.screen(),
    {
        self.current_screen
    }

    /// Whether the application is to stop.
    pub fn should_quit(&self) -> (r: bool)
        ensures
            r == self.quitting(),
    {
        self.should_quit
    }

    /// The main menu.
    pub fn main_menu(&self) -> (r: &IronVeilMenu)
        ensures
            *r == self.main_view(),
    {
        &self.main_menu
    }

    /// The status panel.
    pub fn status_panel(&self) -> (r: &StatusPanel)
        ensures
            *r == self.panel(),
    {
        &self.status_panel
    }

    /// Ticks the status panel, then the component on screen (the panel a
    /// second time on the system screen).
    pub fn update(&mut self) -> (r: Result<(), IronVeilError>)
        requires
            old(self).wf(),
        ensures
            final(self).wf(),
            r is Ok,
            final(self).screen() == old(self).screen(),
            final(self).quitting() == old(self).quitting(),
            final(self).main_view() == old(self).main_view(),
            final(self).privacy() == old(self).privacy(),
            final(self).network() == old(self).network(),
            final(self).panel().scroll() == old(self).panel().scroll(),
            final(self).panel().updates() == (if old(self).screen() == Screen::SystemInfo {
                wrap64(wrap64(old(self).panel().updates() + 1) + 1)
            } else {
                wrap64(old(self).panel().updates() + 1)
            }),
    {
        self.status_panel.update()?;
        match self.current_screen {
            Screen::Main => self.main_menu.update(),
            Screen::Privacy => self.privacy_menu.update(),
            Screen::Network => self.network_menu.update(),
            Screen::SystemInfo => self.status_panel.update(),
        }
    }

    /// Draws the header, the component on screen, the status panel and the
    /// footer.
    pub fn render(&mut self) -> (r: Result<(), IronVeilError>)
        requires
            old(self).wf(),
        ensures
            r is Ok,
            *final(self) == *old(self),
    {
        let area = Rect::new(0, 0, 80, 25);
        let mut buffer = Buffer { area, content: Vec::new() };
        self.render_header(&area, &mut buffer)?;
        let menu_area = Rect::new(0, 3, 60, 20);
        let status_area = Rect::new(60, 3, 20, 20);
        match self.current_screen {
            Screen::Main => self.main_menu.render(menu_area, &mut buffer)?,
            Screen::Privacy => self.privacy_menu.render(menu_area, &mut buffer)?,
            Screen::Network => self.network_menu.render(menu_area, &mut buffer)?,
            Screen::SystemInfo => self.status_panel.render(menu_area, &mut buffer)?,
        }
        self.status_panel.render(status_area, &mut buffer)?;
        self.render_footer(&area, &mut buffer)?;
        self.draw_buffer(&buffer)
    }

    /// The title bar of the screen.
    fn render_header(&self, area: &Rect, buffer: &mut Buffer) -> (r: Result<(), IronVeilError>)
        ensures
            r is Ok,
            *final(buffer) == *old(buffer),
    {
        let title = match self.current_screen {
            Screen::Main => "IronVeil - Main Menu",
            Screen::Privacy => "IronVeil - Privacy & Security",
            Screen::Network => "IronVeil - Network Tools",
            Screen::SystemInfo => "IronVeil - System Information",
        };
        self.draw_text(2, 1, title)
    }

    /// The key help line.
    fn render_footer(&self, area: &Rect, buffer: &mut Buffer) -> (r: Result<(), IronVeilError>)
        ensures
            r is Ok,
            *final(buffer) == *old(buffer),
    {
        let y = if area.height > 0 { area.height - 1 } else { 0 };
        self.draw_text(2, y, "ESC: Back | ENTER: Select | Q: Quit | TAB: Switch Menu")
    }

    /// Handles an input event: keys go to `handle_key`, mouse and resize
    /// events are ignored.
    pub fn handle_input(&mut self, event: InputEvent) -> (r: Result<(), IronVeilError>)
        requires
            old(self).wf(),
        ensures
            final(self).wf(),
            r is Ok,
            !(event is Key) ==> *final(self) == *old(self),
    {
        match event {
            InputEvent::Key(key) => self.handle_key(key),
            InputEvent::Mouse(_) => Ok(()),
            InputEvent::Resize(_, _) => Ok(()),
        }
    }

    /// Ctrl+Q quits, Tab moves to the next screen, Escape goes back to the
    /// main screen; other keys go to the component on screen.  On the main
    /// screen, a key the menu acts on then switches to the screen of the
    /// selected item (privacy, network or system information).
    pub fn handle_key(&mut self, key: KeyEvent) -> (r: Result<(), IronVeilError>)
        requires
            old(self).wf(),
        ensures
            final(self).wf(),
            r is Ok,
            quit_key(key) ==> final(self).quitting() && final(self).screen() == old(self).screen(),
            !quit_key(key) && key.code == KeyCode::Tab ==> final(self).screen() == next_screen(old(self).screen())
                && final(self).quitting() == old(self).quitting(),
            !quit_key(key) && key.code == KeyCode::Escape ==> final(self).screen() == Screen::Main
                && final(self).quitting() == old(self).quitting(),
            !quit_key(key) && key.code != KeyCode::Tab && key.code != KeyCode::Escape ==> {
                &&& final(self).quitting() == old(self).quitting()
                &&& old(self).screen() == Screen::Main ==> {
                    &&& final(self).main_view().cursor() == cursor_after_key(old(self).main_view().cursor(), 6, key.code)
                    &&& final(self).screen() == (if menu_key(key.code) { main_choice(final(self).main_view().cursor(),
                        Screen::Main) } else { Screen::Main })
                }
                &&& old(self).screen() == Screen::Privacy ==> {
                    &&& final(self).privacy().cursor() == cursor_after_key(old(self).privacy().cursor(), 6, key.code)
                    &&& final(self).screen() == Screen::Privacy
                }
                &&& old(self).screen() == Screen::Network ==> {
                    &&& final(self).network().cursor() == cursor_after_key(old(self).network().cursor(), 6, key.code)
                    &&& final(self).screen() == Screen::Network
                }
                &&& old(self).screen() == Screen::SystemInfo ==> {
                    &&& final(self).screen() == Screen::SystemInfo
                    &&& final(self).panel().window() == old(self).panel().window()
                    &&& exists|r: Result<bool, IronVeilError>| #[trigger] panel_input(old(self).panel(),
                        final(self).panel(), InputEvent::Key(key), r)
                }
            },
    {
        let is_q = match key.code {
            KeyCode::Char(c) => c == 'q' || c == 'Q',
            _ => false,
        };
        if is_q && key.modifiers.ctrl {
            self.should_quit = true;
            return Ok(());
        }
        match key.code {
            KeyCode::Tab => {
                self.switch_screen();
                return Ok(());
            },
            KeyCode::Escape => {
                self.current_screen = Screen::Main;
                return Ok(());
            },
            _ => {},
        }
        let input_event = InputEvent::Key(key);
        match self.current_screen {
            Screen::Main => {
                if self.main_menu.handle_input(input_event)? {
                    proof {
                        self.main_menu.lemma_selection_visible();
                    }
                    if let Some(selected) = self.main_menu.get_selected() {
                        if selected == 0 {
                            self.current_screen = Screen::Privacy;
                        } else if selected == 1 {
                            self.current_screen = Screen::Network;
                        } else if selected == 2 {
                            self.current_screen = Screen::SystemInfo;
                        }
                    }
                }
            },
            Screen::Privacy => {
                self.privacy_menu.handle_input(input_event)?;
            },
            Screen::Network => {
                self.network_menu.handle_input(input_event)?;
            },
            Screen::SystemInfo => {
                let res = self.status_panel.handle_input(input_event);
                assert(panel_input(old(self).panel(), self.panel(), InputEvent::Key(key), res));
                res?;
            },
        }
        Ok(())
    }

    /// Moves to the next screen in the Tab order.
    pub fn switch_screen(&mut self)
        requires
            old(self).wf(),
        ensures
            final(self).wf(),
            final(self).screen() == next_screen(old(self).screen()),
            final(self).quitting() == old(self).quitting(),
            final(self).main_view() == old(self).main_view(),
            final(self).privacy() == old(self).privacy(),
            final(self).network() == old(self).network(),
            final(self).panel() == old(self).panel(),
    {
        self.current_screen = match self.current_screen {
            Screen::Main => Screen::Privacy,
            Screen::Privacy => Screen::Network,
            Screen::Network => Screen::SystemInfo,
            Screen::SystemInfo => Screen::Main,
        };
    }

    /// The next input event: there is no keyboard source yet, so it is a
    /// Down key without modifiers.
    pub fn get_input(&self) -> (r: Result<InputEvent, IronVeilError>)
        ensures
            r == Ok::<InputEvent, IronVeilError>(InputEvent::Key(KeyEvent {
                code: KeyCode::Down,
                modifiers: KeyModifiers { ctrl: false, alt: false, shift: false },
            })),
    {
        Ok(InputEvent::Key(KeyEvent {
            code: KeyCode::Down,
            modifiers: KeyModifiers { ctrl: false, alt: false, shift: false },
        }))
    }

    /// Copies the buffer to the screen; the screen writer takes nothing yet.
    fn draw_buffer(&self, buffer: &Buffer) -> (r: Result<(), IronVeilError>)
        ensures
            r is Ok,
    {
        Ok(())
    }

    /// Writes text at a position; the screen writer takes nothing yet.
    fn draw_text(&self, x: u16, y: u16, text: &str) -> (r: Result<(), IronVeilError>)
        ensures
            r is Ok,
    {
        Ok(())
    }
}

/// One piece of text to draw: where, what, and in which colours.
#[derive(Debug)]
pub struct TextDraw {
    pub x: u16,
    pub y: u16,
    pub text: String,
    pub fg: (u8, u8, u8),
    pub bg: (u8, u8, u8),
}

/// A draw as plain values.
pub open spec fn placed(d: TextDraw) -> (u16, u16, Seq<char>, (u8, u8, u8), (u8, u8, u8)) {
    (d.x, d.y, d.text@, d.fg, d.bg)
}

/// The draws of a list as plain values.
pub open spec fn placements(s: Seq<TextDraw>) -> Seq<(u16, u16, Seq<char>, (u8, u8, u8), (u8, u8, u8))> {
    s.map_values(|d: TextDraw| placed(d))
}

/// A screen coordinate plus an offset, modulo 2^16.
pub open spec fn add16(a: int, b: int) -> u16 {
    ((a + b) % 65536) as u16
}

/// A screen coordinate minus an offset, modulo 2^16.
pub open spec fn sub16(a: int, b: int) -> u16 {
    ((a - b) % 65536) as u16
}

/// Adds screen coordinates as `u16` arithmetic wraps.
pub fn wadd16(a: u16, b: u16) -> (r: u16)
    ensures
        r == add16(a as int, b as int),
{
    a.wrapping_add(b)
}

/// Subtracts screen coordinates as `u16` arithmetic wraps.
pub fn wsub16(a: u16, b: u16) -> (r: u16)
    ensures
        r == sub16(a as int, b as int),
{
    a.wrapping_sub(b)
}

/// The length of text in UTF-8 bytes, as `str::len` gives it.
pub open spec fn byte_len(t: Seq<char>) -> nat {
    (vstd::utf8::encode_utf8(t).len() as usize) as nat
}

/// Where text of `len` bytes starts when centred in `width` cells from
/// `x` (the length taken modulo 2^16); text as wide as the area or wider
/// starts at `x`.
pub open spec fn centered_x(x: u16, width: u16, len: nat) -> u16 {
    let l = len % 65536;
    if l < width {
        add16(x as int, (width - l) / 2)
    } else {
        x
    }
}

/// Where `text` starts when centred in `width` cells from `x`.
pub fn centered_start(x: u16, width: u16, text: &str) -> (r: u16)
    ensures
        r == centered_x(x, width, byte_len(text@)),
{
    let l = (text.len() % 65536) as u16;
    if l < width {
        wadd16(x, (width - l) / 2)
    } else {
        x
    }
}

/// Appends a draw of `text` at `(x, y)`.
pub fn push_draw(v: &mut Vec<TextDraw>, x: u16, y: u16, text: &str, fg: (u8, u8, u8), bg: (u8, u8, u8))
    ensures
        placements(final(v)@) == placements(old(v)@).push((x, y, text@, fg, bg)),
{
    v.push(TextDraw { x, y, text: string_of(text), fg, bg });
    assert(placements(v@) =~= placements(old(v)@).push((x, y, text@, fg, bg)));
}

/// Switching screens cycles through all four: four switches come back to
/// the screen one started from, and fewer do not.
pub proof fn law_screens_cycle(s: Screen)
    ensures
        next_screen(next_screen(next_screen(next_screen(s)))) == s,
        next_screen(s) != s,
        next_screen(next_screen(s)) != s,
        next_screen(next_screen(next_screen(s))) != s,
{
}

} // verus!
