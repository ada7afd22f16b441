//! Colour themes of the text interface.
use vstd::prelude::*;
use crate::text::str_eq;

verus! {

/// An RGB colour.
pub type Rgb = (u8, u8, u8);

/// Rust orange.
pub const RUST_ORANGE: (u8, u8, u8) = (206, 66, 43);
/// A darker rust shade.
pub const RUST_BROWN: (u8, u8, u8) = (140, 48, 36);
/// Iron grey.
pub const IRON_GRAY: (u8, u8, u8) = (45, 45, 45);
/// White.
pub const BRIGHT_WHITE: (u8, u8, u8) = (255, 255, 255);
/// Dark background grey.
pub const DARK_GRAY: (u8, u8, u8) = (24, 24, 24);
/// Success green.
pub const SUCCESS_GREEN: (u8, u8, u8) = (40, 167, 69);
/// Warning yellow.
pub const WARNING_YELLOW: (u8, u8, u8) = (255, 193, 7);
/// Error red.
pub const ERROR_RED: (u8, u8, u8) = (220, 53, 69);
/// Accent blue.
pub const ACCENT_BLUE: (u8, u8, u8) = (52, 144, 220);
/// Muted grey.
pub const MUTED_GRAY: (u8, u8, u8) = (108, 117, 125);

/// The colours of a theme.
#[derive(Debug, Clone, Copy, PartialEq, Eq)]
pub struct Theme {
    pub primary: (u8, u8, u8),
    pub secondary: (u8, u8, u8),
    pub background: (u8, u8, u8),
    pub text: (u8, u8, u8),
    pub accent: (u8, u8, u8),
    pub success: (u8, u8, u8),
    pub warning: (u8, u8, u8),
    pub error: (u8, u8, u8),
    pub muted: (u8, u8, u8),
}

/// The dark Rust theme.
pub open spec fn rust_theme_spec() -> Theme {
    Theme { primary: RUST_ORANGE, secondary: RUST_BROWN, background: DARK_GRAY, text: BRIGHT_WHITE,
        accent: IRON_GRAY, success: SUCCESS_GREEN, warning: WARNING_YELLOW, error: ERROR_RED, muted: MUTED_GRAY }
}

/// The light Rust theme.
pub open spec fn rust_light_theme_spec() -> Theme {
    Theme { primary: RUST_ORANGE, secondary: RUST_BROWN, background: BRIGHT_WHITE, text: DARK_GRAY,
        accent: IRON_GRAY, success: SUCCESS_GREEN, warning: WARNING_YELLOW, error: ERROR_RED, muted: MUTED_GRAY }
}

/// The high-contrast theme.
pub open spec fn high_contrast_theme_spec() -> Theme {
    Theme { primary: BRIGHT_WHITE, secondary: MUTED_GRAY, background: (0u8, 0u8, 0u8), text: BRIGHT_WHITE,
        accent: RUST_ORANGE, success: SUCCESS_GREEN, warning: WARNING_YELLOW, error: ERROR_RED, muted: MUTED_GRAY }
}

/// The dark Rust theme.
pub fn rust_theme() -> (r: Theme)
    ensures
        r == rust_theme_spec(),
{
    Theme { primary: RUST_ORANGE, secondary: RUST_BROWN, background: DARK_GRAY, text: BRIGHT_WHITE,
        accent: IRON_GRAY, success: SUCCESS_GREEN, warning: WARNING_YELLOW, error: ERROR_RED, muted: MUTED_GRAY }
}

/// The light Rust theme.
pub fn rust_light_theme() -> (r: Theme)
    ensures
        r == rust_light_theme_spec(),
{
    Theme { primary: RUST_ORANGE, secondary: RUST_BROWN, background: BRIGHT_WHITE, text: DARK_GRAY,
        accent: IRON_GRAY, success: SUCCESS_GREEN, warning: WARNING_YELLOW, error: ERROR_RED, muted: MUTED_GRAY }
}

/// The high-contrast theme.
pub fn high_contrast_theme() -> (r: Theme)
    ensures
        r == high_contrast_theme_spec(),
{
    Theme { primary: BRIGHT_WHITE, secondary: MUTED_GRAY, background: (0, 0, 0), text: BRIGHT_WHITE,
        accent: RUST_ORANGE, success: SUCCESS_GREEN, warning: WARNING_YELLOW, error: ERROR_RED, muted: MUTED_GRAY }
}

/// Foreground, background and text attributes.
#[derive(Debug, Clone, Copy, PartialEq, Eq)]
pub struct Style {
    pub fg: (u8, u8, u8),
    pub bg: (u8, u8, u8),
    pub bold: bool,
    pub italic: bool,
    pub underline: bool,
}

/// A plain style.
pub open spec fn plain(fg: Rgb, bg: Rgb) -> Style {
    Style { fg, bg, bold: false, italic: false, underline: false }
}

impl Style {
    /// A plain style with the given colours.
    pub fn new(fg: (u8, u8, u8), bg: (u8, u8, u8)) -> (r: Self)
        ensures
            r == plain(fg, bg),
    {
        Style { fg, bg, bold: false, italic: false, underline: false }
    }

    /// The style in bold.
    pub fn bold(self) -> (r: Self)
        ensures
            r == (Style { bold: true, ..self }),
    {
        let mut s = self;
        s.bold = true;
        s
    }

    /// The style in italics.
    pub fn italic(self) -> (r: Self)
        ensures
            r == (Style { italic: true, ..self }),
    {
        let mut s = self;
        s.italic = true;
        s
    }

    /// The style underlined.
    pub fn underline(self) -> (r: Self)
        ensures
            r == (Style { underline: true, ..self }),
    {
        let mut s = self;
        s.underline = true;
        s
    }
}

/// The styles a theme gives the interface's elements.
#[derive(Debug, Clone, Copy, PartialEq, Eq)]
pub struct ThemeStyles {
    pub normal: Style,
    pub selected: Style,
    pub disabled: Style,
    pub error: Style,
    pub warning: Style,
    pub success: Style,
    pub header: Style,
    pub border: Style,
    pub accent: Style,
}

/// The element styles of a theme.
pub fn theme_styles(theme: &Theme) -> (r: ThemeStyles)
    ensures
        r.normal == plain(theme.text, theme.background),
        r.selected == (Style { bold: true, ..plain(theme.background, theme.primary) }),
        r.disabled == plain(theme.muted, theme.background),
        r.error == (Style { bold: true, ..plain(theme.error, theme.background) }),
        r.warning == plain(theme.warning, theme.background),
        r.success == plain(theme.success, theme.background),
        r.header == (Style { bold: true, ..plain(theme.text, theme.primary) }),
        r.border == plain(theme.accent, theme.background),
        r.accent == plain(theme.accent, theme.background),
{
    ThemeStyles {
        normal: Style::new(theme.text, theme.background),
        selected: Style::new(theme.background, theme.primary).bold(),
        disabled: Style::new(theme.muted, theme.background),
        error: Style::new(theme.error, theme.background).bold(),
        warning: Style::new(theme.warning, theme.background),
        success: Style::new(theme.success, theme.background),
        header: Style::new(theme.text, theme.primary).bold(),
        border: Style::new(theme.accent, theme.background),
        accent: Style::new(theme.accent, theme.background),
    }
}

/// The named themes, in order.
pub open spec fn theme_list() -> Seq<Theme> {
    seq![rust_theme_spec(), rust_light_theme_spec(), high_contrast_theme_spec()]
}

/// The themes' names, in order.
pub open spec fn theme_names() -> Seq<Seq<char>> {
    seq!["Rust Dark"@, "Rust Light"@, "High Contrast"@]
}

/// The position of theme `t` in the list, if it is one of the named themes.
pub open spec fn theme_index(t: Theme) -> Option<int> {
    if theme_list()[0] == t {
        Some(0)
    } else if theme_list()[1] == t {
        Some(1)
    } else if theme_list()[2] == t {
        Some(2)
    } else {
        None
    }
}

/// Two colours are the same.
fn same_rgb(a: (u8, u8, u8), b: (u8, u8, u8)) -> (r: bool)
    ensures
        r == (a == b),
{
    a.0 == b.0 && a.1 == b.1 && a.2 == b.2
}

/// Two themes have the same colours throughout.
fn same_theme(a: &Theme, b: &Theme) -> (r: bool)
    ensures
        r == (*a == *b),
{
    same_rgb(a.primary, b.primary) && same_rgb(a.secondary, b.secondary) && same_rgb(a.background,
        b.background) && same_rgb(a.text, b.text) && same_rgb(a.accent, b.accent) && same_rgb(a.success,
        b.success) && same_rgb(a.warning, b.warning) && same_rgb(a.error, b.error) && same_rgb(a.muted,
        b.muted)
}

/// The current theme and the named themes.
pub struct ThemeManager {
    pub current_theme: Theme,
    pub available_themes: Vec<(&'static str, Theme)>,
}

impl ThemeManager {
    /// The table of named themes is intact.
    pub open spec fn wf(&self) -> bool {
        &&& self.available_themes@.len() == 3
        &&& forall|i: int| 0 <= i < 3 ==> (#[trigger] self.available_themes@[i]).1 == theme_list()[i]
            && self.available_themes@[i].0@ == theme_names()[i]
    }

    /// The dark Rust theme is current.
    pub fn new() -> (r: Self)
        ensures
            r.wf(),
            r.current_theme == rust_theme_spec(),
    {
        let mut v: Vec<(&'static str, Theme)> = Vec::new();
        v.push(("Rust Dark", rust_theme()));
        v.push(("Rust Light", rust_light_theme()));
        v.push(("High Contrast", high_contrast_theme()));
        ThemeManager { current_theme: rust_theme(), available_themes: v }
    }

    /// The current theme.
    pub fn get_current_theme(&self) -> (r: &Theme)
        ensures
            *r == self.current_theme,
    {
        &self.current_theme
    }

    /// Makes the theme called `name` current, if there is one.
    pub fn set_theme_by_name(&mut self, name: &str) -> (r: bool)
        requires
            old(self).wf(),
        ensures
            final(self).wf(),
            r == theme_names().contains(name@),
            r ==> exists|i: int| 0 <= i < 3 && theme_names()[i] == name@ && final(self).current_theme == theme_list()[i],
            !r ==> final(self).current_theme == old(self).current_theme,
    {
        let mut i: usize = 0;
        while i < self.available_themes.len()
            invariant
                self.wf(),
                *self == *old(self),
                i <= 3,
                forall|k: int| 0 <= k < i ==> theme_names()[k] != name@,
            decreases 3 - i,
        {
            let (tn, th) = self.available_themes[i];
            if str_eq(tn, name) {
                self.current_theme = th;
                assert(theme_names()[i as int] == name@);
                return true;
            }
            i = i + 1;
        }
        proof {
            if theme_names().contains(name@) {
                let k = choose|k: int| 0 <= k < theme_names().len() && theme_names()[k] == name@;
                assert(false);
            }
        }
        false
    }

    /// The named themes.
    pub fn get_available_themes(&self) -> (r: &Vec<(&'static str, Theme)>)
        ensures
            r@ == self.available_themes@,
    {
        &self.available_themes
    }

    /// Moves to the next named theme, after the last back to the first;
    /// nothing changes when the current theme is not one of them.
    pub fn cycle_theme(&mut self)
        requires
            old(self).wf(),
        ensures
            final(self).wf(),
            final(self).current_theme == (match theme_index(old(self).current_theme) {
                Some(i) => theme_list()[(i + 1) % 3],
                None => old(self).current_theme,
            }),
    {
        let mut i: usize = 0;
        let n = self.available_themes.len();
        while i < n
            invariant
                self.wf(),
                *self == *old(self),
                n == 3,
                i <= 3,
                forall|k: int| 0 <= k < i ==> theme_list()[k] != self.current_theme,
            decreases 3 - i,
        {
            let th = self.available_themes[i].1;
            if same_theme(&th, &self.current_theme) {
                let next_index = (i + 1) % n;
                self.current_theme = self.available_themes[next_index].1;
                return;
            }
            i = i + 1;
        }
    }
}

} // verus!
