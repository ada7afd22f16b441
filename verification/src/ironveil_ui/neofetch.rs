//! System information display in the style of neofetch.
pub mod system_info;

use vstd::prelude::*;

verus! {

/// Kinds of information the display can show.
#[derive(Debug, Clone, Copy, PartialEq, Eq, Structural)]
pub enum InfoCategory {
    OS,
    Kernel,
    Uptime,
    Memory,
    CPU,
    Hardware,
    Network,
    Security,
}

/// What the display shows.
#[derive(Debug, Clone, Copy)]
pub struct DisplayOptions {
    pub show_logo: bool,
    pub show_colors: bool,
    pub categories: &'static [InfoCategory],
    pub compact_mode: bool,
}

impl Default for DisplayOptions {
    fn default() -> (r: Self)
        ensures
            r.show_logo,
            r.show_colors,
            !r.compact_mode,
            r.categories@ == seq![InfoCategory::OS, InfoCategory::Kernel, InfoCategory::Uptime,
                InfoCategory::Memory, InfoCategory::CPU, InfoCategory::Hardware, InfoCategory::Security],
    {
        let categories: &'static [InfoCategory] = &[
            InfoCategory::OS,
            InfoCategory::Kernel,
            InfoCategory::Uptime,
            InfoCategory::Memory,
            InfoCategory::CPU,
            InfoCategory::Hardware,
            InfoCategory::Security,
        ];
        DisplayOptions { show_logo: true, show_colors: true, categories, compact_mode: false }
    }
}

} // verus!
