//! System information: what is collected, and how it is laid out beside
//! the logo.
use vstd::prelude::*;
use crate::ironveil_ui::cli::colors;
use crate::ironveil_ui::neofetch::DisplayOptions;
use crate::nexis_kernel::drivers::vga::{Console, lemma_text_lines_append, print_lines, text_lines, vprintln_impl};
use crate::nexis_kernel::memory::FRAME_SIZE;
use crate::text::{concat_views, lemma_concat_single, dec, dec2, join_strs, push_char, push_dec, push_dec2, push_line, push_repeat, push_str, repeat, views};

verus! {

/// Memory figures in kilobytes and frames.
#[derive(Debug, Clone, Copy, PartialEq, Eq, Structural)]
pub struct MemoryInfo {
    pub total_kb: usize,
    pub used_kb: usize,
    pub free_kb: usize,
    pub total_frames: usize,
    pub used_frames: usize,
    pub free_frames: usize,
}

/// The processor.
#[derive(Debug, Clone, Copy)]
pub struct HardwareInfo {
    pub cpu_vendor: &'static str,
    pub cpu_model: &'static str,
    pub cpu_cores: u8,
    pub cpu_architecture: &'static str,
}

/// Everything the display shows.
#[derive(Debug, Clone, Copy)]
pub struct SystemInfo {
    pub os_name: &'static str,
    pub os_version: &'static str,
    pub kernel_name: &'static str,
    pub kernel_version: &'static str,
    pub architecture: &'static str,
    pub hostname: &'static str,
    pub username: &'static str,
    pub uptime_seconds: u64,
    pub memory: MemoryInfo,
    pub hardware: HardwareInfo,
}

/// Frame counts that can be reported: no more free than total, and the
/// total's bytes fit in a machine word.
pub open spec fn frames_ok(total_frames: usize, free_frames: usize) -> bool {
    free_frames <= total_frames && total_frames * FRAME_SIZE <= usize::MAX
}

/// The memory figures for a frame count.
pub open spec fn memory_of(total_frames: usize, free_frames: usize) -> MemoryInfo {
    let used = (total_frames - free_frames) as usize;
    MemoryInfo {
        total_kb: (total_frames * FRAME_SIZE / 1024) as usize,
        used_kb: (used * FRAME_SIZE / 1024) as usize,
        free_kb: (free_frames * FRAME_SIZE / 1024) as usize,
        total_frames,
        used_frames: used,
        free_frames,
    }
}

/// Used memory in percent of the total, cut to a byte (0 with no total).
pub open spec fn percent_used(m: MemoryInfo) -> u8 {
    if m.total_kb == 0 {
        0
    } else {
        ((m.used_kb * 100) / (m.total_kb as int)) as u8
    }
}

/// The percentage can be computed without overflow.
pub open spec fn percent_computable(m: MemoryInfo) -> bool {
    m.used_kb * 100 <= usize::MAX
}

impl MemoryInfo {
    /// The figures for `total_frames` frames of which `free_frames` are free.
    pub fn collect(total_frames: usize, free_frames: usize) -> (r: Self)
        requires
            frames_ok(total_frames, free_frames),
        ensures
            r == memory_of(total_frames, free_frames),
    {
        let used_frames = total_frames - free_frames;
        proof {
            vstd::arithmetic::mul::lemma_mul_inequality(used_frames as int, total_frames as int, FRAME_SIZE as int);
            vstd::arithmetic::mul::lemma_mul_inequality(free_frames as int, total_frames as int, FRAME_SIZE as int);
        }
        let total_kb = (total_frames * FRAME_SIZE) / 1024;
        let used_kb = (used_frames * FRAME_SIZE) / 1024;
        let free_kb = (free_frames * FRAME_SIZE) / 1024;
        MemoryInfo { total_kb, used_kb, free_kb, total_frames, used_frames, free_frames }
    }

    /// Used memory in percent of the total.
    pub fn usage_percent(&self) -> (r: u8)
        requires
            percent_computable(*self),
        ensures
            r == percent_used(*self),
    {
        if self.total_kb == 0 {
            0
        } else {
            ((self.used_kb * 100) / self.total_kb) as u8
        }
    }
}

/// The processor the system reports.
pub open spec fn detected_hardware() -> HardwareInfo {
    HardwareInfo { cpu_vendor: "Unknown", cpu_model: "IronVeil Virtual CPU", cpu_cores: 1, cpu_architecture: "x86_64" }
}

impl HardwareInfo {
    /// The processor: an IronVeil virtual CPU, one core.
    pub fn detect() -> (r: Self)
        ensures
            r == detected_hardware(),
    {
        HardwareInfo { cpu_vendor: "Unknown", cpu_model: "IronVeil Virtual CPU", cpu_cores: 1, cpu_architecture: "x86_64" }
    }
}

/// The system's figures: timer ticks at 50 Hz give the uptime.
pub open spec fn collected(ticks: u64, total_frames: usize, free_frames: usize) -> SystemInfo {
    SystemInfo {
        os_name: "IronVeil OS",
        os_version: "0.1.0-alpha",
        kernel_name: "Nexis",
        kernel_version: "0.1.0",
        architecture: "x86_64",
        hostname: "ironveil",
        username: "root",
        uptime_seconds: ticks / 50,
        memory: memory_of(total_frames, free_frames),
        hardware: detected_hardware(),
    }
}

/// Figures collected from valid frame counts give a real percentage.
pub proof fn lemma_collected_info_ok(total_frames: usize, free_frames: usize)
    requires
        frames_ok(total_frames, free_frames),
    ensures
        percent_computable(memory_of(total_frames, free_frames)),
        percent_used(memory_of(total_frames, free_frames)) <= 100,
{
    let m = memory_of(total_frames, free_frames);
    let used = total_frames - free_frames;
    assert(m.used_kb == used * 4);
    assert(m.total_kb == total_frames * 4);
    assert(m.used_kb <= m.total_kb);
    if m.total_kb > 0 {
        let u = m.used_kb as int;
        let t = m.total_kb as int;
        assert((u * 100) / t <= 100) by (nonlinear_arith)
            requires
                0 <= u <= t,
                t > 0,
        {
            assert(u * 100 <= t * 100);
        }
    }
}

impl SystemInfo {
    /// The system's figures: timer ticks at 50 Hz give the uptime.
    pub fn collect(ticks: u64, total_frames: usize, free_frames: usize) -> (r: Self)
        requires
            frames_ok(total_frames, free_frames),
        ensures
            r == collected(ticks, total_frames, free_frames),
    {
        let memory = MemoryInfo::collect(total_frames, free_frames);
        let hardware = HardwareInfo::detect();
        SystemInfo {
            os_name: "IronVeil OS",
            os_version: "0.1.0-alpha",
            kernel_name: "Nexis",
            kernel_version: "0.1.0",
            architecture: "x86_64",
            hostname: "ironveil",
            username: "root",
            uptime_seconds: ticks / 50,
            memory,
            hardware,
        }
    }
}

/// Seconds as `D days, H:MM:SS`, `H:MM:SS`, `M:SS` or `S seconds`.
pub open spec fn uptime_words(seconds: nat) -> Seq<char> {
    let days = seconds / 86400;
    let hours = (seconds % 86400) / 3600;
    let minutes = (seconds % 3600) / 60;
    let secs = seconds % 60;
    if days > 0 {
        dec(days) + " days, "@ + dec(hours) + seq![':'] + dec2(minutes) + seq![':'] + dec2(secs)
    } else if hours > 0 {
        dec(hours) + seq![':'] + dec2(minutes) + seq![':'] + dec2(secs)
    } else if minutes > 0 {
        dec(minutes) + seq![':'] + dec2(secs)
    } else {
        dec(secs) + " seconds"@
    }
}

/// The uptime words split the seconds into days, hours under 24, minutes
/// under 60 and seconds under 60, and show them from the largest part that
/// is not zero.
pub proof fn law_uptime_words_parts(seconds: nat)
    ensures
        exists|d: nat, h: nat, m: nat, s: nat|
            #![trigger dec(d), dec(h), dec(m), dec(s)]
            h < 24 && m < 60 && s < 60 && d * 86400 + h * 3600 + m * 60 + s == seconds && (if d > 0 {
                uptime_words(seconds) == dec(d) + " days, "@ + dec(h) + seq![':'] + dec2(m) + seq![':'] + dec2(s)
            } else if h > 0 {
                uptime_words(seconds) == dec(h) + seq![':'] + dec2(m) + seq![':'] + dec2(s)
            } else if m > 0 {
                uptime_words(seconds) == dec(m) + seq![':'] + dec2(s)
            } else {
                uptime_words(seconds) == dec(s) + " seconds"@
            }),
{
    let d = seconds / 86400;
    let h = (seconds % 86400) / 3600;
    let m = (seconds % 3600) / 60;
    let s = seconds % 60;
    assert(seconds % 86400 == h * 3600 + seconds % 3600) by {
        vstd::arithmetic::div_mod::lemma_mod_mod(seconds as int, 3600, 24);
        vstd::arithmetic::div_mod::lemma_fundamental_div_mod((seconds % 86400) as int, 3600);
    }
    assert(seconds % 3600 == m * 60 + s) by {
        vstd::arithmetic::div_mod::lemma_mod_mod(seconds as int, 60, 60);
        vstd::arithmetic::div_mod::lemma_fundamental_div_mod((seconds % 3600) as int, 60);
    }
    assert(h < 24);
    vstd::arithmetic::div_mod::lemma_fundamental_div_mod(seconds as int, 86400);
    assert(d * 86400 + h * 3600 + m * 60 + s == seconds);
    assert(if d > 0 {
        uptime_words(seconds) == dec(d) + " days, "@ + dec(h) + seq![':'] + dec2(m) + seq![':'] + dec2(s)
    } else if h > 0 {
        uptime_words(seconds) == dec(h) + seq![':'] + dec2(m) + seq![':'] + dec2(s)
    } else if m > 0 {
        uptime_words(seconds) == dec(m) + seq![':'] + dec2(s)
    } else {
        uptime_words(seconds) == dec(s) + " seconds"@
    });
    assert(dec(d) == dec(d) && dec(h) == dec(h) && dec(m) == dec(m) && dec(s) == dec(s));
}

/// Seconds in words.
pub fn format_uptime(seconds: u64) -> (r: String)
    ensures
        r@ == uptime_words(seconds as nat),
{
    let days = seconds / 86400;
    let hours = (seconds % 86400) / 3600;
    let minutes = (seconds % 3600) / 60;
    let secs = seconds % 60;
    let mut s = String::new();
    if days > 0 {
        push_dec(&mut s, days);
        push_str(&mut s, " days, ");
        push_dec(&mut s, hours);
        push_char(&mut s, ':');
        push_dec2(&mut s, minutes);
        push_char(&mut s, ':');
        push_dec2(&mut s, secs);
    } else if hours > 0 {
        push_dec(&mut s, hours);
        push_char(&mut s, ':');
        push_dec2(&mut s, minutes);
        push_char(&mut s, ':');
        push_dec2(&mut s, secs);
    } else if minutes > 0 {
        push_dec(&mut s, minutes);
        push_char(&mut s, ':');
        push_dec2(&mut s, secs);
    } else {
        push_dec(&mut s, secs);
        push_str(&mut s, " seconds");
    }
    assert(s@ =~= uptime_words(seconds as nat));
    s
}

/// The usage bar: twenty cells, one filled per 5 %, then the percentage;
/// red above 80 %, yellow above 60 %, green otherwise.
pub open spec fn memory_bar(pct: nat) -> Seq<char> {
    let filled = pct * 20 / 100;
    let bar = seq!['['] + repeat('█', filled) + repeat('░', (20 - filled) as nat) + seq![']', ' '] + dec(pct)
        + seq!['%'];
    let color = if pct > 80 { colors::ERROR@ } else if pct > 60 { colors::WARNING@ } else { colors::SUCCESS@ };
    color + bar + colors::RESET@
}

/// The usage bar of the memory figures.
pub fn format_memory_bar(memory: &MemoryInfo) -> (r: String)
    requires
        percent_computable(*memory),
        percent_used(*memory) <= 100,
    ensures
        r@ == memory_bar(percent_used(*memory) as nat),
{
    let usage_percent = memory.usage_percent();
    let bar_width: usize = 20;
    let filled = (usage_percent as usize * bar_width) / 100;
    let empty = bar_width - filled;
    let mut bar = String::new();
    push_char(&mut bar, '[');
    push_repeat(&mut bar, '█', filled);
    push_repeat(&mut bar, '░', empty);
    push_char(&mut bar, ']');
    push_char(&mut bar, ' ');
    push_dec(&mut bar, usage_percent as u64);
    push_char(&mut bar, '%');
    let color = if usage_percent > 80 {
        colors::ERROR
    } else if usage_percent > 60 {
        colors::WARNING
    } else {
        colors::SUCCESS
    };
    let mut s = String::new();
    push_str(&mut s, color);
    push_str(&mut s, bar.as_str());
    push_str(&mut s, colors::RESET);
    assert(s@ =~= memory_bar(usage_percent as nat));
    s
}

/// The logo, twelve lines.
pub open spec fn logo_lines() -> Seq<&'static str> {
    seq![
        "      ██╗██████╗  ██████╗ ███╗   ██╗",
        "      ██║██╔══██╗██╔═══██╗████╗  ██║",
        "      ██║██████╔╝██║   ██║██╔██╗ ██║",
        "      ██║██╔══██╗██║   ██║██║╚██╗██║",
        "      ██║██║  ██║╚██████╔╝██║ ╚████║",
        "      ╚═╝╚═╝  ╚═╝ ╚═════╝ ╚═╝  ╚═══╝",
        "",
        "  ██╗   ██╗███████╗██╗██╗     ",
        "  ██║   ██║██╔════╝██║██║     ",
        "  ██║   ██║█████╗  ██║██║     ",
        "  ╚██╗ ██╔╝██╔══╝  ██║██║     ",
        "   ╚████╔╝ ███████╗██║███████╗",
    ]
}

/// The logo's lines.
pub fn get_ascii_logo() -> (r: [&'static str; 12])
    ensures
        r@ == logo_lines(),
{
    let r = [
        "      ██╗██████╗  ██████╗ ███╗   ██╗",
        "      ██║██╔══██╗██╔═══██╗████╗  ██║",
        "      ██║██████╔╝██║   ██║██╔██╗ ██║",
        "      ██║██╔══██╗██║   ██║██║╚██╗██║",
        "      ██║██║  ██║╚██████╔╝██║ ╚████║",
        "      ╚═╝╚═╝  ╚═╝ ╚═════╝ ╚═╝  ╚═══╝",
        "",
        "  ██╗   ██╗███████╗██╗██╗     ",
        "  ██║   ██║██╔════╝██║██║     ",
        "  ██║   ██║█████╗  ██║██║     ",
        "  ╚██╗ ██╔╝██╔══╝  ██║██║     ",
        "   ╚████╔╝ ███████╗██║███████╗",
    ];
    assert(r@ =~= logo_lines());
    r
}

/// A labelled line: the label in bold primary colour, then the text.
pub open spec fn labelled(label: &str, text: Seq<char>) -> Seq<char> {
    colors::PRIMARY@ + colors::BOLD@ + label@ + colors::RESET@ + text
}

/// A labelled line.
fn labelled_line(label: &str, text: &str) -> (r: String)
    ensures
        r@ == labelled(label, text@),
{
    let mut s = String::new();
    push_str(&mut s, colors::PRIMARY);
    push_str(&mut s, colors::BOLD);
    push_str(&mut s, label);
    push_str(&mut s, colors::RESET);
    push_str(&mut s, text);
    assert(s@ =~= labelled(label, text@));
    s
}

/// The fifteen information lines.
pub open spec fn info_lines(info: SystemInfo) -> Seq<Seq<char>> {
    seq![
        labelled("OS:", " "@ + info.os_name@),
        labelled("Host:", " "@ + info.hostname@),
        labelled("Kernel:", " "@ + info.kernel_name@ + " "@ + info.kernel_version@),
        labelled("Uptime:", " "@ + uptime_words(info.uptime_seconds as nat)),
        labelled("Shell:", " IronShell"@),
        labelled("Terminal:", " VGA Text Mode"@),
        labelled("CPU:", " "@ + info.hardware.cpu_model@ + " ("@ + dec(info.hardware.cpu_cores as nat) + ")"@),
        labelled("Memory:", " "@ + dec(info.memory.used_kb as nat) + " / "@ + dec(info.memory.total_kb as nat)
            + " KB "@ + memory_bar(percent_used(info.memory) as nat)),
        labelled("Architecture:", " "@ + info.architecture@),
        labelled("Security:", " Privacy Mode Active"@),
        labelled("Network:", " MAC Randomized"@),
        labelled("Storage:", " Live Mode (No Persistence)"@),
        Seq::<char>::empty(),
        concat_views(seq![colors::SECONDARY, colors::BOLD, "Privacy Features:", colors::RESET]),
        "  • Network traffic routing • MAC spoofing • Secure memory"@,
    ]
}

/// The information shown can be computed: the usage is a real percentage.
pub open spec fn info_ok(info: SystemInfo) -> bool {
    percent_computable(info.memory) && percent_used(info.memory) <= 100
}

/// Text followed by another piece.
fn cat2(a: &str, b: &str) -> (r: String)
    ensures
        r@ == a@ + b@,
{
    let mut s = String::new();
    push_str(&mut s, a);
    push_str(&mut s, b);
    assert(s@ =~= a@ + b@);
    s
}

/// The information lines of `info`.
pub fn format_system_info(info: &SystemInfo) -> (r: Vec<String>)
    requires
        info_ok(*info),
    ensures
        views(r@) == info_lines(*info),
{
    let uptime_str = format_uptime(info.uptime_seconds);
    let memory_bar = format_memory_bar(&info.memory);
    let mut v: Vec<String> = Vec::new();
    let t = cat2(" ", info.os_name);
    push_line(&mut v, labelled_line("OS:", t.as_str()));
    let t = cat2(" ", info.hostname);
    push_line(&mut v, labelled_line("Host:", t.as_str()));
    let mut t = cat2(" ", info.kernel_name);
    push_str(&mut t, " ");
    push_str(&mut t, info.kernel_version);
    push_line(&mut v, labelled_line("Kernel:", t.as_str()));
    let t = cat2(" ", uptime_str.as_str());
    push_line(&mut v, labelled_line("Uptime:", t.as_str()));
    push_line(&mut v, labelled_line("Shell:", " IronShell"));
    push_line(&mut v, labelled_line("Terminal:", " VGA Text Mode"));
    let mut t = cat2(" ", info.hardware.cpu_model);
    push_str(&mut t, " (");
    push_dec(&mut t, info.hardware.cpu_cores as u64);
    push_str(&mut t, ")");
    push_line(&mut v, labelled_line("CPU:", t.as_str()));
    let mut t = String::new();
    push_str(&mut t, " ");
    push_dec(&mut t, info.memory.used_kb as u64);
    push_str(&mut t, " / ");
    push_dec(&mut t, info.memory.total_kb as u64);
    push_str(&mut t, " KB ");
    push_str(&mut t, memory_bar.as_str());
    push_line(&mut v, labelled_line("Memory:", t.as_str()));
    let t = cat2(" ", info.architecture);
    push_line(&mut v, labelled_line("Architecture:", t.as_str()));
    push_line(&mut v, labelled_line("Security:", " Privacy Mode Active"));
    push_line(&mut v, labelled_line("Network:", " MAC Randomized"));
    push_line(&mut v, labelled_line("Storage:", " Live Mode (No Persistence)"));
    push_line(&mut v, String::new());
    push_line(&mut v, join_strs(&[colors::SECONDARY, colors::BOLD, "Privacy Features:", colors::RESET]));
    push_line(&mut v, String::from_str("  • Network traffic routing • MAC spoofing • Secure memory"));
    assert(views(v@) =~= info_lines(*info));
    v
}

/// Thirty spaces: the logo's width.
pub open spec fn logo_pad() -> Seq<char> {
    repeat(' ', 30)
}

/// The lines of the logo beside the information.
pub open spec fn logo_and_info_lines(info: SystemInfo) -> Seq<Seq<char>> {
    Seq::new(15, |i: int| (if i < 12 { logo_lines()[i]@ } else { logo_pad() }) + "  "@ + info_lines(info)[i])
}

/// Prints the logo with the information beside it.
pub fn display_logo_and_info(con: &mut Console, info: &SystemInfo)
    requires
        old(con).wf(),
        info_ok(*info),
    ensures
        final(con).wf(),
        final(con).serial@ == old(con).serial@ + text_lines(logo_and_info_lines(*info)),
{
    let logo = get_ascii_logo();
    let info_lines_v = format_system_info(info);
    assert(views(info_lines_v@).len() == info_lines_v@.len());
    let mut lines: Vec<String> = Vec::new();
    let mut i: usize = 0;
    while i < 15
        invariant
            i <= 15,
            logo@ == logo_lines(),
            info_lines_v@.len() == 15,
            views(info_lines_v@) == info_lines(*info),
            lines@.len() == i,
            forall|k: int| 0 <= k < i ==> #[trigger] lines@[k]@ == logo_and_info_lines(*info)[k],
        decreases 15 - i,
    {
        let mut l = String::new();
        if i < 12 {
            push_str(&mut l, logo[i]);
        } else {
            push_repeat(&mut l, ' ', 30);
        }
        push_str(&mut l, "  ");
        push_str(&mut l, info_lines_v[i].as_str());
        proof {
            assert(views(info_lines_v@)[i as int] == info_lines_v@[i as int]@);
            assert(l@ =~= logo_and_info_lines(*info)[i as int]);
        }
        lines.push(l);
        i = i + 1;
    }
    assert(views(lines@) =~= logo_and_info_lines(*info));
    print_lines(con, &lines);
}

/// The information lines, indented.
pub open spec fn indented_info_lines(info: SystemInfo) -> Seq<Seq<char>> {
    info_lines(info).map_values(|l: Seq<char>| "  "@ + l)
}

/// Prints the information without the logo.
pub fn display_info_only(con: &mut Console, info: &SystemInfo)
    requires
        old(con).wf(),
        info_ok(*info),
    ensures
        final(con).wf(),
        final(con).serial@ == old(con).serial@ + text_lines(indented_info_lines(*info)),
{
    let info_lines_v = format_system_info(info);
    assert(views(info_lines_v@).len() == info_lines_v@.len());
    let mut lines: Vec<String> = Vec::new();
    let mut i: usize = 0;
    while i < info_lines_v.len()
        invariant
            i <= info_lines_v@.len(),
            info_lines_v@.len() == 15,
            views(info_lines_v@) == info_lines(*info),
            lines@.len() == i,
            forall|k: int| 0 <= k < i ==> #[trigger] lines@[k]@ == indented_info_lines(*info)[k],
        decreases info_lines_v@.len() - i,
    {
        let l = cat2("  ", info_lines_v[i].as_str());
        proof {
            assert(views(info_lines_v@)[i as int] == info_lines_v@[i as int]@);
        }
        lines.push(l);
        i = i + 1;
    }
    assert(views(lines@) =~= indented_info_lines(*info));
    print_lines(con, &lines);
}

/// The colour palette lines.
pub open spec fn palette_lines() -> Seq<Seq<&'static str>> {
    seq![
        seq![""],
        seq![colors::PRIMARY, colors::BOLD, "Colors:", colors::RESET],
        seq!["  ", colors::PRIMARY, "███", colors::RESET, colors::SECONDARY, "███", colors::RESET, colors::SUCCESS,
            "███", colors::RESET, colors::WARNING, "███", colors::RESET, colors::ERROR, "███", colors::RESET,
            colors::ACCENT, "███", colors::RESET],
    ]
}

/// The pieces of each line, joined.
pub open spec fn joined_lines(lines: Seq<Seq<&str>>) -> Seq<Seq<char>> {
    lines.map_values(|l: Seq<&str>| concat_views(l))
}

/// Prints the colour palette.
pub fn display_color_palette(con: &mut Console)
    requires
        old(con).wf(),
    ensures
        final(con).wf(),
        final(con).serial@ == old(con).serial@ + text_lines(joined_lines(palette_lines())),
{
    let mut lines: Vec<String> = Vec::new();
    push_line(&mut lines, String::new());
    push_line(&mut lines, join_strs(&[colors::PRIMARY, colors::BOLD, "Colors:", colors::RESET]));
    push_line(&mut lines, join_strs(&["  ", colors::PRIMARY, "███", colors::RESET, colors::SECONDARY, "███", colors::RESET, colors::SUCCESS,
            "███", colors::RESET, colors::WARNING, "███", colors::RESET, colors::ERROR, "███", colors::RESET,
            colors::ACCENT, "███", colors::RESET]));
    proof {
        reveal_strlit("");
        lemma_concat_single("");
        let v = views(lines@);
        let w = joined_lines(palette_lines());
        assert(v[0] == w[0]);
        assert(v[1] == w[1]);
        assert(v[2] == w[2]);
    }
    assert(views(lines@) =~= joined_lines(palette_lines()));
    print_lines(con, &lines);
}

/// All the lines of the display, for the given options and figures.
pub open spec fn system_info_lines(show_logo: bool, show_colors: bool, info: SystemInfo) -> Seq<Seq<char>> {
    seq![Seq::<char>::empty()] + (if show_logo { logo_and_info_lines(info) } else {
        indented_info_lines(info) }) + (if show_colors { joined_lines(palette_lines()) } else {
        Seq::empty() }) + seq![Seq::<char>::empty()]
}

/// Prints the system information with the given options.
pub fn display_system_info_with_options(
    con: &mut Console,
    options: &DisplayOptions,
    ticks: u64,
    total_frames: usize,
    free_frames: usize,
)
    requires
        old(con).wf(),
        frames_ok(total_frames, free_frames),
    ensures
        final(con).wf(),
        final(con).serial@ == old(con).serial@ + text_lines(system_info_lines(options.show_logo, options.show_colors,
            collected(ticks, total_frames, free_frames))),
{
    let info = SystemInfo::collect(ticks, total_frames, free_frames);
    proof {
        lemma_collected_info_ok(total_frames, free_frames);
    }
    let ghost start = con.serial@;
    let empty: String = String::new();
    vprintln_impl(con, empty.as_str());
    let ghost a = con.serial@;
    if options.show_logo {
        display_logo_and_info(con, &info);
    } else {
        display_info_only(con, &info);
    }
    let ghost b = con.serial@;
    if options.show_colors {
        display_color_palette(con);
    }
    let ghost c = con.serial@;
    vprintln_impl(con, empty.as_str());
    proof {
        let body = if options.show_logo { logo_and_info_lines(info) } else { indented_info_lines(info) };
        let pal = if options.show_colors { joined_lines(palette_lines()) } else { Seq::<Seq<char>>::empty() };
        lemma_text_lines_append(seq![Seq::<char>::empty()], body);
        lemma_text_lines_append(seq![Seq::<char>::empty()] + body, pal);
        lemma_text_lines_append(seq![Seq::<char>::empty()] + body + pal, seq![Seq::<char>::empty()]);
        assert(text_lines(Seq::<Seq<char>>::empty()) =~= Seq::<char>::empty());
        assert(seq![Seq::<char>::empty()].drop_last() =~= Seq::<Seq<char>>::empty());
        assert(text_lines(seq![Seq::<char>::empty()]) =~= seq!['\n']);
        assert(con.serial@ =~= start + text_lines(system_info_lines(options.show_logo, options.show_colors, info)));
    }
}

/// Prints the system information with the default options.
pub fn display_system_info(con: &mut Console, ticks: u64, total_frames: usize, free_frames: usize)
    requires
        old(con).wf(),
        frames_ok(total_frames, free_frames),
    ensures
        final(con).wf(),
        final(con).serial@ == old(con).serial@ + text_lines(system_info_lines(true, true, collected(ticks, total_frames,
            free_frames))),
{
    let options = DisplayOptions::default();
    display_system_info_with_options(con, &options, ticks, total_frames, free_frames);
}

/// The logo in the primary colour.
pub open spec fn colored_logo_lines() -> Seq<Seq<char>> {
    logo_lines().map_values(|l: &str| colors::PRIMARY@ + l@ + colors::RESET@)
}

/// Prints the logo.
pub fn display_ascii_logo(con: &mut Console)
    requires
        old(con).wf(),
    ensures
        final(con).wf(),
        final(con).serial@ == old(con).serial@ + text_lines(colored_logo_lines()),
{
    let logo = get_ascii_logo();
    let mut lines: Vec<String> = Vec::new();
    let mut i: usize = 0;
    while i < 12
        invariant
            i <= 12,
            logo@ == logo_lines(),
            lines@.len() == i,
            forall|k: int| 0 <= k < i ==> #[trigger] lines@[k]@ == colored_logo_lines()[k],
        decreases 12 - i,
    {
        let mut l = String::new();
        push_str(&mut l, colors::PRIMARY);
        push_str(&mut l, logo[i]);
        push_str(&mut l, colors::RESET);
        assert(l@ =~= colored_logo_lines()[i as int]);
        lines.push(l);
        i = i + 1;
    }
    assert(views(lines@) =~= colored_logo_lines());
    print_lines(con, &lines);
}

/// The hardware lines.
pub open spec fn hardware_lines() -> Seq<Seq<char>> {
    seq![
        concat_views(seq![colors::PRIMARY, colors::BOLD, "Hardware Information:", colors::RESET]),
        "  CPU Vendor:     "@ + "Unknown"@,
        "  CPU Model:      "@ + "IronVeil Virtual CPU"@,
        "  CPU Cores:      "@ + dec(1),
        "  Architecture:   "@ + "x86_64"@,
        "  Instruction Set: x86_64"@,
        "  Endianness:     Little Endian"@,
    ]
}

/// Prints the hardware information.
pub fn display_hardware_info(con: &mut Console)
    requires
        old(con).wf(),
    ensures
        final(con).wf(),
        final(con).serial@ == old(con).serial@ + text_lines(hardware_lines()),
{
    let hardware = HardwareInfo::detect();
    let mut lines: Vec<String> = Vec::new();
    push_line(&mut lines, join_strs(&[colors::PRIMARY, colors::BOLD, "Hardware Information:", colors::RESET]));
    push_line(&mut lines, cat2("  CPU Vendor:     ", hardware.cpu_vendor));
    push_line(&mut lines, cat2("  CPU Model:      ", hardware.cpu_model));
    let mut l = String::from_str("  CPU Cores:      ");
    push_dec(&mut l, hardware.cpu_cores as u64);
    push_line(&mut lines, l);
    push_line(&mut lines, cat2("  Architecture:   ", hardware.cpu_architecture));
    push_line(&mut lines, String::from_str("  Instruction Set: x86_64"));
    push_line(&mut lines, String::from_str("  Endianness:     Little Endian"));
    assert(views(lines@) =~= hardware_lines());
    print_lines(con, &lines);
}

/// A figure in KB and MB.
pub open spec fn kb_mb(label: Seq<char>, kb: nat) -> Seq<char> {
    label + dec(kb) + " KB ("@ + dec(kb / 1024) + " MB)"@
}

/// The memory lines.
pub open spec fn memory_lines(m: MemoryInfo) -> Seq<Seq<char>> {
    seq![
        concat_views(seq![colors::PRIMARY, colors::BOLD, "Memory Information:", colors::RESET]),
        kb_mb("  Total Memory:   "@, m.total_kb as nat),
        kb_mb("  Used Memory:    "@, m.used_kb as nat),
        kb_mb("  Free Memory:    "@, m.free_kb as nat),
        "  Usage:          "@ + dec(percent_used(m) as nat) + "%"@,
        Seq::<char>::empty(),
        "  Frame Details:"@,
        "    Total Frames: "@ + dec(m.total_frames as nat),
        "    Used Frames:  "@ + dec(m.used_frames as nat),
        "    Free Frames:  "@ + dec(m.free_frames as nat),
        "    Frame Size:   "@ + dec(FRAME_SIZE as nat) + " bytes"@,
    ]
}

/// A figure in KB and MB.
fn kb_mb_line(label: &str, kb: usize) -> (r: String)
    ensures
        r@ == kb_mb(label@, kb as nat),
{
    let mut l = String::from_str(label);
    push_dec(&mut l, kb as u64);
    push_str(&mut l, " KB (");
    push_dec(&mut l, (kb / 1024) as u64);
    push_str(&mut l, " MB)");
    l
}

/// A label and a number.
fn num_line(label: &str, n: u64) -> (r: String)
    ensures
        r@ == label@ + dec(n as nat),
{
    let mut l = String::from_str(label);
    push_dec(&mut l, n);
    l
}

/// Prints the memory information for the frame counts.
pub fn display_memory_info(con: &mut Console, total_frames: usize, free_frames: usize)
    requires
        old(con).wf(),
        frames_ok(total_frames, free_frames),
    ensures
        final(con).wf(),
        final(con).serial@ == old(con).serial@ + text_lines(memory_lines(memory_of(total_frames, free_frames))),
{
    let memory = MemoryInfo::collect(total_frames, free_frames);
    proof {
        lemma_collected_info_ok(total_frames, free_frames);
    }
    let mut lines: Vec<String> = Vec::new();
    push_line(&mut lines, join_strs(&[colors::PRIMARY, colors::BOLD, "Memory Information:", colors::RESET]));
    push_line(&mut lines, kb_mb_line("  Total Memory:   ", memory.total_kb));
    push_line(&mut lines, kb_mb_line("  Used Memory:    ", memory.used_kb));
    push_line(&mut lines, kb_mb_line("  Free Memory:    ", memory.free_kb));
    let mut l = num_line("  Usage:          ", memory.usage_percent() as u64);
    push_str(&mut l, "%");
    push_line(&mut lines, l);
    push_line(&mut lines, String::new());
    push_line(&mut lines, String::from_str("  Frame Details:"));
    push_line(&mut lines, num_line("    Total Frames: ", memory.total_frames as u64));
    push_line(&mut lines, num_line("    Used Frames:  ", memory.used_frames as u64));
    push_line(&mut lines, num_line("    Free Frames:  ", memory.free_frames as u64));
    let mut l = num_line("    Frame Size:   ", FRAME_SIZE as u64);
    push_str(&mut l, " bytes");
    push_line(&mut lines, l);
    assert(views(lines@) =~= memory_lines(memory));
    print_lines(con, &lines);
}

/// The security status lines.
pub open spec fn security_lines() -> Seq<Seq<&'static str>> {
    seq![
        seq![colors::PRIMARY, colors::BOLD, "Security & Privacy Status:", colors::RESET],
        seq!["  ", colors::SUCCESS, colors::BOLD, "●", colors::RESET, " Live Mode Active (No Persistence)"],
        seq!["  ", colors::SUCCESS, colors::BOLD, "●", colors::RESET, " MAC Address Randomized"],
        seq!["  ", colors::WARNING, colors::BOLD, "○", colors::RESET, " Tor Integration (Planned)"],
        seq!["  ", colors::WARNING, colors::BOLD, "○", colors::RESET, " VPN Support (Planned)"],
        seq!["  ", colors::SUCCESS, colors::BOLD, "●", colors::RESET, " Secure Memory Allocation"],
        seq!["  ", colors::SUCCESS, colors::BOLD, "●", colors::RESET, " No Persistent Storage"],
    ]
}

/// Prints the security and privacy status.
pub fn display_security_status(con: &mut Console)
    requires
        old(con).wf(),
    ensures
        final(con).wf(),
        final(con).serial@ == old(con).serial@ + text_lines(joined_lines(security_lines())),
{
    let mut lines: Vec<String> = Vec::new();
    push_line(&mut lines, join_strs(&[colors::PRIMARY, colors::BOLD, "Security & Privacy Status:", colors::RESET]));
    push_line(&mut lines, join_strs(&["  ", colors::SUCCESS, colors::BOLD, "●", colors::RESET, " Live Mode Active (No Persistence)"]));
    push_line(&mut lines, join_strs(&["  ", colors::SUCCESS, colors::BOLD, "●", colors::RESET, " MAC Address Randomized"]));
    push_line(&mut lines, join_strs(&["  ", colors::WARNING, colors::BOLD, "○", colors::RESET, " Tor Integration (Planned)"]));
    push_line(&mut lines, join_strs(&["  ", colors::WARNING, colors::BOLD, "○", colors::RESET, " VPN Support (Planned)"]));
    push_line(&mut lines, join_strs(&["  ", colors::SUCCESS, colors::BOLD, "●", colors::RESET, " Secure Memory Allocation"]));
    push_line(&mut lines, join_strs(&["  ", colors::SUCCESS, colors::BOLD, "●", colors::RESET, " No Persistent Storage"]));
    assert(views(lines@) =~= joined_lines(security_lines()));
    print_lines(con, &lines);
}

} // verus!
