//! The command shell: reading a command line, the history, aliases, and
//! the built-in commands.
use vstd::prelude::*;
use crate::ironveil_ui::cli::{colors, CliError, CliResult, CommandContext};
use crate::ironveil_ui::neofetch::system_info::{collected, display_system_info, frames_ok, system_info_lines};
use crate::nexis_kernel::drivers::kb::{xorshift64_step, XorShift64};
use crate::nexis_kernel::drivers::vga::{blank_screen, print_lines, text_lines, vprint, Console};
use crate::nexis_kernel::memory::FRAME_SIZE;
use crate::privacy_core::{hex2, push_hex2};
use crate::text::{hex_digit, chars_of, string_of_range, ws, is_ws, trim_ws, trimmed, concat_views, dec, dec2, join_strs, push_char, push_dec, push_dec2, push_line, push_str, str_eq, views};

verus! {

/// The pending word, if any, as a list.
pub open spec fn flush(cur: Seq<char>) -> Seq<Seq<char>> {
    if cur.len() > 0 {
        seq![cur]
    } else {
        Seq::empty()
    }
}

/// The words of `s` after the partial word `cur`: maximal runs of
/// characters that are not white space.
pub open spec fn words_from(s: Seq<char>, cur: Seq<char>) -> Seq<Seq<char>>
    decreases s.len(),
{
    if s.len() == 0 {
        flush(cur)
    } else if ws(s[0]) {
        flush(cur) + words_from(s.drop_first(), Seq::empty())
    } else {
        words_from(s.drop_first(), cur.push(s[0]))
    }
}

/// The words of a text.
pub open spec fn words(s: Seq<char>) -> Seq<Seq<char>> {
    words_from(s, Seq::empty())
}

/// The words of a text (`str::split_whitespace`).
pub fn split_words(s: &str) -> (r: Vec<String>)
    ensures
        r@.map_values(|w: String| w@) == words(s@),
{
    let cs = chars_of(s);
    let n = cs.len();
    let mut parts: Vec<String> = Vec::new();
    let mut start: usize = 0;
    let mut i: usize = 0;
    proof {
        assert(cs@.subrange(0, n as int) =~= cs@);
        assert(cs@.subrange(0, 0) =~= Seq::<char>::empty());
        assert(parts@.map_values(|w: String| w@) =~= Seq::<Seq<char>>::empty());
        assert(Seq::<Seq<char>>::empty() + words(cs@) =~= words(cs@));
    }
    while i < n
        invariant
            start <= i <= n,
            n == cs@.len(),
            parts@.map_values(|w: String| w@) + words_from(cs@.subrange(i as int, n as int), cs@.subrange(
                start as int, i as int)) == words(cs@),
        decreases n - i,
    {
        let ghost rest = cs@.subrange(i as int, n as int);
        let ghost cur = cs@.subrange(start as int, i as int);
        proof {
            assert(rest.drop_first() =~= cs@.subrange(i as int + 1, n as int));
            assert(rest[0] == cs@[i as int]);
        }
        if is_ws(cs[i]) {
            let ghost before = parts@.map_values(|w: String| w@);
            if start < i {
                let w = string_of_range(&cs, start, i);
                parts.push(w);
                assert(parts@.map_values(|w: String| w@) =~= before + seq![cur]);
            } else {
                assert(parts@.map_values(|w: String| w@) =~= before + Seq::<Seq<char>>::empty());
            }
            proof {
                assert(cs@.subrange(i as int + 1, i as int + 1) =~= Seq::<char>::empty());
                assert(before + flush(cur) + words_from(rest.drop_first(), Seq::empty()) =~= before + (flush(cur)
                    + words_from(rest.drop_first(), Seq::empty())));
            }
            start = i + 1;
        } else {
            proof {
                assert(cur.push(cs@[i as int]) =~= cs@.subrange(start as int, i as int + 1));
            }
        }
        i = i + 1;
    }
    let ghost before = parts@.map_values(|w: String| w@);
    let ghost cur = cs@.subrange(start as int, n as int);
    proof {
        assert(cs@.subrange(n as int, n as int) =~= Seq::<char>::empty());
    }
    if start < n {
        let w = string_of_range(&cs, start, n);
        parts.push(w);
        assert(parts@.map_values(|w: String| w@) =~= before + seq![cur]);
    } else {
        assert(parts@.map_values(|w: String| w@) =~= before + Seq::<Seq<char>>::empty());
    }
    parts
}

/// The number a run of decimal digits spells.
pub open spec fn digits_value(d: Seq<char>) -> nat
    decreases d.len(),
{
    if d.len() == 0 {
        0
    } else {
        digits_value(d.drop_last()) * 10 + ((d.last() as int - '0' as int) as nat)
    }
}

/// Every character is a decimal digit.
pub open spec fn all_digits(d: Seq<char>) -> bool {
    forall|i: int| 0 <= i < d.len() ==> '0' <= #[trigger] d[i] <= '9'
}

/// The digits of an unsigned number's text: a leading `+` is dropped when
/// something follows it.
pub open spec fn unsigned_digits(s: Seq<char>) -> Seq<char> {
    if s.len() > 1 && s[0] == '+' {
        s.drop_first()
    } else {
        s
    }
}

/// The `usize` a text spells (`str::parse::<usize>`): an optional `+`, then
/// one or more decimal digits, the value within range; `None` otherwise.
pub open spec fn parsed_usize(s: Seq<char>) -> Option<usize> {
    let d = unsigned_digits(s);
    if d.len() > 0 && all_digits(d) && digits_value(d) <= usize::MAX {
        Some(digits_value(d) as usize)
    } else {
        None
    }
}

/// A longer run of digits is worth at least as much.
proof fn lemma_digits_value_grows(d: Seq<char>, k: int)
    requires
        0 <= k <= d.len(),
        all_digits(d),
    ensures
        digits_value(d.take(k)) <= digits_value(d),
    decreases d.len() - k,
{
    if k < d.len() {
        lemma_digits_value_grows(d, k + 1);
        assert(d.take(k + 1).drop_last() =~= d.take(k));
        assert(d.take(k + 1).last() == d[k]);
        assert('0' <= d[k] <= '9');
    } else {
        assert(d.take(k) =~= d);
    }
}

/// The `usize` a text spells, as `str::parse::<usize>` reads it.
pub fn parse_usize(s: &str) -> (r: Option<usize>)
    ensures
        r == parsed_usize(s@),
{
    let cs = chars_of(s);
    let n = cs.len();
    let start: usize = if n > 1 && cs[0] == '+' { 1 } else { 0 };
    let ghost d = unsigned_digits(s@);
    proof {
        assert(d =~= cs@.subrange(start as int, n as int));
    }
    if start >= n {
        return None;
    }
    let mut value: usize = 0;
    let mut i = start;
    while i < n
        invariant
            start <= i <= n,
            n == cs@.len(),
            d == cs@.subrange(start as int, n as int),
            d == unsigned_digits(s@),
            all_digits(d.take(i - start)),
            value == digits_value(d.take(i - start)),
        decreases n - i,
    {
        let c = cs[i];
        proof {
            assert(d[i - start] == c);
        }
        if c < '0' || c > '9' {
            assert(!all_digits(d));
            return None;
        }
        proof {
            assert(d.take(i - start + 1).drop_last() =~= d.take(i - start));
            assert(d.take(i - start + 1).last() == c);
        }
        let digit = (c as u32 - '0' as u32) as usize;
        let ghost next = digits_value(d.take(i - start + 1));
        match value.checked_mul(10) {
            None => {
                proof {
                    if all_digits(d) {
                        lemma_digits_value_grows(d, i - start + 1);
                    }
                }
                return None;
            },
            Some(v10) => match v10.checked_add(digit) {
                None => {
                    proof {
                        if all_digits(d) {
                            lemma_digits_value_grows(d, i - start + 1);
                        }
                    }
                    return None;
                },
                Some(v) => {
                    value = v;
                },
            },
        }
        proof {
            assert(all_digits(d.take(i - start + 1)));
        }
        i = i + 1;
    }
    proof {
        assert(d.take(n - start) =~= d);
    }
    Some(value)
}

/// The command list of `help`.
pub open spec fn help_lines() -> Seq<Seq<char>> {
    seq![
        concat_views(seq![colors::PRIMARY, colors::BOLD, "IronVeil Shell - Available Commands:", colors::RESET]),
        Seq::<char>::empty(),
        concat_views(seq![colors::SECONDARY, "System Information:", colors::RESET]),
        concat_views(seq!["  ", colors::ACCENT, "neofetch", colors::RESET, "    - Display system information"]),
        concat_views(seq!["  ", colors::ACCENT, "uptime", colors::RESET, "     - Show system uptime"]),
        concat_views(seq!["  ", colors::ACCENT, "meminfo", colors::RESET, "    - Display memory information"]),
        concat_views(seq!["  ", colors::ACCENT, "lscpu", colors::RESET, "      - Show CPU information"]),
        concat_views(seq!["  ", colors::ACCENT, "ps", colors::RESET, "         - List running tasks"]),
        concat_views(seq!["  ", colors::ACCENT, "version", colors::RESET, "    - Show OS version"]),
        Seq::<char>::empty(),
        concat_views(seq![colors::SECONDARY, "Privacy & Security:", colors::RESET]),
        concat_views(seq!["  ", colors::ACCENT, "genpass", colors::RESET, "    - Generate secure password"]),
        concat_views(seq!["  ", colors::ACCENT, "network", colors::RESET, "    - Network privacy tools"]),
        Seq::<char>::empty(),
        concat_views(seq![colors::SECONDARY, "System Control:", colors::RESET]),
        concat_views(seq!["  ", colors::ACCENT, "clear", colors::RESET, "      - Clear screen"]),
        concat_views(seq!["  ", colors::ACCENT, "reboot", colors::RESET, "     - Restart system"]),
        Seq::<char>::empty(),
        concat_views(seq![colors::SECONDARY, "Utilities:", colors::RESET]),
        concat_views(seq!["  ", colors::ACCENT, "echo", colors::RESET, "       - Display text"]),
        concat_views(seq!["  ", colors::ACCENT, "history", colors::RESET, "    - Show command history"]),
        concat_views(seq!["  ", colors::ACCENT, "whoami", colors::RESET, "     - Show current user"]),
        concat_views(seq!["  ", colors::ACCENT, "date", colors::RESET, "       - Show current date/time"]),
        Seq::<char>::empty(),
        concat_views(seq![colors::DIM, "Use 'help <command>' for detailed information about a specific command.", colors::RESET]),
    ]
}

/// The command list of `help`.
fn help_text() -> (r: Vec<String>)
    ensures
        views(r@) == help_lines(),
{
    let mut lines: Vec<String> = Vec::new();
    push_line(&mut lines, join_strs(&[colors::PRIMARY, colors::BOLD, "IronVeil Shell - Available Commands:", colors::RESET]));
    push_line(&mut lines, String::new());
    push_line(&mut lines, join_strs(&[colors::SECONDARY, "System Information:", colors::RESET]));
    push_line(&mut lines, join_strs(&["  ", colors::ACCENT, "neofetch", colors::RESET, "    - Display system information"]));
    push_line(&mut lines, join_strs(&["  ", colors::ACCENT, "uptime", colors::RESET, "     - Show system uptime"]));
    push_line(&mut lines, join_strs(&["  ", colors::ACCENT, "meminfo", colors::RESET, "    - Display memory information"]));
    push_line(&mut lines, join_strs(&["  ", colors::ACCENT, "lscpu", colors::RESET, "      - Show CPU information"]));
    push_line(&mut lines, join_strs(&["  ", colors::ACCENT, "ps", colors::RESET, "         - List running tasks"]));
    push_line(&mut lines, join_strs(&["  ", colors::ACCENT, "version", colors::RESET, "    - Show OS version"]));
    push_line(&mut lines, String::new());
    push_line(&mut lines, join_strs(&[colors::SECONDARY, "Privacy & Security:", colors::RESET]));
    push_line(&mut lines, join_strs(&["  ", colors::ACCENT, "genpass", colors::RESET, "    - Generate secure password"]));
    push_line(&mut lines, join_strs(&["  ", colors::ACCENT, "network", colors::RESET, "    - Network privacy tools"]));
    push_line(&mut lines, String::new());
    push_line(&mut lines, join_strs(&[colors::SECONDARY, "System Control:", colors::RESET]));
    push_line(&mut lines, join_strs(&["  ", colors::ACCENT, "clear", colors::RESET, "      - Clear screen"]));
    push_line(&mut lines, join_strs(&["  ", colors::ACCENT, "reboot", colors::RESET, "     - Restart system"]));
    push_line(&mut lines, String::new());
    push_line(&mut lines, join_strs(&[colors::SECONDARY, "Utilities:", colors::RESET]));
    push_line(&mut lines, join_strs(&["  ", colors::ACCENT, "echo", colors::RESET, "       - Display text"]));
    push_line(&mut lines, join_strs(&["  ", colors::ACCENT, "history", colors::RESET, "    - Show command history"]));
    push_line(&mut lines, join_strs(&["  ", colors::ACCENT, "whoami", colors::RESET, "     - Show current user"]));
    push_line(&mut lines, join_strs(&["  ", colors::ACCENT, "date", colors::RESET, "       - Show current date/time"]));
    push_line(&mut lines, String::new());
    push_line(&mut lines, join_strs(&[colors::DIM, "Use 'help <command>' for detailed information about a specific command.", colors::RESET]));
    proof {
        let v = views(lines@);
        let w = help_lines();
        assert(v[0] == w[0]);
        assert(v[1] == w[1]);
        assert(v[2] == w[2]);
        assert(v[3] == w[3]);
        assert(v[4] == w[4]);
        assert(v[5] == w[5]);
        assert(v[6] == w[6]);
        assert(v[7] == w[7]);
        assert(v[8] == w[8]);
        assert(v[9] == w[9]);
        assert(v[10] == w[10]);
        assert(v[11] == w[11]);
        assert(v[12] == w[12]);
        assert(v[13] == w[13]);
        assert(v[14] == w[14]);
        assert(v[15] == w[15]);
        assert(v[16] == w[16]);
        assert(v[17] == w[17]);
        assert(v[18] == w[18]);
        assert(v[19] == w[19]);
        assert(v[20] == w[20]);
        assert(v[21] == w[21]);
        assert(v[22] == w[22]);
        assert(v[23] == w[23]);
        assert(v[24] == w[24]);
    }
    assert(views(lines@) =~= help_lines());
    lines
}

/// The processor description of `lscpu`.
pub open spec fn lscpu_lines() -> Seq<Seq<char>> {
    seq![
        concat_views(seq![colors::PRIMARY, "CPU Information:", colors::RESET]),
        "  Architecture:     x86_64"@,
        "  CPU op-mode(s):   64-bit"@,
        "  Byte Order:       Little Endian"@,
        "  CPU(s):           1"@,
        "  Vendor ID:        Unknown"@,
        "  Model name:       IronVeil Virtual CPU"@,
    ]
}

/// The processor description of `lscpu`.
fn lscpu_text() -> (r: Vec<String>)
    ensures
        views(r@) == lscpu_lines(),
{
    let mut lines: Vec<String> = Vec::new();
    push_line(&mut lines, join_strs(&[colors::PRIMARY, "CPU Information:", colors::RESET]));
    push_line(&mut lines, String::from_str("  Architecture:     x86_64"));
    push_line(&mut lines, String::from_str("  CPU op-mode(s):   64-bit"));
    push_line(&mut lines, String::from_str("  Byte Order:       Little Endian"));
    push_line(&mut lines, String::from_str("  CPU(s):           1"));
    push_line(&mut lines, String::from_str("  Vendor ID:        Unknown"));
    push_line(&mut lines, String::from_str("  Model name:       IronVeil Virtual CPU"));
    proof {
        let v = views(lines@);
        let w = lscpu_lines();
        assert(v[0] == w[0]);
        assert(v[1] == w[1]);
        assert(v[2] == w[2]);
        assert(v[3] == w[3]);
        assert(v[4] == w[4]);
        assert(v[5] == w[5]);
        assert(v[6] == w[6]);
    }
    assert(views(lines@) =~= lscpu_lines());
    lines
}

/// The task list of `ps`.
pub open spec fn ps_lines() -> Seq<Seq<char>> {
    seq![
        concat_views(seq![colors::PRIMARY, colors::BOLD, "  PID  STATE    NAME", colors::RESET]),
        "    0  Running  kernel_idle"@,
        "    1  Running  demo_task"@,
        "    2  Running  shell_task"@,
    ]
}

/// The task list of `ps`.
fn ps_text() -> (r: Vec<String>)
    ensures
        views(r@) == ps_lines(),
{
    let mut lines: Vec<String> = Vec::new();
    push_line(&mut lines, join_strs(&[colors::PRIMARY, colors::BOLD, "  PID  STATE    NAME", colors::RESET]));
    push_line(&mut lines, String::from_str("    0  Running  kernel_idle"));
    push_line(&mut lines, String::from_str("    1  Running  demo_task"));
    push_line(&mut lines, String::from_str("    2  Running  shell_task"));
    proof {
        let v = views(lines@);
        let w = ps_lines();
        assert(v[0] == w[0]);
        assert(v[1] == w[1]);
        assert(v[2] == w[2]);
        assert(v[3] == w[3]);
    }
    assert(views(lines@) =~= ps_lines());
    lines
}

/// The version text of `version`.
pub open spec fn version_lines() -> Seq<Seq<char>> {
    seq![
        concat_views(seq![colors::PRIMARY, "IronVeil OS", colors::RESET, " version ", "0.1.0-alpha"]),
        concat_views(seq!["Built on Nexis kernel with Rust ", "1.75+"]),
        "Privacy-focused live operating system"@,
    ]
}

/// The version text of `version`.
fn version_text() -> (r: Vec<String>)
    ensures
        views(r@) == version_lines(),
{
    let mut lines: Vec<String> = Vec::new();
    push_line(&mut lines, join_strs(&[colors::PRIMARY, "IronVeil OS", colors::RESET, " version ", "0.1.0-alpha"]));
    push_line(&mut lines, join_strs(&["Built on Nexis kernel with Rust ", "1.75+"]));
    push_line(&mut lines, String::from_str("Privacy-focused live operating system"));
    proof {
        let v = views(lines@);
        let w = version_lines();
        assert(v[0] == w[0]);
        assert(v[1] == w[1]);
        assert(v[2] == w[2]);
    }
    assert(views(lines@) =~= version_lines());
    lines
}

/// The usage text of `network` without a subcommand.
pub open spec fn network_usage_lines() -> Seq<Seq<char>> {
    seq![
        concat_views(seq![colors::PRIMARY, "Network Privacy Tools:", colors::RESET]),
        "  network ip   - Generate random IP address"@,
        "  network mac  - Generate random MAC address"@,
    ]
}

/// The usage text of `network` without a subcommand.
fn network_usage_text() -> (r: Vec<String>)
    ensures
        views(r@) == network_usage_lines(),
{
    let mut lines: Vec<String> = Vec::new();
    push_line(&mut lines, join_strs(&[colors::PRIMARY, "Network Privacy Tools:", colors::RESET]));
    push_line(&mut lines, String::from_str("  network ip   - Generate random IP address"));
    push_line(&mut lines, String::from_str("  network mac  - Generate random MAC address"));
    proof {
        let v = views(lines@);
        let w = network_usage_lines();
        assert(v[0] == w[0]);
        assert(v[1] == w[1]);
        assert(v[2] == w[2]);
    }
    assert(views(lines@) =~= network_usage_lines());
    lines
}

/// The notice of `reboot`.
pub open spec fn reboot_lines() -> Seq<Seq<char>> {
    seq![
        concat_views(seq![colors::WARNING, "System reboot requested...", colors::RESET]),
        concat_views(seq![colors::DIM, "Halting kernel. Restart QEMU to continue.", colors::RESET]),
    ]
}

/// The notice of `reboot`.
fn reboot_text() -> (r: Vec<String>)
    ensures
        views(r@) == reboot_lines(),
{
    let mut lines: Vec<String> = Vec::new();
    push_line(&mut lines, join_strs(&[colors::WARNING, "System reboot requested...", colors::RESET]));
    push_line(&mut lines, join_strs(&[colors::DIM, "Halting kernel. Restart QEMU to continue.", colors::RESET]));
    proof {
        let v = views(lines@);
        let w = reboot_lines();
        assert(v[0] == w[0]);
        assert(v[1] == w[1]);
    }
    assert(views(lines@) =~= reboot_lines());
    lines
}

/// The notice of `history`.
pub open spec fn history_lines() -> Seq<Seq<char>> {
    seq![
        "Command history not available in this context"@,
    ]
}

/// The notice of `history`.
fn history_text() -> (r: Vec<String>)
    ensures
        views(r@) == history_lines(),
{
    let mut lines: Vec<String> = Vec::new();
    push_line(&mut lines, String::from_str("Command history not available in this context"));
    proof {
        let v = views(lines@);
        let w = history_lines();
        assert(v[0] == w[0]);
    }
    assert(views(lines@) =~= history_lines());
    lines
}

/// What the commands read and write: the console, the timer ticks (50 per
/// second), the frame counts, and whether a command asked to halt.
pub struct ShellEnv {
    pub console: Console,
    pub ticks: u64,
    pub total_frames: usize,
    pub free_frames: usize,
    pub halt_requested: bool,
}

impl ShellEnv {
    /// The console is consistent and the frame counts can be reported.
    pub open spec fn wf(&self) -> bool {
        self.console.wf() && frames_ok(self.total_frames, self.free_frames)
    }
}

/// The command printed `lines` and changed nothing else.
pub open spec fn printed(before: ShellEnv, after: ShellEnv, lines: Seq<Seq<char>>) -> bool {
    &&& after.console.serial@ == before.console.serial@ + text_lines(lines)
    &&& after.ticks == before.ticks
    &&& after.total_frames == before.total_frames
    &&& after.free_frames == before.free_frames
    &&& after.halt_requested == before.halt_requested
}

/// Prints lines through the environment's console.
fn print_env(env: &mut ShellEnv, lines: &Vec<String>)
    requires
        old(env).wf(),
    ensures
        final(env).wf(),
        printed(*old(env), *final(env), views(lines@)),
{
    print_lines(&mut env.console, lines);
}

/// Prints one line through the environment's console.
fn print_env_line(env: &mut ShellEnv, line: String)
    requires
        old(env).wf(),
    ensures
        final(env).wf(),
        printed(*old(env), *final(env), seq![line@]),
{
    let ghost l = line@;
    let mut lines: Vec<String> = Vec::new();
    push_line(&mut lines, line);
    assert(views(lines@) =~= seq![l]);
    print_env(env, &lines);
}

/// The words, joined by single spaces.
pub open spec fn join_spaced(args: Seq<Seq<char>>) -> Seq<char>
    decreases args.len(),
{
    if args.len() == 0 {
        Seq::empty()
    } else if args.len() == 1 {
        args[0]
    } else {
        join_spaced(args.drop_last()) + seq![' '] + args.last()
    }
}

/// The characters of each argument.
pub open spec fn arg_views(args: Seq<&str>) -> Seq<Seq<char>> {
    args.map_values(|a: &str| a@)
}

/// `help` with an argument.
pub open spec fn help_arg_line(arg: Seq<char>) -> Seq<char> {
    "Detailed help for '"@ + arg + "' not yet implemented."@
}

/// The line of `uptime`, from timer ticks at 50 Hz.
pub open spec fn uptime_line(ticks: nat) -> Seq<char> {
    let seconds = ticks / 50;
    let minutes = seconds / 60;
    let hours = minutes / 60;
    let days = hours / 24;
    colors::PRIMARY@ + "up "@ + colors::RESET@ + (if days > 0 { dec(days) + " days, "@ } else { Seq::empty() })
        + (if hours % 24 > 0 {
        dec(hours % 24) + seq![':'] + dec2(minutes % 60) + ", "@
    } else if minutes > 0 {
        dec(minutes % 60) + " min, "@
    } else {
        Seq::empty()
    }) + "load average: 0.00, 0.00, 0.00"@
}

/// After at least a minute and under an hour of uptime (ticks at 50 Hz),
/// the uptime line gives the whole minutes elapsed, then " min".
pub proof fn law_uptime_minutes(ticks: nat)
    requires
        3000 <= ticks < 180000,
    ensures
        uptime_line(ticks) == colors::PRIMARY@ + "up "@ + colors::RESET@ + dec(ticks / 3000) + " min, "@
            + "load average: 0.00, 0.00, 0.00"@,
{
    vstd::arithmetic::div_mod::lemma_div_denominator(ticks as int, 50, 60);
    let minutes = ticks / 3000;
    assert(1 <= minutes < 60);
    assert(minutes / 60 == 0);
    assert(minutes % 60 == minutes);
}

/// After at least an hour and under a day of uptime (ticks at 50 Hz), the
/// uptime line gives the whole hours elapsed and, in two digits, the whole
/// minutes past the hour.
pub proof fn law_uptime_hours(ticks: nat)
    requires
        180000 <= ticks < 4320000,
    ensures
        uptime_line(ticks) == colors::PRIMARY@ + "up "@ + colors::RESET@ + dec(ticks / 180000) + seq![':'] + dec2(
            (ticks / 3000) % 60) + ", "@ + "load average: 0.00, 0.00, 0.00"@,
{
    vstd::arithmetic::div_mod::lemma_div_denominator(ticks as int, 50, 60);
    vstd::arithmetic::div_mod::lemma_div_denominator(ticks as int, 3000, 60);
    let hours = ticks / 180000;
    assert(1 <= hours < 24);
    assert(hours / 24 == 0);
    assert(hours % 24 == hours);
}

/// The lines of `meminfo`.
pub open spec fn meminfo_lines(total_frames: nat, free_frames: nat) -> Seq<Seq<char>> {
    let used = total_frames - free_frames;
    seq![
        concat_views(seq![colors::PRIMARY, "Memory Information:", colors::RESET]),
        "  Total:     "@ + dec(total_frames * 4) + " KB"@,
        "  Used:      "@ + dec((used * 4) as nat) + " KB"@,
        "  Free:      "@ + dec(free_frames * 4) + " KB"@,
        "  Frames:    "@ + dec(total_frames) + " total, "@ + dec(used as nat) + " used, "@ + dec(free_frames)
            + " free"@,
    ]
}

/// The state of the generator after `k` steps from `seed`.
pub open spec fn rng_state(seed: u64, k: nat) -> u64
    decreases k,
{
    if k == 0 {
        seed
    } else {
        xorshift64_step(rng_state(seed, (k - 1) as nat))
    }
}

/// The seed of `genpass`.
pub const GENPASS_SEED: u64 = 0xdeadbeef12345678;

/// The seed of `network`.
pub const NETWORK_SEED: u64 = 0xabcdef123456789;

/// A password of `n` printable characters (`!` to `~`) from the generator.
pub open spec fn password(n: nat) -> Seq<char> {
    Seq::new(n, |k: int| ((33 + rng_state(GENPASS_SEED, (k + 1) as nat) % 94) as u8) as char)
}

/// A password of `n` characters has `n` visible ASCII characters (`!` to
/// `~`), and a shorter password is the start of a longer one.
pub proof fn law_password(n: nat, m: nat)
    ensures
        password(n).len() == n,
        forall|k: int| 0 <= k < n ==> '!' <= #[trigger] password(n)[k] <= '~',
        m <= n ==> password(m) == password(n).take(m as int),
{
    assert forall|k: int| 0 <= k < n implies '!' <= #[trigger] password(n)[k] <= '~' by {
        let x = rng_state(GENPASS_SEED, (k + 1) as nat) % 94;
        assert(33 <= 33 + x <= 126);
    }
    if m <= n {
        assert(password(m) =~= password(n).take(m as int));
    }
}

/// The password length `genpass` uses: 16 by default or when the argument
/// is not a number, otherwise the argument brought into 8..=64.
pub open spec fn password_length(args: Seq<Seq<char>>) -> nat {
    if args.len() == 0 {
        16
    } else {
        let n: int = match parsed_usize(args[0]) {
            Some(v) => v as int,
            None => 16,
        };
        (if n < 8 { 8 } else if n > 64 { 64 } else { n }) as nat
    }
}

/// The line of `genpass`.
pub open spec fn genpass_line(n: nat) -> Seq<char> {
    concat_views(seq![colors::SUCCESS, "Generated password:", colors::RESET, " "]) + password(n)
}

/// The `k`-th output of the network generator.
pub open spec fn net_draw(k: nat) -> u64 {
    rng_state(NETWORK_SEED, k)
}

/// The line of `network ip`.
pub open spec fn network_ip_line() -> Seq<char> {
    concat_views(seq![colors::SUCCESS, "Random IPv4:", colors::RESET, " "]) + dec((10 + net_draw(1) % 241) as nat)
        + seq!['.'] + dec((1 + net_draw(2) % 254) as nat) + seq!['.'] + dec((1 + net_draw(3) % 254) as nat) + seq![
        '.'] + dec((1 + net_draw(4) % 254) as nat)
}

/// The bytes of `network mac`: six draws, the first made a locally
/// administered unicast address.
pub open spec fn network_mac_bytes() -> Seq<u8> {
    seq![
        (((net_draw(1) & 0xFF) as u8) & 0xFC) | 0x02,
        (net_draw(2) & 0xFF) as u8,
        (net_draw(3) & 0xFF) as u8,
        (net_draw(4) & 0xFF) as u8,
        (net_draw(5) & 0xFF) as u8,
        (net_draw(6) & 0xFF) as u8,
    ]
}

/// The line of `network mac`.
pub open spec fn network_mac_line() -> Seq<char> {
    let b = network_mac_bytes();
    concat_views(seq![colors::SUCCESS, "Random MAC:", colors::RESET, " "]) + hex2(b[0]) + seq![':'] + hex2(b[1])
        + seq![':'] + hex2(b[2]) + seq![':'] + hex2(b[3]) + seq![':'] + hex2(b[4]) + seq![':'] + hex2(b[5])
}

/// The lines of `network`.
pub open spec fn network_lines(args: Seq<Seq<char>>) -> Seq<Seq<char>> {
    if args.len() == 0 {
        network_usage_lines()
    } else if args[0] == "ip"@ {
        seq![network_ip_line()]
    } else if args[0] == "mac"@ {
        seq![network_mac_line()]
    } else {
        seq![concat_views(seq![colors::ERROR, "Invalid network subcommand. Use 'ip' or 'mac'.", colors::RESET])]
    }
}

/// The lines of `date`.
pub open spec fn date_lines(ticks: nat) -> Seq<Seq<char>> {
    seq![
        "Boot time + "@ + dec(ticks / 50) + " seconds"@,
        concat_views(seq![colors::DIM, "Note: RTC driver required for actual date/time", colors::RESET]),
    ]
}

/// The lines when no command has the name.
pub open spec fn not_found_lines(name: Seq<char>) -> Seq<Seq<char>> {
    seq![
        concat_views(seq![colors::ERROR, "ironshell: "]) + name + ": command not found"@ + colors::RESET@,
        concat_views(seq![colors::DIM, "Type 'help' for available commands.", colors::RESET]),
    ]
}

/// The built-in commands.
#[derive(Debug, Clone, Copy, PartialEq, Eq, Structural)]
pub enum BuiltinCommands {
    Help,
    Clear,
    Echo,
    History,
    Uptime,
    MemInfo,
    LsCpu,
    Ps,
    GenPass,
    Network,
    Reboot,
    Neofetch,
    Version,
    Whoami,
    Date,
}

/// What a command does with the arguments, the context and the
/// environment.
pub open spec fn command_effect(
    c: BuiltinCommands,
    args: Seq<Seq<char>>,
    context: CommandContext,
    before: ShellEnv,
    after: ShellEnv,
) -> bool {
    match c {
        BuiltinCommands::Help => printed(before, after, if args.len() == 0 { help_lines() } else {
            seq![help_arg_line(args[0])] }),
        BuiltinCommands::Clear => {
            &&& after.console.serial@ == before.console.serial@
            &&& after.console.vga.screen() == blank_screen(before.console.vga.attr())
            &&& after.console.vga.col() == 0 && after.console.vga.line() == 0
            &&& after.console.vga.attr() == before.console.vga.attr()
            &&& after.ticks == before.ticks && after.halt_requested == before.halt_requested
            &&& after.total_frames == before.total_frames && after.free_frames == before.free_frames
        },
        BuiltinCommands::Echo => printed(before, after, seq![join_spaced(args)]),
        BuiltinCommands::History => printed(before, after, history_lines()),
        BuiltinCommands::Uptime => printed(before, after, seq![uptime_line(before.ticks as nat)]),
        BuiltinCommands::MemInfo => printed(before, after, meminfo_lines(before.total_frames as nat,
            before.free_frames as nat)),
        BuiltinCommands::LsCpu => printed(before, after, lscpu_lines()),
        BuiltinCommands::Ps => printed(before, after, ps_lines()),
        BuiltinCommands::GenPass => printed(before, after, seq![genpass_line(password_length(args))]),
        BuiltinCommands::Network => printed(before, after, network_lines(args)),
        BuiltinCommands::Reboot => {
            &&& after.console.serial@ == before.console.serial@ + text_lines(reboot_lines())
            &&& after.halt_requested
            &&& after.ticks == before.ticks
            &&& after.total_frames == before.total_frames && after.free_frames == before.free_frames
        },
        BuiltinCommands::Neofetch => printed(before, after, system_info_lines(true, true, collected(before.ticks,
            before.total_frames, before.free_frames))),
        BuiltinCommands::Version => printed(before, after, version_lines()),
        BuiltinCommands::Whoami => printed(before, after, seq![context.current_user@]),
        BuiltinCommands::Date => printed(before, after, date_lines(before.ticks as nat)),
    }
}

/// The name a command is called by.
pub open spec fn builtin_name(c: BuiltinCommands) -> Seq<char> {
    match c {
        BuiltinCommands::Help => "help"@,
        BuiltinCommands::Clear => "clear"@,
        BuiltinCommands::Echo => "echo"@,
        BuiltinCommands::History => "history"@,
        BuiltinCommands::Uptime => "uptime"@,
        BuiltinCommands::MemInfo => "meminfo"@,
        BuiltinCommands::LsCpu => "lscpu"@,
        BuiltinCommands::Ps => "ps"@,
        BuiltinCommands::GenPass => "genpass"@,
        BuiltinCommands::Network => "network"@,
        BuiltinCommands::Reboot => "reboot"@,
        BuiltinCommands::Neofetch => "neofetch"@,
        BuiltinCommands::Version => "version"@,
        BuiltinCommands::Whoami => "whoami"@,
        BuiltinCommands::Date => "date"@,
    }
}

/// The line `help` shows for a built-in command.
pub open spec fn builtin_description(c: BuiltinCommands) -> Seq<char> {
    match c {
        BuiltinCommands::Help => "Display help information"@,
        BuiltinCommands::Clear => "Clear the terminal screen"@,
        BuiltinCommands::Echo => "Display a line of text"@,
        BuiltinCommands::History => "Show command history"@,
        BuiltinCommands::Uptime => "Show system uptime"@,
        BuiltinCommands::MemInfo => "Display memory information"@,
        BuiltinCommands::LsCpu => "Display CPU information"@,
        BuiltinCommands::Ps => "List running tasks"@,
        BuiltinCommands::GenPass => "Generate a secure password"@,
        BuiltinCommands::Network => "Network privacy tools"@,
        BuiltinCommands::Reboot => "Restart the system"@,
        BuiltinCommands::Neofetch => "Display system information"@,
        BuiltinCommands::Version => "Show OS version information"@,
        BuiltinCommands::Whoami => "Display current username"@,
        BuiltinCommands::Date => "Display current date and time"@,
    }
}

/// How a built-in command is called.
pub open spec fn builtin_usage(c: BuiltinCommands) -> Seq<char> {
    match c {
        BuiltinCommands::Help => "help [command]"@,
        BuiltinCommands::Clear => "clear"@,
        BuiltinCommands::Echo => "echo [text...]"@,
        BuiltinCommands::History => "history"@,
        BuiltinCommands::Uptime => "uptime"@,
        BuiltinCommands::MemInfo => "meminfo"@,
        BuiltinCommands::LsCpu => "lscpu"@,
        BuiltinCommands::Ps => "ps"@,
        BuiltinCommands::GenPass => "genpass [length]"@,
        BuiltinCommands::Network => "network [ip|mac]"@,
        BuiltinCommands::Reboot => "reboot"@,
        BuiltinCommands::Neofetch => "neofetch"@,
        BuiltinCommands::Version => "version"@,
        BuiltinCommands::Whoami => "whoami"@,
        BuiltinCommands::Date => "date"@,
    }
}

/// `j` is the first place of `names` that holds `n`.
pub open spec fn first_named(names: Seq<Seq<char>>, n: Seq<char>, j: int) -> bool {
    &&& 0 <= j < names.len()
    &&& names[j] == n
    &&& forall|i: int| 0 <= i < j ==> #[trigger] names[i] != n
}

/// A command of the shell.
pub trait CommandHandler {
    /// The name the command is called by.
    spec fn command_name(&self) -> Seq<char>;

    /// The name the command is called by.
    fn name(&self) -> (r: &'static str)
        ensures
            r@ == self.command_name(),
    ;

    /// One line on what the command does.
    spec fn command_description(&self) -> Seq<char>;

    /// How to call the command.
    spec fn command_usage(&self) -> Seq<char>;

    /// One line on what the command does.
    fn description(&self) -> (r: &'static str)
        ensures
            r@ == self.command_description(),
    ;

    /// How to call the command.
    fn usage(&self) -> (r: &'static str)
        ensures
            r@ == self.command_usage(),
    ;

    /// Whether running the command with the words `args` in `context` may
    /// take the shell's environment from `before` to `after` and give `r`.
    spec fn execute_effect(
        &self,
        args: Seq<Seq<char>>,
        context: CommandContext,
        before: ShellEnv,
        after: ShellEnv,
        r: CliResult<()>,
    ) -> bool;

    /// Runs the command.
    fn execute(&self, args: &[&str], context: &CommandContext, env: &mut ShellEnv) -> (r: CliResult<()>)
        requires
            old(env).wf(),
        ensures
            final(env).wf(),
            self.execute_effect(arg_views(args@), *context, *old(env), *final(env), r),
    ;
}

/// The words joined by single spaces.
fn join_args(args: &[&str]) -> (r: String)
    ensures
        r@ == join_spaced(arg_views(args@)),
{
    let mut s = String::new();
    let mut i: usize = 0;
    while i < args.len()
        invariant
            i <= args@.len(),
            s@ == join_spaced(arg_views(args@.take(i as int))),
        decreases args@.len() - i,
    {
        proof {
            assert(arg_views(args@.take(i as int + 1)).drop_last() =~= arg_views(args@.take(i as int)));
        }
        if i > 0 {
            push_char(&mut s, ' ');
        }
        push_str(&mut s, args[i]);
        proof {
            if i == 0 {
                assert(s@ =~= arg_views(args@.take(1))[0]);
            }
        }
        i = i + 1;
    }
    assert(args@.take(i as int) =~= args@);
    s
}

/// The characters of each argument, one after another.
proof fn lemma_arg_views_index(args: Seq<&str>, i: int)
    requires
        0 <= i < args.len(),
    ensures
        arg_views(args)[i] == args[i]@,
        arg_views(args).len() == args.len(),
{
}

/// Prints the line of `genpass`.
fn genpass(args: &[&str], env: &mut ShellEnv)
    requires
        old(env).wf(),
    ensures
        final(env).wf(),
        printed(*old(env), *final(env), seq![genpass_line(password_length(arg_views(args@)))]),
{
    let length: usize = if args.len() == 0 {
        16
    } else {
        proof {
            lemma_arg_views_index(args@, 0);
        }
        let n = match parse_usize(args[0]) {
            Some(v) => v,
            None => 16,
        };
        if n < 8 {
            8
        } else if n > 64 {
            64
        } else {
            n
        }
    };
    let mut rng = XorShift64::new(GENPASS_SEED);
    let mut pass = String::new();
    let mut k: usize = 0;
    while k < length
        invariant
            k <= length,
            rng.state == rng_state(GENPASS_SEED, k as nat),
            pass@ == password(length as nat).take(k as int),
        decreases length - k,
    {
        let b = rng.next_range_u8(33u8, 126u8);
        push_char(&mut pass, b as char);
        proof {
            assert(pass@ =~= password(length as nat).take(k as int + 1));
        }
        k = k + 1;
    }
    assert(pass@ =~= password(length as nat));
    let mut line = join_strs(&[colors::SUCCESS, "Generated password:", colors::RESET, " "]);
    push_str(&mut line, pass.as_str());
    print_env_line(env, line);
}

/// Prints the line of `network ip`.
fn network_ip(env: &mut ShellEnv)
    requires
        old(env).wf(),
    ensures
        final(env).wf(),
        printed(*old(env), *final(env), seq![network_ip_line()]),
{
    let mut rng = XorShift64::new(NETWORK_SEED);
    let a = rng.next_range_u8(10, 250);
    let b = rng.next_range_u8(1, 254);
    let c = rng.next_range_u8(1, 254);
    let d = rng.next_range_u8(1, 254);
    proof {
        reveal_with_fuel(rng_state, 5);
    }
    let mut line = join_strs(&[colors::SUCCESS, "Random IPv4:", colors::RESET, " "]);
    push_dec(&mut line, a as u64);
    push_char(&mut line, '.');
    push_dec(&mut line, b as u64);
    push_char(&mut line, '.');
    push_dec(&mut line, c as u64);
    push_char(&mut line, '.');
    push_dec(&mut line, d as u64);
    assert(line@ =~= network_ip_line());
    print_env_line(env, line);
}

/// Prints the line of `network mac`.
fn network_mac(env: &mut ShellEnv)
    requires
        old(env).wf(),
    ensures
        final(env).wf(),
        printed(*old(env), *final(env), seq![network_mac_line()]),
{
    let mut rng = XorShift64::new(NETWORK_SEED);
    let mut parts = [0u8; 6];
    let mut i: usize = 0;
    while i < 6
        invariant
            i <= 6,
            rng.state == net_draw(i as nat),
            forall|k: int| 0 <= k < i ==> parts@[k] == (net_draw((k + 1) as nat) & 0xFF) as u8,
        decreases 6 - i,
    {
        parts[i] = rng.next_u8();
        i = i + 1;
    }
    parts[0] = (parts[0] & 0xFC) | 0x02;
    let mut line = join_strs(&[colors::SUCCESS, "Random MAC:", colors::RESET, " "]);
    push_hex2(&mut line, parts[0]);
    push_char(&mut line, ':');
    push_hex2(&mut line, parts[1]);
    push_char(&mut line, ':');
    push_hex2(&mut line, parts[2]);
    push_char(&mut line, ':');
    push_hex2(&mut line, parts[3]);
    push_char(&mut line, ':');
    push_hex2(&mut line, parts[4]);
    push_char(&mut line, ':');
    push_hex2(&mut line, parts[5]);
    assert(line@ =~= network_mac_line());
    print_env_line(env, line);
}

/// Runs `help`.
fn run_help(args: &[&str], context: &CommandContext, env: &mut ShellEnv)
    requires
        old(env).wf(),
    ensures
        final(env).wf(),
        command_effect(BuiltinCommands::Help, arg_views(args@), *context, *old(env), *final(env)),
{
    if args.len() == 0 {
        let lines = help_text();
        print_env(env, &lines);
    } else {
        proof {
            lemma_arg_views_index(args@, 0);
        }
        let mut line = String::from_str("Detailed help for '");
        push_str(&mut line, args[0]);
        push_str(&mut line, "' not yet implemented.");
        print_env_line(env, line);
    }
}

/// Runs `clear`.
fn run_clear(args: &[&str], context: &CommandContext, env: &mut ShellEnv)
    requires
        old(env).wf(),
    ensures
        final(env).wf(),
        command_effect(BuiltinCommands::Clear, arg_views(args@), *context, *old(env), *final(env)),
{
    env.console.vga.clear_screen();
}

/// Runs `echo`.
fn run_echo(args: &[&str], context: &CommandContext, env: &mut ShellEnv)
    requires
        old(env).wf(),
    ensures
        final(env).wf(),
        command_effect(BuiltinCommands::Echo, arg_views(args@), *context, *old(env), *final(env)),
{
    let line = join_args(args);
    print_env_line(env, line);
}

/// Runs `history`.
fn run_history(args: &[&str], context: &CommandContext, env: &mut ShellEnv)
    requires
        old(env).wf(),
    ensures
        final(env).wf(),
        command_effect(BuiltinCommands::History, arg_views(args@), *context, *old(env), *final(env)),
{
    let lines = history_text();
    print_env(env, &lines);
}

/// Runs `uptime`.
fn run_uptime(args: &[&str], context: &CommandContext, env: &mut ShellEnv)
    requires
        old(env).wf(),
    ensures
        final(env).wf(),
        command_effect(BuiltinCommands::Uptime, arg_views(args@), *context, *old(env), *final(env)),
{
    let ticks = env.ticks;
    let seconds = ticks / 50;
    let minutes = seconds / 60;
    let hours = minutes / 60;
    let days = hours / 24;
    let mut line = String::new();
    push_str(&mut line, colors::PRIMARY);
    push_str(&mut line, "up ");
    push_str(&mut line, colors::RESET);
    if days > 0 {
        push_dec(&mut line, days);
        push_str(&mut line, " days, ");
    }
    if hours % 24 > 0 {
        push_dec(&mut line, hours % 24);
        push_char(&mut line, ':');
        push_dec2(&mut line, minutes % 60);
        push_str(&mut line, ", ");
    } else if minutes > 0 {
        push_dec(&mut line, minutes % 60);
        push_str(&mut line, " min, ");
    }
    push_str(&mut line, "load average: 0.00, 0.00, 0.00");
    assert(line@ =~= uptime_line(ticks as nat));
    print_env_line(env, line);
}

/// Runs `meminfo`.
fn run_meminfo(args: &[&str], context: &CommandContext, env: &mut ShellEnv)
    requires
        old(env).wf(),
    ensures
        final(env).wf(),
        command_effect(BuiltinCommands::MemInfo, arg_views(args@), *context, *old(env), *final(env)),
{
    let total = env.total_frames;
    let free = env.free_frames;
    let used = total - free;
    let mut lines: Vec<String> = Vec::new();
    push_line(&mut lines, join_strs(&[colors::PRIMARY, "Memory Information:", colors::RESET]));
    let mut l = String::from_str("  Total:     ");
    push_dec(&mut l, ((total * FRAME_SIZE) / 1024) as u64);
    push_str(&mut l, " KB");
    push_line(&mut lines, l);
    let mut l = String::from_str("  Used:      ");
    push_dec(&mut l, ((used * FRAME_SIZE) / 1024) as u64);
    push_str(&mut l, " KB");
    push_line(&mut lines, l);
    let mut l = String::from_str("  Free:      ");
    push_dec(&mut l, ((free * FRAME_SIZE) / 1024) as u64);
    push_str(&mut l, " KB");
    push_line(&mut lines, l);
    let mut l = String::from_str("  Frames:    ");
    push_dec(&mut l, total as u64);
    push_str(&mut l, " total, ");
    push_dec(&mut l, used as u64);
    push_str(&mut l, " used, ");
    push_dec(&mut l, free as u64);
    push_str(&mut l, " free");
    push_line(&mut lines, l);
    proof {
        let v = views(lines@);
        let w = meminfo_lines(total as nat, free as nat);
        assert(v[0] == w[0]);
        assert(v[1] == w[1]);
        assert(v[2] == w[2]);
        assert(v[3] == w[3]);
        assert(v[4] == w[4]);
    }
    assert(views(lines@) =~= meminfo_lines(total as nat, free as nat));
    print_env(env, &lines);
}

/// Runs `lscpu`.
fn run_lscpu(args: &[&str], context: &CommandContext, env: &mut ShellEnv)
    requires
        old(env).wf(),
    ensures
        final(env).wf(),
        command_effect(BuiltinCommands::LsCpu, arg_views(args@), *context, *old(env), *final(env)),
{
    let lines = lscpu_text();
    print_env(env, &lines);
}

/// Runs `ps`.
fn run_ps(args: &[&str], context: &CommandContext, env: &mut ShellEnv)
    requires
        old(env).wf(),
    ensures
        final(env).wf(),
        command_effect(BuiltinCommands::Ps, arg_views(args@), *context, *old(env), *final(env)),
{
    let lines = ps_text();
    print_env(env, &lines);
}

/// Runs `genpass`.
fn run_genpass(args: &[&str], context: &CommandContext, env: &mut ShellEnv)
    requires
        old(env).wf(),
    ensures
        final(env).wf(),
        command_effect(BuiltinCommands::GenPass, arg_views(args@), *context, *old(env), *final(env)),
{
    genpass(args, env);
}

/// Runs `network`.
fn run_network(args: &[&str], context: &CommandContext, env: &mut ShellEnv)
    requires
        old(env).wf(),
    ensures
        final(env).wf(),
        command_effect(BuiltinCommands::Network, arg_views(args@), *context, *old(env), *final(env)),
{
    if args.len() == 0 {
        let lines = network_usage_text();
        print_env(env, &lines);
    } else {
        proof {
            lemma_arg_views_index(args@, 0);
        }
        if str_eq(args[0], "ip") {
            network_ip(env);
        } else if str_eq(args[0], "mac") {
            network_mac(env);
        } else {
            let line = join_strs(&[colors::ERROR, "Invalid network subcommand. Use 'ip' or 'mac'.",
                colors::RESET]);
            print_env_line(env, line);
        }
    }
}

/// Runs `reboot`.
fn run_reboot(args: &[&str], context: &CommandContext, env: &mut ShellEnv)
    requires
        old(env).wf(),
    ensures
        final(env).wf(),
        command_effect(BuiltinCommands::Reboot, arg_views(args@), *context, *old(env), *final(env)),
{
    let lines = reboot_text();
    print_env(env, &lines);
    env.halt_requested = true;
}

/// Runs `neofetch`.
fn run_neofetch(args: &[&str], context: &CommandContext, env: &mut ShellEnv)
    requires
        old(env).wf(),
    ensures
        final(env).wf(),
        command_effect(BuiltinCommands::Neofetch, arg_views(args@), *context, *old(env), *final(env)),
{
    display_system_info(&mut env.console, env.ticks, env.total_frames, env.free_frames);
}

/// Runs `version`.
fn run_version(args: &[&str], context: &CommandContext, env: &mut ShellEnv)
    requires
        old(env).wf(),
    ensures
        final(env).wf(),
        command_effect(BuiltinCommands::Version, arg_views(args@), *context, *old(env), *final(env)),
{
    let lines = version_text();
    print_env(env, &lines);
}

/// Runs `whoami`.
fn run_whoami(args: &[&str], context: &CommandContext, env: &mut ShellEnv)
    requires
        old(env).wf(),
    ensures
        final(env).wf(),
        command_effect(BuiltinCommands::Whoami, arg_views(args@), *context, *old(env), *final(env)),
{
    let line = String::from_str(context.current_user);
    print_env_line(env, line);
}

/// Runs `date`.
fn run_date(args: &[&str], context: &CommandContext, env: &mut ShellEnv)
    requires
        old(env).wf(),
    ensures
        final(env).wf(),
        command_effect(BuiltinCommands::Date, arg_views(args@), *context, *old(env), *final(env)),
{
    let seconds = env.ticks / 50;
    let mut lines: Vec<String> = Vec::new();
    let mut l = String::from_str("Boot time + ");
    push_dec(&mut l, seconds);
    push_str(&mut l, " seconds");
    push_line(&mut lines, l);
    push_line(&mut lines, join_strs(&[colors::DIM, "Note: RTC driver required for actual date/time",
        colors::RESET]));
    proof {
        let v = views(lines@);
        let w = date_lines(env.ticks as nat);
        assert(v[0] == w[0]);
        assert(v[1] == w[1]);
    }
    assert(views(lines@) =~= date_lines(env.ticks as nat));
    print_env(env, &lines);
}

impl CommandHandler for BuiltinCommands {
    open spec fn command_name(&self) -> Seq<char> {
        builtin_name(*self)
    }

    /// A built-in command succeeds, with the effect `command_effect` gives.
    open spec fn execute_effect(
        &self,
        args: Seq<Seq<char>>,
        context: CommandContext,
        before: ShellEnv,
        after: ShellEnv,
        r: CliResult<()>,
    ) -> bool {
        r is Ok && command_effect(*self, args, context, before, after)
    }

    open spec fn command_description(&self) -> Seq<char> {
        builtin_description(*self)
    }

    open spec fn command_usage(&self) -> Seq<char> {
        builtin_usage(*self)
    }

    fn name(&self) -> (r: &'static str) {
        match self {
            BuiltinCommands::Help => "help",
            BuiltinCommands::Clear => "clear",
            BuiltinCommands::Echo => "echo",
            BuiltinCommands::History => "history",
            BuiltinCommands::Uptime => "uptime",
            BuiltinCommands::MemInfo => "meminfo",
            BuiltinCommands::LsCpu => "lscpu",
            BuiltinCommands::Ps => "ps",
            BuiltinCommands::GenPass => "genpass",
            BuiltinCommands::Network => "network",
            BuiltinCommands::Reboot => "reboot",
            BuiltinCommands::Neofetch => "neofetch",
            BuiltinCommands::Version => "version",
            BuiltinCommands::Whoami => "whoami",
            BuiltinCommands::Date => "date",
        }
    }

    fn description(&self) -> &'static str {
        match self {
            BuiltinCommands::Help => "Display help information",
            BuiltinCommands::Clear => "Clear the terminal screen",
            BuiltinCommands::Echo => "Display a line of text",
            BuiltinCommands::History => "Show command history",
            BuiltinCommands::Uptime => "Show system uptime",
            BuiltinCommands::MemInfo => "Display memory information",
            BuiltinCommands::LsCpu => "Display CPU information",
            BuiltinCommands::Ps => "List running tasks",
            BuiltinCommands::GenPass => "Generate a secure password",
            BuiltinCommands::Network => "Network privacy tools",
            BuiltinCommands::Reboot => "Restart the system",
            BuiltinCommands::Neofetch => "Display system information",
            BuiltinCommands::Version => "Show OS version information",
            BuiltinCommands::Whoami => "Display current username",
            BuiltinCommands::Date => "Display current date and time",
        }
    }

    fn usage(&self) -> &'static str {
        match self {
            BuiltinCommands::Help => "help [command]",
            BuiltinCommands::Clear => "clear",
            BuiltinCommands::Echo => "echo [text...]",
            BuiltinCommands::History => "history",
            BuiltinCommands::Uptime => "uptime",
            BuiltinCommands::MemInfo => "meminfo",
            BuiltinCommands::LsCpu => "lscpu",
            BuiltinCommands::Ps => "ps",
            BuiltinCommands::GenPass => "genpass [length]",
            BuiltinCommands::Network => "network [ip|mac]",
            BuiltinCommands::Reboot => "reboot",
            BuiltinCommands::Neofetch => "neofetch",
            BuiltinCommands::Version => "version",
            BuiltinCommands::Whoami => "whoami",
            BuiltinCommands::Date => "date",
        }
    }

    fn execute(&self, args: &[&str], context: &CommandContext, env: &mut ShellEnv) -> (r: CliResult<()>)
        ensures
            r is Ok,
            command_effect(*self, arg_views(args@), *context, *old(env), *final(env)),
    {
        match self {
            BuiltinCommands::Help => run_help(args, context, env),
            BuiltinCommands::Clear => run_clear(args, context, env),
            BuiltinCommands::Echo => run_echo(args, context, env),
            BuiltinCommands::History => run_history(args, context, env),
            BuiltinCommands::Uptime => run_uptime(args, context, env),
            BuiltinCommands::MemInfo => run_meminfo(args, context, env),
            BuiltinCommands::LsCpu => run_lscpu(args, context, env),
            BuiltinCommands::Ps => run_ps(args, context, env),
            BuiltinCommands::GenPass => run_genpass(args, context, env),
            BuiltinCommands::Network => run_network(args, context, env),
            BuiltinCommands::Reboot => run_reboot(args, context, env),
            BuiltinCommands::Neofetch => run_neofetch(args, context, env),
            BuiltinCommands::Version => run_version(args, context, env),
            BuiltinCommands::Whoami => run_whoami(args, context, env),
            BuiltinCommands::Date => run_date(args, context, env),
        }
        Ok(())
    }
}

/// The built-in commands in the order the shell registers them.
pub open spec fn builtin_list() -> Seq<BuiltinCommands> {
    seq![
        BuiltinCommands::Help,
        BuiltinCommands::Clear,
        BuiltinCommands::Echo,
        BuiltinCommands::History,
        BuiltinCommands::Uptime,
        BuiltinCommands::MemInfo,
        BuiltinCommands::LsCpu,
        BuiltinCommands::Ps,
        BuiltinCommands::GenPass,
        BuiltinCommands::Network,
        BuiltinCommands::Reboot,
        BuiltinCommands::Neofetch,
        BuiltinCommands::Version,
        BuiltinCommands::Whoami,
        BuiltinCommands::Date,
    ]
}


/// The target of the first alias for `c`, or `c` itself.
pub open spec fn resolve(aliases: Seq<(&str, &str)>, c: Seq<char>) -> Seq<char>
    decreases aliases.len(),
{
    if aliases.len() == 0 {
        c
    } else if aliases[0].0@ == c {
        aliases[0].1@
    } else {
        resolve(aliases.drop_first(), c)
    }
}

/// The first command called `name`, if any.
pub open spec fn find_command(commands: Seq<BuiltinCommands>, name: Seq<char>) -> Option<BuiltinCommands>
    decreases commands.len(),
{
    if commands.len() == 0 {
        None
    } else if builtin_name(commands[0]) == name {
        Some(commands[0])
    } else {
        find_command(commands.drop_first(), name)
    }
}

/// Most command lines the history keeps.
pub const HISTORY_LIMIT: usize = 100;

/// The history after a command line: the oldest line goes when it is full.
pub open spec fn history_after(h: Seq<Seq<char>>, line: Seq<char>) -> Seq<Seq<char>> {
    if h.len() >= HISTORY_LIMIT {
        h.drop_first().push(line)
    } else {
        h.push(line)
    }
}

/// The shell.
pub struct ShellContext {
    pub context: CommandContext,
    /// The built-in commands, looked up first.
    pub commands: Vec<BuiltinCommands>,
    /// The commands registered later, in order, looked up after the
    /// built-in ones.
    pub user_commands: Vec<&'static dyn CommandHandler>,
    /// The name of each registered command, in the same order.
    pub user_names: Vec<String>,
    pub history: Vec<String>,
    pub aliases: Vec<(&'static str, &'static str)>,
}

impl ShellContext {
    /// The names of the registered commands, in the order of registration.
    pub open spec fn registered_names(&self) -> Seq<Seq<char>> {
        views(self.user_names@)
    }

    /// The registered commands, in the order of registration.
    pub open spec fn registered_handlers(&self) -> Seq<&'static dyn CommandHandler> {
        self.user_commands@
    }

    /// Each registered command has its name recorded.
    pub open spec fn wf(&self) -> bool {
        self.user_names@.len() == self.user_commands@.len()
    }

    /// A shell with the default context, the built-in commands, and no
    /// history or aliases.
    pub fn new() -> (r: Self)
        ensures
            r.wf(),
            r.commands@ == builtin_list(),
            r.registered_names().len() == 0,
            r.history@.len() == 0,
            r.aliases@.len() == 0,
            r.context.current_user@ == "root"@,
            r.context.hostname@ == "ironveil"@,
            r.context.working_directory@ == "/"@,
    {
        let mut shell = ShellContext {
            context: CommandContext::default(),
            commands: Vec::new(),
            user_commands: Vec::new(),
            user_names: Vec::new(),
            history: Vec::new(),
            aliases: Vec::new(),
        };
        shell.register_builtins();
        shell
    }

    /// Adds a command after the others; an earlier command of the same name
    /// still wins.
    pub fn register_command(&mut self, handler: &'static dyn CommandHandler)
        requires
            old(self).wf(),
        ensures
            final(self).wf(),
            final(self).registered_names() == old(self).registered_names().push(handler.command_name()),
            final(self).commands@ == old(self).commands@,
            final(self).history@ == old(self).history@,
            final(self).aliases@ == old(self).aliases@,
            final(self).context == old(self).context,
    {
        let n = self.user_commands.len();
        // `insert` at the end, with `insert_ensures` for the new length:
        // the length fact of `push` is not available for trait-object
        // elements.
        proof {
            self.user_commands@.insert_ensures(n as int, handler);
        }
        self.user_commands.insert(n, handler);
        let name = String::from_str(handler.name());
        push_line(&mut self.user_names, name);
        assert(views(self.user_names@).len() == self.user_names@.len());
    }


    /// Adds the built-in commands.
    fn register_builtins(&mut self)
        ensures
            final(self).commands@ == old(self).commands@ + builtin_list(),
            final(self).user_commands@ == old(self).user_commands@,
            final(self).user_names@ == old(self).user_names@,
            final(self).history@ == old(self).history@,
            final(self).aliases@ == old(self).aliases@,
            final(self).context == old(self).context,
    {
        self.commands.push(BuiltinCommands::Help);
        self.commands.push(BuiltinCommands::Clear);
        self.commands.push(BuiltinCommands::Echo);
        self.commands.push(BuiltinCommands::History);
        self.commands.push(BuiltinCommands::Uptime);
        self.commands.push(BuiltinCommands::MemInfo);
        self.commands.push(BuiltinCommands::LsCpu);
        self.commands.push(BuiltinCommands::Ps);
        self.commands.push(BuiltinCommands::GenPass);
        self.commands.push(BuiltinCommands::Network);
        self.commands.push(BuiltinCommands::Reboot);
        self.commands.push(BuiltinCommands::Neofetch);
        self.commands.push(BuiltinCommands::Version);
        self.commands.push(BuiltinCommands::Whoami);
        self.commands.push(BuiltinCommands::Date);
        assert(self.commands@ =~= old(self).commands@ + builtin_list());
    }

    /// The target of the first alias for `command`, or `command` itself.
    pub fn resolve_alias<'a>(&'a self, command: &'a str) -> (r: &'a str)
        ensures
            r@ == resolve(self.aliases@, command@),
    {
        let mut i: usize = 0;
        assert(self.aliases@.skip(0) =~= self.aliases@);
        while i < self.aliases.len()
            invariant
                i <= self.aliases@.len(),
                resolve(self.aliases@, command@) == resolve(self.aliases@.skip(i as int), command@),
            decreases self.aliases@.len() - i,
        {
            let (alias, target) = self.aliases[i];
            proof {
                assert(self.aliases@.skip(i as int)[0] == self.aliases@[i as int]);
                assert(self.aliases@.skip(i as int).drop_first() =~= self.aliases@.skip(i as int + 1));
            }
            if str_eq(alias, command) {
                return target;
            }
            i = i + 1;
        }
        command
    }

    /// The first command called `name`, if any.
    fn find(&self, name: &str) -> (r: Option<BuiltinCommands>)
        ensures
            r == find_command(self.commands@, name@),
    {
        let mut i: usize = 0;
        assert(self.commands@.skip(0) =~= self.commands@);
        while i < self.commands.len()
            invariant
                i <= self.commands@.len(),
                find_command(self.commands@, name@) == find_command(self.commands@.skip(i as int), name@),
            decreases self.commands@.len() - i,
        {
            let c = self.commands[i];
            proof {
                assert(self.commands@.skip(i as int)[0] == self.commands@[i as int]);
                assert(self.commands@.skip(i as int).drop_first() =~= self.commands@.skip(i as int + 1));
            }
            if str_eq(c.name(), name) {
                return Some(c);
            }
            i = i + 1;
        }
        None
    }

    /// Runs a command line: it is trimmed; an empty line does nothing.
    /// Otherwise the line goes into the history (the oldest of a full
    /// history is dropped), its first word, through the aliases, names the
    /// command, and the other words are the arguments.  The built-in
    /// commands are looked up first, then the registered ones in the order
    /// of registration; the command found runs once, and its result is the
    /// result.  A name no command has is reported and refused.
    pub fn execute_command(&mut self, input: &str, env: &mut ShellEnv) -> (r: CliResult<()>)
        requires
            old(env).wf(),
            old(self).wf(),
        ensures
            final(env).wf(),
            final(self).wf(),
            final(self).context == old(self).context,
            final(self).commands@ == old(self).commands@,
            final(self).registered_names() == old(self).registered_names(),
            final(self).registered_handlers() == old(self).registered_handlers(),
            final(self).aliases@ == old(self).aliases@,
            ({
                let t = trimmed(input@);
                let w = words(t);
                if t.len() == 0 {
                    &&& r is Ok
                    &&& final(self).history@ == old(self).history@
                    &&& *final(env) == *old(env)
                } else if w.len() == 0 {
                    &&& r is Ok
                    &&& views(final(self).history@) == history_after(views(old(self).history@), t)
                    &&& *final(env) == *old(env)
                } else {
                    &&& views(final(self).history@) == history_after(views(old(self).history@), t)
                    &&& match find_command(old(self).commands@, resolve(old(self).aliases@, w[0])) {
                        Some(c) => r is Ok && command_effect(c, w.drop_first(), old(self).context, *old(env),
                            *final(env)),
                        None => {
                            let n = resolve(old(self).aliases@, w[0]);
                            if old(self).registered_names().contains(n) {
                                let j = choose|j: int| first_named(old(self).registered_names(), n, j);
                                old(self).registered_handlers()[j].execute_effect(w.drop_first(), old(self).context,
                                    *old(env), *final(env), r)
                            } else {
                                r == Err::<(), CliError>(CliError::InvalidCommand) && printed(*old(env), *final(env),
                                    not_found_lines(w[0]))
                            }
                        },
                    }
                }
            }),
    {
        let trimmed_line = trim_ws(input);
        if trimmed_line.as_str().unicode_len() == 0 {
            return Ok(());
        }
        let ghost h0 = views(self.history@);
        if self.history.len() >= HISTORY_LIMIT {
            self.history.remove(0);
            assert(views(self.history@) =~= h0.drop_first());
        }
        let ghost h1 = views(self.history@);
        let entry = String::from_str(trimmed_line.as_str());
        push_line(&mut self.history, entry);
        assert(views(self.history@) =~= history_after(h0, trimmed(input@)));
        let parts = split_words(trimmed_line.as_str());
        if parts.len() == 0 {
            return Ok(());
        }
        let mut args: Vec<&str> = Vec::new();
        let mut k: usize = 1;
        while k < parts.len()
            invariant
                1 <= k <= parts@.len(),
                args@.len() == k - 1,
                forall|j: int| 0 <= j < args@.len() ==> #[trigger] args@[j]@ == parts@[j + 1]@,
            decreases parts@.len() - k,
        {
            args.push(parts[k].as_str());
            k = k + 1;
        }
        proof {
            let pv = parts@.map_values(|w: String| w@);
            assert(arg_views(args@) =~= pv.drop_first());
        }
        assert(arg_views(args@) == words(trimmed(input@)).drop_first());
        let command_name = parts[0].as_str();
        let resolved = self.resolve_alias(command_name);
        match self.find(resolved) {
            Some(cmd) => cmd.execute(args.as_slice(), &self.context, env),
            None => {
                let mut j: usize = 0;
                while j < self.user_names.len()
                    invariant
                        j <= self.user_names@.len(),
                        self.user_names@.len() == self.user_commands@.len(),
                        forall|i: int| 0 <= i < j ==> #[trigger] views(self.user_names@)[i] != resolved@,
                        self.context == old(self).context,
                        self.commands@ == old(self).commands@,
                        self.user_commands@ == old(self).user_commands@,
                        self.user_names@ == old(self).user_names@,
                        resolved@ == resolve(old(self).aliases@, words(trimmed(input@))[0]),
                        arg_views(args@) == words(trimmed(input@)).drop_first(),
                        self.aliases@ == old(self).aliases@,
                        views(self.history@) == history_after(views(old(self).history@), trimmed(input@)),
                        *env == *old(env),
                        env.wf(),
                        trimmed(input@).len() > 0,
                        words(trimmed(input@)).len() > 0,
                        find_command(old(self).commands@, resolve(old(self).aliases@, words(trimmed(input@))[0]))
                            is None,
                    decreases self.user_names@.len() - j,
                {
                    if str_eq(self.user_names[j].as_str(), resolved) {
                        proof {
                            assert(views(self.user_names@)[j as int] == resolved@);
                            assert(views(old(self).user_names@).contains(resolved@));
                            assert(first_named(views(old(self).user_names@), resolved@, j as int));
                        }
                        let cmd = self.user_commands[j];
                        let res = cmd.execute(args.as_slice(), &self.context, env);
                        proof {
                            let n = resolve(old(self).aliases@, words(trimmed(input@))[0]);
                            let j0 = choose|j0: int| first_named(old(self).registered_names(), n, j0);
                            assert(first_named(old(self).registered_names(), n, j0));
                            assert(j0 == j);
                        }
                        return res;
                    }
                    j = j + 1;
                }
                proof {
                    assert(!views(self.user_names@).contains(resolved@));
                }
                let mut lines: Vec<String> = Vec::new();
                let mut l = join_strs(&[colors::ERROR, "ironshell: "]);
                push_str(&mut l, command_name);
                push_str(&mut l, ": command not found");
                push_str(&mut l, colors::RESET);
                push_line(&mut lines, l);
                push_line(&mut lines, join_strs(&[colors::DIM, "Type 'help' for available commands.", colors::RESET]));
                proof {
                    let v = views(lines@);
                    let w = not_found_lines(parts@[0]@);
                    assert(v[0] == w[0]);
                    assert(v[1] == w[1]);
                }
                assert(views(lines@) =~= not_found_lines(parts@[0]@));
                print_env(env, &lines);
                Err(CliError::InvalidCommand)
            },
        }
    }

    /// Prints the prompt: `user@host:dir $ ` in colour.
    pub fn display_prompt(&self, con: &mut Console)
        requires
            old(con).wf(),
        ensures
            final(con).wf(),
            final(con).serial@ == old(con).serial@ + prompt_text(self.context),
    {
        let mut s = String::new();
        push_str(&mut s, colors::SUCCESS);
        push_str(&mut s, colors::BOLD);
        push_str(&mut s, self.context.current_user);
        push_str(&mut s, "@");
        push_str(&mut s, self.context.hostname);
        push_str(&mut s, colors::RESET);
        push_str(&mut s, ":");
        push_str(&mut s, colors::PRIMARY);
        push_str(&mut s, self.context.working_directory);
        push_str(&mut s, colors::RESET);
        push_str(&mut s, " $ ");
        push_str(&mut s, colors::RESET);
        assert(s@ =~= prompt_text(self.context));
        vprint(con, s.as_str());
    }
}

/// The prompt of a context.
pub open spec fn prompt_text(c: CommandContext) -> Seq<char> {
    colors::SUCCESS@ + colors::BOLD@ + c.current_user@ + "@"@ + c.hostname@ + colors::RESET@ + ":"@
        + colors::PRIMARY@ + c.working_directory@ + colors::RESET@ + " $ "@ + colors::RESET@
}

/// The history never holds more than `HISTORY_LIMIT` lines, and the line
/// just run is always its last.
pub proof fn law_history_bounded(h: Seq<Seq<char>>, line: Seq<char>)
    requires
        h.len() <= HISTORY_LIMIT,
    ensures
        history_after(h, line).len() <= HISTORY_LIMIT,
        history_after(h, line).last() == line,
{
}

/// The decimal digits of a number.
proof fn lemma_dec_digits(n: nat)
    ensures
        dec(n).len() > 0,
        all_digits(dec(n)),
        digits_value(dec(n)) == n,
    decreases n,
{
    let k = (n % 10) as int;
    assert(('0' as int) == 48);
    assert(hex_digit(k) as int - '0' as int == k) by {
        if k == 0 {} else if k == 1 {} else if k == 2 {} else if k == 3 {} else if k == 4 {}
        else if k == 5 {} else if k == 6 {} else if k == 7 {} else if k == 8 {} else {}
    }
    assert('0' <= hex_digit(k) <= '9');
    if n < 10 {
        let d = dec(n);
        assert(d == seq![hex_digit(k)]);
        assert(d.drop_last() =~= Seq::<char>::empty());
        assert(d.last() == hex_digit(k));
        assert(digits_value(d.drop_last()) == 0);
        assert(digits_value(d) == k);
    }
    if n >= 10 {
        lemma_dec_digits(n / 10);
        let d = dec(n);
        assert(d.drop_last() == dec(n / 10));
        assert(d.last() == hex_digit((n % 10) as int));
        assert(digits_value(d) == digits_value(d.drop_last()) * 10 + ((d.last() as int - '0' as int) as nat));
        assert(digits_value(d) == (n / 10) * 10 + n % 10);
        assert forall|i: int| 0 <= i < d.len() implies '0' <= #[trigger] d[i] <= '9' by {
            if i < d.len() - 1 {
                assert(d[i] == dec(n / 10)[i]);
            }
        }
    }
}

/// Reading a number's decimal text gives back the number.
pub proof fn law_parse_decimal(n: usize)
    ensures
        parsed_usize(dec(n as nat)) == Some(n),
{
    lemma_dec_digits(n as nat);
    let d = dec(n as nat);
    if d.len() > 1 && d[0] == '+' {
        assert('0' <= d[0] <= '9');
    }
    assert(unsigned_digits(d) == d);
}

} // verus!
