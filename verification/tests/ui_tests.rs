use ironveil::ironveil_ui::cli::colors;
use ironveil::ironveil_ui::cli::shell::{parse_usize, split_words, BuiltinCommands, CommandHandler, ShellContext, ShellEnv};
use ironveil::ironveil_ui::cli::{CliError, CommandContext};
use ironveil::ironveil_ui::neofetch::system_info::{format_uptime, MemoryInfo, SystemInfo as NeoInfo};
use ironveil::ironveil_ui::tui::menu::{IronVeilMenu, MenuAction, MenuFunction};
use ironveil::ironveil_ui::tui::status_panel::StatusPanel;
use ironveil::ironveil_ui::tui::{Screen, TUIApplication};
use ironveil::ironveil_ui::{
    Buffer, InputEvent, IronVeilError, KeyCode, KeyEvent, KeyModifiers, Menu, Rect, UIComponent,
};
use ironveil::nexis_kernel::drivers::vga::Console;
use ironveil::text::{str_contains, trim_ws};
use ironveil::ironveil_ui::tui::rust_theme::{high_contrast_theme, rust_light_theme, rust_theme, ThemeManager};

fn key(code: KeyCode) -> KeyEvent {
    KeyEvent { code, modifiers: KeyModifiers { ctrl: false, alt: false, shift: false } }
}

fn env() -> ShellEnv {
    ShellEnv { console: Console::new(), ticks: 0, total_frames: 1024, free_frames: 256, halt_requested: false }
}

#[test]
fn menu_next_then_previous_returns() {
    let mut m = IronVeilMenu::main_menu();
    assert_eq!(m.get_selected(), Some(0));
    m.select_next();
    assert_eq!(m.get_selected(), Some(1));
    m.select_previous();
    assert_eq!(m.get_selected(), Some(0));
    m.select_previous();
    assert_eq!(m.get_selected(), Some(5));
    m.select_next();
    assert_eq!(m.get_selected(), Some(0));
}

#[test]
fn menu_window_follows_selection() {
    let mut m = IronVeilMenu::new("Long");
    for _ in 0..20 {
        m.add_item("x", ironveil::ironveil_ui::tui::menu::MenuAction::Command(String::from("ls")));
    }
    for _ in 0..16 {
        m.select_next();
    }
    assert_eq!(m.get_selected(), Some(16));
    assert_eq!(m.scroll_offset(), 2);
    m.select_previous();
    m.select_previous();
    m.select_previous();
    assert_eq!(m.scroll_offset(), 2);
    for _ in 0..14 {
        m.select_previous();
    }
    assert_eq!(m.get_selected(), Some(19));
    assert_eq!(m.scroll_offset(), 5);
}

#[test]
fn empty_menu_refuses_enter() {
    let mut m = IronVeilMenu::new("Empty");
    assert_eq!(m.get_selected(), None);
    assert_eq!(m.execute_selected(), Err(IronVeilError::InvalidInput));
    assert_eq!(m.handle_input(InputEvent::Key(key(KeyCode::Enter))), Err(IronVeilError::InvalidInput));
}

#[test]
fn main_menu_labels() {
    let m = IronVeilMenu::main_menu();
    assert_eq!(m.len(), 6);
    assert_eq!(m.label(0), "Privacy & Security");
    assert_eq!(m.label(5), "Exit");
}

#[test]
fn tui_keys_switch_screens() {
    let mut app = TUIApplication::new();
    assert_eq!(app.current_screen(), Screen::Main);
    app.handle_key(key(KeyCode::Down)).unwrap();
    assert_eq!(app.current_screen(), Screen::Network);
    app.handle_key(key(KeyCode::Escape)).unwrap();
    assert_eq!(app.current_screen(), Screen::Main);
    app.handle_key(key(KeyCode::Tab)).unwrap();
    assert_eq!(app.current_screen(), Screen::Privacy);
    app.handle_key(key(KeyCode::Tab)).unwrap();
    app.handle_key(key(KeyCode::Tab)).unwrap();
    app.handle_key(key(KeyCode::Tab)).unwrap();
    assert_eq!(app.current_screen(), Screen::Main);
    app.handle_key(key(KeyCode::Char('q'))).unwrap();
    assert!(!app.should_quit());
    let ctrl_q = KeyEvent { code: KeyCode::Char('q'), modifiers: KeyModifiers { ctrl: true, alt: false, shift: false } };
    app.handle_key(ctrl_q).unwrap();
    assert!(app.should_quit());
}

#[test]
fn status_panel_lines_after_refresh() {
    let mut panel = StatusPanel::new();
    panel.update().unwrap();
    assert_eq!(panel.update_counter(), 1);
    let lines = panel.get_status_lines();
    assert_eq!(lines.len(), 20);
    assert_eq!(lines[0], "=== SYSTEM STATUS ===");
    assert_eq!(lines[1], "Uptime: 0h 0m 0s");
    assert_eq!(lines[5], "Total:  128.0 MB");
    assert_eq!(lines[8], "Usage:  50%");
    assert_eq!(lines[11], "Interface: eth0");
    assert_eq!(lines[12], "  MAC: 52:54:00:12:34:56");
    assert_eq!(lines[13], "  IP:  192.168.1.100");
    assert_eq!(lines[14], "  Status: UP");
    assert_eq!(lines[17], "Tor: Running");
    assert_eq!(lines[19], "VPN: Disconnected");
}

#[test]
fn status_panel_scrolls_within_lines() {
    let mut panel = StatusPanel::new();
    panel.update().unwrap();
    assert_eq!(panel.handle_input(InputEvent::Key(key(KeyCode::Up))), Ok(true));
    assert_eq!(panel.scroll_offset(), 0);
    panel.handle_input(InputEvent::Key(key(KeyCode::Down))).unwrap();
    panel.handle_input(InputEvent::Key(key(KeyCode::Down))).unwrap();
    panel.handle_input(InputEvent::Key(key(KeyCode::Down))).unwrap();
    assert_eq!(panel.scroll_offset(), 2);
    assert_eq!(panel.handle_input(InputEvent::Key(key(KeyCode::Left))), Ok(false));
}

#[test]
fn memory_size_matches_float_formatting() {
    let panel = StatusPanel::new();
    let samples: [usize; 14] = [
        0, 1, 1023, 1024, 1536, 1075, 1126, 10239, 1048575, 1048576, 1572864, 134217728, 1073741824, 5_000_000_000,
    ];
    for &b in samples.iter() {
        let expected = if b >= 1024 * 1024 * 1024 {
            format!("{:.1} GB", b as f64 / (1024.0 * 1024.0 * 1024.0))
        } else if b >= 1024 * 1024 {
            format!("{:.1} MB", b as f64 / (1024.0 * 1024.0))
        } else if b >= 1024 {
            format!("{:.1} KB", b as f64 / 1024.0)
        } else {
            format!("{} B", b)
        };
        assert_eq!(panel.format_memory_size(b), expected, "bytes {}", b);
    }
    for b in (1024usize..40_000).step_by(37) {
        assert_eq!(panel.format_memory_size(b), format!("{:.1} KB", b as f64 / 1024.0), "bytes {}", b);
    }
}

#[test]
fn neofetch_uptime_words() {
    assert_eq!(format_uptime(5), "5 seconds");
    assert_eq!(format_uptime(65), "1:05");
    assert_eq!(format_uptime(3_725), "1:02:05");
    assert_eq!(format_uptime(90_061), "1 days, 1:01:01");
}

#[test]
fn neofetch_memory_figures() {
    let m = MemoryInfo::collect(1024, 256);
    assert_eq!(m.total_kb, 4096);
    assert_eq!(m.used_kb, 3072);
    assert_eq!(m.free_kb, 1024);
    assert_eq!(m.usage_percent(), 75);
    let info = NeoInfo::collect(500, 1024, 256);
    assert_eq!(info.uptime_seconds, 10);
    assert_eq!(info.os_name, "IronVeil OS");
}

#[test]
fn shell_parses_numbers_like_std() {
    for s in ["0", "7", "+5", "123", "", "+", "-1", "12a", " 1", "18446744073709551615", "18446744073709551616", "00042"] {
        assert_eq!(parse_usize(s), s.parse::<usize>().ok(), "text {:?}", s);
    }
}

#[test]
fn shell_words_and_trim_like_std() {
    for s in ["  help  me ", "\tone\u{3000}two\n", "", "   ", "a", "x\u{85}y"] {
        let words: Vec<String> = s.split_whitespace().map(String::from).collect();
        assert_eq!(split_words(s), words);
        assert_eq!(trim_ws(s), s.trim());
    }
}

#[test]
fn substring_search_like_std() {
    for (s, p) in [("TEST: a: PASS", "TEST:"), ("abc", ""), ("", "a"), ("aaab", "aab"), ("abc", "abcd")] {
        assert_eq!(str_contains(s, p), s.contains(p));
    }
}

#[test]
fn shell_history_keeps_the_last_hundred() {
    let mut shell = ShellContext::new();
    let mut e = env();
    for i in 0..105 {
        let line = format!("  echo {}  ", i);
        shell.execute_command(&line, &mut e).unwrap();
    }
    assert_eq!(shell.history.len(), 100);
    assert_eq!(shell.history[0], "echo 5");
    assert_eq!(shell.history[99], "echo 104");
}

#[test]
fn shell_unknown_command_is_refused() {
    let mut shell = ShellContext::new();
    let mut e = env();
    assert_eq!(shell.execute_command("frobnicate now", &mut e), Err(CliError::InvalidCommand));
    let expected = format!(
        "{}ironshell: frobnicate: command not found{}\n{}Type 'help' for available commands.{}\n",
        colors::ERROR,
        colors::RESET,
        colors::DIM,
        colors::RESET
    );
    assert_eq!(e.console.serial, expected);
    assert_eq!(shell.execute_command("   ", &mut e), Ok(()));
    assert_eq!(shell.history.len(), 1);
}

#[test]
fn shell_echo_and_whoami() {
    let mut shell = ShellContext::new();
    let mut e = env();
    shell.execute_command("echo  hello   world", &mut e).unwrap();
    shell.execute_command("whoami", &mut e).unwrap();
    assert_eq!(e.console.serial, "hello world\nroot\n");
}

#[test]
fn shell_aliases_resolve() {
    let mut shell = ShellContext::new();
    shell.aliases.push(("me", "whoami"));
    let mut e = env();
    shell.execute_command("me", &mut e).unwrap();
    assert_eq!(e.console.serial, "root\n");
    assert_eq!(shell.resolve_alias("ls"), "ls");
}

#[test]
fn genpass_lengths_and_characters() {
    let mut e = env();
    let ctx = CommandContext::default();
    BuiltinCommands::GenPass.execute(&["3"], &ctx, &mut e).unwrap();
    let line = e.console.serial.clone();
    let prefix = format!("{}Generated password:{} ", colors::SUCCESS, colors::RESET);
    assert!(line.starts_with(&prefix));
    let pass: Vec<char> = line[prefix.len()..].trim_end_matches('\n').chars().collect();
    assert_eq!(pass.len(), 8);
    assert!(pass.iter().all(|c| ('!'..='~').contains(c)));
    let mut e2 = env();
    BuiltinCommands::GenPass.execute(&[], &ctx, &mut e2).unwrap();
    let pass2: Vec<char> = e2.console.serial[prefix.len()..].trim_end_matches('\n').chars().collect();
    assert_eq!(pass2.len(), 16);
    assert_eq!(&pass2[..8], &pass[..]);
}

#[test]
fn network_mac_is_local_unicast() {
    let mut e = env();
    let ctx = CommandContext::default();
    BuiltinCommands::Network.execute(&["mac"], &ctx, &mut e).unwrap();
    let prefix = format!("{}Random MAC:{} ", colors::SUCCESS, colors::RESET);
    let text = e.console.serial[prefix.len()..].trim_end().to_string();
    let first = u8::from_str_radix(&text[0..2], 16).unwrap();
    assert_eq!(first & 0x01, 0);
    assert_eq!(first & 0x02, 0x02);
    assert_eq!(text.split(':').count(), 6);
}

#[test]
fn meminfo_and_uptime_lines() {
    let mut e = env();
    e.ticks = 50 * 3_725;
    let ctx = CommandContext::default();
    BuiltinCommands::Uptime.execute(&[], &ctx, &mut e).unwrap();
    let up = format!("{}up {}1:02, load average: 0.00, 0.00, 0.00\n", colors::PRIMARY, colors::RESET);
    assert_eq!(e.console.serial, up);
    let mut e2 = env();
    BuiltinCommands::MemInfo.execute(&[], &ctx, &mut e2).unwrap();
    assert!(e2.console.serial.contains("  Total:     4096 KB\n"));
    assert!(e2.console.serial.contains("  Frames:    1024 total, 768 used, 256 free\n"));
}

#[test]
fn reboot_asks_to_halt() {
    let mut e = env();
    let ctx = CommandContext::default();
    BuiltinCommands::Reboot.execute(&[], &ctx, &mut e).unwrap();
    assert!(e.halt_requested);
}

#[test]
fn main_menu_draw_list_places_title_items_and_description() {
    let menu = IronVeilMenu::main_menu();
    let draws = menu.draw_list(Rect::new(0, 3, 60, 20));
    assert_eq!(draws.len(), 15);
    assert_eq!((draws[0].x, draws[0].y, draws[0].text.as_str()), (20, 4, "IronVeil - Main Menu"));
    assert_eq!((draws[0].fg, draws[0].bg), ((255, 255, 255), (206, 66, 43)));
    assert_eq!((draws[1].x, draws[1].y, draws[1].text.as_str()), (2, 6, ">"));
    assert_eq!((draws[2].x, draws[2].y, draws[2].text.as_str()), (4, 6, "Privacy & Security"));
    assert_eq!((draws[2].fg, draws[2].bg), ((24, 24, 24), (206, 66, 43)));
    assert_eq!((draws[3].text.as_str(), draws[3].fg), (" ", (255, 255, 255)));
    assert_eq!((draws[4].x, draws[4].y, draws[4].text.as_str()), (4, 7, "Network Tools"));
    assert_eq!((draws[13].x, draws[13].y, draws[13].text.as_str()), (2, 20, "Description:"));
    assert_eq!((draws[14].y, draws[14].text.as_str()), (21, "Access privacy tools and security settings"));
}

#[test]
fn scrolled_menu_draws_both_arrows() {
    let mut menu = IronVeilMenu::new("List");
    for _ in 0..20 {
        menu.add_item("Item", MenuAction::Function(MenuFunction::SettingsMenu));
    }
    for _ in 0..16 {
        menu.select_next();
    }
    assert_eq!(menu.scroll_offset(), 2);
    let draws = menu.draw_list(Rect::new(0, 0, 40, 24));
    // Title, fifteen rows of two draws, then the two arrows.
    assert_eq!(draws.len(), 1 + 30 + 2);
    assert_eq!((draws[31].x, draws[31].y, draws[31].text.as_str()), (38, 3, "\u{2191}"));
    assert_eq!((draws[32].x, draws[32].y, draws[32].text.as_str()), (38, 17, "\u{2193}"));
    let mut buf = Buffer { area: Rect::new(0, 0, 40, 24), content: Vec::new() };
    assert!(menu.render(Rect::new(0, 0, 40, 24), &mut buf).is_ok());
    assert!(buf.content.is_empty());
}

#[test]
fn status_panel_draw_list_cuts_lines_and_colours_them() {
    let panel = StatusPanel::new();
    let draws = panel.draw_list(Rect::new(60, 3, 20, 20));
    assert_eq!(draws.len(), 16);
    assert_eq!((draws[0].x, draws[0].y, draws[0].text.as_str()), (63, 4, "System Status"));
    assert_eq!((draws[0].fg, draws[0].bg), ((255, 255, 255), (140, 48, 36)));
    assert_eq!((draws[1].x, draws[1].y, draws[1].text.as_str()), (62, 6, "=== SYSTEM STATU"));
    assert_eq!((draws[1].fg, draws[1].bg), ((206, 66, 43), (24, 24, 24)));
    assert_eq!((draws[2].text.as_str(), draws[2].fg), ("Uptime: 0h 0m 0s", (45, 45, 45)));
    assert_eq!((draws[4].text.as_str(), draws[4].fg), ("", (255, 255, 255)));
}

#[test]
fn refreshed_status_panel_shows_a_down_arrow() {
    let mut panel = StatusPanel::new();
    panel.update_system_info().unwrap();
    let draws = panel.draw_list(Rect::new(60, 3, 20, 20));
    assert_eq!(draws.len(), 18);
    assert_eq!((draws[12].text.as_str(), draws[12].fg), ("Interface: eth0", (45, 45, 45)));
    assert_eq!((draws[13].text.as_str(), draws[13].fg), ("  MAC: 52:54:00:", (255, 255, 255)));
    assert_eq!((draws[17].x, draws[17].y, draws[17].text.as_str()), (78, 21, "\u{2193}"));
    let mut buf = Buffer { area: Rect::new(0, 0, 80, 25), content: Vec::new() };
    assert!(panel.render(Rect::new(60, 3, 20, 20), &mut buf).is_ok());
    assert!(buf.content.is_empty());
}

#[test]
fn builtin_commands_describe_themselves() {
    assert_eq!(BuiltinCommands::Help.description(), "Display help information");
    assert_eq!(BuiltinCommands::GenPass.description(), "Generate a secure password");
    assert_eq!(BuiltinCommands::Date.description(), "Display current date and time");
    assert_eq!(BuiltinCommands::Help.usage(), "help [command]");
    assert_eq!(BuiltinCommands::Echo.usage(), "echo [text...]");
    assert_eq!(BuiltinCommands::Network.usage(), "network [ip|mac]");
    assert_eq!(BuiltinCommands::Ps.usage(), "ps");
}

#[test]
fn themes_cycle_in_list_order() {
    let mut m = ThemeManager::new();
    assert!(m.set_theme_by_name("Rust Light"));
    m.cycle_theme();
    assert_eq!(*m.get_current_theme(), high_contrast_theme());
    assert_eq!(m.get_current_theme().background, (0, 0, 0));
    assert_eq!(m.get_current_theme().primary, (255, 255, 255));
    m.cycle_theme();
    assert_eq!(*m.get_current_theme(), rust_theme());
    m.cycle_theme();
    assert_eq!(*m.get_current_theme(), rust_light_theme());
}

#[test]
fn system_info_keys_reach_the_status_panel() {
    let mut app = TUIApplication::new();
    for _ in 0..3 {
        app.handle_key(key(KeyCode::Tab)).unwrap();
    }
    assert_eq!(app.current_screen(), Screen::SystemInfo);
    assert_eq!(app.status_panel().update_counter(), 0);
    app.handle_key(key(KeyCode::Char('r'))).unwrap();
    assert_eq!(app.status_panel().update_counter(), 1);
    app.handle_key(key(KeyCode::Char('x'))).unwrap();
    assert_eq!(app.status_panel().update_counter(), 1);
    assert_eq!(app.status_panel().scroll_offset(), 0);
    app.handle_key(key(KeyCode::Up)).unwrap();
    assert_eq!(app.status_panel().scroll_offset(), 0);
    assert_eq!(app.current_screen(), Screen::SystemInfo);
}

#[test]
fn registered_commands_are_kept_after_the_builtins() {
    let mut shell = ShellContext::new();
    assert_eq!(shell.user_commands.len(), 0);
    shell.register_command(&BuiltinCommands::Whoami);
    assert_eq!(shell.user_commands.len(), 1);
    assert_eq!(shell.user_commands[0].name(), "whoami");
    assert_eq!(shell.user_names, vec!["whoami".to_string()]);
    let mut e = env();
    shell.execute_command("whoami", &mut e).unwrap();
    assert_eq!(e.console.serial, "root\n");
    assert_eq!(shell.execute_command("wave", &mut e), Err(CliError::InvalidCommand));
    assert_eq!(shell.history.len(), 2);
}
