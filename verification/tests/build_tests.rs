use ironveil::build_tools::live_usb::{BootloaderSetup, PartitionLayout, UsbImageBuilder, UsbImageOptions};
use ironveil::build_tools::qemu_runner::{QemuOptions, QemuRunner};
use ironveil::build_tools::{BuildConfig, BuildError, MenuEntry};

#[test]
fn test_default_config_creation() {
    let config = BuildConfig::default();
    assert_eq!(config.target, "x86_64-nexis");
    assert_eq!(config.qemu.memory_mb, 512);
    assert_eq!(config.usb.size_mb, 256);
}

#[test]
fn test_qemu_options_default() {
    let options = QemuOptions::default();
    assert_eq!(options.memory_mb, 512);
    assert!(options.enable_kvm);
    assert!(options.capture_serial);
}

#[test]
fn test_parse_test_output() {
    let config = BuildConfig::default();
    let runner = QemuRunner::new(config);
    let test_line = "TEST: memory_allocation: PASS";
    let result = runner.parse_test_output(test_line);
    assert!(result.is_some());
    let test_case = result.unwrap();
    assert_eq!(test_case.name, "memory_allocation");
    assert!(test_case.passed);
}

#[test]
fn parse_test_output_other_lines() {
    let runner = QemuRunner::new(BuildConfig::default());
    let failed = runner.parse_test_output("  TEST: heap :FAIL  \n").unwrap();
    assert_eq!(failed.name, "heap");
    assert!(!failed.passed);
    assert_eq!(failed.output, "TEST: heap :FAIL");
    assert!(runner.parse_test_output("TEST: only").is_none());
    assert!(runner.parse_test_output("booting: a: OK").is_none());
    assert!(runner.parse_test_output("TEST:x:OK").unwrap().passed);
}

#[test]
fn test_usb_image_options_default() {
    let options = UsbImageOptions::default();
    assert_eq!(options.size_mb, 256);
    assert_eq!(options.filesystem, "fat32");
    assert!(options.include_privacy_tools);
}

#[test]
fn test_partition_layout_creation() {
    let config = BuildConfig::default();
    let builder = UsbImageBuilder::new(config);
    let options = UsbImageOptions { size_mb: 512, ..Default::default() };
    let layout = builder.create_partition_layout(&options).unwrap();
    assert_eq!(layout.boot_size_mb, 64);
    assert!(layout.data_size_mb > 0);
    assert_eq!(layout.data_size_mb, 432);
    let small = UsbImageOptions { size_mb: 80, ..Default::default() };
    assert_eq!(builder.create_partition_layout(&small).unwrap().data_size_mb, 0);
}

#[test]
fn qemu_command_line() {
    let runner = QemuRunner::new(BuildConfig::default());
    let mut options = QemuOptions::default();
    options.enable_network = true;
    options.extra_args.push(String::from("-no-reboot"));
    let cmd = runner.build_qemu_command(&options).unwrap();
    assert_eq!(cmd.program, "qemu-system-x86_64");
    let expected = [
        "-drive", "format=raw,file=bootimage.bin", "-m", "512", "-serial", "stdio", "-display", "none", "-enable-kvm",
        "-netdev", "user,id=net0", "-device", "rtl8139,netdev=net0", "-no-reboot",
    ];
    assert_eq!(cmd.args, expected);
}

#[test]
fn interactive_command_line() {
    let runner = QemuRunner::new(BuildConfig::default());
    let cmd = runner.interactive_command("img.bin", false);
    let expected = ["-drive", "format=raw,file=img.bin", "-m", "512", "-netdev", "user,id=net0", "-device", "rtl8139,netdev=net0"];
    assert_eq!(cmd.args, expected);
}

#[test]
fn output_lines_decide_the_run() {
    let runner = QemuRunner::new(BuildConfig::default());
    let options = runner.boot_test_options(String::from("img"));
    let mut out = String::new();
    let mut cases = Vec::new();
    assert_eq!(runner.scan_output_line("loading\n", &options, &mut out, &mut cases), None);
    assert_eq!(runner.scan_output_line("TEST: a: PASS\n", &options, &mut out, &mut cases), None);
    assert_eq!(cases.len(), 1);
    assert_eq!(runner.scan_output_line("kernel panic!\n", &options, &mut out, &mut cases), Some(false));
    assert_eq!(runner.scan_output_line("Welcome to IronVeil\n", &options, &mut out, &mut cases), Some(true));
    assert_eq!(out, "loading\nTEST: a: PASS\nkernel panic!\nWelcome to IronVeil\n");
}

#[test]
fn syslinux_configuration_text() {
    let mut config = BuildConfig::default();
    config.usb.bootloader.menu_entries.push(MenuEntry {
        label: String::from("Safe Mode"),
        kernel: String::from("/ironveil.bin"),
        cmdline: String::new(),
    });
    let builder = UsbImageBuilder::new(config);
    let setup = builder.create_bootloader_setup(&UsbImageOptions::default()).unwrap();
    let text = builder.create_syslinux_config(&setup, None).unwrap();
    let expected = "DEFAULT ironveil\nTIMEOUT 50\n\nLABEL ironveil_os\n  MENU LABEL IronVeil OS\n  KERNEL /ironveil.bin\n  APPEND quiet\n\nLABEL safe_mode\n  MENU LABEL Safe Mode\n  KERNEL /ironveil.bin\n";
    assert_eq!(text, expected);
    let with_splash = builder.create_syslinux_config(&setup, Some("splash.png")).unwrap();
    assert!(with_splash.starts_with("DEFAULT ironveil\nTIMEOUT 50\nMENU BACKGROUND splash.png\n"));
}

#[test]
fn partition_and_format_commands() {
    let builder = UsbImageBuilder::new(BuildConfig::default());
    let layout = PartitionLayout {
        boot_size_mb: 64,
        data_size_mb: 100,
        boot_filesystem: String::from("fat32"),
        data_filesystem: String::from("ext4"),
    };
    let cmds = builder.partition_commands("img", &layout);
    assert_eq!(cmds.len(), 2);
    assert_eq!(cmds[0].args[8], "65MiB");
    assert_eq!(cmds[1].args, ["img", "--script", "mkpart", "primary", "ext4", "65MiB", "165MiB"]);
    let fmt = builder.format_commands("/dev/loop0", &layout, "IRONVEIL").unwrap();
    assert_eq!(fmt[0].args, ["-F", "32", "-n", "IRONVEIL_BOOT", "/dev/loop0p1"]);
    assert_eq!(fmt[1].program, "mkfs.ext4");
    let bad = PartitionLayout { data_filesystem: String::from("ntfs"), ..layout };
    match builder.format_commands("/dev/loop0", &bad, "IRONVEIL") {
        Err(BuildError::Usb(m)) => assert_eq!(m, "Unsupported filesystem: ntfs"),
        _ => panic!("ntfs accepted"),
    }
}

#[test]
fn build_error_messages() {
    assert_eq!(BuildError::Qemu(String::from("x")).message(), "QEMU error: x");
    assert_eq!(BuildError::Config(String::from("y")).message(), "Configuration error: y");
}

#[test]
fn bootloader_setup_defaults() {
    let builder = UsbImageBuilder::new(BuildConfig::default());
    let setup: BootloaderSetup = builder.create_bootloader_setup(&UsbImageOptions::default()).unwrap();
    assert_eq!(setup.bootloader_type, "syslinux");
    assert_eq!(setup.timeout, 5);
    assert!(setup.splash_image.is_none());
}

#[test]
fn reported_tests_are_recorded_last() {
    let runner = QemuRunner::new(BuildConfig::default());
    let options = runner.boot_test_options(String::from("img"));
    let mut out = String::new();
    let mut cases = Vec::new();
    runner.scan_output_line("TEST: first: PASS\n", &options, &mut out, &mut cases);
    runner.scan_output_line("  TEST: second : FAILED \n", &options, &mut out, &mut cases);
    assert_eq!(cases.len(), 2);
    let last = cases.last().unwrap();
    assert_eq!(last.name, "second");
    assert!(!last.passed);
    assert_eq!(last.output, "TEST: second : FAILED");
    assert_eq!(last.duration_ms, 0);
}

#[test]
fn device_listings_give_no_devices() {
    let builder = UsbImageBuilder::new(BuildConfig::default());
    let lsblk = r#"{"blockdevices": [{"name": "sdb", "size": "14.9G", "type": "disk"}]}"#;
    assert!(builder.parse_lsblk_output(lsblk).unwrap().is_empty());
    assert!(builder.parse_diskutil_output("<plist></plist>").unwrap().is_empty());
}
