//! Build configuration for IronVeil images: the toolchain target, QEMU,
//! the live USB image and the build artifacts.
pub mod live_usb;
pub mod qemu_runner;

use vstd::prelude::*;
use crate::text::{push_str, string_of};

verus! {

/// Where and how the system is built.
#[derive(Debug, Clone)]
pub struct BuildConfig {
    /// Project root directory.
    pub project_root: String,
    /// Target triple.
    pub target: String,
    pub qemu: QemuConfig,
    pub usb: UsbConfig,
    pub artifacts: ArtifactsConfig,
}

/// How QEMU runs the system.
#[derive(Debug, Clone)]
pub struct QemuConfig {
    /// The QEMU program.
    pub executable: String,
    /// Guest memory in MB.
    pub memory_mb: u32,
    /// Use KVM when the host has it.
    pub enable_kvm: bool,
    /// Capture the serial console.
    pub serial_output: bool,
    pub network: NetworkConfig,
    pub display: DisplayConfig,
    /// Time limit of a run, in milliseconds.
    pub timeout_ms: u64,
}

/// The guest's network.
#[derive(Debug, Clone)]
pub struct NetworkConfig {
    pub enabled: bool,
    /// `user`, `tap` or `bridge`.
    pub mode: String,
    /// Host port to guest port.
    pub port_forwards: Vec<(u16, u16)>,
}

/// The guest's display.
#[derive(Debug, Clone)]
pub struct DisplayConfig {
    /// `gtk`, `sdl`, `vnc` or `none`.
    pub display_type: String,
    pub vnc_port: Option<u16>,
}

/// The live USB image.
#[derive(Debug, Clone)]
pub struct UsbConfig {
    /// Image size in MB.
    pub size_mb: u32,
    /// `fat32` or `ext4`.
    pub filesystem: String,
    pub bootloader: BootloaderConfig,
    /// More files to put on the image.
    pub include_files: Vec<String>,
}

/// The image's boot loader.
#[derive(Debug, Clone)]
pub struct BootloaderConfig {
    /// `syslinux` or `grub2`.
    pub bootloader_type: String,
    /// Boot menu timeout in seconds.
    pub timeout: u32,
    pub menu_entries: Vec<MenuEntry>,
}

/// One boot menu entry.
#[derive(Debug, Clone)]
pub struct MenuEntry {
    pub label: String,
    pub kernel: String,
    pub cmdline: String,
}

/// Names and places of the build's outputs.
#[derive(Debug, Clone)]
pub struct ArtifactsConfig {
    pub output_dir: String,
    pub kernel_name: String,
    pub bootimage_name: String,
    pub usb_image_name: String,
}

/// The default QEMU settings: `qemu-system-x86_64`, 512 MB, KVM and serial
/// on, user networking, no display, 30 s.
pub open spec fn default_qemu(q: QemuConfig) -> bool {
    &&& q.executable@ == "qemu-system-x86_64"@
    &&& q.memory_mb == 512
    &&& q.enable_kvm
    &&& q.serial_output
    &&& q.network.enabled
    &&& q.network.mode@ == "user"@
    &&& q.network.port_forwards@.len() == 0
    &&& q.display.display_type@ == "none"@
    &&& q.display.vnc_port is None
    &&& q.timeout_ms == 30000
}

/// The default boot loader: SYSLINUX, 5 s, one entry `IronVeil OS` booting
/// `/ironveil.bin` quietly.
pub open spec fn default_bootloader(b: BootloaderConfig) -> bool {
    &&& b.bootloader_type@ == "syslinux"@
    &&& b.timeout == 5
    &&& b.menu_entries@.len() == 1
    &&& b.menu_entries@[0].label@ == "IronVeil OS"@
    &&& b.menu_entries@[0].kernel@ == "/ironveil.bin"@
    &&& b.menu_entries@[0].cmdline@ == "quiet"@
}

/// The default image: 256 MB of FAT32 with the default boot loader.
pub open spec fn default_usb(u: UsbConfig) -> bool {
    &&& u.size_mb == 256
    &&& u.filesystem@ == "fat32"@
    &&& default_bootloader(u.bootloader)
    &&& u.include_files@.len() == 0
}

/// The default artifact names.
pub open spec fn default_artifacts(a: ArtifactsConfig) -> bool {
    &&& a.output_dir@ == "target/build_artifacts"@
    &&& a.kernel_name@ == "nexis"@
    &&& a.bootimage_name@ == "bootimage-nexis.bin"@
    &&& a.usb_image_name@ == "ironveil-live.img"@
}

impl Default for BuildConfig {
    fn default() -> (r: Self)
        ensures
            r.project_root@ == "."@,
            r.target@ == "x86_64-nexis"@,
            default_qemu(r.qemu),
            default_usb(r.usb),
            default_artifacts(r.artifacts),
    {
        BuildConfig {
            project_root: string_of("."),
            target: string_of("x86_64-nexis"),
            qemu: QemuConfig::default(),
            usb: UsbConfig::default(),
            artifacts: ArtifactsConfig::default(),
        }
    }
}

impl Default for QemuConfig {
    fn default() -> (r: Self)
        ensures
            default_qemu(r),
    {
        QemuConfig {
            executable: string_of("qemu-system-x86_64"),
            memory_mb: 512,
            enable_kvm: true,
            serial_output: true,
            network: NetworkConfig::default(),
            display: DisplayConfig::default(),
            timeout_ms: 30000,
        }
    }
}

impl Default for NetworkConfig {
    fn default() -> (r: Self)
        ensures
            r.enabled,
            r.mode@ == "user"@,
            r.port_forwards@.len() == 0,
    {
        NetworkConfig { enabled: true, mode: string_of("user"), port_forwards: Vec::new() }
    }
}

impl Default for DisplayConfig {
    fn default() -> (r: Self)
        ensures
            r.display_type@ == "none"@,
            r.vnc_port is None,
    {
        DisplayConfig { display_type: string_of("none"), vnc_port: None }
    }
}

impl Default for UsbConfig {
    fn default() -> (r: Self)
        ensures
            default_usb(r),
    {
        UsbConfig {
            size_mb: 256,
            filesystem: string_of("fat32"),
            bootloader: BootloaderConfig::default(),
            include_files: Vec::new(),
        }
    }
}

impl Default for BootloaderConfig {
    fn default() -> (r: Self)
        ensures
            default_bootloader(r),
    {
        let mut menu_entries: Vec<MenuEntry> = Vec::new();
        menu_entries.push(MenuEntry {
            label: string_of("IronVeil OS"),
            kernel: string_of("/ironveil.bin"),
            cmdline: string_of("quiet"),
        });
        BootloaderConfig { bootloader_type: string_of("syslinux"), timeout: 5, menu_entries }
    }
}

impl Default for ArtifactsConfig {
    fn default() -> (r: Self)
        ensures
            default_artifacts(r),
    {
        ArtifactsConfig {
            output_dir: string_of("target/build_artifacts"),
            kernel_name: string_of("nexis"),
            bootimage_name: string_of("bootimage-nexis.bin"),
            usb_image_name: string_of("ironveil-live.img"),
        }
    }
}

/// Errors of build operations, each with its detail.
#[derive(Debug, Clone)]
pub enum BuildError {
    Config(String),
    Qemu(String),
    Usb(String),
    Filesystem(String),
    Process(String),
}

/// The message of an error.
pub open spec fn build_error_text(e: BuildError) -> Seq<char> {
    match e {
        BuildError::Config(d) => "Configuration error: "@ + d@,
        BuildError::Qemu(d) => "QEMU error: "@ + d@,
        BuildError::Usb(d) => "USB creation error: "@ + d@,
        BuildError::Filesystem(d) => "File system error: "@ + d@,
        BuildError::Process(d) => "Process execution error: "@ + d@,
    }
}

impl BuildError {
    /// The error's message.
    pub fn message(&self) -> (r: String)
        ensures
            r@ == build_error_text(*self),
    {
        let (prefix, detail) = match self {
            BuildError::Config(d) => ("Configuration error: ", d),
            BuildError::Qemu(d) => ("QEMU error: ", d),
            BuildError::Usb(d) => ("USB creation error: ", d),
            BuildError::Filesystem(d) => ("File system error: ", d),
            BuildError::Process(d) => ("Process execution error: ", d),
        };
        let mut s = string_of(prefix);
        push_str(&mut s, detail.as_str());
        s
    }
}

/// A program with its arguments.
#[derive(Debug, Clone)]
pub struct CommandLine {
    pub program: String,
    pub args: Vec<String>,
}

} // verus!
