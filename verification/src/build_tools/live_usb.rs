//! Live USB images: the partition layout, the partitioning and formatting
//! commands, and the SYSLINUX configuration.
use vstd::prelude::*;
use crate::build_tools::{BuildConfig, BuildError, CommandLine, MenuEntry};
use crate::text::{dec, push_char, push_dec, push_line, push_str, str_eq, string_of, views};

verus! {

/// How the image is made.
#[derive(Debug, Clone)]
pub struct UsbImageOptions {
    pub output_path: String,
    /// Image size in MB.
    pub size_mb: u32,
    /// File system of the data partition.
    pub filesystem: String,
    pub include_privacy_tools: bool,
    pub include_dev_tools: bool,
    /// Files to copy: source and destination on the image.
    pub additional_files: Vec<(String, String)>,
    pub label: String,
}

/// The partitions of the image.
#[derive(Debug, Clone)]
pub struct PartitionLayout {
    pub boot_size_mb: u32,
    /// 0 when there is no data partition.
    pub data_size_mb: u32,
    pub boot_filesystem: String,
    pub data_filesystem: String,
}

/// How the image boots.
#[derive(Debug, Clone)]
pub struct BootloaderSetup {
    pub bootloader_type: String,
    /// Menu timeout in seconds.
    pub timeout: u32,
    pub default_entry: String,
    pub splash_image: Option<String>,
}

/// A block device found on the host.
#[derive(Debug, Clone)]
pub struct UsbDevice {
    pub name: String,
    pub size: String,
    pub device_type: String,
    pub vendor: Option<String>,
    pub model: Option<String>,
    pub mountpoint: Option<String>,
}

impl Default for UsbImageOptions {
    fn default() -> (r: Self)
        ensures
            r.output_path@ == "ironveil-live.img"@,
            r.size_mb == 256,
            r.filesystem@ == "fat32"@,
            r.include_privacy_tools,
            !r.include_dev_tools,
            r.additional_files@.len() == 0,
            r.label@ == "IRONVEIL"@,
    {
        UsbImageOptions {
            output_path: string_of("ironveil-live.img"),
            size_mb: 256,
            filesystem: string_of("fat32"),
            include_privacy_tools: true,
            include_dev_tools: false,
            additional_files: Vec::new(),
            label: string_of("IRONVEIL"),
        }
    }
}

/// The lower-case form of a text by Unicode's case mapping
/// (`str::to_lowercase`).
pub uninterp spec fn lowercase(s: Seq<char>) -> Seq<char>;

/// The text in lower case (`str::to_lowercase`); the result is named by
/// `lowercase`, a function of the text alone.
#[verifier::external_body]
fn to_lowercase(s: &str) -> (r: String)
    ensures
        r@ == lowercase(s@),
{
    s.to_lowercase()
}

/// The text with every space turned into an underscore.
pub open spec fn underscored(s: Seq<char>) -> Seq<char> {
    s.map_values(|c: char| if c == ' ' { '_' } else { c })
}

/// The text with every space turned into an underscore (`replace(" ", "_")`).
pub fn replace_spaces(s: &str) -> (r: String)
    ensures
        r@ == underscored(s@),
{
    let mut out = String::new();
    for c in it: s.chars()
        invariant
            it.seq() == s@,
            out@ == underscored(s@.take(it.index() as int)),
    {
        push_char(&mut out, if c == ' ' { '_' } else { c });
        proof {
            assert(underscored(s@.take(it.index() as int + 1)) =~= underscored(s@.take(it.index() as int)).push(
                if c == ' ' { '_' } else { c }));
        }
    }
    proof {
        assert(s@.take(s@.len() as int) =~= s@);
    }
    out
}

/// The SYSLINUX text of the menu entries, each with its label name.
pub open spec fn entries_text(entries: Seq<MenuEntry>, names: Seq<Seq<char>>) -> Seq<char>
    decreases entries.len(),
{
    if entries.len() == 0 || names.len() < entries.len() {
        Seq::empty()
    } else {
        let e = entries.last();
        entries_text(entries.drop_last(), names) + "\nLABEL "@ + names[entries.len() - 1] + seq!['\n']
            + "  MENU LABEL "@ + e.label@ + seq!['\n'] + "  KERNEL "@ + e.kernel@ + seq!['\n'] + (if e.cmdline@.len()
            > 0 { "  APPEND "@ + e.cmdline@ + seq!['\n'] } else { Seq::empty() })
    }
}

/// The SYSLINUX configuration: the default entry, the timeout in tenths of
/// a second, the splash background when there is one, then each entry.
pub open spec fn syslinux_text(
    setup: BootloaderSetup,
    splash_file: Option<Seq<char>>,
    entries: Seq<MenuEntry>,
    names: Seq<Seq<char>>,
) -> Seq<char> {
    "DEFAULT "@ + setup.default_entry@ + seq!['\n'] + "TIMEOUT "@ + dec((setup.timeout * 10) as nat) + seq!['\n']
        + (match splash_file {
        Some(f) => "MENU BACKGROUND "@ + f + seq!['\n'],
        None => Seq::empty(),
    }) + entries_text(entries, names)
}

/// The SYSLINUX label name of each entry: its label, spaces turned into
/// underscores, in lower case.
pub open spec fn entry_names(entries: Seq<MenuEntry>) -> Seq<Seq<char>> {
    entries.map_values(|e: MenuEntry| lowercase(underscored(e.label@)))
}

/// Builds USB images from the build configuration.
pub struct UsbImageBuilder {
    config: BuildConfig,
    mount_point: Option<String>,
}

impl UsbImageBuilder {
    /// The configuration.
    pub closed spec fn config(&self) -> BuildConfig {
        self.config
    }

    /// Where the boot partition is mounted, if it is.
    pub closed spec fn mount(&self) -> Option<String> {
        self.mount_point
    }

    /// A builder for the configuration, nothing mounted.
    pub fn new(config: BuildConfig) -> (r: Self)
        ensures
            r.config() == config,
            r.mount() is None,
    {
        UsbImageBuilder { config, mount_point: None }
    }

    /// Records where the boot partition is mounted, or that it is not.
    pub fn set_mount_point(&mut self, mount_point: Option<String>)
        ensures
            final(self).mount() == mount_point,
            final(self).config() == old(self).config(),
    {
        self.mount_point = mount_point;
    }

    /// Where the boot partition is mounted, if it is.
    pub fn mount_point(&self) -> (r: &Option<String>)
        ensures
            *r == self.mount(),
    {
        &self.mount_point
    }

    /// The USB devices listed in the JSON output of `lsblk`: none are
    /// taken from it, whatever it holds.
    pub fn parse_lsblk_output(&self, json_str: &str) -> (r: Result<Vec<UsbDevice>, BuildError>)
        ensures
            r matches Ok(v) && v@.len() == 0,
    {
        Ok(Vec::new())
    }

    /// The USB devices listed in the property-list output of `diskutil`:
    /// none are taken from it, whatever it holds.
    pub fn parse_diskutil_output(&self, plist_str: &str) -> (r: Result<Vec<UsbDevice>, BuildError>)
        ensures
            r matches Ok(v) && v@.len() == 0,
    {
        Ok(Vec::new())
    }

    /// The layout: a 64 MB FAT32 boot partition and, when the image has
    /// more than 80 MB, a data partition of the rest less 16 MB of slack.
    pub fn create_partition_layout(&self, options: &UsbImageOptions) -> (r: Result<PartitionLayout, BuildError>)
        ensures
            r matches Ok(l) && l.boot_size_mb == 64 && l.data_size_mb == (if options.size_mb > 80 {
                options.size_mb - 80
            } else {
                0
            }) && l.boot_filesystem@ == "fat32"@ && l.data_filesystem@ == options.filesystem@,
    {
        let boot_size: u32 = 64;
        let data_size = if options.size_mb > boot_size + 16 { options.size_mb - boot_size - 16 } else { 0 };
        Ok(PartitionLayout {
            boot_size_mb: boot_size,
            data_size_mb: data_size,
            boot_filesystem: string_of("fat32"),
            data_filesystem: string_of(options.filesystem.as_str()),
        })
    }

    /// The boot setup: the configured boot loader and timeout, default entry
    /// `ironveil`, no splash.
    pub fn create_bootloader_setup(&self, options: &UsbImageOptions) -> (r: Result<BootloaderSetup, BuildError>)
        ensures
            r matches Ok(s) && s.bootloader_type@ == self.config().usb.bootloader.bootloader_type@ && s.timeout
                == self.config().usb.bootloader.timeout && s.default_entry@ == "ironveil"@ && s.splash_image is None,
    {
        Ok(BootloaderSetup {
            bootloader_type: string_of(self.config.usb.bootloader.bootloader_type.as_str()),
            timeout: self.config.usb.bootloader.timeout,
            default_entry: string_of("ironveil"),
            splash_image: None,
        })
    }

    /// The `parted` commands that partition the image: an MS-DOS label and
    /// the bootable FAT32 partition from 1 MiB, then the data partition
    /// after it when there is one.
    pub fn partition_commands(&self, image_path: &str, layout: &PartitionLayout) -> (r: Vec<CommandLine>)
        requires
            layout.boot_size_mb + 1 + layout.data_size_mb <= u32::MAX,
        ensures
            r@.len() == (if layout.data_size_mb > 0 { 2int } else { 1int }),
            r@[0].program@ == "parted"@,
            views(r@[0].args@) == seq![image_path@, "--script"@, "mklabel"@, "msdos"@, "mkpart"@, "primary"@,
                "fat32"@, "1MiB"@, dec((layout.boot_size_mb + 1) as nat) + "MiB"@, "set"@, "1"@, "boot"@, "on"@],
            layout.data_size_mb > 0 ==> r@[1].program@ == "parted"@ && views(r@[1].args@) == seq![image_path@,
                "--script"@, "mkpart"@, "primary"@, layout.data_filesystem@, dec((layout.boot_size_mb + 1) as nat)
                + "MiB"@, dec((layout.boot_size_mb + 1 + layout.data_size_mb) as nat) + "MiB"@],
    {
        let start = layout.boot_size_mb + 1;
        let mut boot_args: Vec<String> = Vec::new();
        push_line(&mut boot_args, string_of(image_path));
        push_line(&mut boot_args, string_of("--script"));
        push_line(&mut boot_args, string_of("mklabel"));
        push_line(&mut boot_args, string_of("msdos"));
        push_line(&mut boot_args, string_of("mkpart"));
        push_line(&mut boot_args, string_of("primary"));
        push_line(&mut boot_args, string_of("fat32"));
        push_line(&mut boot_args, string_of("1MiB"));
        let mut end_boot = String::new();
        push_dec(&mut end_boot, start as u64);
        push_str(&mut end_boot, "MiB");
        push_line(&mut boot_args, end_boot);
        push_line(&mut boot_args, string_of("set"));
        push_line(&mut boot_args, string_of("1"));
        push_line(&mut boot_args, string_of("boot"));
        push_line(&mut boot_args, string_of("on"));
        let mut cmds: Vec<CommandLine> = Vec::new();
        cmds.push(CommandLine { program: string_of("parted"), args: boot_args });
        if layout.data_size_mb > 0 {
            let end = start + layout.data_size_mb;
            let mut data_args: Vec<String> = Vec::new();
            push_line(&mut data_args, string_of(image_path));
            push_line(&mut data_args, string_of("--script"));
            push_line(&mut data_args, string_of("mkpart"));
            push_line(&mut data_args, string_of("primary"));
            push_line(&mut data_args, string_of(layout.data_filesystem.as_str()));
            let mut s = String::new();
            push_dec(&mut s, start as u64);
            push_str(&mut s, "MiB");
            push_line(&mut data_args, s);
            let mut e = String::new();
            push_dec(&mut e, end as u64);
            push_str(&mut e, "MiB");
            push_line(&mut data_args, e);
            cmds.push(CommandLine { program: string_of("parted"), args: data_args });
        }
        cmds
    }

    /// The commands that format the partitions of a loop device: FAT32 for
    /// the boot partition labelled `<label>_BOOT`, then the data partition,
    /// FAT32 or ext4, labelled `<label>_DATA`; another data file system is
    /// refused.
    pub fn format_commands(&self, loop_device: &str, layout: &PartitionLayout, label: &str) -> (r: Result<
        Vec<CommandLine>,
        BuildError,
    >)
        ensures
            ({
                let fs = layout.data_filesystem@;
                let boot = seq!["-F"@, "32"@, "-n"@, label@ + "_BOOT"@, loop_device@ + "p1"@];
                if layout.data_size_mb > 0 && fs != "fat32"@ && fs != "ext4"@ {
                    r matches Err(BuildError::Usb(m)) && m@ == "Unsupported filesystem: "@ + fs
                } else {
                    r matches Ok(c) && c@[0].program@ == "mkfs.fat"@ && views(c@[0].args@) == boot && if layout.data_size_mb
                        == 0 {
                        c@.len() == 1
                    } else if fs == "fat32"@ {
                        c@.len() == 2 && c@[1].program@ == "mkfs.fat"@ && views(c@[1].args@) == seq!["-F"@, "32"@,
                            "-n"@, label@ + "_DATA"@, loop_device@ + "p2"@]
                    } else {
                        c@.len() == 2 && c@[1].program@ == "mkfs.ext4"@ && views(c@[1].args@) == seq!["-L"@,
                            label@ + "_DATA"@, loop_device@ + "p2"@]
                    }
                }
            }),
    {
        let mut cmds: Vec<CommandLine> = Vec::new();
        let mut boot_part = string_of(loop_device);
        push_str(&mut boot_part, "p1");
        let mut boot_label = string_of(label);
        push_str(&mut boot_label, "_BOOT");
        let mut boot_args: Vec<String> = Vec::new();
        push_line(&mut boot_args, string_of("-F"));
        push_line(&mut boot_args, string_of("32"));
        push_line(&mut boot_args, string_of("-n"));
        push_line(&mut boot_args, boot_label);
        push_line(&mut boot_args, boot_part);
        cmds.push(CommandLine { program: string_of("mkfs.fat"), args: boot_args });
        if layout.data_size_mb > 0 {
            let mut data_part = string_of(loop_device);
            push_str(&mut data_part, "p2");
            let mut data_label = string_of(label);
            push_str(&mut data_label, "_DATA");
            let fs = layout.data_filesystem.as_str();
            if str_eq(fs, "fat32") {
                let mut args: Vec<String> = Vec::new();
                push_line(&mut args, string_of("-F"));
                push_line(&mut args, string_of("32"));
                push_line(&mut args, string_of("-n"));
                push_line(&mut args, data_label);
                push_line(&mut args, data_part);
                cmds.push(CommandLine { program: string_of("mkfs.fat"), args });
            } else if str_eq(fs, "ext4") {
                let mut args: Vec<String> = Vec::new();
                push_line(&mut args, string_of("-L"));
                push_line(&mut args, data_label);
                push_line(&mut args, data_part);
                cmds.push(CommandLine { program: string_of("mkfs.ext4"), args });
            } else {
                let mut m = string_of("Unsupported filesystem: ");
                push_str(&mut m, fs);
                return Err(BuildError::Usb(m));
            }
        }
        Ok(cmds)
    }

    /// The SYSLINUX configuration for the setup: each configured menu entry
    /// gets a label name from its label (spaces to underscores, lower case);
    /// `splash_file` is the file name of the splash image when it exists.
    pub fn create_syslinux_config(&self, setup: &BootloaderSetup, splash_file: Option<&str>) -> (r: Result<
        String,
        BuildError,
    >)
        requires
            setup.timeout * 10 <= u32::MAX,
        ensures
            r matches Ok(text) && text@ == syslinux_text(*setup, match splash_file {
                Some(f) => Some(f@),
                None => None,
            }, self.config().usb.bootloader.menu_entries@, entry_names(self.config().usb.bootloader.menu_entries@)),
    {
        let entries = &self.config.usb.bootloader.menu_entries;
        let mut names: Vec<String> = Vec::new();
        let mut i: usize = 0;
        while i < entries.len()
            invariant
                i <= entries@.len(),
                views(names@) == entry_names(entries@.take(i as int)),
            decreases entries@.len() - i,
        {
            let spaced = replace_spaces(entries[i].label.as_str());
            push_line(&mut names, to_lowercase(spaced.as_str()));
            assert(entry_names(entries@.take(i as int + 1)) =~= entry_names(entries@.take(i as int)).push(
                lowercase(underscored(entries@[i as int].label@))));
            i = i + 1;
        }
        assert(entries@.take(i as int) =~= entries@);
        Ok(self.render_syslinux_config(setup, splash_file, &names))
    }

    /// The SYSLINUX configuration for the setup, the configured menu entries
    /// labelled by `names`.
    pub fn render_syslinux_config(&self, setup: &BootloaderSetup, splash_file: Option<&str>, names: &Vec<String>) -> (r:
        String)
        requires
            setup.timeout * 10 <= u32::MAX,
        ensures
            r@ == syslinux_text(*setup, match splash_file {
                Some(f) => Some(f@),
                None => None,
            }, self.config().usb.bootloader.menu_entries@, views(names@)),
    {
        let mut config = string_of("DEFAULT ");
        push_str(&mut config, setup.default_entry.as_str());
        push_char(&mut config, '\n');
        push_str(&mut config, "TIMEOUT ");
        push_dec(&mut config, (setup.timeout * 10) as u64);
        push_char(&mut config, '\n');
        match splash_file {
            Some(f) => {
                push_str(&mut config, "MENU BACKGROUND ");
                push_str(&mut config, f);
                push_char(&mut config, '\n');
            },
            None => {},
        }
        let ghost head = config@;
        let entries = &self.config.usb.bootloader.menu_entries;
        let ghost nv = views(names@);
        if names.len() < entries.len() {
            proof {
                lemma_entries_text_short(entries@, nv);
            }
            return config;
        }
        let mut i: usize = 0;
        while i < entries.len()
            invariant
                i <= entries@.len(),
                entries@.len() <= names@.len(),
                nv == views(names@),
                config@ == head + entries_text(entries@.take(i as int), nv),
            decreases entries@.len() - i,
        {
            let e = &entries[i];
            push_str(&mut config, "\nLABEL ");
            assert(nv[i as int] == names@[i as int]@);
            push_str(&mut config, names[i].as_str());
            push_char(&mut config, '\n');
            push_str(&mut config, "  MENU LABEL ");
            push_str(&mut config, e.label.as_str());
            push_char(&mut config, '\n');
            push_str(&mut config, "  KERNEL ");
            push_str(&mut config, e.kernel.as_str());
            push_char(&mut config, '\n');
            if e.cmdline.as_str().unicode_len() > 0 {
                push_str(&mut config, "  APPEND ");
                push_str(&mut config, e.cmdline.as_str());
                push_char(&mut config, '\n');
            }
            proof {
                let t = entries@.take(i as int + 1);
                assert(t.drop_last() =~= entries@.take(i as int));
                assert(t.last() == entries@[i as int]);
                assert(config@ =~= head + entries_text(t, nv));
            }
            i = i + 1;
        }
        assert(entries@.take(i as int) =~= entries@);
        config
    }
}

/// With fewer names than entries, the entries give no text.
proof fn lemma_entries_text_short(entries: Seq<MenuEntry>, names: Seq<Seq<char>>)
    requires
        names.len() < entries.len(),
    ensures
        entries_text(entries, names) == Seq::<char>::empty(),
{
}

/// Bytes of an image of `size_mb` MB.
pub fn image_size_bytes(size_mb: u32) -> (r: u64)
    ensures
        r == size_mb * 1048576,
{
    size_mb as u64 * 1024 * 1024
}

} // verus!
