//! QEMU runs: the command lines, the run options, and reading the serial
//! output for test results and success or failure patterns.
use vstd::prelude::*;
use crate::build_tools::{BuildConfig, BuildError, CommandLine};
use crate::text::{
    dec, has_sub, push_dec, push_line, push_str, split_char, split_on, str_contains, str_eq, string_of, trim_ws,
    trimmed, views,
};

verus! {

/// Runs the system under QEMU.
pub struct QemuRunner {
    config: BuildConfig,
}

/// The result of a run.
#[derive(Debug, Clone)]
pub struct TestResults {
    pub success: bool,
    /// How long the run took, in milliseconds.
    pub duration_ms: u64,
    /// The serial output read.
    pub serial_output: String,
    pub test_cases: Vec<TestCase>,
    pub system_info: SystemInfo,
}

/// One test reported on the serial console.
#[derive(Debug, Clone)]
pub struct TestCase {
    pub name: String,
    pub passed: bool,
    /// The reporting line, trimmed.
    pub output: String,
    /// How long the test took, in milliseconds (not reported yet: 0).
    pub duration_ms: u64,
}

/// The host a run was made on.
#[derive(Debug, Clone)]
pub struct SystemInfo {
    pub qemu_version: String,
    pub host_info: String,
    pub memory_mb: u32,
    pub kvm_available: bool,
}

/// How a run is made.
#[derive(Debug, Clone)]
pub struct QemuOptions {
    pub bootimage_path: String,
    pub memory_mb: u32,
    pub enable_kvm: bool,
    pub capture_serial: bool,
    pub enable_network: bool,
    pub extra_args: Vec<String>,
    /// Time limit in milliseconds.
    pub timeout_ms: u64,
    /// Output that means success.
    pub success_patterns: Vec<String>,
    /// Output that means failure.
    pub failure_patterns: Vec<String>,
}

impl Default for QemuOptions {
    fn default() -> (r: Self)
        ensures
            r.bootimage_path@ == "bootimage.bin"@,
            r.memory_mb == 512,
            r.enable_kvm,
            r.capture_serial,
            !r.enable_network,
            r.extra_args@.len() == 0,
            r.timeout_ms == 30000,
            r.success_patterns@.len() == 0,
            views(r.failure_patterns@) == seq!["PANIC"@],
    {
        let mut failure_patterns: Vec<String> = Vec::new();
        push_line(&mut failure_patterns, string_of("PANIC"));
        QemuOptions {
            bootimage_path: string_of("bootimage.bin"),
            memory_mb: 512,
            enable_kvm: true,
            capture_serial: true,
            enable_network: false,
            extra_args: Vec::new(),
            timeout_ms: 30000,
            success_patterns: Vec::new(),
            failure_patterns,
        }
    }
}

/// The arguments of a run: the boot image as a raw drive, the memory, the
/// serial console on standard I/O when captured, no display, KVM, the
/// user network with an RTL8139 card, then the extra arguments.
pub open spec fn run_args(o: QemuOptions) -> Seq<Seq<char>> {
    seq!["-drive"@, "format=raw,file="@ + o.bootimage_path@, "-m"@, dec(o.memory_mb as nat)]
        + (if o.capture_serial { seq!["-serial"@, "stdio"@] } else { Seq::empty() })
        + seq!["-display"@, "none"@]
        + (if o.enable_kvm { seq!["-enable-kvm"@] } else { Seq::empty() })
        + (if o.enable_network { seq!["-netdev"@, "user,id=net0"@, "-device"@, "rtl8139,netdev=net0"@] } else {
        Seq::empty() }) + views(o.extra_args@)
}

/// The arguments of an interactive session: the boot image, the
/// configured memory, a display unless it is `none`, KVM when configured
/// and available, and the user network when enabled.
pub open spec fn interactive_args(c: BuildConfig, bootimage_path: Seq<char>, kvm_available: bool) -> Seq<Seq<char>> {
    seq!["-drive"@, "format=raw,file="@ + bootimage_path, "-m"@, dec(c.qemu.memory_mb as nat)]
        + (if c.qemu.display.display_type@ != "none"@ { seq!["-display"@, c.qemu.display.display_type@] } else {
        Seq::empty() }) + (if c.qemu.enable_kvm && kvm_available { seq!["-enable-kvm"@] } else { Seq::empty() })
        + (if c.qemu.network.enabled { seq!["-netdev"@, "user,id=net0"@, "-device"@, "rtl8139,netdev=net0"@] }
    else { Seq::empty() })
}

/// The test a serial line reports: a line containing `TEST:` with at least
/// three `:`-separated fields names the test in the second field, and the
/// test passed when the third holds `PASS` or `OK`.
pub open spec fn reported_test(line: Seq<char>) -> Option<(Seq<char>, bool)> {
    let parts = split_on(line, ':');
    if has_sub(line, "TEST:"@) && parts.len() >= 3 {
        let status = trimmed(parts[2]);
        Some((trimmed(parts[1]), has_sub(status, "PASS"@) || has_sub(status, "OK"@)))
    } else {
        None
    }
}

/// Some pattern occurs in the line.
pub open spec fn any_in(patterns: Seq<Seq<char>>, line: Seq<char>) -> bool {
    exists|i: int| 0 <= i < patterns.len() && has_sub(line, #[trigger] patterns[i])
}

/// What a serial line decides: success when it holds a success pattern,
/// failure when it holds a failure pattern, nothing otherwise.
pub open spec fn line_verdict(o: QemuOptions, line: Seq<char>) -> Option<bool> {
    if any_in(views(o.success_patterns@), line) {
        Some(true)
    } else if any_in(views(o.failure_patterns@), line) {
        Some(false)
    } else {
        None
    }
}

/// Whether one of the patterns occurs in the line.
fn any_pattern(patterns: &Vec<String>, line: &str) -> (r: bool)
    ensures
        r == any_in(views(patterns@), line@),
{
    let mut i: usize = 0;
    while i < patterns.len()
        invariant
            i <= patterns@.len(),
            forall|k: int| 0 <= k < i ==> !has_sub(line@, #[trigger] views(patterns@)[k]),
        decreases patterns@.len() - i,
    {
        assert(views(patterns@)[i as int] == patterns@[i as int]@);
        if str_contains(line, patterns[i].as_str()) {
            return true;
        }
        i = i + 1;
    }
    false
}

/// Appends the arguments of one list to another.
fn push_args(args: &mut Vec<String>, more: &[&str])
    ensures
        views(final(args)@) == views(old(args)@) + more@.map_values(|a: &str| a@),
{
    let mut i: usize = 0;
    while i < more.len()
        invariant
            i <= more@.len(),
            views(args@) == views(old(args)@) + more@.take(i as int).map_values(|a: &str| a@),
        decreases more@.len() - i,
    {
        push_line(args, string_of(more[i]));
        assert(more@.take(i as int + 1).map_values(|a: &str| a@) =~= more@.take(i as int).map_values(|a: &str| a@).push(
            more@[i as int]@));
        i = i + 1;
    }
    assert(more@.take(i as int) =~= more@);
}

impl QemuRunner {
    /// The configuration.
    pub closed spec fn config(&self) -> BuildConfig {
        self.config
    }

    /// A runner for the configuration.
    pub fn new(config: BuildConfig) -> (r: Self)
        ensures
            r.config() == config,
    {
        QemuRunner { config }
    }

    /// The command line of a run: the configured QEMU with `run_args`.
    pub fn build_qemu_command(&self, options: &QemuOptions) -> (r: Result<CommandLine, BuildError>)
        ensures
            r matches Ok(c) && c.program@ == self.config().qemu.executable@ && views(c.args@) == run_args(*options),
    {
        let mut args: Vec<String> = Vec::new();
        push_line(&mut args, string_of("-drive"));
        let mut drive = string_of("format=raw,file=");
        push_str(&mut drive, options.bootimage_path.as_str());
        push_line(&mut args, drive);
        push_line(&mut args, string_of("-m"));
        let mut mem = String::new();
        push_dec(&mut mem, options.memory_mb as u64);
        push_line(&mut args, mem);
        let ghost a0 = views(args@);
        if options.capture_serial {
            push_args(&mut args, &["-serial", "stdio"]);
        }
        let ghost a1 = views(args@);
        push_args(&mut args, &["-display", "none"]);
        let ghost a2 = views(args@);
        if options.enable_kvm {
            push_line(&mut args, string_of("-enable-kvm"));
        }
        let ghost a3 = views(args@);
        if options.enable_network {
            push_args(&mut args, &["-netdev", "user,id=net0", "-device", "rtl8139,netdev=net0"]);
        }
        let ghost a4 = views(args@);
        let mut i: usize = 0;
        while i < options.extra_args.len()
            invariant
                i <= options.extra_args@.len(),
                views(args@) == a4 + views(options.extra_args@.take(i as int)),
            decreases options.extra_args@.len() - i,
        {
            push_line(&mut args, string_of(options.extra_args[i].as_str()));
            assert(views(options.extra_args@.take(i as int + 1)) =~= views(options.extra_args@.take(i as int)).push(
                options.extra_args@[i as int]@));
            i = i + 1;
        }
        proof {
            assert(options.extra_args@.take(i as int) =~= options.extra_args@);
            assert(a0 =~= seq!["-drive"@, "format=raw,file="@ + options.bootimage_path@, "-m"@, dec(
                options.memory_mb as nat)]);
            assert(views(args@) =~= run_args(*options));
        }
        Ok(CommandLine { program: string_of(self.config.qemu.executable.as_str()), args })
    }

    /// The command line of an interactive session with the given boot
    /// image, KVM used only when the host has it.
    pub fn interactive_command(&self, bootimage_path: &str, kvm_available: bool) -> (r: CommandLine)
        ensures
            r.program@ == self.config().qemu.executable@,
            views(r.args@) == interactive_args(self.config(), bootimage_path@, kvm_available),
    {
        let mut args: Vec<String> = Vec::new();
        push_line(&mut args, string_of("-drive"));
        let mut drive = string_of("format=raw,file=");
        push_str(&mut drive, bootimage_path);
        push_line(&mut args, drive);
        push_line(&mut args, string_of("-m"));
        let mut mem = String::new();
        push_dec(&mut mem, self.config.qemu.memory_mb as u64);
        push_line(&mut args, mem);
        let ghost a0 = views(args@);
        let display = self.config.qemu.display.display_type.as_str();
        if !str_eq(display, "none") {
            push_line(&mut args, string_of("-display"));
            push_line(&mut args, string_of(display));
        }
        if self.config.qemu.enable_kvm && kvm_available {
            push_line(&mut args, string_of("-enable-kvm"));
        }
        if self.config.qemu.network.enabled {
            push_args(&mut args, &["-netdev", "user,id=net0", "-device", "rtl8139,netdev=net0"]);
        }
        proof {
            assert(a0 =~= seq!["-drive"@, "format=raw,file="@ + bootimage_path@, "-m"@, dec(
                self.config.qemu.memory_mb as nat)]);
            assert(views(args@) =~= interactive_args(self.config, bootimage_path@, kvm_available));
        }
        CommandLine { program: string_of(self.config.qemu.executable.as_str()), args }
    }

    /// The test a serial line reports, if any.
    pub fn parse_test_output(&self, line: &str) -> (r: Option<TestCase>)
        ensures
            match reported_test(line@) {
                Some((name, passed)) => r matches Some(t) && t.name@ == name && t.passed == passed && t.output@
                    == trimmed(line@) && t.duration_ms == 0,
                None => r is None,
            },
    {
        if !str_contains(line, "TEST:") {
            return None;
        }
        let parts = split_char(line, ':');
        if parts.len() < 3 {
            return None;
        }
        proof {
            assert(views(parts@)[1] == parts@[1]@);
            assert(views(parts@)[2] == parts@[2]@);
        }
        let name = trim_ws(parts[1].as_str());
        let status = trim_ws(parts[2].as_str());
        let passed = str_contains(status.as_str(), "PASS") || str_contains(status.as_str(), "OK");
        Some(TestCase { name, passed, output: trim_ws(line), duration_ms: 0 })
    }

    /// Takes in one line of serial output: it is added to the output, a
    /// reported test is recorded, and the verdict of the line (success
    /// patterns first) is returned; `None` means read on.
    pub fn scan_output_line(
        &self,
        line: &str,
        options: &QemuOptions,
        output: &mut String,
        test_cases: &mut Vec<TestCase>,
    ) -> (r: Option<bool>)
        ensures
            final(output)@ == old(output)@ + line@,
            reported_test(line@) is None ==> final(test_cases)@ == old(test_cases)@,
            reported_test(line@) is Some ==> final(test_cases)@.len() == old(test_cases)@.len() + 1
                && final(test_cases)@.drop_last() == old(test_cases)@,
            reported_test(line@) matches Some((name, passed)) ==> ({
                let t = final(test_cases)@.last();
                t.name@ == name && t.passed == passed && t.output@ == trimmed(line@) && t.duration_ms == 0
            }),
            r == line_verdict(*options, line@),
    {
        push_str(output, line);
        match self.parse_test_output(line) {
            Some(t) => {
                test_cases.push(t);
                assert(test_cases@.drop_last() =~= old(test_cases)@);
            },
            None => {},
        }
        if any_pattern(&options.success_patterns, line) {
            return Some(true);
        }
        if any_pattern(&options.failure_patterns, line) {
            return Some(false);
        }
        None
    }

    /// The options of a test suite run: the configured memory, KVM,
    /// network and time limit, serial captured; success when all tests
    /// pass, failure on a failed test or a panic.
    pub fn test_suite_options(&self, bootimage_path: String) -> (r: QemuOptions)
        ensures
            r.bootimage_path@ == bootimage_path@,
            r.memory_mb == self.config().qemu.memory_mb,
            r.enable_kvm == self.config().qemu.enable_kvm,
            r.capture_serial,
            r.enable_network == self.config().qemu.network.enabled,
            r.extra_args@.len() == 0,
            r.timeout_ms == self.config().qemu.timeout_ms,
            views(r.success_patterns@) == seq!["All tests passed"@, "Test suite completed successfully"@],
            views(r.failure_patterns@) == seq!["Test failed"@, "PANIC"@, "kernel panic"@],
    {
        let mut success_patterns: Vec<String> = Vec::new();
        push_line(&mut success_patterns, string_of("All tests passed"));
        push_line(&mut success_patterns, string_of("Test suite completed successfully"));
        let mut failure_patterns: Vec<String> = Vec::new();
        push_line(&mut failure_patterns, string_of("Test failed"));
        push_line(&mut failure_patterns, string_of("PANIC"));
        push_line(&mut failure_patterns, string_of("kernel panic"));
        QemuOptions {
            bootimage_path,
            memory_mb: self.config.qemu.memory_mb,
            enable_kvm: self.config.qemu.enable_kvm,
            capture_serial: true,
            enable_network: self.config.qemu.network.enabled,
            extra_args: Vec::new(),
            timeout_ms: self.config.qemu.timeout_ms,
            success_patterns,
            failure_patterns,
        }
    }

    /// The options of a boot test: 256 MB, no KVM, no network, serial
    /// captured, 30 s; success when the system greets, failure on a panic
    /// or a failed boot.
    pub fn boot_test_options(&self, bootimage_path: String) -> (r: QemuOptions)
        ensures
            r.bootimage_path@ == bootimage_path@,
            r.memory_mb == 256,
            !r.enable_kvm,
            r.capture_serial,
            !r.enable_network,
            r.extra_args@.len() == 0,
            r.timeout_ms == 30000,
            views(r.success_patterns@) == seq!["IronVeil"@, "Nexis"@, "ironveil@nexis"@],
            views(r.failure_patterns@) == seq!["PANIC"@, "kernel panic"@, "Boot failed"@],
    {
        let mut success_patterns: Vec<String> = Vec::new();
        push_line(&mut success_patterns, string_of("IronVeil"));
        push_line(&mut success_patterns, string_of("Nexis"));
        push_line(&mut success_patterns, string_of("ironveil@nexis"));
        let mut failure_patterns: Vec<String> = Vec::new();
        push_line(&mut failure_patterns, string_of("PANIC"));
        push_line(&mut failure_patterns, string_of("kernel panic"));
        push_line(&mut failure_patterns, string_of("Boot failed"));
        QemuOptions {
            bootimage_path,
            memory_mb: 256,
            enable_kvm: false,
            capture_serial: true,
            enable_network: false,
            extra_args: Vec::new(),
            timeout_ms: 30000,
            success_patterns,
            failure_patterns,
        }
    }

    /// The configured guest memory in MB.
    pub fn memory_mb(&self) -> (r: u32)
        ensures
            r == self.config().qemu.memory_mb,
    {
        self.config.qemu.memory_mb
    }
}

} // verus!
