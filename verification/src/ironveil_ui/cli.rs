//! The command-line interface: the shell and the boot banners.
pub mod banner;
pub mod shell;

use vstd::prelude::*;

/// ANSI colour sequences of the interface.
pub mod colors;

verus! {

/// Shell errors.
#[derive(Debug, Clone, Copy, PartialEq, Eq, Structural)]
pub enum CliError {
    InvalidCommand,
    InvalidArguments,
    InsufficientPermissions,
    SystemError,
    OutOfMemory,
}

/// Result of a shell operation.
pub type CliResult<T> = Result<T, CliError>;

/// Who and where the shell runs.
#[derive(Debug, Clone)]
pub struct CommandContext {
    pub current_user: &'static str,
    pub hostname: &'static str,
    pub working_directory: &'static str,
    pub environment_vars: Vec<(&'static str, &'static str)>,
}

impl Default for CommandContext {
    fn default() -> (r: Self)
        ensures
            r.current_user@ == "root"@,
            r.hostname@ == "ironveil"@,
            r.working_directory@ == "/"@,
            r.environment_vars@.len() == 4,
    {
        let mut env: Vec<(&'static str, &'static str)> = Vec::new();
        env.push(("HOME", "/root"));
        env.push(("PATH", "/bin:/usr/bin:/sbin:/usr/sbin"));
        env.push(("SHELL", "/bin/ironshell"));
        env.push(("TERM", "ironveil-256color"));
        CommandContext { current_user: "root", hostname: "ironveil", working_directory: "/", environment_vars: env }
    }
}

} // verus!
