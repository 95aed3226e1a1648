//! The model of one external process invocation: which shell runs the
//! command string, in which working directory, with which stream
//! dispositions — and the outcome the process ends in.

use vstd::prelude::*;

verus! {

/// Where a child process's standard output or standard error goes.
#[derive(Clone, Copy, PartialEq, Eq, Structural, Debug)]
pub enum Disposition {
    /// The stream of the parent process is shared with the child.
    Inherit,
    /// The stream is thrown away.
    Discard,
    /// The stream is captured by the parent.
    Capture,
}

/// Why a completed (or never started) process did not succeed.
#[derive(Clone, Copy, PartialEq, Eq, Structural, Debug)]
pub enum FailureCause {
    /// The process ran and exited with the given non-zero status code.
    NonZeroStatus(i32),
    /// Waiting on the process, or the work it stood for, failed in the host.
    IoFailure,
    /// The host could not create the process at all.
    SpawnFailure,
}

/// The result of one completed external process.
#[derive(Clone, Copy, PartialEq, Eq, Structural, Debug)]
pub enum ExitOutcome {
    Success,
    Failure(FailureCause),
}

impl ExitOutcome {
    pub fn is_success(&self) -> (r: bool)
        ensures
            r == (*self is Success),
    {
        match self {
            ExitOutcome::Success => true,
            ExitOutcome::Failure(_) => false,
        }
    }
}

/// Classifies what the host reports of a completed process: a successful
/// exit, a non-zero status code, or an exit the host hands no code for.
pub fn classify_exit(success: bool, code: Option<i32>) -> (r: ExitOutcome)
    ensures
        success ==> r is Success,
        !success ==> (r matches ExitOutcome::Failure(c) && c == (match code {
            Some(n) => FailureCause::NonZeroStatus(n),
            None => FailureCause::IoFailure,
        })),
{
    if success {
        ExitOutcome::Success
    } else {
        match code {
            Some(n) => ExitOutcome::Failure(FailureCause::NonZeroStatus(n)),
            None => ExitOutcome::Failure(FailureCause::IoFailure),
        }
    }
}

/// One fully resolved external invocation: the chosen shell executes
/// `command` verbatim. Callers must not depend on shell quoting behaviour
/// beyond that.
#[derive(Clone, PartialEq, Eq, Debug)]
pub struct Invocation {
    /// The shell that parses the command: `cmd` or `sh`.
    pub program: String,
    /// The shell's flag that introduces a command string: `/C` or `-c`.
    pub flag: String,
    /// The whole command string, executed verbatim by the shell.
    pub command: String,
    pub working_dir: String,
    pub stdout: Disposition,
    pub stderr: Disposition,
}

/// The required platform branch of the command runner: a Windows-family
/// host executes commands through `cmd /C`, every other host through
/// `sh -c`.
pub open spec fn obeys_shell_form(inv: Invocation, os: crate::platform::OsFamily) -> bool {
    match os {
        crate::platform::OsFamily::Windows => inv.program@ == "cmd"@ && inv.flag@ == "/C"@,
        crate::platform::OsFamily::Posix => inv.program@ == "sh"@ && inv.flag@ == "-c"@,
    }
}

/// Resolves the shell invocation form for `command` on the given
/// operating-system family.
pub fn shell_invocation(
    os: crate::platform::OsFamily,
    command: String,
    working_dir: String,
    stdout: Disposition,
    stderr: Disposition,
) -> (r: Invocation)
    ensures
        obeys_shell_form(r, os),
        r.command@ == command@,
        r.working_dir@ == working_dir@,
        r.stdout == stdout,
        r.stderr == stderr,
{
    match os {
        crate::platform::OsFamily::Windows => Invocation {
            program: "cmd".to_owned(),
            flag: "/C".to_owned(),
            command,
            working_dir,
            stdout,
            stderr,
        },
        crate::platform::OsFamily::Posix => Invocation {
            program: "sh".to_owned(),
            flag: "-c".to_owned(),
            command,
            working_dir,
            stdout,
            stderr,
        },
    }
}

} // verus!
