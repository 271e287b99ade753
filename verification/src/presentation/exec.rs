//! Opening a shell in a container: the shell dialog, the command line it
//! leads to, and how the outcome of running it is reported.
use crate::failure::{IoFailure, IoFailureKind};
use crate::text::{push_text, string_of};
use vstd::prelude::*;

verus! {

/// The shells the dialog offers, in order.
pub const EXEC_SHELL_OPTIONS: [&'static str; 2] = ["sh", "bash"];

/// Where the shell is to be run: the engine's address.
#[derive(Debug, Clone, PartialEq, Eq)]
pub struct ExecCommandConfig {
    pub docker_host: String,
}

impl ExecCommandConfig {
    pub fn new(docker_host: &str) -> (r: ExecCommandConfig)
        ensures
            r.docker_host@ == docker_host@,
    {
        ExecCommandConfig { docker_host: string_of(docker_host) }
    }

    pub fn docker_host(&self) -> (r: &str)
        ensures
            r@ == self.docker_host@,
    {
        self.docker_host.as_str()
    }
}

/// A shell to open.
#[derive(Debug, Clone, Copy, PartialEq, Eq, Structural)]
pub enum ExecShell {
    Sh,
    Bash,
}

/// The command name of a shell.
pub open spec fn shell_name(shell: ExecShell) -> Seq<char> {
    match shell {
        ExecShell::Sh => "sh"@,
        ExecShell::Bash => "bash"@,
    }
}

/// The shell at a row of the dialog; any row but the second is `sh`.
pub open spec fn shell_at(index: usize) -> ExecShell {
    if index == 1 {
        ExecShell::Bash
    } else {
        ExecShell::Sh
    }
}

impl ExecShell {
    pub fn as_str(self) -> (r: &'static str)
        ensures
            r@ == shell_name(self),
    {
        match self {
            ExecShell::Sh => {
                proof {
                    reveal_strlit("sh");
                }
                "sh"
            },
            ExecShell::Bash => {
                proof {
                    reveal_strlit("bash");
                }
                "bash"
            },
        }
    }

    pub fn from_index(index: usize) -> (r: ExecShell)
        ensures
            r == shell_at(index),
    {
        match index {
            1 => ExecShell::Bash,
            _ => ExecShell::Sh,
        }
    }
}

/// Which list is reloaded once the shell exits.
#[derive(Debug, Clone, Copy, PartialEq, Eq, Structural)]
pub enum ExecRefreshTarget {
    Containers,
    StackContainers,
}

/// A shell that is to be opened as soon as the screen is released.
#[derive(Debug, Clone)]
pub struct PendingExec {
    pub container_id: String,
    pub shell: ExecShell,
    pub refresh_target: ExecRefreshTarget,
}

/// The dialog that asks which shell to open.
#[derive(Debug)]
pub struct ExecShellDialog {
    pub container_id: String,
    pub refresh_target: ExecRefreshTarget,
    pub selected: Option<usize>,
}

/// The row below in the shell dialog, wrapping to the first.
pub open spec fn shell_row_below(selected: Option<usize>) -> Option<usize> {
    let s = match selected {
        Some(i) => i,
        None => 0,
    };
    if s >= 1 {
        Some(0)
    } else {
        Some((s + 1) as usize)
    }
}

/// The row above in the shell dialog, wrapping to the last.
pub open spec fn shell_row_above(selected: Option<usize>) -> Option<usize> {
    let s = match selected {
        Some(i) => i,
        None => 0,
    };
    if s == 0 {
        Some(1)
    } else {
        Some((s - 1) as usize)
    }
}

impl ExecShellDialog {
    /// A dialog for the container with the first shell selected.
    pub fn new(container_id: String, refresh_target: ExecRefreshTarget) -> (r: ExecShellDialog)
        ensures
            r.container_id == container_id,
            r.refresh_target == refresh_target,
            r.selected == Some(0usize),
    {
        ExecShellDialog { container_id, refresh_target, selected: Some(0) }
    }

    pub fn navigate_up(&mut self)
        ensures
            *final(self) == (ExecShellDialog {
                selected: shell_row_above(old(self).selected),
                ..*old(self)
            }),
    {
        self.select_previous();
    }

    pub fn navigate_down(&mut self)
        ensures
            *final(self) == (ExecShellDialog {
                selected: shell_row_below(old(self).selected),
                ..*old(self)
            }),
    {
        self.select_next();
    }

    /// The shell request for the selected row.
    pub fn build_request(&self) -> (r: PendingExec)
        ensures
            r.container_id@ == self.container_id@,
            r.shell == shell_at(
                match self.selected {
                    Some(i) => i,
                    None => 0,
                },
            ),
            r.refresh_target == self.refresh_target,
    {
        let index = match self.selected {
            Some(i) => i,
            None => 0,
        };
        PendingExec {
            container_id: string_of(self.container_id.as_str()),
            shell: ExecShell::from_index(index),
            refresh_target: self.refresh_target,
        }
    }

    pub fn select_next(&mut self)
        ensures
            *final(self) == (ExecShellDialog {
                selected: shell_row_below(old(self).selected),
                ..*old(self)
            }),
    {
        let selected = match self.selected {
            Some(i) => i,
            None => 0,
        };
        let next = if selected >= EXEC_SHELL_OPTIONS.len() - 1 {
            0
        } else {
            selected + 1
        };
        self.selected = Some(next);
    }

    pub fn select_previous(&mut self)
        ensures
            *final(self) == (ExecShellDialog {
                selected: shell_row_above(old(self).selected),
                ..*old(self)
            }),
    {
        let selected = match self.selected {
            Some(i) => i,
            None => 0,
        };
        let previous = if selected == 0 {
            EXEC_SHELL_OPTIONS.len() - 1
        } else {
            selected - 1
        };
        self.selected = Some(previous);
    }
}

/// The arguments of the `docker` command that opens the shell.
pub open spec fn exec_args(host: Seq<char>, container_id: Seq<char>, shell: ExecShell) -> Seq<
    Seq<char>,
> {
    seq!["--host"@, host, "exec"@, "-it"@, container_id, shell_name(shell)]
}

/// The arguments of the `docker` command that opens the requested shell on
/// the configured engine.
pub fn build_exec_args(config: &ExecCommandConfig, request: &PendingExec) -> (r: Vec<String>)
    ensures
        crate::text::texts(r@) == exec_args(
            config.docker_host@,
            request.container_id@,
            request.shell,
        ),
{
    let mut args: Vec<String> = Vec::new();
    args.push(string_of("--host"));
    args.push(string_of(config.docker_host()));
    args.push(string_of("exec"));
    args.push(string_of("-it"));
    args.push(string_of(request.container_id.as_str()));
    args.push(string_of(request.shell.as_str()));
    assert(crate::text::texts(args@) =~= exec_args(
        config.docker_host@,
        request.container_id@,
        request.shell,
    ));
    args
}

/// The message shown when the shell could not be started.
pub open spec fn exec_error_text(error: IoFailure) -> Seq<char> {
    match error.kind {
        IoFailureKind::NotFound => "Docker CLI not found on PATH. Install the `docker` binary to use Exec. Raw error: "@
            + error.message@,
        IoFailureKind::PermissionDenied => "Docker CLI exists but is not executable. Check the `docker` binary permissions to use Exec. Raw error: "@
            + error.message@,
        IoFailureKind::Other => "Failed to start `docker exec`. Raw error: "@ + error.message@,
    }
}

pub fn format_exec_error(error: &IoFailure) -> (r: String)
    ensures
        r@ == exec_error_text(*error),
{
    let prefix = match error.kind() {
        IoFailureKind::NotFound => "Docker CLI not found on PATH. Install the `docker` binary to use Exec. Raw error: ",
        IoFailureKind::PermissionDenied => "Docker CLI exists but is not executable. Check the `docker` binary permissions to use Exec. Raw error: ",
        IoFailureKind::Other => "Failed to start `docker exec`. Raw error: ",
    };
    let mut out = string_of(prefix);
    push_text(&mut out, error.message.as_str());
    out
}

/// How a process exited: whether it succeeded, and its exit status as it
/// is printed.
#[derive(Debug, Clone)]
pub struct ExitStatusReport {
    pub success: bool,
    pub text: String,
}

/// What running the shell came to, when the screen could be taken back.
#[derive(Debug)]
pub enum ExecCommandResult {
    Status(ExitStatusReport),
    SpawnError(IoFailure),
}

/// Combines the outcome of the shell with that of taking the screen back: a
/// failure to take the screen back is what is reported, with the shell's
/// own failure appended when there is one.
pub fn finalize_exec_command_result(
    exec_result: Result<ExitStatusReport, IoFailure>,
    resume_result: Result<(), IoFailure>,
) -> (r: Result<ExecCommandResult, IoFailure>)
    ensures
        match (exec_result, resume_result) {
            (Ok(status), Ok(())) => r == Ok::<ExecCommandResult, IoFailure>(
                ExecCommandResult::Status(status),
            ),
            (Err(e), Ok(())) => r == Ok::<ExecCommandResult, IoFailure>(
                ExecCommandResult::SpawnError(e),
            ),
            (Ok(_), Err(resume)) => r == Err::<ExecCommandResult, IoFailure>(resume),
            (Err(e), Err(resume)) => r matches Err(f) && f.kind == resume.kind && f.message@
                == resume.message@ + "; docker exec also failed: "@ + e.message@,
        },
{
    match (exec_result, resume_result) {
        (Ok(status), Ok(())) => Ok(ExecCommandResult::Status(status)),
        (Err(exec_err), Ok(())) => Ok(ExecCommandResult::SpawnError(exec_err)),
        (Ok(_), Err(resume_err)) => Err(resume_err),
        (Err(exec_err), Err(resume_err)) => {
            let mut message = string_of(resume_err.message.as_str());
            push_text(&mut message, "; docker exec also failed: ");
            push_text(&mut message, exec_err.message.as_str());
            Err(IoFailure { kind: resume_err.kind, message })
        },
    }
}

/// The message to show once the shell is gone: none when it exited
/// successfully.
pub open spec fn exec_outcome_text(result: ExecCommandResult) -> Option<Seq<char>> {
    match result {
        ExecCommandResult::Status(status) => if status.success {
            None
        } else {
            Some("`docker exec` exited with status "@ + status.text@)
        },
        ExecCommandResult::SpawnError(e) => Some(exec_error_text(e)),
    }
}

pub fn exec_outcome_message(result: &ExecCommandResult) -> (r: Option<String>)
    ensures
        match exec_outcome_text(*result) {
            Some(t) => r matches Some(m) && m@ == t,
            None => r is None,
        },
{
    match result {
        ExecCommandResult::Status(status) => {
            if status.success {
                None
            } else {
                let mut out = string_of("`docker exec` exited with status ");
                push_text(&mut out, status.text.as_str());
                Some(out)
            }
        },
        ExecCommandResult::SpawnError(e) => Some(format_exec_error(e)),
    }
}

/// Keeps the first failure met while the screen is given back.
pub fn record_cleanup_error(cleanup_error: &mut Option<IoFailure>, result: Result<(), IoFailure>)
    ensures
        *final(cleanup_error) == (match (*old(cleanup_error), result) {
            (None, Err(e)) => Some(e),
            _ => *old(cleanup_error),
        }),
{
    if let Err(err) = result {
        if cleanup_error.is_none() {
            *cleanup_error = Some(err);
        }
    }
}

/// The outcome of the whole session: the main loop's failure, else the
/// first failure of giving the screen back; both together keep the main
/// loop's kind and name both.
pub fn finalize_run_result(result: Result<(), IoFailure>, cleanup_error: Option<IoFailure>) -> (r:
    Result<(), IoFailure>)
    ensures
        match (result, cleanup_error) {
            (Ok(()), None) => r is Ok,
            (Ok(()), Some(c)) => r == Err::<(), IoFailure>(c),
            (Err(e), None) => r == Err::<(), IoFailure>(e),
            (Err(e), Some(c)) => r matches Err(f) && f.kind == e.kind && f.message@ == e.message@
                + "; cleanup also failed: "@ + c.message@,
        },
{
    match (result, cleanup_error) {
        (Ok(()), None) => Ok(()),
        (Ok(()), Some(cleanup_err)) => Err(cleanup_err),
        (Err(err), None) => Err(err),
        (Err(err), Some(cleanup_err)) => {
            let mut message = string_of(err.message.as_str());
            push_text(&mut message, "; cleanup also failed: ");
            push_text(&mut message, cleanup_err.message.as_str());
            Err(IoFailure { kind: err.kind, message })
        },
    }
}

} // verus!
