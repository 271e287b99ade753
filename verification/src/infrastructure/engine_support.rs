//! What the engine adapters compute around their calls: the states a
//! listing asks for, how many log lines are fetched, what a prune reports
//! and how a failed call is explained.
use crate::application::error::{app_error_text, AppError};
use crate::application::prune::PruneResultDto;
use crate::infrastructure::error::InfraError;
use crate::text::{decimal, push_decimal, push_text, string_of};
use vstd::prelude::*;

verus! {

/// Where the engine listens by default, as the `docker` command line is
/// told with `--host`.
pub const DEFAULT_DOCKER_SOCKET_HOST: &'static str = "unix:///var/run/docker.sock";

/// The container states a listing asks the engine for: all of them.
pub const LISTED_STATES: [&'static str; 7] = [
    "created",
    "restarting",
    "running",
    "removing",
    "paused",
    "exited",
    "dead",
];

/// How many log lines are fetched when no number is given.
pub const DEFAULT_LOG_TAIL: &'static str = "100";

/// How many seconds the engine waits for a container to stop before it
/// kills it.
pub const STOP_TIMEOUT_SECONDS: i64 = 10;

/// The number of log lines to ask for, as the engine's option text.
pub open spec fn tail_text(tail: Option<usize>) -> Seq<char> {
    match tail {
        Some(t) => decimal(t as nat),
        None => DEFAULT_LOG_TAIL@,
    }
}

pub fn log_tail_option(tail: Option<usize>) -> (r: String)
    ensures
        r@ == tail_text(tail),
{
    match tail {
        Some(t) => {
            let mut out = String::new();
            push_decimal(&mut out, t as u64);
            assert(out@ =~= decimal(t as nat));
            out
        },
        None => string_of(DEFAULT_LOG_TAIL),
    }
}

/// What a prune reports: how many resources the engine says it removed
/// (counted modulo 2^32, as a 32-bit count) and how many bytes it
/// reclaimed (a negative report read as its 64-bit two's complement);
/// zero for what the engine leaves out.
pub fn prune_result(deleted: Option<usize>, reclaimed: Option<i64>) -> (r: PruneResultDto)
    ensures
        r.deleted_count == (match deleted {
            Some(n) => n as u32,
            None => 0u32,
        }),
        r.space_freed == (match reclaimed {
            Some(s) => s as u64,
            None => 0u64,
        }),
{
    PruneResultDto {
        deleted_count: match deleted {
            Some(n) => n as u32,
            None => 0,
        },
        space_freed: match reclaimed {
            Some(s) => s as u64,
            None => 0,
        },
    }
}

/// The explanation of a failed call on one container: `Failed to <verb>
/// container: <detail>`.
pub open spec fn container_failure_text(verb: Seq<char>, detail: Seq<char>) -> Seq<char> {
    "Failed to "@ + verb + " container: "@ + detail
}

/// A failed start, stop, delete, restart, pause or unpause of a container.
pub fn container_failure(verb: &str, detail: &str) -> (r: AppError)
    ensures
        r matches AppError::OperationFailed(m) && m@ == container_failure_text(verb@, detail@),
{
    let mut message = string_of("Failed to ");
    push_text(&mut message, verb);
    push_text(&mut message, " container: ");
    push_text(&mut message, detail);
    AppError::OperationFailed(message)
}

/// A failed prune of containers.
pub fn prune_failure(detail: &str) -> (r: AppError)
    ensures
        r matches AppError::OperationFailed(m) && m@ == "Failed to prune containers: "@ + detail@,
{
    let mut message = string_of("Failed to prune containers: ");
    push_text(&mut message, detail);
    AppError::OperationFailed(message)
}

/// A failure while reading a log stream.
pub fn logs_failure(detail: &str) -> (r: AppError)
    ensures
        r matches AppError::Repository(m) && m@ == "Failed to get logs: "@ + detail@,
{
    let mut message = string_of("Failed to get logs: ");
    push_text(&mut message, detail);
    AppError::Repository(message)
}

/// The engine could not be reached.
pub fn connection_failure(detail: &str) -> (r: InfraError)
    ensures
        r matches InfraError::Connection(m) && m@ == "Failed to connect to Docker: "@ + detail@,
{
    let mut message = string_of("Failed to connect to Docker: ");
    push_text(&mut message, detail);
    InfraError::Connection(message)
}

/// An engine call failed while reading: its explanation is kept as a
/// repository failure.
pub fn repository_failure(detail: &str) -> (r: AppError)
    ensures
        r matches AppError::Repository(m) && m@ == detail@,
        app_error_text(r) == "Repository error: "@ + detail@,
{
    AppError::Repository(string_of(detail))
}

} // verus!
