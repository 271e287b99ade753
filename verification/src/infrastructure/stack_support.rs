//! The decisions of the stack adapter: error messages for failed container
//! and pull operations, and which images a pull fetches.
use crate::application::error::AppError;
use crate::failure::{IoFailure, IoFailureKind};
use crate::infrastructure::error::InfraError;
use crate::infrastructure::stack_mapper::lemma_text_lt_total;
use crate::text::{decimal, push_text, str_eq, str_lt, string_of, text_lt, trim_str, trimmed};
use vstd::prelude::*;

verus! {

/// What `String::from_utf8_lossy` makes of some bytes.
pub uninterp spec fn lossy_text(bytes: Seq<u8>) -> Seq<char>;

/// Calls `String::from_utf8_lossy`; the contract only names the result (the
/// replacement of malformed sequences is not written out here).
#[verifier::external_body]
fn lossy_utf8(bytes: &[u8]) -> (r: String)
    ensures
        r@ == lossy_text(bytes@),
{
    String::from_utf8_lossy(bytes).into_owned()
}

/// The message of a failed operation on one container of a stack.
pub open spec fn container_operation_text(operation: Seq<char>, id: Seq<char>, message: Seq<char>) -> Seq<char> {
    "Failed to "@ + operation + " container '"@ + id + "': "@ + message
}

/// The application error for a failed operation on one container of a
/// stack: connection failures stay connection failures, the rest are
/// repository failures; the message names the operation and the container.
pub open spec fn container_operation_app_error(operation: Seq<char>, id: Seq<char>, err: InfraError, r: AppError) -> bool {
    match err {
        InfraError::Connection(m) => r matches AppError::Connection(t) && t@ == container_operation_text(operation, id, m@),
        InfraError::Docker(m) => r matches AppError::Repository(t) && t@ == container_operation_text(operation, id, m@),
        InfraError::Serialization(m) => r matches AppError::Repository(t) && t@ == container_operation_text(operation, id, m@),
    }
}

pub fn container_operation_error(operation: &str, id: &str, err: InfraError) -> (r: AppError)
    ensures
        container_operation_app_error(operation@, id@, err, r),
{
    let message = match &err {
        InfraError::Connection(m) => m.as_str(),
        InfraError::Docker(m) => m.as_str(),
        InfraError::Serialization(m) => m.as_str(),
    };
    let mut text = string_of("Failed to ");
    push_text(&mut text, operation);
    push_text(&mut text, " container '");
    push_text(&mut text, id);
    push_text(&mut text, "': ");
    push_text(&mut text, message);
    match err {
        InfraError::Connection(_) => AppError::Connection(text),
        InfraError::Docker(_) => AppError::Repository(text),
        InfraError::Serialization(_) => AppError::Repository(text),
    }
}

/// Whether an image reference is worth pulling: not blank and not the
/// `unknown` placeholder.
pub open spec fn pullable(image: Seq<char>) -> bool {
    trimmed(image).len() > 0 && image != "unknown"@
}

/// The images a pull fetches: each pullable reference once, in `str` order.
pub open spec fn pull_list_of(refs: Seq<String>, r: Seq<String>) -> bool {
    &&& forall|k: int| 0 <= k < r.len() ==> pullable(#[trigger] r[k]@) && exists|j: int| 0 <= j < refs.len() && refs[j]@ == r[k]@
    &&& forall|j: int| 0 <= j < refs.len() && pullable(#[trigger] refs[j]@) ==> exists|k: int| 0 <= k < r.len() && r[k]@ == refs[j]@
    &&& forall|a: int, b: int| 0 <= a < r.len() && 0 <= b < r.len() && a != b ==> #[trigger] r[a]@ != #[trigger] r[b]@
    &&& forall|k: int| 0 <= k < r.len() - 1 ==> text_lt(#[trigger] r[k]@, r[k + 1]@)
}

fn is_pullable(image: &str) -> (r: bool)
    ensures
        r == pullable(image@),
{
    !trim_str(image).is_empty() && !str_eq(image, "unknown")
}

fn listed(v: &Vec<String>, s: &str) -> (r: bool)
    ensures
        r == exists|k: int| 0 <= k < v@.len() && #[trigger] v@[k]@ == s@,
{
    let mut k: usize = 0;
    while k < v.len()
        invariant
            k <= v@.len(),
            forall|t: int| 0 <= t < k ==> #[trigger] v@[t]@ != s@,
        decreases v@.len() - k,
    {
        if str_eq(v[k].as_str(), s) {
            return true;
        }
        k = k + 1;
    }
    false
}

/// The distinct pullable references, in order.
pub fn unique_image_refs(image_refs: &[String]) -> (r: Vec<String>)
    ensures
        pull_list_of(image_refs@, r@),
{
    let mut out: Vec<String> = Vec::new();
    let mut j: usize = 0;
    while j < image_refs.len()
        invariant
            j <= image_refs@.len(),
            forall|k: int| 0 <= k < out@.len() ==> pullable(#[trigger] out@[k]@) && exists|t: int| 0 <= t < image_refs@.len() && image_refs@[t]@ == out@[k]@,
            forall|t: int| 0 <= t < j && pullable(#[trigger] image_refs@[t]@) ==> exists|k: int| 0 <= k < out@.len() && out@[k]@ == image_refs@[t]@,
            forall|a: int, b: int| 0 <= a < out@.len() && 0 <= b < out@.len() && a != b ==> #[trigger] out@[a]@ != #[trigger] out@[b]@,
            forall|k: int| 0 <= k < out@.len() - 1 ==> text_lt(#[trigger] out@[k]@, out@[k + 1]@),
        decreases image_refs@.len() - j,
    {
        let image = &image_refs[j];
        if is_pullable(image.as_str()) && !listed(&out, image.as_str()) {
            let mut p: usize = 0;
            while p < out.len() && str_lt(out[p].as_str(), image.as_str())
                invariant
                    p <= out@.len(),
                    forall|t: int| 0 <= t < p ==> text_lt(#[trigger] out@[t]@, image@),
                decreases out@.len() - p,
            {
                p = p + 1;
            }
            let ghost before = out@;
            proof {
                if p < before.len() {
                    lemma_text_lt_total(before[p as int]@, image@);
                }
            }
            out.insert(p, image.clone());
            proof {
                let after = out@;
                assert(after[p as int]@ == image@);
                assert forall|k: int| 0 <= k < after.len() implies pullable(#[trigger] after[k]@) && exists|t: int| 0 <= t < image_refs@.len() && image_refs@[t]@ == after[k]@ by {
                    if k < p {
                        assert(after[k] == before[k]);
                    } else if k > p {
                        assert(after[k] == before[k - 1]);
                    } else {
                        assert(image_refs@[j as int]@ == after[k]@);
                    }
                }
                assert forall|t: int| 0 <= t <= j && pullable(#[trigger] image_refs@[t]@) implies exists|k: int| 0 <= k < after.len() && after[k]@ == image_refs@[t]@ by {
                    if t == j {
                        assert(after[p as int]@ == image_refs@[t]@);
                    } else {
                        let k0 = choose|k: int| 0 <= k < before.len() && before[k]@ == image_refs@[t]@;
                        if k0 < p {
                            assert(after[k0] == before[k0]);
                        } else {
                            assert(after[k0 + 1] == before[k0]);
                        }
                    }
                }
                assert forall|a: int, b: int| 0 <= a < after.len() && 0 <= b < after.len() && a != b implies #[trigger] after[a]@ != #[trigger] after[b]@ by {
                    let ba = if a < p { a } else { a - 1 };
                    let bb = if b < p { b } else { b - 1 };
                    if a != p && b != p {
                        assert(after[a] == before[ba] && after[b] == before[bb]);
                    } else if a == p {
                        assert(after[b] == before[bb]);
                    } else {
                        assert(after[a] == before[ba]);
                    }
                }
                assert forall|k: int| 0 <= k < after.len() - 1 implies text_lt(#[trigger] after[k]@, after[k + 1]@) by {
                    if k < p - 1 {
                        assert(after[k] == before[k] && after[k + 1] == before[k + 1]);
                    } else if k == p - 1 {
                        assert(after[k] == before[k]);
                    } else if k == p {
                        assert(after[k + 1] == before[k]);
                    } else {
                        assert(after[k] == before[k - 1] && after[k + 1] == before[k]);
                    }
                }
            }
        } else {
            proof {
                if pullable(image_refs@[j as int]@) {
                    assert(exists|k: int| 0 <= k < out@.len() && #[trigger] out@[k]@ == image@);
                }
            }
        }
        j = j + 1;
    }
    out
}

/// The message when `docker pull` could not be started: a missing binary
/// and a binary that may not be run get their own explanation.
pub open spec fn pull_spawn_text(image: Seq<char>, err: IoFailure) -> Seq<char> {
    match err.kind {
        IoFailureKind::NotFound => "Docker CLI not found on PATH while pulling image '"@ + image
            + "'. Install the `docker` binary to use stack pull. Raw error: "@ + err.message@,
        IoFailureKind::PermissionDenied => "Docker CLI exists but is not executable while pulling image '"@
            + image + "'. Check the `docker` binary permissions. Raw error: "@ + err.message@,
        IoFailureKind::Other => "Failed to start `docker pull` for image '"@ + image
            + "'. Raw error: "@ + err.message@,
    }
}

pub fn image_pull_spawn_error(image: &str, err: &IoFailure) -> (r: AppError)
    ensures
        r matches AppError::OperationFailed(t) && t@ == pull_spawn_text(image@, *err),
{
    let (head, tail): (&str, &str) = match err.kind() {
        IoFailureKind::NotFound => (
            "Docker CLI not found on PATH while pulling image '",
            "'. Install the `docker` binary to use stack pull. Raw error: ",
        ),
        IoFailureKind::PermissionDenied => (
            "Docker CLI exists but is not executable while pulling image '",
            "'. Check the `docker` binary permissions. Raw error: ",
        ),
        IoFailureKind::Other => ("Failed to start `docker pull` for image '", "'. Raw error: "),
    };
    let mut text = string_of(head);
    push_text(&mut text, image);
    push_text(&mut text, tail);
    push_text(&mut text, err.message.as_str());
    AppError::OperationFailed(text)
}

/// What a failed pull reports: the trimmed error output, else the trimmed
/// standard output, else the exit status.
pub open spec fn pull_status_details(stdout: Seq<u8>, stderr: Seq<u8>, status: Seq<char>) -> Seq<char> {
    if trimmed(lossy_text(stderr)).len() > 0 {
        trimmed(lossy_text(stderr))
    } else if trimmed(lossy_text(stdout)).len() > 0 {
        trimmed(lossy_text(stdout))
    } else {
        "`docker pull` exited with status "@ + status
    }
}

/// The error for a `docker pull` that ran and failed; `status` is how its
/// exit status is shown.
pub fn image_pull_status_error(image: &str, stdout: &[u8], stderr: &[u8], status: &str) -> (r: AppError)
    ensures
        r matches AppError::OperationFailed(t) && t@ == "Failed to pull image '"@ + image@ + "': "@ + pull_status_details(stdout@, stderr@, status@),
{
    let err_text = lossy_utf8(stderr);
    let out_text = lossy_utf8(stdout);
    let err_trimmed = trim_str(err_text.as_str());
    let out_trimmed = trim_str(out_text.as_str());
    let details = if !err_trimmed.is_empty() {
        string_of(err_trimmed)
    } else if !out_trimmed.is_empty() {
        string_of(out_trimmed)
    } else {
        let mut d = string_of("`docker pull` exited with status ");
        push_text(&mut d, status);
        d
    };
    let mut text = string_of("Failed to pull image '");
    push_text(&mut text, image);
    push_text(&mut text, "': ");
    push_text(&mut text, details.as_str());
    AppError::OperationFailed(text)
}

} // verus!
