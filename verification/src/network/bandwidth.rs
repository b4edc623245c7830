use vstd::prelude::*;
use crate::models::ProbeError;

verus! {

/// Parallel HTTP connections of each bandwidth test phase.
pub const CONCURRENT_CONNECTIONS: usize = 4;

/// Length of each bandwidth test phase, in seconds.
pub const PHASE_DURATION_SECS: u64 = 10;

/// Size of each uploaded chunk, in bytes.
pub const UPLOAD_CHUNK_SIZE: usize = 65536;

pub const DOWNLOAD_RATE_LIMITED: &'static str =
    "Cloudflare Rate Limit (Ban) Exceeded. Please wait ~1 hour before testing again.";

pub const UPLOAD_RATE_LIMITED: &'static str = "Cloudflare Rate Limit (Ban) Exceeded during upload.";

pub const DOWNLOAD_HTTP_ERROR_PREFIX: &'static str = "HTTP Error: ";

pub const UPLOAD_HTTP_ERROR_PREFIX: &'static str = "HTTP Upload Error: ";

/// The error a test phase reports when the server answers with a failure
/// status, given whether the status is 429 (Too Many Requests) and its
/// display text.  A failure after some data was transferred is not
/// reported: the worker just stops.
pub open spec fn spec_status_error(
    upload: bool,
    too_many_requests: bool,
    status_text: Seq<char>,
    bytes_so_far: usize,
) -> Option<(bool, Seq<char>)> {
    if bytes_so_far != 0 {
        None
    } else if too_many_requests {
        Some((true, if upload { UPLOAD_RATE_LIMITED@ } else { DOWNLOAD_RATE_LIMITED@ }))
    } else {
        Some(
            (
                false,
                (if upload { UPLOAD_HTTP_ERROR_PREFIX@ } else { DOWNLOAD_HTTP_ERROR_PREFIX@ })
                    + status_text,
            ),
        )
    }
}

/// An error as (is it a rate limit, its message), for the two kinds a
/// bandwidth test reports.
pub open spec fn bandwidth_error_view(e: ProbeError) -> Option<(bool, Seq<char>)> {
    match e {
        ProbeError::RateLimited(m) => Some((true, m@)),
        ProbeError::BandwidthTestFailed(m) => Some((false, m@)),
        _ => None,
    }
}

/// The error to report for a failure status answered to a download
/// (`upload == false`) or upload request, if one is reported.
pub fn status_error(upload: bool, too_many_requests: bool, status_text: &str, bytes_so_far: usize) -> (res:
    Option<ProbeError>)
    ensures
        res is Some <==> spec_status_error(upload, too_many_requests, status_text@, bytes_so_far) is Some,
        res matches Some(e) ==> bandwidth_error_view(e) == spec_status_error(
            upload,
            too_many_requests,
            status_text@,
            bytes_so_far,
        ),
{
    if bytes_so_far != 0 {
        return None;
    }
    if too_many_requests {
        let msg = if upload {
            String::from_str(UPLOAD_RATE_LIMITED)
        } else {
            String::from_str(DOWNLOAD_RATE_LIMITED)
        };
        Some(ProbeError::RateLimited(msg))
    } else {
        let mut msg = if upload {
            String::from_str(UPLOAD_HTTP_ERROR_PREFIX)
        } else {
            String::from_str(DOWNLOAD_HTTP_ERROR_PREFIX)
        };
        msg.append(status_text);
        Some(ProbeError::BandwidthTestFailed(msg))
    }
}

pub const CANCELLED_BY_USER: &'static str = "Cancelled by user";

pub const DOWNLOAD_ABORTED: &'static str =
    "Test aborted internally due to server error (e.g. Rate Limit)";

pub const UPLOAD_ABORTED: &'static str = "Test aborted internally due to server error";

/// What ends the wait of a running test phase.
#[derive(Debug, Clone, Copy, PartialEq, Eq)]
pub enum PhaseEvent {
    /// The user cancelled the whole test.
    UserCancelled,
    /// The phase's workers were cancelled: a worker reported a failure,
    /// or the upload deadline cancelled them.
    WorkersAborted,
    /// The phase ran for its whole duration.
    TimeUp,
    /// Progress could no longer be delivered to the interface.
    UiGone,
}

/// How a test phase ends.
#[derive(Debug)]
pub enum PhaseOutcome {
    /// The phase is over; its result is measured and the test goes on.
    Completed,
    /// The test fails with this error.
    Failed(ProbeError),
}

/// The message a phase fails with after `event`, or `None` when the phase
/// completes.  `deadline_passed` tells whether the upload deadline had
/// already been reached; an abort caused by that deadline is a normal end.
pub open spec fn spec_phase_failure(upload: bool, event: PhaseEvent, deadline_passed: bool) -> Option<
    Seq<char>,
> {
    match event {
        PhaseEvent::UserCancelled => Some(CANCELLED_BY_USER@),
        PhaseEvent::WorkersAborted => if !upload {
            Some(DOWNLOAD_ABORTED@)
        } else if deadline_passed {
            None
        } else {
            Some(UPLOAD_ABORTED@)
        },
        PhaseEvent::TimeUp => None,
        PhaseEvent::UiGone => None,
    }
}

/// How the download (`upload == false`) or upload phase ends after `event`.
pub fn phase_outcome(upload: bool, event: PhaseEvent, deadline_passed: bool) -> (res: PhaseOutcome)
    ensures
        res is Completed <==> spec_phase_failure(upload, event, deadline_passed) is None,
        res matches PhaseOutcome::Failed(e) ==> bandwidth_error_view(e) == Some(
            (false, spec_phase_failure(upload, event, deadline_passed)->Some_0),
        ),
{
    let msg = match event {
        PhaseEvent::UserCancelled => CANCELLED_BY_USER,
        PhaseEvent::WorkersAborted => if !upload {
            DOWNLOAD_ABORTED
        } else if deadline_passed {
            return PhaseOutcome::Completed;
        } else {
            UPLOAD_ABORTED
        },
        PhaseEvent::TimeUp => return PhaseOutcome::Completed,
        PhaseEvent::UiGone => return PhaseOutcome::Completed,
    };
    PhaseOutcome::Failed(ProbeError::BandwidthTestFailed(String::from_str(msg)))
}

/// Law: a phase that runs for its whole duration, or whose progress can no
/// longer be shown, completes; a user's cancel always fails the test with
/// the same message; a worker abort fails the download phase, and fails
/// the upload phase exactly when the upload deadline had not yet passed.
pub proof fn lemma_phase_ends(upload: bool, deadline_passed: bool)
    ensures
        spec_phase_failure(upload, PhaseEvent::TimeUp, deadline_passed) is None,
        spec_phase_failure(upload, PhaseEvent::UiGone, deadline_passed) is None,
        spec_phase_failure(upload, PhaseEvent::UserCancelled, deadline_passed) == Some(
            CANCELLED_BY_USER@,
        ),
        spec_phase_failure(false, PhaseEvent::WorkersAborted, deadline_passed) is Some,
        spec_phase_failure(true, PhaseEvent::WorkersAborted, deadline_passed) is None
            <==> deadline_passed,
{
}

/// Law: a failure status is reported only while nothing has been
/// transferred; then it is always reported, as a rate limit exactly when
/// the status is 429, and otherwise with the status text at its end.
pub proof fn lemma_status_error_only_before_data(
    upload: bool,
    too_many_requests: bool,
    status_text: Seq<char>,
    bytes_so_far: usize,
)
    ensures
        spec_status_error(upload, too_many_requests, status_text, bytes_so_far) is Some
            <==> bytes_so_far == 0,
        spec_status_error(upload, too_many_requests, status_text, bytes_so_far) matches Some(
            (rate_limited, message),
        ) ==> {
            &&& rate_limited == too_many_requests
            &&& !too_many_requests ==> message.len() >= status_text.len() && message.subrange(
                message.len() - status_text.len(),
                message.len() as int,
            ) == status_text
        },
{
    if bytes_so_far == 0 && !too_many_requests {
        let prefix = if upload {
            UPLOAD_HTTP_ERROR_PREFIX@
        } else {
            DOWNLOAD_HTTP_ERROR_PREFIX@
        };
        assert((prefix + status_text).subrange(prefix.len() as int, (prefix + status_text).len() as int)
            =~= status_text);
    }
}

} // verus!
