//! Classification of one poll cycle's outcome. The HTTP transfer itself is
//! performed by the surrounding application; this module decides what a
//! transfer result means: anything short of a successful response with a
//! parseable body collapses to "absent", and an accepted change replaces the
//! last accepted snapshot.

use vstd::prelude::*;

use crate::differ::{status_changed, status_changed_spec};
use crate::status::{snapshot_view, AppStatus, AppStatusV};

verus! {

/// Fixed control port of the supervised backend.
pub const CONTROL_PORT: u16 = 6200;

/// Delay before the first poll after startup, in milliseconds, granting a
/// freshly spawned backend time to initialize.
pub const STARTUP_DELAY_MS: u64 = 2000;

/// Steady-state interval between polls, in milliseconds.
pub const POLL_INTERVAL_MS: u64 = 5000;

/// The status endpoint polled each cycle.
pub fn status_url() -> (r: &'static str)
    ensures
        r@ == "http://127.0.0.1:6200/api/status"@,
{
    "http://127.0.0.1:6200/api/status"
}

/// The best-effort shutdown endpoint, used as the first step of a restart.
pub fn shutdown_url() -> (r: &'static str)
    ensures
        r@ == "http://127.0.0.1:6200/api/shutdown"@,
{
    "http://127.0.0.1:6200/api/shutdown"
}

/// The best-effort reset endpoint, used by the reload command.
pub fn reset_url() -> (r: &'static str)
    ensures
        r@ == "http://127.0.0.1:6200/api/reset"@,
{
    "http://127.0.0.1:6200/api/reset"
}

/// Raw outcome of one status fetch, as the surrounding application hands it
/// over: either the transport failed outright, or a response arrived with a
/// status code and a body that did or did not parse as a snapshot.
pub enum PollOutcome {
    TransportFailed,
    HttpResponse { status: u16, parsed: Option<AppStatus> },
}

/// Mathematical view of a `PollOutcome`.
pub enum PollOutcomeV {
    TransportFailed,
    HttpResponse { status: u16, parsed: Option<AppStatusV> },
}

impl View for PollOutcome {
    type V = PollOutcomeV;

    open spec fn view(&self) -> PollOutcomeV {
        match self {
            PollOutcome::TransportFailed => PollOutcomeV::TransportFailed,
            PollOutcome::HttpResponse { status, parsed } => PollOutcomeV::HttpResponse {
                status: *status,
                parsed: match parsed {
                    Some(s) => Some(s@),
                    None => None,
                },
            },
        }
    }
}

/// A successful HTTP status code.
pub open spec fn is_success_status(code: u16) -> bool {
    200 <= code < 300
}

/// What a poll outcome yields: a snapshot only when the transport succeeded,
/// the status code was successful, and the body parsed; everything else is
/// absent, so "cannot tell" and "unparseable" are treated identically.
pub open spec fn accept_spec(r: PollOutcomeV) -> Option<AppStatusV> {
    match r {
        PollOutcomeV::TransportFailed => None,
        PollOutcomeV::HttpResponse { status, parsed } => if is_success_status(status) {
            parsed
        } else {
            None
        },
    }
}

/// Collapses a poll outcome to a present-or-absent snapshot.
pub fn accept_poll(r: PollOutcome) -> (o: Option<AppStatus>)
    ensures
        snapshot_view(o) == accept_spec(r@),
{
    match r {
        PollOutcome::TransportFailed => None,
        PollOutcome::HttpResponse { status, parsed } => {
            if 200 <= status && status < 300 {
                parsed
            } else {
                None
            }
        },
    }
}

/// One step of the status synchronization loop: classify the fetch, diff it
/// against the last accepted snapshot, and replace the snapshot exactly when
/// a change is detected. Returns the new last-accepted snapshot and whether
/// the control surface must be re-rendered.
pub fn poll_cycle(last: Option<AppStatus>, fetched: PollOutcome) -> (r: (Option<AppStatus>, bool))
    ensures
        r.1 == status_changed_spec(accept_spec(fetched@), snapshot_view(last)),
        snapshot_view(r.0) == if r.1 {
            accept_spec(fetched@)
        } else {
            snapshot_view(last)
        },
{
    let accepted = accept_poll(fetched);
    let changed = status_changed(&accepted, &last);
    if changed {
        (accepted, true)
    } else {
        (last, false)
    }
}

/// A response with a non-success status yields the same absent result as a
/// transport failure, and diffs identically against any last snapshot.
pub proof fn lemma_http_error_is_absent(status: u16, parsed: Option<AppStatusV>, last: Option<AppStatusV>)
    requires
        !is_success_status(status),
    ensures
        accept_spec(PollOutcomeV::HttpResponse { status, parsed }) == accept_spec(
            PollOutcomeV::TransportFailed,
        ),
        status_changed_spec(
            accept_spec(PollOutcomeV::HttpResponse { status, parsed }),
            last,
        ) == status_changed_spec(None, last),
{
}

} // verus!
