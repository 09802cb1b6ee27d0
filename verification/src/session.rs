//! The serving shell's per-connection state machine.
//!
//! A connection attempt is validated and tries to acquire the admission
//! slot; rejection is terminal and answered with a distinct capacity status,
//! without upgrading the transport. An admitted connection is wired into a
//! fresh pipeline and streams transcript events until the source is
//! exhausted or a send fails, whichever happens first; then the connection
//! closes and the slot is released.

use vstd::prelude::*;

verus! {

/// The states a connection attempt moves through.
#[derive(Clone, Copy, PartialEq, Eq, Structural, Debug)]
pub enum SessionPhase {
    /// The request is being validated and admission attempted.
    Upgrading,
    /// Admission was rejected: terminal, the transport is never upgraded.
    SlotRejected,
    /// Admission succeeded; the pipeline is being wired.
    Admitted,
    /// Transcript events are being pumped to the client.
    Streaming,
    /// The session is over: the slot is released and the transport closed.
    Closed,
}

/// The events that drive a connection's lifecycle.
#[derive(Clone, Copy, PartialEq, Eq, Structural, Debug)]
pub enum SessionEvent {
    /// The admission attempt was decided: admitted or rejected.
    AdmissionDecided(bool),
    /// The admitted pipeline is wired and starts pumping.
    StreamStarted,
    /// The transcript sequence ended: the source is exhausted.
    StreamEnded,
    /// Sending to the client failed: the client disconnected.
    SendFailed,
}

/// Which phase an event moves a connection to. Events that do not apply to
/// the current phase leave it unchanged; `SlotRejected` and `Closed` are
/// terminal.
pub open spec fn spec_session_step(phase: SessionPhase, event: SessionEvent) -> SessionPhase {
    match (phase, event) {
        (SessionPhase::Upgrading, SessionEvent::AdmissionDecided(admitted)) => if admitted {
            SessionPhase::Admitted
        } else {
            SessionPhase::SlotRejected
        },
        (SessionPhase::Admitted, SessionEvent::StreamStarted) => SessionPhase::Streaming,
        (SessionPhase::Streaming, SessionEvent::StreamEnded) => SessionPhase::Closed,
        (SessionPhase::Streaming, SessionEvent::SendFailed) => SessionPhase::Closed,
        _ => phase,
    }
}

/// Advance a connection's lifecycle by one event.
pub fn session_step(phase: SessionPhase, event: SessionEvent) -> (next: SessionPhase)
    ensures
        next == spec_session_step(phase, event),
{
    match (phase, event) {
        (SessionPhase::Upgrading, SessionEvent::AdmissionDecided(admitted)) => if admitted {
            SessionPhase::Admitted
        } else {
            SessionPhase::SlotRejected
        },
        (SessionPhase::Admitted, SessionEvent::StreamStarted) => SessionPhase::Streaming,
        (SessionPhase::Streaming, SessionEvent::StreamEnded) => SessionPhase::Closed,
        (SessionPhase::Streaming, SessionEvent::SendFailed) => SessionPhase::Closed,
        _ => phase,
    }
}

/// Terminal phases stay terminal: no event leaves `SlotRejected` or
/// `Closed`.
pub proof fn lemma_terminal_phases_absorb(event: SessionEvent)
    ensures
        spec_session_step(SessionPhase::SlotRejected, event) == SessionPhase::SlotRejected,
        spec_session_step(SessionPhase::Closed, event) == SessionPhase::Closed,
{
}

/// The response to a connection attempt's admission outcome: an admitted
/// attempt upgrades the transport, a rejected one is answered with the
/// distinct capacity-exceeded status.
#[derive(Clone, Copy, PartialEq, Eq, Structural, Debug)]
pub enum AdmissionResponse {
    /// Admission succeeded: upgrade the transport and start streaming.
    Upgrade,
    /// Capacity is exhausted: answer "too many requests", never upgrading.
    TooManyRequests,
}

/// Decide the response to a connection attempt from its admission outcome.
pub fn admission_response(admitted: bool) -> (r: AdmissionResponse)
    ensures
        admitted ==> r == AdmissionResponse::Upgrade,
        !admitted ==> r == AdmissionResponse::TooManyRequests,
{
    if admitted {
        AdmissionResponse::Upgrade
    } else {
        AdmissionResponse::TooManyRequests
    }
}

/// The fixed body answered by the liveness probe.
pub fn health_body() -> (r: &'static str)
    ensures
        r@ == "ok"@,
{
    "ok"
}

} // verus!
