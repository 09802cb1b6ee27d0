//! Transcription loop decisions: the confidence filter and the outbound
//! transcript events.
//!
//! The transcription engine itself is an opaque outside component invoked
//! once per segment; what it reports for a segment — text, start, duration,
//! and a confidence score — is handed in here, and whether and what to emit
//! is decided and verified here. Confidence is carried in thousandths, the
//! engine's unit-range score scaled by 1000 at the I/O edge.

use vstd::prelude::*;
use vstd::string::StrSliceExecFns;

verus! {

/// Confidence bound, in thousandths: results scoring below it are dropped
/// when they are also short.
pub const MIN_CONFIDENCE_PERMILLE: u32 = 500;

/// Text length (in characters) from which a result is kept regardless of its
/// confidence.
pub const CONFIDENT_TEXT_LEN: usize = 12;

/// One transcript emitted to the client.
pub struct TranscriptChunk {
    /// The transcribed text.
    pub text: String,
    /// Where the transcribed audio starts, in milliseconds.
    pub start: u64,
    /// Where it ends, in milliseconds; never before `start`.
    pub end: u64,
}

/// An outbound message to the client; further variants are reserved for
/// other event kinds.
pub enum ListenOutputChunk {
    /// A transcript event.
    Transcribe(TranscriptChunk),
}

/// Whether a result survives the confidence filter: dropped only when its
/// confidence is below the bound AND its text is short — the conjunction
/// keeps short-but-confident results while suppressing noisy low-confidence
/// fragments.
pub open spec fn keeps_transcript(confidence_permille: u32, text_len: nat) -> bool {
    !(confidence_permille < MIN_CONFIDENCE_PERMILLE && text_len < CONFIDENT_TEXT_LEN)
}

/// The confidence filter, as a decision on the score and the text length.
pub fn should_emit(confidence_permille: u32, text_len: usize) -> (r: bool)
    ensures
        r == keeps_transcript(confidence_permille, text_len as nat),
{
    !(confidence_permille < MIN_CONFIDENCE_PERMILLE && text_len < CONFIDENT_TEXT_LEN)
}

/// Build the outbound event for one transcribed segment, applying the
/// confidence filter: a surviving result becomes a transcript event spanning
/// from `start_ms` for `duration_ms`; a filtered one yields nothing.
pub fn filter_transcript(text: String, start_ms: u64, duration_ms: u64, confidence_permille: u32)
    -> (r: Option<ListenOutputChunk>)
    requires
        start_ms + duration_ms <= u64::MAX,
    ensures
        keeps_transcript(confidence_permille, text@.len()) ==> (r matches Some(
            ListenOutputChunk::Transcribe(c),
        ) && c.text == text && c.start == start_ms && c.end == start_ms + duration_ms && c.end
            >= c.start),
        !keeps_transcript(confidence_permille, text@.len()) ==> r is None,
{
    let len = text.as_str().unicode_len();
    if should_emit(confidence_permille, len) {
        Some(
            ListenOutputChunk::Transcribe(
                TranscriptChunk { text, start: start_ms, end: start_ms + duration_ms },
            ),
        )
    } else {
        None
    }
}

} // verus!
