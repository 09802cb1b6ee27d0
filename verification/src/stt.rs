//! Mapping of a remote transcription service's stream items to the
//! library's own responses.
//!
//! The remote session yields a stream of items: configuration echoes,
//! successful transcriptions, failures reported in-band, and transport
//! errors. Each is mapped to either nothing (dropped from the output
//! stream), a response carrying the transcribed words, or an error of the
//! library's own.

use vstd::prelude::*;

verus! {

/// One transcribed word (or phrase) with its timing.
pub struct StreamResponseWord {
    /// The transcribed text.
    pub text: String,
    /// Where it starts, in milliseconds.
    pub start: u64,
    /// Where it ends, in milliseconds.
    pub end: u64,
}

/// One response of the transcription stream.
pub struct StreamResponse {
    /// The words this response carries.
    pub words: Vec<StreamResponseWord>,
}

/// Error raised by the transcription stream.
pub enum SttError {
    /// The remote service failed; holds the reported detail.
    ClovaError(String),
}

/// One item of the remote service's stream, reduced to what the mapping
/// inspects: failure bodies arrive already rendered to text at the I/O edge.
pub enum ClovaStreamItem {
    /// The stream itself failed; holds the error rendered to text.
    TransportError(String),
    /// The service reported a transcription failure; holds the serialized
    /// failure body.
    TranscribeFailure(String),
    /// A successful transcription with its timing.
    TranscribeSuccess {
        /// The transcribed text.
        text: String,
        /// Where the transcription starts, in milliseconds.
        start_timestamp: u64,
        /// Where it ends, in milliseconds.
        end_timestamp: u64,
    },
    /// A configuration echo; dropped from the output stream.
    Config,
}

/// Map one stream item: errors of either kind become the library's error,
/// a success becomes a single-word response with the reported timing, and a
/// configuration echo is dropped.
pub fn map_stream_item(item: ClovaStreamItem) -> (r: Option<Result<StreamResponse, SttError>>)
    ensures
        (match item {
            ClovaStreamItem::TransportError(e) => r matches Some(Err(SttError::ClovaError(m)))
                && m == e,
            ClovaStreamItem::TranscribeFailure(body) => r matches Some(
                Err(SttError::ClovaError(m)),
            ) && m == body,
            ClovaStreamItem::TranscribeSuccess { text, start_timestamp, end_timestamp } => r
                matches Some(Ok(resp)) && resp.words@.len() == 1 && resp.words@[0].text == text
                && resp.words@[0].start == start_timestamp && resp.words@[0].end == end_timestamp,
            ClovaStreamItem::Config => r is None,
        }),
{
    match item {
        ClovaStreamItem::TransportError(e) => Some(Err(SttError::ClovaError(e))),
        ClovaStreamItem::TranscribeFailure(body) => Some(Err(SttError::ClovaError(body))),
        ClovaStreamItem::TranscribeSuccess { text, start_timestamp, end_timestamp } => {
            let mut words: Vec<StreamResponseWord> = Vec::new();
            words.push(StreamResponseWord { text, start: start_timestamp, end: end_timestamp });
            Some(Ok(StreamResponse { words }))
        },
        ClovaStreamItem::Config => None,
    }
}

} // verus!
