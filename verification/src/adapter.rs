//! Sample source adapter: turns the discrete payloads of a message-oriented
//! transport into a sample sequence.
//!
//! The transport and the payload framing (the messages arrive as structured
//! text carrying a byte array) live outside this library; each received
//! message is handed in reduced to what the adapter inspects, and the
//! decision — decode samples, report none this tick, or end the sequence —
//! is made here.

use vstd::prelude::*;
use crate::pcm::{decode_pcm, decoded_pcm};

verus! {

/// One inbound transport message, reduced to what the adapter inspects.
pub enum InboundMessage {
    /// A payload carrying raw interleaved little-endian 16-bit PCM bytes.
    Audio(Vec<u8>),
    /// The peer closed the transport.
    Closed,
    /// A receive or decode failure.
    TransportError,
    /// Any other message kind.
    Other,
}

/// What one inbound message contributes to the sample sequence.
pub enum AdapterStep {
    /// The samples this message carried — possibly none, in which case the
    /// sequence continues and the adapter simply asks again.
    Samples(Vec<i16>),
    /// The sample sequence ends here.
    EndOfInput,
}

/// Process one inbound message: an audio payload is decoded to samples, an
/// empty payload signals end-of-input, a close or error ends the sequence
/// gracefully, and any other message yields zero samples this tick.
pub fn adapter_step(msg: InboundMessage) -> (r: AdapterStep)
    ensures
        (match msg {
            InboundMessage::Audio(b) => if b@.len() == 0 {
                r is EndOfInput
            } else {
                r matches AdapterStep::Samples(s) && s@ == decoded_pcm(b@)
            },
            InboundMessage::Closed => r is EndOfInput,
            InboundMessage::TransportError => r is EndOfInput,
            InboundMessage::Other => (r matches AdapterStep::Samples(s) && s@ == Seq::<
                i16,
            >::empty()),
        }),
{
    match msg {
        InboundMessage::Audio(b) => {
            if b.len() == 0 {
                AdapterStep::EndOfInput
            } else {
                AdapterStep::Samples(decode_pcm(&b))
            }
        },
        InboundMessage::Closed => AdapterStep::EndOfInput,
        InboundMessage::TransportError => AdapterStep::EndOfInput,
        InboundMessage::Other => {
            let empty: Vec<i16> = Vec::new();
            AdapterStep::Samples(empty)
        },
    }
}

} // verus!
