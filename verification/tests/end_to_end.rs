use local_stt::adapter::{adapter_step, AdapterStep, InboundMessage};
use local_stt::pcm::encode_sample;
use local_stt::rechunker::{rechunk_all, SegmentBuffer, VadTransition};
use local_stt::session::{session_step, SessionEvent, SessionPhase};
use local_stt::transcript::{filter_transcript, ListenOutputChunk};

fn pcm_bytes(samples: &[i16]) -> Vec<u8> {
    let mut bytes = Vec::new();
    for &s in samples {
        let (b0, b1) = encode_sample(s);
        bytes.push(b0);
        bytes.push(b1);
    }
    bytes
}

// The engine and detection model are scripted: the tone segment transcribes
// confidently, the residual flush of trailing silence yields a short
// low-confidence fragment.
fn scripted_engine(index: usize, _segment: &SegmentBuffer) -> (String, u64, u64, u32) {
    if index == 0 {
        (String::from("hello from the tone"), 500, 1000, 900)
    } else {
        (String::from("uh"), 2000, 20, 300)
    }
}

#[test]
fn end_to_end_single_tone_yields_one_transcript() {
    // 500 ms of silence, 1 s of tone, 500 ms of silence at 16 kHz, then an
    // empty payload signalling end-of-input.
    let silence = vec![0i16; 8000];
    let tone: Vec<i16> =
        (0..16000).map(|i| if (i / 18) % 2 == 0 { 12000 } else { -12000 }).collect();
    let messages = vec![
        InboundMessage::Audio(pcm_bytes(&silence)),
        InboundMessage::Audio(pcm_bytes(&tone)),
        InboundMessage::Audio(pcm_bytes(&silence)),
        InboundMessage::Audio(vec![]),
    ];

    let mut phase = session_step(SessionPhase::Upgrading, SessionEvent::AdmissionDecided(true));
    assert_eq!(phase, SessionPhase::Admitted);
    phase = session_step(phase, SessionEvent::StreamStarted);
    assert_eq!(phase, SessionPhase::Streaming);

    let mut samples: Vec<i16> = Vec::new();
    let mut ended = false;
    for msg in messages {
        match adapter_step(msg) {
            AdapterStep::Samples(s) => samples.extend(s),
            AdapterStep::EndOfInput => {
                ended = true;
                break;
            },
        }
    }
    assert!(ended);
    assert_eq!(samples.len(), 32000);

    // 66 full frames; the model reports the tone region ending shortly after
    // the tone stops.
    let n_frames = samples.len() / 480;
    assert_eq!(n_frames, 66);
    let speech: Vec<i16> = samples[8000..24000].to_vec();
    let mut results: Vec<Vec<VadTransition>> = vec![vec![]; n_frames];
    results[17] = vec![VadTransition::SpeechStart { timestamp_ms: 500 }];
    results[52] = vec![VadTransition::SpeechEnd {
        start_timestamp_ms: 500,
        end_timestamp_ms: 1500,
        samples: speech.clone(),
    }];

    let segments = rechunk_all(16000, &samples, &results);
    // The tone segment, and the final flush of the 320 leftover samples.
    assert_eq!(segments.len(), 2);
    assert_eq!(segments[0].samples, speech);
    assert_eq!(segments[1].samples.len(), 320);

    let mut events: Vec<ListenOutputChunk> = Vec::new();
    for (i, seg) in segments.iter().enumerate() {
        let (text, start, duration, confidence) = scripted_engine(i, seg);
        if let Some(event) = filter_transcript(text, start, duration, confidence) {
            events.push(event);
        }
    }

    // Exactly one transcript event, bracketing the tone region.
    assert_eq!(events.len(), 1);
    let ListenOutputChunk::Transcribe(chunk) = &events[0];
    assert_eq!(chunk.text, "hello from the tone");
    assert!(chunk.start <= 500);
    assert!(chunk.end >= 1500);

    phase = session_step(phase, SessionEvent::StreamEnded);
    assert_eq!(phase, SessionPhase::Closed);
}
