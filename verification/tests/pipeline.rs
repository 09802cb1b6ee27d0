use local_stt::adapter::{adapter_step, AdapterStep, InboundMessage};
use local_stt::frame_size_for;
use local_stt::pcm::{decode_pcm, decode_sample, encode_sample};
use local_stt::rechunker::{rechunk_all, VadConfig, VadTransition, VoiceActivityRechunker};

#[test]
fn frame_size_at_16khz_is_480() {
    assert_eq!(frame_size_for(16000), 480);
}

#[test]
fn frame_size_at_8khz_is_240() {
    assert_eq!(frame_size_for(8000), 240);
}

#[test]
fn frame_size_rounds_to_nearest_sample() {
    // 30 ms at 22050 Hz is 661.5 samples: rounded up, not truncated.
    assert_eq!(frame_size_for(22050), 662);
    assert_eq!(frame_size_for(44100), 1323);
}

#[test]
fn detection_session_parameters_are_fixed() {
    let config = VadConfig::default_for(16000);
    assert_eq!(config.sample_rate, 16000);
    assert_eq!(config.positive_speech_threshold_permille, 400);
    assert_eq!(config.negative_speech_threshold_permille, 250);
    assert_eq!(config.pre_speech_pad_ms, 500);
    assert_eq!(config.post_speech_pad_ms, 100);
    assert_eq!(config.redemption_time_ms, 500);
    assert_eq!(config.min_speech_time_ms, 90);
}

#[test]
fn pcm_decode_known_pairs() {
    assert_eq!(decode_sample(0x34, 0x12), 0x1234);
    assert_eq!(decode_sample(0xFF, 0xFF), -1);
    assert_eq!(decode_sample(0x00, 0x80), i16::MIN);
    assert_eq!(decode_sample(0xFF, 0x7F), i16::MAX);
}

#[test]
fn pcm_round_trip_exact() {
    for s in [0i16, 1, -1, 1234, -1234, i16::MIN, i16::MAX] {
        let (b0, b1) = encode_sample(s);
        assert_eq!(decode_sample(b0, b1), s);
    }
}

#[test]
fn pcm_round_trip_float_within_tolerance() {
    for x in [0.0f32, 0.5, -0.5, 0.25, -1.0, 1.0, 0.333] {
        let s = (x * 32767.0).round() as i16;
        let (b0, b1) = encode_sample(s);
        let back = decode_sample(b0, b1) as f32 / 32767.0;
        assert!((x - back).abs() <= 1.0 / 32767.0);
    }
}

#[test]
fn pcm_decode_stream_drops_odd_byte() {
    let bytes = vec![0x34u8, 0x12, 0xFF, 0xFF, 0x7B];
    assert_eq!(decode_pcm(&bytes), vec![0x1234, -1]);
}

#[test]
fn adapter_audio_payload_decodes() {
    let r = adapter_step(InboundMessage::Audio(vec![0x34, 0x12]));
    match r {
        AdapterStep::Samples(s) => assert_eq!(s, vec![0x1234]),
        AdapterStep::EndOfInput => panic!("audio payload must yield samples"),
    }
}

#[test]
fn adapter_empty_audio_ends_input() {
    assert!(matches!(adapter_step(InboundMessage::Audio(vec![])), AdapterStep::EndOfInput));
}

#[test]
fn adapter_close_and_error_end_input() {
    assert!(matches!(adapter_step(InboundMessage::Closed), AdapterStep::EndOfInput));
    assert!(matches!(adapter_step(InboundMessage::TransportError), AdapterStep::EndOfInput));
}

#[test]
fn adapter_other_message_yields_zero_samples() {
    match adapter_step(InboundMessage::Other) {
        AdapterStep::Samples(s) => assert!(s.is_empty()),
        AdapterStep::EndOfInput => panic!("other messages must not end the input"),
    }
}

#[test]
fn short_input_flushes_exactly_the_input() {
    // Fewer samples than one frame: the only output is the flush.
    let samples: Vec<i16> = vec![5; 100];
    let no_results: Vec<Vec<VadTransition>> = vec![];
    let out = rechunk_all(16000, &samples, &no_results);
    assert_eq!(out.len(), 1);
    assert_eq!(out[0].samples, samples);
    assert_eq!(out[0].channels, 1);
    assert_eq!(out[0].sample_rate, 16000);
}

#[test]
fn empty_input_emits_nothing() {
    let samples: Vec<i16> = vec![];
    let no_results: Vec<Vec<VadTransition>> = vec![];
    let out = rechunk_all(16000, &samples, &no_results);
    assert!(out.is_empty());
}

#[test]
fn no_speech_emits_only_residual_flush() {
    // 2.5 frames of silence, no transitions: only the residual half-frame
    // comes out, as the final flush.
    let samples: Vec<i16> = vec![0; 1200];
    let results: Vec<Vec<VadTransition>> = vec![vec![], vec![]];
    let out = rechunk_all(16000, &samples, &results);
    assert_eq!(out.len(), 1);
    assert_eq!(out[0].samples, vec![0i16; 240]);
}

#[test]
fn no_speech_whole_frames_emit_nothing() {
    let samples: Vec<i16> = vec![0; 960];
    let results: Vec<Vec<VadTransition>> = vec![vec![], vec![]];
    let out = rechunk_all(16000, &samples, &results);
    assert!(out.is_empty());
}

fn tone(n: usize) -> Vec<i16> {
    // A crude square wave standing in for a 440 Hz tone.
    (0..n).map(|i| if (i / 18) % 2 == 0 { 12000 } else { -12000 }).collect()
}

#[test]
fn one_speech_region_emits_one_segment() {
    // Silence, one second of tone, silence, at 16 kHz; lengths chosen as
    // whole frames so no residual flush follows. The detection model is
    // scripted: it reports the tone region (with its padding) ending in the
    // frame after the tone.
    let lead = 7680usize;
    let tone_len = 16320usize;
    let mut samples: Vec<i16> = vec![0; lead];
    samples.extend(tone(tone_len));
    samples.extend(vec![0i16; 7680]);
    assert_eq!(samples.len() % 480, 0);
    let n_frames = samples.len() / 480;

    let speech: Vec<i16> = samples[lead..lead + tone_len].to_vec();
    let mut results: Vec<Vec<VadTransition>> = vec![vec![]; n_frames];
    results[lead / 480] = vec![VadTransition::SpeechStart { timestamp_ms: 480 }];
    results[(lead + tone_len) / 480 + 1] = vec![VadTransition::SpeechEnd {
        start_timestamp_ms: 480,
        end_timestamp_ms: 1500,
        samples: speech.clone(),
    }];

    let out = rechunk_all(16000, &samples, &results);
    assert_eq!(out.len(), 1);
    assert!(out[0].samples.len() >= 16000);
    assert_eq!(out[0].samples, speech);
}

#[test]
fn first_speech_end_wins_within_a_frame() {
    // Two speech ends reported for one frame: only the first is emitted for
    // this pull; the rest is left to the model's persistent state.
    let rc = VoiceActivityRechunker::new(16000);
    let transitions = vec![
        VadTransition::SpeechStart { timestamp_ms: 0 },
        VadTransition::SpeechEnd {
            start_timestamp_ms: 0,
            end_timestamp_ms: 30,
            samples: vec![1, 2, 3],
        },
        VadTransition::SpeechEnd {
            start_timestamp_ms: 40,
            end_timestamp_ms: 70,
            samples: vec![9, 9],
        },
    ];
    let seg = rc.segment_from_transitions(&transitions).expect("speech end must emit");
    assert_eq!(seg.samples, vec![1, 2, 3]);
}

#[test]
fn no_speech_end_emits_nothing_for_the_frame() {
    let rc = VoiceActivityRechunker::new(16000);
    let transitions = vec![VadTransition::SpeechStart { timestamp_ms: 0 }];
    assert!(rc.segment_from_transitions(&transitions).is_none());
}

#[test]
fn take_frame_is_fifo() {
    let mut rc = VoiceActivityRechunker::new(16000);
    let samples: Vec<i16> = (0..481).map(|i| i as i16).collect();
    rc.push_samples(&samples);
    assert!(rc.has_full_frame());
    let frame = rc.take_frame();
    assert_eq!(frame.len(), 480);
    assert_eq!(frame[0], 0);
    assert_eq!(frame[479], 479);
    assert!(!rc.has_full_frame());
    let tail = rc.flush().expect("one sample remains to flush");
    assert_eq!(tail.samples, vec![480]);
}

#[test]
fn flush_on_empty_buffer_emits_nothing() {
    let mut rc = VoiceActivityRechunker::new(16000);
    assert!(rc.flush().is_none());
    assert!(rc.finished);
}

#[test]
fn model_error_fails_closed() {
    let mut rc = VoiceActivityRechunker::new(16000);
    rc.push_samples(&vec![1, 2, 3]);
    rc.on_model_error();
    assert!(rc.finished);
}
