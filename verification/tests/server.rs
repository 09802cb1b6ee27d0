use local_stt::admission::{ServerStateBuilder, SupportedModel};
use local_stt::session::{
    admission_response, health_body, session_step, AdmissionResponse, SessionEvent, SessionPhase,
};
use local_stt::stt::{map_stream_item, ClovaStreamItem, SttError};
use local_stt::transcript::{filter_transcript, should_emit, ListenOutputChunk};

#[test]
fn builder_collects_configuration() {
    let state = ServerStateBuilder::default()
        .model_type(SupportedModel::Tiny)
        .model_cache_dir(String::from("/tmp/models"))
        .build();
    assert_eq!(state.model_type, SupportedModel::Tiny);
    assert_eq!(state.model_cache_dir, "/tmp/models");
    assert_eq!(state.num_connections, 0);
}

#[test]
fn admission_is_exclusive_and_recoverable() {
    let mut state = ServerStateBuilder::default()
        .model_type(SupportedModel::Base)
        .model_cache_dir(String::new())
        .build();
    let first = state.try_acquire_connection();
    assert!(first.is_some());
    assert_eq!(state.num_connections, 1);
    let second = state.try_acquire_connection();
    assert!(second.is_none());
    assert_eq!(state.num_connections, 1);
    state.release_connection(first.unwrap());
    assert_eq!(state.num_connections, 0);
    let third = state.try_acquire_connection();
    assert!(third.is_some());
    assert_eq!(state.num_connections, 1);
}

#[test]
fn rejection_maps_to_too_many_requests() {
    assert_eq!(admission_response(false), AdmissionResponse::TooManyRequests);
    assert_eq!(admission_response(true), AdmissionResponse::Upgrade);
}

#[test]
fn health_answers_ok() {
    assert_eq!(health_body(), "ok");
}

#[test]
fn confidence_filter_drops_short_low_confidence() {
    assert!(!should_emit(300, 5));
    assert!(should_emit(300, 20));
    assert!(should_emit(900, 1));
}

#[test]
fn filter_transcript_drops_and_keeps() {
    let dropped = filter_transcript(String::from("hello"), 100, 200, 300);
    assert!(dropped.is_none());

    let kept = filter_transcript(String::from("y"), 100, 200, 900);
    match kept {
        Some(ListenOutputChunk::Transcribe(c)) => {
            assert_eq!(c.text, "y");
            assert_eq!(c.start, 100);
            assert_eq!(c.end, 300);
        },
        None => panic!("a confident result must be kept"),
    }

    let long = filter_transcript(String::from("twelve chars."), 0, 50, 100);
    assert!(long.is_some());
}

#[test]
fn session_lifecycle_happy_path() {
    let p = SessionPhase::Upgrading;
    let p = session_step(p, SessionEvent::AdmissionDecided(true));
    assert_eq!(p, SessionPhase::Admitted);
    let p = session_step(p, SessionEvent::StreamStarted);
    assert_eq!(p, SessionPhase::Streaming);
    let p = session_step(p, SessionEvent::StreamEnded);
    assert_eq!(p, SessionPhase::Closed);
}

#[test]
fn session_rejection_is_terminal() {
    let p = session_step(SessionPhase::Upgrading, SessionEvent::AdmissionDecided(false));
    assert_eq!(p, SessionPhase::SlotRejected);
    let p = session_step(p, SessionEvent::StreamStarted);
    assert_eq!(p, SessionPhase::SlotRejected);
}

#[test]
fn session_send_failure_closes() {
    let p = session_step(SessionPhase::Streaming, SessionEvent::SendFailed);
    assert_eq!(p, SessionPhase::Closed);
    let p = session_step(p, SessionEvent::StreamEnded);
    assert_eq!(p, SessionPhase::Closed);
}

#[test]
fn stream_item_mapping() {
    match map_stream_item(ClovaStreamItem::TransportError(String::from("boom"))) {
        Some(Err(SttError::ClovaError(m))) => assert_eq!(m, "boom"),
        _ => panic!("a transport error must map to an error"),
    }
    match map_stream_item(ClovaStreamItem::TranscribeFailure(String::from("{\"code\":7}"))) {
        Some(Err(SttError::ClovaError(m))) => assert_eq!(m, "{\"code\":7}"),
        _ => panic!("a reported failure must map to an error"),
    }
    match map_stream_item(ClovaStreamItem::TranscribeSuccess {
        text: String::from("hi"),
        start_timestamp: 10,
        end_timestamp: 40,
    }) {
        Some(Ok(resp)) => {
            assert_eq!(resp.words.len(), 1);
            assert_eq!(resp.words[0].text, "hi");
            assert_eq!(resp.words[0].start, 10);
            assert_eq!(resp.words[0].end, 40);
        },
        _ => panic!("a success must map to a response"),
    }
    assert!(map_stream_item(ClovaStreamItem::Config).is_none());
}
