use transcriber::error::TranscribeError;
use transcriber::event::{error_payload, Event, EventPayload, EventStatus};
use transcriber::segment::Segment;

#[test]
fn status_names() {
    assert_eq!(EventStatus::Start.name(), "start");
    assert_eq!(EventStatus::Data.name(), "data");
    assert_eq!(EventStatus::Error.name(), "error");
}

#[test]
fn start_event_payload() {
    let payload = Event::Start.payload();
    assert_eq!(
        payload,
        EventPayload {
            status: EventStatus::Start,
            message: "初期化が完了しました。文字起こしを開始します。".to_string(),
        }
    );
}

#[test]
fn data_event_payload_carries_the_text() {
    let event = Event::Data(Segment { start_ms: 0, end_ms: 500, text: "hello".to_string() });
    assert_eq!(event.status(), EventStatus::Data);
    assert_eq!(event.message(), "hello");
    assert_eq!(event.payload(), EventPayload { status: EventStatus::Data, message: "hello".to_string() });
}

#[test]
fn error_event_payload_carries_the_description() {
    let event = Event::Error(TranscribeError::ModelLoadError);
    assert_eq!(event.status(), EventStatus::Error);
    assert_eq!(event.message(), "言語モデルの読み込みに失敗しました");
    assert_eq!(event.payload(), error_payload(TranscribeError::ModelLoadError));
}

#[test]
fn error_payload_has_error_status() {
    let payload = error_payload(TranscribeError::AudioOpenError);
    assert_eq!(payload.status, EventStatus::Error);
    assert_eq!(payload.message, "指定されたwavファイルを開けませんでした");
}

#[test]
fn error_messages() {
    assert_eq!(TranscribeError::AudioOpenError.message(), "指定されたwavファイルを開けませんでした");
    assert_eq!(TranscribeError::AudioDecodeError.message(), "Failed to read samples from WAV file");
    assert_eq!(TranscribeError::ModelLoadError.message(), "言語モデルの読み込みに失敗しました");
    assert_eq!(TranscribeError::StateInitError.message(), "Whisper Stateの初期化に失敗しました");
    assert_eq!(TranscribeError::DecodeError.message(), "言語モデルの実行に失敗しました");
    assert_eq!(
        TranscribeError::SegmentTextError.message(),
        "Text segment could not be converted to string."
    );
    assert_eq!(TranscribeError::StoreUnavailable.message(), "Mutex is poisoned");
    assert_eq!(TranscribeError::EventEmissionError.message(), "イベントの送信に失敗しました");
}

#[test]
fn only_a_segment_text_error_is_not_fatal() {
    assert!(!TranscribeError::SegmentTextError.is_fatal());
    for error in [
        TranscribeError::AudioOpenError,
        TranscribeError::AudioDecodeError,
        TranscribeError::ModelLoadError,
        TranscribeError::StateInitError,
        TranscribeError::DecodeError,
        TranscribeError::StoreUnavailable,
        TranscribeError::EventEmissionError,
    ] {
        assert!(error.is_fatal());
    }
}

#[test]
fn event_clone_is_equal() {
    let event = Event::Data(Segment { start_ms: 3, end_ms: 4, text: "t".to_string() });
    assert_eq!(event.clone(), event);
    assert_eq!(Event::Start.clone(), Event::Start);
}
