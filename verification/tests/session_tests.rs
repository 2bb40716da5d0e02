use transcriber::error::TranscribeError;
use transcriber::event::Event;
use transcriber::segment::Segment;
use transcriber::session::{Action, Input, Phase, Run, RunState};
use transcriber::store::{DecodeParams, Store, TranscriptionRequest};

fn request() -> TranscriptionRequest {
    TranscriptionRequest {
        audio_path: "speech.wav".to_string(),
        model_path: "model.bin".to_string(),
        language: None,
        translate: false,
        offset_ms: 0,
        duration_ms: 0,
    }
}

fn wav(samples: &[i16]) -> Vec<u8> {
    let len = (samples.len() * 2) as u32;
    let mut bytes = Vec::new();
    bytes.extend_from_slice(b"RIFF");
    bytes.extend_from_slice(&(36 + len).to_le_bytes());
    bytes.extend_from_slice(b"WAVEfmt ");
    bytes.extend_from_slice(&16u32.to_le_bytes());
    bytes.extend_from_slice(&1u16.to_le_bytes());
    bytes.extend_from_slice(&1u16.to_le_bytes());
    bytes.extend_from_slice(&16000u32.to_le_bytes());
    bytes.extend_from_slice(&32000u32.to_le_bytes());
    bytes.extend_from_slice(&2u16.to_le_bytes());
    bytes.extend_from_slice(&16u16.to_le_bytes());
    bytes.extend_from_slice(b"data");
    bytes.extend_from_slice(&len.to_le_bytes());
    for s in samples {
        bytes.extend_from_slice(&s.to_le_bytes());
    }
    bytes
}

/// A run that has come as far as decoding.
fn running() -> Run {
    let mut run = Run::new();
    let _ = run.step(Input::Begin(Some(request())));
    let _ = run.step(Input::AudioRead(Some(wav(&[1, 2, 3]))));
    let _ = run.step(Input::ModelLoaded(true));
    let _ = run.step(Input::StateCreated(true));
    let _ = run.step(Input::Emitted(true));
    assert_eq!(run.state(), RunState::Running);
    run
}

#[test]
fn new_run_is_idle() {
    let run = Run::new();
    assert_eq!(run.state(), RunState::Idle);
    assert_eq!(run.phase(), Phase::Idle);
    assert!(run.samples().is_empty());
    assert_eq!(run.state().outcome(), None);
}

#[test]
fn successful_run_takes_every_step_in_order() {
    let mut run = Run::new();
    assert_eq!(run.step(Input::Begin(Some(request()))), Action::ReadAudio("speech.wav".to_string()));
    assert_eq!(run.state(), RunState::LoadingAudio);
    assert_eq!(run.phase(), Phase::Idle);
    assert_eq!(run.request(), &request());

    assert_eq!(
        run.step(Input::AudioRead(Some(wav(&[7, -7, 32767])))),
        Action::LoadModel("model.bin".to_string())
    );
    assert_eq!(run.state(), RunState::LoadingModel);
    assert_eq!(run.phase(), Phase::Idle);
    assert_eq!(run.samples(), &vec![7, -7, 32767]);

    assert_eq!(run.step(Input::ModelLoaded(true)), Action::CreateDecodeState);
    assert_eq!(run.state(), RunState::CreatingState);
    assert_eq!(run.phase(), Phase::Configured);

    assert_eq!(run.step(Input::StateCreated(true)), Action::Emit(Event::Start));
    assert_eq!(run.state(), RunState::Announcing);
    assert_eq!(run.phase(), Phase::Configured);

    assert_eq!(
        run.step(Input::Emitted(true)),
        Action::Decode(DecodeParams {
            best_of: 1,
            language: "ja".to_string(),
            translate: false,
            offset_ms: 0,
            duration_ms: 0,
            tdrz_enable: true,
            suppress_non_speech_tokens: true,
        })
    );
    assert_eq!(run.state(), RunState::Running);
    assert_eq!(run.phase(), Phase::Running);

    assert_eq!(run.step(Input::DecodeFinished(true)), Action::Finish(Ok(())));
    assert_eq!(run.state(), RunState::Completed);
    assert_eq!(run.phase(), Phase::Completed);
    assert_eq!(run.state().outcome(), Some(Ok(())));
}

#[test]
fn decode_parameters_come_from_the_request() {
    let mut run = Run::new();
    let mut r = request();
    r.language = Some("en".to_string());
    r.translate = true;
    r.offset_ms = 1500;
    r.duration_ms = 30000;
    let _ = run.step(Input::Begin(Some(r)));
    let _ = run.step(Input::AudioRead(Some(wav(&[]))));
    let _ = run.step(Input::ModelLoaded(true));
    let _ = run.step(Input::StateCreated(true));
    assert_eq!(
        run.step(Input::Emitted(true)),
        Action::Decode(DecodeParams {
            best_of: 1,
            language: "en".to_string(),
            translate: true,
            offset_ms: 1500,
            duration_ms: 30000,
            tdrz_enable: true,
            suppress_non_speech_tokens: true,
        })
    );
}

#[test]
fn unreadable_store_fails_the_run() {
    let mut run = Run::new();
    assert_eq!(
        run.step(Input::Begin(None)),
        Action::Emit(Event::Error(TranscribeError::StoreUnavailable))
    );
    assert_eq!(run.phase(), Phase::Failed);
    assert_eq!(run.step(Input::Emitted(true)), Action::Finish(Err(TranscribeError::StoreUnavailable)));
    assert_eq!(run.state(), RunState::Failed(TranscribeError::StoreUnavailable));
}

#[test]
fn invalid_audio_path_fails_before_any_engine_work() {
    let mut run = Run::new();
    let mut actions = vec![run.step(Input::Begin(Some(request())))];
    actions.push(run.step(Input::AudioRead(None)));
    assert_eq!(actions[1], Action::Emit(Event::Error(TranscribeError::AudioOpenError)));
    assert_eq!(run.state(), RunState::Reporting(TranscribeError::AudioOpenError));
    actions.push(run.step(Input::Emitted(true)));
    assert_eq!(actions[2], Action::Finish(Err(TranscribeError::AudioOpenError)));
    // whatever is reported afterwards, the engine is never asked for anything
    actions.push(run.step(Input::ModelLoaded(false)));
    actions.push(run.step(Input::AudioRead(Some(wav(&[1])))));
    actions.push(run.step(Input::StateCreated(true)));
    actions.push(run.step(Input::DecodeFinished(false)));
    for action in &actions {
        assert!(!matches!(
            action,
            Action::LoadModel(_) | Action::CreateDecodeState | Action::Decode(_)
        ));
    }
    assert_eq!(run.state(), RunState::Failed(TranscribeError::AudioOpenError));
    assert_eq!(run.state().outcome(), Some(Err(TranscribeError::AudioOpenError)));
}

#[test]
fn bytes_that_are_no_wav_fail_as_audio_open_error() {
    let mut run = Run::new();
    let _ = run.step(Input::Begin(Some(request())));
    assert_eq!(
        run.step(Input::AudioRead(Some(b"not a wav".to_vec()))),
        Action::Emit(Event::Error(TranscribeError::AudioOpenError))
    );
    assert!(run.samples().is_empty());
}

#[test]
fn undecodable_samples_fail_as_audio_decode_error() {
    let mut run = Run::new();
    let _ = run.step(Input::Begin(Some(request())));
    let mut bytes = wav(&[1, 2, 3, 4]);
    bytes.truncate(bytes.len() - 3);
    assert_eq!(
        run.step(Input::AudioRead(Some(bytes))),
        Action::Emit(Event::Error(TranscribeError::AudioDecodeError))
    );
    assert!(run.samples().is_empty());
    assert_eq!(run.step(Input::Emitted(false)), Action::Finish(Err(TranscribeError::AudioDecodeError)));
}

#[test]
fn model_that_cannot_be_loaded_fails_with_no_segment() {
    let mut store = Store::new(request());
    let mut run = Run::new();
    let mut actions = vec![run.step(Input::Begin(Some(store.request())))];
    actions.push(run.step(Input::AudioRead(Some(wav(&[1, 2])))));
    actions.push(run.step(Input::ModelLoaded(false)));
    assert_eq!(actions[2], Action::Emit(Event::Error(TranscribeError::ModelLoadError)));
    actions.push(run.on_segment(&mut store, 0, 50, Some(b"late")));
    assert_eq!(actions[3], Action::Wait);
    actions.push(run.step(Input::Emitted(true)));
    assert_eq!(actions[4], Action::Finish(Err(TranscribeError::ModelLoadError)));
    actions.push(run.on_segment(&mut store, 0, 50, Some(b"later")));
    assert_eq!(store.segment_count(), 0);
    for action in &actions {
        assert!(!matches!(action, Action::Emit(Event::Data(_))));
        assert!(!matches!(action, Action::Emit(Event::Start)));
    }
}

#[test]
fn decode_state_that_cannot_be_made_fails_the_run() {
    let mut run = Run::new();
    let _ = run.step(Input::Begin(Some(request())));
    let _ = run.step(Input::AudioRead(Some(wav(&[1]))));
    let _ = run.step(Input::ModelLoaded(true));
    assert_eq!(
        run.step(Input::StateCreated(false)),
        Action::Emit(Event::Error(TranscribeError::StateInitError))
    );
    assert_eq!(run.step(Input::Emitted(true)), Action::Finish(Err(TranscribeError::StateInitError)));
}

#[test]
fn start_that_does_not_reach_the_host_fails_before_decoding() {
    let mut run = Run::new();
    let _ = run.step(Input::Begin(Some(request())));
    let _ = run.step(Input::AudioRead(Some(wav(&[1]))));
    let _ = run.step(Input::ModelLoaded(true));
    let _ = run.step(Input::StateCreated(true));
    assert_eq!(
        run.step(Input::Emitted(false)),
        Action::Emit(Event::Error(TranscribeError::EventEmissionError))
    );
    assert_eq!(run.step(Input::Emitted(false)), Action::Finish(Err(TranscribeError::EventEmissionError)));
    assert_eq!(run.step(Input::DecodeFinished(true)), Action::Wait);
    assert_eq!(run.state(), RunState::Failed(TranscribeError::EventEmissionError));
}

#[test]
fn engine_failure_fails_the_run_and_keeps_the_segments() {
    let mut store = Store::new(request());
    let mut run = running();
    let _ = run.on_segment(&mut store, 0, 50, Some(b"kept"));
    assert_eq!(
        run.step(Input::DecodeFinished(false)),
        Action::Emit(Event::Error(TranscribeError::DecodeError))
    );
    assert_eq!(run.phase(), Phase::Failed);
    assert_eq!(run.step(Input::Emitted(true)), Action::Finish(Err(TranscribeError::DecodeError)));
    assert_eq!(store.segment_count(), 1);
}

#[test]
fn three_segments_are_stored_in_order_with_millisecond_bounds() {
    let mut store = Store::new(request());
    let run = running();
    let first = run.on_segment(&mut store, 0, 50, Some(b"one"));
    let second = run.on_segment(&mut store, 50, 120, Some(b"two"));
    let third = run.on_segment(&mut store, 120, 200, Some(b"three"));
    assert_eq!(store.segment_count(), 3);
    assert_eq!(store.segment(0), Some(&Segment { start_ms: 0, end_ms: 500, text: "one".to_string() }));
    assert_eq!(store.segment(1), Some(&Segment { start_ms: 500, end_ms: 1200, text: "two".to_string() }));
    assert_eq!(
        store.segment(2),
        Some(&Segment { start_ms: 1200, end_ms: 2000, text: "three".to_string() })
    );
    assert_eq!(
        first,
        Action::Emit(Event::Data(Segment { start_ms: 0, end_ms: 500, text: "one".to_string() }))
    );
    assert_eq!(
        second,
        Action::Emit(Event::Data(Segment { start_ms: 500, end_ms: 1200, text: "two".to_string() }))
    );
    assert_eq!(
        third,
        Action::Emit(Event::Data(Segment { start_ms: 1200, end_ms: 2000, text: "three".to_string() }))
    );
    assert_eq!(run.state(), RunState::Running);
}

#[test]
fn segment_with_invalid_text_gives_one_error_and_is_not_stored() {
    let mut store = Store::new(request());
    let run = running();
    let _ = run.on_segment(&mut store, 0, 50, Some(b"good"));
    let action = run.on_segment(&mut store, 50, 120, Some(&[0x66, 0xff, 0x6f]));
    assert_eq!(action, Action::Emit(Event::Error(TranscribeError::SegmentTextError)));
    assert_eq!(store.segment_count(), 1);
    assert_eq!(run.state(), RunState::Running);
    let _ = run.on_segment(&mut store, 120, 200, Some(b"after"));
    assert_eq!(store.segment_count(), 2);
}

#[test]
fn segment_without_text_gives_one_error_and_is_not_stored() {
    let mut store = Store::new(request());
    let run = running();
    let action = run.on_segment(&mut store, 0, 50, None);
    assert_eq!(action, Action::Emit(Event::Error(TranscribeError::SegmentTextError)));
    assert_eq!(store.segment_count(), 0);
}

#[test]
fn segment_reported_outside_of_decoding_changes_nothing() {
    let mut store = Store::new(request());
    let mut run = Run::new();
    assert_eq!(run.on_segment(&mut store, 0, 50, Some(b"early")), Action::Wait);
    let _ = run.step(Input::Begin(Some(request())));
    assert_eq!(run.on_segment(&mut store, 0, 50, Some(b"early")), Action::Wait);
    assert_eq!(run.on_segment(&mut store, 0, 50, None), Action::Wait);
    let mut run = running();
    let _ = run.step(Input::DecodeFinished(true));
    assert_eq!(run.on_segment(&mut store, 0, 50, Some(b"late")), Action::Wait);
    assert_eq!(store.segment_count(), 0);
}

#[test]
fn start_is_called_for_once_and_before_every_data_event() {
    let mut store = Store::new(request());
    let mut run = Run::new();
    let mut actions = Vec::new();
    actions.push(run.on_segment(&mut store, 0, 1, Some(b"a")));
    actions.push(run.step(Input::Begin(Some(request()))));
    actions.push(run.step(Input::StateCreated(true)));
    actions.push(run.step(Input::AudioRead(Some(wav(&[1])))));
    actions.push(run.on_segment(&mut store, 1, 2, Some(b"b")));
    actions.push(run.step(Input::ModelLoaded(true)));
    actions.push(run.step(Input::StateCreated(true)));
    actions.push(run.step(Input::StateCreated(true)));
    actions.push(run.on_segment(&mut store, 2, 3, Some(b"c")));
    actions.push(run.step(Input::Emitted(true)));
    actions.push(run.step(Input::StateCreated(true)));
    actions.push(run.on_segment(&mut store, 3, 4, Some(b"d")));
    actions.push(run.step(Input::Emitted(true)));
    actions.push(run.on_segment(&mut store, 4, 5, Some(b"e")));
    actions.push(run.step(Input::DecodeFinished(true)));
    actions.push(run.step(Input::StateCreated(true)));
    actions.push(run.on_segment(&mut store, 5, 6, Some(b"f")));

    let starts: Vec<usize> =
        (0..actions.len()).filter(|i| actions[*i] == Action::Emit(Event::Start)).collect();
    assert_eq!(starts, vec![6]);
    let data: Vec<usize> = (0..actions.len())
        .filter(|i| matches!(actions[*i], Action::Emit(Event::Data(_))))
        .collect();
    assert_eq!(data, vec![11, 13]);
    assert_eq!(store.segment_count(), 2);
    assert_eq!(store.segment(0), Some(&Segment { start_ms: 30, end_ms: 40, text: "d".to_string() }));
}

#[test]
fn input_that_is_not_awaited_changes_nothing() {
    let mut run = Run::new();
    for input in [
        Input::AudioRead(None),
        Input::ModelLoaded(true),
        Input::StateCreated(true),
        Input::Emitted(true),
        Input::DecodeFinished(true),
    ] {
        assert_eq!(run.step(input), Action::Wait);
        assert_eq!(run.state(), RunState::Idle);
    }
    let _ = run.step(Input::Begin(Some(request())));
    assert_eq!(run.step(Input::Begin(Some(request()))), Action::Wait);
    assert_eq!(run.step(Input::Begin(None)), Action::Wait);
    assert_eq!(run.state(), RunState::LoadingAudio);
}

#[test]
fn first_failure_is_kept() {
    let mut run = Run::new();
    let _ = run.step(Input::Begin(Some(request())));
    let _ = run.step(Input::AudioRead(None));
    for input in [
        Input::ModelLoaded(false),
        Input::StateCreated(false),
        Input::DecodeFinished(false),
        Input::Begin(None),
    ] {
        let _ = run.step(input);
        assert_eq!(run.state(), RunState::Reporting(TranscribeError::AudioOpenError));
    }
    let _ = run.step(Input::Emitted(true));
    for input in [Input::ModelLoaded(false), Input::Emitted(false), Input::DecodeFinished(false)] {
        let _ = run.step(input);
        assert_eq!(run.state(), RunState::Failed(TranscribeError::AudioOpenError));
    }
}

#[test]
fn phases_of_the_states() {
    assert_eq!(RunState::Idle.phase(), Phase::Idle);
    assert_eq!(RunState::LoadingAudio.phase(), Phase::Idle);
    assert_eq!(RunState::LoadingModel.phase(), Phase::Idle);
    assert_eq!(RunState::CreatingState.phase(), Phase::Configured);
    assert_eq!(RunState::Announcing.phase(), Phase::Configured);
    assert_eq!(RunState::Running.phase(), Phase::Running);
    assert_eq!(RunState::Completed.phase(), Phase::Completed);
    assert_eq!(RunState::Reporting(TranscribeError::DecodeError).phase(), Phase::Failed);
    assert_eq!(RunState::Failed(TranscribeError::DecodeError).phase(), Phase::Failed);
}

#[test]
fn outcome_is_known_only_at_the_end() {
    assert_eq!(RunState::Running.outcome(), None);
    assert_eq!(RunState::Reporting(TranscribeError::DecodeError).outcome(), None);
    assert_eq!(RunState::Completed.outcome(), Some(Ok(())));
    assert_eq!(
        RunState::Failed(TranscribeError::StateInitError).outcome(),
        Some(Err(TranscribeError::StateInitError))
    );
}

#[test]
fn stored_bounds_are_ten_times_the_timestamps_and_keep_their_order() {
    let mut store = Store::new(request());
    let run = running();
    for (t0, t1) in [(0i64, 0i64), (3, 4), (-20, -10), (1000, 123456789)] {
        let _ = run.on_segment(&mut store, t0, t1, Some(b"x"));
        let stored = store.segment(store.segment_count() - 1).unwrap();
        assert_eq!(stored.start_ms, t0 * 10);
        assert_eq!(stored.end_ms, t1 * 10);
        assert!(stored.end_ms >= stored.start_ms);
    }
    assert_eq!(store.segment_count(), 4);
}
