//! The run of one transcription, as a machine that is driven from outside.
//!
//! A [`Run`] decides; the caller acts. Each call of [`Run::step`] takes what
//! the last action came to and says what to do next, until the action is
//! [`Action::Finish`]. While the engine decodes, the caller hands each segment
//! that the engine reports to [`Run::on_segment`].

use vstd::prelude::*;
use crate::audio::{audio_of, load_audio};
use crate::error::TranscribeError;
use crate::event::{Event, EventView};
use crate::segment::{decode_text, payload_view, segment_of, text_of, timestamp_fits_spec, to_millis};
use crate::store::{
    DecodeParams,
    DecodeParamsView,
    RequestView,
    Store,
    StoreView,
    TranscriptionRequest,
};

verus! {

/// Where a run stands: what it has done and what it waits for.
#[derive(Clone, Copy, Debug, PartialEq, Eq, Structural)]
pub enum RunState {
    /// Nothing was asked yet.
    Idle,
    /// The audio file is being read.
    LoadingAudio,
    /// The audio is decoded; the engine is loading the model.
    LoadingModel,
    /// The model is loaded; the engine is making its decode state.
    CreatingState,
    /// The decode state is there; the host is being told that decoding starts.
    Announcing,
    /// The engine is decoding.
    Running,
    /// The run has failed and the host is being told why.
    Reporting(TranscribeError),
    /// The engine finished without error.
    Completed,
    /// The run has failed.
    Failed(TranscribeError),
}

/// The stages of a run as its users see them.
#[derive(Clone, Copy, Debug, PartialEq, Eq, Structural)]
pub enum Phase {
    /// Audio and model are not both loaded yet.
    Idle,
    /// Audio and model are loaded; decoding has not begun.
    Configured,
    /// The engine is decoding.
    Running,
    /// The engine finished without error.
    Completed,
    /// The run has failed.
    Failed,
}

impl RunState {
    /// The stage that a state belongs to.
    pub open spec fn phase_spec(self) -> Phase {
        match self {
            RunState::Idle | RunState::LoadingAudio | RunState::LoadingModel => Phase::Idle,
            RunState::CreatingState | RunState::Announcing => Phase::Configured,
            RunState::Running => Phase::Running,
            RunState::Completed => Phase::Completed,
            RunState::Reporting(_) | RunState::Failed(_) => Phase::Failed,
        }
    }

    /// True where the run has failed with this error.
    pub open spec fn failed_with(self, error: TranscribeError) -> bool {
        self == RunState::Reporting(error) || self == RunState::Failed(error)
    }

    /// How the run ended, once it has.
    pub open spec fn outcome_spec(self) -> Option<Result<(), TranscribeError>> {
        match self {
            RunState::Completed => Some(Ok(())),
            RunState::Failed(error) => Some(Err(error)),
            _ => None,
        }
    }

    /// The stage that the state belongs to.
    pub fn phase(&self) -> (phase: Phase)
        ensures
            phase == self.phase_spec(),
    {
        match self {
            RunState::Idle | RunState::LoadingAudio | RunState::LoadingModel => Phase::Idle,
            RunState::CreatingState | RunState::Announcing => Phase::Configured,
            RunState::Running => Phase::Running,
            RunState::Completed => Phase::Completed,
            RunState::Reporting(_) | RunState::Failed(_) => Phase::Failed,
        }
    }

    /// How the run ended, or `None` while it has not.
    pub fn outcome(&self) -> (outcome: Option<Result<(), TranscribeError>>)
        ensures
            outcome == self.outcome_spec(),
    {
        match self {
            RunState::Completed => Some(Ok(())),
            RunState::Failed(error) => Some(Err(*error)),
            _ => None,
        }
    }
}

/// What the caller reports back to the run.
#[derive(Debug, PartialEq, Eq)]
pub enum Input {
    /// The request as the store held it when the run was asked for, or `None`
    /// where the store could not be read.
    Begin(Option<TranscriptionRequest>),
    /// The bytes of the audio file, or `None` where it could not be opened.
    AudioRead(Option<Vec<u8>>),
    /// Whether the engine loaded the model.
    ModelLoaded(bool),
    /// Whether the engine made its decode state.
    StateCreated(bool),
    /// Whether the event reached the host.
    Emitted(bool),
    /// Whether the engine decoded without error.
    DecodeFinished(bool),
}

/// An input as a mathematical value.
pub enum InputView {
    Begin(Option<RequestView>),
    AudioRead(Option<Seq<u8>>),
    ModelLoaded(bool),
    StateCreated(bool),
    Emitted(bool),
    DecodeFinished(bool),
}

impl View for Input {
    type V = InputView;

    open spec fn view(&self) -> InputView {
        match self {
            Input::Begin(Some(request)) => InputView::Begin(Some(request@)),
            Input::Begin(None) => InputView::Begin(None),
            Input::AudioRead(Some(bytes)) => InputView::AudioRead(Some(bytes@)),
            Input::AudioRead(None) => InputView::AudioRead(None),
            Input::ModelLoaded(ok) => InputView::ModelLoaded(*ok),
            Input::StateCreated(ok) => InputView::StateCreated(*ok),
            Input::Emitted(ok) => InputView::Emitted(*ok),
            Input::DecodeFinished(ok) => InputView::DecodeFinished(*ok),
        }
    }
}

/// What the run asks the caller to do.
#[derive(Debug, PartialEq, Eq)]
pub enum Action {
    /// Read the file at this path and report its bytes.
    ReadAudio(String),
    /// Have the engine load the model at this path.
    LoadModel(String),
    /// Have the engine make the decode state of the run.
    CreateDecodeState,
    /// Send this event to the host.
    Emit(Event),
    /// Have the engine decode the samples of the run with these parameters.
    Decode(DecodeParams),
    /// Return this result: the run is over.
    Finish(Result<(), TranscribeError>),
    /// Nothing: the run did not wait for what was reported.
    Wait,
}

/// An action as a mathematical value.
pub enum ActionView {
    ReadAudio(Seq<char>),
    LoadModel(Seq<char>),
    CreateDecodeState,
    Emit(EventView),
    Decode(DecodeParamsView),
    Finish(Result<(), TranscribeError>),
    Wait,
}

impl View for Action {
    type V = ActionView;

    open spec fn view(&self) -> ActionView {
        match self {
            Action::ReadAudio(path) => ActionView::ReadAudio(path@),
            Action::LoadModel(path) => ActionView::LoadModel(path@),
            Action::CreateDecodeState => ActionView::CreateDecodeState,
            Action::Emit(event) => ActionView::Emit(event@),
            Action::Decode(params) => ActionView::Decode(params@),
            Action::Finish(result) => ActionView::Finish(*result),
            Action::Wait => ActionView::Wait,
        }
    }
}

impl ActionView {
    /// True of the actions that put the engine to work.
    pub open spec fn is_engine_work(self) -> bool {
        self is LoadModel || self is CreateDecodeState || self is Decode
    }

    /// True of the `start` event.
    pub open spec fn is_start(self) -> bool {
        self == ActionView::Emit(EventView::Start)
    }

    /// True of the event of a segment.
    pub open spec fn is_data(self) -> bool {
        self is Emit && self->Emit_0 is Data
    }

    /// True of an event that reports a failure which ends the run.
    pub open spec fn is_fatal_error(self) -> bool {
        self is Emit && self->Emit_0 is Error && self->Emit_0->Error_0.is_fatal_spec()
    }
}

/// One transcription run.
pub struct Run {
    state: RunState,
    request: TranscriptionRequest,
    samples: Vec<i16>,
}

/// A run as a mathematical value.
pub struct RunView {
    pub state: RunState,
    /// The request as it stood when the run began.
    pub request: RequestView,
    /// The samples of the audio file, once it is decoded.
    pub samples: Seq<i16>,
}

impl View for Run {
    type V = RunView;

    closed spec fn view(&self) -> RunView {
        RunView { state: self.state, request: self.request@, samples: self.samples@ }
    }
}

impl RunView {
    /// A run of which nothing was asked yet.
    pub open spec fn idle() -> RunView {
        RunView {
            state: RunState::Idle,
            request: RequestView {
                audio_path: Seq::empty(),
                model_path: Seq::empty(),
                language: None,
                translate: false,
                offset_ms: 0,
                duration_ms: 0,
            },
            samples: Seq::empty(),
        }
    }

    /// The run in another state.
    pub open spec fn moved_to(self, state: RunState) -> RunView {
        RunView { state, ..self }
    }

    /// The run fails: the host is to be told why.
    pub open spec fn fail(self, error: TranscribeError) -> (RunView, ActionView) {
        (self.moved_to(RunState::Reporting(error)), ActionView::Emit(EventView::Error(error)))
    }

    /// The state after an input and the action that it calls for.
    ///
    /// The steps of a run follow one another in a fixed order: the request is
    /// taken, the audio read and decoded, the model loaded, the decode state
    /// made, the start announced, the audio decoded by the engine. Whatever
    /// fails ends the run after one `error` event. An input that the state
    /// does not wait for changes nothing.
    pub open spec fn next(self, input: InputView) -> (RunView, ActionView) {
        match (self.state, input) {
            (RunState::Idle, InputView::Begin(Some(request))) => (
                RunView { state: RunState::LoadingAudio, request, samples: self.samples },
                ActionView::ReadAudio(request.audio_path),
            ),
            (RunState::Idle, InputView::Begin(None)) => self.fail(
                TranscribeError::StoreUnavailable,
            ),
            (RunState::LoadingAudio, InputView::AudioRead(None)) => self.fail(
                TranscribeError::AudioOpenError,
            ),
            (RunState::LoadingAudio, InputView::AudioRead(Some(bytes))) => match audio_of(bytes) {
                Ok(samples) => (
                    RunView { state: RunState::LoadingModel, request: self.request, samples },
                    ActionView::LoadModel(self.request.model_path),
                ),
                Err(error) => self.fail(error),
            },
            (RunState::LoadingModel, InputView::ModelLoaded(loaded)) => if loaded {
                (self.moved_to(RunState::CreatingState), ActionView::CreateDecodeState)
            } else {
                self.fail(TranscribeError::ModelLoadError)
            },
            (RunState::CreatingState, InputView::StateCreated(created)) => if created {
                (self.moved_to(RunState::Announcing), ActionView::Emit(EventView::Start))
            } else {
                self.fail(TranscribeError::StateInitError)
            },
            (RunState::Announcing, InputView::Emitted(sent)) => if sent {
                (
                    self.moved_to(RunState::Running),
                    ActionView::Decode(self.request.decode_params()),
                )
            } else {
                self.fail(TranscribeError::EventEmissionError)
            },
            (RunState::Running, InputView::DecodeFinished(done)) => if done {
                (self.moved_to(RunState::Completed), ActionView::Finish(Ok(())))
            } else {
                self.fail(TranscribeError::DecodeError)
            },
            (RunState::Reporting(error), InputView::Emitted(_)) => (
                self.moved_to(RunState::Failed(error)),
                ActionView::Finish(Err(error)),
            ),
            _ => (self, ActionView::Wait),
        }
    }

    /// The store after the engine reports a segment, and the action that the
    /// report calls for.
    ///
    /// While the engine decodes, a segment whose text can be read is appended
    /// to the store and announced by a `data` event; one whose text is missing
    /// or is not valid UTF-8 leaves the store as it is and gives one `error`
    /// event. Outside of decoding a report changes nothing.
    pub open spec fn segment_reported(
        self,
        store: StoreView,
        start: int,
        end: int,
        payload: Option<Seq<u8>>,
    ) -> (StoreView, ActionView) {
        if self.state != RunState::Running {
            (store, ActionView::Wait)
        } else {
            match text_of(payload) {
                Some(text) => (
                    StoreView {
                        request: store.request,
                        segments: store.segments.push(segment_of(start, end, text)),
                    },
                    ActionView::Emit(EventView::Data(segment_of(start, end, text))),
                ),
                None => (store, ActionView::Emit(EventView::Error(TranscribeError::SegmentTextError))),
            }
        }
    }
}

impl Run {
    /// A run of which nothing was asked yet.
    pub fn new() -> (run: Run)
        ensures
            run@ == RunView::idle(),
    {
        Run {
            state: RunState::Idle,
            request: TranscriptionRequest {
                audio_path: String::new(),
                model_path: String::new(),
                language: None,
                translate: false,
                offset_ms: 0,
                duration_ms: 0,
            },
            samples: Vec::new(),
        }
    }

    /// Where the run stands.
    pub fn state(&self) -> (state: RunState)
        ensures
            state == self@.state,
    {
        self.state
    }

    /// The stage of the run.
    pub fn phase(&self) -> (phase: Phase)
        ensures
            phase == self@.state.phase_spec(),
    {
        self.state.phase()
    }

    /// The samples of the audio file: empty until it is decoded.
    pub fn samples(&self) -> (samples: &Vec<i16>)
        ensures
            samples@ == self@.samples,
    {
        &self.samples
    }

    /// The request as it stood when the run began.
    pub fn request(&self) -> (request: &TranscriptionRequest)
        ensures
            request@ == self@.request,
    {
        &self.request
    }

    /// The run fails: the host is to be told why.
    fn fail(&mut self, error: TranscribeError) -> (action: Action)
        ensures
            final(self)@ == old(self)@.fail(error).0,
            action@ == old(self)@.fail(error).1,
    {
        self.state = RunState::Reporting(error);
        Action::Emit(Event::Error(error))
    }

    /// Takes what the last action came to, and says what to do next.
    pub fn step(&mut self, input: Input) -> (action: Action)
        ensures
            final(self)@ == old(self)@.next(input@).0,
            action@ == old(self)@.next(input@).1,
    {
        match input {
            Input::Begin(begun) => match self.state {
                RunState::Idle => match begun {
                    Some(request) => {
                        let path = request.audio_path.clone();
                        self.request = request;
                        self.state = RunState::LoadingAudio;
                        Action::ReadAudio(path)
                    },
                    None => self.fail(TranscribeError::StoreUnavailable),
                },
                _ => Action::Wait,
            },
            Input::AudioRead(read) => match self.state {
                RunState::LoadingAudio => match read {
                    Some(bytes) => match load_audio(bytes.as_slice()) {
                        Ok(samples) => {
                            self.samples = samples;
                            self.state = RunState::LoadingModel;
                            Action::LoadModel(self.request.model_path.clone())
                        },
                        Err(error) => self.fail(error),
                    },
                    None => self.fail(TranscribeError::AudioOpenError),
                },
                _ => Action::Wait,
            },
            Input::ModelLoaded(loaded) => match self.state {
                RunState::LoadingModel => if loaded {
                    self.state = RunState::CreatingState;
                    Action::CreateDecodeState
                } else {
                    self.fail(TranscribeError::ModelLoadError)
                },
                _ => Action::Wait,
            },
            Input::StateCreated(created) => match self.state {
                RunState::CreatingState => if created {
                    self.state = RunState::Announcing;
                    Action::Emit(Event::Start)
                } else {
                    self.fail(TranscribeError::StateInitError)
                },
                _ => Action::Wait,
            },
            Input::Emitted(sent) => match self.state {
                RunState::Announcing => if sent {
                    self.state = RunState::Running;
                    Action::Decode(self.request.decode_params())
                } else {
                    self.fail(TranscribeError::EventEmissionError)
                },
                RunState::Reporting(error) => {
                    self.state = RunState::Failed(error);
                    Action::Finish(Err(error))
                },
                _ => Action::Wait,
            },
            Input::DecodeFinished(done) => match self.state {
                RunState::Running => if done {
                    self.state = RunState::Completed;
                    Action::Finish(Ok(()))
                } else {
                    self.fail(TranscribeError::DecodeError)
                },
                _ => Action::Wait,
            },
        }
    }

    /// Takes a segment that the engine reports while it decodes: the
    /// timestamps in the engine's unit and the bytes of the text, `None` where
    /// the engine holds none. The run itself is not changed.
    pub fn on_segment(&self, store: &mut Store, start: i64, end: i64, payload: Option<&[u8]>) -> (action:
        Action)
        requires
            timestamp_fits_spec(start),
            timestamp_fits_spec(end),
        ensures
            final(store)@ == self@.segment_reported(
                old(store)@,
                start as int,
                end as int,
                payload_view(payload),
            ).0,
            action@ == self@.segment_reported(
                old(store)@,
                start as int,
                end as int,
                payload_view(payload),
            ).1,
    {
        match self.state {
            RunState::Running => match decode_text(payload) {
                Some(text) => Action::Emit(store.push_data(to_millis(start), to_millis(end), text)),
                None => Action::Emit(Event::Error(TranscribeError::SegmentTextError)),
            },
            _ => Action::Wait,
        }
    }
}

} // verus!
