//! What holds of every run, whatever the caller reports and in whatever order.
//!
//! A run is followed from a state of which nothing was asked yet, through any
//! sequence of inputs and segment reports; the laws speak of the state and the
//! store that it reaches and of the actions that it called for on the way.

use vstd::prelude::*;
use crate::error::TranscribeError;
use crate::event::EventView;
use crate::segment::text_of;
use crate::session::{ActionView, InputView, Phase, RunState, RunView};
use crate::store::StoreView;

verus! {

/// One thing that happens to a run.
pub enum Stimulus {
    /// The caller reports what an action came to.
    Input(InputView),
    /// The engine reports a segment.
    Segment { start: int, end: int, payload: Option<Seq<u8>> },
}

/// A run together with the store that it fills.
pub struct World {
    pub run: RunView,
    pub store: StoreView,
}

impl World {
    /// The world after one stimulus, and the action that it called for.
    pub open spec fn react(self, stimulus: Stimulus) -> (World, ActionView) {
        match stimulus {
            Stimulus::Input(input) => (
                World { run: self.run.next(input).0, store: self.store },
                self.run.next(input).1,
            ),
            Stimulus::Segment { start, end, payload } => (
                World {
                    run: self.run,
                    store: self.run.segment_reported(self.store, start, end, payload).0,
                },
                self.run.segment_reported(self.store, start, end, payload).1,
            ),
        }
    }

    /// The world after a sequence of stimuli.
    pub open spec fn after(self, trace: Seq<Stimulus>) -> World
        decreases trace.len(),
    {
        if trace.len() == 0 {
            self
        } else {
            self.after(trace.drop_last()).react(trace.last()).0
        }
    }

    /// The actions that a sequence of stimuli called for, one for each.
    pub open spec fn actions(self, trace: Seq<Stimulus>) -> Seq<ActionView>
        decreases trace.len(),
    {
        if trace.len() == 0 {
            Seq::empty()
        } else {
            self.actions(trace.drop_last()).push(
                self.after(trace.drop_last()).react(trace.last()).1,
            )
        }
    }
}

/// True of the failures that can only come before the engine is touched.
pub open spec fn before_engine(error: TranscribeError) -> bool {
    error == TranscribeError::StoreUnavailable || error == TranscribeError::AudioOpenError || error
        == TranscribeError::AudioDecodeError
}

/// True of the failures that can only come before the start is announced.
pub open spec fn before_start(error: TranscribeError) -> bool {
    before_engine(error) || error == TranscribeError::ModelLoadError || error
        == TranscribeError::StateInitError
}

/// True of the failures that can only come before the engine decodes.
pub open spec fn before_decoding(error: TranscribeError) -> bool {
    before_start(error) || error == TranscribeError::EventEmissionError
}

/// True of the states in which the engine was not put to work yet.
pub open spec fn engine_untouched(state: RunState) -> bool {
    match state {
        RunState::Idle | RunState::LoadingAudio => true,
        RunState::Reporting(error) | RunState::Failed(error) => before_engine(error),
        _ => false,
    }
}

/// True of the states in which the start was not announced yet.
pub open spec fn unannounced(state: RunState) -> bool {
    match state {
        RunState::Idle
        | RunState::LoadingAudio
        | RunState::LoadingModel
        | RunState::CreatingState => true,
        RunState::Reporting(error) | RunState::Failed(error) => before_start(error),
        _ => false,
    }
}

/// True of the states in which the engine has not begun to decode.
pub open spec fn undecoded(state: RunState) -> bool {
    match state {
        RunState::Idle
        | RunState::LoadingAudio
        | RunState::LoadingModel
        | RunState::CreatingState
        | RunState::Announcing => true,
        RunState::Reporting(error) | RunState::Failed(error) => before_decoding(error),
        _ => false,
    }
}

/// How far a run has come: the number of steps that it has called for.
pub open spec fn progress(state: RunState) -> int {
    match state {
        RunState::Idle => 0,
        RunState::LoadingAudio => 1,
        RunState::LoadingModel => 2,
        RunState::CreatingState => 3,
        RunState::Announcing => 4,
        RunState::Running | RunState::Completed => 5,
        RunState::Reporting(error) | RunState::Failed(error) => match error {
            TranscribeError::StoreUnavailable => 0,
            TranscribeError::AudioOpenError | TranscribeError::AudioDecodeError => 1,
            TranscribeError::ModelLoadError => 2,
            TranscribeError::StateInitError => 3,
            TranscribeError::EventEmissionError => 4,
            TranscribeError::DecodeError | TranscribeError::SegmentTextError => 5,
        },
    }
}

/// The place of an action among the steps of a run: reading the audio is the
/// first, loading the model the second, making the decode state the third,
/// announcing the start the fourth, decoding the fifth. Other actions are no
/// steps and have place 0.
pub open spec fn step_of(action: ActionView) -> int {
    match action {
        ActionView::ReadAudio(_) => 1,
        ActionView::LoadModel(_) => 2,
        ActionView::CreateDecodeState => 3,
        ActionView::Emit(EventView::Start) => 4,
        ActionView::Decode(_) => 5,
        _ => 0,
    }
}

/// The event that tells the host of a failure.
pub open spec fn reported(error: TranscribeError) -> ActionView {
    ActionView::Emit(EventView::Error(error))
}

/// What a run keeps true of its state, its store and its actions so far.
pub open spec fn consistent(start: World, now: World, actions: Seq<ActionView>) -> bool {
    &&& engine_untouched(now.run.state) ==> forall|i: int|
        0 <= i < actions.len() ==> !(#[trigger] actions[i]).is_engine_work()
    &&& unannounced(now.run.state) ==> forall|i: int|
        0 <= i < actions.len() ==> !(#[trigger] actions[i]).is_start()
    &&& undecoded(now.run.state) ==> now.store == start.store && forall|i: int|
        0 <= i < actions.len() ==> !(#[trigger] actions[i]).is_data()
    &&& (now.run.state == RunState::Announcing || now.run.state == RunState::Running
        || now.run.state == RunState::Completed) ==> exists|i: int|
        0 <= i < actions.len() && (#[trigger] actions[i]).is_start()
    &&& forall|error: TranscribeError| #[trigger]
        now.run.state.failed_with(error) ==> error.is_fatal_spec() && exists|i: int|
            0 <= i < actions.len() && (#[trigger] actions[i]) == reported(error)
    &&& forall|i: int|
        0 <= i < actions.len() ==> step_of(#[trigger] actions[i]) <= progress(now.run.state)
    &&& forall|i: int, j: int|
        0 <= i < j < actions.len() && step_of(#[trigger] actions[i]) > 0 && step_of(
            #[trigger] actions[j],
        ) > 0 ==> step_of(actions[i]) < step_of(actions[j])
    &&& now.run.state.phase_spec() != Phase::Failed ==> forall|i: int|
        0 <= i < actions.len() ==> !(#[trigger] actions[i]).is_fatal_error()
    &&& forall|i: int, j: int|
        0 <= i < j < actions.len() ==> !((#[trigger] actions[i]).is_fatal_error()
            && (#[trigger] actions[j]).is_fatal_error())
    &&& forall|i: int, j: int|
        0 <= i < j < actions.len() ==> !((#[trigger] actions[i]).is_start()
            && (#[trigger] actions[j]).is_start())
    &&& forall|j: int|
        0 <= j < actions.len() && (#[trigger] actions[j]).is_data() ==> exists|i: int|
            0 <= i < j && (#[trigger] actions[i]).is_start()
}

/// One stimulus keeps a run consistent.
proof fn lemma_react_consistent(
    start: World,
    now: World,
    actions: Seq<ActionView>,
    stimulus: Stimulus,
)
    requires
        consistent(start, now, actions),
    ensures
        consistent(start, now.react(stimulus).0, actions.push(now.react(stimulus).1)),
{
    let then = now.react(stimulus).0;
    let action = now.react(stimulus).1;
    let grown = actions.push(action);
    let n = actions.len() as int;
    assert(forall|i: int| 0 <= i < n ==> grown[i] == actions[i]);
    assert(grown[n] == action);
    assert forall|error: TranscribeError| #[trigger]
        then.run.state.failed_with(error) implies error.is_fatal_spec() && exists|i: int|
        0 <= i < grown.len() && (#[trigger] grown[i]) == reported(error) by {
        if now.run.state.failed_with(error) {
            let i = choose|i: int| 0 <= i < actions.len() && (#[trigger] actions[i]) == reported(error);
            assert(grown[i] == reported(error));
        } else {
            assert(grown[n] == reported(error));
        }
    }
    if then.run.state == RunState::Announcing || then.run.state == RunState::Running
        || then.run.state == RunState::Completed {
        if now.run.state == RunState::CreatingState {
            assert(grown[n].is_start());
        } else {
            let i = choose|i: int| 0 <= i < actions.len() && (#[trigger] actions[i]).is_start();
            assert(grown[i].is_start());
        }
    }
    assert forall|j: int| 0 <= j < grown.len() && (#[trigger] grown[j]).is_data() implies exists|
        i: int,
    |
        0 <= i < j && (#[trigger] grown[i]).is_start() by {
        if j < n {
            let i = choose|i: int| 0 <= i < j && (#[trigger] actions[i]).is_start();
            assert(grown[i].is_start());
        } else {
            let i = choose|i: int| 0 <= i < actions.len() && (#[trigger] actions[i]).is_start();
            assert(grown[i].is_start());
        }
    }
}

/// Every run from an idle state is consistent, and calls for one action for
/// each stimulus.
proof fn lemma_run_consistent(start: World, trace: Seq<Stimulus>)
    requires
        start.run.state == RunState::Idle,
    ensures
        consistent(start, start.after(trace), start.actions(trace)),
        start.actions(trace).len() == trace.len(),
    decreases trace.len(),
{
    if trace.len() > 0 {
        lemma_run_consistent(start, trace.drop_last());
        lemma_react_consistent(
            start,
            start.after(trace.drop_last()),
            start.actions(trace.drop_last()),
            trace.last(),
        );
    }
}

/// One stimulus leaves a failed run failed, with the same error.
proof fn lemma_react_keeps_failure(now: World, stimulus: Stimulus, error: TranscribeError)
    requires
        now.run.state.failed_with(error),
    ensures
        now.react(stimulus).0.run.state.failed_with(error),
{
}

/// One stimulus keeps the request of the store and the segments that it holds.
proof fn lemma_react_appends(now: World, stimulus: Stimulus)
    ensures
        now.react(stimulus).0.store.request == now.store.request,
        now.store.segments.is_prefix_of(now.react(stimulus).0.store.segments),
{
}

/// In every run the `start` event is called for at most once, and before
/// every `data` event.
pub proof fn law_start_once_and_first(start: World, trace: Seq<Stimulus>)
    requires
        start.run.state == RunState::Idle,
    ensures
        forall|i: int, j: int|
            0 <= i < j < trace.len() ==> !((#[trigger] start.actions(trace)[i]).is_start()
                && (#[trigger] start.actions(trace)[j]).is_start()),
        forall|j: int|
            0 <= j < trace.len() && (#[trigger] start.actions(trace)[j]).is_data() ==> exists|
                i: int,
            |
                0 <= i < j && (#[trigger] start.actions(trace)[i]).is_start(),
{
    lemma_run_consistent(start, trace);
}

/// The steps of a run come in one order and none comes twice: among the
/// actions of a run, reading the audio, loading the model, making the decode
/// state, announcing the start and decoding each occur at most once, and each
/// only after those before it in this list that occur at all.
pub proof fn law_steps_in_order(start: World, trace: Seq<Stimulus>)
    requires
        start.run.state == RunState::Idle,
    ensures
        forall|i: int, j: int|
            0 <= i < j < trace.len() && step_of(#[trigger] start.actions(trace)[i]) > 0 && step_of(
                #[trigger] start.actions(trace)[j],
            ) > 0 ==> step_of(start.actions(trace)[i]) < step_of(start.actions(trace)[j]),
        forall|i: int|
            0 <= i < trace.len() ==> step_of(#[trigger] start.actions(trace)[i]) <= progress(
                start.after(trace).run.state,
            ),
{
    lemma_run_consistent(start, trace);
}

/// A run that failed before the engine was needed (the store could not be
/// read, the audio file could not be opened or decoded) never put the engine
/// to work: it asked for no model, no decode state and no decoding.
pub proof fn law_early_failure_spares_engine(
    start: World,
    trace: Seq<Stimulus>,
    error: TranscribeError,
)
    requires
        start.run.state == RunState::Idle,
        before_engine(error),
        start.after(trace).run.state.failed_with(error),
    ensures
        forall|i: int|
            0 <= i < trace.len() ==> !(#[trigger] start.actions(trace)[i]).is_engine_work(),
{
    lemma_run_consistent(start, trace);
}

/// A run that failed before the engine decoded (up to and including a `start`
/// event that did not reach the host) produced no segment: the store is as it
/// was and no `data` event was called for. A model that cannot be loaded is
/// one such failure.
pub proof fn law_failure_before_decoding_stores_nothing(
    start: World,
    trace: Seq<Stimulus>,
    error: TranscribeError,
)
    requires
        start.run.state == RunState::Idle,
        before_decoding(error),
        start.after(trace).run.state.failed_with(error),
    ensures
        start.after(trace).store == start.store,
        forall|i: int| 0 <= i < trace.len() ==> !(#[trigger] start.actions(trace)[i]).is_data(),
{
    lemma_run_consistent(start, trace);
}

/// A run only ever fails with a failure that ends runs, never with that of a
/// single segment's text, and a run that has failed has called for the `error`
/// event that names its failure, and for no other event of a failure that
/// ends runs.
pub proof fn law_failed_run_was_reported_once(
    start: World,
    trace: Seq<Stimulus>,
    error: TranscribeError,
)
    requires
        start.run.state == RunState::Idle,
        start.after(trace).run.state.failed_with(error),
    ensures
        error.is_fatal_spec(),
        exists|i: int|
            0 <= i < trace.len() && (#[trigger] start.actions(trace)[i]) == reported(error),
        forall|i: int, j: int|
            0 <= i < j < trace.len() ==> !((#[trigger] start.actions(trace)[i]).is_fatal_error()
                && (#[trigger] start.actions(trace)[j]).is_fatal_error()),
{
    lemma_run_consistent(start, trace);
}

/// A run that has not failed has called for no `error` event but those of
/// single segments; one that completed has called for the `start` event.
pub proof fn law_unfailed_run_reported_no_failure(start: World, trace: Seq<Stimulus>)
    requires
        start.run.state == RunState::Idle,
        start.after(trace).run.state.phase_spec() != Phase::Failed,
    ensures
        forall|i: int|
            0 <= i < trace.len() ==> !(#[trigger] start.actions(trace)[i]).is_fatal_error(),
        start.after(trace).run.state == RunState::Completed ==> exists|i: int|
            0 <= i < trace.len() && (#[trigger] start.actions(trace)[i]).is_start(),
{
    lemma_run_consistent(start, trace);
}

/// Once a run has failed it stays failed with the same error, whatever
/// follows: no later failure takes the place of the first.
pub proof fn law_failure_is_final(
    start: World,
    trace: Seq<Stimulus>,
    k: int,
    error: TranscribeError,
)
    requires
        0 <= k <= trace.len(),
        start.after(trace.take(k)).run.state.failed_with(error),
    ensures
        start.after(trace).run.state.failed_with(error),
    decreases trace.len(),
{
    if k == trace.len() {
        assert(trace.take(k) =~= trace);
    } else {
        assert(trace.drop_last().take(k) =~= trace.take(k));
        law_failure_is_final(start, trace.drop_last(), k, error);
        lemma_react_keeps_failure(start.after(trace.drop_last()), trace.last(), error);
    }
}

/// A run never changes the request of the store, and only ever appends to its
/// segments: those that were there stay, in their order.
pub proof fn law_segments_only_appended(start: World, trace: Seq<Stimulus>)
    ensures
        start.after(trace).store.request == start.store.request,
        start.store.segments.is_prefix_of(start.after(trace).store.segments),
    decreases trace.len(),
{
    if trace.len() > 0 {
        law_segments_only_appended(start, trace.drop_last());
        lemma_react_appends(start.after(trace.drop_last()), trace.last());
    }
}

/// A segment whose text cannot be read, reported while the engine decodes,
/// gives exactly one `error` event and leaves the store as it was.
pub proof fn law_unreadable_segment_is_reported_not_stored(
    now: World,
    start: int,
    end: int,
    payload: Option<Seq<u8>>,
)
    requires
        now.run.state == RunState::Running,
        text_of(payload) is None,
    ensures
        now.react(Stimulus::Segment { start, end, payload }).0 == now,
        now.react(Stimulus::Segment { start, end, payload }).1 == ActionView::Emit(
            EventView::Error(TranscribeError::SegmentTextError),
        ),
{
}

/// A segment whose text can be read, reported while the engine decodes, is
/// appended to the store with its text and with bounds that are ten times the
/// engine's timestamps; where the engine's end is not before its start, neither
/// is the segment's.
pub proof fn law_readable_segment_is_stored(
    now: World,
    start: int,
    end: int,
    payload: Option<Seq<u8>>,
)
    requires
        now.run.state == RunState::Running,
        text_of(payload) is Some,
    ensures
        ({
            let then = now.react(Stimulus::Segment { start, end, payload }).0;
            let stored = then.store.segments.last();
            &&& then.store.segments == now.store.segments.push(stored)
            &&& stored.start_ms == start * 10
            &&& stored.end_ms == end * 10
            &&& stored.text == text_of(payload)->Some_0
            &&& start <= end ==> stored.start_ms <= stored.end_ms
            &&& now.react(Stimulus::Segment { start, end, payload }).1 == ActionView::Emit(
                EventView::Data(stored),
            )
        }),
{
}

} // verus!
