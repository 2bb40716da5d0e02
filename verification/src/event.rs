//! What the host application is told of a run.

use vstd::prelude::*;
use crate::error::TranscribeError;
use crate::segment::{Segment, SegmentView};

verus! {

/// The kind of a notification.
#[derive(Clone, Copy, Debug, PartialEq, Eq, Structural)]
pub enum EventStatus {
    /// The run is set up and decoding begins.
    Start,
    /// A segment was recognized.
    Data,
    /// Something failed.
    Error,
}

impl EventStatus {
    /// The status as the host reads it.
    pub open spec fn name_spec(self) -> Seq<char> {
        match self {
            EventStatus::Start => "start"@,
            EventStatus::Data => "data"@,
            EventStatus::Error => "error"@,
        }
    }

    /// The status as the host reads it.
    pub fn name(&self) -> (name: String)
        ensures
            name@ == self.name_spec(),
    {
        match self {
            EventStatus::Start => "start".to_owned(),
            EventStatus::Data => "data".to_owned(),
            EventStatus::Error => "error".to_owned(),
        }
    }
}

/// The envelope in which a notification reaches the host.
#[derive(Debug, PartialEq, Eq)]
pub struct EventPayload {
    pub status: EventStatus,
    pub message: String,
}

/// An envelope as a mathematical value.
pub struct EventPayloadView {
    pub status: EventStatus,
    pub message: Seq<char>,
}

impl View for EventPayload {
    type V = EventPayloadView;

    open spec fn view(&self) -> EventPayloadView {
        EventPayloadView { status: self.status, message: self.message@ }
    }
}

/// A notification for the host.
#[derive(Debug, PartialEq, Eq)]
pub enum Event {
    /// The run is set up and decoding begins.
    Start,
    /// A segment was recognized and stored.
    Data(Segment),
    /// The run, or one segment of it, failed.
    Error(TranscribeError),
}

/// A notification as a mathematical value.
pub enum EventView {
    Start,
    Data(SegmentView),
    Error(TranscribeError),
}

impl View for Event {
    type V = EventView;

    open spec fn view(&self) -> EventView {
        match self {
            Event::Start => EventView::Start,
            Event::Data(segment) => EventView::Data(segment@),
            Event::Error(error) => EventView::Error(*error),
        }
    }
}

/// The message of the `start` event.
pub open spec fn start_message() -> Seq<char> {
    "初期化が完了しました。文字起こしを開始します。"@
}

impl EventView {
    /// The status under which the notification is sent.
    pub open spec fn status(self) -> EventStatus {
        match self {
            EventView::Start => EventStatus::Start,
            EventView::Data(_) => EventStatus::Data,
            EventView::Error(_) => EventStatus::Error,
        }
    }

    /// The message that the notification carries: for a segment its text, for
    /// a failure its description.
    pub open spec fn message(self) -> Seq<char> {
        match self {
            EventView::Start => start_message(),
            EventView::Data(segment) => segment.text,
            EventView::Error(error) => error.message_spec(),
        }
    }

    /// The envelope of the notification.
    pub open spec fn payload(self) -> EventPayloadView {
        EventPayloadView { status: self.status(), message: self.message() }
    }
}

impl Clone for Event {
    fn clone(&self) -> (copy: Event)
        ensures
            copy@ == self@,
    {
        match self {
            Event::Start => Event::Start,
            Event::Data(segment) => Event::Data(segment.clone()),
            Event::Error(error) => Event::Error(*error),
        }
    }
}

impl Event {
    /// The status under which the notification is sent.
    pub fn status(&self) -> (status: EventStatus)
        ensures
            status == self@.status(),
    {
        match self {
            Event::Start => EventStatus::Start,
            Event::Data(_) => EventStatus::Data,
            Event::Error(_) => EventStatus::Error,
        }
    }

    /// The message that the notification carries.
    pub fn message(&self) -> (message: String)
        ensures
            message@ == self@.message(),
    {
        match self {
            Event::Start => "初期化が完了しました。文字起こしを開始します。".to_owned(),
            Event::Data(segment) => segment.text.clone(),
            Event::Error(error) => error.message(),
        }
    }

    /// The envelope in which the notification reaches the host.
    pub fn payload(&self) -> (payload: EventPayload)
        ensures
            payload@ == self@.payload(),
    {
        EventPayload { status: self.status(), message: self.message() }
    }
}

/// The envelope that reports a failure to the host.
pub fn error_payload(error: TranscribeError) -> (payload: EventPayload)
    ensures
        payload@ == EventView::Error(error).payload(),
        payload@.status == EventStatus::Error,
        payload@.message == error.message_spec(),
{
    Event::Error(error).payload()
}

} // verus!
