//! The store of a run: the request that it serves and the segments produced
//! so far.

use vstd::prelude::*;
use crate::event::{Event, EventView};
use crate::segment::{Segment, SegmentView};

verus! {

/// What the caller asks to have transcribed, and how.
#[derive(Debug, PartialEq, Eq)]
pub struct TranscriptionRequest {
    /// Where the audio file is.
    pub audio_path: String,
    /// Where the engine's model is.
    pub model_path: String,
    /// The language spoken, if the caller names one.
    pub language: Option<String>,
    /// Whether the text is to be translated.
    pub translate: bool,
    /// Where in the audio to begin, in milliseconds.
    pub offset_ms: i32,
    /// How much of the audio to decode, in milliseconds.
    pub duration_ms: i32,
}

/// A request as a mathematical value.
pub struct RequestView {
    pub audio_path: Seq<char>,
    pub model_path: Seq<char>,
    pub language: Option<Seq<char>>,
    pub translate: bool,
    pub offset_ms: i32,
    pub duration_ms: i32,
}

/// The parameters of one decode run of the engine.
#[derive(Debug, PartialEq, Eq)]
pub struct DecodeParams {
    /// Greedy sampling keeps the best of this many candidates.
    pub best_of: i32,
    pub language: String,
    pub translate: bool,
    pub offset_ms: i32,
    pub duration_ms: i32,
    /// Whether speaker turns are tagged.
    pub tdrz_enable: bool,
    /// Whether tokens that are no speech are suppressed.
    pub suppress_non_speech_tokens: bool,
}

/// Decode parameters as a mathematical value.
pub struct DecodeParamsView {
    pub best_of: i32,
    pub language: Seq<char>,
    pub translate: bool,
    pub offset_ms: i32,
    pub duration_ms: i32,
    pub tdrz_enable: bool,
    pub suppress_non_speech_tokens: bool,
}

/// The language that is assumed where the caller names none.
pub open spec fn default_language() -> Seq<char> {
    "ja"@
}

/// An optional string as a mathematical value.
pub open spec fn optional_text(text: Option<String>) -> Option<Seq<char>> {
    match text {
        Some(s) => Some(s@),
        None => None,
    }
}

impl View for TranscriptionRequest {
    type V = RequestView;

    open spec fn view(&self) -> RequestView {
        RequestView {
            audio_path: self.audio_path@,
            model_path: self.model_path@,
            language: optional_text(self.language),
            translate: self.translate,
            offset_ms: self.offset_ms,
            duration_ms: self.duration_ms,
        }
    }
}

impl View for DecodeParams {
    type V = DecodeParamsView;

    open spec fn view(&self) -> DecodeParamsView {
        DecodeParamsView {
            best_of: self.best_of,
            language: self.language@,
            translate: self.translate,
            offset_ms: self.offset_ms,
            duration_ms: self.duration_ms,
            tdrz_enable: self.tdrz_enable,
            suppress_non_speech_tokens: self.suppress_non_speech_tokens,
        }
    }
}

impl RequestView {
    /// The language to decode in: the one named, or the default.
    pub open spec fn language_or_default(self) -> Seq<char> {
        match self.language {
            Some(language) => language,
            None => default_language(),
        }
    }

    /// The parameters with which the engine serves the request: greedy
    /// sampling with the best of one, the request's language, translation
    /// flag, offset and duration, speaker turns tagged and non-speech tokens
    /// suppressed.
    pub open spec fn decode_params(self) -> DecodeParamsView {
        DecodeParamsView {
            best_of: 1,
            language: self.language_or_default(),
            translate: self.translate,
            offset_ms: self.offset_ms,
            duration_ms: self.duration_ms,
            tdrz_enable: true,
            suppress_non_speech_tokens: true,
        }
    }
}

impl Clone for TranscriptionRequest {
    fn clone(&self) -> (copy: TranscriptionRequest)
        ensures
            copy@ == self@,
    {
        let language = match &self.language {
            Some(language) => Some(language.clone()),
            None => None,
        };
        TranscriptionRequest {
            audio_path: self.audio_path.clone(),
            model_path: self.model_path.clone(),
            language,
            translate: self.translate,
            offset_ms: self.offset_ms,
            duration_ms: self.duration_ms,
        }
    }
}

impl Clone for DecodeParams {
    fn clone(&self) -> (copy: DecodeParams)
        ensures
            copy@ == self@,
    {
        DecodeParams {
            best_of: self.best_of,
            language: self.language.clone(),
            translate: self.translate,
            offset_ms: self.offset_ms,
            duration_ms: self.duration_ms,
            tdrz_enable: self.tdrz_enable,
            suppress_non_speech_tokens: self.suppress_non_speech_tokens,
        }
    }
}

impl TranscriptionRequest {
    /// The language to decode in: the one named, or `"ja"`.
    pub fn language_or_default(&self) -> (language: String)
        ensures
            language@ == self@.language_or_default(),
    {
        match &self.language {
            Some(language) => language.clone(),
            None => "ja".to_owned(),
        }
    }

    /// The parameters with which the engine serves the request.
    pub fn decode_params(&self) -> (params: DecodeParams)
        ensures
            params@ == self@.decode_params(),
    {
        DecodeParams {
            best_of: 1,
            language: self.language_or_default(),
            translate: self.translate,
            offset_ms: self.offset_ms,
            duration_ms: self.duration_ms,
            tdrz_enable: true,
            suppress_non_speech_tokens: true,
        }
    }
}

/// The request of the current run and the segments produced so far, in the
/// order in which they came.
pub struct Store {
    request: TranscriptionRequest,
    segments: Vec<Segment>,
}

/// A store as a mathematical value.
pub struct StoreView {
    pub request: RequestView,
    pub segments: Seq<SegmentView>,
}

impl View for Store {
    type V = StoreView;

    closed spec fn view(&self) -> StoreView {
        StoreView {
            request: self.request@,
            segments: Seq::new(self.segments@.len(), |i: int| self.segments@[i]@),
        }
    }
}

impl Store {
    /// A store for a request, with no segment yet.
    pub fn new(request: TranscriptionRequest) -> (store: Store)
        ensures
            store@.request == request@,
            store@.segments == Seq::<SegmentView>::empty(),
    {
        let store = Store { request, segments: Vec::new() };
        assert(store@.segments =~= Seq::<SegmentView>::empty());
        store
    }

    /// Makes the store ready for another run: the request is replaced and the
    /// segments of the run before are dropped.
    pub fn reset(&mut self, request: TranscriptionRequest)
        ensures
            final(self)@.request == request@,
            final(self)@.segments == Seq::<SegmentView>::empty(),
    {
        self.request = request;
        self.segments = Vec::new();
        assert(self@.segments =~= Seq::<SegmentView>::empty());
    }

    /// A copy of the request, to be taken once when a run starts.
    pub fn request(&self) -> (request: TranscriptionRequest)
        ensures
            request@ == self@.request,
    {
        self.request.clone()
    }

    /// Where the audio file is.
    pub fn get_path_wav(&self) -> (path: &str)
        ensures
            path@ == self@.request.audio_path,
    {
        self.request.audio_path.as_str()
    }

    /// Where the engine's model is.
    pub fn get_path_model(&self) -> (path: &str)
        ensures
            path@ == self@.request.model_path,
    {
        self.request.model_path.as_str()
    }

    /// The language that the caller named, if any.
    pub fn get_lang(&self) -> (language: Option<&str>)
        ensures
            match language {
                Some(l) => self@.request.language == Some(l@),
                None => self@.request.language is None,
            },
    {
        match &self.request.language {
            Some(language) => Some(language.as_str()),
            None => None,
        }
    }

    /// Whether the text is to be translated.
    pub fn get_translate(&self) -> (translate: bool)
        ensures
            translate == self@.request.translate,
    {
        self.request.translate
    }

    /// Where in the audio to begin, in milliseconds.
    pub fn get_ms_offset(&self) -> (offset: i32)
        ensures
            offset == self@.request.offset_ms,
    {
        self.request.offset_ms
    }

    /// How much of the audio to decode, in milliseconds.
    pub fn get_ms_duration(&self) -> (duration: i32)
        ensures
            duration == self@.request.duration_ms,
    {
        self.request.duration_ms
    }

    /// How many segments the store holds.
    pub fn segment_count(&self) -> (count: usize)
        ensures
            count == self@.segments.len(),
    {
        self.segments.len()
    }

    /// The segment at an index, the oldest first.
    pub fn segment(&self, index: usize) -> (segment: Option<&Segment>)
        ensures
            match segment {
                Some(s) => index < self@.segments.len() && s@ == self@.segments[index as int],
                None => index >= self@.segments.len(),
            },
    {
        if index < self.segments.len() {
            Some(&self.segments[index])
        } else {
            None
        }
    }

    /// Appends a segment and hands back the notification that announces it, so
    /// that no segment is stored without the host being told.
    #[must_use]
    pub fn push_data(&mut self, start_ms: i64, end_ms: i64, text: String) -> (event: Event)
        ensures
            final(self)@.request == old(self)@.request,
            final(self)@.segments == old(self)@.segments.push(
                SegmentView { start_ms: start_ms as int, end_ms: end_ms as int, text: text@ },
            ),
            event@ == EventView::Data(
                SegmentView { start_ms: start_ms as int, end_ms: end_ms as int, text: text@ },
            ),
    {
        let segment = Segment { start_ms, end_ms, text };
        let event = Event::Data(segment.clone());
        self.segments.push(segment);
        assert(self@.segments =~= old(self)@.segments.push(segment@));
        event
    }
}

} // verus!
