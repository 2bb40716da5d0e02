//! Segments of recognized speech, and the conversion of what the engine
//! reports of one (timestamps in its own unit, text as raw bytes) into them.

use vstd::prelude::*;
use vstd::utf8::*;
use vstd::string::StringSliceAdditionalSpecFns;

verus! {

/// Milliseconds in one unit of the engine's timestamps.
pub const TIMESTAMP_SCALE: i64 = 10;

/// A span of recognized speech.
#[derive(Debug, PartialEq, Eq)]
pub struct Segment {
    /// Where the span starts, in milliseconds.
    pub start_ms: i64,
    /// Where the span ends, in milliseconds.
    pub end_ms: i64,
    /// What was said.
    pub text: String,
}

/// A segment as a mathematical value.
pub struct SegmentView {
    pub start_ms: int,
    pub end_ms: int,
    pub text: Seq<char>,
}

impl View for Segment {
    type V = SegmentView;

    open spec fn view(&self) -> SegmentView {
        SegmentView { start_ms: self.start_ms as int, end_ms: self.end_ms as int, text: self.text@ }
    }
}

impl Clone for Segment {
    fn clone(&self) -> (copy: Segment)
        ensures
            copy@ == self@,
    {
        Segment { start_ms: self.start_ms, end_ms: self.end_ms, text: self.text.clone() }
    }
}

/// `core::str::Utf8Error`, opaque to the verifier.
#[verifier::external_type_specification]
#[verifier::external_body]
pub struct ExUtf8Error(core::str::Utf8Error);

/// `core::str::from_utf8` succeeds exactly on valid UTF-8, and the string
/// slice it returns is made of the bytes it was given.
pub assume_specification[ core::str::from_utf8 ](v: &[u8]) -> (checked: Result<
    &str,
    core::str::Utf8Error,
>)
    ensures
        checked is Ok <==> valid_utf8(v@),
        checked is Ok ==> checked->Ok_0.spec_bytes() == v@,
;

/// The milliseconds that an engine timestamp stands for.
pub open spec fn millis_of(ticks: int) -> int {
    ticks * 10
}

/// True of the timestamps whose milliseconds fit in 64 bits.
pub open spec fn timestamp_fits_spec(ticks: i64) -> bool {
    i64::MIN <= millis_of(ticks as int) <= i64::MAX
}

/// Whether the milliseconds of an engine timestamp fit in 64 bits.
pub fn timestamp_fits(ticks: i64) -> (fits: bool)
    ensures
        fits == timestamp_fits_spec(ticks),
{
    -922337203685477580 <= ticks && ticks <= 922337203685477580
}

/// Converts an engine timestamp to milliseconds.
pub fn to_millis(ticks: i64) -> (ms: i64)
    requires
        timestamp_fits_spec(ticks),
    ensures
        ms as int == millis_of(ticks as int),
{
    ticks * TIMESTAMP_SCALE
}

/// The index of the segment that the engine completed last, given how many it
/// has completed.
pub open spec fn latest_index_spec(count: i32) -> Option<i32> {
    if count >= 1 {
        Some((count - 1) as i32)
    } else {
        None
    }
}

/// The index of the segment that the engine completed last: one less than the
/// number of segments, and `None` while there is none.
pub fn latest_segment_index(count: i32) -> (index: Option<i32>)
    ensures
        index == latest_index_spec(count),
{
    if count >= 1 {
        Some(count - 1)
    } else {
        None
    }
}

/// The text that a segment's payload holds: `None` where the payload is
/// missing or is not valid UTF-8.
pub open spec fn text_of(payload: Option<Seq<u8>>) -> Option<Seq<char>> {
    match payload {
        Some(bytes) => if valid_utf8(bytes) {
            Some(decode_utf8(bytes))
        } else {
            None
        },
        None => None,
    }
}

/// A payload as a mathematical value.
pub open spec fn payload_view(payload: Option<&[u8]>) -> Option<Seq<u8>> {
    match payload {
        Some(bytes) => Some(bytes@),
        None => None,
    }
}

/// The segment that the engine's data stand for.
pub open spec fn segment_of(start: int, end: int, text: Seq<char>) -> SegmentView {
    SegmentView { start_ms: millis_of(start), end_ms: millis_of(end), text }
}

/// Decodes the text of a segment from the bytes that the engine holds.
pub fn decode_text(payload: Option<&[u8]>) -> (text: Option<String>)
    ensures
        match text {
            Some(s) => text_of(payload_view(payload)) == Some(s@),
            None => text_of(payload_view(payload)) is None,
        },
{
    match payload {
        None => None,
        Some(bytes) => match core::str::from_utf8(bytes) {
            Ok(s) => {
                proof {
                    encode_utf8_decode_utf8(s@);
                }
                Some(s.to_owned())
            },
            Err(_) => None,
        },
    }
}

/// The bounds of a segment keep the order of the engine's timestamps.
pub proof fn lemma_segment_bounds_ordered(start: int, end: int, text: Seq<char>)
    requires
        start <= end,
    ensures
        segment_of(start, end, text).start_ms == start * 10,
        segment_of(start, end, text).end_ms == end * 10,
        segment_of(start, end, text).end_ms >= segment_of(start, end, text).start_ms,
{
}

} // verus!
