//! Caption segments handed to the user interface.

use vstd::prelude::*;

verus! {

/// The state of a recognizer as reported to the user interface.
#[derive(Clone, Copy, Debug, PartialEq, Eq, Structural)]
pub enum WhisperStatus {
    Loading,
    Ready,
    Exit,
    Error,
}

/// The integer and text part of a decoding result: the decoded tokens and
/// their text. The scores that a model attaches to a decoding (log
/// probabilities, temperature, compression ratio) are floating-point values
/// and are carried by the application's copy of this type.
#[derive(Clone, Debug)]
pub struct DecodingResult {
    pub tokens: Vec<u32>,
    pub text: String,
}

/// The integer and text part of a caption segment.
#[derive(Clone, Debug)]
pub struct Segment {
    pub dr: DecodingResult,
    /// How long the inference that produced this segment took, in milliseconds.
    pub reasoning_duration: Option<u128>,
    /// The language the segment was decoded in.
    pub reasoning_lang: Option<String>,
    /// How much audio the inference saw, in milliseconds.
    pub audio_duration: Option<u128>,
    pub status: WhisperStatus,
}

/// A segment that carries no decoding: no tokens, no text, no timing.
pub open spec fn is_bare_status_segment(s: Segment, status: WhisperStatus) -> bool {
    &&& s.dr.tokens@.len() == 0
    &&& s.dr.text@.len() == 0
    &&& s.reasoning_duration is None
    &&& s.reasoning_lang is None
    &&& s.audio_duration is None
    &&& s.status == status
}

/// The message that reports a status change (loading, ready, exit, error):
/// a single segment with no tokens, no text and no timing information.
pub fn _make_status_response(status: WhisperStatus) -> (r: Vec<Segment>)
    ensures
        r@.len() == 1,
        is_bare_status_segment(r@[0], status),
{
    let segment = Segment {
        dr: DecodingResult { tokens: Vec::new(), text: String::new() },
        reasoning_duration: None,
        reasoning_lang: None,
        audio_duration: None,
        status,
    };
    let mut r: Vec<Segment> = Vec::new();
    r.push(segment);
    r
}

} // verus!
