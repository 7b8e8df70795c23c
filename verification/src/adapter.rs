//! Inference adapter: the narrow contract around the external
//! recognition engine.
//!
//! The engine itself is a black box driven by the surrounding binary; it
//! is handed the normalized buffer and an `InferenceParams` value and
//! reports either an ordered sequence of raw segments — start offset, end
//! offset (both in centiseconds), text — or diagnostic text. Everything
//! decided about that outcome is verified here: an engine failure is
//! surfaced as `Inference` and never swallowed, an empty segment sequence
//! is a valid successful result distinct from an error, and the ordering
//! guarantee (segments by ascending start offset, each with
//! `start <= end`) is checked, so a faulty upstream cannot inject
//! out-of-order segments into the transcript.

use vstd::prelude::*;
use crate::errors::PipelineError;

verus! {

/// A contiguous span of recognized speech with its time bounds, offsets
/// in centiseconds from the start of the audio.
#[derive(Debug, Clone)]
pub struct TranscriptSegment {
    /// Where the span begins, in centiseconds.
    pub start_cs: u64,
    /// Where the span ends, in centiseconds.
    pub end_cs: u64,
    /// The transcribed text of the span.
    pub text: String,
}

impl TranscriptSegment {
    /// A segment is well formed when it does not end before it starts.
    pub open spec fn wf(self) -> bool {
        self.start_cs <= self.end_cs
    }
}

/// Raw engine output is ordered when every segment ends no earlier than
/// it starts and start offsets are non-decreasing.
pub open spec fn raw_ordered(raw: Seq<(u64, u64, String)>) -> bool {
    &&& forall|i: int| 0 <= i < raw.len() ==> (#[trigger] raw[i]).0 <= raw[i].1
    &&& forall|i: int| 1 <= i < raw.len() ==> (#[trigger] raw[i]).0 >= raw[i - 1].0
}

/// Accepted segments are well formed and in non-decreasing start order.
pub open spec fn segments_ordered(segs: Seq<TranscriptSegment>) -> bool {
    &&& forall|i: int| 0 <= i < segs.len() ==> (#[trigger] segs[i]).wf()
    &&& forall|i: int| 1 <= i < segs.len() ==> (#[trigger] segs[i]).start_cs >= segs[i
        - 1].start_cs
}

/// The accepted segments carry exactly the engine's output, in the order
/// received.
pub open spec fn segments_match_raw(segs: Seq<TranscriptSegment>, raw: Seq<(u64, u64, String)>) -> bool {
    &&& segs.len() == raw.len()
    &&& forall|i: int|
        0 <= i < raw.len() ==> (#[trigger] segs[i]).start_cs == raw[i].0 && segs[i].end_cs
            == raw[i].1 && segs[i].text@ == raw[i].2@
}

/// Validate the engine's raw output and take ownership of it as
/// transcript segments.
///
/// Succeeds exactly when the output respects the engine's ordering
/// guarantee; the accepted segments are the output unchanged and in the
/// order received. An empty output is a valid, successful empty
/// transcript, never an error. Out-of-order output is rejected as an
/// engine failure.
#[verifier::loop_isolation(false)]
pub fn accept_segments(raw: Vec<(u64, u64, String)>) -> (r: Result<
    Vec<TranscriptSegment>,
    PipelineError,
>)
    ensures
        raw_ordered(raw@) <==> r is Ok,
        r matches Ok(segs) ==> segments_match_raw(segs@, raw@) && segments_ordered(segs@),
        r matches Err(e) ==> (e matches PipelineError::Inference(m) && m@
            == "engine returned segments out of order"@),
        raw@.len() == 0 ==> (r matches Ok(segs) && segs@.len() == 0),
{
    let ghost orig = raw@;
    let mut rest = raw;
    let mut segs: Vec<TranscriptSegment> = Vec::new();
    while rest.len() > 0
        invariant
            segs@.len() + rest@.len() == orig.len(),
            rest@ == orig.skip(segs@.len() as int),
            segments_match_raw(segs@, orig.take(segs@.len() as int)),
            forall|i: int| 0 <= i < segs@.len() ==> (#[trigger] orig[i]).0 <= orig[i].1,
            forall|i: int| 1 <= i < segs@.len() ==> (#[trigger] orig[i]).0 >= orig[i - 1].0,
        decreases rest@.len(),
    {
        let ghost k = segs@.len() as int;
        let (start_cs, end_cs, text) = rest.remove(0);
        proof {
            assert(orig.skip(k)[0] == orig[k]);
            assert(orig.skip(k).remove(0) =~= orig.skip(k + 1));
        }
        if end_cs < start_cs {
            return Err(PipelineError::Inference("engine returned segments out of order".to_owned()));
        }
        if segs.len() > 0 {
            let prev = segs[segs.len() - 1].start_cs;
            if start_cs < prev {
                return Err(
                    PipelineError::Inference("engine returned segments out of order".to_owned()),
                );
            }
        }
        segs.push(TranscriptSegment { start_cs, end_cs, text });
        proof {
            assert(orig.take(k + 1) =~= orig.take(k).push(orig[k]));
        }
    }
    proof {
        assert(orig.take(segs@.len() as int) =~= orig);
    }
    Ok(segs)
}

/// Surface the outcome of one inference call.
///
/// An engine failure is passed through as `Inference` carrying the
/// engine's diagnostic text, never silently swallowed; a successful
/// outcome is validated and accepted by `accept_segments`.
pub fn transcribe_outcome(outcome: Result<Vec<(u64, u64, String)>, String>) -> (r: Result<
    Vec<TranscriptSegment>,
    PipelineError,
>)
    ensures
        outcome matches Err(msg) ==> (r matches Err(e) && e matches PipelineError::Inference(m)
            && m@ == msg@),
        outcome matches Ok(raw) ==> {
            &&& raw_ordered(raw@) <==> r is Ok
            &&& (r matches Ok(segs) ==> segments_match_raw(segs@, raw@) && segments_ordered(
                segs@,
            ))
            &&& raw@.len() == 0 ==> (r matches Ok(segs) && segs@.len() == 0)
        },
{
    match outcome {
        Ok(raw) => accept_segments(raw),
        Err(msg) => Err(PipelineError::Inference(msg)),
    }
}

} // verus!
