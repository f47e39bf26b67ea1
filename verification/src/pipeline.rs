//! The per-frame processing path of one capture thread.
//!
//! The audio backend delivers frames asynchronously; for each frame the
//! callback checks the stop signal, applies the compressor when it is
//! enabled, publishes the processed samples to the preview buffer and
//! writes them to the sink. The capture path runs the compressor with
//! fixed constants, whatever the persisted settings say: a threshold
//! amplitude of one tenth (that is, -20 dB) and a ratio of four.

use vstd::prelude::*;

use crate::effect::{compress_audio, compressed_sample};
use crate::preview::{preview_of, PreviewBuffer};
use crate::sample::{frame_in_range, sample_in_range};
use crate::sink::SampleSink;

verus! {

/// Threshold amplitude of the capture path's compressor: 0.1 in fixed
/// point, the amplitude of -20 dB.
pub const CAPTURE_THRESHOLD_AMP: i64 = 100_000;

/// Ratio of the capture path's compressor.
pub const CAPTURE_RATIO: i64 = 4;

/// The samples a frame contributes downstream: compressed with the
/// capture constants when the compressor is enabled, untouched
/// otherwise.
pub open spec fn processed_frame(frame: Seq<i64>, compressor_enabled: bool) -> Seq<i64> {
    if compressor_enabled {
        Seq::new(
            frame.len(),
            |i: int|
                compressed_sample(
                    frame[i] as int,
                    CAPTURE_THRESHOLD_AMP as int,
                    CAPTURE_RATIO as int,
                ) as i64,
        )
    } else {
        frame
    }
}

/// The compressor step of the capture path on its own: what a frame
/// contributes downstream. A caller that must not hold the preview and
/// sink locks at once runs this first, then publishes and writes the
/// result under one lock at a time.
pub fn apply_compressor(frame: &Vec<i64>, compressor_enabled: bool) -> (r: Vec<i64>)
    requires
        frame_in_range(frame@),
    ensures
        r@ == processed_frame(frame@, compressor_enabled),
        frame_in_range(r@),
{
    if compressor_enabled {
        let processed = compress_audio(frame, CAPTURE_THRESHOLD_AMP, CAPTURE_RATIO);
        proof {
            assert(processed@ =~= processed_frame(frame@, true));
        }
        processed
    } else {
        let mut copy: Vec<i64> = Vec::new();
        let mut i: usize = 0;
        while i < frame.len()
            invariant
                i <= frame@.len(),
                copy@ == frame@.subrange(0, i as int),
            decreases frame@.len() - i,
        {
            copy.push(frame[i]);
            proof {
                assert(copy@ =~= frame@.subrange(0, i + 1 as int));
            }
            i += 1;
        }
        proof {
            assert(frame@.subrange(0, frame@.len() as int) =~= frame@);
        }
        copy
    }
}

/// Handle one frame delivered by the audio backend.
///
/// When the stop signal has been observed the frame is dropped and
/// nothing changes — the stream may keep running until it is torn down.
/// Otherwise the processed samples replace the preview buffer's content
/// and are appended to the sink, in that order.
pub fn process_frame(
    stop_requested: bool,
    frame: &Vec<i64>,
    compressor_enabled: bool,
    sink: &mut SampleSink,
    preview: &mut PreviewBuffer,
)
    requires
        frame_in_range(frame@),
        old(sink).wf(),
        stop_requested || old(sink).write_room(frame@.len() as int),
    ensures
        final(sink).wf(),
        stop_requested ==> *final(sink) == *old(sink) && *final(preview) == *old(preview),
        !stop_requested ==> {
            &&& final(sink).samples() == old(sink).samples() + processed_frame(
                frame@,
                compressor_enabled,
            )
            &&& final(sink).format() == old(sink).format()
            &&& final(sink).artifact_params_match(*old(sink))
            &&& final(preview)@ == preview_of(processed_frame(frame@, compressor_enabled))
        },
{
    if stop_requested {
        return ;
    }
    let processed = apply_compressor(frame, compressor_enabled);
    preview.push(&processed);
    sink.write(&processed);
}

} // verus!
