//! Bounded preview buffer for a display layer.
//!
//! The buffer holds a snapshot of the most recent processed frame,
//! bounded to the last [`PREVIEW_CAPACITY`] samples of it. A push
//! replaces the whole previous content: this is a deliberate
//! "latest snapshot" policy, not a rolling history across frames.

use vstd::prelude::*;

verus! {

/// Capacity of the preview buffer, in samples.
pub const PREVIEW_CAPACITY: usize = 300;

/// What the buffer holds after a frame of samples is pushed: the frame
/// itself when it fits, otherwise its last [`PREVIEW_CAPACITY`] samples.
pub open spec fn preview_of(frame: Seq<i64>) -> Seq<i64> {
    if frame.len() <= PREVIEW_CAPACITY as int {
        frame
    } else {
        frame.skip(frame.len() - PREVIEW_CAPACITY as int)
    }
}

/// A bounded sample buffer whose content always mirrors the most
/// recently pushed frame.
pub struct PreviewBuffer {
    data: Vec<i64>,
}

impl View for PreviewBuffer {
    type V = Seq<i64>;

    closed spec fn view(&self) -> Seq<i64> {
        self.data@
    }
}

impl PreviewBuffer {
    /// An empty preview buffer.
    pub fn new() -> (r: PreviewBuffer)
        ensures
            r@ == Seq::<i64>::empty(),
    {
        PreviewBuffer { data: Vec::new() }
    }

    /// Replace the content with `frame`, truncated from the front to
    /// the last [`PREVIEW_CAPACITY`] samples when the frame is longer.
    pub fn push(&mut self, frame: &Vec<i64>)
        ensures
            final(self)@ == preview_of(frame@),
            final(self)@.len() <= PREVIEW_CAPACITY,
    {
        let start: usize = if frame.len() > PREVIEW_CAPACITY {
            frame.len() - PREVIEW_CAPACITY
        } else {
            0
        };
        let mut fresh: Vec<i64> = Vec::new();
        let mut i: usize = start;
        while i < frame.len()
            invariant
                start <= i <= frame@.len(),
                start == if frame@.len() > PREVIEW_CAPACITY as int {
                    frame@.len() - PREVIEW_CAPACITY as int
                } else {
                    0int
                },
                fresh@ == frame@.subrange(start as int, i as int),
            decreases frame@.len() - i,
        {
            fresh.push(frame[i]);
            proof {
                assert(fresh@ =~= frame@.subrange(start as int, i + 1 as int));
            }
            i += 1;
        }
        proof {
            assert(frame@.subrange(start as int, frame@.len() as int) =~= preview_of(frame@));
        }
        self.data = fresh;
    }

    /// A point-in-time copy of the buffer for display.
    pub fn read(&self) -> (r: Vec<i64>)
        ensures
            r@ == self@,
    {
        let mut out: Vec<i64> = Vec::new();
        let mut i: usize = 0;
        while i < self.data.len()
            invariant
                i <= self.data@.len(),
                out@ == self.data@.subrange(0, i as int),
            decreases self.data@.len() - i,
        {
            out.push(self.data[i]);
            proof {
                assert(out@ =~= self.data@.subrange(0, i + 1 as int));
            }
            i += 1;
        }
        proof {
            assert(self.data@.subrange(0, self.data@.len() as int) =~= self.data@);
        }
        out
    }
}

} // verus!
