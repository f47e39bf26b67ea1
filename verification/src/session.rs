//! Recording-session bookkeeping.
//!
//! The manager owns one slot per configured device, together with one
//! stop signal and one capture-thread handle per slot, index-aligned.
//! It decides every state change; actually spawning and joining threads,
//! and mirroring the stop signal into the shared cell a capture thread
//! polls, is the surrounding application's work. The handle type is a
//! parameter so that the bookkeeping stays independent of any thread
//! implementation.

use vstd::prelude::*;

verus! {

/// One user-visible recording unit bound to one input device.
pub struct RecordingSlot {
    pub device_index: usize,
    pub device_name: String,
    pub is_recording: bool,
    pub recording_started_at: Option<u64>,
}

/// Spec-level image of one slot.
#[verifier::ext_equal]
pub struct SlotView {
    pub device_index: usize,
    pub device_name: Seq<char>,
    pub is_recording: bool,
    pub recording_started_at: Option<u64>,
}

impl View for RecordingSlot {
    type V = SlotView;

    open spec fn view(&self) -> SlotView {
        SlotView {
            device_index: self.device_index,
            device_name: self.device_name@,
            is_recording: self.is_recording,
            recording_started_at: self.recording_started_at,
        }
    }
}

/// The manager's state as three index-aligned mathematical sequences.
#[verifier::ext_equal]
pub struct SessionView<H> {
    pub slots: Seq<SlotView>,
    pub signals: Seq<bool>,
    pub handles: Seq<Option<H>>,
}

impl<H> SessionView<H> {
    /// The slot, stop-signal and handle collections have equal length.
    pub open spec fn aligned(self) -> bool {
        &&& self.signals.len() == self.slots.len()
        &&& self.handles.len() == self.slots.len()
    }

    /// A slot holds a live capture-thread handle exactly while it is
    /// recording: no re-entrant start, no dangling handle.
    pub open spec fn live_ok(self) -> bool {
        forall|i: int|
            0 <= i < self.slots.len() ==> (self.slots[i].is_recording <==> self.handles[i]
                is Some)
    }

    /// The manager's invariant.
    pub open spec fn wf(self) -> bool {
        self.aligned() && self.live_ok()
    }

    /// Appending a slot: not recording, signal down, no handle.
    pub open spec fn spec_add(self, device_index: usize, device_name: Seq<char>) -> SessionView<
        H,
    > {
        SessionView {
            slots: self.slots.push(
                SlotView { device_index, device_name, is_recording: false, recording_started_at: None },
            ),
            signals: self.signals.push(false),
            handles: self.handles.push(None),
        }
    }

    /// Starting a slot: signal reset, marked recording with its start
    /// time, and the fresh thread handle stored.
    pub open spec fn spec_start(self, i: int, handle: H, started_at: u64) -> SessionView<H> {
        SessionView {
            slots: self.slots.update(
                i,
                SlotView {
                    device_index: self.slots[i].device_index,
                    device_name: self.slots[i].device_name,
                    is_recording: true,
                    recording_started_at: Some(started_at),
                },
            ),
            signals: self.signals.update(i, false),
            handles: self.handles.update(i, Some(handle)),
        }
    }

    /// Stopping a slot: signal raised, marked not recording, start time
    /// cleared, and the handle taken out for the caller to join. An
    /// out-of-range index changes nothing.
    pub open spec fn spec_stop(self, i: int) -> (SessionView<H>, Option<H>) {
        if 0 <= i < self.slots.len() {
            (
                SessionView {
                    slots: self.slots.update(
                        i,
                        SlotView {
                            device_index: self.slots[i].device_index,
                            device_name: self.slots[i].device_name,
                            is_recording: false,
                            recording_started_at: None,
                        },
                    ),
                    signals: self.signals.update(i, true),
                    handles: self.handles.update(i, None),
                },
                self.handles[i],
            )
        } else {
            (self, None)
        }
    }

    /// Removing a slot: the stop bookkeeping first, then slot, signal
    /// and handle leave together. An out-of-range index changes nothing.
    pub open spec fn spec_remove(self, i: int) -> (SessionView<H>, Option<H>) {
        if 0 <= i < self.slots.len() {
            (
                SessionView {
                    slots: self.slots.remove(i),
                    signals: self.signals.remove(i),
                    handles: self.handles.remove(i),
                },
                self.handles[i],
            )
        } else {
            (self, None)
        }
    }
}

/// Owner of the recording slots: the boundary the display layer calls
/// into. `H` is the capture-thread handle type.
pub struct SessionManager<H> {
    slots: Vec<RecordingSlot>,
    stop_signals: Vec<bool>,
    handles: Vec<Option<H>>,
}

impl<H> View for SessionManager<H> {
    type V = SessionView<H>;

    closed spec fn view(&self) -> SessionView<H> {
        SessionView {
            slots: Seq::new(self.slots@.len(), |i: int| self.slots@[i]@),
            signals: self.stop_signals@,
            handles: self.handles@,
        }
    }
}

impl<H> SessionManager<H> {
    /// A manager with no slots.
    pub fn new() -> (m: SessionManager<H>)
        ensures
            m@.wf(),
            m@.slots.len() == 0,
    {
        SessionManager { slots: Vec::new(), stop_signals: Vec::new(), handles: Vec::new() }
    }

    /// How many slots are configured.
    pub fn len(&self) -> (n: usize)
        requires
            self@.aligned(),
        ensures
            n == self@.slots.len(),
    {
        self.slots.len()
    }

    /// Whether the slot at `index` is currently recording.
    pub fn is_recording(&self, index: usize) -> (r: bool)
        requires
            index < self@.slots.len(),
        ensures
            r == self@.slots[index as int].is_recording,
    {
        self.slots[index].is_recording
    }

    /// The device index and start time of the slot at `index`, for
    /// display.
    pub fn slot_info(&self, index: usize) -> (r: (usize, bool, Option<u64>))
        requires
            index < self@.slots.len(),
        ensures
            r.0 == self@.slots[index as int].device_index,
            r.1 == self@.slots[index as int].is_recording,
            r.2 == self@.slots[index as int].recording_started_at,
    {
        let slot = &self.slots[index];
        (slot.device_index, slot.is_recording, slot.recording_started_at)
    }

    /// Whether the stop signal of the slot at `index` is raised.
    pub fn stop_signal(&self, index: usize) -> (r: bool)
        requires
            self@.aligned(),
            index < self@.slots.len(),
        ensures
            r == self@.signals[index as int],
    {
        self.stop_signals[index]
    }

    /// Append a new slot for a device: not recording, a fresh stop
    /// signal, no thread handle.
    pub fn add_slot(&mut self, device_index: usize, device_name: String)
        requires
            old(self)@.wf(),
        ensures
            final(self)@ == old(self)@.spec_add(device_index, device_name@),
            final(self)@.wf(),
    {
        let ghost dn = device_name@;
        self.slots.push(
            RecordingSlot {
                device_index,
                device_name,
                is_recording: false,
                recording_started_at: None,
            },
        );
        self.stop_signals.push(false);
        self.handles.push(None);
        proof {
            assert(self@.slots =~= old(self)@.spec_add(device_index, dn).slots);
            assert(self@ =~= old(self)@.spec_add(device_index, dn));
        }
    }

    /// Begin recording on a slot that is not already recording: reset
    /// its stop signal, mark it recording at `started_at`, and store the
    /// capture-thread handle. The caller spawns the thread first and
    /// mirrors the reset signal into the cell that thread polls.
    pub fn start_slot(&mut self, index: usize, handle: H, started_at: u64)
        requires
            old(self)@.wf(),
            index < old(self)@.slots.len(),
            !old(self)@.slots[index as int].is_recording,
        ensures
            final(self)@ == old(self)@.spec_start(index as int, handle, started_at),
            final(self)@.wf(),
    {
        let slot = &mut self.slots[index];
        slot.is_recording = true;
        slot.recording_started_at = Some(started_at);
        self.stop_signals[index] = false;
        self.handles[index] = Some(handle);
    }

    /// Stop the slot at `index`: raise its stop signal, mark it not
    /// recording, clear its start time, and hand back the thread handle
    /// (if one was live) for the caller to join. Stopping a slot that is
    /// already stopped, or an out-of-range index, changes nothing and
    /// hands back no handle.
    pub fn stop_slot(&mut self, index: usize) -> (h: Option<H>)
        requires
            old(self)@.wf(),
        ensures
            final(self)@ == old(self)@.spec_stop(index as int).0,
            h == old(self)@.spec_stop(index as int).1,
            final(self)@.wf(),
    {
        if index >= self.slots.len() {
            proof {
                assert(final(self)@ =~= old(self)@.spec_stop(index as int).0);
            }
            return None;
        }
        let slot = &mut self.slots[index];
        slot.is_recording = false;
        slot.recording_started_at = None;
        self.stop_signals[index] = true;
        let h = self.handles[index].take();
        proof {
            assert(self@ =~= old(self)@.spec_stop(index as int).0);
        }
        h
    }

    /// Remove the slot at `index` together with its stop signal and its
    /// handle slot, keeping the three collections aligned. If the slot
    /// was recording, its stop bookkeeping happens first and the live
    /// handle comes back for the caller to join. An out-of-range index
    /// changes nothing.
    pub fn remove_slot(&mut self, index: usize) -> (h: Option<H>)
        requires
            old(self)@.wf(),
        ensures
            final(self)@ == old(self)@.spec_remove(index as int).0,
            h == old(self)@.spec_remove(index as int).1,
            final(self)@.wf(),
    {
        if index >= self.slots.len() {
            proof {
                assert(final(self)@ =~= old(self)@.spec_remove(index as int).0);
            }
            return None;
        }
        self.slots.remove(index);
        self.stop_signals.remove(index);
        let h = self.handles.remove(index);
        proof {
            assert(self@ =~= old(self)@.spec_remove(index as int).0);
        }
        h
    }

    /// Select another device for a slot; only allowed while the slot is
    /// not recording.
    pub fn change_device(&mut self, index: usize, device_index: usize, device_name: String)
        requires
            old(self)@.wf(),
            index < old(self)@.slots.len(),
            !old(self)@.slots[index as int].is_recording,
        ensures
            final(self)@.wf(),
            final(self)@.slots == old(self)@.slots.update(
                index as int,
                SlotView {
                    device_index,
                    device_name: device_name@,
                    is_recording: false,
                    recording_started_at: old(self)@.slots[index as int].recording_started_at,
                },
            ),
            final(self)@.signals == old(self)@.signals,
            final(self)@.handles == old(self)@.handles,
    {
        let ghost dn = device_name@;
        let ghost started = self@.slots[index as int].recording_started_at;
        let slot = &mut self.slots[index];
        slot.device_index = device_index;
        slot.device_name = device_name;
        proof {
            assert(self@.slots =~= old(self)@.slots.update(
                index as int,
                SlotView {
                    device_index,
                    device_name: dn,
                    is_recording: false,
                    recording_started_at: started,
                },
            ));
        }
    }
}

/// Seconds a slot has been recording: the distance from its start
/// timestamp to `now`, zero for an idle slot or a clock that moved
/// backwards.
pub fn elapsed_seconds(started_at: Option<u64>, now: u64) -> (r: u64)
    ensures
        r == match started_at {
            Some(s) => if now >= s {
                now - s
            } else {
                0int
            },
            None => 0int,
        },
{
    match started_at {
        Some(s) => if now >= s {
            now - s
        } else {
            0
        },
        None => 0,
    }
}

/// One bookkeeping step that changes the shape of the collections.
pub enum SlotOp {
    Add { device_index: usize, device_name: Seq<char> },
    Remove { index: int },
}

/// The state after a whole sequence of add and remove steps.
pub open spec fn apply_slot_ops<H>(m: SessionView<H>, ops: Seq<SlotOp>) -> SessionView<H>
    decreases ops.len(),
{
    if ops.len() == 0 {
        m
    } else {
        let next = match ops[0] {
            SlotOp::Add { device_index, device_name } => m.spec_add(device_index, device_name),
            SlotOp::Remove { index } => m.spec_remove(index).0,
        };
        apply_slot_ops(next, ops.drop_first())
    }
}

/// After any sequence of add and remove steps on a well-formed manager,
/// the slot, stop-signal and handle collections still have equal
/// length — and the whole invariant still holds.
pub proof fn lemma_slot_ops_preserve_alignment<H>(m: SessionView<H>, ops: Seq<SlotOp>)
    requires
        m.wf(),
    ensures
        apply_slot_ops(m, ops).aligned(),
        apply_slot_ops(m, ops).wf(),
    decreases ops.len(),
{
    if ops.len() > 0 {
        match ops[0] {
            SlotOp::Add { device_index, device_name } => {
                lemma_slot_ops_preserve_alignment(m.spec_add(device_index, device_name),
                    ops.drop_first());
            },
            SlotOp::Remove { index } => {
                lemma_slot_ops_preserve_alignment(m.spec_remove(index).0, ops.drop_first());
            },
        }
    }
}

/// Stopping is idempotent: a second stop of the same slot changes
/// nothing, hands back no handle to join twice, and the slot stays not
/// recording.
pub proof fn lemma_stop_idempotent<H>(m: SessionView<H>, i: int)
    requires
        m.wf(),
    ensures
        ({
            let (m1, _h1) = m.spec_stop(i);
            let (m2, h2) = m1.spec_stop(i);
            &&& m2 == m1
            &&& h2 is None
            &&& (0 <= i < m1.slots.len() ==> !m1.slots[i].is_recording)
        }),
{
    let (m1, _h1) = m.spec_stop(i);
    let (m2, _h2) = m1.spec_stop(i);
    if 0 <= i < m.slots.len() {
        assert(m2.slots =~= m1.slots);
        assert(m2.signals =~= m1.signals);
        assert(m2.handles =~= m1.handles);
    }
}

} // verus!
