//! The per-track jitter buffer: frames arrive in any order, are filed by
//! sequence number, and leave in sequence order once enough are waiting.

use vstd::prelude::*;

use crate::audio::buffer::AudioFrame;
use crate::ratio::Ratio;

verus! {

/// A capacity the jitter buffer accepts: a power of two.
pub open spec fn is_power_of_two(n: usize) -> bool {
    n != 0 && n & ((n - 1) as usize) == 0
}

/// The slot that a sequence number is filed under in a buffer of the given
/// capacity: the sequence number masked by `capacity - 1`.
pub open spec fn slot_index(sequence: u32, capacity: nat) -> int {
    ((sequence as usize) & ((capacity - 1) as usize)) as int
}

/// How far `to` lies ahead of `from`, counting modulo 2^32.
pub open spec fn distance(from: u32, to: u32) -> nat {
    to.wrapping_sub(from) as nat
}

/// A counter one higher, starting again from zero past the largest value.
pub open spec fn wrapping_inc(n: usize) -> usize {
    n.wrapping_add(1)
}

/// The number of slots that hold a frame.
pub open spec fn occupied(slots: Seq<Option<AudioFrame>>) -> nat
    decreases slots.len(),
{
    if slots.len() == 0 {
        0
    } else {
        occupied(slots.drop_last()) + if slots.last() is Some {
            1nat
        } else {
            0nat
        }
    }
}

/// One operation on a jitter buffer.
pub enum JitterOp {
    Insert(AudioFrame),
    Get,
    ForceGet,
}

/// A frame that left the buffer, with the number of steps that the next
/// sequence number had taken before.
pub struct Release {
    pub position: nat,
    pub frame: AudioFrame,
}

/// What a jitter buffer holds, as plain values.
pub struct JitterState {
    /// One slot for each sequence number modulo the capacity.
    pub slots: Seq<Option<AudioFrame>>,
    /// The sequence number that the next release hands out or skips.
    pub next_sequence: u32,
    /// The number of waiting frames below which `get_next` holds back.
    pub min_delay: usize,
    /// The number of waiting frames.
    pub level: usize,
    /// Frames accepted so far.
    pub received: usize,
    /// Releases that found their slot empty.
    pub lost: usize,
    /// Frames refused because their turn had passed.
    pub late: usize,
}

impl JitterState {
    pub open spec fn capacity(self) -> nat {
        self.slots.len()
    }

    /// The capacity is a power of two, every waiting frame sits in the slot of
    /// its sequence number, and the level is the number of occupied slots.
    pub open spec fn wf(self) -> bool {
        &&& self.slots.len() <= usize::MAX
        &&& is_power_of_two(self.slots.len() as usize)
        &&& self.level == occupied(self.slots)
        &&& forall|i: int|
            0 <= i < self.slots.len() && (#[trigger] self.slots[i]) is Some ==> slot_index(
                self.slots[i]->0.sequence,
                self.capacity(),
            ) == i
    }

    /// The empty buffer of the given capacity and minimum delay.
    pub open spec fn empty(capacity: nat, min_delay: usize) -> JitterState {
        JitterState {
            slots: Seq::new(capacity, |i: int| None::<AudioFrame>),
            next_sequence: 0,
            min_delay,
            level: 0,
            received: 0,
            lost: 0,
            late: 0,
        }
    }

    /// A frame is late when its sequence number lies behind the next one to
    /// release by no more than half the capacity. One that lies further behind
    /// is taken for a frame of a restarted stream and accepted.
    pub open spec fn is_late(self, sequence: u32) -> bool {
        sequence < self.next_sequence && self.next_sequence - sequence <= self.capacity() / 2
    }

    /// The buffer after a frame arrives: a late frame only moves the late
    /// counter; any other frame takes its slot, replacing what was there, and
    /// the level rises only if the slot was empty.
    pub open spec fn insert(self, frame: AudioFrame) -> JitterState {
        if self.is_late(frame.sequence) {
            JitterState { late: wrapping_inc(self.late), ..self }
        } else {
            let i = slot_index(frame.sequence, self.capacity());
            JitterState {
                slots: self.slots.update(i, Some(frame)),
                received: wrapping_inc(self.received),
                level: if self.slots[i] is Some {
                    self.level
                } else {
                    (self.level + 1) as usize
                },
                ..self
            }
        }
    }

    /// Whether enough frames are waiting for `get_next` to release one.
    pub open spec fn gate_open(self) -> bool {
        self.level >= self.min_delay
    }

    /// What sits in the slot of the next sequence number.
    pub open spec fn head(self) -> Option<AudioFrame> {
        self.slots[slot_index(self.next_sequence, self.capacity())]
    }

    /// The buffer after one release: the slot of the next sequence number is
    /// emptied, an empty slot counts as a loss, and the next sequence number
    /// moves on by one.
    pub open spec fn advance(self) -> JitterState {
        let i = slot_index(self.next_sequence, self.capacity());
        JitterState {
            slots: self.slots.update(i, None),
            level: if self.head() is Some {
                (self.level - 1) as usize
            } else {
                self.level
            },
            lost: if self.head() is Some {
                self.lost
            } else {
                wrapping_inc(self.lost)
            },
            next_sequence: self.next_sequence.wrapping_add(1),
            ..self
        }
    }

    /// The buffer after `get_next`.
    pub open spec fn get(self) -> JitterState {
        if self.gate_open() {
            self.advance()
        } else {
            self
        }
    }

    /// What `get_next` returns.
    pub open spec fn get_output(self) -> Option<AudioFrame> {
        if self.gate_open() {
            self.head()
        } else {
            None
        }
    }

    /// The buffer with every slot emptied and the given sequence number next.
    /// The received, lost and late counters stay.
    pub open spec fn restart(self, sequence: u32) -> JitterState {
        JitterState {
            slots: Seq::new(self.slots.len(), |i: int| None::<AudioFrame>),
            level: 0,
            next_sequence: sequence,
            ..self
        }
    }

    /// The buffer after one operation.
    pub open spec fn apply(self, op: JitterOp) -> JitterState {
        match op {
            JitterOp::Insert(frame) => self.insert(frame),
            JitterOp::Get => self.get(),
            JitterOp::ForceGet => self.advance(),
        }
    }

    /// The frame that one operation hands out, if any.
    pub open spec fn output(self, op: JitterOp) -> Option<AudioFrame> {
        match op {
            JitterOp::Insert(_) => None,
            JitterOp::Get => self.get_output(),
            JitterOp::ForceGet => self.head(),
        }
    }

    /// Whether one operation moves the next sequence number on.
    pub open spec fn moves(self, op: JitterOp) -> bool {
        match op {
            JitterOp::Insert(_) => false,
            JitterOp::Get => self.gate_open(),
            JitterOp::ForceGet => true,
        }
    }

    /// The buffer after a whole schedule of operations, applied first to last.
    pub open spec fn run(self, ops: Seq<JitterOp>) -> JitterState
        decreases ops.len(),
    {
        if ops.len() == 0 {
            self
        } else {
            self.run(ops.drop_last()).apply(ops.last())
        }
    }

    /// The number of times a schedule moves the next sequence number on.
    pub open spec fn steps(self, ops: Seq<JitterOp>) -> nat
        decreases ops.len(),
    {
        if ops.len() == 0 {
            0
        } else {
            self.steps(ops.drop_last()) + if self.run(ops.drop_last()).moves(ops.last()) {
                1nat
            } else {
                0nat
            }
        }
    }

    /// The frames a schedule hands out, in order, each with the number of
    /// steps that came before it.
    pub open spec fn released(self, ops: Seq<JitterOp>) -> Seq<Release>
        decreases ops.len(),
    {
        if ops.len() == 0 {
            Seq::empty()
        } else {
            let earlier = self.released(ops.drop_last());
            match self.run(ops.drop_last()).output(ops.last()) {
                Some(frame) => earlier.push(
                    Release { position: self.steps(ops.drop_last()), frame },
                ),
                None => earlier,
            }
        }
    }

    /// Every waiting frame lies less than one capacity ahead of the next
    /// sequence number.
    pub open spec fn windowed(self) -> bool {
        forall|i: int|
            0 <= i < self.slots.len() && (#[trigger] self.slots[i]) is Some ==> distance(
                self.next_sequence,
                self.slots[i]->0.sequence,
            ) < self.capacity()
    }

    /// An operation keeps the window when it is a release, or an arrival that
    /// is refused as late or lies less than one capacity ahead.
    pub open spec fn admits(self, op: JitterOp) -> bool {
        match op {
            JitterOp::Insert(frame) => self.is_late(frame.sequence) || distance(
                self.next_sequence,
                frame.sequence,
            ) < self.capacity(),
            _ => true,
        }
    }

    /// Every operation of a schedule keeps the window at the time it runs.
    pub open spec fn admits_all(self, ops: Seq<JitterOp>) -> bool
        decreases ops.len(),
    {
        ops.len() == 0 || (self.admits_all(ops.drop_last()) && self.run(ops.drop_last()).admits(
            ops.last(),
        ))
    }
}

/// A masked index lies below the capacity.
pub proof fn lemma_slot_index_in_range(sequence: u32, capacity: usize)
    requires
        capacity > 0,
    ensures
        0 <= slot_index(sequence, capacity as nat) < capacity,
{
    let x = sequence as usize;
    let m = (capacity - 1) as usize;
    assert(x & m <= m) by (bit_vector);
}

/// Within one window of `capacity` sequence numbers, each slot belongs to one
/// sequence number only.
pub proof fn lemma_window_slots_differ(a: u32, n: u32, capacity: usize)
    requires
        is_power_of_two(capacity),
        slot_index(a, capacity as nat) == slot_index(n, capacity as nat),
        distance(n, a) < capacity,
    ensures
        a == n,
{
    let d = a.wrapping_sub(n);
    assert(a == n) by (bit_vector)
        requires
            capacity != 0,
            capacity & ((capacity - 1) as usize) == 0,
            (a as usize) & ((capacity - 1) as usize) == (n as usize) & ((capacity - 1) as usize),
            (d as usize) < capacity,
            n + d == a || n + d == a + 0x1_0000_0000,
    ;
}

/// Every operation keeps the buffer well formed: the capacity stays, each
/// waiting frame sits in the slot of its sequence number, and the level is
/// the number of occupied slots.
pub proof fn lemma_apply_keeps_wf(state: JitterState, op: JitterOp)
    requires
        state.wf(),
    ensures
        state.apply(op).wf(),
        state.apply(op).capacity() == state.capacity(),
{
    let capacity = state.slots.len() as usize;
    match op {
        JitterOp::Insert(frame) => {
            lemma_slot_index_in_range(frame.sequence, capacity);
            lemma_occupied_update(
                state.slots,
                slot_index(frame.sequence, state.capacity()),
                Some(frame),
            );
        },
        _ => {
            lemma_slot_index_in_range(state.next_sequence, capacity);
            lemma_occupied_update(
                state.slots,
                slot_index(state.next_sequence, state.capacity()),
                None,
            );
        },
    }
}

/// In a windowed buffer the frame in the slot of the next sequence number
/// carries exactly that sequence number.
pub proof fn lemma_head_is_next(state: JitterState)
    requires
        state.wf(),
        state.windowed(),
        state.head() is Some,
    ensures
        state.head()->0.sequence == state.next_sequence,
{
    let capacity = state.slots.len() as usize;
    lemma_slot_index_in_range(state.next_sequence, capacity);
    let i = slot_index(state.next_sequence, state.capacity());
    lemma_window_slots_differ(state.slots[i]->0.sequence, state.next_sequence, capacity);
}

/// An admitted operation keeps the buffer windowed.
pub proof fn lemma_apply_keeps_window(state: JitterState, op: JitterOp)
    requires
        state.wf(),
        state.windowed(),
        state.admits(op),
    ensures
        state.apply(op).windowed(),
{
    let capacity = state.slots.len() as usize;
    let after = state.apply(op);
    match op {
        JitterOp::Insert(frame) => {
            lemma_slot_index_in_range(frame.sequence, capacity);
        },
        _ => {
            if state.moves(op) {
                lemma_slot_index_in_range(state.next_sequence, capacity);
                assert forall|i: int|
                    0 <= i < after.slots.len() && (#[trigger] after.slots[i]) is Some implies distance(
                    after.next_sequence,
                    after.slots[i]->0.sequence,
                ) < after.capacity() by {
                    assert(state.slots[i] is Some);
                }
            }
        },
    }
}

/// Release order: over any schedule whose arrivals stay inside the window, a
/// frame handed out after `k` steps carries the sequence number `k` past the
/// one the schedule started at, counting modulo 2^32, and each later release
/// comes after more steps than each earlier one. So the sequence numbers of
/// the released frames strictly increase modulo 2^32.
pub proof fn lemma_release_order(start: JitterState, ops: Seq<JitterOp>)
    requires
        start.wf(),
        start.windowed(),
        start.admits_all(ops),
    ensures
        start.run(ops).wf(),
        start.run(ops).windowed(),
        start.run(ops).capacity() == start.capacity(),
        start.run(ops).next_sequence == (start.next_sequence + start.steps(ops)) % 0x1_0000_0000,
        forall|k: int|
            0 <= k < start.released(ops).len() ==> {
                let release = #[trigger] start.released(ops)[k];
                &&& release.position < start.steps(ops)
                &&& release.frame.sequence == (start.next_sequence + release.position)
                    % 0x1_0000_0000
            },
        forall|j: int, k: int|
            0 <= j < k < start.released(ops).len() ==> (#[trigger] start.released(ops)[j]).position
                < (#[trigger] start.released(ops)[k]).position,
    decreases ops.len(),
{
    if ops.len() > 0 {
        let rest = ops.drop_last();
        let op = ops.last();
        lemma_release_order(start, rest);
        let before = start.run(rest);
        lemma_apply_keeps_wf(before, op);
        lemma_apply_keeps_window(before, op);
        let earlier = start.released(rest);
        let all = start.released(ops);
        if before.output(op) is Some {
            lemma_head_is_next(before);
            assert forall|k: int| 0 <= k < all.len() implies {
                let release = #[trigger] all[k];
                &&& release.position < start.steps(ops)
                &&& release.frame.sequence == (start.next_sequence + release.position)
                    % 0x1_0000_0000
            } by {
                if k < earlier.len() {
                    assert(all[k] == earlier[k]);
                }
            }
            assert forall|j: int, k: int| 0 <= j < k < all.len() implies (#[trigger] all[j]).position
                < (#[trigger] all[k]).position by {
                assert(all[j] == earlier[j]);
            }
        }
    }
}

/// Emptying or filling one slot changes the number of occupied slots by that slot alone.
pub proof fn lemma_occupied_update(slots: Seq<Option<AudioFrame>>, i: int, v: Option<AudioFrame>)
    requires
        0 <= i < slots.len(),
    ensures
        occupied(slots.update(i, v)) + (if slots[i] is Some {
            1nat
        } else {
            0nat
        }) == occupied(slots) + (if v is Some {
            1nat
        } else {
            0nat
        }),
        occupied(slots) <= slots.len(),
        slots[i] is None ==> occupied(slots) < slots.len(),
        slots[i] is Some ==> occupied(slots) > 0,
    decreases slots.len(),
{
    let n = slots.len() - 1;
    if i == n {
        assert(slots.update(i, v).drop_last() =~= slots.drop_last());
        lemma_occupied_bound(slots.drop_last());
    } else {
        lemma_occupied_update(slots.drop_last(), i, v);
        assert(slots.update(i, v).drop_last() =~= slots.drop_last().update(i, v));
    }
}

/// No more slots are occupied than there are slots.
pub proof fn lemma_occupied_bound(slots: Seq<Option<AudioFrame>>)
    ensures
        occupied(slots) <= slots.len(),
    decreases slots.len(),
{
    if slots.len() > 0 {
        lemma_occupied_bound(slots.drop_last());
    }
}

/// A buffer whose slots are all empty has no occupied slot.
pub proof fn lemma_occupied_none(n: nat)
    ensures
        occupied(Seq::new(n, |i: int| None::<AudioFrame>)) == 0,
    decreases n,
{
    if n > 0 {
        lemma_occupied_none((n - 1) as nat);
        assert(Seq::new(n, |i: int| None::<AudioFrame>).drop_last() =~= Seq::new(
            (n - 1) as nat,
            |i: int| None::<AudioFrame>,
        ));
    }
}

/// Reorders the frames of one track and paces their release.
pub struct JitterBuffer {
    slots: Vec<Option<AudioFrame>>,
    capacity: usize,
    mask: usize,
    next_sequence: u32,
    min_delay: usize,
    level: usize,
    received: usize,
    lost: usize,
    late: usize,
}

impl View for JitterBuffer {
    type V = JitterState;

    closed spec fn view(&self) -> JitterState {
        JitterState {
            slots: self.slots@,
            next_sequence: self.next_sequence,
            min_delay: self.min_delay,
            level: self.level,
            received: self.received,
            lost: self.lost,
            late: self.late,
        }
    }
}

/// A snapshot of a jitter buffer's counters.
#[derive(Debug, Clone)]
pub struct JitterBufferStats {
    pub level: usize,
    pub capacity: usize,
    pub received: usize,
    pub lost: usize,
    pub late: usize,
}

impl JitterBufferStats {
    /// The share of frames that were lost: lost over received plus lost, and
    /// zero where there were none.
    pub fn loss_rate(&self) -> (rate: Ratio)
        ensures
            rate == Ratio::spec_of(self.lost as nat, (self.received + self.lost) as nat),
    {
        Ratio::of(self.lost as u128, self.received as u128 + self.lost as u128)
    }
}

impl JitterBuffer {
    /// The buffer is in a state its operations keep: the model is well formed
    /// and the stored capacity and mask agree with the slots.
    pub closed spec fn wf(&self) -> bool {
        &&& self@.wf()
        &&& self.capacity == self.slots@.len()
        &&& self.mask == self.capacity - 1
    }

    /// A buffer that is in a state its operations keep is well formed as a model.
    pub proof fn lemma_wf_view(&self)
        requires
            self.wf(),
        ensures
            self@.wf(),
    {
    }

    /// An empty buffer. The capacity is a power of two.
    pub fn new(capacity: usize, min_delay: usize) -> (jitter: Self)
        requires
            is_power_of_two(capacity),
        ensures
            jitter.wf(),
            jitter@.wf(),
            jitter@ == JitterState::empty(capacity as nat, min_delay),
    {
        let mut slots: Vec<Option<AudioFrame>> = Vec::new();
        let mut i: usize = 0;
        while i < capacity
            invariant
                i <= capacity,
                slots@ =~= Seq::new(i as nat, |k: int| None::<AudioFrame>),
            decreases capacity - i,
        {
            slots.push(None);
            i = i + 1;
        }
        proof {
            lemma_occupied_none(capacity as nat);
        }
        Self {
            slots,
            capacity,
            mask: capacity - 1,
            next_sequence: 0,
            min_delay,
            level: 0,
            received: 0,
            lost: 0,
            late: 0,
        }
    }

    /// Files a frame under its sequence number. Returns `false`, and only
    /// counts the frame as late, when its turn has passed.
    pub fn insert(&mut self, frame: AudioFrame) -> (accepted: bool)
        requires
            old(self).wf(),
        ensures
            final(self).wf(),
            final(self)@.wf(),
            accepted == !old(self)@.is_late(frame.sequence),
            final(self)@ == old(self)@.insert(frame),
    {
        let seq = frame.sequence;
        if seq < self.next_sequence {
            let diff = self.next_sequence - seq;
            if diff as usize <= self.capacity / 2 {
                self.late = self.late.wrapping_add(1);
                return false;
            }
        }
        let index = (seq as usize) & self.mask;
        proof {
            lemma_slot_index_in_range(seq, self.capacity);
            lemma_occupied_update(self.slots@, index as int, Some(frame));
        }
        let was_empty = self.slots[index].is_none();
        self.slots.set(index, Some(frame));
        self.received = self.received.wrapping_add(1);
        if was_empty {
            self.level = self.level + 1;
        }
        true
    }

    /// Releases the frame of the next sequence number once at least
    /// `min_delay` frames are waiting. Below that it returns `None` and
    /// changes nothing. When the slot is empty the frame counts as lost and
    /// the sequence still moves on.
    pub fn get_next(&mut self) -> (frame: Option<AudioFrame>)
        requires
            old(self).wf(),
        ensures
            final(self).wf(),
            final(self)@.wf(),
            frame == old(self)@.get_output(),
            final(self)@ == old(self)@.get(),
    {
        if self.level < self.min_delay {
            return None;
        }
        self.force_get_next()
    }

    /// Releases the frame of the next sequence number however few are waiting.
    pub fn force_get_next(&mut self) -> (frame: Option<AudioFrame>)
        requires
            old(self).wf(),
        ensures
            final(self).wf(),
            final(self)@.wf(),
            frame == old(self)@.head(),
            final(self)@ == old(self)@.advance(),
    {
        let index = (self.next_sequence as usize) & self.mask;
        proof {
            lemma_slot_index_in_range(self.next_sequence, self.capacity);
            lemma_occupied_update(self.slots@, index as int, None);
        }
        let frame = self.slots[index].take();
        if frame.is_some() {
            self.level = self.level - 1;
        } else {
            self.lost = self.lost.wrapping_add(1);
        }
        self.next_sequence = self.next_sequence.wrapping_add(1);
        frame
    }

    /// Empties every slot and makes sequence number 0 the next.
    pub fn reset(&mut self)
        requires
            old(self).wf(),
        ensures
            final(self).wf(),
            final(self)@.wf(),
            final(self)@ == old(self)@.restart(0),
    {
        self.clear_slots();
        self.next_sequence = 0;
        self.level = 0;
        proof {
            lemma_occupied_none(self.capacity as nat);
        }
    }

    /// Empties every slot and makes `seq` the next sequence number.
    pub fn set_next_sequence(&mut self, seq: u32)
        requires
            old(self).wf(),
        ensures
            final(self).wf(),
            final(self)@.wf(),
            final(self)@ == old(self)@.restart(seq),
    {
        self.reset();
        self.next_sequence = seq;
    }

    fn clear_slots(&mut self)
        requires
            old(self).capacity == old(self).slots@.len(),
        ensures
            final(self).slots@ =~= Seq::new(old(self).slots@.len(), |k: int| None::<AudioFrame>),
            final(self).capacity == old(self).capacity,
            final(self).mask == old(self).mask,
            final(self).next_sequence == old(self).next_sequence,
            final(self).min_delay == old(self).min_delay,
            final(self).level == old(self).level,
            final(self).received == old(self).received,
            final(self).lost == old(self).lost,
            final(self).late == old(self).late,
    {
        let mut i: usize = 0;
        while i < self.capacity
            invariant
                i <= self.capacity,
                self.capacity == self.slots@.len(),
                self.capacity == old(self).capacity,
                self.mask == old(self).mask,
                self.next_sequence == old(self).next_sequence,
                self.min_delay == old(self).min_delay,
                self.level == old(self).level,
                self.received == old(self).received,
                self.lost == old(self).lost,
                self.late == old(self).late,
                forall|k: int| 0 <= k < i ==> self.slots@[k] is None,
            decreases self.capacity - i,
        {
            self.slots.set(i, None);
            i = i + 1;
        }
    }

    /// The counters as they stand.
    pub fn stats(&self) -> (stats: JitterBufferStats)
        requires
            self.wf(),
        ensures
            stats.level == self@.level,
            stats.capacity == self@.capacity(),
            stats.received == self@.received,
            stats.lost == self@.lost,
            stats.late == self@.late,
    {
        JitterBufferStats {
            level: self.level,
            capacity: self.capacity,
            received: self.received,
            lost: self.lost,
            late: self.late,
        }
    }
}

} // verus!
