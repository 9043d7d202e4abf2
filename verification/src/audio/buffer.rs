//! Audio frames and the bounded frame ring between a producer and a consumer.

use crossbeam::queue::ArrayQueue;
use vstd::prelude::*;

use crate::constants::MAX_RING_CAPACITY;
use crate::ratio::Ratio;

verus! {

/// One block of interleaved audio with its place in the stream.
#[derive(Clone)]
pub struct AudioFrame {
    /// Interleaved samples, each the bits of a 32-bit IEEE-754 value.
    pub samples: Vec<u32>,
    /// Number of channels.
    pub channels: u16,
    /// Sender-local timestamp in microseconds.
    pub timestamp: u64,
    /// Sequence number of the frame.
    pub sequence: u32,
}

impl AudioFrame {
    pub fn new(samples: Vec<u32>, channels: u16, timestamp: u64, sequence: u32) -> (frame: Self)
        ensures
            frame.samples == samples,
            frame.channels == channels,
            frame.timestamp == timestamp,
            frame.sequence == sequence,
    {
        Self { samples, channels, timestamp, sequence }
    }

    /// Number of samples in each channel.
    pub fn samples_per_channel(&self) -> (n: usize)
        requires
            self.channels > 0,
        ensures
            n == self.samples@.len() / (self.channels as nat),
    {
        self.samples.len() / self.channels as usize
    }

    /// Duration of the frame in microseconds at the given sample rate.
    pub fn duration_us(&self, sample_rate: u32) -> (us: u64)
        requires
            self.channels > 0,
            sample_rate > 0,
            (self.samples@.len() / (self.channels as nat)) * 1_000_000 <= u64::MAX,
        ensures
            us == ((self.samples@.len() / (self.channels as nat)) * 1_000_000) / (sample_rate as nat),
    {
        (self.samples_per_channel() as u64 * 1_000_000) / sample_rate as u64
    }
}

/// `crossbeam::queue::ArrayQueue`, the bounded queue that holds the ring's
/// frames. Nothing inside it is visible here; what it holds goes by the two
/// names below.
#[verifier::external_type_specification]
#[verifier::external_body]
#[verifier::reject_recursive_types(T)]
pub struct ExArrayQueue<T>(crossbeam::queue::ArrayQueue<T>);

/// The frames a queue holds, oldest first.
pub uninterp spec fn queue_frames(q: ArrayQueue<AudioFrame>) -> Seq<AudioFrame>;

/// The capacity a queue was made with.
pub uninterp spec fn queue_capacity(q: ArrayQueue<AudioFrame>) -> nat;

/// `ArrayQueue::new`: an empty queue of the given capacity. The call panics when
/// the capacity is zero or too large, so both are left out.
#[verifier::external_body]
fn queue_new(capacity: usize) -> (q: ArrayQueue<AudioFrame>)
    requires
        0 < capacity <= MAX_RING_CAPACITY,
    ensures
        queue_frames(q) == Seq::<AudioFrame>::empty(),
        queue_capacity(q) == capacity,
{
    ArrayQueue::new(capacity)
}

/// `ArrayQueue::push`: appends the frame unless the queue is full, in which case
/// the frame is handed back and the queue is unchanged.
#[verifier::external_body]
fn queue_push(q: &mut ArrayQueue<AudioFrame>, frame: AudioFrame) -> (rejected: Option<AudioFrame>)
    ensures
        queue_capacity(*final(q)) == queue_capacity(*old(q)),
        queue_frames(*old(q)).len() < queue_capacity(*old(q)) ==> rejected is None && queue_frames(
            *final(q),
        ) == queue_frames(*old(q)).push(frame),
        queue_frames(*old(q)).len() >= queue_capacity(*old(q)) ==> rejected == Some(frame)
            && queue_frames(*final(q)) == queue_frames(*old(q)),
    no_unwind
{
    q.push(frame).err()
}

/// `ArrayQueue::pop`: removes and returns the oldest frame, or returns `None`
/// and leaves the queue unchanged when it is empty.
#[verifier::external_body]
fn queue_pop(q: &mut ArrayQueue<AudioFrame>) -> (r: Option<AudioFrame>)
    ensures
        queue_capacity(*final(q)) == queue_capacity(*old(q)),
        queue_frames(*old(q)).len() == 0 ==> r is None && queue_frames(*final(q)) == queue_frames(
            *old(q),
        ),
        queue_frames(*old(q)).len() > 0 ==> r == Some(queue_frames(*old(q))[0]) && queue_frames(
            *final(q),
        ) == queue_frames(*old(q)).drop_first(),
    no_unwind
{
    q.pop()
}

/// `ArrayQueue::len`: the number of frames in the queue.
#[verifier::external_body]
fn queue_len(q: &ArrayQueue<AudioFrame>) -> (n: usize)
    ensures
        n == queue_frames(*q).len(),
{
    q.len()
}

/// `ArrayQueue::capacity`: the capacity the queue was made with.
#[verifier::external_body]
fn queue_cap(q: &ArrayQueue<AudioFrame>) -> (n: usize)
    ensures
        n == queue_capacity(*q),
{
    q.capacity()
}

/// `ArrayQueue::is_empty`: whether the queue holds no frame.
#[verifier::external_body]
fn queue_is_empty(q: &ArrayQueue<AudioFrame>) -> (b: bool)
    ensures
        b == (queue_frames(*q).len() == 0),
{
    q.is_empty()
}

/// `ArrayQueue::is_full`: whether the queue holds as many frames as its capacity.
#[verifier::external_body]
fn queue_is_full(q: &ArrayQueue<AudioFrame>) -> (b: bool)
    ensures
        b == (queue_frames(*q).len() == queue_capacity(*q)),
{
    q.is_full()
}

/// What a frame ring holds, as plain values.
pub struct RingState {
    /// The queued frames, oldest first.
    pub frames: Seq<AudioFrame>,
    /// The number of frames the ring has room for.
    pub capacity: nat,
    /// Pushes refused because the ring was full.
    pub overflow_count: usize,
    /// Pops that found the ring empty.
    pub underrun_count: usize,
}

/// One operation on a frame ring.
pub enum RingOp {
    Push(AudioFrame),
    Pop,
    TryPop,
}

/// A counter one higher, held at the largest value once it is reached.
pub open spec fn saturating_inc(n: usize) -> usize {
    if n < usize::MAX {
        (n + 1) as usize
    } else {
        n
    }
}

impl RingState {
    /// The empty ring of the given capacity, with both counters at zero.
    pub open spec fn empty(capacity: nat) -> RingState {
        RingState { frames: Seq::empty(), capacity, overflow_count: 0, underrun_count: 0 }
    }

    /// A ring has room for at least one frame and never holds more than its capacity.
    pub open spec fn wf(self) -> bool {
        0 < self.capacity && self.frames.len() <= self.capacity
    }

    pub open spec fn is_empty(self) -> bool {
        self.frames.len() == 0
    }

    pub open spec fn is_full(self) -> bool {
        self.frames.len() == self.capacity
    }

    /// The frame the next pop hands out, if there is one.
    pub open spec fn front(self) -> Option<AudioFrame> {
        if self.frames.len() > 0 {
            Some(self.frames[0])
        } else {
            None
        }
    }

    /// The ring after a push: the frame joins at the tail, or the overflow counter moves.
    pub open spec fn push(self, frame: AudioFrame) -> RingState {
        if self.frames.len() < self.capacity {
            RingState { frames: self.frames.push(frame), ..self }
        } else {
            RingState { overflow_count: saturating_inc(self.overflow_count), ..self }
        }
    }

    /// The ring after a pop: the head frame leaves, or the underrun counter moves.
    pub open spec fn pop(self) -> RingState {
        if self.frames.len() > 0 {
            RingState { frames: self.frames.drop_first(), ..self }
        } else {
            RingState { underrun_count: saturating_inc(self.underrun_count), ..self }
        }
    }

    /// The ring after a pop that counts no underrun.
    pub open spec fn try_pop(self) -> RingState {
        if self.frames.len() > 0 {
            RingState { frames: self.frames.drop_first(), ..self }
        } else {
            self
        }
    }

    pub open spec fn apply(self, op: RingOp) -> RingState {
        match op {
            RingOp::Push(frame) => self.push(frame),
            RingOp::Pop => self.pop(),
            RingOp::TryPop => self.try_pop(),
        }
    }

    /// The ring after a whole schedule of operations, applied first to last.
    pub open spec fn run(self, ops: Seq<RingOp>) -> RingState
        decreases ops.len(),
    {
        if ops.len() == 0 {
            self
        } else {
            self.run(ops.drop_last()).apply(ops.last())
        }
    }

    /// The frames that the pushes of a schedule put into the ring, in order.
    pub open spec fn enqueued(self, ops: Seq<RingOp>) -> Seq<AudioFrame>
        decreases ops.len(),
    {
        if ops.len() == 0 {
            Seq::empty()
        } else {
            let before = self.run(ops.drop_last());
            let earlier = self.enqueued(ops.drop_last());
            match ops.last() {
                RingOp::Push(frame) => if before.is_full() {
                    earlier
                } else {
                    earlier.push(frame)
                },
                _ => earlier,
            }
        }
    }

    /// The frames that the pops of a schedule took out of the ring, in order.
    pub open spec fn dequeued(self, ops: Seq<RingOp>) -> Seq<AudioFrame>
        decreases ops.len(),
    {
        if ops.len() == 0 {
            Seq::empty()
        } else {
            let before = self.run(ops.drop_last());
            let earlier = self.dequeued(ops.drop_last());
            match ops.last() {
                RingOp::Push(_) => earlier,
                _ => match before.front() {
                    Some(frame) => earlier.push(frame),
                    None => earlier,
                },
            }
        }
    }
}

/// First in, first out: over any schedule of pushes and pops, what was in the
/// ring at the start followed by what was enqueued equals what was dequeued
/// followed by what is still in the ring. So the dequeued frames are a prefix,
/// in order, of the frames that went in, and the ring never exceeds its capacity.
pub proof fn lemma_ring_fifo(start: RingState, ops: Seq<RingOp>)
    requires
        start.wf(),
    ensures
        start.run(ops).wf(),
        start.run(ops).capacity == start.capacity,
        start.frames + start.enqueued(ops) == start.dequeued(ops) + start.run(ops).frames,
        start.dequeued(ops).is_prefix_of(start.frames + start.enqueued(ops)),
    decreases ops.len(),
{
    if ops.len() > 0 {
        let rest = ops.drop_last();
        lemma_ring_fifo(start, rest);
        let before = start.run(rest);
        if let RingOp::Push(frame) = ops.last() {
            if !before.is_full() {
                assert(start.dequeued(rest) + before.frames.push(frame) =~= (start.frames
                    + start.enqueued(rest)).push(frame));
            }
        }
    }
}

/// A bounded first-in first-out ring of audio frames that never blocks: a push
/// on a full ring and a pop on an empty ring return at once and are counted.
pub struct RingBuffer {
    queue: ArrayQueue<AudioFrame>,
    overflow_count: usize,
    underrun_count: usize,
}

impl View for RingBuffer {
    type V = RingState;

    closed spec fn view(&self) -> RingState {
        RingState {
            frames: queue_frames(self.queue),
            capacity: queue_capacity(self.queue),
            overflow_count: self.overflow_count,
            underrun_count: self.underrun_count,
        }
    }
}

impl RingBuffer {
    #[verifier::type_invariant]
    spec fn inv(self) -> bool {
        self@.wf()
    }

    /// An empty ring with room for `capacity` frames.
    pub fn new(capacity: usize) -> (ring: Self)
        requires
            0 < capacity <= MAX_RING_CAPACITY,
        ensures
            ring@ == RingState::empty(capacity as nat),
    {
        Self { queue: queue_new(capacity), overflow_count: 0, underrun_count: 0 }
    }

    /// Enqueues the frame, or refuses it and counts an overflow when the ring is full.
    pub fn push(&mut self, frame: AudioFrame) -> (accepted: bool)
        ensures
            accepted == !old(self)@.is_full(),
            final(self)@ == old(self)@.push(frame),
            final(self)@.wf(),
    {
        proof {
            use_type_invariant(&*self);
        }
        match queue_push(&mut self.queue, frame) {
            None => true,
            Some(_) => {
                self.overflow_count = self.overflow_count.saturating_add(1);
                false
            },
        }
    }

    /// Dequeues the oldest frame, or returns `None` and counts an underrun when the ring is empty.
    pub fn pop(&mut self) -> (frame: Option<AudioFrame>)
        ensures
            frame == old(self)@.front(),
            final(self)@ == old(self)@.pop(),
            final(self)@.wf(),
    {
        proof {
            use_type_invariant(&*self);
        }
        match queue_pop(&mut self.queue) {
            Some(frame) => Some(frame),
            None => {
                self.underrun_count = self.underrun_count.saturating_add(1);
                None
            },
        }
    }

    /// Dequeues the oldest frame if there is one, counting nothing.
    pub fn try_pop(&mut self) -> (frame: Option<AudioFrame>)
        ensures
            frame == old(self)@.front(),
            final(self)@ == old(self)@.try_pop(),
            final(self)@.wf(),
    {
        proof {
            use_type_invariant(&*self);
        }
        queue_pop(&mut self.queue)
    }

    pub fn is_empty(&self) -> (b: bool)
        ensures
            b == self@.is_empty(),
    {
        queue_is_empty(&self.queue)
    }

    pub fn is_full(&self) -> (b: bool)
        ensures
            b == self@.is_full(),
    {
        queue_is_full(&self.queue)
    }

    /// Number of frames in the ring; never more than the capacity.
    pub fn len(&self) -> (n: usize)
        ensures
            n == self@.frames.len(),
            self@.wf(),
    {
        proof {
            use_type_invariant(self);
        }
        queue_len(&self.queue)
    }

    pub fn capacity(&self) -> (n: usize)
        ensures
            n == self@.capacity,
            self@.wf(),
    {
        proof {
            use_type_invariant(self);
        }
        queue_cap(&self.queue)
    }

    pub fn overflow_count(&self) -> (n: usize)
        ensures
            n == self@.overflow_count,
    {
        self.overflow_count
    }

    pub fn underrun_count(&self) -> (n: usize)
        ensures
            n == self@.underrun_count,
    {
        self.underrun_count
    }

    /// The share of the ring that is filled: length over capacity.
    pub fn fill_level(&self) -> (level: Ratio)
        ensures
            level == Ratio::spec_of(self@.frames.len(), self@.capacity),
            self@.wf(),
    {
        proof {
            use_type_invariant(self);
        }
        Ratio::of(queue_len(&self.queue) as u128, queue_cap(&self.queue) as u128)
    }

    /// Sets both counters back to zero; the queued frames stay.
    pub fn reset_stats(&mut self)
        ensures
            final(self)@ == (RingState { overflow_count: 0, underrun_count: 0, ..old(self)@ }),
    {
        proof {
            use_type_invariant(&*self);
        }
        self.overflow_count = 0;
        self.underrun_count = 0;
    }
}

} // verus!
