//! The playback pump of one output device: it turns the frames of the
//! playback ring into blocks of whatever length the device asks for.

use vstd::prelude::*;

use crate::audio::buffer::{saturating_inc, AudioFrame, RingBuffer, RingState};
use crate::audio::jitter::{JitterBuffer, JitterState};
use crate::audio::samples::{padded, SampleQueue};

verus! {

/// The samples at hand once frames have been taken from the ring, oldest
/// first, until `want` samples are there or the ring is empty.
pub open spec fn gathered(pending: Seq<u32>, frames: Seq<AudioFrame>, want: nat) -> Seq<u32>
    decreases frames.len(),
{
    if pending.len() >= want || frames.len() == 0 {
        pending
    } else {
        gathered(pending + frames[0].samples@, frames.drop_first(), want)
    }
}

/// The number of frames taken from the ring to gather `want` samples.
pub open spec fn frames_taken(pending: Seq<u32>, frames: Seq<AudioFrame>, want: nat) -> nat
    decreases frames.len(),
{
    if pending.len() >= want || frames.len() == 0 {
        0
    } else {
        1 + frames_taken(pending + frames[0].samples@, frames.drop_first(), want)
    }
}

/// The ring after a block of `want` samples was drawn from it: the frames
/// that were taken are gone, and where they did not suffice the ring was
/// found empty, which counts as one underrun.
pub open spec fn ring_after_fill(pending: Seq<u32>, ring: RingState, want: nat) -> RingState {
    if gathered(pending, ring.frames, want).len() >= want {
        RingState {
            frames: ring.frames.skip(frames_taken(pending, ring.frames, want) as int),
            ..ring
        }
    } else {
        RingState {
            frames: Seq::empty(),
            underrun_count: saturating_inc(ring.underrun_count),
            ..ring
        }
    }
}

/// The playback pump of one output device.
pub struct AudioPlayback {
    pending: SampleQueue,
}

impl View for AudioPlayback {
    type V = Seq<u32>;

    /// The samples left over from the last frame taken, oldest first.
    closed spec fn view(&self) -> Seq<u32> {
        self.pending@
    }
}

impl AudioPlayback {
    pub fn new() -> (pump: Self)
        ensures
            pump@ == Seq::<u32>::empty(),
    {
        AudioPlayback { pending: SampleQueue::new() }
    }

    /// Makes the block of `want` samples that the device asks for. The
    /// samples left from the last call come first, then those of the frames
    /// popped from the ring, as many as it takes. What is over stays for the
    /// next call. Where the ring runs empty first, the block ends in silence
    /// and the ring has counted an underrun.
    pub fn fill(&mut self, ring: &mut RingBuffer, want: usize) -> (block: Vec<u32>)
        ensures
            block@ == padded(gathered(old(self)@, old(ring)@.frames, want as nat), want as nat),
            block@.len() == want,
            final(self)@ == gathered(old(self)@, old(ring)@.frames, want as nat).skip(
                if gathered(old(self)@, old(ring)@.frames, want as nat).len() >= want {
                    want as int
                } else {
                    gathered(old(self)@, old(ring)@.frames, want as nat).len() as int
                },
            ),
            final(ring)@ == ring_after_fill(old(self)@, old(ring)@, want as nat),
    {
        let ghost start = ring@;
        let ghost all = gathered(self@, start.frames, want as nat);
        let ghost total = frames_taken(self@, start.frames, want as nat);
        let ghost mut popped: nat = 0;
        let mut starved = false;
        while self.pending.len() < want && !starved
            invariant
                popped <= start.frames.len(),
                ring@.capacity == start.capacity,
                ring@.overflow_count == start.overflow_count,
                !starved ==> {
                    &&& ring@.frames == start.frames.skip(popped as int)
                    &&& ring@.underrun_count == start.underrun_count
                    &&& gathered(self@, ring@.frames, want as nat) == all
                    &&& frames_taken(self@, ring@.frames, want as nat) + popped == total
                },
                starved ==> {
                    &&& ring@.frames == Seq::<AudioFrame>::empty()
                    &&& ring@.underrun_count == saturating_inc(start.underrun_count)
                    &&& self@ == all
                    &&& self@.len() < want
                },
            decreases ring@.frames.len() + (if starved { 0nat } else { 1nat }),
        {
            match ring.pop() {
                Some(frame) => {
                    proof {
                        popped = popped + 1;
                    }
                    self.pending.extend(frame.samples.as_slice());
                },
                None => {
                    starved = true;
                },
            }
        }
        self.pending.take_padded(want)
    }
}

/// Moves the next frame from the jitter buffer to the playback ring:
/// through `get_next`, or through `force_get_next` where `force` is set
/// because the ring has been empty too long. Returns whether a frame went
/// into the ring. A frame that the full ring refuses is dropped and counted
/// as an overflow.
pub fn release(jitter: &mut JitterBuffer, ring: &mut RingBuffer, force: bool) -> (moved: bool)
    requires
        old(jitter).wf(),
    ensures
        final(jitter).wf(),
        final(jitter)@.wf(),
        final(jitter)@ == (if force {
            old(jitter)@.advance()
        } else {
            old(jitter)@.get()
        }),
        match (if force {
            old(jitter)@.head()
        } else {
            old(jitter)@.get_output()
        }) {
            Some(frame) => final(ring)@ == old(ring)@.push(frame) && moved == !old(ring)@.is_full(),
            None => final(ring)@ == old(ring)@ && !moved,
        },
{
    let frame = if force {
        jitter.force_get_next()
    } else {
        jitter.get_next()
    };
    match frame {
        Some(frame) => ring.push(frame),
        None => false,
    }
}

/// The jitter buffer, the ring and the number of frames moved after frames
/// were released one by one, through `get_next`, until the ring was full or
/// the jitter buffer handed none out.
pub open spec fn drained(jitter: JitterState, ring: RingState) -> (JitterState, RingState, nat)
    decreases ring.capacity - ring.frames.len(),
{
    if ring.frames.len() >= ring.capacity {
        (jitter, ring, 0)
    } else {
        match jitter.get_output() {
            Some(frame) => {
                let (j, r, n) = drained(jitter.get(), ring.push(frame));
                (j, r, n + 1)
            },
            None => (jitter.get(), ring, 0),
        }
    }
}

/// The jitter buffer and the ring after one round of the playback feed: the
/// frames that are due were moved; where none was, the ring is empty and the
/// device is starved, one release was forced.
pub open spec fn processed(jitter: JitterState, ring: RingState, starved: bool) -> (
    JitterState,
    RingState,
) {
    let (j, r, n) = drained(jitter, ring);
    if n == 0 && r.is_empty() && starved {
        (
            j.advance(),
            match j.head() {
                Some(frame) => r.push(frame),
                None => r,
            },
        )
    } else {
        (j, r)
    }
}

/// One round of the playback feed. Frames that are due move from the jitter
/// buffer to the playback ring until the ring is full or the jitter buffer
/// hands none out. Where nothing moved, the ring is empty and `starved` says
/// that it has been so for longer than the grace period, one release is
/// forced, so that the device gets a frame, or a counted loss, and does not
/// stall. Returns the number of frames that went into the ring.
pub fn process(jitter: &mut JitterBuffer, ring: &mut RingBuffer, starved: bool) -> (moved: usize)
    requires
        old(jitter).wf(),
    ensures
        final(jitter).wf(),
        final(jitter)@.wf(),
        (final(jitter)@, final(ring)@) == processed(old(jitter)@, old(ring)@, starved),
{
    let ghost target = drained(jitter@, ring@);
    let mut moved: usize = 0;
    let mut done = false;
    let capacity = ring.capacity();
    while !done
        invariant
            jitter.wf(),
            ring@.wf(),
            capacity == ring@.capacity,
            moved <= ring@.frames.len(),
            !done ==> drained(jitter@, ring@) == (target.0, target.1, (target.2 - moved) as nat)
                && target.2 >= moved,
            done ==> (jitter@, ring@) == (target.0, target.1) && target.2 == moved,
        decreases ring@.capacity - ring@.frames.len() + (if done { 0nat } else { 1nat }),
    {
        if ring.is_full() {
            done = true;
        } else {
            if !release(jitter, ring, false) {
                done = true;
            } else {
                moved = moved + 1;
            }
        }
    }
    proof {
        jitter.lemma_wf_view();
    }
    if moved == 0 && starved && ring.is_empty() {
        if release(jitter, ring, true) {
            moved = 1;
        }
    }
    moved
}

} // verus!
