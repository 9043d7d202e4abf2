//! A queue of interleaved samples that are taken out in blocks of a chosen
//! length, whatever the lengths of the blocks that went in.

use vstd::prelude::*;

verus! {

/// `want` samples made of the first samples of `samples`, with zeros
/// (silence) after them where `samples` is too short.
pub open spec fn padded(samples: Seq<u32>, want: nat) -> Seq<u32> {
    if samples.len() >= want {
        samples.take(want as int)
    } else {
        samples + Seq::new((want - samples.len()) as nat, |i: int| 0u32)
    }
}

/// Samples waiting to be taken out, oldest first.
pub struct SampleQueue {
    samples: Vec<u32>,
}

impl View for SampleQueue {
    type V = Seq<u32>;

    closed spec fn view(&self) -> Seq<u32> {
        self.samples@
    }
}

impl SampleQueue {
    pub fn new() -> (queue: Self)
        ensures
            queue@ == Seq::<u32>::empty(),
    {
        SampleQueue { samples: Vec::new() }
    }

    pub fn len(&self) -> (n: usize)
        ensures
            n == self@.len(),
    {
        self.samples.len()
    }

    /// Appends a block of samples.
    pub fn extend(&mut self, more: &[u32])
        ensures
            final(self)@ == old(self)@ + more@,
    {
        self.samples.extend_from_slice(more);
    }

    /// Takes out the oldest `n` samples, or nothing when fewer are waiting.
    pub fn take(&mut self, n: usize) -> (block: Option<Vec<u32>>)
        ensures
            old(self)@.len() >= n ==> block is Some && block->0@ == old(self)@.take(n as int)
                && final(self)@ == old(self)@.skip(n as int),
            old(self)@.len() < n ==> block is None && final(self)@ == old(self)@,
    {
        if self.samples.len() < n {
            return None;
        }
        let mut rest = self.samples.split_off(n);
        std::mem::swap(&mut self.samples, &mut rest);
        Some(rest)
    }

    /// Takes out `n` samples: the oldest that are waiting, and zeros for
    /// those that are missing.
    pub fn take_padded(&mut self, n: usize) -> (block: Vec<u32>)
        ensures
            block@ == padded(old(self)@, n as nat),
            old(self)@.len() >= n ==> final(self)@ == old(self)@.skip(n as int),
            old(self)@.len() < n ==> final(self)@ == Seq::<u32>::empty(),
    {
        let have = self.samples.len();
        if have >= n {
            let mut rest = self.samples.split_off(n);
            std::mem::swap(&mut self.samples, &mut rest);
            rest
        } else {
            let mut block: Vec<u32> = Vec::new();
            std::mem::swap(&mut self.samples, &mut block);
            let mut i: usize = have;
            while i < n
                invariant
                    have <= i <= n,
                    block@ =~= old(self)@ + Seq::new((i - have) as nat, |k: int| 0u32),
                decreases n - i,
            {
                block.push(0);
                i = i + 1;
            }
            block
        }
    }
}

} // verus!
