//! The rolling history of recent entropy samples.

use crate::entropy::EntropySample;
use vstd::prelude::*;

verus! {

/// A history after one more sample: every sample moves one slot toward the
/// oldest end, the oldest is dropped and the new one takes the newest slot.
/// A history without slots stays empty.
pub open spec fn rolled(history: Seq<u32>, sample: u32) -> Seq<u32> {
    if history.len() == 0 {
        history
    } else {
        history.drop_first().push(sample)
    }
}

/// The history that no sample has entered yet: zero in each of `slots` slots.
pub open spec fn blank(slots: nat) -> Seq<u32> {
    Seq::new(slots, |i: int| 0u32)
}

/// The most recent samples, oldest first, in a fixed number of slots. Its
/// view is the sequence of their bit patterns.
#[derive(Debug)]
pub struct RollingHistory {
    samples: Vec<EntropySample>,
}

impl View for RollingHistory {
    type V = Seq<u32>;

    closed spec fn view(&self) -> Seq<u32> {
        self.samples@.map_values(|s: EntropySample| s.bits())
    }
}

impl RollingHistory {
    /// A history of `slots` slots, each holding zero.
    pub fn new(slots: usize) -> (history: RollingHistory)
        ensures
            history@ == blank(slots as nat),
    {
        let mut samples: Vec<EntropySample> = Vec::new();
        while samples.len() < slots
            invariant
                samples.len() <= slots,
                forall|i: int|
                    0 <= i < samples.len() ==> #[trigger] samples@[i] == EntropySample::of_bits(0),
            decreases slots - samples.len(),
        {
            samples.push(EntropySample::zero());
        }
        let history = RollingHistory { samples };
        proof {
            EntropySample::lemma_bits(0, EntropySample::of_bits(0));
        }
        assert(history@ =~= blank(slots as nat));
        history
    }

    /// The number of slots.
    pub fn len(&self) -> (slots: usize)
        ensures
            slots == self@.len(),
    {
        self.samples.len()
    }

    /// The sample in `slot`, counted from the oldest.
    pub fn get(&self, slot: usize) -> (sample: Option<EntropySample>)
        ensures
            sample is Some <==> slot < self@.len(),
            sample is Some ==> sample->Some_0.bits() == self@[slot as int],
    {
        if slot < self.samples.len() {
            Some(self.samples[slot])
        } else {
            None
        }
    }

    /// The series to draw: each sample with its position on the horizontal
    /// axis, which is its age in cycles. The newest sample stands at 1, the
    /// oldest at the number of slots.
    pub fn points(&self) -> (series: Vec<(usize, EntropySample)>)
        ensures
            series@.len() == self@.len(),
            forall|i: int|
                0 <= i < series@.len() ==> (#[trigger] series@[i]).0 == self@.len() - i,
            forall|i: int| 0 <= i < series@.len() ==> (#[trigger] series@[i]).1.bits() == self@[i],
    {
        let slots: usize = self.samples.len();
        let mut series: Vec<(usize, EntropySample)> = Vec::new();
        let mut slot: usize = 0;
        while slot < slots
            invariant
                slot <= slots,
                slots == self.samples@.len(),
                series@.len() == slot,
                forall|i: int| 0 <= i < slot ==> (#[trigger] series@[i]).0 == slots - i,
                forall|i: int| 0 <= i < slot ==> (#[trigger] series@[i]).1 == self.samples@[i],
            decreases slots - slot,
        {
            series.push((slots - slot, self.samples[slot]));
            slot = slot + 1;
        }
        series
    }

    /// The line to draw across the series at `level`: one point at each
    /// position from 0 up to, and not including, the number of slots.
    pub fn reference_line(&self, level: EntropySample) -> (line: Vec<(usize, EntropySample)>)
        ensures
            line@.len() == self@.len(),
            forall|i: int| 0 <= i < line@.len() ==> #[trigger] line@[i] == (i as usize, level),
    {
        let slots: usize = self.samples.len();
        let mut line: Vec<(usize, EntropySample)> = Vec::new();
        let mut position: usize = 0;
        while position < slots
            invariant
                position <= slots,
                slots == self.samples@.len(),
                line@.len() == position,
                forall|i: int| 0 <= i < position ==> #[trigger] line@[i] == (i as usize, level),
            decreases slots - position,
        {
            line.push((position, level));
            position = position + 1;
        }
        line
    }

    /// Takes in one more sample and drops the oldest.
    pub fn push(&mut self, sample: EntropySample)
        ensures
            final(self)@ == rolled(old(self)@, sample.bits()),
    {
        if self.samples.len() > 0 {
            self.samples.remove(0);
            self.samples.push(sample);
            assert(self@ =~= rolled(old(self)@, sample.bits()));
        }
    }
}

} // verus!
