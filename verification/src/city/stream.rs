//! Sample streams: finite sequences of samples that are taken front to back.

use vstd::prelude::*;

verus! {

/// A finite stream of samples. Several consumers may take from one stream in
/// turn; what one has taken the next does not see.
pub struct Stream {
    samples: Vec<i64>,
    taken: usize,
}

impl View for Stream {
    type V = Seq<i64>;

    /// The samples not taken yet, next first.
    closed spec fn view(&self) -> Seq<i64> {
        self.samples@.skip(self.taken as int)
    }
}

impl Stream {
    #[verifier::type_invariant]
    closed spec fn in_range(self) -> bool {
        self.taken <= self.samples.len()
    }

    /// A stream that yields `samples` in order.
    pub fn new(samples: Vec<i64>) -> (r: Self)
        ensures
            r@ == samples@,
    {
        Self { samples, taken: 0 }
    }

    /// How many samples are left.
    pub fn remaining(&self) -> (r: usize)
        ensures
            r == self@.len(),
    {
        proof {
            use_type_invariant(self);
        }
        self.samples.len() - self.taken
    }

    /// The next sample without taking it, or `None` at the end of the stream.
    pub fn peek(&self) -> (r: Option<i64>)
        ensures
            r == if self@.len() > 0 {
                Some(self@[0])
            } else {
                None
            },
    {
        proof {
            use_type_invariant(self);
        }
        if self.taken < self.samples.len() {
            Some(self.samples[self.taken])
        } else {
            None
        }
    }

    /// Takes the next sample, or `None` at the end of the stream.
    pub fn next(&mut self) -> (r: Option<i64>)
        ensures
            old(self)@.len() > 0 ==> r == Some(old(self)@[0]) && final(self)@ == old(self)@.skip(1),
            old(self)@.len() == 0 ==> r.is_none() && final(self)@ == old(self)@,
    {
        proof {
            use_type_invariant(&*self);
        }
        if self.taken < self.samples.len() {
            let sample = self.samples[self.taken];
            self.taken = self.taken + 1;
            proof {
                assert(self.samples@.skip(self.taken as int) =~= self.samples@.skip(
                    self.taken - 1,
                ).skip(1));
            }
            Some(sample)
        } else {
            None
        }
    }
}

} // verus!
