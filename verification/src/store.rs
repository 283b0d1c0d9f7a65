//! The bounded, time-ordered store of accepted readings.
//!
//! The store holds up to a fixed number of readings in arrival order.  An
//! append at capacity first evicts the oldest entry, so the remaining
//! entries keep their relative order.  Consumers read it only through
//! [`Store::snapshot`] and [`Store::latest`], which copy the state out.

use std::collections::VecDeque;
use vstd::prelude::*;

verus! {

use crate::data::Data;

/// Default capacity of the store.
pub const MAX_READINGS: usize = 20000;

/// A capacity-bounded sequence of accepted readings, oldest first.
pub struct Store {
    readings: VecDeque<Data>,
    capacity: usize,
}

impl View for Store {
    type V = Seq<Data>;

    closed spec fn view(&self) -> Seq<Data> {
        self.readings@
    }
}

impl Store {
    /// The capacity fixed at construction.
    pub closed spec fn spec_capacity(self) -> usize {
        self.capacity
    }

    /// The store never holds more readings than its capacity, and every
    /// reading it holds is well formed.
    pub open spec fn wf(self) -> bool {
        &&& 1 <= self.spec_capacity()
        &&& self@.len() <= self.spec_capacity()
        &&& forall|i: int| 0 <= i < self@.len() ==> (#[trigger] self@[i]).wf()
    }

    /// Creates an empty store that will hold at most `capacity` readings.
    pub fn new(capacity: usize) -> (s: Store)
        requires
            1 <= capacity,
        ensures
            s.wf(),
            s@ == Seq::<Data>::empty(),
            s.spec_capacity() == capacity,
    {
        Store { readings: VecDeque::new(), capacity }
    }

    /// The capacity fixed at construction.
    pub fn capacity(&self) -> (c: usize)
        ensures
            c == self.spec_capacity(),
    {
        self.capacity
    }

    /// How many readings the store currently holds.
    pub fn len(&self) -> (n: usize)
        ensures
            n == self@.len(),
    {
        self.readings.len()
    }

    /// The most recent reading, if any.
    pub fn latest(&self) -> (r: Option<Data>)
        ensures
            match r {
                Option::None => self@.len() == 0,
                Option::Some(d) => self@.len() > 0 && d == self@.last(),
            },
    {
        let n: usize = self.readings.len();
        if n == 0 {
            None
        } else {
            Some(self.readings[n - 1])
        }
    }

    /// An ordered copy of everything the store holds, oldest first.
    pub fn snapshot(&self) -> (v: Vec<Data>)
        ensures
            v@ == self@,
    {
        let n: usize = self.readings.len();
        let mut out: Vec<Data> = Vec::new();
        let mut i: usize = 0;
        while i < n
            invariant
                i <= n,
                n == self@.len(),
                out@ == self@.subrange(0, i as int),
            decreases n - i,
        {
            out.push(self.readings[i]);
            proof {
                assert(out@ =~= self@.subrange(0, i + 1));
            }
            i = i + 1;
        }
        proof {
            assert(out@ =~= self@);
        }
        out
    }

    /// Appends a reading; at capacity the oldest reading is evicted first.
    /// The length never exceeds the capacity, and appending never fails.
    pub fn append(&mut self, reading: Data)
        requires
            old(self).wf(),
            reading.wf(),
        ensures
            final(self).wf(),
            final(self).spec_capacity() == old(self).spec_capacity(),
            old(self)@.len() < old(self).spec_capacity() ==> final(self)@ == old(self)@.push(
                reading,
            ),
            old(self)@.len() == old(self).spec_capacity() ==> final(self)@ == old(self)@.subrange(
                1,
                old(self)@.len() as int,
            ).push(reading),
    {
        if self.readings.len() == self.capacity {
            self.readings.pop_front();
        }
        self.readings.push_back(reading);
        proof {
            assert forall|i: int| 0 <= i < self@.len() implies (#[trigger] self@[i]).wf() by {
                if i < self@.len() - 1 {
                    if old(self)@.len() < old(self).spec_capacity() {
                        assert(self@[i] == old(self)@[i]);
                    } else {
                        assert(self@[i] == old(self)@[i + 1]);
                    }
                }
            }
        }
    }
}

} // verus!
