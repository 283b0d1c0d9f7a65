//! The sampler: the decision core of the polling loop.
//!
//! Each poll of the sensor driver yields an event.  The sampler keeps at
//! most one *pending* reading — sanity-checked but not yet committed — and
//! judges it only when the next reading arrives, using the store's last
//! accepted reading and the new arrival as the two neighbours of a
//! three-point window.  A transient driver failure changes nothing; a
//! reading with an invalid physical value halts the sampler for good, and
//! the store keeps serving its last-known-good data.

use vstd::prelude::*;

verus! {

use crate::data::{Data, reading_accepted, reading_is_valid, rel_hum_in_range, temp_in_range};
use crate::store::Store;

/// What one poll of the sensor driver produced.
#[derive(Clone, Copy, Debug, PartialEq, Eq, Structural)]
pub enum SensorEvent {
    /// The driver failed transiently (timeout, checksum): retry next cycle.
    Transient,
    /// The driver returned a value that is not a finite number in the
    /// sensor's range: a persistent malfunction.
    Invalid,
    /// A sanity-checked raw reading, in thousandths of a unit.
    Reading { time: i64, temperature: i64, rel_humidity: i64 },
}

/// What one step of the sampler did.
#[derive(Clone, Copy, Debug, PartialEq, Eq, Structural)]
pub enum StepOutcome {
    /// Transient driver failure: no state changed.
    Skipped,
    /// The sampler is halted — by this event or an earlier one — and will
    /// never commit again.
    Halted,
    /// The reading became pending; nothing was committed yet.
    Deferred,
    /// The prior pending reading was validated and entered the store.
    Committed,
    /// The prior pending reading was rejected as an outlier and dropped.
    Discarded,
}

/// Whether a pending reading may enter the store: unconditionally when the
/// store has no baseline yet, otherwise only if the three-point window
/// accepts it between the store's last reading and the new arrival.
pub open spec fn commit_allowed(stored: Seq<Data>, prior: Data, arriving: Data) -> bool {
    stored.len() == 0 || reading_accepted(prior, stored.last(), arriving)
}

/// The sliding-window state of the polling loop.
pub struct Sampler {
    pending: Option<Data>,
    halted: bool,
}

impl Sampler {
    /// The reading observed on the previous cycle, not yet committed.
    pub closed spec fn spec_pending(self) -> Option<Data> {
        self.pending
    }

    /// Whether the sampler has observed an invalid physical value and
    /// stopped for good.
    pub closed spec fn spec_halted(self) -> bool {
        self.halted
    }

    /// Any pending reading is well formed.
    pub open spec fn wf(self) -> bool {
        self.spec_pending() matches Option::Some(d) ==> d.wf()
    }

    /// A fresh sampler: nothing pending, not halted.
    pub fn new() -> (s: Sampler)
        ensures
            s.spec_pending() is None,
            !s.spec_halted(),
            s.wf(),
    {
        Sampler { pending: None, halted: false }
    }

    /// Whether the sampler has stopped for good.
    pub fn is_halted(&self) -> (b: bool)
        ensures
            b == self.spec_halted(),
    {
        self.halted
    }

    /// Runs one cycle of the sampling pipeline on the event the driver
    /// produced.  A halted sampler never changes the store again; an
    /// invalid value halts it; a transient failure changes nothing; a
    /// reading becomes pending, and the previously pending reading is
    /// committed, or discarded as an outlier, as the window decides.
    pub fn step(&mut self, store: &mut Store, event: SensorEvent) -> (outcome: StepOutcome)
        requires
            old(self).wf(),
            old(store).wf(),
            event matches SensorEvent::Reading { temperature, rel_humidity, .. } ==> temp_in_range(
                temperature as int,
            ) && rel_hum_in_range(rel_humidity as int),
        ensures
            final(self).wf(),
            final(store).wf(),
            final(store).spec_capacity() == old(store).spec_capacity(),
            // a halted sampler stays halted and never touches the store again
            old(self).spec_halted() ==> *final(self) == *old(self) && *final(store) == *old(store)
                && outcome == StepOutcome::Halted,
            // halting happens exactly when an invalid value is observed
            final(self).spec_halted() == (old(self).spec_halted() || event is Invalid),
            !old(self).spec_halted() ==> match event {
                SensorEvent::Transient => {
                    &&& *final(self) == *old(self)
                    &&& *final(store) == *old(store)
                    &&& outcome == StepOutcome::Skipped
                },
                SensorEvent::Invalid => {
                    &&& final(self).spec_pending() is None
                    &&& *final(store) == *old(store)
                    &&& outcome == StepOutcome::Halted
                },
                SensorEvent::Reading { time, temperature, rel_humidity } => {
                    &&& final(self).spec_pending() matches Option::Some(arriving)
                    &&& arriving.time == time
                    &&& arriving.temperature == temperature
                    &&& arriving.rel_humidity == rel_humidity
                    &&& arriving.wf()
                    &&& match old(self).spec_pending() {
                        Option::None => {
                            &&& *final(store) == *old(store)
                            &&& outcome == StepOutcome::Deferred
                        },
                        Option::Some(prior) => if commit_allowed(old(store)@, prior, arriving) {
                            &&& outcome == StepOutcome::Committed
                            &&& old(store)@.len() < old(store).spec_capacity() ==> final(store)@
                                == old(store)@.push(prior)
                            &&& old(store)@.len() == old(store).spec_capacity() ==> final(store)@
                                == old(store)@.subrange(1, old(store)@.len() as int).push(prior)
                        } else {
                            &&& *final(store) == *old(store)
                            &&& outcome == StepOutcome::Discarded
                        },
                    }
                },
            },
    {
        if self.halted {
            return StepOutcome::Halted;
        }
        match event {
            SensorEvent::Transient => StepOutcome::Skipped,
            SensorEvent::Invalid => {
                self.halted = true;
                self.pending = None;
                StepOutcome::Halted
            },
            SensorEvent::Reading { time, temperature, rel_humidity } => {
                let arriving: Data = Data::new(time, temperature, rel_humidity);
                let prior_opt: Option<Data> = self.pending;
                self.pending = Some(arriving);
                match prior_opt {
                    Option::None => StepOutcome::Deferred,
                    Option::Some(prior) => {
                        let commit: bool = match store.latest() {
                            Option::None => true,
                            Option::Some(last) => reading_is_valid(&prior, &last, &arriving),
                        };
                        if commit {
                            store.append(prior);
                            StepOutcome::Committed
                        } else {
                            StepOutcome::Discarded
                        }
                    },
                }
            },
        }
    }
}

} // verus!
