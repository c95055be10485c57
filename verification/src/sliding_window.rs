//! Time-bounded measurement buffer with rolling min/max.

use vstd::prelude::*;

verus! {

/// Largest admitted timestamp, microseconds on a monotonic clock.
/// Keeps `timestamp + timeframe` inside `u64`.
pub const TIMESTAMP_MAX: u64 = 1_000_000_000_000_000_000;

/// Largest admitted timeframe, in minutes.
pub const TIMEFRAME_MINUTES_MAX: u64 = 1_000_000;

/// Microseconds in one minute.
pub const MINUTE_MICROS: u64 = 60_000_000;

/// A timestamped diameter reading: micro-millimetres, taken at a
/// monotonic instant counted in microseconds.
#[derive(Clone, Copy, Debug, PartialEq, Eq, Structural)]
pub struct DiameterMeasurement {
    pub diameter: i64,
    pub timestamp: u64,
}

/// Rejected input to the tracker.
#[derive(Clone, Copy, Debug, PartialEq, Eq, Structural)]
pub enum TrackerError {
    /// The sample's timestamp precedes the newest retained sample's.
    OutOfOrder,
}

/// Sliding window of measurements in non-decreasing timestamp order.
/// Every retained sample lies within `timeframe` of the newest one.
/// Front eviction removes from a `Vec`, so an insert that evicts costs
/// time linear in the window rather than amortised constant; windows
/// here hold at most a few thousand samples, so the simpler structure
/// is preferred over a ring buffer.
#[derive(Debug)]
pub struct DiameterTracker {
    measurements: Vec<DiameterMeasurement>,
    /// Window width in microseconds.
    timeframe: u64,
}

/// The front of `s` with every sample older than `timeframe` before
/// `reference` removed.
pub open spec fn evict_front(
    s: Seq<DiameterMeasurement>,
    reference: int,
    timeframe: int,
) -> Seq<DiameterMeasurement>
    decreases s.len(),
{
    if s.len() == 0 {
        s
    } else if s[0].timestamp + timeframe < reference {
        evict_front(s.subrange(1, s.len() as int), reference, timeframe)
    } else {
        s
    }
}

impl DiameterTracker {
    /// The retained samples, oldest first.
    pub closed spec fn samples(&self) -> Seq<DiameterMeasurement> {
        self.measurements@
    }

    /// The window width in microseconds.
    pub closed spec fn window(&self) -> int {
        self.timeframe as int
    }

    /// Structural invariant: bounded window and timestamps, samples in
    /// non-decreasing timestamp order, and none older than the window
    /// counted back from the newest.
    pub closed spec fn wf(&self) -> bool {
        &&& self.timeframe <= TIMEFRAME_MINUTES_MAX * MINUTE_MICROS
        &&& forall|i: int|
            0 <= i < self.samples().len()
                ==> (#[trigger] self.samples()[i].timestamp) <= TIMESTAMP_MAX
        &&& forall|i: int, j: int|
            0 <= i <= j < self.samples().len()
                ==> (#[trigger] self.samples()[i].timestamp)
                    <= (#[trigger] self.samples()[j].timestamp)
        &&& forall|i: int|
            0 <= i < self.samples().len()
                ==> (#[trigger] self.samples()[i].timestamp) + self.window()
                    >= self.samples().last().timestamp
    }

    /// An empty tracker over `timeframe_minutes` minutes.
    pub fn new(timeframe_minutes: u64) -> (r: Self)
        requires
            timeframe_minutes <= TIMEFRAME_MINUTES_MAX,
        ensures
            r.wf(),
            r.samples().len() == 0,
            r.window() == timeframe_minutes * MINUTE_MICROS,
    {
        Self { measurements: Vec::new(), timeframe: timeframe_minutes * MINUTE_MICROS }
    }

    /// Append a sample and drop the ones that have fallen out of the
    /// window.  A sample older than the newest retained one is rejected
    /// and the tracker left unchanged.  Every sample retained after a
    /// successful insert at `timestamp` lies within the window of
    /// `timestamp`.
    pub fn add_measurement(&mut self, diameter: i64, timestamp: u64) -> (r: Result<
        (),
        TrackerError,
    >)
        requires
            old(self).wf(),
            timestamp <= TIMESTAMP_MAX,
        ensures
            final(self).wf(),
            final(self).window() == old(self).window(),
            ({
                let s = old(self).samples();
                if s.len() > 0 && timestamp < s.last().timestamp {
                    r == Err::<(), TrackerError>(TrackerError::OutOfOrder)
                        && final(self).samples() == s
                } else {
                    let m = DiameterMeasurement { diameter, timestamp };
                    r == Ok::<(), TrackerError>(())
                        && final(self).samples()
                            == evict_front(s.push(m), timestamp as int, old(self).window())
                        && final(self).samples().len() > 0
                        && final(self).samples().last() == m
                        && forall|i: int|
                            0 <= i < final(self).samples().len()
                                ==> timestamp - (#[trigger] final(self).samples()[i].timestamp)
                                    <= old(self).window()
                }
            }),
    {
        if self.measurements.len() > 0 {
            let newest = self.measurements[self.measurements.len() - 1].timestamp;
            if timestamp < newest {
                return Err(TrackerError::OutOfOrder);
            }
        }
        let m = DiameterMeasurement { diameter, timestamp };
        self.measurements.push(m);
        let ghost pushed = self.measurements@;
        while self.measurements.len() > 0
            && self.measurements[0].timestamp + self.timeframe < timestamp
            invariant
                self.timeframe == old(self).timeframe,
                self.timeframe <= TIMEFRAME_MINUTES_MAX * MINUTE_MICROS,
                timestamp <= TIMESTAMP_MAX,
                forall|i: int|
                    0 <= i < self.measurements@.len()
                        ==> (#[trigger] self.measurements@[i].timestamp) <= TIMESTAMP_MAX,
                evict_front(self.measurements@, timestamp as int, self.timeframe as int)
                    == evict_front(pushed, timestamp as int, self.timeframe as int),
                forall|i: int, j: int|
                    0 <= i <= j < self.measurements@.len()
                        ==> (#[trigger] self.measurements@[i].timestamp)
                            <= (#[trigger] self.measurements@[j].timestamp),
                self.measurements@.len() > 0,
                self.measurements@.last() == m,
                m.timestamp == timestamp,
            decreases self.measurements@.len(),
        {
            let ghost before = self.measurements@;
            proof {
                if before.len() == 1 {
                    assert(before[0] == before.last());
                    assert(false);
                }
            }
            self.measurements.remove(0);
            proof {
                assert(self.measurements@ =~= before.subrange(1, before.len() as int));
            }
        }
        proof {
            assert(self.measurements@
                == evict_front(pushed, timestamp as int, self.timeframe as int));
            assert(self.measurements@.len() > 0);
            assert forall|i: int|
                0 <= i < self.measurements@.len()
                    implies timestamp - (#[trigger] self.measurements@[i].timestamp)
                        <= self.timeframe as int by {
                assert(self.measurements@[i].timestamp + self.timeframe >= timestamp
                    || i == 0);
            }
        }
        Ok(())
    }

    /// Smallest and largest retained diameter; both absent exactly when
    /// the window is empty, and both drawn from retained samples.
    pub fn get_min_max(&self) -> (r: (Option<i64>, Option<i64>))
        ensures
            self.samples().len() == 0 ==> r == (None::<i64>, None::<i64>),
            self.samples().len() > 0 ==> {
                &&& r.0 is Some
                &&& r.1 is Some
                &&& exists|i: int|
                    0 <= i < self.samples().len() && self.samples()[i].diameter == r.0->0
                &&& exists|i: int|
                    0 <= i < self.samples().len() && self.samples()[i].diameter == r.1->0
                &&& forall|i: int|
                    0 <= i < self.samples().len()
                        ==> r.0->0 <= (#[trigger] self.samples()[i].diameter) <= r.1->0
            },
    {
        if self.measurements.len() == 0 {
            return (None, None);
        }
        let mut mn: i64 = self.measurements[0].diameter;
        let mut mx: i64 = self.measurements[0].diameter;
        let mut k: usize = 1;
        while k < self.measurements.len()
            invariant
                1 <= k <= self.measurements@.len(),
                exists|i: int| 0 <= i < k && self.measurements@[i].diameter == mn,
                exists|i: int| 0 <= i < k && self.measurements@[i].diameter == mx,
                forall|i: int|
                    0 <= i < k ==> mn <= (#[trigger] self.measurements@[i].diameter) <= mx,
            decreases self.measurements@.len() - k,
        {
            let d = self.measurements[k].diameter;
            if d < mn {
                mn = d;
            }
            if d > mx {
                mx = d;
            }
            k = k + 1;
        }
        (Some(mn), Some(mx))
    }

    /// Change the window width and drop the samples that the new window
    /// no longer covers, measured back from the newest retained sample
    /// rather than from the wall clock.
    pub fn set_timeframe(&mut self, timeframe_minutes: u64)
        requires
            old(self).wf(),
            timeframe_minutes <= TIMEFRAME_MINUTES_MAX,
        ensures
            final(self).wf(),
            final(self).window() == timeframe_minutes * MINUTE_MICROS,
            old(self).samples().len() == 0 ==> final(self).samples() == old(self).samples(),
            old(self).samples().len() > 0 ==> final(self).samples() == evict_front(
                old(self).samples(),
                old(self).samples().last().timestamp as int,
                timeframe_minutes * MINUTE_MICROS,
            ) && final(self).samples().len() > 0,
    {
        self.timeframe = timeframe_minutes * 60_000_000;
        if self.measurements.len() == 0 {
            return;
        }
        let reference = self.measurements[self.measurements.len() - 1].timestamp;
        let ghost start = self.measurements@;
        while self.measurements.len() > 0
            && self.measurements[0].timestamp + self.timeframe < reference
            invariant
                self.timeframe == timeframe_minutes * MINUTE_MICROS,
                self.timeframe <= TIMEFRAME_MINUTES_MAX * MINUTE_MICROS,
                reference <= TIMESTAMP_MAX,
                forall|i: int|
                    0 <= i < self.measurements@.len()
                        ==> (#[trigger] self.measurements@[i].timestamp) <= TIMESTAMP_MAX,
                evict_front(self.measurements@, reference as int, self.timeframe as int)
                    == evict_front(start, reference as int, self.timeframe as int),
                forall|i: int, j: int|
                    0 <= i <= j < self.measurements@.len()
                        ==> (#[trigger] self.measurements@[i].timestamp)
                            <= (#[trigger] self.measurements@[j].timestamp),
                self.measurements@.len() > 0,
                self.measurements@.last() == start.last(),
                start.last().timestamp == reference,
            decreases self.measurements@.len(),
        {
            let ghost before = self.measurements@;
            proof {
                if before.len() == 1 {
                    assert(before[0] == before.last());
                    assert(false);
                }
            }
            self.measurements.remove(0);
            proof {
                assert(self.measurements@ =~= before.subrange(1, before.len() as int));
            }
        }
        proof {
            assert forall|i: int|
                0 <= i < self.measurements@.len()
                    implies (#[trigger] self.measurements@[i].timestamp) + self.window()
                        >= self.measurements@.last().timestamp by {
                assert(self.measurements@[i].timestamp + self.timeframe >= reference
                    || i == 0);
            }
        }
    }

    /// Every retained sample lies within the window counted back
    /// from the newest retained sample, whatever sequence of inserts
    /// and reconfigurations produced the tracker.
    pub proof fn lemma_window_invariant(&self)
        requires
            self.wf(),
            self.samples().len() > 0,
        ensures
            forall|i: int|
                0 <= i < self.samples().len()
                    ==> self.samples().last().timestamp
                        - (#[trigger] self.samples()[i].timestamp) <= self.window(),
    {
    }

    /// Number of retained samples.
    pub fn len(&self) -> (r: usize)
        ensures
            r == self.samples().len(),
    {
        self.measurements.len()
    }
}

} // verus!
