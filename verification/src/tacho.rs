//! The tachometer: a bounded ring of rotation-pulse timestamps together with
//! wheel geometry, a trigger-point count and a gear ratio, answering windowed
//! distance/cadence queries and an all-time odometer query.

use vstd::prelude::*;

use crate::buffer::buffer_capacity;
use crate::buffer::buffer_contents;
use crate::buffer::RotationBuffer;
use crate::units::length::Length;

verus! {

/// Pi scaled by 10^9, truncated.
pub const PI_NANOS: u128 = 3_141_592_653;

/// `x` multiplied by pi, in fixed point: the product with `PI_NANOS`,
/// divided back down (truncating).
pub open spec fn pi_scaled(x: int) -> int {
    x * PI_NANOS / 1_000_000_000
}

/// Wheel geometry, normalized to a circumference by `circumference`.
pub enum TireDimensions {
    Diameter(Length),
    Radius(Length),
    Circumference(Length),
}

impl TireDimensions {
    /// The circumference in micrometers: pi times the diameter, pi times
    /// twice the radius, or the given circumference itself.
    pub open spec fn spec_circumference(self) -> int {
        match self {
            TireDimensions::Diameter(diameter) => pi_scaled(diameter@ as int),
            TireDimensions::Radius(radius) => pi_scaled(2 * (radius@ as int)),
            TireDimensions::Circumference(circumference) => circumference@ as int,
        }
    }

    /// The fixed-point product with `PI_NANOS` stays representable.
    pub open spec fn circumference_fits(self) -> bool {
        match self {
            TireDimensions::Diameter(diameter) => diameter@ * PI_NANOS <= u128::MAX,
            TireDimensions::Radius(radius) => 2 * radius@ * PI_NANOS <= u128::MAX,
            TireDimensions::Circumference(_) => true,
        }
    }

    pub fn circumference(&self) -> (r: Length)
        requires
            self.circumference_fits(),
        ensures
            r@ as int == self.spec_circumference(),
    {
        match self {
            TireDimensions::Diameter(diameter) => {
                Length::from_micrometers(diameter.as_micrometers() * PI_NANOS / 1_000_000_000)
            },
            TireDimensions::Radius(radius) => {
                Length::from_micrometers(2 * radius.as_micrometers() * PI_NANOS / 1_000_000_000)
            },
            TireDimensions::Circumference(circumference) => *circumference,
        }
    }
}

/// The result of a windowed query: distance covered in the window, and
/// cadence in thousandths of a revolution per minute.
#[derive(Copy, Clone, Debug)]
pub struct Sample {
    pub distance: Length,
    pub cadence_millirpm: u64,
}

/// The inclusive lower bound of a query window: `now` minus `threshold`,
/// clamped to zero.
pub open spec fn window_floor(now: u64, threshold: u64) -> u64 {
    if now >= threshold {
        (now - threshold) as u64
    } else {
        0
    }
}

/// The timestamps of `s` (in order) that lie at or after the window floor.
pub open spec fn spec_window(s: Seq<u64>, threshold: u64, now: u64) -> Seq<u64>
    decreases s.len(),
{
    if s.len() == 0 {
        Seq::<u64>::empty()
    } else {
        let rest = spec_window(s.drop_last(), threshold, now);
        if s.last() >= window_floor(now, threshold) {
            rest.push(s.last())
        } else {
            rest
        }
    }
}

/// A wrapping ring buffer that tracks rotations of a wheel over time:
/// every rotation trigger adds one timestamp.
pub struct Tachometer {
    pub buf: RotationBuffer,
    pub tire: TireDimensions,
    /// Counts every insert, regardless of buffer eviction: the all-time
    /// odometer counter. Saturates instead of wrapping.
    pub total_revolutions: u64,
    /// Amount of equally spaced points on the wheel that are measured.
    pub pointers_per_wheel: u64,
    /// Factor required to convert from tire revolution to cadence, in
    /// thousandths.
    pub gear_ratio_thousandths: u64,
}

impl Tachometer {
    /// Well-formedness: a valid configuration, and bounds under which every
    /// query is free of overflow.
    pub open spec fn wf(self) -> bool {
        &&& self.pointers_per_wheel >= 1
        &&& self.gear_ratio_thousandths >= 1
        &&& buffer_capacity(self.buf) >= 1
        &&& buffer_capacity(self.buf) * 60_000_000_000 <= u64::MAX
        &&& self.tire.circumference_fits()
        &&& self.tire.spec_circumference() <= u64::MAX
        &&& buffer_contents(self.buf).len() <= buffer_capacity(self.buf)
    }

    /// How many retained timestamps fall in the query window.
    pub open spec fn spec_window_count(self, threshold: u64, now: u64) -> int {
        spec_window(buffer_contents(self.buf), threshold, now).len() as int
    }

    /// Distance covered in the window: one window timestamp is one
    /// trigger-point pass, and `pointers_per_wheel` passes make one
    /// revolution of the circumference.
    pub open spec fn spec_sample_distance(self, threshold: u64, now: u64) -> int {
        self.tire.spec_circumference() * self.spec_window_count(threshold, now)
            / (self.pointers_per_wheel as int)
    }

    /// Cadence over the window in thousandths of a revolution per minute:
    /// (count / gear ratio) revolutions per `threshold` milliseconds,
    /// converted to minutes.
    pub open spec fn spec_sample_cadence(self, threshold: u64, now: u64) -> int {
        self.spec_window_count(threshold, now) * 60_000_000_000
            / (self.gear_ratio_thousandths * threshold)
    }

    /// The all-time odometer reading: never reads the buffer, only the
    /// monotonic counter.
    pub open spec fn spec_total_distance(self) -> int {
        self.tire.spec_circumference() * self.total_revolutions / (self.pointers_per_wheel as int)
    }

    pub fn new(
        tire: TireDimensions,
        wheel_measurements: u64,
        gear_ratio_thousandths: u64,
        capacity: usize,
    ) -> (r: Self)
        requires
            wheel_measurements >= 1,
            gear_ratio_thousandths >= 1,
            capacity >= 1,
            capacity * 60_000_000_000 <= u64::MAX,
            tire.circumference_fits(),
            tire.spec_circumference() <= u64::MAX,
        ensures
            r.wf(),
            r.tire == tire,
            r.total_revolutions == 0,
            r.pointers_per_wheel == wheel_measurements,
            r.gear_ratio_thousandths == gear_ratio_thousandths,
            buffer_contents(r.buf) == Seq::<u64>::empty(),
            buffer_capacity(r.buf) == capacity,
    {
        Tachometer {
            buf: RotationBuffer::new(capacity),
            tire,
            total_revolutions: 0,
            pointers_per_wheel: wheel_measurements,
            gear_ratio_thousandths,
        }
    }

    /// Records one rotation trigger: pushes the timestamp into the ring
    /// (evicting the oldest entry when full) and advances the odometer
    /// counter, saturating instead of wrapping.
    pub fn insert(&mut self, timestamp: u64)
        requires
            old(self).wf(),
        ensures
            final(self).wf(),
            final(self).tire == old(self).tire,
            final(self).pointers_per_wheel == old(self).pointers_per_wheel,
            final(self).gear_ratio_thousandths == old(self).gear_ratio_thousandths,
            buffer_capacity(final(self).buf) == buffer_capacity(old(self).buf),
            final(self).total_revolutions == if old(self).total_revolutions < u64::MAX {
                old(self).total_revolutions + 1
            } else {
                u64::MAX as int
            },
            buffer_contents(final(self).buf) == if buffer_contents(old(self).buf).len()
                < buffer_capacity(old(self).buf) {
                buffer_contents(old(self).buf).push(timestamp)
            } else {
                buffer_contents(old(self).buf).skip(1).push(timestamp)
            },
    {
        self.buf.push(timestamp);
        self.total_revolutions = self.total_revolutions.saturating_add(1);
    }

    /// The retained timestamps in the trailing window of `threshold`
    /// milliseconds ending at `now`, in insertion order. The lower bound is
    /// inclusive and saturates at zero, so a threshold larger than `now`
    /// merely yields more inclusive results.
    pub fn last_millis(&self, threshold: u64, now: u64) -> (r: Vec<u64>)
        ensures
            r@ == spec_window(buffer_contents(self.buf), threshold, now),
            r@.len() <= buffer_capacity(self.buf),
            forall|i: int| 0 <= i < r@.len() ==> r@[i] >= window_floor(now, threshold),
    {
        let floor = now.saturating_sub(threshold);
        let all = self.buf.to_vec();
        let ghost s = all@;
        let mut out: Vec<u64> = Vec::new();
        let mut idx: usize = 0;
        while idx < all.len()
            invariant
                s == all@,
                idx <= s.len(),
                floor == window_floor(now, threshold),
                out@ == spec_window(s.take(idx as int), threshold, now),
            decreases s.len() - idx,
        {
            let t = all[idx];
            proof {
                lemma_window_take_step(s, threshold, now, idx as int);
            }
            if t >= floor {
                out.push(t);
            }
            idx += 1;
        }
        proof {
            assert(s.take(s.len() as int) =~= s);
            lemma_window_bounds(s, threshold, now);
        }
        out
    }

    /// A windowed sample: `distance` covered by the timestamps in the
    /// window, and `cadence_millirpm` derived from their count, the gear
    /// ratio and the window length. An empty window yields a zero sample.
    pub fn last_samples(&self, threshold: u64, now: u64) -> (r: Sample)
        requires
            self.wf(),
            threshold >= 1,
        ensures
            r.distance@ as int == self.spec_sample_distance(threshold, now),
            r.cadence_millirpm as int == self.spec_sample_cadence(threshold, now),
            self.spec_window_count(threshold, now) == 0 ==> r.distance@ == 0
                && r.cadence_millirpm == 0,
            buffer_contents(self.buf).len() == 0 ==> r.distance@ == 0 && r.cadence_millirpm == 0,
    {
        let window = self.last_millis(threshold, now);
        let count: u64 = window.len() as u64;
        proof {
            lemma_window_bounds(buffer_contents(self.buf), threshold, now);
            assert(count <= buffer_capacity(self.buf));
            assert(count * 60_000_000_000 <= buffer_capacity(self.buf) * 60_000_000_000)
                by (nonlinear_arith)
                requires
                    count <= buffer_capacity(self.buf),
            ;
        }
        let circumference = self.tire.circumference();
        proof {
            assert(circumference@ * count <= u128::MAX) by (nonlinear_arith)
                requires
                    circumference@ <= u64::MAX,
                    count <= u64::MAX,
            ;
        }
        let distance = circumference.scale(count).div(self.pointers_per_wheel);
        let numerator: u128 = (count as u128) * 60_000_000_000;
        proof {
            assert(1 <= (self.gear_ratio_thousandths as u128) * (threshold as u128) <= u128::MAX)
                by (nonlinear_arith)
                requires
                    1 <= self.gear_ratio_thousandths <= u64::MAX,
                    1 <= threshold <= u64::MAX,
            ;
        }
        let denominator: u128 = (self.gear_ratio_thousandths as u128) * (threshold as u128);
        proof {
            assert(numerator / denominator <= numerator) by (nonlinear_arith)
                requires
                    denominator >= 1,
            ;
        }
        let cadence: u64 = (numerator / denominator) as u64;
        Sample { distance, cadence_millirpm: cadence }
    }

    /// The all-time odometer reading, computed from the monotonic insert
    /// counter alone: it stays correct after the buffer has evicted every
    /// historical entry.
    pub fn total_distance_moved(&self) -> (r: Length)
        requires
            self.wf(),
        ensures
            r@ as int == self.spec_total_distance(),
    {
        let circumference = self.tire.circumference();
        proof {
            assert(circumference@ * self.total_revolutions <= u128::MAX) by (nonlinear_arith)
                requires
                    circumference@ <= u64::MAX,
                    self.total_revolutions <= u64::MAX,
            ;
        }
        circumference.scale(self.total_revolutions).div(self.pointers_per_wheel)
    }
}

/// Appending one timestamp to the scanned prefix extends the window with it
/// exactly when it lies at or after the window floor.
proof fn lemma_window_take_step(s: Seq<u64>, threshold: u64, now: u64, i: int)
    requires
        0 <= i < s.len(),
    ensures
        spec_window(s.take(i + 1), threshold, now) == if s[i] >= window_floor(now, threshold) {
            spec_window(s.take(i), threshold, now).push(s[i])
        } else {
            spec_window(s.take(i), threshold, now)
        },
{
    assert(s.take(i + 1).drop_last() =~= s.take(i));
    assert(s.take(i + 1).last() == s[i]);
}

/// A window never holds more timestamps than its source, and never one
/// before the window floor.
pub proof fn lemma_window_bounds(s: Seq<u64>, threshold: u64, now: u64)
    ensures
        spec_window(s, threshold, now).len() <= s.len(),
        forall|i: int|
            0 <= i < spec_window(s, threshold, now).len() ==> spec_window(s, threshold, now)[i]
                >= window_floor(now, threshold),
    decreases s.len(),
{
    if s.len() > 0 {
        lemma_window_bounds(s.drop_last(), threshold, now);
    }
}

/// Every source timestamp at or after the window floor appears in the window.
pub proof fn lemma_window_retains(s: Seq<u64>, threshold: u64, now: u64, i: int)
    requires
        0 <= i < s.len(),
        s[i] >= window_floor(now, threshold),
    ensures
        spec_window(s, threshold, now).contains(s[i]),
    decreases s.len(),
{
    let w = spec_window(s, threshold, now);
    let rest = spec_window(s.drop_last(), threshold, now);
    if i == s.len() - 1 {
        assert(w == rest.push(s[i]));
        assert(w[rest.len() as int] == s[i]);
    } else {
        assert(s.drop_last()[i] == s[i]);
        lemma_window_retains(s.drop_last(), threshold, now, i);
        let j = choose|j: int| 0 <= j < rest.len() && rest[j] == s[i];
        assert(w[j] == s[i]);
    }
}

/// With `now` at the newest retained timestamp and the threshold exactly the
/// span back to the oldest, the window includes both ends: the lower bound of
/// the window is closed.
pub proof fn lemma_window_boundary_inclusive(s: Seq<u64>, threshold: u64, now: u64)
    requires
        s.len() >= 1,
        forall|i: int, j: int| 0 <= i <= j < s.len() ==> s[i] <= s[j],
        now == s.last(),
        threshold == s.last() - s[0],
    ensures
        spec_window(s, threshold, now).contains(s[0]),
        spec_window(s, threshold, now).contains(s.last()),
{
    assert(s[0] <= s.last());
    assert(window_floor(now, threshold) == s[0]);
    lemma_window_retains(s, threshold, now, 0);
    lemma_window_retains(s, threshold, now, s.len() - 1);
}

/// Windowed queries are idempotent: without an intervening insert, two calls
/// with the same bounds return the same timestamps.
pub proof fn lemma_window_idempotent(
    t: Tachometer,
    threshold: u64,
    now: u64,
    r1: Seq<u64>,
    r2: Seq<u64>,
)
    requires
        r1 == spec_window(buffer_contents(t.buf), threshold, now),
        r2 == spec_window(buffer_contents(t.buf), threshold, now),
    ensures
        r1 == r2,
{
}

/// Sampling is idempotent: without an intervening insert, two samples with
/// the same bounds agree on distance and cadence.
pub proof fn lemma_sample_idempotent(t: Tachometer, threshold: u64, now: u64, s1: Sample, s2: Sample)
    requires
        s1.distance@ as int == t.spec_sample_distance(threshold, now),
        s1.cadence_millirpm as int == t.spec_sample_cadence(threshold, now),
        s2.distance@ as int == t.spec_sample_distance(threshold, now),
        s2.cadence_millirpm as int == t.spec_sample_cadence(threshold, now),
    ensures
        s1.distance@ == s2.distance@,
        s1.cadence_millirpm == s2.cadence_millirpm,
{
}

/// The odometer query is idempotent: without an intervening insert, two
/// readings agree.
pub proof fn lemma_total_distance_idempotent(t: Tachometer, d1: Length, d2: Length)
    requires
        d1@ as int == t.spec_total_distance(),
        d2@ as int == t.spec_total_distance(),
    ensures
        d1@ == d2@,
{
}

/// The odometer reading depends only on the configuration and the insert
/// counter, never on what the buffer still retains: eviction cannot change
/// it.
pub proof fn lemma_total_distance_ignores_buffer(a: Tachometer, b: Tachometer)
    requires
        a.tire == b.tire,
        a.pointers_per_wheel == b.pointers_per_wheel,
        a.total_revolutions == b.total_revolutions,
    ensures
        a.spec_total_distance() == b.spec_total_distance(),
{
}

} // verus!
