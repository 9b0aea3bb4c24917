//! Conversions between media time and frame indices.
//!
//! Media time is counted in whole microseconds, and a frame rate is an exact
//! fraction of frames per second, so every conversion here is exact integer
//! arithmetic.
use vstd::arithmetic::div_mod::{
    lemma_div_is_ordered, lemma_fundamental_div_mod, lemma_fundamental_div_mod_converse_div,
    lemma_mod_pos_bound,
};
use vstd::arithmetic::mul::{lemma_mul_inequality, lemma_mul_is_commutative, lemma_mul_upper_bound};
use vstd::prelude::*;

verus! {

/// Microseconds in one second: the unit of every media time in this crate.
pub const MICROS_PER_SECOND: u64 = 1_000_000;

/// A frame rate of `num / den` frames per second (25, or 30000 / 1001).
#[derive(Clone, Copy, Debug, PartialEq, Eq, Structural)]
pub struct FrameRate {
    pub num: u32,
    pub den: u32,
}

impl FrameRate {
    /// Both parts are positive and a frame lasts at least one microsecond.
    pub open spec fn valid(self) -> bool {
        &&& self.num > 0
        &&& self.den > 0
        &&& self.num <= self.den * MICROS_PER_SECOND
    }

    /// The frame rate as a fraction of frames per microsecond: `num / micros_den`.
    pub open spec fn micros_den(self) -> int {
        self.den * MICROS_PER_SECOND
    }

    /// A frame rate of `num / den` frames per second, when it is valid.
    pub fn new(num: u32, den: u32) -> (r: Option<FrameRate>)
        ensures
            r is Some <==> (FrameRate { num, den }).valid(),
            r matches Some(fr) ==> fr == (FrameRate { num, den }),
    {
        if num > 0 && den > 0 && num as u64 <= den as u64 * MICROS_PER_SECOND {
            Some(FrameRate { num, den })
        } else {
            None
        }
    }

    /// A whole number of frames per second.
    pub fn per_second(fps: u32) -> (r: Option<FrameRate>)
        ensures
            r is Some <==> 0 < fps <= MICROS_PER_SECOND,
            r matches Some(fr) ==> fr == (FrameRate { num: fps, den: 1 }),
    {
        FrameRate::new(fps, 1)
    }

    /// The rate rounded to whole frames per second, halves rounded up.
    pub open spec fn spec_rounded(self) -> int {
        (2 * self.num + self.den) / (2 * self.den as int)
    }

    /// The rate rounded to whole frames per second, halves rounded up.
    pub fn rounded(&self) -> (r: u64)
        requires
            self.valid(),
        ensures
            r == self.spec_rounded(),
    {
        let n: u64 = 2 * self.num as u64 + self.den as u64;
        let d: u64 = 2 * self.den as u64;
        n / d
    }
}

/// `x / d` is `q` when `q * d <= x < q * d + d`.
pub proof fn lemma_floor_div_unique(x: int, d: int, q: int)
    requires
        d > 0,
        q * d <= x < q * d + d,
    ensures
        x / d == q,
{
    lemma_fundamental_div_mod_converse_div(x, d, q, x - q * d);
}

/// `a / b` rounded up.
pub open spec fn ceil_div(a: int, b: int) -> int {
    (a + b - 1) / b
}

/// The frame shown at media time `time` (microseconds): `floor(time * fps)`.
pub open spec fn spec_frame_from_time(time: int, rate: FrameRate) -> int {
    (time * rate.num) / rate.micros_den()
}

/// The first microsecond at which frame `frame` is shown: `frame / fps`, rounded up.
pub open spec fn spec_time_from_frame(frame: int, rate: FrameRate) -> int {
    ceil_div(frame * rate.micros_den(), rate.num as int)
}

/// The last frame of media that lasts `duration` microseconds:
/// `floor(duration * fps) - 1`, and at least 0.
pub open spec fn spec_end_frame(duration: int, rate: FrameRate) -> int {
    if spec_frame_from_time(duration, rate) >= 1 {
        spec_frame_from_time(duration, rate) - 1
    } else {
        0
    }
}

/// `frame` moved into `[0, end]`.
pub open spec fn clamp_frame(frame: int, end: int) -> int {
    if frame < 0 {
        0
    } else if frame > end {
        end
    } else {
        frame
    }
}

proof fn lemma_frame_from_time_bounds(time: int, rate: FrameRate)
    requires
        rate.valid(),
        time >= 0,
    ensures
        0 <= spec_frame_from_time(time, rate) <= time,
{
    let d = rate.micros_den();
    lemma_mul_inequality(rate.num as int, d, time);
    lemma_mul_is_commutative(rate.num as int, time);
    lemma_mul_is_commutative(d, time);
    lemma_div_is_ordered(time * rate.num, time * d, d);
    lemma_floor_div_unique(time * d, d, time);
    lemma_div_is_ordered(0, time * rate.num, d);
}

/// The frame shown at media time `time` (microseconds): `floor(time * fps)`.
pub fn frame_from_time(time: u64, rate: FrameRate) -> (r: u64)
    requires
        rate.valid(),
    ensures
        r == spec_frame_from_time(time as int, rate),
        r <= time,
{
    proof {
        lemma_frame_from_time_bounds(time as int, rate);
        lemma_mul_upper_bound(time as int, u64::MAX as int, rate.num as int, u32::MAX as int);
    }
    let n: u128 = time as u128 * rate.num as u128;
    let d: u128 = rate.den as u128 * MICROS_PER_SECOND as u128;
    (n / d) as u64
}

/// Whether the time of frame `frame` fits in a `u64` of microseconds.
pub open spec fn time_of_frame_fits(frame: int, rate: FrameRate) -> bool {
    spec_time_from_frame(frame, rate) <= u64::MAX
}

/// The first microsecond at which frame `frame` is shown: `frame / fps`, rounded up.
pub fn time_from_frame(frame: u64, rate: FrameRate) -> (r: u64)
    requires
        rate.valid(),
        time_of_frame_fits(frame as int, rate),
    ensures
        r == spec_time_from_frame(frame as int, rate),
{
    let d: u128 = rate.den as u128 * MICROS_PER_SECOND as u128;
    proof {
        lemma_mul_inequality(frame as int, u64::MAX as int, d as int);
        assert(u64::MAX * (u32::MAX * MICROS_PER_SECOND) < u128::MAX);
        lemma_mul_inequality(d as int, u32::MAX * MICROS_PER_SECOND, u64::MAX as int);
        lemma_mul_is_commutative(d as int, u64::MAX as int);
        lemma_mul_is_commutative(frame as int, d as int);
    }
    let a: u128 = frame as u128 * d;
    let n: u128 = rate.num as u128;
    ((a + n - 1) / n) as u64
}

/// The last frame of media that lasts `duration` microseconds:
/// `floor(duration * fps) - 1`, and at least 0. Its time fits in a `u64`.
pub fn end_frame_for_duration(duration: u64, rate: FrameRate) -> (r: u64)
    requires
        rate.valid(),
    ensures
        r == spec_end_frame(duration as int, rate),
        time_of_frame_fits(r as int, rate),
        r < u64::MAX,
{
    let total = frame_from_time(duration, rate);
    proof {
        lemma_end_frame_time_within_duration(duration as int, rate);
    }
    if total >= 1 {
        total - 1
    } else {
        0
    }
}

/// The last frame of media that lasts `duration` starts within it.
pub proof fn lemma_end_frame_time_within_duration(duration: int, rate: FrameRate)
    requires
        rate.valid(),
        duration >= 0,
    ensures
        spec_time_from_frame(spec_end_frame(duration, rate), rate) <= duration,
{
    let d = rate.micros_den();
    let n = rate.num as int;
    let e = spec_end_frame(duration, rate);
    let total = spec_frame_from_time(duration, rate);
    lemma_frame_from_time_bounds(duration, rate);
    // (e + 1) * d <= total * d <= duration * n, when the media holds a frame
    lemma_fundamental_div_mod(duration * n, d);
    lemma_mod_pos_bound(duration * n, d);
    lemma_mul_is_commutative(d, total);
    if total >= 1 {
        lemma_mul_inequality(e, total, d);
    } else {
        assert(e * d == 0);
    }
    assert(e * d <= duration * n);
    // ceil(e * d / n) <= ceil(duration * n / n) == duration
    lemma_div_is_ordered(e * d + n - 1, duration * n + n - 1, n);
    lemma_mul_is_commutative(duration, n);
    lemma_floor_div_unique(duration * n + n - 1, n, duration);
}

/// Converting a frame to its time and back gives the same frame, at any
/// frame rate.
pub proof fn lemma_frame_time_round_trip(frame: int, rate: FrameRate)
    requires
        rate.valid(),
        frame >= 0,
    ensures
        spec_frame_from_time(spec_time_from_frame(frame, rate), rate) == frame,
{
    let d = rate.micros_den();
    let n = rate.num as int;
    let a = frame * d;
    let t = spec_time_from_frame(frame, rate);
    // t * n lies in [a, a + n)
    lemma_fundamental_div_mod(a + n - 1, n);
    lemma_mod_pos_bound(a + n - 1, n);
    lemma_mul_is_commutative(n, t);
    assert(a <= t * n < a + n);
    // and so in [frame * d, frame * d + d), as n <= d
    lemma_floor_div_unique(t * n, d, frame);
}

/// Within the media, converting a frame to its time and back, and clamping
/// to the last frame, gives the same frame.
pub proof fn lemma_frame_time_round_trip_clamped(frame: int, end: int, rate: FrameRate)
    requires
        rate.valid(),
        0 <= frame <= end,
    ensures
        clamp_frame(spec_frame_from_time(spec_time_from_frame(frame, rate), rate), end) == frame,
{
    lemma_frame_time_round_trip(frame, rate);
}

} // verus!
