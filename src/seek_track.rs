//! The seek track: pointer drag states, the frame under the pointer, and the
//! media source shown while scrubbing.
use crate::frame_clock::clamp_frame;
use vstd::arithmetic::div_mod::{lemma_div_is_ordered, lemma_div_pos_is_pos};
use vstd::arithmetic::mul::{lemma_mul_inequality, lemma_mul_is_commutative, lemma_mul_upper_bound};
use vstd::prelude::*;

verus! {

/// Where a pointer drag on the seek track stands.
#[derive(Clone, Copy, Debug, PartialEq, Eq, Structural)]
pub enum DragState {
    /// No drag: the media clock drives the current frame.
    Idle,
    /// The pointer was just pressed on the track.
    Start,
    /// The pointer is being dragged along the track.
    Move,
}

/// One of the two media elements of the player.
#[derive(Clone, Copy, Debug, PartialEq, Eq, Structural)]
pub enum MediaSource {
    /// The full-resolution source.
    Primary,
    /// The low-resolution source kept in step with the primary one.
    Proxy,
}

/// The source on view: the proxy while the pointer moves on the track, if
/// there is one, and the primary source otherwise.
pub open spec fn spec_visible_source(drag: DragState, has_proxy: bool) -> MediaSource {
    match drag {
        DragState::Move if has_proxy => MediaSource::Proxy,
        _ => MediaSource::Primary,
    }
}

/// The source on view: see `spec_visible_source`.
pub fn visible_source(drag: DragState, has_proxy: bool) -> (r: MediaSource)
    ensures
        r == spec_visible_source(drag, has_proxy),
{
    match drag {
        DragState::Move if has_proxy => MediaSource::Proxy,
        _ => MediaSource::Primary,
    }
}

/// `x` moved into `[0, width]`.
pub open spec fn clamp_to_track(x: int, width: int) -> int {
    if x < 0 {
        0
    } else if x > width {
        width
    } else {
        x
    }
}

/// The frame under the pointer at `x` on a track `width` wide, for media
/// whose last frame is `end`: `floor(pos * (end + 1))` where `pos` is
/// `x / width` clamped to `[0, 1]`. A track of no width gives frame 0.
pub open spec fn spec_pointer_frame(x: int, width: int, end: int) -> int {
    if width <= 0 {
        0
    } else {
        clamp_to_track(x, width) * (end + 1) / width
    }
}

/// The frame to seek to for a pointer at `x` on a track `width` wide: the
/// frame under the pointer, and never past `end`.
pub fn frame_at_pointer(x: i128, width: u64, end: u64) -> (r: u64)
    ensures
        r == clamp_frame(spec_pointer_frame(x as int, width as int, end as int), end as int),
        r <= end,
{
    if width == 0 {
        return 0;
    }
    let c: u128 = if x < 0 {
        0
    } else if x > width as i128 {
        width as u128
    } else {
        x as u128
    };
    let total: u128 = end as u128 + 1;
    proof {
        lemma_mul_upper_bound(c as int, u64::MAX as int, total as int, u64::MAX + 1);
        assert(u64::MAX * (u64::MAX + 1) <= u128::MAX);
        lemma_mul_inequality(c as int, width as int, total as int);
        lemma_mul_is_commutative(width as int, total as int);
        lemma_div_is_ordered(c * total, total * width, width as int);
        crate::frame_clock::lemma_floor_div_unique(total * width, width as int, total as int);
        lemma_div_pos_is_pos(c * total, width as int);
    }
    let f: u128 = c * total / width as u128;
    if f > end as u128 {
        end
    } else {
        f as u64
    }
}

} // verus!
