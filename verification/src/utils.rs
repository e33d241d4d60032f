//! Easing and interpolation: from a door's travel progress to its position.
//!
//! Normalized time runs over `0 ..= SCALE` and is eased with a quadratic
//! in-out curve; the eased fraction then interpolates between the door's two
//! end positions. All of it is integer arithmetic: positions and durations
//! are plain `i64` values in whatever units the caller picked.

use vstd::arithmetic::div_mod::{
    lemma_div_basics_1, lemma_div_is_ordered, lemma_div_multiples_vanish, lemma_div_pos_is_pos,
};
use vstd::arithmetic::mul::{lemma_mul_basics, lemma_mul_inequality, lemma_mul_nonnegative, lemma_mul_upper_bound};
use vstd::prelude::*;

use crate::SlidingDoor;
use crate::SCALE;

verus! {

pub open spec fn clamp_spec(x: int, lo: int, hi: int) -> int {
    if x < lo {
        lo
    } else if x > hi {
        hi
    } else {
        x
    }
}

/// Clamp `x` into the interval `lo ..= hi`.
pub fn clamp_i64(x: i64, lo: i64, hi: i64) -> (r: i64)
    requires
        lo <= hi,
    ensures
        r == clamp_spec(x as int, lo as int, hi as int),
        lo <= r <= hi,
        lo <= x <= hi ==> r == x,
{
    if x < lo {
        lo
    } else if x > hi {
        hi
    } else {
        x
    }
}

/// Quadratic ease-in-out over normalized time `0 ..= SCALE`: the first half
/// of the curve is `2 * t^2`, the second half is its point reflection, so the
/// motion starts and ends slowly.
pub open spec fn ease_quad_spec(t: int) -> int {
    if 2 * t <= SCALE {
        2 * t * t / (SCALE as int)
    } else {
        SCALE - 2 * (SCALE - t) * (SCALE - t) / (SCALE as int)
    }
}

/// Apply the quadratic ease-in-out curve to a normalized time.
pub fn ease_quad(t: i64) -> (e: i64)
    requires
        0 <= t <= SCALE,
    ensures
        e == ease_quad_spec(t as int),
        0 <= e <= SCALE,
        t == 0 ==> e == 0,
        t == SCALE ==> e == SCALE,
{
    if 2 * t <= SCALE {
        proof {
            lemma_mul_nonnegative(2 * t, t as int);
            lemma_mul_upper_bound(2 * t, SCALE as int, t as int, SCALE as int / 2);
        }
        2 * t * t / SCALE
    } else {
        let u: i64 = SCALE - t;
        proof {
            lemma_mul_nonnegative(2 * u, u as int);
            lemma_mul_upper_bound(2 * u, SCALE as int, u as int, SCALE as int / 2);
        }
        SCALE - 2 * u * u / SCALE
    }
}

/// The normalized travel progress of a door: its raw progress counter,
/// clamped to the animation's duration and rescaled to `0 ..= SCALE`.
pub open spec fn normalized_progress_spec(elapsed: int, target_duration: int) -> int {
    clamp_spec(
        clamp_spec(elapsed, 0, target_duration) * (SCALE as int) / target_duration,
        0,
        SCALE as int,
    )
}

/// The position a door shows for its current progress counter: normalized
/// progress, eased, then interpolated between the two end positions. Always
/// within the interval the end positions span, however far the raw counter
/// has overshot or undershot.
pub open spec fn slide_interpolate_spec(door: SlidingDoor) -> int {
    let eased: int = ease_quad_spec(
        normalized_progress_spec(door.elapsed as int, door.target_duration as int),
    );
    if door.end_position >= door.start_position {
        door.start_position + (door.end_position - door.start_position) * eased / (SCALE as int)
    } else {
        door.start_position - (door.start_position - door.end_position) * eased / (SCALE as int)
    }
}

/// Compute the position the door shows for its current progress counter.
pub fn slide_interpolate(door: &SlidingDoor) -> (x: i64)
    requires
        door.wf(),
    ensures
        x == slide_interpolate_spec(*door),
        door.low_stop() <= x <= door.high_stop(),
        door.elapsed <= 0 ==> x == door.start_position,
        door.elapsed >= door.target_duration ==> x == door.end_position,
{
    let clamped: i64 = clamp_i64(door.elapsed, 0, door.target_duration);
    proof {
        lemma_div_pos_is_pos(clamped * (SCALE as int), door.target_duration as int);
        lemma_mul_inequality(clamped as int, door.target_duration as int, SCALE as int);
        lemma_div_is_ordered(
            clamped * (SCALE as int),
            (door.target_duration as int) * (SCALE as int),
            door.target_duration as int,
        );
        lemma_div_multiples_vanish(SCALE as int, door.target_duration as int);
        if door.elapsed <= 0 {
            lemma_div_basics_1(door.target_duration as int);
        }
    }
    let t: i64 = clamp_i64(clamped * SCALE / door.target_duration, 0, SCALE);
    let eased: i64 = ease_quad(t);
    if door.end_position >= door.start_position {
        let span: i64 = door.end_position - door.start_position;
        proof {
            lemma_mul_basics(span as int);
            lemma_mul_nonnegative(span as int, eased as int);
            lemma_mul_inequality(eased as int, SCALE as int, span as int);
            lemma_mul_upper_bound(span as int, span as int, eased as int, SCALE as int);
        }
        door.start_position + span * eased / SCALE
    } else {
        let span: i64 = door.start_position - door.end_position;
        proof {
            lemma_mul_basics(span as int);
            lemma_mul_nonnegative(span as int, eased as int);
            lemma_mul_inequality(eased as int, SCALE as int, span as int);
            lemma_mul_upper_bound(span as int, span as int, eased as int, SCALE as int);
        }
        door.start_position - span * eased / SCALE
    }
}

} // verus!
