//! The transition engine shared by backlight and LED devices: the
//! percentage-to-absolute-value calculator, the toggle rule, the rounded
//! percentage, and the incremental sweep walk.
//!
//! Everything here is pure arithmetic on the device's cached state. The
//! sweep walk is described both step by step ([`sweep_next`], which a caller
//! performing the writes iterates) and as a whole ([`sweep_seq`], the exact
//! sequence of values a terminating sweep writes).

use crate::Direction;
use vstd::arithmetic::div_mod::{lemma_div_is_ordered, lemma_div_pos_is_pos};
use vstd::arithmetic::mul::lemma_mul_upper_bound;
use vstd::prelude::*;

verus! {

/// The per-step size of a change: the whole range times the step
/// percentage, truncated toward zero and capped at the largest 32-bit
/// value.
pub open spec fn spec_step_amount(max: u32, step_size: u32) -> int {
    let step = (max as int * step_size as int) / 100;
    if step > u32::MAX {
        u32::MAX as int
    } else {
        step
    }
}

/// The value the calculator returns: the current value moved by the step
/// amount in the given direction, saturating at the 32-bit bounds, then
/// clamped to the maximum.
pub open spec fn spec_calculate_change(current: u32, max: u32, step_size: u32, dir: Direction) -> u32 {
    let step = spec_step_amount(max, step_size);
    let moved = match dir {
        Direction::Inc => if current + step > u32::MAX {
            u32::MAX as int
        } else {
            current + step
        },
        Direction::Dec => if current - step < 0 {
            0
        } else {
            current - step
        },
    };
    if moved > max {
        max as u32
    } else {
        moved as u32
    }
}

/// Computes the value a step of `step_size` percent in direction `dir`
/// moves a device at `current` out of `max` to. The result is always safe
/// to write: it never exceeds `max`, a decrease never raises the value,
/// and an increase never lowers it as long as the current value is within
/// range.
pub fn calculate_change(current: u32, max: u32, step_size: u32, dir: Direction) -> (r: u32)
    ensures
        r == spec_calculate_change(current, max, step_size, dir),
        r <= max,
        dir == Direction::Dec ==> r <= current,
        dir == Direction::Inc && current <= max ==> r >= current,
{
    proof {
        lemma_mul_upper_bound(max as int, u32::MAX as int, step_size as int, u32::MAX as int);
        lemma_div_pos_is_pos(max as int * step_size as int, 100);
        lemma_div_is_ordered(
            max as int * step_size as int,
            u32::MAX as int * u32::MAX as int,
            100,
        );
    }
    let product: u64 = max as u64 * step_size as u64;
    let wide_step: u64 = product / 100;
    let step: u32 = if wide_step > u32::MAX as u64 {
        u32::MAX
    } else {
        wide_step as u32
    };
    let moved: u32 = match dir {
        Direction::Inc => {
            let sum: u64 = current as u64 + step as u64;
            if sum > u32::MAX as u64 {
                u32::MAX
            } else {
                sum as u32
            }
        },
        Direction::Dec => {
            if step > current {
                0
            } else {
                current - step
            }
        },
    };
    if moved > max {
        max
    } else {
        moved
    }
}

/// The value a toggle writes: zero when the device sits at its maximum,
/// the maximum otherwise.
pub open spec fn spec_toggle_value(current: u32, max: u32) -> u32 {
    if current == max {
        0
    } else {
        max
    }
}

/// Toggling twice from either end of the range returns to the start:
/// from zero or from the maximum, a toggle followed by a toggle of the
/// written value yields the original value again.
pub proof fn lemma_toggle_involutive(current: u32, max: u32)
    requires
        current == 0 || current == max,
    ensures
        spec_toggle_value(spec_toggle_value(current, max), max) == current,
{
}

/// The current value as a percentage of the range, rounded half-up to the
/// nearest whole percent.
pub open spec fn spec_percent_rounded(current: u32, max: u32) -> int
    recommends
        max > 0,
{
    (200 * current + max) / (2 * max)
}

/// Computes the current value's percentage of the range, rounded half-up
/// to the nearest whole percent.
pub fn percent_rounded(current: u32, max: u32) -> (r: u64)
    requires
        max > 0,
    ensures
        r == spec_percent_rounded(current, max),
{
    (200 * current as u64 + max as u64) / (2 * max as u64)
}

/// The direction of a sweep, fixed once at its start by comparing the
/// target with the cached current value.
pub open spec fn sweep_dir(current: u32, target: u32) -> Direction {
    if target > current {
        Direction::Inc
    } else {
        Direction::Dec
    }
}

/// The per-iteration step of a sweep: one percent of the range, truncated.
pub open spec fn sweep_rate(max: u32) -> int {
    max as int / 100
}

/// A sweep stops when the target is reached, when the target lies above
/// the maximum (a silent no-op, not an error), or when the walk sits at
/// the bound it is moving toward.
pub open spec fn sweep_stop(current: u32, target: u32, max: u32, dir: Direction) -> bool {
    current == target || target > max || (current == 0 && dir == Direction::Dec) || (current == max
        && dir == Direction::Inc)
}

/// The walk still has ground to cover in its direction.
pub open spec fn sweep_progress(current: u32, target: u32, dir: Direction) -> bool {
    match dir {
        Direction::Inc => current < target,
        Direction::Dec => current > target,
    }
}

/// The value the next iteration of a sweep writes, with the step clamped
/// so the walk never overshoots the target; a decrease first caps the
/// step at the current value itself, so a step larger than what is left
/// drops straight to zero.
pub open spec fn sweep_next_value(current: u32, target: u32, max: u32, dir: Direction) -> u32 {
    let rate = sweep_rate(max);
    match dir {
        Direction::Inc => if current + rate > target {
            target
        } else {
            (current + rate) as u32
        },
        Direction::Dec => if rate > current {
            0u32
        } else if current - rate < target {
            target
        } else {
            (current - rate) as u32
        },
    }
}

/// Termination measure of a sweep: the distance left, or zero once the
/// walk has stopped, degenerated (a rate of zero) or lost its direction.
pub open spec fn sweep_measure(current: u32, target: u32, max: u32, dir: Direction) -> int {
    if sweep_stop(current, target, max, dir) || sweep_rate(max) == 0 || !sweep_progress(
        current,
        target,
        dir,
    ) {
        0
    } else {
        match dir {
            Direction::Inc => target - current + 1,
            Direction::Dec => current - target + 1,
        }
    }
}

/// The exact sequence of values a sweep writes, one per iteration, empty
/// once a stopping condition holds. A rate of zero makes no progress (the
/// walk would repeat the same value forever), so the sequence is defined
/// only for the moving, terminating walks and is empty otherwise.
pub open spec fn sweep_seq(current: u32, target: u32, max: u32, dir: Direction) -> Seq<u32>
    decreases sweep_measure(current, target, max, dir),
{
    if sweep_stop(current, target, max, dir) || sweep_rate(max) == 0 || !sweep_progress(
        current,
        target,
        dir,
    ) {
        Seq::empty()
    } else {
        let next = sweep_next_value(current, target, max, dir);
        seq![next] + sweep_seq(next, target, max, dir)
    }
}

/// The value a sweep leaves the cached current value at.
pub open spec fn sweep_final(current: u32, target: u32, max: u32, dir: Direction) -> u32
    decreases sweep_measure(current, target, max, dir),
{
    if sweep_stop(current, target, max, dir) || sweep_rate(max) == 0 || !sweep_progress(
        current,
        target,
        dir,
    ) {
        current
    } else {
        sweep_final(sweep_next_value(current, target, max, dir), target, max, dir)
    }
}

/// An increasing sweep with a real rate terminates and lands on its
/// target exactly, with no overshoot: the per-step clamp turns the last
/// step into exactly the distance left.
pub proof fn lemma_sweep_inc_reaches(current: u32, target: u32, max: u32)
    requires
        max >= 100,
        current < target <= max,
    ensures
        sweep_final(current, target, max, sweep_dir(current, target)) == target,
    decreases target - current,
{
    let dir = sweep_dir(current, target);
    let next = sweep_next_value(current, target, max, dir);
    assert(!sweep_stop(current, target, max, dir));
    assert(sweep_progress(current, target, dir));
    assert(sweep_final(current, target, max, dir) == sweep_final(next, target, max, dir));
    if next == target {
        assert(sweep_final(next, target, max, dir) == next);
    } else {
        lemma_sweep_inc_reaches(next, target, max);
        assert(sweep_dir(next, target) == dir);
    }
}

/// A decreasing sweep with a real rate terminates on its target or, when
/// a step is larger than the whole current value, drops straight to zero;
/// it never stops anywhere else. Toward zero itself it is exact.
pub proof fn lemma_sweep_dec_reaches(current: u32, target: u32, max: u32)
    requires
        max >= 100,
        target < current,
        target <= max,
    ensures
        sweep_final(current, target, max, sweep_dir(current, target)) == target || sweep_final(
            current,
            target,
            max,
            sweep_dir(current, target),
        ) == 0,
    decreases current - target,
{
    let dir = sweep_dir(current, target);
    let next = sweep_next_value(current, target, max, dir);
    assert(!sweep_stop(current, target, max, dir));
    assert(sweep_progress(current, target, dir));
    assert(sweep_final(current, target, max, dir) == sweep_final(next, target, max, dir));
    if next == target || next == 0 {
        assert(sweep_final(next, target, max, dir) == next);
    } else {
        lemma_sweep_dec_reaches(next, target, max);
        assert(sweep_dir(next, target) == dir);
    }
}

/// Decides one iteration of a sweep: nothing when a stopping condition
/// holds, else the value to write next. A caller that performs the writes
/// repeats this step, writing and waiting between iterations; with a rate
/// of zero and no stopping condition the step returns the unchanged
/// current value forever, exactly the degenerate walk the engine
/// specifies.
pub fn sweep_next(current: u32, target: u32, max: u32, dir: Direction) -> (r: Option<u32>)
    ensures
        r == if sweep_stop(current, target, max, dir) {
            Option::<u32>::None
        } else {
            Option::Some(sweep_next_value(current, target, max, dir))
        },
{
    if sweep_stopped(current, target, max, dir) {
        return None;
    }
    let rate = max / 100;
    let next: u32 = match dir {
        Direction::Inc => {
            if current as u64 + rate as u64 > target as u64 {
                target
            } else {
                current + rate
            }
        },
        Direction::Dec => {
            if rate > current {
                0
            } else if current - rate < target {
                target
            } else {
                current - rate
            }
        },
    };
    Some(next)
}

/// Tests the stopping conditions of a sweep.
pub fn sweep_stopped(current: u32, target: u32, max: u32, dir: Direction) -> (r: bool)
    ensures
        r == sweep_stop(current, target, max, dir),
{
    current == target || target > max || (current == 0 && dir == Direction::Dec) || (current == max
        && dir == Direction::Inc)
}

/// Runs a whole sweep walk from `current` toward `target`: returns the
/// values written in order and the value the walk ends at. Only walks that
/// terminate have such a sequence, hence the bound on the rate.
pub fn sweep_values(current: u32, target: u32, max: u32) -> (r: (Vec<u32>, u32))
    requires
        max >= 100 || sweep_stop(current, target, max, sweep_dir(current, target)),
    ensures
        r.0@ == sweep_seq(current, target, max, sweep_dir(current, target)),
        r.1 == sweep_final(current, target, max, sweep_dir(current, target)),
        target > max ==> r.0@.len() == 0 && r.1 == current,
        r.0@.len() > 0 ==> r.0@.last() == r.1,
        r.0@.len() == 0 ==> r.1 == current,
        current <= max ==> r.1 <= max && (forall|i: int|
            0 <= i < r.0@.len() ==> #[trigger] r.0@[i] <= max),
        max >= 100 && current < target <= max ==> r.1 == target,
        max >= 100 && target < current && target <= max ==> r.1 == target || r.1 == 0,
{
    proof {
        if max >= 100 && current < target <= max {
            lemma_sweep_inc_reaches(current, target, max);
        }
        if max >= 100 && target < current && target <= max {
            lemma_sweep_dec_reaches(current, target, max);
        }
    }
    let c0 = current;
    let dir = if target > c0 {
        Direction::Inc
    } else {
        Direction::Dec
    };
    let mut writes: Vec<u32> = Vec::new();
    proof {
        assert(sweep_stop(c0, target, max, dir) || sweep_progress(c0, target, dir));
    }
    if max / 100 == 0 {
        return (writes, c0);
    }
    let mut cur = c0;
    while !sweep_stopped(cur, target, max, dir)
        invariant
            dir == sweep_dir(c0, target),
            max / 100 >= 1,
            sweep_seq(c0, target, max, dir) == writes@ + sweep_seq(cur, target, max, dir),
            sweep_final(c0, target, max, dir) == sweep_final(cur, target, max, dir),
            sweep_stop(cur, target, max, dir) || sweep_progress(cur, target, dir),
            writes@.len() > 0 ==> writes@.last() == cur,
            writes@.len() == 0 ==> cur == c0,
            c0 <= max ==> cur <= max && (forall|i: int|
                0 <= i < writes@.len() ==> #[trigger] writes@[i] <= max),
        decreases sweep_measure(cur, target, max, dir),
    {
        let next = sweep_next(cur, target, max, dir).unwrap();
        proof {
            assert(writes@ + sweep_seq(cur, target, max, dir) == (writes@ + seq![next])
                + sweep_seq(next, target, max, dir));
        }
        writes.push(next);
        cur = next;
    }
    (writes, cur)
}

} // verus!
