//! Ruler tick spacing and tick generation over integer frames.

use vstd::arithmetic::div_mod::{
    lemma_fundamental_div_mod, lemma_fundamental_div_mod_converse, lemma_mod_multiples_basic,
};
use vstd::prelude::*;

use super::{
    TimelineFrame, TimelineFrameRate, TimelineRulerTick, TimelineRulerTickKind, display_fps,
    timecode_text, timeline_timecode_label,
};

verus! {

/// Largest ruler spacing, in frames, that tick generation uses: 5·10^18,
/// the coarsest ruler spacing that an `i64` frame count holds. It is also
/// the largest minimum major spacing accepted.
pub const RULER_STEP_LIMIT: i64 = 5_000_000_000_000_000_000;

/// Largest frame magnitude that ruler tick generation accepts:
/// `i64::MAX - RULER_STEP_LIMIT`, so that every frame rounded to a ruler
/// spacing, and so every tick, is an `i64`.
pub const RULER_FRAME_LIMIT: i64 = 4_223_372_036_854_775_807;

/// Ten to the power `k`.
pub open spec fn pow10(k: nat) -> int
    decreases k,
{
    if k == 0 {
        1
    } else {
        10 * pow10((k - 1) as nat)
    }
}

/// For `n >= 2`, the `k` with `10^k < n <= 10^(k+1)`.
pub open spec fn decade(n: int) -> nat
    decreases n,
{
    if n <= 10 {
        0
    } else {
        1 + decade((n + 9) / 10)
    }
}

/// Ruler spacing for a minimum frame distance: 1 when `min_frames <= 1`,
/// otherwise the least of `2·10^k`, `5·10^k` and `10^(k+1)` that reaches
/// `min_frames`, where `10^k < min_frames <= 10^(k+1)`.
pub open spec fn nice_frame_step(min_frames: int) -> int {
    if min_frames <= 1 {
        1
    } else {
        let m = pow10(decade(min_frames));
        if 2 * m >= min_frames {
            2 * m
        } else if 5 * m >= min_frames {
            5 * m
        } else {
            10 * m
        }
    }
}

/// `value` rounded down to a multiple of `step`.
pub open spec fn floor_to_step(value: int, step: int) -> int {
    (value / step) * step
}

/// `value` rounded up to a multiple of `step`.
pub open spec fn ceil_to_step(value: int, step: int) -> int {
    if floor_to_step(value, step) == value {
        value
    } else {
        floor_to_step(value, step) + step
    }
}

/// Number of multiples of `step` from `start` rounded down to `end` rounded up.
pub open spec fn tick_count(start: int, end: int, step: int) -> int {
    let first = floor_to_step(start, step);
    let last = ceil_to_step(end, step);
    if last < first {
        0
    } else {
        (last - first) / step + 1
    }
}

/// The major spacing after `i` coarsenings of `major`, each one the ruler
/// spacing for twice the previous spacing.
pub open spec fn doubled_step(major: int, i: nat) -> int
    decreases i,
{
    if i == 0 {
        major
    } else {
        nice_frame_step(2 * doubled_step(major, (i - 1) as nat))
    }
}

/// `i` is the first coarsening of `major` whose ticks fit in `max_ticks`.
pub open spec fn is_first_fitting_doubling(
    start: int,
    end: int,
    major: int,
    max_ticks: int,
    i: nat,
) -> bool {
    &&& tick_count(start, end, doubled_step(major, i)) <= max_ticks
    &&& forall|j: nat| j < i ==> tick_count(start, end, doubled_step(major, j)) > max_ticks
}

/// Minor spacing that subdivides a major spacing: a fifth of it, at least 1.
pub open spec fn subdivided_step(major: int) -> int {
    if major / 5 < 1 {
        1
    } else {
        major / 5
    }
}

/// The distance between `start` rounded down and `end` rounded up to
/// `step`, over which ticks are counted, is an `i64`.
pub open spec fn countable_in_i64(start: int, end: int, step: int) -> bool {
    ceil_to_step(end, step) - floor_to_step(start, step) <= i64::MAX
}

/// Some spacing fits the frame range in `max_ticks` ticks: the subdivided
/// first major spacing, or a coarsening of it no wider than
/// `RULER_STEP_LIMIT`; and every spacing tried on the way, from the
/// subdivided one to the one that fits, has its ticks counted within `i64`.
pub open spec fn ruler_fits(start: int, end: int, min_major: int, max_ticks: int) -> bool {
    let major = nice_frame_step(min_major);
    let fine = subdivided_step(major);
    &&& countable_in_i64(start, end, fine)
    &&& {
        ||| tick_count(start, end, fine) <= max_ticks
        ||| exists|i: nat|
            #[trigger] is_first_fitting_doubling(start, end, major, max_ticks, i)
                && doubled_step(major, i) <= RULER_STEP_LIMIT && forall|j: nat|
                j <= i ==> countable_in_i64(start, end, doubled_step(major, j))
    }
}

/// Major and minor tick spacing for a frame range: minor ticks a fifth of
/// the major spacing when they fit, else the first coarsening of the major
/// spacing that fits, with no minor subdivision.
pub open spec fn ruler_steps(start: int, end: int, min_major: int, max_ticks: int) -> (int, int) {
    let major = nice_frame_step(min_major);
    let fine = subdivided_step(major);
    if tick_count(start, end, fine) <= max_ticks {
        (major, fine)
    } else {
        let i = choose|i: nat| is_first_fitting_doubling(start, end, major, max_ticks, i);
        let step = doubled_step(major, i);
        (step, step)
    }
}

/// A tick at `frame` with the given major spacing: major ticks fall on
/// multiples of the major spacing and carry the frame's timecode; minor
/// ticks carry an empty label.
pub open spec fn display_tick(
    tick: TimelineRulerTick,
    frame: int,
    major: int,
    rate: TimelineFrameRate,
) -> bool {
    &&& tick.frame@ == frame
    &&& (tick.kind == TimelineRulerTickKind::Major) == (frame % major == 0)
    &&& tick.label@ == (if frame % major == 0 {
        timecode_text(frame as i64, display_fps(rate))
    } else {
        Seq::<char>::empty()
    })
}

/// A ruler tick at a multiple of the major spacing is a major tick labelled
/// with the timecode that `timeline_timecode_label` gives its frame at the
/// ruler's own frame rate; any other tick is a minor tick with no label.
pub proof fn lemma_ruler_tick_labels(
    tick: TimelineRulerTick,
    frame: int,
    major: int,
    rate: TimelineFrameRate,
)
    requires
        display_tick(tick, frame, major, rate),
    ensures
        (tick.kind == TimelineRulerTickKind::Major) == (frame % major == 0),
        tick.kind == TimelineRulerTickKind::Major ==> tick.label@ == timecode_text(
            tick.frame@,
            display_fps(rate),
        ),
        tick.kind != TimelineRulerTickKind::Major ==> tick.label@.len() == 0,
{
}

proof fn lemma_decade(n: int, k: nat)
    requires
        n >= 2,
        pow10(k) < n <= 10 * pow10(k),
    ensures
        decade(n) == k,
    decreases k,
{
    if k > 0 {
        let p = pow10((k - 1) as nat);
        assert(pow10(k) == 10 * p);
        let next = (n + 9) / 10;
        assert(p < next <= 10 * p);
        lemma_decade(next, (k - 1) as nat);
    }
}

/// `decade(n)` brackets `n` between consecutive powers of ten.
proof fn lemma_decade_bounds(n: int)
    requires
        n >= 2,
    ensures
        pow10(decade(n)) < n <= 10 * pow10(decade(n)),
    decreases n,
{
    if n > 10 {
        let next = (n + 9) / 10;
        lemma_decade_bounds(next);
        assert(pow10(decade(n)) == 10 * pow10(decade(next)));
    }
}

/// Powers of ten grow with the exponent.
proof fn lemma_pow10_monotone(a: nat, b: nat)
    requires
        a <= b,
    ensures
        1 <= pow10(a) <= pow10(b),
    decreases b,
{
    if b > a {
        lemma_pow10_monotone(a, (b - 1) as nat);
    } else if a > 0 {
        lemma_pow10_monotone((a - 1) as nat, (a - 1) as nat);
    }
}

/// The ruler spacing for `min_frames` is at least 1 and at least `min_frames`.
proof fn lemma_nice_step_covers(min_frames: int)
    ensures
        nice_frame_step(min_frames) >= 1,
        nice_frame_step(min_frames) >= min_frames,
{
    if min_frames > 1 {
        lemma_decade_bounds(min_frames);
        lemma_pow10_monotone(0, decade(min_frames));
    }
}

/// The ruler spacing for a distance of at most `RULER_STEP_LIMIT` frames is
/// itself at most `RULER_STEP_LIMIT`.
proof fn lemma_nice_step_within_limit(min_frames: int)
    requires
        min_frames <= RULER_STEP_LIMIT,
    ensures
        nice_frame_step(min_frames) <= RULER_STEP_LIMIT,
{
    if min_frames > 1 {
        let d = decade(min_frames);
        let m = pow10(d);
        lemma_decade_bounds(min_frames);
        assert(pow10(18) == 1_000_000_000_000_000_000) by {
            reveal_with_fuel(pow10, 19);
        }
        if d >= 19 {
            lemma_pow10_monotone(19, d);
            assert(pow10(19) == 10 * pow10(18));
        }
        lemma_pow10_monotone(d, 18);
        if 5 * m < min_frames && d == 18 {
            assert(false);
        }
        if d <= 17 {
            lemma_pow10_monotone(d, 17);
            assert(pow10(18) == 10 * pow10(17));
        }
    }
}

/// Coarsenings of a spacing never shrink it.
proof fn lemma_doubled_step_monotone(major: int, a: nat, b: nat)
    requires
        major >= 1,
        a <= b,
    ensures
        1 <= doubled_step(major, a) <= doubled_step(major, b),
    decreases b,
{
    if b > a {
        lemma_doubled_step_monotone(major, a, (b - 1) as nat);
        lemma_nice_step_covers(2 * doubled_step(major, (b - 1) as nat));
    } else if a > 0 {
        lemma_doubled_step_monotone(major, (a - 1) as nat, (a - 1) as nat);
        lemma_nice_step_covers(2 * doubled_step(major, (a - 1) as nat));
    }
}

/// The ruler spacing for a distance of at least one frame is one, two or
/// five times a power of ten, reaches the distance, and is less than two
/// and a half times it.
pub proof fn lemma_nice_step_bounds(min_frames: int)
    requires
        min_frames >= 1,
    ensures
        min_frames <= nice_frame_step(min_frames),
        2 * nice_frame_step(min_frames) < 5 * min_frames,
        exists|k: nat|
            nice_frame_step(min_frames) == pow10(k) || nice_frame_step(min_frames) == 2 * pow10(k)
                || nice_frame_step(min_frames) == 5 * pow10(k),
{
    if min_frames == 1 {
        assert(nice_frame_step(min_frames) == pow10(0));
    } else {
        let d = decade(min_frames);
        lemma_decade_bounds(min_frames);
        assert(pow10(d + 1) == 10 * pow10(d));
        if 2 * pow10(d) >= min_frames {
            assert(nice_frame_step(min_frames) == 2 * pow10(d));
        } else if 5 * pow10(d) >= min_frames {
            assert(nice_frame_step(min_frames) == 5 * pow10(d));
        } else {
            assert(nice_frame_step(min_frames) == pow10(d + 1));
        }
    }
}

/// Rounding to a spacing lands on a multiple of it within one spacing:
/// down to at most the value, up to at least the value.
pub proof fn lemma_step_rounding(value: int, step: int)
    requires
        step >= 1,
    ensures
        floor_to_step(value, step) % step == 0,
        value - step < floor_to_step(value, step) <= value,
        ceil_to_step(value, step) % step == 0,
        value <= ceil_to_step(value, step) < value + step,
{
    lemma_fundamental_div_mod(value, step);
    let q = value / step;
    assert(q * step == step * q) by (nonlinear_arith);
    assert((q + 1) * step == q * step + step) by (nonlinear_arith);
    lemma_mod_multiples_basic(q, step);
    lemma_mod_multiples_basic(q + 1, step);
}

/// Ruler spacing for `min_frames`.
fn nice_step(min_frames: i128) -> (step: i128)
    requires
        min_frames <= 10_000_000_000_000_000_000,
    ensures
        step == nice_frame_step(min_frames as int),
        step >= 1,
        step >= min_frames,
        min_frames >= 1 ==> step <= 3 * min_frames,
        min_frames < 1 ==> step == 1,
{
    let x: i128 = if min_frames < 1 {
        1
    } else {
        min_frames
    };
    if x == 1 {
        return 1;
    }
    let mut magnitude: i128 = 1;
    let ghost mut k: nat = 0;
    while magnitude * 10 < x
        invariant
            2 <= x <= 10_000_000_000_000_000_000,
            magnitude == pow10(k),
            1 <= magnitude < x,
        decreases x - magnitude,
    {
        magnitude = magnitude * 10;
        proof {
            k = k + 1;
        }
    }
    proof {
        lemma_decade(x as int, k);
    }
    if 2 * magnitude >= x {
        2 * magnitude
    } else if 5 * magnitude >= x {
        5 * magnitude
    } else {
        10 * magnitude
    }
}

/// `value` rounded down to a multiple of `step`.
fn floor_multiple(value: i128, step: i128) -> (floor: i128)
    requires
        -0x1_0000_0000_0000_0000 <= value <= 0x1_0000_0000_0000_0000,
        1 <= step <= 0x1_0000_0000_0000_0000,
    ensures
        floor == floor_to_step(value as int, step as int),
        value - step < floor <= value,
{
    proof {
        lemma_fundamental_div_mod(value as int, step as int);
    }
    if value >= 0 {
        let q = ((value as u128) / (step as u128)) as i128;
        assert(q == (value as int) / (step as int));
        assert(q * step <= value && value < q * step + step) by (nonlinear_arith)
            requires
                value == step * ((value as int) / (step as int)) + (value as int) % (step as int),
                0 <= (value as int) % (step as int) < step,
                q == (value as int) / (step as int),
        ;
        q * step
    } else {
        let magnitude = (-value) as u128;
        let s = step as u128;
        let q = ((magnitude + s - 1) / s) as i128;
        assert(q * step >= magnitude && q * step < magnitude + step && q >= 0) by (nonlinear_arith)
            requires
                q == (magnitude + s - 1) as int / s as int,
                magnitude >= 1,
                s == step,
                s >= 1,
        ;
        proof {
            let r = value + q * step;
            assert(value == (-q) * step + r) by (nonlinear_arith)
                requires
                    r == value + q * step,
            ;
            lemma_fundamental_div_mod_converse(value as int, step as int, -q, r);
            assert(((value as int) / (step as int)) * step == -(q * step)) by (nonlinear_arith)
                requires
                    (value as int) / (step as int) == -q,
            ;
        }
        -(q * step)
    }
}

/// `value` rounded up to a multiple of `step`.
fn ceil_multiple(value: i128, step: i128) -> (ceil: i128)
    requires
        -0x1_0000_0000_0000_0000 <= value <= 0x1_0000_0000_0000_0000,
        1 <= step <= 0x1_0000_0000_0000_0000,
    ensures
        ceil == ceil_to_step(value as int, step as int),
        value <= ceil < value + step,
{
    let floor = floor_multiple(value, step);
    if floor == value {
        floor
    } else {
        floor + step
    }
}

/// Multiples of `step` from `start` rounded down to `end` rounded up.
fn count_ticks(start: i128, end: i128, step: i128) -> (count: i128)
    requires
        -0x1_0000_0000_0000_0000 <= start <= 0x1_0000_0000_0000_0000,
        -0x1_0000_0000_0000_0000 <= end <= 0x1_0000_0000_0000_0000,
        1 <= step <= 0x1_0000_0000_0000_0000,
    ensures
        count == tick_count(start as int, end as int, step as int),
{
    let first = floor_multiple(start, step);
    let last = ceil_multiple(end, step);
    if last < first {
        0
    } else {
        (last - first) / step + 1
    }
}

/// Multiples of `step` from `start` rounded down to `end` rounded up, or
/// `None` when the distance they span is not an `i64`.
fn count_ticks_in_i64(start: i128, end: i128, step: i128) -> (count: Option<i128>)
    requires
        -0x1_0000_0000_0000_0000 <= start <= 0x1_0000_0000_0000_0000,
        -0x1_0000_0000_0000_0000 <= end <= 0x1_0000_0000_0000_0000,
        1 <= step <= 0x1_0000_0000_0000_0000,
    ensures
        (count is Some) == countable_in_i64(start as int, end as int, step as int),
        count matches Some(c) ==> c == tick_count(start as int, end as int, step as int),
{
    let first = floor_multiple(start, step);
    let last = ceil_multiple(end, step);
    if last - first > i64::MAX as i128 {
        None
    } else {
        Some(count_ticks(start, end, step))
    }
}

proof fn lemma_doubled_step_next(major: int, i: nat)
    ensures
        doubled_step(major, i + 1) == nice_frame_step(2 * doubled_step(major, i)),
{
}

/// Picks the major and minor tick spacing for a frame range, or `None` when
/// no spacing fits in the sense of `ruler_fits`.
fn settle_steps(start: i128, end: i128, min_major: i128, max_ticks: i128) -> (steps: Option<
    (i128, i128),
>)
    requires
        -RULER_FRAME_LIMIT <= start <= RULER_FRAME_LIMIT,
        -RULER_FRAME_LIMIT <= end <= RULER_FRAME_LIMIT,
        min_major <= RULER_STEP_LIMIT,
        max_ticks >= 1,
    ensures
        (steps is Some) <==> ruler_fits(
            start as int,
            end as int,
            min_major as int,
            max_ticks as int,
        ),
        steps matches Some(s) ==> {
            let spec_steps = ruler_steps(
                start as int,
                end as int,
                min_major as int,
                max_ticks as int,
            );
            &&& s.0 == spec_steps.0
            &&& s.1 == spec_steps.1
            &&& 1 <= s.1 <= s.0 <= RULER_STEP_LIMIT
            &&& tick_count(start as int, end as int, s.1 as int) <= max_ticks
        },
{
    proof {
        lemma_nice_step_within_limit(min_major as int);
    }
    let first_major = nice_step(min_major);
    let fine: i128 = if first_major / 5 < 1 {
        1
    } else {
        first_major / 5
    };
    let ghost start_i = start as int;
    let ghost end_i = end as int;
    let ghost max_i = max_ticks as int;
    let ghost major_i = first_major as int;
    let mut major = first_major;
    let mut minor = fine;
    let ghost mut i: nat = 0;
    let mut count = match count_ticks_in_i64(start, end, minor) {
        Some(count) => count,
        None => {
            return None;
        },
    };
    while count > max_ticks
        invariant
            start_i == start as int,
            end_i == end as int,
            max_i == max_ticks as int,
            major_i == first_major as int,
            count == tick_count(start_i, end_i, minor as int),
            -RULER_FRAME_LIMIT <= start <= RULER_FRAME_LIMIT,
            -RULER_FRAME_LIMIT <= end <= RULER_FRAME_LIMIT,
            max_ticks >= 1,
            first_major == nice_frame_step(min_major as int),
            1 <= first_major <= RULER_STEP_LIMIT,
            fine == subdivided_step(first_major as int),
            countable_in_i64(start_i, end_i, fine as int),
            1 <= minor <= major <= RULER_STEP_LIMIT,
            major == doubled_step(major_i, i),
            (i == 0 && minor == fine) || (tick_count(start_i, end_i, fine as int) > max_i
                && minor == major && (forall|j: nat|
                j < i ==> tick_count(start_i, end_i, doubled_step(major_i, j)) > max_i) && (
            forall|j: nat| j <= i ==> countable_in_i64(start_i, end_i, doubled_step(major_i, j)))),
        decreases RULER_STEP_LIMIT - minor,
    {
        let ghost old_minor = minor;
        let ghost was_fine = i == 0 && minor == fine;
        proof {
            if minor == fine && i == 0 {
                assert(tick_count(start_i, end_i, fine as int) > max_i);
            }
        }
        minor = major;
        count = match count_ticks_in_i64(start, end, minor) {
            Some(count) => count,
            None => {
                proof {
                    assert forall|k: nat|
                        #[trigger] is_first_fitting_doubling(
                            start_i,
                            end_i,
                            major_i,
                            max_i,
                            k,
                        ) implies !(forall|j: nat|
                        j <= k ==> countable_in_i64(
                            start_i,
                            end_i,
                            doubled_step(major_i, j),
                        )) by {
                        if k < i {
                            assert(tick_count(start_i, end_i, doubled_step(major_i, k)) > max_i);
                        }
                        assert(!countable_in_i64(start_i, end_i, doubled_step(major_i, i)));
                    }
                }
                return None;
            },
        };
        if count > max_ticks {
            let next = nice_step(2 * major);
            proof {
                lemma_doubled_step_next(major_i, i);
                assert forall|j: nat| j < i + 1 implies tick_count(
                    start_i,
                    end_i,
                    doubled_step(major_i, j),
                ) > max_i by {
                    if j == i {
                    }
                }
            }
            if next > RULER_STEP_LIMIT as i128 {
                proof {
                    assert forall|k: nat|
                        #[trigger] is_first_fitting_doubling(
                            start_i,
                            end_i,
                            major_i,
                            max_i,
                            k,
                        ) implies doubled_step(major_i, k) > RULER_STEP_LIMIT by {
                        if k <= i {
                            assert(tick_count(start_i, end_i, doubled_step(major_i, k)) > max_i);
                        }
                        lemma_doubled_step_monotone(major_i, i + 1, k);
                    }
                }
                return None;
            }
            major = next;
            minor = major;
            count = match count_ticks_in_i64(start, end, minor) {
                Some(count) => count,
                None => {
                    proof {
                        assert forall|k: nat|
                            #[trigger] is_first_fitting_doubling(
                                start_i,
                                end_i,
                                major_i,
                                max_i,
                                k,
                            ) implies !(forall|j: nat|
                            j <= k ==> countable_in_i64(
                                start_i,
                                end_i,
                                doubled_step(major_i, j),
                            )) by {
                            if k <= i {
                                assert(tick_count(start_i, end_i, doubled_step(major_i, k))
                                    > max_i);
                            }
                            assert(!countable_in_i64(
                                start_i,
                                end_i,
                                doubled_step(major_i, i + 1),
                            ));
                        }
                    }
                    return None;
                },
            };
            proof {
                assert forall|j: nat| j <= i + 1 implies countable_in_i64(
                    start_i,
                    end_i,
                    doubled_step(major_i, j),
                ) by {
                    if j <= i {
                        if was_fine {
                            assert(j == 0);
                        }
                    }
                }
                i = i + 1;
            }
        } else {
            proof {
                if was_fine {
                    assert forall|j: nat| j <= i implies countable_in_i64(
                        start_i,
                        end_i,
                        doubled_step(major_i, j),
                    ) by {
                        assert(j == 0);
                    }
                }
            }
        }
        assert(minor > old_minor);
    }
    proof {
        if !(i == 0 && minor == fine) || tick_count(start_i, end_i, fine as int) > max_i {
            assert(is_first_fitting_doubling(start_i, end_i, major_i, max_i, i));
            let chosen = choose|c: nat| is_first_fitting_doubling(start_i, end_i, major_i, max_i, c);
            if chosen < i {
                assert(tick_count(start_i, end_i, doubled_step(major_i, chosen)) > max_i);
            } else if chosen > i {
                assert(tick_count(start_i, end_i, doubled_step(major_i, i)) > max_i);
            }
            assert(chosen == i);
        }
    }
    Some((major, minor))
}

/// `frame` is a multiple of `step`.
fn is_multiple(frame: i128, step: i128) -> (multiple: bool)
    requires
        -0x1_0000_0000_0000_0000 <= frame <= 0x1_0000_0000_0000_0000,
        1 <= step <= 0x1_0000_0000_0000_0000,
    ensures
        multiple == (frame % step == 0),
{
    proof {
        lemma_fundamental_div_mod(frame as int, step as int);
        assert(((frame as int) / (step as int)) * step == step * ((frame as int) / (step as int)))
            by (nonlinear_arith);
    }
    floor_multiple(frame, step) == frame
}

/// Emits ruler ticks for the frame range `start_frame..=end_frame`.
///
/// Major spacing starts at the ruler spacing for `min_major_frames` and
/// minor ticks subdivide it by five; when that yields more than `max_ticks`
/// ticks the subdivision is dropped and the spacing coarsened until the
/// ticks fit. Ticks run from `start_frame` rounded down to `end_frame`
/// rounded up to the minor spacing. No ticks are emitted when `max_ticks`
/// is zero.
///
/// Returns `None` exactly when `max_ticks` is positive and `ruler_fits`
/// fails: coarsening would never reach a spacing that fits, as for two
/// ticks over a range that straddles zero or one tick over a range of two
/// frames, or a spacing tried on the way spans more frames than an `i64`
/// counts, as the widest spacings do over ranges near the frame limit.
pub fn ruler_ticks_between_frames(
    start_frame: i64,
    end_frame: i64,
    min_major_frames: i64,
    max_ticks: usize,
    frame_rate: TimelineFrameRate,
) -> (ticks: Option<Vec<TimelineRulerTick>>)
    requires
        -RULER_FRAME_LIMIT <= start_frame <= RULER_FRAME_LIMIT,
        -RULER_FRAME_LIMIT <= end_frame <= RULER_FRAME_LIMIT,
        min_major_frames <= RULER_STEP_LIMIT,
    ensures
        (ticks is Some) <==> (max_ticks == 0 || ruler_fits(
            start_frame as int,
            end_frame as int,
            min_major_frames as int,
            max_ticks as int,
        )),
        ticks matches Some(t) ==> {
            &&& max_ticks == 0 ==> t@.len() == 0
            &&& max_ticks > 0 ==> ({
                let steps = ruler_steps(
                    start_frame as int,
                    end_frame as int,
                    min_major_frames as int,
                    max_ticks as int,
                );
                &&& t@.len() == tick_count(start_frame as int, end_frame as int, steps.1)
                &&& forall|i: int|
                    0 <= i < t@.len() ==> display_tick(
                        #[trigger] t@[i],
                        floor_to_step(start_frame as int, steps.1) + i * steps.1,
                        steps.0,
                        frame_rate,
                    )
            })
            &&& t@.len() <= max_ticks
            &&& forall|i: int|
                0 <= i < t@.len() ==> ((#[trigger] t@[i]).kind == TimelineRulerTickKind::Major
                    ==> t@[i].label@ == timecode_text(t@[i].frame@, display_fps(frame_rate)))
                    && (t@[i].kind != TimelineRulerTickKind::Major ==> t@[i].label@.len() == 0)
            &&& forall|i: int, j: int|
                0 <= i < j < t@.len() ==> (#[trigger] t@[i]).frame@ < (#[trigger] t@[j]).frame@
        },
{
    if max_ticks == 0 {
        return Some(Vec::new());
    }
    let start = start_frame as i128;
    let end = end_frame as i128;
    let settled = settle_steps(start, end, min_major_frames as i128, max_ticks as i128);
    let (major, minor) = match settled {
        Some(steps) => steps,
        None => {
            return None;
        },
    };
    let first = floor_multiple(start, minor);
    let last = ceil_multiple(end, minor);
    let ghost count = tick_count(start as int, end as int, minor as int);
    let ghost qf = (start as int) / (minor as int);
    let ghost ql = if floor_to_step(end as int, minor as int) == end {
        (end as int) / (minor as int)
    } else {
        (end as int) / (minor as int) + 1
    };
    proof {
        assert(last == ql * minor) by (nonlinear_arith)
            requires
                last == (if floor_to_step(end as int, minor as int) == end {
                    end as int
                } else {
                    floor_to_step(end as int, minor as int) + minor
                }),
                floor_to_step(end as int, minor as int) == ((end as int) / (minor as int)) * minor,
                ql == (if floor_to_step(end as int, minor as int) == end {
                    (end as int) / (minor as int)
                } else {
                    (end as int) / (minor as int) + 1
                }),
        ;
        if last >= first {
            assert(last - first == (ql - qf) * minor) by (nonlinear_arith)
                requires
                    last == ql * minor,
                    first == qf * minor,
            ;
            lemma_fundamental_div_mod_converse(last - first, minor as int, ql - qf, 0);
        }
    }
    let mut ticks: Vec<TimelineRulerTick> = Vec::new();
    let mut frame = first;
    assert(ticks@.len() == 0);
    assert(frame == first + ticks@.len() * minor);
    while frame <= last && ticks.len() < max_ticks
        invariant
            count == tick_count(start as int, end as int, minor as int),
            count <= max_ticks,
            1 <= minor <= major <= RULER_STEP_LIMIT,
            -RULER_FRAME_LIMIT <= start <= RULER_FRAME_LIMIT,
            -RULER_FRAME_LIMIT <= end <= RULER_FRAME_LIMIT,
            first == floor_to_step(start as int, minor as int),
            start - minor < first <= start,
            end <= last < end + minor,
            first == qf * minor,
            last == ql * minor,
            last >= first ==> count == ql - qf + 1,
            last < first ==> count == 0,
            frame == first + ticks@.len() * minor,
            ticks@.len() <= count,
            frame <= last ==> ticks@.len() < count,
            forall|i: int|
                0 <= i < ticks@.len() ==> display_tick(
                    #[trigger] ticks@[i],
                    first + i * minor,
                    major as int,
                    frame_rate,
                ),
        decreases count - ticks@.len(),
    {
        let multiple = is_multiple(frame, major);
        let label = if multiple {
            timeline_timecode_label(TimelineFrame::from_raw(frame as i64), frame_rate)
        } else {
            String::new()
        };
        let kind = if multiple {
            TimelineRulerTickKind::Major
        } else {
            TimelineRulerTickKind::Minor
        };
        let tick = TimelineRulerTick { kind, frame: TimelineFrame::from_raw(frame as i64), label };
        let ghost before = ticks@;
        ticks.push(tick);
        proof {
            assert forall|i: int| 0 <= i < ticks@.len() implies display_tick(
                #[trigger] ticks@[i],
                first + i * minor,
                major as int,
                frame_rate,
            ) by {
                if i < before.len() {
                    assert(ticks@[i] == before[i]);
                }
            }
            let n = ticks@.len() as int;
            assert(frame + minor == first + n * minor) by (nonlinear_arith)
                requires
                    frame == first + (n - 1) * minor,
            ;
            if frame + minor <= last {
                assert(n < ql - qf + 1) by (nonlinear_arith)
                    requires
                        first + n * minor <= last,
                        first == qf * minor,
                        last == ql * minor,
                        minor >= 1,
                ;
            }
        }
        frame = frame + minor;
    }
    proof {
        let n = ticks@.len() as int;
        if n < max_ticks && last >= first {
            assert(n >= ql - qf + 1) by (nonlinear_arith)
                requires
                    first + n * minor > last,
                    first == qf * minor,
                    last == ql * minor,
                    minor >= 1,
            ;
        }
        assert forall|i: int, j: int|
            0 <= i < j < ticks@.len() implies (#[trigger] ticks@[i]).frame@ < (
            #[trigger] ticks@[j]).frame@ by {
            assert(i * minor < j * minor) by (nonlinear_arith)
                requires
                    i < j,
                    minor >= 1,
            ;
        }
    }
    Some(ticks)
}

} // verus!
