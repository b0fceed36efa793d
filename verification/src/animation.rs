//! The animation clock: how far a transition has come, and how much of the
//! incoming image is blended in.

use vstd::prelude::*;
use crate::geometry::{BackgroundMode, Fraction, Ratio};

verus! {

/// Length of a transition, in ticks of the caller's clock.
pub const ANIMATION_TIME: u32 = 300;

/// Ticks from `time_started` to `time`; none before the start.
pub open spec fn elapsed(time: int, time_started: int) -> int {
    if time >= time_started {
        time - time_started
    } else {
        0
    }
}

/// The part of a transition of `duration` ticks that is over at `time`: the
/// elapsed ticks over the duration, and 1 from the end on.
pub open spec fn progress_at(time: int, time_started: int, duration: int) -> Ratio {
    let e = elapsed(time, time_started);
    Ratio {
        num: if e < duration {
            e
        } else {
            duration
        },
        den: duration,
    }
}

/// A transition is past its midpoint when more than half of it is over.
pub open spec fn past_midpoint(progress: Ratio) -> bool {
    2 * progress.num > progress.den
}

/// The blend factor handed to the shader for a transition that is `progress`
/// over.
///
/// Outside Fit it is the progress itself. Fit runs two fades of half the
/// length each. Up to and at the midpoint the factor is twice the progress,
/// so that the first fade ends at 1 when one half is over; after the midpoint
/// it is twice the progress made beyond one half, so that the second fade
/// starts again near 0; at the end it is 1.
pub open spec fn blend_at(progress: Ratio, mode: BackgroundMode) -> Ratio {
    if mode == BackgroundMode::Fit && progress.num < progress.den {
        if past_midpoint(progress) {
            Ratio { num: 2 * progress.num - progress.den, den: progress.den }
        } else {
            Ratio { num: 2 * progress.num, den: progress.den }
        }
    } else {
        progress
    }
}

/// Whether a transition started at `time_started` still runs at `time`.
pub open spec fn animating_at(time: int, time_started: int, duration: int) -> bool {
    time < time_started + duration
}

/// Computes [`progress_at`].
pub fn progress(time: u32, time_started: u32, duration: u32) -> (p: Fraction)
    ensures
        p@ == progress_at(time as int, time_started as int, duration as int),
        duration > 0 ==> p.wf() && p@.in_unit(),
{
    let e: u32 = if time >= time_started {
        time - time_started
    } else {
        0
    };
    let num: u32 = if e < duration {
        e
    } else {
        duration
    };
    Fraction { num: num as i128, den: duration as i128 }
}

/// Computes [`past_midpoint`] for a progress between 0 and 1 whose
/// denominator can be doubled in 128 bits, as [`progress`] returns it.
pub fn is_past_midpoint(progress: &Fraction) -> (r: bool)
    requires
        progress.wf(),
        progress@.in_unit(),
        progress.den <= i128::MAX / 2,
    ensures
        r == past_midpoint(progress@),
{
    2 * progress.num > progress.den
}

/// Computes [`blend_at`] for a progress between 0 and 1 whose denominator
/// can be doubled in 128 bits, as [`progress`] returns it.
pub fn blend_factor(progress: Fraction, mode: BackgroundMode) -> (r: Fraction)
    requires
        progress.wf(),
        progress@.in_unit(),
        progress.den <= i128::MAX / 2,
    ensures
        r@ == blend_at(progress@, mode),
        r.wf(),
        r@.in_unit(),
{
    match mode {
        BackgroundMode::Fit => {
            if progress.num >= progress.den {
                progress
            } else if is_past_midpoint(&progress) {
                Fraction { num: 2 * progress.num - progress.den, den: progress.den }
            } else {
                Fraction { num: 2 * progress.num, den: progress.den }
            }
        },
        _ => progress,
    }
}

/// Progress never goes back as time goes on, it starts at 0, and it is 1 from
/// the end of the transition on.
pub proof fn lemma_progress_is_monotonic(earlier: int, later: int, time_started: int, duration: int)
    requires
        earlier <= later,
        duration > 0,
    ensures
        progress_at(earlier, time_started, duration).le(
            progress_at(later, time_started, duration),
        ),
        earlier <= time_started ==> progress_at(earlier, time_started, duration).is_int(0),
        later - time_started >= duration ==> progress_at(later, time_started, duration).is_int(1),
{
    let p = progress_at(earlier, time_started, duration);
    let q = progress_at(later, time_started, duration);
    assert(p.num * duration <= q.num * duration) by (nonlinear_arith)
        requires
            p.num <= q.num,
            duration > 0,
    ;
}

/// In Fit mode each half of a transition is a fade of its own: the blend
/// factor is twice the progress up to the midpoint, where it reaches 1, twice
/// the progress beyond one half after it, and 1 at the end.
pub proof fn lemma_fit_blend_restarts_after_midpoint(progress: Ratio)
    requires
        progress.wf(),
        progress.in_unit(),
    ensures
        ({
            let b = blend_at(progress, BackgroundMode::Fit);
            &&& b.den == progress.den
            &&& b.in_unit()
            &&& 2 * progress.num <= progress.den ==> b.num == 2 * progress.num
            &&& 2 * progress.num == progress.den ==> b.is_int(1)
            &&& progress.den < 2 * progress.num < 2 * progress.den ==> b.num == 2 * progress.num
                - progress.den
            &&& progress.num == progress.den ==> b.is_int(1)
        }),
{
}

/// Within one half of a Fit transition the blend factor never goes back as
/// the progress goes on: the old image only fades out in the first half, and
/// the new one only fades in in the second.
pub proof fn lemma_fit_blend_is_monotonic_in_each_half(earlier: Ratio, later: Ratio)
    requires
        earlier.wf(),
        earlier.in_unit(),
        later.in_unit(),
        earlier.den == later.den,
        earlier.num <= later.num,
        past_midpoint(earlier) == past_midpoint(later),
    ensures
        blend_at(earlier, BackgroundMode::Fit).le(blend_at(later, BackgroundMode::Fit)),
{
    let d = earlier.den;
    let p = blend_at(earlier, BackgroundMode::Fit);
    let q = blend_at(later, BackgroundMode::Fit);
    assert(p.num * d <= q.num * d) by (nonlinear_arith)
        requires
            p.num <= q.num,
            d > 0,
    ;
}

} // verus!
