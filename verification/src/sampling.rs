//! How densely the perimeter of the clear aperture is sampled, and at which
//! angles.
use crate::mask::OpticalPathMaskSpecs;
use vstd::arithmetic::div_mod::lemma_fundamental_div_mod;
use vstd::prelude::*;

verus! {

/// The number of perimeter steps taken when no step length is asked for.
pub const DEFAULT_STEPS: u64 = 4;

/// Numerator of the fraction that stands for pi: the binary64 number nearest
/// to pi is exactly `PI_NUMERATOR / PI_DENOMINATOR`.
pub const PI_NUMERATOR: u64 = 884_279_719_003_555;

/// Denominator of the fraction that stands for pi, 2^48.
pub const PI_DENOMINATOR: u64 = 281_474_976_710_656;

/// Why a sampling policy is refused.
#[derive(Clone, Copy, Debug, PartialEq, Eq, Structural)]
pub enum SamplingError {
    /// The step length is zero or negative.
    NonPositiveStep,
}

/// The angle of one perimeter sample: `index / of` of a full turn.
#[derive(Clone, Copy, Debug, PartialEq, Eq, Structural)]
pub struct Turn {
    pub index: u64,
    pub of: u64,
}

impl Turn {
    /// The turn is a fraction between nothing and a full turn.
    pub open spec fn wf(self) -> bool {
        0 < self.of && self.index <= self.of
    }

    /// Both turns point the same way: they differ by whole turns.
    pub open spec fn same_direction(self, other: Turn) -> bool {
        (self.index * other.of - other.index * self.of) % (self.of * other.of) == 0
    }
}

/// `count` steps of length `step` reach around a circle of the given radius.
pub open spec fn steps_cover(count: int, radius: int, step: int) -> bool {
    count * step * PI_DENOMINATOR >= 2 * PI_NUMERATOR * radius
}

/// The number of steps of length `step` along the perimeter of a circle of the
/// given radius: the circumference over the step, rounded up.
pub open spec fn perimeter_steps(radius: int, step: int) -> int {
    (2 * PI_NUMERATOR * radius + PI_DENOMINATOR * step - 1) / (PI_DENOMINATOR * step)
}

/// The number of perimeter steps that a sampling policy gives for a mask:
/// the default without a step length, else as many steps of that length as
/// reach around the clear aperture.
pub open spec fn spec_sample_count(mask_specs: OpticalPathMaskSpecs, step: Option<i64>) -> Result<
    int,
    SamplingError,
> {
    match step {
        None => Ok(DEFAULT_STEPS as int),
        Some(s) => if s <= 0 {
            Err(SamplingError::NonPositiveStep)
        } else {
            Ok(perimeter_steps(mask_specs.spec_clear_radius(), s as int))
        },
    }
}

/// The angle of sample `i` of a perimeter cut into `steps` steps.  A perimeter
/// of no steps has its one sample at angle zero.
pub open spec fn turn_at(i: int, steps: int) -> Turn {
    if steps == 0 {
        Turn { index: 0, of: 1 }
    } else {
        Turn { index: i as u64, of: steps as u64 }
    }
}

/// `perimeter_steps` is the least number of steps that reach around the
/// circle: that many steps and any more do, any fewer do not.
pub proof fn perimeter_steps_is_the_least_cover(radius: int, step: int)
    requires
        0 <= radius,
        0 < step,
    ensures
        0 <= perimeter_steps(radius, step),
        forall|count: int| #[trigger]
            steps_cover(count, radius, step) <==> count >= perimeter_steps(radius, step),
{
    let den = PI_DENOMINATOR * step;
    let num = 2 * PI_NUMERATOR * radius;
    let n = perimeter_steps(radius, step);
    lemma_fundamental_div_mod(num + den - 1, den);
    let r = (num + den - 1) % den;
    assert forall|count: int| #[trigger]
        steps_cover(count, radius, step) <==> count >= n by {
        assert(count * step * PI_DENOMINATOR == den * count) by (nonlinear_arith)
            requires
                den == PI_DENOMINATOR * step,
        ;
        assert(count >= n <==> den * count >= num) by (nonlinear_arith)
            requires
                den * n + r == num + den - 1,
                0 <= r < den,
        ;
    }
}

/// The number of steps into which the perimeter of the clear aperture is cut.
///
/// Without a step length there are four.  With one, given in nanometres, there
/// are as many as reach around the perimeter; a step length that is not
/// positive is refused.
pub fn sample_count(mask_specs: &OpticalPathMaskSpecs, step: Option<i64>) -> (n: Result<
    u64,
    SamplingError,
>)
    ensures
        match n {
            Ok(k) => spec_sample_count(*mask_specs, step) == Ok::<int, SamplingError>(k as int),
            Err(e) => spec_sample_count(*mask_specs, step) == Err::<int, SamplingError>(e),
        },
        step is None ==> n == Ok::<u64, SamplingError>(4),
        step matches Some(s) ==> (s > 0 ==> (n matches Ok(k) && forall|count: int| #[trigger]
            steps_cover(count, mask_specs.spec_clear_radius(), s as int) <==> count >= k)),
        n matches Ok(k) ==> 1 <= k <= 60_000_000_000,
{
    match step {
        None => Ok(DEFAULT_STEPS),
        Some(s) => {
            if s <= 0 {
                Err(SamplingError::NonPositiveStep)
            } else {
                let radius: i64 = mask_specs.clear_radius();
                assert(0 <= 2 * PI_NUMERATOR * radius <= 8_000_000_000_000_000_000_000_000)
                    by (nonlinear_arith)
                    requires
                        PI_NUMERATOR == 884_279_719_003_555,
                        4_000_000_000 <= radius <= 4_200_000_000,
                ;
                let num: u128 = 2 * (PI_NUMERATOR as u128) * (radius as u128);
                let den: u128 = (PI_DENOMINATOR as u128) * (s as u128);
                let n: u128 = (num + den - 1) / den;
                proof {
                    perimeter_steps_is_the_least_cover(radius as int, s as int);
                    assert(steps_cover(60_000_000_000, radius as int, s as int))
                        by (nonlinear_arith)
                        requires
                            4_000_000_000 <= radius <= 4_200_000_000,
                            s >= 1,
                    ;
                    assert(!steps_cover(0, radius as int, s as int)) by (nonlinear_arith)
                        requires
                            4_000_000_000 <= radius <= 4_200_000_000,
                    ;
                }
                Ok(n as u64)
            }
        },
    }
}

/// The number of rays in the bundle: one for each end of every perimeter
/// step, so one more than there are steps.
pub fn ray_count(mask_specs: &OpticalPathMaskSpecs, step: Option<i64>) -> (n: Result<
    u64,
    SamplingError,
>)
    ensures
        match n {
            Ok(k) => spec_sample_count(*mask_specs, step) == Ok::<int, SamplingError>(k - 1),
            Err(e) => spec_sample_count(*mask_specs, step) == Err::<int, SamplingError>(e),
        },
        step is None ==> n == Ok::<u64, SamplingError>(5),
{
    match sample_count(mask_specs, step) {
        Ok(k) => Ok(k + 1),
        Err(e) => Err(e),
    }
}

/// The angles of the samples of a perimeter cut into `steps` steps: sample
/// `i` stands at `i / steps` of a full turn, for `i` from 0 to `steps`, both
/// included, so that the last sample closes the loop on the first.
pub fn sample_turns(steps: u64) -> (turns: Vec<Turn>)
    requires
        steps < usize::MAX,
    ensures
        turns.len() == steps + 1,
        forall|i: int| 0 <= i <= steps ==> #[trigger] turns[i] == turn_at(i, steps as int),
{
    let mut turns: Vec<Turn> = Vec::new();
    if steps == 0 {
        turns.push(Turn { index: 0, of: 1 });
        return turns;
    }
    let mut i: u64 = 0;
    while i <= steps
        invariant
            0 < steps < usize::MAX,
            i <= steps + 1,
            turns.len() == i,
            forall|k: int| 0 <= k < i ==> #[trigger] turns[k] == turn_at(k, steps as int),
        decreases steps + 1 - i,
    {
        turns.push(Turn { index: i, of: steps });
        i += 1;
    }
    turns
}

/// Every sample angle is a fraction of a turn, the first is no turn at all and
/// the last a full turn, which points the same way.
pub proof fn closing_sample_repeats_the_first(steps: u64)
    ensures
        forall|i: int| 0 <= i <= steps ==> (#[trigger] turn_at(i, steps as int)).wf(),
        turn_at(0, steps as int).index == 0,
        turn_at(0, steps as int).same_direction(turn_at(steps as int, steps as int)),
{
    if steps > 0 {
        let n = steps as int;
        assert((0 * n - n * n) % (n * n) == 0) by (nonlinear_arith)
            requires
                n > 0,
        ;
    }
}

} // verus!
