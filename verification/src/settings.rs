//! The two tunable parameters of the spring and the controls that change them.

use vstd::prelude::*;
use crate::spring::Spring;
use crate::vector::Vector;

verus! {

/// Smallest stiffness: 2.
pub const STIFFNESS_MIN: i64 = 2_000_000;

/// Largest stiffness: 10.
pub const STIFFNESS_MAX: i64 = 10_000_000;

/// Change of the stiffness per control: 1.
pub const STIFFNESS_STEP: i64 = 1_000_000;

/// Stiffness at start: 4.
pub const STIFFNESS_START: i64 = 4_000_000;

/// Smallest rest length from which the spring can still be shortened: 20.
pub const REST_LENGTH_MIN: i64 = 20_000_000;

/// Largest rest length from which the spring can still be lengthened: 500.
pub const REST_LENGTH_MAX: i64 = 500_000_000;

/// Change of the rest length per control: 10.
pub const REST_LENGTH_STEP: i64 = 10_000_000;

/// Rest length at start: 50.
pub const REST_LENGTH_START: i64 = 50_000_000;

/// A discrete request to change one of the two parameters by one step.
#[derive(Clone, Copy, Debug, PartialEq, Eq, Structural)]
pub enum Control {
    /// Lower the stiffness.
    Soften,
    /// Raise the stiffness.
    Stiffen,
    /// Lower the rest length.
    Shorten,
    /// Raise the rest length.
    Lengthen,
}

/// The live parameters from which each frame's spring is made.
#[derive(Clone, Copy, Debug, PartialEq, Eq, Structural)]
pub struct Settings {
    pub stiffness: i64,
    pub rest_length: i64,
}

impl Settings {
    /// The stiffness lies between its two bounds.
    pub open spec fn stiffness_in_range(self) -> bool {
        STIFFNESS_MIN <= self.stiffness <= STIFFNESS_MAX
    }

    /// The rest length lies within one step of its two bounds. The bound is
    /// tested before the step is taken, so the rest length can pass either
    /// bound by one step, and no further.
    pub open spec fn rest_length_in_range(self) -> bool {
        REST_LENGTH_MIN - REST_LENGTH_STEP <= self.rest_length <= REST_LENGTH_MAX
            + REST_LENGTH_STEP
    }

    /// Both parameters lie in their ranges.
    pub open spec fn wf(self) -> bool {
        self.stiffness_in_range() && self.rest_length_in_range()
    }

    /// The settings after one control.
    ///
    /// The stiffness moves by one step only where the result stays between its
    /// bounds. The rest length moves by one step from any value that is still
    /// between its bounds.
    pub open spec fn adjusted(self, control: Control) -> Settings {
        match control {
            Control::Soften => Settings {
                stiffness: if self.stiffness - STIFFNESS_STEP >= STIFFNESS_MIN {
                    (self.stiffness - STIFFNESS_STEP) as i64
                } else {
                    self.stiffness
                },
                rest_length: self.rest_length,
            },
            Control::Stiffen => Settings {
                stiffness: if self.stiffness + STIFFNESS_STEP <= STIFFNESS_MAX {
                    (self.stiffness + STIFFNESS_STEP) as i64
                } else {
                    self.stiffness
                },
                rest_length: self.rest_length,
            },
            Control::Shorten => Settings {
                stiffness: self.stiffness,
                rest_length: if self.rest_length >= REST_LENGTH_MIN {
                    (self.rest_length - REST_LENGTH_STEP) as i64
                } else {
                    self.rest_length
                },
            },
            Control::Lengthen => Settings {
                stiffness: self.stiffness,
                rest_length: if self.rest_length <= REST_LENGTH_MAX {
                    (self.rest_length + REST_LENGTH_STEP) as i64
                } else {
                    self.rest_length
                },
            },
        }
    }

    /// The settings at start: stiffness 4, rest length 50.
    pub open spec fn spec_new() -> Settings {
        Settings { stiffness: STIFFNESS_START, rest_length: REST_LENGTH_START }
    }

    /// The settings at start: stiffness 4, rest length 50.
    #[verifier::when_used_as_spec(spec_new)]
    pub fn new() -> (r: Settings)
        ensures
            r == Settings::spec_new(),
            r.wf(),
    {
        Settings { stiffness: STIFFNESS_START, rest_length: REST_LENGTH_START }
    }

    /// Applies one control. Settings that are in range stay in range.
    pub fn adjust(&mut self, control: Control)
        ensures
            *final(self) == old(self).adjusted(control),
            old(self).stiffness_in_range() ==> final(self).stiffness_in_range(),
            old(self).rest_length_in_range() ==> final(self).rest_length_in_range(),
    {
        match control {
            Control::Soften => {
                if self.stiffness >= STIFFNESS_MIN + STIFFNESS_STEP {
                    self.stiffness = self.stiffness - STIFFNESS_STEP;
                }
            },
            Control::Stiffen => {
                if self.stiffness <= STIFFNESS_MAX - STIFFNESS_STEP {
                    self.stiffness = self.stiffness + STIFFNESS_STEP;
                }
            },
            Control::Shorten => {
                if self.rest_length >= REST_LENGTH_MIN {
                    self.rest_length = self.rest_length - REST_LENGTH_STEP;
                }
            },
            Control::Lengthen => {
                if self.rest_length <= REST_LENGTH_MAX {
                    self.rest_length = self.rest_length + REST_LENGTH_STEP;
                }
            },
        }
    }

    /// This frame's spring: the current parameters, fixed at `anchor`.
    pub fn spring(&self, anchor: Vector) -> (r: Spring)
        ensures
            r.stiffness() == self.stiffness,
            r.length_at_rest() == self.rest_length,
            r.fixed_at() == anchor,
    {
        Spring::new(self.stiffness, self.rest_length, anchor)
    }
}

impl Settings {
    /// The settings after a sequence of controls, applied first to last.
    pub open spec fn adjusted_by(self, controls: Seq<Control>) -> Settings
        decreases controls.len(),
    {
        if controls.len() == 0 {
            self
        } else {
            self.adjusted_by(controls.drop_last()).adjusted(controls.last())
        }
    }
}

/// One control keeps each parameter in its range.
pub proof fn law_control_keeps_range(settings: Settings, control: Control)
    ensures
        settings.stiffness_in_range() ==> settings.adjusted(control).stiffness_in_range(),
        settings.rest_length_in_range() ==> settings.adjusted(control).rest_length_in_range(),
{
}

/// No sequence of controls takes settings that are in range out of range: the
/// stiffness stays between 2 and 10, the rest length between 10 and 510.
pub proof fn law_controls_keep_range(settings: Settings, controls: Seq<Control>)
    requires
        settings.wf(),
    ensures
        settings.adjusted_by(controls).wf(),
    decreases controls.len(),
{
    if controls.len() > 0 {
        law_controls_keep_range(settings, controls.drop_last());
        law_control_keeps_range(settings.adjusted_by(controls.drop_last()), controls.last());
    }
}

/// Softening stops at the lower bound: `n` softenings of a stiffness that is
/// a whole number of steps above the bound lower it by `n` steps, but not
/// below the bound, which is reached and then kept.
pub proof fn law_softening_stops(settings: Settings, steps_above: nat, n: nat)
    requires
        settings.stiffness == STIFFNESS_MIN + steps_above * STIFFNESS_STEP,
        settings.stiffness <= STIFFNESS_MAX,
    ensures
        settings.adjusted_by(Seq::new(n, |i: int| Control::Soften)).stiffness == (if n
            <= steps_above {
            settings.stiffness - n * STIFFNESS_STEP
        } else {
            STIFFNESS_MIN as int
        }),
        settings.adjusted_by(Seq::new(n, |i: int| Control::Soften)).rest_length
            == settings.rest_length,
    decreases n,
{
    let controls = Seq::new(n, |i: int| Control::Soften);
    if n > 0 {
        let fewer = Seq::new((n - 1) as nat, |i: int| Control::Soften);
        assert(controls.drop_last() =~= fewer);
        law_softening_stops(settings, steps_above, (n - 1) as nat);
    }
}

/// Stiffening stops at the upper bound: `n` stiffenings of a stiffness that
/// is a whole number of steps below the bound raise it by `n` steps, but not
/// above the bound, which is reached and then kept.
pub proof fn law_stiffening_stops(settings: Settings, steps_below: nat, n: nat)
    requires
        settings.stiffness == STIFFNESS_MAX - steps_below * STIFFNESS_STEP,
        settings.stiffness >= STIFFNESS_MIN,
    ensures
        settings.adjusted_by(Seq::new(n, |i: int| Control::Stiffen)).stiffness == (if n
            <= steps_below {
            settings.stiffness + n * STIFFNESS_STEP
        } else {
            STIFFNESS_MAX as int
        }),
        settings.adjusted_by(Seq::new(n, |i: int| Control::Stiffen)).rest_length
            == settings.rest_length,
    decreases n,
{
    let controls = Seq::new(n, |i: int| Control::Stiffen);
    if n > 0 {
        let fewer = Seq::new((n - 1) as nat, |i: int| Control::Stiffen);
        assert(controls.drop_last() =~= fewer);
        law_stiffening_stops(settings, steps_below, (n - 1) as nat);
    }
}

} // verus!
